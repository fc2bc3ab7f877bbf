use vstd::prelude::*;

use crate::text::str_eq;

verus! {

/// How a cover picture is drawn in the terminal.
#[derive(Debug, Clone, Copy, PartialEq, Eq, Structural)]
pub enum CoverArtRenderMode {
    Ascii,
    NormalImage,
}

/// The themes offered by the settings screen, in their order.
#[derive(Debug, Clone, Copy, PartialEq, Eq, Structural)]
pub enum ThemeKind {
    Default,
    HatsuneMiku,
    KasaneTeto,
}

/// The theme at a position of the theme list.
pub open spec fn spec_theme_at(i: int) -> ThemeKind {
    if i == 1 {
        ThemeKind::HatsuneMiku
    } else if i == 2 {
        ThemeKind::KasaneTeto
    } else {
        ThemeKind::Default
    }
}

/// Position of the theme named `name`, or 0 when no theme has that name.
pub open spec fn spec_theme_index(name: Seq<char>) -> int {
    if name == "Default"@ {
        0
    } else if name == "Hatsune Miku"@ {
        1
    } else if name == "Kasane Teto"@ {
        2
    } else {
        0
    }
}

impl ThemeKind {
    /// The name shown in the settings.
    pub fn name(&self) -> (r: &'static str)
        ensures
            r@ == match *self {
                ThemeKind::Default => "Default"@,
                ThemeKind::HatsuneMiku => "Hatsune Miku"@,
                ThemeKind::KasaneTeto => "Kasane Teto"@,
            },
    {
        match self {
            ThemeKind::Default => "Default",
            ThemeKind::HatsuneMiku => "Hatsune Miku",
            ThemeKind::KasaneTeto => "Kasane Teto",
        }
    }

    /// All themes, in order.
    pub fn all_themes() -> (r: Vec<ThemeKind>)
        ensures
            r@ == seq![ThemeKind::Default, ThemeKind::HatsuneMiku, ThemeKind::KasaneTeto],
    {
        vec![ThemeKind::Default, ThemeKind::HatsuneMiku, ThemeKind::KasaneTeto]
    }

    /// Position of the theme named `name` in the theme list, or 0 when no
    /// theme has that name.
    pub fn current_index(name: &str) -> (r: usize)
        ensures
            r == spec_theme_index(name@),
    {
        proof {
            lemma_theme_names_distinct();
        }
        if str_eq(name, "Default") {
            0
        } else if str_eq(name, "Hatsune Miku") {
            1
        } else if str_eq(name, "Kasane Teto") {
            2
        } else {
            0
        }
    }

    /// The theme after the one named `current_name`, wrapping from the last to
    /// the first; an unknown name counts as the first theme.
    pub fn next_theme(current_name: &str) -> (r: ThemeKind)
        ensures
            r == spec_theme_at((spec_theme_index(current_name@) + 1) % 3),
    {
        let themes = ThemeKind::all_themes();
        let index = ThemeKind::current_index(current_name);
        let next_index = (index + 1) % themes.len();
        themes[next_index]
    }
}

proof fn lemma_theme_names_distinct()
    ensures
        "Default"@ != "Hatsune Miku"@,
        "Default"@ != "Kasane Teto"@,
        "Hatsune Miku"@ != "Kasane Teto"@,
{
    reveal_strlit("Default");
    reveal_strlit("Hatsune Miku");
    reveal_strlit("Kasane Teto");
    assert("Default"@.len() == 7);
    assert("Hatsune Miku"@.len() == 12);
    assert("Kasane Teto"@.len() == 11);
}

} // verus!
