use vstd::prelude::*;

use crate::keys::{cycle_next, cycle_prev, wrap_next, wrap_prev, Key};
use crate::routes::{get_next_tab, route_for_name, RouteKind};

verus! {

/// How the normalizer measures the level it corrects: by sample peak, or by
/// integrated loudness (LUFS).
#[derive(Debug, Clone, Copy, PartialEq, Eq, Structural)]
pub enum NormalizationMode {
    Peak,
    Loudness,
}

impl NormalizationMode {
    /// Name shown for the mode.
    pub fn label(&self) -> (r: &'static str)
        ensures
            r@ == match *self {
                NormalizationMode::Peak => "Peak"@,
                NormalizationMode::Loudness => "Loudness"@,
            },
    {
        match self {
            NormalizationMode::Peak => "Peak",
            NormalizationMode::Loudness => "Loudness",
        }
    }

    /// The other mode.
    pub fn toggled(&self) -> (r: NormalizationMode)
        ensures
            r != *self,
    {
        match self {
            NormalizationMode::Peak => NormalizationMode::Loudness,
            NormalizationMode::Loudness => NormalizationMode::Peak,
        }
    }
}

/// Rows of the normalization screen: enabled, mode, target, headroom.
pub const SETTING_COUNT: usize = 4;

/// What the normalization screen asks the normalizer to do after a key.
#[derive(Debug, Clone, Copy, PartialEq, Eq, Structural)]
pub enum NormalizationCommand {
    Nothing,
    ToggleEnabled,
    ToggleMode,
    AdjustTarget { increase: bool },
    AdjustHeadroom { increase: bool },
}

/// The normalization settings screen: which row is selected.
#[derive(Debug, Clone, Copy, PartialEq, Eq, Structural)]
pub struct NormalizationRoute {
    pub selected: usize,
}

/// Left and Right on a row: switch the first two settings, step the target,
/// and step the headroom, which only loudness mode uses.
pub open spec fn spec_adjust_selected(selected: usize, mode: NormalizationMode, increase: bool) -> NormalizationCommand {
    if selected == 0 {
        NormalizationCommand::ToggleEnabled
    } else if selected == 1 {
        NormalizationCommand::ToggleMode
    } else if selected == 2 {
        NormalizationCommand::AdjustTarget { increase }
    } else if selected == 3 && mode == NormalizationMode::Loudness {
        NormalizationCommand::AdjustHeadroom { increase }
    } else {
        NormalizationCommand::Nothing
    }
}

/// The screen's answer to a key: the row selected after it and the command.
pub open spec fn spec_normalization_key(selected: usize, key: Key, mode: NormalizationMode) -> (int, NormalizationCommand) {
    match key {
        Key::Up => (cycle_prev(selected as int, SETTING_COUNT as int), NormalizationCommand::Nothing),
        Key::Down => (cycle_next(selected as int, SETTING_COUNT as int), NormalizationCommand::Nothing),
        Key::Left => (selected as int, spec_adjust_selected(selected, mode, false)),
        Key::Right => (selected as int, spec_adjust_selected(selected, mode, true)),
        Key::Enter => (selected as int, if selected == 0 {
            NormalizationCommand::ToggleEnabled
        } else if selected == 1 {
            NormalizationCommand::ToggleMode
        } else {
            NormalizationCommand::Nothing
        }),
        Key::Char(c) => (selected as int, if c == 't' {
            NormalizationCommand::ToggleEnabled
        } else if c == 'm' {
            NormalizationCommand::ToggleMode
        } else {
            NormalizationCommand::Nothing
        }),
        _ => (selected as int, NormalizationCommand::Nothing),
    }
}

impl NormalizationRoute {
    /// The first row selected.
    pub fn new() -> (r: NormalizationRoute)
        ensures
            r.selected == 0,
    {
        NormalizationRoute { selected: 0 }
    }

    /// Select the next row, wrapping to the first.
    pub fn next(&mut self)
        ensures
            final(self).selected == cycle_next(old(self).selected as int, SETTING_COUNT as int),
    {
        self.selected = wrap_next(self.selected, SETTING_COUNT);
    }

    /// Select the previous row, wrapping to the last.
    pub fn previous(&mut self)
        ensures
            final(self).selected == cycle_prev(old(self).selected as int, SETTING_COUNT as int),
    {
        self.selected = wrap_prev(self.selected, SETTING_COUNT);
    }

    /// What Left (`increase` false) or Right does to the selected row.
    pub fn adjust_selected(&self, mode: NormalizationMode, increase: bool) -> (r: NormalizationCommand)
        ensures
            r == spec_adjust_selected(self.selected, mode, increase),
    {
        if self.selected == 0 {
            NormalizationCommand::ToggleEnabled
        } else if self.selected == 1 {
            NormalizationCommand::ToggleMode
        } else if self.selected == 2 {
            NormalizationCommand::AdjustTarget { increase }
        } else if self.selected == 3 && mode == NormalizationMode::Loudness {
            NormalizationCommand::AdjustHeadroom { increase }
        } else {
            NormalizationCommand::Nothing
        }
    }

    /// Handle a key: Up and Down move the selection, Left and Right adjust the
    /// selected row, Enter switches the first two rows, `t` and `m` switch the
    /// normalizer and its mode from anywhere.
    pub fn handle_key(&mut self, key: Key, mode: NormalizationMode) -> (cmd: NormalizationCommand)
        ensures
            (final(self).selected as int, cmd) == spec_normalization_key(old(self).selected, key, mode),
    {
        match key {
            Key::Up => {
                self.previous();
                NormalizationCommand::Nothing
            },
            Key::Down => {
                self.next();
                NormalizationCommand::Nothing
            },
            Key::Left => self.adjust_selected(mode, false),
            Key::Right => self.adjust_selected(mode, true),
            Key::Enter => {
                if self.selected == 0 {
                    NormalizationCommand::ToggleEnabled
                } else if self.selected == 1 {
                    NormalizationCommand::ToggleMode
                } else {
                    NormalizationCommand::Nothing
                }
            },
            Key::Char(c) => {
                if c == 't' {
                    NormalizationCommand::ToggleEnabled
                } else if c == 'm' {
                    NormalizationCommand::ToggleMode
                } else {
                    NormalizationCommand::Nothing
                }
            },
            _ => NormalizationCommand::Nothing,
        }
    }

    /// Tab leaves this screen for the tab after Settings, which is the log.
    pub fn intercept_global_key(&self, key: Key) -> (r: Option<RouteKind>)
        ensures
            r == (if key == Key::Tab {
                Some(RouteKind::Log)
            } else {
                None::<RouteKind>
            }),
    {
        if key == Key::Tab {
            proof {
                crate::routes::lemma_route_names_distinct();
            }
            match get_next_tab("Settings") {
                Some(name) => Some(route_for_name(name)),
                None => None,
            }
        } else {
            None
        }
    }

    /// Name shown in the navigation for this screen.
    pub fn name(&self) -> (r: &'static str)
        ensures
            r@ == "Normalization"@,
    {
        "Normalization"
    }
}

} // verus!
