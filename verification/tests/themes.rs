use audido::themes::ThemeKind;

#[test]
fn themes_cycle_by_name() {
    assert_eq!(ThemeKind::all_themes(), vec![ThemeKind::Default, ThemeKind::HatsuneMiku, ThemeKind::KasaneTeto]);
    assert_eq!(ThemeKind::current_index("Default"), 0);
    assert_eq!(ThemeKind::current_index("Hatsune Miku"), 1);
    assert_eq!(ThemeKind::current_index("Kasane Teto"), 2);
    assert_eq!(ThemeKind::current_index("Unknown"), 0);
    assert_eq!(ThemeKind::next_theme("Default"), ThemeKind::HatsuneMiku);
    assert_eq!(ThemeKind::next_theme("Kasane Teto"), ThemeKind::Default);
    assert_eq!(ThemeKind::next_theme("Unknown"), ThemeKind::HatsuneMiku);
    assert_eq!(ThemeKind::HatsuneMiku.name(), "Hatsune Miku");
}
