use audido::keys::Key;
use audido::routes::{get_next_tab, global_key_action, route_for_name, tab_names, GlobalKeyAction, RouteKind, Router};

#[test]
fn tabs_are_listed_in_order() {
    assert_eq!(tab_names(), vec!["Playback", "Queue", "Browser", "Settings", "Log"]);
}

#[test]
fn next_tab_wraps_and_rejects_unknown_names() {
    assert_eq!(get_next_tab("Playback"), Some("Queue"));
    assert_eq!(get_next_tab("Settings"), Some("Log"));
    assert_eq!(get_next_tab("Log"), Some("Playback"));
    assert_eq!(get_next_tab("Equalizer"), None);
    assert_eq!(get_next_tab(""), None);
}

#[test]
fn names_lead_to_screens() {
    assert_eq!(route_for_name("Queue"), RouteKind::Queue);
    assert_eq!(route_for_name("Browser"), RouteKind::Browser);
    assert_eq!(route_for_name("Settings"), RouteKind::Settings);
    assert_eq!(route_for_name("Log"), RouteKind::Log);
    assert_eq!(route_for_name("Equalizer"), RouteKind::Equalizer);
    assert_eq!(route_for_name("Playback"), RouteKind::Playback);
    assert_eq!(route_for_name("nowhere"), RouteKind::Playback);
    for kind in [RouteKind::Playback, RouteKind::Queue, RouteKind::Browser, RouteKind::Settings, RouteKind::Log, RouteKind::Equalizer] {
        assert_eq!(route_for_name(kind.name()), kind);
    }
}

#[test]
fn global_keys() {
    assert_eq!(global_key_action(Key::Char('q'), "Playback", 1), GlobalKeyAction::Quit);
    assert_eq!(global_key_action(Key::Char('x'), "Playback", 1), GlobalKeyAction::Delegate);
    assert_eq!(global_key_action(Key::Tab, "Playback", 1), GlobalKeyAction::SwitchTab(RouteKind::Queue));
    assert_eq!(global_key_action(Key::Tab, "Log", 1), GlobalKeyAction::SwitchTab(RouteKind::Playback));
    assert_eq!(global_key_action(Key::Tab, "Equalizer", 2), GlobalKeyAction::SwitchTab(RouteKind::Queue));
    assert_eq!(global_key_action(Key::Esc, "Equalizer", 2), GlobalKeyAction::Pop);
    assert_eq!(global_key_action(Key::Esc, "Playback", 1), GlobalKeyAction::Delegate);
    assert_eq!(global_key_action(Key::Up, "Playback", 1), GlobalKeyAction::Delegate);
}

#[test]
fn router_keeps_a_screen_and_pops_what_was_pushed() {
    let mut router = Router::new("playback");
    assert_eq!(router.depth(), 1);
    assert_eq!(router.pop(true), None);
    assert_eq!(router.depth(), 1);
    router.push("settings");
    router.push("equalizer");
    assert_eq!(*router.current(), "equalizer");
    assert_eq!(router.pop(false), None);
    assert_eq!(router.depth(), 3);
    assert_eq!(router.pop(true), Some("equalizer"));
    assert_eq!(*router.current(), "settings");
    assert_eq!(router.replace("log"), "settings");
    assert_eq!(router.depth(), 2);
    *router.current_mut() = "queue";
    assert_eq!(*router.current(), "queue");
    let exited = router.reset_to("browser");
    assert_eq!(exited, vec!["queue", "playback"]);
    assert_eq!(router.depth(), 1);
    assert_eq!(*router.current(), "browser");
}
