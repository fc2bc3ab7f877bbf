use audido::keys::{wrap_next, wrap_prev};
use audido::settings::{SettingsOption, SettingsState};

#[test]
fn settings_items_and_dialog_cycle() {
    let mut state = SettingsState::new();
    assert_eq!(state.items, vec![SettingsOption::Equalizer, SettingsOption::Normalize]);
    assert_eq!(SettingsOption::Normalize.label(), "Normalize Audio");
    assert_eq!(SettingsOption::Equalizer.label(), "Equalizer");
    state.next_item();
    assert_eq!(state.selected_index, 1);
    state.next_item();
    assert_eq!(state.selected_index, 0);
    state.prev_item();
    assert_eq!(state.selected_index, 1);
    state.open_dialog();
    assert!(state.is_dialog_open);
    state.next_dialog(2);
    assert_eq!(state.dialog_selection_index, 1);
    state.next_dialog(2);
    assert_eq!(state.dialog_selection_index, 0);
    state.prev_dialog(2);
    assert_eq!(state.dialog_selection_index, 1);
    state.close_dialog();
    assert!(!state.is_dialog_open);
}

#[test]
fn wrapping_positions() {
    assert_eq!(wrap_next(2, 3), 0);
    assert_eq!(wrap_next(0, 3), 1);
    assert_eq!(wrap_prev(0, 3), 2);
    assert_eq!(wrap_prev(7, 3), 0);
    assert_eq!(wrap_next(usize::MAX, 4), 0);
}
