use audido::eq::{
    adjust_filter_type, adjust_order, EqCommand, EqDialogOption, EqDialogState, EqFocus, EqIntercept, EqMode,
    EqualizerRoute, FilterType,
};
use audido::keys::Key;

#[test]
fn filter_types_cycle_both_ways() {
    assert_eq!(FilterType::Peaking.next(), FilterType::LowPass);
    assert_eq!(FilterType::Notch.next(), FilterType::Peaking);
    assert_eq!(FilterType::Peaking.prev(), FilterType::Notch);
    assert_eq!(FilterType::HighShelf.prev(), FilterType::LowShelf);
    let mut t = FilterType::BandPass;
    for _ in 0..7 {
        t = t.next();
    }
    assert_eq!(t, FilterType::BandPass);
    assert_eq!(FilterType::LowShelf.label(), "LowShelf");
    assert_eq!(adjust_filter_type(FilterType::Notch, true), FilterType::Peaking);
    assert_eq!(adjust_filter_type(FilterType::Peaking, false), FilterType::Notch);
}

#[test]
fn dialog_options_alternate() {
    assert_eq!(EqDialogOption::EditBand.next(), EqDialogOption::ResetBand);
    assert_eq!(EqDialogOption::ResetBand.next(), EqDialogOption::EditBand);
    assert_eq!(EqDialogOption::EditBand.prev(), EqDialogOption::ResetBand);
    assert_eq!(EqDialogOption::ResetBand.index(), 1);
    assert_eq!(EqDialogOption::EditBand.index(), 0);
}

#[test]
fn orders_stay_between_one_and_sixteen() {
    assert_eq!(adjust_order(4, true), 5);
    assert_eq!(adjust_order(16, true), 16);
    assert_eq!(adjust_order(255, true), 16);
    assert_eq!(adjust_order(1, false), 1);
    assert_eq!(adjust_order(0, false), 1);
    assert_eq!(adjust_order(0, true), 1);
    assert_eq!(adjust_order(40, false), 16);
}

#[test]
fn curve_panel_keys() {
    let mut route = EqualizerRoute::new();
    assert_eq!(route.handle_key(Key::Up, 3, EqMode::Advanced), EqCommand::AdjustMasterGain { increase: true });
    assert_eq!(route.handle_key(Key::Down, 3, EqMode::Advanced), EqCommand::AdjustMasterGain { increase: false });
    assert_eq!(route.handle_key(Key::Char('t'), 3, EqMode::Casual), EqCommand::ToggleEnabled);
    assert_eq!(route.handle_key(Key::Char('m'), 3, EqMode::Casual), EqCommand::ToggleMode);
    assert_eq!(route.handle_key(Key::Char('a'), 3, EqMode::Advanced), EqCommand::AddFilter);
    assert_eq!(route.handle_key(Key::Char('a'), 8, EqMode::Advanced), EqCommand::Nothing);
    assert_eq!(route.intercept_global_key(Key::Tab), EqIntercept::NextTab);
    assert_eq!(route.intercept_global_key(Key::Up), EqIntercept::Ignored);
}

#[test]
fn band_panel_dialog_and_editor() {
    let mut route = EqualizerRoute::new();
    route.handle_key(Key::Right, 3, EqMode::Advanced);
    assert_eq!(route.eq_focus, EqFocus::BandPanel);
    route.handle_key(Key::Down, 3, EqMode::Advanced);
    route.handle_key(Key::Down, 3, EqMode::Advanced);
    assert_eq!(route.eq_selected_band, 2);
    route.handle_key(Key::Down, 3, EqMode::Advanced);
    assert_eq!(route.eq_selected_band, 0);
    route.handle_key(Key::Up, 3, EqMode::Advanced);
    assert_eq!(route.eq_selected_band, 2);

    route.handle_key(Key::Enter, 3, EqMode::Advanced);
    assert_eq!(
        route.eq_dialog_state,
        EqDialogState::EqBandSelect { selected_band: 2, selected_dialog_option: EqDialogOption::EditBand }
    );
    assert!(route.has_floating_panel());
    assert_eq!(route.intercept_global_key(Key::Tab), EqIntercept::Handled);
    route.handle_key(Key::Down, 3, EqMode::Advanced);
    assert_eq!(route.handle_key(Key::Enter, 3, EqMode::Advanced), EqCommand::ResetBand { band: 2 });
    assert_eq!(route.eq_dialog_state, EqDialogState::Closed);

    route.handle_key(Key::Enter, 3, EqMode::Advanced);
    route.handle_key(Key::Enter, 3, EqMode::Advanced);
    let config = route.eq_filter_band_config_opened.clone().expect("editor open");
    assert_eq!(config.selected_band, 2);
    assert_eq!(config.option, vec!["Type", "Frequency", "Gain", "Q Factor", "Order"]);
    route.handle_key(Key::Up, 3, EqMode::Advanced);
    assert_eq!(route.eq_filter_band_config_opened.as_ref().unwrap().selected_param, 4);
    assert_eq!(route.handle_key(Key::Right, 3, EqMode::Advanced), EqCommand::Nothing);
    route.handle_key(Key::Enter, 3, EqMode::Advanced);
    assert!(route.locked_in);
    assert_eq!(
        route.handle_key(Key::Right, 3, EqMode::Advanced),
        EqCommand::AdjustParameter { band: 2, param: 4, increase: true }
    );
    route.handle_key(Key::Up, 3, EqMode::Advanced);
    assert_eq!(route.eq_filter_band_config_opened.as_ref().unwrap().selected_param, 4);
    route.handle_key(Key::Esc, 3, EqMode::Advanced);
    assert!(route.eq_filter_band_config_opened.is_none());
    assert!(!route.locked_in);
}

#[test]
fn casual_mode_band_panel() {
    let mut route = EqualizerRoute::new();
    route.toggle_focus();
    assert_eq!(route.eq_focus, EqFocus::BandPanel);
    assert_eq!(route.handle_key(Key::Enter, 3, EqMode::Casual), EqCommand::Nothing);
    assert_eq!(route.eq_dialog_state, EqDialogState::Closed);
    route.handle_key(Key::Up, 3, EqMode::Casual);
    assert_eq!(route.eq_selected_band, 0);
}

#[test]
fn layouts_alternate() {
    assert_eq!(EqMode::Casual.toggled(), EqMode::Advanced);
    assert_eq!(EqMode::Advanced.toggled(), EqMode::Casual);
}
