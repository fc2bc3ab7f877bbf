use audido::keys::Key;
use audido::normalization::{NormalizationCommand, NormalizationMode, NormalizationRoute};
use audido::queue::LoopMode;
use audido::routes::RouteKind;
use audido::screens::{
    queue_next, queue_prev, LogRoute, PlaybackCommand, PlaybackRoute, QueueCommand, QueueRoute, QueueState,
    SettingsCommand, SettingsRoute,
};
use audido::settings::SettingsState;

#[test]
fn queue_selection_wraps() {
    assert_eq!(queue_next(None, 3), Some(0));
    assert_eq!(queue_next(Some(1), 3), Some(2));
    assert_eq!(queue_next(Some(2), 3), Some(0));
    assert_eq!(queue_prev(Some(0), 3), Some(2));
    assert_eq!(queue_prev(Some(2), 3), Some(1));
    assert_eq!(queue_prev(None, 3), Some(0));
    assert_eq!(queue_next(Some(4), 0), Some(4));
    assert_eq!(queue_prev(None, 0), None);
    for i in 0..5 {
        assert_eq!(queue_prev(queue_next(Some(i), 5), 5), Some(i));
        assert_eq!(queue_next(queue_prev(Some(i), 5), 5), Some(i));
    }
}

#[test]
fn queue_screen_keys() {
    let route = QueueRoute;
    assert_eq!(route.handle_key(Key::Down, Some(0), 2), QueueCommand::Select(Some(1)));
    assert_eq!(route.handle_key(Key::Up, Some(0), 2), QueueCommand::Select(Some(1)));
    assert_eq!(route.handle_key(Key::Enter, Some(1), 2), QueueCommand::PlayIndex(1));
    assert_eq!(route.handle_key(Key::Enter, None, 2), QueueCommand::Nothing);
    assert_eq!(route.handle_key(Key::Tab, Some(1), 2), QueueCommand::Nothing);
    assert_eq!(route.name(), "Queue");
}

#[test]
fn queue_state_follows_engine_events() {
    let mut state: QueueState<&str> = QueueState::new();
    assert!(state.is_empty());
    state.queue_updated(vec!["a", "b", "c"]);
    assert_eq!(state.selected, Some(0));
    state.select_prev();
    assert_eq!(state.selected, Some(2));
    state.track_changed(1);
    assert_eq!(state.current_queue_index, Some(1));
    assert_eq!(state.selected, Some(1));
    state.queue_updated(vec!["a"]);
    assert_eq!(state.selected, Some(1));
    state.select_next();
    assert_eq!(state.selected, Some(0));
    assert_eq!(state.loop_mode, LoopMode::Off);
}

#[test]
fn settings_screen_opens_equalizer() {
    let route = SettingsRoute;
    let mut state = SettingsState::new();
    assert_eq!(route.handle_key(Key::Enter, &mut state), SettingsCommand::OpenEqualizer);
    assert_eq!(route.handle_key(Key::Down, &mut state), SettingsCommand::Nothing);
    assert_eq!(state.selected_index, 1);
    assert_eq!(route.handle_key(Key::Enter, &mut state), SettingsCommand::Nothing);
    route.handle_key(Key::Down, &mut state);
    assert_eq!(state.selected_index, 0);
    route.handle_key(Key::Up, &mut state);
    assert_eq!(state.selected_index, 1);
    assert_eq!(route.name(), "Settings");
}

#[test]
fn playback_key_map() {
    let route = PlaybackRoute;
    assert_eq!(route.command_for_key(Key::Up), PlaybackCommand::VolumeUp);
    assert_eq!(route.command_for_key(Key::Down), PlaybackCommand::VolumeDown);
    assert_eq!(route.command_for_key(Key::Right), PlaybackCommand::SeekForward);
    assert_eq!(route.command_for_key(Key::Left), PlaybackCommand::SeekBackward);
    assert_eq!(route.command_for_key(Key::Char(' ')), PlaybackCommand::TogglePlayPause);
    assert_eq!(route.command_for_key(Key::Char('s')), PlaybackCommand::Stop);
    assert_eq!(route.command_for_key(Key::Char('n')), PlaybackCommand::NextTrack);
    assert_eq!(route.command_for_key(Key::Char('p')), PlaybackCommand::PreviousTrack);
    assert_eq!(route.command_for_key(Key::Char('l')), PlaybackCommand::CycleLoopMode);
    assert_eq!(route.command_for_key(Key::Char('1')), PlaybackCommand::SeekToTenths(1));
    assert_eq!(route.command_for_key(Key::Char('9')), PlaybackCommand::SeekToTenths(9));
    assert_eq!(route.command_for_key(Key::Char('0')), PlaybackCommand::Nothing);
    assert_eq!(route.command_for_key(Key::Enter), PlaybackCommand::Nothing);
    assert_eq!(route.name(), "Playback");
}

#[test]
fn log_scrolling_stops_at_the_ends() {
    let mut log = LogRoute::new();
    log.handle_key(Key::Up, 0);
    assert_eq!(log, LogRoute::new());
    log.handle_key(Key::Up, 5);
    assert_eq!(log.selected, Some(4));
    assert!(!log.stick_to_bottom);
    log.handle_key(Key::Down, 5);
    assert_eq!(log.selected, Some(4));
    assert!(log.stick_to_bottom);
    log.handle_key(Key::Home, 5);
    assert_eq!(log.selected, Some(0));
    assert!(!log.stick_to_bottom);
    log.handle_key(Key::Up, 5);
    assert_eq!(log.selected, Some(0));
    log.handle_key(Key::Down, 5);
    assert_eq!(log.selected, Some(1));
    assert!(!log.stick_to_bottom);
    log.follow_newest(9);
    assert_eq!(log.selected, Some(1));
    log.handle_key(Key::End, 5);
    assert_eq!(log.selected, Some(4));
    assert!(log.stick_to_bottom);
    log.follow_newest(9);
    assert_eq!(log.selected, Some(8));
    log.handle_key(Key::PageUp, 9);
    assert_eq!(log.selected, Some(0));
    log.handle_key(Key::PageDown, 9);
    assert_eq!(log.selected, Some(8));
    assert_eq!(log.name(), "Log");
}

#[test]
fn normalization_rows_wrap_and_keys_map_to_commands() {
    let mut route = NormalizationRoute::new();
    route.previous();
    assert_eq!(route.selected, 3);
    route.next();
    assert_eq!(route.selected, 0);
    assert_eq!(route.handle_key(Key::Left, NormalizationMode::Peak), NormalizationCommand::ToggleEnabled);
    assert_eq!(route.handle_key(Key::Enter, NormalizationMode::Peak), NormalizationCommand::ToggleEnabled);
    route.handle_key(Key::Down, NormalizationMode::Peak);
    assert_eq!(route.handle_key(Key::Right, NormalizationMode::Peak), NormalizationCommand::ToggleMode);
    route.handle_key(Key::Down, NormalizationMode::Peak);
    assert_eq!(
        route.handle_key(Key::Right, NormalizationMode::Peak),
        NormalizationCommand::AdjustTarget { increase: true }
    );
    assert_eq!(route.handle_key(Key::Enter, NormalizationMode::Peak), NormalizationCommand::Nothing);
    route.handle_key(Key::Down, NormalizationMode::Peak);
    assert_eq!(route.handle_key(Key::Left, NormalizationMode::Peak), NormalizationCommand::Nothing);
    assert_eq!(
        route.handle_key(Key::Left, NormalizationMode::Loudness),
        NormalizationCommand::AdjustHeadroom { increase: false }
    );
    assert_eq!(route.handle_key(Key::Char('t'), NormalizationMode::Peak), NormalizationCommand::ToggleEnabled);
    assert_eq!(route.handle_key(Key::Char('m'), NormalizationMode::Peak), NormalizationCommand::ToggleMode);
    assert_eq!(route.handle_key(Key::Char('x'), NormalizationMode::Peak), NormalizationCommand::Nothing);
    assert_eq!(route.selected, 3);
}

#[test]
fn normalization_tab_leads_to_log() {
    let route = NormalizationRoute::new();
    assert_eq!(route.intercept_global_key(Key::Tab), Some(RouteKind::Log));
    assert_eq!(route.intercept_global_key(Key::Enter), None);
    assert_eq!(route.name(), "Normalization");
}

#[test]
fn normalization_modes() {
    assert_eq!(NormalizationMode::Peak.label(), "Peak");
    assert_eq!(NormalizationMode::Loudness.label(), "Loudness");
    assert_eq!(NormalizationMode::Peak.toggled(), NormalizationMode::Loudness);
    assert_eq!(NormalizationMode::Loudness.toggled(), NormalizationMode::Peak);
}
