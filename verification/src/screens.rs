use vstd::prelude::*;

use crate::keys::Key;
use crate::queue::LoopMode;
use crate::settings::{SettingsOption, SettingsState};

verus! {

/// Selection in the queue list after Down: the next track, wrapping to the
/// first; the first track when nothing is selected; unchanged for an empty
/// queue.
pub open spec fn spec_queue_next(selected: Option<usize>, len: usize) -> Option<usize> {
    if len == 0 {
        selected
    } else {
        match selected {
            Some(i) => if i >= len - 1 {
                Some(0usize)
            } else {
                Some((i + 1) as usize)
            },
            None => Some(0usize),
        }
    }
}

/// Selection in the queue list after Up: the previous track, wrapping to the
/// last; the first track when nothing is selected; unchanged for an empty
/// queue.
pub open spec fn spec_queue_prev(selected: Option<usize>, len: usize) -> Option<usize> {
    if len == 0 {
        selected
    } else {
        match selected {
            Some(i) => if i == 0 {
                Some((len - 1) as usize)
            } else {
                Some((i - 1) as usize)
            },
            None => Some(0usize),
        }
    }
}

/// Move the queue selection down by one.
pub fn queue_next(selected: Option<usize>, len: usize) -> (r: Option<usize>)
    ensures
        r == spec_queue_next(selected, len),
        len > 0 ==> r is Some && r->0 < len,
{
    if len == 0 {
        return selected;
    }
    match selected {
        Some(i) => {
            if i >= len - 1 {
                Some(0)
            } else {
                Some(i + 1)
            }
        },
        None => Some(0),
    }
}

/// Move the queue selection up by one.
pub fn queue_prev(selected: Option<usize>, len: usize) -> (r: Option<usize>)
    ensures
        r == spec_queue_prev(selected, len),
        len > 0 && (selected is Some ==> selected->0 <= len) ==> r is Some && r->0 < len,
{
    if len == 0 {
        return selected;
    }
    match selected {
        Some(i) => {
            if i == 0 {
                Some(len - 1)
            } else {
                Some(i - 1)
            }
        },
        None => Some(0),
    }
}

/// Within a non-empty queue, Up undoes Down and Down undoes Up.
pub proof fn lemma_queue_moves_undo(i: usize, len: usize)
    requires
        i < len,
    ensures
        spec_queue_prev(spec_queue_next(Some(i), len), len) == Some(i),
        spec_queue_next(spec_queue_prev(Some(i), len), len) == Some(i),
{
}

/// What the interface knows of the queue: its tracks, the one playing, the
/// loop mode and the selected row.  `T` is the type of a track.
#[derive(Debug, Clone)]
pub struct QueueState<T> {
    pub queue: Vec<T>,
    pub current_queue_index: Option<usize>,
    pub loop_mode: LoopMode,
    pub selected: Option<usize>,
}

impl<T> QueueState<T> {
    /// No tracks, nothing playing or selected, looping off.
    pub fn new() -> (r: Self)
        ensures
            r.queue@.len() == 0,
            r.current_queue_index is None,
            r.loop_mode == LoopMode::Off,
            r.selected is None,
    {
        QueueState { queue: Vec::new(), current_queue_index: None, loop_mode: LoopMode::Off, selected: None }
    }

    /// Whether the queue holds no track.
    pub fn is_empty(&self) -> (r: bool)
        ensures
            r == (self.queue@.len() == 0),
    {
        self.queue.len() == 0
    }

    /// The engine sent the whole queue: show it, and select its first row
    /// when nothing was selected.
    pub fn queue_updated(&mut self, items: Vec<T>)
        ensures
            final(self).queue@ == items@,
            final(self).current_queue_index == old(self).current_queue_index,
            final(self).loop_mode == old(self).loop_mode,
            final(self).selected == (if items@.len() > 0 && old(self).selected is None {
                Some(0usize)
            } else {
                old(self).selected
            }),
    {
        self.queue = items;
        if self.queue.len() > 0 && self.selected.is_none() {
            self.selected = Some(0);
        }
    }

    /// The engine moved to the track at `index`: mark it as playing and
    /// select it.
    pub fn track_changed(&mut self, index: usize)
        ensures
            final(self).queue@ == old(self).queue@,
            final(self).current_queue_index == Some(index),
            final(self).selected == Some(index),
            final(self).loop_mode == old(self).loop_mode,
    {
        self.current_queue_index = Some(index);
        self.selected = Some(index);
    }

    /// Select the next row, wrapping to the first.
    pub fn select_next(&mut self)
        ensures
            final(self).selected == spec_queue_next(old(self).selected, old(self).queue@.len() as usize),
            final(self).queue@ == old(self).queue@,
            final(self).current_queue_index == old(self).current_queue_index,
            final(self).loop_mode == old(self).loop_mode,
    {
        self.selected = queue_next(self.selected, self.queue.len());
    }

    /// Select the previous row, wrapping to the last.
    pub fn select_prev(&mut self)
        ensures
            final(self).selected == spec_queue_prev(old(self).selected, old(self).queue@.len() as usize),
            final(self).queue@ == old(self).queue@,
            final(self).current_queue_index == old(self).current_queue_index,
            final(self).loop_mode == old(self).loop_mode,
    {
        self.selected = queue_prev(self.selected, self.queue.len());
    }
}

/// What a key on the queue screen asks for.
#[derive(Debug, Clone, Copy, PartialEq, Eq, Structural)]
pub enum QueueCommand {
    Nothing,
    /// The selection moved; the new one is given.
    Select(Option<usize>),
    /// Play the track at this position of the queue.
    PlayIndex(usize),
}

/// The queue screen.
#[derive(Debug, Clone, Copy, PartialEq, Eq, Structural)]
pub struct QueueRoute;

impl QueueRoute {
    /// Up and Down move the selection in a queue of `len` tracks; Enter plays
    /// the selected track.
    pub fn handle_key(&self, key: Key, selected: Option<usize>, len: usize) -> (r: QueueCommand)
        ensures
            r == match key {
                Key::Up => QueueCommand::Select(spec_queue_prev(selected, len)),
                Key::Down => QueueCommand::Select(spec_queue_next(selected, len)),
                Key::Enter => match selected {
                    Some(i) => QueueCommand::PlayIndex(i),
                    None => QueueCommand::Nothing,
                },
                _ => QueueCommand::Nothing,
            },
    {
        match key {
            Key::Up => QueueCommand::Select(queue_prev(selected, len)),
            Key::Down => QueueCommand::Select(queue_next(selected, len)),
            Key::Enter => match selected {
                Some(i) => QueueCommand::PlayIndex(i),
                None => QueueCommand::Nothing,
            },
            _ => QueueCommand::Nothing,
        }
    }

    /// Name shown in the navigation for this screen.
    pub fn name(&self) -> (r: &'static str)
        ensures
            r@ == "Queue"@,
    {
        "Queue"
    }
}

/// What a key on the settings screen asks for beyond moving the selection.
#[derive(Debug, Clone, Copy, PartialEq, Eq, Structural)]
pub enum SettingsCommand {
    Nothing,
    /// Open the equalizer screen on top of the settings.
    OpenEqualizer,
}

/// The settings screen.
#[derive(Debug, Clone, Copy, PartialEq, Eq, Structural)]
pub struct SettingsRoute;

impl SettingsRoute {
    /// Up and Down move through the options; Enter on the equalizer option
    /// opens the equalizer screen.
    pub fn handle_key(&self, key: Key, state: &mut SettingsState) -> (r: SettingsCommand)
        ensures
            final(state).items@ == old(state).items@,
            final(state).is_dialog_open == old(state).is_dialog_open,
            final(state).dialog_selection_index == old(state).dialog_selection_index,
            key == Key::Up && old(state).items@.len() > 0 ==> final(state).selected_index as int
                == crate::keys::cycle_prev(old(state).selected_index as int, old(state).items@.len() as int),
            key == Key::Down && old(state).items@.len() > 0 ==> final(state).selected_index as int
                == crate::keys::cycle_next(old(state).selected_index as int, old(state).items@.len() as int),
            key != Key::Up && key != Key::Down ==> final(state).selected_index == old(state).selected_index,
            r == (if key == Key::Enter && old(state).selected_index < old(state).items@.len()
                && old(state).items@[old(state).selected_index as int] == SettingsOption::Equalizer {
                SettingsCommand::OpenEqualizer
            } else {
                SettingsCommand::Nothing
            }),
    {
        match key {
            Key::Up => {
                state.prev_item();
                SettingsCommand::Nothing
            },
            Key::Down => {
                state.next_item();
                SettingsCommand::Nothing
            },
            Key::Enter => {
                if state.selected_index < state.items.len() {
                    match state.items[state.selected_index] {
                        SettingsOption::Equalizer => SettingsCommand::OpenEqualizer,
                        _ => SettingsCommand::Nothing,
                    }
                } else {
                    SettingsCommand::Nothing
                }
            },
            _ => SettingsCommand::Nothing,
        }
    }

    /// Name shown in the navigation for this screen.
    pub fn name(&self) -> (r: &'static str)
        ensures
            r@ == "Settings"@,
    {
        "Settings"
    }
}

/// What a key on the playback screen asks of the player.
#[derive(Debug, Clone, Copy, PartialEq, Eq, Structural)]
pub enum PlaybackCommand {
    Nothing,
    VolumeUp,
    VolumeDown,
    SeekForward,
    SeekBackward,
    TogglePlayPause,
    Stop,
    NextTrack,
    PreviousTrack,
    CycleLoopMode,
    /// Seek to this many tenths of the track (1 to 9).
    SeekToTenths(u8),
}

/// The digit keys 1 to 9 seek to that many tenths of the track.
pub open spec fn spec_digit_tenths(c: char) -> Option<u8> {
    if '1' <= c && c <= '9' {
        Some((c as u32 - '0' as u32) as u8)
    } else {
        None
    }
}

/// The playback screen's key map.
pub open spec fn spec_playback_command(key: Key) -> PlaybackCommand {
    match key {
        Key::Up => PlaybackCommand::VolumeUp,
        Key::Down => PlaybackCommand::VolumeDown,
        Key::Right => PlaybackCommand::SeekForward,
        Key::Left => PlaybackCommand::SeekBackward,
        Key::Char(c) => if c == ' ' {
            PlaybackCommand::TogglePlayPause
        } else if c == 's' {
            PlaybackCommand::Stop
        } else if c == 'n' {
            PlaybackCommand::NextTrack
        } else if c == 'p' {
            PlaybackCommand::PreviousTrack
        } else if c == 'l' {
            PlaybackCommand::CycleLoopMode
        } else {
            match spec_digit_tenths(c) {
                Some(d) => PlaybackCommand::SeekToTenths(d),
                None => PlaybackCommand::Nothing,
            }
        },
        _ => PlaybackCommand::Nothing,
    }
}

/// The playback screen.
#[derive(Debug, Clone, Copy, PartialEq, Eq, Structural)]
pub struct PlaybackRoute;

impl PlaybackRoute {
    /// The player command for a key.
    pub fn command_for_key(&self, key: Key) -> (r: PlaybackCommand)
        ensures
            r == spec_playback_command(key),
    {
        match key {
            Key::Up => PlaybackCommand::VolumeUp,
            Key::Down => PlaybackCommand::VolumeDown,
            Key::Right => PlaybackCommand::SeekForward,
            Key::Left => PlaybackCommand::SeekBackward,
            Key::Char(c) => {
                if c == ' ' {
                    PlaybackCommand::TogglePlayPause
                } else if c == 's' {
                    PlaybackCommand::Stop
                } else if c == 'n' {
                    PlaybackCommand::NextTrack
                } else if c == 'p' {
                    PlaybackCommand::PreviousTrack
                } else if c == 'l' {
                    PlaybackCommand::CycleLoopMode
                } else if '1' <= c && c <= '9' {
                    let d = (c as u32 - '0' as u32) as u8;
                    PlaybackCommand::SeekToTenths(d)
                } else {
                    PlaybackCommand::Nothing
                }
            },
            _ => PlaybackCommand::Nothing,
        }
    }

    /// Name shown in the navigation for this screen.
    pub fn name(&self) -> (r: &'static str)
        ensures
            r@ == "Playback"@,
    {
        "Playback"
    }
}

/// The log screen: the selected line, and whether the view follows the newest
/// line as lines arrive.
#[derive(Debug, Clone, Copy, PartialEq, Eq, Structural)]
pub struct LogRoute {
    pub selected: Option<usize>,
    pub stick_to_bottom: bool,
}

/// The log screen after a key, for a buffer of `len > 0` lines.
pub open spec fn spec_log_key(route: LogRoute, key: Key, len: usize) -> LogRoute {
    let last = (len - 1) as usize;
    match key {
        Key::Up => LogRoute {
            selected: Some(
                match route.selected {
                    Some(i) => if i == 0 {
                        0usize
                    } else {
                        (i - 1) as usize
                    },
                    None => last,
                },
            ),
            stick_to_bottom: false,
        },
        Key::Down => {
            let i = match route.selected {
                Some(i) => if i >= last {
                    last
                } else {
                    (i + 1) as usize
                },
                None => 0usize,
            };
            LogRoute { selected: Some(i), stick_to_bottom: if i == last { true } else { route.stick_to_bottom } }
        },
        Key::End | Key::PageDown => LogRoute { selected: Some(last), stick_to_bottom: true },
        Key::Home | Key::PageUp => LogRoute { selected: Some(0usize), stick_to_bottom: false },
        _ => route,
    }
}

impl LogRoute {
    /// Nothing selected yet, following the newest line.
    pub fn new() -> (r: LogRoute)
        ensures
            r.selected is None,
            r.stick_to_bottom,
    {
        LogRoute { selected: None, stick_to_bottom: true }
    }

    /// Scroll through a buffer of `len` lines: Up and Down move by a line and
    /// stop at either end, End and Page Down jump to the newest line, Home and
    /// Page Up to the oldest.  Moving up stops following new lines; reaching
    /// the newest line starts again.  An empty buffer ignores every key.
    pub fn handle_key(&mut self, key: Key, len: usize)
        ensures
            len == 0 ==> *final(self) == *old(self),
            len > 0 ==> *final(self) == spec_log_key(*old(self), key, len),
            len > 0 && (old(self).selected matches Some(j) ==> j < len) ==> (final(self).selected matches Some(
                i,
            ) ==> i < len),
    {
        if len == 0 {
            return ;
        }
        let last = len - 1;
        match key {
            Key::Up => {
                let i = match self.selected {
                    Some(i) => if i == 0 {
                        0
                    } else {
                        i - 1
                    },
                    None => last,
                };
                self.selected = Some(i);
                self.stick_to_bottom = false;
            },
            Key::Down => {
                let i = match self.selected {
                    Some(i) => if i >= last {
                        last
                    } else {
                        i + 1
                    },
                    None => 0,
                };
                self.selected = Some(i);
                if i == last {
                    self.stick_to_bottom = true;
                }
            },
            Key::End | Key::PageDown => {
                self.selected = Some(last);
                self.stick_to_bottom = true;
            },
            Key::Home | Key::PageUp => {
                self.selected = Some(0);
                self.stick_to_bottom = false;
            },
            _ => {},
        }
    }

    /// Before drawing `len` lines: a view that follows new lines selects the
    /// newest one.
    pub fn follow_newest(&mut self, len: usize)
        ensures
            final(self).stick_to_bottom == old(self).stick_to_bottom,
            final(self).selected == (if old(self).stick_to_bottom && len > 0 {
                Some((len - 1) as usize)
            } else {
                old(self).selected
            }),
    {
        if self.stick_to_bottom && len > 0 {
            self.selected = Some(len - 1);
        }
    }

    /// Name shown in the navigation for this screen.
    pub fn name(&self) -> (r: &'static str)
        ensures
            r@ == "Log"@,
    {
        "Log"
    }
}

} // verus!
