use vstd::prelude::*;

use crate::keys::{cycle_next, cycle_prev, wrap_next, wrap_prev};

verus! {

/// An entry of the settings list.
#[derive(Debug, Clone, Copy, PartialEq, Eq, Structural)]
pub enum SettingsOption {
    Equalizer,
    Normalize,
}

impl SettingsOption {
    /// Text shown for the option.
    pub fn label(&self) -> (r: &'static str)
        ensures
            r@ == match *self {
                SettingsOption::Equalizer => "Equalizer"@,
                SettingsOption::Normalize => "Normalize Audio"@,
            },
    {
        match self {
            SettingsOption::Equalizer => "Equalizer",
            SettingsOption::Normalize => "Normalize Audio",
        }
    }
}

/// Selection state of the settings screen and its choice dialog.
#[derive(Debug, Clone)]
pub struct SettingsState {
    pub items: Vec<SettingsOption>,
    pub selected_index: usize,
    /// Is the choice dialog currently open?
    pub is_dialog_open: bool,
    /// Selection inside the dialog (0 = On, 1 = Off).
    pub dialog_selection_index: usize,
}

impl SettingsState {
    /// The equalizer and normalizer options, the first selected, no dialog open.
    pub fn new() -> (r: SettingsState)
        ensures
            r.items@ == seq![SettingsOption::Equalizer, SettingsOption::Normalize],
            r.selected_index == 0,
            !r.is_dialog_open,
            r.dialog_selection_index == 0,
    {
        let items: Vec<SettingsOption> = vec![SettingsOption::Equalizer, SettingsOption::Normalize];
        assert(items@ =~= seq![SettingsOption::Equalizer, SettingsOption::Normalize]);
        SettingsState { items, selected_index: 0, is_dialog_open: false, dialog_selection_index: 0 }
    }

    /// Select the next item, wrapping to the first.
    pub fn next_item(&mut self)
        ensures
            final(self).items@ == old(self).items@,
            final(self).is_dialog_open == old(self).is_dialog_open,
            final(self).dialog_selection_index == old(self).dialog_selection_index,
            final(self).selected_index == if old(self).items@.len() > 0 {
                cycle_next(old(self).selected_index as int, old(self).items@.len() as int)
            } else {
                old(self).selected_index as int
            },
    {
        if self.items.len() > 0 {
            self.selected_index = wrap_next(self.selected_index, self.items.len());
        }
    }

    /// Select the previous item, wrapping to the last.
    pub fn prev_item(&mut self)
        ensures
            final(self).items@ == old(self).items@,
            final(self).is_dialog_open == old(self).is_dialog_open,
            final(self).dialog_selection_index == old(self).dialog_selection_index,
            final(self).selected_index == if old(self).items@.len() > 0 {
                cycle_prev(old(self).selected_index as int, old(self).items@.len() as int)
            } else {
                old(self).selected_index as int
            },
    {
        if self.items.len() > 0 {
            self.selected_index = wrap_prev(self.selected_index, self.items.len());
        }
    }

    /// Open the choice dialog with its first choice selected.
    pub fn open_dialog(&mut self)
        ensures
            final(self).is_dialog_open,
            final(self).dialog_selection_index == 0,
            final(self).items@ == old(self).items@,
            final(self).selected_index == old(self).selected_index,
    {
        self.is_dialog_open = true;
        self.dialog_selection_index = 0;
    }

    /// Close the choice dialog.
    pub fn close_dialog(&mut self)
        ensures
            !final(self).is_dialog_open,
            final(self).dialog_selection_index == old(self).dialog_selection_index,
            final(self).items@ == old(self).items@,
            final(self).selected_index == old(self).selected_index,
    {
        self.is_dialog_open = false;
    }

    /// Select the next of `choice_count` dialog choices, wrapping.
    pub fn next_dialog(&mut self, choice_count: usize)
        ensures
            final(self).dialog_selection_index == if choice_count > 0 {
                cycle_next(old(self).dialog_selection_index as int, choice_count as int)
            } else {
                old(self).dialog_selection_index as int
            },
            final(self).is_dialog_open == old(self).is_dialog_open,
            final(self).items@ == old(self).items@,
            final(self).selected_index == old(self).selected_index,
    {
        if choice_count > 0 {
            self.dialog_selection_index = wrap_next(self.dialog_selection_index, choice_count);
        }
    }

    /// Select the previous of `choice_count` dialog choices, wrapping.
    pub fn prev_dialog(&mut self, choice_count: usize)
        ensures
            final(self).dialog_selection_index == if choice_count > 0 {
                cycle_prev(old(self).dialog_selection_index as int, choice_count as int)
            } else {
                old(self).dialog_selection_index as int
            },
            final(self).is_dialog_open == old(self).is_dialog_open,
            final(self).items@ == old(self).items@,
            final(self).selected_index == old(self).selected_index,
    {
        if choice_count > 0 {
            self.dialog_selection_index = wrap_prev(self.dialog_selection_index, choice_count);
        }
    }
}

} // verus!
