use vstd::prelude::*;

use crate::keys::{Key, cycle_next, cycle_prev, wrap_next, wrap_prev};

verus! {

/// Most bands the equalizer holds.
pub const MAX_EQ_FILTERS: usize = 8;

/// Biquad filter shape of an equalizer band.
#[derive(Debug, Clone, Copy, PartialEq, Eq, Structural)]
pub enum FilterType {
    Peaking,
    LowPass,
    HighPass,
    LowShelf,
    HighShelf,
    BandPass,
    Notch,
}

/// Number of filter types.
pub open spec fn filter_type_count() -> int {
    7
}

/// Position of a filter type in the cycle Peaking, LowPass, HighPass,
/// LowShelf, HighShelf, BandPass, Notch.
pub open spec fn filter_type_index(t: FilterType) -> int {
    match t {
        FilterType::Peaking => 0,
        FilterType::LowPass => 1,
        FilterType::HighPass => 2,
        FilterType::LowShelf => 3,
        FilterType::HighShelf => 4,
        FilterType::BandPass => 5,
        FilterType::Notch => 6,
    }
}

/// The filter type at position `i` of the cycle.
pub open spec fn filter_type_at(i: int) -> FilterType {
    if i == 0 {
        FilterType::Peaking
    } else if i == 1 {
        FilterType::LowPass
    } else if i == 2 {
        FilterType::HighPass
    } else if i == 3 {
        FilterType::LowShelf
    } else if i == 4 {
        FilterType::HighShelf
    } else if i == 5 {
        FilterType::BandPass
    } else {
        FilterType::Notch
    }
}

impl FilterType {
    /// The next filter type, wrapping from the last to `Peaking`.
    pub fn next(&self) -> (r: FilterType)
        ensures
            r == filter_type_at(cycle_next(filter_type_index(*self), filter_type_count())),
    {
        match self {
            FilterType::Peaking => FilterType::LowPass,
            FilterType::LowPass => FilterType::HighPass,
            FilterType::HighPass => FilterType::LowShelf,
            FilterType::LowShelf => FilterType::HighShelf,
            FilterType::HighShelf => FilterType::BandPass,
            FilterType::BandPass => FilterType::Notch,
            FilterType::Notch => FilterType::Peaking,
        }
    }

    /// The previous filter type, wrapping from `Peaking` to the last.
    pub fn prev(&self) -> (r: FilterType)
        ensures
            r == filter_type_at(cycle_prev(filter_type_index(*self), filter_type_count())),
    {
        match self {
            FilterType::Peaking => FilterType::Notch,
            FilterType::LowPass => FilterType::Peaking,
            FilterType::HighPass => FilterType::LowPass,
            FilterType::LowShelf => FilterType::HighPass,
            FilterType::HighShelf => FilterType::LowShelf,
            FilterType::BandPass => FilterType::HighShelf,
            FilterType::Notch => FilterType::BandPass,
        }
    }

    /// Text shown for the filter type.
    pub fn label(&self) -> (r: &'static str)
        ensures
            r@ == match *self {
                FilterType::Peaking => "Peaking"@,
                FilterType::LowPass => "LowPass"@,
                FilterType::HighPass => "HighPass"@,
                FilterType::LowShelf => "LowShelf"@,
                FilterType::HighShelf => "HighShelf"@,
                FilterType::BandPass => "BandPass"@,
                FilterType::Notch => "Notch"@,
            },
    {
        match self {
            FilterType::Peaking => "Peaking",
            FilterType::LowPass => "LowPass",
            FilterType::HighPass => "HighPass",
            FilterType::LowShelf => "LowShelf",
            FilterType::HighShelf => "HighShelf",
            FilterType::BandPass => "BandPass",
            FilterType::Notch => "Notch",
        }
    }
}

/// Stepping through the filter types forward and back returns to the start,
/// and stepping forward seven times does too.
pub proof fn lemma_filter_type_cycle(t: FilterType)
    ensures
        filter_type_at(cycle_prev(filter_type_index(filter_type_at(cycle_next(filter_type_index(t), 7))), 7)) == t,
        filter_type_at(cycle_next(filter_type_index(filter_type_at(cycle_prev(filter_type_index(t), 7))), 7)) == t,
{
    assert(cycle_next(0, 7) == 1 && cycle_next(1, 7) == 2 && cycle_next(2, 7) == 3 && cycle_next(3, 7) == 4
        && cycle_next(4, 7) == 5 && cycle_next(5, 7) == 6 && cycle_next(6, 7) == 0);
    assert(cycle_prev(0, 7) == 6 && cycle_prev(1, 7) == 0 && cycle_prev(2, 7) == 1 && cycle_prev(3, 7) == 2
        && cycle_prev(4, 7) == 3 && cycle_prev(5, 7) == 4 && cycle_prev(6, 7) == 5);
}

/// Named equalizer presets.
#[derive(Debug, Clone, Copy, PartialEq, Eq, Structural)]
pub enum EqPreset {
    Flat,
    Acoustic,
    Dance,
    Electronic,
    BassBoosted,
    Custom,
}

/// Equalizer screen layout: presets only, or every band.
#[derive(Debug, Clone, Copy, PartialEq, Eq, Structural)]
pub enum EqMode {
    Casual,
    Advanced,
}

impl EqMode {
    /// The other layout.
    pub fn toggled(&self) -> (r: EqMode)
        ensures
            r != *self,
    {
        match self {
            EqMode::Casual => EqMode::Advanced,
            EqMode::Advanced => EqMode::Casual,
        }
    }
}

/// Which panel of the equalizer screen the arrow keys act on.
#[derive(Debug, Clone, Copy, PartialEq, Eq, Structural)]
pub enum EqFocus {
    /// Curve panel: up/down change the master gain.
    CurvePanel,
    /// Band panel: up/down select bands (Advanced mode).
    BandPanel,
}

/// Choices of the band dialog.
#[derive(Debug, Clone, Copy, PartialEq, Eq, Structural)]
pub enum EqDialogOption {
    EditBand,
    ResetBand,
}

/// Position of a choice in the band dialog.
pub open spec fn dialog_option_index(o: EqDialogOption) -> int {
    match o {
        EqDialogOption::EditBand => 0,
        EqDialogOption::ResetBand => 1,
    }
}

/// The band dialog choice at a position.
pub open spec fn dialog_option_at(i: int) -> EqDialogOption {
    if i == 0 { EqDialogOption::EditBand } else { EqDialogOption::ResetBand }
}

impl EqDialogOption {
    /// Cycle to the next option.
    pub fn next(&self) -> (r: Self)
        ensures
            r == dialog_option_at(cycle_next(dialog_option_index(*self), 2)),
    {
        match self {
            EqDialogOption::EditBand => EqDialogOption::ResetBand,
            EqDialogOption::ResetBand => EqDialogOption::EditBand,
        }
    }

    /// Cycle to the previous option.
    pub fn prev(&self) -> (r: Self)
        ensures
            r == dialog_option_at(cycle_prev(dialog_option_index(*self), 2)),
    {
        match self {
            EqDialogOption::EditBand => EqDialogOption::ResetBand,
            EqDialogOption::ResetBand => EqDialogOption::EditBand,
        }
    }

    /// Position of the option in the dialog.
    pub fn index(self) -> (r: usize)
        ensures
            r == dialog_option_index(self),
    {
        match self {
            EqDialogOption::EditBand => 0,
            EqDialogOption::ResetBand => 1,
        }
    }
}

/// The band dialog, when it is open.
#[derive(Debug, Clone, Copy, PartialEq, Eq, Structural)]
pub enum EqDialogState {
    Closed,
    EqBandSelect { selected_band: usize, selected_dialog_option: EqDialogOption },
}

/// The parameter editor of one band.
#[derive(Debug, Clone)]
pub struct BandFilterConfig {
    pub selected_band: usize,
    pub option: Vec<String>,
    pub selected_param: usize,
}

/// What the equalizer screen asks the rest of the program to do after a key.
#[derive(Debug, Clone, Copy, PartialEq, Eq, Structural)]
pub enum EqCommand {
    /// Nothing beyond the state change.
    Nothing,
    /// Raise or lower the master gain by one step and send it to the engine.
    AdjustMasterGain { increase: bool },
    /// Switch the equalizer on or off.
    ToggleEnabled,
    /// Switch between casual and advanced layout.
    ToggleMode,
    /// Append a new band.
    AddFilter,
    /// Reset one band to its preset default.
    ResetBand { band: usize },
    /// Step parameter `param` (type, frequency, gain, Q, order) of `band`.
    AdjustParameter { band: usize, param: usize, increase: bool },
}

/// How the equalizer screen answers a key that the router sees first.
#[derive(Debug, Clone, Copy, PartialEq, Eq, Structural)]
pub enum EqIntercept {
    /// A floating panel is open: the screen handles the key itself.
    Handled,
    /// Tab: leave for the tab after Settings.
    NextTab,
    /// Let the router handle the key.
    Ignored,
}

/// Equalizer screen navigation state.
#[derive(Debug, Clone)]
pub struct EqualizerRoute {
    pub eq_focus: EqFocus,
    pub eq_selected_band: usize,
    pub eq_dialog_state: EqDialogState,
    pub eq_filter_band_config_opened: Option<BandFilterConfig>,
    /// Whether the selected parameter is being changed.
    pub locked_in: bool,
}

/// The parameter editor as a band, a selected parameter and a parameter count.
pub struct BandConfigModel {
    pub band: usize,
    pub param: usize,
    pub option_count: nat,
}

/// The navigation state of the equalizer screen.
pub struct EqRouteModel {
    pub focus: EqFocus,
    pub band: usize,
    pub dialog: EqDialogState,
    pub config: Option<BandConfigModel>,
    pub locked_in: bool,
}

impl View for EqualizerRoute {
    type V = EqRouteModel;

    open spec fn view(&self) -> EqRouteModel {
        EqRouteModel {
            focus: self.eq_focus,
            band: self.eq_selected_band,
            dialog: self.eq_dialog_state,
            config: match self.eq_filter_band_config_opened {
                Some(c) => Some(BandConfigModel { band: c.selected_band, param: c.selected_param, option_count: c.option@.len() }),
                None => None,
            },
            locked_in: self.locked_in,
        }
    }
}

/// Number of parameters the band editor offers.
pub open spec fn band_param_count() -> nat {
    5
}

/// The other panel.
pub open spec fn toggled_focus(f: EqFocus) -> EqFocus {
    match f {
        EqFocus::CurvePanel => EqFocus::BandPanel,
        EqFocus::BandPanel => EqFocus::CurvePanel,
    }
}

/// The band after `band` among `n` bands, wrapping.
pub open spec fn band_after(band: usize, n: nat) -> usize {
    if n > 0 { cycle_next(band as int, n as int) as usize } else { band }
}

/// The band before `band` among `n` bands, wrapping from the first to the last.
pub open spec fn band_before(band: usize, n: nat) -> usize {
    if n > 0 {
        if band == 0 { (n - 1) as usize } else { (band - 1) as usize }
    } else {
        band
    }
}

/// "Next": the next dialog choice when the band dialog is open, else the next band.
pub open spec fn spec_eq_next(m: EqRouteModel, n: nat) -> EqRouteModel {
    match m.dialog {
        EqDialogState::Closed => EqRouteModel { band: band_after(m.band, n), ..m },
        EqDialogState::EqBandSelect { selected_band, selected_dialog_option } => EqRouteModel {
            dialog: EqDialogState::EqBandSelect {
                selected_band,
                selected_dialog_option: dialog_option_at(cycle_next(dialog_option_index(selected_dialog_option), 2)),
            },
            ..m
        },
    }
}

/// "Previous": the previous dialog choice when the band dialog is open, else the previous band.
pub open spec fn spec_eq_prev(m: EqRouteModel, n: nat) -> EqRouteModel {
    match m.dialog {
        EqDialogState::Closed => EqRouteModel { band: band_before(m.band, n), ..m },
        EqDialogState::EqBandSelect { selected_band, selected_dialog_option } => EqRouteModel {
            dialog: EqDialogState::EqBandSelect {
                selected_band,
                selected_dialog_option: dialog_option_at(cycle_prev(dialog_option_index(selected_dialog_option), 2)),
            },
            ..m
        },
    }
}

/// The parameter editor with the next parameter selected (wrapping).
pub open spec fn config_next(c: BandConfigModel) -> BandConfigModel {
    if c.option_count > 0 {
        BandConfigModel { param: cycle_next(c.param as int, c.option_count as int) as usize, ..c }
    } else {
        c
    }
}

/// The parameter editor with the previous parameter selected (wrapping).
pub open spec fn config_prev(c: BandConfigModel) -> BandConfigModel {
    if c.option_count > 0 {
        BandConfigModel { param: if c.param == 0 { (c.option_count - 1) as usize } else { (c.param - 1) as usize }, ..c }
    } else {
        c
    }
}

/// In the parameter editor with a parameter locked in, Left lowers and Right
/// raises that parameter of that band, and neither changes the screen; with
/// no parameter locked in, neither asks for a change.
pub proof fn lemma_locked_left_right_step_opposite(m: EqRouteModel, n: nat, mode: EqMode)
    requires
        m.config is Some,
    ensures
        m.locked_in ==> spec_eq_key(m, Key::Left, n, mode) == (m, EqCommand::AdjustParameter {
            band: m.config->0.band,
            param: m.config->0.param,
            increase: false,
        }),
        m.locked_in ==> spec_eq_key(m, Key::Right, n, mode) == (m, EqCommand::AdjustParameter {
            band: m.config->0.band,
            param: m.config->0.param,
            increase: true,
        }),
        !m.locked_in ==> spec_eq_key(m, Key::Left, n, mode) == (m, EqCommand::Nothing),
        !m.locked_in ==> spec_eq_key(m, Key::Right, n, mode) == (m, EqCommand::Nothing),
{
}

/// The screen's answer to `key` with `n` bands in layout `mode`: the new
/// navigation state and the command for the rest of the program.  The
/// parameter editor, when open, takes every key; else the band dialog, when
/// open; else the panels.
pub open spec fn spec_eq_key(m: EqRouteModel, key: Key, n: nat, mode: EqMode) -> (EqRouteModel, EqCommand) {
    if m.config is Some {
        let c = m.config->0;
        match key {
            Key::Up => if !m.locked_in { (EqRouteModel { config: Some(config_prev(c)), ..m }, EqCommand::Nothing) } else { (m, EqCommand::Nothing) },
            Key::Down => if !m.locked_in { (EqRouteModel { config: Some(config_next(c)), ..m }, EqCommand::Nothing) } else { (m, EqCommand::Nothing) },
            Key::Esc => (EqRouteModel { config: None, locked_in: false, ..m }, EqCommand::Nothing),
            Key::Enter => (EqRouteModel { locked_in: !m.locked_in, ..m }, EqCommand::Nothing),
            Key::Left => if m.locked_in {
                (m, EqCommand::AdjustParameter { band: c.band, param: c.param, increase: false })
            } else {
                (m, EqCommand::Nothing)
            },
            Key::Right => if m.locked_in {
                (m, EqCommand::AdjustParameter { band: c.band, param: c.param, increase: true })
            } else {
                (m, EqCommand::Nothing)
            },
            _ => (m, EqCommand::Nothing),
        }
    } else if m.dialog is EqBandSelect {
        let band = m.dialog->selected_band;
        let option = m.dialog->selected_dialog_option;
        match key {
            Key::Up => (spec_eq_prev(m, n), EqCommand::Nothing),
            Key::Down => (spec_eq_next(m, n), EqCommand::Nothing),
            Key::Enter => match option {
                EqDialogOption::EditBand => (
                    EqRouteModel {
                        dialog: EqDialogState::Closed,
                        config: Some(BandConfigModel { band, param: 0, option_count: band_param_count() }),
                        ..m
                    },
                    EqCommand::Nothing,
                ),
                EqDialogOption::ResetBand => (EqRouteModel { dialog: EqDialogState::Closed, ..m }, EqCommand::ResetBand { band }),
            },
            Key::Esc => (EqRouteModel { dialog: EqDialogState::Closed, ..m }, EqCommand::Nothing),
            _ => (m, EqCommand::Nothing),
        }
    } else {
        match key {
            Key::Left => (EqRouteModel { focus: toggled_focus(m.focus), ..m }, EqCommand::Nothing),
            Key::Right => (EqRouteModel { focus: toggled_focus(m.focus), ..m }, EqCommand::Nothing),
            Key::Up => match m.focus {
                EqFocus::CurvePanel => (m, EqCommand::AdjustMasterGain { increase: true }),
                EqFocus::BandPanel => match mode {
                    EqMode::Casual => (m, EqCommand::Nothing),
                    EqMode::Advanced => (spec_eq_prev(m, n), EqCommand::Nothing),
                },
            },
            Key::Down => match m.focus {
                EqFocus::CurvePanel => (m, EqCommand::AdjustMasterGain { increase: false }),
                EqFocus::BandPanel => (spec_eq_next(m, n), EqCommand::Nothing),
            },
            Key::Char(ch) => if ch == 't' {
                (m, EqCommand::ToggleEnabled)
            } else if ch == 'm' {
                (m, EqCommand::ToggleMode)
            } else if ch == 'a' && n < MAX_EQ_FILTERS {
                (m, EqCommand::AddFilter)
            } else {
                (m, EqCommand::Nothing)
            },
            Key::Enter => if m.focus == EqFocus::BandPanel && mode == EqMode::Advanced {
                (
                    EqRouteModel {
                        dialog: EqDialogState::EqBandSelect { selected_band: m.band, selected_dialog_option: EqDialogOption::EditBand },
                        ..m
                    },
                    EqCommand::Nothing,
                )
            } else {
                (m, EqCommand::Nothing)
            },
            _ => (m, EqCommand::Nothing),
        }
    }
}

/// Names of the band parameters, in editor order.
pub open spec fn band_param_names() -> Seq<Seq<char>> {
    seq!["Type"@, "Frequency"@, "Gain"@, "Q Factor"@, "Order"@]
}

fn band_param_options() -> (r: Vec<String>)
    ensures
        r@.len() == band_param_count(),
        forall|i: int| 0 <= i < 5 ==> #[trigger] r@[i]@ == band_param_names()[i],
{
    let mut options: Vec<String> = Vec::new();
    options.push(String::from_str("Type"));
    options.push(String::from_str("Frequency"));
    options.push(String::from_str("Gain"));
    options.push(String::from_str("Q Factor"));
    options.push(String::from_str("Order"));
    options
}

impl EqualizerRoute {
    /// Curve panel focused, first band selected, nothing open.
    pub fn new() -> (r: EqualizerRoute)
        ensures
            r@ == (EqRouteModel {
                focus: EqFocus::CurvePanel,
                band: 0,
                dialog: EqDialogState::Closed,
                config: None,
                locked_in: false,
            }),
    {
        EqualizerRoute {
            eq_focus: EqFocus::CurvePanel,
            eq_selected_band: 0,
            eq_dialog_state: EqDialogState::Closed,
            eq_filter_band_config_opened: None,
            locked_in: false,
        }
    }

    /// Toggle focus between the curve and the band panel.
    pub fn toggle_focus(&mut self)
        ensures
            final(self)@ == (EqRouteModel { focus: toggled_focus(old(self)@.focus), ..old(self)@ }),
    {
        self.eq_focus = match self.eq_focus {
            EqFocus::CurvePanel => EqFocus::BandPanel,
            EqFocus::BandPanel => EqFocus::CurvePanel,
        };
    }

    /// Select the next of `num_filters` bands, wrapping.
    pub fn next_band(&mut self, num_filters: usize)
        ensures
            final(self)@ == (EqRouteModel { band: band_after(old(self)@.band, num_filters as nat), ..old(self)@ }),
    {
        if num_filters > 0 {
            self.eq_selected_band = wrap_next(self.eq_selected_band, num_filters);
        }
    }

    /// Select the previous of `num_filters` bands, wrapping from the first to the last.
    pub fn prev_band(&mut self, num_filters: usize)
        ensures
            final(self)@ == (EqRouteModel { band: band_before(old(self)@.band, num_filters as nat), ..old(self)@ }),
    {
        if num_filters > 0 {
            self.eq_selected_band = if self.eq_selected_band == 0 {
                num_filters - 1
            } else {
                self.eq_selected_band - 1
            };
        }
    }

    /// Next dialog choice when the band dialog is open, else next band.
    pub fn next(&mut self, num_filters: usize)
        ensures
            final(self)@ == spec_eq_next(old(self)@, num_filters as nat),
    {
        match self.eq_dialog_state {
            EqDialogState::Closed => self.next_band(num_filters),
            EqDialogState::EqBandSelect { selected_band, selected_dialog_option } => {
                self.eq_dialog_state = EqDialogState::EqBandSelect {
                    selected_band,
                    selected_dialog_option: selected_dialog_option.next(),
                };
            }
        }
    }

    /// Previous dialog choice when the band dialog is open, else previous band.
    pub fn prev(&mut self, num_filters: usize)
        ensures
            final(self)@ == spec_eq_prev(old(self)@, num_filters as nat),
    {
        match self.eq_dialog_state {
            EqDialogState::Closed => self.prev_band(num_filters),
            EqDialogState::EqBandSelect { selected_band, selected_dialog_option } => {
                self.eq_dialog_state = EqDialogState::EqBandSelect {
                    selected_band,
                    selected_dialog_option: selected_dialog_option.prev(),
                };
            }
        }
    }

    /// Open the band dialog on the selected band, "Edit" chosen.
    pub fn open_filter_band_dialog(&mut self)
        ensures
            final(self)@ == (EqRouteModel {
                dialog: EqDialogState::EqBandSelect {
                    selected_band: old(self)@.band,
                    selected_dialog_option: EqDialogOption::EditBand,
                },
                ..old(self)@
            }),
    {
        self.eq_dialog_state = EqDialogState::EqBandSelect {
            selected_band: self.eq_selected_band,
            selected_dialog_option: EqDialogOption::EditBand,
        };
    }

    /// Close the band dialog.
    pub fn close_filter_band_dialog(&mut self)
        ensures
            final(self)@ == (EqRouteModel { dialog: EqDialogState::Closed, ..old(self)@ }),
    {
        self.eq_dialog_state = EqDialogState::Closed;
    }

    /// Open the parameter editor `config`.
    pub fn open_filter_band_config(&mut self, config: BandFilterConfig)
        ensures
            final(self)@ == (EqRouteModel {
                config: Some(BandConfigModel { band: config.selected_band, param: config.selected_param, option_count: config.option@.len() }),
                ..old(self)@
            }),
            final(self).eq_filter_band_config_opened == Some(config),
    {
        self.eq_filter_band_config_opened = Some(config);
    }

    /// Close the parameter editor.
    pub fn close_filter_band_config(&mut self)
        ensures
            final(self)@ == (EqRouteModel { config: None, ..old(self)@ }),
    {
        self.eq_filter_band_config_opened = None;
    }

    /// Select the next parameter in the editor, wrapping.
    pub fn next_config_param(&mut self)
        ensures
            final(self)@ == (EqRouteModel {
                config: match old(self)@.config { Some(c) => Some(config_next(c)), None => None },
                ..old(self)@
            }),
            final(self).eq_filter_band_config_opened matches Some(c) ==> c.option@ == old(self).eq_filter_band_config_opened->0.option@,
    {
        if let Some(config) = &mut self.eq_filter_band_config_opened {
            if config.option.len() > 0 {
                config.selected_param = wrap_next(config.selected_param, config.option.len());
            }
        }
    }

    /// Select the previous parameter in the editor, wrapping.
    pub fn prev_config_param(&mut self)
        ensures
            final(self)@ == (EqRouteModel {
                config: match old(self)@.config { Some(c) => Some(config_prev(c)), None => None },
                ..old(self)@
            }),
            final(self).eq_filter_band_config_opened matches Some(c) ==> c.option@ == old(self).eq_filter_band_config_opened->0.option@,
    {
        if let Some(config) = &mut self.eq_filter_band_config_opened {
            if config.option.len() > 0 {
                config.selected_param = if config.selected_param == 0 {
                    config.option.len() - 1
                } else {
                    config.selected_param - 1
                };
            }
        }
    }

    /// Whether the band dialog or the parameter editor is open.
    pub fn has_floating_panel(&self) -> (r: bool)
        ensures
            r == (self@.config is Some || self@.dialog != EqDialogState::Closed),
    {
        self.eq_filter_band_config_opened.is_some() || self.eq_dialog_state != EqDialogState::Closed
    }

    /// Answer a key with `num_filters` bands in layout `mode` (see `spec_eq_key`).
    /// A parameter editor opened here lists the five band parameters.
    pub fn handle_key(&mut self, key: Key, num_filters: usize, mode: EqMode) -> (cmd: EqCommand)
        ensures
            (final(self)@, cmd) == spec_eq_key(old(self)@, key, num_filters as nat, mode),
            old(self).eq_filter_band_config_opened is None && final(self).eq_filter_band_config_opened is Some
                ==> forall|i: int| 0 <= i < 5 ==> #[trigger] final(self).eq_filter_band_config_opened->0.option@[i]@ == band_param_names()[i],
    {
        if self.eq_filter_band_config_opened.is_some() {
            let (band, param) = match &self.eq_filter_band_config_opened {
                Some(c) => (c.selected_band, c.selected_param),
                None => (0, 0),
            };
            match key {
                Key::Up => {
                    if !self.locked_in {
                        self.prev_config_param();
                    }
                    EqCommand::Nothing
                }
                Key::Down => {
                    if !self.locked_in {
                        self.next_config_param();
                    }
                    EqCommand::Nothing
                }
                Key::Esc => {
                    self.close_filter_band_config();
                    self.locked_in = false;
                    EqCommand::Nothing
                }
                Key::Enter => {
                    self.locked_in = !self.locked_in;
                    EqCommand::Nothing
                }
                Key::Left => {
                    if self.locked_in {
                        EqCommand::AdjustParameter { band, param, increase: false }
                    } else {
                        EqCommand::Nothing
                    }
                }
                Key::Right => {
                    if self.locked_in {
                        EqCommand::AdjustParameter { band, param, increase: true }
                    } else {
                        EqCommand::Nothing
                    }
                }
                _ => EqCommand::Nothing,
            }
        } else if let EqDialogState::EqBandSelect { selected_band, selected_dialog_option } = self.eq_dialog_state {
            match key {
                Key::Up => {
                    self.prev(num_filters);
                    EqCommand::Nothing
                }
                Key::Down => {
                    self.next(num_filters);
                    EqCommand::Nothing
                }
                Key::Enter => {
                    self.close_filter_band_dialog();
                    match selected_dialog_option {
                        EqDialogOption::EditBand => {
                            self.open_filter_band_config(
                                BandFilterConfig { selected_band, option: band_param_options(), selected_param: 0 },
                            );
                            EqCommand::Nothing
                        }
                        EqDialogOption::ResetBand => EqCommand::ResetBand { band: selected_band },
                    }
                }
                Key::Esc => {
                    self.close_filter_band_dialog();
                    EqCommand::Nothing
                }
                _ => EqCommand::Nothing,
            }
        } else {
            match key {
                Key::Left | Key::Right => {
                    self.toggle_focus();
                    EqCommand::Nothing
                }
                Key::Up => {
                    match self.eq_focus {
                        EqFocus::CurvePanel => EqCommand::AdjustMasterGain { increase: true },
                        EqFocus::BandPanel => {
                            match mode {
                                EqMode::Casual => EqCommand::Nothing,
                                EqMode::Advanced => {
                                    self.prev(num_filters);
                                    EqCommand::Nothing
                                }
                            }
                        }
                    }
                }
                Key::Down => {
                    match self.eq_focus {
                        EqFocus::CurvePanel => EqCommand::AdjustMasterGain { increase: false },
                        EqFocus::BandPanel => {
                            self.next(num_filters);
                            EqCommand::Nothing
                        }
                    }
                }
                Key::Char(ch) => {
                    if ch == 't' {
                        EqCommand::ToggleEnabled
                    } else if ch == 'm' {
                        EqCommand::ToggleMode
                    } else if ch == 'a' && num_filters < MAX_EQ_FILTERS {
                        EqCommand::AddFilter
                    } else {
                        EqCommand::Nothing
                    }
                }
                Key::Enter => {
                    if self.eq_focus == EqFocus::BandPanel && mode == EqMode::Advanced {
                        self.open_filter_band_dialog();
                    }
                    EqCommand::Nothing
                }
                _ => EqCommand::Nothing,
            }
        }
    }

    /// Whether the router should hand `key` to this screen, send the user to
    /// the next tab, or handle the key itself.
    pub fn intercept_global_key(&self, key: Key) -> (r: EqIntercept)
        ensures
            r == (if self@.config is Some || self@.dialog != EqDialogState::Closed {
                EqIntercept::Handled
            } else if key == Key::Tab {
                EqIntercept::NextTab
            } else {
                EqIntercept::Ignored
            }),
    {
        if self.has_floating_panel() {
            EqIntercept::Handled
        } else if key == Key::Tab {
            EqIntercept::NextTab
        } else {
            EqIntercept::Ignored
        }
    }
}

/// The band order after one step: one more (saturating at 255) or one less
/// (never below 1), then clamped to 1..=16 as a band accepts.
pub fn adjust_order(order: u8, increase: bool) -> (r: u8)
    ensures
        r == vstd::math::min(
            vstd::math::max(if increase { vstd::math::min(order + 1, 255) } else { vstd::math::max(order - 1, 1) }, 1),
            16,
        ),
{
    let stepped: u8 = if increase {
        if order == 255 { 255 } else { order + 1 }
    } else {
        if order <= 1 { 1 } else { order - 1 }
    };
    if stepped < 1 {
        1
    } else if stepped > 16 {
        16
    } else {
        stepped
    }
}

/// The filter type after one step forward or back.
pub fn adjust_filter_type(t: FilterType, increase: bool) -> (r: FilterType)
    ensures
        r == filter_type_at(
            if increase {
                cycle_next(filter_type_index(t), filter_type_count())
            } else {
                cycle_prev(filter_type_index(t), filter_type_count())
            },
        ),
{
    if increase {
        t.next()
    } else {
        t.prev()
    }
}

} // verus!
