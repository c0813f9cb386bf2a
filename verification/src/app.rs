//! Application state and navigation logic of the TUI: tabs, focus cycling,
//! and the changes that adjusting or toggling a control makes.
use vstd::prelude::*;
use crate::presets::{PresetSlot, PRESET_COUNT};
use crate::protocol::{
    apply_setting, is_factory_state, with_setting, AutoGain, AutoTone, CompressorPreset,
    DeviceState, HpfFrequency, InputMode, MicPosition, Setting,
};

verus! {

/// Which top-level tab/panel is active.
#[derive(Debug, Clone, Copy, PartialEq, Eq, Structural)]
pub enum Tab {
    Main,
    Eq,
    Dynamics,
    Presets,
    Info,
}

impl Tab {
    pub const ALL: [Tab; 5] = [Tab::Main, Tab::Eq, Tab::Dynamics, Tab::Presets, Tab::Info];

    /// Position of the tab in the tab bar.
    pub open spec fn ord(self) -> nat {
        match self {
            Tab::Main => 0,
            Tab::Eq => 1,
            Tab::Dynamics => 2,
            Tab::Presets => 3,
            Tab::Info => 4,
        }
    }

    /// The tab at position `i` (0–4) of the tab bar.
    pub open spec fn at(i: nat) -> Tab {
        if i == 0 {
            Tab::Main
        } else if i == 1 {
            Tab::Eq
        } else if i == 2 {
            Tab::Dynamics
        } else if i == 3 {
            Tab::Presets
        } else {
            Tab::Info
        }
    }

    /// The tab to the right, wrapping around.
    pub open spec fn succ(self) -> Tab {
        Tab::at((self.ord() + 1) % 5)
    }

    /// The tab to the left, wrapping around.
    pub open spec fn pred(self) -> Tab {
        Tab::at((self.ord() + 4) % 5)
    }

    pub open spec fn title_text(self) -> Seq<char> {
        match self {
            Tab::Main => " Main "@,
            Tab::Eq => " EQ "@,
            Tab::Dynamics => " Dynamics "@,
            Tab::Presets => " Presets "@,
            Tab::Info => " Info "@,
        }
    }

    pub fn title(&self) -> (r: &'static str)
        ensures
            r@ == self.title_text(),
    {
        match self {
            Tab::Main => " Main ",
            Tab::Eq => " EQ ",
            Tab::Dynamics => " Dynamics ",
            Tab::Presets => " Presets ",
            Tab::Info => " Info ",
        }
    }

    pub fn index(&self) -> (r: usize)
        ensures
            r == self.ord(),
    {
        match self {
            Tab::Main => 0,
            Tab::Eq => 1,
            Tab::Dynamics => 2,
            Tab::Presets => 3,
            Tab::Info => 4,
        }
    }

    fn from_index(i: usize) -> (t: Tab)
        requires
            i < 5,
        ensures
            t == Tab::at(i as nat),
    {
        if i == 0 {
            Tab::Main
        } else if i == 1 {
            Tab::Eq
        } else if i == 2 {
            Tab::Dynamics
        } else if i == 3 {
            Tab::Presets
        } else {
            Tab::Info
        }
    }

    pub fn next(&self) -> (t: Tab)
        ensures
            t == self.succ(),
    {
        Tab::from_index((self.index() + 1) % 5)
    }

    pub fn prev(&self) -> (t: Tab)
        ensures
            t == self.pred(),
    {
        Tab::from_index((self.index() + 5 - 1) % 5)
    }
}

/// Which control within the current tab has focus.
#[derive(Debug, Clone, Copy, PartialEq, Eq, Structural)]
pub enum Focus {
    // Main tab — shared
    Mode,
    Mute,
    Phantom,
    Lock,
    MonitorMix,
    // Main tab — Manual mode only
    Gain,
    // Main tab — Auto Level mode only
    AutoPosition,
    AutoTone,
    AutoGain,
    // EQ tab — focus carries the band index (0–4)
    EqEnable,
    EqBandSelect,
    EqBandEnable(usize),
    EqGain(usize),
    // Dynamics tab
    Limiter,
    Compressor,
    Hpf,
    // Presets tab — slot index 0–3
    PresetName(usize),
    PresetActions(usize),
    // Info — no interactive focus
    Nothing,
}

/// The indices a focus carries are in range: EQ bands 0–4, preset slots 0–3.
pub open spec fn focus_in_range(f: Focus) -> bool {
    match f {
        Focus::EqBandEnable(b) => b < 5,
        Focus::EqGain(b) => b < 5,
        Focus::PresetName(i) => i < PRESET_COUNT,
        Focus::PresetActions(i) => i < PRESET_COUNT,
        _ => true,
    }
}

/// Commands to send to the device, produced by the app and executed by the
/// program around it.
#[derive(Debug, Clone, Copy, PartialEq, Eq, Structural)]
pub enum DeviceAction {
    SetGain(u8),
    SetMode(InputMode),
    SetAutoPosition(MicPosition),
    SetAutoTone(AutoTone),
    SetAutoGain(AutoGain),
    SetMute(bool),
    SetPhantom(bool),
    SetLock(bool),
    SetMonitorMix(u8),
    SetLimiter(bool),
    SetCompressor(CompressorPreset),
    SetHpf(HpfFrequency),
    SetEqEnable(bool),
    /// Band index 0–4.
    SetEqBandEnable(usize, bool),
    /// Band index 0–4 and gain in dB (−8..+6, steps of 2).
    SetEqBandGain(usize, i8),
    /// Save the current device state to a preset slot.
    SavePreset(usize),
    /// Load a preset slot and apply all its settings to the device.
    LoadPreset(usize),
    /// Delete the preset file of a slot.
    DeletePreset(usize),
    /// Write the (already updated in memory) name of a slot back to disk.
    PersistPresetName(usize),
    Refresh,
}

/// The full TUI application state.
pub struct App {
    pub device_state: DeviceState,
    pub active_tab: Tab,
    pub focus: Focus,
    pub status_message: String,
    pub status_is_error: bool,
    pub eq_selected_band: usize,
    pub should_quit: bool,
    pub demo_mode: bool,
    pub help_visible: bool,
    /// Loaded preset slots. `None` means the slot file does not exist yet.
    pub presets: [Option<PresetSlot>; 4],
    /// Set while the user is typing a new name for a preset slot.
    pub editing_preset_name: bool,
    /// Which slot is being renamed (meaningful while `editing_preset_name`).
    pub editing_preset_index: usize,
    /// The name of that slot when renaming started; Esc puts it back.
    pub preset_name_before_edit: String,
}

impl App {
    /// The indices the app holds are in range.
    pub open spec fn wf(self) -> bool {
        &&& self.eq_selected_band < 5
        &&& focus_in_range(self.focus)
        &&& self.editing_preset_index < PRESET_COUNT
    }

    /// The state of a freshly started app.
    pub open spec fn is_fresh(self) -> bool {
        &&& is_factory_state(self.device_state)
        &&& self.active_tab == Tab::Main
        &&& self.focus == Focus::Mode
        &&& self.status_message@ == "Press ? for help"@
        &&& !self.status_is_error
        &&& self.eq_selected_band == 0
        &&& !self.should_quit
        &&& !self.demo_mode
        &&& !self.help_visible
        &&& forall|i: int| 0 <= i < 4 ==> #[trigger] self.presets[i] is None
        &&& !self.editing_preset_name
        &&& self.editing_preset_index == 0
        &&& self.preset_name_before_edit@.len() == 0
    }
}

impl Default for App {
    fn default() -> (app: Self)
        ensures
            app.is_fresh(),
            app.wf(),
    {
        App {
            device_state: DeviceState::default(),
            active_tab: Tab::Main,
            focus: Focus::Mode,
            status_message: String::from_str("Press ? for help"),
            status_is_error: false,
            eq_selected_band: 0,
            should_quit: false,
            demo_mode: false,
            help_visible: false,
            presets: [None, None, None, None],
            editing_preset_name: false,
            editing_preset_index: 0,
            preset_name_before_edit: String::new(),
        }
    }
}

/// EQ and Dynamics are managed by the device in Auto Level mode and cannot
/// be configured there.
pub open spec fn tab_locked(tab: Tab, mode: InputMode) -> bool {
    (tab == Tab::Eq || tab == Tab::Dynamics) && mode == InputMode::Auto
}

/// Starting at `t`, the first tab to the right that is not locked, trying at
/// most `fuel` further steps.
pub open spec fn seek_right(t: Tab, mode: InputMode, fuel: nat) -> Tab
    decreases fuel,
{
    if fuel == 0 || !tab_locked(t, mode) {
        t
    } else {
        seek_right(t.succ(), mode, (fuel - 1) as nat)
    }
}

/// Starting at `t`, the first tab to the left that is not locked, trying at
/// most `fuel` further steps.
pub open spec fn seek_left(t: Tab, mode: InputMode, fuel: nat) -> Tab
    decreases fuel,
{
    if fuel == 0 || !tab_locked(t, mode) {
        t
    } else {
        seek_left(t.pred(), mode, (fuel - 1) as nat)
    }
}

/// The control a tab focuses first.
pub open spec fn default_focus(tab: Tab, mode: InputMode) -> Focus {
    match tab {
        Tab::Main => match mode {
            InputMode::Manual => Focus::Gain,
            InputMode::Auto => Focus::Mode,
        },
        Tab::Eq => Focus::EqEnable,
        Tab::Dynamics => Focus::Limiter,
        Tab::Presets => Focus::PresetName(0),
        Tab::Info => Focus::Nothing,
    }
}

/// The app showing tab `t` with its first control focused.
pub open spec fn showing(app: App, t: Tab) -> App {
    App { active_tab: t, focus: default_focus(t, app.device_state.mode), ..app }
}

impl App {
    fn set_status(&mut self, msg: &str, is_error: bool)
        ensures
            final(self).status_message@ == msg@,
            *final(self) == (App {
                status_message: final(self).status_message,
                status_is_error: is_error,
                ..*old(self)
            }),
    {
        self.status_message = String::from_str(msg);
        self.status_is_error = is_error;
    }

    /// Show a status message that is not an error.
    pub fn set_ok(&mut self, msg: &str)
        ensures
            final(self).status_message@ == msg@,
            *final(self) == (App {
                status_message: final(self).status_message,
                status_is_error: false,
                ..*old(self)
            }),
    {
        self.set_status(msg, false);
    }

    /// Show an error status message.
    pub fn set_err(&mut self, msg: &str)
        ensures
            final(self).status_message@ == msg@,
            *final(self) == (App {
                status_message: final(self).status_message,
                status_is_error: true,
                ..*old(self)
            }),
    {
        self.set_status(msg, true);
    }

    /// Whether a tab is inaccessible in the current input mode.
    pub fn is_tab_locked(&self, tab: Tab) -> (r: bool)
        ensures
            r == tab_locked(tab, self.device_state.mode),
    {
        (tab == Tab::Eq || tab == Tab::Dynamics) && self.device_state.mode == InputMode::Auto
    }

    fn reset_focus_for_tab(&mut self)
        ensures
            *final(self) == (App {
                focus: default_focus(old(self).active_tab, old(self).device_state.mode),
                ..*old(self)
            }),
    {
        self.focus = match self.active_tab {
            Tab::Main => match self.device_state.mode {
                InputMode::Manual => Focus::Gain,
                InputMode::Auto => Focus::Mode,
            },
            Tab::Eq => Focus::EqEnable,
            Tab::Dynamics => Focus::Limiter,
            Tab::Presets => Focus::PresetName(0),
            Tab::Info => Focus::Nothing,
        };
    }

    /// Move to the next tab to the right, skipping locked tabs.
    pub fn next_tab(&mut self)
        ensures
            *final(self) == showing(
                *old(self),
                seek_right(old(self).active_tab.succ(), old(self).device_state.mode, 5),
            ),
    {
        let ghost start = self.active_tab.succ();
        let mut candidate = self.active_tab.next();
        let mut k: usize = 0;
        while k < 5
            invariant
                k <= 5,
                seek_right(candidate, self.device_state.mode, (5 - k) as nat) == seek_right(
                    start,
                    self.device_state.mode,
                    5,
                ),
            ensures
                candidate == seek_right(start, self.device_state.mode, 5),
            decreases 5 - k,
        {
            if !self.is_tab_locked(candidate) {
                break;
            }
            candidate = candidate.next();
            k = k + 1;
        }
        self.active_tab = candidate;
        self.reset_focus_for_tab();
    }

    /// Move to the next tab to the left, skipping locked tabs.
    pub fn prev_tab(&mut self)
        ensures
            *final(self) == showing(
                *old(self),
                seek_left(old(self).active_tab.pred(), old(self).device_state.mode, 5),
            ),
    {
        let ghost start = self.active_tab.pred();
        let mut candidate = self.active_tab.prev();
        let mut k: usize = 0;
        while k < 5
            invariant
                k <= 5,
                seek_left(candidate, self.device_state.mode, (5 - k) as nat) == seek_left(
                    start,
                    self.device_state.mode,
                    5,
                ),
            ensures
                candidate == seek_left(start, self.device_state.mode, 5),
            decreases 5 - k,
        {
            if !self.is_tab_locked(candidate) {
                break;
            }
            candidate = candidate.prev();
            k = k + 1;
        }
        self.active_tab = candidate;
        self.reset_focus_for_tab();
    }
}

// ── Focus cycling within a tab ────────────────────────────────────────────────
//
// Order matches the top-to-bottom screen layout:
//   Main, Manual: Mode → Mute → Gain → MonitorMix → Phantom → Lock → (wrap)
//   Main, Auto:   Mode → Mute → AutoPosition → AutoTone → AutoGain → MonitorMix → Phantom → Lock → (wrap)
//   EQ:           EqEnable → EqBandSelect → EqBandEnable(selected) → EqGain → (wrap)
//   Dynamics:     Limiter → Compressor → Hpf → (wrap)
//   Presets:      Name(0) → Actions(0) → Name(1) → … → Actions(3) → (wrap)
// A focus that does not belong to the tab's cycle returns to its start.

/// The focus after moving down.
pub open spec fn focus_down(tab: Tab, f: Focus, mode: InputMode, selected: usize) -> Focus {
    match tab {
        Tab::Main => match f {
            Focus::Mode => Focus::Mute,
            Focus::Mute => if mode == InputMode::Manual { Focus::Gain } else { Focus::AutoPosition },
            Focus::Gain => if mode == InputMode::Manual { Focus::MonitorMix } else { Focus::Mode },
            Focus::AutoPosition => if mode == InputMode::Auto { Focus::AutoTone } else { Focus::Mode },
            Focus::AutoTone => if mode == InputMode::Auto { Focus::AutoGain } else { Focus::Mode },
            Focus::AutoGain => if mode == InputMode::Auto { Focus::MonitorMix } else { Focus::Mode },
            Focus::MonitorMix => Focus::Phantom,
            Focus::Phantom => Focus::Lock,
            Focus::Lock => Focus::Mode,
            _ => Focus::Mode,
        },
        Tab::Eq => match f {
            Focus::EqEnable => Focus::EqBandSelect,
            Focus::EqBandSelect => Focus::EqBandEnable(selected),
            Focus::EqBandEnable(b) => Focus::EqGain(b),
            _ => Focus::EqEnable,
        },
        Tab::Dynamics => match f {
            Focus::Limiter => Focus::Compressor,
            Focus::Compressor => Focus::Hpf,
            _ => Focus::Limiter,
        },
        Tab::Presets => match f {
            Focus::PresetName(i) => Focus::PresetActions(i),
            Focus::PresetActions(i) => Focus::PresetName(((i + 1) % 4) as usize),
            _ => Focus::PresetName(0),
        },
        Tab::Info => f,
    }
}

/// The focus after moving up.
pub open spec fn focus_up(tab: Tab, f: Focus, mode: InputMode, selected: usize) -> Focus {
    match tab {
        Tab::Main => match f {
            Focus::Mode => Focus::Lock,
            Focus::Mute => Focus::Mode,
            Focus::Gain => if mode == InputMode::Manual { Focus::Mute } else { Focus::Mode },
            Focus::AutoPosition => if mode == InputMode::Auto { Focus::Mute } else { Focus::Mode },
            Focus::AutoTone => if mode == InputMode::Auto { Focus::AutoPosition } else { Focus::Mode },
            Focus::AutoGain => if mode == InputMode::Auto { Focus::AutoTone } else { Focus::Mode },
            Focus::MonitorMix => if mode == InputMode::Manual { Focus::Gain } else { Focus::AutoGain },
            Focus::Phantom => Focus::MonitorMix,
            Focus::Lock => Focus::Phantom,
            _ => Focus::Mode,
        },
        Tab::Eq => match f {
            Focus::EqEnable => Focus::EqGain(selected),
            Focus::EqBandSelect => Focus::EqEnable,
            Focus::EqBandEnable(_) => Focus::EqBandSelect,
            Focus::EqGain(b) => Focus::EqBandEnable(b),
            _ => Focus::EqEnable,
        },
        Tab::Dynamics => match f {
            Focus::Limiter => Focus::Hpf,
            Focus::Compressor => Focus::Limiter,
            Focus::Hpf => Focus::Compressor,
            _ => Focus::Limiter,
        },
        Tab::Presets => match f {
            Focus::PresetName(i) => if i == 0 {
                Focus::PresetActions((PRESET_COUNT - 1) as usize)
            } else {
                Focus::PresetActions((i - 1) as usize)
            },
            Focus::PresetActions(i) => Focus::PresetName(i),
            _ => Focus::PresetName(0),
        },
        Tab::Info => f,
    }
}

impl App {
    /// Move the focus to the next control of the tab.
    pub fn focus_next(&mut self)
        ensures
            *final(self) == (App {
                focus: focus_down(
                    old(self).active_tab,
                    old(self).focus,
                    old(self).device_state.mode,
                    old(self).eq_selected_band,
                ),
                ..*old(self)
            }),
    {
        let manual = self.device_state.mode == InputMode::Manual;
        self.focus = match self.active_tab {
            Tab::Main => match self.focus {
                Focus::Mode => Focus::Mute,
                Focus::Mute => if manual { Focus::Gain } else { Focus::AutoPosition },
                Focus::Gain => if manual { Focus::MonitorMix } else { Focus::Mode },
                Focus::AutoPosition => if !manual { Focus::AutoTone } else { Focus::Mode },
                Focus::AutoTone => if !manual { Focus::AutoGain } else { Focus::Mode },
                Focus::AutoGain => if !manual { Focus::MonitorMix } else { Focus::Mode },
                Focus::MonitorMix => Focus::Phantom,
                Focus::Phantom => Focus::Lock,
                Focus::Lock => Focus::Mode,
                _ => Focus::Mode,
            },
            Tab::Eq => match self.focus {
                Focus::EqEnable => Focus::EqBandSelect,
                Focus::EqBandSelect => Focus::EqBandEnable(self.eq_selected_band),
                Focus::EqBandEnable(b) => Focus::EqGain(b),
                _ => Focus::EqEnable,
            },
            Tab::Dynamics => match self.focus {
                Focus::Limiter => Focus::Compressor,
                Focus::Compressor => Focus::Hpf,
                _ => Focus::Limiter,
            },
            Tab::Presets => match self.focus {
                Focus::PresetName(i) => Focus::PresetActions(i),
                Focus::PresetActions(i) => Focus::PresetName((i % 4 + 1) % PRESET_COUNT),
                _ => Focus::PresetName(0),
            },
            Tab::Info => self.focus,
        };
    }

    /// Move the focus to the previous control of the tab.
    pub fn focus_prev(&mut self)
        ensures
            *final(self) == (App {
                focus: focus_up(
                    old(self).active_tab,
                    old(self).focus,
                    old(self).device_state.mode,
                    old(self).eq_selected_band,
                ),
                ..*old(self)
            }),
    {
        let manual = self.device_state.mode == InputMode::Manual;
        self.focus = match self.active_tab {
            Tab::Main => match self.focus {
                Focus::Mode => Focus::Lock,
                Focus::Mute => Focus::Mode,
                Focus::Gain => if manual { Focus::Mute } else { Focus::Mode },
                Focus::AutoPosition => if !manual { Focus::Mute } else { Focus::Mode },
                Focus::AutoTone => if !manual { Focus::AutoPosition } else { Focus::Mode },
                Focus::AutoGain => if !manual { Focus::AutoTone } else { Focus::Mode },
                Focus::MonitorMix => if manual { Focus::Gain } else { Focus::AutoGain },
                Focus::Phantom => Focus::MonitorMix,
                Focus::Lock => Focus::Phantom,
                _ => Focus::Mode,
            },
            Tab::Eq => match self.focus {
                Focus::EqEnable => Focus::EqGain(self.eq_selected_band),
                Focus::EqBandSelect => Focus::EqEnable,
                Focus::EqBandEnable(_) => Focus::EqBandSelect,
                Focus::EqGain(b) => Focus::EqBandEnable(b),
                _ => Focus::EqEnable,
            },
            Tab::Dynamics => match self.focus {
                Focus::Limiter => Focus::Hpf,
                Focus::Compressor => Focus::Limiter,
                Focus::Hpf => Focus::Compressor,
                _ => Focus::Limiter,
            },
            Tab::Presets => match self.focus {
                Focus::PresetName(i) => if i == 0 {
                    Focus::PresetActions(PRESET_COUNT - 1)
                } else {
                    Focus::PresetActions(i - 1)
                },
                Focus::PresetActions(i) => Focus::PresetName(i),
                _ => Focus::PresetName(0),
            },
            Tab::Info => self.focus,
        };
    }
}

// ── Value adjustment and toggling ─────────────────────────────────────────────
/// The device state with an optional setting changed.
pub open spec fn state_after(s: DeviceState, st: Option<Setting>) -> DeviceState {
    match st {
        Some(x) => with_setting(s, x),
        None => s,
    }
}

/// What adjusting the focused control by `delta` changes: the setting, the
/// selected EQ band, and the action for the device. Gain steps by 1 within
/// 0–60, the monitor mix by 5 within 0–100, an EQ band gain by 2 dB per unit
/// of `delta` within −8..=+6; the band selector cycles through the 5 bands.
pub open spec fn adjust_outcome(app: App, delta: i32) -> (Option<Setting>, usize, Option<DeviceAction>) {
    let sel = app.eq_selected_band;
    let ds = app.device_state;
    match app.focus {
        Focus::Gain => {
            let g = ds.gain_db;
            let n: u8 = if delta > 0 {
                if g + 1 <= 60 { (g + 1) as u8 } else { 60 }
            } else {
                if g >= 1 { (g - 1) as u8 } else { 0 }
            };
            (Some(Setting::Gain(n)), sel, Some(DeviceAction::SetGain(n)))
        },
        Focus::MonitorMix => {
            let m = ds.monitor_mix;
            let n: u8 = if delta > 0 {
                if m + 5 <= 100 { (m + 5) as u8 } else { 100 }
            } else {
                if m >= 5 { (m - 5) as u8 } else { 0 }
            };
            (Some(Setting::MonitorMix(n)), sel, Some(DeviceAction::SetMonitorMix(n)))
        },
        Focus::EqBandSelect => {
            let next_sel = if delta > 0 { (sel + 1) % 5 } else { (sel + 4) % 5 };
            (None, next_sel as usize, None)
        },
        Focus::EqGain(b) => {
            let n = clamp_i(ds.eq_bands[b as int].gain_db + delta * 2, -8, 6) as i8;
            (Some(Setting::EqBandGain(b, n)), sel, Some(DeviceAction::SetEqBandGain(b, n)))
        },
        _ => (None, sel, None),
    }
}

/// `v` clamped to `lo..=hi`.
pub open spec fn clamp_i(v: int, lo: int, hi: int) -> int {
    if v < lo {
        lo
    } else if v > hi {
        hi
    } else {
        v
    }
}

/// `adjust_focused(delta)` does not overflow: its arithmetic is
/// in 8-bit, platform-width and 32-bit integers.
pub open spec fn adjust_fits(app: App, delta: i32) -> bool {
    match app.focus {
        Focus::Gain => delta > 0 ==> app.device_state.gain_db < 255,
        Focus::MonitorMix => delta > 0 ==> app.device_state.monitor_mix <= 250,
        Focus::EqBandSelect => if delta > 0 {
            app.eq_selected_band < usize::MAX
        } else {
            app.eq_selected_band <= usize::MAX - 4
        },
        Focus::EqGain(b) => b < 5 && i32::MIN <= delta * 2 <= i32::MAX && i32::MIN
            <= app.device_state.eq_bands[b as int].gain_db + delta * 2 <= i32::MAX,
        _ => true,
    }
}

/// The indices a toggle reads are in range: the EQ band whose switch flips
/// and the preset slot to load.
pub open spec fn toggle_in_range(f: Focus) -> bool {
    match f {
        Focus::EqBandEnable(b) => b < 5,
        Focus::PresetActions(i) => i < PRESET_COUNT,
        _ => true,
    }
}

/// What toggling the focused control changes: the setting, the focus, and
/// the action for the device. Switches flip, multi-valued settings cycle, the
/// mode switch also moves the focus to the first control of the new mode,
/// and a filled preset slot's actions row asks to load it.
pub open spec fn toggle_outcome(app: App) -> (Option<Setting>, Focus, Option<DeviceAction>) {
    let ds = app.device_state;
    let f = app.focus;
    match f {
        Focus::Mode => {
            let m = if ds.mode == InputMode::Auto { InputMode::Manual } else { InputMode::Auto };
            let nf = if m == InputMode::Auto { Focus::AutoPosition } else { Focus::Gain };
            (Some(Setting::Mode(m)), nf, Some(DeviceAction::SetMode(m)))
        },
        Focus::AutoPosition => {
            let x = ds.auto_position.succ();
            (Some(Setting::AutoPosition(x)), f, Some(DeviceAction::SetAutoPosition(x)))
        },
        Focus::AutoTone => {
            let x = ds.auto_tone.succ();
            (Some(Setting::AutoTone(x)), f, Some(DeviceAction::SetAutoTone(x)))
        },
        Focus::AutoGain => {
            let x = ds.auto_gain.succ();
            (Some(Setting::AutoGain(x)), f, Some(DeviceAction::SetAutoGain(x)))
        },
        Focus::Mute => (Some(Setting::Muted(!ds.muted)), f, Some(DeviceAction::SetMute(!ds.muted))),
        Focus::Phantom => (
            Some(Setting::Phantom(!ds.phantom_power)),
            f,
            Some(DeviceAction::SetPhantom(!ds.phantom_power)),
        ),
        Focus::Lock => (Some(Setting::Locked(!ds.locked)), f, Some(DeviceAction::SetLock(!ds.locked))),
        Focus::EqEnable => (
            Some(Setting::EqEnabled(!ds.eq_enabled)),
            f,
            Some(DeviceAction::SetEqEnable(!ds.eq_enabled)),
        ),
        Focus::EqBandEnable(b) => {
            let x = !ds.eq_bands[b as int].enabled;
            (Some(Setting::EqBandEnabled(b, x)), f, Some(DeviceAction::SetEqBandEnable(b, x)))
        },
        Focus::Limiter => (
            Some(Setting::Limiter(!ds.limiter_enabled)),
            f,
            Some(DeviceAction::SetLimiter(!ds.limiter_enabled)),
        ),
        Focus::Compressor => {
            let x = ds.compressor.succ();
            (Some(Setting::Compressor(x)), f, Some(DeviceAction::SetCompressor(x)))
        },
        Focus::Hpf => {
            let x = ds.hpf.succ();
            (Some(Setting::Hpf(x)), f, Some(DeviceAction::SetHpf(x)))
        },
        Focus::PresetActions(i) => (
            None,
            f,
            if app.presets[i as int] is Some { Some(DeviceAction::LoadPreset(i)) } else { None },
        ),
        _ => (None, f, None),
    }
}

impl App {
    /// Adjust the focused value by `delta` (usually ±1).
    pub fn adjust_focused(&mut self, delta: i32) -> (action: Option<DeviceAction>)
        requires
            adjust_fits(*old(self), delta),
        ensures
            ({
                let (st, sel, act) = adjust_outcome(*old(self), delta);
                &&& *final(self) == (App {
                    device_state: state_after(old(self).device_state, st),
                    eq_selected_band: sel,
                    ..*old(self)
                })
                &&& action == act
            }),
    {
        match self.focus {
            Focus::Gain => {
                let g = self.device_state.gain_db;
                let n: u8 = if delta > 0 {
                    if g + 1 <= 60 { g + 1 } else { 60 }
                } else {
                    if g >= 1 { g - 1 } else { 0 }
                };
                apply_setting(&mut self.device_state, Setting::Gain(n));
                Some(DeviceAction::SetGain(n))
            },
            Focus::MonitorMix => {
                let m = self.device_state.monitor_mix;
                let n: u8 = if delta > 0 {
                    if m + 5 <= 100 { m + 5 } else { 100 }
                } else {
                    if m >= 5 { m - 5 } else { 0 }
                };
                apply_setting(&mut self.device_state, Setting::MonitorMix(n));
                Some(DeviceAction::SetMonitorMix(n))
            },
            Focus::EqBandSelect => {
                if delta > 0 {
                    self.eq_selected_band = (self.eq_selected_band + 1) % 5;
                } else {
                    self.eq_selected_band = (self.eq_selected_band + 4) % 5;
                }
                None
            },
            Focus::EqGain(b) => {
                let v: i32 = (self.device_state.eq_bands[b].gain_db as i32) + delta * 2;
                let n: i8 = if v < -8 {
                    -8
                } else if v > 6 {
                    6
                } else {
                    v as i8
                };
                apply_setting(&mut self.device_state, Setting::EqBandGain(b, n));
                Some(DeviceAction::SetEqBandGain(b, n))
            },
            _ => None,
        }
    }

    /// What toggling the focused control would do.
    fn toggle_plan(&self) -> (r: (Option<Setting>, Focus, Option<DeviceAction>))
        requires
            toggle_in_range(self.focus),
        ensures
            r == toggle_outcome(*self),
            r.0 matches Some(st) ==> crate::protocol::setting_in_range(st),
    {
        let ds = &self.device_state;
        let f = self.focus;
        match f {
            Focus::Mode => {
                let m = match ds.mode {
                    InputMode::Auto => InputMode::Manual,
                    InputMode::Manual => InputMode::Auto,
                };
                let nf = match m {
                    InputMode::Auto => Focus::AutoPosition,
                    InputMode::Manual => Focus::Gain,
                };
                (Some(Setting::Mode(m)), nf, Some(DeviceAction::SetMode(m)))
            },
            Focus::AutoPosition => {
                let x = ds.auto_position.cycle_next();
                (Some(Setting::AutoPosition(x)), f, Some(DeviceAction::SetAutoPosition(x)))
            },
            Focus::AutoTone => {
                let x = ds.auto_tone.cycle_next();
                (Some(Setting::AutoTone(x)), f, Some(DeviceAction::SetAutoTone(x)))
            },
            Focus::AutoGain => {
                let x = ds.auto_gain.cycle_next();
                (Some(Setting::AutoGain(x)), f, Some(DeviceAction::SetAutoGain(x)))
            },
            Focus::Mute => (Some(Setting::Muted(!ds.muted)), f, Some(DeviceAction::SetMute(!ds.muted))),
            Focus::Phantom => (
                Some(Setting::Phantom(!ds.phantom_power)),
                f,
                Some(DeviceAction::SetPhantom(!ds.phantom_power)),
            ),
            Focus::Lock => (
                Some(Setting::Locked(!ds.locked)),
                f,
                Some(DeviceAction::SetLock(!ds.locked)),
            ),
            Focus::EqEnable => (
                Some(Setting::EqEnabled(!ds.eq_enabled)),
                f,
                Some(DeviceAction::SetEqEnable(!ds.eq_enabled)),
            ),
            Focus::EqBandEnable(b) => {
                let x = !ds.eq_bands[b].enabled;
                (Some(Setting::EqBandEnabled(b, x)), f, Some(DeviceAction::SetEqBandEnable(b, x)))
            },
            Focus::Limiter => (
                Some(Setting::Limiter(!ds.limiter_enabled)),
                f,
                Some(DeviceAction::SetLimiter(!ds.limiter_enabled)),
            ),
            Focus::Compressor => {
                let x = ds.compressor.cycle_next();
                (Some(Setting::Compressor(x)), f, Some(DeviceAction::SetCompressor(x)))
            },
            Focus::Hpf => {
                let x = ds.hpf.cycle_next();
                (Some(Setting::Hpf(x)), f, Some(DeviceAction::SetHpf(x)))
            },
            Focus::PresetActions(i) => {
                // Enter on the actions row loads the preset, if the slot is filled.
                let act = if self.presets[i].is_some() {
                    Some(DeviceAction::LoadPreset(i))
                } else {
                    None
                };
                (None, f, act)
            },
            _ => (None, f, None),
        }
    }

    /// Toggle the focused control.
    pub fn toggle_focused(&mut self) -> (action: Option<DeviceAction>)
        requires
            toggle_in_range(old(self).focus),
        ensures
            ({
                let (st, f, act) = toggle_outcome(*old(self));
                &&& *final(self) == (App {
                    device_state: state_after(old(self).device_state, st),
                    focus: f,
                    ..*old(self)
                })
                &&& action == act
            }),
    {
        let (st, f, act) = self.toggle_plan();
        match st {
            Some(x) => apply_setting(&mut self.device_state, x),
            None => {},
        }
        self.focus = f;
        act
    }
}

} // verus!
