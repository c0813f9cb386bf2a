//! Laws of TUI navigation: tab switching never lands on a locked tab and is
//! undone by switching back; focus moves along a cycle per tab, moving up
//! undoes moving down and the reverse, and indices stay in range.
use vstd::prelude::*;
use crate::app::{focus_down, focus_in_range, focus_up, seek_left, seek_right, tab_locked, Focus, Tab};
use crate::keys::{key_effect, key_outcome, Key};
use crate::app::App;
use crate::protocol::InputMode;

verus! {

/// Left and right are inverse on the tab bar, and five steps come back.
pub proof fn lemma_tab_bar_cycle(t: Tab)
    ensures
        t.succ().pred() == t,
        t.pred().succ() == t,
        t.succ().succ().succ().succ().succ() == t,
{
}

/// Switching tabs, in either direction, never lands on a tab that is locked
/// in the current mode.
pub proof fn lemma_switch_avoids_locked(t: Tab, mode: InputMode)
    ensures
        !tab_locked(seek_right(t.succ(), mode, 5), mode),
        !tab_locked(seek_left(t.pred(), mode, 5), mode),
{
    reveal_with_fuel(seek_right, 6);
    reveal_with_fuel(seek_left, 6);
}

proof fn lemma_seek_values(t: Tab, mode: InputMode)
    ensures
        seek_right(t, mode, 5) == (if tab_locked(t, mode) { Tab::Presets } else { t }),
        seek_left(t, mode, 5) == (if tab_locked(t, mode) { Tab::Main } else { t }),
{
    if tab_locked(t, mode) {
        reveal_with_fuel(seek_right, 3);
        reveal_with_fuel(seek_left, 3);
        if t == Tab::Eq {
            assert(seek_right(Tab::Dynamics, mode, 4) == Tab::Presets);
            assert(seek_left(Tab::Main, mode, 4) == Tab::Main);
        } else {
            assert(seek_right(Tab::Presets, mode, 4) == Tab::Presets);
            assert(seek_left(Tab::Eq, mode, 4) == Tab::Main);
        }
    }
}

/// From a tab that is not locked, switching right then left (or left then
/// right) comes back to it.
pub proof fn lemma_switch_back(t: Tab, mode: InputMode)
    requires
        !tab_locked(t, mode),
    ensures
        seek_left(seek_right(t.succ(), mode, 5).pred(), mode, 5) == t,
        seek_right(seek_left(t.pred(), mode, 5).succ(), mode, 5) == t,
{
    lemma_seek_values(t.succ(), mode);
    let r = seek_right(t.succ(), mode, 5);
    lemma_seek_values(r.pred(), mode);
    lemma_seek_values(t.pred(), mode);
    let l = seek_left(t.pred(), mode, 5);
    lemma_seek_values(l.succ(), mode);
}

/// The controls of a tab's focus cycle, in the current mode and with the
/// currently selected EQ band.
pub open spec fn in_focus_cycle(tab: Tab, f: Focus, mode: InputMode, selected: usize) -> bool {
    match tab {
        Tab::Main => match f {
            Focus::Mode | Focus::Mute | Focus::MonitorMix | Focus::Phantom | Focus::Lock => true,
            Focus::Gain => mode == InputMode::Manual,
            Focus::AutoPosition | Focus::AutoTone | Focus::AutoGain => mode == InputMode::Auto,
            _ => false,
        },
        Tab::Eq => match f {
            Focus::EqEnable | Focus::EqBandSelect => true,
            Focus::EqBandEnable(b) => b == selected,
            Focus::EqGain(b) => b == selected,
            _ => false,
        },
        Tab::Dynamics => f is Limiter || f is Compressor || f is Hpf,
        Tab::Presets => match f {
            Focus::PresetName(i) => i < 4,
            Focus::PresetActions(i) => i < 4,
            _ => false,
        },
        Tab::Info => true,
    }
}

/// On a tab's focus cycle, moving down stays on the cycle and moving up
/// undoes it, and moving up stays on the cycle and moving down undoes it.
pub proof fn lemma_focus_round_trip(tab: Tab, f: Focus, mode: InputMode, selected: usize)
    requires
        in_focus_cycle(tab, f, mode, selected),
    ensures
        in_focus_cycle(tab, focus_down(tab, f, mode, selected), mode, selected),
        in_focus_cycle(tab, focus_up(tab, f, mode, selected), mode, selected),
        focus_up(tab, focus_down(tab, f, mode, selected), mode, selected) == f,
        focus_down(tab, focus_up(tab, f, mode, selected), mode, selected) == f,
{
}

/// Moving the focus keeps the indices it carries in range.
pub proof fn lemma_focus_moves_in_range(tab: Tab, f: Focus, mode: InputMode, selected: usize)
    requires
        focus_in_range(f),
        selected < 5,
    ensures
        focus_in_range(focus_down(tab, f, mode, selected)),
        focus_in_range(focus_up(tab, f, mode, selected)),
{
}

/// Handling a key keeps the app well-formed: the focus, the selected EQ
/// band and the renamed slot stay in range.
pub proof fn lemma_key_keeps_wf(old_app: App, new_app: App, code: Key, ctrl: bool, shift: bool, result: Option<crate::app::DeviceAction>)
    requires
        old_app.wf(),
        key_outcome(old_app, new_app, key_effect(old_app, code, ctrl, shift), result),
    ensures
        new_app.wf(),
{
    lemma_focus_moves_in_range(
        old_app.active_tab,
        old_app.focus,
        old_app.device_state.mode,
        old_app.eq_selected_band,
    );
}

} // verus!
