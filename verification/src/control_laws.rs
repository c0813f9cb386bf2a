//! Laws of the controls: what reading a device, adjusting and toggling a
//! control, sending a setting and summarising a preset do, stated in terms of
//! the values themselves.
use vstd::prelude::*;
use crate::actions::{action_setting, device_setting};
use crate::app::{adjust_outcome, state_after, toggle_outcome, App, DeviceAction, Focus};
use crate::action_laws::{lemma_key_sends_its_change, sent_setting};
use crate::device_plan::{state_plan, StateQuery};
use crate::keys::{key_effect, key_outcome, Key};
use crate::presets::{input_mode_of, summary_text, PresetSlot};
use crate::protocol::{
    with_setting, AutoGain, AutoTone, CompressorPreset, DeviceModel, DeviceState, HpfFrequency,
    InputMode, MicPosition, Setting,
};

verus! {

// ── Reading a device ─────────────────────────────────────────────────────────
/// A feature of the MVX2U state: every query, with the EQ band ones limited
/// to bands 0–4.
pub open spec fn is_mvx2u_feature(q: StateQuery) -> bool {
    match q {
        StateQuery::EqBandEnable(b) => b < 5,
        StateQuery::EqBandGain(b) => b < 5,
        _ => true,
    }
}

/// Where a feature stands in the MVX2U read.
spec fn mvx2u_position(q: StateQuery) -> int {
    match q {
        StateQuery::Lock => 0,
        StateQuery::Gain => 1,
        StateQuery::Mute => 2,
        StateQuery::Phantom => 3,
        StateQuery::Mode => 4,
        StateQuery::AutoPosition => 5,
        StateQuery::AutoTone => 6,
        StateQuery::AutoGain => 7,
        StateQuery::MonitorMix => 8,
        StateQuery::Hpf => 9,
        StateQuery::Limiter => 10,
        StateQuery::Compressor => 11,
        StateQuery::EqEnable => 12,
        StateQuery::EqBandEnable(b) => 13 + 2 * b,
        StateQuery::EqBandGain(b) => 14 + 2 * b,
    }
}

proof fn lemma_mvx2u_positions(model: DeviceModel)
    requires
        model != DeviceModel::Mv6,
    ensures
        forall|i: int| 0 <= i < 23 ==> #[trigger] mvx2u_position(state_plan(model)[i]) == i,
        forall|i: int| 0 <= i < 23 ==> is_mvx2u_feature(#[trigger] state_plan(model)[i]),
{
}

/// Reading an MVX2U (and any model read as one: all but the MV6) asks for
/// every feature of its state exactly once: the lock, gain, mute, phantom
/// power, mode, the three Auto Level presets, the monitor mix, high-pass
/// filter, limiter, compressor, EQ switch, and each of the five EQ bands'
/// switch and gain — and for nothing else.
pub proof fn lemma_mvx2u_read_is_complete(model: DeviceModel)
    requires
        model != DeviceModel::Mv6,
    ensures
        state_plan(model).len() == 23,
        forall|q: StateQuery| is_mvx2u_feature(q) ==> state_plan(model).contains(q),
        forall|i: int| 0 <= i < 23 ==> is_mvx2u_feature(#[trigger] state_plan(model)[i]),
        forall|i: int, j: int| 0 <= i < j < 23 ==> state_plan(model)[i] != state_plan(model)[j],
{
    let p = state_plan(model);
    lemma_mvx2u_positions(model);
    assert forall|q: StateQuery| is_mvx2u_feature(q) implies p.contains(q) by {
        let k = mvx2u_position(q);
        assert(0 <= k < 23);
        assert(mvx2u_position(p[k]) == k);
        assert(p[k] == q);
    }
    assert forall|i: int, j: int| 0 <= i < j < 23 implies p[i] != p[j] by {
        assert(mvx2u_position(p[i]) == i);
        assert(mvx2u_position(p[j]) == j);
    }
}

/// Reading an MV6 asks for the four settings it shares with the MVX2U —
/// gain, mute, high-pass filter and mode — each once.
pub proof fn lemma_mv6_read(q: StateQuery)
    ensures
        state_plan(DeviceModel::Mv6).len() == 4,
        state_plan(DeviceModel::Mv6).contains(q) <==> (q is Gain || q is Mute || q is Hpf || q is Mode),
        forall|i: int, j: int|
            0 <= i < j < 4 ==> state_plan(DeviceModel::Mv6)[i] != state_plan(DeviceModel::Mv6)[j],
{
    let p = state_plan(DeviceModel::Mv6);
    if q is Gain {
        assert(p[0] == q);
    } else if q is Mute {
        assert(p[1] == q);
    } else if q is Hpf {
        assert(p[2] == q);
    } else if q is Mode {
        assert(p[3] == q);
    }
}

// ── Sending a setting ────────────────────────────────────────────────────────
/// The setting sent to the device for an action is the action's own: the
/// same value for every setting action, except that a gain above the model's
/// limit is sent as the limit and an EQ band outside 0–4 is not sent.
pub proof fn lemma_device_setting_is_the_action(a: DeviceAction, model: DeviceModel)
    ensures
        match a {
            DeviceAction::SetGain(g) => device_setting(a, model) == Some(
                Setting::Gain(if g <= model.gain_limit() { g } else { model.gain_limit() }),
            ),
            DeviceAction::SetEqBandEnable(b, _) => b >= 5 ==> device_setting(a, model) is None,
            DeviceAction::SetEqBandGain(b, _) => b >= 5 ==> device_setting(a, model) is None,
            _ => true,
        },
        match a {
            DeviceAction::SetGain(_) => true,
            DeviceAction::SetEqBandEnable(b, _) => b < 5 ==> device_setting(a, model) == action_setting(a),
            DeviceAction::SetEqBandGain(b, _) => b < 5 ==> device_setting(a, model) == action_setting(a),
            _ => device_setting(a, model) == action_setting(a),
        },
        a matches DeviceAction::SetMute(m) ==> device_setting(a, model) == Some(Setting::Muted(m)),
        a matches DeviceAction::SetPhantom(p) ==> device_setting(a, model) == Some(Setting::Phantom(p)),
        a matches DeviceAction::SetLock(l) ==> device_setting(a, model) == Some(Setting::Locked(l)),
        a matches DeviceAction::SetLimiter(e) ==> device_setting(a, model) == Some(Setting::Limiter(e)),
        a matches DeviceAction::SetEqEnable(e) ==> device_setting(a, model) == Some(Setting::EqEnabled(e)),
        a matches DeviceAction::SetMode(m) ==> device_setting(a, model) == Some(Setting::Mode(m)),
        a matches DeviceAction::SetHpf(h) ==> device_setting(a, model) == Some(Setting::Hpf(h)),
        a matches DeviceAction::SetMonitorMix(m) ==> device_setting(a, model) == Some(Setting::MonitorMix(m)),
        a matches DeviceAction::SetAutoPosition(p) ==> device_setting(a, model) == Some(Setting::AutoPosition(p)),
        a matches DeviceAction::SetAutoTone(t) ==> device_setting(a, model) == Some(Setting::AutoTone(t)),
        a matches DeviceAction::SetAutoGain(g) ==> device_setting(a, model) == Some(Setting::AutoGain(g)),
        a matches DeviceAction::SetCompressor(c) ==> device_setting(a, model) == Some(Setting::Compressor(c)),
        a matches DeviceAction::SetEqBandEnable(b, e) ==> (b < 5 ==> device_setting(a, model) == Some(
            Setting::EqBandEnabled(b, e),
        )),
        a matches DeviceAction::SetEqBandGain(b, g) ==> (b < 5 ==> device_setting(a, model) == Some(
            Setting::EqBandGain(b, g),
        )),
        (a is SavePreset || a is LoadPreset || a is DeletePreset || a is PersistPresetName || a is Refresh)
            ==> device_setting(a, model) is None,
{
}

/// What a key press sends to the device is what it changed in the app: when
/// the press returns an action that is sent (other than a gain change, which
/// the device may limit further), the app's new device state is the old one
/// with exactly the sent setting applied.
pub proof fn lemma_sent_setting_matches_app(
    old_app: App,
    new_app: App,
    code: Key,
    ctrl: bool,
    shift: bool,
    a: DeviceAction,
    model: DeviceModel,
)
    requires
        key_outcome(old_app, new_app, key_effect(old_app, code, ctrl, shift), Some(a)),
        !(a is SetGain),
        device_setting(a, model) is Some,
    ensures
        new_app.device_state == with_setting(old_app.device_state, device_setting(a, model)->0),
{
    lemma_key_sends_its_change(old_app, new_app, code, ctrl, shift, Some(a));
    lemma_device_setting_is_the_action(a, model);
    assert(sent_setting(Some(a)) == action_setting(a));
}

// ── Adjusting a control ──────────────────────────────────────────────────────
/// `v` brought into `lo..=hi`.
pub open spec fn within(v: int, lo: int, hi: int) -> int {
    if v < lo {
        lo
    } else if v > hi {
        hi
    } else {
        v
    }
}

/// What Left (`d <= 0`) and Right (`d > 0`) do to the focused value, told
/// by the values before and after.
pub open spec fn adjust_steps(app: App, d: i32) -> bool {
    let (st, sel, act) = adjust_outcome(app, d);
    let old = app.device_state;
    let new = state_after(old, st);
    match app.focus {
        Focus::Gain => {
            &&& d > 0 ==> new.gain_db == (if old.gain_db < 60 { old.gain_db + 1 } else { 60 })
            &&& d <= 0 ==> new.gain_db == (if old.gain_db > 0 { old.gain_db - 1 } else { 0 })
            &&& act == Some(DeviceAction::SetGain(new.gain_db))
            &&& new == (DeviceState { gain_db: new.gain_db, ..old })
            &&& sel == app.eq_selected_band
        },
        Focus::MonitorMix => {
            &&& d > 0 ==> new.monitor_mix == (if old.monitor_mix + 5 < 100 {
                old.monitor_mix + 5
            } else {
                100
            })
            &&& d <= 0 ==> new.monitor_mix == (if old.monitor_mix > 5 {
                old.monitor_mix - 5
            } else {
                0
            })
            &&& act == Some(DeviceAction::SetMonitorMix(new.monitor_mix))
            &&& new == (DeviceState { monitor_mix: new.monitor_mix, ..old })
            &&& sel == app.eq_selected_band
        },
        Focus::EqGain(b) => b < 5 ==> {
            &&& new.eq_bands[b as int].gain_db == within(
                old.eq_bands[b as int].gain_db + 2 * d,
                -8,
                6,
            )
            &&& new.eq_bands[b as int].enabled == old.eq_bands[b as int].enabled
            &&& forall|k: int| 0 <= k < 5 && k != b ==> new.eq_bands[k] == old.eq_bands[k]
            &&& act == Some(DeviceAction::SetEqBandGain(b, new.eq_bands[b as int].gain_db))
            &&& sel == app.eq_selected_band
        },
        Focus::EqBandSelect => {
            &&& new == old
            &&& act is None
            &&& sel == (if d > 0 {
                (app.eq_selected_band + 1) % 5
            } else {
                (app.eq_selected_band + 4) % 5
            })
        },
        _ => new == old && act is None && sel == app.eq_selected_band,
    }
}

proof fn lemma_adjust_gain(app: App, d: i32)
    requires
        app.focus == Focus::Gain,
    ensures
        adjust_steps(app, d),
{
    let (st, sel, act) = adjust_outcome(app, d);
    let old = app.device_state;
    let new = state_after(old, st);
    let g = old.gain_db;
    if d > 0 {
        if g + 1 <= 60 {
            assert(((g + 1) as u8) == g + 1);
        }
    } else {
        if g >= 1 {
            assert(((g - 1) as u8) == g - 1);
        }
    }
    assert(new == (DeviceState { gain_db: new.gain_db, ..old }));
}

proof fn lemma_adjust_monitor_mix(app: App, d: i32)
    requires
        app.focus == Focus::MonitorMix,
    ensures
        adjust_steps(app, d),
{
    let (st, sel, act) = adjust_outcome(app, d);
    let old = app.device_state;
    let new = state_after(old, st);
    let m = old.monitor_mix;
    if d > 0 {
        if m + 5 <= 100 {
            assert(((m + 5) as u8) == m + 5);
        }
    } else {
        if m >= 5 {
            assert(((m - 5) as u8) == m - 5);
        }
    }
    assert(new == (DeviceState { monitor_mix: new.monitor_mix, ..old }));
}

proof fn lemma_adjust_eq_gain(app: App, d: i32, b: usize)
    requires
        app.focus == Focus::EqGain(b),
        b < 5,
    ensures
        adjust_steps(app, d),
{
    let (st, sel, act) = adjust_outcome(app, d);
    let old = app.device_state;
    let new = state_after(old, st);
    let w = within(old.eq_bands[b as int].gain_db + 2 * d, -8, 6);
    assert((w as i8) == w);
    assert(new.eq_bands[b as int].gain_db == w);
}

/// Left and Right step the focused value: the gain by 1 dB within 0–60 (a
/// gain above 60 comes down to 60 on Right), the monitor mix by 5 within
/// 0–100, an EQ band gain by 2 dB per step within −8..=+6, the band selector
/// round the five bands; nothing else changes, and the action sends the new
/// value.
pub proof fn lemma_adjust_steps(app: App, d: i32)
    ensures
        adjust_steps(app, d),
{
    match app.focus {
        Focus::Gain => lemma_adjust_gain(app, d),
        Focus::MonitorMix => lemma_adjust_monitor_mix(app, d),
        Focus::EqGain(b) => {
            if b < 5 {
                lemma_adjust_eq_gain(app, d, b);
            }
        },
        _ => {},
    }
}

// ── Toggling a control ───────────────────────────────────────────────────────
/// What Enter and Space do to the focused control, told by the values before
/// and after.
pub open spec fn toggle_moves_on(app: App) -> bool {
    let (st, f, act) = toggle_outcome(app);
    let old = app.device_state;
    let new = state_after(old, st);
    match app.focus {
        Focus::Hpf => {
            &&& new.hpf != old.hpf
            &&& old.hpf == HpfFrequency::Off ==> new.hpf == HpfFrequency::Hz75
            &&& old.hpf == HpfFrequency::Hz75 ==> new.hpf == HpfFrequency::Hz150
            &&& old.hpf == HpfFrequency::Hz150 ==> new.hpf == HpfFrequency::Off
            &&& act == Some(DeviceAction::SetHpf(new.hpf))
            &&& new == (DeviceState { hpf: new.hpf, ..old })
        },
        Focus::Compressor => {
            &&& new.compressor != old.compressor
            &&& old.compressor == CompressorPreset::Off ==> new.compressor == CompressorPreset::Light
            &&& old.compressor == CompressorPreset::Light ==> new.compressor == CompressorPreset::Medium
            &&& old.compressor == CompressorPreset::Medium ==> new.compressor == CompressorPreset::Heavy
            &&& old.compressor == CompressorPreset::Heavy ==> new.compressor == CompressorPreset::Off
            &&& act == Some(DeviceAction::SetCompressor(new.compressor))
            &&& new == (DeviceState { compressor: new.compressor, ..old })
        },
        Focus::AutoTone => {
            &&& new.auto_tone != old.auto_tone
            &&& old.auto_tone == AutoTone::Dark ==> new.auto_tone == AutoTone::Natural
            &&& old.auto_tone == AutoTone::Natural ==> new.auto_tone == AutoTone::Bright
            &&& old.auto_tone == AutoTone::Bright ==> new.auto_tone == AutoTone::Dark
            &&& act == Some(DeviceAction::SetAutoTone(new.auto_tone))
            &&& new == (DeviceState { auto_tone: new.auto_tone, ..old })
        },
        Focus::AutoGain => {
            &&& new.auto_gain != old.auto_gain
            &&& old.auto_gain == AutoGain::Quiet ==> new.auto_gain == AutoGain::Normal
            &&& old.auto_gain == AutoGain::Normal ==> new.auto_gain == AutoGain::Loud
            &&& old.auto_gain == AutoGain::Loud ==> new.auto_gain == AutoGain::Quiet
            &&& act == Some(DeviceAction::SetAutoGain(new.auto_gain))
            &&& new == (DeviceState { auto_gain: new.auto_gain, ..old })
        },
        Focus::AutoPosition => {
            &&& new.auto_position != old.auto_position
            &&& act == Some(DeviceAction::SetAutoPosition(new.auto_position))
            &&& new == (DeviceState { auto_position: new.auto_position, ..old })
        },
        Focus::Mode => {
            &&& new.mode != old.mode
            &&& act == Some(DeviceAction::SetMode(new.mode))
            &&& new == (DeviceState { mode: new.mode, ..old })
            &&& f == (if new.mode == InputMode::Auto { Focus::AutoPosition } else { Focus::Gain })
        },
        Focus::Mute => {
            &&& new.muted == !old.muted
            &&& act == Some(DeviceAction::SetMute(new.muted))
            &&& new == (DeviceState { muted: new.muted, ..old })
        },
        Focus::Phantom => {
            &&& new.phantom_power == !old.phantom_power
            &&& act == Some(DeviceAction::SetPhantom(new.phantom_power))
            &&& new == (DeviceState { phantom_power: new.phantom_power, ..old })
        },
        Focus::Lock => {
            &&& new.locked == !old.locked
            &&& act == Some(DeviceAction::SetLock(new.locked))
            &&& new == (DeviceState { locked: new.locked, ..old })
        },
        Focus::Limiter => {
            &&& new.limiter_enabled == !old.limiter_enabled
            &&& act == Some(DeviceAction::SetLimiter(new.limiter_enabled))
            &&& new == (DeviceState { limiter_enabled: new.limiter_enabled, ..old })
        },
        Focus::EqEnable => {
            &&& new.eq_enabled == !old.eq_enabled
            &&& act == Some(DeviceAction::SetEqEnable(new.eq_enabled))
            &&& new == (DeviceState { eq_enabled: new.eq_enabled, ..old })
        },
        Focus::EqBandEnable(b) => {
            &&& b < 5 ==> new.eq_bands[b as int].enabled == !old.eq_bands[b as int].enabled
            &&& b < 5 ==> new.eq_bands[b as int].gain_db == old.eq_bands[b as int].gain_db
            &&& act == Some(DeviceAction::SetEqBandEnable(b, !old.eq_bands[b as int].enabled))
        },
        Focus::PresetActions(i) => {
            &&& new == old
            &&& act == (if app.presets[i as int] is Some {
                Some(DeviceAction::LoadPreset(i))
            } else {
                None
            })
        },
        _ => new == old && act is None,
    }
}

proof fn lemma_toggle_hpf(app: App)
    requires
        app.focus == Focus::Hpf,
    ensures
        toggle_moves_on(app),
{
    let (st, f, act) = toggle_outcome(app);
    let old = app.device_state;
    let new = state_after(old, st);
    assert(new == (DeviceState { hpf: new.hpf, ..old }));
}

proof fn lemma_toggle_compressor(app: App)
    requires
        app.focus == Focus::Compressor,
    ensures
        toggle_moves_on(app),
{
    let (st, f, act) = toggle_outcome(app);
    let old = app.device_state;
    let new = state_after(old, st);
    assert(new == (DeviceState { compressor: new.compressor, ..old }));
}

proof fn lemma_toggle_auto_tone(app: App)
    requires
        app.focus == Focus::AutoTone,
    ensures
        toggle_moves_on(app),
{
    let (st, f, act) = toggle_outcome(app);
    let old = app.device_state;
    let new = state_after(old, st);
    assert(new == (DeviceState { auto_tone: new.auto_tone, ..old }));
}

proof fn lemma_toggle_auto_gain(app: App)
    requires
        app.focus == Focus::AutoGain,
    ensures
        toggle_moves_on(app),
{
    let (st, f, act) = toggle_outcome(app);
    let old = app.device_state;
    let new = state_after(old, st);
    assert(new == (DeviceState { auto_gain: new.auto_gain, ..old }));
}

proof fn lemma_toggle_auto_position(app: App)
    requires
        app.focus == Focus::AutoPosition,
    ensures
        toggle_moves_on(app),
{
    let (st, f, act) = toggle_outcome(app);
    let old = app.device_state;
    let new = state_after(old, st);
    assert(new == (DeviceState { auto_position: new.auto_position, ..old }));
}

proof fn lemma_toggle_mode(app: App)
    requires
        app.focus == Focus::Mode,
    ensures
        toggle_moves_on(app),
{
    let (st, f, act) = toggle_outcome(app);
    let old = app.device_state;
    let new = state_after(old, st);
    assert(new == (DeviceState { mode: new.mode, ..old }));
}

proof fn lemma_toggle_muted(app: App)
    requires
        app.focus == Focus::Mute,
    ensures
        toggle_moves_on(app),
{
    let (st, f, act) = toggle_outcome(app);
    let old = app.device_state;
    let new = state_after(old, st);
    assert(new == (DeviceState { muted: new.muted, ..old }));
}

proof fn lemma_toggle_phantom_power(app: App)
    requires
        app.focus == Focus::Phantom,
    ensures
        toggle_moves_on(app),
{
    let (st, f, act) = toggle_outcome(app);
    let old = app.device_state;
    let new = state_after(old, st);
    assert(new == (DeviceState { phantom_power: new.phantom_power, ..old }));
}

proof fn lemma_toggle_locked(app: App)
    requires
        app.focus == Focus::Lock,
    ensures
        toggle_moves_on(app),
{
    let (st, f, act) = toggle_outcome(app);
    let old = app.device_state;
    let new = state_after(old, st);
    assert(new == (DeviceState { locked: new.locked, ..old }));
}

proof fn lemma_toggle_limiter_enabled(app: App)
    requires
        app.focus == Focus::Limiter,
    ensures
        toggle_moves_on(app),
{
    let (st, f, act) = toggle_outcome(app);
    let old = app.device_state;
    let new = state_after(old, st);
    assert(new == (DeviceState { limiter_enabled: new.limiter_enabled, ..old }));
}

proof fn lemma_toggle_eq_enabled(app: App)
    requires
        app.focus == Focus::EqEnable,
    ensures
        toggle_moves_on(app),
{
    let (st, f, act) = toggle_outcome(app);
    let old = app.device_state;
    let new = state_after(old, st);
    assert(new == (DeviceState { eq_enabled: new.eq_enabled, ..old }));
}

/// Enter and Space flip a switch and move a multi-valued control to the next
/// value of its cycle (high-pass filter Off → 75 Hz → 150 Hz → Off,
/// compressor Off → Light → Medium → Heavy → Off, tone Dark → Natural →
/// Bright → Dark, auto gain Quiet → Normal → Loud → Quiet, position Near ↔
/// Far), in every case to a value other than the old one; the action sends
/// the new value.
pub proof fn lemma_toggle_moves_on(app: App)
    ensures
        toggle_moves_on(app),
{
    match app.focus {
        Focus::Hpf => lemma_toggle_hpf(app),
        Focus::Compressor => lemma_toggle_compressor(app),
        Focus::AutoTone => lemma_toggle_auto_tone(app),
        Focus::AutoGain => lemma_toggle_auto_gain(app),
        Focus::AutoPosition => lemma_toggle_auto_position(app),
        Focus::Mode => lemma_toggle_mode(app),
        Focus::Mute => lemma_toggle_muted(app),
        Focus::Phantom => lemma_toggle_phantom_power(app),
        Focus::Lock => lemma_toggle_locked(app),
        Focus::Limiter => lemma_toggle_limiter_enabled(app),
        Focus::EqEnable => lemma_toggle_eq_enabled(app),
        _ => {},
    }
}

// ── Summarising a preset ─────────────────────────────────────────────────────
/// `s` holds `piece` as a run of consecutive characters.
pub open spec fn holds_text(s: Seq<char>, piece: Seq<char>) -> bool {
    exists|i: int| 0 <= i && i + piece.len() <= s.len() && #[trigger] s.subrange(i, i + piece.len()) == piece
}

/// `t` has no character `c`.
pub open spec fn free_of(t: Seq<char>, c: char) -> bool {
    forall|k: int| 0 <= k < t.len() ==> t[k] != c
}

proof fn lemma_free_of_join(a: Seq<char>, b: Seq<char>, c: char)
    requires
        free_of(a, c),
        free_of(b, c),
    ensures
        free_of(a + b, c),
{
    assert forall|k: int| 0 <= k < (a + b).len() implies (a + b)[k] != c by {
        if k < a.len() {
            assert((a + b)[k] == a[k]);
        } else {
            assert((a + b)[k] == b[k - a.len()]);
        }
    }
}

proof fn lemma_digits_free_of_q(n: nat)
    ensures
        free_of(crate::text::decimal_text(n), 'Q'),
    decreases n,
{
    reveal_strlit("0");
    reveal_strlit("1");
    reveal_strlit("2");
    reveal_strlit("3");
    reveal_strlit("4");
    reveal_strlit("5");
    reveal_strlit("6");
    reveal_strlit("7");
    reveal_strlit("8");
    reveal_strlit("9");
    if n >= 10 {
        lemma_digits_free_of_q(n / 10);
        lemma_free_of_join(crate::text::decimal_text(n / 10), crate::text::digit_text(n % 10), 'Q');
    }
}

/// The parts of a Manual MVX2U summary before and after the EQ item have no
/// `Q` in them.
proof fn lemma_manual_summary_parts(slot: PresetSlot)
    ensures
        free_of(
            "Manual"@ + crate::presets::sep() + crate::text::decimal_text(slot.gain_db as nat) + "dB"@
                + crate::presets::sep(),
            'Q',
        ),
        free_of(
            crate::presets::sep() + "Comp: "@ + crate::presets::compressor_of(slot.compressor).label_text()
                + crate::presets::sep() + crate::presets::phantom_summary(slot.phantom_power)
                + crate::presets::sep() + crate::presets::hpf_summary(slot.hpf),
            'Q',
        ),
{
    reveal_strlit("Manual");
    reveal_strlit(" · ");
    reveal_strlit("dB");
    reveal_strlit("Comp: ");
    reveal_strlit("Off");
    reveal_strlit("Light");
    reveal_strlit("Medium");
    reveal_strlit("Heavy");
    reveal_strlit("48V on");
    reveal_strlit("48V off");
    reveal_strlit("HPF off");
    reveal_strlit("HPF ");
    reveal_strlit("75 Hz");
    reveal_strlit("150 Hz");
    let sep = crate::presets::sep();
    let dec = crate::text::decimal_text(slot.gain_db as nat);
    lemma_digits_free_of_q(slot.gain_db as nat);
    assert(free_of("Manual"@, 'Q'));
    assert(free_of(sep, 'Q'));
    assert(free_of("dB"@, 'Q'));
    lemma_free_of_join("Manual"@, sep, 'Q');
    lemma_free_of_join("Manual"@ + sep, dec, 'Q');
    lemma_free_of_join("Manual"@ + sep + dec, "dB"@, 'Q');
    lemma_free_of_join("Manual"@ + sep + dec + "dB"@, sep, 'Q');
    let comp = crate::presets::compressor_of(slot.compressor).label_text();
    let ph = crate::presets::phantom_summary(slot.phantom_power);
    let hpf = crate::presets::hpf_summary(slot.hpf);
    assert(free_of("Comp: "@, 'Q'));
    assert(free_of(comp, 'Q'));
    assert(free_of(ph, 'Q'));
    lemma_free_of_join("HPF "@, crate::presets::hpf_of(slot.hpf).label_text(), 'Q');
    assert(free_of(hpf, 'Q'));
    lemma_free_of_join(sep, "Comp: "@, 'Q');
    lemma_free_of_join(sep + "Comp: "@, comp, 'Q');
    lemma_free_of_join(sep + "Comp: "@ + comp, sep, 'Q');
    lemma_free_of_join(sep + "Comp: "@ + comp + sep, ph, 'Q');
    lemma_free_of_join(sep + "Comp: "@ + comp + sep + ph, sep, 'Q');
    lemma_free_of_join(sep + "Comp: "@ + comp + sep + ph + sep, hpf, 'Q');
}

/// The MVX2U summary of a Manual-mode preset reports the preset's own EQ
/// switch: it reads "EQ on" exactly when the slot's EQ is on, and "EQ off"
/// when it is off.
pub proof fn lemma_manual_summary_reports_eq(slot: PresetSlot)
    requires
        input_mode_of(slot.mode) == InputMode::Manual,
    ensures
        holds_text(summary_text(slot, DeviceModel::Mvx2u), "EQ on"@) <==> slot.eq_enabled,
        !slot.eq_enabled ==> holds_text(summary_text(slot, DeviceModel::Mvx2u), "EQ off"@),
{
    let s = summary_text(slot, DeviceModel::Mvx2u);
    let prefix = "Manual"@ + crate::presets::sep() + crate::text::decimal_text(slot.gain_db as nat) + "dB"@
        + crate::presets::sep();
    let piece = if slot.eq_enabled { "EQ on"@ } else { "EQ off"@ };
    let rest = crate::presets::sep() + "Comp: "@ + crate::presets::compressor_of(slot.compressor).label_text()
        + crate::presets::sep() + crate::presets::phantom_summary(slot.phantom_power)
        + crate::presets::sep() + crate::presets::hpf_summary(slot.hpf);
    assert(s =~= prefix + piece + rest);
    assert(s.subrange(prefix.len() as int, (prefix.len() + piece.len()) as int) =~= piece);
    if !slot.eq_enabled {
        reveal_strlit("EQ on");
        reveal_strlit("EQ off");
        lemma_manual_summary_parts(slot);
        if holds_text(s, "EQ on"@) {
            let i = choose|i: int|
                0 <= i && i + "EQ on"@.len() <= s.len() && #[trigger] s.subrange(i, i + "EQ on"@.len())
                    == "EQ on"@;
            assert(s.subrange(i, i + 5)[1] == 'Q');
            assert(s[i + 1] == 'Q');
            let pl = prefix.len() as int;
            if i + 1 < pl {
                assert(s[i + 1] == prefix[i + 1]);
            } else if i + 1 >= pl + 6 {
                assert(s[i + 1] == rest[i + 1 - pl - 6]);
            } else {
                assert(s[i + 1] == piece[i + 1 - pl]);
                assert(i == pl);
                assert(s[i + 4] == piece[4]);
                assert(s.subrange(i, i + 5)[4] == 'n');
            }
        }
    }
}

} // verus!
