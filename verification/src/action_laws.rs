//! Laws of carrying out device actions.
use vstd::prelude::*;
use crate::actions::{action_setting, after_actions, sync_sequence};
use crate::app::{adjust_outcome, state_after, toggle_outcome, App, DeviceAction};
use crate::keys::{key_effect, key_outcome, Key, KeyEffect};
use crate::protocol::{bands_with_setting, DeviceState, EqBand, Setting};

verus! {

/// Taking one more action from a list is applying its setting to the state
/// the earlier ones left.
proof fn lemma_after_prefix(s: DeviceState, q: Seq<DeviceAction>, k: int)
    requires
        0 <= k < q.len(),
    ensures
        after_actions(s, q.subrange(0, k + 1)) == state_after(
            after_actions(s, q.subrange(0, k)),
            action_setting(q[k]),
        ),
{
    assert(q.subrange(0, k + 1).drop_last() =~= q.subrange(0, k));
}

/// The device state after the first `k` settings of a sync towards `t`,
/// starting from `s`.
pub open spec fn sync_prefix_state(s: DeviceState, t: DeviceState, k: int) -> DeviceState {
    DeviceState {
        mode: if k > 0 { t.mode } else { s.mode },
        gain_db: if k > 1 { t.gain_db } else { s.gain_db },
        auto_position: if k > 2 { t.auto_position } else { s.auto_position },
        auto_tone: if k > 3 { t.auto_tone } else { s.auto_tone },
        auto_gain: if k > 4 { t.auto_gain } else { s.auto_gain },
        muted: if k > 5 { t.muted } else { s.muted },
        phantom_power: if k > 6 { t.phantom_power } else { s.phantom_power },
        monitor_mix: if k > 7 { t.monitor_mix } else { s.monitor_mix },
        limiter_enabled: if k > 8 { t.limiter_enabled } else { s.limiter_enabled },
        compressor: if k > 9 { t.compressor } else { s.compressor },
        hpf: if k > 10 { t.hpf } else { s.hpf },
        eq_enabled: if k > 11 { t.eq_enabled } else { s.eq_enabled },
        eq_bands: bands_synced(s.eq_bands, t.eq_bands, k - 12),
        ..s
    }
}

// Each of the first twelve settings of a sync takes one field from `t`; one
// lemma per field keeps each proof small.
proof fn lemma_sync_step_mode(s: DeviceState, t: DeviceState)
    ensures
        state_after(sync_prefix_state(s, t, 0), action_setting(sync_sequence(t)[0]))
            == sync_prefix_state(s, t, 1),
{
    let q = sync_sequence(t);
    assert(state_after(sync_prefix_state(s, t, 0), action_setting(q[0])) =~= sync_prefix_state(s, t, 1));
}

proof fn lemma_sync_step_gain(s: DeviceState, t: DeviceState)
    ensures
        state_after(sync_prefix_state(s, t, 1), action_setting(sync_sequence(t)[1]))
            == sync_prefix_state(s, t, 2),
{
    let q = sync_sequence(t);
    assert(state_after(sync_prefix_state(s, t, 1), action_setting(q[1])) =~= sync_prefix_state(s, t, 2));
}

proof fn lemma_sync_step_auto_position(s: DeviceState, t: DeviceState)
    ensures
        state_after(sync_prefix_state(s, t, 2), action_setting(sync_sequence(t)[2]))
            == sync_prefix_state(s, t, 3),
{
    let q = sync_sequence(t);
    assert(state_after(sync_prefix_state(s, t, 2), action_setting(q[2])) =~= sync_prefix_state(s, t, 3));
}

proof fn lemma_sync_step_auto_tone(s: DeviceState, t: DeviceState)
    ensures
        state_after(sync_prefix_state(s, t, 3), action_setting(sync_sequence(t)[3]))
            == sync_prefix_state(s, t, 4),
{
    let q = sync_sequence(t);
    assert(state_after(sync_prefix_state(s, t, 3), action_setting(q[3])) =~= sync_prefix_state(s, t, 4));
}

proof fn lemma_sync_step_auto_gain(s: DeviceState, t: DeviceState)
    ensures
        state_after(sync_prefix_state(s, t, 4), action_setting(sync_sequence(t)[4]))
            == sync_prefix_state(s, t, 5),
{
    let q = sync_sequence(t);
    assert(state_after(sync_prefix_state(s, t, 4), action_setting(q[4])) =~= sync_prefix_state(s, t, 5));
}

proof fn lemma_sync_step_mute(s: DeviceState, t: DeviceState)
    ensures
        state_after(sync_prefix_state(s, t, 5), action_setting(sync_sequence(t)[5]))
            == sync_prefix_state(s, t, 6),
{
    let q = sync_sequence(t);
    assert(state_after(sync_prefix_state(s, t, 5), action_setting(q[5])) =~= sync_prefix_state(s, t, 6));
}

proof fn lemma_sync_step_phantom(s: DeviceState, t: DeviceState)
    ensures
        state_after(sync_prefix_state(s, t, 6), action_setting(sync_sequence(t)[6]))
            == sync_prefix_state(s, t, 7),
{
    let q = sync_sequence(t);
    assert(state_after(sync_prefix_state(s, t, 6), action_setting(q[6])) =~= sync_prefix_state(s, t, 7));
}

proof fn lemma_sync_step_monitor_mix(s: DeviceState, t: DeviceState)
    ensures
        state_after(sync_prefix_state(s, t, 7), action_setting(sync_sequence(t)[7]))
            == sync_prefix_state(s, t, 8),
{
    let q = sync_sequence(t);
    assert(state_after(sync_prefix_state(s, t, 7), action_setting(q[7])) =~= sync_prefix_state(s, t, 8));
}

proof fn lemma_sync_step_limiter(s: DeviceState, t: DeviceState)
    ensures
        state_after(sync_prefix_state(s, t, 8), action_setting(sync_sequence(t)[8]))
            == sync_prefix_state(s, t, 9),
{
    let q = sync_sequence(t);
    assert(state_after(sync_prefix_state(s, t, 8), action_setting(q[8])) =~= sync_prefix_state(s, t, 9));
}

proof fn lemma_sync_step_compressor(s: DeviceState, t: DeviceState)
    ensures
        state_after(sync_prefix_state(s, t, 9), action_setting(sync_sequence(t)[9]))
            == sync_prefix_state(s, t, 10),
{
    let q = sync_sequence(t);
    assert(state_after(sync_prefix_state(s, t, 9), action_setting(q[9])) =~= sync_prefix_state(s, t, 10));
}

proof fn lemma_sync_step_hpf(s: DeviceState, t: DeviceState)
    ensures
        state_after(sync_prefix_state(s, t, 10), action_setting(sync_sequence(t)[10]))
            == sync_prefix_state(s, t, 11),
{
    let q = sync_sequence(t);
    assert(state_after(sync_prefix_state(s, t, 10), action_setting(q[10])) =~= sync_prefix_state(s, t, 11));
}

proof fn lemma_sync_step_eq_enable(s: DeviceState, t: DeviceState)
    ensures
        state_after(sync_prefix_state(s, t, 11), action_setting(sync_sequence(t)[11]))
            == sync_prefix_state(s, t, 12),
{
    let q = sync_sequence(t);
    assert(state_after(sync_prefix_state(s, t, 11), action_setting(q[11])) =~= sync_prefix_state(s, t, 12));
}

/// One more band setting of a sync towards `t` takes the next band field
/// from `t`.
proof fn lemma_sync_step_band(s: DeviceState, t: DeviceState, k: int)
    requires
        13 <= k <= 22,
    ensures
        state_after(sync_prefix_state(s, t, k - 1), action_setting(sync_sequence(t)[k - 1]))
            == sync_prefix_state(s, t, k),
{
    let q = sync_sequence(t);
    assert(bands_synced(s.eq_bands, t.eq_bands, k - 12) == bands_with_setting(
        bands_synced(s.eq_bands, t.eq_bands, k - 13),
        band_setting(t.eq_bands, k - 13),
    ));
    assert(action_setting(q[k - 1]) == Some(band_setting(t.eq_bands, k - 13)));
    assert(state_after(sync_prefix_state(s, t, k - 1), action_setting(q[k - 1]))
        =~= sync_prefix_state(s, t, k));
}

/// One more setting of a sync towards `t` takes the next field from `t`.
proof fn lemma_sync_step(s: DeviceState, t: DeviceState, k: int)
    requires
        1 <= k <= 22,
    ensures
        state_after(sync_prefix_state(s, t, k - 1), action_setting(sync_sequence(t)[k - 1]))
            == sync_prefix_state(s, t, k),
{
    if k == 1 {
        lemma_sync_step_mode(s, t);
    } else if k == 2 {
        lemma_sync_step_gain(s, t);
    } else if k == 3 {
        lemma_sync_step_auto_position(s, t);
    } else if k == 4 {
        lemma_sync_step_auto_tone(s, t);
    } else if k == 5 {
        lemma_sync_step_auto_gain(s, t);
    } else if k == 6 {
        lemma_sync_step_mute(s, t);
    } else if k == 7 {
        lemma_sync_step_phantom(s, t);
    } else if k == 8 {
        lemma_sync_step_monitor_mix(s, t);
    } else if k == 9 {
        lemma_sync_step_limiter(s, t);
    } else if k == 10 {
        lemma_sync_step_compressor(s, t);
    } else if k == 11 {
        lemma_sync_step_hpf(s, t);
    } else if k == 12 {
        lemma_sync_step_eq_enable(s, t);
    } else {
        lemma_sync_step_band(s, t, k);
    }
}

proof fn lemma_sync_prefix(s: DeviceState, t: DeviceState, k: int)
    requires
        0 <= k <= 22,
    ensures
        after_actions(s, sync_sequence(t).subrange(0, k)) == sync_prefix_state(s, t, k),
    decreases k,
{
    let q = sync_sequence(t);
    if k == 0 {
        assert(q.subrange(0, 0) =~= Seq::<DeviceAction>::empty());
        assert(sync_prefix_state(s, t, 0) =~= s);
    } else {
        lemma_sync_prefix(s, t, k - 1);
        lemma_after_prefix(s, q, k - 1);
        lemma_sync_step(s, t, k);
    }
}

/// Sending the settings of a loaded preset state `t` to a device in any
/// state `s` leaves the device with every setting of `t` that is sent: all
/// but the lock state, the serial number, the firmware version and the
/// settings of other models, which keep their values of `s`.
pub proof fn lemma_sync_reaches_state(s: DeviceState, t: DeviceState)
    ensures
        after_actions(s, sync_sequence(t)) == (DeviceState {
            gain_db: t.gain_db,
            mode: t.mode,
            auto_position: t.auto_position,
            auto_tone: t.auto_tone,
            auto_gain: t.auto_gain,
            muted: t.muted,
            phantom_power: t.phantom_power,
            monitor_mix: t.monitor_mix,
            limiter_enabled: t.limiter_enabled,
            compressor: t.compressor,
            hpf: t.hpf,
            eq_enabled: t.eq_enabled,
            eq_bands: t.eq_bands,
            ..s
        }),
{
    let q = sync_sequence(t);
    lemma_sync_prefix(s, t, 22);
    assert(q.subrange(0, 22) =~= q);
    lemma_bands_synced_all(s.eq_bands, t.eq_bands);
}

/// All ten band settings of a sync make the bands those of `t`.
proof fn lemma_bands_synced_all(s: [EqBand; 5], t: [EqBand; 5])
    ensures
        bands_synced(s, t, 10) == t,
{
    reveal_with_fuel(bands_synced, 11);
    assert(bands_synced(s, t, 10) =~= t);
}

/// The `j`-th band setting of a sync towards bands `t`: band `j / 2`'s
/// switch for even `j`, its gain for odd `j`.
pub open spec fn band_setting(t: [EqBand; 5], j: int) -> Setting {
    let b = j / 2;
    if j % 2 == 0 {
        Setting::EqBandEnabled(b as usize, t[b].enabled)
    } else {
        Setting::EqBandGain(b as usize, t[b].gain_db)
    }
}

/// The EQ bands after the first `n` band settings of a sync towards `t`
/// were applied on top of `s`.
pub open spec fn bands_synced(s: [EqBand; 5], t: [EqBand; 5], n: int) -> [EqBand; 5]
    decreases n,
{
    if n <= 0 {
        s
    } else {
        bands_with_setting(bands_synced(s, t, n - 1), band_setting(t, n - 1))
    }
}

/// The setting a key press sends to the device, if any.
pub open spec fn sent_setting(result: Option<DeviceAction>) -> Option<Setting> {
    match result {
        Some(a) => action_setting(a),
        None => None,
    }
}

/// Every change a key press makes to the device state the app shows is sent
/// to the device, and nothing else is: after any key press, the app's device
/// state is the old one with exactly the setting of the returned action (if
/// it carries one) applied.
pub proof fn lemma_key_sends_its_change(
    old_app: App,
    new_app: App,
    code: Key,
    ctrl: bool,
    shift: bool,
    result: Option<DeviceAction>,
)
    requires
        key_outcome(old_app, new_app, key_effect(old_app, code, ctrl, shift), result),
    ensures
        new_app.device_state == state_after(old_app.device_state, sent_setting(result)),
{
    match key_effect(old_app, code, ctrl, shift) {
        KeyEffect::Adjust(d) => lemma_adjust_sends_its_change(old_app, d),
        KeyEffect::Toggle => lemma_toggle_sends_its_change(old_app),
        _ => {},
    }
}

/// An adjustment's action carries exactly its change.
proof fn lemma_adjust_sends_its_change(app: App, d: i32)
    ensures
        adjust_outcome(app, d).0 == sent_setting(adjust_outcome(app, d).2),
{
}

/// A toggle's action carries exactly its change.
proof fn lemma_toggle_sends_its_change(app: App)
    ensures
        toggle_outcome(app).0 == sent_setting(toggle_outcome(app).2),
{
}

} // verus!
