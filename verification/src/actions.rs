//! Carrying out a device action in the app: the status line it shows, the
//! preset slot it saves, loads or deletes, and the settings it sends. The
//! device and file I/O around these steps is the caller's; each function here
//! is the decision taken before or after one such step.
use vstd::prelude::*;
use crate::app::{state_after, App, DeviceAction};
use crate::presets::{holds_settings_of, restored_from, PresetSlot, PRESET_COUNT};
use crate::protocol::{
    cmd_confirm, cmd_set_auto_gain, cmd_set_auto_position, cmd_set_auto_tone, cmd_set_compressor,
    cmd_set_eq_band_enable, cmd_set_eq_band_gain, cmd_set_eq_enable, cmd_set_gain, cmd_set_hpf,
    cmd_set_limiter, cmd_set_lock, cmd_set_mix, cmd_set_mode, cmd_set_mute, cmd_set_phantom,
    packet, setting_packet, DeviceModel, DeviceState, InputMode, Setting, CMD_CONFIRM,
    EQ_BAND_COUNT,
};
use crate::text::{append_decimal, decimal_text};

verus! {

// ── Status lines ─────────────────────────────────────────────────────────────
/// "ON" or "Off".
pub open spec fn on_off_text(b: bool) -> Seq<char> {
    if b {
        "ON"@
    } else {
        "Off"@
    }
}

/// `v` in decimal with its sign always written: "+2", "-4", "+0".
pub open spec fn signed_text(v: int) -> Seq<char> {
    if v < 0 {
        "-"@ + decimal_text((-v) as nat)
    } else {
        "+"@ + decimal_text(v as nat)
    }
}

/// The status line shown when a setting is sent to the device; `None` for
/// the actions that are not a single setting.
pub open spec fn action_message(a: DeviceAction) -> Option<Seq<char>> {
    match a {
        DeviceAction::SetGain(g) => Some("Gain → "@ + decimal_text(g as nat) + " dB"@),
        DeviceAction::SetMode(m) => Some("Mode → "@ + m.label_text()),
        DeviceAction::SetAutoPosition(p) => Some("Mic Position → "@ + p.label_text()),
        DeviceAction::SetAutoTone(t) => Some("Tone → "@ + t.label_text()),
        DeviceAction::SetAutoGain(g) => Some("Auto Gain → "@ + g.label_text()),
        DeviceAction::SetMute(m) => Some("Mute → "@ + on_off_text(m)),
        DeviceAction::SetPhantom(p) => Some(
            "Phantom → "@ + (if p {
                "48V ON"@
            } else {
                "Off"@
            }),
        ),
        DeviceAction::SetLock(l) => Some(
            if l {
                "Device locked — SET commands will be ignored until unlocked."@
            } else {
                "Device unlocked."@
            },
        ),
        DeviceAction::SetMonitorMix(m) => Some("Monitor mix → "@ + decimal_text(m as nat) + "%"@),
        DeviceAction::SetLimiter(e) => Some("Limiter → "@ + on_off_text(e)),
        DeviceAction::SetCompressor(c) => Some("Compressor → "@ + c.label_text()),
        DeviceAction::SetHpf(h) => Some("HPF → "@ + h.label_text()),
        DeviceAction::SetEqEnable(e) => Some(
            "EQ → "@ + (if e {
                "Enabled"@
            } else {
                "Bypass"@
            }),
        ),
        DeviceAction::SetEqBandEnable(b, e) => Some(
            "EQ Band "@ + decimal_text((b + 1) as nat) + " → "@ + on_off_text(e),
        ),
        DeviceAction::SetEqBandGain(b, g) => Some(
            "EQ Band "@ + decimal_text((b + 1) as nat) + " → "@ + signed_text(g as int) + " dB"@,
        ),
        _ => None,
    }
}

/// The band number in the status line (the index plus one) fits.
pub open spec fn action_fits(a: DeviceAction) -> bool {
    match a {
        DeviceAction::SetEqBandEnable(b, _) => b < usize::MAX,
        DeviceAction::SetEqBandGain(b, _) => b < usize::MAX,
        _ => true,
    }
}

/// A new string holding `s`.
fn text_of(s: &str) -> (r: String)
    ensures
        r@ == s@,
{
    String::from_str(s)
}

/// "ON" or "Off".
fn on_off(b: bool) -> (r: &'static str)
    ensures
        r@ == on_off_text(b),
{
    if b {
        "ON"
    } else {
        "Off"
    }
}

/// Append `v` with its sign always written.
fn append_signed(s: &mut String, v: i8)
    ensures
        final(s)@ == old(s)@ + signed_text(v as int),
{
    if v < 0 {
        s.append("-");
        let m: i16 = -(v as i16);
        append_decimal(s, m as u64);
    } else {
        s.append("+");
        append_decimal(s, v as u64);
    }
}

/// The status line of a setting action, `None` for the other actions.
pub fn action_status(action: DeviceAction) -> (r: Option<String>)
    requires
        action_fits(action),
    ensures
        match action_message(action) {
            Some(m) => r is Some && r->0@ == m,
            None => r is None,
        },
{
    match action {
        DeviceAction::SetGain(g) => {
            let mut s = text_of("Gain → ");
            append_decimal(&mut s, g as u64);
            s.append(" dB");
            Some(s)
        },
        DeviceAction::SetMode(m) => {
            let mut s = text_of("Mode → ");
            s.append(m.label());
            Some(s)
        },
        DeviceAction::SetAutoPosition(p) => {
            let mut s = text_of("Mic Position → ");
            s.append(p.label());
            Some(s)
        },
        DeviceAction::SetAutoTone(t) => {
            let mut s = text_of("Tone → ");
            s.append(t.label());
            Some(s)
        },
        DeviceAction::SetAutoGain(g) => {
            let mut s = text_of("Auto Gain → ");
            s.append(g.label());
            Some(s)
        },
        DeviceAction::SetMute(m) => {
            let mut s = text_of("Mute → ");
            s.append(on_off(m));
            Some(s)
        },
        DeviceAction::SetPhantom(p) => {
            let mut s = text_of("Phantom → ");
            s.append(
                if p {
                    "48V ON"
                } else {
                    "Off"
                },
            );
            Some(s)
        },
        DeviceAction::SetLock(l) => {
            if l {
                Some(text_of("Device locked — SET commands will be ignored until unlocked."))
            } else {
                Some(text_of("Device unlocked."))
            }
        },
        DeviceAction::SetMonitorMix(m) => {
            let mut s = text_of("Monitor mix → ");
            append_decimal(&mut s, m as u64);
            s.append("%");
            Some(s)
        },
        DeviceAction::SetLimiter(e) => {
            let mut s = text_of("Limiter → ");
            s.append(on_off(e));
            Some(s)
        },
        DeviceAction::SetCompressor(c) => {
            let mut s = text_of("Compressor → ");
            s.append(c.label());
            Some(s)
        },
        DeviceAction::SetHpf(h) => {
            let mut s = text_of("HPF → ");
            s.append(h.label());
            Some(s)
        },
        DeviceAction::SetEqEnable(e) => {
            let mut s = text_of("EQ → ");
            s.append(
                if e {
                    "Enabled"
                } else {
                    "Bypass"
                },
            );
            Some(s)
        },
        DeviceAction::SetEqBandEnable(b, e) => {
            let mut s = text_of("EQ Band ");
            append_decimal(&mut s, (b as u64) + 1);
            s.append(" → ");
            s.append(on_off(e));
            Some(s)
        },
        DeviceAction::SetEqBandGain(b, g) => {
            let mut s = text_of("EQ Band ");
            append_decimal(&mut s, (b as u64) + 1);
            s.append(" → ");
            append_signed(&mut s, g);
            s.append(" dB");
            Some(s)
        },
        _ => None,
    }
}

/// Before a setting is sent: show its status line. Returns whether the action
/// is a single setting to send; the app is unchanged when it is not.
pub fn announce_setting(app: &mut App, action: DeviceAction) -> (is_setting: bool)
    requires
        action_fits(action),
    ensures
        is_setting == action_message(action) is Some,
        is_setting ==> final(app).status_message@ == action_message(action)->0,
        is_setting ==> *final(app) == (App {
            status_message: final(app).status_message,
            status_is_error: false,
            ..*old(app)
        }),
        !is_setting ==> *final(app) == *old(app),
{
    match action_status(action) {
        Some(msg) => {
            app.set_ok(msg.as_str());
            true
        },
        None => false,
    }
}

// ── Preset slots ─────────────────────────────────────────────────────────────
/// The name a saved slot gets: the name of the slot it replaces, or
/// "Preset N" (N counted from one) for an empty slot.
pub open spec fn save_name(app: App, i: int) -> Seq<char> {
    match app.presets[i] {
        Some(slot) => slot.name@,
        None => "Preset "@ + decimal_text((i + 1) as nat),
    }
}

/// The slot to write when saving the current device state into slot `i`.
pub fn preset_to_save(app: &App, i: usize) -> (slot: PresetSlot)
    requires
        i < PRESET_COUNT,
    ensures
        slot.name@ == save_name(*app, i as int),
        holds_settings_of(slot, app.device_state),
{
    match &app.presets[i] {
        Some(existing) => PresetSlot::from_device_state(existing.name.as_str(), &app.device_state),
        None => {
            let mut name = text_of("Preset ");
            append_decimal(&mut name, (i as u64) + 1);
            PresetSlot::from_device_state(name.as_str(), &app.device_state)
        },
    }
}

/// After `slot` was written to disk for slot `i`: keep it and say so.
pub fn preset_saved(app: &mut App, i: usize, slot: PresetSlot)
    requires
        i < PRESET_COUNT,
    ensures
        final(app).status_message@ == "Saved to \""@ + slot.name@ + "\"."@,
        !final(app).status_is_error,
        final(app).presets@ == old(app).presets@.update(i as int, Some(slot)),
        *final(app) == (App {
            status_message: final(app).status_message,
            status_is_error: false,
            presets: final(app).presets,
            ..*old(app)
        }),
{
    let mut msg = text_of("Saved to \"");
    msg.append(slot.name.as_str());
    msg.append("\".");
    app.set_ok(msg.as_str());
    app.presets[i] = Some(slot);
}

/// Load slot `i` into the device state. A filled slot replaces every setting
/// it holds (the lock state, serial number and firmware version stay) and
/// says so; an empty slot leaves the state alone and reports an error.
/// Returns whether the slot was loaded, i.e. whether the state is now to be
/// sent to the device.
pub fn load_preset(app: &mut App, i: usize) -> (loaded: bool)
    requires
        i < PRESET_COUNT,
    ensures
        loaded == old(app).presets[i as int] is Some,
        loaded ==> restored_from(
            final(app).device_state,
            old(app).presets[i as int]->0,
            old(app).device_state,
        ),
        loaded ==> final(app).status_message@ == "Loaded \""@ + old(app).presets[i as int]->0.name@
            + "\"."@,
        !loaded ==> final(app).device_state == old(app).device_state,
        !loaded ==> final(app).status_message@ == "Preset slot "@ + decimal_text(
            (i + 1) as nat,
        ) + " is empty."@,
        final(app).status_is_error == !loaded,
        *final(app) == (App {
            status_message: final(app).status_message,
            status_is_error: final(app).status_is_error,
            device_state: final(app).device_state,
            ..*old(app)
        }),
{
    let mut msg;
    let loaded;
    match &app.presets[i] {
        Some(slot) => {
            slot.apply_to_device_state(&mut app.device_state);
            msg = text_of("Loaded \"");
            msg.append(slot.name.as_str());
            msg.append("\".");
            loaded = true;
        },
        None => {
            msg = text_of("Preset slot ");
            append_decimal(&mut msg, (i as u64) + 1);
            msg.append(" is empty.");
            loaded = false;
        },
    }
    if loaded {
        app.set_ok(msg.as_str());
    } else {
        app.set_err(msg.as_str());
    }
    loaded
}

/// The name a deleted slot is reported under: its own, or "preset".
pub open spec fn delete_name(app: App, i: int) -> Seq<char> {
    match app.presets[i] {
        Some(slot) => slot.name@,
        None => "preset"@,
    }
}

/// After the file of slot `i` was deleted: empty the slot and say so.
pub fn preset_deleted(app: &mut App, i: usize)
    requires
        i < PRESET_COUNT,
    ensures
        final(app).status_message@ == "Deleted \""@ + delete_name(*old(app), i as int) + "\"."@,
        final(app).presets@ == old(app).presets@.update(i as int, None),
        *final(app) == (App {
            status_message: final(app).status_message,
            status_is_error: false,
            presets: final(app).presets,
            ..*old(app)
        }),
{
    let mut msg = text_of("Deleted \"");
    match &app.presets[i] {
        Some(slot) => msg.append(slot.name.as_str()),
        None => msg.append("preset"),
    }
    msg.append("\".");
    app.set_ok(msg.as_str());
    app.presets[i] = None;
}

/// After the renamed slot `i` was written to disk: say so. Nothing happens
/// for an empty slot.
pub fn preset_rename_saved(app: &mut App, i: usize)
    requires
        i < PRESET_COUNT,
    ensures
        old(app).presets[i as int] is Some ==> final(app).status_message@ == "Renamed to \""@
            + old(app).presets[i as int]->0.name@ + "\"."@,
        old(app).presets[i as int] is Some ==> *final(app) == (App {
            status_message: final(app).status_message,
            status_is_error: false,
            ..*old(app)
        }),
        old(app).presets[i as int] is None ==> *final(app) == *old(app),
{
    let mut msg = text_of("Renamed to \"");
    let filled;
    match &app.presets[i] {
        Some(slot) => {
            msg.append(slot.name.as_str());
            filled = true;
        },
        None => {
            filled = false;
        },
    }
    if filled {
        msg.append("\".");
        app.set_ok(msg.as_str());
    }
}

// ── Reading the state and reporting failures ────────────────────────────────
/// A state read from the device replaces the app's, tagged with the
/// device's serial number.
pub open spec fn read_state_in(app: App, new_app: App, state: DeviceState, serial: Seq<char>) -> bool {
    &&& new_app.device_state.serial_number@ == serial
    &&& new_app.device_state == (DeviceState {
        serial_number: new_app.device_state.serial_number,
        ..state
    })
    &&& !new_app.status_is_error
    &&& new_app == (App {
        device_state: new_app.device_state,
        status_message: new_app.status_message,
        status_is_error: false,
        ..app
    })
}

/// Take in a state read from the device whose serial number is `serial`.
fn take_read_state(app: &mut App, state: DeviceState, serial: &str, msg: &str)
    ensures
        read_state_in(*old(app), *final(app), state, serial@),
        final(app).status_message@ == msg@,
{
    let mut state = state;
    state.serial_number = text_of(serial);
    app.device_state = state;
    app.set_ok(msg);
}

/// After a refresh read `state` from the device with serial number `serial`.
pub fn state_refreshed(app: &mut App, state: DeviceState, serial: &str)
    ensures
        read_state_in(*old(app), *final(app), state, serial@),
        final(app).status_message@ == "State refreshed from device."@,
{
    take_read_state(app, state, serial, "State refreshed from device.");
}

/// After the state was read from the device at start-up.
pub fn state_connected(app: &mut App, state: DeviceState, serial: &str)
    ensures
        read_state_in(*old(app), *final(app), state, serial@),
        final(app).status_message@ == "Connected — state loaded from device."@,
{
    take_read_state(app, state, serial, "Connected — state loaded from device.");
}

/// A refresh without a device: nothing to read.
pub fn refresh_in_demo(app: &mut App)
    ensures
        final(app).status_message@ == "Demo mode — no device to refresh."@,
        *final(app) == (App {
            status_message: final(app).status_message,
            status_is_error: false,
            ..*old(app)
        }),
{
    app.set_ok("Demo mode — no device to refresh.");
}

/// Start-up without a device.
pub fn demo_started(app: &mut App)
    ensures
        final(app).status_message@ == "Demo mode — changes will not be sent to a device."@,
        *final(app) == (App {
            status_message: final(app).status_message,
            status_is_error: false,
            ..*old(app)
        }),
{
    app.set_ok("Demo mode — changes will not be sent to a device.");
}

/// Start-up with a device whose state could not be read: `reason` says why.
pub fn state_read_failed(app: &mut App, reason: &str)
    ensures
        final(app).status_message@ == "Connected but failed to read state: "@ + reason@,
        *final(app) == (App {
            status_message: final(app).status_message,
            status_is_error: true,
            ..*old(app)
        }),
{
    let mut msg = text_of("Connected but failed to read state: ");
    msg.append(reason);
    app.set_err(msg.as_str());
}

/// A device or file step of an action failed: `reason` says why.
pub fn action_failed(app: &mut App, reason: &str)
    ensures
        final(app).status_message@ == "Device error: "@ + reason@,
        *final(app) == (App {
            status_message: final(app).status_message,
            status_is_error: true,
            ..*old(app)
        }),
{
    let mut msg = text_of("Device error: ");
    msg.append(reason);
    app.set_err(msg.as_str());
}

// ── Bringing the device in line with a loaded preset ────────────────────────
/// The setting a single-setting action sends, `None` for the other actions.
pub open spec fn action_setting(a: DeviceAction) -> Option<Setting> {
    match a {
        DeviceAction::SetGain(g) => Some(Setting::Gain(g)),
        DeviceAction::SetMode(m) => Some(Setting::Mode(m)),
        DeviceAction::SetAutoPosition(p) => Some(Setting::AutoPosition(p)),
        DeviceAction::SetAutoTone(t) => Some(Setting::AutoTone(t)),
        DeviceAction::SetAutoGain(g) => Some(Setting::AutoGain(g)),
        DeviceAction::SetMute(m) => Some(Setting::Muted(m)),
        DeviceAction::SetPhantom(p) => Some(Setting::Phantom(p)),
        DeviceAction::SetLock(l) => Some(Setting::Locked(l)),
        DeviceAction::SetMonitorMix(m) => Some(Setting::MonitorMix(m)),
        DeviceAction::SetLimiter(e) => Some(Setting::Limiter(e)),
        DeviceAction::SetCompressor(c) => Some(Setting::Compressor(c)),
        DeviceAction::SetHpf(h) => Some(Setting::Hpf(h)),
        DeviceAction::SetEqEnable(e) => Some(Setting::EqEnabled(e)),
        DeviceAction::SetEqBandEnable(b, e) => Some(Setting::EqBandEnabled(b, e)),
        DeviceAction::SetEqBandGain(b, g) => Some(Setting::EqBandGain(b, g)),
        _ => None,
    }
}

/// The device state after the actions `acts` took effect in order, from `s`.
pub open spec fn after_actions(s: DeviceState, acts: Seq<DeviceAction>) -> DeviceState
    decreases acts.len(),
{
    if acts.len() == 0 {
        s
    } else {
        state_after(after_actions(s, acts.drop_last()), action_setting(acts.last()))
    }
}

/// The settings sent, in order, to bring the device in line with `s`:
/// the mode, the gain, the Auto Level presets, mute, phantom power, monitor
/// mix, limiter, compressor, high-pass filter, EQ switch, then each EQ band's
/// switch and gain.
pub open spec fn sync_sequence(s: DeviceState) -> Seq<DeviceAction> {
    Seq::new(22, |i: int| sync_action(s, i))
}

/// The `i`-th setting sent to bring the device in line with `s`.
pub open spec fn sync_action(s: DeviceState, i: int) -> DeviceAction {
    if i == 0 {
        DeviceAction::SetMode(s.mode)
    } else if i == 1 {
        DeviceAction::SetGain(s.gain_db)
    } else if i == 2 {
        DeviceAction::SetAutoPosition(s.auto_position)
    } else if i == 3 {
        DeviceAction::SetAutoTone(s.auto_tone)
    } else if i == 4 {
        DeviceAction::SetAutoGain(s.auto_gain)
    } else if i == 5 {
        DeviceAction::SetMute(s.muted)
    } else if i == 6 {
        DeviceAction::SetPhantom(s.phantom_power)
    } else if i == 7 {
        DeviceAction::SetMonitorMix(s.monitor_mix)
    } else if i == 8 {
        DeviceAction::SetLimiter(s.limiter_enabled)
    } else if i == 9 {
        DeviceAction::SetCompressor(s.compressor)
    } else if i == 10 {
        DeviceAction::SetHpf(s.hpf)
    } else if i == 11 {
        DeviceAction::SetEqEnable(s.eq_enabled)
    } else {
        let b = (i - 12) / 2;
        if (i - 12) % 2 == 0 {
            DeviceAction::SetEqBandEnable(b as usize, s.eq_bands[b].enabled)
        } else {
            DeviceAction::SetEqBandGain(b as usize, s.eq_bands[b].gain_db)
        }
    }
}

/// The settings to send, in order, after a preset was loaded into `state`.
pub fn sync_actions(state: &DeviceState) -> (r: Vec<DeviceAction>)
    ensures
        r@ == sync_sequence(*state),
{
    let b = &state.eq_bands;
    let r = vec![
        DeviceAction::SetMode(state.mode),
        DeviceAction::SetGain(state.gain_db),
        DeviceAction::SetAutoPosition(state.auto_position),
        DeviceAction::SetAutoTone(state.auto_tone),
        DeviceAction::SetAutoGain(state.auto_gain),
        DeviceAction::SetMute(state.muted),
        DeviceAction::SetPhantom(state.phantom_power),
        DeviceAction::SetMonitorMix(state.monitor_mix),
        DeviceAction::SetLimiter(state.limiter_enabled),
        DeviceAction::SetCompressor(state.compressor),
        DeviceAction::SetHpf(state.hpf),
        DeviceAction::SetEqEnable(state.eq_enabled),
        DeviceAction::SetEqBandEnable(0, b[0].enabled),
        DeviceAction::SetEqBandGain(0, b[0].gain_db),
        DeviceAction::SetEqBandEnable(1, b[1].enabled),
        DeviceAction::SetEqBandGain(1, b[1].gain_db),
        DeviceAction::SetEqBandEnable(2, b[2].enabled),
        DeviceAction::SetEqBandGain(2, b[2].gain_db),
        DeviceAction::SetEqBandEnable(3, b[3].enabled),
        DeviceAction::SetEqBandGain(3, b[3].gain_db),
        DeviceAction::SetEqBandEnable(4, b[4].enabled),
        DeviceAction::SetEqBandGain(4, b[4].gain_db),
    ];
    assert(r@ =~= sync_sequence(*state));
    r
}

// ── The packet of a setting ──────────────────────────────────────────────────
/// The setting a device of `model` is sent for an action: the action's own
/// setting, with the gain limited to the model's maximum; `None` for an EQ
/// band outside 0–4 and for actions that are not a single setting.
pub open spec fn device_setting(a: DeviceAction, model: DeviceModel) -> Option<Setting> {
    match a {
        DeviceAction::SetGain(g) => Some(
            Setting::Gain(
                if g <= model.gain_limit() {
                    g
                } else {
                    model.gain_limit()
                },
            ),
        ),
        DeviceAction::SetEqBandEnable(b, e) => if b < 5 {
            Some(Setting::EqBandEnabled(b, e))
        } else {
            None
        },
        DeviceAction::SetEqBandGain(b, g) => if b < 5 {
            Some(Setting::EqBandGain(b, g))
        } else {
            None
        },
        _ => action_setting(a),
    }
}

/// The SET packet, with sequence number `seq`, that carries an action to a
/// device of `model` (a CONFIRM must follow it); `None` when the action is
/// not a setting the device takes.
pub fn action_packet(action: DeviceAction, seq: u8, model: DeviceModel) -> (pkt: Option<Vec<u8>>)
    ensures
        match device_setting(action, model) {
            Some(st) => pkt is Some && pkt->0@ == setting_packet(seq, st),
            None => pkt is None,
        },
{
    match action {
        DeviceAction::SetGain(g) => {
            let max = model.max_gain_db();
            Some(cmd_set_gain(seq, if g <= max { g } else { max }))
        },
        DeviceAction::SetMode(m) => Some(cmd_set_mode(seq, m == InputMode::Auto)),
        DeviceAction::SetAutoPosition(p) => Some(cmd_set_auto_position(seq, &p)),
        DeviceAction::SetAutoTone(t) => Some(cmd_set_auto_tone(seq, &t)),
        DeviceAction::SetAutoGain(g) => Some(cmd_set_auto_gain(seq, &g)),
        DeviceAction::SetMute(m) => Some(cmd_set_mute(seq, m)),
        DeviceAction::SetPhantom(p) => Some(cmd_set_phantom(seq, p)),
        DeviceAction::SetLock(l) => Some(cmd_set_lock(seq, l)),
        DeviceAction::SetMonitorMix(m) => Some(cmd_set_mix(seq, m)),
        DeviceAction::SetLimiter(e) => Some(cmd_set_limiter(seq, e)),
        DeviceAction::SetCompressor(c) => Some(cmd_set_compressor(seq, &c)),
        DeviceAction::SetHpf(h) => Some(cmd_set_hpf(seq, &h)),
        DeviceAction::SetEqEnable(e) => Some(cmd_set_eq_enable(seq, e)),
        DeviceAction::SetEqBandEnable(b, e) => if b < EQ_BAND_COUNT {
            Some(cmd_set_eq_band_enable(seq, b, e))
        } else {
            None
        },
        DeviceAction::SetEqBandGain(b, g) => if b < EQ_BAND_COUNT {
            Some(cmd_set_eq_band_gain(seq, b, g))
        } else {
            None
        },
        _ => None,
    }
}

/// The CONFIRM packet that must follow every SET, with sequence number `seq`.
pub open spec fn confirm_packet(seq: u8) -> Seq<u8> {
    packet(seq, CMD_CONFIRM@, Seq::<u8>::empty())
}

/// The two packets that carry an action to a device of `model`: its SET
/// packet (sequence number `set_seq`), then the CONFIRM packet (sequence
/// number `confirm_seq`) without which the device does not apply it; `None`
/// when the action is not a setting the device takes.
pub fn action_exchange(action: DeviceAction, set_seq: u8, confirm_seq: u8, model: DeviceModel) -> (r:
    Option<(Vec<u8>, Vec<u8>)>)
    ensures
        match device_setting(action, model) {
            Some(st) => match r {
                Some((set, confirm)) => set@ == setting_packet(set_seq, st) && confirm@
                    == confirm_packet(confirm_seq),
                None => false,
            },
            None => r is None,
        },
{
    match action_packet(action, set_seq, model) {
        Some(set) => Some((set, cmd_confirm(confirm_seq))),
        None => None,
    }
}

} // verus!
