use shurectl::actions::{
    action_failed, action_packet, action_status, announce_setting, demo_started, load_preset, preset_deleted,
    preset_rename_saved, preset_saved, preset_to_save, refresh_in_demo, state_connected,
    state_read_failed, state_refreshed, sync_actions,
};
use shurectl::app::{App, DeviceAction};
use shurectl::presets::PresetSlot;
use shurectl::protocol::{
    apply_setting, cmd_set_eq_band_gain, cmd_set_gain, cmd_set_mode, DeviceModel, AutoTone, CompressorPreset, DeviceState, HpfFrequency, InputMode, Setting,
};

fn status(a: DeviceAction) -> String {
    action_status(a).expect("a setting action has a status line")
}

#[test]
fn status_lines_of_settings() {
    assert_eq!(status(DeviceAction::SetGain(36)), "Gain → 36 dB");
    assert_eq!(status(DeviceAction::SetMode(InputMode::Auto)), "Mode → Auto Level");
    assert_eq!(status(DeviceAction::SetAutoTone(AutoTone::Bright)), "Tone → Bright");
    assert_eq!(status(DeviceAction::SetMute(true)), "Mute → ON");
    assert_eq!(status(DeviceAction::SetPhantom(true)), "Phantom → 48V ON");
    assert_eq!(status(DeviceAction::SetPhantom(false)), "Phantom → Off");
    assert_eq!(
        status(DeviceAction::SetLock(true)),
        "Device locked — SET commands will be ignored until unlocked."
    );
    assert_eq!(status(DeviceAction::SetLock(false)), "Device unlocked.");
    assert_eq!(status(DeviceAction::SetMonitorMix(50)), "Monitor mix → 50%");
    assert_eq!(status(DeviceAction::SetLimiter(false)), "Limiter → Off");
    assert_eq!(
        status(DeviceAction::SetCompressor(CompressorPreset::Medium)),
        "Compressor → Medium"
    );
    assert_eq!(status(DeviceAction::SetHpf(HpfFrequency::Hz75)), "HPF → 75 Hz");
    assert_eq!(status(DeviceAction::SetEqEnable(false)), "EQ → Bypass");
    assert_eq!(status(DeviceAction::SetEqBandEnable(0, true)), "EQ Band 1 → ON");
}

#[test]
fn eq_band_gain_status_always_shows_the_sign() {
    assert_eq!(status(DeviceAction::SetEqBandGain(1, 2)), "EQ Band 2 → +2 dB");
    assert_eq!(status(DeviceAction::SetEqBandGain(2, -4)), "EQ Band 3 → -4 dB");
    assert_eq!(status(DeviceAction::SetEqBandGain(4, 0)), "EQ Band 5 → +0 dB");
    assert_eq!(status(DeviceAction::SetEqBandGain(0, -128)), "EQ Band 1 → -128 dB");
}

#[test]
fn preset_and_refresh_actions_have_no_status_line() {
    for a in [
        DeviceAction::SavePreset(0),
        DeviceAction::LoadPreset(1),
        DeviceAction::DeletePreset(2),
        DeviceAction::PersistPresetName(3),
        DeviceAction::Refresh,
    ] {
        assert!(action_status(a).is_none());
    }
}

#[test]
fn announce_setting_sets_status_only_for_settings() {
    let mut app = App::default();
    app.set_err("old");
    assert!(announce_setting(&mut app, DeviceAction::SetGain(12)));
    assert_eq!(app.status_message, "Gain → 12 dB");
    assert!(!app.status_is_error);

    assert!(!announce_setting(&mut app, DeviceAction::Refresh));
    assert_eq!(app.status_message, "Gain → 12 dB");
}

fn slot(name: &str) -> PresetSlot {
    let mut s = DeviceState::default();
    s.gain_db = 42;
    s.mode = InputMode::Manual;
    PresetSlot::from_device_state(name, &s)
}

#[test]
fn preset_to_save_names_an_empty_slot_by_number() {
    let app = App::default();
    assert_eq!(preset_to_save(&app, 2).name, "Preset 3");
}

#[test]
fn preset_to_save_keeps_the_name_of_a_filled_slot() {
    let mut app = App::default();
    app.presets[1] = Some(slot("Podcast"));
    app.device_state.gain_db = 7;
    let s = preset_to_save(&app, 1);
    assert_eq!(s.name, "Podcast");
    assert_eq!(s.gain_db, 7);
}

#[test]
fn preset_saved_stores_the_slot_and_says_so() {
    let mut app = App::default();
    preset_saved(&mut app, 0, slot("Voice"));
    assert_eq!(app.status_message, "Saved to \"Voice\".");
    assert_eq!(app.presets[0].as_ref().unwrap().name, "Voice");
}

#[test]
fn load_preset_restores_settings_and_keeps_serial() {
    let mut app = App::default();
    app.device_state.serial_number = String::from("SN1");
    app.presets[3] = Some(slot("Loud"));
    assert!(load_preset(&mut app, 3));
    assert_eq!(app.device_state.gain_db, 42);
    assert_eq!(app.device_state.mode, InputMode::Manual);
    assert_eq!(app.device_state.serial_number, "SN1");
    assert_eq!(app.status_message, "Loaded \"Loud\".");
    assert!(!app.status_is_error);
}

#[test]
fn load_empty_preset_reports_an_error() {
    let mut app = App::default();
    let before = app.device_state.clone();
    assert!(!load_preset(&mut app, 1));
    assert_eq!(app.status_message, "Preset slot 2 is empty.");
    assert!(app.status_is_error);
    assert_eq!(app.device_state, before);
}

#[test]
fn preset_deleted_empties_the_slot() {
    let mut app = App::default();
    app.presets[2] = Some(slot("Old"));
    preset_deleted(&mut app, 2);
    assert!(app.presets[2].is_none());
    assert_eq!(app.status_message, "Deleted \"Old\".");

    preset_deleted(&mut app, 2);
    assert_eq!(app.status_message, "Deleted \"preset\".");
}

#[test]
fn preset_rename_saved_reports_the_new_name() {
    let mut app = App::default();
    app.presets[0] = Some(slot("New name"));
    preset_rename_saved(&mut app, 0);
    assert_eq!(app.status_message, "Renamed to \"New name\".");

    let mut empty = App::default();
    empty.set_ok("unchanged");
    preset_rename_saved(&mut empty, 1);
    assert_eq!(empty.status_message, "unchanged");
}

#[test]
fn refresh_and_start_up_messages() {
    let mut app = App::default();
    let mut read = DeviceState::default();
    read.gain_db = 21;
    read.serial_number = String::from("ignored");
    state_refreshed(&mut app, read.clone(), "MVX-42");
    assert_eq!(app.device_state.gain_db, 21);
    assert_eq!(app.device_state.serial_number, "MVX-42");
    assert_eq!(app.status_message, "State refreshed from device.");

    state_connected(&mut app, read, "MVX-43");
    assert_eq!(app.status_message, "Connected — state loaded from device.");

    refresh_in_demo(&mut app);
    assert_eq!(app.status_message, "Demo mode — no device to refresh.");

    demo_started(&mut app);
    assert_eq!(app.status_message, "Demo mode — changes will not be sent to a device.");

    state_read_failed(&mut app, "timeout");
    assert_eq!(app.status_message, "Connected but failed to read state: timeout");
    assert!(app.status_is_error);
}

#[test]
fn action_failed_reports_a_device_error() {
    let mut app = App::default();
    action_failed(&mut app, "HID write failed");
    assert_eq!(app.status_message, "Device error: HID write failed");
    assert!(app.status_is_error);
}

/// The setting a sync action carries.
fn setting_of(a: DeviceAction) -> Setting {
    match a {
        DeviceAction::SetGain(g) => Setting::Gain(g),
        DeviceAction::SetMode(m) => Setting::Mode(m),
        DeviceAction::SetAutoPosition(p) => Setting::AutoPosition(p),
        DeviceAction::SetAutoTone(t) => Setting::AutoTone(t),
        DeviceAction::SetAutoGain(g) => Setting::AutoGain(g),
        DeviceAction::SetMute(m) => Setting::Muted(m),
        DeviceAction::SetPhantom(p) => Setting::Phantom(p),
        DeviceAction::SetLock(l) => Setting::Locked(l),
        DeviceAction::SetMonitorMix(m) => Setting::MonitorMix(m),
        DeviceAction::SetLimiter(e) => Setting::Limiter(e),
        DeviceAction::SetCompressor(c) => Setting::Compressor(c),
        DeviceAction::SetHpf(h) => Setting::Hpf(h),
        DeviceAction::SetEqEnable(e) => Setting::EqEnabled(e),
        DeviceAction::SetEqBandEnable(b, e) => Setting::EqBandEnabled(b, e),
        DeviceAction::SetEqBandGain(b, g) => Setting::EqBandGain(b, g),
        other => panic!("not a setting: {other:?}"),
    }
}

#[test]
fn sync_actions_bring_any_state_to_the_loaded_one() {
    let mut target = DeviceState::default();
    target.mode = InputMode::Manual;
    target.gain_db = 48;
    target.muted = true;
    target.monitor_mix = 35;
    target.compressor = CompressorPreset::Heavy;
    target.eq_enabled = true;
    target.eq_bands[3].enabled = true;
    target.eq_bands[3].gain_db = -6;

    let acts = sync_actions(&target);
    assert_eq!(acts.len(), 22);
    assert_eq!(acts[0], DeviceAction::SetMode(InputMode::Manual));
    assert_eq!(acts[19], DeviceAction::SetEqBandGain(3, -6));

    let mut device = DeviceState::default();
    device.locked = true;
    device.serial_number = String::from("DEV");
    for a in acts {
        apply_setting(&mut device, setting_of(a));
    }
    let mut expected = target.clone();
    expected.locked = true;
    expected.serial_number = String::from("DEV");
    assert_eq!(device, expected);
}

#[test]
fn action_packets_are_the_set_commands() {
    assert_eq!(action_packet(DeviceAction::SetGain(50), 3, DeviceModel::Mvx2u), Some(cmd_set_gain(3, 50)));
    assert_eq!(action_packet(DeviceAction::SetGain(50), 3, DeviceModel::Mv6), Some(cmd_set_gain(3, 36)));
    assert_eq!(
        action_packet(DeviceAction::SetMode(InputMode::Auto), 4, DeviceModel::Mvx2u),
        Some(cmd_set_mode(4, true))
    );
    assert_eq!(
        action_packet(DeviceAction::SetEqBandGain(4, -2), 5, DeviceModel::Mvx2u),
        Some(cmd_set_eq_band_gain(5, 4, -2))
    );
    assert_eq!(action_packet(DeviceAction::SetEqBandGain(5, 2), 5, DeviceModel::Mvx2u), None);
    assert_eq!(action_packet(DeviceAction::Refresh, 0, DeviceModel::Mvx2u), None);
    assert_eq!(action_packet(DeviceAction::LoadPreset(0), 0, DeviceModel::Mvx2u), None);
}

#[test]
fn every_set_is_followed_by_its_confirm() {
    let (set, confirm) = shurectl::actions::action_exchange(
        DeviceAction::SetGain(50),
        7,
        8,
        DeviceModel::Mv6,
    )
    .expect("a gain change is a setting");
    assert_eq!(set, cmd_set_gain(7, 36));
    assert_eq!(confirm, shurectl::protocol::cmd_confirm(8));
    assert!(shurectl::actions::action_exchange(DeviceAction::Refresh, 1, 2, DeviceModel::Mvx2u).is_none());
}
