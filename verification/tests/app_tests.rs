use shurectl::app::{App, DeviceAction, Focus, Tab};
use shurectl::presets::{
    PresetSlot, SerAutoGain, SerAutoTone, SerCompressorPreset, SerEqBand, SerHpfFrequency,
    SerInputMode, SerLedBehavior, SerLedBrightness, SerLedLiveTheme, SerLedPulsingTheme,
    SerLedSolidTheme, SerMicPosition, SerReverbType,
};
use shurectl::protocol::{AutoGain, AutoTone, CompressorPreset, InputMode, MicPosition};

// ── Tab navigation ────────────────────────────────────────────────────────

#[test]
fn tab_next_wraps_around() {
    assert_eq!(Tab::Info.next(), Tab::Main);
}

#[test]
fn tab_prev_wraps_around() {
    assert_eq!(Tab::Main.prev(), Tab::Info);
}

#[test]
fn tab_next_full_cycle_returns_to_start() {
    let mut tab = Tab::Main;
    for _ in 0..Tab::ALL.len() {
        tab = tab.next();
    }
    assert_eq!(tab, Tab::Main);
}

#[test]
fn tab_index_is_unique_for_each_variant() {
    let indices: Vec<usize> = Tab::ALL.iter().map(|t| t.index()).collect();
    let unique: std::collections::HashSet<usize> = indices.iter().copied().collect();
    assert_eq!(
        indices.len(),
        unique.len(),
        "every Tab variant must have a distinct index"
    );
}

#[test]
fn tab_all_covers_all_five_variants() {
    assert_eq!(Tab::ALL.len(), 5, "Tab::ALL must list all 5 Tab variants");
}

// ── default focus after a tab switch ──────────────────────────────────────

#[test]
fn switching_to_main_tab_in_manual_mode_focuses_gain() {
    let mut app = App::default();
    app.device_state.mode = InputMode::Manual;
    app.active_tab = Tab::Eq;
    app.next_tab();
    app.prev_tab();
    app.prev_tab();
    assert_eq!(app.focus, Focus::Gain);
}

#[test]
fn switching_to_main_tab_in_auto_mode_focuses_mode() {
    let mut app = App::default();
    app.device_state.mode = InputMode::Auto;
    app.active_tab = Tab::Eq;
    app.prev_tab();
    assert_eq!(app.focus, Focus::Mode);
}

#[test]
fn switching_to_non_main_tabs_sets_correct_default_focus() {
    let expected: &[(Tab, Focus)] = &[
        (Tab::Eq, Focus::EqEnable),
        (Tab::Dynamics, Focus::Limiter),
        (Tab::Presets, Focus::PresetName(0)),
        (Tab::Info, Focus::Nothing),
    ];
    for (tab, expected_focus) in expected {
        let mut app = App::default();
        app.device_state.mode = InputMode::Manual;
        app.active_tab = *tab;
        app.next_tab();
        app.prev_tab();
        assert_eq!(
            app.focus, *expected_focus,
            "wrong default focus after switching to {tab:?}"
        );
    }
}

// ── is_tab_locked ─────────────────────────────────────────────────────────

#[test]
fn is_tab_locked_returns_false_for_all_tabs_in_manual_mode() {
    let mut app = App::default();
    app.device_state.mode = InputMode::Manual;
    for tab in Tab::ALL {
        assert!(
            !app.is_tab_locked(tab),
            "{tab:?} must not be locked in Manual mode"
        );
    }
}

#[test]
fn is_tab_locked_returns_true_for_eq_and_dynamics_in_auto_mode() {
    let mut app = App::default();
    app.device_state.mode = InputMode::Auto;
    assert!(app.is_tab_locked(Tab::Eq), "EQ must be locked in Auto mode");
    assert!(
        app.is_tab_locked(Tab::Dynamics),
        "Dynamics must be locked in Auto mode"
    );
}

#[test]
fn is_tab_locked_returns_false_for_other_tabs_in_auto_mode() {
    let mut app = App::default();
    app.device_state.mode = InputMode::Auto;
    for tab in [Tab::Main, Tab::Presets, Tab::Info] {
        assert!(
            !app.is_tab_locked(tab),
            "{tab:?} must not be locked in Auto mode"
        );
    }
}

#[test]
fn next_tab_skips_eq_and_dynamics_in_auto_mode() {
    let mut app = App::default();
    app.device_state.mode = InputMode::Auto;
    app.active_tab = Tab::Main;
    app.next_tab();
    assert_eq!(
        app.active_tab,
        Tab::Presets,
        "next from Main in Auto mode must skip Eq+Dynamics and land on Presets"
    );
}

#[test]
fn prev_tab_skips_eq_and_dynamics_in_auto_mode() {
    let mut app = App::default();
    app.device_state.mode = InputMode::Auto;
    app.active_tab = Tab::Presets;
    app.prev_tab();
    assert_eq!(
        app.active_tab,
        Tab::Main,
        "prev from Presets in Auto mode must skip Dynamics+Eq and land on Main"
    );
}

// ── focus cycles ──────────────────────────────────────────────────────────

#[test]
fn eq_tab_focus_cycles_enable_band_select_enable_gain() {
    let mut app = App::default();
    app.active_tab = Tab::Eq;
    app.focus = Focus::EqEnable;
    app.eq_selected_band = 0;

    app.focus_next();
    assert_eq!(app.focus, Focus::EqBandSelect);
    app.focus_next();
    assert_eq!(app.focus, Focus::EqBandEnable(0));
    app.focus_next();
    assert_eq!(app.focus, Focus::EqGain(0));
    app.focus_next();
    assert_eq!(app.focus, Focus::EqEnable);

    app.focus_prev();
    assert_eq!(app.focus, Focus::EqGain(0));
}

#[test]
fn main_tab_manual_mode_focus_cycles_forward_and_back() {
    let forward = [
        Focus::Mode,
        Focus::Mute,
        Focus::Gain,
        Focus::MonitorMix,
        Focus::Phantom,
        Focus::Lock,
        Focus::Mode,
    ];
    let mut app = App::default();
    app.active_tab = Tab::Main;
    app.device_state.mode = InputMode::Manual;
    app.focus = Focus::Mode;

    for expected in &forward[1..] {
        app.focus_next();
        assert_eq!(app.focus, *expected);
    }

    app.focus = Focus::Mode;
    app.focus_prev();
    assert_eq!(app.focus, Focus::Lock);
}

#[test]
fn main_tab_auto_mode_focus_cycles_forward_and_back() {
    let forward = [
        Focus::Mode,
        Focus::Mute,
        Focus::AutoPosition,
        Focus::AutoTone,
        Focus::AutoGain,
        Focus::MonitorMix,
        Focus::Phantom,
        Focus::Lock,
        Focus::Mode,
    ];
    let mut app = App::default();
    app.active_tab = Tab::Main;
    app.device_state.mode = InputMode::Auto;
    app.focus = Focus::Mode;

    for expected in &forward[1..] {
        app.focus_next();
        assert_eq!(app.focus, *expected);
    }

    app.focus = Focus::Mode;
    app.focus_prev();
    assert_eq!(app.focus, Focus::Lock);
}

#[test]
fn dynamics_tab_focus_cycles_all_three_controls() {
    let mut app = App::default();
    app.active_tab = Tab::Dynamics;
    app.focus = Focus::Limiter;

    app.focus_next();
    assert_eq!(app.focus, Focus::Compressor);
    app.focus_next();
    assert_eq!(app.focus, Focus::Hpf);
    app.focus_next();
    assert_eq!(app.focus, Focus::Limiter);

    app.focus_prev();
    assert_eq!(app.focus, Focus::Hpf);
}

#[test]
fn presets_tab_focus_cycles_through_name_and_actions_rows() {
    let mut app = App::default();
    app.active_tab = Tab::Presets;

    app.focus = Focus::PresetName(0);
    let expected_forward = [
        Focus::PresetActions(0),
        Focus::PresetName(1),
        Focus::PresetActions(1),
        Focus::PresetName(2),
        Focus::PresetActions(2),
        Focus::PresetName(3),
        Focus::PresetActions(3),
        Focus::PresetName(0),
    ];
    for expected in expected_forward {
        app.focus_next();
        assert_eq!(app.focus, expected, "focus_next mismatch");
    }

    app.focus = Focus::PresetActions(3);
    let expected_backward = [
        Focus::PresetName(3),
        Focus::PresetActions(2),
        Focus::PresetName(2),
        Focus::PresetActions(1),
        Focus::PresetName(1),
        Focus::PresetActions(0),
        Focus::PresetName(0),
        Focus::PresetActions(3),
    ];
    for expected in expected_backward {
        app.focus_prev();
        assert_eq!(app.focus, expected, "focus_prev mismatch");
    }
}

// ── adjust_focused ────────────────────────────────────────────────────────

#[test]
fn adjust_gain_increments_and_clamps_at_max() {
    let mut app = App::default();
    app.focus = Focus::Gain;
    app.device_state.gain_db = 59;

    app.adjust_focused(1);
    assert_eq!(app.device_state.gain_db, 60);

    app.adjust_focused(1);
    assert_eq!(app.device_state.gain_db, 60, "gain must not exceed 60");
}

#[test]
fn adjust_gain_decrements_and_clamps_at_zero() {
    let mut app = App::default();
    app.focus = Focus::Gain;
    app.device_state.gain_db = 1;

    app.adjust_focused(-1);
    assert_eq!(app.device_state.gain_db, 0);

    app.adjust_focused(-1);
    assert_eq!(app.device_state.gain_db, 0, "gain must not underflow");
}

#[test]
fn adjust_monitor_mix_steps_by_five_and_clamps() {
    let mut app = App::default();
    app.focus = Focus::MonitorMix;
    app.device_state.monitor_mix = 95;

    app.adjust_focused(1);
    assert_eq!(app.device_state.monitor_mix, 100);

    app.adjust_focused(1);
    assert_eq!(
        app.device_state.monitor_mix, 100,
        "monitor mix must not exceed 100"
    );

    app.device_state.monitor_mix = 3;
    app.adjust_focused(-1);
    assert_eq!(
        app.device_state.monitor_mix, 0,
        "monitor mix must not underflow"
    );
}

#[test]
fn adjust_eq_band_select_cycles_through_five_bands() {
    let mut app = App::default();
    app.active_tab = Tab::Eq;
    app.focus = Focus::EqBandSelect;
    app.eq_selected_band = 4;

    let action = app.adjust_focused(1);
    assert_eq!(
        app.eq_selected_band, 0,
        "band 4 forward should wrap to band 0"
    );
    assert!(
        action.is_none(),
        "band selection is UI-only, no DeviceAction expected"
    );
}

#[test]
fn adjust_eq_gain_clamps_at_plus_six_and_minus_eight() {
    let mut app = App::default();
    app.active_tab = Tab::Eq;
    app.focus = Focus::EqGain(0);
    app.device_state.eq_bands[0].gain_db = 6;

    app.adjust_focused(1);
    assert_eq!(
        app.device_state.eq_bands[0].gain_db, 6,
        "EQ gain must not exceed +6"
    );

    app.device_state.eq_bands[0].gain_db = -8;
    app.adjust_focused(-1);
    assert_eq!(
        app.device_state.eq_bands[0].gain_db, -8,
        "EQ gain must not go below -8"
    );
}

#[test]
fn adjust_eq_gain_steps_by_two_and_returns_action() {
    let mut app = App::default();
    app.active_tab = Tab::Eq;
    app.focus = Focus::EqGain(2);
    app.device_state.eq_bands[2].gain_db = 0;

    let action = app.adjust_focused(1);
    assert_eq!(app.device_state.eq_bands[2].gain_db, 2);
    assert!(matches!(action, Some(DeviceAction::SetEqBandGain(2, 2))));
}

#[test]
fn adjust_non_adjustable_focus_returns_none() {
    let mut app = App::default();
    for focus in [
        Focus::Mode,
        Focus::Mute,
        Focus::Phantom,
        Focus::Lock,
        Focus::Nothing,
    ] {
        app.focus = focus;
        assert!(
            app.adjust_focused(1).is_none(),
            "{focus:?} should return None from adjust_focused"
        );
    }
}

// ── toggle_focused ────────────────────────────────────────────────────────

#[test]
fn toggle_mute_flips_state_and_returns_action() {
    let mut app = App::default();
    app.focus = Focus::Mute;
    app.device_state.muted = false;

    let action = app.toggle_focused();
    assert!(app.device_state.muted);
    assert!(matches!(action, Some(DeviceAction::SetMute(true))));

    let action = app.toggle_focused();
    assert!(!app.device_state.muted);
    assert!(matches!(action, Some(DeviceAction::SetMute(false))));
}

#[test]
fn toggle_mode_switches_state_and_moves_focus() {
    let mut app = App::default();
    app.focus = Focus::Mode;
    app.device_state.mode = InputMode::Auto;

    let action = app.toggle_focused();
    assert_eq!(app.device_state.mode, InputMode::Manual);
    assert_eq!(app.focus, Focus::Gain, "Manual mode must focus Gain");
    assert!(matches!(
        action,
        Some(DeviceAction::SetMode(InputMode::Manual))
    ));

    app.focus = Focus::Mode;
    let action = app.toggle_focused();
    assert_eq!(app.device_state.mode, InputMode::Auto);
    assert_eq!(
        app.focus,
        Focus::AutoPosition,
        "Auto mode must focus AutoPosition"
    );
    assert!(matches!(
        action,
        Some(DeviceAction::SetMode(InputMode::Auto))
    ));
}

#[test]
fn toggle_auto_position_cycles_near_far_and_returns_action() {
    let mut app = App::default();
    app.focus = Focus::AutoPosition;
    app.device_state.auto_position = MicPosition::Near;

    let action = app.toggle_focused();
    assert_eq!(app.device_state.auto_position, MicPosition::Far);
    assert!(matches!(
        action,
        Some(DeviceAction::SetAutoPosition(MicPosition::Far))
    ));

    let action = app.toggle_focused();
    assert_eq!(app.device_state.auto_position, MicPosition::Near);
    assert!(matches!(
        action,
        Some(DeviceAction::SetAutoPosition(MicPosition::Near))
    ));
}

#[test]
fn toggle_auto_tone_cycles_all_values_and_returns_action() {
    let mut app = App::default();
    app.focus = Focus::AutoTone;
    app.device_state.auto_tone = AutoTone::Dark;

    app.toggle_focused();
    assert_eq!(app.device_state.auto_tone, AutoTone::Natural);
    app.toggle_focused();
    assert_eq!(app.device_state.auto_tone, AutoTone::Bright);
    let action = app.toggle_focused();
    assert_eq!(app.device_state.auto_tone, AutoTone::Dark);
    assert!(matches!(
        action,
        Some(DeviceAction::SetAutoTone(AutoTone::Dark))
    ));
}

#[test]
fn toggle_auto_gain_cycles_all_values_and_returns_action() {
    let mut app = App::default();
    app.focus = Focus::AutoGain;
    app.device_state.auto_gain = AutoGain::Quiet;

    app.toggle_focused();
    assert_eq!(app.device_state.auto_gain, AutoGain::Normal);
    app.toggle_focused();
    assert_eq!(app.device_state.auto_gain, AutoGain::Loud);
    let action = app.toggle_focused();
    assert_eq!(app.device_state.auto_gain, AutoGain::Quiet);
    assert!(matches!(
        action,
        Some(DeviceAction::SetAutoGain(AutoGain::Quiet))
    ));
}

#[test]
fn toggle_compressor_cycles_through_all_presets() {
    let mut app = App::default();
    app.focus = Focus::Compressor;
    app.device_state.compressor = CompressorPreset::Off;

    app.toggle_focused();
    assert_eq!(app.device_state.compressor, CompressorPreset::Light);
    app.toggle_focused();
    assert_eq!(app.device_state.compressor, CompressorPreset::Medium);
    app.toggle_focused();
    assert_eq!(app.device_state.compressor, CompressorPreset::Heavy);
    app.toggle_focused();
    assert_eq!(app.device_state.compressor, CompressorPreset::Off);
}

#[test]
fn toggle_eq_band_enable_flips_state_and_returns_action() {
    let mut app = App::default();
    app.active_tab = Tab::Eq;
    app.focus = Focus::EqBandEnable(1);
    app.device_state.eq_bands[1].enabled = false;

    let action = app.toggle_focused();
    assert!(app.device_state.eq_bands[1].enabled);
    assert!(matches!(
        action,
        Some(DeviceAction::SetEqBandEnable(1, true))
    ));

    let action = app.toggle_focused();
    assert!(!app.device_state.eq_bands[1].enabled);
    assert!(matches!(
        action,
        Some(DeviceAction::SetEqBandEnable(1, false))
    ));
}

#[test]
fn toggle_lock_flips_state_and_returns_action() {
    let mut app = App::default();
    app.focus = Focus::Lock;
    app.device_state.locked = false;

    let action = app.toggle_focused();
    assert!(app.device_state.locked);
    assert!(matches!(action, Some(DeviceAction::SetLock(true))));

    let action = app.toggle_focused();
    assert!(!app.device_state.locked);
    assert!(matches!(action, Some(DeviceAction::SetLock(false))));
}

#[test]
fn toggle_phantom_flips_state_and_returns_action() {
    let mut app = App::default();
    app.focus = Focus::Phantom;
    app.device_state.phantom_power = false;

    let action = app.toggle_focused();
    assert!(app.device_state.phantom_power);
    assert!(matches!(action, Some(DeviceAction::SetPhantom(true))));

    let action = app.toggle_focused();
    assert!(!app.device_state.phantom_power);
    assert!(matches!(action, Some(DeviceAction::SetPhantom(false))));
}

#[test]
fn toggle_eq_enable_flips_state_and_returns_action() {
    let mut app = App::default();
    app.active_tab = Tab::Eq;
    app.focus = Focus::EqEnable;
    app.device_state.eq_enabled = false;

    let action = app.toggle_focused();
    assert!(app.device_state.eq_enabled);
    assert!(matches!(action, Some(DeviceAction::SetEqEnable(true))));

    let action = app.toggle_focused();
    assert!(!app.device_state.eq_enabled);
    assert!(matches!(action, Some(DeviceAction::SetEqEnable(false))));
}

#[test]
fn toggle_limiter_flips_state_and_returns_action() {
    let mut app = App::default();
    app.active_tab = Tab::Dynamics;
    app.focus = Focus::Limiter;
    app.device_state.limiter_enabled = false;

    let action = app.toggle_focused();
    assert!(app.device_state.limiter_enabled);
    assert!(matches!(action, Some(DeviceAction::SetLimiter(true))));

    let action = app.toggle_focused();
    assert!(!app.device_state.limiter_enabled);
    assert!(matches!(action, Some(DeviceAction::SetLimiter(false))));
}

#[test]
fn toggle_non_toggleable_focus_returns_none() {
    let mut app = App::default();
    for focus in [
        Focus::Gain,
        Focus::MonitorMix,
        Focus::EqBandSelect,
        Focus::Nothing,
        Focus::PresetName(0),
        Focus::PresetActions(0),
    ] {
        app.focus = focus;
        assert!(
            app.toggle_focused().is_none(),
            "{focus:?} should return None from toggle_focused"
        );
    }
}

// ── status messages ───────────────────────────────────────────────────────

#[test]
fn set_ok_clears_error_flag() {
    let mut app = App::default();
    app.set_err("something broke");
    assert!(app.status_is_error);

    app.set_ok("all good");
    assert!(!app.status_is_error);
    assert_eq!(app.status_message, "all good");
}

#[test]
fn set_err_sets_error_flag() {
    let mut app = App::default();
    app.set_err("device disconnected");
    assert!(app.status_is_error);
    assert_eq!(app.status_message, "device disconnected");
}

// ── preset focus / toggle ─────────────────────────────────────────────────

/// A filled preset slot whose fields outside the test's concern hold the
/// values a preset file without them would load with.
fn minimal_slot(name: &str) -> PresetSlot {
    PresetSlot {
        name: String::from(name),
        gain_db: 36,
        mode: SerInputMode::Manual,
        auto_position: SerMicPosition::Near,
        auto_tone: SerAutoTone::Natural,
        auto_gain: SerAutoGain::Normal,
        muted: false,
        phantom_power: false,
        monitor_mix: 0,
        limiter_enabled: false,
        compressor: SerCompressorPreset::Off,
        hpf: SerHpfFrequency::Off,
        eq_enabled: false,
        eq_bands: [SerEqBand {
            enabled: false,
            gain_db: 0,
        }; 5],
        denoiser_enabled: false,
        popper_stopper_enabled: true,
        mute_btn_disabled: false,
        tone: 0,
        mv6_gain_locked: false,
        playback_mix: 0,
        reverb_on_output: false,
        reverb_monitoring: false,
        reverb_type: SerReverbType::Plate,
        reverb_intensity: 50,
        led_behavior: SerLedBehavior::Live,
        led_brightness: SerLedBrightness::High,
        led_live_theme: SerLedLiveTheme::Default,
        led_solid_theme: SerLedSolidTheme::Shure,
        led_pulsing_theme: SerLedPulsingTheme::Shure,
        led_solid_rgb: [0xB2, 0xFF, 0x33],
        led_pulsing_rgb: [0x10, 0x3F, 0xFB],
        led_live_edge_rgb: [0xFF, 0xFF, 0xFF],
        led_live_middle_rgb: [0x1F, 0x1F, 0x1F],
        led_live_interior_rgb: [0x00, 0x00, 0x00],
    }
}

#[test]
fn toggle_preset_actions_filled_returns_load_preset() {
    let mut app = App::default();
    app.active_tab = Tab::Presets;
    app.focus = Focus::PresetActions(2);
    app.presets[2] = Some(minimal_slot("Test"));

    let action = app.toggle_focused();
    assert!(
        matches!(action, Some(DeviceAction::LoadPreset(2))),
        "filled PresetActions slot must return LoadPreset"
    );
}

#[test]
fn toggle_on_out_of_range_gain_or_name_focus_does_nothing() {
    let mut app = App::default();
    app.focus = Focus::EqGain(7);
    assert!(app.toggle_focused().is_none());
    app.focus = Focus::PresetName(9);
    assert!(app.toggle_focused().is_none());
}
