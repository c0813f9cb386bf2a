use shurectl::app::{App, DeviceAction, Focus, Tab};
use shurectl::keys::{handle_key, Key, MAX_PRESET_NAME_BYTES};
use shurectl::presets::PresetSlot;
use shurectl::protocol::DeviceState;

fn app_with_slot(i: usize, name: &str) -> App {
    let mut app = App::default();
    app.presets[i] = Some(PresetSlot::from_device_state(name, &DeviceState::default()));
    app
}

#[test]
fn q_quits_outside_name_editing() {
    let mut app = App::default();
    assert!(handle_key(&mut app, Key::Char('q'), false, false).is_none());
    assert!(app.should_quit);
}

#[test]
fn ctrl_c_quits() {
    let mut app = App::default();
    handle_key(&mut app, Key::Char('c'), true, false);
    assert!(app.should_quit);
}

#[test]
fn quit_is_blocked_while_renaming() {
    let mut app = app_with_slot(0, "A");
    app.editing_preset_name = true;
    app.editing_preset_index = 0;
    handle_key(&mut app, Key::Char('q'), false, false);
    assert!(!app.should_quit);
    assert_eq!(app.presets[0].as_ref().unwrap().name, "A");
}

#[test]
fn typing_and_backspace_edit_the_name() {
    let mut app = app_with_slot(1, "Ab");
    app.active_tab = Tab::Presets;
    app.focus = Focus::PresetName(1);
    assert!(handle_key(&mut app, Key::Enter, false, false).is_none());
    assert!(app.editing_preset_name);
    assert_eq!(app.editing_preset_index, 1);

    handle_key(&mut app, Key::Char('c'), false, false);
    assert_eq!(app.presets[1].as_ref().unwrap().name, "Abc");
    handle_key(&mut app, Key::Backspace, false, false);
    handle_key(&mut app, Key::Backspace, false, false);
    assert_eq!(app.presets[1].as_ref().unwrap().name, "A");

    let action = handle_key(&mut app, Key::Enter, false, false);
    assert!(!app.editing_preset_name);
    assert_eq!(action, Some(DeviceAction::PersistPresetName(1)));
}

#[test]
fn backspace_on_empty_name_keeps_it_empty() {
    let mut app = app_with_slot(0, "");
    app.editing_preset_name = true;
    app.editing_preset_index = 0;
    handle_key(&mut app, Key::Backspace, false, false);
    assert_eq!(app.presets[0].as_ref().unwrap().name, "");
}

#[test]
fn name_stops_growing_at_the_byte_limit() {
    let long = "x".repeat(MAX_PRESET_NAME_BYTES);
    let mut app = app_with_slot(2, &long);
    app.editing_preset_name = true;
    app.editing_preset_index = 2;
    handle_key(&mut app, Key::Char('y'), false, false);
    assert_eq!(app.presets[2].as_ref().unwrap().name, long);
}

#[test]
fn help_opens_and_closes() {
    let mut app = App::default();
    handle_key(&mut app, Key::Char('?'), false, false);
    assert!(app.help_visible);
    handle_key(&mut app, Key::Char('r'), false, false);
    assert!(app.help_visible, "other keys are ignored while help is shown");
    handle_key(&mut app, Key::Esc, false, false);
    assert!(!app.help_visible);
}

#[test]
fn r_asks_for_refresh() {
    let mut app = App::default();
    assert_eq!(
        handle_key(&mut app, Key::Char('r'), false, false),
        Some(DeviceAction::Refresh)
    );
}

#[test]
fn tab_and_shift_tab_switch_tabs() {
    let mut app = App::default();
    app.device_state.mode = shurectl::protocol::InputMode::Manual;
    handle_key(&mut app, Key::Tab, false, false);
    assert_eq!(app.active_tab, Tab::Eq);
    handle_key(&mut app, Key::Tab, false, true);
    assert_eq!(app.active_tab, Tab::Main);
}

#[test]
fn save_and_delete_on_presets_tab() {
    let mut app = app_with_slot(3, "Slot");
    app.active_tab = Tab::Presets;
    app.focus = Focus::PresetActions(3);
    assert_eq!(
        handle_key(&mut app, Key::Char('s'), false, false),
        Some(DeviceAction::SavePreset(3))
    );
    assert_eq!(
        handle_key(&mut app, Key::Delete, false, false),
        Some(DeviceAction::DeletePreset(3))
    );
    app.focus = Focus::PresetActions(0);
    assert_eq!(handle_key(&mut app, Key::Char('d'), false, false), None);
}

#[test]
fn s_is_ignored_outside_presets_tab() {
    let mut app = App::default();
    assert_eq!(handle_key(&mut app, Key::Char('s'), false, false), None);
}

#[test]
fn arrows_adjust_the_focused_gain() {
    let mut app = App::default();
    app.focus = Focus::Gain;
    app.device_state.gain_db = 10;
    assert_eq!(
        handle_key(&mut app, Key::Right, false, false),
        Some(DeviceAction::SetGain(11))
    );
    assert_eq!(
        handle_key(&mut app, Key::Char('h'), false, false),
        Some(DeviceAction::SetGain(10))
    );
}

#[test]
fn esc_cancels_a_rename_and_restores_the_name() {
    let mut app = app_with_slot(0, "Keep");
    app.active_tab = Tab::Presets;
    app.focus = Focus::PresetName(0);
    handle_key(&mut app, Key::Char(' '), false, false);
    assert!(app.editing_preset_name);
    handle_key(&mut app, Key::Backspace, false, false);
    handle_key(&mut app, Key::Char('X'), false, false);
    assert_eq!(app.presets[0].as_ref().unwrap().name, "KeeX");

    let action = handle_key(&mut app, Key::Esc, false, false);
    assert_eq!(action, None);
    assert!(!app.editing_preset_name);
    assert_eq!(app.presets[0].as_ref().unwrap().name, "Keep");
}
