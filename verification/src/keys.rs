//! Keyboard handling of the TUI: what a key press does to the app state and
//! which device action it asks for.
use vstd::prelude::*;
use crate::app::{
    adjust_fits, adjust_outcome, focus_down, focus_up, seek_left, seek_right, showing,
    state_after, tab_locked, toggle_outcome, App, DeviceAction, Focus, Tab,
};
use crate::presets::{PresetSlot, PRESET_COUNT};
use crate::text::{pop_char, push_char};

verus! {

/// The keys the TUI tells apart.
#[derive(Debug, Clone, Copy, PartialEq, Eq, Structural)]
pub enum Key {
    Char(char),
    Enter,
    Esc,
    Backspace,
    Tab,
    Up,
    Down,
    Left,
    Right,
    Delete,
    Other,
}

/// Longest preset name, in bytes of its UTF-8 encoding.
pub const MAX_PRESET_NAME_BYTES: usize = 40;

/// What a key press does.
#[derive(Debug, Clone, Copy, PartialEq, Eq, Structural)]
pub enum KeyEffect {
    /// `q`, `Q` or Ctrl-C: quit, unless a preset name is being edited.
    Quit,
    /// Enter while renaming: stop renaming, save the name if the slot is filled.
    FinishRename,
    /// Esc while renaming: stop renaming and put the old name back.
    CancelRename,
    /// Backspace while renaming: drop the last character of the name.
    EraseChar,
    /// A character while renaming: append it if the name is short enough.
    TypeChar(char),
    /// `?` or Esc while help is shown: hide help.
    CloseHelp,
    /// `?`: show help.
    OpenHelp,
    /// `r`: reload the state from the device.
    Refresh,
    /// Tab / Shift-Tab: switch tab.
    NextTab,
    PrevTab,
    /// Up/`k`, Down/`j`: move the focus.
    FocusUp,
    FocusDown,
    /// Left/`h`, Right/`l`: adjust the focused value.
    Adjust(i32),
    /// Enter/Space on a filled preset name: start renaming it.
    StartRename(usize),
    /// Enter/Space elsewhere: toggle the focused control.
    Toggle,
    /// `s` on the Presets tab: save the current state into the focused slot.
    Save(usize),
    /// `d`/Delete on a filled slot's actions row: delete it.
    Remove(usize),
    /// Anything else.
    Ignore,
}

pub open spec fn is_quit_key(code: Key, ctrl: bool) -> bool {
    code == Key::Char('q') || code == Key::Char('Q') || (code == Key::Char('c') && ctrl)
}

/// The effect of a key press in the given app state.
pub open spec fn key_effect(app: App, code: Key, ctrl: bool, shift: bool) -> KeyEffect {
    if is_quit_key(code, ctrl) {
        KeyEffect::Quit
    } else if app.editing_preset_name {
        match code {
            Key::Enter => KeyEffect::FinishRename,
            Key::Esc => KeyEffect::CancelRename,
            Key::Backspace => KeyEffect::EraseChar,
            Key::Char(c) => if !ctrl { KeyEffect::TypeChar(c) } else { KeyEffect::Ignore },
            _ => KeyEffect::Ignore,
        }
    } else if app.help_visible {
        if code == Key::Char('?') || code == Key::Esc {
            KeyEffect::CloseHelp
        } else {
            KeyEffect::Ignore
        }
    } else {
        match code {
            Key::Char('?') => KeyEffect::OpenHelp,
            Key::Char('r') => KeyEffect::Refresh,
            Key::Tab => if shift { KeyEffect::PrevTab } else { KeyEffect::NextTab },
            Key::Up | Key::Char('k') => KeyEffect::FocusUp,
            Key::Down | Key::Char('j') => KeyEffect::FocusDown,
            Key::Left | Key::Char('h') => KeyEffect::Adjust(-1i32),
            Key::Right | Key::Char('l') => KeyEffect::Adjust(1i32),
            Key::Enter | Key::Char(' ') => match app.focus {
                Focus::PresetName(i) => if app.presets[i as int] is Some {
                    KeyEffect::StartRename(i)
                } else {
                    KeyEffect::Toggle
                },
                _ => KeyEffect::Toggle,
            },
            Key::Char('s') => if app.active_tab == Tab::Presets {
                match app.focus {
                    Focus::PresetName(i) => KeyEffect::Save(i),
                    Focus::PresetActions(i) => KeyEffect::Save(i),
                    _ => KeyEffect::Ignore,
                }
            } else {
                KeyEffect::Ignore
            },
            Key::Char('d') | Key::Delete => if app.active_tab == Tab::Presets {
                match app.focus {
                    Focus::PresetActions(i) => if app.presets[i as int] is Some {
                        KeyEffect::Remove(i)
                    } else {
                        KeyEffect::Ignore
                    },
                    _ => KeyEffect::Ignore,
                }
            } else {
                KeyEffect::Ignore
            },
            _ => KeyEffect::Ignore,
        }
    }
}

/// The text without its last character; empty text stays empty.
pub open spec fn erase_last(s: Seq<char>) -> Seq<char> {
    if s.len() > 0 {
        s.drop_last()
    } else {
        s
    }
}

/// The app after a preset slot's name changed to `name`, everything else kept.
pub open spec fn renamed(old_app: App, new_app: App, i: int, name: Seq<char>) -> bool {
    &&& new_app.presets[i] is Some
    &&& old_app.presets[i] is Some
    &&& new_app.presets[i]->0.name@ == name
    &&& new_app.presets[i]->0 == (PresetSlot { name: new_app.presets[i]->0.name, ..old_app.presets[i]->0 })
    &&& forall|k: int| 0 <= k < 4 && k != i ==> #[trigger] new_app.presets[k] == old_app.presets[k]
    &&& new_app == (App { presets: new_app.presets, ..old_app })
}

/// What the key press requires of the state: its indices in range and, for
/// an adjustment, arithmetic that fits.
pub open spec fn key_allowed(app: App, code: Key, ctrl: bool, shift: bool) -> bool {
    &&& app.wf()
    &&& key_effect(app, code, ctrl, shift) matches KeyEffect::Adjust(d) ==> adjust_fits(app, d)
}

/// The state and result that a key effect leads to.
pub open spec fn key_outcome(
    old_app: App,
    new_app: App,
    effect: KeyEffect,
    result: Option<DeviceAction>,
) -> bool {
    match effect {
        KeyEffect::Quit => new_app == (App {
            should_quit: old_app.should_quit || !old_app.editing_preset_name,
            ..old_app
        })
            && result is None,
        KeyEffect::FinishRename => {
            let i = old_app.editing_preset_index;
            &&& new_app == (App { editing_preset_name: false, ..old_app })
            &&& result == (if old_app.presets[i as int] is Some {
                Some(DeviceAction::PersistPresetName(i))
            } else {
                None
            })
        },
        KeyEffect::CancelRename => {
            let i = old_app.editing_preset_index as int;
            let stopped = App { editing_preset_name: false, ..old_app };
            &&& result is None
            &&& if old_app.presets[i] is Some {
                renamed(stopped, new_app, i, old_app.preset_name_before_edit@)
            } else {
                new_app == stopped
            }
        },
        KeyEffect::EraseChar => {
            let i = old_app.editing_preset_index as int;
            &&& result is None
            &&& if old_app.presets[i] is Some {
                renamed(old_app, new_app, i, erase_last(old_app.presets[i]->0.name@))
            } else {
                new_app == old_app
            }
        },
        KeyEffect::TypeChar(c) => {
            let i = old_app.editing_preset_index as int;
            &&& result is None
            &&& if old_app.presets[i] is Some && (vstd::utf8::encode_utf8(
                old_app.presets[i]->0.name@,
            ).len() as usize) < MAX_PRESET_NAME_BYTES {
                renamed(old_app, new_app, i, old_app.presets[i]->0.name@.push(c))
            } else {
                new_app == old_app
            }
        },
        KeyEffect::CloseHelp => new_app == (App { help_visible: false, ..old_app }) && result is None,
        KeyEffect::OpenHelp => new_app == (App { help_visible: true, ..old_app }) && result is None,
        KeyEffect::Refresh => new_app == old_app && result == Some(DeviceAction::Refresh),
        KeyEffect::NextTab => new_app == showing(
            old_app,
            seek_right(old_app.active_tab.succ(), old_app.device_state.mode, 5),
        ) && result is None,
        KeyEffect::PrevTab => new_app == showing(
            old_app,
            seek_left(old_app.active_tab.pred(), old_app.device_state.mode, 5),
        ) && result is None,
        KeyEffect::FocusUp => new_app == (App {
            focus: focus_up(
                old_app.active_tab,
                old_app.focus,
                old_app.device_state.mode,
                old_app.eq_selected_band,
            ),
            ..old_app
        }) && result is None,
        KeyEffect::FocusDown => new_app == (App {
            focus: focus_down(
                old_app.active_tab,
                old_app.focus,
                old_app.device_state.mode,
                old_app.eq_selected_band,
            ),
            ..old_app
        }) && result is None,
        KeyEffect::Adjust(d) => {
            let (st, sel, act) = adjust_outcome(old_app, d);
            &&& new_app == (App {
                device_state: state_after(old_app.device_state, st),
                eq_selected_band: sel,
                ..old_app
            })
            &&& result == act
        },
        KeyEffect::StartRename(i) => {
            &&& new_app.preset_name_before_edit@ == old_app.presets[i as int]->0.name@
            &&& new_app == (App {
                editing_preset_name: true,
                editing_preset_index: i,
                preset_name_before_edit: new_app.preset_name_before_edit,
                ..old_app
            })
            &&& result is None
        },
        KeyEffect::Toggle => {
            let (st, f, act) = toggle_outcome(old_app);
            &&& new_app == (App {
                device_state: state_after(old_app.device_state, st),
                focus: f,
                ..old_app
            })
            &&& result == act
        },
        KeyEffect::Save(i) => new_app == old_app && result == Some(DeviceAction::SavePreset(i)),
        KeyEffect::Remove(i) => new_app == old_app && result == Some(DeviceAction::DeletePreset(i)),
        KeyEffect::Ignore => new_app == old_app && result is None,
    }
}

/// Classify a key press.
pub fn classify_key(app: &App, code: Key, ctrl: bool, shift: bool) -> (effect: KeyEffect)
    requires
        app.wf(),
    ensures
        effect == key_effect(*app, code, ctrl, shift),
{
    let is_quit = match code {
        Key::Char(c) => c == 'q' || c == 'Q' || (c == 'c' && ctrl),
        _ => false,
    };
    if is_quit {
        return KeyEffect::Quit;
    }
    if app.editing_preset_name {
        return match code {
            Key::Enter => KeyEffect::FinishRename,
            Key::Esc => KeyEffect::CancelRename,
            Key::Backspace => KeyEffect::EraseChar,
            Key::Char(c) => if !ctrl { KeyEffect::TypeChar(c) } else { KeyEffect::Ignore },
            _ => KeyEffect::Ignore,
        };
    }
    if app.help_visible {
        let closes = match code {
            Key::Char(c) => c == '?',
            Key::Esc => true,
            _ => false,
        };
        return if closes { KeyEffect::CloseHelp } else { KeyEffect::Ignore };
    }
    let on_presets = app.active_tab == Tab::Presets;
    match code {
        Key::Tab => if shift { KeyEffect::PrevTab } else { KeyEffect::NextTab },
        Key::Up => KeyEffect::FocusUp,
        Key::Down => KeyEffect::FocusDown,
        Key::Left => KeyEffect::Adjust(-1i32),
        Key::Right => KeyEffect::Adjust(1i32),
        Key::Enter => enter_effect(app),
        Key::Delete => delete_effect(app, on_presets),
        Key::Char(c) => {
            if c == '?' {
                KeyEffect::OpenHelp
            } else if c == 'r' {
                KeyEffect::Refresh
            } else if c == 'k' {
                KeyEffect::FocusUp
            } else if c == 'j' {
                KeyEffect::FocusDown
            } else if c == 'h' {
                KeyEffect::Adjust(-1)
            } else if c == 'l' {
                KeyEffect::Adjust(1)
            } else if c == ' ' {
                enter_effect(app)
            } else if c == 's' {
                if on_presets {
                    match app.focus {
                        Focus::PresetName(i) => KeyEffect::Save(i),
                        Focus::PresetActions(i) => KeyEffect::Save(i),
                        _ => KeyEffect::Ignore,
                    }
                } else {
                    KeyEffect::Ignore
                }
            } else if c == 'd' {
                delete_effect(app, on_presets)
            } else {
                KeyEffect::Ignore
            }
        },
        _ => KeyEffect::Ignore,
    }
}

fn enter_effect(app: &App) -> (effect: KeyEffect)
    requires
        app.wf(),
    ensures
        effect == (match app.focus {
            Focus::PresetName(i) => if app.presets[i as int] is Some {
                KeyEffect::StartRename(i)
            } else {
                KeyEffect::Toggle
            },
            _ => KeyEffect::Toggle,
        }),
{
    match app.focus {
        Focus::PresetName(i) => if app.presets[i].is_some() {
            KeyEffect::StartRename(i)
        } else {
            KeyEffect::Toggle
        },
        _ => KeyEffect::Toggle,
    }
}

fn delete_effect(app: &App, on_presets: bool) -> (effect: KeyEffect)
    requires
        app.wf(),
        on_presets == (app.active_tab == Tab::Presets),
    ensures
        effect == (if on_presets {
            match app.focus {
                Focus::PresetActions(i) => if app.presets[i as int] is Some {
                    KeyEffect::Remove(i)
                } else {
                    KeyEffect::Ignore
                },
                _ => KeyEffect::Ignore,
            }
        } else {
            KeyEffect::Ignore
        }),
{
    if on_presets {
        match app.focus {
            Focus::PresetActions(i) => if app.presets[i].is_some() {
                KeyEffect::Remove(i)
            } else {
                KeyEffect::Ignore
            },
            _ => KeyEffect::Ignore,
        }
    } else {
        KeyEffect::Ignore
    }
}

/// Start renaming the filled slot `i`, remembering its current name.
fn start_rename(app: &mut App, i: usize)
    requires
        old(app).wf(),
        i < PRESET_COUNT,
        old(app).presets[i as int] is Some,
    ensures
        key_outcome(*old(app), *final(app), KeyEffect::StartRename(i), None),
{
    let before = match &app.presets[i] {
        Some(slot) => String::from_str(slot.name.as_str()),
        None => String::new(),
    };
    app.preset_name_before_edit = before;
    app.editing_preset_name = true;
    app.editing_preset_index = i;
}

/// Stop renaming and put back the name the slot had when renaming started.
fn cancel_rename(app: &mut App)
    requires
        old(app).wf(),
    ensures
        key_outcome(*old(app), *final(app), KeyEffect::CancelRename, None),
{
    app.editing_preset_name = false;
    let i = app.editing_preset_index;
    if app.presets[i].is_some() {
        let current = app.presets[i].take();
        match current {
            Some(mut slot) => {
                slot.name = String::from_str(app.preset_name_before_edit.as_str());
                app.presets[i] = Some(slot);
            },
            None => {},
        }
    }
}

/// Drop the last character of the name being edited.
fn erase_name_char(app: &mut App)
    requires
        old(app).wf(),
    ensures
        key_outcome(*old(app), *final(app), KeyEffect::EraseChar, None),
{
    let i = app.editing_preset_index;
    if app.presets[i].is_some() {
        let current = app.presets[i].take();
        match current {
            Some(mut slot) => {
                let _ = pop_char(&mut slot.name);
                app.presets[i] = Some(slot);
            },
            None => {},
        }
    }
}

/// Append a character to the name being edited, if it is short enough.
fn type_name_char(app: &mut App, c: char)
    requires
        old(app).wf(),
    ensures
        key_outcome(*old(app), *final(app), KeyEffect::TypeChar(c), None),
{
    let i = app.editing_preset_index;
    let fits = match &app.presets[i] {
        Some(slot) => slot.name.as_str().len() < MAX_PRESET_NAME_BYTES,
        None => false,
    };
    if fits {
        let current = app.presets[i].take();
        match current {
            Some(mut slot) => {
                push_char(&mut slot.name, c);
                app.presets[i] = Some(slot);
            },
            None => {},
        }
    }
}

/// Whether [`handle_key`] may be called on this state and key: the app's
/// indices are in range and, for an adjustment, its arithmetic fits.
pub fn can_handle_key(app: &App, code: Key, ctrl: bool, shift: bool) -> (r: bool)
    ensures
        r == key_allowed(*app, code, ctrl, shift),
{
    let focus_ok = match app.focus {
        Focus::EqBandEnable(b) => b < 5,
        Focus::EqGain(b) => b < 5,
        Focus::PresetName(i) => i < PRESET_COUNT,
        Focus::PresetActions(i) => i < PRESET_COUNT,
        _ => true,
    };
    if !(app.eq_selected_band < 5 && focus_ok && app.editing_preset_index < PRESET_COUNT) {
        return false;
    }
    match classify_key(app, code, ctrl, shift) {
        KeyEffect::Adjust(d) => match app.focus {
            Focus::Gain => !(d > 0) || app.device_state.gain_db < 255,
            Focus::MonitorMix => !(d > 0) || app.device_state.monitor_mix <= 250,
            Focus::EqBandSelect => if d > 0 {
                app.eq_selected_band < usize::MAX
            } else {
                app.eq_selected_band <= usize::MAX - 4
            },
            Focus::EqGain(b) => {
                if -1073741824 <= d && d <= 1073741823 {
                    let g = app.device_state.eq_bands[b].gain_db as i64 + (d as i64) * 2;
                    -2147483648 <= g && g <= 2147483647
                } else {
                    false
                }
            },
            _ => true,
        },
        _ => true,
    }
}

/// Handle one key press: update the app state and return the device action
/// the press asks for, if any.
pub fn handle_key(app: &mut App, code: Key, ctrl: bool, shift: bool) -> (result: Option<DeviceAction>)
    requires
        key_allowed(*old(app), code, ctrl, shift),
    ensures
        key_outcome(*old(app), *final(app), key_effect(*old(app), code, ctrl, shift), result),
{
    let effect = classify_key(app, code, ctrl, shift);
    match effect {
        KeyEffect::Quit => {
            // Quitting is blocked while a preset name is edited; Esc ends editing first.
            if !app.editing_preset_name {
                app.should_quit = true;
            }
            assert(*app == (App {
                should_quit: old(app).should_quit || !old(app).editing_preset_name,
                ..*old(app)
            }));
            None
        },
        KeyEffect::FinishRename => {
            app.editing_preset_name = false;
            let i = app.editing_preset_index;
            if app.presets[i].is_some() {
                Some(DeviceAction::PersistPresetName(i))
            } else {
                None
            }
        },
        KeyEffect::CancelRename => {
            cancel_rename(app);
            None
        },
        KeyEffect::EraseChar => {
            erase_name_char(app);
            None
        },
        KeyEffect::TypeChar(c) => {
            type_name_char(app, c);
            None
        },
        KeyEffect::CloseHelp => {
            app.help_visible = false;
            None
        },
        KeyEffect::OpenHelp => {
            app.help_visible = true;
            None
        },
        KeyEffect::Refresh => Some(DeviceAction::Refresh),
        KeyEffect::NextTab => {
            app.next_tab();
            None
        },
        KeyEffect::PrevTab => {
            app.prev_tab();
            None
        },
        KeyEffect::FocusUp => {
            app.focus_prev();
            None
        },
        KeyEffect::FocusDown => {
            app.focus_next();
            None
        },
        KeyEffect::Adjust(d) => app.adjust_focused(d),
        KeyEffect::StartRename(i) => {
            start_rename(app, i);
            None
        },
        KeyEffect::Toggle => app.toggle_focused(),
        KeyEffect::Save(i) => Some(DeviceAction::SavePreset(i)),
        KeyEffect::Remove(i) => Some(DeviceAction::DeletePreset(i)),
        KeyEffect::Ignore => None,
    }
}

} // verus!
