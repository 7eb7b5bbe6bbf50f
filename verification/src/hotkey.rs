//! The global shortcut and the record button: what they start and stop.

use vstd::prelude::*;

use crate::settings::HotkeyMode;
use crate::state::AppState;

verus! {

/// What happened to the keys of the shortcut.
#[derive(Debug, Clone, Copy, PartialEq, Eq, Structural)]
pub enum KeyState {
    Pressed,
    Released,
}

/// What is to happen to the recording.
#[derive(Debug, Clone, Copy, PartialEq, Eq, Structural)]
pub enum RecordAction {
    Start,
    Stop,
    Nothing,
}

/// What a toggle does: it starts from idle and stops a recording; whoever
/// asks in between has to wait.
pub open spec fn toggled(state: AppState) -> RecordAction {
    match state {
        AppState::Idle => RecordAction::Start,
        AppState::Recording => RecordAction::Stop,
        _ => RecordAction::Nothing,
    }
}

/// What a stroke of the shortcut does.
pub open spec fn action_for(mode: HotkeyMode, key: KeyState, state: AppState) -> RecordAction {
    match (mode, key) {
        (HotkeyMode::PushToTalk, KeyState::Pressed) => RecordAction::Start,
        (HotkeyMode::PushToTalk, KeyState::Released) => RecordAction::Stop,
        (HotkeyMode::Toggle, KeyState::Pressed) => toggled(state),
        (HotkeyMode::Toggle, KeyState::Released) => RecordAction::Nothing,
    }
}

/// What the record button does.
pub fn toggle_recording(state: AppState) -> (r: RecordAction)
    ensures
        r == toggled(state),
{
    match state {
        AppState::Idle => RecordAction::Start,
        AppState::Recording => RecordAction::Stop,
        _ => RecordAction::Nothing,
    }
}

/// What a stroke of the shortcut does.
pub fn on_shortcut(mode: HotkeyMode, key: KeyState, state: AppState) -> (r: RecordAction)
    ensures
        r == action_for(mode, key, state),
{
    let pressed = key == KeyState::Pressed;
    match mode {
        HotkeyMode::PushToTalk => {
            if pressed {
                RecordAction::Start
            } else {
                RecordAction::Stop
            }
        },
        HotkeyMode::Toggle => {
            if pressed {
                toggle_recording(state)
            } else {
                RecordAction::Nothing
            }
        },
    }
}

/// The message for a shortcut that cannot be read, with the reason.
pub fn invalid_hotkey(hotkey: &str, reason: &str) -> (r: String)
    ensures
        r@ == "Geçersiz kısayol '"@ + hotkey@ + "': "@ + reason@,
{
    let mut r = "Geçersiz kısayol '".to_owned();
    r.append(hotkey);
    r.append("': ");
    r.append(reason);
    r
}

/// In toggle mode only the press counts, and in push-to-talk mode the
/// recording follows the keys whatever the state is.
pub proof fn law_toggle_ignores_release(state: AppState)
    ensures
        action_for(HotkeyMode::Toggle, KeyState::Released, state) == RecordAction::Nothing,
        action_for(HotkeyMode::PushToTalk, KeyState::Pressed, state) == RecordAction::Start,
        action_for(HotkeyMode::PushToTalk, KeyState::Released, state) == RecordAction::Stop,
{
}

/// A toggle starts a recording from idle, stops one that runs, and does
/// nothing while the application is busy; the button and the shortcut in toggle
/// mode do the same.
pub proof fn law_toggle_starts_and_stops(state: AppState)
    ensures
        toggled(state) == RecordAction::Start <==> state == AppState::Idle,
        toggled(state) == RecordAction::Stop <==> state == AppState::Recording,
        action_for(HotkeyMode::Toggle, KeyState::Pressed, state) == toggled(state),
{
}

} // verus!
