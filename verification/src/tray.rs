//! What a click on the tray icon does.

use vstd::prelude::*;

verus! {

/// A mouse button.
#[derive(Clone, Copy, Debug, PartialEq, Eq, Structural)]
pub enum MouseButton {
    Left,
    Right,
    Middle,
}

/// Whether a mouse button went down or came up.
#[derive(Clone, Copy, Debug, PartialEq, Eq, Structural)]
pub enum ButtonState {
    Up,
    Down,
}

/// A tray icon event: a click, or anything else (double click, the pointer
/// entering, moving over or leaving the icon).
#[derive(Clone, Copy, Debug, PartialEq, Eq, Structural)]
pub enum TrayEvent {
    Click { button: MouseButton, state: ButtonState },
    Other,
}

/// The response to a tray icon event.
#[derive(Clone, Copy, Debug, PartialEq, Eq, Structural)]
pub enum TrayResponse {
    /// Hide the popup, then show and focus the main window.
    ShowMain,
    /// Show the popup menu above the icon (or hide it when it is shown).
    ShowPopup,
    /// Nothing.
    Nothing,
}

/// The response that an event calls for: releasing the left button shows the
/// main window, releasing the right button opens the popup menu.
pub open spec fn tray_response(event: TrayEvent) -> TrayResponse {
    match event {
        TrayEvent::Click { button: MouseButton::Left, state: ButtonState::Up } => TrayResponse::ShowMain,
        TrayEvent::Click { button: MouseButton::Right, state: ButtonState::Up } => TrayResponse::ShowPopup,
        _ => TrayResponse::Nothing,
    }
}

/// Pressing a button never does anything; the popup opens only when the right
/// button is released and the main window is shown only when the left button
/// is released.
pub proof fn lemma_only_releases_respond(button: MouseButton, event: TrayEvent)
    ensures
        tray_response(TrayEvent::Click { button, state: ButtonState::Down }) == TrayResponse::Nothing,
        tray_response(event) == TrayResponse::ShowPopup <==> event == (TrayEvent::Click {
            button: MouseButton::Right,
            state: ButtonState::Up,
        }),
        tray_response(event) == TrayResponse::ShowMain <==> event == (TrayEvent::Click {
            button: MouseButton::Left,
            state: ButtonState::Up,
        }),
        tray_response(TrayEvent::Other) == TrayResponse::Nothing,
{
}

/// Decides how to respond to a tray icon event.
pub fn on_tray_icon_event(event: TrayEvent) -> (response: TrayResponse)
    ensures
        response == tray_response(event),
        (event matches TrayEvent::Click { state: ButtonState::Down, .. }) ==> response
            == TrayResponse::Nothing,
        response == TrayResponse::ShowPopup ==> event == (TrayEvent::Click {
            button: MouseButton::Right,
            state: ButtonState::Up,
        }),
{
    match event {
        TrayEvent::Click { button: MouseButton::Left, state: ButtonState::Up } => TrayResponse::ShowMain,
        TrayEvent::Click { button: MouseButton::Right, state: ButtonState::Up } => TrayResponse::ShowPopup,
        _ => TrayResponse::Nothing,
    }
}

} // verus!
