//! The tray popup menu: when it is shown or hidden, the short protection
//! period after it appears during which losing focus does not hide it, and
//! what its menu entries do.

use vstd::prelude::*;

use crate::settings::{taskbar_visible_of, toggle_taskbar_setting, with_taskbar_visible, AppSettings};
use crate::taskbar_window::{is_embedded, TaskbarEmbedding};
use crate::text::{chars_equal, chars_of};

verus! {

/// Whether the popup is shown, and whether a hide caused by losing focus is
/// currently ignored (the half second after the popup appears).
#[derive(Clone, Copy, Debug, PartialEq, Eq, Structural)]
pub struct PopupState {
    pub visible: bool,
    pub suppress_blur_hide: bool,
}

/// What a request to show the popup does: it hides a shown popup (toggle)
/// and otherwise shows it, focuses it and starts the protection period.
#[derive(Clone, Copy, Debug, PartialEq, Eq, Structural)]
pub enum PopupToggle {
    Hide,
    Show,
}

impl PopupState {
    /// The state at startup: hidden, no protection period.
    pub fn new() -> (state: PopupState)
        ensures
            !state.visible,
            !state.suppress_blur_hide,
    {
        PopupState { visible: false, suppress_blur_hide: false }
    }
}

/// The state after a show request, and what the request does.
pub open spec fn after_show_request(s: PopupState) -> (PopupState, PopupToggle) {
    if s.visible {
        (PopupState { visible: false, ..s }, PopupToggle::Hide)
    } else {
        (PopupState { visible: true, suppress_blur_hide: true }, PopupToggle::Show)
    }
}

/// The state after a hide request, and whether the window is to be hidden.
pub open spec fn after_hide(s: PopupState) -> (PopupState, bool) {
    if s.visible {
        (PopupState { visible: false, ..s }, true)
    } else {
        (s, false)
    }
}

/// The state after the popup's page reports that it lost focus.
pub open spec fn after_blur_hide(s: PopupState) -> (PopupState, bool) {
    if s.suppress_blur_hide {
        (s, false)
    } else {
        after_hide(s)
    }
}

/// Shows the popup near the tray icon, or hides it when it is shown.
pub fn show_tray_popup(state: &mut PopupState) -> (toggle: PopupToggle)
    ensures
        (*final(state), toggle) == after_show_request(*old(state)),
{
    if state.visible {
        state.visible = false;
        PopupToggle::Hide
    } else {
        state.visible = true;
        state.suppress_blur_hide = true;
        PopupToggle::Show
    }
}

/// Hides the popup; returns whether its window is to be hidden (it is not
/// when the popup is not shown).
pub fn hide_tray_popup(state: &mut PopupState) -> (hide: bool)
    ensures
        (*final(state), hide) == after_hide(*old(state)),
{
    if !state.visible {
        return false;
    }
    state.visible = false;
    true
}

/// A hide requested because the popup lost focus: ignored during the
/// protection period, otherwise as `hide_tray_popup`.
pub fn hide_tray_popup_cmd(state: &mut PopupState) -> (hide: bool)
    ensures
        (*final(state), hide) == after_blur_hide(*old(state)),
{
    if state.suppress_blur_hide {
        return false;
    }
    hide_tray_popup(state)
}

/// Ends the protection period; returns whether the popup is still shown (and
/// is then to be focused again).
pub fn end_blur_protection(state: &mut PopupState) -> (refocus: bool)
    ensures
        *final(state) == (PopupState { suppress_blur_hide: false, ..*old(state) }),
        refocus == old(state).visible,
{
    state.suppress_blur_hide = false;
    state.visible
}

/// Losing focus right after the popup appeared never hides it; two show
/// requests in a row leave it as it was; hiding twice is hiding once.
pub proof fn lemma_popup_laws(s: PopupState)
    ensures
        after_show_request(s).1 == PopupToggle::Show ==> {
            let shown = after_show_request(s).0;
            &&& !after_blur_hide(shown).1
            &&& after_blur_hide(shown).0.visible
        },
        after_show_request(after_show_request(s).0).0.visible == s.visible,
        after_hide(after_hide(s).0) == (after_hide(s).0, false),
        !after_hide(s).0.visible,
{
}

/// A show request always flips whether the popup is shown.
pub proof fn lemma_show_request_toggles(s: PopupState)
    ensures
        after_show_request(s).0.visible == !s.visible,
        after_show_request(s).1 == (if s.visible {
            PopupToggle::Hide
        } else {
            PopupToggle::Show
        }),
{
}

// ---------------------------------------------------------------------------
// Menu entries
// ---------------------------------------------------------------------------

/// A menu entry of the popup.
#[derive(Clone, Copy, Debug, PartialEq, Eq, Structural)]
pub enum PopupAction {
    /// Show and focus the main window (see `show_main_entry`).
    ShowMain,
    /// Show and focus the settings window.
    OpenSettings,
    /// Detach the taskbar window, release the GPU counters and exit.
    Quit,
    /// Anything else: nothing beyond hiding the popup.
    Ignore,
}

/// The entry that an action name selects.
pub open spec fn popup_action_named(action: Seq<char>) -> PopupAction {
    if action == seq!['s', 'h', 'o', 'w'] {
        PopupAction::ShowMain
    } else if action == seq!['s', 'e', 't', 't', 'i', 'n', 'g', 's'] {
        PopupAction::OpenSettings
    } else if action == seq!['q', 'u', 'i', 't'] {
        PopupAction::Quit
    } else {
        PopupAction::Ignore
    }
}

/// The popup menu entry named by `action`; the popup itself is hidden first
/// whatever the entry is (see `hide_tray_popup`).
pub fn tray_popup_action(action: &str) -> (entry: PopupAction)
    ensures
        entry == popup_action_named(action@),
{
    let chars = chars_of(action);
    let show: [char; 4] = ['s', 'h', 'o', 'w'];
    let settings: [char; 8] = ['s', 'e', 't', 't', 'i', 'n', 'g', 's'];
    let quit: [char; 4] = ['q', 'u', 'i', 't'];
    assert(show@ =~= seq!['s', 'h', 'o', 'w']);
    assert(settings@ =~= seq!['s', 'e', 't', 't', 'i', 'n', 'g', 's']);
    assert(quit@ =~= seq!['q', 'u', 'i', 't']);
    if chars_equal(chars.as_slice(), &show) {
        PopupAction::ShowMain
    } else if chars_equal(chars.as_slice(), &settings) {
        PopupAction::OpenSettings
    } else if chars_equal(chars.as_slice(), &quit) {
        PopupAction::Quit
    } else {
        PopupAction::Ignore
    }
}

/// What to do with the main window.
#[derive(Clone, Copy, Debug, PartialEq, Eq, Structural)]
pub enum MainWindowCommand {
    /// Show it and give it the focus.
    ShowAndFocus,
}

/// The outcome of the popup's "show" entry.
#[derive(Clone, Copy, Debug, PartialEq, Eq, Structural)]
pub struct ShowMainOutcome {
    /// Whether the popup window is to be hidden first.
    pub hide_popup: bool,
    /// The command for the main window.
    pub command: MainWindowCommand,
    /// Whether the main window is visible afterwards (announced to the popup).
    pub main_visible: bool,
}

/// The popup's "show" entry: the popup is hidden, and the main window is shown
/// and focused whatever its state, so it is visible afterwards.
pub fn show_main_entry(popup: &mut PopupState) -> (outcome: ShowMainOutcome)
    ensures
        (*final(popup), outcome.hide_popup) == after_hide(*old(popup)),
        outcome.command == MainWindowCommand::ShowAndFocus,
        outcome.main_visible,
{
    let hide_popup = hide_tray_popup(popup);
    ShowMainOutcome { hide_popup, command: MainWindowCommand::ShowAndFocus, main_visible: true }
}

// ---------------------------------------------------------------------------
// Toggling the taskbar window from the popup
// ---------------------------------------------------------------------------

/// What to do with the taskbar window after its visibility was toggled.
#[derive(Clone, Copy, Debug, PartialEq, Eq, Structural)]
pub enum TaskbarCommand {
    /// Show it without activating it and move it into place.
    ShowAndReposition,
    /// Hide it.
    Hide,
}

/// The outcome of the popup's taskbar entry.
#[derive(Clone, Copy, Debug, PartialEq, Eq, Structural)]
pub struct TaskbarToggle {
    /// Whether the popup window is to be hidden first.
    pub hide_popup: bool,
    /// The new stored visibility (also announced to all windows).
    pub visible: bool,
    /// The command for the taskbar window: showing happens only once it is
    /// embedded.
    pub command: Option<TaskbarCommand>,
}

/// The taskbar window command for a new visibility.
pub open spec fn taskbar_command(visible: bool, embedded: bool) -> Option<TaskbarCommand> {
    if visible {
        if embedded {
            Some(TaskbarCommand::ShowAndReposition)
        } else {
            None
        }
    } else {
        Some(TaskbarCommand::Hide)
    }
}

/// Turning the taskbar window off always hides it, whether or not it is
/// embedded; it is shown (and moved into place) only when it was turned on and
/// is embedded; turning it on before it is embedded leaves it as it is.
pub proof fn lemma_taskbar_command_follows_visibility(visible: bool, embedded: bool)
    ensures
        !visible ==> taskbar_command(visible, embedded) == Some(TaskbarCommand::Hide),
        taskbar_command(visible, embedded) == Some(TaskbarCommand::ShowAndReposition) <==> (visible
            && embedded),
        taskbar_command(visible, embedded) is None <==> (visible && !embedded),
{
}

/// Toggling twice hides and shows the window in turn: of the commands of two
/// successive toggles from the popup, exactly one is a hide.
pub proof fn lemma_successive_toggles_alternate(visible: bool, embedded: bool)
    ensures
        (taskbar_command(visible, embedded) == Some(TaskbarCommand::Hide)) != (taskbar_command(
            !visible,
            embedded,
        ) == Some(TaskbarCommand::Hide)),
{
}

/// Hides the popup, flips the stored taskbar visibility and decides what to
/// do with the taskbar window.
pub fn toggle_taskbar_visible(
    popup: &mut PopupState,
    settings: &mut AppSettings,
    embedding: &TaskbarEmbedding,
) -> (toggle: TaskbarToggle)
    ensures
        (*final(popup), toggle.hide_popup) == after_hide(*old(popup)),
        toggle.visible == !taskbar_visible_of(old(settings)@),
        final(settings)@ == with_taskbar_visible(old(settings)@, toggle.visible),
        toggle.command == taskbar_command(toggle.visible, embedding.embedded),
        !toggle.visible ==> toggle.command == Some(TaskbarCommand::Hide),
        toggle.command == Some(TaskbarCommand::ShowAndReposition) ==> toggle.visible
            && embedding.embedded,
        toggle.command is None ==> toggle.visible && !embedding.embedded,
{
    let hide_popup = hide_tray_popup(popup);
    let visible = toggle_taskbar_setting(settings);
    let command = if visible {
        if is_embedded(embedding) {
            Some(TaskbarCommand::ShowAndReposition)
        } else {
            None
        }
    } else {
        Some(TaskbarCommand::Hide)
    };
    TaskbarToggle { hide_popup, visible, command }
}

} // verus!
