use sysmon::settings::{get_taskbar_visible, AppSettings};
use sysmon::taskbar_window::{mark_embedded, TaskbarEmbedding};
use sysmon::tray_popup_window::{
    end_blur_protection, hide_tray_popup, show_main_entry, MainWindowCommand, hide_tray_popup_cmd, show_tray_popup,
    toggle_taskbar_visible, tray_popup_action, PopupAction, PopupState, PopupToggle,
    TaskbarCommand,
};

#[test]
fn show_request_toggles_the_popup() {
    let mut p = PopupState::new();
    assert_eq!(show_tray_popup(&mut p), PopupToggle::Show);
    assert!(p.visible && p.suppress_blur_hide);
    assert_eq!(show_tray_popup(&mut p), PopupToggle::Hide);
    assert!(!p.visible);
}

#[test]
fn blur_is_ignored_during_protection() {
    let mut p = PopupState::new();
    show_tray_popup(&mut p);
    assert!(!hide_tray_popup_cmd(&mut p));
    assert!(p.visible);
    assert!(end_blur_protection(&mut p));
    assert!(!p.suppress_blur_hide);
    assert!(hide_tray_popup_cmd(&mut p));
    assert!(!p.visible);
    assert!(!end_blur_protection(&mut p));
}

#[test]
fn hiding_is_idempotent() {
    let mut p = PopupState::new();
    assert!(!hide_tray_popup(&mut p));
    show_tray_popup(&mut p);
    assert!(hide_tray_popup(&mut p));
    assert!(!hide_tray_popup(&mut p));
    assert!(!p.visible);
}

#[test]
fn menu_entries() {
    assert_eq!(tray_popup_action("show"), PopupAction::ShowMain);
    assert_eq!(tray_popup_action("settings"), PopupAction::OpenSettings);
    assert_eq!(tray_popup_action("quit"), PopupAction::Quit);
    assert_eq!(tray_popup_action("Quit"), PopupAction::Ignore);
    assert_eq!(tray_popup_action(""), PopupAction::Ignore);
    assert_eq!(tray_popup_action("show "), PopupAction::Ignore);
}

#[test]
fn toggling_taskbar_from_popup() {
    let mut popup = PopupState::new();
    show_tray_popup(&mut popup);
    let mut settings = AppSettings::empty();
    let mut embedding = TaskbarEmbedding::new();

    let t = toggle_taskbar_visible(&mut popup, &mut settings, &embedding);
    assert!(t.hide_popup && t.visible);
    assert_eq!(t.command, None);
    assert!(!popup.visible);
    assert!(get_taskbar_visible(&settings));

    let t = toggle_taskbar_visible(&mut popup, &mut settings, &embedding);
    assert!(!t.hide_popup && !t.visible);
    assert_eq!(t.command, Some(TaskbarCommand::Hide));

    mark_embedded(&mut embedding);
    let t = toggle_taskbar_visible(&mut popup, &mut settings, &embedding);
    assert!(t.visible);
    assert_eq!(t.command, Some(TaskbarCommand::ShowAndReposition));
}

#[test]
fn show_entry_shows_and_focuses_main() {
    let mut popup = PopupState::new();
    show_tray_popup(&mut popup);
    let o = show_main_entry(&mut popup);
    assert!(o.hide_popup);
    assert!(!popup.visible);
    assert_eq!(o.command, MainWindowCommand::ShowAndFocus);
    assert!(o.main_visible);
    let again = show_main_entry(&mut popup);
    assert!(!again.hide_popup);
    assert_eq!(again.command, MainWindowCommand::ShowAndFocus);
    assert!(again.main_visible);
}
