use sysmon::gpu::{counter_array_readable, is_3d_engine_instance, PDH_MORE_DATA};
use sysmon::taskbar_window::Rect;
use sysmon::tray::{on_tray_icon_event, ButtonState, MouseButton, TrayEvent, TrayResponse};
use sysmon::window_rules::{close_request_action, region_representable, rounded_region, with_drop_shadow, CloseAction, RoundedRegion};

#[test]
fn close_requests_by_window() {
    assert_eq!(close_request_action("main"), CloseAction::Hide);
    assert_eq!(close_request_action("taskbar"), CloseAction::Keep);
    assert_eq!(close_request_action("settings"), CloseAction::Hide);
    assert_eq!(close_request_action("tray-popup"), CloseAction::Close);
    assert_eq!(close_request_action("Main"), CloseAction::Close);
}

#[test]
fn rounded_region_of_window() {
    let r = rounded_region(Rect { left: 100, top: 200, right: 360, bottom: 290 });
    assert_eq!(r, RoundedRegion { right: 261, bottom: 91, ellipse_width: 16, ellipse_height: 16 });
}

#[test]
fn drop_shadow_bit() {
    assert_eq!(with_drop_shadow(0), 0x20000);
    assert_eq!(with_drop_shadow(0x20000), 0x20000);
    assert_eq!(with_drop_shadow(0x1234), 0x21234);
}

#[test]
fn tray_clicks() {
    let click = |button, state| TrayEvent::Click { button, state };
    assert_eq!(on_tray_icon_event(click(MouseButton::Left, ButtonState::Up)), TrayResponse::ShowMain);
    assert_eq!(on_tray_icon_event(click(MouseButton::Right, ButtonState::Up)), TrayResponse::ShowPopup);
    assert_eq!(on_tray_icon_event(click(MouseButton::Left, ButtonState::Down)), TrayResponse::Nothing);
    assert_eq!(on_tray_icon_event(click(MouseButton::Middle, ButtonState::Up)), TrayResponse::Nothing);
    assert_eq!(on_tray_icon_event(TrayEvent::Other), TrayResponse::Nothing);
}

#[test]
fn gpu_instances_and_counter_reading() {
    assert!(is_3d_engine_instance("pid_1234_luid_0x00000000_0x0000D1E5_phys_0_eng_0_engtype_3D"));
    assert!(!is_3d_engine_instance("pid_1234_luid_0x00000000_0x0000D1E5_phys_0_eng_1_engtype_Copy"));
    assert!(!is_3d_engine_instance("engtype_3d"));
    assert!(counter_array_readable(PDH_MORE_DATA, 512, 3));
    assert!(counter_array_readable(0xC0000BC6, 512, 3));
    assert!(!counter_array_readable(0, 0, 3));
    assert!(!counter_array_readable(0, 512, 0));
    assert!(!counter_array_readable(0xC0000BC6, 0, 0));
}

#[test]
fn region_range_check() {
    assert!(region_representable(Rect { left: 0, top: 0, right: 300, bottom: 100 }));
    assert!(!region_representable(Rect { left: -1, top: 0, right: i32::MAX, bottom: 100 }));
    assert!(!region_representable(Rect { left: 0, top: i32::MIN, right: 10, bottom: i32::MAX }));
}
