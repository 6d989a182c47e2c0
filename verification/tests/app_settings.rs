use sysmon::logger::LogLevel;
use sysmon::settings::{
    apply_always_on_top_setting, apply_taskbar_setting, get_always_on_top, get_log_level,
    get_net_unit, get_taskbar_visible, set_always_on_top, set_log_level, set_net_unit,
    set_taskbar_visible, speed_unit_setting, startup_log_level,
    toggle_taskbar_setting, AppSettings, WindowVisibility,
};
use sysmon::sys_info::SpeedUnit;

#[test]
fn defaults_of_empty_settings() {
    let s = AppSettings::default();
    assert!(!get_taskbar_visible(&s));
    assert!(get_always_on_top(&s));
    assert_eq!(startup_log_level(&s), LogLevel::Info);
    assert_eq!(speed_unit_setting(&s), SpeedUnit::Auto);
    assert_eq!(apply_taskbar_setting(&s), Some(WindowVisibility::Hide));
    assert!(apply_always_on_top_setting(&s));
}

#[test]
fn set_then_get_taskbar_visible() {
    let mut s = AppSettings::empty();
    assert_eq!(set_taskbar_visible(&mut s, true), WindowVisibility::Show);
    assert!(get_taskbar_visible(&s));
    assert_eq!(s.taskbar_visible, Some(true));
    assert_eq!(apply_taskbar_setting(&s), None);
    assert_eq!(set_taskbar_visible(&mut s, false), WindowVisibility::Hide);
    assert!(!get_taskbar_visible(&s));
    assert_eq!(s.taskbar_visible, Some(false));
    assert_eq!(s.always_on_top, None);
}

#[test]
fn set_then_get_always_on_top() {
    let mut s = AppSettings::empty();
    assert!(!set_always_on_top(&mut s, false));
    assert!(!get_always_on_top(&s));
    assert!(!apply_always_on_top_setting(&s));
    assert_eq!(s.taskbar_visible, None);
    assert!(set_always_on_top(&mut s, true));
    assert!(get_always_on_top(&s));
}

#[test]
fn toggling_twice_restores_visibility() {
    let mut s = AppSettings::empty();
    assert!(toggle_taskbar_setting(&mut s));
    assert!(get_taskbar_visible(&s));
    assert!(!toggle_taskbar_setting(&mut s));
    assert!(!get_taskbar_visible(&s));
    assert_eq!(s.taskbar_visible, Some(false));
}

#[test]
fn stored_level_and_unit_are_read() {
    let s = AppSettings {
        taskbar_visible: None,
        always_on_top: None,
        log_level: Some("Debug".to_string()),
        net_unit: Some("mb".to_string()),
    };
    assert_eq!(startup_log_level(&s), LogLevel::Debug);
    assert_eq!(speed_unit_setting(&s), SpeedUnit::Mb);
    let odd = AppSettings {
        taskbar_visible: None,
        always_on_top: None,
        log_level: Some("loud".to_string()),
        net_unit: Some("gb".to_string()),
    };
    assert_eq!(startup_log_level(&odd), LogLevel::Info);
    assert_eq!(speed_unit_setting(&odd), SpeedUnit::Auto);
}

#[test]
fn set_then_get_log_level_and_unit() {
    let mut s = AppSettings::empty();
    assert_eq!(get_log_level(&s), LogLevel::Info);
    assert_eq!(set_log_level(&mut s, "TRACE".to_string()), LogLevel::Trace);
    assert_eq!(get_log_level(&s), LogLevel::Trace);
    assert_eq!(s.log_level.as_deref(), Some("TRACE"));
    assert_eq!(set_log_level(&mut s, "chatty".to_string()), LogLevel::Info);
    assert_eq!(get_log_level(&s), LogLevel::Info);

    assert_eq!(get_net_unit(&s), SpeedUnit::Auto);
    assert_eq!(set_net_unit(&mut s, "kb".to_string()), SpeedUnit::Kb);
    assert_eq!(get_net_unit(&s), SpeedUnit::Kb);
    assert_eq!(set_net_unit(&mut s, "auto".to_string()), SpeedUnit::Auto);
    assert_eq!(s.net_unit.as_deref(), Some("auto"));
    assert_eq!(s.taskbar_visible, None);
    assert_eq!(s.always_on_top, None);
}
