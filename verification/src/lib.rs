//! A system monitor's decision logic: log level names, network interface
//! accounting and speed sampling, persisted settings, the taskbar window's
//! embedding and placement, the tray popup, and window routing.

pub mod text;
pub mod logger;
pub mod sys_info;
pub mod settings;
pub mod taskbar_window;
pub mod tray_popup_window;
pub mod tray;
pub mod window_rules;
pub mod gpu;
