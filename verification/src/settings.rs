//! The persisted user settings and what each of them means when it is read,
//! written or applied at startup. Reading and writing the settings file is the
//! caller's part; every absent setting has its documented default.

use vstd::prelude::*;

use crate::logger::{level_from_str, level_named, LogLevel};
use crate::sys_info::{speed_unit_from_str, speed_unit_named, SpeedUnit};

verus! {

/// The settings as stored in `settings.json`; a missing key is `None`.
pub struct AppSettings {
    pub taskbar_visible: Option<bool>,
    pub always_on_top: Option<bool>,
    pub log_level: Option<String>,
    pub net_unit: Option<String>,
}

/// The content of the settings, with the texts as character sequences.
pub struct SettingsView {
    pub taskbar_visible: Option<bool>,
    pub always_on_top: Option<bool>,
    pub log_level: Option<Seq<char>>,
    pub net_unit: Option<Seq<char>>,
}

/// The characters of an optional text.
pub open spec fn opt_text(t: Option<String>) -> Option<Seq<char>> {
    match t {
        Some(s) => Some(s@),
        None => None,
    }
}

impl View for AppSettings {
    type V = SettingsView;

    open spec fn view(&self) -> SettingsView {
        SettingsView {
            taskbar_visible: self.taskbar_visible,
            always_on_top: self.always_on_top,
            log_level: opt_text(self.log_level),
            net_unit: opt_text(self.net_unit),
        }
    }
}

/// The settings of a fresh installation: nothing stored.
pub open spec fn no_settings() -> SettingsView {
    SettingsView { taskbar_visible: None, always_on_top: None, log_level: None, net_unit: None }
}

/// Whether the taskbar speed window is shown (hidden unless stored otherwise).
pub open spec fn taskbar_visible_of(s: SettingsView) -> bool {
    match s.taskbar_visible {
        Some(v) => v,
        None => false,
    }
}

/// Whether the main window stays on top (on unless stored otherwise).
pub open spec fn always_on_top_of(s: SettingsView) -> bool {
    match s.always_on_top {
        Some(v) => v,
        None => true,
    }
}

/// The log level used at startup (`Info` unless a level name is stored).
pub open spec fn log_level_of(s: SettingsView) -> LogLevel {
    match s.log_level {
        Some(name) => level_named(name),
        None => LogLevel::Info,
    }
}

/// The unit in which speeds are shown (automatic unless a unit is stored).
pub open spec fn speed_unit_of(s: SettingsView) -> SpeedUnit {
    match s.net_unit {
        Some(name) => speed_unit_named(name),
        None => SpeedUnit::Auto,
    }
}

/// The settings with the taskbar visibility stored as `visible`.
pub open spec fn with_taskbar_visible(s: SettingsView, visible: bool) -> SettingsView {
    SettingsView { taskbar_visible: Some(visible), ..s }
}

/// The settings with the always-on-top flag stored as `enabled`.
pub open spec fn with_always_on_top(s: SettingsView, enabled: bool) -> SettingsView {
    SettingsView { always_on_top: Some(enabled), ..s }
}

/// The settings with the log level name stored as `name`.
pub open spec fn with_log_level(s: SettingsView, name: Seq<char>) -> SettingsView {
    SettingsView { log_level: Some(name), ..s }
}

/// The settings with the speed unit name stored as `name`.
pub open spec fn with_net_unit(s: SettingsView, name: Seq<char>) -> SettingsView {
    SettingsView { net_unit: Some(name), ..s }
}

/// Showing or hiding a window.
#[derive(Clone, Copy, Debug, PartialEq, Eq, Structural)]
pub enum WindowVisibility {
    Show,
    Hide,
}

impl AppSettings {
    /// Settings with nothing stored, as used when the file is missing or unreadable.
    pub fn empty() -> (settings: AppSettings)
        ensures
            settings@ == no_settings(),
    {
        AppSettings { taskbar_visible: None, always_on_top: None, log_level: None, net_unit: None }
    }
}

impl Default for AppSettings {
    fn default() -> (settings: AppSettings)
        ensures
            settings@ == no_settings(),
    {
        AppSettings::empty()
    }
}

/// Whether the taskbar speed window is to be shown.
pub fn get_taskbar_visible(settings: &AppSettings) -> (visible: bool)
    ensures
        visible == taskbar_visible_of(settings@),
{
    match settings.taskbar_visible {
        Some(v) => v,
        None => false,
    }
}

/// Stores the taskbar visibility and says what to do with the taskbar window.
pub fn set_taskbar_visible(settings: &mut AppSettings, visible: bool) -> (action: WindowVisibility)
    ensures
        final(settings)@ == with_taskbar_visible(old(settings)@, visible),
        action == (if visible {
            WindowVisibility::Show
        } else {
            WindowVisibility::Hide
        }),
{
    settings.taskbar_visible = Some(visible);
    if visible {
        WindowVisibility::Show
    } else {
        WindowVisibility::Hide
    }
}

/// At startup, the taskbar window is hidden unless the settings show it.
pub fn apply_taskbar_setting(settings: &AppSettings) -> (action: Option<WindowVisibility>)
    ensures
        action == (if taskbar_visible_of(settings@) {
            None
        } else {
            Some(WindowVisibility::Hide)
        }),
{
    if !get_taskbar_visible(settings) {
        Some(WindowVisibility::Hide)
    } else {
        None
    }
}

/// Whether the main window is to stay on top.
pub fn get_always_on_top(settings: &AppSettings) -> (enabled: bool)
    ensures
        enabled == always_on_top_of(settings@),
{
    match settings.always_on_top {
        Some(v) => v,
        None => true,
    }
}

/// Stores the always-on-top flag; returns the flag to apply to the main window.
pub fn set_always_on_top(settings: &mut AppSettings, enabled: bool) -> (apply: bool)
    ensures
        final(settings)@ == with_always_on_top(old(settings)@, enabled),
        apply == enabled,
{
    settings.always_on_top = Some(enabled);
    enabled
}

/// At startup, the main window's always-on-top flag is set as stored.
pub fn apply_always_on_top_setting(settings: &AppSettings) -> (apply: bool)
    ensures
        apply == always_on_top_of(settings@),
{
    get_always_on_top(settings)
}

/// Flips the stored taskbar visibility; returns the new visibility.
pub fn toggle_taskbar_setting(settings: &mut AppSettings) -> (visible: bool)
    ensures
        visible == !taskbar_visible_of(old(settings)@),
        final(settings)@ == with_taskbar_visible(old(settings)@, visible),
{
    let visible = !get_taskbar_visible(settings);
    settings.taskbar_visible = Some(visible);
    visible
}

/// The log level to start logging with.
pub fn startup_log_level(settings: &AppSettings) -> (level: LogLevel)
    ensures
        level == log_level_of(settings@),
{
    match &settings.log_level {
        Some(name) => level_from_str(name.as_str()),
        None => LogLevel::Info,
    }
}

/// The stored log level, for the settings window.
pub fn get_log_level(settings: &AppSettings) -> (level: LogLevel)
    ensures
        level == log_level_of(settings@),
{
    startup_log_level(settings)
}

/// Stores the log level name chosen in the settings window; returns the level
/// to switch logging to.
pub fn set_log_level(settings: &mut AppSettings, name: String) -> (level: LogLevel)
    ensures
        final(settings)@ == with_log_level(old(settings)@, name@),
        level == level_named(name@),
{
    let level = level_from_str(name.as_str());
    settings.log_level = Some(name);
    level
}

/// The stored speed unit, for the settings window.
pub fn get_net_unit(settings: &AppSettings) -> (unit: SpeedUnit)
    ensures
        unit == speed_unit_of(settings@),
{
    speed_unit_setting(settings)
}

/// Stores the speed unit name chosen in the settings window; returns the unit
/// in which speeds are shown from now on.
pub fn set_net_unit(settings: &mut AppSettings, name: String) -> (unit: SpeedUnit)
    ensures
        final(settings)@ == with_net_unit(old(settings)@, name@),
        unit == speed_unit_named(name@),
{
    let unit = speed_unit_from_str(name.as_str());
    settings.net_unit = Some(name);
    unit
}

/// The unit in which to show speeds.
pub fn speed_unit_setting(settings: &AppSettings) -> (unit: SpeedUnit)
    ensures
        unit == speed_unit_of(settings@),
{
    match &settings.net_unit {
        Some(name) => speed_unit_from_str(name.as_str()),
        None => SpeedUnit::Auto,
    }
}

/// Reading a setting gives back what was last written to it, and writing one
/// setting leaves the others as they were.
pub proof fn lemma_read_after_write(
    s: SettingsView,
    visible: bool,
    enabled: bool,
    level: Seq<char>,
    unit: Seq<char>,
)
    ensures
        log_level_of(with_log_level(s, level)) == level_named(level),
        speed_unit_of(with_net_unit(s, unit)) == speed_unit_named(unit),
        taskbar_visible_of(with_log_level(s, level)) == taskbar_visible_of(s),
        always_on_top_of(with_log_level(s, level)) == always_on_top_of(s),
        speed_unit_of(with_log_level(s, level)) == speed_unit_of(s),
        taskbar_visible_of(with_net_unit(s, unit)) == taskbar_visible_of(s),
        always_on_top_of(with_net_unit(s, unit)) == always_on_top_of(s),
        log_level_of(with_net_unit(s, unit)) == log_level_of(s),
        taskbar_visible_of(with_taskbar_visible(s, visible)) == visible,
        always_on_top_of(with_always_on_top(s, enabled)) == enabled,
        always_on_top_of(with_taskbar_visible(s, visible)) == always_on_top_of(s),
        taskbar_visible_of(with_always_on_top(s, enabled)) == taskbar_visible_of(s),
        log_level_of(with_taskbar_visible(s, visible)) == log_level_of(s),
        log_level_of(with_always_on_top(s, enabled)) == log_level_of(s),
        speed_unit_of(with_taskbar_visible(s, visible)) == speed_unit_of(s),
        speed_unit_of(with_always_on_top(s, enabled)) == speed_unit_of(s),
{
}

/// Writing a setting twice is the same as writing the second value once.
pub proof fn lemma_last_write_wins(
    s: SettingsView,
    first: bool,
    second: bool,
    first_name: Seq<char>,
    second_name: Seq<char>,
)
    ensures
        with_log_level(with_log_level(s, first_name), second_name) == with_log_level(s, second_name),
        with_net_unit(with_net_unit(s, first_name), second_name) == with_net_unit(s, second_name),
        with_taskbar_visible(with_taskbar_visible(s, first), second) == with_taskbar_visible(
            s,
            second,
        ),
        with_always_on_top(with_always_on_top(s, first), second) == with_always_on_top(s, second),
{
}

/// Toggling the taskbar visibility twice restores the visibility it had.
pub proof fn lemma_toggle_twice(s: SettingsView)
    ensures
        ({
            let once = with_taskbar_visible(s, !taskbar_visible_of(s));
            let twice = with_taskbar_visible(once, !taskbar_visible_of(once));
            taskbar_visible_of(twice) == taskbar_visible_of(s)
        }),
{
}

/// With nothing stored the taskbar window is hidden, the main window stays on
/// top, logging is at `Info` and speeds are shown in automatic units.
pub proof fn lemma_defaults()
    ensures
        !taskbar_visible_of(no_settings()),
        always_on_top_of(no_settings()),
        log_level_of(no_settings()) == LogLevel::Info,
        speed_unit_of(no_settings()) == SpeedUnit::Auto,
{
}

} // verus!
