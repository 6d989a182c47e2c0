use sysmon::logger::{level_from_str, level_to_string, LogLevel};

#[test]
fn level_names_read_in_any_case() {
    assert_eq!(level_from_str("off"), LogLevel::Off);
    assert_eq!(level_from_str("ERROR"), LogLevel::Error);
    assert_eq!(level_from_str("Warn"), LogLevel::Warn);
    assert_eq!(level_from_str("info"), LogLevel::Info);
    assert_eq!(level_from_str("dEbUg"), LogLevel::Debug);
    assert_eq!(level_from_str("TRACE"), LogLevel::Trace);
}

#[test]
fn unknown_level_names_give_info() {
    assert_eq!(level_from_str(""), LogLevel::Info);
    assert_eq!(level_from_str("verbose"), LogLevel::Info);
    assert_eq!(level_from_str(" debug"), LogLevel::Info);
    assert_eq!(level_from_str("debugs"), LogLevel::Info);
    assert_eq!(level_from_str("warning"), LogLevel::Info);
}

#[test]
fn level_names_are_lower_case() {
    assert_eq!(level_to_string(LogLevel::Off), "off");
    assert_eq!(level_to_string(LogLevel::Error), "error");
    assert_eq!(level_to_string(LogLevel::Warn), "warn");
    assert_eq!(level_to_string(LogLevel::Info), "info");
    assert_eq!(level_to_string(LogLevel::Debug), "debug");
    assert_eq!(level_to_string(LogLevel::Trace), "trace");
}

#[test]
fn level_round_trips_through_its_name() {
    for level in [
        LogLevel::Off,
        LogLevel::Error,
        LogLevel::Warn,
        LogLevel::Info,
        LogLevel::Debug,
        LogLevel::Trace,
    ] {
        assert_eq!(level_from_str(level_to_string(level)), level);
        assert_eq!(level_from_str(&level_to_string(level).to_uppercase()), level);
    }
}
