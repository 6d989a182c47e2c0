//! Log level names as they are stored in the settings file and shown in the
//! settings window.

use vstd::prelude::*;

use crate::text::{chars_of, eq_ignore_ascii_case, eq_ignore_ascii_case_exec};

verus! {

/// How much the application logs; the six levels of a log filter, from
/// nothing at all to everything.
#[derive(Clone, Copy, Debug, PartialEq, Eq, Structural)]
pub enum LogLevel {
    Off,
    Error,
    Warn,
    Info,
    Debug,
    Trace,
}

/// The name under which a level is stored and displayed.
pub open spec fn level_name(level: LogLevel) -> Seq<char> {
    match level {
        LogLevel::Off => seq!['o', 'f', 'f'],
        LogLevel::Error => seq!['e', 'r', 'r', 'o', 'r'],
        LogLevel::Warn => seq!['w', 'a', 'r', 'n'],
        LogLevel::Info => seq!['i', 'n', 'f', 'o'],
        LogLevel::Debug => seq!['d', 'e', 'b', 'u', 'g'],
        LogLevel::Trace => seq!['t', 'r', 'a', 'c', 'e'],
    }
}

/// The level that a stored name selects: the level whose name equals it up to
/// letter case, and `Info` for any other text.
pub open spec fn level_named(s: Seq<char>) -> LogLevel {
    if eq_ignore_ascii_case(s, level_name(LogLevel::Off)) {
        LogLevel::Off
    } else if eq_ignore_ascii_case(s, level_name(LogLevel::Error)) {
        LogLevel::Error
    } else if eq_ignore_ascii_case(s, level_name(LogLevel::Warn)) {
        LogLevel::Warn
    } else if eq_ignore_ascii_case(s, level_name(LogLevel::Info)) {
        LogLevel::Info
    } else if eq_ignore_ascii_case(s, level_name(LogLevel::Debug)) {
        LogLevel::Debug
    } else if eq_ignore_ascii_case(s, level_name(LogLevel::Trace)) {
        LogLevel::Trace
    } else {
        LogLevel::Info
    }
}

/// Maps a level name to its level, ignoring letter case; unknown names give `Info`.
///
/// The level names are ASCII and no character other than an ASCII letter
/// lower-cases to one of their letters, so comparing the lower-cased input
/// with a name is the same as comparing up to ASCII letter case.
pub fn level_from_str(s: &str) -> (level: LogLevel)
    ensures
        level == level_named(s@),
{
    let chars = chars_of(s);
    let off: [char; 3] = ['o', 'f', 'f'];
    let error: [char; 5] = ['e', 'r', 'r', 'o', 'r'];
    let warn: [char; 4] = ['w', 'a', 'r', 'n'];
    let info: [char; 4] = ['i', 'n', 'f', 'o'];
    let debug: [char; 5] = ['d', 'e', 'b', 'u', 'g'];
    let trace: [char; 5] = ['t', 'r', 'a', 'c', 'e'];
    assert(off@ =~= level_name(LogLevel::Off));
    assert(error@ =~= level_name(LogLevel::Error));
    assert(warn@ =~= level_name(LogLevel::Warn));
    assert(info@ =~= level_name(LogLevel::Info));
    assert(debug@ =~= level_name(LogLevel::Debug));
    assert(trace@ =~= level_name(LogLevel::Trace));
    if eq_ignore_ascii_case_exec(chars.as_slice(), &off) {
        LogLevel::Off
    } else if eq_ignore_ascii_case_exec(chars.as_slice(), &error) {
        LogLevel::Error
    } else if eq_ignore_ascii_case_exec(chars.as_slice(), &warn) {
        LogLevel::Warn
    } else if eq_ignore_ascii_case_exec(chars.as_slice(), &info) {
        LogLevel::Info
    } else if eq_ignore_ascii_case_exec(chars.as_slice(), &debug) {
        LogLevel::Debug
    } else if eq_ignore_ascii_case_exec(chars.as_slice(), &trace) {
        LogLevel::Trace
    } else {
        LogLevel::Info
    }
}

/// The name of a level, as the settings window shows it.
pub fn level_to_string(level: LogLevel) -> (name: &'static str)
    ensures
        name@ == level_name(level),
{
    match level {
        LogLevel::Off => {
            proof {
                reveal_strlit("off");
            }
            "off"
        },
        LogLevel::Error => {
            proof {
                reveal_strlit("error");
            }
            "error"
        },
        LogLevel::Warn => {
            proof {
                reveal_strlit("warn");
            }
            "warn"
        },
        LogLevel::Info => {
            proof {
                reveal_strlit("info");
            }
            "info"
        },
        LogLevel::Debug => {
            proof {
                reveal_strlit("debug");
            }
            "debug"
        },
        LogLevel::Trace => {
            proof {
                reveal_strlit("trace");
            }
            "trace"
        },
    }
}

/// A level's name reads back as that level: storing a level by name and
/// reading the name again gives the same level.
pub proof fn lemma_level_name_round_trip(level: LogLevel)
    ensures
        level_named(level_name(level)) == level,
{
    assert(eq_ignore_ascii_case(level_name(level), level_name(level)));
}

/// Level names are read without regard to letter case: two names that differ
/// only in the case of ASCII letters select the same level.
pub proof fn lemma_level_named_ignores_case(a: Seq<char>, b: Seq<char>)
    requires
        eq_ignore_ascii_case(a, b),
    ensures
        level_named(a) == level_named(b),
{
    assert forall|n: Seq<char>| eq_ignore_ascii_case(a, n) == eq_ignore_ascii_case(b, n) by {
        if eq_ignore_ascii_case(a, n) {
            assert forall|i: int| 0 <= i < b.len() implies crate::text::ascii_lower_code(
                #[trigger] b[i],
            ) == crate::text::ascii_lower_code(n[i]) by {
                assert(crate::text::ascii_lower_code(a[i]) == crate::text::ascii_lower_code(b[i]));
            }
        }
        if eq_ignore_ascii_case(b, n) {
            assert forall|i: int| 0 <= i < a.len() implies crate::text::ascii_lower_code(
                #[trigger] a[i],
            ) == crate::text::ascii_lower_code(n[i]) by {
                assert(crate::text::ascii_lower_code(b[i]) == crate::text::ascii_lower_code(n[i]));
            }
        }
    }
}

} // verus!
