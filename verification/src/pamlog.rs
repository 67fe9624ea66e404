//! How much the PAM modules log.
use crate::text;
use vstd::prelude::*;

verus! {

/// The levels of logging, from none to everything.
#[derive(Debug, Clone, Copy, PartialEq, Eq, Structural)]
pub enum LogLevel {
    Off,
    Error,
    Warn,
    Info,
    Debug,
    Trace,
}

/// `c` in upper case, if it is a letter of ASCII.
pub open spec fn ascii_upper(c: char) -> char {
    if 'a' <= c <= 'z' {
        (c as u32 - 32) as char
    } else {
        c
    }
}

/// `s` with the letters of ASCII in upper case.
pub open spec fn upper(s: Seq<char>) -> Seq<char> {
    s.map_values(|c: char| ascii_upper(c))
}

/// The level with that name, in whatever case it is written.
pub open spec fn level_named(name: Seq<char>) -> Option<LogLevel> {
    let n = upper(name);
    if n == "OFF"@ {
        Some(LogLevel::Off)
    } else if n == "ERROR"@ {
        Some(LogLevel::Error)
    } else if n == "WARN"@ {
        Some(LogLevel::Warn)
    } else if n == "INFO"@ {
        Some(LogLevel::Info)
    } else if n == "DEBUG"@ {
        Some(LogLevel::Debug)
    } else if n == "TRACE"@ {
        Some(LogLevel::Trace)
    } else {
        None
    }
}

/// `<log::LevelFilter as FromStr>::from_str` reads the name of a level without
/// regard to the case of its letters, and fails on anything else.
#[verifier::external_body]
fn parse_level(name: &str) -> (r: Option<LogLevel>)
    ensures
        r == level_named(name@),
{
    match name.parse::<log::LevelFilter>() {
        Ok(log::LevelFilter::Off) => Some(LogLevel::Off),
        Ok(log::LevelFilter::Error) => Some(LogLevel::Error),
        Ok(log::LevelFilter::Warn) => Some(LogLevel::Warn),
        Ok(log::LevelFilter::Info) => Some(LogLevel::Info),
        Ok(log::LevelFilter::Debug) => Some(LogLevel::Debug),
        Ok(log::LevelFilter::Trace) => Some(LogLevel::Trace),
        Err(_) => None,
    }
}

/// The most that is logged, given the setting in the environment: nothing set
/// means information and worse; a setting for single modules, or one that cannot
/// be read, means everything, and leaves the choice to the filters.
pub open spec fn level_for(setting: Option<Seq<char>>) -> LogLevel {
    match setting {
        None => LogLevel::Info,
        Some(value) => if value.contains('=') || value.contains(',') {
            LogLevel::Trace
        } else {
            match level_named(value) {
                Some(level) => level,
                None => LogLevel::Trace,
            }
        },
    }
}

/// The most that is logged, given the setting in the environment.
pub fn max_level(setting: Option<&str>) -> (level: LogLevel)
    ensures
        level == level_for(
            match setting {
                Some(value) => Some(value@),
                None => None,
            },
        ),
{
    match setting {
        None => LogLevel::Info,
        Some(value) => if text::contains_char(value, '=') || text::contains_char(value, ',') {
            LogLevel::Trace
        } else {
            match parse_level(value) {
                Some(level) => level,
                None => LogLevel::Trace,
            }
        },
    }
}

/// A setting for single modules logs everything, and so does one that names no level.
/// The case of the letters does not matter.
pub proof fn law_levels(value: Seq<char>)
    ensures
        level_for(None) == LogLevel::Info,
        value.contains('=') || value.contains(',') ==> level_for(Some(value)) == LogLevel::Trace,
        !value.contains('=') && !value.contains(',') ==> match level_for(Some(value)) {
            LogLevel::Off => upper(value) == "OFF"@,
            LogLevel::Error => upper(value) == "ERROR"@,
            LogLevel::Warn => upper(value) == "WARN"@,
            LogLevel::Info => upper(value) == "INFO"@,
            LogLevel::Debug => upper(value) == "DEBUG"@,
            LogLevel::Trace => upper(value) != "OFF"@ && upper(value) != "ERROR"@ && upper(value)
                != "WARN"@ && upper(value) != "INFO"@ && upper(value) != "DEBUG"@,
        },
{
    reveal_strlit("OFF");
    reveal_strlit("ERROR");
    reveal_strlit("WARN");
    reveal_strlit("INFO");
    reveal_strlit("DEBUG");
    reveal_strlit("TRACE");
    assert("ERROR"@[0] != "DEBUG"@[0]);
    assert("ERROR"@[0] != "TRACE"@[0]);
    assert("DEBUG"@[0] != "TRACE"@[0]);
    assert("WARN"@[0] != "INFO"@[0]);
}

} // verus!
