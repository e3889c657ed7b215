//! Which log level the program runs at.

use crate::ascii::ascii_lowercase;
use crate::config::{BridgeConfig, ConfigView};
use std::str::FromStr;
use vstd::prelude::*;
use vstd::string::*;

verus! {

/// The most that is logged.
#[derive(Clone, Copy, Debug, PartialEq, Eq, Structural)]
pub enum LogLevel {
    Off,
    Error,
    Warn,
    Info,
    Debug,
    Trace,
}

/// `a` and `b` are the same but for the case of ASCII letters.
pub open spec fn same_ignoring_ascii_case(a: Seq<char>, b: Seq<char>) -> bool {
    ascii_lowercase(a) == ascii_lowercase(b)
}

/// The level that `name` names: one of `OFF`, `ERROR`, `WARN`, `INFO`,
/// `DEBUG`, `TRACE`, in any mix of upper and lower case.
pub open spec fn spec_level(name: Seq<char>) -> Option<LogLevel> {
    if same_ignoring_ascii_case(name, "OFF"@) {
        Some(LogLevel::Off)
    } else if same_ignoring_ascii_case(name, "ERROR"@) {
        Some(LogLevel::Error)
    } else if same_ignoring_ascii_case(name, "WARN"@) {
        Some(LogLevel::Warn)
    } else if same_ignoring_ascii_case(name, "INFO"@) {
        Some(LogLevel::Info)
    } else if same_ignoring_ascii_case(name, "DEBUG"@) {
        Some(LogLevel::Debug)
    } else if same_ignoring_ascii_case(name, "TRACE"@) {
        Some(LogLevel::Trace)
    } else {
        None
    }
}

/// The name that decides: the one from the command line, or else the one
/// from the configuration, or else `Info`.
pub open spec fn spec_level_name(requested: Option<Seq<char>>, config: ConfigView) -> Seq<char> {
    match requested {
        Some(name) => name,
        None => match config.log_level {
            Some(name) => name,
            None => "Info"@,
        },
    }
}

/// Calls `<log::LevelFilter as FromStr>::from_str`, which goes through the
/// six level names in the order `OFF`, `ERROR`, `WARN`, `INFO`, `DEBUG`,
/// `TRACE` and returns the level of the first that
/// `str::eq_ignore_ascii_case` finds equal to `name`, or an error if none
/// is. The contract says the same, with `None` for the error. It is taken
/// on trust: the body is not verified.
#[verifier::external_body]
fn parse_level(name: &str) -> (level: Option<LogLevel>)
    ensures
        level == spec_level(name@),
{
    match log::LevelFilter::from_str(name) {
        Ok(log::LevelFilter::Off) => Some(LogLevel::Off),
        Ok(log::LevelFilter::Error) => Some(LogLevel::Error),
        Ok(log::LevelFilter::Warn) => Some(LogLevel::Warn),
        Ok(log::LevelFilter::Info) => Some(LogLevel::Info),
        Ok(log::LevelFilter::Debug) => Some(LogLevel::Debug),
        Ok(log::LevelFilter::Trace) => Some(LogLevel::Trace),
        Err(_) => None,
    }
}

/// The level to log at: the one asked for on the command line, or else the
/// configured one, or else `Info`. `None` where the name that decides is no
/// level.
pub fn effective_log_level(
    requested: Option<&str>,
    config: &BridgeConfig,
) -> (level: Option<LogLevel>)
    ensures
        level == spec_level(
            spec_level_name(
                match requested {
                    Some(name) => Some(name@),
                    None => None,
                },
                config@,
            ),
        ),
{
    match requested {
        Some(name) => parse_level(name),
        None => match &config.log_level {
            Some(name) => parse_level(name.as_str()),
            None => parse_level("Info"),
        },
    }
}

/// With no level asked for and none configured, the level is `Info`.
pub proof fn lemma_level_defaults_to_info(config: ConfigView)
    requires
        config.log_level is None,
    ensures
        spec_level(spec_level_name(None, config)) == Some(LogLevel::Info),
{
    reveal_strlit("Info");
    reveal_strlit("OFF");
    reveal_strlit("ERROR");
    reveal_strlit("WARN");
    reveal_strlit("INFO");
    let info = ascii_lowercase("Info"@);
    assert(info =~= ascii_lowercase("INFO"@));
    assert(info.len() == 4 && info[0] == 'i');
    assert(ascii_lowercase("OFF"@).len() == 3);
    assert(ascii_lowercase("ERROR"@).len() == 5);
    assert(ascii_lowercase("WARN"@)[0] == 'w');
}

} // verus!
