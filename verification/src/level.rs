//! Severity of a log record.

use crate::pattern::{capture, captured, captures, regex_captures};
use crate::text::same;
use vstd::prelude::*;

verus! {

/// Severity that the child process gives to a record.
#[derive(Debug, Clone, Copy, PartialEq, Eq, Structural)]
pub enum LogLevel {
    Info,
    Warn,
    Error,
}

/// The header of a record: its time stamp and, caught by the first group,
/// the name of its severity.
pub const LEVEL_PATTERN: &'static str =
    r"\[\d{4}-\d{2}-\d{2} \d{2}:\d{2}:\d{2}:\d{3} (?P<level>(INFO|WARN|ERROR))\] ";

/// The severity that goes by `name`.
pub open spec fn level_named(name: Seq<char>) -> Option<LogLevel> {
    if name == "INFO"@ {
        Some(LogLevel::Info)
    } else if name == "WARN"@ {
        Some(LogLevel::Warn)
    } else if name == "ERROR"@ {
        Some(LogLevel::Error)
    } else {
        None
    }
}

/// The severity that a search for the header found; `Info` where it found
/// none.
pub open spec fn level_found(found: Option<Seq<Option<Seq<char>>>>) -> LogLevel {
    match captured(found, 1) {
        Some(name) => match level_named(name) {
            Some(level) => level,
            None => LogLevel::Info,
        },
        None => LogLevel::Info,
    }
}

/// The severity that goes by `name`.
pub fn parse_level(name: &str) -> (level: Option<LogLevel>)
    ensures
        level == level_named(name@),
{
    if same(name, "INFO") {
        Some(LogLevel::Info)
    } else if same(name, "WARN") {
        Some(LogLevel::Warn)
    } else if same(name, "ERROR") {
        Some(LogLevel::Error)
    } else {
        None
    }
}

/// The severity that a search for the header found; `Info` where it found
/// none.
pub fn level_from(found: &Option<Vec<Option<String>>>) -> (level: LogLevel)
    ensures
        level == level_found(found.deep_view()),
{
    match capture(found, 1) {
        Some(name) => match parse_level(name) {
            Some(level) => level,
            None => LogLevel::Info,
        },
        None => LogLevel::Info,
    }
}

/// The severity named in the header of `log`; `Info` where it has none.
pub fn get_log_level(log: &str) -> (level: LogLevel)
    ensures
        level == level_found(regex_captures(LEVEL_PATTERN@, log@)),
{
    let found = captures(LEVEL_PATTERN, log);
    level_from(&found)
}

} // verus!
