//! The log levels of the service's tracing, read from configuration.

use vstd::prelude::*;
use crate::text::str_eq;

verus! {

/// A tracing verbosity level, from the most verbose to the least.
#[derive(Debug, Clone, Copy, PartialEq, Eq, Structural)]
pub enum Level {
    Trace,
    Debug,
    Info,
    Warn,
    Error,
}

/// The level that a configured name selects: the names `TRACE`, `DEBUG`,
/// `WARN` and `ERROR` (upper case) select their level, anything else
/// selects `Info`.
pub open spec fn level_named(name: Seq<char>) -> Level {
    if name == "TRACE"@ {
        Level::Trace
    } else if name == "DEBUG"@ {
        Level::Debug
    } else if name == "WARN"@ {
        Level::Warn
    } else if name == "ERROR"@ {
        Level::Error
    } else {
        Level::Info
    }
}

/// convert `&String` into a tracing `Level`
pub fn get_log_level(lvl: &String) -> (r: Level)
    ensures
        r == level_named(lvl@),
{
    let s = lvl.as_str();
    if str_eq(s, "TRACE") {
        Level::Trace
    } else if str_eq(s, "DEBUG") {
        Level::Debug
    } else if str_eq(s, "WARN") {
        Level::Warn
    } else if str_eq(s, "ERROR") {
        Level::Error
    } else {
        Level::Info
    }
}

/// The most verbose level that tracing is set to record, given the
/// configured level name: none (the subscriber's default) when the name is
/// empty.
pub fn configured_max_level(level: &String) -> (r: Option<Level>)
    ensures
        level@.len() == 0 ==> r is None,
        level@.len() > 0 ==> r == Some(level_named(level@)),
{
    if level.as_str().is_empty() {
        None
    } else {
        Some(get_log_level(level))
    }
}

} // verus!
