//! Forwarding of `log` records to slog: the mapping between the two
//! crates' levels and the location a forwarded record carries.

use vstd::prelude::*;

verus! {

/// The levels of the `log` crate.
#[derive(Debug, Clone, Copy, PartialEq, Eq, Structural)]
pub enum LogLevel {
    Error,
    Warn,
    Info,
    Debug,
    Trace,
}

/// The levels of the `slog` crate.
#[derive(Debug, Clone, Copy, PartialEq, Eq, Structural)]
pub enum SlogLevel {
    Critical,
    Error,
    Warning,
    Info,
    Debug,
    Trace,
}

/// The slog level that a `log` record is forwarded at.
pub open spec fn slog_level_of(level: LogLevel) -> SlogLevel {
    match level {
        LogLevel::Trace => SlogLevel::Trace,
        LogLevel::Debug => SlogLevel::Debug,
        LogLevel::Info => SlogLevel::Info,
        LogLevel::Warn => SlogLevel::Warning,
        LogLevel::Error => SlogLevel::Error,
    }
}

/// The `log` level that stands for a slog level; `Critical` has no level
/// of its own there and becomes `Error`.
pub open spec fn log_level_of(level: SlogLevel) -> LogLevel {
    match level {
        SlogLevel::Critical | SlogLevel::Error => LogLevel::Error,
        SlogLevel::Warning => LogLevel::Warn,
        SlogLevel::Debug => LogLevel::Debug,
        SlogLevel::Trace => LogLevel::Trace,
        SlogLevel::Info => LogLevel::Info,
    }
}

/// The slog level that a `log` record is forwarded at.
pub fn log_to_slog_level(level: LogLevel) -> (r: SlogLevel)
    ensures
        r == slog_level_of(level),
{
    match level {
        LogLevel::Trace => SlogLevel::Trace,
        LogLevel::Debug => SlogLevel::Debug,
        LogLevel::Info => SlogLevel::Info,
        LogLevel::Warn => SlogLevel::Warning,
        LogLevel::Error => SlogLevel::Error,
    }
}

/// The `log` level that stands for a slog level.
pub fn slog_to_log_level(level: SlogLevel) -> (r: LogLevel)
    ensures
        r == log_level_of(level),
{
    match level {
        SlogLevel::Critical | SlogLevel::Error => LogLevel::Error,
        SlogLevel::Warning => LogLevel::Warn,
        SlogLevel::Debug => LogLevel::Debug,
        SlogLevel::Trace => LogLevel::Trace,
        SlogLevel::Info => LogLevel::Info,
    }
}

/// A `log` level forwarded to slog and mapped back is the level it
/// started as.
pub proof fn lemma_log_level_round_trip(level: LogLevel)
    ensures
        log_level_of(slog_level_of(level)) == level,
{
}

/// A slog level other than `Critical` mapped to `log` and forwarded back
/// is the level it started as.
pub proof fn lemma_slog_level_round_trip(level: SlogLevel)
    requires
        level != SlogLevel::Critical,
    ensures
        slog_level_of(log_level_of(level)) == level,
{
}

/// How verbose a `log` level is: `Error` is the least verbose, `Trace` the
/// most (the order of the `log` crate).
pub open spec fn log_verbosity(level: LogLevel) -> int {
    match level {
        LogLevel::Error => 1,
        LogLevel::Warn => 2,
        LogLevel::Info => 3,
        LogLevel::Debug => 4,
        LogLevel::Trace => 5,
    }
}

/// How verbose a slog level is: `Critical` is the least verbose, `Trace`
/// the most (the order of the `slog` crate).
pub open spec fn slog_verbosity(level: SlogLevel) -> int {
    match level {
        SlogLevel::Critical => 1,
        SlogLevel::Error => 2,
        SlogLevel::Warning => 3,
        SlogLevel::Info => 4,
        SlogLevel::Debug => 5,
        SlogLevel::Trace => 6,
    }
}

/// Each `log` level is forwarded at the slog level of the same name
/// (`Warn` at `Warning`), and each slog level maps back to the `log` level
/// of the same name (`Critical` to `Error`, the least verbose one).
pub proof fn lemma_levels_keep_their_names(level: LogLevel, slevel: SlogLevel)
    ensures
        level == LogLevel::Error ==> slog_level_of(level) == SlogLevel::Error,
        level == LogLevel::Warn ==> slog_level_of(level) == SlogLevel::Warning,
        level == LogLevel::Info ==> slog_level_of(level) == SlogLevel::Info,
        level == LogLevel::Debug ==> slog_level_of(level) == SlogLevel::Debug,
        level == LogLevel::Trace ==> slog_level_of(level) == SlogLevel::Trace,
        slevel == SlogLevel::Critical ==> log_level_of(slevel) == LogLevel::Error,
        slevel == SlogLevel::Error ==> log_level_of(slevel) == LogLevel::Error,
        slevel == SlogLevel::Warning ==> log_level_of(slevel) == LogLevel::Warn,
        slevel == SlogLevel::Info ==> log_level_of(slevel) == LogLevel::Info,
        slevel == SlogLevel::Debug ==> log_level_of(slevel) == LogLevel::Debug,
        slevel == SlogLevel::Trace ==> log_level_of(slevel) == LogLevel::Trace,
{
}

/// Forwarding keeps the order of verbosity: of two `log` levels, the more
/// verbose one is forwarded at the more verbose slog level, and of two
/// slog levels, the more verbose one never maps to a less verbose `log`
/// level.
pub proof fn lemma_levels_keep_verbosity_order(a: LogLevel, b: LogLevel, sa: SlogLevel, sb: SlogLevel)
    ensures
        log_verbosity(a) < log_verbosity(b) <==> slog_verbosity(slog_level_of(a)) < slog_verbosity(
            slog_level_of(b),
        ),
        slog_verbosity(sa) <= slog_verbosity(sb) ==> log_verbosity(log_level_of(sa)) <= log_verbosity(
            log_level_of(sb),
        ),
        slog_verbosity(slog_level_of(a)) >= 2,
{
}

/// The maximum `log` level set when forwarding starts with a slog level.
pub fn max_log_level(level: Option<SlogLevel>) -> (r: Option<LogLevel>)
    ensures
        r == match level {
            Some(l) => Some(log_level_of(l)),
            None => None::<LogLevel>,
        },
{
    match level {
        Some(l) => Some(slog_to_log_level(l)),
        None => None,
    }
}

/// Where a forwarded record comes from, as slog records it.
#[derive(Debug, Clone, Copy)]
pub struct RecordLocation {
    pub file: &'static str,
    pub line: u32,
    pub column: u32,
    pub function: &'static str,
    pub module: &'static str,
}

/// The location of a forwarded `log` record: its file, line and module
/// where the record has them, the empty string or line 0 where it does
/// not, and no column or function.
pub fn record_location(
    module: Option<&'static str>,
    file: Option<&'static str>,
    line: Option<u32>,
) -> (r: RecordLocation)
    ensures
        r.module@ == match module {
            Some(m) => m@,
            None => ""@,
        },
        r.file@ == match file {
            Some(f) => f@,
            None => ""@,
        },
        r.line == match line {
            Some(l) => l,
            None => 0u32,
        },
        r.column == 0,
        r.function@ == ""@,
{
    let module = match module {
        Some(m) => m,
        None => "",
    };
    let file = match file {
        Some(f) => f,
        None => "",
    };
    let line: u32 = match line {
        Some(l) => l,
        None => 0,
    };
    RecordLocation { file, line, column: 0, function: "", module }
}

} // verus!
