//! The logging passthrough's decidable core.
//!
//! A guest hands the host one of six levels; the host's structured-logging
//! emission knows five severities, so the critical level is reported at
//! error severity.  The emission itself is the host's; the mapping and the
//! level labels are fixed here.

use vstd::prelude::*;

verus! {

/// The level a guest logs at.
#[derive(Clone, Copy, Debug, PartialEq, Eq)]
pub enum LogLevel {
    Trace,
    Debug,
    Info,
    Warn,
    Error,
    Critical,
}

/// The severity the host's structured logging emits at.
#[derive(Clone, Copy, Debug, PartialEq, Eq)]
pub enum LogSeverity {
    Trace,
    Debug,
    Info,
    Warn,
    Error,
}

/// The severity each guest level is emitted at: one-to-one, except that the
/// critical level is emitted at error severity.
pub fn log_severity(level: &LogLevel) -> (s: LogSeverity)
    ensures
        match *level {
            LogLevel::Trace => s is Trace,
            LogLevel::Debug => s is Debug,
            LogLevel::Info => s is Info,
            LogLevel::Warn => s is Warn,
            LogLevel::Error => s is Error,
            LogLevel::Critical => s is Error,
        },
{
    match level {
        LogLevel::Trace => LogSeverity::Trace,
        LogLevel::Debug => LogSeverity::Debug,
        LogLevel::Info => LogSeverity::Info,
        LogLevel::Warn => LogSeverity::Warn,
        LogLevel::Error => LogSeverity::Error,
        LogLevel::Critical => LogSeverity::Error,
    }
}

/// The label a guest level is reported under.
pub fn log_level_label(level: &LogLevel) -> (r: &'static str)
    ensures
        match *level {
            LogLevel::Trace => r@ == "trace"@,
            LogLevel::Debug => r@ == "debug"@,
            LogLevel::Info => r@ == "info"@,
            LogLevel::Warn => r@ == "warn"@,
            LogLevel::Error => r@ == "error"@,
            LogLevel::Critical => r@ == "critical"@,
        },
{
    match level {
        LogLevel::Trace => "trace",
        LogLevel::Debug => "debug",
        LogLevel::Info => "info",
        LogLevel::Warn => "warn",
        LogLevel::Error => "error",
        LogLevel::Critical => "critical",
    }
}

} // verus!
