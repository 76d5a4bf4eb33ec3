//! Where log records go.
use vstd::prelude::*;

verus! {

/// The verbosity of a log record, least verbose first.
#[derive(PartialEq, Eq, Structural, Clone, Copy)]
pub enum LogLevel {
    Error,
    Warn,
    Info,
    Debug,
    Trace,
}

/// The most verbose level that a log filter lets through, where it lets
/// some through.
#[derive(PartialEq, Eq, Structural, Clone, Copy)]
pub enum LevelHint {
    Off,
    Error,
    Warn,
    Info,
    Debug,
    Trace,
}

/// The level up to which records are written: none where the filter is
/// off or gives no hint.
pub fn max_level(hint: Option<LevelHint>) -> (r: Option<LogLevel>)
    ensures
        match hint {
            None => r is None,
            Some(LevelHint::Off) => r is None,
            Some(LevelHint::Error) => r == Some(LogLevel::Error),
            Some(LevelHint::Warn) => r == Some(LogLevel::Warn),
            Some(LevelHint::Info) => r == Some(LogLevel::Info),
            Some(LevelHint::Debug) => r == Some(LogLevel::Debug),
            Some(LevelHint::Trace) => r == Some(LogLevel::Trace),
        },
{
    match hint {
        None => None,
        Some(LevelHint::Off) => None,
        Some(LevelHint::Error) => Some(LogLevel::Error),
        Some(LevelHint::Warn) => Some(LogLevel::Warn),
        Some(LevelHint::Info) => Some(LogLevel::Info),
        Some(LevelHint::Debug) => Some(LogLevel::Debug),
        Some(LevelHint::Trace) => Some(LogLevel::Trace),
    }
}

/// The standard stream a log record is written to.
#[derive(PartialEq, Eq, Structural, Clone, Copy)]
pub enum StdioLock {
    Stdout,
    Stderr,
}

/// The writer of log records: standard error for warnings and errors,
/// standard output for the rest.
pub struct LogRecorder {}

impl LogRecorder {
    pub fn new() -> (r: Self) {
        LogRecorder {}
    }

    /// Records of unknown level go to standard output.
    pub fn make_writer(&self) -> (r: StdioLock)
        ensures
            r == StdioLock::Stdout,
    {
        StdioLock::Stdout
    }

    /// Records at warning level or worse go to standard error, the rest to
    /// standard output.
    pub fn make_writer_for(&self, level: LogLevel) -> (r: StdioLock)
        ensures
            r == StdioLock::Stderr <==> (level == LogLevel::Error || level == LogLevel::Warn),
    {
        match level {
            LogLevel::Error | LogLevel::Warn => StdioLock::Stderr,
            _ => StdioLock::Stdout,
        }
    }
}

} // verus!
