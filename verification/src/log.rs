//! Leveled log-line formatting.
//!
//! A `Logger` remembers the millisecond timestamp of its construction and
//! formats lines of the form `[<elapsed seconds>][<name>][<LEVEL>] <message>`.
//! Printing the line (with a level-specific color) is left to the caller:
//! the formatting itself is the logic that is specified here.

use vstd::prelude::*;
use vstd::string::StringExecFns;

use crate::digits::{dec_spec, u64_to_dec};

verus! {

/// Severity of a log line. `Info` lines are emitted only when debug logging
/// is enabled; warnings and errors are always emitted.
#[derive(Clone, Copy, Debug, PartialEq, Eq, Structural)]
pub enum LogLevel {
    Info,
    Warn,
    Error,
}

/// The tag printed for each level.
pub open spec fn level_tag(level: LogLevel) -> Seq<char> {
    match level {
        LogLevel::Info => "INFO"@,
        LogLevel::Warn => "WARN"@,
        LogLevel::Error => "ERROR"@,
    }
}

/// Whole seconds elapsed from `start_ms` to `now_ms` (zero when `now_ms`
/// lies before `start_ms`).
pub open spec fn elapsed_secs(start_ms: u64, now_ms: u64) -> nat {
    if now_ms >= start_ms {
        ((now_ms - start_ms) / 1000) as nat
    } else {
        0
    }
}

/// The full text of a log line: elapsed seconds, component name and level
/// in brackets, then the message.
pub open spec fn line_text(level: LogLevel, secs: nat, name: Seq<char>, message: Seq<char>) -> Seq<
    char,
> {
    "["@ + dec_spec(secs) + "]["@ + name + "]["@ + level_tag(level) + "] "@ + message
}

/// Formats leveled log lines, timestamped relative to its construction time.
pub struct Logger {
    /// Millisecond timestamp taken as the logger's birth; elapsed time in
    /// log lines is measured from it.
    pub start_ms: u64,
}

impl Logger {
    /// A logger whose time base is zero: callers then pass milliseconds
    /// elapsed since its construction as `now_ms`.
    pub fn new() -> (r: Self)
        ensures
            r.start_ms == 0,
    {
        Logger { start_ms: 0 }
    }

    /// A logger whose time base is the given millisecond timestamp.
    pub fn new_at(start_ms: u64) -> (r: Self)
        ensures
            r.start_ms == start_ms,
    {
        Logger { start_ms }
    }

    /// The formatted line for `level` at time `now_ms`.
    pub fn format(&self, level: LogLevel, name: &str, message: &str, now_ms: u64) -> (line: String)
        ensures
            line@ == line_text(level, elapsed_secs(self.start_ms, now_ms), name@, message@),
    {
        let ms: u64 = if now_ms >= self.start_ms {
            now_ms - self.start_ms
        } else {
            0
        };
        let secs = u64_to_dec(ms / 1000);
        let tag: &'static str = match level {
            LogLevel::Info => "INFO",
            LogLevel::Warn => "WARN",
            LogLevel::Error => "ERROR",
        };
        let line = "[".to_owned().concat(secs.as_str()).concat("][").concat(name).concat(
            "][",
        ).concat(tag).concat("] ").concat(message);
        proof {
            assert(line@ =~= line_text(level, elapsed_secs(self.start_ms, now_ms), name@, message@));
        }
        line
    }

    /// An info line: good news, printed only when the caller has debug
    /// logging enabled.
    pub fn log_info(&self, name: &str, message: &str, now_ms: u64) -> (line: String)
        ensures
            line@ == line_text(LogLevel::Info, elapsed_secs(self.start_ms, now_ms), name@, message@),
    {
        self.format(LogLevel::Info, name, message, now_ms)
    }

    /// A warning line: nothing broke, but the caller should know.
    pub fn log_warn(&self, name: &str, message: &str, now_ms: u64) -> (line: String)
        ensures
            line@ == line_text(LogLevel::Warn, elapsed_secs(self.start_ms, now_ms), name@, message@),
    {
        self.format(LogLevel::Warn, name, message, now_ms)
    }

    /// An error line.
    pub fn log_error(&self, name: &str, message: &str, now_ms: u64) -> (line: String)
        ensures
            line@ == line_text(
                LogLevel::Error,
                elapsed_secs(self.start_ms, now_ms),
                name@,
                message@,
            ),
    {
        self.format(LogLevel::Error, name, message, now_ms)
    }
}

} // verus!
