//! A small leveled logger.  Which levels a logger lets through is exact
//! logic; the timestamp comes from the clock and the line goes to standard
//! output, both through trusted edges.

use std::io::Write;

use vstd::prelude::*;

verus! {

/// Severity of one log line, and — as `max_level` — a logger's threshold.
#[derive(Debug, Clone, Copy, PartialEq, Eq, Structural)]
pub enum LogLevel {
    Error,
    Warn,
    Info,
    Success,
    Debug,
    Executing,
}

/// Which levels a logger with threshold `max` lets through.
pub open spec fn level_allowed(max: LogLevel, level: LogLevel) -> bool {
    match max {
        LogLevel::Error => level is Error,
        LogLevel::Warn => level is Error || level is Warn,
        LogLevel::Info => !(level is Debug || level is Success || level is Executing),
        LogLevel::Success => !(level is Debug),
        _ => true,
    }
}

/// The bracketed tag a level is printed with.
pub open spec fn spec_level_prefix(level: LogLevel) -> Seq<char> {
    match level {
        LogLevel::Error => "[ERROR]"@,
        LogLevel::Warn => "[WARN]"@,
        LogLevel::Info => "[INFO]"@,
        LogLevel::Success => "[SUCCESS]"@,
        LogLevel::Debug => "[DEBUG]"@,
        LogLevel::Executing => "[EXECUTING]"@,
    }
}

pub struct Logger {
    pub show_timestamps: bool,
    pub show_levels: bool,
    pub max_level: LogLevel,
}

/// Relies on `std::time::SystemTime::now` and chrono's local-time mapping
/// (`TimeZone::timestamp_millis_opt`) and formatter: the bracketed wall
/// time.  A clock before the Unix epoch or an unmappable instant falls
/// back to a fixed tag instead of failing; the result depends on the
/// clock and the machine's time zone, so nothing is promised of it.
#[verifier::external_body]
fn formatted_timestamp() -> String {
    let ms = match std::time::SystemTime::now().duration_since(std::time::UNIX_EPOCH) {
        Ok(elapsed) => elapsed.as_millis() as i64,
        Err(_) => 0,
    };
    match chrono::TimeZone::timestamp_millis_opt(&chrono::Local, ms) {
        chrono::LocalResult::Single(t) => format!("[{}]", t.format("%Y-%m-%d %H:%M:%S")),
        _ => String::from("[--]"),
    }
}

/// Relies on `std::io::Stdout::write_fmt` through `writeln`: prints one
/// line to standard output; a write failure is ignored, as a logger's
/// output is best-effort.
#[verifier::external_body]
fn emit_line(line: &String) {
    let mut out = std::io::stdout();
    let _ = writeln!(out, "{}", line);
}

impl Logger {
    pub fn new(show_timestamps: bool, show_levels: bool, max_level: LogLevel) -> (r: Logger)
        ensures
            r.show_timestamps == show_timestamps,
            r.show_levels == show_levels,
            r.max_level == max_level,
    {
        Logger { show_timestamps, show_levels, max_level }
    }

    /// Whether a line at this level passes the logger's threshold.
    pub fn should_log(&self, level: LogLevel) -> (r: bool)
        ensures
            r == level_allowed(self.max_level, level),
    {
        match (self.max_level, level) {
            (LogLevel::Error, _) => matches!(level, LogLevel::Error),
            (LogLevel::Warn, _) => matches!(level, LogLevel::Error | LogLevel::Warn),
            (LogLevel::Info, _) => !matches!(
                level,
                LogLevel::Debug | LogLevel::Success | LogLevel::Executing,
            ),
            (LogLevel::Success, _) => !matches!(level, LogLevel::Debug),
            _ => true,
        }
    }

    fn get_level_prefix(&self, level: LogLevel) -> (r: &'static str)
        ensures
            r@ == spec_level_prefix(level),
    {
        match level {
            LogLevel::Error => "[ERROR]",
            LogLevel::Warn => "[WARN]",
            LogLevel::Info => "[INFO]",
            LogLevel::Success => "[SUCCESS]",
            LogLevel::Debug => "[DEBUG]",
            LogLevel::Executing => "[EXECUTING]",
        }
    }

    /// Print one line if the level passes: the optional timestamp, the
    /// optional level tag, then the message.
    pub fn log(&self, level: LogLevel, message: &str) {
        if self.should_log(level) {
            let mut output = String::new();
            if self.show_timestamps {
                output.append(formatted_timestamp().as_str());
                output.append(" ");
            }
            if self.show_levels {
                output.append(self.get_level_prefix(level));
                output.append(" ");
            }
            output.append(message);
            emit_line(&output);
        }
    }

    pub fn error(&self, message: &str) {
        self.log(LogLevel::Error, message);
    }

    pub fn warn(&self, message: &str) {
        self.log(LogLevel::Warn, message);
    }

    pub fn info(&self, message: &str) {
        self.log(LogLevel::Info, message);
    }

    pub fn success(&self, message: &str) {
        self.log(LogLevel::Success, message);
    }

    pub fn debug(&self, message: &str) {
        self.log(LogLevel::Debug, message);
    }

    pub fn executing(&self, message: &str) {
        self.log(LogLevel::Executing, message);
    }
}

impl Default for Logger {
    /// The logger the program starts with: timestamps and level tags on,
    /// everything up to debug let through.
    fn default() -> (r: Logger)
        ensures
            r.show_timestamps,
            r.show_levels,
            r.max_level is Debug,
    {
        Logger { show_timestamps: true, show_levels: true, max_level: LogLevel::Debug }
    }
}

} // verus!
