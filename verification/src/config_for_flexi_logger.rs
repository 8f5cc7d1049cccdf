//! Settings of the local logger, which writes to the console, to log files
//! that are changed every day, or to both.

use vstd::prelude::*;
use crate::host::HostIdentity;
use crate::layout::{event_line, format_event, LogEvent};

verus! {

/// The offset from UTC, in hours, of the clock that log lines are stamped
/// with and by whose midnight log files are changed.
pub const LOG_UTC_OFFSET_HOURS: u8 = 8;

/// The number of log files that are kept.
pub const KEPT_LOG_FILES: usize = 1024;

/// What stands in a log line for a module path or a file that is not known.
pub const UNNAMED: &'static str = "<unnamed>";

/// How log files follow each other: a new one at each midnight of the clock
/// that is `utc_offset_hours` ahead of UTC, the old ones named by their time,
/// `kept_files` of them kept.
#[derive(Clone, Copy, Debug, PartialEq, Eq)]
pub struct Rotation {
    pub utc_offset_hours: u8,
    pub kept_files: usize,
}

/// What the local logger is started with.
#[derive(Clone, Debug, PartialEq, Eq)]
pub struct LocalLoggerSetup {
    pub log_spec: String,
    /// Whether the logger says on start where it writes.
    pub print_message: bool,
    /// Whether every line goes to the console.
    pub duplicate_to_stdout: bool,
    /// Whether lines go to files, and how the files follow each other.
    pub file: Option<Rotation>,
}

/// The rotation of every local logger.
pub open spec fn daily_rotation() -> Rotation {
    Rotation { utc_offset_hours: LOG_UTC_OFFSET_HOURS, kept_files: KEPT_LOG_FILES }
}

/// The line of the local logger for `event` on `host`, without a line end.
pub fn detailed_line(host: &HostIdentity, event: &LogEvent) -> (r: String)
    ensures
        r@ == event_line(*host, *event, UNNAMED@),
{
    format_event(host, event, UNNAMED)
}

/// The settings of the local logger for `log_spec`: it announces itself,
/// writes to the console if `log_to_stdout` and to daily files if
/// `log_to_file`.
pub fn default_logger(log_spec: &str, log_to_stdout: bool, log_to_file: bool) -> (r:
    LocalLoggerSetup)
    ensures
        r.log_spec@ == log_spec@,
        r.print_message,
        r.duplicate_to_stdout == log_to_stdout,
        r.file == if log_to_file {
            Some(daily_rotation())
        } else {
            None
        },
{
    let file = if log_to_file {
        Some(Rotation { utc_offset_hours: LOG_UTC_OFFSET_HOURS, kept_files: KEPT_LOG_FILES })
    } else {
        None
    };
    LocalLoggerSetup {
        log_spec: log_spec.to_owned(),
        print_message: true,
        duplicate_to_stdout: log_to_stdout,
        file,
    }
}

} // verus!
