//! Settings of the logger that is driven by filter directives and writes to
//! the console.

use vstd::prelude::*;
use crate::address::is_proper_ip;
use crate::host::{host_identity, HostIdentity};
use crate::layout::{event_line, format_event, LogEvent};

verus! {

/// What the console logger is started with.
#[derive(Clone, Debug, PartialEq, Eq)]
pub struct EnvLoggerSetup {
    /// The host that signs each line, read once when the settings are made.
    pub host: HostIdentity,
    /// The filter directives: `debug`, `some_module=info` and the like.
    pub filters: String,
    /// Whether the logger writes the way a test harness can capture.
    pub is_test: bool,
}

/// The line of the console logger for `event` on `host`, line end included.
/// A module path or a file that is not known is left empty.
pub open spec fn default_line_spec(host: HostIdentity, event: LogEvent) -> Seq<char> {
    event_line(host, event, ""@) + "\n"@
}

impl EnvLoggerSetup {
    /// The line that this logger writes for `event`: see
    /// [`default_line_spec`].
    pub fn format(&self, event: &LogEvent) -> (r: String)
        ensures
            r@ == default_line_spec(self.host, *event),
    {
        let mut line = format_event(&self.host, event, "");
        line.append("\n");
        line
    }
}

/// The settings of the console logger for `log_filters`, signed by this host
/// as it names itself at the time of the call.
pub fn get_default_env_logger_builder(log_filters: &str) -> (r: EnvLoggerSetup)
    ensures
        r.filters@ == log_filters@,
        !r.is_test,
        is_proper_ip(r.host.ip@),
{
    EnvLoggerSetup { host: host_identity(), filters: log_filters.to_owned(), is_test: false }
}

/// What is to be installed to log by `log_filters`.
pub fn init_default_env_logger(log_filters: &str) -> (r: EnvLoggerSetup)
    ensures
        r.filters@ == log_filters@,
        !r.is_test,
        is_proper_ip(r.host.ip@),
{
    get_default_env_logger_builder(log_filters)
}

/// What is to be installed to log from level debug on.
pub fn init_default_env_logger_with_debug_level() -> (r: EnvLoggerSetup)
    ensures
        r.filters@ == "debug"@,
        !r.is_test,
        is_proper_ip(r.host.ip@),
{
    get_default_env_logger_builder("debug")
}

/// What is to be installed to log from level info on.
pub fn init_default_env_logger_with_info_level() -> (r: EnvLoggerSetup)
    ensures
        r.filters@ == "info"@,
        !r.is_test,
        is_proper_ip(r.host.ip@),
{
    get_default_env_logger_builder("info")
}

/// What is to be installed to log from level warn on.
pub fn init_default_env_logger_with_warn_level() -> (r: EnvLoggerSetup)
    ensures
        r.filters@ == "warn"@,
        !r.is_test,
        is_proper_ip(r.host.ip@),
{
    get_default_env_logger_builder("warn")
}

/// What is to be installed to log from level error on.
pub fn init_default_env_logger_with_error_level() -> (r: EnvLoggerSetup)
    ensures
        r.filters@ == "error"@,
        !r.is_test,
        is_proper_ip(r.host.ip@),
{
    get_default_env_logger_builder("error")
}

} // verus!
