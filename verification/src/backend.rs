//! The choice between the two ways of logging: to a syslog server over the
//! network, or locally to the console and to files.

use vstd::prelude::*;
use crate::config_for_flexi_logger::{daily_rotation, default_logger, LocalLoggerSetup};
use crate::text::lowercase;
use crate::toolbox::{is_bool_true, is_true_word_spec};

verus! {

/// Local logging to the console, to files, or to both: never to neither.
#[derive(Debug, Clone, Copy)]
pub struct LocalLog {
    enabled_console_log: bool,
    enabled_file_log: bool,
}

/// The way of logging that a process is set up with.
#[derive(Debug, Clone, Copy)]
pub enum Backend {
    /// Lines go to a syslog server.
    Network,
    /// Lines stay on this host.
    Local(LocalLog),
}

/// Why no backend could be chosen.
#[derive(Clone, Copy, Debug, PartialEq, Eq, Structural)]
pub enum BackendError {
    /// Local logging was asked for, with neither the console nor files
    /// switched on.
    NoLocalSink,
}

impl LocalLog {
    #[verifier::type_invariant]
    spec fn has_a_sink(self) -> bool {
        self.enabled_console_log || self.enabled_file_log
    }

    /// Whether lines go to the console.
    pub closed spec fn console(&self) -> bool {
        self.enabled_console_log
    }

    /// Whether lines go to files.
    pub closed spec fn file(&self) -> bool {
        self.enabled_file_log
    }

    /// Local logging to the sinks that are switched on. One of them must be:
    /// with both off no value is made, and the reason is given instead.
    pub fn new(enabled_console_log: bool, enabled_file_log: bool) -> (r: Result<
        LocalLog,
        BackendError,
    >)
        ensures
            r is Ok <==> enabled_console_log || enabled_file_log,
            r matches Ok(log) ==> log.console() == enabled_console_log && log.file()
                == enabled_file_log,
            r matches Err(e) ==> e == BackendError::NoLocalSink,
    {
        if enabled_console_log || enabled_file_log {
            Ok(LocalLog { enabled_console_log, enabled_file_log })
        } else {
            Err(BackendError::NoLocalSink)
        }
    }

    /// Whether lines go to the console.
    pub fn enabled_console_log(&self) -> (r: bool)
        ensures
            r == self.console(),
    {
        self.enabled_console_log
    }

    /// Whether lines go to files.
    pub fn enabled_file_log(&self) -> (r: bool)
        ensures
            r == self.file(),
    {
        self.enabled_file_log
    }

    /// States what the type keeps at all times: one sink at least is on.
    pub fn holds_a_sink(&self)
        ensures
            self.console() || self.file(),
    {
        proof {
            use_type_invariant(self);
        }
    }

    /// Starts local logging for `log_spec`: gives the settings that the
    /// logger is to be started with, each sink as this value has it.
    pub fn start_local_logger(&self, log_spec: &str) -> (r: LocalLoggerSetup)
        ensures
            self.console() || self.file(),
            r.log_spec@ == log_spec@,
            r.print_message,
            r.duplicate_to_stdout == self.console(),
            r.file == if self.file() {
                Some(daily_rotation())
            } else {
                None
            },
    {
        proof {
            use_type_invariant(self);
        }
        start_local_logger(log_spec, self.enabled_console_log, self.enabled_file_log)
    }
}

/// Starts local logging for `log_spec` to the sinks that are switched on, of
/// which there must be one: gives the settings that the logger is to be
/// started with.
pub fn start_local_logger(log_spec: &str, enabled_console_log: bool, enabled_file_log: bool) -> (r:
    LocalLoggerSetup)
    requires
        enabled_console_log || enabled_file_log,
    ensures
        r.log_spec@ == log_spec@,
        r.print_message,
        r.duplicate_to_stdout == enabled_console_log,
        r.file == if enabled_file_log {
            Some(daily_rotation())
        } else {
            None
        },
{
    default_logger(log_spec, enabled_console_log, enabled_file_log)
}

/// The backend that three switches stand for. The network wins where it is
/// switched on; else the local sinks count, and one of them must be on.
pub open spec fn backend_matches(
    r: Result<Backend, BackendError>,
    udp: bool,
    console: bool,
    file: bool,
) -> bool {
    match r {
        Ok(Backend::Network) => udp,
        Ok(Backend::Local(log)) => !udp && (console || file) && log.console() == console
            && log.file() == file,
        Err(e) => !udp && !console && !file && e == BackendError::NoLocalSink,
    }
}

/// Chooses the backend from three switches: see [`backend_matches`].
pub fn backend_from_flags(udp: bool, console: bool, file: bool) -> (r: Result<
    Backend,
    BackendError,
>)
    ensures
        backend_matches(r, udp, console, file),
{
    if udp {
        Ok(Backend::Network)
    } else {
        match LocalLog::new(console, file) {
            Ok(log) => Ok(Backend::Local(log)),
            Err(e) => Err(e),
        }
    }
}

/// Chooses the backend from three switches as they are written on a command
/// line or in the environment, each read by
/// [`is_bool_true`](crate::toolbox::is_bool_true).
pub fn choose_backend(
    enabled_udp_logger_arg: &str,
    enabled_local_console_log_arg: &str,
    enabled_local_file_log_arg: &str,
) -> (r: Result<Backend, BackendError>)
    ensures
        backend_matches(
            r,
            is_true_word_spec(lowercase(enabled_udp_logger_arg@)),
            is_true_word_spec(lowercase(enabled_local_console_log_arg@)),
            is_true_word_spec(lowercase(enabled_local_file_log_arg@)),
        ),
{
    backend_from_flags(
        is_bool_true(enabled_udp_logger_arg),
        is_bool_true(enabled_local_console_log_arg),
        is_bool_true(enabled_local_file_log_arg),
    )
}

} // verus!
