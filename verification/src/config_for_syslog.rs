//! Settings of the logger that sends its lines to a syslog server over UDP.

use vstd::prelude::*;
use crate::host::HostIdentity;
use crate::text::{lowercase, lowercased, replace_char, replaced, starts_with};

verus! {

/// The most verbose level that a logger lets through.
#[derive(Clone, Copy, Debug, PartialEq, Eq, Structural)]
pub enum LevelFilter {
    Off,
    Error,
    Warn,
    Info,
    Debug,
    Trace,
}

/// The local socket address that the sender binds: any address, any port.
pub const ANY_LOCAL_ADDRESS: &'static str = "0.0.0.0:0";

/// The level that a lower-case log directive begins with, tried in the
/// order trace, debug, info, warn, error, off. A directive that begins with
/// none of them stands for `Info`.
pub open spec fn level_of(lowered: Seq<char>) -> LevelFilter {
    if "trace"@.is_prefix_of(lowered) {
        LevelFilter::Trace
    } else if "debug"@.is_prefix_of(lowered) {
        LevelFilter::Debug
    } else if "info"@.is_prefix_of(lowered) {
        LevelFilter::Info
    } else if "warn"@.is_prefix_of(lowered) {
        LevelFilter::Warn
    } else if "error"@.is_prefix_of(lowered) {
        LevelFilter::Error
    } else if "off"@.is_prefix_of(lowered) {
        LevelFilter::Off
    } else {
        LevelFilter::Info
    }
}

/// Reads the level off a log directive that is already in lower case:
/// see [`level_of`].
pub fn level_from_lowercase(lowered: &str) -> (r: LevelFilter)
    ensures
        r == level_of(lowered@),
{
    if starts_with(lowered, "trace") {
        LevelFilter::Trace
    } else if starts_with(lowered, "debug") {
        LevelFilter::Debug
    } else if starts_with(lowered, "info") {
        LevelFilter::Info
    } else if starts_with(lowered, "warn") {
        LevelFilter::Warn
    } else if starts_with(lowered, "error") {
        LevelFilter::Error
    } else if starts_with(lowered, "off") {
        LevelFilter::Off
    } else {
        LevelFilter::Info
    }
}

/// Reads the level off a log directive in any case. Only its beginning
/// counts, so `debug;h2=info` stands for `Debug`; what names no level stands
/// for `Info`.
pub fn get_formal_log_level_from_str(s: &str) -> (r: LevelFilter)
    ensures
        r == level_of(lowercase(s@)),
{
    let lowered = lowercased(s);
    level_from_lowercase(lowered.as_str())
}

/// The host name that syslog records carry: name and address joined by `_`,
/// with `N` for each `/` of the address.
pub open spec fn hostname_in_log_spec(name: Seq<char>, ip: Seq<char>) -> Seq<char> {
    name + "_"@ + replaced(ip, '/', 'N')
}

/// Builds the host name that syslog records carry: see
/// [`hostname_in_log_spec`].
pub fn hostname_in_log(name: &str, ip: &str) -> (r: String)
    ensures
        r@ == hostname_in_log_spec(name@, ip@),
{
    let mut out = name.to_owned();
    out.append("_");
    let address = replace_char(ip, '/', 'N');
    out.append(address.as_str());
    out
}

/// What the UDP logger is started with, but for the server's address, the
/// facility and the process id, which the caller holds.
#[derive(Clone, Debug, PartialEq, Eq)]
pub struct UdpLoggerSetup {
    pub hostname_in_log: String,
    pub process: String,
    pub local_address: String,
    pub level_filter: LevelFilter,
}

/// The settings of the UDP logger of process `process_name` on `host`, cut
/// off at `level_filter`.
pub fn udp_logger_setup(host: &HostIdentity, process_name: &str, level_filter: LevelFilter) -> (r:
    UdpLoggerSetup)
    ensures
        r.hostname_in_log@ == hostname_in_log_spec(host.name@, host.ip@),
        r.process@ == process_name@,
        r.local_address@ == ANY_LOCAL_ADDRESS@,
        r.level_filter == level_filter,
{
    UdpLoggerSetup {
        hostname_in_log: hostname_in_log(host.name.as_str(), host.ip.as_str()),
        process: process_name.to_owned(),
        local_address: ANY_LOCAL_ADDRESS.to_owned(),
        level_filter,
    }
}

/// The settings of the UDP logger of process `process_name` on `host` for the
/// log directive `log_spec`, of which the level is read.
pub fn udp_logger_setup_for_spec(host: &HostIdentity, process_name: &str, log_spec: &str) -> (r:
    UdpLoggerSetup)
    ensures
        r.hostname_in_log@ == hostname_in_log_spec(host.name@, host.ip@),
        r.process@ == process_name@,
        r.local_address@ == ANY_LOCAL_ADDRESS@,
        r.level_filter == level_of(lowercase(log_spec@)),
{
    udp_logger_setup(host, process_name, get_formal_log_level_from_str(log_spec))
}

/// What asking for the start does to a guard that is in state `started`:
/// the state it is left in, and whether the caller is to go ahead.
pub open spec fn begin_spec(started: bool) -> (bool, bool) {
    (true, !started)
}

/// Remembers whether a process-wide logger was started, so that it is
/// started once however often a start is asked for.
#[derive(Debug)]
pub struct StartGuard {
    started: bool,
}

impl StartGuard {
    /// Whether a start was granted already.
    pub closed spec fn is_started(&self) -> bool {
        self.started
    }

    /// A guard that has granted nothing yet.
    pub fn new() -> (r: StartGuard)
        ensures
            !r.is_started(),
    {
        StartGuard { started: false }
    }

    /// Whether a start was granted already.
    pub fn started(&self) -> (r: bool)
        ensures
            r == self.is_started(),
    {
        self.started
    }

    /// Asks for the start. The first call is told to go ahead; every later
    /// call is told to do nothing.
    pub fn begin(&mut self) -> (go: bool)
        ensures
            (final(self).is_started(), go) == begin_spec(old(self).is_started()),
    {
        let go = !self.started;
        self.started = true;
        go
    }
}

/// The start of the UDP logger where it may be asked for many times, as in
/// tests: the settings on the first call on `guard`, nothing on later ones.
pub fn start_udp_logger_in_test(
    guard: &mut StartGuard,
    host: &HostIdentity,
    process_name: &str,
    level_filter: LevelFilter,
) -> (r: Option<UdpLoggerSetup>)
    ensures
        final(guard).is_started(),
        r is Some <==> !old(guard).is_started(),
        r matches Some(setup) ==> {
            &&& setup.hostname_in_log@ == hostname_in_log_spec(host.name@, host.ip@)
            &&& setup.process@ == process_name@
            &&& setup.local_address@ == ANY_LOCAL_ADDRESS@
            &&& setup.level_filter == level_filter
        },
{
    if guard.begin() {
        Some(udp_logger_setup(host, process_name, level_filter))
    } else {
        None
    }
}

/// Whatever the state of a guard, the call of [`StartGuard::begin`] that
/// follows another is told to do nothing, and the guard stays started.
pub proof fn lemma_second_start_is_refused(started: bool)
    ensures
        begin_spec(begin_spec(started).0) == (true, false),
{
}

} // verus!
