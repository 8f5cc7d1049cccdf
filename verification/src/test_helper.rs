//! Settings of the console logger for use under a test harness.

use vstd::prelude::*;
use crate::address::is_proper_ip;
use crate::config_for_env_logger::{get_default_env_logger_builder, EnvLoggerSetup};

verus! {

/// The settings of the console logger for `log_spec`, written so that a test
/// harness can capture the lines.
pub fn default_logger(log_spec: &str) -> (r: EnvLoggerSetup)
    ensures
        r.filters@ == log_spec@,
        r.is_test,
        is_proper_ip(r.host.ip@),
{
    let mut setup = get_default_env_logger_builder(log_spec);
    setup.is_test = true;
    setup
}

} // verus!
