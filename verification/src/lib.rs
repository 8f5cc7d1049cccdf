//! Planning layer for process logging: which backend to start and with what
//! settings, how log lines are laid out, which address stands for the host,
//! and the small text utilities that these are built from.
//!
//! Nothing here opens a socket or a file or installs a logger. Each start
//! function gives the settings to start with, and the caller carries them out.

pub mod address;
pub mod backend;
pub mod config_for_env_logger;
pub mod config_for_flexi_logger;
pub mod config_for_syslog;
pub mod host;
pub mod layout;
pub mod test_helper;
pub mod text;
pub mod toolbox;

pub use crate::backend::{
    backend_from_flags, choose_backend, start_local_logger, Backend, BackendError, LocalLog,
};
pub use crate::config_for_env_logger::get_default_env_logger_builder;
pub use crate::host::{get_proper_ip, hostname};
