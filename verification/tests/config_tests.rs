use log_setup::config_for_env_logger::{
    init_default_env_logger, init_default_env_logger_with_debug_level,
    init_default_env_logger_with_error_level, init_default_env_logger_with_info_level,
    init_default_env_logger_with_warn_level, EnvLoggerSetup,
};
use log_setup::config_for_flexi_logger::{
    default_logger, detailed_line, LocalLoggerSetup, Rotation, KEPT_LOG_FILES,
    LOG_UTC_OFFSET_HOURS,
};
use log_setup::config_for_syslog::{
    get_formal_log_level_from_str, hostname_in_log, level_from_lowercase,
    start_udp_logger_in_test, udp_logger_setup, udp_logger_setup_for_spec, LevelFilter,
    StartGuard, ANY_LOCAL_ADDRESS,
};
use log_setup::host::HostIdentity;
use log_setup::layout::{file_location, format_event, LogEvent};
use log_setup::{
    backend_from_flags, choose_backend, get_default_env_logger_builder, start_local_logger,
    Backend, BackendError, LocalLog,
};

fn host() -> HostIdentity {
    HostIdentity { name: "box".to_string(), ip: "192.168.1.5/24".to_string() }
}

fn daily() -> Option<Rotation> {
    Some(Rotation { utc_offset_hours: 8, kept_files: 1024 })
}

#[test]
fn test_get_log_level() {
    assert_eq!(get_formal_log_level_from_str("trace"), LevelFilter::Trace);
    assert_eq!(get_formal_log_level_from_str("debUG"), LevelFilter::Debug);
    assert_eq!(get_formal_log_level_from_str("info"), LevelFilter::Info);
    assert_eq!(get_formal_log_level_from_str("warn"), LevelFilter::Warn);
    assert_eq!(get_formal_log_level_from_str("error"), LevelFilter::Error);
}

#[test]
fn log_level_off_and_fallback() {
    assert_eq!(get_formal_log_level_from_str("off"), LevelFilter::Off);
    assert_eq!(get_formal_log_level_from_str("OFF"), LevelFilter::Off);
    assert_eq!(get_formal_log_level_from_str(""), LevelFilter::Info);
    assert_eq!(get_formal_log_level_from_str("verbose"), LevelFilter::Info);
    assert_eq!(get_formal_log_level_from_str(" debug"), LevelFilter::Info);
    assert_eq!(get_formal_log_level_from_str("h2=debug"), LevelFilter::Info);
}

#[test]
fn log_level_counts_only_the_beginning() {
    assert_eq!(get_formal_log_level_from_str("debug;h2=info"), LevelFilter::Debug);
    assert_eq!(get_formal_log_level_from_str("TRACE,hyper=warn"), LevelFilter::Trace);
    assert_eq!(get_formal_log_level_from_str("warning"), LevelFilter::Warn);
    assert_eq!(get_formal_log_level_from_str("Errors"), LevelFilter::Error);
}

#[test]
fn level_from_lowercase_is_taken_as_written() {
    assert_eq!(level_from_lowercase("debug"), LevelFilter::Debug);
    assert_eq!(level_from_lowercase("DEBUG"), LevelFilter::Info);
    assert_eq!(level_from_lowercase("trace"), LevelFilter::Trace);
    assert_eq!(level_from_lowercase("off"), LevelFilter::Off);
}

#[test]
fn test_start_logger_automatically_local_console_and_local_file() {
    let log_spec = "debug";

    let setup = LocalLog::new(true, true).unwrap().start_local_logger(log_spec);

    assert_eq!(
        setup,
        LocalLoggerSetup {
            log_spec: "debug".to_string(),
            print_message: true,
            duplicate_to_stdout: true,
            file: daily(),
        }
    );
}

#[test]
fn test_start_logger_automatically_local_console_only() {
    let log_spec = "debug";

    let setup = LocalLog::new(true, false).unwrap().start_local_logger(log_spec);

    assert_eq!(
        setup,
        LocalLoggerSetup {
            log_spec: "debug".to_string(),
            print_message: true,
            duplicate_to_stdout: true,
            file: None,
        }
    );
}

#[test]
fn test_start_logger_automatically_local_file_only() {
    let log_spec = "debug";

    let setup = LocalLog::new(false, true).unwrap().start_local_logger(log_spec);

    assert_eq!(
        setup,
        LocalLoggerSetup {
            log_spec: "debug".to_string(),
            print_message: true,
            duplicate_to_stdout: false,
            file: daily(),
        }
    );
}

#[test]
fn test_start_logger_automatically_udp() {
    let backend = choose_backend("true", "false", "false");
    assert!(matches!(backend, Ok(Backend::Network)));
    let setup = udp_logger_setup_for_spec(&host(), "process_name", "debug");
    assert_eq!(setup.process, "process_name");
    assert_eq!(setup.level_filter, LevelFilter::Debug);
    assert_eq!(setup.local_address, "0.0.0.0:0");
}

#[test]
fn test_syslog_udp_sending() {
    let mut guard = StartGuard::new();
    let first = start_udp_logger_in_test(&mut guard, &host(), "logger", LevelFilter::Debug);
    assert_eq!(
        first,
        Some(udp_logger_setup(&host(), "logger", LevelFilter::Debug))
    );
    let setup = first.unwrap();
    assert_eq!(setup.hostname_in_log, "box_192.168.1.5N24");
    assert_eq!(setup.process, "logger");
    assert_eq!(setup.local_address, "0.0.0.0:0");
    assert_eq!(setup.level_filter, LevelFilter::Debug);
    let second = start_udp_logger_in_test(&mut guard, &host(), "logger", LevelFilter::Debug);
    assert_eq!(second, None);
}

#[test]
fn test_get_default_env_logger_builder() {
    let builder = get_default_env_logger_builder("debug");
    assert_eq!(builder.filters, "debug");
    assert!(!builder.is_test);
}

#[test]
fn env_logger_levels() {
    assert_eq!(init_default_env_logger("a=info,b=warn").filters, "a=info,b=warn");
    assert_eq!(init_default_env_logger_with_debug_level().filters, "debug");
    assert_eq!(init_default_env_logger_with_info_level().filters, "info");
    assert_eq!(init_default_env_logger_with_warn_level().filters, "warn");
    assert_eq!(init_default_env_logger_with_error_level().filters, "error");
    assert!(!init_default_env_logger_with_debug_level().is_test);
}

#[test]
fn test_helper_setup_is_for_tests() {
    let setup = log_setup::test_helper::default_logger("debug");
    assert_eq!(setup.filters, "debug");
    assert!(setup.is_test);
}

#[test]
fn guard_grants_the_start_once() {
    let mut guard = StartGuard::new();
    assert!(!guard.started());
    assert!(guard.begin());
    assert!(guard.started());
    assert!(!guard.begin());
    assert!(!guard.begin());
    assert!(guard.started());
}

#[test]
fn syslog_hostname() {
    assert_eq!(hostname_in_log("box", "192.168.1.5/24"), "box_192.168.1.5N24");
    assert_eq!(hostname_in_log("box", ""), "box_");
    assert_eq!(hostname_in_log("", "::1/128"), "_::1N128");
    assert_eq!(ANY_LOCAL_ADDRESS, "0.0.0.0:0");
}

#[test]
fn local_logger_settings() {
    assert_eq!(LOG_UTC_OFFSET_HOURS, 8);
    assert_eq!(KEPT_LOG_FILES, 1024);
    let neither = default_logger("info", false, false);
    assert_eq!(neither.log_spec, "info");
    assert!(neither.print_message);
    assert!(!neither.duplicate_to_stdout);
    assert_eq!(neither.file, None);
    let both = default_logger("debug;h2=info", true, true);
    assert_eq!(both.log_spec, "debug;h2=info");
    assert!(both.duplicate_to_stdout);
    assert_eq!(both.file, daily());
    assert_eq!(start_local_logger("warn", false, true), default_logger("warn", false, true));
}

#[test]
fn local_log_keeps_its_switches() {
    let log = LocalLog::new(true, false).unwrap();
    assert!(log.enabled_console_log());
    assert!(!log.enabled_file_log());
    log.holds_a_sink();
    let log = LocalLog::new(false, true).unwrap();
    assert!(!log.enabled_console_log());
    assert!(log.enabled_file_log());
    assert!(LocalLog::new(true, true).is_ok());
}

#[test]
fn backend_choice() {
    assert!(matches!(backend_from_flags(true, false, false), Ok(Backend::Network)));
    assert!(matches!(backend_from_flags(true, true, true), Ok(Backend::Network)));
    match backend_from_flags(false, true, false) {
        Ok(Backend::Local(log)) => {
            assert!(log.enabled_console_log());
            assert!(!log.enabled_file_log());
        }
        other => panic!("{:?}", other),
    }
    assert!(matches!(backend_from_flags(false, false, false), Err(BackendError::NoLocalSink)));
    match choose_backend("no", "YES", "Ok") {
        Ok(Backend::Local(log)) => {
            assert!(log.enabled_console_log());
            assert!(log.enabled_file_log());
        }
        other => panic!("{:?}", other),
    }
    assert!(matches!(choose_backend("1", "", ""), Ok(Backend::Network)));
    assert!(matches!(choose_backend("", "0", "off"), Err(BackendError::NoLocalSink)));
}

#[test]
fn file_locations() {
    assert_eq!(file_location(Some("/abs/src/main.rs"), ""), "file:///abs/src/main.rs");
    assert_eq!(file_location(Some("src/oauth2/http.rs"), ""), "src/oauth2/http.rs");
    assert_eq!(file_location(Some(""), "<unnamed>"), "");
    assert_eq!(file_location(None, "<unnamed>"), "<unnamed>");
    assert_eq!(file_location(None, ""), "");
}

#[test]
fn console_line() {
    let setup = EnvLoggerSetup { host: host(), filters: "debug".to_string(), is_test: false };
    let event = LogEvent {
        level: "INFO",
        timestamp: "2021-10-19 16:07:13.381 +08:00",
        module_name: Some("portal::oauth2::http"),
        file: Some("src/oauth2/http.rs"),
        line: Some(205),
        message: "hello",
    };
    assert_eq!(
        setup.format(&event),
        "[INFO] 2021-10-19 16:07:13.381 +08:00 box-192.168.1.5/24 portal::oauth2::http:205 src/oauth2/http.rs:205 hello\n"
    );
    let bare = LogEvent {
        level: "WARN",
        timestamp: "now",
        module_name: None,
        file: None,
        line: None,
        message: "",
    };
    assert_eq!(setup.format(&bare), "[WARN] now box-192.168.1.5/24 :0 :0 \n");
}

#[test]
fn local_line() {
    let event = LogEvent {
        level: "ERROR",
        timestamp: "2016-01-13 15:25:01.640870 +08:00",
        module_name: Some("foo::bar"),
        file: Some("/home/me/src/foo/bar.rs"),
        line: Some(26),
        message: "Task failed",
    };
    assert_eq!(
        detailed_line(&host(), &event),
        "[ERROR] 2016-01-13 15:25:01.640870 +08:00 box-192.168.1.5/24 foo::bar:26 file:///home/me/src/foo/bar.rs:26 Task failed"
    );
    let bare = LogEvent {
        level: "DEBUG",
        timestamp: "t",
        module_name: None,
        file: None,
        line: None,
        message: "m",
    };
    assert_eq!(
        detailed_line(&host(), &bare),
        "[DEBUG] t box-192.168.1.5/24 <unnamed>:0 <unnamed>:0 m"
    );
    assert_eq!(format_event(&host(), &bare, "?"), "[DEBUG] t box-192.168.1.5/24 ?:0 ?:0 m");
}

#[test]
fn local_log_with_both_sinks_off_is_refused() {
    assert!(LocalLog::new(false, false).is_err());
    assert_eq!(LocalLog::new(false, false).err(), Some(BackendError::NoLocalSink));
}

#[test]
fn host_identity_carries_a_proper_ip() {
    let host = log_setup::host::host_identity();
    assert!(host.ip.is_empty() || host.ip.contains('/'));
    let setup = get_default_env_logger_builder("info");
    assert!(setup.host.ip.is_empty() || setup.host.ip.contains('/'));
    let setup = log_setup::test_helper::default_logger("info");
    assert!(setup.host.ip.is_empty() || setup.host.ip.contains('/'));
}
