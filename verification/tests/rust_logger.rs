use rusty_logger::config::{JsonConfig, LogConfig, LogFileConfig, Rotation};
use rusty_logger::error::ReloadError;
use rusty_logger::level::Severity;
use rusty_logger::rust_logger::{Installation, RustLogger};
use rusty_logger::sink::{Format, Writer};
use rusty_logger::timer::DEFAULT_TIME_PATTERN;

fn generate_test_file_config(
    level: String,
    stdout: bool,
    stderr: bool,
    rotate: &str,
    filename: &str,
) -> LogConfig {
    LogConfig {
        stdout,
        stderr,
        level,
        app_env: "development".to_string(),
        name: None,
        time_format:
            "[year]-[month]-[day] [hour repr:24]:[minute]:[second]::[subsecond digits:4]"
                .to_string(),
        json_config: Some(JsonConfig::new(None)),
        file_config: Some(LogFileConfig::new(
            Some(filename.to_string()),
            Some(rotate.to_string()),
        )),
        lock_guard: true,
        thread_id: false,
        show_target: false,
    }
}

fn generate_test_json_config(level: String, stdout: bool, stderr: bool) -> LogConfig {
    LogConfig {
        stdout,
        stderr,
        level,
        app_env: "development".to_string(),
        name: None,
        time_format:
            "[year]-[month]-[day] [hour repr:24]:[minute]:[second]::[subsecond digits:4]"
                .to_string(),
        json_config: Some(JsonConfig::new(None)),
        file_config: None,
        lock_guard: true,
        thread_id: true,
        show_target: false,
    }
}

fn generate_test_incorrect_config() -> LogConfig {
    LogConfig {
        stdout: false,
        stderr: false,
        level: "INFO".to_string(),
        app_env: "development".to_string(),
        name: None,
        time_format:
            "[year]-[month]-[day] [hour repr:24]:[minute]:[second]::[subsecond digits:4]"
                .to_string(),
        json_config: Some(JsonConfig::new(None)),
        file_config: None,
        lock_guard: true,
        thread_id: true,
        show_target: false,
    }
}

fn check_file_sink(logger: &RustLogger, directory: &str, prefix: &str, rotation: Rotation) {
    let sinks = logger.sinks();
    assert_eq!(sinks.len(), 2);
    assert!(matches!(sinks[0].writer, Writer::Stdout));
    match &sinks[1].writer {
        Writer::File { directory: found, file_name_prefix, rotation: found_rotation } => {
            assert_eq!(found, directory);
            assert_eq!(file_name_prefix, prefix);
            assert_eq!(*found_rotation, rotation);
        }
        other => panic!("not a file sink: {:?}", other),
    }
    assert_eq!(sinks[1].format, Format::Json { flatten_event: true });
}

#[test]
fn rust_logger_test_stdout_logger() {
    let levels = ["INFO", "DEBUG", "WARN", "ERROR", "TRACE"];

    levels.iter().for_each(|level| {
        let args = Some(vec!["10".to_string(), "10".to_string()]);
        let config = generate_test_json_config(level.to_string(), true, false);
        let logger = RustLogger::new(&config);
        let info = logger.info("test", args.clone(), &config);
        let debug = logger.debug("test", args.clone(), &config);
        let warning = logger.warning("test", args.clone(), &config);
        let error = logger.error("test", args.clone(), &config);
        let trace = logger.trace("test", args.clone(), &config);

        assert_eq!(info.level, Severity::Info);
        assert_eq!(debug.level, Severity::Debug);
        assert_eq!(warning.level, Severity::Warn);
        assert_eq!(error.level, Severity::Error);
        assert_eq!(trace.level, Severity::Trace);
        for event in [&info, &debug, &warning, &error, &trace] {
            assert_eq!(event.message, "test");
            assert_eq!(event.app_env, "development");
            assert_eq!(event.name, None);
            assert_eq!(event.metadata, None);
        }
        assert_eq!(logger.filter(), Severity::parse(level));
        assert_eq!(logger.sinks().len(), 1);
        assert!(matches!(logger.sinks()[0].writer, Writer::Stdout));
        assert!(logger.sinks()[0].thread_ids);
    });
}

#[test]
fn rust_logger_test_stderr_logger() {
    let levels = ["INFO", "DEBUG", "WARN", "ERROR", "TRACE"];

    levels.iter().for_each(|level| {
        let config = generate_test_json_config(level.to_string(), false, true);
        let logger = RustLogger::new(&config);
        let info = logger.info("test", None, &config);
        let debug = logger.debug("test", None, &config);
        let warning = logger.warning("test", None, &config);
        let error = logger.error("test", None, &config);
        let trace = logger.trace("test", None, &config);

        for event in [&info, &debug, &warning, &error, &trace] {
            assert_eq!(event.message, "test");
        }
        assert_eq!(logger.sinks().len(), 1);
        assert!(matches!(logger.sinks()[0].writer, Writer::Stderr));
        assert_eq!(logger.installation(), Installation::Scoped);
    });
}

#[test]
fn test_file_logger_minute() {
    let config = generate_test_file_config(
        "INFO".to_string(),
        true,
        false,
        "minutely",
        "minute/log.log",
    );
    let logger = RustLogger::new(&config);
    let event = logger.info("test", None, &config);
    assert_eq!(event.message, "test");
    check_file_sink(&logger, "minute", "log.log", Rotation::Minutely);
}

#[test]
fn test_file_logger_hourly() {
    let config =
        generate_test_file_config("INFO".to_string(), true, false, "hourly", "hourly/log.log");
    let logger = RustLogger::new(&config);
    let event = logger.info("test", None, &config);
    assert_eq!(event.message, "test");
    check_file_sink(&logger, "hourly", "log.log", Rotation::Hourly);
}

#[test]
fn test_file_logger_daily() {
    let config =
        generate_test_file_config("INFO".to_string(), true, false, "daily", "daily/log.log");
    let logger = RustLogger::new(&config);
    let event = logger.info("test", None, &config);
    assert_eq!(event.message, "test");
    check_file_sink(&logger, "daily", "log.log", Rotation::Daily);
}

#[test]
fn test_file_logger_never() {
    let config =
        generate_test_file_config("INFO".to_string(), true, false, "never", "never/log.log");
    let logger = RustLogger::new(&config);
    let event = logger.info("test", None, &config);
    assert_eq!(event.message, "test");
    check_file_sink(&logger, "never", "log.log", Rotation::Never);
}

#[test]
fn test_invalid_output() {
    let config = generate_test_incorrect_config();
    let logger = RustLogger::new(&config);
    let event = logger.info("test", None, &config);
    assert_eq!(event.message, "test");
    assert_eq!(logger.sinks().len(), 0);
}

#[test]
fn new_follows_the_configuration() {
    let mut config = generate_test_json_config("WARN".to_string(), true, true);
    config.lock_guard = false;
    let logger = RustLogger::new(&config);
    assert_eq!(logger.installation(), Installation::Global);
    assert!(!logger.holds_guard());
    assert_eq!(logger.filter(), Severity::Warn);
    assert_eq!(logger.sinks().len(), 2);
    assert_eq!(RustLogger::build_layers(&config).len(), 2);
    assert_eq!(
        logger.sinks()[0].timer.pattern,
        "[year]-[month]-[day] [hour repr:24]:[minute]:[second]::[subsecond digits:4]"
    );
}

#[test]
fn rejected_time_format_gives_the_default_timer() {
    let mut config = generate_test_json_config("INFO".to_string(), true, false);
    config.time_format = "[not a component]".to_string();
    let logger = RustLogger::new(&config);
    assert_eq!(logger.sinks()[0].timer.pattern, DEFAULT_TIME_PATTERN);
    assert!(logger.sinks()[0].timer.complaint.is_some());
}

#[test]
fn reload_swaps_the_filter_and_keeps_the_sinks() {
    let config = generate_test_file_config(
        "INFO".to_string(),
        true,
        true,
        "daily",
        "reload/log.log",
    );
    let mut logger = RustLogger::new(&config);
    assert!(!logger.records(Severity::Debug));
    assert!(logger.records(Severity::Info));

    assert_eq!(logger.reload_level("DEBUG"), Ok(()));
    assert_eq!(logger.filter(), Severity::Debug);
    assert!(logger.records(Severity::Debug));
    assert!(!logger.records(Severity::Trace));
    assert_eq!(logger.sinks().len(), 3);
    assert!(matches!(logger.sinks()[0].writer, Writer::Stdout));
    assert!(matches!(logger.sinks()[1].writer, Writer::Stderr));
    assert!(matches!(logger.sinks()[2].writer, Writer::File { .. }));
    assert_eq!(logger.installation(), Installation::Scoped);

    assert_eq!(logger.reload_level("nonsense"), Ok(()));
    assert_eq!(logger.filter(), Severity::Info);
    assert_eq!(logger.reload_level("ERROR"), Ok(()));
    assert!(!logger.records(Severity::Warn));
    assert!(logger.records(Severity::Error));
}

#[test]
fn dropped_guard_ends_a_scoped_pipeline() {
    let config = generate_test_json_config("INFO".to_string(), true, false);
    let mut logger = RustLogger::new(&config);
    assert!(logger.holds_guard());
    assert!(logger.drop_guard());
    assert_eq!(logger.installation(), Installation::Gone);
    assert!(!logger.holds_guard());
    assert!(!logger.drop_guard());

    assert_eq!(logger.reload_level("DEBUG"), Err(ReloadError::SubscriberGone));
    assert_eq!(logger.filter(), Severity::Info);
    assert!(!logger.records(Severity::Error));
    assert_eq!(logger.sinks().len(), 1);

    let event = logger.error("still {}", Some(vec!["here".to_string()]), &config);
    assert_eq!(event.message, "still here");
}

#[test]
fn a_global_pipeline_has_no_guard_to_drop() {
    let mut config = generate_test_json_config("INFO".to_string(), true, false);
    config.lock_guard = false;
    let mut logger = RustLogger::new(&config);
    assert!(!logger.drop_guard());
    assert_eq!(logger.installation(), Installation::Global);
    assert_eq!(logger.reload_level("TRACE"), Ok(()));
    assert!(logger.records(Severity::Trace));
    logger.pipeline_lost();
    assert_eq!(logger.installation(), Installation::Gone);
    assert_eq!(logger.reload_level("INFO"), Err(ReloadError::SubscriberGone));
    assert_eq!(logger.filter(), Severity::Trace);
}

#[test]
fn events_carry_the_environment_and_the_name() {
    let mut config = generate_test_json_config("INFO".to_string(), true, false);
    config.app_env = "production".to_string();
    config.name = Some("worker".to_string());
    let logger = RustLogger::new(&config);
    let event = logger.emit(
        Severity::Warn,
        "Hello {} {}",
        Some(vec!["0".to_string(), "1".to_string()]),
        &config,
    );
    assert_eq!(event.level, Severity::Warn);
    assert_eq!(event.message, "Hello 0 1");
    assert_eq!(event.app_env, "production");
    assert_eq!(event.name, Some("worker".to_string()));
    assert_eq!(event.metadata, None);

    let plain = logger.info("Hello {} {}", None, &config);
    assert_eq!(plain.message, "Hello {} {}");
    let short = logger.info("Hello {} {}", Some(vec!["0".to_string()]), &config);
    assert_eq!(short.message, "Hello {} {}");
}

#[test]
fn an_event_fans_out_to_every_sink_or_to_none() {
    let config = generate_test_file_config(
        "WARN".to_string(),
        true,
        true,
        "never",
        "fan/out.log",
    );
    let mut logger = RustLogger::new(&config);
    assert_eq!(logger.receivers(Severity::Info).len(), 0);
    let receivers = logger.receivers(Severity::Error);
    assert_eq!(receivers.len(), 3);
    assert!(matches!(receivers[0].writer, Writer::Stdout));
    assert!(matches!(receivers[1].writer, Writer::Stderr));
    assert!(matches!(receivers[2].writer, Writer::File { .. }));

    logger.reload_level("DEBUG").unwrap();
    assert_eq!(logger.receivers(Severity::Debug).len(), 3);
    assert_eq!(logger.receivers(Severity::Trace).len(), 0);

    logger.drop_guard();
    assert_eq!(logger.receivers(Severity::Error).len(), 0);
}

#[test]
fn a_failed_reload_is_undone() {
    let config = generate_test_json_config("INFO".to_string(), true, false);
    let mut logger = RustLogger::new(&config);
    let previous = logger.filter();
    logger.reload_level("DEBUG").unwrap();
    assert_eq!(logger.settle_reload(previous, Ok(())), Ok(()));
    assert_eq!(logger.filter(), Severity::Debug);
    assert_eq!(logger.installation(), Installation::Scoped);

    let previous = logger.filter();
    logger.reload_level("ERROR").unwrap();
    assert_eq!(
        logger.settle_reload(previous, Err(ReloadError::Poisoned)),
        Err(ReloadError::Poisoned)
    );
    assert_eq!(logger.filter(), Severity::Debug);
    assert_eq!(logger.installation(), Installation::Scoped);

    let previous = logger.filter();
    logger.reload_level("ERROR").unwrap();
    assert_eq!(
        logger.settle_reload(previous, Err(ReloadError::SubscriberGone)),
        Err(ReloadError::SubscriberGone)
    );
    assert_eq!(logger.filter(), Severity::Debug);
    assert_eq!(logger.installation(), Installation::Gone);
    assert_eq!(logger.sinks().len(), 1);
}
