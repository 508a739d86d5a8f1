use rusty_logger::config::{JsonConfig, LogConfig, LogFileConfig, Rotation};
use rusty_logger::error::{LoggingError, ReloadError};
use rusty_logger::level::Severity;
use rusty_logger::pylogger::PyLogger;
use rusty_logger::rust_logger::Installation;
use rusty_logger::sink::{Format, Writer};

fn strings(items: &[&str]) -> Vec<String> {
    items.iter().map(|item| item.to_string()).collect()
}

fn config_with(
    stdout: Option<bool>,
    json: Option<JsonConfig>,
    file: Option<LogFileConfig>,
    lock_guard: Option<bool>,
) -> LogConfig {
    LogConfig::new(stdout, None, None, None, None, None, json, file, lock_guard, None, None, None)
}

#[test]
fn default_logger() {
    let logger = PyLogger::get_logger(None, None, None);
    assert!(logger.config().stdout);
    assert_eq!(logger.config().level, "INFO");
    assert_eq!(logger.config().app_env, "development");
    assert_eq!(logger.config().name, None);
    assert_eq!(logger.logger().installation(), Installation::Global);
    assert_eq!(logger.logger().filter(), Severity::Info);
    assert_eq!(logger.logger().sinks().len(), 1);
    assert!(matches!(logger.logger().sinks()[0].writer, Writer::Stdout));
    assert_eq!(logger.logger().sinks()[0].format, Format::Text);
}

#[test]
fn default_logger_takes_name_and_environment() {
    let logger = PyLogger::get_logger(
        Some("pkg/module.py".to_string()),
        None,
        Some("staging".to_string()),
    );
    assert_eq!(logger.config().name, Some("module.py".to_string()));
    assert_eq!(logger.config().app_env, "staging");
}

#[test]
fn name_of_the_configuration_wins() {
    let mut config = config_with(Some(true), None, None, None);
    config.update_name("configured".to_string());
    let logger = PyLogger::get_logger(Some("ignored".to_string()), Some(config), None);
    assert_eq!(logger.config().name, Some("configured".to_string()));

    let unnamed = config_with(Some(true), None, None, None);
    let logger = PyLogger::get_logger(Some("a/b/given".to_string()), Some(unnamed), None);
    assert_eq!(logger.config().name, Some("given".to_string()));
}

#[test]
fn getting_a_logger_twice_does_not_fail() {
    let first = PyLogger::get_logger(None, None, None);
    let second = PyLogger::get_logger(None, None, None);
    assert_eq!(first.logger().sinks().len(), 1);
    assert_eq!(second.logger().sinks().len(), 1);
}

#[test]
fn set_level_changes_the_filter_only() {
    let file = LogFileConfig::new(Some("set_level/log.log".to_string()), None);
    let mut logger = PyLogger::get_logger(
        None,
        Some(config_with(Some(true), None, Some(file), None)),
        None,
    );
    assert!(!logger.records(Severity::Debug));
    assert!(logger.set_level("DEBUG".to_string()).is_ok());
    assert!(logger.records(Severity::Debug));
    assert_eq!(logger.logger().filter(), Severity::Debug);
    assert_eq!(logger.logger().sinks().len(), 2);
    assert!(matches!(logger.logger().sinks()[0].writer, Writer::Stdout));
    assert!(matches!(logger.logger().sinks()[1].writer, Writer::File { .. }));
    assert_eq!(logger.config().level, "INFO");

    let event = logger.debug("now {}", strings(&["visible"]), None);
    assert_eq!(event.level, Severity::Debug);
    assert_eq!(event.message, "now visible");
}

#[test]
fn set_level_after_drop_guard_fails_without_effect() {
    let mut logger = PyLogger::get_logger(
        None,
        Some(config_with(Some(true), None, None, Some(true))),
        None,
    );
    assert_eq!(logger.logger().installation(), Installation::Scoped);
    assert!(logger.drop_guard());
    assert!(!logger.drop_guard());
    match logger.set_level("DEBUG".to_string()) {
        Err(LoggingError::Error(detail)) => assert_eq!(detail, "subscriber no longer exists"),
        Ok(()) => panic!("the level of a pipeline that is gone was set"),
    }
    assert_eq!(logger.logger().filter(), Severity::Info);
    assert!(!logger.records(Severity::Error));
    assert_eq!(logger.logger().sinks().len(), 1);
    let event = logger.info("after", Vec::new(), None);
    assert_eq!(event.message, "after");
}

#[test]
fn error_text_has_a_heading() {
    let mut logger = PyLogger::get_logger(
        None,
        Some(config_with(Some(true), None, None, Some(true))),
        None,
    );
    logger.drop_guard();
    let error = logger.set_level("DEBUG".to_string()).unwrap_err();
    assert_eq!(error.message(), "Logging Error: subscriber no longer exists");
    assert_eq!(LoggingError::Error("x".to_string()).message(), "Logging Error: x");
}

#[test]
fn enable_json_rebuilds_the_pipeline() {
    let mut logger = PyLogger::get_logger(
        None,
        Some(config_with(Some(true), None, None, Some(true))),
        None,
    );
    assert_eq!(logger.logger().sinks()[0].format, Format::Text);
    logger.set_level("ERROR".to_string()).unwrap();
    logger.drop_guard();

    logger.enable_json();
    assert_eq!(logger.config().json_config, Some(JsonConfig { flatten: true }));
    assert_eq!(logger.logger().sinks().len(), 1);
    assert_eq!(logger.logger().sinks()[0].format, Format::Json { flatten_event: true });
    assert_eq!(logger.logger().installation(), Installation::Scoped);
    assert_eq!(logger.logger().filter(), Severity::Info);
}

#[test]
fn enable_json_keeps_a_configured_layout() {
    let mut logger = PyLogger::get_logger(
        None,
        Some(config_with(Some(true), Some(JsonConfig::new(Some(false))), None, None)),
        None,
    );
    logger.enable_json();
    assert_eq!(logger.config().json_config, Some(JsonConfig { flatten: false }));
    assert_eq!(logger.logger().sinks()[0].format, Format::Json { flatten_event: false });
}

#[test]
fn update_name_keeps_the_file_name() {
    let mut logger = PyLogger::get_logger(None, None, None);
    logger.update_name("src/tasks/job.py".to_string());
    assert_eq!(logger.config().name, Some("job.py".to_string()));
    let event = logger.info("named", Vec::new(), None);
    assert_eq!(event.name, Some("job.py".to_string()));
}

#[test]
fn calls_at_every_level() {
    let logger = PyLogger::get_logger(Some("app".to_string()), None, Some("ci".to_string()));
    let args = strings(&["0", "1"]);
    let info = logger.info("Hello {} {}", args.clone(), None);
    let debug = logger.debug("Hello {} {}", args.clone(), None);
    let warning = logger.warning("Hello {} {}", args.clone(), None);
    let error = logger.error("Hello {} {}", args.clone(), None);
    let trace = logger.trace("Hello {} {}", args.clone(), None);
    assert_eq!(info.level, Severity::Info);
    assert_eq!(debug.level, Severity::Debug);
    assert_eq!(warning.level, Severity::Warn);
    assert_eq!(error.level, Severity::Error);
    assert_eq!(trace.level, Severity::Trace);
    for event in [&info, &debug, &warning, &error, &trace] {
        assert_eq!(event.message, "Hello 0 1");
        assert_eq!(event.app_env, "ci");
        assert_eq!(event.name, Some("app".to_string()));
        assert_eq!(event.metadata, None);
    }
    let plain = logger.info("Hello {} {}", Vec::new(), None);
    assert_eq!(plain.message, "Hello {} {}");
}

#[test]
fn metadata_goes_with_one_call_only() {
    let logger = PyLogger::get_logger(None, None, None);
    let metadata = vec![
        ("user".to_string(), "ada".to_string()),
        ("request".to_string(), "42".to_string()),
    ];
    let with = logger.emit(Severity::Info, "m", Vec::new(), Some(metadata.clone()));
    assert_eq!(with.metadata, Some(metadata));
    let without = logger.info("m", Vec::new(), None);
    assert_eq!(without.metadata, None);
}

#[test]
fn json_file_scenario() {
    let config = LogConfig::new(
        None,
        None,
        None,
        None,
        None,
        None,
        Some(JsonConfig::new(Some(true))),
        Some(LogFileConfig::new(Some("log/test.log".to_string()), Some("never".to_string()))),
        None,
        None,
        None,
        None,
    );
    let logger = PyLogger::get_logger(None, Some(config), None);
    let sinks = logger.logger().sinks();
    assert_eq!(sinks.len(), 1);
    assert_eq!(sinks[0].format, Format::Json { flatten_event: true });
    match &sinks[0].writer {
        Writer::File { directory, file_name_prefix, rotation } => {
            assert_eq!(directory, "log");
            assert_eq!(file_name_prefix, "test.log");
            assert_eq!(*rotation, Rotation::Never);
        }
        other => panic!("not a file sink: {:?}", other),
    }
    let event = logger.info("Hello World {} {}", strings(&["0", "1"]), None);
    assert_eq!(event.message, "Hello World 0 1");
    assert!(logger.records(event.level));
}

#[test]
fn stored_configuration_can_be_replaced() {
    let mut logger = PyLogger::get_logger(None, None, None);
    let mut config = logger.config().clone();
    config.app_env = "elsewhere".to_string();
    logger.set_config(config);
    assert_eq!(logger.config().app_env, "elsewhere");
    assert_eq!(logger.logger().sinks().len(), 1);
    logger.pipeline_lost();
    assert_eq!(logger.logger().installation(), Installation::Gone);
}

#[test]
fn a_reload_that_the_pipeline_refused_is_reported() {
    let mut logger = PyLogger::get_logger(None, None, None);
    let previous = logger.logger().filter();
    logger.set_level("TRACE".to_string()).unwrap();
    assert!(logger.settle_reload(previous, Ok(())).is_ok());
    assert_eq!(logger.logger().filter(), Severity::Trace);

    let previous = logger.logger().filter();
    logger.set_level("ERROR".to_string()).unwrap();
    let error = logger.settle_reload(previous, Err(ReloadError::SubscriberGone)).unwrap_err();
    assert_eq!(error.message(), "Logging Error: subscriber no longer exists");
    assert_eq!(logger.logger().filter(), Severity::Trace);
    assert_eq!(logger.logger().installation(), Installation::Gone);
    assert!(logger.set_level("DEBUG".to_string()).is_err());
}
