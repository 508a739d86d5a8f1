use rusty_logger::config::{
    resolve_environment, JsonConfig, LogConfig, LogFileConfig, Rotation,
};
use rusty_logger::level::Severity;
use rusty_logger::timer::DEFAULT_TIME_PATTERN;

fn default_config() -> LogConfig {
    LogConfig::new(None, None, None, None, None, None, None, None, None, None, None, None)
}

#[test]
fn defaults_when_nothing_is_given() {
    let config = default_config();
    assert!(config.stdout);
    assert!(!config.stderr);
    assert_eq!(config.level, "INFO");
    assert_eq!(config.app_env, "development");
    assert_eq!(config.name, None);
    assert_eq!(config.time_format, DEFAULT_TIME_PATTERN);
    assert_eq!(
        config.time_format,
        "[year]-[month]-[day]T[hour repr:24]:[minute]:[second]::[subsecond digits:4]"
    );
    assert_eq!(config.json_config, None);
    assert!(config.file_config.is_none());
    assert!(!config.lock_guard);
    assert!(!config.thread_id);
    assert!(!config.show_target);
    assert!(config.has_destination());
    assert!(config.buildable());
    assert_eq!(config.severity(), Severity::Info);
}

#[test]
fn no_destination_defaults_to_stdout() {
    let config = LogConfig::new(
        Some(false),
        Some(false),
        None,
        None,
        None,
        None,
        None,
        None,
        None,
        None,
        None,
        None,
    );
    assert!(config.stdout);
    assert!(!config.stderr);
}

#[test]
fn a_named_destination_is_left_alone() {
    let only_stderr = LogConfig::new(
        None,
        Some(true),
        None,
        None,
        None,
        None,
        None,
        None,
        None,
        None,
        None,
        None,
    );
    assert!(!only_stderr.stdout);
    assert!(only_stderr.stderr);

    let only_file = LogConfig::new(
        None,
        None,
        None,
        None,
        None,
        None,
        None,
        Some(LogFileConfig::new(None, None)),
        None,
        None,
        None,
        None,
    );
    assert!(!only_file.stdout);
    assert!(!only_file.stderr);
    assert!(only_file.file_config.is_some());
}

#[test]
fn normalize_reports_whether_it_defaulted() {
    let mut config = default_config();
    config.stdout = false;
    assert!(!config.has_destination());
    assert!(config.normalize());
    assert!(config.stdout);
    assert!(!config.normalize());
    assert!(config.stdout);

    let mut stderr_only = default_config();
    stderr_only.stdout = false;
    stderr_only.stderr = true;
    assert!(!stderr_only.normalize());
    assert!(!stderr_only.stdout);
}

#[test]
fn supplied_values_are_kept() {
    let config = LogConfig::new(
        Some(true),
        Some(true),
        Some("DEBUG".to_string()),
        Some("staging".to_string()),
        Some("src/bin/worker.rs".to_string()),
        Some("[year]".to_string()),
        Some(JsonConfig::new(Some(false))),
        Some(LogFileConfig::new(Some("out/app.log".to_string()), Some("daily".to_string()))),
        Some(true),
        Some(true),
        Some(true),
        Some("production".to_string()),
    );
    assert!(config.stdout);
    assert!(config.stderr);
    assert_eq!(config.level, "DEBUG");
    assert_eq!(config.app_env, "staging");
    assert_eq!(config.name, Some("worker.rs".to_string()));
    assert_eq!(config.time_format, "[year]");
    assert_eq!(config.json_config, Some(JsonConfig { flatten: false }));
    let file = config.file_config.clone().unwrap();
    assert_eq!(file.filename, "out/app.log");
    assert_eq!(file.rotate, "daily");
    assert!(config.lock_guard);
    assert!(config.thread_id);
    assert!(config.show_target);
    assert_eq!(config.severity(), Severity::Debug);
}

#[test]
fn environment_comes_from_the_process_when_not_supplied() {
    let from_process = LogConfig::new(
        None,
        None,
        None,
        None,
        None,
        None,
        None,
        None,
        None,
        None,
        None,
        Some("production".to_string()),
    );
    assert_eq!(from_process.app_env, "production");
    assert_eq!(resolve_environment(None, None), "development");
    assert_eq!(resolve_environment(None, Some("ci".to_string())), "ci");
    assert_eq!(resolve_environment(Some("qa".to_string()), Some("ci".to_string())), "qa");
    assert_eq!(resolve_environment(Some("qa".to_string()), None), "qa");
}

#[test]
fn json_config_flattens_by_default() {
    assert!(JsonConfig::new(None).flatten);
    assert!(JsonConfig::new(Some(true)).flatten);
    assert!(!JsonConfig::new(Some(false)).flatten);
}

#[test]
fn rotation_names() {
    assert_eq!(Rotation::parse("hourly"), Rotation::Hourly);
    assert_eq!(Rotation::parse("daily"), Rotation::Daily);
    assert_eq!(Rotation::parse("minutely"), Rotation::Minutely);
    assert_eq!(Rotation::parse("never"), Rotation::Never);
    assert_eq!(Rotation::parse("weekly"), Rotation::Never);
    assert_eq!(Rotation::parse("Daily"), Rotation::Never);
    assert_eq!(Rotation::parse(""), Rotation::Never);
    let file = LogFileConfig::new(None, Some("minutely".to_string()));
    assert_eq!(file.rotation(), Rotation::Minutely);
}

#[test]
fn level_and_name_can_be_changed() {
    let mut config = default_config();
    config.log_level("WARN".to_string());
    assert_eq!(config.level, "WARN");
    assert_eq!(config.severity(), Severity::Warn);
    config.log_level("loud".to_string());
    assert_eq!(config.level, "loud");
    assert_eq!(config.severity(), Severity::Info);

    config.update_name("/opt/app/service.py".to_string());
    assert_eq!(config.name, Some("service.py".to_string()));
    config.update_name("plain".to_string());
    assert_eq!(config.name, Some("plain".to_string()));
    assert!(config.stdout);
}

#[test]
fn a_file_without_a_name_cannot_be_built() {
    let mut config = default_config();
    config.file_config = Some(LogFileConfig::new(Some("logs/".to_string()), None));
    assert!(config.buildable());
    config.file_config = Some(LogFileConfig::new(Some("logs/..".to_string()), None));
    assert!(!config.buildable());
    config.file_config = Some(LogFileConfig::new(Some("/".to_string()), None));
    assert!(!config.buildable());
}

#[test]
fn clone_keeps_every_field() {
    let config = LogConfig::new(
        Some(true),
        None,
        Some("ERROR".to_string()),
        None,
        Some("a/b".to_string()),
        None,
        Some(JsonConfig::new(None)),
        Some(LogFileConfig::new(None, None)),
        Some(true),
        None,
        None,
        None,
    );
    let copy = config.clone();
    assert_eq!(copy.stdout, config.stdout);
    assert_eq!(copy.level, "ERROR");
    assert_eq!(copy.name, Some("b".to_string()));
    assert_eq!(copy.json_config, config.json_config);
    assert_eq!(copy.file_config.unwrap().filename, "log/logs.log");
    assert!(copy.lock_guard);
}
