//! The logger that applications hold.
//!
//! A logger owns the handle on its pipeline and a copy of the configuration
//! that the pipeline was built from. Setting the level goes through the
//! handle and leaves both the sinks and the stored configuration alone;
//! switching to JSON discards the pipeline and builds a new one.

use vstd::prelude::*;
use crate::config::{assembled, JsonConfig, LogConfig, LogConfigView};
use crate::error::{LoggingError, ReloadError};
use crate::event::{opt_pairs, parse_args, LogEvent, LogEventView};
use crate::level::Severity;
use crate::paths::{file_name_of, get_file_name};
use crate::registry::{Registry, RegistryView};
use crate::rust_logger::{event_of, Installation, RustLogger, RustLoggerView};
use crate::text::{opt_text, texts};
use crate::timer::{complaint_about, timer_for};

verus! {

/// The names of the levels, for callers that spell them as text.
pub struct LogLevel {}

impl LogLevel {
    #[allow(non_snake_case)]
    pub fn DEBUG() -> (name: String)
        ensures
            name@ == Severity::Debug.label(),
    {
        "DEBUG".to_string()
    }

    #[allow(non_snake_case)]
    pub fn WARN() -> (name: String)
        ensures
            name@ == Severity::Warn.label(),
    {
        "WARN".to_string()
    }

    #[allow(non_snake_case)]
    pub fn INFO() -> (name: String)
        ensures
            name@ == Severity::Info.label(),
    {
        "INFO".to_string()
    }

    #[allow(non_snake_case)]
    pub fn ERROR() -> (name: String)
        ensures
            name@ == Severity::Error.label(),
    {
        "ERROR".to_string()
    }

    #[allow(non_snake_case)]
    pub fn TRACE() -> (name: String)
        ensures
            name@ == Severity::Trace.label(),
    {
        "TRACE".to_string()
    }
}

/// The configuration that a logger is made with: the one supplied, or the
/// default one, with the file name of `name` as its name where it has none.
pub open spec fn logger_config(
    name: Option<Seq<char>>,
    config: Option<LogConfigView>,
    process_app_env: Option<Seq<char>>,
) -> LogConfigView {
    let base = match config {
        Some(supplied) => supplied,
        None => assembled(
            None,
            None,
            None,
            None,
            None,
            None,
            None,
            None,
            None,
            None,
            None,
            process_app_env,
        ),
    };
    if base.name is None {
        LogConfigView {
            name: match name {
                Some(text) => file_name_of(text),
                None => None,
            },
            ..base
        }
    } else {
        base
    }
}

/// The pipeline that is built from `config`.
pub open spec fn pipeline_of(config: LogConfigView) -> RustLoggerView {
    RustLoggerView::built(
        config,
        timer_for(config.time_format, complaint_about(config.time_format)),
    )
}

/// The configuration switched to JSON: the JSON layout that it had, or the
/// default one, which flattens events.
pub open spec fn with_json(config: LogConfigView) -> LogConfigView {
    LogConfigView {
        json_config: Some(
            match config.json_config {
                Some(json) => json,
                None => JsonConfig { flatten: true },
            },
        ),
        ..config
    }
}

/// The event of a logging call through a logger: the arguments count only
/// if there are any, and the metadata of the call is attached.
pub open spec fn call_event(
    level: Severity,
    message: Seq<char>,
    args: Seq<Seq<char>>,
    metadata: Option<Seq<(Seq<char>, Seq<char>)>>,
    config: LogConfigView,
) -> LogEventView {
    LogEventView {
        metadata,
        ..event_of(
            level,
            message,
            if args.len() == 0 {
                None
            } else {
                Some(args)
            },
            config,
        )
    }
}

/// The mathematical content of a [`PyLogger`].
pub ghost struct PyLoggerView {
    pub logger: RustLoggerView,
    pub config: LogConfigView,
}

/// A logger: the handle on its pipeline, and its configuration.
#[derive(Debug)]
pub struct PyLogger {
    logger: RustLogger,
    config: LogConfig,
}

impl View for PyLogger {
    type V = PyLoggerView;

    closed spec fn view(&self) -> PyLoggerView {
        PyLoggerView { logger: self.logger@, config: self.config@ }
    }
}

impl PyLogger {
    /// Makes a logger. Without a configuration the default one is used, for
    /// which `process_app_env` is the value of `APP_ENV` in the process
    /// environment, if it is set. Where the configuration has no name, the
    /// file name of `name` becomes its name.
    pub fn get_logger(
        name: Option<String>,
        config: Option<LogConfig>,
        process_app_env: Option<String>,
    ) -> (logger: PyLogger)
        requires
            config matches Some(supplied) ==> supplied@.buildable(),
            (config matches Some(supplied) ==> supplied@.name is None) ==> (name matches Some(
                text,
            ) ==> file_name_of(text@) is Some),
        ensures
            logger@.config == logger_config(
                opt_text(name),
                match config {
                    Some(supplied) => Some(supplied@),
                    None => None,
                },
                opt_text(process_app_env),
            ),
            logger@.logger == pipeline_of(logger@.config),
    {
        let mut log_config = match config {
            Some(supplied) => supplied,
            None => LogConfig::new(
                None,
                None,
                None,
                None,
                None,
                None,
                None,
                None,
                None,
                None,
                None,
                process_app_env,
            ),
        };
        if log_config.name.is_none() {
            log_config.name = match name {
                Some(text) => Some(get_file_name(text.as_str())),
                None => None,
            };
        }
        let logger = RustLogger::new(&log_config);
        PyLogger { logger, config: log_config }
    }

    /// The configuration of the logger.
    pub fn config(&self) -> (config: &LogConfig)
        ensures
            config@ == self@.config,
    {
        &self.config
    }

    /// Replaces the stored configuration. The pipeline is left as it is.
    pub fn set_config(&mut self, config: LogConfig)
        ensures
            final(self)@.config == config@,
            final(self)@.logger == old(self)@.logger,
    {
        self.config = config;
    }

    /// The handle on the pipeline.
    pub fn logger(&self) -> (logger: &RustLogger)
        ensures
            logger@ == self@.logger,
    {
        &self.logger
    }

    /// Sets the minimum severity to the one that `level` names. Only the
    /// filter of the pipeline changes: the sinks stay, and so does the stored
    /// configuration. Fails, and changes nothing, where the pipeline is gone.
    pub fn set_level(&mut self, level: String) -> (outcome: Result<(), LoggingError>)
        ensures
            final(self)@.config == old(self)@.config,
            final(self)@.logger == old(self)@.logger.reloaded(level@),
            final(self)@.logger.sinks == old(self)@.logger.sinks,
            outcome is Ok <==> old(self)@.logger.is_active(),
            outcome matches Err(error) ==> error.detail() == ReloadError::SubscriberGone.text(),
    {
        match self.logger.reload_level(level.as_str()) {
            Ok(()) => Ok(()),
            Err(error) => Err(LoggingError::from_reload(error)),
        }
    }

    /// Takes in what the installed pipeline answered to a request to set the
    /// level, where `previous` is the filter from before the request. A
    /// failure is reported, undoes the change of the filter, and, where the
    /// pipeline is gone, marks the logger's pipeline as gone.
    pub fn settle_reload(
        &mut self,
        previous: Severity,
        outcome: Result<(), ReloadError>,
    ) -> (settled: Result<(), LoggingError>)
        ensures
            final(self)@.config == old(self)@.config,
            final(self)@.logger == old(self)@.logger.settled(previous, outcome),
            settled is Ok <==> outcome is Ok,
            outcome matches Err(reason) ==> (settled matches Err(error) && error.detail()
                == reason.text()),
    {
        match self.logger.settle_reload(previous, outcome) {
            Ok(_) => Ok(()),
            Err(reason) => Err(LoggingError::from_reload(reason)),
        }
    }

    /// Sets the name of the logger to the file name of `name`.
    pub fn update_name(&mut self, name: String)
        requires
            file_name_of(name@) is Some,
        ensures
            final(self)@.logger == old(self)@.logger,
            final(self)@.config == (LogConfigView {
                name: file_name_of(name@),
                ..old(self)@.config
            }),
    {
        self.config.update_name(name);
    }

    /// Switches the logger to JSON: the pipeline is discarded, guard and
    /// all, and a new one is built from the configuration with a JSON layout.
    pub fn enable_json(&mut self)
        requires
            old(self)@.config.buildable(),
        ensures
            final(self)@.config == with_json(old(self)@.config),
            final(self)@.logger == pipeline_of(final(self)@.config),
    {
        if self.config.json_config.is_none() {
            self.config.json_config = Some(JsonConfig::new(None));
        }
        self.logger = RustLogger::new(&self.config);
    }

    /// Drops the guard of a scoped pipeline, which ends the pipeline, and
    /// says whether there was a guard to drop.
    pub fn drop_guard(&mut self) -> (dropped: bool)
        ensures
            final(self)@.config == old(self)@.config,
            final(self)@.logger == old(self)@.logger.guard_dropped(),
            dropped == (old(self)@.logger.installation == Installation::Scoped),
    {
        self.logger.drop_guard()
    }

    /// Installs the pipeline of the logger through `registry`, and says
    /// whether it is installed afterwards.
    pub fn install(&mut self, registry: &mut Registry) -> (installed: bool)
        ensures
            final(self)@.config == old(self)@.config,
            final(registry)@ == old(registry)@.after_install(old(self)@.logger),
            final(self)@.logger == old(registry)@.installed(old(self)@.logger),
            installed == final(self)@.logger.is_active(),
    {
        registry.install(&mut self.logger)
    }

    /// Records that the pipeline is no longer installed.
    pub fn pipeline_lost(&mut self)
        ensures
            final(self)@.config == old(self)@.config,
            final(self)@.logger == old(self)@.logger.lost(),
    {
        self.logger.pipeline_lost();
    }

    /// Whether the pipeline records an event of severity `level`.
    pub fn records(&self, level: Severity) -> (records: bool)
        ensures
            records == self@.logger.records(level),
    {
        self.logger.records(level)
    }

    /// The event for a call at `level`.
    pub fn emit(
        &self,
        level: Severity,
        message: &str,
        args: Vec<String>,
        metadata: Option<Vec<(String, String)>>,
    ) -> (event: LogEvent)
        ensures
            event@ == call_event(level, message@, texts(args@), opt_pairs(metadata), self@.config),
    {
        let args = parse_args(args);
        self.logger.emit(level, message, args, &self.config).with_metadata(metadata)
    }

    /// The event for an info message.
    pub fn info(
        &self,
        message: &str,
        args: Vec<String>,
        metadata: Option<Vec<(String, String)>>,
    ) -> (event: LogEvent)
        ensures
            event@ == call_event(
                Severity::Info,
                message@,
                texts(args@),
                opt_pairs(metadata),
                self@.config,
            ),
    {
        self.emit(Severity::Info, message, args, metadata)
    }

    /// The event for a debug message.
    pub fn debug(
        &self,
        message: &str,
        args: Vec<String>,
        metadata: Option<Vec<(String, String)>>,
    ) -> (event: LogEvent)
        ensures
            event@ == call_event(
                Severity::Debug,
                message@,
                texts(args@),
                opt_pairs(metadata),
                self@.config,
            ),
    {
        self.emit(Severity::Debug, message, args, metadata)
    }

    /// The event for a warning.
    pub fn warning(
        &self,
        message: &str,
        args: Vec<String>,
        metadata: Option<Vec<(String, String)>>,
    ) -> (event: LogEvent)
        ensures
            event@ == call_event(
                Severity::Warn,
                message@,
                texts(args@),
                opt_pairs(metadata),
                self@.config,
            ),
    {
        self.emit(Severity::Warn, message, args, metadata)
    }

    /// The event for an error message.
    pub fn error(
        &self,
        message: &str,
        args: Vec<String>,
        metadata: Option<Vec<(String, String)>>,
    ) -> (event: LogEvent)
        ensures
            event@ == call_event(
                Severity::Error,
                message@,
                texts(args@),
                opt_pairs(metadata),
                self@.config,
            ),
    {
        self.emit(Severity::Error, message, args, metadata)
    }

    /// The event for a trace message.
    pub fn trace(
        &self,
        message: &str,
        args: Vec<String>,
        metadata: Option<Vec<(String, String)>>,
    ) -> (event: LogEvent)
        ensures
            event@ == call_event(
                Severity::Trace,
                message@,
                texts(args@),
                opt_pairs(metadata),
                self@.config,
            ),
    {
        self.emit(Severity::Trace, message, args, metadata)
    }
}

/// Getting two loggers that ask for the global place never fails, and only
/// the pipeline of the first is installed: the global place holds its sinks
/// and no others, and the second logger's pipeline is gone and records
/// nothing. A logger made without a configuration asks for the global place.
pub proof fn law_get_logger_twice(
    registry: RegistryView,
    first: LogConfigView,
    second: LogConfigView,
    name: Option<Seq<char>>,
    process_app_env: Option<Seq<char>>,
    level: Severity,
)
    requires
        registry.global is None,
        !first.lock_guard,
        !second.lock_guard,
    ensures
        !logger_config(name, None, process_app_env).lock_guard,
        registry.installed(pipeline_of(first)) == pipeline_of(first),
        registry.after_install(pipeline_of(first)).global == Some(pipeline_of(first).sinks),
        registry.after_install(pipeline_of(first)).after_install(pipeline_of(second))
            == registry.after_install(pipeline_of(first)),
        !registry.after_install(pipeline_of(first)).installed(pipeline_of(second)).records(level),
{
}

} // verus!
