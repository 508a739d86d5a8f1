//! A logger that writes JSON only and is installed for as long as it lives.
//!
//! It takes a smaller configuration than the full logger: which console
//! streams to write to, an optional file, and a level. Every sink writes
//! JSON with the same fixed settings: the fields of an event nested under a
//! key of their own, no target, no current span. A file is rotated by the
//! hour.

use vstd::prelude::*;
use crate::config::{environment_for, resolve_environment, Rotation};
use crate::event::{LogEvent, LogEventView};
use crate::level::Severity;
use crate::paths::{directory_of, file_name_of, get_file_name, get_log_directory};
use crate::sink::{Format, Writer, WriterView};
use crate::text::opt_text;

verus! {

/// The name of a logger that is given none.
pub const DEFAULT_LOGGER_NAME: &'static str = "logger.rs";

/// The configuration of a JSON logger.
#[derive(Debug)]
pub struct LogConfig {
    pub stdout: bool,
    pub stderr: bool,
    pub filename: Option<String>,
    pub level: String,
    pub env: Option<String>,
}

impl Clone for LogConfig {
    fn clone(&self) -> (copy: Self)
        ensures
            copy == *self,
    {
        LogConfig {
            stdout: self.stdout,
            stderr: self.stderr,
            filename: self.filename.clone(),
            level: self.level.clone(),
            env: self.env.clone(),
        }
    }
}

impl LogConfig {
    /// Assembles a configuration. Standard output is on unless it is turned
    /// off, standard error off unless it is turned on, and the level is
    /// `INFO` unless one is given. The environment is the one supplied, else
    /// `process_app_env`, the value of `APP_ENV` in the process environment,
    /// else `development`.
    pub fn new(
        stdout: Option<bool>,
        stderr: Option<bool>,
        filename: Option<String>,
        level: Option<String>,
        env: Option<String>,
        process_app_env: Option<String>,
    ) -> (config: LogConfig)
        ensures
            config.stdout == stdout.unwrap_or(true),
            config.stderr == stderr.unwrap_or(false),
            opt_text(config.filename) == opt_text(filename),
            config.level@ == match level {
                Some(text) => text@,
                None => "INFO"@,
            },
            opt_text(config.env) == Some(
                environment_for(opt_text(env), opt_text(process_app_env)),
            ),
    {
        LogConfig {
            stdout: stdout.unwrap_or(true),
            stderr: stderr.unwrap_or(false),
            filename,
            level: match level {
                Some(text) => text,
                None => "INFO".to_string(),
            },
            env: Some(resolve_environment(env, process_app_env)),
        }
    }

    /// Whether a file sink can be built: a configured path must name a file.
    pub open spec fn buildable(self) -> bool {
        self.filename matches Some(path) ==> file_name_of(path@) is Some
    }
}

/// The mathematical content of a [`JsonSink`].
pub ghost struct JsonSinkView {
    pub writer: WriterView,
    pub format: Format,
    pub show_target: bool,
    pub current_span: bool,
}

/// One sink of a JSON logger: where it writes, and how.
#[derive(Debug)]
pub struct JsonSink {
    pub writer: Writer,
    pub format: Format,
    /// Whether the module that an event comes from is written.
    pub show_target: bool,
    /// Whether the span that an event occurs in is written.
    pub current_span: bool,
}

impl View for JsonSink {
    type V = JsonSinkView;

    open spec fn view(&self) -> JsonSinkView {
        JsonSinkView {
            writer: self.writer@,
            format: self.format,
            show_target: self.show_target,
            current_span: self.current_span,
        }
    }
}

/// The views of a list of sinks, in order.
pub open spec fn json_sink_views(sinks: Seq<JsonSink>) -> Seq<JsonSinkView> {
    sinks.map_values(|sink: JsonSink| sink@)
}

/// The sink of a JSON logger on `writer`: JSON that is not flattened,
/// without the target and without the current span.
pub open spec fn json_sink_on(writer: WriterView) -> JsonSinkView {
    JsonSinkView {
        writer,
        format: Format::Json { flatten_event: false },
        show_target: false,
        current_span: false,
    }
}

/// The writers of a JSON logger: standard output, standard error and the
/// file, in that order, each only if enabled. The file is rotated hourly.
pub open spec fn json_writers_of(
    stdout: bool,
    stderr: bool,
    filename: Option<Seq<char>>,
) -> Seq<WriterView> {
    let stdout = if stdout {
        seq![WriterView::Stdout]
    } else {
        seq![]
    };
    let stderr = if stderr {
        seq![WriterView::Stderr]
    } else {
        seq![]
    };
    let file = match filename {
        Some(path) => seq![
            WriterView::File {
                directory: directory_of(path),
                file_name_prefix: file_name_of(path).unwrap(),
                rotation: Rotation::Hourly,
            },
        ],
        None => seq![],
    };
    stdout + stderr + file
}

/// The sinks of a JSON logger: one on each of its writers, in order.
pub open spec fn json_sinks_of(
    stdout: bool,
    stderr: bool,
    filename: Option<Seq<char>>,
) -> Seq<JsonSinkView> {
    json_writers_of(stdout, stderr, filename).map_values(
        |writer: WriterView| json_sink_on(writer),
    )
}

/// The name of a JSON logger: the file name of the name given, or the
/// default name.
pub open spec fn json_name_of(name: Option<Seq<char>>) -> Seq<char> {
    match name {
        Some(text) => file_name_of(text).unwrap(),
        None => DEFAULT_LOGGER_NAME@,
    }
}

/// A logger whose sinks all write JSON.
#[derive(Debug)]
pub struct JsonLogger {
    /// The environment attached to every event.
    pub env: String,
    /// The name attached to every event.
    pub name: String,
    /// The sinks that every event goes to.
    pub sinks: Vec<JsonSink>,
    /// The minimum severity that is recorded.
    pub filter: Severity,
}

impl JsonLogger {
    /// The sink of a JSON logger on `writer`.
    pub fn json_layer(writer: Writer) -> (sink: JsonSink)
        ensures
            sink@ == json_sink_on(writer@),
    {
        JsonSink {
            writer,
            format: Format::Json { flatten_event: false },
            show_target: false,
            current_span: false,
        }
    }

    /// The sinks that a configuration asks for: one for standard output, one
    /// for standard error and one for the file, in that order, each only if
    /// enabled. Every one writes JSON without the target.
    pub fn build_layers(log_config: &LogConfig) -> (layers: Vec<JsonSink>)
        requires
            log_config.buildable(),
        ensures
            json_sink_views(layers@) == json_sinks_of(
                log_config.stdout,
                log_config.stderr,
                opt_text(log_config.filename),
            ),
    {
        let mut layers: Vec<JsonSink> = Vec::new();
        if log_config.stdout {
            layers.push(JsonLogger::json_layer(Writer::Stdout));
        }
        if log_config.stderr {
            layers.push(JsonLogger::json_layer(Writer::Stderr));
        }
        if log_config.filename.is_some() {
            let file = log_config.filename.as_ref().unwrap();
            let directory = get_log_directory(file.as_str());
            let file_name_prefix = get_file_name(file.as_str());
            layers.push(
                JsonLogger::json_layer(
                    Writer::File { directory, file_name_prefix, rotation: Rotation::Hourly },
                ),
            );
        }
        layers
    }

    /// Makes a logger from a configuration. Its filter is at the level that
    /// the configuration names. Its name is the file name of `name`, or the
    /// default name. Its environment is the one configured, else
    /// `process_app_env`, the value of `APP_ENV` in the process environment,
    /// else `development`.
    pub fn new(
        log_config: LogConfig,
        name: Option<String>,
        process_app_env: Option<String>,
    ) -> (logger: JsonLogger)
        requires
            log_config.buildable(),
            name matches Some(text) ==> file_name_of(text@) is Some,
        ensures
            logger.env@ == environment_for(opt_text(log_config.env), opt_text(process_app_env)),
            logger.name@ == json_name_of(opt_text(name)),
            json_sink_views(logger.sinks@) == json_sinks_of(
                log_config.stdout,
                log_config.stderr,
                opt_text(log_config.filename),
            ),
            logger.filter == Severity::named(log_config.level@),
    {
        let layers = JsonLogger::build_layers(&log_config);
        let filter = Severity::parse(log_config.level.as_str());
        let file_name = match name {
            Some(text) => get_file_name(text.as_str()),
            None => DEFAULT_LOGGER_NAME.to_string(),
        };
        JsonLogger {
            env: resolve_environment(log_config.env, process_app_env),
            name: file_name,
            sinks: layers,
            filter,
        }
    }

    /// The event that a call at `level` makes: the message as written, with
    /// the environment and the name of the logger.
    pub open spec fn event_of(self, level: Severity, message: Seq<char>) -> LogEventView {
        LogEventView {
            level,
            message,
            app_env: self.env@,
            name: Some(self.name@),
            metadata: None,
        }
    }

    /// The event for a call at `level`.
    pub fn event(&self, level: Severity, message: &str) -> (event: LogEvent)
        ensures
            event@ == self.event_of(level, message@),
    {
        LogEvent {
            level,
            message: message.to_string(),
            app_env: self.env.clone(),
            name: Some(self.name.clone()),
            metadata: None,
        }
    }

    /// The event for an info message.
    pub fn info(&self, message: &str) -> (event: LogEvent)
        ensures
            event@ == self.event_of(Severity::Info, message@),
    {
        self.event(Severity::Info, message)
    }

    /// The event for a debug message.
    pub fn debug(&self, message: &str) -> (event: LogEvent)
        ensures
            event@ == self.event_of(Severity::Debug, message@),
    {
        self.event(Severity::Debug, message)
    }

    /// The event for a warning.
    pub fn warning(&self, message: &str) -> (event: LogEvent)
        ensures
            event@ == self.event_of(Severity::Warn, message@),
    {
        self.event(Severity::Warn, message)
    }

    /// The event for an error message.
    pub fn error(&self, message: &str) -> (event: LogEvent)
        ensures
            event@ == self.event_of(Severity::Error, message@),
    {
        self.event(Severity::Error, message)
    }

    /// Whether the logger records an event of severity `level`.
    pub fn records(&self, level: Severity) -> (records: bool)
        ensures
            records == self.filter.admits(level),
    {
        self.filter.lets_through(level)
    }
}

/// A JSON logger has one sink for each enabled destination, and every one
/// of them writes JSON that is not flattened, without the target and without
/// the current span. A file sink comes last and writes, rotated hourly, to
/// the directory of the configured path under the file name of that path.
pub proof fn law_json_sinks(stdout: bool, stderr: bool, filename: Option<Seq<char>>, i: int)
    ensures
        json_sinks_of(stdout, stderr, filename).len() == (if stdout {
            1int
        } else {
            0
        }) + (if stderr {
            1int
        } else {
            0
        }) + (if filename is Some {
            1int
        } else {
            0
        }),
        0 <= i < json_sinks_of(stdout, stderr, filename).len() ==> {
            let sink = json_sinks_of(stdout, stderr, filename)[i];
            &&& sink.format == (Format::Json { flatten_event: false })
            &&& !sink.show_target
            &&& !sink.current_span
            &&& sink.writer == json_writers_of(stdout, stderr, filename)[i]
        },
        filename matches Some(path) ==> json_sinks_of(stdout, stderr, filename).last().writer == (
        WriterView::File {
            directory: directory_of(path),
            file_name_prefix: file_name_of(path).unwrap(),
            rotation: Rotation::Hourly,
        }),
{
}

} // verus!
