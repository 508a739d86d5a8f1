//! One-call setup of a single console sink.
//!
//! The smallest way to get logging: one sink, on standard output or on
//! standard error, as text or as flattened JSON, with timestamps in the
//! built-in pattern. Setting up gives the subscriber to install; installing
//! goes through a registry, where the first subscriber stays and a later
//! one is turned down without an error.

use vstd::prelude::*;
use crate::error::LoggingError;
use crate::event::{format_string, interpolated, parse_args};
use crate::level::Severity;
use crate::registry::{Registry, RegistryView};
use crate::sink::{sink_views, Format, Sink, SinkView, Writer, WriterView};
use crate::text::texts;
use crate::timer::{
    complaint_about, get_timer, timer_for, Timer, TimerView, DEFAULT_TIME_PATTERN,
};

verus! {

/// The verbosity of the subscriber.
#[derive(Clone, Copy, Debug, PartialEq, Eq, Structural)]
pub enum LogLevel {
    Debug,
    Info,
    Warn,
    Error,
    Trace,
}

impl Default for LogLevel {
    fn default() -> (level: LogLevel)
        ensures
            level == LogLevel::Info,
    {
        LogLevel::Info
    }
}

impl LogLevel {
    /// The severity that the level stands for.
    pub open spec fn severity(self) -> Severity {
        match self {
            LogLevel::Debug => Severity::Debug,
            LogLevel::Info => Severity::Info,
            LogLevel::Warn => Severity::Warn,
            LogLevel::Error => Severity::Error,
            LogLevel::Trace => Severity::Trace,
        }
    }

    /// The level that an upper-case name stands for; any other text, lower-case
    /// spellings included, stands for `Info`.
    pub open spec fn named(name: Seq<char>) -> LogLevel {
        if name == "DEBUG"@ {
            LogLevel::Debug
        } else if name == "INFO"@ {
            LogLevel::Info
        } else if name == "WARN"@ {
            LogLevel::Warn
        } else if name == "ERROR"@ {
            LogLevel::Error
        } else if name == "TRACE"@ {
            LogLevel::Trace
        } else {
            LogLevel::Info
        }
    }

    /// Reads an upper-case level name. Never fails: a name that is not known
    /// reads as `Info`.
    pub fn from_str(s: &str) -> (level: Result<LogLevel, LoggingError>)
        ensures
            level matches Ok(read) && read == LogLevel::named(s@),
            level matches Ok(read) && read.severity() == Severity::named(s@),
    {
        Ok(
            match Severity::parse(s) {
                Severity::Debug => LogLevel::Debug,
                Severity::Info => LogLevel::Info,
                Severity::Warn => LogLevel::Warn,
                Severity::Error => LogLevel::Error,
                Severity::Trace => LogLevel::Trace,
            },
        )
    }

    /// The severity that the level stands for.
    pub fn to_severity(self) -> (severity: Severity)
        ensures
            severity == self.severity(),
    {
        match self {
            LogLevel::Debug => Severity::Debug,
            LogLevel::Info => Severity::Info,
            LogLevel::Warn => Severity::Warn,
            LogLevel::Error => Severity::Error,
            LogLevel::Trace => Severity::Trace,
        }
    }
}

/// The console stream that the sink writes to.
#[derive(Clone, Copy, Debug, PartialEq, Eq, Structural)]
pub enum WriteLevel {
    Stdout,
    Stderror,
}

impl Default for WriteLevel {
    fn default() -> (stream: WriteLevel)
        ensures
            stream == WriteLevel::Stdout,
    {
        WriteLevel::Stdout
    }
}

/// The configuration of the subscriber.
#[derive(Clone, Copy, Debug, PartialEq, Eq, Structural)]
pub struct LoggingConfig {
    pub show_threads: bool,
    pub log_level: LogLevel,
    pub write_level: WriteLevel,
    pub use_json: bool,
}

/// The configuration used where none is given: text on standard output at
/// level `Info`, without thread ids.
pub open spec fn default_config() -> LoggingConfig {
    LoggingConfig {
        show_threads: false,
        log_level: LogLevel::Info,
        write_level: WriteLevel::Stdout,
        use_json: false,
    }
}

impl Default for LoggingConfig {
    fn default() -> (config: LoggingConfig)
        ensures
            config == default_config(),
    {
        LoggingConfig {
            show_threads: false,
            log_level: LogLevel::Info,
            write_level: WriteLevel::Stdout,
            use_json: false,
        }
    }
}

impl LoggingConfig {
    /// Assembles a configuration: thread ids are shown unless turned off, the
    /// level is `Info`, the stream is standard output and the format is text
    /// unless said otherwise.
    pub fn new(
        show_threads: Option<bool>,
        log_level: Option<LogLevel>,
        write_level: Option<WriteLevel>,
        use_json: Option<bool>,
    ) -> (config: LoggingConfig)
        ensures
            config == (LoggingConfig {
                show_threads: show_threads.unwrap_or(true),
                log_level: log_level.unwrap_or(LogLevel::Info),
                write_level: write_level.unwrap_or(WriteLevel::Stdout),
                use_json: use_json.unwrap_or(false),
            }),
    {
        LoggingConfig {
            show_threads: show_threads.unwrap_or(true),
            log_level: log_level.unwrap_or(LogLevel::Info),
            write_level: write_level.unwrap_or(WriteLevel::Stdout),
            use_json: use_json.unwrap_or(false),
        }
    }

    /// The sink that the configuration asks for: on the chosen stream, as
    /// flattened JSON or as text, never showing the target, with timestamps
    /// in the built-in pattern.
    pub open spec fn sink(self) -> SinkView {
        SinkView {
            writer: match self.write_level {
                WriteLevel::Stderror => WriterView::Stderr,
                WriteLevel::Stdout => WriterView::Stdout,
            },
            format: if self.use_json {
                Format::Json { flatten_event: true }
            } else {
                Format::Text
            },
            show_target: false,
            thread_ids: self.show_threads,
            timer: builtin_timer(),
        }
    }

    /// The timer of the subscriber, which writes timestamps in the built-in
    /// pattern. Never fails.
    pub fn time_format(&self) -> (timer: Result<Timer, LoggingError>)
        ensures
            timer matches Ok(chosen) && chosen@ == builtin_timer(),
    {
        Ok(get_timer(DEFAULT_TIME_PATTERN.to_string()))
    }
}

/// The timer for the built-in pattern. Its pattern is the built-in one
/// whatever is said of it.
pub open spec fn builtin_timer() -> TimerView {
    timer_for(DEFAULT_TIME_PATTERN@, complaint_about(DEFAULT_TIME_PATTERN@))
}

/// The mathematical content of a [`Subscriber`].
pub ghost struct SubscriberView {
    pub max_level: Severity,
    pub sink: SinkView,
}

/// What is installed: one sink, and the least severity that it records.
#[derive(Debug)]
pub struct Subscriber {
    pub max_level: Severity,
    pub sink: Sink,
}

impl View for Subscriber {
    type V = SubscriberView;

    open spec fn view(&self) -> SubscriberView {
        SubscriberView { max_level: self.max_level, sink: self.sink@ }
    }
}

/// The subscriber that a configuration asks for.
pub open spec fn subscriber_of(config: LoggingConfig) -> SubscriberView {
    SubscriberView { max_level: config.log_level.severity(), sink: config.sink() }
}

/// The subscriber for `config`, with `timer` for its timestamps.
fn build(
    log_level: Severity,
    config: &LoggingConfig,
    timer: Timer,
    json: bool,
) -> (subscriber: Subscriber)
    ensures
        subscriber@ == (SubscriberView {
            max_level: log_level,
            sink: SinkView {
                format: if json {
                    Format::Json { flatten_event: true }
                } else {
                    Format::Text
                },
                timer: timer@,
                ..config.sink()
            },
        }),
{
    let writer = if config.write_level == WriteLevel::Stderror {
        Writer::Stderr
    } else {
        Writer::Stdout
    };
    Subscriber {
        max_level: log_level,
        sink: Sink {
            writer,
            format: if json {
                Format::Json { flatten_event: true }
            } else {
                Format::Text
            },
            show_target: false,
            thread_ids: config.show_threads,
            timer,
        },
    }
}

/// The JSON subscriber for `config`. Never fails.
pub fn build_json_subscriber(
    log_level: Severity,
    config: &LoggingConfig,
) -> (subscriber: Result<Subscriber, LoggingError>)
    ensures
        subscriber matches Ok(built) && built@ == (SubscriberView {
            max_level: log_level,
            sink: SinkView { format: Format::Json { flatten_event: true }, ..config.sink() },
        }),
{
    match config.time_format() {
        Ok(timer) => Ok(build(log_level, config, timer, true)),
        Err(error) => Err(error),
    }
}

/// The text subscriber for `config`. Never fails.
pub fn build_subscriber(
    log_level: Severity,
    config: &LoggingConfig,
) -> (subscriber: Result<Subscriber, LoggingError>)
    ensures
        subscriber matches Ok(built) && built@ == (SubscriberView {
            max_level: log_level,
            sink: SinkView { format: Format::Text, ..config.sink() },
        }),
{
    match config.time_format() {
        Ok(timer) => Ok(build(log_level, config, timer, false)),
        Err(error) => Err(error),
    }
}

/// The subscriber that `config` asks for. Never fails.
pub fn setup_logging(config: &LoggingConfig) -> (subscriber: Result<Subscriber, LoggingError>)
    ensures
        subscriber matches Ok(built) && built@ == subscriber_of(*config),
{
    let display_level = config.log_level.to_severity();
    if config.use_json {
        build_json_subscriber(display_level, config)
    } else {
        build_subscriber(display_level, config)
    }
}

impl Subscriber {
    /// Installs the subscriber for the whole process through `registry`, and
    /// says whether it is the one installed. Where a pipeline holds the
    /// global place already, nothing is installed and nothing changes: the
    /// first pipeline stays, and that is no error.
    pub fn install(&self, registry: &mut Registry) -> (installed: bool)
        ensures
            final(registry)@ == old(registry)@.after_claim(seq![self@.sink]),
            installed == (old(registry)@.global is None),
    {
        let mut sinks: Vec<Sink> = Vec::new();
        sinks.push(self.sink.clone());
        assert(sink_views(sinks@) == seq![self@.sink]);
        registry.claim(&sinks)
    }
}

/// Setting up a second time is a no-op: the global place keeps the sink of
/// the first subscriber and holds no other, whatever the second asks for.
pub proof fn law_second_setup_is_a_no_op(
    registry: RegistryView,
    first: SubscriberView,
    second: SubscriberView,
)
    requires
        registry.global is None,
    ensures
        registry.after_claim(seq![first.sink]).global == Some(seq![first.sink]),
        registry.after_claim(seq![first.sink]).after_claim(seq![second.sink])
            == registry.after_claim(seq![first.sink]),
{
}

/// A logger that can be had with one call.
#[derive(Debug)]
pub struct RustyLogger {}

impl RustyLogger {
    /// The subscriber to install for `config`, or for the default
    /// configuration. Never fails.
    pub fn setup_logging(
        config: Option<LoggingConfig>,
    ) -> (subscriber: Result<Subscriber, LoggingError>)
        ensures
            subscriber matches Ok(built) && built@ == subscriber_of(
                match config {
                    Some(given) => given,
                    None => default_config(),
                },
            ),
    {
        let config = match config {
            Some(given) => given,
            None => LoggingConfig::default(),
        };
        setup_logging(&config)
    }

    /// A logger, and the subscriber to install for it as
    /// [`RustyLogger::setup_logging`] gives it. Never fails.
    pub fn get_logger(
        config: Option<LoggingConfig>,
    ) -> (logger: Result<(RustyLogger, Subscriber), LoggingError>)
        ensures
            logger matches Ok((_, built)) && built@ == subscriber_of(
                match config {
                    Some(given) => given,
                    None => default_config(),
                },
            ),
    {
        match RustyLogger::setup_logging(config) {
            Ok(built) => Ok((RustyLogger {  }, built)),
            Err(error) => Err(error),
        }
    }

    /// The text of a message with its arguments put in.
    pub fn message(&self, message: &str, args: Vec<String>) -> (text: String)
        ensures
            text@ == interpolated(
                message@,
                if args@.len() == 0 {
                    None
                } else {
                    Some(texts(args@))
                },
            ),
    {
        match parse_args(args) {
            Some(list) => format_string(message, &list),
            None => message.to_string(),
        }
    }

    /// The severity and the text of an info message.
    pub fn info(&self, message: &str, args: Vec<String>) -> (record: (Severity, String))
        ensures
            record.0 == Severity::Info,
            record.1@ == interpolated(
                message@,
                if args@.len() == 0 {
                    None
                } else {
                    Some(texts(args@))
                },
            ),
    {
        (Severity::Info, self.message(message, args))
    }

    /// The severity and the text of a debug message.
    pub fn debug(&self, message: &str, args: Vec<String>) -> (record: (Severity, String))
        ensures
            record.0 == Severity::Debug,
            record.1@ == interpolated(
                message@,
                if args@.len() == 0 {
                    None
                } else {
                    Some(texts(args@))
                },
            ),
    {
        (Severity::Debug, self.message(message, args))
    }

    /// The severity and the text of a warning.
    pub fn warn(&self, message: &str, args: Vec<String>) -> (record: (Severity, String))
        ensures
            record.0 == Severity::Warn,
            record.1@ == interpolated(
                message@,
                if args@.len() == 0 {
                    None
                } else {
                    Some(texts(args@))
                },
            ),
    {
        (Severity::Warn, self.message(message, args))
    }

    /// The severity and the text of an error message.
    pub fn error(&self, message: &str, args: Vec<String>) -> (record: (Severity, String))
        ensures
            record.0 == Severity::Error,
            record.1@ == interpolated(
                message@,
                if args@.len() == 0 {
                    None
                } else {
                    Some(texts(args@))
                },
            ),
    {
        (Severity::Error, self.message(message, args))
    }

    /// The severity and the text of a trace message.
    pub fn trace(&self, message: &str, args: Vec<String>) -> (record: (Severity, String))
        ensures
            record.0 == Severity::Trace,
            record.1@ == interpolated(
                message@,
                if args@.len() == 0 {
                    None
                } else {
                    Some(texts(args@))
                },
            ),
    {
        (Severity::Trace, self.message(message, args))
    }
}

} // verus!
