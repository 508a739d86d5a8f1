//! The declarative configuration of a logger.

use vstd::prelude::*;
use crate::level::Severity;
use crate::paths::{directory_of, file_name_of, get_file_name, get_log_directory};
use crate::style::{no_output_notice, no_output_warning};
use crate::text::{opt_text, same_text};
use crate::timer::DEFAULT_TIME_PATTERN;

verus! {

/// How a JSON sink lays out an event.
#[derive(Clone, Copy, Debug, PartialEq, Eq, Structural)]
pub struct JsonConfig {
    /// Whether the fields of an event are merged into the top-level object
    /// rather than nested under a key of their own.
    pub flatten: bool,
}

impl JsonConfig {
    /// A JSON layout; events are flattened unless asked otherwise.
    pub fn new(flatten: Option<bool>) -> (config: Self)
        ensures
            config.flatten == match flatten {
                Some(value) => value,
                None => true,
            },
    {
        JsonConfig {
            flatten: match flatten {
                Some(value) => value,
                None => true,
            },
        }
    }
}

/// When a log file is closed and a new one begun.
#[derive(Clone, Copy, Debug, PartialEq, Eq, Structural)]
pub enum Rotation {
    Never,
    Minutely,
    Hourly,
    Daily,
}

impl Rotation {
    /// The rotation that a name stands for: `hourly`, `daily` and `minutely`
    /// stand for themselves, every other text for `Never`.
    pub open spec fn named(name: Seq<char>) -> Rotation {
        if name == "hourly"@ {
            Rotation::Hourly
        } else if name == "daily"@ {
            Rotation::Daily
        } else if name == "minutely"@ {
            Rotation::Minutely
        } else {
            Rotation::Never
        }
    }

    /// Reads the name of a rotation; never fails.
    pub fn parse(name: &str) -> (rotation: Rotation)
        ensures
            rotation == Rotation::named(name@),
    {
        if same_text(name, "hourly") {
            Rotation::Hourly
        } else if same_text(name, "daily") {
            Rotation::Daily
        } else if same_text(name, "minutely") {
            Rotation::Minutely
        } else {
            Rotation::Never
        }
    }
}

/// The mathematical content of a [`LogFileConfig`].
pub ghost struct LogFileConfigView {
    pub filename: Seq<char>,
    pub rotate: Seq<char>,
}

impl LogFileConfigView {
    /// Whether the path names a file, so that a file sink can be built.
    pub open spec fn names_a_file(self) -> bool {
        file_name_of(self.filename) is Some
    }

    /// The directory that the log files are written to.
    pub open spec fn directory(self) -> Seq<char> {
        directory_of(self.filename)
    }

    /// What the names of the log files begin with.
    pub open spec fn file_name_prefix(self) -> Seq<char> {
        file_name_of(self.filename).unwrap()
    }

    /// When the log files are rotated.
    pub open spec fn rotation(self) -> Rotation {
        Rotation::named(self.rotate)
    }
}

/// Where a file sink writes, and how often it begins a new file.
#[derive(Debug)]
pub struct LogFileConfig {
    pub filename: String,
    pub rotate: String,
}

impl View for LogFileConfig {
    type V = LogFileConfigView;

    open spec fn view(&self) -> LogFileConfigView {
        LogFileConfigView { filename: self.filename@, rotate: self.rotate@ }
    }
}

impl Clone for LogFileConfig {
    fn clone(&self) -> (copy: Self)
        ensures
            copy == *self,
    {
        LogFileConfig { filename: self.filename.clone(), rotate: self.rotate.clone() }
    }
}

impl LogFileConfig {
    /// A file destination; by default `log/logs.log`, never rotated.
    pub fn new(filename: Option<String>, rotate: Option<String>) -> (config: Self)
        ensures
            config.filename@ == match filename {
                Some(text) => text@,
                None => "log/logs.log"@,
            },
            config.rotate@ == match rotate {
                Some(text) => text@,
                None => "never"@,
            },
    {
        LogFileConfig {
            filename: match filename {
                Some(text) => text,
                None => "log/logs.log".to_string(),
            },
            rotate: match rotate {
                Some(text) => text,
                None => "never".to_string(),
            },
        }
    }

    /// When the log files are rotated.
    pub fn rotation(&self) -> (rotation: Rotation)
        ensures
            rotation == self@.rotation(),
    {
        Rotation::parse(self.rotate.as_str())
    }
}

/// The directory and the file name prefix that a file sink is built with.
pub fn get_file_params(file_config: &LogFileConfig) -> (params: (String, String))
    requires
        file_config@.names_a_file(),
    ensures
        params.0@ == file_config@.directory(),
        params.1@ == file_config@.file_name_prefix(),
{
    let directory = get_log_directory(file_config.filename.as_str());
    let file_name_prefix = get_file_name(file_config.filename.as_str());
    (directory, file_name_prefix)
}

/// The view of an optional file destination.
pub open spec fn opt_file(value: Option<LogFileConfig>) -> Option<LogFileConfigView> {
    match value {
        Some(file) => Some(file@),
        None => None,
    }
}

/// The mathematical content of a [`LogConfig`].
pub ghost struct LogConfigView {
    pub stdout: bool,
    pub stderr: bool,
    pub level: Seq<char>,
    pub app_env: Seq<char>,
    pub name: Option<Seq<char>>,
    pub time_format: Seq<char>,
    pub json_config: Option<JsonConfig>,
    pub file_config: Option<LogFileConfigView>,
    pub lock_guard: bool,
    pub thread_id: bool,
    pub show_target: bool,
}

impl LogConfigView {
    /// Whether at least one destination is enabled.
    pub open spec fn has_destination(self) -> bool {
        self.stdout || self.stderr || self.file_config is Some
    }

    /// Whether every sink that the configuration asks for can be built: a
    /// file destination must name a file.
    pub open spec fn buildable(self) -> bool {
        self.file_config matches Some(file) ==> file.names_a_file()
    }

    /// The minimum severity that the configuration asks for.
    pub open spec fn severity(self) -> Severity {
        Severity::named(self.level)
    }

    /// The configuration with standard output enabled where no destination
    /// was, and unchanged otherwise.
    pub open spec fn normalized(self) -> LogConfigView {
        LogConfigView { stdout: self.stdout || !self.has_destination(), ..self }
    }
}

/// The environment name of a configuration: the one supplied, else the one
/// found in the process environment, else `development`.
pub open spec fn environment_for(
    supplied: Option<Seq<char>>,
    from_process: Option<Seq<char>>,
) -> Seq<char> {
    match supplied {
        Some(text) => text,
        None => match from_process {
            Some(text) => text,
            None => "development"@,
        },
    }
}

/// The configuration that [`LogConfig::new`] assembles from its arguments.
pub open spec fn assembled(
    stdout: Option<bool>,
    stderr: Option<bool>,
    level: Option<Seq<char>>,
    app_env: Option<Seq<char>>,
    name: Option<Seq<char>>,
    time_format: Option<Seq<char>>,
    json_config: Option<JsonConfig>,
    file_config: Option<LogFileConfigView>,
    lock_guard: Option<bool>,
    thread_id: Option<bool>,
    show_target: Option<bool>,
    process_app_env: Option<Seq<char>>,
) -> LogConfigView {
    LogConfigView {
        stdout: stdout.unwrap_or(false),
        stderr: stderr.unwrap_or(false),
        level: level.unwrap_or("INFO"@),
        app_env: environment_for(app_env, process_app_env),
        name: match name {
            Some(text) => file_name_of(text),
            None => None,
        },
        time_format: time_format.unwrap_or(DEFAULT_TIME_PATTERN@),
        json_config,
        file_config,
        lock_guard: lock_guard.unwrap_or(false),
        thread_id: thread_id.unwrap_or(false),
        show_target: show_target.unwrap_or(false),
    }.normalized()
}

/// The configuration of a logger: destinations, verbosity, formatting and
/// the fields attached to every event.
#[derive(Debug)]
pub struct LogConfig {
    pub stdout: bool,
    pub stderr: bool,
    pub level: String,
    pub app_env: String,
    pub name: Option<String>,
    pub time_format: String,
    pub json_config: Option<JsonConfig>,
    pub file_config: Option<LogFileConfig>,
    pub lock_guard: bool,
    pub thread_id: bool,
    pub show_target: bool,
}

impl View for LogConfig {
    type V = LogConfigView;

    open spec fn view(&self) -> LogConfigView {
        LogConfigView {
            stdout: self.stdout,
            stderr: self.stderr,
            level: self.level@,
            app_env: self.app_env@,
            name: opt_text(self.name),
            time_format: self.time_format@,
            json_config: self.json_config,
            file_config: opt_file(self.file_config),
            lock_guard: self.lock_guard,
            thread_id: self.thread_id,
            show_target: self.show_target,
        }
    }
}

impl Clone for LogConfig {
    fn clone(&self) -> (copy: Self)
        ensures
            copy == *self,
    {
        LogConfig {
            stdout: self.stdout,
            stderr: self.stderr,
            level: self.level.clone(),
            app_env: self.app_env.clone(),
            name: self.name.clone(),
            time_format: self.time_format.clone(),
            json_config: self.json_config,
            file_config: self.file_config.clone(),
            lock_guard: self.lock_guard,
            thread_id: self.thread_id,
            show_target: self.show_target,
        }
    }
}

/// The environment name to configure with: the one supplied, else the one
/// found in the process environment, else `development`.
pub fn resolve_environment(
    supplied: Option<String>,
    from_process: Option<String>,
) -> (app_env: String)
    ensures
        app_env@ == environment_for(opt_text(supplied), opt_text(from_process)),
{
    match supplied {
        Some(text) => text,
        None => match from_process {
            Some(text) => text,
            None => "development".to_string(),
        },
    }
}

impl LogConfig {
    /// Assembles a configuration. Every argument is optional. A name is cut
    /// down to its file name. `process_app_env` is the value of `APP_ENV` in
    /// the process environment, if it is set; it is used where `app_env` is
    /// not supplied. Where neither standard output, standard error nor a file
    /// is asked for, standard output is enabled.
    pub fn new(
        stdout: Option<bool>,
        stderr: Option<bool>,
        level: Option<String>,
        app_env: Option<String>,
        name: Option<String>,
        time_format: Option<String>,
        json_config: Option<JsonConfig>,
        file_config: Option<LogFileConfig>,
        lock_guard: Option<bool>,
        thread_id: Option<bool>,
        show_target: Option<bool>,
        process_app_env: Option<String>,
    ) -> (config: Self)
        requires
            name matches Some(text) ==> file_name_of(text@) is Some,
        ensures
            config@ == assembled(
                stdout,
                stderr,
                opt_text(level),
                opt_text(app_env),
                opt_text(name),
                opt_text(time_format),
                json_config,
                opt_file(file_config),
                lock_guard,
                thread_id,
                show_target,
                opt_text(process_app_env),
            ),
            config@.has_destination(),
    {
        let name = match name {
            Some(text) => Some(get_file_name(text.as_str())),
            None => None,
        };
        let mut config = LogConfig {
            stdout: stdout.unwrap_or(false),
            stderr: stderr.unwrap_or(false),
            level: match level {
                Some(text) => text,
                None => "INFO".to_string(),
            },
            app_env: resolve_environment(app_env, process_app_env),
            name,
            time_format: match time_format {
                Some(text) => text,
                None => DEFAULT_TIME_PATTERN.to_string(),
            },
            json_config,
            file_config,
            lock_guard: lock_guard.unwrap_or(false),
            thread_id: thread_id.unwrap_or(false),
            show_target: show_target.unwrap_or(false),
        };
        config.normalize();
        config
    }

    /// Whether at least one destination is enabled.
    pub fn has_destination(&self) -> (has: bool)
        ensures
            has == self@.has_destination(),
    {
        self.stdout || self.stderr || self.file_config.is_some()
    }

    /// Enables standard output where no destination is enabled, and says
    /// whether it did; the caller then owes the user a warning.
    pub fn normalize(&mut self) -> (defaulted: bool)
        ensures
            final(self)@ == old(self)@.normalized(),
            final(self)@.has_destination(),
            defaulted == !old(self)@.has_destination(),
    {
        if self.has_destination() {
            false
        } else {
            self.stdout = true;
            true
        }
    }

    /// Sets the level.
    pub fn log_level(&mut self, level: String)
        ensures
            final(self)@ == (LogConfigView { level: level@, ..old(self)@ }),
    {
        self.level = level;
    }

    /// Sets the name to the file name of `name`.
    pub fn update_name(&mut self, name: String)
        requires
            file_name_of(name@) is Some,
        ensures
            final(self)@ == (LogConfigView { name: file_name_of(name@), ..old(self)@ }),
    {
        let filename = get_file_name(name.as_str());
        self.name = Some(filename);
    }

    /// The minimum severity that the configuration asks for.
    pub fn severity(&self) -> (severity: Severity)
        ensures
            severity == self@.severity(),
    {
        Severity::parse(self.level.as_str())
    }

    /// Whether every sink that the configuration asks for can be built.
    pub fn buildable(&self) -> (buildable: bool)
        ensures
            buildable == self@.buildable(),
    {
        match &self.file_config {
            Some(file) => crate::paths::has_file_name(file.filename.as_str()),
            None => true,
        }
    }
}

/// The line to print before a configuration is assembled from `stdout`,
/// `stderr` and an optional file: a warning where none of them is enabled,
/// nothing otherwise.
pub fn destination_warning(
    stdout: Option<bool>,
    stderr: Option<bool>,
    has_file: bool,
) -> (line: Option<String>)
    ensures
        opt_text(line) == if stdout.unwrap_or(false) || stderr.unwrap_or(false) || has_file {
            None
        } else {
            Some(no_output_notice())
        },
{
    if stdout.unwrap_or(false) || stderr.unwrap_or(false) || has_file {
        None
    } else {
        Some(no_output_warning())
    }
}

/// A configuration is assembled with a destination whatever the arguments
/// are, and where they ask for none it gets standard output and nothing else.
pub proof fn law_assembled_has_a_destination(
    stdout: Option<bool>,
    stderr: Option<bool>,
    level: Option<Seq<char>>,
    app_env: Option<Seq<char>>,
    name: Option<Seq<char>>,
    time_format: Option<Seq<char>>,
    json_config: Option<JsonConfig>,
    file_config: Option<LogFileConfigView>,
    lock_guard: Option<bool>,
    thread_id: Option<bool>,
    show_target: Option<bool>,
    process_app_env: Option<Seq<char>>,
)
    ensures
        ({
            let config = assembled(
                stdout,
                stderr,
                level,
                app_env,
                name,
                time_format,
                json_config,
                file_config,
                lock_guard,
                thread_id,
                show_target,
                process_app_env,
            );
            &&& config.has_destination()
            &&& config.stderr == stderr.unwrap_or(false)
            &&& config.file_config == file_config
            &&& (!stdout.unwrap_or(false) && !stderr.unwrap_or(false) && file_config is None)
                ==> config.stdout && !config.stderr && config.file_config is None
            &&& (stdout.unwrap_or(false) || stderr.unwrap_or(false) || file_config is Some)
                ==> config.stdout == stdout.unwrap_or(false)
        }),
{
}

/// A configuration that asks for no destination gets standard output, and
/// one that asks for any is left as it is.
pub proof fn law_default_destination(config: LogConfigView)
    ensures
        config.normalized().has_destination(),
        !config.has_destination() ==> config.normalized().stdout,
        config.has_destination() ==> config.normalized() == config,
        config.normalized().normalized() == config.normalized(),
{
}

} // verus!
