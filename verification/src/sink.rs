//! The sink builder: from a configuration to the list of sinks to construct.
//!
//! A sink is one independent destination for log events: a console stream or
//! a rotating file, with the rules for formatting what is written there. The
//! builder constructs nothing that writes; it states, as plain values, which
//! sinks the configuration asks for. Every sink of one configuration shares
//! the format, the timer and the thread-id rule: an event fans out to each of
//! them unchanged.

use vstd::prelude::*;
use crate::config::{
    get_file_params, LogConfig, LogConfigView, LogFileConfig, LogFileConfigView, Rotation,
};
use crate::timer::{Timer, TimerView};

verus! {

/// The mathematical content of a [`Writer`].
pub ghost enum WriterView {
    Stdout,
    Stderr,
    File { directory: Seq<char>, file_name_prefix: Seq<char>, rotation: Rotation },
}

/// Where a sink writes.
#[derive(Debug)]
pub enum Writer {
    /// The standard output stream.
    Stdout,
    /// The standard error stream.
    Stderr,
    /// Files in `directory` whose names begin with `file_name_prefix`; a new
    /// file is begun as `rotation` says.
    File { directory: String, file_name_prefix: String, rotation: Rotation },
}

impl View for Writer {
    type V = WriterView;

    open spec fn view(&self) -> WriterView {
        match self {
            Writer::Stdout => WriterView::Stdout,
            Writer::Stderr => WriterView::Stderr,
            Writer::File { directory, file_name_prefix, rotation } => WriterView::File {
                directory: directory@,
                file_name_prefix: file_name_prefix@,
                rotation: *rotation,
            },
        }
    }
}

impl Clone for Writer {
    fn clone(&self) -> (copy: Self)
        ensures
            copy == *self,
    {
        match self {
            Writer::Stdout => Writer::Stdout,
            Writer::Stderr => Writer::Stderr,
            Writer::File { directory, file_name_prefix, rotation } => Writer::File {
                directory: directory.clone(),
                file_name_prefix: file_name_prefix.clone(),
                rotation: *rotation,
            },
        }
    }
}

/// How a sink formats an event.
#[derive(Clone, Copy, Debug, PartialEq, Eq, Structural)]
pub enum Format {
    /// One line of human-readable text.
    Text,
    /// One JSON object on a line; `flatten_event` says whether the fields of
    /// the event sit at the top level of the object.
    Json { flatten_event: bool },
}

/// The mathematical content of a [`Sink`].
pub ghost struct SinkView {
    pub writer: WriterView,
    pub format: Format,
    pub show_target: bool,
    pub thread_ids: bool,
    pub timer: TimerView,
}

/// One destination for log events, and how events are written to it.
#[derive(Debug)]
pub struct Sink {
    pub writer: Writer,
    pub format: Format,
    /// Whether the module that an event comes from is written.
    pub show_target: bool,
    /// Whether the id of the emitting thread is written.
    pub thread_ids: bool,
    pub timer: Timer,
}

impl View for Sink {
    type V = SinkView;

    open spec fn view(&self) -> SinkView {
        SinkView {
            writer: self.writer@,
            format: self.format,
            show_target: self.show_target,
            thread_ids: self.thread_ids,
            timer: self.timer@,
        }
    }
}

impl Clone for Sink {
    fn clone(&self) -> (copy: Self)
        ensures
            copy == *self,
    {
        Sink {
            writer: self.writer.clone(),
            format: self.format,
            show_target: self.show_target,
            thread_ids: self.thread_ids,
            timer: self.timer.clone(),
        }
    }
}

/// The views of a list of sinks, in order.
pub open spec fn sink_views(sinks: Seq<Sink>) -> Seq<SinkView> {
    sinks.map_values(|sink: Sink| sink@)
}

/// A copy of a list of sinks.
pub fn clone_sinks(sinks: &Vec<Sink>) -> (copy: Vec<Sink>)
    ensures
        copy@ == sinks@,
{
    let mut copy: Vec<Sink> = Vec::new();
    let mut i: usize = 0;
    while i < sinks.len()
        invariant
            i <= sinks.len(),
            copy@ == sinks@.take(i as int),
        decreases sinks.len() - i,
    {
        copy.push(sinks[i].clone());
        i += 1;
    }
    copy
}

/// The file writer that a file destination asks for.
pub open spec fn file_writer_of(file: LogFileConfigView) -> WriterView {
    WriterView::File {
        directory: file.directory(),
        file_name_prefix: file.file_name_prefix(),
        rotation: file.rotation(),
    }
}

/// The writers that a configuration asks for: standard output, standard
/// error and the file, in that order, each only if enabled.
pub open spec fn writers_of(config: LogConfigView) -> Seq<WriterView> {
    let stdout = if config.stdout {
        seq![WriterView::Stdout]
    } else {
        seq![]
    };
    let stderr = if config.stderr {
        seq![WriterView::Stderr]
    } else {
        seq![]
    };
    let file = match config.file_config {
        Some(file) => seq![file_writer_of(file)],
        None => seq![],
    };
    stdout + stderr + file
}

/// A JSON sink on `writer`. The target is never shown in JSON.
pub open spec fn json_sink_of(
    config: LogConfigView,
    writer: WriterView,
    timer: TimerView,
) -> SinkView {
    SinkView {
        writer,
        format: Format::Json { flatten_event: config.json_config.unwrap().flatten },
        show_target: false,
        thread_ids: config.thread_id,
        timer,
    }
}

/// A text sink on `writer`.
pub open spec fn cmd_sink_of(
    config: LogConfigView,
    writer: WriterView,
    timer: TimerView,
) -> SinkView {
    SinkView {
        writer,
        format: Format::Text,
        show_target: config.show_target,
        thread_ids: config.thread_id,
        timer,
    }
}

/// The sink that a configuration asks for on `writer`: JSON where a JSON
/// layout is configured, text otherwise.
pub open spec fn sink_of(config: LogConfigView, writer: WriterView, timer: TimerView) -> SinkView {
    if config.json_config is Some {
        json_sink_of(config, writer, timer)
    } else {
        cmd_sink_of(config, writer, timer)
    }
}

/// The sinks that a configuration asks for: one for each writer, in order.
pub open spec fn sinks_of(config: LogConfigView, timer: TimerView) -> Seq<SinkView> {
    writers_of(config).map_values(|writer: WriterView| sink_of(config, writer, timer))
}

/// The writer for a file destination.
pub fn file_writer(file_config: &LogFileConfig) -> (writer: Writer)
    requires
        file_config@.names_a_file(),
    ensures
        writer@ == file_writer_of(file_config@),
{
    let (directory, file_name_prefix) = get_file_params(file_config);
    Writer::File { directory, file_name_prefix, rotation: file_config.rotation() }
}

/// A JSON sink on `writer`.
pub fn construct_json_layer(log_config: &LogConfig, writer: Writer, timer: &Timer) -> (sink: Sink)
    requires
        log_config@.json_config is Some,
    ensures
        sink@ == json_sink_of(log_config@, writer@, timer@),
{
    let flatten = match log_config.json_config {
        Some(json) => json.flatten,
        None => true,
    };
    Sink {
        writer,
        format: Format::Json { flatten_event: flatten },
        show_target: false,
        thread_ids: log_config.thread_id,
        timer: timer.clone(),
    }
}

/// A text sink on `writer`.
pub fn construct_cmd_layer(log_config: &LogConfig, writer: Writer, timer: &Timer) -> (sink: Sink)
    ensures
        sink@ == cmd_sink_of(log_config@, writer@, timer@),
{
    Sink {
        writer,
        format: Format::Text,
        show_target: log_config.show_target,
        thread_ids: log_config.thread_id,
        timer: timer.clone(),
    }
}

/// The JSON sinks that a configuration asks for.
pub fn construct_json_layers(log_config: &LogConfig, timer: &Timer) -> (layers: Vec<Sink>)
    requires
        log_config@.json_config is Some,
        log_config@.buildable(),
    ensures
        sink_views(layers@) == sinks_of(log_config@, timer@),
{
    let mut layers: Vec<Sink> = Vec::new();
    if log_config.stdout {
        layers.push(construct_json_layer(log_config, Writer::Stdout, timer));
    }
    if log_config.stderr {
        layers.push(construct_json_layer(log_config, Writer::Stderr, timer));
    }
    if log_config.file_config.is_some() {
        let writer = file_writer(log_config.file_config.as_ref().unwrap());
        layers.push(construct_json_layer(log_config, writer, timer));
    }
    layers
}

/// The text sinks that a configuration asks for.
pub fn construct_cmd_layers(log_config: &LogConfig, timer: &Timer) -> (layers: Vec<Sink>)
    requires
        log_config@.json_config is None,
        log_config@.buildable(),
    ensures
        sink_views(layers@) == sinks_of(log_config@, timer@),
{
    let mut layers: Vec<Sink> = Vec::new();
    if log_config.stdout {
        layers.push(construct_cmd_layer(log_config, Writer::Stdout, timer));
    }
    if log_config.stderr {
        layers.push(construct_cmd_layer(log_config, Writer::Stderr, timer));
    }
    if log_config.file_config.is_some() {
        let writer = file_writer(log_config.file_config.as_ref().unwrap());
        layers.push(construct_cmd_layer(log_config, writer, timer));
    }
    layers
}

/// The sinks that a configuration asks for, each writing timestamps with
/// `timer`: one for standard output, one for standard error and one for the
/// file, in that order, each only if enabled; none if nothing is enabled.
pub fn build_layers(log_config: &LogConfig, timer: &Timer) -> (layers: Vec<Sink>)
    requires
        log_config@.buildable(),
    ensures
        sink_views(layers@) == sinks_of(log_config@, timer@),
{
    if log_config.json_config.is_some() {
        construct_json_layers(log_config, timer)
    } else {
        construct_cmd_layers(log_config, timer)
    }
}

/// There is one sink for each enabled destination, so there is none exactly
/// when no destination is enabled.
pub proof fn law_one_sink_per_destination(config: LogConfigView, timer: TimerView)
    ensures
        sinks_of(config, timer).len() == (if config.stdout {
            1int
        } else {
            0
        }) + (if config.stderr {
            1int
        } else {
            0
        }) + (if config.file_config is Some {
            1int
        } else {
            0
        }),
        sinks_of(config, timer).len() == 0 <==> !config.has_destination(),
{
}

/// Every sink of a configuration has the same format, timer and thread-id
/// rule, and in JSON no sink shows the target.
pub proof fn law_sinks_are_uniform(config: LogConfigView, timer: TimerView, i: int)
    requires
        0 <= i < sinks_of(config, timer).len(),
    ensures
        sinks_of(config, timer)[i].writer == writers_of(config)[i],
        sinks_of(config, timer)[i].timer == timer,
        sinks_of(config, timer)[i].thread_ids == config.thread_id,
        sinks_of(config, timer)[i].format == match config.json_config {
            Some(json) => Format::Json { flatten_event: json.flatten },
            None => Format::Text,
        },
        sinks_of(config, timer)[i].show_target == (config.json_config is None
            && config.show_target),
{
}

/// A configuration that names no destination gets, once normalized, exactly
/// one sink, on standard output.
pub proof fn law_default_sink_is_stdout(config: LogConfigView, timer: TimerView)
    requires
        !config.has_destination(),
    ensures
        sinks_of(config.normalized(), timer) == seq![
            sink_of(config.normalized(), WriterView::Stdout, timer),
        ],
{
}

/// The file sink comes last, writes to the directory of the configured path
/// under the file name of that path, and rotates as the configuration says.
pub proof fn law_file_sink_follows_path(config: LogConfigView, timer: TimerView)
    requires
        config.file_config is Some,
    ensures
        sinks_of(config, timer).len() > 0,
        sinks_of(config, timer).last().writer == (WriterView::File {
            directory: crate::paths::directory_of(config.file_config.unwrap().filename),
            file_name_prefix: crate::paths::file_name_of(
                config.file_config.unwrap().filename,
            ).unwrap(),
            rotation: Rotation::named(config.file_config.unwrap().rotate),
        }),
{
}

} // verus!
