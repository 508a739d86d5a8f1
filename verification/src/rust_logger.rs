//! The pipeline handle: the sinks of one logger, its severity filter, and
//! whether the pipeline is still installed.
//!
//! A handle is built from a configuration. Changing the level swaps the
//! filter and touches nothing else; the sinks are those that the handle was
//! built with for as long as it lives. A handle whose pipeline is gone, because
//! its guard was dropped or because it lost the race for the global place,
//! reports that when asked to change the level, and records nothing.

use vstd::prelude::*;
use crate::config::{LogConfig, LogConfigView};
use crate::error::ReloadError;
use crate::event::{interpolate, interpolated, LogEvent, LogEventView};
use crate::level::Severity;
use crate::sink::{build_layers, clone_sinks, sink_views, sinks_of, Sink, SinkView};
use crate::text::texts;
use crate::timer::{complaint_about, get_timer, timer_for, Timer, TimerView};

verus! {

/// How a pipeline is installed as the destination of log events.
#[derive(Clone, Copy, Debug, PartialEq, Eq, Structural)]
pub enum Installation {
    /// Installed for the whole process; there is no guard to drop.
    Global,
    /// Installed for as long as the handle keeps its guard.
    Scoped,
    /// No longer installed, or never installed.
    Gone,
}

/// The mathematical content of a [`RustLogger`].
pub ghost struct RustLoggerView {
    pub sinks: Seq<SinkView>,
    pub filter: Severity,
    pub installation: Installation,
}

impl RustLoggerView {
    /// The handle built from `config`, with `timer` for the timestamps.
    pub open spec fn built(config: LogConfigView, timer: TimerView) -> RustLoggerView {
        RustLoggerView {
            sinks: sinks_of(config, timer),
            filter: config.severity(),
            installation: if config.lock_guard {
                Installation::Scoped
            } else {
                Installation::Global
            },
        }
    }

    /// Whether the pipeline is installed.
    pub open spec fn is_active(self) -> bool {
        self.installation != Installation::Gone
    }

    /// The handle after a request to set the level named `level`: the filter
    /// is swapped if the pipeline is installed, and nothing changes if not.
    pub open spec fn reloaded(self, level: Seq<char>) -> RustLoggerView {
        if self.is_active() {
            RustLoggerView { filter: Severity::named(level), ..self }
        } else {
            self
        }
    }

    /// What a request to set the level returns.
    pub open spec fn reload_outcome(self) -> Result<(), ReloadError> {
        if self.is_active() {
            Ok(())
        } else {
            Err(ReloadError::SubscriberGone)
        }
    }

    /// The handle after its guard is dropped: a scoped pipeline is gone, any
    /// other handle is as it was.
    pub open spec fn guard_dropped(self) -> RustLoggerView {
        if self.installation == Installation::Scoped {
            RustLoggerView { installation: Installation::Gone, ..self }
        } else {
            self
        }
    }

    /// The handle once the installed pipeline has answered a request to set
    /// the level, where `previous` is the filter from before the request. If
    /// the pipeline swapped its filter, the handle is as the request left
    /// it. If it did not, the filter is the previous one again, and where
    /// the pipeline turned out to be gone, the handle is gone too.
    pub open spec fn settled(
        self,
        previous: Severity,
        outcome: Result<(), ReloadError>,
    ) -> RustLoggerView {
        match outcome {
            Ok(_) => self,
            Err(ReloadError::Poisoned) => RustLoggerView { filter: previous, ..self },
            Err(ReloadError::SubscriberGone) => RustLoggerView {
                filter: previous,
                installation: Installation::Gone,
                ..self
            },
        }
    }

    /// The handle after its pipeline is lost.
    pub open spec fn lost(self) -> RustLoggerView {
        RustLoggerView { installation: Installation::Gone, ..self }
    }

    /// Whether the pipeline records an event of severity `level`: it must be
    /// installed, and the filter must let the event through.
    pub open spec fn records(self, level: Severity) -> bool {
        self.is_active() && self.filter.admits(level)
    }

    /// The sinks that receive an event of severity `level`: all of them if
    /// the pipeline records it, none otherwise.
    pub open spec fn receivers(self, level: Severity) -> Seq<SinkView> {
        if self.records(level) {
            self.sinks
        } else {
            seq![]
        }
    }
}

/// The event that a logging call makes: the message with its arguments put
/// in, the environment and the name of the configuration, and no metadata.
pub open spec fn event_of(
    level: Severity,
    message: Seq<char>,
    args: Option<Seq<Seq<char>>>,
    config: LogConfigView,
) -> LogEventView {
    LogEventView {
        level,
        message: interpolated(message, args),
        app_env: config.app_env,
        name: config.name,
        metadata: None,
    }
}

/// The views of optional arguments.
pub open spec fn opt_texts(args: Option<Vec<String>>) -> Option<Seq<Seq<char>>> {
    match args {
        Some(list) => Some(texts(list@)),
        None => None,
    }
}

/// The handle on one logging pipeline.
#[derive(Debug)]
pub struct RustLogger {
    sinks: Vec<Sink>,
    filter: Severity,
    installation: Installation,
}

impl View for RustLogger {
    type V = RustLoggerView;

    closed spec fn view(&self) -> RustLoggerView {
        RustLoggerView {
            sinks: sink_views(self.sinks@),
            filter: self.filter,
            installation: self.installation,
        }
    }
}

impl RustLogger {
    /// The timer for a requested pattern.
    pub fn get_timer(time_format: String) -> (timer: Timer)
        ensures
            timer@ == timer_for(time_format@, complaint_about(time_format@)),
    {
        get_timer(time_format)
    }

    /// The minimum severity that a level name stands for.
    pub fn get_level_filter(level: &str) -> (filter: Severity)
        ensures
            filter == Severity::named(level@),
    {
        Severity::parse(level)
    }

    /// The sinks that a configuration asks for.
    pub fn build_layers(log_config: &LogConfig) -> (layers: Vec<Sink>)
        requires
            log_config@.buildable(),
        ensures
            sink_views(layers@) == sinks_of(
                log_config@,
                timer_for(log_config@.time_format, complaint_about(log_config@.time_format)),
            ),
    {
        let timer = get_timer(log_config.time_format.clone());
        build_layers(log_config, &timer)
    }

    /// Builds the handle from a configuration and the timer chosen for it.
    pub fn assemble(log_config: &LogConfig, timer: &Timer) -> (logger: RustLogger)
        requires
            log_config@.buildable(),
        ensures
            logger@ == RustLoggerView::built(log_config@, timer@),
    {
        RustLogger {
            sinks: build_layers(log_config, timer),
            filter: Severity::parse(log_config.level.as_str()),
            installation: if log_config.lock_guard {
                Installation::Scoped
            } else {
                Installation::Global
            },
        }
    }

    /// Builds the handle from a configuration: the sinks that it asks for, a
    /// filter at its level, scoped if it asks for a guard and global if not.
    pub fn new(log_config: &LogConfig) -> (logger: RustLogger)
        requires
            log_config@.buildable(),
        ensures
            logger@ == RustLoggerView::built(
                log_config@,
                timer_for(log_config@.time_format, complaint_about(log_config@.time_format)),
            ),
    {
        let timer = get_timer(log_config.time_format.clone());
        RustLogger::assemble(log_config, &timer)
    }

    /// The sinks of the pipeline.
    pub fn sinks(&self) -> (sinks: &Vec<Sink>)
        ensures
            sink_views(sinks@) == self@.sinks,
    {
        &self.sinks
    }

    /// The minimum severity that the pipeline records.
    pub fn filter(&self) -> (filter: Severity)
        ensures
            filter == self@.filter,
    {
        self.filter
    }

    /// How the pipeline is installed.
    pub fn installation(&self) -> (installation: Installation)
        ensures
            installation == self@.installation,
    {
        self.installation
    }

    /// Whether the handle holds the guard of a scoped pipeline.
    pub fn holds_guard(&self) -> (holds: bool)
        ensures
            holds == (self@.installation == Installation::Scoped),
    {
        self.installation == Installation::Scoped
    }

    /// Sets the minimum severity to the one that `level` names. Only the
    /// filter changes; the sinks stay as they are. Fails, and changes
    /// nothing, where the pipeline is gone.
    pub fn reload_level(&mut self, level: &str) -> (outcome: Result<(), ReloadError>)
        ensures
            final(self)@ == old(self)@.reloaded(level@),
            outcome == old(self)@.reload_outcome(),
            final(self)@.sinks == old(self)@.sinks,
            final(self)@.installation == old(self)@.installation,
    {
        if self.installation == Installation::Gone {
            Err(ReloadError::SubscriberGone)
        } else {
            self.filter = Severity::parse(level);
            Ok(())
        }
    }

    /// Takes in what the installed pipeline answered to a request to set the
    /// level, where `previous` is the filter from before the request, and
    /// hands the answer on. A failure undoes the change of the filter; a
    /// pipeline that is gone marks the handle as gone.
    pub fn settle_reload(
        &mut self,
        previous: Severity,
        outcome: Result<(), ReloadError>,
    ) -> (settled: Result<(), ReloadError>)
        ensures
            final(self)@ == old(self)@.settled(previous, outcome),
            final(self)@.sinks == old(self)@.sinks,
            settled == outcome,
    {
        match outcome {
            Ok(_) => {},
            Err(ReloadError::Poisoned) => {
                self.filter = previous;
            },
            Err(ReloadError::SubscriberGone) => {
                self.filter = previous;
                self.installation = Installation::Gone;
            },
        }
        outcome
    }

    /// Drops the guard of a scoped pipeline, which ends the pipeline, and
    /// says whether there was a guard to drop.
    pub fn drop_guard(&mut self) -> (dropped: bool)
        ensures
            final(self)@ == old(self)@.guard_dropped(),
            dropped == (old(self)@.installation == Installation::Scoped),
    {
        if self.installation == Installation::Scoped {
            self.installation = Installation::Gone;
            true
        } else {
            false
        }
    }

    /// Records that the pipeline is no longer installed.
    pub fn pipeline_lost(&mut self)
        ensures
            final(self)@ == old(self)@.lost(),
    {
        self.installation = Installation::Gone;
    }

    /// Whether the pipeline records an event of severity `level`.
    pub fn records(&self, level: Severity) -> (records: bool)
        ensures
            records == self@.records(level),
    {
        self.installation != Installation::Gone && self.filter.lets_through(level)
    }

    /// The sinks that receive an event of severity `level`: every sink of
    /// the pipeline if it records the event, none if it does not.
    pub fn receivers(&self, level: Severity) -> (sinks: Vec<Sink>)
        ensures
            sink_views(sinks@) == self@.receivers(level),
    {
        if self.records(level) {
            clone_sinks(&self.sinks)
        } else {
            Vec::new()
        }
    }

    /// The event for a call at `level`.
    pub fn emit(
        &self,
        level: Severity,
        message: &str,
        args: Option<Vec<String>>,
        log_config: &LogConfig,
    ) -> (event: LogEvent)
        ensures
            event@ == event_of(level, message@, opt_texts(args), log_config@),
    {
        LogEvent {
            level,
            message: interpolate(message, &args),
            app_env: log_config.app_env.clone(),
            name: log_config.name.clone(),
            metadata: None,
        }
    }

    /// The event for an info message.
    pub fn info(
        &self,
        message: &str,
        args: Option<Vec<String>>,
        log_config: &LogConfig,
    ) -> (event: LogEvent)
        ensures
            event@ == event_of(Severity::Info, message@, opt_texts(args), log_config@),
    {
        self.emit(Severity::Info, message, args, log_config)
    }

    /// The event for a debug message.
    pub fn debug(
        &self,
        message: &str,
        args: Option<Vec<String>>,
        log_config: &LogConfig,
    ) -> (event: LogEvent)
        ensures
            event@ == event_of(Severity::Debug, message@, opt_texts(args), log_config@),
    {
        self.emit(Severity::Debug, message, args, log_config)
    }

    /// The event for a warning.
    pub fn warning(
        &self,
        message: &str,
        args: Option<Vec<String>>,
        log_config: &LogConfig,
    ) -> (event: LogEvent)
        ensures
            event@ == event_of(Severity::Warn, message@, opt_texts(args), log_config@),
    {
        self.emit(Severity::Warn, message, args, log_config)
    }

    /// The event for an error message.
    pub fn error(
        &self,
        message: &str,
        args: Option<Vec<String>>,
        log_config: &LogConfig,
    ) -> (event: LogEvent)
        ensures
            event@ == event_of(Severity::Error, message@, opt_texts(args), log_config@),
    {
        self.emit(Severity::Error, message, args, log_config)
    }

    /// The event for a trace message.
    pub fn trace(
        &self,
        message: &str,
        args: Option<Vec<String>>,
        log_config: &LogConfig,
    ) -> (event: LogEvent)
        ensures
            event@ == event_of(Severity::Trace, message@, opt_texts(args), log_config@),
    {
        self.emit(Severity::Trace, message, args, log_config)
    }
}

/// Setting the level of an installed pipeline swaps the filter and nothing
/// else: the sinks and the installation stay, and an event that the new
/// filter lets through is received by every sink that was there before.
pub proof fn law_reload_keeps_sinks(logger: RustLoggerView, level: Seq<char>, event: Severity)
    requires
        logger.is_active(),
    ensures
        logger.reload_outcome() is Ok,
        logger.reloaded(level).sinks == logger.sinks,
        logger.reloaded(level).installation == logger.installation,
        logger.reloaded(level).filter == Severity::named(level),
        Severity::named(level).admits(event) ==> logger.reloaded(level).receivers(event)
            == logger.sinks,
        logger.reloaded("DEBUG"@).receivers(Severity::Debug) == logger.sinks,
{
}

/// After the guard of a scoped pipeline is dropped, setting the level fails
/// with an error and changes nothing, and no event is recorded.
pub proof fn law_dropped_guard_ends_pipeline(
    logger: RustLoggerView,
    level: Seq<char>,
    event: Severity,
)
    requires
        logger.installation == Installation::Scoped,
    ensures
        !logger.guard_dropped().is_active(),
        logger.guard_dropped().reload_outcome() == Err::<(), ReloadError>(
            ReloadError::SubscriberGone,
        ),
        logger.guard_dropped().reloaded(level) == logger.guard_dropped(),
        !logger.guard_dropped().records(event),
        logger.guard_dropped().receivers(event).len() == 0,
        logger.guard_dropped().guard_dropped() == logger.guard_dropped(),
{
}

/// A pipeline records an event exactly when it is installed and the event
/// is at least as severe as its filter.
pub proof fn law_filter_gates_every_sink(logger: RustLoggerView, event: Severity)
    ensures
        logger.records(event) <==> logger.is_active() && logger.filter.rank() <= event.rank(),
        logger.records(event) ==> logger.receivers(event) == logger.sinks,
        !logger.records(event) ==> logger.receivers(event).len() == 0,
{
}

} // verus!
