//! The one place in a process for a global pipeline.
//!
//! A pipeline that is installed globally stays for the life of the process:
//! the first one to ask gets the place, and every later request is turned
//! down without an error. A registry is an explicit value, so that each test
//! can have its own.

use vstd::prelude::*;
use crate::rust_logger::{Installation, RustLogger, RustLoggerView};
use crate::sink::{clone_sinks, sink_views, Sink, SinkView};

verus! {

/// The mathematical content of a [`Registry`]: the sinks of the pipeline
/// that holds the global place, if one does.
pub ghost struct RegistryView {
    pub global: Option<Seq<SinkView>>,
}

impl RegistryView {
    /// The registry after a pipeline with the sinks `sinks` asks for the
    /// global place: it gets the place if the place is free, and nothing
    /// changes if it is taken.
    pub open spec fn after_claim(self, sinks: Seq<SinkView>) -> RegistryView {
        if self.global is None {
            RegistryView { global: Some(sinks) }
        } else {
            self
        }
    }

    /// Whether installing `logger` puts its pipeline in the global place:
    /// it must ask for that place, and the place must be free.
    pub open spec fn takes(self, logger: RustLoggerView) -> bool {
        logger.installation == Installation::Global && self.global is None
    }

    /// Whether installing `logger` turns it down: it asks for the global
    /// place, and the place is taken.
    pub open spec fn refuses(self, logger: RustLoggerView) -> bool {
        logger.installation == Installation::Global && self.global is Some
    }

    /// The registry after `logger` is installed.
    pub open spec fn after_install(self, logger: RustLoggerView) -> RegistryView {
        if logger.installation == Installation::Global {
            self.after_claim(logger.sinks)
        } else {
            self
        }
    }

    /// The handle after it is installed: gone if it was turned down, as it
    /// was otherwise.
    pub open spec fn installed(self, logger: RustLoggerView) -> RustLoggerView {
        if self.refuses(logger) {
            logger.lost()
        } else {
            logger
        }
    }
}

/// The global place, and the sinks of the pipeline that holds it.
#[derive(Debug)]
pub struct Registry {
    global: Option<Vec<Sink>>,
}

impl View for Registry {
    type V = RegistryView;

    closed spec fn view(&self) -> RegistryView {
        RegistryView {
            global: match self.global {
                Some(sinks) => Some(sink_views(sinks@)),
                None => None,
            },
        }
    }
}

impl Registry {
    /// A registry whose global place is free.
    pub fn new() -> (registry: Registry)
        ensures
            registry@.global is None,
    {
        Registry { global: None }
    }

    /// The sinks of the pipeline that holds the global place, if one does.
    pub fn global_sinks(&self) -> (sinks: Option<&Vec<Sink>>)
        ensures
            match sinks {
                Some(list) => self@.global == Some(sink_views(list@)),
                None => self@.global is None,
            },
    {
        self.global.as_ref()
    }

    /// Asks for the global place on behalf of a pipeline with the sinks
    /// `sinks`, and says whether the pipeline got it. Where the place is
    /// taken nothing changes, and that is no error.
    pub fn claim(&mut self, sinks: &Vec<Sink>) -> (taken: bool)
        ensures
            final(self)@ == old(self)@.after_claim(sink_views(sinks@)),
            taken == (old(self)@.global is None),
    {
        if self.global.is_some() {
            false
        } else {
            self.global = Some(clone_sinks(sinks));
            true
        }
    }

    /// Installs the pipeline of `logger` and says whether it is installed
    /// afterwards. A scoped pipeline is installed through its guard and
    /// leaves the global place alone. A global pipeline takes the global
    /// place if it is free; if it is taken, nothing is installed, the place
    /// keeps its pipeline, and the handle is marked as gone. Never fails.
    pub fn install(&mut self, logger: &mut RustLogger) -> (installed: bool)
        ensures
            final(self)@ == old(self)@.after_install(old(logger)@),
            final(logger)@ == old(self)@.installed(old(logger)@),
            installed == final(logger)@.is_active(),
    {
        match logger.installation() {
            Installation::Scoped => true,
            Installation::Gone => false,
            Installation::Global => {
                let taken = self.claim(logger.sinks());
                if !taken {
                    logger.pipeline_lost();
                }
                taken
            },
        }
    }
}

/// Of two global pipelines installed one after the other, only the first is
/// installed: the global place holds its sinks and no others, and the second
/// handle is gone and records nothing.
pub proof fn law_global_install_is_idempotent(
    registry: RegistryView,
    first: RustLoggerView,
    second: RustLoggerView,
)
    requires
        registry.global is None,
        first.installation == Installation::Global,
        second.installation == Installation::Global,
    ensures
        registry.after_install(first).global == Some(first.sinks),
        registry.installed(first) == first,
        registry.after_install(first).after_install(second) == registry.after_install(first),
        !registry.after_install(first).installed(second).is_active(),
        forall|level: crate::level::Severity|
            !(#[trigger] registry.after_install(first).installed(second).records(level)),
{
}

/// Once the global place is taken, nothing that asks for it changes the
/// registry, and the place is taken after the first that asks.
pub proof fn law_first_writer_wins(
    registry: RegistryView,
    logger: RustLoggerView,
    sinks: Seq<SinkView>,
    later: Seq<SinkView>,
)
    ensures
        registry.global is Some ==> registry.after_install(logger) == registry,
        registry.global is Some ==> registry.after_claim(sinks) == registry,
        registry.after_claim(sinks).global is Some,
        registry.after_claim(sinks).after_claim(later) == registry.after_claim(sinks),
        registry.global is None ==> registry.after_claim(sinks).global == Some(sinks),
{
}

} // verus!
