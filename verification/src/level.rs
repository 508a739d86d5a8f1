//! Severities and the minimum-severity filter.

use std::cmp::Ordering;
use vstd::std_specs::cmp::PartialOrdSpec;
use vstd::prelude::*;
use crate::text::same_text;

verus! {

/// How severe a log event is. The variants are listed from least to most
/// severe; [`Severity::rank`] is the position in that order.
#[derive(Clone, Copy, Debug, PartialEq, Eq, Structural)]
pub enum Severity {
    Trace,
    Debug,
    Info,
    Warn,
    Error,
}

impl Severity {
    /// Position in the order `Trace < Debug < Info < Warn < Error`.
    pub open spec fn rank(self) -> nat {
        match self {
            Severity::Trace => 0,
            Severity::Debug => 1,
            Severity::Info => 2,
            Severity::Warn => 3,
            Severity::Error => 4,
        }
    }

    /// The upper-case name of the severity.
    pub open spec fn label(self) -> Seq<char> {
        match self {
            Severity::Trace => "TRACE"@,
            Severity::Debug => "DEBUG"@,
            Severity::Info => "INFO"@,
            Severity::Warn => "WARN"@,
            Severity::Error => "ERROR"@,
        }
    }

    /// Whether `name` is, letter for letter, one of the five upper-case names.
    pub open spec fn is_label(name: Seq<char>) -> bool {
        name == "DEBUG"@ || name == "INFO"@ || name == "WARN"@ || name == "ERROR"@ || name
            == "TRACE"@
    }

    /// The severity that an upper-case name stands for. Any other text,
    /// lower-case spellings included, stands for `Info`.
    pub open spec fn named(name: Seq<char>) -> Severity {
        if name == "DEBUG"@ {
            Severity::Debug
        } else if name == "INFO"@ {
            Severity::Info
        } else if name == "WARN"@ {
            Severity::Warn
        } else if name == "ERROR"@ {
            Severity::Error
        } else if name == "TRACE"@ {
            Severity::Trace
        } else {
            Severity::Info
        }
    }

    /// Whether a filter set to `self` lets an event of severity `event` through:
    /// the event must be at least as severe as the filter.
    pub open spec fn admits(self, event: Severity) -> bool {
        self.rank() <= event.rank()
    }

    /// Reads an upper-case severity name; never fails.
    pub fn parse(name: &str) -> (severity: Severity)
        ensures
            severity == Severity::named(name@),
    {
        if same_text(name, "DEBUG") {
            Severity::Debug
        } else if same_text(name, "INFO") {
            Severity::Info
        } else if same_text(name, "WARN") {
            Severity::Warn
        } else if same_text(name, "ERROR") {
            Severity::Error
        } else if same_text(name, "TRACE") {
            Severity::Trace
        } else {
            Severity::Info
        }
    }

    /// The upper-case name, as an owned string.
    pub fn name(self) -> (name: String)
        ensures
            name@ == self.label(),
    {
        match self {
            Severity::Trace => "TRACE".to_string(),
            Severity::Debug => "DEBUG".to_string(),
            Severity::Info => "INFO".to_string(),
            Severity::Warn => "WARN".to_string(),
            Severity::Error => "ERROR".to_string(),
        }
    }

    /// Position in the order of severities, as a number.
    pub fn position(self) -> (position: u8)
        ensures
            position == self.rank(),
    {
        match self {
            Severity::Trace => 0,
            Severity::Debug => 1,
            Severity::Info => 2,
            Severity::Warn => 3,
            Severity::Error => 4,
        }
    }

    /// Decides whether a filter set to `self` lets `event` through.
    pub fn lets_through(self, event: Severity) -> (passes: bool)
        ensures
            passes == self.admits(event),
    {
        self.position() <= event.position()
    }
}

impl PartialOrd for Severity {
    /// Compares two severities by their rank.
    fn partial_cmp(&self, other: &Self) -> (order: Option<Ordering>) {
        let left = self.position();
        let right = other.position();
        if left < right {
            Some(Ordering::Less)
        } else if left == right {
            Some(Ordering::Equal)
        } else {
            Some(Ordering::Greater)
        }
    }
}

impl vstd::std_specs::cmp::PartialOrdSpecImpl for Severity {
    open spec fn obeys_partial_cmp_spec() -> bool {
        true
    }

    open spec fn partial_cmp_spec(&self, other: &Self) -> Option<Ordering> {
        if self.rank() < other.rank() {
            Some(Ordering::Less)
        } else if self.rank() == other.rank() {
            Some(Ordering::Equal)
        } else {
            Some(Ordering::Greater)
        }
    }
}

/// Any text that is not one of the five upper-case names reads as `Info`.
pub proof fn law_unknown_name_is_info(name: Seq<char>)
    requires
        !Severity::is_label(name),
    ensures
        Severity::named(name) == Severity::Info,
{
}

/// Reading the name of a severity gives that severity back.
pub proof fn law_name_round_trip(severity: Severity)
    ensures
        Severity::is_label(severity.label()),
        Severity::named(severity.label()) == severity,
{
    reveal_strlit("TRACE");
    reveal_strlit("DEBUG");
    reveal_strlit("INFO");
    reveal_strlit("WARN");
    reveal_strlit("ERROR");
    assert("TRACE"@.len() == 5 && "TRACE"@[0] == 'T');
    assert("ERROR"@.len() == 5 && "ERROR"@[0] == 'E');
    assert("INFO"@.len() == 4 && "INFO"@[0] == 'I');
    assert("WARN"@.len() == 4 && "WARN"@[0] == 'W');
}

/// The filter is a threshold: every severity admits itself, and whatever a
/// filter admits, every less severe filter admits too.
pub proof fn law_filter_is_threshold(low: Severity, high: Severity, event: Severity)
    requires
        low.rank() <= high.rank(),
    ensures
        low.admits(low),
        high.admits(event) ==> low.admits(event),
        Severity::Trace.admits(event),
        Severity::Error.admits(event) <==> event == Severity::Error,
{
}

/// The order of severities and the filter agree: a filter lets an event
/// through exactly when the filter is not greater than the event.
pub proof fn law_order_matches_filter(filter: Severity, event: Severity)
    ensures
        filter.admits(event) <==> filter.partial_cmp_spec(&event) != Some(Ordering::Greater),
        filter.partial_cmp_spec(&event) == Some(Ordering::Equal) <==> filter == event,
{
}

} // verus!
