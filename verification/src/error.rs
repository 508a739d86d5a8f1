//! The errors that configuring a logger can report.

use vstd::prelude::*;
use crate::text::join2;

verus! {

/// Why the severity filter of a logger could not be changed.
#[derive(Clone, Copy, Debug, PartialEq, Eq, Structural)]
pub enum ReloadError {
    /// The pipeline that the logger was built for is no longer installed.
    SubscriberGone,
    /// The lock around the filter was poisoned by a panic elsewhere.
    Poisoned,
}

impl ReloadError {
    /// What the error says.
    pub open spec fn text(self) -> Seq<char> {
        match self {
            ReloadError::SubscriberGone => "subscriber no longer exists"@,
            ReloadError::Poisoned => "lock poisoned"@,
        }
    }

    /// What the error says, as an owned string.
    pub fn message(&self) -> (message: String)
        ensures
            message@ == self.text(),
    {
        match self {
            ReloadError::SubscriberGone => "subscriber no longer exists".to_string(),
            ReloadError::Poisoned => "lock poisoned".to_string(),
        }
    }
}

/// An error reported to the caller of a configuration call.
#[derive(Debug)]
pub enum LoggingError {
    Error(String),
}

impl LoggingError {
    /// The text that the error was made with.
    pub open spec fn detail(self) -> Seq<char> {
        match self {
            LoggingError::Error(text) => text@,
        }
    }

    /// What the error says: its detail behind a fixed heading.
    pub open spec fn text(self) -> Seq<char> {
        "Logging Error: "@ + self.detail()
    }

    /// What the error says, as an owned string.
    pub fn message(&self) -> (message: String)
        ensures
            message@ == self.text(),
    {
        match self {
            LoggingError::Error(text) => join2("Logging Error: ", text.as_str()),
        }
    }

    /// The error that reports a failed change of the severity filter.
    pub fn from_reload(error: ReloadError) -> (converted: LoggingError)
        ensures
            converted.detail() == error.text(),
    {
        LoggingError::Error(error.message())
    }
}


} // verus!
