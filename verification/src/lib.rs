//! A structured-logging facade: from a declarative configuration to the
//! sinks of a logging pipeline, a severity filter that can be swapped while
//! the pipeline runs, and the events that leveled logging calls emit.
//!
//! The crate decides and describes; it performs no input or output. A
//! caller reads the environment, prints warnings, constructs the sinks that
//! [`sink`] lists, installs them, and emits the events that [`pylogger`]
//! and [`rust_logger`] hand back.
//!
//! - [`config`]: the configuration and its defaults.
//! - [`level`]: severities and the threshold filter.
//! - [`paths`]: directory and file name of a log path.
//! - [`timer`]: the timestamp pattern, with its fallback.
//! - [`sink`]: the sink builder.
//! - [`event`]: message interpolation and log events.
//! - [`rust_logger`]: the handle on one pipeline.
//! - [`registry`]: the one global place for a pipeline.
//! - [`pylogger`]: the logger that applications hold.
//! - [`json_logger`], [`setup`]: two smaller loggers.
//! - [`style`], [`text`], [`error`]: notices, string helpers, errors.

pub mod config;
pub mod error;
pub mod event;
pub mod json_logger;
pub mod level;
pub mod paths;
pub mod pylogger;
pub mod registry;
pub mod rust_logger;
pub mod setup;
pub mod sink;
pub mod style;
pub mod text;
pub mod timer;
