//! Logging subsystem: human readable log lines, and metrics in JSON format.
//!
//! # States
//! Before anything else the logger can be preinitialized, any number of times. It can then log to
//! the standard output and the standard error. It can be initialized once: from then on log lines
//! go to one named pipe and metrics to another, and every further attempt is refused with an
//! explicit error. What all loggers of a process share stands in [`LogSystem`], which every such
//! call is handed.
//!
//! # Log lines
//! A log line has the form
//! `<timestamp> [<instance_id>:<level>:<file path>:<line number>] <log content>`. The level, and
//! the file path and line number, can be left out.
//!
//! # Decisions and effects
//! This library decides and computes. It opens no pipe and writes no line: it says what is to be
//! done and is told how it went. [`Logger::init`] takes the outcomes of opening the two pipes;
//! where they are not known beforehand, the same is done in steps by [`Logger::start_init`],
//! [`Logger::log_pipe_opened`] and [`Logger::metrics_pipe_opened`]. A message comes back as an
//! [`Emission`], and how its delivery went is reported with [`Logger::log_delivered`] or
//! [`Logger::metrics_delivered`].
//!
//! The module [`model`] says what each operation does, [`laws`] what holds of all of them together.

pub mod error;
pub mod laws;
pub mod level;
pub mod logger;
pub mod model;
pub mod options;
pub mod record;
pub mod sink;
pub mod system;
pub mod text;
pub mod time;

pub use error::LoggerError;
pub use level::Level;
pub use logger::Logger;
pub use options::{LogOption, OptionValue};
pub use record::{AppInfo, Record};
pub use sink::{Destination, Emission};
pub use system::{InitState, LogSystem, LoggerMetrics};
pub use time::LocalTime;
