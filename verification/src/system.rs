//! What all loggers of a process share: how far initialization has come, the level up to which
//! records are handed on, and the counters of the logging subsystem.

use vstd::prelude::*;
use crate::error::ErrorView;
use crate::level::{set_max_level, Level, MaxLevel};

verus! {

/// How far the one-time initialization has come.
#[derive(Clone, Copy, Debug, PartialEq, Eq, Structural)]
pub enum InitState {
    /// Nobody has initialized the logging subsystem, and nobody is about to.
    Uninitialized,
    /// A caller is preinitializing the logging subsystem.
    Preinitializing,
    /// A caller is initializing the logging subsystem.
    Initializing,
    /// The logging subsystem is initialized.
    Initialized,
}

impl InitState {
    /// The error that a caller gets who wants to start work in this state.
    pub open spec fn refusal(self) -> ErrorView
        recommends
            self != InitState::Uninitialized,
    {
        match self {
            InitState::Preinitializing => ErrorView::IsPreinitializing,
            InitState::Initializing => ErrorView::IsInitializing,
            _ => ErrorView::AlreadyInitialized,
        }
    }
}

/// Counters of what went wrong in the logging subsystem.
#[derive(Clone, Copy, Debug, PartialEq, Eq, Structural)]
pub struct LoggerMetrics {
    /// Number of refused attempts to initialize or preinitialize.
    pub log_fails: usize,
    /// Number of log lines that could not be written.
    pub missed_log_count: usize,
    /// Number of metrics lines that could not be written.
    pub missed_metrics_count: usize,
    /// Number of times that the metrics could not be serialized.
    pub metrics_fails: usize,
}

/// A counter after one more event. It starts again at zero when it is full.
pub open spec fn counted(count: usize) -> usize {
    if count == usize::MAX {
        0
    } else {
        (count + 1) as usize
    }
}

/// Counts one more event.
pub(crate) fn inc(count: usize) -> (next: usize)
    ensures
        next == counted(count),
{
    count.wrapping_add(1)
}

impl LoggerMetrics {
    /// These counters after one more refused attempt.
    pub open spec fn after_refusal(self) -> LoggerMetrics {
        LoggerMetrics { log_fails: counted(self.log_fails), ..self }
    }

    /// These counters after one more lost log line.
    pub open spec fn after_missed_log(self) -> LoggerMetrics {
        LoggerMetrics { missed_log_count: counted(self.missed_log_count), ..self }
    }

    /// These counters after one more lost metrics line.
    pub open spec fn after_missed_metrics(self) -> LoggerMetrics {
        LoggerMetrics { missed_metrics_count: counted(self.missed_metrics_count), ..self }
    }

    /// These counters after one more failed serialization.
    pub open spec fn after_failed_metrics(self) -> LoggerMetrics {
        LoggerMetrics { metrics_fails: counted(self.metrics_fails), ..self }
    }
}

/// What all loggers of a process share.
pub struct LogSystem {
    /// How far the one-time initialization has come.
    pub state: InitState,
    /// The level up to which records are handed to the logger.
    pub max_level: MaxLevel,
    /// Counters of what went wrong.
    pub metrics: LoggerMetrics,
}

impl LogSystem {
    /// The shared state of a process that has just started.
    pub fn new() -> (system: LogSystem)
        ensures
            system.state == InitState::Uninitialized,
            system.max_level == MaxLevel::unset(),
            system.metrics == (LoggerMetrics {
                log_fails: 0,
                missed_log_count: 0,
                missed_metrics_count: 0,
                metrics_fails: 0,
            }),
    {
        LogSystem {
            state: InitState::Uninitialized,
            max_level: MaxLevel::new(),
            metrics: LoggerMetrics {
                log_fails: 0,
                missed_log_count: 0,
                missed_metrics_count: 0,
                metrics_fails: 0,
            },
        }
    }

    /// This shared state with initialization at `state`.
    pub open spec fn at(self, state: InitState) -> LogSystem {
        LogSystem { state, ..self }
    }

    /// This shared state after an attempt that was refused.
    pub open spec fn refused(self) -> LogSystem {
        LogSystem { metrics: self.metrics.after_refusal(), ..self }
    }

    /// Lets every record through to the logger.
    pub(crate) fn hand_on_everything(&mut self)
        ensures
            *final(self) == (LogSystem { max_level: MaxLevel::at(Level::Trace), ..*old(self) }),
    {
        set_max_level(&mut self.max_level, Level::Trace);
    }
}

} // verus!
