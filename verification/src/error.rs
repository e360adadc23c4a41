//! Errors of the logging subsystem.

use vstd::prelude::*;

verus! {

/// What can go wrong in the logging subsystem.
#[derive(Debug)]
pub enum LoggerError {
    /// Initialization was attempted and failed, for the reason given.
    NeverInitialized(String),
    /// The logger is being preinitialized by another caller.
    IsPreinitializing,
    /// The logger is being initialized by another caller.
    IsInitializing,
    /// The logger was initialized before, and can be initialized only once.
    AlreadyInitialized,
    /// Writing to a destination failed, with the text of the I/O error.
    LogWrite(String),
    /// Flushing a destination failed, with the text of the I/O error.
    LogFlush(String),
    /// The metrics could not be serialized, for the reason given.
    LogMetricFailure(String),
    /// This is not an option of the logger.
    InvalidLogOption(String),
}

/// A [`LoggerError`] with its texts as character sequences.
pub enum ErrorView {
    NeverInitialized(Seq<char>),
    IsPreinitializing,
    IsInitializing,
    AlreadyInitialized,
    LogWrite(Seq<char>),
    LogFlush(Seq<char>),
    LogMetricFailure(Seq<char>),
    InvalidLogOption(Seq<char>),
}

impl View for LoggerError {
    type V = ErrorView;

    open spec fn view(&self) -> ErrorView {
        match *self {
            LoggerError::NeverInitialized(s) => ErrorView::NeverInitialized(s@),
            LoggerError::IsPreinitializing => ErrorView::IsPreinitializing,
            LoggerError::IsInitializing => ErrorView::IsInitializing,
            LoggerError::AlreadyInitialized => ErrorView::AlreadyInitialized,
            LoggerError::LogWrite(s) => ErrorView::LogWrite(s@),
            LoggerError::LogFlush(s) => ErrorView::LogFlush(s@),
            LoggerError::LogMetricFailure(s) => ErrorView::LogMetricFailure(s@),
            LoggerError::InvalidLogOption(s) => ErrorView::InvalidLogOption(s@),
        }
    }
}

impl ErrorView {
    /// The text that tells a reader what went wrong.
    pub open spec fn message(self) -> Seq<char> {
        match self {
            ErrorView::NeverInitialized(reason) => reason,
            ErrorView::IsPreinitializing => "The logger is preinitializing."@,
            ErrorView::IsInitializing => "The logger is initializing."@,
            ErrorView::AlreadyInitialized => "Reinitialization of logger not allowed."@,
            ErrorView::LogWrite(reason) => "Failed to write logs. Error: "@ + reason,
            ErrorView::LogFlush(reason) => "Failed to flush logs. Error: "@ + reason,
            ErrorView::LogMetricFailure(reason) => reason,
            ErrorView::InvalidLogOption(option) => "Invalid log option: "@ + option,
        }
    }
}

impl LoggerError {
    /// The text that tells a reader what went wrong.
    pub fn message(&self) -> (text: String)
        ensures
            text@ == self@.message(),
    {
        match self {
            LoggerError::NeverInitialized(reason) => reason.clone(),
            LoggerError::IsPreinitializing => "The logger is preinitializing.".to_owned(),
            LoggerError::IsInitializing => "The logger is initializing.".to_owned(),
            LoggerError::AlreadyInitialized => "Reinitialization of logger not allowed.".to_owned(),
            LoggerError::LogWrite(reason) => {
                "Failed to write logs. Error: ".to_owned().concat(reason.as_str())
            },
            LoggerError::LogFlush(reason) => {
                "Failed to flush logs. Error: ".to_owned().concat(reason.as_str())
            },
            LoggerError::LogMetricFailure(reason) => reason.clone(),
            LoggerError::InvalidLogOption(option) => {
                "Invalid log option: ".to_owned().concat(option.as_str())
            },
        }
    }
}

} // verus!
