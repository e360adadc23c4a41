//! Where messages go, and how a line is written there.

use vstd::prelude::*;
use crate::error::{ErrorView, LoggerError};

verus! {

/// Where a message goes.
#[derive(Debug, PartialEq, Eq)]
pub enum Destination {
    /// The standard output of the process.
    Stdout,
    /// The standard error of the process.
    Stderr,
    /// The pipe for log lines that was opened under this path.
    LogPipe(String),
    /// The pipe for metrics that was opened under this path.
    MetricsPipe(String),
}

/// A [`Destination`] with its path as a character sequence.
pub enum DestinationView {
    Stdout,
    Stderr,
    LogPipe(Seq<char>),
    MetricsPipe(Seq<char>),
}

impl View for Destination {
    type V = DestinationView;

    open spec fn view(&self) -> DestinationView {
        match *self {
            Destination::Stdout => DestinationView::Stdout,
            Destination::Stderr => DestinationView::Stderr,
            Destination::LogPipe(path) => DestinationView::LogPipe(path@),
            Destination::MetricsPipe(path) => DestinationView::MetricsPipe(path@),
        }
    }
}

/// A message on its way: it is to be written as one line.
#[derive(Debug, PartialEq, Eq)]
pub struct Emission {
    /// Where the message goes.
    pub destination: Destination,
    /// The message, without the end of line.
    pub text: String,
}

/// An [`Emission`] with its texts as character sequences.
pub struct EmissionView {
    pub destination: DestinationView,
    pub text: Seq<char>,
}

impl View for Emission {
    type V = EmissionView;

    open spec fn view(&self) -> EmissionView {
        EmissionView { destination: self.destination@, text: self.text@ }
    }
}

/// The line that is handed to a destination for the message `msg`.
pub open spec fn line(msg: Seq<char>) -> Seq<char> {
    msg + "\n"@
}

/// How writing a line went, from the outcome of the write and of the flush that follows a write
/// that succeeded.
pub open spec fn write_result<W, F>(
    written: Result<W, Seq<char>>,
    flushed: Result<F, Seq<char>>,
) -> Result<(), ErrorView> {
    match (written, flushed) {
        (Err(e), _) => Err(ErrorView::LogWrite(e)),
        (Ok(_), Err(e)) => Err(ErrorView::LogFlush(e)),
        (Ok(_), Ok(_)) => Ok(()),
    }
}

/// The outcome of an I/O operation, with the text of the error as a character sequence.
pub open spec fn io_view<T>(outcome: Result<T, String>) -> Result<T, Seq<char>> {
    match outcome {
        Ok(t) => Ok(t),
        Err(e) => Err(e@),
    }
}

/// The outcome of an operation, with the error by its view.
pub open spec fn outcome_view<T>(outcome: Result<T, LoggerError>) -> Result<T, ErrorView> {
    match outcome {
        Ok(t) => Ok(t),
        Err(e) => Err(e@),
    }
}

/// The line to hand to a destination for `msg`.
pub fn line_of(msg: String) -> (text: String)
    ensures
        text@ == line(msg@),
{
    msg.concat("\n")
}

/// What follows the write of a line: after a success the destination is to be flushed.
pub fn after_write(written: Result<usize, String>) -> (res: Result<(), LoggerError>)
    ensures
        match written {
            Ok(_) => res is Ok,
            Err(e) => outcome_view(res) == Err::<(), _>(ErrorView::LogWrite(e@)),
        },
{
    match written {
        Ok(_) => Ok(()),
        Err(e) => Err(LoggerError::LogWrite(e)),
    }
}

/// What follows the flush of a destination.
pub fn after_flush(flushed: Result<(), String>) -> (res: Result<(), LoggerError>)
    ensures
        match flushed {
            Ok(()) => res is Ok,
            Err(e) => outcome_view(res) == Err::<(), _>(ErrorView::LogFlush(e@)),
        },
{
    match flushed {
        Ok(()) => Ok(()),
        Err(e) => Err(LoggerError::LogFlush(e)),
    }
}

/// Writes `msg` to a destination of which it is known how a write and a flush end there: the line
/// that is handed over, and how it went. A destination on which the write failed is not flushed.
pub fn write_to_destination(
    msg: String,
    written: Result<usize, String>,
    flushed: Result<(), String>,
) -> (res: (String, Result<(), LoggerError>))
    ensures
        res.0@ == line(msg@),
        outcome_view(res.1) == write_result(io_view(written), io_view(flushed)),
{
    let handed: String = line_of(msg);
    match after_write(written) {
        Ok(()) => (handed, after_flush(flushed)),
        Err(e) => (handed, Err(e)),
    }
}

} // verus!
