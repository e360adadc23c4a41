//! The views that contracts speak of hold everything that the values themselves hold.

use vstd::prelude::*;
use crate::error::{ErrorView, LoggerError};
use crate::options::{OptionValue, OptionView};
use crate::record::Record;
use crate::sink::{Destination, DestinationView, Emission};

verus! {

/// The view of an error tells which error it is and what its text says.
pub proof fn law_view_of_an_error(e: LoggerError)
    ensures
        match e {
            LoggerError::NeverInitialized(s) => e@ == ErrorView::NeverInitialized(s@),
            LoggerError::IsPreinitializing => e@ == ErrorView::IsPreinitializing,
            LoggerError::IsInitializing => e@ == ErrorView::IsInitializing,
            LoggerError::AlreadyInitialized => e@ == ErrorView::AlreadyInitialized,
            LoggerError::LogWrite(s) => e@ == ErrorView::LogWrite(s@),
            LoggerError::LogFlush(s) => e@ == ErrorView::LogFlush(s@),
            LoggerError::LogMetricFailure(s) => e@ == ErrorView::LogMetricFailure(s@),
            LoggerError::InvalidLogOption(s) => e@ == ErrorView::InvalidLogOption(s@),
        },
{
}

/// The view of a message tells where it goes and what it says.
pub proof fn law_view_of_a_message(emission: Emission)
    ensures
        emission@.text == emission.text@,
        match emission.destination {
            Destination::Stdout => emission@.destination == DestinationView::Stdout,
            Destination::Stderr => emission@.destination == DestinationView::Stderr,
            Destination::LogPipe(path) => emission@.destination == DestinationView::LogPipe(path@),
            Destination::MetricsPipe(path) => emission@.destination
                == DestinationView::MetricsPipe(path@),
        },
{
}

/// The view of a record holds its level, its origin as far as it is known, and its message.
pub proof fn law_view_of_a_record(record: Record)
    ensures
        record@.level == record.level,
        record.file matches Some(path) ==> record@.file == Some(path@),
        record.file is None ==> record@.file is None,
        record@.line == record.line,
        record@.args == record.args@,
{
}

/// The view of a requested option tells whether it is a string, and its text.
pub proof fn law_view_of_an_option(value: OptionValue)
    ensures
        value matches OptionValue::Text(s) ==> value@ == OptionView::Text(s@),
        value matches OptionValue::Other(s) ==> value@ == OptionView::Other(s@),
        crate::options::option_of(Some(value)) == Some(value@),
        crate::options::option_of(None) is None,
{
}

/// The view of a text or a message that may be missing tells whether it is missing.
pub proof fn law_views_of_what_may_be_missing(text: String, emission: Emission)
    ensures
        crate::logger::text_of(Some(text)) == Some(text@),
        crate::logger::text_of(None) is None,
        crate::logger::emission_of(Some(emission)) == Some(emission@),
        crate::logger::emission_of(None) is None,
{
}

/// The view of an outcome tells whether it is a success, what came of it, and what the error is.
pub proof fn law_views_of_outcomes<T>(
    value: T,
    text: String,
    reason: String,
    emission: Emission,
    e: LoggerError,
)
    ensures
        crate::sink::io_view(Ok::<T, String>(value)) == Ok::<T, Seq<char>>(value),
        crate::sink::io_view(Err::<T, String>(reason)) == Err::<T, Seq<char>>(reason@),
        crate::sink::outcome_view(Ok::<T, LoggerError>(value)) == Ok::<T, ErrorView>(value),
        crate::sink::outcome_view(Err::<T, LoggerError>(e)) == Err::<T, ErrorView>(e@),
        crate::logger::sent(Ok(emission)) == Ok::<_, ErrorView>(emission@),
        crate::logger::sent(Err(e)) == Err::<crate::sink::EmissionView, _>(e@),
        crate::logger::serialized_view(Ok(text)) == Ok::<_, Seq<char>>(text@),
        crate::logger::serialized_view(Err(reason)) == Err::<Seq<char>, _>(reason@),
{
}

} // verus!
