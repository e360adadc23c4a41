//! What each operation changes, and what it leaves alone.

use vstd::prelude::*;
use crate::error::ErrorView;
use crate::level::{Level, MaxLevel};
use crate::model::LoggerView;
use crate::options::OptionView;
use crate::record::{AppInfoView, RecordView};
use crate::sink::{DestinationView, EmissionView};
use crate::system::{InitState, LogSystem, LoggerMetrics};
use crate::time::LocalTime;

verus! {

/// A new logger shows everything, logs up to `Warn`, has no pipe, no instance id and no flags.
pub proof fn law_defaults()
    ensures
        LoggerView::initial().show_level,
        LoggerView::initial().show_file_path,
        LoggerView::initial().show_line_numbers,
        LoggerView::initial().level == Level::Warn,
        LoggerView::initial().log_buf is None,
        LoggerView::initial().metrics_buf is None,
        LoggerView::initial().instance_id.len() == 0,
        LoggerView::initial().flags == 0,
{
}

/// Each setter sets what it is called for and leaves every other setting alone. A line number is
/// shown if and only if both the path and the number were asked for.
pub proof fn law_setters_touch_only_their_setting(
    logger: LoggerView,
    option: bool,
    file_path: bool,
    line_numbers: bool,
    level: Level,
)
    ensures
        logger.including_level(option) == (LoggerView { show_level: option, ..logger }),
        logger.including_origin(file_path, line_numbers).show_file_path == file_path,
        logger.including_origin(file_path, line_numbers).show_line_numbers <==> file_path
            && line_numbers,
        (LoggerView {
            show_file_path: logger.show_file_path,
            show_line_numbers: logger.show_line_numbers,
            ..logger.including_origin(file_path, line_numbers)
        }) == logger,
        logger.at_level(level) == (LoggerView { level, ..logger }),
{
}

/// The numbers of the levels: the less severe a level, the larger its number.
pub proof fn law_numbers_of_levels(level: Level)
    ensures
        level == Level::Error ==> level.number() == 1,
        level == Level::Warn ==> level.number() == 2,
        level == Level::Info ==> level.number() == 3,
        level == Level::Debug ==> level.number() == 4,
        level == Level::Trace ==> level.number() == 5,
{
}

/// Two levels are the same filter only if they are the same level, and neither is the filter that
/// was never set.
pub proof fn law_filters_differ(a: Level, b: Level)
    ensures
        MaxLevel::at(a) == MaxLevel::at(b) ==> a == b,
        MaxLevel::at(a) != MaxLevel::unset(),
{
    crate::level::lemma_filters_differ(a, b);
}

/// After the level is set, a message is logged if and only if it is at least as severe as that
/// level; and what is logged at a level is logged at every more verbose level too.
pub proof fn law_levels_are_nested(logger: LoggerView, level: Level, verbose: Level, msg: Level)
    ensures
        logger.enables(msg) <==> msg.number() <= logger.level.number(),
        logger.at_level(level).enables(msg) <==> msg.number() <= level.number(),
        level.number() <= verbose.number() && logger.at_level(level).enables(msg)
            ==> logger.at_level(verbose).enables(msg),
        logger.at_level(level).enables(level),
        logger.at_level(Level::Trace).enables(msg),
        logger.at_level(level).enables(Level::Error),
{
}

/// A new logger logs errors and warnings, and nothing else.
pub proof fn law_default_level(msg: Level)
    ensures
        LoggerView::initial().enables(msg) <==> msg == Level::Error || msg == Level::Warn,
{
}

/// A counter counts one event at a time, and starts again at zero when it is full.
pub proof fn law_counting(count: usize)
    ensures
        count < usize::MAX ==> crate::system::counted(count) == count + 1,
        count == usize::MAX ==> crate::system::counted(count) == 0,
{
}

/// Each kind of failure has a counter of its own, and moves no other.
pub proof fn law_each_failure_has_its_counter(metrics: LoggerMetrics)
    ensures
        metrics.after_refusal() == (LoggerMetrics {
            log_fails: crate::system::counted(metrics.log_fails),
            ..metrics
        }),
        metrics.after_missed_log() == (LoggerMetrics {
            missed_log_count: crate::system::counted(metrics.missed_log_count),
            ..metrics
        }),
        metrics.after_missed_metrics() == (LoggerMetrics {
            missed_metrics_count: crate::system::counted(metrics.missed_metrics_count),
            ..metrics
        }),
        metrics.after_failed_metrics() == (LoggerMetrics {
            metrics_fails: crate::system::counted(metrics.metrics_fails),
            ..metrics
        }),
{
}

/// Each state in which an attempt is refused has an error of its own.
pub proof fn law_refusals()
    ensures
        InitState::Preinitializing.refusal() == ErrorView::IsPreinitializing,
        InitState::Initializing.refusal() == ErrorView::IsInitializing,
        InitState::Initialized.refusal() == ErrorView::AlreadyInitialized,
{
}

/// A refused attempt is counted as such, and nothing else that loggers share changes. A change of
/// state changes the state only.
pub proof fn law_changes_of_what_is_shared(system: LogSystem, state: InitState)
    ensures
        system.refused().state == system.state,
        system.refused().max_level == system.max_level,
        system.refused().metrics.log_fails == crate::system::counted(system.metrics.log_fails),
        system.refused().metrics.missed_log_count == system.metrics.missed_log_count,
        system.refused().metrics.missed_metrics_count == system.metrics.missed_metrics_count,
        system.refused().metrics.metrics_fails == system.metrics.metrics_fails,
        system.at(state) == (LogSystem { state, ..system }),
{
}

/// Preinitialization sets the instance id if it is given one and keeps it otherwise, lets every
/// record through, and changes nothing else.
pub proof fn law_preinit_changes_only_the_id(logger: LoggerView, system: LogSystem, id: Seq<char>)
    ensures
        logger.preinit(system, None).logger == logger,
        system.state == InitState::Uninitialized ==> {
            &&& logger.preinit(system, Some(id)).result is Ok
            &&& logger.preinit(system, Some(id)).logger == (LoggerView {
                instance_id: id,
                ..logger
            })
            &&& logger.preinit(system, Some(id)).system == (LogSystem {
                max_level: MaxLevel::at(Level::Trace),
                ..system
            })
            &&& logger.preinit(system, None).result is Ok
            &&& logger.preinit(system, None).system == logger.preinit(system, Some(id)).system
        },
        system.state != InitState::Uninitialized ==> {
            &&& logger.preinit(system, Some(id)).result is Err
            &&& logger.preinit(system, Some(id)).logger == logger
            &&& logger.preinit(system, None).result is Err
        },
{
}

/// The start of initialization claims the subsystem and sets the instance id, or is refused; no
/// other setting changes.
pub proof fn law_start_of_init(logger: LoggerView, system: LogSystem, id: Seq<char>)
    ensures
        system.state == InitState::Uninitialized ==> {
            &&& logger.init_started(system, id).result is Ok
            &&& logger.init_started(system, id).logger == (LoggerView {
                instance_id: id,
                ..logger
            })
            &&& logger.init_started(system, id).system == (LogSystem {
                state: InitState::Initializing,
                ..system
            })
        },
        system.state != InitState::Uninitialized ==> {
            &&& logger.init_started(system, id).result == Err::<(), _>(system.state.refusal())
            &&& logger.init_started(system, id).logger == logger
            &&& logger.init_started(system, id).system == system.refused()
        },
{
}

/// A pipe for log lines that opened is kept; one that did not ends initialization with an error
/// that gives the reason. No other setting changes.
pub proof fn law_log_pipe_step(
    logger: LoggerView,
    system: LogSystem,
    log_dest: Seq<char>,
    reason: Seq<char>,
)
    ensures
        ({
            let done = logger.log_pipe_opened(system, log_dest, Ok(()));
            &&& done.result is Ok
            &&& done.logger == (LoggerView { log_buf: Some(log_dest), ..logger })
            &&& done.system == system
        }),
        ({
            let done = logger.log_pipe_opened(system, log_dest, Err(reason));
            &&& done.result == Err::<(), _>(
                ErrorView::NeverInitialized("Could not open logging fifo: "@ + reason),
            )
            &&& done.logger == logger
            &&& done.system == (LogSystem { state: InitState::Uninitialized, ..system })
        }),
{
}

/// A pipe for metrics that did not open ends initialization with an error that gives the reason,
/// and no setting changes.
pub proof fn law_metrics_pipe_that_did_not_open(
    logger: LoggerView,
    system: LogSystem,
    app_info: AppInfoView,
    metrics_dest: Seq<char>,
    reason: Seq<char>,
    options: Seq<OptionView>,
)
    ensures
        ({
            let done = logger.metrics_pipe_opened(
                system,
                app_info,
                metrics_dest,
                Err(reason),
                options,
            );
            &&& done.result == Err::<EmissionView, _>(
                ErrorView::NeverInitialized("Could not open metrics fifo: "@ + reason),
            )
            &&& done.logger == logger
            &&& done.system == (LogSystem { state: InitState::Uninitialized, ..system })
        }),
{
}

/// Once the pipe for metrics is open it is kept, and initialization ends: with the flag of
/// `LogDirtyPages` set if and only if that option is among the requested ones, every record let
/// through, and the announcement for the pipe for log lines; or, if some entry is no option, with
/// an error that shows the first such entry and the flags as before. Nothing else changes.
pub proof fn law_metrics_pipe_that_opened(
    logger: LoggerView,
    system: LogSystem,
    app_info: AppInfoView,
    metrics_dest: Seq<char>,
    options: Seq<OptionView>,
    i: int,
)
    ensures
        ({
            let done = logger.metrics_pipe_opened(system, app_info, metrics_dest, Ok(()), options);
            let known = OptionView::Text("LogDirtyPages"@);
            &&& done.logger == (LoggerView {
                metrics_buf: Some(metrics_dest),
                flags: done.logger.flags,
                ..logger
            })
            &&& done.result is Ok <==> (forall|k: int|
                0 <= k < options.len() ==> #[trigger] options[k] == known)
            &&& done.result is Ok ==> {
                &&& done.logger.flags == (if options.contains(known) {
                    1usize
                } else {
                    0usize
                })
                &&& done.system == (LogSystem {
                    state: InitState::Initialized,
                    max_level: MaxLevel::at(Level::Trace),
                    ..system
                })
                &&& done.result->Ok_0.text == "Running "@ + app_info.name + " v"@
                    + app_info.version
                &&& done.result->Ok_0.destination == DestinationView::LogPipe(logger.log_buf->0)
            }
            &&& done.result is Err ==> {
                &&& done.logger.flags == logger.flags
                &&& done.system == (LogSystem { state: InitState::Uninitialized, ..system })
            }
            &&& 0 <= i < options.len() && options[i] != known && (forall|k: int|
                0 <= k < i ==> #[trigger] options[k] == known) ==> done.result == Err::<
                EmissionView,
                _,
            >(
                ErrorView::NeverInitialized(
                    "Could not set option flags: "@ + ("Invalid log option: "@ + (
                    match options[i] {
                        OptionView::Text(text) => text,
                        OptionView::Other(text) => text,
                    })),
                ),
            )
        }),
{
    crate::laws::options::law_valid_lists(options);
    crate::laws::options::law_requested_flags(options);
    crate::laws::options::law_flags_are_set_as_asked(
        LoggerView { metrics_buf: Some(metrics_dest), ..logger },
        options,
        i,
    );
}

/// What becomes of a record: nothing if its level is disabled, and otherwise its line in full.
pub proof fn law_logged_line(
    logger: LoggerView,
    system: LogSystem,
    now: LocalTime,
    record: RecordView,
)
    ensures
        logger.logged(system, now, record) is Some <==> record.level.number()
            <= logger.level.number(),
        logger.logged(system, now, record) is Some ==> logger.logged(system, now, record)->0.text
            == now.stamp() + logger.prefix(record) + " "@ + record.args,
{
}

/// Until the subsystem is initialized, log lines go to the standard output or the standard error
/// and metrics go nowhere; from then on both go to their pipes, and to nothing else.
pub proof fn law_where_messages_go(
    logger: LoggerView,
    system: LogSystem,
    now: LocalTime,
    record: RecordView,
    level: Level,
    metrics: Seq<char>,
    reason: Seq<char>,
)
    ensures
        system.state == InitState::Initialized ==> logger.destination(system, level)
            == DestinationView::LogPipe(logger.log_buf->0),
        system.state != InitState::Initialized && (level == Level::Error || level == Level::Warn)
            ==> logger.destination(system, level) == DestinationView::Stderr,
        system.state != InitState::Initialized && level != Level::Error && level != Level::Warn
            ==> logger.destination(system, level) == DestinationView::Stdout,
        logger.enables(record.level) <==> logger.logged(system, now, record) is Some,
        logger.logged(system, now, record) matches Some(e) ==> e.destination
            == logger.destination(system, record.level),
        system.state == InitState::Initialized <==> logger.metrics_sent(
            system,
            Ok(metrics),
        ) is Some,
        logger.metrics_sent(system, Ok(metrics)) matches Some(e) ==> e.destination
            == DestinationView::MetricsPipe(logger.metrics_buf->0) && e.text == metrics,
        logger.metrics_sent(system, Err(reason)) is None,
{
}

/// A message can be logged if and only if there is a pipe for it or it needs none.
pub proof fn law_when_logging_needs_a_pipe(logger: LoggerView, system: LogSystem)
    ensures
        logger.can_log(system) <==> logger.log_buf is Some || system.state
            != InitState::Initialized,
{
}

/// Flushing the metrics answers `true` if and only if the subsystem is initialized and the
/// metrics were written, `false` if and only if it is not initialized, and otherwise with the
/// error; each error is counted by the counter for it, and nothing else changes.
pub proof fn law_answers_of_flushing_metrics(
    logger: LoggerView,
    system: LogSystem,
    serialized: Result<Seq<char>, Seq<char>>,
    written: Result<(), ErrorView>,
)
    ensures
        ({
            let done = logger.metrics_logged(system, serialized, written);
            &&& done.logger == logger
            &&& done.result == Ok::<bool, ErrorView>(true) <==> {
                &&& system.state == InitState::Initialized
                &&& serialized is Ok
                &&& written is Ok
            }
            &&& done.result == Ok::<bool, ErrorView>(false) <==> system.state
                != InitState::Initialized
            &&& done.result is Ok ==> done.system == system
            &&& system.state == InitState::Initialized && serialized is Err ==> {
                &&& done.result == Err::<bool, _>(ErrorView::LogMetricFailure(serialized->Err_0))
                &&& done.system == (LogSystem {
                    metrics: LoggerMetrics {
                        metrics_fails: crate::system::counted(system.metrics.metrics_fails),
                        ..system.metrics
                    },
                    ..system
                })
            }
            &&& system.state == InitState::Initialized && serialized is Ok && written is Err ==> {
                &&& done.result == Err::<bool, _>(written->Err_0)
                &&& done.system == (LogSystem {
                    metrics: LoggerMetrics {
                        missed_metrics_count: crate::system::counted(
                            system.metrics.missed_metrics_count,
                        ),
                        ..system.metrics
                    },
                    ..system
                })
            }
        }),
{
}

} // verus!
