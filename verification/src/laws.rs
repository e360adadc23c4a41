//! What holds of the logging subsystem as a whole.

pub mod lines;
pub mod options;
pub mod settings;
pub mod text;
pub mod views;

use vstd::prelude::*;
use crate::error::ErrorView;
use crate::level::{Level, MaxLevel};
use crate::model::{LoggerView, Outcome};
use crate::options::OptionView;
use crate::record::AppInfoView;
use crate::sink::{DestinationView, EmissionView};
use crate::system::{InitState, LogSystem};

verus! {

/// A call that changes a logger or what all loggers share.
pub enum Call {
    IncludeLevel(bool),
    IncludeOrigin(bool, bool),
    SetLevel(Level),
    Preinit(Option<Seq<char>>),
    StartInit(Seq<char>),
    LogPipeOpened(Seq<char>, Result<(), Seq<char>>),
    MetricsPipeOpened(AppInfoView, Seq<char>, Result<(), Seq<char>>, Seq<OptionView>),
    LogDelivered(bool),
    LogMetrics(Result<Seq<char>, Seq<char>>, Result<(), ErrorView>),
}

/// A logger and what all loggers share.
pub struct Snapshot {
    pub logger: LoggerView,
    pub system: LogSystem,
}

/// An attempt to initialize the subsystem: what was asked for, and whether the two pipes could be
/// opened.
pub struct Attempt {
    pub app_info: AppInfoView,
    pub instance_id: Seq<char>,
    pub log_dest: Seq<char>,
    pub metrics_dest: Seq<char>,
    pub options: Seq<OptionView>,
    pub log_opened: Result<(), Seq<char>>,
    pub metrics_opened: Result<(), Seq<char>>,
}

impl Attempt {
    /// What becomes of this attempt.
    pub open spec fn on(self, logger: LoggerView, system: LogSystem) -> Outcome<EmissionView> {
        logger.init(
            system,
            self.app_info,
            self.instance_id,
            self.log_dest,
            self.metrics_dest,
            self.options,
            self.log_opened,
            self.metrics_opened,
        )
    }

    /// Whether nothing stands in the way of this attempt but other callers.
    pub open spec fn is_sound(self) -> bool {
        &&& self.log_opened is Ok
        &&& self.metrics_opened is Ok
        &&& crate::options::all_valid(self.options)
    }
}

impl<T> Outcome<T> {
    /// What an operation leaves behind, without its result.
    pub open spec fn snapshot(self) -> Snapshot {
        Snapshot { logger: self.logger, system: self.system }
    }
}

impl Snapshot {
    /// Where everything starts: a new logger in a process that has just started.
    pub open spec fn is_fresh(self) -> bool {
        &&& self.logger == LoggerView::initial()
        &&& self.system.state == InitState::Uninitialized
    }

    /// Whether `call` may come now. The two later steps of initialization come only while
    /// initialization is under way, and the last one can succeed only after the pipe for log lines
    /// was opened.
    pub open spec fn permits(self, call: Call) -> bool {
        match call {
            Call::LogPipeOpened(_, _) => self.system.state == InitState::Initializing,
            Call::MetricsPipeOpened(_, _, opened, options) => {
                &&& self.system.state == InitState::Initializing
                &&& opened is Ok && crate::options::all_valid(options) ==> self.logger.log_buf is Some
            },
            Call::LogMetrics(serialized, _) => {
                self.system.state == InitState::Initialized && serialized is Ok
                    ==> self.logger.metrics_buf is Some
            },
            _ => true,
        }
    }

    /// What `call` leaves behind.
    pub open spec fn after(self, call: Call) -> Snapshot {
        match call {
            Call::IncludeLevel(option) => Snapshot {
                logger: self.logger.including_level(option),
                ..self
            },
            Call::IncludeOrigin(file_path, line_numbers) => Snapshot {
                logger: self.logger.including_origin(file_path, line_numbers),
                ..self
            },
            Call::SetLevel(level) => Snapshot { logger: self.logger.at_level(level), ..self },
            Call::Preinit(id) => self.logger.preinit(self.system, id).snapshot(),
            Call::StartInit(id) => self.logger.init_started(self.system, id).snapshot(),
            Call::LogPipeOpened(path, opened) => {
                self.logger.log_pipe_opened(self.system, path, opened).snapshot()
            },
            Call::MetricsPipeOpened(app_info, path, opened, options) => {
                self.logger.metrics_pipe_opened(
                    self.system,
                    app_info,
                    path,
                    opened,
                    options,
                ).snapshot()
            },
            Call::LogDelivered(delivered) => if delivered {
                self
            } else {
                Snapshot {
                    system: LogSystem {
                        metrics: self.system.metrics.after_missed_log(),
                        ..self.system
                    },
                    ..self
                }
            },
            Call::LogMetrics(serialized, written) => {
                self.logger.metrics_logged(self.system, serialized, written).snapshot()
            },
        }
    }

    /// What a sequence of calls leaves behind.
    pub open spec fn after_all(self, calls: Seq<Call>) -> Snapshot
        decreases calls.len(),
    {
        if calls.len() == 0 {
            self
        } else {
            self.after_all(calls.drop_last()).after(calls.last())
        }
    }

    /// Whether each of a sequence of calls may come when its turn is.
    pub open spec fn permits_all(self, calls: Seq<Call>) -> bool
        decreases calls.len(),
    {
        calls.len() == 0 || {
            &&& self.permits_all(calls.drop_last())
            &&& self.after_all(calls.drop_last()).permits(calls.last())
        }
    }
}

/// A logger after a sequence of calls on it. Other loggers may be at work meanwhile: each call
/// finds what all loggers share as it is given with the call.
pub open spec fn logger_after(logger: LoggerView, calls: Seq<(LogSystem, Call)>) -> LoggerView
    decreases calls.len(),
{
    if calls.len() == 0 {
        logger
    } else {
        let (system, call) = calls.last();
        (Snapshot { logger: logger_after(logger, calls.drop_last()), system }).after(call).logger
    }
}

/// What all loggers share after a sequence of calls, each on the logger that is given with it.
pub open spec fn system_after(system: LogSystem, calls: Seq<(LoggerView, Call)>) -> LogSystem
    decreases calls.len(),
{
    if calls.len() == 0 {
        system
    } else {
        let (logger, call) = calls.last();
        (Snapshot { logger, system: system_after(system, calls.drop_last()) }).after(call).system
    }
}

/// Whether each of a sequence of calls, on the logger that is given with it, may come when its
/// turn is.
pub open spec fn system_permits_all(system: LogSystem, calls: Seq<(LoggerView, Call)>) -> bool
    decreases calls.len(),
{
    calls.len() == 0 || {
        let (logger, call) = calls.last();
        &&& system_permits_all(system, calls.drop_last())
        &&& (Snapshot { logger, system: system_after(system, calls.drop_last()) }).permits(call)
    }
}

/// Whatever calls are made on a new logger, and whatever other loggers do, line numbers are shown
/// only together with the path of the file, and no unknown bit is set in the flags.
pub proof fn law_settings_stay_valid(calls: Seq<(LogSystem, Call)>)
    ensures
        logger_after(LoggerView::initial(), calls).is_valid(),
    decreases calls.len(),
{
    if calls.len() > 0 {
        law_settings_stay_valid(calls.drop_last());
    }
}

/// Whatever calls are made on a new logger that is the only one of its process, once the subsystem
/// is initialized there are pipes for log lines and for metrics.
pub proof fn law_initialized_logger_has_pipes(start: Snapshot, calls: Seq<Call>)
    requires
        start.is_fresh(),
        start.permits_all(calls),
    ensures
        start.after_all(calls).logger.can_log(start.after_all(calls).system),
        start.after_all(calls).system.state == InitState::Initialized ==> start.after_all(
            calls,
        ).logger.metrics_buf is Some,
    decreases calls.len(),
{
    if calls.len() > 0 {
        law_initialized_logger_has_pipes(start, calls.drop_last());
    }
}

/// The subsystem is initialized only once: after that it stays initialized, whatever any loggers
/// call.
pub proof fn law_initialized_for_good(system: LogSystem, calls: Seq<(LoggerView, Call)>)
    requires
        system.state == InitState::Initialized,
        system_permits_all(system, calls),
    ensures
        system_after(system, calls).state == InitState::Initialized,
    decreases calls.len(),
{
    if calls.len() > 0 {
        law_initialized_for_good(system, calls.drop_last());
    }
}

/// Once the subsystem is initialized, the pipes, the instance id and the flags of every logger
/// stay as they are, whatever is called on it.
pub proof fn law_initialized_logger_stays(logger: LoggerView, calls: Seq<(LogSystem, Call)>)
    requires
        forall|i: int|
            0 <= i < calls.len() ==> (#[trigger] calls[i]).0.state == InitState::Initialized && (
            Snapshot { logger: logger_after(logger, calls.take(i)), system: calls[i].0 }).permits(
                calls[i].1,
            ),
    ensures
        ({
            let after = logger_after(logger, calls);
            &&& after.log_buf == logger.log_buf
            &&& after.metrics_buf == logger.metrics_buf
            &&& after.instance_id == logger.instance_id
            &&& after.flags == logger.flags
        }),
    decreases calls.len(),
{
    if calls.len() > 0 {
        let before = calls.drop_last();
        assert forall|i: int| 0 <= i < before.len() implies (#[trigger] before[i]).0.state
            == InitState::Initialized && (Snapshot {
            logger: logger_after(logger, before.take(i)),
            system: before[i].0,
        }).permits(before[i].1) by {
            assert(calls[i] == before[i]);
            assert(calls.take(i) =~= before.take(i));
        }
        law_initialized_logger_stays(logger, before);
        assert(calls.last() == calls[calls.len() - 1]);
    }
}

/// While somebody is at work on the subsystem, or once it is initialized, every attempt to
/// initialize or preinitialize is refused with the error for that state, and changes nothing but
/// the count of such failures.
pub proof fn law_refused_attempts_change_nothing(
    logger: LoggerView,
    system: LogSystem,
    attempt: Attempt,
    id: Option<Seq<char>>,
)
    requires
        system.state != InitState::Uninitialized,
    ensures
        attempt.on(logger, system).result == Err::<EmissionView, _>(system.state.refusal()),
        attempt.on(logger, system).logger == logger,
        attempt.on(logger, system).system == system.refused(),
        logger.preinit(system, id).result == Err::<(), _>(system.state.refusal()),
        logger.preinit(system, id).logger == logger,
        logger.preinit(system, id).system == system.refused(),
        system.refused().state == system.state,
        system.refused().max_level == system.max_level,
{
}

/// After an initialization that succeeded, every further attempt, by this logger or another one,
/// to initialize or preinitialize fails with an explicit error and leaves that logger as it is.
pub proof fn law_second_initialization_is_refused(
    logger: LoggerView,
    system: LogSystem,
    first: Attempt,
    other: LoggerView,
    second: Attempt,
    id: Option<Seq<char>>,
)
    requires
        first.on(logger, system).result is Ok,
    ensures
        ({
            let done = first.on(logger, system);
            let again = second.on(other, done.system);
            let preinit = other.preinit(done.system, id);
            &&& again.result == Err::<EmissionView, _>(ErrorView::AlreadyInitialized)
            &&& again.logger == other
            &&& again.system.state == InitState::Initialized
            &&& preinit.result == Err::<(), _>(ErrorView::AlreadyInitialized)
            &&& preinit.logger == other
            &&& preinit.system.state == InitState::Initialized
        }),
{
}

/// The subsystem after preinitialization with each of `ids` in turn.
pub open spec fn preinits(
    logger: LoggerView,
    system: LogSystem,
    ids: Seq<Option<Seq<char>>>,
) -> Snapshot
    decreases ids.len(),
{
    if ids.len() == 0 {
        Snapshot { logger, system }
    } else {
        let before = preinits(logger, system, ids.drop_last());
        before.logger.preinit(before.system, ids.last()).snapshot()
    }
}

/// Before initialization, preinitialization works any number of times.
pub proof fn law_preinit_works_any_number_of_times(
    logger: LoggerView,
    system: LogSystem,
    ids: Seq<Option<Seq<char>>>,
    next: Option<Seq<char>>,
)
    requires
        system.state == InitState::Uninitialized,
    ensures
        ({
            let before = preinits(logger, system, ids);
            let done = before.logger.preinit(before.system, next);
            &&& done.result is Ok
            &&& done.system.state == InitState::Uninitialized
            &&& done.system.max_level == MaxLevel::at(Level::Trace)
            &&& done.system.metrics == system.metrics
            &&& done.logger == logger.named(done.logger.instance_id)
            &&& next is Some ==> done.logger.instance_id == next->0
        }),
    decreases ids.len(),
{
    if ids.len() > 0 {
        law_preinit_works_any_number_of_times(logger, system, ids.drop_last(), ids.last());
    }
}

/// The three steps of initialization, taken one after the other until one fails, are
/// initialization as a whole.
pub proof fn law_init_is_its_steps(logger: LoggerView, system: LogSystem, attempt: Attempt)
    ensures
        ({
            let whole = attempt.on(logger, system);
            let first = logger.init_started(system, attempt.instance_id);
            let second = first.logger.log_pipe_opened(
                first.system,
                attempt.log_dest,
                attempt.log_opened,
            );
            let third = second.logger.metrics_pipe_opened(
                second.system,
                attempt.app_info,
                attempt.metrics_dest,
                attempt.metrics_opened,
                attempt.options,
            );
            if first.result is Err {
                &&& whole.snapshot() == first.snapshot()
                &&& whole.result == Err::<EmissionView, _>(first.result->Err_0)
            } else if second.result is Err {
                &&& whole.snapshot() == second.snapshot()
                &&& whole.result == Err::<EmissionView, _>(second.result->Err_0)
            } else {
                whole == third
            }
        }),
{
}

/// Initialization succeeds if and only if nobody was there before, both pipes could be opened and
/// every option is known; and only then is the subsystem initialized by it.
pub proof fn law_when_init_succeeds(logger: LoggerView, system: LogSystem, attempt: Attempt)
    ensures
        attempt.on(logger, system).result is Ok <==> system.state == InitState::Uninitialized
            && attempt.is_sound(),
        attempt.on(logger, system).result is Ok <==> system.state == InitState::Uninitialized
            && attempt.on(logger, system).system.state == InitState::Initialized,
{
}

/// After a preinitialization or an initialization that succeeded, the filter of the `log` crate
/// lets every record through; any other attempt leaves the filter alone.
pub proof fn law_success_lets_every_record_through(
    logger: LoggerView,
    system: LogSystem,
    attempt: Attempt,
    id: Option<Seq<char>>,
)
    ensures
        ({
            let init = attempt.on(logger, system);
            let preinit = logger.preinit(system, id);
            &&& init.system.max_level == if init.result is Ok {
                MaxLevel::at(Level::Trace)
            } else {
                system.max_level
            }
            &&& preinit.system.max_level == if preinit.result is Ok {
                MaxLevel::at(Level::Trace)
            } else {
                system.max_level
            }
        }),
{
}

/// What an initialization that succeeded leaves behind: the logger goes by the id of the attempt,
/// writes to the two pipes of the attempt, and has the flag of `LogDirtyPages` set if and only if
/// that option was requested, whatever it had before; every other setting is as before. The
/// announcement of the application goes to the pipe for log lines.
pub proof fn law_what_init_leaves_behind(logger: LoggerView, system: LogSystem, attempt: Attempt)
    requires
        attempt.on(logger, system).result is Ok,
    ensures
        ({
            let done = attempt.on(logger, system);
            let requested = exists|i: int|
                0 <= i < attempt.options.len() && #[trigger] attempt.options[i]
                    == OptionView::Text("LogDirtyPages"@);
            &&& done.logger == (LoggerView {
                instance_id: attempt.instance_id,
                log_buf: Some(attempt.log_dest),
                metrics_buf: Some(attempt.metrics_dest),
                flags: done.logger.flags,
                ..logger
            })
            &&& done.logger.flags == 1 <==> requested
            &&& done.logger.flags == 0 <==> !requested
            &&& done.system == (LogSystem {
                state: InitState::Initialized,
                max_level: MaxLevel::at(Level::Trace),
                ..system
            })
            &&& done.result->Ok_0.destination == DestinationView::LogPipe(attempt.log_dest)
            &&& done.result->Ok_0.text == "Running "@ + attempt.app_info.name + " v"@
                + attempt.app_info.version
        }),
{
    options::law_requested_flags(attempt.options);
}

/// What an initialization that was not refused but failed leaves behind: the error gives the first
/// thing that went wrong, the pipes that were opened before that are kept, the logger goes by the
/// id of the attempt, and nothing else has changed.
pub proof fn law_what_a_failed_init_leaves_behind(
    logger: LoggerView,
    system: LogSystem,
    attempt: Attempt,
    i: int,
)
    requires
        system.state == InitState::Uninitialized,
    ensures
        ({
            let done = attempt.on(logger, system);
            let known = OptionView::Text("LogDirtyPages"@);
            &&& attempt.log_opened matches Err(reason) ==> {
                &&& done.result == Err::<EmissionView, _>(
                    ErrorView::NeverInitialized("Could not open logging fifo: "@ + reason),
                )
                &&& done.logger == (LoggerView { instance_id: attempt.instance_id, ..logger })
                &&& done.system == system
            }
            &&& attempt.log_opened is Ok ==> (attempt.metrics_opened matches Err(reason) ==> {
                &&& done.result == Err::<EmissionView, _>(
                    ErrorView::NeverInitialized("Could not open metrics fifo: "@ + reason),
                )
                &&& done.logger == (LoggerView {
                    instance_id: attempt.instance_id,
                    log_buf: Some(attempt.log_dest),
                    ..logger
                })
                &&& done.system == system
            })
            &&& attempt.log_opened is Ok && attempt.metrics_opened is Ok && 0 <= i
                < attempt.options.len() && attempt.options[i] != known && (forall|k: int|
                0 <= k < i ==> #[trigger] attempt.options[k] == known) ==> {
                &&& done.result == Err::<EmissionView, _>(
                    ErrorView::NeverInitialized(
                        "Could not set option flags: "@ + ("Invalid log option: "@ + (
                        match attempt.options[i] {
                            OptionView::Text(text) => text,
                            OptionView::Other(text) => text,
                        })),
                    ),
                )
                &&& done.logger == (LoggerView {
                    instance_id: attempt.instance_id,
                    log_buf: Some(attempt.log_dest),
                    metrics_buf: Some(attempt.metrics_dest),
                    ..logger
                })
                &&& done.system == system
            }
        }),
{
    options::law_valid_lists(attempt.options);
    options::law_flags_are_set_as_asked(logger, attempt.options, i);
}

/// An initialization that failed can be tried again: what all loggers share and the flags are as
/// before, and an attempt that nothing stands in the way of succeeds.
pub proof fn law_failed_init_can_be_retried(
    logger: LoggerView,
    system: LogSystem,
    attempt: Attempt,
    next: Attempt,
)
    requires
        system.state == InitState::Uninitialized,
        attempt.on(logger, system).result is Err,
    ensures
        ({
            let failed = attempt.on(logger, system);
            &&& failed.result->Err_0 is NeverInitialized
            &&& failed.system == system
            &&& failed.logger.flags == logger.flags
            &&& next.on(failed.logger, failed.system).result is Ok <==> next.is_sound()
        }),
{
}

/// The instance id of preinitialization is temporary: after an initialization that was not
/// refused, the id is the one that initialization brought.
pub proof fn law_init_overwrites_the_instance_id(
    logger: LoggerView,
    system: LogSystem,
    preinit_id: Option<Seq<char>>,
    attempt: Attempt,
)
    requires
        system.state == InitState::Uninitialized,
    ensures
        ({
            let before = logger.preinit(system, preinit_id);
            attempt.on(before.logger, before.system).logger.instance_id == attempt.instance_id
        }),
{
}

} // verus!
