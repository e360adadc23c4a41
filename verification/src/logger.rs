//! The logger.
//!
//! A logger decides: whether a message is logged, what its line says and where it goes, and how
//! initialization proceeds. What reaches the outside world (opening pipes, writing lines,
//! serializing the metrics) is done by the caller, who hands the outcome back.

use vstd::prelude::*;
use crate::error::LoggerError;
use crate::level::{level_name, Level};
use crate::model::{LoggerView, Outcome};
use crate::options::{flags_of, OptionValue};
use crate::record::{AppInfo, Record};
use crate::sink::{Destination, Emission, EmissionView};
use crate::system::{inc, InitState, LogSystem};
use crate::text::decimal_text;
use crate::time::LocalTime;

verus! {

/// The logging subsystem as one user sees it.
#[derive(Debug)]
pub struct Logger {
    show_level: bool,
    show_file_path: bool,
    show_line_numbers: bool,
    level: Level,
    // The path of the pipe that log lines go to, once it is open.
    log_buf: Option<String>,
    // The path of the pipe that metrics go to, once it is open.
    metrics_buf: Option<String>,
    instance_id: String,
    flags: usize,
}

/// The view of a text that may be missing.
pub open spec fn text_of(text: Option<String>) -> Option<Seq<char>> {
    match text {
        Some(s) => Some(s@),
        None => None,
    }
}

/// The view of a message that may be missing.
pub open spec fn emission_of(emission: Option<Emission>) -> Option<EmissionView> {
    match emission {
        Some(e) => Some(e@),
        None => None,
    }
}

/// The view of a message, or of the error that took its place.
pub open spec fn sent(res: Result<Emission, LoggerError>) -> Result<
    EmissionView,
    crate::error::ErrorView,
> {
    match res {
        Ok(e) => Ok(e@),
        Err(e) => Err(e@),
    }
}

/// The view of a text, or of the text of the error that took its place.
pub open spec fn serialized_view(serialized: Result<String, String>) -> Result<
    Seq<char>,
    Seq<char>,
> {
    match serialized {
        Ok(s) => Ok(s@),
        Err(e) => Err(e@),
    }
}

impl View for Logger {
    type V = LoggerView;

    closed spec fn view(&self) -> LoggerView {
        LoggerView {
            show_level: self.show_level,
            show_file_path: self.show_file_path,
            show_line_numbers: self.show_line_numbers,
            level: self.level,
            log_buf: text_of(self.log_buf),
            metrics_buf: text_of(self.metrics_buf),
            instance_id: self.instance_id@,
            flags: self.flags,
        }
    }
}

impl Logger {
    /// A logger with the default settings: it logs warnings and errors, with the full prefix, and
    /// has no pipe to write to.
    pub fn new() -> (logger: Logger)
        ensures
            logger@ == LoggerView::initial(),
    {
        Logger {
            show_level: true,
            show_file_path: true,
            show_line_numbers: true,
            level: Level::Warn,
            log_buf: None,
            metrics_buf: None,
            instance_id: String::new(),
            flags: 0,
        }
    }

    /// The configured flags: the bits of the options that are switched on.
    pub fn flags(&self) -> (flags: usize)
        ensures
            flags == self@.flags,
    {
        self.flags
    }

    /// Whether the level is part of the prefix of a log line.
    pub fn show_level(&self) -> (shown: bool)
        ensures
            shown == self@.show_level,
    {
        self.show_level
    }

    /// Whether the path of the source file is part of the prefix of a log line.
    pub fn show_file_path(&self) -> (shown: bool)
        ensures
            shown == self@.show_file_path,
    {
        self.show_file_path
    }

    /// Whether the number of the source line is part of the prefix of a log line.
    pub fn show_line_numbers(&self) -> (shown: bool)
        ensures
            shown == self@.show_line_numbers,
    {
        self.show_line_numbers
    }

    /// The number of the most verbose level that is logged.
    pub fn level(&self) -> (number: usize)
        ensures
            number == self@.level.number(),
    {
        self.level.as_usize()
    }

    /// The path of the pipe that log lines go to, once it is open.
    pub fn log_dest(&self) -> (path: &Option<String>)
        ensures
            text_of(*path) == self@.log_buf,
    {
        &self.log_buf
    }

    /// The path of the pipe that metrics go to, once it is open.
    pub fn metrics_dest(&self) -> (path: &Option<String>)
        ensures
            text_of(*path) == self@.metrics_buf,
    {
        &self.metrics_buf
    }

    /// Switches on the options that `options` name, and all others off. If an entry names no
    /// option, nothing changes, and the error names the first such entry.
    fn set_flags(&mut self, options: &[OptionValue]) -> (res: Result<(), LoggerError>)
        ensures
            (final(self)@, crate::sink::outcome_view(res)) == old(self)@.flags_set(
                crate::options::option_views(options@),
            ),
    {
        match flags_of(options) {
            Ok(flags) => {
                self.flags = flags;
                Ok(())
            },
            Err(e) => Err(e),
        }
    }

    /// Enables or disables including the level in the prefix of a log line.
    pub fn set_include_level(&mut self, option: bool)
        ensures
            final(self)@ == old(self)@.including_level(option),
    {
        self.show_level = option;
    }

    /// Enables or disables including the path of the source file and the line number in the
    /// prefix of a log line. Not including the path also hides the line number.
    pub fn set_include_origin(&mut self, file_path: bool, line_numbers: bool)
        ensures
            final(self)@ == old(self)@.including_origin(file_path, line_numbers),
    {
        self.show_file_path = file_path;
        // If the file path is not shown, do not show line numbers either.
        self.show_line_numbers = file_path && line_numbers;
    }

    /// Sets the most verbose level that is logged.
    pub fn set_level(&mut self, level: Level)
        ensures
            final(self)@ == old(self)@.at_level(level),
    {
        self.level = level;
    }

    /// The part of the log line for `record` that stands between the time and the message.
    pub fn create_prefix(&self, record: &Record) -> (prefix: String)
        ensures
            prefix@ == self@.prefix(record@),
    {
        let mut res: String = " [".to_owned();
        res.append(self.instance_id.as_str());
        let ghost id_done = res@;

        if self.show_level {
            res.append(":");
            res.append(level_name(record.level).as_str());
        }
        let ghost level_part = if self@.show_level {
            crate::model::part(record@.level.name())
        } else {
            Seq::empty()
        };
        assert(res@ =~= id_done + level_part);
        let ghost level_done = res@;

        if self.show_file_path {
            res.append(":");
            match &record.file {
                Some(path) => res.append(path.as_str()),
                None => res.append("unknown"),
            }
        }
        let ghost path_part = if self@.show_file_path {
            crate::model::part(
                match record@.file {
                    Some(path) => path,
                    None => "unknown"@,
                },
            )
        } else {
            Seq::empty()
        };
        assert(res@ =~= level_done + path_part);
        let ghost path_done = res@;

        if self.show_line_numbers {
            if let Some(ln) = record.line {
                res.append(":");
                res.append(decimal_text(ln).as_str());
            }
        }
        let ghost line_part = match record@.line {
            Some(line) if self@.show_line_numbers => crate::model::part(
                crate::text::decimal(line as nat),
            ),
            _ => Seq::empty(),
        };
        assert(res@ =~= path_done + line_part);

        res.append("]");
        res
    }

    /// Tries to claim the logging subsystem for the work that `locked_state` stands for.
    /// This succeeds only if the subsystem is uninitialized.
    fn try_lock(&self, system: &mut LogSystem, locked_state: InitState) -> (res: Result<
        (),
        LoggerError,
    >)
        ensures
            match res {
                Ok(()) => {
                    &&& old(system).state == InitState::Uninitialized
                    &&& *final(system) == old(system).at(locked_state)
                },
                Err(e) => {
                    &&& old(system).state != InitState::Uninitialized
                    &&& e@ == old(system).state.refusal()
                    &&& *final(system) == old(system).refused()
                },
            },
    {
        match system.state {
            InitState::Uninitialized => {
                system.state = locked_state;
                Ok(())
            },
            InitState::Preinitializing => {
                system.metrics.log_fails = inc(system.metrics.log_fails);
                Err(LoggerError::IsPreinitializing)
            },
            InitState::Initializing => {
                system.metrics.log_fails = inc(system.metrics.log_fails);
                Err(LoggerError::IsInitializing)
            },
            InitState::Initialized => {
                system.metrics.log_fails = inc(system.metrics.log_fails);
                Err(LoggerError::AlreadyInitialized)
            },
        }
    }

    /// Preconfigures the logger prior to initialization: messages can then be logged to the
    /// standard output and the standard error. This can be done any number of times before the
    /// initialization, and is refused afterwards.
    ///
    /// The `instance_id` is temporary: initialization overwrites it.
    pub fn preinit(&mut self, system: &mut LogSystem, instance_id: Option<String>) -> (res: Result<
        (),
        LoggerError,
    >)
        ensures
            (Outcome {
                logger: final(self)@,
                system: *final(system),
                result: crate::sink::outcome_view(res),
            }) == old(self)@.preinit(*old(system), text_of(instance_id)),
    {
        match self.try_lock(system, InitState::Preinitializing) {
            Ok(()) => {},
            Err(e) => return Err(e),
        }

        if let Some(some_instance_id) = instance_id {
            self.instance_id = some_instance_id;
        }
        system.hand_on_everything();
        system.state = InitState::Uninitialized;
        Ok(())
    }

    /// Starts initialization. After a success the caller is to open the pipe for log lines, and
    /// to go on with [`Logger::log_pipe_opened`].
    pub fn start_init(&mut self, system: &mut LogSystem, instance_id: &str) -> (res: Result<
        (),
        LoggerError,
    >)
        ensures
            (Outcome {
                logger: final(self)@,
                system: *final(system),
                result: crate::sink::outcome_view(res),
            }) == old(self)@.init_started(*old(system), instance_id@),
    {
        match self.try_lock(system, InitState::Initializing) {
            Ok(()) => {},
            Err(e) => return Err(e),
        }
        self.instance_id = instance_id.to_owned();
        Ok(())
    }

    /// Goes on with initialization after the attempt to open the pipe for log lines at
    /// `log_dest`. After a success the caller is to open the pipe for metrics, and to go on with
    /// [`Logger::metrics_pipe_opened`].
    pub fn log_pipe_opened(
        &mut self,
        system: &mut LogSystem,
        log_dest: String,
        opened: Result<(), String>,
    ) -> (res: Result<(), LoggerError>)
        requires
            old(system).state == InitState::Initializing,
        ensures
            (Outcome {
                logger: final(self)@,
                system: *final(system),
                result: crate::sink::outcome_view(res),
            }) == old(self)@.log_pipe_opened(
                *old(system),
                log_dest@,
                crate::sink::io_view(opened),
            ),
    {
        match opened {
            Ok(()) => {
                self.log_buf = Some(log_dest);
                Ok(())
            },
            Err(e) => {
                system.state = InitState::Uninitialized;
                Err(
                    LoggerError::NeverInitialized(
                        "Could not open logging fifo: ".to_owned().concat(e.as_str()),
                    ),
                )
            },
        }
    }

    /// Finishes initialization after the attempt to open the pipe for metrics at `metrics_dest`.
    /// After a success the caller is to write the message that comes back.
    pub fn metrics_pipe_opened(
        &mut self,
        system: &mut LogSystem,
        app_info: &AppInfo,
        metrics_dest: String,
        opened: Result<(), String>,
        options: &[OptionValue],
    ) -> (res: Result<Emission, LoggerError>)
        requires
            old(system).state == InitState::Initializing,
            opened is Ok && crate::options::all_valid(crate::options::option_views(options@))
                ==> old(self)@.log_buf is Some,
        ensures
            (Outcome { logger: final(self)@, system: *final(system), result: sent(res) }) == old(
                self,
            )@.metrics_pipe_opened(
                *old(system),
                app_info@,
                metrics_dest@,
                crate::sink::io_view(opened),
                crate::options::option_views(options@),
            ),
    {
        match opened {
            Ok(()) => {
                self.metrics_buf = Some(metrics_dest);
            },
            Err(e) => {
                system.state = InitState::Uninitialized;
                return Err(
                    LoggerError::NeverInitialized(
                        "Could not open metrics fifo: ".to_owned().concat(e.as_str()),
                    ),
                );
            },
        }
        match self.set_flags(options) {
            Ok(()) => {},
            Err(e) => {
                system.state = InitState::Uninitialized;
                return Err(
                    LoggerError::NeverInitialized(
                        "Could not set option flags: ".to_owned().concat(e.message().as_str()),
                    ),
                );
            },
        }
        system.hand_on_everything();
        system.state = InitState::Initialized;
        Ok(self.log_helper(system, app_info.announcement(), Level::Info))
    }

    /// Initializes the logging subsystem (once and only once), for outcomes of the attempts to
    /// open the two pipes that are known beforehand. On success the message comes back that is to
    /// be written first.
    pub fn init(
        &mut self,
        system: &mut LogSystem,
        app_info: &AppInfo,
        instance_id: &str,
        log_dest: String,
        metrics_dest: String,
        options: &[OptionValue],
        log_opened: Result<(), String>,
        metrics_opened: Result<(), String>,
    ) -> (res: Result<Emission, LoggerError>)
        ensures
            (Outcome { logger: final(self)@, system: *final(system), result: sent(res) }) == old(
                self,
            )@.init(
                *old(system),
                app_info@,
                instance_id@,
                log_dest@,
                metrics_dest@,
                crate::options::option_views(options@),
                crate::sink::io_view(log_opened),
                crate::sink::io_view(metrics_opened),
            ),
    {
        match self.start_init(system, instance_id) {
            Ok(()) => {},
            Err(e) => return Err(e),
        }
        match self.log_pipe_opened(system, log_dest, log_opened) {
            Ok(()) => {},
            Err(e) => return Err(e),
        }
        self.metrics_pipe_opened(system, app_info, metrics_dest, metrics_opened, options)
    }

    /// Where the message `msg` of level `msg_level` goes.
    pub fn log_helper(&self, system: &LogSystem, msg: String, msg_level: Level) -> (emission:
        Emission)
        requires
            self@.can_log(*system),
        ensures
            emission@ == (EmissionView {
                destination: self@.destination(*system, msg_level),
                text: msg@,
            }),
    {
        let destination: Destination = if system.state == InitState::Initialized {
            Destination::LogPipe(self.log_buf.as_ref().unwrap().clone())
        } else if msg_level.as_usize() <= Level::Warn.as_usize() {
            Destination::Stderr
        } else {
            Destination::Stdout
        };
        Emission { destination, text: msg }
    }

    /// Takes note of how a log line was delivered: a line that could not be written is counted.
    pub fn log_delivered(&self, system: &mut LogSystem, outcome: &Result<(), LoggerError>)
        ensures
            *final(system) == (if outcome is Ok {
                *old(system)
            } else {
                LogSystem { metrics: old(system).metrics.after_missed_log(), ..*old(system) }
            }),
    {
        if outcome.is_err() {
            system.metrics.missed_log_count = inc(system.metrics.missed_log_count);
        }
    }

    /// Whether there are metrics to flush: only once the subsystem is initialized.
    pub fn metrics_due(&self, system: &LogSystem) -> (due: bool)
        ensures
            due == (system.state == InitState::Initialized),
    {
        system.state == InitState::Initialized
    }

    /// Where the metrics go, once the subsystem is initialized and the metrics are serialized, or
    /// the error if that failed.
    pub fn metrics_message(&self, system: &mut LogSystem, serialized: Result<String, String>) -> (
    res: Result<Emission, LoggerError>)
        requires
            serialized is Ok ==> self@.metrics_buf is Some,
        ensures
            match serialized {
                Ok(text) => {
                    &&& res is Ok
                    &&& res->Ok_0@ == (EmissionView {
                        destination: crate::sink::DestinationView::MetricsPipe(
                            self@.metrics_buf->0,
                        ),
                        text: text@,
                    })
                    &&& *final(system) == *old(system)
                },
                Err(e) => {
                    &&& res is Err
                    &&& res->Err_0@ == crate::error::ErrorView::LogMetricFailure(e@)
                    &&& *final(system) == (LogSystem {
                        metrics: old(system).metrics.after_failed_metrics(),
                        ..*old(system)
                    })
                },
            },
    {
        match serialized {
            Ok(text) => {
                let path: String = self.metrics_buf.as_ref().unwrap().clone();
                Ok(Emission { destination: Destination::MetricsPipe(path), text })
            },
            Err(e) => {
                system.metrics.metrics_fails = inc(system.metrics.metrics_fails);
                Err(LoggerError::LogMetricFailure(e))
            },
        }
    }

    /// Takes note of how the metrics were delivered: metrics that could not be written are
    /// counted. The result tells that they went out, or why not.
    pub fn metrics_delivered(&self, system: &mut LogSystem, written: Result<(), LoggerError>) -> (
    res: Result<bool, LoggerError>)
        ensures
            match written {
                Ok(()) => res == Ok::<bool, LoggerError>(true) && *final(system) == *old(system),
                Err(e) => {
                    &&& res == Err::<bool, LoggerError>(e)
                    &&& *final(system) == (LogSystem {
                        metrics: old(system).metrics.after_missed_metrics(),
                        ..*old(system)
                    })
                },
            },
    {
        match written {
            Ok(()) => Ok(true),
            Err(e) => {
                system.metrics.missed_metrics_count = inc(system.metrics.missed_metrics_count);
                Err(e)
            },
        }
    }

    /// Flushes metrics to the pipe for metrics, for outcomes of their serialization and delivery
    /// that are known beforehand: the message that goes out, if any, and whether the metrics were
    /// flushed. If the subsystem is not initialized nothing happens.
    pub fn log_metrics(
        &self,
        system: &mut LogSystem,
        serialized: Result<String, String>,
        written: Result<(), LoggerError>,
    ) -> (res: (Option<Emission>, Result<bool, LoggerError>))
        requires
            old(system).state == InitState::Initialized && serialized is Ok
                ==> self@.metrics_buf is Some,
        ensures
            emission_of(res.0) == self@.metrics_sent(*old(system), serialized_view(serialized)),
            (Outcome {
                logger: self@,
                system: *final(system),
                result: crate::sink::outcome_view(res.1),
            }) == self@.metrics_logged(
                *old(system),
                serialized_view(serialized),
                crate::sink::outcome_view(written),
            ),
    {
        if !self.metrics_due(system) {
            return (None, Ok(false));
        }
        match self.metrics_message(system, serialized) {
            Ok(emission) => (Some(emission), self.metrics_delivered(system, written)),
            Err(e) => (None, Err(e)),
        }
    }

    /// Whether messages of `level` are logged. If the configured level is `Warn`, a message of
    /// level `Info` is not.
    pub fn enabled(&self, level: Level) -> (enabled: bool)
        ensures
            enabled == self@.enables(level),
    {
        level.as_usize() <= self.level.as_usize()
    }

    /// What becomes of `record` at the time `now`: the message that goes out, unless the level of
    /// `record` is disabled.
    pub fn log(&self, system: &LogSystem, now: &LocalTime, record: &Record) -> (emission: Option<
        Emission,
    >)
        requires
            self@.enables(record.level) ==> self@.can_log(*system),
        ensures
            emission_of(emission) == self@.logged(*system, *now, record@),
    {
        if self.enabled(record.level) {
            let mut msg: String = now.stamp_text();
            msg.append(self.create_prefix(record).as_str());
            msg.append(" ");
            msg.append(record.args.as_str());
            Some(self.log_helper(system, msg, record.level))
        } else {
            None
        }
    }

    /// There is nothing to flush: every line is flushed when it is written.
    pub fn flush(&self) {
    }
}

} // verus!
