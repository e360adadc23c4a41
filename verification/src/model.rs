//! The mathematical model of the logger: its settings, and what each operation makes of them.

use vstd::prelude::*;
use crate::error::ErrorView;
use crate::level::{Level, MaxLevel};
use crate::options::OptionView;
use crate::record::{AppInfoView, RecordView};
use crate::sink::{DestinationView, EmissionView};
use crate::system::{InitState, LogSystem};
use crate::time::LocalTime;

verus! {

/// The settings of a logger.
pub struct LoggerView {
    /// Whether the level is part of the prefix of a log line.
    pub show_level: bool,
    /// Whether the path of the source file is part of the prefix of a log line.
    pub show_file_path: bool,
    /// Whether the number of the source line is part of the prefix of a log line.
    pub show_line_numbers: bool,
    /// The most verbose level that is logged.
    pub level: Level,
    /// The path of the pipe for log lines, once one has been opened.
    pub log_buf: Option<Seq<char>>,
    /// The path of the pipe for metrics, once one has been opened.
    pub metrics_buf: Option<Seq<char>>,
    /// The name of this logging session.
    pub instance_id: Seq<char>,
    /// The bits of the options that are switched on.
    pub flags: usize,
}

/// What an operation leaves behind: the logger, what all loggers share, and its result.
pub struct Outcome<T> {
    pub logger: LoggerView,
    pub system: LogSystem,
    pub result: Result<T, ErrorView>,
}

/// One part of a prefix: a separator and the text of the part.
pub open spec fn part(text: Seq<char>) -> Seq<char> {
    ":"@ + text
}

impl LoggerView {
    /// The settings of a new logger.
    pub open spec fn initial() -> LoggerView {
        LoggerView {
            show_level: true,
            show_file_path: true,
            show_line_numbers: true,
            level: Level::Warn,
            log_buf: None,
            metrics_buf: None,
            instance_id: Seq::empty(),
            flags: 0,
        }
    }

    /// What holds of the settings of every logger: line numbers are shown only together with the
    /// path of the file that they belong to, and no bit is set in the flags but those of options.
    pub open spec fn is_valid(self) -> bool {
        &&& self.show_line_numbers ==> self.show_file_path
        &&& self.flags == 0 || self.flags == crate::options::LogOption::LogDirtyPages.bit()
    }

    /// These settings with the level shown or hidden.
    pub open spec fn including_level(self, option: bool) -> LoggerView {
        LoggerView { show_level: option, ..self }
    }

    /// These settings with the path and the line number shown or hidden. Without the path there
    /// is no line number.
    pub open spec fn including_origin(self, file_path: bool, line_numbers: bool) -> LoggerView {
        LoggerView {
            show_file_path: file_path,
            show_line_numbers: file_path && line_numbers,
            ..self
        }
    }

    /// These settings with `level` as the most verbose level.
    pub open spec fn at_level(self, level: Level) -> LoggerView {
        LoggerView { level, ..self }
    }

    /// These settings under another instance id.
    pub open spec fn named(self, instance_id: Seq<char>) -> LoggerView {
        LoggerView { instance_id, ..self }
    }

    /// These settings with a pipe for log lines.
    pub open spec fn with_log_pipe(self, path: Seq<char>) -> LoggerView {
        LoggerView { log_buf: Some(path), ..self }
    }

    /// These settings with a pipe for metrics.
    pub open spec fn with_metrics_pipe(self, path: Seq<char>) -> LoggerView {
        LoggerView { metrics_buf: Some(path), ..self }
    }

    /// These settings with other flags.
    pub open spec fn with_flags(self, flags: usize) -> LoggerView {
        LoggerView { flags, ..self }
    }

    /// Whether messages of `level` are logged.
    pub open spec fn enables(self, level: Level) -> bool {
        level.number() <= self.level.number()
    }

    /// The prefix of the log line for `record`.
    pub open spec fn prefix(self, record: RecordView) -> Seq<char> {
        let level = if self.show_level {
            part(record.level.name())
        } else {
            Seq::empty()
        };
        let path = if self.show_file_path {
            part(
                match record.file {
                    Some(path) => path,
                    None => "unknown"@,
                },
            )
        } else {
            Seq::empty()
        };
        let line = match record.line {
            Some(line) if self.show_line_numbers => part(crate::text::decimal(line as nat)),
            _ => Seq::empty(),
        };
        " ["@ + self.instance_id + level + path + line + "]"@
    }

    /// The log line for `record` at the time `now`.
    pub open spec fn log_line(self, now: LocalTime, record: RecordView) -> Seq<char> {
        now.stamp() + self.prefix(record) + " "@ + record.args
    }

    /// Where messages of `level` go: to the pipe once the subsystem is initialized; before that
    /// warnings and errors to the standard error, all others to the standard output.
    pub open spec fn destination(self, system: LogSystem, level: Level) -> DestinationView {
        if system.state == InitState::Initialized {
            DestinationView::LogPipe(self.log_buf->0)
        } else if level.number() <= Level::Warn.number() {
            DestinationView::Stderr
        } else {
            DestinationView::Stdout
        }
    }

    /// There is a pipe for log lines if messages go to one.
    pub open spec fn can_log(self, system: LogSystem) -> bool {
        system.state == InitState::Initialized ==> self.log_buf is Some
    }

    /// What becomes of `record` at the time `now`: a line, unless its level is disabled.
    pub open spec fn logged(
        self,
        system: LogSystem,
        now: LocalTime,
        record: RecordView,
    ) -> Option<EmissionView> {
        if self.enables(record.level) {
            Some(
                EmissionView {
                    destination: self.destination(system, record.level),
                    text: self.log_line(now, record),
                },
            )
        } else {
            None
        }
    }

    /// An attempt that found the subsystem in other hands.
    pub open spec fn refused<T>(self, system: LogSystem) -> Outcome<T> {
        Outcome { logger: self, system: system.refused(), result: Err(system.state.refusal()) }
    }

    /// An initialization that failed for `reason`.
    pub open spec fn init_failed<T>(self, system: LogSystem, reason: Seq<char>) -> Outcome<T> {
        Outcome {
            logger: self,
            system: system.at(InitState::Uninitialized),
            result: Err(ErrorView::NeverInitialized(reason)),
        }
    }

    /// Preinitialization.
    pub open spec fn preinit(
        self,
        system: LogSystem,
        instance_id: Option<Seq<char>>,
    ) -> Outcome<()> {
        if system.state != InitState::Uninitialized {
            self.refused(system)
        } else {
            Outcome {
                logger: match instance_id {
                    Some(id) => self.named(id),
                    None => self,
                },
                system: LogSystem { max_level: MaxLevel::at(Level::Trace), ..system },
                result: Ok(()),
            }
        }
    }

    /// The outcome of setting the flags that `options` ask for.
    pub open spec fn flags_set(self, options: Seq<OptionView>) -> (LoggerView, Result<(), ErrorView>) {
        if crate::options::all_valid(options) {
            (self.with_flags(crate::options::requested_flags(options)), Ok(()))
        } else {
            (
                self,
                Err(
                    ErrorView::InvalidLogOption(crate::options::first_invalid(options).shown()),
                ),
            )
        }
    }

    /// The start of initialization.
    pub open spec fn init_started(self, system: LogSystem, instance_id: Seq<char>) -> Outcome<()> {
        if system.state != InitState::Uninitialized {
            self.refused(system)
        } else {
            Outcome {
                logger: self.named(instance_id),
                system: system.at(InitState::Initializing),
                result: Ok(()),
            }
        }
    }

    /// Initialization after the attempt to open the pipe for log lines.
    pub open spec fn log_pipe_opened(
        self,
        system: LogSystem,
        log_dest: Seq<char>,
        opened: Result<(), Seq<char>>,
    ) -> Outcome<()> {
        match opened {
            Ok(_) => Outcome { logger: self.with_log_pipe(log_dest), system, result: Ok(()) },
            Err(e) => self.init_failed(system, "Could not open logging fifo: "@ + e),
        }
    }

    /// The rest of initialization, after the attempt to open the pipe for metrics.
    pub open spec fn metrics_pipe_opened(
        self,
        system: LogSystem,
        app_info: AppInfoView,
        metrics_dest: Seq<char>,
        opened: Result<(), Seq<char>>,
        options: Seq<OptionView>,
    ) -> Outcome<EmissionView> {
        let measuring = self.with_metrics_pipe(metrics_dest);
        match opened {
            Err(e) => self.init_failed(system, "Could not open metrics fifo: "@ + e),
            Ok(_) => match measuring.flags_set(options) {
                (_, Err(e)) => measuring.init_failed(
                    system,
                    "Could not set option flags: "@ + e.message(),
                ),
                (ready, Ok(_)) => Outcome {
                    logger: ready,
                    system: LogSystem {
                        state: InitState::Initialized,
                        max_level: MaxLevel::at(Level::Trace),
                        ..system
                    },
                    result: Ok(
                        EmissionView {
                            destination: DestinationView::LogPipe(ready.log_buf->0),
                            text: app_info.announcement(),
                        },
                    ),
                },
            },
        }
    }

    /// The whole of initialization, for given outcomes of the attempts to open the two pipes.
    pub open spec fn init(
        self,
        system: LogSystem,
        app_info: AppInfoView,
        instance_id: Seq<char>,
        log_dest: Seq<char>,
        metrics_dest: Seq<char>,
        options: Seq<OptionView>,
        log_opened: Result<(), Seq<char>>,
        metrics_opened: Result<(), Seq<char>>,
    ) -> Outcome<EmissionView> {
        let named = self.named(instance_id);
        let logging = named.with_log_pipe(log_dest);
        let measuring = logging.with_metrics_pipe(metrics_dest);
        if system.state != InitState::Uninitialized {
            self.refused(system)
        } else if log_opened is Err {
            named.init_failed(system, "Could not open logging fifo: "@ + log_opened->Err_0)
        } else if metrics_opened is Err {
            logging.init_failed(system, "Could not open metrics fifo: "@ + metrics_opened->Err_0)
        } else if !crate::options::all_valid(options) {
            measuring.init_failed(
                system,
                "Could not set option flags: "@ + ErrorView::InvalidLogOption(
                    crate::options::first_invalid(options).shown(),
                ).message(),
            )
        } else {
            Outcome {
                logger: measuring.with_flags(crate::options::requested_flags(options)),
                system: LogSystem {
                    state: InitState::Initialized,
                    max_level: MaxLevel::at(Level::Trace),
                    ..system
                },
                result: Ok(
                    EmissionView {
                        destination: DestinationView::LogPipe(log_dest),
                        text: app_info.announcement(),
                    },
                ),
            }
        }
    }

    /// The metrics as they go out, if the subsystem is initialized and they could be serialized.
    pub open spec fn metrics_sent(
        self,
        system: LogSystem,
        serialized: Result<Seq<char>, Seq<char>>,
    ) -> Option<EmissionView> {
        match serialized {
            Ok(text) if system.state == InitState::Initialized => Some(
                EmissionView {
                    destination: DestinationView::MetricsPipe(self.metrics_buf->0),
                    text,
                },
            ),
            _ => None,
        }
    }

    /// What flushing the metrics leaves behind: it tells whether they went out.
    pub open spec fn metrics_logged(
        self,
        system: LogSystem,
        serialized: Result<Seq<char>, Seq<char>>,
        written: Result<(), ErrorView>,
    ) -> Outcome<bool> {
        if system.state != InitState::Initialized {
            Outcome { logger: self, system, result: Ok(false) }
        } else if serialized is Err {
            Outcome {
                logger: self,
                system: LogSystem { metrics: system.metrics.after_failed_metrics(), ..system },
                result: Err(ErrorView::LogMetricFailure(serialized->Err_0)),
            }
        } else if written is Err {
            Outcome {
                logger: self,
                system: LogSystem { metrics: system.metrics.after_missed_metrics(), ..system },
                result: Err(written->Err_0),
            }
        } else {
            Outcome { logger: self, system, result: Ok(true) }
        }
    }
}

} // verus!
