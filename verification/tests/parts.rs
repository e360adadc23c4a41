use logger::level::Level;
use logger::options::flags_of;
use logger::sink::{after_flush, after_write, line_of, write_to_destination};
use logger::text::{decimal_text, padded_text};
use logger::{
    AppInfo, Destination, Emission, InitState, LocalTime, LogOption, LogSystem, Logger,
    LoggerError, LoggerMetrics, OptionValue, Record,
};

fn time() -> LocalTime {
    LocalTime { year: 2018, month: 11, day: 7, hour: 5, minute: 4, second: 3, nanosecond: 42 }
}

fn message(level: Level) -> Record {
    Record { level, file: Some("src/main.rs".to_string()), line: Some(1173), args: "hi".to_string() }
}

// A logger that was initialized with pipes at "l" and "m".
fn initialized() -> (Logger, LogSystem) {
    let mut system = LogSystem::new();
    let mut l = Logger::new();
    let first = l.init(
        &mut system,
        &AppInfo::new("App", "0.7"),
        "ID",
        "l".to_string(),
        "m".to_string(),
        &[],
        Ok(()),
        Ok(()),
    );
    assert_eq!(
        first.unwrap(),
        Emission {
            destination: Destination::LogPipe("l".to_string()),
            text: "Running App v0.7".to_string(),
        }
    );
    (l, system)
}

fn failed_init(
    log_opened: Result<(), String>,
    metrics_opened: Result<(), String>,
    options: &[OptionValue],
) -> (Logger, LogSystem, String) {
    let mut system = LogSystem::new();
    let mut l = Logger::new();
    let res = l.init(
        &mut system,
        &AppInfo::new("App", "0.7"),
        "ID",
        "l".to_string(),
        "m".to_string(),
        options,
        log_opened,
        metrics_opened,
    );
    let text = format!("{:?}", res.err());
    (l, system, text)
}

#[test]
fn decimal_numbers() {
    assert_eq!(decimal_text(0), "0");
    assert_eq!(decimal_text(9), "9");
    assert_eq!(decimal_text(10), "10");
    assert_eq!(decimal_text(1234567890), "1234567890");
    assert_eq!(decimal_text(u32::MAX), u32::MAX.to_string());
}

#[test]
fn padded_numbers() {
    assert_eq!(padded_text(7, 2), "07");
    assert_eq!(padded_text(12, 2), "12");
    assert_eq!(padded_text(123, 2), "123");
    assert_eq!(padded_text(0, 9), "000000000");
    assert_eq!(padded_text(0, 0), "0");
}

#[test]
fn time_stamp() {
    assert_eq!(time().stamp_text(), "2018-11-07T05:04:03.000000042");
    assert_eq!(time().stamp_text().len(), 29);
}

#[test]
fn numbers_of_levels() {
    assert_eq!(Level::Error.as_usize(), log::Level::Error as usize);
    assert_eq!(Level::Warn.as_usize(), log::Level::Warn as usize);
    assert_eq!(Level::Info.as_usize(), log::Level::Info as usize);
    assert_eq!(Level::Debug.as_usize(), log::Level::Debug as usize);
    assert_eq!(Level::Trace.as_usize(), log::Level::Trace as usize);
}

#[test]
fn names_of_levels_in_a_prefix() {
    let mut l = Logger::new();
    l.set_include_origin(false, false);
    assert_eq!(l.create_prefix(&message(Level::Error)), " [:ERROR]");
    assert_eq!(l.create_prefix(&message(Level::Warn)), " [:WARN]");
    assert_eq!(l.create_prefix(&message(Level::Info)), " [:INFO]");
    assert_eq!(l.create_prefix(&message(Level::Debug)), " [:DEBUG]");
    assert_eq!(l.create_prefix(&message(Level::Trace)), " [:TRACE]");
}

#[test]
fn parts_of_a_prefix() {
    let mut system = LogSystem::new();
    let mut l = Logger::new();
    l.preinit(&mut system, Some("MY-INSTANCE".to_string())).unwrap();
    let known = message(Level::Warn);
    let unknown = Record { level: Level::Warn, file: None, line: None, args: String::new() };
    assert_eq!(l.create_prefix(&known), " [MY-INSTANCE:WARN:src/main.rs:1173]");
    assert_eq!(l.create_prefix(&unknown), " [MY-INSTANCE:WARN:unknown]");
    l.set_include_origin(true, false);
    assert_eq!(l.create_prefix(&known), " [MY-INSTANCE:WARN:src/main.rs]");
    l.set_include_level(false);
    assert_eq!(l.create_prefix(&known), " [MY-INSTANCE:src/main.rs]");
    l.set_include_origin(false, true);
    assert_eq!(l.create_prefix(&known), " [MY-INSTANCE]");
    l.set_include_level(true);
    assert_eq!(l.create_prefix(&known), " [MY-INSTANCE:WARN]");
}

#[test]
fn full_line() {
    let (l, system) = initialized();
    assert_eq!(
        l.log(&system, &time(), &message(Level::Error)),
        Some(Emission {
            destination: Destination::LogPipe("l".to_string()),
            text: "2018-11-07T05:04:03.000000042 [ID:ERROR:src/main.rs:1173] hi".to_string(),
        })
    );
}

#[test]
fn levels_are_nested() {
    let mut l = Logger::new();
    assert!(l.enabled(Level::Error));
    assert!(l.enabled(Level::Warn));
    assert!(!l.enabled(Level::Info));
    l.set_level(Level::Info);
    assert!(l.enabled(Level::Error));
    assert!(l.enabled(Level::Info));
    assert!(!l.enabled(Level::Debug));
    l.set_level(Level::Error);
    assert!(!l.enabled(Level::Warn));
    l.set_level(Level::Trace);
    assert!(l.enabled(Level::Trace));
    let system = LogSystem::new();
    l.set_level(Level::Error);
    assert_eq!(l.log(&system, &time(), &message(Level::Warn)), None);
}

#[test]
fn where_messages_go_before_initialization() {
    let mut l = Logger::new();
    l.set_level(Level::Trace);
    let system = LogSystem::new();
    let to = |level| l.log(&system, &time(), &message(level)).unwrap().destination;
    assert_eq!(to(Level::Error), Destination::Stderr);
    assert_eq!(to(Level::Warn), Destination::Stderr);
    assert_eq!(to(Level::Info), Destination::Stdout);
    assert_eq!(to(Level::Debug), Destination::Stdout);
    assert_eq!(to(Level::Trace), Destination::Stdout);
}

#[test]
fn every_record_is_handed_on() {
    let mut system = LogSystem::new();
    let mut l = Logger::new();
    log::set_max_level(log::LevelFilter::Off);
    l.preinit(&mut system, None).unwrap();
    assert_eq!(log::max_level(), log::LevelFilter::Trace);
    assert_eq!(system.state, InitState::Uninitialized);

    log::set_max_level(log::LevelFilter::Off);
    let (_, system) = initialized();
    assert_eq!(log::max_level(), log::LevelFilter::Trace);
    assert_eq!(system.state, InitState::Initialized);
}

#[test]
fn refused_attempts() {
    let (mut l, mut system) = initialized();
    assert_eq!(format!("{:?}", l.preinit(&mut system, None)), "Err(AlreadyInitialized)");
    assert_eq!(format!("{:?}", l.start_init(&mut system, "X")), "Err(AlreadyInitialized)");
    system.state = InitState::Initializing;
    assert_eq!(format!("{:?}", l.start_init(&mut system, "X")), "Err(IsInitializing)");
    system.state = InitState::Preinitializing;
    assert_eq!(format!("{:?}", l.start_init(&mut system, "X")), "Err(IsPreinitializing)");
    assert_eq!(format!("{:?}", l.preinit(&mut system, None)), "Err(IsPreinitializing)");
    assert_eq!(system.metrics.log_fails, 5);
    assert_eq!(l.log_dest(), &Some("l".to_string()));
    assert_eq!(l.metrics_dest(), &Some("m".to_string()));
    assert_eq!(l.create_prefix(&message(Level::Error)), " [ID:ERROR:src/main.rs:1173]");
}

#[test]
fn counters_start_again_at_zero() {
    let (mut l, mut system) = initialized();
    system.metrics.log_fails = usize::MAX;
    assert!(l.preinit(&mut system, None).is_err());
    assert_eq!(system.metrics.log_fails, 0);
}

#[test]
fn log_pipe_that_does_not_open() {
    let (l, system, text) = failed_init(Err("no pipe".to_string()), Ok(()), &[]);
    assert_eq!(text, "Some(NeverInitialized(\"Could not open logging fifo: no pipe\"))");
    assert_eq!(system.state, InitState::Uninitialized);
    assert!(l.log_dest().is_none());
    assert!(l.metrics_dest().is_none());
}

#[test]
fn metrics_pipe_that_does_not_open() {
    let (l, system, text) = failed_init(Ok(()), Err("no pipe".to_string()), &[]);
    assert_eq!(text, "Some(NeverInitialized(\"Could not open metrics fifo: no pipe\"))");
    assert_eq!(system.state, InitState::Uninitialized);
    assert_eq!(l.log_dest(), &Some("l".to_string()));
    assert!(l.metrics_dest().is_none());
}

#[test]
fn failed_init_can_be_retried() {
    let bad = [OptionValue::Text("LogDirtyPages".to_string()), OptionValue::Text("x".to_string())];
    let (mut l, mut system, text) = failed_init(Ok(()), Ok(()), &bad);
    assert_eq!(
        text,
        "Some(NeverInitialized(\"Could not set option flags: Invalid log option: x\"))"
    );
    assert_eq!(l.flags(), 0);
    let good = [OptionValue::Text("LogDirtyPages".to_string())];
    let res = l.init(
        &mut system,
        &AppInfo::new("App", "0.7"),
        "ID",
        "l2".to_string(),
        "m2".to_string(),
        &good,
        Ok(()),
        Ok(()),
    );
    assert_eq!(res.unwrap().destination, Destination::LogPipe("l2".to_string()));
    assert_eq!(l.flags(), 1);
}

#[test]
fn init_in_steps() {
    let mut system = LogSystem::new();
    let mut l = Logger::new();
    l.preinit(&mut system, Some("TEMPORARY".to_string())).unwrap();
    l.start_init(&mut system, "ID").unwrap();
    assert_eq!(system.state, InitState::Initializing);
    // Until initialization is done, messages do not go to the pipe.
    let early = l.log(&system, &time(), &message(Level::Error)).unwrap();
    assert_eq!(early.destination, Destination::Stderr);
    assert_eq!(early.text, "2018-11-07T05:04:03.000000042 [ID:ERROR:src/main.rs:1173] hi");
    l.log_pipe_opened(&mut system, "l".to_string(), Ok(())).unwrap();
    let app_info = AppInfo::new("App", "0.7");
    let first = l.metrics_pipe_opened(&mut system, &app_info, "m".to_string(), Ok(()), &[]);
    assert_eq!(first.unwrap().text, "Running App v0.7");
    assert_eq!(system.state, InitState::Initialized);
    assert_eq!(l.log_dest(), &Some("l".to_string()));
    assert_eq!(l.metrics_dest(), &Some("m".to_string()));
}

#[test]
fn names_of_options() {
    assert_eq!(LogOption::from_str("LogDirtyPages").unwrap(), LogOption::LogDirtyPages);
    assert_eq!("LogDirtyPages".parse::<LogOption>().unwrap().as_usize(), 1);
    assert_eq!(
        format!("{:?}", LogOption::from_str("logdirtypages")),
        "Err(InvalidLogOption(\"logdirtypages\"))"
    );
}

#[test]
fn flags_of_options() {
    let dirty = || OptionValue::Text("LogDirtyPages".to_string());
    assert_eq!(flags_of(&[]).unwrap(), 0);
    assert_eq!(flags_of(&[dirty()]).unwrap(), 1);
    assert_eq!(flags_of(&[dirty(), dirty()]).unwrap(), 1);
    let mixed = [dirty(), OptionValue::Other("Null".to_string()), OptionValue::Text("x".to_string())];
    assert_eq!(format!("{:?}", flags_of(&mixed)), "Err(InvalidLogOption(\"Null\"))");
}

#[test]
fn options_in_json() {
    let shown = |json| format!("{:?}", OptionValue::from_json(json));
    assert_eq!(shown("\"LogDirtyPages\""), "Some(Text(\"LogDirtyPages\"))");
    assert_eq!(shown("\"\\u0041\""), "Some(Text(\"A\"))");
    assert_eq!(shown("true"), "Some(Other(\"Bool(true)\"))");
    assert_eq!(shown("null"), "Some(Other(\"Null\"))");
    assert_eq!(shown("17"), "Some(Other(\"Number(17)\"))");
    assert_eq!(shown("[1]"), "Some(Other(\"Array [Number(1)]\"))");
    assert_eq!(shown("LogDirtyPages"), "None");
}

#[test]
fn writing_a_line() {
    assert_eq!(line_of("msg".to_string()), "msg\n");
    assert!(after_write(Ok(2)).is_ok());
    assert!(after_flush(Ok(())).is_ok());
    let io = || "operation would block".to_string();
    let (line, res) = write_to_destination("msg".to_string(), Ok(4), Ok(()));
    assert_eq!(line, "msg\n");
    assert!(res.is_ok());
    let (_, res) = write_to_destination("msg".to_string(), Ok(4), Err(io()));
    assert_eq!(format!("{:?}", res), "Err(LogFlush(\"operation would block\"))");
    let (_, res) = write_to_destination("msg".to_string(), Err(io()), Err("x".to_string()));
    assert_eq!(format!("{:?}", res), "Err(LogWrite(\"operation would block\"))");
}

#[test]
fn messages_of_errors() {
    assert_eq!(
        LoggerError::LogWrite("operation would block".to_string()).message(),
        "Failed to write logs. Error: operation would block"
    );
    assert_eq!(
        LoggerError::InvalidLogOption("foobar".to_string()).message(),
        "Invalid log option: foobar"
    );
    assert_eq!(LoggerError::NeverInitialized("because".to_string()).message(), "because");
}

#[test]
fn lost_lines_are_counted() {
    let (l, mut system) = initialized();
    l.log_delivered(&mut system, &Ok(()));
    assert_eq!(system.metrics.missed_log_count, 0);
    l.log_delivered(&mut system, &Err(LoggerError::LogFlush("full".to_string())));
    assert_eq!(system.metrics.missed_log_count, 1);
}

#[test]
fn flushing_metrics() {
    let (l, mut system) = initialized();
    assert!(l.metrics_due(&system));
    let (sent, res) = l.log_metrics(&mut system, Ok("{}".to_string()), Ok(()));
    assert_eq!(
        sent,
        Some(Emission {
            destination: Destination::MetricsPipe("m".to_string()),
            text: "{}".to_string(),
        })
    );
    assert_eq!(res.unwrap(), true);

    let full = Err(LoggerError::LogWrite("full".to_string()));
    let (sent, res) = l.log_metrics(&mut system, Ok("{}".to_string()), full);
    assert!(sent.is_some());
    assert_eq!(format!("{:?}", res), "Err(LogWrite(\"full\"))");

    let (sent, res) = l.log_metrics(&mut system, Err("no json".to_string()), Ok(()));
    assert!(sent.is_none());
    assert_eq!(format!("{:?}", res), "Err(LogMetricFailure(\"no json\"))");

    assert_eq!(
        system.metrics,
        LoggerMetrics {
            log_fails: 0,
            missed_log_count: 0,
            missed_metrics_count: 1,
            metrics_fails: 1,
        }
    );
}

#[test]
fn metrics_before_initialization() {
    let mut system = LogSystem::new();
    let l = Logger::new();
    assert!(!l.metrics_due(&system));
    let (sent, res) = l.log_metrics(&mut system, Err("no json".to_string()), Ok(()));
    assert!(sent.is_none());
    assert_eq!(res.unwrap(), false);
    assert_eq!(system.metrics.metrics_fails, 0);
}
