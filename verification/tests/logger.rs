use logger::{
    AppInfo, Destination, Emission, InitState, Level, LocalTime, LogSystem, Logger, LoggerError,
    OptionValue, Record,
};
use std::io::{BufRead, BufReader, Write};
use tempfile::NamedTempFile;

const TEST_INSTANCE_ID: &str = "TEST-INSTANCE-ID";
const TEST_APP_NAME: &str = "Firecracker";
const TEST_APP_VERSION: &str = "1.0";

fn now() -> LocalTime {
    LocalTime {
        year: 2018,
        month: 11,
        day: 7,
        hour: 5,
        minute: 34,
        second: 25,
        nanosecond: 180_751_152,
    }
}

fn record(level: Level, line: u32, args: &str) -> Record {
    Record {
        level,
        file: Some("logger/src/lib.rs".to_string()),
        line: Some(line),
        args: args.to_string(),
    }
}

fn path_of(file: &NamedTempFile) -> String {
    String::from(file.path().to_path_buf().to_str().unwrap())
}

// Opening a pipe fails for an empty path.
fn open(path: &str) -> Result<(), String> {
    if path.is_empty() {
        Err("No such file or directory (os error 2)".to_string())
    } else {
        Ok(())
    }
}

fn json_options(texts: &[&str]) -> Vec<OptionValue> {
    let mut options = Vec::new();
    for text in texts {
        options.push(OptionValue::from_json(text).unwrap());
    }
    options
}

fn init(
    l: &mut Logger,
    system: &mut LogSystem,
    log_file: &str,
    metrics_file: &str,
    options: &[OptionValue],
) -> Result<Emission, LoggerError> {
    let app_info = AppInfo::new(TEST_APP_NAME, TEST_APP_VERSION);
    l.init(
        system,
        &app_info,
        TEST_INSTANCE_ID,
        log_file.to_string(),
        metrics_file.to_string(),
        options,
        open(log_file),
        open(metrics_file),
    )
}

// Carries a message to where it goes, as far as that is the log file.
fn deliver(l: &Logger, system: &mut LogSystem, file: &mut NamedTempFile, emission: Emission) {
    match emission.destination {
        Destination::LogPipe(path) => {
            assert_eq!(path, path_of(file));
            let line = logger::sink::line_of(emission.text);
            let written = file.write(line.as_bytes()).map_err(|e| e.to_string());
            let outcome = match logger::sink::after_write(written) {
                Ok(()) => logger::sink::after_flush(file.flush().map_err(|e| e.to_string())),
                Err(e) => Err(e),
            };
            l.log_delivered(system, &outcome);
        }
        _ => assert_ne!(system.state, InitState::Initialized),
    }
}

fn log(l: &Logger, system: &mut LogSystem, file: &mut NamedTempFile, record: &Record) {
    if let Some(emission) = l.log(system, &now(), record) {
        deliver(l, system, file, emission);
    }
}

fn validate_logs(
    log_file: &NamedTempFile,
    expected: &[(&'static str, &'static str, &'static str, &'static str)],
) -> bool {
    let f = log_file.reopen().unwrap();
    let mut reader = BufReader::new(f);

    let mut line = String::new();
    // The first line should contain the firecracker version.
    reader.read_line(&mut line).unwrap();
    assert!(line.contains(TEST_APP_VERSION));
    for tuple in expected {
        line.clear();
        // Read an actual log line.
        reader.read_line(&mut line).unwrap();
        assert!(line.contains(&tuple.0));
        assert!(line.contains(&tuple.1));
        assert!(line.contains(&tuple.2));
        assert!(line.contains(&tuple.3));
    }
    line.clear();
    reader.read_line(&mut line).unwrap();
    assert_eq!(line, "");
    false
}

#[test]
fn test_default_values() {
    let l = Logger::new();
    assert_eq!(l.level(), Level::Warn.as_usize());
    assert_eq!(l.level(), log::Level::Warn as usize);
    assert_eq!(l.show_line_numbers(), true);
    assert_eq!(l.show_level(), true);
    assert_eq!(l.flags(), 0);
}

#[test]
fn test_init() {
    let mut log_file_temp =
        NamedTempFile::new().expect("Failed to create temporary output logging file.");
    let log_file = path_of(&log_file_temp);

    let metrics_file_temp =
        NamedTempFile::new().expect("Failed to create temporary metrics logging file.");
    let metrics_file = path_of(&metrics_file_temp);

    let mut system = LogSystem::new();
    let mut l = Logger::new();

    l.set_include_origin(false, true);
    assert_eq!(l.show_line_numbers(), false);

    l.set_include_origin(true, true);
    l.set_include_level(true);
    l.set_level(Level::Info);
    assert_eq!(l.show_line_numbers(), true);
    assert_eq!(l.show_file_path(), true);
    assert_eq!(l.show_level(), true);

    // Trying to log metrics when logger is not initialized, should not throw error.
    let (sent, res) = l.log_metrics(&mut system, Ok("{}".to_string()), Ok(()));
    assert!(sent.is_none());
    assert!(res.is_ok() && !res.unwrap());

    // Assert that initialization with invalid options is not allowed.
    assert_eq!(
        format!(
            "{:?}",
            init(&mut l, &mut system, &log_file, &metrics_file, &json_options(&["true"])).err()
        ),
        "Some(NeverInitialized(\"Could not set option flags: Invalid log option: Bool(true)\"))"
    );
    assert_eq!(
        format!(
            "{:?}",
            init(&mut l, &mut system, &log_file, &metrics_file, &json_options(&["\"foobar\""]))
                .err()
        ),
        "Some(NeverInitialized(\"Could not set option flags: Invalid log option: foobar\"))"
    );

    // Assert that metrics cannot be flushed to stdout/stderr.
    let (sent, res) = l.log_metrics(&mut system, Ok("{}".to_string()), Ok(()));
    assert!(sent.is_none());
    assert!(res.is_ok() && !res.unwrap());

    // Assert that preinitialization works any number of times.
    assert!(l.preinit(&mut system, Some(TEST_INSTANCE_ID.to_string())).is_ok());
    assert!(l.preinit(&mut system, None).is_ok());
    assert!(l.preinit(&mut system, Some(TEST_INSTANCE_ID.to_string())).is_ok());

    log(&l, &mut system, &mut log_file_temp, &record(Level::Info, 101, "info"));
    log(&l, &mut system, &mut log_file_temp, &record(Level::Warn, 102, "warning"));
    log(&l, &mut system, &mut log_file_temp, &record(Level::Error, 103, "error"));

    // Assert that initialization works only once.
    let res = init(
        &mut l,
        &mut system,
        &log_file,
        &metrics_file,
        &json_options(&["\"LogDirtyPages\""]),
    );
    assert!(res.is_ok());
    deliver(&l, &mut system, &mut log_file_temp, res.unwrap());

    log(&l, &mut system, &mut log_file_temp, &record(Level::Info, 104, "info"));
    log(&l, &mut system, &mut log_file_temp, &record(Level::Warn, 105, "warning"));

    assert!(init(&mut l, &mut system, &log_file, &metrics_file, &[]).is_err());

    log(&l, &mut system, &mut log_file_temp, &record(Level::Info, 106, "info"));
    log(&l, &mut system, &mut log_file_temp, &record(Level::Warn, 107, "warning"));
    log(&l, &mut system, &mut log_file_temp, &record(Level::Error, 108, "error"));

    l.flush();

    // Here we also test that the last initialization had no effect given that the
    // logging system can only be initialized with pipes once per program.
    validate_logs(
        &log_file_temp,
        &[
            (TEST_INSTANCE_ID, "INFO", "lib.rs", "info"),
            (TEST_INSTANCE_ID, "WARN", "lib.rs", "warn"),
            (TEST_INSTANCE_ID, "INFO", "lib.rs", "info"),
            (TEST_INSTANCE_ID, "WARN", "lib.rs", "warn"),
            (TEST_INSTANCE_ID, "ERROR", "lib.rs", "error"),
        ],
    );

    assert!(l.log_metrics(&mut system, Ok("{}".to_string()), Ok(())).1.is_ok());

    system.state = InitState::Uninitialized;
    let log_file_temp =
        NamedTempFile::new().expect("Failed to create temporary output logging file.");
    let log_file = path_of(&log_file_temp);

    // Exercise the case when there is an error in opening file.
    system.state = InitState::Uninitialized;
    assert!(init(&mut l, &mut system, "", &metrics_file, &[]).is_err());

    let res = init(&mut l, &mut system, &log_file, "", &[]);
    assert!(res.is_err());

    l.set_include_level(true);
    l.set_include_origin(false, false);
    let log_record = Record { level: Level::Error, file: None, line: None, args: String::new() };
    assert_eq!(
        l.log(&system, &now(), &log_record),
        Some(Emission {
            destination: Destination::Stderr,
            text: "2018-11-07T05:34:25.180751152 [TEST-INSTANCE-ID:ERROR] ".to_string(),
        })
    );

    assert_eq!(l.show_level(), true);
    assert_eq!(l.show_file_path(), false);
    assert_eq!(l.show_line_numbers(), false);

    l.set_include_level(false);
    l.set_include_origin(true, true);
    let log_record = Record { level: Level::Info, file: None, line: None, args: String::new() };
    assert_eq!(
        l.log(&system, &now(), &log_record),
        Some(Emission {
            destination: Destination::Stdout,
            text: "2018-11-07T05:34:25.180751152 [TEST-INSTANCE-ID:unknown] ".to_string(),
        })
    );

    assert_eq!(l.show_level(), false);
    assert_eq!(l.show_file_path(), true);
    assert_eq!(l.show_line_numbers(), true);

    system.state = InitState::Initialized;
    let mut l = Logger::new();

    assert_eq!(
        format!("{:?}", init(&mut l, &mut system, &log_file, &metrics_file, &[]).err()),
        "Some(AlreadyInitialized)"
    );
}
