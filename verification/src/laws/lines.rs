//! What a log line says, and how it is written.

use vstd::prelude::*;
use crate::error::ErrorView;
use crate::level::Level;
use crate::model::LoggerView;
use crate::record::{AppInfoView, RecordView};
use crate::time::LocalTime;

verus! {

/// The names of the levels.
pub proof fn law_names_of_levels(level: Level)
    ensures
        level == Level::Error ==> level.name() == "ERROR"@,
        level == Level::Warn ==> level.name() == "WARN"@,
        level == Level::Info ==> level.name() == "INFO"@,
        level == Level::Debug ==> level.name() == "DEBUG"@,
        level == Level::Trace ==> level.name() == "TRACE"@,
{
}

/// A log line is the time, the prefix, a space and the whole message, whatever the settings.
pub proof fn law_line_ends_with_the_message(logger: LoggerView, now: LocalTime, record: RecordView)
    ensures
        logger.log_line(now, record) == now.stamp() + logger.prefix(record) + " "@ + record.args,
        logger.log_line(now, record).len() == now.stamp().len() + logger.prefix(record).len() + 1
            + record.args.len(),
        logger.log_line(now, record).skip(
            logger.log_line(now, record).len() - record.args.len(),
        ) == record.args,
{
    reveal_strlit(" ");
    let text = logger.log_line(now, record);
    assert(text.skip(text.len() - record.args.len()) =~= record.args);
}

/// A prefix is the instance id and, in this order and each with a colon in front, the level, the
/// path of the file (or `unknown`) and the number of the line, in brackets. Whether one of the
/// three is there depends on the setting for it alone; the line number must be known too.
pub proof fn law_parts_of_a_prefix(logger: LoggerView, record: RecordView)
    ensures
        logger.prefix(record) == " ["@ + logger.instance_id + (if logger.show_level {
            ":"@ + record.level.name()
        } else {
            Seq::empty()
        }) + (if !logger.show_file_path {
            Seq::empty()
        } else if record.file is Some {
            ":"@ + record.file->0
        } else {
            ":"@ + "unknown"@
        }) + (if logger.show_line_numbers && record.line is Some {
            ":"@ + crate::text::decimal(record.line->0 as nat)
        } else {
            Seq::empty()
        }) + "]"@,
{
}

/// Whether the level is shown has no bearing on the rest of the prefix: showing it adds a colon and
/// its name behind the instance id, and nothing else changes.
pub proof fn law_level_is_shown_by_itself(logger: LoggerView, record: RecordView)
    ensures
        ({
            let shown = (LoggerView { show_level: true, ..logger }).prefix(record);
            let hidden = (LoggerView { show_level: false, ..logger }).prefix(record);
            let head = " ["@ + logger.instance_id;
            &&& hidden.take(head.len() as int) == head
            &&& shown == head + ":"@ + record.level.name() + hidden.skip(head.len() as int)
        }),
{
    let shown = (LoggerView { show_level: true, ..logger }).prefix(record);
    let hidden = (LoggerView { show_level: false, ..logger }).prefix(record);
    let head = " ["@ + logger.instance_id;
    assert(hidden.take(head.len() as int) =~= head);
    assert(shown =~= head + ":"@ + record.level.name() + hidden.skip(head.len() as int));
}

/// Whether the line number is shown has no bearing on the rest of the prefix: a known number that
/// is shown stands, with a colon in front, right before the closing bracket.
pub proof fn law_line_number_is_shown_by_itself(logger: LoggerView, record: RecordView)
    ensures
        ({
            let shown = (LoggerView { show_line_numbers: true, ..logger }).prefix(record);
            let hidden = (LoggerView { show_line_numbers: false, ..logger }).prefix(record);
            &&& hidden.len() > 0 && hidden.last() == ']'
            &&& record.line is None ==> shown == hidden
            &&& record.line is Some ==> shown == hidden.drop_last() + ":"@ + crate::text::decimal(
                record.line->0 as nat,
            ) + "]"@
        }),
{
    reveal_strlit("]");
    let shown = (LoggerView { show_line_numbers: true, ..logger }).prefix(record);
    let hidden = (LoggerView { show_line_numbers: false, ..logger }).prefix(record);
    if record.line is Some {
        assert(shown =~= hidden.drop_last() + ":"@ + crate::text::decimal(record.line->0 as nat)
            + "]"@);
    }
}

/// Whether the path is shown has no bearing on the rest of the prefix: what is in front of it and
/// what is behind it are the same without it.
pub proof fn law_path_is_shown_by_itself(logger: LoggerView, record: RecordView)
    ensures
        ({
            let shown = (LoggerView { show_file_path: true, ..logger }).prefix(record);
            let hidden = (LoggerView { show_file_path: false, ..logger }).prefix(record);
            let head = " ["@ + logger.instance_id + (if logger.show_level {
                ":"@ + record.level.name()
            } else {
                Seq::empty()
            });
            let path = if record.file is Some {
                record.file->0
            } else {
                "unknown"@
            };
            &&& hidden.take(head.len() as int) == head
            &&& shown == head + ":"@ + path + hidden.skip(head.len() as int)
        }),
{
    let shown = (LoggerView { show_file_path: true, ..logger }).prefix(record);
    let hidden = (LoggerView { show_file_path: false, ..logger }).prefix(record);
    let head = " ["@ + logger.instance_id + (if logger.show_level {
        ":"@ + record.level.name()
    } else {
        Seq::empty()
    });
    let path = if record.file is Some {
        record.file->0
    } else {
        "unknown"@
    };
    assert(hidden.take(head.len() as int) =~= head);
    assert(shown =~= head + ":"@ + path + hidden.skip(head.len() as int));
}

/// With every part shown, a log line has the form
/// `<timestamp> [<instance_id>:<level>:<file path>:<line number>] <log content>`.
pub proof fn law_format_of_a_full_line(
    logger: LoggerView,
    now: LocalTime,
    level: Level,
    path: Seq<char>,
    line: u32,
    args: Seq<char>,
)
    requires
        logger.show_level,
        logger.show_file_path,
        logger.show_line_numbers,
    ensures
        logger.log_line(now, (RecordView { level, file: Some(path), line: Some(line), args }))
            == now.stamp() + " ["@ + logger.instance_id + ":"@ + level.name() + ":"@ + path + ":"@
            + crate::text::decimal(line as nat) + "] "@ + args,
{
    reveal_strlit("] ");
    reveal_strlit("]");
    reveal_strlit(" ");
    assert("] "@ =~= "]"@ + " "@);
    assert(logger.log_line(now, (RecordView { level, file: Some(path), line: Some(line), args }))
        =~= now.stamp() + " ["@ + logger.instance_id + ":"@ + level.name() + ":"@ + path + ":"@
        + crate::text::decimal(line as nat) + "] "@ + args);
}

/// Without the path of the file, no line number shows either, and the line does not tell where
/// the message comes from.
pub proof fn law_hidden_path_hides_the_line_number(
    logger: LoggerView,
    line_numbers: bool,
    now: LocalTime,
    record: RecordView,
)
    ensures
        !logger.including_origin(false, line_numbers).show_line_numbers,
        logger.including_origin(false, line_numbers).log_line(now, record)
            == logger.including_origin(false, line_numbers).log_line(
            now,
            (RecordView { file: None, line: None, ..record }),
        ),
{
}

/// What is handed to a destination is the message in full, with one newline behind it.
pub proof fn law_line_is_the_message_and_a_newline(msg: Seq<char>)
    ensures
        crate::sink::line(msg).len() == msg.len() + 1,
        crate::sink::line(msg).drop_last() == msg,
        crate::sink::line(msg).last() == '\n',
{
    reveal_strlit("\n");
    assert(crate::sink::line(msg).drop_last() =~= msg);
}

/// Writing a line fails if and only if the write or, after a write that succeeded, the flush
/// failed; the error is that of the first failure, and the number of bytes plays no part.
pub proof fn law_first_failure_of_a_write_counts(
    written: Result<usize, Seq<char>>,
    flushed: Result<(), Seq<char>>,
)
    ensures
        written is Ok && flushed is Ok <==> crate::sink::write_result(written, flushed) is Ok,
        written is Err ==> crate::sink::write_result(written, flushed) == Err::<(), _>(
            ErrorView::LogWrite(written->Err_0),
        ),
        written is Ok && flushed is Err ==> crate::sink::write_result(written, flushed) == Err::<
            (),
            _,
        >(ErrorView::LogFlush(flushed->Err_0)),
{
}

/// An application announces itself by its name and its version.
pub proof fn law_announcement(app_info: AppInfoView)
    ensures
        app_info.announcement() == "Running "@ + app_info.name + " v"@ + app_info.version,
        app_info.announcement().len() == 10 + app_info.name.len() + app_info.version.len(),
{
    reveal_strlit("Running ");
    reveal_strlit(" v");
}

/// The messages of the errors. Where an error carries a text, its message ends with that text.
pub proof fn law_messages_of_errors(reason: Seq<char>)
    ensures
        ErrorView::NeverInitialized(reason).message() == reason,
        ErrorView::LogMetricFailure(reason).message() == reason,
        ErrorView::LogWrite(reason).message() == "Failed to write logs. Error: "@ + reason,
        ErrorView::LogFlush(reason).message() == "Failed to flush logs. Error: "@ + reason,
        ErrorView::InvalidLogOption(reason).message() == "Invalid log option: "@ + reason,
        ErrorView::IsPreinitializing.message() == "The logger is preinitializing."@,
        ErrorView::IsInitializing.message() == "The logger is initializing."@,
        ErrorView::AlreadyInitialized.message() == "Reinitialization of logger not allowed."@,
{
}

} // verus!
