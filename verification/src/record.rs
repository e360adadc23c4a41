//! What is logged, and by whom.

use vstd::prelude::*;
use crate::level::Level;

verus! {

/// Info about the application that uses the logger.
#[derive(Debug)]
pub struct AppInfo {
    name: String,
    version: String,
}

/// An [`AppInfo`] with its texts as character sequences.
pub struct AppInfoView {
    pub name: Seq<char>,
    pub version: Seq<char>,
}

impl View for AppInfo {
    type V = AppInfoView;

    closed spec fn view(&self) -> AppInfoView {
        AppInfoView { name: self.name@, version: self.version@ }
    }
}

impl AppInfoView {
    /// The message with which an application announces itself.
    pub open spec fn announcement(self) -> Seq<char> {
        "Running "@ + self.name + " v"@ + self.version
    }
}

impl AppInfo {
    /// Info about the application `name` in the version `version`.
    pub fn new(name: &str, version: &str) -> (info: AppInfo)
        ensures
            info@ == (AppInfoView { name: name@, version: version@ }),
    {
        AppInfo { name: name.to_owned(), version: version.to_owned() }
    }

    /// The message with which the application announces itself.
    pub(crate) fn announcement(&self) -> (text: String)
        ensures
            text@ == self@.announcement(),
    {
        let mut text: String = "Running ".to_owned();
        text.append(self.name.as_str());
        text.append(" v");
        text.append(self.version.as_str());
        text
    }
}

/// A request to log a message.
#[derive(Debug)]
pub struct Record {
    /// How severe the message is.
    pub level: Level,
    /// The path of the source file that the message comes from, where it is known.
    pub file: Option<String>,
    /// The line in that file, where it is known.
    pub line: Option<u32>,
    /// The message.
    pub args: String,
}

/// A [`Record`] with its texts as character sequences.
pub struct RecordView {
    pub level: Level,
    pub file: Option<Seq<char>>,
    pub line: Option<u32>,
    pub args: Seq<char>,
}

impl View for Record {
    type V = RecordView;

    open spec fn view(&self) -> RecordView {
        RecordView {
            level: self.level,
            file: match self.file {
                Some(path) => Some(path@),
                None => None,
            },
            line: self.line,
            args: self.args@,
        }
    }
}

} // verus!
