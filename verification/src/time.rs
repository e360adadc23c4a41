//! The time stamp of a log line.

use vstd::prelude::*;
use crate::text::padded_text;

verus! {

/// A local time, by its calendar fields.
#[derive(Clone, Copy, Debug, PartialEq, Eq, Structural)]
pub struct LocalTime {
    /// Calendar year.
    pub year: u32,
    /// Month of the year, from 1.
    pub month: u32,
    /// Day of the month, from 1.
    pub day: u32,
    /// Hours since midnight.
    pub hour: u32,
    /// Minutes after the hour.
    pub minute: u32,
    /// Seconds after the minute.
    pub second: u32,
    /// Nanoseconds after the second.
    pub nanosecond: u32,
}

impl LocalTime {
    /// The time in the format `%Y-%m-%dT%H:%M:%S.%f`.
    pub open spec fn stamp(self) -> Seq<char> {
        crate::text::padded(self.year as nat, 4) + "-"@
            + crate::text::padded(self.month as nat, 2) + "-"@
            + crate::text::padded(self.day as nat, 2) + "T"@
            + crate::text::padded(self.hour as nat, 2) + ":"@
            + crate::text::padded(self.minute as nat, 2) + ":"@
            + crate::text::padded(self.second as nat, 2) + "."@
            + crate::text::padded(self.nanosecond as nat, 9)
    }

    /// The time in the format `%Y-%m-%dT%H:%M:%S.%f`.
    pub fn stamp_text(&self) -> (text: String)
        ensures
            text@ == self.stamp(),
    {
        let mut text: String = padded_text(self.year, 4);
        text.append("-");
        text.append(padded_text(self.month, 2).as_str());
        text.append("-");
        text.append(padded_text(self.day, 2).as_str());
        text.append("T");
        text.append(padded_text(self.hour, 2).as_str());
        text.append(":");
        text.append(padded_text(self.minute, 2).as_str());
        text.append(":");
        text.append(padded_text(self.second, 2).as_str());
        text.append(".");
        text.append(padded_text(self.nanosecond, 9).as_str());
        text
    }
}

} // verus!
