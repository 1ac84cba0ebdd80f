//! The ISO 8601 side: dates, times and datetimes as the fields of their
//! written form.

use vstd::prelude::*;

verus! {

/// A date in one of the three encodings of ISO 8601. The components are as
/// written; nothing says that they name a day that exists.
#[derive(Clone, Copy, Debug, PartialEq, Eq, Hash, Structural)]
pub enum Iso8601Date {
    /// A calendar date: year, month and day of the month.
    YMD { year: i32, month: u32, day: u32 },
    /// A week date: ISO week-numbering year, week, and weekday from 1 for
    /// Monday to 7 for Sunday.
    Week { year: i32, week: u32, weekday: u32 },
    /// An ordinal date: year and day of the year.
    Ordinal { year: i32, day_of_year: u32 },
}

/// A time of day with its offset from UTC split into hours and minutes.
#[derive(Clone, Copy, Debug, PartialEq, Eq, Hash, Structural)]
pub struct Iso8601Time {
    /// The hour as written.
    pub hour: u32,
    /// The minute as written.
    pub minute: u32,
    /// The second as written.
    pub second: u32,
    /// The fraction of the second, in milliseconds.
    pub millisecond: u32,
    /// The hours of the offset from UTC.
    pub tz_offset_hours: i32,
    /// The minutes of the offset from UTC, beyond `tz_offset_hours`.
    pub tz_offset_minutes: i32,
}

impl Iso8601Time {
    /// The offset from UTC in minutes that the two offset fields stand for
    /// together, whichever of them carries the sign.
    pub open spec fn total_offset_minutes(self) -> int {
        self.tz_offset_hours * 60 + self.tz_offset_minutes
    }

    /// Whether the two offset fields are one offset split in two: neither
    /// points the other way from the other, and the minutes stay under an
    /// hour.
    pub open spec fn has_split_offset(self) -> bool {
        &&& -60 < self.tz_offset_minutes < 60
        &&& self.tz_offset_hours > 0 ==> self.tz_offset_minutes >= 0
        &&& self.tz_offset_hours < 0 ==> self.tz_offset_minutes <= 0
    }
}

/// A date and a time.
#[derive(Clone, Copy, Debug, PartialEq, Eq, Hash, Structural)]
pub struct Iso8601DateTime {
    /// The date, in whichever encoding it was written.
    pub date: Iso8601Date,
    /// The time of day and the offset from UTC.
    pub time: Iso8601Time,
}

} // verus!
