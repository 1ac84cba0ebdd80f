//! The civil side: calendar dates, times of day and offsets from UTC as
//! application code handles them.

use crate::calendar::{day_number, day_of_year, is_calendar_day, MAX_YEAR, MIN_YEAR};
use vstd::prelude::*;

verus! {

/// A date of the proleptic Gregorian calendar.
#[derive(Clone, Copy, Debug, PartialEq, Eq, Hash, Structural)]
pub struct CivilDate {
    /// The year, in astronomical numbering.
    pub year: i32,
    /// The month, 1 to 12.
    pub month: u8,
    /// The day of the month, from 1.
    pub day: u8,
}

impl CivilDate {
    /// Whether this is a day that exists, in a year between [`MIN_YEAR`] and
    /// [`MAX_YEAR`].
    pub open spec fn is_valid(self) -> bool {
        &&& MIN_YEAR <= self.year <= MAX_YEAR
        &&& is_calendar_day(self.year as int, self.month as int, self.day as int)
    }

    /// The position of this date within its year: 1 for 1 January.
    pub open spec fn day_of_year(self) -> int {
        day_of_year(self.year as int, self.month as int, self.day as int)
    }

    /// The number of this date on the line of days: 1 for 1 January of year 1.
    pub open spec fn day_number(self) -> int {
        day_number(self.year as int, self.month as int, self.day as int)
    }
}

/// A time of day, to the millisecond.
#[derive(Clone, Copy, Debug, PartialEq, Eq, Hash, Structural)]
pub struct CivilTime {
    /// The hour, 0 to 23.
    pub hour: u8,
    /// The minute, 0 to 59.
    pub minute: u8,
    /// The second, 0 to 59.
    pub second: u8,
    /// The millisecond, 0 to 999.
    pub millisecond: u16,
}

impl CivilTime {
    /// Whether every component is within its range.
    pub open spec fn is_valid(self) -> bool {
        &&& self.hour < 24
        &&& self.minute < 60
        &&& self.second < 60
        &&& self.millisecond < 1000
    }
}

/// A fixed offset from UTC in whole minutes, positive to the east.
#[derive(Clone, Copy, Debug, PartialEq, Eq, Hash, Structural)]
pub struct CivilOffset {
    /// The offset in minutes.
    pub minutes: i64,
}

/// A date and a time of day at a fixed offset from UTC.
#[derive(Clone, Copy, Debug, PartialEq, Eq, Hash, Structural)]
pub struct CivilDateTime {
    /// The date, as read at `offset`.
    pub date: CivilDate,
    /// The time of day, as read at `offset`.
    pub time: CivilTime,
    /// The offset from UTC at which `date` and `time` are read.
    pub offset: CivilOffset,
}

impl CivilDateTime {
    /// Whether the date and the time of day are both valid.
    pub open spec fn is_valid(self) -> bool {
        self.date.is_valid() && self.time.is_valid()
    }
}

} // verus!
