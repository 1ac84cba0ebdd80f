//! Civil datetimes to and from ISO 8601 datetimes: the date and the time of
//! day converted each on its own, and paired.

use crate::civil::CivilDateTime;
use crate::date_conv::{date_from_iso8601, date_to_iso, date_to_iso8601};
use crate::error::{Part, RangeError};
use crate::iso::Iso8601DateTime;
use crate::time_conv::{time_from_iso8601, time_to_iso, time_to_iso8601};
use vstd::prelude::*;

verus! {

impl Iso8601DateTime {
    /// Whether this is a way of writing the civil datetime `civil`: the date
    /// and the time of day are written by their own rules, and the two offset
    /// fields add up to the offset.
    pub open spec fn denotes(self, civil: CivilDateTime) -> bool {
        &&& self.date.denotes(civil.date)
        &&& self.time.denotes(civil.time)
        &&& self.time.total_offset_minutes() == civil.offset.minutes
    }

    /// Whether this is a way of writing some civil datetime.
    pub open spec fn is_civil(self) -> bool {
        self.date.is_civil() && self.time.is_civil()
    }
}

/// The ISO 8601 form of `datetime`.
pub open spec fn datetime_to_iso(datetime: CivilDateTime) -> Iso8601DateTime {
    Iso8601DateTime {
        date: date_to_iso(datetime.date),
        time: time_to_iso(datetime.time, datetime.offset),
    }
}

/// Writes a civil datetime in ISO 8601 form: its date as a calendar date, and
/// its time of day with the offset split into hours and minutes.
pub fn datetime_to_iso8601(datetime: CivilDateTime) -> (iso: Iso8601DateTime)
    requires
        datetime.offset.fits_iso(),
    ensures
        iso == datetime_to_iso(datetime),
{
    Iso8601DateTime {
        date: date_to_iso8601(datetime.date),
        time: time_to_iso8601(datetime.time, datetime.offset),
    }
}

/// Reads an ISO 8601 datetime as a civil datetime.
///
/// Succeeds exactly when the date names a day that exists and every
/// component of the time of day is in range. Where both are at fault the
/// failure is that of the date.
pub fn datetime_from_iso8601(datetime: Iso8601DateTime) -> (r: Result<CivilDateTime, RangeError>)
    ensures
        r is Ok <==> datetime.is_civil(),
        r matches Ok(civil) ==> datetime.denotes(civil),
        r matches Err(error) ==> error.part == (if datetime.date.is_civil() {
            Part::Time
        } else {
            Part::Date
        }),
{
    let (time, offset) = time_from_iso8601(datetime.time);
    let date = match date_from_iso8601(datetime.date) {
        Ok(date) => date,
        Err(error) => {
            return Err(error);
        },
    };
    match time {
        Ok(time) => Ok(CivilDateTime { date, time, offset }),
        Err(error) => Err(error),
    }
}

} // verus!
