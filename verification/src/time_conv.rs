//! Civil times of day and offsets to and from ISO 8601 times.

use crate::civil::{CivilOffset, CivilTime};
use crate::clip::{clip_u16, clip_u8};
use crate::error::{Part, RangeError};
use crate::iso::Iso8601Time;
use crate::time_calls::{range_message, time_from_hms_milli};
use vstd::prelude::*;

verus! {

/// The whole hours in an offset of `total` minutes, rounded toward zero:
/// 1 for 90, and -1 for -90.
pub open spec fn offset_hours(total: int) -> int {
    if total >= 0 {
        total / 60
    } else {
        -((-total) / 60)
    }
}

/// The minutes that an offset of `total` minutes has beyond its whole hours:
/// 30 for 90, and -30 for -90.
pub open spec fn offset_minutes(total: int) -> int {
    total - 60 * offset_hours(total)
}

impl CivilOffset {
    /// Whether the whole hours of this offset fit the hours field of an ISO
    /// 8601 time.
    pub open spec fn spec_fits_iso(self) -> bool {
        i32::MIN <= offset_hours(self.minutes as int) <= i32::MAX
    }

    /// Whether the whole hours of this offset fit the hours field of an ISO
    /// 8601 time, which is what writing the offset asks for. Every offset of
    /// less than two thousand million hours does.
    #[verifier::when_used_as_spec(spec_fits_iso)]
    pub fn fits_iso(self) -> (fits: bool)
        ensures
            fits == self.spec_fits_iso(),
    {
        let hours: i64 = self.minutes / 60;
        -2_147_483_648 <= hours && hours <= 2_147_483_647
    }
}

impl Iso8601Time {
    /// Whether this is a way of writing the civil time of day `time`.
    pub open spec fn denotes(self, time: CivilTime) -> bool {
        &&& time.is_valid()
        &&& time.hour == self.hour
        &&& time.minute == self.minute
        &&& time.second == self.second
        &&& time.millisecond == self.millisecond
    }

    /// Whether this is a way of writing some civil time of day.
    pub open spec fn is_civil(self) -> bool {
        self.hour < 24 && self.minute < 60 && self.second < 60 && self.millisecond < 1000
    }
}

/// The ISO 8601 form of `time` at `offset`: the components of the time as
/// they are, and the offset split into whole hours and the minutes beyond
/// them, both rounded toward zero so that neither points the other way from
/// the offset.
pub open spec fn time_to_iso(time: CivilTime, offset: CivilOffset) -> Iso8601Time {
    Iso8601Time {
        hour: time.hour as u32,
        minute: time.minute as u32,
        second: time.second as u32,
        millisecond: time.millisecond as u32,
        tz_offset_hours: offset_hours(offset.minutes as int) as i32,
        tz_offset_minutes: offset_minutes(offset.minutes as int) as i32,
    }
}

/// Writes a civil time of day and its offset from UTC in ISO 8601 form.
///
/// The two offset fields together stand for `offset` again, and each of them
/// is zero or has the sign of `offset`: -90 minutes become -1 hour and -30
/// minutes.
pub fn time_to_iso8601(time: CivilTime, offset: CivilOffset) -> (iso: Iso8601Time)
    requires
        offset.fits_iso(),
    ensures
        iso == time_to_iso(time, offset),
        iso.total_offset_minutes() == offset.minutes,
        iso.has_split_offset(),
        offset.minutes >= 0 ==> iso.tz_offset_hours >= 0 && iso.tz_offset_minutes >= 0,
        offset.minutes <= 0 ==> iso.tz_offset_hours <= 0 && iso.tz_offset_minutes <= 0,
{
    let hours: i64 = offset.minutes / 60;
    let minutes: i64 = offset.minutes % 60;
    Iso8601Time {
        hour: time.hour as u32,
        minute: time.minute as u32,
        second: time.second as u32,
        millisecond: time.millisecond as u32,
        tz_offset_hours: hours as i32,
        tz_offset_minutes: minutes as i32,
    }
}

/// Reads an ISO 8601 time as a civil time of day and an offset from UTC.
///
/// The time of day is there exactly when every component is in range, and is
/// a range failure otherwise. The offset is always there: it is the sum of
/// the two offset fields, hours counted as sixty minutes, whichever of them
/// carries the sign.
pub fn time_from_iso8601(time: Iso8601Time) -> (r: (Result<CivilTime, RangeError>, CivilOffset))
    ensures
        r.0 is Ok <==> time.is_civil(),
        r.0 matches Ok(civil) ==> time.denotes(civil),
        r.0 matches Err(error) ==> error.part == Part::Time,
        r.1.minutes == time.total_offset_minutes(),
{
    let offset = CivilOffset {
        minutes: time.tz_offset_hours as i64 * 60 + time.tz_offset_minutes as i64,
    };
    let found = time_from_hms_milli(
        clip_u8(time.hour),
        clip_u8(time.minute),
        clip_u8(time.second),
        clip_u16(time.millisecond),
    );
    let civil = match found {
        Ok((hour, minute, second, millisecond)) => Ok(
            CivilTime { hour, minute, second, millisecond },
        ),
        Err(error) => Err(RangeError { part: Part::Time, message: range_message(&error) }),
    };
    (civil, offset)
}

} // verus!
