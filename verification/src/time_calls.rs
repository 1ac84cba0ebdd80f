//! The calls into the `time` crate, which validates civil values and turns
//! week dates and ordinal dates into calendar dates.
//!
//! Nothing here is proved: each contract says what the crate's function is
//! taken to do.

use crate::calendar::{
    day_number, day_of_year, days_in_year, is_calendar_day, iso_week_day_number,
    iso_weeks_in_year, Weekday, MAX_YEAR, MIN_YEAR,
};
use vstd::prelude::*;

verus! {

/// The `time` crate's report that a component is out of range.
#[verifier::external_type_specification]
#[verifier::external_body]
pub struct ExComponentRange(time::error::ComponentRange);

/// What `time::Date::try_from_iso_ywd` makes of a week date whose year lies
/// before year 1: the year, month and day of the date, or nothing where it
/// refuses. In those years the crate counts weekdays in its own way, of which
/// nothing is claimed here.
pub uninterp spec fn early_week_date(year: int, week: int, weekday: int) -> Option<(int, int, int)>;

/// `time::Date::try_from_ymd`, read back with `as_ymd`.
///
/// The crate accepts exactly the days that exist in the years from
/// [`MIN_YEAR`] to [`MAX_YEAR`], and the date it builds has the components
/// it was given.
#[verifier::external_body]
pub(crate) fn date_from_ymd(year: i32, month: u8, day: u8) -> (r: Result<(i32, u8, u8), time::error::ComponentRange>)
    ensures
        r is Ok <==> (MIN_YEAR <= year <= MAX_YEAR && is_calendar_day(year as int, month as int, day as int)),
        r matches Ok(ymd) ==> ymd == (year, month, day),
{
    match time::Date::try_from_ymd(year, month, day) {
        Ok(date) => Ok(date.as_ymd()),
        Err(error) => Err(error),
    }
}

/// `time::Date::try_from_yo`, read back with `as_ymd`.
///
/// The crate accepts a day of the year from 1 to the length of the year, in
/// the years from [`MIN_YEAR`] to [`MAX_YEAR`], and builds the date of that
/// year which lies at that position.
#[verifier::external_body]
pub(crate) fn date_from_ordinal(year: i32, ordinal: u16) -> (r: Result<(i32, u8, u8), time::error::ComponentRange>)
    ensures
        r is Ok <==> (MIN_YEAR <= year <= MAX_YEAR && 1 <= ordinal <= days_in_year(year as int)),
        r matches Ok(ymd) ==> {
            &&& ymd.0 == year
            &&& is_calendar_day(year as int, ymd.1 as int, ymd.2 as int)
            &&& day_of_year(year as int, ymd.1 as int, ymd.2 as int) == ordinal
        },
{
    match time::Date::try_from_yo(year, ordinal) {
        Ok(date) => Ok(date.as_ymd()),
        Err(error) => Err(error),
    }
}

/// `time::Date::try_from_iso_ywd`, read back with `as_ymd`.
///
/// Whatever the crate builds is a day that exists, in a year from
/// [`MIN_YEAR`] to [`MAX_YEAR`]. From year 1 on it accepts the weeks 1 to 52,
/// and 53 in the years that have it, and builds the day that lies `week - 1`
/// weeks and `weekday - 1` days after the Monday of the week of 4 January.
/// For earlier years the outcome is only given its name, [`early_week_date`].
#[verifier::external_body]
pub(crate) fn date_from_iso_week(year: i32, week: u8, weekday: Weekday) -> (r: Result<(i32, u8, u8), time::error::ComponentRange>)
    ensures
        r matches Ok(ymd) ==> {
            &&& MIN_YEAR <= ymd.0 <= MAX_YEAR
            &&& is_calendar_day(ymd.0 as int, ymd.1 as int, ymd.2 as int)
        },
        year >= 1 ==> (r is Ok <==> (year <= MAX_YEAR && 1 <= week <= iso_weeks_in_year(year as int))),
        year >= 1 ==> (r matches Ok(ymd) ==> day_number(ymd.0 as int, ymd.1 as int, ymd.2 as int)
            == iso_week_day_number(year as int, week as int, weekday.iso_number())),
        year < 1 ==> (match r {
            Ok(ymd) => early_week_date(year as int, week as int, weekday.iso_number()) == Some(
                (ymd.0 as int, ymd.1 as int, ymd.2 as int),
            ),
            Err(_) => early_week_date(year as int, week as int, weekday.iso_number()) is None,
        }),
{
    let day = match weekday {
        Weekday::Monday => time::Weekday::Monday,
        Weekday::Tuesday => time::Weekday::Tuesday,
        Weekday::Wednesday => time::Weekday::Wednesday,
        Weekday::Thursday => time::Weekday::Thursday,
        Weekday::Friday => time::Weekday::Friday,
        Weekday::Saturday => time::Weekday::Saturday,
        Weekday::Sunday => time::Weekday::Sunday,
    };
    match time::Date::try_from_iso_ywd(year, week, day) {
        Ok(date) => Ok(date.as_ymd()),
        Err(error) => Err(error),
    }
}

/// `time::Time::try_from_hms_milli`, read back with `hour`, `minute`,
/// `second` and `millisecond`.
///
/// The crate accepts hours under 24, minutes and seconds under 60 and
/// milliseconds under 1000, and the time it builds has the components it was
/// given.
#[verifier::external_body]
pub(crate) fn time_from_hms_milli(hour: u8, minute: u8, second: u8, millisecond: u16) -> (r: Result<(u8, u8, u8, u16), time::error::ComponentRange>)
    ensures
        r is Ok <==> (hour < 24 && minute < 60 && second < 60 && millisecond < 1000),
        r matches Ok(hms) ==> hms == (hour, minute, second, millisecond),
{
    match time::Time::try_from_hms_milli(hour, minute, second, millisecond) {
        Ok(time) => Ok((time.hour(), time.minute(), time.second(), time.millisecond())),
        Err(error) => Err(error),
    }
}

/// The `Display` of `time::error::ComponentRange`: the crate's description of
/// what was out of range. Nothing is claimed of the wording.
#[verifier::external_body]
pub(crate) fn range_message(error: &time::error::ComponentRange) -> (message: String) {
    error.to_string()
}

} // verus!
