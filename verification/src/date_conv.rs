//! Civil dates to and from the three ISO 8601 date encodings.

use crate::calendar::{
    days_in_year, is_calendar_day, iso_week_day_number, iso_weeks_in_year, Weekday, MAX_YEAR,
    MIN_YEAR,
};
use crate::civil::CivilDate;
use crate::clip::{clip_u16, clip_u8, clipped_u8};
use crate::error::{Part, RangeError};
use crate::iso::Iso8601Date;
use crate::time_calls::{
    date_from_iso_week, date_from_ordinal, date_from_ymd, early_week_date, range_message,
};
use vstd::prelude::*;

verus! {

impl Iso8601Date {
    /// Whether this is a way of writing the civil date `civil`.
    ///
    /// A calendar date names the civil date with the same components. An
    /// ordinal date names the day at that position in its year. A week date
    /// of year 1 or later names the day that lies `week - 1` weeks and
    /// `weekday - 1` days after the Monday of the week of 4 January; of
    /// earlier years, the day that the calendar library makes of it.
    pub open spec fn denotes(self, civil: CivilDate) -> bool {
        civil.is_valid() && match self {
            Iso8601Date::YMD { year, month, day } => {
                civil.year == year && civil.month == month && civil.day == day
            },
            Iso8601Date::Week { year, week, weekday } => {
                1 <= weekday <= 7 && if year >= 1 {
                    &&& year <= MAX_YEAR
                    &&& 1 <= week <= iso_weeks_in_year(year as int)
                    &&& civil.day_number() == iso_week_day_number(
                        year as int,
                        week as int,
                        weekday as int,
                    )
                } else {
                    early_week_date(year as int, clipped_u8(week) as int, weekday as int) == Some(
                        (civil.year as int, civil.month as int, civil.day as int),
                    )
                }
            },
            Iso8601Date::Ordinal { year, day_of_year } => {
                civil.year == year && civil.day_of_year() == day_of_year
            },
        }
    }

    /// Whether this is a way of writing some civil date.
    pub open spec fn is_civil(self) -> bool {
        match self {
            Iso8601Date::YMD { year, month, day } => {
                MIN_YEAR <= year <= MAX_YEAR && is_calendar_day(
                    year as int,
                    month as int,
                    day as int,
                )
            },
            Iso8601Date::Week { year, week, weekday } => {
                1 <= weekday <= 7 && if year >= 1 {
                    year <= MAX_YEAR && 1 <= week <= iso_weeks_in_year(year as int)
                } else {
                    early_week_date(year as int, clipped_u8(week) as int, weekday as int) is Some
                }
            },
            Iso8601Date::Ordinal { year, day_of_year } => {
                MIN_YEAR <= year <= MAX_YEAR && 1 <= day_of_year <= days_in_year(year as int)
            },
        }
    }
}

/// What a range failure says of a weekday that is none.
pub open spec fn weekday_out_of_range() -> Seq<char> {
    "weekday must be in the range 1..=7"@
}

/// The calendar form of `date`.
pub open spec fn date_to_iso(date: CivilDate) -> Iso8601Date {
    Iso8601Date::YMD { year: date.year, month: date.month as u32, day: date.day as u32 }
}

/// Writes a civil date in ISO 8601 form: always as a calendar date, never as
/// a week date or an ordinal date.
pub fn date_to_iso8601(date: CivilDate) -> (iso: Iso8601Date)
    ensures
        iso == date_to_iso(date),
{
    Iso8601Date::YMD { year: date.year, month: date.month as u32, day: date.day as u32 }
}

/// Takes what the calendar library made of a date into the library's own
/// terms: the year, month and day that it found become a civil date, and its
/// refusal becomes a range failure of the date with its description.
pub fn date_as_found(found: Result<(i32, u8, u8), time::error::ComponentRange>) -> (r: Result<
    CivilDate,
    RangeError,
>)
    ensures
        match found {
            Ok((year, month, day)) => r == Ok::<CivilDate, RangeError>(
                CivilDate { year, month, day },
            ),
            Err(_) => r matches Err(error) && error.part == Part::Date,
        },
{
    match found {
        Ok((year, month, day)) => Ok(CivilDate { year, month, day }),
        Err(error) => Err(RangeError { part: Part::Date, message: range_message(&error) }),
    }
}

/// Reads an ISO 8601 date in any of its three encodings as a civil date.
///
/// Succeeds exactly when the components name a day that exists,
/// and then gives that day. A month, day, week, weekday or day of the year
/// out of range, a week 53 in a year that has 52, and a year outside
/// [`MIN_YEAR`] to [`MAX_YEAR`] are range failures.
pub fn date_from_iso8601(date: Iso8601Date) -> (r: Result<CivilDate, RangeError>)
    ensures
        r is Ok <==> date.is_civil(),
        r matches Ok(civil) ==> date.denotes(civil),
        r matches Err(error) ==> error.part == Part::Date,
        r matches Err(error) ==> (date matches Iso8601Date::Week { weekday, .. } && !(1 <= weekday
            <= 7) ==> error.message@ == weekday_out_of_range()),
{
    match date {
        Iso8601Date::YMD { year, month, day } => {
            date_as_found(date_from_ymd(year, clip_u8(month), clip_u8(day)))
        },
        Iso8601Date::Week { year, week, weekday } => {
            match Weekday::from_iso_number(weekday) {
                Some(day) => date_as_found(date_from_iso_week(year, clip_u8(week), day)),
                None => Err(
                    RangeError {
                        part: Part::Date,
                        message: "weekday must be in the range 1..=7".to_owned(),
                    },
                ),
            }
        },
        Iso8601Date::Ordinal { year, day_of_year } => {
            date_as_found(date_from_ordinal(year, clip_u16(day_of_year)))
        },
    }
}

} // verus!
