//! The calls into the `iso8601` crate, which reads and writes the text.
//!
//! Nothing here is proved: each contract says what the crate's function is
//! taken to do. What a text is read as is the crate's business; here it only
//! has a name.

use crate::iso::{Iso8601Date, Iso8601DateTime, Iso8601Time};
use crate::numerals::{decimal, signed_zero_padded, zero_padded};
use vstd::prelude::*;

verus! {

/// What `iso8601::date` reads `text` as, or nothing where it refuses.
pub uninterp spec fn parsed_date(text: Seq<char>) -> Option<Iso8601Date>;

/// What `iso8601::time` reads `text` as, or nothing where it refuses.
pub uninterp spec fn parsed_time(text: Seq<char>) -> Option<Iso8601Time>;

/// What `iso8601::datetime` reads `text` as, or nothing where it refuses.
pub uninterp spec fn parsed_datetime(text: Seq<char>) -> Option<Iso8601DateTime>;

/// How `iso8601::Date` is displayed: the year in four digits or more, then,
/// each after a hyphen, the month and the day in two digits or more, or the
/// week and the weekday likewise, or the day of the year in three. A year
/// before year 0 has a minus sign and three digits or more.
pub open spec fn date_text(date: Iso8601Date) -> Seq<char> {
    match date {
        Iso8601Date::YMD { year, month, day } => {
            signed_zero_padded(year as int, 4) + seq!['-'] + zero_padded(month as nat, 2)
                + seq!['-'] + zero_padded(day as nat, 2)
        },
        Iso8601Date::Week { year, week, weekday } => {
            signed_zero_padded(year as int, 4) + seq!['-'] + zero_padded(week as nat, 2)
                + seq!['-'] + zero_padded(weekday as nat, 2)
        },
        Iso8601Date::Ordinal { year, day_of_year } => {
            signed_zero_padded(year as int, 4) + seq!['-'] + zero_padded(day_of_year as nat, 3)
        },
    }
}

/// How `iso8601::Time` is displayed: hour, minute and second in two digits
/// or more with colons between them, a full stop, the milliseconds in as
/// many digits as they have, a plus sign, and the hours and the minutes of
/// the offset with a colon between them, each in two digits, or with a minus
/// sign and one digit or more if it is negative.
pub open spec fn time_text(time: Iso8601Time) -> Seq<char> {
    zero_padded(time.hour as nat, 2) + seq![':'] + zero_padded(time.minute as nat, 2) + seq![':']
        + zero_padded(time.second as nat, 2) + seq!['.'] + decimal(time.millisecond as nat)
        + seq!['+'] + signed_zero_padded(time.tz_offset_hours as int, 2) + seq![':']
        + signed_zero_padded(time.tz_offset_minutes as int, 2)
}

/// What the parsers of the `iso8601` crate say of a text that they refuse:
/// a fixed opening, then the text.
pub open spec fn parser_error(text: Seq<char>) -> Seq<char> {
    "Parser Error: "@ + text
}

/// How a parser's answer is held to its name: the value that was read, or
/// the crate's words on the text that it refused.
pub open spec fn is_parse_of<T>(r: Result<T, String>, named: Option<T>, text: Seq<char>) -> bool {
    match r {
        Ok(value) => named == Some(value),
        Err(message) => named is None && message@ == parser_error(text),
    }
}

/// `iso8601::date`, which reads a date in one of the three encodings.
#[verifier::external_body]
pub(crate) fn parse_date(text: &str) -> (r: Result<Iso8601Date, String>)
    ensures
        is_parse_of(r, parsed_date(text@), text@),
{
    match iso8601::date(text)? {
        iso8601::Date::YMD { year, month, day } => Ok(Iso8601Date::YMD { year, month, day }),
        iso8601::Date::Week { year, ww, d } => Ok(Iso8601Date::Week { year, week: ww, weekday: d }),
        iso8601::Date::Ordinal { year, ddd } => Ok(Iso8601Date::Ordinal { year, day_of_year: ddd }),
    }
}

/// `iso8601::time`, which reads a time of day and, where one is written, its
/// offset from UTC.
#[verifier::external_body]
pub(crate) fn parse_time(text: &str) -> (r: Result<Iso8601Time, String>)
    ensures
        is_parse_of(r, parsed_time(text@), text@),
{
    let time = iso8601::time(text)?;
    Ok(Iso8601Time {
        hour: time.hour,
        minute: time.minute,
        second: time.second,
        millisecond: time.millisecond,
        tz_offset_hours: time.tz_offset_hours,
        tz_offset_minutes: time.tz_offset_minutes,
    })
}

/// `iso8601::datetime`, which reads a date, the letter T, and a time.
#[verifier::external_body]
pub(crate) fn parse_datetime(text: &str) -> (r: Result<Iso8601DateTime, String>)
    ensures
        is_parse_of(r, parsed_datetime(text@), text@),
{
    let iso8601::DateTime { date, time } = iso8601::datetime(text)?;
    let date = match date {
        iso8601::Date::YMD { year, month, day } => Iso8601Date::YMD { year, month, day },
        iso8601::Date::Week { year, ww, d } => Iso8601Date::Week { year, week: ww, weekday: d },
        iso8601::Date::Ordinal { year, ddd } => Iso8601Date::Ordinal { year, day_of_year: ddd },
    };
    let iso8601::Time { hour, minute, second, millisecond, tz_offset_hours, tz_offset_minutes } = time;
    let time = Iso8601Time { hour, minute, second, millisecond, tz_offset_hours, tz_offset_minutes };
    Ok(Iso8601DateTime { date, time })
}

/// The `Display` of `iso8601::Date`.
#[verifier::external_body]
pub(crate) fn write_date(date: Iso8601Date) -> (text: String)
    ensures
        text@ == date_text(date),
{
    let date = match date {
        Iso8601Date::YMD { year, month, day } => iso8601::Date::YMD { year, month, day },
        Iso8601Date::Week { year, week, weekday } => iso8601::Date::Week { year, ww: week, d: weekday },
        Iso8601Date::Ordinal { year, day_of_year } => iso8601::Date::Ordinal { year, ddd: day_of_year },
    };
    date.to_string()
}

/// The `Display` of `iso8601::Time`.
#[verifier::external_body]
pub(crate) fn write_time(time: Iso8601Time) -> (text: String)
    ensures
        text@ == time_text(time),
{
    let Iso8601Time { hour, minute, second, millisecond, tz_offset_hours, tz_offset_minutes } = time;
    let time = iso8601::Time { hour, minute, second, millisecond, tz_offset_hours, tz_offset_minutes };
    time.to_string()
}

/// The `Display` of `iso8601::DateTime`: the date as it is displayed, the
/// letter T, and the time as it is displayed.
#[verifier::external_body]
pub(crate) fn write_datetime(datetime: Iso8601DateTime) -> (text: String)
    ensures
        text@ == date_text(datetime.date) + seq!['T'] + time_text(datetime.time),
{
    let date = match datetime.date {
        Iso8601Date::YMD { year, month, day } => iso8601::Date::YMD { year, month, day },
        Iso8601Date::Week { year, week, weekday } => iso8601::Date::Week { year, ww: week, d: weekday },
        Iso8601Date::Ordinal { year, day_of_year } => iso8601::Date::Ordinal { year, ddd: day_of_year },
    };
    let Iso8601Time { hour, minute, second, millisecond, tz_offset_hours, tz_offset_minutes } = datetime.time;
    let time = iso8601::Time { hour, minute, second, millisecond, tz_offset_hours, tz_offset_minutes };
    iso8601::DateTime { date, time }.to_string()
}

} // verus!
