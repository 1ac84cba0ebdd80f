//! What holds of the conversions taken together.

use crate::calendar::{
    has_iso_week_date, lemma_day_number_injective, lemma_day_of_year_bounds,
    lemma_day_of_year_exists, lemma_day_of_year_injective, lemma_one_week_date,
    lemma_week_date_exists, lemma_week_date_of_its_day,
};
use crate::civil::{CivilDate, CivilDateTime, CivilOffset, CivilTime};
use crate::date_conv::date_to_iso;
use crate::datetime_conv::datetime_to_iso;
use crate::iso::{Iso8601Date, Iso8601DateTime, Iso8601Time};
use crate::time_conv::{offset_hours, offset_minutes, time_to_iso};
use vstd::prelude::*;

verus! {

/// An ISO 8601 date is a way of writing one civil date at most, and one that
/// writes a civil date is what reading accepts.
pub proof fn lemma_date_denoted_once(iso: Iso8601Date, a: CivilDate, b: CivilDate)
    requires
        iso.denotes(a),
        iso.denotes(b),
    ensures
        a == b,
        iso.is_civil(),
{
    match iso {
        Iso8601Date::YMD { .. } => {},
        Iso8601Date::Week { year, .. } => {
            if year >= 1 {
                lemma_day_number_injective(
                    a.year as int,
                    a.month as int,
                    a.day as int,
                    b.year as int,
                    b.month as int,
                    b.day as int,
                );
            }
        },
        Iso8601Date::Ordinal { year, .. } => {
            lemma_day_of_year_bounds(year as int, a.month as int, a.day as int);
            lemma_day_of_year_injective(
                year as int,
                a.month as int,
                a.day as int,
                b.month as int,
                b.day as int,
            );
        },
    }
}

/// Every ISO 8601 date that reading accepts is a way of writing a civil
/// date, which is given. Week dates before year 1 are left out: they are read
/// as the calendar library reads them.
pub proof fn lemma_accepted_date_is_denoted(iso: Iso8601Date) -> (civil: CivilDate)
    requires
        iso.is_civil(),
        iso matches Iso8601Date::Week { year, .. } ==> year >= 1,
    ensures
        iso.denotes(civil),
{
    match iso {
        Iso8601Date::YMD { year, month, day } => CivilDate {
            year,
            month: month as u8,
            day: day as u8,
        },
        Iso8601Date::Week { year, week, weekday } => {
            let (y, m, d) = lemma_week_date_exists(year as int, week as int, weekday as int);
            CivilDate { year: y as i32, month: m as u8, day: d as u8 }
        },
        Iso8601Date::Ordinal { year, day_of_year } => {
            let (m, d) = lemma_day_of_year_exists(year as int, day_of_year as int);
            CivilDate { year, month: m as u8, day: d as u8 }
        },
    }
}

/// An ISO 8601 datetime is a way of writing one civil datetime at most.
pub proof fn lemma_datetime_denoted_once(iso: Iso8601DateTime, a: CivilDateTime, b: CivilDateTime)
    requires
        iso.denotes(a),
        iso.denotes(b),
    ensures
        a == b,
        iso.is_civil(),
{
    lemma_date_denoted_once(iso.date, a.date, b.date);
}

/// Writing a valid civil date and reading it back gives the same date: what
/// is written is accepted, and it is a way of writing that date and no
/// other.
pub proof fn lemma_date_round_trip(date: CivilDate)
    requires
        date.is_valid(),
    ensures
        date_to_iso(date).is_civil(),
        date_to_iso(date).denotes(date),
        forall|other: CivilDate| #[trigger] date_to_iso(date).denotes(other) ==> other == date,
{
}

/// Splitting an offset into hours and minutes and adding the two up again
/// gives the same offset, whatever the offset: the minutes stay under an
/// hour, and neither part points the other way from the offset.
pub proof fn lemma_offset_split(total: int)
    ensures
        offset_hours(total) * 60 + offset_minutes(total) == total,
        -60 < offset_minutes(total) < 60,
        total >= 0 ==> offset_hours(total) >= 0 && offset_minutes(total) >= 0,
        total <= 0 ==> offset_hours(total) <= 0 && offset_minutes(total) <= 0,
{
}

/// Writing a valid civil time of day at an offset and reading it back gives
/// the same time of day and the same offset.
pub proof fn lemma_time_round_trip(time: CivilTime, offset: CivilOffset)
    requires
        time.is_valid(),
        offset.fits_iso(),
    ensures
        time_to_iso(time, offset).is_civil(),
        time_to_iso(time, offset).denotes(time),
        time_to_iso(time, offset).total_offset_minutes() == offset.minutes,
        time_to_iso(time, offset).has_split_offset(),
{
    lemma_offset_split(offset.minutes as int);
}

/// Writing a valid civil datetime and reading it back gives the same date,
/// the same time of day and the same offset.
pub proof fn lemma_datetime_round_trip(datetime: CivilDateTime)
    requires
        datetime.is_valid(),
        datetime.offset.fits_iso(),
    ensures
        datetime_to_iso(datetime).is_civil(),
        datetime_to_iso(datetime).denotes(datetime),
        forall|other: CivilDateTime| #[trigger]
            datetime_to_iso(datetime).denotes(other) ==> other == datetime,
{
    lemma_date_round_trip(datetime.date);
    lemma_time_round_trip(datetime.time, datetime.offset);
    assert forall|other: CivilDateTime| #[trigger]
        datetime_to_iso(datetime).denotes(other) implies other == datetime by {
        lemma_datetime_denoted_once(datetime_to_iso(datetime), datetime, other);
    }
}

/// The civil date that a week date of year 1 or later is read as has that
/// very year, week and weekday in ISO week numbering, and no other.
pub proof fn lemma_week_date_round_trip(year: i32, week: u32, weekday: u32, civil: CivilDate)
    requires
        year >= 1,
        (Iso8601Date::Week { year, week, weekday }).denotes(civil),
    ensures
        has_iso_week_date(civil.day_number(), year as int, week as int, weekday as int),
        forall|y: int, w: int, d: int| #[trigger]
            has_iso_week_date(civil.day_number(), y, w, d) ==> y == year && w == week && d
                == weekday,
{
    lemma_week_date_of_its_day(year as int, week as int, weekday as int);
    assert forall|y: int, w: int, d: int| #[trigger]
        has_iso_week_date(civil.day_number(), y, w, d) implies y == year && w == week && d
        == weekday by {
        lemma_one_week_date(
            civil.day_number(),
            y,
            w,
            d,
            year as int,
            week as int,
            weekday as int,
        );
    }
}

} // verus!
