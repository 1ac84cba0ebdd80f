//! The proleptic Gregorian calendar as mathematics: leap years, lengths of
//! months, day numbers, weekdays and ISO 8601 week numbering.
//!
//! Years use astronomical numbering (year 0 exists and is a leap year). Day 1
//! is 1 January of year 1, a Monday.

use vstd::prelude::*;

verus! {

/// The earliest year a civil date may have.
pub const MIN_YEAR: i32 = -100_000;

/// The latest year a civil date may have.
pub const MAX_YEAR: i32 = 100_000;

/// A day of the week.
#[derive(Clone, Copy, Debug, PartialEq, Eq, Hash, Structural)]
pub enum Weekday {
    Monday,
    Tuesday,
    Wednesday,
    Thursday,
    Friday,
    Saturday,
    Sunday,
}

impl Weekday {
    /// The ISO number of the day: 1 for Monday to 7 for Sunday.
    pub open spec fn iso_number(self) -> int {
        match self {
            Weekday::Monday => 1,
            Weekday::Tuesday => 2,
            Weekday::Wednesday => 3,
            Weekday::Thursday => 4,
            Weekday::Friday => 5,
            Weekday::Saturday => 6,
            Weekday::Sunday => 7,
        }
    }

    /// The day with ISO number `number`, if `number` is one: 1 is Monday and
    /// 7 is Sunday.
    pub fn from_iso_number(number: u32) -> (day: Option<Weekday>)
        ensures
            day is Some <==> 1 <= number <= 7,
            day matches Some(d) ==> d.iso_number() == number,
    {
        match number {
            1 => Some(Weekday::Monday),
            2 => Some(Weekday::Tuesday),
            3 => Some(Weekday::Wednesday),
            4 => Some(Weekday::Thursday),
            5 => Some(Weekday::Friday),
            6 => Some(Weekday::Saturday),
            7 => Some(Weekday::Sunday),
            _ => None,
        }
    }
}

/// Whether `year` has a 29 February.
pub open spec fn is_leap_year(year: int) -> bool {
    year % 4 == 0 && (year % 100 != 0 || year % 400 == 0)
}

/// The number of days in `year`.
pub open spec fn days_in_year(year: int) -> int {
    if is_leap_year(year) {
        366
    } else {
        365
    }
}

/// The number of days in `month` (1 to 12) of `year`.
pub open spec fn days_in_month(year: int, month: int) -> int {
    if month == 2 {
        if is_leap_year(year) {
            29
        } else {
            28
        }
    } else if month == 4 || month == 6 || month == 9 || month == 11 {
        30
    } else {
        31
    }
}

/// Whether `month` and `day` name a day that exists in `year`.
pub open spec fn is_calendar_day(year: int, month: int, day: int) -> bool {
    1 <= month <= 12 && 1 <= day <= days_in_month(year, month)
}

/// The number of days of `year` that lie before the first of `month`.
pub open spec fn days_before_month(year: int, month: int) -> int
    decreases month,
{
    if month <= 1 {
        0
    } else {
        days_before_month(year, month - 1) + days_in_month(year, month - 1)
    }
}

/// The position of a day within its year: 1 for 1 January.
pub open spec fn day_of_year(year: int, month: int, day: int) -> int {
    days_before_month(year, month) + day
}

/// The number of days from 1 January of year 1 up to, and not including,
/// 1 January of `year`. Negative for years before year 1.
pub open spec fn days_before_year(year: int) -> int {
    let y = year - 1;
    365 * y + y / 4 - y / 100 + y / 400
}

/// The number of a day on the unbounded line of days: 1 for 1 January of
/// year 1, growing by one from each day to the next.
pub open spec fn day_number(year: int, month: int, day: int) -> int {
    days_before_year(year) + day_of_year(year, month, day)
}

/// The ISO weekday of the day with number `n`: 1 for Monday to 7 for Sunday.
pub open spec fn weekday_of(n: int) -> int {
    (n - 1) % 7 + 1
}

/// The day number of the Monday that begins ISO week 1 of `year`: the Monday
/// of the week that holds 4 January.
pub open spec fn week_one_monday(year: int) -> int {
    let jan4 = days_before_year(year) + 4;
    jan4 - (weekday_of(jan4) - 1)
}

/// The number of weeks in the ISO week-numbering year `year`: 53 when
/// 1 January is a Thursday, or a Wednesday in a leap year, and 52 otherwise.
pub open spec fn iso_weeks_in_year(year: int) -> int {
    let jan1 = weekday_of(days_before_year(year) + 1);
    if jan1 == 4 || (jan1 == 3 && is_leap_year(year)) {
        53
    } else {
        52
    }
}

/// The day number of the day with ISO weekday `weekday` in week `week` of the
/// ISO week-numbering year `year`.
pub open spec fn iso_week_day_number(year: int, week: int, weekday: int) -> int {
    week_one_monday(year) + 7 * (week - 1) + (weekday - 1)
}

/// Whether the day with number `n` is the one written `year`-W`week`-`weekday`
/// in ISO week numbering.
pub open spec fn has_iso_week_date(n: int, year: int, week: int, weekday: int) -> bool {
    &&& week_one_monday(year) <= n < week_one_monday(year + 1)
    &&& week == (n - week_one_monday(year)) / 7 + 1
    &&& weekday == weekday_of(n)
}

/// The days before each month, written out.
pub proof fn lemma_days_before_month(year: int, month: int)
    requires
        1 <= month <= 13,
    ensures
        days_before_month(year, month) == (if month == 1 {
            0int
        } else if month == 2 {
            31
        } else {
            let leap: int = if is_leap_year(year) { 1 } else { 0 };
            leap + (if month == 3 {
                59int
            } else if month == 4 {
                90
            } else if month == 5 {
                120
            } else if month == 6 {
                151
            } else if month == 7 {
                181
            } else if month == 8 {
                212
            } else if month == 9 {
                243
            } else if month == 10 {
                273
            } else if month == 11 {
                304
            } else if month == 12 {
                334
            } else {
                365
            })
        }),
{
    reveal_with_fuel(days_before_month, 14);
}

/// A year's days are those of its twelve months.
pub proof fn lemma_days_in_year(year: int)
    ensures
        days_before_month(year, 13) == days_in_year(year),
{
    lemma_days_before_month(year, 13);
}

/// Within a year, the day of the year runs from 1 to the year's length.
pub proof fn lemma_day_of_year_bounds(year: int, month: int, day: int)
    requires
        is_calendar_day(year, month, day),
    ensures
        1 <= day_of_year(year, month, day) <= days_in_year(year),
        days_before_month(year, month) < day_of_year(year, month, day) <= days_before_month(
            year,
            month + 1,
        ),
{
    lemma_days_before_month(year, month);
    lemma_days_before_month(year, month + 1);
}

/// Within a year, no two days share a day of the year.
pub proof fn lemma_day_of_year_injective(year: int, m1: int, d1: int, m2: int, d2: int)
    requires
        is_calendar_day(year, m1, d1),
        is_calendar_day(year, m2, d2),
        day_of_year(year, m1, d1) == day_of_year(year, m2, d2),
    ensures
        m1 == m2,
        d1 == d2,
{
    lemma_days_before_month(year, m1);
    lemma_days_before_month(year, m1 + 1);
    lemma_days_before_month(year, m2);
    lemma_days_before_month(year, m2 + 1);
}

/// Each year begins when the year before it has run out.
pub proof fn lemma_days_before_next_year(year: int)
    ensures
        days_before_year(year + 1) == days_before_year(year) + days_in_year(year),
{
}

/// Later years begin later, by at least 365 days for each year between.
pub proof fn lemma_days_before_year_grows(earlier: int, later: int)
    requires
        earlier <= later,
    ensures
        days_before_year(later) - days_before_year(earlier) >= 365 * (later - earlier) - 2,
        earlier < later ==> days_before_year(earlier) + days_in_year(earlier) <= days_before_year(
            later,
        ),
{
}

/// No two days that exist share a day number.
pub proof fn lemma_day_number_injective(y1: int, m1: int, d1: int, y2: int, m2: int, d2: int)
    requires
        is_calendar_day(y1, m1, d1),
        is_calendar_day(y2, m2, d2),
        day_number(y1, m1, d1) == day_number(y2, m2, d2),
    ensures
        y1 == y2,
        m1 == m2,
        d1 == d2,
{
    lemma_day_of_year_bounds(y1, m1, d1);
    lemma_day_of_year_bounds(y2, m2, d2);
    if y1 < y2 {
        lemma_days_before_year_grows(y1, y2);
    } else if y2 < y1 {
        lemma_days_before_year_grows(y2, y1);
    } else {
        lemma_day_of_year_injective(y1, m1, d1, m2, d2);
    }
}

/// ISO week 1 begins on a Monday, within three days of 1 January.
pub proof fn lemma_week_one_monday(year: int)
    ensures
        weekday_of(week_one_monday(year)) == 1,
        days_before_year(year) - 2 <= week_one_monday(year) <= days_before_year(year) + 4,
{
}

/// The arithmetic of [`lemma_iso_weeks_tile`], with the day numbers of the
/// two new years taken as given.
proof fn lemma_weeks_between_mondays(a: int, b: int, leap: bool)
    requires
        b == a + 365 + (if leap { 1int } else { 0 }),
    ensures
        b + 4 - (b + 3) % 7 == a + 4 - (a + 3) % 7 + 7 * (if a % 7 == 3 || (a % 7 == 2 && leap) {
            53int
        } else {
            52
        }),
{
    let q = a / 7;
    let r = a % 7;
    assert(a == 7 * q + r && 0 <= r < 7);
    if leap {
        assert(b + 3 == 7 * (q + 52) + r + 5);
    } else {
        assert(b + 3 == 7 * (q + 52) + r + 4);
    }
}

/// The weeks of an ISO year fill the span from its week 1 to week 1 of the
/// next year.
pub proof fn lemma_iso_weeks_tile(year: int)
    ensures
        week_one_monday(year + 1) == week_one_monday(year) + 7 * iso_weeks_in_year(year),
{
    let a = days_before_year(year);
    let b = days_before_year(year + 1);
    lemma_days_before_next_year(year);
    lemma_weeks_between_mondays(a, b, is_leap_year(year));
}

/// Week 1 of a later ISO year begins no earlier.
pub proof fn lemma_week_one_monday_grows(earlier: int, later: int)
    requires
        earlier <= later,
    ensures
        week_one_monday(earlier) <= week_one_monday(later),
{
    if earlier < later {
        lemma_days_before_year_grows(earlier, later);
        lemma_week_one_monday(earlier);
        lemma_week_one_monday(later);
    }
}

/// The arithmetic of [`lemma_week_date_of_its_day`], with the Monday of
/// week 1 taken as given.
proof fn lemma_day_within_week(monday: int, week: int, weekday: int)
    requires
        (monday - 1) % 7 == 0,
        1 <= weekday <= 7,
    ensures
        (7 * (week - 1) + (weekday - 1)) / 7 + 1 == week,
        (monday + 7 * (week - 1) + (weekday - 1) - 1) % 7 + 1 == weekday,
{
    let q = (monday - 1) / 7;
    assert(monday - 1 == 7 * q);
    assert(monday + 7 * (week - 1) + (weekday - 1) - 1 == 7 * (q + week - 1) + (weekday - 1));
}

/// The day that a week date names has that week date. The week must be one
/// that the year has.
pub proof fn lemma_week_date_of_its_day(year: int, week: int, weekday: int)
    requires
        1 <= week <= iso_weeks_in_year(year),
        1 <= weekday <= 7,
    ensures
        has_iso_week_date(iso_week_day_number(year, week, weekday), year, week, weekday),
{
    let monday = week_one_monday(year);
    lemma_iso_weeks_tile(year);
    lemma_week_one_monday(year);
    lemma_day_within_week(monday, week, weekday);
}

/// A day has one week date only.
pub proof fn lemma_one_week_date(
    n: int,
    year1: int,
    week1: int,
    weekday1: int,
    year2: int,
    week2: int,
    weekday2: int,
)
    requires
        has_iso_week_date(n, year1, week1, weekday1),
        has_iso_week_date(n, year2, week2, weekday2),
    ensures
        year1 == year2,
        week1 == week2,
        weekday1 == weekday2,
{
    if year1 < year2 {
        lemma_week_one_monday_grows(year1 + 1, year2);
    } else if year2 < year1 {
        lemma_week_one_monday_grows(year2 + 1, year1);
    }
}

/// Every position within a year, from `month` on, is that of a day of the
/// year.
proof fn lemma_day_of_year_exists_from(year: int, ordinal: int, month: int) -> (found: (int, int))
    requires
        1 <= month <= 12,
        days_before_month(year, month) < ordinal <= days_before_month(year, 13),
    ensures
        is_calendar_day(year, found.0, found.1),
        day_of_year(year, found.0, found.1) == ordinal,
    decreases 12 - month,
{
    lemma_days_before_month(year, month);
    lemma_days_before_month(year, month + 1);
    if ordinal <= days_before_month(year, month + 1) {
        (month, ordinal - days_before_month(year, month))
    } else {
        lemma_day_of_year_exists_from(year, ordinal, month + 1)
    }
}

/// Every position within a year is that of a day of the year.
pub proof fn lemma_day_of_year_exists(year: int, ordinal: int) -> (found: (int, int))
    requires
        1 <= ordinal <= days_in_year(year),
    ensures
        is_calendar_day(year, found.0, found.1),
        day_of_year(year, found.0, found.1) == ordinal,
{
    lemma_days_before_month(year, 1);
    lemma_days_in_year(year);
    lemma_day_of_year_exists_from(year, ordinal, 1)
}

/// Every week date of a year from 1 to [`MAX_YEAR`] names a day that exists,
/// in a year from 1 to [`MAX_YEAR`].
pub proof fn lemma_week_date_exists(year: int, week: int, weekday: int) -> (found: (int, int, int))
    requires
        1 <= year <= MAX_YEAR,
        1 <= week <= iso_weeks_in_year(year),
        1 <= weekday <= 7,
    ensures
        1 <= found.0 <= MAX_YEAR,
        is_calendar_day(found.0, found.1, found.2),
        day_number(found.0, found.1, found.2) == iso_week_day_number(year, week, weekday),
{
    let n = iso_week_day_number(year, week, weekday);
    let ordinal = n - days_before_year(year);
    lemma_week_one_monday(year);
    lemma_week_one_monday(year + 1);
    lemma_iso_weeks_tile(year);
    lemma_days_before_next_year(year);
    if ordinal < 1 {
        assert(year > 1) by {
            assert(week_one_monday(1) == 1);
        }
        lemma_days_before_next_year(year - 1);
        let (month, day) = lemma_day_of_year_exists(year - 1, ordinal + days_in_year(year - 1));
        (year - 1, month, day)
    } else if ordinal > days_in_year(year) {
        assert(year < MAX_YEAR) by {
            assert(week_one_monday(MAX_YEAR + 1) == days_before_year(MAX_YEAR + 1) + 1);
        }
        let (month, day) = lemma_day_of_year_exists(year + 1, ordinal - days_in_year(year));
        (year + 1, month, day)
    } else {
        let (month, day) = lemma_day_of_year_exists(year, ordinal);
        (year, month, day)
    }
}

} // verus!
