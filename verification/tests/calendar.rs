use iso8601_time::civil::CivilDate;
use iso8601_time::date_from_iso8601;
use iso8601_time::iso::Iso8601Date;

// The calendar, worked out here once more in plain arithmetic, to hold the
// conversions to it over whole ranges of years.

fn is_leap_year(year: i64) -> bool {
    year.rem_euclid(4) == 0 && (year.rem_euclid(100) != 0 || year.rem_euclid(400) == 0)
}

fn days_in_year(year: i64) -> i64 {
    if is_leap_year(year) {
        366
    } else {
        365
    }
}

fn days_in_month(year: i64, month: i64) -> i64 {
    match month {
        2 if is_leap_year(year) => 29,
        2 => 28,
        4 | 6 | 9 | 11 => 30,
        _ => 31,
    }
}

fn is_a_day(year: i64, month: i64, day: i64) -> bool {
    (-100_000..=100_000).contains(&year)
        && (1..=12).contains(&month)
        && 1 <= day
        && day <= days_in_month(year, month)
}

fn day_of_year(date: CivilDate) -> i64 {
    let mut days: i64 = i64::from(date.day);
    let mut month: i64 = 1;
    while month < i64::from(date.month) {
        days += days_in_month(i64::from(date.year), month);
        month += 1;
    }
    days
}

fn days_before_year(year: i64) -> i64 {
    let before: i64 = year - 1;
    365 * before + before.div_euclid(4) - before.div_euclid(100) + before.div_euclid(400)
}

fn day_number(date: CivilDate) -> i64 {
    days_before_year(i64::from(date.year)) + day_of_year(date)
}

fn weekday_of(number: i64) -> i64 {
    (number - 1).rem_euclid(7) + 1
}

fn week_one_monday(year: i64) -> i64 {
    let fourth: i64 = days_before_year(year) + 4;
    fourth - (weekday_of(fourth) - 1)
}

fn weeks_in_year(year: i64) -> i64 {
    let first: i64 = weekday_of(days_before_year(year) + 1);
    if first == 4 || (first == 3 && is_leap_year(year)) {
        53
    } else {
        52
    }
}

fn is_valid(date: CivilDate) -> bool {
    is_a_day(i64::from(date.year), i64::from(date.month), i64::from(date.day))
}

fn check_week_dates_from_year_one(first: i32, last: i32) {
    for year in first..=last {
        let monday: i64 = week_one_monday(i64::from(year));
        let weeks: i64 = weeks_in_year(i64::from(year));
        assert_eq!(week_one_monday(i64::from(year) + 1), monday + 7 * weeks);
        for week in 0..=54u32 {
            for weekday in 1..=7u32 {
                let read = date_from_iso8601(Iso8601Date::Week { year, week, weekday });
                let owed: bool = year <= 100_000 && 1 <= week && i64::from(week) <= weeks;
                assert_eq!(read.is_ok(), owed, "{}-W{}-{}", year, week, weekday);
                if let Ok(date) = read {
                    assert!(is_valid(date), "{}-W{}-{}", year, week, weekday);
                    assert_eq!(
                        day_number(date),
                        monday + 7 * (i64::from(week) - 1) + (i64::from(weekday) - 1),
                        "{}-W{}-{}",
                        year,
                        week,
                        weekday
                    );
                    assert_eq!(weekday_of(day_number(date)), i64::from(weekday));
                    let found = time::Date::try_from_ymd(date.year, date.month, date.day).unwrap();
                    assert_eq!(found.iso_year_week(), (year, week as u8));
                    assert_eq!(u32::from(found.weekday().iso_weekday_number()), weekday);
                }
            }
        }
    }
}

fn check_week_dates_before_year_one(first: i32, last: i32) {
    for year in first..=last {
        for week in 0..=54u32 {
            for weekday in 1..=7u32 {
                let read = date_from_iso8601(Iso8601Date::Week { year, week, weekday });
                if let Ok(date) = read {
                    assert!(is_valid(date), "{}-W{}-{}", year, week, weekday);
                }
            }
        }
    }
}

fn check_ordinal_dates(first: i32, last: i32) {
    for year in first..=last {
        let length: i64 = days_in_year(i64::from(year));
        for day in 0..=367u32 {
            let read = date_from_iso8601(Iso8601Date::Ordinal { year, day_of_year: day });
            let owed: bool =
                (-100_000..=100_000).contains(&year) && 1 <= day && i64::from(day) <= length;
            assert_eq!(read.is_ok(), owed, "{}-{}", year, day);
            if let Ok(date) = read {
                assert!(is_valid(date), "{}-{}", year, day);
                assert_eq!(date.year, year);
                assert_eq!(day_of_year(date), i64::from(day));
            }
        }
    }
}

fn check_calendar_dates(first: i32, last: i32) {
    for year in first..=last {
        for month in 0..=13u32 {
            for day in 0..=32u32 {
                let read = date_from_iso8601(Iso8601Date::YMD { year, month, day });
                if is_a_day(i64::from(year), i64::from(month), i64::from(day)) {
                    let date = read.unwrap();
                    assert_eq!(
                        (i64::from(date.year), i64::from(date.month), i64::from(date.day)),
                        (i64::from(year), i64::from(month), i64::from(day))
                    );
                } else {
                    assert!(read.is_err(), "{}-{}-{}", year, month, day);
                }
            }
        }
    }
}

#[test]
fn week_dates_of_years_1_to_20000_lie_where_the_weeks_are_counted() {
    check_week_dates_from_year_one(1, 20_000);
}

#[test]
fn week_dates_of_years_20001_to_40000_lie_where_the_weeks_are_counted() {
    check_week_dates_from_year_one(20_001, 40_000);
}

#[test]
fn week_dates_of_years_40001_to_60000_lie_where_the_weeks_are_counted() {
    check_week_dates_from_year_one(40_001, 60_000);
}

#[test]
fn week_dates_of_years_60001_to_80000_lie_where_the_weeks_are_counted() {
    check_week_dates_from_year_one(60_001, 80_000);
}

#[test]
fn week_dates_of_years_80001_to_100003_lie_where_the_weeks_are_counted() {
    check_week_dates_from_year_one(80_001, 100_003);
}

#[test]
fn week_dates_of_years_minus_100003_to_minus_75000_are_days_that_exist() {
    check_week_dates_before_year_one(-100_003, -75_000);
}

#[test]
fn week_dates_of_years_minus_74999_to_minus_50000_are_days_that_exist() {
    check_week_dates_before_year_one(-74_999, -50_000);
}

#[test]
fn week_dates_of_years_minus_49999_to_minus_25000_are_days_that_exist() {
    check_week_dates_before_year_one(-49_999, -25_000);
}

#[test]
fn week_dates_of_years_minus_24999_to_0_are_days_that_exist() {
    check_week_dates_before_year_one(-24_999, 0);
}

#[test]
fn ordinal_dates_of_years_minus_100003_to_minus_60000_lie_at_their_place_in_the_year() {
    check_ordinal_dates(-100_003, -60_000);
}

#[test]
fn ordinal_dates_of_years_minus_59999_to_minus_20000_lie_at_their_place_in_the_year() {
    check_ordinal_dates(-59_999, -20_000);
}

#[test]
fn ordinal_dates_of_years_minus_19999_to_20000_lie_at_their_place_in_the_year() {
    check_ordinal_dates(-19_999, 20_000);
}

#[test]
fn ordinal_dates_of_years_20001_to_60000_lie_at_their_place_in_the_year() {
    check_ordinal_dates(20_001, 60_000);
}

#[test]
fn ordinal_dates_of_years_60001_to_100003_lie_at_their_place_in_the_year() {
    check_ordinal_dates(60_001, 100_003);
}

#[test]
fn calendar_dates_of_years_minus_100003_to_minus_70000_are_the_days_that_exist() {
    check_calendar_dates(-100_003, -70_000);
}

#[test]
fn calendar_dates_of_years_minus_69999_to_minus_40000_are_the_days_that_exist() {
    check_calendar_dates(-69_999, -40_000);
}

#[test]
fn calendar_dates_of_years_minus_39999_to_minus_10000_are_the_days_that_exist() {
    check_calendar_dates(-39_999, -10_000);
}

#[test]
fn calendar_dates_of_years_minus_9999_to_20000_are_the_days_that_exist() {
    check_calendar_dates(-9_999, 20_000);
}

#[test]
fn calendar_dates_of_years_20001_to_50000_are_the_days_that_exist() {
    check_calendar_dates(20_001, 50_000);
}

#[test]
fn calendar_dates_of_years_50001_to_80000_are_the_days_that_exist() {
    check_calendar_dates(50_001, 80_000);
}

#[test]
fn calendar_dates_of_years_80001_to_100003_are_the_days_that_exist() {
    check_calendar_dates(80_001, 100_003);
}
