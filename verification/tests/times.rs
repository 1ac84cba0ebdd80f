use iso8601_time::civil::{CivilOffset, CivilTime};
use iso8601_time::error::Part;
use iso8601_time::iso::Iso8601Time;
use iso8601_time::{time_from_iso8601, time_to_iso8601};

fn clock(hour: u8, minute: u8, second: u8, millisecond: u16) -> CivilTime {
    CivilTime { hour, minute, second, millisecond }
}

fn east(minutes: i64) -> CivilOffset {
    CivilOffset { minutes }
}

fn written(hour: u32, minute: u32, second: u32, millisecond: u32, tz: (i32, i32)) -> Iso8601Time {
    Iso8601Time {
        hour,
        minute,
        second,
        millisecond,
        tz_offset_hours: tz.0,
        tz_offset_minutes: tz.1,
    }
}

fn split(minutes: i64) -> (i32, i32) {
    let iso = time_to_iso8601(clock(0, 0, 0, 0), east(minutes));
    (iso.tz_offset_hours, iso.tz_offset_minutes)
}

#[test]
fn time_of_day_is_written_with_its_components() {
    let iso = time_to_iso8601(clock(13, 45, 30, 500), east(120));
    assert_eq!(iso, written(13, 45, 30, 500, (2, 0)));
    let iso = time_to_iso8601(clock(23, 59, 59, 999), east(0));
    assert_eq!(iso, written(23, 59, 59, 999, (0, 0)));
}

#[test]
fn offset_is_split_into_hours_and_minutes() {
    assert_eq!(split(0), (0, 0));
    assert_eq!(split(90), (1, 30));
    assert_eq!(split(330), (5, 30));
    assert_eq!(split(59), (0, 59));
    assert_eq!(split(60), (1, 0));
    assert_eq!(split(1439), (23, 59));
}

#[test]
fn westward_offset_has_both_parts_negative() {
    assert_eq!(split(-90), (-1, -30));
    assert_eq!(split(-330), (-5, -30));
    assert_eq!(split(-1), (0, -1));
    assert_eq!(split(-59), (0, -59));
    assert_eq!(split(-60), (-1, 0));
    assert_eq!(split(-61), (-1, -1));
    assert_eq!(split(-1439), (-23, -59));
}

#[test]
fn split_offset_adds_up_again() {
    let mut minutes: i64 = -2000;
    while minutes <= 2000 {
        let (hours, rest) = split(minutes);
        assert_eq!(i64::from(hours) * 60 + i64::from(rest), minutes);
        assert!(-60 < rest && rest < 60);
        if minutes >= 0 {
            assert!(hours >= 0 && rest >= 0);
        }
        if minutes <= 0 {
            assert!(hours <= 0 && rest <= 0);
        }
        let (_, offset) = time_from_iso8601(written(0, 0, 0, 0, (hours, rest)));
        assert_eq!(offset, east(minutes));
        minutes += 1;
    }
}

#[test]
fn widest_offsets_that_fit_are_split() {
    let most: i64 = i64::from(i32::MAX) * 60 + 59;
    assert_eq!(split(most), (i32::MAX, 59));
    let least: i64 = i64::from(i32::MIN) * 60 - 59;
    assert_eq!(split(least), (i32::MIN, -59));
}

#[test]
fn time_of_day_is_read_with_its_components() {
    let (time, offset) = time_from_iso8601(written(13, 45, 30, 500, (2, 0)));
    assert_eq!(time, Ok(clock(13, 45, 30, 500)));
    assert_eq!(offset, east(120));
    let (time, offset) = time_from_iso8601(written(0, 0, 0, 0, (0, 0)));
    assert_eq!(time, Ok(clock(0, 0, 0, 0)));
    assert_eq!(offset, east(0));
    let (time, _) = time_from_iso8601(written(23, 59, 59, 999, (0, 0)));
    assert_eq!(time, Ok(clock(23, 59, 59, 999)));
}

#[test]
fn offset_is_summed_wherever_the_sign_stands() {
    let (_, offset) = time_from_iso8601(written(1, 2, 3, 4, (-1, -30)));
    assert_eq!(offset, east(-90));
    let (_, offset) = time_from_iso8601(written(1, 2, 3, 4, (-1, 30)));
    assert_eq!(offset, east(-30));
    let (_, offset) = time_from_iso8601(written(1, 2, 3, 4, (1, -30)));
    assert_eq!(offset, east(30));
    let (_, offset) = time_from_iso8601(written(1, 2, 3, 4, (0, -30)));
    assert_eq!(offset, east(-30));
    let (_, offset) = time_from_iso8601(written(1, 2, 3, 4, (-2, 0)));
    assert_eq!(offset, east(-120));
    let (_, offset) = time_from_iso8601(written(1, 2, 3, 4, (1, 90)));
    assert_eq!(offset, east(150));
}

#[test]
fn offset_is_summed_without_overflow() {
    let (_, offset) = time_from_iso8601(written(1, 2, 3, 4, (i32::MAX, i32::MAX)));
    assert_eq!(offset, east(i64::from(i32::MAX) * 61));
    let (_, offset) = time_from_iso8601(written(1, 2, 3, 4, (i32::MIN, i32::MIN)));
    assert_eq!(offset, east(i64::from(i32::MIN) * 61));
    let (_, offset) = time_from_iso8601(written(1, 2, 3, 4, (1000, 0)));
    assert_eq!(offset, east(60_000));
}

#[test]
fn offset_is_there_though_the_time_is_refused() {
    let (time, offset) = time_from_iso8601(written(24, 0, 0, 0, (-5, -30)));
    assert!(time.is_err());
    assert_eq!(offset, east(-330));
}

#[test]
fn component_of_time_out_of_range_is_a_range_failure() {
    let refused = [
        written(24, 0, 0, 0, (0, 0)),
        written(0, 60, 0, 0, (0, 0)),
        written(0, 0, 60, 0, (0, 0)),
        written(0, 0, 0, 1000, (0, 0)),
        written(u32::MAX, 0, 0, 0, (0, 0)),
    ];
    for iso in refused {
        let (time, _) = time_from_iso8601(iso);
        let error = time.unwrap_err();
        assert_eq!(error.part, Part::Time);
        assert!(!error.message.is_empty());
    }
}

#[test]
fn component_of_time_too_large_for_its_field_is_a_range_failure() {
    // 256 + 13 would be 13 if only its low eight bits were kept, and
    // 65_536 + 500 would be 500 with only its low sixteen bits.
    let refused = [
        written(256 + 13, 45, 30, 500, (0, 0)),
        written(13, 256 + 45, 30, 500, (0, 0)),
        written(13, 45, 256 + 30, 500, (0, 0)),
        written(13, 45, 30, 65_536 + 500, (0, 0)),
    ];
    for iso in refused {
        let (time, _) = time_from_iso8601(iso);
        assert_eq!(time.unwrap_err().part, Part::Time);
    }
}

#[test]
fn time_failure_carries_the_calendar_librarys_words() {
    let (time, _) = time_from_iso8601(written(24, 0, 0, 0, (0, 0)));
    assert_eq!(time.unwrap_err().message, "hour must be in the range 0..=23");
    let (time, _) = time_from_iso8601(written(0, 0, 0, 1000, (0, 0)));
    assert_eq!(time.unwrap_err().message, "millisecond must be in the range 0..=999");
}

#[test]
fn written_time_is_read_back() {
    let times = [clock(0, 0, 0, 0), clock(13, 45, 30, 500), clock(23, 59, 59, 999)];
    let offsets = [east(0), east(120), east(-330), east(-1), east(1439), east(-1439)];
    for time in times {
        for offset in offsets {
            let (read, read_offset) = time_from_iso8601(time_to_iso8601(time, offset));
            assert_eq!(read, Ok(time));
            assert_eq!(read_offset, offset);
        }
    }
}

#[test]
fn offsets_that_can_be_written_are_those_whose_hours_fit() {
    assert!(east(0).fits_iso());
    assert!(east(-330).fits_iso());
    assert!(east(i64::from(i16::MAX)).fits_iso());
    assert!(east(i64::from(i16::MIN)).fits_iso());
    assert!(east(i64::from(i32::MAX) * 60 + 59).fits_iso());
    assert!(!east(i64::from(i32::MAX) * 60 + 60).fits_iso());
    assert!(east(i64::from(i32::MIN) * 60 - 59).fits_iso());
    assert!(!east(i64::from(i32::MIN) * 60 - 60).fits_iso());
    assert!(!east(i64::MAX).fits_iso());
    assert!(!east(i64::MIN).fits_iso());
}

#[test]
fn time_is_read_exactly_when_every_component_is_in_range() {
    let minutes_and_seconds = [0u32, 1, 30, 59, 60, 61, 255, 256, 315, 65_536];
    let milliseconds = [0u32, 1, 500, 999, 1000, 1001, 65_535, 65_536, 66_036, u32::MAX];
    for hour in 0..=300u32 {
        for minute in minutes_and_seconds {
            for second in minutes_and_seconds {
                for millisecond in milliseconds {
                    let (time, _) = time_from_iso8601(written(hour, minute, second, millisecond, (0, 0)));
                    let owed: bool = hour < 24 && minute < 60 && second < 60 && millisecond < 1000;
                    assert_eq!(time.is_ok(), owed);
                    if let Ok(time) = time {
                        assert_eq!(u32::from(time.hour), hour);
                        assert_eq!(u32::from(time.minute), minute);
                        assert_eq!(u32::from(time.second), second);
                        assert_eq!(u32::from(time.millisecond), millisecond);
                    }
                }
            }
        }
    }
}
