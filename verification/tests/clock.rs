use cms_types::clock::{Date, OffsetDateTime, Time, UtcOffset};

fn month_of(m: u8) -> time::Month {
    time::Month::try_from(m).unwrap()
}

#[test]
fn date_new_accepts_what_the_calendar_holds() {
    let mut year = -9999;
    while year <= 9999 {
        for month in 0u8..=13 {
            for day in [0u8, 1, 28, 29, 30, 31, 32] {
                let theirs = if (1..=12).contains(&month) {
                    time::Date::from_calendar_date(year, month_of(month), day).ok()
                } else {
                    None
                };
                let ours = Date::new(year, month, day);
                assert_eq!(ours.is_some(), theirs.is_some(), "{year}-{month}-{day}");
            }
        }
        year += 37;
    }
    assert!(Date::new(10000, 1, 1).is_none());
    assert!(Date::new(-10000, 1, 1).is_none());
    assert!(Date::new(2024, 2, 29).is_some());
    assert!(Date::new(2023, 2, 29).is_none());
    assert!(Date::new(1900, 2, 29).is_none());
    assert!(Date::new(2000, 2, 29).is_some());
}

#[test]
fn date_text_and_ordinal_are_those_of_the_time_crate() {
    for year in [-9999, -2024, -400, -1, 0, 1, 4, 99, 100, 999, 1900, 2000, 2023, 2024, 9999] {
        for month in 1u8..=12 {
            for day in [1u8, 9, 10, 28, 29, 30, 31] {
                if let Some(ours) = Date::new(year, month, day) {
                    let theirs =
                        time::Date::from_calendar_date(year, month_of(month), day).unwrap();
                    assert_eq!(ours.to_text(), theirs.to_string());
                    assert_eq!(ours.ordinal(), theirs.ordinal());
                    assert_eq!(ours.year(), year);
                    assert_eq!(ours.month(), month);
                    assert_eq!(ours.day(), day);
                }
            }
        }
    }
}

#[test]
fn date_text_exact() {
    assert_eq!(Date::new(2024, 1, 15).unwrap().to_text(), "2024-01-15");
    assert_eq!(Date::new(5, 12, 3).unwrap().to_text(), "0005-12-03");
    assert_eq!(Date::new(-44, 3, 15).unwrap().to_text(), "-0044-03-15");
}

#[test]
fn time_text_is_that_of_the_time_crate() {
    for hour in [0u8, 1, 9, 10, 23] {
        for minute in [0u8, 5, 59] {
            for second in [0u8, 7, 59] {
                for nano in [
                    0u32,
                    1,
                    10,
                    123,
                    1_000,
                    500_000_000,
                    120_000_000,
                    123_456_789,
                    999_999_999,
                    100_000_000,
                    10_000_000,
                    1_000_000,
                    100_000,
                    10_000,
                    100,
                ] {
                    let ours = Time::new(hour, minute, second, nano).unwrap();
                    let theirs = time::Time::from_hms_nano(hour, minute, second, nano).unwrap();
                    assert_eq!(ours.to_text(), theirs.to_string());
                }
            }
        }
    }
}

#[test]
fn time_text_exact() {
    assert_eq!(Time::new(9, 5, 0, 0).unwrap().to_text(), "9:05:00.0");
    assert_eq!(Time::new(10, 30, 45, 500_000_000).unwrap().to_text(), "10:30:45.5");
    assert_eq!(Time::new(23, 59, 59, 1).unwrap().to_text(), "23:59:59.000000001");
}

#[test]
fn time_new_refuses_what_is_out_of_range() {
    assert!(Time::new(24, 0, 0, 0).is_none());
    assert!(Time::new(0, 60, 0, 0).is_none());
    assert!(Time::new(0, 0, 60, 0).is_none());
    assert!(Time::new(0, 0, 0, 1_000_000_000).is_none());
    let t = Time::new(1, 2, 3, 4).unwrap();
    assert_eq!((t.hour(), t.minute(), t.second(), t.nanosecond()), (1, 2, 3, 4));
}

#[test]
fn offset_new_and_text_are_those_of_the_time_crate() {
    for hours in [-26i8, -25, -12, -1, 0, 1, 5, 14, 25, 26] {
        for minutes in [-60i8, -59, -30, 0, 30, 59, 60] {
            for seconds in [-60i8, -59, -1, 0, 1, 59, 60] {
                let ours = UtcOffset::new(hours, minutes, seconds);
                let theirs = time::UtcOffset::from_hms(hours, minutes, seconds).ok();
                match (ours, theirs) {
                    (Some(o), Some(t)) => {
                        assert_eq!(o.to_text(), t.to_string(), "{hours} {minutes} {seconds}");
                        assert_eq!(
                            (o.hours(), o.minutes(), o.seconds()),
                            t.as_hms(),
                            "{hours} {minutes} {seconds}"
                        );
                    }
                    (Some(_), None) => panic!("accepted {hours} {minutes} {seconds}"),
                    (None, Some(t)) => {
                        // The other crate mends signs that disagree; here they are refused.
                        assert_ne!(t.as_hms(), (hours, minutes, seconds));
                    }
                    (None, None) => {}
                }
            }
        }
    }
}

#[test]
fn moment_text_is_that_of_the_time_crate() {
    let date = Date::new(2024, 1, 15).unwrap();
    let time = Time::new(10, 30, 0, 0).unwrap();
    let utc = OffsetDateTime::utc(date, time);
    assert_eq!(utc.to_text(), "2024-01-15 10:30:00.0 +00:00:00");
    let theirs = time::PrimitiveDateTime::new(
        time::Date::from_calendar_date(2024, time::Month::January, 15).unwrap(),
        time::Time::from_hms(10, 30, 0).unwrap(),
    )
    .assume_utc();
    assert_eq!(utc.to_text(), theirs.to_string());

    let offset = UtcOffset::new(-5, -30, 0).unwrap();
    let moment = OffsetDateTime::new(date, time, offset);
    let theirs = theirs
        .replace_offset(time::UtcOffset::from_hms(-5, -30, 0).unwrap());
    assert_eq!(moment.to_text(), theirs.to_string());
    assert_eq!(moment.date(), date);
    assert_eq!(moment.time(), time);
    assert_eq!(moment.offset(), offset);
}
