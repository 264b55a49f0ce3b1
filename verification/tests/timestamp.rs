use artifact_relay::timestamp::{Timestamp, MAX_YEAR, MIN_YEAR};

#[test]
fn minute_stamp_has_two_digit_fields() {
    let at = Timestamp::new(2021, 3, 4, 5, 6, 7).unwrap();
    assert_eq!(at.minute_stamp(), "2021-03-04-05_06");
    let late = Timestamp::new(2021, 12, 31, 23, 59, 59).unwrap();
    assert_eq!(late.minute_stamp(), "2021-12-31-23_59");
}

#[test]
fn minute_stamp_ignores_the_seconds() {
    let early = Timestamp::new(2022, 7, 15, 10, 30, 0).unwrap();
    let late = Timestamp::new(2022, 7, 15, 10, 30, 59).unwrap();
    assert_eq!(early.minute_stamp(), late.minute_stamp());
    let next = Timestamp::new(2022, 7, 15, 10, 31, 0).unwrap();
    assert_ne!(early.minute_stamp(), next.minute_stamp());
}

#[test]
fn minute_stamp_pads_short_years_to_four_digits() {
    assert_eq!(Timestamp::new(0, 1, 1, 0, 0, 0).unwrap().minute_stamp(), "0000-01-01-00_00");
    assert_eq!(Timestamp::new(7, 1, 1, 0, 0, 0).unwrap().minute_stamp(), "0007-01-01-00_00");
    assert_eq!(Timestamp::new(987, 6, 5, 4, 3, 2).unwrap().minute_stamp(), "0987-06-05-04_03");
    assert_eq!(Timestamp::new(9999, 1, 1, 0, 0, 0).unwrap().minute_stamp(), "9999-01-01-00_00");
}

#[test]
fn minute_stamp_signs_years_outside_four_digits() {
    assert_eq!(Timestamp::new(10000, 1, 1, 0, 0, 0).unwrap().minute_stamp(), "+10000-01-01-00_00");
    assert_eq!(Timestamp::new(-1, 1, 1, 0, 0, 0).unwrap().minute_stamp(), "-0001-01-01-00_00");
    assert_eq!(Timestamp::new(-5, 2, 3, 4, 5, 6).unwrap().minute_stamp(), "-0005-02-03-04_05");
    assert_eq!(Timestamp::new(-9999, 1, 1, 0, 0, 0).unwrap().minute_stamp(), "-9999-01-01-00_00");
    assert_eq!(Timestamp::new(-12345, 1, 1, 0, 0, 0).unwrap().minute_stamp(), "-12345-01-01-00_00");
    assert_eq!(
        Timestamp::new(MAX_YEAR, 12, 31, 23, 59, 59).unwrap().minute_stamp(),
        "+262142-12-31-23_59"
    );
    assert_eq!(
        Timestamp::new(MIN_YEAR, 1, 1, 0, 0, 0).unwrap().minute_stamp(),
        "-262143-01-01-00_00"
    );
}

#[test]
fn new_refuses_what_the_calendar_lacks() {
    assert!(Timestamp::new(2021, 2, 29, 0, 0, 0).is_none());
    assert!(Timestamp::new(2021, 4, 31, 0, 0, 0).is_none());
    assert!(Timestamp::new(2021, 0, 1, 0, 0, 0).is_none());
    assert!(Timestamp::new(2021, 13, 1, 0, 0, 0).is_none());
    assert!(Timestamp::new(2021, 1, 0, 0, 0, 0).is_none());
    assert!(Timestamp::new(2021, 1, 32, 0, 0, 0).is_none());
    assert!(Timestamp::new(2021, 1, 1, 24, 0, 0).is_none());
    assert!(Timestamp::new(2021, 1, 1, 0, 60, 0).is_none());
    assert!(Timestamp::new(2021, 1, 1, 0, 0, 60).is_none());
    assert!(Timestamp::new(MAX_YEAR + 1, 1, 1, 0, 0, 0).is_none());
    assert!(Timestamp::new(MIN_YEAR - 1, 1, 1, 0, 0, 0).is_none());
}

#[test]
fn new_knows_leap_years() {
    assert!(Timestamp::new(2024, 2, 29, 0, 0, 0).is_some());
    assert!(Timestamp::new(2000, 2, 29, 0, 0, 0).is_some());
    assert!(Timestamp::new(1900, 2, 29, 0, 0, 0).is_none());
    assert!(Timestamp::new(2100, 2, 29, 0, 0, 0).is_none());
    assert!(Timestamp::new(-4, 2, 29, 0, 0, 0).is_some());
    assert!(Timestamp::new(-100, 2, 29, 0, 0, 0).is_none());
    assert!(Timestamp::new(-400, 2, 29, 0, 0, 0).is_some());
    assert!(Timestamp::new(2023, 2, 28, 0, 0, 0).is_some());
}

#[test]
fn new_accepts_every_day_that_chrono_accepts() {
    for year in [-401, -400, -100, -4, -1, 0, 1, 4, 100, 400, 1900, 2000, 2023, 2024] {
        for month in 1u8..=12 {
            for day in 0u8..=32 {
                let ours = Timestamp::new(year, month, day, 12, 0, 0).is_some();
                let theirs = chrono::NaiveDate::from_ymd_opt(year, month as u32, day as u32)
                    .is_some();
                assert_eq!(ours, theirs, "{}-{}-{}", year, month, day);
            }
        }
    }
}

#[test]
fn fields_come_back_as_given() {
    let at = Timestamp::new(2021, 3, 4, 5, 6, 7).unwrap();
    assert_eq!(at.year(), 2021);
    assert_eq!(at.month(), 3);
    assert_eq!(at.day(), 4);
    assert_eq!(at.hour(), 5);
    assert_eq!(at.minute(), 6);
    assert_eq!(at.second(), 7);
}
