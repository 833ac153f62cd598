use lemmy_server::time::{DateTime, NaiveDateTime, MAX_SECS, MIN_SECS, SECS_PER_DAY};

#[test]
fn clocks_show_the_time_at_their_offset() {
    // 2021-11-16 16:27:46.5 UTC, two hours east.
    let point = DateTime::new(1_637_080_066, 500_000_000, 7_200).unwrap();
    assert_eq!(point.parts(), (1_637_080_066, 500_000_000, 7_200));
    assert_eq!(
        point.naive_local(),
        NaiveDateTime {
            secs: 1_637_087_266,
            nanos: 500_000_000
        }
    );
    let west = DateTime::new(0, 1, -3_600).unwrap();
    assert_eq!(
        west.naive_local(),
        NaiveDateTime {
            secs: -3_600,
            nanos: 1
        }
    );
    let utc = DateTime::new(-1, 0, 0).unwrap();
    assert_eq!(utc.naive_local(), NaiveDateTime { secs: -1, nanos: 0 });
}

#[test]
fn the_ends_of_the_calendar_can_be_shown() {
    let first = DateTime::new(MIN_SECS, 0, 0).unwrap();
    assert_eq!(first.naive_local().secs, MIN_SECS);
    let last = DateTime::new(MAX_SECS, 999_999_999, 0).unwrap();
    assert_eq!(last.naive_local().secs, MAX_SECS);
    let first_west = DateTime::new(MIN_SECS + 86_399, 0, -86_399).unwrap();
    assert_eq!(first_west.naive_local().secs, MIN_SECS);
    let last_east = DateTime::new(MAX_SECS - 86_399, 0, 86_399).unwrap();
    assert_eq!(last_east.naive_local().secs, MAX_SECS);
}

#[test]
fn the_ends_of_the_calendar_are_those_of_chrono() {
    assert_eq!(chrono::DateTime::<chrono::Utc>::MIN_UTC.timestamp(), MIN_SECS);
    assert_eq!(chrono::DateTime::<chrono::Utc>::MAX_UTC.timestamp(), MAX_SECS);
}

#[test]
fn times_outside_of_the_calendar_are_refused() {
    assert_eq!(DateTime::new(MIN_SECS - 1, 0, 0), None);
    assert_eq!(DateTime::new(MAX_SECS + 1, 0, 0), None);
    assert_eq!(DateTime::new(MIN_SECS, 0, -1), None);
    assert_eq!(DateTime::new(MAX_SECS, 0, 1), None);
    assert_eq!(DateTime::new(i64::MIN, 0, 0), None);
    assert_eq!(DateTime::new(i64::MAX, 0, 86_399), None);
}

#[test]
fn offsets_are_less_than_a_day() {
    assert_eq!(DateTime::new(0, 0, SECS_PER_DAY), None);
    assert_eq!(DateTime::new(0, 0, -SECS_PER_DAY), None);
    assert!(DateTime::new(0, 0, SECS_PER_DAY - 1).is_some());
    assert!(DateTime::new(0, 0, 1 - SECS_PER_DAY).is_some());
}

#[test]
fn leap_seconds_are_kept() {
    let leap = DateTime::new(59, 1_999_999_999, 60).unwrap();
    assert_eq!(
        leap.naive_local(),
        NaiveDateTime {
            secs: 119,
            nanos: 1_999_999_999
        }
    );
    // The offset need not be a whole number of minutes.
    let leap = DateTime::new(-1, 1_000_000_000, 7).unwrap();
    assert_eq!(
        leap.naive_local(),
        NaiveDateTime {
            secs: 6,
            nanos: 1_000_000_000
        }
    );
    let leap = DateTime::new(58, 1_333_333_333, 0).unwrap();
    assert_eq!(
        leap.naive_local(),
        NaiveDateTime {
            secs: 58,
            nanos: 1_333_333_333
        }
    );
    let last = DateTime::new(MAX_SECS, 1_999_999_999, 0).unwrap();
    assert_eq!(
        last.naive_local(),
        NaiveDateTime {
            secs: MAX_SECS,
            nanos: 1_999_999_999
        }
    );
    assert_eq!(DateTime::new(59, 2_000_000_000, 0), None);
}
