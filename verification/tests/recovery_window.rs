use chrono::{DateTime, TimeDelta, Utc};

use threads_rs::api::recovery_window::{
    recovery_since, UtcInstant, MAX_UTC_SECS, MIN_UTC_SECS, PUBLISH_RECOVERY_WINDOW_SECS,
};

fn instant(at: DateTime<Utc>) -> UtcInstant {
    UtcInstant {
        secs: at.timestamp(),
        nanos: at.timestamp_subsec_nanos(),
    }
}

#[test]
fn window_opens_five_seconds_before_the_publish_request() {
    assert_eq!(PUBLISH_RECOVERY_WINDOW_SECS, 5);
    let start = UtcInstant {
        secs: 1_700_000_000,
        nanos: 0,
    };
    assert!(start.window_fits());
    assert_eq!(recovery_since(start), 1_699_999_995);
}

#[test]
fn fractions_of_a_second_do_not_move_the_window() {
    let start = UtcInstant {
        secs: 1_700_000_000,
        nanos: 999_999_999,
    };
    assert_eq!(recovery_since(start), 1_699_999_995);
}

#[test]
fn window_opens_before_the_epoch_too() {
    let start = UtcInstant {
        secs: 3,
        nanos: 500_000_000,
    };
    assert_eq!(recovery_since(start), -2);
}

#[test]
fn leap_second_counts_as_the_second_that_follows() {
    let leap = DateTime::from_timestamp(1_483_228_799, 1_300_000_000).unwrap();
    assert!(instant(leap).window_fits());
    assert_eq!(recovery_since(instant(leap)), 1_483_228_795);
    assert_eq!((leap - TimeDelta::seconds(5)).timestamp(), 1_483_228_795);
}

#[test]
fn limits_are_those_of_the_calendar() {
    assert_eq!(DateTime::<Utc>::MIN_UTC.timestamp(), MIN_UTC_SECS);
    assert_eq!(DateTime::<Utc>::MAX_UTC.timestamp(), MAX_UTC_SECS);
    assert_eq!(recovery_since(instant(DateTime::<Utc>::MAX_UTC)), 8_210_266_876_794);
}

#[test]
fn window_fits_exactly_where_the_calendar_can_step_back() {
    for back in 0..10 {
        let start = DateTime::from_timestamp(MIN_UTC_SECS + back, 0).unwrap();
        let fits = start.checked_sub_signed(TimeDelta::seconds(5)).is_some();
        assert_eq!(instant(start).window_fits(), fits);
        if fits {
            assert_eq!(recovery_since(instant(start)), MIN_UTC_SECS + back - 5);
        }
    }
}

#[test]
fn window_does_not_fit_values_that_name_no_instant() {
    for (secs, nanos) in [
        (MIN_UTC_SECS - 1, 0),
        (MAX_UTC_SECS + 1, 0),
        (0, 2_000_000_000),
        (0, 1_000_000_000),
        (59, 2_000_000_000),
    ] {
        assert!(DateTime::from_timestamp(secs, nanos).is_none());
        assert!(!UtcInstant { secs, nanos }.window_fits());
    }
    assert!(DateTime::from_timestamp(59, 1_999_999_999).is_some());
    assert!(UtcInstant {
        secs: 59,
        nanos: 1_999_999_999
    }
    .window_fits());
}
