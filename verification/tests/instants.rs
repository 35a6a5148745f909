use keycloak_auth::instant::{UtcInstant, MAX_UNIX_SECONDS, MIN_UNIX_SECONDS, NANOS_PER_SECOND};

#[test]
fn epoch_is_second_zero() {
    assert_eq!(
        UtcInstant::from_unix_seconds(0),
        Some(UtcInstant { seconds: 0, nanoseconds: 0 })
    );
}

#[test]
fn a_timestamp_keeps_its_second() {
    assert_eq!(
        UtcInstant::from_unix_seconds(1_546_300_800),
        Some(UtcInstant { seconds: 1_546_300_800, nanoseconds: 0 })
    );
    assert_eq!(
        UtcInstant::from_unix_seconds(-86_400),
        Some(UtcInstant { seconds: -86_400, nanoseconds: 0 })
    );
}

#[test]
fn the_range_ends_with_the_year_9999() {
    assert_eq!(MAX_UNIX_SECONDS, 253_402_300_799);
    assert_eq!(
        UtcInstant::from_unix_seconds(MAX_UNIX_SECONDS),
        Some(UtcInstant { seconds: MAX_UNIX_SECONDS, nanoseconds: 0 })
    );
    assert_eq!(UtcInstant::from_unix_seconds(MAX_UNIX_SECONDS + 1), None);
    assert_eq!(UtcInstant::from_unix_seconds(i64::MAX), None);
}

#[test]
fn the_range_starts_with_the_year_minus_9999() {
    assert_eq!(MIN_UNIX_SECONDS, -377_705_116_800);
    assert_eq!(
        UtcInstant::from_unix_seconds(MIN_UNIX_SECONDS),
        Some(UtcInstant { seconds: MIN_UNIX_SECONDS, nanoseconds: 0 })
    );
    assert_eq!(UtcInstant::from_unix_seconds(MIN_UNIX_SECONDS - 1), None);
    assert_eq!(UtcInstant::from_unix_seconds(i64::MIN), None);
}

#[test]
fn the_latest_instant_is_the_last_nanosecond() {
    let latest = UtcInstant::latest();
    assert_eq!(latest, UtcInstant { seconds: 253_402_300_799, nanoseconds: 999_999_999 });
    assert_eq!(NANOS_PER_SECOND, 1_000_000_000);
}

#[test]
fn later_seconds_come_after() {
    let early = UtcInstant { seconds: 10, nanoseconds: 999_999_999 };
    let late = UtcInstant { seconds: 11, nanoseconds: 0 };
    assert!(late.is_after(&early));
    assert!(!early.is_after(&late));
}

#[test]
fn nanoseconds_decide_within_a_second() {
    let early = UtcInstant { seconds: 10, nanoseconds: 0 };
    let late = UtcInstant { seconds: 10, nanoseconds: 1 };
    assert!(late.is_after(&early));
    assert!(!early.is_after(&late));
}

#[test]
fn no_instant_comes_after_itself() {
    let at = UtcInstant { seconds: -5, nanoseconds: 17 };
    assert!(!at.is_after(&at));
}

#[test]
fn negative_seconds_are_ordered_too() {
    let early = UtcInstant { seconds: -2, nanoseconds: 500 };
    let late = UtcInstant { seconds: -1, nanoseconds: 0 };
    assert!(late.is_after(&early));
    assert!(!early.is_after(&late));
}

#[test]
fn the_clock_shows_a_representable_instant() {
    let now = UtcInstant::now();
    assert!(now.seconds >= MIN_UNIX_SECONDS && now.seconds <= MAX_UNIX_SECONDS);
    assert!(now.nanoseconds < NANOS_PER_SECOND);
    // Later than 2020-01-01 and not after the latest instant.
    assert!(now.is_after(&UtcInstant { seconds: 1_577_836_800, nanoseconds: 0 }));
    assert!(!now.is_after(&UtcInstant::latest()));
}
