use gem_scanner::time::Timestamp;

#[test]
fn parse_reads_a_utc_date() {
    let t = Timestamp::parse("2024-03-01T12:00:00Z").unwrap();
    assert_eq!(t.unix_seconds(), 1_709_294_400);
    assert_eq!(t.subsec_nanos(), 0);
}

#[test]
fn parse_takes_the_offset_into_account() {
    let t = Timestamp::parse("2024-03-01T14:00:00+02:00").unwrap();
    assert_eq!(t.unix_seconds(), 1_709_294_400);
}

#[test]
fn parse_reads_fractions_of_a_second() {
    let t = Timestamp::parse("1970-01-01T00:00:01.5Z").unwrap();
    assert_eq!(t.unix_seconds(), 1);
    assert_eq!(t.subsec_nanos(), 500_000_000);
}

#[test]
fn parse_reads_a_leap_second() {
    let t = Timestamp::parse("2016-12-31T23:59:60Z").unwrap();
    assert_eq!(t.unix_seconds(), 1_483_228_799);
    assert_eq!(t.subsec_nanos(), 1_000_000_000);
}

#[test]
fn parse_refuses_what_is_no_date() {
    assert!(Timestamp::parse("not a date").is_none());
    assert!(Timestamp::parse("").is_none());
    assert!(Timestamp::parse("2024-13-01T00:00:00Z").is_none());
    assert!(Timestamp::parse("2024-03-01").is_none());
}

#[test]
fn from_unix_checks_the_range() {
    assert!(Timestamp::from_unix(0, 0).is_some());
    assert!(Timestamp::from_unix(10_000_000_000_000, 1_999_999_999).is_some());
    assert!(Timestamp::from_unix(10_000_000_000_001, 0).is_none());
    assert!(Timestamp::from_unix(-10_000_000_000_000, 0).is_some());
    assert!(Timestamp::from_unix(-10_000_000_000_001, 0).is_none());
    assert!(Timestamp::from_unix(0, 2_000_000_000).is_none());
}

#[test]
fn nanos_since_is_the_difference() {
    let a = Timestamp::from_unix(100, 250).unwrap();
    let b = Timestamp::from_unix(98, 750).unwrap();
    assert_eq!(a.nanos_since(&b), 1_999_999_500);
    assert_eq!(b.nanos_since(&a), -1_999_999_500);
}

#[test]
fn within_days_is_strict() {
    let now = Timestamp::from_unix(90 * 86_400, 0).unwrap();
    let exactly = Timestamp::from_unix(0, 0).unwrap();
    let just_inside = Timestamp::from_unix(0, 1).unwrap();
    let later = Timestamp::from_unix(91 * 86_400, 0).unwrap();
    assert!(!now.is_within_days(&exactly, 90));
    assert!(now.is_within_days(&just_inside, 90));
    assert!(now.is_within_days(&later, 90));
    assert!(!now.is_within_days(&now, 0));
}

#[test]
fn days_since_rounds_towards_zero() {
    let start = Timestamp::from_unix(0, 0).unwrap();
    let almost_two = Timestamp::from_unix(2 * 86_400 - 1, 999_999_999).unwrap();
    let two = Timestamp::from_unix(2 * 86_400, 0).unwrap();
    assert_eq!(almost_two.days_since(&start), 1);
    assert_eq!(two.days_since(&start), 2);
    assert_eq!(start.days_since(&almost_two), -1);
    assert_eq!(start.days_since(&two), -2);
    assert_eq!(start.days_since(&start), 0);
}
