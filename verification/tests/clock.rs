use chrono::{DateTime, Utc};
use std::time::{Duration, Instant};
use tomayto::clock::{read_clock, Span, WallTime, MAX_SPAN_NANOS, MAX_UTC_SECS, MIN_UTC_SECS};
use tomayto::text::with_decimal;

#[test]
fn span_conversions() {
    assert_eq!(Span::new(60, 0).as_secs(), 60);
    assert_eq!(Span::new(1, 1_500_000_000).as_nanos(), 2_500_000_000);
    assert_eq!(Span::new(0, 500_000_000).as_millis(), 500);
    assert_eq!(Span::from_millis(180_000).as_millis(), 180_000);
    assert_eq!(Span::from_millis(1_999).as_secs(), 1);
    assert_eq!(Span::zero().as_nanos(), 0);
    assert_eq!(Span::max().as_nanos(), Duration::MAX.as_nanos());
    assert_eq!(MAX_SPAN_NANOS, Duration::MAX.as_nanos());
    assert_eq!(Span::max().as_secs(), u64::MAX);
}

#[test]
fn span_arithmetic() {
    let a = Span::new(2, 0);
    let b = Span::from_millis(500);
    assert_eq!(a.checked_add(&b), Some(Span::new(2, 500_000_000)));
    assert_eq!(Span::max().checked_add(&Span::from_nanos(1)), None);
    assert_eq!(Span::max().checked_add(&Span::zero()), Some(Span::max()));
    assert!(a.is_at_least(&b));
    assert!(a.is_at_least(&a));
    assert!(!b.is_at_least(&a));
    assert_eq!(a.headroom().checked_add(&a), Some(Span::max()));
}

#[test]
fn span_matches_duration() {
    for (secs, nanos) in [(0u64, 0u32), (1, 999_999_999), (1500, 0), (7, 2_000_000_001)] {
        let d = Duration::new(secs, nanos);
        let s = Span::new(secs, nanos);
        assert_eq!(s.as_nanos(), d.as_nanos());
        assert_eq!(s.as_millis(), d.as_millis());
        assert_eq!(s.as_secs(), d.as_secs());
    }
}

#[test]
fn wall_time_bounds_match_chrono() {
    let render = |secs: i64, nanos: u32| WallTime::from_timestamp(secs, nanos).unwrap().to_rfc3339();
    assert!(render(MIN_UTC_SECS, 0).is_some());
    assert!(render(MIN_UTC_SECS - 1, 999_999_999).is_none());
    assert!(render(MAX_UTC_SECS, 999_999_999).is_some());
    assert!(render(MAX_UTC_SECS + 1, 0).is_none());
    assert!(render(i64::MIN, 0).is_none());
    assert!(render(i64::MAX, 999_999_999).is_none());
    assert!(WallTime::from_timestamp(0, 1_000_000_000).is_none());
    assert!(DateTime::<Utc>::from_timestamp(MIN_UTC_SECS, 0).is_some());
    assert!(DateTime::<Utc>::from_timestamp(MIN_UTC_SECS - 1, 0).is_none());
    assert!(DateTime::<Utc>::from_timestamp(MAX_UTC_SECS, 999_999_999).is_some());
    assert!(DateTime::<Utc>::from_timestamp(MAX_UTC_SECS + 1, 0).is_none());
}

#[test]
fn wall_time_in_rfc3339() {
    assert_eq!(WallTime::unix_epoch().to_rfc3339().as_deref(), Some("1970-01-01T00:00:00+00:00"));
    assert!(WallTime::unix_epoch().is_unix_epoch());
    let t = WallTime::from_timestamp(1_700_000_000, 123_000_000).unwrap();
    assert!(!t.is_unix_epoch());
    assert_eq!(t.secs(), 1_700_000_000);
    assert_eq!(t.subsec_nanos(), 123_000_000);
    assert_eq!(t.to_rfc3339().as_deref(), Some("2023-11-14T22:13:20.123+00:00"));
    let before = WallTime::from_timestamp(-1, 500_000_000).unwrap();
    assert_eq!(before.secs(), -1);
    assert_eq!(before.subsec_nanos(), 500_000_000);
    assert_eq!(before.to_rfc3339().as_deref(), Some("1969-12-31T23:59:59.500+00:00"));
    let whole = WallTime::from_timestamp(-86_400, 0).unwrap();
    assert_eq!(whole.secs(), -86_400);
    assert_eq!(whole.subsec_nanos(), 0);
    assert_eq!(whole.to_rfc3339().as_deref(), Some("1969-12-31T00:00:00+00:00"));
}

#[test]
fn clock_reading_is_current() {
    let start = Instant::now();
    let r = read_clock(&start);
    assert!(r.instant >= start);
    assert!(r.since_interval_start.as_nanos() <= r.instant.duration_since(start).as_nanos());
    // The wall clock reads a time after 2020.
    assert!(r.wall.secs() > 1_577_836_800);
    let later = read_clock(&r.instant);
    assert!(later.since_interval_start.as_nanos() < 60_000_000_000);
}

#[test]
fn decimal_numerals() {
    assert_eq!(with_decimal("timer ", 0, " does not exist"), "timer 0 does not exist");
    assert_eq!(with_decimal("", 65535, ""), "65535");
    assert_eq!(with_decimal("[", 1000, "]"), "[1000]");
    for n in [1u16, 9, 10, 99, 101, 4096] {
        assert_eq!(with_decimal("", n, ""), n.to_string());
    }
}
