use latgraph::time::{Interval, Timestamp, NANOS_PER_MILLI, NANOS_PER_SEC};

#[test]
fn interval_constructors_agree() {
    assert_eq!(Interval::from_millis(100).nanos, 100_000_000);
    assert_eq!(Interval::from_secs(3).nanos, 3_000_000_000);
    assert_eq!(Interval::from_nanos(17).nanos, 17);
    assert_eq!(Interval::from_secs(1), Interval::from_millis(1000));
    assert_eq!(NANOS_PER_MILLI, 1_000_000);
    assert_eq!(NANOS_PER_SEC, 1_000_000_000);
}

#[test]
fn interval_as_millis_rounds_down() {
    assert_eq!(Interval::from_nanos(0).as_millis(), 0);
    assert_eq!(Interval::from_nanos(999_999).as_millis(), 0);
    assert_eq!(Interval::from_nanos(1_000_000).as_millis(), 1);
    assert_eq!(Interval::from_nanos(41_999_999).as_millis(), 41);
    assert_eq!(Interval::from_millis(u64::MAX).as_millis(), u64::MAX as u128);
}

#[test]
fn timestamp_constructors_agree() {
    assert_eq!(Timestamp::from_millis(42).nanos, 42_000_000);
    assert_eq!(Timestamp::from_nanos(42_000_000), Timestamp::from_millis(42));
}

#[test]
fn duration_since_an_earlier_point() {
    let earlier = Timestamp::from_millis(10);
    let later = Timestamp::from_millis(52);
    assert_eq!(later.saturating_duration_since(earlier), Interval::from_millis(42));
    assert_eq!(later.saturating_duration_since(later), Interval::from_nanos(0));
}

#[test]
fn duration_since_a_later_point_is_zero() {
    let earlier = Timestamp::from_millis(10);
    let later = Timestamp::from_millis(52);
    assert_eq!(earlier.saturating_duration_since(later), Interval::from_nanos(0));
}

#[test]
fn adding_an_interval() {
    let start = Timestamp::from_millis(10);
    assert_eq!(start.saturating_add(Interval::from_millis(100)), Timestamp::from_millis(110));
    assert_eq!(start.saturating_add(Interval::from_nanos(0)), start);
}

#[test]
fn adding_stops_at_the_largest_point() {
    let late = Timestamp::from_nanos(u128::MAX - 5);
    assert_eq!(late.saturating_add(Interval::from_nanos(5)), Timestamp::from_nanos(u128::MAX));
    assert_eq!(late.saturating_add(Interval::from_nanos(6)), Timestamp::from_nanos(u128::MAX));
    assert_eq!(
        Timestamp::from_nanos(u128::MAX).saturating_add(Interval::from_nanos(u128::MAX)),
        Timestamp::from_nanos(u128::MAX)
    );
}
