use ac_ffmpeg::time::{Duration, TimeBase, Timestamp};

#[test]
fn test_duration_add() {
    let mut ts = Timestamp::new(333, TimeBase::new(1, 90_000));

    ts.add_assign(Duration::from_millis(100));

    assert_eq!(ts.timestamp(), 9333);
}

#[test]
fn test_duration_sub() {
    let mut ts = Timestamp::new(333, TimeBase::new(1, 90_000));

    ts.sub_assign(Duration::from_millis(50));

    assert_eq!(ts.timestamp(), -4167);
}

#[test]
fn test_timestamp_sub() {
    let a = Timestamp::new(333, TimeBase::new(1, 90_000));
    let b = Timestamp::new(79, TimeBase::new(1, 50_000));

    let delta = a - b;

    assert_eq!(delta.as_secs(), 0);
    assert_eq!(delta.subsec_nanos(), 2_122_222);
}

#[test]
fn test_comparisons() {
    let a = Timestamp::from_secs(1);
    let b = Timestamp::from_millis(1_000);

    assert_eq!(a, b);

    let a = Timestamp::from_secs(1);
    let b = Timestamp::from_millis(1_001);

    assert_ne!(a, b);
    assert!(a < b);

    let a = Timestamp::from_secs(1);
    let b = Timestamp::from_micros(1_000_001);

    assert_ne!(a, b);
    assert!(a < b);

    // this is outside of the comparison scale
    let a = Timestamp::from_secs(1);
    let b = Timestamp::from_nanos(1_000_000_001);

    assert_eq!(a, b);
}

#[test]
fn add_operator_matches_add_assign() {
    let ts = Timestamp::new(333, TimeBase::new(1, 90_000));
    let sum = ts + Duration::from_millis(100);
    assert_eq!(sum.timestamp(), 9333);
    let diff = ts - Duration::from_millis(50);
    assert_eq!(diff.timestamp(), -4167);
}

#[test]
fn add_then_sub_restores_timestamp() {
    let ts = Timestamp::new(12_345, TimeBase::new(1, 44_100));
    let d = Duration::new(3, 141_592_653);
    let back = (ts + d) - d;
    assert_eq!(back.timestamp(), 12_345);
    let back2 = (ts - d) + d;
    assert_eq!(back2.timestamp(), 12_345);
}

#[test]
fn null_timestamp_absorbs_durations() {
    let mut ts = Timestamp::null();
    assert!(ts.is_null());
    ts.add_assign(Duration::from_secs(5));
    assert!(ts.is_null());
    ts.sub_assign(Duration::from_secs(5));
    assert!(ts.is_null());
    assert_eq!(ts.as_secs(), None);
    assert_eq!(ts.as_millis(), None);
    assert_eq!(ts.as_micros(), None);
    assert_eq!(ts.as_nanos(), None);
    assert_eq!(ts.time_base().num(), 1);
    assert_eq!(ts.time_base().den(), 1_000_000);
    let rescaled = ts.with_time_base(TimeBase::new(1, 1000));
    assert!(rescaled.is_null());
}

#[test]
fn null_timestamps_are_equal_and_unordered() {
    let a = Timestamp::null();
    let b = Timestamp::new(i64::MIN, TimeBase::new(1, 90_000));
    let c = Timestamp::from_secs(0);
    assert_eq!(a, b);
    assert_ne!(a, c);
    assert_eq!(a.partial_cmp(&c), None);
    assert_eq!(c.partial_cmp(&a), None);
    assert!(!(a < c));
    assert!(!(c < a));
}

#[test]
fn unit_conversions_round_to_nearest() {
    let ts = Timestamp::from_millis(1_499);
    assert_eq!(ts.as_secs(), Some(1));
    let ts = Timestamp::from_millis(1_500);
    assert_eq!(ts.as_secs(), Some(2));
    let ts = Timestamp::from_millis(-1_500);
    assert_eq!(ts.as_secs(), Some(-2));
    let ts = Timestamp::from_millis(-1_499);
    assert_eq!(ts.as_secs(), Some(-1));
    let ts = Timestamp::from_secs(3);
    assert_eq!(ts.as_millis(), Some(3_000));
    assert_eq!(ts.as_micros(), Some(3_000_000));
    assert_eq!(ts.as_nanos(), Some(3_000_000_000));
}

#[test]
fn own_unit_round_trip() {
    for x in [-7_i64, 0, 1, 999, 123_456_789] {
        assert_eq!(Timestamp::from_millis(x).as_millis(), Some(x));
        assert_eq!(Timestamp::from_micros(x).as_micros(), Some(x));
        assert_eq!(Timestamp::from_nanos(x).as_nanos(), Some(x));
        assert_eq!(Timestamp::from_secs(x).as_secs(), Some(x));
    }
}

#[test]
fn finer_base_round_trip() {
    let ts = Timestamp::from_secs(-42);
    let fine = ts.with_time_base(TimeBase::new(1, 48_000));
    assert_eq!(fine.timestamp(), -42 * 48_000);
    let back = fine.with_time_base(TimeBase::new(1, 1));
    assert_eq!(back.timestamp(), -42);
}

#[test]
fn rescale_overflow_and_invalid_base_give_null() {
    let ts = Timestamp::from_secs(i64::MAX / 10);
    let nanos = ts.with_time_base(TimeBase::new(1, 1_000_000_000));
    assert!(nanos.is_null());
    let ts = Timestamp::from_secs(5);
    let zero = ts.with_time_base(TimeBase::new(0, 1));
    assert!(zero.is_null());
}

#[test]
fn ordering_follows_raw_values_in_one_base() {
    let tb = TimeBase::new(1, 90_000);
    let a = Timestamp::new(100, tb);
    let b = Timestamp::new(200, tb);
    assert!(a < b);
    assert!(b > a);
    assert!(a <= a);
    assert_eq!(a.partial_cmp(&b), Some(std::cmp::Ordering::Less));
    assert_eq!(b.partial_cmp(&a), Some(std::cmp::Ordering::Greater));
}

#[test]
fn with_raw_timestamp_keeps_time_base() {
    let ts = Timestamp::new(5, TimeBase::new(1, 25)).with_raw_timestamp(10);
    assert_eq!(ts.timestamp(), 10);
    assert_eq!(ts.time_base().num(), 1);
    assert_eq!(ts.time_base().den(), 25);
}

#[test]
fn duration_constructors() {
    let d = Duration::new(1, 2_500_000_000);
    assert_eq!(d.as_secs(), 3);
    assert_eq!(d.subsec_nanos(), 500_000_000);
    let d = Duration::from_millis(1_234);
    assert_eq!(d.as_secs(), 1);
    assert_eq!(d.subsec_nanos(), 234_000_000);
    let d = Duration::from_micros(2_000_001);
    assert_eq!(d.as_secs(), 2);
    assert_eq!(d.subsec_nanos(), 1_000);
    let d = Duration::from_nanos(5_000_000_007);
    assert_eq!(d.as_secs(), 5);
    assert_eq!(d.subsec_nanos(), 7);
}

#[test]
fn timestamp_difference_exact_seconds() {
    let a = Timestamp::from_millis(5_250);
    let b = Timestamp::from_secs(2);
    let d = a - b;
    assert_eq!(d.as_secs(), 3);
    assert_eq!(d.subsec_nanos(), 250_000_000);
}

#[test]
fn millis_difference_is_span_when_rounding_down() {
    let delta = Timestamp::from_millis(3_250) - Timestamp::from_millis(1_000);
    assert_eq!(delta.as_secs(), 2);
    assert_eq!(delta.subsec_nanos(), 250_000_000);
    let delta = Timestamp::from_millis(1_000_000_000_000) - Timestamp::from_millis(0);
    assert_eq!(delta.as_secs(), 1_000_000_000);
    assert_eq!(delta.subsec_nanos(), 0);
}
