use ac_ffmpeg::rescale::rescale_q;

#[test]
fn rescale_rounds_halfway_away_from_zero() {
    assert_eq!(rescale_q(5, 1, 10, 1, 1), 1);
    assert_eq!(rescale_q(-5, 1, 10, 1, 1), -1);
    assert_eq!(rescale_q(4, 1, 10, 1, 1), 0);
    assert_eq!(rescale_q(-4, 1, 10, 1, 1), 0);
    assert_eq!(rescale_q(15, 1, 10, 1, 1), 2);
}

#[test]
fn rescale_same_base_is_identity() {
    assert_eq!(rescale_q(123_456, 1001, 30_000, 1001, 30_000), 123_456);
    assert_eq!(rescale_q(-9, 3, 7, 3, 7), -9);
    assert_eq!(rescale_q(i64::MIN, 1, 1, 1, 1), -i64::MAX);
}

#[test]
fn rescale_invalid_time_bases() {
    assert_eq!(rescale_q(10, 1, 0, 1, 1000), i64::MIN);
    assert_eq!(rescale_q(10, 1, 1, 0, 1000), i64::MIN);
    assert_eq!(rescale_q(10, 0x8000_0000, 1, 1, 1000), i64::MIN);
    assert_eq!(rescale_q(10, 0, 1, 1, 1000), 0);
}

#[test]
fn rescale_overflow_is_null() {
    assert_eq!(rescale_q(i64::MAX, 1, 1, 1, 1000), i64::MIN);
    assert_eq!(rescale_q(-i64::MAX, 1, 1, 1, 1000), i64::MIN);
}

#[test]
fn rescale_by_whole_factor_is_exact() {
    assert_eq!(rescale_q(7, 1, 1, 1, 1000), 7000);
    assert_eq!(rescale_q(-7, 1, 1, 1, 1000), -7000);
    assert_eq!(rescale_q(7000, 1, 1000, 1, 1), 7);
}
