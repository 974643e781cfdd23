use playback_core::timing::{frame_period_nanos, NANOS_PER_SECOND};

#[test]
fn period_is_the_reciprocal_of_the_rate() {
    assert_eq!(NANOS_PER_SECOND, 1_000_000_000);
    assert_eq!(frame_period_nanos(30, 1), 33_333_333);
    assert_eq!(frame_period_nanos(25, 1), 40_000_000);
    assert_eq!(frame_period_nanos(60, 1), 16_666_666);
    assert_eq!(frame_period_nanos(30_000, 1_001), 33_366_666);
    assert_eq!(frame_period_nanos(24_000, 1_001), 41_708_333);
    assert_eq!(frame_period_nanos(1, 1), 1_000_000_000);
    assert_eq!(frame_period_nanos(1, 2), 2_000_000_000);
}

#[test]
fn period_rounds_down() {
    assert_eq!(frame_period_nanos(3, 1), 333_333_333);
    assert_eq!(frame_period_nanos(i32::MAX, 1), 0);
    assert_eq!(frame_period_nanos(1_000_000_001, 1), 0);
    assert_eq!(frame_period_nanos(1_000_000_000, 1), 1);
}

#[test]
fn longest_finite_period() {
    assert_eq!(frame_period_nanos(1, i32::MAX), 2_147_483_647_000_000_000);
    assert_eq!(frame_period_nanos(-1, i32::MIN), 2_147_483_648_000_000_000);
}

#[test]
fn zero_rate_never_ticks() {
    assert_eq!(frame_period_nanos(0, 1), u64::MAX);
    assert_eq!(frame_period_nanos(0, i32::MAX), u64::MAX);
}

#[test]
fn rate_without_value_or_below_zero_has_no_period() {
    assert_eq!(frame_period_nanos(0, 0), 0);
    assert_eq!(frame_period_nanos(0, -1), 0);
    assert_eq!(frame_period_nanos(30, 0), 0);
    assert_eq!(frame_period_nanos(-30, 1), 0);
    assert_eq!(frame_period_nanos(30, -1), 0);
    assert_eq!(frame_period_nanos(i32::MIN, 1), 0);
}

#[test]
fn two_negatives_make_a_rate() {
    assert_eq!(frame_period_nanos(-30, -1), 33_333_333);
    assert_eq!(frame_period_nanos(i32::MIN, i32::MIN), 1_000_000_000);
}

#[test]
fn period_agrees_with_floating_point_on_common_rates() {
    let rates: [(i32, i32); 8] =
        [(30, 1), (24, 1), (60, 1), (30_000, 1_001), (24_000, 1_001), (15, 1), (50, 1), (12, 1)];
    for (numerator, denominator) in rates {
        let float = ((denominator as f64) / (numerator as f64) * 1_000_000_000.0) as u64;
        assert_eq!(frame_period_nanos(numerator, denominator), float);
    }
}
