//! The timing reference: the frame period, computed once from the video
//! stream's frame rate and read by the display consumer's timer.

use vstd::prelude::*;

verus! {

/// Nanoseconds in a second.
pub const NANOS_PER_SECOND: u64 = 1_000_000_000;

/// The absolute value of an integer.
pub open spec fn magnitude(value: int) -> int {
    if value < 0 {
        -value
    } else {
        value
    }
}

/// The frame period in nanoseconds for a rate of `numerator / denominator`
/// frames per second: the reciprocal of the rate, rounded down to whole
/// nanoseconds. A rate of zero frames per second has the longest period there
/// is. A rate that is negative or has no value (zero over zero) has a period
/// of zero, which makes every look at the timer a tick.
pub open spec fn period_nanos(numerator: int, denominator: int) -> int {
    if numerator == 0 {
        if denominator > 0 {
            u64::MAX as int
        } else {
            0
        }
    } else if denominator == 0 || (numerator > 0) != (denominator > 0) {
        0
    } else {
        (magnitude(denominator) * NANOS_PER_SECOND) / magnitude(numerator)
    }
}

/// The frame period in nanoseconds of a stream whose average frame rate is
/// `numerator / denominator` frames per second.
pub fn frame_period_nanos(numerator: i32, denominator: i32) -> (period: u64)
    ensures
        period == period_nanos(numerator as int, denominator as int),
{
    if numerator == 0 {
        if denominator > 0 {
            u64::MAX
        } else {
            0
        }
    } else if denominator == 0 || (numerator > 0) != (denominator > 0) {
        0
    } else {
        let rate: i64 = if numerator < 0 {
            -(numerator as i64)
        } else {
            numerator as i64
        };
        let scale: i64 = if denominator < 0 {
            -(denominator as i64)
        } else {
            denominator as i64
        };
        ((scale as u64) * NANOS_PER_SECOND) / (rate as u64)
    }
}

} // verus!
