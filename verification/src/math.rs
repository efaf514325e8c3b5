//! Scalar helpers: minimum, maximum, clamping, and the absolute-value
//! spec function the overflow preconditions elsewhere in the crate use.

use vstd::prelude::*;

verus! {

/// Absolute value of a mathematical integer.
pub open spec fn abs_val(x: int) -> int {
    if x < 0 {
        -x
    } else {
        x
    }
}

/// The smaller of two coordinates.
pub fn min(a: i64, b: i64) -> (r: i64)
    ensures
        r == if a < b {
            a
        } else {
            b
        },
{
    if a < b {
        a
    } else {
        b
    }
}

/// The larger of two coordinates.
pub fn max(a: i64, b: i64) -> (r: i64)
    ensures
        r == if a > b {
            a
        } else {
            b
        },
{
    if a > b {
        a
    } else {
        b
    }
}

/// `value` forced into the interval `[lo, hi]`: `lo` when below it, `hi`
/// when above it, unchanged otherwise.
/// Linear interpolation along the segment from `start` to `end`: the point
/// `t` steps of the whole difference past `start`. `t` of zero returns
/// `start`, `t` of one returns `end`, and other factors extrapolate.
pub fn lerp(start: i64, end: i64, t: i64) -> (r: i64)
    requires
        i64::MIN <= end - start <= i64::MAX,
        i64::MIN <= t * (end - start) <= i64::MAX,
        i64::MIN <= start + t * (end - start) <= i64::MAX,
    ensures
        r == start + t * (end - start),
{
    start + t * (end - start)
}

/// Whether `a` and `b` lie strictly within `epsilon` of one another. With a
/// non-positive `epsilon` nothing is close to anything, not even to itself.
pub fn approx_equal(a: i64, b: i64, epsilon: i64) -> (r: bool)
    ensures
        r == (abs_val(a - b) < epsilon),
{
    let d: i128 = a as i128 - b as i128;
    let e: i128 = epsilon as i128;
    -e < d && d < e
}

/// Whether `a` lies strictly within `epsilon` of zero.
pub fn approx_zero(a: i64, epsilon: i64) -> (r: bool)
    ensures
        r == (abs_val(a as int) < epsilon),
{
    let d: i128 = a as i128;
    let e: i128 = epsilon as i128;
    -e < d && d < e
}

pub fn clamp(value: i64, lo: i64, hi: i64) -> (r: i64)
    ensures
        r == if value < lo {
            lo
        } else if value > hi {
            hi
        } else {
            value
        },
{
    if value < lo {
        lo
    } else if value > hi {
        hi
    } else {
        value
    }
}

} // verus!
