//! Small numeric utilities: clamping, interpolation, minimum and maximum.
pub mod clamp;
pub mod lerp;
pub mod min_max;

pub use self::clamp::Clamp;
pub use self::lerp::{Fraction, Lerp};
pub use self::min_max::MinMax;

use crate::scalar::Scalar;
use vstd::prelude::*;

verus! {

/// `v` restricted to the closed range `[lo, hi]`.
pub open spec fn clamp_int(v: int, lo: int, hi: int) -> int {
    if v < lo {
        lo
    } else if v > hi {
        hi
    } else {
        v
    }
}

/// The larger of two values; on a tie, `b`.
pub open spec fn max_int(a: int, b: int) -> int {
    if a > b {
        a
    } else {
        b
    }
}

/// The smaller of two values; on a tie, `b`.
pub open spec fn min_int(a: int, b: int) -> int {
    if a < b {
        a
    } else {
        b
    }
}

/// `start + (end - start) * num / den`, truncated toward zero.
pub open spec fn lerp_int(start: int, end: int, num: int, den: int) -> int {
    crate::scalar::div_trunc(start * den + (end - start) * num, den)
}

/// Clamps a value between two numbers.
pub fn clamp<T: Scalar>(value: T, min: T, max: T) -> (r: T)
    requires
        min.val() < max.val(),
    ensures
        r.val() == clamp_int(value.val(), min.val(), max.val()),
{
    if value.less_than(min) {
        min
    } else if max.less_than(value) {
        max
    } else {
        value
    }
}

/// Linearly interpolates between two values, with `percentage` clamped to
/// `[0, 1]`.
pub fn lerp<T: Scalar>(start: T, end: T, percentage: Fraction) -> (r: T)
    requires
        percentage.wf(),
    ensures
        r.val() == lerp_int(
            start.val(),
            end.val(),
            percentage.clamped_spec().num as int,
            percentage.den as int,
        ),
{
    let t = percentage.clamped();
    proof {
        self::lerp::lemma_lerp_between(start.val(), end.val(), t.num as int, t.den as int);
        start.lemma_range();
        end.lemma_range();
    }
    self::lerp::lerp_unclamped(start, end, t)
}

/// Returns the larger of two values.
pub fn max<T: Scalar>(lhs: T, rhs: T) -> (r: T)
    ensures
        r.val() == max_int(lhs.val(), rhs.val()),
{
    if rhs.less_than(lhs) {
        lhs
    } else {
        rhs
    }
}

/// Returns the smaller of two values.
pub fn min<T: Scalar>(lhs: T, rhs: T) -> (r: T)
    ensures
        r.val() == min_int(lhs.val(), rhs.val()),
{
    if lhs.less_than(rhs) {
        lhs
    } else {
        rhs
    }
}

} // verus!
