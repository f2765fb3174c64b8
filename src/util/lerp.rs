//! Linear interpolation.
use crate::scalar::{div_trunc, fits, Scalar};
use crate::util::{lerp_int, max_int, min_int};
use vstd::arithmetic::div_mod::{lemma_div_is_ordered, lemma_div_multiples_vanish};
use vstd::prelude::*;

verus! {

/// An interpolation parameter, the exact fraction `num / den`.
#[derive(Clone, Copy, Debug, PartialEq, Eq)]
pub struct Fraction {
    /// The numerator; negative, or above `den`, for a point outside the segment.
    pub num: i32,
    /// The denominator, above zero.
    pub den: u32,
}

impl Fraction {
    /// A fraction is well formed when its denominator is positive.
    pub open spec fn wf(self) -> bool {
        self.den > 0
    }

    /// The fraction clamped to `[0, 1]`.
    pub open spec fn clamped_spec(self) -> Fraction {
        if self.num < 0 {
            Fraction { num: 0, den: self.den }
        } else if self.num as int > self.den as int {
            Fraction { num: self.den as i32, den: self.den }
        } else {
            self
        }
    }

    /// Returns the fraction `num / den`.
    pub fn new(num: i32, den: u32) -> (r: Fraction)
        requires
            den > 0,
        ensures
            r.num == num,
            r.den == den,
            r.wf(),
    {
        Fraction { num, den }
    }

    /// Returns the fraction clamped to `[0, 1]`, over the same denominator.
    pub fn clamped(&self) -> (r: Fraction)
        requires
            self.wf(),
        ensures
            r == self.clamped_spec(),
            r.wf(),
            0 <= r.num <= r.den,
    {
        if self.num < 0 {
            Fraction { num: 0, den: self.den }
        } else if self.num as u32 > self.den {
            // here den < num <= i32::MAX
            Fraction { num: self.den as i32, den: self.den }
        } else {
            *self
        }
    }
}

/// Truncated division by a positive `den` keeps a lower bound `lo * den`
/// as `lo`, and an upper bound `hi * den` as `hi`.
proof fn lemma_div_trunc_bounds(x: int, den: int, lo: int, hi: int)
    requires
        den > 0,
    ensures
        x >= den * lo ==> div_trunc(x, den) >= lo,
        x <= den * hi ==> div_trunc(x, den) <= hi,
{
    lemma_div_multiples_vanish(lo, den);
    lemma_div_multiples_vanish(hi, den);
    lemma_div_multiples_vanish(-lo, den);
    lemma_div_multiples_vanish(-hi, den);
    assert(den * (-lo) == -(den * lo)) by (nonlinear_arith);
    assert(den * (-hi) == -(den * hi)) by (nonlinear_arith);
    if x >= 0 {
        if x >= den * lo {
            lemma_div_is_ordered(den * lo, x, den);
        }
        if x <= den * hi {
            lemma_div_is_ordered(x, den * hi, den);
        }
    } else {
        if x >= den * lo {
            lemma_div_is_ordered(-x, den * (-lo), den);
        }
        if x <= den * hi {
            lemma_div_is_ordered(den * (-hi), -x, den);
        }
    }
}

/// For a fraction in `[0, 1]`, the interpolated value lies between the two
/// ends.
pub proof fn lemma_lerp_between(start: int, end: int, num: int, den: int)
    requires
        0 <= num <= den,
        den > 0,
    ensures
        min_int(start, end) <= lerp_int(start, end, num, den) <= max_int(start, end),
{
    let lo = min_int(start, end);
    let hi = max_int(start, end);
    let total = start * den + (end - start) * num;
    assert(den * lo <= total <= den * hi) by (nonlinear_arith)
        requires
            total == start * den + (end - start) * num,
            0 <= num <= den,
            lo <= start <= hi,
            lo <= end <= hi,
            lo == start || lo == end,
            hi == start || hi == end,
    ;
    lemma_div_trunc_bounds(total, den, lo, hi);
}

/// Interpolating by 0 gives the start, and by 1 the end, exactly.
pub proof fn lemma_lerp_boundary<T: Scalar>(start: T, end: T, percentage: Fraction)
    requires
        percentage.wf(),
    ensures
        percentage.num == 0 ==> lerp_int(
            start.val(),
            end.val(),
            percentage.clamped_spec().num as int,
            percentage.den as int,
        ) == start.val(),
        percentage.num == percentage.den ==> lerp_int(
            start.val(),
            end.val(),
            percentage.clamped_spec().num as int,
            percentage.den as int,
        ) == end.val(),
{
    let s = start.val();
    let e = end.val();
    let d = percentage.den as int;
    assert(s * d + (e - s) * 0 == d * s) by (nonlinear_arith);
    assert(s * d + (e - s) * d == d * e) by (nonlinear_arith);
    lemma_div_trunc_bounds(d * s, d, s, s);
    lemma_div_trunc_bounds(d * e, d, e, e);
}

/// Outside `[0, 1]` the clamped interpolation stops at the nearer end,
/// and is the unclamped one at the clamped fraction; the unclamped one
/// goes on past that end.
pub proof fn lemma_lerp_clamping<T: Scalar>(start: T, end: T, percentage: Fraction)
    requires
        percentage.wf(),
    ensures
        ({
            let s = start.val();
            let e = end.val();
            let n = percentage.num as int;
            let d = percentage.den as int;
            let clamped = lerp_int(s, e, percentage.clamped_spec().num as int, d);
            let unclamped = lerp_int(s, e, n, d);
            &&& n < 0 ==> clamped == s
            &&& n > d ==> clamped == e
            &&& 0 <= n <= d ==> clamped == unclamped
            &&& n < 0 && s <= e ==> unclamped <= s
            &&& n < 0 && s >= e ==> unclamped >= s
            &&& n > d && s <= e ==> unclamped >= e
            &&& n > d && s >= e ==> unclamped <= e
        }),
{
    let s = start.val();
    let e = end.val();
    let n = percentage.num as int;
    let d = percentage.den as int;
    let total = s * d + (e - s) * n;
    lemma_lerp_boundary(start, end, percentage.clamped_spec());
    lemma_lerp_boundary(start, end, percentage);
    if n < 0 {
        assert(percentage.clamped_spec().num == 0);
        lemma_lerp_boundary(start, end, Fraction { num: 0, den: percentage.den });
        if s <= e {
            assert(total <= d * s) by (nonlinear_arith)
                requires
                    total == s * d + (e - s) * n,
                    n < 0,
                    s <= e,
            ;
        }
        if s >= e {
            assert(total >= d * s) by (nonlinear_arith)
                requires
                    total == s * d + (e - s) * n,
                    n < 0,
                    s >= e,
            ;
        }
        lemma_div_trunc_bounds(total, d, s, s);
    }
    if n > d {
        let one = Fraction { num: percentage.den as i32, den: percentage.den };
        assert(one.num as int == d);
        assert(percentage.clamped_spec() == one);
        lemma_lerp_boundary(start, end, one);
        if s <= e {
            assert(total >= d * e) by (nonlinear_arith)
                requires
                    total == s * d + (e - s) * n,
                    n > d,
                    s <= e,
            ;
        }
        if s >= e {
            assert(total <= d * e) by (nonlinear_arith)
                requires
                    total == s * d + (e - s) * n,
                    n > d,
                    s >= e,
            ;
        }
        lemma_div_trunc_bounds(total, d, e, e);
    }
}

/// Linearly interpolates between two values, with `percentage` taken as it
/// is: outside `[0, 1]` the line goes on past the ends.
pub fn lerp_unclamped<T: Scalar>(start: T, end: T, percentage: Fraction) -> (r: T)
    requires
        percentage.wf(),
        fits::<T>(
            lerp_int(start.val(), end.val(), percentage.num as int, percentage.den as int),
        ),
    ensures
        r.val() == lerp_int(
            start.val(),
            end.val(),
            percentage.num as int,
            percentage.den as int,
        ),
{
    let s = start.to_i128();
    let e = end.to_i128();
    let n = percentage.num as i128;
    let d = percentage.den as i128;
    proof {
        start.lemma_range();
        end.lemma_range();
        assert(-0x1_0000_0000_0000_0000_0000_0000 <= s * d <= 0x1_0000_0000_0000_0000_0000_0000)
            by (nonlinear_arith)
            requires
                -0x1_0000_0000_0000_0000 <= s <= 0x1_0000_0000_0000_0000,
                0 < d <= 0x1_0000_0000,
        ;
        assert(-0x1_0000_0000_0000_0000_0000_0000 <= (e - s) * n
            <= 0x1_0000_0000_0000_0000_0000_0000) by (nonlinear_arith)
            requires
                -0x2_0000_0000_0000_0000 <= e - s <= 0x2_0000_0000_0000_0000,
                -0x8000_0000 <= n <= 0x8000_0000,
        ;
    }
    let total = s * d + (e - s) * n;
    let q = total / d;
    T::from_i128(q)
}

/// The lerp trait.
pub trait Lerp: Scalar {
    /// Linearly interpolates between two values.
    fn lerp(start: &Self, end: &Self, percentage: Fraction) -> (r: Self)
        requires
            percentage.wf(),
        ensures
            r.val() == lerp_int(
                start.val(),
                end.val(),
                percentage.clamped_spec().num as int,
                percentage.den as int,
            ),
    ;

    /// Linearly interpolates between two values without clamping.
    fn lerp_unclamped(start: &Self, end: &Self, percentage: Fraction) -> (r: Self)
        requires
            percentage.wf(),
            Self::min_val() <= lerp_int(
                start.val(),
                end.val(),
                percentage.num as int,
                percentage.den as int,
            ) <= Self::max_val(),
        ensures
            r.val() == lerp_int(
                start.val(),
                end.val(),
                percentage.num as int,
                percentage.den as int,
            ),
    ;
}

impl<T: Scalar> Lerp for T {
    fn lerp(start: &T, end: &T, percentage: Fraction) -> (r: T) {
        crate::util::lerp(*start, *end, percentage)
    }

    fn lerp_unclamped(start: &T, end: &T, percentage: Fraction) -> (r: T) {
        lerp_unclamped(*start, *end, percentage)
    }
}

} // verus!
