//! Vectors of two, three and four components.
//!
//! Each vector is viewed as the sequence of the values of its components,
//! `x` first. The component-wise operations below are stated over such
//! sequences, for every dimension at once.
pub mod vec2;
pub mod vec3;
pub mod vec4;
pub mod vec_trait;

pub use self::vec2::{Vec2, Vec2i, Vec2u};
pub use self::vec3::{Vec3, Vec3i, Vec3u};
pub use self::vec4::{Vec4, Vec4i, Vec4u};
pub use self::vec_trait::VecTrait;

use crate::scalar::{div_trunc, fits, Scalar};
use crate::util::{clamp_int, lerp_int, max_int, min_int};
use vstd::prelude::*;

verus! {

/// Every entry of `s` is a value of `T`.
pub open spec fn fits_all<T: Scalar>(s: Seq<int>) -> bool {
    forall|i: int| 0 <= i < s.len() ==> fits::<T>(#[trigger] s[i])
}

/// `n` copies of `v`.
pub open spec fn splat(n: nat, v: int) -> Seq<int> {
    Seq::new(n, |i: int| v)
}

/// Component-wise sum.
pub open spec fn vadd(a: Seq<int>, b: Seq<int>) -> Seq<int> {
    Seq::new(a.len(), |i: int| a[i] + b[i])
}

/// Component-wise difference.
pub open spec fn vsub(a: Seq<int>, b: Seq<int>) -> Seq<int> {
    Seq::new(a.len(), |i: int| a[i] - b[i])
}

/// Component-wise product.
pub open spec fn vmul(a: Seq<int>, b: Seq<int>) -> Seq<int> {
    Seq::new(a.len(), |i: int| a[i] * b[i])
}

/// Component-wise quotient, truncated toward zero.
pub open spec fn vdiv(a: Seq<int>, b: Seq<int>) -> Seq<int> {
    Seq::new(a.len(), |i: int| div_trunc(a[i], b[i]))
}

/// No component of `s` is zero.
pub open spec fn nonzero_all(s: Seq<int>) -> bool {
    forall|i: int| 0 <= i < s.len() ==> #[trigger] s[i] != 0
}

/// Component-wise maximum.
pub open spec fn vmax(a: Seq<int>, b: Seq<int>) -> Seq<int> {
    Seq::new(a.len(), |i: int| max_int(a[i], b[i]))
}

/// Component-wise minimum.
pub open spec fn vmin(a: Seq<int>, b: Seq<int>) -> Seq<int> {
    Seq::new(a.len(), |i: int| min_int(a[i], b[i]))
}

/// Each component of `a` clamped between those of `lo` and `hi`.
pub open spec fn vclamp(a: Seq<int>, lo: Seq<int>, hi: Seq<int>) -> Seq<int> {
    Seq::new(a.len(), |i: int| clamp_int(a[i], lo[i], hi[i]))
}

/// Each component of `lo` lies strictly below that of `hi`.
pub open spec fn below_all(lo: Seq<int>, hi: Seq<int>) -> bool {
    forall|i: int| 0 <= i < lo.len() ==> #[trigger] lo[i] < hi[i]
}

/// Component-wise interpolation by the fraction `num / den`.
pub open spec fn vlerp(a: Seq<int>, b: Seq<int>, num: int, den: int) -> Seq<int> {
    Seq::new(a.len(), |i: int| lerp_int(a[i], b[i], num, den))
}

/// `f(0) + f(1) + ... + f(n - 1)`, summed from the left.
pub open spec fn sum(n: int, f: spec_fn(int) -> int) -> int
    decreases n,
{
    if n <= 0 {
        0
    } else {
        sum(n - 1, f) + f(n - 1)
    }
}

/// The component-wise products of `a` and `b`, as a function of the index.
pub open spec fn prods(a: Seq<int>, b: Seq<int>) -> spec_fn(int) -> int {
    |i: int| a[i] * b[i]
}

/// The dot product: the sum of the component-wise products.
pub open spec fn dot(a: Seq<int>, b: Seq<int>) -> int {
    sum(a.len() as int, prods(a, b))
}

/// Every term of `t`, and every running total of its terms from the first
/// on, is a value of `T`. Sums here have at most four terms.
pub open spec fn running_fits<T: Scalar>(t: Seq<int>) -> bool {
    &&& t.len() <= 4
    &&& t.len() >= 1 ==> fits::<T>(t[0])
    &&& t.len() >= 2 ==> fits::<T>(t[1]) && fits::<T>(t[0] + t[1])
    &&& t.len() >= 3 ==> fits::<T>(t[2]) && fits::<T>(t[0] + t[1] + t[2])
    &&& t.len() >= 4 ==> fits::<T>(t[3]) && fits::<T>(t[0] + t[1] + t[2] + t[3])
}

/// Where the terms of `t` are the values of `f`, and their running totals
/// fit, so does each partial sum of `f`.
pub proof fn lemma_running_fits<T: Scalar>(t: Seq<int>, f: spec_fn(int) -> int)
    requires
        running_fits::<T>(t),
        forall|i: int| 0 <= i < t.len() ==> #[trigger] f(i) == t[i],
    ensures
        forall|k: int| 0 <= k < t.len() ==> fits::<T>(#[trigger] f(k)) && fits::<T>(sum(k + 1, f)),
{
    assert(sum(0, f) == 0);
    assert(sum(1, f) == sum(0, f) + f(0));
    assert(sum(2, f) == sum(1, f) + f(1));
    assert(sum(3, f) == sum(2, f) + f(2));
    assert(sum(4, f) == sum(3, f) + f(3));
    assert forall|k: int| 0 <= k < t.len() implies fits::<T>(#[trigger] f(k)) && fits::<T>(
        sum(k + 1, f),
    ) by {
        assert(f(k) == t[k]);
    }
}

/// The cross product of two three-component sequences.
pub open spec fn cross(a: Seq<int>, b: Seq<int>) -> Seq<int> {
    seq![
        a[1] * b[2] - a[2] * b[1],
        a[2] * b[0] - a[0] * b[2],
        a[0] * b[1] - a[1] * b[0],
    ]
}

/// Every product that the cross product of `a` and `b` is made of, and
/// every component of it, is a value of `T`.
pub open spec fn cross_fits<T: Scalar>(a: Seq<int>, b: Seq<int>) -> bool {
    &&& fits::<T>(a[1] * b[2])
    &&& fits::<T>(a[2] * b[1])
    &&& fits::<T>(a[2] * b[0])
    &&& fits::<T>(a[0] * b[2])
    &&& fits::<T>(a[0] * b[1])
    &&& fits::<T>(a[1] * b[0])
    &&& fits_all::<T>(cross(a, b))
}

/// Component-wise addition and multiplication commute: `a + b == b + a`
/// and `a * b == b * a` for vectors of one dimension.
pub proof fn lemma_add_mul_commutative(a: Seq<int>, b: Seq<int>)
    requires
        a.len() == b.len(),
    ensures
        vadd(a, b) == vadd(b, a),
        vmul(a, b) == vmul(b, a),
{
    assert(vadd(a, b) =~= vadd(b, a));
    assert forall|i: int| 0 <= i < a.len() implies #[trigger] vmul(a, b)[i] == vmul(b, a)[i] by {
        vstd::arithmetic::mul::lemma_mul_is_commutative(a[i], b[i]);
    }
    assert(vmul(a, b) =~= vmul(b, a));
}

/// The cross product of two three-component vectors is orthogonal to
/// both: its dot product with either is zero.
pub proof fn lemma_cross_orthogonal(a: Seq<int>, b: Seq<int>)
    requires
        a.len() == 3,
        b.len() == 3,
    ensures
        dot(a, cross(a, b)) == 0,
        dot(b, cross(a, b)) == 0,
{
    let c = cross(a, b);
    let fa = prods(a, c);
    let fb = prods(b, c);
    assert(sum(0, fa) == 0);
    assert(sum(1, fa) == fa(0));
    assert(sum(2, fa) == sum(1, fa) + fa(1));
    assert(sum(3, fa) == sum(2, fa) + fa(2));
    assert(sum(0, fb) == 0);
    assert(sum(1, fb) == fb(0));
    assert(sum(2, fb) == sum(1, fb) + fb(1));
    assert(sum(3, fb) == sum(2, fb) + fb(2));
    let (a0, a1, a2, b0, b1, b2) = (a[0], a[1], a[2], b[0], b[1], b[2]);
    assert(a0 * (a1 * b2 - a2 * b1) + a1 * (a2 * b0 - a0 * b2) + a2 * (a0 * b1 - a1 * b0) == 0)
        by (nonlinear_arith);
    assert(b0 * (a1 * b2 - a2 * b1) + b1 * (a2 * b0 - a0 * b2) + b2 * (a0 * b1 - a1 * b0) == 0)
        by (nonlinear_arith);
}

/// Widening a vector with zeros and narrowing it back gives the vector
/// again: `Vec2 -> Vec3 -> Vec2`, `Vec2 -> Vec4 -> Vec2` and
/// `Vec3 -> Vec4 -> Vec3` keep every component.
pub proof fn lemma_widen_narrow(v: Seq<int>, extra: nat)
    ensures
        (v + splat(extra, 0)).take(v.len() as int) == v,
{
    assert((v + splat(extra, 0)).take(v.len() as int) =~= v);
}

} // verus!
