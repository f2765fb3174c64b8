//! The operations that every vector type offers.
use crate::scalar::Scalar;
use crate::util::Fraction;
use crate::vector::{below_all, dot, fits_all, running_fits, vclamp, vlerp, vmax, vmin, vmul};
use vstd::prelude::*;

verus! {

/// Implemented by all vector types.
pub trait VecTrait: Sized + Default + View<V = Seq<int>> {
    /// The vector component type.
    type ValType: Scalar;

    /// Lerps between two vectors, with `percentage` clamped to `[0, 1]`.
    fn lerp(start: &Self, end: &Self, percentage: Fraction) -> (r: Self)
        requires
            percentage.wf(),
        ensures
            r@ == vlerp(
                start@,
                end@,
                percentage.clamped_spec().num as int,
                percentage.den as int,
            ),
    ;

    /// Lerps between two vectors, with `percentage` taken as it is.
    fn lerp_unclamped(start: &Self, end: &Self, percentage: Fraction) -> (r: Self)
        requires
            percentage.wf(),
            fits_all::<Self::ValType>(
                vlerp(start@, end@, percentage.num as int, percentage.den as int),
            ),
        ensures
            r@ == vlerp(start@, end@, percentage.num as int, percentage.den as int),
    ;

    /// Returns the largest components of two vectors.
    fn max(lhs: &Self, rhs: &Self) -> (r: Self)
        ensures
            r@ == vmax(lhs@, rhs@),
    ;

    /// Returns the smallest components of two vectors.
    fn min(lhs: &Self, rhs: &Self) -> (r: Self)
        ensures
            r@ == vmin(lhs@, rhs@),
    ;

    /// Clamps a vector between two values.
    fn clamp(&self, min: &Self, max: &Self) -> (r: Self)
        requires
            below_all(min@, max@),
        ensures
            r@ == vclamp(self@, min@, max@),
    ;

    /// Returns the dot product of two vectors, summed from the first
    /// component on.
    fn dot(&self, rhs: &Self) -> (r: Self::ValType)
        requires
            running_fits::<Self::ValType>(vmul(self@, rhs@)),
        ensures
            r.val() == dot(self@, rhs@),
    ;
}

} // verus!
