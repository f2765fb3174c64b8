//! The larger and the smaller of two values.
use crate::scalar::Scalar;
use crate::util::{max_int, min_int};
use vstd::prelude::*;

verus! {

/// `MinMax` trait.
pub trait MinMax: Scalar {
    /// Returns the largest of two values.
    fn max(lhs: Self, rhs: Self) -> (r: Self)
        ensures
            r.val() == max_int(lhs.val(), rhs.val()),
    ;

    /// Returns the smallest of two values.
    fn min(lhs: Self, rhs: Self) -> (r: Self)
        ensures
            r.val() == min_int(lhs.val(), rhs.val()),
    ;
}

impl<T: Scalar> MinMax for T {
    fn max(lhs: T, rhs: T) -> (r: T) {
        crate::util::max(lhs, rhs)
    }

    fn min(lhs: T, rhs: T) -> (r: T) {
        crate::util::min(lhs, rhs)
    }
}

} // verus!
