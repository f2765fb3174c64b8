//! Clamping of a value between two bounds.
use crate::scalar::Scalar;
use crate::util::clamp_int;
use vstd::prelude::*;

verus! {

/// Clamp trait.
pub trait Clamp: Scalar {
    /// Clamps a value between two numbers.
    fn clamp(&self, min: &Self, max: &Self) -> (r: Self)
        requires
            min.val() < max.val(),
        ensures
            r.val() == clamp_int(self.val(), min.val(), max.val()),
    ;
}

impl<T: Scalar> Clamp for T {
    fn clamp(&self, min: &T, max: &T) -> (r: T) {
        crate::util::clamp(*self, *min, *max)
    }
}

} // verus!
