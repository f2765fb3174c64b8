//! An angle in radians.
use crate::scalar::{cast, fits, Scalar};
use vstd::prelude::*;

verus! {

/// Stores a value in Radians.
#[derive(Clone, Copy, Debug, Default, PartialEq, PartialOrd)]
pub struct Rad<T> {
    /// The value of the radian.
    pub value: T,
}

impl<T: Scalar> Rad<T> {
    /// Returns a new `Rad` instance, converting the value to `T`.
    pub fn new<C: Scalar>(value: C) -> (r: Rad<T>)
        requires
            fits::<T>(value.val()),
        ensures
            r.value.val() == value.val(),
    {
        Rad { value: cast(value) }
    }
}

} // verus!
