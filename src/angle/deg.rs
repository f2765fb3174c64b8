//! An angle in degrees.
use crate::scalar::{cast, fits, Scalar};
use vstd::prelude::*;

verus! {

/// Stores a value in Degrees.
#[derive(Clone, Copy, Debug, Default, PartialEq, PartialOrd)]
pub struct Deg<T> {
    /// The value of the degree.
    pub value: T,
}

impl<T: Scalar> Deg<T> {
    /// Returns a new `Deg` instance, converting the value to `T`.
    pub fn new<C: Scalar>(value: C) -> (r: Deg<T>)
        requires
            fits::<T>(value.val()),
        ensures
            r.value.val() == value.val(),
    {
        Deg { value: cast(value) }
    }
}

} // verus!
