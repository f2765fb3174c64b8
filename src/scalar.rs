//! The scalar types that vectors and matrices are built from.
//!
//! Every scalar is an integer of a fixed width. Its mathematical value is
//! `val()`, and every operation states its result over that value, with a
//! precondition that keeps the result inside the type's range.
use vstd::prelude::*;

verus! {

/// True when `v` is a value of the scalar type `T`.
pub open spec fn fits<T: Scalar>(v: int) -> bool {
    T::min_val() <= v <= T::max_val()
}

/// Division truncated toward zero, as Rust's integer `/` does.
pub open spec fn div_trunc(a: int, b: int) -> int {
    if a >= 0 {
        a / b
    } else {
        -((-a) / b)
    }
}

/// A numeric type that vectors and matrices can hold.
pub trait Scalar: Copy + Sized {
    /// The mathematical value of a scalar.
    spec fn val(self) -> int;

    /// The least value of the type.
    spec fn min_val() -> int;

    /// The greatest value of the type.
    spec fn max_val() -> int;

    /// The scalar whose value is `v`, where `v` fits.
    spec fn from_val(v: int) -> Self;

    /// Every value lies in the type's range, which holds 0 and 1 and lies
    /// within the range of 64-bit integers.
    proof fn lemma_range(self)
        ensures
            Self::min_val() <= self.val() <= Self::max_val(),
            i64::MIN <= Self::min_val() <= 0,
            1 <= Self::max_val() <= u64::MAX,
    ;

    /// `from_val` gives back the value it is handed.
    proof fn lemma_from_val(v: int)
        requires
            Self::min_val() <= v <= Self::max_val(),
        ensures
            Self::from_val(v).val() == v,
    ;

    /// A scalar is determined by its value.
    proof fn lemma_from_own_val(self)
        ensures
            Self::from_val(self.val()) == self,
    ;

    fn zero() -> (r: Self)
        ensures
            r.val() == 0,
    ;

    fn one() -> (r: Self)
        ensures
            r.val() == 1,
    ;

    /// Widens to a 128-bit integer.
    fn to_i128(self) -> (r: i128)
        ensures
            r == self.val(),
    ;

    /// Narrows a 128-bit integer that fits.
    fn from_i128(v: i128) -> (r: Self)
        requires
            Self::min_val() <= v as int <= Self::max_val(),
        ensures
            r.val() == v,
    ;

    fn plus(self, rhs: Self) -> (r: Self)
        requires
            Self::min_val() <= self.val() + rhs.val() <= Self::max_val(),
        ensures
            r.val() == self.val() + rhs.val(),
    ;

    fn minus(self, rhs: Self) -> (r: Self)
        requires
            Self::min_val() <= self.val() - rhs.val() <= Self::max_val(),
        ensures
            r.val() == self.val() - rhs.val(),
    ;

    fn times(self, rhs: Self) -> (r: Self)
        requires
            Self::min_val() <= self.val() * rhs.val() <= Self::max_val(),
        ensures
            r.val() == self.val() * rhs.val(),
    ;

    /// Division truncated toward zero.
    fn divided_by(self, rhs: Self) -> (r: Self)
        requires
            rhs.val() != 0,
            Self::min_val() <= div_trunc(self.val(), rhs.val()) <= Self::max_val(),
        ensures
            r.val() == div_trunc(self.val(), rhs.val()),
    ;

    fn less_than(self, rhs: Self) -> (r: bool)
        ensures
            r == (self.val() < rhs.val()),
    ;
}

/// Converts a scalar of one type into another whose range holds its value.
pub fn cast<T: Scalar, U: Scalar>(v: U) -> (r: T)
    requires
        fits::<T>(v.val()),
    ensures
        r.val() == v.val(),
{
    T::from_i128(v.to_i128())
}

impl Scalar for i32 {
    open spec fn val(self) -> int {
        self as int
    }

    open spec fn min_val() -> int {
        i32::MIN as int
    }

    open spec fn max_val() -> int {
        i32::MAX as int
    }

    open spec fn from_val(v: int) -> i32 {
        v as i32
    }

    proof fn lemma_range(self) {
    }

    proof fn lemma_from_val(v: int) {
    }

    proof fn lemma_from_own_val(self) {
    }

    fn zero() -> (r: i32) {
        0
    }

    fn one() -> (r: i32) {
        1
    }

    fn to_i128(self) -> (r: i128) {
        self as i128
    }

    fn from_i128(v: i128) -> (r: i32) {
        v as i32
    }

    fn plus(self, rhs: i32) -> (r: i32) {
        self + rhs
    }

    fn minus(self, rhs: i32) -> (r: i32) {
        self - rhs
    }

    fn times(self, rhs: i32) -> (r: i32) {
        self * rhs
    }

    fn divided_by(self, rhs: i32) -> (r: i32) {
        proof {
            if self == i32::MIN && rhs == -1 {
                assert(div_trunc(self as int, rhs as int) == 0x8000_0000);
            }
        }
        self / rhs
    }

    fn less_than(self, rhs: i32) -> (r: bool) {
        self < rhs
    }
}

impl Scalar for i64 {
    open spec fn val(self) -> int {
        self as int
    }

    open spec fn min_val() -> int {
        i64::MIN as int
    }

    open spec fn max_val() -> int {
        i64::MAX as int
    }

    open spec fn from_val(v: int) -> i64 {
        v as i64
    }

    proof fn lemma_range(self) {
    }

    proof fn lemma_from_val(v: int) {
    }

    proof fn lemma_from_own_val(self) {
    }

    fn zero() -> (r: i64) {
        0
    }

    fn one() -> (r: i64) {
        1
    }

    fn to_i128(self) -> (r: i128) {
        self as i128
    }

    fn from_i128(v: i128) -> (r: i64) {
        v as i64
    }

    fn plus(self, rhs: i64) -> (r: i64) {
        self + rhs
    }

    fn minus(self, rhs: i64) -> (r: i64) {
        self - rhs
    }

    fn times(self, rhs: i64) -> (r: i64) {
        self * rhs
    }

    fn divided_by(self, rhs: i64) -> (r: i64) {
        proof {
            if self == i64::MIN && rhs == -1 {
                assert(div_trunc(self as int, rhs as int) == 0x8000_0000_0000_0000);
            }
        }
        self / rhs
    }

    fn less_than(self, rhs: i64) -> (r: bool) {
        self < rhs
    }
}

impl Scalar for u32 {
    open spec fn val(self) -> int {
        self as int
    }

    open spec fn min_val() -> int {
        u32::MIN as int
    }

    open spec fn max_val() -> int {
        u32::MAX as int
    }

    open spec fn from_val(v: int) -> u32 {
        v as u32
    }

    proof fn lemma_range(self) {
    }

    proof fn lemma_from_val(v: int) {
    }

    proof fn lemma_from_own_val(self) {
    }

    fn zero() -> (r: u32) {
        0
    }

    fn one() -> (r: u32) {
        1
    }

    fn to_i128(self) -> (r: i128) {
        self as i128
    }

    fn from_i128(v: i128) -> (r: u32) {
        v as u32
    }

    fn plus(self, rhs: u32) -> (r: u32) {
        self + rhs
    }

    fn minus(self, rhs: u32) -> (r: u32) {
        self - rhs
    }

    fn times(self, rhs: u32) -> (r: u32) {
        self * rhs
    }

    fn divided_by(self, rhs: u32) -> (r: u32) {
        self / rhs
    }

    fn less_than(self, rhs: u32) -> (r: bool) {
        self < rhs
    }
}

impl Scalar for u64 {
    open spec fn val(self) -> int {
        self as int
    }

    open spec fn min_val() -> int {
        u64::MIN as int
    }

    open spec fn max_val() -> int {
        u64::MAX as int
    }

    open spec fn from_val(v: int) -> u64 {
        v as u64
    }

    proof fn lemma_range(self) {
    }

    proof fn lemma_from_val(v: int) {
    }

    proof fn lemma_from_own_val(self) {
    }

    fn zero() -> (r: u64) {
        0
    }

    fn one() -> (r: u64) {
        1
    }

    fn to_i128(self) -> (r: i128) {
        self as i128
    }

    fn from_i128(v: i128) -> (r: u64) {
        v as u64
    }

    fn plus(self, rhs: u64) -> (r: u64) {
        self + rhs
    }

    fn minus(self, rhs: u64) -> (r: u64) {
        self - rhs
    }

    fn times(self, rhs: u64) -> (r: u64) {
        self * rhs
    }

    fn divided_by(self, rhs: u64) -> (r: u64) {
        self / rhs
    }

    fn less_than(self, rhs: u64) -> (r: bool) {
        self < rhs
    }
}

} // verus!
