//! The generic `Vec2` type.
use crate::scalar::{cast, fits, Scalar};
use crate::util::{self, Fraction};
use crate::vector::{
    fits_all, nonzero_all, prods, splat, sum, vadd, vclamp, vdiv, vlerp, vmax, vmin, vmul, vsub,
    VecTrait,
};
use crate::vector::{Vec3, Vec4};
use vstd::prelude::*;

verus! {

/// The generic `Vec2` struct.
///
/// It is used for 2D transformations and graphics.
/// It can hold any scalar type as its components.
#[derive(Clone, Copy, Debug, PartialEq)]
pub struct Vec2<T> {
    /// The vector x-coordinate.
    pub x: T,
    /// The vector y-coordinate.
    pub y: T,
}

/// `Vec2<i32>`
pub type Vec2i = Vec2<i32>;

/// `Vec2<u32>`
pub type Vec2u = Vec2<u32>;

impl<T: Scalar> View for Vec2<T> {
    type V = Seq<int>;

    open spec fn view(&self) -> Seq<int> {
        seq![self.x.val(), self.y.val()]
    }
}

impl<T: Scalar> Vec2<T> {
    /// The vector whose components have the values in `s`.
    pub open spec fn from_view(s: Seq<int>) -> Vec2<T> {
        Vec2 { x: T::from_val(s[0]), y: T::from_val(s[1]) }
    }

    /// A vector is the one that its view describes.
    pub proof fn lemma_view(self)
        ensures
            Self::from_view(self@) == self,
    {
        self.x.lemma_from_own_val();
        self.y.lemma_from_own_val();
    }

    /// Returns a new `Vec2<T>` instance, converting each component to `T`.
    pub fn new<C: Scalar>(x: C, y: C) -> (r: Vec2<T>)
        requires
            fits::<T>(x.val()),
            fits::<T>(y.val()),
        ensures
            r@ == seq![x.val(), y.val()],
    {
        Vec2 { x: cast(x), y: cast(y) }
    }

    /// Returns `value` with each component converted to `T`.
    pub fn cast<U: Scalar>(value: &Vec2<U>) -> (r: Vec2<T>)
        requires
            fits_all::<T>(value@),
        ensures
            r@ == value@,
    {
        proof {
            assert(fits::<T>(value@[0]) && fits::<T>(value@[1]));
        }
        Vec2::new(value.x, value.y)
    }
}

impl<T: Scalar> From<T> for Vec2<T> {
    /// Every component set to `value`.
    fn from(value: T) -> (r: Vec2<T>)
        ensures
            r@ == splat(2, value.val()),
    {
        let r = Vec2 { x: value, y: value };
        assert(r@ =~= splat(2, value.val()));
        r
    }
}

impl<T: Scalar> vstd::std_specs::convert::FromSpecImpl<T> for Vec2<T> {
    open spec fn obeys_from_spec() -> bool {
        true
    }

    open spec fn from_spec(value: T) -> Vec2<T> {
        Vec2 { x: value, y: value }
    }
}

impl<'a, T: Scalar> From<&'a Vec3<T>> for Vec2<T> {
    /// Drops the components that a `Vec2` lacks.
    fn from(value: &'a Vec3<T>) -> (r: Vec2<T>)
        ensures
            r@ == value@.take(2),
    {
        let r = Vec2 { x: value.x, y: value.y };
        proof {
            assert(r@ =~= value@.take(2));
        }
        r
    }
}

impl<'a, T: Scalar> vstd::std_specs::convert::FromSpecImpl<&'a Vec3<T>> for Vec2<T> {
    open spec fn obeys_from_spec() -> bool {
        true
    }

    open spec fn from_spec(value: &'a Vec3<T>) -> Vec2<T> {
        Vec2 { x: value.x, y: value.y }
    }
}

impl<'a, T: Scalar> From<&'a Vec4<T>> for Vec2<T> {
    /// Drops the components that a `Vec2` lacks.
    fn from(value: &'a Vec4<T>) -> (r: Vec2<T>)
        ensures
            r@ == value@.take(2),
    {
        let r = Vec2 { x: value.x, y: value.y };
        proof {
            assert(r@ =~= value@.take(2));
        }
        r
    }
}

impl<'a, T: Scalar> vstd::std_specs::convert::FromSpecImpl<&'a Vec4<T>> for Vec2<T> {
    open spec fn obeys_from_spec() -> bool {
        true
    }

    open spec fn from_spec(value: &'a Vec4<T>) -> Vec2<T> {
        Vec2 { x: value.x, y: value.y }
    }
}

impl<T: Scalar> core::ops::Add for Vec2<T> {
    type Output = Vec2<T>;

    /// The sum, component by component.
    fn add(self, rhs: Vec2<T>) -> (r: Vec2<T>)
        ensures
            r@ == vadd(self@, rhs@),
    {
        proof {
            let s = vadd(self@, rhs@);
            assert(fits::<T>(s[0]) && fits::<T>(s[1]));
        }
        let r = Vec2 { x: self.x.plus(rhs.x), y: self.y.plus(rhs.y) };
        proof {
            assert(r@ =~= vadd(self@, rhs@));
            r.lemma_view();
        }
        r
    }
}

impl<T: Scalar> vstd::std_specs::ops::AddSpecImpl for Vec2<T> {
    open spec fn obeys_add_spec() -> bool {
        true
    }

    open spec fn add_req(self, rhs: Vec2<T>) -> bool {
        fits_all::<T>(vadd(self@, rhs@))
    }

    open spec fn add_spec(self, rhs: Vec2<T>) -> Vec2<T> {
        Vec2::from_view(vadd(self@, rhs@))
    }
}

impl<'a, 'b, T: Scalar> core::ops::Add<&'b Vec2<T>> for &'a Vec2<T> {
    type Output = Vec2<T>;

    /// The sum for a borrowed vector, component by component.
    fn add(self, rhs: &'b Vec2<T>) -> (r: Vec2<T>)
        ensures
            r@ == vadd(self@, rhs@),
    {
        *self + *rhs
    }
}

impl<'a, 'b, T: Scalar> vstd::std_specs::ops::AddSpecImpl<&'b Vec2<T>> for &'a Vec2<T> {
    open spec fn obeys_add_spec() -> bool {
        true
    }

    open spec fn add_req(self, rhs: &'b Vec2<T>) -> bool {
        fits_all::<T>(vadd(self@, rhs@))
    }

    open spec fn add_spec(self, rhs: &'b Vec2<T>) -> Vec2<T> {
        Vec2::from_view(vadd(self@, rhs@))
    }
}

impl<T: Scalar> core::ops::AddAssign for Vec2<T> {
    /// Replaces the vector with the sum, component by component.
    fn add_assign(&mut self, rhs: Vec2<T>)
        requires
            fits_all::<T>(vadd(old(self)@, rhs@)),
        ensures
            final(self)@ == vadd(old(self)@, rhs@),
    {
        *self = *self + rhs;
    }
}

impl<T: Scalar> core::ops::Add<T> for Vec2<T> {
    type Output = Vec2<T>;

    /// The sum, with `rhs` applied to each component.
    fn add(self, rhs: T) -> (r: Vec2<T>)
        ensures
            r@ == vadd(self@, splat(2, rhs.val())),
    {
        proof {
            let s = vadd(self@, splat(2, rhs.val()));
            assert(fits::<T>(s[0]) && fits::<T>(s[1]));
        }
        let r = Vec2 { x: self.x.plus(rhs), y: self.y.plus(rhs) };
        proof {
            assert(r@ =~= vadd(self@, splat(2, rhs.val())));
            r.lemma_view();
        }
        r
    }
}

impl<T: Scalar> vstd::std_specs::ops::AddSpecImpl<T> for Vec2<T> {
    open spec fn obeys_add_spec() -> bool {
        true
    }

    open spec fn add_req(self, rhs: T) -> bool {
        fits_all::<T>(vadd(self@, splat(2, rhs.val())))
    }

    open spec fn add_spec(self, rhs: T) -> Vec2<T> {
        Vec2::from_view(vadd(self@, splat(2, rhs.val())))
    }
}

impl<'a, T: Scalar> core::ops::Add<T> for &'a Vec2<T> {
    type Output = Vec2<T>;

    /// The sum for a borrowed vector, with `rhs` applied to each component.
    fn add(self, rhs: T) -> (r: Vec2<T>)
        ensures
            r@ == vadd(self@, splat(2, rhs.val())),
    {
        *self + rhs
    }
}

impl<'a, T: Scalar> vstd::std_specs::ops::AddSpecImpl<T> for &'a Vec2<T> {
    open spec fn obeys_add_spec() -> bool {
        true
    }

    open spec fn add_req(self, rhs: T) -> bool {
        fits_all::<T>(vadd(self@, splat(2, rhs.val())))
    }

    open spec fn add_spec(self, rhs: T) -> Vec2<T> {
        Vec2::from_view(vadd(self@, splat(2, rhs.val())))
    }
}

impl<T: Scalar> core::ops::AddAssign<T> for Vec2<T> {
    /// Replaces the vector with the sum, with `rhs` applied to each component.
    fn add_assign(&mut self, rhs: T)
        requires
            fits_all::<T>(vadd(old(self)@, splat(2, rhs.val()))),
        ensures
            final(self)@ == vadd(old(self)@, splat(2, rhs.val())),
    {
        *self = *self + rhs;
    }
}

impl<T: Scalar> core::ops::Sub for Vec2<T> {
    type Output = Vec2<T>;

    /// The difference, component by component.
    fn sub(self, rhs: Vec2<T>) -> (r: Vec2<T>)
        ensures
            r@ == vsub(self@, rhs@),
    {
        proof {
            let s = vsub(self@, rhs@);
            assert(fits::<T>(s[0]) && fits::<T>(s[1]));
        }
        let r = Vec2 { x: self.x.minus(rhs.x), y: self.y.minus(rhs.y) };
        proof {
            assert(r@ =~= vsub(self@, rhs@));
            r.lemma_view();
        }
        r
    }
}

impl<T: Scalar> vstd::std_specs::ops::SubSpecImpl for Vec2<T> {
    open spec fn obeys_sub_spec() -> bool {
        true
    }

    open spec fn sub_req(self, rhs: Vec2<T>) -> bool {
        fits_all::<T>(vsub(self@, rhs@))
    }

    open spec fn sub_spec(self, rhs: Vec2<T>) -> Vec2<T> {
        Vec2::from_view(vsub(self@, rhs@))
    }
}

impl<'a, 'b, T: Scalar> core::ops::Sub<&'b Vec2<T>> for &'a Vec2<T> {
    type Output = Vec2<T>;

    /// The difference for a borrowed vector, component by component.
    fn sub(self, rhs: &'b Vec2<T>) -> (r: Vec2<T>)
        ensures
            r@ == vsub(self@, rhs@),
    {
        *self - *rhs
    }
}

impl<'a, 'b, T: Scalar> vstd::std_specs::ops::SubSpecImpl<&'b Vec2<T>> for &'a Vec2<T> {
    open spec fn obeys_sub_spec() -> bool {
        true
    }

    open spec fn sub_req(self, rhs: &'b Vec2<T>) -> bool {
        fits_all::<T>(vsub(self@, rhs@))
    }

    open spec fn sub_spec(self, rhs: &'b Vec2<T>) -> Vec2<T> {
        Vec2::from_view(vsub(self@, rhs@))
    }
}

impl<T: Scalar> core::ops::SubAssign for Vec2<T> {
    /// Replaces the vector with the difference, component by component.
    fn sub_assign(&mut self, rhs: Vec2<T>)
        requires
            fits_all::<T>(vsub(old(self)@, rhs@)),
        ensures
            final(self)@ == vsub(old(self)@, rhs@),
    {
        *self = *self - rhs;
    }
}

impl<T: Scalar> core::ops::Sub<T> for Vec2<T> {
    type Output = Vec2<T>;

    /// The difference, with `rhs` applied to each component.
    fn sub(self, rhs: T) -> (r: Vec2<T>)
        ensures
            r@ == vsub(self@, splat(2, rhs.val())),
    {
        proof {
            let s = vsub(self@, splat(2, rhs.val()));
            assert(fits::<T>(s[0]) && fits::<T>(s[1]));
        }
        let r = Vec2 { x: self.x.minus(rhs), y: self.y.minus(rhs) };
        proof {
            assert(r@ =~= vsub(self@, splat(2, rhs.val())));
            r.lemma_view();
        }
        r
    }
}

impl<T: Scalar> vstd::std_specs::ops::SubSpecImpl<T> for Vec2<T> {
    open spec fn obeys_sub_spec() -> bool {
        true
    }

    open spec fn sub_req(self, rhs: T) -> bool {
        fits_all::<T>(vsub(self@, splat(2, rhs.val())))
    }

    open spec fn sub_spec(self, rhs: T) -> Vec2<T> {
        Vec2::from_view(vsub(self@, splat(2, rhs.val())))
    }
}

impl<'a, T: Scalar> core::ops::Sub<T> for &'a Vec2<T> {
    type Output = Vec2<T>;

    /// The difference for a borrowed vector, with `rhs` applied to each component.
    fn sub(self, rhs: T) -> (r: Vec2<T>)
        ensures
            r@ == vsub(self@, splat(2, rhs.val())),
    {
        *self - rhs
    }
}

impl<'a, T: Scalar> vstd::std_specs::ops::SubSpecImpl<T> for &'a Vec2<T> {
    open spec fn obeys_sub_spec() -> bool {
        true
    }

    open spec fn sub_req(self, rhs: T) -> bool {
        fits_all::<T>(vsub(self@, splat(2, rhs.val())))
    }

    open spec fn sub_spec(self, rhs: T) -> Vec2<T> {
        Vec2::from_view(vsub(self@, splat(2, rhs.val())))
    }
}

impl<T: Scalar> core::ops::SubAssign<T> for Vec2<T> {
    /// Replaces the vector with the difference, with `rhs` applied to each component.
    fn sub_assign(&mut self, rhs: T)
        requires
            fits_all::<T>(vsub(old(self)@, splat(2, rhs.val()))),
        ensures
            final(self)@ == vsub(old(self)@, splat(2, rhs.val())),
    {
        *self = *self - rhs;
    }
}

impl<T: Scalar> core::ops::Mul for Vec2<T> {
    type Output = Vec2<T>;

    /// The product, component by component.
    fn mul(self, rhs: Vec2<T>) -> (r: Vec2<T>)
        ensures
            r@ == vmul(self@, rhs@),
    {
        proof {
            let s = vmul(self@, rhs@);
            assert(fits::<T>(s[0]) && fits::<T>(s[1]));
        }
        let r = Vec2 { x: self.x.times(rhs.x), y: self.y.times(rhs.y) };
        proof {
            assert(r@ =~= vmul(self@, rhs@));
            r.lemma_view();
        }
        r
    }
}

impl<T: Scalar> vstd::std_specs::ops::MulSpecImpl for Vec2<T> {
    open spec fn obeys_mul_spec() -> bool {
        true
    }

    open spec fn mul_req(self, rhs: Vec2<T>) -> bool {
        fits_all::<T>(vmul(self@, rhs@))
    }

    open spec fn mul_spec(self, rhs: Vec2<T>) -> Vec2<T> {
        Vec2::from_view(vmul(self@, rhs@))
    }
}

impl<'a, 'b, T: Scalar> core::ops::Mul<&'b Vec2<T>> for &'a Vec2<T> {
    type Output = Vec2<T>;

    /// The product for a borrowed vector, component by component.
    fn mul(self, rhs: &'b Vec2<T>) -> (r: Vec2<T>)
        ensures
            r@ == vmul(self@, rhs@),
    {
        *self * *rhs
    }
}

impl<'a, 'b, T: Scalar> vstd::std_specs::ops::MulSpecImpl<&'b Vec2<T>> for &'a Vec2<T> {
    open spec fn obeys_mul_spec() -> bool {
        true
    }

    open spec fn mul_req(self, rhs: &'b Vec2<T>) -> bool {
        fits_all::<T>(vmul(self@, rhs@))
    }

    open spec fn mul_spec(self, rhs: &'b Vec2<T>) -> Vec2<T> {
        Vec2::from_view(vmul(self@, rhs@))
    }
}

impl<T: Scalar> core::ops::MulAssign for Vec2<T> {
    /// Replaces the vector with the product, component by component.
    fn mul_assign(&mut self, rhs: Vec2<T>)
        requires
            fits_all::<T>(vmul(old(self)@, rhs@)),
        ensures
            final(self)@ == vmul(old(self)@, rhs@),
    {
        *self = *self * rhs;
    }
}

impl<T: Scalar> core::ops::Mul<T> for Vec2<T> {
    type Output = Vec2<T>;

    /// The product, with `rhs` applied to each component.
    fn mul(self, rhs: T) -> (r: Vec2<T>)
        ensures
            r@ == vmul(self@, splat(2, rhs.val())),
    {
        proof {
            let s = vmul(self@, splat(2, rhs.val()));
            assert(fits::<T>(s[0]) && fits::<T>(s[1]));
        }
        let r = Vec2 { x: self.x.times(rhs), y: self.y.times(rhs) };
        proof {
            assert(r@ =~= vmul(self@, splat(2, rhs.val())));
            r.lemma_view();
        }
        r
    }
}

impl<T: Scalar> vstd::std_specs::ops::MulSpecImpl<T> for Vec2<T> {
    open spec fn obeys_mul_spec() -> bool {
        true
    }

    open spec fn mul_req(self, rhs: T) -> bool {
        fits_all::<T>(vmul(self@, splat(2, rhs.val())))
    }

    open spec fn mul_spec(self, rhs: T) -> Vec2<T> {
        Vec2::from_view(vmul(self@, splat(2, rhs.val())))
    }
}

impl<'a, T: Scalar> core::ops::Mul<T> for &'a Vec2<T> {
    type Output = Vec2<T>;

    /// The product for a borrowed vector, with `rhs` applied to each component.
    fn mul(self, rhs: T) -> (r: Vec2<T>)
        ensures
            r@ == vmul(self@, splat(2, rhs.val())),
    {
        *self * rhs
    }
}

impl<'a, T: Scalar> vstd::std_specs::ops::MulSpecImpl<T> for &'a Vec2<T> {
    open spec fn obeys_mul_spec() -> bool {
        true
    }

    open spec fn mul_req(self, rhs: T) -> bool {
        fits_all::<T>(vmul(self@, splat(2, rhs.val())))
    }

    open spec fn mul_spec(self, rhs: T) -> Vec2<T> {
        Vec2::from_view(vmul(self@, splat(2, rhs.val())))
    }
}

impl<T: Scalar> core::ops::MulAssign<T> for Vec2<T> {
    /// Replaces the vector with the product, with `rhs` applied to each component.
    fn mul_assign(&mut self, rhs: T)
        requires
            fits_all::<T>(vmul(old(self)@, splat(2, rhs.val()))),
        ensures
            final(self)@ == vmul(old(self)@, splat(2, rhs.val())),
    {
        *self = *self * rhs;
    }
}

impl<T: Scalar> core::ops::Div for Vec2<T> {
    type Output = Vec2<T>;

    /// The quotient, component by component. Division truncates toward zero.
    fn div(self, rhs: Vec2<T>) -> (r: Vec2<T>)
        ensures
            r@ == vdiv(self@, rhs@),
    {
        proof {
            let s = vdiv(self@, rhs@);
            assert(fits::<T>(s[0]) && fits::<T>(s[1]));
            assert(rhs@[0] != 0 && rhs@[1] != 0);
        }
        let r = Vec2 { x: self.x.divided_by(rhs.x), y: self.y.divided_by(rhs.y) };
        proof {
            assert(r@ =~= vdiv(self@, rhs@));
            r.lemma_view();
        }
        r
    }
}

impl<T: Scalar> vstd::std_specs::ops::DivSpecImpl for Vec2<T> {
    open spec fn obeys_div_spec() -> bool {
        true
    }

    open spec fn div_req(self, rhs: Vec2<T>) -> bool {
        nonzero_all(rhs@) && fits_all::<T>(vdiv(self@, rhs@))
    }

    open spec fn div_spec(self, rhs: Vec2<T>) -> Vec2<T> {
        Vec2::from_view(vdiv(self@, rhs@))
    }
}

impl<'a, 'b, T: Scalar> core::ops::Div<&'b Vec2<T>> for &'a Vec2<T> {
    type Output = Vec2<T>;

    /// The quotient for a borrowed vector, component by component.
    fn div(self, rhs: &'b Vec2<T>) -> (r: Vec2<T>)
        ensures
            r@ == vdiv(self@, rhs@),
    {
        *self / *rhs
    }
}

impl<'a, 'b, T: Scalar> vstd::std_specs::ops::DivSpecImpl<&'b Vec2<T>> for &'a Vec2<T> {
    open spec fn obeys_div_spec() -> bool {
        true
    }

    open spec fn div_req(self, rhs: &'b Vec2<T>) -> bool {
        nonzero_all(rhs@) && fits_all::<T>(vdiv(self@, rhs@))
    }

    open spec fn div_spec(self, rhs: &'b Vec2<T>) -> Vec2<T> {
        Vec2::from_view(vdiv(self@, rhs@))
    }
}

impl<T: Scalar> core::ops::DivAssign for Vec2<T> {
    /// Replaces the vector with the quotient, component by component.
    fn div_assign(&mut self, rhs: Vec2<T>)
        requires
            fits_all::<T>(vdiv(old(self)@, rhs@)),
            nonzero_all(rhs@),
        ensures
            final(self)@ == vdiv(old(self)@, rhs@),
    {
        *self = *self / rhs;
    }
}

impl<T: Scalar> core::ops::Div<T> for Vec2<T> {
    type Output = Vec2<T>;

    /// The quotient, with `rhs` applied to each component. Division truncates toward zero.
    fn div(self, rhs: T) -> (r: Vec2<T>)
        ensures
            r@ == vdiv(self@, splat(2, rhs.val())),
    {
        proof {
            let s = vdiv(self@, splat(2, rhs.val()));
            assert(fits::<T>(s[0]) && fits::<T>(s[1]));
        }
        let r = Vec2 { x: self.x.divided_by(rhs), y: self.y.divided_by(rhs) };
        proof {
            assert(r@ =~= vdiv(self@, splat(2, rhs.val())));
            r.lemma_view();
        }
        r
    }
}

impl<T: Scalar> vstd::std_specs::ops::DivSpecImpl<T> for Vec2<T> {
    open spec fn obeys_div_spec() -> bool {
        true
    }

    open spec fn div_req(self, rhs: T) -> bool {
        rhs.val() != 0 && fits_all::<T>(vdiv(self@, splat(2, rhs.val())))
    }

    open spec fn div_spec(self, rhs: T) -> Vec2<T> {
        Vec2::from_view(vdiv(self@, splat(2, rhs.val())))
    }
}

impl<'a, T: Scalar> core::ops::Div<T> for &'a Vec2<T> {
    type Output = Vec2<T>;

    /// The quotient for a borrowed vector, with `rhs` applied to each component.
    fn div(self, rhs: T) -> (r: Vec2<T>)
        ensures
            r@ == vdiv(self@, splat(2, rhs.val())),
    {
        *self / rhs
    }
}

impl<'a, T: Scalar> vstd::std_specs::ops::DivSpecImpl<T> for &'a Vec2<T> {
    open spec fn obeys_div_spec() -> bool {
        true
    }

    open spec fn div_req(self, rhs: T) -> bool {
        rhs.val() != 0 && fits_all::<T>(vdiv(self@, splat(2, rhs.val())))
    }

    open spec fn div_spec(self, rhs: T) -> Vec2<T> {
        Vec2::from_view(vdiv(self@, splat(2, rhs.val())))
    }
}

impl<T: Scalar> core::ops::DivAssign<T> for Vec2<T> {
    /// Replaces the vector with the quotient, with `rhs` applied to each component.
    fn div_assign(&mut self, rhs: T)
        requires
            fits_all::<T>(vdiv(old(self)@, splat(2, rhs.val()))),
            rhs.val() != 0,
        ensures
            final(self)@ == vdiv(old(self)@, splat(2, rhs.val())),
    {
        *self = *self / rhs;
    }
}

impl<T: Scalar> core::ops::Index<u8> for Vec2<T> {
    type Output = T;

    /// The component at `index`, which must be below 2: 0 for x, 1 for y.
    fn index(&self, index: u8) -> (r: &T)
        ensures
            r.val() == self@[index as int],
    {
        if index == 0 {
            &self.x
        } else {
            &self.y
        }
    }
}

impl<T: Scalar> vstd::std_specs::core::IndexSpecImpl<u8> for Vec2<T> {
    open spec fn index_req(&self, index: &u8) -> bool {
        *index < 2
    }
}

impl<T: Scalar> core::ops::IndexMut<u8> for Vec2<T> {
    /// The component at `index`, which must be below 2.
    fn index_mut(&mut self, index: u8) -> (r: &mut T)
        requires
            index < 2,
        ensures
            r.val() == old(self)@[index as int],
            final(self)@ == old(self)@.update(index as int, final(r).val()),
    {
        if index == 0 {
            &mut self.x
        } else {
            &mut self.y
        }
    }
}

impl<T: Scalar> VecTrait for Vec2<T> {
    type ValType = T;

    fn lerp(start: &Vec2<T>, end: &Vec2<T>, percentage: Fraction) -> (r: Vec2<T>) {
        let r = Vec2 {
            x: util::lerp(start.x, end.x, percentage),
            y: util::lerp(start.y, end.y, percentage),
        };
        proof {
            let t = percentage.clamped_spec();
            assert(r@ =~= vlerp(start@, end@, t.num as int, percentage.den as int));
        }
        r
    }

    fn lerp_unclamped(start: &Vec2<T>, end: &Vec2<T>, percentage: Fraction) -> (r: Vec2<T>) {
        proof {
            let s = vlerp(start@, end@, percentage.num as int, percentage.den as int);
            assert(fits::<T>(s[0]) && fits::<T>(s[1]));
        }
        let r = Vec2 {
            x: util::lerp::lerp_unclamped(start.x, end.x, percentage),
            y: util::lerp::lerp_unclamped(start.y, end.y, percentage),
        };
        proof {
            assert(r@ =~= vlerp(start@, end@, percentage.num as int, percentage.den as int));
        }
        r
    }

    fn max(lhs: &Vec2<T>, rhs: &Vec2<T>) -> (r: Vec2<T>) {
        let r = Vec2 { x: util::max(lhs.x, rhs.x), y: util::max(lhs.y, rhs.y) };
        assert(r@ =~= vmax(lhs@, rhs@));
        r
    }

    fn min(lhs: &Vec2<T>, rhs: &Vec2<T>) -> (r: Vec2<T>) {
        let r = Vec2 { x: util::min(lhs.x, rhs.x), y: util::min(lhs.y, rhs.y) };
        assert(r@ =~= vmin(lhs@, rhs@));
        r
    }

    fn clamp(&self, min: &Vec2<T>, max: &Vec2<T>) -> (r: Vec2<T>) {
        assert(min@[0] < max@[0] && min@[1] < max@[1]);
        let r = Vec2 { x: util::clamp(self.x, min.x, max.x), y: util::clamp(self.y, min.y, max.y) };
        assert(r@ =~= vclamp(self@, min@, max@));
        r
    }

    fn dot(&self, rhs: &Vec2<T>) -> (r: T) {
        let ghost f = prods(self@, rhs@);
        proof {
            let t = vmul(self@, rhs@);
            assert(fits::<T>(t[0]) && fits::<T>(t[1]));
            assert(sum(1, f) == sum(0, f) + f(0));
            assert(sum(2, f) == sum(1, f) + f(1));
        }
        let mut acc = self.x.times(rhs.x);
        acc = acc.plus(self.y.times(rhs.y));
        acc
    }
}

impl<T: Scalar> Default for Vec2<T> {
    /// The zero vector.
    fn default() -> (r: Vec2<T>)
        ensures
            r@ == splat(2, 0),
    {
        Vec2::zero()
    }
}

impl<T: Scalar> Vec2<T> {
    /// Returns a `Vec2<T>` with a value of (0, 1).
    pub fn up() -> (r: Vec2<T>)
        ensures
            r@ == seq![0int, 1int],
    {
        Vec2 { x: T::zero(), y: T::one() }
    }

    /// Returns a `Vec2<T>` with a value of (0, -1).
    pub fn down() -> (r: Vec2<T>)
        requires
            fits::<T>(-1),
        ensures
            r@ == seq![0int, -1int],
    {
        let minus_one = T::from_i128(-1);
        Vec2 { x: T::zero(), y: minus_one }
    }

    /// Returns a `Vec2<T>` with a value of (-1, 0).
    pub fn left() -> (r: Vec2<T>)
        requires
            fits::<T>(-1),
        ensures
            r@ == seq![-1int, 0int],
    {
        let minus_one = T::from_i128(-1);
        Vec2 { x: minus_one, y: T::zero() }
    }

    /// Returns a `Vec2<T>` with a value of (1, 0).
    pub fn right() -> (r: Vec2<T>)
        ensures
            r@ == seq![1int, 0int],
    {
        Vec2 { x: T::one(), y: T::zero() }
    }

    /// Returns a `Vec2<T>` with every component zero.
    pub fn zero() -> (r: Vec2<T>)
        ensures
            r@ == splat(2, 0),
    {
        Vec2::from(T::zero())
    }
}

} // verus!
