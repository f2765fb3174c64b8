//! The generic `Vec4` type.
use crate::scalar::{cast, fits, Scalar};
use crate::util::{self, Fraction};
use crate::vector::{
    fits_all, nonzero_all, prods, splat, sum, vadd, vclamp, vdiv, vlerp, vmax, vmin, vmul, vsub,
    VecTrait,
};
use crate::vector::{Vec2, Vec3};
use vstd::prelude::*;

verus! {

/// The generic `Vec4` struct.
///
/// It is used for 3D transformations and graphics, with a fourth component.
/// It can hold any scalar type as its components.
#[derive(Clone, Copy, Debug, PartialEq)]
pub struct Vec4<T> {
    /// The vector x-coordinate.
    pub x: T,
    /// The vector y-coordinate.
    pub y: T,
    /// The vector z-coordinate.
    pub z: T,
    /// The vector w-coordinate.
    pub w: T,
}

/// `Vec4<i32>`
pub type Vec4i = Vec4<i32>;

/// `Vec4<u32>`
pub type Vec4u = Vec4<u32>;

impl<T: Scalar> View for Vec4<T> {
    type V = Seq<int>;

    open spec fn view(&self) -> Seq<int> {
        seq![self.x.val(), self.y.val(), self.z.val(), self.w.val()]
    }
}

impl<T: Scalar> Vec4<T> {
    /// The vector whose components have the values in `s`.
    pub open spec fn from_view(s: Seq<int>) -> Vec4<T> {
        Vec4 {
            x: T::from_val(s[0]),
            y: T::from_val(s[1]),
            z: T::from_val(s[2]),
            w: T::from_val(s[3]),
        }
    }

    /// A vector is the one that its view describes.
    pub proof fn lemma_view(self)
        ensures
            Self::from_view(self@) == self,
    {
        self.x.lemma_from_own_val();
        self.y.lemma_from_own_val();
        self.z.lemma_from_own_val();
        self.w.lemma_from_own_val();
    }

    /// Returns a new `Vec4<T>` instance, converting each component to `T`.
    pub fn new<C: Scalar>(x: C, y: C, z: C, w: C) -> (r: Vec4<T>)
        requires
            fits::<T>(x.val()),
            fits::<T>(y.val()),
            fits::<T>(z.val()),
            fits::<T>(w.val()),
        ensures
            r@ == seq![x.val(), y.val(), z.val(), w.val()],
    {
        Vec4 { x: cast(x), y: cast(y), z: cast(z), w: cast(w) }
    }

    /// Returns `value` with each component converted to `T`.
    pub fn cast<U: Scalar>(value: &Vec4<U>) -> (r: Vec4<T>)
        requires
            fits_all::<T>(value@),
        ensures
            r@ == value@,
    {
        proof {
            assert(fits::<T>(value@[0]) && fits::<T>(value@[1]) && fits::<T>(value@[2]) && fits::<T>(value@[3]));
        }
        Vec4::new(value.x, value.y, value.z, value.w)
    }
}

impl<T: Scalar> From<T> for Vec4<T> {
    /// Every component set to `value`.
    fn from(value: T) -> (r: Vec4<T>)
        ensures
            r@ == splat(4, value.val()),
    {
        let r = Vec4 { x: value, y: value, z: value, w: value };
        assert(r@ =~= splat(4, value.val()));
        r
    }
}

impl<T: Scalar> vstd::std_specs::convert::FromSpecImpl<T> for Vec4<T> {
    open spec fn obeys_from_spec() -> bool {
        true
    }

    open spec fn from_spec(value: T) -> Vec4<T> {
        Vec4 { x: value, y: value, z: value, w: value }
    }
}

impl<'a, T: Scalar> From<&'a Vec2<T>> for Vec4<T> {
    /// Copies the components and sets the others to zero.
    fn from(value: &'a Vec2<T>) -> (r: Vec4<T>)
        ensures
            r@ == value@ + splat(2, 0),
    {
        let zero = T::zero();
        let r = Vec4 { x: value.x, y: value.y, z: zero, w: zero };
        proof {
            zero.lemma_from_own_val();
            assert(r@ =~= value@ + splat(2, 0));
        }
        r
    }
}

impl<'a, T: Scalar> vstd::std_specs::convert::FromSpecImpl<&'a Vec2<T>> for Vec4<T> {
    open spec fn obeys_from_spec() -> bool {
        true
    }

    open spec fn from_spec(value: &'a Vec2<T>) -> Vec4<T> {
        Vec4 { x: value.x, y: value.y, z: T::from_val(0), w: T::from_val(0) }
    }
}

impl<'a, T: Scalar> From<&'a Vec3<T>> for Vec4<T> {
    /// Copies the components and sets the others to zero.
    fn from(value: &'a Vec3<T>) -> (r: Vec4<T>)
        ensures
            r@ == value@ + splat(1, 0),
    {
        let zero = T::zero();
        let r = Vec4 { x: value.x, y: value.y, z: value.z, w: zero };
        proof {
            zero.lemma_from_own_val();
            assert(r@ =~= value@ + splat(1, 0));
        }
        r
    }
}

impl<'a, T: Scalar> vstd::std_specs::convert::FromSpecImpl<&'a Vec3<T>> for Vec4<T> {
    open spec fn obeys_from_spec() -> bool {
        true
    }

    open spec fn from_spec(value: &'a Vec3<T>) -> Vec4<T> {
        Vec4 { x: value.x, y: value.y, z: value.z, w: T::from_val(0) }
    }
}

impl<T: Scalar> core::ops::Add for Vec4<T> {
    type Output = Vec4<T>;

    /// The sum, component by component.
    fn add(self, rhs: Vec4<T>) -> (r: Vec4<T>)
        ensures
            r@ == vadd(self@, rhs@),
    {
        proof {
            let s = vadd(self@, rhs@);
            assert(fits::<T>(s[0]) && fits::<T>(s[1]) && fits::<T>(s[2]) && fits::<T>(s[3]));
        }
        let r = Vec4 {
            x: self.x.plus(rhs.x),
            y: self.y.plus(rhs.y),
            z: self.z.plus(rhs.z),
            w: self.w.plus(rhs.w),
        };
        proof {
            assert(r@ =~= vadd(self@, rhs@));
            r.lemma_view();
        }
        r
    }
}

impl<T: Scalar> vstd::std_specs::ops::AddSpecImpl for Vec4<T> {
    open spec fn obeys_add_spec() -> bool {
        true
    }

    open spec fn add_req(self, rhs: Vec4<T>) -> bool {
        fits_all::<T>(vadd(self@, rhs@))
    }

    open spec fn add_spec(self, rhs: Vec4<T>) -> Vec4<T> {
        Vec4::from_view(vadd(self@, rhs@))
    }
}

impl<'a, 'b, T: Scalar> core::ops::Add<&'b Vec4<T>> for &'a Vec4<T> {
    type Output = Vec4<T>;

    /// The sum for a borrowed vector, component by component.
    fn add(self, rhs: &'b Vec4<T>) -> (r: Vec4<T>)
        ensures
            r@ == vadd(self@, rhs@),
    {
        *self + *rhs
    }
}

impl<'a, 'b, T: Scalar> vstd::std_specs::ops::AddSpecImpl<&'b Vec4<T>> for &'a Vec4<T> {
    open spec fn obeys_add_spec() -> bool {
        true
    }

    open spec fn add_req(self, rhs: &'b Vec4<T>) -> bool {
        fits_all::<T>(vadd(self@, rhs@))
    }

    open spec fn add_spec(self, rhs: &'b Vec4<T>) -> Vec4<T> {
        Vec4::from_view(vadd(self@, rhs@))
    }
}

impl<T: Scalar> core::ops::AddAssign for Vec4<T> {
    /// Replaces the vector with the sum, component by component.
    fn add_assign(&mut self, rhs: Vec4<T>)
        requires
            fits_all::<T>(vadd(old(self)@, rhs@)),
        ensures
            final(self)@ == vadd(old(self)@, rhs@),
    {
        *self = *self + rhs;
    }
}

impl<T: Scalar> core::ops::Add<T> for Vec4<T> {
    type Output = Vec4<T>;

    /// The sum, with `rhs` applied to each component.
    fn add(self, rhs: T) -> (r: Vec4<T>)
        ensures
            r@ == vadd(self@, splat(4, rhs.val())),
    {
        proof {
            let s = vadd(self@, splat(4, rhs.val()));
            assert(fits::<T>(s[0]) && fits::<T>(s[1]) && fits::<T>(s[2]) && fits::<T>(s[3]));
        }
        let r = Vec4 {
            x: self.x.plus(rhs),
            y: self.y.plus(rhs),
            z: self.z.plus(rhs),
            w: self.w.plus(rhs),
        };
        proof {
            assert(r@ =~= vadd(self@, splat(4, rhs.val())));
            r.lemma_view();
        }
        r
    }
}

impl<T: Scalar> vstd::std_specs::ops::AddSpecImpl<T> for Vec4<T> {
    open spec fn obeys_add_spec() -> bool {
        true
    }

    open spec fn add_req(self, rhs: T) -> bool {
        fits_all::<T>(vadd(self@, splat(4, rhs.val())))
    }

    open spec fn add_spec(self, rhs: T) -> Vec4<T> {
        Vec4::from_view(vadd(self@, splat(4, rhs.val())))
    }
}

impl<'a, T: Scalar> core::ops::Add<T> for &'a Vec4<T> {
    type Output = Vec4<T>;

    /// The sum for a borrowed vector, with `rhs` applied to each component.
    fn add(self, rhs: T) -> (r: Vec4<T>)
        ensures
            r@ == vadd(self@, splat(4, rhs.val())),
    {
        *self + rhs
    }
}

impl<'a, T: Scalar> vstd::std_specs::ops::AddSpecImpl<T> for &'a Vec4<T> {
    open spec fn obeys_add_spec() -> bool {
        true
    }

    open spec fn add_req(self, rhs: T) -> bool {
        fits_all::<T>(vadd(self@, splat(4, rhs.val())))
    }

    open spec fn add_spec(self, rhs: T) -> Vec4<T> {
        Vec4::from_view(vadd(self@, splat(4, rhs.val())))
    }
}

impl<T: Scalar> core::ops::AddAssign<T> for Vec4<T> {
    /// Replaces the vector with the sum, with `rhs` applied to each component.
    fn add_assign(&mut self, rhs: T)
        requires
            fits_all::<T>(vadd(old(self)@, splat(4, rhs.val()))),
        ensures
            final(self)@ == vadd(old(self)@, splat(4, rhs.val())),
    {
        *self = *self + rhs;
    }
}

impl<T: Scalar> core::ops::Sub for Vec4<T> {
    type Output = Vec4<T>;

    /// The difference, component by component.
    fn sub(self, rhs: Vec4<T>) -> (r: Vec4<T>)
        ensures
            r@ == vsub(self@, rhs@),
    {
        proof {
            let s = vsub(self@, rhs@);
            assert(fits::<T>(s[0]) && fits::<T>(s[1]) && fits::<T>(s[2]) && fits::<T>(s[3]));
        }
        let r = Vec4 {
            x: self.x.minus(rhs.x),
            y: self.y.minus(rhs.y),
            z: self.z.minus(rhs.z),
            w: self.w.minus(rhs.w),
        };
        proof {
            assert(r@ =~= vsub(self@, rhs@));
            r.lemma_view();
        }
        r
    }
}

impl<T: Scalar> vstd::std_specs::ops::SubSpecImpl for Vec4<T> {
    open spec fn obeys_sub_spec() -> bool {
        true
    }

    open spec fn sub_req(self, rhs: Vec4<T>) -> bool {
        fits_all::<T>(vsub(self@, rhs@))
    }

    open spec fn sub_spec(self, rhs: Vec4<T>) -> Vec4<T> {
        Vec4::from_view(vsub(self@, rhs@))
    }
}

impl<'a, 'b, T: Scalar> core::ops::Sub<&'b Vec4<T>> for &'a Vec4<T> {
    type Output = Vec4<T>;

    /// The difference for a borrowed vector, component by component.
    fn sub(self, rhs: &'b Vec4<T>) -> (r: Vec4<T>)
        ensures
            r@ == vsub(self@, rhs@),
    {
        *self - *rhs
    }
}

impl<'a, 'b, T: Scalar> vstd::std_specs::ops::SubSpecImpl<&'b Vec4<T>> for &'a Vec4<T> {
    open spec fn obeys_sub_spec() -> bool {
        true
    }

    open spec fn sub_req(self, rhs: &'b Vec4<T>) -> bool {
        fits_all::<T>(vsub(self@, rhs@))
    }

    open spec fn sub_spec(self, rhs: &'b Vec4<T>) -> Vec4<T> {
        Vec4::from_view(vsub(self@, rhs@))
    }
}

impl<T: Scalar> core::ops::SubAssign for Vec4<T> {
    /// Replaces the vector with the difference, component by component.
    fn sub_assign(&mut self, rhs: Vec4<T>)
        requires
            fits_all::<T>(vsub(old(self)@, rhs@)),
        ensures
            final(self)@ == vsub(old(self)@, rhs@),
    {
        *self = *self - rhs;
    }
}

impl<T: Scalar> core::ops::Sub<T> for Vec4<T> {
    type Output = Vec4<T>;

    /// The difference, with `rhs` applied to each component.
    fn sub(self, rhs: T) -> (r: Vec4<T>)
        ensures
            r@ == vsub(self@, splat(4, rhs.val())),
    {
        proof {
            let s = vsub(self@, splat(4, rhs.val()));
            assert(fits::<T>(s[0]) && fits::<T>(s[1]) && fits::<T>(s[2]) && fits::<T>(s[3]));
        }
        let r = Vec4 {
            x: self.x.minus(rhs),
            y: self.y.minus(rhs),
            z: self.z.minus(rhs),
            w: self.w.minus(rhs),
        };
        proof {
            assert(r@ =~= vsub(self@, splat(4, rhs.val())));
            r.lemma_view();
        }
        r
    }
}

impl<T: Scalar> vstd::std_specs::ops::SubSpecImpl<T> for Vec4<T> {
    open spec fn obeys_sub_spec() -> bool {
        true
    }

    open spec fn sub_req(self, rhs: T) -> bool {
        fits_all::<T>(vsub(self@, splat(4, rhs.val())))
    }

    open spec fn sub_spec(self, rhs: T) -> Vec4<T> {
        Vec4::from_view(vsub(self@, splat(4, rhs.val())))
    }
}

impl<'a, T: Scalar> core::ops::Sub<T> for &'a Vec4<T> {
    type Output = Vec4<T>;

    /// The difference for a borrowed vector, with `rhs` applied to each component.
    fn sub(self, rhs: T) -> (r: Vec4<T>)
        ensures
            r@ == vsub(self@, splat(4, rhs.val())),
    {
        *self - rhs
    }
}

impl<'a, T: Scalar> vstd::std_specs::ops::SubSpecImpl<T> for &'a Vec4<T> {
    open spec fn obeys_sub_spec() -> bool {
        true
    }

    open spec fn sub_req(self, rhs: T) -> bool {
        fits_all::<T>(vsub(self@, splat(4, rhs.val())))
    }

    open spec fn sub_spec(self, rhs: T) -> Vec4<T> {
        Vec4::from_view(vsub(self@, splat(4, rhs.val())))
    }
}

impl<T: Scalar> core::ops::SubAssign<T> for Vec4<T> {
    /// Replaces the vector with the difference, with `rhs` applied to each component.
    fn sub_assign(&mut self, rhs: T)
        requires
            fits_all::<T>(vsub(old(self)@, splat(4, rhs.val()))),
        ensures
            final(self)@ == vsub(old(self)@, splat(4, rhs.val())),
    {
        *self = *self - rhs;
    }
}

impl<T: Scalar> core::ops::Mul for Vec4<T> {
    type Output = Vec4<T>;

    /// The product, component by component.
    fn mul(self, rhs: Vec4<T>) -> (r: Vec4<T>)
        ensures
            r@ == vmul(self@, rhs@),
    {
        proof {
            let s = vmul(self@, rhs@);
            assert(fits::<T>(s[0]) && fits::<T>(s[1]) && fits::<T>(s[2]) && fits::<T>(s[3]));
        }
        let r = Vec4 {
            x: self.x.times(rhs.x),
            y: self.y.times(rhs.y),
            z: self.z.times(rhs.z),
            w: self.w.times(rhs.w),
        };
        proof {
            assert(r@ =~= vmul(self@, rhs@));
            r.lemma_view();
        }
        r
    }
}

impl<T: Scalar> vstd::std_specs::ops::MulSpecImpl for Vec4<T> {
    open spec fn obeys_mul_spec() -> bool {
        true
    }

    open spec fn mul_req(self, rhs: Vec4<T>) -> bool {
        fits_all::<T>(vmul(self@, rhs@))
    }

    open spec fn mul_spec(self, rhs: Vec4<T>) -> Vec4<T> {
        Vec4::from_view(vmul(self@, rhs@))
    }
}

impl<'a, 'b, T: Scalar> core::ops::Mul<&'b Vec4<T>> for &'a Vec4<T> {
    type Output = Vec4<T>;

    /// The product for a borrowed vector, component by component.
    fn mul(self, rhs: &'b Vec4<T>) -> (r: Vec4<T>)
        ensures
            r@ == vmul(self@, rhs@),
    {
        *self * *rhs
    }
}

impl<'a, 'b, T: Scalar> vstd::std_specs::ops::MulSpecImpl<&'b Vec4<T>> for &'a Vec4<T> {
    open spec fn obeys_mul_spec() -> bool {
        true
    }

    open spec fn mul_req(self, rhs: &'b Vec4<T>) -> bool {
        fits_all::<T>(vmul(self@, rhs@))
    }

    open spec fn mul_spec(self, rhs: &'b Vec4<T>) -> Vec4<T> {
        Vec4::from_view(vmul(self@, rhs@))
    }
}

impl<T: Scalar> core::ops::MulAssign for Vec4<T> {
    /// Replaces the vector with the product, component by component.
    fn mul_assign(&mut self, rhs: Vec4<T>)
        requires
            fits_all::<T>(vmul(old(self)@, rhs@)),
        ensures
            final(self)@ == vmul(old(self)@, rhs@),
    {
        *self = *self * rhs;
    }
}

impl<T: Scalar> core::ops::Mul<T> for Vec4<T> {
    type Output = Vec4<T>;

    /// The product, with `rhs` applied to each component.
    fn mul(self, rhs: T) -> (r: Vec4<T>)
        ensures
            r@ == vmul(self@, splat(4, rhs.val())),
    {
        proof {
            let s = vmul(self@, splat(4, rhs.val()));
            assert(fits::<T>(s[0]) && fits::<T>(s[1]) && fits::<T>(s[2]) && fits::<T>(s[3]));
        }
        let r = Vec4 {
            x: self.x.times(rhs),
            y: self.y.times(rhs),
            z: self.z.times(rhs),
            w: self.w.times(rhs),
        };
        proof {
            assert(r@ =~= vmul(self@, splat(4, rhs.val())));
            r.lemma_view();
        }
        r
    }
}

impl<T: Scalar> vstd::std_specs::ops::MulSpecImpl<T> for Vec4<T> {
    open spec fn obeys_mul_spec() -> bool {
        true
    }

    open spec fn mul_req(self, rhs: T) -> bool {
        fits_all::<T>(vmul(self@, splat(4, rhs.val())))
    }

    open spec fn mul_spec(self, rhs: T) -> Vec4<T> {
        Vec4::from_view(vmul(self@, splat(4, rhs.val())))
    }
}

impl<'a, T: Scalar> core::ops::Mul<T> for &'a Vec4<T> {
    type Output = Vec4<T>;

    /// The product for a borrowed vector, with `rhs` applied to each component.
    fn mul(self, rhs: T) -> (r: Vec4<T>)
        ensures
            r@ == vmul(self@, splat(4, rhs.val())),
    {
        *self * rhs
    }
}

impl<'a, T: Scalar> vstd::std_specs::ops::MulSpecImpl<T> for &'a Vec4<T> {
    open spec fn obeys_mul_spec() -> bool {
        true
    }

    open spec fn mul_req(self, rhs: T) -> bool {
        fits_all::<T>(vmul(self@, splat(4, rhs.val())))
    }

    open spec fn mul_spec(self, rhs: T) -> Vec4<T> {
        Vec4::from_view(vmul(self@, splat(4, rhs.val())))
    }
}

impl<T: Scalar> core::ops::MulAssign<T> for Vec4<T> {
    /// Replaces the vector with the product, with `rhs` applied to each component.
    fn mul_assign(&mut self, rhs: T)
        requires
            fits_all::<T>(vmul(old(self)@, splat(4, rhs.val()))),
        ensures
            final(self)@ == vmul(old(self)@, splat(4, rhs.val())),
    {
        *self = *self * rhs;
    }
}

impl<T: Scalar> core::ops::Div for Vec4<T> {
    type Output = Vec4<T>;

    /// The quotient, component by component. Division truncates toward zero.
    fn div(self, rhs: Vec4<T>) -> (r: Vec4<T>)
        ensures
            r@ == vdiv(self@, rhs@),
    {
        proof {
            let s = vdiv(self@, rhs@);
            assert(fits::<T>(s[0]) && fits::<T>(s[1]) && fits::<T>(s[2]) && fits::<T>(s[3]));
            assert(rhs@[0] != 0 && rhs@[1] != 0 && rhs@[2] != 0 && rhs@[3] != 0);
        }
        let r = Vec4 {
            x: self.x.divided_by(rhs.x),
            y: self.y.divided_by(rhs.y),
            z: self.z.divided_by(rhs.z),
            w: self.w.divided_by(rhs.w),
        };
        proof {
            assert(r@ =~= vdiv(self@, rhs@));
            r.lemma_view();
        }
        r
    }
}

impl<T: Scalar> vstd::std_specs::ops::DivSpecImpl for Vec4<T> {
    open spec fn obeys_div_spec() -> bool {
        true
    }

    open spec fn div_req(self, rhs: Vec4<T>) -> bool {
        nonzero_all(rhs@) && fits_all::<T>(vdiv(self@, rhs@))
    }

    open spec fn div_spec(self, rhs: Vec4<T>) -> Vec4<T> {
        Vec4::from_view(vdiv(self@, rhs@))
    }
}

impl<'a, 'b, T: Scalar> core::ops::Div<&'b Vec4<T>> for &'a Vec4<T> {
    type Output = Vec4<T>;

    /// The quotient for a borrowed vector, component by component.
    fn div(self, rhs: &'b Vec4<T>) -> (r: Vec4<T>)
        ensures
            r@ == vdiv(self@, rhs@),
    {
        *self / *rhs
    }
}

impl<'a, 'b, T: Scalar> vstd::std_specs::ops::DivSpecImpl<&'b Vec4<T>> for &'a Vec4<T> {
    open spec fn obeys_div_spec() -> bool {
        true
    }

    open spec fn div_req(self, rhs: &'b Vec4<T>) -> bool {
        nonzero_all(rhs@) && fits_all::<T>(vdiv(self@, rhs@))
    }

    open spec fn div_spec(self, rhs: &'b Vec4<T>) -> Vec4<T> {
        Vec4::from_view(vdiv(self@, rhs@))
    }
}

impl<T: Scalar> core::ops::DivAssign for Vec4<T> {
    /// Replaces the vector with the quotient, component by component.
    fn div_assign(&mut self, rhs: Vec4<T>)
        requires
            fits_all::<T>(vdiv(old(self)@, rhs@)),
            nonzero_all(rhs@),
        ensures
            final(self)@ == vdiv(old(self)@, rhs@),
    {
        *self = *self / rhs;
    }
}

impl<T: Scalar> core::ops::Div<T> for Vec4<T> {
    type Output = Vec4<T>;

    /// The quotient, with `rhs` applied to each component. Division truncates toward zero.
    fn div(self, rhs: T) -> (r: Vec4<T>)
        ensures
            r@ == vdiv(self@, splat(4, rhs.val())),
    {
        proof {
            let s = vdiv(self@, splat(4, rhs.val()));
            assert(fits::<T>(s[0]) && fits::<T>(s[1]) && fits::<T>(s[2]) && fits::<T>(s[3]));
        }
        let r = Vec4 {
            x: self.x.divided_by(rhs),
            y: self.y.divided_by(rhs),
            z: self.z.divided_by(rhs),
            w: self.w.divided_by(rhs),
        };
        proof {
            assert(r@ =~= vdiv(self@, splat(4, rhs.val())));
            r.lemma_view();
        }
        r
    }
}

impl<T: Scalar> vstd::std_specs::ops::DivSpecImpl<T> for Vec4<T> {
    open spec fn obeys_div_spec() -> bool {
        true
    }

    open spec fn div_req(self, rhs: T) -> bool {
        rhs.val() != 0 && fits_all::<T>(vdiv(self@, splat(4, rhs.val())))
    }

    open spec fn div_spec(self, rhs: T) -> Vec4<T> {
        Vec4::from_view(vdiv(self@, splat(4, rhs.val())))
    }
}

impl<'a, T: Scalar> core::ops::Div<T> for &'a Vec4<T> {
    type Output = Vec4<T>;

    /// The quotient for a borrowed vector, with `rhs` applied to each component.
    fn div(self, rhs: T) -> (r: Vec4<T>)
        ensures
            r@ == vdiv(self@, splat(4, rhs.val())),
    {
        *self / rhs
    }
}

impl<'a, T: Scalar> vstd::std_specs::ops::DivSpecImpl<T> for &'a Vec4<T> {
    open spec fn obeys_div_spec() -> bool {
        true
    }

    open spec fn div_req(self, rhs: T) -> bool {
        rhs.val() != 0 && fits_all::<T>(vdiv(self@, splat(4, rhs.val())))
    }

    open spec fn div_spec(self, rhs: T) -> Vec4<T> {
        Vec4::from_view(vdiv(self@, splat(4, rhs.val())))
    }
}

impl<T: Scalar> core::ops::DivAssign<T> for Vec4<T> {
    /// Replaces the vector with the quotient, with `rhs` applied to each component.
    fn div_assign(&mut self, rhs: T)
        requires
            fits_all::<T>(vdiv(old(self)@, splat(4, rhs.val()))),
            rhs.val() != 0,
        ensures
            final(self)@ == vdiv(old(self)@, splat(4, rhs.val())),
    {
        *self = *self / rhs;
    }
}

impl<T: Scalar> core::ops::Index<u8> for Vec4<T> {
    type Output = T;

    /// The component at `index`, which must be below 4: 0 for x, 1 for y, 2 for z, 3 for w.
    fn index(&self, index: u8) -> (r: &T)
        ensures
            r.val() == self@[index as int],
    {
        if index == 0 {
            &self.x
        } else if index == 1 {
            &self.y
        } else if index == 2 {
            &self.z
        } else {
            &self.w
        }
    }
}

impl<T: Scalar> vstd::std_specs::core::IndexSpecImpl<u8> for Vec4<T> {
    open spec fn index_req(&self, index: &u8) -> bool {
        *index < 4
    }
}

impl<T: Scalar> core::ops::IndexMut<u8> for Vec4<T> {
    /// The component at `index`, which must be below 4.
    fn index_mut(&mut self, index: u8) -> (r: &mut T)
        requires
            index < 4,
        ensures
            r.val() == old(self)@[index as int],
            final(self)@ == old(self)@.update(index as int, final(r).val()),
    {
        if index == 0 {
            &mut self.x
        } else if index == 1 {
            &mut self.y
        } else if index == 2 {
            &mut self.z
        } else {
            &mut self.w
        }
    }
}

impl<T: Scalar> VecTrait for Vec4<T> {
    type ValType = T;

    fn lerp(start: &Vec4<T>, end: &Vec4<T>, percentage: Fraction) -> (r: Vec4<T>) {
        let r = Vec4 {
            x: util::lerp(start.x, end.x, percentage),
            y: util::lerp(start.y, end.y, percentage),
            z: util::lerp(start.z, end.z, percentage),
            w: util::lerp(start.w, end.w, percentage),
        };
        proof {
            let t = percentage.clamped_spec();
            assert(r@ =~= vlerp(start@, end@, t.num as int, percentage.den as int));
        }
        r
    }

    fn lerp_unclamped(start: &Vec4<T>, end: &Vec4<T>, percentage: Fraction) -> (r: Vec4<T>) {
        proof {
            let s = vlerp(start@, end@, percentage.num as int, percentage.den as int);
            assert(fits::<T>(s[0]) && fits::<T>(s[1]) && fits::<T>(s[2]) && fits::<T>(s[3]));
        }
        let r = Vec4 {
            x: util::lerp::lerp_unclamped(start.x, end.x, percentage),
            y: util::lerp::lerp_unclamped(start.y, end.y, percentage),
            z: util::lerp::lerp_unclamped(start.z, end.z, percentage),
            w: util::lerp::lerp_unclamped(start.w, end.w, percentage),
        };
        proof {
            assert(r@ =~= vlerp(start@, end@, percentage.num as int, percentage.den as int));
        }
        r
    }

    fn max(lhs: &Vec4<T>, rhs: &Vec4<T>) -> (r: Vec4<T>) {
        let r = Vec4 {
            x: util::max(lhs.x, rhs.x),
            y: util::max(lhs.y, rhs.y),
            z: util::max(lhs.z, rhs.z),
            w: util::max(lhs.w, rhs.w),
        };
        assert(r@ =~= vmax(lhs@, rhs@));
        r
    }

    fn min(lhs: &Vec4<T>, rhs: &Vec4<T>) -> (r: Vec4<T>) {
        let r = Vec4 {
            x: util::min(lhs.x, rhs.x),
            y: util::min(lhs.y, rhs.y),
            z: util::min(lhs.z, rhs.z),
            w: util::min(lhs.w, rhs.w),
        };
        assert(r@ =~= vmin(lhs@, rhs@));
        r
    }

    fn clamp(&self, min: &Vec4<T>, max: &Vec4<T>) -> (r: Vec4<T>) {
        assert(min@[0] < max@[0] && min@[1] < max@[1] && min@[2] < max@[2] && min@[3] < max@[3]);
        let r = Vec4 {
            x: util::clamp(self.x, min.x, max.x),
            y: util::clamp(self.y, min.y, max.y),
            z: util::clamp(self.z, min.z, max.z),
            w: util::clamp(self.w, min.w, max.w),
        };
        assert(r@ =~= vclamp(self@, min@, max@));
        r
    }

    fn dot(&self, rhs: &Vec4<T>) -> (r: T) {
        let ghost f = prods(self@, rhs@);
        proof {
            let t = vmul(self@, rhs@);
            assert(fits::<T>(t[0]) && fits::<T>(t[1]) && fits::<T>(t[2]) && fits::<T>(t[3]));
            assert(sum(1, f) == sum(0, f) + f(0));
            assert(sum(2, f) == sum(1, f) + f(1));
            assert(sum(3, f) == sum(2, f) + f(2));
            assert(sum(4, f) == sum(3, f) + f(3));
        }
        let mut acc = self.x.times(rhs.x);
        acc = acc.plus(self.y.times(rhs.y));
        acc = acc.plus(self.z.times(rhs.z));
        acc = acc.plus(self.w.times(rhs.w));
        acc
    }
}

impl<T: Scalar> Default for Vec4<T> {
    /// The zero vector.
    fn default() -> (r: Vec4<T>)
        ensures
            r@ == splat(4, 0),
    {
        Vec4::zero()
    }
}

impl<T: Scalar> Vec4<T> {
    /// Returns a `Vec4<T>` with a value of (0, 1, 0, 0).
    pub fn up() -> (r: Vec4<T>)
        ensures
            r@ == seq![0int, 1int, 0int, 0int],
    {
        Vec4 { x: T::zero(), y: T::one(), z: T::zero(), w: T::zero() }
    }

    /// Returns a `Vec4<T>` with a value of (0, -1, 0, 0).
    pub fn down() -> (r: Vec4<T>)
        requires
            fits::<T>(-1),
        ensures
            r@ == seq![0int, -1int, 0int, 0int],
    {
        let minus_one = T::from_i128(-1);
        Vec4 { x: T::zero(), y: minus_one, z: T::zero(), w: T::zero() }
    }

    /// Returns a `Vec4<T>` with a value of (-1, 0, 0, 0).
    pub fn left() -> (r: Vec4<T>)
        requires
            fits::<T>(-1),
        ensures
            r@ == seq![-1int, 0int, 0int, 0int],
    {
        let minus_one = T::from_i128(-1);
        Vec4 { x: minus_one, y: T::zero(), z: T::zero(), w: T::zero() }
    }

    /// Returns a `Vec4<T>` with a value of (1, 0, 0, 0).
    pub fn right() -> (r: Vec4<T>)
        ensures
            r@ == seq![1int, 0int, 0int, 0int],
    {
        Vec4 { x: T::one(), y: T::zero(), z: T::zero(), w: T::zero() }
    }

    /// Returns a `Vec4<T>` with a value of (0, 0, 1, 0).
    pub fn forward() -> (r: Vec4<T>)
        ensures
            r@ == seq![0int, 0int, 1int, 0int],
    {
        Vec4 { x: T::zero(), y: T::zero(), z: T::one(), w: T::zero() }
    }

    /// Returns a `Vec4<T>` with a value of (0, 0, -1, 0).
    pub fn back() -> (r: Vec4<T>)
        requires
            fits::<T>(-1),
        ensures
            r@ == seq![0int, 0int, -1int, 0int],
    {
        let minus_one = T::from_i128(-1);
        Vec4 { x: T::zero(), y: T::zero(), z: minus_one, w: T::zero() }
    }

    /// Returns a `Vec4<T>` with every component zero.
    pub fn zero() -> (r: Vec4<T>)
        ensures
            r@ == splat(4, 0),
    {
        Vec4::from(T::zero())
    }
}

} // verus!
