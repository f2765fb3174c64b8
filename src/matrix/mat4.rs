//! The generic `Mat4` type.
use crate::matrix::{
    entry_terms, identity, inner_prods, is_square, lemma_mat_mul_assoc, lemma_mat_mul_identity,
    lemma_mul_fits_entry, mat_mul, mul_entry, mul_fits, uniform, MatTrait,
};
use crate::scalar::{fits, Scalar};
use crate::vector::{fits_all, lemma_running_fits, sum, Vec4};
use vstd::prelude::*;

verus! {

/// The generic `Mat4` struct, a square matrix of 4 rows.
///
/// It is used for manipulating objects in 3d space.
#[derive(Clone, Copy, Debug, PartialEq)]
pub struct Mat4<T> {
    array: [Vec4<T>; 4],
}

/// `Mat4<i32>`
pub type Mat4i = Mat4<i32>;

/// `Mat4<u32>`
pub type Mat4u = Mat4<u32>;

impl<T: Scalar> View for Mat4<T> {
    type V = Seq<Seq<int>>;

    closed spec fn view(&self) -> Seq<Seq<int>> {
        seq![self.array[0]@, self.array[1]@, self.array[2]@, self.array[3]@]
    }
}

impl<T: Scalar> Mat4<T> {
    /// The matrix whose entries have the values in `s`.
    pub closed spec fn from_view(s: Seq<Seq<int>>) -> Mat4<T> {
        Mat4 {
            array: [
                Vec4::from_view(s[0]),
                Vec4::from_view(s[1]),
                Vec4::from_view(s[2]),
                Vec4::from_view(s[3]),
            ],
        }
    }

    /// A matrix is the one that its view describes.
    pub proof fn lemma_view(self)
        ensures
            Self::from_view(self@) == self,
    {
        self.array[0].lemma_view();
        self.array[1].lemma_view();
        self.array[2].lemma_view();
        self.array[3].lemma_view();
        assert(Self::from_view(self@).array =~= self.array);
    }

    /// The view has the shape of the matrix, and every entry is a value of `T`.
    pub proof fn lemma_shape(self)
        ensures
            is_square(self@, 4),
            forall|i: int| 0 <= i < 4 ==> fits_all::<T>(#[trigger] self@[i]),
    {
        self.array[0].x.lemma_range();
        self.array[0].y.lemma_range();
        self.array[0].z.lemma_range();
        self.array[0].w.lemma_range();
        self.array[1].x.lemma_range();
        self.array[1].y.lemma_range();
        self.array[1].z.lemma_range();
        self.array[1].w.lemma_range();
        self.array[2].x.lemma_range();
        self.array[2].y.lemma_range();
        self.array[2].z.lemma_range();
        self.array[2].w.lemma_range();
        self.array[3].x.lemma_range();
        self.array[3].y.lemma_range();
        self.array[3].z.lemma_range();
        self.array[3].w.lemma_range();
    }

    /// Returns a new `Mat4` instance from its entries, row by row,
    /// converting each to `T`.
    pub fn new<C: Scalar>(
        m11: C, m12: C, m13: C, m14: C,
        m21: C, m22: C, m23: C, m24: C,
        m31: C, m32: C, m33: C, m34: C,
        m41: C, m42: C, m43: C, m44: C,
    ) -> (r: Mat4<T>)
        requires
            fits::<T>(m11.val()), fits::<T>(m12.val()), fits::<T>(m13.val()), fits::<T>(m14.val()),
            fits::<T>(m21.val()), fits::<T>(m22.val()), fits::<T>(m23.val()), fits::<T>(m24.val()),
            fits::<T>(m31.val()), fits::<T>(m32.val()), fits::<T>(m33.val()), fits::<T>(m34.val()),
            fits::<T>(m41.val()), fits::<T>(m42.val()), fits::<T>(m43.val()), fits::<T>(m44.val()),
        ensures
            r@ == seq![
                seq![m11.val(), m12.val(), m13.val(), m14.val()],
                seq![m21.val(), m22.val(), m23.val(), m24.val()],
                seq![m31.val(), m32.val(), m33.val(), m34.val()],
                seq![m41.val(), m42.val(), m43.val(), m44.val()],
            ],
    {
        Mat4 {
            array: [
                Vec4::new(m11, m12, m13, m14),
                Vec4::new(m21, m22, m23, m24),
                Vec4::new(m31, m32, m33, m34),
                Vec4::new(m41, m42, m43, m44),
            ],
        }
    }

    /// Multiplication of `Mat4` matrices is associative:
    /// `(a * b) * c == a * (b * c)`.
    pub proof fn lemma_mul_associative(a: Mat4<T>, b: Mat4<T>, c: Mat4<T>)
        ensures
            mat_mul(mat_mul(a@, b@), c@) == mat_mul(a@, mat_mul(b@, c@)),
    {
        a.lemma_shape();
        b.lemma_shape();
        c.lemma_shape();
        lemma_mat_mul_assoc(a@, b@, c@, 4);
    }

    /// The identity is neutral on both sides: `identity() * m == m` and
    /// `m * identity() == m`.
    pub proof fn lemma_mul_identity(m: Mat4<T>)
        ensures
            mat_mul(identity(4), m@) == m@,
            mat_mul(m@, identity(4)) == m@,
    {
        m.lemma_shape();
        lemma_mat_mul_identity(m@, 4);
    }

    /// Returns the matrix whose entries are all zero.
    pub fn zero() -> (r: Mat4<T>)
        ensures
            r@ == uniform(4, 0),
    {
        Mat4::from(T::zero())
    }

    /// The entry at `row`, `col` of the product `self * rhs`, accumulated
    /// over the inner index from 0 upward.
    fn product_entry(&self, rhs: &Mat4<T>, row: usize, col: usize) -> (r: T)
        requires
            row < 4,
            col < 4,
            mul_fits::<T>(self@, rhs@),
        ensures
            r.val() == mul_entry(self@, rhs@, row as int, col as int),
    {
        let mut acc = T::zero();
        let mut inner: usize = 0;
        while inner < 4
            invariant
                inner <= 4,
                row < 4,
                col < 4,
                mul_fits::<T>(self@, rhs@),
                acc.val() == sum(inner as int, inner_prods(self@, rhs@, row as int, col as int)),
            decreases 4 - inner,
        {
            proof {
                lemma_mul_fits_entry::<T>(self@, rhs@, row as int, col as int);
                lemma_running_fits::<T>(
                    entry_terms(self@, rhs@, row as int, col as int),
                    inner_prods(self@, rhs@, row as int, col as int),
                );
            }
            let a = self.array[row][inner as u8];
            let b = rhs.array[inner][col as u8];
            proof {
                assert(self@[row as int][inner as int] == a.val());
                assert(rhs@[inner as int][col as int] == b.val());
            }
            acc = acc.plus(a.times(b));
            inner = inner + 1;
        }
        acc
    }

    /// Row `row` of the product `self * rhs`.
    fn product_row(&self, rhs: &Mat4<T>, row: usize) -> (r: Vec4<T>)
        requires
            row < 4,
            mul_fits::<T>(self@, rhs@),
        ensures
            r@ == mat_mul(self@, rhs@)[row as int],
    {
        let r = Vec4 {
            x: self.product_entry(rhs, row, 0),
            y: self.product_entry(rhs, row, 1),
            z: self.product_entry(rhs, row, 2),
            w: self.product_entry(rhs, row, 3),
        };
        assert(r@ =~= mat_mul(self@, rhs@)[row as int]);
        r
    }
}

impl<T: Scalar> From<T> for Mat4<T> {
    /// Every entry set to `value`.
    fn from(value: T) -> (r: Mat4<T>)
        ensures
            r@ == uniform(4, value.val()),
    {
        let row = Vec4::from(value);
        let r = Mat4 { array: [row, row, row, row] };
        proof {
            let u = uniform(4, value.val());
            assert forall|i: int| 0 <= i < 4 implies #[trigger] r@[i] == u[i] by {
                assert(r@[i] =~= u[i]);
            }
            assert(r@ =~= uniform(4, value.val()));
            r.lemma_view();
        }
        r
    }
}

impl<T: Scalar> vstd::std_specs::convert::FromSpecImpl<T> for Mat4<T> {
    open spec fn obeys_from_spec() -> bool {
        true
    }

    open spec fn from_spec(value: T) -> Mat4<T> {
        Mat4::from_view(uniform(4, value.val()))
    }
}

impl<'a, T: Scalar> From<&'a Vec4<T>> for Mat4<T> {
    /// Every row set to `value`.
    fn from(value: &'a Vec4<T>) -> (r: Mat4<T>)
        ensures
            r@ == Seq::new(4, |i: int| value@),
    {
        let r = Mat4 { array: [*value, *value, *value, *value] };
        assert(r@ =~= Seq::new(4, |i: int| value@));
        proof {
            r.lemma_view();
        }
        r
    }
}

impl<'a, T: Scalar> vstd::std_specs::convert::FromSpecImpl<&'a Vec4<T>> for Mat4<T> {
    open spec fn obeys_from_spec() -> bool {
        true
    }

    open spec fn from_spec(value: &'a Vec4<T>) -> Mat4<T> {
        Mat4::from_view(Seq::new(4, |i: int| value@))
    }
}

impl<T: Scalar> core::ops::Mul for Mat4<T> {
    type Output = Mat4<T>;

    /// The matrix product: the entry at `row`, `col` is the sum over `inner`
    /// of `self[row][inner] * rhs[inner][col]`.
    fn mul(self, rhs: Mat4<T>) -> (r: Mat4<T>)
        ensures
            r@ == mat_mul(self@, rhs@),
    {
        let r = Mat4 {
            array: [
                self.product_row(&rhs, 0),
                self.product_row(&rhs, 1),
                self.product_row(&rhs, 2),
                self.product_row(&rhs, 3),
            ],
        };
        proof {
            assert(r@ =~= mat_mul(self@, rhs@));
            r.lemma_view();
        }
        r
    }
}

impl<T: Scalar> vstd::std_specs::ops::MulSpecImpl for Mat4<T> {
    open spec fn obeys_mul_spec() -> bool {
        true
    }

    open spec fn mul_req(self, rhs: Mat4<T>) -> bool {
        mul_fits::<T>(self@, rhs@)
    }

    open spec fn mul_spec(self, rhs: Mat4<T>) -> Mat4<T> {
        Mat4::from_view(mat_mul(self@, rhs@))
    }
}

impl<'a, 'b, T: Scalar> core::ops::Mul<&'b Mat4<T>> for &'a Mat4<T> {
    type Output = Mat4<T>;

    /// The matrix product of two borrowed matrices.
    fn mul(self, rhs: &'b Mat4<T>) -> (r: Mat4<T>)
        ensures
            r@ == mat_mul(self@, rhs@),
    {
        *self * *rhs
    }
}

impl<'a, 'b, T: Scalar> vstd::std_specs::ops::MulSpecImpl<&'b Mat4<T>> for &'a Mat4<T> {
    open spec fn obeys_mul_spec() -> bool {
        true
    }

    open spec fn mul_req(self, rhs: &'b Mat4<T>) -> bool {
        mul_fits::<T>(self@, rhs@)
    }

    open spec fn mul_spec(self, rhs: &'b Mat4<T>) -> Mat4<T> {
        Mat4::from_view(mat_mul(self@, rhs@))
    }
}

impl<T: Scalar> core::ops::Index<u8> for Mat4<T> {
    type Output = Vec4<T>;

    /// The row at `index`, which must be below 4.
    fn index(&self, index: u8) -> (r: &Vec4<T>)
        ensures
            r@ == self@[index as int],
    {
        &self.array[index as usize]
    }
}

impl<T: Scalar> vstd::std_specs::core::IndexSpecImpl<u8> for Mat4<T> {
    open spec fn index_req(&self, index: &u8) -> bool {
        *index < 4
    }
}

impl<T: Scalar> core::ops::IndexMut<u8> for Mat4<T> {
    /// The row at `index`, which must be below 4.
    fn index_mut(&mut self, index: u8) -> (r: &mut Vec4<T>)
        requires
            index < 4,
        ensures
            r@ == old(self)@[index as int],
            final(self)@ == old(self)@.update(index as int, final(r)@),
    {
        if index == 0 {
            &mut self.array[0]
        } else if index == 1 {
            &mut self.array[1]
        } else if index == 2 {
            &mut self.array[2]
        } else {
            &mut self.array[3]
        }
    }
}

impl<T: Scalar> MatTrait for Mat4<T> {
    open spec fn dim() -> nat {
        4
    }

    fn identity() -> (r: Mat4<T>) {
        let zero = T::zero();
        let one = T::one();
        proof {
            zero.lemma_range();
        }
        let r = Mat4::new(
            one, zero, zero, zero,
            zero, one, zero, zero,
            zero, zero, one, zero,
            zero, zero, zero, one,
        );
        proof {
            let id = identity(4);
            assert forall|i: int| 0 <= i < 4 implies #[trigger] r@[i] == id[i] by {
                assert(r@[i] =~= id[i]);
            }
            assert(r@ =~= id);
        }
        r
    }
}

impl<T: Scalar> Default for Mat4<T> {
    /// The zero matrix.
    fn default() -> (r: Mat4<T>)
        ensures
            r@ == uniform(4, 0),
    {
        Mat4::zero()
    }
}

} // verus!
