//! The generic `Mat3` type.
use crate::matrix::{
    entry_terms, identity, inner_prods, is_square, lemma_mat_mul_assoc, lemma_mat_mul_identity,
    lemma_mul_fits_entry, mat_mul, mul_entry, mul_fits, uniform, MatTrait,
};
use crate::scalar::{fits, Scalar};
use crate::vector::{fits_all, lemma_running_fits, sum, Vec3};
use vstd::prelude::*;

verus! {

/// The generic `Mat3` struct, a square matrix of 3 rows.
///
/// It is used for manipulating objects in 2d space.
#[derive(Clone, Copy, Debug, PartialEq)]
pub struct Mat3<T> {
    array: [Vec3<T>; 3],
}

/// `Mat3<i32>`
pub type Mat3i = Mat3<i32>;

/// `Mat3<u32>`
pub type Mat3u = Mat3<u32>;

impl<T: Scalar> View for Mat3<T> {
    type V = Seq<Seq<int>>;

    closed spec fn view(&self) -> Seq<Seq<int>> {
        seq![self.array[0]@, self.array[1]@, self.array[2]@]
    }
}

impl<T: Scalar> Mat3<T> {
    /// The matrix whose entries have the values in `s`.
    pub closed spec fn from_view(s: Seq<Seq<int>>) -> Mat3<T> {
        Mat3 {
            array: [
                Vec3::from_view(s[0]),
                Vec3::from_view(s[1]),
                Vec3::from_view(s[2]),
            ],
        }
    }

    /// A matrix is the one that its view describes.
    pub proof fn lemma_view(self)
        ensures
            Self::from_view(self@) == self,
    {
        self.array[0].lemma_view();
        self.array[1].lemma_view();
        self.array[2].lemma_view();
        assert(Self::from_view(self@).array =~= self.array);
    }

    /// The view has the shape of the matrix, and every entry is a value of `T`.
    pub proof fn lemma_shape(self)
        ensures
            is_square(self@, 3),
            forall|i: int| 0 <= i < 3 ==> fits_all::<T>(#[trigger] self@[i]),
    {
        self.array[0].x.lemma_range();
        self.array[0].y.lemma_range();
        self.array[0].z.lemma_range();
        self.array[1].x.lemma_range();
        self.array[1].y.lemma_range();
        self.array[1].z.lemma_range();
        self.array[2].x.lemma_range();
        self.array[2].y.lemma_range();
        self.array[2].z.lemma_range();
    }

    /// Returns a new `Mat3` instance from its entries, row by row,
    /// converting each to `T`.
    pub fn new<C: Scalar>(
        m11: C, m12: C, m13: C,
        m21: C, m22: C, m23: C,
        m31: C, m32: C, m33: C,
    ) -> (r: Mat3<T>)
        requires
            fits::<T>(m11.val()), fits::<T>(m12.val()), fits::<T>(m13.val()),
            fits::<T>(m21.val()), fits::<T>(m22.val()), fits::<T>(m23.val()),
            fits::<T>(m31.val()), fits::<T>(m32.val()), fits::<T>(m33.val()),
        ensures
            r@ == seq![
                seq![m11.val(), m12.val(), m13.val()],
                seq![m21.val(), m22.val(), m23.val()],
                seq![m31.val(), m32.val(), m33.val()],
            ],
    {
        Mat3 {
            array: [
                Vec3::new(m11, m12, m13),
                Vec3::new(m21, m22, m23),
                Vec3::new(m31, m32, m33),
            ],
        }
    }

    /// Multiplication of `Mat3` matrices is associative:
    /// `(a * b) * c == a * (b * c)`.
    pub proof fn lemma_mul_associative(a: Mat3<T>, b: Mat3<T>, c: Mat3<T>)
        ensures
            mat_mul(mat_mul(a@, b@), c@) == mat_mul(a@, mat_mul(b@, c@)),
    {
        a.lemma_shape();
        b.lemma_shape();
        c.lemma_shape();
        lemma_mat_mul_assoc(a@, b@, c@, 3);
    }

    /// The identity is neutral on both sides: `identity() * m == m` and
    /// `m * identity() == m`.
    pub proof fn lemma_mul_identity(m: Mat3<T>)
        ensures
            mat_mul(identity(3), m@) == m@,
            mat_mul(m@, identity(3)) == m@,
    {
        m.lemma_shape();
        lemma_mat_mul_identity(m@, 3);
    }

    /// Returns the matrix whose entries are all zero.
    pub fn zero() -> (r: Mat3<T>)
        ensures
            r@ == uniform(3, 0),
    {
        Mat3::from(T::zero())
    }

    /// The entry at `row`, `col` of the product `self * rhs`, accumulated
    /// over the inner index from 0 upward.
    fn product_entry(&self, rhs: &Mat3<T>, row: usize, col: usize) -> (r: T)
        requires
            row < 3,
            col < 3,
            mul_fits::<T>(self@, rhs@),
        ensures
            r.val() == mul_entry(self@, rhs@, row as int, col as int),
    {
        let mut acc = T::zero();
        let mut inner: usize = 0;
        while inner < 3
            invariant
                inner <= 3,
                row < 3,
                col < 3,
                mul_fits::<T>(self@, rhs@),
                acc.val() == sum(inner as int, inner_prods(self@, rhs@, row as int, col as int)),
            decreases 3 - inner,
        {
            proof {
                lemma_mul_fits_entry::<T>(self@, rhs@, row as int, col as int);
                lemma_running_fits::<T>(
                    entry_terms(self@, rhs@, row as int, col as int),
                    inner_prods(self@, rhs@, row as int, col as int),
                );
            }
            let a = self.array[row][inner as u8];
            let b = rhs.array[inner][col as u8];
            proof {
                assert(self@[row as int][inner as int] == a.val());
                assert(rhs@[inner as int][col as int] == b.val());
            }
            acc = acc.plus(a.times(b));
            inner = inner + 1;
        }
        acc
    }

    /// Row `row` of the product `self * rhs`.
    fn product_row(&self, rhs: &Mat3<T>, row: usize) -> (r: Vec3<T>)
        requires
            row < 3,
            mul_fits::<T>(self@, rhs@),
        ensures
            r@ == mat_mul(self@, rhs@)[row as int],
    {
        let r = Vec3 {
            x: self.product_entry(rhs, row, 0),
            y: self.product_entry(rhs, row, 1),
            z: self.product_entry(rhs, row, 2),
        };
        assert(r@ =~= mat_mul(self@, rhs@)[row as int]);
        r
    }
}

impl<T: Scalar> From<T> for Mat3<T> {
    /// Every entry set to `value`.
    fn from(value: T) -> (r: Mat3<T>)
        ensures
            r@ == uniform(3, value.val()),
    {
        let row = Vec3::from(value);
        let r = Mat3 { array: [row, row, row] };
        proof {
            let u = uniform(3, value.val());
            assert forall|i: int| 0 <= i < 3 implies #[trigger] r@[i] == u[i] by {
                assert(r@[i] =~= u[i]);
            }
            assert(r@ =~= uniform(3, value.val()));
            r.lemma_view();
        }
        r
    }
}

impl<T: Scalar> vstd::std_specs::convert::FromSpecImpl<T> for Mat3<T> {
    open spec fn obeys_from_spec() -> bool {
        true
    }

    open spec fn from_spec(value: T) -> Mat3<T> {
        Mat3::from_view(uniform(3, value.val()))
    }
}

impl<'a, T: Scalar> From<&'a Vec3<T>> for Mat3<T> {
    /// Every row set to `value`.
    fn from(value: &'a Vec3<T>) -> (r: Mat3<T>)
        ensures
            r@ == Seq::new(3, |i: int| value@),
    {
        let r = Mat3 { array: [*value, *value, *value] };
        assert(r@ =~= Seq::new(3, |i: int| value@));
        proof {
            r.lemma_view();
        }
        r
    }
}

impl<'a, T: Scalar> vstd::std_specs::convert::FromSpecImpl<&'a Vec3<T>> for Mat3<T> {
    open spec fn obeys_from_spec() -> bool {
        true
    }

    open spec fn from_spec(value: &'a Vec3<T>) -> Mat3<T> {
        Mat3::from_view(Seq::new(3, |i: int| value@))
    }
}

impl<T: Scalar> core::ops::Mul for Mat3<T> {
    type Output = Mat3<T>;

    /// The matrix product: the entry at `row`, `col` is the sum over `inner`
    /// of `self[row][inner] * rhs[inner][col]`.
    fn mul(self, rhs: Mat3<T>) -> (r: Mat3<T>)
        ensures
            r@ == mat_mul(self@, rhs@),
    {
        let r = Mat3 {
            array: [
                self.product_row(&rhs, 0),
                self.product_row(&rhs, 1),
                self.product_row(&rhs, 2),
            ],
        };
        proof {
            assert(r@ =~= mat_mul(self@, rhs@));
            r.lemma_view();
        }
        r
    }
}

impl<T: Scalar> vstd::std_specs::ops::MulSpecImpl for Mat3<T> {
    open spec fn obeys_mul_spec() -> bool {
        true
    }

    open spec fn mul_req(self, rhs: Mat3<T>) -> bool {
        mul_fits::<T>(self@, rhs@)
    }

    open spec fn mul_spec(self, rhs: Mat3<T>) -> Mat3<T> {
        Mat3::from_view(mat_mul(self@, rhs@))
    }
}

impl<'a, 'b, T: Scalar> core::ops::Mul<&'b Mat3<T>> for &'a Mat3<T> {
    type Output = Mat3<T>;

    /// The matrix product of two borrowed matrices.
    fn mul(self, rhs: &'b Mat3<T>) -> (r: Mat3<T>)
        ensures
            r@ == mat_mul(self@, rhs@),
    {
        *self * *rhs
    }
}

impl<'a, 'b, T: Scalar> vstd::std_specs::ops::MulSpecImpl<&'b Mat3<T>> for &'a Mat3<T> {
    open spec fn obeys_mul_spec() -> bool {
        true
    }

    open spec fn mul_req(self, rhs: &'b Mat3<T>) -> bool {
        mul_fits::<T>(self@, rhs@)
    }

    open spec fn mul_spec(self, rhs: &'b Mat3<T>) -> Mat3<T> {
        Mat3::from_view(mat_mul(self@, rhs@))
    }
}

impl<T: Scalar> core::ops::Index<u8> for Mat3<T> {
    type Output = Vec3<T>;

    /// The row at `index`, which must be below 3.
    fn index(&self, index: u8) -> (r: &Vec3<T>)
        ensures
            r@ == self@[index as int],
    {
        &self.array[index as usize]
    }
}

impl<T: Scalar> vstd::std_specs::core::IndexSpecImpl<u8> for Mat3<T> {
    open spec fn index_req(&self, index: &u8) -> bool {
        *index < 3
    }
}

impl<T: Scalar> core::ops::IndexMut<u8> for Mat3<T> {
    /// The row at `index`, which must be below 3.
    fn index_mut(&mut self, index: u8) -> (r: &mut Vec3<T>)
        requires
            index < 3,
        ensures
            r@ == old(self)@[index as int],
            final(self)@ == old(self)@.update(index as int, final(r)@),
    {
        if index == 0 {
            &mut self.array[0]
        } else if index == 1 {
            &mut self.array[1]
        } else {
            &mut self.array[2]
        }
    }
}

impl<T: Scalar> MatTrait for Mat3<T> {
    open spec fn dim() -> nat {
        3
    }

    fn identity() -> (r: Mat3<T>) {
        let zero = T::zero();
        let one = T::one();
        proof {
            zero.lemma_range();
        }
        let r = Mat3::new(
            one, zero, zero,
            zero, one, zero,
            zero, zero, one,
        );
        proof {
            let id = identity(3);
            assert forall|i: int| 0 <= i < 3 implies #[trigger] r@[i] == id[i] by {
                assert(r@[i] =~= id[i]);
            }
            assert(r@ =~= id);
        }
        r
    }
}

impl<T: Scalar> Default for Mat3<T> {
    /// The zero matrix.
    fn default() -> (r: Mat3<T>)
        ensures
            r@ == uniform(3, 0),
    {
        Mat3::zero()
    }
}

} // verus!
