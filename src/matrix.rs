//! Square matrices of three and four rows.
//!
//! A matrix is stored by rows, and viewed as the sequence of its rows, each
//! the sequence of the values in it: `m@[i][j]` is the value at row `i`,
//! column `j`.
pub mod mat3;
pub mod mat4;

pub use self::mat3::{Mat3, Mat3i, Mat3u};
pub use self::mat4::{Mat4, Mat4i, Mat4u};



use crate::scalar::Scalar;
use crate::vector::{running_fits, sum};
use vstd::prelude::*;

verus! {

/// `m` has `n` rows of `n` entries each.
pub open spec fn is_square(m: Seq<Seq<int>>, n: nat) -> bool {
    m.len() == n && forall|i: int| 0 <= i < n ==> (#[trigger] m[i]).len() == n
}

/// The products that make up the entry at `row`, `col` of `a * b`, as a
/// function of the inner index.
pub open spec fn inner_prods(a: Seq<Seq<int>>, b: Seq<Seq<int>>, row: int, col: int) -> spec_fn(
    int,
) -> int {
    |k: int| a[row][k] * b[k][col]
}

/// The entry at `row`, `col` of the product `a * b`.
pub open spec fn mul_entry(a: Seq<Seq<int>>, b: Seq<Seq<int>>, row: int, col: int) -> int {
    sum(a.len() as int, inner_prods(a, b, row, col))
}

/// The matrix product `a * b` of two square matrices of one size.
pub open spec fn mat_mul(a: Seq<Seq<int>>, b: Seq<Seq<int>>) -> Seq<Seq<int>> {
    Seq::new(a.len(), |row: int| Seq::new(a.len(), |col: int| mul_entry(a, b, row, col)))
}

/// The identity matrix of size `n`.
pub open spec fn identity(n: nat) -> Seq<Seq<int>> {
    Seq::new(n, |row: int| Seq::new(n, |col: int| if row == col { 1 } else { 0 }))
}

/// The matrix of size `n` whose entries are all `v`.
pub open spec fn uniform(n: nat, v: int) -> Seq<Seq<int>> {
    Seq::new(n, |row: int| Seq::new(n, |col: int| v))
}

/// The terms that make up the entry at `row`, `col` of `a * b`, in the
/// order of the inner index.
pub open spec fn entry_terms(a: Seq<Seq<int>>, b: Seq<Seq<int>>, row: int, col: int) -> Seq<int> {
    Seq::new(a.len(), |k: int| a[row][k] * b[k][col])
}

/// Every product in row `row` of `a * b`, and every running total of the
/// products that make up one entry of it, is a value of `T`.
pub open spec fn row_fits<T: Scalar>(a: Seq<Seq<int>>, b: Seq<Seq<int>>, row: int) -> bool {
    &&& a.len() >= 1 ==> running_fits::<T>(entry_terms(a, b, row, 0))
    &&& a.len() >= 2 ==> running_fits::<T>(entry_terms(a, b, row, 1))
    &&& a.len() >= 3 ==> running_fits::<T>(entry_terms(a, b, row, 2))
    &&& a.len() >= 4 ==> running_fits::<T>(entry_terms(a, b, row, 3))
}

/// Every product in `a * b`, and every running total of the products that
/// make up one entry, is a value of `T`. Matrices here have at most four
/// rows.
pub open spec fn mul_fits<T: Scalar>(a: Seq<Seq<int>>, b: Seq<Seq<int>>) -> bool {
    &&& a.len() <= 4
    &&& a.len() >= 1 ==> row_fits::<T>(a, b, 0)
    &&& a.len() >= 2 ==> row_fits::<T>(a, b, 1)
    &&& a.len() >= 3 ==> row_fits::<T>(a, b, 2)
    &&& a.len() >= 4 ==> row_fits::<T>(a, b, 3)
}

/// Under `mul_fits`, the running totals of each entry fit.
pub proof fn lemma_mul_fits_entry<T: Scalar>(
    a: Seq<Seq<int>>,
    b: Seq<Seq<int>>,
    row: int,
    col: int,
)
    requires
        mul_fits::<T>(a, b),
        0 <= row < a.len(),
        0 <= col < a.len(),
    ensures
        running_fits::<T>(entry_terms(a, b, row, col)),
{
    assert(row_fits::<T>(a, b, row));
}

/// Implemented by all matrix types.
pub trait MatTrait: Sized + View<V = Seq<Seq<int>>> {
    /// The number of rows, and of columns.
    spec fn dim() -> nat;

    /// Returns the identity matrix.
    fn identity() -> (r: Self)
        ensures
            r@ == identity(Self::dim()),
    ;
}

/// Sums of functions that agree on the summed range are equal.
pub proof fn lemma_sum_ext(n: int, f: spec_fn(int) -> int, g: spec_fn(int) -> int)
    requires
        forall|i: int| 0 <= i < n ==> #[trigger] f(i) == g(i),
    ensures
        sum(n, f) == sum(n, g),
    decreases n,
{
    if n > 0 {
        lemma_sum_ext(n - 1, f, g);
    }
}

/// A sum of pointwise sums is the sum of the two sums.
pub proof fn lemma_sum_add(n: int, f: spec_fn(int) -> int, g: spec_fn(int) -> int)
    ensures
        sum(n, |i: int| f(i) + g(i)) == sum(n, f) + sum(n, g),
    decreases n,
{
    if n > 0 {
        lemma_sum_add(n - 1, f, g);
    }
}

/// A factor on the right of every term comes out of the sum.
pub proof fn lemma_sum_scale_right(n: int, f: spec_fn(int) -> int, c: int)
    ensures
        sum(n, |i: int| f(i) * c) == sum(n, f) * c,
    decreases n,
{
    if n > 0 {
        lemma_sum_scale_right(n - 1, f, c);
        assert((sum(n - 1, f) + f(n - 1)) * c == sum(n - 1, f) * c + f(n - 1) * c)
            by (nonlinear_arith);
    }
}

/// A factor on the left of every term comes out of the sum.
pub proof fn lemma_sum_scale_left(n: int, c: int, f: spec_fn(int) -> int)
    ensures
        sum(n, |i: int| c * f(i)) == c * sum(n, f),
    decreases n,
{
    if n > 0 {
        lemma_sum_scale_left(n - 1, c, f);
        assert(c * (sum(n - 1, f) + f(n - 1)) == c * sum(n - 1, f) + c * f(n - 1))
            by (nonlinear_arith);
    }
}

/// The order of a double sum can be exchanged.
pub proof fn lemma_sum_swap(n: int, m: int, f: spec_fn(int, int) -> int)
    requires
        m >= 0,
    ensures
        sum(n, |i: int| sum(m, |j: int| f(i, j))) == sum(m, |j: int| sum(n, |i: int| f(i, j))),
    decreases n,
{
    if n > 0 {
        lemma_sum_swap(n - 1, m, f);
        let g = |j: int| sum(n - 1, |i: int| f(i, j));
        let h = |j: int| f(n - 1, j);
        lemma_sum_add(m, g, h);
        lemma_sum_ext(
            m,
            |j: int| sum(n, |i: int| f(i, j)),
            |j: int| g(j) + h(j),
        );
    } else {
        lemma_sum_ext(m, |j: int| sum(n, |i: int| f(i, j)), |j: int| 0);
        lemma_sum_zero(m);
    }
}

/// A sum of zeros is zero.
pub proof fn lemma_sum_zero(n: int)
    ensures
        sum(n, |i: int| 0) == 0,
    decreases n,
{
    if n > 0 {
        lemma_sum_zero(n - 1);
    }
}

/// A sum whose terms are zero but at `k` is the term at `k`.
pub proof fn lemma_sum_single(n: int, f: spec_fn(int) -> int, k: int)
    requires
        0 <= k < n,
        forall|i: int| 0 <= i < n && i != k ==> #[trigger] f(i) == 0,
    ensures
        sum(n, f) == f(k),
    decreases n,
{
    if n - 1 > k {
        lemma_sum_single(n - 1, f, k);
    } else {
        lemma_sum_ext(k, f, |i: int| 0);
        lemma_sum_zero(k);
    }
}

/// One entry of `(a * b) * c` equals that of `a * (b * c)`.
proof fn lemma_mul_assoc_entry(
    a: Seq<Seq<int>>,
    b: Seq<Seq<int>>,
    c: Seq<Seq<int>>,
    n: nat,
    i: int,
    l: int,
)
    requires
        is_square(a, n),
        is_square(b, n),
        is_square(c, n),
        0 <= i < n,
        0 <= l < n,
    ensures
        mul_entry(mat_mul(a, b), c, i, l) == mul_entry(a, mat_mul(b, c), i, l),
{
    let ab = mat_mul(a, b);
    let bc = mat_mul(b, c);
    let g = |k: int, j: int| a[i][j] * (b[j][k] * c[k][l]);
    // (a * b) * c: each term is a sum over the inner index of a * b
    assert forall|k: int| 0 <= k < n implies #[trigger] inner_prods(ab, c, i, l)(k) == sum(
        n as int,
        |j: int| g(k, j),
    ) by {
        lemma_sum_scale_right(n as int, inner_prods(a, b, i, k), c[k][l]);
        assert forall|j: int| 0 <= j < n implies #[trigger] inner_prods(a, b, i, k)(j) * c[k][l]
            == g(k, j) by {
            vstd::arithmetic::mul::lemma_mul_is_associative(a[i][j], b[j][k], c[k][l]);
        }
        lemma_sum_ext(
            n as int,
            |j: int| inner_prods(a, b, i, k)(j) * c[k][l],
            |j: int| g(k, j),
        );
    }
    lemma_sum_ext(n as int, inner_prods(ab, c, i, l), |k: int| sum(n as int, |j: int| g(k, j)));
    // a * (b * c): each term is a sum over the inner index of b * c
    assert forall|j: int| 0 <= j < n implies #[trigger] inner_prods(a, bc, i, l)(j) == sum(
        n as int,
        |k: int| g(k, j),
    ) by {
        lemma_sum_scale_left(n as int, a[i][j], inner_prods(b, c, j, l));
        lemma_sum_ext(
            n as int,
            |k: int| a[i][j] * inner_prods(b, c, j, l)(k),
            |k: int| g(k, j),
        );
    }
    lemma_sum_ext(n as int, inner_prods(a, bc, i, l), |j: int| sum(n as int, |k: int| g(k, j)));
    lemma_sum_swap(n as int, n as int, g);
}

/// Matrix multiplication is associative: `(a * b) * c == a * (b * c)`.
pub proof fn lemma_mat_mul_assoc(a: Seq<Seq<int>>, b: Seq<Seq<int>>, c: Seq<Seq<int>>, n: nat)
    requires
        is_square(a, n),
        is_square(b, n),
        is_square(c, n),
    ensures
        mat_mul(mat_mul(a, b), c) == mat_mul(a, mat_mul(b, c)),
{
    let lhs = mat_mul(mat_mul(a, b), c);
    let rhs = mat_mul(a, mat_mul(b, c));
    assert forall|i: int| 0 <= i < n implies #[trigger] lhs[i] == rhs[i] by {
        assert forall|l: int| 0 <= l < n implies #[trigger] lhs[i][l] == rhs[i][l] by {
            lemma_mul_assoc_entry(a, b, c, n, i, l);
        }
        assert(lhs[i] =~= rhs[i]);
    }
    assert(lhs =~= rhs);
}

/// The identity is neutral on both sides: `identity * m == m` and
/// `m * identity == m`.
pub proof fn lemma_mat_mul_identity(m: Seq<Seq<int>>, n: nat)
    requires
        is_square(m, n),
    ensures
        mat_mul(identity(n), m) == m,
        mat_mul(m, identity(n)) == m,
{
    let id = identity(n);
    let left = mat_mul(id, m);
    let right = mat_mul(m, id);
    assert forall|i: int| 0 <= i < n implies #[trigger] left[i] == m[i] && right[i] == m[i] by {
        assert forall|j: int| 0 <= j < n implies #[trigger] left[i][j] == m[i][j] && right[i][j]
            == m[i][j] by {
            assert forall|k: int| 0 <= k < n && k != i implies #[trigger] inner_prods(id, m, i, j)(
                k,
            ) == 0 by {
                assert(id[i][k] == 0);
            }
            assert forall|k: int| 0 <= k < n && k != j implies #[trigger] inner_prods(m, id, i, j)(
                k,
            ) == 0 by {
                assert(id[k][j] == 0);
            }
            assert(id[i][i] == 1 && id[j][j] == 1);
            lemma_sum_single(n as int, inner_prods(id, m, i, j), i);
            lemma_sum_single(n as int, inner_prods(m, id, i, j), j);
        }
        assert(left[i] =~= m[i]);
        assert(right[i] =~= m[i]);
    }
    assert(left =~= m);
    assert(right =~= m);
}

} // verus!
