//! The generalized matrix type, stored in row-major order, and the operations that move its
//! cells around: construction, indexing, rows, columns, diagonals, sub-matrices and transposition.

use vstd::prelude::*;
use super::scalar::{scalar_one, scalar_zero};

verus! {

/// Generalized matrix type with `I` rows and `J` columns, with data stored in row-major format.
#[derive(Debug, Clone, Copy, PartialEq)]
pub struct Mat<R, const I: usize, const J: usize>(pub [[R; J]; I]);

/// Generalized vector, interpreted as column.
pub type Vec_<R, const I: usize> = Mat<R, I, 1>;

/// Vector of 2 dimensions, interpreted as column.
pub type Vec2<R> = Mat<R, 2, 1>;

/// Vector of 3 dimensions, interpreted as column.
pub type Vec3<R> = Mat<R, 3, 1>;

/// Vector of 4 dimensions, interpreted as column.
pub type Vec4<R> = Mat<R, 4, 1>;

/// Matrix of 2x2 dimensions.
pub type Mat2<R> = Mat<R, 2, 2>;

/// Matrix of 3x3 dimensions.
pub type Mat3<R> = Mat<R, 3, 3>;

/// Matrix of 4x4 dimensions.
pub type Mat4<R> = Mat<R, 4, 4>;

/// Describes why a sequence could not be turned into a matrix.
#[derive(Debug, Clone, Copy, PartialEq)]
pub enum Error {
    /// The sequence did not hold exactly one element per cell.
    LengthMismatch { expected: usize, found: usize },
}

impl<R, const I: usize, const J: usize> Mat<R, I, J> {
    /// The cell in row `i` and column `j`.
    pub open spec fn at(&self, i: int, j: int) -> R {
        self.0@[i]@[j]
    }

    /// Every cell holds `v`.
    pub open spec fn filled_with(&self, v: R) -> bool {
        forall|a: int, b: int| 0 <= a < I && 0 <= b < J ==> #[trigger] self.at(a, b) == v
    }

    /// Every cell of `self` equals the same cell of `other`.
    pub open spec fn same_cells(&self, other: &Self) -> bool {
        forall|a: int, b: int| 0 <= a < I && 0 <= b < J ==> #[trigger] self.at(a, b) == other.at(a, b)
    }

    /// The cell in row `a` and column `b` of `self` is the cell in row `b` and column `a` of
    /// `other`, for every row and column.
    pub open spec fn is_transpose_of(&self, other: &Mat<R, J, I>) -> bool {
        forall|a: int, b: int| 0 <= a < I && 0 <= b < J ==> #[trigger] self.at(a, b) == other.at(b, a)
    }

    /// Two matrices with the same cells are equal.
    pub proof fn lemma_same_cells_equal(&self, other: &Self)
        requires
            self.same_cells(other),
        ensures
            *self == *other,
    {
        broadcast use vstd::array::axiom_array_ext_equal;
        assert forall|a: int| 0 <= a < I implies #[trigger] self.0@[a] == other.0@[a] by {
            assert forall|b: int| 0 <= b < J implies self.0@[a]@[b] == other.0@[a]@[b] by {
                assert(self.at(a, b) == other.at(a, b));
            }
            assert(self.0@[a] =~= other.0@[a]);
        }
        assert(self.0 =~= other.0);
    }

    /// The cells on the diagonal hold `one` and all other cells hold `zero`.
    pub open spec fn is_diagonal_of(&self, zero: R, one: R) -> bool {
        forall|a: int, b: int| 0 <= a < I && 0 <= b < J ==> #[trigger] self.at(a, b) == (if a == b { one } else { zero })
    }

    /// Given a one-dimensional array index, return the corresponding two-dimensional indices for
    /// this particular matrix' dimensions.
    pub fn as_2d_idx(idx: usize) -> (r: (usize, usize))
        requires
            J > 0,
        ensures
            r.0 == idx / J,
            r.1 == idx % J,
    {
        (idx / J, idx % J)
    }

    /// Wraps a two-dimensional array of rows.
    pub fn new_from_rows(v: [[R; J]; I]) -> (r: Self)
        ensures
            r.0 == v,
    {
        Mat(v)
    }

    /// Returns a reference to the two-dimensional array of rows.
    pub fn as_ref(&self) -> (r: &[[R; J]; I])
        ensures
            *r == self.0,
    {
        &self.0
    }
}

impl<R: Copy, const I: usize, const J: usize> Mat<R, I, J> {
    /// Returns the cell in row `i` and column `j`.
    pub fn get(&self, i: usize, j: usize) -> (r: R)
        requires
            i < I,
            j < J,
        ensures
            r == self.at(i as int, j as int),
    {
        self.0[i][j]
    }

    /// Overwrites the cell in row `i` and column `j` with `v`, leaving all other cells unchanged.
    pub fn set(&mut self, i: usize, j: usize, v: R)
        requires
            i < I,
            j < J,
        ensures
            forall|a: int, b: int|
                0 <= a < I && 0 <= b < J ==> #[trigger] final(self).at(a, b) == (if a == i && b == j {
                    v
                } else {
                    old(self).at(a, b)
                }),
    {
        self.0[i][j] = v;
    }

    /// A matrix whose every cell holds `v`.
    pub fn filled(v: R) -> (r: Self)
        ensures
            r.filled_with(v),
    {
        Mat([[v; J]; I])
    }

    /// Overwrites every cell of `init` with what `f` gives for its row and column.
    pub(crate) fn overwrite<F: Fn(usize, usize) -> R>(init: Self, f: &F) -> (r: Self)
        requires
            forall|a: usize, b: usize| a < I && b < J ==> #[trigger] f.requires((a, b)),
        ensures
            forall|a: int, b: int|
                0 <= a < I && 0 <= b < J ==> f.ensures((a as usize, b as usize), #[trigger] r.at(a, b)),
    {
        let mut m = init;
        let mut i: usize = 0;
        while i < I
            invariant
                i <= I,
                forall|a: usize, b: usize| a < I && b < J ==> #[trigger] f.requires((a, b)),
                forall|a: int, b: int|
                    0 <= a < i && 0 <= b < J ==> f.ensures((a as usize, b as usize), #[trigger] m.at(a, b)),
            decreases I - i,
        {
            let mut j: usize = 0;
            while j < J
                invariant
                    i < I,
                    j <= J,
                    forall|a: usize, b: usize| a < I && b < J ==> #[trigger] f.requires((a, b)),
                    forall|a: int, b: int|
                        0 <= a < i && 0 <= b < J ==> f.ensures((a as usize, b as usize), #[trigger] m.at(a, b)),
                    forall|b: int| 0 <= b < j ==> f.ensures((i, b as usize), #[trigger] m.at(i as int, b)),
                decreases J - j,
            {
                let x = f(i, j);
                m.set(i, j, x);
                j += 1;
            }
            i += 1;
        }
        m
    }
}

impl<R: Copy + num_traits::Zero, const I: usize, const J: usize> Mat<R, I, J> {
    /// A matrix whose every cell holds the scalar type's zero.
    pub fn zero() -> (r: Self)
        ensures
            exists|z: R| #[trigger] call_ensures(scalar_zero::<R>, (), z) && r.filled_with(z),
    {
        let z = scalar_zero::<R>();
        let r = Self::filled(z);
        assert(call_ensures(scalar_zero::<R>, (), z) && r.filled_with(z));
        r
    }

    /// Returns a copy of the specified matrix column.
    pub fn col(&self, j: usize) -> (r: Mat<R, I, 1>)
        requires
            j < J,
        ensures
            forall|a: int| 0 <= a < I ==> #[trigger] r.at(a, 0) == self.at(a, j as int),
    {
        let init = Mat::<R, I, 1>::zero();
        let f = |a: usize, b: usize| -> (x: R)
            requires
                a < I,
            ensures
                x == self.at(a as int, j as int),
        { self.0[a][j] };
        let r = Mat::<R, I, 1>::overwrite(init, &f);
        assert forall|a: int| 0 <= a < I implies #[trigger] r.at(a, 0) == self.at(a, j as int) by {
            assert(f.ensures((a as usize, 0usize), r.at(a, 0)));
        }
        r
    }

    /// Returns a copy of the specified matrix row.
    pub fn row(&self, i: usize) -> (r: Mat<R, 1, J>)
        requires
            i < I,
        ensures
            forall|b: int| 0 <= b < J ==> #[trigger] r.at(0, b) == self.at(i as int, b),
    {
        let init = Mat::<R, 1, J>::zero();
        let f = |a: usize, b: usize| -> (x: R)
            requires
                b < J,
            ensures
                x == self.at(i as int, b as int),
        { self.0[i][b] };
        let r = Mat::<R, 1, J>::overwrite(init, &f);
        assert forall|b: int| 0 <= b < J implies #[trigger] r.at(0, b) == self.at(i as int, b) by {
            assert(f.ensures((0usize, b as usize), r.at(0, b)));
        }
        r
    }

    /// Returns a sub-matrix of the given size `O` x `P` whose top left cell is the cell in row `i`
    /// and column `j`.
    pub fn subset<const O: usize, const P: usize>(&self, i: usize, j: usize) -> (r: Mat<R, O, P>)
        requires
            i + O <= I,
            j + P <= J,
        ensures
            forall|a: int, b: int|
                0 <= a < O && 0 <= b < P ==> #[trigger] r.at(a, b) == self.at(i + a, j + b),
    {
        let init = Mat::<R, O, P>::zero();
        let f = |a: usize, b: usize| -> (x: R)
            requires
                a < O && b < P,
            ensures
                x == self.at(i + a, j + b),
        { self.0[i + a][j + b] };
        let r = Mat::<R, O, P>::overwrite(init, &f);
        assert forall|a: int, b: int| 0 <= a < O && 0 <= b < P implies #[trigger] r.at(a, b) == self.at(i + a, j + b) by {
            assert(f.ensures((a as usize, b as usize), r.at(a, b)));
        }
        r
    }

    /// Returns the transposed matrix: the cell in row `j` and column `i` of the result is the
    /// cell in row `i` and column `j` of `self`.
    pub fn t(&self) -> (r: Mat<R, J, I>)
        ensures
            r.is_transpose_of(self),
    {
        let init = Mat::<R, J, I>::zero();
        let f = |a: usize, b: usize| -> (x: R)
            requires
                a < J && b < I,
            ensures
                x == self.at(b as int, a as int),
        { self.0[b][a] };
        let r = Mat::<R, J, I>::overwrite(init, &f);
        assert forall|a: int, b: int| 0 <= a < J && 0 <= b < I implies #[trigger] r.at(a, b) == self.at(b, a) by {
            assert(f.ensures((a as usize, b as usize), r.at(a, b)));
        }
        r
    }
}

impl<R: Copy + num_traits::One, const I: usize, const J: usize> Mat<R, I, J> {
    /// A matrix whose every cell holds the scalar type's one.
    pub fn one() -> (r: Self)
        ensures
            exists|o: R| #[trigger] call_ensures(scalar_one::<R>, (), o) && r.filled_with(o),
    {
        let o = scalar_one::<R>();
        let r = Self::filled(o);
        assert(call_ensures(scalar_one::<R>, (), o) && r.filled_with(o));
        r
    }
}

impl<R: Copy, const I: usize> Mat<R, I, I> {
    /// The square matrix whose diagonal cells hold `one` and all other cells `zero`.
    pub fn diagonal_from(zero: R, one: R) -> (r: Self)
        ensures
            r.is_diagonal_of(zero, one),
    {
        let init = Self::filled(zero);
        let f = |a: usize, b: usize| -> (x: R)
            ensures
                x == (if a == b { one } else { zero }),
        {
            if a == b {
                one
            } else {
                zero
            }
        };
        let r = Self::overwrite(init, &f);
        assert forall|a: int, b: int| 0 <= a < I && 0 <= b < I implies #[trigger] r.at(a, b) == (if a == b { one } else { zero }) by {
            assert(f.ensures((a as usize, b as usize), r.at(a, b)));
        }
        r
    }
}

impl<R: Copy + num_traits::Zero + num_traits::One, const I: usize> Mat<R, I, I> {
    /// The identity matrix: the scalar type's one on the diagonal and its zero elsewhere.
    pub fn identity() -> (r: Self)
        ensures
            exists|z: R, o: R|
                #[trigger] call_ensures(scalar_zero::<R>, (), z) && #[trigger] call_ensures(scalar_one::<R>, (), o)
                    && r.is_diagonal_of(z, o),
    {
        let z = scalar_zero::<R>();
        let o = scalar_one::<R>();
        let r = Self::diagonal_from(z, o);
        assert(call_ensures(scalar_zero::<R>, (), z) && call_ensures(scalar_one::<R>, (), o) && r.is_diagonal_of(z, o));
        r
    }
}

impl<R: Copy + num_traits::Zero, const I: usize> Mat<R, I, I> {
    /// Returns the diagonal of a square matrix as a column vector.
    pub fn diag(&self) -> (r: Mat<R, I, 1>)
        ensures
            forall|a: int| 0 <= a < I ==> #[trigger] r.at(a, 0) == self.at(a, a),
    {
        let init = Mat::<R, I, 1>::zero();
        let f = |a: usize, b: usize| -> (x: R)
            requires
                a < I,
            ensures
                x == self.at(a as int, a as int),
        { self.0[a][a] };
        let r = Mat::<R, I, 1>::overwrite(init, &f);
        assert forall|a: int| 0 <= a < I implies #[trigger] r.at(a, 0) == self.at(a, a) by {
            assert(f.ensures((a as usize, 0usize), r.at(a, 0)));
        }
        r
    }
}

/// Transposition is its own inverse: the transposition of the transposition of a matrix is the
/// matrix itself.
pub proof fn lemma_transpose_twice<R, const I: usize, const J: usize>(a: Mat<R, I, J>, b: Mat<R, J, I>, c: Mat<R, I, J>)
    requires
        b.is_transpose_of(&a),
        c.is_transpose_of(&b),
    ensures
        c == a,
{
    assert forall|x: int, y: int| 0 <= x < I && 0 <= y < J implies #[trigger] c.at(x, y) == a.at(x, y) by {
        assert(c.at(x, y) == b.at(y, x));
    }
    c.lemma_same_cells_equal(&a);
}

/// Row-major flattening and `as_2d_idx` undo each other: the flat index of the cell in row `a`
/// and column `b` is `a * J + b`, and `as_2d_idx` takes it back to row `a` and column `b`.
pub proof fn lemma_flat_index_of_cell(a: int, b: int, rows: int, cols: int)
    requires
        0 <= a < rows,
        0 <= b < cols,
    ensures
        0 <= a * cols + b < rows * cols,
        (a * cols + b) / cols == a,
        (a * cols + b) % cols == b,
{
    vstd::arithmetic::div_mod::lemma_fundamental_div_mod_converse(a * cols + b, cols, a, b);
    assert(0 <= a * cols + b < rows * cols) by (nonlinear_arith)
        requires
            0 <= a < rows,
            0 <= b < cols,
    ;
}

/// A matrix filled row by row from the elements `v` gives back element `k` at the cell that
/// `as_2d_idx` finds for `k`: row `k / J`, column `k % J`.
pub proof fn lemma_row_major_roundtrip<R, const I: usize, const J: usize>(m: Mat<R, I, J>, v: Seq<R>, k: int)
    requires
        J > 0,
        v.len() == I * J,
        forall|a: int, b: int| 0 <= a < I && 0 <= b < J ==> #[trigger] m.at(a, b) == v[a * J + b],
        0 <= k < I * J,
    ensures
        0 <= k / (J as int) < I,
        0 <= k % (J as int) < J,
        m.at(k / (J as int), k % (J as int)) == v[k],
{
    let (q, r) = (k / (J as int), k % (J as int));
    vstd::arithmetic::div_mod::lemma_fundamental_div_mod(k, J as int);
    vstd::arithmetic::div_mod::lemma_mod_bound(k, J as int);
    assert(0 <= q) by (nonlinear_arith)
        requires
            0 <= k,
            J > 0,
            q == k / (J as int),
    ;
    assert(q < I) by (nonlinear_arith)
        requires
            k < I * J,
            J > 0,
            q == k / (J as int),
            k == J * q + k % (J as int),
            0 <= k % (J as int),
    ;
    assert(q * J + r == k) by (nonlinear_arith)
        requires
            k == J * q + r,
    ;
    assert(m.at(q, r) == v[q * J + r]);
}

} // verus!
