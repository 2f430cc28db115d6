//! Rotation matrices of quaternions, the matrices of affine transformations, and view matrices.

use vstd::prelude::*;
use std::ops::{Add, Div, Mul, Neg, Sub};
use vstd::std_specs::ops::{AddSpec, DivSpec, MulSpec, SubSpec};
use super::affine::Affine;
use super::mat::{Mat, Mat3, Mat4, Vec3, Vec4};
use super::norm::{add_mul_total, Unit};
use super::ortho::arithmetic_total;
use super::quat::{sum_of_squares4, Quat};
use super::scalar::{scalar_one, scalar_sqrt, scalar_zero};
use super::vector::vector_product_spec;

verus! {

/// The rotation matrix of the quaternion `w + i I + j J + k K` (taken to be of unit length),
/// with `zero` and `one` the scalar type's neutral elements and `t = one + one`; products are
/// taken from left to right and sums and differences likewise.
pub open spec fn rotation_spec<R: Add<Output = R> + Sub<Output = R> + Mul<Output = R>>(w: R, i: R, j: R, k: R, zero: R, one: R) -> Mat4<R> {
    let t = one.add_spec(one);
    Mat([
        [
            one.sub_spec(t.mul_spec(j).mul_spec(j)).sub_spec(t.mul_spec(k).mul_spec(k)),
            t.mul_spec(i).mul_spec(j).sub_spec(t.mul_spec(k).mul_spec(w)),
            t.mul_spec(i).mul_spec(k).add_spec(t.mul_spec(j).mul_spec(w)),
            zero,
        ],
        [
            t.mul_spec(i).mul_spec(j).add_spec(t.mul_spec(k).mul_spec(w)),
            one.sub_spec(t.mul_spec(i).mul_spec(i)).sub_spec(t.mul_spec(k).mul_spec(k)),
            t.mul_spec(j).mul_spec(k).sub_spec(t.mul_spec(i).mul_spec(w)),
            zero,
        ],
        [
            t.mul_spec(i).mul_spec(k).sub_spec(t.mul_spec(j).mul_spec(w)),
            t.mul_spec(j).mul_spec(k).add_spec(t.mul_spec(i).mul_spec(w)),
            one.sub_spec(t.mul_spec(i).mul_spec(i)).sub_spec(t.mul_spec(j).mul_spec(j)),
            zero,
        ],
        [zero, zero, zero, one],
    ])
}

/// Computes the rotation matrix of a quaternion taken to be of unit length; see
/// `rotation_spec`.
pub fn rotation_matrix<R: Copy + Add<Output = R> + Sub<Output = R> + Mul<Output = R> + Div<Output = R> + Neg<Output = R>>(w: R, i: R, j: R, k: R, zero: R, one: R) -> (r: Mat4<R>)
    requires
        arithmetic_total::<R>(),
    ensures
        r == rotation_spec(w, i, j, k, zero, one),
{
    let t = one + one;
    let z = zero;
    let o = one;
    Mat([
        [o - t * j * j - t * k * k, t * i * j - t * k * w, t * i * k + t * j * w, z],
        [t * i * j + t * k * w, o - t * i * i - t * k * k, t * j * k - t * i * w, z],
        [t * i * k - t * j * w, t * j * k + t * i * w, o - t * i * i - t * j * j, z],
        [z, z, z, o],
    ])
}

impl<R: Copy + num_traits::Float + Add<Output = R> + Sub<Output = R> + Mul<Output = R> + Div<Output = R> + Neg<Output = R>> Mat4<R> {
    /// The rotation matrix of a quaternion, which is first divided by its norm.
    pub fn from_quat(v: &Quat<R>) -> (r: Self)
        requires
            arithmetic_total::<R>(),
        ensures
            exists|n: R, z: R, o: R|
                #[trigger] call_ensures(scalar_sqrt::<R>, (sum_of_squares4(v.w, v.i, v.j, v.k),), n)
                    && #[trigger] call_ensures(scalar_zero::<R>, (), z) && #[trigger] call_ensures(scalar_one::<R>, (), o)
                    && r == rotation_spec(v.w.div_spec(n), v.i.div_spec(n), v.j.div_spec(n), v.k.div_spec(n), z, o),
    {
        let n = v.norm();
        let z = scalar_zero::<R>();
        let o = scalar_one::<R>();
        let r = rotation_matrix(v.w / n, v.i / n, v.j / n, v.k / n, z, o);
        assert(call_ensures(scalar_sqrt::<R>, (sum_of_squares4(v.w, v.i, v.j, v.k),), n));
        r
    }

    /// The rotation matrix of a quaternion of unit length.
    pub fn from_unit_quat(v: Unit<Quat<R>>) -> (r: Self)
        requires
            arithmetic_total::<R>(),
        ensures
            exists|z: R, o: R|
                #[trigger] call_ensures(scalar_zero::<R>, (), z) && #[trigger] call_ensures(scalar_one::<R>, (), o) && r
                    == rotation_spec(v.0.w, v.0.i, v.0.j, v.0.k, z, o),
    {
        let z = scalar_zero::<R>();
        let o = scalar_one::<R>();
        let q = v.0;
        rotation_matrix(q.w, q.i, q.j, q.k, z, o)
    }
}

/// The matrix of an affine transformation with the rotation matrix `m`: the first three
/// diagonal cells of `m` scaled by the scale components, and the translation in the last
/// column.
pub open spec fn affine_matrix_spec<R: Mul<Output = R>>(m: Mat4<R>, t: Vec3<R>, s: Vec3<R>) -> Mat4<R> {
    Mat([
        [m.at(0, 0).mul_spec(s.at(0, 0)), m.at(0, 1), m.at(0, 2), t.at(0, 0)],
        [m.at(1, 0), m.at(1, 1).mul_spec(s.at(1, 0)), m.at(1, 2), t.at(1, 0)],
        [m.at(2, 0), m.at(2, 1), m.at(2, 2).mul_spec(s.at(2, 0)), t.at(2, 0)],
        [m.at(3, 0), m.at(3, 1), m.at(3, 2), m.at(3, 3)],
    ])
}

impl<R: Copy + num_traits::Float + Add<Output = R> + Sub<Output = R> + Mul<Output = R> + Div<Output = R> + Neg<Output = R>> Affine<R> {
    /// The 4x4 matrix of the transformation: the rotation matrix of the orientation, its first
    /// three diagonal cells scaled, and the translation in the last column.
    pub fn to_matrix(&self) -> (r: Mat4<R>)
        requires
            arithmetic_total::<R>(),
        ensures
            exists|m: Mat4<R>| #[trigger] call_ensures(Mat4::<R>::from_quat, (&self.o,), m) && r == affine_matrix_spec(m, self.t, self.s),
    {
        let m = Mat4::from_quat(&self.o);
        let t = &self.t;
        let s = &self.s;
        let r = Mat([
            [m.0[0][0] * s.0[0][0], m.0[0][1], m.0[0][2], t.0[0][0]],
            [m.0[1][0], m.0[1][1] * s.0[1][0], m.0[1][2], t.0[1][0]],
            [m.0[2][0], m.0[2][1], m.0[2][2] * s.0[2][0], t.0[2][0]],
            [m.0[3][0], m.0[3][1], m.0[3][2], m.0[3][3]],
        ]);
        assert(call_ensures(Mat4::<R>::from_quat, (&self.o,), m));
        r
    }
}

impl<R: Copy + num_traits::Float + Add<Output = R> + Sub<Output = R> + Mul<Output = R> + Div<Output = R> + Neg<Output = R>> Mat3<R> {
    /// The left-handed view matrix that looks along `fwd` with `up` as the upward direction:
    /// its rows are `side`, the normalized vector product of `up` and `fwd`, then the vector
    /// product of `fwd` and `side`, then `fwd`.
    pub fn look_at_lh(fwd: Unit<Vec3<R>>, up: Unit<Vec3<R>>) -> (r: Self)
        requires
            arithmetic_total::<R>(),
        ensures
            exists|side: Unit<Vec3<R>>| {
                &&& #[trigger] call_ensures(Unit::<Vec3<R>>::from_mat, (vector_product_spec(up.0, fwd.0),), side)
                &&& r.0@[0]@ == side.0.t_spec()
                &&& r.0@[1]@ == vector_product_spec(fwd.0, side.0).t_spec()
                &&& r.0@[2]@ == fwd.0.t_spec()
            },
    {
        let c = up.0.vector_product(&fwd.0);
        let side = Unit::from_mat(c);
        let ru = fwd.0.vector_product(&side.0);
        let r = Mat([
            [side.0.0[0][0], side.0.0[1][0], side.0.0[2][0]],
            [ru.0[0][0], ru.0[1][0], ru.0[2][0]],
            [fwd.0.0[0][0], fwd.0.0[1][0], fwd.0.0[2][0]],
        ]);
        assert(r.0@[0]@ == side.0.t_spec());
        assert(r.0@[1]@ == ru.t_spec());
        assert(r.0@[2]@ == fwd.0.t_spec());
        r
    }
}

impl<R> Vec3<R> {
    /// The components of the column vector as a sequence.
    pub open spec fn t_spec(&self) -> Seq<R> {
        seq![self.at(0, 0), self.at(1, 0), self.at(2, 0)]
    }
}

/// The first three components of a four-dimensional vector.
pub open spec fn xyz<R>(v: Vec4<R>) -> Vec3<R> {
    Mat([[v.at(0, 0)], [v.at(1, 0)], [v.at(2, 0)]])
}

/// `r` is the four-dimensional left-handed view matrix for `fwd` and `up` when the normalized
/// vector product of their first three components is `side` and the scalar type's zero and one
/// are `zero` and `one`.
pub open spec fn look_at4_outcome<R: Copy + num_traits::Float + Add<Output = R> + Sub<Output = R> + Mul<Output = R> + Div<Output = R> + Neg<Output = R>>(
    fwd: Vec4<R>,
    up: Vec4<R>,
    r: Mat4<R>,
    side: Unit<Vec3<R>>,
    zero: R,
    one: R,
) -> bool {
    let ru = vector_product_spec(xyz(fwd), side.0);
    &&& call_ensures(Unit::<Vec3<R>>::from_mat, (vector_product_spec(xyz(up), xyz(fwd)),), side)
    &&& call_ensures(scalar_zero::<R>, (), zero)
    &&& call_ensures(scalar_one::<R>, (), one)
    &&& r == Mat([
        [side.0.at(0, 0), side.0.at(1, 0), side.0.at(2, 0), zero],
        [ru.at(0, 0), ru.at(1, 0), ru.at(2, 0), zero],
        [fwd.at(0, 0), fwd.at(1, 0), fwd.at(2, 0), zero],
        [zero, zero, zero, one],
    ])
}

impl<R: Copy + num_traits::Float + Add<Output = R> + Sub<Output = R> + Mul<Output = R> + Div<Output = R> + Neg<Output = R>> Mat4<R> {
    /// The left-handed view matrix that looks along `fwd` with `up` as the upward direction,
    /// from the first three components of both: its rows are `side`, the normalized vector
    /// product of `up` and `fwd`, then the vector product of `fwd` and `side`, then `fwd`, each
    /// with a zero fourth cell, and a last row that is zero but for a one in its last cell.
    pub fn look_at_lh(fwd: Unit<Vec4<R>>, up: Unit<Vec4<R>>) -> (r: Self)
        requires
            arithmetic_total::<R>(),
        ensures
            exists|side: Unit<Vec3<R>>, zero: R, one: R| #[trigger] look_at4_outcome(fwd.0, up.0, r, side, zero, one),
    {
        let f = Vec3::new(fwd.0.x(), fwd.0.y(), fwd.0.z());
        let u = Vec3::new(up.0.x(), up.0.y(), up.0.z());
        let c = u.vector_product(&f);
        let side = Unit::from_mat(c);
        let ru = f.vector_product(&side.0);
        let zero = scalar_zero::<R>();
        let one = scalar_one::<R>();
        let r = Mat([
            [side.0.0[0][0], side.0.0[1][0], side.0.0[2][0], zero],
            [ru.0[0][0], ru.0[1][0], ru.0[2][0], zero],
            [f.0[0][0], f.0[1][0], f.0[2][0], zero],
            [zero, zero, zero, one],
        ]);
        assert(look_at4_outcome(fwd.0, up.0, r, side, zero, one));
        r
    }
}

} // verus!

verus! {

/// The cells of the rotation matrix of `w + i I + j J + k K` with exact arithmetic (integers
/// small enough not to overflow), written as polynomials in the components.
pub proof fn lemma_rotation_cells(w: i64, i: i64, j: i64, k: i64)
    requires
        -1000 <= w <= 1000,
        -1000 <= i <= 1000,
        -1000 <= j <= 1000,
        -1000 <= k <= 1000,
    ensures
        ({
            let m = rotation_spec(w, i, j, k, 0i64, 1i64);
            &&& m.at(0, 0) == 1 - 2 * (j * j) - 2 * (k * k)
            &&& m.at(0, 1) == 2 * (i * j) - 2 * (k * w)
            &&& m.at(0, 2) == 2 * (i * k) + 2 * (j * w)
            &&& m.at(1, 0) == 2 * (i * j) + 2 * (k * w)
            &&& m.at(1, 1) == 1 - 2 * (i * i) - 2 * (k * k)
            &&& m.at(1, 2) == 2 * (j * k) - 2 * (i * w)
            &&& m.at(2, 0) == 2 * (i * k) - 2 * (j * w)
            &&& m.at(2, 1) == 2 * (j * k) + 2 * (i * w)
            &&& m.at(2, 2) == 1 - 2 * (i * i) - 2 * (j * j)
            &&& m.at(3, 3) == 1
            &&& m.at(0, 3) == 0 && m.at(1, 3) == 0 && m.at(2, 3) == 0
            &&& m.at(3, 0) == 0 && m.at(3, 1) == 0 && m.at(3, 2) == 0
        }),
{
    let t = 1i64.add_spec(1i64);
    assert(t == 2);
    assert(-1000000 <= j * j <= 1000000 && -1000000 <= k * k <= 1000000 && -1000000 <= i * i <= 1000000
        && -1000000 <= i * j <= 1000000 && -1000000 <= i * k <= 1000000 && -1000000 <= j * k <= 1000000
        && -1000000 <= k * w <= 1000000 && -1000000 <= j * w <= 1000000 && -1000000 <= i * w <= 1000000) by (nonlinear_arith)
        requires
            -1000 <= w <= 1000,
            -1000 <= i <= 1000,
            -1000 <= j <= 1000,
            -1000 <= k <= 1000,
    ;
    let (ti, tj, tk) = (t.mul_spec(i), t.mul_spec(j), t.mul_spec(k));
    assert(ti == 2 * i && tj == 2 * j && tk == 2 * k);
    assert(ti.mul_spec(i) == 2 * (i * i) && tj.mul_spec(j) == 2 * (j * j) && tk.mul_spec(k) == 2 * (k * k)) by (nonlinear_arith)
        requires ti == 2 * i, tj == 2 * j, tk == 2 * k, -1000000 <= i * i <= 1000000, -1000000 <= j * j <= 1000000, -1000000 <= k * k <= 1000000;
    assert(ti.mul_spec(j) == 2 * (i * j) && ti.mul_spec(k) == 2 * (i * k) && tj.mul_spec(k) == 2 * (j * k)) by (nonlinear_arith)
        requires ti == 2 * i, tj == 2 * j, -1000000 <= i * j <= 1000000, -1000000 <= i * k <= 1000000, -1000000 <= j * k <= 1000000;
    assert(tk.mul_spec(w) == 2 * (k * w) && tj.mul_spec(w) == 2 * (j * w) && ti.mul_spec(w) == 2 * (i * w)) by (nonlinear_arith)
        requires ti == 2 * i, tj == 2 * j, tk == 2 * k, -1000000 <= k * w <= 1000000, -1000000 <= j * w <= 1000000, -1000000 <= i * w <= 1000000;
}

/// The rotation matrix of a quaternion leaves the quaternion's axis in place: with exact
/// arithmetic (here integers small enough not to overflow), the matrix of `w + i I + j J + k K`
/// sends the vector `(i, j, k)` to itself, whatever the quaternion's length.
pub proof fn lemma_rotation_fixes_its_axis(w: i64, i: i64, j: i64, k: i64)
    requires
        -1000 <= w <= 1000,
        -1000 <= i <= 1000,
        -1000 <= j <= 1000,
        -1000 <= k <= 1000,
    ensures
        ({
            let m = rotation_spec(w, i, j, k, 0i64, 1i64);
            &&& m.at(0, 0) * i + m.at(0, 1) * j + m.at(0, 2) * k == i
            &&& m.at(1, 0) * i + m.at(1, 1) * j + m.at(1, 2) * k == j
            &&& m.at(2, 0) * i + m.at(2, 1) * j + m.at(2, 2) * k == k
        }),
{
    lemma_rotation_cells(w, i, j, k);
    let (ij, ik, jk, ii, jj, kk, kw, jw, iw) = (i * j, i * k, j * k, i * i, j * j, k * k, k * w, j * w, i * w);
    assert((1 - 2 * jj - 2 * kk) * i + (2 * ij - 2 * kw) * j + (2 * ik + 2 * jw) * k == i) by (nonlinear_arith)
        requires ij == i * j, ik == i * k, jj == j * j, kk == k * k, kw == k * w, jw == j * w;
    assert((2 * ij + 2 * kw) * i + (1 - 2 * ii - 2 * kk) * j + (2 * jk - 2 * iw) * k == j) by (nonlinear_arith)
        requires ij == i * j, jk == j * k, ii == i * i, kk == k * k, kw == k * w, iw == i * w;
    assert((2 * ik - 2 * jw) * i + (2 * jk + 2 * iw) * j + (1 - 2 * ii - 2 * jj) * k == k) by (nonlinear_arith)
        requires ik == i * k, jk == j * k, ii == i * i, jj == j * j, jw == j * w, iw == i * w;
}

} // verus!

verus! {

/// The matrix of an affine transformation holds the rotation matrix of its orientation: off
/// the diagonal of the upper 3x3 block its cells are those of `Mat4::from_quat` of the
/// orientation, on that diagonal they are scaled by the scale, the last column holds the
/// translation, and the last row is that of the rotation matrix.
pub proof fn lemma_affine_matrix_holds_the_rotation<R: Copy + num_traits::Float + Add<Output = R> + Sub<Output = R> + Mul<Output = R> + Div<Output = R> + Neg<Output = R>>(a: Affine<R>, r: Mat4<R>)
    requires
        call_ensures(Affine::<R>::to_matrix, (&a,), r),
    ensures
        exists|m: Mat4<R>|
            #[trigger] call_ensures(Mat4::<R>::from_quat, (&a.o,), m) && (forall|x: int, y: int|
                0 <= x < 3 && 0 <= y < 3 && x != y ==> #[trigger] r.at(x, y) == m.at(x, y)) && (forall|x: int|
                0 <= x < 3 ==> #[trigger] r.at(x, x) == m.at(x, x).mul_spec(a.s.at(x, 0)) && r.at(x, 3) == a.t.at(x, 0))
                && (forall|y: int| 0 <= y < 4 ==> #[trigger] r.at(3, y) == m.at(3, y)),
{
    let m = choose|m: Mat4<R>| #[trigger] call_ensures(Mat4::<R>::from_quat, (&a.o,), m) && r == affine_matrix_spec(m, a.t, a.s);
    assert forall|x: int, y: int| 0 <= x < 3 && 0 <= y < 3 && x != y implies #[trigger] r.at(x, y) == m.at(x, y) by {}
    assert forall|x: int| 0 <= x < 3 implies #[trigger] r.at(x, x) == m.at(x, x).mul_spec(a.s.at(x, 0)) && r.at(x, 3) == a.t.at(x, 0) by {}
    assert forall|y: int| 0 <= y < 4 implies #[trigger] r.at(3, y) == m.at(3, y) by {}
}

} // verus!

verus! {

/// The rotation matrix of a quaternion turns by the right-hand rule: with exact arithmetic
/// (here integers small enough not to overflow), the antisymmetric part of the matrix of
/// `w + i I + j J + k K` is `4 w` times the axis `(i, j, k)`, so that a positive `w` turns `x`
/// towards `y` about `z` (and likewise about the other axes).
pub proof fn lemma_rotation_turns_by_the_right_hand_rule(w: i64, i: i64, j: i64, k: i64)
    requires
        -1000 <= w <= 1000,
        -1000 <= i <= 1000,
        -1000 <= j <= 1000,
        -1000 <= k <= 1000,
    ensures
        ({
            let m = rotation_spec(w, i, j, k, 0i64, 1i64);
            &&& m.at(2, 1) - m.at(1, 2) == 4 * (w * i)
            &&& m.at(0, 2) - m.at(2, 0) == 4 * (w * j)
            &&& m.at(1, 0) - m.at(0, 1) == 4 * (w * k)
        }),
{
    lemma_rotation_cells(w, i, j, k);
    assert(i * w == w * i && j * w == w * j && k * w == w * k) by (nonlinear_arith);
}

} // verus!
