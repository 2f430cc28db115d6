//! Quaternions of rotation matrices, and affine transformations recovered from their matrices.

use vstd::prelude::*;
use std::ops::{Add, Div, Mul, Neg, Sub};
use vstd::std_specs::ops::{AddSpec, DivSpec, MulSpec, NegSpec, SubSpec};
use super::affine::Affine;
use super::mat::{Mat, Mat3, Mat4, Vec3, Vec4};
use super::norm::Unit;
use super::ortho::arithmetic_total;
use super::quat::Quat;
use super::scalar::{scalar_gt, scalar_lt, scalar_one, scalar_sqrt, scalar_zero};

verus! {

/// Every component of `q` multiplied by `f`.
pub open spec fn quat_scaled<R: Mul<Output = R>>(q: Quat<R>, f: R) -> Quat<R> {
    Quat { w: q.w.mul_spec(f), i: q.i.mul_spec(f), j: q.j.mul_spec(f), k: q.k.mul_spec(f) }
}

/// The term whose square root scales the quaternion of the 3x3 rotation matrix `v`, for the
/// branch that the comparisons `first` (`v22 < v00`) and `second` (`v00 > v11` where `first`
/// holds, `v00 < -v11` where it does not) pick.
pub open spec fn mat3_quat_term<R: Add<Output = R> + Sub<Output = R>>(v: Mat3<R>, one: R, first: bool, second: bool) -> R {
    let (v00, v11, v22) = (v.at(0, 0), v.at(1, 1), v.at(2, 2));
    if first {
        if second {
            one.add_spec(v00).sub_spec(v11).sub_spec(v22)
        } else {
            one.sub_spec(v00).add_spec(v11).sub_spec(v22)
        }
    } else {
        if second {
            one.sub_spec(v00).sub_spec(v11).add_spec(v22)
        } else {
            one.add_spec(v00).add_spec(v11).add_spec(v22)
        }
    }
}

/// The quaternion of the 3x3 rotation matrix `v` before scaling, for the branch that `first` and
/// `second` pick (see `mat3_quat_term`), with `t` that branch's term.
pub open spec fn mat3_quat_unscaled<R: Add<Output = R> + Sub<Output = R>>(v: Mat3<R>, t: R, first: bool, second: bool) -> Quat<R> {
    if first {
        if second {
            Quat { w: v.at(1, 2).sub_spec(v.at(2, 1)), i: t, j: v.at(0, 1).add_spec(v.at(1, 0)), k: v.at(2, 0).add_spec(v.at(0, 2)) }
        } else {
            Quat { w: v.at(2, 0).sub_spec(v.at(0, 2)), i: v.at(0, 1).add_spec(v.at(1, 0)), j: t, k: v.at(1, 2).add_spec(v.at(2, 1)) }
        }
    } else {
        if second {
            Quat { w: v.at(0, 1).sub_spec(v.at(1, 0)), i: v.at(2, 0).add_spec(v.at(0, 2)), j: v.at(1, 2).add_spec(v.at(2, 1)), k: t }
        } else {
            Quat { w: t, i: v.at(1, 2).sub_spec(v.at(2, 1)), j: v.at(2, 0).sub_spec(v.at(0, 2)), k: v.at(0, 1).sub_spec(v.at(1, 0)) }
        }
    }
}

impl<R: Copy + num_traits::Float + PartialOrd + Add<Output = R> + Sub<Output = R> + Mul<Output = R> + Div<Output = R> + Neg<Output = R>> Quat<R> {
    /// The quaternion of the rotation matrix `v`: the branch is picked by comparing diagonal
    /// cells, the branch's term `t` is computed, and the unscaled quaternion is multiplied by
    /// `half / sqrt(t)` with `half = one / (one + one)`.
    pub fn from_mat3(v: &Mat3<R>) -> (r: Self)
        requires
            arithmetic_total::<R>(),
        ensures
            exists|one: R, first: bool, second: bool, s: R| {
                &&& #[trigger] call_ensures(scalar_one::<R>, (), one)
                &&& #[trigger] call_ensures(scalar_lt::<R>, (v.at(2, 2), v.at(0, 0)), first)
                &&& first ==> call_ensures(scalar_gt::<R>, (v.at(0, 0), v.at(1, 1)), second)
                &&& !first ==> call_ensures(scalar_lt::<R>, (v.at(0, 0), v.at(1, 1).neg_spec()), second)
                &&& #[trigger] call_ensures(scalar_sqrt::<R>, (mat3_quat_term(*v, one, first, second),), s)
                &&& r == quat_scaled(
                    mat3_quat_unscaled(*v, mat3_quat_term(*v, one, first, second), first, second),
                    one.div_spec(one.add_spec(one)).div_spec(s),
                )
            },
    {
        let one = scalar_one::<R>();
        let half = one / (one + one);
        let m = &v.0;
        let (v00, v11, v22) = (m[0][0], m[1][1], m[2][2]);
        let first = scalar_lt(v22, v00);
        let second = if first {
            scalar_gt(v00, v11)
        } else {
            scalar_lt(v00, v11.neg())
        };
        let t = if first {
            if second {
                one + v00 - v11 - v22
            } else {
                one - v00 + v11 - v22
            }
        } else {
            if second {
                one - v00 - v11 + v22
            } else {
                one + v00 + v11 + v22
            }
        };
        let q = if first {
            if second {
                Quat::new(m[1][2] - m[2][1], t, m[0][1] + m[1][0], m[2][0] + m[0][2])
            } else {
                Quat::new(m[2][0] - m[0][2], m[0][1] + m[1][0], t, m[1][2] + m[2][1])
            }
        } else {
            if second {
                Quat::new(m[0][1] - m[1][0], m[2][0] + m[0][2], m[1][2] + m[2][1], t)
            } else {
                Quat::new(t, m[1][2] - m[2][1], m[2][0] - m[0][2], m[0][1] - m[1][0])
            }
        };
        let s = scalar_sqrt(t);
        let r = q.mul_scalar(&(half / s));
        assert(call_ensures(scalar_sqrt::<R>, (mat3_quat_term(*v, one, first, second),), s));
        r
    }
}

/// The branch of the quaternion of a 4x4 rotation matrix that the comparisons pick: 0 where the
/// trace is greater than zero, 1 where `v00` is greater than both `v11` and `v22`, 2 where `v11`
/// is greater than `v22`, and 3 otherwise.
pub open spec fn mat4_branch(trace_positive: bool, c01: bool, c02: bool, c12: bool) -> int {
    if trace_positive {
        0
    } else if c01 && c02 {
        1
    } else if c12 {
        2
    } else {
        3
    }
}

/// The trace of the rotation part of `v`: `v00 + v11 + v22`.
pub open spec fn mat4_trace<R: Add<Output = R>>(v: Mat4<R>) -> R {
    v.at(0, 0).add_spec(v.at(1, 1)).add_spec(v.at(2, 2))
}

/// The term whose square root, doubled, scales the quaternion of the 4x4 rotation matrix `v` in
/// branch `branch` (see `mat4_branch`).
pub open spec fn mat4_quat_term<R: Add<Output = R> + Sub<Output = R>>(v: Mat4<R>, one: R, branch: int) -> R {
    let (v00, v11, v22) = (v.at(0, 0), v.at(1, 1), v.at(2, 2));
    if branch == 0 {
        one.add_spec(mat4_trace(v))
    } else if branch == 1 {
        one.add_spec(v00).sub_spec(v11).sub_spec(v22)
    } else if branch == 2 {
        one.add_spec(v11).sub_spec(v00).sub_spec(v22)
    } else {
        one.add_spec(v22).sub_spec(v00).sub_spec(v11)
    }
}

/// The quaternion of the 4x4 rotation matrix `v` before normalization, in branch `branch`, with
/// `s` the doubled square root of the branch's term and `quarter = one / (two + two)`.
pub open spec fn mat4_quat_unscaled<R: Add<Output = R> + Sub<Output = R> + Mul<Output = R> + Div<Output = R>>(v: Mat4<R>, s: R, quarter: R, branch: int) -> Quat<R> {
    let q = quarter.mul_spec(s);
    if branch == 0 {
        Quat { w: q, i: v.at(2, 1).sub_spec(v.at(1, 2)).div_spec(s), j: v.at(0, 2).sub_spec(v.at(2, 0)).div_spec(s), k: v.at(1, 0).sub_spec(v.at(0, 1)).div_spec(s) }
    } else if branch == 1 {
        Quat { w: v.at(2, 1).sub_spec(v.at(1, 2)).div_spec(s), i: q, j: v.at(0, 1).add_spec(v.at(1, 0)).div_spec(s), k: v.at(0, 2).add_spec(v.at(2, 0)).div_spec(s) }
    } else if branch == 2 {
        Quat { w: v.at(0, 2).sub_spec(v.at(2, 0)).div_spec(s), i: v.at(0, 1).add_spec(v.at(1, 0)).div_spec(s), j: q, k: v.at(1, 2).add_spec(v.at(2, 1)).div_spec(s) }
    } else {
        Quat { w: v.at(1, 0).sub_spec(v.at(0, 1)).div_spec(s), i: v.at(0, 2).add_spec(v.at(2, 0)).div_spec(s), j: v.at(1, 2).add_spec(v.at(2, 1)).div_spec(s), k: q }
    }
}

/// `r` is what `Unit::from_mat4` gives for `v` when the scalar type's zero and one are `zero`
/// and `one`, the comparisons answer `tp`, `c01`, `c02` and `c12` (see `mat4_branch`), and the
/// square root of the branch's term is `root`.
pub open spec fn from_mat4_outcome<R: Copy + num_traits::Float + PartialOrd + Add<Output = R> + Sub<Output = R> + Mul<Output = R> + Div<Output = R> + Neg<Output = R>>(
    v: Mat4<R>,
    r: Unit<Quat<R>>,
    zero: R,
    one: R,
    tp: bool,
    c01: bool,
    c02: bool,
    c12: bool,
    root: R,
) -> bool {
    &&& call_ensures(scalar_zero::<R>, (), zero)
    &&& call_ensures(scalar_one::<R>, (), one)
    &&& call_ensures(scalar_gt::<R>, (mat4_trace(v), zero), tp)
    &&& !tp ==> call_ensures(scalar_gt::<R>, (v.at(0, 0), v.at(1, 1)), c01)
    &&& !tp && c01 ==> call_ensures(scalar_gt::<R>, (v.at(0, 0), v.at(2, 2)), c02)
    &&& !tp && !(c01 && c02) ==> call_ensures(scalar_gt::<R>, (v.at(1, 1), v.at(2, 2)), c12)
    &&& call_ensures(scalar_sqrt::<R>, (mat4_quat_term(v, one, mat4_branch(tp, c01, c02, c12)),), root)
    &&& call_ensures(
        Unit::<Quat<R>>::from_quat,
        (mat4_quat_unscaled(
            v,
            root.mul_spec(one.add_spec(one)),
            one.div_spec(one.add_spec(one).add_spec(one.add_spec(one))),
            mat4_branch(tp, c01, c02, c12),
        ),),
        r,
    )
}

impl<R: Copy + num_traits::Float + PartialOrd + Add<Output = R> + Sub<Output = R> + Mul<Output = R> + Div<Output = R> + Neg<Output = R>> Unit<Quat<R>> {
    /// The unit quaternion of the rotation matrix `v`: the branch is picked by comparing the
    /// trace with zero and then the diagonal cells, the quaternion of that branch is formed with
    /// `s`, the doubled square root of the branch's term, and it is divided by its norm.
    pub fn from_mat4(v: Mat4<R>) -> (r: Self)
        requires
            arithmetic_total::<R>(),
        ensures
            exists|zero: R, one: R, tp: bool, c01: bool, c02: bool, c12: bool, root: R|
                #[trigger] from_mat4_outcome(v, r, zero, one, tp, c01, c02, c12, root),
    {
        let zero = scalar_zero::<R>();
        let one = scalar_one::<R>();
        let two = one + one;
        let quarter = one / (two + two);
        let m = &v.0;
        let (v00, v11, v22) = (m[0][0], m[1][1], m[2][2]);
        let trace = v00 + v11 + v22;
        let tp = scalar_gt(trace, zero);
        let mut c01 = false;
        let mut c02 = false;
        let mut c12 = false;
        let branch: u8 = if tp {
            0
        } else {
            c01 = scalar_gt(v00, v11);
            if c01 {
                c02 = scalar_gt(v00, v22);
            }
            if c01 && c02 {
                1
            } else {
                c12 = scalar_gt(v11, v22);
                if c12 {
                    2
                } else {
                    3
                }
            }
        };
        assert(branch == mat4_branch(tp, c01, c02, c12));
        let t = if branch == 0 {
            one + trace
        } else if branch == 1 {
            one + v00 - v11 - v22
        } else if branch == 2 {
            one + v11 - v00 - v22
        } else {
            one + v22 - v00 - v11
        };
        let root = scalar_sqrt(t);
        let s = root * two;
        let q = quarter * s;
        let unscaled = if branch == 0 {
            Quat::new(q, (m[2][1] - m[1][2]) / s, (m[0][2] - m[2][0]) / s, (m[1][0] - m[0][1]) / s)
        } else if branch == 1 {
            Quat::new((m[2][1] - m[1][2]) / s, q, (m[0][1] + m[1][0]) / s, (m[0][2] + m[2][0]) / s)
        } else if branch == 2 {
            Quat::new((m[0][2] - m[2][0]) / s, (m[0][1] + m[1][0]) / s, q, (m[1][2] + m[2][1]) / s)
        } else {
            Quat::new((m[1][0] - m[0][1]) / s, (m[0][2] + m[2][0]) / s, (m[1][2] + m[2][1]) / s, q)
        };
        assert(t == mat4_quat_term(v, one, branch as int));
        assert(unscaled == mat4_quat_unscaled(v, s, quarter, branch as int));
        let r = Unit::from_quat(unscaled);
        assert(from_mat4_outcome(v, r, zero, one, tp, c01, c02, c12, root));
        r
    }
}

/// Column `k` of `v`.
pub open spec fn column_of<R>(v: Mat4<R>, k: int) -> Vec4<R> {
    Mat([[v.at(0, k)], [v.at(1, k)], [v.at(2, k)], [v.at(3, k)]])
}

/// The translation of the affine transformation of `v`: the first three cells of the last column.
pub open spec fn translation_of<R>(v: Mat4<R>) -> Vec3<R> {
    Mat([[v.at(0, 3)], [v.at(1, 3)], [v.at(2, 3)]])
}

/// The rotation part of `v`: its first three columns divided by the scales `sx`, `sy` and `sz`
/// in their first three rows, the rest of the last row and column set to `zero`, and `one` in
/// the last cell of the diagonal.
pub open spec fn rotation_part<R: Div<Output = R>>(v: Mat4<R>, sx: R, sy: R, sz: R, zero: R, one: R) -> Mat4<R> {
    Mat([
        [v.at(0, 0).div_spec(sx), v.at(0, 1).div_spec(sy), v.at(0, 2).div_spec(sz), zero],
        [v.at(1, 0).div_spec(sx), v.at(1, 1).div_spec(sy), v.at(1, 2).div_spec(sz), zero],
        [v.at(2, 0).div_spec(sx), v.at(2, 1).div_spec(sy), v.at(2, 2).div_spec(sz), zero],
        [zero, zero, zero, one],
    ])
}

/// `r` is what `Affine::try_from` gives for `v` when the norms of its first three columns are
/// `sx`, `sy` and `sz`, the scalar type's zero and one are `zero` and `one`, and the unit
/// quaternion of the rotation part is `u`.
pub open spec fn affine_outcome<R: Copy + num_traits::Float + PartialOrd + Add<Output = R> + Sub<Output = R> + Mul<Output = R> + Div<Output = R> + Neg<Output = R>>(
    v: Mat4<R>,
    r: Result<Affine<R>, ()>,
    sx: R,
    sy: R,
    sz: R,
    zero: R,
    one: R,
    u: Unit<Quat<R>>,
) -> bool {
    &&& call_ensures(Mat::<R, 4, 1>::norm, (&column_of(v, 0),), sx)
    &&& call_ensures(Mat::<R, 4, 1>::norm, (&column_of(v, 1),), sy)
    &&& call_ensures(Mat::<R, 4, 1>::norm, (&column_of(v, 2),), sz)
    &&& call_ensures(scalar_zero::<R>, (), zero)
    &&& call_ensures(scalar_one::<R>, (), one)
    &&& call_ensures(Unit::<Quat<R>>::from_mat4, (rotation_part(v, sx, sy, sz, zero, one),), u)
    &&& r == Ok::<Affine<R>, ()>(Affine { t: translation_of(v), o: u.0, s: Mat([[sx], [sy], [sz]]) })
}

impl<R: Copy + num_traits::Float + PartialOrd + Add<Output = R> + Sub<Output = R> + Mul<Output = R> + Div<Output = R> + Neg<Output = R>> Affine<R> {
    /// The affine transformation of the matrix `v`: the translation is the last column, the
    /// scale holds the norms of the first three columns, and the orientation is the unit
    /// quaternion of the rotation part, the first three columns divided by their scales. It
    /// always succeeds.
    pub fn try_from(v: Mat4<R>) -> (r: Result<Self, ()>)
        requires
            arithmetic_total::<R>(),
        ensures
            exists|sx: R, sy: R, sz: R, zero: R, one: R, u: Unit<Quat<R>>|
                #[trigger] affine_outcome(v, r, sx, sy, sz, zero, one, u),
    {
        let t: Vec3<R> = v.subset::<3, 1>(0, 3);
        proof {
            t.lemma_same_cells_equal(&translation_of(v));
        }
        let c0 = v.col(0);
        let c1 = v.col(1);
        let c2 = v.col(2);
        proof {
            c0.lemma_same_cells_equal(&column_of(v, 0));
            c1.lemma_same_cells_equal(&column_of(v, 1));
            c2.lemma_same_cells_equal(&column_of(v, 2));
        }
        let sx = c0.norm();
        let sy = c1.norm();
        let sz = c2.norm();
        let zero = scalar_zero::<R>();
        let one = scalar_one::<R>();
        let m = &v.0;
        let rot = Mat([
            [m[0][0] / sx, m[0][1] / sy, m[0][2] / sz, zero],
            [m[1][0] / sx, m[1][1] / sy, m[1][2] / sz, zero],
            [m[2][0] / sx, m[2][1] / sy, m[2][2] / sz, zero],
            [zero, zero, zero, one],
        ]);
        assert(rot == rotation_part(v, sx, sy, sz, zero, one));
        let u = Unit::from_mat4(rot);
        let r = Ok(Affine { t, o: u.0, s: Vec3::new(sx, sy, sz) });
        assert(affine_outcome(v, r, sx, sy, sz, zero, one, u));
        r
    }
}

} // verus!

verus! {

/// A quaternion is recovered from its own rotation matrix: with exact arithmetic (here integers
/// small enough not to overflow), in each branch the quaternion that `from_mat4` forms from the
/// rotation matrix of `w + i I + j J + k K`, before it is normalized, has the components other
/// than the branch's own equal to those of the quaternion times `4 p / s`, where `p` is the
/// component that the branch is named after (`w`, `i`, `j`, `k` for branches 0 to 3). So the
/// recovered quaternion points the same way as the original one, or the opposite way where `p`
/// is negative, which describes the same rotation.
pub proof fn lemma_quat_recovered_from_its_rotation_matrix(w: i64, i: i64, j: i64, k: i64, s: i64, quarter: i64, branch: int)
    requires
        -1000 <= w <= 1000,
        -1000 <= i <= 1000,
        -1000 <= j <= 1000,
        -1000 <= k <= 1000,
        0 < s,
        0 <= branch < 4,
    ensures
        ({
            let u = mat4_quat_unscaled(super::rotation::rotation_spec(w, i, j, k, 0i64, 1i64), s, quarter, branch);
            let p = if branch == 0 { w } else if branch == 1 { i } else if branch == 2 { j } else { k };
            &&& branch != 0 ==> u.w == ((4 * (p * w)) as i64).div_spec(s)
            &&& branch != 1 ==> u.i == ((4 * (p * i)) as i64).div_spec(s)
            &&& branch != 2 ==> u.j == ((4 * (p * j)) as i64).div_spec(s)
            &&& branch != 3 ==> u.k == ((4 * (p * k)) as i64).div_spec(s)
        }),
{
    super::rotation::lemma_rotation_cells(w, i, j, k);
    assert(i * w == w * i && j * w == w * j && k * w == w * k && i * j == j * i && i * k == k * i && j * k == k * j) by (nonlinear_arith);
    assert(-1000000 <= i * w <= 1000000 && -1000000 <= j * w <= 1000000 && -1000000 <= k * w <= 1000000
        && -1000000 <= i * j <= 1000000 && -1000000 <= i * k <= 1000000 && -1000000 <= j * k <= 1000000) by (nonlinear_arith)
        requires
            -1000 <= w <= 1000,
            -1000 <= i <= 1000,
            -1000 <= j <= 1000,
            -1000 <= k <= 1000,
    ;
}

} // verus!

verus! {

/// The quaternion that `from_mat3` forms from the 3x3 block of the rotation matrix of
/// `q = w + i I + j J + k K` is, before it is scaled, the conjugate of `q` up to a factor: with
/// exact arithmetic (here integers small enough not to overflow), in each branch the components
/// other than the branch's own are those of `-p (w, -i, -j, -k) * 4` where `p` is the component
/// the branch is named after (`i`, `j`, `k` for the first three branches), and those of
/// `4 w (w, -i, -j, -k)` in the last branch.
pub proof fn lemma_quat_of_mat3_is_the_conjugate(w: i64, i: i64, j: i64, k: i64, t: i64, first: bool, second: bool)
    requires
        -1000 <= w <= 1000,
        -1000 <= i <= 1000,
        -1000 <= j <= 1000,
        -1000 <= k <= 1000,
    ensures
        ({
            let m = super::rotation::rotation_spec(w, i, j, k, 0i64, 1i64);
            let b: Mat3<i64> = Mat([
                [m.at(0, 0), m.at(0, 1), m.at(0, 2)],
                [m.at(1, 0), m.at(1, 1), m.at(1, 2)],
                [m.at(2, 0), m.at(2, 1), m.at(2, 2)],
            ]);
            let u = mat3_quat_unscaled(b, t, first, second);
            &&& first && second ==> u.w == -4 * (i * w) && u.j == 4 * (i * j) && u.k == 4 * (i * k)
            &&& first && !second ==> u.w == -4 * (j * w) && u.i == 4 * (j * i) && u.k == 4 * (j * k)
            &&& !first && second ==> u.w == -4 * (k * w) && u.i == 4 * (k * i) && u.j == 4 * (k * j)
            &&& !first && !second ==> u.i == -4 * (w * i) && u.j == -4 * (w * j) && u.k == -4 * (w * k)
        }),
{
    super::rotation::lemma_rotation_cells(w, i, j, k);
    assert(i * w == w * i && j * w == w * j && k * w == w * k && i * j == j * i && i * k == k * i && j * k == k * j) by (nonlinear_arith);
    assert(-1000000 <= i * w <= 1000000 && -1000000 <= j * w <= 1000000 && -1000000 <= k * w <= 1000000
        && -1000000 <= i * j <= 1000000 && -1000000 <= i * k <= 1000000 && -1000000 <= j * k <= 1000000) by (nonlinear_arith)
        requires
            -1000 <= w <= 1000,
            -1000 <= i <= 1000,
            -1000 <= j <= 1000,
            -1000 <= k <= 1000,
    ;
}

} // verus!
