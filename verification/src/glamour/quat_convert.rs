//! Conversions between quaternions and four-dimensional vectors: the real part of a quaternion
//! is the last component of its vector.

use vstd::prelude::*;
use super::mat::{Mat, Vec4};
use super::quat::Quat;

verus! {

/// The quaternion of a vector: its last component is the real part, the first three the
/// imaginary parts.
pub open spec fn quat_of_vec4<R>(v: Vec4<R>) -> Quat<R> {
    Quat { w: v.at(3, 0), i: v.at(0, 0), j: v.at(1, 0), k: v.at(2, 0) }
}

/// The vector of a quaternion: the imaginary parts, then the real part.
pub open spec fn vec4_of_quat<R>(q: Quat<R>) -> Vec4<R> {
    Mat([[q.i], [q.j], [q.k], [q.w]])
}

impl<R: Copy> From<Vec4<R>> for Quat<R> {
    fn from(value: Vec4<R>) -> (r: Self)
        ensures
            r == quat_of_vec4(value),
    {
        let c = &value.0;
        Quat { w: c[3][0], i: c[0][0], j: c[1][0], k: c[2][0] }
    }
}

impl<R: Copy> vstd::std_specs::convert::FromSpecImpl<Vec4<R>> for Quat<R> {
    open spec fn obeys_from_spec() -> bool {
        true
    }

    open spec fn from_spec(v: Vec4<R>) -> Self {
        quat_of_vec4(v)
    }
}

impl<R> From<Quat<R>> for Vec4<R> {
    fn from(value: Quat<R>) -> (r: Self)
        ensures
            r == vec4_of_quat(value),
    {
        Mat([[value.i], [value.j], [value.k], [value.w]])
    }
}

impl<R> vstd::std_specs::convert::FromSpecImpl<Quat<R>> for Vec4<R> {
    open spec fn obeys_from_spec() -> bool {
        true
    }

    open spec fn from_spec(q: Quat<R>) -> Self {
        vec4_of_quat(q)
    }
}

/// Converting a quaternion to a vector and back gives the quaternion, and converting a vector to
/// a quaternion and back gives the vector.
pub proof fn lemma_quat_vec4_roundtrip<R>(q: Quat<R>, v: Vec4<R>)
    ensures
        quat_of_vec4(vec4_of_quat(q)) == q,
        vec4_of_quat(quat_of_vec4(v)) == v,
{
    let back = vec4_of_quat(quat_of_vec4(v));
    assert forall|a: int, b: int| 0 <= a < 4 && 0 <= b < 1 implies #[trigger] back.at(a, b) == v.at(a, b) by {}
    back.lemma_same_cells_equal(&v);
}

} // verus!
