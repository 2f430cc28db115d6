//! Conversions into matrices, and indexing of their cells.

use vstd::prelude::*;
use super::mat::{Error, Mat};

verus! {

impl<R, const I: usize, const J: usize> From<[[R; J]; I]> for Mat<R, I, J> {
    fn from(v: [[R; J]; I]) -> (r: Self)
        ensures
            r.0 == v,
    {
        Mat(v)
    }
}

impl<R, const I: usize, const J: usize> vstd::std_specs::convert::FromSpecImpl<[[R; J]; I]> for Mat<R, I, J> {
    open spec fn obeys_from_spec() -> bool {
        true
    }

    open spec fn from_spec(v: [[R; J]; I]) -> Self {
        Mat(v)
    }
}

impl<R> From<R> for Mat<R, 1, 1> {
    fn from(v: R) -> (r: Self)
        ensures
            r.at(0, 0) == v,
    {
        Mat([[v]])
    }
}

impl<R> vstd::std_specs::convert::FromSpecImpl<R> for Mat<R, 1, 1> {
    open spec fn obeys_from_spec() -> bool {
        false
    }

    open spec fn from_spec(v: R) -> Self {
        arbitrary()
    }
}

impl<R: Copy> From<[R; 1]> for Mat<R, 1, 1> {
    fn from(v: [R; 1]) -> (r: Self)
        ensures
            forall|a: int, b: int| 0 <= a < 1 && 0 <= b < 1 ==> #[trigger] r.at(a, b) == v@[a * 1 + b],
    {
        Mat([[v[0]]])
    }
}

impl<R: Copy> vstd::std_specs::convert::FromSpecImpl<[R; 1]> for Mat<R, 1, 1> {
    open spec fn obeys_from_spec() -> bool {
        false
    }

    open spec fn from_spec(v: [R; 1]) -> Self {
        arbitrary()
    }
}

impl<R: Copy> From<[R; 2]> for Mat<R, 1, 2> {
    fn from(v: [R; 2]) -> (r: Self)
        ensures
            forall|a: int, b: int| 0 <= a < 1 && 0 <= b < 2 ==> #[trigger] r.at(a, b) == v@[a * 2 + b],
    {
        Mat([[v[0], v[1]]])
    }
}

impl<R: Copy> vstd::std_specs::convert::FromSpecImpl<[R; 2]> for Mat<R, 1, 2> {
    open spec fn obeys_from_spec() -> bool {
        false
    }

    open spec fn from_spec(v: [R; 2]) -> Self {
        arbitrary()
    }
}

impl<R: Copy> From<[R; 3]> for Mat<R, 1, 3> {
    fn from(v: [R; 3]) -> (r: Self)
        ensures
            forall|a: int, b: int| 0 <= a < 1 && 0 <= b < 3 ==> #[trigger] r.at(a, b) == v@[a * 3 + b],
    {
        Mat([[v[0], v[1], v[2]]])
    }
}

impl<R: Copy> vstd::std_specs::convert::FromSpecImpl<[R; 3]> for Mat<R, 1, 3> {
    open spec fn obeys_from_spec() -> bool {
        false
    }

    open spec fn from_spec(v: [R; 3]) -> Self {
        arbitrary()
    }
}

impl<R: Copy> From<[R; 4]> for Mat<R, 1, 4> {
    fn from(v: [R; 4]) -> (r: Self)
        ensures
            forall|a: int, b: int| 0 <= a < 1 && 0 <= b < 4 ==> #[trigger] r.at(a, b) == v@[a * 4 + b],
    {
        Mat([[v[0], v[1], v[2], v[3]]])
    }
}

impl<R: Copy> vstd::std_specs::convert::FromSpecImpl<[R; 4]> for Mat<R, 1, 4> {
    open spec fn obeys_from_spec() -> bool {
        false
    }

    open spec fn from_spec(v: [R; 4]) -> Self {
        arbitrary()
    }
}

impl<R: Copy> From<[R; 2]> for Mat<R, 2, 1> {
    fn from(v: [R; 2]) -> (r: Self)
        ensures
            forall|a: int, b: int| 0 <= a < 2 && 0 <= b < 1 ==> #[trigger] r.at(a, b) == v@[a * 1 + b],
    {
        Mat([[v[0]], [v[1]]])
    }
}

impl<R: Copy> vstd::std_specs::convert::FromSpecImpl<[R; 2]> for Mat<R, 2, 1> {
    open spec fn obeys_from_spec() -> bool {
        false
    }

    open spec fn from_spec(v: [R; 2]) -> Self {
        arbitrary()
    }
}

impl<R: Copy> From<[R; 4]> for Mat<R, 2, 2> {
    fn from(v: [R; 4]) -> (r: Self)
        ensures
            forall|a: int, b: int| 0 <= a < 2 && 0 <= b < 2 ==> #[trigger] r.at(a, b) == v@[a * 2 + b],
    {
        Mat([[v[0], v[1]], [v[2], v[3]]])
    }
}

impl<R: Copy> vstd::std_specs::convert::FromSpecImpl<[R; 4]> for Mat<R, 2, 2> {
    open spec fn obeys_from_spec() -> bool {
        false
    }

    open spec fn from_spec(v: [R; 4]) -> Self {
        arbitrary()
    }
}

impl<R: Copy> From<[R; 6]> for Mat<R, 2, 3> {
    fn from(v: [R; 6]) -> (r: Self)
        ensures
            forall|a: int, b: int| 0 <= a < 2 && 0 <= b < 3 ==> #[trigger] r.at(a, b) == v@[a * 3 + b],
    {
        Mat([[v[0], v[1], v[2]], [v[3], v[4], v[5]]])
    }
}

impl<R: Copy> vstd::std_specs::convert::FromSpecImpl<[R; 6]> for Mat<R, 2, 3> {
    open spec fn obeys_from_spec() -> bool {
        false
    }

    open spec fn from_spec(v: [R; 6]) -> Self {
        arbitrary()
    }
}

impl<R: Copy> From<[R; 8]> for Mat<R, 2, 4> {
    fn from(v: [R; 8]) -> (r: Self)
        ensures
            forall|a: int, b: int| 0 <= a < 2 && 0 <= b < 4 ==> #[trigger] r.at(a, b) == v@[a * 4 + b],
    {
        Mat([[v[0], v[1], v[2], v[3]], [v[4], v[5], v[6], v[7]]])
    }
}

impl<R: Copy> vstd::std_specs::convert::FromSpecImpl<[R; 8]> for Mat<R, 2, 4> {
    open spec fn obeys_from_spec() -> bool {
        false
    }

    open spec fn from_spec(v: [R; 8]) -> Self {
        arbitrary()
    }
}

impl<R: Copy> From<[R; 3]> for Mat<R, 3, 1> {
    fn from(v: [R; 3]) -> (r: Self)
        ensures
            forall|a: int, b: int| 0 <= a < 3 && 0 <= b < 1 ==> #[trigger] r.at(a, b) == v@[a * 1 + b],
    {
        Mat([[v[0]], [v[1]], [v[2]]])
    }
}

impl<R: Copy> vstd::std_specs::convert::FromSpecImpl<[R; 3]> for Mat<R, 3, 1> {
    open spec fn obeys_from_spec() -> bool {
        false
    }

    open spec fn from_spec(v: [R; 3]) -> Self {
        arbitrary()
    }
}

impl<R: Copy> From<[R; 6]> for Mat<R, 3, 2> {
    fn from(v: [R; 6]) -> (r: Self)
        ensures
            forall|a: int, b: int| 0 <= a < 3 && 0 <= b < 2 ==> #[trigger] r.at(a, b) == v@[a * 2 + b],
    {
        Mat([[v[0], v[1]], [v[2], v[3]], [v[4], v[5]]])
    }
}

impl<R: Copy> vstd::std_specs::convert::FromSpecImpl<[R; 6]> for Mat<R, 3, 2> {
    open spec fn obeys_from_spec() -> bool {
        false
    }

    open spec fn from_spec(v: [R; 6]) -> Self {
        arbitrary()
    }
}

impl<R: Copy> From<[R; 9]> for Mat<R, 3, 3> {
    fn from(v: [R; 9]) -> (r: Self)
        ensures
            forall|a: int, b: int| 0 <= a < 3 && 0 <= b < 3 ==> #[trigger] r.at(a, b) == v@[a * 3 + b],
    {
        Mat([[v[0], v[1], v[2]], [v[3], v[4], v[5]], [v[6], v[7], v[8]]])
    }
}

impl<R: Copy> vstd::std_specs::convert::FromSpecImpl<[R; 9]> for Mat<R, 3, 3> {
    open spec fn obeys_from_spec() -> bool {
        false
    }

    open spec fn from_spec(v: [R; 9]) -> Self {
        arbitrary()
    }
}

impl<R: Copy> From<[R; 12]> for Mat<R, 3, 4> {
    fn from(v: [R; 12]) -> (r: Self)
        ensures
            forall|a: int, b: int| 0 <= a < 3 && 0 <= b < 4 ==> #[trigger] r.at(a, b) == v@[a * 4 + b],
    {
        Mat([[v[0], v[1], v[2], v[3]], [v[4], v[5], v[6], v[7]], [v[8], v[9], v[10], v[11]]])
    }
}

impl<R: Copy> vstd::std_specs::convert::FromSpecImpl<[R; 12]> for Mat<R, 3, 4> {
    open spec fn obeys_from_spec() -> bool {
        false
    }

    open spec fn from_spec(v: [R; 12]) -> Self {
        arbitrary()
    }
}

impl<R: Copy> From<[R; 4]> for Mat<R, 4, 1> {
    fn from(v: [R; 4]) -> (r: Self)
        ensures
            forall|a: int, b: int| 0 <= a < 4 && 0 <= b < 1 ==> #[trigger] r.at(a, b) == v@[a * 1 + b],
    {
        Mat([[v[0]], [v[1]], [v[2]], [v[3]]])
    }
}

impl<R: Copy> vstd::std_specs::convert::FromSpecImpl<[R; 4]> for Mat<R, 4, 1> {
    open spec fn obeys_from_spec() -> bool {
        false
    }

    open spec fn from_spec(v: [R; 4]) -> Self {
        arbitrary()
    }
}

impl<R: Copy> From<[R; 8]> for Mat<R, 4, 2> {
    fn from(v: [R; 8]) -> (r: Self)
        ensures
            forall|a: int, b: int| 0 <= a < 4 && 0 <= b < 2 ==> #[trigger] r.at(a, b) == v@[a * 2 + b],
    {
        Mat([[v[0], v[1]], [v[2], v[3]], [v[4], v[5]], [v[6], v[7]]])
    }
}

impl<R: Copy> vstd::std_specs::convert::FromSpecImpl<[R; 8]> for Mat<R, 4, 2> {
    open spec fn obeys_from_spec() -> bool {
        false
    }

    open spec fn from_spec(v: [R; 8]) -> Self {
        arbitrary()
    }
}

impl<R: Copy> From<[R; 12]> for Mat<R, 4, 3> {
    fn from(v: [R; 12]) -> (r: Self)
        ensures
            forall|a: int, b: int| 0 <= a < 4 && 0 <= b < 3 ==> #[trigger] r.at(a, b) == v@[a * 3 + b],
    {
        Mat([[v[0], v[1], v[2]], [v[3], v[4], v[5]], [v[6], v[7], v[8]], [v[9], v[10], v[11]]])
    }
}

impl<R: Copy> vstd::std_specs::convert::FromSpecImpl<[R; 12]> for Mat<R, 4, 3> {
    open spec fn obeys_from_spec() -> bool {
        false
    }

    open spec fn from_spec(v: [R; 12]) -> Self {
        arbitrary()
    }
}

impl<R: Copy> From<[R; 16]> for Mat<R, 4, 4> {
    fn from(v: [R; 16]) -> (r: Self)
        ensures
            forall|a: int, b: int| 0 <= a < 4 && 0 <= b < 4 ==> #[trigger] r.at(a, b) == v@[a * 4 + b],
    {
        Mat([[v[0], v[1], v[2], v[3]], [v[4], v[5], v[6], v[7]], [v[8], v[9], v[10], v[11]], [v[12], v[13], v[14], v[15]]])
    }
}

impl<R: Copy> vstd::std_specs::convert::FromSpecImpl<[R; 16]> for Mat<R, 4, 4> {
    open spec fn obeys_from_spec() -> bool {
        false
    }

    open spec fn from_spec(v: [R; 16]) -> Self {
        arbitrary()
    }
}

impl<R: Copy + num_traits::Zero, const I: usize, const J: usize> Mat<R, I, J> {
    /// Fills the matrix row by row from `v`, which must hold exactly one element per cell.
    pub fn try_from(v: Vec<R>) -> (r: Result<Self, Error>)
        ensures
            match r {
                Ok(m) => v@.len() == I * J && forall|a: int, b: int|
                    0 <= a < I && 0 <= b < J ==> #[trigger] m.at(a, b) == v@[a * J + b],
                Err(Error::LengthMismatch { expected, found }) => v@.len() != I * J && found == v@.len()
                    && (I * J <= usize::MAX ==> expected == I * J),
            },
    {
        let n = match I.checked_mul(J) {
            Some(n) => n,
            None => {
                return Err(Error::LengthMismatch { expected: usize::MAX, found: v.len() });
            },
        };
        if v.len() != n {
            return Err(Error::LengthMismatch { expected: n, found: v.len() });
        }
        let init = Self::zero();
        let f = |a: usize, b: usize| -> (x: R)
            requires
                a < I && b < J,
            ensures
                x == v@[a * J + b],
        {
            proof {
                assert(a * J + b < I * J) by (nonlinear_arith)
                    requires
                        a < I,
                        b < J,
                ;
            }
            v[a * J + b]
        };
        let r = Self::overwrite(init, &f);
        assert forall|a: int, b: int| 0 <= a < I && 0 <= b < J implies #[trigger] r.at(a, b) == v@[a * J + b] by {
            assert(f.ensures((a as usize, b as usize), r.at(a, b)));
        }
        Ok(r)
    }
}

impl<R: Copy + num_traits::Zero, const I: usize, const J: usize> Mat<R, I, J> {
    /// Fills the matrix row by row from the first `I * J` elements of `items`; the rest are
    /// ignored.
    pub fn from_iter(items: Vec<R>) -> (r: Self)
        requires
            I * J <= items@.len(),
        ensures
            forall|a: int, b: int| 0 <= a < I && 0 <= b < J ==> #[trigger] r.at(a, b) == items@[a * J + b],
    {
        let len = items.len();
        let init = Self::zero();
        let f = |a: usize, b: usize| -> (x: R)
            requires
                a < I && b < J,
            ensures
                x == items@[a * J + b],
        {
            proof {
                assert(a * J + b < I * J) by (nonlinear_arith)
                    requires
                        a < I,
                        b < J,
                ;
                assert(items@.len() == len);
            }
            items[a * J + b]
        };
        let r = Self::overwrite(init, &f);
        assert forall|a: int, b: int| 0 <= a < I && 0 <= b < J implies #[trigger] r.at(a, b) == items@[a * J + b] by {
            assert(f.ensures((a as usize, b as usize), r.at(a, b)));
        }
        r
    }
}

impl<R, const I: usize, const J: usize> Mat<R, I, J> {
    /// Checks the length that a serialized matrix announces: it must be given and equal the
    /// number of cells. The error holds the length to report, zero where none was given.
    pub fn check_serialized_length(hint: Option<usize>) -> (r: Result<(), usize>)
        ensures
            match hint {
                Some(n) => if n == I * J {
                    r == Ok::<(), usize>(())
                } else {
                    r == Err::<(), usize>(n)
                },
                None => r == Err::<(), usize>(0),
            },
    {
        match hint {
            Some(n) => match I.checked_mul(J) {
                Some(cells) => if n == cells {
                    Ok(())
                } else {
                    Err(n)
                },
                None => Err(n),
            },
            None => Err(0),
        }
    }
}

impl<R, const I: usize, const J: usize> std::ops::Index<(usize, usize)> for Mat<R, I, J> {
    type Output = R;

    fn index(&self, index: (usize, usize)) -> (r: &R)
        ensures
            *r == self.at(index.0 as int, index.1 as int),
    {
        &self.0[index.0][index.1]
    }
}

impl<R, const I: usize, const J: usize> vstd::std_specs::core::IndexSpecImpl<(usize, usize)> for Mat<R, I, J> {
    open spec fn index_req(&self, index: &(usize, usize)) -> bool {
        index.0 < I && index.1 < J
    }
}

impl<R, const I: usize, const J: usize> std::ops::Index<usize> for Mat<R, I, J> {
    type Output = R;

    fn index(&self, index: usize) -> (r: &R)
        ensures
            *r == self.at((index / J) as int, (index % J) as int),
    {
        let (i, j) = Self::as_2d_idx(index);
        proof {
            assert(i < I) by (nonlinear_arith)
                requires
                    index < I * J,
                    J > 0,
                    i == index / J,
            ;
        }
        &self.0[i][j]
    }
}

impl<R, const I: usize, const J: usize> vstd::std_specs::core::IndexSpecImpl<usize> for Mat<R, I, J> {
    open spec fn index_req(&self, index: &usize) -> bool {
        *index < I * J
    }
}

} // verus!
