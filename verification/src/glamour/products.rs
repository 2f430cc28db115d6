//! The operator traits `Dot` and `Mul` for the matrix shapes the library multiplies, for column
//! vectors and for arrays.

use vstd::prelude::*;
use std::ops::{Add, Mul};
use vstd::std_specs::ops::{AddSpec, MulSpec, MulSpecImpl};
use super::mat::Mat;
use super::ops::Dot;

verus! {

impl<'a, 'b, R: Copy + Add<Output = R> + Mul<Output = R>> Dot<&'b Mat<R, 1, 2>> for &'a Mat<R, 2, 1> {
    type Output = Mat<R, 2, 2>;

    open spec fn dot_req(&self, rhs: &&'b Mat<R, 1, 2>) -> bool {
        self.product_req(rhs)
    }

    fn dot(self, rhs: &'b Mat<R, 1, 2>) -> (r: Mat<R, 2, 2>)
        ensures
            forall|i: int, k: int| 0 <= i < 2 && 0 <= k < 2 ==> #[trigger] r.at(i, k) == self.product_cell(&rhs, i, k),
    {
        self.matmul(rhs)
    }
}

impl<'a, 'b, R: Copy + Add<Output = R> + Mul<Output = R>> Mul<&'b Mat<R, 1, 2>> for &'a Mat<R, 2, 1> {
    type Output = Mat<R, 2, 2>;

    fn mul(self, rhs: &'b Mat<R, 1, 2>) -> (r: Mat<R, 2, 2>)
        ensures
            forall|i: int, k: int| 0 <= i < 2 && 0 <= k < 2 ==> #[trigger] r.at(i, k) == self.product_cell(&rhs, i, k),
    {
        self.matmul(rhs)
    }
}

impl<'a, 'b, R: Copy + Add<Output = R> + Mul<Output = R>> MulSpecImpl<&'b Mat<R, 1, 2>> for &'a Mat<R, 2, 1> {
    open spec fn obeys_mul_spec() -> bool {
        false
    }

    open spec fn mul_req(self, rhs: &'b Mat<R, 1, 2>) -> bool {
        self.product_req(&rhs)
    }

    open spec fn mul_spec(self, rhs: &'b Mat<R, 1, 2>) -> Mat<R, 2, 2> {
        arbitrary()
    }
}

impl<'a, R: Copy + Add<Output = R> + Mul<Output = R>> Dot<Mat<R, 1, 2>> for &'a Mat<R, 2, 1> {
    type Output = Mat<R, 2, 2>;

    open spec fn dot_req(&self, rhs: &Mat<R, 1, 2>) -> bool {
        self.product_req(rhs)
    }

    fn dot(self, rhs: Mat<R, 1, 2>) -> (r: Mat<R, 2, 2>)
        ensures
            forall|i: int, k: int| 0 <= i < 2 && 0 <= k < 2 ==> #[trigger] r.at(i, k) == self.product_cell(&rhs, i, k),
    {
        self.matmul(&rhs)
    }
}

impl<'a, R: Copy + Add<Output = R> + Mul<Output = R>> Mul<Mat<R, 1, 2>> for &'a Mat<R, 2, 1> {
    type Output = Mat<R, 2, 2>;

    fn mul(self, rhs: Mat<R, 1, 2>) -> (r: Mat<R, 2, 2>)
        ensures
            forall|i: int, k: int| 0 <= i < 2 && 0 <= k < 2 ==> #[trigger] r.at(i, k) == self.product_cell(&rhs, i, k),
    {
        self.matmul(&rhs)
    }
}

impl<'a, R: Copy + Add<Output = R> + Mul<Output = R>> MulSpecImpl<Mat<R, 1, 2>> for &'a Mat<R, 2, 1> {
    open spec fn obeys_mul_spec() -> bool {
        false
    }

    open spec fn mul_req(self, rhs: Mat<R, 1, 2>) -> bool {
        self.product_req(&rhs)
    }

    open spec fn mul_spec(self, rhs: Mat<R, 1, 2>) -> Mat<R, 2, 2> {
        arbitrary()
    }
}

impl<'b, R: Copy + Add<Output = R> + Mul<Output = R>> Dot<&'b Mat<R, 1, 2>> for Mat<R, 2, 1> {
    type Output = Mat<R, 2, 2>;

    open spec fn dot_req(&self, rhs: &&'b Mat<R, 1, 2>) -> bool {
        self.product_req(rhs)
    }

    fn dot(self, rhs: &'b Mat<R, 1, 2>) -> (r: Mat<R, 2, 2>)
        ensures
            forall|i: int, k: int| 0 <= i < 2 && 0 <= k < 2 ==> #[trigger] r.at(i, k) == self.product_cell(&rhs, i, k),
    {
        (&self).matmul(rhs)
    }
}

impl<'b, R: Copy + Add<Output = R> + Mul<Output = R>> Mul<&'b Mat<R, 1, 2>> for Mat<R, 2, 1> {
    type Output = Mat<R, 2, 2>;

    fn mul(self, rhs: &'b Mat<R, 1, 2>) -> (r: Mat<R, 2, 2>)
        ensures
            forall|i: int, k: int| 0 <= i < 2 && 0 <= k < 2 ==> #[trigger] r.at(i, k) == self.product_cell(&rhs, i, k),
    {
        (&self).matmul(rhs)
    }
}

impl<'b, R: Copy + Add<Output = R> + Mul<Output = R>> MulSpecImpl<&'b Mat<R, 1, 2>> for Mat<R, 2, 1> {
    open spec fn obeys_mul_spec() -> bool {
        false
    }

    open spec fn mul_req(self, rhs: &'b Mat<R, 1, 2>) -> bool {
        self.product_req(&rhs)
    }

    open spec fn mul_spec(self, rhs: &'b Mat<R, 1, 2>) -> Mat<R, 2, 2> {
        arbitrary()
    }
}

impl<R: Copy + Add<Output = R> + Mul<Output = R>> Dot<Mat<R, 1, 2>> for Mat<R, 2, 1> {
    type Output = Mat<R, 2, 2>;

    open spec fn dot_req(&self, rhs: &Mat<R, 1, 2>) -> bool {
        self.product_req(rhs)
    }

    fn dot(self, rhs: Mat<R, 1, 2>) -> (r: Mat<R, 2, 2>)
        ensures
            forall|i: int, k: int| 0 <= i < 2 && 0 <= k < 2 ==> #[trigger] r.at(i, k) == self.product_cell(&rhs, i, k),
    {
        (&self).matmul(&rhs)
    }
}

impl<R: Copy + Add<Output = R> + Mul<Output = R>> Mul<Mat<R, 1, 2>> for Mat<R, 2, 1> {
    type Output = Mat<R, 2, 2>;

    fn mul(self, rhs: Mat<R, 1, 2>) -> (r: Mat<R, 2, 2>)
        ensures
            forall|i: int, k: int| 0 <= i < 2 && 0 <= k < 2 ==> #[trigger] r.at(i, k) == self.product_cell(&rhs, i, k),
    {
        (&self).matmul(&rhs)
    }
}

impl<R: Copy + Add<Output = R> + Mul<Output = R>> MulSpecImpl<Mat<R, 1, 2>> for Mat<R, 2, 1> {
    open spec fn obeys_mul_spec() -> bool {
        false
    }

    open spec fn mul_req(self, rhs: Mat<R, 1, 2>) -> bool {
        self.product_req(&rhs)
    }

    open spec fn mul_spec(self, rhs: Mat<R, 1, 2>) -> Mat<R, 2, 2> {
        arbitrary()
    }
}

impl<'a, 'b, R: Copy + Add<Output = R> + Mul<Output = R>> Dot<&'b Mat<R, 2, 2>> for &'a Mat<R, 2, 2> {
    type Output = Mat<R, 2, 2>;

    open spec fn dot_req(&self, rhs: &&'b Mat<R, 2, 2>) -> bool {
        self.product_req(rhs)
    }

    fn dot(self, rhs: &'b Mat<R, 2, 2>) -> (r: Mat<R, 2, 2>)
        ensures
            forall|i: int, k: int| 0 <= i < 2 && 0 <= k < 2 ==> #[trigger] r.at(i, k) == self.product_cell(&rhs, i, k),
    {
        self.matmul(rhs)
    }
}

impl<'a, 'b, R: Copy + Add<Output = R> + Mul<Output = R>> Mul<&'b Mat<R, 2, 2>> for &'a Mat<R, 2, 2> {
    type Output = Mat<R, 2, 2>;

    fn mul(self, rhs: &'b Mat<R, 2, 2>) -> (r: Mat<R, 2, 2>)
        ensures
            forall|i: int, k: int| 0 <= i < 2 && 0 <= k < 2 ==> #[trigger] r.at(i, k) == self.product_cell(&rhs, i, k),
    {
        self.matmul(rhs)
    }
}

impl<'a, 'b, R: Copy + Add<Output = R> + Mul<Output = R>> MulSpecImpl<&'b Mat<R, 2, 2>> for &'a Mat<R, 2, 2> {
    open spec fn obeys_mul_spec() -> bool {
        false
    }

    open spec fn mul_req(self, rhs: &'b Mat<R, 2, 2>) -> bool {
        self.product_req(&rhs)
    }

    open spec fn mul_spec(self, rhs: &'b Mat<R, 2, 2>) -> Mat<R, 2, 2> {
        arbitrary()
    }
}

impl<'a, R: Copy + Add<Output = R> + Mul<Output = R>> Dot<Mat<R, 2, 2>> for &'a Mat<R, 2, 2> {
    type Output = Mat<R, 2, 2>;

    open spec fn dot_req(&self, rhs: &Mat<R, 2, 2>) -> bool {
        self.product_req(rhs)
    }

    fn dot(self, rhs: Mat<R, 2, 2>) -> (r: Mat<R, 2, 2>)
        ensures
            forall|i: int, k: int| 0 <= i < 2 && 0 <= k < 2 ==> #[trigger] r.at(i, k) == self.product_cell(&rhs, i, k),
    {
        self.matmul(&rhs)
    }
}

impl<'a, R: Copy + Add<Output = R> + Mul<Output = R>> Mul<Mat<R, 2, 2>> for &'a Mat<R, 2, 2> {
    type Output = Mat<R, 2, 2>;

    fn mul(self, rhs: Mat<R, 2, 2>) -> (r: Mat<R, 2, 2>)
        ensures
            forall|i: int, k: int| 0 <= i < 2 && 0 <= k < 2 ==> #[trigger] r.at(i, k) == self.product_cell(&rhs, i, k),
    {
        self.matmul(&rhs)
    }
}

impl<'a, R: Copy + Add<Output = R> + Mul<Output = R>> MulSpecImpl<Mat<R, 2, 2>> for &'a Mat<R, 2, 2> {
    open spec fn obeys_mul_spec() -> bool {
        false
    }

    open spec fn mul_req(self, rhs: Mat<R, 2, 2>) -> bool {
        self.product_req(&rhs)
    }

    open spec fn mul_spec(self, rhs: Mat<R, 2, 2>) -> Mat<R, 2, 2> {
        arbitrary()
    }
}

impl<'b, R: Copy + Add<Output = R> + Mul<Output = R>> Dot<&'b Mat<R, 2, 2>> for Mat<R, 2, 2> {
    type Output = Mat<R, 2, 2>;

    open spec fn dot_req(&self, rhs: &&'b Mat<R, 2, 2>) -> bool {
        self.product_req(rhs)
    }

    fn dot(self, rhs: &'b Mat<R, 2, 2>) -> (r: Mat<R, 2, 2>)
        ensures
            forall|i: int, k: int| 0 <= i < 2 && 0 <= k < 2 ==> #[trigger] r.at(i, k) == self.product_cell(&rhs, i, k),
    {
        (&self).matmul(rhs)
    }
}

impl<'b, R: Copy + Add<Output = R> + Mul<Output = R>> Mul<&'b Mat<R, 2, 2>> for Mat<R, 2, 2> {
    type Output = Mat<R, 2, 2>;

    fn mul(self, rhs: &'b Mat<R, 2, 2>) -> (r: Mat<R, 2, 2>)
        ensures
            forall|i: int, k: int| 0 <= i < 2 && 0 <= k < 2 ==> #[trigger] r.at(i, k) == self.product_cell(&rhs, i, k),
    {
        (&self).matmul(rhs)
    }
}

impl<'b, R: Copy + Add<Output = R> + Mul<Output = R>> MulSpecImpl<&'b Mat<R, 2, 2>> for Mat<R, 2, 2> {
    open spec fn obeys_mul_spec() -> bool {
        false
    }

    open spec fn mul_req(self, rhs: &'b Mat<R, 2, 2>) -> bool {
        self.product_req(&rhs)
    }

    open spec fn mul_spec(self, rhs: &'b Mat<R, 2, 2>) -> Mat<R, 2, 2> {
        arbitrary()
    }
}

impl<R: Copy + Add<Output = R> + Mul<Output = R>> Dot<Mat<R, 2, 2>> for Mat<R, 2, 2> {
    type Output = Mat<R, 2, 2>;

    open spec fn dot_req(&self, rhs: &Mat<R, 2, 2>) -> bool {
        self.product_req(rhs)
    }

    fn dot(self, rhs: Mat<R, 2, 2>) -> (r: Mat<R, 2, 2>)
        ensures
            forall|i: int, k: int| 0 <= i < 2 && 0 <= k < 2 ==> #[trigger] r.at(i, k) == self.product_cell(&rhs, i, k),
    {
        (&self).matmul(&rhs)
    }
}

impl<R: Copy + Add<Output = R> + Mul<Output = R>> Mul<Mat<R, 2, 2>> for Mat<R, 2, 2> {
    type Output = Mat<R, 2, 2>;

    fn mul(self, rhs: Mat<R, 2, 2>) -> (r: Mat<R, 2, 2>)
        ensures
            forall|i: int, k: int| 0 <= i < 2 && 0 <= k < 2 ==> #[trigger] r.at(i, k) == self.product_cell(&rhs, i, k),
    {
        (&self).matmul(&rhs)
    }
}

impl<R: Copy + Add<Output = R> + Mul<Output = R>> MulSpecImpl<Mat<R, 2, 2>> for Mat<R, 2, 2> {
    open spec fn obeys_mul_spec() -> bool {
        false
    }

    open spec fn mul_req(self, rhs: Mat<R, 2, 2>) -> bool {
        self.product_req(&rhs)
    }

    open spec fn mul_spec(self, rhs: Mat<R, 2, 2>) -> Mat<R, 2, 2> {
        arbitrary()
    }
}

impl<'a, 'b, R: Copy + Add<Output = R> + Mul<Output = R>> Dot<&'b Mat<R, 2, 2>> for &'a Mat<R, 1, 2> {
    type Output = Mat<R, 1, 2>;

    open spec fn dot_req(&self, rhs: &&'b Mat<R, 2, 2>) -> bool {
        self.product_req(rhs)
    }

    fn dot(self, rhs: &'b Mat<R, 2, 2>) -> (r: Mat<R, 1, 2>)
        ensures
            forall|i: int, k: int| 0 <= i < 1 && 0 <= k < 2 ==> #[trigger] r.at(i, k) == self.product_cell(&rhs, i, k),
    {
        self.matmul(rhs)
    }
}

impl<'a, 'b, R: Copy + Add<Output = R> + Mul<Output = R>> Mul<&'b Mat<R, 2, 2>> for &'a Mat<R, 1, 2> {
    type Output = Mat<R, 1, 2>;

    fn mul(self, rhs: &'b Mat<R, 2, 2>) -> (r: Mat<R, 1, 2>)
        ensures
            forall|i: int, k: int| 0 <= i < 1 && 0 <= k < 2 ==> #[trigger] r.at(i, k) == self.product_cell(&rhs, i, k),
    {
        self.matmul(rhs)
    }
}

impl<'a, 'b, R: Copy + Add<Output = R> + Mul<Output = R>> MulSpecImpl<&'b Mat<R, 2, 2>> for &'a Mat<R, 1, 2> {
    open spec fn obeys_mul_spec() -> bool {
        false
    }

    open spec fn mul_req(self, rhs: &'b Mat<R, 2, 2>) -> bool {
        self.product_req(&rhs)
    }

    open spec fn mul_spec(self, rhs: &'b Mat<R, 2, 2>) -> Mat<R, 1, 2> {
        arbitrary()
    }
}

impl<'a, R: Copy + Add<Output = R> + Mul<Output = R>> Dot<Mat<R, 2, 2>> for &'a Mat<R, 1, 2> {
    type Output = Mat<R, 1, 2>;

    open spec fn dot_req(&self, rhs: &Mat<R, 2, 2>) -> bool {
        self.product_req(rhs)
    }

    fn dot(self, rhs: Mat<R, 2, 2>) -> (r: Mat<R, 1, 2>)
        ensures
            forall|i: int, k: int| 0 <= i < 1 && 0 <= k < 2 ==> #[trigger] r.at(i, k) == self.product_cell(&rhs, i, k),
    {
        self.matmul(&rhs)
    }
}

impl<'a, R: Copy + Add<Output = R> + Mul<Output = R>> Mul<Mat<R, 2, 2>> for &'a Mat<R, 1, 2> {
    type Output = Mat<R, 1, 2>;

    fn mul(self, rhs: Mat<R, 2, 2>) -> (r: Mat<R, 1, 2>)
        ensures
            forall|i: int, k: int| 0 <= i < 1 && 0 <= k < 2 ==> #[trigger] r.at(i, k) == self.product_cell(&rhs, i, k),
    {
        self.matmul(&rhs)
    }
}

impl<'a, R: Copy + Add<Output = R> + Mul<Output = R>> MulSpecImpl<Mat<R, 2, 2>> for &'a Mat<R, 1, 2> {
    open spec fn obeys_mul_spec() -> bool {
        false
    }

    open spec fn mul_req(self, rhs: Mat<R, 2, 2>) -> bool {
        self.product_req(&rhs)
    }

    open spec fn mul_spec(self, rhs: Mat<R, 2, 2>) -> Mat<R, 1, 2> {
        arbitrary()
    }
}

impl<'b, R: Copy + Add<Output = R> + Mul<Output = R>> Dot<&'b Mat<R, 2, 2>> for Mat<R, 1, 2> {
    type Output = Mat<R, 1, 2>;

    open spec fn dot_req(&self, rhs: &&'b Mat<R, 2, 2>) -> bool {
        self.product_req(rhs)
    }

    fn dot(self, rhs: &'b Mat<R, 2, 2>) -> (r: Mat<R, 1, 2>)
        ensures
            forall|i: int, k: int| 0 <= i < 1 && 0 <= k < 2 ==> #[trigger] r.at(i, k) == self.product_cell(&rhs, i, k),
    {
        (&self).matmul(rhs)
    }
}

impl<'b, R: Copy + Add<Output = R> + Mul<Output = R>> Mul<&'b Mat<R, 2, 2>> for Mat<R, 1, 2> {
    type Output = Mat<R, 1, 2>;

    fn mul(self, rhs: &'b Mat<R, 2, 2>) -> (r: Mat<R, 1, 2>)
        ensures
            forall|i: int, k: int| 0 <= i < 1 && 0 <= k < 2 ==> #[trigger] r.at(i, k) == self.product_cell(&rhs, i, k),
    {
        (&self).matmul(rhs)
    }
}

impl<'b, R: Copy + Add<Output = R> + Mul<Output = R>> MulSpecImpl<&'b Mat<R, 2, 2>> for Mat<R, 1, 2> {
    open spec fn obeys_mul_spec() -> bool {
        false
    }

    open spec fn mul_req(self, rhs: &'b Mat<R, 2, 2>) -> bool {
        self.product_req(&rhs)
    }

    open spec fn mul_spec(self, rhs: &'b Mat<R, 2, 2>) -> Mat<R, 1, 2> {
        arbitrary()
    }
}

impl<R: Copy + Add<Output = R> + Mul<Output = R>> Dot<Mat<R, 2, 2>> for Mat<R, 1, 2> {
    type Output = Mat<R, 1, 2>;

    open spec fn dot_req(&self, rhs: &Mat<R, 2, 2>) -> bool {
        self.product_req(rhs)
    }

    fn dot(self, rhs: Mat<R, 2, 2>) -> (r: Mat<R, 1, 2>)
        ensures
            forall|i: int, k: int| 0 <= i < 1 && 0 <= k < 2 ==> #[trigger] r.at(i, k) == self.product_cell(&rhs, i, k),
    {
        (&self).matmul(&rhs)
    }
}

impl<R: Copy + Add<Output = R> + Mul<Output = R>> Mul<Mat<R, 2, 2>> for Mat<R, 1, 2> {
    type Output = Mat<R, 1, 2>;

    fn mul(self, rhs: Mat<R, 2, 2>) -> (r: Mat<R, 1, 2>)
        ensures
            forall|i: int, k: int| 0 <= i < 1 && 0 <= k < 2 ==> #[trigger] r.at(i, k) == self.product_cell(&rhs, i, k),
    {
        (&self).matmul(&rhs)
    }
}

impl<R: Copy + Add<Output = R> + Mul<Output = R>> MulSpecImpl<Mat<R, 2, 2>> for Mat<R, 1, 2> {
    open spec fn obeys_mul_spec() -> bool {
        false
    }

    open spec fn mul_req(self, rhs: Mat<R, 2, 2>) -> bool {
        self.product_req(&rhs)
    }

    open spec fn mul_spec(self, rhs: Mat<R, 2, 2>) -> Mat<R, 1, 2> {
        arbitrary()
    }
}

impl<'a, 'b, R: Copy + Add<Output = R> + Mul<Output = R>> Dot<&'b Mat<R, 2, 1>> for &'a Mat<R, 2, 2> {
    type Output = Mat<R, 2, 1>;

    open spec fn dot_req(&self, rhs: &&'b Mat<R, 2, 1>) -> bool {
        self.product_req(rhs)
    }

    fn dot(self, rhs: &'b Mat<R, 2, 1>) -> (r: Mat<R, 2, 1>)
        ensures
            forall|i: int, k: int| 0 <= i < 2 && 0 <= k < 1 ==> #[trigger] r.at(i, k) == self.product_cell(&rhs, i, k),
    {
        self.matmul(rhs)
    }
}

impl<'a, 'b, R: Copy + Add<Output = R> + Mul<Output = R>> Mul<&'b Mat<R, 2, 1>> for &'a Mat<R, 2, 2> {
    type Output = Mat<R, 2, 1>;

    fn mul(self, rhs: &'b Mat<R, 2, 1>) -> (r: Mat<R, 2, 1>)
        ensures
            forall|i: int, k: int| 0 <= i < 2 && 0 <= k < 1 ==> #[trigger] r.at(i, k) == self.product_cell(&rhs, i, k),
    {
        self.matmul(rhs)
    }
}

impl<'a, 'b, R: Copy + Add<Output = R> + Mul<Output = R>> MulSpecImpl<&'b Mat<R, 2, 1>> for &'a Mat<R, 2, 2> {
    open spec fn obeys_mul_spec() -> bool {
        false
    }

    open spec fn mul_req(self, rhs: &'b Mat<R, 2, 1>) -> bool {
        self.product_req(&rhs)
    }

    open spec fn mul_spec(self, rhs: &'b Mat<R, 2, 1>) -> Mat<R, 2, 1> {
        arbitrary()
    }
}

impl<'a, R: Copy + Add<Output = R> + Mul<Output = R>> Dot<Mat<R, 2, 1>> for &'a Mat<R, 2, 2> {
    type Output = Mat<R, 2, 1>;

    open spec fn dot_req(&self, rhs: &Mat<R, 2, 1>) -> bool {
        self.product_req(rhs)
    }

    fn dot(self, rhs: Mat<R, 2, 1>) -> (r: Mat<R, 2, 1>)
        ensures
            forall|i: int, k: int| 0 <= i < 2 && 0 <= k < 1 ==> #[trigger] r.at(i, k) == self.product_cell(&rhs, i, k),
    {
        self.matmul(&rhs)
    }
}

impl<'a, R: Copy + Add<Output = R> + Mul<Output = R>> Mul<Mat<R, 2, 1>> for &'a Mat<R, 2, 2> {
    type Output = Mat<R, 2, 1>;

    fn mul(self, rhs: Mat<R, 2, 1>) -> (r: Mat<R, 2, 1>)
        ensures
            forall|i: int, k: int| 0 <= i < 2 && 0 <= k < 1 ==> #[trigger] r.at(i, k) == self.product_cell(&rhs, i, k),
    {
        self.matmul(&rhs)
    }
}

impl<'a, R: Copy + Add<Output = R> + Mul<Output = R>> MulSpecImpl<Mat<R, 2, 1>> for &'a Mat<R, 2, 2> {
    open spec fn obeys_mul_spec() -> bool {
        false
    }

    open spec fn mul_req(self, rhs: Mat<R, 2, 1>) -> bool {
        self.product_req(&rhs)
    }

    open spec fn mul_spec(self, rhs: Mat<R, 2, 1>) -> Mat<R, 2, 1> {
        arbitrary()
    }
}

impl<'b, R: Copy + Add<Output = R> + Mul<Output = R>> Dot<&'b Mat<R, 2, 1>> for Mat<R, 2, 2> {
    type Output = Mat<R, 2, 1>;

    open spec fn dot_req(&self, rhs: &&'b Mat<R, 2, 1>) -> bool {
        self.product_req(rhs)
    }

    fn dot(self, rhs: &'b Mat<R, 2, 1>) -> (r: Mat<R, 2, 1>)
        ensures
            forall|i: int, k: int| 0 <= i < 2 && 0 <= k < 1 ==> #[trigger] r.at(i, k) == self.product_cell(&rhs, i, k),
    {
        (&self).matmul(rhs)
    }
}

impl<'b, R: Copy + Add<Output = R> + Mul<Output = R>> Mul<&'b Mat<R, 2, 1>> for Mat<R, 2, 2> {
    type Output = Mat<R, 2, 1>;

    fn mul(self, rhs: &'b Mat<R, 2, 1>) -> (r: Mat<R, 2, 1>)
        ensures
            forall|i: int, k: int| 0 <= i < 2 && 0 <= k < 1 ==> #[trigger] r.at(i, k) == self.product_cell(&rhs, i, k),
    {
        (&self).matmul(rhs)
    }
}

impl<'b, R: Copy + Add<Output = R> + Mul<Output = R>> MulSpecImpl<&'b Mat<R, 2, 1>> for Mat<R, 2, 2> {
    open spec fn obeys_mul_spec() -> bool {
        false
    }

    open spec fn mul_req(self, rhs: &'b Mat<R, 2, 1>) -> bool {
        self.product_req(&rhs)
    }

    open spec fn mul_spec(self, rhs: &'b Mat<R, 2, 1>) -> Mat<R, 2, 1> {
        arbitrary()
    }
}

impl<R: Copy + Add<Output = R> + Mul<Output = R>> Dot<Mat<R, 2, 1>> for Mat<R, 2, 2> {
    type Output = Mat<R, 2, 1>;

    open spec fn dot_req(&self, rhs: &Mat<R, 2, 1>) -> bool {
        self.product_req(rhs)
    }

    fn dot(self, rhs: Mat<R, 2, 1>) -> (r: Mat<R, 2, 1>)
        ensures
            forall|i: int, k: int| 0 <= i < 2 && 0 <= k < 1 ==> #[trigger] r.at(i, k) == self.product_cell(&rhs, i, k),
    {
        (&self).matmul(&rhs)
    }
}

impl<R: Copy + Add<Output = R> + Mul<Output = R>> Mul<Mat<R, 2, 1>> for Mat<R, 2, 2> {
    type Output = Mat<R, 2, 1>;

    fn mul(self, rhs: Mat<R, 2, 1>) -> (r: Mat<R, 2, 1>)
        ensures
            forall|i: int, k: int| 0 <= i < 2 && 0 <= k < 1 ==> #[trigger] r.at(i, k) == self.product_cell(&rhs, i, k),
    {
        (&self).matmul(&rhs)
    }
}

impl<R: Copy + Add<Output = R> + Mul<Output = R>> MulSpecImpl<Mat<R, 2, 1>> for Mat<R, 2, 2> {
    open spec fn obeys_mul_spec() -> bool {
        false
    }

    open spec fn mul_req(self, rhs: Mat<R, 2, 1>) -> bool {
        self.product_req(&rhs)
    }

    open spec fn mul_spec(self, rhs: Mat<R, 2, 1>) -> Mat<R, 2, 1> {
        arbitrary()
    }
}

impl<'a, 'b, R: Copy + Add<Output = R> + Mul<Output = R>> Dot<&'b Mat<R, 3, 3>> for &'a Mat<R, 3, 3> {
    type Output = Mat<R, 3, 3>;

    open spec fn dot_req(&self, rhs: &&'b Mat<R, 3, 3>) -> bool {
        self.product_req(rhs)
    }

    fn dot(self, rhs: &'b Mat<R, 3, 3>) -> (r: Mat<R, 3, 3>)
        ensures
            forall|i: int, k: int| 0 <= i < 3 && 0 <= k < 3 ==> #[trigger] r.at(i, k) == self.product_cell(&rhs, i, k),
    {
        self.matmul(rhs)
    }
}

impl<'a, 'b, R: Copy + Add<Output = R> + Mul<Output = R>> Mul<&'b Mat<R, 3, 3>> for &'a Mat<R, 3, 3> {
    type Output = Mat<R, 3, 3>;

    fn mul(self, rhs: &'b Mat<R, 3, 3>) -> (r: Mat<R, 3, 3>)
        ensures
            forall|i: int, k: int| 0 <= i < 3 && 0 <= k < 3 ==> #[trigger] r.at(i, k) == self.product_cell(&rhs, i, k),
    {
        self.matmul(rhs)
    }
}

impl<'a, 'b, R: Copy + Add<Output = R> + Mul<Output = R>> MulSpecImpl<&'b Mat<R, 3, 3>> for &'a Mat<R, 3, 3> {
    open spec fn obeys_mul_spec() -> bool {
        false
    }

    open spec fn mul_req(self, rhs: &'b Mat<R, 3, 3>) -> bool {
        self.product_req(&rhs)
    }

    open spec fn mul_spec(self, rhs: &'b Mat<R, 3, 3>) -> Mat<R, 3, 3> {
        arbitrary()
    }
}

impl<'a, R: Copy + Add<Output = R> + Mul<Output = R>> Dot<Mat<R, 3, 3>> for &'a Mat<R, 3, 3> {
    type Output = Mat<R, 3, 3>;

    open spec fn dot_req(&self, rhs: &Mat<R, 3, 3>) -> bool {
        self.product_req(rhs)
    }

    fn dot(self, rhs: Mat<R, 3, 3>) -> (r: Mat<R, 3, 3>)
        ensures
            forall|i: int, k: int| 0 <= i < 3 && 0 <= k < 3 ==> #[trigger] r.at(i, k) == self.product_cell(&rhs, i, k),
    {
        self.matmul(&rhs)
    }
}

impl<'a, R: Copy + Add<Output = R> + Mul<Output = R>> Mul<Mat<R, 3, 3>> for &'a Mat<R, 3, 3> {
    type Output = Mat<R, 3, 3>;

    fn mul(self, rhs: Mat<R, 3, 3>) -> (r: Mat<R, 3, 3>)
        ensures
            forall|i: int, k: int| 0 <= i < 3 && 0 <= k < 3 ==> #[trigger] r.at(i, k) == self.product_cell(&rhs, i, k),
    {
        self.matmul(&rhs)
    }
}

impl<'a, R: Copy + Add<Output = R> + Mul<Output = R>> MulSpecImpl<Mat<R, 3, 3>> for &'a Mat<R, 3, 3> {
    open spec fn obeys_mul_spec() -> bool {
        false
    }

    open spec fn mul_req(self, rhs: Mat<R, 3, 3>) -> bool {
        self.product_req(&rhs)
    }

    open spec fn mul_spec(self, rhs: Mat<R, 3, 3>) -> Mat<R, 3, 3> {
        arbitrary()
    }
}

impl<'b, R: Copy + Add<Output = R> + Mul<Output = R>> Dot<&'b Mat<R, 3, 3>> for Mat<R, 3, 3> {
    type Output = Mat<R, 3, 3>;

    open spec fn dot_req(&self, rhs: &&'b Mat<R, 3, 3>) -> bool {
        self.product_req(rhs)
    }

    fn dot(self, rhs: &'b Mat<R, 3, 3>) -> (r: Mat<R, 3, 3>)
        ensures
            forall|i: int, k: int| 0 <= i < 3 && 0 <= k < 3 ==> #[trigger] r.at(i, k) == self.product_cell(&rhs, i, k),
    {
        (&self).matmul(rhs)
    }
}

impl<'b, R: Copy + Add<Output = R> + Mul<Output = R>> Mul<&'b Mat<R, 3, 3>> for Mat<R, 3, 3> {
    type Output = Mat<R, 3, 3>;

    fn mul(self, rhs: &'b Mat<R, 3, 3>) -> (r: Mat<R, 3, 3>)
        ensures
            forall|i: int, k: int| 0 <= i < 3 && 0 <= k < 3 ==> #[trigger] r.at(i, k) == self.product_cell(&rhs, i, k),
    {
        (&self).matmul(rhs)
    }
}

impl<'b, R: Copy + Add<Output = R> + Mul<Output = R>> MulSpecImpl<&'b Mat<R, 3, 3>> for Mat<R, 3, 3> {
    open spec fn obeys_mul_spec() -> bool {
        false
    }

    open spec fn mul_req(self, rhs: &'b Mat<R, 3, 3>) -> bool {
        self.product_req(&rhs)
    }

    open spec fn mul_spec(self, rhs: &'b Mat<R, 3, 3>) -> Mat<R, 3, 3> {
        arbitrary()
    }
}

impl<R: Copy + Add<Output = R> + Mul<Output = R>> Dot<Mat<R, 3, 3>> for Mat<R, 3, 3> {
    type Output = Mat<R, 3, 3>;

    open spec fn dot_req(&self, rhs: &Mat<R, 3, 3>) -> bool {
        self.product_req(rhs)
    }

    fn dot(self, rhs: Mat<R, 3, 3>) -> (r: Mat<R, 3, 3>)
        ensures
            forall|i: int, k: int| 0 <= i < 3 && 0 <= k < 3 ==> #[trigger] r.at(i, k) == self.product_cell(&rhs, i, k),
    {
        (&self).matmul(&rhs)
    }
}

impl<R: Copy + Add<Output = R> + Mul<Output = R>> Mul<Mat<R, 3, 3>> for Mat<R, 3, 3> {
    type Output = Mat<R, 3, 3>;

    fn mul(self, rhs: Mat<R, 3, 3>) -> (r: Mat<R, 3, 3>)
        ensures
            forall|i: int, k: int| 0 <= i < 3 && 0 <= k < 3 ==> #[trigger] r.at(i, k) == self.product_cell(&rhs, i, k),
    {
        (&self).matmul(&rhs)
    }
}

impl<R: Copy + Add<Output = R> + Mul<Output = R>> MulSpecImpl<Mat<R, 3, 3>> for Mat<R, 3, 3> {
    open spec fn obeys_mul_spec() -> bool {
        false
    }

    open spec fn mul_req(self, rhs: Mat<R, 3, 3>) -> bool {
        self.product_req(&rhs)
    }

    open spec fn mul_spec(self, rhs: Mat<R, 3, 3>) -> Mat<R, 3, 3> {
        arbitrary()
    }
}

impl<'a, 'b, R: Copy + Add<Output = R> + Mul<Output = R>> Dot<&'b Mat<R, 3, 3>> for &'a Mat<R, 1, 3> {
    type Output = Mat<R, 1, 3>;

    open spec fn dot_req(&self, rhs: &&'b Mat<R, 3, 3>) -> bool {
        self.product_req(rhs)
    }

    fn dot(self, rhs: &'b Mat<R, 3, 3>) -> (r: Mat<R, 1, 3>)
        ensures
            forall|i: int, k: int| 0 <= i < 1 && 0 <= k < 3 ==> #[trigger] r.at(i, k) == self.product_cell(&rhs, i, k),
    {
        self.matmul(rhs)
    }
}

impl<'a, 'b, R: Copy + Add<Output = R> + Mul<Output = R>> Mul<&'b Mat<R, 3, 3>> for &'a Mat<R, 1, 3> {
    type Output = Mat<R, 1, 3>;

    fn mul(self, rhs: &'b Mat<R, 3, 3>) -> (r: Mat<R, 1, 3>)
        ensures
            forall|i: int, k: int| 0 <= i < 1 && 0 <= k < 3 ==> #[trigger] r.at(i, k) == self.product_cell(&rhs, i, k),
    {
        self.matmul(rhs)
    }
}

impl<'a, 'b, R: Copy + Add<Output = R> + Mul<Output = R>> MulSpecImpl<&'b Mat<R, 3, 3>> for &'a Mat<R, 1, 3> {
    open spec fn obeys_mul_spec() -> bool {
        false
    }

    open spec fn mul_req(self, rhs: &'b Mat<R, 3, 3>) -> bool {
        self.product_req(&rhs)
    }

    open spec fn mul_spec(self, rhs: &'b Mat<R, 3, 3>) -> Mat<R, 1, 3> {
        arbitrary()
    }
}

impl<'a, R: Copy + Add<Output = R> + Mul<Output = R>> Dot<Mat<R, 3, 3>> for &'a Mat<R, 1, 3> {
    type Output = Mat<R, 1, 3>;

    open spec fn dot_req(&self, rhs: &Mat<R, 3, 3>) -> bool {
        self.product_req(rhs)
    }

    fn dot(self, rhs: Mat<R, 3, 3>) -> (r: Mat<R, 1, 3>)
        ensures
            forall|i: int, k: int| 0 <= i < 1 && 0 <= k < 3 ==> #[trigger] r.at(i, k) == self.product_cell(&rhs, i, k),
    {
        self.matmul(&rhs)
    }
}

impl<'a, R: Copy + Add<Output = R> + Mul<Output = R>> Mul<Mat<R, 3, 3>> for &'a Mat<R, 1, 3> {
    type Output = Mat<R, 1, 3>;

    fn mul(self, rhs: Mat<R, 3, 3>) -> (r: Mat<R, 1, 3>)
        ensures
            forall|i: int, k: int| 0 <= i < 1 && 0 <= k < 3 ==> #[trigger] r.at(i, k) == self.product_cell(&rhs, i, k),
    {
        self.matmul(&rhs)
    }
}

impl<'a, R: Copy + Add<Output = R> + Mul<Output = R>> MulSpecImpl<Mat<R, 3, 3>> for &'a Mat<R, 1, 3> {
    open spec fn obeys_mul_spec() -> bool {
        false
    }

    open spec fn mul_req(self, rhs: Mat<R, 3, 3>) -> bool {
        self.product_req(&rhs)
    }

    open spec fn mul_spec(self, rhs: Mat<R, 3, 3>) -> Mat<R, 1, 3> {
        arbitrary()
    }
}

impl<'b, R: Copy + Add<Output = R> + Mul<Output = R>> Dot<&'b Mat<R, 3, 3>> for Mat<R, 1, 3> {
    type Output = Mat<R, 1, 3>;

    open spec fn dot_req(&self, rhs: &&'b Mat<R, 3, 3>) -> bool {
        self.product_req(rhs)
    }

    fn dot(self, rhs: &'b Mat<R, 3, 3>) -> (r: Mat<R, 1, 3>)
        ensures
            forall|i: int, k: int| 0 <= i < 1 && 0 <= k < 3 ==> #[trigger] r.at(i, k) == self.product_cell(&rhs, i, k),
    {
        (&self).matmul(rhs)
    }
}

impl<'b, R: Copy + Add<Output = R> + Mul<Output = R>> Mul<&'b Mat<R, 3, 3>> for Mat<R, 1, 3> {
    type Output = Mat<R, 1, 3>;

    fn mul(self, rhs: &'b Mat<R, 3, 3>) -> (r: Mat<R, 1, 3>)
        ensures
            forall|i: int, k: int| 0 <= i < 1 && 0 <= k < 3 ==> #[trigger] r.at(i, k) == self.product_cell(&rhs, i, k),
    {
        (&self).matmul(rhs)
    }
}

impl<'b, R: Copy + Add<Output = R> + Mul<Output = R>> MulSpecImpl<&'b Mat<R, 3, 3>> for Mat<R, 1, 3> {
    open spec fn obeys_mul_spec() -> bool {
        false
    }

    open spec fn mul_req(self, rhs: &'b Mat<R, 3, 3>) -> bool {
        self.product_req(&rhs)
    }

    open spec fn mul_spec(self, rhs: &'b Mat<R, 3, 3>) -> Mat<R, 1, 3> {
        arbitrary()
    }
}

impl<R: Copy + Add<Output = R> + Mul<Output = R>> Dot<Mat<R, 3, 3>> for Mat<R, 1, 3> {
    type Output = Mat<R, 1, 3>;

    open spec fn dot_req(&self, rhs: &Mat<R, 3, 3>) -> bool {
        self.product_req(rhs)
    }

    fn dot(self, rhs: Mat<R, 3, 3>) -> (r: Mat<R, 1, 3>)
        ensures
            forall|i: int, k: int| 0 <= i < 1 && 0 <= k < 3 ==> #[trigger] r.at(i, k) == self.product_cell(&rhs, i, k),
    {
        (&self).matmul(&rhs)
    }
}

impl<R: Copy + Add<Output = R> + Mul<Output = R>> Mul<Mat<R, 3, 3>> for Mat<R, 1, 3> {
    type Output = Mat<R, 1, 3>;

    fn mul(self, rhs: Mat<R, 3, 3>) -> (r: Mat<R, 1, 3>)
        ensures
            forall|i: int, k: int| 0 <= i < 1 && 0 <= k < 3 ==> #[trigger] r.at(i, k) == self.product_cell(&rhs, i, k),
    {
        (&self).matmul(&rhs)
    }
}

impl<R: Copy + Add<Output = R> + Mul<Output = R>> MulSpecImpl<Mat<R, 3, 3>> for Mat<R, 1, 3> {
    open spec fn obeys_mul_spec() -> bool {
        false
    }

    open spec fn mul_req(self, rhs: Mat<R, 3, 3>) -> bool {
        self.product_req(&rhs)
    }

    open spec fn mul_spec(self, rhs: Mat<R, 3, 3>) -> Mat<R, 1, 3> {
        arbitrary()
    }
}

impl<'a, 'b, R: Copy + Add<Output = R> + Mul<Output = R>> Dot<&'b Mat<R, 3, 1>> for &'a Mat<R, 3, 3> {
    type Output = Mat<R, 3, 1>;

    open spec fn dot_req(&self, rhs: &&'b Mat<R, 3, 1>) -> bool {
        self.product_req(rhs)
    }

    fn dot(self, rhs: &'b Mat<R, 3, 1>) -> (r: Mat<R, 3, 1>)
        ensures
            forall|i: int, k: int| 0 <= i < 3 && 0 <= k < 1 ==> #[trigger] r.at(i, k) == self.product_cell(&rhs, i, k),
    {
        self.matmul(rhs)
    }
}

impl<'a, 'b, R: Copy + Add<Output = R> + Mul<Output = R>> Mul<&'b Mat<R, 3, 1>> for &'a Mat<R, 3, 3> {
    type Output = Mat<R, 3, 1>;

    fn mul(self, rhs: &'b Mat<R, 3, 1>) -> (r: Mat<R, 3, 1>)
        ensures
            forall|i: int, k: int| 0 <= i < 3 && 0 <= k < 1 ==> #[trigger] r.at(i, k) == self.product_cell(&rhs, i, k),
    {
        self.matmul(rhs)
    }
}

impl<'a, 'b, R: Copy + Add<Output = R> + Mul<Output = R>> MulSpecImpl<&'b Mat<R, 3, 1>> for &'a Mat<R, 3, 3> {
    open spec fn obeys_mul_spec() -> bool {
        false
    }

    open spec fn mul_req(self, rhs: &'b Mat<R, 3, 1>) -> bool {
        self.product_req(&rhs)
    }

    open spec fn mul_spec(self, rhs: &'b Mat<R, 3, 1>) -> Mat<R, 3, 1> {
        arbitrary()
    }
}

impl<'a, R: Copy + Add<Output = R> + Mul<Output = R>> Dot<Mat<R, 3, 1>> for &'a Mat<R, 3, 3> {
    type Output = Mat<R, 3, 1>;

    open spec fn dot_req(&self, rhs: &Mat<R, 3, 1>) -> bool {
        self.product_req(rhs)
    }

    fn dot(self, rhs: Mat<R, 3, 1>) -> (r: Mat<R, 3, 1>)
        ensures
            forall|i: int, k: int| 0 <= i < 3 && 0 <= k < 1 ==> #[trigger] r.at(i, k) == self.product_cell(&rhs, i, k),
    {
        self.matmul(&rhs)
    }
}

impl<'a, R: Copy + Add<Output = R> + Mul<Output = R>> Mul<Mat<R, 3, 1>> for &'a Mat<R, 3, 3> {
    type Output = Mat<R, 3, 1>;

    fn mul(self, rhs: Mat<R, 3, 1>) -> (r: Mat<R, 3, 1>)
        ensures
            forall|i: int, k: int| 0 <= i < 3 && 0 <= k < 1 ==> #[trigger] r.at(i, k) == self.product_cell(&rhs, i, k),
    {
        self.matmul(&rhs)
    }
}

impl<'a, R: Copy + Add<Output = R> + Mul<Output = R>> MulSpecImpl<Mat<R, 3, 1>> for &'a Mat<R, 3, 3> {
    open spec fn obeys_mul_spec() -> bool {
        false
    }

    open spec fn mul_req(self, rhs: Mat<R, 3, 1>) -> bool {
        self.product_req(&rhs)
    }

    open spec fn mul_spec(self, rhs: Mat<R, 3, 1>) -> Mat<R, 3, 1> {
        arbitrary()
    }
}

impl<'b, R: Copy + Add<Output = R> + Mul<Output = R>> Dot<&'b Mat<R, 3, 1>> for Mat<R, 3, 3> {
    type Output = Mat<R, 3, 1>;

    open spec fn dot_req(&self, rhs: &&'b Mat<R, 3, 1>) -> bool {
        self.product_req(rhs)
    }

    fn dot(self, rhs: &'b Mat<R, 3, 1>) -> (r: Mat<R, 3, 1>)
        ensures
            forall|i: int, k: int| 0 <= i < 3 && 0 <= k < 1 ==> #[trigger] r.at(i, k) == self.product_cell(&rhs, i, k),
    {
        (&self).matmul(rhs)
    }
}

impl<'b, R: Copy + Add<Output = R> + Mul<Output = R>> Mul<&'b Mat<R, 3, 1>> for Mat<R, 3, 3> {
    type Output = Mat<R, 3, 1>;

    fn mul(self, rhs: &'b Mat<R, 3, 1>) -> (r: Mat<R, 3, 1>)
        ensures
            forall|i: int, k: int| 0 <= i < 3 && 0 <= k < 1 ==> #[trigger] r.at(i, k) == self.product_cell(&rhs, i, k),
    {
        (&self).matmul(rhs)
    }
}

impl<'b, R: Copy + Add<Output = R> + Mul<Output = R>> MulSpecImpl<&'b Mat<R, 3, 1>> for Mat<R, 3, 3> {
    open spec fn obeys_mul_spec() -> bool {
        false
    }

    open spec fn mul_req(self, rhs: &'b Mat<R, 3, 1>) -> bool {
        self.product_req(&rhs)
    }

    open spec fn mul_spec(self, rhs: &'b Mat<R, 3, 1>) -> Mat<R, 3, 1> {
        arbitrary()
    }
}

impl<R: Copy + Add<Output = R> + Mul<Output = R>> Dot<Mat<R, 3, 1>> for Mat<R, 3, 3> {
    type Output = Mat<R, 3, 1>;

    open spec fn dot_req(&self, rhs: &Mat<R, 3, 1>) -> bool {
        self.product_req(rhs)
    }

    fn dot(self, rhs: Mat<R, 3, 1>) -> (r: Mat<R, 3, 1>)
        ensures
            forall|i: int, k: int| 0 <= i < 3 && 0 <= k < 1 ==> #[trigger] r.at(i, k) == self.product_cell(&rhs, i, k),
    {
        (&self).matmul(&rhs)
    }
}

impl<R: Copy + Add<Output = R> + Mul<Output = R>> Mul<Mat<R, 3, 1>> for Mat<R, 3, 3> {
    type Output = Mat<R, 3, 1>;

    fn mul(self, rhs: Mat<R, 3, 1>) -> (r: Mat<R, 3, 1>)
        ensures
            forall|i: int, k: int| 0 <= i < 3 && 0 <= k < 1 ==> #[trigger] r.at(i, k) == self.product_cell(&rhs, i, k),
    {
        (&self).matmul(&rhs)
    }
}

impl<R: Copy + Add<Output = R> + Mul<Output = R>> MulSpecImpl<Mat<R, 3, 1>> for Mat<R, 3, 3> {
    open spec fn obeys_mul_spec() -> bool {
        false
    }

    open spec fn mul_req(self, rhs: Mat<R, 3, 1>) -> bool {
        self.product_req(&rhs)
    }

    open spec fn mul_spec(self, rhs: Mat<R, 3, 1>) -> Mat<R, 3, 1> {
        arbitrary()
    }
}

impl<'a, 'b, R: Copy + Add<Output = R> + Mul<Output = R>> Dot<&'b Mat<R, 4, 4>> for &'a Mat<R, 4, 4> {
    type Output = Mat<R, 4, 4>;

    open spec fn dot_req(&self, rhs: &&'b Mat<R, 4, 4>) -> bool {
        self.product_req(rhs)
    }

    fn dot(self, rhs: &'b Mat<R, 4, 4>) -> (r: Mat<R, 4, 4>)
        ensures
            forall|i: int, k: int| 0 <= i < 4 && 0 <= k < 4 ==> #[trigger] r.at(i, k) == self.product_cell(&rhs, i, k),
    {
        self.matmul(rhs)
    }
}

impl<'a, 'b, R: Copy + Add<Output = R> + Mul<Output = R>> Mul<&'b Mat<R, 4, 4>> for &'a Mat<R, 4, 4> {
    type Output = Mat<R, 4, 4>;

    fn mul(self, rhs: &'b Mat<R, 4, 4>) -> (r: Mat<R, 4, 4>)
        ensures
            forall|i: int, k: int| 0 <= i < 4 && 0 <= k < 4 ==> #[trigger] r.at(i, k) == self.product_cell(&rhs, i, k),
    {
        self.matmul(rhs)
    }
}

impl<'a, 'b, R: Copy + Add<Output = R> + Mul<Output = R>> MulSpecImpl<&'b Mat<R, 4, 4>> for &'a Mat<R, 4, 4> {
    open spec fn obeys_mul_spec() -> bool {
        false
    }

    open spec fn mul_req(self, rhs: &'b Mat<R, 4, 4>) -> bool {
        self.product_req(&rhs)
    }

    open spec fn mul_spec(self, rhs: &'b Mat<R, 4, 4>) -> Mat<R, 4, 4> {
        arbitrary()
    }
}

impl<'a, R: Copy + Add<Output = R> + Mul<Output = R>> Dot<Mat<R, 4, 4>> for &'a Mat<R, 4, 4> {
    type Output = Mat<R, 4, 4>;

    open spec fn dot_req(&self, rhs: &Mat<R, 4, 4>) -> bool {
        self.product_req(rhs)
    }

    fn dot(self, rhs: Mat<R, 4, 4>) -> (r: Mat<R, 4, 4>)
        ensures
            forall|i: int, k: int| 0 <= i < 4 && 0 <= k < 4 ==> #[trigger] r.at(i, k) == self.product_cell(&rhs, i, k),
    {
        self.matmul(&rhs)
    }
}

impl<'a, R: Copy + Add<Output = R> + Mul<Output = R>> Mul<Mat<R, 4, 4>> for &'a Mat<R, 4, 4> {
    type Output = Mat<R, 4, 4>;

    fn mul(self, rhs: Mat<R, 4, 4>) -> (r: Mat<R, 4, 4>)
        ensures
            forall|i: int, k: int| 0 <= i < 4 && 0 <= k < 4 ==> #[trigger] r.at(i, k) == self.product_cell(&rhs, i, k),
    {
        self.matmul(&rhs)
    }
}

impl<'a, R: Copy + Add<Output = R> + Mul<Output = R>> MulSpecImpl<Mat<R, 4, 4>> for &'a Mat<R, 4, 4> {
    open spec fn obeys_mul_spec() -> bool {
        false
    }

    open spec fn mul_req(self, rhs: Mat<R, 4, 4>) -> bool {
        self.product_req(&rhs)
    }

    open spec fn mul_spec(self, rhs: Mat<R, 4, 4>) -> Mat<R, 4, 4> {
        arbitrary()
    }
}

impl<'b, R: Copy + Add<Output = R> + Mul<Output = R>> Dot<&'b Mat<R, 4, 4>> for Mat<R, 4, 4> {
    type Output = Mat<R, 4, 4>;

    open spec fn dot_req(&self, rhs: &&'b Mat<R, 4, 4>) -> bool {
        self.product_req(rhs)
    }

    fn dot(self, rhs: &'b Mat<R, 4, 4>) -> (r: Mat<R, 4, 4>)
        ensures
            forall|i: int, k: int| 0 <= i < 4 && 0 <= k < 4 ==> #[trigger] r.at(i, k) == self.product_cell(&rhs, i, k),
    {
        (&self).matmul(rhs)
    }
}

impl<'b, R: Copy + Add<Output = R> + Mul<Output = R>> Mul<&'b Mat<R, 4, 4>> for Mat<R, 4, 4> {
    type Output = Mat<R, 4, 4>;

    fn mul(self, rhs: &'b Mat<R, 4, 4>) -> (r: Mat<R, 4, 4>)
        ensures
            forall|i: int, k: int| 0 <= i < 4 && 0 <= k < 4 ==> #[trigger] r.at(i, k) == self.product_cell(&rhs, i, k),
    {
        (&self).matmul(rhs)
    }
}

impl<'b, R: Copy + Add<Output = R> + Mul<Output = R>> MulSpecImpl<&'b Mat<R, 4, 4>> for Mat<R, 4, 4> {
    open spec fn obeys_mul_spec() -> bool {
        false
    }

    open spec fn mul_req(self, rhs: &'b Mat<R, 4, 4>) -> bool {
        self.product_req(&rhs)
    }

    open spec fn mul_spec(self, rhs: &'b Mat<R, 4, 4>) -> Mat<R, 4, 4> {
        arbitrary()
    }
}

impl<R: Copy + Add<Output = R> + Mul<Output = R>> Dot<Mat<R, 4, 4>> for Mat<R, 4, 4> {
    type Output = Mat<R, 4, 4>;

    open spec fn dot_req(&self, rhs: &Mat<R, 4, 4>) -> bool {
        self.product_req(rhs)
    }

    fn dot(self, rhs: Mat<R, 4, 4>) -> (r: Mat<R, 4, 4>)
        ensures
            forall|i: int, k: int| 0 <= i < 4 && 0 <= k < 4 ==> #[trigger] r.at(i, k) == self.product_cell(&rhs, i, k),
    {
        (&self).matmul(&rhs)
    }
}

impl<R: Copy + Add<Output = R> + Mul<Output = R>> Mul<Mat<R, 4, 4>> for Mat<R, 4, 4> {
    type Output = Mat<R, 4, 4>;

    fn mul(self, rhs: Mat<R, 4, 4>) -> (r: Mat<R, 4, 4>)
        ensures
            forall|i: int, k: int| 0 <= i < 4 && 0 <= k < 4 ==> #[trigger] r.at(i, k) == self.product_cell(&rhs, i, k),
    {
        (&self).matmul(&rhs)
    }
}

impl<R: Copy + Add<Output = R> + Mul<Output = R>> MulSpecImpl<Mat<R, 4, 4>> for Mat<R, 4, 4> {
    open spec fn obeys_mul_spec() -> bool {
        false
    }

    open spec fn mul_req(self, rhs: Mat<R, 4, 4>) -> bool {
        self.product_req(&rhs)
    }

    open spec fn mul_spec(self, rhs: Mat<R, 4, 4>) -> Mat<R, 4, 4> {
        arbitrary()
    }
}

impl<'a, 'b, R: Copy + Add<Output = R> + Mul<Output = R>> Dot<&'b Mat<R, 4, 4>> for &'a Mat<R, 1, 4> {
    type Output = Mat<R, 1, 4>;

    open spec fn dot_req(&self, rhs: &&'b Mat<R, 4, 4>) -> bool {
        self.product_req(rhs)
    }

    fn dot(self, rhs: &'b Mat<R, 4, 4>) -> (r: Mat<R, 1, 4>)
        ensures
            forall|i: int, k: int| 0 <= i < 1 && 0 <= k < 4 ==> #[trigger] r.at(i, k) == self.product_cell(&rhs, i, k),
    {
        self.matmul(rhs)
    }
}

impl<'a, 'b, R: Copy + Add<Output = R> + Mul<Output = R>> Mul<&'b Mat<R, 4, 4>> for &'a Mat<R, 1, 4> {
    type Output = Mat<R, 1, 4>;

    fn mul(self, rhs: &'b Mat<R, 4, 4>) -> (r: Mat<R, 1, 4>)
        ensures
            forall|i: int, k: int| 0 <= i < 1 && 0 <= k < 4 ==> #[trigger] r.at(i, k) == self.product_cell(&rhs, i, k),
    {
        self.matmul(rhs)
    }
}

impl<'a, 'b, R: Copy + Add<Output = R> + Mul<Output = R>> MulSpecImpl<&'b Mat<R, 4, 4>> for &'a Mat<R, 1, 4> {
    open spec fn obeys_mul_spec() -> bool {
        false
    }

    open spec fn mul_req(self, rhs: &'b Mat<R, 4, 4>) -> bool {
        self.product_req(&rhs)
    }

    open spec fn mul_spec(self, rhs: &'b Mat<R, 4, 4>) -> Mat<R, 1, 4> {
        arbitrary()
    }
}

impl<'a, R: Copy + Add<Output = R> + Mul<Output = R>> Dot<Mat<R, 4, 4>> for &'a Mat<R, 1, 4> {
    type Output = Mat<R, 1, 4>;

    open spec fn dot_req(&self, rhs: &Mat<R, 4, 4>) -> bool {
        self.product_req(rhs)
    }

    fn dot(self, rhs: Mat<R, 4, 4>) -> (r: Mat<R, 1, 4>)
        ensures
            forall|i: int, k: int| 0 <= i < 1 && 0 <= k < 4 ==> #[trigger] r.at(i, k) == self.product_cell(&rhs, i, k),
    {
        self.matmul(&rhs)
    }
}

impl<'a, R: Copy + Add<Output = R> + Mul<Output = R>> Mul<Mat<R, 4, 4>> for &'a Mat<R, 1, 4> {
    type Output = Mat<R, 1, 4>;

    fn mul(self, rhs: Mat<R, 4, 4>) -> (r: Mat<R, 1, 4>)
        ensures
            forall|i: int, k: int| 0 <= i < 1 && 0 <= k < 4 ==> #[trigger] r.at(i, k) == self.product_cell(&rhs, i, k),
    {
        self.matmul(&rhs)
    }
}

impl<'a, R: Copy + Add<Output = R> + Mul<Output = R>> MulSpecImpl<Mat<R, 4, 4>> for &'a Mat<R, 1, 4> {
    open spec fn obeys_mul_spec() -> bool {
        false
    }

    open spec fn mul_req(self, rhs: Mat<R, 4, 4>) -> bool {
        self.product_req(&rhs)
    }

    open spec fn mul_spec(self, rhs: Mat<R, 4, 4>) -> Mat<R, 1, 4> {
        arbitrary()
    }
}

impl<'b, R: Copy + Add<Output = R> + Mul<Output = R>> Dot<&'b Mat<R, 4, 4>> for Mat<R, 1, 4> {
    type Output = Mat<R, 1, 4>;

    open spec fn dot_req(&self, rhs: &&'b Mat<R, 4, 4>) -> bool {
        self.product_req(rhs)
    }

    fn dot(self, rhs: &'b Mat<R, 4, 4>) -> (r: Mat<R, 1, 4>)
        ensures
            forall|i: int, k: int| 0 <= i < 1 && 0 <= k < 4 ==> #[trigger] r.at(i, k) == self.product_cell(&rhs, i, k),
    {
        (&self).matmul(rhs)
    }
}

impl<'b, R: Copy + Add<Output = R> + Mul<Output = R>> Mul<&'b Mat<R, 4, 4>> for Mat<R, 1, 4> {
    type Output = Mat<R, 1, 4>;

    fn mul(self, rhs: &'b Mat<R, 4, 4>) -> (r: Mat<R, 1, 4>)
        ensures
            forall|i: int, k: int| 0 <= i < 1 && 0 <= k < 4 ==> #[trigger] r.at(i, k) == self.product_cell(&rhs, i, k),
    {
        (&self).matmul(rhs)
    }
}

impl<'b, R: Copy + Add<Output = R> + Mul<Output = R>> MulSpecImpl<&'b Mat<R, 4, 4>> for Mat<R, 1, 4> {
    open spec fn obeys_mul_spec() -> bool {
        false
    }

    open spec fn mul_req(self, rhs: &'b Mat<R, 4, 4>) -> bool {
        self.product_req(&rhs)
    }

    open spec fn mul_spec(self, rhs: &'b Mat<R, 4, 4>) -> Mat<R, 1, 4> {
        arbitrary()
    }
}

impl<R: Copy + Add<Output = R> + Mul<Output = R>> Dot<Mat<R, 4, 4>> for Mat<R, 1, 4> {
    type Output = Mat<R, 1, 4>;

    open spec fn dot_req(&self, rhs: &Mat<R, 4, 4>) -> bool {
        self.product_req(rhs)
    }

    fn dot(self, rhs: Mat<R, 4, 4>) -> (r: Mat<R, 1, 4>)
        ensures
            forall|i: int, k: int| 0 <= i < 1 && 0 <= k < 4 ==> #[trigger] r.at(i, k) == self.product_cell(&rhs, i, k),
    {
        (&self).matmul(&rhs)
    }
}

impl<R: Copy + Add<Output = R> + Mul<Output = R>> Mul<Mat<R, 4, 4>> for Mat<R, 1, 4> {
    type Output = Mat<R, 1, 4>;

    fn mul(self, rhs: Mat<R, 4, 4>) -> (r: Mat<R, 1, 4>)
        ensures
            forall|i: int, k: int| 0 <= i < 1 && 0 <= k < 4 ==> #[trigger] r.at(i, k) == self.product_cell(&rhs, i, k),
    {
        (&self).matmul(&rhs)
    }
}

impl<R: Copy + Add<Output = R> + Mul<Output = R>> MulSpecImpl<Mat<R, 4, 4>> for Mat<R, 1, 4> {
    open spec fn obeys_mul_spec() -> bool {
        false
    }

    open spec fn mul_req(self, rhs: Mat<R, 4, 4>) -> bool {
        self.product_req(&rhs)
    }

    open spec fn mul_spec(self, rhs: Mat<R, 4, 4>) -> Mat<R, 1, 4> {
        arbitrary()
    }
}

impl<'a, 'b, R: Copy + Add<Output = R> + Mul<Output = R>> Dot<&'b Mat<R, 4, 1>> for &'a Mat<R, 4, 4> {
    type Output = Mat<R, 4, 1>;

    open spec fn dot_req(&self, rhs: &&'b Mat<R, 4, 1>) -> bool {
        self.product_req(rhs)
    }

    fn dot(self, rhs: &'b Mat<R, 4, 1>) -> (r: Mat<R, 4, 1>)
        ensures
            forall|i: int, k: int| 0 <= i < 4 && 0 <= k < 1 ==> #[trigger] r.at(i, k) == self.product_cell(&rhs, i, k),
    {
        self.matmul(rhs)
    }
}

impl<'a, 'b, R: Copy + Add<Output = R> + Mul<Output = R>> Mul<&'b Mat<R, 4, 1>> for &'a Mat<R, 4, 4> {
    type Output = Mat<R, 4, 1>;

    fn mul(self, rhs: &'b Mat<R, 4, 1>) -> (r: Mat<R, 4, 1>)
        ensures
            forall|i: int, k: int| 0 <= i < 4 && 0 <= k < 1 ==> #[trigger] r.at(i, k) == self.product_cell(&rhs, i, k),
    {
        self.matmul(rhs)
    }
}

impl<'a, 'b, R: Copy + Add<Output = R> + Mul<Output = R>> MulSpecImpl<&'b Mat<R, 4, 1>> for &'a Mat<R, 4, 4> {
    open spec fn obeys_mul_spec() -> bool {
        false
    }

    open spec fn mul_req(self, rhs: &'b Mat<R, 4, 1>) -> bool {
        self.product_req(&rhs)
    }

    open spec fn mul_spec(self, rhs: &'b Mat<R, 4, 1>) -> Mat<R, 4, 1> {
        arbitrary()
    }
}

impl<'a, R: Copy + Add<Output = R> + Mul<Output = R>> Dot<Mat<R, 4, 1>> for &'a Mat<R, 4, 4> {
    type Output = Mat<R, 4, 1>;

    open spec fn dot_req(&self, rhs: &Mat<R, 4, 1>) -> bool {
        self.product_req(rhs)
    }

    fn dot(self, rhs: Mat<R, 4, 1>) -> (r: Mat<R, 4, 1>)
        ensures
            forall|i: int, k: int| 0 <= i < 4 && 0 <= k < 1 ==> #[trigger] r.at(i, k) == self.product_cell(&rhs, i, k),
    {
        self.matmul(&rhs)
    }
}

impl<'a, R: Copy + Add<Output = R> + Mul<Output = R>> Mul<Mat<R, 4, 1>> for &'a Mat<R, 4, 4> {
    type Output = Mat<R, 4, 1>;

    fn mul(self, rhs: Mat<R, 4, 1>) -> (r: Mat<R, 4, 1>)
        ensures
            forall|i: int, k: int| 0 <= i < 4 && 0 <= k < 1 ==> #[trigger] r.at(i, k) == self.product_cell(&rhs, i, k),
    {
        self.matmul(&rhs)
    }
}

impl<'a, R: Copy + Add<Output = R> + Mul<Output = R>> MulSpecImpl<Mat<R, 4, 1>> for &'a Mat<R, 4, 4> {
    open spec fn obeys_mul_spec() -> bool {
        false
    }

    open spec fn mul_req(self, rhs: Mat<R, 4, 1>) -> bool {
        self.product_req(&rhs)
    }

    open spec fn mul_spec(self, rhs: Mat<R, 4, 1>) -> Mat<R, 4, 1> {
        arbitrary()
    }
}

impl<'b, R: Copy + Add<Output = R> + Mul<Output = R>> Dot<&'b Mat<R, 4, 1>> for Mat<R, 4, 4> {
    type Output = Mat<R, 4, 1>;

    open spec fn dot_req(&self, rhs: &&'b Mat<R, 4, 1>) -> bool {
        self.product_req(rhs)
    }

    fn dot(self, rhs: &'b Mat<R, 4, 1>) -> (r: Mat<R, 4, 1>)
        ensures
            forall|i: int, k: int| 0 <= i < 4 && 0 <= k < 1 ==> #[trigger] r.at(i, k) == self.product_cell(&rhs, i, k),
    {
        (&self).matmul(rhs)
    }
}

impl<'b, R: Copy + Add<Output = R> + Mul<Output = R>> Mul<&'b Mat<R, 4, 1>> for Mat<R, 4, 4> {
    type Output = Mat<R, 4, 1>;

    fn mul(self, rhs: &'b Mat<R, 4, 1>) -> (r: Mat<R, 4, 1>)
        ensures
            forall|i: int, k: int| 0 <= i < 4 && 0 <= k < 1 ==> #[trigger] r.at(i, k) == self.product_cell(&rhs, i, k),
    {
        (&self).matmul(rhs)
    }
}

impl<'b, R: Copy + Add<Output = R> + Mul<Output = R>> MulSpecImpl<&'b Mat<R, 4, 1>> for Mat<R, 4, 4> {
    open spec fn obeys_mul_spec() -> bool {
        false
    }

    open spec fn mul_req(self, rhs: &'b Mat<R, 4, 1>) -> bool {
        self.product_req(&rhs)
    }

    open spec fn mul_spec(self, rhs: &'b Mat<R, 4, 1>) -> Mat<R, 4, 1> {
        arbitrary()
    }
}

impl<R: Copy + Add<Output = R> + Mul<Output = R>> Dot<Mat<R, 4, 1>> for Mat<R, 4, 4> {
    type Output = Mat<R, 4, 1>;

    open spec fn dot_req(&self, rhs: &Mat<R, 4, 1>) -> bool {
        self.product_req(rhs)
    }

    fn dot(self, rhs: Mat<R, 4, 1>) -> (r: Mat<R, 4, 1>)
        ensures
            forall|i: int, k: int| 0 <= i < 4 && 0 <= k < 1 ==> #[trigger] r.at(i, k) == self.product_cell(&rhs, i, k),
    {
        (&self).matmul(&rhs)
    }
}

impl<R: Copy + Add<Output = R> + Mul<Output = R>> Mul<Mat<R, 4, 1>> for Mat<R, 4, 4> {
    type Output = Mat<R, 4, 1>;

    fn mul(self, rhs: Mat<R, 4, 1>) -> (r: Mat<R, 4, 1>)
        ensures
            forall|i: int, k: int| 0 <= i < 4 && 0 <= k < 1 ==> #[trigger] r.at(i, k) == self.product_cell(&rhs, i, k),
    {
        (&self).matmul(&rhs)
    }
}

impl<R: Copy + Add<Output = R> + Mul<Output = R>> MulSpecImpl<Mat<R, 4, 1>> for Mat<R, 4, 4> {
    open spec fn obeys_mul_spec() -> bool {
        false
    }

    open spec fn mul_req(self, rhs: Mat<R, 4, 1>) -> bool {
        self.product_req(&rhs)
    }

    open spec fn mul_spec(self, rhs: Mat<R, 4, 1>) -> Mat<R, 4, 1> {
        arbitrary()
    }
}

impl<'a, 'b, R: Copy + Add<Output = R> + Mul<Output = R>> Dot<&'b Mat<R, 2, 1>> for &'a Mat<R, 1, 2> {
    type Output = R;

    open spec fn dot_req(&self, rhs: &&'b Mat<R, 2, 1>) -> bool {
        self.product_req(rhs)
    }

    fn dot(self, rhs: &'b Mat<R, 2, 1>) -> (r: R)
        ensures
            r == self.product_cell(&rhs, 0, 0),
    {
        self.product_at(rhs, 0, 0)
    }
}

impl<'a, 'b, R: Copy + Add<Output = R> + Mul<Output = R>> Mul<&'b Mat<R, 2, 1>> for &'a Mat<R, 1, 2> {
    type Output = R;

    fn mul(self, rhs: &'b Mat<R, 2, 1>) -> (r: R)
        ensures
            r == self.product_cell(&rhs, 0, 0),
    {
        self.product_at(rhs, 0, 0)
    }
}

impl<'a, 'b, R: Copy + Add<Output = R> + Mul<Output = R>> MulSpecImpl<&'b Mat<R, 2, 1>> for &'a Mat<R, 1, 2> {
    open spec fn obeys_mul_spec() -> bool {
        false
    }

    open spec fn mul_req(self, rhs: &'b Mat<R, 2, 1>) -> bool {
        self.product_req(&rhs)
    }

    open spec fn mul_spec(self, rhs: &'b Mat<R, 2, 1>) -> R {
        arbitrary()
    }
}

impl<'a, R: Copy + Add<Output = R> + Mul<Output = R>> Dot<Mat<R, 2, 1>> for &'a Mat<R, 1, 2> {
    type Output = R;

    open spec fn dot_req(&self, rhs: &Mat<R, 2, 1>) -> bool {
        self.product_req(rhs)
    }

    fn dot(self, rhs: Mat<R, 2, 1>) -> (r: R)
        ensures
            r == self.product_cell(&rhs, 0, 0),
    {
        self.product_at(&rhs, 0, 0)
    }
}

impl<'a, R: Copy + Add<Output = R> + Mul<Output = R>> Mul<Mat<R, 2, 1>> for &'a Mat<R, 1, 2> {
    type Output = R;

    fn mul(self, rhs: Mat<R, 2, 1>) -> (r: R)
        ensures
            r == self.product_cell(&rhs, 0, 0),
    {
        self.product_at(&rhs, 0, 0)
    }
}

impl<'a, R: Copy + Add<Output = R> + Mul<Output = R>> MulSpecImpl<Mat<R, 2, 1>> for &'a Mat<R, 1, 2> {
    open spec fn obeys_mul_spec() -> bool {
        false
    }

    open spec fn mul_req(self, rhs: Mat<R, 2, 1>) -> bool {
        self.product_req(&rhs)
    }

    open spec fn mul_spec(self, rhs: Mat<R, 2, 1>) -> R {
        arbitrary()
    }
}

impl<'b, R: Copy + Add<Output = R> + Mul<Output = R>> Dot<&'b Mat<R, 2, 1>> for Mat<R, 1, 2> {
    type Output = R;

    open spec fn dot_req(&self, rhs: &&'b Mat<R, 2, 1>) -> bool {
        self.product_req(rhs)
    }

    fn dot(self, rhs: &'b Mat<R, 2, 1>) -> (r: R)
        ensures
            r == self.product_cell(&rhs, 0, 0),
    {
        (&self).product_at(rhs, 0, 0)
    }
}

impl<'b, R: Copy + Add<Output = R> + Mul<Output = R>> Mul<&'b Mat<R, 2, 1>> for Mat<R, 1, 2> {
    type Output = R;

    fn mul(self, rhs: &'b Mat<R, 2, 1>) -> (r: R)
        ensures
            r == self.product_cell(&rhs, 0, 0),
    {
        (&self).product_at(rhs, 0, 0)
    }
}

impl<'b, R: Copy + Add<Output = R> + Mul<Output = R>> MulSpecImpl<&'b Mat<R, 2, 1>> for Mat<R, 1, 2> {
    open spec fn obeys_mul_spec() -> bool {
        false
    }

    open spec fn mul_req(self, rhs: &'b Mat<R, 2, 1>) -> bool {
        self.product_req(&rhs)
    }

    open spec fn mul_spec(self, rhs: &'b Mat<R, 2, 1>) -> R {
        arbitrary()
    }
}

impl<R: Copy + Add<Output = R> + Mul<Output = R>> Dot<Mat<R, 2, 1>> for Mat<R, 1, 2> {
    type Output = R;

    open spec fn dot_req(&self, rhs: &Mat<R, 2, 1>) -> bool {
        self.product_req(rhs)
    }

    fn dot(self, rhs: Mat<R, 2, 1>) -> (r: R)
        ensures
            r == self.product_cell(&rhs, 0, 0),
    {
        (&self).product_at(&rhs, 0, 0)
    }
}

impl<R: Copy + Add<Output = R> + Mul<Output = R>> Mul<Mat<R, 2, 1>> for Mat<R, 1, 2> {
    type Output = R;

    fn mul(self, rhs: Mat<R, 2, 1>) -> (r: R)
        ensures
            r == self.product_cell(&rhs, 0, 0),
    {
        (&self).product_at(&rhs, 0, 0)
    }
}

impl<R: Copy + Add<Output = R> + Mul<Output = R>> MulSpecImpl<Mat<R, 2, 1>> for Mat<R, 1, 2> {
    open spec fn obeys_mul_spec() -> bool {
        false
    }

    open spec fn mul_req(self, rhs: Mat<R, 2, 1>) -> bool {
        self.product_req(&rhs)
    }

    open spec fn mul_spec(self, rhs: Mat<R, 2, 1>) -> R {
        arbitrary()
    }
}

impl<'a, 'b, R: Copy + Add<Output = R> + Mul<Output = R>, const N: usize> Dot<&'b Mat<R, N, 1>> for &'a Mat<R, N, 1> {
    type Output = R;

    open spec fn dot_req(&self, rhs: &&'b Mat<R, N, 1>) -> bool {
        self.inner_req(rhs)
    }

    fn dot(self, rhs: &'b Mat<R, N, 1>) -> (r: R)
        ensures
            r == self.partial_inner(&rhs, N as int),
    {
        self.inner(rhs)
    }
}

impl<'a, R: Copy + Add<Output = R> + Mul<Output = R>, const N: usize> Dot<Mat<R, N, 1>> for &'a Mat<R, N, 1> {
    type Output = R;

    open spec fn dot_req(&self, rhs: &Mat<R, N, 1>) -> bool {
        self.inner_req(rhs)
    }

    fn dot(self, rhs: Mat<R, N, 1>) -> (r: R)
        ensures
            r == self.partial_inner(&rhs, N as int),
    {
        self.inner(&rhs)
    }
}

impl<'b, R: Copy + Add<Output = R> + Mul<Output = R>, const N: usize> Dot<&'b Mat<R, N, 1>> for Mat<R, N, 1> {
    type Output = R;

    open spec fn dot_req(&self, rhs: &&'b Mat<R, N, 1>) -> bool {
        self.inner_req(rhs)
    }

    fn dot(self, rhs: &'b Mat<R, N, 1>) -> (r: R)
        ensures
            r == self.partial_inner(&rhs, N as int),
    {
        (&self).inner(rhs)
    }
}

impl<R: Copy + Add<Output = R> + Mul<Output = R>, const N: usize> Dot<Mat<R, N, 1>> for Mat<R, N, 1> {
    type Output = R;

    open spec fn dot_req(&self, rhs: &Mat<R, N, 1>) -> bool {
        self.inner_req(rhs)
    }

    fn dot(self, rhs: Mat<R, N, 1>) -> (r: R)
        ensures
            r == self.partial_inner(&rhs, N as int),
    {
        (&self).inner(&rhs)
    }
}

/// The sum of the first `n` component-wise products of two arrays, added from the first
/// component on.
pub open spec fn array_partial_dot<R: Add<Output = R> + Mul<Output = R>, const N: usize>(a: [R; N], b: [R; N], n: int) -> R
    decreases n,
{
    if n <= 1 {
        a@[0].mul_spec(b@[0])
    } else {
        array_partial_dot(a, b, n - 1).add_spec(a@[n - 1].mul_spec(b@[n - 1]))
    }
}

/// The inner product of two arrays can be formed: they are not empty, addition and
/// multiplication of the scalars follow their specifications, and no step overflows.
pub open spec fn array_dot_req<R: Add<Output = R> + Mul<Output = R>, const N: usize>(a: [R; N], b: [R; N]) -> bool {
    &&& N > 0
    &&& R::obeys_add_spec()
    &&& R::obeys_mul_spec()
    &&& forall|m: int|
        0 <= m < N ==> {
            &&& #[trigger] a@[m].mul_req(b@[m])
            &&& m >= 1 ==> array_partial_dot(a, b, m).add_req(a@[m].mul_spec(b@[m]))
        }
}

/// The inner product of two arrays of the same length.
pub fn array_dot<R: Copy + Add<Output = R> + Mul<Output = R>, const N: usize>(a: &[R; N], b: &[R; N]) -> (r: R)
    requires
        array_dot_req(*a, *b),
    ensures
        r == array_partial_dot(*a, *b, N as int),
{
    assert(a@[0].mul_req(b@[0]));
    let mut acc = a[0] * b[0];
    let mut n: usize = 1;
    while n < N
        invariant
            1 <= n <= N,
            array_dot_req(*a, *b),
            acc == array_partial_dot(*a, *b, n as int),
        decreases N - n,
    {
        assert(a@[n as int].mul_req(b@[n as int]));
        let p = a[n] * b[n];
        assert(acc.add_req(p));
        acc = acc + p;
        n += 1;
    }
    acc
}

impl<'a, R: Copy + Add<Output = R> + Mul<Output = R>, const N: usize> Dot for &'a [R; N] {
    type Output = R;

    open spec fn dot_req(&self, rhs: &&'a [R; N]) -> bool {
        array_dot_req(**self, **rhs)
    }

    fn dot(self, rhs: &'a [R; N]) -> (r: R)
        ensures
            r == array_partial_dot(*self, *rhs, N as int),
    {
        array_dot(self, rhs)
    }
}

impl<R: Copy + Add<Output = R> + Mul<Output = R>, const N: usize> Dot for [R; N] {
    type Output = R;

    open spec fn dot_req(&self, rhs: &[R; N]) -> bool {
        array_dot_req(*self, *rhs)
    }

    fn dot(self, rhs: [R; N]) -> (r: R)
        ensures
            r == array_partial_dot(self, rhs, N as int),
    {
        array_dot(&self, &rhs)
    }
}

} // verus!
