use space_kit::glamour::mat::{Error, Mat, Mat2, Mat3, Mat4, Vec2, Vec3, Vec4};
use space_kit::glamour::norm::Unit;
use space_kit::glamour::ops::Dot;

fn close(a: f32, b: f32) -> bool {
    (a - b).abs() <= 4.0 * f32::EPSILON * a.abs().max(b.abs()).max(1.0)
}

fn cells_close<const I: usize, const J: usize>(a: &Mat<f32, I, J>, b: &Mat<f32, I, J>) -> bool {
    (0..I).all(|i| (0..J).all(|j| close(a.0[i][j], b.0[i][j])))
}

#[test]
fn a2i_1x1() {
    assert_eq!(Mat::<f32, 1, 1>::as_2d_idx(0), (0, 0), "i=0");
}

#[test]
fn a2i_1x2() {
    assert_eq!(Mat::<f32, 1, 2>::as_2d_idx(0), (0, 0), "i=0");
    assert_eq!(Mat::<f32, 1, 2>::as_2d_idx(1), (0, 1), "i=1");
}

#[test]
fn a2i_1x3() {
    assert_eq!(Mat::<f32, 1, 3>::as_2d_idx(0), (0, 0), "i=0");
    assert_eq!(Mat::<f32, 1, 3>::as_2d_idx(1), (0, 1), "i=1");
    assert_eq!(Mat::<f32, 1, 3>::as_2d_idx(2), (0, 2), "i=2");
}

#[test]
fn a2i_1x4() {
    assert_eq!(Mat::<f32, 1, 4>::as_2d_idx(0), (0, 0), "i=0");
    assert_eq!(Mat::<f32, 1, 4>::as_2d_idx(1), (0, 1), "i=1");
    assert_eq!(Mat::<f32, 1, 4>::as_2d_idx(2), (0, 2), "i=2");
    assert_eq!(Mat::<f32, 1, 4>::as_2d_idx(3), (0, 3), "i=3");
}

#[test]
fn a2i_2x1() {
    assert_eq!(Mat::<f32, 2, 1>::as_2d_idx(0), (0, 0), "i=0");
    assert_eq!(Mat::<f32, 2, 1>::as_2d_idx(1), (1, 0), "i=1");
}

#[test]
fn a2i_2x2() {
    assert_eq!(Mat::<f32, 2, 2>::as_2d_idx(0), (0, 0), "i=0");
    assert_eq!(Mat::<f32, 2, 2>::as_2d_idx(1), (0, 1), "i=1");
    assert_eq!(Mat::<f32, 2, 2>::as_2d_idx(2), (1, 0), "i=2");
    assert_eq!(Mat::<f32, 2, 2>::as_2d_idx(3), (1, 1), "i=3");
}

#[test]
fn a2i_2x3() {
    assert_eq!(Mat::<f32, 2, 3>::as_2d_idx(0), (0, 0), "i=0");
    assert_eq!(Mat::<f32, 2, 3>::as_2d_idx(1), (0, 1), "i=1");
    assert_eq!(Mat::<f32, 2, 3>::as_2d_idx(2), (0, 2), "i=2");
    assert_eq!(Mat::<f32, 2, 3>::as_2d_idx(3), (1, 0), "i=3");
    assert_eq!(Mat::<f32, 2, 3>::as_2d_idx(4), (1, 1), "i=4");
    assert_eq!(Mat::<f32, 2, 3>::as_2d_idx(5), (1, 2), "i=5");
}

#[test]
fn a2i_2x4() {
    assert_eq!(Mat::<f32, 2, 4>::as_2d_idx(0), (0, 0), "i=0");
    assert_eq!(Mat::<f32, 2, 4>::as_2d_idx(1), (0, 1), "i=1");
    assert_eq!(Mat::<f32, 2, 4>::as_2d_idx(2), (0, 2), "i=2");
    assert_eq!(Mat::<f32, 2, 4>::as_2d_idx(3), (0, 3), "i=3");
    assert_eq!(Mat::<f32, 2, 4>::as_2d_idx(4), (1, 0), "i=4");
    assert_eq!(Mat::<f32, 2, 4>::as_2d_idx(5), (1, 1), "i=5");
    assert_eq!(Mat::<f32, 2, 4>::as_2d_idx(6), (1, 2), "i=6");
    assert_eq!(Mat::<f32, 2, 4>::as_2d_idx(7), (1, 3), "i=7");
}

#[test]
fn a2i_3x1() {
    assert_eq!(Mat::<f32, 3, 1>::as_2d_idx(0), (0, 0), "i=0");
    assert_eq!(Mat::<f32, 3, 1>::as_2d_idx(1), (1, 0), "i=1");
    assert_eq!(Mat::<f32, 3, 1>::as_2d_idx(2), (2, 0), "i=2");
}

#[test]
fn a2i_3x2() {
    assert_eq!(Mat::<f32, 3, 2>::as_2d_idx(0), (0, 0), "i=0");
    assert_eq!(Mat::<f32, 3, 2>::as_2d_idx(1), (0, 1), "i=1");
    assert_eq!(Mat::<f32, 3, 2>::as_2d_idx(2), (1, 0), "i=2");
    assert_eq!(Mat::<f32, 3, 2>::as_2d_idx(3), (1, 1), "i=3");
    assert_eq!(Mat::<f32, 3, 2>::as_2d_idx(4), (2, 0), "i=4");
    assert_eq!(Mat::<f32, 3, 2>::as_2d_idx(5), (2, 1), "i=5");
}

#[test]
fn a2i_3x3() {
    assert_eq!(Mat::<f32, 3, 3>::as_2d_idx(0), (0, 0), "i=0");
    assert_eq!(Mat::<f32, 3, 3>::as_2d_idx(1), (0, 1), "i=1");
    assert_eq!(Mat::<f32, 3, 3>::as_2d_idx(2), (0, 2), "i=2");
    assert_eq!(Mat::<f32, 3, 3>::as_2d_idx(3), (1, 0), "i=3");
    assert_eq!(Mat::<f32, 3, 3>::as_2d_idx(4), (1, 1), "i=4");
    assert_eq!(Mat::<f32, 3, 3>::as_2d_idx(5), (1, 2), "i=5");
    assert_eq!(Mat::<f32, 3, 3>::as_2d_idx(6), (2, 0), "i=6");
    assert_eq!(Mat::<f32, 3, 3>::as_2d_idx(7), (2, 1), "i=7");
    assert_eq!(Mat::<f32, 3, 3>::as_2d_idx(8), (2, 2), "i=8");
}

#[test]
fn a2i_3x4() {
    assert_eq!(Mat::<f32, 3, 4>::as_2d_idx(0), (0, 0), "i=0");
    assert_eq!(Mat::<f32, 3, 4>::as_2d_idx(1), (0, 1), "i=1");
    assert_eq!(Mat::<f32, 3, 4>::as_2d_idx(2), (0, 2), "i=2");
    assert_eq!(Mat::<f32, 3, 4>::as_2d_idx(3), (0, 3), "i=3");
    assert_eq!(Mat::<f32, 3, 4>::as_2d_idx(4), (1, 0), "i=4");
    assert_eq!(Mat::<f32, 3, 4>::as_2d_idx(5), (1, 1), "i=5");
    assert_eq!(Mat::<f32, 3, 4>::as_2d_idx(6), (1, 2), "i=6");
    assert_eq!(Mat::<f32, 3, 4>::as_2d_idx(7), (1, 3), "i=7");
    assert_eq!(Mat::<f32, 3, 4>::as_2d_idx(8), (2, 0), "i=8");
    assert_eq!(Mat::<f32, 3, 4>::as_2d_idx(9), (2, 1), "i=9");
    assert_eq!(Mat::<f32, 3, 4>::as_2d_idx(10), (2, 2), "i=10");
    assert_eq!(Mat::<f32, 3, 4>::as_2d_idx(11), (2, 3), "i=11");
}

#[test]
fn a2i_4x1() {
    assert_eq!(Mat::<f32, 4, 1>::as_2d_idx(0), (0, 0), "i=0");
    assert_eq!(Mat::<f32, 4, 1>::as_2d_idx(1), (1, 0), "i=1");
    assert_eq!(Mat::<f32, 4, 1>::as_2d_idx(2), (2, 0), "i=2");
    assert_eq!(Mat::<f32, 4, 1>::as_2d_idx(3), (3, 0), "i=3");
}

#[test]
fn a2i_4x2() {
    assert_eq!(Mat::<f32, 4, 2>::as_2d_idx(0), (0, 0), "i=0");
    assert_eq!(Mat::<f32, 4, 2>::as_2d_idx(1), (0, 1), "i=1");
    assert_eq!(Mat::<f32, 4, 2>::as_2d_idx(2), (1, 0), "i=2");
    assert_eq!(Mat::<f32, 4, 2>::as_2d_idx(3), (1, 1), "i=3");
    assert_eq!(Mat::<f32, 4, 2>::as_2d_idx(4), (2, 0), "i=4");
    assert_eq!(Mat::<f32, 4, 2>::as_2d_idx(5), (2, 1), "i=5");
    assert_eq!(Mat::<f32, 4, 2>::as_2d_idx(6), (3, 0), "i=6");
    assert_eq!(Mat::<f32, 4, 2>::as_2d_idx(7), (3, 1), "i=7");
}

#[test]
fn a2i_4x3() {
    assert_eq!(Mat::<f32, 4, 3>::as_2d_idx(0), (0, 0), "i=0");
    assert_eq!(Mat::<f32, 4, 3>::as_2d_idx(1), (0, 1), "i=1");
    assert_eq!(Mat::<f32, 4, 3>::as_2d_idx(2), (0, 2), "i=2");
    assert_eq!(Mat::<f32, 4, 3>::as_2d_idx(3), (1, 0), "i=3");
    assert_eq!(Mat::<f32, 4, 3>::as_2d_idx(4), (1, 1), "i=4");
    assert_eq!(Mat::<f32, 4, 3>::as_2d_idx(5), (1, 2), "i=5");
    assert_eq!(Mat::<f32, 4, 3>::as_2d_idx(6), (2, 0), "i=6");
    assert_eq!(Mat::<f32, 4, 3>::as_2d_idx(7), (2, 1), "i=7");
    assert_eq!(Mat::<f32, 4, 3>::as_2d_idx(8), (2, 2), "i=8");
    assert_eq!(Mat::<f32, 4, 3>::as_2d_idx(9), (3, 0), "i=9");
    assert_eq!(Mat::<f32, 4, 3>::as_2d_idx(10), (3, 1), "i=10");
    assert_eq!(Mat::<f32, 4, 3>::as_2d_idx(11), (3, 2), "i=11");
}

#[test]
fn a2i_4x4() {
    assert_eq!(Mat::<f32, 4, 4>::as_2d_idx(0), (0, 0), "i=0");
    assert_eq!(Mat::<f32, 4, 4>::as_2d_idx(1), (0, 1), "i=1");
    assert_eq!(Mat::<f32, 4, 4>::as_2d_idx(2), (0, 2), "i=2");
    assert_eq!(Mat::<f32, 4, 4>::as_2d_idx(3), (0, 3), "i=3");
    assert_eq!(Mat::<f32, 4, 4>::as_2d_idx(4), (1, 0), "i=4");
    assert_eq!(Mat::<f32, 4, 4>::as_2d_idx(5), (1, 1), "i=5");
    assert_eq!(Mat::<f32, 4, 4>::as_2d_idx(6), (1, 2), "i=6");
    assert_eq!(Mat::<f32, 4, 4>::as_2d_idx(7), (1, 3), "i=7");
    assert_eq!(Mat::<f32, 4, 4>::as_2d_idx(8), (2, 0), "i=8");
    assert_eq!(Mat::<f32, 4, 4>::as_2d_idx(9), (2, 1), "i=9");
    assert_eq!(Mat::<f32, 4, 4>::as_2d_idx(10), (2, 2), "i=10");
    assert_eq!(Mat::<f32, 4, 4>::as_2d_idx(11), (2, 3), "i=11");
    assert_eq!(Mat::<f32, 4, 4>::as_2d_idx(12), (3, 0), "i=12");
    assert_eq!(Mat::<f32, 4, 4>::as_2d_idx(13), (3, 1), "i=13");
    assert_eq!(Mat::<f32, 4, 4>::as_2d_idx(14), (3, 2), "i=14");
    assert_eq!(Mat::<f32, 4, 4>::as_2d_idx(15), (3, 3), "i=15");
}

#[test]
fn mat_mat_implements_from_2d_array() {
    let m: Mat<f32, 2, 2> = Mat::from([[0.0, 1.0], [2.0, 3.0]]);
    assert_eq!(m.0, [[0.0, 1.0], [2.0, 3.0]]);
}

#[test]
fn mat_mat_1x1_implements_from_scalar_value() {
    let m: Mat<f32, 1, 1> = (1.0f32).into();
    assert_eq!(m.0, [[1.0]]);
}

#[test]
fn mat_mat_implements_from_array() {
    let _: Mat<f32, 1, 1> = Mat::from([0.0f32; 1]);
    let _: Mat<f32, 1, 2> = Mat::from([0.0f32; 2]);
    let _: Mat<f32, 1, 3> = Mat::from([0.0f32; 3]);
    let _: Mat<f32, 1, 4> = Mat::from([0.0f32; 4]);
    let _: Mat<f32, 2, 1> = Mat::from([0.0f32; 2]);
    let _: Mat<f32, 2, 2> = Mat::from([0.0f32; 4]);
    let _: Mat<f32, 2, 3> = Mat::from([0.0f32; 6]);
    let _: Mat<f32, 2, 4> = Mat::from([0.0f32; 8]);
    let _: Mat<f32, 3, 1> = Mat::from([0.0f32; 3]);
    let _: Mat<f32, 3, 2> = Mat::from([0.0f32; 6]);
    let _: Mat<f32, 3, 3> = Mat::from([0.0f32; 9]);
    let _: Mat<f32, 3, 4> = Mat::from([0.0f32; 12]);
    let _: Mat<f32, 4, 1> = Mat::from([0.0f32; 4]);
    let _: Mat<f32, 4, 2> = Mat::from([0.0f32; 8]);
    let _: Mat<f32, 4, 3> = Mat::from([0.0f32; 12]);
    let _: Mat<f32, 4, 4> = Mat::from([0.0f32; 16]);
}

#[test]
fn mat_mat_supports_1d_indexing() {
    let m: Mat<f32, 2, 2> = Mat::from([1.0f32, 2.0, 3.0, 4.0]);
    assert_eq!(m[2], 3.0f32);
}

#[test]
fn mat_mat_supports_mut_1d_indexing() {
    let mut m: Mat<f32, 2, 2> = Mat::from([1.0f32, 2.0, 3.0, 4.0]);
    let (i, j) = Mat::<f32, 2, 2>::as_2d_idx(2);
    m.set(i, j, 5.0f32);
    assert_eq!(m[2], 5.0f32);
}

#[test]
fn mat_mat_supports_2d_indexing() {
    let m: Mat<f32, 2, 2> = Mat::from([1.0f32, 2.0, 3.0, 4.0]);
    assert_eq!(m[(1, 1)], 4.0f32);
}

#[test]
fn mat_mat_supports_mut_2d_indexing() {
    let mut m: Mat<f32, 2, 2> = Mat::from([1.0f32, 2.0, 3.0, 4.0]);
    m.set(1, 1, 5.0f32);
    assert_eq!(m[(1, 1)], 5.0f32);
}

#[test]
fn mat_supports_transposition() {
    let a: Mat<f32, 2, 3> = Mat::from([1.0f32, 2.0, 3.0, 4.0, 5.0, 6.0]);
    let b: Mat<f32, 3, 2> = a.t();
    assert_eq!(b, Mat::<f32, 3, 2>::from([1.0f32, 4.0, 2.0, 5.0, 3.0, 6.0]));
}

#[test]
fn mat_provides_zero_constructor() {
    let m: Mat<f32, 2, 2> = Mat::zero();
    assert_eq!(m, Mat::<f32, 2, 2>::from([0.0f32; 4]));

    let m: Mat<f32, 2, 3> = Mat::zero();
    assert_eq!(m, Mat::<f32, 2, 3>::from([0.0f32; 6]));
}

#[test]
fn mat_supports_one_constructor() {
    let m: Mat<f32, 2, 2> = Mat::one();
    assert_eq!(m, Mat::<f32, 2, 2>::from([1.0f32; 4]));

    let m: Mat<f32, 2, 3> = Mat::one();
    assert_eq!(m, Mat::<f32, 2, 3>::from([1.0f32; 6]));
}

#[test]
fn mat_supports_identity_constructor() {
    let m: Mat<f32, 2, 2> = Mat::identity();
    assert_eq!(m, Mat::<f32, 2, 2>::from([1.0f32, 0.0, 0.0, 1.0]));
}

#[test]
fn mat_mat_supports_scalar_addition() {
    let a: Mat<f32, 1, 1> = Mat::from([1.0]);
    let b: f32 = 2.0;
    assert_eq!(&a + &b, Mat::<f32, 1, 1>::from([3.0]));
    assert_eq!(Mat::scalar_add(&b, &a), Mat::<f32, 1, 1>::from([3.0]));
}

#[test]
fn mat_mat_supports_scalar_subtraction() {
    let a: Mat<f32, 1, 1> = Mat::from([1.0]);
    let b: f32 = 2.0;
    assert_eq!(&a - &b, Mat::<f32, 1, 1>::from([-1.0]));
    assert_eq!(Mat::scalar_sub(&b, &a), Mat::<f32, 1, 1>::from([1.0]));
}

#[test]
fn mat_mat_supports_scalar_multiplication() {
    let a: Mat<f32, 1, 1> = Mat::from([2.0]);
    let b: f32 = 2.0;
    assert_eq!(&a * &b, Mat::<f32, 1, 1>::from([4.0]));
    assert_eq!(Mat::scalar_mul(&b, &a), Mat::<f32, 1, 1>::from([4.0]));
}

#[test]
fn mat_mat_supports_scalar_division() {
    let a: Mat<f32, 1, 1> = Mat::from([6.0]);
    let b: f32 = 2.0;
    assert_eq!(&a / &b, Mat::<f32, 1, 1>::from([3.0]));
    assert_eq!(Mat::scalar_div(&b, &a), Mat::<f32, 1, 1>::from([2.0 / 6.0]));
}

#[test]
fn elementwise_mat_supports_scalar_addition() {
    let a: Mat<f32, 1, 1> = Mat::from([1.0]);
    let b: f32 = 2.0;
    assert_eq!(&a + &b, Mat::<f32, 1, 1>::from([3.0]));
    assert_eq!(Mat::scalar_add(&b, &a), Mat::<f32, 1, 1>::from([3.0]));
}

#[test]
fn elementwise_mat_supports_scalar_subtraction() {
    let a: Mat<f32, 1, 1> = Mat::from([1.0]);
    let b: f32 = 2.0;
    assert_eq!(&a - &b, Mat::<f32, 1, 1>::from([-1.0]));
    assert_eq!(Mat::scalar_sub(&b, &a), Mat::<f32, 1, 1>::from([1.0]));
}

#[test]
fn elementwise_mat_supports_scalar_multiplication() {
    let a: Mat<f32, 1, 1> = Mat::from([2.0]);
    let b: f32 = 2.0;
    assert_eq!(&a * &b, Mat::<f32, 1, 1>::from([4.0]));
    assert_eq!(Mat::scalar_mul(&b, &a), Mat::<f32, 1, 1>::from([4.0]));
}

#[test]
fn elementwise_mat_supports_scalar_division() {
    let a: Mat<f32, 1, 1> = Mat::from([6.0]);
    let b: f32 = 2.0;
    assert_eq!(&a / &b, Mat::<f32, 1, 1>::from([3.0]));
    assert_eq!(Mat::scalar_div(&b, &a), Mat::<f32, 1, 1>::from([2.0 / 6.0]));
}

#[test]
fn mat_supports_addition() {
    let a: Mat<f32, 1, 1> = Mat::from([3.0]);
    let b: Mat<f32, 1, 1> = Mat::from([2.0]);
    assert_eq!(&a + &b, Mat::<f32, 1, 1>::from([5.0]));
    assert_eq!(&b + &a, Mat::<f32, 1, 1>::from([5.0]));
}

#[test]
fn mat_supports_matrix_addition() {
    let a: Mat<f32, 1, 1> = Mat::from([3.0]);
    let b: Mat<f32, 1, 1> = Mat::from([2.0]);
    assert_eq!(&a + &b, Mat::<f32, 1, 1>::from([5.0]));
    assert_eq!(&b + &a, Mat::<f32, 1, 1>::from([5.0]));
}

#[test]
fn mat_supports_subtraction() {
    let a: Mat<f32, 1, 1> = Mat::from([3.0]);
    let b: Mat<f32, 1, 1> = Mat::from([2.0]);
    assert_eq!(&a - &b, Mat::<f32, 1, 1>::from([1.0]));
    assert_eq!(&b - &a, Mat::<f32, 1, 1>::from([-1.0]));
}

#[test]
fn mat_supports_matrix_subtraction() {
    let a: Mat<f32, 1, 1> = Mat::from([3.0]);
    let b: Mat<f32, 1, 1> = Mat::from([2.0]);
    assert_eq!(&a - &b, Mat::<f32, 1, 1>::from([1.0]));
    assert_eq!(&b - &a, Mat::<f32, 1, 1>::from([-1.0]));
}

#[test]
fn mat_mat_supports_dot_product_2x1_1x2() {
    let a: Mat<f32, 2, 1> = Mat::from([3.0, 2.0]);
    let b: Mat<f32, 1, 2> = Mat::from([2.0, 1.0]);
    assert_eq!((&a).dot(&b), Mat::<f32, 2, 2>::from([6.0, 3.0, 4.0, 2.0]));
}

#[test]
fn mat_mat_supports_dot_product_1x2_2x1() {
    let a: Mat<f32, 1, 2> = Mat::from([3.0, 2.0]);
    let b: Mat<f32, 2, 1> = Mat::from([2.0, 1.0]);
    assert_eq!((&a).dot(&b), 8.0f32);
}

#[test]
fn mat_mat_supports_dot_product_2x2_2x2() {
    let a: Mat<f32, 2, 2> = Mat::from([1.0, 2.0, 3.0, 4.0]);
    let b: Mat<f32, 2, 2> = Mat::from([2.0, 3.0, 4.0, 5.0]);
    let c: Mat<f32, 2, 2> = Mat::from([10.0, 13.0, 22.0, 29.0]);
    assert_eq!((&a).dot(&b), c);
}

#[test]
fn mat_mat_supports_dot_product_1x2_2x2() {
    let a: Mat<f32, 1, 2> = Mat::from([2.0, 3.0]);
    let b: Mat<f32, 2, 2> = Mat::from([1.0, 2.0, 3.0, 4.0]);
    let c: Mat<f32, 1, 2> = Mat::from([11.0, 16.0]);
    assert_eq!((&a).dot(&b), c);
}

#[test]
fn mat_mat_supports_dot_product_2x2_2x1() {
    let a: Mat<f32, 2, 2> = Mat::from([1.0, 2.0, 3.0, 4.0]);
    let b: Mat<f32, 2, 1> = Mat::from([2.0, 3.0]);
    let c: Mat<f32, 2, 1> = Mat::from([8.0, 18.0]);
    assert_eq!((&a).dot(&b), c);
}

#[test]
fn mat_mat_supports_dot_product_3x3_3x3() {
    let a: Mat<f32, 3, 3> = Mat::from([1.0, 2.0, 3.0, 4.0, 5.0, 6.0, 7.0, 8.0, 9.0]);
    let b: Mat<f32, 3, 3> = Mat::from([2.0, 3.0, 4.0, 5.0, 6.0, 7.0, 8.0, 9.0, 10.0]);
    let c: Mat<f32, 3, 3> = Mat::from([36., 42., 48., 81., 96., 111., 126., 150., 174.]);
    assert_eq!((&a).dot(&b), c);
}

#[test]
fn mat_mat_supports_dot_product_1x3_3x3() {
    let a: Mat<f32, 1, 3> = Mat::from([1.0, 2.0, 3.0]);
    let b: Mat<f32, 3, 3> = Mat::from([2.0, 3.0, 4.0, 5.0, 6.0, 7.0, 8.0, 9.0, 10.0]);
    let c: Mat<f32, 1, 3> = Mat::from([36.0, 42.0, 48.0]);
    assert_eq!((&a).dot(&b), c);
}

#[test]
fn mat_mat_supports_dot_product_3x3_3x1() {
    let a: Mat<f32, 3, 3> = Mat::from([2.0, 3.0, 4.0, 5.0, 6.0, 7.0, 8.0, 9.0, 10.0]);
    let b: Mat<f32, 3, 1> = Mat::from([1.0, 2.0, 3.0]);
    let c: Mat<f32, 3, 1> = Mat::from([20.0, 38.0, 56.0]);
    assert_eq!((&a).dot(&b), c);
}

#[test]
fn mat_mat_supports_dot_product_4x4_4x4() {
    let a: Mat<f32, 4, 4> = Mat::from([
        1.0, 2.0, 3.0, 4.0, 5.0, 6.0, 7.0, 8.0, 9.0, 10.0, 11.0, 12.0, 13.0, 14.0, 15.0, 16.0,
    ]);
    let b: Mat<f32, 4, 4> = Mat::from([
        2.0, 3.0, 4.0, 5.0, 6.0, 7.0, 8.0, 9.0, 10.0, 11.0, 12.0, 13.0, 14.0, 15.0, 16.0, 17.0,
    ]);
    let c: Mat<f32, 4, 4> = Mat::from([
        100., 110., 120., 130., 228., 254., 280., 306., 356., 398., 440., 482., 484., 542., 600., 658.,
    ]);
    assert_eq!((&a).dot(&b), c);
}

#[test]
fn mat_mat_supports_dot_product_1x4_4x4() {
    let a: Mat<f32, 1, 4> = Mat::from([1.0, 2.0, 3.0, 4.0]);
    let b: Mat<f32, 4, 4> = Mat::from([2.0, 3.0, 4.0, 5.0, 6.0, 7.0, 8.0, 9.0, 10.0, 11.0, 12.0, 13.0, 14.0, 15.0, 16.0, 17.0]);
    let c: Mat<f32, 1, 4> = Mat::from([100.0, 110.0, 120.0, 130.0]);
    assert_eq!((&a).dot(&b), c);
}

#[test]
fn mat_mat_supports_dot_product_4x4_4x1() {
    let a: Mat<f32, 4, 4> = Mat::from([2.0, 3.0, 4.0, 5.0, 6.0, 7.0, 8.0, 9.0, 10.0, 11.0, 12.0, 13.0, 14.0, 15.0, 16.0, 17.0]);
    let b: Mat<f32, 4, 1> = Mat::from([1.0, 2.0, 3.0, 3.0]);
    let c: Mat<f32, 4, 1> = Mat::from([35.0, 71.0, 107.0, 143.0]);
    assert_eq!((&a).dot(&b), c);
}

#[test]
fn mat_mat2_x_vec2_works_as_premultiplication_of_the_matrix() {
    let m: Mat2<f32> = Mat2::identity();
    let v: Vec2<f32> = Vec2::one();

    assert_eq!(m * v, Vec2::one());
}

#[test]
fn mat_mat3_x_vec3_works_as_premultiplication_of_the_matrix() {
    let m: Mat3<f32> = Mat3::identity();
    let v: Vec3<f32> = Vec3::one();

    assert_eq!(m * v, Vec3::one());
}

#[test]
fn mat_mat4_x_vec4_works_as_premultiplication_of_the_matrix() {
    let m: Mat4<f32> = Mat4::identity();
    let v: Vec4<f32> = Vec4::one();

    assert_eq!(m * v, Vec4::one());
}

#[test]
fn dot_mat_supports_dot_product_2x1_1x2() {
    let a: Mat<f32, 2, 1> = Mat::from([3.0, 2.0]);
    let b: Mat<f32, 1, 2> = Mat::from([2.0, 1.0]);
    assert_eq!((&a).dot(&b), Mat::<f32, 2, 2>::from([6.0, 3.0, 4.0, 2.0]));
}

#[test]
fn dot_mat_supports_dot_product_1x2_2x1() {
    let a: Mat<f32, 1, 2> = Mat::from([3.0, 2.0]);
    let b: Mat<f32, 2, 1> = Mat::from([2.0, 1.0]);
    assert_eq!((&a).dot(&b), 8.0f32);
}

#[test]
fn dot_mat_supports_dot_product_2x2_2x2() {
    let a: Mat<f32, 2, 2> = Mat::from([1.0, 2.0, 3.0, 4.0]);
    let b: Mat<f32, 2, 2> = Mat::from([2.0, 3.0, 4.0, 5.0]);
    let c: Mat<f32, 2, 2> = Mat::from([10.0, 13.0, 22.0, 29.0]);
    assert_eq!((&a).dot(&b), c);
}

#[test]
fn dot_mat_supports_dot_product_1x2_2x2() {
    let a: Mat<f32, 1, 2> = Mat::from([2.0, 3.0]);
    let b: Mat<f32, 2, 2> = Mat::from([1.0, 2.0, 3.0, 4.0]);
    let c: Mat<f32, 1, 2> = Mat::from([11.0, 16.0]);
    assert_eq!((&a).dot(&b), c);
}

#[test]
fn dot_mat_supports_dot_product_2x2_2x1() {
    let a: Mat<f32, 2, 2> = Mat::from([1.0, 2.0, 3.0, 4.0]);
    let b: Mat<f32, 2, 1> = Mat::from([2.0, 3.0]);
    let c: Mat<f32, 2, 1> = Mat::from([8.0, 18.0]);
    assert_eq!((&a).dot(&b), c);
}

#[test]
fn dot_mat_supports_dot_product_3x3_3x3() {
    let a: Mat<f32, 3, 3> = Mat::from([1.0, 2.0, 3.0, 4.0, 5.0, 6.0, 7.0, 8.0, 9.0]);
    let b: Mat<f32, 3, 3> = Mat::from([2.0, 3.0, 4.0, 5.0, 6.0, 7.0, 8.0, 9.0, 10.0]);
    let c: Mat<f32, 3, 3> = Mat::from([36., 42., 48., 81., 96., 111., 126., 150., 174.]);
    assert_eq!((&a).dot(&b), c);
}

#[test]
fn dot_mat_supports_dot_product_1x3_3x3() {
    let a: Mat<f32, 1, 3> = Mat::from([1.0, 2.0, 3.0]);
    let b: Mat<f32, 3, 3> = Mat::from([2.0, 3.0, 4.0, 5.0, 6.0, 7.0, 8.0, 9.0, 10.0]);
    let c: Mat<f32, 1, 3> = Mat::from([36.0, 42.0, 48.0]);
    assert_eq!((&a).dot(&b), c);
}

#[test]
fn dot_mat_supports_dot_product_3x3_3x1() {
    let a: Mat<f32, 3, 3> = Mat::from([2.0, 3.0, 4.0, 5.0, 6.0, 7.0, 8.0, 9.0, 10.0]);
    let b: Mat<f32, 3, 1> = Mat::from([1.0, 2.0, 3.0]);
    let c: Mat<f32, 3, 1> = Mat::from([20.0, 38.0, 56.0]);
    assert_eq!((&a).dot(&b), c);
}

#[test]
fn dot_mat_supports_dot_product_4x4_4x4() {
    let a: Mat<f32, 4, 4> = Mat::from([
        1.0, 2.0, 3.0, 4.0, 5.0, 6.0, 7.0, 8.0, 9.0, 10.0, 11.0, 12.0, 13.0, 14.0, 15.0, 16.0,
    ]);
    let b: Mat<f32, 4, 4> = Mat::from([
        2.0, 3.0, 4.0, 5.0, 6.0, 7.0, 8.0, 9.0, 10.0, 11.0, 12.0, 13.0, 14.0, 15.0, 16.0, 17.0,
    ]);
    let c: Mat<f32, 4, 4> = Mat::from([
        100., 110., 120., 130., 228., 254., 280., 306., 356., 398., 440., 482., 484., 542., 600., 658.,
    ]);
    assert_eq!((&a).dot(&b), c);
}

#[test]
fn dot_mat_supports_dot_product_1x4_4x4() {
    let a: Mat<f32, 1, 4> = Mat::from([1.0, 2.0, 3.0, 4.0]);
    let b: Mat<f32, 4, 4> = Mat::from([2.0, 3.0, 4.0, 5.0, 6.0, 7.0, 8.0, 9.0, 10.0, 11.0, 12.0, 13.0, 14.0, 15.0, 16.0, 17.0]);
    let c: Mat<f32, 1, 4> = Mat::from([100.0, 110.0, 120.0, 130.0]);
    assert_eq!((&a).dot(&b), c);
}

#[test]
fn dot_mat_supports_dot_product_4x4_4x1() {
    let a: Mat<f32, 4, 4> = Mat::from([2.0, 3.0, 4.0, 5.0, 6.0, 7.0, 8.0, 9.0, 10.0, 11.0, 12.0, 13.0, 14.0, 15.0, 16.0, 17.0]);
    let b: Mat<f32, 4, 1> = Mat::from([1.0, 2.0, 3.0, 3.0]);
    let c: Mat<f32, 4, 1> = Mat::from([35.0, 71.0, 107.0, 143.0]);
    assert_eq!((&a).dot(&b), c);
}

#[test]
fn dot_mat2_x_vec2_works_as_premultiplication_of_the_matrix() {
    let m: Mat2<f32> = Mat2::identity();
    let v: Vec2<f32> = Vec2::one();

    assert_eq!(m * v, Vec2::one());
}

#[test]
fn dot_mat3_x_vec3_works_as_premultiplication_of_the_matrix() {
    let m: Mat3<f32> = Mat3::identity();
    let v: Vec3<f32> = Vec3::one();

    assert_eq!(m * v, Vec3::one());
}

#[test]
fn dot_mat4_x_vec4_works_as_premultiplication_of_the_matrix() {
    let m: Mat4<f32> = Mat4::identity();
    let v: Vec4<f32> = Vec4::one();

    assert_eq!(m * v, Vec4::one());
}

#[test]
fn mat_provides_is_nan() {
    let a: Mat<f32, 2, 2> = Mat::from([f32::NAN, 1.0, 1.0, 1.0]);
    assert!(a.is_nan());

    let a: Mat<f32, 2, 2> = Mat::from([1.0f32, 1.0, 1.0, 1.0]);
    assert!(!a.is_nan());
}

#[test]
fn mat_provides_col_method() {
    let a: Mat<f32, 2, 2> = Mat::from([1.0f32, 2.0, 3.0, 3.0]);
    let b: Mat<f32, 2, 1> = a.col(0);
    assert_eq!(b, Mat::<f32, 2, 1>::from([1.0f32, 3.0]));
}

#[test]
fn mat_provides_row_method() {
    let a: Mat<f32, 2, 2> = Mat::from([1.0f32, 2.0, 3.0, 4.0]);
    let b: Mat<f32, 1, 2> = a.row(0);
    assert_eq!(b, Mat::<f32, 1, 2>::from([1.0f32, 2.0]));
}

#[test]
fn mat_provides_subset_method() {
    let a: Mat<f32, 4, 4> = Mat::from([
        1.0, 2.0, 3.0, 4.0, 5.0, 6.0, 7.0, 8.0, 9.0, 10.0, 11.0, 12.0, 13.0, 14.0, 15.0, 16.0,
    ]);
    let b: Mat<f32, 2, 2> = a.subset::<2, 2>(0, 1);
    assert_eq!(b, Mat::<f32, 2, 2>::from([2.0f32, 3.0, 6.0, 7.0]));
}

#[test]
fn mat_mat_provides_norm_method() {
    let a: Mat<f32, 2, 2> = Mat::from([1.0f32, 2.0, 3.0, 4.0]);
    assert_eq!(a.norm(), 5.477225575051661f32);
}

#[test]
fn norm_mat_provides_norm_method() {
    let a: Mat<f32, 2, 2> = Mat::from([1.0f32, 2.0, 3.0, 4.0]);
    assert!(close(a.norm(), 5.477225575051661f32));
}

#[test]
fn mat_probides_diag_method() {
    let a: Mat<f32, 2, 2> = Mat::from([1.0f32, 2.0, 3.0, 4.0]);
    assert_eq!(a.diag(), Vec2::new(1.0f32, 4.0f32));
}

#[test]
fn vec2_implements_new() {
    let v: Vec2<f32> = Vec2::new(1.0f32, 2.0f32);
    assert_eq!(v.0, [[1.0], [2.0]]);
}

#[test]
fn vec3_implements_new() {
    let v: Vec3<f32> = Vec3::new(1.0f32, 2.0f32, 3.0f32);
    assert_eq!(v.0, [[1.0], [2.0], [3.0]]);
}

#[test]
fn mat_vec4_implements_new() {
    let v: Vec4<f32> = Vec4::new(1.0f32, 2.0f32, 3.0f32, 4.0f32);
    assert_eq!(v.0, [[1.0], [2.0], [3.0], [4.0]]);
}

#[test]
fn vec2_implements_x_and_y() {
    let v: Vec2<f32> = Vec2::new(1.0, 2.0);
    assert_eq!(v.x(), 1.0f32);
    assert_eq!(v.y(), 2.0f32);
}

#[test]
fn vec3_implements_x_y_and_z() {
    let v: Vec3<f32> = Vec3::new(1.0, 2.0, 3.0);
    assert_eq!(v.x(), 1.0f32);
    assert_eq!(v.y(), 2.0f32);
    assert_eq!(v.z(), 3.0f32);
}

#[test]
fn mat_vec4_implements_x_y_z_and_w() {
    let v: Vec4<f32> = Vec4::new(1.0, 2.0, 3.0, 4.0);
    assert_eq!(v.x(), 1.0f32);
    assert_eq!(v.y(), 2.0f32);
    assert_eq!(v.z(), 3.0f32);
    assert_eq!(v.w(), 4.0f32);
}

#[test]
fn vec4_vec4_implements_new() {
    let _: Vec4<f32> = Vec4::new(1.0f32, 2.0f32, 3.0f32, 4.0f32);
}

#[test]
fn vec4_vec4_implements_x_y_z_and_w() {
    let v: Vec4<f32> = Vec4::new(1.0, 2.0, 3.0, 4.0);
    assert_eq!(v.x(), 1.0f32);
    assert_eq!(v.y(), 2.0f32);
    assert_eq!(v.z(), 3.0f32);
    assert_eq!(v.w(), 4.0f32);
}

#[test]
fn vec3_provides_new_constructor_method() {
    let _: Vec3<f32> = Vec3::new(1.0f32, 2.0f32, 3.0f32);
}

#[test]
fn vec3_provides_x_y_and_z() {
    let v: Vec3<f32> = Vec3::new(1.0, 2.0, 3.0);
    assert_eq!(v.x(), 1.0f32);
    assert_eq!(v.y(), 2.0f32);
    assert_eq!(v.z(), 3.0f32);
}

#[test]
fn mat_implements_as_ref_for_2d_array() {
    let a: Mat<f32, 2, 2> = Mat::identity();
    let r: &[[f32; 2]; 2] = a.as_ref();
    assert_eq!(*r, [[1.0, 0.0], [0.0, 1.0]]);
}

#[test]
fn mat_implements_try_from_vec() {
    let a: Result<Mat<f32, 2, 2>, Error> = Mat::try_from(vec![0.0, 1.0, 2.0, 3.0]);
    assert_eq!(a, Ok(Mat([[0.0, 1.0], [2.0, 3.0]])));
}

#[test]
fn try_from_vec_of_wrong_length_is_refused() {
    let a: Result<Mat<f32, 2, 2>, Error> = Mat::try_from(vec![0.0, 1.0, 2.0]);
    assert_eq!(a, Err(Error::LengthMismatch { expected: 4, found: 3 }));
}

#[test]
fn convert_mat_implements_from_2d_array() {
    let _: Mat<f32, 2, 2> = Mat::from([[0.0, 1.0], [2.0, 3.0]]);
}

#[test]
fn convert_mat_1x1_implements_from_scalar_value() {
    let _: Mat<f32, 1, 1> = (1.0f32).into();
}

#[test]
fn convert_mat_implements_from_array() {
    let m: Mat<f32, 2, 3> = Mat::from([1.0f32, 2.0, 3.0, 4.0, 5.0, 6.0]);
    assert_eq!(m.0, [[1.0, 2.0, 3.0], [4.0, 5.0, 6.0]]);
    let m: Mat<f32, 3, 1> = Mat::from([1.0f32, 2.0, 3.0]);
    assert_eq!(m.0, [[1.0], [2.0], [3.0]]);
}

#[test]
fn mod_mat4_provides_zero_constructor() {
    let m: Mat4<f32> = Mat4::zero();
    assert_eq!(m, Mat([[0.0f32; 4]; 4]));
}

#[test]
fn mod_mat4_supports_one_constructor() {
    let m: Mat4<f32> = Mat4::one();
    assert_eq!(m, Mat([[1.0f32; 4]; 4]));
}

#[test]
fn mat4_supports_identity_constructor() {
    let m: Mat4<f32> = Mat4::identity();

    let mut expected = Mat([[0.0f32; 4]; 4]);
    for i in 0..4 {
        expected.0[i][i] = 1.0f32;
    }
    assert_eq!(m, expected);
}

#[test]
fn num_mat4_provides_zero_constructor() {
    let m: Mat4<f32> = Mat4::zero();
    assert_eq!(m, Mat([[0.0f32; 4]; 4]));
}

#[test]
fn num_mat4_supports_one_constructor() {
    let m: Mat4<f32> = Mat4::one();
    assert_eq!(m, Mat([[1.0f32; 4]; 4]));
}

#[test]
fn index_mat_supports_1d_indexing() {
    let m: Mat<f32, 2, 2> = Mat::from([1.0f32, 2.0, 3.0, 4.0]);
    assert_eq!(m[2], 3.0f32);
}

#[test]
fn index_mat_supports_mut_1d_indexing() {
    let mut m: Mat<f32, 2, 2> = Mat::from([1.0f32, 2.0, 3.0, 4.0]);
    let (i, j) = Mat::<f32, 2, 2>::as_2d_idx(2);
    m.set(i, j, 5.0f32);
    assert_eq!(m[2], 5.0f32);
}

#[test]
fn index_mat_supports_2d_indexing() {
    let m: Mat<f32, 2, 2> = Mat::from([1.0f32, 2.0, 3.0, 4.0]);
    assert_eq!(m[(1, 1)], 4.0f32);
}

#[test]
fn index_mat_supports_mut_2d_indexing() {
    let mut m: Mat<f32, 2, 2> = Mat::from([1.0f32, 2.0, 3.0, 4.0]);
    m.set(1, 1, 5.0f32);
    assert_eq!(m[(1, 1)], 5.0f32);
}

#[test]
fn look_at_lh() {
    let fwd = Unit::from_mat(Vec3::new(0.0f32, 0.0, -1.0));
    let up = Unit::from_mat(Vec3::new(0.0f32, 1.0, 0.0));

    let m = Mat3::look_at_lh(fwd, up);

    assert!(cells_close(&m, &Mat3::new([[-1.0, 0.0, 0.0], [0.0, 1.0, 0.0], [0.0, 0.0, -1.0]])));
}

#[test]
fn transposing_twice_gives_the_matrix_back() {
    let a: Mat4<f32> = Mat4::from([
        1.0, 2.0, 3.0, 4.0, 5.0, 6.0, 7.0, 8.0, 9.0, 10.0, 11.0, 12.0, 13.0, 14.0, 15.0, 16.0,
    ]);
    let b: Mat4<f32> = a.t();
    assert_eq!(b.t(), a);
    assert_eq!(b[(0, 1)], a[(1, 0)]);
    assert_eq!(a.row(2), Mat::from([9.0, 10.0, 11.0, 12.0]));
    assert_eq!(a.col(2), Vec4::new(3.0, 7.0, 11.0, 15.0));
    assert_eq!(a.diag(), Vec4::new(1.0, 6.0, 11.0, 16.0));
}

#[test]
fn identity_leaves_vectors_unchanged() {
    let m: Mat3<f32> = Mat3::identity();
    let v: Vec3<f32> = Vec3::new(1.5, -2.0, 7.25);
    assert_eq!(m * v, v);
    assert_eq!(m.matmul(&Mat3::new([[1.0, 2.0, 3.0], [4.0, 5.0, 6.0], [7.0, 8.0, 9.0]])), Mat3::new([[1.0, 2.0, 3.0], [4.0, 5.0, 6.0], [7.0, 8.0, 9.0]]));
}

#[test]
fn mat_implements_display() {
    let a: Mat<f32, 2, 3> = Mat::from([1.0f32, 2.0, 3.0, 4.0, 5.0, 6.0]);
    assert_eq!(a.to_text(), "[[1, 2, 3], [4, 5, 6]]");

    let a: Mat<f32, 1, 2> = Mat::from([1.0f32, 2.0]);
    assert_eq!(a.to_text(), "[[1, 2]]");

    let a: Mat<f32, 2, 1> = Mat::from([1.0f32, 2.0]);
    assert_eq!(a.to_text(), "[[1], [2]]");
}

#[test]
fn mat_implements_abs_diff_eq() {
    let a: Mat<f32, 2, 2> = Mat::identity();
    let b: Mat<f32, 2, 2> = Mat::identity() * 2.0;

    assert!((a * 0.0).abs_diff_eq(&(b * 0.0)));
    assert!(!a.abs_diff_eq(&b));
}

#[test]
fn mat_implements_relative_eq() {
    let a: Mat<f32, 2, 2> = Mat::identity();
    let b: Mat<f32, 2, 2> = Mat::identity() * 2.0;

    assert!(a.relative_eq(&(b / 2.0)));
    assert!(!a.relative_eq(&b));
}

#[test]
fn mat_implements_ulps_eq() {
    let a: Mat<f32, 2, 2> = Mat::identity();
    let b: Mat<f32, 2, 2> = Mat::identity() * 2.0;

    assert!(a.ulps_eq(&(b / 2.0)));
    assert!(!a.ulps_eq(&b));
}

#[test]
fn from_iter_fills_rows_from_the_first_elements() {
    let m: Mat<i32, 2, 3> = Mat::from_iter(vec![1, 2, 3, 4, 5, 6, 7]);
    assert_eq!(m, Mat([[1, 2, 3], [4, 5, 6]]));
}

#[test]
fn serialized_length_must_match_the_cells() {
    assert_eq!(Mat::<f32, 2, 2>::check_serialized_length(Some(4)), Ok(()));
    assert_eq!(Mat::<f32, 2, 2>::check_serialized_length(Some(3)), Err(3));
    assert_eq!(Mat::<f32, 2, 2>::check_serialized_length(None), Err(0));
}

#[test]
fn flat_indices_follow_rows() {
    let m: Mat<i32, 3, 4> = Mat::from([0, 1, 2, 3, 4, 5, 6, 7, 8, 9, 10, 11]);
    for k in 0..12 {
        let (i, j) = Mat::<i32, 3, 4>::as_2d_idx(k);
        assert_eq!(m[(i, j)], k as i32);
        assert_eq!(m[k], k as i32);
    }
}

#[test]
fn mat4_look_at_lh() {
    let fwd = Unit(Vec4::new(0.0f32, 0.0, -1.0, 0.0));
    let up = Unit(Vec4::new(0.0f32, 1.0, 0.0, 0.0));

    let m = Mat4::look_at_lh(fwd, up);

    assert!(cells_close(&m, &Mat4::new([[-1.0, 0.0, 0.0, 0.0], [0.0, 1.0, 0.0, 0.0], [0.0, 0.0, -1.0, 0.0], [0.0, 0.0, 0.0, 1.0]])));
}
