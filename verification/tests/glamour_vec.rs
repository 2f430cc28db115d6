use std::ops::{Add, Div, Mul, Sub};

use space_kit::glamour::dim::{Dim, D1, D2, D3, D4};
use space_kit::glamour::mat::{Mat, Mat2, Vec2, Vec3, Vec4};
use space_kit::glamour::ops::{Cross, Dot};

fn close(a: f32, b: f32) -> bool {
    (a - b).abs() <= 4.0 * f32::EPSILON * a.abs().max(b.abs()).max(1.0)
}

#[test]
fn vec2_requires_two_constructor_arguments_and_has_two_components() {
    let v: Vec2<f32> = Vec2::new(0.0f32, 1.0f32);

    assert_eq!(v[0], 0.0f32);
    assert_eq!(v[1], 1.0f32);
}

#[test]
fn vec2_supports_addition() {
    let a = Vec2::new(1.0f32, 2.0f32);
    let b = Vec2::new(3.0f32, 4.0f32);

    let c: Vec2<f32> = a.add(&b);
    assert!(close(c[0], 4.0f32));
    assert!(close(c[1], 6.0f32));
}

#[test]
fn vec2_supports_subtraction() {
    let a = Vec2::new(1.0f32, 2.0f32);
    let b = Vec2::new(3.0f32, 4.0f32);

    let c: Vec2<f32> = a.sub(&b);
    assert!(close(c[0], -2.0f32));
    assert!(close(c[1], -2.0f32));
}

#[test]
fn vec2_supports_scalar_addition() {
    let a = Vec2::new(1.0f32, 2.0f32);
    let b = 2.0f32;

    let c: Vec2<f32> = a.add(b);
    assert!(close(c[0], 3.0f32));
    assert!(close(c[1], 4.0f32));
}

#[test]
fn vec2_supports_scalar_subtraction() {
    let a = Vec2::new(1.0f32, 2.0f32);
    let b = 2.0f32;

    let c: Vec2<f32> = a.sub(b);
    assert!(close(c[0], -1.0f32));
    assert!(close(c[1], 0.0f32));
}

#[test]
fn vec2_supports_scalar_multiplication() {
    let a = Vec2::new(1.0f32, 2.0f32);
    let b = 2.0f32;

    let c: Vec2<f32> = a.mul(b);
    assert!(close(c[0], 2.0f32));
    assert!(close(c[1], 4.0f32));
}

#[test]
fn vec2_supports_scalar_division() {
    let a = Vec2::new(1.0f32, 2.0f32);
    let b = 2.0f32;

    let c: Vec2<f32> = a.div(b);
    assert!(close(c[0], 0.5f32));
    assert!(close(c[1], 1.0f32));
}

#[test]
fn vec2_supports_dot_product() {
    let a = Vec2::new(1.0f32, 2.0f32);
    let b = Vec2::new(3.0f32, 4.0f32);

    let c: f32 = a.dot(b);
    assert!(close(c, 11.0f32));
}

#[test]
fn vec2_supports_cross_product() {
    let a = Vec2::new(1.0f32, 2.0f32);
    let b = Vec2::new(3.0f32, 4.0f32);

    let c: f32 = (&a).cross(&b);
    assert!(close(c, -2.0f32));
}

#[test]
fn vec2_supports_f64() {
    let _: Vec2<f64> = Vec2::new(1.0f64, 2.0f64);
}

#[test]
fn vec3_requires_three_constructor_arguments_and_has_three_components() {
    let v: Vec3<f32> = Vec3::new(0.0f32, 1.0f32, 2.0f32);

    assert_eq!(v[0], 0.0f32);
    assert_eq!(v[1], 1.0f32);
    assert_eq!(v[2], 2.0f32);
}

#[test]
fn vec3_supports_addition() {
    let a = Vec3::new(1.0f32, 2.0f32, 3.0f32);
    let b = Vec3::new(3.0f32, 4.0f32, 3.0f32);

    let c: Vec3<f32> = a.add(&b);
    assert!(close(c[0], 4.0f32));
    assert!(close(c[1], 6.0f32));
    assert!(close(c[2], 6.0f32));
}

#[test]
fn vec3_supports_subtraction() {
    let a = Vec3::new(1.0f32, 2.0f32, 3.0f32);
    let b = Vec3::new(3.0f32, 4.0f32, 3.0f32);

    let c: Vec3<f32> = a.sub(&b);
    assert!(close(c[0], -2.0f32));
    assert!(close(c[1], -2.0f32));
    assert!(close(c[2], 0.0f32));
}

#[test]
fn vec3_supports_scalar_addition() {
    let a = Vec3::new(1.0f32, 2.0f32, 3.0f32);
    let b = 2.0f32;

    let c: Vec3<f32> = a.add(b);
    assert!(close(c[0], 3.0f32));
    assert!(close(c[1], 4.0f32));
    assert!(close(c[2], 5.0f32));
}

#[test]
fn vec3_supports_scalar_subtraction() {
    let a = Vec3::new(1.0f32, 2.0f32, 3.0f32);
    let b = 2.0f32;

    let c: Vec3<f32> = a.sub(b);
    assert!(close(c[0], -1.0f32));
    assert!(close(c[1], 0.0f32));
    assert!(close(c[2], 1.0f32));
}

#[test]
fn vec3_supports_scalar_multiplication() {
    let a = Vec3::new(1.0f32, 2.0f32, 3.0f32);
    let b = 2.0f32;

    let c: Vec3<f32> = a.mul(b);
    assert!(close(c[0], 2.0f32));
    assert!(close(c[1], 4.0f32));
    assert!(close(c[2], 6.0f32));
}

#[test]
fn vec3_supports_scalar_division() {
    let a = Vec3::new(1.0f32, 2.0f32, 3.0f32);
    let b = 2.0f32;

    let c: Vec3<f32> = a.div(b);
    assert!(close(c[0], 0.5f32));
    assert!(close(c[1], 1.0f32));
    assert!(close(c[2], 1.5f32));
}

#[test]
fn vec3_supports_dot_product() {
    let a = Vec3::new(1.0f32, 2.0f32, 3.0f32);
    let b = Vec3::new(4.0f32, 5.0f32, 6.0f32);

    let c: f32 = a.dot(b);
    assert!(close(c, 32.0f32));
}

#[test]
fn vec3_supports_cross_product() {
    let a = Vec3::new(1.0f32, 2.0f32, 3.0f32);
    let b = Vec3::new(4.0f32, 5.0f32, 6.0f32);

    let c: Vec3<f32> = (&a).cross(&b);
    assert!(close(c[0], -3.0f32));
    assert!(close(c[1], -3.0f32));
    assert!(close(c[2], 6.0f32));
}

#[test]
fn vec3_supports_f64() {
    let _: Vec3<f64> = Vec3::new(1.0f64, 2.0f64, 3.0f64);
}

#[test]
fn vec4_requires_four_constructor_arguments_and_has_four_components() {
    let v: Vec4<f32> = Vec4::new(0.0f32, 1.0f32, 2.0f32, 3.0f32);

    assert_eq!(v[0], 0.0f32);
    assert_eq!(v[1], 1.0f32);
    assert_eq!(v[2], 2.0f32);
    assert_eq!(v[3], 3.0f32);
}

#[test]
fn vec4_supports_addition() {
    let a = Vec4::new(1.0f32, 2.0f32, 3.0f32, 4.0f32);
    let b = Vec4::new(3.0f32, 4.0f32, 3.0f32, 5.0f32);

    let c: Vec4<f32> = a.add(&b);
    assert!(close(c[0], 4.0f32));
    assert!(close(c[1], 6.0f32));
    assert!(close(c[2], 6.0f32));
    assert!(close(c[3], 9.0f32));
}

#[test]
fn vec4_supports_subtraction() {
    let a = Vec4::new(1.0f32, 2.0f32, 3.0f32, 4.0f32);
    let b = Vec4::new(3.0f32, 4.0f32, 3.0f32, 5.0f32);

    let c: Vec4<f32> = a.sub(&b);
    assert!(close(c[0], -2.0f32));
    assert!(close(c[1], -2.0f32));
    assert!(close(c[2], 0.0f32));
    assert!(close(c[3], -1.0f32));
}

#[test]
fn vec4_supports_scalar_addition() {
    let a = Vec4::new(1.0f32, 2.0f32, 3.0f32, 4.0f32);
    let b = 2.0f32;

    let c: Vec4<f32> = a.add(b);
    assert!(close(c[0], 3.0f32));
    assert!(close(c[1], 4.0f32));
    assert!(close(c[2], 5.0f32));
    assert!(close(c[3], 6.0f32));
}

#[test]
fn vec4_supports_scalar_subtraction() {
    let a = Vec4::new(1.0f32, 2.0f32, 3.0f32, 4.0f32);
    let b = 2.0f32;

    let c: Vec4<f32> = a.sub(b);
    assert!(close(c[0], -1.0f32));
    assert!(close(c[1], 0.0f32));
    assert!(close(c[2], 1.0f32));
    assert!(close(c[3], 2.0f32));
}

#[test]
fn vec4_supports_scalar_multiplication() {
    let a = Vec4::new(1.0f32, 2.0f32, 3.0f32, 4.0f32);
    let b = 2.0f32;

    let c: Vec4<f32> = a.mul(b);
    assert!(close(c[0], 2.0f32));
    assert!(close(c[1], 4.0f32));
    assert!(close(c[2], 6.0f32));
    assert!(close(c[3], 8.0f32));
}

#[test]
fn vec4_supports_scalar_division() {
    let a = Vec4::new(1.0f32, 2.0f32, 3.0f32, 4.0f32);
    let b = 2.0f32;

    let c: Vec4<f32> = a.div(b);
    assert!(close(c[0], 0.5f32));
    assert!(close(c[1], 1.0f32));
    assert!(close(c[2], 1.5f32));
    assert!(close(c[3], 2.0f32));
}

#[test]
fn vec4_supports_dot_product() {
    let a = Vec4::new(1.0f32, 2.0f32, 3.0f32, 4.0f32);
    let b = Vec4::new(5.0f32, 6.0f32, 7.0f32, 8.0f32);

    let c: f32 = a.dot(b);
    assert!(close(c, 70.0f32));
}

#[test]
fn vec4_supports_f64() {
    let _: Vec4<f64> = Vec4::new(1.0f64, 2.0f64, 3.0f64, 4.0f64);
}

#[test]
fn mat2_has_four_constructor_arguments() {
    let _: Mat2<f32> = Mat2::new(0.0f32, 1.0f32, 3.0f32, 4.0f32);
}

#[test]
fn mat2_supports_indexing() {
    let a = Mat2::new(0.0f32, 1.0f32, 2.0f32, 3.0f32);

    assert!(close(a[(0, 1)], 1.0f32));
}

#[test]
fn mat2_supports_dot_product() {
    let a = Mat2::new(0.0f32, 1.0f32, 2.0f32, 3.0f32);
    let b = Mat2::new(0.5f32, 1.5f32, 2.5f32, 3.5f32);

    let c: Mat2<f32> = a.dot(&b);
    assert!(close(c[(0, 0)], 2.5f32));
    assert!(close(c[(0, 1)], 3.5f32));
    assert!(close(c[(1, 0)], 8.5f32));
    assert!(close(c[(1, 1)], 13.5f32));
}

#[test]
fn mat2_supports_addition() {
    let a = Mat2::new(0.0f32, 1.0f32, 2.0f32, 3.0f32);
    let b = Mat2::new(0.5f32, 1.5f32, 2.5f32, 3.5f32);

    let c: Mat2<f32> = a.add(&b);
    assert!(close(c[(0, 0)], 0.5f32));
    assert!(close(c[(0, 1)], 2.5f32));
    assert!(close(c[(1, 0)], 4.5f32));
    assert!(close(c[(1, 1)], 6.5f32));
}

#[test]
fn mat2_supports_subtraction() {
    let a = Mat2::new(0.0f32, 1.0f32, 2.0f32, 3.0f32);
    let b = Mat2::new(0.5f32, 1.5f32, 2.5f32, 3.5f32);

    let c: Mat2<f32> = a.sub(&b);
    assert!(close(c[(0, 0)], -0.5f32));
    assert!(close(c[(0, 1)], -0.5f32));
    assert!(close(c[(1, 0)], -0.5f32));
    assert!(close(c[(1, 1)], -0.5f32));
}

#[test]
fn mat2_supports_scalar_addition() {
    let a = Mat2::new(0.0f32, 1.0f32, 2.0f32, 3.0f32);
    let b = 2.0f32;

    let c: Mat2<f32> = a.add(b);
    assert!(close(c[(0, 0)], 2.0f32));
    assert!(close(c[(0, 1)], 3.0f32));
    assert!(close(c[(1, 0)], 4.0f32));
    assert!(close(c[(1, 1)], 5.0f32));
}

#[test]
fn mat2_supports_scalar_subtraction() {
    let a = Mat2::new(0.0f32, 1.0f32, 2.0f32, 3.0f32);
    let b = 2.0f32;

    let c: Mat2<f32> = a.sub(b);
    assert!(close(c[(0, 0)], -2.0f32));
    assert!(close(c[(0, 1)], -1.0f32));
    assert!(close(c[(1, 0)], 0.0f32));
    assert!(close(c[(1, 1)], 1.0f32));
}

#[test]
fn mat2_supports_scalar_multiplication() {
    let a = Mat2::new(0.0f32, 1.0f32, 2.0f32, 3.0f32);
    let b = 2.0f32;

    let c: Mat2<f32> = a.mul(b);
    assert!(close(c[(0, 0)], 0.0f32));
    assert!(close(c[(0, 1)], 2.0f32));
    assert!(close(c[(1, 0)], 4.0f32));
    assert!(close(c[(1, 1)], 6.0f32));
}

#[test]
fn mat2_supports_scalar_division() {
    let a = Mat2::new(0.0f32, 1.0f32, 2.0f32, 3.0f32);
    let b = 2.0f32;

    let c: Mat2<f32> = a.div(b);
    assert!(close(c[(0, 0)], 0.0f32));
    assert!(close(c[(0, 1)], 0.5f32));
    assert!(close(c[(1, 0)], 1.0f32));
    assert!(close(c[(1, 1)], 1.5f32));
}

#[test]
fn mat2_supports_f64() {
    let _: Mat2<f64> = Mat2::new(1.0f64, 2.0f64, 3.0f64, 4.0f64);
}

#[test]
fn mat2_supports_vec2_dot_product() {
    let a = Mat2::new(0.0f32, 1.0f32, 2.0f32, 3.0f32);
    let b = Vec2::new(1.0f32, 2.0f32);

    let c: Vec2<f32> = a.dot(&b);
    assert!(close(c[0], 2.0f32));
    assert!(close(c[1], 8.0f32));
}


#[test]
fn vec4_provides_norm_method() {
    let a: Vec4<f32> = Vec4::new(0.0, 1.0, 2.0, 3.0);
    assert!(close(a.norm(), 3.7416573868));
}

#[test]
fn dx_implements_dim() {
    assert_eq!(D1::DIM, 1usize);
    assert_eq!(D2::DIM, 2usize);
    assert_eq!(D3::DIM, 3usize);
    assert_eq!(D4::DIM, 4usize);
    assert_eq!(D1.as_usize(), 1usize);
    assert_eq!(D2.as_usize(), 2usize);
    assert_eq!(D3.as_usize(), 3usize);
    assert_eq!(D4.as_usize(), 4usize);
}

#[test]
fn array_impls_dot() {
    let a = [1.0f32, 2.0f32];
    let b = [3.0f32, 4.0f32];
    assert_eq!(Dot::dot(a, b), 11.0f32);
}

#[test]
fn abop_operates_correctly_for_two_arrays() {
    let lhs: Mat<f64, 1, 4> = Mat::from([1.0; 4]);
    let rhs: Mat<f64, 1, 4> = Mat::from([2.0; 4]);

    let c = lhs.add_elementwise(&rhs);
    assert_eq!(c.0[0], [3.0f64; 4]);
}

#[test]
fn abop_operates_correctly_for_an_array_and_a_scalar() {
    let lhs: Mat<f64, 1, 4> = Mat::from([1.0; 4]);
    let rhs = 2.0f64;

    let c = lhs.add_scalar(&rhs);
    assert_eq!(c.0[0], [3.0f64; 4]);
}

#[test]
fn abop_operates_correctly_for_a_scalar_and_an_array() {
    let lhs = 2.0f64;
    let rhs: Mat<f64, 1, 4> = Mat::from([1.0; 4]);

    let c = Mat::scalar_add(&lhs, &rhs);
    assert_eq!(c.0[0], [3.0f64; 4]);
}

#[test]
fn abop_operates_correctly_for_2x2_binary_operations() {
    let lhs: Mat<f64, 2, 2> = Mat::from([1.0; 4]);
    let rhs: Mat<f64, 2, 2> = Mat::from([2.0; 4]);
    let c: Mat<f64, 2, 2> = lhs.dot(rhs);
    assert_eq!(c, Mat::from([4.0f64; 4]));
}

#[test]
fn abop_operates_correctly_for_2x1_binary_operations() {
    let lhs: Mat<f64, 2, 2> = Mat::from([1.0; 4]);
    let rhs: Mat<f64, 2, 1> = Mat::from([2.0; 2]);
    let c: Mat<f64, 2, 1> = lhs.dot(rhs);
    assert_eq!(c, Mat::from([4.0f64; 2]));
}

#[test]
fn abop_operates_correctly_for_3x3_binary_operations() {
    let lhs: Mat<f64, 3, 3> = Mat::from([1.0; 9]);
    let rhs: Mat<f64, 3, 3> = Mat::from([2.0; 9]);
    let c: Mat<f64, 3, 3> = lhs.dot(rhs);
    assert_eq!(c, Mat::from([6.0f64; 9]));
}

#[test]
fn abop_operates_correctly_for_4x4_binary_operations() {
    let lhs: Mat<f64, 4, 4> = Mat::from([1.0; 16]);
    let rhs: Mat<f64, 4, 4> = Mat::from([2.0; 16]);
    let c: Mat<f64, 4, 4> = lhs.dot(rhs);
    assert_eq!(c, Mat::from([8.0; 16]));
}

#[test]
fn cross_products_of_parallel_vectors_vanish() {
    let a = Vec3::new(1.0f32, 2.0, 3.0);
    let b = Vec3::new(2.0f32, 4.0, 6.0);
    assert_eq!(a.cross3(&b), Vec3::new(0.0, 0.0, 0.0));
    assert_eq!(Vec2::new(1.0f32, 2.0).cross2(&Vec2::new(2.0, 4.0)), 0.0);
    assert_eq!(Vec3::new(0.0f32, 0.0, 1.0).to_homogeneous(0.0), Vec4::new(0.0, 0.0, 1.0, 0.0));
}

#[test]
fn elementwise_products_and_negation() {
    let a: Mat2<i32> = Mat2::new(1, -2, 3, 4);
    let b: Mat2<i32> = Mat2::new(5, 6, -7, 8);
    assert_eq!(a.mul_elementwise(&b), Mat2::new(5, -12, -21, 32));
    assert_eq!(-a, Mat2::new(-1, 2, -3, -4));
    assert_eq!(a.sub_elementwise(&b), Mat2::new(-4, -8, 10, -4));
    assert_eq!(Mat::scalar_sub(&10, &a), Mat2::new(9, 12, 7, 6));
    assert_eq!(Vec2::new(1, 2).inner(&Vec2::new(3, 4)), 11);
}
