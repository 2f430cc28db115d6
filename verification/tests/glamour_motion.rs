use space_kit::glamour::affine::Affine;
use space_kit::glamour::mat::{Vec3, Vec4};
use space_kit::glamour::ops::Dot;
use space_kit::glamour::quat::Quat;

fn close(a: f32, b: f32) -> bool {
    (a - b).abs() <= 1.0e-6
}

fn vec_close(a: &Vec4<f32>, b: &Vec4<f32>) -> bool {
    (0..4).all(|k| close(a[k], b[k]))
}

#[test]
fn affine_implements_mul_for_vec4() {
    let a: Affine<f32> = Affine::identity();
    let b: Vec4<f32> = Vec4::new(1.0, 1.0, 1.0, 1.0);
    assert_eq!(a.apply(&b), b);
}

#[test]
fn quaternion_units_multiply_as_hamilton_wrote() {
    let i = Quat::new(0.0f32, 1.0, 0.0, 0.0);
    let j = Quat::new(0.0f32, 0.0, 1.0, 0.0);
    let k = Quat::new(0.0f32, 0.0, 0.0, 1.0);
    let minus_one = Quat::new(-1.0f32, 0.0, 0.0, 0.0);
    assert_eq!(&i * &j, k);
    assert_eq!(&j * &i, Quat::new(0.0f32, 0.0, 0.0, -1.0));
    assert_eq!(i * i, minus_one);
    assert_eq!(&(&i * &j) * &k, minus_one);
}

#[test]
fn a_general_quaternion_product() {
    let a = Quat::new(1.0f32, 2.0, 3.0, 4.0);
    let b = Quat::new(5.0f32, 6.0, 7.0, 8.0);
    assert_eq!(a.hamilton(&b), Quat::new(-60.0f32, 12.0, 30.0, 24.0));
}

#[test]
fn a_quarter_turn_about_z_rotates_x_onto_y() {
    let h = std::f32::consts::FRAC_1_SQRT_2;
    let q = Quat::new(h, 0.0, 0.0, h);
    let v: Vec4<f32> = Vec4::new(1.0, 0.0, 0.0, 1.0);
    let r = &q * &v;
    assert!(vec_close(&r, &Vec4::new(0.0, 1.0, 0.0, 1.0)), "{:?}", r);
}

#[test]
fn the_identity_quaternion_leaves_vectors_alone() {
    let q: Quat<f32> = Quat::identity();
    let v: Vec4<f32> = Vec4::new(3.0, -2.0, 5.0, 7.0);
    assert_eq!(q * v, v);
}

#[test]
fn an_affine_transformation_scales_rotates_then_translates() {
    let h = std::f32::consts::FRAC_1_SQRT_2;
    let a: Affine<f32> = Affine::builder()
        .with_translation(Vec3::new(10.0, 20.0, 30.0))
        .with_orientation(Quat::new(h, 0.0, 0.0, h))
        .with_scale(Vec3::new(2.0, 3.0, 4.0))
        .build();
    let r = a.apply(&Vec4::new(1.0, 1.0, 1.0, 1.0));
    assert!(vec_close(&r, &Vec4::new(7.0, 22.0, 34.0, 1.0)), "{:?}", r);
}

#[test]
fn affine_transformations_compose_part_by_part() {
    let a: Affine<f32> = Affine::builder()
        .with_translation(Vec3::new(1.0, 2.0, 3.0))
        .with_orientation(Quat::new(0.0, 1.0, 0.0, 0.0))
        .with_scale(Vec3::new(2.0, 2.0, 2.0))
        .build();
    let b: Affine<f32> = Affine::builder()
        .with_translation(Vec3::new(4.0, 5.0, 6.0))
        .with_orientation(Quat::new(0.0, 0.0, 1.0, 0.0))
        .with_scale(Vec3::new(1.0, 3.0, 5.0))
        .build();
    let c = &a * &b;
    assert_eq!(c.t, Vec3::new(5.0, 7.0, 9.0));
    assert_eq!(c.o, Quat::new(0.0, 0.0, 0.0, 1.0));
    assert_eq!(c.s, Vec3::new(2.0, 6.0, 10.0));
    assert_eq!(a.dot(b), c);
    let i: Affine<f32> = Affine::identity();
    assert_eq!(i * a, a);
}
