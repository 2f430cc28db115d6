use approx::RelativeEq;
use space_kit::glamour::affine::{Affine, AffineBuilder};
use space_kit::glamour::mat::{Mat, Mat4, Vec3, Vec4};
use space_kit::glamour::norm::Unit;
use space_kit::glamour::ortho::{Error, Ortho, OrthoBuilder};
use space_kit::glamour::persp::Persp;
use space_kit::glamour::point::{Point3, Ray};
use space_kit::glamour::quat::Quat;

fn rel(a: f32, b: f32) -> bool {
    a.relative_eq(&b, f32::EPSILON, f32::EPSILON)
}

fn testing_ortho() -> Ortho<f32> {
    Ortho::builder()
        .with_aspect(1.5)
        .with_fov_y(std::f32::consts::PI / 4.0)
        .with_near_z(0.1)
        .with_far_z(1000.0)
        .build()
        .unwrap()
}

fn testing_ortho_builder() -> OrthoBuilder<f32> {
    OrthoBuilder::default()
}

fn testing_complete_ortho_builder() -> OrthoBuilder<f32> {
    Ortho::builder()
        .with_aspect(1.5)
        .with_fov_y(std::f32::consts::PI / 4.0)
        .with_near_z(0.1)
        .with_far_z(1000.0)
}

#[test]
fn ortho_provides_builder_method() {
    let _: OrthoBuilder<f32> = Ortho::builder();
}

#[test]
fn ortho_implements_as_ref_for_mat4_and_provides_as_matrix() {
    let p = testing_ortho();

    let _: &Mat4<f32> = p.as_ref();
    let _: &Mat4<f32> = p.as_matrix();
}

#[test]
fn ortho_builder_provides_with_aspect_method() {
    let pb = testing_ortho_builder();

    let _: OrthoBuilder<f32> = pb.with_aspect(1.0f32);
}

#[test]
fn ortho_builder_provides_with_fov_y_method() {
    let pb = testing_ortho_builder();

    let _: OrthoBuilder<f32> = pb.with_fov_y(1.0f32);
}

#[test]
fn ortho_builder_provides_with_near_z_method() {
    let pb = testing_ortho_builder();

    let _: OrthoBuilder<f32> = pb.with_near_z(1.0f32);
}

#[test]
fn ortho_builder_provides_with_far_z_method() {
    let pb = testing_ortho_builder();

    let _: OrthoBuilder<f32> = pb.with_far_z(1.0f32);
}

#[test]
fn ortho_builder_provides_build_method() {
    let pb = testing_ortho_builder();

    let _: Result<Ortho<f32>, Error> = pb.build();
}

#[test]
fn ortho_builder_fails_when_aspect_is_missing() {
    let mut pb = testing_complete_ortho_builder();
    pb.aspect = None;

    assert_eq!(pb.build(), Err(Error::MissingAspectRatio));
}

#[test]
fn ortho_builder_fails_when_aspect_is_negative() {
    let pb = testing_complete_ortho_builder();

    assert_eq!(pb.with_aspect(-1.0).build(), Err(Error::AspectRatioMustBePositive));
}

#[test]
fn ortho_builder_fails_when_aspect_is_zero() {
    let pb = testing_complete_ortho_builder();

    assert_eq!(pb.with_aspect(0.0).build(), Err(Error::AspectRatioMustBePositive));
}

#[test]
fn ortho_builder_fails_when_fov_y_is_missing() {
    let mut pb = testing_complete_ortho_builder();
    pb.fov_y = None;

    assert_eq!(pb.build(), Err(Error::MissingFieldOfView));
}

#[test]
fn ortho_builder_fails_when_fov_y_is_zero() {
    let pb = testing_complete_ortho_builder();

    assert_eq!(pb.with_fov_y(0.0).build(), Err(Error::FieldOfViewMustBeNonZero));
}

#[test]
fn ortho_builder_fails_when_near_z_is_missing() {
    let mut pb = testing_complete_ortho_builder();
    pb.near_z = None;

    assert_eq!(pb.build(), Err(Error::MissingNearFrustumPlane));
}

#[test]
fn ortho_builder_fails_when_far_z_is_missing() {
    let mut pb = testing_complete_ortho_builder();
    pb.far_z = None;

    assert_eq!(pb.build(), Err(Error::MissingFarFrustumPlane));
}

#[test]
fn ortho_builder_fails_when_near_z_and_far_z_are_equal() {
    let pb = testing_complete_ortho_builder();

    assert_eq!(pb.with_near_z(2.0).with_far_z(2.0).build(), Err(Error::FrustumZPlanesMustNotSuperimpose));
}

#[test]
fn ortho_contains_a_valid_mat4() {
    let p = Ortho::builder()
        .with_aspect(1.5)
        .with_fov_y(std::f32::consts::PI / 4.0)
        .with_near_z(0.1)
        .with_far_z(1000.0)
        .build()
        .unwrap();

    let m4: Mat4<f32> = p.0;

    assert!(rel(m4[(0, 0)], 0.004828427216));
    assert!(rel(m4[(0, 1)], 0.0));
    assert!(rel(m4[(0, 2)], 0.0));
    assert!(rel(m4[(0, 3)], 0.0));
    assert!(rel(m4[(1, 0)], 0.0));
    assert!(rel(m4[(1, 1)], 0.007242640824));
    assert!(rel(m4[(1, 2)], 0.0));
    assert!(rel(m4[(1, 3)], 0.0));
    assert!(rel(m4[(2, 0)], 0.0));
    assert!(rel(m4[(2, 1)], 0.0));
    assert!(rel(m4[(2, 2)], -0.00200020002));
    assert!(rel(m4[(2, 3)], -1.00020002));
    assert!(rel(m4[(3, 0)], 0.0));
    assert!(rel(m4[(3, 1)], 0.0));
    assert!(rel(m4[(3, 2)], 0.0));
    assert!(rel(m4[(3, 3)], 1.0));
}


fn testing_persp() -> Persp<f32> {
    Persp::new(1.5, std::f32::consts::PI / 4.0, 0.1, 1000.0)
}

#[test]
fn persp_persp_implements_as_ref_for_mat4_and_provides_as_matrix() {
    let p = testing_persp();

    let a: &Mat4<f32> = p.as_ref();
    let b: &Mat4<f32> = p.as_matrix();
    assert_eq!(a, b);
}

#[test]
fn mod_persp_implements_as_ref_for_mat4_and_provides_as_matrix() {
    let p = testing_persp();

    let _: &Mat4<f32> = p.as_ref();
    let _: &Mat4<f32> = p.as_matrix();
}

#[test]
fn persp_supports_inversion() {
    // The cells below are those of the inverse of the projection: 1 / (cot / 1.5) = 0.6213,
    // 1 / cot = 0.4142, 1 / m23 = -4.9995 and m22 / m23 = 5.0005, with cot = 2.4142,
    // m22 = -1.0002 and m23 = -0.2000 the cells of `testing_persp()` itself (checked in
    // `persp_matrix_holds_the_projection_cells`); so the test inverts before it compares.
    let i = testing_persp().inv();

    let m4: Mat4<f32> = i.0;

    assert!(rel(m4[(0, 0)], 0.621320332));
    assert!(rel(m4[(0, 1)], 0.0));
    assert!(rel(m4[(0, 2)], 0.0));
    assert!(rel(m4[(0, 3)], 0.0));
    assert!(rel(m4[(1, 0)], 0.0));
    assert!(rel(m4[(1, 1)], 0.414213555));
    assert!(rel(m4[(1, 2)], 0.0));
    assert!(rel(m4[(1, 3)], 0.0));
    assert!(rel(m4[(2, 0)], 0.0));
    assert!(rel(m4[(2, 1)], 0.0));
    assert!(rel(m4[(2, 2)], 0.0));
    assert!(rel(m4[(2, 3)], -1.0));
    assert!(rel(m4[(3, 0)], 0.0));
    assert!(rel(m4[(3, 1)], 0.0));
    assert!(rel(m4[(3, 2)], -4.99950000));
    assert!(rel(m4[(3, 3)], 5.00050000));
}

#[test]
fn persp_matrix_holds_the_projection_cells() {
    let p = testing_persp();
    let m = p.0;
    let cot = 1.0f32 / (std::f32::consts::PI / 8.0).tan();
    assert!(rel(m[(0, 0)], cot / 1.5));
    assert!(rel(m[(1, 1)], cot));
    assert!(rel(m[(2, 2)], 1000.1 / (0.1 - 1000.0)));
    assert!(rel(m[(2, 3)], 200.0 / (0.1 - 1000.0)));
    assert_eq!(m[(3, 2)], -1.0);
    assert_eq!(m[(3, 3)], 0.0);
}

#[test]
fn persp_set_aspect_scales_the_first_diagonal_cell() {
    let mut p = testing_persp();
    let m11 = p.0[(1, 1)];
    p.set_aspect(2.0);
    assert_eq!(p.0[(0, 0)], 2.0 * m11);
    assert_eq!(p.0[(1, 1)], m11);
}

#[test]
fn quat_provides_identity_constructor() {
    let q: Quat<f32> = Quat::identity();
    assert_eq!(q.w, 1.0f32);
    assert_eq!(q.i, 0.0f32);
    assert_eq!(q.j, 0.0f32);
    assert_eq!(q.k, 0.0f32);
}

#[test]
fn quat_provides_new_constructor() {
    let q: Quat<f32> = Quat::new(1.0, 2.0, 3.0, 4.0);
    assert_eq!(q.w, 1.0f32);
    assert_eq!(q.i, 2.0f32);
    assert_eq!(q.j, 3.0f32);
    assert_eq!(q.k, 4.0f32);
}

#[test]
fn quat_quat_supports_scalar_multiplication() {
    let a: Quat<f32> = Quat::identity();
    let b: f32 = 2.0;
    assert_eq!(&a * &b, Quat::<f32>::new(2.0, 0.0, 0.0, 0.0));
    assert_eq!(Quat::scalar_mul(&b, &a), Quat::<f32>::new(2.0, 0.0, 0.0, 0.0));
}

#[test]
fn elementwise_quat_supports_scalar_multiplication() {
    let a: Quat<f32> = Quat::new(1.0, 1.0, 1.0, 1.0);
    let b: f32 = 2.0;
    assert_eq!(a * b, Quat::<f32>::new(2.0, 2.0, 2.0, 2.0));
    assert_eq!(Quat::scalar_mul(&b, &a), Quat::<f32>::new(2.0, 2.0, 2.0, 2.0));
}

#[test]
fn mat4_implements_from_ref_quat() {
    let q = Quat::<f32>::identity();
    assert_eq!(Mat4::<f32>::from_quat(&q), Mat4::<f32>::identity());

    let q = Quat::new(1.0f32, 1.0, 1.0, 1.0);
    assert_eq!(Mat4::<f32>::from_quat(&q), Mat4::<f32>::from([0.0, 0.0, 1.0, 0.0, 1.0, 0.0, 0.0, 0.0, 0.0, 1.0, 0.0, 0.0, 0.0, 0.0, 0.0, 1.0]));

    let q = Quat::new(0.0f32, 0.0, 0.0, 0.0);
    assert!(Mat4::<f32>::from_quat(&q).is_nan());
}

#[test]
fn quat_mat4_from_quat_results_in_nan_for_zero_norm() {
    let q = Quat::new(0.0f32, 0.0, 0.0, 0.0);
    let m = Mat4::<f32>::from_quat(&q);
    assert!(m.is_nan());
}

#[test]
fn convert_mat4_from_quat_results_in_nan_for_zero_norm() {
    let q = Unit::from_quat(Quat::new(0.0f32, 0.0, 0.0, 0.0));
    let m = Mat4::from_unit_quat(q);
    assert!(m.is_nan());
}

#[test]
fn quat_implements_norm_method() {
    let q = Quat::new(1.0f32, 1.0, 1.0, 1.0);
    assert_eq!(q.norm(), 2.0f32);
}

#[test]
fn quat_conjugate_negates_the_vector_part() {
    let q = Quat::new(1.0f32, 2.0, -3.0, 4.0);
    assert_eq!(q.c(), Quat::new(1.0, -2.0, 3.0, -4.0));
}

#[test]
fn affine_provides_identity_constructor() {
    let a: Affine<f32> = Affine::identity();
    assert_eq!(a.t, Vec3::<f32>::zero());
    assert_eq!(a.o, Quat::<f32>::identity());
    assert_eq!(a.s, Vec3::<f32>::one());
}

#[test]
fn affine_provides_builder() {
    let a: Affine<f32> = Affine::builder().build();
    assert_eq!(a, Affine::<f32>::identity());

    let a: Affine<f32> = Affine::builder()
        .with_scale(Vec3::from([1.0, 2.0, 3.0]))
        .build();

    assert_eq!(a.s, Vec3::from([1.0, 2.0, 3.0]));
}

#[test]
fn affine_builder_keeps_the_given_parts() {
    let b: AffineBuilder<f32> = AffineBuilder::default()
        .with_translation(Vec3::new(1.0, 2.0, 3.0))
        .with_orientation(Quat::new(0.0, 1.0, 0.0, 0.0));
    let a = b.build();
    assert_eq!(a.t, Vec3::new(1.0, 2.0, 3.0));
    assert_eq!(a.o, Quat::new(0.0, 1.0, 0.0, 0.0));
    assert_eq!(a.s, Vec3::one());
}

#[test]
fn affine_provides_to_matrix_method() {
    let a: Affine<f32> = Affine::identity();
    assert_eq!(a.to_matrix(), Mat4::<f32>::identity());
}

#[test]
fn affine_inverse_of_identity_is_identity() {
    let a: Affine<f32> = Affine::identity();
    assert_eq!(a.inv(), a);
}

#[test]
fn point_and_ray_components() {
    let p = Point3(Vec3::new(1.0f32, 2.0, 3.0));
    assert_eq!((p.x(), p.y(), p.z()), (1.0, 2.0, 3.0));
    assert_eq!(p.to_vec4(), Vec4::new(1.0, 2.0, 3.0, 1.0));
    let r = Ray::new(Vec4::new(0.0f32, 0.0, 0.0, 1.0), Unit(Vec4::new(1.0f32, 0.0, 0.0, 0.0)));
    assert_eq!(r.at(&2.0), Vec4::new(2.0, 0.0, 0.0, 1.0));
    let m: Mat<f32, 1, 1> = Mat::from(4.0f32);
    assert_eq!(m[0], 4.0);
}

#[test]
fn quat_implements_from_ref_mat3() {
    let a: space_kit::glamour::mat::Mat3<f32> = space_kit::glamour::mat::Mat3::identity();
    assert_eq!(Quat::<f32>::from_mat3(&a), Quat::<f32>::identity());
}

#[test]
fn quat_implements_from_mat4() {
    let a: Unit<Quat<f32>> = Unit::from_mat4(Mat4::identity());
    assert_eq!(a, Unit::from_quat(Quat::<f32>::identity()));
}

#[test]
fn affine_implements_try_from_mat4() {
    let m: Mat4<f32> = Mat4::identity();
    assert_eq!(Affine::<f32>::try_from(m), Ok(Affine::<f32>::identity()));
}

#[test]
fn quaternion_of_a_half_turn_about_z() {
    let m: Mat4<f32> = Mat4::new([[-1.0, 0.0, 0.0, 0.0], [0.0, -1.0, 0.0, 0.0], [0.0, 0.0, 1.0, 0.0], [0.0, 0.0, 0.0, 1.0]]);
    let q = Unit::from_mat4(m).into_inner();
    assert!(rel(q.w.abs(), 0.0) && rel(q.i, 0.0) && rel(q.j, 0.0) && rel(q.k.abs(), 1.0));
    let back = Mat4::from_quat(&q);
    for i in 0..4 {
        for j in 0..4 {
            assert!((back[(i, j)] - m[(i, j)]).abs() < 1e-6);
        }
    }
}

#[test]
fn affine_of_a_scaled_translation() {
    let m: Mat4<f32> = Mat4::new([[2.0, 0.0, 0.0, 1.0], [0.0, 3.0, 0.0, 2.0], [0.0, 0.0, 4.0, 3.0], [0.0, 0.0, 0.0, 1.0]]);
    let a = Affine::<f32>::try_from(m).unwrap();
    assert_eq!(a.t, Vec3::new(1.0, 2.0, 3.0));
    assert_eq!(a.s, Vec3::new(2.0, 3.0, 4.0));
    assert_eq!(a.o, Quat::identity());
    assert_eq!(a.to_matrix(), m);
}

#[test]
fn quaternions_and_vectors_convert_both_ways() {
    let v: Vec4<f32> = Vec4::new(1.0, 2.0, 3.0, 4.0);
    let q: Quat<f32> = Quat::from(v);
    assert_eq!(q, Quat::new(4.0, 1.0, 2.0, 3.0));
    let back: Vec4<f32> = Vec4::from(q);
    assert_eq!(back, v);
}
