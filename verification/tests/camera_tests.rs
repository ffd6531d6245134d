//! The camera: projection matrices, the look-at view, and the uniform
//! payload.

use mini3d::component::camera::{
    Camera, CameraType, CameraUniform, DEFAULT_ASPECT_BITS, DEFAULT_FAR_BITS, DEFAULT_FOVY_BITS,
    DEFAULT_NEAR_BITS, DEFAULT_ORTHO_NEAR_BITS, DEFAULT_ORTHO_RIGHT_BITS, DEFAULT_ORTHO_TOP_BITS,
};
use mini3d::component::transform::{Transform, TransformBuild};
use mini3d::{Mat4, Vec3};

fn v3(x: f32, y: f32, z: f32) -> Vec3 {
    Vec3 { x: x.to_bits(), y: y.to_bits(), z: z.to_bits() }
}

fn to_glm_m4(m: &Mat4) -> nalgebra_glm::Mat4 {
    let vals: Vec<f32> = m.m.iter().map(|b| f32::from_bits(*b)).collect();
    nalgebra_glm::Mat4::from_column_slice(&vals)
}

fn to_glm_v3(v: &Vec3) -> nalgebra_glm::Vec3 {
    nalgebra_glm::vec3(f32::from_bits(v.x), f32::from_bits(v.y), f32::from_bits(v.z))
}

#[test]
fn default_parameter_bits_encode_the_documented_values() {
    assert_eq!(DEFAULT_ASPECT_BITS, (16.0f32 / 9.0).to_bits());
    assert_eq!(DEFAULT_ASPECT_BITS, (1280.0f32 / 720.0).to_bits());
    assert_eq!(DEFAULT_FOVY_BITS, 45.0f32.to_bits());
    assert_eq!(DEFAULT_NEAR_BITS, 0.1f32.to_bits());
    assert_eq!(DEFAULT_FAR_BITS, 1000.0f32.to_bits());
    assert_eq!(DEFAULT_ORTHO_RIGHT_BITS, 1280.0f32.to_bits());
    assert_eq!(DEFAULT_ORTHO_TOP_BITS, 720.0f32.to_bits());
    assert_eq!(DEFAULT_ORTHO_NEAR_BITS, 0.025f32.to_bits());
}

#[test]
fn default_perspective_equals_custom_with_default_viewport() {
    let default = Camera::new(CameraType::Perspective);
    let custom = Camera::new(CameraType::PerspectiveCustom {
        aspect: (16.0f32 / 9.0).to_bits(),
        fovy: 45.0f32.to_bits(),
        near: 0.1f32.to_bits(),
        far: 1000.0f32.to_bits(),
    });
    assert_eq!(default.build_projection(), custom.build_projection());
    let expected = nalgebra_glm::perspective_rh(1280.0 / 720.0, 45.0, 0.1, 1000.0);
    assert_eq!(to_glm_m4(&default.build_projection()), expected);
}

#[test]
fn orthographic_projection_matches_glm() {
    let camera = Camera::new(CameraType::Orthographic);
    let expected = nalgebra_glm::ortho_rh(0.0, 1280.0, 0.0, 720.0, 0.025, 1000.0);
    assert_eq!(to_glm_m4(&camera.build_projection()), expected);

    let custom = Camera::new(CameraType::OrthographicCustom {
        left: (-2.0f32).to_bits(),
        right: 2.0f32.to_bits(),
        bottom: (-1.0f32).to_bits(),
        top: 1.0f32.to_bits(),
        znear: 0.5f32.to_bits(),
        zfar: 10.0f32.to_bits(),
    });
    let expected = nalgebra_glm::ortho_rh(-2.0, 2.0, -1.0, 1.0, 0.5, 10.0);
    assert_eq!(to_glm_m4(&custom.build_projection()), expected);
}

#[test]
fn view_matrix_is_look_at_along_forward() {
    let mut t = TransformBuild::new().with_position(v3(0.0, 4.0, -6.0)).build();
    t.add_rotation_global_y(25.0f32.to_bits());
    let camera = Camera::new(CameraType::Perspective);
    let view = camera.build_view(&t);
    let eye = to_glm_v3(&t.get_position());
    let center = eye + to_glm_v3(&t.forward());
    let up = to_glm_v3(&camera.up_dir);
    let expected = nalgebra_glm::look_at_rh(&eye, &center, &up);
    assert_eq!(to_glm_m4(&view), expected);
}

#[test]
fn update_reads_up_from_transform_and_fills_uniform() {
    let mut t = Transform::default();
    t.add_rotation_z(30.0f32.to_bits());
    let mut camera = Camera::new(CameraType::Perspective);
    let payload = camera.update(&t);
    assert_eq!(camera.up_dir, t.up());
    assert_eq!(camera.uniform.projection, camera.build_projection());
    assert_eq!(camera.uniform.view, camera.build_view(&t));
    assert_eq!(payload.len(), 128);
    assert_eq!(payload, camera.uniform.to_bytes());
    let proj = to_glm_m4(&camera.uniform.projection);
    let expected_proj: &[u8] = bytemuck::cast_slice(proj.as_slice());
    assert_eq!(&payload[..64], expected_proj);
    let view = to_glm_m4(&camera.uniform.view);
    let expected_view: &[u8] = bytemuck::cast_slice(view.as_slice());
    assert_eq!(&payload[64..], expected_view);
}

#[test]
fn try_new_screens_degenerate_custom_perspectives() {
    let ok = Camera::try_new(CameraType::PerspectiveCustom {
        aspect: 2.0f32.to_bits(),
        fovy: 1.0f32.to_bits(),
        near: 0.5f32.to_bits(),
        far: 20.0f32.to_bits(),
    })
    .expect("a proper frustum must construct");
    let expected = nalgebra_glm::perspective_rh(2.0, 1.0, 0.5, 20.0);
    assert_eq!(to_glm_m4(&ok.projection), expected);

    assert!(Camera::try_new(CameraType::PerspectiveCustom {
        aspect: 0.0f32.to_bits(),
        fovy: 1.0f32.to_bits(),
        near: 0.5f32.to_bits(),
        far: 20.0f32.to_bits(),
    })
    .is_none());

    assert!(Camera::try_new(CameraType::PerspectiveCustom {
        aspect: 2.0f32.to_bits(),
        fovy: 1.0f32.to_bits(),
        near: 7.0f32.to_bits(),
        far: 7.0f32.to_bits(),
    })
    .is_none());

    assert!(Camera::try_new(CameraType::Perspective).is_some());
    assert!(Camera::try_new(CameraType::Orthographic).is_some());
}

#[test]
fn fresh_uniform_holds_identities() {
    let u = CameraUniform::new();
    assert_eq!(u.projection, Mat4::identity());
    assert_eq!(u.view, Mat4::identity());
    assert_eq!(to_glm_m4(&u.view), nalgebra_glm::Mat4::identity());
}
