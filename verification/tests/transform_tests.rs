//! The transform hierarchy: rotation state, basis vectors, the canonical
//! local matrix, and world-matrix composition through the arena.

use mini3d::component::transform::{Transform, TransformArena, TransformBuild};
use mini3d::{Mat4, Quat, Vec3};

fn v3(x: f32, y: f32, z: f32) -> Vec3 {
    Vec3 { x: x.to_bits(), y: y.to_bits(), z: z.to_bits() }
}

fn f(v: &Vec3) -> [f32; 3] {
    [f32::from_bits(v.x), f32::from_bits(v.y), f32::from_bits(v.z)]
}

fn quat_norm(q: &Quat) -> f32 {
    let [x, y, z, w] = [
        f32::from_bits(q.x),
        f32::from_bits(q.y),
        f32::from_bits(q.z),
        f32::from_bits(q.w),
    ];
    (x * x + y * y + z * z + w * w).sqrt()
}

fn to_glm_m4(m: &Mat4) -> nalgebra_glm::Mat4 {
    let vals: Vec<f32> = m.m.iter().map(|b| f32::from_bits(*b)).collect();
    nalgebra_glm::Mat4::from_column_slice(&vals)
}

fn dot(a: [f32; 3], b: [f32; 3]) -> f32 {
    a[0] * b[0] + a[1] * b[1] + a[2] * b[2]
}

fn norm(a: [f32; 3]) -> f32 {
    dot(a, a).sqrt()
}

#[test]
fn default_transform_is_identity_pose() {
    let t = Transform::default();
    assert_eq!(t.get_position(), v3(0.0, 0.0, 0.0));
    assert_eq!(t.get_q_rotation(), Quat { x: 0, y: 0, z: 0, w: 1.0f32.to_bits() });
    assert_eq!(t.get_size(), v3(1.0, 1.0, 1.0));
    let expected = nalgebra_glm::translation(&nalgebra_glm::vec3(0.0, 0.0, 0.0))
        * nalgebra_glm::quat_to_mat4(&nalgebra_glm::quat_identity())
        * nalgebra_glm::scaling(&nalgebra_glm::vec3(1.0, 1.0, 1.0));
    assert_eq!(to_glm_m4(&t.get_matrix()), expected);
}

#[test]
fn rotations_keep_unit_quaternion() {
    let mut t = Transform::default();
    t.add_rotation_x(33.0f32.to_bits());
    t.add_rotation_y((-71.5f32).to_bits());
    t.add_rotation_z(15.25f32.to_bits());
    t.add_rotation_global_x(120.0f32.to_bits());
    t.add_rotation_global_y(5.0f32.to_bits());
    t.add_rotation_global_z((-640.0f32).to_bits());
    t.add_rotation_axis(42.0f32.to_bits(), v3(0.0, 0.0, 1.0));
    // The rotation normalizes its axis itself, so a non-unit axis keeps
    // the orientation unit length too.
    t.add_rotation_axis((-77.0f32).to_bits(), v3(0.3, -2.0, 5.0));
    assert!((quat_norm(&t.get_q_rotation()) - 1.0).abs() < 1e-6);
}

#[test]
fn basis_vectors_are_orthonormal() {
    let mut t = Transform::default();
    t.add_rotation_x(25.0f32.to_bits());
    t.add_rotation_global_y(130.0f32.to_bits());
    t.add_rotation_z((-48.0f32).to_bits());
    let fwd = f(&t.forward());
    let up = f(&t.up());
    let right = f(&t.right());
    assert!((norm(fwd) - 1.0).abs() < 1e-6);
    assert!((norm(up) - 1.0).abs() < 1e-6);
    assert!((norm(right) - 1.0).abs() < 1e-6);
    assert!(dot(fwd, up).abs() < 1e-6);
    assert!(dot(fwd, right).abs() < 1e-6);
    assert!(dot(up, right).abs() < 1e-6);
}

#[test]
fn global_y_quarter_turn_sends_forward_to_old_right() {
    let mut t = Transform::default();
    let old_right = f(&t.right());
    t.add_rotation_global_y(90.0f32.to_bits());
    let fwd = f(&t.forward());
    for k in 0..3 {
        assert!((fwd[k] - old_right[k]).abs() < 1e-6);
    }
}

#[test]
fn set_position_overwrites_rather_than_accumulates() {
    let p1 = v3(5.0, -2.0, 9.0);
    let p2 = v3(-1.0, 3.0, 0.5);
    let mut twice = Transform::default();
    twice.set_position(p1);
    twice.set_position(p2);
    let mut once = Transform::default();
    once.set_position(p2);
    assert_eq!(twice.get_position(), p2);
    assert_eq!(twice.get_matrix(), once.get_matrix());
    let m = to_glm_m4(&twice.get_matrix());
    assert_eq!(m[(0, 3)].to_bits(), p2.x);
    assert_eq!(m[(1, 3)].to_bits(), p2.y);
    assert_eq!(m[(2, 3)].to_bits(), p2.z);
}

#[test]
fn add_position_translates_by_delta() {
    let mut t = Transform::default();
    t.set_position(v3(1.0, 2.0, 3.0));
    t.add_position(v3(0.5, -1.0, 0.25));
    let expected = nalgebra_glm::vec3(1.0, 2.0, 3.0) + nalgebra_glm::vec3(0.5, -1.0, 0.25);
    assert_eq!(t.get_position(), v3(expected.x, expected.y, expected.z));
}

#[test]
fn builder_rotation_matches_glm_euler_composition() {
    let b = TransformBuild::new().with_rotation(v3(10.0, -90.0, 30.0));
    let t = b.build();
    let rx = nalgebra_glm::quat_rotate(
        &nalgebra_glm::quat_identity(),
        10.0f32.to_radians(),
        &nalgebra_glm::Vec3::x(),
    );
    let ry = nalgebra_glm::quat_rotate(
        &nalgebra_glm::quat_identity(),
        (-90.0f32).to_radians(),
        &nalgebra_glm::Vec3::y(),
    );
    let rz = nalgebra_glm::quat_rotate(
        &nalgebra_glm::quat_identity(),
        30.0f32.to_radians(),
        &nalgebra_glm::Vec3::z(),
    );
    let expected = nalgebra_glm::quat_normalize(&(rx * ry * rz));
    let q = t.get_q_rotation();
    assert_eq!(
        [q.x, q.y, q.z, q.w],
        [
            expected.coords.x.to_bits(),
            expected.coords.y.to_bits(),
            expected.coords.z.to_bits(),
            expected.coords.w.to_bits(),
        ]
    );
    assert!((quat_norm(&q) - 1.0).abs() < 1e-6);
}

#[test]
fn local_rotation_reads_basis_before_mutating() {
    // Pitching about the transform's own right axis must use the right
    // axis of the state before the call.
    let mut t = Transform::default();
    t.add_rotation_global_y(90.0f32.to_bits());
    let right_before = t.right();
    let mut expected = t;
    expected.add_rotation_axis(30.0f32.to_bits(), right_before);
    t.add_rotation_x(30.0f32.to_bits());
    assert_eq!(t.get_q_rotation(), expected.get_q_rotation());
}

#[test]
fn root_world_matrix_is_local_matrix() {
    let mut arena = TransformArena::new();
    let h = arena.push(TransformBuild::new().with_position(v3(1.0, 2.0, 3.0)).build());
    assert_eq!(arena.world_matrix(h), arena.get(h).get_matrix());
    assert_eq!(arena.get_parent_matrix(h), Mat4::identity());
}

#[test]
fn chain_world_matrix_is_left_to_right_product() {
    let mut arena = TransformArena::new();
    let a = arena.push(TransformBuild::new().with_position(v3(1.0, 0.0, 0.0)).build());
    let b = arena.push(
        TransformBuild::new().with_position(v3(0.0, 2.0, 0.0)).with_parent(a).build(),
    );
    let c = arena.push(
        TransformBuild::new().with_position(v3(0.0, 0.0, 3.0)).with_parent(b).build(),
    );
    let ma = to_glm_m4(&arena.get(a).get_matrix());
    let mb = to_glm_m4(&arena.get(b).get_matrix());
    let mc = to_glm_m4(&arena.get(c).get_matrix());
    let expected = (ma * mb) * mc;
    assert_eq!(to_glm_m4(&arena.world_matrix(c)), expected);
    assert_eq!(to_glm_m4(&arena.get_parent_matrix(c)), ma * mb);
}

#[test]
fn to_raw_serializes_world_matrix() {
    let mut arena = TransformArena::new();
    let a = arena.push(TransformBuild::new().with_position(v3(1.0, 2.0, 3.0)).build());
    let b = arena.push(
        TransformBuild::new().with_position(v3(-4.0, 0.0, 0.5)).with_parent(a).build(),
    );
    let raw = arena.to_raw(b);
    assert_eq!(raw.transform.len(), 64);
    let world = to_glm_m4(&arena.world_matrix(b));
    let expected: &[u8] = bytemuck::cast_slice(world.as_slice());
    assert_eq!(raw.transform, expected);
}

#[test]
fn euler_cache_tracks_orientation_in_degrees() {
    let mut t = Transform::default();
    t.add_rotation_global_x(40.0f32.to_bits());
    let q = t.get_q_rotation();
    let gq = nalgebra_glm::quat(
        f32::from_bits(q.x),
        f32::from_bits(q.y),
        f32::from_bits(q.z),
        f32::from_bits(q.w),
    );
    let expected = nalgebra_glm::degrees(&nalgebra_glm::quat_euler_angles(&gq));
    assert_eq!(t.get_rotation(), v3(expected.x, expected.y, expected.z));
}
