//! The frame loop: input consumption, the update plan, draw-command
//! resolution, and the fatal paths for unregistered names.

use mini3d::component::camera::{Camera, CameraType};
use mini3d::component::input::{Input, InputType, Key};
use mini3d::component::render::Render;
use mini3d::component::transform::TransformArena;
use mini3d::engine::{surface_error_action, Engine, Registry, RenderError, SurfaceAction, SurfaceError};
use mini3d::{Transform, Vec3};

fn v3(x: f32, y: f32, z: f32) -> Vec3 {
    Vec3 { x: x.to_bits(), y: y.to_bits(), z: z.to_bits() }
}

fn glm_of(v: &Vec3) -> nalgebra_glm::Vec3 {
    nalgebra_glm::vec3(f32::from_bits(v.x), f32::from_bits(v.y), f32::from_bits(v.z))
}

fn minimal_engine(pipeline: &str, registered: &[&str], bind_groups: &[&str]) -> Engine {
    let mut arena = TransformArena::new();
    let h = arena.push(Transform::default());
    let mut renderables = Vec::new();
    renderables.push((h, Render::new((Vec::new(), Vec::new()), pipeline.to_owned(), None)));
    let mut render_pipelines = Registry::new();
    for name in registered {
        render_pipelines.register((*name).to_owned());
    }
    let mut groups = Registry::new();
    for name in bind_groups {
        groups.register((*name).to_owned());
    }
    Engine {
        arena,
        camera: Camera::new(CameraType::Perspective),
        camera_transform: h,
        renderables,
        render_pipelines,
        bind_groups: groups,
        input: Input::new(),
        config_width: 1280,
        config_height: 720,
    }
}

#[test]
fn demo_scene_resolves_to_three_draws() {
    let engine = Engine::new();
    assert_eq!(engine.render_pipelines.names, vec!["Default", "Line"]);
    assert_eq!(engine.bind_groups.names, vec!["Camera"]);
    assert_eq!(engine.config_width, 1280);
    assert_eq!(engine.config_height, 720);
    let cmds = match engine.render() {
        Ok(cmds) => cmds,
        Err(_) => panic!("demo scene must resolve"),
    };
    assert_eq!(cmds.len(), 3);
    assert_eq!(cmds[0].renderable, 0);
    assert_eq!(cmds[0].pipeline, 0);
    assert_eq!(cmds[0].camera_bind_group, 0);
    assert_eq!(cmds[0].instance_buffer, Some(0));
    assert_eq!(cmds[0].index_count, 3);
    assert_eq!(cmds[1].pipeline, 0);
    assert_eq!(cmds[1].instance_buffer, Some(1));
    assert_eq!(
        cmds[1].index_count as usize,
        engine.renderables[1].1.index_data.len()
    );
    assert_eq!(cmds[2].pipeline, 1);
    assert_eq!(cmds[2].instance_buffer, None);
}

#[test]
fn unregistered_pipeline_is_fatal() {
    let engine = minimal_engine("Nope", &["Default", "Line"], &["Camera"]);
    match engine.render() {
        Err(RenderError::MissingPipeline { name }) => assert_eq!(name, "Nope"),
        _ => panic!("lookup of an unregistered pipeline must fail"),
    }
}

#[test]
fn missing_camera_bind_group_is_fatal() {
    let engine = minimal_engine("Default", &["Default"], &[]);
    match engine.render() {
        Err(RenderError::MissingBindGroup { name }) => assert_eq!(name, "Camera"),
        _ => panic!("lookup of the missing camera bind group must fail"),
    }
}

#[test]
fn keyboard_events_set_action_flags() {
    let mut engine = minimal_engine("Default", &["Default"], &["Camera"]);
    let cases: [(Key, fn(&Input) -> bool); 8] = [
        (Key::A, |i| i.strafe_left),
        (Key::D, |i| i.strafe_right),
        (Key::W, |i| i.dolly_forward),
        (Key::S, |i| i.dolly_back),
        (Key::Q, |i| i.roll_left),
        (Key::E, |i| i.roll_right),
        (Key::LControl, |i| i.vertical_down),
        (Key::Space, |i| i.vertical_up),
    ];
    for (key, read) in cases {
        assert!(engine.input(&InputType::Keyboard { key, active: true }));
        assert!(read(&engine.input));
        assert!(engine.input(&InputType::Keyboard { key, active: false }));
        assert!(!read(&engine.input));
    }
    assert!(!engine.input(&InputType::Keyboard { key: Key::Other, active: true }));
    assert!(engine.input(&InputType::Mouse {
        dx: 3.0f32.to_bits(),
        dy: (-2.0f32).to_bits(),
    }));
    assert_eq!(engine.input.mouse_dx, 3.0f32.to_bits());
    assert_eq!(engine.input.mouse_dy, (-2.0f32).to_bits());
}

#[test]
fn update_moves_camera_by_forward_step_and_resets_mouse() {
    let mut engine = Engine::new();
    engine.input(&InputType::Keyboard { key: Key::W, active: true });
    let before = *engine.arena.get(engine.camera_transform);
    let expected =
        glm_of(&before.get_position()) + glm_of(&before.forward()) * 0.05;
    let plan = engine.update();
    let after = engine.arena.get(engine.camera_transform);
    assert_eq!(
        after.get_position(),
        v3(expected.x, expected.y, expected.z)
    );
    assert_eq!(engine.input.mouse_dx, 0);
    assert_eq!(engine.input.mouse_dy, 0);
    assert_eq!(plan.camera_uniform.len(), 128);
    assert_eq!(plan.camera_uniform, engine.camera.uniform.to_bytes());
}

#[test]
fn update_lays_out_instance_writes_in_scene_order() {
    let mut engine = Engine::new();
    let plan = engine.update();
    assert_eq!(plan.instance_writes.len(), 2);
    assert_eq!(plan.instance_writes[0].0, 0);
    assert_eq!(plan.instance_writes[1].0, 1);
    let triangle_handle = engine.renderables[0].0;
    let quad_handle = engine.renderables[1].0;
    assert_eq!(
        plan.instance_writes[0].1,
        engine.arena.to_raw(triangle_handle).transform
    );
    assert_eq!(
        plan.instance_writes[1].1,
        engine.arena.to_raw(quad_handle).transform
    );
    assert_eq!(plan.instance_writes[0].1.len(), 64);
}

#[test]
fn camera_uniform_reflects_moved_transform() {
    let mut engine = Engine::new();
    engine.input(&InputType::Mouse {
        dx: 4.0f32.to_bits(),
        dy: 1.5f32.to_bits(),
    });
    engine.update();
    let t = engine.arena.get(engine.camera_transform);
    assert_eq!(engine.camera.up_dir, t.up());
    assert_eq!(engine.camera.uniform.view, engine.camera.build_view(t));
}

fn glm_quat_of(t: &Transform) -> nalgebra_glm::Quat {
    let q = t.get_q_rotation();
    nalgebra_glm::quat(
        f32::from_bits(q.x),
        f32::from_bits(q.y),
        f32::from_bits(q.z),
        f32::from_bits(q.w),
    )
}

fn glm_basis(q: &nalgebra_glm::Quat, axis: nalgebra_glm::Vec3) -> nalgebra_glm::Vec3 {
    nalgebra_glm::normalize(&nalgebra_glm::quat_rotate_vec3(q, &axis))
}

fn glm_rotate(q: &nalgebra_glm::Quat, angle_deg: f32, axis: &nalgebra_glm::Vec3) -> nalgebra_glm::Quat {
    let delta = nalgebra_glm::quat_rotate(&nalgebra_glm::quat_identity(), angle_deg.to_radians(), axis);
    nalgebra_glm::quat_normalize(&(q * delta))
}

#[test]
fn controller_composition_matches_direct_float_computation() {
    let mut engine = Engine::new();
    engine.input(&InputType::Keyboard { key: Key::A, active: true });
    engine.input(&InputType::Keyboard { key: Key::E, active: true });
    engine.input(&InputType::Keyboard { key: Key::Space, active: true });
    engine.input(&InputType::Mouse {
        dx: 6.0f32.to_bits(),
        dy: (-2.5f32).to_bits(),
    });

    // Replay the controller with nalgebra-glm directly, in the update
    // phase's fixed order.
    let before = *engine.arena.get(engine.camera_transform);
    let mut pos = glm_of(&before.get_position());
    let mut q = glm_quat_of(&before);
    // Strafe left: step along the current right axis.
    pos += glm_basis(&q, nalgebra_glm::Vec3::x()) * 0.05;
    // Roll right: a tenth of a degree about the current forward axis.
    q = glm_rotate(&q, 0.1, &glm_basis(&q, nalgebra_glm::Vec3::z()));
    // Vertical up: step along the world y axis.
    pos += nalgebra_glm::Vec3::y() * 0.05;
    // Mouse look: pitch about the current right axis, then yaw about the
    // world y axis scaled by the sign of the up direction's y component.
    q = glm_rotate(&q, -(-2.5f32) * 0.5, &glm_basis(&q, nalgebra_glm::Vec3::x()));
    let up_y = glm_basis(&q, nalgebra_glm::Vec3::y()).y;
    q = glm_rotate(&q, 6.0 * 0.5 * up_y.signum(), &nalgebra_glm::Vec3::y());

    engine.update();
    let after = engine.arena.get(engine.camera_transform);
    assert_eq!(after.get_position(), v3(pos.x, pos.y, pos.z));
    let got = after.get_q_rotation();
    assert_eq!(
        [got.x, got.y, got.z, got.w],
        [
            q.coords.x.to_bits(),
            q.coords.y.to_bits(),
            q.coords.z.to_bits(),
            q.coords.w.to_bits(),
        ]
    );
    let expected_euler = nalgebra_glm::degrees(&nalgebra_glm::quat_euler_angles(&q));
    assert_eq!(
        after.get_rotation(),
        v3(expected_euler.x, expected_euler.y, expected_euler.z)
    );
}

#[test]
fn empty_scene_renders_no_commands() {
    let mut engine = minimal_engine("Default", &["Default"], &["Camera"]);
    engine.renderables.clear();
    let cmds = match engine.render() {
        Ok(cmds) => cmds,
        Err(_) => panic!("an empty scene must resolve"),
    };
    assert!(cmds.is_empty());
}

#[test]
fn duplicate_registry_names_resolve_to_the_first() {
    let mut registry = Registry::new();
    let first = registry.register("Default".to_owned());
    let _second = registry.register("Default".to_owned());
    assert_eq!(registry.lookup(&"Default".to_owned()), Some(first));
    assert_eq!(registry.lookup(&"Missing".to_owned()), None);
}

#[test]
fn idle_frame_leaves_camera_pose_unchanged() {
    let mut engine = Engine::new();
    let before = *engine.arena.get(engine.camera_transform);
    engine.update();
    let after = engine.arena.get(engine.camera_transform);
    assert_eq!(after.get_position(), before.get_position());
    assert_eq!(after.get_q_rotation(), before.get_q_rotation());
    assert_eq!(after.get_rotation(), before.get_rotation());
    assert_eq!(after.get_matrix(), before.get_matrix());
}

#[test]
fn surface_failures_follow_the_stated_policy() {
    assert_eq!(surface_error_action(&SurfaceError::Lost), SurfaceAction::Reconfigure);
    assert_eq!(surface_error_action(&SurfaceError::OutOfMemory), SurfaceAction::Exit);
    assert_eq!(surface_error_action(&SurfaceError::Outdated), SurfaceAction::Skip);
    assert_eq!(surface_error_action(&SurfaceError::Timeout), SurfaceAction::Skip);
}

#[test]
fn zero_sized_resize_is_ignored() {
    let mut engine = minimal_engine("Default", &["Default"], &["Camera"]);
    engine.resize(0, 50);
    assert_eq!((engine.config_width, engine.config_height), (1280, 720));
    engine.resize(800, 600);
    assert_eq!((engine.config_width, engine.config_height), (800, 600));
}
