//! The frame loop core: the scene (transform arena plus components), the
//! name registries for pipelines and bind groups, and the two per-frame
//! phases.  `update` applies the consumed input to the camera transform,
//! refreshes the camera uniform and lays out every GPU buffer write;
//! `render` resolves every renderable against the registries into draw
//! commands, failing fatally on an unregistered name.  A backend carries
//! the plans out in order: all buffer writes of a frame before its draws.

use crate::component::camera::{projection_ok, uniform_bytes_of, view_of, Camera};
use crate::component::input::{input_default, Input, InputType, Key};
use crate::component::render::{DrawCommand, Render};
use crate::component::camera::CameraType;
use crate::component::transform::{
    basis_forward, basis_right, basis_up, default_transform, euler_quat_of, spec_moved,
    spec_rotated, world_of, Transform, TransformArena, TransformBuild,
};
use crate::shapes::{
    create_grid, create_quad_marching_squares, grid_cells, grid_vertices, lemma_grid_cells_len,
    lemma_march_meshes_len, march_meshes, zero_indices,
};
use crate::vertex_type::{
    default_vertices_le_bytes, default_vertices_to_bytes, line_vertices_le_bytes,
    line_vertices_to_bytes, DefaultVertex,
};
use crate::math::{
    axis_y_v, f32_mul_of, f32_signum, f32_signum_of, flip_sign, mat4_le_bytes,
    spec_flip_sign, vec3_add_of, vec3_scale_of, vec3_sub_of, f32_mul, vec3_add, vec3_scale,
    vec3_sub, Scalar, Vec3, HALF_BITS,
};
use vstd::prelude::*;

verus! {

/// Bit pattern of the per-frame movement step, 0.05.
pub const MOVE_STEP_BITS: Scalar = 0x3D4C_CCCD;

/// Bit pattern of the per-frame roll increment, 0.1 degrees.
pub const ROLL_STEP_BITS: Scalar = 0x3DCC_CCCD;

/// A string-keyed registry of backend objects; a handle is the position at
/// which a name was registered.
#[derive(Debug)]
pub struct Registry {
    pub names: Vec<String>,
}

impl Registry {
    /// The registered names, in registration order.
    pub open spec fn view(self) -> Seq<String> {
        self.names@
    }

    /// Some registered name reads `name`.
    pub open spec fn contains_name(self, name: Seq<char>) -> bool {
        exists|k: int| 0 <= k < self@.len() && (#[trigger] self@[k])@ == name
    }

    /// Handle `h` is the first registration of `name`.
    pub open spec fn resolves(self, name: Seq<char>, h: int) -> bool {
        &&& 0 <= h < self@.len()
        &&& self@[h]@ == name
        &&& forall|k: int| 0 <= k < h ==> (#[trigger] self@[k])@ != name
    }

    /// An empty registry.
    pub fn new() -> (r: Registry)
        ensures
            r@ == Seq::<String>::empty(),
    {
        Registry { names: Vec::new() }
    }

    /// Registers a name and hands back its handle.
    pub fn register(&mut self, name: String) -> (h: usize)
        ensures
            final(self)@ == old(self)@.push(name),
            h == old(self)@.len(),
    {
        let h = self.names.len();
        self.names.push(name);
        h
    }

    /// The handle of the first registration of `name`, if there is one.
    pub fn lookup(&self, name: &String) -> (r: Option<usize>)
        ensures
            match r {
                Some(h) => self.resolves(name@, h as int),
                None => !self.contains_name(name@),
            },
    {
        let n = self.names.len();
        for k in 0..n
            invariant
                n == self@.len(),
                forall|j: int| 0 <= j < k ==> (#[trigger] self@[j])@ != name@,
        {
            if self.names[k] == *name {
                return Some(k);
            }
        }
        None
    }
}

/// The fatal failures of the render phase: a registry key that nothing was
/// registered under.  There is no silent fallback; the caller is expected
/// to terminate.
#[derive(Debug)]
pub enum RenderError {
    /// A renderable names a pipeline that is not in the registry.
    MissingPipeline { name: String },
    /// The shared camera bind group is not in the registry.
    MissingBindGroup { name: String },
}

/// Everything the update phase asks of the backend, in order: first the
/// camera uniform write, then the per-instance buffer writes.
#[derive(Debug)]
pub struct UpdatePlan {
    /// The 128-byte payload for the camera uniform buffer.
    pub camera_uniform: Vec<u8>,
    /// For each renderable entity that owns a transform buffer, in scene
    /// order: the backend handle of that buffer and its 64-byte payload.
    pub instance_writes: Vec<(usize, Vec<u8>)>,
}

/// The camera transform after one frame of controller input: the held
/// movement keys, then the roll keys, then the vertical keys, then the
/// mouse look, applied in the fixed order of the update phase.  Each step
/// reads the bases of the state the previous steps left.  A mouse axis
/// whose delta bits are zero is skipped rather than composed as a
/// zero-angle rotation, so a frame without input provably leaves the
/// transform untouched (see [`lemma_idle_input_keeps_transform`]).
pub open spec fn apply_controller(t: Transform, inp: Input) -> Transform {
    let t1 = if inp.strafe_left {
        spec_moved(
            t,
            vec3_add_of(t.position, vec3_scale_of(basis_right(t.q_rotation), MOVE_STEP_BITS)),
        )
    } else {
        t
    };
    let t2 = if inp.strafe_right {
        spec_moved(
            t1,
            vec3_sub_of(t1.position, vec3_scale_of(basis_right(t1.q_rotation), MOVE_STEP_BITS)),
        )
    } else {
        t1
    };
    let t3 = if inp.dolly_forward {
        spec_moved(
            t2,
            vec3_add_of(t2.position, vec3_scale_of(basis_forward(t2.q_rotation), MOVE_STEP_BITS)),
        )
    } else {
        t2
    };
    let t4 = if inp.dolly_back {
        spec_moved(
            t3,
            vec3_sub_of(t3.position, vec3_scale_of(basis_forward(t3.q_rotation), MOVE_STEP_BITS)),
        )
    } else {
        t3
    };
    let t5 = if inp.roll_left {
        spec_rotated(t4, spec_flip_sign(ROLL_STEP_BITS), basis_forward(t4.q_rotation))
    } else {
        t4
    };
    let t6 = if inp.roll_right {
        spec_rotated(t5, ROLL_STEP_BITS, basis_forward(t5.q_rotation))
    } else {
        t5
    };
    let t7 = if inp.vertical_down {
        spec_moved(t6, vec3_sub_of(t6.position, vec3_scale_of(axis_y_v(), MOVE_STEP_BITS)))
    } else {
        t6
    };
    let t8 = if inp.vertical_up {
        spec_moved(t7, vec3_add_of(t7.position, vec3_scale_of(axis_y_v(), MOVE_STEP_BITS)))
    } else {
        t7
    };
    let t9 = if inp.mouse_dy == 0 {
        t8
    } else {
        spec_rotated(
            t8,
            f32_mul_of(spec_flip_sign(inp.mouse_dy), HALF_BITS),
            basis_right(t8.q_rotation),
        )
    };
    if inp.mouse_dx == 0 {
        t9
    } else {
        spec_rotated(
            t9,
            f32_mul_of(
                f32_mul_of(inp.mouse_dx, HALF_BITS),
                f32_signum_of(basis_up(t9.q_rotation).y),
            ),
            axis_y_v(),
        )
    }
}

/// A frame with no action held and a zero mouse delta leaves the camera
/// transform exactly as it was: every controller step is skipped.
pub proof fn lemma_idle_input_keeps_transform(t: Transform)
    ensures
        apply_controller(t, input_default()) == t,
{
}

/// The per-instance buffer writes for the first `n` renderables: for each
/// one that owns a transform buffer, in order, the handle of that buffer
/// and the serialized world matrix of the renderable's transform.
pub open spec fn instance_writes_of(
    ts: Seq<Transform>,
    rs: Seq<(usize, Render)>,
    n: int,
) -> Seq<(usize, Seq<u8>)>
    decreases n,
{
    if n <= 0 {
        Seq::empty()
    } else {
        let prev = instance_writes_of(ts, rs, n - 1);
        match rs[n - 1].1.transform_buffer {
            Some(b) => prev.push((b, mat4_le_bytes(world_of(ts, rs[n - 1].0 as int)))),
            None => prev,
        }
    }
}

/// The per-frame failures a backend can report when acquiring the surface
/// it presents to, as plain values.
#[derive(Clone, Copy, Debug, PartialEq, Eq)]
pub enum SurfaceError {
    /// The surface was lost and must be configured again.
    Lost,
    /// The surface no longer matches the window and a frame was skipped.
    Outdated,
    /// Acquiring the next frame took too long.
    Timeout,
    /// The surface could not be allocated.
    OutOfMemory,
}

/// What the frame loop does about a surface failure.
#[derive(Clone, Copy, Debug, PartialEq, Eq)]
pub enum SurfaceAction {
    /// Configure the surface again at the current size and go on with the
    /// next frame.
    Reconfigure,
    /// Terminate the process.
    Exit,
    /// Skip the frame and go on.
    Skip,
}

/// The frame loop's policy for surface failures: a lost surface is
/// reconfigured and retried next frame, an out-of-memory surface
/// terminates, and every other failure is transient and skipped.  The
/// backend reports the failure and carries the action out.
pub fn surface_error_action(error: &SurfaceError) -> (r: SurfaceAction)
    ensures
        r == match *error {
            SurfaceError::Lost => SurfaceAction::Reconfigure,
            SurfaceError::OutOfMemory => SurfaceAction::Exit,
            _ => SurfaceAction::Skip,
        },
{
    match *error {
        SurfaceError::Lost => SurfaceAction::Reconfigure,
        SurfaceError::OutOfMemory => SurfaceAction::Exit,
        SurfaceError::Outdated => SurfaceAction::Skip,
        SurfaceError::Timeout => SurfaceAction::Skip,
    }
}

/// The engine: the scene, the registries, the input state and the surface
/// configuration.  The GPU objects the names and handles stand for live in
/// the backend.
pub struct Engine {
    /// All transforms of the scene.
    pub arena: TransformArena,
    /// The one camera of the scene.
    pub camera: Camera,
    /// Arena handle of the transform the camera is attached to.
    pub camera_transform: usize,
    /// The renderable entities: each an arena handle and a renderable.
    pub renderables: Vec<(usize, Render)>,
    /// The compiled pipelines, by name.
    pub render_pipelines: Registry,
    /// The bind groups, by name.
    pub bind_groups: Registry,
    /// The input state the next update consumes.
    pub input: Input,
    /// The surface width in pixels.
    pub config_width: u32,
    /// The surface height in pixels.
    pub config_height: u32,
}

impl Engine {
    /// Every handle held by the scene points into the arena, and the
    /// camera's kind has a defined projection.
    pub open spec fn wf(self) -> bool {
        &&& self.arena.wf()
        &&& self.camera_transform < self.arena@.len()
        &&& forall|i: int|
            0 <= i < self.renderables@.len() ==> (#[trigger] self.renderables@[i]).0
                < self.arena@.len()
        &&& projection_ok(self.camera.camera_type)
    }

    /// Feeds one input event into the input state.  A key the controller
    /// listens to sets its action flag to the key's held state and is
    /// consumed; a mouse sample replaces the stored mouse delta and is
    /// consumed; anything else leaves the state alone.
    pub fn input(&mut self, event: &InputType) -> (consumed: bool)
        ensures
            *final(self) == (Engine { input: final(self).input, ..*old(self) }),
            match *event {
                InputType::Keyboard { key, active } => match key {
                    Key::A => final(self).input == (Input {
                        strafe_left: active,
                        ..old(self).input
                    }) && consumed,
                    Key::D => final(self).input == (Input {
                        strafe_right: active,
                        ..old(self).input
                    }) && consumed,
                    Key::W => final(self).input == (Input {
                        dolly_forward: active,
                        ..old(self).input
                    }) && consumed,
                    Key::S => final(self).input == (Input {
                        dolly_back: active,
                        ..old(self).input
                    }) && consumed,
                    Key::Q => final(self).input == (Input {
                        roll_left: active,
                        ..old(self).input
                    }) && consumed,
                    Key::E => final(self).input == (Input {
                        roll_right: active,
                        ..old(self).input
                    }) && consumed,
                    Key::LControl => final(self).input == (Input {
                        vertical_down: active,
                        ..old(self).input
                    }) && consumed,
                    Key::Space => final(self).input == (Input {
                        vertical_up: active,
                        ..old(self).input
                    }) && consumed,
                    Key::Other => final(self).input == old(self).input && !consumed,
                },
                InputType::Mouse { dx, dy } => final(self).input == (Input {
                    mouse_dx: dx,
                    mouse_dy: dy,
                    ..old(self).input
                }) && consumed,
            },
    {
        match *event {
            InputType::Keyboard { key, active } => match key {
                Key::A => {
                    self.input.strafe_left = active;
                    true
                },
                Key::D => {
                    self.input.strafe_right = active;
                    true
                },
                Key::W => {
                    self.input.dolly_forward = active;
                    true
                },
                Key::S => {
                    self.input.dolly_back = active;
                    true
                },
                Key::Q => {
                    self.input.roll_left = active;
                    true
                },
                Key::E => {
                    self.input.roll_right = active;
                    true
                },
                Key::LControl => {
                    self.input.vertical_down = active;
                    true
                },
                Key::Space => {
                    self.input.vertical_up = active;
                    true
                },
                Key::Other => false,
            },
            InputType::Mouse { dx, dy } => {
                self.input.mouse_dx = dx;
                self.input.mouse_dy = dy;
                true
            },
        }
    }

    /// Applies one frame of controller input to the camera transform.
    fn run_controller(&mut self)
        requires
            old(self).wf(),
        ensures
            *final(self) == (Engine { arena: final(self).arena, ..*old(self) }),
            final(self).arena@ == old(self).arena@.update(
                old(self).camera_transform as int,
                apply_controller(
                    old(self).arena@[old(self).camera_transform as int],
                    old(self).input,
                ),
            ),
            final(self).wf(),
    {
        let ghost arena0 = self.arena@;
        let ghost inp = self.input;
        let ct = self.camera_transform;
        let strafe_left = self.input.strafe_left;
        let strafe_right = self.input.strafe_right;
        let dolly_forward = self.input.dolly_forward;
        let dolly_back = self.input.dolly_back;
        let roll_left = self.input.roll_left;
        let roll_right = self.input.roll_right;
        let vertical_down = self.input.vertical_down;
        let vertical_up = self.input.vertical_up;
        let mouse_dx = self.input.mouse_dx;
        let mouse_dy = self.input.mouse_dy;
        let t = self.arena.get_mut(ct);
        if strafe_left {
            let p = t.get_position();
            let right = t.right();
            t.set_position(vec3_add(p, vec3_scale(right, MOVE_STEP_BITS)));
        }
        if strafe_right {
            let p = t.get_position();
            let right = t.right();
            t.set_position(vec3_sub(p, vec3_scale(right, MOVE_STEP_BITS)));
        }
        if dolly_forward {
            let p = t.get_position();
            let forward = t.forward();
            t.set_position(vec3_add(p, vec3_scale(forward, MOVE_STEP_BITS)));
        }
        if dolly_back {
            let p = t.get_position();
            let forward = t.forward();
            t.set_position(vec3_sub(p, vec3_scale(forward, MOVE_STEP_BITS)));
        }
        if roll_left {
            t.add_rotation_z(flip_sign(ROLL_STEP_BITS));
        }
        if roll_right {
            t.add_rotation_z(ROLL_STEP_BITS);
        }
        if vertical_down {
            let p = t.get_position();
            let y = crate::math::axis_y();
            t.set_position(vec3_sub(p, vec3_scale(y, MOVE_STEP_BITS)));
        }
        if vertical_up {
            let p = t.get_position();
            let y = crate::math::axis_y();
            t.set_position(vec3_add(p, vec3_scale(y, MOVE_STEP_BITS)));
        }
        if mouse_dy != 0 {
            t.add_rotation_x(f32_mul(flip_sign(mouse_dy), HALF_BITS));
        }
        if mouse_dx != 0 {
            let up = t.up();
            t.add_rotation_global_y(f32_mul(f32_mul(mouse_dx, HALF_BITS), f32_signum(up.y)));
        }
        proof {
            assert(*t == apply_controller(arena0[ct as int], inp));
            assert(t.parent == arena0[ct as int].parent);
            old(self).arena.lemma_update_same_parent_keeps_wf(ct as int, *t);
        }
    }

    /// The update phase of one frame.  Applies the input to the camera
    /// transform, resets the consumed mouse delta, refreshes the camera
    /// uniform from the moved transform, and lays out the buffer write of
    /// every transform-owning renderable's world matrix.  All the
    /// mutations are applied before any write payload is produced.
    pub fn update(&mut self) -> (plan: UpdatePlan)
        requires
            old(self).wf(),
        ensures
            final(self).wf(),
            final(self).arena@ == old(self).arena@.update(
                old(self).camera_transform as int,
                apply_controller(
                    old(self).arena@[old(self).camera_transform as int],
                    old(self).input,
                ),
            ),
            final(self).input == (Input { mouse_dx: 0, mouse_dy: 0, ..old(self).input }),
            final(self).camera.camera_type == old(self).camera.camera_type,
            final(self).camera.uniform.view == view_of(
                final(self).arena@[old(self).camera_transform as int],
                basis_up(final(self).arena@[old(self).camera_transform as int].q_rotation),
            ),
            final(self).camera.uniform.projection == crate::component::camera::projection_of(
                old(self).camera.camera_type,
            ),
            plan.camera_uniform@ == uniform_bytes_of(final(self).camera.uniform),
            plan.camera_uniform@.len() == 128,
            plan.instance_writes@.len() == instance_writes_of(
                final(self).arena@,
                old(self).renderables@,
                old(self).renderables@.len() as int,
            ).len(),
            forall|k: int|
                0 <= k < plan.instance_writes@.len() ==> {
                    let w = instance_writes_of(
                        final(self).arena@,
                        old(self).renderables@,
                        old(self).renderables@.len() as int,
                    )[k];
                    (#[trigger] plan.instance_writes@[k]).0 == w.0
                        && plan.instance_writes@[k].1@ == w.1
                },
            final(self).renderables@ == old(self).renderables@,
            final(self).camera_transform == old(self).camera_transform,
            final(self).render_pipelines@ == old(self).render_pipelines@,
            final(self).bind_groups@ == old(self).bind_groups@,
            final(self).config_width == old(self).config_width,
            final(self).config_height == old(self).config_height,
    {
        self.run_controller();
        self.input.mouse_dx = 0;
        self.input.mouse_dy = 0;
        let ct = self.camera_transform;
        let camera_uniform = {
            let t = self.arena.get(ct);
            let moved = *t;
            self.camera.update(&moved)
        };
        let mut instance_writes: Vec<(usize, Vec<u8>)> = Vec::new();
        let n = self.renderables.len();
        for i in 0..n
            invariant
                n == self.renderables@.len(),
                self.wf(),
                instance_writes@.len() == instance_writes_of(
                    self.arena@,
                    self.renderables@,
                    i as int,
                ).len(),
                forall|k: int|
                    0 <= k < instance_writes@.len() ==> {
                        let w = instance_writes_of(self.arena@, self.renderables@, i as int)[k];
                        (#[trigger] instance_writes@[k]).0 == w.0 && instance_writes@[k].1@ == w.1
                    },
        {
            let ghost before = instance_writes_of(self.arena@, self.renderables@, i as int);
            let h = self.renderables[i].0;
            match self.renderables[i].1.transform_buffer {
                Some(b) => {
                    let raw = self.arena.to_raw(h);
                    instance_writes.push((b, raw.transform));
                    proof {
                        let after = instance_writes_of(
                            self.arena@,
                            self.renderables@,
                            i + 1 as int,
                        );
                        assert(after == before.push(
                            (b, mat4_le_bytes(world_of(self.arena@, h as int))),
                        ));
                    }
                },
                None => {
                    proof {
                        assert(instance_writes_of(self.arena@, self.renderables@, i + 1 as int)
                            == before);
                    }
                },
            }
        }
        UpdatePlan { camera_uniform, instance_writes }
    }

    /// The render phase of one frame: one draw command per renderable, in
    /// scene order, each resolved against the registries.  A pipeline name
    /// or the camera bind group missing from its registry is fatal: the
    /// frame yields an error naming the missing key, and no command list.
    pub fn render(&self) -> (r: Result<Vec<DrawCommand>, RenderError>)
        ensures
            r is Ok <==> self.bind_groups.contains_name("Camera"@) && (forall|i: int|
                0 <= i < self.renderables@.len() ==> self.render_pipelines.contains_name(
                    (#[trigger] self.renderables@[i]).1.pipeline@,
                )),
            match r {
                Ok(cmds) => {
                    &&& cmds@.len() == self.renderables@.len()
                    &&& forall|i: int|
                        0 <= i < cmds@.len() ==> {
                            let rend = self.renderables@[i].1;
                            let c = #[trigger] cmds@[i];
                            &&& c.renderable == i
                            &&& self.render_pipelines.resolves(rend.pipeline@, c.pipeline as int)
                            &&& self.bind_groups.resolves("Camera"@, c.camera_bind_group as int)
                            &&& c.instance_buffer == rend.transform_buffer
                            &&& c.index_count == rend.index_count
                        }
                },
                Err(e) => match e {
                    RenderError::MissingBindGroup { name } => {
                        &&& name@ == "Camera"@
                        &&& !self.bind_groups.contains_name("Camera"@)
                    },
                    RenderError::MissingPipeline { name } => {
                        &&& self.bind_groups.contains_name("Camera"@)
                        &&& !self.render_pipelines.contains_name(name@)
                        &&& exists|i: int|
                            0 <= i < self.renderables@.len() && (#[trigger] self.renderables@[i]).1.pipeline@
                                == name@
                    },
                },
            },
    {
        let camera_name: String = "Camera".to_owned();
        let camera_bind_group = match self.bind_groups.lookup(&camera_name) {
            Some(h) => h,
            None => {
                return Err(RenderError::MissingBindGroup { name: camera_name });
            },
        };
        let mut cmds: Vec<DrawCommand> = Vec::new();
        let n = self.renderables.len();
        for i in 0..n
            invariant
                n == self.renderables@.len(),
                self.bind_groups.resolves("Camera"@, camera_bind_group as int),
                cmds@.len() == i,
                forall|j: int|
                    0 <= j < i ==> {
                        let rend = self.renderables@[j].1;
                        let c = #[trigger] cmds@[j];
                        &&& c.renderable == j
                        &&& self.render_pipelines.resolves(rend.pipeline@, c.pipeline as int)
                        &&& self.bind_groups.resolves("Camera"@, c.camera_bind_group as int)
                        &&& c.instance_buffer == rend.transform_buffer
                        &&& c.index_count == rend.index_count
                    },
        {
            let rend = &self.renderables[i].1;
            match self.render_pipelines.lookup(&rend.pipeline) {
                Some(p) => {
                    let cmd = rend.draw(i, p, camera_bind_group);
                    cmds.push(cmd);
                },
                None => {
                    return Err(RenderError::MissingPipeline { name: rend.pipeline.clone() });
                },
            }
        }
        proof {
            assert forall|i: int|
                0 <= i < self.renderables@.len() implies self.render_pipelines.contains_name(
                (#[trigger] self.renderables@[i]).1.pipeline@,
            ) by {
                assert(cmds@[i].renderable == i);
                let h = cmds@[i].pipeline as int;
                assert(self.render_pipelines@[h]@ == self.renderables@[i].1.pipeline@);
            }
        }
        Ok(cmds)
    }

    /// Applies a surface resize.  Zero-sized surfaces are ignored, as a
    /// minimized window reports them.
    pub fn resize(&mut self, width: u32, height: u32)
        ensures
            *final(self) == (Engine {
                config_width: final(self).config_width,
                config_height: final(self).config_height,
                ..*old(self)
            }),
            width > 0 && height > 0 ==> final(self).config_width == width
                && final(self).config_height == height,
            !(width > 0 && height > 0) ==> final(self).config_width == old(self).config_width
                && final(self).config_height == old(self).config_height,
    {
        if width > 0 && height > 0 {
            self.config_width = width;
            self.config_height = height;
        }
    }
}

/// Bit pattern of `4.0f32`.
pub const FOUR_BITS: Scalar = 0x4080_0000;

/// Bit pattern of `-6.0f32`.
pub const NEG_SIX_BITS: Scalar = 0xC0C0_0000;

/// Bit pattern of `3.5f32`.
pub const THREE_AND_HALF_BITS: Scalar = 0x4060_0000;

/// Bit pattern of `11.0f32`.
pub const ELEVEN_BITS: Scalar = 0x4130_0000;

/// Bit pattern of `-90.0f32`.
pub const NEG_NINETY_BITS: Scalar = 0xC2B4_0000;

/// Bit pattern of `-1.0f32`.
pub const NEG_ONE_BITS: Scalar = 0xBF80_0000;

/// Bit pattern of `100.0f32`.
pub const HUNDRED_BITS: Scalar = 0x42C8_0000;

/// Bit pattern of `1.0f32`.
pub const POS_ONE_BITS: Scalar = 0x3F80_0000;

/// The camera's starting transform: the default transform moved to
/// `(0, 4, -6)`.
pub open spec fn demo_camera_transform_v() -> Transform {
    spec_moved(default_transform(), Vec3 { x: 0, y: FOUR_BITS, z: NEG_SIX_BITS })
}

/// The triangle's transform: moved to `(0, 0, 4)`, parented to the camera
/// transform, owning instance buffer 0.
pub open spec fn demo_triangle_transform_v() -> Transform {
    Transform {
        parent: Some(0usize),
        buffer: Some(0usize),
        ..spec_moved(default_transform(), Vec3 { x: 0, y: 0, z: FOUR_BITS })
    }
}

/// The terrain quad's transform as built: moved to `(3.5, 3.5, 11)`,
/// oriented by the Euler angles `(0, -90, 0)`, owning instance buffer 1.
pub open spec fn demo_quad_built_v() -> Transform {
    let t = spec_moved(
        default_transform(),
        Vec3 { x: THREE_AND_HALF_BITS, y: THREE_AND_HALF_BITS, z: ELEVEN_BITS },
    );
    let q = euler_quat_of(Vec3 { x: 0, y: NEG_NINETY_BITS, z: 0 });
    Transform {
        buffer: Some(1usize),
        ..(Transform {
            q_rotation: q,
            rotation: crate::component::transform::euler_cache_of(q),
            matrix: crate::component::transform::trs_of(t.position, q, t.size),
            ..t
        })
    }
}

/// The terrain quad's transform after scene construction pitches it a
/// further ninety degrees down about its own right axis.
pub open spec fn demo_quad_transform_v() -> Transform {
    spec_rotated(
        demo_quad_built_v(),
        NEG_NINETY_BITS,
        basis_right(demo_quad_built_v().q_rotation),
    )
}

/// The three vertices of the demo triangle, red.
pub open spec fn demo_triangle_vertices() -> Seq<DefaultVertex> {
    let red = Vec3 { x: POS_ONE_BITS, y: 0, z: 0 };
    seq![
        DefaultVertex { position: Vec3 { x: 0, y: POS_ONE_BITS, z: 0 }, color: red },
        DefaultVertex { position: Vec3 { x: POS_ONE_BITS, y: NEG_ONE_BITS, z: 0 }, color: red },
        DefaultVertex { position: Vec3 { x: NEG_ONE_BITS, y: NEG_ONE_BITS, z: 0 }, color: red },
    ]
}

/// The terrain quad's mesh: the marching-squares walk over a 50 by 50
/// quad.
pub open spec fn demo_quad_mesh() -> (Seq<DefaultVertex>, Seq<u16>) {
    march_meshes(102u16, 102u16, 50u16, 50u16, (100 * 100) as int)
}

impl Engine {
    /// The demo scene: a perspective camera at `(0, 4, -6)`; a triangle
    /// parented to the camera; a marching-squares terrain quad; a 100 by
    /// 100 line grid; the `Default` and `Line` pipelines and the shared
    /// `Camera` bind group; a 1280 by 720 surface.  Instance buffers 0
    /// (triangle) and 1 (quad) are for the backend to create.
    pub fn new() -> (e: Engine)
        ensures
            e.wf(),
            e.render_pipelines@.len() == 2,
            e.render_pipelines@[0]@ == "Default"@,
            e.render_pipelines@[1]@ == "Line"@,
            e.bind_groups@.len() == 1,
            e.bind_groups@[0]@ == "Camera"@,
            e.camera.camera_type == CameraType::Perspective,
            e.camera.projection == crate::component::camera::projection_of(
                CameraType::Perspective,
            ),
            e.camera_transform == 0,
            e.arena@.len() == 4,
            e.arena@[0] == demo_camera_transform_v(),
            e.arena@[1] == demo_triangle_transform_v(),
            e.arena@[2] == demo_quad_transform_v(),
            e.arena@[3] == default_transform(),
            e.renderables@.len() == 3,
            e.renderables@[0].0 == 1,
            e.renderables@[0].1.pipeline@ == "Default"@,
            e.renderables@[0].1.transform_buffer == Some(0usize),
            e.renderables@[0].1.vertex_data@ == default_vertices_le_bytes(
                demo_triangle_vertices(),
            ),
            e.renderables@[0].1.index_data@ == seq![0u16, 2u16, 1u16],
            e.renderables@[0].1.index_count == 3,
            e.renderables@[1].0 == 2,
            e.renderables@[1].1.pipeline@ == "Default"@,
            e.renderables@[1].1.transform_buffer == Some(1usize),
            e.renderables@[1].1.vertex_data@ == default_vertices_le_bytes(demo_quad_mesh().0),
            e.renderables@[1].1.index_data@ == demo_quad_mesh().1,
            e.renderables@[1].1.index_count == demo_quad_mesh().1.len(),
            e.renderables@[2].0 == 3,
            e.renderables@[2].1.pipeline@ == "Line"@,
            e.renderables@[2].1.transform_buffer is None,
            e.renderables@[2].1.vertex_data@ == line_vertices_le_bytes(
                grid_vertices(HUNDRED_BITS, HUNDRED_BITS, 50, 50),
            ),
            e.renderables@[2].1.index_data@ == zero_indices((8 * 49 * 49) as int) + grid_cells(50, (49 * 49) as int),
            e.input == input_default(),
            e.config_width == 1280,
            e.config_height == 720,
    {
        let mut render_pipelines = Registry::new();
        render_pipelines.register("Default".to_owned());
        render_pipelines.register("Line".to_owned());
        let mut bind_groups = Registry::new();
        bind_groups.register("Camera".to_owned());

        let camera = Camera::new(CameraType::Perspective);

        let mut arena = TransformArena::new();
        let camera_transform = arena.push(
            TransformBuild::new().with_position(
                Vec3 { x: 0, y: FOUR_BITS, z: NEG_SIX_BITS },
            ).build(),
        );
        let triangle_transform = arena.push(
            TransformBuild::new().with_position(Vec3 { x: 0, y: 0, z: FOUR_BITS }).with_parent(
                camera_transform,
            ).with_buffer(0).build(),
        );
        let quad_transform = arena.push(
            TransformBuild::new().with_position(
                Vec3 { x: THREE_AND_HALF_BITS, y: THREE_AND_HALF_BITS, z: ELEVEN_BITS },
            ).with_rotation(Vec3 { x: 0, y: NEG_NINETY_BITS, z: 0 }).with_buffer(1).build(),
        );
        {
            let ghost arena_before = arena;
            let t = arena.get_mut(quad_transform);
            t.add_rotation_x(NEG_NINETY_BITS);
            proof {
                assert(t.parent == arena_before@[quad_transform as int].parent);
                arena_before.lemma_update_same_parent_keeps_wf(quad_transform as int, *t);
            }
        }
        let lines_transform = arena.push(Transform::default());

        let mut renderables: Vec<(usize, Render)> = Vec::new();

        let mut triangle_vertices: Vec<DefaultVertex> = Vec::new();
        let red = Vec3 { x: POS_ONE_BITS, y: 0, z: 0 };
        triangle_vertices.push(
            DefaultVertex { position: Vec3 { x: 0, y: POS_ONE_BITS, z: 0 }, color: red },
        );
        triangle_vertices.push(
            DefaultVertex { position: Vec3 { x: POS_ONE_BITS, y: NEG_ONE_BITS, z: 0 }, color: red },
        );
        triangle_vertices.push(
            DefaultVertex { position: Vec3 { x: NEG_ONE_BITS, y: NEG_ONE_BITS, z: 0 }, color: red },
        );
        proof {
            assert(triangle_vertices@ =~= demo_triangle_vertices());
        }
        let triangle_bytes = default_vertices_to_bytes(&triangle_vertices);
        let mut triangle_indices: Vec<u16> = Vec::new();
        triangle_indices.push(0);
        triangle_indices.push(2);
        triangle_indices.push(1);
        proof {
            assert(triangle_indices@ =~= seq![0u16, 2u16, 1u16]);
        }
        renderables.push(
            (
                triangle_transform,
                Render::new((triangle_bytes, triangle_indices), "Default".to_owned(), Some(0)),
            ),
        );

        let quad_mesh = create_quad_marching_squares(50, 50);
        proof {
            lemma_march_meshes_len(102u16, 102u16, 50u16, 50u16, (100 * 100) as int);
        }
        let quad_bytes = default_vertices_to_bytes(&quad_mesh.0);
        renderables.push(
            (quad_transform, Render::new((quad_bytes, quad_mesh.1), "Default".to_owned(), Some(1))),
        );

        let grid_mesh = create_grid(HUNDRED_BITS, HUNDRED_BITS, 50, 50);
        proof {
            lemma_grid_cells_len(50, (49 * 49) as int);
        }
        let grid_bytes = line_vertices_to_bytes(&grid_mesh.0);
        renderables.push(
            (lines_transform, Render::new((grid_bytes, grid_mesh.1), "Line".to_owned(), None)),
        );

        Engine {
            arena,
            camera,
            camera_transform,
            renderables,
            render_pipelines,
            bind_groups,
            input: Input::new(),
            config_width: 1280,
            config_height: 720,
        }
    }
}

} // verus!
