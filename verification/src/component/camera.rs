//! The camera: projection parameters, the derived projection matrix, and
//! the per-frame view matrix built by look-at from a transform.

use crate::component::transform::{basis_forward, basis_up, Transform};
use crate::math::{
    f32_above_epsilon, f32_sub, f32_sub_of, lemma_scalars_le_bytes_len, look_at, look_at_of,
    mat4_identity_v, mat4_le_bytes, ortho, ortho_of, perspective, perspective_of, push_mat4_le,
    spec_f32_above_epsilon, vec3_add, vec3_add_of, Mat4, Scalar, Vec3, ZERO_BITS,
};
use vstd::prelude::*;

verus! {

/// Bit pattern of the default aspect ratio, the single-precision quotient
/// of the fixed 1280x720 viewport (16/9).
pub const DEFAULT_ASPECT_BITS: Scalar = 0x3FE3_8E39;

/// Bit pattern of the default perspective field of view, 45.0.
pub const DEFAULT_FOVY_BITS: Scalar = 0x4234_0000;

/// Bit pattern of the default perspective near plane, 0.1.
pub const DEFAULT_NEAR_BITS: Scalar = 0x3DCC_CCCD;

/// Bit pattern of the far plane, 1000.0.
pub const DEFAULT_FAR_BITS: Scalar = 0x447A_0000;

/// Bit pattern of the default orthographic right bound, 1280.0.
pub const DEFAULT_ORTHO_RIGHT_BITS: Scalar = 0x44A0_0000;

/// Bit pattern of the default orthographic top bound, 720.0.
pub const DEFAULT_ORTHO_TOP_BITS: Scalar = 0x4434_0000;

/// Bit pattern of the default orthographic near plane, 0.025.
pub const DEFAULT_ORTHO_NEAR_BITS: Scalar = 0x3CCC_CCCD;

/// The kind of projection a camera uses.  The non-custom kinds use the
/// fixed 1280x720 viewport defaults above.
#[derive(Clone, Copy, Debug, PartialEq, Eq)]
pub enum CameraType {
    Orthographic,
    OrthographicCustom {
        left: Scalar,
        right: Scalar,
        bottom: Scalar,
        top: Scalar,
        znear: Scalar,
        zfar: Scalar,
    },
    Perspective,
    PerspectiveCustom { aspect: Scalar, fovy: Scalar, near: Scalar, far: Scalar },
}

/// The camera kinds whose projection is defined: a custom perspective
/// must keep its aspect ratio and its depth extent `far - near` away from
/// zero, the inputs on which the projection refuses to build a frustum.
/// The other kinds are defined for all their parameters; the fixed default
/// perspective parameters satisfy the same conditions by construction.
pub open spec fn projection_ok(c: CameraType) -> bool {
    match c {
        CameraType::PerspectiveCustom { aspect, fovy: _, near, far } => spec_f32_above_epsilon(
            aspect,
        ) && spec_f32_above_epsilon(f32_sub_of(far, near)),
        _ => true,
    }
}

/// The projection matrix that belongs to a camera kind.  The default
/// perspective kind is the custom one at the default viewport parameters.
pub open spec fn projection_of(c: CameraType) -> Mat4 {
    match c {
        CameraType::Orthographic => ortho_of(
            ZERO_BITS,
            DEFAULT_ORTHO_RIGHT_BITS,
            ZERO_BITS,
            DEFAULT_ORTHO_TOP_BITS,
            DEFAULT_ORTHO_NEAR_BITS,
            DEFAULT_FAR_BITS,
        ),
        CameraType::OrthographicCustom { left, right, bottom, top, znear, zfar } => ortho_of(
            left,
            right,
            bottom,
            top,
            znear,
            zfar,
        ),
        CameraType::Perspective => perspective_of(
            DEFAULT_ASPECT_BITS,
            DEFAULT_FOVY_BITS,
            DEFAULT_NEAR_BITS,
            DEFAULT_FAR_BITS,
        ),
        CameraType::PerspectiveCustom { aspect, fovy, near, far } => perspective_of(
            aspect,
            fovy,
            near,
            far,
        ),
    }
}

/// The projection for the default perspective kind equals the projection
/// for the custom perspective kind at the default viewport parameters: a
/// 16/9 aspect, a field of view of 45, a near plane of 0.1 and a far plane
/// of 1000.
pub proof fn lemma_default_perspective_matches_custom()
    ensures
        projection_of(CameraType::Perspective) == projection_of(
            CameraType::PerspectiveCustom {
                aspect: DEFAULT_ASPECT_BITS,
                fovy: DEFAULT_FOVY_BITS,
                near: DEFAULT_NEAR_BITS,
                far: DEFAULT_FAR_BITS,
            },
        ),
{
}

/// The CPU mirror of the camera's GPU uniform: the projection and view
/// matrices that are uploaded each frame.
#[derive(Clone, Copy, Debug, PartialEq, Eq)]
pub struct CameraUniform {
    pub projection: Mat4,
    pub view: Mat4,
}

/// The 128-byte GPU layout of the camera uniform: the projection matrix
/// followed by the view matrix, each as 64 bytes.
pub open spec fn uniform_bytes_of(u: CameraUniform) -> Seq<u8> {
    mat4_le_bytes(u.projection) + mat4_le_bytes(u.view)
}

impl CameraUniform {
    /// Both matrices start as the identity.
    pub fn new() -> (u: CameraUniform)
        ensures
            u.projection == mat4_identity_v(),
            u.view == mat4_identity_v(),
    {
        CameraUniform { projection: Mat4::identity(), view: Mat4::identity() }
    }

    /// Replaces both matrices.
    pub fn update(&mut self, projection: Mat4, view: Mat4)
        ensures
            *final(self) == (CameraUniform { projection, view }),
    {
        self.projection = projection;
        self.view = view;
    }

    /// The 128-byte payload for the GPU-side uniform buffer.
    pub fn to_bytes(&self) -> (out: Vec<u8>)
        ensures
            out@ == uniform_bytes_of(*self),
            out@.len() == 128,
    {
        let mut out: Vec<u8> = Vec::new();
        push_mat4_le(&mut out, &self.projection);
        push_mat4_le(&mut out, &self.view);
        proof {
            lemma_scalars_le_bytes_len(self.projection.m@);
            lemma_scalars_le_bytes_len(self.view.m@);
        }
        out
    }
}

/// Relies on nalgebra-glm's `perspective_rh` at the fixed default
/// viewport parameters: a 16/9 aspect and a depth extent of 999.9, both
/// far above the machine epsilon, so the call stays clear of the
/// degenerate-input asserts of the wrapped function.
#[verifier::external_body]
fn default_perspective() -> (r: Mat4)
    ensures
        r == perspective_of(
            DEFAULT_ASPECT_BITS,
            DEFAULT_FOVY_BITS,
            DEFAULT_NEAR_BITS,
            DEFAULT_FAR_BITS,
        ),
{
    let v: nalgebra_glm::Vec4 = nalgebra_glm::vec4(
        bytemuck::cast(DEFAULT_ASPECT_BITS),
        bytemuck::cast(DEFAULT_FOVY_BITS),
        bytemuck::cast(DEFAULT_NEAR_BITS),
        bytemuck::cast(DEFAULT_FAR_BITS),
    );
    let m = nalgebra_glm::perspective_rh(v.x, v.y, v.z, v.w);
    let s: &[u32] = bytemuck::cast_slice(m.as_slice());
    Mat4 { m: s.try_into().unwrap() }
}

/// A camera: its projection kind, the matrix derived from it, the up
/// direction read from its transform at the most recent update, and the
/// uniform mirror kept for the GPU.
#[derive(Clone, Copy, Debug)]
pub struct Camera {
    pub camera_type: CameraType,
    pub projection: Mat4,
    pub up_dir: Vec3,
    pub uniform: CameraUniform,
}

/// The view matrix a camera builds from a transform: look-at from the
/// transform's position toward the point one forward step ahead, with the
/// given up direction.
pub open spec fn view_of(t: Transform, up_dir: Vec3) -> Mat4 {
    look_at_of(
        t.position,
        vec3_add_of(t.position, basis_forward(t.q_rotation)),
        up_dir,
    )
}

impl Camera {
    /// A camera of the given kind, with its projection matrix derived from
    /// the kind, the world y axis as the initial up direction, and an
    /// identity uniform mirror.  The kind must have a defined projection;
    /// [`Camera::try_new`] checks that at run time.
    pub fn new(camera_type: CameraType) -> (c: Camera)
        requires
            projection_ok(camera_type),
        ensures
            c.camera_type == camera_type,
            c.projection == projection_of(camera_type),
            c.up_dir == crate::math::axis_y_v(),
            c.uniform.projection == mat4_identity_v(),
            c.uniform.view == mat4_identity_v(),
    {
        let mut camera = Camera {
            camera_type,
            projection: Mat4::identity(),
            up_dir: crate::math::axis_y(),
            uniform: CameraUniform::new(),
        };
        camera.projection = camera.build_projection();
        camera
    }

    /// A camera of the given kind, or nothing where the kind's projection
    /// is undefined: a custom perspective whose aspect ratio or depth
    /// extent is approximately zero.
    pub fn try_new(camera_type: CameraType) -> (r: Option<Camera>)
        ensures
            r is Some <==> projection_ok(camera_type),
            r matches Some(c) ==> {
                &&& c.camera_type == camera_type
                &&& c.projection == projection_of(camera_type)
                &&& c.up_dir == crate::math::axis_y_v()
                &&& c.uniform.projection == mat4_identity_v()
                &&& c.uniform.view == mat4_identity_v()
            },
    {
        match camera_type {
            CameraType::PerspectiveCustom { aspect, fovy: _, near, far } => {
                let depth = f32_sub(far, near);
                if f32_above_epsilon(aspect) && f32_above_epsilon(depth) {
                    Some(Camera::new(camera_type))
                } else {
                    None
                }
            },
            _ => Some(Camera::new(camera_type)),
        }
    }

    /// The projection matrix of the camera's kind.
    pub fn build_projection(&self) -> (r: Mat4)
        requires
            projection_ok(self.camera_type),
        ensures
            r == projection_of(self.camera_type),
    {
        match self.camera_type {
            CameraType::Orthographic => ortho(
                ZERO_BITS,
                DEFAULT_ORTHO_RIGHT_BITS,
                ZERO_BITS,
                DEFAULT_ORTHO_TOP_BITS,
                DEFAULT_ORTHO_NEAR_BITS,
                DEFAULT_FAR_BITS,
            ),
            CameraType::OrthographicCustom { left, right, bottom, top, znear, zfar } => ortho(
                left,
                right,
                bottom,
                top,
                znear,
                zfar,
            ),
            CameraType::Perspective => default_perspective(),
            CameraType::PerspectiveCustom { aspect, fovy, near, far } => perspective(
                aspect,
                fovy,
                near,
                far,
            ),
        }
    }

    /// The view matrix from `transform` with the camera's current up
    /// direction.
    pub fn build_view(&self, transform: &Transform) -> (r: Mat4)
        ensures
            r == view_of(*transform, self.up_dir),
    {
        let position = transform.get_position();
        let center = vec3_add(position, transform.forward());
        look_at(position, center, self.up_dir)
    }

    /// The per-frame camera refresh: reads the up direction from the
    /// transform, rebuilds the projection and the view, stores both in the
    /// uniform mirror, and hands back the 128-byte payload that the
    /// backend must write to the camera's GPU buffer.
    pub fn update(&mut self, transform: &Transform) -> (payload: Vec<u8>)
        requires
            projection_ok(old(self).camera_type),
        ensures
            final(self).camera_type == old(self).camera_type,
            final(self).projection == old(self).projection,
            final(self).up_dir == basis_up(transform.q_rotation),
            final(self).uniform.projection == projection_of(old(self).camera_type),
            final(self).uniform.view == view_of(*transform, basis_up(transform.q_rotation)),
            payload@ == uniform_bytes_of(final(self).uniform),
            payload@.len() == 128,
    {
        self.up_dir = transform.up();
        let projection = self.build_projection();
        let view = self.build_view(transform);
        self.uniform.update(projection, view);
        self.uniform.to_bytes()
    }
}

} // verus!
