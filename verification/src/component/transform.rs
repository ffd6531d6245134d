//! The transform hierarchy: position, orientation and scale of scene
//! entities, composed through parent links into world matrices.
//!
//! Transforms live in a [`TransformArena`] and refer to their parent by
//! arena handle.  A transform can only be pushed with a parent handle that
//! is already in the arena, so every parent handle is smaller than the
//! handle of its child and link cycles cannot be built.
//!
//! The local matrix is kept equal to the canonical composition
//! `translation(position) * rotation(q_rotation) * scaling(size)` and is
//! recomputed from those fields after every mutation, so it depends only on
//! the current state, never on the order in which the state was reached.

use crate::math::{
    axis_angle_quat, axis_angle_quat_of, axis_x, axis_x_v, axis_y, axis_y_v, axis_z, axis_z_v,
    degrees, degrees_of, euler_angles_of, lemma_scalars_le_bytes_len, mat4_identity_v,
    mat4_le_bytes, mat_mul, mat_mul_of, push_mat4_le, quat_euler_angles, quat_identity,
    quat_identity_v, quat_mat4_of, quat_mul, quat_mul_of, quat_normalize, quat_normalize_of,
    quat_rotate_vec3, quat_to_mat4, quat_unit, rotate_vec3_of, scaling, scaling_of,
    spec_f32_finite, to_radians, to_radians_of, translation, translation_of, vec3_add,
    vec3_add_of, vec3_normalize, vec3_normalize_of, vec3_unit, vec3_usable_axis, Mat4, Quat,
    Scalar, Vec3, ONE_BITS, ZERO_BITS,
};
use vstd::prelude::*;

verus! {

/// The position, orientation and scale of a scene entity, with its cached
/// local matrix and its links to the scene.
#[derive(Clone, Copy, Debug)]
pub struct Transform {
    pub position: Vec3,
    /// Cached Euler angles of `q_rotation`, in degrees, kept for display.
    pub rotation: Vec3,
    pub size: Vec3,
    /// The authoritative orientation.
    pub q_rotation: Quat,
    /// Arena handle of the parent transform, if any.
    pub parent: Option<usize>,
    /// Backend handle of the per-instance GPU buffer, if any.
    pub buffer: Option<usize>,
    pub matrix: Mat4,
}

/// The 64-byte GPU payload of one transform: its world matrix, entries in
/// memory order, each as 4 little-endian bytes.
#[derive(Debug)]
pub struct TransformRaw {
    pub transform: Vec<u8>,
}

/// The canonical local matrix: `translation * rotation * scaling`.
pub open spec fn trs_of(p: Vec3, q: Quat, s: Vec3) -> Mat4 {
    mat_mul_of(mat_mul_of(translation_of(p), quat_mat4_of(q)), scaling_of(s))
}

/// The Euler-angle cache that belongs to an orientation: its Euler angles
/// converted to degrees.
pub open spec fn euler_cache_of(q: Quat) -> Vec3 {
    degrees_of(euler_angles_of(q))
}

/// The forward basis vector: the world z axis rotated by `q`, renormalized.
pub open spec fn basis_forward(q: Quat) -> Vec3 {
    vec3_normalize_of(rotate_vec3_of(q, axis_z_v()))
}

/// The up basis vector: the world y axis rotated by `q`, renormalized.
pub open spec fn basis_up(q: Quat) -> Vec3 {
    vec3_normalize_of(rotate_vec3_of(q, axis_y_v()))
}

/// The right basis vector: the world x axis rotated by `q`, renormalized.
pub open spec fn basis_right(q: Quat) -> Vec3 {
    vec3_normalize_of(rotate_vec3_of(q, axis_x_v()))
}

/// The orientation after composing `t.q_rotation` with a rotation of
/// `angle_deg` degrees about `axis` and renormalizing.
pub open spec fn rotated_quat_of(t: Transform, angle_deg: Scalar, axis: Vec3) -> Quat {
    quat_normalize_of(
        quat_mul_of(t.q_rotation, axis_angle_quat_of(to_radians_of(angle_deg), axis)),
    )
}

/// The transform after a rotation of `angle_deg` degrees about `axis`:
/// the new orientation, its refreshed Euler cache, and the local matrix
/// recomputed from the canonical composition.
pub open spec fn spec_rotated(t: Transform, angle_deg: Scalar, axis: Vec3) -> Transform {
    let q = rotated_quat_of(t, angle_deg, axis);
    Transform {
        q_rotation: q,
        rotation: euler_cache_of(q),
        matrix: trs_of(t.position, q, t.size),
        ..t
    }
}

/// The transform every construction starts from: the origin, the identity
/// orientation, unit scale, no parent, no buffer, and the caches that
/// belong to those fields.
pub open spec fn default_transform() -> Transform {
    Transform {
        position: Vec3 { x: ZERO_BITS, y: ZERO_BITS, z: ZERO_BITS },
        rotation: euler_cache_of(quat_identity_v()),
        size: Vec3 { x: ONE_BITS, y: ONE_BITS, z: ONE_BITS },
        q_rotation: quat_identity_v(),
        parent: None,
        buffer: None,
        matrix: trs_of(
            Vec3 { x: ZERO_BITS, y: ZERO_BITS, z: ZERO_BITS },
            quat_identity_v(),
            Vec3 { x: ONE_BITS, y: ONE_BITS, z: ONE_BITS },
        ),
    }
}

/// The transform after moving to `p`: only the position and the recomputed
/// local matrix change.
pub open spec fn spec_moved(t: Transform, p: Vec3) -> Transform {
    Transform { position: p, matrix: trs_of(p, t.q_rotation, t.size), ..t }
}

impl Transform {
    /// The cached local matrix is the canonical composition of the fields
    /// and the cached Euler angles belong to the orientation.
    pub open spec fn wf(self) -> bool {
        &&& self.matrix == trs_of(self.position, self.q_rotation, self.size)
        &&& self.rotation == euler_cache_of(self.q_rotation)
    }

    /// Recomputes the cached local matrix from position, orientation and
    /// scale.
    fn recompute_matrix(&mut self)
        ensures
            *final(self) == (Transform {
                matrix: trs_of(old(self).position, old(self).q_rotation, old(self).size),
                ..*old(self)
            }),
    {
        let t = translation(self.position);
        let r = quat_to_mat4(self.q_rotation);
        let s = scaling(self.size);
        self.matrix = mat_mul(mat_mul(t, r), s);
    }

    /// The cached local matrix.
    pub fn get_matrix(&self) -> (r: Mat4)
        ensures
            r == self.matrix,
    {
        self.matrix
    }

    /// The position.
    pub fn get_position(&self) -> (r: Vec3)
        ensures
            r == self.position,
    {
        self.position
    }

    /// The cached Euler angles of the orientation, in degrees.
    pub fn get_rotation(&self) -> (r: Vec3)
        ensures
            r == self.rotation,
    {
        self.rotation
    }

    /// The authoritative orientation quaternion.
    pub fn get_q_rotation(&self) -> (r: Quat)
        ensures
            r == self.q_rotation,
    {
        self.q_rotation
    }

    /// The scale.
    pub fn get_size(&self) -> (r: Vec3)
        ensures
            r == self.size,
    {
        self.size
    }

    /// Moves the transform to `new_position`.  The local matrix is
    /// recomputed from the new position, so moving twice leaves the same
    /// state as moving once to the second position.
    pub fn set_position(&mut self, new_position: Vec3)
        ensures
            *final(self) == spec_moved(*old(self), new_position),
            old(self).wf() ==> final(self).wf(),
    {
        self.position = new_position;
        self.recompute_matrix();
    }

    /// Moves the transform by `delta`.
    pub fn add_position(&mut self, delta: Vec3)
        ensures
            *final(self) == spec_moved(*old(self), vec3_add_of(old(self).position, delta)),
            old(self).wf() ==> final(self).wf(),
    {
        let p = vec3_add(self.position, delta);
        self.set_position(p);
    }

    /// The direction the transform looks along: its orientation applied to
    /// the world z axis, renormalized.
    pub fn forward(&self) -> (r: Vec3)
        ensures
            r == basis_forward(self.q_rotation),
            quat_unit(self.q_rotation) ==> vec3_unit(r),
    {
        vec3_normalize(quat_rotate_vec3(self.q_rotation, axis_z()))
    }

    /// The up direction of the transform: its orientation applied to the
    /// world y axis, renormalized.
    pub fn up(&self) -> (r: Vec3)
        ensures
            r == basis_up(self.q_rotation),
            quat_unit(self.q_rotation) ==> vec3_unit(r),
    {
        vec3_normalize(quat_rotate_vec3(self.q_rotation, axis_y()))
    }

    /// The right direction of the transform: its orientation applied to the
    /// world x axis, renormalized.
    pub fn right(&self) -> (r: Vec3)
        ensures
            r == basis_right(self.q_rotation),
            quat_unit(self.q_rotation) ==> vec3_unit(r),
    {
        vec3_normalize(quat_rotate_vec3(self.q_rotation, axis_x()))
    }

    /// Composes the orientation with a rotation of `angle_deg` degrees
    /// about `axis`, renormalizes it, refreshes the Euler cache and the
    /// local matrix.  Renormalization keeps the orientation unit length
    /// through any sequence of rotations, as long as each angle is finite
    /// and each axis is either unit or usable (finite, moderate, not
    /// vanishing).
    fn apply_rotation(&mut self, angle_deg: Scalar, axis: Vec3)
        ensures
            *final(self) == spec_rotated(*old(self), angle_deg, axis),
            final(self).wf(),
            quat_unit(old(self).q_rotation) && spec_f32_finite(angle_deg) && vec3_unit(axis)
                ==> quat_unit(final(self).q_rotation),
            quat_unit(old(self).q_rotation) && spec_f32_finite(angle_deg) && vec3_usable_axis(
                axis,
            ) ==> quat_unit(final(self).q_rotation),
    {
        let rot = axis_angle_quat(to_radians(angle_deg), axis);
        self.q_rotation = quat_normalize(quat_mul(self.q_rotation, rot));
        self.rotation = degrees(quat_euler_angles(self.q_rotation));
        self.recompute_matrix();
    }

    /// Rotates about the transform's own current right axis (pitch).  The
    /// axis is read before any mutation.
    pub fn add_rotation_x(&mut self, angle_deg: Scalar)
        ensures
            *final(self) == spec_rotated(
                *old(self),
                angle_deg,
                basis_right(old(self).q_rotation),
            ),
            final(self).wf(),
            quat_unit(old(self).q_rotation) && spec_f32_finite(angle_deg) ==> quat_unit(
                final(self).q_rotation,
            ),
    {
        let axis = self.right();
        self.apply_rotation(angle_deg, axis);
    }

    /// Rotates about the transform's own current up axis (yaw).  The axis
    /// is read before any mutation.
    pub fn add_rotation_y(&mut self, angle_deg: Scalar)
        ensures
            *final(self) == spec_rotated(*old(self), angle_deg, basis_up(old(self).q_rotation)),
            final(self).wf(),
            quat_unit(old(self).q_rotation) && spec_f32_finite(angle_deg) ==> quat_unit(
                final(self).q_rotation,
            ),
    {
        let axis = self.up();
        self.apply_rotation(angle_deg, axis);
    }

    /// Rotates about the transform's own current forward axis (roll).  The
    /// axis is read before any mutation.
    pub fn add_rotation_z(&mut self, angle_deg: Scalar)
        ensures
            *final(self) == spec_rotated(
                *old(self),
                angle_deg,
                basis_forward(old(self).q_rotation),
            ),
            final(self).wf(),
            quat_unit(old(self).q_rotation) && spec_f32_finite(angle_deg) ==> quat_unit(
                final(self).q_rotation,
            ),
    {
        let axis = self.forward();
        self.apply_rotation(angle_deg, axis);
    }

    /// Rotates about the fixed world x axis.
    pub fn add_rotation_global_x(&mut self, angle_deg: Scalar)
        ensures
            *final(self) == spec_rotated(*old(self), angle_deg, axis_x_v()),
            final(self).wf(),
            quat_unit(old(self).q_rotation) && spec_f32_finite(angle_deg) ==> quat_unit(
                final(self).q_rotation,
            ),
    {
        let axis = axis_x();
        self.apply_rotation(angle_deg, axis);
    }

    /// Rotates about the fixed world y axis.
    pub fn add_rotation_global_y(&mut self, angle_deg: Scalar)
        ensures
            *final(self) == spec_rotated(*old(self), angle_deg, axis_y_v()),
            final(self).wf(),
            quat_unit(old(self).q_rotation) && spec_f32_finite(angle_deg) ==> quat_unit(
                final(self).q_rotation,
            ),
    {
        let axis = axis_y();
        self.apply_rotation(angle_deg, axis);
    }

    /// Rotates about the fixed world z axis.
    pub fn add_rotation_global_z(&mut self, angle_deg: Scalar)
        ensures
            *final(self) == spec_rotated(*old(self), angle_deg, axis_z_v()),
            final(self).wf(),
            quat_unit(old(self).q_rotation) && spec_f32_finite(angle_deg) ==> quat_unit(
                final(self).q_rotation,
            ),
    {
        let axis = axis_z();
        self.apply_rotation(angle_deg, axis);
    }

    /// Rotates about an arbitrary axis (which the rotation normalizes
    /// itself), so any finite axis of moderate, non-vanishing magnitude
    /// keeps the orientation unit length.  A vanishing or non-finite axis
    /// propagates NaN into the orientation, as a caller error that is not
    /// reported.
    pub fn add_rotation_axis(&mut self, angle_deg: Scalar, axis: Vec3)
        ensures
            *final(self) == spec_rotated(*old(self), angle_deg, axis),
            final(self).wf(),
            quat_unit(old(self).q_rotation) && spec_f32_finite(angle_deg) && vec3_unit(axis)
                ==> quat_unit(final(self).q_rotation),
            quat_unit(old(self).q_rotation) && spec_f32_finite(angle_deg) && vec3_usable_axis(
                axis,
            ) ==> quat_unit(final(self).q_rotation),
    {
        self.apply_rotation(angle_deg, axis);
    }
}

impl Default for Transform {
    /// A transform at the origin with the identity orientation and unit
    /// scale, no parent and no buffer.
    fn default() -> (t: Transform)
        ensures
            t == default_transform(),
            t.wf(),
            quat_unit(t.q_rotation),
    {
        let q = quat_identity();
        let mut t = Transform {
            position: Vec3::zero(),
            rotation: degrees(quat_euler_angles(q)),
            size: Vec3 { x: ONE_BITS, y: ONE_BITS, z: ONE_BITS },
            q_rotation: q,
            parent: None,
            buffer: None,
            matrix: Mat4::identity(),
        };
        t.recompute_matrix();
        t
    }
}

/// Step-by-step construction of a [`Transform`], consumed by [`build`].
///
/// [`build`]: TransformBuild::build
pub struct TransformBuild(pub Transform);

/// The orientation described by Euler angles in degrees: the product of the
/// rotations about the world x, y and z axes, renormalized.
pub open spec fn euler_quat_of(deg: Vec3) -> Quat {
    quat_normalize_of(
        quat_mul_of(
            quat_mul_of(
                axis_angle_quat_of(to_radians_of(deg.x), axis_x_v()),
                axis_angle_quat_of(to_radians_of(deg.y), axis_y_v()),
            ),
            axis_angle_quat_of(to_radians_of(deg.z), axis_z_v()),
        ),
    )
}

impl TransformBuild {
    /// Starts from the default transform.
    pub fn new() -> (b: TransformBuild)
        ensures
            b.0 == default_transform(),
            b.0.wf(),
            quat_unit(b.0.q_rotation),
    {
        TransformBuild(Transform::default())
    }

    /// Places the transform at `position`.
    pub fn with_position(self, position: Vec3) -> (b: TransformBuild)
        ensures
            b.0 == spec_moved(self.0, position),
            self.0.wf() ==> b.0.wf(),
    {
        let mut t = self.0;
        t.set_position(position);
        TransformBuild(t)
    }

    /// Orients the transform by Euler angles in degrees, composed about the
    /// world x, y and z axes in that order.
    pub fn with_rotation(self, rotation: Vec3) -> (b: TransformBuild)
        ensures
            b.0 == (Transform {
                q_rotation: euler_quat_of(rotation),
                rotation: euler_cache_of(euler_quat_of(rotation)),
                matrix: trs_of(self.0.position, euler_quat_of(rotation), self.0.size),
                ..self.0
            }),
            b.0.wf(),
            spec_f32_finite(rotation.x) && spec_f32_finite(rotation.y) && spec_f32_finite(
                rotation.z,
            ) ==> quat_unit(b.0.q_rotation),
    {
        let rot_x = axis_angle_quat(to_radians(rotation.x), axis_x());
        let rot_y = axis_angle_quat(to_radians(rotation.y), axis_y());
        let rot_z = axis_angle_quat(to_radians(rotation.z), axis_z());
        let q = quat_normalize(quat_mul(quat_mul(rot_x, rot_y), rot_z));
        let mut t = self.0;
        t.q_rotation = q;
        t.rotation = degrees(quat_euler_angles(q));
        t.recompute_matrix();
        TransformBuild(t)
    }

    /// Links the transform to the parent with arena handle `parent`.
    pub fn with_parent(self, parent: usize) -> (b: TransformBuild)
        ensures
            b.0 == (Transform { parent: Some(parent), ..self.0 }),
    {
        let mut t = self.0;
        t.parent = Some(parent);
        TransformBuild(t)
    }

    /// Gives the transform the per-instance GPU buffer with backend handle
    /// `buffer`.
    pub fn with_buffer(self, buffer: usize) -> (b: TransformBuild)
        ensures
            b.0 == (Transform { buffer: Some(buffer), ..self.0 }),
    {
        let mut t = self.0;
        t.buffer = Some(buffer);
        TransformBuild(t)
    }

    /// The finished transform.
    pub fn build(self) -> (t: Transform)
        ensures
            t == self.0,
    {
        self.0
    }
}

/// The world matrix of the transform at handle `i`: the world matrix of its
/// parent times its local matrix, or its local matrix alone at a root.
pub open spec fn world_of(ts: Seq<Transform>, i: int) -> Mat4
    decreases i,
{
    if 0 <= i < ts.len() {
        match ts[i].parent {
            Some(p) => if p < i {
                mat_mul_of(world_of(ts, p as int), ts[i].matrix)
            } else {
                ts[i].matrix
            },
            None => ts[i].matrix,
        }
    } else {
        mat4_identity_v()
    }
}

/// The arena that owns every transform of a scene.  Parent links are
/// handles into the same arena and always point at an earlier entry, so the
/// link graph is a forest and cannot hold a cycle.
pub struct TransformArena {
    pub transforms: Vec<Transform>,
}

impl TransformArena {
    /// Every parent handle points at an earlier entry.
    pub open spec fn wf(self) -> bool {
        forall|i: int|
            0 <= i < self.transforms@.len() ==> match (#[trigger] self.transforms@[i]).parent {
                Some(p) => p < i,
                None => true,
            }
    }

    /// The transforms, for specification purposes.
    pub open spec fn view(self) -> Seq<Transform> {
        self.transforms@
    }

    /// An empty arena.
    pub fn new() -> (a: TransformArena)
        ensures
            a@ == Seq::<Transform>::empty(),
            a.wf(),
    {
        TransformArena { transforms: Vec::new() }
    }

    /// The number of transforms in the arena.
    pub fn len(&self) -> (n: usize)
        ensures
            n == self@.len(),
    {
        self.transforms.len()
    }

    /// Adds a transform and hands back its arena handle.  A parent link
    /// must point at a transform that is already in the arena; this is what
    /// keeps the link graph acyclic.
    pub fn push(&mut self, t: Transform) -> (h: usize)
        requires
            match t.parent {
                Some(p) => p < old(self)@.len(),
                None => true,
            },
    ensures
            h == old(self)@.len(),
            final(self)@ == old(self)@.push(t),
            old(self).wf() ==> final(self).wf(),
    {
        let h = self.transforms.len();
        self.transforms.push(t);
        h
    }

    /// A shared borrow of the transform at handle `i`.
    pub fn get(&self, i: usize) -> (t: &Transform)
        requires
            i < self@.len(),
        ensures
            *t == self@[i as int],
    {
        &self.transforms[i]
    }

    /// An exclusive borrow of the transform at handle `i`.  The caller is
    /// responsible for leaving the parent link unchanged if the arena's
    /// well-formedness is to be kept.
    pub fn get_mut(&mut self, i: usize) -> (t: &mut Transform)
        requires
            i < old(self)@.len(),
        ensures
            *t == old(self)@[i as int],
            final(self)@ == old(self)@.update(i as int, *final(t)),
    {
        &mut self.transforms[i]
    }

    /// Replacing an entry with one that carries the same parent link keeps
    /// the arena well-formed.
    pub proof fn lemma_update_same_parent_keeps_wf(self, i: int, t: Transform)
        requires
            self.wf(),
            0 <= i < self@.len(),
            t.parent == self@[i].parent,
        ensures
            forall|a: TransformArena| a@ == self@.update(i, t) ==> a.wf(),
    {
        assert forall|a: TransformArena| a@ == self@.update(i, t) implies a.wf() by {
            assert forall|j: int|
                0 <= j < a@.len() implies match (#[trigger] a@[j]).parent {
                Some(p) => p < j,
                None => true,
            } by {
                if j == i {
                    assert(a@[j] == t);
                } else {
                    assert(a@[j] == self@[j]);
                }
            }
        }
    }

    /// The world matrix of the transform at handle `i`, computed by walking
    /// the parent chain.
    pub fn world_matrix(&self, i: usize) -> (r: Mat4)
        requires
            self.wf(),
            i < self@.len(),
        ensures
            r == world_of(self@, i as int),
        decreases i,
    {
        let t = self.transforms[i].matrix;
        match self.transforms[i].parent {
            Some(p) => {
                let pw = self.world_matrix(p);
                mat_mul(pw, t)
            },
            None => t,
        }
    }

    /// The composed matrix of the parent chain of handle `i`: the parent's
    /// world matrix, or the identity at a root.
    pub fn get_parent_matrix(&self, i: usize) -> (r: Mat4)
        requires
            self.wf(),
            i < self@.len(),
        ensures
            r == match self@[i as int].parent {
                Some(p) => world_of(self@, p as int),
                None => mat4_identity_v(),
            },
    {
        match self.transforms[i].parent {
            Some(p) => self.world_matrix(p),
            None => Mat4::identity(),
        }
    }

    /// The GPU payload of the transform at handle `i`: its world matrix
    /// serialized into 64 bytes.
    pub fn to_raw(&self, i: usize) -> (r: TransformRaw)
        requires
            self.wf(),
            i < self@.len(),
        ensures
            r.transform@ == mat4_le_bytes(world_of(self@, i as int)),
            r.transform@.len() == 64,
    {
        let w = self.world_matrix(i);
        let mut out: Vec<u8> = Vec::new();
        push_mat4_le(&mut out, &w);
        proof {
            lemma_scalars_le_bytes_len(w.m@);
        }
        TransformRaw { transform: out }
    }
}

/// Moving a transform overwrites its position rather than accumulating:
/// two moves in a row leave exactly the state one move to the second
/// position leaves, whatever the first position was.
pub proof fn lemma_set_position_overwrites(t: Transform, p1: Vec3, p2: Vec3)
    ensures
        spec_moved(spec_moved(t, p1), p2) == spec_moved(t, p2),
{
}

/// A root transform's world matrix is its local matrix.
///
/// For any well-formed arena and any handle whose transform has no parent,
/// the world matrix equals the cached local matrix.
pub proof fn lemma_root_world_matrix(ts: Seq<Transform>, i: int)
    requires
        0 <= i < ts.len(),
        ts[i].parent is None,
    ensures
        world_of(ts, i) == ts[i].matrix,
{
}

/// Along a chain of three transforms the world matrix is the product of the
/// three local matrices, associated left to right.
///
/// If `b`'s parent is `a` and `c`'s parent is `b`, then the world matrix of
/// `c` is `(a.matrix * b.matrix) * c.matrix`.
pub proof fn lemma_chain_world_matrix(ts: Seq<Transform>, a: usize, b: usize, c: usize)
    requires
        a < b < c < ts.len(),
        ts[a as int].parent is None,
        ts[b as int].parent == Some(a),
        ts[c as int].parent == Some(b),
    ensures
        world_of(ts, c as int) == mat_mul_of(
            mat_mul_of(ts[a as int].matrix, ts[b as int].matrix),
            ts[c as int].matrix,
        ),
{
    assert(world_of(ts, a as int) == ts[a as int].matrix);
    assert(world_of(ts, b as int) == mat_mul_of(world_of(ts, a as int), ts[b as int].matrix));
    assert(world_of(ts, c as int) == mat_mul_of(world_of(ts, b as int), ts[c as int].matrix));
}

} // verus!
