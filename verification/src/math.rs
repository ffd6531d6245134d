//! Plain-value linear algebra carried as IEEE-754 bit patterns.
//!
//! Every scalar in this crate is stored as the bit pattern of an IEEE-754
//! single-precision number (`Scalar`, a `u32`).  The floating-point work
//! itself is done by nalgebra-glm behind the trusted wrappers in this module;
//! each wrapper pins its result to an uninterpreted name, so contracts further
//! up can say exactly which composition of operations produced a value while
//! never claiming what the rounded numbers are.
//!
//! The predicates [`quat_unit`] and [`vec3_unit`] stand for "has length one,
//! within floating-point tolerance".  The wrappers state only preservation
//! facts about them that the documentation of the wrapped operations plainly
//! gives: rotations and normalization keep unit length, products of unit
//! quaternions are unit, and the canonical axes are unit.
//!
//! Two cautions on the names.  Rust leaves the payload bits of NaN results
//! of float operations not fully determined; the names still stand for one
//! fixed function of the inputs, and nothing in this crate reads a NaN
//! payload.  And the unit-length facts are tolerance-level claims: they are
//! guarded so that no admitted input (a NaN angle, a vanishing axis) makes
//! them claim unit length of a NaN quaternion.

use vstd::prelude::*;

verus! {

/// An IEEE-754 single-precision value, carried as its bit pattern.
pub type Scalar = u32;

/// Bit pattern of `1.0f32`.
pub const ONE_BITS: Scalar = 0x3F80_0000;

/// Bit pattern of `0.5f32`.
pub const HALF_BITS: Scalar = 0x3F00_0000;

/// Bit pattern of `0.0f32`.
pub const ZERO_BITS: Scalar = 0;

/// A three-component vector of single-precision bit patterns.
#[derive(Clone, Copy, Debug, PartialEq, Eq)]
pub struct Vec3 {
    pub x: Scalar,
    pub y: Scalar,
    pub z: Scalar,
}

/// A quaternion `x*i + y*j + z*k + w` of single-precision bit patterns.
#[derive(Clone, Copy, Debug, PartialEq, Eq)]
pub struct Quat {
    pub x: Scalar,
    pub y: Scalar,
    pub z: Scalar,
    pub w: Scalar,
}

/// A 4x4 matrix of single-precision bit patterns, in column-major order
/// (`m[4 * c + r]` is row `r` of column `c`), the memory order of both
/// nalgebra-glm and the GPU-facing byte layout.
#[derive(Clone, Copy, Debug, PartialEq, Eq)]
pub struct Mat4 {
    pub m: [Scalar; 16],
}

impl Vec3 {
    /// The zero vector.
    pub fn zero() -> (r: Vec3)
        ensures
            r == (Vec3 { x: ZERO_BITS, y: ZERO_BITS, z: ZERO_BITS }),
    {
        Vec3 { x: ZERO_BITS, y: ZERO_BITS, z: ZERO_BITS }
    }
}

/// The vector along the world x axis.
pub open spec fn axis_x_v() -> Vec3 {
    Vec3 { x: ONE_BITS, y: ZERO_BITS, z: ZERO_BITS }
}

/// The vector along the world y axis.
pub open spec fn axis_y_v() -> Vec3 {
    Vec3 { x: ZERO_BITS, y: ONE_BITS, z: ZERO_BITS }
}

/// The vector along the world z axis.
pub open spec fn axis_z_v() -> Vec3 {
    Vec3 { x: ZERO_BITS, y: ZERO_BITS, z: ONE_BITS }
}

/// The identity quaternion `(0, 0, 0, 1)`.
pub open spec fn quat_identity_v() -> Quat {
    Quat { x: ZERO_BITS, y: ZERO_BITS, z: ZERO_BITS, w: ONE_BITS }
}

/// Holds when the quaternion has length one, within floating-point
/// tolerance.  The predicate is uninterpreted; the trusted wrappers below
/// state it only of results their documentation grants it, and only under
/// hypotheses that keep NaN out.
pub uninterp spec fn quat_unit(q: Quat) -> bool;

/// Holds when the vector has length one, within floating-point tolerance.
pub uninterp spec fn vec3_unit(v: Vec3) -> bool;

/// What componentwise vector addition returns.
pub uninterp spec fn vec3_add_of(a: Vec3, b: Vec3) -> Vec3;

/// What componentwise vector subtraction returns.
pub uninterp spec fn vec3_sub_of(a: Vec3, b: Vec3) -> Vec3;

/// What scaling a vector by a scalar returns.
pub uninterp spec fn vec3_scale_of(v: Vec3, s: Scalar) -> Vec3;

/// What normalizing a vector returns.
pub uninterp spec fn vec3_normalize_of(v: Vec3) -> Vec3;

/// What rotating a vector by a quaternion returns.
pub uninterp spec fn rotate_vec3_of(q: Quat, v: Vec3) -> Vec3;

/// What the quaternion product `a * b` returns.
pub uninterp spec fn quat_mul_of(a: Quat, b: Quat) -> Quat;

/// What normalizing a quaternion returns.
pub uninterp spec fn quat_normalize_of(q: Quat) -> Quat;

/// What the quaternion for a rotation of `angle_rad` about `axis` is.
pub uninterp spec fn axis_angle_quat_of(angle_rad: Scalar, axis: Vec3) -> Quat;

/// What the homogeneous rotation matrix of a quaternion is.
pub uninterp spec fn quat_mat4_of(q: Quat) -> Mat4;

/// What the Euler angles (radians) extracted from a quaternion are.
pub uninterp spec fn euler_angles_of(q: Quat) -> Vec3;

/// What converting a vector of radians to degrees returns.
pub uninterp spec fn degrees_of(v: Vec3) -> Vec3;

/// What converting one angle from degrees to radians returns.
pub uninterp spec fn to_radians_of(deg: Scalar) -> Scalar;

/// What the matrix product `a * b` returns.
pub uninterp spec fn mat_mul_of(a: Mat4, b: Mat4) -> Mat4;

/// What the homogeneous translation matrix of a vector is.
pub uninterp spec fn translation_of(v: Vec3) -> Mat4;

/// What the homogeneous scaling matrix of a vector is.
pub uninterp spec fn scaling_of(v: Vec3) -> Mat4;

/// What the right-handed look-at view matrix is.
pub uninterp spec fn look_at_of(eye: Vec3, center: Vec3, up: Vec3) -> Mat4;

/// What the right-handed perspective projection matrix is.
pub uninterp spec fn perspective_of(aspect: Scalar, fovy: Scalar, near: Scalar, far: Scalar) -> Mat4;

/// What the right-handed orthographic projection matrix is.
pub uninterp spec fn ortho_of(
    left: Scalar,
    right: Scalar,
    bottom: Scalar,
    top: Scalar,
    znear: Scalar,
    zfar: Scalar,
) -> Mat4;

/// What single-precision addition returns.
pub uninterp spec fn f32_add_of(a: Scalar, b: Scalar) -> Scalar;

/// What single-precision subtraction returns.
pub uninterp spec fn f32_sub_of(a: Scalar, b: Scalar) -> Scalar;

/// What single-precision multiplication returns.
pub uninterp spec fn f32_mul_of(a: Scalar, b: Scalar) -> Scalar;

/// What single-precision division returns.
pub uninterp spec fn f32_div_of(a: Scalar, b: Scalar) -> Scalar;

/// What `signum` of a single-precision value returns.
pub uninterp spec fn f32_signum_of(a: Scalar) -> Scalar;

/// What converting a 16-bit unsigned integer to single precision returns.
pub uninterp spec fn f32_of_u16(x: u16) -> Scalar;

/// Flipping the sign bit of an IEEE-754 single-precision bit pattern, which
/// is exactly the negation of the encoded value.
pub open spec fn spec_flip_sign(b: Scalar) -> Scalar {
    b ^ 0x8000_0000
}

/// Negates an IEEE-754 single-precision value by flipping its sign bit.
pub fn flip_sign(b: Scalar) -> (r: Scalar)
    ensures
        r == spec_flip_sign(b),
{
    b ^ 0x8000_0000
}

/// Bit pattern of `f32::EPSILON`, the machine epsilon of single precision.
pub const F32_EPSILON_BITS: Scalar = 0x3400_0000;

/// Holds when the single-precision bit pattern encodes a finite value: its
/// magnitude bits lie below those of infinity.
pub open spec fn spec_f32_finite(b: Scalar) -> bool {
    (b & 0x7FFF_FFFF) < 0x7F80_0000
}

/// Holds when the magnitude bits exceed those of the machine epsilon.  For
/// non-NaN values the bit order of magnitudes is the value order, so this
/// reads: the magnitude is above `f32::EPSILON`, or the pattern is a NaN
/// (whose magnitude bits sort above every number's).
pub open spec fn spec_f32_above_epsilon(b: Scalar) -> bool {
    (b & 0x7FFF_FFFF) > F32_EPSILON_BITS
}

/// Decides [`spec_f32_above_epsilon`] on a bit pattern.
pub fn f32_above_epsilon(b: Scalar) -> (r: bool)
    ensures
        r == spec_f32_above_epsilon(b),
{
    (b & 0x7FFF_FFFF) > F32_EPSILON_BITS
}

/// Bit pattern of `2^60`: the magnitude bound of a moderate scalar.
pub const F32_MODERATE_MAX_BITS: Scalar = 0x5D80_0000;

/// Bit pattern of `2^-60`: the magnitude floor of a not-tiny scalar.
pub const F32_MODERATE_MIN_BITS: Scalar = 0x2180_0000;

/// The value is finite with magnitude at most `2^60`.
pub open spec fn spec_scalar_moderate(b: Scalar) -> bool {
    (b & 0x7FFF_FFFF) <= F32_MODERATE_MAX_BITS
}

/// The magnitude is at least `2^-60`.
pub open spec fn spec_scalar_not_tiny(b: Scalar) -> bool {
    (b & 0x7FFF_FFFF) >= F32_MODERATE_MIN_BITS
}

/// A vector that normalization handles faithfully: every component finite
/// with magnitude at most `2^60`, and some component with magnitude at
/// least `2^-60`, so the squared norm neither overflows nor vanishes.
pub open spec fn vec3_usable_axis(v: Vec3) -> bool {
    &&& spec_scalar_moderate(v.x)
    &&& spec_scalar_moderate(v.y)
    &&& spec_scalar_moderate(v.z)
    &&& (spec_scalar_not_tiny(v.x) || spec_scalar_not_tiny(v.y) || spec_scalar_not_tiny(v.z))
}

/// Holds when the IEEE-754 double-precision bit pattern encodes a value that
/// is strictly less than zero: the sign bit is set, the rest is not all zero
/// (which would be negative zero), and the pattern is at most the one of
/// negative infinity (larger patterns with the sign bit set are NaNs).
pub open spec fn spec_f64_is_negative(bits: u64) -> bool {
    0x8000_0000_0000_0000 < bits && bits <= 0xFFF0_0000_0000_0000
}

/// Decides whether a double-precision bit pattern encodes a value `< 0.0`.
pub fn f64_is_negative(bits: u64) -> (r: bool)
    ensures
        r == spec_f64_is_negative(bits),
{
    0x8000_0000_0000_0000 < bits && bits <= 0xFFF0_0000_0000_0000
}

/// Relies on nalgebra-glm's canonical basis vector `Vec3::x()`, the unit
/// vector `(1, 0, 0)`.
#[verifier::external_body]
pub fn axis_x() -> (r: Vec3)
    ensures
        r == axis_x_v(),
        vec3_unit(r),
{
    let v = nalgebra_glm::Vec3::x();
    Vec3 { x: v.x.to_bits(), y: v.y.to_bits(), z: v.z.to_bits() }
}

/// Relies on nalgebra-glm's canonical basis vector `Vec3::y()`, the unit
/// vector `(0, 1, 0)`.
#[verifier::external_body]
pub fn axis_y() -> (r: Vec3)
    ensures
        r == axis_y_v(),
        vec3_unit(r),
{
    let v = nalgebra_glm::Vec3::y();
    Vec3 { x: v.x.to_bits(), y: v.y.to_bits(), z: v.z.to_bits() }
}

/// Relies on nalgebra-glm's canonical basis vector `Vec3::z()`, the unit
/// vector `(0, 0, 1)`.
#[verifier::external_body]
pub fn axis_z() -> (r: Vec3)
    ensures
        r == axis_z_v(),
        vec3_unit(r),
{
    let v = nalgebra_glm::Vec3::z();
    Vec3 { x: v.x.to_bits(), y: v.y.to_bits(), z: v.z.to_bits() }
}

/// Relies on nalgebra-glm's `quat_identity`, the unit quaternion
/// `(0, 0, 0, 1)` representing the identity rotation.
#[verifier::external_body]
pub fn quat_identity() -> (r: Quat)
    ensures
        r == quat_identity_v(),
        quat_unit(r),
{
    let q: nalgebra_glm::Quat = nalgebra_glm::quat_identity();
    Quat {
        x: q.coords.x.to_bits(),
        y: q.coords.y.to_bits(),
        z: q.coords.z.to_bits(),
        w: q.coords.w.to_bits(),
    }
}

/// Relies on nalgebra-glm's componentwise vector addition.
#[verifier::external_body]
pub fn vec3_add(a: Vec3, b: Vec3) -> (r: Vec3)
    ensures
        r == vec3_add_of(a, b),
{
    let va: nalgebra_glm::Vec3 = nalgebra_glm::vec3(bytemuck::cast(a.x), bytemuck::cast(a.y), bytemuck::cast(a.z));
    let vb: nalgebra_glm::Vec3 = nalgebra_glm::vec3(bytemuck::cast(b.x), bytemuck::cast(b.y), bytemuck::cast(b.z));
    let s = va + vb;
    Vec3 { x: s.x.to_bits(), y: s.y.to_bits(), z: s.z.to_bits() }
}

/// Relies on nalgebra-glm's componentwise vector subtraction.
#[verifier::external_body]
pub fn vec3_sub(a: Vec3, b: Vec3) -> (r: Vec3)
    ensures
        r == vec3_sub_of(a, b),
{
    let va: nalgebra_glm::Vec3 = nalgebra_glm::vec3(bytemuck::cast(a.x), bytemuck::cast(a.y), bytemuck::cast(a.z));
    let vb: nalgebra_glm::Vec3 = nalgebra_glm::vec3(bytemuck::cast(b.x), bytemuck::cast(b.y), bytemuck::cast(b.z));
    let s = va - vb;
    Vec3 { x: s.x.to_bits(), y: s.y.to_bits(), z: s.z.to_bits() }
}

/// Relies on nalgebra-glm's scalar multiplication of a vector.
#[verifier::external_body]
pub fn vec3_scale(v: Vec3, s: Scalar) -> (r: Vec3)
    ensures
        r == vec3_scale_of(v, s),
{
    let vv: nalgebra_glm::Vec3 = nalgebra_glm::vec3(bytemuck::cast(v.x), bytemuck::cast(v.y), bytemuck::cast(v.z));
    let vs: nalgebra_glm::Vec1 = nalgebra_glm::vec1(bytemuck::cast(s));
    let p = vv * vs.x;
    Vec3 { x: p.x.to_bits(), y: p.y.to_bits(), z: p.z.to_bits() }
}

/// Relies on nalgebra-glm's `normalize`, which divides a vector by its
/// length; a vector that is already unit length stays unit length.
#[verifier::external_body]
pub fn vec3_normalize(v: Vec3) -> (r: Vec3)
    ensures
        r == vec3_normalize_of(v),
        vec3_unit(v) ==> vec3_unit(r),
{
    let vv: nalgebra_glm::Vec3 = nalgebra_glm::vec3(bytemuck::cast(v.x), bytemuck::cast(v.y), bytemuck::cast(v.z));
    let n = nalgebra_glm::normalize(&vv);
    Vec3 { x: n.x.to_bits(), y: n.y.to_bits(), z: n.z.to_bits() }
}

/// Relies on nalgebra-glm's `quat_rotate_vec3`, which rotates a vector by a
/// quaternion assumed normalized; a rotation keeps unit length.
#[verifier::external_body]
pub fn quat_rotate_vec3(q: Quat, v: Vec3) -> (r: Vec3)
    ensures
        r == rotate_vec3_of(q, v),
        quat_unit(q) && vec3_unit(v) ==> vec3_unit(r),
{
    let qq: nalgebra_glm::Quat = nalgebra_glm::quat(bytemuck::cast(q.x), bytemuck::cast(q.y), bytemuck::cast(q.z), bytemuck::cast(q.w));
    let vv: nalgebra_glm::Vec3 = nalgebra_glm::vec3(bytemuck::cast(v.x), bytemuck::cast(v.y), bytemuck::cast(v.z));
    let p = nalgebra_glm::quat_rotate_vec3(&qq, &vv);
    Vec3 { x: p.x.to_bits(), y: p.y.to_bits(), z: p.z.to_bits() }
}

/// Relies on nalgebra's quaternion product; the product of two unit
/// quaternions is a unit quaternion, in the tolerance reading of
/// [`quat_unit`]: the rounded product's norm stays within floating-point
/// error of one, and the callers renormalize before the error can grow.
#[verifier::external_body]
pub fn quat_mul(a: Quat, b: Quat) -> (r: Quat)
    ensures
        r == quat_mul_of(a, b),
        quat_unit(a) && quat_unit(b) ==> quat_unit(r),
{
    let qa: nalgebra_glm::Quat = nalgebra_glm::quat(bytemuck::cast(a.x), bytemuck::cast(a.y), bytemuck::cast(a.z), bytemuck::cast(a.w));
    let qb: nalgebra_glm::Quat = nalgebra_glm::quat(bytemuck::cast(b.x), bytemuck::cast(b.y), bytemuck::cast(b.z), bytemuck::cast(b.w));
    let p = qa * qb;
    Quat { x: p.coords.x.to_bits(), y: p.coords.y.to_bits(), z: p.coords.z.to_bits(), w: p.coords.w.to_bits() }
}

/// Relies on nalgebra-glm's `quat_normalize`, which divides a quaternion by
/// its norm; a quaternion that is already unit length stays unit length.
#[verifier::external_body]
pub fn quat_normalize(q: Quat) -> (r: Quat)
    ensures
        r == quat_normalize_of(q),
        quat_unit(q) ==> quat_unit(r),
{
    let qq: nalgebra_glm::Quat = nalgebra_glm::quat(bytemuck::cast(q.x), bytemuck::cast(q.y), bytemuck::cast(q.z), bytemuck::cast(q.w));
    let n = nalgebra_glm::quat_normalize(&qq);
    Quat { x: n.coords.x.to_bits(), y: n.coords.y.to_bits(), z: n.coords.z.to_bits(), w: n.coords.w.to_bits() }
}

/// Relies on nalgebra-glm's `quat_rotate` applied to the identity
/// quaternion: it builds the quaternion of a rotation of `angle_rad`
/// radians about `axis`, normalizing the axis itself.  For a finite angle
/// and an axis that is unit, or finite, moderate and not vanishing (see
/// [`vec3_usable_axis`]), the half-angle sine and cosine and the
/// normalized axis are all finite and the result is a unit quaternion; a
/// NaN or infinite angle, or a degenerate axis, yields a NaN quaternion of
/// which nothing is claimed.
#[verifier::external_body]
pub fn axis_angle_quat(angle_rad: Scalar, axis: Vec3) -> (r: Quat)
    ensures
        r == axis_angle_quat_of(angle_rad, axis),
        spec_f32_finite(angle_rad) && vec3_unit(axis) ==> quat_unit(r),
        spec_f32_finite(angle_rad) && vec3_usable_axis(axis) ==> quat_unit(r),
{
    let vv: nalgebra_glm::Vec3 = nalgebra_glm::vec3(bytemuck::cast(axis.x), bytemuck::cast(axis.y), bytemuck::cast(axis.z));
    let id: nalgebra_glm::Quat = nalgebra_glm::quat_identity();
    let va: nalgebra_glm::Vec1 = nalgebra_glm::vec1(bytemuck::cast(angle_rad));
    let p = nalgebra_glm::quat_rotate(&id, va.x, &vv);
    Quat { x: p.coords.x.to_bits(), y: p.coords.y.to_bits(), z: p.coords.z.to_bits(), w: p.coords.w.to_bits() }
}

/// Relies on nalgebra-glm's `quat_to_mat4`, the homogeneous rotation matrix
/// of a quaternion.
#[verifier::external_body]
pub fn quat_to_mat4(q: Quat) -> (r: Mat4)
    ensures
        r == quat_mat4_of(q),
{
    let qq: nalgebra_glm::Quat = nalgebra_glm::quat(bytemuck::cast(q.x), bytemuck::cast(q.y), bytemuck::cast(q.z), bytemuck::cast(q.w));
    let m = nalgebra_glm::quat_to_mat4(&qq);
    let s: &[u32] = bytemuck::cast_slice(m.as_slice());
    Mat4 { m: s.try_into().unwrap() }
}

/// Relies on nalgebra-glm's `quat_euler_angles`, the Euler angles of a
/// quaternion in radians.
#[verifier::external_body]
pub fn quat_euler_angles(q: Quat) -> (r: Vec3)
    ensures
        r == euler_angles_of(q),
{
    let qq: nalgebra_glm::Quat = nalgebra_glm::quat(bytemuck::cast(q.x), bytemuck::cast(q.y), bytemuck::cast(q.z), bytemuck::cast(q.w));
    let a = nalgebra_glm::quat_euler_angles(&qq);
    Vec3 { x: a.x.to_bits(), y: a.y.to_bits(), z: a.z.to_bits() }
}

/// Relies on nalgebra-glm's `degrees`, the componentwise conversion from
/// radians to degrees.
#[verifier::external_body]
pub fn degrees(v: Vec3) -> (r: Vec3)
    ensures
        r == degrees_of(v),
{
    let vv: nalgebra_glm::Vec3 = nalgebra_glm::vec3(bytemuck::cast(v.x), bytemuck::cast(v.y), bytemuck::cast(v.z));
    let d = nalgebra_glm::degrees(&vv);
    Vec3 { x: d.x.to_bits(), y: d.y.to_bits(), z: d.z.to_bits() }
}

/// Relies on `f32::to_radians`, the conversion from degrees to radians: a
/// multiplication by a constant below one, so a finite angle stays finite.
#[verifier::external_body]
pub fn to_radians(deg: Scalar) -> (r: Scalar)
    ensures
        r == to_radians_of(deg),
        spec_f32_finite(deg) ==> spec_f32_finite(r),
{
    let v: nalgebra_glm::Vec1 = nalgebra_glm::vec1(bytemuck::cast(deg));
    v.x.to_radians().to_bits()
}

/// Relies on nalgebra's 4x4 matrix product.
#[verifier::external_body]
pub fn mat_mul(a: Mat4, b: Mat4) -> (r: Mat4)
    ensures
        r == mat_mul_of(a, b),
{
    let ma = nalgebra_glm::Mat4::from_column_slice(bytemuck::cast_slice(&a.m));
    let mb = nalgebra_glm::Mat4::from_column_slice(bytemuck::cast_slice(&b.m));
    let p = ma * mb;
    let s: &[u32] = bytemuck::cast_slice(p.as_slice());
    Mat4 { m: s.try_into().unwrap() }
}

/// Relies on nalgebra-glm's `translation`, the homogeneous translation
/// matrix of a vector.
#[verifier::external_body]
pub fn translation(v: Vec3) -> (r: Mat4)
    ensures
        r == translation_of(v),
{
    let vv: nalgebra_glm::Vec3 = nalgebra_glm::vec3(bytemuck::cast(v.x), bytemuck::cast(v.y), bytemuck::cast(v.z));
    let m = nalgebra_glm::translation(&vv);
    let s: &[u32] = bytemuck::cast_slice(m.as_slice());
    Mat4 { m: s.try_into().unwrap() }
}

/// Relies on nalgebra-glm's `scaling`, the homogeneous scaling matrix of a
/// vector.
#[verifier::external_body]
pub fn scaling(v: Vec3) -> (r: Mat4)
    ensures
        r == scaling_of(v),
{
    let vv: nalgebra_glm::Vec3 = nalgebra_glm::vec3(bytemuck::cast(v.x), bytemuck::cast(v.y), bytemuck::cast(v.z));
    let m = nalgebra_glm::scaling(&vv);
    let s: &[u32] = bytemuck::cast_slice(m.as_slice());
    Mat4 { m: s.try_into().unwrap() }
}

/// Relies on nalgebra-glm's `look_at_rh`, the right-handed view matrix for
/// an eye position, a point looked at, and an up direction.
#[verifier::external_body]
pub fn look_at(eye: Vec3, center: Vec3, up: Vec3) -> (r: Mat4)
    ensures
        r == look_at_of(eye, center, up),
{
    let e: nalgebra_glm::Vec3 = nalgebra_glm::vec3(bytemuck::cast(eye.x), bytemuck::cast(eye.y), bytemuck::cast(eye.z));
    let c: nalgebra_glm::Vec3 = nalgebra_glm::vec3(bytemuck::cast(center.x), bytemuck::cast(center.y), bytemuck::cast(center.z));
    let u: nalgebra_glm::Vec3 = nalgebra_glm::vec3(bytemuck::cast(up.x), bytemuck::cast(up.y), bytemuck::cast(up.z));
    let m = nalgebra_glm::look_at_rh(&e, &c, &u);
    let s: &[u32] = bytemuck::cast_slice(m.as_slice());
    Mat4 { m: s.try_into().unwrap() }
}

/// Relies on nalgebra-glm's `perspective_rh` with its aspect-first
/// argument order, the right-handed perspective projection matrix.  The
/// wrapped function asserts that neither `aspect` nor `far - near` is
/// approximately zero (magnitude at most the machine epsilon, NaN
/// excepted); the preconditions leave exactly those panicking inputs out.
/// [`try_perspective`] makes the same call behind a runtime check.
#[verifier::external_body]
pub fn perspective(aspect: Scalar, fovy: Scalar, near: Scalar, far: Scalar) -> (r: Mat4)
    requires
        spec_f32_above_epsilon(aspect),
        spec_f32_above_epsilon(f32_sub_of(far, near)),
    ensures
        r == perspective_of(aspect, fovy, near, far),
{
    let v: nalgebra_glm::Vec4 = nalgebra_glm::vec4(
        bytemuck::cast(aspect), bytemuck::cast(fovy), bytemuck::cast(near), bytemuck::cast(far),
    );
    let m = nalgebra_glm::perspective_rh(v.x, v.y, v.z, v.w);
    let s: &[u32] = bytemuck::cast_slice(m.as_slice());
    Mat4 { m: s.try_into().unwrap() }
}

/// The right-handed perspective projection for any parameters: the
/// depth extent and the aspect ratio are checked first, and only
/// parameters that the projection accepts produce a matrix.
pub fn try_perspective(aspect: Scalar, fovy: Scalar, near: Scalar, far: Scalar) -> (r: Option<
    Mat4,
>)
    ensures
        r is Some <==> spec_f32_above_epsilon(aspect) && spec_f32_above_epsilon(
            f32_sub_of(far, near),
        ),
        r matches Some(m) ==> m == perspective_of(aspect, fovy, near, far),
{
    let depth = f32_sub(far, near);
    if f32_above_epsilon(aspect) && f32_above_epsilon(depth) {
        Some(perspective(aspect, fovy, near, far))
    } else {
        None
    }
}

/// Relies on nalgebra-glm's `ortho_rh`, the right-handed orthographic
/// projection matrix.
#[verifier::external_body]
pub fn ortho(left: Scalar, right: Scalar, bottom: Scalar, top: Scalar, znear: Scalar, zfar: Scalar) -> (r: Mat4)
    ensures
        r == ortho_of(left, right, bottom, top, znear, zfar),
{
    let v: nalgebra_glm::Vec4 = nalgebra_glm::vec4(
        bytemuck::cast(left), bytemuck::cast(right), bytemuck::cast(bottom), bytemuck::cast(top),
    );
    let n: nalgebra_glm::Vec2 = nalgebra_glm::vec2(bytemuck::cast(znear), bytemuck::cast(zfar));
    let m = nalgebra_glm::ortho_rh(v.x, v.y, v.z, v.w, n.x, n.y);
    let s: &[u32] = bytemuck::cast_slice(m.as_slice());
    Mat4 { m: s.try_into().unwrap() }
}

/// Relies on the machine's IEEE-754 single-precision addition.
#[verifier::external_body]
pub fn f32_add(a: Scalar, b: Scalar) -> (r: Scalar)
    ensures
        r == f32_add_of(a, b),
{
    let va: nalgebra_glm::Vec1 = nalgebra_glm::vec1(bytemuck::cast(a));
    let vb: nalgebra_glm::Vec1 = nalgebra_glm::vec1(bytemuck::cast(b));
    (va.x + vb.x).to_bits()
}

/// Relies on the machine's IEEE-754 single-precision subtraction.
#[verifier::external_body]
pub fn f32_sub(a: Scalar, b: Scalar) -> (r: Scalar)
    ensures
        r == f32_sub_of(a, b),
{
    let va: nalgebra_glm::Vec1 = nalgebra_glm::vec1(bytemuck::cast(a));
    let vb: nalgebra_glm::Vec1 = nalgebra_glm::vec1(bytemuck::cast(b));
    (va.x - vb.x).to_bits()
}

/// Relies on the machine's IEEE-754 single-precision multiplication.
#[verifier::external_body]
pub fn f32_mul(a: Scalar, b: Scalar) -> (r: Scalar)
    ensures
        r == f32_mul_of(a, b),
{
    let va: nalgebra_glm::Vec1 = nalgebra_glm::vec1(bytemuck::cast(a));
    let vb: nalgebra_glm::Vec1 = nalgebra_glm::vec1(bytemuck::cast(b));
    (va.x * vb.x).to_bits()
}

/// Relies on the machine's IEEE-754 single-precision division.
#[verifier::external_body]
pub fn f32_div(a: Scalar, b: Scalar) -> (r: Scalar)
    ensures
        r == f32_div_of(a, b),
{
    let va: nalgebra_glm::Vec1 = nalgebra_glm::vec1(bytemuck::cast(a));
    let vb: nalgebra_glm::Vec1 = nalgebra_glm::vec1(bytemuck::cast(b));
    (va.x / vb.x).to_bits()
}

/// Relies on `f32::signum`: `1.0` for positive values and positive zero,
/// `-1.0` for negative values and negative zero, NaN for NaN.
#[verifier::external_body]
pub fn f32_signum(a: Scalar) -> (r: Scalar)
    ensures
        r == f32_signum_of(a),
{
    let va: nalgebra_glm::Vec1 = nalgebra_glm::vec1(bytemuck::cast(a));
    va.x.signum().to_bits()
}

/// The identity matrix.
pub open spec fn mat4_identity_v() -> Mat4 {
    Mat4 {
        m: [
            ONE_BITS, ZERO_BITS, ZERO_BITS, ZERO_BITS,
            ZERO_BITS, ONE_BITS, ZERO_BITS, ZERO_BITS,
            ZERO_BITS, ZERO_BITS, ONE_BITS, ZERO_BITS,
            ZERO_BITS, ZERO_BITS, ZERO_BITS, ONE_BITS,
        ],
    }
}

impl Mat4 {
    /// The identity matrix.
    pub fn identity() -> (r: Mat4)
        ensures
            r == mat4_identity_v(),
    {
        Mat4 {
            m: [
                ONE_BITS, ZERO_BITS, ZERO_BITS, ZERO_BITS,
                ZERO_BITS, ONE_BITS, ZERO_BITS, ZERO_BITS,
                ZERO_BITS, ZERO_BITS, ONE_BITS, ZERO_BITS,
                ZERO_BITS, ZERO_BITS, ZERO_BITS, ONE_BITS,
            ],
        }
    }
}

/// The little-endian byte serialization of a sequence of scalars, in order.
pub open spec fn scalars_le_bytes(s: Seq<Scalar>) -> Seq<u8>
    decreases s.len(),
{
    if s.len() == 0 {
        Seq::empty()
    } else {
        scalars_le_bytes(s.drop_last()) + vstd::bytes::spec_u32_to_le_bytes(s.last())
    }
}

/// Serializing `n` scalars yields `4 * n` bytes.
pub proof fn lemma_scalars_le_bytes_len(s: Seq<Scalar>)
    ensures
        scalars_le_bytes(s).len() == 4 * s.len(),
    decreases s.len(),
{
    vstd::bytes::lemma_auto_spec_u32_to_from_le_bytes();
    if s.len() > 0 {
        lemma_scalars_le_bytes_len(s.drop_last());
    }
}

/// The 64-byte GPU layout of a matrix: its 16 entries in column-major
/// memory order, each as 4 little-endian bytes.
pub open spec fn mat4_le_bytes(m: Mat4) -> Seq<u8> {
    scalars_le_bytes(m.m@)
}

/// Appends the little-endian serialization of `xs` to `out`.
pub fn push_scalars_le(out: &mut Vec<u8>, xs: &[Scalar])
    ensures
        final(out)@ == old(out)@ + scalars_le_bytes(xs@),
{
    let n = xs.len();
    for i in 0..n
        invariant
            n == xs@.len(),
            out@ == old(out)@ + scalars_le_bytes(xs@.take(i as int)),
    {
        let mut b = vstd::bytes::u32_to_le_bytes(xs[i]);
        out.append(&mut b);
        proof {
            assert(xs@.take(i + 1).drop_last() =~= xs@.take(i as int));
            assert(xs@.take(i + 1).last() == xs@[i as int]);
        }
    }
    proof {
        assert(xs@.take(n as int) =~= xs@);
    }
}

/// Appends the 64-byte layout of a matrix to `out`.
pub fn push_mat4_le(out: &mut Vec<u8>, m: &Mat4)
    ensures
        final(out)@ == old(out)@ + mat4_le_bytes(*m),
{
    push_scalars_le(out, &m.m);
}

/// Relies on the lossless `From<u16>` conversion to single precision.
#[verifier::external_body]
pub fn u16_to_f32(x: u16) -> (r: Scalar)
    ensures
        r == f32_of_u16(x),
{
    let v: nalgebra_glm::Vec1 = nalgebra_glm::vec1(x.into());
    v.x.to_bits()
}

/// What the value `h / 2` is in single precision.
pub uninterp spec fn f32_of_halves(h: int) -> Scalar;

/// Relies on the lossless `From<i16>` conversion to single precision and
/// one multiplication by one half, exact for these small inputs: the
/// single-precision value `h / 2`.
#[verifier::external_body]
pub fn halves_to_f32(h: i16) -> (r: Scalar)
    ensures
        r == f32_of_halves(h as int),
{
    let v: nalgebra_glm::Vec1 = nalgebra_glm::vec1(h.into());
    let half: nalgebra_glm::Vec1 = nalgebra_glm::vec1(bytemuck::cast(0x3F00_0000u32));
    (v.x * half.x).to_bits()
}

} // verus!
