//! A minimal real-time 3D engine core: a transform hierarchy with
//! parent-relative composition, a camera deriving view and projection
//! matrices, procedural meshes, and a per-frame update/render scheduler.
//!
//! All scalar state is carried as IEEE-754 bit patterns (see [`math`]), so
//! every data structure is made of plain values; the floating-point work is
//! done by nalgebra-glm behind the trusted wrappers of [`math`].  The GPU,
//! the window, and the debug overlay stay outside: the engine produces frame
//! plans (buffer writes and draw commands) for a backend to carry out.

pub mod component;
pub mod engine;
pub mod math;
pub mod shapes;
pub mod vertex_type;

pub use component::{Transform, TransformArena, TransformBuild};
pub use math::{Mat4, Quat, Scalar, Vec3};
