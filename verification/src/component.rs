pub mod camera;
pub mod input;
pub mod render;
pub mod transform;

pub use camera::{Camera, CameraType, CameraUniform};
pub use input::{Input, InputType, Key};
pub use render::{DrawCommand, Render};
pub use transform::Transform;
pub use transform::TransformArena;
pub use transform::TransformBuild;
