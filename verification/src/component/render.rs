//! The renderable component: the mesh data a backend must upload into its
//! vertex and index buffers, the name of the pipeline to draw with, and the
//! optional per-instance transform buffer.

use vstd::prelude::*;

verus! {

/// A renderable: mesh contents for the backend's buffers, a pipeline name
/// to be resolved at draw time, and the backend handle of the shared
/// per-instance transform buffer, if the entity has one.
#[derive(Debug)]
pub struct Render {
    /// The contents of the vertex buffer, already in GPU byte layout.
    pub vertex_data: Vec<u8>,
    /// The contents of the index buffer, 16-bit indices.
    pub index_data: Vec<u16>,
    /// The registry key of the pipeline this renderable is drawn with.
    pub pipeline: String,
    /// How many indices a draw of this renderable covers.
    pub index_count: u32,
    /// Backend handle of the per-instance transform buffer, if any.
    pub transform_buffer: Option<usize>,
}

/// One indexed draw, fully resolved: every field is a handle the backend
/// can act on without further lookups.
#[derive(Clone, Copy, Debug, PartialEq, Eq)]
pub struct DrawCommand {
    /// Which renderable's vertex and index buffers to bind.
    pub renderable: usize,
    /// Resolved registry handle of the pipeline to bind.
    pub pipeline: usize,
    /// Resolved registry handle of the camera bind group, bound at slot 0.
    pub camera_bind_group: usize,
    /// Backend handle of the per-instance buffer for vertex slot 1, if any.
    pub instance_buffer: Option<usize>,
    /// How many indices to draw.
    pub index_count: u32,
}

impl Render {
    /// A renderable from mesh contents.  The index count is the length of
    /// the index list.
    pub fn new(
        mesh: (Vec<u8>, Vec<u16>),
        pipeline: String,
        transform_buffer: Option<usize>,
    ) -> (r: Render)
        requires
            mesh.1@.len() <= u32::MAX,
        ensures
            r.vertex_data@ == mesh.0@,
            r.index_data@ == mesh.1@,
            r.pipeline@ == pipeline@,
            r.index_count == mesh.1@.len(),
            r.transform_buffer == transform_buffer,
    {
        let (vertex_data, index_data) = mesh;
        let index_count = index_data.len() as u32;
        Render { vertex_data, index_data, pipeline, index_count, transform_buffer }
    }

    /// The draw command for this renderable, given its own handle and the
    /// resolved pipeline and camera bind group handles.
    pub fn draw(&self, renderable: usize, pipeline: usize, camera_bind_group: usize) -> (c:
        DrawCommand)
        ensures
            c == (DrawCommand {
                renderable,
                pipeline,
                camera_bind_group,
                instance_buffer: self.transform_buffer,
                index_count: self.index_count,
            }),
    {
        DrawCommand {
            renderable,
            pipeline,
            camera_bind_group,
            instance_buffer: self.transform_buffer,
            index_count: self.index_count,
        }
    }
}

} // verus!
