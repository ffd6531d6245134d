//! The vertex layouts the meshes are built from, and their serialization
//! into the exact byte images the GPU vertex buffers hold.

use crate::math::{scalars_le_bytes, lemma_scalars_le_bytes_len, push_scalars_le, Vec3};
use vstd::prelude::*;

verus! {

/// A vertex of the default (triangle) pipeline: a position and a color,
/// six single-precision values in memory order.
#[derive(Clone, Copy, Debug, PartialEq, Eq)]
pub struct DefaultVertex {
    pub position: Vec3,
    pub color: Vec3,
}

/// A vertex of the line pipeline: a position and a color, six
/// single-precision values in memory order.
#[derive(Clone, Copy, Debug, PartialEq, Eq)]
pub struct LineVertex {
    pub position: Vec3,
    pub color: Vec3,
}

/// The six scalars of a position/color vertex, in memory order.
pub open spec fn vertex_scalars(position: Vec3, color: Vec3) -> Seq<u32> {
    seq![position.x, position.y, position.z, color.x, color.y, color.z]
}

/// The byte image of a sequence of default vertices: 24 bytes each, in
/// order.
pub open spec fn default_vertices_le_bytes(vs: Seq<DefaultVertex>) -> Seq<u8>
    decreases vs.len(),
{
    if vs.len() == 0 {
        Seq::empty()
    } else {
        default_vertices_le_bytes(vs.drop_last()) + scalars_le_bytes(
            vertex_scalars(vs.last().position, vs.last().color),
        )
    }
}

/// The byte image of a sequence of line vertices: 24 bytes each, in order.
pub open spec fn line_vertices_le_bytes(vs: Seq<LineVertex>) -> Seq<u8>
    decreases vs.len(),
{
    if vs.len() == 0 {
        Seq::empty()
    } else {
        line_vertices_le_bytes(vs.drop_last()) + scalars_le_bytes(
            vertex_scalars(vs.last().position, vs.last().color),
        )
    }
}

/// Serializing `n` default vertices yields `24 * n` bytes.
pub proof fn lemma_default_vertices_le_bytes_len(vs: Seq<DefaultVertex>)
    ensures
        default_vertices_le_bytes(vs).len() == 24 * vs.len(),
    decreases vs.len(),
{
    if vs.len() > 0 {
        lemma_default_vertices_le_bytes_len(vs.drop_last());
        lemma_scalars_le_bytes_len(vertex_scalars(vs.last().position, vs.last().color));
    }
}

/// Serializing `n` line vertices yields `24 * n` bytes.
pub proof fn lemma_line_vertices_le_bytes_len(vs: Seq<LineVertex>)
    ensures
        line_vertices_le_bytes(vs).len() == 24 * vs.len(),
    decreases vs.len(),
{
    if vs.len() > 0 {
        lemma_line_vertices_le_bytes_len(vs.drop_last());
        lemma_scalars_le_bytes_len(vertex_scalars(vs.last().position, vs.last().color));
    }
}

/// The byte image of a default-vertex mesh, for the backend's vertex
/// buffer.
pub fn default_vertices_to_bytes(vs: &Vec<DefaultVertex>) -> (out: Vec<u8>)
    ensures
        out@ == default_vertices_le_bytes(vs@),
{
    let mut out: Vec<u8> = Vec::new();
    let n = vs.len();
    for i in 0..n
        invariant
            n == vs@.len(),
            out@ == default_vertices_le_bytes(vs@.take(i as int)),
    {
        let v = vs[i];
        let arr: [u32; 6] = [
            v.position.x,
            v.position.y,
            v.position.z,
            v.color.x,
            v.color.y,
            v.color.z,
        ];
        push_scalars_le(&mut out, &arr);
        proof {
            assert(vs@.take(i + 1).drop_last() =~= vs@.take(i as int));
            assert(vs@.take(i + 1).last() == vs@[i as int]);
            assert(arr@ =~= vertex_scalars(v.position, v.color));
        }
    }
    proof {
        assert(vs@.take(n as int) =~= vs@);
    }
    out
}

/// The byte image of a line-vertex mesh, for the backend's vertex buffer.
pub fn line_vertices_to_bytes(vs: &Vec<LineVertex>) -> (out: Vec<u8>)
    ensures
        out@ == line_vertices_le_bytes(vs@),
{
    let mut out: Vec<u8> = Vec::new();
    let n = vs.len();
    for i in 0..n
        invariant
            n == vs@.len(),
            out@ == line_vertices_le_bytes(vs@.take(i as int)),
    {
        let v = vs[i];
        let arr: [u32; 6] = [
            v.position.x,
            v.position.y,
            v.position.z,
            v.color.x,
            v.color.y,
            v.color.z,
        ];
        push_scalars_le(&mut out, &arr);
        proof {
            assert(vs@.take(i + 1).drop_last() =~= vs@.take(i as int));
            assert(vs@.take(i + 1).last() == vs@[i as int]);
            assert(arr@ =~= vertex_scalars(v.position, v.color));
        }
    }
    proof {
        assert(vs@.take(n as int) =~= vs@);
    }
    out
}

} // verus!
