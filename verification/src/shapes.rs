//! Procedural mesh producers: the line grid and the marching-squares
//! terrain quad.

use crate::math::{
    f32_add_of, f32_div, f32_div_of, f32_mul, f32_mul_of, f32_of_halves, f32_of_u16, f32_sub,
    f32_sub_of, flip_sign, halves_to_f32, spec_f64_is_negative, spec_flip_sign, u16_to_f32,
    f32_add, f64_is_negative, Scalar, Vec3, HALF_BITS, ONE_BITS, ZERO_BITS,
};
use crate::vertex_type::{DefaultVertex, LineVertex};
use vstd::arithmetic::div_mod::lemma_fundamental_div_mod_converse;
use vstd::prelude::*;

verus! {

/// The color of every grid line vertex, red.
pub open spec fn grid_color_v() -> Vec3 {
    Vec3 { x: ONE_BITS, y: ZERO_BITS, z: ZERO_BITS }
}

/// Half of `w`: `w * 0.5`.
pub open spec fn grid_half(w: Scalar) -> Scalar {
    f32_mul_of(w, HALF_BITS)
}

/// The grid step along one axis: the extent divided by the vertex count of
/// that axis less one.
pub open spec fn grid_step(extent: Scalar, count: u32) -> Scalar {
    f32_div_of(extent, f32_sub_of(f32_of_u16(count as u16), ONE_BITS))
}

/// The x coordinate of grid column `j`: `-width/2 + j * dx`.
pub open spec fn grid_x(width: Scalar, n: u32, j: int) -> Scalar {
    f32_add_of(
        spec_flip_sign(grid_half(width)),
        f32_mul_of(f32_of_u16(j as u16), grid_step(width, n)),
    )
}

/// The z coordinate of grid row `i`: `depth/2 - i * dz`.
pub open spec fn grid_z(depth: Scalar, m: u32, i: int) -> Scalar {
    f32_sub_of(grid_half(depth), f32_mul_of(f32_of_u16(i as u16), grid_step(depth, m)))
}

/// Vertex `k` of the grid: row `k / n`, column `k % n`, on the y = 0
/// plane.
pub open spec fn grid_vertex(width: Scalar, depth: Scalar, m: u32, n: u32, k: int) -> LineVertex {
    LineVertex {
        position: Vec3 {
            x: grid_x(width, n, k % (n as int)),
            y: ZERO_BITS,
            z: grid_z(depth, m, k / (n as int)),
        },
        color: grid_color_v(),
    }
}

/// The full vertex lattice of the grid, row-major.
pub open spec fn grid_vertices(width: Scalar, depth: Scalar, m: u32, n: u32) -> Seq<LineVertex> {
    Seq::new((m * n) as nat, |k: int| grid_vertex(width, depth, m, n, k))
}

/// A run of zero indices.
pub open spec fn zero_indices(len: int) -> Seq<u16> {
    Seq::new(len as nat, |k: int| 0u16)
}

/// The eight line indices of grid cell `(i, j)`: the cell's four corner
/// vertices, each edge as a pair, truncated to 16 bits.
pub open spec fn grid_cell_indices(n: u32, i: int, j: int) -> Seq<u16> {
    let a = (i * n + j) as u16;
    let b = (i * n + j + 1) as u16;
    let c = ((i + 1) * n + j + 1) as u16;
    let d = ((i + 1) * n + j) as u16;
    seq![a, b, b, c, c, d, d, a]
}

/// The line indices of the first `count` grid cells, cells taken in
/// row-major order over the `(m-1) * (n-1)` cells.
pub open spec fn grid_cells(n: u32, count: int) -> Seq<u16>
    decreases count,
{
    if count <= 0 {
        Seq::empty()
    } else {
        grid_cells(n, count - 1) + grid_cell_indices(
            n,
            (count - 1) / ((n - 1) as int),
            (count - 1) % ((n - 1) as int),
        )
    }
}

/// The cell walk emits eight indices per cell.
pub proof fn lemma_grid_cells_len(n: u32, count: int)
    ensures
        grid_cells(n, count).len() == if count <= 0 { 0int } else { 8 * count },
    decreases count,
{
    if count > 0 {
        lemma_grid_cells_len(n, count - 1);
    }
}

/// An `m` by `n` grid of line vertices spanning `width` by `depth` on the
/// y = 0 plane, with the line list of every cell's four edges.  The index
/// list starts with one run of zeros per cell edge slot, kept from the
/// preallocated buffer the cell loop then appends to.
pub fn create_grid(width: Scalar, depth: Scalar, m: u32, n: u32) -> (r: (
    Vec<LineVertex>,
    Vec<u16>,
))
    requires
        1 <= m <= 0xFFFF,
        1 <= n <= 0xFFFF,
        8 * (m - 1) * (n - 1) <= u32::MAX,
    ensures
        r.0@ == grid_vertices(width, depth, m, n),
        r.1@ == zero_indices(8 * (m - 1) * (n - 1)) + grid_cells(n, (m - 1) * (n - 1)),
{
    proof {
        assert((m - 1) * (n - 1) * 2 <= 8 * (m - 1) * (n - 1) && 4 * ((m - 1) * (n - 1) * 2) == 8
            * (m - 1) * (n - 1)) by (nonlinear_arith)
            requires
                1 <= m,
                1 <= n,
        ;
    }
    let face_count: u32 = (m - 1) * (n - 1) * 2;
    let half_width = f32_mul(width, HALF_BITS);
    let half_depth = f32_mul(depth, HALF_BITS);
    let dx = f32_div(width, f32_sub(u16_to_f32(n as u16), ONE_BITS));
    let dz = f32_div(depth, f32_sub(u16_to_f32(m as u16), ONE_BITS));

    let mut vertices: Vec<LineVertex> = Vec::new();
    proof {
        assert(0 * (n as int) == 0) by (nonlinear_arith);
    }
    for i in 0..m
        invariant
            m <= 0xFFFF,
            n <= 0xFFFF,
            half_width == grid_half(width),
            half_depth == grid_half(depth),
            dx == grid_step(width, n),
            dz == grid_step(depth, m),
            vertices@.len() == i * n,
            forall|k: int|
                0 <= k < vertices@.len() ==> vertices@[k] == grid_vertex(width, depth, m, n, k),
    {
        proof {
            assert((i + 1) * (n as int) == i * n + n) by (nonlinear_arith);
            assert(i * (n as int) + n <= 0x10000 * 0x10000) by (nonlinear_arith)
                requires
                    i < 0x10000,
                    n <= 0x10000,
            ;
        }
        let z = f32_sub(half_depth, f32_mul(u16_to_f32(i as u16), dz));
        for j in 0..n
            invariant
                m <= 0xFFFF,
                n <= 0xFFFF,
                i < m,
                half_width == grid_half(width),
                dx == grid_step(width, n),
                z == grid_z(depth, m, i as int),
                i * n + n <= 0x1_0000_0000,
                vertices@.len() == i * n + j,
                forall|k: int|
                    0 <= k < vertices@.len() ==> vertices@[k] == grid_vertex(width, depth, m, n, k),
        {
            let x = f32_add(flip_sign(half_width), f32_mul(u16_to_f32(j as u16), dx));
            vertices.push(
                LineVertex {
                    position: Vec3 { x, y: ZERO_BITS, z },
                    color: Vec3 { x: ONE_BITS, y: ZERO_BITS, z: ZERO_BITS },
                },
            );
            proof {
                let k = i * (n as int) + j;
                lemma_fundamental_div_mod_converse(k, n as int, i as int, j as int);
            }
        }
    }
    proof {
        assert(m * (n as int) == (m - 1) * n + n) by (nonlinear_arith)
            requires
                m >= 1,
        ;
    }

    let mut indices: Vec<u16> = Vec::new();
    let zero_len: u32 = face_count * 4;
    let mut z: u32 = 0;
    while z < zero_len
        invariant
            z <= zero_len,
            indices@ =~= zero_indices(z as int),
        decreases zero_len - z,
    {
        indices.push(0u16);
        proof {
            assert(indices@ =~= zero_indices(z + 1 as int));
        }
        z = z + 1;
    }
    proof {
        assert(zero_len == 8 * (m - 1) * (n - 1)) by (nonlinear_arith)
            requires
                face_count == (m - 1) * (n - 1) * 2,
                zero_len == 4 * face_count,
        ;
    }

    let ghost zeros = indices@;
    proof {
        assert(0 * ((n - 1) as int) == 0) by (nonlinear_arith);
        assert(indices@ =~= zeros + grid_cells(n, 0));
    }
    for i in 0..(m - 1)
        invariant
            1 <= m <= 0xFFFF,
            1 <= n <= 0xFFFF,
            zeros == zero_indices(8 * (m - 1) * (n - 1)),
            indices@ == zeros + grid_cells(n, i * (n - 1)),
    {
        proof {
            assert((i + 1) * ((n - 1) as int) == i * (n - 1) + (n - 1)) by (nonlinear_arith);
        }
        for j in 0..(n - 1)
            invariant
                1 <= m <= 0xFFFF,
                1 <= n <= 0xFFFF,
                i < m - 1,
                zeros == zero_indices(8 * (m - 1) * (n - 1)),
                indices@ == zeros + grid_cells(n, i * (n - 1) + j),
        {
            proof {
                assert(i * (n as int) + j + 1 < 0x1_0000_0000 && (i + 1) * (n as int) + j + 1
                    < 0x1_0000_0000) by (nonlinear_arith)
                    requires
                        i + 1 <= 0xFFFE,
                        n <= 0xFFFF,
                        j + 1 <= 0xFFFE,
                ;
            }
            let a = #[verifier::truncate] ((i * n + j) as u16);
            let b = #[verifier::truncate] ((i * n + (j + 1)) as u16);
            let c = #[verifier::truncate] (((i + 1) * n + j + 1) as u16);
            let d = #[verifier::truncate] (((i + 1) * n + j) as u16);
            indices.push(a);
            indices.push(b);
            indices.push(b);
            indices.push(c);
            indices.push(c);
            indices.push(d);
            indices.push(d);
            indices.push(a);
            proof {
                let cnum = i * ((n - 1) as int) + j;
                lemma_fundamental_div_mod_converse(cnum, (n - 1) as int, i as int, j as int);
                assert(grid_cells(n, cnum + 1) == grid_cells(n, cnum) + grid_cell_indices(
                    n,
                    i as int,
                    j as int,
                ));
                assert(indices@ =~= zeros + grid_cells(n, cnum + 1));
            }
        }
    }
    proof {
        assert(((m - 1) as int) * ((n - 1) as int) == (m - 1) * (n - 1)) by (nonlinear_arith);
        assert(vertices@ =~= grid_vertices(width, depth, m, n));
    }
    (vertices, indices)
}

/// Bit pattern of `0.2f32`.
pub const FIFTH_BITS: Scalar = 0x3E4C_CCCD;

/// Bit pattern of `0.4f32`.
pub const TWO_FIFTHS_BITS: Scalar = 0x3ECC_CCCD;

/// Bit pattern of `0.7f32`.
pub const SEVEN_TENTHS_BITS: Scalar = 0x3F33_3333;

/// What sampling the terrain noise field at integer grid coordinates
/// returns, as the bit pattern of an IEEE-754 double-precision value.
pub uninterp spec fn terrain_sample_of(i: int, j: int) -> u64;

/// Relies on the noise crate's fractal Brownian motion generator `Fbm`,
/// seeded with 19 and with lacunarity and persistence both one tenth: a
/// pure function of its seed, its parameters and its input coordinates,
/// the same on every machine.
#[verifier::external_body]
fn terrain_sample(i: u16, j: u16) -> (r: u64)
    ensures
        r == terrain_sample_of(i as int, j as int),
{
    let mut g = noise::Seedable::set_seed(noise::Fbm::new(), 19);
    let one: nalgebra_glm::DVec1 = nalgebra_glm::vec1(1u8.into());
    let ten: nalgebra_glm::DVec1 = nalgebra_glm::vec1(10u8.into());
    g.lacunarity = one.x / ten.x;
    g.persistence = one.x / ten.x;
    noise::NoiseFn::get(&g, [i.into(), j.into()]).to_bits()
}

/// The sample stored at position `k` of the flattened sample grid, which
/// is filled row by row with `y` samples per row.
pub open spec fn sample_lookup(y: u16, k: int) -> u64 {
    terrain_sample_of(k / (y as int), k % (y as int))
}

/// Whether the sample read at flattened position `k` lies below the
/// threshold of zero.  The reading position is computed with a row stride
/// of `x` although the grid is stored with a row stride of `y`; the two
/// agree when the quad is square, and the contract states the reading as
/// performed either way.
pub open spec fn below_at(x: u16, y: u16, i: int, j: int) -> bool {
    spec_f64_is_negative(sample_lookup(y, i * (x as int) + j))
}

/// The marching-squares case table: for each combination of the four cell
/// corners being below the threshold (top-left, top-right, bottom-right,
/// bottom-left), the emitted vertex offsets in half-units relative to the
/// cell origin, the vertex color, and the triangle indices as back-offsets
/// from the vertex count after the cell's vertices are pushed.
pub open spec fn cell_case(a: bool, b: bool, c: bool, d: bool) -> (Seq<(i16, i16)>, Vec3, Seq<
    u8,
>) {
    let white = Vec3 { x: ONE_BITS, y: ONE_BITS, z: ONE_BITS };
    match (a, b, c, d) {
        (false, false, false, false) => (
            Seq::empty(),
            Vec3 { x: ZERO_BITS, y: ZERO_BITS, z: ZERO_BITS },
            Seq::empty(),
        ),
        (false, false, false, true) => (
            seq![(2i16, 0i16), (1i16, 0i16), (2i16, 1i16)],
            Vec3 { x: ZERO_BITS, y: ONE_BITS, z: ONE_BITS },
            seq![3u8, 2u8, 1u8],
        ),
        (false, false, true, false) => (
            seq![(2i16, 1i16), (1i16, 2i16), (2i16, 2i16)],
            Vec3 { x: ONE_BITS, y: ONE_BITS, z: ZERO_BITS },
            seq![3u8, 2u8, 1u8],
        ),
        (false, false, true, true) => (
            seq![(1i16, 0i16), (1i16, 2i16), (2i16, 0i16), (2i16, 2i16)],
            Vec3 { x: ZERO_BITS, y: ZERO_BITS, z: ZERO_BITS },
            seq![4u8, 3u8, 2u8, 2u8, 3u8, 1u8],
        ),
        (false, true, false, false) => (
            seq![(0i16, 1i16), (0i16, 2i16), (1i16, 2i16)],
            white,
            seq![3u8, 2u8, 1u8],
        ),
        (false, true, false, true) => (
            seq![(2i16, 0i16), (1i16, 0i16), (0i16, 1i16), (0i16, 2i16), (1i16, 2i16), (2i16, 1i16)],
            Vec3 { x: ONE_BITS, y: ZERO_BITS, z: ONE_BITS },
            seq![6u8, 5u8, 1u8, 2u8, 1u8, 5u8, 2u8, 5u8, 4u8, 2u8, 4u8, 3u8],
        ),
        (false, true, true, false) => (
            seq![(0i16, 1i16), (0i16, 2i16), (2i16, 1i16), (2i16, 2i16)],
            Vec3 { x: FIFTH_BITS, y: TWO_FIFTHS_BITS, z: SEVEN_TENTHS_BITS },
            seq![4u8, 3u8, 2u8, 2u8, 3u8, 1u8],
        ),
        (false, true, true, true) => (
            seq![(2i16, 0i16), (1i16, 0i16), (0i16, 1i16), (0i16, 2i16), (2i16, 2i16)],
            white,
            seq![1u8, 5u8, 4u8, 1u8, 4u8, 3u8, 1u8, 3u8, 2u8],
        ),
        (true, false, false, false) => (
            seq![(0i16, 0i16), (1i16, 0i16), (0i16, 1i16)],
            white,
            seq![1u8, 2u8, 3u8],
        ),
        (true, false, false, true) => (
            seq![(0i16, 0i16), (0i16, 1i16), (2i16, 1i16), (2i16, 0i16)],
            Vec3 { x: SEVEN_TENTHS_BITS, y: SEVEN_TENTHS_BITS, z: SEVEN_TENTHS_BITS },
            seq![3u8, 2u8, 1u8, 4u8, 3u8, 1u8],
        ),
        (true, false, true, false) => (
            seq![(0i16, 0i16), (1i16, 0i16), (2i16, 1i16), (2i16, 2i16), (1i16, 2i16), (0i16, 1i16)],
            Vec3 { x: ZERO_BITS, y: ONE_BITS, z: ZERO_BITS },
            seq![1u8, 5u8, 6u8, 1u8, 4u8, 5u8, 2u8, 4u8, 1u8, 2u8, 3u8, 4u8],
        ),
        (true, false, true, true) => (
            seq![(2i16, 2i16), (1i16, 2i16), (0i16, 1i16), (0i16, 0i16), (2i16, 0i16)],
            white,
            seq![4u8, 5u8, 1u8, 3u8, 4u8, 1u8, 2u8, 3u8, 1u8],
        ),
        (true, true, false, false) => (
            seq![(0i16, 0i16), (1i16, 0i16), (1i16, 2i16), (0i16, 2i16)],
            Vec3 { x: SEVEN_TENTHS_BITS, y: FIFTH_BITS, z: HALF_BITS },
            seq![1u8, 3u8, 4u8, 1u8, 2u8, 3u8],
        ),
        (true, true, false, true) => (
            seq![(0i16, 0i16), (2i16, 0i16), (2i16, 1i16), (1i16, 2i16), (0i16, 2i16)],
            Vec3 { x: ONE_BITS, y: ZERO_BITS, z: ONE_BITS },
            seq![4u8, 5u8, 1u8, 3u8, 4u8, 1u8, 2u8, 3u8, 1u8],
        ),
        (true, true, true, false) => (
            seq![(1i16, 0i16), (0i16, 0i16), (0i16, 2i16), (2i16, 2i16), (2i16, 1i16)],
            Vec3 { x: ONE_BITS, y: ONE_BITS, z: ZERO_BITS },
            seq![3u8, 5u8, 4u8, 3u8, 1u8, 5u8, 3u8, 2u8, 1u8],
        ),
        (true, true, true, true) => (
            seq![(0i16, 0i16), (2i16, 0i16), (2i16, 2i16), (0i16, 2i16)],
            Vec3 { x: ZERO_BITS, y: ONE_BITS, z: ZERO_BITS },
            seq![1u8, 3u8, 4u8, 1u8, 2u8, 3u8],
        ),
    }
}

/// In every case of the table, each vertex offset lies in the cell (zero
/// to two half-units) and each index back-offset reaches a vertex of the
/// case (one to the case's vertex count).
pub proof fn lemma_cell_case_bounds(a: bool, b: bool, c: bool, d: bool)
    ensures
        forall|t: int|
            0 <= t < cell_case(a, b, c, d).0.len() ==> {
                let o = #[trigger] cell_case(a, b, c, d).0[t];
                0 <= o.0 <= 2 && 0 <= o.1 <= 2
            },
        forall|t: int|
            0 <= t < cell_case(a, b, c, d).2.len() ==> 1 <= (#[trigger] cell_case(
                a,
                b,
                c,
                d,
            ).2[t]) <= cell_case(a, b, c, d).0.len(),
{
}

/// The vertices one cell emits: its case's offsets placed at the cell
/// origin `(px, py)` (in half-units), colored with the case's color.
pub open spec fn cell_vertices(a: bool, b: bool, c: bool, d: bool, px: int, py: int) -> Seq<
    DefaultVertex,
> {
    let (offs, color, _) = cell_case(a, b, c, d);
    offs.map_values(
        |o: (i16, i16)|
            DefaultVertex {
                position: Vec3 {
                    x: f32_of_halves(px + o.0),
                    y: ZERO_BITS,
                    z: f32_of_halves(py + o.1),
                },
                color,
            },
    )
}

/// The indices one cell emits: each back-offset subtracted from the
/// vertex count after the cell's vertices are pushed on top of `base`,
/// truncated to 16 bits.
pub open spec fn cell_indices(a: bool, b: bool, c: bool, d: bool, base: int) -> Seq<u16> {
    let (offs, _, ks) = cell_case(a, b, c, d);
    ks.map_values(|k: u8| (base + offs.len() - k) as u16)
}

/// The case table as executable data.
fn cell_case_exec(a: bool, b: bool, c: bool, d: bool) -> (r: (Vec<(i16, i16)>, Vec3, Vec<u8>))
    ensures
        r.0@ == cell_case(a, b, c, d).0,
        r.1 == cell_case(a, b, c, d).1,
        r.2@ == cell_case(a, b, c, d).2,
{
    match (a, b, c, d) {
        (false, false, false, false) => (
            Vec::new(),
            Vec3 { x: ZERO_BITS, y: ZERO_BITS, z: ZERO_BITS },
            Vec::new(),
        ),
        (false, false, false, true) => (
            vec![(2i16, 0i16), (1i16, 0i16), (2i16, 1i16)],
            Vec3 { x: ZERO_BITS, y: ONE_BITS, z: ONE_BITS },
            vec![3u8, 2u8, 1u8],
        ),
        (false, false, true, false) => (
            vec![(2i16, 1i16), (1i16, 2i16), (2i16, 2i16)],
            Vec3 { x: ONE_BITS, y: ONE_BITS, z: ZERO_BITS },
            vec![3u8, 2u8, 1u8],
        ),
        (false, false, true, true) => (
            vec![(1i16, 0i16), (1i16, 2i16), (2i16, 0i16), (2i16, 2i16)],
            Vec3 { x: ZERO_BITS, y: ZERO_BITS, z: ZERO_BITS },
            vec![4u8, 3u8, 2u8, 2u8, 3u8, 1u8],
        ),
        (false, true, false, false) => (
            vec![(0i16, 1i16), (0i16, 2i16), (1i16, 2i16)],
            Vec3 { x: ONE_BITS, y: ONE_BITS, z: ONE_BITS },
            vec![3u8, 2u8, 1u8],
        ),
        (false, true, false, true) => (
            vec![
                (2i16, 0i16),
                (1i16, 0i16),
                (0i16, 1i16),
                (0i16, 2i16),
                (1i16, 2i16),
                (2i16, 1i16),
            ],
            Vec3 { x: ONE_BITS, y: ZERO_BITS, z: ONE_BITS },
            vec![6u8, 5u8, 1u8, 2u8, 1u8, 5u8, 2u8, 5u8, 4u8, 2u8, 4u8, 3u8],
        ),
        (false, true, true, false) => (
            vec![(0i16, 1i16), (0i16, 2i16), (2i16, 1i16), (2i16, 2i16)],
            Vec3 { x: FIFTH_BITS, y: TWO_FIFTHS_BITS, z: SEVEN_TENTHS_BITS },
            vec![4u8, 3u8, 2u8, 2u8, 3u8, 1u8],
        ),
        (false, true, true, true) => (
            vec![(2i16, 0i16), (1i16, 0i16), (0i16, 1i16), (0i16, 2i16), (2i16, 2i16)],
            Vec3 { x: ONE_BITS, y: ONE_BITS, z: ONE_BITS },
            vec![1u8, 5u8, 4u8, 1u8, 4u8, 3u8, 1u8, 3u8, 2u8],
        ),
        (true, false, false, false) => (
            vec![(0i16, 0i16), (1i16, 0i16), (0i16, 1i16)],
            Vec3 { x: ONE_BITS, y: ONE_BITS, z: ONE_BITS },
            vec![1u8, 2u8, 3u8],
        ),
        (true, false, false, true) => (
            vec![(0i16, 0i16), (0i16, 1i16), (2i16, 1i16), (2i16, 0i16)],
            Vec3 { x: SEVEN_TENTHS_BITS, y: SEVEN_TENTHS_BITS, z: SEVEN_TENTHS_BITS },
            vec![3u8, 2u8, 1u8, 4u8, 3u8, 1u8],
        ),
        (true, false, true, false) => (
            vec![
                (0i16, 0i16),
                (1i16, 0i16),
                (2i16, 1i16),
                (2i16, 2i16),
                (1i16, 2i16),
                (0i16, 1i16),
            ],
            Vec3 { x: ZERO_BITS, y: ONE_BITS, z: ZERO_BITS },
            vec![1u8, 5u8, 6u8, 1u8, 4u8, 5u8, 2u8, 4u8, 1u8, 2u8, 3u8, 4u8],
        ),
        (true, false, true, true) => (
            vec![(2i16, 2i16), (1i16, 2i16), (0i16, 1i16), (0i16, 0i16), (2i16, 0i16)],
            Vec3 { x: ONE_BITS, y: ONE_BITS, z: ONE_BITS },
            vec![4u8, 5u8, 1u8, 3u8, 4u8, 1u8, 2u8, 3u8, 1u8],
        ),
        (true, true, false, false) => (
            vec![(0i16, 0i16), (1i16, 0i16), (1i16, 2i16), (0i16, 2i16)],
            Vec3 { x: SEVEN_TENTHS_BITS, y: FIFTH_BITS, z: HALF_BITS },
            vec![1u8, 3u8, 4u8, 1u8, 2u8, 3u8],
        ),
        (true, true, false, true) => (
            vec![(0i16, 0i16), (2i16, 0i16), (2i16, 1i16), (1i16, 2i16), (0i16, 2i16)],
            Vec3 { x: ONE_BITS, y: ZERO_BITS, z: ONE_BITS },
            vec![4u8, 5u8, 1u8, 3u8, 4u8, 1u8, 2u8, 3u8, 1u8],
        ),
        (true, true, true, false) => (
            vec![(1i16, 0i16), (0i16, 0i16), (0i16, 2i16), (2i16, 2i16), (2i16, 1i16)],
            Vec3 { x: ONE_BITS, y: ONE_BITS, z: ZERO_BITS },
            vec![3u8, 5u8, 4u8, 3u8, 1u8, 5u8, 3u8, 2u8, 1u8],
        ),
        (true, true, true, true) => (
            vec![(0i16, 0i16), (2i16, 0i16), (2i16, 2i16), (0i16, 2i16)],
            Vec3 { x: ZERO_BITS, y: ONE_BITS, z: ZERO_BITS },
            vec![1u8, 3u8, 4u8, 1u8, 2u8, 3u8],
        ),
    }
}

/// Appends the vertices and indices of one marching-squares cell, with
/// corner states `(a, b, c, d)` and the cell origin at `(px, py)` in
/// half-units.
fn emit_cell(
    vertices: &mut Vec<DefaultVertex>,
    indices: &mut Vec<u16>,
    a: bool,
    b: bool,
    c: bool,
    d: bool,
    px: i16,
    py: i16,
)
    requires
        -1000 <= px <= 1000,
        -1000 <= py <= 1000,
    ensures
        final(vertices)@ == old(vertices)@ + cell_vertices(a, b, c, d, px as int, py as int),
        final(indices)@ == old(indices)@ + cell_indices(a, b, c, d, old(vertices)@.len() as int),
{
    let (offs, color, ks) = cell_case_exec(a, b, c, d);
    proof {
        lemma_cell_case_bounds(a, b, c, d);
    }
    let ghost cv = cell_vertices(a, b, c, d, px as int, py as int);
    let ghost ci = cell_indices(a, b, c, d, old(vertices)@.len() as int);
    let base = vertices.len();
    let vcount = offs.len();
    for t in 0..vcount
        invariant
            offs@ == cell_case(a, b, c, d).0,
            color == cell_case(a, b, c, d).1,
            vcount == offs@.len(),
            -1000 <= px <= 1000,
            -1000 <= py <= 1000,
            forall|u: int|
                0 <= u < offs@.len() ==> {
                    let o = #[trigger] offs@[u];
                    0 <= o.0 <= 2 && 0 <= o.1 <= 2
                },
            cv == cell_vertices(a, b, c, d, px as int, py as int),
            vertices@ == old(vertices)@ + cv.take(t as int),
    {
        let o = offs[t];
        let v = DefaultVertex {
            position: Vec3 {
                x: halves_to_f32(px + o.0),
                y: ZERO_BITS,
                z: halves_to_f32(py + o.1),
            },
            color,
        };
        vertices.push(v);
        proof {
            assert(cv[t as int] == v);
            assert(cv.take(t + 1) =~= cv.take(t as int).push(v));
        }
    }
    proof {
        assert(cv.take(vcount as int) =~= cv);
        assert(vertices@.len() == base + vcount);
    }
    let total = vertices.len();
    let kcount = ks.len();
    for t in 0..kcount
        invariant
            ks@ == cell_case(a, b, c, d).2,
            kcount == ks@.len(),
            vcount == cell_case(a, b, c, d).0.len(),
            total == base + vcount,
            forall|u: int|
                0 <= u < ks@.len() ==> 1 <= (#[trigger] ks@[u]) <= vcount,
            ci == cell_indices(a, b, c, d, base as int),
            indices@ == old(indices)@ + ci.take(t as int),
    {
        let k = ks[t];
        let val = total - (k as usize);
        let idx = #[verifier::truncate] (val as u16);
        indices.push(idx);
        proof {
            assert(ci[t as int] == idx);
            assert(ci.take(t + 1) =~= ci.take(t as int).push(idx));
        }
    }
    proof {
        assert(ci.take(kcount as int) =~= ci);
    }
}

/// No case of the table emits more than six vertices or twelve indices.
pub proof fn lemma_cell_case_len(a: bool, b: bool, c: bool, d: bool)
    ensures
        cell_case(a, b, c, d).0.len() <= 6,
        cell_case(a, b, c, d).2.len() <= 12,
{
}

/// The mesh the first `count` cells of the marching-squares walk emit,
/// cells taken row-major over the `(x-2) * (y-2)` interior grid cells,
/// rows and columns starting at one.
pub open spec fn march_meshes(x: u16, y: u16, width: u16, height: u16, count: int) -> (Seq<
    DefaultVertex,
>, Seq<u16>)
    decreases count,
{
    if count <= 0 {
        (Seq::empty(), Seq::empty())
    } else {
        let (vs, ixs) = march_meshes(x, y, width, height, count - 1);
        let i = 1 + (count - 1) / ((y - 2) as int);
        let j = 1 + (count - 1) % ((y - 2) as int);
        let a = below_at(x, y, i, j);
        let b = below_at(x, y, i, j + 1);
        let c = below_at(x, y, i + 1, j + 1);
        let d = below_at(x, y, i + 1, j);
        let px = 2 * i - width;
        let py = 2 * j - height;
        (
            vs + cell_vertices(a, b, c, d, px, py),
            ixs + cell_indices(a, b, c, d, vs.len() as int),
        )
    }
}

/// The cell walk emits at most six vertices and twelve indices per cell.
pub proof fn lemma_march_meshes_len(x: u16, y: u16, width: u16, height: u16, count: int)
    ensures
        march_meshes(x, y, width, height, count).0.len() <= if count <= 0 { 0int } else {
            6 * count
        },
        march_meshes(x, y, width, height, count).1.len() <= if count <= 0 { 0int } else {
            12 * count
        },
    decreases count,
{
    if count > 0 {
        lemma_march_meshes_len(x, y, width, height, count - 1);
        let i = 1 + (count - 1) / ((y - 2) as int);
        let j = 1 + (count - 1) % ((y - 2) as int);
        let a = below_at(x, y, i, j);
        let b = below_at(x, y, i, j + 1);
        let c = below_at(x, y, i + 1, j + 1);
        let d = below_at(x, y, i + 1, j);
        lemma_cell_case_len(a, b, c, d);
    }
}

/// The marching-squares terrain quad: the noise field is sampled on a
/// `(2*width+2)` by `(2*height+2)` grid, every interior cell is matched
/// against the case table by which of its corners sample below zero, and
/// the cells' triangles are accumulated in row-major order.  The bounds
/// keep the 16-bit index arithmetic of the cell walk from overflowing.
pub fn create_quad_marching_squares(width: u16, height: u16) -> (r: (
    Vec<DefaultVertex>,
    Vec<u16>,
))
    requires
        width <= height,
        height <= 126,
    ensures
        r.0@ == march_meshes(
            (2 * width + 2) as u16,
            (2 * height + 2) as u16,
            width,
            height,
            (2 * width) * (2 * height),
        ).0,
        r.1@ == march_meshes(
            (2 * width + 2) as u16,
            (2 * height + 2) as u16,
            width,
            height,
            (2 * width) * (2 * height),
        ).1,
{
    let x: u16 = width * 2 + 2;
    let y: u16 = height * 2 + 2;

    let mut vert_values: Vec<u64> = Vec::new();
    proof {
        assert(0 * (y as int) == 0) by (nonlinear_arith);
    }
    for i in 0..x
        invariant
            x <= 254,
            y <= 254,
            x == 2 * width + 2,
            y == 2 * height + 2,
            vert_values@.len() == i * y,
            forall|k: int|
                0 <= k < vert_values@.len() ==> vert_values@[k] == sample_lookup(y, k),
    {
        proof {
            assert((i + 1) * (y as int) == i * y + y) by (nonlinear_arith);
            assert(i * (y as int) + y <= 254 * 254) by (nonlinear_arith)
                requires
                    i < 254,
                    y <= 254,
            ;
        }
        for j in 0..y
            invariant
                x <= 254,
                y <= 254,
                i < x,
                i * y + y <= 254 * 254,
                vert_values@.len() == i * y + j,
                forall|k: int|
                    0 <= k < vert_values@.len() ==> vert_values@[k] == sample_lookup(y, k),
        {
            vert_values.push(terrain_sample(i, j));
            proof {
                let k = i * (y as int) + j;
                lemma_fundamental_div_mod_converse(k, y as int, i as int, j as int);
            }
        }
    }

    let mut vertices: Vec<DefaultVertex> = Vec::new();
    let mut indices: Vec<u16> = Vec::new();
    if x < 2 || y < 2 {
        return (vertices, indices);
    }
    proof {
        assert(0 * ((y - 2) as int) == 0) by (nonlinear_arith);
    }
    for i in 1..(x - 1)
        invariant
            2 <= x <= 254,
            2 <= y <= 254,
            x <= y,
            x == 2 * width + 2,
            y == 2 * height + 2,
            vert_values@.len() == x * y,
            forall|k: int|
                0 <= k < vert_values@.len() ==> vert_values@[k] == sample_lookup(y, k),
            vertices@ == march_meshes(x, y, width, height, (i - 1) * (y - 2)).0,
            indices@ == march_meshes(x, y, width, height, (i - 1) * (y - 2)).1,
    {
        proof {
            assert(i * ((y - 2) as int) == (i - 1) * (y - 2) + (y - 2)) by (nonlinear_arith);
        }
        for j in 1..(y - 1)
            invariant
                2 <= x <= 254,
                2 <= y <= 254,
                x <= y,
                x == 2 * width + 2,
                y == 2 * height + 2,
                1 <= i < x - 1,
                vert_values@.len() == x * y,
                forall|k: int|
                    0 <= k < vert_values@.len() ==> vert_values@[k] == sample_lookup(y, k),
                vertices@ == march_meshes(x, y, width, height, (i - 1) * (y - 2) + (j - 1)).0,
                indices@ == march_meshes(x, y, width, height, (i - 1) * (y - 2) + (j - 1)).1,
        {
            proof {
                assert((i + 1) * (x as int) + j + 1 < 0x10000 && (i + 1) * (x as int) + j + 1 < (x
                    as int) * (y as int) && i * (x as int) <= (i + 1) * (x as int)) by (
                nonlinear_arith)
                    requires
                        1 <= i < x - 1,
                        1 <= j < y - 1,
                        2 <= x <= 254,
                        2 <= y <= 254,
                        x <= y,
                ;
            }
            let position_a = i * x + j;
            let a = f64_is_negative(vert_values[position_a as usize]);
            let position_b = i * x + j + 1;
            let b = f64_is_negative(vert_values[position_b as usize]);
            let position_c = (i + 1) * x + j + 1;
            let c = f64_is_negative(vert_values[position_c as usize]);
            let position_d = (i + 1) * x + j;
            let d = f64_is_negative(vert_values[position_d as usize]);

            let px: i16 = 2 * (i as i16) - (width as i16);
            let py: i16 = 2 * (j as i16) - (height as i16);
            emit_cell(&mut vertices, &mut indices, a, b, c, d, px, py);
            proof {
                let cnum = (i - 1) * ((y - 2) as int) + (j - 1);
                lemma_fundamental_div_mod_converse(cnum, (y - 2) as int, i - 1, j - 1);
            }
        }
    }
    proof {
        assert(((x - 2) as int) * ((y - 2) as int) == ((2 * width) as int) * ((2 * height) as int))
            by (nonlinear_arith)
            requires
                x == 2 * width + 2,
                y == 2 * height + 2,
        ;
    }
    (vertices, indices)
}

} // verus!
