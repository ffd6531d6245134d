//! The mesh producers: the line grid against a direct reimplementation of
//! its arithmetic, and the marching-squares walk against the noise field
//! sampled directly.

use mini3d::shapes::{create_grid, create_quad_marching_squares};
use noise::{NoiseFn, Seedable};

#[test]
fn grid_matches_direct_float_computation() {
    let (m, n) = (4u32, 5u32);
    let (width, depth) = (100.0f32, 80.0f32);
    let (vertices, indices) = create_grid(width.to_bits(), depth.to_bits(), m, n);

    let half_width = width * 0.5;
    let half_depth = depth * 0.5;
    let dx = width / (n as f32 - 1.0);
    let dz = depth / (m as f32 - 1.0);

    assert_eq!(vertices.len(), (m * n) as usize);
    for i in 0..m {
        let z = half_depth - i as f32 * dz;
        for j in 0..n {
            let x = -half_width + j as f32 * dx;
            let v = &vertices[(i * n + j) as usize];
            assert_eq!(v.position.x, x.to_bits());
            assert_eq!(v.position.y, 0.0f32.to_bits());
            assert_eq!(v.position.z, z.to_bits());
            assert_eq!(v.color.x, 1.0f32.to_bits());
            assert_eq!(v.color.y, 0.0f32.to_bits());
            assert_eq!(v.color.z, 0.0f32.to_bits());
        }
    }

    let mut expected = vec![0u16; ((m - 1) * (n - 1) * 2 * 4) as usize];
    for i in 0..m - 1 {
        for j in 0..n - 1 {
            expected.push((i * n + j) as u16);
            expected.push((i * n + (j + 1)) as u16);
            expected.push((i * n + (j + 1)) as u16);
            expected.push(((i + 1) * n + j + 1) as u16);
            expected.push(((i + 1) * n + j + 1) as u16);
            expected.push(((i + 1) * n + j) as u16);
            expected.push(((i + 1) * n + j) as u16);
            expected.push((i * n + j) as u16);
        }
    }
    assert_eq!(indices, expected);
}

#[test]
fn single_vertex_axis_grid_divides_by_zero_without_failing() {
    // With one row the step divides by zero and the coordinates become
    // non-finite, but the producer still yields the full lattice.
    let (vertices, indices) = create_grid(10.0f32.to_bits(), 10.0f32.to_bits(), 1, 3);
    assert_eq!(vertices.len(), 3);
    assert_eq!(indices.len(), 0);
}

/// The case table of the marching-squares walk, in plain floating-point
/// form: vertex offsets within the unit cell, the vertex color, and
/// triangle indices as back-offsets from the vertex count after the cell's
/// vertices are appended.
#[allow(clippy::type_complexity)]
fn case_data(
    mask: (bool, bool, bool, bool),
) -> (Vec<(f32, f32)>, [f32; 3], Vec<usize>) {
    match mask {
        (false, false, false, false) => (vec![], [0.0, 0.0, 0.0], vec![]),
        (false, false, false, true) => (
            vec![(1.0, 0.0), (0.5, 0.0), (1.0, 0.5)],
            [0.0, 1.0, 1.0],
            vec![3, 2, 1],
        ),
        (false, false, true, false) => (
            vec![(1.0, 0.5), (0.5, 1.0), (1.0, 1.0)],
            [1.0, 1.0, 0.0],
            vec![3, 2, 1],
        ),
        (false, false, true, true) => (
            vec![(0.5, 0.0), (0.5, 1.0), (1.0, 0.0), (1.0, 1.0)],
            [0.0, 0.0, 0.0],
            vec![4, 3, 2, 2, 3, 1],
        ),
        (false, true, false, false) => (
            vec![(0.0, 0.5), (0.0, 1.0), (0.5, 1.0)],
            [1.0, 1.0, 1.0],
            vec![3, 2, 1],
        ),
        (false, true, false, true) => (
            vec![(1.0, 0.0), (0.5, 0.0), (0.0, 0.5), (0.0, 1.0), (0.5, 1.0), (1.0, 0.5)],
            [1.0, 0.0, 1.0],
            vec![6, 5, 1, 2, 1, 5, 2, 5, 4, 2, 4, 3],
        ),
        (false, true, true, false) => (
            vec![(0.0, 0.5), (0.0, 1.0), (1.0, 0.5), (1.0, 1.0)],
            [0.2, 0.4, 0.7],
            vec![4, 3, 2, 2, 3, 1],
        ),
        (false, true, true, true) => (
            vec![(1.0, 0.0), (0.5, 0.0), (0.0, 0.5), (0.0, 1.0), (1.0, 1.0)],
            [1.0, 1.0, 1.0],
            vec![1, 5, 4, 1, 4, 3, 1, 3, 2],
        ),
        (true, false, false, false) => (
            vec![(0.0, 0.0), (0.5, 0.0), (0.0, 0.5)],
            [1.0, 1.0, 1.0],
            vec![1, 2, 3],
        ),
        (true, false, false, true) => (
            vec![(0.0, 0.0), (0.0, 0.5), (1.0, 0.5), (1.0, 0.0)],
            [0.7, 0.7, 0.7],
            vec![3, 2, 1, 4, 3, 1],
        ),
        (true, false, true, false) => (
            vec![(0.0, 0.0), (0.5, 0.0), (1.0, 0.5), (1.0, 1.0), (0.5, 1.0), (0.0, 0.5)],
            [0.0, 1.0, 0.0],
            vec![1, 5, 6, 1, 4, 5, 2, 4, 1, 2, 3, 4],
        ),
        (true, false, true, true) => (
            vec![(1.0, 1.0), (0.5, 1.0), (0.0, 0.5), (0.0, 0.0), (1.0, 0.0)],
            [1.0, 1.0, 1.0],
            vec![4, 5, 1, 3, 4, 1, 2, 3, 1],
        ),
        (true, true, false, false) => (
            vec![(0.0, 0.0), (0.5, 0.0), (0.5, 1.0), (0.0, 1.0)],
            [0.7, 0.2, 0.5],
            vec![1, 3, 4, 1, 2, 3],
        ),
        (true, true, false, true) => (
            vec![(0.0, 0.0), (1.0, 0.0), (1.0, 0.5), (0.5, 1.0), (0.0, 1.0)],
            [1.0, 0.0, 1.0],
            vec![4, 5, 1, 3, 4, 1, 2, 3, 1],
        ),
        (true, true, true, false) => (
            vec![(0.5, 0.0), (0.0, 0.0), (0.0, 1.0), (1.0, 1.0), (1.0, 0.5)],
            [1.0, 1.0, 0.0],
            vec![3, 5, 4, 3, 1, 5, 3, 2, 1],
        ),
        (true, true, true, true) => (
            vec![(0.0, 0.0), (1.0, 0.0), (1.0, 1.0), (0.0, 1.0)],
            [0.0, 1.0, 0.0],
            vec![1, 3, 4, 1, 2, 3],
        ),
    }
}

#[test]
fn marching_squares_matches_the_sampled_field_cell_by_cell() {
    let (width, height) = (6u16, 6u16);
    let (vertices, indices) = create_quad_marching_squares(width, height);

    // Sample the same field directly.
    let mut generator = noise::Fbm::new().set_seed(19);
    generator.lacunarity = 0.1;
    generator.persistence = 0.1;
    let x = width * 2 + 2;
    let y = height * 2 + 2;
    let mut values = Vec::new();
    for i in 0..x {
        for j in 0..y {
            values.push(generator.get([f64::from(i), f64::from(j)]));
        }
    }

    let mut vertex_base = 0usize;
    let mut index_base = 0usize;
    for i in 1..x - 1 {
        for j in 1..y - 1 {
            let mask = (
                values[(i * x + j) as usize] < 0.0,
                values[(i * x + j + 1) as usize] < 0.0,
                values[((i + 1) * x + j + 1) as usize] < 0.0,
                values[((i + 1) * x + j) as usize] < 0.0,
            );
            let (offsets, color, back_offsets) = case_data(mask);
            let px = f32::from(i) - f32::from(width) * 0.5;
            let py = f32::from(j) - f32::from(height) * 0.5;
            for (v, (ox, oz)) in vertices[vertex_base..vertex_base + offsets.len()]
                .iter()
                .zip(&offsets)
            {
                assert_eq!(v.position.x, (ox + px).to_bits());
                assert_eq!(v.position.y, 0.0f32.to_bits());
                assert_eq!(v.position.z, (oz + py).to_bits());
                assert_eq!(v.color.x, color[0].to_bits());
                assert_eq!(v.color.y, color[1].to_bits());
                assert_eq!(v.color.z, color[2].to_bits());
            }
            let len_after = vertex_base + offsets.len();
            for (ix, k) in indices[index_base..index_base + back_offsets.len()]
                .iter()
                .zip(&back_offsets)
            {
                assert_eq!(*ix as usize, len_after - k);
            }
            vertex_base += offsets.len();
            index_base += back_offsets.len();
        }
    }
    assert_eq!(vertices.len(), vertex_base);
    assert_eq!(indices.len(), index_base);
    assert!(vertex_base > 0, "the sampled field crosses the threshold");
}
