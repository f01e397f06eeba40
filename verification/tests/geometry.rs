use quadbatch::geometry::quad::Quad;
use quadbatch::geometry::vertex::Vertex;
use quadbatch::geometry::{encode_indices, encode_vertices, Geometry, MAX_QUADS};

#[test]
fn fresh_geometry_is_empty() {
    let g = Geometry::new();
    assert_eq!(g.vertex_data.len(), 0);
    assert_eq!(g.index_data.len(), 0);
    assert_eq!(g.num_quads, 0);
}

#[test]
fn quad_vertex_values() {
    // A quad centered at (10, 10) with size (4, 6) emits exactly
    // (8,7), (12,7), (12,13), (8,13), in that order.
    let mut g = Geometry::new();
    g.push_quad(&Quad::new((10, 10), (4, 6)));
    assert_eq!(
        g.vertex_data,
        vec![
            Vertex { position: (8, 7) },
            Vertex { position: (12, 7) },
            Vertex { position: (12, 13) },
            Vertex { position: (8, 13) },
        ]
    );
}

#[test]
fn accumulation_counts() {
    let mut g = Geometry::new();
    for i in 0..3 {
        g.push_quad(&Quad::new((i, i), (2, 2)));
    }
    assert_eq!(g.num_quads, 3);
    assert_eq!(g.vertex_data.len(), 12);
    assert_eq!(g.index_data.len(), 18);
    assert_eq!(g.index_data.iter().max(), Some(&11));
}

#[test]
fn index_pattern_per_quad() {
    let mut g = Geometry::new();
    g.push_quad(&Quad::new((0, 0), (2, 2)));
    g.push_quad(&Quad::new((5, 5), (2, 2)));
    assert_eq!(
        g.index_data,
        vec![0, 1, 2, 0, 2, 3, 4, 5, 6, 4, 6, 7]
    );
}

#[test]
fn reset_matches_fresh() {
    let mut g = Geometry::new();
    g.push_quad(&Quad::new((1, 2), (3, 4)));
    g.push_quad(&Quad::new((-5, -6), (7, 8)));
    g.reset();
    let fresh = Geometry::new();
    assert_eq!(g.vertex_data, fresh.vertex_data);
    assert_eq!(g.index_data, fresh.index_data);
    assert_eq!(g.num_quads, fresh.num_quads);
}

#[test]
fn zero_size_quad_is_degenerate_but_well_formed() {
    let mut g = Geometry::new();
    g.push_quad(&Quad::new((3, -4), (0, 0)));
    assert_eq!(
        g.vertex_data,
        vec![
            Vertex { position: (3, -4) },
            Vertex { position: (3, -4) },
            Vertex { position: (3, -4) },
            Vertex { position: (3, -4) },
        ]
    );
    assert_eq!(g.index_data, vec![0, 1, 2, 0, 2, 3]);
}

#[test]
fn negative_size_quad_flips_corners() {
    // Half of a negative size rounds toward zero, as the signed division does.
    let mut g = Geometry::new();
    g.push_quad(&Quad::new((10, 10), (-4, -6)));
    assert_eq!(
        g.vertex_data,
        vec![
            Vertex { position: (12, 13) },
            Vertex { position: (8, 13) },
            Vertex { position: (8, 7) },
            Vertex { position: (12, 7) },
        ]
    );
}

#[test]
fn odd_size_quad_uses_truncated_half() {
    let mut g = Geometry::new();
    g.push_quad(&Quad::new((0, 0), (5, 3)));
    assert_eq!(
        g.vertex_data,
        vec![
            Vertex { position: (-2, -1) },
            Vertex { position: (2, -1) },
            Vertex { position: (2, 1) },
            Vertex { position: (-2, 1) },
        ]
    );
}

#[test]
fn max_quads_bound_value() {
    // The batch bound keeps both the index count (6 n) and the greatest
    // index value (4 n - 1) within an unsigned 32-bit integer.
    assert_eq!(MAX_QUADS, (u32::MAX - 3) / 6);
    assert!(6u64 * MAX_QUADS as u64 <= u32::MAX as u64);
    assert!(4u64 * MAX_QUADS as u64 - 1 <= u32::MAX as u64);
}

#[test]
fn encode_vertices_little_endian() {
    let vs = vec![Vertex { position: (1, -1) }];
    assert_eq!(
        encode_vertices(&vs),
        vec![1, 0, 0, 0, 255, 255, 255, 255]
    );
}

#[test]
fn encode_indices_little_endian() {
    let xs = vec![258u32, 1u32];
    assert_eq!(encode_indices(&xs), vec![2, 1, 0, 0, 1, 0, 0, 0]);
}
