use tiny_game_framework::{
    circle_indices, cuboid_corners, cuboid_indices, fix_iterations, quad_corners, quad_indices,
    reverse_faces, sphere_indices, sphere_lattice, triangle_indices, Corner, CUBOID_VERTEX_COUNT,
    MAX_SPHERE_ITERATIONS, QUAD_VERTEX_COUNT, TRIANGLE_VERTEX_COUNT,
};

fn corner(x: i8, y: i8, z: i8, u: u8, v: u8) -> Corner {
    Corner { x, y, z, u, v }
}

#[test]
fn iterations_below_four_are_raised_to_four() {
    assert_eq!(fix_iterations(-7), 4);
    assert_eq!(fix_iterations(0), 4);
    assert_eq!(fix_iterations(3), 4);
    assert_eq!(fix_iterations(i32::MIN), 4);
}

#[test]
fn iterations_from_four_on_are_kept() {
    assert_eq!(fix_iterations(4), 4);
    assert_eq!(fix_iterations(5), 5);
    assert_eq!(fix_iterations(128), 128);
    assert_eq!(fix_iterations(i32::MAX), i32::MAX);
}

#[test]
fn quad_is_two_triangles() {
    assert_eq!(quad_indices(), vec![0, 2, 1, 2, 3, 1]);
    assert_eq!(QUAD_VERTEX_COUNT, 4);
}

#[test]
fn quad_corners_walk_the_unit_square() {
    assert_eq!(
        quad_corners(),
        vec![
            corner(0, 0, 0, 0, 0),
            corner(0, 1, 0, 0, 1),
            corner(1, 0, 0, 1, 0),
            corner(1, 1, 0, 1, 1),
        ]
    );
}

#[test]
fn triangle_is_one_triangle() {
    assert_eq!(triangle_indices(), vec![0, 1, 2]);
    assert_eq!(TRIANGLE_VERTEX_COUNT, 3);
}

#[test]
fn circle_of_four_is_a_fan_of_two() {
    assert_eq!(circle_indices(4), vec![0, 1, 2, 0, 2, 3]);
}

#[test]
fn circle_of_five_is_a_fan_of_three() {
    assert_eq!(circle_indices(5), vec![0, 1, 2, 0, 2, 3, 0, 3, 4]);
}

#[test]
fn circle_of_three_is_one_triangle() {
    assert_eq!(circle_indices(3), vec![0, 1, 2]);
}

#[test]
fn circle_below_three_has_no_triangle() {
    assert!(circle_indices(2).is_empty());
    assert!(circle_indices(0).is_empty());
    assert!(circle_indices(-1).is_empty());
    assert!(circle_indices(i32::MIN).is_empty());
}

#[test]
fn circle_indices_stay_below_the_vertex_count() {
    for n in 3..40 {
        let indices = circle_indices(n);
        assert_eq!(indices.len() as i32, 3 * (n - 2));
        assert!(indices.iter().all(|&i| (i as i32) < n));
    }
}

#[test]
fn cuboid_has_six_faces_of_two_triangles() {
    assert_eq!(
        cuboid_indices(),
        vec![
            0, 1, 2, 2, 3, 0, 4, 5, 6, 6, 7, 4, 8, 9, 10, 10, 11, 8, 12, 13, 14, 14, 15, 12, 16,
            17, 18, 18, 19, 16, 20, 21, 22, 22, 23, 20,
        ]
    );
    assert_eq!(CUBOID_VERTEX_COUNT, 24);
}

#[test]
fn cuboid_corners_lie_on_their_faces() {
    let corners = cuboid_corners();
    assert_eq!(corners.len(), 24);
    assert!(corners[0..4].iter().all(|c| c.z == 1));
    assert!(corners[4..8].iter().all(|c| c.z == -1));
    assert!(corners[8..12].iter().all(|c| c.x == -1));
    assert!(corners[12..16].iter().all(|c| c.x == 1));
    assert!(corners[16..20].iter().all(|c| c.y == 1));
    assert!(corners[20..24].iter().all(|c| c.y == -1));
}

#[test]
fn cuboid_corners_are_the_table() {
    let corners = cuboid_corners();
    assert_eq!(corners[0], corner(-1, -1, 1, 0, 0));
    assert_eq!(corners[2], corner(1, 1, 1, 1, 1));
    assert_eq!(corners[7], corner(-1, 1, -1, 0, 1));
    assert_eq!(corners[9], corner(-1, -1, 1, 1, 0));
    assert_eq!(corners[12], corner(1, -1, -1, 0, 0));
    assert_eq!(corners[17], corner(1, 1, -1, 1, 0));
    assert_eq!(corners[23], corner(-1, -1, 1, 0, 1));
}

#[test]
fn cuboid_texture_coordinates_walk_the_unit_square_on_every_face() {
    let corners = cuboid_corners();
    for face in 0..6 {
        let uv: Vec<(u8, u8)> = corners[4 * face..4 * face + 4].iter().map(|c| (c.u, c.v)).collect();
        assert_eq!(uv, vec![(0, 0), (1, 0), (1, 1), (0, 1)]);
    }
}

#[test]
fn sphere_lattice_runs_ring_after_ring() {
    let points = sphere_lattice(2);
    assert_eq!(
        points,
        vec![(0, 0), (0, 1), (0, 2), (1, 0), (1, 1), (1, 2), (2, 0), (2, 1), (2, 2)]
    );
}

#[test]
fn sphere_lattice_of_zero_is_one_point() {
    assert_eq!(sphere_lattice(0), vec![(0, 0)]);
}

#[test]
fn sphere_lattice_below_zero_is_empty() {
    assert!(sphere_lattice(-1).is_empty());
    assert!(sphere_lattice(i32::MIN).is_empty());
}

#[test]
fn sphere_of_two_has_four_cells() {
    assert_eq!(
        sphere_indices(2),
        vec![
            0, 3, 1, 3, 4, 1, //
            1, 4, 2, 4, 5, 2, //
            3, 6, 4, 6, 7, 4, //
            4, 7, 5, 7, 8, 5,
        ]
    );
}

#[test]
fn sphere_of_four_starts_and_ends_as_computed() {
    let indices = sphere_indices(4);
    assert_eq!(indices.len(), 96);
    assert_eq!(&indices[0..6], &[0, 5, 1, 5, 6, 1]);
    assert_eq!(&indices[90..96], &[18, 23, 19, 23, 24, 19]);
}

#[test]
fn sphere_below_one_has_no_cell() {
    assert!(sphere_indices(0).is_empty());
    assert!(sphere_indices(-3).is_empty());
}

#[test]
fn sphere_indices_name_lattice_points() {
    for n in 1..20 {
        let indices = sphere_indices(n);
        let points = sphere_lattice(n);
        assert_eq!(indices.len() as i32, 6 * n * n);
        assert_eq!(points.len() as i32, (n + 1) * (n + 1));
        assert!(indices.iter().all(|&i| (i as usize) < points.len()));
    }
}

#[test]
fn sphere_cells_span_their_lattice_points() {
    let n = 5;
    let indices = sphere_indices(n);
    let points = sphere_lattice(n);
    for lat in 0..n {
        for lon in 0..n {
            let base = (6 * (lat * n + lon)) as usize;
            let at = |k: usize| points[indices[base + k] as usize];
            assert_eq!(at(0), (lat, lon));
            assert_eq!(at(1), (lat + 1, lon));
            assert_eq!(at(2), (lat, lon + 1));
            assert_eq!(at(3), (lat + 1, lon));
            assert_eq!(at(4), (lat + 1, lon + 1));
            assert_eq!(at(5), (lat, lon + 1));
        }
    }
}

#[test]
fn largest_sphere_limit_is_the_last_that_fits() {
    let n = MAX_SPHERE_ITERATIONS as i64;
    assert!((n + 1) * (n + 1) - 1 <= i32::MAX as i64);
    assert!((n + 2) * (n + 2) - 1 > i32::MAX as i64);
}

#[test]
fn reverse_faces_reverses_runs_of_six() {
    let mut indices = vec![0, 1, 2, 3, 4, 5, 6, 7, 8, 9, 10, 11];
    reverse_faces(&mut indices);
    assert_eq!(indices, vec![5, 4, 3, 2, 1, 0, 11, 10, 9, 8, 7, 6]);
}

#[test]
fn reverse_faces_reverses_a_short_last_run_as_it_stands() {
    let mut indices = vec![1, 2, 3, 4, 5, 6, 7, 8];
    reverse_faces(&mut indices);
    assert_eq!(indices, vec![6, 5, 4, 3, 2, 1, 8, 7]);

    let mut one_triangle = vec![7, 8, 9];
    reverse_faces(&mut one_triangle);
    assert_eq!(one_triangle, vec![9, 8, 7]);
}

#[test]
fn reverse_faces_leaves_an_empty_buffer_empty() {
    let mut indices: Vec<u32> = Vec::new();
    reverse_faces(&mut indices);
    assert!(indices.is_empty());
}

#[test]
fn reverse_faces_twice_gives_the_buffer_back() {
    for len in 0..30u32 {
        let before: Vec<u32> = (0..len).map(|k| k * 7 % 11).collect();
        let mut indices = before.clone();
        reverse_faces(&mut indices);
        reverse_faces(&mut indices);
        assert_eq!(indices, before);
    }
}

#[test]
fn reverse_faces_agrees_with_reversing_chunks() {
    for len in 0..30u32 {
        let before: Vec<u32> = (0..len).map(|k| k * 5 % 13).collect();
        let mut expected = before.clone();
        for face in expected.chunks_mut(6) {
            face.reverse();
        }
        let mut indices = before;
        reverse_faces(&mut indices);
        assert_eq!(indices, expected);
    }
}
