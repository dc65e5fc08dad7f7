use spinning_cube::cube::{Cube, HALF_EDGE, TENTHS_PER_UNIT};

#[test]
fn new_cube_has_unit_corners() {
    let cube = Cube::new();
    assert_eq!(cube.positions[0], [-5, -5, 5]);
    assert_eq!(cube.positions[2], [5, 5, 5]);
    assert_eq!(cube.positions[6], [-5, -5, -5]);
    assert_eq!(cube.positions[7], [-5, 5, -5]);
    for p in cube.positions.iter() {
        for c in p.iter() {
            assert!(*c == HALF_EDGE || *c == -HALF_EDGE);
        }
    }
    // Edge length is one unit.
    assert_eq!(2 * HALF_EDGE, TENTHS_PER_UNIT);
}

#[test]
fn new_cube_indices_and_colors() {
    let cube = Cube::new();
    assert_eq!(
        cube.indices,
        [
            0, 1, 2, 0, 2, 3, 1, 4, 5, 1, 5, 2, 3, 2, 5, 3, 5, 7, 6, 4, 1, 6, 1, 0, 4, 6, 7, 4, 7,
            5, 6, 0, 3, 6, 3, 7
        ]
    );
    assert!(cube.indices.iter().all(|&i| i < 8));
    assert_eq!(cube.colors[0], [10, 0, 0]);
    assert_eq!(cube.colors[2], [0, 3, 6]);
    assert_eq!(cube.colors[3], [3, 3, 3]);
    assert_eq!(cube.colors[4], [0, 10, 0]);
}

fn outwardness(p0: [i32; 3], p1: [i32; 3], p2: [i32; 3]) -> i32 {
    let u = [p1[0] - p0[0], p1[1] - p0[1], p1[2] - p0[2]];
    let v = [p2[0] - p0[0], p2[1] - p0[1], p2[2] - p0[2]];
    let n = [u[1] * v[2] - u[2] * v[1], u[2] * v[0] - u[0] * v[2], u[0] * v[1] - u[1] * v[0]];
    n[0] * p0[0] + n[1] * p0[1] + n[2] * p0[2]
}

#[test]
fn every_triangle_is_counter_clockwise_from_outside() {
    let cube = Cube::new();
    for t in 0..12 {
        let p = |j: usize| cube.positions[cube.indices[3 * t + j] as usize];
        assert_eq!(outwardness(p(0), p(1), p(2)), 500, "triangle {}", t);
    }
}

#[test]
fn front_face_looks_towards_positive_z() {
    let cube = Cube::new();
    // The first two triangles make up the face at z = +0.5.
    for k in 0..6 {
        assert_eq!(cube.positions[cube.indices[k] as usize][2], 5);
    }
}

#[test]
fn interleaved_alternates_positions_and_colors() {
    let cube = Cube::new();
    let data = cube.interleaved();
    assert_eq!(data.len(), 16);
    for i in 0..8 {
        assert_eq!(data[2 * i], cube.positions[i]);
        assert_eq!(data[2 * i + 1], cube.colors[i]);
    }
    assert_eq!(data[0], [-5, -5, 5]);
    assert_eq!(data[1], [10, 0, 0]);
    assert_eq!(data[5], [0, 3, 6]);
}

#[test]
fn interleaved_works_on_float_vertices() {
    let int_cube = Cube::new();
    let to_f = |a: [i32; 3]| a.map(|x| x as f32 / TENTHS_PER_UNIT as f32);
    let cube = Cube {
        positions: int_cube.positions.map(to_f),
        indices: int_cube.indices,
        colors: int_cube.colors.map(to_f),
    };
    let data = cube.interleaved();
    assert_eq!(data[0], [-0.5, -0.5, 0.5]);
    assert_eq!(data[1], [1.0, 0.0, 0.0]);
    assert_eq!(data[5], [0.0, 0.3, 0.6]);
    assert_eq!(data[7], [0.3, 0.3, 0.3]);
    assert_eq!(data[15], [0.0, 1.0, 0.0]);
}

#[test]
fn index_bytes_are_the_indices_in_native_order() {
    let cube = Cube::new();
    let bytes = cube.index_bytes();
    assert_eq!(bytes.len(), 36 * 4);
    let expected: Vec<u8> = cube.indices.iter().flat_map(|i| i.to_ne_bytes()).collect();
    assert_eq!(bytes, &expected[..]);
    // Not the identity on the index array: index 7 takes four bytes.
    assert_eq!(bytes[17 * 4..18 * 4], 7u32.to_ne_bytes());
}

#[test]
fn index_count_is_three_per_triangle() {
    let cube = Cube::new();
    assert_eq!(cube.index_count(), 36);
}
