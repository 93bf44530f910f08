use triangles::cube::{cube_data, make_cube, CubeVertex, STRIP_LEN};
use triangles::grid::{grid_indices, grid_mesh};
use triangles::mesh::{lattice, quad_index, Sample, MAX_VERTICES};
use triangles::surf_rot::{revolution_indices, revolution_mesh};

fn s(col: u32, row: u32) -> Sample {
    Sample { col, row }
}

fn assert_valid(vertex_count: usize, indices: &[u16]) {
    assert_eq!(indices.len() % 3, 0);
    for &i in indices {
        assert!((i as usize) < vertex_count, "index {} of {} vertices", i, vertex_count);
    }
}

#[test]
fn quad_index_pushes_two_triangles() {
    let mut v: Vec<u16> = vec![7];
    quad_index(&mut v, 1, 10, 2, 20);
    assert_eq!(v, vec![7, 11, 12, 21, 21, 12, 22]);
}

#[test]
fn quad_index_at_the_top_of_the_index_range() {
    let mut v: Vec<u16> = Vec::new();
    quad_index(&mut v, 0, u16::MAX - 1, 1, u16::MAX - 1);
    assert_eq!(v, vec![65534, 65535, 65534, 65534, 65535, 65535]);
}

#[test]
fn lattice_is_row_major() {
    let l = lattice(3, 2);
    assert_eq!(l, vec![s(0, 0), s(1, 0), s(2, 0), s(0, 1), s(1, 1), s(2, 1)]);
}

#[test]
fn lattice_of_no_rows_is_empty() {
    assert!(lattice(5, 0).is_empty());
}

#[test]
fn grid_of_one_cell() {
    let (v, i) = grid_mesh(2, 2);
    assert_eq!(v, vec![s(0, 0), s(1, 0), s(0, 1), s(1, 1)]);
    assert_eq!(i, vec![0, 3, 2, 0, 1, 3]);
}

#[test]
fn grid_of_three_by_two() {
    let (v, i) = grid_mesh(3, 2);
    assert_eq!(v.len(), 6);
    assert_eq!(i, vec![0, 4, 3, 0, 1, 4, 1, 5, 4, 1, 2, 5]);
}

#[test]
fn grid_of_two_by_three() {
    let i = grid_indices(2, 3);
    assert_eq!(i, vec![0, 3, 2, 0, 1, 3, 2, 5, 4, 2, 3, 5]);
}

#[test]
fn grid_meshes_are_well_formed() {
    for &(c, r) in &[(2u32, 2u32), (11, 11), (21, 21), (7, 3), (256, 256), (2, 32768)] {
        let (v, i) = grid_mesh(c, r);
        assert_eq!(v.len(), (c * r) as usize);
        assert_eq!(i.len(), 6 * ((c - 1) * (r - 1)) as usize);
        assert_valid(v.len(), &i);
    }
}

#[test]
fn grid_vertex_at_lattice_position() {
    let (v, _) = grid_mesh(21, 21);
    assert_eq!(v[3 * 21 + 5], s(5, 3));
    assert_eq!(v[440], s(20, 20));
}

#[test]
fn largest_grid_uses_the_last_index() {
    let (v, i) = grid_mesh(256, 256);
    assert_eq!(v.len() as u32, MAX_VERTICES);
    assert_eq!(i.iter().copied().max(), Some(u16::MAX));
}

#[test]
fn revolution_of_one_step_and_two_points() {
    let (v, i) = revolution_mesh(1, 2);
    assert_eq!(v, vec![s(0, 0), s(1, 0), s(0, 1), s(1, 1)]);
    assert_eq!(i, vec![0, 1, 3, 0, 2, 3]);
}

#[test]
fn revolution_of_two_steps_and_three_points() {
    let i = revolution_indices(2, 3);
    assert_eq!(
        i,
        vec![0, 1, 4, 0, 3, 4, 1, 2, 5, 1, 4, 5, 3, 4, 7, 3, 6, 7, 4, 5, 8, 4, 7, 8]
    );
}

#[test]
fn revolution_counts() {
    for &(steps, n) in &[(8u32, 9usize), (8, 5), (8, 2), (1, 2), (3, 10)] {
        let (v, i) = revolution_mesh(steps, n);
        assert_eq!(v.len(), n * (steps as usize + 1));
        assert_eq!(i.len(), 6 * steps as usize * (n - 1));
        assert_valid(v.len(), &i);
    }
}

#[test]
fn revolution_seam_samples_are_a_full_turn_apart() {
    let steps = 8u32;
    let (v, _) = revolution_mesh(steps, 9);
    let ring = steps as usize + 1;
    for j in 0..9 {
        let first = v[j * ring];
        let last = v[j * ring + steps as usize];
        assert_eq!(first.row, j as u32);
        assert_eq!(last.row, j as u32);
        assert_eq!(last.col - first.col, steps);
    }
}

#[test]
fn cube_data_tables() {
    let (corners, strips, tex) = cube_data();
    assert_eq!(corners.len(), 8);
    assert_eq!(corners[0], [-1, -1, -1]);
    assert_eq!(corners[5], [1, -1, 1]);
    assert_eq!(corners[6], [-1, 1, 1]);
    assert_eq!(strips, vec![[0, 2, 4, 6, 5, 7, 1, 3], [4, 5, 0, 1, 2, 3, 6, 7]]);
    assert_eq!(tex.len(), 2);
    assert_eq!(tex[1], [[0, 1], [0, 0], [1, 1], [1, 0], [2, 1], [2, 0], [3, 1], [3, 0]]);
}

#[test]
fn cube_has_two_strips_of_eight() {
    let (v, i) = make_cube();
    assert_eq!(STRIP_LEN, 8);
    assert_eq!(v.len(), 16);
    assert_eq!(i.len(), 36);
    assert_valid(v.len(), &i);
}

#[test]
fn cube_indices_follow_the_stepping_rule() {
    let (_, i) = make_cube();
    assert_eq!(
        i,
        vec![
            0, 3, 1, 0, 2, 3, 2, 5, 3, 2, 4, 5, 4, 7, 5, 4, 6, 7, 8, 11, 9, 8, 10, 11, 10, 13,
            11, 10, 12, 13, 12, 15, 13, 12, 14, 15,
        ]
    );
}

#[test]
fn cube_vertices_follow_the_strips() {
    let (v, _) = make_cube();
    assert_eq!(v[0], CubeVertex { position: [-1, -1, -1], tex_coord: [0, 1] });
    assert_eq!(v[4], CubeVertex { position: [1, -1, 1], tex_coord: [2, 1] });
    assert_eq!(v[7], CubeVertex { position: [1, 1, -1], tex_coord: [3, 0] });
    assert_eq!(v[8], CubeVertex { position: [-1, -1, 1], tex_coord: [0, 1] });
    assert_eq!(v[15], CubeVertex { position: [1, 1, 1], tex_coord: [3, 0] });
}

#[test]
fn generators_are_repeatable() {
    assert_eq!(grid_mesh(21, 21), grid_mesh(21, 21));
    assert_eq!(revolution_mesh(8, 9), revolution_mesh(8, 9));
    assert_eq!(make_cube(), make_cube());
    assert_eq!(cube_data(), cube_data());
}
