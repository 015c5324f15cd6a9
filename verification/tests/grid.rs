use terrain_editor::grid::{grid_triangle_indices, indices_fit};

fn column_row(num_x: usize, v: u32) -> (i64, i64) {
    ((v as usize % num_x) as i64, (v as usize / num_x) as i64)
}

fn upward_winding(num_x: usize, a: u32, b: u32, c: u32) -> i64 {
    let (ax, az) = column_row(num_x, a);
    let (bx, bz) = column_row(num_x, b);
    let (cx, cz) = column_row(num_x, c);
    (bz - az) * (cx - ax) - (bx - ax) * (cz - az)
}

#[test]
fn single_quad_gives_two_triangles() {
    assert_eq!(grid_triangle_indices(2, 2), vec![0, 2, 1, 1, 2, 3]);
}

#[test]
fn three_by_two_grid() {
    assert_eq!(
        grid_triangle_indices(3, 2),
        vec![0, 3, 1, 1, 3, 4, 1, 4, 2, 2, 4, 5]
    );
}

#[test]
fn two_by_three_grid() {
    assert_eq!(
        grid_triangle_indices(2, 3),
        vec![0, 2, 1, 1, 2, 3, 2, 4, 3, 3, 4, 5]
    );
}

#[test]
fn degenerate_grids_have_no_triangles() {
    assert!(grid_triangle_indices(0, 0).is_empty());
    assert!(grid_triangle_indices(1, 5).is_empty());
    assert!(grid_triangle_indices(5, 1).is_empty());
    assert!(grid_triangle_indices(0, 7).is_empty());
    assert!(grid_triangle_indices(usize::MAX, 1).is_empty());
}

#[test]
fn default_terrain_size() {
    let indices = grid_triangle_indices(128, 128);
    assert_eq!(indices.len(), 127 * 127 * 6);
    assert_eq!(&indices[..6], &[0, 128, 1, 1, 128, 129]);
    let last = indices.len() - 6;
    assert_eq!(&indices[last..], &[16254, 16382, 16255, 16255, 16382, 16383]);
}

#[test]
fn every_index_is_a_vertex() {
    for &(nx, nz) in &[(2usize, 2usize), (3, 5), (7, 4), (16, 16)] {
        for &i in &grid_triangle_indices(nx, nz) {
            assert!((i as usize) < nx * nz);
        }
    }
}

#[test]
fn every_triangle_faces_up() {
    for &(nx, nz) in &[(2usize, 2usize), (3, 5), (6, 2)] {
        let indices = grid_triangle_indices(nx, nz);
        for t in indices.chunks(3) {
            assert_eq!(upward_winding(nx, t[0], t[1], t[2]), 1);
        }
    }
}

#[test]
fn index_fit_limit() {
    assert!(indices_fit(1, usize::MAX));
    assert!(indices_fit(65536, 65536));
    assert!(!indices_fit(65536, 65537));
    assert!(indices_fit(2, 1 << 31));
    assert!(!indices_fit(usize::MAX, 2));
}
