//! The triangle layout of a regular terrain grid.
//!
//! A grid of `num_x * num_z` vertices is stored row by row: the vertex at column `ix`
//! and row `iz` has index `iz * num_x + ix`. Every cell (quad) of the grid is split into
//! two triangles, `(i0, i2, i1)` and `(i1, i2, i3)`, where `i0` is the quad's corner with
//! the smallest index, `i1` its neighbour in the next column, `i2` its neighbour in the
//! next row and `i3` the corner opposite `i0`.

use vstd::prelude::*;
use vstd::arithmetic::div_mod::lemma_div_pos_is_pos;
use vstd::arithmetic::div_mod::lemma_fundamental_div_mod;
use vstd::arithmetic::div_mod::lemma_fundamental_div_mod_converse;
use vstd::arithmetic::div_mod::lemma_mod_pos_bound;
use vstd::arithmetic::div_mod::lemma_multiply_divide_lt;
use vstd::arithmetic::mul::lemma_mul_is_commutative;
use vstd::arithmetic::mul::lemma_mul_is_distributive_add_other_way;

verus! {

/// Number of quads along an axis that holds `n` vertices (`n - 1`, and 0 for an empty axis).
pub open spec fn quad_count(n: int) -> int {
    if n >= 1 {
        n - 1
    } else {
        0
    }
}

/// Index of the vertex at column `ix` and row `iz` of a grid `num_x` vertices wide.
pub open spec fn vertex_index(num_x: int, ix: int, iz: int) -> int {
    iz * num_x + ix
}

/// The `c`-th of the six indices emitted for the quad whose first corner is the vertex
/// at column `ix` and row `iz`: the triangles `(i0, i2, i1)` and `(i1, i2, i3)`.
pub open spec fn quad_corner(num_x: int, ix: int, iz: int, c: int) -> int {
    let i0 = vertex_index(num_x, ix, iz);
    if c == 0 {
        i0
    } else if c == 1 || c == 4 {
        i0 + num_x
    } else if c == 2 || c == 3 {
        i0 + 1
    } else {
        i0 + num_x + 1
    }
}

/// Entry `k` of the index buffer of a grid `num_x` vertices wide: quads are visited row
/// by row, six entries per quad.
pub open spec fn grid_index_at(num_x: int, k: int) -> u32 {
    let qx = quad_count(num_x);
    let q = k / 6;
    quad_corner(num_x, q % qx, q / qx, k % 6) as u32
}

/// Number of entries in the index buffer of a grid of `num_x * num_z` vertices.
pub open spec fn grid_index_count(num_x: int, num_z: int) -> int {
    quad_count(num_x) * quad_count(num_z) * 6
}

/// The index buffer of a grid of `num_x * num_z` vertices.
pub open spec fn grid_indices(num_x: int, num_z: int) -> Seq<u32> {
    Seq::new(grid_index_count(num_x, num_z) as nat, |k: int| grid_index_at(num_x, k))
}

/// Every vertex index of a grid that has at least one quad can be written as a `u32`.
pub open spec fn indices_fit_u32(num_x: int, num_z: int) -> bool {
    quad_count(num_x) == 0 || quad_count(num_z) == 0 || num_x * num_z <= 0x1_0000_0000
}

/// Whether every vertex index of a grid of `num_x * num_z` vertices that has quads can be
/// written as a `u32` (the condition under which `grid_triangle_indices` may be called).
pub fn indices_fit(num_x: usize, num_z: usize) -> (fits: bool)
    ensures
        fits == indices_fit_u32(num_x as int, num_z as int),
        fits == (num_x <= 1 || num_z <= 1 || num_x * num_z <= 0x1_0000_0000),
{
    if num_x <= 1 || num_z <= 1 {
        return true;
    }
    match (num_x as u64).checked_mul(num_z as u64) {
        Some(n) => n <= 0x1_0000_0000u64,
        None => false,
    }
}

/// A grid without quads (an axis of at most one vertex) always fits; a grid with quads
/// fits exactly when it has at most 2^32 vertices.
pub proof fn lemma_indices_fit_exactly(num_x: int, num_z: int)
    requires
        num_x >= 0,
        num_z >= 0,
    ensures
        (num_x <= 1 || num_z <= 1) ==> indices_fit_u32(num_x, num_z),
        (num_x >= 2 && num_z >= 2) ==> (indices_fit_u32(num_x, num_z) <==> num_x * num_z
            <= 0x1_0000_0000),
{
}

/// The largest corner of a quad is a vertex of the grid.
proof fn lemma_corner_bound(num_x: int, num_z: int, ix: int, iz: int)
    by (nonlinear_arith)
    requires
        0 <= ix < num_x - 1,
        0 <= iz < num_z - 1,
    ensures
        0 <= iz * num_x,
        iz * num_x + ix + num_x + 1 <= num_x * num_z - 1,
{
}

/// The six entries that the quad at column `ix` and row `iz` contributes are the
/// entries `(iz * qx + ix) * 6 + c` of the index buffer.
proof fn lemma_index_of_quad(num_x: int, ix: int, iz: int, c: int)
    requires
        num_x >= 2,
        0 <= ix < num_x - 1,
        0 <= iz,
        0 <= c < 6,
    ensures
        grid_index_at(num_x, (iz * (num_x - 1) + ix) * 6 + c) == quad_corner(num_x, ix, iz, c) as u32,
{
    let qx = num_x - 1;
    let q = iz * qx + ix;
    lemma_fundamental_div_mod_converse(q * 6 + c, 6, q, c);
    lemma_fundamental_div_mod_converse(q, qx, iz, ix);
}

/// Builds the index buffer of a terrain grid of `num_x * num_z` vertices: two triangles
/// per quad, quads visited row by row.
pub fn grid_triangle_indices(num_x: usize, num_z: usize) -> (indices: Vec<u32>)
    requires
        indices_fit_u32(num_x as int, num_z as int),
    ensures
        indices@ == grid_indices(num_x as int, num_z as int),
{
    let quad_count_x = num_x.saturating_sub(1);
    let quad_count_z = num_z.saturating_sub(1);
    let ghost qx = quad_count_x as int;
    let mut indices: Vec<u32> = Vec::new();
    let mut iz: usize = 0;
    while iz < quad_count_z
        invariant
            qx == quad_count(num_x as int),
            qx == quad_count_x,
            quad_count_z == quad_count(num_z as int),
            indices_fit_u32(num_x as int, num_z as int),
            iz <= quad_count_z,
            indices.len() == iz * qx * 6,
            forall|k: int| 0 <= k < indices.len() ==> indices@[k] == grid_index_at(num_x as int, k),
        decreases quad_count_z - iz,
    {
        let mut ix: usize = 0;
        while ix < quad_count_x
            invariant
                qx == quad_count(num_x as int),
                qx == quad_count_x,
                quad_count_z == quad_count(num_z as int),
                indices_fit_u32(num_x as int, num_z as int),
                iz < quad_count_z,
                ix <= quad_count_x,
                indices.len() == (iz * qx + ix) * 6,
                forall|k: int| 0 <= k < indices.len() ==> indices@[k] == grid_index_at(num_x as int, k),
            decreases quad_count_x - ix,
        {
            proof {
                lemma_corner_bound(num_x as int, num_z as int, ix as int, iz as int);
            }
            let i0 = (iz * num_x + ix) as u32;
            let i1 = i0 + 1;
            let i2 = i0 + num_x as u32;
            let i3 = i2 + 1;
            let ghost base = indices.len() as int;
            indices.push(i0);
            indices.push(i2);
            indices.push(i1);
            indices.push(i1);
            indices.push(i2);
            indices.push(i3);
            proof {
                assert forall|k: int| 0 <= k < indices.len() implies indices@[k] == grid_index_at(
                    num_x as int,
                    k,
                ) by {
                    if k >= base {
                        lemma_index_of_quad(num_x as int, ix as int, iz as int, k - base);
                    }
                }
            }
            ix = ix + 1;
        }
        proof {
            lemma_mul_is_distributive_add_other_way(qx, iz as int, 1);
        }
        iz = iz + 1;
    }
    proof {
        lemma_mul_is_commutative(quad_count_z as int, qx);
    }
    assert(indices@ =~= grid_indices(num_x as int, num_z as int));
    indices
}

/// Column of the vertex with index `v` in a grid `num_x` vertices wide.
pub open spec fn column_of(num_x: int, v: int) -> int {
    v % num_x
}

/// Row of the vertex with index `v` in a grid `num_x` vertices wide.
pub open spec fn row_of(num_x: int, v: int) -> int {
    v / num_x
}

/// The y component of `(b - a) x (c - a)` for the vertices `a`, `b`, `c` placed at
/// `(column, row)` on the x/z plane, x growing with the column and z with the row.
/// It is positive exactly when the triangle `a, b, c` is counter-clockwise seen from
/// above (from +y), whatever the heights of its vertices.
pub open spec fn upward_winding(num_x: int, a: int, b: int, c: int) -> int {
    let (ax, az) = (column_of(num_x, a), row_of(num_x, a));
    let (bx, bz) = (column_of(num_x, b), row_of(num_x, b));
    let (cx, cz) = (column_of(num_x, c), row_of(num_x, c));
    (bz - az) * (cx - ax) - (bx - ax) * (cz - az)
}

/// Column offset of corner `c` of a quad from its first corner.
pub open spec fn corner_dx(c: int) -> int {
    if c == 2 || c == 3 || c == 5 {
        1
    } else {
        0
    }
}

/// Row offset of corner `c` of a quad from its first corner.
pub open spec fn corner_dz(c: int) -> int {
    if c == 1 || c == 4 || c == 5 {
        1
    } else {
        0
    }
}

/// Splits entry `k` of the index buffer into its quad `(ix, iz)` and the position `c`
/// of the entry within the quad's six.
proof fn lemma_split_entry(num_x: int, num_z: int, k: int) -> (r: (int, int, int))
    requires
        0 <= k < grid_index_count(num_x, num_z),
    ensures
        0 <= r.0 < quad_count(num_x),
        0 <= r.1 < quad_count(num_z),
        0 <= r.2 < 6,
        k == (r.1 * quad_count(num_x) + r.0) * 6 + r.2,
        num_x >= 2,
        num_z >= 2,
{
    let qx = quad_count(num_x);
    let qz = quad_count(num_z);
    if qx <= 0 || qz <= 0 {
        assert(qx * qz <= 0) by (nonlinear_arith)
            requires
                qx >= 0,
                qz >= 0,
                qx <= 0 || qz <= 0,
        ;
    }
    let q = k / 6;
    let c = k % 6;
    lemma_fundamental_div_mod(k, 6);
    lemma_mod_pos_bound(k, 6);
    lemma_div_pos_is_pos(k, 6);
    lemma_multiply_divide_lt(k, 6, qx * qz);
    let iz = q / qx;
    let ix = q % qx;
    lemma_fundamental_div_mod(q, qx);
    lemma_mod_pos_bound(q, qx);
    lemma_div_pos_is_pos(q, qx);
    lemma_multiply_divide_lt(q, qx, qz);
    lemma_mul_is_commutative(qx, iz);
    (ix, iz, c)
}

/// Corner `c` of the quad `(ix, iz)` lies at column `ix + corner_dx(c)` and row
/// `iz + corner_dz(c)`.
proof fn lemma_corner_position(num_x: int, ix: int, iz: int, c: int)
    requires
        num_x >= 2,
        0 <= ix < num_x - 1,
        0 <= iz,
        0 <= c < 6,
    ensures
        quad_corner(num_x, ix, iz, c) == (iz + corner_dz(c)) * num_x + (ix + corner_dx(c)),
        column_of(num_x, quad_corner(num_x, ix, iz, c)) == ix + corner_dx(c),
        row_of(num_x, quad_corner(num_x, ix, iz, c)) == iz + corner_dz(c),
{
    lemma_mul_is_distributive_add_other_way(num_x, iz, corner_dz(c));
    lemma_fundamental_div_mod_converse(
        quad_corner(num_x, ix, iz, c),
        num_x,
        iz + corner_dz(c),
        ix + corner_dx(c),
    );
}

/// The six entries that the quad at column `ix` and row `iz` contributes stand at
/// positions `(iz * (num_x - 1) + ix) * 6` to `(iz * (num_x - 1) + ix) * 6 + 5` of the
/// index buffer, in the order `i0, i2, i1, i1, i2, i3`.
pub proof fn lemma_quad_entries(num_x: usize, num_z: usize, ix: int, iz: int, c: int)
    requires
        indices_fit_u32(num_x as int, num_z as int),
        0 <= ix < quad_count(num_x as int),
        0 <= iz < quad_count(num_z as int),
        0 <= c < 6,
    ensures
        (iz * quad_count(num_x as int) + ix) * 6 + c < grid_index_count(num_x as int, num_z as int),
        grid_indices(num_x as int, num_z as int)[(iz * quad_count(num_x as int) + ix) * 6 + c]
            == quad_corner(num_x as int, ix, iz, c),
{
    let nx = num_x as int;
    let nz = num_z as int;
    let qx = quad_count(nx);
    let qz = quad_count(nz);
    assert((iz * qx + ix) * 6 + c < qx * qz * 6) by (nonlinear_arith)
        requires
            0 <= ix < qx,
            0 <= iz < qz,
            0 <= c < 6,
    ;
    lemma_index_of_quad(nx, ix, iz, c);
    lemma_corner_bound(nx, nz, ix, iz);
}

/// The index buffer holds six entries per quad: `(num_x - 1) * (num_z - 1) * 6` entries
/// when both axes have at least two vertices, none otherwise.
pub proof fn lemma_index_count(num_x: usize, num_z: usize)
    ensures
        grid_indices(num_x as int, num_z as int).len() == (if num_x >= 2 && num_z >= 2 {
            (num_x - 1) * (num_z - 1) * 6
        } else {
            0
        }),
{
    if !(num_x >= 2 && num_z >= 2) {
        let qx = quad_count(num_x as int);
        let qz = quad_count(num_z as int);
        assert(qx * qz == 0) by (nonlinear_arith)
            requires
                qx == 0 || qz == 0,
        ;
    }
}

/// The quad whose first corner is the vertex `i0 = iz * num_x + ix` contributes, at
/// positions `(iz * (num_x - 1) + ix) * 6` onwards, the two triangles
/// `(i0, i0 + num_x, i0 + 1)` and `(i0 + 1, i0 + num_x, i0 + num_x + 1)`: quads are laid
/// out row by row, and each names its corner, the corner of the next row, the corner of
/// the next column and the opposite corner.
pub proof fn lemma_quad_triangles(num_x: usize, num_z: usize, ix: int, iz: int)
    requires
        num_x * num_z <= 0x1_0000_0000,
        0 <= ix < num_x - 1,
        0 <= iz < num_z - 1,
    ensures
        ({
            let s = grid_indices(num_x as int, num_z as int);
            let base = (iz * (num_x - 1) + ix) * 6;
            let i0 = iz * num_x + ix;
            &&& base + 5 < s.len()
            &&& s[base] == i0
            &&& s[base + 1] == i0 + num_x
            &&& s[base + 2] == i0 + 1
            &&& s[base + 3] == i0 + 1
            &&& s[base + 4] == i0 + num_x
            &&& s[base + 5] == i0 + num_x + 1
        }),
{
    lemma_quad_entries(num_x, num_z, ix, iz, 0);
    lemma_quad_entries(num_x, num_z, ix, iz, 1);
    lemma_quad_entries(num_x, num_z, ix, iz, 2);
    lemma_quad_entries(num_x, num_z, ix, iz, 3);
    lemma_quad_entries(num_x, num_z, ix, iz, 4);
    lemma_quad_entries(num_x, num_z, ix, iz, 5);
}

/// Every entry of the index buffer names a vertex of the grid.
pub proof fn lemma_indices_are_vertices(num_x: usize, num_z: usize, k: int)
    requires
        indices_fit_u32(num_x as int, num_z as int),
        0 <= k < grid_index_count(num_x as int, num_z as int),
    ensures
        grid_indices(num_x as int, num_z as int)[k] < num_x * num_z,
{
    let (ix, iz, c) = lemma_split_entry(num_x as int, num_z as int, k);
    lemma_quad_entries(num_x, num_z, ix, iz, c);
    lemma_corner_bound(num_x as int, num_z as int, ix, iz);
}

/// Every triangle of the index buffer is counter-clockwise seen from above: the
/// y component of its normal is positive (one unit cell times one unit cell).
pub proof fn lemma_triangles_face_up(num_x: usize, num_z: usize, t: int)
    requires
        indices_fit_u32(num_x as int, num_z as int),
        0 <= t,
        3 * t + 2 < grid_index_count(num_x as int, num_z as int),
    ensures
        upward_winding(
            num_x as int,
            grid_indices(num_x as int, num_z as int)[3 * t] as int,
            grid_indices(num_x as int, num_z as int)[3 * t + 1] as int,
            grid_indices(num_x as int, num_z as int)[3 * t + 2] as int,
        ) == 1,
{
    let nx = num_x as int;
    let nz = num_z as int;
    let (ix, iz, c0) = lemma_split_entry(nx, nz, 3 * t);
    assert(c0 == 0 || c0 == 3) by {
        lemma_fundamental_div_mod_converse(3 * t, 6, (3 * t - c0) / 6, c0);
    }
    let base = (iz * quad_count(nx) + ix) * 6;
    lemma_quad_entries(num_x, num_z, ix, iz, c0);
    lemma_quad_entries(num_x, num_z, ix, iz, c0 + 1);
    lemma_quad_entries(num_x, num_z, ix, iz, c0 + 2);
    lemma_corner_position(nx, ix, iz, c0);
    lemma_corner_position(nx, ix, iz, c0 + 1);
    lemma_corner_position(nx, ix, iz, c0 + 2);
    let s = grid_indices(nx, nz);
    assert(s[3 * t] as int == quad_corner(nx, ix, iz, c0));
    assert(s[3 * t + 1] as int == quad_corner(nx, ix, iz, c0 + 1));
    assert(s[3 * t + 2] as int == quad_corner(nx, ix, iz, c0 + 2));
    if c0 == 0 {
        assert(upward_winding(nx, s[3 * t] as int, s[3 * t + 1] as int, s[3 * t + 2] as int)
            == 1 * 1 - 0 * 0);
    } else {
        assert(upward_winding(nx, s[3 * t] as int, s[3 * t + 1] as int, s[3 * t + 2] as int)
            == 1 * 0 - (-1) * 1);
    }
}

} // verus!
