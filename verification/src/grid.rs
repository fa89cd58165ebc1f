//! The cube grid: 11 cells per axis, world coordinates `-15 + 3*i`, and the
//! submission order of the 1331 cells (y outer, x middle, z inner).

use vstd::prelude::*;
use vstd::arithmetic::div_mod::{
    lemma_div_denominator, lemma_fundamental_div_mod, lemma_mod_bound,
};

verus! {

/// Cells per axis.
pub const GRID_DIM: u32 = 11;

/// Total cells in the grid, `11 * 11 * 11`.
pub const GRID_CELLS: u32 = 1331;

/// World coordinate of grid index `i` on any axis.
pub open spec fn coord_spec(i: int) -> int {
    -15 + 3 * i
}

/// Maps a grid index to its world coordinate: `-15, -12, ..., 15`.
pub fn grid_coord(i: u32) -> (r: i32)
    requires
        i < GRID_DIM,
    ensures
        r == coord_spec(i as int),
{
    -15 + 3 * (i as i32)
}

/// The axis coordinates cover the closed range `[-15, 15]` in steps of 3,
/// and distinct indices land on distinct coordinates: the 11 values per axis
/// are 11 distinct positions.
pub proof fn lemma_grid_coords_distinct(i: int, j: int)
    requires
        0 <= i < GRID_DIM,
        0 <= j < GRID_DIM,
    ensures
        -15 <= coord_spec(i) <= 15,
        coord_spec(i) % 3 == 0,
        i != j ==> coord_spec(i) != coord_spec(j),
{
}

/// The position of cell `(y, x, z)` in the per-frame submission order:
/// y varies slowest, z fastest.
pub open spec fn cell_index_spec(y: int, x: int, z: int) -> int {
    y * 121 + x * 11 + z
}

/// Submission order reaches each of the 1331 cells exactly once: cell indices
/// stay in range, and distinct cells get distinct indices.
pub proof fn lemma_cell_index_bijective(y: int, x: int, z: int, y2: int, x2: int, z2: int)
    requires
        0 <= y < GRID_DIM,
        0 <= x < GRID_DIM,
        0 <= z < GRID_DIM,
        0 <= y2 < GRID_DIM,
        0 <= x2 < GRID_DIM,
        0 <= z2 < GRID_DIM,
    ensures
        0 <= cell_index_spec(y, x, z) < GRID_CELLS,
        cell_index_spec(y, x, z) == cell_index_spec(y2, x2, z2) ==> (y, x, z) == (y2, x2, z2),
{
    if cell_index_spec(y, x, z) == cell_index_spec(y2, x2, z2) {
        let k = cell_index_spec(y, x, z);
        lemma_fundamental_div_mod(k, 11);
        lemma_mod_bound(k, 11);
        assert(z == k % 11) by (nonlinear_arith)
            requires
                0 <= y < 11 && 0 <= x < 11 && 0 <= z < 11,
                k == y * 121 + x * 11 + z,
                k == 11 * (k / 11) + k % 11,
                0 <= k % 11 < 11,
        {
        }
        assert(z2 == k % 11) by (nonlinear_arith)
            requires
                0 <= y2 < 11 && 0 <= x2 < 11 && 0 <= z2 < 11,
                k == y2 * 121 + x2 * 11 + z2,
                k == 11 * (k / 11) + k % 11,
                0 <= k % 11 < 11,
        {
        }
        let m = k / 11;
        assert(m == y * 11 + x && m == y2 * 11 + x2) by (nonlinear_arith)
            requires
                k == y * 121 + x * 11 + z,
                k == y2 * 121 + x2 * 11 + z2,
                z == k % 11 && z2 == k % 11,
                k == 11 * (k / 11) + k % 11,
                m == k / 11,
        {
        }
        lemma_fundamental_div_mod(m, 11);
        lemma_mod_bound(m, 11);
        assert(x == m % 11 && x2 == m % 11) by (nonlinear_arith)
            requires
                0 <= x < 11 && 0 <= x2 < 11,
                m == y * 11 + x,
                m == y2 * 11 + x2,
                m == 11 * (m / 11) + m % 11,
                0 <= m % 11 < 11,
        {
        }
    }
}

/// Recovers the cell `(y, x, z)` standing at position `k` of the submission
/// order: the inverse of `cell_index_spec`.
pub fn cell_at(k: u32) -> (c: (u32, u32, u32))
    requires
        k < GRID_CELLS,
    ensures
        c.0 < GRID_DIM,
        c.1 < GRID_DIM,
        c.2 < GRID_DIM,
        cell_index_spec(c.0 as int, c.1 as int, c.2 as int) == k,
{
    let y = k / 121;
    let x = (k / 11) % 11;
    let z = k % 11;
    proof {
        let ki = k as int;
        lemma_fundamental_div_mod(ki, 11);
        lemma_mod_bound(ki, 11);
        lemma_fundamental_div_mod(ki / 11, 11);
        lemma_mod_bound(ki / 11, 11);
        lemma_div_denominator(ki, 11, 11);
        lemma_fundamental_div_mod(ki, 121);
        lemma_mod_bound(ki, 121);
        assert(ki / 121 < 11);
        assert(ki == 121 * (ki / 121) + 11 * ((ki / 11) % 11) + ki % 11);
    }
    (y, x, z)
}

} // verus!
