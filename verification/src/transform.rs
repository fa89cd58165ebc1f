//! Per-instance transform arithmetic for the cube grid.
//!
//! Each frame, every grid cell gets a transform: a translation to its world
//! position composed with a rotation whose Euler angles depend on the elapsed
//! time, the cell's x/y indices, and the cursor position. Time and angles are
//! carried in a fixed-point unit of `1/102400` radian, the coarsest scale in
//! which all three angle contributions are exact: the per-index steps of
//! `0.21` and `0.37` radian (`21504` and `37888` units) and the cursor
//! divisor of `1024` (one pixel is `100` units).

use vstd::prelude::*;
use vstd::arithmetic::div_mod::{lemma_div_denominator, lemma_fundamental_div_mod_converse};
use crate::grid::{coord_spec, grid_coord, GRID_CELLS, GRID_DIM};

verus! {

/// Fixed-point angle units per radian.
pub const ANGLE_UNITS_PER_RADIAN: i64 = 102400;

/// Per-x-index rotation step, `0.21` radian in angle units.
pub const X_STEP_UNITS: i64 = 21504;

/// Per-y-index rotation step, `0.37` radian in angle units.
pub const Y_STEP_UNITS: i64 = 37888;

/// Angle contribution of one cursor pixel, `1/1024` radian in angle units.
pub const CURSOR_PIXEL_UNITS: i64 = 100;

/// Bound on the time and cursor inputs, far beyond any value the demo can
/// see, under which the angle sums stay inside `i64`.
pub const INPUT_BOUND: i64 = 0x1000_0000_0000;

/// The transform of one grid cell: translate to the cell's world position
/// after rotating by Euler angles applied in x-then-y-then-z order
/// (rotate, then place). Angles are in fixed-point angle units.
#[derive(Clone, Copy, PartialEq, Eq, Structural, Debug)]
pub struct InstanceTransform {
    pub translate_x: i32,
    pub translate_y: i32,
    pub translate_z: i32,
    pub angle_x: i64,
    pub angle_y: i64,
    pub angle_z: i64,
}

/// The x rotation angle of a cell: elapsed time, plus `0.21` radian per
/// x index, plus the cursor's x offset folded in at `1/1024` radian per pixel.
pub open spec fn angle_x_spec(t_units: int, x_index: int, cursor_x: int) -> int {
    t_units + x_index * X_STEP_UNITS + cursor_x * CURSOR_PIXEL_UNITS
}

/// The y rotation angle of a cell, from the y index and the cursor's y offset.
pub open spec fn angle_y_spec(t_units: int, y_index: int, cursor_y: int) -> int {
    t_units + y_index * Y_STEP_UNITS + cursor_y * CURSOR_PIXEL_UNITS
}

/// The whole transform of a cell as a function of the frame inputs alone.
pub open spec fn instance_transform_spec(
    t_units: int,
    x_index: int,
    y_index: int,
    z_index: int,
    cursor_x: int,
    cursor_y: int,
) -> InstanceTransform {
    InstanceTransform {
        translate_x: coord_spec(x_index) as i32,
        translate_y: coord_spec(y_index) as i32,
        translate_z: coord_spec(z_index) as i32,
        angle_x: angle_x_spec(t_units, x_index, cursor_x) as i64,
        angle_y: angle_y_spec(t_units, y_index, cursor_y) as i64,
        angle_z: 0,
    }
}

/// Computes the transform of grid cell `(x_index, y_index, z_index)` for a
/// frame at elapsed time `t_units` with the cursor at
/// `(cursor_x, cursor_y)` pixels. Deterministic and pure: the result is a
/// function of the six inputs and nothing else, so repeated calls agree.
pub fn instance_transform(
    t_units: i64,
    x_index: u32,
    y_index: u32,
    z_index: u32,
    cursor_x: i64,
    cursor_y: i64,
) -> (r: InstanceTransform)
    requires
        x_index < GRID_DIM,
        y_index < GRID_DIM,
        z_index < GRID_DIM,
        -INPUT_BOUND <= t_units <= INPUT_BOUND,
        -INPUT_BOUND <= cursor_x <= INPUT_BOUND,
        -INPUT_BOUND <= cursor_y <= INPUT_BOUND,
    ensures
        r == instance_transform_spec(
            t_units as int,
            x_index as int,
            y_index as int,
            z_index as int,
            cursor_x as int,
            cursor_y as int,
        ),
{
    InstanceTransform {
        translate_x: grid_coord(x_index),
        translate_y: grid_coord(y_index),
        translate_z: grid_coord(z_index),
        angle_x: t_units + (x_index as i64) * X_STEP_UNITS + cursor_x * CURSOR_PIXEL_UNITS,
        angle_y: t_units + (y_index as i64) * Y_STEP_UNITS + cursor_y * CURSOR_PIXEL_UNITS,
        angle_z: 0,
    }
}

/// The transform standing at position `k` of a frame's submission order:
/// the y index varies slowest, the z index fastest.
pub open spec fn transform_at_spec(t_units: int, k: int, cursor_x: int, cursor_y: int)
    -> InstanceTransform {
    instance_transform_spec(
        t_units,
        (k / 11) % 11,
        k / 121,
        k % 11,
        cursor_x,
        cursor_y,
    )
}

/// Computes one frame's 1331 instance transforms, in submission order:
/// y outer, x middle, z inner. Element `k` is exactly the transform of the
/// cell standing at position `k` of that order.
pub fn frame_transforms(t_units: i64, cursor_x: i64, cursor_y: i64) -> (v: Vec<InstanceTransform>)
    requires
        -INPUT_BOUND <= t_units <= INPUT_BOUND,
        -INPUT_BOUND <= cursor_x <= INPUT_BOUND,
        -INPUT_BOUND <= cursor_y <= INPUT_BOUND,
    ensures
        v@.len() == GRID_CELLS,
        forall|k: int|
            0 <= k < GRID_CELLS ==> #[trigger] v@[k] == transform_at_spec(
                t_units as int,
                k,
                cursor_x as int,
                cursor_y as int,
            ),
{
    let mut v: Vec<InstanceTransform> = Vec::new();
    for y in 0..GRID_DIM
        invariant
            -INPUT_BOUND <= t_units <= INPUT_BOUND,
            -INPUT_BOUND <= cursor_x <= INPUT_BOUND,
            -INPUT_BOUND <= cursor_y <= INPUT_BOUND,
            v@.len() == y * 121,
            forall|k: int|
                0 <= k < v@.len() ==> #[trigger] v@[k] == transform_at_spec(
                    t_units as int,
                    k,
                    cursor_x as int,
                    cursor_y as int,
                ),
    {
        for x in 0..GRID_DIM
            invariant
                -INPUT_BOUND <= t_units <= INPUT_BOUND,
                -INPUT_BOUND <= cursor_x <= INPUT_BOUND,
                -INPUT_BOUND <= cursor_y <= INPUT_BOUND,
                y < GRID_DIM,
                v@.len() == y * 121 + x * 11,
                forall|k: int|
                    0 <= k < v@.len() ==> #[trigger] v@[k] == transform_at_spec(
                        t_units as int,
                        k,
                        cursor_x as int,
                        cursor_y as int,
                    ),
        {
            for z in 0..GRID_DIM
                invariant
                    -INPUT_BOUND <= t_units <= INPUT_BOUND,
                    -INPUT_BOUND <= cursor_x <= INPUT_BOUND,
                    -INPUT_BOUND <= cursor_y <= INPUT_BOUND,
                    y < GRID_DIM,
                    x < GRID_DIM,
                    v@.len() == y * 121 + x * 11 + z,
                    forall|k: int|
                        0 <= k < v@.len() ==> #[trigger] v@[k] == transform_at_spec(
                            t_units as int,
                            k,
                            cursor_x as int,
                            cursor_y as int,
                        ),
            {
                let t = instance_transform(t_units, x, y, z, cursor_x, cursor_y);
                proof {
                    let ki = v@.len() as int;
                    lemma_fundamental_div_mod_converse(
                        ki,
                        11,
                        y as int * 11 + x as int,
                        z as int,
                    );
                    lemma_fundamental_div_mod_converse(
                        y as int * 11 + x as int,
                        11,
                        y as int,
                        x as int,
                    );
                    lemma_div_denominator(ki, 11, 11);
                    assert(transform_at_spec(
                        t_units as int,
                        ki,
                        cursor_x as int,
                        cursor_y as int,
                    ) == instance_transform_spec(
                        t_units as int,
                        x as int,
                        y as int,
                        z as int,
                        cursor_x as int,
                        cursor_y as int,
                    ));
                }
                v.push(t);
            }
        }
    }
    v
}

} // verus!
