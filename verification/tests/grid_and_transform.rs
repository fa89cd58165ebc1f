use cubes::grid::{cell_at, grid_coord, GRID_CELLS, GRID_DIM};
use cubes::transform::{frame_transforms, instance_transform};

#[test]
fn grid_coord_maps_index_to_world_position() {
    assert_eq!(grid_coord(0), -15);
    assert_eq!(grid_coord(1), -12);
    assert_eq!(grid_coord(5), 0);
    assert_eq!(grid_coord(10), 15);
}

#[test]
fn grid_coords_are_eleven_distinct_values_in_range() {
    let coords: Vec<i32> = (0..GRID_DIM).map(grid_coord).collect();
    assert_eq!(coords.len(), 11);
    for (i, c) in coords.iter().enumerate() {
        assert_eq!(*c, -15 + 3 * i as i32);
        assert!(-15 <= *c && *c <= 15);
        assert_eq!(c.rem_euclid(3), 0);
    }
    for i in 0..coords.len() {
        for j in 0..coords.len() {
            if i != j {
                assert_ne!(coords[i], coords[j]);
            }
        }
    }
}

#[test]
fn submission_order_is_y_outer_x_middle_z_inner() {
    assert_eq!(cell_at(0), (0, 0, 0));
    assert_eq!(cell_at(1), (0, 0, 1));
    assert_eq!(cell_at(11), (0, 1, 0));
    assert_eq!(cell_at(121), (1, 0, 0));
    assert_eq!(cell_at(1330), (10, 10, 10));
}

#[test]
fn submission_order_covers_all_1331_cells_once() {
    assert_eq!(GRID_CELLS, 1331);
    let mut seen = vec![false; 1331];
    for k in 0..GRID_CELLS {
        let (y, x, z) = cell_at(k);
        assert!(y < 11 && x < 11 && z < 11);
        let idx = (y * 121 + x * 11 + z) as usize;
        assert_eq!(idx, k as usize);
        assert!(!seen[idx]);
        seen[idx] = true;
    }
    assert!(seen.iter().all(|b| *b));
}

#[test]
fn origin_cell_at_time_zero_with_cursor_unset() {
    let t = instance_transform(0, 0, 0, 0, 0, 0);
    assert_eq!((t.translate_x, t.translate_y, t.translate_z), (-15, -15, -15));
    assert_eq!((t.angle_x, t.angle_y, t.angle_z), (0, 0, 0));
}

#[test]
fn transform_has_exact_fixed_point_angles() {
    // One radian of elapsed time, cell (1, 2, 3), cursor at (1024, -2048):
    // the cursor folds in at 1/1024 radian per pixel.
    let t = instance_transform(102400, 1, 2, 3, 1024, -2048);
    assert_eq!((t.translate_x, t.translate_y, t.translate_z), (-12, -9, -6));
    assert_eq!(t.angle_x, 102400 + 21504 + 1024 * 100);
    assert_eq!(t.angle_y, 102400 + 2 * 37888 - 2048 * 100);
    assert_eq!(t.angle_z, 0);
}

#[test]
fn transform_is_deterministic() {
    let a = instance_transform(987654, 4, 7, 9, 333, -444);
    let b = instance_transform(987654, 4, 7, 9, 333, -444);
    assert_eq!(a, b);
}

#[test]
fn frame_batch_matches_per_cell_transforms_in_submission_order() {
    let t_units = 204800;
    let (cx, cy) = (100, -200);
    let batch = frame_transforms(t_units, cx, cy);
    assert_eq!(batch.len(), 1331);
    for k in 0..GRID_CELLS {
        let (y, x, z) = cell_at(k);
        assert_eq!(batch[k as usize], instance_transform(t_units, x, y, z, cx, cy));
    }
    assert_eq!(batch[0], instance_transform(t_units, 0, 0, 0, cx, cy));
    assert_eq!(batch[1], instance_transform(t_units, 0, 0, 1, cx, cy));
    assert_eq!(batch[11], instance_transform(t_units, 1, 0, 0, cx, cy));
    assert_eq!(batch[121], instance_transform(t_units, 0, 1, 0, cx, cy));
}

#[test]
fn angle_z_is_always_zero() {
    for x in 0..11 {
        for y in 0..11 {
            let t = instance_transform(55555, x, y, 10, 12, 34);
            assert_eq!(t.angle_z, 0);
        }
    }
}
