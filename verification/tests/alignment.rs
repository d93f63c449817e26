//! Grid-alignment detection: cell centers, tolerance edges, negative
//! coordinates, and periodicity in the cell size.

use snake_core::grid::{snake_is_at_grid_center, Position, ALIGN_EPSILON, CELL_SIZE};

fn p(x: i64, y: i64) -> Position {
    Position { x, y }
}

#[test]
fn exact_cell_centers_are_aligned() {
    assert!(snake_is_at_grid_center(p(0, 0)));
    assert!(snake_is_at_grid_center(p(CELL_SIZE, 0)));
    assert!(snake_is_at_grid_center(p(0, 5 * CELL_SIZE)));
    assert!(snake_is_at_grid_center(p(-3 * CELL_SIZE, 2 * CELL_SIZE)));
}

#[test]
fn spawn_cell_is_aligned() {
    // the spawn cell center: (-192, 0) world units
    assert!(snake_is_at_grid_center(p(snake_core::snake::SPAWN_X, snake_core::snake::SPAWN_Y)));
}

#[test]
fn tolerance_is_strict() {
    // one subunit inside the tolerance, on either side of a grid line
    assert!(snake_is_at_grid_center(p(ALIGN_EPSILON - 1, 0)));
    assert!(snake_is_at_grid_center(p(0, 1 - ALIGN_EPSILON)));
    assert!(snake_is_at_grid_center(p(CELL_SIZE - ALIGN_EPSILON + 1, 0)));
    // exactly the tolerance away is not aligned
    assert!(!snake_is_at_grid_center(p(ALIGN_EPSILON, 0)));
    assert!(!snake_is_at_grid_center(p(0, -ALIGN_EPSILON)));
    assert!(!snake_is_at_grid_center(p(CELL_SIZE - ALIGN_EPSILON, 0)));
}

#[test]
fn negative_coordinates_are_symmetric() {
    // distance to the nearest grid line decides, regardless of sign
    assert!(snake_is_at_grid_center(p(-1, -1)));
    assert!(snake_is_at_grid_center(p(1 - ALIGN_EPSILON, -CELL_SIZE)));
    assert!(!snake_is_at_grid_center(p(-ALIGN_EPSILON, 0)));
    assert!(!snake_is_at_grid_center(p(-CELL_SIZE / 2, 0)));
    assert!(!snake_is_at_grid_center(p(0, -CELL_SIZE + ALIGN_EPSILON)));
}

#[test]
fn one_axis_is_not_enough() {
    assert!(!snake_is_at_grid_center(p(0, CELL_SIZE / 2)));
    assert!(!snake_is_at_grid_center(p(CELL_SIZE / 2, 0)));
    assert!(!snake_is_at_grid_center(p(CELL_SIZE / 2, CELL_SIZE / 2)));
}

#[test]
fn alignment_is_periodic_in_the_cell_size() {
    // shifting by one whole cell (64 world units) along either axis never
    // changes the verdict
    let samples: [(i64, i64); 6] =
        [(0, 0), (17, -4), (ALIGN_EPSILON, 7), (-999_983, 1234), (CELL_SIZE / 2, -1), (5999, -5999)];
    for &(x, y) in samples.iter() {
        let base = snake_is_at_grid_center(p(x, y));
        assert_eq!(snake_is_at_grid_center(p(x + CELL_SIZE, y)), base);
        assert_eq!(snake_is_at_grid_center(p(x, y + CELL_SIZE)), base);
        assert_eq!(snake_is_at_grid_center(p(x - CELL_SIZE, y)), base);
    }
}
