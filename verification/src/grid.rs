//! Fixed-point world coordinates and grid-alignment detection.
//!
//! The world is partitioned into square cells of 64 world units; a "cell
//! center" is any position whose coordinates are exact multiples of the cell
//! size. Continuous motion rarely lands exactly on such a point, so alignment
//! is detected within a small tolerance (0.1 world units), measured as the
//! distance to the nearest grid line on each axis — symmetric for negative
//! coordinates.

use vstd::arithmetic::div_mod::{lemma_mod_add_multiples_vanish, lemma_mod_bound};
use vstd::prelude::*;

verus! {

/// Number of position subunits in one world unit. Positions are stored in
/// integer subunits so that motion, spawning and alignment are all exact
/// integer arithmetic.
pub const SUBUNITS_PER_UNIT: i64 = 60000;

/// Number of frame-time ticks in one second. It equals `SUBUNITS_PER_UNIT`,
/// so a speed of `v` world units per second is exactly `v` subunits per tick,
/// and a displacement over `dt` ticks is exactly `v * dt` subunits.
pub const TICKS_PER_SECOND: i64 = 60000;

/// Side length of one grid cell: 64 world units, in subunits.
pub const CELL_SIZE: i64 = 64 * SUBUNITS_PER_UNIT;

/// Alignment tolerance: a coordinate counts as on a grid line when its
/// distance to the nearest multiple of `CELL_SIZE` is strictly below this
/// (one tenth of a world unit, in subunits). The tolerance is a tuned
/// constant: small enough that a commit snaps visibly to the grid, large
/// enough to absorb drift from discretised continuous motion.
pub const ALIGN_EPSILON: i64 = 6000;

/// A world position in subunits (see `SUBUNITS_PER_UNIT`).
#[derive(Clone, Copy, Debug, PartialEq, Eq, Structural)]
pub struct Position {
    pub x: i64,
    pub y: i64,
}

/// Whether a single coordinate lies within `ALIGN_EPSILON` of a multiple of
/// `CELL_SIZE`. The Euclidean remainder `r` is the offset above the grid line
/// below `x`, so the distance to the nearest grid line is `min(r, CELL_SIZE - r)`.
pub open spec fn coord_aligned(x: int) -> bool {
    let r = x % (CELL_SIZE as int);
    r < ALIGN_EPSILON || (CELL_SIZE as int) - r < ALIGN_EPSILON
}

/// Whether both coordinates of a position are on grid lines: the position is
/// (within tolerance) the center of a grid cell.
pub open spec fn pos_aligned(p: Position) -> bool {
    coord_aligned(p.x as int) && coord_aligned(p.y as int)
}

/// Is this position currently centered on a grid cell? Turn commands queued
/// by the turn controller are committed only at positions where this holds.
pub fn snake_is_at_grid_center(p: Position) -> (r: bool)
    ensures
        r == pos_aligned(p),
{
    proof {
        lemma_mod_bound(p.x as int, CELL_SIZE as int);
        lemma_mod_bound(p.y as int, CELL_SIZE as int);
    }
    let rx: i64 = p.x.checked_rem_euclid(CELL_SIZE).unwrap();
    let ry: i64 = p.y.checked_rem_euclid(CELL_SIZE).unwrap();
    (rx < ALIGN_EPSILON || CELL_SIZE - rx < ALIGN_EPSILON)
        && (ry < ALIGN_EPSILON || CELL_SIZE - ry < ALIGN_EPSILON)
}

/// Grid alignment is periodic in the cell size: shifting a position by one
/// whole cell along either axis does not change whether it is aligned.
pub proof fn lemma_grid_alignment_periodic(p: Position)
    ensures
        coord_aligned(p.x + CELL_SIZE) && coord_aligned(p.y as int) <==> pos_aligned(p),
        coord_aligned(p.x as int) && coord_aligned(p.y + CELL_SIZE) <==> pos_aligned(p),
{
    lemma_mod_add_multiples_vanish(p.x as int, CELL_SIZE as int);
    lemma_mod_add_multiples_vanish(p.y as int, CELL_SIZE as int);
}

} // verus!
