//! The snake itself: its data, continuous motion, and the turn controller.
//!
//! Motion is continuous: every in-game frame the snake advances along its
//! facing by `speed * dt`. Turning is discrete: a key press only queues an
//! intent (tracked by [`SnakeState`]), and the intent is committed as an
//! exact quarter turn at the first frame on which the snake sits on a grid
//! cell center. Decoupling intent from commit lets the snake finish crossing
//! to a cell boundary before changing direction, so turns are grid-locked
//! even though motion is continuous.

use crate::grid::{pos_aligned, snake_is_at_grid_center, Position, SUBUNITS_PER_UNIT};
use vstd::prelude::*;

verus! {

/// The snake's facing. It starts pointing up and only ever changes by exact
/// quarter turns, so the four cardinal directions cover every reachable
/// rotation.
#[derive(Clone, Copy, Debug, PartialEq, Eq, Structural)]
pub enum Direction {
    Up,
    Left,
    Down,
    Right,
}

/// The turn controller's automaton. Turn input is accepted only in `Normal`;
/// a `Turning*` state is a queued intent, held until the snake is
/// grid-aligned and then resolved back to `Normal` in the frame that commits
/// the rotation. At most one turn is pending at a time.
#[derive(Clone, Copy, Debug, PartialEq, Eq, Structural)]
pub enum SnakeState {
    Normal,
    TurningLeft,
    TurningRight,
}

impl Default for SnakeState {
    /// The automaton starts out accepting input.
    fn default() -> (r: Self)
        ensures
            r == SnakeState::Normal,
    {
        SnakeState::Normal
    }
}

/// The controllable snake: a position in subunits, a cardinal facing, and a
/// constant speed in world units per second.
#[derive(Clone, Copy, Debug, PartialEq, Eq, Structural)]
pub struct Snake {
    pub position: Position,
    pub facing: Direction,
    pub speed: u32,
}

/// The snake's speed for a session, in world units per second.
pub const SNAKE_SPEED: u32 = 400;

/// Spawn coordinates, in subunits: the cell center at (-192, 0) world units.
pub const SPAWN_X: i64 = -192 * SUBUNITS_PER_UNIT;

/// See `SPAWN_X`.
pub const SPAWN_Y: i64 = 0;

/// X component of the unit vector of a facing.
pub open spec fn dir_x(d: Direction) -> int {
    match d {
        Direction::Up => 0,
        Direction::Left => -1,
        Direction::Down => 0,
        Direction::Right => 1,
    }
}

/// Y component of the unit vector of a facing.
pub open spec fn dir_y(d: Direction) -> int {
    match d {
        Direction::Up => 1,
        Direction::Left => 0,
        Direction::Down => -1,
        Direction::Right => 0,
    }
}

/// The facing after a quarter turn to the left (counterclockwise).
pub open spec fn turned_left(d: Direction) -> Direction {
    match d {
        Direction::Up => Direction::Left,
        Direction::Left => Direction::Down,
        Direction::Down => Direction::Right,
        Direction::Right => Direction::Up,
    }
}

/// The facing after a quarter turn to the right (clockwise).
pub open spec fn turned_right(d: Direction) -> Direction {
    match d {
        Direction::Up => Direction::Right,
        Direction::Right => Direction::Down,
        Direction::Down => Direction::Left,
        Direction::Left => Direction::Up,
    }
}

/// The snake a fresh play session starts with.
pub open spec fn spawn_snake_spec() -> Snake {
    Snake {
        position: Position { x: SPAWN_X, y: SPAWN_Y },
        facing: Direction::Up,
        speed: SNAKE_SPEED,
    }
}

/// Readies a fresh snake at the fixed spawn cell, facing up, at session
/// speed. Called exactly when a new game starts.
pub fn spawn_snake() -> (s: Snake)
    ensures
        s == spawn_snake_spec(),
{
    Snake {
        position: Position { x: SPAWN_X, y: SPAWN_Y },
        facing: Direction::Up,
        speed: SNAKE_SPEED,
    }
}

/// X coordinate after one frame of motion: `dt` ticks at `s.speed` along the
/// facing. One subunit per tick equals one world unit per second, so the
/// displacement in subunits is exactly `speed * dt`.
pub open spec fn moved_x(s: Snake, dt: u32) -> int {
    s.position.x + dir_x(s.facing) * (s.speed * dt)
}

/// Y coordinate after one frame of motion; see `moved_x`.
pub open spec fn moved_y(s: Snake, dt: u32) -> int {
    s.position.y + dir_y(s.facing) * (s.speed * dt)
}

/// Whether one frame of motion stays within the coordinate range.
pub open spec fn motion_fits(s: Snake, dt: u32) -> bool {
    &&& s.speed * dt <= i64::MAX
    &&& i64::MIN <= moved_x(s, dt) <= i64::MAX
    &&& i64::MIN <= moved_y(s, dt) <= i64::MAX
}

/// Advances the snake by one frame of continuous motion: `speed * dt`
/// subunits along the current facing. Runs every in-game frame, whether or
/// not a turn is pending; facing and speed are untouched.
pub fn move_snake(s: &mut Snake, dt: u32)
    requires
        motion_fits(*old(s), dt),
    ensures
        final(s).position.x == moved_x(*old(s), dt),
        final(s).position.y == moved_y(*old(s), dt),
        final(s).facing == old(s).facing,
        final(s).speed == old(s).speed,
{
    let disp: i64 = (s.speed as i64) * (dt as i64);
    match s.facing {
        Direction::Up => {
            s.position.y = s.position.y + disp;
        },
        Direction::Left => {
            s.position.x = s.position.x - disp;
        },
        Direction::Down => {
            s.position.y = s.position.y - disp;
        },
        Direction::Right => {
            s.position.x = s.position.x + disp;
        },
    }
}

/// Converts this frame's turn key presses into the next turn-controller
/// state. Runs only while the controller is in `Normal`; pressing both keys
/// in one frame resolves to a right turn, the later-checked key.
pub fn detect_turn_input(left_pressed: bool, right_pressed: bool) -> (next: SnakeState)
    ensures
        next == (if right_pressed {
            SnakeState::TurningRight
        } else if left_pressed {
            SnakeState::TurningLeft
        } else {
            SnakeState::Normal
        }),
{
    let mut next = SnakeState::Normal;
    if left_pressed {
        next = SnakeState::TurningLeft;
    }
    if right_pressed {
        next = SnakeState::TurningRight;
    }
    next
}

/// Commit check for a queued left turn; runs every frame while the
/// controller is in `TurningLeft`. Off-grid it does nothing and leaves the
/// turn queued; on a cell center it rotates the facing a quarter turn left
/// and resolves the controller back to `Normal`. Position and speed are
/// never touched.
pub fn turn_snake_left(s: &mut Snake) -> (next: SnakeState)
    ensures
        final(s).position == old(s).position,
        final(s).speed == old(s).speed,
        pos_aligned(old(s).position) ==> final(s).facing == turned_left(old(s).facing) && next
            == SnakeState::Normal,
        !pos_aligned(old(s).position) ==> final(s).facing == old(s).facing && next
            == SnakeState::TurningLeft,
{
    if !snake_is_at_grid_center(s.position) {
        return SnakeState::TurningLeft;
    }
    s.facing = match s.facing {
        Direction::Up => Direction::Left,
        Direction::Left => Direction::Down,
        Direction::Down => Direction::Right,
        Direction::Right => Direction::Up,
    };
    SnakeState::Normal
}

/// Commit check for a queued right turn; the mirror image of
/// `turn_snake_left`.
pub fn turn_snake_right(s: &mut Snake) -> (next: SnakeState)
    ensures
        final(s).position == old(s).position,
        final(s).speed == old(s).speed,
        pos_aligned(old(s).position) ==> final(s).facing == turned_right(old(s).facing) && next
            == SnakeState::Normal,
        !pos_aligned(old(s).position) ==> final(s).facing == old(s).facing && next
            == SnakeState::TurningRight,
{
    if !snake_is_at_grid_center(s.position) {
        return SnakeState::TurningRight;
    }
    s.facing = match s.facing {
        Direction::Up => Direction::Right,
        Direction::Right => Direction::Down,
        Direction::Down => Direction::Left,
        Direction::Left => Direction::Up,
    };
    SnakeState::Normal
}

/// X coordinate after `n` frames of motion of `d` subunits each along a
/// constant facing, starting from `x`.
pub open spec fn iterated_x(x: int, f: Direction, d: int, n: nat) -> int
    decreases n,
{
    if n == 0 {
        x
    } else {
        iterated_x(x, f, d, (n - 1) as nat) + dir_x(f) * d
    }
}

/// Y coordinate after `n` frames of motion; see `iterated_x`.
pub open spec fn iterated_y(y: int, f: Direction, d: int, n: nat) -> int
    decreases n,
{
    if n == 0 {
        y
    } else {
        iterated_y(y, f, d, (n - 1) as nat) + dir_y(f) * d
    }
}

/// Integration is linear: `n` frames of equal duration along a constant
/// facing displace the position by exactly `n` times the per-frame step, on
/// the facing axis only, independent of the starting position. With the
/// per-frame step `d == speed * dt`, the total displacement over `n` frames
/// is `speed * (n * dt)` subunits — speed times elapsed time, exactly.
pub proof fn lemma_motion_linear(x: int, y: int, f: Direction, d: int, n: nat)
    ensures
        iterated_x(x, f, d, n) == x + dir_x(f) * d * n,
        iterated_y(y, f, d, n) == y + dir_y(f) * d * n,
    decreases n,
{
    if n > 0 {
        let m = (n - 1) as nat;
        lemma_motion_linear(x, y, f, d, m);
        assert(dir_x(f) * d * m + dir_x(f) * d == dir_x(f) * d * (m + 1)) by (nonlinear_arith);
        assert(dir_y(f) * d * m + dir_y(f) * d == dir_y(f) * d * (m + 1)) by (nonlinear_arith);
    }
}

} // verus!
