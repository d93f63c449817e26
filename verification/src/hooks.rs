//! Reserved extension seams for collision detection and snake growth.
//!
//! The core never calls these yet: they fix the boundary a later
//! collision-detection pass (walls, self, food) will use to drive the game
//! phase to its victory and game-over outcomes, and to grow the snake, all
//! without touching the motion and turn machinery.

use crate::snake::Snake;
use vstd::prelude::*;

verus! {

/// What a collision means for the session: nothing, the winning outcome, or
/// the losing one. The menu screens for the latter two already exist as
/// placeholders (see [`crate::game::MenuState`]).
#[derive(Clone, Copy, Debug, PartialEq, Eq, Structural)]
pub enum GameOutcome {
    Continue,
    Victory,
    GameOver,
}

/// How much the snake grows from something it ate, in tail segments.
#[derive(Clone, Copy, Debug, PartialEq, Eq, Structural)]
pub struct GrowthDelta {
    pub segments: u32,
}

/// The callback boundary the future collision pass will implement. A wall or
/// self collision is expected to end the session; food is expected to feed
/// `on_food_consumed` with the food's nutrition value.
pub trait CollisionHooks {
    /// Called when the snake's head meets a wall, its own tail, or food.
    fn on_collision(&mut self, snake: &Snake) -> GameOutcome;

    /// Called when the snake has eaten; returns how much it grows.
    fn on_food_consumed(&mut self, nutrition: u32) -> GrowthDelta;
}

} // verus!
