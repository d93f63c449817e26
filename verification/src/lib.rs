//! Movement-and-state core of a grid-locked arcade snake game.
//!
//! The library is a pure, frame-synchronous simulation: a single snake moves
//! continuously across an implied grid of 64-unit cells, discrete turn
//! commands are queued and committed only on grid alignment, and three layered
//! state machines (game phase, turn phase, menu phase) gate which behaviours
//! are active each frame. Rendering, windowing and keyboard polling are left
//! to the embedding program, which hands the core plain per-frame input flags
//! and an elapsed frame time.
//!
//! All quantities are exact integers: positions are kept in subunits of
//! 1/60000 world unit and frame times in ticks of 1/60000 second, so motion
//! at a speed given in world units per second is integer arithmetic with no
//! rounding (see [`grid`]).

pub mod game;
pub mod grid;
pub mod hooks;
pub mod snake;
