//! The layered state machines and the per-frame orchestrator.
//!
//! Three independent state variables gate overlapping sets of per-frame
//! behaviours: [`GameState`] decides whether gameplay runs at all,
//! [`SnakeState`] (owned by the turn controller, see [`crate::snake`])
//! decides whether turn input is read or a commit is pending, and
//! [`MenuState`] decides which menu screen is live while the game is in the
//! menu. [`Game::step`] wires one frame's update order across them:
//! input detection before motion, motion before the turn-commit check, and
//! the pause check last, so a turn intent raised in a frame is visible to
//! that same frame's commit check.

use crate::grid::{pos_aligned, Position};
use crate::snake::{
    detect_turn_input, motion_fits, move_snake, moved_x, moved_y, spawn_snake,
    spawn_snake_spec, turn_snake_left, turn_snake_right, turned_left, turned_right, Snake,
    SnakeState,
};
use vstd::prelude::*;

verus! {

/// The top-level game phase. The game starts in the menu; advancing the
/// startup menu enters play, and while playing the pause key toggles between
/// `InGame` and `Paused`. No transition leads back to `InMenu`.
#[derive(Clone, Copy, Debug, PartialEq, Eq, Structural)]
pub enum GameState {
    InMenu,
    InGame,
    Paused,
}

impl Default for GameState {
    /// A freshly opened game shows the menu.
    fn default() -> (r: Self)
        ensures
            r == GameState::InMenu,
    {
        GameState::InMenu
    }
}

/// Which menu screen is live while the game phase is `InMenu`; meaningless
/// outside it. Only the startup branch is implemented: `Victory` and
/// `GameOver` are declared extension points with no behaviour yet.
#[derive(Clone, Copy, Debug, PartialEq, Eq, Structural)]
pub enum MenuState {
    Startup,
    Victory,
    GameOver,
}

impl Default for MenuState {
    /// The menu opens on the startup screen.
    fn default() -> (r: Self)
        ensures
            r == MenuState::Startup,
    {
        MenuState::Startup
    }
}

/// One frame's worth of discrete input, already reduced to the four commands
/// the core recognises: the two turn keys, the pause/resume key, and any of
/// the designated menu-advance keys. Unrecognised keys never reach the core.
#[derive(Clone, Copy, Debug, PartialEq, Eq, Structural)]
pub struct FrameInput {
    pub turn_left: bool,
    pub turn_right: bool,
    pub pause: bool,
    pub menu_advance: bool,
}

impl FrameInput {
    /// A frame on which no recognised key was pressed.
    pub fn none() -> (i: FrameInput)
        ensures
            i == (FrameInput { turn_left: false, turn_right: false, pause: false, menu_advance: false }),
    {
        FrameInput { turn_left: false, turn_right: false, pause: false, menu_advance: false }
    }
}

/// The whole simulation: the three state variables and the snake of the
/// current play session. The snake exists exactly while a session is live
/// (`InGame` or `Paused`); entering play from the menu creates it fresh, and
/// nothing else ever creates one.
#[derive(Clone, Debug, PartialEq)]
pub struct Game {
    pub game_state: GameState,
    pub menu_state: MenuState,
    pub snake_state: SnakeState,
    pub snake: Option<Snake>,
}

impl Game {
    /// Well-formedness: whenever a play session is live there is a snake to
    /// drive, and its speed is positive.
    pub open spec fn inv(self) -> bool {
        &&& (self.game_state == GameState::InGame || self.game_state == GameState::Paused)
            ==> self.snake is Some
        &&& self.snake matches Some(s) ==> s.speed > 0
    }

    /// A freshly opened game: startup menu showing, no session yet.
    pub fn new() -> (g: Game)
        ensures
            g.game_state == GameState::InMenu,
            g.menu_state == MenuState::Startup,
            g.snake_state == SnakeState::Normal,
            g.snake is None,
            g.inv(),
    {
        Game {
            game_state: GameState::InMenu,
            menu_state: MenuState::Startup,
            snake_state: SnakeState::Normal,
            snake: None,
        }
    }

    /// The `InMenu` to `InGame` transition: starts a fresh play session.
    /// Whatever an earlier session may have left behind, the snake is
    /// destroyed and recreated at the spawn cell and the turn controller is
    /// reset — never mutated in place.
    pub fn start_game(&mut self)
        requires
            old(self).game_state == GameState::InMenu,
        ensures
            final(self).game_state == GameState::InGame,
            final(self).menu_state == old(self).menu_state,
            final(self).snake_state == SnakeState::Normal,
            final(self).snake == Some(spawn_snake_spec()),
            final(self).inv(),
    {
        self.game_state = GameState::InGame;
        self.snake_state = SnakeState::Normal;
        self.snake = Some(spawn_snake());
    }

    /// The live snake of the current session. Asking for it while the menu
    /// is showing is a scheduling bug — the snake does not exist then — so
    /// the precondition rules that out rather than letting it fail quietly.
    pub fn active_snake(&self) -> (s: Snake)
        requires
            self.game_state == GameState::InGame || self.game_state == GameState::Paused,
            self.inv(),
        ensures
            self.snake == Some(s),
    {
        self.snake.unwrap()
    }
}

/// Next game phase for a frame spent in the startup menu: any designated
/// start key advances into play; the unimplemented menu screens never do.
pub fn menu_step(menu_state: MenuState, advance_pressed: bool) -> (next: GameState)
    ensures
        next == (if menu_state == MenuState::Startup && advance_pressed {
            GameState::InGame
        } else {
            GameState::InMenu
        }),
{
    if advance_pressed && menu_state == MenuState::Startup {
        GameState::InGame
    } else {
        GameState::InMenu
    }
}

/// Next game phase for a frame spent in play: the pause key suspends the
/// session, everything else leaves it running.
pub fn pause_game(pause_pressed: bool) -> (next: GameState)
    ensures
        next == (if pause_pressed {
            GameState::Paused
        } else {
            GameState::InGame
        }),
{
    if pause_pressed {
        GameState::Paused
    } else {
        GameState::InGame
    }
}

/// Next game phase for a frame spent paused: the pause key resumes the
/// session exactly where it left off.
pub fn unpause_game(pause_pressed: bool) -> (next: GameState)
    ensures
        next == (if pause_pressed {
            GameState::InGame
        } else {
            GameState::Paused
        }),
{
    if pause_pressed {
        GameState::InGame
    } else {
        GameState::Paused
    }
}

/// The turn-controller state after this frame's input detection: input is
/// read only in `Normal`, so a pending turn can never be replaced or doubled.
pub open spec fn detected_state(st: SnakeState, input: FrameInput) -> SnakeState {
    if st == SnakeState::Normal {
        if input.turn_right {
            SnakeState::TurningRight
        } else if input.turn_left {
            SnakeState::TurningLeft
        } else {
            SnakeState::Normal
        }
    } else {
        st
    }
}

/// A pending turn never replaces another: input on a frame whose
/// turn-controller state is already `TurningLeft` or `TurningRight` is
/// ignored entirely, whichever keys are pressed.
pub proof fn lemma_pending_turn_kept(st: SnakeState, input: FrameInput)
    requires
        st != SnakeState::Normal,
    ensures
        detected_state(st, input) == st,
{
}

/// The snake after this frame's motion; exact while the motion fits the
/// coordinate range (see `motion_fits`).
pub open spec fn moved_snake(s: Snake, dt: u32) -> Snake {
    Snake { position: Position { x: moved_x(s, dt) as i64, y: moved_y(s, dt) as i64 }, ..s }
}

/// The snake and turn-controller state after this frame's commit check: a
/// pending turn resolves to an exact quarter turn if and only if the snake
/// sits on a cell center; off-grid, the frame changes nothing and the intent
/// stays queued.
pub open spec fn committed(s: Snake, st: SnakeState) -> (Snake, SnakeState) {
    if st == SnakeState::TurningLeft && pos_aligned(s.position) {
        (Snake { facing: turned_left(s.facing), ..s }, SnakeState::Normal)
    } else if st == SnakeState::TurningRight && pos_aligned(s.position) {
        (Snake { facing: turned_right(s.facing), ..s }, SnakeState::Normal)
    } else {
        (s, st)
    }
}

/// One in-game frame of the snake and its turn controller: detect input,
/// integrate motion, then check the commit — in that order, so an intent
/// raised this frame can commit this frame, on the post-motion position.
pub open spec fn frame_spec(s: Snake, st: SnakeState, input: FrameInput, dt: u32) -> (
    Snake,
    SnakeState,
) {
    committed(moved_snake(s, dt), detected_state(st, input))
}

/// A frame without turn input while no turn is pending is pure motion: the
/// snake advances `speed * dt` along its facing and nothing else changes, so
/// integrating such frames is exactly the linear motion of
/// [`crate::snake::lemma_motion_linear`].
pub proof fn lemma_idle_frame_is_pure_motion(s: Snake, input: FrameInput, dt: u32)
    requires
        !input.turn_left,
        !input.turn_right,
    ensures
        frame_spec(s, SnakeState::Normal, input, dt) == (moved_snake(s, dt), SnakeState::Normal),
{
}

/// No turn commits off-grid: as long as the position a frame ends on is not
/// a cell center, the frame leaves a pending turn pending and the facing
/// untouched, however many such frames pass.
pub proof fn lemma_no_commit_off_grid(s: Snake, st: SnakeState, input: FrameInput, dt: u32)
    requires
        st != SnakeState::Normal,
        !pos_aligned(moved_snake(s, dt).position),
    ensures
        frame_spec(s, st, input, dt) == (moved_snake(s, dt), st),
{
}

impl Game {
    /// Whether one frame of motion stays within the coordinate range; holds
    /// trivially outside play, where nothing moves.
    pub open spec fn frame_fits(self, dt: u32) -> bool {
        self.game_state == GameState::InGame ==> (self.snake matches Some(s) ==> motion_fits(
            s,
            dt,
        ))
    }

    /// Advances the whole simulation by one frame, given that frame's input
    /// and its duration `dt` in ticks.
    ///
    /// - In the menu, only the menu runs: advancing the startup menu starts
    ///   a fresh session (snake recreated at spawn, turn controller reset);
    ///   any other menu frame changes nothing.
    /// - In play, the snake always moves, a turn intent is detected only in
    ///   `Normal` and committed only on a cell center (see [`frame_spec`]),
    ///   and the pause key then suspends the session.
    /// - Paused, nothing runs and nothing is touched — pause is a pure gate,
    ///   not a reset — until the pause key resumes play.
    pub fn step(&mut self, input: FrameInput, dt: u32)
        requires
            old(self).inv(),
            old(self).frame_fits(dt),
        ensures
            final(self).inv(),
            final(self).menu_state == old(self).menu_state,
            old(self).game_state == GameState::InMenu ==> (if old(self).menu_state
                == MenuState::Startup && input.menu_advance {
                &&& final(self).game_state == GameState::InGame
                &&& final(self).snake == Some(spawn_snake_spec())
                &&& final(self).snake_state == SnakeState::Normal
            } else {
                *final(self) == *old(self)
            }),
            old(self).game_state == GameState::InGame ==> final(self).game_state == (
            if input.pause {
                GameState::Paused
            } else {
                GameState::InGame
            }),
            old(self).game_state == GameState::InGame ==> (old(self).snake matches Some(s0)
                ==> {
                let (s1, st1) = frame_spec(s0, old(self).snake_state, input, dt);
                final(self).snake == Some(s1) && final(self).snake_state == st1
            }),
            old(self).game_state == GameState::Paused ==> {
                &&& final(self).game_state == (if input.pause {
                    GameState::InGame
                } else {
                    GameState::Paused
                })
                &&& final(self).snake == old(self).snake
                &&& final(self).snake_state == old(self).snake_state
            },
    {
        match self.game_state {
            GameState::InMenu => {
                let next = menu_step(self.menu_state, input.menu_advance);
                if next == GameState::InGame {
                    self.start_game();
                }
            },
            GameState::InGame => {
                if self.snake_state == SnakeState::Normal {
                    self.snake_state = detect_turn_input(input.turn_left, input.turn_right);
                }
                let mut s = self.snake.unwrap();
                move_snake(&mut s, dt);
                match self.snake_state {
                    SnakeState::TurningLeft => {
                        self.snake_state = turn_snake_left(&mut s);
                    },
                    SnakeState::TurningRight => {
                        self.snake_state = turn_snake_right(&mut s);
                    },
                    SnakeState::Normal => {},
                }
                self.snake = Some(s);
                self.game_state = pause_game(input.pause);
            },
            GameState::Paused => {
                self.game_state = unpause_game(input.pause);
            },
        }
    }
}

} // verus!
