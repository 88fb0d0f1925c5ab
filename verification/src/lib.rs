//! A terminal snake game, verified.
//!
//! The library holds the rules of the game: the geometry of the playing
//! field, the snake and its body, the bounded input queue, the per-tick
//! state machine and the picture of the game as a list of glyphs. Drawing
//! the glyphs on a terminal, sleeping between ticks and reading the
//! keyboard are left to the program that drives the library:
//!
//! 1. draw what [`Game::render`] returns,
//! 2. wait, the shorter the higher [`Game::speed_level`] is,
//! 3. hand every key press that waits to [`Game::push_key`],
//! 4. call [`Game::run_logic_step`], and stop when it answers
//!    [`GameAction::Exit`].
//!
//! Each type has a mathematical view, and each function says in its
//! contract what it does to that view. What holds of every game whatever
//! the player does is stated and proved in [`laws`].

pub mod buffer;
pub mod direction;
pub mod game;
pub mod geometry;
pub mod glyph;
pub mod input;
pub mod laws;
pub mod point_set;
pub mod random;
pub mod render;
pub mod snake;

pub use buffer::LossyBuffer;
pub use direction::Direction;
pub use game::{Game, GameAction, GameView};
pub use geometry::{Point, Rect};
pub use glyph::{Color, Glyph, Style};
pub use input::Key;
pub use point_set::PointSet;
pub use snake::{Segment, Snake, SnakeView};
