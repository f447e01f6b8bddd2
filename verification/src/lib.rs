//! The rules of a terminal snake game, verified.
//!
//! The library owns everything that decides: where the snake goes next, when a
//! move is a collision, how the body grows, where fruit may be placed and which
//! cells of the screen change. Reading keys and writing to the terminal is left
//! to the caller, who hands in plain values and draws what is handed back.
//!
//! - [`geometry`]: cells, directions, the border and the starting body.
//! - [`input`]: keys, what they ask for, and the length of a tick.
//! - [`render`]: glyphs, draws and the score line.
//! - [`model`]: the game as the contracts see it, and what holds of it.
//! - [`engine`]: the game that runs, one tick at a time.
//! - [`game_over`]: the blinking after a crash.

pub mod engine;
pub mod game_over;
pub mod geometry;
pub mod input;
pub mod model;
mod random;
pub mod render;

pub use engine::{GameError, SnakeGame, FRUIT_SAMPLES};
pub use game_over::Blink;
pub use geometry::{all_distinct, initialize_snake, Point, SnakeDirection};
pub use input::{command_of, remaining_wait, InputEvent, Key, READ_TIME};
pub use model::{GameView, Tick};
pub use render::{
    draw_all, score_line, Draw, BLANK_CHAR, BORDER_CHAR, FRUIT_CHAR, GAME_OVER_TEXT,
    SNAKE_CHAR,
};
