//! A terminal side-scrolling obstacle-avoidance game, verified.
//!
//! The crate holds the fixed-tick simulation core: player physics, the
//! scrolling obstacle field, collision detection, and the character grid
//! behind the terminal rendering, together with the menu, flag and
//! highscore logic around one game session.

pub mod digits;
pub mod flags;
pub mod grid;
pub mod highscore;
pub mod menu;
pub mod obstacles;
pub mod sim;
pub mod state;
