//! A small arcade game: a player falls under gravity and flaps through the
//! gaps of a row of obstacles, one point per obstacle cleared.
//!
//! The crate holds the game's rules and nothing else. A shell around it
//! measures time, reads the keyboard and paints the screen: once per frame it
//! hands the elapsed time and the key pressed to [`game::Game::tick`] and gets
//! back the list of things to draw.
//!
//! All quantities are integers. Vertical speed is counted in fifths of a row
//! per physics step and time in microseconds, so that every step of the
//! simulation is exact.

pub mod screen;
pub mod player;
pub mod draw;
pub mod random;
pub mod obstacle;
pub mod state;
pub mod game;
