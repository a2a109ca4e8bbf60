//! Verified core of a terminal snake game.
//!
//! The library owns the game-state simulation: toroidal grid arithmetic
//! ([`grid`]) and the snake's body with its per-step update rule
//! ([`snake`]). Input capture, rendering and audio are left to the
//! surrounding program, which only calls [`snake::Snake::walk`] once per
//! tick and reads the body back.

pub mod grid;
pub mod snake;
