//! The engine of a terminal snake game: grid geometry, the snake's movement
//! and growth, collision detection and the phase machine that drives a tick.
//! Rendering and key input are left to the caller: a tick hands back the
//! drawing it wants done, and the caller hands in the key it read.

pub mod game;
pub mod geometry;
pub mod keys;
pub mod render;
pub mod snake;
