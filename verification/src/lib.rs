//! Deterministic simulation core of a grid snake game: arena coordinates,
//! heading updates that reject reversals, movement with wall and self
//! collision detection, food consumption and growth, and the game-over reset.

pub mod direction;
pub mod food;
pub mod game;
pub mod grid;
pub mod snake;
