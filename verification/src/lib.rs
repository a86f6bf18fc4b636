//! Core simulation of a grid snake game on a toroidal play field.
//!
//! The library owns the game rules alone: the wrap-at-boundary policy,
//! the per-tick body advance, axis-aligned overlap tests, self-collision
//! truncation, food-driven growth and respawn, and the fixed-interval
//! tick accumulator. Rendering, windowing and input belong to a host
//! that holds one opaque handle per drawn entity; the library stores
//! those handles next to the positions it computes for them.

pub mod collision;
pub mod frog;
pub mod game;
pub mod grid;
pub mod snake;
pub mod tick;
