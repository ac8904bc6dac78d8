//! The simulation core of a small arcade game: a player, the enemies that
//! pursue it, walls and a collectible, moved on tick by tick.
//!
//! All coordinates and lengths are whole numbers of one unit, which the host
//! chooses, and every step is computed exactly: distances are compared by
//! their squares, and where a length is needed, the whole part of the root
//! is taken. Chance comes from a seeded generator, so a run can be repeated.

pub mod config;
pub mod game;
pub mod geometry;
pub mod placement;
pub mod traits;
pub mod unit;
pub mod world;
