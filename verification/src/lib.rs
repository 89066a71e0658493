//! Conway's Game of Life on a square grid whose edges wrap around.
//!
//! The crate keeps a grid of living and dead cells, evolves it generation by
//! generation, fills it at random, and keeps the count of living cells in step
//! with the grid. Every executable function carries a contract over the
//! mathematical model in [`model`].

pub mod canvas;
pub mod conway;
pub mod counting;
pub mod engine;
pub mod error;
pub mod frames;
pub mod laws;
pub mod miniature;
pub mod model;
pub mod patterns;
pub mod random;
pub mod record;
pub mod screen;
pub mod tab;
