//! The windowed backend: what it decides at start-up and on every tick.

pub mod backend;
pub mod geometry;
pub mod laws;
pub mod renderer;
pub mod scene;
pub mod tick;
