//! A small 2D scene core: a batch of axis-aligned quads kept as flat vertex
//! and index arrays, and a gravity collision check against one obstacle.
//!
//! Coordinates are whole pixels with y growing upward; colors are 8-bit
//! channels. The presentation layer converts both for the GPU.

pub mod geometry;
pub mod physics;
pub mod renderer;
pub mod scene;
