//! A bounded, non-wrapping Game of Life engine: a square grid of binary
//! cells, the neighbour-counting generation rule, frame-rate gating, and the
//! mapping between screen pixels and grid cells.

pub mod cells;
pub mod chance;
pub mod clock;
pub mod geometry;
pub mod laws;
pub mod life;
pub mod world;
