//! Mesh aggregation and GPU resource cache for an interactive geometry viewer.
//!
//! CPU-side geometry (vertices, triangle indices, instance transforms) is
//! collected into named groups, merged as it streams in, and lazily uploaded
//! to GPU buffers the first time a frame needs to draw it.  All 32-bit
//! floating-point quantities are carried as their IEEE-754 bit patterns, so
//! the bookkeeping around them (index re-basing, bounding extents, buffer
//! layout) is ordinary integer arithmetic.

pub mod bits;
pub mod cache;
pub mod camera;
pub mod dialogs;
pub mod frame;
pub mod gpu;
pub mod instance;
pub mod light;
pub mod matrices;
pub mod mesh;
pub mod pipeline;
pub mod vertex;
