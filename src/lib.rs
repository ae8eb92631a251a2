//! Tessellation of 2D paths into fill and curve-coverage triangles, and the
//! jitter table and accumulation model of the two-pass stochastic rasterizer.
pub mod bufs;
pub mod jitter;
pub mod laws;
pub mod path;
pub mod tess;
