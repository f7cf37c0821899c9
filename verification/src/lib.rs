//! Procedural voxel synthesis: given a world's column table, a seed and an
//! integer position, deterministically derive the voxel at that position and
//! the vertical span worth generating for a column.
//!
//! All terrain scalars (altitudes, water levels, noise amplitudes) are carried
//! in decimal fixed-point with four fractional digits, so the whole pipeline
//! is exact integer arithmetic and every stage can state precisely what it
//! returns.

pub mod block;
pub mod block_gen;
pub mod cache;
pub mod classify;
pub mod column;
pub mod field;
pub mod fixed;
pub mod geom;
pub mod heights;
pub mod laws;
pub mod noise;
pub mod object;
pub mod structure;
pub mod template;
pub mod world;

pub use object::Body;
