//! Rendering core for grids of hex-casting patterns.
//!
//! The crate lays an ordered list of patterns out on a tile grid or a hex
//! grid, resolves the drawing style of every placement (including the cyclic
//! style selection driven by introspection/retrospection patterns), and
//! computes canvas sizes, padding and global scale.  All fractional
//! quantities are carried in fixed-point micro-units (see [`fixed`]), so the
//! whole pipeline is verified; the per-pattern rasterizer consumes the
//! resolved placements afterwards.

pub mod canvas;
pub mod grids;
pub mod pattern;
pub mod fixed;
pub mod options;
pub mod pattern_utils;
