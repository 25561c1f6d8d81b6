//! Small geometric value types shared by the grids.

mod angle;
mod coord;
mod hex_coord;

pub use angle::Angle;
pub use coord::Coord;
pub use hex_coord::HexCoord;
pub use hex_coord::floor_sqrt;
pub use hex_coord::lemma_floor_sqrt_unique;
