//! Integer coordinates on the hex lattice.

use vstd::prelude::*;

verus! {

/// A position on the hex lattice, counted in whole rows and columns.
#[derive(Debug, Clone, Copy, PartialEq, Eq, Structural, Hash)]
pub struct Coord(pub i32, pub i32);

} // verus!
