//! Turn angles between consecutive strokes of a pattern.

use vstd::prelude::*;

verus! {

/// One turn of a pattern's angle-signature: the direction of the next
/// stroke relative to the previous one.
#[derive(Debug, Clone, Copy, PartialEq, Eq, Structural, Hash)]
pub enum Angle {
    Forward,
    Right,
    BackRight,
    Back,
    BackLeft,
    Left,
}

} // verus!
