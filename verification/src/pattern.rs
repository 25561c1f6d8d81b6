//! The pattern model the grids lay out: an angle-signature and a bounding
//! box.  The stroke geometry itself belongs to the pattern renderer, not to
//! this crate.

use vstd::prelude::*;

use crate::fixed::PATTERN_SPAN_LIMIT;
use crate::pattern_utils::Angle;
use crate::pattern_utils::HexCoord;

verus! {

/// A pattern as the layout sees it: its angle-signature, and its
/// axis-aligned bounding box in pattern-local grid units.
#[derive(Debug, Clone, PartialEq)]
pub struct Pattern {
    /// The ordered turn angles of the pattern.
    pub angles: Vec<Angle>,
    /// The upper-left corner of the pattern's bounding box.
    pub top_left_bound: HexCoord,
    /// The lower-right corner of the pattern's bounding box.
    pub bottom_right_bound: HexCoord,
}

/// A pattern's bounding box is ordered and within the span the fixed-point
/// layout arithmetic admits.
pub open spec fn pattern_wf(p: Pattern) -> bool {
    &&& -PATTERN_SPAN_LIMIT <= p.top_left_bound.0 <= PATTERN_SPAN_LIMIT
    &&& -PATTERN_SPAN_LIMIT <= p.top_left_bound.1 <= PATTERN_SPAN_LIMIT
    &&& -PATTERN_SPAN_LIMIT <= p.bottom_right_bound.0 <= PATTERN_SPAN_LIMIT
    &&& -PATTERN_SPAN_LIMIT <= p.bottom_right_bound.1 <= PATTERN_SPAN_LIMIT
    &&& p.top_left_bound.0 <= p.bottom_right_bound.0
    &&& p.top_left_bound.1 <= p.bottom_right_bound.1
}

/// A pattern tagged with how it may be styled.
#[derive(Debug, Clone, PartialEq)]
pub enum PatternVariant {
    /// Eligible for any line style.
    Normal(Pattern),
    /// Always drawn with a degraded single-color, uniform-point style.
    Monocolor(Pattern),
}

/// The pattern wrapped by a variant.
pub open spec fn pattern_of(v: PatternVariant) -> Pattern {
    match v {
        PatternVariant::Normal(p) => p,
        PatternVariant::Monocolor(p) => p,
    }
}

/// The angle-signature of a variant's pattern.
pub open spec fn sig_of(v: PatternVariant) -> Seq<Angle> {
    pattern_of(v).angles@
}

impl PatternVariant {
    /// The wrapped pattern.
    pub fn get_inner(&self) -> (r: &Pattern)
        ensures
            *r == pattern_of(*self),
    {
        match self {
            PatternVariant::Normal(pattern) => pattern,
            PatternVariant::Monocolor(pattern) => pattern,
        }
    }
}

} // verus!
