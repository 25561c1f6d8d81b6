//! Styles for the lines and intersection points of a drawn pattern.
//!
//! Radii are fractions of the distance between grid points, in fixed-point
//! micro-units (see [`crate::fixed`]).

use vstd::prelude::*;
use vstd::math::max;

use crate::fixed::RADIUS_LIMIT;

verus! {

/// An RGBA color.
#[derive(Debug, Clone, Copy, PartialEq, Eq, Structural, PartialOrd, Ord, Hash)]
pub struct Color(pub u8, pub u8, pub u8, pub u8);

/// A dot or shape drawn at a grid point: a color and a radius
/// (as a fraction of the inter-point distance, in micro-units).
#[derive(Debug, Clone, Copy, PartialEq, Eq, Structural)]
pub struct Marker {
    pub color: Color,
    pub radius: i64,
}

/// How to draw the dot at one grid point.
#[derive(Debug, Clone, Copy, PartialEq, Eq, Structural)]
pub enum Point {
    /// Draw nothing.
    Nothing,
    /// Draw a single marker.
    Single(Marker),
    /// Draw two concentric markers.
    Double { inner: Marker, outer: Marker },
}

/// How to draw the start or end point of a pattern.  It may be a fixed
/// [`Point`], or match the color of the adjacent line once that is known.
#[derive(Debug, Clone, Copy, PartialEq, Eq, Structural)]
pub enum EndPoint {
    /// Draw a fixed point.
    Point(Point),
    /// Draw a single marker in the adjacent line's color.
    Match { radius: i64 },
    /// Draw a marker in the adjacent line's color, with a border marker.
    BorderedMatch { match_radius: i64, border: Marker },
}

/// The per-pattern policy for its intersection points.
#[derive(Debug, Clone, Copy, PartialEq, Eq, Structural)]
pub enum Intersections {
    /// No points at all.
    Nothing,
    /// The same point everywhere, ends included.
    UniformPoints(Point),
    /// Distinct policies for the start, the end and the middle points.
    EndsAndMiddle { start: EndPoint, end: EndPoint, middle: Point },
}

/// Arrow/triangle decorations drawn where the segment coloring changes.
#[derive(Debug, Clone, Copy, PartialEq, Eq, Structural)]
pub enum Triangle {
    /// Draw none.
    Nothing,
    /// Match the color of the line.
    Match { radius: i64 },
    /// Match the color of the line, with a border marker.
    BorderMatch { match_radius: i64, border: Marker },
    /// Like `BorderMatch`, with an extra triangle right after the start.
    BorderStartMatch { match_radius: i64, border: Marker },
}

/// How overlapping segments (impossible patterns) are drawn.
#[derive(Debug, Clone, Copy, PartialEq, Eq, Structural)]
pub enum OverloadOptions {
    /// Dashes of the given color over the first line.
    Dashes(Color),
    /// Dashes plus a label showing the number of overlapping lines.
    LabeledDashes { color: Color, label: Marker },
    /// Dashes whose marks encode each overlapping color.
    MatchedDashes,
}

/// Policy for rendering coincident line segments.
#[derive(Debug, Clone, Copy, PartialEq, Eq, Structural)]
pub enum CollisionOption {
    /// The first segment, then dashes of the given color.
    Dashes(Color),
    /// Dashes whose marks encode each overlapping color.
    MatchedDashes,
    /// All overlapping segments as thin parallel lines.
    ParallelLines,
    /// Parallel lines with an escape once the overlap count passes `max_line`.
    OverloadedParallel { max_line: usize, overload: OverloadOptions },
}

/// The line-drawing style of a pattern.
#[derive(Debug, Clone, PartialEq)]
pub enum Lines {
    /// A single color; `bent` bends the corners at intersections.
    Monocolor { color: Color, bent: bool },
    /// Colors blended along the stroke; one more color of the list is used
    /// for every `segments_per_color` segments.
    Gradient { colors: Vec<Color>, segments_per_color: usize, bent: bool },
    /// A discrete color per topological segment of the stroke.
    SegmentColors { colors: Vec<Color>, triangles: Triangle, collisions: CollisionOption },
}

/// A marker radius is a non-negative fraction within the fixed-point range.
pub open spec fn marker_wf(m: Marker) -> bool {
    0 <= m.radius <= RADIUS_LIMIT
}

pub open spec fn point_wf(p: Point) -> bool {
    match p {
        Point::Nothing => true,
        Point::Single(m) => marker_wf(m),
        Point::Double { inner, outer } => marker_wf(inner) && marker_wf(outer),
    }
}

pub open spec fn endpoint_wf(e: EndPoint) -> bool {
    match e {
        EndPoint::Point(p) => point_wf(p),
        EndPoint::Match { radius } => 0 <= radius <= RADIUS_LIMIT,
        EndPoint::BorderedMatch { match_radius, border } => 0 <= match_radius <= RADIUS_LIMIT
            && marker_wf(border),
    }
}

pub open spec fn intersections_wf(i: Intersections) -> bool {
    match i {
        Intersections::Nothing => true,
        Intersections::UniformPoints(p) => point_wf(p),
        Intersections::EndsAndMiddle { start, end, middle } => endpoint_wf(start) && endpoint_wf(
            end,
        ) && point_wf(middle),
    }
}

pub open spec fn triangle_wf(t: Triangle) -> bool {
    match t {
        Triangle::Nothing => true,
        Triangle::Match { radius } => 0 <= radius <= RADIUS_LIMIT,
        Triangle::BorderMatch { match_radius, border } => 0 <= match_radius <= RADIUS_LIMIT
            && marker_wf(border),
        Triangle::BorderStartMatch { match_radius, border } => 0 <= match_radius <= RADIUS_LIMIT
            && marker_wf(border),
    }
}

pub open spec fn lines_wf(l: Lines) -> bool {
    match l {
        Lines::Monocolor { .. } => true,
        Lines::Gradient { .. } => true,
        Lines::SegmentColors { triangles, .. } => triangle_wf(triangles),
    }
}

/// Equality of two line styles, comparing color lists by their contents.
pub open spec fn lines_matches(a: Lines, b: Lines) -> bool {
    match (a, b) {
        (
            Lines::Monocolor { color: c1, bent: b1 },
            Lines::Monocolor { color: c2, bent: b2 },
        ) => c1 == c2 && b1 == b2,
        (
            Lines::Gradient { colors: v1, segments_per_color: s1, bent: b1 },
            Lines::Gradient { colors: v2, segments_per_color: s2, bent: b2 },
        ) => v1@ == v2@ && s1 == s2 && b1 == b2,
        (
            Lines::SegmentColors { colors: v1, triangles: t1, collisions: c1 },
            Lines::SegmentColors { colors: v2, triangles: t2, collisions: c2 },
        ) => v1@ == v2@ && t1 == t2 && c1 == c2,
        _ => false,
    }
}

/// Whether degrading the style to a single color can pick a first color.
pub open spec fn lines_has_color(l: Lines) -> bool {
    match l {
        Lines::Monocolor { .. } => true,
        Lines::Gradient { colors, .. } => colors.len() >= 1,
        Lines::SegmentColors { colors, .. } => colors.len() >= 1,
    }
}

/// Largest distance any marker of the point style extends from its vertex.
pub open spec fn point_max_radius(p: Point) -> int {
    match p {
        Point::Nothing => 0,
        Point::Single(m) => m.radius as int,
        Point::Double { inner, outer } => max(inner.radius as int, outer.radius as int),
    }
}

pub open spec fn endpoint_max_radius(e: EndPoint) -> int {
    match e {
        EndPoint::Point(p) => point_max_radius(p),
        EndPoint::Match { radius } => radius as int,
        EndPoint::BorderedMatch { match_radius, border } => max(
            match_radius as int,
            border.radius as int,
        ),
    }
}

pub open spec fn intersections_max_radius(i: Intersections) -> int {
    match i {
        Intersections::Nothing => 0,
        Intersections::UniformPoints(p) => point_max_radius(p),
        Intersections::EndsAndMiddle { start, end, middle } => max(
            max(endpoint_max_radius(start), endpoint_max_radius(end)),
            point_max_radius(middle),
        ),
    }
}

pub open spec fn triangle_max_radius(t: Triangle) -> int {
    match t {
        Triangle::Nothing => 0,
        Triangle::Match { radius } => radius as int,
        Triangle::BorderMatch { match_radius, border } => max(
            match_radius as int,
            border.radius as int,
        ),
        Triangle::BorderStartMatch { match_radius, border } => max(
            match_radius as int,
            border.radius as int,
        ),
    }
}

pub open spec fn lines_max_radius(l: Lines) -> int {
    match l {
        Lines::Monocolor { .. } => 0,
        Lines::Gradient { .. } => 0,
        Lines::SegmentColors { triangles, .. } => triangle_max_radius(triangles),
    }
}

/// The point an end-point policy resolves to once the adjacent line's color
/// is known.  Of the two markers of a bordered match, the larger becomes the
/// outer one.
pub open spec fn endpoint_resolved(e: EndPoint, end_color: Color) -> Point {
    match e {
        EndPoint::Point(p) => p,
        EndPoint::Match { radius } => Point::Single(Marker { color: end_color, radius }),
        EndPoint::BorderedMatch { match_radius, border } => {
            let match_marker = Marker { color: end_color, radius: match_radius };
            if match_radius > border.radius {
                Point::Double { inner: border, outer: match_marker }
            } else {
                Point::Double { inner: match_marker, outer: border }
            }
        },
    }
}

/// The point drawn at a color-change boundary for the triangle policy, if any.
pub open spec fn triangle_middle_marker(t: Triangle, color: Color) -> Option<Point> {
    match t {
        Triangle::Nothing => Option::None,
        Triangle::Match { radius } => Option::Some(Point::Single(Marker { color, radius })),
        Triangle::BorderStartMatch { match_radius, .. } => Option::Some(
            Point::Single(Marker { color, radius: match_radius }),
        ),
        Triangle::BorderMatch { match_radius, border } => {
            let match_marker = Marker { color, radius: match_radius };
            if match_radius > border.radius {
                Option::Some(Point::Double { inner: border, outer: match_marker })
            } else {
                Option::Some(Point::Double { inner: match_marker, outer: border })
            }
        },
    }
}

/// The point drawn at the very start for the triangle policy, if any.
pub open spec fn triangle_start_marker(t: Triangle, start_color: Color) -> Option<Point> {
    match t {
        Triangle::Nothing => Option::None,
        Triangle::Match { radius } => Option::Some(
            Point::Single(Marker { color: start_color, radius }),
        ),
        Triangle::BorderMatch { match_radius, border } | Triangle::BorderStartMatch {
            match_radius,
            border,
        } => {
            let match_marker = Marker { color: start_color, radius: match_radius };
            if match_radius > border.radius {
                Option::Some(Point::Double { inner: border, outer: match_marker })
            } else {
                Option::Some(Point::Double { inner: match_marker, outer: border })
            }
        },
    }
}

/// An element-for-element copy of a color list.
pub fn copy_colors(v: &Vec<Color>) -> (r: Vec<Color>)
    ensures
        r@ == v@,
{
    let mut out: Vec<Color> = Vec::new();
    let mut i: usize = 0;
    while i < v.len()
        invariant
            0 <= i <= v.len(),
            out@ == v@.subrange(0, i as int),
        decreases v.len() - i,
    {
        out.push(v[i]);
        i = i + 1;
        proof {
            assert(out@ =~= v@.subrange(0, i as int));
        }
    }
    proof {
        assert(out@ =~= v@);
    }
    out
}

impl Lines {
    /// A copy with the same contents as this style.
    pub fn duplicate(&self) -> (r: Lines)
        ensures
            lines_matches(r, *self),
    {
        match self {
            Lines::Monocolor { color, bent } => Lines::Monocolor { color: *color, bent: *bent },
            Lines::Gradient { colors, segments_per_color, bent } => Lines::Gradient {
                colors: copy_colors(colors),
                segments_per_color: *segments_per_color,
                bent: *bent,
            },
            Lines::SegmentColors { colors, triangles, collisions } => Lines::SegmentColors {
                colors: copy_colors(colors),
                triangles: *triangles,
                collisions: *collisions,
            },
        }
    }
}

impl From<Point> for EndPoint {
    fn from(value: Point) -> (r: Self) {
        EndPoint::Point(value)
    }
}

impl vstd::std_specs::convert::FromSpecImpl<Point> for EndPoint {
    open spec fn obeys_from_spec() -> bool {
        true
    }

    open spec fn from_spec(value: Point) -> Self {
        EndPoint::Point(value)
    }
}

impl EndPoint {
    /// Resolves the policy into a concrete point, given the adjacent line's
    /// color.
    pub fn into_point(self, end_color: Color) -> (r: Point)
        ensures
            r == endpoint_resolved(self, end_color),
    {
        match self {
            Self::Point(point) => point,
            Self::Match { radius } => Point::Single(Marker { color: end_color, radius }),
            Self::BorderedMatch { match_radius, border } => {
                let match_marker = Marker { radius: match_radius, color: end_color };
                if match_radius > border.radius {
                    Point::Double { inner: border, outer: match_marker }
                } else {
                    Point::Double { inner: match_marker, outer: border }
                }
            },
        }
    }

    /// Largest distance any marker of this policy extends from its vertex.
    pub fn get_max_radius(&self) -> (r: i64)
        requires
            endpoint_wf(*self),
        ensures
            r == endpoint_max_radius(*self),
    {
        match self {
            EndPoint::Point(point) => point.get_max_radius(),
            EndPoint::Match { radius } => *radius,
            EndPoint::BorderedMatch { match_radius, border } => crate::fixed::max_i64(
                *match_radius,
                border.radius,
            ),
        }
    }
}

impl Triangle {
    /// The decoration drawn where the line color changes, if any.
    pub fn to_middle_point(&self, color: Color) -> (r: Option<Point>)
        ensures
            r == triangle_middle_marker(*self, color),
    {
        match self {
            Triangle::Nothing => Option::None,
            Triangle::Match { radius } => Option::Some(
                Point::Single(Marker { color, radius: *radius }),
            ),
            Triangle::BorderStartMatch { match_radius, border: _ } => Option::Some(
                Point::Single(Marker { color, radius: *match_radius }),
            ),
            Triangle::BorderMatch { match_radius, border } => {
                let match_marker = Marker { radius: *match_radius, color };
                let marker = if *match_radius > border.radius {
                    Point::Double { inner: *border, outer: match_marker }
                } else {
                    Point::Double { inner: match_marker, outer: *border }
                };
                Option::Some(marker)
            },
        }
    }

    /// The decoration drawn at the very start of the line, if any.
    pub fn to_start_point(&self, start_color: Color) -> (r: Option<Point>)
        ensures
            r == triangle_start_marker(*self, start_color),
    {
        match self {
            Triangle::Nothing => Option::None,
            Triangle::Match { radius } => Option::Some(
                Point::Single(Marker { color: start_color, radius: *radius }),
            ),
            Triangle::BorderMatch { match_radius, border } | Triangle::BorderStartMatch {
                match_radius,
                border,
            } => {
                let match_marker = Marker { color: start_color, radius: *match_radius };
                let marker = if *match_radius > border.radius {
                    Point::Double { inner: *border, outer: match_marker }
                } else {
                    Point::Double { outer: *border, inner: match_marker }
                };
                Option::Some(marker)
            },
        }
    }

    /// Largest distance any decoration of this policy extends from a vertex.
    pub fn get_max_radius(&self) -> (r: i64)
        requires
            triangle_wf(*self),
        ensures
            r == triangle_max_radius(*self),
    {
        match self {
            Triangle::Nothing => 0,
            Triangle::Match { radius } => *radius,
            Triangle::BorderMatch { match_radius, border } => crate::fixed::max_i64(
                *match_radius,
                border.radius,
            ),
            Triangle::BorderStartMatch { match_radius, border } => crate::fixed::max_i64(
                *match_radius,
                border.radius,
            ),
        }
    }
}

impl Point {
    /// Largest distance any marker of this point extends from its vertex.
    pub fn get_max_radius(&self) -> (r: i64)
        requires
            point_wf(*self),
        ensures
            r == point_max_radius(*self),
    {
        match self {
            Point::Nothing => 0,
            Point::Single(marker) => marker.radius,
            Point::Double { inner, outer } => crate::fixed::max_i64(inner.radius, outer.radius),
        }
    }
}

impl Intersections {
    /// Largest distance any marker of this policy extends from a vertex.
    pub fn get_max_radius(&self) -> (r: i64)
        requires
            intersections_wf(*self),
        ensures
            r == intersections_max_radius(*self),
    {
        match self {
            Intersections::Nothing => 0,
            Intersections::UniformPoints(marker) => marker.get_max_radius(),
            Intersections::EndsAndMiddle { start, end, middle } => crate::fixed::max_i64(
                crate::fixed::max_i64(start.get_max_radius(), end.get_max_radius()),
                middle.get_max_radius(),
            ),
        }
    }
}

impl Lines {
    /// Largest distance any decoration of this style extends from a vertex.
    pub fn get_max_radius(&self) -> (r: i64)
        requires
            lines_wf(*self),
        ensures
            r == lines_max_radius(*self),
    {
        match self {
            Lines::Monocolor { .. } => 0,
            Lines::Gradient { .. } => 0,
            Lines::SegmentColors { triangles, .. } => triangles.get_max_radius(),
        }
    }
}

} // verus!
