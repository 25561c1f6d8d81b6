//! The top-level rendering options of a grid, and the cyclic style policy.

use vstd::prelude::*;
use vstd::math::max;

use crate::fixed::RADIUS_LIMIT;
use crate::fixed::max_i64;
use crate::options::draw_options::Color;
use crate::options::draw_options::Intersections;
use crate::options::draw_options::Lines;
use crate::options::draw_options::Point;
use crate::options::draw_options::Triangle;
use crate::options::draw_options::CollisionOption;
use crate::options::draw_options::copy_colors;
use crate::options::draw_options::intersections_max_radius;
use crate::options::draw_options::intersections_wf;
use crate::options::draw_options::lines_has_color;
use crate::options::draw_options::lines_max_radius;
use crate::options::draw_options::lines_wf;
use crate::options::draw_options::lines_matches;
use crate::options::draw_options::point_max_radius;
use crate::options::draw_options::point_wf;
use crate::pattern_utils::Angle;

verus! {

/// Default thickness of a line, as a fraction of the inter-point distance.
pub const LINE_THICKNESS: i64 = 120_000;

/// Default minimum number of segments per added gradient color.
pub const SEGS_PER_COLOR: usize = 15;

/// Main options for rendering a grid of patterns.
#[derive(Debug, Clone, PartialEq)]
pub struct GridOptions {
    /// Thickness of a line as a fraction of the distance between points,
    /// in micro-units.
    pub line_thickness: i64,
    /// How each pattern's style is chosen.
    pub pattern_options: GridPatternOptions,
    /// Optional point placed in the center of each pattern.
    pub center_dot: Point,
}

/// Either one style for every pattern, or a list of styles cycled through
/// when introspection/retrospection patterns are met.
#[derive(Debug, Clone, PartialEq)]
pub enum GridPatternOptions {
    /// Every pattern is rendered the same way.
    Uniform(Intersections, Lines),
    /// The style steps forward after an introspection pattern and back on a
    /// retrospection pattern.
    Changing {
        /// The styles cycled through, starting at the first.
        variations: Vec<(Intersections, Lines)>,
        /// Angle-signatures of introspection patterns.
        intros: Vec<Vec<Angle>>,
        /// Angle-signatures of retrospection patterns.
        retros: Vec<Vec<Angle>>,
    },
}

/// The style list a policy cycles through; a uniform policy is a single
/// variation.
pub open spec fn variations_of(p: GridPatternOptions) -> Seq<(Intersections, Lines)> {
    match p {
        GridPatternOptions::Uniform(inter, lin) => seq![(inter, lin)],
        GridPatternOptions::Changing { variations, .. } => variations@,
    }
}

/// The angle-signatures that advance the style cursor.
pub open spec fn intros_of(p: GridPatternOptions) -> Seq<Seq<Angle>> {
    match p {
        GridPatternOptions::Uniform(..) => Seq::empty(),
        GridPatternOptions::Changing { intros, .. } => intros@.map_values(|v: Vec<Angle>| v@),
    }
}

/// The angle-signatures that rewind the style cursor.
pub open spec fn retros_of(p: GridPatternOptions) -> Seq<Seq<Angle>> {
    match p {
        GridPatternOptions::Uniform(..) => Seq::empty(),
        GridPatternOptions::Changing { retros, .. } => retros@.map_values(|v: Vec<Angle>| v@),
    }
}

/// The part of well-formedness the radius queries need: every variation's
/// radii are within range.
pub open spec fn pattern_options_radius_wf(p: GridPatternOptions) -> bool {
    forall|j: int|
        0 <= j < variations_of(p).len() ==> intersections_wf(
            (#[trigger] variations_of(p)[j]).0,
        ) && lines_wf(variations_of(p)[j].1)
}

/// A style policy is well-formed when it has at least one variation, every
/// variation's radii are in range, and every variation can degrade to a
/// single color.
pub open spec fn pattern_options_wf(p: GridPatternOptions) -> bool {
    &&& variations_of(p).len() >= 1
    &&& pattern_options_radius_wf(p)
    &&& forall|j: int|
        0 <= j < variations_of(p).len() ==> lines_has_color((#[trigger] variations_of(p)[j]).1)
}

/// The part of well-formedness the radius queries need: thickness, center
/// dot and every variation's radii within range.
pub open spec fn grid_options_radius_wf(o: GridOptions) -> bool {
    &&& 0 <= o.line_thickness <= RADIUS_LIMIT
    &&& point_wf(o.center_dot)
    &&& pattern_options_radius_wf(o.pattern_options)
}

pub open spec fn grid_options_wf(o: GridOptions) -> bool {
    &&& grid_options_radius_wf(o)
    &&& pattern_options_wf(o.pattern_options)
}

/// The largest radius of one variation.
pub open spec fn pair_max_radius(v: (Intersections, Lines)) -> int {
    max(intersections_max_radius(v.0), lines_max_radius(v.1))
}

/// The largest radius over a list of variations.
pub open spec fn variations_max_radius(vars: Seq<(Intersections, Lines)>) -> int
    decreases vars.len(),
{
    if vars.len() == 0 {
        0
    } else {
        max(variations_max_radius(vars.drop_last()), pair_max_radius(vars.last()))
    }
}

/// The largest radius any variation of the policy could draw.
pub open spec fn pattern_options_max_radius(p: GridPatternOptions) -> int {
    match p {
        GridPatternOptions::Uniform(inter, lin) => pair_max_radius((inter, lin)),
        GridPatternOptions::Changing { variations, .. } => variations_max_radius(variations@),
    }
}

/// The largest distance any decoration of the whole configuration could
/// extend from a vertex.
pub open spec fn grid_options_max_radius(o: GridOptions) -> int {
    max(
        max(o.line_thickness as int, point_max_radius(o.center_dot)),
        pattern_options_max_radius(o.pattern_options),
    )
}

/// The radius over a variation list is bounded when every entry is
/// well-formed.
pub proof fn lemma_variations_max_radius_bounds(vars: Seq<(Intersections, Lines)>)
    requires
        forall|j: int|
            0 <= j < vars.len() ==> intersections_wf((#[trigger] vars[j]).0) && lines_wf(
                vars[j].1,
            ),
    ensures
        0 <= variations_max_radius(vars) <= RADIUS_LIMIT,
        forall|j: int| 0 <= j < vars.len() ==> pair_max_radius(#[trigger] vars[j]) <= variations_max_radius(vars),
    decreases vars.len(),
{
    if vars.len() > 0 {
        lemma_variations_max_radius_bounds(vars.drop_last());
        assert(forall|j: int|
            0 <= j < vars.len() - 1 ==> vars[j] == #[trigger] vars.drop_last()[j]);
        assert(vars.last() == vars[vars.len() - 1]);
        assert forall|j: int| 0 <= j < vars.len() implies pair_max_radius(#[trigger] vars[j])
            <= variations_max_radius(vars) by {
            if j < vars.len() - 1 {
                assert(vars[j] == vars.drop_last()[j]);
                assert(pair_max_radius(vars.drop_last()[j]) <= variations_max_radius(
                    vars.drop_last(),
                ));
            }
        }
    }
}

impl GridOptions {
    /// A configuration with the default line thickness.
    pub fn generate(pattern_options: GridPatternOptions, center_dot: Point) -> (r: Self)
        ensures
            r.line_thickness == LINE_THICKNESS,
            r.pattern_options == pattern_options,
            r.center_dot == center_dot,
    {
        Self { line_thickness: LINE_THICKNESS, pattern_options, center_dot }
    }

    /// Largest radius any decoration of this configuration could draw.
    pub fn get_max_radius(&self) -> (r: i64)
        requires
            grid_options_radius_wf(*self),
        ensures
            r == grid_options_max_radius(*self),
            0 <= r <= RADIUS_LIMIT,
    {
        let pattern_radius = self.pattern_options.get_max_radius();
        max_i64(max_i64(self.line_thickness, self.center_dot.get_max_radius()), pattern_radius)
    }
}

impl GridPatternOptions {
    /// Largest radius any variation of this policy could draw.
    pub fn get_max_radius(&self) -> (r: i64)
        requires
            pattern_options_radius_wf(*self),
        ensures
            r == pattern_options_max_radius(*self),
            0 <= r <= RADIUS_LIMIT,
    {
        match self {
            GridPatternOptions::Uniform(intersection, line) => {
                assert(variations_of(*self)[0] == (*intersection, *line));
                max_i64(intersection.get_max_radius(), line.get_max_radius())
            },
            GridPatternOptions::Changing { variations, .. } => {
                let mut acc: i64 = 0;
                let mut i: usize = 0;
                proof {
                    assert(variations@.subrange(0, 0) =~= Seq::<(Intersections, Lines)>::empty());
                    assert(forall|j: int|
                        0 <= j < variations@.len() ==> #[trigger] variations@[j]
                            == variations_of(*self)[j]);
                    lemma_variations_max_radius_bounds(variations@);
                }
                while i < variations.len()
                    invariant
                        0 <= i <= variations@.len(),
                        acc == variations_max_radius(variations@.subrange(0, i as int)),
                        0 <= acc <= RADIUS_LIMIT,
                        forall|j: int|
                            0 <= j < variations@.len() ==> intersections_wf(
                                (#[trigger] variations@[j]).0,
                            ) && lines_wf(variations@[j].1),
                    decreases variations@.len() - i,
                {
                    let pair = &variations[i];
                    let pr = max_i64(pair.0.get_max_radius(), pair.1.get_max_radius());
                    acc = max_i64(acc, pr);
                    proof {
                        assert(variations@.subrange(0, i + 1).drop_last() =~= variations@.subrange(
                            0,
                            i as int,
                        ));
                        assert(variations@.subrange(0, i + 1).last() == variations@[i as int]);
                        lemma_variations_max_radius_bounds(variations@.subrange(0, i + 1));
                    }
                    i = i + 1;
                }
                proof {
                    assert(variations@.subrange(0, variations@.len() as int) =~= variations@);
                }
                acc
            },
        }
    }

    /// A changing policy where every variation shares one intersection
    /// style.
    pub fn generate_changing(
        intersection: Intersections,
        lines: Vec<Lines>,
        intros: Vec<Vec<Angle>>,
        retros: Vec<Vec<Angle>>,
    ) -> (r: Self)
        ensures
            variations_of(r).len() == lines@.len(),
            forall|j: int|
                0 <= j < lines@.len() ==> (#[trigger] variations_of(r)[j]).0 == intersection
                    && lines_matches(variations_of(r)[j].1, lines@[j]),
            intros_of(r) == intros@.map_values(|v: Vec<Angle>| v@),
            retros_of(r) == retros@.map_values(|v: Vec<Angle>| v@),
    {
        let mut parts: Vec<(Intersections, Lines)> = Vec::new();
        let mut i: usize = 0;
        while i < lines.len()
            invariant
                0 <= i <= lines@.len(),
                parts@.len() == i,
                forall|j: int|
                    0 <= j < i ==> (#[trigger] parts@[j]).0 == intersection && lines_matches(
                        parts@[j].1,
                        lines@[j],
                    ),
            decreases lines@.len() - i,
        {
            parts.push((intersection, lines[i].duplicate()));
            i = i + 1;
        }
        Self::Changing { variations: parts, intros, retros }
    }

    /// `generate_changing` with the default introspection and retrospection
    /// signatures.
    pub fn generate_default_changing(intersection: Intersections, lines: Vec<Lines>) -> (r: Self)
        ensures
            variations_of(r).len() == lines@.len(),
            forall|j: int|
                0 <= j < lines@.len() ==> (#[trigger] variations_of(r)[j]).0 == intersection
                    && lines_matches(variations_of(r)[j].1, lines@[j]),
            intros_of(r) == seq![seq![Angle::Left, Angle::Left, Angle::Left]],
            retros_of(r) == seq![seq![Angle::Right, Angle::Right, Angle::Right]],
    {
        let r = Self::generate_changing(intersection, lines, intro_angle_sigs(), retro_angle_sigs());
        proof {
            assert(intros_of(r) =~~= seq![seq![Angle::Left, Angle::Left, Angle::Left]]);
            assert(retros_of(r) =~~= seq![seq![Angle::Right, Angle::Right, Angle::Right]]);
        }
        r
    }

    /// A changing policy whose variations are all monocolor.
    pub fn gen_changing_monocolor(intersection: Intersections, colors: Vec<Color>, bent: bool) -> (r:
        Self)
        ensures
            variations_of(r).len() == colors@.len(),
            forall|j: int|
                0 <= j < colors@.len() ==> (#[trigger] variations_of(r)[j]).0 == intersection
                    && lines_matches(
                    variations_of(r)[j].1,
                    (Lines::Monocolor { color: colors@[j], bent }),
                ),
            intros_of(r) == seq![seq![Angle::Left, Angle::Left, Angle::Left]],
            retros_of(r) == seq![seq![Angle::Right, Angle::Right, Angle::Right]],
    {
        let mut lines: Vec<Lines> = Vec::new();
        let mut i: usize = 0;
        while i < colors.len()
            invariant
                0 <= i <= colors@.len(),
                lines@.len() == i,
                forall|j: int|
                    0 <= j < i ==> #[trigger] lines@[j] == (Lines::Monocolor {
                        color: colors@[j],
                        bent,
                    }),
            decreases colors@.len() - i,
        {
            lines.push(Lines::Monocolor { color: colors[i], bent });
            i = i + 1;
        }
        Self::generate_default_changing(intersection, lines)
    }

    /// A changing policy whose variations are all gradients.
    pub fn gen_changing_gradient(
        intersection: Intersections,
        colors: Vec<Vec<Color>>,
        bent: bool,
    ) -> (r: Self)
        ensures
            variations_of(r).len() == colors@.len(),
            forall|j: int|
                0 <= j < colors@.len() ==> (#[trigger] variations_of(r)[j]).0 == intersection
                    && variations_of(r)[j].1 is Gradient
                    && variations_of(r)[j].1->Gradient_colors@ == colors@[j]@
                    && variations_of(r)[j].1->Gradient_segments_per_color == SEGS_PER_COLOR
                    && variations_of(r)[j].1->Gradient_bent == bent,
            intros_of(r) == seq![seq![Angle::Left, Angle::Left, Angle::Left]],
            retros_of(r) == seq![seq![Angle::Right, Angle::Right, Angle::Right]],
    {
        let mut lines: Vec<Lines> = Vec::new();
        let mut i: usize = 0;
        while i < colors.len()
            invariant
                0 <= i <= colors@.len(),
                lines@.len() == i,
                forall|j: int|
                    0 <= j < i ==> (#[trigger] lines@[j]) is Gradient
                        && lines@[j]->Gradient_colors@ == colors@[j]@
                        && lines@[j]->Gradient_segments_per_color == SEGS_PER_COLOR
                        && lines@[j]->Gradient_bent == bent,
            decreases colors@.len() - i,
        {
            lines.push(
                Lines::Gradient {
                    colors: copy_colors(&colors[i]),
                    segments_per_color: SEGS_PER_COLOR,
                    bent,
                },
            );
            i = i + 1;
        }
        Self::generate_default_changing(intersection, lines)
    }

    /// A changing policy whose variations are all segment-colored.
    pub fn gen_changing_segment(
        intersection: Intersections,
        colors: Vec<Vec<Color>>,
        triangles: Triangle,
        collisions: CollisionOption,
    ) -> (r: Self)
        ensures
            variations_of(r).len() == colors@.len(),
            forall|j: int|
                0 <= j < colors@.len() ==> (#[trigger] variations_of(r)[j]).0 == intersection
                    && variations_of(r)[j].1 is SegmentColors
                    && variations_of(r)[j].1->SegmentColors_colors@ == colors@[j]@
                    && variations_of(r)[j].1->SegmentColors_triangles == triangles
                    && variations_of(r)[j].1->SegmentColors_collisions == collisions,
            intros_of(r) == seq![seq![Angle::Left, Angle::Left, Angle::Left]],
            retros_of(r) == seq![seq![Angle::Right, Angle::Right, Angle::Right]],
    {
        let mut lines: Vec<Lines> = Vec::new();
        let mut i: usize = 0;
        while i < colors.len()
            invariant
                0 <= i <= colors@.len(),
                lines@.len() == i,
                forall|j: int|
                    0 <= j < i ==> (#[trigger] lines@[j]) is SegmentColors
                        && lines@[j]->SegmentColors_colors@ == colors@[j]@
                        && lines@[j]->SegmentColors_triangles == triangles
                        && lines@[j]->SegmentColors_collisions == collisions,
            decreases colors@.len() - i,
        {
            lines.push(
                Lines::SegmentColors { colors: copy_colors(&colors[i]), triangles, collisions },
            );
            i = i + 1;
        }
        Self::generate_default_changing(intersection, lines)
    }
}

/// The default introspection signature: three left turns.
pub fn intro_angle_sigs() -> (r: Vec<Vec<Angle>>)
    ensures
        r@.map_values(|v: Vec<Angle>| v@) == seq![seq![Angle::Left, Angle::Left, Angle::Left]],
{
    let sig: Vec<Angle> = vec![Angle::Left, Angle::Left, Angle::Left];
    let r: Vec<Vec<Angle>> = vec![sig];
    proof {
        assert(r@.map_values(|v: Vec<Angle>| v@) =~~= seq![
            seq![Angle::Left, Angle::Left, Angle::Left],
        ]);
    }
    r
}

/// The default retrospection signature: three right turns.
pub fn retro_angle_sigs() -> (r: Vec<Vec<Angle>>)
    ensures
        r@.map_values(|v: Vec<Angle>| v@) == seq![seq![Angle::Right, Angle::Right, Angle::Right]],
{
    let sig: Vec<Angle> = vec![Angle::Right, Angle::Right, Angle::Right];
    let r: Vec<Vec<Angle>> = vec![sig];
    proof {
        assert(r@.map_values(|v: Vec<Angle>| v@) =~~= seq![
            seq![Angle::Right, Angle::Right, Angle::Right],
        ]);
    }
    r
}

} // verus!
