//! Grid composition: resolving a style for every placement and sizing the
//! output canvas.
//!
//! A layout (see [`square_grid`] and [`hex_grid`]) turns patterns into
//! placements; the engine here checks the global scale, allocates the
//! canvas, and resolves the style of each placement in order — including the
//! cyclic style cursor driven by introspection/retrospection patterns — into
//! a list of [`DrawCall`]s for the pattern renderer.

pub mod hex_grid;
pub mod square_grid;

pub use hex_grid::HexGrid;
pub use square_grid::SquareGrid;

use vstd::prelude::*;

use crate::canvas::CANVAS_DIM_LIMIT;
use crate::canvas::Canvas;
use crate::canvas::png_dims;
use crate::fixed::FIX_LIMIT;
use crate::fixed::GRID_SPAN_LIMIT;
use crate::fixed::UNIT;
use crate::fixed::fmul;
use crate::fixed::fdiv;
use crate::fixed::max_i64;
use crate::fixed::min_i64;
use crate::fixed::mul_frac;
use crate::fixed::div_frac;
use crate::options::Color;
use crate::options::GridOptions;
use crate::options::GridPatternOptions;
use crate::options::Intersections;
use crate::options::Lines;
use crate::options::grid_options_max_radius;
use crate::options::grid_options_wf;
use crate::options::intros_of;
use crate::options::lines_matches;
use crate::options::retros_of;
use crate::options::variations_of;
use crate::pattern::PatternVariant;
use crate::pattern::sig_of;
use crate::pattern_utils::Angle;
use crate::pattern_utils::HexCoord;

verus! {

/// Why a grid could not be created.
#[derive(Debug, Clone, Copy, PartialEq, Eq, Structural)]
pub enum GridCreationError {
    /// A zero row width or a negative padding fraction.
    NegativeInput,
    /// No patterns were given.
    EmptyPatternList,
}

/// Why a grid could not be drawn.
#[derive(Debug, Clone, Copy, PartialEq, Eq, Structural)]
pub enum GridDrawError {
    /// The global scale was below one pixel per grid unit.
    ImproperScale(i64),
    /// The pixel buffer could not be encoded as PNG.
    EncodeError,
}

/// One placement, fully resolved: where to draw which pattern, at which
/// scale, with which style.
#[derive(Debug, Clone, PartialEq)]
pub struct DrawCall {
    /// Index of the placement's pattern in the grid's own list.
    pub pattern: usize,
    /// Absolute position on the canvas, in micro-units of a pixel.
    pub position: HexCoord,
    /// Effective pattern scale (global scale times the placement's local
    /// scale), in micro-units of a pixel per grid unit.
    pub scale: i64,
    /// The resolved line style.
    pub lines: Lines,
    /// The resolved intersection style.
    pub intersections: Intersections,
}

/// A placement list and unpadded size the engine accepts: at least one
/// pattern, the size at least one tile and within the layout span, every
/// position within the fixed-point range and every local scale a fraction.
pub open spec fn grid_wf(placements: Seq<(PatternVariant, HexCoord, i64)>, size: HexCoord) -> bool {
    &&& placements.len() >= 1
    &&& UNIT <= size.0 <= GRID_SPAN_LIMIT
    &&& UNIT <= size.1 <= GRID_SPAN_LIMIT
    &&& forall|i: int|
        0 <= i < placements.len() ==> {
            &&& -FIX_LIMIT <= (#[trigger] placements[i]).1.0 <= FIX_LIMIT
            &&& -FIX_LIMIT <= placements[i].1.1 <= FIX_LIMIT
            &&& 0 <= placements[i].2 <= UNIT
        }
}

/// The first color of a line style: its own color for a monocolor style,
/// element 0 of the color list otherwise.
pub open spec fn lines_first_color(l: Lines) -> Color {
    match l {
        Lines::Monocolor { color, .. } => color,
        Lines::Gradient { colors, .. } => colors[0],
        Lines::SegmentColors { colors, .. } => colors[0],
    }
}

/// A style degraded for a monocolor-restricted pattern: its first color,
/// without bends.
pub open spec fn monocolor_degrade(l: Lines) -> Lines {
    Lines::Monocolor { color: lines_first_color(l), bent: false }
}

/// An intersection policy degraded for a monocolor-restricted pattern: a
/// compound policy collapses to its middle point used uniformly.
pub open spec fn uniform_degrade(i: Intersections) -> Intersections {
    match i {
        Intersections::Nothing => Intersections::Nothing,
        Intersections::UniformPoints(p) => Intersections::UniformPoints(p),
        Intersections::EndsAndMiddle { middle, .. } => Intersections::UniformPoints(middle),
    }
}

/// Membership of an angle-signature in a signature list.
pub open spec fn sig_in(sigs: Seq<Seq<Angle>>, sig: Seq<Angle>) -> bool {
    exists|k: int| 0 <= k < sigs.len() && sigs[k] == sig
}

/// The index a placement is drawn at, given the cursor before it: an
/// introspection pattern is drawn at the cursor, a retrospection pattern
/// first steps the cursor back (wrapping at zero).  Introspection wins when
/// a signature is in both sets.
pub open spec fn step_draw(cur: int, len: int, is_intro: bool, is_retro: bool) -> int {
    if is_intro {
        cur
    } else if is_retro {
        if cur == 0 {
            len - 1
        } else {
            cur - 1
        }
    } else {
        cur
    }
}

/// The cursor after a placement: an introspection pattern advances it by
/// one (wrapping), a retrospection pattern leaves it where the placement
/// was drawn.
pub open spec fn step_next(cur: int, len: int, is_intro: bool, is_retro: bool) -> int {
    if is_intro {
        (cur + 1) % len
    } else {
        step_draw(cur, len, is_intro, is_retro)
    }
}

/// The angle-signatures of a placement list.
pub open spec fn placement_sigs(placements: Seq<(PatternVariant, HexCoord, i64)>) -> Seq<
    Seq<Angle>,
> {
    placements.map_values(|p: (PatternVariant, HexCoord, i64)| sig_of(p.0))
}

/// The style cursor before placement `i` is processed: it starts at zero
/// and steps once per earlier placement.
pub open spec fn cursor_before(
    sigs: Seq<Seq<Angle>>,
    intros: Seq<Seq<Angle>>,
    retros: Seq<Seq<Angle>>,
    len: int,
    i: int,
) -> int
    decreases i,
{
    if i <= 0 {
        0
    } else {
        step_next(
            cursor_before(sigs, intros, retros, len, i - 1),
            len,
            sig_in(intros, sigs[i - 1]),
            sig_in(retros, sigs[i - 1]),
        )
    }
}

/// The variation index placement `i` is drawn with.
pub open spec fn drawn_index(
    sigs: Seq<Seq<Angle>>,
    intros: Seq<Seq<Angle>>,
    retros: Seq<Seq<Angle>>,
    len: int,
    i: int,
) -> int {
    step_draw(
        cursor_before(sigs, intros, retros, len, i),
        len,
        sig_in(intros, sigs[i]),
        sig_in(retros, sigs[i]),
    )
}

/// One step keeps the cursor within the variation list.
pub proof fn lemma_step_in_range(cur: int, len: int, is_intro: bool, is_retro: bool)
    requires
        len >= 1,
        0 <= cur < len,
    ensures
        0 <= step_draw(cur, len, is_intro, is_retro) < len,
        0 <= step_next(cur, len, is_intro, is_retro) < len,
{
}

/// The line style placement `i` resolves to: the drawn variation's style,
/// degraded to a single color for a monocolor-restricted pattern.
pub open spec fn resolved_lines(
    vars: Seq<(Intersections, Lines)>,
    pv: PatternVariant,
    d: int,
) -> Lines {
    if pv is Monocolor {
        monocolor_degrade(vars[d].1)
    } else {
        vars[d].1
    }
}

/// The intersection style placement `i` resolves to.
pub open spec fn resolved_intersections(
    vars: Seq<(Intersections, Lines)>,
    pv: PatternVariant,
    d: int,
) -> Intersections {
    if pv is Monocolor {
        uniform_degrade(vars[d].0)
    } else {
        vars[d].0
    }
}

/// What one entry of the resolved plan must hold.
pub open spec fn plan_entry_ok(
    placements: Seq<(PatternVariant, HexCoord, i64)>,
    po: GridPatternOptions,
    scale: int,
    border: int,
    j: int,
    e: DrawCall,
) -> bool {
    let vars = variations_of(po);
    let d = drawn_index(placement_sigs(placements), intros_of(po), retros_of(po), vars.len() as int, j);
    &&& e.pattern == j
    &&& e.position.0 == fmul(placements[j].1.0 as int, scale) + border
    &&& e.position.1 == fmul(placements[j].1.1 as int, scale) + border
    &&& e.scale == fmul(scale, placements[j].2 as int)
    &&& lines_matches(e.lines, resolved_lines(vars, placements[j].0, d))
    &&& e.intersections == resolved_intersections(vars, placements[j].0, d)
}

/// The width and height, in pixels, of the canvas for an unpadded size, a
/// scale and a per-side border (all fixed point): border on both sides plus
/// the scaled size, truncated to whole pixels.
pub open spec fn canvas_width(size: HexCoord, scale: int, border: int) -> int {
    (2 * border + fmul(size.0 as int, scale)) / (UNIT as int)
}

pub open spec fn canvas_height(size: HexCoord, scale: int, border: int) -> int {
    (2 * border + fmul(size.1 as int, scale)) / (UNIT as int)
}

/// What a successful composition returns: the canvas dimensions follow the
/// sizing formula and every placement is resolved in order.
pub open spec fn draw_plan_ok(
    size: HexCoord,
    placements: Seq<(PatternVariant, HexCoord, i64)>,
    options: GridOptions,
    scale: int,
    padding: int,
    dims: (u32, u32),
    plan: Seq<DrawCall>,
) -> bool {
    let border = fmul(padding, scale);
    &&& dims.0 == canvas_width(size, scale, border)
    &&& dims.1 == canvas_height(size, scale, border)
    &&& plan.len() == placements.len()
    &&& forall|j: int|
        0 <= j < plan.len() ==> plan_entry_ok(
            placements,
            options.pattern_options,
            scale,
            border,
            j,
            #[trigger] plan[j],
        )
}

/// Whether two angle-signatures are the same sequence of turns.
fn angles_eq(a: &Vec<Angle>, b: &Vec<Angle>) -> (r: bool)
    ensures
        r == (a@ == b@),
{
    if a.len() != b.len() {
        return false;
    }
    let mut i: usize = 0;
    while i < a.len()
        invariant
            0 <= i <= a@.len(),
            a@.len() == b@.len(),
            forall|k: int| 0 <= k < i ==> a@[k] == b@[k],
        decreases a@.len() - i,
    {
        if a[i] != b[i] {
            assert(a@[i as int] != b@[i as int]);
            return false;
        }
        i = i + 1;
    }
    proof {
        assert(a@ =~= b@);
    }
    true
}

/// Whether a signature is a member of a signature list.
fn sig_matches(sigs: &Vec<Vec<Angle>>, sig: &Vec<Angle>) -> (r: bool)
    ensures
        r == sig_in(sigs@.map_values(|v: Vec<Angle>| v@), sig@),
{
    let ghost ms = sigs@.map_values(|v: Vec<Angle>| v@);
    let mut k: usize = 0;
    while k < sigs.len()
        invariant
            0 <= k <= sigs@.len(),
            ms == sigs@.map_values(|v: Vec<Angle>| v@),
            forall|j: int| 0 <= j < k ==> ms[j] != sig@,
        decreases sigs@.len() - k,
    {
        if angles_eq(&sigs[k], sig) {
            proof {
                assert(ms[k as int] == sig@);
            }
            return true;
        }
        k = k + 1;
    }
    proof {
        assert(!sig_in(ms, sig@));
    }
    false
}

/// The first color of a line style.
fn first_color(l: &Lines) -> (r: Color)
    requires
        crate::options::lines_has_color(*l),
    ensures
        r == lines_first_color(*l),
{
    match l {
        Lines::Monocolor { color, .. } => *color,
        Lines::Gradient { colors, .. } => colors[0],
        Lines::SegmentColors { colors, .. } => colors[0],
    }
}

/// Composes a grid: checks the scale, allocates the canvas, and resolves
/// the style of every placement in order.
///
/// A scale below one pixel per grid unit is rejected before the canvas is
/// allocated.  On success the canvas dimensions follow the sizing formula
/// and the returned plan resolves each placement, with the style cursor
/// stepping through the variations as introspection/retrospection patterns
/// are met.
pub fn draw_grid_with_padding(
    size: HexCoord,
    patterns: &Vec<(PatternVariant, HexCoord, i64)>,
    options: &GridOptions,
    scale: i64,
    padding: i64,
) -> (r: Result<(Canvas, Vec<DrawCall>), GridDrawError>)
    requires
        grid_wf(patterns@, size),
        grid_options_wf(*options),
        scale <= FIX_LIMIT,
        0 <= padding <= FIX_LIMIT,
    ensures
        r is Err <==> scale < UNIT,
        r is Err ==> r == Err::<(Canvas, Vec<DrawCall>), GridDrawError>(
            GridDrawError::ImproperScale(scale),
        ),
        r matches Ok(out) ==> draw_plan_ok(
            size,
            patterns@,
            *options,
            scale as int,
            padding as int,
            out.0.dims(),
            out.1@,
        ),
{
    if scale < UNIT {
        return Err(GridDrawError::ImproperScale(scale));
    }
    let border = mul_frac(padding, scale);
    proof {
        assert(border >= 0) by (nonlinear_arith)
            requires
                border == fmul(padding as int, scale as int),
                padding >= 0,
                scale >= 0,
        ;
    }
    let w_fix = 2 * border + mul_frac(size.0, scale);
    let h_fix = 2 * border + mul_frac(size.1, scale);
    proof {
        assert(fmul(size.0 as int, scale as int) >= UNIT) by (nonlinear_arith)
            requires
                UNIT <= size.0,
                UNIT <= scale,
        ;
        assert(fmul(size.1 as int, scale as int) >= UNIT) by (nonlinear_arith)
            requires
                UNIT <= size.1,
                UNIT <= scale,
        ;
    }
    let w_px = to_px(w_fix);
    let h_px = to_px(h_fix);
    proof {
        assert(w_px >= 1 && h_px >= 1) by (nonlinear_arith)
            requires
                w_px == (w_fix as int) / (UNIT as int),
                h_px == (h_fix as int) / (UNIT as int),
                w_fix >= UNIT,
                h_fix >= UNIT,
        ;
    }
    let canvas = Canvas::new(w_px, h_px);

    let empty_sigs: Vec<Vec<Angle>> = Vec::new();
    let ghost vars = variations_of(options.pattern_options);
    let ghost intros = intros_of(options.pattern_options);
    let ghost retros = retros_of(options.pattern_options);
    let ghost sigs = placement_sigs(patterns@);
    let (len, intro_list, retro_list): (usize, &Vec<Vec<Angle>>, &Vec<Vec<Angle>>) = match &options
        .pattern_options {
        GridPatternOptions::Uniform(..) => (1, &empty_sigs, &empty_sigs),
        GridPatternOptions::Changing { variations, intros, retros } => (
            variations.len(),
            intros,
            retros,
        ),
    };
    proof {
        assert(len == vars.len());
        assert(intro_list@.map_values(|v: Vec<Angle>| v@) =~~= intros);
        assert(retro_list@.map_values(|v: Vec<Angle>| v@) =~~= retros);
    }

    let mut plan: Vec<DrawCall> = Vec::new();
    let mut lines_index: usize = 0;
    let mut i: usize = 0;
    while i < patterns.len()
        invariant
            grid_wf(patterns@, size),
            grid_options_wf(*options),
            UNIT <= scale <= FIX_LIMIT,
            0 <= border <= (FIX_LIMIT as int) * (FIX_LIMIT as int) / (UNIT as int),
            vars == variations_of(options.pattern_options),
            intros == intros_of(options.pattern_options),
            retros == retros_of(options.pattern_options),
            sigs == placement_sigs(patterns@),
            len == vars.len(),
            len >= 1,
            intro_list@.map_values(|v: Vec<Angle>| v@) == intros,
            retro_list@.map_values(|v: Vec<Angle>| v@) == retros,
            0 <= i <= patterns@.len(),
            plan@.len() == i,
            lines_index == cursor_before(sigs, intros, retros, len as int, i as int),
            0 <= lines_index < len,
            forall|j: int|
                0 <= j < i ==> plan_entry_ok(
                    patterns@,
                    options.pattern_options,
                    scale as int,
                    border as int,
                    j,
                    #[trigger] plan@[j],
                ),
        decreases patterns@.len() - i,
    {
        let placement = &patterns[i];
        let sig = &placement.0.get_inner().angles;
        proof {
            assert(sigs[i as int] == sig_of(patterns@[i as int].0));
        }
        let ghost c0 = lines_index as int;
        let ghost is_intro_g = sig_in(intros, sigs[i as int]);
        let ghost is_retro_g = sig_in(retros, sigs[i as int]);
        let is_intro = sig_matches(intro_list, sig);
        let mut increment = false;
        if is_intro {
            increment = true;
        } else if sig_matches(retro_list, sig) {
            if lines_index == 0 {
                lines_index = len - 1;
            } else {
                lines_index = lines_index - 1;
            }
        }
        proof {
            assert(lines_index == step_draw(c0, len as int, is_intro_g, is_retro_g));
        }

        let (inter, lin): (&Intersections, &Lines) = match &options.pattern_options {
            GridPatternOptions::Uniform(it, l) => (it, l),
            GridPatternOptions::Changing { variations, .. } => {
                let p = &variations[lines_index];
                (&p.0, &p.1)
            },
        };
        proof {
            assert(*inter == vars[lines_index as int].0 && *lin == vars[lines_index as int].1);
        }

        let (res_lines, res_inter): (Lines, Intersections) = match &placement.0 {
            PatternVariant::Normal(_) => (lin.duplicate(), *inter),
            PatternVariant::Monocolor(_) => {
                let c = first_color(lin);
                let di = match inter {
                    Intersections::Nothing => Intersections::Nothing,
                    Intersections::UniformPoints(p) => Intersections::UniformPoints(*p),
                    Intersections::EndsAndMiddle { middle, .. } => Intersections::UniformPoints(
                        *middle,
                    ),
                };
                (Lines::Monocolor { color: c, bent: false }, di)
            },
        };

        let pos = HexCoord(
            mul_frac(placement.1.0, scale) + border,
            mul_frac(placement.1.1, scale) + border,
        );
        let eff = mul_frac(scale, placement.2);
        plan.push(
            DrawCall {
                pattern: i,
                position: pos,
                scale: eff,
                lines: res_lines,
                intersections: res_inter,
            },
        );
        proof {
            assert(drawn_index(sigs, intros, retros, len as int, i as int) == step_draw(
                c0,
                len as int,
                is_intro_g,
                is_retro_g,
            ));
            assert(plan_entry_ok(
                patterns@,
                options.pattern_options,
                scale as int,
                border as int,
                i as int,
                plan@[i as int],
            ));
        }

        if increment {
            lines_index = (lines_index + 1) % len;
        }
        proof {
            lemma_step_in_range(c0, len as int, is_intro_g, is_retro_g);
            assert(lines_index == step_next(c0, len as int, is_intro_g, is_retro_g));
            assert(cursor_before(sigs, intros, retros, len as int, i + 1) == step_next(
                cursor_before(sigs, intros, retros, len as int, i as int),
                len as int,
                sig_in(intros, sigs[i as int]),
                sig_in(retros, sigs[i as int]),
            ));
        }
        i = i + 1;
    }
    Ok((canvas, plan))
}

/// The automatic padding of a configuration: its largest radius with a ten
/// percent safety margin, so no decoration is clipped at the canvas edge.
pub open spec fn auto_padding(o: GridOptions) -> int {
    grid_options_max_radius(o) * 11 / 10
}

/// The total footprint of a grid under a configuration: the unpadded size
/// plus the automatic padding on both sides, along both axes.
pub open spec fn padded_size(unpadded: HexCoord, o: GridOptions) -> (int, int) {
    (
        unpadded.0 + grid_options_max_radius(o) * 22 / 10,
        unpadded.1 + grid_options_max_radius(o) * 22 / 10,
    )
}

/// The largest scale at which the padded footprint fits the bound on both
/// axes, floored at one pixel per grid unit.
pub open spec fn bound_scale(unpadded: HexCoord, o: GridOptions, bound: (int, int)) -> int {
    vstd::math::max(
        vstd::math::min(
            fdiv(bound.0, padded_size(unpadded, o).0),
            fdiv(bound.1, padded_size(unpadded, o).1),
        ),
        UNIT as int,
    )
}

/// Operations every grid layout offers: composing with explicit or
/// automatic padding, sizing, fitting to a bound, and PNG export.
pub trait GridDraw: Sized {
    /// The grid's placements: pattern, position and local scale.
    spec fn placements(&self) -> Seq<(PatternVariant, HexCoord, i64)>;

    /// The grid's unpadded bounding size.
    spec fn unpadded(&self) -> HexCoord;

    /// Composes the grid with the given padding (a fraction of the scale
    /// on each side).  See [`draw_grid_with_padding`].
    fn draw_grid_with_padding(&self, scale: i64, options: &GridOptions, padding: i64) -> (r: Result<
        (Canvas, Vec<DrawCall>),
        GridDrawError,
    >)
        requires
            grid_wf(self.placements(), self.unpadded()),
            grid_options_wf(*options),
            scale <= FIX_LIMIT,
            0 <= padding <= FIX_LIMIT,
        ensures
            r is Err <==> scale < UNIT,
            r is Err ==> r == Err::<(Canvas, Vec<DrawCall>), GridDrawError>(
                GridDrawError::ImproperScale(scale),
            ),
            r matches Ok(out) ==> draw_plan_ok(
                self.unpadded(),
                self.placements(),
                *options,
                scale as int,
                padding as int,
                out.0.dims(),
                out.1@,
            ),
    ;

    /// The grid's raw bounding size, in micro-units.
    fn get_unpadded_size(&self) -> (r: (i64, i64))
        ensures
            r.0 == self.unpadded().0,
            r.1 == self.unpadded().1,
    ;

    /// Composes the grid with automatic padding: the configuration's
    /// largest radius with a ten percent margin.
    fn draw_grid(&self, scale: i64, options: &GridOptions) -> (r: Result<
        (Canvas, Vec<DrawCall>),
        GridDrawError,
    >)
        requires
            grid_wf(self.placements(), self.unpadded()),
            grid_options_wf(*options),
            scale <= FIX_LIMIT,
        ensures
            r is Err <==> scale < UNIT,
            r is Err ==> r == Err::<(Canvas, Vec<DrawCall>), GridDrawError>(
                GridDrawError::ImproperScale(scale),
            ),
            r matches Ok(out) ==> draw_plan_ok(
                self.unpadded(),
                self.placements(),
                *options,
                scale as int,
                auto_padding(*options),
                out.0.dims(),
                out.1@,
            ),
    {
        let rad = options.get_max_radius();
        let padding = (((rad as u64) * 11) / 10) as i64;
        proof {
            assert(padding == auto_padding(*options));
        }
        self.draw_grid_with_padding(scale, options, padding)
    }

    /// The grid's total footprint under a configuration, automatic padding
    /// included, in micro-units.
    fn get_size(&self, options: &GridOptions) -> (r: (i64, i64))
        requires
            grid_wf(self.placements(), self.unpadded()),
            grid_options_wf(*options),
        ensures
            r.0 == padded_size(self.unpadded(), *options).0,
            r.1 == padded_size(self.unpadded(), *options).1,
    {
        let rad = options.get_max_radius();
        let extra = (((rad as u64) * 22) / 10) as i64;
        let size = self.get_unpadded_size();
        (size.0 + extra, size.1 + extra)
    }

    /// The largest scale at which the grid, automatic padding included,
    /// fits within the bound on both axes — never below one pixel per
    /// grid unit.
    fn get_bound_scale(&self, bound: (i64, i64), options: &GridOptions) -> (r: i64)
        requires
            grid_wf(self.placements(), self.unpadded()),
            grid_options_wf(*options),
            0 <= bound.0 <= FIX_LIMIT,
            0 <= bound.1 <= FIX_LIMIT,
        ensures
            r == bound_scale(self.unpadded(), *options, (bound.0 as int, bound.1 as int)),
            UNIT <= r <= FIX_LIMIT,
    {
        let size = self.get_size(options);
        let s0 = div_frac(bound.0, size.0);
        let s1 = div_frac(bound.1, size.1);
        proof {
            lemma_fdiv_shrinks(bound.0 as int, size.0 as int);
            lemma_fdiv_shrinks(bound.1 as int, size.1 as int);
        }
        max_i64(min_i64(s0, s1), UNIT)
    }

    /// Composes the grid with automatic padding and encodes the canvas as
    /// PNG bytes: success exactly when the scale is proper, and the PNG
    /// records exactly the dimensions of the sizing formula.
    fn draw_grid_png(&self, scale: i64, options: &GridOptions) -> (r: Result<Vec<u8>, GridDrawError>)
        requires
            grid_wf(self.placements(), self.unpadded()),
            grid_options_wf(*options),
            scale <= FIX_LIMIT,
        ensures
            r is Ok <==> scale >= UNIT,
            r is Err ==> r == Err::<Vec<u8>, GridDrawError>(GridDrawError::ImproperScale(scale)),
            r matches Ok(b) ==> ({
                let border = fmul(auto_padding(*options), scale as int);
                &&& png_dims(b@).0 == canvas_width(self.unpadded(), scale as int, border)
                &&& png_dims(b@).1 == canvas_height(self.unpadded(), scale as int, border)
            }),
    {
        match self.draw_grid(scale, options) {
            Ok(out) => {
                let (canvas, _calls) = out;
                match canvas.encode_png() {
                    Some(b) => Ok(b),
                    None => Err(GridDrawError::EncodeError),
                }
            },
            Err(e) => Err(e),
        }
    }
}

/// Dividing by a denominator of at least one unit never grows the
/// numerator.
pub proof fn lemma_fdiv_shrinks(a: int, b: int)
    requires
        0 <= a,
        UNIT <= b,
    ensures
        0 <= fdiv(a, b) <= a,
{
    assert(0 <= (a * (UNIT as int)) / b <= a) by (nonlinear_arith)
        requires
            0 <= a,
            UNIT <= b,
    ;
}


/// The padded footprint never falls below the unpadded size, with equality
/// exactly when the configuration draws no decoration at all.
pub proof fn lemma_size_covers_unpadded(unpadded: HexCoord, o: GridOptions)
    requires
        grid_options_wf(o),
    ensures
        padded_size(unpadded, o).0 >= unpadded.0,
        padded_size(unpadded, o).1 >= unpadded.1,
        (padded_size(unpadded, o).0 == unpadded.0 && padded_size(unpadded, o).1 == unpadded.1)
            <==> grid_options_max_radius(o) == 0,
{
    let rad = grid_options_max_radius(o);
    assert(rad >= 0);
    assert(rad * 22 / 10 >= 0 && (rad * 22 / 10 == 0 <==> rad == 0)) by (nonlinear_arith)
        requires
            rad >= 0,
    ;
}

/// The recommended scale is never below one pixel per grid unit, and the
/// padded footprint at that scale fits the bound on both axes whenever any
/// scale of at least one fits.
pub proof fn lemma_bound_scale_fits(unpadded: HexCoord, o: GridOptions, bound: (int, int))
    requires
        grid_options_wf(o),
        UNIT <= unpadded.0,
        UNIT <= unpadded.1,
        0 <= bound.0,
        0 <= bound.1,
    ensures
        bound_scale(unpadded, o, bound) >= UNIT,
        (fdiv(bound.0, padded_size(unpadded, o).0) >= UNIT && fdiv(
            bound.1,
            padded_size(unpadded, o).1,
        ) >= UNIT) ==> {
            &&& fmul(padded_size(unpadded, o).0, bound_scale(unpadded, o, bound)) <= bound.0
            &&& fmul(padded_size(unpadded, o).1, bound_scale(unpadded, o, bound)) <= bound.1
        },
{
    let s0 = padded_size(unpadded, o).0;
    let s1 = padded_size(unpadded, o).1;
    assert(grid_options_max_radius(o) >= 0);
    assert(grid_options_max_radius(o) * 22 / 10 >= 0) by (nonlinear_arith)
        requires
            grid_options_max_radius(o) >= 0,
    ;
    if fdiv(bound.0, s0) >= UNIT && fdiv(bound.1, s1) >= UNIT {
        let sc = bound_scale(unpadded, o, bound);
        assert(sc == vstd::math::min(fdiv(bound.0, s0), fdiv(bound.1, s1)));
        assert(fmul(s0, sc) <= bound.0) by (nonlinear_arith)
            requires
                UNIT <= s0,
                0 <= bound.0,
                0 < UNIT <= sc,
                sc <= (bound.0 * (UNIT as int)) / s0,
                fmul(s0, sc) == (s0 * sc) / (UNIT as int),
        ;
        assert(fmul(s1, sc) <= bound.1) by (nonlinear_arith)
            requires
                UNIT <= s1,
                0 <= bound.1,
                0 < UNIT <= sc,
                sc <= (bound.1 * (UNIT as int)) / s1,
                fmul(s1, sc) == (s1 * sc) / (UNIT as int),
        ;
    }
}

/// With no introspection or retrospection signatures configured, the style
/// cursor never moves: every placement is drawn with the first variation.
pub proof fn lemma_cursor_noop(sigs: Seq<Seq<Angle>>, len: int, i: int)
    requires
        len >= 1,
        0 <= i,
    ensures
        cursor_before(sigs, Seq::empty(), Seq::empty(), len, i) == 0,
        i < sigs.len() ==> drawn_index(sigs, Seq::empty(), Seq::empty(), len, i) == 0,
    decreases i,
{
    assert(forall|sig: Seq<Angle>| !sig_in(Seq::empty(), sig));
    if i > 0 {
        lemma_cursor_noop(sigs, len, i - 1);
    }
}

/// Three consecutive introspection placements are drawn with variations
/// zero, one and two of a three-entry list, and the cursor wraps back to
/// zero after the third.
pub proof fn lemma_intro_wraparound(
    sigs: Seq<Seq<Angle>>,
    intros: Seq<Seq<Angle>>,
    retros: Seq<Seq<Angle>>,
)
    requires
        sigs.len() >= 3,
        forall|k: int| 0 <= k < 3 ==> sig_in(intros, #[trigger] sigs[k]),
    ensures
        drawn_index(sigs, intros, retros, 3, 0) == 0,
        drawn_index(sigs, intros, retros, 3, 1) == 1,
        drawn_index(sigs, intros, retros, 3, 2) == 2,
        cursor_before(sigs, intros, retros, 3, 3) == 0,
{
    assert(cursor_before(sigs, intros, retros, 3, 0) == 0);
    assert(cursor_before(sigs, intros, retros, 3, 1) == 1);
    assert(cursor_before(sigs, intros, retros, 3, 2) == 2);
    assert(cursor_before(sigs, intros, retros, 3, 3) == 0);
}

/// A retrospection placement first steps the cursor back — to the previous
/// variation, wrapping at zero — and is itself drawn there; the cursor
/// stays there for the next placement.
pub proof fn lemma_retro_draws_previous(
    sigs: Seq<Seq<Angle>>,
    intros: Seq<Seq<Angle>>,
    retros: Seq<Seq<Angle>>,
    len: int,
    i: int,
)
    requires
        len >= 1,
        0 <= i < sigs.len(),
        !sig_in(intros, sigs[i]),
        sig_in(retros, sigs[i]),
    ensures
        drawn_index(sigs, intros, retros, len, i) == (if cursor_before(
            sigs,
            intros,
            retros,
            len,
            i,
        ) == 0 {
            len - 1
        } else {
            cursor_before(sigs, intros, retros, len, i) - 1
        }),
        cursor_before(sigs, intros, retros, len, i + 1) == drawn_index(
            sigs,
            intros,
            retros,
            len,
            i,
        ),
{
}

/// A monocolor-restricted placement always resolves to a monocolor line
/// style whose color is element zero of the selected variation's color
/// list, whatever the variation's style.
pub proof fn lemma_monocolor_restricted(
    vars: Seq<(Intersections, Lines)>,
    pv: PatternVariant,
    d: int,
)
    requires
        pv is Monocolor,
        0 <= d < vars.len(),
    ensures
        resolved_lines(vars, pv, d) is Monocolor,
        resolved_lines(vars, pv, d)->Monocolor_color == lines_first_color(vars[d].1),
        resolved_lines(vars, pv, d)->Monocolor_bent == false,
        vars[d].1 matches Lines::Monocolor { color, .. } ==> resolved_lines(
            vars,
            pv,
            d,
        )->Monocolor_color == color,
        vars[d].1 matches Lines::Gradient { colors, .. } ==> resolved_lines(
            vars,
            pv,
            d,
        )->Monocolor_color == colors[0],
        vars[d].1 matches Lines::SegmentColors { colors, .. } ==> resolved_lines(
            vars,
            pv,
            d,
        )->Monocolor_color == colors[0],
{
}

/// Whole pixels of a non-negative fixed-point length.
fn to_px(v: i64) -> (r: u32)
    requires
        0 <= v <= 30_000_000_000_000,
    ensures
        r == v as int / (UNIT as int),
        1 <= v / UNIT ==> 1 <= r,
        r <= CANVAS_DIM_LIMIT,
{
    let q: u64 = (v as u64) / (UNIT as u64);
    assert(q <= 30_000_000) by (nonlinear_arith)
        requires
            q == (v as int) / (UNIT as int),
            0 <= v <= 30_000_000_000_000i64,
    ;
    q as u32
}

} // verus!
