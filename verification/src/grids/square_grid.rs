//! A tile grid: every pattern gets one fixed-size tile, scaled to fit, and
//! rows wrap after a set number of tiles.

use vstd::prelude::*;
use vstd::math::max;
use vstd::math::min;

use crate::fixed::FIX_LIMIT;
use crate::fixed::GRID_SPAN_LIMIT;
use crate::fixed::HALF;
use crate::fixed::UNIT;
use crate::fixed::fmul;
use crate::fixed::half_of;
use crate::fixed::min_i64;
use crate::fixed::mul_frac;
use crate::canvas::Canvas;
use crate::grids::DrawCall;
use crate::grids::GridCreationError;
use crate::grids::GridDraw;
use crate::grids::GridDrawError;
use crate::grids::grid_wf;
use crate::options::GridOptions;
use crate::pattern::Pattern;
use crate::pattern::PatternVariant;
use crate::pattern::pattern_of;
use crate::pattern::pattern_wf;
use crate::pattern_utils::HexCoord;

verus! {

/// A grid of fixed-size tiles; each pattern is scaled to fit within one.
pub struct SquareGrid {
    patterns: Vec<(PatternVariant, HexCoord, i64)>,
    size: HexCoord,
}

/// The origin of tile `i`: column and row index, each spread by one unit
/// plus the padding fraction.
pub open spec fn tile_origin(i: int, w: int, x_pad: int, y_pad: int) -> (int, int) {
    ((i % w) * (UNIT + x_pad), (i / w) * (UNIT + y_pad))
}

/// The scale a pattern is drawn at: shrink to fit one tile, but never past
/// `max_scale`.  A degenerate (empty) bounding box takes `max_scale`.
pub open spec fn fit_scale(p: Pattern, max_scale: int) -> int {
    let largest = max(
        p.bottom_right_bound.0 - p.top_left_bound.0,
        p.bottom_right_bound.1 - p.top_left_bound.1,
    );
    if largest == 0 {
        max_scale
    } else {
        min((UNIT as int) * (UNIT as int) / largest, max_scale)
    }
}

/// The center of a pattern's bounding box (half the extent past the upper
/// left corner, truncating).
pub open spec fn pattern_center(p: Pattern) -> (int, int) {
    (
        (p.bottom_right_bound.0 - p.top_left_bound.0) / 2 + p.top_left_bound.0,
        (p.bottom_right_bound.1 - p.top_left_bound.1) / 2 + p.top_left_bound.1,
    )
}

/// Where pattern `i` is placed: its scaled bounding-box center lands on the
/// center of its tile.
pub open spec fn tile_placement(p: Pattern, i: int, w: int, x_pad: int, y_pad: int, max_scale: int) -> (
    int,
    int,
) {
    let origin = tile_origin(i, w, x_pad, y_pad);
    let center = pattern_center(p);
    let s = fit_scale(p, max_scale);
    (origin.0 + HALF - fmul(center.0, s), origin.1 + HALF - fmul(center.1, s))
}

/// The unpadded size of the tile grid: padding is only counted between
/// tiles, not around the outer edge.
pub open spec fn tile_grid_size(n: int, w: int, x_pad: int, y_pad: int) -> (int, int) {
    (min(w, n) * (UNIT + x_pad) - x_pad, ((n + w - 1) / w) * (UNIT + y_pad) - y_pad)
}

impl GridDraw for SquareGrid {
    closed spec fn placements(&self) -> Seq<(PatternVariant, HexCoord, i64)> {
        self.patterns@
    }

    closed spec fn unpadded(&self) -> HexCoord {
        self.size
    }

    fn draw_grid_with_padding(&self, scale: i64, options: &GridOptions, padding: i64) -> (r: Result<
        (Canvas, Vec<DrawCall>),
        GridDrawError,
    >) {
        crate::grids::draw_grid_with_padding(self.size, &self.patterns, options, scale, padding)
    }

    fn get_unpadded_size(&self) -> (r: (i64, i64)) {
        (self.size.0, self.size.1)
    }
}

impl SquareGrid {
    /// Creates a tile grid of plain patterns.
    pub fn new_normal(
        patterns: Vec<Pattern>,
        max_width: usize,
        max_scale: i64,
        x_pad: i64,
        y_pad: i64,
    ) -> (r: Result<Self, GridCreationError>)
        requires
            0 <= max_scale <= UNIT,
            -FIX_LIMIT <= x_pad <= FIX_LIMIT,
            -FIX_LIMIT <= y_pad <= FIX_LIMIT,
            x_pad >= 0 && y_pad >= 0 ==> (patterns@.len() as int) * (UNIT + x_pad)
                <= GRID_SPAN_LIMIT && (patterns@.len() as int) * (UNIT + y_pad) <= GRID_SPAN_LIMIT,
            forall|i: int| 0 <= i < patterns@.len() ==> pattern_wf(#[trigger] patterns@[i]),
        ensures
            patterns@.len() == 0 <==> r == Err::<Self, GridCreationError>(
                GridCreationError::EmptyPatternList,
            ),
            patterns@.len() > 0 && (max_width == 0 || x_pad < 0 || y_pad < 0) <==> r == Err::<
                Self,
                GridCreationError,
            >(GridCreationError::NegativeInput),
            r matches Ok(g) ==> {
                &&& g.placements().len() == patterns@.len()
                &&& forall|i: int|
                    0 <= i < patterns@.len() ==> pattern_of(
                        (#[trigger] g.placements()[i]).0,
                    ) == patterns@[i] && g.placements()[i].0 is Normal
                &&& forall|i: int|
                    0 <= i < patterns@.len() ==> placement_matches(
                        #[trigger] g.placements()[i],
                        patterns@[i],
                        i,
                        max_width as int,
                        x_pad as int,
                        y_pad as int,
                        max_scale as int,
                    )
                &&& g.unpadded().0 == tile_grid_size(
                    patterns@.len() as int,
                    max_width as int,
                    x_pad as int,
                    y_pad as int,
                ).0
                &&& g.unpadded().1 == tile_grid_size(
                    patterns@.len() as int,
                    max_width as int,
                    x_pad as int,
                    y_pad as int,
                ).1
                &&& grid_wf(g.placements(), g.unpadded())
            },
    {
        let mut remaining = patterns;
        let ghost orig = remaining@;
        let mut variants: Vec<PatternVariant> = Vec::new();
        while remaining.len() > 0
            invariant
                variants@.len() + remaining@.len() == orig.len(),
                remaining@ == orig.subrange(variants@.len() as int, orig.len() as int),
                forall|i: int|
                    0 <= i < variants@.len() ==> #[trigger] variants@[i]
                        == PatternVariant::Normal(orig[i]),
            decreases remaining@.len(),
        {
            let ghost k = variants@.len();
            let p = remaining.remove(0);
            proof {
                assert(p == orig[k as int]);
                assert(remaining@ =~= orig.subrange(k as int + 1, orig.len() as int));
            }
            variants.push(PatternVariant::Normal(p));
        }
        proof {
            assert(forall|i: int|
                0 <= i < variants@.len() ==> pattern_of(#[trigger] variants@[i]) == orig[i]);
        }
        Self::new(variants, max_width, max_scale, x_pad, y_pad)
    }

    /// Creates a tile grid.
    ///
    /// An empty pattern list, a zero width and a negative padding are
    /// rejected before any placement is computed.
    pub fn new(
        patterns: Vec<PatternVariant>,
        max_width: usize,
        max_scale: i64,
        x_pad: i64,
        y_pad: i64,
    ) -> (r: Result<Self, GridCreationError>)
        requires
            0 <= max_scale <= UNIT,
            -FIX_LIMIT <= x_pad <= FIX_LIMIT,
            -FIX_LIMIT <= y_pad <= FIX_LIMIT,
            x_pad >= 0 && y_pad >= 0 ==> (patterns@.len() as int) * (UNIT + x_pad)
                <= GRID_SPAN_LIMIT && (patterns@.len() as int) * (UNIT + y_pad) <= GRID_SPAN_LIMIT,
            forall|i: int|
                0 <= i < patterns@.len() ==> pattern_wf(pattern_of(#[trigger] patterns@[i])),
        ensures
            patterns@.len() == 0 <==> r == Err::<Self, GridCreationError>(
                GridCreationError::EmptyPatternList,
            ),
            patterns@.len() > 0 && (max_width == 0 || x_pad < 0 || y_pad < 0) <==> r == Err::<
                Self,
                GridCreationError,
            >(GridCreationError::NegativeInput),
            r matches Ok(g) ==> {
                &&& g.placements().len() == patterns@.len()
                &&& forall|i: int|
                    0 <= i < patterns@.len() ==> (#[trigger] g.placements()[i]).0 == patterns@[i]
                &&& forall|i: int|
                    0 <= i < patterns@.len() ==> placement_matches(
                        #[trigger] g.placements()[i],
                        pattern_of(patterns@[i]),
                        i,
                        max_width as int,
                        x_pad as int,
                        y_pad as int,
                        max_scale as int,
                    )
                &&& g.unpadded().0 == tile_grid_size(
                    patterns@.len() as int,
                    max_width as int,
                    x_pad as int,
                    y_pad as int,
                ).0
                &&& g.unpadded().1 == tile_grid_size(
                    patterns@.len() as int,
                    max_width as int,
                    x_pad as int,
                    y_pad as int,
                ).1
                &&& grid_wf(g.placements(), g.unpadded())
            },
    {
        if patterns.len() == 0 {
            return Err(GridCreationError::EmptyPatternList);
        }
        if max_width == 0 || x_pad < 0 || y_pad < 0 {
            return Err(GridCreationError::NegativeInput);
        }
        let n = patterns.len();
        let ghost orig = patterns@;
        proof {
            lemma_span_bounds(n as int, max_width as int, x_pad as int, y_pad as int);
            assert(n <= 1500) by (nonlinear_arith)
                requires
                    1 <= n,
                    0 <= x_pad,
                    (n as int) * (UNIT + x_pad) <= GRID_SPAN_LIMIT,
            ;
        }

        let mut remaining = patterns;
        let mut placed: Vec<(PatternVariant, HexCoord, i64)> = Vec::new();
        let mut i: usize = 0;
        while i < n
            invariant
                0 <= i <= n,
                n == orig.len(),
                1 <= max_width,
                0 <= x_pad <= FIX_LIMIT,
                0 <= y_pad <= FIX_LIMIT,
                0 <= max_scale <= UNIT,
                (n as int) * (UNIT + x_pad) <= GRID_SPAN_LIMIT,
                (n as int) * (UNIT + y_pad) <= GRID_SPAN_LIMIT,
                n <= 1500,
                forall|j: int| 0 <= j < n ==> pattern_wf(pattern_of(#[trigger] orig[j])),
                placed@.len() == i,
                remaining@ == orig.subrange(i as int, n as int),
                forall|j: int|
                    0 <= j < i ==> (#[trigger] placed@[j]).0 == orig[j],
                forall|j: int|
                    0 <= j < i ==> placement_matches(
                        #[trigger] placed@[j],
                        pattern_of(orig[j]),
                        j,
                        max_width as int,
                        x_pad as int,
                        y_pad as int,
                        max_scale as int,
                    ),
                forall|j: int|
                    0 <= j < i ==> {
                        &&& -FIX_LIMIT <= (#[trigger] placed@[j]).1.0 <= FIX_LIMIT
                        &&& -FIX_LIMIT <= placed@[j].1.1 <= FIX_LIMIT
                        &&& 0 <= placed@[j].2 <= UNIT
                    },
            decreases n - i,
        {
            let pv = remaining.remove(0);
            proof {
                assert(pv == orig[i as int]);
                assert(remaining@ =~= orig.subrange(i + 1, n as int));
            }
            let loc: HexCoord;
            let scale: i64;
            {
                let pattern_ref = pv.get_inner();
                let y_idx = i / max_width;
                let x_idx = i % max_width;
                proof {
                    lemma_tile_index_bounds(
                        i as int,
                        n as int,
                        max_width as int,
                        x_pad as int,
                        y_pad as int,
                    );
                }
                let x0 = (x_idx as i64) * (UNIT + x_pad);
                let y0 = (y_idx as i64) * (UNIT + y_pad);

                let area_x = pattern_ref.bottom_right_bound.0 - pattern_ref.top_left_bound.0;
                let area_y = pattern_ref.bottom_right_bound.1 - pattern_ref.top_left_bound.1;
                let largest = if area_x >= area_y {
                    area_x
                } else {
                    area_y
                };
                scale = if largest == 0 {
                    max_scale
                } else {
                    let inv: u64 = ((UNIT as u64) * (UNIT as u64)) / (largest as u64);
                    proof {
                        assert(inv == (UNIT as int) * (UNIT as int) / (largest as int)
                            && inv <= (UNIT as int) * (UNIT as int)) by (nonlinear_arith)
                            requires
                                0 < largest,
                                inv == ((UNIT as u64) * (UNIT as u64)) as int / (largest as int),
                        ;
                    }
                    min_i64(inv as i64, max_scale)
                };
                let cx = half_of(area_x) + pattern_ref.top_left_bound.0;
                let cy = half_of(area_y) + pattern_ref.top_left_bound.1;
                proof {
                    lemma_center_shift_bounds(cx as int, cy as int, scale as int);
                }
                loc = HexCoord(
                    x0 + HALF - mul_frac(cx, scale),
                    y0 + HALF - mul_frac(cy, scale),
                );
            }
            placed.push((pv, loc, scale));
            i = i + 1;
        }

        let cols = if max_width <= n {
            max_width
        } else {
            n
        };
        let rows = (n - 1) / max_width + 1;
        proof {
            assert((n - 1) / (max_width as int) + 1 == (n + max_width - 1) / (max_width as int))
                by (nonlinear_arith)
                requires
                    1 <= max_width,
                    1 <= n,
            ;
            assert(rows <= n) by (nonlinear_arith)
                requires
                    1 <= max_width,
                    1 <= n,
                    rows == (n - 1) / (max_width as int) + 1,
            ;
            lemma_size_bounds(
                cols as int,
                rows as int,
                n as int,
                x_pad as int,
                y_pad as int,
            );
        }
        let size = HexCoord(
            (cols as i64) * (UNIT + x_pad) - x_pad,
            (rows as i64) * (UNIT + y_pad) - y_pad,
        );
        Ok(Self { patterns: placed, size })
    }
}

/// One placement of the tile layout: the pattern's own tile position and
/// fitted scale.
pub open spec fn placement_matches(
    e: (PatternVariant, HexCoord, i64),
    p: Pattern,
    i: int,
    w: int,
    x_pad: int,
    y_pad: int,
    max_scale: int,
) -> bool {
    &&& e.1.0 == tile_placement(p, i, w, x_pad, y_pad, max_scale).0
    &&& e.1.1 == tile_placement(p, i, w, x_pad, y_pad, max_scale).1
    &&& e.2 == fit_scale(p, max_scale)
}


/// With one column, unit maximum scale, no padding and a unit-sized
/// bounding box, the placements form a single column with unit vertical
/// spacing and the unpadded size is one unit by the pattern count.
pub proof fn lemma_single_column(p: Pattern, i: int, n: int)
    requires
        pattern_wf(p),
        p.bottom_right_bound.0 - p.top_left_bound.0 == UNIT,
        p.bottom_right_bound.1 - p.top_left_bound.1 == UNIT,
        0 <= i,
        1 <= n,
    ensures
        fit_scale(p, UNIT as int) == UNIT,
        tile_placement(p, i, 1, 0, 0, UNIT as int).0 == tile_placement(p, 0, 1, 0, 0, UNIT as int).0,
        tile_placement(p, i, 1, 0, 0, UNIT as int).1 == tile_placement(p, 0, 1, 0, 0, UNIT as int).1
            + i * UNIT,
        tile_grid_size(n, 1, 0, 0).0 == UNIT,
        tile_grid_size(n, 1, 0, 0).1 == n * UNIT,
{
    assert(i % 1 == 0 && i / 1 == i && 0int % 1 == 0 && 0int / 1 == 0 && (n + 1 - 1) / 1 == n)
        by (nonlinear_arith)
        requires
            0 <= i,
            1 <= n,
    ;
    assert((UNIT as int) * (UNIT as int) / (UNIT as int) == UNIT) by (nonlinear_arith);
}

/// Rows wrap after exactly `w` tiles: tile `w` begins row one at column
/// zero, while the first `w` tiles sit in row zero at increasing columns.
pub proof fn lemma_row_wrap(w: int, x_pad: int, y_pad: int)
    requires
        1 <= w,
    ensures
        tile_origin(w, w, x_pad, y_pad).0 == 0,
        tile_origin(w, w, x_pad, y_pad).1 == UNIT + y_pad,
        forall|i: int|
            0 <= i < w ==> #[trigger] tile_origin(i, w, x_pad, y_pad).0 == i * (UNIT + x_pad)
                && tile_origin(i, w, x_pad, y_pad).1 == 0,
{
    assert(w % w == 0 && w / w == 1) by (nonlinear_arith)
        requires
            1 <= w,
    ;
    assert forall|i: int| 0 <= i < w implies #[trigger] tile_origin(i, w, x_pad, y_pad).0 == i * (
    UNIT + x_pad) && tile_origin(i, w, x_pad, y_pad).1 == 0 by {
        assert(i % w == i && i / w == 0) by (nonlinear_arith)
            requires
                0 <= i < w,
        ;
    }
}

/// Multiplying by a count below `n` stays within the span bound.
proof fn lemma_span_bounds(n: int, w: int, x_pad: int, y_pad: int)
    requires
        1 <= n,
        1 <= w,
        0 <= x_pad,
        0 <= y_pad,
        n * (UNIT + x_pad) <= GRID_SPAN_LIMIT,
        n * (UNIT + y_pad) <= GRID_SPAN_LIMIT,
    ensures
        forall|k: int| 0 <= k <= n ==> #[trigger] (k * (UNIT + x_pad)) <= GRID_SPAN_LIMIT,
        forall|k: int| 0 <= k <= n ==> #[trigger] (k * (UNIT + y_pad)) <= GRID_SPAN_LIMIT,
        forall|k: int| 0 <= k <= n ==> #[trigger] (k * (UNIT + x_pad)) >= 0,
        forall|k: int| 0 <= k <= n ==> #[trigger] (k * (UNIT + y_pad)) >= 0,
{
    assert forall|k: int| 0 <= k <= n implies #[trigger] (k * (UNIT + x_pad)) <= GRID_SPAN_LIMIT
        && k * (UNIT + x_pad) >= 0 by {
        assert(k * (UNIT + x_pad) <= n * (UNIT + x_pad) && k * (UNIT + x_pad) >= 0)
            by (nonlinear_arith)
            requires
                0 <= k <= n,
                0 <= x_pad,
        ;
    }
    assert forall|k: int| 0 <= k <= n implies #[trigger] (k * (UNIT + y_pad)) <= GRID_SPAN_LIMIT
        && k * (UNIT + y_pad) >= 0 by {
        assert(k * (UNIT + y_pad) <= n * (UNIT + y_pad) && k * (UNIT + y_pad) >= 0)
            by (nonlinear_arith)
            requires
                0 <= k <= n,
                0 <= y_pad,
        ;
    }
}

/// A tile's column and row indexes stay below the pattern count.
proof fn lemma_tile_index_bounds(i: int, n: int, w: int, x_pad: int, y_pad: int)
    requires
        0 <= i < n,
        1 <= w,
        0 <= x_pad,
        0 <= y_pad,
        n * (UNIT + x_pad) <= GRID_SPAN_LIMIT,
        n * (UNIT + y_pad) <= GRID_SPAN_LIMIT,
    ensures
        0 <= i % w < w,
        i % w <= i,
        0 <= i / w <= i,
        (i % w) * (UNIT + x_pad) <= GRID_SPAN_LIMIT,
        (i / w) * (UNIT + y_pad) <= GRID_SPAN_LIMIT,
        (i % w) * (UNIT + x_pad) >= 0,
        (i / w) * (UNIT + y_pad) >= 0,
{
    assert(0 <= i % w < w && i % w <= i && 0 <= i / w <= i) by (nonlinear_arith)
        requires
            0 <= i,
            1 <= w,
    ;
    lemma_span_bounds(n, w, x_pad, y_pad);
    assert(i % w <= n && i / w <= n);
}

/// The scaled center shift of a well-formed pattern stays small.
proof fn lemma_center_shift_bounds(cx: int, cy: int, s: int)
    requires
        -crate::fixed::PATTERN_SPAN_LIMIT <= cx <= 2 * crate::fixed::PATTERN_SPAN_LIMIT,
        -crate::fixed::PATTERN_SPAN_LIMIT <= cy <= 2 * crate::fixed::PATTERN_SPAN_LIMIT,
        0 <= s <= UNIT,
    ensures
        -crate::fixed::PATTERN_SPAN_LIMIT <= fmul(cx, s) <= 2 * crate::fixed::PATTERN_SPAN_LIMIT,
        -crate::fixed::PATTERN_SPAN_LIMIT <= fmul(cy, s) <= 2 * crate::fixed::PATTERN_SPAN_LIMIT,
{
    lemma_fmul_fraction(cx, s);
    lemma_fmul_fraction(cy, s);
}

/// Multiplying by a fraction of at most one unit never grows a magnitude.
proof fn lemma_fmul_fraction(a: int, s: int)
    requires
        0 <= s <= UNIT,
    ensures
        a >= 0 ==> 0 <= fmul(a, s) <= a,
        a < 0 ==> a <= fmul(a, s) <= 0,
{
    if a >= 0 {
        assert(0 <= (a * s) / (UNIT as int) <= a) by (nonlinear_arith)
            requires
                0 <= s <= UNIT,
                0 <= a,
        ;
    } else {
        assert(0 <= ((-a) * s) / (UNIT as int) <= -a) by (nonlinear_arith)
            requires
                0 <= s <= UNIT,
                0 < -a,
        ;
    }
}

/// The unpadded size of the grid lies between one tile and the span bound.
proof fn lemma_size_bounds(cols: int, rows: int, n: int, x_pad: int, y_pad: int)
    requires
        1 <= cols <= n,
        1 <= rows <= n,
        0 <= x_pad,
        0 <= y_pad,
        n * (UNIT + x_pad) <= GRID_SPAN_LIMIT,
        n * (UNIT + y_pad) <= GRID_SPAN_LIMIT,
    ensures
        UNIT <= cols * (UNIT + x_pad) - x_pad <= GRID_SPAN_LIMIT,
        UNIT <= rows * (UNIT + y_pad) - y_pad <= GRID_SPAN_LIMIT,
{
    assert(UNIT + x_pad <= cols * (UNIT + x_pad) <= n * (UNIT + x_pad)) by (nonlinear_arith)
        requires
            1 <= cols <= n,
            0 <= x_pad,
    ;
    assert(UNIT + y_pad <= rows * (UNIT + y_pad) <= n * (UNIT + y_pad)) by (nonlinear_arith)
        requires
            1 <= rows <= n,
            0 <= y_pad,
    ;
}

} // verus!
