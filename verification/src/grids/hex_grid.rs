//! A hex grid: patterns are placed on points of a hexagonal lattice, row by
//! row, wrapping after a set number of columns.  Odd rows are offset half a
//! unit to the right and rows are `sqrt(3)/2` of a unit apart.

use vstd::prelude::*;
use vstd::math::min;

use crate::fixed::FIX_LIMIT;
use crate::fixed::GRID_SPAN_LIMIT;
use crate::fixed::HALF;
use crate::fixed::UNIT;
use crate::fixed::Y_UNIT;
use crate::fixed::fmul;
use crate::fixed::half_of;
use crate::fixed::min_i64;
use crate::fixed::mul_frac;
use crate::canvas::Canvas;
use crate::grids::DrawCall;
use crate::grids::GridCreationError;
use crate::grids::GridDraw;
use crate::grids::GridDrawError;
use crate::grids::grid_wf;
use crate::options::GridOptions;
use crate::grids::square_grid::fit_scale;
use crate::grids::square_grid::pattern_center;
use crate::pattern::Pattern;
use crate::pattern::PatternVariant;
use crate::pattern::pattern_of;
use crate::pattern::pattern_wf;
use crate::pattern_utils::HexCoord;

verus! {

/// A grid of patterns on a hexagonal lattice.
pub struct HexGrid {
    patterns: Vec<(PatternVariant, HexCoord, i64)>,
    size: HexCoord,
}

/// The lattice point of placement `i` with `w` columns per row: odd rows
/// shift half a unit right, rows are `sqrt(3)/2` of a unit apart, and the
/// whole lattice sits half a unit inside the grid's bounding box.
pub open spec fn hex_origin(i: int, w: int) -> (int, int) {
    (
        (i % w) * UNIT + HALF + if (i / w) % 2 == 1 {
            HALF as int
        } else {
            0
        },
        (i / w) * Y_UNIT + HALF,
    )
}

/// Where pattern `i` is placed: its scaled bounding-box center lands on its
/// lattice point.  The scale shrinks the pattern to one unit, never
/// enlarging it.
pub open spec fn hex_placement(p: Pattern, i: int, w: int) -> (int, int) {
    let origin = hex_origin(i, w);
    let center = pattern_center(p);
    let s = fit_scale(p, UNIT as int);
    (origin.0 - fmul(center.0, s), origin.1 - fmul(center.1, s))
}

/// The unpadded size of the hex grid: a unit of room around the used
/// lattice points, plus the half-unit offset wherever a second row exists.
pub open spec fn hex_grid_size(n: int, w: int) -> (int, int) {
    let rows = (n - 1) / w + 1;
    (
        min(w, n) * UNIT + if rows > 1 {
            HALF as int
        } else {
            0
        },
        (rows - 1) * Y_UNIT + UNIT,
    )
}

impl GridDraw for HexGrid {
    closed spec fn placements(&self) -> Seq<(PatternVariant, HexCoord, i64)> {
        self.patterns@
    }

    closed spec fn unpadded(&self) -> HexCoord {
        self.size
    }

    fn draw_grid_with_padding(&self, scale: i64, options: &GridOptions, padding: i64) -> (r: Result<
        (Canvas, Vec<DrawCall>),
        GridDrawError,
    >) {
        crate::grids::draw_grid_with_padding(self.size, &self.patterns, options, scale, padding)
    }

    fn get_unpadded_size(&self) -> (r: (i64, i64)) {
        (self.size.0, self.size.1)
    }
}

impl HexGrid {
    /// Creates a hex grid with `max_width` patterns per lattice row.
    ///
    /// An empty pattern list and a zero width are rejected before any
    /// placement is computed.
    pub fn new(patterns: Vec<PatternVariant>, max_width: usize) -> (r: Result<
        Self,
        GridCreationError,
    >)
        requires
            (patterns@.len() as int + 1) * UNIT <= GRID_SPAN_LIMIT,
            forall|i: int|
                0 <= i < patterns@.len() ==> pattern_wf(pattern_of(#[trigger] patterns@[i])),
        ensures
            patterns@.len() == 0 <==> r == Err::<Self, GridCreationError>(
                GridCreationError::EmptyPatternList,
            ),
            patterns@.len() > 0 && max_width == 0 <==> r == Err::<Self, GridCreationError>(
                GridCreationError::NegativeInput,
            ),
            r matches Ok(g) ==> {
                &&& g.placements().len() == patterns@.len()
                &&& forall|i: int|
                    0 <= i < patterns@.len() ==> (#[trigger] g.placements()[i]).0 == patterns@[i]
                &&& forall|i: int|
                    0 <= i < patterns@.len() ==> {
                        &&& (#[trigger] g.placements()[i]).1.0 == hex_placement(
                            pattern_of(patterns@[i]),
                            i,
                            max_width as int,
                        ).0
                        &&& g.placements()[i].1.1 == hex_placement(
                            pattern_of(patterns@[i]),
                            i,
                            max_width as int,
                        ).1
                        &&& g.placements()[i].2 == fit_scale(pattern_of(patterns@[i]), UNIT as int)
                    }
                &&& g.unpadded().0 == hex_grid_size(patterns@.len() as int, max_width as int).0
                &&& g.unpadded().1 == hex_grid_size(patterns@.len() as int, max_width as int).1
                &&& grid_wf(g.placements(), g.unpadded())
            },
    {
        if patterns.len() == 0 {
            return Err(GridCreationError::EmptyPatternList);
        }
        if max_width == 0 {
            return Err(GridCreationError::NegativeInput);
        }
        let n = patterns.len();
        let ghost orig = patterns@;

        let mut remaining = patterns;
        let mut placed: Vec<(PatternVariant, HexCoord, i64)> = Vec::new();
        let mut i: usize = 0;
        while i < n
            invariant
                0 <= i <= n,
                n == orig.len(),
                1 <= max_width,
                (n as int + 1) * UNIT <= GRID_SPAN_LIMIT,
                forall|j: int| 0 <= j < n ==> pattern_wf(pattern_of(#[trigger] orig[j])),
                placed@.len() == i,
                remaining@ == orig.subrange(i as int, n as int),
                forall|j: int| 0 <= j < i ==> (#[trigger] placed@[j]).0 == orig[j],
                forall|j: int|
                    0 <= j < i ==> {
                        &&& (#[trigger] placed@[j]).1.0 == hex_placement(
                            pattern_of(orig[j]),
                            j,
                            max_width as int,
                        ).0
                        &&& placed@[j].1.1 == hex_placement(
                            pattern_of(orig[j]),
                            j,
                            max_width as int,
                        ).1
                        &&& placed@[j].2 == fit_scale(pattern_of(orig[j]), UNIT as int)
                    },
                forall|j: int|
                    0 <= j < i ==> {
                        &&& -FIX_LIMIT <= (#[trigger] placed@[j]).1.0 <= FIX_LIMIT
                        &&& -FIX_LIMIT <= placed@[j].1.1 <= FIX_LIMIT
                        &&& 0 <= placed@[j].2 <= UNIT
                    },
            decreases n - i,
        {
            let pv = remaining.remove(0);
            proof {
                assert(pv == orig[i as int]);
                assert(remaining@ =~= orig.subrange(i as int + 1, n as int));
                assert(0 <= (i as int) % (max_width as int) < max_width && (i as int) % (
                max_width as int) <= i && 0 <= (i as int) / (max_width as int) <= i)
                    by (nonlinear_arith)
                    requires
                        0 <= i,
                        1 <= max_width,
                ;
            }
            let loc: HexCoord;
            let scale: i64;
            {
                let pattern_ref = pv.get_inner();
                let y_idx = i / max_width;
                let x_idx = i % max_width;
                let x0 = (x_idx as i64) * UNIT + HALF + if y_idx % 2 == 1 {
                    HALF
                } else {
                    0
                };
                let y0 = (y_idx as i64) * Y_UNIT + HALF;

                let area_x = pattern_ref.bottom_right_bound.0 - pattern_ref.top_left_bound.0;
                let area_y = pattern_ref.bottom_right_bound.1 - pattern_ref.top_left_bound.1;
                let largest = if area_x >= area_y {
                    area_x
                } else {
                    area_y
                };
                scale = if largest == 0 {
                    UNIT
                } else {
                    let inv: u64 = ((UNIT as u64) * (UNIT as u64)) / (largest as u64);
                    proof {
                        assert(inv == (UNIT as int) * (UNIT as int) / (largest as int)
                            && inv <= (UNIT as int) * (UNIT as int)) by (nonlinear_arith)
                            requires
                                0 < largest,
                                inv == ((UNIT as u64) * (UNIT as u64)) as int / (largest as int),
                        ;
                    }
                    min_i64(inv as i64, UNIT)
                };
                let cx = half_of(area_x) + pattern_ref.top_left_bound.0;
                let cy = half_of(area_y) + pattern_ref.top_left_bound.1;
                proof {
                    lemma_hex_shift_bounds(cx as int, cy as int, scale as int);
                }
                loc = HexCoord(x0 - mul_frac(cx, scale), y0 - mul_frac(cy, scale));
            }
            placed.push((pv, loc, scale));
            i = i + 1;
        }

        let cols = if max_width <= n {
            max_width
        } else {
            n
        };
        let rows = (n - 1) / max_width + 1;
        proof {
            assert(rows <= n) by (nonlinear_arith)
                requires
                    1 <= max_width,
                    1 <= n,
                    rows == (n - 1) / (max_width as int) + 1,
            ;
        }
        let size = HexCoord(
            (cols as i64) * UNIT + if rows > 1 {
                HALF
            } else {
                0
            },
            (rows as i64 - 1) * Y_UNIT + UNIT,
        );
        Ok(Self { patterns: placed, size })
    }
}

/// The scaled center shift of a well-formed pattern stays small.
proof fn lemma_hex_shift_bounds(cx: int, cy: int, s: int)
    requires
        -crate::fixed::PATTERN_SPAN_LIMIT <= cx <= 2 * crate::fixed::PATTERN_SPAN_LIMIT,
        -crate::fixed::PATTERN_SPAN_LIMIT <= cy <= 2 * crate::fixed::PATTERN_SPAN_LIMIT,
        0 <= s <= UNIT,
    ensures
        -crate::fixed::PATTERN_SPAN_LIMIT <= fmul(cx, s) <= 2 * crate::fixed::PATTERN_SPAN_LIMIT,
        -crate::fixed::PATTERN_SPAN_LIMIT <= fmul(cy, s) <= 2 * crate::fixed::PATTERN_SPAN_LIMIT,
{
    if cx >= 0 {
        assert(0 <= (cx * s) / (UNIT as int) <= cx) by (nonlinear_arith)
            requires
                0 <= s <= UNIT,
                0 <= cx,
        ;
    } else {
        assert(0 <= ((-cx) * s) / (UNIT as int) <= -cx) by (nonlinear_arith)
            requires
                0 <= s <= UNIT,
                0 < -cx,
        ;
    }
    if cy >= 0 {
        assert(0 <= (cy * s) / (UNIT as int) <= cy) by (nonlinear_arith)
            requires
                0 <= s <= UNIT,
                0 <= cy,
        ;
    } else {
        assert(0 <= ((-cy) * s) / (UNIT as int) <= -cy) by (nonlinear_arith)
            requires
                0 <= s <= UNIT,
                0 < -cy,
        ;
    }
}

} // verus!
