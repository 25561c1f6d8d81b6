//! A two-dimensional position in grid units, held in fixed point.

use vstd::prelude::*;

use crate::fixed::FIX_LIMIT;
use crate::fixed::HALF;
use crate::fixed::UNIT;
use crate::fixed::Y_UNIT;
use crate::fixed::fdiv;
use crate::fixed::fmul;
use crate::fixed::is_floor_sqrt;
use crate::fixed::div_frac;
use crate::fixed::min_i64;
use crate::fixed::max_i64;
use crate::fixed::mul_frac;
use crate::fixed::sqrt_u64;
use crate::pattern_utils::Coord;

verus! {

/// A 2D position in grid units, each component in fixed-point micro-units.
#[derive(Debug, Clone, Copy, PartialEq, Eq, Structural, Hash)]
pub struct HexCoord(pub i64, pub i64);

/// The floor of the square root of a non-negative number.
pub open spec fn floor_sqrt(s: int) -> int {
    choose|r: int| is_floor_sqrt(s, r)
}

/// Any value satisfying the floor-square-root relation is `floor_sqrt`.
pub proof fn lemma_floor_sqrt_unique(s: int, r: int)
    requires
        is_floor_sqrt(s, r),
    ensures
        floor_sqrt(s) == r,
{
    let w = choose|w: int| is_floor_sqrt(s, w);
    assert(is_floor_sqrt(s, w));
    assert(w == r) by (nonlinear_arith)
        requires
            w >= 0 && w * w <= s && s < (w + 1) * (w + 1),
            r >= 0 && r * r <= s && s < (r + 1) * (r + 1),
    ;
}

impl HexCoord {
    /// The vertical position of hex row `y`: `y` times `sqrt(3)/2` of a unit.
    pub fn get_y(y: i64) -> (r: i64)
        requires
            -1_000_000_000 <= y <= 1_000_000_000,
        ensures
            r == y * Y_UNIT,
    {
        y * Y_UNIT
    }

    /// Componentwise sum.
    pub fn plus(self, rhs: Self) -> (r: Self)
        requires
            i64::MIN <= self.0 + rhs.0 <= i64::MAX,
            i64::MIN <= self.1 + rhs.1 <= i64::MAX,
        ensures
            r.0 == self.0 + rhs.0,
            r.1 == self.1 + rhs.1,
    {
        HexCoord(self.0 + rhs.0, self.1 + rhs.1)
    }

    /// Componentwise difference.
    pub fn minus(self, rhs: Self) -> (r: Self)
        requires
            i64::MIN <= self.0 - rhs.0 <= i64::MAX,
            i64::MIN <= self.1 - rhs.1 <= i64::MAX,
        ensures
            r.0 == self.0 - rhs.0,
            r.1 == self.1 - rhs.1,
    {
        HexCoord(self.0 - rhs.0, self.1 - rhs.1)
    }

    /// Both components scaled by a fixed-point factor.
    pub fn times(self, rhs: i64) -> (r: Self)
        requires
            -FIX_LIMIT <= self.0 <= FIX_LIMIT,
            -FIX_LIMIT <= self.1 <= FIX_LIMIT,
            0 <= rhs <= FIX_LIMIT,
        ensures
            r.0 == fmul(self.0 as int, rhs as int),
            r.1 == fmul(self.1 as int, rhs as int),
    {
        HexCoord(mul_frac(self.0, rhs), mul_frac(self.1, rhs))
    }

    /// Both components divided by a fixed-point factor.
    pub fn div_by(self, rhs: i64) -> (r: Self)
        requires
            -FIX_LIMIT <= self.0 <= FIX_LIMIT,
            -FIX_LIMIT <= self.1 <= FIX_LIMIT,
            0 < rhs,
        ensures
            r.0 == fdiv(self.0 as int, rhs as int),
            r.1 == fdiv(self.1 as int, rhs as int),
    {
        HexCoord(div_frac(self.0, rhs), div_frac(self.1, rhs))
    }

    /// The distance of this position from the origin, rounded down.
    pub fn magnitude(self) -> (r: i64)
        requires
            -FIX_LIMIT <= self.0 <= FIX_LIMIT,
            -FIX_LIMIT <= self.1 <= FIX_LIMIT,
        ensures
            r == floor_sqrt(self.0 * self.0 + self.1 * self.1),
            is_floor_sqrt(self.0 * self.0 + self.1 * self.1, r as int),
            0 <= r <= 5_000_000_000,
    {
        let ax: u64 = if self.0 >= 0 {
            self.0 as u64
        } else {
            (-self.0) as u64
        };
        let ay: u64 = if self.1 >= 0 {
            self.1 as u64
        } else {
            (-self.1) as u64
        };
        assert(ax * ax + ay * ay <= 2 * (FIX_LIMIT as int) * (FIX_LIMIT as int) && 2 * (
        FIX_LIMIT as int) * (FIX_LIMIT as int) <= u64::MAX) by (nonlinear_arith)
            requires
                0 <= ax <= FIX_LIMIT,
                0 <= ay <= FIX_LIMIT,
        ;
        assert(ax * ax + ay * ay == self.0 * self.0 + self.1 * self.1) by (nonlinear_arith)
            requires
                ax == if self.0 >= 0 { self.0 as int } else { -self.0 as int },
                ay == if self.1 >= 0 { self.1 as int } else { -self.1 as int },
        ;
        let s: u64 = ax * ax + ay * ay;
        let root: u64 = sqrt_u64(s);
        proof {
            lemma_floor_sqrt_unique(s as int, root as int);
            assert(root <= 5_000_000_000u64) by (nonlinear_arith)
                requires
                    root >= 0,
                    (root as int) * (root as int) <= s as int,
                    s as int <= 2 * (FIX_LIMIT as int) * (FIX_LIMIT as int),
            ;
        }
        root as i64
    }

    /// The unit vector pointing the same way, in fixed point, rounded
    /// towards zero componentwise.
    pub fn unit_vec(self) -> (r: Self)
        requires
            -FIX_LIMIT <= self.0 <= FIX_LIMIT,
            -FIX_LIMIT <= self.1 <= FIX_LIMIT,
            self.0 != 0 || self.1 != 0,
        ensures
            r.0 == fdiv(self.0 as int, floor_sqrt(self.0 * self.0 + self.1 * self.1)),
            r.1 == fdiv(self.1 as int, floor_sqrt(self.0 * self.0 + self.1 * self.1)),
    {
        let m = self.magnitude();
        proof {
            assert(self.0 * self.0 + self.1 * self.1 >= 1) by (nonlinear_arith)
                requires
                    self.0 != 0 || self.1 != 0,
            ;
            assert(m >= 1) by (nonlinear_arith)
                requires
                    m >= 0,
                    self.0 * self.0 + self.1 * self.1 < ((m as int) + 1) * ((m as int) + 1),
                    self.0 * self.0 + self.1 * self.1 >= 1,
            ;
        }
        self.div_by(m)
    }

    /// The componentwise minimum.
    pub fn min_components(self, rhs: Self) -> (r: Self)
        ensures
            r.0 == if self.0 <= rhs.0 { self.0 as int } else { rhs.0 as int },
            r.1 == if self.1 <= rhs.1 { self.1 as int } else { rhs.1 as int },
    {
        HexCoord(min_i64(self.0, rhs.0), min_i64(self.1, rhs.1))
    }

    /// The componentwise maximum.
    pub fn max_components(self, rhs: Self) -> (r: Self)
        ensures
            r.0 == if self.0 >= rhs.0 { self.0 as int } else { rhs.0 as int },
            r.1 == if self.1 >= rhs.1 { self.1 as int } else { rhs.1 as int },
    {
        HexCoord(max_i64(self.0, rhs.0), max_i64(self.1, rhs.1))
    }
}

impl From<Coord> for HexCoord {
    /// The hex-lattice position of an integer coordinate: odd rows shift
    /// half a unit to the right, rows are `sqrt(3)/2` of a unit apart.
    fn from(value: Coord) -> (r: Self) {
        HexCoord((value.0 as i64) * UNIT + (value.1 as i64) * HALF, (value.1 as i64) * Y_UNIT)
    }
}

impl vstd::std_specs::convert::FromSpecImpl<Coord> for HexCoord {
    open spec fn obeys_from_spec() -> bool {
        true
    }

    open spec fn from_spec(value: Coord) -> Self {
        HexCoord(
            ((value.0 as int) * (UNIT as int) + (value.1 as int) * (HALF as int)) as i64,
            ((value.1 as int) * (Y_UNIT as int)) as i64,
        )
    }
}

} // verus!
