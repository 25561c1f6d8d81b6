//! Fixed-point arithmetic in micro-units.
//!
//! One grid unit (a tile width, or the distance between two neighbouring hex
//! points) is `UNIT` micro-units.  Scales, paddings, radii and coordinates
//! are all carried as `i64` values in this representation, which keeps every
//! computation of the layout and sizing formulas exact and verifiable.

use vstd::prelude::*;

verus! {

/// One grid unit in micro-units.
pub const UNIT: i64 = 1_000_000;

/// Half a grid unit.
pub const HALF: i64 = 500_000;

/// Vertical distance between hex-grid rows, `sqrt(3)/2` of a unit.
pub const Y_UNIT: i64 = 866_025;

/// Largest magnitude admitted as an operand of a fixed-point product.
/// `FIX_LIMIT * FIX_LIMIT` still fits in an `i64`.
pub const FIX_LIMIT: i64 = 3_000_000_000;

/// Largest magnitude of a tile origin or of an unpadded grid size.
pub const GRID_SPAN_LIMIT: i64 = 1_500_000_000;

/// Largest magnitude of a pattern's own bounding-box coordinates.
pub const PATTERN_SPAN_LIMIT: i64 = 500_000_000;

/// Largest marker radius or line thickness, as a fraction in micro-units.
pub const RADIUS_LIMIT: i64 = 1_000_000_000;

/// Product of two fixed-point values, rounded towards zero.
/// Defined for a non-negative right operand, which is all the layout needs.
pub open spec fn fmul(a: int, b: int) -> int {
    if a >= 0 {
        (a * b) / (UNIT as int)
    } else {
        -(((-a) * b) / (UNIT as int))
    }
}

/// Fixed-point quotient `a / b`, rounded towards zero.
pub open spec fn fdiv(a: int, b: int) -> int {
    if a >= 0 {
        (a * (UNIT as int)) / b
    } else {
        -(((-a) * (UNIT as int)) / b)
    }
}

/// Multiplies two fixed-point values, truncating towards zero.
pub fn mul_frac(a: i64, b: i64) -> (r: i64)
    requires
        -FIX_LIMIT <= a <= FIX_LIMIT,
        0 <= b <= FIX_LIMIT,
    ensures
        r == fmul(a as int, b as int),
        -((FIX_LIMIT as int) * (FIX_LIMIT as int) / (UNIT as int)) <= r <= (FIX_LIMIT as int) * (FIX_LIMIT as int) / (UNIT as int),
{
    if a >= 0 {
        assert((a as int) * (b as int) <= u64::MAX) by (nonlinear_arith)
            requires
                0 <= a <= FIX_LIMIT,
                0 <= b <= FIX_LIMIT,
        ;
        let p: u64 = (a as u64) * (b as u64);
        let q: u64 = p / (UNIT as u64);
        assert(q == (a * b) / (UNIT as int)) by (nonlinear_arith)
            requires
                0 <= a <= FIX_LIMIT,
                0 <= b <= FIX_LIMIT,
                p == a * b,
                q == p / (UNIT as u64),
        ;
        assert(q <= (FIX_LIMIT as int) * (FIX_LIMIT as int) / (UNIT as int)) by (nonlinear_arith)
            requires
                0 <= a <= FIX_LIMIT,
                0 <= b <= FIX_LIMIT,
                q == (a * b) / (UNIT as int),
        ;
        q as i64
    } else {
        assert(((-a) as int) * (b as int) <= u64::MAX) by (nonlinear_arith)
            requires
                -FIX_LIMIT <= a < 0,
                0 <= b <= FIX_LIMIT,
        ;
        let m: u64 = ((-a) as u64) * (b as u64);
        let q: u64 = m / (UNIT as u64);
        assert(q == ((-a) * b) / (UNIT as int)) by (nonlinear_arith)
            requires
                -FIX_LIMIT <= a < 0,
                0 <= b <= FIX_LIMIT,
                m == (-a) * b,
                q == m / (UNIT as u64),
        ;
        assert(q <= (FIX_LIMIT as int) * (FIX_LIMIT as int) / (UNIT as int)) by (nonlinear_arith)
            requires
                0 < -a <= FIX_LIMIT,
                0 <= b <= FIX_LIMIT,
                q == ((-a) * b) / (UNIT as int),
        ;
        -(q as i64)
    }
}

/// Divides two fixed-point values, truncating towards zero.
pub fn div_frac(a: i64, b: i64) -> (r: i64)
    requires
        -FIX_LIMIT <= a <= FIX_LIMIT,
        0 < b,
    ensures
        r == fdiv(a as int, b as int),
{
    if a >= 0 {
        assert((a as int) * (UNIT as int) <= u64::MAX) by (nonlinear_arith)
            requires
                0 <= a <= FIX_LIMIT,
        ;
        let p: u64 = (a as u64) * (UNIT as u64);
        let q: u64 = p / (b as u64);
        assert(q == (a * (UNIT as int)) / (b as int)) by (nonlinear_arith)
            requires
                0 <= a <= FIX_LIMIT,
                0 < b,
                p == a * (UNIT as int),
                q == p / (b as u64),
        ;
        assert(q <= (FIX_LIMIT as int) * (UNIT as int)) by (nonlinear_arith)
            requires
                0 <= a <= FIX_LIMIT,
                0 < b,
                q == (a * (UNIT as int)) / (b as int),
        ;
        q as i64
    } else {
        assert(((-a) as int) * (UNIT as int) <= u64::MAX) by (nonlinear_arith)
            requires
                -FIX_LIMIT <= a < 0,
        ;
        let p: u64 = ((-a) as u64) * (UNIT as u64);
        let q: u64 = p / (b as u64);
        assert(q == ((-a) * (UNIT as int)) / (b as int)) by (nonlinear_arith)
            requires
                -FIX_LIMIT <= a < 0,
                0 < b,
                p == (-a) * (UNIT as int),
                q == p / (b as u64),
        ;
        assert(q <= (FIX_LIMIT as int) * (UNIT as int)) by (nonlinear_arith)
            requires
                0 < -a <= FIX_LIMIT,
                0 < b,
                q == ((-a) * (UNIT as int)) / (b as int),
        ;
        -(q as i64)
    }
}

/// Halves a non-negative fixed-point value, truncating.
pub fn half_of(v: i64) -> (r: i64)
    requires
        0 <= v,
    ensures
        r == v / 2,
{
    let q: u64 = (v as u64) / 2;
    q as i64
}

/// The larger of two values.
pub fn max_i64(a: i64, b: i64) -> (r: i64)
    ensures
        r == if a >= b { a as int } else { b as int },
{
    if a >= b { a } else { b }
}

/// The smaller of two values.
pub fn min_i64(a: i64, b: i64) -> (r: i64)
    ensures
        r == if a <= b { a as int } else { b as int },
{
    if a <= b { a } else { b }
}

/// Floor of the square root.
pub open spec fn is_floor_sqrt(s: int, r: int) -> bool {
    r >= 0 && r * r <= s && s < (r + 1) * (r + 1)
}

/// Floor square root by binary search.
pub fn sqrt_u64(s: u64) -> (r: u64)
    ensures
        is_floor_sqrt(s as int, r as int),
{
    let mut lo: u64 = 0;
    let mut hi: u64 = 4_294_967_296;
    assert((hi as int) * (hi as int) > s as int) by (nonlinear_arith)
        requires
            hi == 4_294_967_296u64,
            s <= u64::MAX,
    ;
    while lo + 1 < hi
        invariant
            0 <= lo < hi <= 4_294_967_296,
            (lo as int) * (lo as int) <= s as int,
            (s as int) < (hi as int) * (hi as int),
        decreases hi - lo,
    {
        let mid: u64 = lo + (hi - lo) / 2;
        assert(lo < mid < hi);
        assert((mid as int) * (mid as int) <= u64::MAX as int) by (nonlinear_arith)
            requires
                0 < mid < 4_294_967_296u64,
        ;
        if mid * mid <= s {
            lo = mid;
        } else {
            hi = mid;
        }
    }
    lo
}

} // verus!
