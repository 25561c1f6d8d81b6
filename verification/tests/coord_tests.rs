use hex_grids::fixed::HALF;
use hex_grids::fixed::UNIT;
use hex_grids::fixed::Y_UNIT;
use hex_grids::pattern_utils::Coord;
use hex_grids::pattern_utils::HexCoord;

#[test]
fn componentwise_arithmetic() {
    let a = HexCoord(3 * UNIT, -UNIT);
    let b = HexCoord(UNIT, 4 * UNIT);
    assert_eq!(a.plus(b), HexCoord(4 * UNIT, 3 * UNIT));
    assert_eq!(a.minus(b), HexCoord(2 * UNIT, -5 * UNIT));
    assert_eq!(a.times(HALF), HexCoord(UNIT + HALF, -HALF));
    assert_eq!(a.div_by(2 * UNIT), HexCoord(UNIT + HALF, -HALF));
    assert_eq!(a.min_components(b), HexCoord(UNIT, -UNIT));
    assert_eq!(a.max_components(b), HexCoord(3 * UNIT, 4 * UNIT));
}

#[test]
fn magnitude_of_three_four_triangle() {
    // A 3-4-5 triangle in fixed point.
    let c = HexCoord(3 * UNIT, 4 * UNIT);
    assert_eq!(c.magnitude(), 5 * UNIT);
    assert_eq!(HexCoord(0, 0).magnitude(), 0);
    // A non-square magnitude rounds down.
    assert_eq!(HexCoord(UNIT, UNIT).magnitude(), 1_414_213);
}

#[test]
fn unit_vector_points_the_same_way() {
    let c = HexCoord(3 * UNIT, 4 * UNIT);
    let u = c.unit_vec();
    assert_eq!(u, HexCoord(600_000, 800_000));
    let left = HexCoord(-2 * UNIT, 0);
    assert_eq!(left.unit_vec(), HexCoord(-UNIT, 0));
}

#[test]
fn hex_row_height_and_lattice_conversion() {
    assert_eq!(HexCoord::get_y(2), 2 * Y_UNIT);
    assert_eq!(HexCoord::get_y(-1), -Y_UNIT);
    // Odd rows shift right by half a unit per row index.
    assert_eq!(HexCoord::from(Coord(0, 0)), HexCoord(0, 0));
    assert_eq!(HexCoord::from(Coord(2, 0)), HexCoord(2 * UNIT, 0));
    assert_eq!(HexCoord::from(Coord(1, 1)), HexCoord(UNIT + HALF, Y_UNIT));
    assert_eq!(HexCoord::from(Coord(0, 2)), HexCoord(UNIT, 2 * Y_UNIT));
}
