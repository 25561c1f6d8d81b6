use hex_grids::fixed::HALF;
use hex_grids::fixed::UNIT;
use hex_grids::grids::GridCreationError;
use hex_grids::grids::GridDraw;
use hex_grids::grids::GridDrawError;
use hex_grids::grids::HexGrid;
use hex_grids::grids::SquareGrid;
use hex_grids::options::Color;
use hex_grids::options::GridOptions;
use hex_grids::options::GridPatternOptions;
use hex_grids::options::Intersections;
use hex_grids::options::Lines;
use hex_grids::options::Marker;
use hex_grids::options::Point;
use hex_grids::pattern::Pattern;
use hex_grids::pattern::PatternVariant;
use hex_grids::pattern_utils::Angle;
use hex_grids::pattern_utils::HexCoord;

fn unit_pattern(angles: Vec<Angle>) -> Pattern {
    Pattern {
        angles,
        top_left_bound: HexCoord(0, 0),
        bottom_right_bound: HexCoord(UNIT, UNIT),
    }
}

fn plain_options() -> GridOptions {
    GridOptions {
        line_thickness: 0,
        pattern_options: GridPatternOptions::Uniform(
            Intersections::Nothing,
            Lines::Monocolor { color: Color(255, 255, 255, 255), bent: false },
        ),
        center_dot: Point::Nothing,
    }
}

fn changing_options(colors: Vec<Color>) -> GridOptions {
    GridOptions {
        line_thickness: 0,
        pattern_options: GridPatternOptions::gen_changing_monocolor(
            Intersections::Nothing,
            colors,
            false,
        ),
        center_dot: Point::Nothing,
    }
}

fn intro_sig() -> Vec<Angle> {
    vec![Angle::Left, Angle::Left, Angle::Left]
}

fn retro_sig() -> Vec<Angle> {
    vec![Angle::Right, Angle::Right, Angle::Right]
}

#[test]
fn improper_scale_is_rejected() {
    let grid =
        SquareGrid::new(vec![PatternVariant::Normal(unit_pattern(vec![]))], 1, UNIT, 0, 0).unwrap();
    let r = grid.draw_grid_with_padding(UNIT - 1, &plain_options(), 0);
    assert!(matches!(r, Err(GridDrawError::ImproperScale(s)) if s == UNIT - 1));
    let r = grid.draw_grid_with_padding(0, &plain_options(), 0);
    assert!(matches!(r, Err(GridDrawError::ImproperScale(0))));
    // Arbitrarily negative scales are rejected the same way.
    let r = grid.draw_grid_with_padding(-5 * UNIT, &plain_options(), 0);
    assert!(matches!(r, Err(GridDrawError::ImproperScale(s)) if s == -5 * UNIT));
    let r = grid.draw_grid_png(i64::MIN, &plain_options());
    assert!(matches!(r, Err(GridDrawError::ImproperScale(s)) if s == i64::MIN));
}

#[test]
fn empty_pattern_list_is_rejected() {
    assert_eq!(
        SquareGrid::new(vec![], 4, UNIT, 0, 0).err(),
        Some(GridCreationError::EmptyPatternList)
    );
    assert!(matches!(HexGrid::new(vec![], 6), Err(GridCreationError::EmptyPatternList)));
}

#[test]
fn zero_width_and_negative_padding_are_rejected() {
    let p = || vec![PatternVariant::Normal(unit_pattern(vec![]))];
    assert_eq!(SquareGrid::new(p(), 0, UNIT, 0, 0).err(), Some(GridCreationError::NegativeInput));
    assert_eq!(SquareGrid::new(p(), 2, UNIT, -1, 0).err(), Some(GridCreationError::NegativeInput));
    assert_eq!(SquareGrid::new(p(), 2, UNIT, 0, -1).err(), Some(GridCreationError::NegativeInput));
    assert!(matches!(HexGrid::new(p(), 0), Err(GridCreationError::NegativeInput)));
}

#[test]
fn single_column_layout() {
    let patterns: Vec<PatternVariant> =
        (0..3).map(|_| PatternVariant::Normal(unit_pattern(vec![]))).collect();
    let grid = SquareGrid::new(patterns, 1, UNIT, 0, 0).unwrap();
    assert_eq!(grid.get_unpadded_size(), (UNIT, 3 * UNIT));
    // Drawing at one pixel per unit with no padding exposes the raw layout.
    let (_canvas, calls) = grid.draw_grid_with_padding(UNIT, &plain_options(), 0).unwrap();
    assert_eq!(calls.len(), 3);
    for (i, call) in calls.iter().enumerate() {
        assert_eq!(call.position, HexCoord(0, (i as i64) * UNIT));
        assert_eq!(call.scale, UNIT);
    }
}

#[test]
fn rows_wrap_at_width() {
    let patterns: Vec<PatternVariant> =
        (0..3).map(|_| PatternVariant::Normal(unit_pattern(vec![]))).collect();
    let grid = SquareGrid::new(patterns, 2, UNIT, 0, 0).unwrap();
    assert_eq!(grid.get_unpadded_size(), (2 * UNIT, 2 * UNIT));
    let (_canvas, calls) = grid.draw_grid_with_padding(UNIT, &plain_options(), 0).unwrap();
    // The third pattern begins row one at column zero.
    assert_eq!(calls[0].position, HexCoord(0, 0));
    assert_eq!(calls[1].position, HexCoord(UNIT, 0));
    assert_eq!(calls[2].position, HexCoord(0, UNIT));
}

#[test]
fn tile_padding_spreads_tiles() {
    let patterns: Vec<PatternVariant> =
        (0..2).map(|_| PatternVariant::Normal(unit_pattern(vec![]))).collect();
    // Half-a-unit padding between tiles, none around the edge.
    let grid = SquareGrid::new(patterns, 2, UNIT, HALF, HALF).unwrap();
    assert_eq!(grid.get_unpadded_size(), (2 * UNIT + HALF, UNIT));
    let (_canvas, calls) = grid.draw_grid_with_padding(UNIT, &plain_options(), 0).unwrap();
    assert_eq!(calls[1].position, HexCoord(UNIT + HALF, 0));
}

#[test]
fn shrink_to_fit_and_max_scale() {
    // A two-unit-wide pattern is halved; max_scale caps upscaling.
    let big = Pattern {
        angles: vec![],
        top_left_bound: HexCoord(0, 0),
        bottom_right_bound: HexCoord(2 * UNIT, UNIT),
    };
    let grid = SquareGrid::new(vec![PatternVariant::Normal(big)], 1, UNIT, 0, 0).unwrap();
    let (_canvas, calls) = grid.draw_grid_with_padding(UNIT, &plain_options(), 0).unwrap();
    assert_eq!(calls[0].scale, HALF);

    let small = Pattern {
        angles: vec![],
        top_left_bound: HexCoord(0, 0),
        bottom_right_bound: HexCoord(HALF, HALF),
    };
    // It could be doubled, but max_scale keeps it at four fifths.
    let cap = 4 * UNIT / 5;
    let grid = SquareGrid::new(vec![PatternVariant::Normal(small)], 1, cap, 0, 0).unwrap();
    let (_canvas, calls) = grid.draw_grid_with_padding(UNIT, &plain_options(), 0).unwrap();
    assert_eq!(calls[0].scale, cap);
}

#[test]
fn size_covers_unpadded_exactly_without_radius() {
    let patterns = vec![PatternVariant::Normal(unit_pattern(vec![]))];
    let grid = SquareGrid::new(patterns, 1, UNIT, 0, 0).unwrap();
    // No decoration at all: the footprint equals the unpadded size.
    assert_eq!(grid.get_size(&plain_options()), grid.get_unpadded_size());
    // A marker of radius one tenth adds 0.22 units on each axis.
    let mut options = plain_options();
    options.center_dot = Point::Single(Marker { color: Color(0, 0, 0, 255), radius: UNIT / 10 });
    let (w, h) = grid.get_size(&options);
    assert_eq!(w, UNIT + (UNIT / 10) * 22 / 10);
    assert_eq!(h, UNIT + (UNIT / 10) * 22 / 10);
    assert!(w > grid.get_unpadded_size().0);
    assert!(h > grid.get_unpadded_size().1);
}

#[test]
fn bound_scale_floors_at_one_and_fits() {
    let patterns = vec![PatternVariant::Normal(unit_pattern(vec![]))];
    let grid = SquareGrid::new(patterns, 1, UNIT, 0, 0).unwrap();
    let options = plain_options();
    // A bound that cannot hold the grid still yields one pixel per unit.
    assert_eq!(grid.get_bound_scale((0, 0), &options), UNIT);
    // A generous bound: the footprint at the returned scale fits it.
    let bound = (5 * UNIT, 3 * UNIT);
    let scale = grid.get_bound_scale(bound, &options);
    assert_eq!(scale, 3 * UNIT);
    let (w, h) = grid.get_size(&options);
    assert!(w / UNIT * (scale / UNIT) <= bound.0 / UNIT);
    assert!(h / UNIT * (scale / UNIT) <= bound.1 / UNIT);
}

#[test]
fn uniform_styles_every_placement() {
    let patterns: Vec<PatternVariant> = vec![
        PatternVariant::Normal(unit_pattern(intro_sig())),
        PatternVariant::Normal(unit_pattern(vec![])),
    ];
    let grid = SquareGrid::new(patterns, 2, UNIT, 0, 0).unwrap();
    let (_canvas, calls) = grid.draw_grid_with_padding(UNIT, &plain_options(), 0).unwrap();
    for call in &calls {
        assert_eq!(
            call.lines,
            Lines::Monocolor { color: Color(255, 255, 255, 255), bent: false }
        );
        assert_eq!(call.intersections, Intersections::Nothing);
    }
}

#[test]
fn empty_intro_retro_sets_pin_first_variation() {
    let c = [Color(1, 0, 0, 255), Color(2, 0, 0, 255), Color(3, 0, 0, 255)];
    let options = GridOptions {
        line_thickness: 0,
        pattern_options: GridPatternOptions::Changing {
            variations: vec![
                (Intersections::Nothing, Lines::Monocolor { color: c[0], bent: false }),
                (Intersections::Nothing, Lines::Monocolor { color: c[1], bent: false }),
                (Intersections::Nothing, Lines::Monocolor { color: c[2], bent: false }),
            ],
            intros: vec![],
            retros: vec![],
        },
        center_dot: Point::Nothing,
    };
    // Even patterns whose signatures would match the defaults stay at zero.
    let patterns: Vec<PatternVariant> = vec![
        PatternVariant::Normal(unit_pattern(intro_sig())),
        PatternVariant::Normal(unit_pattern(retro_sig())),
        PatternVariant::Normal(unit_pattern(vec![])),
    ];
    let grid = SquareGrid::new(patterns, 3, UNIT, 0, 0).unwrap();
    let (_canvas, calls) = grid.draw_grid_with_padding(UNIT, &options, 0).unwrap();
    for call in &calls {
        assert_eq!(call.lines, Lines::Monocolor { color: c[0], bent: false });
    }
}

#[test]
fn intro_cursor_wraps_around() {
    let c = [Color(1, 0, 0, 255), Color(2, 0, 0, 255), Color(3, 0, 0, 255)];
    let options = changing_options(vec![c[0], c[1], c[2]]);
    // Three introspections advance 0 -> 1 -> 2 and wrap; a plain pattern
    // after them is drawn at zero again.
    let patterns: Vec<PatternVariant> = vec![
        PatternVariant::Normal(unit_pattern(intro_sig())),
        PatternVariant::Normal(unit_pattern(intro_sig())),
        PatternVariant::Normal(unit_pattern(intro_sig())),
        PatternVariant::Normal(unit_pattern(vec![])),
    ];
    let grid = SquareGrid::new(patterns, 4, UNIT, 0, 0).unwrap();
    let (_canvas, calls) = grid.draw_grid_with_padding(UNIT, &options, 0).unwrap();
    let drawn: Vec<Color> = calls
        .iter()
        .map(|call| match call.lines {
            Lines::Monocolor { color, .. } => color,
            _ => panic!("expected a monocolor style"),
        })
        .collect();
    assert_eq!(drawn, vec![c[0], c[1], c[2], c[0]]);
}

#[test]
fn retro_is_drawn_at_previous_variation() {
    let c = [Color(1, 0, 0, 255), Color(2, 0, 0, 255), Color(3, 0, 0, 255)];
    let options = changing_options(vec![c[0], c[1], c[2]]);
    // Two introspections leave the cursor at two; the retrospection steps
    // back to one and is itself drawn there.
    let patterns: Vec<PatternVariant> = vec![
        PatternVariant::Normal(unit_pattern(intro_sig())),
        PatternVariant::Normal(unit_pattern(intro_sig())),
        PatternVariant::Normal(unit_pattern(retro_sig())),
        PatternVariant::Normal(unit_pattern(vec![])),
    ];
    let grid = SquareGrid::new(patterns, 4, UNIT, 0, 0).unwrap();
    let (_canvas, calls) = grid.draw_grid_with_padding(UNIT, &options, 0).unwrap();
    let drawn: Vec<Color> = calls
        .iter()
        .map(|call| match call.lines {
            Lines::Monocolor { color, .. } => color,
            _ => panic!("expected a monocolor style"),
        })
        .collect();
    assert_eq!(drawn, vec![c[0], c[1], c[1], c[1]]);
}

#[test]
fn retro_wraps_from_zero_to_last() {
    let c = [Color(1, 0, 0, 255), Color(2, 0, 0, 255), Color(3, 0, 0, 255)];
    let options = changing_options(vec![c[0], c[1], c[2]]);
    let patterns: Vec<PatternVariant> = vec![PatternVariant::Normal(unit_pattern(retro_sig()))];
    let grid = SquareGrid::new(patterns, 1, UNIT, 0, 0).unwrap();
    let (_canvas, calls) = grid.draw_grid_with_padding(UNIT, &options, 0).unwrap();
    assert_eq!(calls[0].lines, Lines::Monocolor { color: c[2], bent: false });
}

#[test]
fn monocolor_restricted_degrades_to_first_color() {
    let c = [Color(9, 8, 7, 255), Color(1, 2, 3, 255)];
    let middle = Point::Single(Marker { color: c[1], radius: UNIT / 20 });
    let options = GridOptions {
        line_thickness: 0,
        pattern_options: GridPatternOptions::Uniform(
            Intersections::EndsAndMiddle {
                start: Point::Nothing.into(),
                end: Point::Nothing.into(),
                middle,
            },
            Lines::SegmentColors {
                colors: vec![c[0], c[1]],
                triangles: hex_grids::options::Triangle::Nothing,
                collisions: hex_grids::options::CollisionOption::ParallelLines,
            },
        ),
        center_dot: Point::Nothing,
    };
    let patterns: Vec<PatternVariant> = vec![
        PatternVariant::Monocolor(unit_pattern(vec![])),
        PatternVariant::Normal(unit_pattern(vec![])),
    ];
    let grid = SquareGrid::new(patterns, 2, UNIT, 0, 0).unwrap();
    let (_canvas, calls) = grid.draw_grid_with_padding(UNIT, &options, 0).unwrap();
    // The restricted placement degrades to the first segment color and the
    // compound intersection policy collapses to its middle point.
    assert_eq!(calls[0].lines, Lines::Monocolor { color: c[0], bent: false });
    assert_eq!(calls[0].intersections, Intersections::UniformPoints(middle));
    // The plain placement keeps the configured style.
    assert!(matches!(calls[1].lines, Lines::SegmentColors { .. }));
    assert!(matches!(calls[1].intersections, Intersections::EndsAndMiddle { .. }));
}

#[test]
fn monocolor_restricted_under_changing_options() {
    let c = [Color(1, 0, 0, 255), Color(2, 0, 0, 255)];
    let options = changing_options(vec![c[0], c[1]]);
    let patterns: Vec<PatternVariant> = vec![
        PatternVariant::Normal(unit_pattern(intro_sig())),
        PatternVariant::Monocolor(unit_pattern(vec![])),
    ];
    let grid = SquareGrid::new(patterns, 2, UNIT, 0, 0).unwrap();
    let (_canvas, calls) = grid.draw_grid_with_padding(UNIT, &options, 0).unwrap();
    // After the introspection the cursor selects variation one; degrading
    // it picks that variation's first color.
    assert_eq!(calls[1].lines, Lines::Monocolor { color: c[1], bent: false });
}

#[test]
fn hex_grid_lays_rows_of_lattice_points() {
    let patterns: Vec<PatternVariant> =
        (0..3).map(|_| PatternVariant::Normal(unit_pattern(vec![]))).collect();
    let grid = HexGrid::new(patterns, 2).unwrap();
    let (w, h) = grid.get_unpadded_size();
    assert_eq!(w, 2 * UNIT + HALF);
    assert_eq!(h, 866_025 + UNIT);
    let (_canvas, calls) = grid.draw_grid_with_padding(UNIT, &plain_options(), 0).unwrap();
    assert_eq!(calls[0].position, HexCoord(0, 0));
    assert_eq!(calls[1].position, HexCoord(UNIT, 0));
    // The third pattern starts the second row, offset half a unit.
    assert_eq!(calls[2].position, HexCoord(HALF, 866_025));
}

#[test]
fn canvas_dimensions_follow_sizing_formula() {
    let patterns = vec![PatternVariant::Normal(unit_pattern(vec![]))];
    let grid = SquareGrid::new(patterns, 1, UNIT, 0, 0).unwrap();
    let scale = 100 * UNIT;
    // border = padding * scale = 0.25 * 100 = 25 px; width = 2*25 + 100.
    let (canvas, _calls) = grid.draw_grid_with_padding(scale, &plain_options(), UNIT / 4).unwrap();
    assert_eq!(canvas.width(), 150);
    assert_eq!(canvas.height(), 150);
}

#[test]
fn png_round_trip_preserves_dimensions() {
    let patterns = vec![PatternVariant::Normal(unit_pattern(vec![]))];
    let grid = SquareGrid::new(patterns, 1, UNIT, 0, 0).unwrap();
    let mut options = plain_options();
    options.line_thickness = 120_000;
    // Automatic padding is 0.12 * 1.1 = 0.132; at 100 px per unit the
    // border is 13 px (truncating 13.2), so the canvas is 126 px wide.
    let bytes = grid.draw_grid_png(100 * UNIT, &options).unwrap();
    let decoded = hex_grids::canvas::Canvas::decode_png(&bytes).unwrap();
    assert_eq!(decoded.width(), 126);
    assert_eq!(decoded.height(), 126);
}

#[test]
fn decode_rejects_non_png_bytes() {
    assert!(hex_grids::canvas::Canvas::decode_png(&vec![1, 2, 3, 4]).is_none());
}

#[test]
fn encode_then_decode_matches_canvas() {
    let canvas = hex_grids::canvas::Canvas::new(7, 5);
    let bytes = canvas.encode_png().unwrap();
    let decoded = hex_grids::canvas::Canvas::decode_png(&bytes).unwrap();
    assert_eq!(decoded.width(), 7);
    assert_eq!(decoded.height(), 5);
}

#[test]
fn new_normal_wraps_patterns() {
    let grid = SquareGrid::new_normal(
        vec![unit_pattern(vec![]), unit_pattern(intro_sig())],
        2,
        UNIT,
        0,
        0,
    )
    .unwrap();
    assert_eq!(grid.get_unpadded_size(), (2 * UNIT, UNIT));
    let (_canvas, calls) = grid.draw_grid_with_padding(UNIT, &plain_options(), 0).unwrap();
    assert_eq!(calls.len(), 2);
    assert_eq!(SquareGrid::new_normal(vec![], 2, UNIT, 0, 0).err(),
        Some(GridCreationError::EmptyPatternList));
}

#[test]
fn draw_grid_applies_automatic_padding() {
    let patterns = vec![PatternVariant::Normal(unit_pattern(vec![]))];
    let grid = SquareGrid::new(patterns, 1, UNIT, 0, 0).unwrap();
    let mut options = plain_options();
    options.line_thickness = 120_000;
    // radius 0.12, padding 0.132, border 13.2 px at 100 px per unit.
    let (canvas, _calls) = grid.draw_grid(100 * UNIT, &options).unwrap();
    assert_eq!(canvas.width(), 126);
    assert_eq!(canvas.height(), 126);
}
