use hex_grids::fixed::UNIT;
use hex_grids::options::CollisionOption;
use hex_grids::options::Color;
use hex_grids::options::EndPoint;
use hex_grids::options::GridOptions;
use hex_grids::options::GridPatternOptions;
use hex_grids::options::Intersections;
use hex_grids::options::Lines;
use hex_grids::options::Marker;
use hex_grids::options::Point;
use hex_grids::options::Triangle;
use hex_grids::options::palettes;
use hex_grids::pattern_utils::Angle;

const RED: Color = Color(255, 0, 0, 255);
const BLUE: Color = Color(0, 0, 255, 255);

#[test]
fn endpoint_resolves_into_point() {
    let marker = Marker { color: BLUE, radius: 100_000 };
    assert_eq!(EndPoint::Point(Point::Single(marker)).into_point(RED), Point::Single(marker));
    assert_eq!(
        EndPoint::Match { radius: 70_000 }.into_point(RED),
        Point::Single(Marker { color: RED, radius: 70_000 })
    );
    // The larger of the two markers becomes the outer one.
    let resolved = EndPoint::BorderedMatch { match_radius: 150_000, border: marker }.into_point(RED);
    assert_eq!(
        resolved,
        Point::Double { inner: marker, outer: Marker { color: RED, radius: 150_000 } }
    );
    let resolved = EndPoint::BorderedMatch { match_radius: 70_000, border: marker }.into_point(RED);
    assert_eq!(
        resolved,
        Point::Double { inner: Marker { color: RED, radius: 70_000 }, outer: marker }
    );
}

#[test]
fn triangle_middle_and_start_points() {
    let border = Marker { color: BLUE, radius: 100_000 };
    assert_eq!(Triangle::Nothing.to_middle_point(RED), None);
    assert_eq!(Triangle::Nothing.to_start_point(RED), None);
    assert_eq!(
        Triangle::Match { radius: 160_000 }.to_middle_point(RED),
        Some(Point::Single(Marker { color: RED, radius: 160_000 }))
    );
    // BorderStartMatch draws a plain triangle at color changes but a
    // bordered one at the start.
    let t = Triangle::BorderStartMatch { match_radius: 160_000, border };
    assert_eq!(t.to_middle_point(RED), Some(Point::Single(Marker { color: RED, radius: 160_000 })));
    assert_eq!(
        t.to_start_point(RED),
        Some(Point::Double { inner: border, outer: Marker { color: RED, radius: 160_000 } })
    );
    // BorderMatch with the border larger than the match keeps the border
    // outside.
    let t = Triangle::BorderMatch { match_radius: 70_000, border };
    assert_eq!(
        t.to_middle_point(RED),
        Some(Point::Double { inner: Marker { color: RED, radius: 70_000 }, outer: border })
    );
}

#[test]
fn max_radius_queries() {
    assert_eq!(Point::Nothing.get_max_radius(), 0);
    let small = Marker { color: RED, radius: 70_000 };
    let large = Marker { color: BLUE, radius: 100_000 };
    assert_eq!(Point::Single(small).get_max_radius(), 70_000);
    assert_eq!(Point::Double { inner: small, outer: large }.get_max_radius(), 100_000);
    assert_eq!(EndPoint::Match { radius: 50_000 }.get_max_radius(), 50_000);
    assert_eq!(
        EndPoint::BorderedMatch { match_radius: 150_000, border: large }.get_max_radius(),
        150_000
    );
    assert_eq!(Intersections::Nothing.get_max_radius(), 0);
    assert_eq!(
        Intersections::EndsAndMiddle {
            start: EndPoint::Match { radius: 50_000 },
            end: EndPoint::Match { radius: 90_000 },
            middle: Point::Single(small),
        }
        .get_max_radius(),
        90_000
    );
    assert_eq!(Triangle::Nothing.get_max_radius(), 0);
    assert_eq!(
        Triangle::BorderMatch { match_radius: 160_000, border: large }.get_max_radius(),
        160_000
    );
    // Monocolor and gradient styles draw no triangles at all.
    assert_eq!(Lines::Monocolor { color: RED, bent: true }.get_max_radius(), 0);
    assert_eq!(
        Lines::Gradient { colors: vec![RED], segments_per_color: 15, bent: true }.get_max_radius(),
        0
    );
    assert_eq!(
        Lines::SegmentColors {
            colors: vec![RED],
            triangles: Triangle::Match { radius: 160_000 },
            collisions: CollisionOption::MatchedDashes,
        }
        .get_max_radius(),
        160_000
    );
}

#[test]
fn grid_options_max_radius_spans_all_parts() {
    let options = GridOptions {
        line_thickness: 120_000,
        pattern_options: GridPatternOptions::Uniform(
            Intersections::UniformPoints(Point::Single(Marker { color: RED, radius: 160_000 })),
            Lines::Monocolor { color: RED, bent: false },
        ),
        center_dot: Point::Single(Marker { color: BLUE, radius: 100_000 }),
    };
    assert_eq!(options.get_max_radius(), 160_000);
    // The changing policy takes the largest radius over all variations.
    let options = GridOptions {
        line_thickness: 0,
        pattern_options: GridPatternOptions::Changing {
            variations: vec![
                (Intersections::Nothing, Lines::Monocolor { color: RED, bent: false }),
                (
                    Intersections::UniformPoints(Point::Single(Marker {
                        color: BLUE,
                        radius: 90_000,
                    })),
                    Lines::Monocolor { color: BLUE, bent: false },
                ),
            ],
            intros: vec![],
            retros: vec![],
        },
        center_dot: Point::Nothing,
    };
    assert_eq!(options.get_max_radius(), 90_000);
}

#[test]
fn generate_uses_default_thickness() {
    let po = GridPatternOptions::Uniform(
        Intersections::Nothing,
        Lines::Monocolor { color: RED, bent: false },
    );
    let options = GridOptions::generate(po.clone(), Point::Nothing);
    assert_eq!(options.line_thickness, 120_000);
    assert_eq!(options.center_dot, Point::Nothing);
    assert_eq!(options.pattern_options, po);
}

#[test]
fn generate_changing_pairs_each_style() {
    let lines = vec![
        Lines::Monocolor { color: RED, bent: true },
        Lines::Monocolor { color: BLUE, bent: false },
    ];
    let r = GridPatternOptions::generate_changing(
        Intersections::Nothing,
        lines.clone(),
        vec![],
        vec![],
    );
    match r {
        GridPatternOptions::Changing { variations, intros, retros } => {
            assert_eq!(variations.len(), 2);
            assert_eq!(variations[0], (Intersections::Nothing, lines[0].clone()));
            assert_eq!(variations[1], (Intersections::Nothing, lines[1].clone()));
            assert!(intros.is_empty());
            assert!(retros.is_empty());
        }
        GridPatternOptions::Uniform(..) => panic!("expected a changing policy"),
    }
}

#[test]
fn default_changing_uses_intro_and_retro_signatures() {
    let r = GridPatternOptions::generate_default_changing(
        Intersections::Nothing,
        vec![Lines::Monocolor { color: RED, bent: false }],
    );
    match r {
        GridPatternOptions::Changing { intros, retros, .. } => {
            assert_eq!(intros, vec![vec![Angle::Left, Angle::Left, Angle::Left]]);
            assert_eq!(retros, vec![vec![Angle::Right, Angle::Right, Angle::Right]]);
        }
        GridPatternOptions::Uniform(..) => panic!("expected a changing policy"),
    }
}

#[test]
fn gen_changing_families() {
    let palettes = vec![vec![RED, BLUE], vec![BLUE]];
    let r = GridPatternOptions::gen_changing_monocolor(Intersections::Nothing, vec![RED, BLUE], true);
    match r {
        GridPatternOptions::Changing { variations, .. } => {
            assert_eq!(variations[0].1, Lines::Monocolor { color: RED, bent: true });
            assert_eq!(variations[1].1, Lines::Monocolor { color: BLUE, bent: true });
        }
        GridPatternOptions::Uniform(..) => panic!("expected a changing policy"),
    }
    let r = GridPatternOptions::gen_changing_gradient(Intersections::Nothing, palettes.clone(), false);
    match r {
        GridPatternOptions::Changing { variations, .. } => {
            assert_eq!(
                variations[0].1,
                Lines::Gradient { colors: vec![RED, BLUE], segments_per_color: 15, bent: false }
            );
        }
        GridPatternOptions::Uniform(..) => panic!("expected a changing policy"),
    }
    let r = GridPatternOptions::gen_changing_segment(
        Intersections::Nothing,
        palettes,
        Triangle::Nothing,
        CollisionOption::ParallelLines,
    );
    match r {
        GridPatternOptions::Changing { variations, .. } => {
            assert_eq!(
                variations[1].1,
                Lines::SegmentColors {
                    colors: vec![BLUE],
                    triangles: Triangle::Nothing,
                    collisions: CollisionOption::ParallelLines,
                }
            );
        }
        GridPatternOptions::Uniform(..) => panic!("expected a changing policy"),
    }
}

#[test]
fn palette_contents() {
    let d = palettes::default_palette();
    assert_eq!(d.len(), 4);
    assert_eq!(d[0], Color(214, 9, 177, 255));
    assert_eq!(d[3], Color(102, 110, 125, 255));
    assert_eq!(palettes::turbo().len(), 8);
    assert_eq!(palettes::turbo()[0], Color(63, 62, 156, 255));
    assert_eq!(palettes::dark2()[7], Color(102, 102, 102, 255));
    assert_eq!(palettes::tab10()[4], Color(140, 86, 75, 255));
    let all = palettes::all_palettes();
    assert_eq!(all.len(), 4);
    assert_eq!(all[0], d);
    assert_eq!(all[1], palettes::turbo());
    assert_eq!(all[2], palettes::dark2());
    assert_eq!(all[3], palettes::tab10());
}

#[test]
fn lines_duplicate_copies_contents() {
    let l = Lines::SegmentColors {
        colors: vec![RED, BLUE],
        triangles: Triangle::Match { radius: 160_000 },
        collisions: CollisionOption::Dashes(RED),
    };
    assert_eq!(l.duplicate(), l);
    let g = Lines::Gradient { colors: vec![BLUE], segments_per_color: 7, bent: true };
    assert_eq!(g.duplicate(), g);
}

#[test]
fn color_ordering_is_component_lexicographic() {
    assert!(Color(1, 200, 200, 200) < Color(2, 0, 0, 0));
    assert!(Color(1, 2, 3, 4) < Color(1, 2, 3, 5));
    assert_eq!(Color(9, 9, 9, 9), Color(9, 9, 9, 9));
}

#[test]
fn unit_u64_constant_matches_micro_units() {
    assert_eq!(UNIT, 1_000_000);
    assert_eq!(hex_grids::options::LINE_THICKNESS, 120_000);
    assert_eq!(hex_grids::options::SEGS_PER_COLOR, 15);
}

#[test]
fn radius_queries_need_no_colors() {
    // A color-less gradient still has a radius (of zero), and so does an
    // empty variation list.
    let g = Lines::Gradient { colors: vec![], segments_per_color: 15, bent: false };
    assert_eq!(g.get_max_radius(), 0);
    let po = GridPatternOptions::Changing { variations: vec![], intros: vec![], retros: vec![] };
    assert_eq!(po.get_max_radius(), 0);
    let options = GridOptions {
        line_thickness: 120_000,
        pattern_options: GridPatternOptions::Uniform(Intersections::Nothing, g),
        center_dot: Point::Nothing,
    };
    assert_eq!(options.get_max_radius(), 120_000);
}
