//! Built-in color palettes for patterns.

use vstd::prelude::*;

use crate::options::draw_options::Color;

verus! {

/// The colors of the default palette.
pub open spec fn default_palette_spec() -> Seq<Color> {
    seq![
        Color(214, 9, 177, 255),
        Color(108, 25, 140, 255),
        Color(50, 102, 207, 255),
        Color(102, 110, 125, 255),
    ]
}

/// The colors of the turbo palette.
pub open spec fn turbo_spec() -> Seq<Color> {
    seq![
        Color(63, 62, 156, 255),
        Color(65, 150, 255, 255),
        Color(25, 227, 185, 255),
        Color(132, 255, 81, 255),
        Color(223, 223, 55, 255),
        Color(253, 141, 39, 255),
        Color(214, 53, 6, 255),
        Color(122, 4, 3, 255),
    ]
}

/// The colors of the dark2 palette.
pub open spec fn dark2_spec() -> Seq<Color> {
    seq![
        Color(27, 158, 119, 255),
        Color(217, 95, 2, 255),
        Color(117, 112, 179, 255),
        Color(231, 41, 138, 255),
        Color(102, 166, 30, 255),
        Color(230, 171, 2, 255),
        Color(166, 118, 29, 255),
        Color(102, 102, 102, 255),
    ]
}

/// The colors of the tab10 palette.
pub open spec fn tab10_spec() -> Seq<Color> {
    seq![
        Color(31, 119, 180, 255),
        Color(255, 127, 14, 255),
        Color(44, 160, 44, 255),
        Color(148, 103, 189, 255),
        Color(140, 86, 75, 255),
        Color(127, 127, 127, 255),
        Color(188, 189, 34, 255),
        Color(23, 190, 207, 255),
    ]
}

/// The default palette.
pub fn default_palette() -> (r: Vec<Color>)
    ensures
        r@ == default_palette_spec(),
{
    let r: Vec<Color> = vec![
        Color(214, 9, 177, 255),
        Color(108, 25, 140, 255),
        Color(50, 102, 207, 255),
        Color(102, 110, 125, 255),
    ];
    proof {
        assert(r@ =~= default_palette_spec());
    }
    r
}

/// The turbo palette.
pub fn turbo() -> (r: Vec<Color>)
    ensures
        r@ == turbo_spec(),
{
    let r: Vec<Color> = vec![
        Color(63, 62, 156, 255),
        Color(65, 150, 255, 255),
        Color(25, 227, 185, 255),
        Color(132, 255, 81, 255),
        Color(223, 223, 55, 255),
        Color(253, 141, 39, 255),
        Color(214, 53, 6, 255),
        Color(122, 4, 3, 255),
    ];
    proof {
        assert(r@ =~= turbo_spec());
    }
    r
}

/// The dark2 palette.
pub fn dark2() -> (r: Vec<Color>)
    ensures
        r@ == dark2_spec(),
{
    let r: Vec<Color> = vec![
        Color(27, 158, 119, 255),
        Color(217, 95, 2, 255),
        Color(117, 112, 179, 255),
        Color(231, 41, 138, 255),
        Color(102, 166, 30, 255),
        Color(230, 171, 2, 255),
        Color(166, 118, 29, 255),
        Color(102, 102, 102, 255),
    ];
    proof {
        assert(r@ =~= dark2_spec());
    }
    r
}

/// The tab10 palette.
pub fn tab10() -> (r: Vec<Color>)
    ensures
        r@ == tab10_spec(),
{
    let r: Vec<Color> = vec![
        Color(31, 119, 180, 255),
        Color(255, 127, 14, 255),
        Color(44, 160, 44, 255),
        Color(148, 103, 189, 255),
        Color(140, 86, 75, 255),
        Color(127, 127, 127, 255),
        Color(188, 189, 34, 255),
        Color(23, 190, 207, 255),
    ];
    proof {
        assert(r@ =~= tab10_spec());
    }
    r
}

/// Every built-in palette: default, turbo, dark2 and tab10, in that order.
pub fn all_palettes() -> (r: Vec<Vec<Color>>)
    ensures
        r@.len() == 4,
        r@[0]@ == default_palette_spec(),
        r@[1]@ == turbo_spec(),
        r@[2]@ == dark2_spec(),
        r@[3]@ == tab10_spec(),
{
    vec![default_palette(), turbo(), dark2(), tab10()]
}

} // verus!
