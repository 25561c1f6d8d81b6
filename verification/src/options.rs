//! Option types controlling how patterns are rendered.

mod draw_options;
mod pattern_grid_options;
pub mod palettes;

pub use draw_options::CollisionOption;
pub use draw_options::Color;
pub use draw_options::EndPoint;
pub use draw_options::Intersections;
pub use draw_options::Lines;
pub use draw_options::Marker;
pub use draw_options::OverloadOptions;
pub use draw_options::Point;
pub use draw_options::Triangle;
pub use draw_options::copy_colors;
pub use draw_options::endpoint_resolved;
pub use draw_options::endpoint_max_radius;
pub use draw_options::endpoint_wf;
pub use draw_options::intersections_max_radius;
pub use draw_options::lines_max_radius;
pub use draw_options::lines_wf;
pub use draw_options::lines_matches;
pub use draw_options::lines_has_color;
pub use draw_options::intersections_wf;
pub use draw_options::marker_wf;
pub use draw_options::point_wf;
pub use draw_options::point_max_radius;
pub use draw_options::triangle_max_radius;
pub use draw_options::triangle_wf;
pub use draw_options::triangle_middle_marker;
pub use draw_options::triangle_start_marker;
pub use pattern_grid_options::GridOptions;
pub use pattern_grid_options::GridPatternOptions;
pub use pattern_grid_options::grid_options_wf;
pub use pattern_grid_options::grid_options_radius_wf;
pub use pattern_grid_options::grid_options_max_radius;
pub use pattern_grid_options::pattern_options_wf;
pub use pattern_grid_options::pattern_options_radius_wf;
pub use pattern_grid_options::pattern_options_max_radius;
pub use pattern_grid_options::variations_of;
pub use pattern_grid_options::intros_of;
pub use pattern_grid_options::retros_of;
pub use pattern_grid_options::LINE_THICKNESS;
pub use pattern_grid_options::SEGS_PER_COLOR;
