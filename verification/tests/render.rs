use chargrid_render::{
    ColModify, Coord, Frame, Grid, MeasureBounds, MeasureBoundsAndDraw, Rgb24, Size, Style,
    ViewCell, ViewContext,
};

fn default_context(width: u32, height: u32) -> ViewContext {
    ViewContext::default_with_size(Size::new(width, height))
}

#[test]
fn coord_arithmetic() {
    let a = Coord::new(3, -2);
    let b = Coord::new(-1, 5);
    let sum = a.add(b);
    assert_eq!(sum, Coord::new(2, 3));
    let diff = a.sub(b);
    assert_eq!(diff, Coord::new(4, -7));
    assert_eq!(a.min(b), Coord::new(-1, -2));
    assert_eq!(a.max(b), Coord::new(3, 5));
}

#[test]
fn coord_is_valid_window() {
    let size = Size::new(3, 2);
    assert!(Coord::new(0, 0).is_valid(size));
    assert!(Coord::new(2, 1).is_valid(size));
    assert!(!Coord::new(3, 1).is_valid(size));
    assert!(!Coord::new(2, 2).is_valid(size));
    assert!(!Coord::new(-1, 0).is_valid(size));
}

#[test]
fn coord_to_size_rejects_negative_extent() {
    assert_eq!(Coord::new(4, 7).to_size(), Ok(Size::new(4, 7)));
    assert!(Coord::new(-1, 7).to_size().is_err());
    assert!(Coord::new(4, -1).to_size().is_err());
}

#[test]
fn style_merge_override_wins_and_unset_falls_through() {
    let base = Style::new()
        .with_foreground(Rgb24::new(1, 2, 3))
        .with_bold(false);
    let over = Style::new().with_bold(true).with_underline(true);
    let merged = base.merge(over);
    assert_eq!(merged.foreground, Some(Rgb24::new(1, 2, 3)));
    assert_eq!(merged.background, None);
    assert_eq!(merged.bold, Some(true));
    assert_eq!(merged.underline, Some(true));
}

#[test]
fn default_cell_is_space() {
    let c = ViewCell::new();
    assert_eq!(c.character, ' ');
    assert_eq!(c.style, Style::new());
}

#[test]
fn quantization_is_deterministic() {
    let c = Rgb24::new(200, 40, 90);
    let first = chargrid_render::colour::nearest16_index(c);
    let second = chargrid_render::colour::nearest16_index(c);
    assert_eq!(first, second);
}

#[test]
fn quantization_known_values() {
    assert_eq!(chargrid_render::colour::nearest16_index(Rgb24::new(0, 0, 0)), 0);
    assert_eq!(chargrid_render::colour::nearest16_index(Rgb24::new(255, 0, 0)), 9);
    assert_eq!(chargrid_render::colour::nearest16_index(Rgb24::new(128, 128, 128)), 8);
    assert_eq!(chargrid_render::colour::nearest16_index(Rgb24::new(255, 255, 255)), 15);
}

#[test]
fn greyscale_uses_weighted_luminance() {
    let grey = ColModify::Greyscale.modify(Rgb24::new(100, 100, 100));
    assert_eq!(grey, Rgb24::new(100, 100, 100));
    let red = ColModify::Greyscale.modify(Rgb24::new(255, 0, 0));
    // 299 * 255 / 1000 == 76
    assert_eq!(red, Rgb24::new(76, 76, 76));
    let ident = ColModify::Identity.modify(Rgb24::new(9, 8, 7));
    assert_eq!(ident, Rgb24::new(9, 8, 7));
}

#[test]
fn context_derivations() {
    let context = default_context(10, 8);
    let constrained = context.constrain_size_to(Size::new(4, 20));
    assert_eq!(constrained.size, Size::new(4, 8));
    let shifted = context.add_offset(Coord::new(2, 3));
    assert_eq!(shifted.inner_offset, Coord::new(2, 3));
    let deeper = context.add_depth(5);
    assert_eq!(deeper.depth, 5);
    let transformed = context.with_col_modify(ColModify::Nearest16);
    assert_eq!(transformed.col_modify, ColModify::Nearest16);
}

#[test]
fn measure_bounds_tracks_maximum() {
    let context = default_context(10, 10);
    let mut measure = MeasureBounds::new();
    measure.set_cell_relative(Coord::new(2, 3), 0, ViewCell::new(), context);
    measure.set_cell_relative(Coord::new(1, 1), 0, ViewCell::new(), context);
    assert_eq!(measure.bounds(Coord::new(0, 0)), Size::new(3, 4));
}

#[test]
fn measure_bounds_untouched_reports_unit() {
    let measure = MeasureBounds::new();
    assert_eq!(measure.bounds(Coord::new(0, 0)), Size::new(1, 1));
}

#[test]
fn measure_bounds_ignores_clipping() {
    // The visible window is tiny, but measurement reports the intended
    // extent regardless of clipping.
    let context = default_context(2, 2);
    let mut measure = MeasureBounds::new();
    measure.set_cell_relative(Coord::new(7, 5), 0, ViewCell::new(), context);
    assert_eq!(measure.bounds(Coord::new(0, 0)), Size::new(8, 6));
}

#[test]
fn clipping_drops_out_of_window_writes() {
    let context = default_context(3, 3);
    let mut grid = Grid::new(Size::new(10, 10));
    let cell = ViewCell::with_character('x', Style::new());
    // Outside the context window: dropped silently.
    grid.set_cell_relative(Coord::new(5, 5), 0, cell, context);
    assert_eq!(grid.get(Coord::new(5, 5)).character, ' ');
    // Inside the window: lands at the same coordinate under identity offsets.
    grid.set_cell_relative(Coord::new(1, 2), 0, cell, context);
    assert_eq!(grid.get(Coord::new(1, 2)).character, 'x');
}

#[test]
fn clipping_applies_after_inner_offset() {
    let context = default_context(3, 3).add_offset(Coord::new(2, 0));
    let mut grid = Grid::new(Size::new(10, 10));
    let cell = ViewCell::with_character('y', Style::new());
    // Relative (2, 0) is shifted to (4, 0), outside the 3x3 window.
    grid.set_cell_relative(Coord::new(2, 0), 0, cell, context);
    assert_eq!(grid.get(Coord::new(4, 0)).character, ' ');
    // Relative (0, 1) is shifted to (2, 1), inside the window.
    grid.set_cell_relative(Coord::new(0, 1), 0, cell, context);
    assert_eq!(grid.get(Coord::new(2, 1)).character, 'y');
}

#[test]
fn depth_compositing_highest_wins_later_ties_win() {
    let mut grid = Grid::new(Size::new(4, 4));
    let a = ViewCell::with_character('a', Style::new());
    let b = ViewCell::with_character('b', Style::new());
    let c = ViewCell::with_character('c', Style::new());
    grid.set_cell_absolute(Coord::new(1, 1), 5, a);
    // Lower depth arrives later: the earlier, deeper write survives.
    grid.set_cell_absolute(Coord::new(1, 1), 3, b);
    assert_eq!(grid.get(Coord::new(1, 1)).character, 'a');
    // Equal depth arrives later: the later write wins.
    grid.set_cell_absolute(Coord::new(1, 1), 5, c);
    assert_eq!(grid.get(Coord::new(1, 1)).character, 'c');
    assert_eq!(grid.get_depth(Coord::new(1, 1)), 5);
}

#[test]
fn measure_and_draw_in_one_traversal() {
    let context = default_context(10, 10);
    let grid = Grid::new(Size::new(10, 10));
    let mut combined = MeasureBoundsAndDraw::new(grid);
    let cell = ViewCell::with_character('q', Style::new());
    combined.set_cell_relative(Coord::new(3, 2), 0, cell, context);
    assert_eq!(combined.bounds(Coord::new(0, 0)), Size::new(4, 3));
    // The write also reached the wrapped frame.
    assert_eq!(combined.frame.get(Coord::new(3, 2)).character, 'q');
}

#[test]
fn combined_sink_measures_direct_absolute_writes() {
    // A direct absolute write reaches both the wrapped frame and the
    // internal measure, exactly as a bare measuring sink would see it.
    let grid = Grid::new(Size::new(10, 10));
    let mut combined = MeasureBoundsAndDraw::new(grid);
    let cell = ViewCell::with_character('m', Style::new());
    combined.set_cell_absolute(Coord::new(2, 2), 0, cell);
    assert_eq!(combined.bounds(Coord::new(0, 0)), Size::new(3, 3));
    let mut bare = MeasureBounds::new();
    bare.set_cell_absolute(Coord::new(2, 2), 0, cell);
    assert_eq!(bare.bounds(Coord::new(0, 0)), Size::new(3, 3));
    assert_eq!(combined.frame.get(Coord::new(2, 2)).character, 'm');
}

#[test]
fn free_draw_and_measure_interpretations() {
    let context = default_context(3, 3).add_offset(Coord::new(1, 0));
    let mut grid = Grid::new(Size::new(10, 10));
    let cell = ViewCell::with_character('w', Style::new());
    // The drawing interpretation clips against the window.
    chargrid_render::frame::set_cell_relative_to_draw(&mut grid, Coord::new(1, 0), 0, cell, context);
    assert_eq!(grid.get(Coord::new(2, 0)).character, 'w');
    chargrid_render::frame::set_cell_relative_to_draw(&mut grid, Coord::new(2, 0), 0, cell, context);
    assert_eq!(grid.get(Coord::new(3, 0)).character, ' ');
    // The measuring interpretation records the unclipped position.
    let mut measure = MeasureBounds::new();
    chargrid_render::frame::set_cell_relative_to_measure_size(&mut measure, Coord::new(6, 1), context);
    assert_eq!(measure.bounds(Coord::new(0, 0)), Size::new(8, 2));
}

#[test]
fn colour_transform_applies_at_the_sink() {
    let context = default_context(5, 5).with_col_modify(ColModify::Greyscale);
    let mut grid = Grid::new(Size::new(5, 5));
    let cell = ViewCell::with_character(
        'z',
        Style::new().with_foreground(Rgb24::new(255, 0, 0)),
    );
    grid.set_cell_relative(Coord::new(0, 0), 0, cell, context);
    let stored = grid.get(Coord::new(0, 0));
    assert_eq!(stored.style.foreground, Some(Rgb24::new(76, 76, 76)));
}
