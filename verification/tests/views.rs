use chargrid_render::{
    AlignDirection, Alignment, AlignView, Border, BorderView, BoundView, CellView,
    FillBackgroundView, Grid, PadView, Rgb24, Size, Style, VerticalScrollView, ViewContext,
};
use chargrid_render::geometry::Coord;
use chargrid_render::text::{StringView, StringViewSingleLine, TextView, WrapCursor, WrapStyle};
use chargrid_render::vertical_scroll::{
    view_recomputing_limits, VerticalScrollLimits, VerticalScrollState,
};

fn default_context(width: u32, height: u32) -> ViewContext {
    ViewContext::default_with_size(Size::new(width, height))
}

fn row_string(grid: &Grid, y: i32, len: i32) -> String {
    let mut s = String::new();
    for x in 0..len {
        s.push(grid.get(Coord::new(x, y)).character);
    }
    s
}

#[test]
fn single_line_draws_characters_in_order() {
    let context = default_context(20, 20);
    let mut grid = Grid::new(Size::new(20, 20));
    let mut view = StringViewSingleLine::new(Style::new());
    view.view("abc", context, &mut grid);
    assert_eq!(row_string(&grid, 0, 3), "abc");
}

#[test]
fn single_line_reports_width_and_one_row() {
    let context = default_context(20, 20);
    let mut view = StringViewSingleLine::new(Style::new());
    assert_eq!(view.visible_bounds("hello", context), Size::new(5, 1));
}

#[test]
fn line_feed_advances_line_without_wrapping() {
    let context = default_context(20, 20);
    let mut grid = Grid::new(Size::new(20, 20));
    let mut view = StringView::new(Style::new(), WrapStyle::NoWrap);
    view.view("ab\ncd", context, &mut grid);
    assert_eq!(row_string(&grid, 0, 2), "ab");
    assert_eq!(row_string(&grid, 1, 2), "cd");
}

#[test]
fn word_wrap_keeps_words_whole() {
    // Width five: "ab cd" fills the first line exactly, "ef" starts the
    // next line.
    let context = default_context(5, 20);
    let mut grid = Grid::new(Size::new(20, 20));
    let mut view = StringView::new(Style::new(), WrapStyle::WordWrap);
    view.view("ab cd ef", context, &mut grid);
    assert_eq!(row_string(&grid, 0, 5), "ab cd");
    assert_eq!(row_string(&grid, 1, 2), "ef");
    assert_eq!(grid.get(Coord::new(2, 1)).character, ' ');
}

#[test]
fn word_wrap_measure_and_draw_agree() {
    let context = default_context(5, 20);
    let mut grid = Grid::new(Size::new(20, 20));
    let mut view = StringView::new(Style::new(), WrapStyle::WordWrap);
    let measured = view.visible_bounds("ab cd ef", context);
    let drawn = view.view_reporting_intended_size("ab cd ef", context, &mut grid);
    assert_eq!(measured, drawn);
    assert_eq!(measured, Size::new(5, 2));
}

#[test]
fn word_wrap_overlong_word_overflows_from_column_zero() {
    let context = default_context(3, 20);
    let mut grid = Grid::new(Size::new(20, 20));
    let mut view = StringView::new(Style::new(), WrapStyle::WordWrap);
    view.view("a verylong", context, &mut grid);
    assert_eq!(grid.get(Coord::new(0, 0)).character, 'a');
    // "verylong" cannot fit anywhere: it starts a fresh line at column
    // zero and overflows, and the context's window clips the overflow.
    assert_eq!(grid.get(Coord::new(2, 0)).character, ' ');
    assert_eq!(row_string(&grid, 1, 3), "ver");
    assert_eq!(grid.get(Coord::new(3, 1)).character, ' ');
}

#[test]
fn text_view_joins_parts_into_one_stream() {
    let context = default_context(20, 20);
    let mut grid = Grid::new(Size::new(20, 20));
    let mut view = TextView::new(Style::new(), WrapStyle::NoWrap);
    let parts = vec![String::from("ab"), String::from("cd")];
    view.view(&parts, context, &mut grid);
    assert_eq!(row_string(&grid, 0, 4), "abcd");
}

#[test]
fn pad_shifts_child_and_draws_nothing_itself() {
    let context = default_context(20, 20);
    let mut grid = Grid::new(Size::new(20, 20));
    let child = StringViewSingleLine::new(Style::new());
    let mut padded = PadView::new(child, 2, 1, 0, 0);
    padded.view("x", context, &mut grid);
    assert_eq!(grid.get(Coord::new(2, 1)).character, 'x');
    assert_eq!(grid.get(Coord::new(0, 0)).character, ' ');
}

#[test]
fn bound_clips_and_reports_fixed_size() {
    let context = default_context(20, 20);
    let mut grid = Grid::new(Size::new(20, 20));
    let child = StringViewSingleLine::new(Style::new());
    let mut bounded = BoundView::new(child, Size::new(2, 2));
    let reported = bounded.view_reporting_intended_size("abcdef", context, &mut grid);
    assert_eq!(reported, Size::new(2, 2));
    assert_eq!(row_string(&grid, 0, 2), "ab");
    // Writes beyond the bound are clipped.
    assert_eq!(grid.get(Coord::new(2, 0)).character, ' ');
    assert_eq!(bounded.visible_bounds("abcdef", context), Size::new(2, 2));
}

#[test]
fn align_centre_offsets_by_half_the_spare_space() {
    let context = default_context(10, 10);
    let mut grid = Grid::new(Size::new(10, 10));
    let child = StringViewSingleLine::new(Style::new());
    let alignment = Alignment { x: AlignDirection::Centre, y: AlignDirection::Start };
    let mut aligned = AlignView::new(child, alignment);
    aligned.view("ab", context, &mut grid);
    // (10 - 2) / 2 == 4.
    assert_eq!(grid.get(Coord::new(4, 0)).character, 'a');
    assert_eq!(grid.get(Coord::new(5, 0)).character, 'b');
}

#[test]
fn align_end_offsets_by_all_the_spare_space() {
    let context = default_context(10, 10);
    let mut grid = Grid::new(Size::new(10, 10));
    let child = StringViewSingleLine::new(Style::new());
    let alignment = Alignment { x: AlignDirection::End, y: AlignDirection::Start };
    let mut aligned = AlignView::new(child, alignment);
    aligned.view("ab", context, &mut grid);
    assert_eq!(grid.get(Coord::new(8, 0)).character, 'a');
    assert_eq!(grid.get(Coord::new(9, 0)).character, 'b');
}

#[test]
fn fill_background_paints_the_unwritten_cells() {
    let context = default_context(20, 20);
    let mut grid = Grid::new(Size::new(20, 20));
    let child = StringView::new(Style::new(), WrapStyle::NoWrap);
    let mut filled = FillBackgroundView::new(child, Rgb24::new(10, 20, 30));
    filled.view("ab\nc", context, &mut grid);
    // The child's own cells draw on top of the fill.
    assert_eq!(grid.get(Coord::new(0, 0)).character, 'a');
    // The cell the child never wrote keeps the fill's background.
    let unwritten = grid.get(Coord::new(1, 1));
    assert_eq!(unwritten.character, ' ');
    assert_eq!(unwritten.style.background, Some(Rgb24::new(10, 20, 30)));
}

#[test]
fn border_without_title_reports_child_plus_two() {
    let context = default_context(20, 20);
    let mut grid = Grid::new(Size::new(20, 20));
    let child = StringViewSingleLine::new(Style::new());
    let mut bordered = BorderView::new(child, Border::new());
    let reported = bordered.view_reporting_intended_size("abc", context, &mut grid);
    assert_eq!(reported, Size::new(5, 3));
    // Corners at the origin and at (w + 1, h + 1) for a 3x1 child.
    assert_eq!(grid.get(Coord::new(0, 0)).character, '┌');
    assert_eq!(grid.get(Coord::new(4, 0)).character, '┐');
    assert_eq!(grid.get(Coord::new(0, 2)).character, '└');
    assert_eq!(grid.get(Coord::new(4, 2)).character, '┘');
    assert_eq!(grid.get(Coord::new(1, 0)).character, '─');
    assert_eq!(grid.get(Coord::new(0, 1)).character, '│');
    assert_eq!(grid.get(Coord::new(1, 1)).character, 'a');
}

#[test]
fn border_title_sits_inline_in_the_top_edge() {
    let context = default_context(30, 20);
    let mut grid = Grid::new(Size::new(30, 20));
    let child = StringViewSingleLine::new(Style::new());
    let mut bordered = BorderView::new(child, Border::with_title(String::from("Hi")));
    bordered.view("abcdef", context, &mut grid);
    // Bracket glyphs at columns one and four, the title at two and three,
    // and the plain top edge resuming at five.
    assert_eq!(grid.get(Coord::new(1, 0)).character, '┤');
    assert_eq!(grid.get(Coord::new(2, 0)).character, 'H');
    assert_eq!(grid.get(Coord::new(3, 0)).character, 'i');
    assert_eq!(grid.get(Coord::new(4, 0)).character, '├');
    assert_eq!(grid.get(Coord::new(5, 0)).character, '─');
}

#[test]
fn border_padding_moves_the_child_and_widens_the_span() {
    let context = default_context(20, 20);
    let mut grid = Grid::new(Size::new(20, 20));
    let child = StringViewSingleLine::new(Style::new());
    let mut border = Border::new();
    border.padding.left = 1;
    border.padding.top = 1;
    let mut bordered = BorderView::new(child, border);
    bordered.view("ab", context, &mut grid);
    // One cell of border plus one cell of padding on the leading sides.
    assert_eq!(grid.get(Coord::new(2, 2)).character, 'a');
    assert_eq!(grid.get(Coord::new(3, 2)).character, 'b');
    // The far corner sits after the padding and the child.
    assert_eq!(grid.get(Coord::new(0, 0)).character, '┌');
    assert_eq!(grid.get(Coord::new(4, 0)).character, '┐');
    assert_eq!(grid.get(Coord::new(4, 3)).character, '┘');
}

#[test]
fn wrap_cursor_streams_and_clears() {
    let context = default_context(10, 10);
    let mut grid = Grid::new(Size::new(10, 10));
    let mut cursor = WrapCursor::new(WrapStyle::WordWrap);
    for ch in "hi you".chars() {
        cursor.process_character(ch, Style::new(), context, &mut grid);
    }
    cursor.flush(Style::new(), context, &mut grid);
    assert_eq!(row_string(&grid, 0, 6), "hi you");
    // After a clear the cursor starts over at the origin.
    cursor.clear();
    cursor.process_character('z', Style::new(), context, &mut grid);
    cursor.flush(Style::new(), context, &mut grid);
    assert_eq!(grid.get(Coord::new(0, 0)).character, 'z');
}

#[test]
fn titled_border_keeps_the_default_appearance() {
    let titled = Border::with_title(String::from("Hi"));
    let plain = Border::new();
    assert_eq!(titled.title.as_deref(), Some("Hi"));
    assert_eq!(titled.chars, plain.chars);
    assert_eq!(titled.padding, plain.padding);
    assert_eq!(titled.foreground_colour, plain.foreground_colour);
    assert_eq!(titled.background_colour, plain.background_colour);
    assert_eq!(titled.title_colour, plain.title_colour);
    assert!(!titled.bold_title && !titled.underline_title && !titled.bold_border);
}

#[test]
fn scroll_limits_floor_at_zero_and_commands_clamp() {
    let mut limits = VerticalScrollLimits::new();
    limits.update(10, 4);
    assert_eq!(limits.max_scroll, 6);
    limits.update(3, 4);
    assert_eq!(limits.max_scroll, 0);
    limits.update(10, 4);
    let mut state = VerticalScrollState::new();
    state.scroll_down_lines(limits, 100);
    assert_eq!(state.scroll_offset, 6);
    state.scroll_up_line();
    assert_eq!(state.scroll_offset, 5);
    state.scroll_to_top();
    assert_eq!(state.scroll_offset, 0);
    state.scroll_to_bottom(limits);
    assert_eq!(state.scroll_offset, 6);
    state.scroll_up_page(4);
    assert_eq!(state.scroll_offset, 2);
    state.scroll_down_page(limits, 4);
    assert_eq!(state.scroll_offset, 6);
}

#[test]
fn scroll_view_shifts_content_and_recomputes_limits() {
    let context = default_context(10, 2);
    let mut grid = Grid::new(Size::new(10, 2));
    let child = StringView::new(Style::new(), WrapStyle::NoWrap);
    let mut scrolled = VerticalScrollView::new(child);
    scrolled.state.scroll_offset = 1;
    let measured = view_recomputing_limits(&mut scrolled, "a\nb\nc\nd", context, &mut grid);
    // Measured under the scroll shift: three of the four lines remain.
    assert_eq!(measured.y, 3);
    // Content height four against a viewport of two leaves a limit of two.
    assert_eq!(scrolled.limits.max_scroll, 2);
    // Line "b" now sits on the top row, "a" scrolled out of the window.
    assert_eq!(grid.get(Coord::new(0, 0)).character, 'b');
    assert_eq!(grid.get(Coord::new(0, 1)).character, 'c');
}
