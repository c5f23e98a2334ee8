use vstd::prelude::*;

use crate::cell::{Style, ViewCell};
use crate::colour::Rgb24;
use crate::context::ViewContext;
use crate::frame::{lemma_rel_effects_concat, lemma_rel_effects_push, rel_effects, Frame,
    RelativeWrite};
use crate::geometry::{coord_limit, Coord, Size};
use crate::view::CellView;

verus! {

/// The characters comprising a border.  By default, borders are made of
/// unicode box-drawing characters, but they can be changed to arbitrary
/// characters via this struct.
#[derive(Clone, PartialEq, Eq, Structural, Debug)]
pub struct BorderChars {
    pub top: char,
    pub bottom: char,
    pub left: char,
    pub right: char,
    pub top_left: char,
    pub top_right: char,
    pub bottom_left: char,
    pub bottom_right: char,
    pub before_title: char,
    pub after_title: char,
}

/// The default box-drawing glyph set.
pub open spec fn default_border_chars() -> BorderChars {
    BorderChars {
        top: '─',
        bottom: '─',
        left: '│',
        right: '│',
        top_left: '┌',
        top_right: '┐',
        bottom_left: '└',
        bottom_right: '┘',
        before_title: '┤',
        after_title: '├',
    }
}

impl Default for BorderChars {
    fn default() -> (r: BorderChars)
        ensures
            r == default_border_chars(),
    {
        BorderChars {
            top: '─',
            bottom: '─',
            left: '│',
            right: '│',
            top_left: '┌',
            top_right: '┐',
            bottom_left: '└',
            bottom_right: '┘',
            before_title: '┤',
            after_title: '├',
        }
    }
}

/// The space in cells between the edge of the bordered area and the
/// element inside.
#[derive(Clone, PartialEq, Eq, Structural, Debug)]
pub struct BorderPadding {
    pub top: u32,
    pub bottom: u32,
    pub left: u32,
    pub right: u32,
}

impl Default for BorderPadding {
    fn default() -> (r: BorderPadding)
        ensures
            r == (BorderPadding { top: 0, bottom: 0, left: 0, right: 0 }),
    {
        BorderPadding { top: 0, bottom: 0, left: 0, right: 0 }
    }
}

/// Decorates another element with a border.  It is possible to give the
/// border a title, in which case the text appears inline in the top edge,
/// between a pair of bracket glyphs, starting at column two.
#[derive(Clone, Debug)]
pub struct Border {
    pub title: Option<String>,
    pub padding: BorderPadding,
    pub chars: BorderChars,
    pub foreground_colour: Rgb24,
    pub background_colour: Rgb24,
    pub title_colour: Rgb24,
    pub bold_title: bool,
    pub underline_title: bool,
    pub bold_border: bool,
}

impl Border {
    pub fn new() -> (r: Border)
        ensures
            r.title is None,
            r.padding == (BorderPadding { top: 0, bottom: 0, left: 0, right: 0 }),
            r.chars == default_border_chars(),
            r.foreground_colour == (Rgb24 { r: 255, g: 255, b: 255 }),
            r.background_colour == (Rgb24 { r: 0, g: 0, b: 0 }),
            r.title_colour == (Rgb24 { r: 255, g: 255, b: 255 }),
            !r.bold_title && !r.underline_title && !r.bold_border,
    {
        Border {
            title: None,
            padding: BorderPadding { top: 0, bottom: 0, left: 0, right: 0 },
            chars: BorderChars::default(),
            foreground_colour: Rgb24 { r: 255, g: 255, b: 255 },
            background_colour: Rgb24 { r: 0, g: 0, b: 0 },
            title_colour: Rgb24 { r: 255, g: 255, b: 255 },
            bold_title: false,
            underline_title: false,
            bold_border: false,
        }
    }

    pub fn with_title(title: String) -> (r: Border)
        ensures
            r.title == Some(title),
            r.padding == (BorderPadding { top: 0, bottom: 0, left: 0, right: 0 }),
            r.chars == default_border_chars(),
            r.foreground_colour == (Rgb24 { r: 255, g: 255, b: 255 }),
            r.background_colour == (Rgb24 { r: 0, g: 0, b: 0 }),
            r.title_colour == (Rgb24 { r: 255, g: 255, b: 255 }),
            !r.bold_title && !r.underline_title && !r.bold_border,
    {
        Border { title: Some(title), ..Border::new() }
    }

    /// The style written on every border glyph.
    pub open spec fn border_style(self) -> Style {
        Style {
            foreground: Some(self.foreground_colour),
            background: Some(self.background_colour),
            bold: Some(self.bold_border),
            underline: Some(false),
        }
    }

    /// The style written on the title characters.
    pub open spec fn title_style(self) -> Style {
        Style {
            foreground: Some(self.title_colour),
            background: Some(self.background_colour),
            bold: Some(self.bold_title),
            underline: Some(self.underline_title),
        }
    }

    /// The title's length in unicode scalar values, or zero without one.
    pub open spec fn title_len(self) -> int {
        match self.title {
            Some(t) => t@.len() as int,
            None => 0,
        }
    }

    /// The columns the inline title consumes in the top edge: the text
    /// plus its two bracket glyphs.
    pub open spec fn title_offset(self) -> int {
        match self.title {
            Some(t) => t@.len() as int + 2,
            None => 0,
        }
    }
}

/// One border glyph write at `(x, y)` relative to the border's origin.
pub open spec fn border_write(b: Border, context: ViewContext, x: int, y: int, ch: char)
    -> RelativeWrite {
    RelativeWrite {
        coord: Coord { x: x as i32, y: y as i32 },
        depth: 0,
        cell: ViewCell { character: ch, style: b.border_style() },
        context,
    }
}

/// One title character write at `(x, 0)`.
pub open spec fn title_write(b: Border, context: ViewContext, x: int, ch: char) -> RelativeWrite {
    RelativeWrite {
        coord: Coord { x: x as i32, y: 0 },
        depth: 0,
        cell: ViewCell { character: ch, style: b.title_style() },
        context,
    }
}

/// The context the bordered child renders under: placed one cell plus the
/// padding inside the border's origin, with the window reduced
/// accordingly, floored at zero.  The placement goes through the outer
/// offset, so the child's measured natural size is not inflated by it.
pub open spec fn border_child_context(b: Border, context: ViewContext) -> ViewContext {
    ViewContext {
        outer_offset: Coord {
            x: (context.outer_offset.x + 1 + b.padding.left) as i32,
            y: (context.outer_offset.y + 1 + b.padding.top) as i32,
        },
        size: Size {
            x: if context.size.x >= 2 + b.padding.left + b.padding.right {
                (context.size.x - (2 + b.padding.left + b.padding.right)) as u32
            } else {
                0
            },
            y: if context.size.y >= 2 + b.padding.top + b.padding.bottom {
                (context.size.y - (2 + b.padding.top + b.padding.bottom)) as u32
            } else {
                0
            },
        },
        ..context
    }
}

/// The four corner glyphs, at the origin and at the far span.
pub open spec fn corner_writes(b: Border, context: ViewContext, span_x: int, span_y: int) -> Seq<
    RelativeWrite,
> {
    seq![
        border_write(b, context, 0, 0, b.chars.top_left),
        border_write(b, context, span_x, 0, b.chars.top_right),
        border_write(b, context, 0, span_y, b.chars.bottom_left),
        border_write(b, context, span_x, span_y, b.chars.bottom_right),
    ]
}

/// The inline title: its bracket glyphs at columns one and
/// `title length + 2`, then the title characters from column two.
pub open spec fn title_writes(b: Border, context: ViewContext, t: Seq<char>) -> Seq<
    RelativeWrite,
> {
    seq![
        border_write(b, context, 1, 0, b.chars.before_title),
        border_write(b, context, t.len() as int + 2, 0, b.chars.after_title),
    ] + Seq::new(t.len(), |i: int| title_write(b, context, i + 2, t[i]))
}

/// A horizontal run of `count` glyphs starting at column `start` of row
/// `y`.
pub open spec fn horizontal_writes(
    b: Border,
    context: ViewContext,
    start: int,
    count: int,
    y: int,
    ch: char,
) -> Seq<RelativeWrite> {
    Seq::new(
        if count >= 0 {
            count as nat
        } else {
            0
        },
        |i: int| border_write(b, context, start + i, y, ch),
    )
}

/// A vertical run of `count` glyphs starting at row one of column `x`.
pub open spec fn vertical_writes(b: Border, context: ViewContext, x: int, count: int, ch: char)
    -> Seq<RelativeWrite> {
    Seq::new(
        if count >= 0 {
            count as nat
        } else {
            0
        },
        |i: int| border_write(b, context, x, 1 + i, ch),
    )
}

/// Everything the border itself draws around a child of reported size
/// `child_size`: corners, the optional inline title, then the top, bottom,
/// left and right edges.
pub open spec fn border_own_writes(b: Border, context: ViewContext, child_size: Size) -> Seq<
    RelativeWrite,
> {
    let span_x = b.padding.left + b.padding.right + 1 + child_size.x;
    let span_y = b.padding.top + b.padding.bottom + 1 + child_size.y;
    let title_part = match b.title {
        Some(t) => title_writes(b, context, t@),
        None => seq![],
    };
    corner_writes(b, context, span_x, span_y) + title_part + horizontal_writes(
        b,
        context,
        1 + b.title_offset(),
        span_x - 1 - b.title_offset(),
        0,
        b.chars.top,
    ) + horizontal_writes(b, context, 1, span_x - 1, span_y, b.chars.bottom) + vertical_writes(
        b,
        context,
        0,
        span_y - 1,
        b.chars.left,
    ) + vertical_writes(b, context, span_x, span_y - 1, b.chars.right)
}

/// Decorates its child with a border: the child renders first, shifted in
/// by one cell plus the padding, and the border glyphs are drawn around
/// the span the child reported.
pub struct BorderView<V> {
    pub view: V,
    pub border: Border,
}

impl<V> BorderView<V> {
    pub fn new(view: V, border: Border) -> (r: BorderView<V>)
        ensures
            r.view == view,
            r.border == border,
    {
        BorderView { view, border }
    }
}

impl<T, V: CellView<T>> CellView<T> for BorderView<V> {
    open spec fn emitted(&self, data: T, context: ViewContext) -> Seq<RelativeWrite> {
        self.view.emitted(data, border_child_context(self.border, context)) + border_own_writes(
            self.border,
            context,
            self.view.reported_size(data, border_child_context(self.border, context)),
        )
    }

    open spec fn view_requires(&self, data: T, context: ViewContext) -> bool {
        let child_context = border_child_context(self.border, context);
        let child_size = self.view.reported_size(data, child_context);
        &&& self.border.padding.left + self.border.padding.right + 2 + child_size.x
            <= coord_limit()
        &&& self.border.padding.top + self.border.padding.bottom + 2 + child_size.y
            <= coord_limit()
        &&& self.border.title_len() + 2 <= coord_limit()
        &&& -coord_limit() <= context.outer_offset.x + 1 + self.border.padding.left
            <= coord_limit()
        &&& -coord_limit() <= context.outer_offset.y + 1 + self.border.padding.top
            <= coord_limit()
        &&& self.view.view_requires(data, child_context)
    }

    /// The border reports the child's natural size plus one cell per side.
    open spec fn reported_size(&self, data: T, context: ViewContext) -> Size {
        let child_size = self.view.reported_size(
            data,
            border_child_context(self.border, context),
        );
        Size { x: (child_size.x + 2) as u32, y: (child_size.y + 2) as u32 }
    }

    fn view<F: Frame>(&mut self, data: T, context: ViewContext, frame: &mut F) {
        border_view_impl(self, data, context, frame);
    }

    fn visible_bounds(&mut self, data: T, context: ViewContext) -> (r: Size) {
        let child_context = border_child_context_exec(&self.border, context);
        let child_size = self.view.visible_bounds(data, child_context);
        Size::new(child_size.x + 2, child_size.y + 2)
    }

    fn view_reporting_intended_size<F: Frame>(
        &mut self,
        data: T,
        context: ViewContext,
        frame: &mut F,
    ) -> (r: Size) {
        let child_size = border_view_impl(self, data, context, frame);
        Size::new(child_size.x + 2, child_size.y + 2)
    }
}

fn border_child_context_exec(border: &Border, context: ViewContext) -> (c: ViewContext)
    requires
        border.padding.left + border.padding.right + 2 <= coord_limit(),
        border.padding.top + border.padding.bottom + 2 <= coord_limit(),
        -coord_limit() <= context.outer_offset.x + 1 + border.padding.left <= coord_limit(),
        -coord_limit() <= context.outer_offset.y + 1 + border.padding.top <= coord_limit(),
    ensures
        c == border_child_context(*border, context),
        context.wf() ==> c.wf(),
{
    let horizontal = 2 + border.padding.left + border.padding.right;
    let vertical = 2 + border.padding.top + border.padding.bottom;
    let reduced = Size::new(
        if context.size.x >= horizontal {
            context.size.x - horizontal
        } else {
            0
        },
        if context.size.y >= vertical {
            context.size.y - vertical
        } else {
            0
        },
    );
    ViewContext {
        outer_offset: Coord::new(
            context.outer_offset.x + (1 + border.padding.left) as i32,
            context.outer_offset.y + (1 + border.padding.top) as i32,
        ),
        size: reduced,
        ..context
    }
}

/// Draw a horizontal run of border glyphs at row `y`, columns
/// `start..end`.
#[verifier::spinoff_prover]
fn draw_horizontal_run<F: Frame>(
    frame: &mut F,
    Ghost(b): Ghost<Border>,
    ch: char,
    style: Style,
    start: u32,
    end: u32,
    y: u32,
    context: ViewContext,
)
    requires
        (*old(frame)).inv(),
        context.wf(),
        style == b.border_style(),
        start <= coord_limit() + 1,
        end <= coord_limit(),
        y <= coord_limit(),
    ensures
        (*final(frame)).inv(),
        (*final(frame)).rel_log() == (*old(frame)).rel_log() + horizontal_writes(
            b,
            context,
            start as int,
            end as int - start as int,
            y as int,
            ch,
        ),
        (*final(frame)).writes() == (*old(frame)).writes() + rel_effects::<F>(
            horizontal_writes(b, context, start as int, end as int - start as int, y as int, ch),
        ),
{
    let ghost run = horizontal_writes(
        b,
        context,
        start as int,
        end as int - start as int,
        y as int,
        ch,
    );
    let ghost base_rel = (*frame).rel_log();
    let ghost base_writes = (*frame).writes();
    proof {
        assert(base_rel + run.take(0) =~= base_rel);
        assert(base_writes + rel_effects::<F>(run.take(0)) =~= base_writes);
    }
    if start < end {
        let mut x: u32 = start;
        while x < end
            invariant
                start <= x <= end,
                start <= coord_limit() + 1,
                end <= coord_limit(),
                y <= coord_limit(),
                context.wf(),
                style == b.border_style(),
                run == horizontal_writes(
                    b,
                    context,
                    start as int,
                    end as int - start as int,
                    y as int,
                    ch,
                ),
                (*frame).inv(),
                (*frame).rel_log() == base_rel + run.take(x - start),
                (*frame).writes() == base_writes + rel_effects::<F>(run.take(x - start)),
            decreases end - x,
        {
            frame.set_cell_relative(
                Coord::new(x as i32, y as i32),
                0,
                ViewCell { character: ch, style },
                context,
            );
            proof {
                let k = x - start;
                assert(run.take(k + 1) =~= run.take(k as int).push(run[k as int]));
                lemma_rel_effects_push::<F>(run.take(k as int), run[k as int]);
                assert((base_rel + run.take(k as int)).push(run[k as int]) =~= base_rel
                    + run.take(k + 1));
                assert((base_writes + rel_effects::<F>(run.take(k as int))) + F::rel_effect(
                    run[k as int],
                ) =~= base_writes + rel_effects::<F>(run.take(k + 1)));
            }
            x += 1;
        }
        proof {
            assert(run.take(end - start) =~= run);
        }
    } else {
        proof {
            assert(run =~= Seq::<RelativeWrite>::empty());
            assert(base_rel + run =~= base_rel);
            assert(base_writes + rel_effects::<F>(run) =~= base_writes);
        }
    }
}

/// Draw a vertical run of border glyphs at column `x`, rows `1..=count`.
#[verifier::spinoff_prover]
fn draw_vertical_run<F: Frame>(
    frame: &mut F,
    Ghost(b): Ghost<Border>,
    ch: char,
    style: Style,
    x: u32,
    span_y: u32,
    context: ViewContext,
)
    requires
        (*old(frame)).inv(),
        context.wf(),
        style == b.border_style(),
        x <= coord_limit(),
        span_y <= coord_limit(),
    ensures
        (*final(frame)).inv(),
        (*final(frame)).rel_log() == (*old(frame)).rel_log() + vertical_writes(
            b,
            context,
            x as int,
            span_y as int - 1,
            ch,
        ),
        (*final(frame)).writes() == (*old(frame)).writes() + rel_effects::<F>(
            vertical_writes(b, context, x as int, span_y as int - 1, ch),
        ),
{
    let ghost run = vertical_writes(b, context, x as int, span_y as int - 1, ch);
    let ghost base_rel = (*frame).rel_log();
    let ghost base_writes = (*frame).writes();
    proof {
        assert(base_rel + run.take(0) =~= base_rel);
        assert(base_writes + rel_effects::<F>(run.take(0)) =~= base_writes);
    }
    if 1 < span_y {
        let mut y: u32 = 1;
        while y < span_y
            invariant
                1 <= y <= span_y,
                x <= coord_limit(),
                span_y <= coord_limit(),
                context.wf(),
                style == b.border_style(),
                run == vertical_writes(b, context, x as int, span_y as int - 1, ch),
                (*frame).inv(),
                (*frame).rel_log() == base_rel + run.take(y - 1),
                (*frame).writes() == base_writes + rel_effects::<F>(run.take(y - 1)),
            decreases span_y - y,
        {
            frame.set_cell_relative(
                Coord::new(x as i32, y as i32),
                0,
                ViewCell { character: ch, style },
                context,
            );
            proof {
                let k = y - 1;
                assert(run.take(k + 1) =~= run.take(k as int).push(run[k as int]));
                lemma_rel_effects_push::<F>(run.take(k as int), run[k as int]);
                assert((base_rel + run.take(k as int)).push(run[k as int]) =~= base_rel
                    + run.take(k + 1));
                assert((base_writes + rel_effects::<F>(run.take(k as int))) + F::rel_effect(
                    run[k as int],
                ) =~= base_writes + rel_effects::<F>(run.take(k + 1)));
            }
            y += 1;
        }
        proof {
            assert(run.take(span_y as int - 1) =~= run);
        }
    } else {
        proof {
            assert(run =~= Seq::<RelativeWrite>::empty());
            assert(base_rel + run =~= base_rel);
            assert(base_writes + rel_effects::<F>(run) =~= base_writes);
        }
    }
}

/// Draw the child shifted inside the border, then the border itself around
/// the span the child reported; returns the child's reported size.
#[verifier::rlimit(100)]
#[verifier::spinoff_prover]
fn border_view_impl<T, V: CellView<T>, F: Frame>(
    bordered: &mut BorderView<V>,
    data: T,
    context: ViewContext,
    frame: &mut F,
) -> (r: Size)
    requires
        (*old(frame)).inv(),
        context.wf(),
        (*old(bordered)).view_requires(data, context),
    ensures
        *final(bordered) == *old(bordered),
        (*final(frame)).inv(),
        (*final(frame)).rel_log() == (*old(frame)).rel_log() + (*old(bordered)).emitted(
            data,
            context,
        ),
        (*final(frame)).writes() == (*old(frame)).writes() + rel_effects::<F>(
            (*old(bordered)).emitted(data, context),
        ),
        r == (*old(bordered)).view.reported_size(
            data,
            border_child_context((*old(bordered)).border, context),
        ),
{
    let ghost base_rel = (*frame).rel_log();
    let ghost base_writes = (*frame).writes();
    let child_context = border_child_context_exec(&bordered.border, context);
    let child_size = bordered.view.view_reporting_intended_size(data, child_context, frame);
    let ghost bb = (*old(bordered)).border;
    let ghost mut done = (*old(bordered)).view.emitted(data, border_child_context(bb, context));

    let span_x: u32 = bordered.border.padding.left + bordered.border.padding.right + 1
        + child_size.x;
    let span_y: u32 = bordered.border.padding.top + bordered.border.padding.bottom + 1
        + child_size.y;
    let border_style = Style {
        foreground: Some(bordered.border.foreground_colour),
        background: Some(bordered.border.background_colour),
        bold: Some(bordered.border.bold_border),
        underline: Some(false),
    };
    let top_char = bordered.border.chars.top;
    let bottom_char = bordered.border.chars.bottom;
    let left_char = bordered.border.chars.left;
    let right_char = bordered.border.chars.right;

    // Corners.
    frame.set_cell_relative(
        Coord::new(0, 0),
        0,
        ViewCell { character: bordered.border.chars.top_left, style: border_style },
        context,
    );
    frame.set_cell_relative(
        Coord::new(span_x as i32, 0),
        0,
        ViewCell { character: bordered.border.chars.top_right, style: border_style },
        context,
    );
    frame.set_cell_relative(
        Coord::new(0, span_y as i32),
        0,
        ViewCell { character: bordered.border.chars.bottom_left, style: border_style },
        context,
    );
    frame.set_cell_relative(
        Coord::new(span_x as i32, span_y as i32),
        0,
        ViewCell { character: bordered.border.chars.bottom_right, style: border_style },
        context,
    );
    proof {
        let corners = corner_writes(bb, context, span_x as int, span_y as int);
        lemma_rel_effects_push::<F>(done, corners[0]);
        lemma_rel_effects_push::<F>(done.push(corners[0]), corners[1]);
        lemma_rel_effects_push::<F>(done.push(corners[0]).push(corners[1]), corners[2]);
        lemma_rel_effects_push::<F>(
            done.push(corners[0]).push(corners[1]).push(corners[2]),
            corners[3],
        );
        assert(done.push(corners[0]).push(corners[1]).push(corners[2]).push(corners[3]) =~= done
            + corners);
        done = done + corners;
        assert((*frame).rel_log() =~= base_rel + done);
        assert((*frame).writes() =~= base_writes + rel_effects::<F>(done));
    }

    // The optional inline title: its brackets, then its characters.
    let title_offset: u32 = match &bordered.border.title {
        Some(title) => {
            let title_str = title.as_str();
            let title_len = title_str.unicode_len();
            frame.set_cell_relative(
                Coord::new(1, 0),
                0,
                ViewCell { character: bordered.border.chars.before_title, style: border_style },
                context,
            );
            frame.set_cell_relative(
                Coord::new((title_len as u32 + 2) as i32, 0),
                0,
                ViewCell { character: bordered.border.chars.after_title, style: border_style },
                context,
            );
            let title_style = Style {
                foreground: Some(bordered.border.title_colour),
                background: Some(bordered.border.background_colour),
                bold: Some(bordered.border.bold_title),
                underline: Some(bordered.border.underline_title),
            };
            let ghost tw = title_writes(bb, context, title_str@);
            proof {
                lemma_rel_effects_push::<F>(done, tw[0]);
                lemma_rel_effects_push::<F>(done.push(tw[0]), tw[1]);
                done = done.push(tw[0]).push(tw[1]);
                assert((*frame).rel_log() =~= base_rel + done);
                assert((*frame).writes() =~= base_writes + rel_effects::<F>(done));
            }
            let ghost chars_seq = Seq::new(
                title_str@.len(),
                |i: int| title_write(bb, context, i + 2, title_str@[i]),
            );
            proof {
                assert(done + chars_seq.take(0) =~= done);
            }
            let mut i: usize = 0;
            while i < title_len
                invariant
                    0 <= i <= title_len,
                    title_len == title_str@.len(),
                    title_len + 2 <= coord_limit(),
                    context.wf(),
                    title_style == bb.title_style(),
                    chars_seq == Seq::new(
                        title_str@.len(),
                        |i: int| title_write(bb, context, i + 2, title_str@[i]),
                    ),
                    (*frame).inv(),
                    (*frame).rel_log() == base_rel + (done + chars_seq.take(i as int)),
                    (*frame).writes() == base_writes + rel_effects::<F>(
                        done + chars_seq.take(i as int),
                    ),
                decreases title_len - i,
            {
                let ch = title_str.get_char(i);
                frame.set_cell_relative(
                    Coord::new((i + 2) as i32, 0),
                    0,
                    ViewCell { character: ch, style: title_style },
                    context,
                );
                proof {
                    assert(chars_seq.take(i + 1) =~= chars_seq.take(i as int).push(
                        chars_seq[i as int],
                    ));
                    lemma_rel_effects_push::<F>(
                        done + chars_seq.take(i as int),
                        chars_seq[i as int],
                    );
                    assert((done + chars_seq.take(i as int)).push(chars_seq[i as int]) =~= done
                        + chars_seq.take(i + 1));
                    assert((base_rel + (done + chars_seq.take(i as int))).push(
                        chars_seq[i as int],
                    ) =~= base_rel + (done + chars_seq.take(i + 1)));
                    assert((base_writes + rel_effects::<F>(done + chars_seq.take(i as int)))
                        + F::rel_effect(chars_seq[i as int]) =~= base_writes + rel_effects::<F>(
                        done + chars_seq.take(i + 1),
                    ));
                }
                i += 1;
            }
            proof {
                assert(chars_seq.take(title_len as int) =~= chars_seq);
                assert(done + chars_seq =~= (*old(bordered)).view.emitted(
                    data,
                    border_child_context(bb, context),
                ) + corner_writes(bb, context, span_x as int, span_y as int) + title_writes(
                    bb,
                    context,
                    title_str@,
                ));
                done = done + chars_seq;
                assert((*frame).rel_log() =~= base_rel + done);
                assert((*frame).writes() =~= base_writes + rel_effects::<F>(done));
            }
            title_len as u32 + 2
        },
        None => 0,
    };

    // Top edge, resuming after the title; then the bottom, left and right
    // edges.
    let ghost top_seq = horizontal_writes(
        bb,
        context,
        1 + bb.title_offset(),
        span_x as int - 1 - bb.title_offset(),
        0,
        bb.chars.top,
    );
    let start_x: u32 = 1 + title_offset;
    draw_horizontal_run(frame, Ghost(bb), top_char, border_style, start_x, span_x, 0, context);
    proof {
        assert(top_seq == horizontal_writes(
            bb,
            context,
            start_x as int,
            span_x as int - start_x as int,
            0,
            bb.chars.top,
        ));
        assert((base_rel + done) + top_seq =~= base_rel + (done + top_seq));
        lemma_rel_effects_concat::<F>(done, top_seq);
        assert((base_writes + rel_effects::<F>(done)) + rel_effects::<F>(top_seq) =~= base_writes
            + rel_effects::<F>(done + top_seq));
        done = done + top_seq;
    }

    let ghost bottom_seq = horizontal_writes(
        bb,
        context,
        1,
        span_x as int - 1,
        span_y as int,
        bb.chars.bottom,
    );
    draw_horizontal_run(frame, Ghost(bb), bottom_char, border_style, 1, span_x, span_y, context);
    proof {
        assert((base_rel + done) + bottom_seq =~= base_rel + (done + bottom_seq));
        lemma_rel_effects_concat::<F>(done, bottom_seq);
        assert((base_writes + rel_effects::<F>(done)) + rel_effects::<F>(bottom_seq)
            =~= base_writes + rel_effects::<F>(done + bottom_seq));
        done = done + bottom_seq;
    }

    let ghost left_seq = vertical_writes(bb, context, 0, span_y as int - 1, bb.chars.left);
    draw_vertical_run(frame, Ghost(bb), left_char, border_style, 0, span_y, context);
    proof {
        assert((base_rel + done) + left_seq =~= base_rel + (done + left_seq));
        lemma_rel_effects_concat::<F>(done, left_seq);
        assert((base_writes + rel_effects::<F>(done)) + rel_effects::<F>(left_seq) =~= base_writes
            + rel_effects::<F>(done + left_seq));
        done = done + left_seq;
    }

    let ghost right_seq = vertical_writes(
        bb,
        context,
        span_x as int,
        span_y as int - 1,
        bb.chars.right,
    );
    draw_vertical_run(frame, Ghost(bb), right_char, border_style, span_x, span_y, context);
    proof {
        assert((base_rel + done) + right_seq =~= base_rel + (done + right_seq));
        lemma_rel_effects_concat::<F>(done, right_seq);
        assert((base_writes + rel_effects::<F>(done)) + rel_effects::<F>(right_seq)
            =~= base_writes + rel_effects::<F>(done + right_seq));
        done = done + right_seq;
        assert(done =~= (*old(bordered)).emitted(data, context));
    }

    child_size
}

} // verus!
