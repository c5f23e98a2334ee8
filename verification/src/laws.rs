use vstd::prelude::*;

use crate::border::{
    border_child_context, border_own_writes, border_write, corner_writes, title_write,
    title_writes, Border, BorderPadding, BorderView,
};
use crate::context::ViewContext;
use crate::frame::{
    adjusted_coord, draw_effect_spec, draw_write_spec, measure_writes_of, rel_write_visible,
    AbsoluteWrite, RelativeWrite,
};
use crate::geometry::{is_valid_spec, Size};
use crate::view::CellView;

verus! {

/// The clipping law: a relative write reaches a drawing sink iff its
/// coordinate shifted by the inner offset lies in `[0, size)` on both
/// axes; a write that passes lands exactly once, translated by the outer
/// offset, with the depth raised by the context's, and an out-of-window
/// write is dropped silently, not reported as an error.
pub proof fn lemma_clipping(w: RelativeWrite)
    ensures
        rel_write_visible(w) <==> is_valid_spec(adjusted_coord(w), w.context.size),
        rel_write_visible(w) ==> draw_effect_spec(w) == seq![draw_write_spec(w)],
        !rel_write_visible(w) ==> draw_effect_spec(w) == Seq::<AbsoluteWrite>::empty(),
{
    if !rel_write_visible(w) {
        assert(draw_effect_spec(w) =~= Seq::<AbsoluteWrite>::empty());
    }
}

/// A measuring sink records every write, clipped or not, one for one: its
/// report is the intended extent, independent of the visible window.
pub proof fn lemma_measure_records_all(ws: Seq<RelativeWrite>)
    ensures
        measure_writes_of(ws).len() == ws.len(),
{
}

/// A border without a title around a child of natural size `(w, h)`: its
/// own glyphs start with the four corners, at the border's origin, at
/// `(w + 1, 0)`, at `(0, h + 1)` and at `(w + 1, h + 1)`.
pub proof fn lemma_border_plain_corners(b: Border, context: ViewContext, child_size: Size)
    requires
        b.title is None,
        b.padding == (BorderPadding { top: 0, bottom: 0, left: 0, right: 0 }),
    ensures
        border_own_writes(b, context, child_size)[0] == border_write(
            b,
            context,
            0,
            0,
            b.chars.top_left,
        ),
        border_own_writes(b, context, child_size)[1] == border_write(
            b,
            context,
            child_size.x + 1,
            0,
            b.chars.top_right,
        ),
        border_own_writes(b, context, child_size)[2] == border_write(
            b,
            context,
            0,
            child_size.y + 1,
            b.chars.bottom_left,
        ),
        border_own_writes(b, context, child_size)[3] == border_write(
            b,
            context,
            child_size.x + 1,
            child_size.y + 1,
            b.chars.bottom_right,
        ),
{
    let span_x = b.padding.left + b.padding.right + 1 + child_size.x;
    let span_y = b.padding.top + b.padding.bottom + 1 + child_size.y;
    let corners = corner_writes(b, context, span_x as int, span_y as int);
    assert forall|i: int| 0 <= i < 4 implies border_own_writes(b, context, child_size)[i]
        == corners[i] by {
    }
}

/// A border reports its child's natural size plus one cell per side:
/// for a child of natural size `(w, h)` the bordered element's size, as
/// both derived operations return it, is `(w + 2, h + 2)`.
pub proof fn lemma_border_reported_size<T, V: CellView<T>>(
    bordered: BorderView<V>,
    data: T,
    context: ViewContext,
)
    requires
        bordered.view.reported_size(data, border_child_context(bordered.border, context)).x + 2
            <= u32::MAX,
        bordered.view.reported_size(data, border_child_context(bordered.border, context)).y + 2
            <= u32::MAX,
    ensures
        bordered.reported_size(data, context).x == bordered.view.reported_size(
            data,
            border_child_context(bordered.border, context),
        ).x + 2,
        bordered.reported_size(data, context).y == bordered.view.reported_size(
            data,
            border_child_context(bordered.border, context),
        ).y + 2,
{
}

/// A border with a title lays the title out inline in the top edge: the
/// opening bracket glyph at column one, the title's characters from column
/// two, the closing bracket at the column after the title, and the plain
/// top-edge glyphs resume only after it.
pub proof fn lemma_border_title_layout(b: Border, context: ViewContext, t: Seq<char>)
    requires
        b.title matches Some(s) && s@ == t,
    ensures
        title_writes(b, context, t)[0] == border_write(b, context, 1, 0, b.chars.before_title),
        title_writes(b, context, t)[1] == border_write(
            b,
            context,
            t.len() as int + 2,
            0,
            b.chars.after_title,
        ),
        forall|i: int|
            0 <= i < t.len() ==> #[trigger] title_writes(b, context, t)[2 + i] == title_write(
                b,
                context,
                i + 2,
                t[i],
            ),
        b.title_offset() == t.len() + 2,
{
    assert forall|i: int| 0 <= i < t.len() implies #[trigger] title_writes(b, context, t)[2 + i]
        == title_write(b, context, i + 2, t[i]) by {
    }
}

/// Colour quantization is deterministic: the nearest palette index is a
/// function of the 24-bit input alone, so the same input always yields the
/// same palette entry, in every render and on every machine.
pub proof fn lemma_quantization_deterministic(
    c: crate::colour::Rgb24,
    first: int,
    second: int,
)
    requires
        first == crate::colour::nearest16_index_spec(c),
        second == crate::colour::nearest16_index_spec(c),
    ensures
        first == second,
{
}

} // verus!
