use vstd::prelude::*;

use crate::cell::{Style, ViewCell};
use crate::colour::Rgb24;
use crate::context::ViewContext;
use crate::frame::{lemma_rel_effects_concat, lemma_rel_effects_push, rel_effects, Frame,
    RelativeWrite};
use crate::geometry::{coord_limit, Size};
use crate::view::CellView;

verus! {

/// The blank cell a background fill writes: a space whose background is
/// the fill colour.
pub open spec fn fill_cell_spec(rgb24: Rgb24) -> ViewCell {
    ViewCell {
        character: ' ',
        style: Style { foreground: None, background: Some(rgb24), bold: None, underline: None },
    }
}

/// One row of background writes at row `y`, columns `0..w`.
pub open spec fn fill_row_spec(y: int, w: int, rgb24: Rgb24, context: ViewContext) -> Seq<
    RelativeWrite,
> {
    Seq::new(
        if w >= 0 {
            w as nat
        } else {
            0
        },
        |x: int|
            RelativeWrite {
                coord: crate::geometry::Coord { x: x as i32, y: y as i32 },
                depth: 0,
                cell: fill_cell_spec(rgb24),
                context,
            },
    )
}

/// The full-extent background writes: rows `0..h` of columns `0..w`, in
/// row-major order.
pub open spec fn fill_rect_spec(h: int, w: int, rgb24: Rgb24, context: ViewContext) -> Seq<
    RelativeWrite,
>
    decreases h,
{
    if h <= 0 {
        seq![]
    } else {
        fill_rect_spec(h - 1, w, rgb24, context) + fill_row_spec(h - 1, w, rgb24, context)
    }
}

/// Fills the child's measured extent with blank cells of one background
/// colour, then delegates with an unchanged context, so the child draws on
/// top of the fill.
pub struct FillBackgroundView<V> {
    pub view: V,
    pub rgb24: Rgb24,
}

impl<V> FillBackgroundView<V> {
    pub fn new(view: V, rgb24: Rgb24) -> (r: FillBackgroundView<V>)
        ensures
            r == (FillBackgroundView { view, rgb24 }),
    {
        FillBackgroundView { view, rgb24 }
    }
}

impl<T: Copy, V: CellView<T>> CellView<T> for FillBackgroundView<V> {
    open spec fn emitted(&self, data: T, context: ViewContext) -> Seq<RelativeWrite> {
        fill_rect_spec(
            self.view.reported_size(data, context).y as int,
            self.view.reported_size(data, context).x as int,
            self.rgb24,
            context,
        ) + self.view.emitted(data, context)
    }

    open spec fn view_requires(&self, data: T, context: ViewContext) -> bool {
        &&& self.view.reported_size(data, context).x <= coord_limit()
        &&& self.view.reported_size(data, context).y <= coord_limit()
        &&& self.view.view_requires(data, context)
    }

    open spec fn reported_size(&self, data: T, context: ViewContext) -> Size {
        self.view.reported_size(data, context)
    }

    fn view<F: Frame>(&mut self, data: T, context: ViewContext, frame: &mut F) {
        let size = self.view.visible_bounds(data, context);
        let cell = ViewCell {
            character: ' ',
            style: Style {
                foreground: None,
                background: Some(self.rgb24),
                bold: None,
                underline: None,
            },
        };
        let ghost base_rel = (*frame).rel_log();
        let ghost base_writes = (*frame).writes();
        let mut y: u32 = 0;
        while y < size.y
            invariant
                0 <= y <= size.y,
                size == (*old(self)).view.reported_size(data, context),
                cell == fill_cell_spec((*old(self)).rgb24),
                *self == *old(self),
                context.wf(),
                (*old(self)).view_requires(data, context),
                (*frame).inv(),
                (*frame).rel_log() == base_rel + fill_rect_spec(
                    y as int,
                    size.x as int,
                    (*old(self)).rgb24,
                    context,
                ),
                (*frame).writes() == base_writes + rel_effects::<F>(
                    fill_rect_spec(y as int, size.x as int, (*old(self)).rgb24, context),
                ),
            decreases size.y - y,
        {
            let ghost rect_done = fill_rect_spec(
                y as int,
                size.x as int,
                (*old(self)).rgb24,
                context,
            );
            let mut x: u32 = 0;
            while x < size.x
                invariant
                    0 <= x <= size.x,
                    0 <= y < size.y,
                    size == (*old(self)).view.reported_size(data, context),
                    size.x <= coord_limit() && size.y <= coord_limit(),
                    cell == fill_cell_spec((*old(self)).rgb24),
                    context.wf(),
                    rect_done == fill_rect_spec(
                        y as int,
                        size.x as int,
                        (*old(self)).rgb24,
                        context,
                    ),
                    (*frame).inv(),
                    (*frame).rel_log() == base_rel + rect_done + fill_row_spec(
                        y as int,
                        size.x as int,
                        (*old(self)).rgb24,
                        context,
                    ).take(x as int),
                    (*frame).writes() == base_writes + rel_effects::<F>(
                        rect_done + fill_row_spec(
                            y as int,
                            size.x as int,
                            (*old(self)).rgb24,
                            context,
                        ).take(x as int),
                    ),
                decreases size.x - x,
            {
                let ghost row = fill_row_spec(y as int, size.x as int, (*old(self)).rgb24, context);
                frame.set_cell_relative(
                    crate::geometry::Coord::new(x as i32, y as i32),
                    0,
                    cell,
                    context,
                );
                proof {
                    assert(row.take(x + 1) =~= row.take(x as int).push(row[x as int]));
                    assert((base_rel + (rect_done + row.take(x as int))).push(row[x as int])
                        =~= base_rel + (rect_done + row.take(x + 1)));
                    lemma_rel_effects_push::<F>(rect_done + row.take(x as int), row[x as int]);
                    assert((rect_done + row.take(x as int)).push(row[x as int]) =~= rect_done
                        + row.take(x + 1));
                }
                x += 1;
            }
            proof {
                let row = fill_row_spec(y as int, size.x as int, (*old(self)).rgb24, context);
                assert(row.take(size.x as int) =~= row);
                assert(rect_done + row =~= fill_rect_spec(
                    y + 1,
                    size.x as int,
                    (*old(self)).rgb24,
                    context,
                ));
            }
            y += 1;
        }
        self.view.view(data, context, frame);
        proof {
            let rect = fill_rect_spec(
                size.y as int,
                size.x as int,
                (*old(self)).rgb24,
                context,
            );
            let child = (*old(self)).view.emitted(data, context);
            assert((base_rel + rect) + child =~= base_rel + (rect + child));
            lemma_rel_effects_concat::<F>(rect, child);
            assert((base_writes + rel_effects::<F>(rect)) + rel_effects::<F>(child) =~= base_writes
                + rel_effects::<F>(rect + child));
        }
    }

    fn visible_bounds(&mut self, data: T, context: ViewContext) -> (r: Size) {
        self.view.visible_bounds(data, context)
    }

    fn view_reporting_intended_size<F: Frame>(
        &mut self,
        data: T,
        context: ViewContext,
        frame: &mut F,
    ) -> (r: Size) {
        self.view(data, context, frame);
        let r = self.view.visible_bounds(data, context);
        r
    }
}

} // verus!
