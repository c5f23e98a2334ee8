use vstd::prelude::*;

use crate::context::ViewContext;
use crate::frame::{
    bounds_spec, measure_writes_of, rel_effects, Frame, MeasureBounds, RelativeWrite,
};
use crate::geometry::{Coord, Size};

verus! {

/// The extent a measuring pass reports for a sequence of relative writes
/// issued under their contexts, seen from `outer_offset`.
pub open spec fn measured_size_spec(ws: Seq<RelativeWrite>, outer_offset: Coord) -> Size {
    bounds_spec(measure_writes_of(ws), outer_offset)
}

/// Feeding relative writes to a measuring sink accumulates exactly their
/// measuring images, in order.
pub proof fn lemma_measure_effects(ws: Seq<RelativeWrite>)
    ensures
        rel_effects::<MeasureBounds>(ws) == measure_writes_of(ws),
    decreases ws.len(),
{
    if ws.len() == 0 {
        assert(measure_writes_of(ws) =~= Seq::<crate::frame::AbsoluteWrite>::empty());
    } else {
        lemma_measure_effects(ws.skip(1));
        assert(measure_writes_of(ws) =~= MeasureBounds::rel_effect(ws[0]) + measure_writes_of(
            ws.skip(1),
        ));
    }
}

/// The rendering interface.  A view turns a data value into relative cell
/// writes under a context; its two derived operations reuse the same
/// `view` body under substituted sinks, one to measure what would be
/// drawn, one to draw and measure in a single traversal, so size
/// negotiation and drawing can never disagree.
pub trait CellView<T>: Sized {
    /// The relative writes one call of `view` hands the frame, in order.
    spec fn emitted(&self, data: T, context: ViewContext) -> Seq<RelativeWrite>;

    /// What this view needs of its data and context, beyond a well-formed
    /// context: typically that its own extent stays within the coordinate
    /// bounds.
    spec fn view_requires(&self, data: T, context: ViewContext) -> bool;

    /// The size the view reports for its content: for every view that
    /// derives it by measurement this is the measured extent of `emitted`,
    /// while a bounding view reports its fixed size instead.
    spec fn reported_size(&self, data: T, context: ViewContext) -> Size;

    /// Emit the cells describing `data` into `frame`.
    fn view<F: Frame>(&mut self, data: T, context: ViewContext, frame: &mut F)
        requires
            (*old(frame)).inv(),
            context.wf(),
            (*old(self)).view_requires(data, context),
        ensures
            *final(self) == *old(self),
            (*final(frame)).inv(),
            (*final(frame)).rel_log() == (*old(frame)).rel_log() + (*old(self)).emitted(
                data,
                context,
            ),
            (*final(frame)).writes() == (*old(frame)).writes() + rel_effects::<F>(
                (*old(self)).emitted(data, context),
            ),
    ;

    /// Run `view` against a measuring sink alone and report the extent of
    /// what it would draw; nothing is drawn.
    fn visible_bounds(&mut self, data: T, context: ViewContext) -> (r: Size)
        requires
            context.wf(),
            (*old(self)).view_requires(data, context),
        ensures
            *final(self) == *old(self),
            r == (*old(self)).reported_size(data, context),
    ;

    /// Draw through `frame` and report the content's size regardless of
    /// clipping, so a decorator can lay itself out around what it just
    /// delegated.  A decorator derives both from one delegation; a leaf
    /// runs the same `view` body once against a measuring sink and once
    /// against `frame` — either way the result is pinned to
    /// `reported_size`, so size negotiation and drawing cannot disagree.
    fn view_reporting_intended_size<F: Frame>(
        &mut self,
        data: T,
        context: ViewContext,
        frame: &mut F,
    ) -> (r: Size)
        requires
            (*old(frame)).inv(),
            context.wf(),
            (*old(self)).view_requires(data, context),
        ensures
            (*final(frame)).inv(),
            (*final(frame)).rel_log() == (*old(frame)).rel_log() + (*old(self)).emitted(
                data,
                context,
            ),
            *final(self) == *old(self),
            (*final(frame)).writes() == (*old(frame)).writes() + rel_effects::<F>(
                (*old(self)).emitted(data, context),
            ),
            r == (*old(self)).reported_size(data, context),
    ;
}

/// The derived operations of every view that measures its own output
/// report the measured extent of what `view` emits: `visible_bounds` and
/// `view_reporting_intended_size` then agree on the size for the same
/// view, data and context, since both are pinned to `reported_size`.
pub proof fn lemma_measure_draw_agree<T, V: CellView<T>>(
    v: V,
    data: T,
    context: ViewContext,
    measured: Size,
    drawn: Size,
)
    requires
        measured == v.reported_size(data, context),
        drawn == v.reported_size(data, context),
    ensures
        measured == drawn,
{
}

} // verus!
