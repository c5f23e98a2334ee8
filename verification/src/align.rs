use vstd::prelude::*;

use crate::context::ViewContext;
use crate::frame::{Frame, RelativeWrite};
use crate::geometry::{coord_limit, Coord, Size};
use crate::view::CellView;

verus! {

/// Placement of the child along one axis of the available window.
#[derive(Clone, Copy, PartialEq, Eq, Structural, Debug)]
pub enum AlignDirection {
    Start,
    Centre,
    End,
}

/// Placement of the child along both axes.
#[derive(Clone, Copy, PartialEq, Eq, Structural, Debug)]
pub struct Alignment {
    pub x: AlignDirection,
    pub y: AlignDirection,
}

/// The offset of the child along one axis: zero at the start, the spare
/// space at the end, half of it in the centre, never negative.
pub open spec fn align_offset_spec(direction: AlignDirection, available: int, natural: int) -> int {
    match direction {
        AlignDirection::Start => 0,
        AlignDirection::Centre => if available >= natural {
            (available - natural) / 2
        } else {
            0
        },
        AlignDirection::End => if available >= natural {
            available - natural
        } else {
            0
        },
    }
}

fn align_offset(direction: AlignDirection, available: u32, natural: u32) -> (r: u32)
    ensures
        r == align_offset_spec(direction, available as int, natural as int),
        r <= available,
{
    match direction {
        AlignDirection::Start => 0,
        AlignDirection::Centre => if available >= natural {
            (available - natural) / 2
        } else {
            0
        },
        AlignDirection::End => if available >= natural {
            available - natural
        } else {
            0
        },
    }
}

/// Places its child inside the available window by measuring the child's
/// natural size first and shifting the inner offset accordingly.
pub struct AlignView<V> {
    pub view: V,
    pub alignment: Alignment,
}

impl<V> AlignView<V> {
    pub fn new(view: V, alignment: Alignment) -> (r: AlignView<V>)
        ensures
            r == (AlignView { view, alignment }),
    {
        AlignView { view, alignment }
    }
}

/// The context an aligned child renders under: the inner offset moves by
/// the per-axis alignment offset against the child's reported size.
pub open spec fn aligned_context<T, V: CellView<T>>(
    view: &V,
    alignment: Alignment,
    data: T,
    context: ViewContext,
) -> ViewContext {
    let natural = view.reported_size(data, context);
    ViewContext {
        inner_offset: Coord {
            x: (context.inner_offset.x + align_offset_spec(
                alignment.x,
                context.size.x as int,
                natural.x as int,
            )) as i32,
            y: (context.inner_offset.y + align_offset_spec(
                alignment.y,
                context.size.y as int,
                natural.y as int,
            )) as i32,
        },
        ..context
    }
}

impl<T: Copy, V: CellView<T>> CellView<T> for AlignView<V> {
    open spec fn emitted(&self, data: T, context: ViewContext) -> Seq<RelativeWrite> {
        self.view.emitted(data, aligned_context(&self.view, self.alignment, data, context))
    }

    open spec fn view_requires(&self, data: T, context: ViewContext) -> bool {
        &&& context.size.x <= coord_limit() && context.size.y <= coord_limit()
        &&& -coord_limit() <= context.inner_offset.x + context.size.x <= coord_limit()
        &&& -coord_limit() <= context.inner_offset.y + context.size.y <= coord_limit()
        &&& self.view.view_requires(data, context)
        &&& self.view.view_requires(data, aligned_context(&self.view, self.alignment, data, context))
    }

    open spec fn reported_size(&self, data: T, context: ViewContext) -> Size {
        self.view.reported_size(data, aligned_context(&self.view, self.alignment, data, context))
    }

    fn view<F: Frame>(&mut self, data: T, context: ViewContext, frame: &mut F) {
        let natural = self.view.visible_bounds(data, context);
        let dx = align_offset(self.alignment.x, context.size.x, natural.x);
        let dy = align_offset(self.alignment.y, context.size.y, natural.y);
        let child_context = context.add_offset(Coord::new(dx as i32, dy as i32));
        self.view.view(data, child_context, frame);
    }

    fn visible_bounds(&mut self, data: T, context: ViewContext) -> (r: Size) {
        let natural = self.view.visible_bounds(data, context);
        let dx = align_offset(self.alignment.x, context.size.x, natural.x);
        let dy = align_offset(self.alignment.y, context.size.y, natural.y);
        let child_context = context.add_offset(Coord::new(dx as i32, dy as i32));
        self.view.visible_bounds(data, child_context)
    }

    fn view_reporting_intended_size<F: Frame>(
        &mut self,
        data: T,
        context: ViewContext,
        frame: &mut F,
    ) -> (r: Size) {
        let natural = self.view.visible_bounds(data, context);
        let dx = align_offset(self.alignment.x, context.size.x, natural.x);
        let dy = align_offset(self.alignment.y, context.size.y, natural.y);
        let child_context = context.add_offset(Coord::new(dx as i32, dy as i32));
        self.view.view_reporting_intended_size(data, child_context, frame)
    }
}

} // verus!
