use vstd::prelude::*;

use crate::context::ViewContext;
use crate::frame::{Frame, RelativeWrite};
use crate::geometry::{coord_limit, Coord, Size};
use crate::view::CellView;

verus! {

/// Space left empty around the child: the child is shifted by the left and
/// top padding, and the visible window shrinks by the padding on each
/// axis, floored at zero.  Padding draws no cells of its own.
pub struct PadView<V> {
    pub view: V,
    pub left: u32,
    pub top: u32,
    pub right: u32,
    pub bottom: u32,
}

/// The context the padded child renders under.
pub open spec fn padded_context_spec(
    left: u32,
    top: u32,
    right: u32,
    bottom: u32,
    context: ViewContext,
) -> ViewContext {
    ViewContext {
        inner_offset: Coord {
            x: (context.inner_offset.x + left) as i32,
            y: (context.inner_offset.y + top) as i32,
        },
        size: Size {
            x: if context.size.x >= left + right {
                (context.size.x - (left + right)) as u32
            } else {
                0
            },
            y: if context.size.y >= top + bottom {
                (context.size.y - (top + bottom)) as u32
            } else {
                0
            },
        },
        ..context
    }
}

impl<V> PadView<V> {
    pub fn new(view: V, left: u32, top: u32, right: u32, bottom: u32) -> (r: PadView<V>)
        ensures
            r == (PadView { view, left, top, right, bottom }),
    {
        PadView { view, left, top, right, bottom }
    }

    pub open spec fn child_context(&self, context: ViewContext) -> ViewContext {
        padded_context_spec(self.left, self.top, self.right, self.bottom, context)
    }

    fn child_context_exec(&self, context: ViewContext) -> (c: ViewContext)
        requires
            self.left <= crate::geometry::coord_limit(),
            self.top <= crate::geometry::coord_limit(),
            self.right <= crate::geometry::coord_limit(),
            self.bottom <= crate::geometry::coord_limit(),
            -crate::geometry::coord_limit() <= context.inner_offset.x + self.left
                <= crate::geometry::coord_limit(),
            -crate::geometry::coord_limit() <= context.inner_offset.y + self.top
                <= crate::geometry::coord_limit(),
        ensures
            c == self.child_context(context),
            context.wf() ==> c.wf(),
    {
        let horizontal = self.left + self.right;
        let vertical = self.top + self.bottom;
        let reduced = Size::new(
            if context.size.x >= horizontal {
                context.size.x - horizontal
            } else {
                0
            },
            if context.size.y >= vertical {
                context.size.y - vertical
            } else {
                0
            },
        );
        context.add_offset(Coord::new(self.left as i32, self.top as i32)).with_size(reduced)
    }
}

impl<T, V: CellView<T>> CellView<T> for PadView<V> {
    open spec fn emitted(&self, data: T, context: ViewContext) -> Seq<RelativeWrite> {
        self.view.emitted(data, self.child_context(context))
    }

    open spec fn view_requires(&self, data: T, context: ViewContext) -> bool {
        &&& self.left <= coord_limit() && self.top <= coord_limit()
        &&& self.right <= coord_limit() && self.bottom <= coord_limit()
        &&& -coord_limit() <= context.inner_offset.x + self.left <= coord_limit()
        &&& -coord_limit() <= context.inner_offset.y + self.top <= coord_limit()
        &&& self.view.view_requires(data, self.child_context(context))
    }

    open spec fn reported_size(&self, data: T, context: ViewContext) -> Size {
        self.view.reported_size(data, self.child_context(context))
    }

    fn view<F: Frame>(&mut self, data: T, context: ViewContext, frame: &mut F) {
        let child_context = self.child_context_exec(context);
        self.view.view(data, child_context, frame);
    }

    fn visible_bounds(&mut self, data: T, context: ViewContext) -> (r: Size) {
        let child_context = self.child_context_exec(context);
        self.view.visible_bounds(data, child_context)
    }

    fn view_reporting_intended_size<F: Frame>(
        &mut self,
        data: T,
        context: ViewContext,
        frame: &mut F,
    ) -> (r: Size) {
        let child_context = self.child_context_exec(context);
        self.view.view_reporting_intended_size(data, child_context, frame)
    }
}

} // verus!
