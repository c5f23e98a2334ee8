use vstd::prelude::*;

use crate::context::ViewContext;
use crate::frame::{Frame, RelativeWrite};
use crate::geometry::Size;
use crate::view::CellView;

verus! {

/// A hard viewport: the child renders with its visible window constrained
/// to at most `size`, and the bounded view reports exactly `size` as its
/// intended extent, whatever the child's natural size.
pub struct BoundView<V> {
    pub view: V,
    pub size: Size,
}

impl<V> BoundView<V> {
    pub fn new(view: V, size: Size) -> (r: BoundView<V>)
        ensures
            r == (BoundView { view, size }),
    {
        BoundView { view, size }
    }
}

impl<T, V: CellView<T>> CellView<T> for BoundView<V> {
    open spec fn emitted(&self, data: T, context: ViewContext) -> Seq<RelativeWrite> {
        self.view.emitted(
            data,
            ViewContext {
                size: Size {
                    x: if context.size.x <= self.size.x {
                        context.size.x
                    } else {
                        self.size.x
                    },
                    y: if context.size.y <= self.size.y {
                        context.size.y
                    } else {
                        self.size.y
                    },
                },
                ..context
            },
        )
    }

    open spec fn view_requires(&self, data: T, context: ViewContext) -> bool {
        self.view.view_requires(
            data,
            ViewContext {
                size: Size {
                    x: if context.size.x <= self.size.x {
                        context.size.x
                    } else {
                        self.size.x
                    },
                    y: if context.size.y <= self.size.y {
                        context.size.y
                    } else {
                        self.size.y
                    },
                },
                ..context
            },
        )
    }

    /// The bound reports its fixed size, not the child's natural one.
    open spec fn reported_size(&self, data: T, context: ViewContext) -> Size {
        self.size
    }

    fn view<F: Frame>(&mut self, data: T, context: ViewContext, frame: &mut F) {
        let child_context = context.constrain_size_to(self.size);
        self.view.view(data, child_context, frame);
    }

    fn visible_bounds(&mut self, data: T, context: ViewContext) -> (r: Size) {
        self.size
    }

    fn view_reporting_intended_size<F: Frame>(
        &mut self,
        data: T,
        context: ViewContext,
        frame: &mut F,
    ) -> (r: Size) {
        let size = self.size;
        self.view(data, context, frame);
        size
    }
}

} // verus!
