use vstd::prelude::*;

use crate::context::ViewContext;
use crate::frame::{rel_effects, Frame, RelativeWrite};
use crate::geometry::{coord_limit, Coord, Size};
use crate::view::CellView;

verus! {

/// How far the content may be scrolled: the lines of content that do not
/// fit in the viewport, recomputed from a fresh measurement every render
/// and never cached across content changes.
#[derive(Clone, Copy, PartialEq, Eq, Structural, Debug)]
pub struct VerticalScrollLimits {
    pub max_scroll: u32,
}

impl VerticalScrollLimits {
    pub fn new() -> (r: VerticalScrollLimits)
        ensures
            r.max_scroll == 0,
    {
        VerticalScrollLimits { max_scroll: 0 }
    }

    /// Recompute the limit from the just-measured full content height and
    /// the viewport height; it floors at zero when the content is shorter
    /// than the viewport.
    pub fn update(&mut self, content_height: u32, viewport_height: u32)
        ensures
            final(self).max_scroll == if content_height >= viewport_height {
                content_height - viewport_height
            } else {
                0
            },
    {
        self.max_scroll = if content_height >= viewport_height {
            content_height - viewport_height
        } else {
            0
        };
    }
}

/// The caller-owned scroll position: lines from the top, mutated only by
/// the scroll commands, each of which clamps it to `[0, max_scroll]`.
#[derive(Clone, Copy, PartialEq, Eq, Structural, Debug)]
pub struct VerticalScrollState {
    pub scroll_offset: u32,
}

impl VerticalScrollState {
    pub fn new() -> (r: VerticalScrollState)
        ensures
            r.scroll_offset == 0,
    {
        VerticalScrollState { scroll_offset: 0 }
    }

    pub fn scroll_to_top(&mut self)
        ensures
            final(self).scroll_offset == 0,
    {
        self.scroll_offset = 0;
    }

    pub fn scroll_to_bottom(&mut self, limits: VerticalScrollLimits)
        ensures
            final(self).scroll_offset == limits.max_scroll,
    {
        self.scroll_offset = limits.max_scroll;
    }

    /// Scroll `lines` towards the top, stopping at the top.
    pub fn scroll_up_lines(&mut self, lines: u32)
        ensures
            final(self).scroll_offset == if old(self).scroll_offset >= lines {
                old(self).scroll_offset - lines
            } else {
                0
            },
    {
        self.scroll_offset = if self.scroll_offset >= lines {
            self.scroll_offset - lines
        } else {
            0
        };
    }

    /// Scroll `lines` towards the bottom, stopping at `max_scroll`.
    pub fn scroll_down_lines(&mut self, limits: VerticalScrollLimits, lines: u32)
        ensures
            final(self).scroll_offset == if old(self).scroll_offset + lines
                <= limits.max_scroll {
                (old(self).scroll_offset + lines) as u32
            } else {
                limits.max_scroll
            },
    {
        self.scroll_offset = if lines <= limits.max_scroll && self.scroll_offset
            <= limits.max_scroll - lines {
            self.scroll_offset + lines
        } else {
            limits.max_scroll
        };
    }

    pub fn scroll_up_line(&mut self)
        ensures
            final(self).scroll_offset == if old(self).scroll_offset >= 1 {
                old(self).scroll_offset - 1
            } else {
                0
            },
    {
        self.scroll_up_lines(1);
    }

    pub fn scroll_down_line(&mut self, limits: VerticalScrollLimits)
        ensures
            final(self).scroll_offset == if old(self).scroll_offset + 1 <= limits.max_scroll {
                (old(self).scroll_offset + 1) as u32
            } else {
                limits.max_scroll
            },
    {
        self.scroll_down_lines(limits, 1);
    }

    /// Scroll one viewport height towards the top.
    pub fn scroll_up_page(&mut self, page_height: u32)
        ensures
            final(self).scroll_offset == if old(self).scroll_offset >= page_height {
                old(self).scroll_offset - page_height
            } else {
                0
            },
    {
        self.scroll_up_lines(page_height);
    }

    /// Scroll one viewport height towards the bottom.
    pub fn scroll_down_page(&mut self, limits: VerticalScrollLimits, page_height: u32)
        ensures
            final(self).scroll_offset == if old(self).scroll_offset + page_height
                <= limits.max_scroll {
                (old(self).scroll_offset + page_height) as u32
            } else {
                limits.max_scroll
            },
    {
        self.scroll_down_lines(limits, page_height);
    }
}

/// The height that stands in for "unbounded" when the scrolled child is
/// given room to lay out its full content.
pub open spec fn unbounded_height() -> int {
    0xffff_ffff
}

/// The context the scrolled child renders under: shifted up by the scroll
/// offset and given unbounded vertical room, so it renders (and measures
/// as) its full content.
pub open spec fn scrolled_context_spec(scroll_offset: u32, context: ViewContext) -> ViewContext {
    ViewContext {
        inner_offset: Coord {
            x: context.inner_offset.x,
            y: (context.inner_offset.y - scroll_offset) as i32,
        },
        size: Size { x: context.size.x, y: unbounded_height() as u32 },
        ..context
    }
}

/// Scrolls its child vertically.  The child always renders its full
/// content, shifted up by the scroll offset; the enclosing window does the
/// clipping.  `view_recomputing_limits` refreshes `limits` from the
/// content height measured in the same traversal.
pub struct VerticalScrollView<V> {
    pub view: V,
    pub state: VerticalScrollState,
    pub limits: VerticalScrollLimits,
}

impl<V> VerticalScrollView<V> {
    pub fn new(view: V) -> (r: VerticalScrollView<V>)
        ensures
            r.view == view,
            r.state.scroll_offset == 0,
            r.limits.max_scroll == 0,
    {
        VerticalScrollView { view, state: VerticalScrollState::new(), limits: VerticalScrollLimits::new() }
    }
}

/// One render tick of a scrolled view: draw the scrolled child, then
/// refresh its `limits` against the viewport height from the content
/// height measured in the same traversal.  The child measures under the
/// scroll-shifted context, so the full content height is the measured
/// height plus the scroll offset.  The scroll offset itself is moved only
/// by the commands.
pub fn view_recomputing_limits<T: Copy, V: CellView<T>, F: Frame>(
    scrolled: &mut VerticalScrollView<V>,
    data: T,
    context: ViewContext,
    frame: &mut F,
) -> (r: Size)
    requires
        (*old(frame)).inv(),
        context.wf(),
        (*old(scrolled)).view_requires(data, context),
        (*old(scrolled)).reported_size(data, context).y + (*old(
            scrolled,
        )).state.scroll_offset <= u32::MAX,
    ensures
        (*final(frame)).inv(),
        (*final(frame)).rel_log() == (*old(frame)).rel_log() + (*old(scrolled)).emitted(
            data,
            context,
        ),
        (*final(frame)).writes() == (*old(frame)).writes() + rel_effects::<F>(
            (*old(scrolled)).emitted(data, context),
        ),
        r == (*old(scrolled)).reported_size(data, context),
        (*final(scrolled)).view == (*old(scrolled)).view,
        (*final(scrolled)).state == (*old(scrolled)).state,
        (*final(scrolled)).limits.max_scroll == if r.y + (*old(scrolled)).state.scroll_offset
            >= context.size.y {
            r.y + (*old(scrolled)).state.scroll_offset - context.size.y
        } else {
            0
        },
{
    let shift: i32 = -(scrolled.state.scroll_offset as i32);
    let child_context = context.add_offset(Coord::new(0, shift)).with_size(
        Size::new(context.size.x, u32::MAX),
    );
    let r = scrolled.view.view_reporting_intended_size(data, child_context, frame);
    let content_height = r.y + scrolled.state.scroll_offset;
    scrolled.limits.update(content_height, context.size.y);
    r
}

impl<T: Copy, V: CellView<T>> CellView<T> for VerticalScrollView<V> {
    open spec fn emitted(&self, data: T, context: ViewContext) -> Seq<RelativeWrite> {
        self.view.emitted(data, scrolled_context_spec(self.state.scroll_offset, context))
    }

    open spec fn view_requires(&self, data: T, context: ViewContext) -> bool {
        &&& self.state.scroll_offset <= coord_limit()
        &&& -coord_limit() <= context.inner_offset.y - self.state.scroll_offset <= coord_limit()
        &&& self.view.view_requires(
            data,
            scrolled_context_spec(self.state.scroll_offset, context),
        )
    }

    open spec fn reported_size(&self, data: T, context: ViewContext) -> Size {
        self.view.reported_size(data, scrolled_context_spec(self.state.scroll_offset, context))
    }

    fn view<F: Frame>(&mut self, data: T, context: ViewContext, frame: &mut F) {
        let shift: i32 = -(self.state.scroll_offset as i32);
        let child_context = context.add_offset(Coord::new(0, shift)).with_size(
            Size::new(context.size.x, u32::MAX),
        );
        self.view.view(data, child_context, frame);
    }

    fn visible_bounds(&mut self, data: T, context: ViewContext) -> (r: Size) {
        let shift: i32 = -(self.state.scroll_offset as i32);
        let child_context = context.add_offset(Coord::new(0, shift)).with_size(
            Size::new(context.size.x, u32::MAX),
        );
        self.view.visible_bounds(data, child_context)
    }

    fn view_reporting_intended_size<F: Frame>(
        &mut self,
        data: T,
        context: ViewContext,
        frame: &mut F,
    ) -> (r: Size) {
        let shift: i32 = -(self.state.scroll_offset as i32);
        let child_context = context.add_offset(Coord::new(0, shift)).with_size(
            Size::new(context.size.x, u32::MAX),
        );
        self.view.view_reporting_intended_size(data, child_context, frame)
    }
}

} // verus!
