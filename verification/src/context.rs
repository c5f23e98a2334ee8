use vstd::prelude::*;

use crate::colour::ColModify;
use crate::geometry::{coord_limit, coord_within, Coord, Size};

verus! {

/// Everything a view needs to know about where and how it is being drawn:
/// `outer_offset` places it in the sink's space, `inner_offset` is the
/// extra offset from enclosing clipping or scrolling, `size` is the visible
/// window (writes outside it are dropped), `depth` is the z baseline, and
/// `col_modify` the installed colour transform.  A context is an immutable
/// value: each decorator derives a new one and never mutates an ancestor's.
#[derive(Clone, Copy, PartialEq, Eq, Structural, Debug)]
pub struct ViewContext {
    pub outer_offset: Coord,
    pub inner_offset: Coord,
    pub size: Size,
    pub depth: i32,
    pub col_modify: ColModify,
}

impl ViewContext {
    /// Offsets and depth within `coord_limit()`, so that every sum the
    /// pipeline forms from them fits in an `i32`.
    pub open spec fn wf(self) -> bool {
        &&& coord_within(self.outer_offset, coord_limit())
        &&& coord_within(self.inner_offset, coord_limit())
        &&& -coord_limit() <= self.depth <= coord_limit()
    }

    /// The root context for one render: identity offsets, the device size,
    /// depth zero, and the chosen colour transform.
    pub fn default_with_size(size: Size) -> (c: ViewContext)
        ensures
            c == (ViewContext {
                outer_offset: Coord { x: 0, y: 0 },
                inner_offset: Coord { x: 0, y: 0 },
                size,
                depth: 0,
                col_modify: ColModify::Identity,
            }),
            c.wf(),
    {
        ViewContext {
            outer_offset: Coord { x: 0, y: 0 },
            inner_offset: Coord { x: 0, y: 0 },
            size,
            depth: 0,
            col_modify: ColModify::Identity,
        }
    }

    /// Shrink the visible window to at most `size`, componentwise.
    pub fn constrain_size_to(self, size: Size) -> (c: ViewContext)
        ensures
            c == (ViewContext {
                size: Size {
                    x: if self.size.x <= size.x {
                        self.size.x
                    } else {
                        size.x
                    },
                    y: if self.size.y <= size.y {
                        self.size.y
                    } else {
                        size.y
                    },
                },
                ..self
            }),
            self.wf() ==> c.wf(),
    {
        ViewContext { size: self.size.min(size), ..self }
    }

    /// Replace the visible window.
    pub fn with_size(self, size: Size) -> (c: ViewContext)
        ensures
            c == (ViewContext { size, ..self }),
            self.wf() ==> c.wf(),
    {
        ViewContext { size, ..self }
    }

    /// Shift the inner offset by `offset`.
    pub fn add_offset(self, offset: Coord) -> (c: ViewContext)
        requires
            coord_within(
                Coord {
                    x: (self.inner_offset.x + offset.x) as i32,
                    y: (self.inner_offset.y + offset.y) as i32,
                },
                coord_limit(),
            ),
            -coord_limit() <= self.inner_offset.x + offset.x,
            self.inner_offset.x + offset.x <= coord_limit(),
            -coord_limit() <= self.inner_offset.y + offset.y,
            self.inner_offset.y + offset.y <= coord_limit(),
        ensures
            c == (ViewContext {
                inner_offset: Coord {
                    x: (self.inner_offset.x + offset.x) as i32,
                    y: (self.inner_offset.y + offset.y) as i32,
                },
                ..self
            }),
            self.wf() ==> c.wf(),
    {
        ViewContext { inner_offset: self.inner_offset.add(offset), ..self }
    }

    /// Raise the z baseline by `depth`.
    pub fn add_depth(self, depth: i32) -> (c: ViewContext)
        requires
            -coord_limit() <= self.depth + depth <= coord_limit(),
        ensures
            c == (ViewContext { depth: (self.depth + depth) as i32, ..self }),
            self.wf() ==> c.wf(),
    {
        ViewContext { depth: self.depth + depth, ..self }
    }

    /// Install a different colour transform for the subtree below.
    pub fn with_col_modify(self, col_modify: ColModify) -> (c: ViewContext)
        ensures
            c == (ViewContext { col_modify, ..self }),
            self.wf() ==> c.wf(),
    {
        ViewContext { col_modify, ..self }
    }
}

} // verus!
