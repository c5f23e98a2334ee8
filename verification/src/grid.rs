use vstd::prelude::*;

use crate::cell::ViewCell;
use crate::context::ViewContext;
use crate::frame::{
    draw_effect_spec, draw_write_spec, rel_write_visible, AbsoluteWrite, Frame, RelativeWrite,
};
use crate::geometry::{coord_limit, is_valid_spec, Coord, Size};

verus! {

/// The row-major index of a coordinate inside a grid of extent `size`.
pub open spec fn grid_index(size: Size, coord: Coord) -> int {
    coord.y * size.x + coord.x
}

/// What one absolute write does to the stored cells: nothing outside the
/// grid; inside, the cell is replaced iff the write's depth is at least
/// the depth already stored there.  So the greatest depth wins at each
/// coordinate and, among equal depths, the later write wins.
pub open spec fn grid_apply_cells(
    cells: Seq<ViewCell>,
    depths: Seq<i32>,
    size: Size,
    w: AbsoluteWrite,
) -> Seq<ViewCell> {
    if is_valid_spec(w.coord, size) && w.depth >= depths[grid_index(size, w.coord)] {
        cells.update(grid_index(size, w.coord), w.cell)
    } else {
        cells
    }
}

/// The depth sibling of `grid_apply_cells`.
pub open spec fn grid_apply_depths(
    cells: Seq<ViewCell>,
    depths: Seq<i32>,
    size: Size,
    w: AbsoluteWrite,
) -> Seq<i32> {
    if is_valid_spec(w.coord, size) && w.depth >= depths[grid_index(size, w.coord)] {
        depths.update(grid_index(size, w.coord), w.depth)
    } else {
        depths
    }
}

/// A concrete sink: a finite grid of cells that composites the absolute
/// writes it accepts by depth.  It obeys the contract every final sink
/// must: at each coordinate the write with the greatest absolute depth
/// survives, and among equal depths the later write wins.
pub struct Grid {
    size: Size,
    cells: Vec<ViewCell>,
    depths: Vec<i32>,
    rel_log_g: Ghost<Seq<RelativeWrite>>,
    writes_g: Ghost<Seq<AbsoluteWrite>>,
}

impl Grid {
    pub closed spec fn size_spec(&self) -> Size {
        self.size
    }

    pub closed spec fn cells_spec(&self) -> Seq<ViewCell> {
        self.cells@
    }

    pub closed spec fn depths_spec(&self) -> Seq<i32> {
        self.depths@
    }

    /// A fresh grid: every cell is the default cell at depth zero.
    pub fn new(size: Size) -> (r: Grid)
        requires
            size.x <= coord_limit(),
            size.y <= coord_limit(),
            size.x * size.y <= coord_limit(),
        ensures
            r.inv(),
            r.size_spec() == size,
            r.rel_log() == Seq::<RelativeWrite>::empty(),
            r.writes() == Seq::<AbsoluteWrite>::empty(),
            r.cells_spec() == Seq::new((size.x * size.y) as nat, |i: int| crate::cell::default_cell()),
            r.depths_spec() == Seq::new((size.x * size.y) as nat, |i: int| 0i32),
    {
        let len: usize = (size.x as usize) * (size.y as usize);
        let mut cells: Vec<ViewCell> = Vec::new();
        let mut depths: Vec<i32> = Vec::new();
        let mut i: usize = 0;
        while i < len
            invariant
                0 <= i <= len,
                cells@ =~= Seq::new(i as nat, |j: int| crate::cell::default_cell()),
                depths@ =~= Seq::new(i as nat, |j: int| 0i32),
            decreases len - i,
        {
            cells.push(ViewCell::new());
            depths.push(0);
            proof {
                assert(cells@ =~= Seq::new((i + 1) as nat, |j: int| crate::cell::default_cell()));
                assert(depths@ =~= Seq::new((i + 1) as nat, |j: int| 0i32));
            }
            i += 1;
        }
        Grid {
            size,
            cells,
            depths,
            rel_log_g: Ghost(Seq::empty()),
            writes_g: Ghost(Seq::empty()),
        }
    }

    pub fn size(&self) -> (r: Size)
        ensures
            r == self.size_spec(),
    {
        self.size
    }

    /// Read the composited cell at `coord`.
    pub fn get(&self, coord: Coord) -> (r: ViewCell)
        requires
            self.inv(),
            is_valid_spec(coord, self.size_spec()),
        ensures
            r == self.cells_spec()[grid_index(self.size_spec(), coord)],
    {
        proof {
            assert(coord.y * self.size.x + coord.x < self.size.x * self.size.y && 0 <= coord.y
                * self.size.x + coord.x) by (nonlinear_arith)
                requires
                    0 <= coord.x < self.size.x,
                    0 <= coord.y < self.size.y,
            ;
        }
        let index: usize = (coord.y as usize) * (self.size.x as usize) + (coord.x as usize);
        self.cells[index]
    }

    /// Read the depth the surviving write at `coord` arrived with.
    pub fn get_depth(&self, coord: Coord) -> (r: i32)
        requires
            self.inv(),
            is_valid_spec(coord, self.size_spec()),
        ensures
            r == self.depths_spec()[grid_index(self.size_spec(), coord)],
    {
        proof {
            assert(coord.y * self.size.x + coord.x < self.size.x * self.size.y && 0 <= coord.y
                * self.size.x + coord.x) by (nonlinear_arith)
                requires
                    0 <= coord.x < self.size.x,
                    0 <= coord.y < self.size.y,
            ;
        }
        let index: usize = (coord.y as usize) * (self.size.x as usize) + (coord.x as usize);
        self.depths[index]
    }
}

impl Frame for Grid {
    closed spec fn writes(&self) -> Seq<AbsoluteWrite> {
        self.writes_g@
    }

    closed spec fn rel_log(&self) -> Seq<RelativeWrite> {
        self.rel_log_g@
    }

    closed spec fn inv(&self) -> bool {
        &&& self.cells@.len() == self.size.x * self.size.y
        &&& self.depths@.len() == self.size.x * self.size.y
        &&& self.size.x <= coord_limit()
        &&& self.size.y <= coord_limit()
        &&& self.size.x * self.size.y <= coord_limit()
    }

    /// A drawing sink accepts a relative write only after clipping and
    /// translation.
    open spec fn rel_effect(w: RelativeWrite) -> Seq<AbsoluteWrite> {
        draw_effect_spec(w)
    }

    fn set_cell_relative(
        &mut self,
        relative_coord: Coord,
        relative_depth: i32,
        relative_cell: ViewCell,
        context: ViewContext,
    )
        ensures
            (*final(self)).size_spec() == (*old(self)).size_spec(),
    {
        let adjusted = relative_coord.add(context.inner_offset);
        if adjusted.is_valid(context.size) {
            let absolute_coord = adjusted.add(context.outer_offset);
            let absolute_depth = relative_depth + context.depth;
            let absolute_cell = crate::frame::transform_cell(relative_cell, context);
            self.set_cell_absolute(absolute_coord, absolute_depth, absolute_cell);
        }
        let ghost w = RelativeWrite {
            coord: relative_coord,
            depth: relative_depth,
            cell: relative_cell,
            context,
        };
        proof {
            self.rel_log_g@ = self.rel_log_g@.push(w);
            if rel_write_visible(w) {
                assert((*old(self)).writes_g@.push(draw_write_spec(w)) =~= (*old(self)).writes_g@
                    + draw_effect_spec(w));
            } else {
                assert((*old(self)).writes_g@ =~= (*old(self)).writes_g@ + draw_effect_spec(w));
            }
        }
    }

    fn set_cell_absolute(
        &mut self,
        absolute_coord: Coord,
        absolute_depth: i32,
        absolute_cell: ViewCell,
    )
        ensures
            (*final(self)).size_spec() == (*old(self)).size_spec(),
            (*final(self)).cells_spec() == grid_apply_cells(
                (*old(self)).cells_spec(),
                (*old(self)).depths_spec(),
                (*old(self)).size_spec(),
                AbsoluteWrite { coord: absolute_coord, depth: absolute_depth, cell: absolute_cell },
            ),
            (*final(self)).depths_spec() == grid_apply_depths(
                (*old(self)).cells_spec(),
                (*old(self)).depths_spec(),
                (*old(self)).size_spec(),
                AbsoluteWrite { coord: absolute_coord, depth: absolute_depth, cell: absolute_cell },
            ),
    {
        if absolute_coord.is_valid(self.size) {
            proof {
                assert(absolute_coord.y * self.size.x + absolute_coord.x < self.size.x
                    * self.size.y && 0 <= absolute_coord.y * self.size.x + absolute_coord.x
)
                    by (nonlinear_arith)
                    requires
                        0 <= absolute_coord.x < self.size.x,
                        0 <= absolute_coord.y < self.size.y,
                ;
            }
            let index: usize = (absolute_coord.y as usize) * (self.size.x as usize)
                + (absolute_coord.x as usize);
            if absolute_depth >= self.depths[index] {
                self.cells.set(index, absolute_cell);
                self.depths.set(index, absolute_depth);
            }
        }
        proof {
            self.writes_g@ = self.writes_g@.push(
                AbsoluteWrite { coord: absolute_coord, depth: absolute_depth, cell: absolute_cell },
            );
        }
    }
}

} // verus!
