use vstd::prelude::*;

use crate::cell::{default_cell, Style, ViewCell};
use crate::colour::modify_spec;
use crate::context::ViewContext;
use crate::geometry::{abs_limit, coord_limit, coord_within, is_valid_spec, Coord, Size};

verus! {

/// One relative cell write as a view issued it, together with the context
/// it was issued under.
pub struct RelativeWrite {
    pub coord: Coord,
    pub depth: i32,
    pub cell: ViewCell,
    pub context: ViewContext,
}

/// One absolute write as a sink accepts it: translated, depth-adjusted and
/// colour-transformed.
pub struct AbsoluteWrite {
    pub coord: Coord,
    pub depth: i32,
    pub cell: ViewCell,
}

/// Magnitude bound on a relative coordinate or depth handed to a frame.
pub open spec fn rel_write_wf(coord: Coord, depth: int) -> bool {
    &&& coord_within(coord, coord_limit())
    &&& -coord_limit() <= depth <= coord_limit()
}

/// Magnitude bound on an absolute write: what a sum of a relative
/// coordinate and two offsets can reach.
pub open spec fn abs_write_wf(w: AbsoluteWrite) -> bool {
    &&& coord_within(w.coord, abs_limit())
    &&& -abs_limit() <= w.depth <= abs_limit()
}

/// The cell with a colour transform applied to both of its optional
/// colours; other attributes are untouched.
pub open spec fn transformed_cell_spec(cell: ViewCell, m: crate::colour::ColModify) -> ViewCell {
    ViewCell {
        character: cell.character,
        style: Style {
            foreground: match cell.style.foreground {
                Some(c) => Some(modify_spec(m, c)),
                None => None,
            },
            background: match cell.style.background {
                Some(c) => Some(modify_spec(m, c)),
                None => None,
            },
            bold: cell.style.bold,
            underline: cell.style.underline,
        },
    }
}

/// The write's cell under its own context's transform.
pub open spec fn transformed_cell(w: RelativeWrite) -> ViewCell {
    transformed_cell_spec(w.cell, w.context.col_modify)
}

/// The relative coordinate shifted by the context's inner offset: the
/// position that is tested against the visible window.
pub open spec fn adjusted_coord(w: RelativeWrite) -> Coord {
    Coord {
        x: (w.coord.x + w.context.inner_offset.x) as i32,
        y: (w.coord.y + w.context.inner_offset.y) as i32,
    }
}

/// True iff the write survives clipping: its adjusted coordinate lies in
/// `[0, size)` on both axes.
pub open spec fn rel_write_visible(w: RelativeWrite) -> bool {
    is_valid_spec(adjusted_coord(w), w.context.size)
}

/// Where and how the write lands when it is drawn: adjusted coordinate
/// plus outer offset, relative depth plus context depth, colours mapped by
/// the context's transform.
pub open spec fn draw_write_spec(w: RelativeWrite) -> AbsoluteWrite {
    AbsoluteWrite {
        coord: Coord {
            x: (adjusted_coord(w).x + w.context.outer_offset.x) as i32,
            y: (adjusted_coord(w).y + w.context.outer_offset.y) as i32,
        },
        depth: (w.depth + w.context.depth) as i32,
        cell: transformed_cell(w),
    }
}

/// What drawing the write appends to a sink: one absolute write if it
/// survives clipping, nothing otherwise.
pub open spec fn draw_effect_spec(w: RelativeWrite) -> Seq<AbsoluteWrite> {
    if rel_write_visible(w) {
        seq![draw_write_spec(w)]
    } else {
        seq![]
    }
}

/// Where the write lands when only its extent is being measured: the same
/// translation, but no clipping, depth zero and the default cell.
pub open spec fn measure_write_spec(w: RelativeWrite) -> AbsoluteWrite {
    AbsoluteWrite {
        coord: Coord {
            x: (adjusted_coord(w).x + w.context.outer_offset.x) as i32,
            y: (adjusted_coord(w).y + w.context.outer_offset.y) as i32,
        },
        depth: 0,
        cell: default_cell(),
    }
}

/// The measuring image of a whole sequence of relative writes.
pub open spec fn measure_writes_of(ws: Seq<RelativeWrite>) -> Seq<AbsoluteWrite> {
    ws.map_values(|w: RelativeWrite| measure_write_spec(w))
}

/// A sink of cell writes.  Every frame keeps two ghost histories: the
/// relative writes it has been handed (`rel_log`) and the absolute writes
/// it has accepted (`writes`).  What one relative write contributes to
/// `writes` is the frame's own affair — a drawing frame clips and
/// transforms, a measuring frame records the unclipped position — and is
/// named by its `rel_effect`.
pub trait Frame: Sized {
    /// The absolute writes this sink has accepted, in order.
    spec fn writes(&self) -> Seq<AbsoluteWrite>;

    /// The relative writes this sink has been handed, in order.
    spec fn rel_log(&self) -> Seq<RelativeWrite>;

    /// The sink's internal consistency; every operation preserves it.
    spec fn inv(&self) -> bool;

    /// What one relative write appends to `writes` for this kind of sink.
    spec fn rel_effect(w: RelativeWrite) -> Seq<AbsoluteWrite>;

    /// Hand the sink one relative write under `context`.
    fn set_cell_relative(
        &mut self,
        relative_coord: Coord,
        relative_depth: i32,
        relative_cell: ViewCell,
        context: ViewContext,
    )
        requires
            (*old(self)).inv(),
            context.wf(),
            rel_write_wf(relative_coord, relative_depth as int),
        ensures
            (*final(self)).inv(),
            (*final(self)).rel_log() == (*old(self)).rel_log().push(
                RelativeWrite {
                    coord: relative_coord,
                    depth: relative_depth,
                    cell: relative_cell,
                    context,
                },
            ),
            (*final(self)).writes() == (*old(self)).writes() + Self::rel_effect(
                RelativeWrite {
                    coord: relative_coord,
                    depth: relative_depth,
                    cell: relative_cell,
                    context,
                },
            ),
    ;

    /// Accept one absolute write: the only primitive a concrete sink
    /// implements.
    fn set_cell_absolute(
        &mut self,
        absolute_coord: Coord,
        absolute_depth: i32,
        absolute_cell: ViewCell,
    )
        requires
            (*old(self)).inv(),
            abs_write_wf(
                AbsoluteWrite { coord: absolute_coord, depth: absolute_depth, cell: absolute_cell },
            ),
        ensures
            (*final(self)).inv(),
            (*final(self)).rel_log() == (*old(self)).rel_log(),
            (*final(self)).writes() == (*old(self)).writes().push(
                AbsoluteWrite { coord: absolute_coord, depth: absolute_depth, cell: absolute_cell },
            ),
    ;
}

/// What a sequence of relative writes appends to a frame of type `F`, in
/// order: the concatenation of the per-write effects.
pub open spec fn rel_effects<F: Frame>(ws: Seq<RelativeWrite>) -> Seq<AbsoluteWrite>
    decreases ws.len(),
{
    if ws.len() == 0 {
        seq![]
    } else {
        F::rel_effect(ws[0]) + rel_effects::<F>(ws.skip(1))
    }
}

pub proof fn lemma_rel_effects_concat<F: Frame>(a: Seq<RelativeWrite>, b: Seq<RelativeWrite>)
    ensures
        rel_effects::<F>(a + b) == rel_effects::<F>(a) + rel_effects::<F>(b),
    decreases a.len(),
{
    if a.len() == 0 {
        assert(a + b =~= b);
        assert(rel_effects::<F>(a) + rel_effects::<F>(b) =~= rel_effects::<F>(b));
    } else {
        lemma_rel_effects_concat::<F>(a.skip(1), b);
        assert((a + b).skip(1) =~= a.skip(1) + b);
        assert((a + b)[0] == a[0]);
        assert(rel_effects::<F>(a) + rel_effects::<F>(b) =~= F::rel_effect(a[0]) + (rel_effects::<
            F,
        >(a.skip(1)) + rel_effects::<F>(b)));
    }
}

pub proof fn lemma_rel_effects_push<F: Frame>(a: Seq<RelativeWrite>, w: RelativeWrite)
    ensures
        rel_effects::<F>(a.push(w)) == rel_effects::<F>(a) + F::rel_effect(w),
{
    assert(a.push(w) =~= a + seq![w]);
    lemma_rel_effects_concat::<F>(a, seq![w]);
    assert(seq![w].skip(1) =~= Seq::<RelativeWrite>::empty());
    assert(seq![w][0] == w);
    assert(rel_effects::<F>(seq![w]) == F::rel_effect(w) + rel_effects::<F>(
        Seq::<RelativeWrite>::empty(),
    ));
    assert(F::rel_effect(w) + rel_effects::<F>(Seq::<RelativeWrite>::empty()) =~= F::rel_effect(
        w,
    ));
}

/// The drawing interpretation of one relative write, shared by every sink
/// that composites: shift by the inner offset, drop the write silently if
/// the result leaves the visible window, otherwise shift by the outer
/// offset, raise the depth by the context's and map both colours.
///
/// Clipping happens here and only here: the write reaches
/// `set_cell_absolute` iff its adjusted coordinate lies in `[0, size)`.
pub fn set_cell_relative_to_draw<F: Frame>(
    frame: &mut F,
    relative_coord: Coord,
    relative_depth: i32,
    relative_cell: ViewCell,
    context: ViewContext,
)
    requires
        (*old(frame)).inv(),
        context.wf(),
        rel_write_wf(relative_coord, relative_depth as int),
    ensures
        (*final(frame)).inv(),
        (*final(frame)).rel_log() == (*old(frame)).rel_log(),
        (*final(frame)).writes() == (*old(frame)).writes() + draw_effect_spec(
            RelativeWrite {
                coord: relative_coord,
                depth: relative_depth,
                cell: relative_cell,
                context,
            },
        ),
{
    let ghost w = RelativeWrite {
        coord: relative_coord,
        depth: relative_depth,
        cell: relative_cell,
        context,
    };
    let adjusted = relative_coord.add(context.inner_offset);
    if adjusted.is_valid(context.size) {
        let absolute_coord = adjusted.add(context.outer_offset);
        let absolute_depth = relative_depth + context.depth;
        let absolute_cell = transform_cell(relative_cell, context);
        frame.set_cell_absolute(absolute_coord, absolute_depth, absolute_cell);
        proof {
            assert((*old(frame)).writes().push(draw_write_spec(w)) =~= (*old(frame)).writes()
                + draw_effect_spec(w));
        }
    } else {
        proof {
            assert((*old(frame)).writes() =~= (*old(frame)).writes() + draw_effect_spec(w));
        }
    }
}

/// The measuring interpretation of one relative write: record where it
/// would land, without clipping, with depth zero and the default cell, so
/// that a bounds pass sees the full intended extent.
pub fn set_cell_relative_to_measure_size<F: Frame>(
    frame: &mut F,
    relative_coord: Coord,
    context: ViewContext,
)
    requires
        (*old(frame)).inv(),
        context.wf(),
        coord_within(relative_coord, coord_limit()),
    ensures
        (*final(frame)).inv(),
        (*final(frame)).rel_log() == (*old(frame)).rel_log(),
        (*final(frame)).writes() == (*old(frame)).writes().push(
            measure_write_spec(
                RelativeWrite {
                    coord: relative_coord,
                    depth: 0,
                    cell: default_cell(),
                    context,
                },
            ),
        ),
{
    let adjusted = relative_coord.add(context.inner_offset);
    let absolute_coord = adjusted.add(context.outer_offset);
    let absolute_cell = ViewCell::new();
    frame.set_cell_absolute(absolute_coord, 0, absolute_cell);
}

/// Apply the context's colour transform to both colours of a cell.
pub fn transform_cell(cell: ViewCell, context: ViewContext) -> (r: ViewCell)
    ensures
        r == transformed_cell_spec(cell, context.col_modify),
{
    ViewCell {
        character: cell.character,
        style: Style {
            foreground: match cell.style.foreground {
                Some(c) => Some(context.col_modify.modify(c)),
                None => None,
            },
            background: match cell.style.background {
                Some(c) => Some(context.col_modify.modify(c)),
                None => None,
            },
            bold: cell.style.bold,
            underline: cell.style.underline,
        },
    }
}

impl<'x, F: Frame> Frame for &'x mut F {
    open spec fn writes(&self) -> Seq<AbsoluteWrite> {
        (**self).writes()
    }

    open spec fn rel_log(&self) -> Seq<RelativeWrite> {
        (**self).rel_log()
    }

    open spec fn inv(&self) -> bool {
        (**self).inv()
    }

    open spec fn rel_effect(w: RelativeWrite) -> Seq<AbsoluteWrite> {
        F::rel_effect(w)
    }

    fn set_cell_relative(
        &mut self,
        relative_coord: Coord,
        relative_depth: i32,
        relative_cell: ViewCell,
        context: ViewContext,
    ) {
        (**self).set_cell_relative(relative_coord, relative_depth, relative_cell, context);
    }

    fn set_cell_absolute(
        &mut self,
        absolute_coord: Coord,
        absolute_depth: i32,
        absolute_cell: ViewCell,
    ) {
        (**self).set_cell_absolute(absolute_coord, absolute_depth, absolute_cell);
    }
}

/// The running componentwise maximum of the accepted absolute coordinates,
/// starting from the origin.
pub open spec fn max_coord_fold(ws: Seq<AbsoluteWrite>) -> Coord
    decreases ws.len(),
{
    if ws.len() == 0 {
        Coord { x: 0, y: 0 }
    } else {
        let prev = max_coord_fold(ws.drop_last());
        let last = ws.last().coord;
        Coord {
            x: if prev.x >= last.x {
                prev.x
            } else {
                last.x
            },
            y: if prev.y >= last.y {
                prev.y
            } else {
                last.y
            },
        }
    }
}

/// The extent a measuring pass reports: the maximum touched coordinate
/// relative to `outer_offset`, plus one on each axis; the subtraction is
/// floored at the origin, so an untouched sink reports a one-cell extent.
pub open spec fn bounds_spec(ws: Seq<AbsoluteWrite>, outer_offset: Coord) -> Size {
    let m = max_coord_fold(ws);
    if m.x - outer_offset.x < 0 || m.y - outer_offset.y < 0 {
        Size { x: 1, y: 1 }
    } else {
        Size { x: (m.x - outer_offset.x + 1) as u32, y: (m.y - outer_offset.y + 1) as u32 }
    }
}

proof fn lemma_max_coord_fold_bounded(ws: Seq<AbsoluteWrite>)
    requires
        forall|i: int| 0 <= i < ws.len() ==> abs_write_wf(#[trigger] ws[i]),
    ensures
        0 <= max_coord_fold(ws).x <= abs_limit(),
        0 <= max_coord_fold(ws).y <= abs_limit(),
    decreases ws.len(),
{
    if ws.len() != 0 {
        lemma_max_coord_fold_bounded(ws.drop_last());
    }
}

/// A sink that ignores the payload of each write and tracks only the
/// maximum absolute coordinate touched, for measuring extents.
pub struct MeasureBounds {
    max_coord: Coord,
    writes_log: Ghost<Seq<AbsoluteWrite>>,
    rel_log_log: Ghost<Seq<RelativeWrite>>,
}

impl MeasureBounds {
    pub fn new() -> (r: MeasureBounds)
        ensures
            r.inv(),
            r.writes() == Seq::<AbsoluteWrite>::empty(),
            r.rel_log() == Seq::<RelativeWrite>::empty(),
    {
        MeasureBounds {
            max_coord: Coord { x: 0, y: 0 },
            writes_log: Ghost(Seq::empty()),
            rel_log_log: Ghost(Seq::empty()),
        }
    }

    /// The extent of everything recorded so far, relative to
    /// `outer_offset`: maximum coordinate minus the offset, plus one per
    /// axis, floored at a one-cell extent.
    pub fn bounds(&self, outer_offset: Coord) -> (r: Size)
        requires
            self.inv(),
            coord_within(outer_offset, coord_limit()),
        ensures
            r == bounds_spec(self.writes(), outer_offset),
    {
        proof {
            lemma_max_coord_fold_bounded(self.writes_log@);
        }
        let d = self.max_coord.sub(outer_offset);
        let base = match d.to_size() {
            Ok(s) => s,
            Err(_) => Size::new(0, 0),
        };
        base.add(Size::new(1, 1))
    }
}

impl Frame for MeasureBounds {
    closed spec fn writes(&self) -> Seq<AbsoluteWrite> {
        self.writes_log@
    }

    closed spec fn rel_log(&self) -> Seq<RelativeWrite> {
        self.rel_log_log@
    }

    closed spec fn inv(&self) -> bool {
        &&& self.max_coord == max_coord_fold(self.writes_log@)
        &&& forall|i: int| 0 <= i < self.writes_log@.len() ==> abs_write_wf(
            #[trigger] self.writes_log@[i],
        )
    }

    /// A measuring sink records every write, clipped or not: measurement
    /// reports the intended extent regardless of the visible window.
    open spec fn rel_effect(w: RelativeWrite) -> Seq<AbsoluteWrite> {
        seq![measure_write_spec(w)]
    }

    fn set_cell_relative(
        &mut self,
        relative_coord: Coord,
        relative_depth: i32,
        relative_cell: ViewCell,
        context: ViewContext,
    ) {
        let adjusted = relative_coord.add(context.inner_offset);
        let absolute_coord = adjusted.add(context.outer_offset);
        self.set_cell_absolute(absolute_coord, 0, ViewCell::new());
        let ghost w = RelativeWrite {
            coord: relative_coord,
            depth: 0,
            cell: default_cell(),
            context,
        };
        proof {
            self.rel_log_log@ = self.rel_log_log@.push(
                RelativeWrite {
                    coord: relative_coord,
                    depth: relative_depth,
                    cell: relative_cell,
                    context,
                },
            );
            assert((*old(self)).writes().push(measure_write_spec(w)) =~= (*old(self)).writes()
                + Self::rel_effect(
                RelativeWrite {
                    coord: relative_coord,
                    depth: relative_depth,
                    cell: relative_cell,
                    context,
                },
            ));
        }
    }

    fn set_cell_absolute(
        &mut self,
        absolute_coord: Coord,
        absolute_depth: i32,
        absolute_cell: ViewCell,
    ) {
        self.max_coord = self.max_coord.max(absolute_coord);
        proof {
            self.writes_log@ = self.writes_log@.push(
                AbsoluteWrite { coord: absolute_coord, depth: absolute_depth, cell: absolute_cell },
            );
            assert(self.writes_log@.drop_last() =~= old(self).writes_log@);
        }
    }
}

/// A sink that forwards every write to a real frame while also feeding an
/// internal `MeasureBounds`, so that one traversal both draws and reports
/// the content's natural size.  The internal measure sees exactly the
/// traffic the combiner receives: the unclipped image of every relative
/// write, and every direct absolute write as it is.
pub struct MeasureBoundsAndDraw<F> {
    pub frame: F,
    pub measure_bounds: MeasureBounds,
    pub measured: Ghost<Seq<AbsoluteWrite>>,
}

impl<F: Frame> MeasureBoundsAndDraw<F> {
    pub fn new(frame: F) -> (r: Self)
        requires
            frame.inv(),
        ensures
            r.inv(),
            r.frame == frame,
            r.writes() == frame.writes(),
            r.rel_log() == frame.rel_log(),
            r.measured@ == Seq::<AbsoluteWrite>::empty(),
    {
        MeasureBoundsAndDraw {
            frame,
            measure_bounds: MeasureBounds::new(),
            measured: Ghost(Seq::empty()),
        }
    }

    /// The measured extent of everything this combiner has accepted since
    /// its construction, relative to `outer_offset`: exactly what a bare
    /// `MeasureBounds` fed the same writes reports.
    pub fn bounds(&self, outer_offset: Coord) -> (r: Size)
        requires
            self.inv(),
            coord_within(outer_offset, coord_limit()),
        ensures
            r == bounds_spec(self.measured@, outer_offset),
    {
        self.measure_bounds.bounds(outer_offset)
    }
}

impl<F: Frame> Frame for MeasureBoundsAndDraw<F> {
    open spec fn writes(&self) -> Seq<AbsoluteWrite> {
        self.frame.writes()
    }

    open spec fn rel_log(&self) -> Seq<RelativeWrite> {
        self.frame.rel_log()
    }

    open spec fn inv(&self) -> bool {
        &&& self.frame.inv()
        &&& self.measure_bounds.inv()
        &&& self.measure_bounds.writes() == self.measured@
    }

    open spec fn rel_effect(w: RelativeWrite) -> Seq<AbsoluteWrite> {
        F::rel_effect(w)
    }

    /// Forwarded to both: the real frame interprets the write its own way,
    /// the internal measure records its unclipped image.
    fn set_cell_relative(
        &mut self,
        relative_coord: Coord,
        relative_depth: i32,
        relative_cell: ViewCell,
        context: ViewContext,
    )
        ensures
            (*final(self)).measured@ == (*old(self)).measured@.push(
                measure_write_spec(
                    RelativeWrite {
                        coord: relative_coord,
                        depth: relative_depth,
                        cell: relative_cell,
                        context,
                    },
                ),
            ),
    {
        self.frame.set_cell_relative(relative_coord, relative_depth, relative_cell, context);
        self.measure_bounds.set_cell_relative(
            relative_coord,
            relative_depth,
            relative_cell,
            context,
        );
        proof {
            let w = RelativeWrite {
                coord: relative_coord,
                depth: relative_depth,
                cell: relative_cell,
                context,
            };
            assert(old(self).measure_bounds.writes() + MeasureBounds::rel_effect(w)
                =~= old(self).measure_bounds.writes().push(measure_write_spec(w)));
            self.measured@ = self.measured@.push(measure_write_spec(w));
        }
    }

    /// Forwarded to both, as every write is: the internal measure tracks
    /// the maximum coordinate of direct absolute writes too.
    fn set_cell_absolute(
        &mut self,
        absolute_coord: Coord,
        absolute_depth: i32,
        absolute_cell: ViewCell,
    )
        ensures
            (*final(self)).measured@ == (*old(self)).measured@.push(
                AbsoluteWrite { coord: absolute_coord, depth: absolute_depth, cell: absolute_cell },
            ),
    {
        self.frame.set_cell_absolute(absolute_coord, absolute_depth, absolute_cell);
        self.measure_bounds.set_cell_absolute(absolute_coord, absolute_depth, absolute_cell);
        proof {
            self.measured@ = self.measured@.push(
                AbsoluteWrite { coord: absolute_coord, depth: absolute_depth, cell: absolute_cell },
            );
        }
    }
}

} // verus!
