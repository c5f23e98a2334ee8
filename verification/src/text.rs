use vstd::prelude::*;

use crate::cell::{Style, ViewCell};
use crate::context::ViewContext;
use crate::frame::{
    lemma_rel_effects_concat, lemma_rel_effects_push, rel_effects, AbsoluteWrite, Frame,
    MeasureBounds, RelativeWrite,
};
use crate::geometry::{coord_limit, Coord, Size};
use crate::view::{lemma_measure_effects, measured_size_spec, CellView};

verus! {

/// The two text layout policies: `NoWrap` maps each character to the next
/// column and only a line feed starts a new line; `WordWrap` buffers each
/// word and starts a new line first when a word would not fit in the
/// remaining columns.
#[derive(Clone, Copy, PartialEq, Eq, Structural, Debug)]
pub enum WrapStyle {
    NoWrap,
    WordWrap,
}

/// The wrap engine's cursor between two characters: the column and line
/// the next glyph lands on, and the word buffered so far.
#[verifier::ext_equal]
pub struct WrapStateSpec {
    pub col: int,
    pub line: int,
    pub word: Seq<char>,
}

/// The cursor a fresh run starts from.
pub open spec fn wrap_init() -> WrapStateSpec {
    WrapStateSpec { col: 0, line: 0, word: seq![] }
}

/// One drawn character: a relative write at `(col, line)` with the run's
/// style.  Translation into the context's space happens in the frame, not
/// here.
pub open spec fn text_write(col: int, line: int, ch: char, style: Style, context: ViewContext)
    -> RelativeWrite {
    RelativeWrite {
        coord: Coord { x: col as i32, y: line as i32 },
        depth: 0,
        cell: ViewCell { character: ch, style },
        context,
    }
}

/// Emit the buffered word.  If it fits in the remaining columns of the
/// current line it is drawn inline; otherwise the cursor first advances to
/// a new line.  A word alone wider than the line is drawn from column zero
/// and may overflow, clipped only by the enclosing frame.
pub open spec fn wrap_flush_word(
    st: WrapStateSpec,
    style: Style,
    context: ViewContext,
) -> (WrapStateSpec, Seq<RelativeWrite>) {
    let n = st.word.len() as int;
    if n == 0 {
        (st, seq![])
    } else {
        let wrapped = st.col + n > context.size.x && st.col > 0;
        let c = if wrapped {
            0
        } else {
            st.col
        };
        let l = if wrapped {
            st.line + 1
        } else {
            st.line
        };
        (
            WrapStateSpec { col: c + n, line: l, word: seq![] },
            Seq::new(st.word.len(), |i: int| text_write(c + i, l, st.word[i], style, context)),
        )
    }
}

/// What finishing a run does: under word wrap the pending word is emitted;
/// without wrapping every character was already drawn.
pub open spec fn wrap_finish(
    policy: WrapStyle,
    st: WrapStateSpec,
    style: Style,
    context: ViewContext,
) -> (WrapStateSpec, Seq<RelativeWrite>) {
    match policy {
        WrapStyle::NoWrap => (st, seq![]),
        WrapStyle::WordWrap => wrap_flush_word(st, style, context),
    }
}

/// Consume one character.  Without wrapping, each character maps to the
/// next column and a line feed resets the column and advances the line.
/// Under word wrap, printable characters accumulate into the pending word;
/// a space or line feed flushes it, the space then advancing one column
/// inline (or to a new line when the line is full), the line feed always
/// forcing a new line.
pub open spec fn wrap_step(
    policy: WrapStyle,
    st: WrapStateSpec,
    ch: char,
    style: Style,
    context: ViewContext,
) -> (WrapStateSpec, Seq<RelativeWrite>) {
    match policy {
        WrapStyle::NoWrap => if ch == '\n' {
            (WrapStateSpec { col: 0, line: st.line + 1, word: st.word }, seq![])
        } else {
            (
                WrapStateSpec { col: st.col + 1, line: st.line, word: st.word },
                seq![text_write(st.col, st.line, ch, style, context)],
            )
        },
        WrapStyle::WordWrap => if ch == '\n' {
            let (st1, w1) = wrap_flush_word(st, style, context);
            (WrapStateSpec { col: 0, line: st1.line + 1, word: seq![] }, w1)
        } else if ch == ' ' {
            let (st1, w1) = wrap_flush_word(st, style, context);
            if st1.col < context.size.x {
                (
                    WrapStateSpec { col: st1.col + 1, line: st1.line, word: seq![] },
                    w1 + seq![text_write(st1.col, st1.line, ' ', style, context)],
                )
            } else {
                (WrapStateSpec { col: 0, line: st1.line + 1, word: seq![] }, w1)
            }
        } else {
            (WrapStateSpec { col: st.col, line: st.line, word: st.word.push(ch) }, seq![])
        },
    }
}

/// A whole run of characters through the engine, from `st`: the final
/// cursor and everything drawn, in order.
pub open spec fn wrap_run(
    policy: WrapStyle,
    st: WrapStateSpec,
    chars: Seq<char>,
    style: Style,
    context: ViewContext,
) -> (WrapStateSpec, Seq<RelativeWrite>)
    decreases chars.len(),
{
    if chars.len() == 0 {
        (st, seq![])
    } else {
        let (st1, w1) = wrap_run(policy, st, chars.drop_last(), style, context);
        let (st2, w2) = wrap_step(policy, st1, chars.last(), style, context);
        (st2, w1 + w2)
    }
}

/// Everything a whole text lays out: the run over its characters followed
/// by the final flush.
pub open spec fn text_writes(
    policy: WrapStyle,
    chars: Seq<char>,
    style: Style,
    context: ViewContext,
) -> Seq<RelativeWrite> {
    let (st, w) = wrap_run(policy, wrap_init(), chars, style, context);
    let (st2, w2) = wrap_finish(policy, st, style, context);
    w + w2
}

/// The streaming wrap engine: consumes one character at a time, advancing
/// an internal column/line cursor, buffering the pending word under word
/// wrap.
pub struct WrapCursor {
    policy: WrapStyle,
    col: u32,
    line: u32,
    word: Vec<char>,
}

impl WrapCursor {
    /// The abstract cursor this engine is at.
    pub closed spec fn state(&self) -> WrapStateSpec {
        WrapStateSpec { col: self.col as int, line: self.line as int, word: self.word@ }
    }

    pub closed spec fn policy_spec(&self) -> WrapStyle {
        self.policy
    }

    pub fn new(policy: WrapStyle) -> (r: WrapCursor)
        ensures
            r.state() == wrap_init(),
            r.policy_spec() == policy,
    {
        WrapCursor { policy, col: 0, line: 0, word: Vec::new() }
    }

    /// Reset the cursor and buffer for reuse on new text.
    pub fn clear(&mut self)
        ensures
            (*final(self)).state() == wrap_init(),
            (*final(self)).policy_spec() == (*old(self)).policy_spec(),
    {
        self.col = 0;
        self.line = 0;
        self.word.clear();
    }

    /// Emit the buffered word as `wrap_flush_word` describes.
    fn flush_word<F: Frame>(&mut self, style: Style, context: ViewContext, frame: &mut F)
        requires
            (*old(frame)).inv(),
            context.wf(),
            (*old(self)).state().col + (*old(self)).state().word.len() + 2 <= coord_limit(),
            (*old(self)).state().line + 2 <= coord_limit(),
        ensures
            (*final(frame)).inv(),
            (*final(self)).policy_spec() == (*old(self)).policy_spec(),
            (*final(self)).state() == wrap_flush_word((*old(self)).state(), style, context).0,
            (*final(frame)).rel_log() == (*old(frame)).rel_log() + wrap_flush_word(
                (*old(self)).state(),
                style,
                context,
            ).1,
            (*final(frame)).writes() == (*old(frame)).writes() + rel_effects::<F>(
                wrap_flush_word((*old(self)).state(), style, context).1,
            ),
    {
        let n: u32 = self.word.len() as u32;
        if n == 0 {
            proof {
                assert((*old(frame)).rel_log() + Seq::<RelativeWrite>::empty() =~= (*old(
                    frame,
                )).rel_log());
                assert((*old(frame)).writes() + rel_effects::<F>(Seq::<RelativeWrite>::empty())
                    =~= (*old(frame)).writes());
            }
            return ;
        }
        if self.col + n > context.size.x && self.col > 0 {
            self.col = 0;
            self.line = self.line + 1;
        }
        let ghost ws = Seq::new(
            (*old(self)).state().word.len(),
            |i: int|
                text_write(
                    self.col as int + i,
                    self.line as int,
                    (*old(self)).state().word[i],
                    style,
                    context,
                ),
        );
        let ghost base_rel = (*frame).rel_log();
        let ghost base_writes = (*frame).writes();
        let start_col = self.col;
        let row = self.line;
        proof {
            assert(base_rel + ws.take(0) =~= base_rel);
            assert(base_writes + rel_effects::<F>(ws.take(0)) =~= base_writes);
        }
        let mut i: usize = 0;
        while i < self.word.len()
            invariant
                0 <= i <= self.word.len(),
                self.word.len() == n,
                self.word@ == (*old(self)).state().word,
                self.col == start_col,
                self.line == row,
                start_col + n <= coord_limit(),
                row + 1 <= coord_limit(),
                context.wf(),
                ws == Seq::new(
                    (*old(self)).state().word.len(),
                    |i: int|
                        text_write(
                            start_col as int + i,
                            row as int,
                            (*old(self)).state().word[i],
                            style,
                            context,
                        ),
                ),
                (*frame).inv(),
                (*frame).rel_log() == base_rel + ws.take(i as int),
                (*frame).writes() == base_writes + rel_effects::<F>(ws.take(i as int)),
            decreases self.word.len() - i,
        {
            let ch = self.word[i];
            frame.set_cell_relative(
                Coord::new((start_col + i as u32) as i32, row as i32),
                0,
                ViewCell { character: ch, style },
                context,
            );
            proof {
                assert(ws.take(i + 1) =~= ws.take(i as int).push(ws[i as int]));
                lemma_rel_effects_push::<F>(ws.take(i as int), ws[i as int]);
                assert((base_rel + ws.take(i as int)).push(ws[i as int]) =~= base_rel + ws.take(
                    i + 1,
                ));
                assert((base_writes + rel_effects::<F>(ws.take(i as int))) + F::rel_effect(
                    ws[i as int],
                ) =~= base_writes + rel_effects::<F>(ws.take(i + 1)));
            }
            i += 1;
        }
        proof {
            assert(ws.take(n as int) =~= ws);
        }
        self.col = start_col + n;
        self.word.clear();
    }

    /// Consume one character, advancing the cursor as `wrap_step`
    /// describes.
    pub fn process_character<F: Frame>(
        &mut self,
        character: char,
        style: Style,
        context: ViewContext,
        frame: &mut F,
    )
        requires
            (*old(frame)).inv(),
            context.wf(),
            (*old(self)).state().col + (*old(self)).state().word.len() + 2 <= coord_limit(),
            (*old(self)).state().line + 2 <= coord_limit(),
        ensures
            (*final(frame)).inv(),
            (*final(self)).policy_spec() == (*old(self)).policy_spec(),
            (*final(self)).state() == wrap_step(
                (*old(self)).policy_spec(),
                (*old(self)).state(),
                character,
                style,
                context,
            ).0,
            (*final(frame)).rel_log() == (*old(frame)).rel_log() + wrap_step(
                (*old(self)).policy_spec(),
                (*old(self)).state(),
                character,
                style,
                context,
            ).1,
            (*final(frame)).writes() == (*old(frame)).writes() + rel_effects::<F>(
                wrap_step(
                    (*old(self)).policy_spec(),
                    (*old(self)).state(),
                    character,
                    style,
                    context,
                ).1,
            ),
    {
        match self.policy {
            WrapStyle::NoWrap => {
                if character == '\n' {
                    self.col = 0;
                    self.line = self.line + 1;
                    proof {
                        assert((*self).state() =~= wrap_step(
                            (*old(self)).policy_spec(),
                            (*old(self)).state(),
                            character,
                            style,
                            context,
                        ).0);
                        assert((*old(frame)).rel_log() + Seq::<RelativeWrite>::empty() =~= (*old(
                            frame,
                        )).rel_log());
                        assert((*old(frame)).writes() + rel_effects::<F>(
                            Seq::<RelativeWrite>::empty(),
                        ) =~= (*old(frame)).writes());
                    }
                } else {
                    frame.set_cell_relative(
                        Coord::new(self.col as i32, self.line as i32),
                        0,
                        ViewCell { character, style },
                        context,
                    );
                    self.col = self.col + 1;
                    proof {
                        assert((*self).state() =~= wrap_step(
                            (*old(self)).policy_spec(),
                            (*old(self)).state(),
                            character,
                            style,
                            context,
                        ).0);
                        let w = text_write(
                            (*old(self)).state().col,
                            (*old(self)).state().line,
                            character,
                            style,
                            context,
                        );
                        assert((*old(frame)).rel_log().push(w) =~= (*old(frame)).rel_log()
                            + seq![w]);
                        lemma_rel_effects_push::<F>(Seq::<RelativeWrite>::empty(), w);
                        assert(Seq::<RelativeWrite>::empty().push(w) =~= seq![w]);
                        assert(rel_effects::<F>(Seq::<RelativeWrite>::empty()) + F::rel_effect(w)
                            =~= F::rel_effect(w));
                        assert((*old(frame)).writes() + F::rel_effect(w) =~= (*old(frame)).writes()
                            + rel_effects::<F>(seq![w]));
                    }
                }
            },
            WrapStyle::WordWrap => {
                if character == '\n' {
                    self.flush_word(style, context, frame);
                    self.col = 0;
                    self.line = self.line + 1;
                    proof {
                        assert((*self).state() =~= wrap_step(
                            (*old(self)).policy_spec(),
                            (*old(self)).state(),
                            character,
                            style,
                            context,
                        ).0);
                    }
                } else if character == ' ' {
                    let ghost mid_rel = wrap_flush_word((*old(self)).state(), style, context).1;
                    self.flush_word(style, context, frame);
                    if self.col < context.size.x {
                        frame.set_cell_relative(
                            Coord::new(self.col as i32, self.line as i32),
                            0,
                            ViewCell { character: ' ', style },
                            context,
                        );
                        proof {
                            let w = text_write(
                                self.col as int,
                                self.line as int,
                                ' ',
                                style,
                                context,
                            );
                            lemma_rel_effects_push::<F>(mid_rel, w);
                            assert(mid_rel.push(w) =~= mid_rel + seq![w]);
                            assert(((*old(frame)).rel_log() + mid_rel).push(w) =~= (*old(
                                frame,
                            )).rel_log() + (mid_rel + seq![w]));
                            assert(((*old(frame)).writes() + rel_effects::<F>(mid_rel))
                                + F::rel_effect(w) =~= (*old(frame)).writes() + rel_effects::<F>(
                                mid_rel + seq![w],
                            ));
                        }
                        self.col = self.col + 1;
                        proof {
                            assert((*self).state() =~= wrap_step(
                                (*old(self)).policy_spec(),
                                (*old(self)).state(),
                                character,
                                style,
                                context,
                            ).0);
                        }
                    } else {
                        self.col = 0;
                        self.line = self.line + 1;
                        proof {
                            assert((*self).state() =~= wrap_step(
                                (*old(self)).policy_spec(),
                                (*old(self)).state(),
                                character,
                                style,
                                context,
                            ).0);
                        }
                    }
                } else {
                    self.word.push(character);
                    proof {
                        assert((*self).state() =~= wrap_step(
                            (*old(self)).policy_spec(),
                            (*old(self)).state(),
                            character,
                            style,
                            context,
                        ).0);
                        assert((*old(frame)).rel_log() + Seq::<RelativeWrite>::empty() =~= (*old(
                            frame,
                        )).rel_log());
                        assert((*old(frame)).writes() + rel_effects::<F>(
                            Seq::<RelativeWrite>::empty(),
                        ) =~= (*old(frame)).writes());
                    }
                }
            },
        }
    }

    /// Emit any buffered word and finalize the line.
    pub fn flush<F: Frame>(&mut self, style: Style, context: ViewContext, frame: &mut F)
        requires
            (*old(frame)).inv(),
            context.wf(),
            (*old(self)).state().col + (*old(self)).state().word.len() + 2 <= coord_limit(),
            (*old(self)).state().line + 2 <= coord_limit(),
        ensures
            (*final(frame)).inv(),
            (*final(self)).policy_spec() == (*old(self)).policy_spec(),
            (*final(self)).state() == wrap_finish(
                (*old(self)).policy_spec(),
                (*old(self)).state(),
                style,
                context,
            ).0,
            (*final(frame)).rel_log() == (*old(frame)).rel_log() + wrap_finish(
                (*old(self)).policy_spec(),
                (*old(self)).state(),
                style,
                context,
            ).1,
            (*final(frame)).writes() == (*old(frame)).writes() + rel_effects::<F>(
                wrap_finish((*old(self)).policy_spec(), (*old(self)).state(), style, context).1,
            ),
    {
        match self.policy {
            WrapStyle::NoWrap => {
                proof {
                    assert((*old(frame)).rel_log() + Seq::<RelativeWrite>::empty() =~= (*old(
                        frame,
                    )).rel_log());
                    assert((*old(frame)).writes() + rel_effects::<F>(
                        Seq::<RelativeWrite>::empty(),
                    ) =~= (*old(frame)).writes());
                }
            },
            WrapStyle::WordWrap => {
                self.flush_word(style, context, frame);
            },
        }
    }
}


/// A step-bound for one consumed character: the cursor's column plus its
/// buffered word grow by at most one cell, and its line by at most two.
pub proof fn lemma_wrap_step_bounds(
    policy: WrapStyle,
    st: WrapStateSpec,
    ch: char,
    style: Style,
    context: ViewContext,
)
    requires
        st.col >= 0,
        st.line >= 0,
    ensures
        wrap_step(policy, st, ch, style, context).0.col + wrap_step(
            policy,
            st,
            ch,
            style,
            context,
        ).0.word.len() <= st.col + st.word.len() + 1,
        wrap_step(policy, st, ch, style, context).0.line <= st.line + 2,
        wrap_step(policy, st, ch, style, context).0.col >= 0,
        wrap_step(policy, st, ch, style, context).0.line >= 0,
{
}

/// Lays out one string through the wrap engine: every character is handed
/// to a fresh cursor, and the pending word is flushed at the end.
pub struct StringView {
    pub style: Style,
    pub wrap: WrapStyle,
}

impl StringView {
    pub fn new(style: Style, wrap: WrapStyle) -> (r: StringView)
        ensures
            r == (StringView { style, wrap }),
    {
        StringView { style, wrap }
    }
}

/// Run a whole string through a fresh cursor and flush, emitting
/// `text_writes` of its characters.
fn wrap_string_into<F: Frame>(
    wrap: WrapStyle,
    style: Style,
    data: &str,
    context: ViewContext,
    frame: &mut F,
)
    requires
        (*old(frame)).inv(),
        context.wf(),
        2 * data@.len() + 4 <= coord_limit(),
    ensures
        (*final(frame)).inv(),
        (*final(frame)).rel_log() == (*old(frame)).rel_log() + text_writes(
            wrap,
            data@,
            style,
            context,
        ),
        (*final(frame)).writes() == (*old(frame)).writes() + rel_effects::<F>(
            text_writes(wrap, data@, style, context),
        ),
{
    let ghost base_rel = (*frame).rel_log();
    let ghost base_writes = (*frame).writes();
    let mut cursor = WrapCursor::new(wrap);
    let n = data.unicode_len();
    proof {
        assert(data@.take(0) =~= Seq::<char>::empty());
        assert(base_rel + wrap_run(wrap, wrap_init(), data@.take(0), style, context).1
            =~= base_rel);
        assert(base_writes + rel_effects::<F>(
            wrap_run(wrap, wrap_init(), data@.take(0), style, context).1,
        ) =~= base_writes);
    }
    let mut i: usize = 0;
    while i < n
        invariant
            0 <= i <= n,
            n == data@.len(),
            2 * n + 4 <= coord_limit(),
            context.wf(),
            cursor.policy_spec() == wrap,
            cursor.state() == wrap_run(wrap, wrap_init(), data@.take(i as int), style, context).0,
            cursor.state().col + cursor.state().word.len() <= i,
            cursor.state().line <= 2 * i,
            cursor.state().col >= 0 && cursor.state().line >= 0,
            (*frame).inv(),
            (*frame).rel_log() == base_rel + wrap_run(
                wrap,
                wrap_init(),
                data@.take(i as int),
                style,
                context,
            ).1,
            (*frame).writes() == base_writes + rel_effects::<F>(
                wrap_run(wrap, wrap_init(), data@.take(i as int), style, context).1,
            ),
        decreases n - i,
    {
        let ghost pre = wrap_run(wrap, wrap_init(), data@.take(i as int), style, context);
        let ch = data.get_char(i);
        cursor.process_character(ch, style, context, frame);
        proof {
            lemma_wrap_step_bounds(wrap, pre.0, ch, style, context);
            let step = wrap_step(wrap, pre.0, ch, style, context);
            assert(data@.take(i + 1).drop_last() =~= data@.take(i as int));
            assert(data@.take(i + 1).last() == data@[i as int]);
            assert(wrap_run(wrap, wrap_init(), data@.take(i + 1), style, context).1 == pre.1
                + step.1);
            assert((base_rel + pre.1) + step.1 =~= base_rel + (pre.1 + step.1));
            lemma_rel_effects_concat::<F>(pre.1, step.1);
            assert((base_writes + rel_effects::<F>(pre.1)) + rel_effects::<F>(step.1)
                =~= base_writes + rel_effects::<F>(pre.1 + step.1));
        }
        i += 1;
    }
    proof {
        assert(data@.take(n as int) =~= data@);
    }
    let ghost run = wrap_run(wrap, wrap_init(), data@, style, context);
    cursor.flush(style, context, frame);
    proof {
        let fin = wrap_finish(wrap, run.0, style, context);
        assert((base_rel + run.1) + fin.1 =~= base_rel + (run.1 + fin.1));
        lemma_rel_effects_concat::<F>(run.1, fin.1);
        assert((base_writes + rel_effects::<F>(run.1)) + rel_effects::<F>(fin.1) =~= base_writes
            + rel_effects::<F>(run.1 + fin.1));
    }
}

impl<'a> CellView<&'a str> for StringView {
    open spec fn emitted(&self, data: &'a str, context: ViewContext) -> Seq<RelativeWrite> {
        text_writes(self.wrap, data@, self.style, context)
    }

    open spec fn view_requires(&self, data: &'a str, context: ViewContext) -> bool {
        2 * data@.len() + 4 <= coord_limit()
    }

    open spec fn reported_size(&self, data: &'a str, context: ViewContext) -> Size {
        measured_size_spec(self.emitted(data, context), context.outer_offset)
    }

    fn view<F: Frame>(&mut self, data: &'a str, context: ViewContext, frame: &mut F) {
        wrap_string_into(self.wrap, self.style, data, context, frame);
    }

    fn visible_bounds(&mut self, data: &'a str, context: ViewContext) -> (r: Size) {
        let ghost e = (*self).emitted(data, context);
        let mut measure_bounds = MeasureBounds::new();
        self.view(data, context, &mut measure_bounds);
        proof {
            lemma_measure_effects(e);
            assert(Seq::<AbsoluteWrite>::empty() + rel_effects::<MeasureBounds>(e)
                =~= rel_effects::<MeasureBounds>(e));
        }
        measure_bounds.bounds(context.outer_offset)
    }

    fn view_reporting_intended_size<F: Frame>(
        &mut self,
        data: &'a str,
        context: ViewContext,
        frame: &mut F,
    ) -> (r: Size) {
        let r = self.visible_bounds(data, context);
        self.view(data, context, frame);
        r
    }
}

/// Lays out one string on a single line: no wrapping, so only line feeds
/// break the line.
#[derive(Clone, Copy, PartialEq, Eq, Structural, Debug)]
pub struct StringViewSingleLine {
    pub style: Style,
}

impl StringViewSingleLine {
    pub fn new(style: Style) -> (r: StringViewSingleLine)
        ensures
            r == (StringViewSingleLine { style }),
    {
        StringViewSingleLine { style }
    }
}

impl<'a> CellView<&'a str> for StringViewSingleLine {
    open spec fn emitted(&self, data: &'a str, context: ViewContext) -> Seq<RelativeWrite> {
        text_writes(WrapStyle::NoWrap, data@, self.style, context)
    }

    open spec fn view_requires(&self, data: &'a str, context: ViewContext) -> bool {
        2 * data@.len() + 4 <= coord_limit()
    }

    open spec fn reported_size(&self, data: &'a str, context: ViewContext) -> Size {
        measured_size_spec(self.emitted(data, context), context.outer_offset)
    }

    fn view<F: Frame>(&mut self, data: &'a str, context: ViewContext, frame: &mut F) {
        wrap_string_into(WrapStyle::NoWrap, self.style, data, context, frame);
    }

    fn visible_bounds(&mut self, data: &'a str, context: ViewContext) -> (r: Size) {
        let ghost e = (*self).emitted(data, context);
        let mut measure_bounds = MeasureBounds::new();
        self.view(data, context, &mut measure_bounds);
        proof {
            lemma_measure_effects(e);
            assert(Seq::<AbsoluteWrite>::empty() + rel_effects::<MeasureBounds>(e)
                =~= rel_effects::<MeasureBounds>(e));
        }
        measure_bounds.bounds(context.outer_offset)
    }

    fn view_reporting_intended_size<F: Frame>(
        &mut self,
        data: &'a str,
        context: ViewContext,
        frame: &mut F,
    ) -> (r: Size) {
        let r = self.visible_bounds(data, context);
        self.view(data, context, frame);
        r
    }
}

/// The characters of a sequence of text parts, in order.
pub open spec fn parts_chars(parts: Seq<Seq<char>>) -> Seq<char>
    decreases parts.len(),
{
    if parts.len() == 0 {
        seq![]
    } else {
        parts_chars(parts.drop_last()) + parts.last()
    }
}

/// The characters a list of string parts lays out, as one stream.
pub open spec fn parts_view(parts: Seq<String>) -> Seq<char> {
    parts_chars(parts.map_values(|s: String| s@))
}

/// Lays out several text parts as one stream through the wrap engine: the
/// parts are concatenated, so a word may span a part boundary.
pub struct TextView {
    pub style: Style,
    pub wrap: WrapStyle,
}

impl TextView {
    pub fn new(style: Style, wrap: WrapStyle) -> (r: TextView)
        ensures
            r == (TextView { style, wrap }),
    {
        TextView { style, wrap }
    }
}

impl<'a> CellView<&'a Vec<String>> for TextView {
    open spec fn emitted(&self, data: &'a Vec<String>, context: ViewContext) -> Seq<
        RelativeWrite,
    > {
        text_writes(self.wrap, parts_view(data@), self.style, context)
    }

    open spec fn view_requires(&self, data: &'a Vec<String>, context: ViewContext) -> bool {
        2 * parts_view(data@).len() + 4 <= coord_limit()
    }

    open spec fn reported_size(&self, data: &'a Vec<String>, context: ViewContext) -> Size {
        measured_size_spec(self.emitted(data, context), context.outer_offset)
    }

    fn view<F: Frame>(&mut self, data: &'a Vec<String>, context: ViewContext, frame: &mut F) {
        let ghost mapped = data@.map_values(|s: String| s@);
        let mut joined = String::new();
        proof {
            assert(mapped.take(0) =~= Seq::<Seq<char>>::empty());
            assert(joined@ =~= parts_chars(mapped.take(0)));
        }
        let mut p: usize = 0;
        while p < data.len()
            invariant
                0 <= p <= data.len(),
                mapped == data@.map_values(|s: String| s@),
                joined@ == parts_chars(mapped.take(p as int)),
            decreases data.len() - p,
        {
            joined.append(data[p].as_str());
            proof {
                assert(mapped.take(p + 1).drop_last() =~= mapped.take(p as int));
                assert(mapped.take(p + 1).last() == mapped[p as int]);
                assert(mapped[p as int] == data@[p as int]@);
            }
            p += 1;
        }
        proof {
            assert(mapped.take(data@.len() as int) =~= mapped);
        }
        wrap_string_into(self.wrap, self.style, joined.as_str(), context, frame);
    }

    fn visible_bounds(&mut self, data: &'a Vec<String>, context: ViewContext) -> (r: Size) {
        let ghost e = (*self).emitted(data, context);
        let mut measure_bounds = MeasureBounds::new();
        self.view(data, context, &mut measure_bounds);
        proof {
            lemma_measure_effects(e);
            assert(Seq::<AbsoluteWrite>::empty() + rel_effects::<MeasureBounds>(e)
                =~= rel_effects::<MeasureBounds>(e));
        }
        measure_bounds.bounds(context.outer_offset)
    }

    fn view_reporting_intended_size<F: Frame>(
        &mut self,
        data: &'a Vec<String>,
        context: ViewContext,
        frame: &mut F,
    ) -> (r: Size) {
        let r = self.visible_bounds(data, context);
        self.view(data, context, frame);
        r
    }
}

} // verus!

