//! Terminal cells: sources projected to styled grapheme cells, and VT patches
//! between two frames of cells.
use crate::render::StyledSpan;
use crate::style::Style;
use crate::text::{bytes_to_text, lossy_utf8, text_eq};
use vstd::prelude::*;

verus! {

/// Columns between tab stops.
pub const TAB_STOP: usize = 8;

/// One terminal cell: a grapheme, its style and its display width.
#[derive(Debug)]
pub struct StyledCell {
    pub text: String,
    pub style: Option<Style>,
    pub width: usize,
}

/// What a cell shows: its text, style and width.
pub type CellView = (Seq<char>, Option<Style>, usize);

/// The view of a cell.
pub open spec fn cell_view(c: StyledCell) -> CellView {
    (c.text@, c.style, c.width)
}

/// The views of a row of cells.
pub open spec fn row_view(cells: Seq<StyledCell>) -> Seq<CellView> {
    cells.map_values(|c: StyledCell| cell_view(c))
}

/// The views of rows of cells.
pub open spec fn rows_view(lines: Seq<Vec<StyledCell>>) -> Seq<Seq<CellView>> {
    lines.map_values(|l: Vec<StyledCell>| row_view(l@))
}

impl Clone for StyledCell {
    fn clone(&self) -> (c: Self)
        ensures
            cell_view(c) == cell_view(*self),
    {
        StyledCell { text: self.text.clone(), style: self.style, width: self.width }
    }
}

/// The grapheme clusters (extended) of a text with their byte offsets, as
/// `UnicodeSegmentation::grapheme_indices(text, true)` yields them.
pub uninterp spec fn grapheme_indices_of(text: Seq<char>) -> Seq<(usize, Seq<char>)>;

/// Splits a text into extended grapheme clusters with their byte offsets
/// (`UnicodeSegmentation::grapheme_indices` with `is_extended` set).
///
/// The result is tied to the name `grapheme_indices_of` only: the clusters
/// follow Unicode Standard Annex #29, which takes pages to state.
#[verifier::external_body]
fn grapheme_indices(text: &str) -> (v: Vec<(usize, String)>)
    ensures
        v@.map_values(|p: (usize, String)| (p.0, p.1@)) == grapheme_indices_of(text@),
{
    unicode_segmentation::UnicodeSegmentation::grapheme_indices(text, true).map(
        |(i, g)| (i, g.to_string()),
    ).collect()
}

/// The display width of a text, as `UnicodeWidthStr::width` computes it.
pub uninterp spec fn display_width_of(text: Seq<char>) -> usize;

/// The displayed width of a text in columns (`UnicodeWidthStr::width`).
///
/// The result is tied to the name `display_width_of` only: it follows the
/// East Asian Width tables of Unicode Standard Annex #11.
#[verifier::external_body]
fn str_display_width(text: &str) -> (w: usize)
    ensures
        w == display_width_of(text@),
{
    unicode_width::UnicodeWidthStr::width(text)
}

/// How many columns a tab advances at column `col` with tab stops every
/// `stop` columns (at least one).
pub open spec fn tab_width(col: int, stop: int) -> int {
    let s = if stop < 1 {
        1
    } else {
        stop
    };
    if col % s == 0 {
        s
    } else {
        s - col % s
    }
}

/// Returns how many display columns a tab advances at `display_col`.
pub fn tab_width_at(display_col: usize, tab_stop: usize) -> (w: usize)
    ensures
        w as int == tab_width(display_col as int, tab_stop as int),
        1 <= w <= if tab_stop < 1 {
            1
        } else {
            tab_stop as int
        },
{
    let stop = if tab_stop < 1 {
        1
    } else {
        tab_stop
    };
    let remainder = display_col % stop;
    if remainder == 0 {
        stop
    } else {
        stop - remainder
    }
}

/// The display width of a grapheme drawn at column `col`: tabs advance to the
/// next tab stop, other graphemes take their Unicode display width.
pub open spec fn grapheme_width(g: Seq<char>, col: int) -> int {
    if g == seq!['\t'] {
        tab_width(col, TAB_STOP as int)
    } else {
        display_width_of(g) as int
    }
}

/// Returns the terminal display width of a grapheme at a given display column.
pub fn display_width_for_grapheme(grapheme: &str, line_display_width: usize) -> (w: usize)
    ensures
        w as int == grapheme_width(grapheme@, line_display_width as int),
{
    proof {
        reveal_strlit("\t");
        assert("\t"@ =~= seq!['\t']);
    }
    if text_eq_lit(grapheme, "\t") {
        return tab_width_at(line_display_width, TAB_STOP);
    }
    str_display_width(grapheme)
}

/// Whether a string slice holds exactly the characters of a literal.
fn text_eq_lit(a: &str, b: &str) -> (r: bool)
    ensures
        r == (a@ == b@),
{
    crate::text::str_eq(a, b)
}

/// The span index reached from `c` after passing the spans that end at or
/// before byte `b`.
pub open spec fn advance_cursor(spans: Seq<StyledSpan>, c: int, b: int) -> int
    decreases spans.len() - c,
{
    if 0 <= c < spans.len() && spans[c].end_byte <= b {
        advance_cursor(spans, c + 1, b)
    } else {
        c
    }
}

/// The style of span `c` at byte `b` when the span covers it.
pub open spec fn style_at(spans: Seq<StyledSpan>, c: int, b: int) -> Option<Style> {
    if 0 <= c < spans.len() && spans[c].start_byte <= b < spans[c].end_byte {
        spans[c].style
    } else {
        None
    }
}

/// `a + b`, saturating at `usize::MAX`.
pub open spec fn sat_add(a: int, b: int) -> int {
    if a + b > usize::MAX {
        usize::MAX as int
    } else {
        a + b
    }
}

/// The cells of the first line of a text after its first `k` graphemes, the
/// span index reached, the column reached, and whether the line has ended.
pub open spec fn line_state(gs: Seq<(usize, Seq<char>)>, spans: Seq<StyledSpan>, k: int) -> (
    Seq<CellView>,
    int,
    int,
    bool,
)
    decreases k,
{
    if k <= 0 {
        (seq![], 0, 0, false)
    } else {
        let prev = line_state(gs, spans, k - 1);
        if prev.3 {
            prev
        } else {
            let b = gs[k - 1].0 as int;
            let g = gs[k - 1].1;
            let c = advance_cursor(spans, prev.1, b);
            if g == seq!['\n'] {
                (prev.0, c, prev.2, true)
            } else {
                let w = grapheme_width(g, prev.2);
                (prev.0.push((g, style_at(spans, c, b), w as usize)), c, sat_add(prev.2, w), false)
            }
        }
    }
}

/// The cells of the first line of a source drawn with its spans.
pub open spec fn line_cells(src: Seq<u8>, spans: Seq<StyledSpan>) -> Seq<CellView> {
    let gs = grapheme_indices_of(lossy_utf8(src));
    line_state(gs, spans, gs.len() as int).0
}

/// Projects a single-line source and spans into styled cells for line diffing.
pub fn build_styled_line_cells(source: &[u8], spans: &[StyledSpan]) -> (line: Vec<StyledCell>)
    ensures
        row_view(line@) == line_cells(source@, spans@),
{
    let rendered = bytes_to_text(source);
    let gs = grapheme_indices(rendered.as_str());
    let ghost gv = gs@.map_values(|p: (usize, String)| (p.0, p.1@));
    let mut line: Vec<StyledCell> = Vec::new();
    let mut line_display_width: usize = 0;
    let mut span_cursor: usize = 0;
    let mut k: usize = 0;
    while k < gs.len()
        invariant_except_break
            !line_state(gv, spans@, k as int).3,
            row_view(line@) == line_state(gv, spans@, k as int).0,
            span_cursor as int == line_state(gv, spans@, k as int).1,
            line_display_width as int == line_state(gv, spans@, k as int).2,
        invariant
            k <= gs@.len(),
            gv == gs@.map_values(|p: (usize, String)| (p.0, p.1@)),
            gv == grapheme_indices_of(lossy_utf8(source@)),
            span_cursor <= spans@.len(),
        ensures
            row_view(line@) == line_state(gv, spans@, gv.len() as int).0,
        decreases gs@.len() - k,
    {
        let byte_idx = gs[k].0;
        let grapheme = &gs[k].1;
        assert(gv[k as int] == (byte_idx, grapheme@));
        while span_cursor < spans.len() && spans[span_cursor].end_byte <= byte_idx
            invariant
                span_cursor <= spans@.len(),
                advance_cursor(spans@, span_cursor as int, byte_idx as int) == advance_cursor(
                    spans@,
                    line_state(gv, spans@, k as int).1,
                    byte_idx as int,
                ),
            decreases spans@.len() - span_cursor,
        {
            span_cursor += 1;
        }
        let style = if span_cursor < spans.len() && byte_idx >= spans[span_cursor].start_byte
            && byte_idx < spans[span_cursor].end_byte {
            spans[span_cursor].style
        } else {
            None
        };
        proof {
            reveal_strlit("\n");
            assert("\n"@ =~= seq!['\n']);
        }
        if text_eq(grapheme, "\n") {
            proof {
                assert(line_state(gv, spans@, k as int + 1).3);
                lemma_line_state_stays_done(gv, spans@, k as int + 1, gv.len() as int);
            }
            break;
        }
        let cell_width = display_width_for_grapheme(grapheme.as_str(), line_display_width);
        let ghost before = row_view(line@);
        line.push(StyledCell { text: grapheme.clone(), style, width: cell_width });
        assert(row_view(line@) == before.push((grapheme@, style, cell_width)));
        line_display_width = line_display_width.saturating_add(cell_width);
        k += 1;
    }
    line
}

/// Once a line has ended, later graphemes leave it unchanged.
proof fn lemma_line_state_stays_done(gs: Seq<(usize, Seq<char>)>, spans: Seq<StyledSpan>, k: int, m: int)
    requires
        0 <= k <= m,
        line_state(gs, spans, k).3,
    ensures
        line_state(gs, spans, m) == line_state(gs, spans, k),
    decreases m - k,
{
    if m > k {
        lemma_line_state_stays_done(gs, spans, k, m - 1);
    }
}

/// The rows of cells of a source after its first `k` graphemes, drawn in a
/// viewport `width` columns wide and `height` rows high: the finished rows, the
/// current row, the span index reached, the column reached, and whether the
/// viewport is full.
pub open spec fn frame_state(
    gs: Seq<(usize, Seq<char>)>,
    spans: Seq<StyledSpan>,
    width: int,
    height: int,
    k: int,
) -> (Seq<Seq<CellView>>, Seq<CellView>, int, int, bool)
    decreases k,
{
    if k <= 0 {
        (seq![], seq![], 0, 0, false)
    } else {
        let p = frame_state(gs, spans, width, height, k - 1);
        if p.4 {
            p
        } else {
            let b = gs[k - 1].0 as int;
            let g = gs[k - 1].1;
            let c = advance_cursor(spans, p.2, b);
            if g == seq!['\n'] {
                let lines = p.0.push(p.1);
                (lines, seq![], c, 0, lines.len() >= height)
            } else {
                let w = grapheme_width(g, p.3);
                if p.3 + w <= width || w == 0 {
                    (p.0, p.1.push((g, style_at(spans, c, b), w as usize)), c, p.3 + w, false)
                } else {
                    (p.0, p.1, c, p.3, false)
                }
            }
        }
    }
}

/// The rows of cells of a source drawn with its spans in a viewport: cells
/// that would pass the right edge are dropped (zero-width cells are kept), and
/// rows below the bottom edge are dropped.
pub open spec fn frame_cells(src: Seq<u8>, spans: Seq<StyledSpan>, width: int, height: int) -> Seq<
    Seq<CellView>,
> {
    let gs = grapheme_indices_of(lossy_utf8(src));
    let st = frame_state(gs, spans, width, height, gs.len() as int);
    if st.4 {
        st.0
    } else {
        let all = st.0.push(st.1);
        if all.len() > height {
            all.take(height)
        } else {
            all
        }
    }
}

/// Once the viewport is full, later graphemes leave the frame unchanged.
proof fn lemma_frame_state_stays_done(
    gs: Seq<(usize, Seq<char>)>,
    spans: Seq<StyledSpan>,
    width: int,
    height: int,
    k: int,
    m: int,
)
    requires
        0 <= k <= m,
        frame_state(gs, spans, width, height, k).4,
    ensures
        frame_state(gs, spans, width, height, m) == frame_state(gs, spans, width, height, k),
    decreases m - k,
{
    if m > k {
        lemma_frame_state_stays_done(gs, spans, width, height, k, m - 1);
    }
}

/// Projects source bytes and spans into styled terminal cells for diffing.
///
/// Cells are grapheme-based and each cell tracks its terminal display width.
pub fn build_styled_cells(source: &[u8], spans: &[StyledSpan], width: usize, height: usize) -> (lines:
    Vec<Vec<StyledCell>>)
    ensures
        rows_view(lines@) == frame_cells(source@, spans@, width as int, height as int),
{
    let rendered = bytes_to_text(source);
    let gs = grapheme_indices(rendered.as_str());
    let ghost gv = gs@.map_values(|p: (usize, String)| (p.0, p.1@));
    let ghost w = width as int;
    let ghost h = height as int;
    let mut lines: Vec<Vec<StyledCell>> = Vec::new();
    let mut line: Vec<StyledCell> = Vec::new();
    let mut line_display_width: usize = 0;
    let mut span_cursor: usize = 0;
    let mut k: usize = 0;
    proof {
        reveal_strlit("\n");
        assert("\n"@ =~= seq!['\n']);
    }
    while k < gs.len()
        invariant
            k <= gs@.len(),
            w == width,
            h == height,
            gv == gs@.map_values(|p: (usize, String)| (p.0, p.1@)),
            gv == grapheme_indices_of(lossy_utf8(source@)),
            "\n"@ == seq!['\n'],
            !frame_state(gv, spans@, w, h, k as int).4,
            rows_view(lines@) == frame_state(gv, spans@, w, h, k as int).0,
            row_view(line@) == frame_state(gv, spans@, w, h, k as int).1,
            span_cursor as int == frame_state(gv, spans@, w, h, k as int).2,
            line_display_width as int == frame_state(gv, spans@, w, h, k as int).3,
            line_display_width <= width,
            span_cursor <= spans@.len(),
        decreases gs@.len() - k,
    {
        let byte_idx = gs[k].0;
        let grapheme = &gs[k].1;
        assert(gv[k as int] == (byte_idx, grapheme@));
        while span_cursor < spans.len() && spans[span_cursor].end_byte <= byte_idx
            invariant
                span_cursor <= spans@.len(),
                advance_cursor(spans@, span_cursor as int, byte_idx as int) == advance_cursor(
                    spans@,
                    frame_state(gv, spans@, w, h, k as int).2,
                    byte_idx as int,
                ),
            decreases spans@.len() - span_cursor,
        {
            span_cursor += 1;
        }
        let style = if span_cursor < spans.len() && byte_idx >= spans[span_cursor].start_byte
            && byte_idx < spans[span_cursor].end_byte {
            spans[span_cursor].style
        } else {
            None
        };
        if text_eq(grapheme, "\n") {
            let ghost before = rows_view(lines@);
            let finished = line;
            let ghost fv = row_view(finished@);
            lines.push(finished);
            assert(rows_view(lines@) == before.push(fv));
            line = Vec::new();
            line_display_width = 0;
            if lines.len() >= height {
                proof {
                    assert(frame_state(gv, spans@, w, h, k + 1).4);
                    lemma_frame_state_stays_done(gv, spans@, w, h, k + 1, gv.len() as int);
                    assert(row_view(line@) =~= Seq::<CellView>::empty());
                }
                return lines;
            }
            assert(row_view(line@) =~= Seq::<CellView>::empty());
            k += 1;
            continue;
        }
        let cell_width = display_width_for_grapheme(grapheme.as_str(), line_display_width);
        let fits = match line_display_width.checked_add(cell_width) {
            Some(total) => total <= width,
            None => false,
        };
        if fits || cell_width == 0 {
            let ghost before = row_view(line@);
            line.push(StyledCell { text: grapheme.clone(), style, width: cell_width });
            assert(row_view(line@) == before.push((grapheme@, style, cell_width)));
            line_display_width = line_display_width + cell_width;
        }
        k += 1;
    }
    let ghost before = rows_view(lines@);
    let ghost lv = row_view(line@);
    lines.push(line);
    assert(rows_view(lines@) == before.push(lv));
    let ghost all = rows_view(lines@);
    lines.truncate(height);
    proof {
        if all.len() > h {
            assert(rows_view(lines@) =~= all.take(h));
        } else {
            assert(rows_view(lines@) =~= all);
        }
    }
    lines
}

/// Clips cached styled lines to the current viewport bounds.
pub fn clip_lines_to_viewport(lines: &[Vec<StyledCell>], width: usize, height: usize) -> (out: Vec<
    Vec<StyledCell>,
>)
    ensures
        rows_view(out@) == clip_rows(rows_view(lines@), width as int, height as int),
{
    let mut out: Vec<Vec<StyledCell>> = Vec::new();
    let n = if lines.len() < height {
        lines.len()
    } else {
        height
    };
    let mut i: usize = 0;
    while i < n
        invariant
            i <= n <= lines@.len(),
            n as int == (if lines@.len() < height { lines@.len() as int } else { height as int }),
            rows_view(out@) == clip_rows(rows_view(lines@), width as int, height as int).take(i as int),
        decreases n - i,
    {
        let line = &lines[i];
        let m = if line.len() < width {
            line.len()
        } else {
            width
        };
        let mut row: Vec<StyledCell> = Vec::new();
        let mut j: usize = 0;
        while j < m
            invariant
                j <= m <= line@.len(),
                row_view(row@) == row_view(line@).take(j as int),
            decreases m - j,
        {
            let ghost before = row_view(row@);
            let c = line[j].clone();
            assert(cell_view(c) == row_view(line@)[j as int]);
            row.push(c);
            assert(row_view(row@) =~= before.push(cell_view(c)));
            assert(row_view(row@) =~= row_view(line@).take(j + 1));
            j += 1;
        }
        let ghost before = rows_view(out@);
        let ghost rv = row_view(row@);
        proof {
            let clipped = clip_rows(rows_view(lines@), width as int, height as int);
            let src_row = rows_view(lines@)[i as int];
            assert(src_row == row_view(line@));
            if line@.len() > width {
                assert(rv =~= src_row.take(width as int));
            } else {
                assert(rv =~= src_row);
            }
            assert(clipped[i as int] == rv);
        }
        out.push(row);
        proof {
            let clipped = clip_rows(rows_view(lines@), width as int, height as int);
            assert(rows_view(out@) =~= before.push(rv));
            assert(rows_view(out@) =~= clipped.take(i + 1));
        }
        i += 1;
    }
    assert(clip_rows(rows_view(lines@), width as int, height as int).take(n as int) =~= clip_rows(
        rows_view(lines@),
        width as int,
        height as int,
    ));
    out
}

/// Whether every grapheme other than a newline is one display column wide
/// (no tabs, no wide or zero-width graphemes).
pub open spec fn unit_widths(gs: Seq<(usize, Seq<char>)>) -> bool {
    forall|i: int|
        0 <= i < gs.len() ==> (#[trigger] gs[i]).1 == seq!['\n'] || (gs[i].1 != seq!['\t']
            && display_width_of(gs[i].1) == 1)
}

/// A row cut to its first `width` cells.
pub open spec fn clip_row(r: Seq<CellView>, width: int) -> Seq<CellView> {
    if r.len() > width {
        r.take(width)
    } else {
        r
    }
}

/// How the drawing state in a smaller viewport (`p`, `width` by `height`)
/// relates to the drawing state in a larger one (`q`): while the smaller one
/// is not full, both hold the same rows, each cut to `width` cells; once it
/// is full, its rows are the larger one's first `height` rows, cut.
pub open spec fn clipped_state(
    q: (Seq<Seq<CellView>>, Seq<CellView>, int, int, bool),
    p: (Seq<Seq<CellView>>, Seq<CellView>, int, int, bool),
    width: int,
    height: int,
) -> bool {
    &&& q.3 == q.1.len()
    &&& p.3 == p.1.len()
    &&& p.3 <= width
    &&& !p.4 ==> {
        &&& !q.4
        &&& q.2 == p.2
        &&& q.0.len() == p.0.len()
        &&& p.0.len() < height
        &&& forall|i: int| 0 <= i < p.0.len() ==> p.0[i] == clip_row(#[trigger] q.0[i], width)
        &&& p.1 == clip_row(q.1, width)
    }
    &&& p.4 ==> {
        &&& p.0.len() == height
        &&& q.0.len() >= height
        &&& forall|i: int| 0 <= i < height ==> p.0[i] == clip_row(#[trigger] q.0[i], width)
    }
}

/// Drawing graphemes of unit width in a smaller viewport gives the drawing
/// in a larger one, clipped.
proof fn lemma_frame_state_clipped(
    gs: Seq<(usize, Seq<char>)>,
    spans: Seq<StyledSpan>,
    big_w: int,
    big_h: int,
    w: int,
    h: int,
    k: int,
)
    requires
        unit_widths(gs),
        1 <= w <= big_w,
        1 <= h <= big_h,
        0 <= k <= gs.len(),
    ensures
        clipped_state(frame_state(gs, spans, big_w, big_h, k), frame_state(gs, spans, w, h, k), w, h),
    decreases k,
{
    if k > 0 {
        lemma_frame_state_clipped(gs, spans, big_w, big_h, w, h, k - 1);
        let q = frame_state(gs, spans, big_w, big_h, k - 1);
        let p = frame_state(gs, spans, w, h, k - 1);
        let q2 = frame_state(gs, spans, big_w, big_h, k);
        let p2 = frame_state(gs, spans, w, h, k);
        let g = gs[k - 1].1;
        assert(g == seq!['\n'] || (g != seq!['\t'] && display_width_of(g) == 1));
        if p.4 {
            assert(p2 == p);
            if !q.4 {
                if g == seq!['\n'] {
                    assert(q2.0 == q.0.push(q.1));
                    assert forall|i: int| 0 <= i < h implies p2.0[i] == clip_row(#[trigger] q2.0[i], w) by {
                        assert(q2.0[i] == q.0[i]);
                    }
                } else {
                    assert(q2.0 == q.0);
                }
            }
        } else {
            if g == seq!['\n'] {
                assert(q2.0 == q.0.push(q.1));
                assert(p2.0 == p.0.push(p.1));
                assert forall|i: int| 0 <= i < p2.0.len() implies p2.0[i] == clip_row(#[trigger] q2.0[i], w) by {
                    if i < p.0.len() {
                        assert(q2.0[i] == q.0[i]);
                        assert(p2.0[i] == p.0[i]);
                    }
                }
            } else {
                assert(grapheme_width(g, q.3) == 1);
                assert(grapheme_width(g, p.3) == 1);
                if q.1.len() < w {
                    assert(p.1 == q.1);
                    assert(p2.1 == q2.1);
                } else {
                    assert(p.1 =~= q.1.take(w));
                    if q.3 + 1 <= big_w {
                        assert(q2.1 == q.1.push((g, style_at(spans, advance_cursor(spans, q.2, gs[k - 1].0 as int), gs[k - 1].0 as int), 1usize)));
                        assert(q2.1.take(w) =~= q.1.take(w));
                    }
                }
            }
        }
    }
}

/// Drawing a source of unit-width graphemes in a viewport no larger than
/// another gives the drawing in the larger one, clipped to the smaller.
pub proof fn lemma_frame_cells_clipped(src: Seq<u8>, spans: Seq<StyledSpan>, big_w: int, big_h: int, w: int, h: int)
    requires
        unit_widths(grapheme_indices_of(lossy_utf8(src))),
        1 <= w <= big_w,
        1 <= h <= big_h,
    ensures
        clip_rows(frame_cells(src, spans, big_w, big_h), w, h) == frame_cells(src, spans, w, h),
{
    let gs = grapheme_indices_of(lossy_utf8(src));
    let n = gs.len() as int;
    lemma_frame_state_clipped(gs, spans, big_w, big_h, w, h, n);
    let q = frame_state(gs, spans, big_w, big_h, n);
    let p = frame_state(gs, spans, w, h, n);
    let big = frame_cells(src, spans, big_w, big_h);
    let small = frame_cells(src, spans, w, h);
    let c = clip_rows(big, w, h);
    if p.4 {
        assert(small == p.0);
        assert(big.len() >= h);
        assert forall|i: int| 0 <= i < h implies big[i] == q.0[i] by {
            if !q.4 {
                let all = q.0.push(q.1);
                assert(all[i] == q.0[i]);
            }
        }
        assert(c =~= small);
    } else {
        assert(small == p.0.push(p.1));
        assert(big == q.0.push(q.1));
        assert(c =~= small) by {
            assert forall|i: int| 0 <= i < c.len() implies c[i] == small[i] by {
                if i < p.0.len() {
                    assert(big[i] == q.0[i]);
                    assert(small[i] == p.0[i]);
                }
            }
        }
    }
}

/// The first `height` rows, each cut to its first `width` cells.
pub open spec fn clip_rows(rows: Seq<Seq<CellView>>, width: int, height: int) -> Seq<Seq<CellView>> {
    let kept = if rows.len() > height {
        rows.take(height)
    } else {
        rows
    };
    kept.map_values(|r: Seq<CellView>| if r.len() > width {
        r.take(width)
    } else {
        r
    })
}

} // verus!
