//! VT patches: the escape sequences that turn one frame of cells into another.
use crate::cells::{cell_view, row_view, rows_view, sat_add, CellView, StyledCell};
use crate::sgr::{sgr_open, style_open_sgr, ColorMode};
use crate::style::Style;
use crate::text::{decimal, push_decimal, push_str};
use vstd::prelude::*;

verus! {

/// The SGR reset sequence.
pub open spec fn sgr_reset() -> Seq<char> {
    "\x1b[0m"@
}

/// The erase-to-end-of-line sequence.
pub open spec fn erase_line_end() -> Seq<char> {
    "\x1b[K"@
}

/// The opening SGR sequence of a style, or nothing.
pub open spec fn open_or_empty(style: Option<Style>, mode: ColorMode, pb: bool) -> Seq<char> {
    match sgr_open(style, mode, pb) {
        Some(o) => o,
        None => seq![],
    }
}

/// The SGR output that switches from style `prev` to style `next`.
pub open spec fn transition(prev: Option<Style>, next: Option<Style>, mode: ColorMode, pb: bool) -> Seq<
    char,
> {
    if prev == next {
        seq![]
    } else {
        match (prev, next) {
            (Some(_), None) => sgr_reset(),
            (None, Some(s)) => open_or_empty(Some(s), mode, pb),
            (Some(_), Some(s)) => sgr_reset() + open_or_empty(Some(s), mode, pb),
            (None, None) => seq![],
        }
    }
}

/// The output of the first `k` cells of a row, each preceded by the style
/// transition from the cell before it (the first from no style).
pub open spec fn cells_upto(cells: Seq<CellView>, k: int, mode: ColorMode, pb: bool) -> Seq<char>
    decreases k,
{
    if k <= 0 {
        seq![]
    } else {
        let prev = if k - 1 == 0 {
            None
        } else {
            cells[k - 2].1
        };
        cells_upto(cells, k - 1, mode, pb) + transition(prev, cells[k - 1].1, mode, pb)
            + cells[k - 1].0
    }
}

/// The output of a row of cells, ending in a reset when the last cell is styled.
pub open spec fn cells_text(cells: Seq<CellView>, mode: ColorMode, pb: bool) -> Seq<char> {
    if cells.len() == 0 {
        seq![]
    } else {
        cells_upto(cells, cells.len() as int, mode, pb) + if cells.last().1 is Some {
            sgr_reset()
        } else {
            seq![]
        }
    }
}

/// The first index from `i` on where two rows differ; their common length when
/// one is a proper prefix of the other; `None` when they are equal.
pub open spec fn mismatch_from(prev: Seq<CellView>, curr: Seq<CellView>, i: int) -> Option<int>
    decreases prev.len() - i,
{
    let shared = if prev.len() < curr.len() {
        prev.len() as int
    } else {
        curr.len() as int
    };
    if i >= shared {
        if prev.len() != curr.len() {
            Some(shared)
        } else {
            None
        }
    } else if prev[i] != curr[i] {
        Some(i)
    } else {
        mismatch_from(prev, curr, i + 1)
    }
}

/// The first index where two rows differ, if they differ.
pub open spec fn first_diff(prev: Seq<CellView>, curr: Seq<CellView>) -> Option<int> {
    mismatch_from(prev, curr, 0)
}

/// Equal rows have no first difference.
pub proof fn lemma_first_diff_equal(row: Seq<CellView>, i: int)
    requires
        0 <= i <= row.len(),
    ensures
        mismatch_from(row, row, i) is None,
    decreases row.len() - i,
{
    if i < row.len() {
        lemma_first_diff_equal(row, i + 1);
    }
}

/// A first difference lies within both rows.
proof fn lemma_first_diff_range(prev: Seq<CellView>, curr: Seq<CellView>, i: int)
    requires
        0 <= i,
    ensures
        mismatch_from(prev, curr, i) matches Some(k) ==> 0 <= k && k <= prev.len() && k <= curr.len(),
    decreases prev.len() - i,
{
    let shared = if prev.len() < curr.len() {
        prev.len() as int
    } else {
        curr.len() as int
    };
    if i < shared && prev[i] == curr[i] {
        lemma_first_diff_range(prev, curr, i + 1);
    }
}

/// The columns taken by the first `idx` cells (saturating).
pub open spec fn cols_before(cells: Seq<CellView>, idx: int) -> int
    decreases idx,
{
    if idx <= 0 {
        0
    } else {
        sat_add(cols_before(cells, idx - 1), cells[idx - 1].2 as int)
    }
}

/// The cursor-position (CUP) sequence for a 1-based row and column.
pub open spec fn cup(row: int, col: int) -> Seq<char> {
    "\x1b["@ + decimal(row as nat) + ";"@ + decimal(col as nat) + "H"@
}

/// The cursor-left (CUB) sequence for `cols` columns; nothing for zero.
pub open spec fn cub(cols: int) -> Seq<char> {
    if cols == 0 {
        seq![]
    } else {
        "\x1b["@ + decimal(cols as nat) + "D"@
    }
}

/// `a - b`, saturating at zero.
pub open spec fn sat_sub(a: int, b: int) -> int {
    if a >= b {
        a - b
    } else {
        0
    }
}

/// The patch of one row of a frame: nothing when the row is unchanged;
/// otherwise the cursor moved to the first changed cell, the cells from there,
/// and an erase to the end of the line when the row got shorter.
pub open spec fn row_patch(
    prev: Seq<CellView>,
    curr: Seq<CellView>,
    row: int,
    origin_row: int,
    origin_col: int,
    mode: ColorMode,
    pb: bool,
) -> Seq<char> {
    match first_diff(prev, curr) {
        None => seq![],
        Some(fd) => {
            let diff_col = sat_add(cols_before(curr, fd), 1);
            let abs_row = sat_add(sat_add(sat_sub(origin_row, 1), row), 1);
            let abs_col = sat_add(sat_sub(origin_col, 1), diff_col);
            cup(abs_row, abs_col) + cells_text(curr.skip(fd), mode, pb) + if curr.len()
                < prev.len() {
                erase_line_end()
            } else {
                seq![]
            }
        },
    }
}

/// Row `i` of a frame, or an empty row below it.
pub open spec fn row_at(lines: Seq<Seq<CellView>>, i: int) -> Seq<CellView> {
    if 0 <= i < lines.len() {
        lines[i]
    } else {
        seq![]
    }
}

/// The patches of the first `k` rows.
pub open spec fn frame_patch_upto(
    prev: Seq<Seq<CellView>>,
    curr: Seq<Seq<CellView>>,
    k: int,
    origin_row: int,
    origin_col: int,
    mode: ColorMode,
    pb: bool,
) -> Seq<char>
    decreases k,
{
    if k <= 0 {
        seq![]
    } else {
        frame_patch_upto(prev, curr, k - 1, origin_row, origin_col, mode, pb) + row_patch(
            row_at(prev, k - 1),
            row_at(curr, k - 1),
            k - 1,
            origin_row,
            origin_col,
            mode,
            pb,
        )
    }
}

/// The patch that turns frame `prev` into frame `curr`, row by row.
pub open spec fn frame_patch(
    prev: Seq<Seq<CellView>>,
    curr: Seq<Seq<CellView>>,
    origin_row: int,
    origin_col: int,
    mode: ColorMode,
    pb: bool,
) -> Seq<char> {
    let n = if prev.len() > curr.len() {
        prev.len() as int
    } else {
        curr.len() as int
    };
    frame_patch_upto(prev, curr, n, origin_row, origin_col, mode, pb)
}

/// The patch that turns line `prev` into line `curr` when the cursor stands at
/// the end of `prev`: move left to the first changed cell, draw the cells from
/// there, and erase to the end of the line when the line got shorter.
pub open spec fn line_patch(prev: Seq<CellView>, curr: Seq<CellView>, mode: ColorMode, pb: bool) -> Seq<
    char,
> {
    match first_diff(prev, curr) {
        None => seq![],
        Some(fd) => cub(sat_sub(cols_before(prev, prev.len() as int), cols_before(prev, fd)))
            + cells_text(curr.skip(fd), mode, pb) + if curr.len() < prev.len() {
            erase_line_end()
        } else {
            seq![]
        },
    }
}

/// Each cell of a row is written in its own style: where a cell's style
/// differs from the style of the cell before it (no style before the first
/// cell), its text comes right after a reset, when a style was in force, and
/// the opening sequence of its own style, when it has one; where the style is
/// unchanged, the text follows the previous cell's text directly. After the
/// last cell, a style still in force is reset.
pub proof fn lemma_cells_written_in_their_style(cells: Seq<CellView>, i: int, mode: ColorMode, pb: bool)
    requires
        0 <= i < cells.len(),
    ensures
        ({
            let before = if i == 0 {
                None
            } else {
                cells[i - 1].1
            };
            let out = cells_upto(cells, i + 1, mode, pb);
            let head = cells_upto(cells, i, mode, pb);
            &&& before == cells[i].1 ==> out == head + cells[i].0
            &&& before != cells[i].1 && before is Some && cells[i].1 is Some ==> out == head + sgr_reset()
                + open_or_empty(cells[i].1, mode, pb) + cells[i].0
            &&& before != cells[i].1 && before is None ==> out == head + open_or_empty(cells[i].1, mode, pb)
                + cells[i].0
            &&& before != cells[i].1 && cells[i].1 is None ==> out == head + sgr_reset() + cells[i].0
        }),
        cells_text(cells, mode, pb) == cells_upto(cells, cells.len() as int, mode, pb) + if cells.last().1 is Some {
            sgr_reset()
        } else {
            seq![]
        },
{
    let before = if i == 0 {
        None
    } else {
        cells[i - 1].1
    };
    assert(cells_upto(cells, i + 1, mode, pb) == cells_upto(cells, i, mode, pb) + transition(before, cells[i].1, mode, pb)
        + cells[i].0);
    if before != cells[i].1 && before is Some && cells[i].1 is Some {
        assert(transition(before, cells[i].1, mode, pb) == sgr_reset() + open_or_empty(cells[i].1, mode, pb));
        assert(cells_upto(cells, i, mode, pb) + (sgr_reset() + open_or_empty(cells[i].1, mode, pb)) + cells[i].0
            =~= cells_upto(cells, i, mode, pb) + sgr_reset() + open_or_empty(cells[i].1, mode, pb) + cells[i].0);
    }
    if before == cells[i].1 {
        assert(cells_upto(cells, i, mode, pb) + seq![] =~= cells_upto(cells, i, mode, pb));
    }
}

/// The total display width of a sequence of cells.
pub open spec fn cells_width(cells: Seq<CellView>) -> int
    decreases cells.len(),
{
    if cells.len() == 0 {
        0
    } else {
        cells[0].2 as int + cells_width(cells.drop_first())
    }
}

/// Widths add up over a split.
proof fn lemma_cells_width_split(cells: Seq<CellView>, k: int)
    requires
        0 <= k <= cells.len(),
    ensures
        cells_width(cells) == cells_width(cells.take(k)) + cells_width(cells.skip(k)),
    decreases k,
{
    if k > 0 {
        lemma_cells_width_split(cells.drop_first(), k - 1);
        assert(cells.take(k).drop_first() =~= cells.drop_first().take(k - 1));
        assert(cells.skip(k) =~= cells.drop_first().skip(k - 1));
    } else {
        assert(cells.skip(0) =~= cells);
    }
}

/// The columns before a cell are the widths of the cells before it, when the
/// row's width fits in a `usize`.
proof fn lemma_cols_before_width(cells: Seq<CellView>, k: int)
    requires
        0 <= k <= cells.len(),
        cells_width(cells) <= usize::MAX,
    ensures
        cols_before(cells, k) == cells_width(cells.take(k)),
    decreases k,
{
    if k > 0 {
        lemma_cols_before_width(cells, k - 1);
        lemma_cells_width_split(cells, k);
        lemma_cells_width_split(cells.take(k), k - 1);
        assert(cells.take(k).take(k - 1) =~= cells.take(k - 1));
        assert(cells.take(k).skip(k - 1) =~= seq![cells[k - 1]]);
        let one = seq![cells[k - 1]];
        assert(one.drop_first() =~= Seq::<CellView>::empty());
        assert(cells_width(one.drop_first()) == 0);
        assert(cells_width(one) == cells[k - 1].2 as int);
        lemma_cells_width_nonneg(cells.skip(k));
        assert(cells_width(cells.take(k)) == cells_width(cells.take(k - 1)) + cells[k - 1].2 as int);
        assert(cells_width(cells.take(k)) <= usize::MAX);
    }
}

proof fn lemma_cells_width_nonneg(cells: Seq<CellView>)
    ensures
        cells_width(cells) >= 0,
    decreases cells.len(),
{
    if cells.len() > 0 {
        lemma_cells_width_nonneg(cells.drop_first());
    }
}

/// A line patch first moves the cursor left over the display columns of the
/// previous line's cells from the first changed cell to its end (so a wide
/// grapheme or a tab there counts its full width), then draws the new cells
/// from that cell on, and erases to the end of the line when it got shorter.
pub proof fn lemma_line_patch_moves_back_by_width(prev: Seq<CellView>, curr: Seq<CellView>, mode: ColorMode, pb: bool)
    requires
        cells_width(prev) <= usize::MAX,
        first_diff(prev, curr) is Some,
    ensures
        ({
            let fd = first_diff(prev, curr)->Some_0;
            line_patch(prev, curr, mode, pb) == cub(cells_width(prev.skip(fd))) + cells_text(curr.skip(fd), mode, pb)
                + if curr.len() < prev.len() {
                erase_line_end()
            } else {
                seq![]
            }
        }),
{
    let fd = first_diff(prev, curr)->Some_0;
    lemma_first_diff_range(prev, curr, 0);
    lemma_cols_before_width(prev, prev.len() as int);
    lemma_cols_before_width(prev, fd);
    lemma_cells_width_split(prev, fd);
    assert(prev.take(prev.len() as int) =~= prev);
    lemma_cells_width_nonneg(prev.skip(fd));
}

/// A row patch places the cursor on the display column where the first
/// changed cell starts: the origin column plus the display width of the cells
/// before it, on the row's own terminal row.
pub proof fn lemma_row_patch_starts_at_display_column(
    prev: Seq<CellView>,
    curr: Seq<CellView>,
    row: int,
    origin_row: int,
    origin_col: int,
    mode: ColorMode,
    pb: bool,
)
    requires
        first_diff(prev, curr) is Some,
        0 <= row,
        1 <= origin_row,
        1 <= origin_col,
        origin_row + row <= usize::MAX,
        origin_col + cells_width(curr) <= usize::MAX,
    ensures
        ({
            let fd = first_diff(prev, curr)->Some_0;
            row_patch(prev, curr, row, origin_row, origin_col, mode, pb) == cup(
                origin_row + row,
                origin_col + cells_width(curr.take(fd)),
            ) + cells_text(curr.skip(fd), mode, pb) + if curr.len() < prev.len() {
                erase_line_end()
            } else {
                seq![]
            }
        }),
{
    let fd = first_diff(prev, curr)->Some_0;
    lemma_first_diff_range(prev, curr, 0);
    lemma_cells_width_nonneg(curr.skip(fd));
    lemma_cells_width_nonneg(curr.take(fd));
    lemma_cells_width_split(curr, fd);
    lemma_cols_before_width(curr, fd);
}

/// Whether two cells show the same thing.
fn cells_equal(a: &StyledCell, b: &StyledCell) -> (r: bool)
    ensures
        r == (cell_view(*a) == cell_view(*b)),
{
    a.text == b.text && a.style == b.style && a.width == b.width
}

/// Returns the first differing cell index between two lines, if any.
pub fn first_diff_index(prev: &[StyledCell], curr: &[StyledCell]) -> (r: Option<usize>)
    ensures
        r matches Some(i) ==> i <= prev@.len() && i <= curr@.len(),
        match r {
            Some(i) => first_diff(row_view(prev@), row_view(curr@)) == Some(i as int),
            None => first_diff(row_view(prev@), row_view(curr@)) is None,
        },
{
    let ghost pv = row_view(prev@);
    let ghost cv = row_view(curr@);
    let shared = if prev.len() < curr.len() {
        prev.len()
    } else {
        curr.len()
    };
    let mut idx: usize = 0;
    while idx < shared
        invariant
            idx <= shared,
            shared as int == (if pv.len() < cv.len() { pv.len() as int } else { cv.len() as int }),
            pv == row_view(prev@),
            cv == row_view(curr@),
            pv.len() == prev@.len(),
            cv.len() == curr@.len(),
            mismatch_from(pv, cv, idx as int) == mismatch_from(pv, cv, 0),
        decreases shared - idx,
    {
        if !cells_equal(&prev[idx], &curr[idx]) {
            assert(pv[idx as int] != cv[idx as int]);
            return Some(idx);
        }
        assert(pv[idx as int] == cv[idx as int]);
        idx += 1;
    }
    if prev.len() != curr.len() {
        return Some(shared);
    }
    None
}

/// Returns the accumulated display columns before `idx` (saturating).
pub fn display_columns_before(cells: &[StyledCell], idx: usize) -> (w: usize)
    requires
        idx <= cells@.len(),
    ensures
        w as int == cols_before(row_view(cells@), idx as int),
{
    let mut total: usize = 0;
    let mut i: usize = 0;
    while i < idx
        invariant
            i <= idx <= cells@.len(),
            total as int == cols_before(row_view(cells@), i as int),
        decreases idx - i,
    {
        total = total.saturating_add(cells[i].width);
        i += 1;
    }
    total
}

/// Writes a CUP cursor-position sequence into `out`.
pub fn write_cup(out: &mut String, row: usize, col: usize)
    ensures
        final(out)@ == old(out)@ + cup(row as int, col as int),
{
    push_str(out, "\x1b[");
    push_decimal(out, row as u64);
    push_str(out, ";");
    push_decimal(out, col as u64);
    push_str(out, "H");
}

/// Writes a relative cursor-left (CUB) sequence into `out`.
pub fn write_cub(out: &mut String, cols: usize)
    ensures
        final(out)@ == old(out)@ + cub(cols as int),
{
    if cols == 0 {
        assert(old(out)@ + seq![] == old(out)@);
        return ;
    }
    push_str(out, "\x1b[");
    push_decimal(out, cols as u64);
    push_str(out, "D");
}

/// Emits the minimal SGR transition between `previous` and `next`.
pub fn write_style_transition(
    out: &mut String,
    previous: Option<Style>,
    next: Option<Style>,
    color_mode: ColorMode,
    preserve_terminal_background: bool,
)
    ensures
        final(out)@ == old(out)@ + transition(
            previous,
            next,
            color_mode,
            preserve_terminal_background,
        ),
{
    if previous == next {
        assert(old(out)@ + seq![] == old(out)@);
        return ;
    }
    match (previous, next) {
        (None, None) => {},
        (Some(_), None) => push_str(out, "\x1b[0m"),
        (None, Some(style)) => {
            match style_open_sgr(Some(style), color_mode, preserve_terminal_background) {
                Some(open) => push_str(out, open.as_str()),
                None => {
                    assert(old(out)@ + seq![] == old(out)@);
                },
            }
        },
        (Some(_), Some(style)) => {
            push_str(out, "\x1b[0m");
            match style_open_sgr(Some(style), color_mode, preserve_terminal_background) {
                Some(open) => push_str(out, open.as_str()),
                None => {},
            }
        },
    }
}

/// Appends the cells `cells[from..]` as text and SGR transitions.
pub fn append_styled_cells(
    out: &mut String,
    cells: &[StyledCell],
    from: usize,
    color_mode: ColorMode,
    preserve_terminal_background: bool,
)
    requires
        from <= cells@.len(),
    ensures
        final(out)@ == old(out)@ + cells_text(
            row_view(cells@).skip(from as int),
            color_mode,
            preserve_terminal_background,
        ),
{
    let ghost cv = row_view(cells@).skip(from as int);
    if from == cells.len() {
        assert(cv.len() == 0);
        assert(old(out)@ + seq![] == old(out)@);
        return ;
    }
    let ghost start = out@;
    let mut active: Option<Style> = None;
    let mut i: usize = from;
    while i < cells.len()
        invariant
            from <= i <= cells@.len(),
            from < cells@.len(),
            cv == row_view(cells@).skip(from as int),
            out@ == start + cells_upto(cv, i - from, color_mode, preserve_terminal_background),
            active == (if i == from { None } else { cv[i - from - 1].1 }),
        decreases cells@.len() - i,
    {
        let ghost k = (i - from) as int;
        let ghost before = out@;
        assert(cv[k] == cell_view(cells@[i as int]));
        write_style_transition(out, active, cells[i].style, color_mode, preserve_terminal_background);
        push_str(out, cells[i].text.as_str());
        proof {
            let t = transition(active, cv[k].1, color_mode, preserve_terminal_background);
            assert(cells_upto(cv, k + 1, color_mode, preserve_terminal_background) == cells_upto(
                cv,
                k,
                color_mode,
                preserve_terminal_background,
            ) + t + cv[k].0);
            assert(out@ =~= start + cells_upto(cv, k + 1, color_mode, preserve_terminal_background));
        }
        active = cells[i].style;
        i += 1;
    }
    if active.is_some() {
        push_str(out, "\x1b[0m");
    }
}

/// Builds a single-line VT patch using only relative backward cursor motion.
///
/// Assumes cursor starts at the end of `prev_line` and remains on the same line.
pub fn diff_single_line_to_patch(
    prev_line: &[StyledCell],
    curr_line: &[StyledCell],
    color_mode: ColorMode,
    preserve_terminal_background: bool,
) -> (out: String)
    ensures
        out@ == line_patch(
            row_view(prev_line@),
            row_view(curr_line@),
            color_mode,
            preserve_terminal_background,
        ),
{
    let mut out = String::new();
    let first_diff = match first_diff_index(prev_line, curr_line) {
        Some(i) => i,
        None => {
            return out;
        },
    };
    let prev_width = display_columns_before(prev_line, prev_line.len());
    let prefix_width = display_columns_before(prev_line, first_diff);
    let cols_back = prev_width.saturating_sub(prefix_width);
    write_cub(&mut out, cols_back);
    append_styled_cells(&mut out, curr_line, first_diff, color_mode, preserve_terminal_background);
    if curr_line.len() < prev_line.len() {
        push_str(&mut out, "\x1b[K");
    }
    out
}

/// Appends the patch of one row.
#[verifier::rlimit(30)]
fn append_row_patch(
    out: &mut String,
    prev: &[StyledCell],
    curr: &[StyledCell],
    row: usize,
    origin_row: usize,
    origin_col: usize,
    color_mode: ColorMode,
    preserve_terminal_background: bool,
)
    ensures
        final(out)@ == old(out)@ + row_patch(
            row_view(prev@),
            row_view(curr@),
            row as int,
            origin_row as int,
            origin_col as int,
            color_mode,
            preserve_terminal_background,
        ),
{
    let first_diff = match first_diff_index(prev, curr) {
        Some(i) => i,
        None => {
            assert(old(out)@ + seq![] == old(out)@);
            return ;
        },
    };
    let ghost pv = row_view(prev@);
    let ghost cv = row_view(curr@);
    let ghost fd = first_diff as int;
    let diff_col = display_columns_before(curr, first_diff).saturating_add(1);
    let absolute_row = origin_row.saturating_sub(1).saturating_add(row).saturating_add(1);
    let absolute_col = origin_col.saturating_sub(1).saturating_add(diff_col);
    assert(diff_col as int == sat_add(cols_before(cv, fd), 1));
    assert(absolute_row as int == sat_add(sat_add(sat_sub(origin_row as int, 1), row as int), 1));
    assert(absolute_col as int == sat_add(sat_sub(origin_col as int, 1), diff_col as int));
    let ghost o0 = out@;
    write_cup(out, absolute_row, absolute_col);
    let ghost o1 = out@;
    append_styled_cells(out, curr, first_diff, color_mode, preserve_terminal_background);
    let ghost o2 = out@;
    let ghost tail = if cv.len() < pv.len() {
        erase_line_end()
    } else {
        Seq::<char>::empty()
    };
    if curr.len() < prev.len() {
        push_str(out, "\x1b[K");
    }
    proof {
        assert(out@ =~= o2 + tail);
        let body = cup(absolute_row as int, absolute_col as int) + cells_text(
            cv.skip(fd),
            color_mode,
            preserve_terminal_background,
        ) + tail;
        assert(row_patch(pv, cv, row as int, origin_row as int, origin_col as int, color_mode, preserve_terminal_background) == body);
        assert(out@ =~= o0 + body);
    }
}

/// Builds a VT patch by diffing previous and current styled lines.
///
/// `origin_row` and `origin_col` are 1-based terminal coordinates.
/// Column calculations are display-width based (not byte-count based).
pub fn diff_lines_to_patch(
    prev_lines: &[Vec<StyledCell>],
    curr_lines: &[Vec<StyledCell>],
    origin_row: usize,
    origin_col: usize,
    color_mode: ColorMode,
    preserve_terminal_background: bool,
) -> (out: String)
    ensures
        out@ == frame_patch(
            rows_view(prev_lines@),
            rows_view(curr_lines@),
            origin_row as int,
            origin_col as int,
            color_mode,
            preserve_terminal_background,
        ),
{
    let ghost pv = rows_view(prev_lines@);
    let ghost cv = rows_view(curr_lines@);
    let mut out = String::new();
    let line_count = if prev_lines.len() > curr_lines.len() {
        prev_lines.len()
    } else {
        curr_lines.len()
    };
    let empty: Vec<StyledCell> = Vec::new();
    let mut row: usize = 0;
    while row < line_count
        invariant
            row <= line_count,
            line_count as int == (if pv.len() > cv.len() { pv.len() as int } else { cv.len() as int }),
            pv == rows_view(prev_lines@),
            cv == rows_view(curr_lines@),
            pv.len() == prev_lines@.len(),
            cv.len() == curr_lines@.len(),
            empty@.len() == 0,
            out@ == frame_patch_upto(pv, cv, row as int, origin_row as int, origin_col as int, color_mode, preserve_terminal_background),
        decreases line_count - row,
    {
        let prev: &[StyledCell] = if row < prev_lines.len() {
            prev_lines[row].as_slice()
        } else {
            empty.as_slice()
        };
        let curr: &[StyledCell] = if row < curr_lines.len() {
            curr_lines[row].as_slice()
        } else {
            empty.as_slice()
        };
        assert(row_view(prev@) == row_at(pv, row as int));
        assert(row_view(curr@) == row_at(cv, row as int));
        append_row_patch(&mut out, prev, curr, row, origin_row, origin_col, color_mode, preserve_terminal_background);
        row += 1;
    }
    out
}

} // verus!
