//! Rendering a source buffer with styled spans to ANSI text.
use crate::sgr::{sgr_open, style_open_sgr, ColorMode};
use crate::spans::HighlightError;
use crate::style::Style;
use crate::text::{bytes_to_text, lossy_utf8, push_str};
use vstd::prelude::*;

verus! {

/// Whether the terminal's background is kept when no explicit choice is made.
pub const PRESERVE_TERMINAL_BACKGROUND_DEFAULT: bool = true;

/// A byte range `[start_byte, end_byte)` of a source and the style to draw it in.
#[derive(Debug, Clone, Copy, PartialEq, Eq, Structural)]
pub struct StyledSpan {
    pub start_byte: usize,
    pub end_byte: usize,
    pub style: Option<Style>,
}

/// Errors of rendering.
#[derive(Debug)]
pub enum RenderError {
    /// Highlighting the source failed.
    Highlight(HighlightError),
    /// A span is reversed or reaches past the end of the source.
    SpanOutOfBounds { start_byte: usize, end_byte: usize, source_len: usize },
    /// A span starts before the previous one ends.
    OverlappingSpans { prev_end: usize, next_start: usize },
    /// A span names an attribute that the highlight result does not have.
    InvalidAttrId { attr_id: usize, attrs_len: usize },
    /// A single-line renderer was given a newline.
    MultiLineInput,
}

/// Whether span `i` lies within the source and does not start before span `i - 1` ends.
pub open spec fn span_ok(spans: Seq<StyledSpan>, source_len: int, i: int) -> bool {
    &&& spans[i].start_byte <= spans[i].end_byte
    &&& spans[i].end_byte <= source_len
    &&& i > 0 ==> spans[i].start_byte >= spans[i - 1].end_byte
}

/// Whether all spans lie within the source, in order and without overlap.
pub open spec fn spans_valid(spans: Seq<StyledSpan>, source_len: int) -> bool {
    forall|i: int| 0 <= i < spans.len() ==> #[trigger] span_ok(spans, source_len, i)
}

/// The error reported for the invalid span `i`.
pub open spec fn span_error(spans: Seq<StyledSpan>, source_len: int, i: int) -> RenderError {
    if spans[i].start_byte > spans[i].end_byte || spans[i].end_byte > source_len {
        RenderError::SpanOutOfBounds {
            start_byte: spans[i].start_byte,
            end_byte: spans[i].end_byte,
            source_len: source_len as usize,
        }
    } else {
        RenderError::OverlappingSpans {
            prev_end: spans[i - 1].end_byte,
            next_start: spans[i].start_byte,
        }
    }
}

/// Whether `e` is the error of the first invalid span.
pub open spec fn is_first_span_error(spans: Seq<StyledSpan>, source_len: int, e: RenderError) -> bool {
    exists|i: int|
        0 <= i < spans.len() && (forall|j: int| 0 <= j < i ==> #[trigger] span_ok(spans, source_len, j))
            && !span_ok(spans, source_len, i) && e == span_error(spans, source_len, i)
}

/// Whether `r` is the outcome of validating `spans` against a source of length `source_len`.
pub open spec fn validation_outcome<T>(spans: Seq<StyledSpan>, source_len: int, r: Result<T, RenderError>) -> bool {
    match r {
        Ok(_) => spans_valid(spans, source_len),
        Err(e) => !spans_valid(spans, source_len) && is_first_span_error(spans, source_len, e),
    }
}

/// Validates that spans are in-bounds, sorted, and non-overlapping.
///
/// # Errors
///
/// Returns [`RenderError::SpanOutOfBounds`] or [`RenderError::OverlappingSpans`]
/// for the first span that breaks these rules.
pub fn validate_spans(source_len: usize, spans: &[StyledSpan]) -> (r: Result<(), RenderError>)
    ensures
        validation_outcome(spans@, source_len as int, r),
{
    let mut prev_end: usize = 0;
    let mut i: usize = 0;
    while i < spans.len()
        invariant
            i <= spans@.len(),
            forall|j: int| 0 <= j < i ==> #[trigger] span_ok(spans@, source_len as int, j),
            i > 0 ==> prev_end == spans@[i - 1].end_byte,
        decreases spans@.len() - i,
    {
        let span = spans[i];
        if span.start_byte > span.end_byte || span.end_byte > source_len {
            let e = RenderError::SpanOutOfBounds {
                start_byte: span.start_byte,
                end_byte: span.end_byte,
                source_len,
            };
            assert(!span_ok(spans@, source_len as int, i as int));
            assert(e == span_error(spans@, source_len as int, i as int));
            return Err(e);
        }
        if i > 0 && span.start_byte < prev_end {
            let e = RenderError::OverlappingSpans { prev_end, next_start: span.start_byte };
            assert(!span_ok(spans@, source_len as int, i as int));
            assert(e == span_error(spans@, source_len as int, i as int));
            return Err(e);
        }
        assert(span_ok(spans@, source_len as int, i as int));
        prev_end = span.end_byte;
        i += 1;
    }
    Ok(())
}

/// The text of a byte range, decoded as `String::from_utf8_lossy` does, when
/// the range is not empty.
pub open spec fn gap_text(src: Seq<u8>, a: int, b: int) -> Seq<char> {
    if a < b {
        lossy_utf8(src.subrange(a, b))
    } else {
        seq![]
    }
}

/// A styled text segment: wrapped in its style's SGR sequence and a reset when
/// the style sets anything, empty when the text is empty.
pub open spec fn styled_segment(
    text: Seq<u8>,
    style: Option<Style>,
    mode: ColorMode,
    preserve_background: bool,
) -> Seq<char> {
    if text.len() == 0 {
        seq![]
    } else {
        match sgr_open(style, mode, preserve_background) {
            Some(open) => open + lossy_utf8(text) + "\x1b[0m"@,
            None => lossy_utf8(text),
        }
    }
}

/// `x` limited to `[lo, hi]`.
pub open spec fn clampi(x: int, lo: int, hi: int) -> int {
    if x < lo {
        lo
    } else if x > hi {
        hi
    } else {
        x
    }
}

/// Where rendering of the window `[lo, hi]` stands after the first `k` spans.
pub open spec fn window_cursor(spans: Seq<StyledSpan>, k: int, lo: int, hi: int) -> int {
    if k <= 0 {
        lo
    } else {
        clampi(spans[k - 1].end_byte as int, lo, hi)
    }
}

/// The rendering of the window `[lo, hi]` of a source through its first `k`
/// spans: for each span, the unstyled text since the previous one, then the
/// span's styled text, each span clipped to the window.
pub open spec fn window_upto(
    src: Seq<u8>,
    spans: Seq<StyledSpan>,
    k: int,
    lo: int,
    hi: int,
    mode: ColorMode,
    preserve_background: bool,
) -> Seq<char>
    decreases k,
{
    if k <= 0 {
        seq![]
    } else {
        let s = spans[k - 1];
        let cs = clampi(s.start_byte as int, lo, hi);
        let ce = clampi(s.end_byte as int, lo, hi);
        window_upto(src, spans, k - 1, lo, hi, mode, preserve_background) + gap_text(
            src,
            window_cursor(spans, k - 1, lo, hi),
            cs,
        ) + styled_segment(src.subrange(cs, ce), s.style, mode, preserve_background)
    }
}

/// The rendering of the window `[lo, hi]` of a source with its spans.
pub open spec fn render_window(
    src: Seq<u8>,
    spans: Seq<StyledSpan>,
    lo: int,
    hi: int,
    mode: ColorMode,
    preserve_background: bool,
) -> Seq<char> {
    window_upto(src, spans, spans.len() as int, lo, hi, mode, preserve_background) + gap_text(
        src,
        window_cursor(spans, spans.len() as int, lo, hi),
        hi,
    )
}

/// Appends the text of some bytes, decoded as `String::from_utf8_lossy` does.
pub fn push_lossy(out: &mut String, bytes: &[u8])
    ensures
        final(out)@ == old(out)@ + lossy_utf8(bytes@),
{
    let t = bytes_to_text(bytes);
    push_str(out, t.as_str());
}

/// Appends a single styled byte segment to `out`.
pub fn append_styled_segment(
    out: &mut String,
    text: &[u8],
    style: Option<Style>,
    color_mode: ColorMode,
    preserve_terminal_background: bool,
)
    ensures
        final(out)@ == old(out)@ + styled_segment(
            text@,
            style,
            color_mode,
            preserve_terminal_background,
        ),
{
    if text.len() == 0 {
        assert(old(out)@ + seq![] == old(out)@);
        return ;
    }
    match style_open_sgr(style, color_mode, preserve_terminal_background) {
        Some(open) => {
            push_str(out, open.as_str());
            push_lossy(out, text);
            push_str(out, "\x1b[0m");
        },
        None => {
            push_lossy(out, text);
        },
    }
}

/// Renders a source buffer and styled spans into a single ANSI string.
///
/// # Errors
///
/// Returns an error when spans are out of bounds, unsorted, or overlapping.
pub fn render_ansi(source: &[u8], spans: &[StyledSpan]) -> (r: Result<String, RenderError>)
    ensures
        validation_outcome(spans@, source@.len() as int, r),
        r matches Ok(s) ==> s@ == render_window(
            source@,
            spans@,
            0,
            source@.len() as int,
            ColorMode::TrueColor,
            PRESERVE_TERMINAL_BACKGROUND_DEFAULT,
        ),
{
    render_ansi_with_mode(source, spans, ColorMode::TrueColor)
}

/// Renders a source buffer and styled spans into a single ANSI string.
///
/// # Errors
///
/// Returns an error when spans are out of bounds, unsorted, or overlapping.
pub fn render_ansi_with_mode(source: &[u8], spans: &[StyledSpan], color_mode: ColorMode) -> (r:
    Result<String, RenderError>)
    ensures
        validation_outcome(spans@, source@.len() as int, r),
        r matches Ok(s) ==> s@ == render_window(
            source@,
            spans@,
            0,
            source@.len() as int,
            color_mode,
            PRESERVE_TERMINAL_BACKGROUND_DEFAULT,
        ),
{
    render_ansi_with_mode_and_background(
        source,
        spans,
        color_mode,
        PRESERVE_TERMINAL_BACKGROUND_DEFAULT,
    )
}

/// Renders a source buffer and styled spans into a single ANSI string.
///
/// When `preserve_terminal_background` is `true`, background colors in styles
/// are ignored so output keeps the terminal's current background.
///
/// # Errors
///
/// Returns an error when spans are out of bounds, unsorted, or overlapping.
pub fn render_ansi_with_mode_and_background(
    source: &[u8],
    spans: &[StyledSpan],
    color_mode: ColorMode,
    preserve_terminal_background: bool,
) -> (r: Result<String, RenderError>)
    ensures
        validation_outcome(spans@, source@.len() as int, r),
        r matches Ok(s) ==> s@ == render_window(
            source@,
            spans@,
            0,
            source@.len() as int,
            color_mode,
            preserve_terminal_background,
        ),
{
    match validate_spans(source.len(), spans) {
        Ok(()) => {},
        Err(e) => {
            return Err(e);
        },
    }
    let ghost src = source@;
    let ghost n = source@.len() as int;
    let mut out = String::new();
    let mut cursor: usize = 0;
    let mut i: usize = 0;
    while i < spans.len()
        invariant
            i <= spans@.len(),
            src == source@,
            n == src.len(),
            spans_valid(spans@, n),
            cursor as int == window_cursor(spans@, i as int, 0, n),
            cursor <= n,
            out@ == window_upto(
                src,
                spans@,
                i as int,
                0,
                n,
                color_mode,
                preserve_terminal_background,
            ),
        decreases spans@.len() - i,
    {
        let span = spans[i];
        assert(span_ok(spans@, n, i as int));
        if cursor < span.start_byte {
            push_lossy(&mut out, &source[cursor..span.start_byte]);
        }
        append_styled_segment(
            &mut out,
            &source[span.start_byte..span.end_byte],
            span.style,
            color_mode,
            preserve_terminal_background,
        );
        cursor = span.end_byte;
        i += 1;
    }
    if cursor < source.len() {
        push_lossy(&mut out, &source[cursor..source.len()]);
    }
    Ok(out)
}

/// Spans that pass validation are ordered: a later span starts no earlier than
/// an earlier one ends.
pub proof fn lemma_valid_spans_ordered(spans: Seq<StyledSpan>, len: int, i: int, j: int)
    requires
        spans_valid(spans, len),
        0 <= i < j < spans.len(),
    ensures
        spans[i].end_byte <= spans[j].start_byte,
    decreases j - i,
{
    assert(span_ok(spans, len, j));
    if i < j - 1 {
        lemma_valid_spans_ordered(spans, len, i, j - 1);
        assert(span_ok(spans, len, j - 1));
    }
}

/// Spans that end before a window contribute nothing to its rendering.
proof fn lemma_window_skip(
    src: Seq<u8>,
    spans: Seq<StyledSpan>,
    m: int,
    lo: int,
    hi: int,
    mode: ColorMode,
    pb: bool,
)
    requires
        spans_valid(spans, src.len() as int),
        0 <= m <= spans.len(),
        0 <= lo <= hi <= src.len(),
        forall|j: int| 0 <= j < m ==> #[trigger] spans[j].end_byte <= lo,
    ensures
        window_upto(src, spans, m, lo, hi, mode, pb) == Seq::<char>::empty(),
        window_cursor(spans, m, lo, hi) == lo,
    decreases m,
{
    if m > 0 {
        lemma_window_skip(src, spans, m - 1, lo, hi, mode, pb);
        assert(span_ok(spans, src.len() as int, m - 1));
        let s = spans[m - 1];
        assert(s.end_byte <= lo);
        assert(src.subrange(lo, lo).len() == 0);
    }
}

/// Spans that start after a window contribute only the text up to its end.
proof fn lemma_window_tail(
    src: Seq<u8>,
    spans: Seq<StyledSpan>,
    i: int,
    m: int,
    lo: int,
    hi: int,
    mode: ColorMode,
    pb: bool,
)
    requires
        spans_valid(spans, src.len() as int),
        0 <= i <= m <= spans.len(),
        0 <= lo <= hi <= src.len(),
        i < spans.len() ==> spans[i].start_byte >= hi,
        lo <= window_cursor(spans, i, lo, hi) <= hi,
    ensures
        window_upto(src, spans, m, lo, hi, mode, pb) + gap_text(
            src,
            window_cursor(spans, m, lo, hi),
            hi,
        ) == window_upto(src, spans, i, lo, hi, mode, pb) + gap_text(
            src,
            window_cursor(spans, i, lo, hi),
            hi,
        ),
    decreases m - i,
{
    if m > i {
        lemma_window_tail(src, spans, i, m - 1, lo, hi, mode, pb);
        let s = spans[m - 1];
        assert(span_ok(spans, src.len() as int, m - 1));
        if m - 1 > i {
            lemma_valid_spans_ordered(spans, src.len() as int, i, m - 1);
            assert(span_ok(spans, src.len() as int, i));
        }
        assert(s.start_byte >= hi);
        assert(src.subrange(hi, hi).len() == 0);
        let prev = window_upto(src, spans, m - 1, lo, hi, mode, pb);
        let g = gap_text(src, window_cursor(spans, m - 1, lo, hi), hi);
        assert(window_upto(src, spans, m, lo, hi, mode, pb) == prev + g + Seq::<char>::empty());
        assert(window_cursor(spans, m, lo, hi) == hi);
        assert(gap_text(src, hi, hi) == Seq::<char>::empty());
        assert(prev + g + Seq::<char>::empty() + Seq::<char>::empty() == prev + g);
    }
}

/// The byte ranges of the lines of `src` from a line starting at `start`,
/// scanning from `i`: each line ends before a `\n`, the last at the end.
pub open spec fn ranges_from(src: Seq<u8>, start: int, i: int) -> Seq<(int, int)>
    decreases src.len() - i,
{
    if i >= src.len() {
        seq![(start, src.len() as int)]
    } else if src[i] == 10 {
        seq![(start, i)] + ranges_from(src, i + 1, i + 1)
    } else {
        ranges_from(src, start, i + 1)
    }
}

/// The byte ranges of the lines of `src`, without their newlines.
pub open spec fn line_ranges(src: Seq<u8>) -> Seq<(int, int)> {
    ranges_from(src, 0, 0)
}

/// The integer view of a sequence of index pairs.
pub open spec fn pairs_view(v: Seq<(usize, usize)>) -> Seq<(int, int)> {
    v.map_values(|p: (usize, usize)| (p.0 as int, p.1 as int))
}

/// Line ranges lie within the source, in order, separated by one byte.
proof fn lemma_ranges_from(src: Seq<u8>, start: int, i: int)
    requires
        0 <= start <= i <= src.len(),
    ensures
        ranges_from(src, start, i).len() >= 1,
        ranges_from(src, start, i)[0].0 == start,
        forall|k: int|
            0 <= k < ranges_from(src, start, i).len() ==> start <= (#[trigger] ranges_from(
                src,
                start,
                i,
            )[k]).0 <= ranges_from(src, start, i)[k].1 <= src.len(),
        forall|k: int|
            1 <= k < ranges_from(src, start, i).len() ==> #[trigger] ranges_from(
                src,
                start,
                i,
            )[k].0 == ranges_from(src, start, i)[k - 1].1 + 1,
        ranges_from(src, start, i).last().1 == src.len(),
    decreases src.len() - i,
{
    if i < src.len() {
        if src[i] == 10 {
            lemma_ranges_from(src, i + 1, i + 1);
            let r = ranges_from(src, i + 1, i + 1);
            let all = seq![(start, i)] + r;
            assert forall|k: int| 1 <= k < all.len() implies #[trigger] all[k].0 == all[k - 1].1
                + 1 by {
                if k > 1 {
                    assert(all[k - 1] == r[k - 2]);
                    assert(all[k] == r[k - 1]);
                } else {
                    assert(all[0] == (start, i));
                    assert(all[1] == r[0]);
                }
            }
            assert forall|k: int| 0 <= k < all.len() implies start <= (#[trigger] all[k]).0
                <= all[k].1 <= src.len() by {
                if k > 0 {
                    assert(all[k] == r[k - 1]);
                }
            }
        } else {
            lemma_ranges_from(src, start, i + 1);
        }
    }
}

/// Returns byte ranges for each line in `source` (excluding trailing newlines).
pub fn compute_line_ranges(source: &[u8]) -> (v: Vec<(usize, usize)>)
    ensures
        pairs_view(v@) == line_ranges(source@),
{
    let mut ranges: Vec<(usize, usize)> = Vec::new();
    let mut line_start: usize = 0;
    let mut i: usize = 0;
    while i < source.len()
        invariant
            i <= source@.len(),
            line_start <= i,
            pairs_view(ranges@) + ranges_from(source@, line_start as int, i as int) == line_ranges(
                source@,
            ),
        decreases source@.len() - i,
    {
        if source[i] == 10u8 {
            let ghost before = pairs_view(ranges@);
            ranges.push((line_start, i));
            assert(pairs_view(ranges@) == before.push((line_start as int, i as int)));
            assert(before + ranges_from(source@, line_start as int, i as int) == before.push(
                (line_start as int, i as int),
            ) + ranges_from(source@, i + 1, i + 1));
            line_start = i + 1;
        }
        i += 1;
    }
    let ghost before = pairs_view(ranges@);
    ranges.push((line_start, source.len()));
    assert(pairs_view(ranges@) == before.push((line_start as int, source@.len() as int)));
    ranges
}

/// Whether `lines` renders each line of `src` as its window with the spans.
pub open spec fn renders_lines(
    src: Seq<u8>,
    spans: Seq<StyledSpan>,
    lines: Seq<String>,
    mode: ColorMode,
    preserve_background: bool,
) -> bool {
    let ranges = line_ranges(src);
    &&& lines.len() == ranges.len()
    &&& forall|k: int|
        0 <= k < lines.len() ==> (#[trigger] lines[k])@ == render_window(
            src,
            spans,
            ranges[k].0,
            ranges[k].1,
            mode,
            preserve_background,
        )
}

/// Renders a source buffer and styled spans into per-line ANSI strings.
///
/// Spans that cross line boundaries are clipped per line.
///
/// # Errors
///
/// Returns an error when spans are out of bounds, unsorted, or overlapping.
pub fn render_ansi_lines(source: &[u8], spans: &[StyledSpan]) -> (r: Result<Vec<String>, RenderError>)
    ensures
        validation_outcome(spans@, source@.len() as int, r),
        r matches Ok(lines) ==> renders_lines(
            source@,
            spans@,
            lines@,
            ColorMode::TrueColor,
            PRESERVE_TERMINAL_BACKGROUND_DEFAULT,
        ),
{
    render_ansi_lines_with_mode(source, spans, ColorMode::TrueColor)
}

/// Renders a source buffer and styled spans into per-line ANSI strings.
///
/// Spans that cross line boundaries are clipped per line.
///
/// # Errors
///
/// Returns an error when spans are out of bounds, unsorted, or overlapping.
pub fn render_ansi_lines_with_mode(source: &[u8], spans: &[StyledSpan], color_mode: ColorMode) -> (r:
    Result<Vec<String>, RenderError>)
    ensures
        validation_outcome(spans@, source@.len() as int, r),
        r matches Ok(lines) ==> renders_lines(
            source@,
            spans@,
            lines@,
            color_mode,
            PRESERVE_TERMINAL_BACKGROUND_DEFAULT,
        ),
{
    render_ansi_lines_with_mode_and_background(
        source,
        spans,
        color_mode,
        PRESERVE_TERMINAL_BACKGROUND_DEFAULT,
    )
}

/// Renders a source buffer and styled spans into per-line ANSI strings.
///
/// Spans that cross line boundaries are clipped per line.
/// When `preserve_terminal_background` is `true`, background colors in styles
/// are ignored so output keeps the terminal's current background.
///
/// # Errors
///
/// Returns an error when spans are out of bounds, unsorted, or overlapping.
pub fn render_ansi_lines_with_mode_and_background(
    source: &[u8],
    spans: &[StyledSpan],
    color_mode: ColorMode,
    preserve_terminal_background: bool,
) -> (r: Result<Vec<String>, RenderError>)
    ensures
        validation_outcome(spans@, source@.len() as int, r),
        r matches Ok(lines) ==> renders_lines(
            source@,
            spans@,
            lines@,
            color_mode,
            preserve_terminal_background,
        ),
{
    match validate_spans(source.len(), spans) {
        Ok(()) => {},
        Err(e) => {
            return Err(e);
        },
    }
    let ghost src = source@;
    let ghost len = source@.len() as int;
    let ranges = compute_line_ranges(source);
    let ghost rv = line_ranges(src);
    proof {
        lemma_ranges_from(src, 0, 0);
    }
    let mut lines: Vec<String> = Vec::new();
    let mut span_cursor: usize = 0;
    let n = spans.len();
    let mut k: usize = 0;
    while k < ranges.len()
        invariant
            k <= ranges@.len() == rv.len(),
            src == source@,
            len == src.len(),
            n == spans@.len(),
            rv == line_ranges(src),
            pairs_view(ranges@) == rv,
            spans_valid(spans@, len),
            forall|q: int| 0 <= q < rv.len() ==> 0 <= (#[trigger] rv[q]).0 <= rv[q].1 <= len,
            forall|q: int| 1 <= q < rv.len() ==> #[trigger] rv[q].0 == rv[q - 1].1 + 1,
            rv[0].0 == 0,
            span_cursor <= n,
            k < rv.len() ==> forall|j: int| 0 <= j < span_cursor ==> #[trigger] spans@[j].end_byte <= rv[k as int].0,
            lines@.len() == k,
            forall|q: int|
                0 <= q < k ==> (#[trigger] lines@[q])@ == render_window(
                    src,
                    spans@,
                    rv[q].0,
                    rv[q].1,
                    color_mode,
                    preserve_terminal_background,
                ),
        decreases rv.len() - k,
    {
        let (line_start, line_end) = ranges[k];
        assert(line_start as int == rv[k as int].0 && line_end as int == rv[k as int].1);
        while span_cursor < n && spans[span_cursor].end_byte <= line_start
            invariant
                span_cursor <= n == spans@.len(),
                forall|j: int| 0 <= j < span_cursor ==> #[trigger] spans@[j].end_byte <= line_start,
            decreases n - span_cursor,
        {
            span_cursor += 1;
        }
        proof {
            lemma_window_skip(src, spans@, span_cursor as int, line_start as int, line_end as int, color_mode, preserve_terminal_background);
        }
        let mut line = String::new();
        let mut cursor: usize = line_start;
        let mut i: usize = span_cursor;
        while i < n
            invariant
                span_cursor <= i <= n == spans@.len(),
                src == source@,
                len == src.len(),
                spans_valid(spans@, len),
                0 <= line_start <= line_end <= len,
                i < n ==> spans@[i as int].end_byte > line_start,
                cursor as int == window_cursor(spans@, i as int, line_start as int, line_end as int),
                line_start <= cursor <= line_end,
                line@ == window_upto(src, spans@, i as int, line_start as int, line_end as int, color_mode, preserve_terminal_background),
            ensures
                i < n ==> spans@[i as int].start_byte >= line_end,
                line_start <= cursor <= line_end,
                cursor as int == window_cursor(spans@, i as int, line_start as int, line_end as int),
                line@ == window_upto(src, spans@, i as int, line_start as int, line_end as int, color_mode, preserve_terminal_background),
            decreases n - i,
        {
            let span = spans[i];
            assert(span_ok(spans@, len, i as int));
            if span.start_byte >= line_end {
                break;
            }
            let seg_start = if span.start_byte > line_start { span.start_byte } else { line_start };
            let seg_end = if span.end_byte < line_end { span.end_byte } else { line_end };
            if cursor < seg_start {
                push_lossy(&mut line, &source[cursor..seg_start]);
            }
            append_styled_segment(
                &mut line,
                &source[seg_start..seg_end],
                span.style,
                color_mode,
                preserve_terminal_background,
            );
            cursor = seg_end;
            proof {
                if i + 1 < n {
                    assert(span_ok(spans@, len, i + 1));
                }
            }
            i += 1;
        }
        if cursor < line_end {
            push_lossy(&mut line, &source[cursor..line_end]);
        }
        proof {
            lemma_window_tail(src, spans@, i as int, n as int, line_start as int, line_end as int, color_mode, preserve_terminal_background);
        }
        lines.push(line);
        proof {
            if k + 1 < rv.len() {
                assert(rv[k + 1].0 == rv[(k + 1) - 1].1 + 1);
            }
        }
        k += 1;
    }
    Ok(lines)
}

} // verus!
