//! The whole pipeline: highlight, resolve styles with a theme, render ANSI.
use crate::grammar::Grammar;
use crate::grammar::all_grammars;
use crate::laws::lemma_styled_spans_valid;
use crate::highlighter::{all_grammars_compile, highlights_as, join_lines, joined_lines, registered_table, SpanHighlighter};
use crate::render::{
    is_first_span_error, render_ansi_lines_with_mode_and_background, render_ansi_with_mode_and_background, render_window,
    renders_lines, spans_valid, validation_outcome, RenderError, StyledSpan,
    PRESERVE_TERMINAL_BACKGROUND_DEFAULT,
};
use crate::renderers::{line_patched, patched, IncrementalRenderer, StreamLineRenderer};
use crate::resolve::{
    attr_ids_valid, attr_names, filled, is_first_attr_error, resolve_styled_spans_for_source,
    resolved_span,
};
use crate::sgr::ColorMode;
use crate::spans::{disjoint_ordered, HighlightResult, Span};
use crate::theme::{lookup, normalized_name, Theme};
use vstd::prelude::*;

verus! {

/// The styled spans of a highlight result over a source of length `len`, when
/// every span names an existing attribute.
pub open spec fn styled_for_source(len: int, h: HighlightResult, theme: Theme) -> Seq<StyledSpan> {
    filled(
        len,
        h.spans@.map_values(|sp: Span| resolved_span(attr_names(h.attrs@), theme.styles@, sp)),
        lookup(theme.styles@, normalized_name("normal"@)),
    )
}

/// Whether `h` can come out of a highlighter and be styled: its spans are
/// ordered, disjoint, and name existing attributes.
pub open spec fn usable_highlight(h: HighlightResult) -> bool {
    &&& disjoint_ordered(h.spans@)
    &&& attr_ids_valid(h.spans@, h.attrs@.len() as int)
}

/// Whether `out` is the ANSI rendering of `source` styled by some usable
/// highlight result with `theme`.
pub open spec fn renders_some_highlight(
    source: Seq<u8>,
    theme: Theme,
    mode: ColorMode,
    preserve: bool,
    out: Seq<char>,
) -> bool {
    exists|h: HighlightResult|
        #![trigger styled_for_source(source.len() as int, h, theme)]
        {
            let styled = styled_for_source(source.len() as int, h, theme);
            &&& usable_highlight(h)
            &&& spans_valid(styled, source.len() as int)
            &&& out == render_window(source, styled, 0, source.len() as int, mode, preserve)
        }
}

/// Whether `lines` is the per-line ANSI rendering of `source` styled by some
/// usable highlight result with `theme`.
pub open spec fn renders_some_highlight_lines(
    source: Seq<u8>,
    theme: Theme,
    mode: ColorMode,
    preserve: bool,
    lines: Seq<String>,
) -> bool {
    exists|h: HighlightResult|
        #![trigger styled_for_source(source.len() as int, h, theme)]
        {
            let styled = styled_for_source(source.len() as int, h, theme);
            &&& usable_highlight(h)
            &&& spans_valid(styled, source.len() as int)
            &&& renders_lines(source, styled, lines, mode, preserve)
        }
}

/// Whether `patch` took an incremental renderer from `before` to `after` by
/// rendering `source` styled by some usable highlight result with `theme`.
pub open spec fn patches_some_highlight(
    before: IncrementalRenderer,
    after: IncrementalRenderer,
    source: Seq<u8>,
    theme: Theme,
    patch: Seq<char>,
) -> bool {
    exists|h: HighlightResult|
        #![trigger styled_for_source(source.len() as int, h, theme)]
        {
            let styled = styled_for_source(source.len() as int, h, theme);
            &&& usable_highlight(h)
            &&& spans_valid(styled, source.len() as int)
            &&& patched(before, after, source, styled, patch)
        }
}

/// Whether `patch` took a line renderer from `before` to `after` by rendering
/// the single line `source` styled by some usable highlight result with `theme`.
pub open spec fn line_patches_some_highlight(
    before: StreamLineRenderer,
    after: StreamLineRenderer,
    source: Seq<u8>,
    theme: Theme,
    patch: Seq<char>,
) -> bool {
    exists|h: HighlightResult|
        #![trigger styled_for_source(source.len() as int, h, theme)]
        {
            let styled = styled_for_source(source.len() as int, h, theme);
            &&& usable_highlight(h)
            &&& spans_valid(styled, source.len() as int)
            &&& line_patched(before, after, source, styled, patch)
        }
}

/// What rendering the highlight result `h` of `source` with `theme` gives:
/// the first span naming a missing attribute, else the rendering of the
/// styled spans or their first span error.
pub open spec fn render_result(
    source: Seq<u8>,
    h: HighlightResult,
    theme: Theme,
    mode: ColorMode,
    preserve: bool,
    r: Result<String, RenderError>,
) -> bool {
    let n = h.attrs@.len() as int;
    let styled = styled_for_source(source.len() as int, h, theme);
    &&& !attr_ids_valid(h.spans@, n) ==> (r matches Err(e) && is_first_attr_error(h.spans@, n, e))
    &&& attr_ids_valid(h.spans@, n) ==> validation_outcome(styled, source.len() as int, r)
    &&& attr_ids_valid(h.spans@, n) ==> (r matches Ok(out) ==> out@ == render_window(
        source,
        styled,
        0,
        source.len() as int,
        mode,
        preserve,
    ))
}

/// What rendering the highlight result `h` of `source` with `theme` line by
/// line gives.
pub open spec fn render_lines_result(
    source: Seq<u8>,
    h: HighlightResult,
    theme: Theme,
    mode: ColorMode,
    preserve: bool,
    r: Result<Vec<String>, RenderError>,
) -> bool {
    let n = h.attrs@.len() as int;
    let styled = styled_for_source(source.len() as int, h, theme);
    &&& !attr_ids_valid(h.spans@, n) ==> (r matches Err(e) && is_first_attr_error(h.spans@, n, e))
    &&& attr_ids_valid(h.spans@, n) ==> validation_outcome(styled, source.len() as int, r)
    &&& attr_ids_valid(h.spans@, n) ==> (r matches Ok(lines) ==> renders_lines(source, styled, lines@, mode, preserve))
}

/// Whether `r` is what rendering gives for the highlight that a highlighter
/// with injection setup `setup` and attribute table `table` makes of `source`
/// in grammar `g`.
pub open spec fn renders_highlight(
    setup: Option<(Option<u32>, Option<u32>)>,
    table: Seq<(usize, Seq<char>)>,
    g: Grammar,
    source: Seq<u8>,
    theme: Theme,
    mode: ColorMode,
    preserve: bool,
    r: Result<String, RenderError>,
) -> bool {
    exists|h: HighlightResult| #[trigger] highlights_as(setup, table, g, source, h) && render_result(source, h, theme, mode, preserve, r)
}

/// Whether `r` is what line-by-line rendering gives for the highlight that a
/// highlighter with injection setup `setup` and attribute table `table` makes
/// of `source` in grammar `g`.
pub open spec fn renders_highlight_lines(
    setup: Option<(Option<u32>, Option<u32>)>,
    table: Seq<(usize, Seq<char>)>,
    g: Grammar,
    source: Seq<u8>,
    theme: Theme,
    mode: ColorMode,
    preserve: bool,
    r: Result<Vec<String>, RenderError>,
) -> bool {
    exists|h: HighlightResult| #[trigger] highlights_as(setup, table, g, source, h) && render_lines_result(source, h, theme, mode, preserve, r)
}

/// What an incremental renderer going from `before` to `after` gives for the
/// highlight result `h` of `source` styled with `theme`: the first span naming
/// a missing attribute, else the patch of the styled spans or their first
/// span error; on an error the renderer is unchanged.
pub open spec fn patch_result(
    before: IncrementalRenderer,
    after: IncrementalRenderer,
    source: Seq<u8>,
    h: HighlightResult,
    theme: Theme,
    r: Result<String, RenderError>,
) -> bool {
    let n = h.attrs@.len() as int;
    let styled = styled_for_source(source.len() as int, h, theme);
    &&& r is Err ==> after == before
    &&& !attr_ids_valid(h.spans@, n) ==> (r matches Err(e) && is_first_attr_error(h.spans@, n, e))
    &&& attr_ids_valid(h.spans@, n) ==> validation_outcome(styled, source.len() as int, r)
    &&& attr_ids_valid(h.spans@, n) ==> (r matches Ok(p) ==> patched(before, after, source, styled, p@))
}

/// What a line renderer going from `before` to `after` gives for the
/// highlight result `h` of the line `source` styled with `theme`: the first
/// span naming a missing attribute, else the first span error, else an error
/// for a line holding a newline, else the patch; on an error the renderer is
/// unchanged.
pub open spec fn line_patch_result(
    before: StreamLineRenderer,
    after: StreamLineRenderer,
    source: Seq<u8>,
    h: HighlightResult,
    theme: Theme,
    r: Result<String, RenderError>,
) -> bool {
    let n = h.attrs@.len() as int;
    let styled = styled_for_source(source.len() as int, h, theme);
    &&& r is Err ==> after == before
    &&& !attr_ids_valid(h.spans@, n) ==> (r matches Err(e) && is_first_attr_error(h.spans@, n, e))
    &&& attr_ids_valid(h.spans@, n) && !spans_valid(styled, source.len() as int) ==> (r matches Err(e)
        && is_first_span_error(styled, source.len() as int, e))
    &&& attr_ids_valid(h.spans@, n) && spans_valid(styled, source.len() as int) && source.contains(10u8) ==> (r matches Err(
        RenderError::MultiLineInput,
    ))
    &&& attr_ids_valid(h.spans@, n) && spans_valid(styled, source.len() as int) && !source.contains(10u8) ==> (r matches Ok(
        p,
    ) && line_patched(before, after, source, styled, p@))
}

/// Whether `r` is what an incremental renderer going from `before` to
/// `after` gives for the highlight that a highlighter with injection setup
/// `setup` and attribute table `table` makes of `source` in grammar `g`.
pub open spec fn patches_highlight(
    setup: Option<(Option<u32>, Option<u32>)>,
    table: Seq<(usize, Seq<char>)>,
    g: Grammar,
    source: Seq<u8>,
    theme: Theme,
    before: IncrementalRenderer,
    after: IncrementalRenderer,
    r: Result<String, RenderError>,
) -> bool {
    exists|h: HighlightResult| #[trigger] highlights_as(setup, table, g, source, h) && patch_result(before, after, source, h, theme, r)
}

/// Whether `r` is what a line renderer going from `before` to `after` gives
/// for the highlight that a highlighter with injection setup `setup` and
/// attribute table `table` makes of the line `source` in grammar `g`.
pub open spec fn line_patches_highlight(
    setup: Option<(Option<u32>, Option<u32>)>,
    table: Seq<(usize, Seq<char>)>,
    g: Grammar,
    source: Seq<u8>,
    theme: Theme,
    before: StreamLineRenderer,
    after: StreamLineRenderer,
    r: Result<String, RenderError>,
) -> bool {
    exists|h: HighlightResult| #[trigger] highlights_as(setup, table, g, source, h) && line_patch_result(before, after, source, h, theme, r)
}

/// The C result of a result: its value, or `code` for any error.
pub open spec fn coded<T>(rr: Result<T, RenderError>, code: i32, r: Result<T, i32>) -> bool {
    match rr {
        Ok(v) => r == Ok::<T, i32>(v),
        Err(_) => r == Err::<T, i32>(code),
    }
}

/// Whether `hl` is a highlighter as `SpanHighlighter::new` makes it.
pub open spec fn fresh_highlighter(hl: SpanHighlighter) -> bool {
    &&& hl.well_formed()
    &&& !hl.logs_timing()
    &&& hl.attr_table() == registered_table(all_grammars().len() as int)
}

/// Whether `r` is what a new highlighter and rendering give for `source` in
/// grammar `g` when every grammar compiles, or else the error of building the
/// highlighter.
pub open spec fn fresh_renders_highlight(
    g: Grammar,
    source: Seq<u8>,
    theme: Theme,
    mode: ColorMode,
    preserve: bool,
    r: Result<String, RenderError>,
) -> bool {
    ||| (!all_grammars_compile() && (r matches Err(RenderError::Highlight(e)) && !(e is Parse)))
    ||| all_grammars_compile() && exists|hl: SpanHighlighter| #[trigger] fresh_highlighter(hl) && renders_highlight(
        hl.injection_setup(g),
        hl.attr_table(),
        g,
        source,
        theme,
        mode,
        preserve,
        r,
    )
}

/// Whether `r` is what a new highlighter and line-by-line rendering give for
/// `source` in grammar `g` when every grammar compiles, or else the error of
/// building the highlighter.
pub open spec fn fresh_renders_highlight_lines(
    g: Grammar,
    source: Seq<u8>,
    theme: Theme,
    mode: ColorMode,
    preserve: bool,
    r: Result<Vec<String>, RenderError>,
) -> bool {
    ||| (!all_grammars_compile() && (r matches Err(RenderError::Highlight(e)) && !(e is Parse)))
    ||| all_grammars_compile() && exists|hl: SpanHighlighter| #[trigger] fresh_highlighter(hl) && renders_highlight_lines(
        hl.injection_setup(g),
        hl.attr_table(),
        g,
        source,
        theme,
        mode,
        preserve,
        r,
    )
}

/// The bytes of the lines joined with newlines.
pub open spec fn joined_bytes(lines: Seq<&str>) -> Seq<u8> {
    vstd::utf8::encode_utf8(joined_lines(lines.map_values(|l: &str| l@)))
}

/// Renders a highlight result with a theme.
///
/// # Errors
///
/// Returns [`RenderError::InvalidAttrId`] for a span naming a missing
/// attribute, and the span errors of rendering.
pub fn render_highlight(
    source: &[u8],
    highlight: &HighlightResult,
    theme: &Theme,
    color_mode: ColorMode,
    preserve_terminal_background: bool,
) -> (r: Result<String, RenderError>)
    ensures
        !attr_ids_valid(highlight.spans@, highlight.attrs@.len() as int) ==> (r matches Err(e)
            && is_first_attr_error(highlight.spans@, highlight.attrs@.len() as int, e)),
        attr_ids_valid(highlight.spans@, highlight.attrs@.len() as int) ==> {
            let styled = styled_for_source(source@.len() as int, *highlight, *theme);
            &&& validation_outcome(styled, source@.len() as int, r)
            &&& r matches Ok(s) ==> s@ == render_window(
                source@,
                styled,
                0,
                source@.len() as int,
                color_mode,
                preserve_terminal_background,
            )
        },
{
    let styled = match resolve_styled_spans_for_source(source.len(), highlight, theme) {
        Ok(v) => v,
        Err(e) => {
            return Err(e);
        },
    };
    render_ansi_with_mode_and_background(
        source,
        styled.as_slice(),
        color_mode,
        preserve_terminal_background,
    )
}

/// Renders a highlight result with a theme, line by line.
///
/// # Errors
///
/// Returns [`RenderError::InvalidAttrId`] for a span naming a missing
/// attribute, and the span errors of rendering.
pub fn render_highlight_lines(
    source: &[u8],
    highlight: &HighlightResult,
    theme: &Theme,
    color_mode: ColorMode,
    preserve_terminal_background: bool,
) -> (r: Result<Vec<String>, RenderError>)
    ensures
        !attr_ids_valid(highlight.spans@, highlight.attrs@.len() as int) ==> (r matches Err(e)
            && is_first_attr_error(highlight.spans@, highlight.attrs@.len() as int, e)),
        attr_ids_valid(highlight.spans@, highlight.attrs@.len() as int) ==> {
            let styled = styled_for_source(source@.len() as int, *highlight, *theme);
            &&& validation_outcome(styled, source@.len() as int, r)
            &&& r matches Ok(lines) ==> renders_lines(
                source@,
                styled,
                lines@,
                color_mode,
                preserve_terminal_background,
            )
        },
{
    let styled = match resolve_styled_spans_for_source(source.len(), highlight, theme) {
        Ok(v) => v,
        Err(e) => {
            return Err(e);
        },
    };
    render_ansi_lines_with_mode_and_background(
        source,
        styled.as_slice(),
        color_mode,
        preserve_terminal_background,
    )
}

/// Highlights and renders a source buffer to ANSI output.
///
/// This convenience API creates a temporary [`SpanHighlighter`].
///
/// # Errors
///
/// Returns an error if highlighting fails or if rendered spans are invalid.
pub fn highlight_to_ansi(source: &[u8], flavor: Grammar, theme: &Theme) -> (r: Result<
    String,
    RenderError,
>)
    ensures
        r matches Ok(out) ==> renders_some_highlight(source@, *theme, ColorMode::TrueColor, PRESERVE_TERMINAL_BACKGROUND_DEFAULT, out@),
        fresh_renders_highlight(flavor, source@, *theme, ColorMode::TrueColor, PRESERVE_TERMINAL_BACKGROUND_DEFAULT, r),
        all_grammars_compile() ==> r is Ok,
{
    let mut highlighter = match SpanHighlighter::new() {
        Ok(h) => h,
        Err(e) => {
            return Err(RenderError::Highlight(e));
        },
    };
    let ghost hl0 = highlighter;
    assert(fresh_highlighter(hl0));
    let r = highlight_to_ansi_with_highlighter_and_mode(
        &mut highlighter,
        source,
        flavor,
        theme,
        ColorMode::TrueColor,
    );
    r
}

/// Highlights and renders a source buffer using a caller-provided highlighter.
///
/// # Errors
///
/// Returns an error if highlighting fails or if rendered spans are invalid.
pub fn highlight_to_ansi_with_highlighter(
    highlighter: &mut SpanHighlighter,
    source: &[u8],
    flavor: Grammar,
    theme: &Theme,
) -> (r: Result<String, RenderError>)
    requires
        old(highlighter).well_formed(),
    ensures
        final(highlighter).well_formed(),
        r matches Ok(out) ==> renders_some_highlight(source@, *theme, ColorMode::TrueColor, PRESERVE_TERMINAL_BACKGROUND_DEFAULT, out@),
        final(highlighter).attr_table() == old(highlighter).attr_table(),
        forall|g: Grammar| final(highlighter).injection_setup(g) == old(highlighter).injection_setup(g),
        renders_highlight(
            old(highlighter).injection_setup(flavor),
            old(highlighter).attr_table(),
            flavor,
            source@,
            *theme,
            ColorMode::TrueColor,
            PRESERVE_TERMINAL_BACKGROUND_DEFAULT,
            r,
        ),
        r is Ok,
{
    highlight_to_ansi_with_highlighter_and_mode(
        highlighter,
        source,
        flavor,
        theme,
        ColorMode::TrueColor,
    )
}

/// Highlights and renders a source buffer with an explicit ANSI color mode.
///
/// This convenience API creates a temporary [`SpanHighlighter`].
///
/// # Errors
///
/// Returns an error if highlighting fails or if rendered spans are invalid.
pub fn highlight_to_ansi_with_mode(
    source: &[u8],
    flavor: Grammar,
    theme: &Theme,
    color_mode: ColorMode,
) -> (r: Result<String, RenderError>)
    ensures
        r matches Ok(out) ==> renders_some_highlight(source@, *theme, color_mode, PRESERVE_TERMINAL_BACKGROUND_DEFAULT, out@),
        fresh_renders_highlight(flavor, source@, *theme, color_mode, PRESERVE_TERMINAL_BACKGROUND_DEFAULT, r),
        all_grammars_compile() ==> r is Ok,
{
    highlight_to_ansi_with_mode_and_background(
        source,
        flavor,
        theme,
        color_mode,
        PRESERVE_TERMINAL_BACKGROUND_DEFAULT,
    )
}

/// Highlights and renders a source buffer with explicit color and background behavior.
///
/// # Errors
///
/// Returns an error if highlighting fails or if rendered spans are invalid.
pub fn highlight_to_ansi_with_mode_and_background(
    source: &[u8],
    flavor: Grammar,
    theme: &Theme,
    color_mode: ColorMode,
    preserve_terminal_background: bool,
) -> (r: Result<String, RenderError>)
    ensures
        r matches Ok(out) ==> renders_some_highlight(source@, *theme, color_mode, preserve_terminal_background, out@),
        fresh_renders_highlight(flavor, source@, *theme, color_mode, preserve_terminal_background, r),
        all_grammars_compile() ==> r is Ok,
{
    let mut highlighter = match SpanHighlighter::new() {
        Ok(h) => h,
        Err(e) => {
            return Err(RenderError::Highlight(e));
        },
    };
    let ghost hl0 = highlighter;
    assert(fresh_highlighter(hl0));
    let r = highlight_to_ansi_with_highlighter_and_mode_and_background(
        &mut highlighter,
        source,
        flavor,
        theme,
        color_mode,
        preserve_terminal_background,
    );
    r
}

/// Highlights and renders a source buffer using a caller-provided highlighter and color mode.
///
/// # Errors
///
/// Returns an error if highlighting fails or if rendered spans are invalid.
pub fn highlight_to_ansi_with_highlighter_and_mode(
    highlighter: &mut SpanHighlighter,
    source: &[u8],
    flavor: Grammar,
    theme: &Theme,
    color_mode: ColorMode,
) -> (r: Result<String, RenderError>)
    requires
        old(highlighter).well_formed(),
    ensures
        final(highlighter).well_formed(),
        r matches Ok(out) ==> renders_some_highlight(source@, *theme, color_mode, PRESERVE_TERMINAL_BACKGROUND_DEFAULT, out@),
        final(highlighter).attr_table() == old(highlighter).attr_table(),
        forall|g: Grammar| final(highlighter).injection_setup(g) == old(highlighter).injection_setup(g),
        renders_highlight(
            old(highlighter).injection_setup(flavor),
            old(highlighter).attr_table(),
            flavor,
            source@,
            *theme,
            color_mode,
            PRESERVE_TERMINAL_BACKGROUND_DEFAULT,
            r,
        ),
        r is Ok,
{
    highlight_to_ansi_with_highlighter_and_mode_and_background(
        highlighter,
        source,
        flavor,
        theme,
        color_mode,
        PRESERVE_TERMINAL_BACKGROUND_DEFAULT,
    )
}

/// Highlights and renders a source buffer using caller-provided highlighter and explicit background behavior.
///
/// The output is [`render_highlight`] of what the highlighter returns.
///
/// # Errors
///
/// Returns an error if highlighting fails or if rendered spans are invalid.
pub fn highlight_to_ansi_with_highlighter_and_mode_and_background(
    highlighter: &mut SpanHighlighter,
    source: &[u8],
    flavor: Grammar,
    theme: &Theme,
    color_mode: ColorMode,
    preserve_terminal_background: bool,
) -> (r: Result<String, RenderError>)
    requires
        old(highlighter).well_formed(),
    ensures
        final(highlighter).well_formed(),
        r matches Ok(out) ==> renders_some_highlight(source@, *theme, color_mode, preserve_terminal_background, out@),
        final(highlighter).attr_table() == old(highlighter).attr_table(),
        forall|g: Grammar| final(highlighter).injection_setup(g) == old(highlighter).injection_setup(g),
        renders_highlight(
            old(highlighter).injection_setup(flavor),
            old(highlighter).attr_table(),
            flavor,
            source@,
            *theme,
            color_mode,
            preserve_terminal_background,
            r,
        ),
        r is Ok,
{
    let highlight = match highlighter.highlight(source, flavor) {
        Ok(h) => h,
        Err(e) => {
            return Err(RenderError::Highlight(e));
        },
    };
    let r = render_highlight(source, &highlight, theme, color_mode, preserve_terminal_background);
    let source_len = source.len();
    proof {
        lemma_styled_spans_valid(source_len as int, highlight, *theme);
        let styled = styled_for_source(source@.len() as int, highlight, *theme);
        if r is Ok {
            assert(usable_highlight(highlight) && spans_valid(styled, source@.len() as int));
        }
    }
    r
}

/// Highlights line-oriented input and returns ANSI output per line.
///
/// This convenience API creates a temporary [`SpanHighlighter`].
///
/// # Errors
///
/// Returns an error if highlighting fails or if rendered spans are invalid.
pub fn highlight_lines_to_ansi_lines(lines: &[&str], flavor: Grammar, theme: &Theme) -> (r: Result<
    Vec<String>,
    RenderError,
>)
    ensures
        r matches Ok(out) ==> renders_some_highlight_lines(joined_bytes(lines@), *theme, ColorMode::TrueColor, PRESERVE_TERMINAL_BACKGROUND_DEFAULT, out@),
        fresh_renders_highlight_lines(flavor, joined_bytes(lines@), *theme, ColorMode::TrueColor, PRESERVE_TERMINAL_BACKGROUND_DEFAULT, r),
        all_grammars_compile() ==> r is Ok,
{
    let mut highlighter = match SpanHighlighter::new() {
        Ok(h) => h,
        Err(e) => {
            return Err(RenderError::Highlight(e));
        },
    };
    let ghost hl0 = highlighter;
    assert(fresh_highlighter(hl0));
    let r = highlight_lines_to_ansi_lines_with_highlighter_and_mode(
        &mut highlighter,
        lines,
        flavor,
        theme,
        ColorMode::TrueColor,
    );
    r
}

/// Highlights line-oriented input with a caller-provided highlighter.
///
/// # Errors
///
/// Returns an error if highlighting fails or if rendered spans are invalid.
pub fn highlight_lines_to_ansi_lines_with_highlighter(
    highlighter: &mut SpanHighlighter,
    lines: &[&str],
    flavor: Grammar,
    theme: &Theme,
) -> (r: Result<Vec<String>, RenderError>)
    requires
        old(highlighter).well_formed(),
    ensures
        final(highlighter).well_formed(),
        r matches Ok(out) ==> renders_some_highlight_lines(joined_bytes(lines@), *theme, ColorMode::TrueColor, PRESERVE_TERMINAL_BACKGROUND_DEFAULT, out@),
        final(highlighter).attr_table() == old(highlighter).attr_table(),
        forall|g: Grammar| final(highlighter).injection_setup(g) == old(highlighter).injection_setup(g),
        renders_highlight_lines(
            old(highlighter).injection_setup(flavor),
            old(highlighter).attr_table(),
            flavor,
            joined_bytes(lines@),
            *theme,
            ColorMode::TrueColor,
            PRESERVE_TERMINAL_BACKGROUND_DEFAULT,
            r,
        ),
        r is Ok,
{
    highlight_lines_to_ansi_lines_with_highlighter_and_mode(
        highlighter,
        lines,
        flavor,
        theme,
        ColorMode::TrueColor,
    )
}

/// Highlights line-oriented input and returns ANSI output per line using a color mode.
///
/// This convenience API creates a temporary [`SpanHighlighter`].
///
/// # Errors
///
/// Returns an error if highlighting fails or if rendered spans are invalid.
pub fn highlight_lines_to_ansi_lines_with_mode(
    lines: &[&str],
    flavor: Grammar,
    theme: &Theme,
    color_mode: ColorMode,
) -> (r: Result<Vec<String>, RenderError>)
    ensures
        r matches Ok(out) ==> renders_some_highlight_lines(joined_bytes(lines@), *theme, color_mode, PRESERVE_TERMINAL_BACKGROUND_DEFAULT, out@),
        fresh_renders_highlight_lines(flavor, joined_bytes(lines@), *theme, color_mode, PRESERVE_TERMINAL_BACKGROUND_DEFAULT, r),
        all_grammars_compile() ==> r is Ok,
{
    highlight_lines_to_ansi_lines_with_mode_and_background(
        lines,
        flavor,
        theme,
        color_mode,
        PRESERVE_TERMINAL_BACKGROUND_DEFAULT,
    )
}

/// Highlights line-oriented input and returns ANSI output per line with explicit color and background behavior.
///
/// This convenience API creates a temporary [`SpanHighlighter`].
///
/// # Errors
///
/// Returns an error if highlighting fails or if rendered spans are invalid.
pub fn highlight_lines_to_ansi_lines_with_mode_and_background(
    lines: &[&str],
    flavor: Grammar,
    theme: &Theme,
    color_mode: ColorMode,
    preserve_terminal_background: bool,
) -> (r: Result<Vec<String>, RenderError>)
    ensures
        r matches Ok(out) ==> renders_some_highlight_lines(joined_bytes(lines@), *theme, color_mode, preserve_terminal_background, out@),
        fresh_renders_highlight_lines(flavor, joined_bytes(lines@), *theme, color_mode, preserve_terminal_background, r),
        all_grammars_compile() ==> r is Ok,
{
    let mut highlighter = match SpanHighlighter::new() {
        Ok(h) => h,
        Err(e) => {
            return Err(RenderError::Highlight(e));
        },
    };
    let ghost hl0 = highlighter;
    assert(fresh_highlighter(hl0));
    let r = highlight_lines_to_ansi_lines_with_highlighter_and_mode_and_background(
        &mut highlighter,
        lines,
        flavor,
        theme,
        color_mode,
        preserve_terminal_background,
    );
    r
}

/// Highlights line-oriented input with a caller-provided highlighter and color mode.
///
/// # Errors
///
/// Returns an error if highlighting fails or if rendered spans are invalid.
pub fn highlight_lines_to_ansi_lines_with_highlighter_and_mode(
    highlighter: &mut SpanHighlighter,
    lines: &[&str],
    flavor: Grammar,
    theme: &Theme,
    color_mode: ColorMode,
) -> (r: Result<Vec<String>, RenderError>)
    requires
        old(highlighter).well_formed(),
    ensures
        final(highlighter).well_formed(),
        r matches Ok(out) ==> renders_some_highlight_lines(joined_bytes(lines@), *theme, color_mode, PRESERVE_TERMINAL_BACKGROUND_DEFAULT, out@),
        final(highlighter).attr_table() == old(highlighter).attr_table(),
        forall|g: Grammar| final(highlighter).injection_setup(g) == old(highlighter).injection_setup(g),
        renders_highlight_lines(
            old(highlighter).injection_setup(flavor),
            old(highlighter).attr_table(),
            flavor,
            joined_bytes(lines@),
            *theme,
            color_mode,
            PRESERVE_TERMINAL_BACKGROUND_DEFAULT,
            r,
        ),
        r is Ok,
{
    highlight_lines_to_ansi_lines_with_highlighter_and_mode_and_background(
        highlighter,
        lines,
        flavor,
        theme,
        color_mode,
        PRESERVE_TERMINAL_BACKGROUND_DEFAULT,
    )
}

/// Highlights line-oriented input with caller-provided highlighter, color mode, and background behavior.
///
/// The lines are joined with `\n`; the output is [`render_highlight_lines`]
/// of the joined source and what the highlighter returns for it.
///
/// # Errors
///
/// Returns an error if highlighting fails or if rendered spans are invalid.
pub fn highlight_lines_to_ansi_lines_with_highlighter_and_mode_and_background(
    highlighter: &mut SpanHighlighter,
    lines: &[&str],
    flavor: Grammar,
    theme: &Theme,
    color_mode: ColorMode,
    preserve_terminal_background: bool,
) -> (r: Result<Vec<String>, RenderError>)
    requires
        old(highlighter).well_formed(),
    ensures
        final(highlighter).well_formed(),
        r matches Ok(out) ==> renders_some_highlight_lines(joined_bytes(lines@), *theme, color_mode, preserve_terminal_background, out@),
        final(highlighter).attr_table() == old(highlighter).attr_table(),
        forall|g: Grammar| final(highlighter).injection_setup(g) == old(highlighter).injection_setup(g),
        renders_highlight_lines(
            old(highlighter).injection_setup(flavor),
            old(highlighter).attr_table(),
            flavor,
            joined_bytes(lines@),
            *theme,
            color_mode,
            preserve_terminal_background,
            r,
        ),
        r is Ok,
{
    let source = join_lines(lines);
    let bytes = source.as_str().as_bytes();
    let highlight = match highlighter.highlight(bytes, flavor) {
        Ok(h) => h,
        Err(e) => {
            return Err(RenderError::Highlight(e));
        },
    };
    let r = render_highlight_lines(bytes, &highlight, theme, color_mode, preserve_terminal_background);
    let bytes_len = bytes.len();
    proof {
        lemma_styled_spans_valid(bytes_len as int, highlight, *theme);
        let styled = styled_for_source(bytes@.len() as int, highlight, *theme);
        assert(bytes@ == joined_bytes(lines@));
        if r is Ok {
            assert(usable_highlight(highlight) && spans_valid(styled, bytes@.len() as int));
        }
    }
    r
}

impl IncrementalRenderer {
    /// Runs highlight + theme resolution + incremental diff in one call.
    ///
    /// # Errors
    ///
    /// Returns an error if highlighting fails or spans fail validation.
    pub fn highlight_to_patch(
        &mut self,
        highlighter: &mut SpanHighlighter,
        source: &[u8],
        flavor: Grammar,
        theme: &Theme,
    ) -> (r: Result<String, RenderError>)
        requires
            old(highlighter).well_formed(),
        ensures
            final(highlighter).well_formed(),
            r is Ok,
            r is Err ==> *final(self) == *old(self),
            r matches Ok(patch) ==> patches_some_highlight(*old(self), *final(self), source@, *theme, patch@),
            final(highlighter).attr_table() == old(highlighter).attr_table(),
            forall|g: Grammar| final(highlighter).injection_setup(g) == old(highlighter).injection_setup(g),
            patches_highlight(
                old(highlighter).injection_setup(flavor),
                old(highlighter).attr_table(),
                flavor,
                source@,
                *theme,
                *old(self),
                *final(self),
                r,
            ),
    {
        let highlight = match highlighter.highlight(source, flavor) {
            Ok(h) => h,
            Err(e) => {
                return Err(RenderError::Highlight(e));
            },
        };
        let styled = match resolve_styled_spans_for_source(source.len(), &highlight, theme) {
            Ok(v) => v,
            Err(e) => {
                return Err(e);
            },
        };
        let r = self.render_patch(source, styled.as_slice());
        let source_len = source.len();
        proof {
            lemma_styled_spans_valid(source_len as int, highlight, *theme);
            let st = styled_for_source(source@.len() as int, highlight, *theme);
            assert(styled@ == st);
            if r is Ok {
                assert(usable_highlight(highlight) && spans_valid(st, source@.len() as int));
            }
        }
        r
    }
}

impl StreamLineRenderer {
    /// Runs highlight + theme resolution + stream-safe single-line diff.
    ///
    /// # Errors
    ///
    /// Returns an error if highlighting fails, spans are invalid, or input has newlines.
    pub fn highlight_line_to_patch(
        &mut self,
        highlighter: &mut SpanHighlighter,
        source: &[u8],
        flavor: Grammar,
        theme: &Theme,
    ) -> (r: Result<String, RenderError>)
        requires
            old(highlighter).well_formed(),
        ensures
            final(highlighter).well_formed(),
            r is Err ==> *final(self) == *old(self),
            r matches Ok(patch) ==> line_patches_some_highlight(*old(self), *final(self), source@, *theme, patch@),
            source@.contains(10u8) ==> r is Err,
            !source@.contains(10u8) ==> r is Ok,
            final(highlighter).attr_table() == old(highlighter).attr_table(),
            forall|g: Grammar| final(highlighter).injection_setup(g) == old(highlighter).injection_setup(g),
            line_patches_highlight(
                old(highlighter).injection_setup(flavor),
                old(highlighter).attr_table(),
                flavor,
                source@,
                *theme,
                *old(self),
                *final(self),
                r,
            ),
    {
        let highlight = match highlighter.highlight(source, flavor) {
            Ok(h) => h,
            Err(e) => {
                return Err(RenderError::Highlight(e));
            },
        };
        let styled = match resolve_styled_spans_for_source(source.len(), &highlight, theme) {
            Ok(v) => v,
            Err(e) => {
                return Err(e);
            },
        };
        let r = self.render_line_patch(source, styled.as_slice());
        let source_len = source.len();
        proof {
            lemma_styled_spans_valid(source_len as int, highlight, *theme);
            let st = styled_for_source(source@.len() as int, highlight, *theme);
            assert(styled@ == st);
            if r is Ok {
                assert(usable_highlight(highlight) && spans_valid(st, source@.len() as int));
            }
        }
        r
    }
}

} // verus!
