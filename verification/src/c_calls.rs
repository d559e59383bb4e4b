//! The handles behind the C interface and, for each exported call, the
//! status code or value it produces once its pointer arguments have been read.
use crate::c_api::{
    color_mode_of_code, grammar_of_code, parse_color_mode, parse_grammar, rgb_to_ffi,
    rgb_to_ffi_spec, style_to_ffi, style_to_ffi_spec, styled_span_from_ffi_spec,
    styled_span_to_ffi_spec, styled_spans_from_ffi, styled_spans_to_ffi, SyntaxColorStyledSpan,
    ThemeEngineRgb, ThemeEngineStyle, SYNTAX_COLOR_FFI_ERR_HIGHLIGHT,
    SYNTAX_COLOR_FFI_ERR_INVALID_ARGUMENT, SYNTAX_COLOR_FFI_ERR_NOT_FOUND,
    SYNTAX_COLOR_FFI_ERR_RENDER, SYNTAX_COLOR_FFI_ERR_THEME, SYNTAX_COLOR_FFI_OK,
};
use crate::highlighter::{highlights_as, SpanHighlighter};
use crate::pipeline::{
    coded, line_patches_highlight, line_patches_some_highlight, patches_highlight,
    patches_some_highlight, render_lines_result, renders_highlight, renders_highlight_lines,
    renders_some_highlight, renders_some_highlight_lines, styled_for_source, usable_highlight,
};
use crate::render::{
    render_ansi_lines_with_mode_and_background, render_ansi_with_mode_and_background,
    render_window, renders_lines, spans_valid, RenderError, StyledSpan,
};
use crate::renderers::{line_patched, patched, IncrementalRenderer, StreamLineRenderer};
use crate::resolve::{
    attr_ids_valid, attr_names, filled, resolve_styled_spans, resolve_styled_spans_for_source,
    resolved_span,
};
use crate::spans::{disjoint_ordered, HighlightResult, Span};
use crate::style::Rgb;
use crate::theme::{builtin_from_name, builtin_theme_maps, default_bg_color, default_fg_color, load_theme, normalized_name, resolve_in, ui_name_style, Theme};
use vstd::prelude::*;

verus! {

/// Opaque C handle for a loaded theme.
pub struct ThemeEngineTheme {
    pub theme: Theme,
}

/// Opaque C handle for a reusable highlighter.
pub struct SyntaxColorHighlighter {
    pub highlighter: SpanHighlighter,
}

/// Opaque C handle for a multi-line incremental VT patch renderer.
pub struct SyntaxColorIncrementalRenderer {
    pub renderer: IncrementalRenderer,
}

/// Opaque C handle for a single-line relative VT patch renderer.
pub struct SyntaxColorStreamLineRenderer {
    pub renderer: StreamLineRenderer,
}

/// The C form of an optional color.
pub open spec fn opt_rgb_ffi(c: Option<Rgb>) -> Option<ThemeEngineRgb> {
    match c {
        Some(v) => Some(rgb_to_ffi_spec(v)),
        None => None,
    }
}

/// The styled spans that C entries stand for.
pub open spec fn ffi_styled(spans: Seq<SyntaxColorStyledSpan>) -> Seq<StyledSpan> {
    spans.map_values(|s: SyntaxColorStyledSpan| styled_span_from_ffi_spec(s))
}

/// The styled spans of a highlight result with a theme, optionally with the
/// uncovered byte ranges filled with the theme's `normal` style.
pub open spec fn resolved_for_c(
    source_len: int,
    h: HighlightResult,
    theme: Theme,
    fill: bool,
) -> Seq<StyledSpan> {
    if fill {
        styled_for_source(source_len, h, theme)
    } else {
        h.spans@.map_values(|sp: Span| resolved_span(attr_names(h.attrs@), theme.styles@, sp))
    }
}

/// Loads a built-in theme by name or alias into a handle.
///
/// # Errors
///
/// Returns [`SYNTAX_COLOR_FFI_ERR_THEME`] for an unknown name or a theme whose
/// data is not available.
pub fn theme_engine_theme_load_builtin(name: &str) -> (r: Result<ThemeEngineTheme, i32>)
    ensures
        match builtin_from_name(name@) {
            Some(t) => match builtin_theme_maps(t) {
                Some(maps) => r matches Ok(h) && (h.theme.styles@, h.theme.ui@) == maps,
                None => r matches Err(c) && c == SYNTAX_COLOR_FFI_ERR_THEME,
            },
            None => r matches Err(c) && c == SYNTAX_COLOR_FFI_ERR_THEME,
        },
{
    match load_theme(name) {
        Ok(theme) => Ok(ThemeEngineTheme { theme }),
        Err(_) => Err(SYNTAX_COLOR_FFI_ERR_THEME),
    }
}

/// Resolves a syntax capture style (for example `"@keyword"`) to its C form.
///
/// # Errors
///
/// Returns [`SYNTAX_COLOR_FFI_ERR_NOT_FOUND`] when neither the capture, one
/// of its dotted prefixes, nor `normal` has a style.
pub fn theme_engine_theme_resolve_capture(theme: &ThemeEngineTheme, capture_name: &str) -> (r:
    Result<ThemeEngineStyle, i32>)
    ensures
        match resolve_in(theme.theme.styles@, normalized_name(capture_name@)) {
            Some(s) => r == Ok::<ThemeEngineStyle, i32>(style_to_ffi_spec(s)),
            None => r == Err::<ThemeEngineStyle, i32>(SYNTAX_COLOR_FFI_ERR_NOT_FOUND),
        },
{
    match theme.theme.resolve(capture_name) {
        Some(s) => Ok(style_to_ffi(*s)),
        None => Err(SYNTAX_COLOR_FFI_ERR_NOT_FOUND),
    }
}

/// Resolves a UI role style (for example `"statusline"`) to its C form.
///
/// # Errors
///
/// Returns [`SYNTAX_COLOR_FFI_ERR_NOT_FOUND`] when the role has no style.
pub fn theme_engine_theme_resolve_ui(theme: &ThemeEngineTheme, role_name: &str) -> (r: Result<
    ThemeEngineStyle,
    i32,
>)
    ensures
        match ui_name_style(theme.theme.ui@, theme.theme.styles@, role_name@) {
            Some(s) => r == Ok::<ThemeEngineStyle, i32>(style_to_ffi_spec(s)),
            None => r == Err::<ThemeEngineStyle, i32>(SYNTAX_COLOR_FFI_ERR_NOT_FOUND),
        },
{
    match theme.theme.resolve_ui(role_name) {
        Some(s) => Ok(style_to_ffi(s)),
        None => Err(SYNTAX_COLOR_FFI_ERR_NOT_FOUND),
    }
}

/// The theme's default terminal foreground and background colors in C form.
pub fn theme_engine_theme_default_terminal_colors(theme: &ThemeEngineTheme) -> (r: (
    Option<ThemeEngineRgb>,
    Option<ThemeEngineRgb>,
))
    ensures
        r.0 == opt_rgb_ffi(default_fg_color(theme.theme.ui@, theme.theme.styles@)),
        r.1 == opt_rgb_ffi(default_bg_color(theme.theme.ui@, theme.theme.styles@)),
{
    let (fg, bg) = theme.theme.default_terminal_colors();
    let fg_ffi = match fg {
        Some(c) => Some(rgb_to_ffi(c)),
        None => None,
    };
    let bg_ffi = match bg {
        Some(c) => Some(rgb_to_ffi(c)),
        None => None,
    };
    (fg_ffi, bg_ffi)
}

/// Creates a highlighter handle.
///
/// # Errors
///
/// Returns [`SYNTAX_COLOR_FFI_ERR_HIGHLIGHT`] when a grammar query cannot be
/// compiled or a parser cannot be configured.
pub fn syntax_color_highlighter_new() -> (r: Result<SyntaxColorHighlighter, i32>)
    ensures
        r matches Ok(h) ==> h.highlighter.well_formed(),
        r matches Ok(h) ==> crate::pipeline::fresh_highlighter(h.highlighter),
        r matches Err(c) ==> c == SYNTAX_COLOR_FFI_ERR_HIGHLIGHT,
        r is Ok <==> crate::highlighter::all_grammars_compile(),
{
    match SpanHighlighter::new() {
        Ok(highlighter) => Ok(SyntaxColorHighlighter { highlighter }),
        Err(_) => Err(SYNTAX_COLOR_FFI_ERR_HIGHLIGHT),
    }
}

/// Highlights a source buffer with the grammar of a C grammar code.
///
/// # Errors
///
/// Returns [`SYNTAX_COLOR_FFI_ERR_INVALID_ARGUMENT`] for an unknown grammar
/// code and [`SYNTAX_COLOR_FFI_ERR_HIGHLIGHT`] when highlighting fails.
pub fn syntax_color_highlighter_highlight(
    highlighter: &mut SyntaxColorHighlighter,
    source: &[u8],
    grammar: i32,
) -> (r: Result<HighlightResult, i32>)
    requires
        old(highlighter).highlighter.well_formed(),
    ensures
        final(highlighter).highlighter.well_formed(),
        grammar_of_code(grammar) is None ==> (r matches Err(c) && c
            == SYNTAX_COLOR_FFI_ERR_INVALID_ARGUMENT),
        grammar_of_code(grammar) is Some ==> (r matches Err(c) ==> c
            == SYNTAX_COLOR_FFI_ERR_HIGHLIGHT),
        r matches Ok(h) ==> disjoint_ordered(h.spans@),
        grammar_of_code(grammar) matches Some(g) ==> (r matches Ok(h) && highlights_as(
            old(highlighter).highlighter.injection_setup(g),
            old(highlighter).highlighter.attr_table(),
            g,
            source@,
            h,
        )),
{
    let g = match parse_grammar(grammar) {
        Ok(g) => g,
        Err(code) => {
            return Err(code);
        },
    };
    match highlighter.highlighter.highlight(source, g) {
        Ok(h) => Ok(h),
        Err(_) => Err(SYNTAX_COLOR_FFI_ERR_HIGHLIGHT),
    }
}

/// Resolves a highlight result into C styled spans, filling the uncovered
/// byte ranges with `normal` when `fill_uncovered_with_normal` is non-zero.
///
/// # Errors
///
/// Returns [`SYNTAX_COLOR_FFI_ERR_RENDER`] when a span names a missing attribute.
pub fn syntax_color_resolve_styled_spans(
    theme: &ThemeEngineTheme,
    source_len: usize,
    highlight: &HighlightResult,
    fill_uncovered_with_normal: u8,
) -> (r: Result<Vec<SyntaxColorStyledSpan>, i32>)
    ensures
        !attr_ids_valid(highlight.spans@, highlight.attrs@.len() as int) ==> (r matches Err(c) && c
            == SYNTAX_COLOR_FFI_ERR_RENDER),
        attr_ids_valid(highlight.spans@, highlight.attrs@.len() as int) ==> (r matches Ok(v) && v@
            == resolved_for_c(
            source_len as int,
            *highlight,
            theme.theme,
            fill_uncovered_with_normal != 0,
        ).map_values(|s: StyledSpan| styled_span_to_ffi_spec(s))),
{
    let styled = if fill_uncovered_with_normal != 0 {
        match resolve_styled_spans_for_source(source_len, highlight, &theme.theme) {
            Ok(v) => v,
            Err(_) => {
                return Err(SYNTAX_COLOR_FFI_ERR_RENDER);
            },
        }
    } else {
        match resolve_styled_spans(highlight, &theme.theme) {
            Ok(v) => v,
            Err(_) => {
                return Err(SYNTAX_COLOR_FFI_ERR_RENDER);
            },
        }
    };
    Ok(styled_spans_to_ffi(styled.as_slice()))
}

/// Renders C styled spans over a source buffer into one ANSI/VT string.
///
/// # Errors
///
/// Returns [`SYNTAX_COLOR_FFI_ERR_INVALID_ARGUMENT`] for an unknown color-mode
/// code and [`SYNTAX_COLOR_FFI_ERR_RENDER`] for spans that are out of bounds,
/// unsorted or overlapping.
pub fn syntax_color_render_ansi(
    source: &[u8],
    spans: &[SyntaxColorStyledSpan],
    color_mode: i32,
    preserve_terminal_background: u8,
) -> (r: Result<String, i32>)
    ensures
        match color_mode_of_code(color_mode) {
            None => r matches Err(c) && c == SYNTAX_COLOR_FFI_ERR_INVALID_ARGUMENT,
            Some(m) => if spans_valid(ffi_styled(spans@), source@.len() as int) {
                r matches Ok(s) && s@ == render_window(
                    source@,
                    ffi_styled(spans@),
                    0,
                    source@.len() as int,
                    m,
                    preserve_terminal_background != 0,
                )
            } else {
                r matches Err(c) && c == SYNTAX_COLOR_FFI_ERR_RENDER
            },
        },
{
    let styled = styled_spans_from_ffi(spans);
    let mode = match parse_color_mode(color_mode) {
        Ok(m) => m,
        Err(code) => {
            return Err(code);
        },
    };
    match render_ansi_with_mode_and_background(
        source,
        styled.as_slice(),
        mode,
        preserve_terminal_background != 0,
    ) {
        Ok(s) => Ok(s),
        Err(_) => Err(SYNTAX_COLOR_FFI_ERR_RENDER),
    }
}

/// Renders C styled spans over a source buffer into one ANSI/VT string per line.
///
/// # Errors
///
/// Returns [`SYNTAX_COLOR_FFI_ERR_INVALID_ARGUMENT`] for an unknown color-mode
/// code and [`SYNTAX_COLOR_FFI_ERR_RENDER`] for spans that are out of bounds,
/// unsorted or overlapping.
pub fn syntax_color_render_ansi_lines(
    source: &[u8],
    spans: &[SyntaxColorStyledSpan],
    color_mode: i32,
    preserve_terminal_background: u8,
) -> (r: Result<Vec<String>, i32>)
    ensures
        match color_mode_of_code(color_mode) {
            None => r matches Err(c) && c == SYNTAX_COLOR_FFI_ERR_INVALID_ARGUMENT,
            Some(m) => if spans_valid(ffi_styled(spans@), source@.len() as int) {
                r matches Ok(lines) && renders_lines(
                    source@,
                    ffi_styled(spans@),
                    lines@,
                    m,
                    preserve_terminal_background != 0,
                )
            } else {
                r matches Err(c) && c == SYNTAX_COLOR_FFI_ERR_RENDER
            },
        },
{
    let styled = styled_spans_from_ffi(spans);
    let mode = match parse_color_mode(color_mode) {
        Ok(m) => m,
        Err(code) => {
            return Err(code);
        },
    };
    match render_ansi_lines_with_mode_and_background(
        source,
        styled.as_slice(),
        mode,
        preserve_terminal_background != 0,
    ) {
        Ok(v) => Ok(v),
        Err(_) => Err(SYNTAX_COLOR_FFI_ERR_RENDER),
    }
}

/// Highlights a source buffer and renders it into one ANSI/VT string.
///
/// # Errors
///
/// Returns [`SYNTAX_COLOR_FFI_ERR_INVALID_ARGUMENT`] for an unknown grammar or
/// color-mode code, and [`SYNTAX_COLOR_FFI_ERR_RENDER`] when highlighting or
/// rendering fails.
pub fn syntax_color_highlight_to_ansi(
    highlighter: &mut SpanHighlighter,
    theme: &ThemeEngineTheme,
    source: &[u8],
    grammar: i32,
    color_mode: i32,
    preserve_terminal_background: u8,
) -> (r: Result<String, i32>)
    requires
        old(highlighter).well_formed(),
    ensures
        final(highlighter).well_formed(),
        grammar_of_code(grammar) is None ==> (r matches Err(c) && c
            == SYNTAX_COLOR_FFI_ERR_INVALID_ARGUMENT),
        grammar_of_code(grammar) is Some ==> match color_mode_of_code(color_mode) {
            None => r matches Err(c) && c == SYNTAX_COLOR_FFI_ERR_INVALID_ARGUMENT,
            Some(m) => {
                &&& r matches Err(c) ==> c == SYNTAX_COLOR_FFI_ERR_RENDER
                &&& r matches Ok(s) ==> renders_some_highlight(
                    source@,
                    theme.theme,
                    m,
                    preserve_terminal_background != 0,
                    s@,
                )
            },
        },
        grammar_of_code(grammar) matches Some(g) ==> (color_mode_of_code(color_mode) matches Some(m)
            ==> exists|rr: Result<String, RenderError>|
            renders_highlight(
                old(highlighter).injection_setup(g),
                old(highlighter).attr_table(),
                g,
                source@,
                theme.theme,
                m,
                preserve_terminal_background != 0,
                rr,
            ) && #[trigger] coded(rr, SYNTAX_COLOR_FFI_ERR_RENDER, r)),
        grammar_of_code(grammar) is Some && color_mode_of_code(color_mode) is Some ==> r is Ok,
{
    let g = match parse_grammar(grammar) {
        Ok(g) => g,
        Err(code) => {
            return Err(code);
        },
    };
    let mode = match parse_color_mode(color_mode) {
        Ok(m) => m,
        Err(code) => {
            return Err(code);
        },
    };
    let rr = crate::pipeline::highlight_to_ansi_with_highlighter_and_mode_and_background(
        highlighter,
        source,
        g,
        &theme.theme,
        mode,
        preserve_terminal_background != 0,
    );
    let ghost rv = rr;
    let r = match rr {
        Ok(s) => Ok(s),
        Err(_) => Err(SYNTAX_COLOR_FFI_ERR_RENDER),
    };
    assert(coded(rv, SYNTAX_COLOR_FFI_ERR_RENDER, r));
    r
}

/// Highlights a source buffer and renders it into one ANSI/VT string per line.
///
/// # Errors
///
/// Returns [`SYNTAX_COLOR_FFI_ERR_INVALID_ARGUMENT`] for an unknown grammar or
/// color-mode code, [`SYNTAX_COLOR_FFI_ERR_HIGHLIGHT`] when highlighting
/// fails, and [`SYNTAX_COLOR_FFI_ERR_RENDER`] when resolving or rendering fails.
pub fn syntax_color_highlight_to_ansi_lines(
    highlighter: &mut SpanHighlighter,
    theme: &ThemeEngineTheme,
    source: &[u8],
    grammar: i32,
    color_mode: i32,
    preserve_terminal_background: u8,
) -> (r: Result<Vec<String>, i32>)
    requires
        old(highlighter).well_formed(),
    ensures
        final(highlighter).well_formed(),
        grammar_of_code(grammar) is None ==> (r matches Err(c) && c
            == SYNTAX_COLOR_FFI_ERR_INVALID_ARGUMENT),
        grammar_of_code(grammar) is Some ==> match color_mode_of_code(color_mode) {
            None => r matches Err(c) && c == SYNTAX_COLOR_FFI_ERR_INVALID_ARGUMENT,
            Some(m) => {
                &&& r matches Err(c) ==> c == SYNTAX_COLOR_FFI_ERR_HIGHLIGHT || c
                    == SYNTAX_COLOR_FFI_ERR_RENDER
                &&& r matches Ok(lines) ==> renders_some_highlight_lines(
                    source@,
                    theme.theme,
                    m,
                    preserve_terminal_background != 0,
                    lines@,
                )
            },
        },
        grammar_of_code(grammar) matches Some(g) ==> (color_mode_of_code(color_mode) matches Some(m)
            ==> exists|rr: Result<Vec<String>, RenderError>|
            renders_highlight_lines(
                old(highlighter).injection_setup(g),
                old(highlighter).attr_table(),
                g,
                source@,
                theme.theme,
                m,
                preserve_terminal_background != 0,
                rr,
            ) && #[trigger] coded(rr, SYNTAX_COLOR_FFI_ERR_RENDER, r)),
        grammar_of_code(grammar) is Some && color_mode_of_code(color_mode) is Some ==> r is Ok,
{
    let g = match parse_grammar(grammar) {
        Ok(g) => g,
        Err(code) => {
            return Err(code);
        },
    };
    let mode = match parse_color_mode(color_mode) {
        Ok(m) => m,
        Err(code) => {
            return Err(code);
        },
    };
    let highlight = match highlighter.highlight(source, g) {
        Ok(h) => h,
        Err(_) => {
            return Err(SYNTAX_COLOR_FFI_ERR_HIGHLIGHT);
        },
    };
    let source_len = source.len();
    proof {
        crate::laws::lemma_styled_spans_valid(source_len as int, highlight, theme.theme);
    }
    let styled = match resolve_styled_spans_for_source(source.len(), &highlight, &theme.theme) {
        Ok(v) => v,
        Err(e) => {
            proof {
                let rr = Err::<Vec<String>, RenderError>(e);
                assert(render_lines_result(source@, highlight, theme.theme, mode, preserve_terminal_background != 0, rr));
                assert(coded(rr, SYNTAX_COLOR_FFI_ERR_RENDER, Err::<Vec<String>, i32>(SYNTAX_COLOR_FFI_ERR_RENDER)));
            }
            return Err(SYNTAX_COLOR_FFI_ERR_RENDER);
        },
    };
    let r = render_ansi_lines_with_mode_and_background(
        source,
        styled.as_slice(),
        mode,
        preserve_terminal_background != 0,
    );
    proof {
        assert(styled@ == styled_for_source(source@.len() as int, highlight, theme.theme));
        assert(render_lines_result(source@, highlight, theme.theme, mode, preserve_terminal_background != 0, r));
    }
    match r {
        Ok(lines) => {
            proof {
                let st = styled_for_source(source@.len() as int, highlight, theme.theme);
                assert(styled@ == st);
                assert(usable_highlight(highlight) && spans_valid(st, source@.len() as int));
                assert(coded(r, SYNTAX_COLOR_FFI_ERR_RENDER, Ok::<Vec<String>, i32>(lines)));
            }
            Ok(lines)
        },
        Err(_) => {
            assert(coded(r, SYNTAX_COLOR_FFI_ERR_RENDER, Err::<Vec<String>, i32>(SYNTAX_COLOR_FFI_ERR_RENDER)));
            Err(SYNTAX_COLOR_FFI_ERR_RENDER)
        },
    }
}

/// Sets the color mode of an incremental renderer from a C color-mode code.
///
/// Returns [`SYNTAX_COLOR_FFI_OK`], or [`SYNTAX_COLOR_FFI_ERR_INVALID_ARGUMENT`]
/// for an unknown code, in which case the renderer is left unchanged.
pub fn syntax_color_incremental_renderer_set_color_mode(
    renderer: &mut SyntaxColorIncrementalRenderer,
    color_mode: i32,
) -> (r: i32)
    ensures
        match color_mode_of_code(color_mode) {
            None => r == SYNTAX_COLOR_FFI_ERR_INVALID_ARGUMENT && *final(renderer) == *old(renderer),
            Some(m) => {
                &&& r == SYNTAX_COLOR_FFI_OK
                &&& final(renderer).renderer.mode() == m
                &&& final(renderer).renderer.frame() == old(renderer).renderer.frame()
                &&& final(renderer).renderer.viewport_width() == old(renderer).renderer.viewport_width()
                &&& final(renderer).renderer.viewport_height() == old(renderer).renderer.viewport_height()
                &&& final(renderer).renderer.origin_row_spec() == old(renderer).renderer.origin_row_spec()
                &&& final(renderer).renderer.origin_col_spec() == old(renderer).renderer.origin_col_spec()
                &&& final(renderer).renderer.keeps_background() == old(renderer).renderer.keeps_background()
            },
        },
{
    match parse_color_mode(color_mode) {
        Ok(m) => {
            renderer.renderer.set_color_mode(m);
            SYNTAX_COLOR_FFI_OK
        },
        Err(code) => code,
    }
}

/// Renders a VT patch from C styled spans with an incremental renderer.
///
/// # Errors
///
/// Returns [`SYNTAX_COLOR_FFI_ERR_RENDER`] for spans that are out of bounds,
/// unsorted or overlapping; the renderer is then left unchanged.
pub fn syntax_color_incremental_renderer_render_patch(
    renderer: &mut SyntaxColorIncrementalRenderer,
    source: &[u8],
    spans: &[SyntaxColorStyledSpan],
) -> (r: Result<String, i32>)
    ensures
        spans_valid(ffi_styled(spans@), source@.len() as int) ==> (r matches Ok(p) && patched(
            old(renderer).renderer,
            final(renderer).renderer,
            source@,
            ffi_styled(spans@),
            p@,
        )),
        !spans_valid(ffi_styled(spans@), source@.len() as int) ==> (r matches Err(c) && c
            == SYNTAX_COLOR_FFI_ERR_RENDER && *final(renderer) == *old(renderer)),
{
    let styled = styled_spans_from_ffi(spans);
    match renderer.renderer.render_patch(source, styled.as_slice()) {
        Ok(p) => Ok(p),
        Err(_) => Err(SYNTAX_COLOR_FFI_ERR_RENDER),
    }
}

/// Highlights a source buffer and renders a VT patch with an incremental renderer.
///
/// # Errors
///
/// Returns [`SYNTAX_COLOR_FFI_ERR_INVALID_ARGUMENT`] for an unknown grammar
/// code and [`SYNTAX_COLOR_FFI_ERR_RENDER`] when highlighting or rendering
/// fails; the renderer is then left unchanged.
pub fn syntax_color_incremental_renderer_highlight_to_patch(
    renderer: &mut SyntaxColorIncrementalRenderer,
    highlighter: &mut SpanHighlighter,
    theme: &ThemeEngineTheme,
    source: &[u8],
    grammar: i32,
) -> (r: Result<String, i32>)
    requires
        old(highlighter).well_formed(),
    ensures
        final(highlighter).well_formed(),
        grammar_of_code(grammar) is None ==> (r matches Err(c) && c
            == SYNTAX_COLOR_FFI_ERR_INVALID_ARGUMENT),
        grammar_of_code(grammar) is Some ==> (r matches Err(c) ==> c == SYNTAX_COLOR_FFI_ERR_RENDER),
        r is Err ==> *final(renderer) == *old(renderer),
        r matches Ok(p) ==> patches_some_highlight(
            old(renderer).renderer,
            final(renderer).renderer,
            source@,
            theme.theme,
            p@,
        ),
        grammar_of_code(grammar) matches Some(g) ==> exists|rr: Result<String, RenderError>|
            #[trigger] patches_highlight(
                old(highlighter).injection_setup(g),
                old(highlighter).attr_table(),
                g,
                source@,
                theme.theme,
                old(renderer).renderer,
                final(renderer).renderer,
                rr,
            ) && coded(rr, SYNTAX_COLOR_FFI_ERR_RENDER, r),
        grammar_of_code(grammar) is Some ==> r is Ok,
{
    let g = match parse_grammar(grammar) {
        Ok(g) => g,
        Err(code) => {
            return Err(code);
        },
    };
    let ghost before = renderer.renderer;
    let rr = renderer.renderer.highlight_to_patch(highlighter, source, g, &theme.theme);
    let ghost rv = rr;
    assert(patches_highlight(
        old(highlighter).injection_setup(g),
        old(highlighter).attr_table(),
        g,
        source@,
        theme.theme,
        before,
        renderer.renderer,
        rv,
    ));
    let r = match rr {
        Ok(p) => Ok(p),
        Err(_) => Err(SYNTAX_COLOR_FFI_ERR_RENDER),
    };
    assert(coded(rv, SYNTAX_COLOR_FFI_ERR_RENDER, r));
    r
}

/// Sets the color mode of a line renderer from a C color-mode code.
///
/// Returns [`SYNTAX_COLOR_FFI_OK`], or [`SYNTAX_COLOR_FFI_ERR_INVALID_ARGUMENT`]
/// for an unknown code, in which case the renderer is left unchanged.
pub fn syntax_color_stream_line_renderer_set_color_mode(
    renderer: &mut SyntaxColorStreamLineRenderer,
    color_mode: i32,
) -> (r: i32)
    ensures
        match color_mode_of_code(color_mode) {
            None => r == SYNTAX_COLOR_FFI_ERR_INVALID_ARGUMENT && *final(renderer) == *old(renderer),
            Some(m) => {
                &&& r == SYNTAX_COLOR_FFI_OK
                &&& final(renderer).renderer.mode() == m
                &&& final(renderer).renderer.line() == old(renderer).renderer.line()
                &&& final(renderer).renderer.keeps_background() == old(renderer).renderer.keeps_background()
            },
        },
{
    match parse_color_mode(color_mode) {
        Ok(m) => {
            renderer.renderer.set_color_mode(m);
            SYNTAX_COLOR_FFI_OK
        },
        Err(code) => code,
    }
}

/// Renders a single-line VT patch from C styled spans with a line renderer.
///
/// # Errors
///
/// Returns [`SYNTAX_COLOR_FFI_ERR_RENDER`] for invalid spans or a source with
/// a newline; the renderer is then left unchanged.
pub fn syntax_color_stream_line_renderer_render_line_patch(
    renderer: &mut SyntaxColorStreamLineRenderer,
    source: &[u8],
    spans: &[SyntaxColorStyledSpan],
) -> (r: Result<String, i32>)
    ensures
        spans_valid(ffi_styled(spans@), source@.len() as int) && !source@.contains(10u8) ==> (r matches Ok(
            p,
        ) && line_patched(
            old(renderer).renderer,
            final(renderer).renderer,
            source@,
            ffi_styled(spans@),
            p@,
        )),
        !(spans_valid(ffi_styled(spans@), source@.len() as int) && !source@.contains(10u8)) ==> (r matches Err(
            c,
        ) && c == SYNTAX_COLOR_FFI_ERR_RENDER && *final(renderer) == *old(renderer)),
{
    let styled = styled_spans_from_ffi(spans);
    match renderer.renderer.render_line_patch(source, styled.as_slice()) {
        Ok(p) => Ok(p),
        Err(_) => Err(SYNTAX_COLOR_FFI_ERR_RENDER),
    }
}

/// Highlights a single-line source and renders a VT patch with a line renderer.
///
/// # Errors
///
/// Returns [`SYNTAX_COLOR_FFI_ERR_INVALID_ARGUMENT`] for an unknown grammar
/// code and [`SYNTAX_COLOR_FFI_ERR_RENDER`] when highlighting or rendering
/// fails; the renderer is then left unchanged.
pub fn syntax_color_stream_line_renderer_highlight_line_to_patch(
    renderer: &mut SyntaxColorStreamLineRenderer,
    highlighter: &mut SpanHighlighter,
    theme: &ThemeEngineTheme,
    source: &[u8],
    grammar: i32,
) -> (r: Result<String, i32>)
    requires
        old(highlighter).well_formed(),
    ensures
        final(highlighter).well_formed(),
        grammar_of_code(grammar) is None ==> (r matches Err(c) && c
            == SYNTAX_COLOR_FFI_ERR_INVALID_ARGUMENT),
        grammar_of_code(grammar) is Some ==> (r matches Err(c) ==> c == SYNTAX_COLOR_FFI_ERR_RENDER),
        r is Err ==> *final(renderer) == *old(renderer),
        r matches Ok(p) ==> line_patches_some_highlight(
            old(renderer).renderer,
            final(renderer).renderer,
            source@,
            theme.theme,
            p@,
        ),
        grammar_of_code(grammar) matches Some(g) ==> exists|rr: Result<String, RenderError>|
            #[trigger] line_patches_highlight(
                old(highlighter).injection_setup(g),
                old(highlighter).attr_table(),
                g,
                source@,
                theme.theme,
                old(renderer).renderer,
                final(renderer).renderer,
                rr,
            ) && coded(rr, SYNTAX_COLOR_FFI_ERR_RENDER, r),
        grammar_of_code(grammar) is Some && !source@.contains(10u8) ==> r is Ok,
{
    let g = match parse_grammar(grammar) {
        Ok(g) => g,
        Err(code) => {
            return Err(code);
        },
    };
    let ghost before = renderer.renderer;
    let rr = renderer.renderer.highlight_line_to_patch(highlighter, source, g, &theme.theme);
    let ghost rv = rr;
    assert(line_patches_highlight(
        old(highlighter).injection_setup(g),
        old(highlighter).attr_table(),
        g,
        source@,
        theme.theme,
        before,
        renderer.renderer,
        rv,
    ));
    let r = match rr {
        Ok(p) => Ok(p),
        Err(_) => Err(SYNTAX_COLOR_FFI_ERR_RENDER),
    };
    assert(coded(rv, SYNTAX_COLOR_FFI_ERR_RENDER, r));
    r
}

} // verus!
