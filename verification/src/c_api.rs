//! Plain-value side of the C interface: fixed-layout color, style and span
//! records, status codes, and the decision each exported call makes once its
//! pointers have been read.
use crate::grammar::Grammar;
use crate::render::StyledSpan;
use crate::sgr::ColorMode;
use crate::spans::Span;
use crate::style::{Rgb, Style};
use vstd::prelude::*;

verus! {

/// Operation succeeded.
pub const SYNTAX_COLOR_FFI_OK: i32 = 0;

/// A required pointer argument was null.
pub const SYNTAX_COLOR_FFI_ERR_NULL: i32 = 1;

/// A C string argument was not valid UTF-8.
pub const SYNTAX_COLOR_FFI_ERR_UTF8: i32 = 2;

/// Theme loading or parsing failed.
pub const SYNTAX_COLOR_FFI_ERR_THEME: i32 = 3;

/// Requested style was not found.
pub const SYNTAX_COLOR_FFI_ERR_NOT_FOUND: i32 = 4;

/// Highlighting or highlighter initialization failed.
pub const SYNTAX_COLOR_FFI_ERR_HIGHLIGHT: i32 = 5;

/// Rendering or span resolution failed.
pub const SYNTAX_COLOR_FFI_ERR_RENDER: i32 = 6;

/// An enum value or argument payload was invalid.
pub const SYNTAX_COLOR_FFI_ERR_INVALID_ARGUMENT: i32 = 7;

/// Theme-only alias of [`SYNTAX_COLOR_FFI_OK`].
pub const THEME_ENGINE_FFI_OK: i32 = SYNTAX_COLOR_FFI_OK;

/// Theme-only alias of [`SYNTAX_COLOR_FFI_ERR_NULL`].
pub const THEME_ENGINE_FFI_ERR_NULL: i32 = SYNTAX_COLOR_FFI_ERR_NULL;

/// Theme-only alias of [`SYNTAX_COLOR_FFI_ERR_UTF8`].
pub const THEME_ENGINE_FFI_ERR_UTF8: i32 = SYNTAX_COLOR_FFI_ERR_UTF8;

/// Theme-only alias of [`SYNTAX_COLOR_FFI_ERR_THEME`].
pub const THEME_ENGINE_FFI_ERR_THEME: i32 = SYNTAX_COLOR_FFI_ERR_THEME;

/// Theme-only alias of [`SYNTAX_COLOR_FFI_ERR_NOT_FOUND`].
pub const THEME_ENGINE_FFI_ERR_NOT_FOUND: i32 = SYNTAX_COLOR_FFI_ERR_NOT_FOUND;

/// C ABI RGB triplet.
#[derive(Debug, Clone, Copy, Default, PartialEq, Eq, Structural)]
pub struct ThemeEngineRgb {
    pub r: u8,
    pub g: u8,
    pub b: u8,
}

/// C ABI style payload: each flag is `1` when set and `0` otherwise, and a
/// color is meaningful only when its flag is set.
#[derive(Debug, Clone, Copy, Default, PartialEq, Eq, Structural)]
pub struct ThemeEngineStyle {
    pub has_fg: u8,
    pub fg: ThemeEngineRgb,
    pub has_bg: u8,
    pub bg: ThemeEngineRgb,
    pub bold: u8,
    pub italic: u8,
    pub underline: u8,
}

/// Highlight span entry using byte offsets into the highlighted source.
#[derive(Debug, Clone, Copy, Default, PartialEq, Eq, Structural)]
pub struct SyntaxColorSpan {
    pub attr_id: usize,
    pub start_byte: usize,
    pub end_byte: usize,
}

/// Render-ready styled span entry; `style` is meaningful only when
/// `has_style` is non-zero.
#[derive(Debug, Clone, Copy, Default, PartialEq, Eq, Structural)]
pub struct SyntaxColorStyledSpan {
    pub start_byte: usize,
    pub end_byte: usize,
    pub has_style: u8,
    pub style: ThemeEngineStyle,
}

/// The C flag of a boolean.
pub open spec fn flag(b: bool) -> u8 {
    if b {
        1
    } else {
        0
    }
}

/// The black triplet that stands in for an absent color.
pub open spec fn zero_rgb() -> ThemeEngineRgb {
    ThemeEngineRgb { r: 0, g: 0, b: 0 }
}

/// The all-zero style payload that stands in for an absent style.
pub open spec fn zero_style() -> ThemeEngineStyle {
    ThemeEngineStyle {
        has_fg: 0,
        fg: zero_rgb(),
        has_bg: 0,
        bg: zero_rgb(),
        bold: 0,
        italic: 0,
        underline: 0,
    }
}

/// The C form of a color.
pub open spec fn rgb_to_ffi_spec(c: Rgb) -> ThemeEngineRgb {
    ThemeEngineRgb { r: c.r, g: c.g, b: c.b }
}

/// The color of a C triplet.
pub open spec fn rgb_from_ffi_spec(c: ThemeEngineRgb) -> Rgb {
    Rgb { r: c.r, g: c.g, b: c.b }
}

/// The C form of an optional color: its flag and its triplet.
pub open spec fn opt_rgb_to_ffi(c: Option<Rgb>) -> (u8, ThemeEngineRgb) {
    match c {
        Some(v) => (1u8, rgb_to_ffi_spec(v)),
        None => (0u8, zero_rgb()),
    }
}

/// The C form of a style.
pub open spec fn style_to_ffi_spec(s: Style) -> ThemeEngineStyle {
    ThemeEngineStyle {
        has_fg: opt_rgb_to_ffi(s.fg).0,
        fg: opt_rgb_to_ffi(s.fg).1,
        has_bg: opt_rgb_to_ffi(s.bg).0,
        bg: opt_rgb_to_ffi(s.bg).1,
        bold: flag(s.bold),
        italic: flag(s.italic),
        underline: flag(s.underline),
    }
}

/// The style of a C payload.
pub open spec fn style_from_ffi_spec(s: ThemeEngineStyle) -> Style {
    Style {
        fg: if s.has_fg != 0 {
            Some(rgb_from_ffi_spec(s.fg))
        } else {
            None
        },
        bg: if s.has_bg != 0 {
            Some(rgb_from_ffi_spec(s.bg))
        } else {
            None
        },
        bold: s.bold != 0,
        italic: s.italic != 0,
        underline: s.underline != 0,
    }
}

/// The C form of a highlight span.
pub open spec fn span_to_ffi_spec(s: Span) -> SyntaxColorSpan {
    SyntaxColorSpan { attr_id: s.attr_id, start_byte: s.start_byte, end_byte: s.end_byte }
}

/// The highlight span of a C entry.
pub open spec fn span_from_ffi_spec(s: SyntaxColorSpan) -> Span {
    Span { attr_id: s.attr_id, start_byte: s.start_byte, end_byte: s.end_byte }
}

/// The C form of a styled span.
pub open spec fn styled_span_to_ffi_spec(s: StyledSpan) -> SyntaxColorStyledSpan {
    SyntaxColorStyledSpan {
        start_byte: s.start_byte,
        end_byte: s.end_byte,
        has_style: flag(s.style is Some),
        style: match s.style {
            Some(st) => style_to_ffi_spec(st),
            None => zero_style(),
        },
    }
}

/// The styled span of a C entry.
pub open spec fn styled_span_from_ffi_spec(s: SyntaxColorStyledSpan) -> StyledSpan {
    StyledSpan {
        start_byte: s.start_byte,
        end_byte: s.end_byte,
        style: if s.has_style != 0 {
            Some(style_from_ffi_spec(s.style))
        } else {
            None
        },
    }
}

/// The grammar of a C grammar code: `0` ObjectScript, `1` ObjectScript
/// routine, `2` SQL, `3` Python, `4` Markdown, `5` MDX, `6` XML, `7` JSON,
/// `8` YAML; no other code names one.
pub open spec fn grammar_of_code(code: i32) -> Option<Grammar> {
    if code == 0 {
        Some(Grammar::ObjectScript)
    } else if code == 1 {
        Some(Grammar::ObjectScriptRoutine)
    } else if code == 2 {
        Some(Grammar::Sql)
    } else if code == 3 {
        Some(Grammar::Python)
    } else if code == 4 {
        Some(Grammar::Markdown)
    } else if code == 5 {
        Some(Grammar::Mdx)
    } else if code == 6 {
        Some(Grammar::Xml)
    } else if code == 7 {
        Some(Grammar::Json)
    } else if code == 8 {
        Some(Grammar::Yaml)
    } else {
        None
    }
}

/// The color mode of a C color-mode code: `0` truecolor, `1` 256 colors,
/// `2` 16 colors; no other code names one.
pub open spec fn color_mode_of_code(code: i32) -> Option<ColorMode> {
    if code == 0 {
        Some(ColorMode::TrueColor)
    } else if code == 1 {
        Some(ColorMode::Ansi256)
    } else if code == 2 {
        Some(ColorMode::Ansi16)
    } else {
        None
    }
}

/// Converts a color to its C form.
pub fn rgb_to_ffi(rgb: Rgb) -> (r: ThemeEngineRgb)
    ensures
        r == rgb_to_ffi_spec(rgb),
{
    ThemeEngineRgb { r: rgb.r, g: rgb.g, b: rgb.b }
}

/// Converts a C triplet to a color.
pub fn rgb_from_ffi(rgb: ThemeEngineRgb) -> (r: Rgb)
    ensures
        r == rgb_from_ffi_spec(rgb),
{
    Rgb { r: rgb.r, g: rgb.g, b: rgb.b }
}

fn opt_rgb_to_ffi_exec(c: Option<Rgb>) -> (r: (u8, ThemeEngineRgb))
    ensures
        r == opt_rgb_to_ffi(c),
{
    match c {
        Some(v) => (1, rgb_to_ffi(v)),
        None => (0, ThemeEngineRgb { r: 0, g: 0, b: 0 }),
    }
}

fn flag_of(b: bool) -> (r: u8)
    ensures
        r == flag(b),
{
    if b {
        1
    } else {
        0
    }
}

/// Converts a style to its C form.
pub fn style_to_ffi(style: Style) -> (r: ThemeEngineStyle)
    ensures
        r == style_to_ffi_spec(style),
{
    let (has_fg, fg) = opt_rgb_to_ffi_exec(style.fg);
    let (has_bg, bg) = opt_rgb_to_ffi_exec(style.bg);
    ThemeEngineStyle {
        has_fg,
        fg,
        has_bg,
        bg,
        bold: flag_of(style.bold),
        italic: flag_of(style.italic),
        underline: flag_of(style.underline),
    }
}

/// Converts a C style payload to a style.
pub fn style_from_ffi(style: ThemeEngineStyle) -> (r: Style)
    ensures
        r == style_from_ffi_spec(style),
{
    Style {
        fg: if style.has_fg != 0 {
            Some(rgb_from_ffi(style.fg))
        } else {
            None
        },
        bg: if style.has_bg != 0 {
            Some(rgb_from_ffi(style.bg))
        } else {
            None
        },
        bold: style.bold != 0,
        italic: style.italic != 0,
        underline: style.underline != 0,
    }
}

/// Parses a C grammar code.
///
/// # Errors
///
/// Returns [`SYNTAX_COLOR_FFI_ERR_INVALID_ARGUMENT`] for a code outside `0..=8`.
pub fn parse_grammar(grammar: i32) -> (r: Result<Grammar, i32>)
    ensures
        match grammar_of_code(grammar) {
            Some(g) => r == Ok::<Grammar, i32>(g),
            None => r == Err::<Grammar, i32>(SYNTAX_COLOR_FFI_ERR_INVALID_ARGUMENT),
        },
{
    match grammar {
        0 => Ok(Grammar::ObjectScript),
        1 => Ok(Grammar::ObjectScriptRoutine),
        2 => Ok(Grammar::Sql),
        3 => Ok(Grammar::Python),
        4 => Ok(Grammar::Markdown),
        5 => Ok(Grammar::Mdx),
        6 => Ok(Grammar::Xml),
        7 => Ok(Grammar::Json),
        8 => Ok(Grammar::Yaml),
        _ => Err(SYNTAX_COLOR_FFI_ERR_INVALID_ARGUMENT),
    }
}

/// Parses a C color-mode code.
///
/// # Errors
///
/// Returns [`SYNTAX_COLOR_FFI_ERR_INVALID_ARGUMENT`] for a code outside `0..=2`.
pub fn parse_color_mode(color_mode: i32) -> (r: Result<ColorMode, i32>)
    ensures
        match color_mode_of_code(color_mode) {
            Some(m) => r == Ok::<ColorMode, i32>(m),
            None => r == Err::<ColorMode, i32>(SYNTAX_COLOR_FFI_ERR_INVALID_ARGUMENT),
        },
{
    match color_mode {
        0 => Ok(ColorMode::TrueColor),
        1 => Ok(ColorMode::Ansi256),
        2 => Ok(ColorMode::Ansi16),
        _ => Err(SYNTAX_COLOR_FFI_ERR_INVALID_ARGUMENT),
    }
}

/// Converts highlight spans to their C form, in order.
pub fn spans_to_ffi(spans: &[Span]) -> (out: Vec<SyntaxColorSpan>)
    ensures
        out@ == spans@.map_values(|s: Span| span_to_ffi_spec(s)),
{
    let mut out: Vec<SyntaxColorSpan> = Vec::new();
    let mut i: usize = 0;
    while i < spans.len()
        invariant
            i <= spans@.len(),
            out@ == spans@.take(i as int).map_values(|s: Span| span_to_ffi_spec(s)),
        decreases spans@.len() - i,
    {
        let s = spans[i];
        out.push(SyntaxColorSpan { attr_id: s.attr_id, start_byte: s.start_byte, end_byte: s.end_byte });
        assert(spans@.take(i + 1) == spans@.take(i as int).push(s));
        i = i + 1;
    }
    assert(spans@.take(i as int) == spans@);
    out
}

/// Converts C span entries to highlight spans, in order.
pub fn spans_from_ffi(spans: &[SyntaxColorSpan]) -> (out: Vec<Span>)
    ensures
        out@ == spans@.map_values(|s: SyntaxColorSpan| span_from_ffi_spec(s)),
{
    let mut out: Vec<Span> = Vec::new();
    let mut i: usize = 0;
    while i < spans.len()
        invariant
            i <= spans@.len(),
            out@ == spans@.take(i as int).map_values(|s: SyntaxColorSpan| span_from_ffi_spec(s)),
        decreases spans@.len() - i,
    {
        let s = spans[i];
        out.push(Span { attr_id: s.attr_id, start_byte: s.start_byte, end_byte: s.end_byte });
        assert(spans@.take(i + 1) == spans@.take(i as int).push(s));
        i = i + 1;
    }
    assert(spans@.take(i as int) == spans@);
    out
}

/// Converts styled spans to their C form, in order.
pub fn styled_spans_to_ffi(spans: &[StyledSpan]) -> (out: Vec<SyntaxColorStyledSpan>)
    ensures
        out@ == spans@.map_values(|s: StyledSpan| styled_span_to_ffi_spec(s)),
{
    let mut out: Vec<SyntaxColorStyledSpan> = Vec::new();
    let mut i: usize = 0;
    while i < spans.len()
        invariant
            i <= spans@.len(),
            out@ == spans@.take(i as int).map_values(|s: StyledSpan| styled_span_to_ffi_spec(s)),
        decreases spans@.len() - i,
    {
        let s = spans[i];
        let (has_style, style) = match s.style {
            Some(st) => (1u8, style_to_ffi(st)),
            None => (0u8, ThemeEngineStyle {
                has_fg: 0,
                fg: ThemeEngineRgb { r: 0, g: 0, b: 0 },
                has_bg: 0,
                bg: ThemeEngineRgb { r: 0, g: 0, b: 0 },
                bold: 0,
                italic: 0,
                underline: 0,
            }),
        };
        out.push(SyntaxColorStyledSpan { start_byte: s.start_byte, end_byte: s.end_byte, has_style, style });
        assert(spans@.take(i + 1) == spans@.take(i as int).push(s));
        i = i + 1;
    }
    assert(spans@.take(i as int) == spans@);
    out
}

/// Converts C styled span entries to styled spans, in order.
pub fn styled_spans_from_ffi(spans: &[SyntaxColorStyledSpan]) -> (out: Vec<StyledSpan>)
    ensures
        out@ == spans@.map_values(|s: SyntaxColorStyledSpan| styled_span_from_ffi_spec(s)),
{
    let mut out: Vec<StyledSpan> = Vec::new();
    let mut i: usize = 0;
    while i < spans.len()
        invariant
            i <= spans@.len(),
            out@ == spans@.take(i as int).map_values(
                |s: SyntaxColorStyledSpan| styled_span_from_ffi_spec(s),
            ),
        decreases spans@.len() - i,
    {
        let s = spans[i];
        let style = if s.has_style != 0 {
            Some(style_from_ffi(s.style))
        } else {
            None
        };
        out.push(StyledSpan { start_byte: s.start_byte, end_byte: s.end_byte, style });
        assert(spans@.take(i + 1) == spans@.take(i as int).push(s));
        i = i + 1;
    }
    assert(spans@.take(i as int) == spans@);
    out
}

/// A style read back from its C form is the style itself.
pub proof fn lemma_style_ffi_round_trip(s: Style)
    ensures
        style_from_ffi_spec(style_to_ffi_spec(s)) == s,
{
}

/// A styled span read back from its C form is the span itself.
pub proof fn lemma_styled_span_ffi_round_trip(s: StyledSpan)
    ensures
        styled_span_from_ffi_spec(styled_span_to_ffi_spec(s)) == s,
{
}

/// A highlight span read back from its C form is the span itself.
pub proof fn lemma_span_ffi_round_trip(s: Span)
    ensures
        span_from_ffi_spec(span_to_ffi_spec(s)) == s,
{
}

} // verus!
