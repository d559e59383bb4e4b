use syntax_color::c_api::{
    parse_color_mode, parse_grammar, rgb_from_ffi, rgb_to_ffi, spans_from_ffi, spans_to_ffi,
    style_from_ffi, style_to_ffi, styled_spans_from_ffi, styled_spans_to_ffi, SyntaxColorSpan,
    SyntaxColorStyledSpan, ThemeEngineRgb, ThemeEngineStyle, SYNTAX_COLOR_FFI_ERR_INVALID_ARGUMENT,
    SYNTAX_COLOR_FFI_ERR_NOT_FOUND, SYNTAX_COLOR_FFI_ERR_RENDER, SYNTAX_COLOR_FFI_ERR_THEME,
    SYNTAX_COLOR_FFI_OK, THEME_ENGINE_FFI_OK,
};
use syntax_color::c_calls::{
    syntax_color_highlight_to_ansi, syntax_color_highlight_to_ansi_lines,
    syntax_color_highlighter_highlight, syntax_color_highlighter_new,
    syntax_color_incremental_renderer_highlight_to_patch,
    syntax_color_incremental_renderer_render_patch,
    syntax_color_incremental_renderer_set_color_mode, syntax_color_render_ansi,
    syntax_color_render_ansi_lines, syntax_color_resolve_styled_spans,
    syntax_color_stream_line_renderer_render_line_patch,
    syntax_color_stream_line_renderer_set_color_mode, theme_engine_theme_default_terminal_colors,
    theme_engine_theme_load_builtin, theme_engine_theme_resolve_capture,
    theme_engine_theme_resolve_ui, SyntaxColorIncrementalRenderer, SyntaxColorStreamLineRenderer,
    ThemeEngineTheme,
};
use syntax_color::grammar::Grammar;
use syntax_color::highlighter::SpanHighlighter;
use syntax_color::renderers::{IncrementalRenderer, StreamLineRenderer};
use syntax_color::sgr::ColorMode;
use syntax_color::spans::{Attr, HighlightResult, Span};
use syntax_color::style::{Rgb, Style};
use syntax_color::theme::Theme;

fn load_smoke() {
    let handle = theme_engine_theme_load_builtin("tokyonight-dark");
    assert!(handle.is_ok());
    let handle = handle.ok().expect("theme handle");

    let out_style = theme_engine_theme_resolve_ui(&handle, "statusline");
    let code = if out_style.is_ok() { THEME_ENGINE_FFI_OK } else { -1 };
    assert_eq!(code, THEME_ENGINE_FFI_OK);
    assert_eq!(out_style.unwrap().has_fg, 1);

    let (fg, bg) = theme_engine_theme_default_terminal_colors(&handle);
    assert_eq!(u8::from(fg.is_some()), 1);
    assert_eq!(u8::from(bg.is_some()), 1);
}

#[test]
fn lib_ffi_load_and_resolve_ui_smoke() {
    load_smoke();
}

#[test]
fn test_ffi_load_and_resolve_ui_smoke() {
    load_smoke();
}

#[test]
fn ffi_highlight_returns_attrs_and_spans() {
    let highlighter = syntax_color_highlighter_new();
    assert!(highlighter.is_ok());
    let mut highlighter = highlighter.ok().expect("highlighter");

    let source = b"SELECT 42";
    let result = syntax_color_highlighter_highlight(&mut highlighter, source, 2);
    assert!(result.is_ok());
    let result = result.unwrap();
    assert!(!result.attrs.is_empty());
    assert!(!result.spans.is_empty());
}

#[test]
fn ffi_highlight_to_ansi_emits_escape_sequences() {
    let theme = theme_engine_theme_load_builtin("tokyonight-dark").ok().expect("theme");
    let source = b"SELECT 42";
    let mut temporary = SpanHighlighter::new().expect("highlighter");
    let ansi = syntax_color_highlight_to_ansi(&mut temporary, &theme, source, 2, 0, 0);
    assert!(ansi.is_ok());
    let rendered = ansi.unwrap();
    assert!(rendered.contains("\u{1b}["));
    assert!(rendered.contains("SELECT"));
}

#[test]
fn ffi_incremental_renderer_tracks_previous_frame() {
    let theme = theme_engine_theme_load_builtin("tokyonight-dark").ok().expect("theme");
    let mut renderer = SyntaxColorIncrementalRenderer { renderer: IncrementalRenderer::new(80, 10) };
    let source = b"SELECT 42";

    let mut temporary = SpanHighlighter::new().expect("highlighter");
    let first =
        syntax_color_incremental_renderer_highlight_to_patch(&mut renderer, &mut temporary, &theme, source, 2);
    assert!(first.is_ok());
    assert!(!first.unwrap().is_empty());

    let mut temporary = SpanHighlighter::new().expect("highlighter");
    let second =
        syntax_color_incremental_renderer_highlight_to_patch(&mut renderer, &mut temporary, &theme, source, 2);
    assert!(second.is_ok());
    assert!(second.unwrap().is_empty());
}

#[test]
fn ffi_status_codes_have_documented_values() {
    assert_eq!(SYNTAX_COLOR_FFI_OK, 0);
    assert_eq!(SYNTAX_COLOR_FFI_ERR_THEME, 3);
    assert_eq!(SYNTAX_COLOR_FFI_ERR_NOT_FOUND, 4);
    assert_eq!(SYNTAX_COLOR_FFI_ERR_RENDER, 6);
    assert_eq!(SYNTAX_COLOR_FFI_ERR_INVALID_ARGUMENT, 7);
}

#[test]
fn ffi_color_and_style_conversions_are_exact() {
    let c = rgb_to_ffi(Rgb::new(1, 2, 3));
    assert_eq!(c, ThemeEngineRgb { r: 1, g: 2, b: 3 });
    assert_eq!(rgb_from_ffi(c), Rgb::new(1, 2, 3));

    let style = Style {
        fg: Some(Rgb::new(9, 8, 7)),
        bg: None,
        bold: true,
        italic: false,
        underline: true,
    };
    let f = style_to_ffi(style);
    assert_eq!(
        f,
        ThemeEngineStyle {
            has_fg: 1,
            fg: ThemeEngineRgb { r: 9, g: 8, b: 7 },
            has_bg: 0,
            bg: ThemeEngineRgb { r: 0, g: 0, b: 0 },
            bold: 1,
            italic: 0,
            underline: 1,
        }
    );
    assert_eq!(style_from_ffi(f), style);

    let loose = ThemeEngineStyle { has_fg: 0, fg: ThemeEngineRgb { r: 5, g: 5, b: 5 }, bold: 2, ..ThemeEngineStyle::default() };
    let back = style_from_ffi(loose);
    assert_eq!(back.fg, None);
    assert!(back.bold);
}

#[test]
fn ffi_grammar_and_color_mode_codes() {
    assert_eq!(parse_grammar(0), Ok(Grammar::ObjectScript));
    assert_eq!(parse_grammar(2), Ok(Grammar::Sql));
    assert_eq!(parse_grammar(8), Ok(Grammar::Yaml));
    assert_eq!(parse_grammar(9), Err(SYNTAX_COLOR_FFI_ERR_INVALID_ARGUMENT));
    assert_eq!(parse_grammar(-1), Err(SYNTAX_COLOR_FFI_ERR_INVALID_ARGUMENT));
    assert_eq!(parse_color_mode(0), Ok(ColorMode::TrueColor));
    assert_eq!(parse_color_mode(1), Ok(ColorMode::Ansi256));
    assert_eq!(parse_color_mode(2), Ok(ColorMode::Ansi16));
    assert_eq!(parse_color_mode(3), Err(SYNTAX_COLOR_FFI_ERR_INVALID_ARGUMENT));
}

#[test]
fn ffi_span_lists_convert_in_order() {
    let spans = vec![
        Span { attr_id: 1, start_byte: 0, end_byte: 3 },
        Span { attr_id: 0, start_byte: 4, end_byte: 6 },
    ];
    let c = spans_to_ffi(&spans);
    assert_eq!(c[1], SyntaxColorSpan { attr_id: 0, start_byte: 4, end_byte: 6 });
    assert_eq!(spans_from_ffi(&c), spans);

    let styled = vec![SyntaxColorStyledSpan {
        start_byte: 1,
        end_byte: 2,
        has_style: 0,
        style: ThemeEngineStyle { bold: 1, ..ThemeEngineStyle::default() },
    }];
    let back = styled_spans_from_ffi(&styled);
    assert_eq!(back[0].style, None);
    let again = styled_spans_to_ffi(&back);
    assert_eq!(again[0].has_style, 0);
    assert_eq!(again[0].style, ThemeEngineStyle::default());
}

#[test]
fn ffi_unknown_theme_and_missing_style_codes() {
    assert_eq!(theme_engine_theme_load_builtin("no-such-theme").err(), Some(SYNTAX_COLOR_FFI_ERR_THEME));
    assert_eq!(theme_engine_theme_load_builtin("solarized-dark").err(), Some(SYNTAX_COLOR_FFI_ERR_THEME));
    let empty = ThemeEngineTheme { theme: Theme::new() };
    assert_eq!(theme_engine_theme_resolve_capture(&empty, "@keyword"), Err(SYNTAX_COLOR_FFI_ERR_NOT_FOUND));
    assert_eq!(theme_engine_theme_resolve_ui(&empty, "statusline"), Err(SYNTAX_COLOR_FFI_ERR_NOT_FOUND));

    let mut theme = Theme::new();
    theme.insert("comment", Style { bold: true, ..Style::default() });
    let handle = ThemeEngineTheme { theme };
    let s = theme_engine_theme_resolve_capture(&handle, "@comment.documentation").expect("fallback");
    assert_eq!(s.bold, 1);
}

#[test]
fn ffi_render_codes_for_bad_input() {
    let spans = vec![
        SyntaxColorStyledSpan { start_byte: 0, end_byte: 3, has_style: 0, style: ThemeEngineStyle::default() },
        SyntaxColorStyledSpan { start_byte: 2, end_byte: 4, has_style: 0, style: ThemeEngineStyle::default() },
    ];
    assert_eq!(syntax_color_render_ansi(b"abcd", &spans, 5, 0), Err(SYNTAX_COLOR_FFI_ERR_INVALID_ARGUMENT));
    assert_eq!(syntax_color_render_ansi(b"abcd", &spans, 0, 0), Err(SYNTAX_COLOR_FFI_ERR_RENDER));
    assert_eq!(syntax_color_render_ansi_lines(b"abcd", &spans, 0, 0), Err(SYNTAX_COLOR_FFI_ERR_RENDER));
    assert_eq!(syntax_color_render_ansi(b"abcd", &[], 0, 0), Ok("abcd".to_string()));

    let bold = SyntaxColorStyledSpan {
        start_byte: 0,
        end_byte: 2,
        has_style: 1,
        style: ThemeEngineStyle { bold: 1, ..ThemeEngineStyle::default() },
    };
    assert_eq!(syntax_color_render_ansi(b"ab\ncd", &[bold], 0, 0), Ok("\u{1b}[1mab\u{1b}[0m\ncd".to_string()));
    assert_eq!(
        syntax_color_render_ansi_lines(b"ab\ncd", &[bold], 0, 0),
        Ok(vec!["\u{1b}[1mab\u{1b}[0m".to_string(), "cd".to_string()])
    );
}

#[test]
fn ffi_resolve_styled_spans_with_and_without_fill() {
    let mut theme = Theme::new();
    theme.insert("normal", Style { fg: Some(Rgb::new(1, 1, 1)), ..Style::default() });
    theme.insert("keyword", Style { bold: true, ..Style::default() });
    let handle = ThemeEngineTheme { theme };
    let highlight = HighlightResult {
        attrs: vec![Attr { id: 0, capture_name: "keyword".to_string() }],
        spans: vec![Span { attr_id: 0, start_byte: 2, end_byte: 4 }],
    };
    let plain = syntax_color_resolve_styled_spans(&handle, 6, &highlight, 0).expect("resolved");
    assert_eq!(plain.len(), 1);
    assert_eq!(plain[0].start_byte, 2);
    assert_eq!(plain[0].style.bold, 1);
    assert_eq!(plain[0].style.has_fg, 1);

    let filled = syntax_color_resolve_styled_spans(&handle, 6, &highlight, 1).expect("resolved");
    let ranges: Vec<(usize, usize)> = filled.iter().map(|s| (s.start_byte, s.end_byte)).collect();
    assert_eq!(ranges, vec![(0, 2), (2, 4), (4, 6)]);

    let bad = HighlightResult { attrs: vec![], spans: vec![Span { attr_id: 3, start_byte: 0, end_byte: 1 }] };
    assert_eq!(syntax_color_resolve_styled_spans(&handle, 6, &bad, 1).err(), Some(SYNTAX_COLOR_FFI_ERR_RENDER));
}

#[test]
fn ffi_renderer_color_mode_codes() {
    let mut renderer = SyntaxColorIncrementalRenderer { renderer: IncrementalRenderer::new(10, 2) };
    assert_eq!(syntax_color_incremental_renderer_set_color_mode(&mut renderer, 1), SYNTAX_COLOR_FFI_OK);
    assert_eq!(renderer.renderer.color_mode(), ColorMode::Ansi256);
    assert_eq!(
        syntax_color_incremental_renderer_set_color_mode(&mut renderer, 4),
        SYNTAX_COLOR_FFI_ERR_INVALID_ARGUMENT
    );
    assert_eq!(renderer.renderer.color_mode(), ColorMode::Ansi256);

    let mut line = SyntaxColorStreamLineRenderer { renderer: StreamLineRenderer::new() };
    assert_eq!(syntax_color_stream_line_renderer_set_color_mode(&mut line, 2), SYNTAX_COLOR_FFI_OK);
    assert_eq!(line.renderer.color_mode(), ColorMode::Ansi16);
    assert_eq!(
        syntax_color_stream_line_renderer_render_line_patch(&mut line, b"a\nb", &[]),
        Err(SYNTAX_COLOR_FFI_ERR_RENDER)
    );
    assert_eq!(syntax_color_stream_line_renderer_render_line_patch(&mut line, b"ab", &[]), Ok("ab".to_string()));
    assert_eq!(syntax_color_incremental_renderer_render_patch(&mut renderer, b"ab", &[]).map(|p| p.contains("ab")), Ok(true));
}

#[test]
fn ffi_highlight_codes_for_bad_arguments() {
    let theme = ThemeEngineTheme { theme: Theme::new() };
    let mut highlighter = SpanHighlighter::new().expect("highlighter");
    assert_eq!(
        syntax_color_highlight_to_ansi(&mut highlighter, &theme, b"x", 42, 0, 0),
        Err(SYNTAX_COLOR_FFI_ERR_INVALID_ARGUMENT)
    );
    assert_eq!(
        syntax_color_highlight_to_ansi(&mut highlighter, &theme, b"x", 2, 9, 0),
        Err(SYNTAX_COLOR_FFI_ERR_INVALID_ARGUMENT)
    );
    let lines = syntax_color_highlight_to_ansi_lines(&mut highlighter, &theme, b"SELECT 1\nSELECT 2", 2, 0, 0)
        .expect("lines");
    assert_eq!(lines.len(), 2);
    assert!(lines[1].contains('2'));
}
