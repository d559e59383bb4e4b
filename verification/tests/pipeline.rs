use syntax_color::grammar::Grammar;
use syntax_color::highlighter::SpanHighlighter;
use syntax_color::osc::osc_set_default_colors_from_theme;
use syntax_color::pipeline::{highlight_lines_to_ansi_lines, highlight_to_ansi};
use syntax_color::render::StyledSpan;
use syntax_color::renderers::IncrementalRenderer;
use syntax_color::resolve::{resolve_styled_spans, resolve_styled_spans_for_source};
use syntax_color::spans::{Attr, HighlightResult, Span};
use syntax_color::style::{Rgb, Style};
use syntax_color::theme::{load_theme, Theme};

fn fg(r: u8, g: u8, b: u8) -> Style {
    Style {
        fg: Some(Rgb::new(r, g, b)),
        ..Style::default()
    }
}

#[test]
fn emits_osc_default_colors_from_theme() {
    let mut theme = Theme::new();
    theme.insert(
        "normal",
        Style {
            fg: Some(Rgb::new(10, 11, 12)),
            bg: Some(Rgb::new(13, 14, 15)),
            ..Style::default()
        },
    );
    let osc = osc_set_default_colors_from_theme(&theme);
    assert_eq!(osc, "\x1b]10;#0a0b0c\x07\x1b]11;#0d0e0f\x07");
}

#[test]
fn highlights_source_to_ansi() {
    let mut theme = Theme::new();
    theme.insert("normal", fg(220, 220, 220));
    theme.insert("number", fg(255, 180, 120));
    let out = highlight_to_ansi(b"set x = 42", Grammar::ObjectScript, &theme)
        .expect("highlight+render failed");
    assert!(out.contains("42"));
    assert!(out.contains("\x1b["));
}

#[test]
fn resolve_styled_spans_inherits_from_normal() {
    let mut theme = Theme::new();
    theme.insert(
        "normal",
        Style {
            fg: Some(Rgb::new(10, 11, 12)),
            bg: Some(Rgb::new(200, 201, 202)),
            italic: true,
            ..Style::default()
        },
    );
    theme.insert("keyword", fg(250, 1, 2));
    let highlight = HighlightResult {
        attrs: vec![Attr {
            id: 0,
            capture_name: "keyword".to_string(),
        }],
        spans: vec![Span {
            attr_id: 0,
            start_byte: 0,
            end_byte: 3,
        }],
    };
    let styled = resolve_styled_spans(&highlight, &theme).expect("resolve failed");
    assert_eq!(styled.len(), 1);
    let style = styled[0].style.expect("missing style");
    assert_eq!(style.fg, Some(Rgb::new(250, 1, 2)));
    assert_eq!(style.bg, Some(Rgb::new(200, 201, 202)));
    assert!(style.italic);
}

#[test]
fn resolve_styled_spans_for_source_fills_uncovered_ranges() {
    let mut theme = Theme::new();
    theme.insert(
        "normal",
        Style {
            fg: Some(Rgb::new(1, 2, 3)),
            bg: Some(Rgb::new(4, 5, 6)),
            ..Style::default()
        },
    );
    theme.insert("keyword", fg(7, 8, 9));
    let highlight = HighlightResult {
        attrs: vec![Attr {
            id: 0,
            capture_name: "keyword".to_string(),
        }],
        spans: vec![Span {
            attr_id: 0,
            start_byte: 1,
            end_byte: 2,
        }],
    };
    let styled = resolve_styled_spans_for_source(4, &highlight, &theme).expect("resolve failed");
    assert_eq!(styled.len(), 3);
    let normal = Style {
        fg: Some(Rgb::new(1, 2, 3)),
        bg: Some(Rgb::new(4, 5, 6)),
        ..Style::default()
    };
    assert_eq!(
        styled[0],
        StyledSpan {
            start_byte: 0,
            end_byte: 1,
            style: Some(normal),
        }
    );
    assert_eq!(
        styled[1],
        StyledSpan {
            start_byte: 1,
            end_byte: 2,
            style: Some(Style {
                fg: Some(Rgb::new(7, 8, 9)),
                bg: Some(Rgb::new(4, 5, 6)),
                ..Style::default()
            }),
        }
    );
    assert_eq!(
        styled[2],
        StyledSpan {
            start_byte: 2,
            end_byte: 4,
            style: Some(normal),
        }
    );
}

#[test]
fn highlights_lines_to_ansi_lines() {
    let theme = load_theme("tokyo-night").expect("failed to load built-in theme");
    let lines = vec!["set x = 1", "set y = 2"];
    let rendered = highlight_lines_to_ansi_lines(&lines, Grammar::ObjectScript, &theme)
        .expect("failed to highlight lines");
    assert_eq!(rendered.len(), 2);
}

#[test]
fn incremental_renderer_supports_highlight_pipeline() {
    let mut theme = Theme::new();
    theme.insert("normal", fg(220, 220, 220));
    theme.insert("keyword", fg(255, 0, 0));
    let mut highlighter = SpanHighlighter::new().expect("highlighter init failed");
    let mut renderer = IncrementalRenderer::new(120, 40);
    let patch = renderer
        .highlight_to_patch(&mut highlighter, b"SELECT 1", Grammar::Sql, &theme)
        .expect("highlight patch failed");
    assert!(patch.contains("\x1b[1;1H"));
    assert!(patch.contains("SELECT"));
}
