use syntax_color::osc::{
    osc_reset_default_background, osc_reset_default_colors, osc_reset_default_foreground,
    osc_set_default_background, osc_set_default_colors, osc_set_default_foreground,
};
use syntax_color::render::{
    render_ansi, render_ansi_lines, render_ansi_with_mode, render_ansi_with_mode_and_background,
    RenderError, StyledSpan,
};
use syntax_color::renderers::{IncrementalRenderer, StreamLineRenderer};
use syntax_color::sgr::ColorMode;
use syntax_color::style::{Rgb, Style};

fn red_bold() -> Style {
    Style {
        fg: Some(Rgb::new(255, 0, 0)),
        bold: true,
        ..Style::default()
    }
}

#[test]
fn renders_basic_styled_segment() {
    let source = b"abc";
    let spans = [StyledSpan {
        start_byte: 1,
        end_byte: 2,
        style: Some(red_bold()),
    }];
    let out = render_ansi(source, &spans).expect("failed to render");
    assert_eq!(out, "a\x1b[38;2;255;0;0;1mb\x1b[0mc");
}

#[test]
fn emits_osc_default_color_sequences() {
    let fg = Rgb::new(1, 2, 3);
    let bg = Rgb::new(4, 5, 6);
    assert_eq!(osc_set_default_foreground(fg), "\x1b]10;#010203\x07");
    assert_eq!(osc_set_default_background(bg), "\x1b]11;#040506\x07");
    assert_eq!(
        osc_set_default_colors(Some(fg), Some(bg)),
        "\x1b]10;#010203\x07\x1b]11;#040506\x07"
    );
    assert_eq!(osc_reset_default_foreground(), "\x1b]110\x07");
    assert_eq!(osc_reset_default_background(), "\x1b]111\x07");
    assert_eq!(osc_reset_default_colors(), "\x1b]110\x07\x1b]111\x07");
}

#[test]
fn stream_line_renderer_emits_initial_line() {
    let mut renderer = StreamLineRenderer::new();
    let patch = renderer
        .render_line_patch(b"hello", &[])
        .expect("initial stream patch failed");
    assert_eq!(patch, "hello");
}

#[test]
fn stream_line_renderer_emits_suffix_with_backtracking() {
    let mut renderer = StreamLineRenderer::new();
    let _ = renderer
        .render_line_patch(b"hello", &[])
        .expect("initial stream patch failed");
    let patch = renderer
        .render_line_patch(b"heLlo", &[])
        .expect("delta stream patch failed");
    assert_eq!(patch, "\x1b[3DLlo");
}

#[test]
fn stream_line_renderer_clears_removed_tail() {
    let mut renderer = StreamLineRenderer::new();
    let _ = renderer
        .render_line_patch(b"hello", &[])
        .expect("initial stream patch failed");
    let patch = renderer
        .render_line_patch(b"he", &[])
        .expect("delta stream patch failed");
    assert_eq!(patch, "\x1b[3D\x1b[K");
}

#[test]
fn stream_line_renderer_is_noop_when_unchanged() {
    let mut renderer = StreamLineRenderer::new();
    let _ = renderer
        .render_line_patch(b"hello", &[])
        .expect("initial stream patch failed");
    let patch = renderer
        .render_line_patch(b"hello", &[])
        .expect("delta stream patch failed");
    assert!(patch.is_empty());
}

#[test]
fn stream_line_renderer_rejects_multiline_input() {
    let mut renderer = StreamLineRenderer::new();
    let err = renderer
        .render_line_patch(b"hello\nworld", &[])
        .expect_err("expected multiline rejection");
    assert!(matches!(err, RenderError::MultiLineInput));
}

#[test]
fn stream_line_renderer_uses_display_width_for_wide_graphemes() {
    let mut renderer = StreamLineRenderer::new();
    let _ = renderer
        .render_line_patch("a界!".as_bytes(), &[])
        .expect("initial stream patch failed");
    let patch = renderer
        .render_line_patch("a界?".as_bytes(), &[])
        .expect("delta stream patch failed");
    assert_eq!(patch, "\x1b[1D?");
}

#[test]
fn renders_ansi256_styled_segment() {
    let source = b"abc";
    let spans = [StyledSpan {
        start_byte: 1,
        end_byte: 2,
        style: Some(red_bold()),
    }];
    let out = render_ansi_with_mode(source, &spans, ColorMode::Ansi256).expect("failed to render");
    assert_eq!(out, "a\x1b[38;5;196;1mb\x1b[0mc");
}

#[test]
fn renders_ansi16_styled_segment() {
    let source = b"abc";
    let spans = [StyledSpan {
        start_byte: 1,
        end_byte: 2,
        style: Some(red_bold()),
    }];
    let out = render_ansi_with_mode(source, &spans, ColorMode::Ansi16).expect("failed to render");
    assert_eq!(out, "a\x1b[91;1mb\x1b[0mc");
}

#[test]
fn renders_ansi16_preserves_non_gray_hue() {
    let source = b"abc";
    let spans = [StyledSpan {
        start_byte: 1,
        end_byte: 2,
        style: Some(Style {
            fg: Some(Rgb::new(130, 170, 255)),
            ..Style::default()
        }),
    }];
    let out = render_ansi_with_mode(source, &spans, ColorMode::Ansi16).expect("failed to render");
    assert!(
        out.contains("\x1b[94m"),
        "expected bright blue ANSI16 code, got {out:?}"
    );
}

#[test]
fn renders_theme_background_when_passthrough_disabled() {
    let source = b"a";
    let spans = [StyledSpan {
        start_byte: 0,
        end_byte: 1,
        style: Some(Style {
            fg: Some(Rgb::new(255, 0, 0)),
            bg: Some(Rgb::new(1, 2, 3)),
            ..Style::default()
        }),
    }];
    let out = render_ansi_with_mode_and_background(source, &spans, ColorMode::TrueColor, false)
        .expect("failed to render");
    assert_eq!(out, "\x1b[38;2;255;0;0;48;2;1;2;3ma\x1b[0m");
}

#[test]
fn stream_line_renderer_emits_theme_background_when_enabled() {
    let mut renderer = StreamLineRenderer::new();
    renderer.set_preserve_terminal_background(false);
    let spans = [StyledSpan {
        start_byte: 0,
        end_byte: 1,
        style: Some(Style {
            fg: Some(Rgb::new(255, 0, 0)),
            bg: Some(Rgb::new(1, 2, 3)),
            ..Style::default()
        }),
    }];
    let patch = renderer
        .render_line_patch(b"a", &spans)
        .expect("initial stream patch failed");
    assert_eq!(patch, "\x1b[38;2;255;0;0;48;2;1;2;3ma\x1b[0m");
}

#[test]
fn renders_per_line_output_for_multiline_span() {
    let source = b"ab\ncd";
    let spans = [StyledSpan {
        start_byte: 1,
        end_byte: 5,
        style: Some(Style {
            fg: Some(Rgb::new(1, 2, 3)),
            ..Style::default()
        }),
    }];
    let lines = render_ansi_lines(source, &spans).expect("failed to render lines");
    assert_eq!(lines.len(), 2);
    assert_eq!(lines[0], "a\x1b[38;2;1;2;3mb\x1b[0m");
    assert_eq!(lines[1], "\x1b[38;2;1;2;3mcd\x1b[0m");
}

#[test]
fn rejects_overlapping_spans() {
    let spans = [
        StyledSpan {
            start_byte: 0,
            end_byte: 2,
            style: None,
        },
        StyledSpan {
            start_byte: 1,
            end_byte: 3,
            style: None,
        },
    ];
    let err = render_ansi(b"abcd", &spans).expect_err("expected overlap error");
    assert!(matches!(err, RenderError::OverlappingSpans { .. }));
}

#[test]
fn incremental_renderer_emits_only_changed_line_suffix() {
    let mut renderer = IncrementalRenderer::new(120, 40);
    let first = renderer
        .render_patch(b"abc\nxyz", &[])
        .expect("first patch failed");
    assert!(first.contains("\x1b[1;1Habc"));
    assert!(first.contains("\x1b[2;1Hxyz"));

    let second = renderer
        .render_patch(b"abc\nxYz", &[])
        .expect("second patch failed");
    assert_eq!(second, "\x1b[2;2HYz");

    let third = renderer
        .render_patch(b"abc\nxYz", &[])
        .expect("third patch failed");
    assert!(third.is_empty());
}

#[test]
fn incremental_renderer_applies_origin_offset() {
    let mut renderer = IncrementalRenderer::new(120, 40);
    renderer.set_origin(4, 7);

    let first = renderer.render_patch(b"abc", &[]).expect("first patch failed");
    assert_eq!(first, "\x1b[4;7Habc");

    let second = renderer.render_patch(b"abC", &[]).expect("second patch failed");
    assert_eq!(second, "\x1b[4;9HC");
}

#[test]
fn incremental_renderer_supports_ansi256_mode() {
    let mut renderer = IncrementalRenderer::new(120, 40);
    renderer.set_color_mode(ColorMode::Ansi256);
    let spans = [StyledSpan {
        start_byte: 0,
        end_byte: 2,
        style: Some(Style {
            fg: Some(Rgb::new(255, 0, 0)),
            ..Style::default()
        }),
    }];

    let patch = renderer
        .render_patch(b"ab", &spans)
        .expect("patch generation failed");
    assert!(patch.contains("\x1b[38;5;196m"));
    assert!(!patch.contains("38;2;"));
}

#[test]
fn incremental_renderer_supports_ansi16_mode() {
    let mut renderer = IncrementalRenderer::new(120, 40);
    renderer.set_color_mode(ColorMode::Ansi16);
    let spans = [StyledSpan {
        start_byte: 0,
        end_byte: 2,
        style: Some(Style {
            fg: Some(Rgb::new(255, 0, 0)),
            ..Style::default()
        }),
    }];

    let patch = renderer
        .render_patch(b"ab", &spans)
        .expect("patch generation failed");
    assert!(patch.contains("\x1b[91m"));
    assert!(!patch.contains("38;2;"));
    assert!(!patch.contains("38;5;"));
}

#[test]
fn incremental_renderer_emits_theme_background_when_enabled() {
    let mut renderer = IncrementalRenderer::new(120, 40);
    renderer.set_preserve_terminal_background(false);
    let spans = [StyledSpan {
        start_byte: 0,
        end_byte: 1,
        style: Some(Style {
            fg: Some(Rgb::new(255, 0, 0)),
            bg: Some(Rgb::new(1, 2, 3)),
            ..Style::default()
        }),
    }];

    let patch = renderer
        .render_patch(b"a", &spans)
        .expect("patch generation failed");
    assert!(patch.contains("\x1b[38;2;255;0;0;48;2;1;2;3ma"));
}

#[test]
fn incremental_renderer_uses_display_width_for_wide_graphemes() {
    let mut renderer = IncrementalRenderer::new(120, 40);
    let _ = renderer
        .render_patch("a界".as_bytes(), &[])
        .expect("first patch failed");

    let patch = renderer
        .render_patch("a界!".as_bytes(), &[])
        .expect("second patch failed");
    assert_eq!(patch, "\x1b[1;4H!");
}

#[test]
fn incremental_renderer_uses_display_width_for_tabs() {
    let mut renderer = IncrementalRenderer::new(120, 40);
    let _ = renderer.render_patch(b"a\tb", &[]).expect("first patch failed");

    let patch = renderer.render_patch(b"a\tB", &[]).expect("second patch failed");
    assert_eq!(patch, "\x1b[1;9HB");
}

#[test]
fn incremental_renderer_clears_removed_tail() {
    let mut renderer = IncrementalRenderer::new(120, 40);
    let _ = renderer.render_patch(b"hello", &[]).expect("first patch failed");

    let patch = renderer.render_patch(b"he", &[]).expect("second patch failed");
    assert_eq!(patch, "\x1b[1;3H\x1b[K");
}
