use syntax_color::c_api::{style_from_ffi, style_to_ffi};
use syntax_color::grammar::Grammar;
use syntax_color::render::{
    render_ansi, render_ansi_lines, render_ansi_with_mode_and_background, StyledSpan,
};
use syntax_color::resolve::fill_uncovered_ranges_with_style;
use syntax_color::sgr::ColorMode;
use syntax_color::style::{Rgb, Style};
use syntax_color::theme::{available_themes, BuiltinTheme, Theme, UiRole};
use syntax_color::tsbundler::canonical_theme_name;

fn span(a: usize, b: usize, style: Option<Style>) -> StyledSpan {
    StyledSpan { start_byte: a, end_byte: b, style }
}

#[test]
fn single_line_renders_like_the_whole_source() {
    let bold = Style { bold: true, ..Style::default() };
    let spans = vec![span(0, 3, Some(bold)), span(4, 6, None)];
    let src = b"abc def";
    let whole = render_ansi(src, &spans).expect("render");
    let lines = render_ansi_lines(src, &spans).expect("lines");
    assert_eq!(lines, vec![whole]);
}

#[test]
fn preserved_background_ignores_background_colors() {
    let with_bg = Style { fg: Some(Rgb::new(1, 2, 3)), bg: Some(Rgb::new(9, 9, 9)), ..Style::default() };
    let without_bg = Style { bg: None, ..with_bg };
    let a = render_ansi_with_mode_and_background(b"xy", &[span(0, 2, Some(with_bg))], ColorMode::TrueColor, true);
    let b = render_ansi_with_mode_and_background(b"xy", &[span(0, 2, Some(without_bg))], ColorMode::TrueColor, true);
    assert_eq!(a.expect("a"), b.expect("b"));
    let c = render_ansi_with_mode_and_background(b"xy", &[span(0, 2, Some(with_bg))], ColorMode::TrueColor, false);
    assert!(c.expect("c").contains("48;2;9;9;9"));
}

#[test]
fn filled_spans_tile_the_source() {
    let d = Style { italic: true, ..Style::default() };
    let spans = vec![span(2, 3, None), span(3, 3, None), span(5, 7, None)];
    let out = fill_uncovered_ranges_with_style(9, spans, Some(d));
    let ranges: Vec<(usize, usize)> = out.iter().map(|s| (s.start_byte, s.end_byte)).collect();
    assert_eq!(ranges, vec![(0, 2), (2, 3), (3, 5), (5, 7), (7, 9)]);
}

#[test]
fn styles_survive_the_c_form() {
    let s = Style { fg: None, bg: Some(Rgb::new(4, 5, 6)), bold: false, italic: true, underline: false };
    assert_eq!(style_from_ffi(style_to_ffi(s)), s);
}

#[test]
fn names_round_trip() {
    for g in Grammar::all() {
        assert_eq!(Grammar::from_name(g.canonical_name()), Some(g));
    }
    for name in available_themes() {
        assert!(BuiltinTheme::from_name(name).is_some());
        assert_eq!(canonical_theme_name(name), Some(name));
    }
    for role in [UiRole::DefaultFg, UiRole::StatuslineInactive, UiRole::TabInactive, UiRole::Cursorline] {
        assert_eq!(UiRole::from_name(role.key()), Some(role));
    }
    for mode in [ColorMode::TrueColor, ColorMode::Ansi256, ColorMode::Ansi16] {
        assert_eq!(ColorMode::from_name(mode.name()), Some(mode));
    }
}

#[test]
fn dotted_names_fall_back_to_their_parent() {
    let mut theme = Theme::new();
    theme.insert("markup.heading", Style { bold: true, ..Style::default() });
    theme.insert("normal", Style { italic: true, ..Style::default() });
    assert_eq!(theme.resolve("markup.heading.1").map(|s| s.bold), Some(true));
    assert_eq!(theme.resolve("markup").map(|s| s.italic), Some(true));
}
