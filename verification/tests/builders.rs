use syntax_color::line_text::decode_line;
use syntax_color::tsbundler::TsbundlerEncoding;
use syntax_color::theme::available_themes;
use syntax_color::tsbundler::ActivatedTheme;
use syntax_color::pipeline::highlight_to_ansi_with_highlighter;
use syntax_color::theme::load_theme;
use syntax_color::catppuccin::{build_catppuccin_theme, CatppuccinVariant};
use syntax_color::grammar::Grammar;
use syntax_color::highlighter::SpanHighlighter;
use syntax_color::studio::{build_studio_theme, StudioVariant};
use syntax_color::style::{Rgb, Style};
use syntax_color::tokyonight::{build_tokyonight_theme, TokyoNightVariant};

fn fg_bg(f: Rgb, b: Rgb) -> Style {
    Style { fg: Some(f), bg: Some(b), ..Style::default() }
}

#[test]
fn tokyonight_night_normal_and_active_tab() {
    let t = build_tokyonight_theme(TokyoNightVariant::Night);
    assert_eq!(t.get_exact("normal"), Some(&fg_bg(Rgb::new(0xc0, 0xca, 0xf5), Rgb::new(0x1a, 0x1b, 0x26))));
    assert_eq!(t.get_ui_exact("tab_active"), Some(&fg_bg(Rgb::new(0x15, 0x16, 0x1e), Rgb::new(0x7a, 0xa2, 0xf7))));
    for v in [TokyoNightVariant::Night, TokyoNightVariant::Storm, TokyoNightVariant::Moon, TokyoNightVariant::Day] {
        let t = build_tokyonight_theme(v);
        assert!(t.get_exact("tag").is_some());
        assert!(t.get_exact("property").is_some());
    }
}

#[test]
fn catppuccin_latte_normal_and_blended_cursorline() {
    let t = build_catppuccin_theme(CatppuccinVariant::Latte);
    assert_eq!(t.get_exact("normal"), Some(&fg_bg(Rgb::new(0x4c, 0x4f, 0x69), Rgb::new(0xef, 0xf1, 0xf5))));
    assert_eq!(t.get_ui_exact("cursorline"), Some(&Style { bg: Some(Rgb::new(233, 235, 241)), ..Style::default() }));
}

#[test]
fn studio_normal_and_label_styles() {
    for v in [StudioVariant::Aviel, StudioVariant::Classic] {
        let t = build_studio_theme(v);
        assert_eq!(t.get_exact("normal"), Some(&fg_bg(Rgb::new(0, 0, 0), Rgb::new(255, 255, 255))));
        assert!(t.get_exact("tag").is_some());
        assert!(t.get_exact("property").is_some());
    }
    let aviel = build_studio_theme(StudioVariant::Aviel);
    assert_eq!(aviel.get_exact("label"), Some(&fg_bg(Rgb::new(0x80, 0, 0), Rgb::new(0xff, 0xff, 0))));
    let classic = build_studio_theme(StudioVariant::Classic);
    assert_eq!(classic.get_exact("label"), Some(&fg_bg(Rgb::new(0, 0, 0xff), Rgb::new(0xff, 0xff, 0xff))));
}

#[test]
fn highlight_attribute_table_is_dense_and_spans_stay_in_source() {
    let mut h = SpanHighlighter::new().expect("highlighter");
    let source = b"SELECT 42 FROM Demo";
    let r = h.highlight(source, Grammar::Sql).expect("highlight");
    for (i, a) in r.attrs.iter().enumerate() {
        assert_eq!(a.id, i);
        for b in &r.attrs[..i] {
            assert_ne!(a.capture_name, b.capture_name);
        }
    }
    let mut prev_end = 0;
    for s in &r.spans {
        assert!(s.start_byte < s.end_byte && s.end_byte <= source.len());
        assert!(s.attr_id < r.attrs.len());
        assert!(prev_end <= s.start_byte);
        prev_end = s.end_byte;
    }
    let first = r.spans.iter().find(|s| s.start_byte == 0).expect("span at 0");
    assert_eq!(first.end_byte, 6);
    assert_eq!(r.attrs[first.attr_id].capture_name, "keyword");
}

#[test]
fn utf16_lines_replace_unpaired_surrogates() {
    // "a", U+1F600 as a surrogate pair, an unpaired high surrogate, "b", then "\r\n".
    let units: [u16; 7] = [0x61, 0xD83D, 0xDE00, 0xD800, 0x62, 0x0D, 0x0A];
    let mut raw = Vec::new();
    for u in units {
        raw.extend_from_slice(&u.to_le_bytes());
    }
    assert_eq!(decode_line(&raw, TsbundlerEncoding::Utf16Le), "a\u{1F600}\u{FFFD}b");
}

#[test]
fn every_builtin_theme_activates() {
    for name in available_themes() {
        if name.starts_with("solarized") {
            continue;
        }
        assert!(ActivatedTheme::from_name(name).is_ok(), "{name}");
    }
}

#[test]
fn highlighting_with_a_highlighter_always_renders() {
    let theme = load_theme("tokyonight-dark").expect("theme");
    let mut h = SpanHighlighter::new().expect("highlighter");
    for (src, g) in [
        (&b"SELECT 1"[..], Grammar::Sql),
        (&b"x = [1, 2]\n"[..], Grammar::Python),
        (&b"set x = 1\nwrite x\n"[..], Grammar::ObjectScript),
        (&b"<a>&</a>"[..], Grammar::Xml),
    ] {
        assert!(highlight_to_ansi_with_highlighter(&mut h, src, g, &theme).is_ok());
    }
}
