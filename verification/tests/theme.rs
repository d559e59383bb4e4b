use syntax_color::sgr::{rgb_to_ansi16, rgb_to_ansi256, ColorMode};
use syntax_color::style::{blend_ratio, merge_styles, Rgb, Style};
use syntax_color::theme::{
    available_themes, load_theme, normalize_capture_name, BuiltinTheme, Theme, ThemeError, UiRole,
};

fn fg(r: u8, g: u8, b: u8) -> Style {
    Style { fg: Some(Rgb::new(r, g, b)), ..Style::default() }
}

#[test]
fn normalizes_capture_names() {
    assert_eq!(normalize_capture_name("@Comment.Doc"), "comment.doc");
    assert_eq!(normalize_capture_name(" keyword "), "keyword");
}

#[test]
fn resolves_dot_fallback_then_normal() {
    let mut theme = Theme::new();
    theme.insert("comment", fg(1, 2, 3));
    theme.insert("normal", fg(9, 9, 9));
    let comment = theme.resolve("@comment.documentation").expect("missing comment");
    assert_eq!(comment.fg, Some(Rgb::new(1, 2, 3)));
    let unknown = theme.resolve("@does.not.exist").expect("missing normal");
    assert_eq!(unknown.fg, Some(Rgb::new(9, 9, 9)));
}

#[test]
fn missing_normal_and_unknown_capture_resolve_to_none() {
    let mut theme = Theme::new();
    theme.insert("comment", fg(1, 2, 3));
    assert!(theme.resolve("keyword").is_none());
}

#[test]
fn at_prefix_and_plain_name_resolve_alike() {
    let mut theme = Theme::new();
    theme.insert("@string", fg(4, 5, 6));
    assert_eq!(theme.resolve("@string"), theme.resolve("string"));
    assert_eq!(theme.get_exact("string").map(|s| s.fg), Some(Some(Rgb::new(4, 5, 6))));
}

#[test]
fn insert_then_read_back() {
    let mut theme = Theme::new();
    assert_eq!(theme.insert("Keyword", fg(1, 1, 1)), None);
    assert_eq!(theme.insert("keyword", fg(2, 2, 2)), Some(fg(1, 1, 1)));
    assert_eq!(theme.resolve("KEYWORD").copied(), Some(fg(2, 2, 2)));
    theme.insert_ui("tab_active", fg(3, 3, 3));
    assert_eq!(theme.get_ui_exact("Tab_Active").copied(), Some(fg(3, 3, 3)));
}

#[test]
fn rejects_unknown_built_in_theme_name() {
    let err = load_theme(" unknown-theme ");
    assert!(matches!(err, Err(ThemeError::UnknownBuiltinTheme(ref n)) if n == "unknown-theme"));
}

#[test]
fn solarized_data_is_reported_unavailable() {
    assert!(matches!(load_theme("solarized-dark"), Err(ThemeError::UnavailableBuiltinTheme(_))));
}

#[test]
fn supports_theme_aliases() {
    assert!(load_theme("tokyo-night").is_ok());
    assert!(load_theme("tokyo-day").is_ok());
    assert!(load_theme("tokyonight-moon").is_ok());
    assert!(load_theme("tokyonight-day").is_ok());
    assert_eq!(BuiltinTheme::from_name("TokyoNight"), Some(BuiltinTheme::TokyoNightMoon));
}

#[test]
fn loads_carried_built_in_themes_with_normal() {
    let names = available_themes();
    assert_eq!(names.len(), 14);
    for name in names {
        match load_theme(name) {
            Ok(theme) => {
                assert!(theme.get_exact("normal").is_some(), "missing normal in {name}");
                assert!(theme.get_exact("tag").is_some(), "missing tag in {name}");
                assert!(theme.get_exact("property").is_some(), "missing property in {name}");
            }
            Err(e) => assert!(matches!(e, ThemeError::UnavailableBuiltinTheme(_)), "{name}"),
        }
    }
}

#[test]
fn loads_distinct_tokyonight_variants() {
    let moon = load_theme("tokyonight-moon").expect("moon");
    let dark = load_theme("tokyonight-dark").expect("dark");
    assert_ne!(moon.get_exact("normal"), dark.get_exact("normal"));
}

#[test]
fn ui_role_falls_back_to_legacy_style_keys() {
    let mut theme = Theme::new();
    theme.insert("tab_active", Style { bg: Some(Rgb::new(2, 2, 2)), ..Style::default() });
    let active = theme.resolve_ui("tab_active").expect("tab_active");
    assert_eq!(active.bg, Some(Rgb::new(2, 2, 2)));
    assert_eq!(UiRole::from_name("@Tab_Active"), Some(UiRole::TabActive));
    assert_eq!(UiRole::from_name("nope"), None);
}

#[test]
fn default_terminal_colors_fallback_to_normal() {
    let mut theme = Theme::new();
    theme.insert(
        "normal",
        Style { fg: Some(Rgb::new(100, 101, 102)), bg: Some(Rgb::new(110, 111, 112)), ..Style::default() },
    );
    let (fg_c, bg_c) = theme.default_terminal_colors();
    assert_eq!(fg_c, Some(Rgb::new(100, 101, 102)));
    assert_eq!(bg_c, Some(Rgb::new(110, 111, 112)));
    theme.insert_ui("default_fg", fg(1, 2, 3));
    assert_eq!(theme.default_terminal_colors().0, Some(Rgb::new(1, 2, 3)));
}

#[test]
fn merged_styles_layer_overlay_on_base() {
    let base = Style { fg: Some(Rgb::new(1, 1, 1)), bg: Some(Rgb::new(2, 2, 2)), ..Style::default() };
    let over = Style { fg: Some(Rgb::new(3, 3, 3)), bold: true, ..Style::default() };
    let m = merge_styles(Some(base), Some(over)).expect("merged");
    assert_eq!(m.fg, Some(Rgb::new(3, 3, 3)));
    assert_eq!(m.bg, Some(Rgb::new(2, 2, 2)));
    assert!(m.bold);
    assert_eq!(merge_styles(None, None), None);
}

#[test]
fn exact_ratio_blend_rounds_half_up() {
    let c = blend_ratio(Rgb::new(255, 0, 100), 1, 2, Rgb::new(0, 0, 0));
    assert_eq!(c, Rgb::new(128, 0, 50));
    assert_eq!(blend_ratio(Rgb::new(10, 20, 30), 1, 1, Rgb::new(0, 0, 0)), Rgb::new(10, 20, 30));
}

#[test]
fn palette_index_mappings() {
    assert_eq!(rgb_to_ansi256(0, 0, 0), 16);
    assert_eq!(rgb_to_ansi256(255, 255, 255), 231);
    assert_eq!(rgb_to_ansi256(255, 0, 0), 196);
    assert_eq!(rgb_to_ansi16(255, 0, 0), 9);
    assert_eq!(rgb_to_ansi16(0, 0, 0), 0);
    assert_eq!(ColorMode::from_name(" XTERM-256 "), Some(ColorMode::Ansi256));
    assert_eq!(ColorMode::from_name(ColorMode::Ansi16.name()), Some(ColorMode::Ansi16));
}
