use syntax_color::bundle::{build_lang_registry, join_string_lines, TsbundlerCtx};
use syntax_color::grammar::Grammar;
use syntax_color::line_text::decode_line;
use syntax_color::recall::{clip_spans_to_range, recall_grammar, RecallShim};
use syntax_color::render::StyledSpan;
use syntax_color::spans::{Attr, HighlightResult, Span};
use syntax_color::style::{Rgb, Style};
use syntax_color::theme::{load_theme, Theme};
use syntax_color::tsbundler::{
    canonical_theme_name, changed_line_ranges, highlight_to_line_attrs, is_reserved_ui_style_key,
    lines_fit_exec, rgb_to_packed, style_to_vdu_attr, ActivatedTheme, ActivationError,
    TsbundlerEncoding, TsbundlerError, ZEDIT_ATTR_NONE, ZEDIT_RGBNONE,
};

fn small_theme() -> ActivatedTheme {
    let mut theme = Theme::new();
    theme.insert("normal", Style { fg: Some(Rgb::new(1, 1, 1)), ..Style::default() });
    theme.insert("keyword", Style { fg: Some(Rgb::new(0x12, 0x34, 0x56)), bold: true, ..Style::default() });
    theme.insert("string", Style { italic: true, ..Style::default() });
    theme.insert("statusline", Style { underline: true, ..Style::default() });
    match ActivatedTheme::from_theme("small", theme) {
        Ok(t) => t,
        Err(_) => panic!("small theme activates"),
    }
}

#[test]
fn status_and_encoding_codes() {
    assert_eq!(TsbundlerError::Success.code(), 0);
    assert_eq!(TsbundlerError::ErrNoTheme.code(), 3);
    assert_eq!(TsbundlerError::ErrParse.code(), 4);
    assert_eq!(TsbundlerError::ErrInternal.code(), 99);
    assert_eq!(TsbundlerEncoding::from_code(1), Some(TsbundlerEncoding::Utf16Le));
    assert_eq!(TsbundlerEncoding::from_code(3), None);
    assert_eq!(TsbundlerEncoding::Utf16Be.code(), 2);
}

#[test]
fn reserved_keys_packing_and_attributes() {
    assert!(is_reserved_ui_style_key("normal"));
    assert!(is_reserved_ui_style_key("tab_inactive"));
    assert!(!is_reserved_ui_style_key("keyword"));
    assert_eq!(rgb_to_packed(Rgb::new(0x12, 0x34, 0x56)), 0x0012_3456);
    let s = Style { bold: true, italic: false, underline: true, ..Style::default() };
    assert_eq!(style_to_vdu_attr(&s), 5);
    assert_eq!(style_to_vdu_attr(&Style::default()), 0);
}

#[test]
fn canonical_theme_names_follow_aliases() {
    assert_eq!(canonical_theme_name("tokyo-night"), Some("tokyonight-dark"));
    assert_eq!(canonical_theme_name(" Catppuccin-Mocha "), Some("catppuccin-mocha"));
    assert_eq!(canonical_theme_name("tokyonight"), Some("tokyonight-moon"));
    assert_eq!(canonical_theme_name("nope"), None);
}

#[test]
fn activated_theme_numbers_syntax_elements() {
    let t = small_theme();
    let names: Vec<&str> = t.elements.iter().map(|e| e.name.as_str()).collect();
    assert_eq!(names, vec!["@keyword", "@string"]);
    assert_eq!(t.elements[0].index, 1);
    assert_eq!(t.elements[0].fg, 0x0012_3456);
    assert_eq!(t.elements[0].bg, ZEDIT_RGBNONE);
    assert_eq!(t.elements[0].attrs, 1);
    assert_eq!(t.elements[1].index, 2);
    assert_eq!(t.elements[1].attrs, 2);

    assert_eq!(t.resolve_capture_index("keyword"), 1);
    assert_eq!(t.resolve_capture_index("@keyword.control"), 1);
    assert_eq!(t.resolve_capture_index("string.special"), 2);
    assert_eq!(t.resolve_capture_index("normal"), ZEDIT_ATTR_NONE);
    assert_eq!(t.resolve_capture_index("statusline"), ZEDIT_ATTR_NONE);
    assert_eq!(t.resolve_capture_index("comment"), ZEDIT_ATTR_NONE);
}

#[test]
fn activating_builtin_themes_by_name() {
    let t = match ActivatedTheme::from_name("tokyonight-dark") {
        Ok(t) => t,
        Err(_) => panic!("tokyonight-dark activates"),
    };
    assert!(!t.elements.is_empty());
    assert!(t.elements.iter().all(|e| e.name.starts_with('@')));
    let kw = t.resolve_capture_index("@keyword");
    assert!(kw > 0);
    assert_eq!(t.elements[(kw - 1) as usize].name, "@keyword");
    assert!(matches!(ActivatedTheme::from_name("missing"), Err(ActivationError::Load(_))));
    assert!(matches!(ActivatedTheme::from_name("solarized-light"), Err(ActivationError::Load(_))));
}

#[test]
fn line_attributes_take_the_last_covering_span() {
    let t = small_theme();
    let lines = vec!["ab cd".to_string(), "é x".to_string()];
    let result = HighlightResult {
        attrs: vec![
            Attr { id: 0, capture_name: "keyword".to_string() },
            Attr { id: 1, capture_name: "string".to_string() },
            Attr { id: 2, capture_name: "comment".to_string() },
        ],
        spans: vec![
            Span { attr_id: 0, start_byte: 0, end_byte: 2 },
            Span { attr_id: 1, start_byte: 3, end_byte: 8 },
            Span { attr_id: 2, start_byte: 0, end_byte: 1 },
            Span { attr_id: 7, start_byte: 0, end_byte: 5 },
        ],
    };
    assert!(lines_fit_exec(&lines));
    let attrs = highlight_to_line_attrs(&result, &t, &lines);
    assert_eq!(attrs, vec![vec![1, 1, 0, 2, 2], vec![2, 0, 0]]);
}

#[test]
fn changed_line_ranges_are_maximal_runs() {
    let old = vec![vec![1u16], vec![2], vec![3], vec![4]];
    let new = vec![vec![1u16], vec![9], vec![9], vec![4], vec![5]];
    assert_eq!(changed_line_ranges(&old, &new), vec![(1, 2), (4, 4)]);
    assert_eq!(changed_line_ranges(&old, &old), Vec::<(u32, u32)>::new());
    let all = vec![vec![7u16], vec![7]];
    assert_eq!(changed_line_ranges(&old, &all), vec![(0, 3)]);
}

#[test]
fn decoding_lines_drops_line_ends() {
    assert_eq!(decode_line(b"abc\r\n", TsbundlerEncoding::Utf8), "abc");
    assert_eq!(decode_line(b"\n\n", TsbundlerEncoding::Utf8), "");
    let le = [b'h', 0, b'i', 0, b'\r', 0, b'\n', 0];
    assert_eq!(decode_line(&le, TsbundlerEncoding::Utf16Le), "hi");
    let be = [0, b'o', 0, b'k', 0, b'\n', 7];
    assert_eq!(decode_line(&be, TsbundlerEncoding::Utf16Be), "ok");
    assert_eq!(decode_line(&[0xff, b'a'], TsbundlerEncoding::Utf8), "\u{fffd}a");
}

#[test]
fn language_registry_and_theme_activation() {
    let langs = build_lang_registry();
    assert_eq!(langs.len(), 16);
    assert_eq!(langs[0].canonical, "objectscript_routine");
    assert_eq!(langs[0].extensions, vec![".mac", ".inc", ".int", ".rtn"]);
    assert_eq!(langs[11].extensions, vec![".js", ".jsx", ".mjs", ".cjs"]);

    let mut ctx = TsbundlerCtx::new().expect("context");
    assert!(ctx.supports_lang("sql"));
    assert!(ctx.supports_lang("ObjectScript"));
    assert!(!ctx.supports_lang("cobol"));
    assert!(ctx.theme_names.contains(&"tokyonight-dark"));
    assert!(!ctx.theme_names.contains(&"solarized-dark"));
    assert_eq!(ctx.theme_activate("nope"), Err(TsbundlerError::ErrNoTheme));
    assert_eq!(ctx.theme_activate("solarized-dark"), Err(TsbundlerError::ErrNoTheme));
    let idx = ctx.theme_activate("tokyo-night").expect("activated");
    assert_eq!(ctx.theme_names[idx], "tokyonight-dark");
    assert_eq!(ctx.active_theme, Some(idx));
}

#[test]
fn documents_parse_and_report_changed_rows() {
    let mut ctx = TsbundlerCtx::new().expect("context");
    let mut doc = ctx.doc_create("sql").expect("doc");
    assert_eq!(doc.grammar, Grammar::Sql);
    assert!(ctx.doc_create("cobol").is_none());

    let lines = vec!["SELECT 1".to_string(), "-- note".to_string()];
    assert_eq!(doc.parse_full(&mut ctx, lines.clone()), Err(TsbundlerError::ErrNoTheme));
    ctx.theme_activate("tokyonight-dark").expect("activated");
    assert_eq!(doc.parse_full(&mut ctx, lines.clone()), Ok(()));
    let first = doc.state.as_ref().expect("state").last_attrs.clone();
    assert_eq!(first.len(), 2);
    assert_eq!(first[0].len(), 8);
    assert!(first[0][0] != 0);

    let same = doc.edit(&mut ctx, lines.clone()).expect("edit");
    assert_eq!(same, Some(vec![]));
    let edited = vec!["x".to_string(), "-- note".to_string(), "SELECT 2".to_string()];
    let changed = doc.edit(&mut ctx, edited).expect("edit").expect("ranges");
    assert_eq!(changed[0].0, 0);
    assert_eq!(changed.last().map(|r| r.1), Some(2));
}

#[test]
fn joined_lines_use_newlines() {
    let lines = vec!["a".to_string(), "".to_string(), "b".to_string()];
    assert_eq!(join_string_lines(&lines), "a\n\nb");
    assert_eq!(join_string_lines(&Vec::new()), "");
}

#[test]
fn clipping_spans_to_a_window() {
    let s = |a: usize, b: usize| StyledSpan { start_byte: a, end_byte: b, style: None };
    let spans = vec![s(0, 2), s(2, 6), s(6, 7), s(8, 10)];
    let out = clip_spans_to_range(&spans, 3, 4);
    let ranges: Vec<(usize, usize)> = out.iter().map(|x| (x.start_byte, x.end_byte)).collect();
    assert_eq!(ranges, vec![(0, 3), (3, 4)]);
    assert_eq!(recall_grammar(1), Grammar::Sql);
    assert_eq!(recall_grammar(3), Grammar::Mdx);
    assert_eq!(recall_grammar(42), Grammar::ObjectScript);
}

#[test]
fn recall_renders_windows_of_a_line() {
    let mut shim = RecallShim::new().expect("shim");
    assert_eq!(shim.render_range(b"", 0, 0, 1), None);
    assert_eq!(shim.render_range(b"SELECT 42", 5, 9, 1), None);
    let out = shim.render_range(b"SELECT 42", 0, 6, 1).expect("rendered");
    assert!(out.contains("SELECT"));
    assert!(out.ends_with("\u{1b}[0m"));
    let again = shim.render_range(b"SELECT 42", 0, 6, 1).expect("rendered");
    assert_eq!(out, again);
    let tail = shim.render_range(b"SELECT 42", 7, 2, 1).expect("rendered");
    assert!(tail.contains("42"));
    assert!(!tail.contains("SELECT"));
}

#[test]
fn builtin_theme_loads_for_recall() {
    assert!(load_theme("tokyonight-dark").is_ok());
}
