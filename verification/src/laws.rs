//! Properties that hold across calls: capture-name normalization and
//! fallback, reading back what was written, and name round trips.
use crate::highlighter::highlights_as;
use crate::cells::{clip_rows, frame_cells, grapheme_indices_of, lemma_frame_cells_clipped, unit_widths, CellView};
use crate::renderers::lemma_frame_patch_of_same_frame_is_empty;
use crate::text::lossy_utf8;
use crate::renderers::{patched, IncrementalRenderer};
use crate::grammar::{alnum_lower, grammar_from_key, grammar_name, is_ascii_alnum, Grammar};
use crate::render::{
    line_ranges, ranges_from, render_window, renders_lines, span_ok, spans_valid, window_cursor,
    window_upto, StyledSpan,
};
use crate::sgr::{sgr_open, style_params};
use crate::tsbundler::{changed_runs, is_changed_run, row_changed};
use crate::resolve::{attr_names, fill_cursor, fill_upto, filled, resolved_span, resolves};
use crate::spans::Attr;
use crate::style::merged_style;
use crate::pipeline::styled_for_source;
use crate::spans::{disjoint_ordered, spans_within, HighlightResult, Span};
use crate::theme::Theme;
use crate::sgr::{color_mode_from_key, color_mode_name, ColorMode};
use crate::style::Style;
use crate::text::{ascii_lower, ascii_lower_seq, trim_end, trim_start, trimmed, unicode_white_space};
use crate::theme::{
    builtin_from_key, builtin_from_name, builtin_theme_name, last_dot, lemma_last_dot, lookup, normalized_name,
    resolve_in, ui_role_from_key, ui_role_key, BuiltinTheme, UiRole,
};
use vstd::prelude::*;

verus! {

proof fn lemma_seq_ne_at(a: Seq<char>, b: Seq<char>, i: int)
    requires
        0 <= i < a.len(),
        i < b.len(),
        a[i] != b[i],
    ensures
        a != b,
{
}

proof fn lemma_trimmed_id(s: Seq<char>)
    requires
        s.len() > 0 ==> !unicode_white_space(s[0]) && !unicode_white_space(s.last()),
    ensures
        trimmed(s) == s,
{
    assert(trim_start(s) == s);
    assert(trim_end(s) == s);
}

proof fn lemma_lower_id(s: Seq<char>)
    requires
        forall|i: int| 0 <= i < s.len() ==> !('A' <= #[trigger] s[i] && s[i] <= 'Z'),
    ensures
        ascii_lower_seq(s) == s,
{
    assert(ascii_lower_seq(s) =~= s);
}

/// A capture name and the same name with a leading `@` resolve alike: for a
/// name that has no surrounding whitespace and does not itself start with
/// `@`, both normalize to the same key.
pub proof fn lemma_at_prefix_ignored(s: Seq<char>)
    requires
        s.len() > 0 ==> !unicode_white_space(s[0]) && !unicode_white_space(s.last()) && s[0] != '@',
    ensures
        normalized_name(seq!['@'] + s) == normalized_name(s),
        forall|m: Map<Seq<char>, Style>|
            resolve_in(m, #[trigger] normalized_name(seq!['@'] + s)) == resolve_in(
                m,
                normalized_name(s),
            ),
{
    let a = seq!['@'] + s;
    lemma_trimmed_id(a);
    lemma_trimmed_id(s);
    assert(a.drop_first() == s);
}

proof fn lemma_last_dot_suffix(p: Seq<char>, c: Seq<char>)
    requires
        forall|i: int| 0 <= i < c.len() ==> #[trigger] c[i] != '.',
    ensures
        last_dot(p + seq!['.'] + c) == p.len(),
    decreases c.len(),
{
    let k = p + seq!['.'] + c;
    if c.len() == 0 {
        assert(k.last() == '.');
    } else {
        assert(k.last() == c.last());
        assert(k.drop_last() == p + seq!['.'] + c.drop_last());
        lemma_last_dot_suffix(p, c.drop_last());
    }
}

/// Hierarchical fallback: a dotted name without a style of its own resolves
/// like its parent, the name before its last dot (so `comment.documentation`
/// falls back to `comment`, and a name with no styled prefix to `normal`).
pub proof fn lemma_dotted_fallback(m: Map<Seq<char>, Style>, parent: Seq<char>, leaf: Seq<char>)
    requires
        forall|i: int| 0 <= i < leaf.len() ==> #[trigger] leaf[i] != '.',
        !m.contains_key(parent + seq!['.'] + leaf),
    ensures
        resolve_in(m, parent + seq!['.'] + leaf) == resolve_in(m, parent),
{
    let k = parent + seq!['.'] + leaf;
    lemma_last_dot_suffix(parent, leaf);
    assert(k.take(parent.len() as int) == parent);
}

/// Resolving highlight spans with a theme: a span whose capture the theme
/// styles itself gets the theme's `normal` style overlaid with that style.
pub proof fn lemma_resolved_own_style(
    attrs: Seq<Attr>,
    spans: Seq<Span>,
    styles: Map<Seq<char>, Style>,
    v: Vec<StyledSpan>,
    i: int,
)
    requires
        resolves(attrs, spans, styles, Ok(v)),
        0 <= i < spans.len(),
        styles.contains_key(normalized_name(attrs[spans[i].attr_id as int].capture_name@)),
    ensures
        v@[i].start_byte == spans[i].start_byte,
        v@[i].end_byte == spans[i].end_byte,
        v@[i].style == merged_style(
            lookup(styles, normalized_name("normal"@)),
            Some(styles[normalized_name(attrs[spans[i].attr_id as int].capture_name@)]),
        ),
{
    assert(spans[i].attr_id < attrs.len());
    assert(attr_names(attrs)[spans[i].attr_id as int] == attrs[spans[i].attr_id as int].capture_name@);
}

/// Resolving highlight spans with a theme: a span whose dotted capture the
/// theme does not style itself is styled as a span of its parent capture,
/// the name before its last dot (so `keyword.function` takes the style of
/// `keyword`).
pub proof fn lemma_resolved_dotted_fallback(
    attrs: Seq<Attr>,
    spans: Seq<Span>,
    styles: Map<Seq<char>, Style>,
    v: Vec<StyledSpan>,
    i: int,
    j: int,
    parent: Seq<char>,
    leaf: Seq<char>,
)
    requires
        resolves(attrs, spans, styles, Ok(v)),
        0 <= i < spans.len(),
        0 <= j < spans.len(),
        forall|k: int| 0 <= k < leaf.len() ==> #[trigger] leaf[k] != '.',
        attrs[spans[i].attr_id as int].capture_name@ == parent + seq!['.'] + leaf,
        attrs[spans[j].attr_id as int].capture_name@ == parent,
        normalized_name(parent + seq!['.'] + leaf) == parent + seq!['.'] + leaf,
        normalized_name(parent) == parent,
        !styles.contains_key(parent + seq!['.'] + leaf),
    ensures
        v@[i].style == v@[j].style,
{
    assert(spans[i].attr_id < attrs.len());
    assert(spans[j].attr_id < attrs.len());
    assert(attr_names(attrs)[spans[i].attr_id as int] == attrs[spans[i].attr_id as int].capture_name@);
    assert(attr_names(attrs)[spans[j].attr_id as int] == attrs[spans[j].attr_id as int].capture_name@);
    lemma_dotted_fallback(styles, parent, leaf);
}

/// A name with no styled dotted prefix resolves to `normal`.
pub proof fn lemma_resolve_without_dots(m: Map<Seq<char>, Style>, k: Seq<char>)
    requires
        forall|i: int| 0 <= i < k.len() ==> #[trigger] k[i] != '.',
        !m.contains_key(k),
    ensures
        resolve_in(m, k) == lookup(m, "normal"@),
{
    lemma_last_dot(k);
    if last_dot(k) >= 0 {
        assert(k[last_dot(k)] == '.');
    }
}

/// What was inserted under a key resolves back, unchanged.
pub proof fn lemma_resolve_after_insert(m: Map<Seq<char>, Style>, k: Seq<char>, s: Style)
    ensures
        resolve_in(m.insert(k, s), k) == Some(s),
        lookup(m.insert(k, s), k) == Some(s),
{
}

/// Every color mode's name parses back to it.
pub proof fn lemma_color_mode_name_round_trip(m: ColorMode)
    ensures
        color_mode_from_key(ascii_lower_seq(trimmed(color_mode_name(m)))) == Some(m),
{
    reveal_strlit("truecolor");
    reveal_strlit("ansi256");
    reveal_strlit("ansi16");
    reveal_strlit("24bit");
    reveal_strlit("24-bit");
    reveal_strlit("rgb");
    reveal_strlit("256");
    reveal_strlit("xterm256");
    reveal_strlit("xterm-256");
    let n = color_mode_name(m);
    lemma_trimmed_id(n);
    lemma_lower_id(n);
}

/// Every UI role's canonical key parses back to it.
pub proof fn lemma_ui_role_key_round_trip(r: UiRole)
    ensures
        ui_role_from_key(normalized_name(ui_role_key(r))) == Some(r),
{
    reveal_strlit("cursor_line");
    reveal_strlit("cursorline");
    reveal_strlit("default_bg");
    reveal_strlit("default_fg");
    reveal_strlit("defaultbg");
    reveal_strlit("defaultfg");
    reveal_strlit("selection");
    reveal_strlit("status_line");
    reveal_strlit("status_line_inactive");
    reveal_strlit("statusline");
    reveal_strlit("statusline_inactive");
    reveal_strlit("statuslineinactive");
    reveal_strlit("tab");
    reveal_strlit("tab_active");
    reveal_strlit("tab_inactive");
    reveal_strlit("tabactive");
    reveal_strlit("tabinactive");
    reveal_strlit("terminal_bg");
    reveal_strlit("terminal_fg");
    reveal_strlit("terminalbg");
    reveal_strlit("terminalfg");
    let k = ui_role_key(r);
    lemma_trimmed_id(k);
    lemma_lower_id(k);
    assert(k.len() > 0 && k[0] != '@');
    assert(normalized_name(k) == k);
    match r {
        UiRole::DefaultFg => {
            assert(k == "default_fg"@);
            assert(ui_role_from_key(k) == Some(UiRole::DefaultFg));
        },
        UiRole::DefaultBg => {
            assert(k == "default_bg"@);
            lemma_seq_ne_at("default_bg"@, "default_fg"@, 8);
            lemma_seq_ne_at("default_bg"@, "terminalfg"@, 0);
            assert(ui_role_from_key(k) == Some(UiRole::DefaultBg));
        },
        UiRole::Statusline => {
            assert(k == "statusline"@);
            lemma_seq_ne_at("statusline"@, "default_fg"@, 0);
            lemma_seq_ne_at("statusline"@, "terminalfg"@, 0);
            lemma_seq_ne_at("statusline"@, "default_bg"@, 0);
            lemma_seq_ne_at("statusline"@, "terminalbg"@, 0);
            assert(ui_role_from_key(k) == Some(UiRole::Statusline));
        },
        UiRole::StatuslineInactive => {
            assert(k == "statusline_inactive"@);
            assert(ui_role_from_key(k) == Some(UiRole::StatuslineInactive));
        },
        UiRole::TabActive => {
            assert(k == "tab_active"@);
            lemma_seq_ne_at("tab_active"@, "default_fg"@, 0);
            lemma_seq_ne_at("tab_active"@, "terminalfg"@, 1);
            lemma_seq_ne_at("tab_active"@, "default_bg"@, 0);
            lemma_seq_ne_at("tab_active"@, "terminalbg"@, 1);
            lemma_seq_ne_at("tab_active"@, "statusline"@, 0);
            assert(ui_role_from_key(k) == Some(UiRole::TabActive));
        },
        UiRole::TabInactive => {
            assert(k == "tab_inactive"@);
            assert(ui_role_from_key(k) == Some(UiRole::TabInactive));
        },
        UiRole::Selection => {
            assert(k == "selection"@);
            lemma_seq_ne_at("selection"@, "defaultfg"@, 0);
            lemma_seq_ne_at("selection"@, "defaultbg"@, 0);
            lemma_seq_ne_at("selection"@, "tabactive"@, 0);
            assert(ui_role_from_key(k) == Some(UiRole::Selection));
        },
        UiRole::Cursorline => {
            assert(k == "cursorline"@);
            lemma_seq_ne_at("cursorline"@, "default_fg"@, 0);
            lemma_seq_ne_at("cursorline"@, "terminalfg"@, 0);
            lemma_seq_ne_at("cursorline"@, "default_bg"@, 0);
            lemma_seq_ne_at("cursorline"@, "terminalbg"@, 0);
            lemma_seq_ne_at("cursorline"@, "statusline"@, 0);
            lemma_seq_ne_at("cursorline"@, "tab_active"@, 0);
            assert(ui_role_from_key(k) == Some(UiRole::Cursorline));
        },
    }
}

/// Every built-in theme's canonical name loads back that theme.
pub proof fn lemma_builtin_theme_name_round_trip(t: BuiltinTheme)
    ensures
        builtin_from_name(builtin_theme_name(t)) == Some(t),
{
    reveal_strlit("aviel");
    reveal_strlit("aviel-studio");
    reveal_strlit("catppuccin-frappe");
    reveal_strlit("catppuccin-latte");
    reveal_strlit("catppuccin-macchiato");
    reveal_strlit("catppuccin-mocha");
    reveal_strlit("solarized-dark");
    reveal_strlit("solarized-light");
    reveal_strlit("studio-aviel");
    reveal_strlit("studio-classic");
    reveal_strlit("studio-default");
    reveal_strlit("tokyo-day");
    reveal_strlit("tokyo-night");
    reveal_strlit("tokyonight");
    reveal_strlit("tokyonight-dark");
    reveal_strlit("tokyonight-day");
    reveal_strlit("tokyonight-light");
    reveal_strlit("tokyonight-moon");
    reveal_strlit("tokyonight-night");
    reveal_strlit("tokyonight-storm");
    let k = builtin_theme_name(t);
    lemma_trimmed_id(k);
    lemma_lower_id(k);
    assert(ascii_lower_seq(trimmed(k)) == k);
    match t {
        BuiltinTheme::TokyoNightDark => {
            assert(k == "tokyonight-dark"@);
            assert(builtin_from_key(k) == Some(BuiltinTheme::TokyoNightDark));
        },
        BuiltinTheme::TokyoNightNight => {
            assert(k == "tokyonight-night"@);
            assert(builtin_from_key(k) == Some(BuiltinTheme::TokyoNightNight));
        },
        BuiltinTheme::TokyoNightStorm => {
            assert(k == "tokyonight-storm"@);
            lemma_seq_ne_at("tokyonight-storm"@, "tokyonight-night"@, 11);
            assert(builtin_from_key(k) == Some(BuiltinTheme::TokyoNightStorm));
        },
        BuiltinTheme::TokyoNightMoon => {
            assert(k == "tokyonight-moon"@);
            lemma_seq_ne_at("tokyonight-moon"@, "tokyonight-dark"@, 11);
            assert(builtin_from_key(k) == Some(BuiltinTheme::TokyoNightMoon));
        },
        BuiltinTheme::TokyoNightLight => {
            assert(k == "tokyonight-light"@);
            lemma_seq_ne_at("tokyonight-light"@, "tokyonight-night"@, 11);
            lemma_seq_ne_at("tokyonight-light"@, "tokyonight-storm"@, 11);
            assert(builtin_from_key(k) == Some(BuiltinTheme::TokyoNightLight));
        },
        BuiltinTheme::TokyoNightDay => {
            assert(k == "tokyonight-day"@);
            assert(builtin_from_key(k) == Some(BuiltinTheme::TokyoNightDay));
        },
        BuiltinTheme::CatppuccinLatte => {
            assert(k == "catppuccin-latte"@);
            lemma_seq_ne_at("catppuccin-latte"@, "tokyonight-night"@, 0);
            lemma_seq_ne_at("catppuccin-latte"@, "tokyonight-storm"@, 0);
            lemma_seq_ne_at("catppuccin-latte"@, "tokyonight-light"@, 0);
            assert(builtin_from_key(k) == Some(BuiltinTheme::CatppuccinLatte));
        },
        BuiltinTheme::CatppuccinFrappe => {
            assert(k == "catppuccin-frappe"@);
            assert(builtin_from_key(k) == Some(BuiltinTheme::CatppuccinFrappe));
        },
        BuiltinTheme::CatppuccinMacchiato => {
            assert(k == "catppuccin-macchiato"@);
            assert(builtin_from_key(k) == Some(BuiltinTheme::CatppuccinMacchiato));
        },
        BuiltinTheme::CatppuccinMocha => {
            assert(k == "catppuccin-mocha"@);
            lemma_seq_ne_at("catppuccin-mocha"@, "tokyonight-night"@, 0);
            lemma_seq_ne_at("catppuccin-mocha"@, "tokyonight-storm"@, 0);
            lemma_seq_ne_at("catppuccin-mocha"@, "tokyonight-light"@, 0);
            lemma_seq_ne_at("catppuccin-mocha"@, "catppuccin-latte"@, 11);
            assert(builtin_from_key(k) == Some(BuiltinTheme::CatppuccinMocha));
        },
        BuiltinTheme::Aviel => {
            assert(k == "aviel"@);
            assert(builtin_from_key(k) == Some(BuiltinTheme::Aviel));
        },
        BuiltinTheme::StudioDefault => {
            assert(k == "studio-default"@);
            lemma_seq_ne_at("studio-default"@, "tokyonight-day"@, 0);
            assert(builtin_from_key(k) == Some(BuiltinTheme::StudioDefault));
        },
        BuiltinTheme::SolarizedDark => {
            assert(k == "solarized-dark"@);
            lemma_seq_ne_at("solarized-dark"@, "tokyonight-day"@, 0);
            lemma_seq_ne_at("solarized-dark"@, "studio-default"@, 1);
            lemma_seq_ne_at("solarized-dark"@, "studio-classic"@, 1);
            assert(builtin_from_key(k) == Some(BuiltinTheme::SolarizedDark));
        },
        BuiltinTheme::SolarizedLight => {
            assert(k == "solarized-light"@);
            lemma_seq_ne_at("solarized-light"@, "tokyonight-dark"@, 0);
            lemma_seq_ne_at("solarized-light"@, "tokyonight-moon"@, 0);
            assert(builtin_from_key(k) == Some(BuiltinTheme::SolarizedLight));
        },
    }
}

proof fn lemma_alnum_lower_concat(a: Seq<char>, b: Seq<char>)
    ensures
        alnum_lower(a + b) == alnum_lower(a) + alnum_lower(b),
    decreases b.len(),
{
    if b.len() == 0 {
        assert(a + b == a);
        assert(alnum_lower(b) == Seq::<char>::empty());
        assert(alnum_lower(a) + alnum_lower(b) == alnum_lower(a));
    } else {
        assert((a + b).drop_last() == a + b.drop_last());
        assert((a + b).last() == b.last());
        lemma_alnum_lower_concat(a, b.drop_last());
        if is_ascii_alnum(b.last()) {
            assert(alnum_lower(a) + alnum_lower(b) == (alnum_lower(a) + alnum_lower(b.drop_last())).push(
                ascii_lower(b.last()),
            ));
        }
    }
}

proof fn lemma_alnum_lower_id(s: Seq<char>)
    requires
        forall|i: int| 0 <= i < s.len() ==> ('a' <= #[trigger] s[i] && s[i] <= 'z') || ('0' <= s[i] && s[i] <= '9'),
    ensures
        alnum_lower(s) == s,
    decreases s.len(),
{
    if s.len() > 0 {
        lemma_alnum_lower_id(s.drop_last());
        assert(s.drop_last().push(s.last()) == s);
    }
}

/// Every grammar's canonical name parses back to it.
pub proof fn lemma_grammar_name_round_trip(g: Grammar)
    ensures
        grammar_from_key(alnum_lower(grammar_name(g))) == Some(g),
{
    reveal_strlit("cls");
    reveal_strlit("css");
    reveal_strlit("gfm");
    reveal_strlit("html");
    reveal_strlit("inc");
    reveal_strlit("int");
    reveal_strlit("javascript");
    reveal_strlit("jsdoc");
    reveal_strlit("json");
    reveal_strlit("mac");
    reveal_strlit("markdown");
    reveal_strlit("md");
    reveal_strlit("mdx");
    reveal_strlit("mysql");
    reveal_strlit("objectscript");
    reveal_strlit("objectscript_routine");
    reveal_strlit("objectscript_udl");
    reveal_strlit("objectscriptplayground");
    reveal_strlit("objectscriptroutine");
    reveal_strlit("objectscriptudl");
    reveal_strlit("os");
    reveal_strlit("playground");
    reveal_strlit("plsql");
    reveal_strlit("postgres");
    reveal_strlit("postgresql");
    reveal_strlit("py");
    reveal_strlit("python");
    reveal_strlit("regex");
    reveal_strlit("routine");
    reveal_strlit("rtn");
    reveal_strlit("sql");
    reveal_strlit("toml");
    reveal_strlit("tsql");
    reveal_strlit("xml");
    reveal_strlit("yaml");
    reveal_strlit("yml");
    reveal_strlit("_");
    reveal_strlit("routine");
    reveal_strlit("udl");
    match g {
        Grammar::ObjectScriptRoutine => {
            assert("objectscript_routine"@ == "objectscript"@ + "_"@ + "routine"@);
            lemma_alnum_lower_concat("objectscript"@ + "_"@, "routine"@);
            lemma_alnum_lower_concat("objectscript"@, "_"@);
            lemma_alnum_lower_id("objectscript"@);
            lemma_alnum_lower_id("routine"@);
            assert(alnum_lower("_"@) == Seq::<char>::empty()) by {
                assert("_"@.drop_last() == Seq::<char>::empty());
                assert(alnum_lower(Seq::<char>::empty()) == Seq::<char>::empty());
            }
            assert(alnum_lower(grammar_name(g)) == "objectscriptroutine"@);
            assert(grammar_from_key("objectscriptroutine"@) == Some(Grammar::ObjectScriptRoutine));
        },
        Grammar::ObjectScriptUdl => {
            assert("objectscript_udl"@ == "objectscript"@ + "_"@ + "udl"@);
            lemma_alnum_lower_concat("objectscript"@ + "_"@, "udl"@);
            lemma_alnum_lower_concat("objectscript"@, "_"@);
            lemma_alnum_lower_id("objectscript"@);
            lemma_alnum_lower_id("udl"@);
            assert(alnum_lower("_"@) == Seq::<char>::empty()) by {
                assert("_"@.drop_last() == Seq::<char>::empty());
                assert(alnum_lower(Seq::<char>::empty()) == Seq::<char>::empty());
            }
            assert(alnum_lower(grammar_name(g)) == "objectscriptudl"@);
            assert(grammar_from_key("objectscriptudl"@) == Some(Grammar::ObjectScriptUdl));
        },
        Grammar::ObjectScript => {
            lemma_alnum_lower_id("objectscript"@);
            assert(grammar_from_key("objectscript"@) == Some(Grammar::ObjectScript));
        },
        Grammar::Sql => {
            lemma_alnum_lower_id("sql"@);
            lemma_seq_ne_at("sql"@, "cls"@, 0);
            lemma_seq_ne_at("sql"@, "rtn"@, 0);
            lemma_seq_ne_at("sql"@, "mac"@, 0);
            lemma_seq_ne_at("sql"@, "int"@, 0);
            lemma_seq_ne_at("sql"@, "inc"@, 0);
            assert(grammar_from_key("sql"@) == Some(Grammar::Sql));
        },
        Grammar::Python => {
            lemma_alnum_lower_id("python"@);
            assert(grammar_from_key("python"@) == Some(Grammar::Python));
        },
        Grammar::Markdown => {
            lemma_alnum_lower_id("markdown"@);
            lemma_seq_ne_at("markdown"@, "postgres"@, 0);
            assert(grammar_from_key("markdown"@) == Some(Grammar::Markdown));
        },
        Grammar::Mdx => {
            lemma_alnum_lower_id("mdx"@);
            lemma_seq_ne_at("mdx"@, "cls"@, 0);
            lemma_seq_ne_at("mdx"@, "rtn"@, 0);
            lemma_seq_ne_at("mdx"@, "mac"@, 1);
            lemma_seq_ne_at("mdx"@, "int"@, 0);
            lemma_seq_ne_at("mdx"@, "inc"@, 0);
            lemma_seq_ne_at("mdx"@, "sql"@, 0);
            lemma_seq_ne_at("mdx"@, "gfm"@, 0);
            assert(grammar_from_key("mdx"@) == Some(Grammar::Mdx));
        },
        Grammar::Xml => {
            lemma_alnum_lower_id("xml"@);
            lemma_seq_ne_at("xml"@, "cls"@, 0);
            lemma_seq_ne_at("xml"@, "rtn"@, 0);
            lemma_seq_ne_at("xml"@, "mac"@, 0);
            lemma_seq_ne_at("xml"@, "int"@, 0);
            lemma_seq_ne_at("xml"@, "inc"@, 0);
            lemma_seq_ne_at("xml"@, "sql"@, 0);
            lemma_seq_ne_at("xml"@, "gfm"@, 0);
            lemma_seq_ne_at("xml"@, "mdx"@, 0);
            assert(grammar_from_key("xml"@) == Some(Grammar::Xml));
        },
        Grammar::Json => {
            lemma_alnum_lower_id("json"@);
            lemma_seq_ne_at("json"@, "tsql"@, 0);
            assert(grammar_from_key("json"@) == Some(Grammar::Json));
        },
        Grammar::Yaml => {
            lemma_alnum_lower_id("yaml"@);
            lemma_seq_ne_at("yaml"@, "tsql"@, 0);
            lemma_seq_ne_at("yaml"@, "json"@, 0);
            assert(grammar_from_key("yaml"@) == Some(Grammar::Yaml));
        },
        Grammar::Css => {
            lemma_alnum_lower_id("css"@);
            lemma_seq_ne_at("css"@, "cls"@, 1);
            lemma_seq_ne_at("css"@, "rtn"@, 0);
            lemma_seq_ne_at("css"@, "mac"@, 0);
            lemma_seq_ne_at("css"@, "int"@, 0);
            lemma_seq_ne_at("css"@, "inc"@, 0);
            lemma_seq_ne_at("css"@, "sql"@, 0);
            lemma_seq_ne_at("css"@, "gfm"@, 0);
            lemma_seq_ne_at("css"@, "mdx"@, 0);
            lemma_seq_ne_at("css"@, "xml"@, 0);
            lemma_seq_ne_at("css"@, "yml"@, 0);
            assert(grammar_from_key("css"@) == Some(Grammar::Css));
        },
        Grammar::Html => {
            lemma_alnum_lower_id("html"@);
            lemma_seq_ne_at("html"@, "tsql"@, 0);
            lemma_seq_ne_at("html"@, "json"@, 0);
            lemma_seq_ne_at("html"@, "yaml"@, 0);
            assert(grammar_from_key("html"@) == Some(Grammar::Html));
        },
        Grammar::JavaScript => {
            lemma_alnum_lower_id("javascript"@);
            lemma_seq_ne_at("javascript"@, "playground"@, 0);
            lemma_seq_ne_at("javascript"@, "postgresql"@, 0);
            assert(grammar_from_key("javascript"@) == Some(Grammar::JavaScript));
        },
        Grammar::JsDoc => {
            lemma_alnum_lower_id("jsdoc"@);
            lemma_seq_ne_at("jsdoc"@, "plsql"@, 0);
            lemma_seq_ne_at("jsdoc"@, "mysql"@, 0);
            assert(grammar_from_key("jsdoc"@) == Some(Grammar::JsDoc));
        },
        Grammar::Regex => {
            lemma_alnum_lower_id("regex"@);
            lemma_seq_ne_at("regex"@, "plsql"@, 0);
            lemma_seq_ne_at("regex"@, "mysql"@, 0);
            lemma_seq_ne_at("regex"@, "jsdoc"@, 0);
            assert(grammar_from_key("regex"@) == Some(Grammar::Regex));
        },
        Grammar::Toml => {
            lemma_alnum_lower_id("toml"@);
            lemma_seq_ne_at("toml"@, "tsql"@, 1);
            lemma_seq_ne_at("toml"@, "json"@, 0);
            lemma_seq_ne_at("toml"@, "yaml"@, 0);
            lemma_seq_ne_at("toml"@, "html"@, 0);
            assert(grammar_from_key("toml"@) == Some(Grammar::Toml));
        },
    }
}

/// Whether `out` covers `[0, len)` exactly with non-empty spans laid end to end.
pub open spec fn tiles(out: Seq<StyledSpan>, len: int) -> bool {
    &&& len == 0 ==> out.len() == 0
    &&& len > 0 ==> out.len() > 0 && out[0].start_byte == 0 && out.last().end_byte == len
    &&& forall|i: int| 0 <= i < out.len() ==> (#[trigger] out[i]).start_byte < out[i].end_byte
    &&& forall|i: int| 0 < i < out.len() ==> (#[trigger] out[i]).start_byte == out[i - 1].end_byte
}

proof fn lemma_fill_cursor_valid(spans: Seq<StyledSpan>, len: int, k: int)
    requires
        spans_valid(spans, len),
        0 <= k <= spans.len(),
    ensures
        fill_cursor(spans, k) == if k == 0 {
            0
        } else {
            spans[k - 1].end_byte as int
        },
    decreases k,
{
    if k > 0 {
        lemma_fill_cursor_valid(spans, len, k - 1);
        assert(span_ok(spans, len, k - 1));
    }
}

/// Whether `t` lays non-empty spans end to end from byte 0 to byte `c`.
pub open spec fn chain(t: Seq<StyledSpan>, c: int) -> bool {
    &&& t.len() == 0 <==> c == 0
    &&& t.len() > 0 ==> t[0].start_byte == 0 && t.last().end_byte == c
    &&& forall|i: int| 0 <= i < t.len() ==> (#[trigger] t[i]).start_byte < t[i].end_byte
    &&& forall|i: int| 0 < i < t.len() ==> (#[trigger] t[i]).start_byte == t[i - 1].end_byte
}

proof fn lemma_chain_push(t: Seq<StyledSpan>, c: int, x: StyledSpan)
    requires
        chain(t, c),
        x.start_byte == c,
        x.start_byte < x.end_byte,
    ensures
        chain(t.push(x), x.end_byte as int),
{
    let u = t.push(x);
    assert forall|i: int| 0 < i < u.len() implies (#[trigger] u[i]).start_byte == u[i - 1].end_byte by {
        if i < t.len() {
            assert(u[i] == t[i]);
        }
        assert(u[i - 1] == t[i - 1]);
    }
    assert forall|i: int| 0 <= i < u.len() implies (#[trigger] u[i]).start_byte < u[i].end_byte by {
        if i < t.len() {
            assert(u[i] == t[i]);
        }
    }
    if t.len() > 0 {
        assert(u[0] == t[0]);
    }
}

#[verifier::rlimit(30)]
proof fn lemma_fill_upto_tiles(spans: Seq<StyledSpan>, len: int, d: Style, k: int)
    requires
        spans_valid(spans, len),
        0 <= len,
        0 <= k <= spans.len(),
    ensures
        chain(fill_upto(spans, k, d), fill_cursor(spans, k)),
        0 <= fill_cursor(spans, k) <= len,
    decreases k,
{
    if k > 0 {
        lemma_fill_upto_tiles(spans, len, d, k - 1);
        lemma_fill_cursor_valid(spans, len, k - 1);
        lemma_fill_cursor_valid(spans, len, k);
        assert(span_ok(spans, len, k - 1));
        let prev = fill_upto(spans, k - 1, d);
        let c = fill_cursor(spans, k - 1);
        let s = spans[k - 1];
        assert(c <= s.start_byte);
        let g = StyledSpan { start_byte: c as usize, end_byte: s.start_byte, style: Some(d) };
        let gap = if c < s.start_byte {
            seq![g]
        } else {
            seq![]
        };
        let own = if s.start_byte < s.end_byte {
            seq![s]
        } else {
            seq![]
        };
        assert(fill_upto(spans, k, d) == prev + gap + own);
        let mid = if c < s.start_byte {
            prev.push(g)
        } else {
            prev
        };
        assert(prev + gap == mid);
        if c < s.start_byte {
            lemma_chain_push(prev, c, g);
        }
        assert(chain(mid, s.start_byte as int));
        if s.start_byte < s.end_byte {
            assert(mid + own == mid.push(s));
            lemma_chain_push(mid, s.start_byte as int, s);
        } else {
            assert(mid + own == mid);
        }
    }
}

/// Filling the uncovered byte ranges of valid spans with a default style
/// covers the whole source: the result lays non-empty spans end to end from
/// byte 0 to the end of the source.
pub proof fn lemma_filled_tiles(spans: Seq<StyledSpan>, len: int, d: Style)
    requires
        spans_valid(spans, len),
        0 <= len <= usize::MAX,
    ensures
        tiles(filled(len, spans, Some(d)), len),
{
    let n = spans.len() as int;
    lemma_fill_upto_tiles(spans, len, d, n);
    let t = fill_upto(spans, n, d);
    let c = fill_cursor(spans, n);
    let tail = if c < len {
        seq![StyledSpan { start_byte: c as usize, end_byte: len as usize, style: Some(d) }]
    } else {
        seq![]
    };
    let out = t + tail;
    assert(filled(len, spans, Some(d)) == out);
    assert forall|i: int| 0 <= i < out.len() implies (#[trigger] out[i]).start_byte < out[i].end_byte by {
        if i < t.len() {
            assert(out[i] == t[i]);
        } else {
            assert(out[i] == tail[0]);
        }
    }
    assert forall|i: int| 0 < i < out.len() implies (#[trigger] out[i]).start_byte == out[i - 1].end_byte by {
        if i < t.len() {
            assert(out[i] == t[i]);
            assert(out[i - 1] == t[i - 1]);
        } else {
            assert(out[i] == tail[0]);
            assert(out[i - 1] == t.last());
        }
    }
    if out.len() > 0 {
        if t.len() > 0 {
            assert(out[0] == t[0]);
        } else {
            assert(out[0] == tail[0]);
        }
        if tail.len() > 0 {
            assert(out.last() == tail[0]);
        } else {
            assert(out.last() == t.last());
        }
    }
}

proof fn lemma_ranges_without_newline(src: Seq<u8>, start: int, i: int)
    requires
        0 <= start <= i <= src.len(),
        forall|j: int| i <= j < src.len() ==> src[j] != 10u8,
    ensures
        ranges_from(src, start, i) == seq![(start, src.len() as int)],
    decreases src.len() - i,
{
    if i < src.len() {
        lemma_ranges_without_newline(src, start, i + 1);
    }
}

/// Rendering a source without a newline line by line gives one line: the
/// same text as rendering it whole.
pub proof fn lemma_single_line_renders_whole(
    src: Seq<u8>,
    spans: Seq<StyledSpan>,
    lines: Seq<String>,
    mode: ColorMode,
    preserve_background: bool,
)
    requires
        renders_lines(src, spans, lines, mode, preserve_background),
        !src.contains(10u8),
    ensures
        lines.len() == 1,
        lines[0]@ == render_window(src, spans, 0, src.len() as int, mode, preserve_background),
{
    assert forall|j: int| 0 <= j < src.len() implies src[j] != 10u8 by {
        if src[j] == 10u8 {
            assert(src.contains(10u8));
        }
    }
    lemma_ranges_without_newline(src, 0, 0);
    assert(line_ranges(src) == seq![(0int, src.len() as int)]);
    assert(lines[0]@ == render_window(
        src,
        spans,
        line_ranges(src)[0].0,
        line_ranges(src)[0].1,
        mode,
        preserve_background,
    ));
}

/// A style without its background color.
pub open spec fn without_bg(s: Option<Style>) -> Option<Style> {
    match s {
        Some(st) => Some(Style { bg: None, ..st }),
        None => None,
    }
}

/// Spans with their background colors removed.
pub open spec fn spans_without_bg(spans: Seq<StyledSpan>) -> Seq<StyledSpan> {
    spans.map_values(
        |sp: StyledSpan|
            StyledSpan { start_byte: sp.start_byte, end_byte: sp.end_byte, style: without_bg(sp.style) },
    )
}

proof fn lemma_window_upto_without_bg(
    src: Seq<u8>,
    spans: Seq<StyledSpan>,
    k: int,
    lo: int,
    hi: int,
    mode: ColorMode,
)
    requires
        0 <= k <= spans.len(),
    ensures
        window_upto(src, spans, k, lo, hi, mode, true) == window_upto(
            src,
            spans_without_bg(spans),
            k,
            lo,
            hi,
            mode,
            true,
        ),
        window_cursor(spans, k, lo, hi) == window_cursor(spans_without_bg(spans), k, lo, hi),
    decreases k,
{
    if k > 0 {
        lemma_window_upto_without_bg(src, spans, k - 1, lo, hi, mode);
        let s = spans[k - 1];
        let t = spans_without_bg(spans)[k - 1];
        assert(t.start_byte == s.start_byte && t.end_byte == s.end_byte);
        assert(t.style == without_bg(s.style));
        match s.style {
            Some(st) => {
                assert(style_params(st, mode, true) =~= style_params(Style { bg: None, ..st }, mode, true));
            },
            None => {},
        }
        assert(sgr_open(s.style, mode, true) == sgr_open(t.style, mode, true));
    }
}

/// With the terminal background preserved, background colors in styles have
/// no effect on the output.
pub proof fn lemma_preserved_background_ignores_bg(
    src: Seq<u8>,
    spans: Seq<StyledSpan>,
    lo: int,
    hi: int,
    mode: ColorMode,
)
    ensures
        render_window(src, spans, lo, hi, mode, true) == render_window(
            src,
            spans_without_bg(spans),
            lo,
            hi,
            mode,
            true,
        ),
{
    lemma_window_upto_without_bg(src, spans, spans.len() as int, lo, hi, mode);
}

/// Between identical attribute tables, no row run is reported changed.
pub proof fn lemma_unchanged_attrs_have_no_runs(a: Seq<Vec<u16>>, ranges: Seq<(u32, u32)>)
    requires
        changed_runs(a, a, ranges),
    ensures
        ranges.len() == 0,
{
    if ranges.len() > 0 {
        assert(is_changed_run(a, a, ranges[0].0 as int, ranges[0].1 as int));
        assert(row_changed(a, a, ranges[0].0 as int));
    }
}

/// After `clear_state` a renderer draws its next frame as a fresh renderer
/// with the same viewport, origin, color mode and background choice does:
/// the whole frame is drawn, so both emit the same patch and cache the same
/// frame.
pub proof fn lemma_cleared_draws_as_fresh(
    cleared: IncrementalRenderer,
    fresh: IncrementalRenderer,
    after_cleared: IncrementalRenderer,
    after_fresh: IncrementalRenderer,
    source: Seq<u8>,
    spans: Seq<StyledSpan>,
    p: Seq<char>,
    q: Seq<char>,
)
    requires
        cleared.frame() == Seq::<Seq<CellView>>::empty(),
        fresh.frame() == Seq::<Seq<CellView>>::empty(),
        cleared.viewport_width() == fresh.viewport_width(),
        cleared.viewport_height() == fresh.viewport_height(),
        cleared.origin_row_spec() == fresh.origin_row_spec(),
        cleared.origin_col_spec() == fresh.origin_col_spec(),
        cleared.mode() == fresh.mode(),
        cleared.keeps_background() == fresh.keeps_background(),
        patched(cleared, after_cleared, source, spans, p),
        patched(fresh, after_fresh, source, spans, q),
    ensures
        p == q,
        after_cleared.frame() == after_fresh.frame(),
{
}

/// After a renderer has drawn a source of unit-width graphemes, shrinking
/// its viewport clips the cached frame to exactly the frame a renderer of the
/// smaller viewport draws, so drawing the same source again emits nothing.
pub proof fn lemma_resized_redraw_is_empty(
    before: IncrementalRenderer,
    drawn: IncrementalRenderer,
    resized: IncrementalRenderer,
    after: IncrementalRenderer,
    source: Seq<u8>,
    spans: Seq<StyledSpan>,
    p: Seq<char>,
    q: Seq<char>,
)
    requires
        unit_widths(grapheme_indices_of(lossy_utf8(source))),
        patched(before, drawn, source, spans, p),
        1 <= resized.viewport_width() <= drawn.viewport_width(),
        1 <= resized.viewport_height() <= drawn.viewport_height(),
        resized.frame() == clip_rows(drawn.frame(), resized.viewport_width(), resized.viewport_height()),
        patched(resized, after, source, spans, q),
    ensures
        resized.frame() == frame_cells(source, spans, resized.viewport_width(), resized.viewport_height()),
        q == Seq::<char>::empty(),
        after.frame() == resized.frame(),
{
    lemma_frame_cells_clipped(
        source,
        spans,
        drawn.viewport_width(),
        drawn.viewport_height(),
        resized.viewport_width(),
        resized.viewport_height(),
    );
    lemma_frame_patch_of_same_frame_is_empty(
        resized.frame(),
        resized.origin_row_spec(),
        resized.origin_col_spec(),
        resized.mode(),
        resized.keeps_background(),
    );
}

/// MDX source is highlighted exactly as SQL source: the same spans over the
/// same attribute table.
pub proof fn lemma_mdx_highlights_as_sql(
    setup: Option<(Option<u32>, Option<u32>)>,
    table: Seq<(usize, Seq<char>)>,
    src: Seq<u8>,
    h: HighlightResult,
)
    ensures
        highlights_as(setup, table, Grammar::Mdx, src, h) <==> highlights_as(setup, table, Grammar::Sql, src, h),
{
}

/// Tiles of a source of length `len` all end within it.
proof fn lemma_tiles_within(out: Seq<StyledSpan>, len: int, i: int)
    requires
        tiles(out, len),
        0 <= len,
        0 <= i < out.len(),
    ensures
        out[i].end_byte <= len,
    decreases out.len() - i,
{
    if i + 1 < out.len() {
        lemma_tiles_within(out, len, i + 1);
        assert(out[i + 1].start_byte == out[i].end_byte);
        assert(out[i + 1].start_byte < out[i + 1].end_byte);
    } else {
        assert(len > 0);
        assert(out.last() == out[i]);
    }
}

/// The styled spans of a highlight result whose spans are ordered, disjoint
/// and within a source of length `len` are valid spans of that source.
pub proof fn lemma_styled_spans_valid(len: int, h: HighlightResult, theme: Theme)
    requires
        0 <= len <= usize::MAX,
        disjoint_ordered(h.spans@),
        spans_within(h.spans@, len),
    ensures
        spans_valid(styled_for_source(len, h, theme), len),
{
    let m = h.spans@.map_values(|sp: Span| resolved_span(attr_names(h.attrs@), theme.styles@, sp));
    assert(spans_valid(m, len)) by {
        assert forall|i: int| 0 <= i < m.len() implies #[trigger] span_ok(m, len, i) by {
            if i > 0 {
                assert(h.spans@[i - 1].end_byte <= h.spans@[i].start_byte);
            }
        }
    }
    match lookup(theme.styles@, normalized_name("normal"@)) {
        None => {},
        Some(d) => {
            lemma_filled_tiles(m, len, d);
            let out = filled(len, m, Some(d));
            assert forall|i: int| 0 <= i < out.len() implies #[trigger] span_ok(out, len, i) by {
                lemma_tiles_within(out, len, i);
            }
        },
    }
}

} // verus!
