//! The InterSystems Studio theme family.
use crate::style::{bg_style, fg_bg_style, fg_style, Rgb, Style};
use crate::style_map::StyleMap;
use crate::theme::Theme;
use vstd::prelude::*;

verus! {

/// The InterSystems Studio variants.
#[derive(Debug, Clone, Copy, PartialEq, Eq, Structural)]
pub enum StudioVariant {
    Aviel,
    Classic,
}

/// The colors of one InterSystems Studio variant.
#[derive(Debug, Clone, Copy, PartialEq, Eq, Structural)]
pub struct StudioPalette {
    pub bg_base: Rgb,
    pub bg_dotted_statements: Rgb,
    pub bg_label: Rgb,
    pub bg_local_variable: Rgb,
    pub bg_macro: Rgb,
    pub bg_string: Rgb,
    pub text: Rgb,
    pub navy: Rgb,
    pub fg_comment_documentation: Rgb,
    pub fg_label: Rgb,
    pub fg_local_variable: Rgb,
    pub fg_macro: Rgb,
    pub fg_keyword_operator: Rgb,
    pub fg_preprocessor: Rgb,
    pub fg_string: Rgb,
    pub fg_type_builtin: Rgb,
    pub green: Rgb,
    pub purple: Rgb,
    pub olive: Rgb,
    pub gray: Rgb,
    pub red: Rgb,
    pub magenta: Rgb,
    pub maroon: Rgb,
    pub silver: Rgb,
}

/// The palette of the Aviel variant.
pub open spec fn studio_aviel_palette() -> StudioPalette {
    StudioPalette {
        bg_base: Rgb { r: 0xff, g: 0xff, b: 0xff },
        bg_dotted_statements: Rgb { r: 0xc0, g: 0xc0, b: 0xc0 },
        bg_label: Rgb { r: 0xff, g: 0xff, b: 0x00 },
        bg_local_variable: Rgb { r: 0xdb, g: 0xff, b: 0xff },
        bg_macro: Rgb { r: 0xc0, g: 0xc0, b: 0xc0 },
        bg_string: Rgb { r: 0xff, g: 0xc8, b: 0xff },
        text: Rgb { r: 0x00, g: 0x00, b: 0x00 },
        navy: Rgb { r: 0x00, g: 0x00, b: 0x80 },
        fg_comment_documentation: Rgb { r: 0x00, g: 0x00, b: 0x80 },
        fg_label: Rgb { r: 0x80, g: 0x00, b: 0x00 },
        fg_local_variable: Rgb { r: 0x80, g: 0x00, b: 0x00 },
        fg_macro: Rgb { r: 0x00, g: 0x00, b: 0xff },
        fg_keyword_operator: Rgb { r: 0x00, g: 0x00, b: 0x80 },
        fg_preprocessor: Rgb { r: 0x00, g: 0x00, b: 0xff },
        fg_string: Rgb { r: 0x00, g: 0x00, b: 0x00 },
        fg_type_builtin: Rgb { r: 0x00, g: 0x80, b: 0x80 },
        green: Rgb { r: 0x00, g: 0x80, b: 0x00 },
        purple: Rgb { r: 0x80, g: 0x00, b: 0x80 },
        olive: Rgb { r: 0x80, g: 0x80, b: 0x00 },
        gray: Rgb { r: 0x80, g: 0x80, b: 0x80 },
        red: Rgb { r: 0xff, g: 0x00, b: 0x00 },
        magenta: Rgb { r: 0xff, g: 0x00, b: 0xff },
        maroon: Rgb { r: 0x80, g: 0x00, b: 0x00 },
        silver: Rgb { r: 0xc0, g: 0xc0, b: 0xc0 },
    }
}

/// The palette of the classic variant.
pub open spec fn studio_studio_default_palette() -> StudioPalette {
    StudioPalette {
        bg_base: Rgb { r: 0xff, g: 0xff, b: 0xff },
        bg_dotted_statements: Rgb { r: 0xff, g: 0xff, b: 0xff },
        bg_label: Rgb { r: 0xff, g: 0xff, b: 0xff },
        bg_local_variable: Rgb { r: 0xff, g: 0xff, b: 0xff },
        bg_macro: Rgb { r: 0xff, g: 0xff, b: 0xff },
        bg_string: Rgb { r: 0xff, g: 0xff, b: 0xff },
        text: Rgb { r: 0x00, g: 0x00, b: 0x00 },
        navy: Rgb { r: 0x00, g: 0x00, b: 0x80 },
        fg_comment_documentation: Rgb { r: 0x00, g: 0x80, b: 0x00 },
        fg_label: Rgb { r: 0x00, g: 0x00, b: 0xff },
        fg_local_variable: Rgb { r: 0x00, g: 0x00, b: 0x80 },
        fg_macro: Rgb { r: 0xff, g: 0x00, b: 0x00 },
        fg_keyword_operator: Rgb { r: 0x80, g: 0x00, b: 0x00 },
        fg_preprocessor: Rgb { r: 0xff, g: 0x00, b: 0x00 },
        fg_string: Rgb { r: 0x00, g: 0x80, b: 0x00 },
        fg_type_builtin: Rgb { r: 0x80, g: 0x80, b: 0x00 },
        green: Rgb { r: 0x00, g: 0x80, b: 0x00 },
        purple: Rgb { r: 0x80, g: 0x00, b: 0x80 },
        olive: Rgb { r: 0x80, g: 0x80, b: 0x00 },
        gray: Rgb { r: 0x80, g: 0x80, b: 0x80 },
        red: Rgb { r: 0xff, g: 0x00, b: 0x00 },
        magenta: Rgb { r: 0xff, g: 0x00, b: 0xff },
        maroon: Rgb { r: 0x80, g: 0x00, b: 0x00 },
        silver: Rgb { r: 0xc0, g: 0xc0, b: 0xc0 },
    }
}

/// The palette of a variant.
pub open spec fn studio_palette(variant: StudioVariant) -> StudioPalette {
    match variant {
        StudioVariant::Aviel => studio_aviel_palette(),
        StudioVariant::Classic => studio_studio_default_palette(),
    }
}

impl StudioPalette {
    /// Returns the palette of a variant.
    pub fn for_variant(variant: StudioVariant) -> (p: Self)
        ensures
            p == studio_palette(variant),
    {
        match variant {
            StudioVariant::Aviel => StudioPalette::aviel(),
            StudioVariant::Classic => StudioPalette::studio_default(),
        }
    }

    /// The palette of the Aviel variant.
    fn aviel() -> (p: Self)
        ensures
            p == studio_aviel_palette(),
    {
        StudioPalette {
            bg_base: Rgb { r: 0xff, g: 0xff, b: 0xff },
            bg_dotted_statements: Rgb { r: 0xc0, g: 0xc0, b: 0xc0 },
            bg_label: Rgb { r: 0xff, g: 0xff, b: 0x00 },
            bg_local_variable: Rgb { r: 0xdb, g: 0xff, b: 0xff },
            bg_macro: Rgb { r: 0xc0, g: 0xc0, b: 0xc0 },
            bg_string: Rgb { r: 0xff, g: 0xc8, b: 0xff },
            text: Rgb { r: 0x00, g: 0x00, b: 0x00 },
            navy: Rgb { r: 0x00, g: 0x00, b: 0x80 },
            fg_comment_documentation: Rgb { r: 0x00, g: 0x00, b: 0x80 },
            fg_label: Rgb { r: 0x80, g: 0x00, b: 0x00 },
            fg_local_variable: Rgb { r: 0x80, g: 0x00, b: 0x00 },
            fg_macro: Rgb { r: 0x00, g: 0x00, b: 0xff },
            fg_keyword_operator: Rgb { r: 0x00, g: 0x00, b: 0x80 },
            fg_preprocessor: Rgb { r: 0x00, g: 0x00, b: 0xff },
            fg_string: Rgb { r: 0x00, g: 0x00, b: 0x00 },
            fg_type_builtin: Rgb { r: 0x00, g: 0x80, b: 0x80 },
            green: Rgb { r: 0x00, g: 0x80, b: 0x00 },
            purple: Rgb { r: 0x80, g: 0x00, b: 0x80 },
            olive: Rgb { r: 0x80, g: 0x80, b: 0x00 },
            gray: Rgb { r: 0x80, g: 0x80, b: 0x80 },
            red: Rgb { r: 0xff, g: 0x00, b: 0x00 },
            magenta: Rgb { r: 0xff, g: 0x00, b: 0xff },
            maroon: Rgb { r: 0x80, g: 0x00, b: 0x00 },
            silver: Rgb { r: 0xc0, g: 0xc0, b: 0xc0 },
        }
    }

    /// The palette of the classic variant.
    fn studio_default() -> (p: Self)
        ensures
            p == studio_studio_default_palette(),
    {
        StudioPalette {
            bg_base: Rgb { r: 0xff, g: 0xff, b: 0xff },
            bg_dotted_statements: Rgb { r: 0xff, g: 0xff, b: 0xff },
            bg_label: Rgb { r: 0xff, g: 0xff, b: 0xff },
            bg_local_variable: Rgb { r: 0xff, g: 0xff, b: 0xff },
            bg_macro: Rgb { r: 0xff, g: 0xff, b: 0xff },
            bg_string: Rgb { r: 0xff, g: 0xff, b: 0xff },
            text: Rgb { r: 0x00, g: 0x00, b: 0x00 },
            navy: Rgb { r: 0x00, g: 0x00, b: 0x80 },
            fg_comment_documentation: Rgb { r: 0x00, g: 0x80, b: 0x00 },
            fg_label: Rgb { r: 0x00, g: 0x00, b: 0xff },
            fg_local_variable: Rgb { r: 0x00, g: 0x00, b: 0x80 },
            fg_macro: Rgb { r: 0xff, g: 0x00, b: 0x00 },
            fg_keyword_operator: Rgb { r: 0x80, g: 0x00, b: 0x00 },
            fg_preprocessor: Rgb { r: 0xff, g: 0x00, b: 0x00 },
            fg_string: Rgb { r: 0x00, g: 0x80, b: 0x00 },
            fg_type_builtin: Rgb { r: 0x80, g: 0x80, b: 0x00 },
            green: Rgb { r: 0x00, g: 0x80, b: 0x00 },
            purple: Rgb { r: 0x80, g: 0x00, b: 0x80 },
            olive: Rgb { r: 0x80, g: 0x80, b: 0x00 },
            gray: Rgb { r: 0x80, g: 0x80, b: 0x80 },
            red: Rgb { r: 0xff, g: 0x00, b: 0x00 },
            magenta: Rgb { r: 0xff, g: 0x00, b: 0xff },
            maroon: Rgb { r: 0x80, g: 0x00, b: 0x00 },
            silver: Rgb { r: 0xc0, g: 0xc0, b: 0xc0 },
        }
    }
}

/// The first 25 capture styles of `studio_styles`, added to `m`.
pub open spec fn studio_styles_group1(p: StudioPalette, m: Map<Seq<char>, Style>) -> Map<Seq<char>, Style> {
    let normal_style = fg_bg_style(p.text, p.bg_base);
    let macro_style = fg_bg_style(p.fg_macro, p.bg_macro);
    let label_style = fg_bg_style(p.fg_label, p.bg_label);
    m
        .insert("normal"@, normal_style)
        .insert("selection"@, bg_style(p.silver))
        .insert("statusline"@, fg_bg_style(p.text, p.bg_base))
        .insert("ignore"@, fg_style(p.gray))
        .insert("warning"@, fg_style(p.purple))
        .insert("error"@, fg_style(p.text))
        .insert("comment"@, fg_style(p.green))
        .insert("variable.member.sql"@, fg_style(p.green))
        .insert("constant.builtin"@, fg_style(p.fg_preprocessor))
        .insert("variable.builtin"@, fg_style(p.fg_preprocessor))
        .insert("keyword.directive"@, fg_style(p.fg_preprocessor))
        .insert("variable.member.oref"@, fg_style(p.fg_preprocessor))
        .insert("function.macro"@, macro_style)
        .insert("keyword"@, fg_style(p.red))
        .insert("keyword.debug"@, normal_style)
        .insert("punctuation.special"@, normal_style)
        .insert("variable.member"@, normal_style)
        .insert("number"@, normal_style)
        .insert("keyword.modifier"@, fg_style(p.olive))
        .insert("string.regexp"@, fg_style(p.olive))
        .insert("keyword.type"@, fg_style(p.navy))
        .insert("comment.documentation"@, fg_style(p.fg_comment_documentation))
        .insert("keyword.operator"@, fg_style(p.fg_keyword_operator))
        .insert("label"@, label_style)
        .insert("punctuation.bracket"@, fg_style(p.purple))
}

/// The next 12 capture styles of `studio_styles`, added to `m`.
pub open spec fn studio_styles_group2(p: StudioPalette, m: Map<Seq<char>, Style>) -> Map<Seq<char>, Style> {
    let dotted_statement_style = fg_bg_style(p.text, p.bg_dotted_statements);
    let string_style = fg_bg_style(p.fg_string, p.bg_string);
    let variable_style = fg_bg_style(p.fg_local_variable, p.bg_local_variable);
    m
        .insert("type.definition"@, fg_style(p.purple))
        .insert("punctuation.bracket.json"@, fg_style(p.magenta))
        .insert("variable.parameter"@, fg_style(p.magenta))
        .insert("punctuation.special.dots"@, dotted_statement_style)
        .insert("string"@, string_style)
        .insert("type.builtin"@, fg_style(p.fg_type_builtin))
        .insert("variable"@, variable_style)
        .insert("comment.inactive"@, fg_style(p.gray))
        .insert("markup.heading"@, fg_style(p.gray))
        .insert("property"@, fg_style(p.maroon))
        .insert("punctuation.delimiter"@, fg_style(p.navy))
        .insert("tag"@, fg_style(p.navy))
}

/// The capture styles of a variant with the given palette.
pub open spec fn studio_styles(p: StudioPalette) -> Map<Seq<char>, Style> {
    studio_styles_group2(p, studio_styles_group1(p, Map::empty()))
}

/// The UI-role styles of a variant with the given palette.
pub open spec fn studio_ui(p: StudioPalette) -> Map<Seq<char>, Style> {
    Map::empty()
        .insert("default_fg"@, fg_style(p.text))
        .insert("default_bg"@, bg_style(p.bg_base))
        .insert("statusline"@, fg_bg_style(p.text, p.bg_base))
        .insert("statusline_inactive"@, fg_bg_style(p.gray, p.bg_base))
        .insert("tab_active"@, fg_bg_style(p.text, p.bg_base))
        .insert("tab_inactive"@, fg_bg_style(p.gray, p.bg_base))
        .insert("selection"@, bg_style(p.silver))
        .insert("cursorline"@, bg_style(p.silver))
}

/// Builds the InterSystems Studio theme of a variant.
#[verifier::rlimit(40)]
pub fn build_studio_theme(variant: StudioVariant) -> (t: Theme)
    ensures
        t.styles.key_seq().len() <= 37,
        t.styles@ == studio_styles(studio_palette(variant)),
        t.ui@ == studio_ui(studio_palette(variant)),
{
    let p = StudioPalette::for_variant(variant);
    let normal_style = Style::with_fg_bg(p.text, p.bg_base);
    let macro_style = Style::with_fg_bg(p.fg_macro, p.bg_macro);
    let label_style = Style::with_fg_bg(p.fg_label, p.bg_label);
    let dotted_statement_style = Style::with_fg_bg(p.text, p.bg_dotted_statements);
    let string_style = Style::with_fg_bg(p.fg_string, p.bg_string);
    let variable_style = Style::with_fg_bg(p.fg_local_variable, p.bg_local_variable);
    let mut styles = StyleMap::new();
    let mut ui = StyleMap::new();
    styles.put("normal", normal_style);
    styles.put("selection", Style::with_bg(p.silver));
    styles.put("statusline", Style::with_fg_bg(p.text, p.bg_base));
    styles.put("ignore", Style::with_fg(p.gray));
    styles.put("warning", Style::with_fg(p.purple));
    styles.put("error", Style::with_fg(p.text));
    styles.put("comment", Style::with_fg(p.green));
    styles.put("variable.member.sql", Style::with_fg(p.green));
    styles.put("constant.builtin", Style::with_fg(p.fg_preprocessor));
    styles.put("variable.builtin", Style::with_fg(p.fg_preprocessor));
    styles.put("keyword.directive", Style::with_fg(p.fg_preprocessor));
    styles.put("variable.member.oref", Style::with_fg(p.fg_preprocessor));
    styles.put("function.macro", macro_style);
    styles.put("keyword", Style::with_fg(p.red));
    styles.put("keyword.debug", normal_style);
    styles.put("punctuation.special", normal_style);
    styles.put("variable.member", normal_style);
    styles.put("number", normal_style);
    styles.put("keyword.modifier", Style::with_fg(p.olive));
    styles.put("string.regexp", Style::with_fg(p.olive));
    styles.put("keyword.type", Style::with_fg(p.navy));
    styles.put("comment.documentation", Style::with_fg(p.fg_comment_documentation));
    styles.put("keyword.operator", Style::with_fg(p.fg_keyword_operator));
    styles.put("label", label_style);
    styles.put("punctuation.bracket", Style::with_fg(p.purple));
    styles.put("type.definition", Style::with_fg(p.purple));
    styles.put("punctuation.bracket.json", Style::with_fg(p.magenta));
    styles.put("variable.parameter", Style::with_fg(p.magenta));
    styles.put("punctuation.special.dots", dotted_statement_style);
    styles.put("string", string_style);
    styles.put("type.builtin", Style::with_fg(p.fg_type_builtin));
    styles.put("variable", variable_style);
    styles.put("comment.inactive", Style::with_fg(p.gray));
    styles.put("markup.heading", Style::with_fg(p.gray));
    styles.put("property", Style::with_fg(p.maroon));
    styles.put("punctuation.delimiter", Style::with_fg(p.navy));
    styles.put("tag", Style::with_fg(p.navy));
    ui.put("default_fg", Style::with_fg(p.text));
    ui.put("default_bg", Style::with_bg(p.bg_base));
    ui.put("statusline", Style::with_fg_bg(p.text, p.bg_base));
    ui.put("statusline_inactive", Style::with_fg_bg(p.gray, p.bg_base));
    ui.put("tab_active", Style::with_fg_bg(p.text, p.bg_base));
    ui.put("tab_inactive", Style::with_fg_bg(p.gray, p.bg_base));
    ui.put("selection", Style::with_bg(p.silver));
    ui.put("cursorline", Style::with_bg(p.silver));
    Theme { styles, ui }
}

/// The style of every capture name in a studio theme.
pub proof fn lemma_studio_styles(p: StudioPalette)
    ensures
        studio_styles(p).contains_key("normal"@),
        studio_styles(p)["normal"@] == fg_bg_style(p.text, p.bg_base),
        studio_styles(p).contains_key("selection"@),
        studio_styles(p)["selection"@] == bg_style(p.silver),
        studio_styles(p).contains_key("statusline"@),
        studio_styles(p)["statusline"@] == fg_bg_style(p.text, p.bg_base),
        studio_styles(p).contains_key("ignore"@),
        studio_styles(p)["ignore"@] == fg_style(p.gray),
        studio_styles(p).contains_key("warning"@),
        studio_styles(p)["warning"@] == fg_style(p.purple),
        studio_styles(p).contains_key("error"@),
        studio_styles(p)["error"@] == fg_style(p.text),
        studio_styles(p).contains_key("comment"@),
        studio_styles(p)["comment"@] == fg_style(p.green),
        studio_styles(p).contains_key("variable.member.sql"@),
        studio_styles(p)["variable.member.sql"@] == fg_style(p.green),
        studio_styles(p).contains_key("constant.builtin"@),
        studio_styles(p)["constant.builtin"@] == fg_style(p.fg_preprocessor),
        studio_styles(p).contains_key("variable.builtin"@),
        studio_styles(p)["variable.builtin"@] == fg_style(p.fg_preprocessor),
        studio_styles(p).contains_key("keyword.directive"@),
        studio_styles(p)["keyword.directive"@] == fg_style(p.fg_preprocessor),
        studio_styles(p).contains_key("variable.member.oref"@),
        studio_styles(p)["variable.member.oref"@] == fg_style(p.fg_preprocessor),
        studio_styles(p).contains_key("function.macro"@),
        studio_styles(p)["function.macro"@] == fg_bg_style(p.fg_macro, p.bg_macro),
        studio_styles(p).contains_key("keyword"@),
        studio_styles(p)["keyword"@] == fg_style(p.red),
        studio_styles(p).contains_key("keyword.debug"@),
        studio_styles(p)["keyword.debug"@] == fg_bg_style(p.text, p.bg_base),
        studio_styles(p).contains_key("punctuation.special"@),
        studio_styles(p)["punctuation.special"@] == fg_bg_style(p.text, p.bg_base),
        studio_styles(p).contains_key("variable.member"@),
        studio_styles(p)["variable.member"@] == fg_bg_style(p.text, p.bg_base),
        studio_styles(p).contains_key("number"@),
        studio_styles(p)["number"@] == fg_bg_style(p.text, p.bg_base),
        studio_styles(p).contains_key("keyword.modifier"@),
        studio_styles(p)["keyword.modifier"@] == fg_style(p.olive),
        studio_styles(p).contains_key("string.regexp"@),
        studio_styles(p)["string.regexp"@] == fg_style(p.olive),
        studio_styles(p).contains_key("keyword.type"@),
        studio_styles(p)["keyword.type"@] == fg_style(p.navy),
        studio_styles(p).contains_key("comment.documentation"@),
        studio_styles(p)["comment.documentation"@] == fg_style(p.fg_comment_documentation),
        studio_styles(p).contains_key("keyword.operator"@),
        studio_styles(p)["keyword.operator"@] == fg_style(p.fg_keyword_operator),
        studio_styles(p).contains_key("label"@),
        studio_styles(p)["label"@] == fg_bg_style(p.fg_label, p.bg_label),
        studio_styles(p).contains_key("punctuation.bracket"@),
        studio_styles(p)["punctuation.bracket"@] == fg_style(p.purple),
        studio_styles(p).contains_key("type.definition"@),
        studio_styles(p)["type.definition"@] == fg_style(p.purple),
        studio_styles(p).contains_key("punctuation.bracket.json"@),
        studio_styles(p)["punctuation.bracket.json"@] == fg_style(p.magenta),
        studio_styles(p).contains_key("variable.parameter"@),
        studio_styles(p)["variable.parameter"@] == fg_style(p.magenta),
        studio_styles(p).contains_key("punctuation.special.dots"@),
        studio_styles(p)["punctuation.special.dots"@] == fg_bg_style(p.text, p.bg_dotted_statements),
        studio_styles(p).contains_key("string"@),
        studio_styles(p)["string"@] == fg_bg_style(p.fg_string, p.bg_string),
        studio_styles(p).contains_key("type.builtin"@),
        studio_styles(p)["type.builtin"@] == fg_style(p.fg_type_builtin),
        studio_styles(p).contains_key("variable"@),
        studio_styles(p)["variable"@] == fg_bg_style(p.fg_local_variable, p.bg_local_variable),
        studio_styles(p).contains_key("comment.inactive"@),
        studio_styles(p)["comment.inactive"@] == fg_style(p.gray),
        studio_styles(p).contains_key("markup.heading"@),
        studio_styles(p)["markup.heading"@] == fg_style(p.gray),
        studio_styles(p).contains_key("property"@),
        studio_styles(p)["property"@] == fg_style(p.maroon),
        studio_styles(p).contains_key("punctuation.delimiter"@),
        studio_styles(p)["punctuation.delimiter"@] == fg_style(p.navy),
        studio_styles(p).contains_key("tag"@),
        studio_styles(p)["tag"@] == fg_style(p.navy),
{
    reveal_strlit("normal");
    assert("normal"@.len() == 6);
    reveal_strlit("selection");
    assert("selection"@.len() == 9);
    reveal_strlit("statusline");
    assert("statusline"@.len() == 10);
    reveal_strlit("ignore");
    assert("normal"@[0] != "ignore"@[0]);
    reveal_strlit("warning");
    assert("warning"@.len() == 7);
    reveal_strlit("error");
    assert("error"@.len() == 5);
    reveal_strlit("comment");
    assert("comment"@.len() == 7);
    reveal_strlit("variable.member.sql");
    assert("variable.member.sql"@.len() == 19);
    reveal_strlit("constant.builtin");
    assert("constant.builtin"@.len() == 16);
    reveal_strlit("variable.builtin");
    assert("variable.builtin"@.len() == 16);
    reveal_strlit("keyword.directive");
    assert("keyword.directive"@.len() == 17);
    reveal_strlit("variable.member.oref");
    assert("variable.member.oref"@.len() == 20);
    reveal_strlit("function.macro");
    assert("function.macro"@.len() == 14);
    reveal_strlit("keyword");
    assert("keyword"@.len() == 7);
    reveal_strlit("keyword.debug");
    assert("keyword.debug"@.len() == 13);
    reveal_strlit("punctuation.special");
    assert("punctuation.special"@.len() == 19);
    reveal_strlit("variable.member");
    assert("variable.member"@.len() == 15);
    reveal_strlit("number");
    assert("normal"@[1] != "number"@[1]);
    reveal_strlit("keyword.modifier");
    assert("keyword.modifier"@.len() == 16);
    reveal_strlit("string.regexp");
    assert("string.regexp"@.len() == 13);
    reveal_strlit("keyword.type");
    assert("keyword.type"@.len() == 12);
    reveal_strlit("comment.documentation");
    assert("comment.documentation"@.len() == 21);
    reveal_strlit("keyword.operator");
    assert("keyword.operator"@.len() == 16);
    reveal_strlit("label");
    assert("label"@.len() == 5);
    reveal_strlit("punctuation.bracket");
    assert("punctuation.bracket"@.len() == 19);
    reveal_strlit("type.definition");
    assert("type.definition"@.len() == 15);
    reveal_strlit("punctuation.bracket.json");
    assert("punctuation.bracket.json"@.len() == 24);
    reveal_strlit("variable.parameter");
    assert("variable.parameter"@.len() == 18);
    reveal_strlit("punctuation.special.dots");
    assert("punctuation.special.dots"@.len() == 24);
    reveal_strlit("string");
    assert("normal"@[0] != "string"@[0]);
    reveal_strlit("type.builtin");
    assert("type.builtin"@.len() == 12);
    reveal_strlit("variable");
    assert("variable"@.len() == 8);
    reveal_strlit("comment.inactive");
    assert("comment.inactive"@.len() == 16);
    reveal_strlit("markup.heading");
    assert("markup.heading"@.len() == 14);
    reveal_strlit("property");
    assert("property"@.len() == 8);
    reveal_strlit("punctuation.delimiter");
    assert("punctuation.delimiter"@.len() == 21);
    reveal_strlit("tag");
    assert("tag"@.len() == 3);
    assert("ignore"@.len() == 6);
    assert("number"@.len() == 6);
    assert("string"@.len() == 6);
    assert("ignore"@[0] != "number"@[0]);
    assert("ignore"@[0] != "string"@[0]);
    assert("warning"@[0] != "comment"@[0]);
    assert("warning"@[0] != "keyword"@[0]);
    assert("error"@[0] != "label"@[0]);
    assert("comment"@[0] != "keyword"@[0]);
    assert("variable.member.sql"@[0] != "punctuation.special"@[0]);
    assert("variable.member.sql"@[0] != "punctuation.bracket"@[0]);
    assert("constant.builtin"@[0] != "variable.builtin"@[0]);
    assert("constant.builtin"@[0] != "keyword.modifier"@[0]);
    assert("constant.builtin"@[0] != "keyword.operator"@[0]);
    assert("constant.builtin"@[2] != "comment.inactive"@[2]);
    assert("variable.builtin"@[0] != "keyword.modifier"@[0]);
    assert("variable.builtin"@[0] != "keyword.operator"@[0]);
    assert("variable.builtin"@[0] != "comment.inactive"@[0]);
    assert("function.macro"@[0] != "markup.heading"@[0]);
    assert("keyword.debug"@[0] != "string.regexp"@[0]);
    assert("punctuation.special"@[12] != "punctuation.bracket"@[12]);
    assert("variable.member"@[0] != "type.definition"@[0]);
    assert("number"@[0] != "string"@[0]);
    assert("keyword.modifier"@[8] != "keyword.operator"@[8]);
    assert("keyword.modifier"@[0] != "comment.inactive"@[0]);
    assert("keyword.type"@[0] != "type.builtin"@[0]);
    assert("comment.documentation"@[0] != "punctuation.delimiter"@[0]);
    assert("keyword.operator"@[0] != "comment.inactive"@[0]);
    assert("punctuation.bracket.json"@[12] != "punctuation.special.dots"@[12]);
    assert("variable"@[0] != "property"@[0]);
    let m1 = studio_styles_group1(p, Map::empty());
    assert(m1.contains_key("normal"@) && m1["normal"@] == fg_bg_style(p.text, p.bg_base) && m1.contains_key("selection"@) && m1["selection"@] == bg_style(p.silver) && m1.contains_key("statusline"@) && m1["statusline"@] == fg_bg_style(p.text, p.bg_base) && m1.contains_key("ignore"@) && m1["ignore"@] == fg_style(p.gray) && m1.contains_key("warning"@) && m1["warning"@] == fg_style(p.purple) && m1.contains_key("error"@) && m1["error"@] == fg_style(p.text) && m1.contains_key("comment"@) && m1["comment"@] == fg_style(p.green) && m1.contains_key("variable.member.sql"@) && m1["variable.member.sql"@] == fg_style(p.green) && m1.contains_key("constant.builtin"@) && m1["constant.builtin"@] == fg_style(p.fg_preprocessor) && m1.contains_key("variable.builtin"@) && m1["variable.builtin"@] == fg_style(p.fg_preprocessor) && m1.contains_key("keyword.directive"@) && m1["keyword.directive"@] == fg_style(p.fg_preprocessor) && m1.contains_key("variable.member.oref"@) && m1["variable.member.oref"@] == fg_style(p.fg_preprocessor) && m1.contains_key("function.macro"@) && m1["function.macro"@] == fg_bg_style(p.fg_macro, p.bg_macro) && m1.contains_key("keyword"@) && m1["keyword"@] == fg_style(p.red) && m1.contains_key("keyword.debug"@) && m1["keyword.debug"@] == fg_bg_style(p.text, p.bg_base) && m1.contains_key("punctuation.special"@) && m1["punctuation.special"@] == fg_bg_style(p.text, p.bg_base) && m1.contains_key("variable.member"@) && m1["variable.member"@] == fg_bg_style(p.text, p.bg_base) && m1.contains_key("number"@) && m1["number"@] == fg_bg_style(p.text, p.bg_base) && m1.contains_key("keyword.modifier"@) && m1["keyword.modifier"@] == fg_style(p.olive) && m1.contains_key("string.regexp"@) && m1["string.regexp"@] == fg_style(p.olive) && m1.contains_key("keyword.type"@) && m1["keyword.type"@] == fg_style(p.navy) && m1.contains_key("comment.documentation"@) && m1["comment.documentation"@] == fg_style(p.fg_comment_documentation) && m1.contains_key("keyword.operator"@) && m1["keyword.operator"@] == fg_style(p.fg_keyword_operator) && m1.contains_key("label"@) && m1["label"@] == fg_bg_style(p.fg_label, p.bg_label) && m1.contains_key("punctuation.bracket"@) && m1["punctuation.bracket"@] == fg_style(p.purple));
    let m2 = studio_styles_group2(p, m1);
    assert(m2.contains_key("normal"@) && m2["normal"@] == fg_bg_style(p.text, p.bg_base) && m2.contains_key("selection"@) && m2["selection"@] == bg_style(p.silver) && m2.contains_key("statusline"@) && m2["statusline"@] == fg_bg_style(p.text, p.bg_base) && m2.contains_key("ignore"@) && m2["ignore"@] == fg_style(p.gray) && m2.contains_key("warning"@) && m2["warning"@] == fg_style(p.purple) && m2.contains_key("error"@) && m2["error"@] == fg_style(p.text) && m2.contains_key("comment"@) && m2["comment"@] == fg_style(p.green) && m2.contains_key("variable.member.sql"@) && m2["variable.member.sql"@] == fg_style(p.green) && m2.contains_key("constant.builtin"@) && m2["constant.builtin"@] == fg_style(p.fg_preprocessor) && m2.contains_key("variable.builtin"@) && m2["variable.builtin"@] == fg_style(p.fg_preprocessor) && m2.contains_key("keyword.directive"@) && m2["keyword.directive"@] == fg_style(p.fg_preprocessor) && m2.contains_key("variable.member.oref"@) && m2["variable.member.oref"@] == fg_style(p.fg_preprocessor) && m2.contains_key("function.macro"@) && m2["function.macro"@] == fg_bg_style(p.fg_macro, p.bg_macro) && m2.contains_key("keyword"@) && m2["keyword"@] == fg_style(p.red) && m2.contains_key("keyword.debug"@) && m2["keyword.debug"@] == fg_bg_style(p.text, p.bg_base) && m2.contains_key("punctuation.special"@) && m2["punctuation.special"@] == fg_bg_style(p.text, p.bg_base) && m2.contains_key("variable.member"@) && m2["variable.member"@] == fg_bg_style(p.text, p.bg_base) && m2.contains_key("number"@) && m2["number"@] == fg_bg_style(p.text, p.bg_base) && m2.contains_key("keyword.modifier"@) && m2["keyword.modifier"@] == fg_style(p.olive) && m2.contains_key("string.regexp"@) && m2["string.regexp"@] == fg_style(p.olive) && m2.contains_key("keyword.type"@) && m2["keyword.type"@] == fg_style(p.navy) && m2.contains_key("comment.documentation"@) && m2["comment.documentation"@] == fg_style(p.fg_comment_documentation) && m2.contains_key("keyword.operator"@) && m2["keyword.operator"@] == fg_style(p.fg_keyword_operator) && m2.contains_key("label"@) && m2["label"@] == fg_bg_style(p.fg_label, p.bg_label) && m2.contains_key("punctuation.bracket"@) && m2["punctuation.bracket"@] == fg_style(p.purple) && m2.contains_key("type.definition"@) && m2["type.definition"@] == fg_style(p.purple) && m2.contains_key("punctuation.bracket.json"@) && m2["punctuation.bracket.json"@] == fg_style(p.magenta) && m2.contains_key("variable.parameter"@) && m2["variable.parameter"@] == fg_style(p.magenta) && m2.contains_key("punctuation.special.dots"@) && m2["punctuation.special.dots"@] == fg_bg_style(p.text, p.bg_dotted_statements) && m2.contains_key("string"@) && m2["string"@] == fg_bg_style(p.fg_string, p.bg_string) && m2.contains_key("type.builtin"@) && m2["type.builtin"@] == fg_style(p.fg_type_builtin) && m2.contains_key("variable"@) && m2["variable"@] == fg_bg_style(p.fg_local_variable, p.bg_local_variable) && m2.contains_key("comment.inactive"@) && m2["comment.inactive"@] == fg_style(p.gray) && m2.contains_key("markup.heading"@) && m2["markup.heading"@] == fg_style(p.gray) && m2.contains_key("property"@) && m2["property"@] == fg_style(p.maroon) && m2.contains_key("punctuation.delimiter"@) && m2["punctuation.delimiter"@] == fg_style(p.navy) && m2.contains_key("tag"@) && m2["tag"@] == fg_style(p.navy));
}

/// The style of every UI role in a studio theme.
pub proof fn lemma_studio_ui(p: StudioPalette)
    ensures
        studio_ui(p).contains_key("default_fg"@),
        studio_ui(p)["default_fg"@] == fg_style(p.text),
        studio_ui(p).contains_key("default_bg"@),
        studio_ui(p)["default_bg"@] == bg_style(p.bg_base),
        studio_ui(p).contains_key("statusline"@),
        studio_ui(p)["statusline"@] == fg_bg_style(p.text, p.bg_base),
        studio_ui(p).contains_key("statusline_inactive"@),
        studio_ui(p)["statusline_inactive"@] == fg_bg_style(p.gray, p.bg_base),
        studio_ui(p).contains_key("tab_active"@),
        studio_ui(p)["tab_active"@] == fg_bg_style(p.text, p.bg_base),
        studio_ui(p).contains_key("tab_inactive"@),
        studio_ui(p)["tab_inactive"@] == fg_bg_style(p.gray, p.bg_base),
        studio_ui(p).contains_key("selection"@),
        studio_ui(p)["selection"@] == bg_style(p.silver),
        studio_ui(p).contains_key("cursorline"@),
        studio_ui(p)["cursorline"@] == bg_style(p.silver),
{
    reveal_strlit("default_fg");
    assert("default_fg"@.len() == 10);
    reveal_strlit("default_bg");
    assert("default_fg"@[8] != "default_bg"@[8]);
    reveal_strlit("statusline");
    assert("default_fg"@[0] != "statusline"@[0]);
    reveal_strlit("statusline_inactive");
    assert("statusline_inactive"@.len() == 19);
    reveal_strlit("tab_active");
    assert("default_fg"@[0] != "tab_active"@[0]);
    reveal_strlit("tab_inactive");
    assert("tab_inactive"@.len() == 12);
    reveal_strlit("selection");
    assert("selection"@.len() == 9);
    reveal_strlit("cursorline");
    assert("default_fg"@[0] != "cursorline"@[0]);
    assert("default_bg"@.len() == 10);
    assert("default_bg"@[0] != "statusline"@[0]);
    assert("default_bg"@[0] != "tab_active"@[0]);
    assert("default_bg"@[0] != "cursorline"@[0]);
    assert("statusline"@.len() == 10);
    assert("statusline"@[0] != "tab_active"@[0]);
    assert("statusline"@[0] != "cursorline"@[0]);
    assert("tab_active"@.len() == 10);
    assert("cursorline"@.len() == 10);
    assert("tab_active"@[0] != "cursorline"@[0]);
}

} // verus!
