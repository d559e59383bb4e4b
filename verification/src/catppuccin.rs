//! The Catppuccin theme family.
use crate::style::{bg_style, blend_ratio, blended, fg_bg_style, fg_style, plain_style, Rgb, Style};
use crate::style_map::StyleMap;
use crate::theme::Theme;
use vstd::prelude::*;

verus! {

/// The Catppuccin variants.
#[derive(Debug, Clone, Copy, PartialEq, Eq, Structural)]
pub enum CatppuccinVariant {
    Latte,
    Frappe,
    Macchiato,
    Mocha,
}

/// The colors of one Catppuccin variant.
#[derive(Debug, Clone, Copy, PartialEq, Eq, Structural)]
pub struct CatppuccinPalette {
    pub rosewater: Rgb,
    pub flamingo: Rgb,
    pub mauve: Rgb,
    pub red: Rgb,
    pub maroon: Rgb,
    pub peach: Rgb,
    pub yellow: Rgb,
    pub green: Rgb,
    pub teal: Rgb,
    pub sky: Rgb,
    pub blue: Rgb,
    pub lavender: Rgb,
    pub text: Rgb,
    pub overlay2: Rgb,
    pub overlay1: Rgb,
    pub overlay0: Rgb,
    pub surface1: Rgb,
    pub surface0: Rgb,
    pub base: Rgb,
    pub mantle: Rgb,
    pub crust: Rgb,
}

/// The palette of the latte variant.
pub open spec fn catppuccin_latte_palette() -> CatppuccinPalette {
    CatppuccinPalette {
        rosewater: Rgb { r: 0xdc, g: 0x8a, b: 0x78 },
        flamingo: Rgb { r: 0xdd, g: 0x78, b: 0x78 },
        mauve: Rgb { r: 0x88, g: 0x39, b: 0xef },
        red: Rgb { r: 0xd2, g: 0x0f, b: 0x39 },
        maroon: Rgb { r: 0xe6, g: 0x45, b: 0x53 },
        peach: Rgb { r: 0xfe, g: 0x64, b: 0x0b },
        yellow: Rgb { r: 0xdf, g: 0x8e, b: 0x1d },
        green: Rgb { r: 0x40, g: 0xa0, b: 0x2b },
        teal: Rgb { r: 0x17, g: 0x92, b: 0x99 },
        sky: Rgb { r: 0x04, g: 0xa5, b: 0xe5 },
        blue: Rgb { r: 0x1e, g: 0x66, b: 0xf5 },
        lavender: Rgb { r: 0x72, g: 0x87, b: 0xfd },
        text: Rgb { r: 0x4c, g: 0x4f, b: 0x69 },
        overlay2: Rgb { r: 0x7c, g: 0x7f, b: 0x93 },
        overlay1: Rgb { r: 0x8c, g: 0x8f, b: 0xa1 },
        overlay0: Rgb { r: 0x9c, g: 0xa0, b: 0xb0 },
        surface1: Rgb { r: 0xbc, g: 0xc0, b: 0xcc },
        surface0: Rgb { r: 0xcc, g: 0xd0, b: 0xda },
        base: Rgb { r: 0xef, g: 0xf1, b: 0xf5 },
        mantle: Rgb { r: 0xe6, g: 0xe9, b: 0xef },
        crust: Rgb { r: 0xdc, g: 0xe0, b: 0xe8 },
    }
}

/// The palette of the frappe variant.
pub open spec fn catppuccin_frappe_palette() -> CatppuccinPalette {
    CatppuccinPalette {
        rosewater: Rgb { r: 0xf2, g: 0xd5, b: 0xcf },
        flamingo: Rgb { r: 0xee, g: 0xbe, b: 0xbe },
        mauve: Rgb { r: 0xca, g: 0x9e, b: 0xe6 },
        red: Rgb { r: 0xe7, g: 0x82, b: 0x84 },
        maroon: Rgb { r: 0xea, g: 0x99, b: 0x9c },
        peach: Rgb { r: 0xef, g: 0x9f, b: 0x76 },
        yellow: Rgb { r: 0xe5, g: 0xc8, b: 0x90 },
        green: Rgb { r: 0xa6, g: 0xd1, b: 0x89 },
        teal: Rgb { r: 0x81, g: 0xc8, b: 0xbe },
        sky: Rgb { r: 0x99, g: 0xd1, b: 0xdb },
        blue: Rgb { r: 0x8c, g: 0xaa, b: 0xee },
        lavender: Rgb { r: 0xba, g: 0xbb, b: 0xf1 },
        text: Rgb { r: 0xc6, g: 0xd0, b: 0xf5 },
        overlay2: Rgb { r: 0x94, g: 0x9c, b: 0xbb },
        overlay1: Rgb { r: 0x83, g: 0x8b, b: 0xa7 },
        overlay0: Rgb { r: 0x73, g: 0x79, b: 0x94 },
        surface1: Rgb { r: 0x51, g: 0x57, b: 0x6d },
        surface0: Rgb { r: 0x41, g: 0x45, b: 0x59 },
        base: Rgb { r: 0x30, g: 0x34, b: 0x46 },
        mantle: Rgb { r: 0x29, g: 0x2c, b: 0x3c },
        crust: Rgb { r: 0x23, g: 0x26, b: 0x34 },
    }
}

/// The palette of the macchiato variant.
pub open spec fn catppuccin_macchiato_palette() -> CatppuccinPalette {
    CatppuccinPalette {
        rosewater: Rgb { r: 0xf4, g: 0xdb, b: 0xd6 },
        flamingo: Rgb { r: 0xf0, g: 0xc6, b: 0xc6 },
        mauve: Rgb { r: 0xc6, g: 0xa0, b: 0xf6 },
        red: Rgb { r: 0xed, g: 0x87, b: 0x96 },
        maroon: Rgb { r: 0xee, g: 0x99, b: 0xa0 },
        peach: Rgb { r: 0xf5, g: 0xa9, b: 0x7f },
        yellow: Rgb { r: 0xee, g: 0xd4, b: 0x9f },
        green: Rgb { r: 0xa6, g: 0xda, b: 0x95 },
        teal: Rgb { r: 0x8b, g: 0xd5, b: 0xca },
        sky: Rgb { r: 0x91, g: 0xd7, b: 0xe3 },
        blue: Rgb { r: 0x8a, g: 0xad, b: 0xf4 },
        lavender: Rgb { r: 0xb7, g: 0xbd, b: 0xf8 },
        text: Rgb { r: 0xca, g: 0xd3, b: 0xf5 },
        overlay2: Rgb { r: 0x93, g: 0x9a, b: 0xb7 },
        overlay1: Rgb { r: 0x80, g: 0x87, b: 0xa2 },
        overlay0: Rgb { r: 0x6e, g: 0x73, b: 0x8d },
        surface1: Rgb { r: 0x49, g: 0x4d, b: 0x64 },
        surface0: Rgb { r: 0x36, g: 0x3a, b: 0x4f },
        base: Rgb { r: 0x24, g: 0x27, b: 0x3a },
        mantle: Rgb { r: 0x1e, g: 0x20, b: 0x30 },
        crust: Rgb { r: 0x18, g: 0x19, b: 0x26 },
    }
}

/// The palette of the mocha variant.
pub open spec fn catppuccin_mocha_palette() -> CatppuccinPalette {
    CatppuccinPalette {
        rosewater: Rgb { r: 0xf5, g: 0xe0, b: 0xdc },
        flamingo: Rgb { r: 0xf2, g: 0xcd, b: 0xcd },
        mauve: Rgb { r: 0xcb, g: 0xa6, b: 0xf7 },
        red: Rgb { r: 0xf3, g: 0x8b, b: 0xa8 },
        maroon: Rgb { r: 0xeb, g: 0xa0, b: 0xac },
        peach: Rgb { r: 0xfa, g: 0xb3, b: 0x87 },
        yellow: Rgb { r: 0xf9, g: 0xe2, b: 0xaf },
        green: Rgb { r: 0xa6, g: 0xe3, b: 0xa1 },
        teal: Rgb { r: 0x94, g: 0xe2, b: 0xd5 },
        sky: Rgb { r: 0x89, g: 0xdc, b: 0xeb },
        blue: Rgb { r: 0x89, g: 0xb4, b: 0xfa },
        lavender: Rgb { r: 0xb4, g: 0xbe, b: 0xfe },
        text: Rgb { r: 0xcd, g: 0xd6, b: 0xf4 },
        overlay2: Rgb { r: 0x93, g: 0x99, b: 0xb2 },
        overlay1: Rgb { r: 0x7f, g: 0x84, b: 0x9c },
        overlay0: Rgb { r: 0x6c, g: 0x70, b: 0x86 },
        surface1: Rgb { r: 0x45, g: 0x47, b: 0x5a },
        surface0: Rgb { r: 0x31, g: 0x32, b: 0x44 },
        base: Rgb { r: 0x1e, g: 0x1e, b: 0x2e },
        mantle: Rgb { r: 0x18, g: 0x18, b: 0x25 },
        crust: Rgb { r: 0x11, g: 0x11, b: 0x1b },
    }
}

/// The palette of a variant.
pub open spec fn catppuccin_palette(variant: CatppuccinVariant) -> CatppuccinPalette {
    match variant {
        CatppuccinVariant::Latte => catppuccin_latte_palette(),
        CatppuccinVariant::Frappe => catppuccin_frappe_palette(),
        CatppuccinVariant::Macchiato => catppuccin_macchiato_palette(),
        CatppuccinVariant::Mocha => catppuccin_mocha_palette(),
    }
}

impl CatppuccinPalette {
    /// Returns the palette of a variant.
    fn for_variant(variant: CatppuccinVariant) -> (p: Self)
        ensures
            p == catppuccin_palette(variant),
    {
        match variant {
            CatppuccinVariant::Latte => CatppuccinPalette::latte(),
            CatppuccinVariant::Frappe => CatppuccinPalette::frappe(),
            CatppuccinVariant::Macchiato => CatppuccinPalette::macchiato(),
            CatppuccinVariant::Mocha => CatppuccinPalette::mocha(),
        }
    }

    /// The palette of the latte variant.
    pub fn latte() -> (p: Self)
        ensures
            p == catppuccin_latte_palette(),
    {
        CatppuccinPalette {
            rosewater: Rgb { r: 0xdc, g: 0x8a, b: 0x78 },
            flamingo: Rgb { r: 0xdd, g: 0x78, b: 0x78 },
            mauve: Rgb { r: 0x88, g: 0x39, b: 0xef },
            red: Rgb { r: 0xd2, g: 0x0f, b: 0x39 },
            maroon: Rgb { r: 0xe6, g: 0x45, b: 0x53 },
            peach: Rgb { r: 0xfe, g: 0x64, b: 0x0b },
            yellow: Rgb { r: 0xdf, g: 0x8e, b: 0x1d },
            green: Rgb { r: 0x40, g: 0xa0, b: 0x2b },
            teal: Rgb { r: 0x17, g: 0x92, b: 0x99 },
            sky: Rgb { r: 0x04, g: 0xa5, b: 0xe5 },
            blue: Rgb { r: 0x1e, g: 0x66, b: 0xf5 },
            lavender: Rgb { r: 0x72, g: 0x87, b: 0xfd },
            text: Rgb { r: 0x4c, g: 0x4f, b: 0x69 },
            overlay2: Rgb { r: 0x7c, g: 0x7f, b: 0x93 },
            overlay1: Rgb { r: 0x8c, g: 0x8f, b: 0xa1 },
            overlay0: Rgb { r: 0x9c, g: 0xa0, b: 0xb0 },
            surface1: Rgb { r: 0xbc, g: 0xc0, b: 0xcc },
            surface0: Rgb { r: 0xcc, g: 0xd0, b: 0xda },
            base: Rgb { r: 0xef, g: 0xf1, b: 0xf5 },
            mantle: Rgb { r: 0xe6, g: 0xe9, b: 0xef },
            crust: Rgb { r: 0xdc, g: 0xe0, b: 0xe8 },
        }
    }

    /// The palette of the frappe variant.
    pub fn frappe() -> (p: Self)
        ensures
            p == catppuccin_frappe_palette(),
    {
        CatppuccinPalette {
            rosewater: Rgb { r: 0xf2, g: 0xd5, b: 0xcf },
            flamingo: Rgb { r: 0xee, g: 0xbe, b: 0xbe },
            mauve: Rgb { r: 0xca, g: 0x9e, b: 0xe6 },
            red: Rgb { r: 0xe7, g: 0x82, b: 0x84 },
            maroon: Rgb { r: 0xea, g: 0x99, b: 0x9c },
            peach: Rgb { r: 0xef, g: 0x9f, b: 0x76 },
            yellow: Rgb { r: 0xe5, g: 0xc8, b: 0x90 },
            green: Rgb { r: 0xa6, g: 0xd1, b: 0x89 },
            teal: Rgb { r: 0x81, g: 0xc8, b: 0xbe },
            sky: Rgb { r: 0x99, g: 0xd1, b: 0xdb },
            blue: Rgb { r: 0x8c, g: 0xaa, b: 0xee },
            lavender: Rgb { r: 0xba, g: 0xbb, b: 0xf1 },
            text: Rgb { r: 0xc6, g: 0xd0, b: 0xf5 },
            overlay2: Rgb { r: 0x94, g: 0x9c, b: 0xbb },
            overlay1: Rgb { r: 0x83, g: 0x8b, b: 0xa7 },
            overlay0: Rgb { r: 0x73, g: 0x79, b: 0x94 },
            surface1: Rgb { r: 0x51, g: 0x57, b: 0x6d },
            surface0: Rgb { r: 0x41, g: 0x45, b: 0x59 },
            base: Rgb { r: 0x30, g: 0x34, b: 0x46 },
            mantle: Rgb { r: 0x29, g: 0x2c, b: 0x3c },
            crust: Rgb { r: 0x23, g: 0x26, b: 0x34 },
        }
    }

    /// The palette of the macchiato variant.
    pub fn macchiato() -> (p: Self)
        ensures
            p == catppuccin_macchiato_palette(),
    {
        CatppuccinPalette {
            rosewater: Rgb { r: 0xf4, g: 0xdb, b: 0xd6 },
            flamingo: Rgb { r: 0xf0, g: 0xc6, b: 0xc6 },
            mauve: Rgb { r: 0xc6, g: 0xa0, b: 0xf6 },
            red: Rgb { r: 0xed, g: 0x87, b: 0x96 },
            maroon: Rgb { r: 0xee, g: 0x99, b: 0xa0 },
            peach: Rgb { r: 0xf5, g: 0xa9, b: 0x7f },
            yellow: Rgb { r: 0xee, g: 0xd4, b: 0x9f },
            green: Rgb { r: 0xa6, g: 0xda, b: 0x95 },
            teal: Rgb { r: 0x8b, g: 0xd5, b: 0xca },
            sky: Rgb { r: 0x91, g: 0xd7, b: 0xe3 },
            blue: Rgb { r: 0x8a, g: 0xad, b: 0xf4 },
            lavender: Rgb { r: 0xb7, g: 0xbd, b: 0xf8 },
            text: Rgb { r: 0xca, g: 0xd3, b: 0xf5 },
            overlay2: Rgb { r: 0x93, g: 0x9a, b: 0xb7 },
            overlay1: Rgb { r: 0x80, g: 0x87, b: 0xa2 },
            overlay0: Rgb { r: 0x6e, g: 0x73, b: 0x8d },
            surface1: Rgb { r: 0x49, g: 0x4d, b: 0x64 },
            surface0: Rgb { r: 0x36, g: 0x3a, b: 0x4f },
            base: Rgb { r: 0x24, g: 0x27, b: 0x3a },
            mantle: Rgb { r: 0x1e, g: 0x20, b: 0x30 },
            crust: Rgb { r: 0x18, g: 0x19, b: 0x26 },
        }
    }

    /// The palette of the mocha variant.
    pub fn mocha() -> (p: Self)
        ensures
            p == catppuccin_mocha_palette(),
    {
        CatppuccinPalette {
            rosewater: Rgb { r: 0xf5, g: 0xe0, b: 0xdc },
            flamingo: Rgb { r: 0xf2, g: 0xcd, b: 0xcd },
            mauve: Rgb { r: 0xcb, g: 0xa6, b: 0xf7 },
            red: Rgb { r: 0xf3, g: 0x8b, b: 0xa8 },
            maroon: Rgb { r: 0xeb, g: 0xa0, b: 0xac },
            peach: Rgb { r: 0xfa, g: 0xb3, b: 0x87 },
            yellow: Rgb { r: 0xf9, g: 0xe2, b: 0xaf },
            green: Rgb { r: 0xa6, g: 0xe3, b: 0xa1 },
            teal: Rgb { r: 0x94, g: 0xe2, b: 0xd5 },
            sky: Rgb { r: 0x89, g: 0xdc, b: 0xeb },
            blue: Rgb { r: 0x89, g: 0xb4, b: 0xfa },
            lavender: Rgb { r: 0xb4, g: 0xbe, b: 0xfe },
            text: Rgb { r: 0xcd, g: 0xd6, b: 0xf4 },
            overlay2: Rgb { r: 0x93, g: 0x99, b: 0xb2 },
            overlay1: Rgb { r: 0x7f, g: 0x84, b: 0x9c },
            overlay0: Rgb { r: 0x6c, g: 0x70, b: 0x86 },
            surface1: Rgb { r: 0x45, g: 0x47, b: 0x5a },
            surface0: Rgb { r: 0x31, g: 0x32, b: 0x44 },
            base: Rgb { r: 0x1e, g: 0x1e, b: 0x2e },
            mantle: Rgb { r: 0x18, g: 0x18, b: 0x25 },
            crust: Rgb { r: 0x11, g: 0x11, b: 0x1b },
        }
    }
}

/// The first 25 capture styles of `catppuccin_styles`, added to `m`.
pub open spec fn catppuccin_styles_group1(c: CatppuccinPalette, m: Map<Seq<char>, Style>) -> Map<Seq<char>, Style> {
    let normal_style = fg_bg_style(c.text, c.base);
    let comment_style = Style { fg: Some(c.overlay2), bg: None, bold: false, italic: true, underline: false };
    m
        .insert("normal"@, normal_style)
        .insert("selection"@, Style { fg: None, bg: Some(c.surface1), bold: true, italic: false, underline: false })
        .insert("statusline"@, fg_bg_style(c.text, c.mantle))
        .insert("ignore"@, fg_style(c.overlay0))
        .insert("warning"@, fg_style(c.yellow))
        .insert("error"@, fg_style(c.red))
        .insert("annotation"@, fg_style(c.peach))
        .insert("attribute"@, fg_style(c.peach))
        .insert("attribute.builtin"@, fg_style(c.peach))
        .insert("boolean"@, fg_style(c.peach))
        .insert("character"@, fg_style(c.teal))
        .insert("character.printf"@, fg_style(c.mauve))
        .insert("character.special"@, fg_style(c.mauve))
        .insert("comment"@, comment_style)
        .insert("comment.documentation"@, comment_style)
        .insert("comment.error"@, fg_bg_style(c.base, c.red))
        .insert("comment.warning"@, fg_bg_style(c.base, c.yellow))
        .insert("comment.hint"@, fg_bg_style(c.base, c.blue))
        .insert("comment.info"@, fg_bg_style(c.base, c.blue))
        .insert("comment.todo"@, fg_bg_style(c.base, c.flamingo))
        .insert("comment.note"@, fg_bg_style(c.base, c.rosewater))
        .insert("conceal"@, fg_style(c.overlay1))
        .insert("constant"@, fg_style(c.peach))
        .insert("constant.builtin"@, fg_style(c.peach))
        .insert("constant.macro"@, fg_style(c.mauve))
}

/// The next 25 capture styles of `catppuccin_styles`, added to `m`.
pub open spec fn catppuccin_styles_group2(c: CatppuccinPalette, m: Map<Seq<char>, Style>) -> Map<Seq<char>, Style> {
    let keyword_style = fg_style(c.mauve);
    m
        .insert("constructor"@, fg_style(c.yellow))
        .insert("constructor.tsx"@, fg_style(c.yellow))
        .insert("diff.plus"@, fg_style(c.green))
        .insert("diff.minus"@, fg_style(c.red))
        .insert("diff.delta"@, fg_style(c.blue))
        .insert("embedded"@, fg_style(c.text))
        .insert("function"@, fg_style(c.blue))
        .insert("function.call"@, fg_style(c.blue))
        .insert("function.method"@, fg_style(c.blue))
        .insert("function.method.call"@, fg_style(c.blue))
        .insert("function.builtin"@, fg_style(c.peach))
        .insert("function.macro"@, fg_style(c.mauve))
        .insert("keyword"@, keyword_style)
        .insert("keyword.modifier"@, keyword_style)
        .insert("keyword.type"@, keyword_style)
        .insert("keyword.coroutine"@, keyword_style)
        .insert("keyword.function"@, keyword_style)
        .insert("keyword.import"@, keyword_style)
        .insert("keyword.repeat"@, keyword_style)
        .insert("keyword.return"@, keyword_style)
        .insert("keyword.debug"@, keyword_style)
        .insert("keyword.exception"@, keyword_style)
        .insert("keyword.operator"@, keyword_style)
        .insert("keyword.storage"@, keyword_style)
        .insert("type.qualifier"@, keyword_style)
}

/// The next 25 capture styles of `catppuccin_styles`, added to `m`.
pub open spec fn catppuccin_styles_group3(c: CatppuccinPalette, m: Map<Seq<char>, Style>) -> Map<Seq<char>, Style> {
    let conditional_style = Style { fg: Some(c.mauve), bg: None, bold: false, italic: true, underline: false };
    m
        .insert("keyword.conditional"@, conditional_style)
        .insert("keyword.conditional.ternary"@, fg_style(c.sky))
        .insert("keyword.directive"@, fg_style(c.mauve))
        .insert("keyword.directive.define"@, fg_style(c.mauve))
        .insert("label"@, fg_style(c.sky))
        .insert("markup"@, fg_style(c.text))
        .insert("markup.heading"@, fg_style(c.blue))
        .insert("markup.heading.1"@, fg_style(c.red))
        .insert("markup.heading.2"@, fg_style(c.peach))
        .insert("markup.heading.3"@, fg_style(c.yellow))
        .insert("markup.heading.4"@, fg_style(c.green))
        .insert("markup.heading.5"@, fg_style(c.sky))
        .insert("markup.heading.6"@, fg_style(c.lavender))
        .insert("markup.heading.7"@, fg_style(c.blue))
        .insert("markup.heading.8"@, fg_style(c.blue))
        .insert("markup.italic"@, Style { fg: Some(c.red), bg: None, bold: false, italic: true, underline: false })
        .insert("markup.link"@, fg_style(c.lavender))
        .insert("markup.link.label"@, fg_style(c.lavender))
        .insert("markup.link.label.symbol"@, fg_style(c.lavender))
        .insert("markup.link.url"@, Style { fg: Some(c.blue), bg: None, bold: false, italic: true, underline: true })
        .insert("markup.list"@, fg_style(c.teal))
        .insert("markup.list.checked"@, fg_style(c.green))
        .insert("markup.list.unchecked"@, fg_style(c.overlay1))
        .insert("markup.list.markdown"@, fg_style(c.teal))
        .insert("markup.math"@, fg_style(c.blue))
}

/// The next 25 capture styles of `catppuccin_styles`, added to `m`.
pub open spec fn catppuccin_styles_group4(c: CatppuccinPalette, m: Map<Seq<char>, Style>) -> Map<Seq<char>, Style> {
    let normal_style = fg_bg_style(c.text, c.base);
    let module_style = Style { fg: Some(c.yellow), bg: None, bold: false, italic: true, underline: false };
    m
        .insert("markup.quote"@, fg_style(c.mauve))
        .insert("markup.raw"@, fg_style(c.green))
        .insert("markup.raw.block"@, fg_style(c.green))
        .insert("markup.raw.markdown_inline"@, fg_style(c.flamingo))
        .insert("markup.strikethrough"@, fg_style(c.text))
        .insert("markup.strong"@, Style { fg: Some(c.red), bg: None, bold: true, italic: false, underline: false })
        .insert("markup.underline"@, Style { fg: None, bg: None, bold: false, italic: false, underline: true })
        .insert("module"@, module_style)
        .insert("module.builtin"@, module_style)
        .insert("namespace.builtin"@, module_style)
        .insert("none"@, plain_style())
        .insert("nospell"@, normal_style)
        .insert("spell"@, normal_style)
        .insert("number"@, fg_style(c.peach))
        .insert("number.float"@, fg_style(c.peach))
        .insert("operator"@, fg_style(c.sky))
        .insert("property"@, fg_style(c.lavender))
        .insert("punctuation"@, fg_style(c.overlay2))
        .insert("punctuation.bracket"@, fg_style(c.overlay2))
        .insert("punctuation.delimiter"@, fg_style(c.overlay2))
        .insert("punctuation.special"@, fg_style(c.mauve))
        .insert("punctuation.special.markdown"@, fg_style(c.mauve))
        .insert("string"@, fg_style(c.green))
        .insert("string.documentation"@, fg_style(c.teal))
        .insert("string.regexp"@, fg_style(c.mauve))
}

/// The next 21 capture styles of `catppuccin_styles`, added to `m`.
pub open spec fn catppuccin_styles_group5(c: CatppuccinPalette, m: Map<Seq<char>, Style>) -> Map<Seq<char>, Style> {
    m
        .insert("string.escape"@, fg_style(c.mauve))
        .insert("string.special"@, fg_style(c.mauve))
        .insert("string.special.key"@, fg_style(c.mauve))
        .insert("string.special.path"@, fg_style(c.mauve))
        .insert("string.special.symbol"@, fg_style(c.flamingo))
        .insert("string.special.url"@, Style { fg: Some(c.blue), bg: None, bold: false, italic: true, underline: true })
        .insert("tag"@, fg_style(c.blue))
        .insert("tag.builtin"@, fg_style(c.blue))
        .insert("tag.attribute"@, Style { fg: Some(c.yellow), bg: None, bold: false, italic: true, underline: false })
        .insert("tag.delimiter"@, fg_style(c.teal))
        .insert("tag.delimiter.tsx"@, fg_style(c.teal))
        .insert("tag.javascript"@, fg_style(c.blue))
        .insert("tag.tsx"@, fg_style(c.blue))
        .insert("type"@, fg_style(c.yellow))
        .insert("type.builtin"@, fg_style(c.mauve))
        .insert("type.definition"@, fg_style(c.yellow))
        .insert("variable"@, fg_style(c.text))
        .insert("variable.builtin"@, fg_style(c.red))
        .insert("variable.member"@, fg_style(c.lavender))
        .insert("variable.parameter"@, fg_style(c.maroon))
        .insert("variable.parameter.builtin"@, fg_style(c.maroon))
}

/// The capture styles of a variant with the given palette.
pub open spec fn catppuccin_styles(c: CatppuccinPalette) -> Map<Seq<char>, Style> {
    catppuccin_styles_group5(c, catppuccin_styles_group4(c, catppuccin_styles_group3(c, catppuccin_styles_group2(c, catppuccin_styles_group1(c, Map::empty())))))
}

/// The UI-role styles of a variant with the given palette.
pub open spec fn catppuccin_ui(variant: CatppuccinVariant, c: CatppuccinPalette) -> Map<Seq<char>, Style> {
    let cursorline_bg = match variant { CatppuccinVariant::Latte => blended(c.mantle, 7, 10, c.base), _ => blended(c.surface0, 16, 25, c.base) };
    Map::empty()
        .insert("default_fg"@, fg_style(c.text))
        .insert("default_bg"@, bg_style(c.base))
        .insert("statusline"@, fg_bg_style(c.text, c.mantle))
        .insert("statusline_inactive"@, fg_bg_style(c.surface1, c.mantle))
        .insert("tab_active"@, fg_bg_style(c.text, c.base))
        .insert("tab_inactive"@, fg_bg_style(c.overlay0, c.crust))
        .insert("selection"@, Style { fg: None, bg: Some(c.surface1), bold: true, italic: false, underline: false })
        .insert("cursorline"@, bg_style(cursorline_bg))
}

/// Builds the Catppuccin theme of a variant.
#[verifier::rlimit(40)]
pub fn build_catppuccin_theme(variant: CatppuccinVariant) -> (t: Theme)
    ensures
        t.styles.key_seq().len() <= 121,
        t.styles@ == catppuccin_styles(catppuccin_palette(variant)),
        t.ui@ == catppuccin_ui(variant, catppuccin_palette(variant)),
{
    let c = CatppuccinPalette::for_variant(variant);
    let normal_style = Style::with_fg_bg(c.text, c.base);
    let keyword_style = Style::with_fg(c.mauve);
    let conditional_style = Style { fg: Some(c.mauve), bg: None, bold: false, italic: true, underline: false };
    let module_style = Style { fg: Some(c.yellow), bg: None, bold: false, italic: true, underline: false };
    let comment_style = Style { fg: Some(c.overlay2), bg: None, bold: false, italic: true, underline: false };
    let cursorline_bg = match variant { CatppuccinVariant::Latte => blend_ratio(c.mantle, 7, 10, c.base), _ => blend_ratio(c.surface0, 16, 25, c.base) };
    let mut styles = StyleMap::new();
    let mut ui = StyleMap::new();
    styles.put("normal", normal_style);
    styles.put("selection", Style { fg: None, bg: Some(c.surface1), bold: true, italic: false, underline: false });
    styles.put("statusline", Style::with_fg_bg(c.text, c.mantle));
    styles.put("ignore", Style::with_fg(c.overlay0));
    styles.put("warning", Style::with_fg(c.yellow));
    styles.put("error", Style::with_fg(c.red));
    styles.put("annotation", Style::with_fg(c.peach));
    styles.put("attribute", Style::with_fg(c.peach));
    styles.put("attribute.builtin", Style::with_fg(c.peach));
    styles.put("boolean", Style::with_fg(c.peach));
    styles.put("character", Style::with_fg(c.teal));
    styles.put("character.printf", Style::with_fg(c.mauve));
    styles.put("character.special", Style::with_fg(c.mauve));
    styles.put("comment", comment_style);
    styles.put("comment.documentation", comment_style);
    styles.put("comment.error", Style::with_fg_bg(c.base, c.red));
    styles.put("comment.warning", Style::with_fg_bg(c.base, c.yellow));
    styles.put("comment.hint", Style::with_fg_bg(c.base, c.blue));
    styles.put("comment.info", Style::with_fg_bg(c.base, c.blue));
    styles.put("comment.todo", Style::with_fg_bg(c.base, c.flamingo));
    styles.put("comment.note", Style::with_fg_bg(c.base, c.rosewater));
    styles.put("conceal", Style::with_fg(c.overlay1));
    styles.put("constant", Style::with_fg(c.peach));
    styles.put("constant.builtin", Style::with_fg(c.peach));
    styles.put("constant.macro", Style::with_fg(c.mauve));
    styles.put("constructor", Style::with_fg(c.yellow));
    styles.put("constructor.tsx", Style::with_fg(c.yellow));
    styles.put("diff.plus", Style::with_fg(c.green));
    styles.put("diff.minus", Style::with_fg(c.red));
    styles.put("diff.delta", Style::with_fg(c.blue));
    styles.put("embedded", Style::with_fg(c.text));
    styles.put("function", Style::with_fg(c.blue));
    styles.put("function.call", Style::with_fg(c.blue));
    styles.put("function.method", Style::with_fg(c.blue));
    styles.put("function.method.call", Style::with_fg(c.blue));
    styles.put("function.builtin", Style::with_fg(c.peach));
    styles.put("function.macro", Style::with_fg(c.mauve));
    styles.put("keyword", keyword_style);
    styles.put("keyword.modifier", keyword_style);
    styles.put("keyword.type", keyword_style);
    styles.put("keyword.coroutine", keyword_style);
    styles.put("keyword.function", keyword_style);
    styles.put("keyword.import", keyword_style);
    styles.put("keyword.repeat", keyword_style);
    styles.put("keyword.return", keyword_style);
    styles.put("keyword.debug", keyword_style);
    styles.put("keyword.exception", keyword_style);
    styles.put("keyword.operator", keyword_style);
    styles.put("keyword.storage", keyword_style);
    styles.put("type.qualifier", keyword_style);
    styles.put("keyword.conditional", conditional_style);
    styles.put("keyword.conditional.ternary", Style::with_fg(c.sky));
    styles.put("keyword.directive", Style::with_fg(c.mauve));
    styles.put("keyword.directive.define", Style::with_fg(c.mauve));
    styles.put("label", Style::with_fg(c.sky));
    styles.put("markup", Style::with_fg(c.text));
    styles.put("markup.heading", Style::with_fg(c.blue));
    styles.put("markup.heading.1", Style::with_fg(c.red));
    styles.put("markup.heading.2", Style::with_fg(c.peach));
    styles.put("markup.heading.3", Style::with_fg(c.yellow));
    styles.put("markup.heading.4", Style::with_fg(c.green));
    styles.put("markup.heading.5", Style::with_fg(c.sky));
    styles.put("markup.heading.6", Style::with_fg(c.lavender));
    styles.put("markup.heading.7", Style::with_fg(c.blue));
    styles.put("markup.heading.8", Style::with_fg(c.blue));
    styles.put("markup.italic", Style { fg: Some(c.red), bg: None, bold: false, italic: true, underline: false });
    styles.put("markup.link", Style::with_fg(c.lavender));
    styles.put("markup.link.label", Style::with_fg(c.lavender));
    styles.put("markup.link.label.symbol", Style::with_fg(c.lavender));
    styles.put("markup.link.url", Style { fg: Some(c.blue), bg: None, bold: false, italic: true, underline: true });
    styles.put("markup.list", Style::with_fg(c.teal));
    styles.put("markup.list.checked", Style::with_fg(c.green));
    styles.put("markup.list.unchecked", Style::with_fg(c.overlay1));
    styles.put("markup.list.markdown", Style::with_fg(c.teal));
    styles.put("markup.math", Style::with_fg(c.blue));
    styles.put("markup.quote", Style::with_fg(c.mauve));
    styles.put("markup.raw", Style::with_fg(c.green));
    styles.put("markup.raw.block", Style::with_fg(c.green));
    styles.put("markup.raw.markdown_inline", Style::with_fg(c.flamingo));
    styles.put("markup.strikethrough", Style::with_fg(c.text));
    styles.put("markup.strong", Style { fg: Some(c.red), bg: None, bold: true, italic: false, underline: false });
    styles.put("markup.underline", Style { fg: None, bg: None, bold: false, italic: false, underline: true });
    styles.put("module", module_style);
    styles.put("module.builtin", module_style);
    styles.put("namespace.builtin", module_style);
    styles.put("none", Style::plain());
    styles.put("nospell", normal_style);
    styles.put("spell", normal_style);
    styles.put("number", Style::with_fg(c.peach));
    styles.put("number.float", Style::with_fg(c.peach));
    styles.put("operator", Style::with_fg(c.sky));
    styles.put("property", Style::with_fg(c.lavender));
    styles.put("punctuation", Style::with_fg(c.overlay2));
    styles.put("punctuation.bracket", Style::with_fg(c.overlay2));
    styles.put("punctuation.delimiter", Style::with_fg(c.overlay2));
    styles.put("punctuation.special", Style::with_fg(c.mauve));
    styles.put("punctuation.special.markdown", Style::with_fg(c.mauve));
    styles.put("string", Style::with_fg(c.green));
    styles.put("string.documentation", Style::with_fg(c.teal));
    styles.put("string.regexp", Style::with_fg(c.mauve));
    styles.put("string.escape", Style::with_fg(c.mauve));
    styles.put("string.special", Style::with_fg(c.mauve));
    styles.put("string.special.key", Style::with_fg(c.mauve));
    styles.put("string.special.path", Style::with_fg(c.mauve));
    styles.put("string.special.symbol", Style::with_fg(c.flamingo));
    styles.put("string.special.url", Style { fg: Some(c.blue), bg: None, bold: false, italic: true, underline: true });
    styles.put("tag", Style::with_fg(c.blue));
    styles.put("tag.builtin", Style::with_fg(c.blue));
    styles.put("tag.attribute", Style { fg: Some(c.yellow), bg: None, bold: false, italic: true, underline: false });
    styles.put("tag.delimiter", Style::with_fg(c.teal));
    styles.put("tag.delimiter.tsx", Style::with_fg(c.teal));
    styles.put("tag.javascript", Style::with_fg(c.blue));
    styles.put("tag.tsx", Style::with_fg(c.blue));
    styles.put("type", Style::with_fg(c.yellow));
    styles.put("type.builtin", Style::with_fg(c.mauve));
    styles.put("type.definition", Style::with_fg(c.yellow));
    styles.put("variable", Style::with_fg(c.text));
    styles.put("variable.builtin", Style::with_fg(c.red));
    styles.put("variable.member", Style::with_fg(c.lavender));
    styles.put("variable.parameter", Style::with_fg(c.maroon));
    styles.put("variable.parameter.builtin", Style::with_fg(c.maroon));
    ui.put("default_fg", Style::with_fg(c.text));
    ui.put("default_bg", Style::with_bg(c.base));
    ui.put("statusline", Style::with_fg_bg(c.text, c.mantle));
    ui.put("statusline_inactive", Style::with_fg_bg(c.surface1, c.mantle));
    ui.put("tab_active", Style::with_fg_bg(c.text, c.base));
    ui.put("tab_inactive", Style::with_fg_bg(c.overlay0, c.crust));
    ui.put("selection", Style { fg: None, bg: Some(c.surface1), bold: true, italic: false, underline: false });
    ui.put("cursorline", Style::with_bg(cursorline_bg));
    Theme { styles, ui }
}

/// The style of every capture name in a Catppuccin theme (1 of 3).
pub proof fn lemma_catppuccin_styles_1(c: CatppuccinPalette)
    ensures
        catppuccin_styles(c).contains_key("normal"@),
        catppuccin_styles(c)["normal"@] == fg_bg_style(c.text, c.base),
        catppuccin_styles(c).contains_key("selection"@),
        catppuccin_styles(c)["selection"@] == (Style { fg: None, bg: Some(c.surface1), bold: true, italic: false, underline: false }),
        catppuccin_styles(c).contains_key("statusline"@),
        catppuccin_styles(c)["statusline"@] == fg_bg_style(c.text, c.mantle),
        catppuccin_styles(c).contains_key("ignore"@),
        catppuccin_styles(c)["ignore"@] == fg_style(c.overlay0),
        catppuccin_styles(c).contains_key("warning"@),
        catppuccin_styles(c)["warning"@] == fg_style(c.yellow),
        catppuccin_styles(c).contains_key("error"@),
        catppuccin_styles(c)["error"@] == fg_style(c.red),
        catppuccin_styles(c).contains_key("annotation"@),
        catppuccin_styles(c)["annotation"@] == fg_style(c.peach),
        catppuccin_styles(c).contains_key("attribute"@),
        catppuccin_styles(c)["attribute"@] == fg_style(c.peach),
        catppuccin_styles(c).contains_key("attribute.builtin"@),
        catppuccin_styles(c)["attribute.builtin"@] == fg_style(c.peach),
        catppuccin_styles(c).contains_key("boolean"@),
        catppuccin_styles(c)["boolean"@] == fg_style(c.peach),
        catppuccin_styles(c).contains_key("character"@),
        catppuccin_styles(c)["character"@] == fg_style(c.teal),
        catppuccin_styles(c).contains_key("character.printf"@),
        catppuccin_styles(c)["character.printf"@] == fg_style(c.mauve),
        catppuccin_styles(c).contains_key("character.special"@),
        catppuccin_styles(c)["character.special"@] == fg_style(c.mauve),
        catppuccin_styles(c).contains_key("comment"@),
        catppuccin_styles(c)["comment"@] == (Style { fg: Some(c.overlay2), bg: None, bold: false, italic: true, underline: false }),
        catppuccin_styles(c).contains_key("comment.documentation"@),
        catppuccin_styles(c)["comment.documentation"@] == (Style { fg: Some(c.overlay2), bg: None, bold: false, italic: true, underline: false }),
        catppuccin_styles(c).contains_key("comment.error"@),
        catppuccin_styles(c)["comment.error"@] == fg_bg_style(c.base, c.red),
        catppuccin_styles(c).contains_key("comment.warning"@),
        catppuccin_styles(c)["comment.warning"@] == fg_bg_style(c.base, c.yellow),
        catppuccin_styles(c).contains_key("comment.hint"@),
        catppuccin_styles(c)["comment.hint"@] == fg_bg_style(c.base, c.blue),
        catppuccin_styles(c).contains_key("comment.info"@),
        catppuccin_styles(c)["comment.info"@] == fg_bg_style(c.base, c.blue),
        catppuccin_styles(c).contains_key("comment.todo"@),
        catppuccin_styles(c)["comment.todo"@] == fg_bg_style(c.base, c.flamingo),
        catppuccin_styles(c).contains_key("comment.note"@),
        catppuccin_styles(c)["comment.note"@] == fg_bg_style(c.base, c.rosewater),
        catppuccin_styles(c).contains_key("conceal"@),
        catppuccin_styles(c)["conceal"@] == fg_style(c.overlay1),
        catppuccin_styles(c).contains_key("constant"@),
        catppuccin_styles(c)["constant"@] == fg_style(c.peach),
        catppuccin_styles(c).contains_key("constant.builtin"@),
        catppuccin_styles(c)["constant.builtin"@] == fg_style(c.peach),
        catppuccin_styles(c).contains_key("constant.macro"@),
        catppuccin_styles(c)["constant.macro"@] == fg_style(c.mauve),
        catppuccin_styles(c).contains_key("constructor"@),
        catppuccin_styles(c)["constructor"@] == fg_style(c.yellow),
        catppuccin_styles(c).contains_key("constructor.tsx"@),
        catppuccin_styles(c)["constructor.tsx"@] == fg_style(c.yellow),
        catppuccin_styles(c).contains_key("diff.plus"@),
        catppuccin_styles(c)["diff.plus"@] == fg_style(c.green),
        catppuccin_styles(c).contains_key("diff.minus"@),
        catppuccin_styles(c)["diff.minus"@] == fg_style(c.red),
        catppuccin_styles(c).contains_key("diff.delta"@),
        catppuccin_styles(c)["diff.delta"@] == fg_style(c.blue),
        catppuccin_styles(c).contains_key("embedded"@),
        catppuccin_styles(c)["embedded"@] == fg_style(c.text),
        catppuccin_styles(c).contains_key("function"@),
        catppuccin_styles(c)["function"@] == fg_style(c.blue),
        catppuccin_styles(c).contains_key("function.call"@),
        catppuccin_styles(c)["function.call"@] == fg_style(c.blue),
        catppuccin_styles(c).contains_key("function.method"@),
        catppuccin_styles(c)["function.method"@] == fg_style(c.blue),
        catppuccin_styles(c).contains_key("function.method.call"@),
        catppuccin_styles(c)["function.method.call"@] == fg_style(c.blue),
        catppuccin_styles(c).contains_key("function.builtin"@),
        catppuccin_styles(c)["function.builtin"@] == fg_style(c.peach),
        catppuccin_styles(c).contains_key("function.macro"@),
        catppuccin_styles(c)["function.macro"@] == fg_style(c.mauve),
        catppuccin_styles(c).contains_key("keyword"@),
        catppuccin_styles(c)["keyword"@] == fg_style(c.mauve),
        catppuccin_styles(c).contains_key("keyword.modifier"@),
        catppuccin_styles(c)["keyword.modifier"@] == fg_style(c.mauve),
        catppuccin_styles(c).contains_key("keyword.type"@),
        catppuccin_styles(c)["keyword.type"@] == fg_style(c.mauve),
        catppuccin_styles(c).contains_key("keyword.coroutine"@),
        catppuccin_styles(c)["keyword.coroutine"@] == fg_style(c.mauve),
        catppuccin_styles(c).contains_key("keyword.function"@),
        catppuccin_styles(c)["keyword.function"@] == fg_style(c.mauve),
        catppuccin_styles(c).contains_key("keyword.import"@),
        catppuccin_styles(c)["keyword.import"@] == fg_style(c.mauve),
        catppuccin_styles(c).contains_key("keyword.repeat"@),
        catppuccin_styles(c)["keyword.repeat"@] == fg_style(c.mauve),
        catppuccin_styles(c).contains_key("keyword.return"@),
        catppuccin_styles(c)["keyword.return"@] == fg_style(c.mauve),
{
    reveal_strlit("normal");
    assert("normal"@.len() == 6);
    reveal_strlit("selection");
    assert("selection"@.len() == 9);
    reveal_strlit("statusline");
    assert("statusline"@.len() == 10);
    reveal_strlit("ignore");
    assert("normal"@[0] != "ignore"@[0]);
    reveal_strlit("warning");
    assert("warning"@.len() == 7);
    reveal_strlit("error");
    assert("error"@.len() == 5);
    reveal_strlit("annotation");
    assert("annotation"@.len() == 10);
    reveal_strlit("attribute");
    assert("attribute"@.len() == 9);
    reveal_strlit("attribute.builtin");
    assert("attribute.builtin"@.len() == 17);
    reveal_strlit("boolean");
    assert("boolean"@.len() == 7);
    reveal_strlit("character");
    assert("character"@.len() == 9);
    reveal_strlit("character.printf");
    assert("character.printf"@.len() == 16);
    reveal_strlit("character.special");
    assert("character.special"@.len() == 17);
    reveal_strlit("comment");
    assert("comment"@.len() == 7);
    reveal_strlit("comment.documentation");
    assert("comment.documentation"@.len() == 21);
    reveal_strlit("comment.error");
    assert("comment.error"@.len() == 13);
    reveal_strlit("comment.warning");
    assert("comment.warning"@.len() == 15);
    reveal_strlit("comment.hint");
    assert("comment.hint"@.len() == 12);
    reveal_strlit("comment.info");
    assert("comment.info"@.len() == 12);
    reveal_strlit("comment.todo");
    assert("comment.todo"@.len() == 12);
    reveal_strlit("comment.note");
    assert("comment.note"@.len() == 12);
    reveal_strlit("conceal");
    assert("conceal"@.len() == 7);
    reveal_strlit("constant");
    assert("constant"@.len() == 8);
    reveal_strlit("constant.builtin");
    assert("constant.builtin"@.len() == 16);
    reveal_strlit("constant.macro");
    assert("constant.macro"@.len() == 14);
    reveal_strlit("constructor");
    assert("constructor"@.len() == 11);
    reveal_strlit("constructor.tsx");
    assert("constructor.tsx"@.len() == 15);
    reveal_strlit("diff.plus");
    assert("diff.plus"@.len() == 9);
    reveal_strlit("diff.minus");
    assert("diff.minus"@.len() == 10);
    reveal_strlit("diff.delta");
    assert("diff.delta"@.len() == 10);
    reveal_strlit("embedded");
    assert("embedded"@.len() == 8);
    reveal_strlit("function");
    assert("function"@.len() == 8);
    reveal_strlit("function.call");
    assert("function.call"@.len() == 13);
    reveal_strlit("function.method");
    assert("function.method"@.len() == 15);
    reveal_strlit("function.method.call");
    assert("function.method.call"@.len() == 20);
    reveal_strlit("function.builtin");
    assert("function.builtin"@.len() == 16);
    reveal_strlit("function.macro");
    assert("function.macro"@.len() == 14);
    reveal_strlit("keyword");
    assert("keyword"@.len() == 7);
    reveal_strlit("keyword.modifier");
    assert("keyword.modifier"@.len() == 16);
    reveal_strlit("keyword.type");
    assert("keyword.type"@.len() == 12);
    reveal_strlit("keyword.coroutine");
    assert("keyword.coroutine"@.len() == 17);
    reveal_strlit("keyword.function");
    assert("keyword.function"@.len() == 16);
    reveal_strlit("keyword.import");
    assert("keyword.import"@.len() == 14);
    reveal_strlit("keyword.repeat");
    assert("keyword.repeat"@.len() == 14);
    reveal_strlit("keyword.return");
    assert("keyword.return"@.len() == 14);
    reveal_strlit("keyword.debug");
    assert("keyword.debug"@.len() == 13);
    reveal_strlit("keyword.exception");
    assert("keyword.exception"@.len() == 17);
    reveal_strlit("keyword.operator");
    assert("keyword.operator"@.len() == 16);
    reveal_strlit("keyword.storage");
    assert("keyword.storage"@.len() == 15);
    reveal_strlit("type.qualifier");
    assert("type.qualifier"@.len() == 14);
    reveal_strlit("keyword.conditional");
    assert("keyword.conditional"@.len() == 19);
    reveal_strlit("keyword.conditional.ternary");
    assert("keyword.conditional.ternary"@.len() == 27);
    reveal_strlit("keyword.directive");
    assert("keyword.directive"@.len() == 17);
    reveal_strlit("keyword.directive.define");
    assert("keyword.directive.define"@.len() == 24);
    reveal_strlit("label");
    assert("label"@.len() == 5);
    reveal_strlit("markup");
    assert("normal"@[0] != "markup"@[0]);
    reveal_strlit("markup.heading");
    assert("markup.heading"@.len() == 14);
    reveal_strlit("markup.heading.1");
    assert("markup.heading.1"@.len() == 16);
    reveal_strlit("markup.heading.2");
    assert("markup.heading.2"@.len() == 16);
    reveal_strlit("markup.heading.3");
    assert("markup.heading.3"@.len() == 16);
    reveal_strlit("markup.heading.4");
    assert("markup.heading.4"@.len() == 16);
    reveal_strlit("markup.heading.5");
    assert("markup.heading.5"@.len() == 16);
    reveal_strlit("markup.heading.6");
    assert("markup.heading.6"@.len() == 16);
    reveal_strlit("markup.heading.7");
    assert("markup.heading.7"@.len() == 16);
    reveal_strlit("markup.heading.8");
    assert("markup.heading.8"@.len() == 16);
    reveal_strlit("markup.italic");
    assert("markup.italic"@.len() == 13);
    reveal_strlit("markup.link");
    assert("markup.link"@.len() == 11);
    reveal_strlit("markup.link.label");
    assert("markup.link.label"@.len() == 17);
    reveal_strlit("markup.link.label.symbol");
    assert("markup.link.label.symbol"@.len() == 24);
    reveal_strlit("markup.link.url");
    assert("markup.link.url"@.len() == 15);
    reveal_strlit("markup.list");
    assert("markup.list"@.len() == 11);
    reveal_strlit("markup.list.checked");
    assert("markup.list.checked"@.len() == 19);
    reveal_strlit("markup.list.unchecked");
    assert("markup.list.unchecked"@.len() == 21);
    reveal_strlit("markup.list.markdown");
    assert("markup.list.markdown"@.len() == 20);
    reveal_strlit("markup.math");
    assert("markup.math"@.len() == 11);
    reveal_strlit("markup.quote");
    assert("markup.quote"@.len() == 12);
    reveal_strlit("markup.raw");
    assert("markup.raw"@.len() == 10);
    reveal_strlit("markup.raw.block");
    assert("markup.raw.block"@.len() == 16);
    reveal_strlit("markup.raw.markdown_inline");
    assert("markup.raw.markdown_inline"@.len() == 26);
    reveal_strlit("markup.strikethrough");
    assert("markup.strikethrough"@.len() == 20);
    reveal_strlit("markup.strong");
    assert("markup.strong"@.len() == 13);
    reveal_strlit("markup.underline");
    assert("markup.underline"@.len() == 16);
    reveal_strlit("module");
    assert("normal"@[0] != "module"@[0]);
    reveal_strlit("module.builtin");
    assert("module.builtin"@.len() == 14);
    reveal_strlit("namespace.builtin");
    assert("namespace.builtin"@.len() == 17);
    reveal_strlit("none");
    assert("none"@.len() == 4);
    reveal_strlit("nospell");
    assert("nospell"@.len() == 7);
    reveal_strlit("spell");
    assert("spell"@.len() == 5);
    reveal_strlit("number");
    assert("normal"@[1] != "number"@[1]);
    reveal_strlit("number.float");
    assert("number.float"@.len() == 12);
    reveal_strlit("operator");
    assert("operator"@.len() == 8);
    reveal_strlit("property");
    assert("property"@.len() == 8);
    reveal_strlit("punctuation");
    assert("punctuation"@.len() == 11);
    reveal_strlit("punctuation.bracket");
    assert("punctuation.bracket"@.len() == 19);
    reveal_strlit("punctuation.delimiter");
    assert("punctuation.delimiter"@.len() == 21);
    reveal_strlit("punctuation.special");
    assert("punctuation.special"@.len() == 19);
    reveal_strlit("punctuation.special.markdown");
    assert("punctuation.special.markdown"@.len() == 28);
    reveal_strlit("string");
    assert("normal"@[0] != "string"@[0]);
    reveal_strlit("string.documentation");
    assert("string.documentation"@.len() == 20);
    reveal_strlit("string.regexp");
    assert("string.regexp"@.len() == 13);
    reveal_strlit("string.escape");
    assert("string.escape"@.len() == 13);
    reveal_strlit("string.special");
    assert("string.special"@.len() == 14);
    reveal_strlit("string.special.key");
    assert("string.special.key"@.len() == 18);
    reveal_strlit("string.special.path");
    assert("string.special.path"@.len() == 19);
    reveal_strlit("string.special.symbol");
    assert("string.special.symbol"@.len() == 21);
    reveal_strlit("string.special.url");
    assert("string.special.url"@.len() == 18);
    reveal_strlit("tag");
    assert("tag"@.len() == 3);
    reveal_strlit("tag.builtin");
    assert("tag.builtin"@.len() == 11);
    reveal_strlit("tag.attribute");
    assert("tag.attribute"@.len() == 13);
    reveal_strlit("tag.delimiter");
    assert("tag.delimiter"@.len() == 13);
    reveal_strlit("tag.delimiter.tsx");
    assert("tag.delimiter.tsx"@.len() == 17);
    reveal_strlit("tag.javascript");
    assert("tag.javascript"@.len() == 14);
    reveal_strlit("tag.tsx");
    assert("tag.tsx"@.len() == 7);
    reveal_strlit("type");
    assert("type"@.len() == 4);
    reveal_strlit("type.builtin");
    assert("type.builtin"@.len() == 12);
    reveal_strlit("type.definition");
    assert("type.definition"@.len() == 15);
    reveal_strlit("variable");
    assert("variable"@.len() == 8);
    reveal_strlit("variable.builtin");
    assert("variable.builtin"@.len() == 16);
    reveal_strlit("variable.member");
    assert("variable.member"@.len() == 15);
    reveal_strlit("variable.parameter");
    assert("variable.parameter"@.len() == 18);
    reveal_strlit("variable.parameter.builtin");
    assert("variable.parameter.builtin"@.len() == 26);
    assert("ignore"@.len() == 6);
    assert("selection"@[0] != "attribute"@[0]);
    assert("selection"@[0] != "character"@[0]);
    assert("selection"@[0] != "diff.plus"@[0]);
    assert("markup"@.len() == 6);
    assert("module"@.len() == 6);
    assert("number"@.len() == 6);
    assert("string"@.len() == 6);
    assert("statusline"@[0] != "annotation"@[0]);
    assert("statusline"@[0] != "diff.minus"@[0]);
    assert("statusline"@[0] != "diff.delta"@[0]);
    assert("statusline"@[0] != "markup.raw"@[0]);
    assert("ignore"@[0] != "markup"@[0]);
    assert("ignore"@[0] != "module"@[0]);
    assert("ignore"@[0] != "number"@[0]);
    assert("ignore"@[0] != "string"@[0]);
    assert("warning"@[0] != "boolean"@[0]);
    assert("warning"@[0] != "comment"@[0]);
    assert("warning"@[0] != "conceal"@[0]);
    assert("warning"@[0] != "keyword"@[0]);
    assert("warning"@[0] != "nospell"@[0]);
    assert("warning"@[0] != "tag.tsx"@[0]);
    assert("error"@[0] != "label"@[0]);
    assert("error"@[0] != "spell"@[0]);
    assert("annotation"@[0] != "diff.minus"@[0]);
    assert("annotation"@[0] != "diff.delta"@[0]);
    assert("annotation"@[0] != "markup.raw"@[0]);
    assert("attribute"@[0] != "character"@[0]);
    assert("attribute"@[0] != "diff.plus"@[0]);
    assert("attribute.builtin"@[0] != "character.special"@[0]);
    assert("attribute.builtin"@[0] != "keyword.coroutine"@[0]);
    assert("attribute.builtin"@[0] != "keyword.exception"@[0]);
    assert("attribute.builtin"@[0] != "keyword.directive"@[0]);
    assert("attribute.builtin"@[0] != "markup.link.label"@[0]);
    assert("attribute.builtin"@[0] != "namespace.builtin"@[0]);
    assert("attribute.builtin"@[0] != "tag.delimiter.tsx"@[0]);
    assert("boolean"@[0] != "comment"@[0]);
    assert("boolean"@[0] != "conceal"@[0]);
    assert("boolean"@[0] != "keyword"@[0]);
    assert("boolean"@[0] != "nospell"@[0]);
    assert("boolean"@[0] != "tag.tsx"@[0]);
    assert("character"@[0] != "diff.plus"@[0]);
    assert("character.printf"@[1] != "constant.builtin"@[1]);
    assert("character.printf"@[0] != "function.builtin"@[0]);
    assert("character.printf"@[0] != "keyword.modifier"@[0]);
    assert("character.printf"@[0] != "keyword.function"@[0]);
    assert("character.printf"@[0] != "keyword.operator"@[0]);
    assert("character.printf"@[0] != "markup.heading.1"@[0]);
    assert("character.printf"@[0] != "markup.heading.2"@[0]);
    assert("character.printf"@[0] != "markup.heading.3"@[0]);
    assert("character.printf"@[0] != "markup.heading.4"@[0]);
    assert("character.printf"@[0] != "markup.heading.5"@[0]);
    assert("character.printf"@[0] != "markup.heading.6"@[0]);
    assert("character.printf"@[0] != "markup.heading.7"@[0]);
    assert("character.printf"@[0] != "markup.heading.8"@[0]);
    assert("character.printf"@[0] != "markup.raw.block"@[0]);
    assert("character.printf"@[0] != "markup.underline"@[0]);
    assert("character.printf"@[0] != "variable.builtin"@[0]);
    assert("character.special"@[0] != "keyword.coroutine"@[0]);
    assert("character.special"@[0] != "keyword.exception"@[0]);
    assert("character.special"@[0] != "keyword.directive"@[0]);
    assert("character.special"@[0] != "markup.link.label"@[0]);
    assert("character.special"@[0] != "namespace.builtin"@[0]);
    assert("character.special"@[0] != "tag.delimiter.tsx"@[0]);
    assert("comment"@[2] != "conceal"@[2]);
    assert("comment"@[0] != "keyword"@[0]);
    assert("comment"@[0] != "nospell"@[0]);
    assert("comment"@[0] != "tag.tsx"@[0]);
    assert("comment.documentation"@[0] != "markup.list.unchecked"@[0]);
    assert("comment.documentation"@[0] != "punctuation.delimiter"@[0]);
    assert("comment.documentation"@[0] != "string.special.symbol"@[0]);
    assert("comment.error"@[0] != "function.call"@[0]);
    assert("comment.error"@[0] != "keyword.debug"@[0]);
    assert("comment.error"@[0] != "markup.italic"@[0]);
    assert("comment.error"@[0] != "markup.strong"@[0]);
    assert("comment.error"@[0] != "string.regexp"@[0]);
    assert("comment.error"@[0] != "string.escape"@[0]);
    assert("comment.error"@[0] != "tag.attribute"@[0]);
    assert("comment.error"@[0] != "tag.delimiter"@[0]);
    assert("comment.warning"@[2] != "constructor.tsx"@[2]);
    assert("comment.warning"@[0] != "function.method"@[0]);
    assert("comment.warning"@[0] != "keyword.storage"@[0]);
    assert("comment.warning"@[0] != "markup.link.url"@[0]);
    assert("comment.warning"@[0] != "type.definition"@[0]);
    assert("comment.warning"@[0] != "variable.member"@[0]);
    assert("comment.hint"@[8] != "comment.info"@[8]);
    assert("comment.hint"@[8] != "comment.todo"@[8]);
    assert("comment.hint"@[8] != "comment.note"@[8]);
    assert("comment.hint"@[0] != "keyword.type"@[0]);
    assert("comment.hint"@[0] != "markup.quote"@[0]);
    assert("comment.hint"@[0] != "number.float"@[0]);
    assert("comment.hint"@[0] != "type.builtin"@[0]);
    assert("comment.info"@[8] != "comment.todo"@[8]);
    assert("comment.info"@[8] != "comment.note"@[8]);
    assert("comment.info"@[0] != "keyword.type"@[0]);
    assert("comment.info"@[0] != "markup.quote"@[0]);
    assert("comment.info"@[0] != "number.float"@[0]);
    assert("comment.info"@[0] != "type.builtin"@[0]);
    assert("comment.todo"@[8] != "comment.note"@[8]);
    assert("comment.todo"@[0] != "keyword.type"@[0]);
    assert("comment.todo"@[0] != "markup.quote"@[0]);
    assert("comment.todo"@[0] != "number.float"@[0]);
    assert("comment.todo"@[0] != "type.builtin"@[0]);
    assert("comment.note"@[0] != "keyword.type"@[0]);
    assert("comment.note"@[0] != "markup.quote"@[0]);
    assert("comment.note"@[0] != "number.float"@[0]);
    assert("comment.note"@[0] != "type.builtin"@[0]);
    assert("conceal"@[0] != "keyword"@[0]);
    assert("conceal"@[0] != "nospell"@[0]);
    assert("conceal"@[0] != "tag.tsx"@[0]);
    assert("constant"@[0] != "embedded"@[0]);
    assert("constant"@[0] != "function"@[0]);
    assert("constant"@[0] != "operator"@[0]);
    assert("constant"@[0] != "property"@[0]);
    assert("constant"@[0] != "variable"@[0]);
    assert("constant.builtin"@[0] != "function.builtin"@[0]);
    assert("constant.builtin"@[0] != "keyword.modifier"@[0]);
    assert("constant.builtin"@[0] != "keyword.function"@[0]);
    assert("constant.builtin"@[0] != "keyword.operator"@[0]);
    assert("constant.builtin"@[0] != "markup.heading.1"@[0]);
    assert("constant.builtin"@[0] != "markup.heading.2"@[0]);
    assert("constant.builtin"@[0] != "markup.heading.3"@[0]);
    assert("constant.builtin"@[0] != "markup.heading.4"@[0]);
    assert("constant.builtin"@[0] != "markup.heading.5"@[0]);
    assert("constant.builtin"@[0] != "markup.heading.6"@[0]);
    assert("constant.builtin"@[0] != "markup.heading.7"@[0]);
    assert("constant.builtin"@[0] != "markup.heading.8"@[0]);
    assert("constant.builtin"@[0] != "markup.raw.block"@[0]);
    assert("constant.builtin"@[0] != "markup.underline"@[0]);
    assert("constant.builtin"@[0] != "variable.builtin"@[0]);
    assert("constant.macro"@[0] != "function.macro"@[0]);
    assert("constant.macro"@[0] != "keyword.import"@[0]);
    assert("constant.macro"@[0] != "keyword.repeat"@[0]);
    assert("constant.macro"@[0] != "keyword.return"@[0]);
    assert("constant.macro"@[0] != "type.qualifier"@[0]);
    assert("constant.macro"@[0] != "markup.heading"@[0]);
    assert("constant.macro"@[0] != "module.builtin"@[0]);
    assert("constant.macro"@[0] != "string.special"@[0]);
    assert("constant.macro"@[0] != "tag.javascript"@[0]);
    assert("constructor"@[0] != "markup.link"@[0]);
    assert("constructor"@[0] != "markup.list"@[0]);
    assert("constructor"@[0] != "markup.math"@[0]);
    assert("constructor"@[0] != "punctuation"@[0]);
    assert("constructor"@[0] != "tag.builtin"@[0]);
    assert("constructor.tsx"@[0] != "function.method"@[0]);
    assert("constructor.tsx"@[0] != "keyword.storage"@[0]);
    assert("constructor.tsx"@[0] != "markup.link.url"@[0]);
    assert("constructor.tsx"@[0] != "type.definition"@[0]);
    assert("constructor.tsx"@[0] != "variable.member"@[0]);
    assert("diff.minus"@[5] != "diff.delta"@[5]);
    assert("diff.minus"@[0] != "markup.raw"@[0]);
    assert("diff.delta"@[0] != "markup.raw"@[0]);
    assert("embedded"@[0] != "function"@[0]);
    assert("embedded"@[0] != "operator"@[0]);
    assert("embedded"@[0] != "property"@[0]);
    assert("embedded"@[0] != "variable"@[0]);
    assert("function"@[0] != "operator"@[0]);
    assert("function"@[0] != "property"@[0]);
    assert("function"@[0] != "variable"@[0]);
    assert("function.call"@[0] != "keyword.debug"@[0]);
    assert("function.call"@[0] != "markup.italic"@[0]);
    assert("function.call"@[0] != "markup.strong"@[0]);
    assert("function.call"@[0] != "string.regexp"@[0]);
    assert("function.call"@[0] != "string.escape"@[0]);
    assert("function.call"@[0] != "tag.attribute"@[0]);
    assert("function.call"@[0] != "tag.delimiter"@[0]);
    assert("function.method"@[0] != "keyword.storage"@[0]);
    assert("function.method"@[0] != "markup.link.url"@[0]);
    assert("function.method"@[0] != "type.definition"@[0]);
    assert("function.method"@[0] != "variable.member"@[0]);
    assert("function.method.call"@[0] != "markup.list.markdown"@[0]);
    assert("function.method.call"@[0] != "markup.strikethrough"@[0]);
    assert("function.method.call"@[0] != "string.documentation"@[0]);
    assert("function.builtin"@[0] != "keyword.modifier"@[0]);
    assert("function.builtin"@[0] != "keyword.function"@[0]);
    assert("function.builtin"@[0] != "keyword.operator"@[0]);
    assert("function.builtin"@[0] != "markup.heading.1"@[0]);
    assert("function.builtin"@[0] != "markup.heading.2"@[0]);
    assert("function.builtin"@[0] != "markup.heading.3"@[0]);
    assert("function.builtin"@[0] != "markup.heading.4"@[0]);
    assert("function.builtin"@[0] != "markup.heading.5"@[0]);
    assert("function.builtin"@[0] != "markup.heading.6"@[0]);
    assert("function.builtin"@[0] != "markup.heading.7"@[0]);
    assert("function.builtin"@[0] != "markup.heading.8"@[0]);
    assert("function.builtin"@[0] != "markup.raw.block"@[0]);
    assert("function.builtin"@[0] != "markup.underline"@[0]);
    assert("function.builtin"@[0] != "variable.builtin"@[0]);
    assert("function.macro"@[0] != "keyword.import"@[0]);
    assert("function.macro"@[0] != "keyword.repeat"@[0]);
    assert("function.macro"@[0] != "keyword.return"@[0]);
    assert("function.macro"@[0] != "type.qualifier"@[0]);
    assert("function.macro"@[0] != "markup.heading"@[0]);
    assert("function.macro"@[0] != "module.builtin"@[0]);
    assert("function.macro"@[0] != "string.special"@[0]);
    assert("function.macro"@[0] != "tag.javascript"@[0]);
    assert("keyword"@[0] != "nospell"@[0]);
    assert("keyword"@[0] != "tag.tsx"@[0]);
    assert("keyword.modifier"@[8] != "keyword.function"@[8]);
    assert("keyword.modifier"@[8] != "keyword.operator"@[8]);
    assert("keyword.modifier"@[0] != "markup.heading.1"@[0]);
    assert("keyword.modifier"@[0] != "markup.heading.2"@[0]);
    assert("keyword.modifier"@[0] != "markup.heading.3"@[0]);
    assert("keyword.modifier"@[0] != "markup.heading.4"@[0]);
    assert("keyword.modifier"@[0] != "markup.heading.5"@[0]);
    assert("keyword.modifier"@[0] != "markup.heading.6"@[0]);
    assert("keyword.modifier"@[0] != "markup.heading.7"@[0]);
    assert("keyword.modifier"@[0] != "markup.heading.8"@[0]);
    assert("keyword.modifier"@[0] != "markup.raw.block"@[0]);
    assert("keyword.modifier"@[0] != "markup.underline"@[0]);
    assert("keyword.modifier"@[0] != "variable.builtin"@[0]);
    assert("keyword.type"@[0] != "markup.quote"@[0]);
    assert("keyword.type"@[0] != "number.float"@[0]);
    assert("keyword.type"@[0] != "type.builtin"@[0]);
    assert("keyword.coroutine"@[8] != "keyword.exception"@[8]);
    assert("keyword.coroutine"@[8] != "keyword.directive"@[8]);
    assert("keyword.coroutine"@[0] != "markup.link.label"@[0]);
    assert("keyword.coroutine"@[0] != "namespace.builtin"@[0]);
    assert("keyword.coroutine"@[0] != "tag.delimiter.tsx"@[0]);
    assert("keyword.function"@[8] != "keyword.operator"@[8]);
    assert("keyword.function"@[0] != "markup.heading.1"@[0]);
    assert("keyword.function"@[0] != "markup.heading.2"@[0]);
    assert("keyword.function"@[0] != "markup.heading.3"@[0]);
    assert("keyword.function"@[0] != "markup.heading.4"@[0]);
    assert("keyword.function"@[0] != "markup.heading.5"@[0]);
    assert("keyword.function"@[0] != "markup.heading.6"@[0]);
    assert("keyword.function"@[0] != "markup.heading.7"@[0]);
    assert("keyword.function"@[0] != "markup.heading.8"@[0]);
    assert("keyword.function"@[0] != "markup.raw.block"@[0]);
    assert("keyword.function"@[0] != "markup.underline"@[0]);
    assert("keyword.function"@[0] != "variable.builtin"@[0]);
    assert("keyword.import"@[8] != "keyword.repeat"@[8]);
    assert("keyword.import"@[8] != "keyword.return"@[8]);
    assert("keyword.import"@[0] != "type.qualifier"@[0]);
    assert("keyword.import"@[0] != "markup.heading"@[0]);
    assert("keyword.import"@[0] != "module.builtin"@[0]);
    assert("keyword.import"@[0] != "string.special"@[0]);
    assert("keyword.import"@[0] != "tag.javascript"@[0]);
    assert("keyword.repeat"@[10] != "keyword.return"@[10]);
    assert("keyword.repeat"@[0] != "type.qualifier"@[0]);
    assert("keyword.repeat"@[0] != "markup.heading"@[0]);
    assert("keyword.repeat"@[0] != "module.builtin"@[0]);
    assert("keyword.repeat"@[0] != "string.special"@[0]);
    assert("keyword.repeat"@[0] != "tag.javascript"@[0]);
    assert("keyword.return"@[0] != "type.qualifier"@[0]);
    assert("keyword.return"@[0] != "markup.heading"@[0]);
    assert("keyword.return"@[0] != "module.builtin"@[0]);
    assert("keyword.return"@[0] != "string.special"@[0]);
    assert("keyword.return"@[0] != "tag.javascript"@[0]);
    let m1 = catppuccin_styles_group1(c, Map::empty());
    assert(m1.contains_key("normal"@) && m1["normal"@] == fg_bg_style(c.text, c.base) && m1.contains_key("selection"@) && m1["selection"@] == (Style { fg: None, bg: Some(c.surface1), bold: true, italic: false, underline: false }) && m1.contains_key("statusline"@) && m1["statusline"@] == fg_bg_style(c.text, c.mantle) && m1.contains_key("ignore"@) && m1["ignore"@] == fg_style(c.overlay0) && m1.contains_key("warning"@) && m1["warning"@] == fg_style(c.yellow) && m1.contains_key("error"@) && m1["error"@] == fg_style(c.red) && m1.contains_key("annotation"@) && m1["annotation"@] == fg_style(c.peach) && m1.contains_key("attribute"@) && m1["attribute"@] == fg_style(c.peach) && m1.contains_key("attribute.builtin"@) && m1["attribute.builtin"@] == fg_style(c.peach) && m1.contains_key("boolean"@) && m1["boolean"@] == fg_style(c.peach) && m1.contains_key("character"@) && m1["character"@] == fg_style(c.teal) && m1.contains_key("character.printf"@) && m1["character.printf"@] == fg_style(c.mauve) && m1.contains_key("character.special"@) && m1["character.special"@] == fg_style(c.mauve) && m1.contains_key("comment"@) && m1["comment"@] == (Style { fg: Some(c.overlay2), bg: None, bold: false, italic: true, underline: false }) && m1.contains_key("comment.documentation"@) && m1["comment.documentation"@] == (Style { fg: Some(c.overlay2), bg: None, bold: false, italic: true, underline: false }) && m1.contains_key("comment.error"@) && m1["comment.error"@] == fg_bg_style(c.base, c.red) && m1.contains_key("comment.warning"@) && m1["comment.warning"@] == fg_bg_style(c.base, c.yellow) && m1.contains_key("comment.hint"@) && m1["comment.hint"@] == fg_bg_style(c.base, c.blue) && m1.contains_key("comment.info"@) && m1["comment.info"@] == fg_bg_style(c.base, c.blue) && m1.contains_key("comment.todo"@) && m1["comment.todo"@] == fg_bg_style(c.base, c.flamingo) && m1.contains_key("comment.note"@) && m1["comment.note"@] == fg_bg_style(c.base, c.rosewater) && m1.contains_key("conceal"@) && m1["conceal"@] == fg_style(c.overlay1) && m1.contains_key("constant"@) && m1["constant"@] == fg_style(c.peach) && m1.contains_key("constant.builtin"@) && m1["constant.builtin"@] == fg_style(c.peach) && m1.contains_key("constant.macro"@) && m1["constant.macro"@] == fg_style(c.mauve));
    let m2 = catppuccin_styles_group2(c, m1);
    assert(m2.contains_key("normal"@) && m2["normal"@] == fg_bg_style(c.text, c.base) && m2.contains_key("selection"@) && m2["selection"@] == (Style { fg: None, bg: Some(c.surface1), bold: true, italic: false, underline: false }) && m2.contains_key("statusline"@) && m2["statusline"@] == fg_bg_style(c.text, c.mantle) && m2.contains_key("ignore"@) && m2["ignore"@] == fg_style(c.overlay0) && m2.contains_key("warning"@) && m2["warning"@] == fg_style(c.yellow) && m2.contains_key("error"@) && m2["error"@] == fg_style(c.red) && m2.contains_key("annotation"@) && m2["annotation"@] == fg_style(c.peach) && m2.contains_key("attribute"@) && m2["attribute"@] == fg_style(c.peach) && m2.contains_key("attribute.builtin"@) && m2["attribute.builtin"@] == fg_style(c.peach) && m2.contains_key("boolean"@) && m2["boolean"@] == fg_style(c.peach) && m2.contains_key("character"@) && m2["character"@] == fg_style(c.teal) && m2.contains_key("character.printf"@) && m2["character.printf"@] == fg_style(c.mauve) && m2.contains_key("character.special"@) && m2["character.special"@] == fg_style(c.mauve) && m2.contains_key("comment"@) && m2["comment"@] == (Style { fg: Some(c.overlay2), bg: None, bold: false, italic: true, underline: false }) && m2.contains_key("comment.documentation"@) && m2["comment.documentation"@] == (Style { fg: Some(c.overlay2), bg: None, bold: false, italic: true, underline: false }) && m2.contains_key("comment.error"@) && m2["comment.error"@] == fg_bg_style(c.base, c.red) && m2.contains_key("comment.warning"@) && m2["comment.warning"@] == fg_bg_style(c.base, c.yellow) && m2.contains_key("comment.hint"@) && m2["comment.hint"@] == fg_bg_style(c.base, c.blue) && m2.contains_key("comment.info"@) && m2["comment.info"@] == fg_bg_style(c.base, c.blue) && m2.contains_key("comment.todo"@) && m2["comment.todo"@] == fg_bg_style(c.base, c.flamingo) && m2.contains_key("comment.note"@) && m2["comment.note"@] == fg_bg_style(c.base, c.rosewater) && m2.contains_key("conceal"@) && m2["conceal"@] == fg_style(c.overlay1) && m2.contains_key("constant"@) && m2["constant"@] == fg_style(c.peach) && m2.contains_key("constant.builtin"@) && m2["constant.builtin"@] == fg_style(c.peach) && m2.contains_key("constant.macro"@) && m2["constant.macro"@] == fg_style(c.mauve) && m2.contains_key("constructor"@) && m2["constructor"@] == fg_style(c.yellow) && m2.contains_key("constructor.tsx"@) && m2["constructor.tsx"@] == fg_style(c.yellow) && m2.contains_key("diff.plus"@) && m2["diff.plus"@] == fg_style(c.green) && m2.contains_key("diff.minus"@) && m2["diff.minus"@] == fg_style(c.red) && m2.contains_key("diff.delta"@) && m2["diff.delta"@] == fg_style(c.blue) && m2.contains_key("embedded"@) && m2["embedded"@] == fg_style(c.text) && m2.contains_key("function"@) && m2["function"@] == fg_style(c.blue) && m2.contains_key("function.call"@) && m2["function.call"@] == fg_style(c.blue) && m2.contains_key("function.method"@) && m2["function.method"@] == fg_style(c.blue) && m2.contains_key("function.method.call"@) && m2["function.method.call"@] == fg_style(c.blue) && m2.contains_key("function.builtin"@) && m2["function.builtin"@] == fg_style(c.peach) && m2.contains_key("function.macro"@) && m2["function.macro"@] == fg_style(c.mauve) && m2.contains_key("keyword"@) && m2["keyword"@] == fg_style(c.mauve) && m2.contains_key("keyword.modifier"@) && m2["keyword.modifier"@] == fg_style(c.mauve) && m2.contains_key("keyword.type"@) && m2["keyword.type"@] == fg_style(c.mauve) && m2.contains_key("keyword.coroutine"@) && m2["keyword.coroutine"@] == fg_style(c.mauve) && m2.contains_key("keyword.function"@) && m2["keyword.function"@] == fg_style(c.mauve) && m2.contains_key("keyword.import"@) && m2["keyword.import"@] == fg_style(c.mauve) && m2.contains_key("keyword.repeat"@) && m2["keyword.repeat"@] == fg_style(c.mauve) && m2.contains_key("keyword.return"@) && m2["keyword.return"@] == fg_style(c.mauve));
    let m3 = catppuccin_styles_group3(c, m2);
    assert(m3.contains_key("normal"@) && m3["normal"@] == fg_bg_style(c.text, c.base) && m3.contains_key("selection"@) && m3["selection"@] == (Style { fg: None, bg: Some(c.surface1), bold: true, italic: false, underline: false }) && m3.contains_key("statusline"@) && m3["statusline"@] == fg_bg_style(c.text, c.mantle) && m3.contains_key("ignore"@) && m3["ignore"@] == fg_style(c.overlay0) && m3.contains_key("warning"@) && m3["warning"@] == fg_style(c.yellow) && m3.contains_key("error"@) && m3["error"@] == fg_style(c.red) && m3.contains_key("annotation"@) && m3["annotation"@] == fg_style(c.peach) && m3.contains_key("attribute"@) && m3["attribute"@] == fg_style(c.peach) && m3.contains_key("attribute.builtin"@) && m3["attribute.builtin"@] == fg_style(c.peach) && m3.contains_key("boolean"@) && m3["boolean"@] == fg_style(c.peach) && m3.contains_key("character"@) && m3["character"@] == fg_style(c.teal) && m3.contains_key("character.printf"@) && m3["character.printf"@] == fg_style(c.mauve) && m3.contains_key("character.special"@) && m3["character.special"@] == fg_style(c.mauve) && m3.contains_key("comment"@) && m3["comment"@] == (Style { fg: Some(c.overlay2), bg: None, bold: false, italic: true, underline: false }) && m3.contains_key("comment.documentation"@) && m3["comment.documentation"@] == (Style { fg: Some(c.overlay2), bg: None, bold: false, italic: true, underline: false }) && m3.contains_key("comment.error"@) && m3["comment.error"@] == fg_bg_style(c.base, c.red) && m3.contains_key("comment.warning"@) && m3["comment.warning"@] == fg_bg_style(c.base, c.yellow) && m3.contains_key("comment.hint"@) && m3["comment.hint"@] == fg_bg_style(c.base, c.blue) && m3.contains_key("comment.info"@) && m3["comment.info"@] == fg_bg_style(c.base, c.blue) && m3.contains_key("comment.todo"@) && m3["comment.todo"@] == fg_bg_style(c.base, c.flamingo) && m3.contains_key("comment.note"@) && m3["comment.note"@] == fg_bg_style(c.base, c.rosewater) && m3.contains_key("conceal"@) && m3["conceal"@] == fg_style(c.overlay1) && m3.contains_key("constant"@) && m3["constant"@] == fg_style(c.peach) && m3.contains_key("constant.builtin"@) && m3["constant.builtin"@] == fg_style(c.peach) && m3.contains_key("constant.macro"@) && m3["constant.macro"@] == fg_style(c.mauve) && m3.contains_key("constructor"@) && m3["constructor"@] == fg_style(c.yellow) && m3.contains_key("constructor.tsx"@) && m3["constructor.tsx"@] == fg_style(c.yellow) && m3.contains_key("diff.plus"@) && m3["diff.plus"@] == fg_style(c.green) && m3.contains_key("diff.minus"@) && m3["diff.minus"@] == fg_style(c.red) && m3.contains_key("diff.delta"@) && m3["diff.delta"@] == fg_style(c.blue) && m3.contains_key("embedded"@) && m3["embedded"@] == fg_style(c.text) && m3.contains_key("function"@) && m3["function"@] == fg_style(c.blue) && m3.contains_key("function.call"@) && m3["function.call"@] == fg_style(c.blue) && m3.contains_key("function.method"@) && m3["function.method"@] == fg_style(c.blue) && m3.contains_key("function.method.call"@) && m3["function.method.call"@] == fg_style(c.blue) && m3.contains_key("function.builtin"@) && m3["function.builtin"@] == fg_style(c.peach) && m3.contains_key("function.macro"@) && m3["function.macro"@] == fg_style(c.mauve) && m3.contains_key("keyword"@) && m3["keyword"@] == fg_style(c.mauve) && m3.contains_key("keyword.modifier"@) && m3["keyword.modifier"@] == fg_style(c.mauve) && m3.contains_key("keyword.type"@) && m3["keyword.type"@] == fg_style(c.mauve) && m3.contains_key("keyword.coroutine"@) && m3["keyword.coroutine"@] == fg_style(c.mauve) && m3.contains_key("keyword.function"@) && m3["keyword.function"@] == fg_style(c.mauve) && m3.contains_key("keyword.import"@) && m3["keyword.import"@] == fg_style(c.mauve) && m3.contains_key("keyword.repeat"@) && m3["keyword.repeat"@] == fg_style(c.mauve) && m3.contains_key("keyword.return"@) && m3["keyword.return"@] == fg_style(c.mauve));
    let m4 = catppuccin_styles_group4(c, m3);
    assert(m4.contains_key("normal"@) && m4["normal"@] == fg_bg_style(c.text, c.base) && m4.contains_key("selection"@) && m4["selection"@] == (Style { fg: None, bg: Some(c.surface1), bold: true, italic: false, underline: false }) && m4.contains_key("statusline"@) && m4["statusline"@] == fg_bg_style(c.text, c.mantle) && m4.contains_key("ignore"@) && m4["ignore"@] == fg_style(c.overlay0) && m4.contains_key("warning"@) && m4["warning"@] == fg_style(c.yellow) && m4.contains_key("error"@) && m4["error"@] == fg_style(c.red) && m4.contains_key("annotation"@) && m4["annotation"@] == fg_style(c.peach) && m4.contains_key("attribute"@) && m4["attribute"@] == fg_style(c.peach) && m4.contains_key("attribute.builtin"@) && m4["attribute.builtin"@] == fg_style(c.peach) && m4.contains_key("boolean"@) && m4["boolean"@] == fg_style(c.peach) && m4.contains_key("character"@) && m4["character"@] == fg_style(c.teal) && m4.contains_key("character.printf"@) && m4["character.printf"@] == fg_style(c.mauve) && m4.contains_key("character.special"@) && m4["character.special"@] == fg_style(c.mauve) && m4.contains_key("comment"@) && m4["comment"@] == (Style { fg: Some(c.overlay2), bg: None, bold: false, italic: true, underline: false }) && m4.contains_key("comment.documentation"@) && m4["comment.documentation"@] == (Style { fg: Some(c.overlay2), bg: None, bold: false, italic: true, underline: false }) && m4.contains_key("comment.error"@) && m4["comment.error"@] == fg_bg_style(c.base, c.red) && m4.contains_key("comment.warning"@) && m4["comment.warning"@] == fg_bg_style(c.base, c.yellow) && m4.contains_key("comment.hint"@) && m4["comment.hint"@] == fg_bg_style(c.base, c.blue) && m4.contains_key("comment.info"@) && m4["comment.info"@] == fg_bg_style(c.base, c.blue) && m4.contains_key("comment.todo"@) && m4["comment.todo"@] == fg_bg_style(c.base, c.flamingo) && m4.contains_key("comment.note"@) && m4["comment.note"@] == fg_bg_style(c.base, c.rosewater) && m4.contains_key("conceal"@) && m4["conceal"@] == fg_style(c.overlay1) && m4.contains_key("constant"@) && m4["constant"@] == fg_style(c.peach) && m4.contains_key("constant.builtin"@) && m4["constant.builtin"@] == fg_style(c.peach) && m4.contains_key("constant.macro"@) && m4["constant.macro"@] == fg_style(c.mauve) && m4.contains_key("constructor"@) && m4["constructor"@] == fg_style(c.yellow) && m4.contains_key("constructor.tsx"@) && m4["constructor.tsx"@] == fg_style(c.yellow) && m4.contains_key("diff.plus"@) && m4["diff.plus"@] == fg_style(c.green) && m4.contains_key("diff.minus"@) && m4["diff.minus"@] == fg_style(c.red) && m4.contains_key("diff.delta"@) && m4["diff.delta"@] == fg_style(c.blue) && m4.contains_key("embedded"@) && m4["embedded"@] == fg_style(c.text) && m4.contains_key("function"@) && m4["function"@] == fg_style(c.blue) && m4.contains_key("function.call"@) && m4["function.call"@] == fg_style(c.blue) && m4.contains_key("function.method"@) && m4["function.method"@] == fg_style(c.blue) && m4.contains_key("function.method.call"@) && m4["function.method.call"@] == fg_style(c.blue) && m4.contains_key("function.builtin"@) && m4["function.builtin"@] == fg_style(c.peach) && m4.contains_key("function.macro"@) && m4["function.macro"@] == fg_style(c.mauve) && m4.contains_key("keyword"@) && m4["keyword"@] == fg_style(c.mauve) && m4.contains_key("keyword.modifier"@) && m4["keyword.modifier"@] == fg_style(c.mauve) && m4.contains_key("keyword.type"@) && m4["keyword.type"@] == fg_style(c.mauve) && m4.contains_key("keyword.coroutine"@) && m4["keyword.coroutine"@] == fg_style(c.mauve) && m4.contains_key("keyword.function"@) && m4["keyword.function"@] == fg_style(c.mauve) && m4.contains_key("keyword.import"@) && m4["keyword.import"@] == fg_style(c.mauve) && m4.contains_key("keyword.repeat"@) && m4["keyword.repeat"@] == fg_style(c.mauve) && m4.contains_key("keyword.return"@) && m4["keyword.return"@] == fg_style(c.mauve));
    let m5 = catppuccin_styles_group5(c, m4);
    assert(m5.contains_key("normal"@) && m5["normal"@] == fg_bg_style(c.text, c.base) && m5.contains_key("selection"@) && m5["selection"@] == (Style { fg: None, bg: Some(c.surface1), bold: true, italic: false, underline: false }) && m5.contains_key("statusline"@) && m5["statusline"@] == fg_bg_style(c.text, c.mantle) && m5.contains_key("ignore"@) && m5["ignore"@] == fg_style(c.overlay0) && m5.contains_key("warning"@) && m5["warning"@] == fg_style(c.yellow) && m5.contains_key("error"@) && m5["error"@] == fg_style(c.red) && m5.contains_key("annotation"@) && m5["annotation"@] == fg_style(c.peach) && m5.contains_key("attribute"@) && m5["attribute"@] == fg_style(c.peach) && m5.contains_key("attribute.builtin"@) && m5["attribute.builtin"@] == fg_style(c.peach) && m5.contains_key("boolean"@) && m5["boolean"@] == fg_style(c.peach) && m5.contains_key("character"@) && m5["character"@] == fg_style(c.teal) && m5.contains_key("character.printf"@) && m5["character.printf"@] == fg_style(c.mauve) && m5.contains_key("character.special"@) && m5["character.special"@] == fg_style(c.mauve) && m5.contains_key("comment"@) && m5["comment"@] == (Style { fg: Some(c.overlay2), bg: None, bold: false, italic: true, underline: false }) && m5.contains_key("comment.documentation"@) && m5["comment.documentation"@] == (Style { fg: Some(c.overlay2), bg: None, bold: false, italic: true, underline: false }) && m5.contains_key("comment.error"@) && m5["comment.error"@] == fg_bg_style(c.base, c.red) && m5.contains_key("comment.warning"@) && m5["comment.warning"@] == fg_bg_style(c.base, c.yellow) && m5.contains_key("comment.hint"@) && m5["comment.hint"@] == fg_bg_style(c.base, c.blue) && m5.contains_key("comment.info"@) && m5["comment.info"@] == fg_bg_style(c.base, c.blue) && m5.contains_key("comment.todo"@) && m5["comment.todo"@] == fg_bg_style(c.base, c.flamingo) && m5.contains_key("comment.note"@) && m5["comment.note"@] == fg_bg_style(c.base, c.rosewater) && m5.contains_key("conceal"@) && m5["conceal"@] == fg_style(c.overlay1) && m5.contains_key("constant"@) && m5["constant"@] == fg_style(c.peach) && m5.contains_key("constant.builtin"@) && m5["constant.builtin"@] == fg_style(c.peach) && m5.contains_key("constant.macro"@) && m5["constant.macro"@] == fg_style(c.mauve) && m5.contains_key("constructor"@) && m5["constructor"@] == fg_style(c.yellow) && m5.contains_key("constructor.tsx"@) && m5["constructor.tsx"@] == fg_style(c.yellow) && m5.contains_key("diff.plus"@) && m5["diff.plus"@] == fg_style(c.green) && m5.contains_key("diff.minus"@) && m5["diff.minus"@] == fg_style(c.red) && m5.contains_key("diff.delta"@) && m5["diff.delta"@] == fg_style(c.blue) && m5.contains_key("embedded"@) && m5["embedded"@] == fg_style(c.text) && m5.contains_key("function"@) && m5["function"@] == fg_style(c.blue) && m5.contains_key("function.call"@) && m5["function.call"@] == fg_style(c.blue) && m5.contains_key("function.method"@) && m5["function.method"@] == fg_style(c.blue) && m5.contains_key("function.method.call"@) && m5["function.method.call"@] == fg_style(c.blue) && m5.contains_key("function.builtin"@) && m5["function.builtin"@] == fg_style(c.peach) && m5.contains_key("function.macro"@) && m5["function.macro"@] == fg_style(c.mauve) && m5.contains_key("keyword"@) && m5["keyword"@] == fg_style(c.mauve) && m5.contains_key("keyword.modifier"@) && m5["keyword.modifier"@] == fg_style(c.mauve) && m5.contains_key("keyword.type"@) && m5["keyword.type"@] == fg_style(c.mauve) && m5.contains_key("keyword.coroutine"@) && m5["keyword.coroutine"@] == fg_style(c.mauve) && m5.contains_key("keyword.function"@) && m5["keyword.function"@] == fg_style(c.mauve) && m5.contains_key("keyword.import"@) && m5["keyword.import"@] == fg_style(c.mauve) && m5.contains_key("keyword.repeat"@) && m5["keyword.repeat"@] == fg_style(c.mauve) && m5.contains_key("keyword.return"@) && m5["keyword.return"@] == fg_style(c.mauve));
}

/// The style of every capture name in a Catppuccin theme (2 of 3).
pub proof fn lemma_catppuccin_styles_2(c: CatppuccinPalette)
    ensures
        catppuccin_styles(c).contains_key("keyword.debug"@),
        catppuccin_styles(c)["keyword.debug"@] == fg_style(c.mauve),
        catppuccin_styles(c).contains_key("keyword.exception"@),
        catppuccin_styles(c)["keyword.exception"@] == fg_style(c.mauve),
        catppuccin_styles(c).contains_key("keyword.operator"@),
        catppuccin_styles(c)["keyword.operator"@] == fg_style(c.mauve),
        catppuccin_styles(c).contains_key("keyword.storage"@),
        catppuccin_styles(c)["keyword.storage"@] == fg_style(c.mauve),
        catppuccin_styles(c).contains_key("type.qualifier"@),
        catppuccin_styles(c)["type.qualifier"@] == fg_style(c.mauve),
        catppuccin_styles(c).contains_key("keyword.conditional"@),
        catppuccin_styles(c)["keyword.conditional"@] == (Style { fg: Some(c.mauve), bg: None, bold: false, italic: true, underline: false }),
        catppuccin_styles(c).contains_key("keyword.conditional.ternary"@),
        catppuccin_styles(c)["keyword.conditional.ternary"@] == fg_style(c.sky),
        catppuccin_styles(c).contains_key("keyword.directive"@),
        catppuccin_styles(c)["keyword.directive"@] == fg_style(c.mauve),
        catppuccin_styles(c).contains_key("keyword.directive.define"@),
        catppuccin_styles(c)["keyword.directive.define"@] == fg_style(c.mauve),
        catppuccin_styles(c).contains_key("label"@),
        catppuccin_styles(c)["label"@] == fg_style(c.sky),
        catppuccin_styles(c).contains_key("markup"@),
        catppuccin_styles(c)["markup"@] == fg_style(c.text),
        catppuccin_styles(c).contains_key("markup.heading"@),
        catppuccin_styles(c)["markup.heading"@] == fg_style(c.blue),
        catppuccin_styles(c).contains_key("markup.heading.1"@),
        catppuccin_styles(c)["markup.heading.1"@] == fg_style(c.red),
        catppuccin_styles(c).contains_key("markup.heading.2"@),
        catppuccin_styles(c)["markup.heading.2"@] == fg_style(c.peach),
        catppuccin_styles(c).contains_key("markup.heading.3"@),
        catppuccin_styles(c)["markup.heading.3"@] == fg_style(c.yellow),
        catppuccin_styles(c).contains_key("markup.heading.4"@),
        catppuccin_styles(c)["markup.heading.4"@] == fg_style(c.green),
        catppuccin_styles(c).contains_key("markup.heading.5"@),
        catppuccin_styles(c)["markup.heading.5"@] == fg_style(c.sky),
        catppuccin_styles(c).contains_key("markup.heading.6"@),
        catppuccin_styles(c)["markup.heading.6"@] == fg_style(c.lavender),
        catppuccin_styles(c).contains_key("markup.heading.7"@),
        catppuccin_styles(c)["markup.heading.7"@] == fg_style(c.blue),
        catppuccin_styles(c).contains_key("markup.heading.8"@),
        catppuccin_styles(c)["markup.heading.8"@] == fg_style(c.blue),
        catppuccin_styles(c).contains_key("markup.italic"@),
        catppuccin_styles(c)["markup.italic"@] == (Style { fg: Some(c.red), bg: None, bold: false, italic: true, underline: false }),
        catppuccin_styles(c).contains_key("markup.link"@),
        catppuccin_styles(c)["markup.link"@] == fg_style(c.lavender),
        catppuccin_styles(c).contains_key("markup.link.label"@),
        catppuccin_styles(c)["markup.link.label"@] == fg_style(c.lavender),
        catppuccin_styles(c).contains_key("markup.link.label.symbol"@),
        catppuccin_styles(c)["markup.link.label.symbol"@] == fg_style(c.lavender),
        catppuccin_styles(c).contains_key("markup.link.url"@),
        catppuccin_styles(c)["markup.link.url"@] == (Style { fg: Some(c.blue), bg: None, bold: false, italic: true, underline: true }),
        catppuccin_styles(c).contains_key("markup.list"@),
        catppuccin_styles(c)["markup.list"@] == fg_style(c.teal),
        catppuccin_styles(c).contains_key("markup.list.checked"@),
        catppuccin_styles(c)["markup.list.checked"@] == fg_style(c.green),
        catppuccin_styles(c).contains_key("markup.list.unchecked"@),
        catppuccin_styles(c)["markup.list.unchecked"@] == fg_style(c.overlay1),
        catppuccin_styles(c).contains_key("markup.list.markdown"@),
        catppuccin_styles(c)["markup.list.markdown"@] == fg_style(c.teal),
        catppuccin_styles(c).contains_key("markup.math"@),
        catppuccin_styles(c)["markup.math"@] == fg_style(c.blue),
        catppuccin_styles(c).contains_key("markup.quote"@),
        catppuccin_styles(c)["markup.quote"@] == fg_style(c.mauve),
        catppuccin_styles(c).contains_key("markup.raw"@),
        catppuccin_styles(c)["markup.raw"@] == fg_style(c.green),
        catppuccin_styles(c).contains_key("markup.raw.block"@),
        catppuccin_styles(c)["markup.raw.block"@] == fg_style(c.green),
        catppuccin_styles(c).contains_key("markup.raw.markdown_inline"@),
        catppuccin_styles(c)["markup.raw.markdown_inline"@] == fg_style(c.flamingo),
        catppuccin_styles(c).contains_key("markup.strikethrough"@),
        catppuccin_styles(c)["markup.strikethrough"@] == fg_style(c.text),
        catppuccin_styles(c).contains_key("markup.strong"@),
        catppuccin_styles(c)["markup.strong"@] == (Style { fg: Some(c.red), bg: None, bold: true, italic: false, underline: false }),
        catppuccin_styles(c).contains_key("markup.underline"@),
        catppuccin_styles(c)["markup.underline"@] == (Style { fg: None, bg: None, bold: false, italic: false, underline: true }),
        catppuccin_styles(c).contains_key("module"@),
        catppuccin_styles(c)["module"@] == (Style { fg: Some(c.yellow), bg: None, bold: false, italic: true, underline: false }),
        catppuccin_styles(c).contains_key("module.builtin"@),
        catppuccin_styles(c)["module.builtin"@] == (Style { fg: Some(c.yellow), bg: None, bold: false, italic: true, underline: false }),
        catppuccin_styles(c).contains_key("namespace.builtin"@),
        catppuccin_styles(c)["namespace.builtin"@] == (Style { fg: Some(c.yellow), bg: None, bold: false, italic: true, underline: false }),
        catppuccin_styles(c).contains_key("none"@),
        catppuccin_styles(c)["none"@] == plain_style(),
        catppuccin_styles(c).contains_key("nospell"@),
        catppuccin_styles(c)["nospell"@] == fg_bg_style(c.text, c.base),
        catppuccin_styles(c).contains_key("spell"@),
        catppuccin_styles(c)["spell"@] == fg_bg_style(c.text, c.base),
        catppuccin_styles(c).contains_key("number"@),
        catppuccin_styles(c)["number"@] == fg_style(c.peach),
        catppuccin_styles(c).contains_key("number.float"@),
        catppuccin_styles(c)["number.float"@] == fg_style(c.peach),
{
    reveal_strlit("keyword.debug");
    assert("keyword.debug"@.len() == 13);
    reveal_strlit("keyword.exception");
    assert("keyword.exception"@.len() == 17);
    reveal_strlit("keyword.operator");
    assert("keyword.operator"@.len() == 16);
    reveal_strlit("keyword.storage");
    assert("keyword.storage"@.len() == 15);
    reveal_strlit("type.qualifier");
    assert("type.qualifier"@.len() == 14);
    reveal_strlit("keyword.conditional");
    assert("keyword.conditional"@.len() == 19);
    reveal_strlit("keyword.conditional.ternary");
    assert("keyword.conditional.ternary"@.len() == 27);
    reveal_strlit("keyword.directive");
    assert("keyword.directive"@.len() == 17);
    reveal_strlit("keyword.directive.define");
    assert("keyword.directive.define"@.len() == 24);
    reveal_strlit("label");
    assert("label"@.len() == 5);
    reveal_strlit("markup");
    assert("markup"@.len() == 6);
    reveal_strlit("markup.heading");
    assert("markup.heading"@.len() == 14);
    reveal_strlit("markup.heading.1");
    assert("markup.heading.1"@.len() == 16);
    reveal_strlit("markup.heading.2");
    assert("markup.heading.2"@.len() == 16);
    reveal_strlit("markup.heading.3");
    assert("markup.heading.3"@.len() == 16);
    reveal_strlit("markup.heading.4");
    assert("markup.heading.4"@.len() == 16);
    reveal_strlit("markup.heading.5");
    assert("markup.heading.5"@.len() == 16);
    reveal_strlit("markup.heading.6");
    assert("markup.heading.6"@.len() == 16);
    reveal_strlit("markup.heading.7");
    assert("markup.heading.7"@.len() == 16);
    reveal_strlit("markup.heading.8");
    assert("markup.heading.8"@.len() == 16);
    reveal_strlit("markup.italic");
    assert("keyword.debug"@[0] != "markup.italic"@[0]);
    reveal_strlit("markup.link");
    assert("markup.link"@.len() == 11);
    reveal_strlit("markup.link.label");
    assert("markup.link.label"@.len() == 17);
    reveal_strlit("markup.link.label.symbol");
    assert("markup.link.label.symbol"@.len() == 24);
    reveal_strlit("markup.link.url");
    assert("markup.link.url"@.len() == 15);
    reveal_strlit("markup.list");
    assert("markup.list"@.len() == 11);
    reveal_strlit("markup.list.checked");
    assert("markup.list.checked"@.len() == 19);
    reveal_strlit("markup.list.unchecked");
    assert("markup.list.unchecked"@.len() == 21);
    reveal_strlit("markup.list.markdown");
    assert("markup.list.markdown"@.len() == 20);
    reveal_strlit("markup.math");
    assert("markup.math"@.len() == 11);
    reveal_strlit("markup.quote");
    assert("markup.quote"@.len() == 12);
    reveal_strlit("markup.raw");
    assert("markup.raw"@.len() == 10);
    reveal_strlit("markup.raw.block");
    assert("markup.raw.block"@.len() == 16);
    reveal_strlit("markup.raw.markdown_inline");
    assert("markup.raw.markdown_inline"@.len() == 26);
    reveal_strlit("markup.strikethrough");
    assert("markup.strikethrough"@.len() == 20);
    reveal_strlit("markup.strong");
    assert("keyword.debug"@[0] != "markup.strong"@[0]);
    reveal_strlit("markup.underline");
    assert("markup.underline"@.len() == 16);
    reveal_strlit("module");
    assert("module"@.len() == 6);
    reveal_strlit("module.builtin");
    assert("module.builtin"@.len() == 14);
    reveal_strlit("namespace.builtin");
    assert("namespace.builtin"@.len() == 17);
    reveal_strlit("none");
    assert("none"@.len() == 4);
    reveal_strlit("nospell");
    assert("nospell"@.len() == 7);
    reveal_strlit("spell");
    assert("spell"@.len() == 5);
    reveal_strlit("number");
    assert("number"@.len() == 6);
    reveal_strlit("number.float");
    assert("number.float"@.len() == 12);
    reveal_strlit("operator");
    assert("operator"@.len() == 8);
    reveal_strlit("property");
    assert("property"@.len() == 8);
    reveal_strlit("punctuation");
    assert("punctuation"@.len() == 11);
    reveal_strlit("punctuation.bracket");
    assert("punctuation.bracket"@.len() == 19);
    reveal_strlit("punctuation.delimiter");
    assert("punctuation.delimiter"@.len() == 21);
    reveal_strlit("punctuation.special");
    assert("punctuation.special"@.len() == 19);
    reveal_strlit("punctuation.special.markdown");
    assert("punctuation.special.markdown"@.len() == 28);
    reveal_strlit("string");
    assert("string"@.len() == 6);
    reveal_strlit("string.documentation");
    assert("string.documentation"@.len() == 20);
    reveal_strlit("string.regexp");
    assert("keyword.debug"@[0] != "string.regexp"@[0]);
    reveal_strlit("string.escape");
    assert("keyword.debug"@[0] != "string.escape"@[0]);
    reveal_strlit("string.special");
    assert("string.special"@.len() == 14);
    reveal_strlit("string.special.key");
    assert("string.special.key"@.len() == 18);
    reveal_strlit("string.special.path");
    assert("string.special.path"@.len() == 19);
    reveal_strlit("string.special.symbol");
    assert("string.special.symbol"@.len() == 21);
    reveal_strlit("string.special.url");
    assert("string.special.url"@.len() == 18);
    reveal_strlit("tag");
    assert("tag"@.len() == 3);
    reveal_strlit("tag.builtin");
    assert("tag.builtin"@.len() == 11);
    reveal_strlit("tag.attribute");
    assert("keyword.debug"@[0] != "tag.attribute"@[0]);
    reveal_strlit("tag.delimiter");
    assert("keyword.debug"@[0] != "tag.delimiter"@[0]);
    reveal_strlit("tag.delimiter.tsx");
    assert("tag.delimiter.tsx"@.len() == 17);
    reveal_strlit("tag.javascript");
    assert("tag.javascript"@.len() == 14);
    reveal_strlit("tag.tsx");
    assert("tag.tsx"@.len() == 7);
    reveal_strlit("type");
    assert("type"@.len() == 4);
    reveal_strlit("type.builtin");
    assert("type.builtin"@.len() == 12);
    reveal_strlit("type.definition");
    assert("type.definition"@.len() == 15);
    reveal_strlit("variable");
    assert("variable"@.len() == 8);
    reveal_strlit("variable.builtin");
    assert("variable.builtin"@.len() == 16);
    reveal_strlit("variable.member");
    assert("variable.member"@.len() == 15);
    reveal_strlit("variable.parameter");
    assert("variable.parameter"@.len() == 18);
    reveal_strlit("variable.parameter.builtin");
    assert("variable.parameter.builtin"@.len() == 26);
    assert("keyword.exception"@[8] != "keyword.directive"@[8]);
    assert("markup.italic"@.len() == 13);
    assert("keyword.exception"@[0] != "markup.link.label"@[0]);
    assert("markup.strong"@.len() == 13);
    assert("keyword.exception"@[0] != "namespace.builtin"@[0]);
    assert("string.regexp"@.len() == 13);
    assert("string.escape"@.len() == 13);
    assert("tag.attribute"@.len() == 13);
    assert("tag.delimiter"@.len() == 13);
    assert("keyword.exception"@[0] != "tag.delimiter.tsx"@[0]);
    assert("keyword.operator"@[0] != "markup.heading.1"@[0]);
    assert("keyword.operator"@[0] != "markup.heading.2"@[0]);
    assert("keyword.operator"@[0] != "markup.heading.3"@[0]);
    assert("keyword.operator"@[0] != "markup.heading.4"@[0]);
    assert("keyword.operator"@[0] != "markup.heading.5"@[0]);
    assert("keyword.operator"@[0] != "markup.heading.6"@[0]);
    assert("keyword.operator"@[0] != "markup.heading.7"@[0]);
    assert("keyword.operator"@[0] != "markup.heading.8"@[0]);
    assert("keyword.operator"@[0] != "markup.raw.block"@[0]);
    assert("keyword.operator"@[0] != "markup.underline"@[0]);
    assert("keyword.operator"@[0] != "variable.builtin"@[0]);
    assert("keyword.storage"@[0] != "markup.link.url"@[0]);
    assert("keyword.storage"@[0] != "type.definition"@[0]);
    assert("keyword.storage"@[0] != "variable.member"@[0]);
    assert("type.qualifier"@[0] != "markup.heading"@[0]);
    assert("type.qualifier"@[0] != "module.builtin"@[0]);
    assert("type.qualifier"@[0] != "string.special"@[0]);
    assert("type.qualifier"@[1] != "tag.javascript"@[1]);
    assert("keyword.conditional"@[0] != "markup.list.checked"@[0]);
    assert("keyword.conditional"@[0] != "punctuation.bracket"@[0]);
    assert("keyword.conditional"@[0] != "punctuation.special"@[0]);
    assert("keyword.conditional"@[0] != "string.special.path"@[0]);
    assert("keyword.directive"@[0] != "markup.link.label"@[0]);
    assert("keyword.directive"@[0] != "namespace.builtin"@[0]);
    assert("keyword.directive"@[0] != "tag.delimiter.tsx"@[0]);
    assert("keyword.directive.define"@[0] != "markup.link.label.symbol"@[0]);
    assert("label"@[0] != "spell"@[0]);
    assert("markup"@[1] != "module"@[1]);
    assert("markup"@[0] != "number"@[0]);
    assert("markup"@[0] != "string"@[0]);
    assert("markup.heading"@[1] != "module.builtin"@[1]);
    assert("markup.heading"@[0] != "string.special"@[0]);
    assert("markup.heading"@[0] != "tag.javascript"@[0]);
    assert("markup.heading.1"@[15] != "markup.heading.2"@[15]);
    assert("markup.heading.1"@[15] != "markup.heading.3"@[15]);
    assert("markup.heading.1"@[15] != "markup.heading.4"@[15]);
    assert("markup.heading.1"@[15] != "markup.heading.5"@[15]);
    assert("markup.heading.1"@[15] != "markup.heading.6"@[15]);
    assert("markup.heading.1"@[15] != "markup.heading.7"@[15]);
    assert("markup.heading.1"@[15] != "markup.heading.8"@[15]);
    assert("markup.heading.1"@[7] != "markup.raw.block"@[7]);
    assert("markup.heading.1"@[7] != "markup.underline"@[7]);
    assert("markup.heading.1"@[0] != "variable.builtin"@[0]);
    assert("markup.heading.2"@[15] != "markup.heading.3"@[15]);
    assert("markup.heading.2"@[15] != "markup.heading.4"@[15]);
    assert("markup.heading.2"@[15] != "markup.heading.5"@[15]);
    assert("markup.heading.2"@[15] != "markup.heading.6"@[15]);
    assert("markup.heading.2"@[15] != "markup.heading.7"@[15]);
    assert("markup.heading.2"@[15] != "markup.heading.8"@[15]);
    assert("markup.heading.2"@[7] != "markup.raw.block"@[7]);
    assert("markup.heading.2"@[7] != "markup.underline"@[7]);
    assert("markup.heading.2"@[0] != "variable.builtin"@[0]);
    assert("markup.heading.3"@[15] != "markup.heading.4"@[15]);
    assert("markup.heading.3"@[15] != "markup.heading.5"@[15]);
    assert("markup.heading.3"@[15] != "markup.heading.6"@[15]);
    assert("markup.heading.3"@[15] != "markup.heading.7"@[15]);
    assert("markup.heading.3"@[15] != "markup.heading.8"@[15]);
    assert("markup.heading.3"@[7] != "markup.raw.block"@[7]);
    assert("markup.heading.3"@[7] != "markup.underline"@[7]);
    assert("markup.heading.3"@[0] != "variable.builtin"@[0]);
    assert("markup.heading.4"@[15] != "markup.heading.5"@[15]);
    assert("markup.heading.4"@[15] != "markup.heading.6"@[15]);
    assert("markup.heading.4"@[15] != "markup.heading.7"@[15]);
    assert("markup.heading.4"@[15] != "markup.heading.8"@[15]);
    assert("markup.heading.4"@[7] != "markup.raw.block"@[7]);
    assert("markup.heading.4"@[7] != "markup.underline"@[7]);
    assert("markup.heading.4"@[0] != "variable.builtin"@[0]);
    assert("markup.heading.5"@[15] != "markup.heading.6"@[15]);
    assert("markup.heading.5"@[15] != "markup.heading.7"@[15]);
    assert("markup.heading.5"@[15] != "markup.heading.8"@[15]);
    assert("markup.heading.5"@[7] != "markup.raw.block"@[7]);
    assert("markup.heading.5"@[7] != "markup.underline"@[7]);
    assert("markup.heading.5"@[0] != "variable.builtin"@[0]);
    assert("markup.heading.6"@[15] != "markup.heading.7"@[15]);
    assert("markup.heading.6"@[15] != "markup.heading.8"@[15]);
    assert("markup.heading.6"@[7] != "markup.raw.block"@[7]);
    assert("markup.heading.6"@[7] != "markup.underline"@[7]);
    assert("markup.heading.6"@[0] != "variable.builtin"@[0]);
    assert("markup.heading.7"@[15] != "markup.heading.8"@[15]);
    assert("markup.heading.7"@[7] != "markup.raw.block"@[7]);
    assert("markup.heading.7"@[7] != "markup.underline"@[7]);
    assert("markup.heading.7"@[0] != "variable.builtin"@[0]);
    assert("markup.heading.8"@[7] != "markup.raw.block"@[7]);
    assert("markup.heading.8"@[7] != "markup.underline"@[7]);
    assert("markup.heading.8"@[0] != "variable.builtin"@[0]);
    assert("markup.italic"@[7] != "markup.strong"@[7]);
    assert("markup.italic"@[0] != "string.regexp"@[0]);
    assert("markup.italic"@[0] != "string.escape"@[0]);
    assert("markup.italic"@[0] != "tag.attribute"@[0]);
    assert("markup.italic"@[0] != "tag.delimiter"@[0]);
    assert("markup.link"@[9] != "markup.list"@[9]);
    assert("markup.link"@[7] != "markup.math"@[7]);
    assert("markup.link"@[0] != "punctuation"@[0]);
    assert("markup.link"@[0] != "tag.builtin"@[0]);
    assert("markup.link.label"@[0] != "namespace.builtin"@[0]);
    assert("markup.link.label"@[0] != "tag.delimiter.tsx"@[0]);
    assert("markup.link.url"@[0] != "type.definition"@[0]);
    assert("markup.link.url"@[0] != "variable.member"@[0]);
    assert("markup.list"@[7] != "markup.math"@[7]);
    assert("markup.list"@[0] != "punctuation"@[0]);
    assert("markup.list"@[0] != "tag.builtin"@[0]);
    assert("markup.list.checked"@[0] != "punctuation.bracket"@[0]);
    assert("markup.list.checked"@[0] != "punctuation.special"@[0]);
    assert("markup.list.checked"@[0] != "string.special.path"@[0]);
    assert("markup.list.unchecked"@[0] != "punctuation.delimiter"@[0]);
    assert("markup.list.unchecked"@[0] != "string.special.symbol"@[0]);
    assert("markup.list.markdown"@[7] != "markup.strikethrough"@[7]);
    assert("markup.list.markdown"@[0] != "string.documentation"@[0]);
    assert("markup.math"@[0] != "punctuation"@[0]);
    assert("markup.math"@[0] != "tag.builtin"@[0]);
    assert("markup.quote"@[0] != "number.float"@[0]);
    assert("markup.quote"@[0] != "type.builtin"@[0]);
    assert("markup.raw.block"@[7] != "markup.underline"@[7]);
    assert("markup.raw.block"@[0] != "variable.builtin"@[0]);
    assert("markup.raw.markdown_inline"@[0] != "variable.parameter.builtin"@[0]);
    assert("markup.strikethrough"@[0] != "string.documentation"@[0]);
    assert("markup.strong"@[0] != "string.regexp"@[0]);
    assert("markup.strong"@[0] != "string.escape"@[0]);
    assert("markup.strong"@[0] != "tag.attribute"@[0]);
    assert("markup.strong"@[0] != "tag.delimiter"@[0]);
    assert("markup.underline"@[0] != "variable.builtin"@[0]);
    assert("module"@[0] != "number"@[0]);
    assert("module"@[0] != "string"@[0]);
    assert("module.builtin"@[0] != "string.special"@[0]);
    assert("module.builtin"@[0] != "tag.javascript"@[0]);
    assert("namespace.builtin"@[0] != "tag.delimiter.tsx"@[0]);
    assert("none"@[0] != "type"@[0]);
    assert("nospell"@[0] != "tag.tsx"@[0]);
    assert("number"@[0] != "string"@[0]);
    assert("number.float"@[0] != "type.builtin"@[0]);
    let m1 = catppuccin_styles_group1(c, Map::empty());
    let m2 = catppuccin_styles_group2(c, m1);
    assert(m2.contains_key("keyword.debug"@) && m2["keyword.debug"@] == fg_style(c.mauve) && m2.contains_key("keyword.exception"@) && m2["keyword.exception"@] == fg_style(c.mauve) && m2.contains_key("keyword.operator"@) && m2["keyword.operator"@] == fg_style(c.mauve) && m2.contains_key("keyword.storage"@) && m2["keyword.storage"@] == fg_style(c.mauve) && m2.contains_key("type.qualifier"@) && m2["type.qualifier"@] == fg_style(c.mauve));
    let m3 = catppuccin_styles_group3(c, m2);
    assert(m3.contains_key("keyword.debug"@) && m3["keyword.debug"@] == fg_style(c.mauve) && m3.contains_key("keyword.exception"@) && m3["keyword.exception"@] == fg_style(c.mauve) && m3.contains_key("keyword.operator"@) && m3["keyword.operator"@] == fg_style(c.mauve) && m3.contains_key("keyword.storage"@) && m3["keyword.storage"@] == fg_style(c.mauve) && m3.contains_key("type.qualifier"@) && m3["type.qualifier"@] == fg_style(c.mauve) && m3.contains_key("keyword.conditional"@) && m3["keyword.conditional"@] == (Style { fg: Some(c.mauve), bg: None, bold: false, italic: true, underline: false }) && m3.contains_key("keyword.conditional.ternary"@) && m3["keyword.conditional.ternary"@] == fg_style(c.sky) && m3.contains_key("keyword.directive"@) && m3["keyword.directive"@] == fg_style(c.mauve) && m3.contains_key("keyword.directive.define"@) && m3["keyword.directive.define"@] == fg_style(c.mauve) && m3.contains_key("label"@) && m3["label"@] == fg_style(c.sky) && m3.contains_key("markup"@) && m3["markup"@] == fg_style(c.text) && m3.contains_key("markup.heading"@) && m3["markup.heading"@] == fg_style(c.blue) && m3.contains_key("markup.heading.1"@) && m3["markup.heading.1"@] == fg_style(c.red) && m3.contains_key("markup.heading.2"@) && m3["markup.heading.2"@] == fg_style(c.peach) && m3.contains_key("markup.heading.3"@) && m3["markup.heading.3"@] == fg_style(c.yellow) && m3.contains_key("markup.heading.4"@) && m3["markup.heading.4"@] == fg_style(c.green) && m3.contains_key("markup.heading.5"@) && m3["markup.heading.5"@] == fg_style(c.sky) && m3.contains_key("markup.heading.6"@) && m3["markup.heading.6"@] == fg_style(c.lavender) && m3.contains_key("markup.heading.7"@) && m3["markup.heading.7"@] == fg_style(c.blue) && m3.contains_key("markup.heading.8"@) && m3["markup.heading.8"@] == fg_style(c.blue) && m3.contains_key("markup.italic"@) && m3["markup.italic"@] == (Style { fg: Some(c.red), bg: None, bold: false, italic: true, underline: false }) && m3.contains_key("markup.link"@) && m3["markup.link"@] == fg_style(c.lavender) && m3.contains_key("markup.link.label"@) && m3["markup.link.label"@] == fg_style(c.lavender) && m3.contains_key("markup.link.label.symbol"@) && m3["markup.link.label.symbol"@] == fg_style(c.lavender) && m3.contains_key("markup.link.url"@) && m3["markup.link.url"@] == (Style { fg: Some(c.blue), bg: None, bold: false, italic: true, underline: true }) && m3.contains_key("markup.list"@) && m3["markup.list"@] == fg_style(c.teal) && m3.contains_key("markup.list.checked"@) && m3["markup.list.checked"@] == fg_style(c.green) && m3.contains_key("markup.list.unchecked"@) && m3["markup.list.unchecked"@] == fg_style(c.overlay1) && m3.contains_key("markup.list.markdown"@) && m3["markup.list.markdown"@] == fg_style(c.teal) && m3.contains_key("markup.math"@) && m3["markup.math"@] == fg_style(c.blue));
    let m4 = catppuccin_styles_group4(c, m3);
    assert(m4.contains_key("keyword.debug"@) && m4["keyword.debug"@] == fg_style(c.mauve) && m4.contains_key("keyword.exception"@) && m4["keyword.exception"@] == fg_style(c.mauve) && m4.contains_key("keyword.operator"@) && m4["keyword.operator"@] == fg_style(c.mauve) && m4.contains_key("keyword.storage"@) && m4["keyword.storage"@] == fg_style(c.mauve) && m4.contains_key("type.qualifier"@) && m4["type.qualifier"@] == fg_style(c.mauve) && m4.contains_key("keyword.conditional"@) && m4["keyword.conditional"@] == (Style { fg: Some(c.mauve), bg: None, bold: false, italic: true, underline: false }) && m4.contains_key("keyword.conditional.ternary"@) && m4["keyword.conditional.ternary"@] == fg_style(c.sky) && m4.contains_key("keyword.directive"@) && m4["keyword.directive"@] == fg_style(c.mauve) && m4.contains_key("keyword.directive.define"@) && m4["keyword.directive.define"@] == fg_style(c.mauve) && m4.contains_key("label"@) && m4["label"@] == fg_style(c.sky) && m4.contains_key("markup"@) && m4["markup"@] == fg_style(c.text) && m4.contains_key("markup.heading"@) && m4["markup.heading"@] == fg_style(c.blue) && m4.contains_key("markup.heading.1"@) && m4["markup.heading.1"@] == fg_style(c.red) && m4.contains_key("markup.heading.2"@) && m4["markup.heading.2"@] == fg_style(c.peach) && m4.contains_key("markup.heading.3"@) && m4["markup.heading.3"@] == fg_style(c.yellow) && m4.contains_key("markup.heading.4"@) && m4["markup.heading.4"@] == fg_style(c.green) && m4.contains_key("markup.heading.5"@) && m4["markup.heading.5"@] == fg_style(c.sky) && m4.contains_key("markup.heading.6"@) && m4["markup.heading.6"@] == fg_style(c.lavender) && m4.contains_key("markup.heading.7"@) && m4["markup.heading.7"@] == fg_style(c.blue) && m4.contains_key("markup.heading.8"@) && m4["markup.heading.8"@] == fg_style(c.blue) && m4.contains_key("markup.italic"@) && m4["markup.italic"@] == (Style { fg: Some(c.red), bg: None, bold: false, italic: true, underline: false }) && m4.contains_key("markup.link"@) && m4["markup.link"@] == fg_style(c.lavender) && m4.contains_key("markup.link.label"@) && m4["markup.link.label"@] == fg_style(c.lavender) && m4.contains_key("markup.link.label.symbol"@) && m4["markup.link.label.symbol"@] == fg_style(c.lavender) && m4.contains_key("markup.link.url"@) && m4["markup.link.url"@] == (Style { fg: Some(c.blue), bg: None, bold: false, italic: true, underline: true }) && m4.contains_key("markup.list"@) && m4["markup.list"@] == fg_style(c.teal) && m4.contains_key("markup.list.checked"@) && m4["markup.list.checked"@] == fg_style(c.green) && m4.contains_key("markup.list.unchecked"@) && m4["markup.list.unchecked"@] == fg_style(c.overlay1) && m4.contains_key("markup.list.markdown"@) && m4["markup.list.markdown"@] == fg_style(c.teal) && m4.contains_key("markup.math"@) && m4["markup.math"@] == fg_style(c.blue) && m4.contains_key("markup.quote"@) && m4["markup.quote"@] == fg_style(c.mauve) && m4.contains_key("markup.raw"@) && m4["markup.raw"@] == fg_style(c.green) && m4.contains_key("markup.raw.block"@) && m4["markup.raw.block"@] == fg_style(c.green) && m4.contains_key("markup.raw.markdown_inline"@) && m4["markup.raw.markdown_inline"@] == fg_style(c.flamingo) && m4.contains_key("markup.strikethrough"@) && m4["markup.strikethrough"@] == fg_style(c.text) && m4.contains_key("markup.strong"@) && m4["markup.strong"@] == (Style { fg: Some(c.red), bg: None, bold: true, italic: false, underline: false }) && m4.contains_key("markup.underline"@) && m4["markup.underline"@] == (Style { fg: None, bg: None, bold: false, italic: false, underline: true }) && m4.contains_key("module"@) && m4["module"@] == (Style { fg: Some(c.yellow), bg: None, bold: false, italic: true, underline: false }) && m4.contains_key("module.builtin"@) && m4["module.builtin"@] == (Style { fg: Some(c.yellow), bg: None, bold: false, italic: true, underline: false }) && m4.contains_key("namespace.builtin"@) && m4["namespace.builtin"@] == (Style { fg: Some(c.yellow), bg: None, bold: false, italic: true, underline: false }) && m4.contains_key("none"@) && m4["none"@] == plain_style() && m4.contains_key("nospell"@) && m4["nospell"@] == fg_bg_style(c.text, c.base) && m4.contains_key("spell"@) && m4["spell"@] == fg_bg_style(c.text, c.base) && m4.contains_key("number"@) && m4["number"@] == fg_style(c.peach) && m4.contains_key("number.float"@) && m4["number.float"@] == fg_style(c.peach));
    let m5 = catppuccin_styles_group5(c, m4);
    assert(m5.contains_key("keyword.debug"@) && m5["keyword.debug"@] == fg_style(c.mauve) && m5.contains_key("keyword.exception"@) && m5["keyword.exception"@] == fg_style(c.mauve) && m5.contains_key("keyword.operator"@) && m5["keyword.operator"@] == fg_style(c.mauve) && m5.contains_key("keyword.storage"@) && m5["keyword.storage"@] == fg_style(c.mauve) && m5.contains_key("type.qualifier"@) && m5["type.qualifier"@] == fg_style(c.mauve) && m5.contains_key("keyword.conditional"@) && m5["keyword.conditional"@] == (Style { fg: Some(c.mauve), bg: None, bold: false, italic: true, underline: false }) && m5.contains_key("keyword.conditional.ternary"@) && m5["keyword.conditional.ternary"@] == fg_style(c.sky) && m5.contains_key("keyword.directive"@) && m5["keyword.directive"@] == fg_style(c.mauve) && m5.contains_key("keyword.directive.define"@) && m5["keyword.directive.define"@] == fg_style(c.mauve) && m5.contains_key("label"@) && m5["label"@] == fg_style(c.sky) && m5.contains_key("markup"@) && m5["markup"@] == fg_style(c.text) && m5.contains_key("markup.heading"@) && m5["markup.heading"@] == fg_style(c.blue) && m5.contains_key("markup.heading.1"@) && m5["markup.heading.1"@] == fg_style(c.red) && m5.contains_key("markup.heading.2"@) && m5["markup.heading.2"@] == fg_style(c.peach) && m5.contains_key("markup.heading.3"@) && m5["markup.heading.3"@] == fg_style(c.yellow) && m5.contains_key("markup.heading.4"@) && m5["markup.heading.4"@] == fg_style(c.green) && m5.contains_key("markup.heading.5"@) && m5["markup.heading.5"@] == fg_style(c.sky) && m5.contains_key("markup.heading.6"@) && m5["markup.heading.6"@] == fg_style(c.lavender) && m5.contains_key("markup.heading.7"@) && m5["markup.heading.7"@] == fg_style(c.blue) && m5.contains_key("markup.heading.8"@) && m5["markup.heading.8"@] == fg_style(c.blue) && m5.contains_key("markup.italic"@) && m5["markup.italic"@] == (Style { fg: Some(c.red), bg: None, bold: false, italic: true, underline: false }) && m5.contains_key("markup.link"@) && m5["markup.link"@] == fg_style(c.lavender) && m5.contains_key("markup.link.label"@) && m5["markup.link.label"@] == fg_style(c.lavender) && m5.contains_key("markup.link.label.symbol"@) && m5["markup.link.label.symbol"@] == fg_style(c.lavender) && m5.contains_key("markup.link.url"@) && m5["markup.link.url"@] == (Style { fg: Some(c.blue), bg: None, bold: false, italic: true, underline: true }) && m5.contains_key("markup.list"@) && m5["markup.list"@] == fg_style(c.teal) && m5.contains_key("markup.list.checked"@) && m5["markup.list.checked"@] == fg_style(c.green) && m5.contains_key("markup.list.unchecked"@) && m5["markup.list.unchecked"@] == fg_style(c.overlay1) && m5.contains_key("markup.list.markdown"@) && m5["markup.list.markdown"@] == fg_style(c.teal) && m5.contains_key("markup.math"@) && m5["markup.math"@] == fg_style(c.blue) && m5.contains_key("markup.quote"@) && m5["markup.quote"@] == fg_style(c.mauve) && m5.contains_key("markup.raw"@) && m5["markup.raw"@] == fg_style(c.green) && m5.contains_key("markup.raw.block"@) && m5["markup.raw.block"@] == fg_style(c.green) && m5.contains_key("markup.raw.markdown_inline"@) && m5["markup.raw.markdown_inline"@] == fg_style(c.flamingo) && m5.contains_key("markup.strikethrough"@) && m5["markup.strikethrough"@] == fg_style(c.text) && m5.contains_key("markup.strong"@) && m5["markup.strong"@] == (Style { fg: Some(c.red), bg: None, bold: true, italic: false, underline: false }) && m5.contains_key("markup.underline"@) && m5["markup.underline"@] == (Style { fg: None, bg: None, bold: false, italic: false, underline: true }) && m5.contains_key("module"@) && m5["module"@] == (Style { fg: Some(c.yellow), bg: None, bold: false, italic: true, underline: false }) && m5.contains_key("module.builtin"@) && m5["module.builtin"@] == (Style { fg: Some(c.yellow), bg: None, bold: false, italic: true, underline: false }) && m5.contains_key("namespace.builtin"@) && m5["namespace.builtin"@] == (Style { fg: Some(c.yellow), bg: None, bold: false, italic: true, underline: false }) && m5.contains_key("none"@) && m5["none"@] == plain_style() && m5.contains_key("nospell"@) && m5["nospell"@] == fg_bg_style(c.text, c.base) && m5.contains_key("spell"@) && m5["spell"@] == fg_bg_style(c.text, c.base) && m5.contains_key("number"@) && m5["number"@] == fg_style(c.peach) && m5.contains_key("number.float"@) && m5["number.float"@] == fg_style(c.peach));
}

/// The style of every capture name in a Catppuccin theme (3 of 3).
pub proof fn lemma_catppuccin_styles_3(c: CatppuccinPalette)
    ensures
        catppuccin_styles(c).contains_key("operator"@),
        catppuccin_styles(c)["operator"@] == fg_style(c.sky),
        catppuccin_styles(c).contains_key("property"@),
        catppuccin_styles(c)["property"@] == fg_style(c.lavender),
        catppuccin_styles(c).contains_key("punctuation"@),
        catppuccin_styles(c)["punctuation"@] == fg_style(c.overlay2),
        catppuccin_styles(c).contains_key("punctuation.bracket"@),
        catppuccin_styles(c)["punctuation.bracket"@] == fg_style(c.overlay2),
        catppuccin_styles(c).contains_key("punctuation.delimiter"@),
        catppuccin_styles(c)["punctuation.delimiter"@] == fg_style(c.overlay2),
        catppuccin_styles(c).contains_key("punctuation.special"@),
        catppuccin_styles(c)["punctuation.special"@] == fg_style(c.mauve),
        catppuccin_styles(c).contains_key("punctuation.special.markdown"@),
        catppuccin_styles(c)["punctuation.special.markdown"@] == fg_style(c.mauve),
        catppuccin_styles(c).contains_key("string"@),
        catppuccin_styles(c)["string"@] == fg_style(c.green),
        catppuccin_styles(c).contains_key("string.documentation"@),
        catppuccin_styles(c)["string.documentation"@] == fg_style(c.teal),
        catppuccin_styles(c).contains_key("string.regexp"@),
        catppuccin_styles(c)["string.regexp"@] == fg_style(c.mauve),
        catppuccin_styles(c).contains_key("string.escape"@),
        catppuccin_styles(c)["string.escape"@] == fg_style(c.mauve),
        catppuccin_styles(c).contains_key("string.special"@),
        catppuccin_styles(c)["string.special"@] == fg_style(c.mauve),
        catppuccin_styles(c).contains_key("string.special.key"@),
        catppuccin_styles(c)["string.special.key"@] == fg_style(c.mauve),
        catppuccin_styles(c).contains_key("string.special.path"@),
        catppuccin_styles(c)["string.special.path"@] == fg_style(c.mauve),
        catppuccin_styles(c).contains_key("string.special.symbol"@),
        catppuccin_styles(c)["string.special.symbol"@] == fg_style(c.flamingo),
        catppuccin_styles(c).contains_key("string.special.url"@),
        catppuccin_styles(c)["string.special.url"@] == (Style { fg: Some(c.blue), bg: None, bold: false, italic: true, underline: true }),
        catppuccin_styles(c).contains_key("tag"@),
        catppuccin_styles(c)["tag"@] == fg_style(c.blue),
        catppuccin_styles(c).contains_key("tag.builtin"@),
        catppuccin_styles(c)["tag.builtin"@] == fg_style(c.blue),
        catppuccin_styles(c).contains_key("tag.attribute"@),
        catppuccin_styles(c)["tag.attribute"@] == (Style { fg: Some(c.yellow), bg: None, bold: false, italic: true, underline: false }),
        catppuccin_styles(c).contains_key("tag.delimiter"@),
        catppuccin_styles(c)["tag.delimiter"@] == fg_style(c.teal),
        catppuccin_styles(c).contains_key("tag.delimiter.tsx"@),
        catppuccin_styles(c)["tag.delimiter.tsx"@] == fg_style(c.teal),
        catppuccin_styles(c).contains_key("tag.javascript"@),
        catppuccin_styles(c)["tag.javascript"@] == fg_style(c.blue),
        catppuccin_styles(c).contains_key("tag.tsx"@),
        catppuccin_styles(c)["tag.tsx"@] == fg_style(c.blue),
        catppuccin_styles(c).contains_key("type"@),
        catppuccin_styles(c)["type"@] == fg_style(c.yellow),
        catppuccin_styles(c).contains_key("type.builtin"@),
        catppuccin_styles(c)["type.builtin"@] == fg_style(c.mauve),
        catppuccin_styles(c).contains_key("type.definition"@),
        catppuccin_styles(c)["type.definition"@] == fg_style(c.yellow),
        catppuccin_styles(c).contains_key("variable"@),
        catppuccin_styles(c)["variable"@] == fg_style(c.text),
        catppuccin_styles(c).contains_key("variable.builtin"@),
        catppuccin_styles(c)["variable.builtin"@] == fg_style(c.red),
        catppuccin_styles(c).contains_key("variable.member"@),
        catppuccin_styles(c)["variable.member"@] == fg_style(c.lavender),
        catppuccin_styles(c).contains_key("variable.parameter"@),
        catppuccin_styles(c)["variable.parameter"@] == fg_style(c.maroon),
        catppuccin_styles(c).contains_key("variable.parameter.builtin"@),
        catppuccin_styles(c)["variable.parameter.builtin"@] == fg_style(c.maroon),
{
    reveal_strlit("operator");
    assert("operator"@.len() == 8);
    reveal_strlit("property");
    assert("operator"@[0] != "property"@[0]);
    reveal_strlit("punctuation");
    assert("punctuation"@.len() == 11);
    reveal_strlit("punctuation.bracket");
    assert("punctuation.bracket"@.len() == 19);
    reveal_strlit("punctuation.delimiter");
    assert("punctuation.delimiter"@.len() == 21);
    reveal_strlit("punctuation.special");
    assert("punctuation.special"@.len() == 19);
    reveal_strlit("punctuation.special.markdown");
    assert("punctuation.special.markdown"@.len() == 28);
    reveal_strlit("string");
    assert("string"@.len() == 6);
    reveal_strlit("string.documentation");
    assert("string.documentation"@.len() == 20);
    reveal_strlit("string.regexp");
    assert("string.regexp"@.len() == 13);
    reveal_strlit("string.escape");
    assert("string.escape"@.len() == 13);
    reveal_strlit("string.special");
    assert("string.special"@.len() == 14);
    reveal_strlit("string.special.key");
    assert("string.special.key"@.len() == 18);
    reveal_strlit("string.special.path");
    assert("string.special.path"@.len() == 19);
    reveal_strlit("string.special.symbol");
    assert("string.special.symbol"@.len() == 21);
    reveal_strlit("string.special.url");
    assert("string.special.url"@.len() == 18);
    reveal_strlit("tag");
    assert("tag"@.len() == 3);
    reveal_strlit("tag.builtin");
    assert("tag.builtin"@.len() == 11);
    reveal_strlit("tag.attribute");
    assert("tag.attribute"@.len() == 13);
    reveal_strlit("tag.delimiter");
    assert("tag.delimiter"@.len() == 13);
    reveal_strlit("tag.delimiter.tsx");
    assert("tag.delimiter.tsx"@.len() == 17);
    reveal_strlit("tag.javascript");
    assert("tag.javascript"@.len() == 14);
    reveal_strlit("tag.tsx");
    assert("tag.tsx"@.len() == 7);
    reveal_strlit("type");
    assert("type"@.len() == 4);
    reveal_strlit("type.builtin");
    assert("type.builtin"@.len() == 12);
    reveal_strlit("type.definition");
    assert("type.definition"@.len() == 15);
    reveal_strlit("variable");
    assert("operator"@[0] != "variable"@[0]);
    reveal_strlit("variable.builtin");
    assert("variable.builtin"@.len() == 16);
    reveal_strlit("variable.member");
    assert("variable.member"@.len() == 15);
    reveal_strlit("variable.parameter");
    assert("variable.parameter"@.len() == 18);
    reveal_strlit("variable.parameter.builtin");
    assert("variable.parameter.builtin"@.len() == 26);
    assert("property"@.len() == 8);
    assert("property"@[0] != "variable"@[0]);
    assert("punctuation"@[0] != "tag.builtin"@[0]);
    assert("variable"@.len() == 8);
    assert("punctuation.bracket"@[12] != "punctuation.special"@[12]);
    assert("punctuation.bracket"@[0] != "string.special.path"@[0]);
    assert("punctuation.delimiter"@[0] != "string.special.symbol"@[0]);
    assert("punctuation.special"@[0] != "string.special.path"@[0]);
    assert("string.regexp"@[7] != "string.escape"@[7]);
    assert("string.regexp"@[0] != "tag.attribute"@[0]);
    assert("string.regexp"@[0] != "tag.delimiter"@[0]);
    assert("string.escape"@[0] != "tag.attribute"@[0]);
    assert("string.escape"@[0] != "tag.delimiter"@[0]);
    assert("string.special"@[0] != "tag.javascript"@[0]);
    assert("string.special.key"@[15] != "string.special.url"@[15]);
    assert("string.special.key"@[0] != "variable.parameter"@[0]);
    assert("string.special.url"@[0] != "variable.parameter"@[0]);
    assert("tag.attribute"@[4] != "tag.delimiter"@[4]);
    assert("type.definition"@[0] != "variable.member"@[0]);
    let m1 = catppuccin_styles_group1(c, Map::empty());
    let m2 = catppuccin_styles_group2(c, m1);
    let m3 = catppuccin_styles_group3(c, m2);
    let m4 = catppuccin_styles_group4(c, m3);
    assert(m4.contains_key("operator"@) && m4["operator"@] == fg_style(c.sky) && m4.contains_key("property"@) && m4["property"@] == fg_style(c.lavender) && m4.contains_key("punctuation"@) && m4["punctuation"@] == fg_style(c.overlay2) && m4.contains_key("punctuation.bracket"@) && m4["punctuation.bracket"@] == fg_style(c.overlay2) && m4.contains_key("punctuation.delimiter"@) && m4["punctuation.delimiter"@] == fg_style(c.overlay2) && m4.contains_key("punctuation.special"@) && m4["punctuation.special"@] == fg_style(c.mauve) && m4.contains_key("punctuation.special.markdown"@) && m4["punctuation.special.markdown"@] == fg_style(c.mauve) && m4.contains_key("string"@) && m4["string"@] == fg_style(c.green) && m4.contains_key("string.documentation"@) && m4["string.documentation"@] == fg_style(c.teal) && m4.contains_key("string.regexp"@) && m4["string.regexp"@] == fg_style(c.mauve));
    let m5 = catppuccin_styles_group5(c, m4);
    assert(m5.contains_key("operator"@) && m5["operator"@] == fg_style(c.sky) && m5.contains_key("property"@) && m5["property"@] == fg_style(c.lavender) && m5.contains_key("punctuation"@) && m5["punctuation"@] == fg_style(c.overlay2) && m5.contains_key("punctuation.bracket"@) && m5["punctuation.bracket"@] == fg_style(c.overlay2) && m5.contains_key("punctuation.delimiter"@) && m5["punctuation.delimiter"@] == fg_style(c.overlay2) && m5.contains_key("punctuation.special"@) && m5["punctuation.special"@] == fg_style(c.mauve) && m5.contains_key("punctuation.special.markdown"@) && m5["punctuation.special.markdown"@] == fg_style(c.mauve) && m5.contains_key("string"@) && m5["string"@] == fg_style(c.green) && m5.contains_key("string.documentation"@) && m5["string.documentation"@] == fg_style(c.teal) && m5.contains_key("string.regexp"@) && m5["string.regexp"@] == fg_style(c.mauve) && m5.contains_key("string.escape"@) && m5["string.escape"@] == fg_style(c.mauve) && m5.contains_key("string.special"@) && m5["string.special"@] == fg_style(c.mauve) && m5.contains_key("string.special.key"@) && m5["string.special.key"@] == fg_style(c.mauve) && m5.contains_key("string.special.path"@) && m5["string.special.path"@] == fg_style(c.mauve) && m5.contains_key("string.special.symbol"@) && m5["string.special.symbol"@] == fg_style(c.flamingo) && m5.contains_key("string.special.url"@) && m5["string.special.url"@] == (Style { fg: Some(c.blue), bg: None, bold: false, italic: true, underline: true }) && m5.contains_key("tag"@) && m5["tag"@] == fg_style(c.blue) && m5.contains_key("tag.builtin"@) && m5["tag.builtin"@] == fg_style(c.blue) && m5.contains_key("tag.attribute"@) && m5["tag.attribute"@] == (Style { fg: Some(c.yellow), bg: None, bold: false, italic: true, underline: false }) && m5.contains_key("tag.delimiter"@) && m5["tag.delimiter"@] == fg_style(c.teal) && m5.contains_key("tag.delimiter.tsx"@) && m5["tag.delimiter.tsx"@] == fg_style(c.teal) && m5.contains_key("tag.javascript"@) && m5["tag.javascript"@] == fg_style(c.blue) && m5.contains_key("tag.tsx"@) && m5["tag.tsx"@] == fg_style(c.blue) && m5.contains_key("type"@) && m5["type"@] == fg_style(c.yellow) && m5.contains_key("type.builtin"@) && m5["type.builtin"@] == fg_style(c.mauve) && m5.contains_key("type.definition"@) && m5["type.definition"@] == fg_style(c.yellow) && m5.contains_key("variable"@) && m5["variable"@] == fg_style(c.text) && m5.contains_key("variable.builtin"@) && m5["variable.builtin"@] == fg_style(c.red) && m5.contains_key("variable.member"@) && m5["variable.member"@] == fg_style(c.lavender) && m5.contains_key("variable.parameter"@) && m5["variable.parameter"@] == fg_style(c.maroon) && m5.contains_key("variable.parameter.builtin"@) && m5["variable.parameter.builtin"@] == fg_style(c.maroon));
}

/// The style of every UI role in a Catppuccin theme.
pub proof fn lemma_catppuccin_ui(variant: CatppuccinVariant, c: CatppuccinPalette)
    ensures
        catppuccin_ui(variant, c).contains_key("default_fg"@),
        catppuccin_ui(variant, c)["default_fg"@] == fg_style(c.text),
        catppuccin_ui(variant, c).contains_key("default_bg"@),
        catppuccin_ui(variant, c)["default_bg"@] == bg_style(c.base),
        catppuccin_ui(variant, c).contains_key("statusline"@),
        catppuccin_ui(variant, c)["statusline"@] == fg_bg_style(c.text, c.mantle),
        catppuccin_ui(variant, c).contains_key("statusline_inactive"@),
        catppuccin_ui(variant, c)["statusline_inactive"@] == fg_bg_style(c.surface1, c.mantle),
        catppuccin_ui(variant, c).contains_key("tab_active"@),
        catppuccin_ui(variant, c)["tab_active"@] == fg_bg_style(c.text, c.base),
        catppuccin_ui(variant, c).contains_key("tab_inactive"@),
        catppuccin_ui(variant, c)["tab_inactive"@] == fg_bg_style(c.overlay0, c.crust),
        catppuccin_ui(variant, c).contains_key("selection"@),
        catppuccin_ui(variant, c)["selection"@] == (Style { fg: None, bg: Some(c.surface1), bold: true, italic: false, underline: false }),
        catppuccin_ui(variant, c).contains_key("cursorline"@),
        catppuccin_ui(variant, c)["cursorline"@] == bg_style((match variant { CatppuccinVariant::Latte => blended(c.mantle, 7, 10, c.base), _ => blended(c.surface0, 16, 25, c.base) })),
{
    reveal_strlit("default_fg");
    assert("default_fg"@.len() == 10);
    reveal_strlit("default_bg");
    assert("default_fg"@[8] != "default_bg"@[8]);
    reveal_strlit("statusline");
    assert("default_fg"@[0] != "statusline"@[0]);
    reveal_strlit("statusline_inactive");
    assert("statusline_inactive"@.len() == 19);
    reveal_strlit("tab_active");
    assert("default_fg"@[0] != "tab_active"@[0]);
    reveal_strlit("tab_inactive");
    assert("tab_inactive"@.len() == 12);
    reveal_strlit("selection");
    assert("selection"@.len() == 9);
    reveal_strlit("cursorline");
    assert("default_fg"@[0] != "cursorline"@[0]);
    assert("default_bg"@.len() == 10);
    assert("default_bg"@[0] != "statusline"@[0]);
    assert("default_bg"@[0] != "tab_active"@[0]);
    assert("default_bg"@[0] != "cursorline"@[0]);
    assert("statusline"@.len() == 10);
    assert("statusline"@[0] != "tab_active"@[0]);
    assert("statusline"@[0] != "cursorline"@[0]);
    assert("tab_active"@.len() == 10);
    assert("cursorline"@.len() == 10);
    assert("tab_active"@[0] != "cursorline"@[0]);
}

} // verus!
