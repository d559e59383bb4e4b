//! The Tokyo Night theme family.
use crate::style::{
    bg_style, blend_ratio, blended, fg_bg_style, fg_bold_style, fg_italic_style, fg_style,
    plain_style, Rgb, Style,
};
use crate::style_map::StyleMap;
use crate::theme::Theme;
use vstd::prelude::*;

verus! {

/// The Tokyo Night variants.
#[derive(Debug, Clone, Copy, PartialEq, Eq, Structural)]
pub enum TokyoNightVariant {
    Night,
    Storm,
    Moon,
    Day,
}

/// The colors of one Tokyo Night variant.
#[derive(Debug, Clone, Copy, PartialEq, Eq, Structural)]
pub struct TokyoNightPalette {
    pub bg: Rgb,
    pub bg_highlight: Rgb,
    pub bg_statusline: Rgb,
    pub bg_visual: Rgb,
    pub black: Rgb,
    pub blue: Rgb,
    pub blue1: Rgb,
    pub blue5: Rgb,
    pub blue6: Rgb,
    pub comment: Rgb,
    pub cyan: Rgb,
    pub dark3: Rgb,
    pub dark5: Rgb,
    pub diff_add: Rgb,
    pub diff_change: Rgb,
    pub diff_delete: Rgb,
    pub error: Rgb,
    pub fg: Rgb,
    pub fg_dark: Rgb,
    pub fg_gutter: Rgb,
    pub fg_sidebar: Rgb,
    pub green: Rgb,
    pub green1: Rgb,
    pub hint: Rgb,
    pub info: Rgb,
    pub magenta: Rgb,
    pub orange: Rgb,
    pub purple: Rgb,
    pub red: Rgb,
    pub teal: Rgb,
    pub todo: Rgb,
    pub warning: Rgb,
    pub yellow: Rgb,
    pub terminal_black: Rgb,
}

/// The palette of the night variant.
pub open spec fn tokyonight_night_palette() -> TokyoNightPalette {
    TokyoNightPalette {
        bg: Rgb { r: 0x1a, g: 0x1b, b: 0x26 },
        bg_highlight: Rgb { r: 0x29, g: 0x2e, b: 0x42 },
        bg_statusline: Rgb { r: 0x16, g: 0x16, b: 0x1e },
        bg_visual: Rgb { r: 0x28, g: 0x34, b: 0x57 },
        black: Rgb { r: 0x15, g: 0x16, b: 0x1e },
        blue: Rgb { r: 0x7a, g: 0xa2, b: 0xf7 },
        blue1: Rgb { r: 0x2a, g: 0xc3, b: 0xde },
        blue5: Rgb { r: 0x89, g: 0xdd, b: 0xff },
        blue6: Rgb { r: 0xb4, g: 0xf9, b: 0xf8 },
        comment: Rgb { r: 0x56, g: 0x5f, b: 0x89 },
        cyan: Rgb { r: 0x7d, g: 0xcf, b: 0xff },
        dark3: Rgb { r: 0x54, g: 0x5c, b: 0x7e },
        dark5: Rgb { r: 0x73, g: 0x7a, b: 0xa2 },
        diff_add: Rgb { r: 0x24, g: 0x3e, b: 0x4a },
        diff_change: Rgb { r: 0x1f, g: 0x22, b: 0x31 },
        diff_delete: Rgb { r: 0x4a, g: 0x27, b: 0x2f },
        error: Rgb { r: 0xdb, g: 0x4b, b: 0x4b },
        fg: Rgb { r: 0xc0, g: 0xca, b: 0xf5 },
        fg_dark: Rgb { r: 0xa9, g: 0xb1, b: 0xd6 },
        fg_gutter: Rgb { r: 0x3b, g: 0x42, b: 0x61 },
        fg_sidebar: Rgb { r: 0xa9, g: 0xb1, b: 0xd6 },
        green: Rgb { r: 0x9e, g: 0xce, b: 0x6a },
        green1: Rgb { r: 0x73, g: 0xda, b: 0xca },
        hint: Rgb { r: 0x1a, g: 0xbc, b: 0x9c },
        info: Rgb { r: 0x0d, g: 0xb9, b: 0xd7 },
        magenta: Rgb { r: 0xbb, g: 0x9a, b: 0xf7 },
        orange: Rgb { r: 0xff, g: 0x9e, b: 0x64 },
        purple: Rgb { r: 0x9d, g: 0x7c, b: 0xd8 },
        red: Rgb { r: 0xf7, g: 0x76, b: 0x8e },
        teal: Rgb { r: 0x1a, g: 0xbc, b: 0x9c },
        todo: Rgb { r: 0x7a, g: 0xa2, b: 0xf7 },
        warning: Rgb { r: 0xe0, g: 0xaf, b: 0x68 },
        yellow: Rgb { r: 0xe0, g: 0xaf, b: 0x68 },
        terminal_black: Rgb { r: 0x41, g: 0x48, b: 0x68 },
    }
}

/// The palette of the storm variant.
pub open spec fn tokyonight_storm_palette() -> TokyoNightPalette {
    TokyoNightPalette {
        bg: Rgb { r: 0x24, g: 0x28, b: 0x3b },
        bg_highlight: Rgb { r: 0x29, g: 0x2e, b: 0x42 },
        bg_statusline: Rgb { r: 0x1f, g: 0x23, b: 0x35 },
        bg_visual: Rgb { r: 0x2e, g: 0x3c, b: 0x64 },
        black: Rgb { r: 0x1d, g: 0x20, b: 0x2f },
        blue: Rgb { r: 0x7a, g: 0xa2, b: 0xf7 },
        blue1: Rgb { r: 0x2a, g: 0xc3, b: 0xde },
        blue5: Rgb { r: 0x89, g: 0xdd, b: 0xff },
        blue6: Rgb { r: 0xb4, g: 0xf9, b: 0xf8 },
        comment: Rgb { r: 0x56, g: 0x5f, b: 0x89 },
        cyan: Rgb { r: 0x7d, g: 0xcf, b: 0xff },
        dark3: Rgb { r: 0x54, g: 0x5c, b: 0x7e },
        dark5: Rgb { r: 0x73, g: 0x7a, b: 0xa2 },
        diff_add: Rgb { r: 0x2b, g: 0x48, b: 0x5a },
        diff_change: Rgb { r: 0x27, g: 0x2d, b: 0x43 },
        diff_delete: Rgb { r: 0x52, g: 0x31, b: 0x3f },
        error: Rgb { r: 0xdb, g: 0x4b, b: 0x4b },
        fg: Rgb { r: 0xc0, g: 0xca, b: 0xf5 },
        fg_dark: Rgb { r: 0xa9, g: 0xb1, b: 0xd6 },
        fg_gutter: Rgb { r: 0x3b, g: 0x42, b: 0x61 },
        fg_sidebar: Rgb { r: 0xa9, g: 0xb1, b: 0xd6 },
        green: Rgb { r: 0x9e, g: 0xce, b: 0x6a },
        green1: Rgb { r: 0x73, g: 0xda, b: 0xca },
        hint: Rgb { r: 0x1a, g: 0xbc, b: 0x9c },
        info: Rgb { r: 0x0d, g: 0xb9, b: 0xd7 },
        magenta: Rgb { r: 0xbb, g: 0x9a, b: 0xf7 },
        orange: Rgb { r: 0xff, g: 0x9e, b: 0x64 },
        purple: Rgb { r: 0x9d, g: 0x7c, b: 0xd8 },
        red: Rgb { r: 0xf7, g: 0x76, b: 0x8e },
        teal: Rgb { r: 0x1a, g: 0xbc, b: 0x9c },
        todo: Rgb { r: 0x7a, g: 0xa2, b: 0xf7 },
        warning: Rgb { r: 0xe0, g: 0xaf, b: 0x68 },
        yellow: Rgb { r: 0xe0, g: 0xaf, b: 0x68 },
        terminal_black: Rgb { r: 0x41, g: 0x48, b: 0x68 },
    }
}

/// The palette of the moon variant.
pub open spec fn tokyonight_moon_palette() -> TokyoNightPalette {
    TokyoNightPalette {
        bg: Rgb { r: 0x22, g: 0x24, b: 0x36 },
        bg_highlight: Rgb { r: 0x2f, g: 0x33, b: 0x4d },
        bg_statusline: Rgb { r: 0x1e, g: 0x20, b: 0x30 },
        bg_visual: Rgb { r: 0x2d, g: 0x3f, b: 0x76 },
        black: Rgb { r: 0x1b, g: 0x1d, b: 0x2b },
        blue: Rgb { r: 0x82, g: 0xaa, b: 0xff },
        blue1: Rgb { r: 0x65, g: 0xbc, b: 0xff },
        blue5: Rgb { r: 0x89, g: 0xdd, b: 0xff },
        blue6: Rgb { r: 0xb4, g: 0xf9, b: 0xf8 },
        comment: Rgb { r: 0x63, g: 0x6d, b: 0xa6 },
        cyan: Rgb { r: 0x86, g: 0xe1, b: 0xfc },
        dark3: Rgb { r: 0x54, g: 0x5c, b: 0x7e },
        dark5: Rgb { r: 0x73, g: 0x7a, b: 0xa2 },
        diff_add: Rgb { r: 0x2a, g: 0x45, b: 0x56 },
        diff_change: Rgb { r: 0x25, g: 0x2a, b: 0x3f },
        diff_delete: Rgb { r: 0x4b, g: 0x2a, b: 0x3d },
        error: Rgb { r: 0xc5, g: 0x3b, b: 0x53 },
        fg: Rgb { r: 0xc8, g: 0xd3, b: 0xf5 },
        fg_dark: Rgb { r: 0x82, g: 0x8b, b: 0xb8 },
        fg_gutter: Rgb { r: 0x3b, g: 0x42, b: 0x61 },
        fg_sidebar: Rgb { r: 0x82, g: 0x8b, b: 0xb8 },
        green: Rgb { r: 0xc3, g: 0xe8, b: 0x8d },
        green1: Rgb { r: 0x4f, g: 0xd6, b: 0xbe },
        hint: Rgb { r: 0x4f, g: 0xd6, b: 0xbe },
        info: Rgb { r: 0x0d, g: 0xb9, b: 0xd7 },
        magenta: Rgb { r: 0xc0, g: 0x99, b: 0xff },
        orange: Rgb { r: 0xff, g: 0x96, b: 0x6c },
        purple: Rgb { r: 0xfc, g: 0xa7, b: 0xea },
        red: Rgb { r: 0xff, g: 0x75, b: 0x7f },
        teal: Rgb { r: 0x4f, g: 0xd6, b: 0xbe },
        todo: Rgb { r: 0x82, g: 0xaa, b: 0xff },
        warning: Rgb { r: 0xff, g: 0xc7, b: 0x77 },
        yellow: Rgb { r: 0xff, g: 0xc7, b: 0x77 },
        terminal_black: Rgb { r: 0x44, g: 0x4a, b: 0x73 },
    }
}

/// The palette of the day variant.
pub open spec fn tokyonight_day_palette() -> TokyoNightPalette {
    TokyoNightPalette {
        bg: Rgb { r: 0xe1, g: 0xe2, b: 0xe7 },
        bg_highlight: Rgb { r: 0xc4, g: 0xc8, b: 0xda },
        bg_statusline: Rgb { r: 0xd0, g: 0xd5, b: 0xe3 },
        bg_visual: Rgb { r: 0xb7, g: 0xc1, b: 0xe3 },
        black: Rgb { r: 0xb4, g: 0xb5, b: 0xb9 },
        blue: Rgb { r: 0x2e, g: 0x7d, b: 0xe9 },
        blue1: Rgb { r: 0x18, g: 0x80, b: 0x92 },
        blue5: Rgb { r: 0x00, g: 0x6a, b: 0x83 },
        blue6: Rgb { r: 0x2e, g: 0x58, b: 0x57 },
        comment: Rgb { r: 0x84, g: 0x8c, b: 0xb5 },
        cyan: Rgb { r: 0x00, g: 0x71, b: 0x97 },
        dark3: Rgb { r: 0x89, g: 0x90, b: 0xb3 },
        dark5: Rgb { r: 0x68, g: 0x70, b: 0x9a },
        diff_add: Rgb { r: 0xb7, g: 0xce, b: 0xd5 },
        diff_change: Rgb { r: 0xd5, g: 0xd9, b: 0xe4 },
        diff_delete: Rgb { r: 0xda, g: 0xba, b: 0xbe },
        error: Rgb { r: 0xc6, g: 0x43, b: 0x43 },
        fg: Rgb { r: 0x37, g: 0x60, b: 0xbf },
        fg_dark: Rgb { r: 0x61, g: 0x72, b: 0xb0 },
        fg_gutter: Rgb { r: 0xa8, g: 0xae, b: 0xcb },
        fg_sidebar: Rgb { r: 0x61, g: 0x72, b: 0xb0 },
        green: Rgb { r: 0x58, g: 0x75, b: 0x39 },
        green1: Rgb { r: 0x38, g: 0x70, b: 0x68 },
        hint: Rgb { r: 0x11, g: 0x8c, b: 0x74 },
        info: Rgb { r: 0x07, g: 0x87, b: 0x9d },
        magenta: Rgb { r: 0x98, g: 0x54, b: 0xf1 },
        orange: Rgb { r: 0xb1, g: 0x5c, b: 0x00 },
        purple: Rgb { r: 0x78, g: 0x47, b: 0xbd },
        red: Rgb { r: 0xf5, g: 0x2a, b: 0x65 },
        teal: Rgb { r: 0x11, g: 0x8c, b: 0x74 },
        todo: Rgb { r: 0x2e, g: 0x7d, b: 0xe9 },
        warning: Rgb { r: 0x8c, g: 0x6c, b: 0x3e },
        yellow: Rgb { r: 0x8c, g: 0x6c, b: 0x3e },
        terminal_black: Rgb { r: 0xa1, g: 0xa6, b: 0xc5 },
    }
}

/// The palette of a variant.
pub open spec fn tokyonight_palette(variant: TokyoNightVariant) -> TokyoNightPalette {
    match variant {
        TokyoNightVariant::Night => tokyonight_night_palette(),
        TokyoNightVariant::Storm => tokyonight_storm_palette(),
        TokyoNightVariant::Moon => tokyonight_moon_palette(),
        TokyoNightVariant::Day => tokyonight_day_palette(),
    }
}

impl TokyoNightPalette {
    /// Returns the palette of a variant.
    pub fn for_variant(variant: TokyoNightVariant) -> (p: Self)
        ensures
            p == tokyonight_palette(variant),
    {
        match variant {
            TokyoNightVariant::Night => TokyoNightPalette::night(),
            TokyoNightVariant::Storm => TokyoNightPalette::storm(),
            TokyoNightVariant::Moon => TokyoNightPalette::moon(),
            TokyoNightVariant::Day => TokyoNightPalette::day(),
        }
    }

    /// The palette of the night variant.
    pub fn night() -> (p: Self)
        ensures
            p == tokyonight_night_palette(),
    {
        TokyoNightPalette {
            bg: Rgb { r: 0x1a, g: 0x1b, b: 0x26 },
            bg_highlight: Rgb { r: 0x29, g: 0x2e, b: 0x42 },
            bg_statusline: Rgb { r: 0x16, g: 0x16, b: 0x1e },
            bg_visual: Rgb { r: 0x28, g: 0x34, b: 0x57 },
            black: Rgb { r: 0x15, g: 0x16, b: 0x1e },
            blue: Rgb { r: 0x7a, g: 0xa2, b: 0xf7 },
            blue1: Rgb { r: 0x2a, g: 0xc3, b: 0xde },
            blue5: Rgb { r: 0x89, g: 0xdd, b: 0xff },
            blue6: Rgb { r: 0xb4, g: 0xf9, b: 0xf8 },
            comment: Rgb { r: 0x56, g: 0x5f, b: 0x89 },
            cyan: Rgb { r: 0x7d, g: 0xcf, b: 0xff },
            dark3: Rgb { r: 0x54, g: 0x5c, b: 0x7e },
            dark5: Rgb { r: 0x73, g: 0x7a, b: 0xa2 },
            diff_add: Rgb { r: 0x24, g: 0x3e, b: 0x4a },
            diff_change: Rgb { r: 0x1f, g: 0x22, b: 0x31 },
            diff_delete: Rgb { r: 0x4a, g: 0x27, b: 0x2f },
            error: Rgb { r: 0xdb, g: 0x4b, b: 0x4b },
            fg: Rgb { r: 0xc0, g: 0xca, b: 0xf5 },
            fg_dark: Rgb { r: 0xa9, g: 0xb1, b: 0xd6 },
            fg_gutter: Rgb { r: 0x3b, g: 0x42, b: 0x61 },
            fg_sidebar: Rgb { r: 0xa9, g: 0xb1, b: 0xd6 },
            green: Rgb { r: 0x9e, g: 0xce, b: 0x6a },
            green1: Rgb { r: 0x73, g: 0xda, b: 0xca },
            hint: Rgb { r: 0x1a, g: 0xbc, b: 0x9c },
            info: Rgb { r: 0x0d, g: 0xb9, b: 0xd7 },
            magenta: Rgb { r: 0xbb, g: 0x9a, b: 0xf7 },
            orange: Rgb { r: 0xff, g: 0x9e, b: 0x64 },
            purple: Rgb { r: 0x9d, g: 0x7c, b: 0xd8 },
            red: Rgb { r: 0xf7, g: 0x76, b: 0x8e },
            teal: Rgb { r: 0x1a, g: 0xbc, b: 0x9c },
            todo: Rgb { r: 0x7a, g: 0xa2, b: 0xf7 },
            warning: Rgb { r: 0xe0, g: 0xaf, b: 0x68 },
            yellow: Rgb { r: 0xe0, g: 0xaf, b: 0x68 },
            terminal_black: Rgb { r: 0x41, g: 0x48, b: 0x68 },
        }
    }

    /// The palette of the storm variant.
    pub fn storm() -> (p: Self)
        ensures
            p == tokyonight_storm_palette(),
    {
        TokyoNightPalette {
            bg: Rgb { r: 0x24, g: 0x28, b: 0x3b },
            bg_highlight: Rgb { r: 0x29, g: 0x2e, b: 0x42 },
            bg_statusline: Rgb { r: 0x1f, g: 0x23, b: 0x35 },
            bg_visual: Rgb { r: 0x2e, g: 0x3c, b: 0x64 },
            black: Rgb { r: 0x1d, g: 0x20, b: 0x2f },
            blue: Rgb { r: 0x7a, g: 0xa2, b: 0xf7 },
            blue1: Rgb { r: 0x2a, g: 0xc3, b: 0xde },
            blue5: Rgb { r: 0x89, g: 0xdd, b: 0xff },
            blue6: Rgb { r: 0xb4, g: 0xf9, b: 0xf8 },
            comment: Rgb { r: 0x56, g: 0x5f, b: 0x89 },
            cyan: Rgb { r: 0x7d, g: 0xcf, b: 0xff },
            dark3: Rgb { r: 0x54, g: 0x5c, b: 0x7e },
            dark5: Rgb { r: 0x73, g: 0x7a, b: 0xa2 },
            diff_add: Rgb { r: 0x2b, g: 0x48, b: 0x5a },
            diff_change: Rgb { r: 0x27, g: 0x2d, b: 0x43 },
            diff_delete: Rgb { r: 0x52, g: 0x31, b: 0x3f },
            error: Rgb { r: 0xdb, g: 0x4b, b: 0x4b },
            fg: Rgb { r: 0xc0, g: 0xca, b: 0xf5 },
            fg_dark: Rgb { r: 0xa9, g: 0xb1, b: 0xd6 },
            fg_gutter: Rgb { r: 0x3b, g: 0x42, b: 0x61 },
            fg_sidebar: Rgb { r: 0xa9, g: 0xb1, b: 0xd6 },
            green: Rgb { r: 0x9e, g: 0xce, b: 0x6a },
            green1: Rgb { r: 0x73, g: 0xda, b: 0xca },
            hint: Rgb { r: 0x1a, g: 0xbc, b: 0x9c },
            info: Rgb { r: 0x0d, g: 0xb9, b: 0xd7 },
            magenta: Rgb { r: 0xbb, g: 0x9a, b: 0xf7 },
            orange: Rgb { r: 0xff, g: 0x9e, b: 0x64 },
            purple: Rgb { r: 0x9d, g: 0x7c, b: 0xd8 },
            red: Rgb { r: 0xf7, g: 0x76, b: 0x8e },
            teal: Rgb { r: 0x1a, g: 0xbc, b: 0x9c },
            todo: Rgb { r: 0x7a, g: 0xa2, b: 0xf7 },
            warning: Rgb { r: 0xe0, g: 0xaf, b: 0x68 },
            yellow: Rgb { r: 0xe0, g: 0xaf, b: 0x68 },
            terminal_black: Rgb { r: 0x41, g: 0x48, b: 0x68 },
        }
    }

    /// The palette of the moon variant.
    pub fn moon() -> (p: Self)
        ensures
            p == tokyonight_moon_palette(),
    {
        TokyoNightPalette {
            bg: Rgb { r: 0x22, g: 0x24, b: 0x36 },
            bg_highlight: Rgb { r: 0x2f, g: 0x33, b: 0x4d },
            bg_statusline: Rgb { r: 0x1e, g: 0x20, b: 0x30 },
            bg_visual: Rgb { r: 0x2d, g: 0x3f, b: 0x76 },
            black: Rgb { r: 0x1b, g: 0x1d, b: 0x2b },
            blue: Rgb { r: 0x82, g: 0xaa, b: 0xff },
            blue1: Rgb { r: 0x65, g: 0xbc, b: 0xff },
            blue5: Rgb { r: 0x89, g: 0xdd, b: 0xff },
            blue6: Rgb { r: 0xb4, g: 0xf9, b: 0xf8 },
            comment: Rgb { r: 0x63, g: 0x6d, b: 0xa6 },
            cyan: Rgb { r: 0x86, g: 0xe1, b: 0xfc },
            dark3: Rgb { r: 0x54, g: 0x5c, b: 0x7e },
            dark5: Rgb { r: 0x73, g: 0x7a, b: 0xa2 },
            diff_add: Rgb { r: 0x2a, g: 0x45, b: 0x56 },
            diff_change: Rgb { r: 0x25, g: 0x2a, b: 0x3f },
            diff_delete: Rgb { r: 0x4b, g: 0x2a, b: 0x3d },
            error: Rgb { r: 0xc5, g: 0x3b, b: 0x53 },
            fg: Rgb { r: 0xc8, g: 0xd3, b: 0xf5 },
            fg_dark: Rgb { r: 0x82, g: 0x8b, b: 0xb8 },
            fg_gutter: Rgb { r: 0x3b, g: 0x42, b: 0x61 },
            fg_sidebar: Rgb { r: 0x82, g: 0x8b, b: 0xb8 },
            green: Rgb { r: 0xc3, g: 0xe8, b: 0x8d },
            green1: Rgb { r: 0x4f, g: 0xd6, b: 0xbe },
            hint: Rgb { r: 0x4f, g: 0xd6, b: 0xbe },
            info: Rgb { r: 0x0d, g: 0xb9, b: 0xd7 },
            magenta: Rgb { r: 0xc0, g: 0x99, b: 0xff },
            orange: Rgb { r: 0xff, g: 0x96, b: 0x6c },
            purple: Rgb { r: 0xfc, g: 0xa7, b: 0xea },
            red: Rgb { r: 0xff, g: 0x75, b: 0x7f },
            teal: Rgb { r: 0x4f, g: 0xd6, b: 0xbe },
            todo: Rgb { r: 0x82, g: 0xaa, b: 0xff },
            warning: Rgb { r: 0xff, g: 0xc7, b: 0x77 },
            yellow: Rgb { r: 0xff, g: 0xc7, b: 0x77 },
            terminal_black: Rgb { r: 0x44, g: 0x4a, b: 0x73 },
        }
    }

    /// The palette of the day variant.
    pub fn day() -> (p: Self)
        ensures
            p == tokyonight_day_palette(),
    {
        TokyoNightPalette {
            bg: Rgb { r: 0xe1, g: 0xe2, b: 0xe7 },
            bg_highlight: Rgb { r: 0xc4, g: 0xc8, b: 0xda },
            bg_statusline: Rgb { r: 0xd0, g: 0xd5, b: 0xe3 },
            bg_visual: Rgb { r: 0xb7, g: 0xc1, b: 0xe3 },
            black: Rgb { r: 0xb4, g: 0xb5, b: 0xb9 },
            blue: Rgb { r: 0x2e, g: 0x7d, b: 0xe9 },
            blue1: Rgb { r: 0x18, g: 0x80, b: 0x92 },
            blue5: Rgb { r: 0x00, g: 0x6a, b: 0x83 },
            blue6: Rgb { r: 0x2e, g: 0x58, b: 0x57 },
            comment: Rgb { r: 0x84, g: 0x8c, b: 0xb5 },
            cyan: Rgb { r: 0x00, g: 0x71, b: 0x97 },
            dark3: Rgb { r: 0x89, g: 0x90, b: 0xb3 },
            dark5: Rgb { r: 0x68, g: 0x70, b: 0x9a },
            diff_add: Rgb { r: 0xb7, g: 0xce, b: 0xd5 },
            diff_change: Rgb { r: 0xd5, g: 0xd9, b: 0xe4 },
            diff_delete: Rgb { r: 0xda, g: 0xba, b: 0xbe },
            error: Rgb { r: 0xc6, g: 0x43, b: 0x43 },
            fg: Rgb { r: 0x37, g: 0x60, b: 0xbf },
            fg_dark: Rgb { r: 0x61, g: 0x72, b: 0xb0 },
            fg_gutter: Rgb { r: 0xa8, g: 0xae, b: 0xcb },
            fg_sidebar: Rgb { r: 0x61, g: 0x72, b: 0xb0 },
            green: Rgb { r: 0x58, g: 0x75, b: 0x39 },
            green1: Rgb { r: 0x38, g: 0x70, b: 0x68 },
            hint: Rgb { r: 0x11, g: 0x8c, b: 0x74 },
            info: Rgb { r: 0x07, g: 0x87, b: 0x9d },
            magenta: Rgb { r: 0x98, g: 0x54, b: 0xf1 },
            orange: Rgb { r: 0xb1, g: 0x5c, b: 0x00 },
            purple: Rgb { r: 0x78, g: 0x47, b: 0xbd },
            red: Rgb { r: 0xf5, g: 0x2a, b: 0x65 },
            teal: Rgb { r: 0x11, g: 0x8c, b: 0x74 },
            todo: Rgb { r: 0x2e, g: 0x7d, b: 0xe9 },
            warning: Rgb { r: 0x8c, g: 0x6c, b: 0x3e },
            yellow: Rgb { r: 0x8c, g: 0x6c, b: 0x3e },
            terminal_black: Rgb { r: 0xa1, g: 0xa6, b: 0xc5 },
        }
    }
}

/// The first 25 capture styles of `tokyonight_styles`, added to `m`.
pub open spec fn tokyonight_styles_group1(p: TokyoNightPalette, m: Map<Seq<char>, Style>) -> Map<Seq<char>, Style> {
    let comment_style = fg_italic_style(p.comment);
    m
        .insert("normal"@, fg_bg_style(p.fg, p.bg))
        .insert("selection"@, bg_style(p.bg_visual))
        .insert("statusline"@, fg_bg_style(p.fg_sidebar, p.bg_statusline))
        .insert("ignore"@, fg_style(p.dark3))
        .insert("warning"@, fg_bold_style(p.warning))
        .insert("error"@, fg_bold_style(p.error))
        .insert("annotation"@, fg_style(p.cyan))
        .insert("attribute"@, fg_style(p.cyan))
        .insert("attribute.builtin"@, fg_style(p.blue1))
        .insert("boolean"@, fg_style(p.orange))
        .insert("character"@, fg_style(p.green))
        .insert("character.printf"@, fg_style(p.blue1))
        .insert("character.special"@, fg_style(p.blue1))
        .insert("comment"@, comment_style)
        .insert("comment.documentation"@, comment_style)
        .insert("comment.note"@, comment_style)
        .insert("comment.error"@, fg_style(p.error))
        .insert("comment.hint"@, fg_style(p.hint))
        .insert("comment.info"@, fg_style(p.info))
        .insert("comment.todo"@, fg_style(p.todo))
        .insert("comment.warning"@, fg_style(p.warning))
        .insert("conceal"@, fg_style(p.dark5))
        .insert("constant"@, fg_style(p.orange))
        .insert("constant.builtin"@, fg_style(p.blue1))
        .insert("constant.macro"@, fg_style(p.cyan))
}

/// The next 25 capture styles of `tokyonight_styles`, added to `m`.
pub open spec fn tokyonight_styles_group2(p: TokyoNightPalette, m: Map<Seq<char>, Style>) -> Map<Seq<char>, Style> {
    let keyword_style = fg_italic_style(p.purple);
    m
        .insert("constructor"@, fg_style(p.magenta))
        .insert("constructor.tsx"@, fg_style(p.blue1))
        .insert("diff.delta"@, bg_style(p.diff_change))
        .insert("diff.minus"@, bg_style(p.diff_delete))
        .insert("diff.plus"@, bg_style(p.diff_add))
        .insert("embedded"@, fg_style(p.green))
        .insert("function"@, fg_style(p.blue))
        .insert("function.call"@, fg_style(p.blue))
        .insert("function.method"@, fg_style(p.blue))
        .insert("function.method.call"@, fg_style(p.blue))
        .insert("function.builtin"@, fg_style(p.blue1))
        .insert("function.macro"@, fg_style(p.cyan))
        .insert("keyword"@, keyword_style)
        .insert("keyword.coroutine"@, keyword_style)
        .insert("keyword.return"@, keyword_style)
        .insert("keyword.type"@, keyword_style)
        .insert("keyword.modifier"@, keyword_style)
        .insert("type.qualifier"@, keyword_style)
        .insert("keyword.conditional"@, fg_style(p.magenta))
        .insert("keyword.conditional.ternary"@, fg_style(p.magenta))
        .insert("keyword.exception"@, fg_style(p.magenta))
        .insert("keyword.function"@, fg_style(p.magenta))
        .insert("keyword.repeat"@, fg_style(p.magenta))
        .insert("keyword.debug"@, fg_style(p.orange))
        .insert("keyword.directive"@, fg_style(p.cyan))
}

/// The next 25 capture styles of `tokyonight_styles`, added to `m`.
pub open spec fn tokyonight_styles_group3(p: TokyoNightPalette, m: Map<Seq<char>, Style>) -> Map<Seq<char>, Style> {
    m
        .insert("keyword.directive.define"@, fg_style(p.cyan))
        .insert("keyword.import"@, fg_style(p.cyan))
        .insert("module"@, fg_style(p.cyan))
        .insert("keyword.operator"@, fg_style(p.blue5))
        .insert("keyword.storage"@, fg_style(p.blue1))
        .insert("label"@, fg_style(p.blue))
        .insert("markup"@, plain_style())
        .insert("markup.heading"@, fg_bold_style(p.blue))
        .insert("markup.heading.1"@, Style { fg: Some(p.blue), bg: Some(blended(p.blue, 1, 10, p.bg)), bold: true, italic: false, underline: false })
        .insert("markup.heading.2"@, Style { fg: Some(p.yellow), bg: Some(blended(p.yellow, 1, 10, p.bg)), bold: true, italic: false, underline: false })
        .insert("markup.heading.3"@, Style { fg: Some(p.green), bg: Some(blended(p.green, 1, 10, p.bg)), bold: true, italic: false, underline: false })
        .insert("markup.heading.4"@, Style { fg: Some(p.teal), bg: Some(blended(p.teal, 1, 10, p.bg)), bold: true, italic: false, underline: false })
        .insert("markup.heading.5"@, Style { fg: Some(p.magenta), bg: Some(blended(p.magenta, 1, 10, p.bg)), bold: true, italic: false, underline: false })
        .insert("markup.heading.6"@, Style { fg: Some(p.purple), bg: Some(blended(p.purple, 1, 10, p.bg)), bold: true, italic: false, underline: false })
        .insert("markup.heading.7"@, Style { fg: Some(p.orange), bg: Some(blended(p.orange, 1, 10, p.bg)), bold: true, italic: false, underline: false })
        .insert("markup.heading.8"@, Style { fg: Some(p.red), bg: Some(blended(p.red, 1, 10, p.bg)), bold: true, italic: false, underline: false })
        .insert("markup.italic"@, Style { fg: None, bg: None, bold: false, italic: true, underline: false })
        .insert("markup.link"@, fg_style(p.teal))
        .insert("markup.link.label"@, fg_style(p.blue1))
        .insert("markup.link.label.symbol"@, fg_style(p.blue1))
        .insert("markup.link.url"@, Style { fg: Some(p.teal), bg: None, bold: false, italic: false, underline: true })
        .insert("markup.list"@, fg_style(p.blue5))
        .insert("markup.list.checked"@, fg_style(p.green1))
        .insert("markup.list.markdown"@, fg_bold_style(p.orange))
        .insert("markup.list.unchecked"@, fg_style(p.blue))
}

/// The next 25 capture styles of `tokyonight_styles`, added to `m`.
pub open spec fn tokyonight_styles_group4(p: TokyoNightPalette, m: Map<Seq<char>, Style>) -> Map<Seq<char>, Style> {
    let comment_style = fg_italic_style(p.comment);
    m
        .insert("markup.math"@, fg_style(p.blue1))
        .insert("markup.quote"@, comment_style)
        .insert("markup.raw"@, fg_style(p.green))
        .insert("markup.raw.block"@, fg_style(p.green))
        .insert("markup.raw.markdown_inline"@, fg_bg_style(p.blue, p.terminal_black))
        .insert("markup.strikethrough"@, fg_style(p.comment))
        .insert("markup.strong"@, Style { fg: None, bg: None, bold: true, italic: false, underline: false })
        .insert("markup.underline"@, Style { fg: None, bg: None, bold: false, italic: false, underline: true })
        .insert("module.builtin"@, fg_style(p.red))
        .insert("namespace.builtin"@, fg_style(p.red))
        .insert("none"@, plain_style())
        .insert("nospell"@, fg_bg_style(p.fg, p.bg))
        .insert("number"@, fg_style(p.orange))
        .insert("number.float"@, fg_style(p.orange))
        .insert("operator"@, fg_style(p.blue5))
        .insert("property"@, fg_style(p.green1))
        .insert("punctuation"@, fg_style(p.fg_dark))
        .insert("punctuation.bracket"@, fg_style(p.fg_dark))
        .insert("punctuation.delimiter"@, fg_style(p.blue5))
        .insert("punctuation.special"@, fg_style(p.blue5))
        .insert("punctuation.special.markdown"@, fg_style(p.orange))
        .insert("spell"@, fg_bg_style(p.fg, p.bg))
        .insert("string"@, fg_style(p.green))
        .insert("string.documentation"@, fg_style(p.yellow))
        .insert("string.escape"@, fg_style(p.magenta))
}

/// The next 21 capture styles of `tokyonight_styles`, added to `m`.
pub open spec fn tokyonight_styles_group5(p: TokyoNightPalette, m: Map<Seq<char>, Style>) -> Map<Seq<char>, Style> {
    let type_builtin = fg_style(blended(p.blue1, 4, 5, p.bg));
    let parameter_builtin = fg_style(blended(p.yellow, 4, 5, p.fg));
    let tag_delimiter_tsx = fg_style(blended(p.blue, 7, 10, p.bg));
    m
        .insert("string.regexp"@, fg_style(p.blue6))
        .insert("string.special"@, fg_style(p.blue1))
        .insert("string.special.key"@, fg_style(p.green1))
        .insert("string.special.path"@, fg_style(p.green1))
        .insert("string.special.symbol"@, fg_style(p.blue1))
        .insert("string.special.url"@, Style { fg: Some(p.teal), bg: None, bold: false, italic: false, underline: true })
        .insert("tag"@, fg_style(p.red))
        .insert("tag.attribute"@, fg_style(p.green1))
        .insert("tag.builtin"@, fg_style(p.red))
        .insert("tag.delimiter"@, fg_style(p.blue1))
        .insert("tag.delimiter.tsx"@, tag_delimiter_tsx)
        .insert("tag.javascript"@, fg_style(p.red))
        .insert("tag.tsx"@, fg_style(p.red))
        .insert("type"@, fg_style(p.blue1))
        .insert("type.builtin"@, type_builtin)
        .insert("type.definition"@, fg_style(p.blue1))
        .insert("variable"@, fg_style(p.fg))
        .insert("variable.builtin"@, fg_style(p.red))
        .insert("variable.member"@, fg_style(p.green1))
        .insert("variable.parameter"@, fg_style(p.yellow))
        .insert("variable.parameter.builtin"@, parameter_builtin)
}

/// The capture styles of a variant with the given palette.
pub open spec fn tokyonight_styles(p: TokyoNightPalette) -> Map<Seq<char>, Style> {
    tokyonight_styles_group5(p, tokyonight_styles_group4(p, tokyonight_styles_group3(p, tokyonight_styles_group2(p, tokyonight_styles_group1(p, Map::empty())))))
}

/// The UI-role styles of a variant with the given palette.
pub open spec fn tokyonight_ui(p: TokyoNightPalette) -> Map<Seq<char>, Style> {
    Map::empty()
        .insert("default_fg"@, fg_style(p.fg))
        .insert("default_bg"@, bg_style(p.bg))
        .insert("statusline"@, fg_bg_style(p.fg_sidebar, p.bg_statusline))
        .insert("statusline_inactive"@, fg_bg_style(p.fg_gutter, p.bg_statusline))
        .insert("tab_active"@, fg_bg_style(p.black, p.blue))
        .insert("tab_inactive"@, fg_bg_style(p.fg_gutter, p.bg_statusline))
        .insert("selection"@, bg_style(p.bg_visual))
        .insert("cursorline"@, bg_style(p.bg_highlight))
}

/// Builds the Tokyo Night theme of a variant.
#[verifier::rlimit(40)]
pub fn build_tokyonight_theme(variant: TokyoNightVariant) -> (t: Theme)
    ensures
        t.styles.key_seq().len() <= 121,
        t.styles@ == tokyonight_styles(tokyonight_palette(variant)),
        t.ui@ == tokyonight_ui(tokyonight_palette(variant)),
{
    let p = TokyoNightPalette::for_variant(variant);
    let keyword_style = Style::with_fg_italic(p.purple);
    let type_builtin = Style::with_fg(blend_ratio(p.blue1, 4, 5, p.bg));
    let parameter_builtin = Style::with_fg(blend_ratio(p.yellow, 4, 5, p.fg));
    let tag_delimiter_tsx = Style::with_fg(blend_ratio(p.blue, 7, 10, p.bg));
    let comment_style = Style::with_fg_italic(p.comment);
    let mut styles = StyleMap::new();
    let mut ui = StyleMap::new();
    styles.put("normal", Style::with_fg_bg(p.fg, p.bg));
    styles.put("selection", Style::with_bg(p.bg_visual));
    styles.put("statusline", Style::with_fg_bg(p.fg_sidebar, p.bg_statusline));
    styles.put("ignore", Style::with_fg(p.dark3));
    styles.put("warning", Style::with_fg_bold(p.warning));
    styles.put("error", Style::with_fg_bold(p.error));
    styles.put("annotation", Style::with_fg(p.cyan));
    styles.put("attribute", Style::with_fg(p.cyan));
    styles.put("attribute.builtin", Style::with_fg(p.blue1));
    styles.put("boolean", Style::with_fg(p.orange));
    styles.put("character", Style::with_fg(p.green));
    styles.put("character.printf", Style::with_fg(p.blue1));
    styles.put("character.special", Style::with_fg(p.blue1));
    styles.put("comment", comment_style);
    styles.put("comment.documentation", comment_style);
    styles.put("comment.note", comment_style);
    styles.put("comment.error", Style::with_fg(p.error));
    styles.put("comment.hint", Style::with_fg(p.hint));
    styles.put("comment.info", Style::with_fg(p.info));
    styles.put("comment.todo", Style::with_fg(p.todo));
    styles.put("comment.warning", Style::with_fg(p.warning));
    styles.put("conceal", Style::with_fg(p.dark5));
    styles.put("constant", Style::with_fg(p.orange));
    styles.put("constant.builtin", Style::with_fg(p.blue1));
    styles.put("constant.macro", Style::with_fg(p.cyan));
    styles.put("constructor", Style::with_fg(p.magenta));
    styles.put("constructor.tsx", Style::with_fg(p.blue1));
    styles.put("diff.delta", Style::with_bg(p.diff_change));
    styles.put("diff.minus", Style::with_bg(p.diff_delete));
    styles.put("diff.plus", Style::with_bg(p.diff_add));
    styles.put("embedded", Style::with_fg(p.green));
    styles.put("function", Style::with_fg(p.blue));
    styles.put("function.call", Style::with_fg(p.blue));
    styles.put("function.method", Style::with_fg(p.blue));
    styles.put("function.method.call", Style::with_fg(p.blue));
    styles.put("function.builtin", Style::with_fg(p.blue1));
    styles.put("function.macro", Style::with_fg(p.cyan));
    styles.put("keyword", keyword_style);
    styles.put("keyword.coroutine", keyword_style);
    styles.put("keyword.return", keyword_style);
    styles.put("keyword.type", keyword_style);
    styles.put("keyword.modifier", keyword_style);
    styles.put("type.qualifier", keyword_style);
    styles.put("keyword.conditional", Style::with_fg(p.magenta));
    styles.put("keyword.conditional.ternary", Style::with_fg(p.magenta));
    styles.put("keyword.exception", Style::with_fg(p.magenta));
    styles.put("keyword.function", Style::with_fg(p.magenta));
    styles.put("keyword.repeat", Style::with_fg(p.magenta));
    styles.put("keyword.debug", Style::with_fg(p.orange));
    styles.put("keyword.directive", Style::with_fg(p.cyan));
    styles.put("keyword.directive.define", Style::with_fg(p.cyan));
    styles.put("keyword.import", Style::with_fg(p.cyan));
    styles.put("module", Style::with_fg(p.cyan));
    styles.put("keyword.operator", Style::with_fg(p.blue5));
    styles.put("keyword.storage", Style::with_fg(p.blue1));
    styles.put("label", Style::with_fg(p.blue));
    styles.put("markup", Style::plain());
    styles.put("markup.heading", Style::with_fg_bold(p.blue));
    styles.put("markup.heading.1", Style { fg: Some(p.blue), bg: Some(blend_ratio(p.blue, 1, 10, p.bg)), bold: true, italic: false, underline: false });
    styles.put("markup.heading.2", Style { fg: Some(p.yellow), bg: Some(blend_ratio(p.yellow, 1, 10, p.bg)), bold: true, italic: false, underline: false });
    styles.put("markup.heading.3", Style { fg: Some(p.green), bg: Some(blend_ratio(p.green, 1, 10, p.bg)), bold: true, italic: false, underline: false });
    styles.put("markup.heading.4", Style { fg: Some(p.teal), bg: Some(blend_ratio(p.teal, 1, 10, p.bg)), bold: true, italic: false, underline: false });
    styles.put("markup.heading.5", Style { fg: Some(p.magenta), bg: Some(blend_ratio(p.magenta, 1, 10, p.bg)), bold: true, italic: false, underline: false });
    styles.put("markup.heading.6", Style { fg: Some(p.purple), bg: Some(blend_ratio(p.purple, 1, 10, p.bg)), bold: true, italic: false, underline: false });
    styles.put("markup.heading.7", Style { fg: Some(p.orange), bg: Some(blend_ratio(p.orange, 1, 10, p.bg)), bold: true, italic: false, underline: false });
    styles.put("markup.heading.8", Style { fg: Some(p.red), bg: Some(blend_ratio(p.red, 1, 10, p.bg)), bold: true, italic: false, underline: false });
    styles.put("markup.italic", Style { fg: None, bg: None, bold: false, italic: true, underline: false });
    styles.put("markup.link", Style::with_fg(p.teal));
    styles.put("markup.link.label", Style::with_fg(p.blue1));
    styles.put("markup.link.label.symbol", Style::with_fg(p.blue1));
    styles.put("markup.link.url", Style { fg: Some(p.teal), bg: None, bold: false, italic: false, underline: true });
    styles.put("markup.list", Style::with_fg(p.blue5));
    styles.put("markup.list.checked", Style::with_fg(p.green1));
    styles.put("markup.list.markdown", Style::with_fg_bold(p.orange));
    styles.put("markup.list.unchecked", Style::with_fg(p.blue));
    styles.put("markup.math", Style::with_fg(p.blue1));
    styles.put("markup.quote", comment_style);
    styles.put("markup.raw", Style::with_fg(p.green));
    styles.put("markup.raw.block", Style::with_fg(p.green));
    styles.put("markup.raw.markdown_inline", Style::with_fg_bg(p.blue, p.terminal_black));
    styles.put("markup.strikethrough", Style::with_fg(p.comment));
    styles.put("markup.strong", Style { fg: None, bg: None, bold: true, italic: false, underline: false });
    styles.put("markup.underline", Style { fg: None, bg: None, bold: false, italic: false, underline: true });
    styles.put("module.builtin", Style::with_fg(p.red));
    styles.put("namespace.builtin", Style::with_fg(p.red));
    styles.put("none", Style::plain());
    styles.put("nospell", Style::with_fg_bg(p.fg, p.bg));
    styles.put("number", Style::with_fg(p.orange));
    styles.put("number.float", Style::with_fg(p.orange));
    styles.put("operator", Style::with_fg(p.blue5));
    styles.put("property", Style::with_fg(p.green1));
    styles.put("punctuation", Style::with_fg(p.fg_dark));
    styles.put("punctuation.bracket", Style::with_fg(p.fg_dark));
    styles.put("punctuation.delimiter", Style::with_fg(p.blue5));
    styles.put("punctuation.special", Style::with_fg(p.blue5));
    styles.put("punctuation.special.markdown", Style::with_fg(p.orange));
    styles.put("spell", Style::with_fg_bg(p.fg, p.bg));
    styles.put("string", Style::with_fg(p.green));
    styles.put("string.documentation", Style::with_fg(p.yellow));
    styles.put("string.escape", Style::with_fg(p.magenta));
    styles.put("string.regexp", Style::with_fg(p.blue6));
    styles.put("string.special", Style::with_fg(p.blue1));
    styles.put("string.special.key", Style::with_fg(p.green1));
    styles.put("string.special.path", Style::with_fg(p.green1));
    styles.put("string.special.symbol", Style::with_fg(p.blue1));
    styles.put("string.special.url", Style { fg: Some(p.teal), bg: None, bold: false, italic: false, underline: true });
    styles.put("tag", Style::with_fg(p.red));
    styles.put("tag.attribute", Style::with_fg(p.green1));
    styles.put("tag.builtin", Style::with_fg(p.red));
    styles.put("tag.delimiter", Style::with_fg(p.blue1));
    styles.put("tag.delimiter.tsx", tag_delimiter_tsx);
    styles.put("tag.javascript", Style::with_fg(p.red));
    styles.put("tag.tsx", Style::with_fg(p.red));
    styles.put("type", Style::with_fg(p.blue1));
    styles.put("type.builtin", type_builtin);
    styles.put("type.definition", Style::with_fg(p.blue1));
    styles.put("variable", Style::with_fg(p.fg));
    styles.put("variable.builtin", Style::with_fg(p.red));
    styles.put("variable.member", Style::with_fg(p.green1));
    styles.put("variable.parameter", Style::with_fg(p.yellow));
    styles.put("variable.parameter.builtin", parameter_builtin);
    ui.put("default_fg", Style::with_fg(p.fg));
    ui.put("default_bg", Style::with_bg(p.bg));
    ui.put("statusline", Style::with_fg_bg(p.fg_sidebar, p.bg_statusline));
    ui.put("statusline_inactive", Style::with_fg_bg(p.fg_gutter, p.bg_statusline));
    ui.put("tab_active", Style::with_fg_bg(p.black, p.blue));
    ui.put("tab_inactive", Style::with_fg_bg(p.fg_gutter, p.bg_statusline));
    ui.put("selection", Style::with_bg(p.bg_visual));
    ui.put("cursorline", Style::with_bg(p.bg_highlight));
    Theme { styles, ui }
}

/// The style of every capture name in a Tokyo Night theme (1 of 3).
pub proof fn lemma_tokyonight_styles_1(p: TokyoNightPalette)
    ensures
        tokyonight_styles(p).contains_key("normal"@),
        tokyonight_styles(p)["normal"@] == fg_bg_style(p.fg, p.bg),
        tokyonight_styles(p).contains_key("selection"@),
        tokyonight_styles(p)["selection"@] == bg_style(p.bg_visual),
        tokyonight_styles(p).contains_key("statusline"@),
        tokyonight_styles(p)["statusline"@] == fg_bg_style(p.fg_sidebar, p.bg_statusline),
        tokyonight_styles(p).contains_key("ignore"@),
        tokyonight_styles(p)["ignore"@] == fg_style(p.dark3),
        tokyonight_styles(p).contains_key("warning"@),
        tokyonight_styles(p)["warning"@] == fg_bold_style(p.warning),
        tokyonight_styles(p).contains_key("error"@),
        tokyonight_styles(p)["error"@] == fg_bold_style(p.error),
        tokyonight_styles(p).contains_key("annotation"@),
        tokyonight_styles(p)["annotation"@] == fg_style(p.cyan),
        tokyonight_styles(p).contains_key("attribute"@),
        tokyonight_styles(p)["attribute"@] == fg_style(p.cyan),
        tokyonight_styles(p).contains_key("attribute.builtin"@),
        tokyonight_styles(p)["attribute.builtin"@] == fg_style(p.blue1),
        tokyonight_styles(p).contains_key("boolean"@),
        tokyonight_styles(p)["boolean"@] == fg_style(p.orange),
        tokyonight_styles(p).contains_key("character"@),
        tokyonight_styles(p)["character"@] == fg_style(p.green),
        tokyonight_styles(p).contains_key("character.printf"@),
        tokyonight_styles(p)["character.printf"@] == fg_style(p.blue1),
        tokyonight_styles(p).contains_key("character.special"@),
        tokyonight_styles(p)["character.special"@] == fg_style(p.blue1),
        tokyonight_styles(p).contains_key("comment"@),
        tokyonight_styles(p)["comment"@] == fg_italic_style(p.comment),
        tokyonight_styles(p).contains_key("comment.documentation"@),
        tokyonight_styles(p)["comment.documentation"@] == fg_italic_style(p.comment),
        tokyonight_styles(p).contains_key("comment.note"@),
        tokyonight_styles(p)["comment.note"@] == fg_italic_style(p.comment),
        tokyonight_styles(p).contains_key("comment.error"@),
        tokyonight_styles(p)["comment.error"@] == fg_style(p.error),
        tokyonight_styles(p).contains_key("comment.hint"@),
        tokyonight_styles(p)["comment.hint"@] == fg_style(p.hint),
        tokyonight_styles(p).contains_key("comment.info"@),
        tokyonight_styles(p)["comment.info"@] == fg_style(p.info),
        tokyonight_styles(p).contains_key("comment.todo"@),
        tokyonight_styles(p)["comment.todo"@] == fg_style(p.todo),
        tokyonight_styles(p).contains_key("comment.warning"@),
        tokyonight_styles(p)["comment.warning"@] == fg_style(p.warning),
        tokyonight_styles(p).contains_key("conceal"@),
        tokyonight_styles(p)["conceal"@] == fg_style(p.dark5),
        tokyonight_styles(p).contains_key("constant"@),
        tokyonight_styles(p)["constant"@] == fg_style(p.orange),
        tokyonight_styles(p).contains_key("constant.builtin"@),
        tokyonight_styles(p)["constant.builtin"@] == fg_style(p.blue1),
        tokyonight_styles(p).contains_key("constant.macro"@),
        tokyonight_styles(p)["constant.macro"@] == fg_style(p.cyan),
        tokyonight_styles(p).contains_key("constructor"@),
        tokyonight_styles(p)["constructor"@] == fg_style(p.magenta),
        tokyonight_styles(p).contains_key("constructor.tsx"@),
        tokyonight_styles(p)["constructor.tsx"@] == fg_style(p.blue1),
        tokyonight_styles(p).contains_key("diff.delta"@),
        tokyonight_styles(p)["diff.delta"@] == bg_style(p.diff_change),
        tokyonight_styles(p).contains_key("diff.minus"@),
        tokyonight_styles(p)["diff.minus"@] == bg_style(p.diff_delete),
        tokyonight_styles(p).contains_key("diff.plus"@),
        tokyonight_styles(p)["diff.plus"@] == bg_style(p.diff_add),
        tokyonight_styles(p).contains_key("embedded"@),
        tokyonight_styles(p)["embedded"@] == fg_style(p.green),
        tokyonight_styles(p).contains_key("function"@),
        tokyonight_styles(p)["function"@] == fg_style(p.blue),
        tokyonight_styles(p).contains_key("function.call"@),
        tokyonight_styles(p)["function.call"@] == fg_style(p.blue),
        tokyonight_styles(p).contains_key("function.method"@),
        tokyonight_styles(p)["function.method"@] == fg_style(p.blue),
        tokyonight_styles(p).contains_key("function.method.call"@),
        tokyonight_styles(p)["function.method.call"@] == fg_style(p.blue),
        tokyonight_styles(p).contains_key("function.builtin"@),
        tokyonight_styles(p)["function.builtin"@] == fg_style(p.blue1),
        tokyonight_styles(p).contains_key("function.macro"@),
        tokyonight_styles(p)["function.macro"@] == fg_style(p.cyan),
        tokyonight_styles(p).contains_key("keyword"@),
        tokyonight_styles(p)["keyword"@] == fg_italic_style(p.purple),
        tokyonight_styles(p).contains_key("keyword.coroutine"@),
        tokyonight_styles(p)["keyword.coroutine"@] == fg_italic_style(p.purple),
        tokyonight_styles(p).contains_key("keyword.return"@),
        tokyonight_styles(p)["keyword.return"@] == fg_italic_style(p.purple),
        tokyonight_styles(p).contains_key("keyword.type"@),
        tokyonight_styles(p)["keyword.type"@] == fg_italic_style(p.purple),
        tokyonight_styles(p).contains_key("keyword.modifier"@),
        tokyonight_styles(p)["keyword.modifier"@] == fg_italic_style(p.purple),
        tokyonight_styles(p).contains_key("type.qualifier"@),
        tokyonight_styles(p)["type.qualifier"@] == fg_italic_style(p.purple),
        tokyonight_styles(p).contains_key("keyword.conditional"@),
        tokyonight_styles(p)["keyword.conditional"@] == fg_style(p.magenta),
        tokyonight_styles(p).contains_key("keyword.conditional.ternary"@),
        tokyonight_styles(p)["keyword.conditional.ternary"@] == fg_style(p.magenta),
{
    reveal_strlit("normal");
    assert("normal"@.len() == 6);
    reveal_strlit("selection");
    assert("selection"@.len() == 9);
    reveal_strlit("statusline");
    assert("statusline"@.len() == 10);
    reveal_strlit("ignore");
    assert("normal"@[0] != "ignore"@[0]);
    reveal_strlit("warning");
    assert("warning"@.len() == 7);
    reveal_strlit("error");
    assert("error"@.len() == 5);
    reveal_strlit("annotation");
    assert("annotation"@.len() == 10);
    reveal_strlit("attribute");
    assert("attribute"@.len() == 9);
    reveal_strlit("attribute.builtin");
    assert("attribute.builtin"@.len() == 17);
    reveal_strlit("boolean");
    assert("boolean"@.len() == 7);
    reveal_strlit("character");
    assert("character"@.len() == 9);
    reveal_strlit("character.printf");
    assert("character.printf"@.len() == 16);
    reveal_strlit("character.special");
    assert("character.special"@.len() == 17);
    reveal_strlit("comment");
    assert("comment"@.len() == 7);
    reveal_strlit("comment.documentation");
    assert("comment.documentation"@.len() == 21);
    reveal_strlit("comment.note");
    assert("comment.note"@.len() == 12);
    reveal_strlit("comment.error");
    assert("comment.error"@.len() == 13);
    reveal_strlit("comment.hint");
    assert("comment.hint"@.len() == 12);
    reveal_strlit("comment.info");
    assert("comment.info"@.len() == 12);
    reveal_strlit("comment.todo");
    assert("comment.todo"@.len() == 12);
    reveal_strlit("comment.warning");
    assert("comment.warning"@.len() == 15);
    reveal_strlit("conceal");
    assert("conceal"@.len() == 7);
    reveal_strlit("constant");
    assert("constant"@.len() == 8);
    reveal_strlit("constant.builtin");
    assert("constant.builtin"@.len() == 16);
    reveal_strlit("constant.macro");
    assert("constant.macro"@.len() == 14);
    reveal_strlit("constructor");
    assert("constructor"@.len() == 11);
    reveal_strlit("constructor.tsx");
    assert("constructor.tsx"@.len() == 15);
    reveal_strlit("diff.delta");
    assert("diff.delta"@.len() == 10);
    reveal_strlit("diff.minus");
    assert("diff.minus"@.len() == 10);
    reveal_strlit("diff.plus");
    assert("diff.plus"@.len() == 9);
    reveal_strlit("embedded");
    assert("embedded"@.len() == 8);
    reveal_strlit("function");
    assert("function"@.len() == 8);
    reveal_strlit("function.call");
    assert("function.call"@.len() == 13);
    reveal_strlit("function.method");
    assert("function.method"@.len() == 15);
    reveal_strlit("function.method.call");
    assert("function.method.call"@.len() == 20);
    reveal_strlit("function.builtin");
    assert("function.builtin"@.len() == 16);
    reveal_strlit("function.macro");
    assert("function.macro"@.len() == 14);
    reveal_strlit("keyword");
    assert("keyword"@.len() == 7);
    reveal_strlit("keyword.coroutine");
    assert("keyword.coroutine"@.len() == 17);
    reveal_strlit("keyword.return");
    assert("keyword.return"@.len() == 14);
    reveal_strlit("keyword.type");
    assert("keyword.type"@.len() == 12);
    reveal_strlit("keyword.modifier");
    assert("keyword.modifier"@.len() == 16);
    reveal_strlit("type.qualifier");
    assert("type.qualifier"@.len() == 14);
    reveal_strlit("keyword.conditional");
    assert("keyword.conditional"@.len() == 19);
    reveal_strlit("keyword.conditional.ternary");
    assert("keyword.conditional.ternary"@.len() == 27);
    reveal_strlit("keyword.exception");
    assert("keyword.exception"@.len() == 17);
    reveal_strlit("keyword.function");
    assert("keyword.function"@.len() == 16);
    reveal_strlit("keyword.repeat");
    assert("keyword.repeat"@.len() == 14);
    reveal_strlit("keyword.debug");
    assert("keyword.debug"@.len() == 13);
    reveal_strlit("keyword.directive");
    assert("keyword.directive"@.len() == 17);
    reveal_strlit("keyword.directive.define");
    assert("keyword.directive.define"@.len() == 24);
    reveal_strlit("keyword.import");
    assert("keyword.import"@.len() == 14);
    reveal_strlit("module");
    assert("normal"@[0] != "module"@[0]);
    reveal_strlit("keyword.operator");
    assert("keyword.operator"@.len() == 16);
    reveal_strlit("keyword.storage");
    assert("keyword.storage"@.len() == 15);
    reveal_strlit("label");
    assert("label"@.len() == 5);
    reveal_strlit("markup");
    assert("normal"@[0] != "markup"@[0]);
    reveal_strlit("markup.heading");
    assert("markup.heading"@.len() == 14);
    reveal_strlit("markup.heading.1");
    assert("markup.heading.1"@.len() == 16);
    reveal_strlit("markup.heading.2");
    assert("markup.heading.2"@.len() == 16);
    reveal_strlit("markup.heading.3");
    assert("markup.heading.3"@.len() == 16);
    reveal_strlit("markup.heading.4");
    assert("markup.heading.4"@.len() == 16);
    reveal_strlit("markup.heading.5");
    assert("markup.heading.5"@.len() == 16);
    reveal_strlit("markup.heading.6");
    assert("markup.heading.6"@.len() == 16);
    reveal_strlit("markup.heading.7");
    assert("markup.heading.7"@.len() == 16);
    reveal_strlit("markup.heading.8");
    assert("markup.heading.8"@.len() == 16);
    reveal_strlit("markup.italic");
    assert("markup.italic"@.len() == 13);
    reveal_strlit("markup.link");
    assert("markup.link"@.len() == 11);
    reveal_strlit("markup.link.label");
    assert("markup.link.label"@.len() == 17);
    reveal_strlit("markup.link.label.symbol");
    assert("markup.link.label.symbol"@.len() == 24);
    reveal_strlit("markup.link.url");
    assert("markup.link.url"@.len() == 15);
    reveal_strlit("markup.list");
    assert("markup.list"@.len() == 11);
    reveal_strlit("markup.list.checked");
    assert("markup.list.checked"@.len() == 19);
    reveal_strlit("markup.list.markdown");
    assert("markup.list.markdown"@.len() == 20);
    reveal_strlit("markup.list.unchecked");
    assert("markup.list.unchecked"@.len() == 21);
    reveal_strlit("markup.math");
    assert("markup.math"@.len() == 11);
    reveal_strlit("markup.quote");
    assert("markup.quote"@.len() == 12);
    reveal_strlit("markup.raw");
    assert("markup.raw"@.len() == 10);
    reveal_strlit("markup.raw.block");
    assert("markup.raw.block"@.len() == 16);
    reveal_strlit("markup.raw.markdown_inline");
    assert("markup.raw.markdown_inline"@.len() == 26);
    reveal_strlit("markup.strikethrough");
    assert("markup.strikethrough"@.len() == 20);
    reveal_strlit("markup.strong");
    assert("markup.strong"@.len() == 13);
    reveal_strlit("markup.underline");
    assert("markup.underline"@.len() == 16);
    reveal_strlit("module.builtin");
    assert("module.builtin"@.len() == 14);
    reveal_strlit("namespace.builtin");
    assert("namespace.builtin"@.len() == 17);
    reveal_strlit("none");
    assert("none"@.len() == 4);
    reveal_strlit("nospell");
    assert("nospell"@.len() == 7);
    reveal_strlit("number");
    assert("normal"@[1] != "number"@[1]);
    reveal_strlit("number.float");
    assert("number.float"@.len() == 12);
    reveal_strlit("operator");
    assert("operator"@.len() == 8);
    reveal_strlit("property");
    assert("property"@.len() == 8);
    reveal_strlit("punctuation");
    assert("punctuation"@.len() == 11);
    reveal_strlit("punctuation.bracket");
    assert("punctuation.bracket"@.len() == 19);
    reveal_strlit("punctuation.delimiter");
    assert("punctuation.delimiter"@.len() == 21);
    reveal_strlit("punctuation.special");
    assert("punctuation.special"@.len() == 19);
    reveal_strlit("punctuation.special.markdown");
    assert("punctuation.special.markdown"@.len() == 28);
    reveal_strlit("spell");
    assert("spell"@.len() == 5);
    reveal_strlit("string");
    assert("normal"@[0] != "string"@[0]);
    reveal_strlit("string.documentation");
    assert("string.documentation"@.len() == 20);
    reveal_strlit("string.escape");
    assert("string.escape"@.len() == 13);
    reveal_strlit("string.regexp");
    assert("string.regexp"@.len() == 13);
    reveal_strlit("string.special");
    assert("string.special"@.len() == 14);
    reveal_strlit("string.special.key");
    assert("string.special.key"@.len() == 18);
    reveal_strlit("string.special.path");
    assert("string.special.path"@.len() == 19);
    reveal_strlit("string.special.symbol");
    assert("string.special.symbol"@.len() == 21);
    reveal_strlit("string.special.url");
    assert("string.special.url"@.len() == 18);
    reveal_strlit("tag");
    assert("tag"@.len() == 3);
    reveal_strlit("tag.attribute");
    assert("tag.attribute"@.len() == 13);
    reveal_strlit("tag.builtin");
    assert("tag.builtin"@.len() == 11);
    reveal_strlit("tag.delimiter");
    assert("tag.delimiter"@.len() == 13);
    reveal_strlit("tag.delimiter.tsx");
    assert("tag.delimiter.tsx"@.len() == 17);
    reveal_strlit("tag.javascript");
    assert("tag.javascript"@.len() == 14);
    reveal_strlit("tag.tsx");
    assert("tag.tsx"@.len() == 7);
    reveal_strlit("type");
    assert("type"@.len() == 4);
    reveal_strlit("type.builtin");
    assert("type.builtin"@.len() == 12);
    reveal_strlit("type.definition");
    assert("type.definition"@.len() == 15);
    reveal_strlit("variable");
    assert("variable"@.len() == 8);
    reveal_strlit("variable.builtin");
    assert("variable.builtin"@.len() == 16);
    reveal_strlit("variable.member");
    assert("variable.member"@.len() == 15);
    reveal_strlit("variable.parameter");
    assert("variable.parameter"@.len() == 18);
    reveal_strlit("variable.parameter.builtin");
    assert("variable.parameter.builtin"@.len() == 26);
    assert("ignore"@.len() == 6);
    assert("selection"@[0] != "attribute"@[0]);
    assert("selection"@[0] != "character"@[0]);
    assert("selection"@[0] != "diff.plus"@[0]);
    assert("module"@.len() == 6);
    assert("markup"@.len() == 6);
    assert("number"@.len() == 6);
    assert("string"@.len() == 6);
    assert("statusline"@[0] != "annotation"@[0]);
    assert("statusline"@[0] != "diff.delta"@[0]);
    assert("statusline"@[0] != "diff.minus"@[0]);
    assert("statusline"@[0] != "markup.raw"@[0]);
    assert("ignore"@[0] != "module"@[0]);
    assert("ignore"@[0] != "markup"@[0]);
    assert("ignore"@[0] != "number"@[0]);
    assert("ignore"@[0] != "string"@[0]);
    assert("warning"@[0] != "boolean"@[0]);
    assert("warning"@[0] != "comment"@[0]);
    assert("warning"@[0] != "conceal"@[0]);
    assert("warning"@[0] != "keyword"@[0]);
    assert("warning"@[0] != "nospell"@[0]);
    assert("warning"@[0] != "tag.tsx"@[0]);
    assert("error"@[0] != "label"@[0]);
    assert("error"@[0] != "spell"@[0]);
    assert("annotation"@[0] != "diff.delta"@[0]);
    assert("annotation"@[0] != "diff.minus"@[0]);
    assert("annotation"@[0] != "markup.raw"@[0]);
    assert("attribute"@[0] != "character"@[0]);
    assert("attribute"@[0] != "diff.plus"@[0]);
    assert("attribute.builtin"@[0] != "character.special"@[0]);
    assert("attribute.builtin"@[0] != "keyword.coroutine"@[0]);
    assert("attribute.builtin"@[0] != "keyword.exception"@[0]);
    assert("attribute.builtin"@[0] != "keyword.directive"@[0]);
    assert("attribute.builtin"@[0] != "markup.link.label"@[0]);
    assert("attribute.builtin"@[0] != "namespace.builtin"@[0]);
    assert("attribute.builtin"@[0] != "tag.delimiter.tsx"@[0]);
    assert("boolean"@[0] != "comment"@[0]);
    assert("boolean"@[0] != "conceal"@[0]);
    assert("boolean"@[0] != "keyword"@[0]);
    assert("boolean"@[0] != "nospell"@[0]);
    assert("boolean"@[0] != "tag.tsx"@[0]);
    assert("character"@[0] != "diff.plus"@[0]);
    assert("character.printf"@[1] != "constant.builtin"@[1]);
    assert("character.printf"@[0] != "function.builtin"@[0]);
    assert("character.printf"@[0] != "keyword.modifier"@[0]);
    assert("character.printf"@[0] != "keyword.function"@[0]);
    assert("character.printf"@[0] != "keyword.operator"@[0]);
    assert("character.printf"@[0] != "markup.heading.1"@[0]);
    assert("character.printf"@[0] != "markup.heading.2"@[0]);
    assert("character.printf"@[0] != "markup.heading.3"@[0]);
    assert("character.printf"@[0] != "markup.heading.4"@[0]);
    assert("character.printf"@[0] != "markup.heading.5"@[0]);
    assert("character.printf"@[0] != "markup.heading.6"@[0]);
    assert("character.printf"@[0] != "markup.heading.7"@[0]);
    assert("character.printf"@[0] != "markup.heading.8"@[0]);
    assert("character.printf"@[0] != "markup.raw.block"@[0]);
    assert("character.printf"@[0] != "markup.underline"@[0]);
    assert("character.printf"@[0] != "variable.builtin"@[0]);
    assert("character.special"@[0] != "keyword.coroutine"@[0]);
    assert("character.special"@[0] != "keyword.exception"@[0]);
    assert("character.special"@[0] != "keyword.directive"@[0]);
    assert("character.special"@[0] != "markup.link.label"@[0]);
    assert("character.special"@[0] != "namespace.builtin"@[0]);
    assert("character.special"@[0] != "tag.delimiter.tsx"@[0]);
    assert("comment"@[2] != "conceal"@[2]);
    assert("comment"@[0] != "keyword"@[0]);
    assert("comment"@[0] != "nospell"@[0]);
    assert("comment"@[0] != "tag.tsx"@[0]);
    assert("comment.documentation"@[0] != "markup.list.unchecked"@[0]);
    assert("comment.documentation"@[0] != "punctuation.delimiter"@[0]);
    assert("comment.documentation"@[0] != "string.special.symbol"@[0]);
    assert("comment.note"@[8] != "comment.hint"@[8]);
    assert("comment.note"@[8] != "comment.info"@[8]);
    assert("comment.note"@[8] != "comment.todo"@[8]);
    assert("comment.note"@[0] != "keyword.type"@[0]);
    assert("comment.note"@[0] != "markup.quote"@[0]);
    assert("comment.note"@[0] != "number.float"@[0]);
    assert("comment.note"@[0] != "type.builtin"@[0]);
    assert("comment.error"@[0] != "function.call"@[0]);
    assert("comment.error"@[0] != "keyword.debug"@[0]);
    assert("comment.error"@[0] != "markup.italic"@[0]);
    assert("comment.error"@[0] != "markup.strong"@[0]);
    assert("comment.error"@[0] != "string.escape"@[0]);
    assert("comment.error"@[0] != "string.regexp"@[0]);
    assert("comment.error"@[0] != "tag.attribute"@[0]);
    assert("comment.error"@[0] != "tag.delimiter"@[0]);
    assert("comment.hint"@[8] != "comment.info"@[8]);
    assert("comment.hint"@[8] != "comment.todo"@[8]);
    assert("comment.hint"@[0] != "keyword.type"@[0]);
    assert("comment.hint"@[0] != "markup.quote"@[0]);
    assert("comment.hint"@[0] != "number.float"@[0]);
    assert("comment.hint"@[0] != "type.builtin"@[0]);
    assert("comment.info"@[8] != "comment.todo"@[8]);
    assert("comment.info"@[0] != "keyword.type"@[0]);
    assert("comment.info"@[0] != "markup.quote"@[0]);
    assert("comment.info"@[0] != "number.float"@[0]);
    assert("comment.info"@[0] != "type.builtin"@[0]);
    assert("comment.todo"@[0] != "keyword.type"@[0]);
    assert("comment.todo"@[0] != "markup.quote"@[0]);
    assert("comment.todo"@[0] != "number.float"@[0]);
    assert("comment.todo"@[0] != "type.builtin"@[0]);
    assert("comment.warning"@[2] != "constructor.tsx"@[2]);
    assert("comment.warning"@[0] != "function.method"@[0]);
    assert("comment.warning"@[0] != "keyword.storage"@[0]);
    assert("comment.warning"@[0] != "markup.link.url"@[0]);
    assert("comment.warning"@[0] != "type.definition"@[0]);
    assert("comment.warning"@[0] != "variable.member"@[0]);
    assert("conceal"@[0] != "keyword"@[0]);
    assert("conceal"@[0] != "nospell"@[0]);
    assert("conceal"@[0] != "tag.tsx"@[0]);
    assert("constant"@[0] != "embedded"@[0]);
    assert("constant"@[0] != "function"@[0]);
    assert("constant"@[0] != "operator"@[0]);
    assert("constant"@[0] != "property"@[0]);
    assert("constant"@[0] != "variable"@[0]);
    assert("constant.builtin"@[0] != "function.builtin"@[0]);
    assert("constant.builtin"@[0] != "keyword.modifier"@[0]);
    assert("constant.builtin"@[0] != "keyword.function"@[0]);
    assert("constant.builtin"@[0] != "keyword.operator"@[0]);
    assert("constant.builtin"@[0] != "markup.heading.1"@[0]);
    assert("constant.builtin"@[0] != "markup.heading.2"@[0]);
    assert("constant.builtin"@[0] != "markup.heading.3"@[0]);
    assert("constant.builtin"@[0] != "markup.heading.4"@[0]);
    assert("constant.builtin"@[0] != "markup.heading.5"@[0]);
    assert("constant.builtin"@[0] != "markup.heading.6"@[0]);
    assert("constant.builtin"@[0] != "markup.heading.7"@[0]);
    assert("constant.builtin"@[0] != "markup.heading.8"@[0]);
    assert("constant.builtin"@[0] != "markup.raw.block"@[0]);
    assert("constant.builtin"@[0] != "markup.underline"@[0]);
    assert("constant.builtin"@[0] != "variable.builtin"@[0]);
    assert("constant.macro"@[0] != "function.macro"@[0]);
    assert("constant.macro"@[0] != "keyword.return"@[0]);
    assert("constant.macro"@[0] != "type.qualifier"@[0]);
    assert("constant.macro"@[0] != "keyword.repeat"@[0]);
    assert("constant.macro"@[0] != "keyword.import"@[0]);
    assert("constant.macro"@[0] != "markup.heading"@[0]);
    assert("constant.macro"@[0] != "module.builtin"@[0]);
    assert("constant.macro"@[0] != "string.special"@[0]);
    assert("constant.macro"@[0] != "tag.javascript"@[0]);
    assert("constructor"@[0] != "markup.link"@[0]);
    assert("constructor"@[0] != "markup.list"@[0]);
    assert("constructor"@[0] != "markup.math"@[0]);
    assert("constructor"@[0] != "punctuation"@[0]);
    assert("constructor"@[0] != "tag.builtin"@[0]);
    assert("constructor.tsx"@[0] != "function.method"@[0]);
    assert("constructor.tsx"@[0] != "keyword.storage"@[0]);
    assert("constructor.tsx"@[0] != "markup.link.url"@[0]);
    assert("constructor.tsx"@[0] != "type.definition"@[0]);
    assert("constructor.tsx"@[0] != "variable.member"@[0]);
    assert("diff.delta"@[5] != "diff.minus"@[5]);
    assert("diff.delta"@[0] != "markup.raw"@[0]);
    assert("diff.minus"@[0] != "markup.raw"@[0]);
    assert("embedded"@[0] != "function"@[0]);
    assert("embedded"@[0] != "operator"@[0]);
    assert("embedded"@[0] != "property"@[0]);
    assert("embedded"@[0] != "variable"@[0]);
    assert("function"@[0] != "operator"@[0]);
    assert("function"@[0] != "property"@[0]);
    assert("function"@[0] != "variable"@[0]);
    assert("function.call"@[0] != "keyword.debug"@[0]);
    assert("function.call"@[0] != "markup.italic"@[0]);
    assert("function.call"@[0] != "markup.strong"@[0]);
    assert("function.call"@[0] != "string.escape"@[0]);
    assert("function.call"@[0] != "string.regexp"@[0]);
    assert("function.call"@[0] != "tag.attribute"@[0]);
    assert("function.call"@[0] != "tag.delimiter"@[0]);
    assert("function.method"@[0] != "keyword.storage"@[0]);
    assert("function.method"@[0] != "markup.link.url"@[0]);
    assert("function.method"@[0] != "type.definition"@[0]);
    assert("function.method"@[0] != "variable.member"@[0]);
    assert("function.method.call"@[0] != "markup.list.markdown"@[0]);
    assert("function.method.call"@[0] != "markup.strikethrough"@[0]);
    assert("function.method.call"@[0] != "string.documentation"@[0]);
    assert("function.builtin"@[0] != "keyword.modifier"@[0]);
    assert("function.builtin"@[0] != "keyword.function"@[0]);
    assert("function.builtin"@[0] != "keyword.operator"@[0]);
    assert("function.builtin"@[0] != "markup.heading.1"@[0]);
    assert("function.builtin"@[0] != "markup.heading.2"@[0]);
    assert("function.builtin"@[0] != "markup.heading.3"@[0]);
    assert("function.builtin"@[0] != "markup.heading.4"@[0]);
    assert("function.builtin"@[0] != "markup.heading.5"@[0]);
    assert("function.builtin"@[0] != "markup.heading.6"@[0]);
    assert("function.builtin"@[0] != "markup.heading.7"@[0]);
    assert("function.builtin"@[0] != "markup.heading.8"@[0]);
    assert("function.builtin"@[0] != "markup.raw.block"@[0]);
    assert("function.builtin"@[0] != "markup.underline"@[0]);
    assert("function.builtin"@[0] != "variable.builtin"@[0]);
    assert("function.macro"@[0] != "keyword.return"@[0]);
    assert("function.macro"@[0] != "type.qualifier"@[0]);
    assert("function.macro"@[0] != "keyword.repeat"@[0]);
    assert("function.macro"@[0] != "keyword.import"@[0]);
    assert("function.macro"@[0] != "markup.heading"@[0]);
    assert("function.macro"@[0] != "module.builtin"@[0]);
    assert("function.macro"@[0] != "string.special"@[0]);
    assert("function.macro"@[0] != "tag.javascript"@[0]);
    assert("keyword"@[0] != "nospell"@[0]);
    assert("keyword"@[0] != "tag.tsx"@[0]);
    assert("keyword.coroutine"@[8] != "keyword.exception"@[8]);
    assert("keyword.coroutine"@[8] != "keyword.directive"@[8]);
    assert("keyword.coroutine"@[0] != "markup.link.label"@[0]);
    assert("keyword.coroutine"@[0] != "namespace.builtin"@[0]);
    assert("keyword.coroutine"@[0] != "tag.delimiter.tsx"@[0]);
    assert("keyword.return"@[0] != "type.qualifier"@[0]);
    assert("keyword.return"@[10] != "keyword.repeat"@[10]);
    assert("keyword.return"@[8] != "keyword.import"@[8]);
    assert("keyword.return"@[0] != "markup.heading"@[0]);
    assert("keyword.return"@[0] != "module.builtin"@[0]);
    assert("keyword.return"@[0] != "string.special"@[0]);
    assert("keyword.return"@[0] != "tag.javascript"@[0]);
    assert("keyword.type"@[0] != "markup.quote"@[0]);
    assert("keyword.type"@[0] != "number.float"@[0]);
    assert("keyword.type"@[0] != "type.builtin"@[0]);
    assert("keyword.modifier"@[8] != "keyword.function"@[8]);
    assert("keyword.modifier"@[8] != "keyword.operator"@[8]);
    assert("keyword.modifier"@[0] != "markup.heading.1"@[0]);
    assert("keyword.modifier"@[0] != "markup.heading.2"@[0]);
    assert("keyword.modifier"@[0] != "markup.heading.3"@[0]);
    assert("keyword.modifier"@[0] != "markup.heading.4"@[0]);
    assert("keyword.modifier"@[0] != "markup.heading.5"@[0]);
    assert("keyword.modifier"@[0] != "markup.heading.6"@[0]);
    assert("keyword.modifier"@[0] != "markup.heading.7"@[0]);
    assert("keyword.modifier"@[0] != "markup.heading.8"@[0]);
    assert("keyword.modifier"@[0] != "markup.raw.block"@[0]);
    assert("keyword.modifier"@[0] != "markup.underline"@[0]);
    assert("keyword.modifier"@[0] != "variable.builtin"@[0]);
    assert("type.qualifier"@[0] != "keyword.repeat"@[0]);
    assert("type.qualifier"@[0] != "keyword.import"@[0]);
    assert("type.qualifier"@[0] != "markup.heading"@[0]);
    assert("type.qualifier"@[0] != "module.builtin"@[0]);
    assert("type.qualifier"@[0] != "string.special"@[0]);
    assert("type.qualifier"@[1] != "tag.javascript"@[1]);
    assert("keyword.conditional"@[0] != "markup.list.checked"@[0]);
    assert("keyword.conditional"@[0] != "punctuation.bracket"@[0]);
    assert("keyword.conditional"@[0] != "punctuation.special"@[0]);
    assert("keyword.conditional"@[0] != "string.special.path"@[0]);
    let m1 = tokyonight_styles_group1(p, Map::empty());
    assert(m1.contains_key("normal"@) && m1["normal"@] == fg_bg_style(p.fg, p.bg) && m1.contains_key("selection"@) && m1["selection"@] == bg_style(p.bg_visual) && m1.contains_key("statusline"@) && m1["statusline"@] == fg_bg_style(p.fg_sidebar, p.bg_statusline) && m1.contains_key("ignore"@) && m1["ignore"@] == fg_style(p.dark3) && m1.contains_key("warning"@) && m1["warning"@] == fg_bold_style(p.warning) && m1.contains_key("error"@) && m1["error"@] == fg_bold_style(p.error) && m1.contains_key("annotation"@) && m1["annotation"@] == fg_style(p.cyan) && m1.contains_key("attribute"@) && m1["attribute"@] == fg_style(p.cyan) && m1.contains_key("attribute.builtin"@) && m1["attribute.builtin"@] == fg_style(p.blue1) && m1.contains_key("boolean"@) && m1["boolean"@] == fg_style(p.orange) && m1.contains_key("character"@) && m1["character"@] == fg_style(p.green) && m1.contains_key("character.printf"@) && m1["character.printf"@] == fg_style(p.blue1) && m1.contains_key("character.special"@) && m1["character.special"@] == fg_style(p.blue1) && m1.contains_key("comment"@) && m1["comment"@] == fg_italic_style(p.comment) && m1.contains_key("comment.documentation"@) && m1["comment.documentation"@] == fg_italic_style(p.comment) && m1.contains_key("comment.note"@) && m1["comment.note"@] == fg_italic_style(p.comment) && m1.contains_key("comment.error"@) && m1["comment.error"@] == fg_style(p.error) && m1.contains_key("comment.hint"@) && m1["comment.hint"@] == fg_style(p.hint) && m1.contains_key("comment.info"@) && m1["comment.info"@] == fg_style(p.info) && m1.contains_key("comment.todo"@) && m1["comment.todo"@] == fg_style(p.todo) && m1.contains_key("comment.warning"@) && m1["comment.warning"@] == fg_style(p.warning) && m1.contains_key("conceal"@) && m1["conceal"@] == fg_style(p.dark5) && m1.contains_key("constant"@) && m1["constant"@] == fg_style(p.orange) && m1.contains_key("constant.builtin"@) && m1["constant.builtin"@] == fg_style(p.blue1) && m1.contains_key("constant.macro"@) && m1["constant.macro"@] == fg_style(p.cyan));
    let m2 = tokyonight_styles_group2(p, m1);
    assert(m2.contains_key("normal"@) && m2["normal"@] == fg_bg_style(p.fg, p.bg) && m2.contains_key("selection"@) && m2["selection"@] == bg_style(p.bg_visual) && m2.contains_key("statusline"@) && m2["statusline"@] == fg_bg_style(p.fg_sidebar, p.bg_statusline) && m2.contains_key("ignore"@) && m2["ignore"@] == fg_style(p.dark3) && m2.contains_key("warning"@) && m2["warning"@] == fg_bold_style(p.warning) && m2.contains_key("error"@) && m2["error"@] == fg_bold_style(p.error) && m2.contains_key("annotation"@) && m2["annotation"@] == fg_style(p.cyan) && m2.contains_key("attribute"@) && m2["attribute"@] == fg_style(p.cyan) && m2.contains_key("attribute.builtin"@) && m2["attribute.builtin"@] == fg_style(p.blue1) && m2.contains_key("boolean"@) && m2["boolean"@] == fg_style(p.orange) && m2.contains_key("character"@) && m2["character"@] == fg_style(p.green) && m2.contains_key("character.printf"@) && m2["character.printf"@] == fg_style(p.blue1) && m2.contains_key("character.special"@) && m2["character.special"@] == fg_style(p.blue1) && m2.contains_key("comment"@) && m2["comment"@] == fg_italic_style(p.comment) && m2.contains_key("comment.documentation"@) && m2["comment.documentation"@] == fg_italic_style(p.comment) && m2.contains_key("comment.note"@) && m2["comment.note"@] == fg_italic_style(p.comment) && m2.contains_key("comment.error"@) && m2["comment.error"@] == fg_style(p.error) && m2.contains_key("comment.hint"@) && m2["comment.hint"@] == fg_style(p.hint) && m2.contains_key("comment.info"@) && m2["comment.info"@] == fg_style(p.info) && m2.contains_key("comment.todo"@) && m2["comment.todo"@] == fg_style(p.todo) && m2.contains_key("comment.warning"@) && m2["comment.warning"@] == fg_style(p.warning) && m2.contains_key("conceal"@) && m2["conceal"@] == fg_style(p.dark5) && m2.contains_key("constant"@) && m2["constant"@] == fg_style(p.orange) && m2.contains_key("constant.builtin"@) && m2["constant.builtin"@] == fg_style(p.blue1) && m2.contains_key("constant.macro"@) && m2["constant.macro"@] == fg_style(p.cyan) && m2.contains_key("constructor"@) && m2["constructor"@] == fg_style(p.magenta) && m2.contains_key("constructor.tsx"@) && m2["constructor.tsx"@] == fg_style(p.blue1) && m2.contains_key("diff.delta"@) && m2["diff.delta"@] == bg_style(p.diff_change) && m2.contains_key("diff.minus"@) && m2["diff.minus"@] == bg_style(p.diff_delete) && m2.contains_key("diff.plus"@) && m2["diff.plus"@] == bg_style(p.diff_add) && m2.contains_key("embedded"@) && m2["embedded"@] == fg_style(p.green) && m2.contains_key("function"@) && m2["function"@] == fg_style(p.blue) && m2.contains_key("function.call"@) && m2["function.call"@] == fg_style(p.blue) && m2.contains_key("function.method"@) && m2["function.method"@] == fg_style(p.blue) && m2.contains_key("function.method.call"@) && m2["function.method.call"@] == fg_style(p.blue) && m2.contains_key("function.builtin"@) && m2["function.builtin"@] == fg_style(p.blue1) && m2.contains_key("function.macro"@) && m2["function.macro"@] == fg_style(p.cyan) && m2.contains_key("keyword"@) && m2["keyword"@] == fg_italic_style(p.purple) && m2.contains_key("keyword.coroutine"@) && m2["keyword.coroutine"@] == fg_italic_style(p.purple) && m2.contains_key("keyword.return"@) && m2["keyword.return"@] == fg_italic_style(p.purple) && m2.contains_key("keyword.type"@) && m2["keyword.type"@] == fg_italic_style(p.purple) && m2.contains_key("keyword.modifier"@) && m2["keyword.modifier"@] == fg_italic_style(p.purple) && m2.contains_key("type.qualifier"@) && m2["type.qualifier"@] == fg_italic_style(p.purple) && m2.contains_key("keyword.conditional"@) && m2["keyword.conditional"@] == fg_style(p.magenta) && m2.contains_key("keyword.conditional.ternary"@) && m2["keyword.conditional.ternary"@] == fg_style(p.magenta));
    let m3 = tokyonight_styles_group3(p, m2);
    assert(m3.contains_key("normal"@) && m3["normal"@] == fg_bg_style(p.fg, p.bg) && m3.contains_key("selection"@) && m3["selection"@] == bg_style(p.bg_visual) && m3.contains_key("statusline"@) && m3["statusline"@] == fg_bg_style(p.fg_sidebar, p.bg_statusline) && m3.contains_key("ignore"@) && m3["ignore"@] == fg_style(p.dark3) && m3.contains_key("warning"@) && m3["warning"@] == fg_bold_style(p.warning) && m3.contains_key("error"@) && m3["error"@] == fg_bold_style(p.error) && m3.contains_key("annotation"@) && m3["annotation"@] == fg_style(p.cyan) && m3.contains_key("attribute"@) && m3["attribute"@] == fg_style(p.cyan) && m3.contains_key("attribute.builtin"@) && m3["attribute.builtin"@] == fg_style(p.blue1) && m3.contains_key("boolean"@) && m3["boolean"@] == fg_style(p.orange) && m3.contains_key("character"@) && m3["character"@] == fg_style(p.green) && m3.contains_key("character.printf"@) && m3["character.printf"@] == fg_style(p.blue1) && m3.contains_key("character.special"@) && m3["character.special"@] == fg_style(p.blue1) && m3.contains_key("comment"@) && m3["comment"@] == fg_italic_style(p.comment) && m3.contains_key("comment.documentation"@) && m3["comment.documentation"@] == fg_italic_style(p.comment) && m3.contains_key("comment.note"@) && m3["comment.note"@] == fg_italic_style(p.comment) && m3.contains_key("comment.error"@) && m3["comment.error"@] == fg_style(p.error) && m3.contains_key("comment.hint"@) && m3["comment.hint"@] == fg_style(p.hint) && m3.contains_key("comment.info"@) && m3["comment.info"@] == fg_style(p.info) && m3.contains_key("comment.todo"@) && m3["comment.todo"@] == fg_style(p.todo) && m3.contains_key("comment.warning"@) && m3["comment.warning"@] == fg_style(p.warning) && m3.contains_key("conceal"@) && m3["conceal"@] == fg_style(p.dark5) && m3.contains_key("constant"@) && m3["constant"@] == fg_style(p.orange) && m3.contains_key("constant.builtin"@) && m3["constant.builtin"@] == fg_style(p.blue1) && m3.contains_key("constant.macro"@) && m3["constant.macro"@] == fg_style(p.cyan) && m3.contains_key("constructor"@) && m3["constructor"@] == fg_style(p.magenta) && m3.contains_key("constructor.tsx"@) && m3["constructor.tsx"@] == fg_style(p.blue1) && m3.contains_key("diff.delta"@) && m3["diff.delta"@] == bg_style(p.diff_change) && m3.contains_key("diff.minus"@) && m3["diff.minus"@] == bg_style(p.diff_delete) && m3.contains_key("diff.plus"@) && m3["diff.plus"@] == bg_style(p.diff_add) && m3.contains_key("embedded"@) && m3["embedded"@] == fg_style(p.green) && m3.contains_key("function"@) && m3["function"@] == fg_style(p.blue) && m3.contains_key("function.call"@) && m3["function.call"@] == fg_style(p.blue) && m3.contains_key("function.method"@) && m3["function.method"@] == fg_style(p.blue) && m3.contains_key("function.method.call"@) && m3["function.method.call"@] == fg_style(p.blue) && m3.contains_key("function.builtin"@) && m3["function.builtin"@] == fg_style(p.blue1) && m3.contains_key("function.macro"@) && m3["function.macro"@] == fg_style(p.cyan) && m3.contains_key("keyword"@) && m3["keyword"@] == fg_italic_style(p.purple) && m3.contains_key("keyword.coroutine"@) && m3["keyword.coroutine"@] == fg_italic_style(p.purple) && m3.contains_key("keyword.return"@) && m3["keyword.return"@] == fg_italic_style(p.purple) && m3.contains_key("keyword.type"@) && m3["keyword.type"@] == fg_italic_style(p.purple) && m3.contains_key("keyword.modifier"@) && m3["keyword.modifier"@] == fg_italic_style(p.purple) && m3.contains_key("type.qualifier"@) && m3["type.qualifier"@] == fg_italic_style(p.purple) && m3.contains_key("keyword.conditional"@) && m3["keyword.conditional"@] == fg_style(p.magenta) && m3.contains_key("keyword.conditional.ternary"@) && m3["keyword.conditional.ternary"@] == fg_style(p.magenta));
    let m4 = tokyonight_styles_group4(p, m3);
    assert(m4.contains_key("normal"@) && m4["normal"@] == fg_bg_style(p.fg, p.bg) && m4.contains_key("selection"@) && m4["selection"@] == bg_style(p.bg_visual) && m4.contains_key("statusline"@) && m4["statusline"@] == fg_bg_style(p.fg_sidebar, p.bg_statusline) && m4.contains_key("ignore"@) && m4["ignore"@] == fg_style(p.dark3) && m4.contains_key("warning"@) && m4["warning"@] == fg_bold_style(p.warning) && m4.contains_key("error"@) && m4["error"@] == fg_bold_style(p.error) && m4.contains_key("annotation"@) && m4["annotation"@] == fg_style(p.cyan) && m4.contains_key("attribute"@) && m4["attribute"@] == fg_style(p.cyan) && m4.contains_key("attribute.builtin"@) && m4["attribute.builtin"@] == fg_style(p.blue1) && m4.contains_key("boolean"@) && m4["boolean"@] == fg_style(p.orange) && m4.contains_key("character"@) && m4["character"@] == fg_style(p.green) && m4.contains_key("character.printf"@) && m4["character.printf"@] == fg_style(p.blue1) && m4.contains_key("character.special"@) && m4["character.special"@] == fg_style(p.blue1) && m4.contains_key("comment"@) && m4["comment"@] == fg_italic_style(p.comment) && m4.contains_key("comment.documentation"@) && m4["comment.documentation"@] == fg_italic_style(p.comment) && m4.contains_key("comment.note"@) && m4["comment.note"@] == fg_italic_style(p.comment) && m4.contains_key("comment.error"@) && m4["comment.error"@] == fg_style(p.error) && m4.contains_key("comment.hint"@) && m4["comment.hint"@] == fg_style(p.hint) && m4.contains_key("comment.info"@) && m4["comment.info"@] == fg_style(p.info) && m4.contains_key("comment.todo"@) && m4["comment.todo"@] == fg_style(p.todo) && m4.contains_key("comment.warning"@) && m4["comment.warning"@] == fg_style(p.warning) && m4.contains_key("conceal"@) && m4["conceal"@] == fg_style(p.dark5) && m4.contains_key("constant"@) && m4["constant"@] == fg_style(p.orange) && m4.contains_key("constant.builtin"@) && m4["constant.builtin"@] == fg_style(p.blue1) && m4.contains_key("constant.macro"@) && m4["constant.macro"@] == fg_style(p.cyan) && m4.contains_key("constructor"@) && m4["constructor"@] == fg_style(p.magenta) && m4.contains_key("constructor.tsx"@) && m4["constructor.tsx"@] == fg_style(p.blue1) && m4.contains_key("diff.delta"@) && m4["diff.delta"@] == bg_style(p.diff_change) && m4.contains_key("diff.minus"@) && m4["diff.minus"@] == bg_style(p.diff_delete) && m4.contains_key("diff.plus"@) && m4["diff.plus"@] == bg_style(p.diff_add) && m4.contains_key("embedded"@) && m4["embedded"@] == fg_style(p.green) && m4.contains_key("function"@) && m4["function"@] == fg_style(p.blue) && m4.contains_key("function.call"@) && m4["function.call"@] == fg_style(p.blue) && m4.contains_key("function.method"@) && m4["function.method"@] == fg_style(p.blue) && m4.contains_key("function.method.call"@) && m4["function.method.call"@] == fg_style(p.blue) && m4.contains_key("function.builtin"@) && m4["function.builtin"@] == fg_style(p.blue1) && m4.contains_key("function.macro"@) && m4["function.macro"@] == fg_style(p.cyan) && m4.contains_key("keyword"@) && m4["keyword"@] == fg_italic_style(p.purple) && m4.contains_key("keyword.coroutine"@) && m4["keyword.coroutine"@] == fg_italic_style(p.purple) && m4.contains_key("keyword.return"@) && m4["keyword.return"@] == fg_italic_style(p.purple) && m4.contains_key("keyword.type"@) && m4["keyword.type"@] == fg_italic_style(p.purple) && m4.contains_key("keyword.modifier"@) && m4["keyword.modifier"@] == fg_italic_style(p.purple) && m4.contains_key("type.qualifier"@) && m4["type.qualifier"@] == fg_italic_style(p.purple) && m4.contains_key("keyword.conditional"@) && m4["keyword.conditional"@] == fg_style(p.magenta) && m4.contains_key("keyword.conditional.ternary"@) && m4["keyword.conditional.ternary"@] == fg_style(p.magenta));
    let m5 = tokyonight_styles_group5(p, m4);
    assert(m5.contains_key("normal"@) && m5["normal"@] == fg_bg_style(p.fg, p.bg) && m5.contains_key("selection"@) && m5["selection"@] == bg_style(p.bg_visual) && m5.contains_key("statusline"@) && m5["statusline"@] == fg_bg_style(p.fg_sidebar, p.bg_statusline) && m5.contains_key("ignore"@) && m5["ignore"@] == fg_style(p.dark3) && m5.contains_key("warning"@) && m5["warning"@] == fg_bold_style(p.warning) && m5.contains_key("error"@) && m5["error"@] == fg_bold_style(p.error) && m5.contains_key("annotation"@) && m5["annotation"@] == fg_style(p.cyan) && m5.contains_key("attribute"@) && m5["attribute"@] == fg_style(p.cyan) && m5.contains_key("attribute.builtin"@) && m5["attribute.builtin"@] == fg_style(p.blue1) && m5.contains_key("boolean"@) && m5["boolean"@] == fg_style(p.orange) && m5.contains_key("character"@) && m5["character"@] == fg_style(p.green) && m5.contains_key("character.printf"@) && m5["character.printf"@] == fg_style(p.blue1) && m5.contains_key("character.special"@) && m5["character.special"@] == fg_style(p.blue1) && m5.contains_key("comment"@) && m5["comment"@] == fg_italic_style(p.comment) && m5.contains_key("comment.documentation"@) && m5["comment.documentation"@] == fg_italic_style(p.comment) && m5.contains_key("comment.note"@) && m5["comment.note"@] == fg_italic_style(p.comment) && m5.contains_key("comment.error"@) && m5["comment.error"@] == fg_style(p.error) && m5.contains_key("comment.hint"@) && m5["comment.hint"@] == fg_style(p.hint) && m5.contains_key("comment.info"@) && m5["comment.info"@] == fg_style(p.info) && m5.contains_key("comment.todo"@) && m5["comment.todo"@] == fg_style(p.todo) && m5.contains_key("comment.warning"@) && m5["comment.warning"@] == fg_style(p.warning) && m5.contains_key("conceal"@) && m5["conceal"@] == fg_style(p.dark5) && m5.contains_key("constant"@) && m5["constant"@] == fg_style(p.orange) && m5.contains_key("constant.builtin"@) && m5["constant.builtin"@] == fg_style(p.blue1) && m5.contains_key("constant.macro"@) && m5["constant.macro"@] == fg_style(p.cyan) && m5.contains_key("constructor"@) && m5["constructor"@] == fg_style(p.magenta) && m5.contains_key("constructor.tsx"@) && m5["constructor.tsx"@] == fg_style(p.blue1) && m5.contains_key("diff.delta"@) && m5["diff.delta"@] == bg_style(p.diff_change) && m5.contains_key("diff.minus"@) && m5["diff.minus"@] == bg_style(p.diff_delete) && m5.contains_key("diff.plus"@) && m5["diff.plus"@] == bg_style(p.diff_add) && m5.contains_key("embedded"@) && m5["embedded"@] == fg_style(p.green) && m5.contains_key("function"@) && m5["function"@] == fg_style(p.blue) && m5.contains_key("function.call"@) && m5["function.call"@] == fg_style(p.blue) && m5.contains_key("function.method"@) && m5["function.method"@] == fg_style(p.blue) && m5.contains_key("function.method.call"@) && m5["function.method.call"@] == fg_style(p.blue) && m5.contains_key("function.builtin"@) && m5["function.builtin"@] == fg_style(p.blue1) && m5.contains_key("function.macro"@) && m5["function.macro"@] == fg_style(p.cyan) && m5.contains_key("keyword"@) && m5["keyword"@] == fg_italic_style(p.purple) && m5.contains_key("keyword.coroutine"@) && m5["keyword.coroutine"@] == fg_italic_style(p.purple) && m5.contains_key("keyword.return"@) && m5["keyword.return"@] == fg_italic_style(p.purple) && m5.contains_key("keyword.type"@) && m5["keyword.type"@] == fg_italic_style(p.purple) && m5.contains_key("keyword.modifier"@) && m5["keyword.modifier"@] == fg_italic_style(p.purple) && m5.contains_key("type.qualifier"@) && m5["type.qualifier"@] == fg_italic_style(p.purple) && m5.contains_key("keyword.conditional"@) && m5["keyword.conditional"@] == fg_style(p.magenta) && m5.contains_key("keyword.conditional.ternary"@) && m5["keyword.conditional.ternary"@] == fg_style(p.magenta));
}

/// The style of every capture name in a Tokyo Night theme (2 of 3).
pub proof fn lemma_tokyonight_styles_2(p: TokyoNightPalette)
    ensures
        tokyonight_styles(p).contains_key("keyword.exception"@),
        tokyonight_styles(p)["keyword.exception"@] == fg_style(p.magenta),
        tokyonight_styles(p).contains_key("keyword.function"@),
        tokyonight_styles(p)["keyword.function"@] == fg_style(p.magenta),
        tokyonight_styles(p).contains_key("keyword.repeat"@),
        tokyonight_styles(p)["keyword.repeat"@] == fg_style(p.magenta),
        tokyonight_styles(p).contains_key("keyword.debug"@),
        tokyonight_styles(p)["keyword.debug"@] == fg_style(p.orange),
        tokyonight_styles(p).contains_key("keyword.directive"@),
        tokyonight_styles(p)["keyword.directive"@] == fg_style(p.cyan),
        tokyonight_styles(p).contains_key("keyword.directive.define"@),
        tokyonight_styles(p)["keyword.directive.define"@] == fg_style(p.cyan),
        tokyonight_styles(p).contains_key("keyword.import"@),
        tokyonight_styles(p)["keyword.import"@] == fg_style(p.cyan),
        tokyonight_styles(p).contains_key("module"@),
        tokyonight_styles(p)["module"@] == fg_style(p.cyan),
        tokyonight_styles(p).contains_key("keyword.operator"@),
        tokyonight_styles(p)["keyword.operator"@] == fg_style(p.blue5),
        tokyonight_styles(p).contains_key("keyword.storage"@),
        tokyonight_styles(p)["keyword.storage"@] == fg_style(p.blue1),
        tokyonight_styles(p).contains_key("label"@),
        tokyonight_styles(p)["label"@] == fg_style(p.blue),
        tokyonight_styles(p).contains_key("markup"@),
        tokyonight_styles(p)["markup"@] == plain_style(),
        tokyonight_styles(p).contains_key("markup.heading"@),
        tokyonight_styles(p)["markup.heading"@] == fg_bold_style(p.blue),
        tokyonight_styles(p).contains_key("markup.heading.1"@),
        tokyonight_styles(p)["markup.heading.1"@] == (Style { fg: Some(p.blue), bg: Some(blended(p.blue, 1, 10, p.bg)), bold: true, italic: false, underline: false }),
        tokyonight_styles(p).contains_key("markup.heading.2"@),
        tokyonight_styles(p)["markup.heading.2"@] == (Style { fg: Some(p.yellow), bg: Some(blended(p.yellow, 1, 10, p.bg)), bold: true, italic: false, underline: false }),
        tokyonight_styles(p).contains_key("markup.heading.3"@),
        tokyonight_styles(p)["markup.heading.3"@] == (Style { fg: Some(p.green), bg: Some(blended(p.green, 1, 10, p.bg)), bold: true, italic: false, underline: false }),
        tokyonight_styles(p).contains_key("markup.heading.4"@),
        tokyonight_styles(p)["markup.heading.4"@] == (Style { fg: Some(p.teal), bg: Some(blended(p.teal, 1, 10, p.bg)), bold: true, italic: false, underline: false }),
        tokyonight_styles(p).contains_key("markup.heading.5"@),
        tokyonight_styles(p)["markup.heading.5"@] == (Style { fg: Some(p.magenta), bg: Some(blended(p.magenta, 1, 10, p.bg)), bold: true, italic: false, underline: false }),
        tokyonight_styles(p).contains_key("markup.heading.6"@),
        tokyonight_styles(p)["markup.heading.6"@] == (Style { fg: Some(p.purple), bg: Some(blended(p.purple, 1, 10, p.bg)), bold: true, italic: false, underline: false }),
        tokyonight_styles(p).contains_key("markup.heading.7"@),
        tokyonight_styles(p)["markup.heading.7"@] == (Style { fg: Some(p.orange), bg: Some(blended(p.orange, 1, 10, p.bg)), bold: true, italic: false, underline: false }),
        tokyonight_styles(p).contains_key("markup.heading.8"@),
        tokyonight_styles(p)["markup.heading.8"@] == (Style { fg: Some(p.red), bg: Some(blended(p.red, 1, 10, p.bg)), bold: true, italic: false, underline: false }),
        tokyonight_styles(p).contains_key("markup.italic"@),
        tokyonight_styles(p)["markup.italic"@] == (Style { fg: None, bg: None, bold: false, italic: true, underline: false }),
        tokyonight_styles(p).contains_key("markup.link"@),
        tokyonight_styles(p)["markup.link"@] == fg_style(p.teal),
        tokyonight_styles(p).contains_key("markup.link.label"@),
        tokyonight_styles(p)["markup.link.label"@] == fg_style(p.blue1),
        tokyonight_styles(p).contains_key("markup.link.label.symbol"@),
        tokyonight_styles(p)["markup.link.label.symbol"@] == fg_style(p.blue1),
        tokyonight_styles(p).contains_key("markup.link.url"@),
        tokyonight_styles(p)["markup.link.url"@] == (Style { fg: Some(p.teal), bg: None, bold: false, italic: false, underline: true }),
        tokyonight_styles(p).contains_key("markup.list"@),
        tokyonight_styles(p)["markup.list"@] == fg_style(p.blue5),
        tokyonight_styles(p).contains_key("markup.list.checked"@),
        tokyonight_styles(p)["markup.list.checked"@] == fg_style(p.green1),
        tokyonight_styles(p).contains_key("markup.list.markdown"@),
        tokyonight_styles(p)["markup.list.markdown"@] == fg_bold_style(p.orange),
        tokyonight_styles(p).contains_key("markup.list.unchecked"@),
        tokyonight_styles(p)["markup.list.unchecked"@] == fg_style(p.blue),
        tokyonight_styles(p).contains_key("markup.math"@),
        tokyonight_styles(p)["markup.math"@] == fg_style(p.blue1),
        tokyonight_styles(p).contains_key("markup.quote"@),
        tokyonight_styles(p)["markup.quote"@] == fg_italic_style(p.comment),
        tokyonight_styles(p).contains_key("markup.raw"@),
        tokyonight_styles(p)["markup.raw"@] == fg_style(p.green),
        tokyonight_styles(p).contains_key("markup.raw.block"@),
        tokyonight_styles(p)["markup.raw.block"@] == fg_style(p.green),
        tokyonight_styles(p).contains_key("markup.raw.markdown_inline"@),
        tokyonight_styles(p)["markup.raw.markdown_inline"@] == fg_bg_style(p.blue, p.terminal_black),
        tokyonight_styles(p).contains_key("markup.strikethrough"@),
        tokyonight_styles(p)["markup.strikethrough"@] == fg_style(p.comment),
        tokyonight_styles(p).contains_key("markup.strong"@),
        tokyonight_styles(p)["markup.strong"@] == (Style { fg: None, bg: None, bold: true, italic: false, underline: false }),
        tokyonight_styles(p).contains_key("markup.underline"@),
        tokyonight_styles(p)["markup.underline"@] == (Style { fg: None, bg: None, bold: false, italic: false, underline: true }),
        tokyonight_styles(p).contains_key("module.builtin"@),
        tokyonight_styles(p)["module.builtin"@] == fg_style(p.red),
        tokyonight_styles(p).contains_key("namespace.builtin"@),
        tokyonight_styles(p)["namespace.builtin"@] == fg_style(p.red),
        tokyonight_styles(p).contains_key("none"@),
        tokyonight_styles(p)["none"@] == plain_style(),
        tokyonight_styles(p).contains_key("nospell"@),
        tokyonight_styles(p)["nospell"@] == fg_bg_style(p.fg, p.bg),
        tokyonight_styles(p).contains_key("number"@),
        tokyonight_styles(p)["number"@] == fg_style(p.orange),
        tokyonight_styles(p).contains_key("number.float"@),
        tokyonight_styles(p)["number.float"@] == fg_style(p.orange),
        tokyonight_styles(p).contains_key("operator"@),
        tokyonight_styles(p)["operator"@] == fg_style(p.blue5),
{
    reveal_strlit("keyword.exception");
    assert("keyword.exception"@.len() == 17);
    reveal_strlit("keyword.function");
    assert("keyword.function"@.len() == 16);
    reveal_strlit("keyword.repeat");
    assert("keyword.repeat"@.len() == 14);
    reveal_strlit("keyword.debug");
    assert("keyword.debug"@.len() == 13);
    reveal_strlit("keyword.directive");
    assert("keyword.exception"@[8] != "keyword.directive"@[8]);
    reveal_strlit("keyword.directive.define");
    assert("keyword.directive.define"@.len() == 24);
    reveal_strlit("keyword.import");
    assert("keyword.import"@.len() == 14);
    reveal_strlit("module");
    assert("module"@.len() == 6);
    reveal_strlit("keyword.operator");
    assert("keyword.operator"@.len() == 16);
    reveal_strlit("keyword.storage");
    assert("keyword.storage"@.len() == 15);
    reveal_strlit("label");
    assert("label"@.len() == 5);
    reveal_strlit("markup");
    assert("markup"@.len() == 6);
    reveal_strlit("markup.heading");
    assert("markup.heading"@.len() == 14);
    reveal_strlit("markup.heading.1");
    assert("markup.heading.1"@.len() == 16);
    reveal_strlit("markup.heading.2");
    assert("markup.heading.2"@.len() == 16);
    reveal_strlit("markup.heading.3");
    assert("markup.heading.3"@.len() == 16);
    reveal_strlit("markup.heading.4");
    assert("markup.heading.4"@.len() == 16);
    reveal_strlit("markup.heading.5");
    assert("markup.heading.5"@.len() == 16);
    reveal_strlit("markup.heading.6");
    assert("markup.heading.6"@.len() == 16);
    reveal_strlit("markup.heading.7");
    assert("markup.heading.7"@.len() == 16);
    reveal_strlit("markup.heading.8");
    assert("markup.heading.8"@.len() == 16);
    reveal_strlit("markup.italic");
    assert("markup.italic"@.len() == 13);
    reveal_strlit("markup.link");
    assert("markup.link"@.len() == 11);
    reveal_strlit("markup.link.label");
    assert("keyword.exception"@[0] != "markup.link.label"@[0]);
    reveal_strlit("markup.link.label.symbol");
    assert("markup.link.label.symbol"@.len() == 24);
    reveal_strlit("markup.link.url");
    assert("markup.link.url"@.len() == 15);
    reveal_strlit("markup.list");
    assert("markup.list"@.len() == 11);
    reveal_strlit("markup.list.checked");
    assert("markup.list.checked"@.len() == 19);
    reveal_strlit("markup.list.markdown");
    assert("markup.list.markdown"@.len() == 20);
    reveal_strlit("markup.list.unchecked");
    assert("markup.list.unchecked"@.len() == 21);
    reveal_strlit("markup.math");
    assert("markup.math"@.len() == 11);
    reveal_strlit("markup.quote");
    assert("markup.quote"@.len() == 12);
    reveal_strlit("markup.raw");
    assert("markup.raw"@.len() == 10);
    reveal_strlit("markup.raw.block");
    assert("markup.raw.block"@.len() == 16);
    reveal_strlit("markup.raw.markdown_inline");
    assert("markup.raw.markdown_inline"@.len() == 26);
    reveal_strlit("markup.strikethrough");
    assert("markup.strikethrough"@.len() == 20);
    reveal_strlit("markup.strong");
    assert("markup.strong"@.len() == 13);
    reveal_strlit("markup.underline");
    assert("markup.underline"@.len() == 16);
    reveal_strlit("module.builtin");
    assert("module.builtin"@.len() == 14);
    reveal_strlit("namespace.builtin");
    assert("keyword.exception"@[0] != "namespace.builtin"@[0]);
    reveal_strlit("none");
    assert("none"@.len() == 4);
    reveal_strlit("nospell");
    assert("nospell"@.len() == 7);
    reveal_strlit("number");
    assert("number"@.len() == 6);
    reveal_strlit("number.float");
    assert("number.float"@.len() == 12);
    reveal_strlit("operator");
    assert("operator"@.len() == 8);
    reveal_strlit("property");
    assert("property"@.len() == 8);
    reveal_strlit("punctuation");
    assert("punctuation"@.len() == 11);
    reveal_strlit("punctuation.bracket");
    assert("punctuation.bracket"@.len() == 19);
    reveal_strlit("punctuation.delimiter");
    assert("punctuation.delimiter"@.len() == 21);
    reveal_strlit("punctuation.special");
    assert("punctuation.special"@.len() == 19);
    reveal_strlit("punctuation.special.markdown");
    assert("punctuation.special.markdown"@.len() == 28);
    reveal_strlit("spell");
    assert("spell"@.len() == 5);
    reveal_strlit("string");
    assert("string"@.len() == 6);
    reveal_strlit("string.documentation");
    assert("string.documentation"@.len() == 20);
    reveal_strlit("string.escape");
    assert("string.escape"@.len() == 13);
    reveal_strlit("string.regexp");
    assert("string.regexp"@.len() == 13);
    reveal_strlit("string.special");
    assert("string.special"@.len() == 14);
    reveal_strlit("string.special.key");
    assert("string.special.key"@.len() == 18);
    reveal_strlit("string.special.path");
    assert("string.special.path"@.len() == 19);
    reveal_strlit("string.special.symbol");
    assert("string.special.symbol"@.len() == 21);
    reveal_strlit("string.special.url");
    assert("string.special.url"@.len() == 18);
    reveal_strlit("tag");
    assert("tag"@.len() == 3);
    reveal_strlit("tag.attribute");
    assert("tag.attribute"@.len() == 13);
    reveal_strlit("tag.builtin");
    assert("tag.builtin"@.len() == 11);
    reveal_strlit("tag.delimiter");
    assert("tag.delimiter"@.len() == 13);
    reveal_strlit("tag.delimiter.tsx");
    assert("keyword.exception"@[0] != "tag.delimiter.tsx"@[0]);
    reveal_strlit("tag.javascript");
    assert("tag.javascript"@.len() == 14);
    reveal_strlit("tag.tsx");
    assert("tag.tsx"@.len() == 7);
    reveal_strlit("type");
    assert("type"@.len() == 4);
    reveal_strlit("type.builtin");
    assert("type.builtin"@.len() == 12);
    reveal_strlit("type.definition");
    assert("type.definition"@.len() == 15);
    reveal_strlit("variable");
    assert("variable"@.len() == 8);
    reveal_strlit("variable.builtin");
    assert("variable.builtin"@.len() == 16);
    reveal_strlit("variable.member");
    assert("variable.member"@.len() == 15);
    reveal_strlit("variable.parameter");
    assert("variable.parameter"@.len() == 18);
    reveal_strlit("variable.parameter.builtin");
    assert("variable.parameter.builtin"@.len() == 26);
    assert("keyword.directive"@.len() == 17);
    assert("keyword.function"@[8] != "keyword.operator"@[8]);
    assert("keyword.function"@[0] != "markup.heading.1"@[0]);
    assert("keyword.function"@[0] != "markup.heading.2"@[0]);
    assert("keyword.function"@[0] != "markup.heading.3"@[0]);
    assert("keyword.function"@[0] != "markup.heading.4"@[0]);
    assert("keyword.function"@[0] != "markup.heading.5"@[0]);
    assert("keyword.function"@[0] != "markup.heading.6"@[0]);
    assert("keyword.function"@[0] != "markup.heading.7"@[0]);
    assert("keyword.function"@[0] != "markup.heading.8"@[0]);
    assert("markup.link.label"@.len() == 17);
    assert("keyword.function"@[0] != "markup.raw.block"@[0]);
    assert("keyword.function"@[0] != "markup.underline"@[0]);
    assert("namespace.builtin"@.len() == 17);
    assert("tag.delimiter.tsx"@.len() == 17);
    assert("keyword.function"@[0] != "variable.builtin"@[0]);
    assert("keyword.repeat"@[8] != "keyword.import"@[8]);
    assert("keyword.repeat"@[0] != "markup.heading"@[0]);
    assert("keyword.repeat"@[0] != "module.builtin"@[0]);
    assert("keyword.repeat"@[0] != "string.special"@[0]);
    assert("keyword.repeat"@[0] != "tag.javascript"@[0]);
    assert("keyword.debug"@[0] != "markup.italic"@[0]);
    assert("keyword.debug"@[0] != "markup.strong"@[0]);
    assert("keyword.debug"@[0] != "string.escape"@[0]);
    assert("keyword.debug"@[0] != "string.regexp"@[0]);
    assert("keyword.debug"@[0] != "tag.attribute"@[0]);
    assert("keyword.debug"@[0] != "tag.delimiter"@[0]);
    assert("keyword.directive"@[0] != "markup.link.label"@[0]);
    assert("keyword.directive"@[0] != "namespace.builtin"@[0]);
    assert("keyword.directive"@[0] != "tag.delimiter.tsx"@[0]);
    assert("keyword.directive.define"@[0] != "markup.link.label.symbol"@[0]);
    assert("keyword.import"@[0] != "markup.heading"@[0]);
    assert("keyword.import"@[0] != "module.builtin"@[0]);
    assert("keyword.import"@[0] != "string.special"@[0]);
    assert("keyword.import"@[0] != "tag.javascript"@[0]);
    assert("module"@[1] != "markup"@[1]);
    assert("module"@[0] != "number"@[0]);
    assert("module"@[0] != "string"@[0]);
    assert("keyword.operator"@[0] != "markup.heading.1"@[0]);
    assert("keyword.operator"@[0] != "markup.heading.2"@[0]);
    assert("keyword.operator"@[0] != "markup.heading.3"@[0]);
    assert("keyword.operator"@[0] != "markup.heading.4"@[0]);
    assert("keyword.operator"@[0] != "markup.heading.5"@[0]);
    assert("keyword.operator"@[0] != "markup.heading.6"@[0]);
    assert("keyword.operator"@[0] != "markup.heading.7"@[0]);
    assert("keyword.operator"@[0] != "markup.heading.8"@[0]);
    assert("keyword.operator"@[0] != "markup.raw.block"@[0]);
    assert("keyword.operator"@[0] != "markup.underline"@[0]);
    assert("keyword.operator"@[0] != "variable.builtin"@[0]);
    assert("keyword.storage"@[0] != "markup.link.url"@[0]);
    assert("keyword.storage"@[0] != "type.definition"@[0]);
    assert("keyword.storage"@[0] != "variable.member"@[0]);
    assert("label"@[0] != "spell"@[0]);
    assert("markup"@[0] != "number"@[0]);
    assert("markup"@[0] != "string"@[0]);
    assert("markup.heading"@[1] != "module.builtin"@[1]);
    assert("markup.heading"@[0] != "string.special"@[0]);
    assert("markup.heading"@[0] != "tag.javascript"@[0]);
    assert("markup.heading.1"@[15] != "markup.heading.2"@[15]);
    assert("markup.heading.1"@[15] != "markup.heading.3"@[15]);
    assert("markup.heading.1"@[15] != "markup.heading.4"@[15]);
    assert("markup.heading.1"@[15] != "markup.heading.5"@[15]);
    assert("markup.heading.1"@[15] != "markup.heading.6"@[15]);
    assert("markup.heading.1"@[15] != "markup.heading.7"@[15]);
    assert("markup.heading.1"@[15] != "markup.heading.8"@[15]);
    assert("markup.heading.1"@[7] != "markup.raw.block"@[7]);
    assert("markup.heading.1"@[7] != "markup.underline"@[7]);
    assert("markup.heading.1"@[0] != "variable.builtin"@[0]);
    assert("markup.heading.2"@[15] != "markup.heading.3"@[15]);
    assert("markup.heading.2"@[15] != "markup.heading.4"@[15]);
    assert("markup.heading.2"@[15] != "markup.heading.5"@[15]);
    assert("markup.heading.2"@[15] != "markup.heading.6"@[15]);
    assert("markup.heading.2"@[15] != "markup.heading.7"@[15]);
    assert("markup.heading.2"@[15] != "markup.heading.8"@[15]);
    assert("markup.heading.2"@[7] != "markup.raw.block"@[7]);
    assert("markup.heading.2"@[7] != "markup.underline"@[7]);
    assert("markup.heading.2"@[0] != "variable.builtin"@[0]);
    assert("markup.heading.3"@[15] != "markup.heading.4"@[15]);
    assert("markup.heading.3"@[15] != "markup.heading.5"@[15]);
    assert("markup.heading.3"@[15] != "markup.heading.6"@[15]);
    assert("markup.heading.3"@[15] != "markup.heading.7"@[15]);
    assert("markup.heading.3"@[15] != "markup.heading.8"@[15]);
    assert("markup.heading.3"@[7] != "markup.raw.block"@[7]);
    assert("markup.heading.3"@[7] != "markup.underline"@[7]);
    assert("markup.heading.3"@[0] != "variable.builtin"@[0]);
    assert("markup.heading.4"@[15] != "markup.heading.5"@[15]);
    assert("markup.heading.4"@[15] != "markup.heading.6"@[15]);
    assert("markup.heading.4"@[15] != "markup.heading.7"@[15]);
    assert("markup.heading.4"@[15] != "markup.heading.8"@[15]);
    assert("markup.heading.4"@[7] != "markup.raw.block"@[7]);
    assert("markup.heading.4"@[7] != "markup.underline"@[7]);
    assert("markup.heading.4"@[0] != "variable.builtin"@[0]);
    assert("markup.heading.5"@[15] != "markup.heading.6"@[15]);
    assert("markup.heading.5"@[15] != "markup.heading.7"@[15]);
    assert("markup.heading.5"@[15] != "markup.heading.8"@[15]);
    assert("markup.heading.5"@[7] != "markup.raw.block"@[7]);
    assert("markup.heading.5"@[7] != "markup.underline"@[7]);
    assert("markup.heading.5"@[0] != "variable.builtin"@[0]);
    assert("markup.heading.6"@[15] != "markup.heading.7"@[15]);
    assert("markup.heading.6"@[15] != "markup.heading.8"@[15]);
    assert("markup.heading.6"@[7] != "markup.raw.block"@[7]);
    assert("markup.heading.6"@[7] != "markup.underline"@[7]);
    assert("markup.heading.6"@[0] != "variable.builtin"@[0]);
    assert("markup.heading.7"@[15] != "markup.heading.8"@[15]);
    assert("markup.heading.7"@[7] != "markup.raw.block"@[7]);
    assert("markup.heading.7"@[7] != "markup.underline"@[7]);
    assert("markup.heading.7"@[0] != "variable.builtin"@[0]);
    assert("markup.heading.8"@[7] != "markup.raw.block"@[7]);
    assert("markup.heading.8"@[7] != "markup.underline"@[7]);
    assert("markup.heading.8"@[0] != "variable.builtin"@[0]);
    assert("markup.italic"@[7] != "markup.strong"@[7]);
    assert("markup.italic"@[0] != "string.escape"@[0]);
    assert("markup.italic"@[0] != "string.regexp"@[0]);
    assert("markup.italic"@[0] != "tag.attribute"@[0]);
    assert("markup.italic"@[0] != "tag.delimiter"@[0]);
    assert("markup.link"@[9] != "markup.list"@[9]);
    assert("markup.link"@[7] != "markup.math"@[7]);
    assert("markup.link"@[0] != "punctuation"@[0]);
    assert("markup.link"@[0] != "tag.builtin"@[0]);
    assert("markup.link.label"@[0] != "namespace.builtin"@[0]);
    assert("markup.link.label"@[0] != "tag.delimiter.tsx"@[0]);
    assert("markup.link.url"@[0] != "type.definition"@[0]);
    assert("markup.link.url"@[0] != "variable.member"@[0]);
    assert("markup.list"@[7] != "markup.math"@[7]);
    assert("markup.list"@[0] != "punctuation"@[0]);
    assert("markup.list"@[0] != "tag.builtin"@[0]);
    assert("markup.list.checked"@[0] != "punctuation.bracket"@[0]);
    assert("markup.list.checked"@[0] != "punctuation.special"@[0]);
    assert("markup.list.checked"@[0] != "string.special.path"@[0]);
    assert("markup.list.markdown"@[7] != "markup.strikethrough"@[7]);
    assert("markup.list.markdown"@[0] != "string.documentation"@[0]);
    assert("markup.list.unchecked"@[0] != "punctuation.delimiter"@[0]);
    assert("markup.list.unchecked"@[0] != "string.special.symbol"@[0]);
    assert("markup.math"@[0] != "punctuation"@[0]);
    assert("markup.math"@[0] != "tag.builtin"@[0]);
    assert("markup.quote"@[0] != "number.float"@[0]);
    assert("markup.quote"@[0] != "type.builtin"@[0]);
    assert("markup.raw.block"@[7] != "markup.underline"@[7]);
    assert("markup.raw.block"@[0] != "variable.builtin"@[0]);
    assert("markup.raw.markdown_inline"@[0] != "variable.parameter.builtin"@[0]);
    assert("markup.strikethrough"@[0] != "string.documentation"@[0]);
    assert("markup.strong"@[0] != "string.escape"@[0]);
    assert("markup.strong"@[0] != "string.regexp"@[0]);
    assert("markup.strong"@[0] != "tag.attribute"@[0]);
    assert("markup.strong"@[0] != "tag.delimiter"@[0]);
    assert("markup.underline"@[0] != "variable.builtin"@[0]);
    assert("module.builtin"@[0] != "string.special"@[0]);
    assert("module.builtin"@[0] != "tag.javascript"@[0]);
    assert("namespace.builtin"@[0] != "tag.delimiter.tsx"@[0]);
    assert("none"@[0] != "type"@[0]);
    assert("nospell"@[0] != "tag.tsx"@[0]);
    assert("number"@[0] != "string"@[0]);
    assert("number.float"@[0] != "type.builtin"@[0]);
    assert("operator"@[0] != "property"@[0]);
    assert("operator"@[0] != "variable"@[0]);
    let m1 = tokyonight_styles_group1(p, Map::empty());
    let m2 = tokyonight_styles_group2(p, m1);
    assert(m2.contains_key("keyword.exception"@) && m2["keyword.exception"@] == fg_style(p.magenta) && m2.contains_key("keyword.function"@) && m2["keyword.function"@] == fg_style(p.magenta) && m2.contains_key("keyword.repeat"@) && m2["keyword.repeat"@] == fg_style(p.magenta) && m2.contains_key("keyword.debug"@) && m2["keyword.debug"@] == fg_style(p.orange) && m2.contains_key("keyword.directive"@) && m2["keyword.directive"@] == fg_style(p.cyan));
    let m3 = tokyonight_styles_group3(p, m2);
    assert(m3.contains_key("keyword.exception"@) && m3["keyword.exception"@] == fg_style(p.magenta) && m3.contains_key("keyword.function"@) && m3["keyword.function"@] == fg_style(p.magenta) && m3.contains_key("keyword.repeat"@) && m3["keyword.repeat"@] == fg_style(p.magenta) && m3.contains_key("keyword.debug"@) && m3["keyword.debug"@] == fg_style(p.orange) && m3.contains_key("keyword.directive"@) && m3["keyword.directive"@] == fg_style(p.cyan) && m3.contains_key("keyword.directive.define"@) && m3["keyword.directive.define"@] == fg_style(p.cyan) && m3.contains_key("keyword.import"@) && m3["keyword.import"@] == fg_style(p.cyan) && m3.contains_key("module"@) && m3["module"@] == fg_style(p.cyan) && m3.contains_key("keyword.operator"@) && m3["keyword.operator"@] == fg_style(p.blue5) && m3.contains_key("keyword.storage"@) && m3["keyword.storage"@] == fg_style(p.blue1) && m3.contains_key("label"@) && m3["label"@] == fg_style(p.blue) && m3.contains_key("markup"@) && m3["markup"@] == plain_style() && m3.contains_key("markup.heading"@) && m3["markup.heading"@] == fg_bold_style(p.blue) && m3.contains_key("markup.heading.1"@) && m3["markup.heading.1"@] == (Style { fg: Some(p.blue), bg: Some(blended(p.blue, 1, 10, p.bg)), bold: true, italic: false, underline: false }) && m3.contains_key("markup.heading.2"@) && m3["markup.heading.2"@] == (Style { fg: Some(p.yellow), bg: Some(blended(p.yellow, 1, 10, p.bg)), bold: true, italic: false, underline: false }) && m3.contains_key("markup.heading.3"@) && m3["markup.heading.3"@] == (Style { fg: Some(p.green), bg: Some(blended(p.green, 1, 10, p.bg)), bold: true, italic: false, underline: false }) && m3.contains_key("markup.heading.4"@) && m3["markup.heading.4"@] == (Style { fg: Some(p.teal), bg: Some(blended(p.teal, 1, 10, p.bg)), bold: true, italic: false, underline: false }) && m3.contains_key("markup.heading.5"@) && m3["markup.heading.5"@] == (Style { fg: Some(p.magenta), bg: Some(blended(p.magenta, 1, 10, p.bg)), bold: true, italic: false, underline: false }) && m3.contains_key("markup.heading.6"@) && m3["markup.heading.6"@] == (Style { fg: Some(p.purple), bg: Some(blended(p.purple, 1, 10, p.bg)), bold: true, italic: false, underline: false }) && m3.contains_key("markup.heading.7"@) && m3["markup.heading.7"@] == (Style { fg: Some(p.orange), bg: Some(blended(p.orange, 1, 10, p.bg)), bold: true, italic: false, underline: false }) && m3.contains_key("markup.heading.8"@) && m3["markup.heading.8"@] == (Style { fg: Some(p.red), bg: Some(blended(p.red, 1, 10, p.bg)), bold: true, italic: false, underline: false }) && m3.contains_key("markup.italic"@) && m3["markup.italic"@] == (Style { fg: None, bg: None, bold: false, italic: true, underline: false }) && m3.contains_key("markup.link"@) && m3["markup.link"@] == fg_style(p.teal) && m3.contains_key("markup.link.label"@) && m3["markup.link.label"@] == fg_style(p.blue1) && m3.contains_key("markup.link.label.symbol"@) && m3["markup.link.label.symbol"@] == fg_style(p.blue1) && m3.contains_key("markup.link.url"@) && m3["markup.link.url"@] == (Style { fg: Some(p.teal), bg: None, bold: false, italic: false, underline: true }) && m3.contains_key("markup.list"@) && m3["markup.list"@] == fg_style(p.blue5) && m3.contains_key("markup.list.checked"@) && m3["markup.list.checked"@] == fg_style(p.green1) && m3.contains_key("markup.list.markdown"@) && m3["markup.list.markdown"@] == fg_bold_style(p.orange) && m3.contains_key("markup.list.unchecked"@) && m3["markup.list.unchecked"@] == fg_style(p.blue));
    let m4 = tokyonight_styles_group4(p, m3);
    assert(m4.contains_key("keyword.exception"@) && m4["keyword.exception"@] == fg_style(p.magenta) && m4.contains_key("keyword.function"@) && m4["keyword.function"@] == fg_style(p.magenta) && m4.contains_key("keyword.repeat"@) && m4["keyword.repeat"@] == fg_style(p.magenta) && m4.contains_key("keyword.debug"@) && m4["keyword.debug"@] == fg_style(p.orange) && m4.contains_key("keyword.directive"@) && m4["keyword.directive"@] == fg_style(p.cyan) && m4.contains_key("keyword.directive.define"@) && m4["keyword.directive.define"@] == fg_style(p.cyan) && m4.contains_key("keyword.import"@) && m4["keyword.import"@] == fg_style(p.cyan) && m4.contains_key("module"@) && m4["module"@] == fg_style(p.cyan) && m4.contains_key("keyword.operator"@) && m4["keyword.operator"@] == fg_style(p.blue5) && m4.contains_key("keyword.storage"@) && m4["keyword.storage"@] == fg_style(p.blue1) && m4.contains_key("label"@) && m4["label"@] == fg_style(p.blue) && m4.contains_key("markup"@) && m4["markup"@] == plain_style() && m4.contains_key("markup.heading"@) && m4["markup.heading"@] == fg_bold_style(p.blue) && m4.contains_key("markup.heading.1"@) && m4["markup.heading.1"@] == (Style { fg: Some(p.blue), bg: Some(blended(p.blue, 1, 10, p.bg)), bold: true, italic: false, underline: false }) && m4.contains_key("markup.heading.2"@) && m4["markup.heading.2"@] == (Style { fg: Some(p.yellow), bg: Some(blended(p.yellow, 1, 10, p.bg)), bold: true, italic: false, underline: false }) && m4.contains_key("markup.heading.3"@) && m4["markup.heading.3"@] == (Style { fg: Some(p.green), bg: Some(blended(p.green, 1, 10, p.bg)), bold: true, italic: false, underline: false }) && m4.contains_key("markup.heading.4"@) && m4["markup.heading.4"@] == (Style { fg: Some(p.teal), bg: Some(blended(p.teal, 1, 10, p.bg)), bold: true, italic: false, underline: false }) && m4.contains_key("markup.heading.5"@) && m4["markup.heading.5"@] == (Style { fg: Some(p.magenta), bg: Some(blended(p.magenta, 1, 10, p.bg)), bold: true, italic: false, underline: false }) && m4.contains_key("markup.heading.6"@) && m4["markup.heading.6"@] == (Style { fg: Some(p.purple), bg: Some(blended(p.purple, 1, 10, p.bg)), bold: true, italic: false, underline: false }) && m4.contains_key("markup.heading.7"@) && m4["markup.heading.7"@] == (Style { fg: Some(p.orange), bg: Some(blended(p.orange, 1, 10, p.bg)), bold: true, italic: false, underline: false }) && m4.contains_key("markup.heading.8"@) && m4["markup.heading.8"@] == (Style { fg: Some(p.red), bg: Some(blended(p.red, 1, 10, p.bg)), bold: true, italic: false, underline: false }) && m4.contains_key("markup.italic"@) && m4["markup.italic"@] == (Style { fg: None, bg: None, bold: false, italic: true, underline: false }) && m4.contains_key("markup.link"@) && m4["markup.link"@] == fg_style(p.teal) && m4.contains_key("markup.link.label"@) && m4["markup.link.label"@] == fg_style(p.blue1) && m4.contains_key("markup.link.label.symbol"@) && m4["markup.link.label.symbol"@] == fg_style(p.blue1) && m4.contains_key("markup.link.url"@) && m4["markup.link.url"@] == (Style { fg: Some(p.teal), bg: None, bold: false, italic: false, underline: true }) && m4.contains_key("markup.list"@) && m4["markup.list"@] == fg_style(p.blue5) && m4.contains_key("markup.list.checked"@) && m4["markup.list.checked"@] == fg_style(p.green1) && m4.contains_key("markup.list.markdown"@) && m4["markup.list.markdown"@] == fg_bold_style(p.orange) && m4.contains_key("markup.list.unchecked"@) && m4["markup.list.unchecked"@] == fg_style(p.blue) && m4.contains_key("markup.math"@) && m4["markup.math"@] == fg_style(p.blue1) && m4.contains_key("markup.quote"@) && m4["markup.quote"@] == fg_italic_style(p.comment) && m4.contains_key("markup.raw"@) && m4["markup.raw"@] == fg_style(p.green) && m4.contains_key("markup.raw.block"@) && m4["markup.raw.block"@] == fg_style(p.green) && m4.contains_key("markup.raw.markdown_inline"@) && m4["markup.raw.markdown_inline"@] == fg_bg_style(p.blue, p.terminal_black) && m4.contains_key("markup.strikethrough"@) && m4["markup.strikethrough"@] == fg_style(p.comment) && m4.contains_key("markup.strong"@) && m4["markup.strong"@] == (Style { fg: None, bg: None, bold: true, italic: false, underline: false }) && m4.contains_key("markup.underline"@) && m4["markup.underline"@] == (Style { fg: None, bg: None, bold: false, italic: false, underline: true }) && m4.contains_key("module.builtin"@) && m4["module.builtin"@] == fg_style(p.red) && m4.contains_key("namespace.builtin"@) && m4["namespace.builtin"@] == fg_style(p.red) && m4.contains_key("none"@) && m4["none"@] == plain_style() && m4.contains_key("nospell"@) && m4["nospell"@] == fg_bg_style(p.fg, p.bg) && m4.contains_key("number"@) && m4["number"@] == fg_style(p.orange) && m4.contains_key("number.float"@) && m4["number.float"@] == fg_style(p.orange) && m4.contains_key("operator"@) && m4["operator"@] == fg_style(p.blue5));
    let m5 = tokyonight_styles_group5(p, m4);
    assert(m5.contains_key("keyword.exception"@) && m5["keyword.exception"@] == fg_style(p.magenta) && m5.contains_key("keyword.function"@) && m5["keyword.function"@] == fg_style(p.magenta) && m5.contains_key("keyword.repeat"@) && m5["keyword.repeat"@] == fg_style(p.magenta) && m5.contains_key("keyword.debug"@) && m5["keyword.debug"@] == fg_style(p.orange) && m5.contains_key("keyword.directive"@) && m5["keyword.directive"@] == fg_style(p.cyan) && m5.contains_key("keyword.directive.define"@) && m5["keyword.directive.define"@] == fg_style(p.cyan) && m5.contains_key("keyword.import"@) && m5["keyword.import"@] == fg_style(p.cyan) && m5.contains_key("module"@) && m5["module"@] == fg_style(p.cyan) && m5.contains_key("keyword.operator"@) && m5["keyword.operator"@] == fg_style(p.blue5) && m5.contains_key("keyword.storage"@) && m5["keyword.storage"@] == fg_style(p.blue1) && m5.contains_key("label"@) && m5["label"@] == fg_style(p.blue) && m5.contains_key("markup"@) && m5["markup"@] == plain_style() && m5.contains_key("markup.heading"@) && m5["markup.heading"@] == fg_bold_style(p.blue) && m5.contains_key("markup.heading.1"@) && m5["markup.heading.1"@] == (Style { fg: Some(p.blue), bg: Some(blended(p.blue, 1, 10, p.bg)), bold: true, italic: false, underline: false }) && m5.contains_key("markup.heading.2"@) && m5["markup.heading.2"@] == (Style { fg: Some(p.yellow), bg: Some(blended(p.yellow, 1, 10, p.bg)), bold: true, italic: false, underline: false }) && m5.contains_key("markup.heading.3"@) && m5["markup.heading.3"@] == (Style { fg: Some(p.green), bg: Some(blended(p.green, 1, 10, p.bg)), bold: true, italic: false, underline: false }) && m5.contains_key("markup.heading.4"@) && m5["markup.heading.4"@] == (Style { fg: Some(p.teal), bg: Some(blended(p.teal, 1, 10, p.bg)), bold: true, italic: false, underline: false }) && m5.contains_key("markup.heading.5"@) && m5["markup.heading.5"@] == (Style { fg: Some(p.magenta), bg: Some(blended(p.magenta, 1, 10, p.bg)), bold: true, italic: false, underline: false }) && m5.contains_key("markup.heading.6"@) && m5["markup.heading.6"@] == (Style { fg: Some(p.purple), bg: Some(blended(p.purple, 1, 10, p.bg)), bold: true, italic: false, underline: false }) && m5.contains_key("markup.heading.7"@) && m5["markup.heading.7"@] == (Style { fg: Some(p.orange), bg: Some(blended(p.orange, 1, 10, p.bg)), bold: true, italic: false, underline: false }) && m5.contains_key("markup.heading.8"@) && m5["markup.heading.8"@] == (Style { fg: Some(p.red), bg: Some(blended(p.red, 1, 10, p.bg)), bold: true, italic: false, underline: false }) && m5.contains_key("markup.italic"@) && m5["markup.italic"@] == (Style { fg: None, bg: None, bold: false, italic: true, underline: false }) && m5.contains_key("markup.link"@) && m5["markup.link"@] == fg_style(p.teal) && m5.contains_key("markup.link.label"@) && m5["markup.link.label"@] == fg_style(p.blue1) && m5.contains_key("markup.link.label.symbol"@) && m5["markup.link.label.symbol"@] == fg_style(p.blue1) && m5.contains_key("markup.link.url"@) && m5["markup.link.url"@] == (Style { fg: Some(p.teal), bg: None, bold: false, italic: false, underline: true }) && m5.contains_key("markup.list"@) && m5["markup.list"@] == fg_style(p.blue5) && m5.contains_key("markup.list.checked"@) && m5["markup.list.checked"@] == fg_style(p.green1) && m5.contains_key("markup.list.markdown"@) && m5["markup.list.markdown"@] == fg_bold_style(p.orange) && m5.contains_key("markup.list.unchecked"@) && m5["markup.list.unchecked"@] == fg_style(p.blue) && m5.contains_key("markup.math"@) && m5["markup.math"@] == fg_style(p.blue1) && m5.contains_key("markup.quote"@) && m5["markup.quote"@] == fg_italic_style(p.comment) && m5.contains_key("markup.raw"@) && m5["markup.raw"@] == fg_style(p.green) && m5.contains_key("markup.raw.block"@) && m5["markup.raw.block"@] == fg_style(p.green) && m5.contains_key("markup.raw.markdown_inline"@) && m5["markup.raw.markdown_inline"@] == fg_bg_style(p.blue, p.terminal_black) && m5.contains_key("markup.strikethrough"@) && m5["markup.strikethrough"@] == fg_style(p.comment) && m5.contains_key("markup.strong"@) && m5["markup.strong"@] == (Style { fg: None, bg: None, bold: true, italic: false, underline: false }) && m5.contains_key("markup.underline"@) && m5["markup.underline"@] == (Style { fg: None, bg: None, bold: false, italic: false, underline: true }) && m5.contains_key("module.builtin"@) && m5["module.builtin"@] == fg_style(p.red) && m5.contains_key("namespace.builtin"@) && m5["namespace.builtin"@] == fg_style(p.red) && m5.contains_key("none"@) && m5["none"@] == plain_style() && m5.contains_key("nospell"@) && m5["nospell"@] == fg_bg_style(p.fg, p.bg) && m5.contains_key("number"@) && m5["number"@] == fg_style(p.orange) && m5.contains_key("number.float"@) && m5["number.float"@] == fg_style(p.orange) && m5.contains_key("operator"@) && m5["operator"@] == fg_style(p.blue5));
}

/// The style of every capture name in a Tokyo Night theme (3 of 3).
pub proof fn lemma_tokyonight_styles_3(p: TokyoNightPalette)
    ensures
        tokyonight_styles(p).contains_key("property"@),
        tokyonight_styles(p)["property"@] == fg_style(p.green1),
        tokyonight_styles(p).contains_key("punctuation"@),
        tokyonight_styles(p)["punctuation"@] == fg_style(p.fg_dark),
        tokyonight_styles(p).contains_key("punctuation.bracket"@),
        tokyonight_styles(p)["punctuation.bracket"@] == fg_style(p.fg_dark),
        tokyonight_styles(p).contains_key("punctuation.delimiter"@),
        tokyonight_styles(p)["punctuation.delimiter"@] == fg_style(p.blue5),
        tokyonight_styles(p).contains_key("punctuation.special"@),
        tokyonight_styles(p)["punctuation.special"@] == fg_style(p.blue5),
        tokyonight_styles(p).contains_key("punctuation.special.markdown"@),
        tokyonight_styles(p)["punctuation.special.markdown"@] == fg_style(p.orange),
        tokyonight_styles(p).contains_key("spell"@),
        tokyonight_styles(p)["spell"@] == fg_bg_style(p.fg, p.bg),
        tokyonight_styles(p).contains_key("string"@),
        tokyonight_styles(p)["string"@] == fg_style(p.green),
        tokyonight_styles(p).contains_key("string.documentation"@),
        tokyonight_styles(p)["string.documentation"@] == fg_style(p.yellow),
        tokyonight_styles(p).contains_key("string.escape"@),
        tokyonight_styles(p)["string.escape"@] == fg_style(p.magenta),
        tokyonight_styles(p).contains_key("string.regexp"@),
        tokyonight_styles(p)["string.regexp"@] == fg_style(p.blue6),
        tokyonight_styles(p).contains_key("string.special"@),
        tokyonight_styles(p)["string.special"@] == fg_style(p.blue1),
        tokyonight_styles(p).contains_key("string.special.key"@),
        tokyonight_styles(p)["string.special.key"@] == fg_style(p.green1),
        tokyonight_styles(p).contains_key("string.special.path"@),
        tokyonight_styles(p)["string.special.path"@] == fg_style(p.green1),
        tokyonight_styles(p).contains_key("string.special.symbol"@),
        tokyonight_styles(p)["string.special.symbol"@] == fg_style(p.blue1),
        tokyonight_styles(p).contains_key("string.special.url"@),
        tokyonight_styles(p)["string.special.url"@] == (Style { fg: Some(p.teal), bg: None, bold: false, italic: false, underline: true }),
        tokyonight_styles(p).contains_key("tag"@),
        tokyonight_styles(p)["tag"@] == fg_style(p.red),
        tokyonight_styles(p).contains_key("tag.attribute"@),
        tokyonight_styles(p)["tag.attribute"@] == fg_style(p.green1),
        tokyonight_styles(p).contains_key("tag.builtin"@),
        tokyonight_styles(p)["tag.builtin"@] == fg_style(p.red),
        tokyonight_styles(p).contains_key("tag.delimiter"@),
        tokyonight_styles(p)["tag.delimiter"@] == fg_style(p.blue1),
        tokyonight_styles(p).contains_key("tag.delimiter.tsx"@),
        tokyonight_styles(p)["tag.delimiter.tsx"@] == fg_style(blended(p.blue, 7, 10, p.bg)),
        tokyonight_styles(p).contains_key("tag.javascript"@),
        tokyonight_styles(p)["tag.javascript"@] == fg_style(p.red),
        tokyonight_styles(p).contains_key("tag.tsx"@),
        tokyonight_styles(p)["tag.tsx"@] == fg_style(p.red),
        tokyonight_styles(p).contains_key("type"@),
        tokyonight_styles(p)["type"@] == fg_style(p.blue1),
        tokyonight_styles(p).contains_key("type.builtin"@),
        tokyonight_styles(p)["type.builtin"@] == fg_style(blended(p.blue1, 4, 5, p.bg)),
        tokyonight_styles(p).contains_key("type.definition"@),
        tokyonight_styles(p)["type.definition"@] == fg_style(p.blue1),
        tokyonight_styles(p).contains_key("variable"@),
        tokyonight_styles(p)["variable"@] == fg_style(p.fg),
        tokyonight_styles(p).contains_key("variable.builtin"@),
        tokyonight_styles(p)["variable.builtin"@] == fg_style(p.red),
        tokyonight_styles(p).contains_key("variable.member"@),
        tokyonight_styles(p)["variable.member"@] == fg_style(p.green1),
        tokyonight_styles(p).contains_key("variable.parameter"@),
        tokyonight_styles(p)["variable.parameter"@] == fg_style(p.yellow),
        tokyonight_styles(p).contains_key("variable.parameter.builtin"@),
        tokyonight_styles(p)["variable.parameter.builtin"@] == fg_style(blended(p.yellow, 4, 5, p.fg)),
{
    reveal_strlit("property");
    assert("property"@.len() == 8);
    reveal_strlit("punctuation");
    assert("punctuation"@.len() == 11);
    reveal_strlit("punctuation.bracket");
    assert("punctuation.bracket"@.len() == 19);
    reveal_strlit("punctuation.delimiter");
    assert("punctuation.delimiter"@.len() == 21);
    reveal_strlit("punctuation.special");
    assert("punctuation.special"@.len() == 19);
    reveal_strlit("punctuation.special.markdown");
    assert("punctuation.special.markdown"@.len() == 28);
    reveal_strlit("spell");
    assert("spell"@.len() == 5);
    reveal_strlit("string");
    assert("string"@.len() == 6);
    reveal_strlit("string.documentation");
    assert("string.documentation"@.len() == 20);
    reveal_strlit("string.escape");
    assert("string.escape"@.len() == 13);
    reveal_strlit("string.regexp");
    assert("string.regexp"@.len() == 13);
    reveal_strlit("string.special");
    assert("string.special"@.len() == 14);
    reveal_strlit("string.special.key");
    assert("string.special.key"@.len() == 18);
    reveal_strlit("string.special.path");
    assert("string.special.path"@.len() == 19);
    reveal_strlit("string.special.symbol");
    assert("string.special.symbol"@.len() == 21);
    reveal_strlit("string.special.url");
    assert("string.special.url"@.len() == 18);
    reveal_strlit("tag");
    assert("tag"@.len() == 3);
    reveal_strlit("tag.attribute");
    assert("tag.attribute"@.len() == 13);
    reveal_strlit("tag.builtin");
    assert("tag.builtin"@.len() == 11);
    reveal_strlit("tag.delimiter");
    assert("tag.delimiter"@.len() == 13);
    reveal_strlit("tag.delimiter.tsx");
    assert("tag.delimiter.tsx"@.len() == 17);
    reveal_strlit("tag.javascript");
    assert("tag.javascript"@.len() == 14);
    reveal_strlit("tag.tsx");
    assert("tag.tsx"@.len() == 7);
    reveal_strlit("type");
    assert("type"@.len() == 4);
    reveal_strlit("type.builtin");
    assert("type.builtin"@.len() == 12);
    reveal_strlit("type.definition");
    assert("type.definition"@.len() == 15);
    reveal_strlit("variable");
    assert("property"@[0] != "variable"@[0]);
    reveal_strlit("variable.builtin");
    assert("variable.builtin"@.len() == 16);
    reveal_strlit("variable.member");
    assert("variable.member"@.len() == 15);
    reveal_strlit("variable.parameter");
    assert("variable.parameter"@.len() == 18);
    reveal_strlit("variable.parameter.builtin");
    assert("variable.parameter.builtin"@.len() == 26);
    assert("punctuation"@[0] != "tag.builtin"@[0]);
    assert("variable"@.len() == 8);
    assert("punctuation.bracket"@[12] != "punctuation.special"@[12]);
    assert("punctuation.bracket"@[0] != "string.special.path"@[0]);
    assert("punctuation.delimiter"@[0] != "string.special.symbol"@[0]);
    assert("punctuation.special"@[0] != "string.special.path"@[0]);
    assert("string.escape"@[7] != "string.regexp"@[7]);
    assert("string.escape"@[0] != "tag.attribute"@[0]);
    assert("string.escape"@[0] != "tag.delimiter"@[0]);
    assert("string.regexp"@[0] != "tag.attribute"@[0]);
    assert("string.regexp"@[0] != "tag.delimiter"@[0]);
    assert("string.special"@[0] != "tag.javascript"@[0]);
    assert("string.special.key"@[15] != "string.special.url"@[15]);
    assert("string.special.key"@[0] != "variable.parameter"@[0]);
    assert("string.special.url"@[0] != "variable.parameter"@[0]);
    assert("tag.attribute"@[4] != "tag.delimiter"@[4]);
    assert("type.definition"@[0] != "variable.member"@[0]);
    let m1 = tokyonight_styles_group1(p, Map::empty());
    let m2 = tokyonight_styles_group2(p, m1);
    let m3 = tokyonight_styles_group3(p, m2);
    let m4 = tokyonight_styles_group4(p, m3);
    assert(m4.contains_key("property"@) && m4["property"@] == fg_style(p.green1) && m4.contains_key("punctuation"@) && m4["punctuation"@] == fg_style(p.fg_dark) && m4.contains_key("punctuation.bracket"@) && m4["punctuation.bracket"@] == fg_style(p.fg_dark) && m4.contains_key("punctuation.delimiter"@) && m4["punctuation.delimiter"@] == fg_style(p.blue5) && m4.contains_key("punctuation.special"@) && m4["punctuation.special"@] == fg_style(p.blue5) && m4.contains_key("punctuation.special.markdown"@) && m4["punctuation.special.markdown"@] == fg_style(p.orange) && m4.contains_key("spell"@) && m4["spell"@] == fg_bg_style(p.fg, p.bg) && m4.contains_key("string"@) && m4["string"@] == fg_style(p.green) && m4.contains_key("string.documentation"@) && m4["string.documentation"@] == fg_style(p.yellow) && m4.contains_key("string.escape"@) && m4["string.escape"@] == fg_style(p.magenta));
    let m5 = tokyonight_styles_group5(p, m4);
    assert(m5.contains_key("property"@) && m5["property"@] == fg_style(p.green1) && m5.contains_key("punctuation"@) && m5["punctuation"@] == fg_style(p.fg_dark) && m5.contains_key("punctuation.bracket"@) && m5["punctuation.bracket"@] == fg_style(p.fg_dark) && m5.contains_key("punctuation.delimiter"@) && m5["punctuation.delimiter"@] == fg_style(p.blue5) && m5.contains_key("punctuation.special"@) && m5["punctuation.special"@] == fg_style(p.blue5) && m5.contains_key("punctuation.special.markdown"@) && m5["punctuation.special.markdown"@] == fg_style(p.orange) && m5.contains_key("spell"@) && m5["spell"@] == fg_bg_style(p.fg, p.bg) && m5.contains_key("string"@) && m5["string"@] == fg_style(p.green) && m5.contains_key("string.documentation"@) && m5["string.documentation"@] == fg_style(p.yellow) && m5.contains_key("string.escape"@) && m5["string.escape"@] == fg_style(p.magenta) && m5.contains_key("string.regexp"@) && m5["string.regexp"@] == fg_style(p.blue6) && m5.contains_key("string.special"@) && m5["string.special"@] == fg_style(p.blue1) && m5.contains_key("string.special.key"@) && m5["string.special.key"@] == fg_style(p.green1) && m5.contains_key("string.special.path"@) && m5["string.special.path"@] == fg_style(p.green1) && m5.contains_key("string.special.symbol"@) && m5["string.special.symbol"@] == fg_style(p.blue1) && m5.contains_key("string.special.url"@) && m5["string.special.url"@] == (Style { fg: Some(p.teal), bg: None, bold: false, italic: false, underline: true }) && m5.contains_key("tag"@) && m5["tag"@] == fg_style(p.red) && m5.contains_key("tag.attribute"@) && m5["tag.attribute"@] == fg_style(p.green1) && m5.contains_key("tag.builtin"@) && m5["tag.builtin"@] == fg_style(p.red) && m5.contains_key("tag.delimiter"@) && m5["tag.delimiter"@] == fg_style(p.blue1) && m5.contains_key("tag.delimiter.tsx"@) && m5["tag.delimiter.tsx"@] == fg_style(blended(p.blue, 7, 10, p.bg)) && m5.contains_key("tag.javascript"@) && m5["tag.javascript"@] == fg_style(p.red) && m5.contains_key("tag.tsx"@) && m5["tag.tsx"@] == fg_style(p.red) && m5.contains_key("type"@) && m5["type"@] == fg_style(p.blue1) && m5.contains_key("type.builtin"@) && m5["type.builtin"@] == fg_style(blended(p.blue1, 4, 5, p.bg)) && m5.contains_key("type.definition"@) && m5["type.definition"@] == fg_style(p.blue1) && m5.contains_key("variable"@) && m5["variable"@] == fg_style(p.fg) && m5.contains_key("variable.builtin"@) && m5["variable.builtin"@] == fg_style(p.red) && m5.contains_key("variable.member"@) && m5["variable.member"@] == fg_style(p.green1) && m5.contains_key("variable.parameter"@) && m5["variable.parameter"@] == fg_style(p.yellow) && m5.contains_key("variable.parameter.builtin"@) && m5["variable.parameter.builtin"@] == fg_style(blended(p.yellow, 4, 5, p.fg)));
}

/// The style of every UI role in a Tokyo Night theme.
pub proof fn lemma_tokyonight_ui(p: TokyoNightPalette)
    ensures
        tokyonight_ui(p).contains_key("default_fg"@),
        tokyonight_ui(p)["default_fg"@] == fg_style(p.fg),
        tokyonight_ui(p).contains_key("default_bg"@),
        tokyonight_ui(p)["default_bg"@] == bg_style(p.bg),
        tokyonight_ui(p).contains_key("statusline"@),
        tokyonight_ui(p)["statusline"@] == fg_bg_style(p.fg_sidebar, p.bg_statusline),
        tokyonight_ui(p).contains_key("statusline_inactive"@),
        tokyonight_ui(p)["statusline_inactive"@] == fg_bg_style(p.fg_gutter, p.bg_statusline),
        tokyonight_ui(p).contains_key("tab_active"@),
        tokyonight_ui(p)["tab_active"@] == fg_bg_style(p.black, p.blue),
        tokyonight_ui(p).contains_key("tab_inactive"@),
        tokyonight_ui(p)["tab_inactive"@] == fg_bg_style(p.fg_gutter, p.bg_statusline),
        tokyonight_ui(p).contains_key("selection"@),
        tokyonight_ui(p)["selection"@] == bg_style(p.bg_visual),
        tokyonight_ui(p).contains_key("cursorline"@),
        tokyonight_ui(p)["cursorline"@] == bg_style(p.bg_highlight),
{
    reveal_strlit("default_fg");
    assert("default_fg"@.len() == 10);
    reveal_strlit("default_bg");
    assert("default_fg"@[8] != "default_bg"@[8]);
    reveal_strlit("statusline");
    assert("default_fg"@[0] != "statusline"@[0]);
    reveal_strlit("statusline_inactive");
    assert("statusline_inactive"@.len() == 19);
    reveal_strlit("tab_active");
    assert("default_fg"@[0] != "tab_active"@[0]);
    reveal_strlit("tab_inactive");
    assert("tab_inactive"@.len() == 12);
    reveal_strlit("selection");
    assert("selection"@.len() == 9);
    reveal_strlit("cursorline");
    assert("default_fg"@[0] != "cursorline"@[0]);
    assert("default_bg"@.len() == 10);
    assert("default_bg"@[0] != "statusline"@[0]);
    assert("default_bg"@[0] != "tab_active"@[0]);
    assert("default_bg"@[0] != "cursorline"@[0]);
    assert("statusline"@.len() == 10);
    assert("statusline"@[0] != "tab_active"@[0]);
    assert("statusline"@[0] != "cursorline"@[0]);
    assert("tab_active"@.len() == 10);
    assert("cursorline"@.len() == 10);
    assert("tab_active"@[0] != "cursorline"@[0]);
}

} // verus!
