//! Colors and text styles.
use vstd::prelude::*;

verus! {

/// An RGB color triplet.
#[derive(Debug, Clone, Copy, PartialEq, Eq, Structural)]
pub struct Rgb {
    pub r: u8,
    pub g: u8,
    pub b: u8,
}

/// A resolved text style: optional foreground/background colors plus attributes.
#[derive(Debug, Clone, Copy, PartialEq, Eq, Structural)]
pub struct Style {
    pub fg: Option<Rgb>,
    pub bg: Option<Rgb>,
    pub bold: bool,
    pub italic: bool,
    pub underline: bool,
}

/// The style with no colors and no attributes.
pub open spec fn plain_style() -> Style {
    Style { fg: None, bg: None, bold: false, italic: false, underline: false }
}

/// A style with only a foreground color.
pub open spec fn fg_style(c: Rgb) -> Style {
    Style { fg: Some(c), ..plain_style() }
}

/// A style with only a background color.
pub open spec fn bg_style(c: Rgb) -> Style {
    Style { bg: Some(c), ..plain_style() }
}

/// A style with an italic foreground color.
pub open spec fn fg_italic_style(c: Rgb) -> Style {
    Style { fg: Some(c), italic: true, ..plain_style() }
}

/// A style with a bold foreground color.
pub open spec fn fg_bold_style(c: Rgb) -> Style {
    Style { fg: Some(c), bold: true, ..plain_style() }
}

/// A style with a foreground and a background color.
pub open spec fn fg_bg_style(f: Rgb, b: Rgb) -> Style {
    Style { fg: Some(f), bg: Some(b), ..plain_style() }
}

impl Rgb {
    /// Creates an RGB triplet.
    pub fn new(r: u8, g: u8, b: u8) -> (c: Self)
        ensures
            c == (Rgb { r, g, b }),
    {
        Rgb { r, g, b }
    }
}

impl Default for Style {
    /// The style with no colors and no attributes.
    fn default() -> (s: Self)
        ensures
            s == plain_style(),
    {
        Style { fg: None, bg: None, bold: false, italic: false, underline: false }
    }
}

impl Style {
    /// The style with no colors and no attributes.
    pub fn plain() -> (s: Self)
        ensures
            s == plain_style(),
    {
        Style { fg: None, bg: None, bold: false, italic: false, underline: false }
    }

    /// A style with only a foreground color.
    pub fn with_fg(c: Rgb) -> (s: Self)
        ensures
            s == fg_style(c),
    {
        Style { fg: Some(c), bg: None, bold: false, italic: false, underline: false }
    }

    /// A style with only a background color.
    pub fn with_bg(c: Rgb) -> (s: Self)
        ensures
            s == bg_style(c),
    {
        Style { fg: None, bg: Some(c), bold: false, italic: false, underline: false }
    }

    /// A style with an italic foreground color.
    pub fn with_fg_italic(c: Rgb) -> (s: Self)
        ensures
            s == fg_italic_style(c),
    {
        Style { fg: Some(c), bg: None, bold: false, italic: true, underline: false }
    }

    /// A style with a bold foreground color.
    pub fn with_fg_bold(c: Rgb) -> (s: Self)
        ensures
            s == fg_bold_style(c),
    {
        Style { fg: Some(c), bg: None, bold: true, italic: false, underline: false }
    }

    /// A style with a foreground and a background color.
    pub fn with_fg_bg(f: Rgb, b: Rgb) -> (s: Self)
        ensures
            s == fg_bg_style(f, b),
    {
        Style { fg: Some(f), bg: Some(b), bold: false, italic: false, underline: false }
    }
}

/// Layers `overlay` over `base`: colors of the overlay win when present,
/// attributes are combined with logical OR.
pub open spec fn merged_style(base: Option<Style>, overlay: Option<Style>) -> Option<Style> {
    match (base, overlay) {
        (None, None) => None,
        (Some(b), None) => Some(b),
        (None, Some(o)) => Some(o),
        (Some(b), Some(o)) => Some(
            Style {
                fg: if o.fg is Some {
                    o.fg
                } else {
                    b.fg
                },
                bg: if o.bg is Some {
                    o.bg
                } else {
                    b.bg
                },
                bold: b.bold || o.bold,
                italic: b.italic || o.italic,
                underline: b.underline || o.underline,
            },
        ),
    }
}

/// Merges an overlay style over a base style.
pub fn merge_styles(base: Option<Style>, overlay: Option<Style>) -> (r: Option<Style>)
    ensures
        r == merged_style(base, overlay),
{
    match (base, overlay) {
        (None, None) => None,
        (Some(b), None) => Some(b),
        (None, Some(o)) => Some(o),
        (Some(b), Some(o)) => {
            let fg = match o.fg {
                Some(c) => Some(c),
                None => b.fg,
            };
            let bg = match o.bg {
                Some(c) => Some(c),
                None => b.bg,
            };
            Some(
                Style {
                    fg,
                    bg,
                    bold: b.bold || o.bold,
                    italic: b.italic || o.italic,
                    underline: b.underline || o.underline,
                },
            )
        },
    }
}

/// One channel of `alpha * fg + (1 - alpha) * bg` with `alpha = num / den`,
/// clamped to `[0, 255]` and rounded half up.
pub open spec fn blend_channel_value(fg: u8, num: nat, den: nat, bg: u8) -> int {
    (2 * (num * fg + (den - num) * bg) + den) / (2 * den) as int
}

/// Blends one color channel with the exact ratio `num / den`.
pub fn blend_channel(fg: u8, num: u32, den: u32, bg: u8) -> (c: u8)
    requires
        0 < den <= 1000,
        num <= den,
    ensures
        c as int == blend_channel_value(fg, num as nat, den as nat, bg),
{
    proof {
        assert((num as u64) * (fg as u64) <= 1000 * 255) by (nonlinear_arith)
            requires
                num <= 1000,
                fg <= 255,
        ;
    }
    let rest: u32 = den - num;
    proof {
        assert((rest as u64) * (bg as u64) <= 1000 * 255) by (nonlinear_arith)
            requires
                rest <= 1000,
                bg <= 255,
        ;
    }
    let total: u64 = (num as u64) * (fg as u64) + (rest as u64) * (bg as u64);
    let v: u64 = (2 * total + den as u64) / (2 * den as u64);
    proof {
        assert(total <= (den as u64) * 255) by (nonlinear_arith)
            requires
                total == (num as u64) * (fg as u64) + (rest as u64) * (bg as u64),
                rest == den - num,
                num <= den,
                fg <= 255,
                bg <= 255,
        ;
        assert(v <= 255) by (nonlinear_arith)
            requires
                v == (2 * total + den as u64) / (2 * den as u64),
                total <= (den as u64) * 255,
                den > 0,
        ;
    }
    v as u8
}

/// `foreground` over `background` with opacity `num / den`, each channel
/// rounded half up.
pub open spec fn blended(foreground: Rgb, num: nat, den: nat, background: Rgb) -> Rgb {
    Rgb {
        r: blend_channel_value(foreground.r, num, den, background.r) as u8,
        g: blend_channel_value(foreground.g, num, den, background.g) as u8,
        b: blend_channel_value(foreground.b, num, den, background.b) as u8,
    }
}

/// Blends `foreground` over `background` with opacity `num / den`, rounding
/// each channel half up.
pub fn blend_ratio(foreground: Rgb, num: u32, den: u32, background: Rgb) -> (c: Rgb)
    requires
        0 < den <= 1000,
        num <= den,
    ensures
        c == blended(foreground, num as nat, den as nat, background),
        c.r as int == blend_channel_value(foreground.r, num as nat, den as nat, background.r),
        c.g as int == blend_channel_value(foreground.g, num as nat, den as nat, background.g),
        c.b as int == blend_channel_value(foreground.b, num as nat, den as nat, background.b),
{
    Rgb {
        r: blend_channel(foreground.r, num, den, background.r),
        g: blend_channel(foreground.g, num, den, background.g),
        b: blend_channel(foreground.b, num, den, background.b),
    }
}

} // verus!
