//! OSC sequences that set or reset the terminal's default colors.
use crate::style::Rgb;
use crate::text::{hex2, push_hex2, push_str};
use crate::theme::{default_bg_color, default_fg_color, Theme};
use vstd::prelude::*;

verus! {

/// OSC `code` setting a terminal default color to `#rrggbb`.
pub open spec fn osc_color(code: Seq<char>, c: Rgb) -> Seq<char> {
    "\x1b]"@ + code + ";#"@ + hex2(c.r) + hex2(c.g) + hex2(c.b) + "\x07"@
}

/// The OSC updates for the given default colors; omitted colors emit nothing.
pub open spec fn osc_colors(fg: Option<Rgb>, bg: Option<Rgb>) -> Seq<char> {
    (match fg {
        Some(c) => osc_color("10"@, c),
        None => seq![],
    }) + (match bg {
        Some(c) => osc_color("11"@, c),
        None => seq![],
    })
}

fn push_osc_color(out: &mut String, code: &str, color: Rgb)
    ensures
        final(out)@ == old(out)@ + osc_color(code@, color),
{
    push_str(out, "\x1b]");
    push_str(out, code);
    push_str(out, ";#");
    push_hex2(out, color.r);
    push_hex2(out, color.g);
    push_hex2(out, color.b);
    push_str(out, "\x07");
}

/// Builds OSC `10` to set terminal default foreground color.
pub fn osc_set_default_foreground(color: Rgb) -> (s: String)
    ensures
        s@ == osc_color("10"@, color),
{
    let mut s = String::new();
    push_osc_color(&mut s, "10", color);
    s
}

/// Builds OSC `11` to set terminal default background color.
pub fn osc_set_default_background(color: Rgb) -> (s: String)
    ensures
        s@ == osc_color("11"@, color),
{
    let mut s = String::new();
    push_osc_color(&mut s, "11", color);
    s
}

/// Builds OSC `10`/`11` terminal default-color updates.
///
/// Omitted channels are not emitted.
pub fn osc_set_default_colors(fg: Option<Rgb>, bg: Option<Rgb>) -> (s: String)
    ensures
        s@ == osc_colors(fg, bg),
{
    let mut out = String::new();
    match fg {
        Some(color) => {
            let f = osc_set_default_foreground(color);
            push_str(&mut out, f.as_str());
        },
        None => {},
    }
    match bg {
        Some(color) => {
            let b = osc_set_default_background(color);
            push_str(&mut out, b.as_str());
        },
        None => {},
    }
    out
}

/// Builds OSC terminal default-color updates from a theme.
///
/// Colors are resolved from `default_fg`/`default_bg` UI roles first, then
/// fall back to the theme `normal` style.
pub fn osc_set_default_colors_from_theme(theme: &Theme) -> (s: String)
    ensures
        s@ == osc_colors(
            default_fg_color(theme.ui@, theme.styles@),
            default_bg_color(theme.ui@, theme.styles@),
        ),
{
    let (fg, bg) = theme.default_terminal_colors();
    osc_set_default_colors(fg, bg)
}

/// Returns OSC `110` to reset terminal default foreground color.
pub fn osc_reset_default_foreground() -> (s: &'static str)
    ensures
        s@ == "\x1b]110\x07"@,
{
    "\x1b]110\x07"
}

/// Returns OSC `111` to reset terminal default background color.
pub fn osc_reset_default_background() -> (s: &'static str)
    ensures
        s@ == "\x1b]111\x07"@,
{
    "\x1b]111\x07"
}

/// Returns OSC `110` + `111` to reset terminal default foreground/background colors.
pub fn osc_reset_default_colors() -> (s: &'static str)
    ensures
        s@ == "\x1b]110\x07\x1b]111\x07"@,
{
    "\x1b]110\x07\x1b]111\x07"
}

} // verus!
