//! Terminal color modes and SGR (Select Graphic Rendition) sequences.
use crate::style::{Rgb, Style};
use crate::text::{ascii_lower_seq, chars_of, decimal, push_decimal, push_str, str_eq, string_from_chars, trim_end_index, trim_start_index, trimmed};
use vstd::prelude::*;

verus! {

/// How colors are written to the terminal.
#[derive(Debug, Clone, Copy, PartialEq, Eq, Structural)]
pub enum ColorMode {
    TrueColor,
    Ansi256,
    Ansi16,
}

impl Default for ColorMode {
    fn default() -> (m: Self)
        ensures
            m == ColorMode::TrueColor,
    {
        ColorMode::TrueColor
    }
}

/// The color mode named by an already trimmed and lowercased name or alias.
pub open spec fn color_mode_from_key(k: Seq<char>) -> Option<ColorMode> {
    if k == "truecolor"@ || k == "24bit"@ || k == "24-bit"@ || k == "rgb"@ {
        Some(ColorMode::TrueColor)
    } else if k == "ansi256"@ || k == "256"@ || k == "xterm256"@ || k == "xterm-256"@ {
        Some(ColorMode::Ansi256)
    } else if k == "ansi16"@ || k == "16"@ || k == "xterm16"@ || k == "xterm-16"@ || k
        == "basic"@ {
        Some(ColorMode::Ansi16)
    } else {
        None
    }
}

/// The canonical name of a color mode.
pub open spec fn color_mode_name(m: ColorMode) -> Seq<char> {
    match m {
        ColorMode::TrueColor => "truecolor"@,
        ColorMode::Ansi256 => "ansi256"@,
        ColorMode::Ansi16 => "ansi16"@,
    }
}

impl ColorMode {
    /// Parses a color mode from user input (trimmed, ASCII case-insensitive).
    ///
    /// Accepts `"truecolor"`, `"24bit"`, `"24-bit"`, `"rgb"`, `"ansi256"`, `"256"`,
    /// `"xterm256"`, `"xterm-256"`, `"ansi16"`, `"16"`, `"xterm16"`, `"xterm-16"`
    /// and `"basic"`.
    pub fn from_name(input: &str) -> (r: Option<ColorMode>)
        ensures
            r == color_mode_from_key(ascii_lower_seq(trimmed(input@))),
    {
        let v = chars_of(input);
        let i = trim_start_index(&v);
        let j = trim_end_index(&v, i);
        let key = string_from_chars(&v, i, j, true);
        let k = key.as_str();
        if str_eq(k, "truecolor") || str_eq(k, "24bit") || str_eq(k, "24-bit") || str_eq(k, "rgb") {
            Some(ColorMode::TrueColor)
        } else if str_eq(k, "ansi256") || str_eq(k, "256") || str_eq(k, "xterm256") || str_eq(
            k,
            "xterm-256",
        ) {
            Some(ColorMode::Ansi256)
        } else if str_eq(k, "ansi16") || str_eq(k, "16") || str_eq(k, "xterm16") || str_eq(
            k,
            "xterm-16",
        ) || str_eq(k, "basic") {
            Some(ColorMode::Ansi16)
        } else {
            None
        }
    }

    /// Returns the canonical CLI/config name for this mode.
    pub fn name(self) -> (r: &'static str)
        ensures
            r@ == color_mode_name(self),
    {
        match self {
            ColorMode::TrueColor => "truecolor",
            ColorMode::Ansi256 => "ansi256",
            ColorMode::Ansi16 => "ansi16",
        }
    }

    /// Returns all canonical color mode names.
    pub fn supported_names() -> (v: Vec<&'static str>)
        ensures
            v@.len() == 3,
            v@[0]@ == color_mode_name(ColorMode::TrueColor),
            v@[1]@ == color_mode_name(ColorMode::Ansi256),
            v@[2]@ == color_mode_name(ColorMode::Ansi16),
    {
        let mut v: Vec<&'static str> = Vec::new();
        v.push("truecolor");
        v.push("ansi256");
        v.push("ansi16");
        v
    }
}

/// The channel levels of the 6x6x6 color cube of the 256-color palette.
pub open spec fn cube_level(i: int) -> int {
    if i == 0 {
        0
    } else if i == 1 {
        95
    } else if i == 2 {
        135
    } else if i == 3 {
        175
    } else if i == 4 {
        215
    } else {
        255
    }
}

/// The distance between two channel values.
pub open spec fn abs_diff(a: int, b: int) -> int {
    if a >= b {
        a - b
    } else {
        b - a
    }
}

/// The index of the cube level nearest to `v`; of two equally near levels the lower.
pub open spec fn nearest_level(v: int) -> int {
    if v <= 47 {
        0
    } else if v <= 115 {
        1
    } else if v <= 155 {
        2
    } else if v <= 195 {
        3
    } else if v <= 235 {
        4
    } else {
        5
    }
}

/// `nearest_level` names the first level of least distance.
pub proof fn lemma_nearest_level(v: u8)
    ensures
        0 <= nearest_level(v as int) < 6,
        forall|j: int|
            0 <= j < 6 ==> abs_diff(v as int, cube_level(nearest_level(v as int))) <= abs_diff(
                v as int,
                #[trigger] cube_level(j),
            ),
        forall|j: int|
            0 <= j < nearest_level(v as int) ==> abs_diff(
                v as int,
                cube_level(nearest_level(v as int)),
            ) < abs_diff(v as int, #[trigger] cube_level(j)),
{
}

/// The squared distance of two colors given by channels.
pub open spec fn sq_dist(r1: int, g1: int, b1: int, r2: int, g2: int, b2: int) -> int {
    (r1 - r2) * (r1 - r2) + (g1 - g2) * (g1 - g2) + (b1 - b2) * (b1 - b2)
}

/// The index of the gray ramp entry (`8 + 10 * i`) chosen for a color.
pub open spec fn gray_ramp_index(r: u8, g: u8, b: u8) -> int {
    let avg = (r + g + b) / 3;
    if avg < 3 {
        0
    } else if (avg - 3) / 10 > 23 {
        23
    } else {
        (avg - 3) / 10
    }
}

/// The 256-color palette index of a color: the nearest cube color, unless the
/// chosen gray ramp entry is strictly nearer.
pub open spec fn ansi256_index(r: u8, g: u8, b: u8) -> int {
    let ri = nearest_level(r as int);
    let gi = nearest_level(g as int);
    let bi = nearest_level(b as int);
    let cube_distance = sq_dist(
        r as int,
        g as int,
        b as int,
        cube_level(ri),
        cube_level(gi),
        cube_level(bi),
    );
    let k = gray_ramp_index(r, g, b);
    let level = 8 + 10 * k;
    let gray_distance = sq_dist(r as int, g as int, b as int, level, level, level);
    if gray_distance < cube_distance {
        232 + k
    } else {
        16 + 36 * ri + 6 * gi + bi
    }
}

/// The color of an entry of the 256-color palette from index `16` on: the
/// 6x6x6 cube (red, then green, then blue as the fastest-changing axis) and
/// the 24-step gray ramp.
pub open spec fn palette_rgb(i: int) -> (int, int, int) {
    if i < 232 {
        (cube_level((i - 16) / 36), cube_level(((i - 16) / 6) % 6), cube_level((i - 16) % 6))
    } else {
        (8 + 10 * (i - 232), 8 + 10 * (i - 232), 8 + 10 * (i - 232))
    }
}

/// Squares keep the order of distances.
proof fn lemma_square_le(x: int, y: int)
    requires
        0 <= x <= y,
    ensures
        x * x <= y * y,
{
    assert(x * x <= y * y) by (nonlinear_arith)
        requires
            0 <= x <= y,
    ;
}

/// The squared distance to a color is the sum of the squared channel distances.
proof fn lemma_sq_dist_abs(r1: int, g1: int, b1: int, r2: int, g2: int, b2: int)
    ensures
        sq_dist(r1, g1, b1, r2, g2, b2) == abs_diff(r1, r2) * abs_diff(r1, r2) + abs_diff(g1, g2)
            * abs_diff(g1, g2) + abs_diff(b1, b2) * abs_diff(b1, b2),
{
    assert((r1 - r2) * (r1 - r2) == abs_diff(r1, r2) * abs_diff(r1, r2)) by (nonlinear_arith);
    assert((g1 - g2) * (g1 - g2) == abs_diff(g1, g2) * abs_diff(g1, g2)) by (nonlinear_arith);
    assert((b1 - b2) * (b1 - b2) == abs_diff(b1, b2) * abs_diff(b1, b2)) by (nonlinear_arith);
}

/// The cube entry of level indices `ri`, `gi`, `bi` has those levels as its
/// red, green and blue channels.
proof fn lemma_cube_entry(ri: int, gi: int, bi: int)
    requires
        0 <= ri < 6,
        0 <= gi < 6,
        0 <= bi < 6,
    ensures
        16 <= 16 + 36 * ri + 6 * gi + bi < 232,
        palette_rgb(16 + 36 * ri + 6 * gi + bi) == (cube_level(ri), cube_level(gi), cube_level(bi)),
{
    let i = 16 + 36 * ri + 6 * gi + bi;
    assert((i - 16) / 36 == ri) by (nonlinear_arith)
        requires
            i - 16 == 36 * ri + 6 * gi + bi,
            0 <= gi < 6,
            0 <= bi < 6,
            0 <= ri,
    ;
    assert((i - 16) / 6 == 6 * ri + gi) by (nonlinear_arith)
        requires
            i - 16 == 36 * ri + 6 * gi + bi,
            0 <= bi < 6,
            0 <= ri,
            0 <= gi,
    ;
    assert(((i - 16) / 6) % 6 == gi) by (nonlinear_arith)
        requires
            (i - 16) / 6 == 6 * ri + gi,
            0 <= gi < 6,
            0 <= ri,
    ;
    assert((i - 16) % 6 == bi) by (nonlinear_arith)
        requires
            i - 16 == 36 * ri + 6 * gi + bi,
            0 <= bi < 6,
            0 <= ri,
            0 <= gi,
    ;
}

/// Every cube entry is a triple of cube levels.
proof fn lemma_cube_entry_levels(j: int)
    requires
        16 <= j < 232,
    ensures
        0 <= (j - 16) / 36 < 6,
        0 <= ((j - 16) / 6) % 6 < 6,
        0 <= (j - 16) % 6 < 6,
{
}

/// The 256-color index of a color names a palette entry at least as near to
/// the color as every entry of the cube; when it is a cube entry, each of its
/// red, green and blue channels is the cube level nearest to the color's own
/// red, green and blue channel. The gray ramp entry that the channels'
/// average picks is chosen only when it is strictly nearer than every cube
/// entry, and a cube entry only when it is at least as near as that gray.
pub proof fn lemma_ansi256_nearest(r: u8, g: u8, b: u8)
    ensures
        16 <= ansi256_index(r, g, b) < 256,
        ansi256_index(r, g, b) < 232 ==> forall|j: int|
            0 <= j < 6 ==> abs_diff(r as int, palette_rgb(ansi256_index(r, g, b)).0) <= abs_diff(
                r as int,
                #[trigger] cube_level(j),
            ) && abs_diff(g as int, palette_rgb(ansi256_index(r, g, b)).1) <= abs_diff(g as int, cube_level(j))
                && abs_diff(b as int, palette_rgb(ansi256_index(r, g, b)).2) <= abs_diff(b as int, cube_level(j)),
        forall|j: int|
            16 <= j < 232 ==> sq_dist(
                r as int,
                g as int,
                b as int,
                palette_rgb(ansi256_index(r, g, b)).0,
                palette_rgb(ansi256_index(r, g, b)).1,
                palette_rgb(ansi256_index(r, g, b)).2,
            ) <= sq_dist(r as int, g as int, b as int, #[trigger] palette_rgb(j).0, palette_rgb(j).1, palette_rgb(j).2),
        ansi256_index(r, g, b) >= 232 ==> ansi256_index(r, g, b) == 232 + gray_ramp_index(r, g, b) && forall|j: int|
            16 <= j < 232 ==> sq_dist(
                r as int,
                g as int,
                b as int,
                palette_rgb(ansi256_index(r, g, b)).0,
                palette_rgb(ansi256_index(r, g, b)).1,
                palette_rgb(ansi256_index(r, g, b)).2,
            ) < sq_dist(r as int, g as int, b as int, #[trigger] palette_rgb(j).0, palette_rgb(j).1, palette_rgb(j).2),
        ansi256_index(r, g, b) < 232 ==> sq_dist(
            r as int,
            g as int,
            b as int,
            palette_rgb(ansi256_index(r, g, b)).0,
            palette_rgb(ansi256_index(r, g, b)).1,
            palette_rgb(ansi256_index(r, g, b)).2,
        ) <= sq_dist(
            r as int,
            g as int,
            b as int,
            palette_rgb(232 + gray_ramp_index(r, g, b)).0,
            palette_rgb(232 + gray_ramp_index(r, g, b)).1,
            palette_rgb(232 + gray_ramp_index(r, g, b)).2,
        ),
{
    lemma_nearest_level(r);
    lemma_nearest_level(g);
    lemma_nearest_level(b);
    let ri = nearest_level(r as int);
    let gi = nearest_level(g as int);
    let bi = nearest_level(b as int);
    lemma_cube_entry(ri, gi, bi);
    let idx = ansi256_index(r, g, b);
    let near = palette_rgb(16 + 36 * ri + 6 * gi + bi);
    let cube_d = sq_dist(r as int, g as int, b as int, near.0, near.1, near.2);
    assert forall|j: int| 16 <= j < 232 implies cube_d <= sq_dist(
        r as int,
        g as int,
        b as int,
        #[trigger] palette_rgb(j).0,
        palette_rgb(j).1,
        palette_rgb(j).2,
    ) by {
        lemma_cube_entry_levels(j);
        let c = palette_rgb(j);
        lemma_square_le(abs_diff(r as int, near.0), abs_diff(r as int, c.0));
        lemma_square_le(abs_diff(g as int, near.1), abs_diff(g as int, c.1));
        lemma_square_le(abs_diff(b as int, near.2), abs_diff(b as int, c.2));
        lemma_sq_dist_abs(r as int, g as int, b as int, near.0, near.1, near.2);
        lemma_sq_dist_abs(r as int, g as int, b as int, c.0, c.1, c.2);
    }
}

/// Returns the nearest cube level index and channel value.
fn nearest_ansi_level(value: u8) -> (r: (u8, u8))
    ensures
        r.0 as int == nearest_level(value as int),
        r.1 as int == cube_level(r.0 as int),
{
    let levels: [u8; 6] = [0, 95, 135, 175, 215, 255];
    let mut best_idx: usize = 0;
    let mut best_diff: u8 = 255;
    let mut idx: usize = 0;
    proof {
        lemma_nearest_level(value);
    }
    while idx < 6
        invariant
            idx <= 6,
            best_idx < 6,
            levels@ == seq![0u8, 95u8, 135u8, 175u8, 215u8, 255u8],
            idx == 0 ==> best_idx == 0 && best_diff == 255,
            idx > 0 ==> best_idx < idx && best_diff == abs_diff(value as int, cube_level(best_idx as int)),
            idx > 0 ==> forall|j: int| 0 <= j < idx ==> best_diff <= abs_diff(value as int, #[trigger] cube_level(j)),
            idx > 0 ==> forall|j: int| 0 <= j < best_idx ==> best_diff < abs_diff(value as int, #[trigger] cube_level(j)),
        decreases 6 - idx,
    {
        let level = levels[idx];
        assert(level as int == cube_level(idx as int));
        let diff: u8 = if value >= level {
            value - level
        } else {
            level - value
        };
        if idx == 0 || diff < best_diff {
            best_diff = diff;
            best_idx = idx;
        }
        idx += 1;
    }
    proof {
        let n = nearest_level(value as int);
        assert(abs_diff(value as int, cube_level(best_idx as int)) <= abs_diff(value as int, cube_level(n)));
        assert(abs_diff(value as int, cube_level(n)) <= abs_diff(value as int, cube_level(best_idx as int)));
        if best_idx < n {
            assert(abs_diff(value as int, cube_level(n)) < abs_diff(value as int, cube_level(best_idx as int)));
        } else if n < best_idx {
            assert(best_diff < abs_diff(value as int, cube_level(n)));
        }
    }
    (best_idx as u8, levels[best_idx])
}

/// Squared distance of two colors, channel by channel.
fn squared_distance(r1: u8, g1: u8, b1: u8, r2: u8, g2: u8, b2: u8) -> (d: i32)
    ensures
        d as int == sq_dist(r1 as int, g1 as int, b1 as int, r2 as int, g2 as int, b2 as int),
{
    let dr: i32 = r1 as i32 - r2 as i32;
    let dg: i32 = g1 as i32 - g2 as i32;
    let db: i32 = b1 as i32 - b2 as i32;
    assert(dr * dr <= 65025) by (nonlinear_arith)
        requires
            -255 <= dr <= 255,
    ;
    assert(dg * dg <= 65025) by (nonlinear_arith)
        requires
            -255 <= dg <= 255,
    ;
    assert(db * db <= 65025) by (nonlinear_arith)
        requires
            -255 <= db <= 255,
    ;
    assert(dr * dr >= 0 && dg * dg >= 0 && db * db >= 0) by (nonlinear_arith);
    dr * dr + dg * dg + db * db
}

/// Quantizes an RGB color to the nearest ANSI 256-color palette index.
pub fn rgb_to_ansi256(r: u8, g: u8, b: u8) -> (idx: u8)
    ensures
        idx as int == ansi256_index(r, g, b),
{
    let (r_idx, r_level) = nearest_ansi_level(r);
    let (g_idx, g_level) = nearest_ansi_level(g);
    let (b_idx, b_level) = nearest_ansi_level(b);
    let cube_index: u8 = 16 + 36 * r_idx + 6 * g_idx + b_idx;
    let cube_distance = squared_distance(r, g, b, r_level, g_level, b_level);
    let avg: u32 = (r as u32 + g as u32 + b as u32) / 3;
    let gray_index: u8 = if avg < 3 {
        0
    } else if (avg - 3) / 10 > 23 {
        23
    } else {
        ((avg - 3) / 10) as u8
    };
    let gray_level: u8 = 8 + gray_index * 10;
    let gray_distance = squared_distance(r, g, b, gray_level, gray_level, gray_level);
    if gray_distance < cube_distance {
        232 + gray_index
    } else {
        cube_index
    }
}

/// The maximum of three channels.
pub open spec fn max3(a: int, b: int, c: int) -> int {
    if a >= b && a >= c {
        a
    } else if b >= c {
        b
    } else {
        c
    }
}

/// The minimum of three channels.
pub open spec fn min3(a: int, b: int, c: int) -> int {
    if a <= b && a <= c {
        a
    } else if b <= c {
        b
    } else {
        c
    }
}

/// The 16-color palette index of a color, preferring hue over plain distance.
///
/// With `M` and `m` the largest and smallest channel and `d = M - m`: a color
/// is gray when `d / 255 < 0.08` or `d / M < 0.18`, and then maps by lightness
/// `M / 255` to black (`< 0.20`), bright black (`< 0.45`), white (`< 0.80`) or
/// bright white. Otherwise its hue picks red (`[330, 30)` degrees), yellow
/// (`[30, 90)`), green (`[90, 150)`), cyan (`[150, 210)`), blue (`[210, 270)`) or
/// magenta (`[270, 330)`), bright when `M / 255 >= 0.62`. Hue is measured from
/// the red channel when it is largest, else from green when it is largest.
pub open spec fn ansi16_index(r: u8, g: u8, b: u8) -> int {
    let (ri, gi, bi) = (r as int, g as int, b as int);
    let mx = max3(ri, gi, bi);
    let mn = min3(ri, gi, bi);
    let d = mx - mn;
    if 100 * d < 2040 || (mx > 0 && 100 * d < 18 * mx) {
        if 100 * mx < 5100 {
            0
        } else if 100 * mx < 11475 {
            8
        } else if 100 * mx < 20400 {
            7
        } else {
            15
        }
    } else {
        let base: int = if ri == mx {
            let x = gi - bi;
            if x >= 0 {
                if 2 * x < d {
                    1
                } else {
                    3
                }
            } else if -2 * x <= d {
                1
            } else {
                5
            }
        } else if gi == mx {
            let y = bi - ri;
            if 2 * y < -d {
                3
            } else if 2 * y < d {
                2
            } else {
                6
            }
        } else {
            let z = ri - gi;
            if 2 * z < -d {
                6
            } else if 2 * z < d {
                4
            } else {
                5
            }
        };
        if 100 * mx >= 62 * 255 {
            base + 8
        } else {
            base
        }
    }
}

/// Quantizes an RGB color to an ANSI 16-color palette index.
///
/// This mapping favors hue preservation over pure Euclidean distance so
/// pastel/editor-theme colors do not collapse into mostly white/gray. The
/// thresholds of [`ansi16_index`] are compared exactly, in integers, so a
/// color that lies exactly on a threshold takes the side the spec gives it.
pub fn rgb_to_ansi16(r: u8, g: u8, b: u8) -> (idx: u8)
    ensures
        idx as int == ansi16_index(r, g, b),
        idx < 16,
{
    let ri = r as i32;
    let gi = g as i32;
    let bi = b as i32;
    let mx: i32 = if ri >= gi && ri >= bi {
        ri
    } else if gi >= bi {
        gi
    } else {
        bi
    };
    let mn: i32 = if ri <= gi && ri <= bi {
        ri
    } else if gi <= bi {
        gi
    } else {
        bi
    };
    let d: i32 = mx - mn;
    if 100 * d < 2040 || (mx > 0 && 100 * d < 18 * mx) {
        if 100 * mx < 5100 {
            0
        } else if 100 * mx < 11475 {
            8
        } else if 100 * mx < 20400 {
            7
        } else {
            15
        }
    } else {
        let base: u8 = if ri == mx {
            let x = gi - bi;
            if x >= 0 {
                if 2 * x < d {
                    1
                } else {
                    3
                }
            } else if -2 * x <= d {
                1
            } else {
                5
            }
        } else if gi == mx {
            let y = bi - ri;
            if 2 * y < -d {
                3
            } else if 2 * y < d {
                2
            } else {
                6
            }
        } else {
            let z = ri - gi;
            if 2 * z < -d {
                6
            } else if 2 * z < d {
                4
            } else {
                5
            }
        };
        if 100 * mx >= 62 * 255 {
            base + 8
        } else {
            base
        }
    }
}

/// The SGR foreground code of a 16-color palette index.
pub open spec fn ansi16_fg_code(i: int) -> int {
    if i < 8 {
        30 + i
    } else {
        90 + (i - 8)
    }
}

/// The SGR background code of a 16-color palette index.
pub open spec fn ansi16_bg_code(i: int) -> int {
    if i < 8 {
        40 + i
    } else {
        100 + (i - 8)
    }
}

/// Returns the ANSI SGR foreground code for a 16-color palette index.
pub fn ansi16_fg_sgr(index: u8) -> (c: u8)
    requires
        index < 16,
    ensures
        c as int == ansi16_fg_code(index as int),
{
    if index < 8 {
        30 + index
    } else {
        90 + (index - 8)
    }
}

/// Returns the ANSI SGR background code for a 16-color palette index.
pub fn ansi16_bg_sgr(index: u8) -> (c: u8)
    requires
        index < 16,
    ensures
        c as int == ansi16_bg_code(index as int),
{
    if index < 8 {
        40 + index
    } else {
        100 + (index - 8)
    }
}

/// The SGR parameter selecting `c` as foreground (`base == 38`) or background
/// (`base == 48`) color in a color mode.
pub open spec fn color_param(c: Rgb, mode: ColorMode, fg: bool) -> Seq<char> {
    let base = if fg {
        "38"@
    } else {
        "48"@
    };
    match mode {
        ColorMode::TrueColor => base + ";2;"@ + decimal(c.r as nat) + ";"@ + decimal(c.g as nat)
            + ";"@ + decimal(c.b as nat),
        ColorMode::Ansi256 => base + ";5;"@ + decimal(ansi256_index(c.r, c.g, c.b) as nat),
        ColorMode::Ansi16 => {
            let i = ansi16_index(c.r, c.g, c.b);
            if fg {
                decimal(ansi16_fg_code(i) as nat)
            } else {
                decimal(ansi16_bg_code(i) as nat)
            }
        },
    }
}

/// The SGR parameters of a style, in order: foreground color, background color
/// (unless the terminal background is preserved), bold, italic, underline.
pub open spec fn style_params(style: Style, mode: ColorMode, preserve_background: bool) -> Seq<
    Seq<char>,
> {
    let a = match style.fg {
        Some(c) => seq![color_param(c, mode, true)],
        None => seq![],
    };
    let b = match style.bg {
        Some(c) => if preserve_background {
            seq![]
        } else {
            seq![color_param(c, mode, false)]
        },
        None => seq![],
    };
    let c = if style.bold {
        seq!["1"@]
    } else {
        seq![]
    };
    let d = if style.italic {
        seq!["3"@]
    } else {
        seq![]
    };
    let e = if style.underline {
        seq!["4"@]
    } else {
        seq![]
    };
    a + b + c + d + e
}

/// Parameters joined with `;`.
pub open spec fn join_params(parts: Seq<Seq<char>>) -> Seq<char>
    decreases parts.len(),
{
    if parts.len() == 0 {
        seq![]
    } else if parts.len() == 1 {
        parts[0]
    } else {
        join_params(parts.drop_last()) + ";"@ + parts.last()
    }
}

/// The opening SGR sequence of a style, or `None` when it sets nothing.
pub open spec fn sgr_open(style: Option<Style>, mode: ColorMode, preserve_background: bool) -> Option<
    Seq<char>,
> {
    match style {
        None => None,
        Some(s) => {
            let parts = style_params(s, mode, preserve_background);
            if parts.len() == 0 {
                None
            } else {
                Some("\x1b["@ + join_params(parts) + "m"@)
            }
        },
    }
}

/// Appends one more parameter to a `;`-joined parameter list.
fn push_param(out: &mut String, parts: Ghost<Seq<Seq<char>>>, count: usize, p: &String)
    requires
        old(out)@ == join_params(parts@),
        count == parts@.len(),
    ensures
        final(out)@ == join_params(parts@.push(p@)),
{
    proof {
        assert(parts@.push(p@).drop_last() =~= parts@);
    }
    if count > 0 {
        push_str(out, ";");
    } else {
        assert(old(out)@ == Seq::<char>::empty());
    }
    push_str(out, p.as_str());
}

/// Builds the SGR parameter selecting a foreground or background color.
fn write_color_param(c: Rgb, mode: ColorMode, fg: bool) -> (s: String)
    ensures
        s@ == color_param(c, mode, fg),
{
    let mut s = String::new();
    match mode {
        ColorMode::TrueColor => {
            if fg {
                push_str(&mut s, "38");
            } else {
                push_str(&mut s, "48");
            }
            push_str(&mut s, ";2;");
            push_decimal(&mut s, c.r as u64);
            push_str(&mut s, ";");
            push_decimal(&mut s, c.g as u64);
            push_str(&mut s, ";");
            push_decimal(&mut s, c.b as u64);
        },
        ColorMode::Ansi256 => {
            if fg {
                push_str(&mut s, "38");
            } else {
                push_str(&mut s, "48");
            }
            push_str(&mut s, ";5;");
            push_decimal(&mut s, rgb_to_ansi256(c.r, c.g, c.b) as u64);
        },
        ColorMode::Ansi16 => {
            let i = rgb_to_ansi16(c.r, c.g, c.b);
            if fg {
                push_decimal(&mut s, ansi16_fg_sgr(i) as u64);
            } else {
                push_decimal(&mut s, ansi16_bg_sgr(i) as u64);
            }
        },
    }
    s
}

/// Converts a style into an opening SGR sequence.
///
/// Returns `None` when the style carries no terminal attributes.
pub fn style_open_sgr(style: Option<Style>, color_mode: ColorMode, preserve_terminal_background: bool) -> (r: Option<String>)
    ensures
        match r {
            Some(s) => sgr_open(style, color_mode, preserve_terminal_background) == Some(s@),
            None => sgr_open(style, color_mode, preserve_terminal_background) is None,
        },
{
    let s = match style {
        Some(s) => s,
        None => {
            return None;
        },
    };
    let ghost all = style_params(s, color_mode, preserve_terminal_background);
    let mut params = String::new();
    let ghost mut parts: Seq<Seq<char>> = seq![];
    let mut count: usize = 0;
    match s.fg {
        Some(c) => {
            let p = write_color_param(c, color_mode, true);
            push_param(&mut params, Ghost(parts), count, &p);
            proof {
                parts = parts.push(p@);
            }
            count += 1;
        },
        None => {},
    }
    if !preserve_terminal_background {
        match s.bg {
            Some(c) => {
                let p = write_color_param(c, color_mode, false);
                push_param(&mut params, Ghost(parts), count, &p);
                proof {
                    parts = parts.push(p@);
                }
                count += 1;
            },
            None => {},
        }
    }
    if s.bold {
        let p = String::from_str("1");
        push_param(&mut params, Ghost(parts), count, &p);
        proof {
            parts = parts.push(p@);
        }
        count += 1;
    }
    if s.italic {
        let p = String::from_str("3");
        push_param(&mut params, Ghost(parts), count, &p);
        proof {
            parts = parts.push(p@);
        }
        count += 1;
    }
    if s.underline {
        let p = String::from_str("4");
        push_param(&mut params, Ghost(parts), count, &p);
        proof {
            parts = parts.push(p@);
        }
        count += 1;
    }
    assert(parts =~= all);
    if count == 0 {
        return None;
    }
    let mut out = String::from_str("\x1b[");
    push_str(&mut out, params.as_str());
    push_str(&mut out, "m");
    Some(out)
}

} // verus!
