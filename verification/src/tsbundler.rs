//! Editor bundle: theme elements with dense attribute indices, capture-name
//! to attribute resolution, and the language and theme registries.
use crate::c_api::flag;
use crate::spans::{Attr, HighlightResult, Span};
use crate::style::{Rgb, Style};
use crate::style_map::StyleMap;
use crate::text::{chars_of, push_str, str_eq, string_from_chars, text_eq, trimmed};
use crate::theme::{
    builtin_from_name, builtin_load_result, builtin_theme_maps, builtin_theme_name, last_dot,
    last_dot_index, lemma_last_dot, load_theme, normalize_capture_name, normalized_name,
    BuiltinTheme, Theme, ThemeError,
};
use vstd::prelude::*;

verus! {

/// The packed color that stands for "no color".
pub const ZEDIT_RGBNONE: u32 = 0xffff_ffff;

/// The attribute index that stands for "no attribute".
pub const ZEDIT_ATTR_NONE: u16 = 0;

/// Display attribute bit: bold.
pub const ZEDIT_VDU_ATTR_BOLD: u32 = 1;

/// Display attribute bit: italic.
pub const ZEDIT_VDU_ATTR_ITALIC: u32 = 2;

/// Display attribute bit: underline.
pub const ZEDIT_VDU_ATTR_UNDERLINE: u32 = 4;

/// Status codes of the editor bundle interface.
#[derive(Clone, Copy, Debug, PartialEq, Eq, Structural)]
pub enum TsbundlerError {
    Success,
    ErrNoMem,
    ErrNoLang,
    ErrNoTheme,
    ErrParse,
    ErrInternal,
}

/// The C code of a status.
pub open spec fn error_code(e: TsbundlerError) -> i32 {
    match e {
        TsbundlerError::Success => 0,
        TsbundlerError::ErrNoMem => 1,
        TsbundlerError::ErrNoLang => 2,
        TsbundlerError::ErrNoTheme => 3,
        TsbundlerError::ErrParse => 4,
        TsbundlerError::ErrInternal => 99,
    }
}

impl TsbundlerError {
    /// The C code of this status.
    pub fn code(self) -> (c: i32)
        ensures
            c == error_code(self),
    {
        match self {
            TsbundlerError::Success => 0,
            TsbundlerError::ErrNoMem => 1,
            TsbundlerError::ErrNoLang => 2,
            TsbundlerError::ErrNoTheme => 3,
            TsbundlerError::ErrParse => 4,
            TsbundlerError::ErrInternal => 99,
        }
    }
}

/// An edit of a document: byte offsets and row/column positions of the
/// edited range before and after the edit.
#[derive(Clone, Copy, Debug, PartialEq, Eq, Structural)]
pub struct TsbundlerEdit {
    pub start_byte: u32,
    pub old_end_byte: u32,
    pub new_end_byte: u32,
    pub start_row: u32,
    pub start_col: u32,
    pub old_end_row: u32,
    pub old_end_col: u32,
    pub new_end_row: u32,
    pub new_end_col: u32,
}

/// The text encoding of the lines an editor hands over.
#[derive(Clone, Copy, Debug, PartialEq, Eq, Structural)]
pub enum TsbundlerEncoding {
    Utf8,
    Utf16Le,
    Utf16Be,
}

/// The encoding of a C encoding code: `0` UTF-8, `1` UTF-16LE, `2` UTF-16BE.
pub open spec fn encoding_of_code(code: i32) -> Option<TsbundlerEncoding> {
    if code == 0 {
        Some(TsbundlerEncoding::Utf8)
    } else if code == 1 {
        Some(TsbundlerEncoding::Utf16Le)
    } else if code == 2 {
        Some(TsbundlerEncoding::Utf16Be)
    } else {
        None
    }
}

impl TsbundlerEncoding {
    /// The encoding of a C encoding code, if it names one.
    pub fn from_code(code: i32) -> (r: Option<TsbundlerEncoding>)
        ensures
            r == encoding_of_code(code),
    {
        match code {
            0 => Some(TsbundlerEncoding::Utf8),
            1 => Some(TsbundlerEncoding::Utf16Le),
            2 => Some(TsbundlerEncoding::Utf16Be),
            _ => None,
        }
    }

    /// The C code of this encoding.
    pub fn code(self) -> (c: i32)
        ensures
            encoding_of_code(c) == Some(self),
    {
        match self {
            TsbundlerEncoding::Utf8 => 0,
            TsbundlerEncoding::Utf16Le => 1,
            TsbundlerEncoding::Utf16Be => 2,
        }
    }
}

/// Whether a style key names a UI role rather than a syntax element.
pub open spec fn reserved_ui_key(k: Seq<char>) -> bool {
    ||| k == "cursorline"@
    ||| k == "default_bg"@
    ||| k == "default_fg"@
    ||| k == "normal"@
    ||| k == "selection"@
    ||| k == "statusline"@
    ||| k == "statusline_inactive"@
    ||| k == "tab_active"@
    ||| k == "tab_inactive"@
}

/// Whether a style key names a UI role rather than a syntax element.
pub fn is_reserved_ui_style_key(name: &str) -> (r: bool)
    ensures
        r == reserved_ui_key(name@),
{
    str_eq(name, "cursorline") || str_eq(name, "default_bg") || str_eq(name, "default_fg")
        || str_eq(name, "normal") || str_eq(name, "selection") || str_eq(name, "statusline")
        || str_eq(name, "statusline_inactive") || str_eq(name, "tab_active") || str_eq(
        name,
        "tab_inactive",
    )
}

/// A color packed as `0x00RRGGBB`.
pub open spec fn packed_rgb(c: Rgb) -> u32 {
    (c.r * 65536 + c.g * 256 + c.b) as u32
}

/// An optional color packed, with [`ZEDIT_RGBNONE`] for none.
pub open spec fn packed_opt(c: Option<Rgb>) -> u32 {
    match c {
        Some(v) => packed_rgb(v),
        None => ZEDIT_RGBNONE,
    }
}

/// The display attribute bits of a style.
pub open spec fn vdu_attr(s: Style) -> u32 {
    (flag(s.bold) * ZEDIT_VDU_ATTR_BOLD + flag(s.italic) * ZEDIT_VDU_ATTR_ITALIC + flag(
        s.underline,
    ) * ZEDIT_VDU_ATTR_UNDERLINE) as u32
}

/// Packs a color as `0x00RRGGBB`.
pub fn rgb_to_packed(rgb: Rgb) -> (r: u32)
    ensures
        r == packed_rgb(rgb),
        r < 0x0100_0000,
{
    (rgb.r as u32) * 65536 + (rgb.g as u32) * 256 + (rgb.b as u32)
}

fn packed_opt_exec(c: Option<Rgb>) -> (r: u32)
    ensures
        r == packed_opt(c),
{
    match c {
        Some(v) => rgb_to_packed(v),
        None => ZEDIT_RGBNONE,
    }
}

/// The display attribute bits of a style.
pub fn style_to_vdu_attr(style: &Style) -> (r: u32)
    ensures
        r == vdu_attr(*style),
{
    let mut a: u32 = 0;
    if style.bold {
        a = a + ZEDIT_VDU_ATTR_BOLD;
    }
    if style.italic {
        a = a + ZEDIT_VDU_ATTR_ITALIC;
    }
    if style.underline {
        a = a + ZEDIT_VDU_ATTR_UNDERLINE;
    }
    a
}

/// The canonical name of a built-in theme given by name or alias.
pub fn canonical_theme_name(name: &str) -> (r: Option<&'static str>)
    ensures
        match builtin_from_name(name@) {
            Some(t) => r matches Some(n) && n@ == builtin_theme_name(t),
            None => r is None,
        },
{
    match BuiltinTheme::from_name(name) {
        Some(t) => Some(t.name()),
        None => None,
    }
}

/// A syntax element of an activated theme as the editor sees it: its name
/// (`@` and the style key), packed colors, display attributes, and its dense
/// attribute index (1-based).
pub struct ThemeElement {
    pub name: String,
    pub fg: u32,
    pub bg: u32,
    pub attrs: u32,
    pub index: u16,
}

/// The entries of a style map as (key, style) pairs, in key order.
pub open spec fn theme_entries(m: StyleMap) -> Seq<(Seq<char>, Style)> {
    Seq::new(m.key_seq().len(), |i: int| (m.key_seq()[i], m.style_seq()[i]))
}

/// Whether an entry is a syntax element (not a UI role).
pub open spec fn is_element_entry(e: (Seq<char>, Style)) -> bool {
    !reserved_ui_key(e.0)
}

/// [`is_element_entry`] as a predicate value.
pub open spec fn element_pred() -> spec_fn((Seq<char>, Style)) -> bool {
    |e: (Seq<char>, Style)| is_element_entry(e)
}

/// The syntax-element entries of a theme, in key order.
pub open spec fn element_entries(t: Theme) -> Seq<(Seq<char>, Style)> {
    theme_entries(t.styles).filter(element_pred())
}

/// Whether an element describes an entry under an attribute index.
pub open spec fn element_matches(e: ThemeElement, entry: (Seq<char>, Style), index: int) -> bool {
    &&& e.name@ == seq!['@'] + entry.0
    &&& e.fg == packed_opt(entry.1.fg)
    &&& e.bg == packed_opt(entry.1.bg)
    &&& e.attrs == vdu_attr(entry.1)
    &&& e.index == index
}

/// Whether `elements` and `keys` describe the entries `ents`, the `j`-th with
/// attribute index `j + 1`.
pub open spec fn elements_describe(
    elements: Seq<ThemeElement>,
    keys: Seq<String>,
    ents: Seq<(Seq<char>, Style)>,
) -> bool {
    &&& elements.len() == ents.len()
    &&& keys.len() == ents.len()
    &&& forall|j: int|
        0 <= j < ents.len() ==> element_matches(#[trigger] elements[j], ents[j], j + 1)
            && keys[j]@ == ents[j].0
}

/// The largest attribute index.
pub const MAX_ATTR_INDEX: usize = 65535;

/// Why a theme could not be activated.
pub enum ActivationError {
    /// The theme could not be loaded.
    Load(ThemeError),
    /// The theme has more syntax elements than attribute indices.
    TooManyElements,
}

/// A loaded theme with its syntax elements numbered densely from 1.
pub struct ActivatedTheme {
    pub name: String,
    pub elements: Vec<ThemeElement>,
    pub style_keys: Vec<String>,
    pub theme: Theme,
}

/// The position of the first `k` in `keys`, or -1.
pub open spec fn first_position(keys: Seq<Seq<char>>, k: Seq<char>) -> int
    decreases keys.len(),
{
    if keys.len() == 0 {
        -1
    } else {
        let p = first_position(keys.drop_last(), k);
        if p < 0 && keys.last() == k {
            keys.len() - 1
        } else {
            p
        }
    }
}

/// The attribute index of a capture key: the longest dotted prefix that the
/// theme styles decides; `normal`, a UI role, or no styled prefix gives none.
pub open spec fn capture_index_in(
    m: Map<Seq<char>, Style>,
    keys: Seq<Seq<char>>,
    k: Seq<char>,
) -> int
    decreases k.len(),
{
    if m.contains_key(k) {
        if k == "normal"@ {
            0
        } else {
            first_position(keys, k) + 1
        }
    } else if 0 <= last_dot(k) < k.len() {
        capture_index_in(m, keys, k.take(last_dot(k)))
    } else {
        0
    }
}

proof fn lemma_first_position_prefix(s: Seq<Seq<char>>, m: int, k: Seq<char>)
    requires
        0 <= m <= s.len(),
        first_position(s.take(m), k) >= 0,
    ensures
        first_position(s, k) == first_position(s.take(m), k),
    decreases s.len(),
{
    if s.len() == m {
        assert(s.take(m) == s);
    } else {
        assert(s.drop_last().take(m) == s.take(m));
        lemma_first_position_prefix(s.drop_last(), m, k);
    }
}

proof fn lemma_first_position_bounds(keys: Seq<Seq<char>>, k: Seq<char>)
    ensures
        -1 <= first_position(keys, k) < keys.len(),
        first_position(keys, k) >= 0 ==> keys[first_position(keys, k)] == k,
        first_position(keys, k) < 0 ==> !keys.contains(k),
    decreases keys.len(),
{
    if keys.len() > 0 {
        lemma_first_position_bounds(keys.drop_last(), k);
        if first_position(keys, k) < 0 {
            assert forall|i: int| 0 <= i < keys.len() implies keys[i] != k by {
                if i < keys.len() - 1 {
                    assert(keys.drop_last()[i] == keys[i]);
                }
            }
        }
    }
}

/// Finds the 1-based position of `k` among `keys`, or 0.
fn key_index(keys: &Vec<String>, k: &str) -> (r: usize)
    ensures
        r == first_position(keys@.map_values(|s: String| s@), k@) + 1,
{
    let ghost ks = keys@.map_values(|s: String| s@);
    let mut j: usize = 0;
    while j < keys.len()
        invariant
            j <= keys@.len(),
            ks == keys@.map_values(|s: String| s@),
            first_position(ks.take(j as int), k@) == -1,
        decreases keys@.len() - j,
    {
        assert(ks.take(j + 1).drop_last() == ks.take(j as int));
        if text_eq(&keys[j], k) {
            proof {
                assert(ks.take(j + 1).last() == k@);
                assert(first_position(ks.take(j + 1), k@) == j);
                lemma_first_position_prefix(ks, j + 1, k@);
            }
            return j + 1;
        }
        j = j + 1;
    }
    assert(ks.take(j as int) == ks);
    0
}

impl ActivatedTheme {
    /// Whether the elements and keys describe the theme's syntax entries.
    pub open spec fn well_formed(&self) -> bool {
        &&& elements_describe(self.elements@, self.style_keys@, element_entries(self.theme))
        &&& self.elements@.len() <= MAX_ATTR_INDEX
    }

    /// The style keys of the elements, by position.
    pub open spec fn key_views(&self) -> Seq<Seq<char>> {
        self.style_keys@.map_values(|s: String| s@)
    }

    /// Numbers the syntax elements of a loaded theme.
    ///
    /// # Errors
    ///
    /// Returns [`ActivationError::TooManyElements`] when the theme has more
    /// than [`MAX_ATTR_INDEX`] syntax elements.
    pub fn from_theme(theme_name: &str, theme: Theme) -> (r: Result<ActivatedTheme, ActivationError>)
        ensures
            element_entries(theme).len() <= MAX_ATTR_INDEX ==> (r matches Ok(a) && a.well_formed()
                && a.theme == theme && a.name@ == theme_name@),
            element_entries(theme).len() > MAX_ATTR_INDEX ==> (r matches Err(
                ActivationError::TooManyElements,
            )),
    {
        let ghost ents_all = theme_entries(theme.styles);
        let ghost pred = element_pred();
        let n = theme.styles.len();
        let mut elements: Vec<ThemeElement> = Vec::new();
        let mut keys: Vec<String> = Vec::new();
        let mut i: usize = 0;
        while i < n
            invariant
                i <= n,
                n == theme.styles.key_seq().len(),
                n == theme.styles.style_seq().len(),
                ents_all == theme_entries(theme.styles),
                pred == element_pred(),
                elements_describe(elements@, keys@, ents_all.take(i as int).filter(pred)),
                elements@.len() <= MAX_ATTR_INDEX,
            decreases n - i,
        {
            let k = theme.styles.key_at(i);
            let ghost before = ents_all.take(i as int);
            let ghost entry = ents_all[i as int];
            assert(ents_all.take(i + 1).drop_last() == before);
            assert(ents_all.take(i + 1).last() == entry);
            assert(entry == (k@, theme.styles.style_seq()[i as int]));
            let reserved = is_reserved_ui_style_key(k.as_str());
            assert(pred(entry) == !reserved);
            assert(ents_all.take(i + 1) == before.push(entry));
            proof {
                before.lemma_filter_push(entry, pred);
            }
            assert(ents_all.take(i + 1).filter(pred) == (if pred(entry) {
                before.filter(pred).push(entry)
            } else {
                before.filter(pred)
            }));
            if !reserved {
                if elements.len() >= MAX_ATTR_INDEX {
                    proof {
                        ents_all.lemma_filter_take_len(pred, i + 1);
                        assert(ents_all.take(n as int) == ents_all);
                        assert(element_entries(theme) == ents_all.filter(pred));
                    }
                    return Err(ActivationError::TooManyElements);
                }
                let s = theme.styles.style_at(i);
                let mut nm = String::new();
                push_str(&mut nm, "@");
                push_str(&mut nm, k.as_str());
                proof {
                    reveal_strlit("@");
                    assert(nm@ == seq!['@'] + k@);
                }
                let idx = elements.len() + 1;
                elements.push(
                    ThemeElement {
                        name: nm,
                        fg: packed_opt_exec(s.fg),
                        bg: packed_opt_exec(s.bg),
                        attrs: style_to_vdu_attr(&s),
                        index: idx as u16,
                    },
                );
                keys.push(k.clone());
                proof {
                    let ents = ents_all.take(i + 1).filter(pred);
                    assert(ents == before.filter(pred).push(entry));
                    assert(element_matches(elements@[idx - 1], ents[idx - 1], idx as int));
                    assert(forall|j: int| 0 <= j < idx - 1 ==> ents[j] == before.filter(pred)[j]);
                }
            }
            i = i + 1;
        }
        assert(ents_all.take(n as int) == ents_all);
        Ok(ActivatedTheme { name: String::from_str(theme_name), elements, style_keys: keys, theme })
    }

    /// Loads a built-in theme by name or alias and numbers its syntax elements.
    ///
    /// # Errors
    ///
    /// Returns [`ActivationError::Load`] with the loading error. The
    /// [`ActivationError::TooManyElements`] check of
    /// [`ActivatedTheme::from_theme`] always passes here: a built-in theme
    /// has far fewer syntax elements than [`MAX_ATTR_INDEX`].
    pub fn from_name(theme_name: &str) -> (r: Result<ActivatedTheme, ActivationError>)
        ensures
            match builtin_from_name(theme_name@) {
                None => r matches Err(ActivationError::Load(e)) && e matches ThemeError::UnknownBuiltinTheme(
                    n,
                ) && n@ == trimmed(theme_name@),
                Some(t) => match builtin_theme_maps(t) {
                    None => r matches Err(ActivationError::Load(e)) && builtin_load_result(t, Err(e)),
                    Some(maps) => r matches Ok(a) && a.well_formed() && (a.theme.styles@, a.theme.ui@)
                        == maps && a.name@ == theme_name@,
                },
            },
    {
        let theme = match load_theme(theme_name) {
            Ok(t) => t,
            Err(e) => {
                return Err(ActivationError::Load(e));
            },
        };
        proof {
            theme_entries(theme.styles).lemma_filter_len(element_pred());
        }
        ActivatedTheme::from_theme(theme_name, theme)
    }

    /// Resolves a capture name to the attribute index of its element.
    ///
    /// The longest dotted prefix of the normalized name that the theme styles
    /// decides; `normal`, a UI role, or no styled prefix gives
    /// [`ZEDIT_ATTR_NONE`].
    pub fn resolve_capture_index(&self, capture_name: &str) -> (r: u16)
        requires
            self.well_formed(),
        ensures
            r == capture_index_in(
                self.theme.styles@,
                self.key_views(),
                normalized_name(capture_name@),
            ),
    {
        let ghost m = self.theme.styles@;
        let ghost ks = self.key_views();
        let norm = normalize_capture_name(capture_name);
        let kc = chars_of(norm.as_str());
        let mut end: usize = kc.len();
        assert(kc@.take(end as int) == kc@);
        loop
            invariant
                end <= kc@.len(),
                m == self.theme.styles@,
                ks == self.key_views(),
                self.well_formed(),
                capture_index_in(m, ks, kc@.take(end as int)) == capture_index_in(
                    m,
                    ks,
                    normalized_name(capture_name@),
                ),
            ensures
                capture_index_in(m, ks, normalized_name(capture_name@)) == 0,
            decreases end,
        {
            let key = string_from_chars(&kc, 0, end, false);
            assert(key@ == kc@.take(end as int));
            if self.theme.styles.contains_key(key.as_str()) {
                if str_eq(key.as_str(), "normal") {
                    return ZEDIT_ATTR_NONE;
                }
                let idx = key_index(&self.style_keys, key.as_str());
                proof {
                    lemma_first_position_bounds(ks, key@);
                }
                return idx as u16;
            }
            let ghost k = kc@.take(end as int);
            proof {
                lemma_last_dot(k);
            }
            match last_dot_index(&kc, end) {
                Some(d) => {
                    assert(k.take(d as int) == kc@.take(d as int));
                    end = d;
                },
                None => {
                    break;
                },
            }
        }
        ZEDIT_ATTR_NONE
    }
}

proof fn lemma_capture_index_is_key_position(m: Map<Seq<char>, Style>, keys: Seq<Seq<char>>, k: Seq<char>)
    ensures
        capture_index_in(m, keys, k) > 0 ==> exists|p: Seq<char>|
            #![trigger first_position(keys, p)]
            first_position(keys, p) + 1 == capture_index_in(m, keys, k) && m.contains_key(p),
    decreases k.len(),
{
    if m.contains_key(k) {
    } else if 0 <= last_dot(k) < k.len() {
        lemma_capture_index_is_key_position(m, keys, k.take(last_dot(k)));
    }
}

/// A capture with an attribute index names the element at that index: the
/// element is named `@` and the theme style key the capture resolved to, and
/// it carries that key's colors and attributes.
pub proof fn lemma_capture_index_names_element(theme: ActivatedTheme, capture: Seq<char>)
    requires
        theme.well_formed(),
    ensures
        ({
            let i = capture_index_in(theme.theme.styles@, theme.key_views(), normalized_name(capture));
            i > 0 ==> i <= theme.elements@.len() && element_matches(
                theme.elements@[i - 1],
                element_entries(theme.theme)[i - 1],
                i,
            ) && theme.key_views()[i - 1] == element_entries(theme.theme)[i - 1].0
        }),
{
    let ks = theme.key_views();
    let m = theme.theme.styles@;
    let i = capture_index_in(m, ks, normalized_name(capture));
    lemma_capture_index_is_key_position(m, ks, normalized_name(capture));
    if i > 0 {
        let p = choose|p: Seq<char>| #![trigger first_position(ks, p)] first_position(ks, p) + 1 == i && m.contains_key(p);
        lemma_first_position_bounds(ks, p);
        assert(ks.len() == theme.elements@.len());
        assert(ks[i - 1] == theme.style_keys@[i - 1]@);
    }
}

/// The number of bytes among `b[0..k)` that start a character (that is, are
/// not UTF-8 continuation bytes `0x80..=0xBF`).
pub open spec fn lead_count(b: Seq<u8>, k: int) -> int
    decreases k,
{
    if k <= 0 {
        0
    } else {
        lead_count(b, k - 1) + if 0x80 <= b[k - 1] < 0xC0 {
            0int
        } else {
            1int
        }
    }
}

/// The UTF-8 bytes of each line.
pub open spec fn line_bytes(lines: Seq<String>) -> Seq<Seq<u8>> {
    lines.map_values(|l: String| vstd::utf8::encode_utf8(l@))
}

/// The byte offset of line `r` in the lines joined with newlines.
pub open spec fn start_of(bl: Seq<Seq<u8>>, r: int) -> int
    decreases r,
{
    if r <= 0 {
        0
    } else {
        start_of(bl, r - 1) + bl[r - 1].len() + 1
    }
}

/// Whether a span touches the line `b` that starts at byte `ls` (its end
/// newline included).
pub open spec fn span_on_line(b: Seq<u8>, ls: int, s: Span) -> bool {
    !(s.end_byte <= ls || s.start_byte > ls + b.len())
}

/// The first column of a line that a span covers.
pub open spec fn col_start(b: Seq<u8>, ls: int, s: Span) -> int {
    let local = if s.start_byte >= ls {
        s.start_byte - ls
    } else {
        0
    };
    lead_count(b, if local < b.len() { local } else { b.len() as int })
}

/// The column of a line just past what a span covers.
pub open spec fn col_end(b: Seq<u8>, ls: int, s: Span) -> int {
    let local = s.end_byte - ls;
    lead_count(b, if local < b.len() { local } else { b.len() as int })
}

/// The capture name of an attribute id, empty when there is no such attribute.
pub open spec fn attr_name(attrs: Seq<Attr>, id: usize) -> Seq<char> {
    if id < attrs.len() {
        attrs[id as int].capture_name@
    } else {
        Seq::empty()
    }
}

/// The attribute index that a span draws with.
pub open spec fn span_attr(h: HighlightResult, theme: ActivatedTheme, s: Span) -> int {
    capture_index_in(
        theme.theme.styles@,
        theme.key_views(),
        normalized_name(attr_name(h.attrs@, s.attr_id)),
    )
}

/// The attribute of column `c` of line `r` after drawing the first `k` spans:
/// the last of them that has an attribute and covers the cell, else none.
pub open spec fn cell_attr(
    h: HighlightResult,
    theme: ActivatedTheme,
    bl: Seq<Seq<u8>>,
    r: int,
    c: int,
    k: int,
) -> int
    decreases k,
{
    if k <= 0 {
        0
    } else {
        let s = h.spans@[k - 1];
        let v = span_attr(h, theme, s);
        let b = bl[r];
        let ls = start_of(bl, r);
        if v != 0 && span_on_line(b, ls, s) && col_start(b, ls, s) <= c < col_end(b, ls, s) {
            v
        } else {
            cell_attr(h, theme, bl, r, c, k - 1)
        }
    }
}

/// Whether `out` holds, for each line and each of its characters, the
/// attribute after drawing the first `k` spans.
pub open spec fn attrs_after(
    out: Seq<Vec<u16>>,
    h: HighlightResult,
    theme: ActivatedTheme,
    lines: Seq<String>,
    k: int,
) -> bool {
    &&& out.len() == lines.len()
    &&& forall|r: int|
        0 <= r < lines.len() ==> {
            &&& (#[trigger] out[r])@.len() == lines[r]@.len()
            &&& forall|c: int|
                0 <= c < lines[r]@.len() ==> out[r]@[c] == cell_attr(
                    h,
                    theme,
                    line_bytes(lines),
                    r,
                    c,
                    k,
                )
        }
}

/// Whether the joined length of the lines, with a newline after each, fits a `usize`.
pub open spec fn lines_fit(lines: Seq<String>) -> bool {
    start_of(line_bytes(lines), lines.len() as int) <= usize::MAX
}

fn lead_count_upto(b: &[u8], k: usize) -> (n: usize)
    requires
        k <= b@.len(),
    ensures
        n == lead_count(b@, k as int),
{
    let mut n: usize = 0;
    let mut i: usize = 0;
    while i < k
        invariant
            i <= k <= b@.len(),
            n == lead_count(b@, i as int),
            n <= i,
        decreases k - i,
    {
        if !(0x80 <= b[i] && b[i] < 0xC0) {
            n = n + 1;
        }
        i = i + 1;
    }
    n
}

proof fn lemma_start_of_mono(bl: Seq<Seq<u8>>, r: int, q: int)
    requires
        0 <= r <= q,
    ensures
        start_of(bl, r) + (if r < q { bl[r].len() + 1 } else { 0 }) <= start_of(bl, q),
    decreases q - r,
{
    if r < q {
        lemma_start_of_mono(bl, r + 1, q);
    }
}

/// Whether the lines fit a `usize` when joined with a newline after each.
pub fn lines_fit_exec(lines: &[String]) -> (r: bool)
    ensures
        r == lines_fit(lines@),
{
    let ghost bl = line_bytes(lines@);
    let mut offset: usize = 0;
    let mut i: usize = 0;
    while i < lines.len()
        invariant
            i <= lines@.len(),
            bl == line_bytes(lines@),
            offset == start_of(bl, i as int),
        decreases lines@.len() - i,
    {
        let line = lines[i].as_str();
        let len = line.as_bytes().len();
        assert(bl[i as int] == vstd::utf8::encode_utf8(lines@[i as int]@));
        assert(len == bl[i as int].len());
        if offset > usize::MAX - 1 || offset + 1 > usize::MAX - len {
            proof {
                lemma_start_of_mono(bl, i + 1, lines@.len() as int);
            }
            return false;
        }
        offset = offset + len + 1;
        i = i + 1;
    }
    true
}

fn fill_range(row: &mut Vec<u16>, lo: usize, hi: usize, v: u16)
    requires
        hi <= old(row)@.len(),
    ensures
        final(row)@.len() == old(row)@.len(),
        forall|c: int|
            0 <= c < old(row)@.len() ==> final(row)@[c] == if lo <= c < hi {
                v
            } else {
                old(row)@[c]
            },
{
    if lo >= hi {
        return;
    }
    let mut col: usize = lo;
    while col < hi
        invariant
            lo <= col <= hi,
            hi <= row@.len(),
            row@.len() == old(row)@.len(),
            forall|c: int|
                0 <= c < old(row)@.len() ==> row@[c] == if lo <= c < col {
                    v
                } else {
                    old(row)@[c]
                },
        decreases hi - col,
    {
        row.set(col, v);
        col = col + 1;
    }
}

/// Per-line, per-character attribute indices of a highlight result: each
/// character takes the attribute of the last span that covers it and whose
/// capture has an element, and [`ZEDIT_ATTR_NONE`] where none does.
///
/// The lines are the source without its newlines; span offsets are into the
/// lines joined with `\n`.
pub fn highlight_to_line_attrs(
    result: &HighlightResult,
    theme: &ActivatedTheme,
    lines: &[String],
) -> (out: Vec<Vec<u16>>)
    requires
        theme.well_formed(),
        lines_fit(lines@),
    ensures
        attrs_after(out@, *result, *theme, lines@, result.spans@.len() as int),
{
    let ghost bl = line_bytes(lines@);
    let n = lines.len();
    let mut line_start: Vec<usize> = Vec::new();
    let mut offset: usize = 0;
    let mut i: usize = 0;
    while i < n
        invariant
            i <= n == lines@.len(),
            bl == line_bytes(lines@),
            lines_fit(lines@),
            offset == start_of(bl, i as int),
            line_start@.len() == i,
            forall|r: int| 0 <= r < i ==> line_start@[r] == start_of(bl, r),
        decreases n - i,
    {
        let len = lines[i].as_str().as_bytes().len();
        proof {
            assert(bl[i as int] == vstd::utf8::encode_utf8(lines@[i as int]@));
            lemma_start_of_mono(bl, i + 1, n as int);
        }
        line_start.push(offset);
        offset = offset + len + 1;
        i = i + 1;
    }
    let mut out: Vec<Vec<u16>> = Vec::new();
    let mut j: usize = 0;
    while j < n
        invariant
            j <= n == lines@.len(),
            out@.len() == j,
            forall|r: int|
                0 <= r < j ==> {
                    &&& (#[trigger] out@[r])@.len() == lines@[r]@.len()
                    &&& forall|c: int| 0 <= c < lines@[r]@.len() ==> out@[r]@[c] == 0
                },
        decreases n - j,
    {
        let count = chars_of(lines[j].as_str()).len();
        let mut row: Vec<u16> = Vec::new();
        let mut c: usize = 0;
        while c < count
            invariant
                c <= count,
                row@.len() == c,
                forall|x: int| 0 <= x < c ==> row@[x] == 0,
            decreases count - c,
        {
            row.push(ZEDIT_ATTR_NONE);
            c = c + 1;
        }
        out.push(row);
        j = j + 1;
    }
    let mut k: usize = 0;
    while k < result.spans.len()
        invariant
            k <= result.spans@.len(),
            n == lines@.len(),
            bl == line_bytes(lines@),
            theme.well_formed(),
            line_start@.len() == n,
            forall|r: int| 0 <= r < n ==> line_start@[r] == start_of(bl, r),
            lines_fit(lines@),
            attrs_after(out@, *result, *theme, lines@, k as int),
        decreases result.spans@.len() - k,
    {
        let span = result.spans[k];
        let v = if span.attr_id < result.attrs.len() {
            theme.resolve_capture_index(result.attrs[span.attr_id].capture_name.as_str())
        } else {
            theme.resolve_capture_index("")
        };
        proof {
            if span.attr_id >= result.attrs@.len() {
                reveal_strlit("");
                assert(""@ == Seq::<char>::empty());
            }
            assert(v == span_attr(*result, *theme, span));
        }
        if v != ZEDIT_ATTR_NONE {
            let mut q: usize = 0;
            while q < n
                invariant
                    q <= n == lines@.len(),
                    k < result.spans@.len(),
                    span == result.spans@[k as int],
                    v == span_attr(*result, *theme, span),
                    v != 0,
                    bl == line_bytes(lines@),
                    line_start@.len() == n,
                    forall|r: int| 0 <= r < n ==> line_start@[r] == start_of(bl, r),
                    lines_fit(lines@),
                    out@.len() == n,
                    forall|r: int|
                        0 <= r < n ==> {
                            &&& (#[trigger] out@[r])@.len() == lines@[r]@.len()
                            &&& forall|c: int|
                                0 <= c < lines@[r]@.len() ==> out@[r]@[c] == cell_attr(
                                    *result,
                                    *theme,
                                    bl,
                                    r,
                                    c,
                                    if r < q {
                                        k + 1
                                    } else {
                                        k as int
                                    },
                                )
                        },
                decreases n - q,
            {
                let ls = line_start[q];
                let bytes = lines[q].as_str().as_bytes();
                let len = bytes.len();
                proof {
                    assert(bl[q as int] == vstd::utf8::encode_utf8(lines@[q as int]@));
                    lemma_start_of_mono(bl, q as int, n as int);
                    assert(bytes@ == bl[q as int]);
                }
                let le = ls + len;
                let ghost row_old = out@[q as int];
                if !(span.end_byte <= ls || span.start_byte > le) {
                    let local_start = if span.start_byte >= ls {
                        span.start_byte - ls
                    } else {
                        0
                    };
                    let local_end = span.end_byte - ls;
                    let a = if local_start < len {
                        local_start
                    } else {
                        len
                    };
                    let b = if local_end < len {
                        local_end
                    } else {
                        len
                    };
                    let cs = lead_count_upto(bytes, a);
                    let ce = lead_count_upto(bytes, b);
                    let row_len = out[q].len();
                    let hi = if ce < row_len {
                        ce
                    } else {
                        row_len
                    };
                    fill_range(&mut out[q], cs, hi, v);
                    proof {
                        assert forall|c: int| 0 <= c < lines@[q as int]@.len() implies out@[q as int]@[c]
                            == cell_attr(*result, *theme, bl, q as int, c, k + 1) by {
                            assert(span_on_line(bl[q as int], start_of(bl, q as int), span));
                            assert(col_start(bl[q as int], start_of(bl, q as int), span) == cs);
                            assert(col_end(bl[q as int], start_of(bl, q as int), span) == ce);
                        }
                    }
                } else {
                    proof {
                        assert forall|c: int| 0 <= c < lines@[q as int]@.len() implies out@[q as int]@[c]
                            == cell_attr(*result, *theme, bl, q as int, c, k + 1) by {
                            assert(!span_on_line(bl[q as int], start_of(bl, q as int), span));
                        }
                    }
                }
                q = q + 1;
            }
        } else {
            proof {
                assert forall|r: int, c: int|
                    0 <= r < n && 0 <= c < lines@[r]@.len() implies cell_attr(
                    *result,
                    *theme,
                    bl,
                    r,
                    c,
                    k + 1,
                ) == cell_attr(*result, *theme, bl, r, c, k as int) by {}
            }
        }
        k = k + 1;
    }
    out
}

/// Row `i` of per-line attributes, empty past the end.
pub open spec fn row_of(a: Seq<Vec<u16>>, i: int) -> Seq<u16> {
    if 0 <= i < a.len() {
        a[i]@
    } else {
        Seq::empty()
    }
}

/// Whether row `i` differs between two per-line attribute tables.
pub open spec fn row_changed(before: Seq<Vec<u16>>, after: Seq<Vec<u16>>, i: int) -> bool {
    row_of(after, i) != row_of(before, i)
}

/// The number of rows compared between two tables.
pub open spec fn rows_compared(before: Seq<Vec<u16>>, after: Seq<Vec<u16>>) -> int {
    if before.len() < after.len() {
        after.len() as int
    } else {
        before.len() as int
    }
}

/// Whether `(s, e)` is a maximal run of changed rows.
pub open spec fn is_changed_run(before: Seq<Vec<u16>>, after: Seq<Vec<u16>>, s: int, e: int) -> bool {
    &&& 0 <= s <= e < rows_compared(before, after)
    &&& forall|i: int| s <= i <= e ==> #[trigger] row_changed(before, after, i)
    &&& (s == 0 || !row_changed(before, after, s - 1))
    &&& (e + 1 == rows_compared(before, after) || !row_changed(before, after, e + 1))
}

/// Whether `ranges` lists exactly the maximal runs of changed rows, in order.
pub open spec fn changed_runs(before: Seq<Vec<u16>>, after: Seq<Vec<u16>>, ranges: Seq<(u32, u32)>) -> bool {
    &&& forall|j: int|
        0 <= j < ranges.len() ==> is_changed_run(
            before,
            after,
            (#[trigger] ranges[j]).0 as int,
            ranges[j].1 as int,
        )
    &&& forall|j: int|
        0 <= j < ranges.len() - 1 ==> (#[trigger] ranges[j]).1 + 1 < ranges[j + 1].0
    &&& forall|i: int|
        0 <= i < rows_compared(before, after) && #[trigger] row_changed(before, after, i) ==> exists|
            j: int,
        |
            0 <= j < ranges.len() && (#[trigger] ranges[j]).0 <= i <= ranges[j].1
}

fn rows_equal(a: &[u16], b: &[u16]) -> (r: bool)
    ensures
        r == (a@ == b@),
{
    if a.len() != b.len() {
        return false;
    }
    let mut i: usize = 0;
    while i < a.len()
        invariant
            i <= a@.len() == b@.len(),
            a@.take(i as int) == b@.take(i as int),
        decreases a@.len() - i,
    {
        if a[i] != b[i] {
            return false;
        }
        assert(a@.take(i + 1) == a@.take(i as int).push(a@[i as int]));
        assert(b@.take(i + 1) == b@.take(i as int).push(b@[i as int]));
        i = i + 1;
    }
    assert(a@.take(i as int) == a@);
    assert(b@.take(i as int) == b@);
    true
}

fn row_changed_at(before: &Vec<Vec<u16>>, after: &Vec<Vec<u16>>, i: usize) -> (r: bool)
    ensures
        r == row_changed(before@, after@, i as int),
{
    let empty: Vec<u16> = Vec::new();
    let a = if i < after.len() {
        after[i].as_slice()
    } else {
        empty.as_slice()
    };
    let b = if i < before.len() {
        before[i].as_slice()
    } else {
        empty.as_slice()
    };
    !rows_equal(a, b)
}

/// The maximal runs of rows whose attributes differ between two tables, in
/// order, as inclusive `(first, last)` row pairs; a row missing from one
/// table compares as empty.
pub fn changed_line_ranges(before: &Vec<Vec<u16>>, after: &Vec<Vec<u16>>) -> (out: Vec<(u32, u32)>)
    requires
        before@.len() <= u32::MAX,
        after@.len() <= u32::MAX,
    ensures
        changed_runs(before@, after@, out@),
{
    let n = if after.len() < before.len() {
        before.len()
    } else {
        after.len()
    };
    let ghost o = before@;
    let ghost w = after@;
    let mut out: Vec<(u32, u32)> = Vec::new();
    let mut range_start: Option<u32> = None;
    let mut row: usize = 0;
    while row < n
        invariant
            row <= n == rows_compared(o, w),
            n <= u32::MAX,
            o == before@,
            w == after@,
            forall|j: int|
                0 <= j < out@.len() ==> is_changed_run(
                    o,
                    w,
                    (#[trigger] out@[j]).0 as int,
                    out@[j].1 as int,
                ) && out@[j].1 + 1 < row,
            forall|j: int| 0 <= j < out@.len() - 1 ==> (#[trigger] out@[j]).1 + 1 < out@[j + 1].0,
            match range_start {
                Some(s) => {
                    &&& s < row
                    &&& forall|i: int| s <= i < row ==> #[trigger] row_changed(o, w, i)
                    &&& (s == 0 || !row_changed(o, w, s - 1))
                    &&& forall|j: int| 0 <= j < out@.len() ==> (#[trigger] out@[j]).1 + 1 < s
                },
                None => row == 0 || !row_changed(o, w, row - 1),
            },
            forall|i: int|
                0 <= i < row && #[trigger] row_changed(o, w, i) ==> (exists|j: int|
                    0 <= j < out@.len() && (#[trigger] out@[j]).0 <= i <= out@[j].1) || (
                range_start matches Some(s) && s <= i),
        decreases n - row,
    {
        let changed = row_changed_at(before, after, row);
        let ghost out_before = out@;
        match range_start {
            None => {
                if changed {
                    range_start = Some(row as u32);
                }
            },
            Some(start) => {
                if !changed {
                    out.push((start, (row - 1) as u32));
                    proof {
                        assert(out@[out@.len() - 1] == (start, (row - 1) as u32));
                        assert forall|i: int|
                            0 <= i <= row && #[trigger] row_changed(o, w, i) implies exists|j: int|
                                0 <= j < out@.len() && (#[trigger] out@[j]).0 <= i <= out@[j].1 by {
                            if start <= i {
                                assert(out@[out@.len() - 1].0 <= i <= out@[out@.len() - 1].1);
                            } else {
                                let j = choose|j: int|
                                    0 <= j < out_before.len() && (#[trigger] out_before[j]).0 <= i
                                        <= out_before[j].1;
                                assert(out@[j] == out_before[j]);
                            }
                        }
                    }
                    range_start = None;
                }
            },
        }
        row = row + 1;
    }
    match range_start {
        Some(start) => {
            let ghost out_before = out@;
            out.push((start, (n - 1) as u32));
            proof {
                assert(out@[out@.len() - 1] == (start, (n - 1) as u32));
                assert forall|i: int|
                    0 <= i < n && #[trigger] row_changed(o, w, i) implies exists|j: int|
                        0 <= j < out@.len() && (#[trigger] out@[j]).0 <= i <= out@[j].1 by {
                    if start <= i {
                        assert(out@[out@.len() - 1].0 <= i <= out@[out@.len() - 1].1);
                    } else {
                        let j = choose|j: int|
                            0 <= j < out_before.len() && (#[trigger] out_before[j]).0 <= i
                                <= out_before[j].1;
                        assert(out@[j] == out_before[j]);
                    }
                }
            }
        },
        None => {},
    }
    out
}

} // verus!
