//! Themes: capture-name and UI-role style tables with lookup fallbacks.
use crate::style::{bg_style, fg_style, Rgb, Style};
use crate::catppuccin::{build_catppuccin_theme, catppuccin_palette, catppuccin_styles, catppuccin_ui, CatppuccinVariant};
use crate::studio::{build_studio_theme, studio_palette, studio_styles, studio_ui, StudioVariant};
use crate::style_map::StyleMap;
use crate::tokyonight::{build_tokyonight_theme, tokyonight_palette, tokyonight_styles, tokyonight_ui, TokyoNightVariant};
use crate::text::{
    ascii_lower_seq, chars_of, str_eq, string_from_chars, trim_end_index,
    trim_start_index, trimmed,
};
use vstd::prelude::*;

verus! {

/// A capture name as stored in a theme: whitespace trimmed, one leading `@`
/// removed, ASCII letters lowercased.
pub open spec fn normalized_name(s: Seq<char>) -> Seq<char> {
    let t = trimmed(s);
    let u = if t.len() > 0 && t[0] == '@' {
        t.drop_first()
    } else {
        t
    };
    ascii_lower_seq(u)
}

/// The style stored under `k`, if any.
pub open spec fn lookup(m: Map<Seq<char>, Style>, k: Seq<char>) -> Option<Style> {
    if m.contains_key(k) {
        Some(m[k])
    } else {
        None
    }
}

/// The style behind an optional reference.
pub open spec fn opt_val(r: Option<&Style>) -> Option<Style> {
    match r {
        Some(s) => Some(*s),
        None => None,
    }
}

/// The first of two optional styles that is present.
pub open spec fn first_of(a: Option<Style>, b: Option<Style>) -> Option<Style> {
    if a is Some {
        a
    } else {
        b
    }
}

/// Normalizes a theme capture name for lookup.
///
/// The normalization trims whitespace, removes an optional `@` prefix, and lowercases.
pub fn normalize_capture_name(capture_name: &str) -> (r: String)
    ensures
        r@ == normalized_name(capture_name@),
{
    let v = chars_of(capture_name);
    let mut i = trim_start_index(&v);
    let j = trim_end_index(&v, i);
    proof {
        assert(trimmed(v@) == v@.subrange(i as int, j as int));
    }
    if i < j && v[i] == '@' {
        proof {
            let t = v@.subrange(i as int, j as int);
            assert(t.drop_first() == v@.subrange(i + 1, j as int));
        }
        i = i + 1;
    }
    string_from_chars(&v, i, j, true)
}

/// Index of the last `.` in `k`, or `-1` when there is none.
pub open spec fn last_dot(k: Seq<char>) -> int
    decreases k.len(),
{
    if k.len() == 0 {
        -1
    } else if k.last() == '.' {
        k.len() - 1
    } else {
        last_dot(k.drop_last())
    }
}

pub(crate) proof fn lemma_last_dot(k: Seq<char>)
    ensures
        -1 <= last_dot(k) < k.len(),
        last_dot(k) >= 0 ==> k[last_dot(k)] == '.',
        forall|i: int| last_dot(k) < i < k.len() ==> k[i] != '.',
    decreases k.len(),
{
    if k.len() > 0 && k.last() != '.' {
        lemma_last_dot(k.drop_last());
        assert forall|i: int| last_dot(k) < i < k.len() implies k[i] != '.' by {
            if i < k.len() - 1 {
                assert(k[i] == k.drop_last()[i]);
            }
        }
    }
}

/// Style lookup with dotted-name fallback: `a.b.c`, then `a.b`, then `a`, then `normal`.
pub open spec fn resolve_in(m: Map<Seq<char>, Style>, k: Seq<char>) -> Option<Style>
    decreases k.len(),
{
    if m.contains_key(k) {
        Some(m[k])
    } else if 0 <= last_dot(k) < k.len() {
        resolve_in(m, k.take(last_dot(k)))
    } else {
        lookup(m, "normal"@)
    }
}

/// A UI role of a theme.
#[derive(Debug, Clone, Copy, PartialEq, Eq, Structural, Hash)]
pub enum UiRole {
    DefaultFg,
    DefaultBg,
    Statusline,
    StatuslineInactive,
    TabActive,
    TabInactive,
    Selection,
    Cursorline,
}

/// The canonical key of a UI role.
pub open spec fn ui_role_key(role: UiRole) -> Seq<char> {
    match role {
        UiRole::DefaultFg => "default_fg"@,
        UiRole::DefaultBg => "default_bg"@,
        UiRole::Statusline => "statusline"@,
        UiRole::StatuslineInactive => "statusline_inactive"@,
        UiRole::TabActive => "tab_active"@,
        UiRole::TabInactive => "tab_inactive"@,
        UiRole::Selection => "selection"@,
        UiRole::Cursorline => "cursorline"@,
    }
}

/// The UI role named by an already normalized key or alias.
pub open spec fn ui_role_from_key(k: Seq<char>) -> Option<UiRole> {
    if k == "default_fg"@ || k == "defaultfg"@ || k == "terminal_fg"@ || k == "terminalfg"@ {
        Some(UiRole::DefaultFg)
    } else if k == "default_bg"@ || k == "defaultbg"@ || k == "terminal_bg"@ || k
        == "terminalbg"@ {
        Some(UiRole::DefaultBg)
    } else if k == "statusline"@ || k == "status_line"@ {
        Some(UiRole::Statusline)
    } else if k == "statusline_inactive"@ || k == "status_line_inactive"@ || k
        == "statuslineinactive"@ {
        Some(UiRole::StatuslineInactive)
    } else if k == "tab_active"@ || k == "tabactive"@ || k == "tab"@ {
        Some(UiRole::TabActive)
    } else if k == "tab_inactive"@ || k == "tabinactive"@ {
        Some(UiRole::TabInactive)
    } else if k == "selection"@ {
        Some(UiRole::Selection)
    } else if k == "cursorline"@ || k == "cursor_line"@ {
        Some(UiRole::Cursorline)
    } else {
        None
    }
}

impl UiRole {
    /// Returns the canonical role key used in theme documents.
    pub fn key(self) -> (r: &'static str)
        ensures
            r@ == ui_role_key(self),
    {
        match self {
            UiRole::DefaultFg => "default_fg",
            UiRole::DefaultBg => "default_bg",
            UiRole::Statusline => "statusline",
            UiRole::StatuslineInactive => "statusline_inactive",
            UiRole::TabActive => "tab_active",
            UiRole::TabInactive => "tab_inactive",
            UiRole::Selection => "selection",
            UiRole::Cursorline => "cursorline",
        }
    }

    /// Parses a UI role from a key or alias.
    pub fn from_name(name: &str) -> (r: Option<UiRole>)
        ensures
            r == ui_role_from_key(normalized_name(name@)),
    {
        let k = normalize_capture_name(name);
        let k = k.as_str();
        if str_eq(k, "default_fg") || str_eq(k, "defaultfg") || str_eq(
            k,
            "terminal_fg",
        ) || str_eq(k, "terminalfg") {
            Some(UiRole::DefaultFg)
        } else if str_eq(k, "default_bg") || str_eq(k, "defaultbg") || str_eq(
            k,
            "terminal_bg",
        ) || str_eq(k, "terminalbg") {
            Some(UiRole::DefaultBg)
        } else if str_eq(k, "statusline") || str_eq(k, "status_line") {
            Some(UiRole::Statusline)
        } else if str_eq(k, "statusline_inactive") || str_eq(k, "status_line_inactive")
            || str_eq(k, "statuslineinactive") {
            Some(UiRole::StatuslineInactive)
        } else if str_eq(k, "tab_active") || str_eq(k, "tabactive") || str_eq(
            k,
            "tab",
        ) {
            Some(UiRole::TabActive)
        } else if str_eq(k, "tab_inactive") || str_eq(k, "tabinactive") {
            Some(UiRole::TabInactive)
        } else if str_eq(k, "selection") {
            Some(UiRole::Selection)
        } else if str_eq(k, "cursorline") || str_eq(k, "cursor_line") {
            Some(UiRole::Cursorline)
        } else {
            None
        }
    }
}

/// The map obtained by inserting, in order, each style under the normalized
/// form of its name (a later name wins over an earlier one with the same form).
pub open spec fn normalized_map(keys: Seq<Seq<char>>, vals: Seq<Style>) -> Map<Seq<char>, Style>
    decreases keys.len(),
{
    if keys.len() == 0 {
        Map::empty()
    } else {
        normalized_map(keys.drop_last(), vals.drop_last()).insert(
            normalized_name(keys.last()),
            vals[keys.len() - 1],
        )
    }
}

/// The style of a typed UI role: the `ui` entry for its key, else the `styles`
/// entry for its key, else the role's own fallbacks.
pub open spec fn ui_role_style(
    ui: Map<Seq<char>, Style>,
    styles: Map<Seq<char>, Style>,
    role: UiRole,
) -> Option<Style> {
    let k = ui_role_key(role);
    if ui.contains_key(k) {
        Some(ui[k])
    } else if styles.contains_key(k) {
        Some(styles[k])
    } else {
        match role {
            UiRole::DefaultFg => match lookup(styles, "normal"@) {
                Some(n) => match n.fg {
                    Some(c) => Some(fg_style(c)),
                    None => None,
                },
                None => None,
            },
            UiRole::DefaultBg => match lookup(styles, "normal"@) {
                Some(n) => match n.bg {
                    Some(c) => Some(bg_style(c)),
                    None => None,
                },
                None => None,
            },
            UiRole::Statusline => lookup(styles, "statusline"@),
            UiRole::StatuslineInactive => first_of(
                lookup(ui, "statusline_inactive"@),
                first_of(
                    lookup(styles, "statusline_inactive"@),
                    first_of(lookup(styles, "ignore"@), lookup(styles, "statusline"@)),
                ),
            ),
            UiRole::TabActive => first_of(
                lookup(ui, "tab_active"@),
                first_of(lookup(styles, "tab_active"@), lookup(styles, "statusline"@)),
            ),
            UiRole::TabInactive => first_of(
                lookup(ui, "tab_inactive"@),
                first_of(
                    lookup(styles, "tab_inactive"@),
                    first_of(lookup(styles, "ignore"@), lookup(styles, "statusline"@)),
                ),
            ),
            UiRole::Selection => first_of(lookup(ui, "selection"@), lookup(styles, "selection"@)),
            UiRole::Cursorline => first_of(
                lookup(ui, "cursorline"@),
                first_of(lookup(styles, "cursorline"@), lookup(styles, "selection"@)),
            ),
        }
    }
}

/// The style of a UI role given by name: the `ui` entry for the normalized
/// name, else the `styles` entry, else the typed role it names, if any.
pub open spec fn ui_name_style(
    ui: Map<Seq<char>, Style>,
    styles: Map<Seq<char>, Style>,
    name: Seq<char>,
) -> Option<Style> {
    let k = normalized_name(name);
    if ui.contains_key(k) {
        Some(ui[k])
    } else if styles.contains_key(k) {
        Some(styles[k])
    } else {
        match ui_role_from_key(normalized_name(k)) {
            Some(role) => ui_role_style(ui, styles, role),
            None => None,
        }
    }
}

/// The terminal default foreground: from the `default_fg` role, else `normal`.
pub open spec fn default_fg_color(
    ui: Map<Seq<char>, Style>,
    styles: Map<Seq<char>, Style>,
) -> Option<Rgb> {
    let from_role = match ui_role_style(ui, styles, UiRole::DefaultFg) {
        Some(s) => s.fg,
        None => None,
    };
    if from_role is Some {
        from_role
    } else {
        match lookup(styles, "normal"@) {
            Some(s) => s.fg,
            None => None,
        }
    }
}

/// The terminal default background: from the `default_bg` role, else `normal`.
pub open spec fn default_bg_color(
    ui: Map<Seq<char>, Style>,
    styles: Map<Seq<char>, Style>,
) -> Option<Rgb> {
    let from_role = match ui_role_style(ui, styles, UiRole::DefaultBg) {
        Some(s) => s.bg,
        None => None,
    };
    if from_role is Some {
        from_role
    } else {
        match lookup(styles, "normal"@) {
            Some(s) => s.bg,
            None => None,
        }
    }
}

/// A theme: styles for syntax captures and styles for UI roles, each keyed by
/// normalized name.
#[derive(Debug)]
pub struct Theme {
    pub styles: StyleMap,
    pub ui: StyleMap,
}

impl Clone for Theme {
    fn clone(&self) -> (c: Self)
        ensures
            c.styles@ == self.styles@,
            c.ui@ == self.ui@,
    {
        Theme { styles: self.styles.clone(), ui: self.ui.clone() }
    }
}

impl Default for Theme {
    fn default() -> (t: Self)
        ensures
            t.styles@ == Map::<Seq<char>, Style>::empty(),
            t.ui@ == Map::<Seq<char>, Style>::empty(),
    {
        Theme { styles: StyleMap::new(), ui: StyleMap::new() }
    }
}

impl Theme {
    /// Creates an empty theme.
    pub fn new() -> (t: Self)
        ensures
            t.styles@ == Map::<Seq<char>, Style>::empty(),
            t.ui@ == Map::<Seq<char>, Style>::empty(),
    {
        Theme { styles: StyleMap::new(), ui: StyleMap::new() }
    }

    /// Creates a theme from a style map after normalizing capture names.
    pub fn from_styles(styles: StyleMap) -> (t: Self)
        ensures
            t.styles@ == normalized_map(styles.key_seq(), styles.style_seq()),
            t.ui@ == Map::<Seq<char>, Style>::empty(),
    {
        Theme::from_parts(styles, StyleMap::new())
    }

    /// Creates a theme from syntax-style and UI-role maps after normalization.
    ///
    /// Entries are inserted in name order, so of two names with the same
    /// normalized form the one that sorts last wins.
    pub fn from_parts(styles: StyleMap, ui: StyleMap) -> (t: Self)
        ensures
            t.styles@ == normalized_map(styles.key_seq(), styles.style_seq()),
            t.ui@ == normalized_map(ui.key_seq(), ui.style_seq()),
    {
        let mut theme = Theme::new();
        let n = styles.len();
        let mut i: usize = 0;
        while i < n
            invariant
                i <= n == styles.key_seq().len() == styles.style_seq().len(),
                theme.styles@ == normalized_map(
                    styles.key_seq().take(i as int),
                    styles.style_seq().take(i as int),
                ),
                theme.ui@ == Map::<Seq<char>, Style>::empty(),
            decreases n - i,
        {
            let k = styles.key_at(i);
            let s = styles.style_at(i);
            theme.insert(k.as_str(), s);
            proof {
                let ks = styles.key_seq().take(i + 1);
                let vs = styles.style_seq().take(i + 1);
                assert(ks.drop_last() == styles.key_seq().take(i as int));
                assert(vs.drop_last() == styles.style_seq().take(i as int));
            }
            i += 1;
        }
        assert(styles.key_seq().take(n as int) == styles.key_seq());
        assert(styles.style_seq().take(n as int) == styles.style_seq());
        let m = ui.len();
        let mut j: usize = 0;
        while j < m
            invariant
                j <= m == ui.key_seq().len() == ui.style_seq().len(),
                theme.styles@ == normalized_map(styles.key_seq(), styles.style_seq()),
                theme.ui@ == normalized_map(ui.key_seq().take(j as int), ui.style_seq().take(j as int)),
            decreases m - j,
        {
            let k = ui.key_at(j);
            let s = ui.style_at(j);
            theme.insert_ui(k.as_str(), s);
            proof {
                let ks = ui.key_seq().take(j + 1);
                let vs = ui.style_seq().take(j + 1);
                assert(ks.drop_last() == ui.key_seq().take(j as int));
                assert(vs.drop_last() == ui.style_seq().take(j as int));
            }
            j += 1;
        }
        assert(ui.key_seq().take(m as int) == ui.key_seq());
        assert(ui.style_seq().take(m as int) == ui.style_seq());
        theme
    }

    /// Inserts or replaces a style for a capture name.
    ///
    /// Capture names are normalized (trimmed, lowercased, optional `@` removed).
    /// Returns the previously associated style, if any.
    pub fn insert(&mut self, capture_name: &str, style: Style) -> (r: Option<Style>)
        ensures
            final(self).styles@ == old(self).styles@.insert(normalized_name(capture_name@), style),
            final(self).ui@ == old(self).ui@,
            r == lookup(old(self).styles@, normalized_name(capture_name@)),
    {
        self.styles.insert(normalize_capture_name(capture_name), style)
    }

    /// Returns the internal normalized style map.
    pub fn styles(&self) -> (m: &StyleMap)
        ensures
            m@ == self.styles@,
    {
        &self.styles
    }

    /// Inserts or replaces a UI role style.
    ///
    /// Role names are normalized like capture names.
    /// Returns the previously associated style, if any.
    pub fn insert_ui(&mut self, role_name: &str, style: Style) -> (r: Option<Style>)
        ensures
            final(self).ui@ == old(self).ui@.insert(normalized_name(role_name@), style),
            final(self).styles@ == old(self).styles@,
            r == lookup(old(self).ui@, normalized_name(role_name@)),
    {
        self.ui.insert(normalize_capture_name(role_name), style)
    }

    /// Returns the internal normalized UI role map.
    pub fn ui_styles(&self) -> (m: &StyleMap)
        ensures
            m@ == self.ui@,
    {
        &self.ui
    }

    /// Returns the exact style for a capture after normalization.
    pub fn get_exact(&self, capture_name: &str) -> (r: Option<&Style>)
        ensures
            opt_val(r) == lookup(self.styles@, normalized_name(capture_name@)),
    {
        let k = normalize_capture_name(capture_name);
        self.styles.get(k.as_str())
    }

    /// Returns the exact UI role style after normalization.
    pub fn get_ui_exact(&self, role_name: &str) -> (r: Option<&Style>)
        ensures
            opt_val(r) == lookup(self.ui@, normalized_name(role_name@)),
    {
        let k = normalize_capture_name(role_name);
        self.ui.get(k.as_str())
    }

    /// Resolves a style using dotted-name fallback and finally `normal`.
    ///
    /// For example, `comment.documentation` falls back to `comment` before
    /// attempting `normal`.
    pub fn resolve(&self, capture_name: &str) -> (r: Option<&Style>)
        ensures
            opt_val(r) == resolve_in(self.styles@, normalized_name(capture_name@)),
    {
        let norm = normalize_capture_name(capture_name);
        let kc = chars_of(norm.as_str());
        let mut end: usize = kc.len();
        assert(kc@.take(end as int) == kc@);
        loop
            invariant
                end <= kc@.len(),
                resolve_in(self.styles@, kc@.take(end as int)) == resolve_in(
                    self.styles@,
                    normalized_name(capture_name@),
                ),
            ensures
                resolve_in(self.styles@, normalized_name(capture_name@)) == lookup(
                    self.styles@,
                    "normal"@,
                ),
            decreases end,
        {
            let key = string_from_chars(&kc, 0, end, false);
            assert(key@ == kc@.take(end as int));
            let found = self.styles.get(key.as_str());
            if found.is_some() {
                return found;
            }
            let ghost k = kc@.take(end as int);
            proof {
                lemma_last_dot(k);
            }
            match last_dot_index(&kc, end) {
                Some(d) => {
                    assert(k.take(d as int) == kc@.take(d as int));
                    end = d;
                },
                None => {
                    break;
                },
            }
        }
        self.styles.get("normal")
    }

    /// Resolves a UI role from explicit UI map entries with compatibility fallbacks.
    ///
    /// This method first checks the dedicated `ui` map, then falls back to legacy
    /// entries in `styles` for compatibility with older themes.
    pub fn resolve_ui(&self, role_name: &str) -> (r: Option<Style>)
        ensures
            r == ui_name_style(self.ui@, self.styles@, role_name@),
    {
        let normalized = normalize_capture_name(role_name);
        match self.ui.get(normalized.as_str()) {
            Some(s) => {
                return Some(*s);
            },
            None => {},
        }
        match self.styles.get(normalized.as_str()) {
            Some(s) => {
                return Some(*s);
            },
            None => {},
        }
        match UiRole::from_name(normalized.as_str()) {
            Some(role) => self.resolve_ui_role(role),
            None => None,
        }
    }

    /// Resolves a typed UI role from explicit UI entries and fallbacks.
    pub fn resolve_ui_role(&self, role: UiRole) -> (r: Option<Style>)
        ensures
            r == ui_role_style(self.ui@, self.styles@, role),
    {
        let key = role.key();
        match self.ui.get(key) {
            Some(s) => {
                return Some(*s);
            },
            None => {},
        }
        match self.styles.get(key) {
            Some(s) => {
                return Some(*s);
            },
            None => {},
        }
        match role {
            UiRole::DefaultFg => match self.styles.get("normal") {
                Some(n) => match n.fg {
                    Some(c) => Some(Style::with_fg(c)),
                    None => None,
                },
                None => None,
            },
            UiRole::DefaultBg => match self.styles.get("normal") {
                Some(n) => match n.bg {
                    Some(c) => Some(Style::with_bg(c)),
                    None => None,
                },
                None => None,
            },
            UiRole::Statusline => copied(self.styles.get("statusline")),
            UiRole::StatuslineInactive => {
                let a = copied(self.ui.get("statusline_inactive"));
                if a.is_some() {
                    return a;
                }
                let b = copied(self.styles.get("statusline_inactive"));
                if b.is_some() {
                    return b;
                }
                let c = copied(self.styles.get("ignore"));
                if c.is_some() {
                    return c;
                }
                copied(self.styles.get("statusline"))
            },
            UiRole::TabActive => {
                let a = copied(self.ui.get("tab_active"));
                if a.is_some() {
                    return a;
                }
                let b = copied(self.styles.get("tab_active"));
                if b.is_some() {
                    return b;
                }
                copied(self.styles.get("statusline"))
            },
            UiRole::TabInactive => {
                let a = copied(self.ui.get("tab_inactive"));
                if a.is_some() {
                    return a;
                }
                let b = copied(self.styles.get("tab_inactive"));
                if b.is_some() {
                    return b;
                }
                let c = copied(self.styles.get("ignore"));
                if c.is_some() {
                    return c;
                }
                copied(self.styles.get("statusline"))
            },
            UiRole::Selection => {
                let a = copied(self.ui.get("selection"));
                if a.is_some() {
                    return a;
                }
                copied(self.styles.get("selection"))
            },
            UiRole::Cursorline => {
                let a = copied(self.ui.get("cursorline"));
                if a.is_some() {
                    return a;
                }
                let b = copied(self.styles.get("cursorline"));
                if b.is_some() {
                    return b;
                }
                copied(self.styles.get("selection"))
            },
        }
    }

    /// Returns the theme default terminal foreground/background colors.
    ///
    /// Values are resolved from UI roles first (`default_fg`, `default_bg`), then
    /// from `styles.normal`.
    pub fn default_terminal_colors(&self) -> (r: (Option<Rgb>, Option<Rgb>))
        ensures
            r.0 == default_fg_color(self.ui@, self.styles@),
            r.1 == default_bg_color(self.ui@, self.styles@),
    {
        let fg_role = match self.resolve_ui_role(UiRole::DefaultFg) {
            Some(s) => s.fg,
            None => None,
        };
        let fg = if fg_role.is_some() {
            fg_role
        } else {
            match self.styles.get("normal") {
                Some(s) => s.fg,
                None => None,
            }
        };
        let bg_role = match self.resolve_ui_role(UiRole::DefaultBg) {
            Some(s) => s.bg,
            None => None,
        };
        let bg = if bg_role.is_some() {
            bg_role
        } else {
            match self.styles.get("normal") {
                Some(s) => s.bg,
                None => None,
            }
        };
        (fg, bg)
    }
}

/// Copies the style behind an optional reference.
fn copied(r: Option<&Style>) -> (o: Option<Style>)
    ensures
        o == opt_val(r),
{
    match r {
        Some(s) => Some(*s),
        None => None,
    }
}

/// Index of the last `.` among `k[..end]`, if any.
pub(crate) fn last_dot_index(k: &Vec<char>, end: usize) -> (r: Option<usize>)
    requires
        end <= k@.len(),
    ensures
        match r {
            Some(d) => d == last_dot(k@.take(end as int)) && d < end,
            None => last_dot(k@.take(end as int)) == -1,
        },
{
    let mut i: usize = end;
    while i > 0
        invariant
            i <= end <= k@.len(),
            last_dot(k@.take(end as int)) == last_dot(k@.take(i as int)),
        decreases i,
    {
        if k[i - 1] == '.' {
            return Some(i - 1);
        }
        assert(k@.take(i as int).drop_last() == k@.take(i - 1));
        i -= 1;
    }
    None
}

/// The styles of `m` after inserting `style` under each of `names` in order.
pub open spec fn insert_all(m: Map<Seq<char>, Style>, names: Seq<Seq<char>>, style: Style) -> Map<
    Seq<char>,
    Style,
>
    decreases names.len(),
{
    if names.len() == 0 {
        m
    } else {
        insert_all(m, names.drop_last(), style).insert(names.last(), style)
    }
}

/// The views of a sequence of string slices.
pub open spec fn str_views(names: Seq<&str>) -> Seq<Seq<char>> {
    names.map_values(|n: &str| n@)
}

/// Inserts the same style under each of several names.
pub fn insert_many_styles(styles: &mut StyleMap, names: &[&str], style: Style)
    ensures
        final(styles)@ == insert_all(old(styles)@, str_views(names@), style),
{
    let mut i: usize = 0;
    while i < names.len()
        invariant
            i <= names@.len(),
            styles@ == insert_all(old(styles)@, str_views(names@.take(i as int)), style),
        decreases names@.len() - i,
    {
        styles.put(names[i], style);
        proof {
            let t = str_views(names@.take(i + 1));
            assert(t.drop_last() == str_views(names@.take(i as int)));
            assert(t.last() == names@[i as int]@);
        }
        i += 1;
    }
    assert(names@.take(names@.len() as int) == names@);
}

/// A built-in theme.
#[derive(Debug, Clone, Copy, PartialEq, Eq, Structural, Hash)]
pub enum BuiltinTheme {
    TokyoNightDark,
    TokyoNightNight,
    TokyoNightStorm,
    TokyoNightMoon,
    TokyoNightLight,
    TokyoNightDay,
    CatppuccinLatte,
    CatppuccinFrappe,
    CatppuccinMacchiato,
    CatppuccinMocha,
    Aviel,
    StudioDefault,
    SolarizedDark,
    SolarizedLight,
}

/// The built-in theme named by an already trimmed and lowercased name or alias.
pub open spec fn builtin_from_key(k: Seq<char>) -> Option<BuiltinTheme> {
    if k == "tokyonight-dark"@ || k == "tokyo-night"@ {
        Some(BuiltinTheme::TokyoNightDark)
    } else if k == "tokyonight-night"@ {
        Some(BuiltinTheme::TokyoNightNight)
    } else if k == "tokyonight-storm"@ {
        Some(BuiltinTheme::TokyoNightStorm)
    } else if k == "tokyonight-moon"@ || k == "tokyonight"@ {
        Some(BuiltinTheme::TokyoNightMoon)
    } else if k == "tokyonight-light"@ || k == "tokyo-day"@ {
        Some(BuiltinTheme::TokyoNightLight)
    } else if k == "tokyonight-day"@ {
        Some(BuiltinTheme::TokyoNightDay)
    } else if k == "catppuccin-latte"@ {
        Some(BuiltinTheme::CatppuccinLatte)
    } else if k == "catppuccin-frappe"@ {
        Some(BuiltinTheme::CatppuccinFrappe)
    } else if k == "catppuccin-macchiato"@ {
        Some(BuiltinTheme::CatppuccinMacchiato)
    } else if k == "catppuccin-mocha"@ {
        Some(BuiltinTheme::CatppuccinMocha)
    } else if k == "aviel"@ || k == "studio-aviel"@ || k == "aviel-studio"@ {
        Some(BuiltinTheme::Aviel)
    } else if k == "studio-default"@ || k == "studio-classic"@ {
        Some(BuiltinTheme::StudioDefault)
    } else if k == "solarized-dark"@ {
        Some(BuiltinTheme::SolarizedDark)
    } else if k == "solarized-light"@ {
        Some(BuiltinTheme::SolarizedLight)
    } else {
        None
    }
}

/// The built-in theme named by a name or alias (trimmed, ASCII case-insensitive).
pub open spec fn builtin_from_name(name: Seq<char>) -> Option<BuiltinTheme> {
    builtin_from_key(ascii_lower_seq(trimmed(name)))
}

/// The canonical name of a built-in theme.
pub open spec fn builtin_theme_name(t: BuiltinTheme) -> Seq<char> {
    match t {
        BuiltinTheme::TokyoNightDark => "tokyonight-dark"@,
        BuiltinTheme::TokyoNightNight => "tokyonight-night"@,
        BuiltinTheme::TokyoNightStorm => "tokyonight-storm"@,
        BuiltinTheme::TokyoNightMoon => "tokyonight-moon"@,
        BuiltinTheme::TokyoNightLight => "tokyonight-light"@,
        BuiltinTheme::TokyoNightDay => "tokyonight-day"@,
        BuiltinTheme::CatppuccinLatte => "catppuccin-latte"@,
        BuiltinTheme::CatppuccinFrappe => "catppuccin-frappe"@,
        BuiltinTheme::CatppuccinMacchiato => "catppuccin-macchiato"@,
        BuiltinTheme::CatppuccinMocha => "catppuccin-mocha"@,
        BuiltinTheme::Aviel => "aviel"@,
        BuiltinTheme::StudioDefault => "studio-default"@,
        BuiltinTheme::SolarizedDark => "solarized-dark"@,
        BuiltinTheme::SolarizedLight => "solarized-light"@,
    }
}

/// The style and UI-role maps of a built-in theme, when the library carries its data.
pub open spec fn builtin_theme_maps(t: BuiltinTheme) -> Option<
    (Map<Seq<char>, Style>, Map<Seq<char>, Style>),
> {
    match t {
        BuiltinTheme::TokyoNightDark | BuiltinTheme::TokyoNightNight => Some(
            (
                tokyonight_styles(tokyonight_palette(TokyoNightVariant::Night)),
                tokyonight_ui(tokyonight_palette(TokyoNightVariant::Night)),
            ),
        ),
        BuiltinTheme::TokyoNightStorm => Some(
            (
                tokyonight_styles(tokyonight_palette(TokyoNightVariant::Storm)),
                tokyonight_ui(tokyonight_palette(TokyoNightVariant::Storm)),
            ),
        ),
        BuiltinTheme::TokyoNightMoon => Some(
            (
                tokyonight_styles(tokyonight_palette(TokyoNightVariant::Moon)),
                tokyonight_ui(tokyonight_palette(TokyoNightVariant::Moon)),
            ),
        ),
        BuiltinTheme::TokyoNightLight | BuiltinTheme::TokyoNightDay => Some(
            (
                tokyonight_styles(tokyonight_palette(TokyoNightVariant::Day)),
                tokyonight_ui(tokyonight_palette(TokyoNightVariant::Day)),
            ),
        ),
        BuiltinTheme::CatppuccinLatte => catppuccin_maps(CatppuccinVariant::Latte),
        BuiltinTheme::CatppuccinFrappe => catppuccin_maps(CatppuccinVariant::Frappe),
        BuiltinTheme::CatppuccinMacchiato => catppuccin_maps(CatppuccinVariant::Macchiato),
        BuiltinTheme::CatppuccinMocha => catppuccin_maps(CatppuccinVariant::Mocha),
        BuiltinTheme::Aviel => Some(
            (
                studio_styles(studio_palette(StudioVariant::Aviel)),
                studio_ui(studio_palette(StudioVariant::Aviel)),
            ),
        ),
        BuiltinTheme::StudioDefault => Some(
            (
                studio_styles(studio_palette(StudioVariant::Classic)),
                studio_ui(studio_palette(StudioVariant::Classic)),
            ),
        ),
        BuiltinTheme::SolarizedDark | BuiltinTheme::SolarizedLight => None,
    }
}

/// The maps of a Catppuccin variant.
pub open spec fn catppuccin_maps(v: CatppuccinVariant) -> Option<
    (Map<Seq<char>, Style>, Map<Seq<char>, Style>),
> {
    Some((catppuccin_styles(catppuccin_palette(v)), catppuccin_ui(v, catppuccin_palette(v))))
}

/// Whether `r` is what loading the built-in theme `t` gives.
pub open spec fn builtin_load_result(t: BuiltinTheme, r: Result<Theme, ThemeError>) -> bool {
    match r {
        Ok(theme) => builtin_theme_maps(t) == Some((theme.styles@, theme.ui@)),
        Err(e) => builtin_theme_maps(t) is None && (e matches ThemeError::UnavailableBuiltinTheme(
            n,
        ) && n@ == builtin_theme_name(t)),
    }
}

impl BuiltinTheme {
    /// Parses a built-in theme name or alias.
    ///
    /// Accepted aliases include legacy names (`tokyo-night`, `tokyo-day`) and
    /// `tokyonight` (which names `tokyonight-moon`).
    pub fn from_name(name: &str) -> (r: Option<BuiltinTheme>)
        ensures
            r == builtin_from_name(name@),
    {
        let v = chars_of(name);
        let i = trim_start_index(&v);
        let j = trim_end_index(&v, i);
        let key = string_from_chars(&v, i, j, true);
        let k = key.as_str();
        if str_eq(k, "tokyonight-dark") || str_eq(k, "tokyo-night") {
            Some(BuiltinTheme::TokyoNightDark)
        } else if str_eq(k, "tokyonight-night") {
            Some(BuiltinTheme::TokyoNightNight)
        } else if str_eq(k, "tokyonight-storm") {
            Some(BuiltinTheme::TokyoNightStorm)
        } else if str_eq(k, "tokyonight-moon") || str_eq(k, "tokyonight") {
            Some(BuiltinTheme::TokyoNightMoon)
        } else if str_eq(k, "tokyonight-light") || str_eq(k, "tokyo-day") {
            Some(BuiltinTheme::TokyoNightLight)
        } else if str_eq(k, "tokyonight-day") {
            Some(BuiltinTheme::TokyoNightDay)
        } else if str_eq(k, "catppuccin-latte") {
            Some(BuiltinTheme::CatppuccinLatte)
        } else if str_eq(k, "catppuccin-frappe") {
            Some(BuiltinTheme::CatppuccinFrappe)
        } else if str_eq(k, "catppuccin-macchiato") {
            Some(BuiltinTheme::CatppuccinMacchiato)
        } else if str_eq(k, "catppuccin-mocha") {
            Some(BuiltinTheme::CatppuccinMocha)
        } else if str_eq(k, "aviel") || str_eq(k, "studio-aviel") || str_eq(k, "aviel-studio") {
            Some(BuiltinTheme::Aviel)
        } else if str_eq(k, "studio-default") || str_eq(k, "studio-classic") {
            Some(BuiltinTheme::StudioDefault)
        } else if str_eq(k, "solarized-dark") {
            Some(BuiltinTheme::SolarizedDark)
        } else if str_eq(k, "solarized-light") {
            Some(BuiltinTheme::SolarizedLight)
        } else {
            None
        }
    }

    /// The canonical name of this theme.
    pub(crate) fn name(self) -> (r: &'static str)
        ensures
            r@ == builtin_theme_name(self),
    {
        match self {
            BuiltinTheme::TokyoNightDark => "tokyonight-dark",
            BuiltinTheme::TokyoNightNight => "tokyonight-night",
            BuiltinTheme::TokyoNightStorm => "tokyonight-storm",
            BuiltinTheme::TokyoNightMoon => "tokyonight-moon",
            BuiltinTheme::TokyoNightLight => "tokyonight-light",
            BuiltinTheme::TokyoNightDay => "tokyonight-day",
            BuiltinTheme::CatppuccinLatte => "catppuccin-latte",
            BuiltinTheme::CatppuccinFrappe => "catppuccin-frappe",
            BuiltinTheme::CatppuccinMacchiato => "catppuccin-macchiato",
            BuiltinTheme::CatppuccinMocha => "catppuccin-mocha",
            BuiltinTheme::Aviel => "aviel",
            BuiltinTheme::StudioDefault => "studio-default",
            BuiltinTheme::SolarizedDark => "solarized-dark",
            BuiltinTheme::SolarizedLight => "solarized-light",
        }
    }
}

/// Errors of theme loading.
#[derive(Debug)]
pub enum ThemeError {
    /// The theme JSON could not be parsed.
    Json(serde_json::Error),
    /// The theme TOML could not be parsed.
    Toml(toml::de::Error),
    /// A palette template names a style key that is not a base theme style key.
    UnknownTemplateStyleKey(String),
    /// A palette template names a UI key that is not a base theme UI key.
    UnknownTemplateUiKey(String),
    /// A palette template references a color it does not define.
    UnknownTemplateColor { color_name: String, reference: String },
    /// Two palette colors share a name after case-insensitive normalization.
    DuplicateTemplateColorName(String),
    /// A palette template defines a color with an empty name.
    EmptyTemplateColorName,
    /// No built-in theme has the given name.
    UnknownBuiltinTheme(String),
    /// The library does not carry the data of the named built-in theme.
    UnavailableBuiltinTheme(String),
}

/// A parsing error of `serde_json`.
#[verifier::external_type_specification]
#[verifier::external_body]
pub struct ExJsonError(serde_json::Error);

/// A parsing error of `toml`.
#[verifier::external_type_specification]
#[verifier::external_body]
pub struct ExTomlError(toml::de::Error);

impl Theme {
    /// Loads a built-in theme.
    ///
    /// # Errors
    ///
    /// Returns [`ThemeError::UnavailableBuiltinTheme`] for the Solarized themes,
    /// whose data this library does not carry.
    pub fn from_builtin(theme: BuiltinTheme) -> (r: Result<Theme, ThemeError>)
        ensures
            builtin_load_result(theme, r),
            r is Ok <==> builtin_theme_maps(theme) is Some,
            r matches Ok(t) ==> t.styles.key_seq().len() <= 121,
    {
        match theme {
            BuiltinTheme::TokyoNightDark | BuiltinTheme::TokyoNightNight => Ok(
                build_tokyonight_theme(TokyoNightVariant::Night),
            ),
            BuiltinTheme::TokyoNightStorm => Ok(build_tokyonight_theme(TokyoNightVariant::Storm)),
            BuiltinTheme::TokyoNightMoon => Ok(build_tokyonight_theme(TokyoNightVariant::Moon)),
            BuiltinTheme::TokyoNightLight | BuiltinTheme::TokyoNightDay => Ok(
                build_tokyonight_theme(TokyoNightVariant::Day),
            ),
            BuiltinTheme::CatppuccinLatte => Ok(build_catppuccin_theme(CatppuccinVariant::Latte)),
            BuiltinTheme::CatppuccinFrappe => Ok(build_catppuccin_theme(CatppuccinVariant::Frappe)),
            BuiltinTheme::CatppuccinMacchiato => Ok(
                build_catppuccin_theme(CatppuccinVariant::Macchiato),
            ),
            BuiltinTheme::CatppuccinMocha => Ok(build_catppuccin_theme(CatppuccinVariant::Mocha)),
            BuiltinTheme::Aviel => Ok(build_studio_theme(StudioVariant::Aviel)),
            BuiltinTheme::StudioDefault => Ok(build_studio_theme(StudioVariant::Classic)),
            BuiltinTheme::SolarizedDark | BuiltinTheme::SolarizedLight => Err(
                ThemeError::UnavailableBuiltinTheme(String::from_str(theme.name())),
            ),
        }
    }

    /// Loads a built-in theme from a name or alias.
    ///
    /// # Errors
    ///
    /// Returns [`ThemeError::UnknownBuiltinTheme`] with the trimmed name for
    /// unknown names, and the errors of [`Theme::from_builtin`].
    pub fn from_builtin_name(name: &str) -> (r: Result<Theme, ThemeError>)
        ensures
            match builtin_from_name(name@) {
                Some(t) => builtin_load_result(t, r),
                None => r matches Err(ThemeError::UnknownBuiltinTheme(n)) && n@ == trimmed(name@),
            },
            r matches Ok(t) ==> t.styles.key_seq().len() <= 121,
    {
        match BuiltinTheme::from_name(name) {
            Some(t) => Theme::from_builtin(t),
            None => {
                let v = chars_of(name);
                let i = trim_start_index(&v);
                let j = trim_end_index(&v, i);
                proof {
                    assert(trimmed(v@) == v@.subrange(i as int, j as int));
                }
                Err(ThemeError::UnknownBuiltinTheme(string_from_chars(&v, i, j, false)))
            },
        }
    }
}

/// Loads a built-in theme by name or alias.
///
/// # Errors
///
/// Returns an error for unknown theme names or unavailable theme data.
pub fn load_theme(name: &str) -> (r: Result<Theme, ThemeError>)
    ensures
        match builtin_from_name(name@) {
            Some(t) => builtin_load_result(t, r),
            None => r matches Err(ThemeError::UnknownBuiltinTheme(n)) && n@ == trimmed(name@),
        },
        r matches Ok(t) ==> t.styles.key_seq().len() <= 121,
{
    Theme::from_builtin_name(name)
}

/// The canonical names of the built-in themes.
pub open spec fn builtin_theme_names() -> Seq<Seq<char>> {
    seq![
        "tokyonight-night"@,
        "tokyonight-storm"@,
        "tokyonight-moon"@,
        "tokyonight-day"@,
        "tokyonight-dark"@,
        "tokyonight-light"@,
        "catppuccin-latte"@,
        "catppuccin-frappe"@,
        "catppuccin-macchiato"@,
        "catppuccin-mocha"@,
        "aviel"@,
        "studio-default"@,
        "solarized-dark"@,
        "solarized-light"@,
    ]
}

/// Returns canonical names of built-in themes.
pub fn available_themes() -> (v: Vec<&'static str>)
    ensures
        str_views(v@) == builtin_theme_names(),
{
    let mut v: Vec<&'static str> = Vec::new();
    v.push("tokyonight-night");
    v.push("tokyonight-storm");
    v.push("tokyonight-moon");
    v.push("tokyonight-day");
    v.push("tokyonight-dark");
    v.push("tokyonight-light");
    v.push("catppuccin-latte");
    v.push("catppuccin-frappe");
    v.push("catppuccin-macchiato");
    v.push("catppuccin-mocha");
    v.push("aviel");
    v.push("studio-default");
    v.push("solarized-dark");
    v.push("solarized-light");
    assert(str_views(v@) =~= builtin_theme_names());
    v
}

/// A theme document with separate `styles` and `ui` tables.
#[derive(Debug)]
pub struct WrappedThemeDocument {
    pub styles: StyleMap,
    pub ui: StyleMap,
}

/// A parsed theme document: wrapped, or a flat table of capture styles.
#[derive(Debug)]
pub enum ThemeDocument {
    Wrapped(WrappedThemeDocument),
    Flat(StyleMap),
}

impl ThemeDocument {
    /// Converts a parsed document to a normalized [`Theme`].
    pub fn into_theme(self) -> (t: Theme)
        ensures
            match self {
                ThemeDocument::Wrapped(doc) => t.styles@ == normalized_map(
                    doc.styles.key_seq(),
                    doc.styles.style_seq(),
                ) && t.ui@ == normalized_map(doc.ui.key_seq(), doc.ui.style_seq()),
                ThemeDocument::Flat(styles) => t.styles@ == normalized_map(
                    styles.key_seq(),
                    styles.style_seq(),
                ) && t.ui@ == Map::<Seq<char>, Style>::empty(),
            },
    {
        match self {
            ThemeDocument::Wrapped(doc) => Theme::from_parts(doc.styles, doc.ui),
            ThemeDocument::Flat(styles) => Theme::from_styles(styles),
        }
    }
}

} // verus!
