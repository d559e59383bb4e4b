//! The editor bundle's context and documents: the language registry, the
//! activated themes, and per-line attributes of a document across edits.
use crate::grammar::{alnum_lower, grammar_from_key, Grammar};
use crate::highlighter::{highlights_as, joined_lines, SpanHighlighter};
use crate::spans::{disjoint_ordered, HighlightResult};
use crate::text::{push_char, push_str, str_eq};
use crate::theme::{
    available_themes, builtin_from_name, builtin_theme_maps, builtin_theme_name,
    builtin_theme_names, str_views,
};
use crate::tsbundler::{
    attrs_after, canonical_theme_name, changed_line_ranges, changed_runs,
    highlight_to_line_attrs, lines_fit, lines_fit_exec, ActivatedTheme, TsbundlerError,
};
use vstd::prelude::*;

verus! {

/// A bundled language: its canonical name and the file extensions it claims.
pub struct LangEntry {
    pub canonical: &'static str,
    pub extensions: Vec<&'static str>,
}

/// The bundled languages with their file extensions, in registry order.
pub open spec fn lang_registry_spec() -> Seq<(Seq<char>, Seq<Seq<char>>)> {
    seq![
        ("objectscript_routine"@, seq![".mac"@, ".inc"@, ".int"@, ".rtn"@]),
        ("objectscript_udl"@, seq![".cls"@]),
        ("objectscript"@, seq![]),
        ("sql"@, seq![".sql"@]),
        ("python"@, seq![".py"@]),
        ("markdown"@, seq![".md"@]),
        ("xml"@, seq![".xml"@]),
        ("json"@, seq![".json"@]),
        ("yaml"@, seq![".yaml"@, ".yml"@]),
        ("css"@, seq![]),
        ("html"@, seq![".html"@]),
        ("javascript"@, seq![".js"@, ".jsx"@, ".mjs"@, ".cjs"@]),
        ("jsdoc"@, seq![]),
        ("regex"@, seq![]),
        ("toml"@, seq![".toml"@]),
        ("mdx"@, seq![]),
    ]
}

/// Whether a registry lists the bundled languages.
pub open spec fn registry_ok(langs: Seq<LangEntry>) -> bool {
    &&& langs.len() == lang_registry_spec().len()
    &&& forall|i: int|
        0 <= i < langs.len() ==> (#[trigger] langs[i]).canonical@ == lang_registry_spec()[i].0
            && str_views(langs[i].extensions@) == lang_registry_spec()[i].1
}

fn lang(canonical: &'static str, extensions: Vec<&'static str>) -> (e: LangEntry)
    ensures
        e.canonical == canonical,
        e.extensions@ == extensions@,
{
    LangEntry { canonical, extensions }
}

/// Builds the registry of bundled languages.
pub fn build_lang_registry() -> (v: Vec<LangEntry>)
    ensures
        registry_ok(v@),
{
    let mut v: Vec<LangEntry> = Vec::new();
    v.push(lang("objectscript_routine", vec![".mac", ".inc", ".int", ".rtn"]));
    v.push(lang("objectscript_udl", vec![".cls"]));
    v.push(lang("objectscript", vec![]));
    v.push(lang("sql", vec![".sql"]));
    v.push(lang("python", vec![".py"]));
    v.push(lang("markdown", vec![".md"]));
    v.push(lang("xml", vec![".xml"]));
    v.push(lang("json", vec![".json"]));
    v.push(lang("yaml", vec![".yaml", ".yml"]));
    v.push(lang("css", vec![]));
    v.push(lang("html", vec![".html"]));
    v.push(lang("javascript", vec![".js", ".jsx", ".mjs", ".cjs"]));
    v.push(lang("jsdoc", vec![]));
    v.push(lang("regex", vec![]));
    v.push(lang("toml", vec![".toml"]));
    v.push(lang("mdx", vec![]));
    proof {
        assert forall|i: int| 0 <= i < v@.len() implies (#[trigger] v@[i]).canonical@
            == lang_registry_spec()[i].0 && str_views(v@[i].extensions@)
            == lang_registry_spec()[i].1 by {
            assert(str_views(v@[i].extensions@) =~= lang_registry_spec()[i].1);
        }
    }
    v
}

/// The attributes of a document's last parse.
pub struct DocState {
    pub grammar: Grammar,
    pub lines: Vec<String>,
    pub last_attrs: Vec<Vec<u16>>,
}

/// A document being highlighted with one grammar.
pub struct TsbundlerDoc {
    pub grammar: Grammar,
    pub state: Option<DocState>,
}

/// The library context: a highlighter, the language registry, the themes
/// that could be activated with their canonical names, and the active one.
pub struct TsbundlerCtx {
    pub highlighter: SpanHighlighter,
    pub langs: Vec<LangEntry>,
    pub themes: Vec<ActivatedTheme>,
    pub theme_names: Vec<&'static str>,
    pub active_theme: Option<usize>,
}

/// Whether `names` appear in `all` at strictly increasing positions.
pub open spec fn is_subsequence(names: Seq<Seq<char>>, all: Seq<Seq<char>>) -> bool {
    exists|pos: Seq<int>|
        #![trigger pos.len()]
        pos.len() == names.len() && (forall|j: int|
            0 <= j < pos.len() ==> 0 <= #[trigger] pos[j] < all.len() && all[pos[j]] == names[j])
            && (forall|j: int, k: int| 0 <= j < k < pos.len() ==> #[trigger] pos[j] < #[trigger] pos[k])
}

/// Whether a theme is activated under a name from the built-in data.
pub open spec fn theme_entry_ok(t: ActivatedTheme, name: &str) -> bool {
    &&& t.well_formed()
    &&& t.name@ == name@
    &&& match builtin_from_name(name@) {
        Some(b) => builtin_theme_maps(b) == Some((t.theme.styles@, t.theme.ui@)),
        None => false,
    }
}

impl TsbundlerCtx {
    /// The highlighter is usable, every theme is activated under its name
    /// from the built-in data, and the active index names a theme.
    pub open spec fn well_formed(&self) -> bool {
        &&& self.highlighter.well_formed()
        &&& self.themes@.len() == self.theme_names@.len()
        &&& forall|j: int|
            0 <= j < self.themes@.len() ==> theme_entry_ok(
                #[trigger] self.themes@[j],
                self.theme_names@[j],
            )
        &&& self.active_theme matches Some(i) ==> i < self.themes@.len()
    }

    /// Creates the context: a highlighter, the language registry, and every
    /// built-in theme that can be activated, in the order of
    /// [`available_themes`]; themes that fail to activate are skipped.
    ///
    /// Returns `None` when the highlighter cannot be created.
    pub fn new() -> (r: Option<TsbundlerCtx>)
        ensures
            r is Some <==> crate::highlighter::all_grammars_compile(),
            r matches Some(c) ==> {
                &&& c.well_formed()
                &&& c.active_theme is None
                &&& registry_ok(c.langs@)
                &&& is_subsequence(str_views(c.theme_names@), builtin_theme_names())
            },
    {
        let highlighter = match SpanHighlighter::new() {
            Ok(h) => h,
            Err(_) => {
                return None;
            },
        };
        let langs = build_lang_registry();
        let names = available_themes();
        let ghost all = builtin_theme_names();
        let mut themes: Vec<ActivatedTheme> = Vec::new();
        let mut theme_names: Vec<&'static str> = Vec::new();
        let ghost mut pos: Seq<int> = Seq::empty();
        let mut i: usize = 0;
        while i < names.len()
            invariant
                i <= names@.len(),
                str_views(names@) == all,
                all == builtin_theme_names(),
                themes@.len() == theme_names@.len(),
                pos.len() == theme_names@.len(),
                forall|j: int|
                    0 <= j < pos.len() ==> 0 <= #[trigger] pos[j] < i && all[pos[j]]
                        == theme_names@[j]@,
                forall|j: int, k: int| 0 <= j < k < pos.len() ==> #[trigger] pos[j] < #[trigger] pos[k],
                forall|j: int|
                    0 <= j < themes@.len() ==> theme_entry_ok(#[trigger] themes@[j], theme_names@[j]),
            decreases names@.len() - i,
        {
            let name = names[i];
            assert(all[i as int] == name@);
            let r = ActivatedTheme::from_name(name);
            match r {
                Ok(t) => {
                    let ghost tg = t;
                    proof {
                        assert(builtin_from_name(name@) is Some);
                        let bt = builtin_from_name(name@)->0;
                        assert(builtin_theme_maps(bt) is Some);
                        assert(builtin_theme_maps(bt) == Some((tg.theme.styles@, tg.theme.ui@)));
                        assert(tg.well_formed() && tg.name@ == name@);
                    }
                    let ghost old_themes = themes@;
                    let ghost old_names = theme_names@;
                    themes.push(t);
                    theme_names.push(name);
                    proof {
                        assert(themes@ == old_themes.push(tg));
                        assert(theme_names@ == old_names.push(name));
                        assert forall|j: int| 0 <= j < themes@.len() implies theme_entry_ok(#[trigger] themes@[j], theme_names@[j]) by {
                            if j < old_themes.len() {
                                assert(themes@[j] == old_themes[j]);
                                assert(theme_names@[j] == old_names[j]);
                            }
                        }
                        pos = pos.push(i as int);
                    }
                },
                Err(_) => {},
            }
            i = i + 1;
        }
        let c = TsbundlerCtx { highlighter, langs, themes, theme_names, active_theme: None };
        assert(str_views(c.theme_names@).len() == pos.len());
        assert(forall|j: int|
            0 <= j < pos.len() ==> str_views(c.theme_names@)[j] == c.theme_names@[j]@);
        assert(is_subsequence(str_views(c.theme_names@), builtin_theme_names()));
        Some(c)
    }

    /// Whether a language name or alias has a bundled grammar.
    pub fn supports_lang(&self, lang: &str) -> (r: bool)
        ensures
            r == grammar_from_key(alnum_lower(lang@)) is Some,
    {
        Grammar::from_name(lang).is_some()
    }

    /// Activates a theme given by name or alias.
    ///
    /// Returns the index of the activated theme.
    ///
    /// # Errors
    ///
    /// Returns [`TsbundlerError::ErrNoTheme`] for a name that is not a
    /// built-in theme or whose theme could not be activated; the context is
    /// then unchanged.
    pub fn theme_activate(&mut self, name: &str) -> (r: Result<usize, TsbundlerError>)
        requires
            old(self).well_formed(),
        ensures
            final(self).well_formed(),
            final(self).themes == old(self).themes,
            final(self).theme_names == old(self).theme_names,
            final(self).langs == old(self).langs,
            final(self).highlighter == old(self).highlighter,
            match builtin_from_name(name@) {
                None => r == Err::<usize, TsbundlerError>(TsbundlerError::ErrNoTheme)
                    && final(self).active_theme == old(self).active_theme,
                Some(t) => match r {
                    Ok(j) => j < old(self).themes@.len() && old(self).theme_names@[j as int]@
                        == builtin_theme_name(t) && (forall|k: int|
                        0 <= k < j ==> old(self).theme_names@[k]@ != builtin_theme_name(t))
                        && final(self).active_theme == Some(j),
                    Err(e) => e == TsbundlerError::ErrNoTheme && (forall|k: int|
                        0 <= k < old(self).theme_names@.len() ==> old(self).theme_names@[k]@
                            != builtin_theme_name(t)) && final(self).active_theme
                        == old(self).active_theme,
                },
            },
    {
        let canonical = match canonical_theme_name(name) {
            Some(n) => n,
            None => {
                return Err(TsbundlerError::ErrNoTheme);
            },
        };
        let mut j: usize = 0;
        while j < self.theme_names.len()
            invariant
                j <= self.theme_names@.len(),
                *self == *old(self),
                old(self).well_formed(),
                match builtin_from_name(name@) {
                    Some(t) => canonical@ == builtin_theme_name(t),
                    None => false,
                },
                forall|k: int| 0 <= k < j ==> self.theme_names@[k]@ != canonical@,
            decreases self.theme_names@.len() - j,
        {
            if str_eq(self.theme_names[j], canonical) {
                proof {
                    assert(builtin_from_name(name@) is Some);
                    assert(canonical@ == builtin_theme_name(builtin_from_name(name@)->0));
                    assert(old(self).theme_names@[j as int]@ == canonical@);
                }
                self.active_theme = Some(j);
                return Ok(j);
            }
            j = j + 1;
        }
        Err(TsbundlerError::ErrNoTheme)
    }

    /// Creates a document for a language name or alias.
    ///
    /// Returns `None` when the language has no bundled grammar.
    pub fn doc_create(&self, lang: &str) -> (r: Option<TsbundlerDoc>)
        ensures
            match grammar_from_key(alnum_lower(lang@)) {
                Some(g) => r matches Some(d) && d.grammar == g && d.state is None,
                None => r is None,
            },
    {
        match Grammar::from_name(lang) {
            Some(grammar) => Some(TsbundlerDoc { grammar, state: None }),
            None => None,
        }
    }
}

/// The lines joined with newlines.
pub fn join_string_lines(lines: &Vec<String>) -> (s: String)
    ensures
        s@ == joined_lines(lines@.map_values(|l: String| l@)),
{
    let ghost lv = lines@.map_values(|l: String| l@);
    let mut s = String::new();
    let mut i: usize = 0;
    while i < lines.len()
        invariant
            i <= lines@.len(),
            lv == lines@.map_values(|l: String| l@),
            s@ == joined_lines(lv.take(i as int)),
        decreases lines@.len() - i,
    {
        assert(lv.take(i + 1).drop_last() == lv.take(i as int));
        if i > 0 {
            push_char(&mut s, '\n');
        } else {
            assert(lv.take(0) =~= Seq::<Seq<char>>::empty());
        }
        push_str(&mut s, lines[i].as_str());
        i += 1;
    }
    assert(lv.take(lines@.len() as int) == lv);
    s
}

/// Whether `attrs` are the line attributes of `lines` drawn with `theme` from
/// some highlight result of their joined text whose spans are ordered and
/// disjoint.
pub open spec fn attrs_of_some_highlight(
    attrs: Seq<Vec<u16>>,
    theme: ActivatedTheme,
    lines: Seq<String>,
) -> bool {
    exists|h: HighlightResult|
        #![trigger attrs_after(attrs, h, theme, lines, h.spans@.len() as int)]
        disjoint_ordered(h.spans@) && attrs_after(attrs, h, theme, lines, h.spans@.len() as int)
}

/// The bytes of the lines joined with newlines.
pub open spec fn joined_string_bytes(lines: Seq<String>) -> Seq<u8> {
    vstd::utf8::encode_utf8(joined_lines(lines.map_values(|l: String| l@)))
}

/// Whether `attrs` are the line attributes of `lines` drawn with `theme` from
/// the highlight that a highlighter with injection setup `setup` and
/// attribute table `table` makes of their joined text in grammar `g`.
pub open spec fn attrs_of_highlight(
    attrs: Seq<Vec<u16>>,
    theme: ActivatedTheme,
    lines: Seq<String>,
    setup: Option<(Option<u32>, Option<u32>)>,
    table: Seq<(usize, Seq<char>)>,
    g: Grammar,
) -> bool {
    exists|h: HighlightResult|
        #![trigger attrs_after(attrs, h, theme, lines, h.spans@.len() as int)]
        highlights_as(setup, table, g, joined_string_bytes(lines), h) && attrs_after(
            attrs,
            h,
            theme,
            lines,
            h.spans@.len() as int,
        )
}

/// Whether a context step left everything but the highlighter's internals as it was.
pub open spec fn ctx_kept(before: TsbundlerCtx, after: TsbundlerCtx) -> bool {
    &&& after.well_formed()
    &&& after.themes == before.themes
    &&& after.theme_names == before.theme_names
    &&& after.active_theme == before.active_theme
    &&& after.langs == before.langs
}

impl TsbundlerDoc {
    /// The cached attributes have one row per line, at most `u32::MAX` rows,
    /// and were computed with the document's grammar.
    pub open spec fn well_formed(&self) -> bool {
        self.state matches Some(st) ==> st.last_attrs@.len() <= u32::MAX && st.last_attrs@.len()
            == st.lines@.len() && st.grammar == self.grammar
    }

    /// Highlights all of the document's lines and computes their attributes.
    fn reparse(&mut self, ctx: &mut TsbundlerCtx, lines: Vec<String>) -> (r: Result<
        Vec<Vec<u16>>,
        TsbundlerError,
    >)
        requires
            old(ctx).well_formed(),
            lines@.len() <= u32::MAX,
        ensures
            ctx_kept(*old(ctx), *final(ctx)),
            *final(self) == *old(self),
            old(ctx).active_theme is None ==> r == Err::<Vec<Vec<u16>>, TsbundlerError>(
                TsbundlerError::ErrNoTheme,
            ),
            old(ctx).active_theme is Some && !lines_fit(lines@) ==> r == Err::<
                Vec<Vec<u16>>,
                TsbundlerError,
            >(TsbundlerError::ErrInternal),
            r matches Err(e) ==> e == TsbundlerError::ErrNoTheme || e == TsbundlerError::ErrInternal,
            old(ctx).active_theme is Some && lines_fit(lines@) ==> r is Ok,
            r matches Ok(attrs) ==> (old(ctx).active_theme matches Some(i) && attrs@.len()
                == lines@.len() && attrs_of_some_highlight(attrs@, old(ctx).themes@[i as int], lines@)
                && attrs_of_highlight(
                attrs@,
                old(ctx).themes@[i as int],
                lines@,
                old(ctx).highlighter.injection_setup(old(self).grammar),
                old(ctx).highlighter.attr_table(),
                old(self).grammar,
            )),
    {
        let idx = match ctx.active_theme {
            Some(i) => i,
            None => {
                return Err(TsbundlerError::ErrNoTheme);
            },
        };
        if !lines_fit_exec(lines.as_slice()) {
            return Err(TsbundlerError::ErrInternal);
        }
        let source = join_string_lines(&lines);
        let bytes = source.as_str().as_bytes();
        assert(bytes@ == joined_string_bytes(lines@));
        let result = match ctx.highlighter.highlight(bytes, self.grammar) {
            Ok(h) => h,
            Err(_) => {
                return Err(TsbundlerError::ErrParse);
            },
        };
        assert(ctx.themes@[idx as int].well_formed() && ctx.themes@[idx as int] == old(ctx).themes@[idx as int]);
        let attrs = highlight_to_line_attrs(&result, &ctx.themes[idx], lines.as_slice());
        proof {
            assert(attrs_after(
                attrs@,
                result,
                ctx.themes@[idx as int],
                lines@,
                result.spans@.len() as int,
            ));
        }
        Ok(attrs)
    }

    /// Highlights the document's lines and stores their per-character
    /// attributes, to be handed to the editor.
    ///
    /// # Errors
    ///
    /// Returns [`TsbundlerError::ErrNoTheme`] when no theme is active,
    /// [`TsbundlerError::ErrParse`] when highlighting fails, and
    /// [`TsbundlerError::ErrInternal`] when the joined lines do not fit a
    /// `usize`; the document is then unchanged.
    pub fn parse_full(&mut self, ctx: &mut TsbundlerCtx, lines: Vec<String>) -> (r: Result<
        (),
        TsbundlerError,
    >)
        requires
            old(ctx).well_formed(),
            old(self).well_formed(),
            lines@.len() <= u32::MAX,
        ensures
            ctx_kept(*old(ctx), *final(ctx)),
            final(self).well_formed(),
            final(self).grammar == old(self).grammar,
            old(ctx).active_theme is None ==> r == Err::<(), TsbundlerError>(TsbundlerError::ErrNoTheme),
            old(ctx).active_theme is Some && !lines_fit(lines@) ==> r == Err::<(), TsbundlerError>(
                TsbundlerError::ErrInternal,
            ),
            r matches Err(e) ==> *final(self) == *old(self) && (e == TsbundlerError::ErrNoTheme || e
                == TsbundlerError::ErrInternal),
            old(ctx).active_theme is Some && lines_fit(lines@) ==> r is Ok,
            r is Ok ==> (old(ctx).active_theme matches Some(i) && final(self).state matches Some(st)
                && st.lines@ == lines@ && attrs_of_some_highlight(
                st.last_attrs@,
                old(ctx).themes@[i as int],
                lines@,
            ) && attrs_of_highlight(
                st.last_attrs@,
                old(ctx).themes@[i as int],
                lines@,
                old(ctx).highlighter.injection_setup(old(self).grammar),
                old(ctx).highlighter.attr_table(),
                old(self).grammar,
            )),
    {
        let attrs = match self.reparse(ctx, lines.clone()) {
            Ok(a) => a,
            Err(e) => {
                return Err(e);
            },
        };
        self.state = Some(DocState { grammar: self.grammar, lines, last_attrs: attrs });
        Ok(())
    }

    /// Re-highlights the edited document, stores the new attributes, and
    /// returns the maximal runs of rows whose attributes changed since the
    /// last parse, or `None` when there was no earlier parse.
    ///
    /// # Errors
    ///
    /// The errors of [`TsbundlerDoc::parse_full`]; the document is then unchanged.
    pub fn edit(&mut self, ctx: &mut TsbundlerCtx, lines: Vec<String>) -> (r: Result<
        Option<Vec<(u32, u32)>>,
        TsbundlerError,
    >)
        requires
            old(ctx).well_formed(),
            old(self).well_formed(),
            lines@.len() <= u32::MAX,
        ensures
            ctx_kept(*old(ctx), *final(ctx)),
            final(self).well_formed(),
            final(self).grammar == old(self).grammar,
            old(ctx).active_theme is None ==> r == Err::<Option<Vec<(u32, u32)>>, TsbundlerError>(
                TsbundlerError::ErrNoTheme,
            ),
            old(ctx).active_theme is Some && !lines_fit(lines@) ==> r == Err::<
                Option<Vec<(u32, u32)>>,
                TsbundlerError,
            >(TsbundlerError::ErrInternal),
            r matches Err(e) ==> *final(self) == *old(self) && (e == TsbundlerError::ErrNoTheme || e
                == TsbundlerError::ErrInternal),
            old(ctx).active_theme is Some && lines_fit(lines@) ==> r is Ok,
            r matches Ok(changed) ==> (old(ctx).active_theme matches Some(i) && final(self).state matches Some(
                st,
            ) && st.lines@ == lines@ && attrs_of_some_highlight(
                st.last_attrs@,
                old(ctx).themes@[i as int],
                lines@,
            ) && attrs_of_highlight(
                st.last_attrs@,
                old(ctx).themes@[i as int],
                lines@,
                old(ctx).highlighter.injection_setup(old(self).grammar),
                old(ctx).highlighter.attr_table(),
                old(self).grammar,
            ) && match old(self).state {
                Some(prev) => changed matches Some(ranges) && changed_runs(
                    prev.last_attrs@,
                    st.last_attrs@,
                    ranges@,
                ),
                None => changed is None,
            }),
    {
        let attrs = match self.reparse(ctx, lines.clone()) {
            Ok(a) => a,
            Err(e) => {
                return Err(e);
            },
        };
        let changed = match &self.state {
            Some(prev) => Some(changed_line_ranges(&prev.last_attrs, &attrs)),
            None => None,
        };
        self.state = Some(DocState { grammar: self.grammar, lines, last_attrs: attrs });
        Ok(changed)
    }
}

} // verus!
