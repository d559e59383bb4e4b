//! Range rendering for a line-oriented terminal: highlight a whole line once,
//! then render any window of it with the spans clipped to the window.
use crate::grammar::Grammar;
use crate::highlighter::{highlights_as, SpanHighlighter};
use crate::spans::HighlightResult;
use crate::pipeline::{styled_for_source, usable_highlight};
use crate::render::{
    lemma_valid_spans_ordered, render_ansi_with_mode_and_background, render_window, span_ok,
    spans_valid, StyledSpan,
};
use crate::resolve::resolve_styled_spans_for_source;
use crate::sgr::ColorMode;
use crate::text::push_str;
use crate::theme::{builtin_theme_maps, BuiltinTheme, Theme};
use vstd::prelude::*;

verus! {

/// The grammar of a language tag: `1` SQL, `2` Python, `3` MDX, and
/// ObjectScript for any other tag.
pub open spec fn recall_grammar_spec(tag: i32) -> Grammar {
    if tag == 1 {
        Grammar::Sql
    } else if tag == 2 {
        Grammar::Python
    } else if tag == 3 {
        Grammar::Mdx
    } else {
        Grammar::ObjectScript
    }
}

/// The grammar of a language tag.
pub fn recall_grammar(tag: i32) -> (g: Grammar)
    ensures
        g == recall_grammar_spec(tag),
{
    match tag {
        1 => Grammar::Sql,
        2 => Grammar::Python,
        3 => Grammar::Mdx,
        _ => Grammar::ObjectScript,
    }
}

/// A byte offset moved into the window that starts at `start` and is `n`
/// bytes long, clamped to the window.
pub open spec fn window_offset(x: int, start: int, n: int) -> int {
    let d = if x >= start {
        x - start
    } else {
        0
    };
    if d < n {
        d
    } else {
        n
    }
}

/// A styled span moved into a window.
pub open spec fn clip_span(s: StyledSpan, start: int, n: int) -> StyledSpan {
    StyledSpan {
        start_byte: window_offset(s.start_byte as int, start, n) as usize,
        end_byte: window_offset(s.end_byte as int, start, n) as usize,
        style: s.style,
    }
}

/// Whether a span keeps a non-empty part in the window.
pub open spec fn clip_keeps(s: StyledSpan, start: int, n: int) -> bool {
    &&& s.end_byte > start
    &&& s.start_byte < start + n
    &&& clip_span(s, start, n).start_byte < clip_span(s, start, n).end_byte
}

/// The spans that overlap the window `[start, start + n)`, moved into it and
/// clamped to it, empty parts dropped, in order.
pub open spec fn clipped_spans(spans: Seq<StyledSpan>, start: int, n: int) -> Seq<StyledSpan>
    decreases spans.len(),
{
    if spans.len() == 0 {
        Seq::empty()
    } else {
        let rest = clipped_spans(spans.drop_last(), start, n);
        if clip_keeps(spans.last(), start, n) {
            rest.push(clip_span(spans.last(), start, n))
        } else {
            rest
        }
    }
}

proof fn lemma_window_offset_mono(x: int, y: int, start: int, n: int)
    requires
        x <= y,
        0 <= n,
    ensures
        window_offset(x, start, n) <= window_offset(y, start, n),
        0 <= window_offset(y, start, n) <= n,
{
}

/// Clipping spans that are valid for a source gives spans that are valid
/// for the window.
pub proof fn lemma_clipped_valid(spans: Seq<StyledSpan>, len: int, start: int, n: int)
    requires
        spans_valid(spans, len),
        0 <= start,
        0 <= n,
        start + n <= len,
        len <= usize::MAX,
    ensures
        spans_valid(clipped_spans(spans, start, n), n),
        clipped_spans(spans, start, n).len() > 0 ==> exists|i: int|
            0 <= i < spans.len() && clipped_spans(spans, start, n).last().end_byte == window_offset(
                #[trigger] spans[i].end_byte as int,
                start,
                n,
            ),
    decreases spans.len(),
{
    if spans.len() > 0 {
        let init = spans.drop_last();
        assert(spans_valid(init, len)) by {
            assert forall|i: int| 0 <= i < init.len() implies #[trigger] span_ok(init, len, i) by {
                assert(span_ok(spans, len, i));
            }
        }
        lemma_clipped_valid(init, len, start, n);
        let rest = clipped_spans(init, start, n);
        let last = spans.last();
        assert(span_ok(spans, len, spans.len() - 1));
        if clip_keeps(last, start, n) {
            let c = clip_span(last, start, n);
            let out = rest.push(c);
            lemma_window_offset_mono(last.start_byte as int, last.end_byte as int, start, n);
            if rest.len() > 0 {
                let i = choose|i: int|
                    0 <= i < init.len() && rest.last().end_byte == window_offset(
                        #[trigger] init[i].end_byte as int,
                        start,
                        n,
                    );
                assert(init[i] == spans[i]);
                lemma_valid_spans_ordered(spans, len, i, spans.len() - 1);
                lemma_window_offset_mono(
                    spans[i].end_byte as int,
                    last.start_byte as int,
                    start,
                    n,
                );
            }
            assert forall|k: int| 0 <= k < out.len() implies #[trigger] span_ok(out, n, k) by {
                if k < rest.len() {
                    assert(span_ok(rest, n, k));
                    assert(out[k] == rest[k]);
                    if k > 0 {
                        assert(out[k - 1] == rest[k - 1]);
                    }
                } else {
                    assert(out[k] == c);
                    if k > 0 {
                        assert(out[k - 1] == rest.last());
                    }
                }
            }
            assert(out.last().end_byte == window_offset(
                spans[spans.len() - 1].end_byte as int,
                start,
                n,
            ));
        } else if rest.len() > 0 {
            let i = choose|i: int|
                0 <= i < init.len() && rest.last().end_byte == window_offset(
                    #[trigger] init[i].end_byte as int,
                    start,
                    n,
                );
            assert(init[i] == spans[i]);
        }
    }
}

/// Moves the spans that overlap the window `[start, start + n)` into it.
pub fn clip_spans_to_range(spans: &[StyledSpan], start: usize, n: usize) -> (out: Vec<StyledSpan>)
    requires
        start + n <= usize::MAX,
    ensures
        out@ == clipped_spans(spans@, start as int, n as int),
{
    let end = start + n;
    let mut out: Vec<StyledSpan> = Vec::new();
    let mut i: usize = 0;
    while i < spans.len()
        invariant
            i <= spans@.len(),
            end == start + n,
            out@ == clipped_spans(spans@.take(i as int), start as int, n as int),
        decreases spans@.len() - i,
    {
        let s = spans[i];
        assert(spans@.take(i + 1).drop_last() == spans@.take(i as int));
        assert(spans@.take(i + 1).last() == s);
        if s.end_byte > start && s.start_byte < end {
            let a = if s.start_byte >= start {
                s.start_byte - start
            } else {
                0
            };
            let b = if s.end_byte >= start {
                s.end_byte - start
            } else {
                0
            };
            let cs = if a < n {
                a
            } else {
                n
            };
            let ce = if b < n {
                b
            } else {
                n
            };
            if cs < ce {
                out.push(StyledSpan { start_byte: cs, end_byte: ce, style: s.style });
            }
        }
        i = i + 1;
    }
    assert(spans@.take(i as int) == spans@);
    out
}

/// The text after a rendered window: the rendering followed by an SGR reset,
/// or nothing when the rendering is empty.
pub open spec fn with_reset(rendered: Seq<char>) -> Seq<char> {
    if rendered.len() == 0 {
        rendered
    } else {
        rendered + "\x1b[0m"@
    }
}

/// Whether `spans` are the styled spans, with `theme`, of the highlight that a
/// highlighter with injection setup `setup` and attribute table `table` makes
/// of `line` in the grammar of `tag`.
pub open spec fn cached_from_highlight(
    spans: Seq<StyledSpan>,
    line: Seq<u8>,
    tag: i32,
    setup: Option<(Option<u32>, Option<u32>)>,
    table: Seq<(usize, Seq<char>)>,
    theme: Theme,
) -> bool {
    exists|h: HighlightResult|
        #![trigger styled_for_source(line.len() as int, h, theme)]
        highlights_as(setup, table, recall_grammar_spec(tag), line, h) && spans == styled_for_source(
            line.len() as int,
            h,
            theme,
        )
}

/// A highlighter, a theme, and the styled spans of the last line rendered.
pub struct RecallShim {
    highlighter: SpanHighlighter,
    theme: Theme,
    cached_line: Vec<u8>,
    cached_spans: Vec<StyledSpan>,
    cached_lang: i32,
}

impl RecallShim {
    /// The theme the lines are styled with.
    pub closed spec fn theme_spec(&self) -> Theme {
        self.theme
    }

    /// The line whose spans are cached.
    pub closed spec fn line_spec(&self) -> Seq<u8> {
        self.cached_line@
    }

    /// The styled spans of the cached line.
    pub closed spec fn spans_spec(&self) -> Seq<StyledSpan> {
        self.cached_spans@
    }

    /// The language tag of the cached line.
    pub closed spec fn lang_spec(&self) -> i32 {
        self.cached_lang
    }

    /// The injection setup of the shim's highlighter for a grammar.
    pub closed spec fn setup_spec(&self, g: Grammar) -> Option<(Option<u32>, Option<u32>)> {
        self.highlighter.injection_setup(g)
    }

    /// The attribute table of the shim's highlighter.
    pub closed spec fn table_spec(&self) -> Seq<(usize, Seq<char>)> {
        self.highlighter.attr_table()
    }

    /// The highlighter is usable, and a non-empty cached line has the styled
    /// spans of what the highlighter makes of it in the grammar of its tag.
    pub closed spec fn well_formed(&self) -> bool {
        &&& self.highlighter.well_formed()
        &&& self.cached_line@.len() > 0 ==> cached_from_highlight(
            self.cached_spans@,
            self.cached_line@,
            self.cached_lang,
            self.highlighter.injection_setup(recall_grammar_spec(self.cached_lang)),
            self.highlighter.attr_table(),
            self.theme,
        )
    }

    /// Creates the renderer with the `tokyonight-dark` theme and no cached line.
    pub fn new() -> (r: Option<RecallShim>)
        ensures
            r is Some <==> crate::highlighter::all_grammars_compile(),
            r matches Some(s) ==> {
                &&& s.well_formed()
                &&& builtin_theme_maps(BuiltinTheme::TokyoNightDark) == Some(
                    (s.theme_spec().styles@, s.theme_spec().ui@),
                )
                &&& s.line_spec().len() == 0
                &&& s.lang_spec() == -1
            },
    {
        let highlighter = match SpanHighlighter::new() {
            Ok(h) => h,
            Err(_) => {
                return None;
            },
        };
        let theme = match Theme::from_builtin(BuiltinTheme::TokyoNightDark) {
            Ok(t) => t,
            Err(_) => {
                return None;
            },
        };
        Some(
            RecallShim {
                highlighter,
                theme,
                cached_line: Vec::new(),
                cached_spans: Vec::new(),
                cached_lang: -1,
            },
        )
    }

    /// Renders the window `[start, start + n)` of a line in truecolor, with
    /// an SGR reset after a non-empty rendering.
    ///
    /// The line is highlighted with the grammar of `lang_tag` and styled with
    /// the theme, unless it is the cached line with the same tag, whose spans
    /// are reused. Returns `None` for an empty line or window, a window past
    /// the end of the line, or when highlighting, resolving or rendering fails.
    pub fn render_range(&mut self, line: &[u8], start: usize, n: usize, lang_tag: i32) -> (r: Option<
        String,
    >)
        requires
            old(self).well_formed(),
        ensures
            final(self).well_formed(),
            final(self).theme_spec() == old(self).theme_spec(),
            line@.len() == 0 || n == 0 || start > line@.len() || n > line@.len() - start ==> (r is None
                && *final(self) == *old(self)),
            line@.len() > 0 && n > 0 && start <= line@.len() && n <= line@.len() - start
                && old(self).line_spec() == line@ && old(self).lang_spec() == lang_tag ==> {
                &&& *final(self) == *old(self)
                &&& r is Some <==> spans_valid(clipped_spans(old(self).spans_spec(), start as int, n as int), n as int)
            },
            line@.len() > 0 && n > 0 && start <= line@.len() && n <= line@.len() - start ==> {
                &&& final(self).line_spec() == line@
                &&& final(self).lang_spec() == lang_tag
                &&& final(self).setup_spec(recall_grammar_spec(lang_tag)) == old(self).setup_spec(
                    recall_grammar_spec(lang_tag),
                )
                &&& final(self).table_spec() == old(self).table_spec()
                &&& cached_from_highlight(
                    final(self).spans_spec(),
                    line@,
                    lang_tag,
                    old(self).setup_spec(recall_grammar_spec(lang_tag)),
                    old(self).table_spec(),
                    old(self).theme_spec(),
                )
                &&& r is Some <==> spans_valid(
                    clipped_spans(final(self).spans_spec(), start as int, n as int),
                    n as int,
                )
            },
            r matches Some(out) ==> {
                let clipped = clipped_spans(final(self).spans_spec(), start as int, n as int);
                &&& final(self).line_spec() == line@
                &&& final(self).lang_spec() == lang_tag
                &&& (old(self).line_spec() == line@ && old(self).lang_spec() == lang_tag)
                    ==> final(self).spans_spec() == old(self).spans_spec()
                &&& spans_valid(clipped, n as int)
                &&& out@ == with_reset(
                    render_window(
                        line@.subrange(start as int, start + n),
                        clipped,
                        0,
                        n as int,
                        ColorMode::TrueColor,
                        false,
                    ),
                )
            },
    {
        if line.len() == 0 || n == 0 || start > line.len() || n > line.len() - start {
            return None;
        }
        let hit = self.cached_lang == lang_tag && bytes_equal(self.cached_line.as_slice(), line);
        if !hit {
            let grammar = recall_grammar(lang_tag);
            let highlight = match self.highlighter.highlight(line, grammar) {
                Ok(h) => h,
                Err(_) => {
                    return None;
                },
            };
            let styled = match resolve_styled_spans_for_source(line.len(), &highlight, &self.theme) {
                Ok(v) => v,
                Err(_) => {
                    return None;
                },
            };
            proof {
                assert(usable_highlight(highlight));
                assert(styled@ == styled_for_source(line@.len() as int, highlight, self.theme));
            }
            self.cached_line = vstd::slice::slice_to_vec(line);
            self.cached_spans = styled;
            self.cached_lang = lang_tag;
            proof {
                assert(self.cached_spans@ == styled_for_source(
                    self.cached_line@.len() as int,
                    highlight,
                    self.theme,
                ));
                assert(self.highlighter.injection_setup(grammar) == old(self).highlighter.injection_setup(grammar));
                assert(cached_from_highlight(
                    self.cached_spans@,
                    self.cached_line@,
                    self.cached_lang,
                    self.highlighter.injection_setup(recall_grammar_spec(self.cached_lang)),
                    self.highlighter.attr_table(),
                    self.theme,
                ));
            }
        }
        let end = start + n;
        let sub_source = vstd::slice::slice_subrange(line, start, end);
        let sub_spans = clip_spans_to_range(self.cached_spans.as_slice(), start, n);
        let mut rendered = match render_ansi_with_mode_and_background(
            sub_source,
            sub_spans.as_slice(),
            ColorMode::TrueColor,
            false,
        ) {
            Ok(s) => s,
            Err(_) => {
                return None;
            },
        };
        if rendered.as_str().is_empty() {
            return Some(rendered);
        }
        push_str(&mut rendered, "\x1b[0m");
        Some(rendered)
    }
}

fn bytes_equal(a: &[u8], b: &[u8]) -> (r: bool)
    ensures
        r == (a@ == b@),
{
    if a.len() != b.len() {
        return false;
    }
    let mut i: usize = 0;
    while i < a.len()
        invariant
            i <= a@.len() == b@.len(),
            a@.take(i as int) == b@.take(i as int),
        decreases a@.len() - i,
    {
        if a[i] != b[i] {
            return false;
        }
        assert(a@.take(i + 1) == a@.take(i as int).push(a@[i as int]));
        assert(b@.take(i + 1) == b@.take(i as int).push(b@[i as int]));
        i = i + 1;
    }
    assert(a@.take(i as int) == a@);
    assert(b@.take(i as int) == b@);
    true
}

} // verus!
