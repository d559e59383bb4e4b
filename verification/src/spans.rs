//! Highlight results: capture attributes and byte spans, and the algebra on them.
use crate::grammar::Grammar;
use crate::resolve::attr_ids_valid;
use crate::text::{chars_of, push_char, push_str, str_eq, string_from_chars};
use vstd::prelude::*;

verus! {

/// A highlighted byte range `[start_byte, end_byte)` carrying attribute `attr_id`.
#[derive(Debug, Clone, Copy, PartialEq, Eq, Structural)]
pub struct Span {
    pub attr_id: usize,
    pub start_byte: usize,
    pub end_byte: usize,
}

/// A capture attribute: its id and capture name.
#[derive(Debug)]
pub struct Attr {
    pub id: usize,
    pub capture_name: String,
}

impl Clone for Attr {
    fn clone(&self) -> (a: Self)
        ensures
            a.id == self.id,
            a.capture_name@ == self.capture_name@,
    {
        Attr { id: self.id, capture_name: self.capture_name.clone() }
    }
}

/// Copies an attribute table.
pub fn clone_attrs(attrs: &Vec<Attr>) -> (out: Vec<Attr>)
    ensures
        attrs_view(out@) == attrs_view(attrs@),
{
    let mut out: Vec<Attr> = Vec::new();
    let mut i: usize = 0;
    while i < attrs.len()
        invariant
            i <= attrs@.len(),
            attrs_view(out@) == attrs_view(attrs@.take(i as int)),
        decreases attrs@.len() - i,
    {
        let a = attrs[i].clone();
        let ghost before = attrs_view(out@);
        let ghost av = (a.id, a.capture_name@);
        out.push(a);
        assert(attrs_view(out@) =~= before.push(av));
        assert(attrs_view(attrs@.take(i + 1)) =~= attrs_view(attrs@.take(i as int)).push(av));
        i += 1;
    }
    assert(attrs@.take(attrs@.len() as int) == attrs@);
    out
}

/// The attributes and spans produced by highlighting.
#[derive(Debug, Clone)]
pub struct HighlightResult {
    pub attrs: Vec<Attr>,
    pub spans: Vec<Span>,
}

/// A region of a source to be highlighted with another grammar.
#[derive(Debug, Clone, Copy, PartialEq, Eq, Structural)]
pub struct InjectionRegion {
    pub grammar: Grammar,
    pub start_byte: usize,
    pub end_byte: usize,
}

impl Attr {
    /// Returns the theme lookup key for this capture (for example `"@keyword"`).
    pub fn theme_key(&self) -> (k: String)
        ensures
            k@ == seq!['@'] + self.capture_name@,
    {
        let mut k = String::new();
        push_char(&mut k, '@');
        push_str(&mut k, self.capture_name.as_str());
        k
    }
}

/// Errors of highlighting.
#[derive(Debug)]
pub enum HighlightError {
    /// A highlight or injection query did not compile.
    Query(tree_sitter::QueryError),
    /// The parser rejected a grammar's language.
    Language(tree_sitter::LanguageError),
    /// Parsing the source failed.
    Parse,
}

/// A query compilation error of `tree_sitter`.
#[verifier::external_type_specification]
#[verifier::external_body]
pub struct ExQueryError(tree_sitter::QueryError);

/// A language configuration error of `tree_sitter`.
#[verifier::external_type_specification]
#[verifier::external_body]
pub struct ExLanguageError(tree_sitter::LanguageError);

/// The number of non-empty `.`-separated segments of a capture name.
pub open spec fn segment_count(s: Seq<char>) -> int
    decreases s.len(),
{
    if s.len() == 0 {
        0
    } else {
        let starts_segment = s.last() != '.' && (s.len() == 1 || s[s.len() - 2] == '.');
        segment_count(s.drop_last()) + if starts_segment {
            1int
        } else {
            0int
        }
    }
}

/// Computes a simple specificity score for a capture name.
///
/// More dotted segments means more specific (for example
/// `string.special.key` > `string.special` > `string`).
pub fn capture_specificity(capture_name: &str) -> (n: usize)
    ensures
        n as int == segment_count(capture_name@),
{
    let v = chars_of(capture_name);
    let mut count: usize = 0;
    let mut i: usize = 0;
    while i < v.len()
        invariant
            i <= v@.len(),
            v@ == capture_name@,
            count as int == segment_count(v@.take(i as int)),
            count <= i,
        decreases v@.len() - i,
    {
        assert(v@.take(i + 1).drop_last() == v@.take(i as int));
        if v[i] != '.' && (i == 0 || v[i - 1] == '.') {
            count += 1;
        }
        i += 1;
    }
    assert(v@.take(v@.len() as int) == v@);
    count
}

/// `s` without its leading `@` characters.
pub open spec fn strip_ats(s: Seq<char>) -> Seq<char>
    decreases s.len(),
{
    if s.len() > 0 && s[0] == '@' {
        strip_ats(s.drop_first())
    } else {
        s
    }
}

/// The precedence bucket of a capture: `0` for spell-check annotations, `1` otherwise.
pub open spec fn render_priority(name: Seq<char>) -> int {
    let k = strip_ats(name);
    if k == "spell"@ || k == "nospell"@ {
        0
    } else {
        1
    }
}

/// Returns a precedence bucket for choosing the visible capture.
///
/// Tree-sitter uses auxiliary captures like `spell` and `nospell` to annotate
/// spell-check behavior. They should not override semantic syntax coloring when
/// both are active on the same bytes.
pub fn capture_render_priority(capture_name: &str) -> (p: usize)
    ensures
        p as int == render_priority(capture_name@),
{
    let v = chars_of(capture_name);
    let mut i: usize = 0;
    assert(v@.subrange(0, v@.len() as int) == v@);
    while i < v.len() && v[i] == '@'
        invariant
            i <= v@.len(),
            v@ == capture_name@,
            strip_ats(v@) == strip_ats(v@.subrange(i as int, v@.len() as int)),
        decreases v@.len() - i,
    {
        assert(v@.subrange(i as int, v@.len() as int).drop_first() == v@.subrange(i + 1, v@.len() as int));
        i += 1;
    }
    let rest = string_from_chars(&v, i, v.len(), false);
    if str_eq(rest.as_str(), "spell") || str_eq(rest.as_str(), "nospell") {
        0
    } else {
        1
    }
}

/// `spans` after pushing `next`: nothing for an empty span; the last span
/// extended when it has the same attribute and ends where `next` starts;
/// otherwise `next` appended.
pub open spec fn merged_push(spans: Seq<Span>, next: Span) -> Seq<Span> {
    if next.start_byte >= next.end_byte {
        spans
    } else if spans.len() > 0 && spans.last().attr_id == next.attr_id && spans.last().end_byte
        == next.start_byte {
        spans.update(spans.len() - 1, Span { end_byte: next.end_byte, ..spans.last() })
    } else {
        spans.push(next)
    }
}

/// Pushes a span into `spans`, merging with the previous span when adjacent and
/// sharing the same attribute id.
pub fn push_merged(spans: &mut Vec<Span>, next: Span)
    ensures
        final(spans)@ == merged_push(old(spans)@, next),
{
    if next.start_byte >= next.end_byte {
        return ;
    }
    let n = spans.len();
    if n > 0 {
        let last = spans[n - 1];
        if last.attr_id == next.attr_id && last.end_byte == next.start_byte {
            spans.set(n - 1, Span { attr_id: last.attr_id, start_byte: last.start_byte, end_byte: next.end_byte });
            return ;
        }
    }
    spans.push(next);
}

/// `out` after pushing each of `pieces` in order with merging.
pub open spec fn push_all(out: Seq<Span>, pieces: Seq<Span>) -> Seq<Span>
    decreases pieces.len(),
{
    if pieces.len() == 0 {
        out
    } else {
        merged_push(push_all(out, pieces.drop_last()), pieces.last())
    }
}

/// Pushing two lists of pieces one after the other is pushing their concatenation.
pub proof fn lemma_push_all_concat(out: Seq<Span>, a: Seq<Span>, b: Seq<Span>)
    ensures
        push_all(push_all(out, a), b) == push_all(out, a + b),
    decreases b.len(),
{
    if b.len() > 0 {
        lemma_push_all_concat(out, a, b.drop_last());
        assert((a + b).drop_last() == a + b.drop_last());
        assert((a + b).last() == b.last());
    } else {
        assert(a + b == a);
    }
}

/// Pushing one piece is a merged push.
pub proof fn lemma_push_all_one(out: Seq<Span>, x: Span)
    ensures
        push_all(out, seq![x]) == merged_push(out, x),
        push_all(out, Seq::<Span>::empty()) == out,
{
    let one = seq![x];
    assert(one.drop_last() =~= Seq::<Span>::empty());
    assert(one.last() == x);
    assert(push_all(out, one.drop_last()) == out);
}

/// The first range index from `r` on whose range ends after byte `start`.
pub open spec fn skip_ranges(ranges: Seq<(usize, usize)>, r: int, start: int) -> int
    decreases ranges.len() - r,
{
    if 0 <= r < ranges.len() && ranges[r].1 <= start {
        skip_ranges(ranges, r + 1, start)
    } else {
        r
    }
}

/// The rest of a span from `cursor`, when not empty.
pub open spec fn tail_piece(span: Span, cursor: int) -> Seq<Span> {
    if cursor < span.end_byte {
        seq![Span { attr_id: span.attr_id, start_byte: cursor as usize, end_byte: span.end_byte }]
    } else {
        seq![]
    }
}

/// The pieces of a span from `cursor` on that lie outside the ranges from
/// index `idx` on: ranges that end at or before the cursor are passed, a range
/// that starts at or after the span's end stops the walk.
pub open spec fn cut_pieces(span: Span, ranges: Seq<(usize, usize)>, idx: int, cursor: int) -> Seq<Span>
    decreases ranges.len() - idx,
{
    if idx < 0 || idx >= ranges.len() {
        tail_piece(span, cursor)
    } else {
        let rs = ranges[idx].0 as int;
        let re = ranges[idx].1 as int;
        if rs >= span.end_byte {
            tail_piece(span, cursor)
        } else if re <= cursor {
            cut_pieces(span, ranges, idx + 1, cursor)
        } else {
            let stop = if rs < span.end_byte {
                rs
            } else {
                span.end_byte as int
            };
            let pre = if cursor < rs {
                seq![Span { attr_id: span.attr_id, start_byte: cursor as usize, end_byte: stop as usize }]
            } else {
                seq![]
            };
            if re >= span.end_byte {
                pre
            } else {
                pre + cut_pieces(span, ranges, idx + 1, re)
            }
        }
    }
}

/// The output after the first `k` spans, and the range index reached.
pub open spec fn exclude_state(spans: Seq<Span>, ranges: Seq<(usize, usize)>, k: int) -> (
    Seq<Span>,
    int,
)
    decreases k,
{
    if k <= 0 {
        (seq![], 0)
    } else {
        let p = exclude_state(spans, ranges, k - 1);
        let s = spans[k - 1];
        let r = skip_ranges(ranges, p.1, s.start_byte as int);
        (push_all(p.0, cut_pieces(s, ranges, r, s.start_byte as int)), r)
    }
}

/// The spans with the byte ranges removed, split and merged as needed.
pub open spec fn excluded(spans: Seq<Span>, ranges: Seq<(usize, usize)>) -> Seq<Span> {
    if ranges.len() == 0 {
        spans
    } else {
        exclude_state(spans, ranges, spans.len() as int).0
    }
}

/// Removes byte `ranges` from `spans`, splitting spans as needed.
pub fn exclude_ranges(spans: &[Span], ranges: &[(usize, usize)]) -> (out: Vec<Span>)
    ensures
        out@ == excluded(spans@, ranges@),
{
    if ranges.len() == 0 {
        let mut copy: Vec<Span> = Vec::new();
        let mut i: usize = 0;
        while i < spans.len()
            invariant
                i <= spans@.len(),
                copy@ == spans@.take(i as int),
            decreases spans@.len() - i,
        {
            copy.push(spans[i]);
            assert(copy@ =~= spans@.take(i + 1));
            i += 1;
        }
        assert(spans@.take(spans@.len() as int) == spans@);
        return copy;
    }
    let mut out: Vec<Span> = Vec::new();
    let mut range_idx: usize = 0;
    let mut k: usize = 0;
    while k < spans.len()
        invariant
            k <= spans@.len(),
            range_idx <= ranges@.len(),
            out@ == exclude_state(spans@, ranges@, k as int).0,
            range_idx as int == exclude_state(spans@, ranges@, k as int).1,
        decreases spans@.len() - k,
    {
        let span = spans[k];
        let ghost o0 = out@;
        while range_idx < ranges.len() && ranges[range_idx].1 <= span.start_byte
            invariant
                range_idx <= ranges@.len(),
                skip_ranges(ranges@, range_idx as int, span.start_byte as int) == skip_ranges(
                    ranges@,
                    exclude_state(spans@, ranges@, k as int).1,
                    span.start_byte as int,
                ),
            decreases ranges@.len() - range_idx,
        {
            range_idx += 1;
        }
        let ghost total = push_all(o0, cut_pieces(span, ranges@, range_idx as int, span.start_byte as int));
        let mut cursor: usize = span.start_byte;
        let mut idx: usize = range_idx;
        while idx < ranges.len()
            invariant_except_break
                push_all(out@, cut_pieces(span, ranges@, idx as int, cursor as int)) == total,
            invariant
                range_idx <= idx <= ranges@.len(),
            ensures
                push_all(out@, tail_piece(span, cursor as int)) == total,
            decreases ranges@.len() - idx,
        {
            let (range_start, range_end) = ranges[idx];
            if range_start >= span.end_byte {
                break;
            }
            if range_end <= cursor {
                idx += 1;
                continue;
            }
            let ghost before = out@;
            let stop = if range_start < span.end_byte {
                range_start
            } else {
                span.end_byte
            };
            let ghost pre = if (cursor as int) < range_start {
                seq![Span { attr_id: span.attr_id, start_byte: cursor, end_byte: stop }]
            } else {
                Seq::<Span>::empty()
            };
            proof {
                lemma_push_all_one(before, Span { attr_id: span.attr_id, start_byte: cursor, end_byte: stop });
            }
            if cursor < range_start {
                push_merged(&mut out, Span { attr_id: span.attr_id, start_byte: cursor, end_byte: stop });
            }
            assert(out@ == push_all(before, pre));
            if range_end >= span.end_byte {
                assert(tail_piece(span, span.end_byte as int) =~= Seq::<Span>::empty());
                cursor = span.end_byte;
                break;
            }
            proof {
                lemma_push_all_concat(before, pre, cut_pieces(span, ranges@, idx + 1, range_end as int));
            }
            cursor = range_end;
            idx += 1;
        }
        let ghost o1 = out@;
        proof {
            lemma_push_all_one(o1, Span { attr_id: span.attr_id, start_byte: cursor, end_byte: span.end_byte });
        }
        if cursor < span.end_byte {
            push_merged(&mut out, Span { attr_id: span.attr_id, start_byte: cursor, end_byte: span.end_byte });
        }
        assert(out@ == push_all(o1, tail_piece(span, cursor as int)));
        k += 1;
    }
    out
}

/// Span order: by start, then end, then attribute.
pub open spec fn span_le(a: Span, b: Span) -> bool {
    a.start_byte < b.start_byte || (a.start_byte == b.start_byte && (a.end_byte < b.end_byte || (
    a.end_byte == b.end_byte && a.attr_id <= b.attr_id)))
}

/// Whether `t` holds the spans of `s` in span order.
pub open spec fn sorted_permutation_of(t: Seq<Span>, s: Seq<Span>) -> bool {
    &&& t.to_multiset() == s.to_multiset()
    &&& forall|i: int, j: int| 0 <= i < j < t.len() ==> span_le(#[trigger] t[i], #[trigger] t[j])
}

/// Whether `a` sorts before or with `b` (by start, end, attribute).
fn span_leq(a: Span, b: Span) -> (r: bool)
    ensures
        r == span_le(a, b),
{
    a.start_byte < b.start_byte || (a.start_byte == b.start_byte && (a.end_byte < b.end_byte || (
    a.end_byte == b.end_byte && a.attr_id <= b.attr_id)))
}

/// Sorts spans by start, end and attribute.
pub fn sort_spans(spans: &Vec<Span>) -> (out: Vec<Span>)
    ensures
        sorted_permutation_of(out@, spans@),
{
    let mut out: Vec<Span> = Vec::new();
    let mut i: usize = 0;
    assert(out@ =~= spans@.take(0));
    while i < spans.len()
        invariant
            i <= spans@.len(),
            out@.to_multiset() == spans@.take(i as int).to_multiset(),
            forall|a: int, b: int| 0 <= a < b < out@.len() ==> span_le(#[trigger] out@[a], #[trigger] out@[b]),
        decreases spans@.len() - i,
    {
        let x = spans[i];
        let mut p: usize = 0;
        while p < out.len() && span_leq(out[p], x)
            invariant
                p <= out@.len(),
                forall|a: int| 0 <= a < p ==> span_le(#[trigger] out@[a], x),
            decreases out@.len() - p,
        {
            p += 1;
        }
        let ghost before = out@;
        out.insert(p, x);
        proof {
            assert(spans@.take(i + 1) == spans@.take(i as int).push(x));
            assert(out@ == before.insert(p as int, x));
            vstd::seq_lib::to_multiset_insert(before, p as int, x);
            vstd::seq_lib::to_multiset_build(spans@.take(i as int), x);
            assert forall|a: int, b: int| 0 <= a < b < out@.len() implies span_le(#[trigger] out@[a], #[trigger] out@[b]) by {
                if b < p {
                    assert(out@[a] == before[a] && out@[b] == before[b]);
                } else if b == p {
                    assert(out@[a] == before[a]);
                } else if a < p {
                    assert(out@[a] == before[a] && out@[b] == before[b - 1]);
                    assert(!span_le(before[p as int], x));
                    assert(span_le(before[a], x));
                    if b - 1 > p {
                        assert(span_le(before[p as int], before[b - 1]));
                    }
                } else if a == p {
                    assert(out@[b] == before[b - 1]);
                    assert(!span_le(before[p as int], x));
                    if b - 1 > p {
                        assert(span_le(before[p as int], before[b - 1]));
                    }
                } else {
                    assert(out@[a] == before[a - 1] && out@[b] == before[b - 1]);
                }
            }
        }
        i += 1;
    }
    assert(spans@.take(spans@.len() as int) == spans@);
    out
}

/// The spans produced from the first `k` sorted spans: a span starting inside
/// the previous output is cut to start at its end, or dropped when it ends
/// there; each span is then pushed with merging.
pub open spec fn sweep_upto(t: Seq<Span>, k: int) -> Seq<Span>
    decreases k,
{
    if k <= 0 {
        seq![]
    } else {
        let o = sweep_upto(t, k - 1);
        let s = t[k - 1];
        if o.len() > 0 && s.start_byte < o.last().end_byte {
            if s.end_byte <= o.last().end_byte {
                o
            } else {
                merged_push(o, Span { start_byte: o.last().end_byte, ..s })
            }
        } else {
            merged_push(o, s)
        }
    }
}

/// The sweep of a whole sorted sequence of spans.
pub open spec fn sweep_all(t: Seq<Span>) -> Seq<Span> {
    sweep_upto(t, t.len() as int)
}

/// Sorts spans and enforces a non-overlapping, merge-friendly representation.
pub fn normalize_spans(spans: Vec<Span>) -> (out: Vec<Span>)
    ensures
        exists|t: Seq<Span>| #[trigger] sorted_permutation_of(t, spans@) && out@ == sweep_all(t),
{
    let sorted = sort_spans(&spans);
    let mut out: Vec<Span> = Vec::new();
    let mut k: usize = 0;
    while k < sorted.len()
        invariant
            k <= sorted@.len(),
            out@ == sweep_upto(sorted@, k as int),
        decreases sorted@.len() - k,
    {
        let mut span = sorted[k];
        let n = out.len();
        if n > 0 {
            let last_end = out[n - 1].end_byte;
            if span.start_byte < last_end {
                if span.end_byte <= last_end {
                    k += 1;
                    continue;
                }
                span = Span { attr_id: span.attr_id, start_byte: last_end, end_byte: span.end_byte };
            }
        }
        push_merged(&mut out, span);
        k += 1;
    }
    assert(sorted_permutation_of(sorted@, spans@));
    out
}

/// Whether spans are non-empty, in order and pairwise disjoint.
pub open spec fn disjoint_ordered(o: Seq<Span>) -> bool {
    &&& forall|i: int| 0 <= i < o.len() ==> (#[trigger] o[i]).start_byte < o[i].end_byte
    &&& forall|i: int, j: int| 0 <= i < j < o.len() ==> (#[trigger] o[i]).end_byte <= (#[trigger] o[j]).start_byte
}

/// A merged push onto disjoint ordered spans of a span that starts at or after
/// their end keeps them disjoint and ordered.
pub(crate) proof fn lemma_merged_push_keeps_disjoint(o: Seq<Span>, s: Span)
    requires
        disjoint_ordered(o),
        o.len() > 0 ==> s.start_byte >= o.last().end_byte,
    ensures
        disjoint_ordered(merged_push(o, s)),
{
    let r = merged_push(o, s);
    if s.start_byte >= s.end_byte {
    } else if o.len() > 0 && o.last().attr_id == s.attr_id && o.last().end_byte == s.start_byte {
        assert forall|i: int, j: int| 0 <= i < j < r.len() implies (#[trigger] r[i]).end_byte <= (
        #[trigger] r[j]).start_byte by {
            if j == r.len() - 1 {
                assert(r[j].start_byte == o[j].start_byte);
                assert(o[i].end_byte <= o[j].start_byte);
            } else {
                assert(r[i] == o[i] && r[j] == o[j]);
            }
        }
        assert forall|i: int| 0 <= i < r.len() implies (#[trigger] r[i]).start_byte < r[i].end_byte by {
            if i < r.len() - 1 {
                assert(r[i] == o[i]);
            }
        }
    } else {
        assert forall|i: int, j: int| 0 <= i < j < r.len() implies (#[trigger] r[i]).end_byte <= (
        #[trigger] r[j]).start_byte by {
            if j == r.len() - 1 {
                assert(r[i] == o[i]);
                assert(o[i].end_byte <= o.last().end_byte) by {
                    if i < o.len() - 1 {
                        assert(o[i].end_byte <= o[o.len() - 1].start_byte);
                    }
                }
            } else {
                assert(r[i] == o[i] && r[j] == o[j]);
            }
        }
    }
}

/// The output of normalizing spans is made of non-empty, ordered, pairwise
/// disjoint spans, whatever the input.
pub proof fn lemma_sweep_disjoint_ordered(t: Seq<Span>, k: int)
    requires
        0 <= k <= t.len(),
    ensures
        disjoint_ordered(sweep_upto(t, k)),
    decreases k,
{
    if k > 0 {
        lemma_sweep_disjoint_ordered(t, k - 1);
        let o = sweep_upto(t, k - 1);
        let s = t[k - 1];
        if o.len() > 0 && s.start_byte < o.last().end_byte {
            if s.end_byte > o.last().end_byte {
                lemma_merged_push_keeps_disjoint(o, Span { start_byte: o.last().end_byte, ..s });
            }
        } else {
            lemma_merged_push_keeps_disjoint(o, s);
        }
    }
}

/// What an attribute table holds: ids and capture names, by position.
pub open spec fn attrs_view(attrs: Seq<Attr>) -> Seq<(usize, Seq<char>)> {
    attrs.map_values(|a: Attr| (a.id, a.capture_name@))
}

/// The id of the last attribute named `name`, if any.
pub open spec fn last_id_named(attrs: Seq<(usize, Seq<char>)>, name: Seq<char>) -> Option<usize>
    decreases attrs.len(),
{
    if attrs.len() == 0 {
        None
    } else if attrs.last().1 == name {
        Some(attrs.last().0)
    } else {
        last_id_named(attrs.drop_last(), name)
    }
}

/// The attribute table and id remapping after the first `k` incoming
/// attributes: each is mapped to the id of the table's attribute of the same
/// name, appending a new attribute (with the next position as id) when there
/// is none; the mapped id is recorded at the incoming id when that id is below
/// the number of incoming attributes.
pub open spec fn remap_state(incoming: Seq<(usize, Seq<char>)>, attrs: Seq<(usize, Seq<char>)>, k: int) -> (
    Seq<(usize, Seq<char>)>,
    Seq<usize>,
)
    decreases k,
{
    if k <= 0 {
        (attrs, Seq::new(incoming.len(), |i: int| 0usize))
    } else {
        let p = remap_state(incoming, attrs, k - 1);
        let a = incoming[k - 1];
        let (mapped, table) = match last_id_named(p.0, a.1) {
            Some(id) => (id, p.0),
            None => (p.0.len() as usize, p.0.push((p.0.len() as usize, a.1))),
        };
        let remap = if a.0 < incoming.len() {
            p.1.update(a.0 as int, mapped)
        } else {
            p.1
        };
        (table, remap)
    }
}

/// Remapping keeps the destination table as a prefix: attributes are only
/// appended.
pub proof fn lemma_remap_extends(incoming: Seq<(usize, Seq<char>)>, attrs: Seq<(usize, Seq<char>)>, k: int)
    ensures
        attrs.is_prefix_of(remap_state(incoming, attrs, k).0),
    decreases k,
{
    if k > 0 {
        lemma_remap_extends(incoming, attrs, k - 1);
        let p = remap_state(incoming, attrs, k - 1);
        let a = incoming[k - 1];
        match last_id_named(p.0, a.1) {
            Some(id) => {},
            None => {
                let t = p.0.push((p.0.len() as usize, a.1));
                assert(t.subrange(0, attrs.len() as int) =~= p.0.subrange(0, attrs.len() as int));
            },
        }
    }
}

/// Looks up the id of the last attribute named `name`.
fn find_last_named(attrs: &Vec<Attr>, name: &String) -> (r: Option<usize>)
    ensures
        r == last_id_named(attrs_view(attrs@), name@),
{
    let mut i: usize = attrs.len();
    assert(attrs@.take(i as int) == attrs@);
    while i > 0
        invariant
            i <= attrs@.len(),
            last_id_named(attrs_view(attrs@), name@) == last_id_named(attrs_view(attrs@.take(i as int)), name@),
        decreases i,
    {
        assert(attrs_view(attrs@.take(i as int)).drop_last() == attrs_view(attrs@.take(i - 1)));
        if attrs[i - 1].capture_name == *name {
            return Some(attrs[i - 1].id);
        }
        i -= 1;
    }
    assert(attrs_view(attrs@.take(0)) =~= Seq::<(usize, Seq<char>)>::empty());
    None
}

/// Remaps incoming attribute ids to ids in the destination attribute table.
///
/// Existing destination ids are reused by capture name; new capture names are appended.
pub fn remap_attr_ids(incoming: &[Attr], attrs: &mut Vec<Attr>) -> (remap: Vec<usize>)
    requires
        old(attrs)@.len() + incoming@.len() <= usize::MAX,
    ensures
        ({
            let st = remap_state(attrs_view(incoming@), attrs_view(old(attrs)@), incoming@.len() as int);
            attrs_view(final(attrs)@) == st.0 && remap@ == st.1
        }),
{
    let ghost inc = attrs_view(incoming@);
    let ghost a0 = attrs_view(attrs@);
    let mut remap: Vec<usize> = Vec::new();
    let mut j: usize = 0;
    while j < incoming.len()
        invariant
            j <= incoming@.len(),
            remap@.len() == j,
            forall|q: int| 0 <= q < j ==> remap@[q] == 0usize,
        decreases incoming@.len() - j,
    {
        remap.push(0);
        j += 1;
    }
    assert(remap@ =~= Seq::new(inc.len(), |i: int| 0usize));
    let mut k: usize = 0;
    while k < incoming.len()
        invariant
            k <= incoming@.len(),
            inc == attrs_view(incoming@),
            a0.len() + inc.len() <= usize::MAX,
            attrs_view(attrs@) == remap_state(inc, a0, k as int).0,
            remap@ == remap_state(inc, a0, k as int).1,
            remap@.len() == inc.len(),
            attrs@.len() <= a0.len() + k,
        decreases incoming@.len() - k,
    {
        let attr = &incoming[k];
        assert(inc[k as int] == (attr.id, attr.capture_name@));
        let mapped = match find_last_named(attrs, &attr.capture_name) {
            Some(id) => id,
            None => {
                let id = attrs.len();
                let ghost before = attrs_view(attrs@);
                attrs.push(Attr { id, capture_name: attr.capture_name.clone() });
                assert(attrs_view(attrs@) == before.push((id, attr.capture_name@)));
                id
            },
        };
        if attr.id < remap.len() {
            remap.set(attr.id, mapped);
        }
        k += 1;
    }
    remap
}

/// Pushing a span with an id below `n` keeps every id below `n`.
pub proof fn lemma_merged_push_ids(spans: Seq<Span>, next: Span, n: int)
    requires
        attr_ids_valid(spans, n),
        next.attr_id < n,
    ensures
        attr_ids_valid(merged_push(spans, next), n),
{
}

/// The sweep keeps the ids of the spans it sweeps.
pub proof fn lemma_sweep_ids(t: Seq<Span>, k: int, n: int)
    requires
        0 <= k <= t.len(),
        attr_ids_valid(t, n),
    ensures
        attr_ids_valid(sweep_upto(t, k), n),
    decreases k,
{
    if k > 0 {
        lemma_sweep_ids(t, k - 1, n);
        let o = sweep_upto(t, k - 1);
        let s = t[k - 1];
        if o.len() > 0 && s.start_byte < o.last().end_byte {
            if s.end_byte > o.last().end_byte {
                lemma_merged_push_ids(o, Span { start_byte: o.last().end_byte, ..s }, n);
            }
        } else {
            lemma_merged_push_ids(o, s, n);
        }
    }
}

/// Normalizing keeps the ids of the spans it normalizes.
pub proof fn lemma_normalized_ids(spans: Seq<Span>, t: Seq<Span>, n: int)
    requires
        sorted_permutation_of(t, spans),
        attr_ids_valid(spans, n),
    ensures
        attr_ids_valid(sweep_all(t), n),
{
    assert forall|i: int| 0 <= i < t.len() implies (#[trigger] t[i]).attr_id < n by {
        t.to_multiset_ensures();
        spans.to_multiset_ensures();
        assert(t.contains(t[i]));
        assert(t.to_multiset().count(t[i]) > 0);
        assert(spans.to_multiset().count(t[i]) > 0);
        assert(spans.contains(t[i]));
    }
    lemma_sweep_ids(t, t.len() as int, n);
}

/// Cut pieces keep the attribute of the span they are cut from.
pub proof fn lemma_cut_pieces_ids(span: Span, ranges: Seq<(usize, usize)>, idx: int, cursor: int)
    ensures
        forall|i: int|
            0 <= i < cut_pieces(span, ranges, idx, cursor).len() ==> (#[trigger] cut_pieces(
                span,
                ranges,
                idx,
                cursor,
            )[i]).attr_id == span.attr_id,
    decreases ranges.len() - idx,
{
    if idx >= 0 && idx < ranges.len() {
        let rs = ranges[idx].0 as int;
        let re = ranges[idx].1 as int;
        if rs >= span.end_byte {
            lemma_tail_piece_ids(span, cursor);
            assert(cut_pieces(span, ranges, idx, cursor) == tail_piece(span, cursor));
        } else if re <= cursor {
            lemma_cut_pieces_ids(span, ranges, idx + 1, cursor);
            assert(cut_pieces(span, ranges, idx, cursor) == cut_pieces(span, ranges, idx + 1, cursor));
        } else {
            let stop = if rs < span.end_byte {
                rs
            } else {
                span.end_byte as int
            };
            let pre = if cursor < rs {
                seq![Span { attr_id: span.attr_id, start_byte: cursor as usize, end_byte: stop as usize }]
            } else {
                seq![]
            };
            assert(forall|i: int| 0 <= i < pre.len() ==> (#[trigger] pre[i]).attr_id == span.attr_id);
            if re < span.end_byte {
                lemma_cut_pieces_ids(span, ranges, idx + 1, re);
                let rest = cut_pieces(span, ranges, idx + 1, re);
                assert(cut_pieces(span, ranges, idx, cursor) == pre + rest);
                assert forall|i: int| 0 <= i < (pre + rest).len() implies (#[trigger] (pre + rest)[i]).attr_id == span.attr_id by {
                    if i >= pre.len() {
                        assert((pre + rest)[i] == rest[i - pre.len()]);
                    }
                }
            } else {
                assert(cut_pieces(span, ranges, idx, cursor) == pre);
            }
        }
    } else {
        lemma_tail_piece_ids(span, cursor);
        assert(cut_pieces(span, ranges, idx, cursor) == tail_piece(span, cursor));
    }
}

proof fn lemma_tail_piece_ids(span: Span, cursor: int)
    ensures
        forall|i: int| 0 <= i < tail_piece(span, cursor).len() ==> (#[trigger] tail_piece(span, cursor)[i]).attr_id == span.attr_id,
{
}

/// Pushing pieces with ids below `n` keeps every id below `n`.
pub proof fn lemma_push_all_ids(out: Seq<Span>, pieces: Seq<Span>, n: int)
    requires
        attr_ids_valid(out, n),
        attr_ids_valid(pieces, n),
    ensures
        attr_ids_valid(push_all(out, pieces), n),
    decreases pieces.len(),
{
    if pieces.len() > 0 {
        let d = pieces.drop_last();
        assert(attr_ids_valid(d, n)) by {
            assert forall|i: int| 0 <= i < d.len() implies (#[trigger] d[i]).attr_id < n by {
                assert(d[i] == pieces[i]);
            }
        }
        lemma_push_all_ids(out, d, n);
        lemma_merged_push_ids(push_all(out, d), pieces.last(), n);
    }
}

/// Cutting ranges out of spans keeps their ids.
pub proof fn lemma_excluded_ids(spans: Seq<Span>, ranges: Seq<(usize, usize)>, n: int)
    requires
        attr_ids_valid(spans, n),
    ensures
        attr_ids_valid(excluded(spans, ranges), n),
{
    if ranges.len() > 0 {
        lemma_exclude_state_ids(spans, ranges, spans.len() as int, n);
    }
}

proof fn lemma_exclude_state_ids(spans: Seq<Span>, ranges: Seq<(usize, usize)>, k: int, n: int)
    requires
        attr_ids_valid(spans, n),
        k <= spans.len(),
    ensures
        attr_ids_valid(exclude_state(spans, ranges, k).0, n),
    decreases k,
{
    if k > 0 {
        lemma_exclude_state_ids(spans, ranges, k - 1, n);
        let p = exclude_state(spans, ranges, k - 1);
        let sp = spans[k - 1];
        let r = skip_ranges(ranges, p.1, sp.start_byte as int);
        lemma_cut_pieces_ids(sp, ranges, r, sp.start_byte as int);
        lemma_push_all_ids(p.0, cut_pieces(sp, ranges, r, sp.start_byte as int), n);
    }
}

/// Whether every span ends within a source of length `len`.
pub open spec fn spans_within(spans: Seq<Span>, len: int) -> bool {
    forall|i: int| 0 <= i < spans.len() ==> (#[trigger] spans[i]).end_byte <= len
}

/// Pushing a span that ends within `len` keeps every span within `len`.
pub proof fn lemma_merged_push_within(spans: Seq<Span>, next: Span, len: int)
    requires
        spans_within(spans, len),
        next.end_byte <= len,
    ensures
        spans_within(merged_push(spans, next), len),
{
}

/// The sweep keeps spans within the bound of the spans it sweeps.
pub proof fn lemma_sweep_within(t: Seq<Span>, k: int, len: int)
    requires
        0 <= k <= t.len(),
        spans_within(t, len),
    ensures
        spans_within(sweep_upto(t, k), len),
    decreases k,
{
    if k > 0 {
        lemma_sweep_within(t, k - 1, len);
        let o = sweep_upto(t, k - 1);
        let s = t[k - 1];
        if o.len() > 0 && s.start_byte < o.last().end_byte {
            if s.end_byte > o.last().end_byte {
                lemma_merged_push_within(o, Span { start_byte: o.last().end_byte, ..s }, len);
            }
        } else {
            lemma_merged_push_within(o, s, len);
        }
    }
}

/// Normalizing keeps spans within the bound of the spans it normalizes.
pub proof fn lemma_normalized_within(spans: Seq<Span>, t: Seq<Span>, len: int)
    requires
        sorted_permutation_of(t, spans),
        spans_within(spans, len),
    ensures
        spans_within(sweep_all(t), len),
{
    assert forall|i: int| 0 <= i < t.len() implies (#[trigger] t[i]).end_byte <= len by {
        t.to_multiset_ensures();
        spans.to_multiset_ensures();
        assert(t.contains(t[i]));
        assert(t.to_multiset().count(t[i]) > 0);
        assert(spans.to_multiset().count(t[i]) > 0);
        assert(spans.contains(t[i]));
    }
    lemma_sweep_within(t, t.len() as int, len);
}

proof fn lemma_tail_piece_within(span: Span, cursor: int)
    ensures
        forall|i: int| 0 <= i < tail_piece(span, cursor).len() ==> (#[trigger] tail_piece(span, cursor)[i]).end_byte <= span.end_byte,
{
}

/// Cut pieces end within the span they are cut from.
pub proof fn lemma_cut_pieces_within(span: Span, ranges: Seq<(usize, usize)>, idx: int, cursor: int)
    ensures
        forall|i: int|
            0 <= i < cut_pieces(span, ranges, idx, cursor).len() ==> (#[trigger] cut_pieces(
                span,
                ranges,
                idx,
                cursor,
            )[i]).end_byte <= span.end_byte,
    decreases ranges.len() - idx,
{
    if idx >= 0 && idx < ranges.len() {
        let rs = ranges[idx].0 as int;
        let re = ranges[idx].1 as int;
        if rs >= span.end_byte {
            lemma_tail_piece_within(span, cursor);
            assert(cut_pieces(span, ranges, idx, cursor) == tail_piece(span, cursor));
        } else if re <= cursor {
            lemma_cut_pieces_within(span, ranges, idx + 1, cursor);
            assert(cut_pieces(span, ranges, idx, cursor) == cut_pieces(span, ranges, idx + 1, cursor));
        } else {
            let stop = if rs < span.end_byte {
                rs
            } else {
                span.end_byte as int
            };
            let pre = if cursor < rs {
                seq![Span { attr_id: span.attr_id, start_byte: cursor as usize, end_byte: stop as usize }]
            } else {
                seq![]
            };
            assert(forall|i: int| 0 <= i < pre.len() ==> (#[trigger] pre[i]).end_byte <= span.end_byte);
            if re < span.end_byte {
                lemma_cut_pieces_within(span, ranges, idx + 1, re);
                let rest = cut_pieces(span, ranges, idx + 1, re);
                assert(cut_pieces(span, ranges, idx, cursor) == pre + rest);
                assert forall|i: int| 0 <= i < (pre + rest).len() implies (#[trigger] (pre + rest)[i]).end_byte <= span.end_byte by {
                    if i >= pre.len() {
                        assert((pre + rest)[i] == rest[i - pre.len()]);
                    }
                }
            } else {
                assert(cut_pieces(span, ranges, idx, cursor) == pre);
            }
        }
    } else {
        lemma_tail_piece_within(span, cursor);
        assert(cut_pieces(span, ranges, idx, cursor) == tail_piece(span, cursor));
    }
}

/// Pushing pieces that end within `len` keeps every span within `len`.
pub proof fn lemma_push_all_within(out: Seq<Span>, pieces: Seq<Span>, len: int)
    requires
        spans_within(out, len),
        spans_within(pieces, len),
    ensures
        spans_within(push_all(out, pieces), len),
    decreases pieces.len(),
{
    if pieces.len() > 0 {
        let d = pieces.drop_last();
        assert(spans_within(d, len)) by {
            assert forall|i: int| 0 <= i < d.len() implies (#[trigger] d[i]).end_byte <= len by {
                assert(d[i] == pieces[i]);
            }
        }
        lemma_push_all_within(out, d, len);
        lemma_merged_push_within(push_all(out, d), pieces.last(), len);
    }
}

proof fn lemma_exclude_state_within(spans: Seq<Span>, ranges: Seq<(usize, usize)>, k: int, len: int)
    requires
        spans_within(spans, len),
        k <= spans.len(),
    ensures
        spans_within(exclude_state(spans, ranges, k).0, len),
    decreases k,
{
    if k > 0 {
        lemma_exclude_state_within(spans, ranges, k - 1, len);
        let p = exclude_state(spans, ranges, k - 1);
        let sp = spans[k - 1];
        let r = skip_ranges(ranges, p.1, sp.start_byte as int);
        lemma_cut_pieces_within(sp, ranges, r, sp.start_byte as int);
        lemma_push_all_within(p.0, cut_pieces(sp, ranges, r, sp.start_byte as int), len);
    }
}

/// Cutting ranges out of spans keeps them within their bound.
pub proof fn lemma_excluded_within(spans: Seq<Span>, ranges: Seq<(usize, usize)>, len: int)
    requires
        spans_within(spans, len),
    ensures
        spans_within(excluded(spans, ranges), len),
{
    if ranges.len() > 0 {
        lemma_exclude_state_within(spans, ranges, spans.len() as int, len);
    }
}

/// Whether some span of `o` covers byte `b` with attribute `a`.
pub open spec fn covers_with(o: Seq<Span>, b: int, a: usize) -> bool {
    exists|i: int| #![trigger o[i]] 0 <= i < o.len() && o[i].start_byte <= b < o[i].end_byte && o[i].attr_id == a
}

/// The position of the first of the first `k` spans of `t` that covers byte `b`.
pub open spec fn first_cover(t: Seq<Span>, b: int, k: int) -> Option<int>
    decreases k,
{
    if k <= 0 {
        None
    } else {
        match first_cover(t, b, k - 1) {
            Some(i) => Some(i),
            None => if t[k - 1].start_byte <= b < t[k - 1].end_byte {
                Some(k - 1)
            } else {
                None
            },
        }
    }
}

/// A merged push covers what the spans covered and what the pushed span covers.
pub(crate) proof fn lemma_merged_push_covers(o: Seq<Span>, n: Span, b: int, a: usize)
    requires
        o.len() > 0 ==> o.last().end_byte <= n.start_byte,
        o.len() > 0 ==> o.last().start_byte < o.last().end_byte,
    ensures
        covers_with(merged_push(o, n), b, a) <==> covers_with(o, b, a) || (n.start_byte <= b < n.end_byte
            && n.attr_id == a),
{
    let m = merged_push(o, n);
    if n.start_byte >= n.end_byte {
    } else if o.len() > 0 && o.last().attr_id == n.attr_id && o.last().end_byte == n.start_byte {
        let l = o.len() - 1;
        if covers_with(m, b, a) {
            let i = choose|i: int| #![trigger m[i]] 0 <= i < m.len() && m[i].start_byte <= b < m[i].end_byte && m[i].attr_id == a;
            if i < l {
                assert(o[i] == m[i]);
            } else if b < o[l].end_byte {
                assert(o[l].start_byte <= b < o[l].end_byte && o[l].attr_id == a);
            }
        }
        if covers_with(o, b, a) {
            let i = choose|i: int| #![trigger o[i]] 0 <= i < o.len() && o[i].start_byte <= b < o[i].end_byte && o[i].attr_id == a;
            if i < l {
                assert(m[i] == o[i]);
            } else {
                assert(i == l);
                assert(o.last() == o[l]);
                assert(m[l] == Span { end_byte: n.end_byte, ..o[l] });
                assert(m[l].start_byte <= b < m[l].end_byte && m[l].attr_id == a);
            }
        }
        if n.start_byte <= b < n.end_byte && n.attr_id == a {
            assert(o.last() == o[l]);
            assert(m[l] == Span { end_byte: n.end_byte, ..o[l] });
            assert(m[l].start_byte <= b < m[l].end_byte && m[l].attr_id == a);
        }
    } else {
        if covers_with(m, b, a) {
            let i = choose|i: int| #![trigger m[i]] 0 <= i < m.len() && m[i].start_byte <= b < m[i].end_byte && m[i].attr_id == a;
            if i < o.len() {
                assert(o[i] == m[i]);
            }
        }
        if covers_with(o, b, a) {
            let i = choose|i: int| #![trigger o[i]] 0 <= i < o.len() && o[i].start_byte <= b < o[i].end_byte && o[i].attr_id == a;
            assert(m[i] == o[i]);
        }
        if n.start_byte <= b < n.end_byte && n.attr_id == a {
            assert(m[o.len() as int] == n);
        }
    }
}

proof fn lemma_first_cover_some(t: Seq<Span>, b: int, q: int, k: int)
    requires
        0 <= q < k <= t.len(),
        t[q].start_byte <= b < t[q].end_byte,
    ensures
        first_cover(t, b, k) is Some,
    decreases k,
{
    if q < k - 1 {
        lemma_first_cover_some(t, b, q, k - 1);
    }
}

proof fn lemma_first_cover_none(t: Seq<Span>, b: int, k: int)
    requires
        0 <= k <= t.len(),
        forall|j: int| 0 <= j < k ==> !(t[j].start_byte <= b < #[trigger] t[j].end_byte),
    ensures
        first_cover(t, b, k) is None,
    decreases k,
{
    if k > 0 {
        lemma_first_cover_none(t, b, k - 1);
    }
}

/// The sweep of spans sorted by start covers each byte with the attribute
/// of the first span that covers it, and nothing else; its last span ends
/// where the furthest-reaching swept span ends.
proof fn lemma_sweep_covers(t: Seq<Span>, k: int)
    requires
        0 <= k <= t.len(),
        forall|i: int, j: int| 0 <= i < j < t.len() ==> span_le(#[trigger] t[i], #[trigger] t[j]),
    ensures
        forall|b: int, a: usize|
            #[trigger] covers_with(sweep_upto(t, k), b, a) <==> (first_cover(t, b, k) matches Some(j) && t[j].attr_id == a),
        sweep_upto(t, k).len() > 0 ==> forall|j: int|
            0 <= j < k && t[j].start_byte < t[j].end_byte ==> #[trigger] t[j].end_byte <= sweep_upto(t, k).last().end_byte,
        sweep_upto(t, k).len() > 0 ==> exists|q: int|
            0 <= q < k && #[trigger] t[q].start_byte < t[q].end_byte && t[q].end_byte == sweep_upto(t, k).last().end_byte,
        sweep_upto(t, k).len() == 0 ==> forall|j: int| 0 <= j < k ==> #[trigger] t[j].start_byte >= t[j].end_byte,
    decreases k,
{
    if k > 0 {
        lemma_sweep_covers(t, k - 1);
        lemma_sweep_disjoint_ordered(t, k - 1);
        let o = sweep_upto(t, k - 1);
        let s = t[k - 1];
        let m = sweep_upto(t, k);
        if o.len() > 0 {
            assert forall|i: int| 0 <= i < o.len() implies #[trigger] o[i].end_byte <= o.last().end_byte by {
                if i < o.len() - 1 {
                    assert(o[i].end_byte <= o[o.len() - 1].start_byte);
                }
            }
        }
        if o.len() > 0 && s.start_byte < o.last().end_byte {
            let l = o.last().end_byte;
            let q = choose|q: int| 0 <= q < k - 1 && #[trigger] t[q].start_byte < t[q].end_byte && t[q].end_byte == l;
            assert(span_le(t[q], t[k - 1]));
            if s.end_byte <= l {
                assert(m == o);
                assert forall|b: int, a: usize|
                    #[trigger] covers_with(m, b, a) <==> (first_cover(t, b, k) matches Some(j) && t[j].attr_id == a) by {
                    if s.start_byte <= b < s.end_byte {
                        lemma_first_cover_some(t, b, q, k - 1);
                    }
                }
            } else {
                let n = Span { start_byte: l, ..s };
                assert(m == merged_push(o, n));
                assert forall|b: int, a: usize|
                    #[trigger] covers_with(m, b, a) <==> (first_cover(t, b, k) matches Some(j) && t[j].attr_id == a) by {
                    lemma_merged_push_covers(o, n, b, a);
                    if s.start_byte <= b < l {
                        lemma_first_cover_some(t, b, q, k - 1);
                    } else if l <= b < s.end_byte {
                        assert forall|j: int| 0 <= j < k - 1 implies !(t[j].start_byte <= b < #[trigger] t[j].end_byte) by {
                            if t[j].start_byte < t[j].end_byte {
                                assert(t[j].end_byte <= l);
                            }
                        }
                        lemma_first_cover_none(t, b, k - 1);
                        if covers_with(o, b, a) {
                            let i = choose|i: int| #![trigger o[i]] 0 <= i < o.len() && o[i].start_byte <= b < o[i].end_byte && o[i].attr_id == a;
                            assert(o[i].end_byte <= l);
                        }
                    }
                }
                assert(m.last().end_byte == s.end_byte);
                assert(t[k - 1].start_byte < t[k - 1].end_byte);
            }
        } else {
            assert(m == merged_push(o, s));
            assert forall|b: int, a: usize|
                #[trigger] covers_with(m, b, a) <==> (first_cover(t, b, k) matches Some(j) && t[j].attr_id == a) by {
                lemma_merged_push_covers(o, s, b, a);
                if s.start_byte <= b < s.end_byte {
                    assert forall|j: int| 0 <= j < k - 1 implies !(t[j].start_byte <= b < #[trigger] t[j].end_byte) by {
                        if t[j].start_byte < t[j].end_byte {
                            assert(o.len() > 0);
                            assert(t[j].end_byte <= o.last().end_byte);
                        }
                    }
                    lemma_first_cover_none(t, b, k - 1);
                    if covers_with(o, b, a) {
                        let i = choose|i: int| #![trigger o[i]] 0 <= i < o.len() && o[i].start_byte <= b < o[i].end_byte && o[i].attr_id == a;
                        assert(o[i].end_byte <= o.last().end_byte);
                    }
                }
            }
            if s.start_byte < s.end_byte {
                assert(m.last().end_byte == s.end_byte);
            }
        }
    }
}

/// Normalizing spans covers each byte with the attribute of the first span,
/// in sorted order, that covers it, and covers no other byte.
pub proof fn lemma_normalized_covers(spans: Seq<Span>, t: Seq<Span>, b: int, a: usize)
    requires
        sorted_permutation_of(t, spans),
    ensures
        covers_with(sweep_all(t), b, a) <==> (first_cover(t, b, t.len() as int) matches Some(j) && t[j].attr_id == a),
{
    lemma_sweep_covers(t, t.len() as int);
}

/// The first cover found lies among the spans searched and covers the byte.
proof fn lemma_first_cover_covers(t: Seq<Span>, b: int, k: int)
    requires
        0 <= k <= t.len(),
    ensures
        first_cover(t, b, k) matches Some(j) ==> 0 <= j < k && t[j].start_byte <= b < t[j].end_byte,
    decreases k,
{
    if k > 0 {
        lemma_first_cover_covers(t, b, k - 1);
    }
}

/// Normalizing spans that are already disjoint and ordered covers exactly
/// the bytes they cover, each with the same attribute.
pub proof fn lemma_normalized_disjoint_covers(spans: Seq<Span>, t: Seq<Span>, b: int, a: usize)
    requires
        sorted_permutation_of(t, spans),
        disjoint_ordered(spans),
    ensures
        covers_with(sweep_all(t), b, a) <==> covers_with(spans, b, a),
{
    lemma_normalized_covers(spans, t, b, a);
    lemma_first_cover_covers(t, b, t.len() as int);
    t.to_multiset_ensures();
    spans.to_multiset_ensures();
    if covers_with(spans, b, a) {
        let i = choose|i: int| #![trigger spans[i]] 0 <= i < spans.len() && spans[i].start_byte <= b < spans[i].end_byte && spans[i].attr_id == a;
        assert(spans.contains(spans[i]));
        assert(spans.to_multiset().count(spans[i]) > 0);
        assert(t.to_multiset().count(spans[i]) > 0);
        assert(t.contains(spans[i]));
        let q = choose|q: int| 0 <= q < t.len() && t[q] == spans[i];
        lemma_first_cover_some(t, b, q, t.len() as int);
        let j = first_cover(t, b, t.len() as int)->Some_0;
        assert(t.contains(t[j]));
        assert(t.to_multiset().count(t[j]) > 0);
        assert(spans.to_multiset().count(t[j]) > 0);
        assert(spans.contains(t[j]));
        let p = choose|p: int| 0 <= p < spans.len() && spans[p] == t[j];
        if p < i {
            assert(spans[p].end_byte <= spans[i].start_byte);
        } else if i < p {
            assert(spans[i].end_byte <= spans[p].start_byte);
        }
        assert(p == i);
    }
    if let Some(j) = first_cover(t, b, t.len() as int) {
        if t[j].attr_id == a {
            assert(t.contains(t[j]));
            assert(t.to_multiset().count(t[j]) > 0);
            assert(spans.to_multiset().count(t[j]) > 0);
            assert(spans.contains(t[j]));
            let p = choose|p: int| 0 <= p < spans.len() && spans[p] == t[j];
            assert(spans[p].start_byte <= b < spans[p].end_byte && spans[p].attr_id == a);
        }
    }
}

/// Whether byte `b` lies in one of the ranges from index `from` on.
pub open spec fn in_ranges(ranges: Seq<(usize, usize)>, b: int, from: int) -> bool {
    exists|j: int| from <= j < ranges.len() && ranges[j].0 <= b < #[trigger] ranges[j].1
}

/// Whether the ranges are in order and do not overlap.
pub open spec fn ranges_ordered(ranges: Seq<(usize, usize)>) -> bool {
    &&& forall|i: int| 0 <= i < ranges.len() ==> (#[trigger] ranges[i]).0 <= ranges[i].1
    &&& forall|i: int, j: int| 0 <= i < j < ranges.len() ==> (#[trigger] ranges[i]).1 <= (#[trigger] ranges[j]).0
}

/// A concatenation covers what either part covers.
proof fn lemma_concat_covers(x: Seq<Span>, y: Seq<Span>, b: int, a: usize)
    ensures
        covers_with(x + y, b, a) <==> covers_with(x, b, a) || covers_with(y, b, a),
{
    let z = x + y;
    if covers_with(z, b, a) {
        let i = choose|i: int| #![trigger z[i]] 0 <= i < z.len() && z[i].start_byte <= b < z[i].end_byte && z[i].attr_id == a;
        if i < x.len() {
            assert(x[i] == z[i]);
        } else {
            assert(y[i - x.len()] == z[i]);
        }
    }
    if covers_with(x, b, a) {
        let i = choose|i: int| #![trigger x[i]] 0 <= i < x.len() && x[i].start_byte <= b < x[i].end_byte && x[i].attr_id == a;
        assert(z[i] == x[i]);
    }
    if covers_with(y, b, a) {
        let i = choose|i: int| #![trigger y[i]] 0 <= i < y.len() && y[i].start_byte <= b < y[i].end_byte && y[i].attr_id == a;
        assert(z[i + x.len()] == y[i]);
    }
}

/// The pieces cut from a span cover exactly the bytes of the span from the
/// cursor on that no range from `idx` on covers.
proof fn lemma_cut_pieces_covers(span: Span, ranges: Seq<(usize, usize)>, idx: int, cursor: int, b: int, a: usize)
    requires
        ranges_ordered(ranges),
        0 <= idx,
        0 <= cursor,
    ensures
        covers_with(cut_pieces(span, ranges, idx, cursor), b, a) <==> (a == span.attr_id && cursor <= b
            < span.end_byte && !in_ranges(ranges, b, idx)),
    decreases ranges.len() - idx,
{
    let c = cut_pieces(span, ranges, idx, cursor);
    if idx >= ranges.len() {
        assert(c == tail_piece(span, cursor));
        if covers_with(c, b, a) {
            let i = choose|i: int| #![trigger c[i]] 0 <= i < c.len() && c[i].start_byte <= b < c[i].end_byte && c[i].attr_id == a;
        }
        if a == span.attr_id && cursor <= b < span.end_byte {
            assert(c[0].start_byte <= b < c[0].end_byte);
        }
    } else {
        let rs = ranges[idx].0 as int;
        let re = ranges[idx].1 as int;
        if rs >= span.end_byte {
            assert(c == tail_piece(span, cursor));
            if covers_with(c, b, a) {
                let i = choose|i: int| #![trigger c[i]] 0 <= i < c.len() && c[i].start_byte <= b < c[i].end_byte && c[i].attr_id == a;
            }
            if a == span.attr_id && cursor <= b < span.end_byte {
                assert(c[0].start_byte <= b < c[0].end_byte);
            }
            if b < span.end_byte && in_ranges(ranges, b, idx) {
                let j = choose|j: int| idx <= j < ranges.len() && ranges[j].0 <= b < #[trigger] ranges[j].1;
                if j > idx {
                    assert(ranges[idx].1 <= ranges[j].0);
                }
            }
        } else if re <= cursor {
            lemma_cut_pieces_covers(span, ranges, idx + 1, cursor, b, a);
            assert(c == cut_pieces(span, ranges, idx + 1, cursor));
            if in_ranges(ranges, b, idx) && cursor <= b {
                let j = choose|j: int| idx <= j < ranges.len() && ranges[j].0 <= b < #[trigger] ranges[j].1;
                assert(j != idx);
            }
        } else {
            let pre = if cursor < rs {
                seq![Span { attr_id: span.attr_id, start_byte: cursor as usize, end_byte: rs as usize }]
            } else {
                seq![]
            };
            if covers_with(pre, b, a) {
                let i = choose|i: int| #![trigger pre[i]] 0 <= i < pre.len() && pre[i].start_byte <= b < pre[i].end_byte && pre[i].attr_id == a;
            }
            if cursor < rs && a == span.attr_id && cursor <= b < rs {
                assert(pre[0].start_byte <= b < pre[0].end_byte);
            }
            // bytes before the range are in no range from idx on
            if b < rs && in_ranges(ranges, b, idx) {
                let j = choose|j: int| idx <= j < ranges.len() && ranges[j].0 <= b < #[trigger] ranges[j].1;
                if j > idx {
                    assert(ranges[idx].1 <= ranges[j].0);
                }
            }
            // bytes in the range are in a range from idx on
            if rs <= b < re {
                assert(ranges[idx].0 <= b < ranges[idx].1);
            }
            if re >= span.end_byte {
                assert(c == pre);
            } else {
                let rest = cut_pieces(span, ranges, idx + 1, re);
                assert(c == pre + rest);
                lemma_concat_covers(pre, rest, b, a);
                lemma_cut_pieces_covers(span, ranges, idx + 1, re, b, a);
                if b >= re && in_ranges(ranges, b, idx) {
                    let j = choose|j: int| idx <= j < ranges.len() && ranges[j].0 <= b < #[trigger] ranges[j].1;
                    assert(j != idx);
                }
                if b >= re && in_ranges(ranges, b, idx + 1) {
                    let j = choose|j: int| idx + 1 <= j < ranges.len() && ranges[j].0 <= b < #[trigger] ranges[j].1;
                    assert(idx <= j);
                }
            }
        }
    }
}

/// The pieces cut from a span are ordered, disjoint, and lie within the
/// span from the cursor on.
proof fn lemma_cut_pieces_ordered(span: Span, ranges: Seq<(usize, usize)>, idx: int, cursor: int)
    requires
        ranges_ordered(ranges),
        0 <= idx,
        0 <= cursor,
    ensures
        disjoint_ordered(cut_pieces(span, ranges, idx, cursor)),
        forall|i: int|
            0 <= i < cut_pieces(span, ranges, idx, cursor).len() ==> cursor <= (#[trigger] cut_pieces(
                span,
                ranges,
                idx,
                cursor,
            )[i]).start_byte && cut_pieces(span, ranges, idx, cursor)[i].end_byte <= span.end_byte,
    decreases ranges.len() - idx,
{
    let c = cut_pieces(span, ranges, idx, cursor);
    if idx >= ranges.len() {
        assert(c == tail_piece(span, cursor));
    } else {
        let rs = ranges[idx].0 as int;
        let re = ranges[idx].1 as int;
        if rs >= span.end_byte {
            assert(c == tail_piece(span, cursor));
        } else if re <= cursor {
            lemma_cut_pieces_ordered(span, ranges, idx + 1, cursor);
            assert(c == cut_pieces(span, ranges, idx + 1, cursor));
        } else {
            let pre = if cursor < rs {
                seq![Span { attr_id: span.attr_id, start_byte: cursor as usize, end_byte: rs as usize }]
            } else {
                seq![]
            };
            if re >= span.end_byte {
                assert(c == pre);
            } else {
                let rest = cut_pieces(span, ranges, idx + 1, re);
                lemma_cut_pieces_ordered(span, ranges, idx + 1, re);
                assert(c == pre + rest);
                assert forall|i: int| 0 <= i < c.len() implies (#[trigger] c[i]).start_byte < c[i].end_byte && cursor
                    <= c[i].start_byte && c[i].end_byte <= span.end_byte by {
                    if i >= pre.len() {
                        assert(c[i] == rest[i - pre.len()]);
                    }
                }
                assert forall|i: int, j: int| 0 <= i < j < c.len() implies (#[trigger] c[i]).end_byte <= (#[trigger] c[j]).start_byte by {
                    if i >= pre.len() {
                        assert(c[i] == rest[i - pre.len()]);
                        assert(c[j] == rest[j - pre.len()]);
                    } else {
                        assert(c[j] == rest[j - pre.len()]);
                    }
                }
            }
        }
    }
}

/// Pushing ordered pieces that start after the spans end covers what the
/// spans and the pieces cover, and ends where the last piece ends.
proof fn lemma_push_all_covers(out: Seq<Span>, ps: Seq<Span>)
    requires
        disjoint_ordered(ps),
        out.len() > 0 ==> out.last().start_byte < out.last().end_byte,
        out.len() > 0 ==> forall|i: int| 0 <= i < ps.len() ==> out.last().end_byte <= (#[trigger] ps[i]).start_byte,
    ensures
        forall|b: int, a: usize|
            #[trigger] covers_with(push_all(out, ps), b, a) <==> covers_with(out, b, a) || covers_with(ps, b, a),
        ps.len() == 0 ==> push_all(out, ps) == out,
        ps.len() > 0 ==> push_all(out, ps).len() > 0 && push_all(out, ps).last().end_byte == ps.last().end_byte
            && push_all(out, ps).last().start_byte < push_all(out, ps).last().end_byte,
    decreases ps.len(),
{
    if ps.len() > 0 {
        let d = ps.drop_last();
        let n = ps.last();
        assert(disjoint_ordered(d)) by {
            assert forall|i: int| 0 <= i < d.len() implies (#[trigger] d[i]).start_byte < d[i].end_byte by {
                assert(d[i] == ps[i]);
            }
            assert forall|i: int, j: int| 0 <= i < j < d.len() implies (#[trigger] d[i]).end_byte <= (#[trigger] d[j]).start_byte by {
                assert(d[i] == ps[i] && d[j] == ps[j]);
            }
        }
        lemma_push_all_covers(out, d);
        let p = push_all(out, d);
        if d.len() > 0 {
            assert(d.last() == ps[d.len() - 1]);
            assert(ps[d.len() - 1].end_byte <= ps[ps.len() - 1].start_byte);
        }
        assert(ps == d.push(n));
        assert forall|b: int, a: usize|
            #[trigger] covers_with(push_all(out, ps), b, a) <==> covers_with(out, b, a) || covers_with(ps, b, a) by {
            lemma_merged_push_covers(p, n, b, a);
            lemma_concat_covers(d, seq![n], b, a);
            assert(d + seq![n] == ps);
            let one = seq![n];
            if covers_with(one, b, a) {
                let i = choose|i: int| #![trigger one[i]] 0 <= i < one.len() && one[i].start_byte <= b < one[i].end_byte && one[i].attr_id == a;
            }
            if n.start_byte <= b < n.end_byte && n.attr_id == a {
                assert(one[0] == n);
            }
        }
    }
}

/// The first range index reached by skipping from `r` lies at or after `r`,
/// and every skipped range ends at or before `start`.
proof fn lemma_skip_ranges(ranges: Seq<(usize, usize)>, r: int, start: int)
    requires
        0 <= r,
    ensures
        r <= skip_ranges(ranges, r, start),
        forall|j: int| r <= j < skip_ranges(ranges, r, start) ==> (#[trigger] ranges[j]).1 <= start,
    decreases ranges.len() - r,
{
    if 0 <= r < ranges.len() && ranges[r].1 <= start {
        lemma_skip_ranges(ranges, r + 1, start);
    }
}

/// Cutting ranges out of the first `k` spans covers exactly the bytes those
/// spans cover outside the ranges.
proof fn lemma_exclude_state_covers(spans: Seq<Span>, ranges: Seq<(usize, usize)>, k: int)
    requires
        disjoint_ordered(spans),
        ranges_ordered(ranges),
        0 <= k <= spans.len(),
    ensures
        forall|b: int, a: usize|
            #[trigger] covers_with(exclude_state(spans, ranges, k).0, b, a) <==> covers_with(spans.take(k), b, a)
                && !in_ranges(ranges, b, 0),
        0 <= exclude_state(spans, ranges, k).1,
        k > 0 ==> forall|j: int| 0 <= j < exclude_state(spans, ranges, k).1 ==> (#[trigger] ranges[j]).1 <= spans[k - 1].start_byte,
        exclude_state(spans, ranges, k).0.len() > 0 ==> k > 0 && exclude_state(spans, ranges, k).0.last().end_byte
            <= spans[k - 1].end_byte && exclude_state(spans, ranges, k).0.last().start_byte < exclude_state(
            spans,
            ranges,
            k,
        ).0.last().end_byte,
    decreases k,
{
    if k == 0 {
        assert forall|b: int, a: usize|
            #[trigger] covers_with(exclude_state(spans, ranges, k).0, b, a) <==> covers_with(spans.take(k), b, a)
                && !in_ranges(ranges, b, 0) by {
            let e = exclude_state(spans, ranges, k).0;
            let tk = spans.take(k);
            if covers_with(e, b, a) {
                let i = choose|i: int| #![trigger e[i]] 0 <= i < e.len() && e[i].start_byte <= b < e[i].end_byte && e[i].attr_id == a;
            }
            if covers_with(tk, b, a) {
                let i = choose|i: int| #![trigger tk[i]] 0 <= i < tk.len() && tk[i].start_byte <= b < tk[i].end_byte && tk[i].attr_id == a;
            }
        }
    } else {
        lemma_exclude_state_covers(spans, ranges, k - 1);
        let p = exclude_state(spans, ranges, k - 1);
        let s = spans[k - 1];
        let r = skip_ranges(ranges, p.1, s.start_byte as int);
        lemma_skip_ranges(ranges, p.1, s.start_byte as int);
        let ps = cut_pieces(s, ranges, r, s.start_byte as int);
        lemma_cut_pieces_ordered(s, ranges, r, s.start_byte as int);
        if k > 1 {
            assert(spans[k - 2].end_byte <= spans[k - 1].start_byte);
        }
        if p.0.len() > 0 {
            assert forall|i: int| 0 <= i < ps.len() implies p.0.last().end_byte <= (#[trigger] ps[i]).start_byte by {
                assert(spans[k - 2].end_byte <= spans[k - 1].start_byte);
            }
        }
        lemma_push_all_covers(p.0, ps);
        assert forall|j: int| 0 <= j < r implies (#[trigger] ranges[j]).1 <= s.start_byte by {
            if j < p.1 {
                assert(ranges[j].1 <= spans[k - 2].start_byte);
                assert(spans[k - 2].start_byte < spans[k - 2].end_byte);
            }
        }
        assert forall|b: int, a: usize|
            #[trigger] covers_with(exclude_state(spans, ranges, k).0, b, a) <==> covers_with(spans.take(k), b, a)
                && !in_ranges(ranges, b, 0) by {
            lemma_cut_pieces_covers(s, ranges, r, s.start_byte as int, b, a);
            let tk = spans.take(k);
            let tp = spans.take(k - 1);
            assert(tk == tp.push(s));
            lemma_concat_covers(tp, seq![s], b, a);
            assert(tp + seq![s] == tk);
            let one = seq![s];
            if covers_with(one, b, a) {
                let i = choose|i: int| #![trigger one[i]] 0 <= i < one.len() && one[i].start_byte <= b < one[i].end_byte && one[i].attr_id == a;
            }
            if s.start_byte <= b < s.end_byte && s.attr_id == a {
                assert(one[0] == s);
            }
            if b >= s.start_byte && in_ranges(ranges, b, 0) {
                let j = choose|j: int| 0 <= j < ranges.len() && ranges[j].0 <= b < #[trigger] ranges[j].1;
                if j < r {
                    assert(ranges[j].1 <= s.start_byte);
                }
            }
            if in_ranges(ranges, b, r) {
                let j = choose|j: int| r <= j < ranges.len() && ranges[j].0 <= b < #[trigger] ranges[j].1;
                lemma_skip_ranges(ranges, p.1, s.start_byte as int);
            }
        }
    }
}

/// Cutting ordered, disjoint ranges out of ordered, disjoint spans covers
/// each byte with the attribute of the span that covers it when no range
/// covers it, and covers nothing else.
pub proof fn lemma_excluded_covers(spans: Seq<Span>, ranges: Seq<(usize, usize)>, b: int, a: usize)
    requires
        disjoint_ordered(spans),
        ranges_ordered(ranges),
    ensures
        covers_with(excluded(spans, ranges), b, a) <==> covers_with(spans, b, a) && !in_ranges(ranges, b, 0),
{
    if ranges.len() == 0 {
    } else {
        lemma_exclude_state_covers(spans, ranges, spans.len() as int);
        assert(spans.take(spans.len() as int) == spans);
    }
}

} // verus!
