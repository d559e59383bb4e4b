//! Resolving highlight spans to styled spans with a theme.
use crate::render::{RenderError, StyledSpan};
use crate::spans::{Attr, HighlightResult, Span};
use crate::style::{merge_styles, merged_style, Style};
use crate::theme::{lookup, normalized_name, resolve_in, Theme};
use vstd::prelude::*;

verus! {

/// The capture names of attributes, by position.
pub open spec fn attr_names(attrs: Seq<Attr>) -> Seq<Seq<char>> {
    attrs.map_values(|a: Attr| a.capture_name@)
}

/// The style of a capture: its resolved theme style layered over `normal`.
pub open spec fn capture_style(styles: Map<Seq<char>, Style>, name: Seq<char>) -> Option<Style> {
    merged_style(
        lookup(styles, normalized_name("normal"@)),
        resolve_in(styles, normalized_name(name)),
    )
}

/// A highlight span with the style of its capture.
pub open spec fn resolved_span(
    names: Seq<Seq<char>>,
    styles: Map<Seq<char>, Style>,
    sp: Span,
) -> StyledSpan {
    StyledSpan {
        start_byte: sp.start_byte,
        end_byte: sp.end_byte,
        style: capture_style(styles, names[sp.attr_id as int]),
    }
}

/// Whether every span names an attribute position that exists.
pub open spec fn attr_ids_valid(spans: Seq<Span>, n_attrs: int) -> bool {
    forall|i: int| 0 <= i < spans.len() ==> (#[trigger] spans[i]).attr_id < n_attrs
}

/// Whether `e` reports the first span that names a missing attribute.
pub open spec fn is_first_attr_error(spans: Seq<Span>, n_attrs: int, e: RenderError) -> bool {
    exists|i: int|
        0 <= i < spans.len() && (forall|j: int| 0 <= j < i ==> (#[trigger] spans[j]).attr_id < n_attrs)
            && spans[i].attr_id >= n_attrs && e == (RenderError::InvalidAttrId {
            attr_id: spans[i].attr_id,
            attrs_len: n_attrs as usize,
        })
}

/// Whether `r` resolves the spans of a highlight result with a theme's styles.
pub open spec fn resolves(
    h_attrs: Seq<Attr>,
    h_spans: Seq<Span>,
    styles: Map<Seq<char>, Style>,
    r: Result<Vec<StyledSpan>, RenderError>,
) -> bool {
    match r {
        Ok(v) => attr_ids_valid(h_spans, h_attrs.len() as int) && v@ == h_spans.map_values(
            |sp: Span| resolved_span(attr_names(h_attrs), styles, sp),
        ),
        Err(e) => !attr_ids_valid(h_spans, h_attrs.len() as int) && is_first_attr_error(
            h_spans,
            h_attrs.len() as int,
            e,
        ),
    }
}

/// Resolves highlight spans into renderable spans by attaching theme styles.
///
/// Resolved capture styles are layered over the theme `normal` style, so token
/// styles inherit unspecified fields (for example background color).
///
/// # Errors
///
/// Returns [`RenderError::InvalidAttrId`] when a span references a missing attribute.
pub fn resolve_styled_spans(highlight: &HighlightResult, theme: &Theme) -> (r: Result<
    Vec<StyledSpan>,
    RenderError,
>)
    ensures
        resolves(highlight.attrs@, highlight.spans@, theme.styles@, r),
{
    let normal_style = match theme.get_exact("normal") {
        Some(s) => Some(*s),
        None => None,
    };
    let ghost names = attr_names(highlight.attrs@);
    let ghost hs = highlight.spans@;
    let mut out: Vec<StyledSpan> = Vec::new();
    let mut i: usize = 0;
    while i < highlight.spans.len()
        invariant
            i <= hs.len(),
            hs == highlight.spans@,
            names == attr_names(highlight.attrs@),
            normal_style == lookup(theme.styles@, normalized_name("normal"@)),
            forall|j: int| 0 <= j < i ==> (#[trigger] hs[j]).attr_id < highlight.attrs@.len(),
            out@ == hs.take(i as int).map_values(|sp: Span| resolved_span(names, theme.styles@, sp)),
        decreases hs.len() - i,
    {
        let span = highlight.spans[i];
        if span.attr_id >= highlight.attrs.len() {
            let e = RenderError::InvalidAttrId {
                attr_id: span.attr_id,
                attrs_len: highlight.attrs.len(),
            };
            assert(hs[i as int].attr_id >= highlight.attrs@.len());
            return Err(e);
        }
        let attr = &highlight.attrs[span.attr_id];
        let capture = match theme.resolve(attr.capture_name.as_str()) {
            Some(s) => Some(*s),
            None => None,
        };
        let style = merge_styles(normal_style, capture);
        let ghost before = out@;
        out.push(StyledSpan { start_byte: span.start_byte, end_byte: span.end_byte, style });
        proof {
            assert(names[span.attr_id as int] == attr.capture_name@);
            assert(out@ =~= hs.take(i + 1).map_values(
                |sp: Span| resolved_span(names, theme.styles@, sp),
            ));
        }
        i += 1;
    }
    assert(hs.take(hs.len() as int) == hs);
    Ok(out)
}

/// Where filling stands after the first `k` spans: the furthest end seen.
pub open spec fn fill_cursor(spans: Seq<StyledSpan>, k: int) -> int
    decreases k,
{
    if k <= 0 {
        0
    } else {
        let c = fill_cursor(spans, k - 1);
        if c > spans[k - 1].end_byte {
            c
        } else {
            spans[k - 1].end_byte as int
        }
    }
}

/// The spans produced from the first `k` spans: before each span, a span of
/// style `d` over the gap since the furthest end seen; then the span itself
/// unless it is empty.
pub open spec fn fill_upto(spans: Seq<StyledSpan>, k: int, d: Style) -> Seq<StyledSpan>
    decreases k,
{
    if k <= 0 {
        seq![]
    } else {
        let c = fill_cursor(spans, k - 1);
        let s = spans[k - 1];
        let gap = if c < s.start_byte {
            seq![StyledSpan { start_byte: c as usize, end_byte: s.start_byte, style: Some(d) }]
        } else {
            seq![]
        };
        let own = if s.start_byte < s.end_byte {
            seq![s]
        } else {
            seq![]
        };
        fill_upto(spans, k - 1, d) + gap + own
    }
}

/// The spans with every byte of `[0, source_len)` they leave uncovered given
/// the default style, when there is one.
pub open spec fn filled(source_len: int, spans: Seq<StyledSpan>, default_style: Option<Style>) -> Seq<
    StyledSpan,
> {
    match default_style {
        None => spans,
        Some(d) => {
            let c = fill_cursor(spans, spans.len() as int);
            fill_upto(spans, spans.len() as int, d) + if c < source_len {
                seq![StyledSpan { start_byte: c as usize, end_byte: source_len as usize, style: Some(d) }]
            } else {
                seq![]
            }
        },
    }
}

/// Inserts default-style spans for byte ranges not covered by highlight spans.
pub fn fill_uncovered_ranges_with_style(
    source_len: usize,
    spans: Vec<StyledSpan>,
    default_style: Option<Style>,
) -> (out: Vec<StyledSpan>)
    ensures
        out@ == filled(source_len as int, spans@, default_style),
{
    let d = match default_style {
        Some(d) => d,
        None => {
            return spans;
        },
    };
    let mut out: Vec<StyledSpan> = Vec::new();
    let mut cursor: usize = 0;
    let mut i: usize = 0;
    while i < spans.len()
        invariant
            i <= spans@.len(),
            cursor as int == fill_cursor(spans@, i as int),
            out@ == fill_upto(spans@, i as int, d),
        decreases spans@.len() - i,
    {
        let span = spans[i];
        let ghost before = out@;
        if cursor < span.start_byte {
            out.push(StyledSpan { start_byte: cursor, end_byte: span.start_byte, style: Some(d) });
        }
        let ghost mid = out@;
        if span.start_byte < span.end_byte {
            out.push(span);
        }
        proof {
            let gap = if (cursor as int) < span.start_byte {
                seq![StyledSpan { start_byte: cursor, end_byte: span.start_byte, style: Some(d) }]
            } else {
                seq![]
            };
            let own = if span.start_byte < span.end_byte {
                seq![span]
            } else {
                seq![]
            };
            assert(mid =~= before + gap);
            assert(out@ =~= before + gap + own);
        }
        if span.end_byte > cursor {
            cursor = span.end_byte;
        }
        i += 1;
    }
    let ghost before = out@;
    if cursor < source_len {
        out.push(StyledSpan { start_byte: cursor, end_byte: source_len, style: Some(d) });
    }
    proof {
        if cursor < source_len {
            assert(out@ =~= before + seq![StyledSpan { start_byte: cursor, end_byte: source_len, style: Some(d) }]);
        } else {
            assert(out@ =~= before + Seq::<StyledSpan>::empty());
        }
    }
    out
}

/// Resolves styled spans and fills uncovered byte ranges with `normal` style.
///
/// # Errors
///
/// Returns [`RenderError::InvalidAttrId`] when a span references a missing attribute.
pub fn resolve_styled_spans_for_source(
    source_len: usize,
    highlight: &HighlightResult,
    theme: &Theme,
) -> (r: Result<Vec<StyledSpan>, RenderError>)
    ensures
        match r {
            Ok(v) => attr_ids_valid(highlight.spans@, highlight.attrs@.len() as int) && v@ == filled(
                source_len as int,
                highlight.spans@.map_values(
                    |sp: Span| resolved_span(attr_names(highlight.attrs@), theme.styles@, sp),
                ),
                lookup(theme.styles@, normalized_name("normal"@)),
            ),
            Err(e) => !attr_ids_valid(highlight.spans@, highlight.attrs@.len() as int)
                && is_first_attr_error(highlight.spans@, highlight.attrs@.len() as int, e),
        },
{
    let spans = match resolve_styled_spans(highlight, theme) {
        Ok(v) => v,
        Err(e) => {
            return Err(e);
        },
    };
    let normal = match theme.get_exact("normal") {
        Some(s) => Some(*s),
        None => None,
    };
    Ok(fill_uncovered_ranges_with_style(source_len, spans, normal))
}

} // verus!
