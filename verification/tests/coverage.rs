use syntax_color::highlighter::{spans_from_candidates, CaptureCandidate};
use syntax_color::render::StyledSpan;
use syntax_color::renderers::IncrementalRenderer;
use syntax_color::spans::{exclude_ranges, normalize_spans, Span};
use syntax_color::style::Style;

fn sp(attr_id: usize, start_byte: usize, end_byte: usize) -> Span {
    Span { attr_id, start_byte, end_byte }
}

fn cand(attr_id: usize, start_byte: usize, end_byte: usize, render_priority: usize, order: usize) -> CaptureCandidate {
    CaptureCandidate {
        attr_id,
        start_byte,
        end_byte,
        render_priority,
        specificity: 1,
        pattern_index: 0,
        order,
    }
}

#[test]
fn normalizing_keeps_the_first_cover_of_each_byte() {
    let out = normalize_spans(vec![sp(2, 3, 8), sp(1, 0, 5), sp(3, 10, 12)]);
    assert_eq!(out, vec![sp(1, 0, 5), sp(2, 5, 8), sp(3, 10, 12)]);
}

#[test]
fn excluding_leaves_bytes_outside_the_ranges() {
    let out = exclude_ranges(&[sp(1, 0, 10), sp(2, 12, 20)], &[(3, 5), (8, 14)]);
    assert_eq!(out, vec![sp(1, 0, 3), sp(1, 5, 8), sp(2, 14, 20)]);
}

#[test]
fn each_byte_takes_its_best_covering_capture() {
    let cands = vec![cand(1, 0, 10, 0, 0), cand(2, 2, 5, 0, 1), cand(3, 4, 6, 1, 2)];
    let out = normalize_spans(spans_from_candidates(&cands));
    assert_eq!(out, vec![sp(1, 0, 2), sp(2, 2, 4), sp(3, 4, 6), sp(1, 6, 10)]);
}

#[test]
fn shrinking_the_viewport_leaves_nothing_to_redraw() {
    let bold = Style { bold: true, ..Style::default() };
    let source = b"let value = 1;\nprint(value)\nend";
    let spans = vec![StyledSpan { start_byte: 0, end_byte: 3, style: Some(bold) }];
    let mut r = IncrementalRenderer::new(12, 3);
    let first = r.render_patch(source, &spans).unwrap();
    assert!(!first.is_empty());
    r.resize(5, 2);
    assert_eq!(r.render_patch(source, &spans).unwrap(), "");
    let mut fresh = IncrementalRenderer::new(5, 2);
    let drawn = fresh.render_patch(source, &spans).unwrap();
    let mut cleared = IncrementalRenderer::new(5, 2);
    cleared.render_patch(b"zzz", &[]).unwrap();
    cleared.clear_state();
    assert_eq!(cleared.render_patch(source, &spans).unwrap(), drawn);
}
