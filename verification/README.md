# syntax_color

Terminal syntax coloring with machine-checked contracts.

The library resolves Tree-sitter capture names to styles through a theme
(normalization, dotted fallback, UI roles), turns highlight spans into
ordered, non-overlapping styled spans, and renders them as ANSI/VT text:
whole buffers, per line, or as incremental patches against the previous
frame or line. It also carries the plain-value side of two C interfaces:
the theme/render interface and an editor bundle that numbers theme elements
and hands per-character attributes to an editor.

Layout:

- `src/` — the verified library (Verus). Public functions state their
  results in `ensures`; properties that span several calls are proof
  functions in `src/laws.rs` and next to the code they are about.
  Calls into Tree-sitter, `unicode-segmentation`, `unicode-width` and a few
  `std` conversions sit behind small trusted wrappers whose contracts say
  what those crates document. What a grammar's queries capture in a source,
  and whether its language and queries load, are named functions of the
  grammar (and the source): the highlighting contracts say how spans are
  built from those captures, including those of injected regions in their own
  grammars, not which captures a given grammar produces.
- `tests/` — executable tests of the library.
- `app/` — the host layer: theme documents read with serde, environment
  settings and timing logs, floating-point blending, and the `extern "C"`
  entry points that read pointers and callbacks and call the library.
