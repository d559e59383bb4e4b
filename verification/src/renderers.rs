//! Stateful renderers that emit only what changed since the previous frame.
use crate::cells::{build_styled_cells, build_styled_line_cells, clip_lines_to_viewport, clip_rows, frame_cells, line_cells, row_view, rows_view, CellView, StyledCell};
use crate::patch::{diff_lines_to_patch, diff_single_line_to_patch, frame_patch, frame_patch_upto, lemma_first_diff_equal, line_patch, row_at, row_patch};
use crate::render::{is_first_span_error, spans_valid, validate_spans, validation_outcome, RenderError, StyledSpan, PRESERVE_TERMINAL_BACKGROUND_DEFAULT};
use crate::sgr::ColorMode;
use vstd::prelude::*;

verus! {

/// Incremental renderer for a bounded terminal viewport.
///
/// Each patch moves the cursor (CUP) to the first changed cell of each changed
/// row and redraws from there.
#[derive(Debug)]
pub struct IncrementalRenderer {
    width: usize,
    height: usize,
    origin_row: usize,
    origin_col: usize,
    color_mode: ColorMode,
    preserve_terminal_background: bool,
    prev_lines: Vec<Vec<StyledCell>>,
}

/// Whether rendering `spans` over `source` took the renderer from `before`
/// to `after` and emitted `patch`: the new frame is the clipped cells of the
/// source, the patch redraws what differs from the previous frame, and the
/// viewport, origin, color mode and background choice stay as they were.
pub open spec fn patched(
    before: IncrementalRenderer,
    after: IncrementalRenderer,
    source: Seq<u8>,
    spans: Seq<StyledSpan>,
    patch: Seq<char>,
) -> bool {
    let curr = frame_cells(source, spans, before.viewport_width(), before.viewport_height());
    &&& patch == frame_patch(
        before.frame(),
        curr,
        before.origin_row_spec(),
        before.origin_col_spec(),
        before.mode(),
        before.keeps_background(),
    )
    &&& after.frame() == curr
    &&& after.viewport_width() == before.viewport_width()
    &&& after.viewport_height() == before.viewport_height()
    &&& after.origin_row_spec() == before.origin_row_spec()
    &&& after.origin_col_spec() == before.origin_col_spec()
    &&& after.mode() == before.mode()
    &&& after.keeps_background() == before.keeps_background()
}

/// Whether rendering the single line `source` with `spans` took the renderer
/// from `before` to `after` and emitted `patch`: the new line is the cells of
/// the source, the patch redraws what differs from the previous line, and the
/// color mode and background choice stay as they were.
pub open spec fn line_patched(
    before: StreamLineRenderer,
    after: StreamLineRenderer,
    source: Seq<u8>,
    spans: Seq<StyledSpan>,
    patch: Seq<char>,
) -> bool {
    let curr = line_cells(source, spans);
    &&& patch == line_patch(before.line(), curr, before.mode(), before.keeps_background())
    &&& after.line() == curr
    &&& after.mode() == before.mode()
    &&& after.keeps_background() == before.keeps_background()
}

impl IncrementalRenderer {
    /// The viewport is at least one cell wide and high, and the origin is at
    /// or after terminal row and column `1`.
    #[verifier::type_invariant]
    pub closed spec fn well_formed(&self) -> bool {
        &&& self.width >= 1
        &&& self.height >= 1
        &&& self.origin_row >= 1
        &&& self.origin_col >= 1
    }

    /// The viewport width in columns.
    pub closed spec fn viewport_width(&self) -> int {
        self.width as int
    }

    /// The viewport height in rows.
    pub closed spec fn viewport_height(&self) -> int {
        self.height as int
    }

    /// The 1-based terminal row of the viewport's top edge.
    pub closed spec fn origin_row_spec(&self) -> int {
        self.origin_row as int
    }

    /// The 1-based terminal column of the viewport's left edge.
    pub closed spec fn origin_col_spec(&self) -> int {
        self.origin_col as int
    }

    /// The color mode of emitted styles.
    pub closed spec fn mode(&self) -> ColorMode {
        self.color_mode
    }

    /// Whether theme backgrounds are left out so the terminal's own shows.
    pub closed spec fn keeps_background(&self) -> bool {
        self.preserve_terminal_background
    }

    /// The frame last rendered.
    pub closed spec fn frame(&self) -> Seq<Seq<CellView>> {
        rows_view(self.prev_lines@)
    }

    /// Creates an incremental renderer with a bounded viewport size.
    ///
    /// A minimum viewport size of `1x1` is enforced.
    /// The render origin defaults to terminal row `1`, column `1`.
    pub fn new(width: usize, height: usize) -> (r: Self)
        ensures
            r.viewport_width() == if width < 1 { 1 } else { width as int },
            r.viewport_height() == if height < 1 { 1 } else { height as int },
            r.origin_row_spec() == 1,
            r.origin_col_spec() == 1,
            r.mode() == ColorMode::TrueColor,
            r.keeps_background() == PRESERVE_TERMINAL_BACKGROUND_DEFAULT,
            r.frame() == Seq::<Seq<CellView>>::empty(),
            r.well_formed(),
    {
        let r = IncrementalRenderer {
            width: if width < 1 {
                1
            } else {
                width
            },
            height: if height < 1 {
                1
            } else {
                height
            },
            origin_row: 1,
            origin_col: 1,
            color_mode: ColorMode::TrueColor,
            preserve_terminal_background: PRESERVE_TERMINAL_BACKGROUND_DEFAULT,
            prev_lines: Vec::new(),
        };
        assert(r.frame() =~= Seq::<Seq<CellView>>::empty());
        r
    }

    /// Resizes the viewport and clips cached state to the new bounds.
    pub fn resize(&mut self, width: usize, height: usize)
        ensures
            final(self).viewport_width() == if width < 1 { 1 } else { width as int },
            final(self).viewport_height() == if height < 1 { 1 } else { height as int },
            final(self).frame() == clip_rows(
                old(self).frame(),
                final(self).viewport_width(),
                final(self).viewport_height(),
            ),
            final(self).origin_row_spec() == old(self).origin_row_spec(),
            final(self).origin_col_spec() == old(self).origin_col_spec(),
            final(self).mode() == old(self).mode(),
            final(self).keeps_background() == old(self).keeps_background(),
            final(self).well_formed(),
    {
        proof {
            use_type_invariant(&*self);
        }
        self.width = if width < 1 {
            1
        } else {
            width
        };
        self.height = if height < 1 {
            1
        } else {
            height
        };
        self.prev_lines = clip_lines_to_viewport(self.prev_lines.as_slice(), self.width, self.height);
    }

    /// Clears all cached frame state for this renderer.
    pub fn clear_state(&mut self)
        ensures
            final(self).frame() == Seq::<Seq<CellView>>::empty(),
            final(self).viewport_width() == old(self).viewport_width(),
            final(self).viewport_height() == old(self).viewport_height(),
            final(self).origin_row_spec() == old(self).origin_row_spec(),
            final(self).origin_col_spec() == old(self).origin_col_spec(),
            final(self).mode() == old(self).mode(),
            final(self).keeps_background() == old(self).keeps_background(),
            final(self).well_formed(),
    {
        proof {
            use_type_invariant(&*self);
        }
        self.prev_lines = Vec::new();
        assert(self.frame() =~= Seq::<Seq<CellView>>::empty());
    }

    /// Sets the terminal origin used for generated CUP cursor positions.
    ///
    /// The origin is 1-based terminal coordinates (`row`, `col`) in display cells.
    /// Values lower than `1` are clamped to `1`.
    pub fn set_origin(&mut self, row: usize, col: usize)
        ensures
            final(self).origin_row_spec() == if row < 1 { 1 } else { row as int },
            final(self).origin_col_spec() == if col < 1 { 1 } else { col as int },
            final(self).frame() == old(self).frame(),
            final(self).viewport_width() == old(self).viewport_width(),
            final(self).viewport_height() == old(self).viewport_height(),
            final(self).mode() == old(self).mode(),
            final(self).keeps_background() == old(self).keeps_background(),
            final(self).well_formed(),
    {
        proof {
            use_type_invariant(&*self);
        }
        self.origin_row = if row < 1 {
            1
        } else {
            row
        };
        self.origin_col = if col < 1 {
            1
        } else {
            col
        };
    }

    /// Returns the current 1-based terminal origin (`row`, `col`).
    pub fn origin(&self) -> (r: (usize, usize))
        ensures
            r.0 as int == self.origin_row_spec(),
            r.1 as int == self.origin_col_spec(),
            self.well_formed(),
    {
        proof {
            use_type_invariant(self);
        }
        (self.origin_row, self.origin_col)
    }

    /// Sets the ANSI color mode used by this renderer.
    pub fn set_color_mode(&mut self, color_mode: ColorMode)
        ensures
            final(self).mode() == color_mode,
            final(self).frame() == old(self).frame(),
            final(self).viewport_width() == old(self).viewport_width(),
            final(self).viewport_height() == old(self).viewport_height(),
            final(self).origin_row_spec() == old(self).origin_row_spec(),
            final(self).origin_col_spec() == old(self).origin_col_spec(),
            final(self).keeps_background() == old(self).keeps_background(),
            final(self).well_formed(),
    {
        proof {
            use_type_invariant(&*self);
        }
        self.color_mode = color_mode;
    }

    /// Returns the current ANSI color mode.
    pub fn color_mode(&self) -> (m: ColorMode)
        ensures
            m == self.mode(),
            self.well_formed(),
    {
        proof {
            use_type_invariant(self);
        }
        self.color_mode
    }

    /// Controls whether ANSI rendering preserves the terminal's existing background.
    ///
    /// When set to `true` (default), background colors from the theme are ignored.
    /// When set to `false`, background colors from resolved theme styles are emitted.
    pub fn set_preserve_terminal_background(&mut self, preserve_terminal_background: bool)
        ensures
            final(self).keeps_background() == preserve_terminal_background,
            final(self).frame() == old(self).frame(),
            final(self).viewport_width() == old(self).viewport_width(),
            final(self).viewport_height() == old(self).viewport_height(),
            final(self).origin_row_spec() == old(self).origin_row_spec(),
            final(self).origin_col_spec() == old(self).origin_col_spec(),
            final(self).mode() == old(self).mode(),
            final(self).well_formed(),
    {
        proof {
            use_type_invariant(&*self);
        }
        self.preserve_terminal_background = preserve_terminal_background;
    }

    /// Returns whether terminal background passthrough is enabled.
    pub fn preserve_terminal_background(&self) -> (b: bool)
        ensures
            b == self.keeps_background(),
            self.well_formed(),
    {
        proof {
            use_type_invariant(self);
        }
        self.preserve_terminal_background
    }

    /// Renders only the VT patch from the cached frame to `source`.
    ///
    /// The method validates input spans, projects them to styled terminal cells,
    /// diffs against previous state, and returns only changed cursor/style output.
    ///
    /// # Errors
    ///
    /// Returns an error when spans are out of bounds, unsorted, or overlapping;
    /// the renderer is then left unchanged.
    pub fn render_patch(&mut self, source: &[u8], spans: &[StyledSpan]) -> (r: Result<String, RenderError>)
        ensures
            validation_outcome(spans@, source@.len() as int, r),
            r is Err ==> *final(self) == *old(self),
            r matches Ok(patch) ==> patched(*old(self), *final(self), source@, spans@, patch@),
            final(self).well_formed(),
    {
        proof {
            use_type_invariant(&*self);
        }
        match validate_spans(source.len(), spans) {
            Ok(()) => {},
            Err(e) => {
                return Err(e);
            },
        }
        let curr_lines = build_styled_cells(source, spans, self.width, self.height);
        let patch = diff_lines_to_patch(
            self.prev_lines.as_slice(),
            curr_lines.as_slice(),
            self.origin_row,
            self.origin_col,
            self.color_mode,
            self.preserve_terminal_background,
        );
        self.prev_lines = curr_lines;
        Ok(patch)
    }
}

/// Incremental renderer for a single mutable line without terminal width assumptions.
///
/// This renderer avoids absolute cursor positioning. It assumes each emitted
/// patch is written to the same terminal line and the cursor remains at the end
/// of the previously rendered line.
#[derive(Debug)]
pub struct StreamLineRenderer {
    color_mode: ColorMode,
    preserve_terminal_background: bool,
    prev_line: Vec<StyledCell>,
}

impl Default for StreamLineRenderer {
    fn default() -> (r: Self)
        ensures
            r.mode() == ColorMode::TrueColor,
            r.keeps_background() == PRESERVE_TERMINAL_BACKGROUND_DEFAULT,
            r.line() == Seq::<CellView>::empty(),
    {
        let r = StreamLineRenderer {
            color_mode: ColorMode::TrueColor,
            preserve_terminal_background: PRESERVE_TERMINAL_BACKGROUND_DEFAULT,
            prev_line: Vec::new(),
        };
        assert(r.line() =~= Seq::<CellView>::empty());
        r
    }
}

impl StreamLineRenderer {
    /// The color mode of emitted styles.
    pub closed spec fn mode(&self) -> ColorMode {
        self.color_mode
    }

    /// Whether theme backgrounds are left out so the terminal's own shows.
    pub closed spec fn keeps_background(&self) -> bool {
        self.preserve_terminal_background
    }

    /// The line last rendered.
    pub closed spec fn line(&self) -> Seq<CellView> {
        row_view(self.prev_line@)
    }

    /// Creates a line renderer with truecolor output.
    pub fn new() -> (r: Self)
        ensures
            r.mode() == ColorMode::TrueColor,
            r.keeps_background() == PRESERVE_TERMINAL_BACKGROUND_DEFAULT,
            r.line() == Seq::<CellView>::empty(),
    {
        StreamLineRenderer::default()
    }

    /// Clears prior line state.
    pub fn clear_state(&mut self)
        ensures
            final(self).line() == Seq::<CellView>::empty(),
            final(self).mode() == old(self).mode(),
            final(self).keeps_background() == old(self).keeps_background(),
    {
        self.prev_line.clear();
        assert(self.line() =~= Seq::<CellView>::empty());
    }

    /// Sets the ANSI color mode used by this renderer.
    pub fn set_color_mode(&mut self, color_mode: ColorMode)
        ensures
            final(self).mode() == color_mode,
            final(self).line() == old(self).line(),
            final(self).keeps_background() == old(self).keeps_background(),
    {
        self.color_mode = color_mode;
    }

    /// Returns the current ANSI color mode.
    pub fn color_mode(&self) -> (m: ColorMode)
        ensures
            m == self.mode(),
    {
        self.color_mode
    }

    /// Controls whether ANSI rendering preserves the terminal's existing background.
    ///
    /// When set to `true` (default), background colors from the theme are ignored.
    /// When set to `false`, background colors from resolved theme styles are emitted.
    pub fn set_preserve_terminal_background(&mut self, preserve_terminal_background: bool)
        ensures
            final(self).keeps_background() == preserve_terminal_background,
            final(self).line() == old(self).line(),
            final(self).mode() == old(self).mode(),
    {
        self.preserve_terminal_background = preserve_terminal_background;
    }

    /// Returns whether terminal background passthrough is enabled.
    pub fn preserve_terminal_background(&self) -> (b: bool)
        ensures
            b == self.keeps_background(),
    {
        self.preserve_terminal_background
    }

    /// Renders a width-independent patch for a single line.
    ///
    /// # Errors
    ///
    /// Returns an error when spans are invalid or input contains a newline;
    /// the renderer is then left unchanged.
    pub fn render_line_patch(&mut self, source: &[u8], spans: &[StyledSpan]) -> (r: Result<
        String,
        RenderError,
    >)
        ensures
            !spans_valid(spans@, source@.len() as int) ==> (r matches Err(e)
                && is_first_span_error(spans@, source@.len() as int, e)),
            spans_valid(spans@, source@.len() as int) && source@.contains(10u8) ==> (r matches Err(
                RenderError::MultiLineInput,
            )),
            spans_valid(spans@, source@.len() as int) && !source@.contains(10u8) ==> r is Ok,
            r is Err ==> *final(self) == *old(self),
            r matches Ok(patch) ==> line_patched(*old(self), *final(self), source@, spans@, patch@),
    {
        match validate_spans(source.len(), spans) {
            Ok(()) => {},
            Err(e) => {
                return Err(e);
            },
        }
        let mut i: usize = 0;
        while i < source.len()
            invariant
                i <= source@.len(),
                spans_valid(spans@, source@.len() as int),
                forall|j: int| 0 <= j < i ==> source@[j] != 10u8,
            decreases source@.len() - i,
        {
            if source[i] == 10u8 {
                assert(source@.contains(10u8)) by {
                    assert(source@[i as int] == 10u8);
                }
                return Err(RenderError::MultiLineInput);
            }
            i += 1;
        }
        let curr_line = build_styled_line_cells(source, spans);
        let patch = diff_single_line_to_patch(
            self.prev_line.as_slice(),
            curr_line.as_slice(),
            self.color_mode,
            self.preserve_terminal_background,
        );
        self.prev_line = curr_line;
        Ok(patch)
    }
}

/// Redrawing a line over itself emits nothing.
pub proof fn lemma_line_patch_of_same_line_is_empty(line: Seq<CellView>, mode: ColorMode, pb: bool)
    ensures
        line_patch(line, line, mode, pb) == Seq::<char>::empty(),
{
    lemma_first_diff_equal(line, 0);
}

/// Redrawing a frame over itself emits nothing.
pub proof fn lemma_frame_patch_of_same_frame_is_empty(
    frame: Seq<Seq<CellView>>,
    origin_row: int,
    origin_col: int,
    mode: ColorMode,
    pb: bool,
)
    ensures
        frame_patch(frame, frame, origin_row, origin_col, mode, pb) == Seq::<char>::empty(),
{
    lemma_frame_patch_upto_same(frame, frame.len() as int, origin_row, origin_col, mode, pb);
}

proof fn lemma_frame_patch_upto_same(
    frame: Seq<Seq<CellView>>,
    k: int,
    origin_row: int,
    origin_col: int,
    mode: ColorMode,
    pb: bool,
)
    ensures
        frame_patch_upto(frame, frame, k, origin_row, origin_col, mode, pb) == Seq::<char>::empty(),
    decreases k,
{
    if k > 0 {
        lemma_frame_patch_upto_same(frame, k - 1, origin_row, origin_col, mode, pb);
        lemma_first_diff_equal(row_at(frame, k - 1), 0);
        assert(row_patch(row_at(frame, k - 1), row_at(frame, k - 1), k - 1, origin_row, origin_col, mode, pb) == Seq::<char>::empty());
        assert(Seq::<char>::empty() + Seq::<char>::empty() =~= Seq::<char>::empty());
    }
}

} // verus!
