//! Laying out the visible terminal grid for drawing: cells batched into
//! text runs of one style, background colors merged into spans, the text of
//! each line kept for URL detection, selection spans and the cursor cell.
use vstd::prelude::*;
use crate::urls::{LineText, UrlRegion};
use crate::text::{push_char, str_eq};

verus! {

/// How a cell's text is drawn. Colors are opaque keys: equal keys are the
/// same color.
#[derive(Clone, Copy, Debug, PartialEq, Eq, Structural)]
pub struct CellStyle {
    pub fg: u64,
    pub bold: bool,
    pub italic: bool,
    pub underline: bool,
    pub strikethrough: bool,
}

/// One visible cell, with its colors already resolved.
#[derive(Clone, Copy, Debug, PartialEq, Eq, Structural)]
pub struct GridCell {
    pub line: i32,
    pub col: usize,
    pub ch: char,
    pub style: CellStyle,
    pub bg: u64,
    /// The cell holds a character two columns wide.
    pub wide: bool,
    /// The cell is the second column of a wide character.
    pub spacer: bool,
}

/// A run of text in one style starting at a column.
#[derive(Clone, Debug)]
pub struct TextRun {
    pub text: String,
    pub style: CellStyle,
    pub start_col: usize,
}

/// The runs of one line.
#[derive(Clone, Debug)]
pub struct PreparedLine {
    pub line_idx: usize,
    pub runs: Vec<TextRun>,
}

/// A span of background color on a line (end column exclusive).
#[derive(Clone, Copy, Debug, PartialEq, Eq, Structural)]
pub struct BgRegion {
    pub line: i32,
    pub start_col: usize,
    pub end_col: usize,
    pub color: u64,
}

/// The content of a text run.
#[verifier::ext_equal]
pub struct RunView {
    pub text: Seq<char>,
    pub style: CellStyle,
    pub start_col: usize,
}

/// The content of line text kept for URL detection.
#[verifier::ext_equal]
pub struct TextView {
    pub line: i32,
    pub text: Seq<char>,
    pub offsets: Seq<(usize, usize)>,
}

/// The state of laying out cells one by one.
#[verifier::ext_equal]
pub struct Acc {
    pub lines: Seq<(usize, Seq<RunView>)>,
    pub current_line: i32,
    pub runs: Seq<RunView>,
    pub run_text: Seq<char>,
    pub run_style: CellStyle,
    pub run_start: usize,
    pub bg_start: usize,
    pub bg_color: Option<u64>,
    pub bg_line: i32,
    pub regions: Seq<BgRegion>,
    pub texts: Seq<TextView>,
    pub line_text: Seq<char>,
    pub offsets: Seq<(usize, usize)>,
    pub url_line: i32,
    pub cursor_wide: bool,
}

/// The character drawn for a cell: blanks and NULs as spaces.
pub open spec fn shown(c: char) -> char {
    if c != ' ' && c != '\0' { c } else { ' ' }
}

/// The regions after closing a background span ending at `end`: kept when
/// it has a color other than the terminal's and is not empty.
pub open spec fn close_bg(regions: Seq<BgRegion>, color: Option<u64>, line: i32, start: usize, end: usize, terminal_bg: u64) -> Seq<BgRegion> {
    match color {
        Some(c) => if c != terminal_bg && end > start {
            regions.push(BgRegion { line, start_col: start, end_col: end, color: c })
        } else {
            regions
        },
        None => regions,
    }
}

/// The runs after closing the pending run, if it has text.
pub open spec fn close_run(a: Acc) -> Seq<RunView> {
    if a.run_text.len() > 0 {
        a.runs.push(RunView { text: a.run_text, style: a.run_style, start_col: a.run_start })
    } else {
        a.runs
    }
}

/// The state when a cell of a new line arrives: the pending run, the
/// background span, the line's runs and its text are closed, and the new
/// line starts at the cell's column.
pub open spec fn start_line(a: Acc, c: GridCell, cols: usize, terminal_bg: u64) -> Acc {
    let runs = close_run(a);
    Acc {
        lines: if runs.len() > 0 { a.lines.push((a.current_line as usize, runs)) } else { a.lines },
        current_line: c.line,
        runs: Seq::empty(),
        run_text: Seq::empty(),
        run_start: c.col,
        bg_start: c.col,
        bg_color: None,
        bg_line: c.line,
        regions: close_bg(a.regions, a.bg_color, a.bg_line, a.bg_start, if a.bg_line >= 0 { cols } else { 0 }, terminal_bg),
        texts: if a.line_text.len() > 0 {
            a.texts.push(TextView { line: a.url_line, text: a.line_text, offsets: a.offsets })
        } else {
            a.texts
        },
        line_text: Seq::empty(),
        offsets: Seq::empty(),
        url_line: c.line,
        ..a
    }
}

/// The state after a cell's background: a new span starts where the color
/// changes.
pub open spec fn merge_bg(a: Acc, c: GridCell, terminal_bg: u64) -> Acc {
    if a.bg_color != Some(c.bg) {
        Acc {
            regions: close_bg(a.regions, a.bg_color, a.bg_line, a.bg_start, c.col, terminal_bg),
            bg_start: c.col,
            bg_color: Some(c.bg),
            ..a
        }
    } else {
        a
    }
}

/// The state after a wide character: the pending run is closed and the
/// character gets a run of its own.
pub open spec fn add_wide(a: Acc, c: GridCell) -> Acc {
    Acc {
        runs: close_run(a).push(RunView { text: seq![shown(c.ch)], style: c.style, start_col: c.col }),
        run_text: Seq::empty(),
        offsets: a.offsets.push((c.col, 2usize)),
        line_text: a.line_text.push(shown(c.ch)),
        ..a
    }
}

/// The state after a normal character: it joins the pending run when the
/// style is the same, else it starts a new run.
pub open spec fn add_normal(a: Acc, c: GridCell) -> Acc {
    let split = c.style != a.run_style && a.run_text.len() > 0;
    let b = if split {
        Acc { runs: close_run(a), run_text: Seq::empty(), run_start: c.col, ..a }
    } else {
        a
    };
    let d = if b.run_text.len() == 0 {
        Acc { run_style: c.style, run_start: c.col, ..b }
    } else {
        b
    };
    Acc {
        run_text: d.run_text.push(shown(c.ch)),
        offsets: d.offsets.push((c.col, 1usize)),
        line_text: d.line_text.push(shown(c.ch)),
        ..d
    }
}

/// The state after one cell (spacers of wide characters are skipped).
pub open spec fn step(a: Acc, c: GridCell, cursor: (i32, usize), cols: usize, terminal_bg: u64) -> Acc {
    if c.spacer {
        a
    } else {
        let a1 = if c.line != a.current_line { start_line(a, c, cols, terminal_bg) } else { a };
        let a2 = merge_bg(a1, c, terminal_bg);
        let a3 = if c.wide && c.line == cursor.0 && c.col == cursor.1 { Acc { cursor_wide: true, ..a2 } } else { a2 };
        if c.wide { add_wide(a3, c) } else { add_normal(a3, c) }
    }
}

/// The state before any cell.
pub open spec fn initial(terminal_fg: u64) -> Acc {
    Acc {
        lines: Seq::empty(),
        current_line: -1i32,
        runs: Seq::empty(),
        run_text: Seq::empty(),
        run_style: CellStyle { fg: terminal_fg, bold: false, italic: false, underline: false, strikethrough: false },
        run_start: 0,
        bg_start: 0,
        bg_color: None,
        bg_line: -1i32,
        regions: Seq::empty(),
        texts: Seq::empty(),
        line_text: Seq::empty(),
        offsets: Seq::empty(),
        url_line: -1i32,
        cursor_wide: false,
    }
}

/// The state after the given cells.
pub open spec fn fold(cells: Seq<GridCell>, cursor: (i32, usize), cols: usize, terminal_fg: u64, terminal_bg: u64) -> Acc
    decreases cells.len(),
{
    if cells.len() == 0 {
        initial(terminal_fg)
    } else {
        step(fold(cells.drop_last(), cursor, cols, terminal_fg, terminal_bg), cells.last(), cursor, cols, terminal_bg)
    }
}

/// The state after the last cell: the pending run, line, background span
/// and text are closed.
pub open spec fn finish(a: Acc, cols: usize, terminal_bg: u64) -> Acc {
    let runs = close_run(a);
    Acc {
        lines: if runs.len() > 0 { a.lines.push((a.current_line as usize, runs)) } else { a.lines },
        runs: Seq::empty(),
        run_text: Seq::empty(),
        regions: close_bg(a.regions, a.bg_color, a.bg_line, a.bg_start, cols, terminal_bg),
        bg_color: None,
        texts: if a.line_text.len() > 0 {
            a.texts.push(TextView { line: a.url_line, text: a.line_text, offsets: a.offsets })
        } else {
            a.texts
        },
        line_text: Seq::empty(),
        offsets: Seq::empty(),
        ..a
    }
}

/// The content of a list of runs.
pub open spec fn run_views(v: Seq<TextRun>) -> Seq<RunView> {
    v.map_values(|r: TextRun| RunView { text: r.text@, style: r.style, start_col: r.start_col })
}

/// The content of a list of prepared lines.
pub open spec fn line_views(v: Seq<PreparedLine>) -> Seq<(usize, Seq<RunView>)> {
    v.map_values(|l: PreparedLine| (l.line_idx, run_views(l.runs@)))
}

/// The content of a list of line texts.
pub open spec fn text_views(v: Seq<LineText>) -> Seq<TextView> {
    v.map_values(|l: LineText| TextView { line: l.line, text: l.text@, offsets: l.col_offsets@ })
}

/// The laid-out grid.
pub struct GridLayout {
    pub lines: Vec<PreparedLine>,
    pub bg_regions: Vec<BgRegion>,
    pub line_texts: Vec<LineText>,
    /// The cursor stands on a wide character.
    pub cursor_is_wide: bool,
}

struct Batcher {
    lines: Vec<PreparedLine>,
    current_line: i32,
    runs: Vec<TextRun>,
    run_text: String,
    run_style: CellStyle,
    run_start: usize,
    bg_start: usize,
    bg_color: Option<u64>,
    bg_line: i32,
    regions: Vec<BgRegion>,
    texts: Vec<LineText>,
    line_text: String,
    offsets: Vec<(usize, usize)>,
    url_line: i32,
    cursor_wide: bool,
}

impl Batcher {
    spec fn acc(&self) -> Acc {
        Acc {
            lines: line_views(self.lines@),
            current_line: self.current_line,
            runs: run_views(self.runs@),
            run_text: self.run_text@,
            run_style: self.run_style,
            run_start: self.run_start,
            bg_start: self.bg_start,
            bg_color: self.bg_color,
            bg_line: self.bg_line,
            regions: self.regions@,
            texts: text_views(self.texts@),
            line_text: self.line_text@,
            offsets: self.offsets@,
            url_line: self.url_line,
            cursor_wide: self.cursor_wide,
        }
    }

    fn new(terminal_fg: u64) -> (r: Batcher)
        ensures
            r.acc() =~= initial(terminal_fg),
    {
        let r = Batcher {
            lines: Vec::new(),
            current_line: -1,
            runs: Vec::new(),
            run_text: String::new(),
            run_style: CellStyle { fg: terminal_fg, bold: false, italic: false, underline: false, strikethrough: false },
            run_start: 0,
            bg_start: 0,
            bg_color: None,
            bg_line: -1,
            regions: Vec::new(),
            texts: Vec::new(),
            line_text: String::new(),
            offsets: Vec::new(),
            url_line: -1,
            cursor_wide: false,
        };
        assert(r.acc().lines =~= Seq::<(usize, Seq<RunView>)>::empty());
        assert(r.acc().runs =~= Seq::<RunView>::empty());
        assert(r.acc().texts =~= Seq::<TextView>::empty());
        r
    }

    /// Closes the pending run.
    fn close_run(&mut self)
        ensures
            final(self).acc() =~= (Acc { runs: close_run(old(self).acc()), run_text: Seq::empty(), ..old(self).acc() }),
    {
        if self.run_text.unicode_len() > 0 {
            let mut text = String::new();
            std::mem::swap(&mut text, &mut self.run_text);
            let ghost before = self.runs@;
            self.runs.push(TextRun { text, style: self.run_style, start_col: self.run_start });
            assert(run_views(self.runs@) =~= run_views(before).push(run_views(self.runs@).last()));
        }
    }

    /// Closes the background span at `end`.
    fn close_bg(&mut self, end: usize, terminal_bg: u64)
        ensures
            final(self).acc() =~= (Acc {
                regions: close_bg(old(self).acc().regions, old(self).bg_color, old(self).bg_line, old(self).bg_start, end, terminal_bg),
                ..old(self).acc()
            }),
    {
        if let Some(c) = self.bg_color {
            if c != terminal_bg && end > self.bg_start {
                self.regions.push(BgRegion { line: self.bg_line, start_col: self.bg_start, end_col: end, color: c });
            }
        }
    }

    fn start_line(&mut self, c: GridCell, cols: usize, terminal_bg: u64)
        ensures
            final(self).acc() =~= start_line(old(self).acc(), c, cols, terminal_bg),
    {
        let ghost a = self.acc();
        self.close_run();
        let end = if self.bg_line >= 0 { cols } else { 0 };
        self.close_bg(end, terminal_bg);
        self.bg_color = None;
        if self.runs.len() > 0 {
            let mut runs: Vec<TextRun> = Vec::new();
            std::mem::swap(&mut runs, &mut self.runs);
            let ghost before = self.lines@;
            self.lines.push(PreparedLine { line_idx: self.current_line as usize, runs });
            assert(line_views(self.lines@) =~= line_views(before).push(line_views(self.lines@).last()));
        }
        assert(run_views(self.runs@) =~= Seq::<RunView>::empty());
        if self.line_text.unicode_len() > 0 {
            let mut text = String::new();
            std::mem::swap(&mut text, &mut self.line_text);
            let mut offsets: Vec<(usize, usize)> = Vec::new();
            std::mem::swap(&mut offsets, &mut self.offsets);
            let ghost before = self.texts@;
            self.texts.push(LineText { line: self.url_line, text, col_offsets: offsets });
            assert(text_views(self.texts@) =~= text_views(before).push(text_views(self.texts@).last()));
        } else {
            self.offsets = Vec::new();
        }
        assert(self.line_text@ =~= Seq::<char>::empty());
        self.url_line = c.line;
        self.current_line = c.line;
        self.run_start = c.col;
        self.bg_line = c.line;
        self.bg_start = c.col;
        proof {
            assert(a.line_text.len() == 0 ==> a.offsets =~= a.offsets);
        }
    }

    fn merge_bg(&mut self, c: GridCell, terminal_bg: u64)
        ensures
            final(self).acc() =~= merge_bg(old(self).acc(), c, terminal_bg),
    {
        let same = match self.bg_color {
            Some(b) => b == c.bg,
            None => false,
        };
        if !same {
            self.close_bg(c.col, terminal_bg);
            self.bg_start = c.col;
            self.bg_color = Some(c.bg);
        }
    }

    fn add_wide(&mut self, c: GridCell)
        ensures
            final(self).acc() =~= add_wide(old(self).acc(), c),
    {
        self.close_run();
        let ch = if c.ch != ' ' && c.ch != '\0' { c.ch } else { ' ' };
        let mut text = String::new();
        push_char(&mut text, ch);
        let ghost before = self.runs@;
        self.runs.push(TextRun { text, style: c.style, start_col: c.col });
        assert(run_views(self.runs@) =~= run_views(before).push(run_views(self.runs@).last()));
        self.offsets.push((c.col, 2));
        push_char(&mut self.line_text, ch);
    }

    fn add_normal(&mut self, c: GridCell)
        ensures
            final(self).acc() =~= add_normal(old(self).acc(), c),
    {
        if c.style != self.run_style && self.run_text.unicode_len() > 0 {
            self.close_run();
            self.run_start = c.col;
        }
        if self.run_text.unicode_len() == 0 {
            self.run_style = c.style;
            self.run_start = c.col;
        }
        let ch = if c.ch != ' ' && c.ch != '\0' { c.ch } else { ' ' };
        push_char(&mut self.run_text, ch);
        self.offsets.push((c.col, 1));
        push_char(&mut self.line_text, ch);
    }

    fn step(&mut self, c: GridCell, cursor: (i32, usize), cols: usize, terminal_bg: u64)
        ensures
            final(self).acc() =~= step(old(self).acc(), c, cursor, cols, terminal_bg),
    {
        if c.spacer {
            return;
        }
        if c.line != self.current_line {
            self.start_line(c, cols, terminal_bg);
        }
        self.merge_bg(c, terminal_bg);
        if c.wide && c.line == cursor.0 && c.col == cursor.1 {
            self.cursor_wide = true;
        }
        if c.wide {
            self.add_wide(c);
        } else {
            self.add_normal(c);
        }
    }

    fn finish(self, cols: usize, terminal_bg: u64) -> (r: GridLayout)
        ensures
            line_views(r.lines@) == finish(self.acc(), cols, terminal_bg).lines,
            r.bg_regions@ == finish(self.acc(), cols, terminal_bg).regions,
            text_views(r.line_texts@) == finish(self.acc(), cols, terminal_bg).texts,
            r.cursor_is_wide == self.acc().cursor_wide,
    {
        let mut b = self;
        let ghost a = b.acc();
        b.close_run();
        if b.runs.len() > 0 {
            let mut runs: Vec<TextRun> = Vec::new();
            std::mem::swap(&mut runs, &mut b.runs);
            let ghost before = b.lines@;
            b.lines.push(PreparedLine { line_idx: b.current_line as usize, runs });
            assert(line_views(b.lines@) =~= line_views(before).push(line_views(b.lines@).last()));
        }
        b.close_bg(cols, terminal_bg);
        if b.line_text.unicode_len() > 0 {
            let mut text = String::new();
            std::mem::swap(&mut text, &mut b.line_text);
            let mut offsets: Vec<(usize, usize)> = Vec::new();
            std::mem::swap(&mut offsets, &mut b.offsets);
            let ghost before = b.texts@;
            b.texts.push(LineText { line: b.url_line, text, col_offsets: offsets });
            assert(text_views(b.texts@) =~= text_views(before).push(text_views(b.texts@).last()));
        }
        GridLayout { lines: b.lines, bg_regions: b.regions, line_texts: b.texts, cursor_is_wide: b.cursor_wide }
    }
}

/// Lays out the visible cells, given in display order: text runs per line,
/// background spans, the text of each line for URL detection, and whether
/// the cursor (at `cursor`) stands on a wide character. `cols` is the
/// width of the grid; `terminal_fg` and `terminal_bg` are the default
/// colors (spans of the default background are not drawn).
pub fn layout_cells(cells: &Vec<GridCell>, cursor: (i32, usize), cols: usize, terminal_fg: u64, terminal_bg: u64) -> (r: GridLayout)
    ensures
        ({
            let f = finish(fold(cells@, cursor, cols, terminal_fg, terminal_bg), cols, terminal_bg);
            &&& line_views(r.lines@) == f.lines
            &&& r.bg_regions@ == f.regions
            &&& text_views(r.line_texts@) == f.texts
            &&& r.cursor_is_wide == f.cursor_wide
        }),
{
    let mut b = Batcher::new(terminal_fg);
    let mut i: usize = 0;
    while i < cells.len()
        invariant
            i <= cells@.len(),
            b.acc() == fold(cells@.take(i as int), cursor, cols, terminal_fg, terminal_bg),
        decreases cells@.len() - i,
    {
        proof {
            assert(cells@.take(i + 1).drop_last() == cells@.take(i as int));
            assert(cells@.take(i + 1).last() == cells@[i as int]);
        }
        b.step(cells[i], cursor, cols, terminal_bg);
        i = i + 1;
    }
    proof {
        assert(cells@.take(cells@.len() as int) == cells@);
    }
    b.finish(cols, terminal_bg)
}

/// A selection span on one line (end column exclusive).
#[derive(Clone, Copy, Debug, PartialEq, Eq, Structural)]
pub struct SelectionSpan {
    pub line: usize,
    pub start_col: usize,
    pub end_col: usize,
}

/// The span selected on line `l` of a selection from (`start_line`,
/// `start_col`) to (`end_line`, `end_col`) inclusive, on a grid `cols` wide:
/// from the start column on the first line (else 0) to past the end column
/// on the last line (else the grid's width), if not empty.
pub open spec fn selection_on_line(l: int, start_line: int, start_col: int, end_line: int, end_col: int, cols: int) -> Option<SelectionSpan> {
    let s = if l == start_line { start_col } else { 0 };
    let e = if l == end_line { end_col + 1 } else { cols };
    if e > s {
        Some(SelectionSpan { line: l as usize, start_col: s as usize, end_col: e as usize })
    } else {
        None
    }
}

/// The spans of a selection on the first `count` lines from line `first`.
pub open spec fn selection_spans_from(first: int, count: int, start_line: int, start_col: int, end_line: int, end_col: int, cols: int) -> Seq<SelectionSpan>
    decreases count,
{
    if count <= 0 {
        Seq::empty()
    } else {
        let prev = selection_spans_from(first, count - 1, start_line, start_col, end_line, end_col, cols);
        match selection_on_line(first + count - 1, start_line, start_col, end_line, end_col, cols) {
            Some(sp) => prev.push(sp),
            None => prev,
        }
    }
}

/// The lines a selection covers on a grid of `rows` lines: from its first
/// line to its last, lines above the grid counted as line 0, and no further
/// than the grid's last line.
pub open spec fn selection_lines(start_line: i32, end_line: i32, rows: usize) -> (int, int) {
    let first: int = if start_line < 0 { 0 } else { start_line as int };
    let last: int = if end_line < 0 { 0 } else { end_line as int };
    let bottom: int = if rows == 0 { 0 } else { rows - 1 };
    let stop: int = if last < bottom { last } else { bottom };
    (first, stop)
}

/// The highlighted spans of a selection from (`start_line`, `start_col`) to
/// (`end_line`, `end_col`), inclusive, on a grid of `rows` by `cols`.
pub fn selection_spans(start_line: i32, start_col: usize, end_line: i32, end_col: usize, rows: usize, cols: usize) -> (r: Vec<SelectionSpan>)
    requires
        end_col < usize::MAX,
    ensures
        ({
            let (first, stop) = selection_lines(start_line, end_line, rows);
            let last: int = if end_line < 0 { 0 } else { end_line as int };
            r@ == selection_spans_from(first, if stop >= first { stop - first + 1 } else { 0 }, first, start_col as int, last, end_col as int, cols as int)
        }),
{
    let first: usize = if start_line < 0 { 0 } else { start_line as usize };
    let last: usize = if end_line < 0 { 0 } else { end_line as usize };
    let bottom: usize = if rows == 0 { 0 } else { rows - 1 };
    let stop: usize = if last < bottom { last } else { bottom };
    let mut out: Vec<SelectionSpan> = Vec::new();
    if stop < first {
        return out;
    }
    let mut l: usize = first;
    while l <= stop
        invariant
            first <= l <= stop + 1,
            stop < usize::MAX,
            end_col < usize::MAX,
            out@ == selection_spans_from(first as int, l - first, first as int, start_col as int, last as int, end_col as int, cols as int),
        decreases stop + 1 - l,
    {
        let s = if l == first { start_col } else { 0 };
        let e = if l == last { end_col + 1 } else { cols };
        if e > s {
            out.push(SelectionSpan { line: l, start_col: s, end_col: e });
        }
        l = l + 1;
    }
    out
}

/// How the cursor is drawn.
#[derive(Clone, Copy, Debug, PartialEq, Eq, Structural)]
pub enum CursorShape {
    /// A block over the cell, two cells wide over a wide character.
    Block { wide: bool },
    /// A thin bar, when the terminal does not have focus.
    Bar,
}

/// Where and how the cursor is drawn, if at all.
#[derive(Clone, Copy, Debug, PartialEq, Eq, Structural)]
pub struct CursorCell {
    pub line: usize,
    pub col: usize,
    pub shape: CursorShape,
}

/// The cursor drawn at (`line`, `col`) on a grid of `rows` by `cols`: only
/// when visible and on the grid; a block when the terminal has focus, else
/// a bar.
pub fn cursor_cell(visible: bool, line: i32, col: usize, rows: usize, cols: usize, has_focus: bool, on_wide: bool) -> (r: Option<CursorCell>)
    ensures
        r == (if visible && line >= 0 && (line as int) < rows && col < cols {
            Some(CursorCell {
                line: line as usize,
                col,
                shape: if has_focus { CursorShape::Block { wide: on_wide } } else { CursorShape::Bar },
            })
        } else {
            None
        }),
{
    if visible && line >= 0 && (line as usize) < rows && col < cols {
        Some(CursorCell {
            line: line as usize,
            col,
            shape: if has_focus { CursorShape::Block { wide: on_wide } } else { CursorShape::Bar },
        })
    } else {
        None
    }
}

/// Whether every run is non-empty and every background span is non-empty
/// and not the default background.
pub open spec fn well_formed(a: Acc, terminal_bg: u64) -> bool {
    &&& forall|i: int| 0 <= i < a.runs.len() ==> (#[trigger] a.runs[i]).text.len() > 0
    &&& forall|i: int| 0 <= i < a.lines.len() ==> forall|j: int| 0 <= j < (#[trigger] a.lines[i]).1.len() ==> (#[trigger] a.lines[i].1[j]).text.len() > 0
    &&& forall|i: int| 0 <= i < a.regions.len() ==> (#[trigger] a.regions[i]).end_col > a.regions[i].start_col && a.regions[i].color != terminal_bg
    &&& forall|i: int| 0 <= i < a.lines.len() ==> (#[trigger] a.lines[i]).1.len() > 0
}

/// Every run drawn has text, every line drawn has a run, and every
/// background span drawn is non-empty and not the default background.
pub proof fn lemma_layout_well_formed(cells: Seq<GridCell>, cursor: (i32, usize), cols: usize, terminal_fg: u64, terminal_bg: u64)
    ensures
        well_formed(finish(fold(cells, cursor, cols, terminal_fg, terminal_bg), cols, terminal_bg), terminal_bg),
    decreases cells.len(),
{
    lemma_fold_well_formed(cells, cursor, cols, terminal_fg, terminal_bg);
}

/// Laying out keeps the state well formed.
proof fn lemma_fold_well_formed(cells: Seq<GridCell>, cursor: (i32, usize), cols: usize, terminal_fg: u64, terminal_bg: u64)
    ensures
        well_formed(fold(cells, cursor, cols, terminal_fg, terminal_bg), terminal_bg),
        well_formed(finish(fold(cells, cursor, cols, terminal_fg, terminal_bg), cols, terminal_bg), terminal_bg),
    decreases cells.len(),
{
    if cells.len() > 0 {
        lemma_fold_well_formed(cells.drop_last(), cursor, cols, terminal_fg, terminal_bg);
    }
}

/// The texts of the runs, one after another.
pub open spec fn runs_text(rs: Seq<RunView>) -> Seq<char>
    decreases rs.len(),
{
    if rs.len() == 0 {
        Seq::empty()
    } else {
        runs_text(rs.drop_last()) + rs.last().text
    }
}

/// Whether the drawn runs spell the text scanned for URLs: line by line,
/// the runs of each drawn line, one after another, are the text of the
/// line at the same position, which is on the same row; and the pending
/// runs and run spell the pending text.
pub open spec fn runs_spell_text(a: Acc) -> bool {
    &&& a.lines.len() == a.texts.len()
    &&& forall|k: int| 0 <= k < a.lines.len() ==> runs_text((#[trigger] a.lines[k]).1) == a.texts[k].text
        && a.lines[k].0 == a.texts[k].line as usize
    &&& runs_text(a.runs) + a.run_text == a.line_text
    &&& a.current_line == a.url_line
}

/// Closing the pending run keeps the text the runs spell.
proof fn lemma_close_run_text(a: Acc)
    ensures
        runs_text(close_run(a)) == runs_text(a.runs) + a.run_text,
{
    if a.run_text.len() > 0 {
        let r = close_run(a);
        assert(r.drop_last() =~= a.runs);
    } else {
        assert(runs_text(a.runs) + a.run_text =~= runs_text(a.runs));
    }
}

/// One cell keeps the runs spelling the text.
proof fn lemma_step_spells(a: Acc, c: GridCell, cursor: (i32, usize), cols: usize, terminal_bg: u64)
    requires
        runs_spell_text(a),
        well_formed(a, terminal_bg),
    ensures
        runs_spell_text(step(a, c, cursor, cols, terminal_bg)),
{
    if !c.spacer {
        let a1 = if c.line != a.current_line { start_line(a, c, cols, terminal_bg) } else { a };
        if c.line != a.current_line {
            lemma_close_run_text(a);
            let runs = close_run(a);
            if runs.len() > 0 {
                assert(runs[runs.len() - 1].text.len() > 0);
                assert(runs.drop_last() + seq![runs.last()] =~= runs);
                assert(runs_text(runs).len() >= runs.last().text.len());
            }
            assert(runs_text(Seq::<RunView>::empty()) + Seq::<char>::empty() =~= Seq::<char>::empty());
            assert forall|k: int| 0 <= k < a1.lines.len() implies runs_text((#[trigger] a1.lines[k]).1)
                == a1.texts[k].text && a1.lines[k].0 == a1.texts[k].line as usize by {
                if k < a.lines.len() {
                    assert(a1.lines[k] == a.lines[k]);
                    assert(a1.texts[k] == a.texts[k]);
                }
            }
        }
        assert(runs_spell_text(a1));
        let a2 = merge_bg(a1, c, terminal_bg);
        let a3 = if c.wide && c.line == cursor.0 && c.col == cursor.1 { Acc { cursor_wide: true, ..a2 } } else { a2 };
        assert(runs_spell_text(a3));
        lemma_close_run_text(a3);
        if c.wide {
            let r = add_wide(a3, c);
            let rs = close_run(a3);
            assert(r.runs.drop_last() =~= rs);
            assert(runs_text(r.runs) + r.run_text =~= r.line_text);
        } else {
            let split = c.style != a3.run_style && a3.run_text.len() > 0;
            let b = if split {
                Acc { runs: close_run(a3), run_text: Seq::empty(), run_start: c.col, ..a3 }
            } else {
                a3
            };
            assert(runs_text(b.runs) + b.run_text == b.line_text) by {
                if split {
                    assert(runs_text(close_run(a3)) + Seq::<char>::empty() =~= runs_text(close_run(a3)));
                }
            }
            let r = add_normal(a3, c);
            assert(runs_text(r.runs) + r.run_text =~= r.line_text);
        }
    }
}

/// Laying out keeps the runs spelling the text.
proof fn lemma_fold_spells(cells: Seq<GridCell>, cursor: (i32, usize), cols: usize, terminal_fg: u64, terminal_bg: u64)
    ensures
        runs_spell_text(fold(cells, cursor, cols, terminal_fg, terminal_bg)),
    decreases cells.len(),
{
    if cells.len() == 0 {
        let a = initial(terminal_fg);
        assert(runs_text(a.runs) + a.run_text =~= a.line_text);
    } else {
        lemma_fold_spells(cells.drop_last(), cursor, cols, terminal_fg, terminal_bg);
        lemma_fold_well_formed(cells.drop_last(), cursor, cols, terminal_fg, terminal_bg);
        lemma_step_spells(fold(cells.drop_last(), cursor, cols, terminal_fg, terminal_bg), cells.last(), cursor, cols, terminal_bg);
    }
}

/// The text scanned for URLs is the text drawn: the laid-out lines and the
/// scanned line texts correspond one to one, on the same rows, and the
/// runs of each line, one after another, spell its text.
pub proof fn lemma_runs_spell_line_text(cells: Seq<GridCell>, cursor: (i32, usize), cols: usize, terminal_fg: u64, terminal_bg: u64)
    ensures
        ({
            let f = finish(fold(cells, cursor, cols, terminal_fg, terminal_bg), cols, terminal_bg);
            &&& f.lines.len() == f.texts.len()
            &&& forall|k: int| 0 <= k < f.lines.len() ==> runs_text((#[trigger] f.lines[k]).1) == f.texts[k].text
                && f.lines[k].0 == f.texts[k].line as usize
        }),
{
    let a = fold(cells, cursor, cols, terminal_fg, terminal_bg);
    lemma_fold_spells(cells, cursor, cols, terminal_fg, terminal_bg);
    lemma_fold_well_formed(cells, cursor, cols, terminal_fg, terminal_bg);
    lemma_close_run_text(a);
    let runs = close_run(a);
    let f = finish(a, cols, terminal_bg);
    if runs.len() > 0 {
        assert(runs[runs.len() - 1].text.len() > 0);
        assert(runs_text(runs).len() >= runs.last().text.len());
    }
    assert forall|k: int| 0 <= k < f.lines.len() implies runs_text((#[trigger] f.lines[k]).1) == f.texts[k].text
        && f.lines[k].0 == f.texts[k].line as usize by {
        if k < a.lines.len() {
            assert(f.lines[k] == a.lines[k]);
            assert(f.texts[k] == a.texts[k]);
        }
    }
}

/// Which font face a run is drawn in.
#[derive(Clone, Copy, Debug, PartialEq, Eq, Structural)]
pub enum FontFace {
    Regular,
    Bold,
    Italic,
    BoldItalic,
}

/// The font face for a run's boldness and slant.
pub fn font_face(bold: bool, italic: bool) -> (r: FontFace)
    ensures
        r == (if bold && italic {
            FontFace::BoldItalic
        } else if bold {
            FontFace::Bold
        } else if italic {
            FontFace::Italic
        } else {
            FontFace::Regular
        }),
{
    match (bold, italic) {
        (true, true) => FontFace::BoldItalic,
        (true, false) => FontFace::Bold,
        (false, true) => FontFace::Italic,
        (false, false) => FontFace::Regular,
    }
}

/// Whether `s` starts with `prefix`.
pub open spec fn has_prefix(s: Seq<char>, prefix: Seq<char>) -> bool {
    prefix.len() <= s.len() && s.subrange(0, prefix.len() as int) == prefix
}

fn starts_with(s: &str, prefix: &str) -> (r: bool)
    ensures
        r == has_prefix(s@, prefix@),
{
    let n = s.unicode_len();
    let m = prefix.unicode_len();
    if m > n {
        return false;
    }
    let head = s.substring_char(0, m);
    str_eq(head, prefix)
}

/// Whether a clicked URL may be opened: only `http://` and `https://` URLs.
pub fn url_may_open(url: &str) -> (r: bool)
    ensures
        r == (has_prefix(url@, "http://"@) || has_prefix(url@, "https://"@)),
{
    starts_with(url, "http://") || starts_with(url, "https://")
}

/// Whether region `r` covers the cell at (`line`, `col`).
pub open spec fn covers(r: UrlRegion, line: i32, col: usize) -> bool {
    r.line == line && r.start_col <= col && col < r.end_col
}

/// The first region covering the cell at (`line`, `col`), if any.
pub open spec fn first_covering(rs: Seq<UrlRegion>, line: i32, col: usize) -> Option<int>
    decreases rs.len(),
{
    if rs.len() == 0 {
        None
    } else {
        match first_covering(rs.drop_last(), line, col) {
            Some(i) => Some(i),
            None => if covers(rs.last(), line, col) { Some(rs.len() - 1) } else { None },
        }
    }
}

/// What a click on the cell at (`line`, `col`) opens: with the platform
/// key (Cmd) held, the URL of the first region covering the cell, when it
/// may be opened; otherwise nothing.
pub open spec fn clicked_url(rs: Seq<UrlRegion>, line: i32, col: usize, platform: bool) -> Option<Seq<char>> {
    if !platform {
        None
    } else {
        match first_covering(rs, line, col) {
            Some(i) => {
                let u = rs[i].url@;
                if has_prefix(u, "http://"@) || has_prefix(u, "https://"@) { Some(u) } else { None }
            },
            None => None,
        }
    }
}

/// The URL a click on the cell at (`line`, `col`) opens (see
/// [`clicked_url`]).
pub fn url_to_open(regions: &Vec<UrlRegion>, line: i32, col: usize, platform: bool) -> (r: Option<String>)
    ensures
        match r {
            Some(u) => clicked_url(regions@, line, col, platform) == Some(u@),
            None => clicked_url(regions@, line, col, platform) is None,
        },
{
    if !platform {
        return None;
    }
    let n = regions.len();
    let mut i: usize = 0;
    while i < n
        invariant
            n == regions@.len(),
            i <= n,
            platform,
            first_covering(regions@.take(i as int), line, col) is None,
        decreases n - i,
    {
        let r = &regions[i];
        proof {
            assert(regions@.take(i + 1).drop_last() =~= regions@.take(i as int));
            assert(regions@.take(i + 1).last() == regions@[i as int]);
        }
        if r.line == line && r.start_col <= col && col < r.end_col {
            proof {
                lemma_first_covering_prefix(regions@, i as int + 1, line, col);
            }
            if url_may_open(r.url.as_str()) {
                return Some(r.url.clone());
            }
            return None;
        }
        i = i + 1;
    }
    proof {
        assert(regions@.take(n as int) =~= regions@);
    }
    None
}

/// Once a prefix has a covering region, the whole list has the same first
/// one.
proof fn lemma_first_covering_prefix(rs: Seq<UrlRegion>, k: int, line: i32, col: usize)
    requires
        0 <= k <= rs.len(),
        first_covering(rs.take(k), line, col) is Some,
    ensures
        first_covering(rs, line, col) == first_covering(rs.take(k), line, col),
    decreases rs.len() - k,
{
    if k < rs.len() {
        assert(rs.take(k + 1).drop_last() =~= rs.take(k));
        lemma_first_covering_prefix(rs, k + 1, line, col);
    } else {
        assert(rs.take(k) =~= rs);
    }
}

/// What a click selects.
#[derive(Clone, Copy, Debug, PartialEq, Eq, Structural)]
pub enum SelectionKind {
    /// From the clicked cell.
    Simple,
    /// The clicked word (double click).
    Semantic,
    /// The clicked line (triple click).
    Lines,
}

/// What a click with `click_count` clicks selects.
pub fn selection_kind(click_count: usize) -> (r: SelectionKind)
    ensures
        r == (if click_count == 2 {
            SelectionKind::Semantic
        } else if click_count == 3 {
            SelectionKind::Lines
        } else {
            SelectionKind::Simple
        }),
{
    if click_count == 2 {
        SelectionKind::Semantic
    } else if click_count == 3 {
        SelectionKind::Lines
    } else {
        SelectionKind::Simple
    }
}

} // verus!
