//! Terminal pages: the handle to a terminal's screen, and the runs of styled text that a page
//! shows of it.
use vstd::prelude::*;

use crate::emulator::{
    Cell, CellView, Emulator, TermColor, application_keys, clearing_sequence, cursor, cursor_hidden,
    emptied, fits_new_size, fitted, fresh, hiding_sequence, history, history_limit, is_ascii_output,
    lines, plain, processed, renewal, renewed, renews, resized, roomy, same_but_for_view,
    screen_size, scrolled, sturdy, view_offset, visible_line,
};
use crate::theme::{Color, TERM_ANSI, TERM_BG, TERM_DEFAULT, TERM_FG_BLACK, hex, hex_color};

verus! {

/// How many scrolled-off lines a terminal keeps.
pub const SCROLLBACK_LINES: usize = 2000;

/// The screen of a running program, and a number that changes whenever the screen may have.
pub struct TermHandle {
    pub emulator: Emulator,
    pub version: u64,
    /// How many scrolled-off lines the terminal was made to keep.
    pub scrollback: usize,
}

impl TermHandle {
    /// Whether the terminal keeps as many scrolled-off lines as it was made to.
    pub open spec fn wf(self) -> bool {
        history_limit(self.emulator) == self.scrollback
    }
}

/// The version after `version`. The last one is followed by the first.
pub open spec fn next_version(version: u64) -> u64 {
    if version == u64::MAX {
        0
    } else {
        (version + 1) as u64
    }
}

/// The terminal after its program has written `output`.
pub open spec fn fed(handle: TermHandle, output: Seq<u8>) -> TermHandle {
    TermHandle {
        emulator: processed(handle.emulator, output),
        version: next_version(handle.version),
        ..handle
    }
}

/// The terminal after it is cleared: an empty screen of the same size in the style and the modes
/// that the program has set, and no scrolled-off lines.
pub open spec fn cleared(handle: TermHandle) -> TermHandle {
    let (rows, cols) = screen_size(handle.emulator);
    TermHandle {
        emulator: processed(fresh(rows, cols, handle.scrollback), renewal(handle.emulator)),
        version: next_version(handle.version),
        ..handle
    }
}

/// The line that opens a restarted session, in yellow.
pub open spec fn restart_marker() -> Seq<u8> {
    vstd::utf8::encode_utf8("\x1b[33m--- 已重启 ---\x1b[0m\r\n"@)
}

/// A stretch of cells of one style, as it is drawn.
#[derive(Debug)]
pub struct CellRun {
    pub text: String,
    pub fg: Color,
    /// Without a colour the page shows through.
    pub bg: Option<Color>,
    pub bold: bool,
    pub underline: bool,
}

/// What a [`CellRun`] holds.
pub struct RunView {
    pub text: Seq<char>,
    pub fg: Color,
    pub bg: Option<Color>,
    pub bold: bool,
    pub underline: bool,
}

impl View for CellRun {
    type V = RunView;

    open spec fn view(&self) -> RunView {
        RunView {
            text: self.text@,
            fg: self.fg,
            bg: self.bg,
            bold: self.bold,
            underline: self.underline,
        }
    }
}

/// What a page shows of a terminal.
#[derive(Debug)]
pub struct GridSnapshot {
    /// The version of the handle that the snapshot was taken of.
    pub version: u64,
    /// How many lines above the live screen the snapshot was taken.
    pub offset: usize,
    /// One list of runs for each row of the screen.
    pub rows: Vec<Vec<CellRun>>,
    /// The row and column of the cursor, on the live screen only.
    pub cursor: Option<(usize, usize)>,
}

/// What a [`GridSnapshot`] holds.
pub struct GridView {
    pub version: u64,
    pub offset: usize,
    pub rows: Seq<Seq<RunView>>,
    pub cursor: Option<(usize, usize)>,
}

/// The runs of a list.
pub open spec fn run_views(runs: Seq<CellRun>) -> Seq<RunView> {
    runs.map_values(|run: CellRun| run@)
}

/// The runs of each row of a list.
pub open spec fn row_views(rows: Seq<Vec<CellRun>>) -> Seq<Seq<RunView>> {
    rows.map_values(|runs: Vec<CellRun>| run_views(runs@))
}

impl View for GridSnapshot {
    type V = GridView;

    open spec fn view(&self) -> GridView {
        GridView {
            version: self.version,
            offset: self.offset,
            rows: row_views(self.rows@),
            cursor: self.cursor,
        }
    }
}

/// Level `v` of a component of the colour cube.
pub open spec fn cube_level(v: int) -> u8 {
    if v == 0 {
        0
    } else {
        (55 + 40 * v) as u8
    }
}

/// The 256 colours that terminal programs select by number: sixteen of the theme, a cube of six
/// levels for each of red, green and blue, and twenty-four levels of grey.
pub open spec fn indexed_color(idx: u8) -> Color {
    if idx < 16 {
        hex_color(TERM_ANSI@[idx as int])
    } else if idx < 232 {
        let i = idx - 16;
        Color::Rgb(cube_level(i / 36), cube_level(i / 6 % 6), cube_level(i % 6))
    } else {
        let level = (8 + 10 * (idx - 232)) as u8;
        Color::Rgb(level, level, level)
    }
}

/// The colour to draw for the colour that a program asks for.
pub open spec fn drawn_color(color: TermColor) -> Color {
    match color {
        TermColor::Default => hex_color(TERM_DEFAULT),
        TermColor::Idx(n) => indexed_color(n),
        TermColor::Rgb(r, g, b) => Color::Rgb(r, g, b),
    }
}

/// The colour of text. Black would be invisible on the page and is drawn in another colour.
pub open spec fn text_color(color: TermColor) -> Color {
    if color == TermColor::Idx(0) {
        hex_color(TERM_FG_BLACK)
    } else {
        drawn_color(color)
    }
}

/// The colour behind text. The default is none, so that the page shows through.
pub open spec fn back_color(color: TermColor) -> Option<Color> {
    if color == TermColor::Default {
        None
    } else {
        Some(drawn_color(color))
    }
}

/// The solid block that is drawn for the cursor.
pub open spec fn block_text() -> Seq<char> {
    seq!['\u{2588}']
}

/// A single cell as it is drawn.
pub open spec fn drawn_cell(cell: CellView, on_cursor: bool) -> RunView {
    RunView {
        text: if on_cursor {
            block_text()
        } else if cell.text.len() == 0 {
            seq![' ']
        } else {
            cell.text
        },
        fg: if !cell.inverse {
            text_color(cell.fg)
        } else {
            match back_color(cell.bg) {
                Some(color) => color,
                None => hex_color(TERM_BG),
            }
        },
        bg: if cell.inverse {
            Some(text_color(cell.fg))
        } else {
            back_color(cell.bg)
        },
        bold: cell.bold,
        underline: cell.underline,
    }
}

/// Whether two stretches of text are drawn in one style.
pub open spec fn same_style(a: RunView, b: RunView) -> bool {
    a.fg == b.fg && a.bg == b.bg && a.bold == b.bold && a.underline == b.underline
}

/// The cells of a line within the width of the screen, each as it is drawn.
pub open spec fn drawn_cells(line: Seq<CellView>, cols: u16, cursor_col: Option<int>) -> Seq<
    RunView,
> {
    Seq::new(
        if line.len() < cols {
            line.len()
        } else {
            cols as nat
        },
        |col: int| drawn_cell(line[col], cursor_col == Some(col)),
    )
}

/// Whether the cells in columns `col - 1` and `col` belong to one run: they have one style and
/// the cursor is on neither of them.
pub open spec fn continues(cells: Seq<RunView>, cursor_col: Option<int>, col: int) -> bool {
    &&& 0 < col < cells.len()
    &&& same_style(cells[col - 1], cells[col])
    &&& cursor_col != Some(col - 1)
    &&& cursor_col != Some(col)
}

/// The runs of a row: its cells, with neighbours that belong together put into one run.
pub open spec fn merged(cells: Seq<RunView>, cursor_col: Option<int>) -> Seq<RunView>
    decreases cells.len(),
{
    if cells.len() == 0 {
        Seq::empty()
    } else {
        let before = merged(cells.drop_last(), cursor_col);
        let cell = cells.last();
        if continues(cells, cursor_col, cells.len() - 1) {
            let run = before.last();
            before.drop_last().push(RunView { text: run.text + cell.text, ..run })
        } else {
            before.push(cell)
        }
    }
}

/// A text of nothing but spaces.
pub open spec fn all_spaces(s: Seq<char>) -> bool {
    forall|i: int| 0 <= i < s.len() ==> #[trigger] s[i] == ' '
}

/// A run that leaves no mark on the page.
pub open spec fn invisible(run: RunView) -> bool {
    run.bg is None && all_spaces(run.text)
}

/// The runs of a row without the invisible ones at its end.
pub open spec fn trimmed(runs: Seq<RunView>) -> Seq<RunView>
    decreases runs.len(),
{
    if runs.len() > 0 && invisible(runs.last()) {
        trimmed(runs.drop_last())
    } else {
        runs
    }
}

/// What is shown of a line.
pub open spec fn shown_row(line: Seq<CellView>, cols: u16, cursor_col: Option<int>) -> Seq<
    RunView,
> {
    trimmed(merged(drawn_cells(line, cols, cursor_col), cursor_col))
}

/// The column of the cursor in row `row`, where the cursor is drawn: on the live screen, unless
/// the program has switched it off.
pub open spec fn cursor_col(emulator: Emulator, offset: int, row: int) -> Option<int> {
    if offset == 0 && !cursor_hidden(emulator) && cursor(emulator).0 == row {
        Some(cursor(emulator).1 as int)
    } else {
        None
    }
}

/// What a page shows of a terminal `offset` lines above the live screen.
pub open spec fn shown_grid(emulator: Emulator, offset: int) -> Seq<Seq<RunView>> {
    Seq::new(
        screen_size(emulator).0 as nat,
        |row: int|
            shown_row(
                lines(emulator)[history(emulator) - offset + row],
                screen_size(emulator).1,
                cursor_col(emulator, offset, row),
            ),
    )
}

/// The viewing position closest to the one asked for.
pub open spec fn reachable(emulator: Emulator, want: int) -> int {
    if want <= history(emulator) {
        want
    } else {
        history(emulator)
    }
}

/// The snapshot of a terminal at the viewing position closest to the one asked for.
pub open spec fn snapshot(handle: TermHandle, want: int) -> GridView {
    let offset = reachable(handle.emulator, want);
    GridView {
        version: handle.version,
        offset: offset as usize,
        rows: shown_grid(handle.emulator, offset),
        cursor: if offset == 0 && !cursor_hidden(handle.emulator) {
            Some((cursor(handle.emulator).0 as usize, cursor(handle.emulator).1 as usize))
        } else {
            None
        },
    }
}

fn xterm256(idx: u8) -> (result: Color)
    ensures
        result == indexed_color(idx),
{
    if idx < 16 {
        hex(TERM_ANSI[idx as usize])
    } else if idx < 232 {
        let i: u8 = idx - 16;
        Color::Rgb(cube_component(i / 36), cube_component(i / 6 % 6), cube_component(i % 6))
    } else {
        let level: u8 = 8 + 10 * (idx - 232);
        Color::Rgb(level, level, level)
    }
}

fn cube_component(v: u8) -> (result: u8)
    requires
        v < 6,
    ensures
        result == cube_level(v as int),
{
    if v == 0 {
        0
    } else {
        55 + 40 * v
    }
}

/// A colour as it is drawn.
pub fn map_color(color: TermColor) -> (result: Color)
    ensures
        result == drawn_color(color),
{
    match color {
        TermColor::Default => hex(TERM_DEFAULT),
        TermColor::Idx(n) => xterm256(n),
        TermColor::Rgb(r, g, b) => Color::Rgb(r, g, b),
    }
}

/// A colour as the colour of text.
pub fn map_fg(color: TermColor) -> (result: Color)
    ensures
        result == text_color(color),
{
    match color {
        TermColor::Idx(0) => hex(TERM_FG_BLACK),
        other => map_color(other),
    }
}

/// A colour behind text. Without one the page shows through.
pub fn map_bg(color: TermColor) -> (result: Option<Color>)
    ensures
        result == back_color(color),
{
    match color {
        TermColor::Default => None,
        other => Some(map_color(other)),
    }
}

fn same_back(a: Option<Color>, b: Option<Color>) -> (result: bool)
    ensures
        result == (a == b),
{
    match (a, b) {
        (None, None) => true,
        (Some(x), Some(y)) => x == y,
        _ => false,
    }
}

/// The cell as it is drawn.
fn draw_cell(cell: Cell, on_cursor: bool) -> (result: CellRun)
    ensures
        result@ == drawn_cell(cell@, on_cursor),
{
    let mut fg = map_fg(cell.fg);
    let mut bg = map_bg(cell.bg);
    if cell.inverse {
        let text = fg;
        fg = match bg {
            Some(color) => color,
            None => hex(TERM_BG),
        };
        bg = Some(text);
    }
    proof {
        reveal_strlit("\u{2588}");
        reveal_strlit(" ");
    }
    let text = if on_cursor {
        "\u{2588}".to_string()
    } else if cell.text.as_str().is_empty() {
        " ".to_string()
    } else {
        cell.text
    };
    assert(text@ =~= drawn_cell(cell@, on_cursor).text);
    CellRun { text, fg, bg, bold: cell.bold, underline: cell.underline }
}

fn only_spaces(s: &str) -> (result: bool)
    ensures
        result == all_spaces(s@),
{
    let n: usize = s.unicode_len();
    let mut i: usize = 0;
    while i < n
        invariant
            i <= n,
            n == s@.len(),
            forall|j: int| 0 <= j < i ==> #[trigger] s@[j] == ' ',
        decreases n - i,
    {
        if s.get_char(i) != ' ' {
            return false;
        }
        i += 1;
    }
    true
}

/// Drops the invisible runs at the end of a row.
fn trim_row(runs: Vec<CellRun>) -> (result: Vec<CellRun>)
    ensures
        run_views(result@) == trimmed(run_views(runs@)),
{
    let mut rest = runs;
    while rest.len() > 0
        invariant
            trimmed(run_views(rest@)) == trimmed(run_views(runs@)),
        ensures
            run_views(rest@) == trimmed(run_views(runs@)),
        decreases rest.len(),
    {
        let last = &rest[rest.len() - 1];
        assert(run_views(rest@).last() == last@);
        let unseen = last.bg.is_none() && only_spaces(last.text.as_str());
        assert(unseen == invisible(last@));
        if !unseen {
            break;
        }
        let ghost before = rest@;
        let _ = rest.pop();
        assert(run_views(rest@) =~= run_views(before).drop_last());
    }
    rest
}

/// A row with cells has runs, and its last run has the style of its last cell.
proof fn lemma_merged(cells: Seq<RunView>, cursor_col: Option<int>)
    ensures
        merged(cells, cursor_col).len() > 0 <==> cells.len() > 0,
        cells.len() > 0 ==> same_style(merged(cells, cursor_col).last(), cells.last()),
    decreases cells.len(),
{
    if cells.len() > 0 {
        lemma_merged(cells.drop_last(), cursor_col);
    }
}

/// The runs of one row of the view.
fn snapshot_row(emulator: &Emulator, row: u16, cols: u16, cursor_at: Option<u16>) -> (result: Vec<
    CellRun,
>)
    requires
        row < screen_size(*emulator).0,
    ensures
        run_views(result@) == shown_row(
            visible_line(*emulator, row as int),
            cols,
            match cursor_at {
                Some(col) => Some(col as int),
                None => None,
            },
        ),
{
    let ghost line = visible_line(*emulator, row as int);
    let ghost mark = match cursor_at {
        Some(col) => Some(col as int),
        None => None,
    };
    let ghost cells = drawn_cells(line, cols, mark);
    let mut runs: Vec<CellRun> = Vec::new();
    let mut prev_cursor = false;
    let mut col: u16 = 0;
    assert(run_views(runs@) =~= merged(cells.take(0), mark));
    while col < cols
        invariant
            col <= cols,
            row < screen_size(*emulator).0,
            line == visible_line(*emulator, row as int),
            mark == (match cursor_at {
                Some(col) => Some(col as int),
                None => None,
            }),
            cells == drawn_cells(line, cols, mark),
            ({
                let seen = if col <= cells.len() {
                    col as int
                } else {
                    cells.len() as int
                };
                &&& run_views(runs@) == merged(cells.take(seen), mark)
                &&& seen > 0 ==> prev_cursor == (mark == Some(seen - 1))
                &&& seen == 0 ==> !prev_cursor
            }),
        decreases cols - col,
    {
        if let Some(cell) = emulator.cell(row, col) {
            let on_cursor = match cursor_at {
                Some(at) => at == col,
                None => false,
            };
            let run = draw_cell(cell, on_cursor);
            assert(run@ == cells[col as int]);
            let ghost next = cells.take(col + 1);
            assert(next.drop_last() =~= cells.take(col as int));
            let ghost before = runs@;
            let mergeable = !on_cursor && !prev_cursor && runs.len() > 0 && {
                let last = &runs[runs.len() - 1];
                last.bold == run.bold && last.underline == run.underline && last.fg == run.fg
                    && same_back(last.bg, run.bg)
            };
            proof {
                lemma_merged(cells.take(col as int), mark);
                if col > 0 {
                    assert(run_views(before).last() == before.last()@);
                    assert(same_style(run_views(before).last(), cells[col - 1]));
                }
            }
            assert(mergeable == continues(next, mark, col as int));
            if mergeable {
                if let Some(mut last) = runs.pop() {
                    last.text.append(run.text.as_str());
                    runs.push(last);
                }
                assert(run_views(runs@) =~= merged(next, mark));
            } else {
                runs.push(run);
                assert(run_views(runs@) =~= merged(next, mark));
            }
            prev_cursor = on_cursor;
        }
        col += 1;
    }
    assert(cells.take(cells.len() as int) =~= cells);
    trim_row(runs)
}

/// Takes the snapshot of a terminal, `want_offset` lines above the live screen or as far above it
/// as its lines reach. The terminal is left viewed live.
pub fn snapshot_grid(handle: &mut TermHandle, want_offset: usize) -> (result: GridSnapshot)
    ensures
        result@ == snapshot(*old(handle), want_offset as int),
        result.offset == reachable(old(handle).emulator, want_offset as int),
        old(handle).wf() ==> final(handle).wf(),
        final(handle).version == old(handle).version,
        final(handle).scrollback == old(handle).scrollback,
        final(handle).emulator == scrolled(old(handle).emulator, 0),
        view_offset(old(handle).emulator) == 0 ==> *final(handle) == *old(handle),
        same_but_for_view(old(handle).emulator, final(handle).emulator),
        view_offset(final(handle).emulator) == 0,
{
    let total: usize = handle.scrollback_total();
    let offset: usize = if want_offset < total {
        want_offset
    } else {
        total
    };
    handle.emulator.set_scrollback(offset);
    let ghost viewed = handle.emulator;
    let (rows, cols) = handle.emulator.size();
    let (cursor_row, cursor_column) = handle.emulator.cursor_position();
    let hidden = handle.emulator.hide_cursor();
    let mut out: Vec<Vec<CellRun>> = Vec::new();
    let mut row: u16 = 0;
    while row < rows
        invariant
            row <= rows,
            handle.emulator == viewed,
            same_but_for_view(old(handle).emulator, viewed),
            view_offset(viewed) == offset,
            (rows, cols) == screen_size(viewed),
            (cursor_row, cursor_column) == cursor(viewed),
            hidden == cursor_hidden(viewed),
            out@.len() == row,
            forall|r: int|
                0 <= r < row ==> run_views(#[trigger] out@[r]@) == shown_grid(
                    old(handle).emulator,
                    offset as int,
                )[r],
        decreases rows - row,
    {
        let cursor_at = if offset == 0 && !hidden && cursor_row == row {
            Some(cursor_column)
        } else {
            None
        };
        let runs = snapshot_row(&handle.emulator, row, cols, cursor_at);
        out.push(runs);
        row += 1;
    }
    handle.emulator.set_scrollback(0);
    assert(row_views(out@) =~= shown_grid(old(handle).emulator, offset as int));
    GridSnapshot {
        version: handle.version,
        offset,
        rows: out,
        cursor: if offset == 0 && !hidden {
            Some((cursor_row as usize, cursor_column as usize))
        } else {
            None
        },
    }
}

impl TermHandle {
    /// A terminal with a blank screen.
    pub fn new(rows: u16, cols: u16, scrollback: usize) -> (result: TermHandle)
        requires
            rows >= 1,
            cols >= 1,
        ensures
            result.wf(),
            result.version == 0,
            result.scrollback == scrollback,
            result.emulator == fresh(rows, cols, scrollback),
            screen_size(result.emulator) == (rows, cols),
            lines(result.emulator) == Seq::new(rows as nat, |row: int| fitted(Seq::empty(), cols)),
            history(result.emulator) == 0,
            history_limit(result.emulator) == scrollback,
            view_offset(result.emulator) == 0,
            cursor(result.emulator) == (0u16, 0u16),
            !cursor_hidden(result.emulator),
            !application_keys(result.emulator),
            plain(result.emulator),
            roomy(rows, cols) ==> sturdy(result.emulator),
    {
        TermHandle { emulator: Emulator::new(rows, cols, scrollback), version: 0, scrollback }
    }

    /// How many lines have scrolled off the screen. Leaves the view on the oldest of them.
    pub fn scrollback_total(&mut self) -> (result: usize)
        ensures
            result == history(old(self).emulator),
            result <= history_limit(old(self).emulator),
            old(self).wf() ==> final(self).wf(),
            final(self).version == old(self).version,
            final(self).scrollback == old(self).scrollback,
            final(self).emulator == scrolled(old(self).emulator, usize::MAX),
            same_but_for_view(old(self).emulator, final(self).emulator),
            forall|other: usize| #[trigger]
                scrolled(final(self).emulator, other) == scrolled(old(self).emulator, other),
            scrolled(old(self).emulator, view_offset(old(self).emulator)) == old(self).emulator,
    {
        self.emulator.set_scrollback(usize::MAX);
        self.emulator.scrollback()
    }

    /// Takes in what the program has written.
    pub fn feed(&mut self, output: &[u8])
        requires
            sturdy(old(self).emulator),
        ensures
            *final(self) == fed(*old(self), output@),
            old(self).wf() ==> final(self).wf(),
            sturdy(final(self).emulator),
            plain(old(self).emulator) && is_ascii_output(output@) ==> plain(final(self).emulator),
            screen_size(final(self).emulator) == screen_size(old(self).emulator),
            history_limit(final(self).emulator) == history_limit(old(self).emulator),
    {
        self.emulator.process(output);
        self.version = self.version.wrapping_add(1);
    }

    /// Gives the screen another size.
    pub fn resize(&mut self, rows: u16, cols: u16)
        requires
            rows >= 1,
            cols >= 1,
        ensures
            old(self).wf() ==> final(self).wf(),
            final(self).emulator == resized(old(self).emulator, rows, cols),
            final(self).version == next_version(old(self).version),
            final(self).scrollback == old(self).scrollback,
            fits_new_size(old(self).emulator, final(self).emulator, rows, cols),
            sturdy(old(self).emulator) && roomy(rows, cols) && (cols >= screen_size(
                old(self).emulator,
            ).1 || plain(old(self).emulator)) ==> sturdy(final(self).emulator),
            plain(old(self).emulator) ==> plain(final(self).emulator),
    {
        self.emulator.set_size(rows, cols);
        self.version = self.version.wrapping_add(1);
    }

    /// Empties the screen and drops the scrolled-off lines. The program goes on in the style and
    /// the modes that it has set.
    pub fn clear(&mut self)
        ensures
            *final(self) == cleared(*old(self)),
            final(self).wf(),
            renewed(old(self).emulator, final(self).emulator),
            roomy(
                screen_size(old(self).emulator).0,
                screen_size(old(self).emulator).1,
            ) ==> sturdy(final(self).emulator),
            screen_size(final(self).emulator) == screen_size(old(self).emulator),
            old(self).wf() ==> history_limit(final(self).emulator) == history_limit(
                old(self).emulator,
            ),
    {
        let (rows, cols) = self.emulator.size();
        let mut codes = self.emulator.attributes_formatted();
        let mut modes = self.emulator.input_mode_formatted();
        codes.append(&mut modes);
        if self.emulator.hide_cursor() {
            let mut hiding: Vec<u8> = vec![0x1b, 0x5b, 0x3f, 0x32, 0x35, 0x6c];
            assert(hiding@ =~= hiding_sequence());
            codes.append(&mut hiding);
        }
        let mut clearing: Vec<u8> = vec![
            0x1b,
            0x5b,
            0x32,
            0x4a,
            0x1b,
            0x5b,
            0x33,
            0x4a,
            0x1b,
            0x5b,
            0x48,
        ];
        assert(clearing@ =~= clearing_sequence());
        codes.append(&mut clearing);
        assert(codes@ =~= renewal(old(self).emulator));
        self.emulator = Emulator::new(rows, cols, self.scrollback);
        assert(renews(self.emulator, codes@, old(self).emulator));
        self.emulator.process(codes.as_slice());
        self.version = self.version.wrapping_add(1);
    }

    /// Writes the line that tells a restarted session from the one before it.
    pub fn mark_restarted(&mut self)
        requires
            sturdy(old(self).emulator),
        ensures
            *final(self) == fed(*old(self), restart_marker()),
            old(self).wf() ==> final(self).wf(),
            sturdy(final(self).emulator),
            screen_size(final(self).emulator) == screen_size(old(self).emulator),
            history_limit(final(self).emulator) == history_limit(old(self).emulator),
    {
        self.emulator.process("\x1b[33m--- 已重启 ---\x1b[0m\r\n".as_bytes());
        self.version = self.version.wrapping_add(1);
    }

    /// The rows and columns of the screen.
    pub fn size(&self) -> (result: (u16, u16))
        ensures
            result == screen_size(self.emulator),
    {
        self.emulator.size()
    }

    /// The row and column of the cursor.
    pub fn cursor_position(&self) -> (result: (u16, u16))
        ensures
            result == cursor(self.emulator),
    {
        self.emulator.cursor_position()
    }

    /// Whether the program has switched the cursor off.
    pub fn hide_cursor(&self) -> (result: bool)
        ensures
            result == cursor_hidden(self.emulator),
    {
        self.emulator.hide_cursor()
    }

    /// Whether the program has asked for application cursor keys.
    pub fn application_cursor(&self) -> (result: bool)
        ensures
            result == application_keys(self.emulator),
    {
        self.emulator.application_cursor()
    }
}

/// The texts of a list of runs, one after the other.
pub open spec fn text_of(runs: Seq<RunView>) -> Seq<char>
    decreases runs.len(),
{
    if runs.len() == 0 {
        Seq::empty()
    } else {
        text_of(runs.drop_last()) + runs.last().text
    }
}

/// Putting cells into runs keeps the text of the row.
pub proof fn runs_keep_the_text(cells: Seq<RunView>, cursor_col: Option<int>)
    ensures
        text_of(merged(cells, cursor_col)) == text_of(cells),
    decreases cells.len(),
{
    if cells.len() > 0 {
        let before = merged(cells.drop_last(), cursor_col);
        let runs = merged(cells, cursor_col);
        runs_keep_the_text(cells.drop_last(), cursor_col);
        lemma_merged(cells.drop_last(), cursor_col);
        if continues(cells, cursor_col, cells.len() - 1) {
            assert(runs.drop_last() =~= before.drop_last());
            assert(text_of(runs) =~= text_of(before) + cells.last().text);
        } else {
            assert(runs.drop_last() =~= before);
        }
    }
}

/// The place of the cursor's run among the runs of a row, if the cursor is in the row.
pub open spec fn cursor_run(cells: Seq<RunView>, cursor_col: Option<int>) -> Option<int> {
    match cursor_col {
        Some(col) => if 0 <= col < cells.len() {
            Some(merged(cells.take(col), None).len() as int)
        } else {
            None
        },
        None => None,
    }
}

/// The cursor splits a row: what is left of it and what is right of it are put into runs as if
/// each were a row without a cursor, and the cell under the cursor is a run of its own between
/// them. A cursor outside the row does nothing.
pub proof fn cursor_splits_the_row(cells: Seq<RunView>, col: int)
    ensures
        0 <= col < cells.len() ==> merged(cells, Some(col)) == merged(cells.take(col), None).push(
            cells[col],
        ) + merged(cells.skip(col + 1), None),
        !(0 <= col < cells.len()) ==> merged(cells, Some(col)) == merged(cells, None),
    decreases cells.len(),
{
    if cells.len() > 0 {
        let rest = cells.drop_last();
        cursor_splits_the_row(rest, col);
        if 0 <= col < rest.len() {
            let left = merged(cells.take(col), None).push(cells[col]);
            let right = cells.skip(col + 1);
            assert(rest.take(col) =~= cells.take(col));
            assert(rest.skip(col + 1) =~= right.drop_last());
            assert(right.last() == cells.last());
            lemma_merged(right.drop_last(), None);
            let before = merged(right.drop_last(), None);
            if right.len() > 1 {
                assert(right[right.len() - 2] == cells[cells.len() - 2]);
                assert((left + before).last() == before.last());
                assert((left + before).drop_last() =~= left + before.drop_last());
            }
            assert(merged(cells, Some(col)) =~= left + merged(right, None));
        } else if col == rest.len() {
            assert(cells.take(col) =~= rest);
            assert(cells.skip(col + 1) =~= Seq::empty());
            assert(merged(cells, Some(col)) =~= merged(cells.take(col), None).push(cells[col])
                + merged(cells.skip(col + 1), None));
        }
    }
}

/// No two neighbouring runs of a row have one style, apart from the cursor's own run: each run is
/// as long as it can be.
pub proof fn runs_are_maximal(cells: Seq<RunView>, cursor_col: Option<int>, i: int)
    requires
        0 <= i < merged(cells, cursor_col).len() - 1,
        cursor_run(cells, cursor_col) != Some(i),
        cursor_run(cells, cursor_col) != Some(i + 1),
    ensures
        !same_style(merged(cells, cursor_col)[i], merged(cells, cursor_col)[i + 1]),
{
    match cursor_col {
        Some(col) => {
            cursor_splits_the_row(cells, col);
            if 0 <= col < cells.len() {
                let left = merged(cells.take(col), None);
                if i < left.len() {
                    lemma_plain_runs_are_maximal(cells.take(col), i);
                } else {
                    lemma_plain_runs_are_maximal(cells.skip(col + 1), i - left.len() - 1);
                }
            } else {
                lemma_plain_runs_are_maximal(cells, i);
            }
        },
        None => lemma_plain_runs_are_maximal(cells, i),
    }
}

proof fn lemma_plain_runs_are_maximal(cells: Seq<RunView>, i: int)
    requires
        0 <= i < merged(cells, None).len() - 1,
    ensures
        !same_style(merged(cells, None)[i], merged(cells, None)[i + 1]),
    decreases cells.len(),
{
    if cells.len() > 0 {
        let rest = cells.drop_last();
        let before = merged(rest, None);
        lemma_merged(rest, None);
        if i < before.len() - 1 {
            lemma_plain_runs_are_maximal(rest, i);
        }
    }
}

/// Black is replaced as the colour of text alone. Any other colour is drawn as it is, in front of
/// the page and behind text.
pub proof fn only_black_text_is_replaced(color: TermColor)
    ensures
        text_color(TermColor::Idx(0)) == hex_color(TERM_FG_BLACK),
        back_color(TermColor::Idx(0)) == Some(hex_color(TERM_ANSI@[0])),
        text_color(TermColor::Default) == hex_color(TERM_DEFAULT),
        back_color(TermColor::Default) is None,
        color != TermColor::Idx(0) ==> text_color(color) == drawn_color(color),
        color != TermColor::Default ==> back_color(color) == Some(drawn_color(color)),
{
}

/// The cell under the cursor is a run of its own, drawn as a solid block, and trimming the row
/// does not drop it.
pub proof fn cursor_is_drawn(line: Seq<CellView>, cols: u16, col: int)
    requires
        0 <= col < line.len(),
        col < cols,
    ensures
        shown_row(line, cols, Some(col)).contains(drawn_cell(line[col], true)),
        drawn_cell(line[col], true).text == block_text(),
{
    let cells = drawn_cells(line, cols, Some(col));
    let runs = merged(cells, Some(col));
    let block = drawn_cell(line[col], true);
    lemma_cursor_run(cells, col);
    let i = choose|i: int| 0 <= i < runs.len() && runs[i] == cells[col];
    assert(block.text[0] != ' ');
    lemma_trimmed_keeps(runs, i);
    assert(trimmed(runs)[i] == block);
}

proof fn lemma_cursor_run(cells: Seq<RunView>, col: int)
    requires
        0 <= col < cells.len(),
    ensures
        exists|i: int|
            0 <= i < merged(cells, Some(col)).len() && merged(cells, Some(col))[i] == cells[col],
    decreases cells.len(),
{
    let rest = cells.drop_last();
    let before = merged(rest, Some(col));
    let runs = merged(cells, Some(col));
    if col == cells.len() - 1 {
        assert(runs[runs.len() - 1] == cells[col]);
    } else {
        lemma_cursor_run(rest, col);
        let i = choose|i: int| 0 <= i < before.len() && before[i] == rest[col];
        if continues(cells, Some(col), cells.len() - 1) {
            lemma_run_after_cursor(rest, col);
            lemma_merged(rest, Some(col));
            let j = choose|j: int|
                0 <= j < before.len() - 1 && before[j] == rest[col];
            assert(runs[j] == cells[col]);
        } else {
            assert(runs[i] == cells[col]);
        }
    }
}

/// Once another cell follows the cursor's, the cursor's run is not the last one.
proof fn lemma_run_after_cursor(cells: Seq<RunView>, col: int)
    requires
        0 <= col < cells.len() - 1,
    ensures
        exists|i: int|
            0 <= i < merged(cells, Some(col)).len() - 1 && merged(cells, Some(col))[i]
                == cells[col],
    decreases cells.len(),
{
    let rest = cells.drop_last();
    let before = merged(rest, Some(col));
    let runs = merged(cells, Some(col));
    if col == cells.len() - 2 {
        assert(before.last() == rest[col]);
        assert(runs[before.len() - 1] == cells[col]);
    } else {
        lemma_run_after_cursor(rest, col);
        let i = choose|i: int| 0 <= i < before.len() - 1 && before[i] == rest[col];
        assert(runs[i] == cells[col]);
    }
}

proof fn lemma_trimmed_keeps(runs: Seq<RunView>, i: int)
    requires
        0 <= i < runs.len(),
        !invisible(runs[i]),
    ensures
        i < trimmed(runs).len(),
        trimmed(runs)[i] == runs[i],
    decreases runs.len(),
{
    if invisible(runs.last()) {
        lemma_trimmed_keeps(runs.drop_last(), i);
    }
}

/// Trimming a row drops runs at its end only, and every run that it drops is invisible. What is
/// left does not end in an invisible run.
pub proof fn trimming_drops_the_invisible_end(runs: Seq<RunView>)
    ensures
        trimmed(runs) == runs.take(trimmed(runs).len() as int),
        trimmed(runs).len() <= runs.len(),
        forall|i: int| trimmed(runs).len() <= i < runs.len() ==> invisible(#[trigger] runs[i]),
        trimmed(runs).len() > 0 ==> !invisible(trimmed(runs).last()),
    decreases runs.len(),
{
    if runs.len() > 0 && invisible(runs.last()) {
        let rest = runs.drop_last();
        trimming_drops_the_invisible_end(rest);
        assert forall|i: int| trimmed(runs).len() <= i < runs.len() implies invisible(
            #[trigger] runs[i],
        ) by {
            if i < rest.len() {
                assert(rest[i] == runs[i]);
            }
        }
        assert(trimmed(runs) =~= runs.take(trimmed(runs).len() as int));
    } else {
        assert(runs.take(runs.len() as int) =~= runs);
    }
}

/// Above the live screen the cursor is not drawn: a row shows the cells of its line alone.
pub proof fn cursor_is_drawn_live_only(emulator: Emulator, offset: int, row: int)
    requires
        offset != 0,
        0 <= row < screen_size(emulator).0,
    ensures
        shown_grid(emulator, offset)[row] == shown_row(
            lines(emulator)[history(emulator) - offset + row],
            screen_size(emulator).1,
            None,
        ),
{
}

/// A terminal that was emptied has nothing to scroll back to, and its screen shows nothing but the
/// cursor.
pub proof fn emptied_screens_show_no_text(handle: TermHandle, want: int, row: int, col: int)
    requires
        emptied(handle.emulator),
        0 <= want,
        0 <= row < screen_size(handle.emulator).0,
        0 <= col < screen_size(handle.emulator).1,
    ensures
        snapshot(handle, want) == snapshot(handle, 0),
        snapshot(handle, want).offset == 0,
        drawn_cells(
            lines(handle.emulator)[row],
            screen_size(handle.emulator).1,
            cursor_col(handle.emulator, 0, row),
        )[col].text == if cursor_col(handle.emulator, 0, row) == Some(col) {
            block_text()
        } else {
            seq![' ']
        },
{
    assert(lines(handle.emulator)[row][col].text.len() == 0);
}

/// What a snapshot shows does not depend on where the terminal was viewed before.
pub proof fn snapshot_ignores_the_view(a: TermHandle, b: TermHandle, want: int)
    requires
        a.version == b.version,
        same_but_for_view(a.emulator, b.emulator),
    ensures
        snapshot(a, want) == snapshot(b, want),
{
    assert(snapshot(a, want).rows =~= snapshot(b, want).rows);
}

/// While lines scroll off the screen, moving the view up by as many lines keeps the same lines in
/// view, as long as those lines are kept and not written to.
pub proof fn scrolled_view_is_anchored(before: Emulator, after: Emulator, offset: int)
    requires
        offset > 0,
        screen_size(after) == screen_size(before),
        history(before) <= history(after),
        forall|i: int|
            history(before) - offset <= i < history(before) - offset + screen_size(before).0
                ==> #[trigger] lines(after)[i] == lines(before)[i],
    ensures
        shown_grid(after, offset + (history(after) - history(before))) == shown_grid(
            before,
            offset,
        ),
{
    let moved = offset + (history(after) - history(before));
    assert forall|row: int| 0 <= row < screen_size(before).0 implies #[trigger] shown_grid(
        after,
        moved,
    )[row] == shown_grid(before, offset)[row] by {
        let i = history(before) - offset + row;
        assert(lines(after)[i] == lines(before)[i]);
    }
    assert(shown_grid(after, moved) =~= shown_grid(before, offset));
}

/// A row with one more cell: the cell joins the last run exactly if it is drawn like the cell
/// before it and the cursor is on neither of them, and begins a run of its own otherwise. All other
/// runs stay as they are. The run that it is in has its style, and ends in its text.
pub proof fn cells_join_runs_of_their_style(cells: Seq<RunView>, cursor_col: Option<int>)
    requires
        cells.len() > 0,
    ensures
        ({
            let before = merged(cells.drop_last(), cursor_col);
            let runs = merged(cells, cursor_col);
            let last = cells.len() - 1;
            let cell = cells[last];
            let prev = cells[last - 1];
            let joins = last > 0 && prev.fg == cell.fg && prev.bg == cell.bg && prev.bold
                == cell.bold && prev.underline == cell.underline && cursor_col != Some(last)
                && cursor_col != Some(last - 1);
            &&& runs.len() > 0
            &&& runs.last().fg == cell.fg
            &&& runs.last().bg == cell.bg
            &&& runs.last().bold == cell.bold
            &&& runs.last().underline == cell.underline
            &&& joins ==> runs.len() == before.len() && runs.drop_last() == before.drop_last()
                && runs.last().text == before.last().text + cell.text
            &&& !joins ==> runs == before.push(cell)
        }),
{
    lemma_merged(cells.drop_last(), cursor_col);
    lemma_merged(cells, cursor_col);
    let before = merged(cells.drop_last(), cursor_col);
    let runs = merged(cells, cursor_col);
    if continues(cells, cursor_col, cells.len() - 1) {
        assert(runs.drop_last() =~= before.drop_last());
    } else {
        assert(runs.drop_last() =~= before);
    }
}

/// A cell is drawn in its own colours, and in swapped ones if the program asks for that: the colour
/// of the page stands in for a background that it does not set. The cursor is a solid block and
/// changes nothing else, and a cell that was never written to is a space.
pub proof fn cells_are_drawn_as_asked(cell: CellView)
    ensures
        ({
            let plain = drawn_cell(CellView { inverse: false, ..cell }, false);
            let swapped = drawn_cell(CellView { inverse: true, ..cell }, false);
            let drawn = drawn_cell(cell, false);
            let block = drawn_cell(cell, true);
            &&& drawn == if cell.inverse {
                swapped
            } else {
                plain
            }
            &&& plain.fg == text_color(cell.fg)
            &&& plain.bg == back_color(cell.bg)
            &&& swapped.bg == Some(plain.fg)
            &&& swapped.fg == match plain.bg {
                Some(color) => color,
                None => hex_color(TERM_BG),
            }
            &&& drawn.bold == cell.bold
            &&& drawn.underline == cell.underline
            &&& cell.text.len() > 0 ==> drawn.text == cell.text
            &&& cell.text.len() == 0 ==> drawn.text == seq![' ']
            &&& block == (RunView { text: seq!['\u{2588}'], ..drawn })
        }),
{
}

/// A row has a cell for each column of the screen that its line reaches, drawn in order, and the
/// cursor in its column alone.
pub proof fn rows_draw_their_cells_in_order(
    line: Seq<CellView>,
    cols: u16,
    cursor_col: Option<int>,
    col: int,
)
    ensures
        drawn_cells(line, cols, cursor_col).len() <= line.len(),
        drawn_cells(line, cols, cursor_col).len() <= cols,
        drawn_cells(line, cols, cursor_col).len() == line.len() || drawn_cells(
            line,
            cols,
            cursor_col,
        ).len() == cols,
        0 <= col < line.len() && col < cols ==> drawn_cells(line, cols, cursor_col)[col]
            == drawn_cell(line[col], cursor_col == Some(col)),
{
}

/// What is shown of a line is its runs from the first on. Those that are left out at the end have
/// no background and nothing but spaces, and the last that is shown has a background or something
/// else.
pub proof fn rows_show_all_but_the_blank_end(line: Seq<CellView>, cols: u16, cursor_col: Option<int>)
    ensures
        ({
            let runs = merged(drawn_cells(line, cols, cursor_col), cursor_col);
            let shown = shown_row(line, cols, cursor_col);
            &&& shown.len() <= runs.len()
            &&& forall|i: int| 0 <= i < shown.len() ==> #[trigger] shown[i] == runs[i]
            &&& forall|i: int, j: int|
                shown.len() <= i < runs.len() && 0 <= j < runs[i].text.len() ==> runs[i].bg is None
                    && #[trigger] runs[i].text[j] == ' '
            &&& shown.len() > 0 ==> shown.last().bg is Some || exists|j: int|
                0 <= j < shown.last().text.len() && #[trigger] shown.last().text[j] != ' '
        }),
{
    let runs = merged(drawn_cells(line, cols, cursor_col), cursor_col);
    trimming_drops_the_invisible_end(runs);
    let shown = shown_row(line, cols, cursor_col);
    assert(shown == trimmed(runs));
    assert forall|i: int, j: int|
        shown.len() <= i < runs.len() && 0 <= j < runs[i].text.len() implies runs[i].bg is None
        && #[trigger] runs[i].text[j] == ' ' by {
        assert(invisible(runs[i]));
    }
    if shown.len() > 0 && shown.last().bg is None {
        assert(!invisible(shown.last()));
        assert(!all_spaces(shown.last().text));
    }
}

/// The 256 colours: the sixteen of the theme by number, a cube of six levels each of red, green and
/// blue in which the levels are none, 95 and then 40 more each, and greys from 8 in steps of ten.
pub proof fn colors_by_number(idx: u8, red: u8, green: u8, blue: u8)
    requires
        red < 6,
        green < 6,
        blue < 6,
    ensures
        idx < 16 ==> drawn_color(TermColor::Idx(idx)) == hex_color(TERM_ANSI@[idx as int]),
        drawn_color(TermColor::Idx((16 + 36 * red + 6 * green + blue) as u8)) == Color::Rgb(
            cube_level(red as int),
            cube_level(green as int),
            cube_level(blue as int),
        ),
        cube_level(0) == 0,
        red > 0 ==> cube_level(red as int) == 95 + 40 * (red - 1),
        idx >= 232 ==> drawn_color(TermColor::Idx(idx)) == Color::Rgb(
            (8 + 10 * (idx - 232)) as u8,
            (8 + 10 * (idx - 232)) as u8,
            (8 + 10 * (idx - 232)) as u8,
        ),
        drawn_color(TermColor::Rgb(red, green, blue)) == Color::Rgb(red, green, blue),
        drawn_color(TermColor::Default) == hex_color(TERM_DEFAULT),
{
    let i = 36 * red + 6 * green + blue;
    assert(i / 36 == red as int && i / 6 % 6 == green as int && i % 6 == blue as int)
        by (nonlinear_arith)
        requires
            i == 36 * red + 6 * green + blue,
            red < 6,
            green < 6,
            blue < 6,
    ;
}

/// True colours are drawn as they are, with any red, green and blue.
pub proof fn true_colors_are_drawn_as_they_are(red: u8, green: u8, blue: u8)
    ensures
        text_color(TermColor::Rgb(red, green, blue)) == Color::Rgb(red, green, blue),
        back_color(TermColor::Rgb(red, green, blue)) == Some(Color::Rgb(red, green, blue)),
{
}

/// A page shows one row for each row of the screen. On the live screen those are the last lines
/// that there are, with the cursor where it is unless it is hidden. Further up they are the lines
/// as many above, without a cursor: a view one line further up shows the same rows one row further
/// down.
pub proof fn pages_show_the_lines_at_their_position(emulator: Emulator, offset: int, row: int)
    requires
        0 <= offset,
        0 <= row < screen_size(emulator).0,
    ensures
        shown_grid(emulator, offset).len() == screen_size(emulator).0,
        shown_grid(emulator, offset)[row] == shown_row(
            lines(emulator)[lines(emulator).len() - screen_size(emulator).0 - offset + row],
            screen_size(emulator).1,
            if offset == 0 && !cursor_hidden(emulator) && cursor(emulator).0 == row {
                Some(cursor(emulator).1 as int)
            } else {
                None
            },
        ),
        offset > 0 && row + 1 < screen_size(emulator).0 ==> shown_grid(emulator, offset + 1)[row
            + 1] == shown_grid(emulator, offset)[row],
{
}

/// A snapshot is of the version of the screen, at the position asked for or at the oldest line if
/// that is further down. It tells where the cursor is exactly if the cursor is drawn.
pub proof fn snapshots_are_taken_where_asked(handle: TermHandle, want: int)
    requires
        0 <= want,
        0 <= history(handle.emulator) <= usize::MAX,
    ensures
        ({
            let taken = snapshot(handle, want);
            let total = lines(handle.emulator).len() - screen_size(handle.emulator).0;
            &&& taken.version == handle.version
            &&& taken.offset == if want <= total {
                want
            } else {
                total
            }
            &&& taken.rows == shown_grid(handle.emulator, taken.offset as int)
            &&& taken.cursor == if taken.offset == 0 && !cursor_hidden(handle.emulator) {
                Some((cursor(handle.emulator).0 as usize, cursor(handle.emulator).1 as usize))
            } else {
                None
            }
        }),
{
}

/// Whatever is written to a terminal, and clearing it, gives it another version, the next one, so
/// that its page knows. The number of lines that it keeps stays. What was written has gone through
/// the emulator, and a cleared terminal is a new one of the same size that was renewed.
pub proof fn changed_terminals_have_another_version(handle: TermHandle, output: Seq<u8>)
    ensures
        next_version(handle.version) != handle.version,
        handle.version < u64::MAX ==> next_version(handle.version) == handle.version + 1,
        fed(handle, output).version == next_version(handle.version),
        fed(handle, output).emulator == processed(handle.emulator, output),
        fed(handle, output).scrollback == handle.scrollback,
        cleared(handle).version == next_version(handle.version),
        cleared(handle).emulator == processed(
            fresh(
                screen_size(handle.emulator).0,
                screen_size(handle.emulator).1,
                handle.scrollback,
            ),
            renewal(handle.emulator),
        ),
        cleared(handle).scrollback == handle.scrollback,
{
}

/// A restarted session opens with a line that says so, in yellow and in no other colour after it.
pub proof fn restarts_are_marked_in_yellow()
    ensures
        restart_marker() == vstd::utf8::encode_utf8("\x1b[33m--- 已重启 ---\x1b[0m\r\n"@),
{
}

/// The runs of a row, and the rows of a snapshot, are read one by one, in order.
pub proof fn rows_are_read_in_order(rows: Seq<Vec<CellRun>>, i: int, j: int)
    requires
        0 <= i < rows.len(),
        0 <= j < rows[i]@.len(),
    ensures
        row_views(rows).len() == rows.len(),
        row_views(rows)[i].len() == rows[i]@.len(),
        row_views(rows)[i][j] == rows[i]@[j]@,
{
}

} // verus!
