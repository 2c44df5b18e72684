//! The terminal emulator behind each terminal page: `vt100::Parser`, and what is relied on of it.
//!
//! Everything in this file that is marked as trusted calls into the `vt100` crate, and its
//! contract is taken from that crate's source. The emulator is seen as a list of lines, the
//! scrolled-off ones first and the rows of the screen last, together with a viewing position.
use vstd::prelude::*;

verus! {

/// A terminal emulator with its screen and its scrolled-off lines: a `vt100::Parser`.
#[verifier::external_body]
pub struct Emulator {
    parser: vt100::Parser,
}

/// A colour as a terminal program asks for it.
#[derive(Debug, Clone, Copy, PartialEq, Eq, Structural)]
pub enum TermColor {
    Default,
    Idx(u8),
    Rgb(u8, u8, u8),
}

/// One cell of the screen. A cell that was never written to has an empty text.
#[derive(Debug)]
pub struct Cell {
    pub text: String,
    pub fg: TermColor,
    pub bg: TermColor,
    pub bold: bool,
    pub underline: bool,
    pub inverse: bool,
}

/// What a [`Cell`] holds.
pub struct CellView {
    pub text: Seq<char>,
    pub fg: TermColor,
    pub bg: TermColor,
    pub bold: bool,
    pub underline: bool,
    pub inverse: bool,
}

impl View for Cell {
    type V = CellView;

    open spec fn view(&self) -> CellView {
        CellView {
            text: self.text@,
            fg: self.fg,
            bg: self.bg,
            bold: self.bold,
            underline: self.underline,
            inverse: self.inverse,
        }
    }
}

/// The lines that the emulator holds: those scrolled off the screen, oldest first, and then the
/// rows of the screen from top to bottom.
pub uninterp spec fn lines(emulator: Emulator) -> Seq<Seq<CellView>>;

/// The size of the screen in rows and columns.
pub uninterp spec fn screen_size(emulator: Emulator) -> (u16, u16);

/// How many lines above the live screen the view stands.
pub uninterp spec fn view_offset(emulator: Emulator) -> usize;

/// How many scrolled-off lines the emulator keeps at most.
pub uninterp spec fn history_limit(emulator: Emulator) -> usize;

/// The row and column of the cursor on the live screen.
pub uninterp spec fn cursor(emulator: Emulator) -> (u16, u16);

/// Whether the program has switched the cursor off.
pub uninterp spec fn cursor_hidden(emulator: Emulator) -> bool;

/// Whether the program has asked for application cursor keys.
pub uninterp spec fn application_keys(emulator: Emulator) -> bool;

/// Whether a screen has room enough: at least two rows, at least the three columns that the widest
/// character takes, and not so many columns that a tab stop lies beyond what can be counted.
pub open spec fn roomy(rows: u16, cols: u16) -> bool {
    rows >= 2 && 3 <= cols <= 0x7fff
}

/// Whether the emulator takes any further output without failing. It does from the start on a
/// screen with room enough. On a screen with fewer rows or columns, `vt100` panics where a
/// character does not fit. Making a screen narrower may cut a wide character in half, and printing
/// over such a half makes `vt100` panic too.
pub uninterp spec fn sturdy(emulator: Emulator) -> bool;

/// Whether no character wider than one column has been written and none has been begun, so that no
/// change of size can cut one in half.
pub uninterp spec fn plain(emulator: Emulator) -> bool;

/// The escape sequences that set the style which the emulator writes in now.
pub uninterp spec fn attribute_codes(emulator: Emulator) -> Seq<u8>;

/// The escape sequences that set the input modes which the emulator is in now.
pub uninterp spec fn input_mode_codes(emulator: Emulator) -> Seq<u8>;

/// A new emulator of the given size that keeps the given number of scrolled-off lines.
pub uninterp spec fn fresh(rows: u16, cols: u16, scrollback: usize) -> Emulator;

/// The emulator after it has taken in some output.
pub uninterp spec fn processed(emulator: Emulator, output: Seq<u8>) -> Emulator;

/// The emulator after a change of its size.
pub uninterp spec fn resized(emulator: Emulator, rows: u16, cols: u16) -> Emulator;

/// The emulator with its view moved to the given number of lines above the live screen.
pub uninterp spec fn scrolled(emulator: Emulator, offset: usize) -> Emulator;

/// Output of nothing but ASCII bytes.
pub open spec fn is_ascii_output(output: Seq<u8>) -> bool {
    forall|i: int| 0 <= i < output.len() ==> #[trigger] output[i] < 0x80
}

/// The number of lines that have scrolled off the screen and are kept.
pub open spec fn history(emulator: Emulator) -> int {
    lines(emulator).len() - screen_size(emulator).0
}

/// The line in row `row` of the view.
pub open spec fn visible_line(emulator: Emulator, row: int) -> Seq<CellView> {
    lines(emulator)[history(emulator) - view_offset(emulator) + row]
}

/// A cell that was never written to.
pub open spec fn blank_cell() -> CellView {
    CellView {
        text: Seq::empty(),
        fg: TermColor::Default,
        bg: TermColor::Default,
        bold: false,
        underline: false,
        inverse: false,
    }
}

/// The first `cols` cells of a line, made up with blank cells.
pub open spec fn fitted(line: Seq<CellView>, cols: u16) -> Seq<CellView> {
    Seq::new(
        cols as nat,
        |col: int|
            if col < line.len() {
                line[col]
            } else {
                blank_cell()
            },
    )
}

/// The escape sequences that ask for an empty screen, for no scrolled-off lines and for the cursor
/// in the top left corner. They print nothing.
pub open spec fn clearing_sequence() -> Seq<u8> {
    seq![0x1b, 0x5b, 0x32, 0x4a, 0x1b, 0x5b, 0x33, 0x4a, 0x1b, 0x5b, 0x48]
}

/// The escape sequence that switches the cursor off. It prints nothing.
pub open spec fn hiding_sequence() -> Seq<u8> {
    seq![0x1b, 0x5b, 0x3f, 0x32, 0x35, 0x6c]
}

/// What brings a new emulator to an empty screen in the style and the modes of another emulator.
pub open spec fn renewal(emulator: Emulator) -> Seq<u8> {
    attribute_codes(emulator) + input_mode_codes(emulator) + (if cursor_hidden(emulator) {
        hiding_sequence()
    } else {
        Seq::empty()
    }) + clearing_sequence()
}

/// Whether the emulator is a new one, and the output brings it to the style and the modes of
/// `model`.
pub open spec fn renews(emulator: Emulator, output: Seq<u8>, model: Emulator) -> bool {
    &&& emulator == fresh(
        screen_size(emulator).0,
        screen_size(emulator).1,
        history_limit(emulator),
    )
    &&& output == renewal(model)
}

/// A screen without text and without scrolled-off lines, viewed live, with the cursor in the top
/// left corner.
pub open spec fn emptied(emulator: Emulator) -> bool {
    &&& history(emulator) == 0
    &&& view_offset(emulator) == 0
    &&& cursor(emulator) == (0u16, 0u16)
    &&& forall|row: int|
        0 <= row < screen_size(emulator).0 ==> (#[trigger] lines(emulator)[row]).len()
            == screen_size(emulator).1
    &&& forall|row: int, col: int|
        0 <= row < screen_size(emulator).0 && 0 <= col < screen_size(emulator).1 ==> (
        #[trigger] lines(emulator)[row][col]).text.len() == 0
}

/// An empty screen on which no wide character was written, in the modes of `model`.
pub open spec fn renewed(model: Emulator, emulator: Emulator) -> bool {
    &&& emptied(emulator)
    &&& plain(emulator)
    &&& cursor_hidden(emulator) == cursor_hidden(model)
    &&& application_keys(emulator) == application_keys(model)
}

/// What a change of size leaves alone or sets at once: the scrolled-off lines stay, the rows of
/// the screen are cut or made up to the new size, and the cursor stays inside the screen.
pub open spec fn fits_new_size(before: Emulator, after: Emulator, rows: u16, cols: u16) -> bool {
    let kept = history(before);
    &&& screen_size(after) == (rows, cols)
    &&& lines(after) == lines(before).take(kept) + Seq::new(
        rows as nat,
        |row: int|
            if row < screen_size(before).0 {
                fitted(lines(before)[kept + row], cols)
            } else {
                fitted(Seq::empty(), cols)
            },
    )
    &&& view_offset(after) == view_offset(before)
    &&& cursor(after).0 == if cursor(before).0 < rows {
        cursor(before).0 as int
    } else {
        rows - 1
    }
    &&& cursor(after).1 == if cursor(before).1 < cols {
        cursor(before).1 as int
    } else {
        cols - 1
    }
    &&& cursor_hidden(after) == cursor_hidden(before)
    &&& application_keys(after) == application_keys(before)
    &&& history_limit(after) == history_limit(before)
}

/// What moving the view leaves alone: everything but the viewing position.
pub open spec fn same_but_for_view(before: Emulator, after: Emulator) -> bool {
    &&& lines(after) == lines(before)
    &&& screen_size(after) == screen_size(before)
    &&& cursor(after) == cursor(before)
    &&& cursor_hidden(after) == cursor_hidden(before)
    &&& application_keys(after) == application_keys(before)
    &&& history_limit(after) == history_limit(before)
    &&& sturdy(after) == sturdy(before)
    &&& plain(after) == plain(before)
}

impl Emulator {
    /// Calls `vt100::Parser::new`. Trusted: the result depends on nothing but the arguments. It
    /// is a blank screen of the given size with no scrolled-off line, viewed live, with a visible
    /// cursor in the top left corner and ordinary cursor keys.
    #[verifier::external_body]
    pub(crate) fn new(rows: u16, cols: u16, scrollback: usize) -> (result: Emulator)
        requires
            rows >= 1,
            cols >= 1,
        ensures
            result == fresh(rows, cols, scrollback),
            screen_size(result) == (rows, cols),
            lines(result) == Seq::new(rows as nat, |row: int| fitted(Seq::empty(), cols)),
            view_offset(result) == 0,
            history_limit(result) == scrollback,
            cursor(result) == (0u16, 0u16),
            !cursor_hidden(result),
            !application_keys(result),
            plain(result),
            roomy(rows, cols) ==> sturdy(result),
    {
        Emulator { parser: vt100::Parser::new(rows, cols, scrollback) }
    }

    /// Calls `vt100::Parser::process`. Trusted: the emulator afterwards depends on nothing but
    /// the emulator before and the bytes. Output changes neither the size nor the number of
    /// scrolled-off lines that are kept at most, and it never makes a sturdy emulator other than
    /// sturdy. ASCII output writes no wide character. What sets the style and the modes of another
    /// emulator and then clears the screen prints nothing, so that a new emulator of any size
    /// takes it: it gets those modes and an empty screen, and no line scrolls off. What other
    /// output does to the lines is not stated.
    #[verifier::external_body]
    pub(crate) fn process(&mut self, output: &[u8])
        requires
            sturdy(*old(self)) || exists|model: Emulator| #[trigger]
                renews(*old(self), output@, model),
        ensures
            *final(self) == processed(*old(self), output@),
            screen_size(*final(self)) == screen_size(*old(self)),
            history_limit(*final(self)) == history_limit(*old(self)),
            sturdy(*old(self)) ==> sturdy(*final(self)),
            plain(*old(self)) && is_ascii_output(output@) ==> plain(*final(self)),
            forall|model: Emulator| #[trigger]
                renews(*old(self), output@, model) ==> renewed(model, *final(self)),
    {
        self.parser.process(output);
    }

    /// Calls `vt100::Screen::set_size`. Trusted: the emulator afterwards depends on nothing but
    /// the emulator before and the size, and fits the new size. A sturdy emulator stays sturdy
    /// unless the new size has not room enough, or is narrower while the screen may hold a wide
    /// character.
    #[verifier::external_body]
    pub(crate) fn set_size(&mut self, rows: u16, cols: u16)
        requires
            rows >= 1,
            cols >= 1,
        ensures
            *final(self) == resized(*old(self), rows, cols),
            fits_new_size(*old(self), *final(self), rows, cols),
            sturdy(*old(self)) && roomy(rows, cols) && (cols >= screen_size(*old(self)).1 || plain(
                *old(self),
            )) ==> sturdy(*final(self)),
            plain(*old(self)) ==> plain(*final(self)),
    {
        self.parser.screen_mut().set_size(rows, cols);
    }

    /// Calls `vt100::Screen::set_scrollback`. Trusted: the view moves to the given position, or
    /// to the oldest line where fewer have scrolled off, and nothing else changes. Of two moves
    /// the last one counts, and a move to where the view stands changes nothing.
    #[verifier::external_body]
    pub(crate) fn set_scrollback(&mut self, offset: usize)
        ensures
            *final(self) == scrolled(*old(self), offset),
            same_but_for_view(*old(self), *final(self)),
            0 <= history(*final(self)) <= history_limit(*final(self)),
            view_offset(*final(self)) == if offset <= history(*old(self)) {
                offset as int
            } else {
                history(*old(self))
            },
            forall|other: usize| #[trigger]
                scrolled(*final(self), other) == scrolled(*old(self), other),
            scrolled(*old(self), view_offset(*old(self))) == *old(self),
    {
        self.parser.screen_mut().set_scrollback(offset);
    }

    /// Calls `vt100::Screen::scrollback`. Trusted: gives the viewing position, which never lies
    /// above the oldest line.
    #[verifier::external_body]
    pub(crate) fn scrollback(&self) -> (result: usize)
        ensures
            result == view_offset(*self),
            result <= history(*self),
    {
        self.parser.screen().scrollback()
    }

    /// Calls `vt100::Screen::attributes_formatted`. Trusted: the result depends on nothing but the
    /// emulator.
    #[verifier::external_body]
    pub(crate) fn attributes_formatted(&self) -> (result: Vec<u8>)
        ensures
            result@ == attribute_codes(*self),
    {
        self.parser.screen().attributes_formatted()
    }

    /// Calls `vt100::Screen::input_mode_formatted`. Trusted: the result depends on nothing but the
    /// emulator.
    #[verifier::external_body]
    pub(crate) fn input_mode_formatted(&self) -> (result: Vec<u8>)
        ensures
            result@ == input_mode_codes(*self),
    {
        self.parser.screen().input_mode_formatted()
    }

    /// Calls `vt100::Screen::size`. Trusted: gives the rows and columns of the screen, of which
    /// there is at least one each, as an emulator is given no other size. The emulator holds a
    /// line for each row.
    #[verifier::external_body]
    pub(crate) fn size(&self) -> (result: (u16, u16))
        ensures
            result == screen_size(*self),
            1 <= result.0 <= lines(*self).len(),
            1 <= result.1,
    {
        self.parser.screen().size()
    }

    /// Calls `vt100::Screen::cursor_position`. Trusted: gives the row and column of the cursor.
    #[verifier::external_body]
    pub(crate) fn cursor_position(&self) -> (result: (u16, u16))
        ensures
            result == cursor(*self),
    {
        self.parser.screen().cursor_position()
    }

    /// Calls `vt100::Screen::hide_cursor`. Trusted: tells whether the cursor is switched off.
    #[verifier::external_body]
    pub(crate) fn hide_cursor(&self) -> (result: bool)
        ensures
            result == cursor_hidden(*self),
    {
        self.parser.screen().hide_cursor()
    }

    /// Calls `vt100::Screen::application_cursor`. Trusted: tells whether application cursor keys
    /// are asked for.
    #[verifier::external_body]
    pub(crate) fn application_cursor(&self) -> (result: bool)
        ensures
            result == application_keys(*self),
    {
        self.parser.screen().application_cursor()
    }

    /// Calls `vt100::Screen::cell` and reads the cell with `contents`, `fgcolor`, `bgcolor`,
    /// `bold`, `underline` and `inverse` of `vt100::Cell`. Trusted: gives the cell of the view at
    /// that place, and none below the view or right of the end of the line.
    #[verifier::external_body]
    pub(crate) fn cell(&self, row: u16, col: u16) -> (result: Option<Cell>)
        ensures
            match result {
                Some(cell) => row < screen_size(*self).0 && col < visible_line(
                    *self,
                    row as int,
                ).len() && cell@ == visible_line(*self, row as int)[col as int],
                None => row >= screen_size(*self).0 || col >= visible_line(
                    *self,
                    row as int,
                ).len(),
            },
    {
        let cell = self.parser.screen().cell(row, col)?;
        let fg = match cell.fgcolor() {
            vt100::Color::Default => TermColor::Default,
            vt100::Color::Idx(n) => TermColor::Idx(n),
            vt100::Color::Rgb(r, g, b) => TermColor::Rgb(r, g, b),
        };
        let bg = match cell.bgcolor() {
            vt100::Color::Default => TermColor::Default,
            vt100::Color::Idx(n) => TermColor::Idx(n),
            vt100::Color::Rgb(r, g, b) => TermColor::Rgb(r, g, b),
        };
        let (bold, underline, inverse) = (cell.bold(), cell.underline(), cell.inverse());
        Some(Cell { text: cell.contents().to_string(), fg, bg, bold, underline, inverse })
    }
}

/// What renews a terminal keeps the style and the modes that the program has set, a hidden cursor
/// among them, and then empties the screen, drops the scrolled-off lines and brings the cursor
/// home.
pub proof fn renewals_keep_style_and_modes(emulator: Emulator)
    ensures
        renewal(emulator) == attribute_codes(emulator) + input_mode_codes(emulator) + (
        if cursor_hidden(emulator) {
            seq![0x1bu8, 0x5b, 0x3f, 0x32, 0x35, 0x6c]
        } else {
            Seq::empty()
        }) + seq![0x1bu8, 0x5b, 0x32, 0x4a, 0x1b, 0x5b, 0x33, 0x4a, 0x1b, 0x5b, 0x48],
{
}

/// A line fitted to a width has that many cells: its own as far as they reach, and then blank ones.
pub proof fn fitted_lines_have_the_width(line: Seq<CellView>, cols: u16, col: int)
    requires
        0 <= col < cols,
    ensures
        fitted(line, cols).len() == cols,
        col < line.len() ==> fitted(line, cols)[col] == line[col],
        col >= line.len() ==> fitted(line, cols)[col] == blank_cell(),
        blank_cell().text.len() == 0,
        blank_cell().fg == TermColor::Default && blank_cell().bg == TermColor::Default,
        !blank_cell().bold && !blank_cell().underline && !blank_cell().inverse,
{
}

/// A renewed terminal holds no line but those of the screen and no text on any of them, is viewed
/// live, has the cursor in the top left corner, and is in the modes that it was in before.
pub proof fn renewed_terminals_hold_nothing(model: Emulator, emulator: Emulator, row: int, col: int)
    requires
        renewed(model, emulator),
        0 <= row < screen_size(emulator).0,
        0 <= col < screen_size(emulator).1,
    ensures
        lines(emulator).len() == screen_size(emulator).0,
        lines(emulator)[row].len() == screen_size(emulator).1,
        lines(emulator)[row][col].text.len() == 0,
        view_offset(emulator) == 0,
        cursor(emulator) == (0u16, 0u16),
        cursor_hidden(emulator) == cursor_hidden(model),
        application_keys(emulator) == application_keys(model),
        plain(emulator),
{
}

/// A terminal of a new size has that size and holds the lines that it held: the scrolled-off ones
/// as they were, and those of the screen fitted to the width, with blank ones below where there are
/// more rows. The modes stay, and the cursor stays where it was as far as the screen reaches.
pub proof fn resized_terminals_hold_their_lines(
    before: Emulator,
    after: Emulator,
    rows: u16,
    cols: u16,
    i: int,
)
    requires
        fits_new_size(before, after, rows, cols),
        rows >= 1,
        cols >= 1,
        0 <= lines(before).len() - screen_size(before).0,
        0 <= i < lines(after).len(),
    ensures
        ({
            let kept = lines(before).len() - screen_size(before).0;
            &&& screen_size(after) == (rows, cols)
            &&& lines(after).len() == kept + rows
            &&& i < kept ==> lines(after)[i] == lines(before)[i]
            &&& kept <= i < lines(before).len() ==> lines(after)[i] == fitted(lines(before)[i], cols)
            &&& kept <= i && lines(before).len() <= i ==> lines(after)[i] == fitted(
                Seq::empty(),
                cols,
            )
            &&& cursor(after).0 < rows && cursor(after).1 < cols
            &&& cursor(before).0 < rows ==> cursor(after).0 == cursor(before).0
            &&& cursor(before).1 < cols ==> cursor(after).1 == cursor(before).1
            &&& cursor_hidden(after) == cursor_hidden(before)
            &&& application_keys(after) == application_keys(before)
            &&& history_limit(after) == history_limit(before)
        }),
{
}

} // verus!
