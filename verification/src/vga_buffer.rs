//! VGA text-mode screen: colors, packed color bytes, the 80x25 cell grid
//! and a cursor-tracking writer that wraps lines and scrolls.

use vstd::prelude::*;
use vstd::string::StringSliceAdditionalSpecFns;

verus! {

/// The sixteen colors of VGA text mode, in hardware order (`Black` is 0,
/// `White` is 15).
#[derive(Debug, Clone, Copy, PartialEq, Eq, Structural)]
pub enum Color {
    Black,
    Blue,
    Green,
    Cyan,
    Red,
    Magenta,
    Brown,
    LightGray,
    DarkGray,
    LightBlue,
    LightGreen,
    LightCyan,
    LightRed,
    Pink,
    Yellow,
    White,
}

impl Color {
    /// The 4-bit hardware number of the color.
    pub open spec fn spec_number(self) -> u8 {
        match self {
            Color::Black => 0,
            Color::Blue => 1,
            Color::Green => 2,
            Color::Cyan => 3,
            Color::Red => 4,
            Color::Magenta => 5,
            Color::Brown => 6,
            Color::LightGray => 7,
            Color::DarkGray => 8,
            Color::LightBlue => 9,
            Color::LightGreen => 10,
            Color::LightCyan => 11,
            Color::LightRed => 12,
            Color::Pink => 13,
            Color::Yellow => 14,
            Color::White => 15,
        }
    }

    /// The 4-bit hardware number of the color.
    #[verifier::when_used_as_spec(spec_number)]
    pub fn number(self) -> (n: u8)
        ensures
            n == self.spec_number(),
            n < 16,
    {
        match self {
            Color::Black => 0,
            Color::Blue => 1,
            Color::Green => 2,
            Color::Cyan => 3,
            Color::Red => 4,
            Color::Magenta => 5,
            Color::Brown => 6,
            Color::LightGray => 7,
            Color::DarkGray => 8,
            Color::LightBlue => 9,
            Color::LightGreen => 10,
            Color::LightCyan => 11,
            Color::LightRed => 12,
            Color::Pink => 13,
            Color::Yellow => 14,
            Color::White => 15,
        }
    }
}

/// A foreground and a background color packed into one byte:
/// background in bits 7..4, foreground in bits 3..0.
#[derive(Debug, Clone, Copy, PartialEq, Eq, Structural)]
pub struct ColorCode(u8);

impl View for ColorCode {
    type V = u8;

    /// The packed byte.
    closed spec fn view(&self) -> u8 {
        self.0
    }
}

impl ColorCode {
    /// Packs `foreground` and `background`: the byte is
    /// `background * 16 + foreground`.
    pub fn new(foreground: Color, background: Color) -> (code: ColorCode)
        ensures
            code@ == background.number() * 16 + foreground.number(),
    {
        let fg = foreground.number();
        let bg = background.number();
        assert((bg << 4u8) | fg == bg * 16 + fg) by (bit_vector)
            requires
                fg < 16,
                bg < 16,
        ;
        ColorCode((bg << 4u8) | fg)
    }

    /// The packed byte.
    pub fn byte(self) -> (b: u8)
        ensures
            b == self@,
    {
        self.0
    }
}

/// Number of text rows on the screen.
pub const BUFFER_HEIGHT: usize = 25;

/// Number of text columns on the screen.
pub const BUFFER_WIDTH: usize = 80;

/// One cell of the screen: the character byte and its color byte.
#[derive(Debug, Clone, Copy, PartialEq, Eq, Structural)]
pub struct ScreenChar {
    pub ascii_character: u8,
    pub color_code: ColorCode,
}

/// The full 80x25 grid of screen cells, row by row.
pub struct Buffer {
    chars: [[ScreenChar; BUFFER_WIDTH]; BUFFER_HEIGHT],
}

/// A row of spaces in the given color.
pub open spec fn blank_row(color: ColorCode) -> Seq<ScreenChar> {
    Seq::new(BUFFER_WIDTH as nat, |c: int| ScreenChar { ascii_character: 32u8, color_code: color })
}

/// A grid of 25 rows of 80 cells.
pub open spec fn is_grid(cells: Seq<Seq<ScreenChar>>) -> bool {
    &&& cells.len() == BUFFER_HEIGHT
    &&& forall|r: int| 0 <= r < BUFFER_HEIGHT ==> #[trigger] cells[r].len() == BUFFER_WIDTH
}

impl View for Buffer {
    type V = Seq<Seq<ScreenChar>>;

    /// The cells, as 25 rows of 80 cells each.
    closed spec fn view(&self) -> Seq<Seq<ScreenChar>> {
        Seq::new(BUFFER_HEIGHT as nat, |r: int| self.chars[r]@)
    }
}

impl Buffer {
    /// Every buffer is a 25 by 80 grid.
    pub proof fn lemma_is_grid(&self)
        ensures
            is_grid(self@),
    {
    }

    /// A buffer whose every cell holds `fill`.
    pub fn filled(fill: ScreenChar) -> (buffer: Buffer)
        ensures
            is_grid(buffer@),
            forall|r: int, c: int|
                0 <= r < BUFFER_HEIGHT && 0 <= c < BUFFER_WIDTH ==> #[trigger] buffer@[r][c] == fill,
    {
        let row = [fill; BUFFER_WIDTH];
        let buffer = Buffer { chars: [row; BUFFER_HEIGHT] };
        assert forall|r: int, c: int|
            0 <= r < BUFFER_HEIGHT && 0 <= c < BUFFER_WIDTH implies #[trigger] buffer@[r][c] == fill by {
            assert(buffer.chars[r] == row);
        }
        buffer
    }

    /// The cell at `row`, `col`.
    pub fn read_char(&self, row: usize, col: usize) -> (cell: ScreenChar)
        requires
            row < BUFFER_HEIGHT,
            col < BUFFER_WIDTH,
        ensures
            cell == self@[row as int][col as int],
    {
        self.chars[row][col]
    }
}


/// What a writer shows: the cursor, the current color and the cells.
pub struct Screen {
    pub column: int,
    pub row: int,
    pub color: ColorCode,
    pub cells: Seq<Seq<ScreenChar>>,
}

/// The cells moved up by one row, with a blank row in `color` at the bottom.
pub open spec fn scrolled(cells: Seq<Seq<ScreenChar>>, color: ColorCode) -> Seq<Seq<ScreenChar>> {
    cells.subrange(1, BUFFER_HEIGHT as int).push(blank_row(color))
}

/// The screen with `row` filled with spaces in the current color.
pub open spec fn after_clear_row(s: Screen, row: int) -> Screen {
    Screen { cells: s.cells.update(row, blank_row(s.color)), ..s }
}

/// The screen after a line break: the cursor goes to column 0 of the next
/// row, or, on the bottom row, the cells scroll up and the cursor stays on
/// the bottom row.
pub open spec fn after_new_line(s: Screen) -> Screen {
    if s.row < BUFFER_HEIGHT - 1 {
        Screen { column: 0, row: s.row + 1, ..s }
    } else {
        Screen { column: 0, cells: scrolled(s.cells, s.color), ..s }
    }
}

/// The screen after `byte` is put at the cursor: a newline breaks the
/// line; any other byte first breaks the line when the row is full, is then
/// stored in the current color and moves the cursor one column right.
pub open spec fn after_write_byte(s: Screen, byte: u8) -> Screen {
    if byte == 10 {
        after_new_line(s)
    } else {
        let t = if s.column >= BUFFER_WIDTH { after_new_line(s) } else { s };
        Screen {
            column: t.column + 1,
            cells: t.cells.update(
                t.row,
                t.cells[t.row].update(t.column, ScreenChar { ascii_character: byte, color_code: t.color }),
            ),
            ..t
        }
    }
}

/// The byte that the writer shows for `byte` of a string: printable ASCII
/// (0x20 to 0x7e) and newline as they are, anything else as 0xfe.
pub open spec fn displayed_byte(byte: u8) -> u8 {
    if (0x20 <= byte && byte <= 0x7e) || byte == 10 {
        byte
    } else {
        0xfe
    }
}

/// The screen after each byte of `bytes`, shown as `displayed_byte` says,
/// is written in turn.
pub open spec fn after_write_bytes(s: Screen, bytes: Seq<u8>) -> Screen
    decreases bytes.len(),
{
    if bytes.len() == 0 {
        s
    } else {
        after_write_byte(after_write_bytes(s, bytes.drop_last()), displayed_byte(bytes.last()))
    }
}

/// Writes text into a screen buffer, tracking the cursor and the color.
pub struct Writer {
    pub column_position: usize,
    pub row_position: usize,
    pub color_code: ColorCode,
    pub buffer: &'static mut Buffer,
}

impl Writer {
    /// The writer's cursor, color and cells.
    pub open spec fn screen(&self) -> Screen {
        Screen {
            column: self.column_position as int,
            row: self.row_position as int,
            color: self.color_code,
            cells: self.buffer@,
        }
    }

    /// Moves the cursor to column 0 of the next row; on the bottom row the
    /// cells scroll up by one row and the bottom row is cleared instead.
    fn new_line(&mut self)
        ensures
            final(self).screen() == after_new_line(old(self).screen()),
            old(self).row_position < BUFFER_HEIGHT ==> final(self).row_position < BUFFER_HEIGHT,
            final(self).column_position == 0,
            final(self).color_code == old(self).color_code,
    {
        self.column_position = 0;
        if self.row_position < BUFFER_HEIGHT - 1 {
            self.row_position += 1;
        } else {
            for row in 1..BUFFER_HEIGHT
                invariant
                    self.column_position == 0,
                    self.row_position == old(self).row_position,
                    self.color_code == old(self).color_code,
                    1 <= row <= BUFFER_HEIGHT,
                    forall|r: int| 0 <= r < row - 1 ==> #[trigger] self.buffer.chars[r] == old(self).buffer.chars[r + 1],
                    forall|r: int| row - 1 <= r < BUFFER_HEIGHT ==> #[trigger] self.buffer.chars[r] == old(self).buffer.chars[r],
            {
                let character = self.buffer.chars[row];
                self.buffer.chars[row - 1] = character;
            }
            let ghost moved = self.buffer@;
            assert(moved =~= old(self).buffer@.subrange(1, BUFFER_HEIGHT as int).push(old(self).buffer@[BUFFER_HEIGHT - 1]));
            self.clear_row(BUFFER_HEIGHT - 1);
            assert(self.buffer@ =~= scrolled(old(self).buffer@, self.color_code));
        }
    }

    /// Puts `byte` at the cursor. A newline (`10`) breaks the line. Any
    /// other byte first breaks the line when the cursor is past the last
    /// column, is then stored in the current color, and moves the cursor one
    /// column right.
    pub fn write_byte(&mut self, byte: u8)
        requires
            byte == 10 || old(self).row_position < BUFFER_HEIGHT,
        ensures
            final(self).screen() == after_write_byte(old(self).screen(), byte),
            final(self).color_code == old(self).color_code,
            byte == 10 && old(self).row_position < BUFFER_HEIGHT - 1 ==> {
                &&& final(self).row_position == old(self).row_position + 1
                &&& final(self).column_position == 0
                &&& final(self).buffer@ == old(self).buffer@
            },
            byte == 10 && old(self).row_position >= BUFFER_HEIGHT - 1 ==> {
                &&& final(self).row_position == old(self).row_position
                &&& final(self).column_position == 0
                &&& forall|r: int, c: int|
                    0 <= r < BUFFER_HEIGHT - 1 && 0 <= c < BUFFER_WIDTH
                        ==> #[trigger] final(self).buffer@[r][c] == old(self).buffer@[r + 1][c]
                &&& forall|c: int|
                    0 <= c < BUFFER_WIDTH ==> #[trigger] final(self).buffer@[BUFFER_HEIGHT - 1][c]
                        == (ScreenChar { ascii_character: 32u8, color_code: old(self).color_code })
            },
            byte != 10 && old(self).column_position < BUFFER_WIDTH ==> {
                &&& final(self).row_position == old(self).row_position
                &&& final(self).column_position == old(self).column_position + 1
                &&& final(self).buffer@[old(self).row_position as int][old(self).column_position as int]
                    == (ScreenChar { ascii_character: byte, color_code: old(self).color_code })
                &&& forall|r: int, c: int|
                    0 <= r < BUFFER_HEIGHT && 0 <= c < BUFFER_WIDTH && (r != old(self).row_position
                        || c != old(self).column_position) ==> #[trigger] final(self).buffer@[r][c]
                        == old(self).buffer@[r][c]
            },
            byte != 10 && old(self).column_position >= BUFFER_WIDTH && old(self).row_position
                < BUFFER_HEIGHT - 1 ==> {
                &&& final(self).row_position == old(self).row_position + 1
                &&& final(self).column_position == 1
                &&& final(self).buffer@[old(self).row_position + 1][0] == (ScreenChar {
                    ascii_character: byte,
                    color_code: old(self).color_code,
                })
                &&& forall|r: int, c: int|
                    0 <= r < BUFFER_HEIGHT && 0 <= c < BUFFER_WIDTH && (r != old(self).row_position
                        + 1 || c != 0) ==> #[trigger] final(self).buffer@[r][c] == old(self).buffer@[r][c]
            },
            byte != 10 && old(self).column_position >= BUFFER_WIDTH && old(self).row_position
                == BUFFER_HEIGHT - 1 ==> {
                &&& final(self).row_position == old(self).row_position
                &&& final(self).column_position == 1
                &&& forall|r: int, c: int|
                    0 <= r < BUFFER_HEIGHT - 1 && 0 <= c < BUFFER_WIDTH
                        ==> #[trigger] final(self).buffer@[r][c] == old(self).buffer@[r + 1][c]
                &&& final(self).buffer@[BUFFER_HEIGHT - 1][0] == (ScreenChar {
                    ascii_character: byte,
                    color_code: old(self).color_code,
                })
                &&& forall|c: int|
                    1 <= c < BUFFER_WIDTH ==> #[trigger] final(self).buffer@[BUFFER_HEIGHT - 1][c]
                        == (ScreenChar { ascii_character: 32u8, color_code: old(self).color_code })
            },
    {
        proof {
            old(self).buffer.lemma_is_grid();
            lemma_write_byte_effect(old(self).screen(), byte);
        }
        if byte == 10 {
            self.new_line();
        } else {
            if self.column_position >= BUFFER_WIDTH {
                self.new_line();
            }
            let row = self.row_position;
            let col = self.column_position;
            let color_code = self.color_code;
            proof {
                self.buffer.lemma_is_grid();
            }
            self.buffer.chars[row][col] = ScreenChar { ascii_character: byte, color_code };
            self.column_position += 1;
            assert(self.buffer@ =~= after_write_byte(old(self).screen(), byte).cells);
        }
    }

    /// Writes the bytes of `s` in turn: printable ASCII (0x20 to 0x7e) and
    /// newline as they are, every other byte as 0xfe.
    pub fn write_string(&mut self, s: &str)
        requires
            old(self).row_position < BUFFER_HEIGHT || forall|i: int|
                0 <= i < s.spec_bytes().len() ==> #[trigger] s.spec_bytes()[i] == 10,
        ensures
            final(self).screen() == after_write_bytes(old(self).screen(), s.spec_bytes()),
            final(self).color_code == old(self).color_code,
    {
        let bytes = s.as_bytes();
        let mut i: usize = 0;
        while i < bytes.len()
            invariant
                bytes@ == s.spec_bytes(),
                0 <= i <= bytes@.len(),
                self.color_code == old(self).color_code,
                self.screen() == after_write_bytes(old(self).screen(), bytes@.take(i as int)),
                self.row_position < BUFFER_HEIGHT || forall|j: int|
                    i <= j < bytes@.len() ==> #[trigger] bytes@[j] == 10,
            decreases bytes@.len() - i,
        {
            let byte = bytes[i];
            let shown: u8 = if (0x20 <= byte && byte <= 0x7e) || byte == 10 {
                byte
            } else {
                0xfe
            };
            self.write_byte(shown);
            assert(bytes@.take(i + 1).drop_last() =~= bytes@.take(i as int));
            i += 1;
        }
        assert(bytes@.take(i as int) =~= bytes@);
    }

    /// Fills `row` with spaces in the current color.
    fn clear_row(&mut self, row: usize)
        requires
            row < BUFFER_HEIGHT,
        ensures
            final(self).screen() == after_clear_row(old(self).screen(), row as int),
            after_clear_row(final(self).screen(), row as int) == final(self).screen(),
    {
        let blank = ScreenChar { ascii_character: 32u8, color_code: self.color_code };
        for col in 0..BUFFER_WIDTH
            invariant
                self.column_position == old(self).column_position,
                self.row_position == old(self).row_position,
                self.color_code == old(self).color_code,
                blank == (ScreenChar { ascii_character: 32u8, color_code: self.color_code }),
                row < BUFFER_HEIGHT,
                forall|r: int| 0 <= r < BUFFER_HEIGHT && r != row ==> #[trigger] self.buffer.chars[r] == old(self).buffer.chars[r],
                forall|c: int| 0 <= c < col ==> #[trigger] self.buffer.chars[row as int][c] == blank,
                forall|c: int| col <= c < BUFFER_WIDTH ==> #[trigger] self.buffer.chars[row as int][c] == old(self).buffer.chars[row as int][c],
        {
            self.buffer.chars[row][col] = blank;
        }
        assert(self.buffer.chars[row as int]@ =~= blank_row(self.color_code));
        assert(self.buffer@ =~= old(self).buffer@.update(row as int, blank_row(self.color_code)));
        proof {
            old(self).buffer.lemma_is_grid();
            lemma_clear_row_idempotent(old(self).screen(), row as int);
        }
    }
}


/// A screen whose cells form the 25 by 80 grid and whose cursor is on it:
/// a row below 25 and a column of at most 80 (80 meaning the row is full).
pub open spec fn cursor_on_screen(s: Screen) -> bool {
    &&& is_grid(s.cells)
    &&& 0 <= s.row < BUFFER_HEIGHT
    &&& 0 <= s.column <= BUFFER_WIDTH
}

/// Writing a byte keeps the cells a grid and the cursor on the screen.
pub proof fn lemma_write_byte_keeps_cursor_on_screen(s: Screen, byte: u8)
    requires
        cursor_on_screen(s),
    ensures
        cursor_on_screen(after_write_byte(s, byte)),
{
    assert(is_grid(after_new_line(s).cells));
    assert(is_grid(after_write_byte(s, byte).cells));
}

/// Writing a sequence of bytes keeps the cells a grid and the cursor on
/// the screen.
pub proof fn lemma_write_bytes_keeps_cursor_on_screen(s: Screen, bytes: Seq<u8>)
    requires
        cursor_on_screen(s),
    ensures
        cursor_on_screen(after_write_bytes(s, bytes)),
    decreases bytes.len(),
{
    if bytes.len() > 0 {
        lemma_write_bytes_keeps_cursor_on_screen(s, bytes.drop_last());
        lemma_write_byte_keeps_cursor_on_screen(
            after_write_bytes(s, bytes.drop_last()),
            displayed_byte(bytes.last()),
        );
    }
}

/// A byte other than newline, written while the row has room, lands at the
/// cursor in the current color; the cursor moves one column right and no
/// other cell changes.
pub proof fn lemma_write_byte_lands_at_cursor(s: Screen, byte: u8)
    requires
        cursor_on_screen(s),
        s.column < BUFFER_WIDTH,
        byte != 10,
    ensures
        after_write_byte(s, byte).cells[s.row][s.column] == (ScreenChar {
            ascii_character: byte,
            color_code: s.color,
        }),
        after_write_byte(s, byte).row == s.row,
        after_write_byte(s, byte).column == s.column + 1,
        after_write_byte(s, byte).color == s.color,
        forall|r: int, c: int|
            0 <= r < BUFFER_HEIGHT && 0 <= c < BUFFER_WIDTH && (r != s.row || c != s.column)
                ==> #[trigger] after_write_byte(s, byte).cells[r][c] == s.cells[r][c],
{
}

/// A byte other than newline, written when the cursor is past the end of a
/// row that is not the bottom one, goes to column 0 of the next row, and the
/// cursor ends in column 1 of that row.
pub proof fn lemma_full_row_wraps(s: Screen, byte: u8)
    requires
        cursor_on_screen(s),
        s.column == BUFFER_WIDTH,
        s.row < BUFFER_HEIGHT - 1,
        byte != 10,
    ensures
        after_write_byte(s, byte).cells[s.row + 1][0] == (ScreenChar {
            ascii_character: byte,
            color_code: s.color,
        }),
        after_write_byte(s, byte).row == s.row + 1,
        after_write_byte(s, byte).column == 1,
{
}

/// A newline on the bottom row scrolls: every row moves up by one, the
/// bottom row becomes blank in the current color, and the cursor goes to
/// column 0 of the bottom row.
pub proof fn lemma_newline_on_bottom_row_scrolls(s: Screen)
    requires
        cursor_on_screen(s),
        s.row == BUFFER_HEIGHT - 1,
    ensures
        after_write_byte(s, 10).row == BUFFER_HEIGHT - 1,
        after_write_byte(s, 10).column == 0,
        forall|r: int| 0 <= r < BUFFER_HEIGHT - 1 ==> #[trigger] after_write_byte(s, 10).cells[r] == s.cells[r + 1],
        after_write_byte(s, 10).cells[BUFFER_HEIGHT - 1] == blank_row(s.color),
        is_grid(after_write_byte(s, 10).cells),
{
}

/// A line break keeps the cursor on the screen: it goes to column 0 of a
/// row below 25, and the color is kept.
pub proof fn lemma_new_line_keeps_cursor_on_screen(s: Screen)
    requires
        cursor_on_screen(s),
    ensures
        cursor_on_screen(after_new_line(s)),
        after_new_line(s).row < BUFFER_HEIGHT,
        after_new_line(s).column == 0,
        after_new_line(s).color == s.color,
{
    assert(is_grid(after_new_line(s).cells));
}

/// Clearing a row twice has the effect of clearing it once.
pub proof fn lemma_clear_row_idempotent(s: Screen, row: int)
    requires
        is_grid(s.cells),
        0 <= row < BUFFER_HEIGHT,
    ensures
        after_clear_row(after_clear_row(s, row), row) == after_clear_row(s, row),
{
    assert(after_clear_row(after_clear_row(s, row), row).cells =~= after_clear_row(s, row).cells);
}

/// A screen whose cells form the grid, with the cursor on one of its rows
/// and at a column that is not negative (it may lie past the last column).
pub open spec fn cursor_in_grid(s: Screen) -> bool {
    &&& is_grid(s.cells)
    &&& 0 <= s.row < BUFFER_HEIGHT
    &&& 0 <= s.column
}

/// Writing a byte keeps the cells a grid, the cursor row on the screen and
/// the column not negative, from any such column.
pub proof fn lemma_write_byte_keeps_cursor_in_grid(s: Screen, byte: u8)
    requires
        cursor_in_grid(s),
    ensures
        cursor_in_grid(after_write_byte(s, byte)),
{
    assert(is_grid(after_new_line(s).cells));
    assert(is_grid(after_write_byte(s, byte).cells));
}

/// Writing a sequence of bytes keeps the cells a grid, the cursor row on
/// the screen and the column not negative.
pub proof fn lemma_write_bytes_keeps_cursor_in_grid(s: Screen, bytes: Seq<u8>)
    requires
        cursor_in_grid(s),
    ensures
        cursor_in_grid(after_write_bytes(s, bytes)),
    decreases bytes.len(),
{
    if bytes.len() > 0 {
        lemma_write_bytes_keeps_cursor_in_grid(s, bytes.drop_last());
        lemma_write_byte_keeps_cursor_in_grid(
            after_write_bytes(s, bytes.drop_last()),
            displayed_byte(bytes.last()),
        );
    }
}

/// What writing one byte does, case by case, for any cursor in the grid:
/// - the writer's color never changes;
/// - a newline above the bottom row moves the cursor to column 0 of the
///   next row and changes no cell;
/// - a newline on (or below) the bottom row moves every row up by one,
///   fills the bottom row with spaces in the current color and puts the
///   cursor at column 0 of the same row;
/// - any other byte with room in the row lands at the cursor in the current
///   color, moves the cursor one column right and changes no other cell;
/// - any other byte on a full row above the bottom one lands at column 0 of
///   the next row, the cursor ending at column 1 there, no other cell
///   changing;
/// - any other byte on a full bottom row moves every row up by one and
///   lands at column 0 of the bottom row, whose other cells become spaces in
///   the current color; the cursor ends at column 1 of the bottom row.
pub proof fn lemma_write_byte_effect(s: Screen, byte: u8)
    requires
        is_grid(s.cells),
        0 <= s.row,
        0 <= s.column,
        byte == 10 || s.row < BUFFER_HEIGHT,
    ensures
        after_write_byte(s, byte).color == s.color,
        is_grid(after_write_byte(s, byte).cells),
        byte == 10 && s.row < BUFFER_HEIGHT - 1 ==> {
            &&& after_write_byte(s, byte).row == s.row + 1
            &&& after_write_byte(s, byte).column == 0
            &&& after_write_byte(s, byte).cells == s.cells
        },
        byte == 10 && s.row >= BUFFER_HEIGHT - 1 ==> {
            &&& after_write_byte(s, byte).row == s.row
            &&& after_write_byte(s, byte).column == 0
            &&& forall|r: int, c: int|
                0 <= r < BUFFER_HEIGHT - 1 && 0 <= c < BUFFER_WIDTH
                    ==> #[trigger] after_write_byte(s, byte).cells[r][c] == s.cells[r + 1][c]
            &&& forall|c: int|
                0 <= c < BUFFER_WIDTH ==> #[trigger] after_write_byte(s, byte).cells[BUFFER_HEIGHT
                    - 1][c] == (ScreenChar { ascii_character: 32u8, color_code: s.color })
        },
        byte != 10 && s.column < BUFFER_WIDTH ==> {
            &&& after_write_byte(s, byte).row == s.row
            &&& after_write_byte(s, byte).column == s.column + 1
            &&& after_write_byte(s, byte).cells[s.row][s.column] == (ScreenChar {
                ascii_character: byte,
                color_code: s.color,
            })
            &&& forall|r: int, c: int|
                0 <= r < BUFFER_HEIGHT && 0 <= c < BUFFER_WIDTH && (r != s.row || c != s.column)
                    ==> #[trigger] after_write_byte(s, byte).cells[r][c] == s.cells[r][c]
        },
        byte != 10 && s.column >= BUFFER_WIDTH && s.row < BUFFER_HEIGHT - 1 ==> {
            &&& after_write_byte(s, byte).row == s.row + 1
            &&& after_write_byte(s, byte).column == 1
            &&& after_write_byte(s, byte).cells[s.row + 1][0] == (ScreenChar {
                ascii_character: byte,
                color_code: s.color,
            })
            &&& forall|r: int, c: int|
                0 <= r < BUFFER_HEIGHT && 0 <= c < BUFFER_WIDTH && (r != s.row + 1 || c != 0)
                    ==> #[trigger] after_write_byte(s, byte).cells[r][c] == s.cells[r][c]
        },
        byte != 10 && s.column >= BUFFER_WIDTH && s.row == BUFFER_HEIGHT - 1 ==> {
            &&& after_write_byte(s, byte).row == s.row
            &&& after_write_byte(s, byte).column == 1
            &&& forall|r: int, c: int|
                0 <= r < BUFFER_HEIGHT - 1 && 0 <= c < BUFFER_WIDTH
                    ==> #[trigger] after_write_byte(s, byte).cells[r][c] == s.cells[r + 1][c]
            &&& after_write_byte(s, byte).cells[BUFFER_HEIGHT - 1][0] == (ScreenChar {
                ascii_character: byte,
                color_code: s.color,
            })
            &&& forall|c: int|
                1 <= c < BUFFER_WIDTH ==> #[trigger] after_write_byte(s, byte).cells[BUFFER_HEIGHT
                    - 1][c] == (ScreenChar { ascii_character: 32u8, color_code: s.color })
        },
{
    assert(is_grid(after_new_line(s).cells));
    assert(is_grid(after_write_byte(s, byte).cells));
    if byte == 10 && s.row < BUFFER_HEIGHT - 1 {
        assert(after_write_byte(s, byte).cells =~= s.cells);
    }
}

/// What writing a sequence of bytes as `write_string` does: nothing for no
/// bytes; for bytes followed by one more byte `b`, the effect of the first
/// bytes and then the effect of writing `displayed_byte(b)` as
/// `lemma_write_byte_effect` describes it: the color is kept, a newline
/// moves to the next row or scrolls on the bottom row, and any other byte
/// lands at the cursor, or after a full row at column 0 of the next row
/// (scrolling first on the bottom row).
pub proof fn lemma_write_bytes_effect(s: Screen, bytes: Seq<u8>, b: u8)
    requires
        is_grid(s.cells),
        0 <= s.row,
        0 <= s.column,
        s.row < BUFFER_HEIGHT || forall|i: int| 0 <= i < bytes.push(b).len() ==> #[trigger] bytes.push(b)[i] == 10,
    ensures
        after_write_bytes(s, Seq::<u8>::empty()) == s,
        s.row < BUFFER_HEIGHT ==> cursor_in_grid(after_write_bytes(s, bytes)),
        after_write_bytes(s, bytes.push(b)).color == s.color,
        ({
            let t = after_write_bytes(s, bytes);
            let u = after_write_bytes(s, bytes.push(b));
            let d = displayed_byte(b);
            &&& t.color == s.color
            &&& is_grid(u.cells)
            &&& d == 10 && t.row < BUFFER_HEIGHT - 1 ==> {
                &&& u.row == t.row + 1
                &&& u.column == 0
                &&& u.cells == t.cells
            }
            &&& d == 10 && t.row >= BUFFER_HEIGHT - 1 ==> {
                &&& u.row == t.row
                &&& u.column == 0
                &&& forall|r: int, c: int|
                    0 <= r < BUFFER_HEIGHT - 1 && 0 <= c < BUFFER_WIDTH ==> #[trigger] u.cells[r][c]
                        == t.cells[r + 1][c]
                &&& forall|c: int|
                    0 <= c < BUFFER_WIDTH ==> #[trigger] u.cells[BUFFER_HEIGHT - 1][c] == (ScreenChar {
                        ascii_character: 32u8,
                        color_code: s.color,
                    })
            }
            &&& d != 10 && t.column < BUFFER_WIDTH ==> {
                &&& u.row == t.row
                &&& u.column == t.column + 1
                &&& u.cells[t.row][t.column] == (ScreenChar { ascii_character: d, color_code: s.color })
                &&& forall|r: int, c: int|
                    0 <= r < BUFFER_HEIGHT && 0 <= c < BUFFER_WIDTH && (r != t.row || c != t.column)
                        ==> #[trigger] u.cells[r][c] == t.cells[r][c]
            }
            &&& d != 10 && t.column >= BUFFER_WIDTH && t.row < BUFFER_HEIGHT - 1 ==> {
                &&& u.row == t.row + 1
                &&& u.column == 1
                &&& u.cells[t.row + 1][0] == (ScreenChar { ascii_character: d, color_code: s.color })
                &&& forall|r: int, c: int|
                    0 <= r < BUFFER_HEIGHT && 0 <= c < BUFFER_WIDTH && (r != t.row + 1 || c != 0)
                        ==> #[trigger] u.cells[r][c] == t.cells[r][c]
            }
            &&& d != 10 && t.column >= BUFFER_WIDTH && t.row == BUFFER_HEIGHT - 1 ==> {
                &&& u.row == t.row
                &&& u.column == 1
                &&& forall|r: int, c: int|
                    0 <= r < BUFFER_HEIGHT - 1 && 0 <= c < BUFFER_WIDTH ==> #[trigger] u.cells[r][c]
                        == t.cells[r + 1][c]
                &&& u.cells[BUFFER_HEIGHT - 1][0] == (ScreenChar { ascii_character: d, color_code: s.color })
                &&& forall|c: int|
                    1 <= c < BUFFER_WIDTH ==> #[trigger] u.cells[BUFFER_HEIGHT - 1][c] == (ScreenChar {
                        ascii_character: 32u8,
                        color_code: s.color,
                    })
            }
        }),
{
    assert(bytes.push(b).drop_last() =~= bytes);
    if s.row >= BUFFER_HEIGHT {
        assert forall|i: int| 0 <= i < bytes.len() implies #[trigger] bytes[i] == 10 by {
            assert(bytes.push(b)[i] == bytes[i]);
        }
        assert(bytes.push(b)[bytes.len() as int] == b);
    }
    lemma_write_bytes_keeps_grid(s, bytes);
    if s.row < BUFFER_HEIGHT {
        lemma_write_bytes_keeps_cursor_in_grid(s, bytes);
    }
    assert(bytes.push(b).last() == b);
    let t = after_write_bytes(s, bytes);
    let d = displayed_byte(b);
    lemma_write_byte_effect(t, d);
}

/// Writing bytes never changes the writer's color, keeps the cells a grid
/// and the cursor at a row and column that are not negative; from a row
/// below the screen, where only newlines can be written, the row stays.
pub proof fn lemma_write_bytes_keeps_grid(s: Screen, bytes: Seq<u8>)
    requires
        is_grid(s.cells),
        0 <= s.row,
        0 <= s.column,
        s.row < BUFFER_HEIGHT || forall|i: int| 0 <= i < bytes.len() ==> #[trigger] bytes[i] == 10,
    ensures
        after_write_bytes(s, bytes).color == s.color,
        is_grid(after_write_bytes(s, bytes).cells),
        0 <= after_write_bytes(s, bytes).row,
        0 <= after_write_bytes(s, bytes).column,
        s.row < BUFFER_HEIGHT ==> after_write_bytes(s, bytes).row < BUFFER_HEIGHT,
        s.row >= BUFFER_HEIGHT ==> after_write_bytes(s, bytes).row == s.row,
    decreases bytes.len(),
{
    if bytes.len() > 0 {
        let front = bytes.drop_last();
        if s.row >= BUFFER_HEIGHT {
            assert forall|i: int| 0 <= i < front.len() implies #[trigger] front[i] == 10 by {
                assert(front[i] == bytes[i]);
            }
            assert(bytes.last() == bytes[bytes.len() - 1]);
        }
        lemma_write_bytes_keeps_grid(s, front);
        lemma_write_byte_effect(after_write_bytes(s, front), displayed_byte(bytes.last()));
    }
}

/// A byte that may stand on the screen: printable ASCII or the 0xfe glyph.
pub open spec fn is_shown_byte(byte: u8) -> bool {
    (0x20 <= byte && byte <= 0x7e) || byte == 0xfe
}

/// Every cell of the grid holds a printable ASCII byte or 0xfe.
pub open spec fn shows_only_printable(cells: Seq<Seq<ScreenChar>>) -> bool {
    forall|r: int, c: int|
        0 <= r < BUFFER_HEIGHT && 0 <= c < BUFFER_WIDTH ==> #[trigger] is_shown_byte(
            cells[r][c].ascii_character,
        )
}

/// Writing bytes as `write_string` does keeps a screen that shows only
/// printable ASCII and 0xfe that way: no control byte and no byte above
/// 0x7e other than 0xfe reaches the screen.
pub proof fn lemma_write_bytes_keeps_screen_printable(s: Screen, bytes: Seq<u8>)
    requires
        cursor_in_grid(s),
        shows_only_printable(s.cells),
    ensures
        shows_only_printable(after_write_bytes(s, bytes).cells),
    decreases bytes.len(),
{
    if bytes.len() > 0 {
        let front = bytes.drop_last();
        lemma_write_bytes_keeps_screen_printable(s, front);
        lemma_write_bytes_keeps_cursor_in_grid(s, front);
        let t = after_write_bytes(s, front);
        let b = displayed_byte(bytes.last());
        lemma_displayed_byte(bytes.last());
        let n = after_new_line(t);
        assert(shows_only_printable(n.cells)) by {
            assert forall|r: int, c: int|
                0 <= r < BUFFER_HEIGHT && 0 <= c < BUFFER_WIDTH implies #[trigger] is_shown_byte(
                n.cells[r][c].ascii_character,
            ) by {
                if t.row >= BUFFER_HEIGHT - 1 && r < BUFFER_HEIGHT - 1 {
                    assert(n.cells[r] == t.cells[r + 1]);
                    assert(is_shown_byte(t.cells[r + 1][c].ascii_character));
                }
            }
        }
        assert(is_grid(n.cells));
        let u = after_write_bytes(s, bytes);
        assert(u == after_write_byte(t, b));
        assert(shows_only_printable(u.cells)) by {
            if b != 10 {
                let m = if t.column >= BUFFER_WIDTH { n } else { t };
                assert(shows_only_printable(m.cells));
                assert forall|r: int, c: int|
                    0 <= r < BUFFER_HEIGHT && 0 <= c < BUFFER_WIDTH implies #[trigger] is_shown_byte(
                    u.cells[r][c].ascii_character,
                ) by {
                    if r != m.row || c != m.column {
                        assert(u.cells[r][c] == m.cells[r][c]);
                        assert(is_shown_byte(m.cells[r][c].ascii_character));
                    }
                }
            }
        }
    }
}

/// A newline above the bottom row moves the cursor to column 0 of the next
/// row and changes no cell.
pub proof fn lemma_newline_above_bottom_row(s: Screen)
    requires
        cursor_on_screen(s),
        s.row < BUFFER_HEIGHT - 1,
    ensures
        after_write_byte(s, 10) == (Screen { column: 0, row: s.row + 1, ..s }),
{
}

/// Bytes without a newline that fit in the rest of the row are shown one
/// after the other from the cursor on, in the current color; the cursor
/// ends just after them on the same row, and no other cell changes.
pub proof fn lemma_write_bytes_on_one_row(s: Screen, bytes: Seq<u8>)
    requires
        cursor_on_screen(s),
        s.column + bytes.len() <= BUFFER_WIDTH,
        forall|i: int| 0 <= i < bytes.len() ==> #[trigger] bytes[i] != 10,
    ensures
        after_write_bytes(s, bytes).row == s.row,
        after_write_bytes(s, bytes).column == s.column + bytes.len(),
        after_write_bytes(s, bytes).color == s.color,
        is_grid(after_write_bytes(s, bytes).cells),
        forall|i: int|
            0 <= i < bytes.len() ==> #[trigger] after_write_bytes(s, bytes).cells[s.row][s.column + i] == (
            ScreenChar { ascii_character: displayed_byte(bytes[i]), color_code: s.color }),
        forall|r: int, c: int|
            0 <= r < BUFFER_HEIGHT && 0 <= c < BUFFER_WIDTH && (r != s.row || c < s.column || c
                >= s.column + bytes.len()) ==> #[trigger] after_write_bytes(s, bytes).cells[r][c]
                == s.cells[r][c],
    decreases bytes.len(),
{
    if bytes.len() > 0 {
        let front = bytes.drop_last();
        assert forall|i: int| 0 <= i < front.len() implies #[trigger] front[i] != 10 by {
            assert(front[i] == bytes[i]);
        }
        lemma_write_bytes_on_one_row(s, front);
        let t = after_write_bytes(s, front);
        let last = displayed_byte(bytes.last());
        assert(bytes.last() == bytes[bytes.len() - 1]);
        assert(last != 10);
        lemma_write_byte_lands_at_cursor(t, last);
        let u = after_write_bytes(s, bytes);
        assert(u == after_write_byte(t, last));
        assert forall|i: int| 0 <= i < bytes.len() implies #[trigger] u.cells[s.row][s.column + i] == (
        ScreenChar { ascii_character: displayed_byte(bytes[i]), color_code: s.color }) by {
            if i < front.len() {
                assert(front[i] == bytes[i]);
                assert(t.cells[s.row][s.column + i] == u.cells[s.row][s.column + i]);
            }
        }
    }
}

/// Writing `a` and then `b` has the effect of writing `a + b`.
pub proof fn lemma_write_bytes_concat(s: Screen, a: Seq<u8>, b: Seq<u8>)
    ensures
        after_write_bytes(s, a + b) == after_write_bytes(after_write_bytes(s, a), b),
    decreases b.len(),
{
    if b.len() == 0 {
        assert(a + b =~= a);
    } else {
        assert((a + b).drop_last() =~= a + b.drop_last());
        assert((a + b).last() == b.last());
        lemma_write_bytes_concat(s, a, b.drop_last());
    }
}

/// What the writer shows for a byte of a string is printable ASCII, a
/// newline or 0xfe, and printable ASCII and newline are shown unchanged.
pub proof fn lemma_displayed_byte(byte: u8)
    ensures
        (0x20 <= displayed_byte(byte) <= 0x7e) || displayed_byte(byte) == 10 || displayed_byte(byte) == 0xfe,
        (0x20 <= byte <= 0x7e) || byte == 10 ==> displayed_byte(byte) == byte,
        !((0x20 <= byte <= 0x7e) || byte == 10) ==> displayed_byte(byte) == 0xfe,
{
}

/// Two colors with the same hardware number are the same color.
pub proof fn lemma_color_number_injective(a: Color, b: Color)
    ensures
        a.number() == b.number() <==> a == b,
{
}

/// Different pairs of colors pack to different bytes.
pub proof fn lemma_color_code_injective(
    foreground1: Color,
    background1: Color,
    foreground2: Color,
    background2: Color,
)
    ensures
        background1.number() * 16 + foreground1.number() == background2.number() * 16
            + foreground2.number() ==> foreground1 == foreground2 && background1 == background2,
{
}

/// The packed byte of `ColorCode::new(foreground, background)` gives both
/// colors back: the background in the high four bits and the foreground in
/// the low four; so different pairs of colors pack to different bytes.
pub proof fn lemma_color_code_unpacks(foreground: Color, background: Color, code: ColorCode)
    requires
        code@ == background.number() * 16 + foreground.number(),
    ensures
        code@ / 16 == background.number(),
        code@ % 16 == foreground.number(),
        code@ >> 4u8 == background.number(),
        code@ & 15u8 == foreground.number(),
{
    let v = code@;
    let f = foreground.number();
    let g = background.number();
    assert(v >> 4u8 == g && v & 15u8 == f) by (bit_vector)
        requires
            v == g * 16 + f,
            f < 16,
            g < 16,
    ;
}

} // verus!
