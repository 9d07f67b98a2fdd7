use vstd::prelude::*;
use vstd::string::StringSliceAdditionalSpecFns;

use crate::vga::{
    cell_index, default_color_code, with_row, Buffer, Color, ColorCode,
    ScreenChar, BUFFER_HEIGHT, BUFFER_WIDTH, NEWLINE, SPACE,
};

verus! {

/// The abstract state of a console: cursor, current attribute and grid.
pub struct ConsoleModel {
    pub row: int,
    pub col: int,
    pub attr: ColorCode,
    pub cells: Seq<ScreenChar>,
}

/// `b` ends a line.
pub open spec fn is_newline(b: u8) -> bool {
    b == NEWLINE
}

/// The cursor lies on the grid and the grid has its full size.
pub open spec fn model_wf(s: ConsoleModel) -> bool {
    &&& 0 <= s.row < BUFFER_HEIGHT
    &&& 0 <= s.col < BUFFER_WIDTH
    &&& s.cells.len() == BUFFER_HEIGHT * BUFFER_WIDTH
}

/// A space in the attribute `attr`.
pub open spec fn blank(attr: ColorCode) -> ScreenChar {
    ScreenChar { ascii_char: SPACE, color_code: attr }
}

/// A whole row of blanks in the attribute `attr`.
pub open spec fn blank_row(attr: ColorCode) -> Seq<ScreenChar> {
    Seq::new(BUFFER_WIDTH as nat, |i: int| blank(attr))
}

/// Every row moved up by one; the bottom row blank.
pub open spec fn scrolled(cells: Seq<ScreenChar>, attr: ColorCode) -> Seq<ScreenChar> {
    Seq::new(
        cells.len(),
        |i: int|
            if i < cell_index(BUFFER_HEIGHT - 1, 0) {
                cells[i + BUFFER_WIDTH]
            } else {
                blank(attr)
            },
    )
}

/// The newline transition: scroll when on the bottom row, else move down one
/// row; then go to column 0 of a blank row.
pub open spec fn newline_model(s: ConsoleModel) -> ConsoleModel {
    if s.row == BUFFER_HEIGHT - 1 {
        ConsoleModel { col: 0, cells: scrolled(s.cells, s.attr), ..s }
    } else {
        ConsoleModel {
            row: s.row + 1,
            col: 0,
            cells: with_row(s.cells, s.row + 1, blank_row(s.attr)),
            ..s
        }
    }
}

/// Places `b` under the cursor in the current attribute and moves right.
pub open spec fn put_model(s: ConsoleModel, b: u8) -> ConsoleModel {
    ConsoleModel {
        col: s.col + 1,
        cells: s.cells.update(
            cell_index(s.row, s.col),
            ScreenChar { ascii_char: b, color_code: s.attr },
        ),
        ..s
    }
}

/// One byte of output: a newline byte starts a new line; any other byte
/// is placed under the cursor, after a new line when the cursor stands on
/// the last column.
pub open spec fn write_byte_model(s: ConsoleModel, b: u8) -> ConsoleModel {
    if is_newline(b) {
        newline_model(s)
    } else if s.col == BUFFER_WIDTH - 1 {
        put_model(newline_model(s), b)
    } else {
        put_model(s, b)
    }
}

/// The bytes of `bytes` written one after another, in order.
pub open spec fn write_bytes_model(s: ConsoleModel, bytes: Seq<u8>) -> ConsoleModel
    decreases bytes.len(),
{
    if bytes.len() == 0 {
        s
    } else {
        write_byte_model(write_bytes_model(s, bytes.drop_last()), bytes.last())
    }
}

/// Every cell blank in the current attribute; cursor kept.
pub open spec fn clear_model(s: ConsoleModel) -> ConsoleModel {
    ConsoleModel {
        cells: Seq::new((BUFFER_HEIGHT * BUFFER_WIDTH) as nat, |i: int| blank(s.attr)),
        ..s
    }
}

/// The console writer: a cursor and a current attribute over a grid.
pub struct Writer {
    row: usize,
    col: usize,
    color_code: ColorCode,
    buffer: Buffer,
}

impl View for Writer {
    type V = ConsoleModel;

    closed spec fn view(&self) -> ConsoleModel {
        ConsoleModel {
            row: self.row as int,
            col: self.col as int,
            attr: self.color_code,
            cells: self.buffer@,
        }
    }
}

impl Writer {
    /// The cursor lies on the grid and the grid has its full size.
    pub open spec fn wf(&self) -> bool {
        model_wf(self@)
    }

    /// A writer over `buffer` with the cursor at (0, 0), white on black.
    pub fn new(buffer: Buffer) -> (r: Writer)
        requires
            buffer.wf(),
        ensures
            r.wf(),
            r@ == (ConsoleModel { row: 0, col: 0, attr: default_color_code(), cells: buffer@ }),
    {
        Writer { row: 0, col: 0, color_code: ColorCode::new(Color::White, Color::Black), buffer }
    }

    /// A writer over `buffer` with the cursor at (`row`, `col`) and
    /// attribute `color_code`.
    pub fn with_cursor(buffer: Buffer, row: usize, col: usize, color_code: ColorCode) -> (r: Writer)
        requires
            buffer.wf(),
            row < BUFFER_HEIGHT,
            col < BUFFER_WIDTH,
        ensures
            r.wf(),
            r@ == (ConsoleModel { row: row as int, col: col as int, attr: color_code, cells: buffer@ }),
    {
        Writer { row, col, color_code, buffer }
    }

    /// Overwrites row `row` with blanks in the current attribute.
    pub fn clear_row(&mut self, row: usize)
        requires
            old(self).wf(),
            row < BUFFER_HEIGHT,
        ensures
            final(self).wf(),
            final(self)@ == (ConsoleModel {
                cells: with_row(old(self)@.cells, row as int, blank_row(old(self)@.attr)),
                ..old(self)@
            }),
    {
        let blankchar = ScreenChar { ascii_char: SPACE, color_code: self.color_code };
        let mut line: Vec<ScreenChar> = Vec::new();
        let mut c: usize = 0;
        while c < BUFFER_WIDTH
            invariant
                c <= BUFFER_WIDTH,
                line@ == Seq::new(c as nat, |i: int| blankchar),
            decreases BUFFER_WIDTH - c,
        {
            line.push(blankchar);
            c = c + 1;
        }
        assert(line@ =~= blank_row(self.color_code));
        self.buffer.set_row(row, &line);
    }

    /// Starts a new line: scrolls the grid up by one row when the cursor is
    /// on the bottom row, else moves the cursor down one row; then puts the
    /// cursor at column 0 of that row and blanks it.
    pub fn newline(&mut self)
        requires
            old(self).wf(),
        ensures
            final(self).wf(),
            final(self)@ == newline_model(old(self)@),
    {
        if self.row == BUFFER_HEIGHT - 1 {
            let mut r: usize = 0;
            while r < BUFFER_HEIGHT - 1
                invariant
                    self.buffer.wf(),
                    self.row == old(self).row,
                    self.col == old(self).col,
                    self.color_code == old(self).color_code,
                    old(self).wf(),
                    r <= BUFFER_HEIGHT - 1,
                    forall|i: int|
                        0 <= i < cell_index(r as int, 0) ==> #[trigger] self.buffer@[i]
                            == old(self).buffer@[i + BUFFER_WIDTH],
                    forall|i: int|
                        cell_index(r as int, 0) <= i < BUFFER_HEIGHT * BUFFER_WIDTH
                            ==> #[trigger] self.buffer@[i] == old(self).buffer@[i],
                decreases BUFFER_HEIGHT - 1 - r,
            {
                let next = self.buffer.get_row(r + 1);
                let ghost before = self.buffer@;
                self.buffer.set_row(r, &next);
                assert forall|i: int|
                    cell_index(r as int, 0) <= i < cell_index(r as int + 1, 0) implies
                    #[trigger] self.buffer@[i] == old(self).buffer@[i + BUFFER_WIDTH] by {
                    assert(self.buffer@[i] == before[i + BUFFER_WIDTH]);
                }
                r = r + 1;
            }
        } else {
            self.row = self.row + 1;
        }
        self.col = 0;
        let row = self.row;
        self.clear_row(row);
        proof {
            if old(self).row == BUFFER_HEIGHT - 1 {
                assert(self.buffer@ =~= scrolled(old(self).buffer@, self.color_code));
            } else {
                assert(self@ == newline_model(old(self)@));
            }
        }
    }

    /// Writes one byte: the newline byte starts a new line; any other byte
    /// is placed at the cursor in the current attribute and the cursor
    /// moves right. The last column is never written: a byte that would
    /// land there starts a new line first and goes to its column 0.
    pub fn write_byte(&mut self, byte: u8)
        requires
            old(self).wf(),
        ensures
            final(self).wf(),
            final(self)@ == write_byte_model(old(self)@, byte),
            !is_newline(byte) && old(self)@.col < BUFFER_WIDTH - 1 ==> {
                &&& final(self)@.row == old(self)@.row
                &&& final(self)@.col == old(self)@.col + 1
                &&& final(self)@.cells[cell_index(old(self)@.row, old(self)@.col)] == (ScreenChar {
                    ascii_char: byte,
                    color_code: old(self)@.attr,
                })
            },
            !is_newline(byte) && old(self)@.col == BUFFER_WIDTH - 1 ==> {
                &&& final(self)@ == put_model(newline_model(old(self)@), byte)
                &&& final(self)@.row == newline_model(old(self)@).row
                &&& final(self)@.col == 1
                &&& final(self)@.cells[cell_index(final(self)@.row, 0)] == (ScreenChar {
                    ascii_char: byte,
                    color_code: old(self)@.attr,
                })
            },
            is_newline(byte) ==> final(self)@ == newline_model(old(self)@) && final(self)@.col == 0,
    {
        if byte == NEWLINE {
            self.newline();
        } else {
            if self.col == BUFFER_WIDTH - 1 {
                self.newline();
            }
            let row = self.row;
            let col = self.col;
            self.buffer.set_cell(row, col, ScreenChar { ascii_char: byte, color_code: self.color_code });
            self.col = col + 1;
        }
    }

    /// Writes the bytes of `s` in order, each as `write_byte` does.
    pub fn write_str(&mut self, s: &str)
        requires
            old(self).wf(),
        ensures
            final(self).wf(),
            final(self)@ == write_bytes_model(old(self)@, s.spec_bytes()),
    {
        let bytes = s.as_bytes();
        let mut i: usize = 0;
        while i < bytes.len()
            invariant
                self.wf(),
                bytes@ == s.spec_bytes(),
                i <= bytes@.len(),
                self@ == write_bytes_model(old(self)@, bytes@.subrange(0, i as int)),
            decreases bytes@.len() - i,
        {
            self.write_byte(bytes[i]);
            assert(bytes@.subrange(0, i + 1).drop_last() =~= bytes@.subrange(0, i as int));
            i = i + 1;
        }
        assert(bytes@.subrange(0, i as int) =~= bytes@);
    }

    /// The cursor row.
    pub fn row(&self) -> (r: usize)
        ensures
            r == self@.row,
    {
        self.row
    }

    /// The cursor column.
    pub fn col(&self) -> (r: usize)
        ensures
            r == self@.col,
    {
        self.col
    }

    /// The current attribute.
    pub fn color_code(&self) -> (r: ColorCode)
        ensures
            r == self@.attr,
    {
        self.color_code
    }

    /// The cell at (`row`, `col`).
    pub fn cell(&self, row: usize, col: usize) -> (r: ScreenChar)
        requires
            self.wf(),
            row < BUFFER_HEIGHT,
            col < BUFFER_WIDTH,
        ensures
            r == self@.cells[cell_index(row as int, col as int)],
    {
        self.buffer.get_cell(row, col)
    }

    /// The grid this writer draws on.
    pub fn buffer(&self) -> (r: &Buffer)
        ensures
            r@ == self@.cells,
    {
        &self.buffer
    }

    /// Gives the grid back, ending the writer.
    pub fn into_buffer(self) -> (r: Buffer)
        ensures
            r@ == self@.cells,
    {
        self.buffer
    }
}

/// Blanks every cell of the display in the writer's current attribute; the
/// cursor stays where it is.
pub fn clear_screen(writer: &mut Writer)
    requires
        old(writer).wf(),
    ensures
        final(writer).wf(),
        final(writer)@ == clear_model(old(writer)@),
{
    let mut row: usize = 0;
    while row < BUFFER_HEIGHT
        invariant
            writer.wf(),
            row <= BUFFER_HEIGHT,
            writer@.row == old(writer)@.row,
            writer@.col == old(writer)@.col,
            writer@.attr == old(writer)@.attr,
            forall|i: int|
                0 <= i < BUFFER_HEIGHT * BUFFER_WIDTH ==> #[trigger] writer@.cells[i] == if i
                    < cell_index(row as int, 0) {
                    blank(writer@.attr)
                } else {
                    old(writer)@.cells[i]
                },
        decreases BUFFER_HEIGHT - row,
    {
        writer.clear_row(row);
        row = row + 1;
    }
    assert(writer@.cells =~= clear_model(old(writer)@).cells);
}

} // verus!
