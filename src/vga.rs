use vstd::prelude::*;

verus! {

/// One of the sixteen palette entries of the text-mode display.
#[derive(Clone, Copy, Debug, PartialEq, Eq, Structural)]
pub enum Color {
    Black,
    Blue,
    Green,
    Cyan,
    Red,
    Magenta,
    Brown,
    LightGray,
    DarkGray,
    LightBlue,
    LightGreen,
    LightCyan,
    LightRed,
    Pink,
    Yellow,
    White,
}

/// The 4-bit hardware code of a palette entry.
pub open spec fn color_value(c: Color) -> u8 {
    match c {
        Color::Black => 0,
        Color::Blue => 1,
        Color::Green => 2,
        Color::Cyan => 3,
        Color::Red => 4,
        Color::Magenta => 5,
        Color::Brown => 6,
        Color::LightGray => 7,
        Color::DarkGray => 8,
        Color::LightBlue => 9,
        Color::LightGreen => 10,
        Color::LightCyan => 11,
        Color::LightRed => 12,
        Color::Pink => 13,
        Color::Yellow => 14,
        Color::White => 15,
    }
}

impl Color {
    /// The 4-bit hardware code of this palette entry.
    pub fn code(&self) -> (r: u8)
        ensures
            r == color_value(*self),
            r < 16,
    {
        match self {
            Color::Black => 0,
            Color::Blue => 1,
            Color::Green => 2,
            Color::Cyan => 3,
            Color::Red => 4,
            Color::Magenta => 5,
            Color::Brown => 6,
            Color::LightGray => 7,
            Color::DarkGray => 8,
            Color::LightBlue => 9,
            Color::LightGreen => 10,
            Color::LightCyan => 11,
            Color::LightRed => 12,
            Color::Pink => 13,
            Color::Yellow => 14,
            Color::White => 15,
        }
    }
}


/// Packs a foreground and a background code into one attribute byte:
/// background in the high nibble, foreground in the low nibble.
pub open spec fn color_pair(fg: Color, bg: Color) -> ColorCode {
    ColorCode((color_value(bg) * 16 + color_value(fg)) as u8)
}

/// A packed attribute byte: background code in the high nibble,
/// foreground code in the low nibble.
#[derive(Clone, Copy, Debug, PartialEq, Eq, Structural)]
pub struct ColorCode(pub u8);

impl ColorCode {
    pub fn new(fg: Color, bg: Color) -> (r: ColorCode)
        ensures
            r == color_pair(fg, bg),
            r.0 / 16 == color_value(bg),
            r.0 % 16 == color_value(fg),
    {
        ColorCode(bg.code() * 16 + fg.code())
    }
}

/// The attribute a console starts with: white on black.
pub open spec fn default_color_code() -> ColorCode {
    color_pair(Color::White, Color::Black)
}

/// One character cell: the character byte followed by its attribute byte.
#[derive(Clone, Copy, Debug, PartialEq, Eq, Structural)]
pub struct ScreenChar {
    pub ascii_char: u8,
    pub color_code: ColorCode,
}

/// The byte that ends a line (`\n`).
pub const NEWLINE: u8 = 10;

/// The byte of a blank cell (a space).
pub const SPACE: u8 = 32;

/// Number of text rows on the display.
pub const BUFFER_HEIGHT: usize = 25;

/// Number of character columns on the display.
pub const BUFFER_WIDTH: usize = 80;

/// Position of cell (`row`, `col`) in the row-major cell sequence.
pub open spec fn cell_index(row: int, col: int) -> int {
    row * BUFFER_WIDTH + col
}

/// The cells `cells` with row `row` replaced by `line`.
pub open spec fn with_row(cells: Seq<ScreenChar>, row: int, line: Seq<ScreenChar>) -> Seq<ScreenChar> {
    Seq::new(
        cells.len(),
        |i: int|
            if cell_index(row, 0) <= i < cell_index(row + 1, 0) {
                line[i - cell_index(row, 0)]
            } else {
                cells[i]
            },
    )
}

/// The cells of row `row`, from column 0 to the last column.
pub open spec fn row_of(cells: Seq<ScreenChar>, row: int) -> Seq<ScreenChar> {
    cells.subrange(cell_index(row, 0), cell_index(row + 1, 0))
}

/// The character grid of the display, row-major: cell (`row`, `col`) sits at
/// position `row * BUFFER_WIDTH + col`, as the display hardware reads it.
pub struct Buffer {
    chars: Vec<ScreenChar>,
}

impl View for Buffer {
    type V = Seq<ScreenChar>;

    closed spec fn view(&self) -> Seq<ScreenChar> {
        self.chars@
    }
}

impl Buffer {
    /// Holds exactly `BUFFER_HEIGHT * BUFFER_WIDTH` cells.
    pub open spec fn wf(&self) -> bool {
        self@.len() == BUFFER_HEIGHT * BUFFER_WIDTH
    }

    /// A grid whose every cell is `fill`.
    pub fn new(fill: ScreenChar) -> (r: Buffer)
        ensures
            r.wf(),
            r@ == Seq::new((BUFFER_HEIGHT * BUFFER_WIDTH) as nat, |i: int| fill),
    {
        let mut chars: Vec<ScreenChar> = Vec::new();
        let mut i: usize = 0;
        while i < BUFFER_HEIGHT * BUFFER_WIDTH
            invariant
                i <= BUFFER_HEIGHT * BUFFER_WIDTH,
                chars@ == Seq::new(i as nat, |j: int| fill),
            decreases BUFFER_HEIGHT * BUFFER_WIDTH - i,
        {
            chars.push(fill);
            i = i + 1;
        }
        Buffer { chars }
    }

    /// The cell at (`row`, `col`).
    pub fn get_cell(&self, row: usize, col: usize) -> (r: ScreenChar)
        requires
            self.wf(),
            row < BUFFER_HEIGHT,
            col < BUFFER_WIDTH,
        ensures
            r == self@[cell_index(row as int, col as int)],
    {
        self.chars[row * BUFFER_WIDTH + col]
    }

    /// Overwrites the cell at (`row`, `col`).
    pub fn set_cell(&mut self, row: usize, col: usize, c: ScreenChar)
        requires
            old(self).wf(),
            row < BUFFER_HEIGHT,
            col < BUFFER_WIDTH,
        ensures
            final(self).wf(),
            final(self)@ == old(self)@.update(cell_index(row as int, col as int), c),
    {
        self.chars.set(row * BUFFER_WIDTH + col, c);
    }

    /// A copy of the cells of row `row`.
    pub fn get_row(&self, row: usize) -> (r: Vec<ScreenChar>)
        requires
            self.wf(),
            row < BUFFER_HEIGHT,
        ensures
            r@ == row_of(self@, row as int),
    {
        let start: usize = row * BUFFER_WIDTH;
        let mut line: Vec<ScreenChar> = Vec::new();
        let mut c: usize = 0;
        while c < BUFFER_WIDTH
            invariant
                self.wf(),
                row < BUFFER_HEIGHT,
                start == row * BUFFER_WIDTH,
                c <= BUFFER_WIDTH,
                line@ == self@.subrange(start as int, start + c),
            decreases BUFFER_WIDTH - c,
        {
            line.push(self.chars[start + c]);
            c = c + 1;
            assert(line@ =~= self@.subrange(start as int, start + c));
        }
        line
    }

    /// Overwrites row `row` with the cells of `line`.
    pub fn set_row(&mut self, row: usize, line: &Vec<ScreenChar>)
        requires
            old(self).wf(),
            row < BUFFER_HEIGHT,
            line@.len() == BUFFER_WIDTH,
        ensures
            final(self).wf(),
            final(self)@ == with_row(old(self)@, row as int, line@),
    {
        let start: usize = row * BUFFER_WIDTH;
        let mut c: usize = 0;
        while c < BUFFER_WIDTH
            invariant
                self.wf(),
                row < BUFFER_HEIGHT,
                start == row * BUFFER_WIDTH,
                line@.len() == BUFFER_WIDTH,
                c <= BUFFER_WIDTH,
                forall|i: int|
                    0 <= i < self@.len() ==> #[trigger] self@[i] == if start <= i < start + c {
                        line@[i - start]
                    } else {
                        old(self)@[i]
                    },
            decreases BUFFER_WIDTH - c,
        {
            self.chars.set(start + c, line[c]);
            c = c + 1;
        }
        assert(self@ =~= with_row(old(self)@, row as int, line@));
    }
}

} // verus!
