//! Text-grid writer: a 25 x 80 grid of coloured characters that always
//! writes on its last row and scrolls up when that row is full or a newline
//! arrives. The grid is kept here; the caller copies it to the display.

use vstd::prelude::*;
use vstd::string::StringSliceAdditionalSpecFns;

verus! {

/// Number of rows of the grid.
pub const BUFFER_HEIGHT: usize = 25;

/// Number of columns of the grid.
pub const BUFFER_WIDTH: usize = 80;

/// Number of cells of the grid.
pub const BUFFER_CELLS: usize = 2000;

/// Byte shown in place of one outside printable ASCII.
pub const REPLACEMENT: u8 = 0xfe;

/// The sixteen text-mode colours.
#[derive(Clone, Copy, PartialEq, Eq, Structural, Debug)]
pub enum Colour {
    Black,
    Blue,
    Green,
    Cyan,
    Red,
    Magenta,
    Brown,
    LightGrey,
    DarkGrey,
    LightBlue,
    LightGreen,
    LightCyan,
    LightRed,
    Pink,
    Yellow,
    White,
}

impl Colour {
    /// The colour's 4-bit hardware number.
    pub open spec fn spec_value(self) -> u8 {
        match self {
            Colour::Black => 0,
            Colour::Blue => 1,
            Colour::Green => 2,
            Colour::Cyan => 3,
            Colour::Red => 4,
            Colour::Magenta => 5,
            Colour::Brown => 6,
            Colour::LightGrey => 7,
            Colour::DarkGrey => 8,
            Colour::LightBlue => 9,
            Colour::LightGreen => 10,
            Colour::LightCyan => 11,
            Colour::LightRed => 12,
            Colour::Pink => 13,
            Colour::Yellow => 14,
            Colour::White => 15,
        }
    }

    /// The colour's 4-bit hardware number.
    pub fn value(self) -> (r: u8)
        ensures
            r == self.spec_value(),
            r < 16,
    {
        match self {
            Colour::Black => 0,
            Colour::Blue => 1,
            Colour::Green => 2,
            Colour::Cyan => 3,
            Colour::Red => 4,
            Colour::Magenta => 5,
            Colour::Brown => 6,
            Colour::LightGrey => 7,
            Colour::DarkGrey => 8,
            Colour::LightBlue => 9,
            Colour::LightGreen => 10,
            Colour::LightCyan => 11,
            Colour::LightRed => 12,
            Colour::Pink => 13,
            Colour::Yellow => 14,
            Colour::White => 15,
        }
    }
}

/// Attribute byte of a cell: background in the high nibble, foreground in
/// the low one.
#[derive(Clone, Copy, PartialEq, Eq, Structural, Debug)]
pub struct ColourCode(pub u8);

impl ColourCode {
    pub fn new(foreground: Colour, background: Colour) -> (r: ColourCode)
        ensures
            r.0 == background.spec_value() * 16 + foreground.spec_value(),
    {
        let fg: u8 = foreground.value();
        let bg: u8 = background.value();
        assert(bg < 16 && fg < 16 ==> (bg << 4u8) | fg == bg * 16 + fg) by (bit_vector);
        ColourCode((bg << 4u8) | fg)
    }
}

/// One cell of the grid.
#[derive(Clone, Copy, PartialEq, Eq, Structural, Debug)]
pub struct ScreenChar {
    pub ascii_character: u8,
    pub colour_code: ColourCode,
}

/// A space in colour `c`.
pub open spec fn blank(c: ColourCode) -> ScreenChar {
    ScreenChar { ascii_character: 0x20, colour_code: c }
}

/// The byte a string byte is shown as: printable ASCII and newline as
/// themselves, anything else as the replacement byte.
pub open spec fn shown(b: u8) -> u8 {
    if (0x20 <= b && b <= 0x7e) || b == 0x0a {
        b
    } else {
        REPLACEMENT
    }
}

/// The grid after a scroll: each row moves up one, the last row is blank.
pub open spec fn scrolled(cells: Seq<ScreenChar>, c: ColourCode) -> Seq<ScreenChar> {
    Seq::new(
        BUFFER_CELLS as nat,
        |i: int|
            if i < BUFFER_CELLS - BUFFER_WIDTH {
                cells[i + BUFFER_WIDTH]
            } else {
                blank(c)
            },
    )
}

/// Cells and column after writing byte `b` in colour `c`.
pub open spec fn put_byte(cells: Seq<ScreenChar>, column: nat, c: ColourCode, b: u8) -> (Seq<ScreenChar>, nat) {
    if b == 0x0a {
        (scrolled(cells, c), 0)
    } else {
        let (cells1, col1) = if column >= BUFFER_WIDTH {
            (scrolled(cells, c), 0nat)
        } else {
            (cells, column)
        };
        (
            cells1.update(
                (BUFFER_CELLS - BUFFER_WIDTH) + col1,
                ScreenChar { ascii_character: b, colour_code: c },
            ),
            col1 + 1,
        )
    }
}

/// Cells and column after writing each byte of `bytes`, as shown, in colour `c`.
pub open spec fn put_bytes(cells: Seq<ScreenChar>, column: nat, c: ColourCode, bytes: Seq<u8>) -> (Seq<ScreenChar>, nat)
    decreases bytes.len(),
{
    if bytes.len() == 0 {
        (cells, column)
    } else {
        let (cells1, col1) = put_bytes(cells, column, c, bytes.drop_last());
        put_byte(cells1, col1, c, shown(bytes.last()))
    }
}

/// The grid writer.
pub struct Writer {
    column_position: usize,
    colour_code: ColourCode,
    buffer: Vec<ScreenChar>,
}

impl Writer {
    /// The cells of the grid, row by row.
    pub closed spec fn cells(&self) -> Seq<ScreenChar> {
        self.buffer@
    }

    /// The next column of the last row to be written.
    pub closed spec fn column(&self) -> nat {
        self.column_position as nat
    }

    /// The colour of what is written.
    pub closed spec fn colour(&self) -> ColourCode {
        self.colour_code
    }

    pub open spec fn wf(&self) -> bool {
        &&& self.cells().len() == BUFFER_CELLS
        &&& self.column() <= BUFFER_WIDTH
    }

    /// A writer in colour `colour_code` over a blank grid.
    pub fn new(colour_code: ColourCode) -> (r: Writer)
        ensures
            r.wf(),
            r.column() == 0,
            r.colour() == colour_code,
            r.cells() == Seq::new(BUFFER_CELLS as nat, |i: int| blank(colour_code)),
    {
        let mut buffer: Vec<ScreenChar> = Vec::new();
        let mut i: usize = 0;
        while i < BUFFER_CELLS
            invariant
                i <= BUFFER_CELLS,
                buffer@.len() == i,
                forall|k: int| 0 <= k < i ==> buffer@[k] == blank(colour_code),
            decreases BUFFER_CELLS - i,
        {
            buffer.push(ScreenChar { ascii_character: 0x20, colour_code });
            i = i + 1;
        }
        let r = Writer { column_position: 0, colour_code, buffer };
        assert(r.cells() =~= Seq::new(BUFFER_CELLS as nat, |i: int| blank(colour_code)));
        r
    }

    pub fn column_position(&self) -> (r: usize)
        ensures
            r == self.column(),
    {
        self.column_position
    }

    pub fn colour_code(&self) -> (r: ColourCode)
        ensures
            r == self.colour(),
    {
        self.colour_code
    }

    /// The cell at `row`, `col`.
    pub fn char_at(&self, row: usize, col: usize) -> (r: ScreenChar)
        requires
            self.wf(),
            row < BUFFER_HEIGHT,
            col < BUFFER_WIDTH,
        ensures
            r == self.cells()[row * BUFFER_WIDTH + col],
    {
        assert(row * BUFFER_WIDTH + col < BUFFER_CELLS) by (nonlinear_arith)
            requires
                row < BUFFER_HEIGHT,
                col < BUFFER_WIDTH,
        ;
        self.buffer[row * BUFFER_WIDTH + col]
    }

    /// Writes one byte on the last row, scrolling first if the row is full;
    /// a newline scrolls instead.
    pub fn write_byte(&mut self, byte: u8)
        requires
            old(self).wf(),
        ensures
            final(self).wf(),
            final(self).colour() == old(self).colour(),
            (final(self).cells(), final(self).column()) == put_byte(
                old(self).cells(),
                old(self).column(),
                old(self).colour(),
                byte,
            ),
    {
        if byte == 0x0a {
            self.new_line();
        } else {
            if self.column_position >= BUFFER_WIDTH {
                self.new_line();
            }
            let col = self.column_position;
            let colour_code = self.colour_code;
            self.buffer.set(
                (BUFFER_CELLS - BUFFER_WIDTH) + col,
                ScreenChar { ascii_character: byte, colour_code },
            );
            self.column_position = col + 1;
        }
    }

    /// Writes each byte of `s`, shown as `shown` says.
    pub fn write_string(&mut self, s: &str)
        requires
            old(self).wf(),
        ensures
            final(self).wf(),
            final(self).colour() == old(self).colour(),
            (final(self).cells(), final(self).column()) == put_bytes(
                old(self).cells(),
                old(self).column(),
                old(self).colour(),
                s.spec_bytes(),
            ),
    {
        let bytes = s.as_bytes();
        let mut i: usize = 0;
        while i < bytes.len()
            invariant
                i <= bytes@.len(),
                bytes@ == s.spec_bytes(),
                self.wf(),
                self.colour() == old(self).colour(),
                (self.cells(), self.column()) == put_bytes(
                    old(self).cells(),
                    old(self).column(),
                    old(self).colour(),
                    bytes@.subrange(0, i as int),
                ),
            decreases bytes@.len() - i,
        {
            let byte = bytes[i];
            let b: u8 = if (0x20 <= byte && byte <= 0x7e) || byte == 0x0a {
                byte
            } else {
                REPLACEMENT
            };
            assert(bytes@.subrange(0, i + 1).drop_last() =~= bytes@.subrange(0, i as int));
            self.write_byte(b);
            i = i + 1;
        }
        assert(bytes@.subrange(0, bytes@.len() as int) =~= bytes@);
    }

    /// Moves every row up one and blanks the last row.
    fn new_line(&mut self)
        requires
            old(self).wf(),
        ensures
            final(self).wf(),
            final(self).colour() == old(self).colour(),
            final(self).cells() == scrolled(old(self).cells(), old(self).colour()),
            final(self).column() == 0,
    {
        let mut i: usize = 0;
        while i < BUFFER_CELLS - BUFFER_WIDTH
            invariant
                i <= BUFFER_CELLS - BUFFER_WIDTH,
                self.wf(),
                self.colour() == old(self).colour(),
                forall|k: int| 0 <= k < i ==> self.cells()[k] == old(self).cells()[k + BUFFER_WIDTH],
                forall|k: int| i <= k < BUFFER_CELLS ==> self.cells()[k] == old(self).cells()[k],
            decreases BUFFER_CELLS - BUFFER_WIDTH - i,
        {
            let c = self.buffer[i + BUFFER_WIDTH];
            self.buffer.set(i, c);
            i = i + 1;
        }
        self.clear_row(BUFFER_HEIGHT - 1);
        self.column_position = 0;
        assert(self.cells() =~= scrolled(old(self).cells(), old(self).colour()));
    }

    /// Fills row `row` with blanks.
    fn clear_row(&mut self, row: usize)
        requires
            old(self).wf(),
            row < BUFFER_HEIGHT,
        ensures
            final(self).wf(),
            final(self).colour() == old(self).colour(),
            final(self).column() == old(self).column(),
            forall|k: int|
                0 <= k < BUFFER_CELLS ==> #[trigger] final(self).cells()[k] == if row * BUFFER_WIDTH <= k < row
                    * BUFFER_WIDTH + BUFFER_WIDTH {
                    blank(old(self).colour())
                } else {
                    old(self).cells()[k]
                },
    {
        let blank_char = ScreenChar { ascii_character: 0x20, colour_code: self.colour_code };
        assert(row * BUFFER_WIDTH + BUFFER_WIDTH <= BUFFER_CELLS) by (nonlinear_arith)
            requires
                row < BUFFER_HEIGHT,
        ;
        let start: usize = row * BUFFER_WIDTH;
        let mut col: usize = 0;
        while col < BUFFER_WIDTH
            invariant
                col <= BUFFER_WIDTH,
                start == row * BUFFER_WIDTH,
                start + BUFFER_WIDTH <= BUFFER_CELLS,
                self.wf(),
                self.colour() == old(self).colour(),
                self.column() == old(self).column(),
                blank_char == blank(old(self).colour()),
                forall|k: int|
                    0 <= k < BUFFER_CELLS ==> #[trigger] self.cells()[k] == if start <= k < start + col {
                        blank_char
                    } else {
                        old(self).cells()[k]
                    },
            decreases BUFFER_WIDTH - col,
        {
            self.buffer.set(start + col, blank_char);
            col = col + 1;
        }
    }
}

} // verus!
