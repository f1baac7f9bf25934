//! Text output on the VGA text screen: colours, attribute bytes, character
//! cells, the 80x25 screen and the writer that draws on its bottom row and
//! scrolls.

use vstd::prelude::*;
use vstd::string::StringSliceAdditionalSpecFns;

verus! {

/// The sixteen colours of the VGA text palette.
#[derive(Debug, Clone, Copy, PartialEq, Eq, Structural)]
pub enum Color {
    Black,
    Blue,
    Green,
    Cyan,
    Red,
    Magenta,
    Brown,
    LightGray,
    DarkGray,
    LightBlue,
    LightGreen,
    LightCyan,
    LightRed,
    Pink,
    Yellow,
    White,
}

/// The palette number of a colour, as the VGA hardware reads it.
pub open spec fn color_number(c: Color) -> u8 {
    match c {
        Color::Black => 0,
        Color::Blue => 1,
        Color::Green => 2,
        Color::Cyan => 3,
        Color::Red => 4,
        Color::Magenta => 5,
        Color::Brown => 6,
        Color::LightGray => 7,
        Color::DarkGray => 8,
        Color::LightBlue => 9,
        Color::LightGreen => 10,
        Color::LightCyan => 11,
        Color::LightRed => 12,
        Color::Pink => 13,
        Color::Yellow => 14,
        Color::White => 15,
    }
}

impl Color {
    /// The palette number of this colour (`0..16`).
    pub fn to_u8(self) -> (n: u8)
        ensures
            n == color_number(self),
            n < 16,
    {
        match self {
            Color::Black => 0,
            Color::Blue => 1,
            Color::Green => 2,
            Color::Cyan => 3,
            Color::Red => 4,
            Color::Magenta => 5,
            Color::Brown => 6,
            Color::LightGray => 7,
            Color::DarkGray => 8,
            Color::LightBlue => 9,
            Color::LightGreen => 10,
            Color::LightCyan => 11,
            Color::LightRed => 12,
            Color::Pink => 13,
            Color::Yellow => 14,
            Color::White => 15,
        }
    }
}

/// A VGA attribute byte: background colour in the high nibble, foreground
/// colour in the low nibble.
#[derive(Debug, Clone, Copy, PartialEq, Eq, Structural)]
pub struct ColorCode(pub u8);

impl ColorCode {
    /// Packs a foreground and a background colour into one attribute byte.
    pub fn new(foreground: Color, background: Color) -> (code: ColorCode)
        ensures
            code == color_code_of(foreground, background),
            code.0 == color_number(background) * 16 + color_number(foreground),
            code.0 % 16 == color_number(foreground),
            code.0 / 16 == color_number(background),
    {
        let fg = foreground.to_u8();
        let bg = background.to_u8();
        assert((bg << 4u8) | fg == bg * 16 + fg) by (bit_vector)
            requires
                fg < 16,
                bg < 16,
        ;
        ColorCode((bg << 4u8) | fg)
    }
}


/// Number of text rows on the screen.
pub const BUFFER_HEIGHT: usize = 25;

/// Number of character cells in a row.
pub const BUFFER_WIDTH: usize = 80;

/// Number of character cells on the screen.
pub const BUFFER_CELLS: usize = 2000;

/// One character cell: an ASCII code point and its attribute byte.
#[derive(Debug, Clone, Copy, PartialEq, Eq, Structural)]
pub struct ScreenChar {
    pub ascii_character: u8,
    pub color_code: ColorCode,
}

/// The attribute byte that `ColorCode::new` computes.
pub open spec fn color_code_of(foreground: Color, background: Color) -> ColorCode {
    ColorCode((color_number(background) * 16 + color_number(foreground)) as u8)
}

/// A blank cell (a space) drawn with the given colours.
pub open spec fn blank(color: ColorCode) -> ScreenChar {
    ScreenChar { ascii_character: 0x20, color_code: color }
}

/// Position of the cell at `row`, `col` in the row-major screen sequence.
pub open spec fn cell_index(row: int, col: int) -> int {
    row * BUFFER_WIDTH + col
}

/// The screen after every row moved up by one and the bottom row was blanked.
pub open spec fn scrolled(grid: Seq<ScreenChar>, color: ColorCode) -> Seq<ScreenChar> {
    grid.subrange(BUFFER_WIDTH as int, BUFFER_CELLS as int) + Seq::new(
        BUFFER_WIDTH as nat,
        |i: int| blank(color),
    )
}

/// The screen with one row blanked.
pub open spec fn cleared_row(grid: Seq<ScreenChar>, row: int, color: ColorCode) -> Seq<ScreenChar> {
    Seq::new(
        grid.len(),
        |i: int|
            if cell_index(row, 0) <= i < cell_index(row + 1, 0) {
                blank(color)
            } else {
                grid[i]
            },
    )
}

/// What `Writer::write_string` writes in place of a byte: printable ASCII
/// and newline stay, anything else becomes the block character `0xfe`.
pub open spec fn displayable(byte: u8) -> u8 {
    if (0x20 <= byte && byte <= 0x7e) || byte == 0x0a {
        byte
    } else {
        0xfe
    }
}

/// The abstract state of a writer: the cursor column on the bottom row, the
/// colours it writes with and the whole screen, row by row.
pub ghost struct WriterState {
    pub column: nat,
    pub color: ColorCode,
    pub grid: Seq<ScreenChar>,
}

impl WriterState {
    pub open spec fn valid(self) -> bool {
        &&& self.column <= BUFFER_WIDTH
        &&& self.grid.len() == BUFFER_CELLS
    }

    /// Scroll up by one row and return the cursor to the start of the bottom row.
    pub open spec fn new_line(self) -> WriterState {
        WriterState { column: 0, color: self.color, grid: scrolled(self.grid, self.color) }
    }

    /// Put a byte at the cursor on the bottom row and advance the cursor.
    pub open spec fn put(self, byte: u8) -> WriterState {
        WriterState {
            column: self.column + 1,
            color: self.color,
            grid: self.grid.update(
                cell_index(BUFFER_HEIGHT - 1, self.column as int),
                ScreenChar { ascii_character: byte, color_code: self.color },
            ),
        }
    }

    /// The effect of writing one byte: a newline scrolls; any other byte is
    /// put at the cursor, after a scroll when the bottom row is full.
    pub open spec fn write_byte(self, byte: u8) -> WriterState {
        if byte == 0x0a {
            self.new_line()
        } else if self.column >= BUFFER_WIDTH {
            self.new_line().put(byte)
        } else {
            self.put(byte)
        }
    }

    /// The effect of writing the bytes one after another.
    pub open spec fn write_bytes(self, bytes: Seq<u8>) -> WriterState
        decreases bytes.len(),
    {
        if bytes.len() == 0 {
            self
        } else {
            self.write_bytes(bytes.drop_last()).write_byte(bytes.last())
        }
    }
}

/// The text screen: `BUFFER_HEIGHT` rows of `BUFFER_WIDTH` cells, row by row.
pub struct Buffer {
    chars: Vec<ScreenChar>,
}

impl Buffer {
    #[verifier::type_invariant]
    spec fn well_formed(self) -> bool {
        self.chars.len() == BUFFER_CELLS
    }

    /// Makes a screen from its cells, row by row; `None` unless there are
    /// exactly `BUFFER_CELLS` of them.
    pub fn from_cells(cells: Vec<ScreenChar>) -> (res: Option<Buffer>)
        ensures
            cells@.len() == BUFFER_CELLS <==> res is Some,
            res matches Some(b) ==> b@ == cells@,
    {
        if cells.len() == BUFFER_CELLS {
            Some(Buffer { chars: cells })
        } else {
            None
        }
    }

    /// The cell at `row`, `col`.
    pub fn char_at(&self, row: usize, col: usize) -> (c: ScreenChar)
        requires
            row < BUFFER_HEIGHT,
            col < BUFFER_WIDTH,
        ensures
            c == self@[cell_index(row as int, col as int)],
            self@.len() == BUFFER_CELLS,
    {
        proof {
            use_type_invariant(self);
        }
        self.chars[row * BUFFER_WIDTH + col]
    }
}

impl View for Buffer {
    type V = Seq<ScreenChar>;

    closed spec fn view(&self) -> Seq<ScreenChar> {
        self.chars@
    }
}

/// Writes text to the bottom row of the screen, scrolling as lines fill.
pub struct Writer {
    column_position: usize,
    color_code: ColorCode,
    buffer: Buffer,
}

impl View for Writer {
    type V = WriterState;

    closed spec fn view(&self) -> WriterState {
        WriterState {
            column: self.column_position as nat,
            color: self.color_code,
            grid: self.buffer.chars@,
        }
    }
}

impl Writer {
    #[verifier::type_invariant]
    spec fn well_formed(self) -> bool {
        self.column_position <= BUFFER_WIDTH
    }

    /// A writer with its cursor at the start of the bottom row of `buffer`.
    pub fn new(color_code: ColorCode, buffer: Buffer) -> (w: Writer)
        ensures
            w@ == (WriterState { column: 0, color: color_code, grid: buffer@ }),
            w@.valid(),
    {
        proof {
            use_type_invariant(&buffer);
        }
        Writer { column_position: 0, color_code, buffer }
    }

    /// A writer that goes on from column `column_position` of the bottom row
    /// of `buffer`.
    pub fn resume(column_position: usize, color_code: ColorCode, buffer: Buffer) -> (w: Writer)
        requires
            column_position <= BUFFER_WIDTH,
        ensures
            w@ == (WriterState { column: column_position as nat, color: color_code, grid: buffer@ }),
            w@.valid(),
    {
        proof {
            use_type_invariant(&buffer);
        }
        Writer { column_position, color_code, buffer }
    }

    /// Writes one byte: a newline moves to a fresh bottom row; any other byte
    /// goes at the cursor, after a new line when the row is full.
    pub fn write_byte(&mut self, byte: u8)
        ensures
            final(self)@ == old(self)@.write_byte(byte),
            final(self)@.valid(),
    {
        proof {
            use_type_invariant(&*self);
            use_type_invariant(&self.buffer);
        }
        match byte {
            // newline
            0x0a => self.new_line(),
            byte => {
                if self.column_position >= BUFFER_WIDTH {
                    self.new_line();
                }
                proof {
                    use_type_invariant(&*self);
                    use_type_invariant(&self.buffer);
                }
                let row = BUFFER_HEIGHT - 1;
                let col = self.column_position;
                let color_code = self.color_code;
                self.buffer.chars[row * BUFFER_WIDTH + col] = ScreenChar {
                    ascii_character: byte,
                    color_code,
                };
                self.column_position += 1;
            },
        }
    }

    /// Writes a string byte by byte; bytes that are neither printable ASCII
    /// nor a newline are written as the block character `0xfe`.
    pub fn write_string(&mut self, s: &str)
        ensures
            final(self)@ == old(self)@.write_bytes(s.spec_bytes().map_values(|b: u8| displayable(b))),
            final(self)@.valid(),
    {
        proof {
            use_type_invariant(&*self);
            use_type_invariant(&self.buffer);
        }
        let bytes = s.as_bytes();
        let ghost shown = s.spec_bytes().map_values(|b: u8| displayable(b));
        let mut i: usize = 0;
        while i < bytes.len()
            invariant
                bytes@ == s.spec_bytes(),
                shown == s.spec_bytes().map_values(|b: u8| displayable(b)),
                i <= bytes@.len(),
                self@ == old(self)@.write_bytes(shown.take(i as int)),
                self@.valid(),
            decreases bytes@.len() - i,
        {
            let byte = bytes[i];
            match byte {
                // printable ASCII or newline
                0x20..=0x7e | 0x0a => self.write_byte(byte),
                _ => self.write_byte(0xfe),
            }
            proof {
                assert(shown.take(i + 1).drop_last() =~= shown.take(i as int));
            }
            i += 1;
        }
        proof {
            assert(shown.take(i as int) =~= shown);
        }
    }

    /// Writes every byte of a string as it is (the text-formatting entry
    /// point: no byte is replaced).
    pub fn write_str(&mut self, s: &str)
        ensures
            final(self)@ == old(self)@.write_bytes(s.spec_bytes()),
            final(self)@.valid(),
    {
        proof {
            use_type_invariant(&*self);
            use_type_invariant(&self.buffer);
        }
        let bytes = s.as_bytes();
        let mut i: usize = 0;
        while i < bytes.len()
            invariant
                bytes@ == s.spec_bytes(),
                i <= bytes@.len(),
                self@ == old(self)@.write_bytes(bytes@.take(i as int)),
                self@.valid(),
            decreases bytes@.len() - i,
        {
            self.write_byte(bytes[i]);
            proof {
                assert(bytes@.take(i + 1).drop_last() =~= bytes@.take(i as int));
            }
            i += 1;
        }
        proof {
            assert(bytes@.take(i as int) =~= bytes@);
        }
    }

    /// The cursor column on the bottom row.
    pub fn column_position(&self) -> (col: usize)
        ensures
            col == self@.column,
            self@.valid(),
    {
        proof {
            use_type_invariant(self);
            use_type_invariant(&self.buffer);
        }
        self.column_position
    }

    /// The attribute byte the writer draws with.
    pub fn color_code(&self) -> (code: ColorCode)
        ensures
            code == self@.color,
            self@.valid(),
    {
        proof {
            use_type_invariant(self);
            use_type_invariant(&self.buffer);
        }
        self.color_code
    }

    /// The screen the writer draws on.
    pub fn buffer(&self) -> (b: &Buffer)
        ensures
            b@ == self@.grid,
            self@.valid(),
    {
        proof {
            use_type_invariant(self);
            use_type_invariant(&self.buffer);
        }
        &self.buffer
    }

    /// The cell at `row`, `col` of the writer's screen.
    pub fn char_at(&self, row: usize, col: usize) -> (c: ScreenChar)
        requires
            row < BUFFER_HEIGHT,
            col < BUFFER_WIDTH,
        ensures
            c == self@.grid[cell_index(row as int, col as int)],
            self@.valid(),
    {
        proof {
            use_type_invariant(self);
        }
        self.buffer.char_at(row, col)
    }

    fn new_line(&mut self)
        ensures
            final(self)@ == old(self)@.new_line(),
            final(self)@.valid(),
    {
        proof {
            use_type_invariant(&*self);
            use_type_invariant(&self.buffer);
        }
        let ghost before = self.buffer.chars@;
        for row in 1..BUFFER_HEIGHT
            invariant
                self.buffer.chars@.len() == BUFFER_CELLS,
                self.column_position == old(self).column_position,
                self.column_position <= BUFFER_WIDTH,
                self.color_code == old(self).color_code,
                before.len() == BUFFER_CELLS,
                forall|i: int|
                    0 <= i < cell_index(row - 1, 0) ==> self.buffer.chars@[i] == before[i + BUFFER_WIDTH],
                forall|i: int|
                    cell_index(row - 1, 0) <= i < BUFFER_CELLS ==> self.buffer.chars@[i] == before[i],
        {
            for col in 0..BUFFER_WIDTH
                invariant
                    1 <= row < BUFFER_HEIGHT,
                    self.buffer.chars@.len() == BUFFER_CELLS,
                    self.column_position == old(self).column_position,
                    self.column_position <= BUFFER_WIDTH,
                    self.color_code == old(self).color_code,
                    before.len() == BUFFER_CELLS,
                    forall|i: int|
                        0 <= i < cell_index(row - 1, col as int) ==> self.buffer.chars@[i] == before[i + BUFFER_WIDTH],
                    forall|i: int|
                        cell_index(row - 1, col as int) <= i < BUFFER_CELLS ==> self.buffer.chars@[i] == before[i],
            {
                let character = self.buffer.chars[row * BUFFER_WIDTH + col];
                self.buffer.chars[(row - 1) * BUFFER_WIDTH + col] = character;
            }
        }
        self.clear_row(BUFFER_HEIGHT - 1);
        self.column_position = 0;
        proof {
            assert(self.buffer.chars@ =~= scrolled(before, self.color_code));
        }
    }

    fn clear_row(&mut self, row: usize)
        requires
            row < BUFFER_HEIGHT,
        ensures
            final(self)@ == (WriterState {
                grid: cleared_row(old(self)@.grid, row as int, old(self)@.color),
                ..old(self)@
            }),
    {
        proof {
            use_type_invariant(&*self);
            use_type_invariant(&self.buffer);
        }
        let blank = ScreenChar { ascii_character: 0x20, color_code: self.color_code };
        let ghost before = self.buffer.chars@;
        for col in 0..BUFFER_WIDTH
            invariant
                row < BUFFER_HEIGHT,
                before.len() == BUFFER_CELLS,
                blank == crate::vga_buffer::blank(self.color_code),
                self.buffer.chars@.len() == BUFFER_CELLS,
                self.column_position == old(self).column_position,
                self.column_position <= BUFFER_WIDTH,
                self.color_code == old(self).color_code,
                forall|i: int|
                    0 <= i < BUFFER_CELLS ==> self.buffer.chars@[i] == if cell_index(row as int, 0) <= i
                        < cell_index(row as int, col as int) {
                        crate::vga_buffer::blank(self.color_code)
                    } else {
                        before[i]
                    },
        {
            self.buffer.chars[row * BUFFER_WIDTH + col] = blank;
        }
        proof {
            assert(self.buffer.chars@ =~= cleared_row(before, row as int, self.color_code));
        }
    }
}

/// The two bytes of a cell as they lie in video memory, read as a
/// little-endian 16-bit number: the character, then the attribute byte.
pub open spec fn cell_word(c: ScreenChar) -> nat {
    (c.ascii_character + 256 * c.color_code.0) as nat
}

impl ScreenChar {
    /// The cell as video memory holds it, read as a little-endian 16-bit
    /// number: character in the low byte, attribute in the high byte.
    pub fn to_word(self) -> (w: u16)
        ensures
            w == cell_word(self),
    {
        self.ascii_character as u16 + 256 * self.color_code.0 as u16
    }

    /// The cell that a 16-bit video-memory word holds.
    pub fn from_word(w: u16) -> (c: ScreenChar)
        ensures
            c.ascii_character == w % 256,
            c.color_code.0 == w / 256,
            cell_word(c) == w,
    {
        ScreenChar { ascii_character: (w % 256) as u8, color_code: ColorCode((w / 256) as u8) }
    }
}

/// Four consecutive cells as one little-endian 64-bit word, first cell in
/// the low bits; a single 64-bit store of this word draws all four.
pub fn pack_screen_chars(cells: [ScreenChar; 4]) -> (word: u64)
    ensures
        word == cell_word(cells[0]) + cell_word(cells[1]) * 0x1_0000 + cell_word(cells[2])
            * 0x1_0000_0000 + cell_word(cells[3]) * 0x1_0000_0000_0000,
{
    let w0 = cells[0].to_word() as u64;
    let w1 = cells[1].to_word() as u64;
    let w2 = cells[2].to_word() as u64;
    let w3 = cells[3].to_word() as u64;
    w0 + w1 * 0x1_0000 + w2 * 0x1_0000_0000 + w3 * 0x1_0000_0000_0000
}

/// The video-memory bytes of a row of cells that show `text`, each drawn
/// with `color`: character byte, then attribute byte, cell after cell.
pub fn cell_bytes(text: &[u8], color: ColorCode) -> (bytes: Vec<u8>)
    requires
        text@.len() * 2 <= usize::MAX,
    ensures
        bytes@.len() == text@.len() * 2,
        forall|i: int|
            0 <= i < text@.len() ==> bytes@[2 * i] == #[trigger] text@[i] && bytes@[2 * i + 1]
                == color.0,
{
    let mut bytes: Vec<u8> = Vec::new();
    let mut i: usize = 0;
    while i < text.len()
        invariant
            i <= text@.len(),
            bytes@.len() == i * 2,
            forall|j: int|
                0 <= j < i ==> bytes@[2 * j] == #[trigger] text@[j] && bytes@[2 * j + 1] == color.0,
        decreases text@.len() - i,
    {
        let ghost before = bytes@;
        bytes.push(text[i]);
        bytes.push(color.0);
        proof {
            assert forall|j: int| 0 <= j < i + 1 implies bytes@[2 * j] == #[trigger] text@[j] && bytes@[2 * j + 1] == color.0 by {
                if j < i {
                    assert(bytes@[2 * j] == before[2 * j]);
                    assert(bytes@[2 * j + 1] == before[2 * j + 1]);
                }
            }
        }
        i += 1;
    }
    bytes
}

/// The greeting: a yellow-on-black writer on `buffer` writes `H`, then
/// `"ello "`, then `"Wörld!"` (whose non-ASCII letter shows as block
/// characters).
pub fn print_something(buffer: Buffer) -> (writer: Writer)
    ensures
        writer@ == (WriterState {
            column: 0,
            color: color_code_of(Color::Yellow, Color::Black),
            grid: buffer@,
        }).write_byte(0x48).write_bytes("ello ".spec_bytes().map_values(|b: u8| displayable(b))).write_bytes(
            "Wörld!".spec_bytes().map_values(|b: u8| displayable(b)),
        ),
        writer@.valid(),
{
    let mut writer = Writer::new(ColorCode::new(Color::Yellow, Color::Black), buffer);
    writer.write_byte(0x48);  // 'H'
    writer.write_string("ello ");
    writer.write_string("Wörld!");
    writer
}

} // verus!
