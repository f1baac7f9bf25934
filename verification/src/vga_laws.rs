//! Properties of the text writer that span several writes.

use vstd::prelude::*;
use crate::vga_buffer::{
    blank, cell_index, cell_word, cleared_row, color_code_of, color_number, displayable, Color, ColorCode, ScreenChar,
    WriterState, BUFFER_CELLS, BUFFER_HEIGHT, BUFFER_WIDTH,
};

verus! {

/// The screen after putting `text` on the bottom row from column `start`.
pub open spec fn run_written(grid: Seq<ScreenChar>, start: int, text: Seq<u8>, color: ColorCode) -> Seq<
    ScreenChar,
> {
    Seq::new(
        grid.len(),
        |i: int|
            if cell_index(BUFFER_HEIGHT - 1, start) <= i < cell_index(
                BUFFER_HEIGHT - 1,
                start + text.len(),
            ) {
                ScreenChar {
                    ascii_character: text[i - cell_index(BUFFER_HEIGHT - 1, start)],
                    color_code: color,
                }
            } else {
                grid[i]
            },
    )
}

/// Writing a text in two pieces has the same effect as writing it at once.
pub proof fn lemma_write_bytes_append(s: WriterState, first: Seq<u8>, second: Seq<u8>)
    ensures
        s.write_bytes(first + second) == s.write_bytes(first).write_bytes(second),
    decreases second.len(),
{
    if second.len() == 0 {
        assert(first + second =~= first);
    } else {
        assert((first + second).drop_last() =~= first + second.drop_last());
        lemma_write_bytes_append(s, first, second.drop_last());
    }
}

/// Every write keeps the writer's state well formed and its colours unchanged.
pub proof fn lemma_write_bytes_valid(s: WriterState, bytes: Seq<u8>)
    requires
        s.valid(),
    ensures
        s.write_bytes(bytes).valid(),
        s.write_bytes(bytes).color == s.color,
    decreases bytes.len(),
{
    if bytes.len() > 0 {
        lemma_write_bytes_valid(s, bytes.drop_last());
    }
}

/// Bytes that fit on the rest of the bottom row land there side by side,
/// and nothing else on the screen changes.
pub proof fn lemma_write_run(s: WriterState, text: Seq<u8>)
    requires
        s.valid(),
        s.column + text.len() <= BUFFER_WIDTH,
        forall|i: int| 0 <= i < text.len() ==> text[i] != 0x0a,
    ensures
        s.write_bytes(text) == (WriterState {
            column: s.column + text.len(),
            color: s.color,
            grid: run_written(s.grid, s.column as int, text, s.color),
        }),
    decreases text.len(),
{
    if text.len() == 0 {
        assert(run_written(s.grid, s.column as int, text, s.color) =~= s.grid);
    } else {
        let init = text.drop_last();
        lemma_write_run(s, init);
        assert(text.last() == text[text.len() - 1]);
        assert(run_written(s.grid, s.column as int, init, s.color).update(
            cell_index(BUFFER_HEIGHT - 1, (s.column + init.len()) as int),
            ScreenChar { ascii_character: text.last(), color_code: s.color },
        ) =~= run_written(s.grid, s.column as int, text, s.color));
    }
}

/// A line that fits on the bottom row, followed by a newline, ends up on the
/// second-to-last row, character by character and in the writer's colours;
/// the rows above move up by one, the bottom row is blank and the cursor is
/// back at the start of the row.
pub proof fn lemma_line_lands_above_cursor(s: WriterState, text: Seq<u8>)
    requires
        s.valid(),
        s.column + text.len() <= BUFFER_WIDTH,
        forall|i: int| 0 <= i < text.len() ==> text[i] != 0x0a,
    ensures
        ({
            let t = s.write_bytes(text.push(0x0a));
            &&& t.column == 0
            &&& t.color == s.color
            &&& forall|i: int|
                0 <= i < text.len() ==> #[trigger] t.grid[cell_index(
                    BUFFER_HEIGHT - 2,
                    s.column + i,
                )] == (ScreenChar { ascii_character: text[i], color_code: s.color })
            &&& forall|col: int|
                0 <= col < BUFFER_WIDTH ==> #[trigger] t.grid[cell_index(BUFFER_HEIGHT - 1, col)]
                    == blank(s.color)
            &&& forall|row: int, col: int|
                0 <= row < BUFFER_HEIGHT - 2 && 0 <= col < BUFFER_WIDTH ==> #[trigger] t.grid[cell_index(
                    row,
                    col,
                )] == s.grid[cell_index(row + 1, col)]
        }),
{
    lemma_write_run(s, text);
    assert(text.push(0x0a).drop_last() =~= text);
    let t = s.write_bytes(text.push(0x0a));
    let mid = s.write_bytes(text);
    assert(t == mid.new_line());
    assert forall|i: int| 0 <= i < text.len() implies #[trigger] t.grid[cell_index(
        BUFFER_HEIGHT - 2,
        s.column + i,
    )] == (ScreenChar { ascii_character: text[i], color_code: s.color }) by {
        assert(t.grid[cell_index(BUFFER_HEIGHT - 2, s.column + i)] == mid.grid[cell_index(
            BUFFER_HEIGHT - 1,
            s.column + i,
        )]);
    }
    assert forall|row: int, col: int|
        0 <= row < BUFFER_HEIGHT - 2 && 0 <= col < BUFFER_WIDTH implies #[trigger] t.grid[cell_index(
        row,
        col,
    )] == s.grid[cell_index(row + 1, col)] by {
        assert(t.grid[cell_index(row, col)] == mid.grid[cell_index(row + 1, col)]);
    }
}

/// For text made only of printable ASCII and newlines, `write_string` writes
/// exactly what `write_str` writes.
pub proof fn lemma_displayable_text_unchanged(bytes: Seq<u8>)
    requires
        forall|i: int|
            0 <= i < bytes.len() ==> (0x20 <= #[trigger] bytes[i] <= 0x7e || bytes[i] == 0x0a),
    ensures
        bytes.map_values(|b: u8| displayable(b)) == bytes,
{
    assert(bytes.map_values(|b: u8| displayable(b)) =~= bytes);
}

/// Different colour pairs give different attribute bytes.
pub proof fn lemma_color_code_injective(f1: Color, b1: Color, f2: Color, b2: Color)
    ensures
        color_code_of(f1, b1) == color_code_of(f2, b2) <==> (f1 == f2 && b1 == b2),
{
    assert(color_number(f1) == color_number(f2) ==> f1 == f2);
    assert(color_number(b1) == color_number(b2) ==> b1 == b2);
}

/// A cell's video-memory word determines the cell, so reading back a written
/// word gives the same cell.
pub proof fn lemma_cell_word_injective(a: ScreenChar, b: ScreenChar)
    ensures
        cell_word(a) == cell_word(b) <==> a == b,
{
}

/// The state after `k` new lines in a row.
pub open spec fn new_lines(s: WriterState, k: nat) -> WriterState
    decreases k,
{
    if k == 0 {
        s
    } else {
        new_lines(s, (k - 1) as nat).new_line()
    }
}

/// After `k` new lines every row has moved up by `k`: the cell at screen
/// position `i` holds what was `k` rows below it, or a blank where that is
/// off the screen; the cursor is at the start of the bottom row.
pub proof fn lemma_new_lines(s: WriterState, k: nat)
    requires
        s.valid(),
    ensures
        ({
            let t = new_lines(s, k);
            &&& t.valid()
            &&& t.color == s.color
            &&& k > 0 ==> t.column == 0
            &&& forall|i: int|
                0 <= i < BUFFER_CELLS ==> #[trigger] t.grid[i] == if i + k * BUFFER_WIDTH
                    < BUFFER_CELLS {
                    s.grid[i + k * BUFFER_WIDTH]
                } else {
                    blank(s.color)
                }
        }),
    decreases k,
{
    if k > 0 {
        lemma_new_lines(s, (k - 1) as nat);
        let prev = new_lines(s, (k - 1) as nat);
        let t = new_lines(s, k);
        assert forall|i: int| 0 <= i < BUFFER_CELLS implies #[trigger] t.grid[i] == if i + k
            * BUFFER_WIDTH < BUFFER_CELLS {
            s.grid[i + k * BUFFER_WIDTH]
        } else {
            blank(s.color)
        } by {
            if i + BUFFER_WIDTH < BUFFER_CELLS {
                assert(t.grid[i] == prev.grid[i + BUFFER_WIDTH]);
                assert(i + BUFFER_WIDTH + (k - 1) * BUFFER_WIDTH == i + k * BUFFER_WIDTH);
            }
        }
    }
}

/// `BUFFER_HEIGHT` new lines in a row leave the whole screen blank in the
/// writer's colours, whatever it showed before.
pub proof fn lemma_full_scroll_blanks_screen(s: WriterState)
    requires
        s.valid(),
    ensures
        ({
            let t = new_lines(s, BUFFER_HEIGHT as nat);
            &&& t.column == 0
            &&& forall|i: int| 0 <= i < BUFFER_CELLS ==> #[trigger] t.grid[i] == blank(s.color)
        }),
{
    lemma_new_lines(s, BUFFER_HEIGHT as nat);
}

/// Writing a newline is one new line.
pub proof fn lemma_newline_byte_is_new_line(s: WriterState)
    ensures
        s.write_byte(0x0a) == s.new_line(),
{
}

/// Clearing a row of the writer's screen a second time, as `clear_row`
/// does, leaves the writer as one clearing left it.
pub proof fn lemma_clear_row_twice(s: WriterState, row: int)
    ensures
        ({
            let once = WriterState { grid: cleared_row(s.grid, row, s.color), ..s };
            let twice = WriterState { grid: cleared_row(once.grid, row, once.color), ..once };
            twice == once
        }),
{
    lemma_clear_row_idempotent(s.grid, row, s.color);
}

/// Clearing a row a second time changes nothing.
pub proof fn lemma_clear_row_idempotent(grid: Seq<ScreenChar>, row: int, color: ColorCode)
    ensures
        cleared_row(cleared_row(grid, row, color), row, color) == cleared_row(grid, row, color),
{
    assert(cleared_row(cleared_row(grid, row, color), row, color) =~= cleared_row(grid, row, color));
}

/// What one byte does to the screen, cell by cell.
///
/// - A newline moves every row up by one (cell `i` receives the old cell
///   `i + BUFFER_WIDTH`), blanks the bottom row in the writer's colours and
///   returns the cursor to column 0.
/// - Any other byte on a row with room is drawn at the cursor in the
///   writer's colours; no other cell changes and the cursor moves right.
/// - Any other byte on a full row (cursor at `BUFFER_WIDTH`) first moves
///   every row up by one, then is drawn at column 0 of the blank bottom row;
///   the cursor ends at column 1.
pub proof fn lemma_write_byte_cells(s: WriterState, byte: u8)
    requires
        s.valid(),
    ensures
        ({
            let t = s.write_byte(byte);
            let space = ScreenChar { ascii_character: 0x20, color_code: s.color };
            let drawn = ScreenChar { ascii_character: byte, color_code: s.color };
            let bottom = (BUFFER_HEIGHT - 1) * BUFFER_WIDTH;
            &&& t.valid()
            &&& t.color == s.color
            &&& byte == 0x0a ==> {
                &&& t.column == 0
                &&& forall|i: int|
                    0 <= i < BUFFER_CELLS ==> #[trigger] t.grid[i] == if i < bottom {
                        s.grid[i + BUFFER_WIDTH]
                    } else {
                        space
                    }
            }
            &&& (byte != 0x0a && s.column < BUFFER_WIDTH) ==> {
                &&& t.column == s.column + 1
                &&& forall|i: int|
                    0 <= i < BUFFER_CELLS ==> #[trigger] t.grid[i] == if i == bottom + s.column {
                        drawn
                    } else {
                        s.grid[i]
                    }
            }
            &&& (byte != 0x0a && s.column == BUFFER_WIDTH) ==> {
                &&& t.column == 1
                &&& forall|i: int|
                    0 <= i < BUFFER_CELLS ==> #[trigger] t.grid[i] == if i < bottom {
                        s.grid[i + BUFFER_WIDTH]
                    } else if i == bottom {
                        drawn
                    } else {
                        space
                    }
            }
        }),
{
}

/// Writing bytes is writing each byte in turn, wherever the cursor stands:
/// writing one more byte after some bytes is one single-byte write after
/// them, and writing a single byte is that byte's write.
pub proof fn lemma_write_bytes_one_at_a_time(s: WriterState, bytes: Seq<u8>, b: u8)
    ensures
        s.write_bytes(bytes.push(b)) == s.write_bytes(bytes).write_byte(b),
        s.write_bytes(seq![b]) == s.write_byte(b),
        s.write_bytes(Seq::empty()) == s,
{
    assert(bytes.push(b).drop_last() =~= bytes);
    assert(seq![b].drop_last() =~= Seq::<u8>::empty());
    assert(s.write_bytes(Seq::<u8>::empty()) == s);
    assert(seq![b].last() == b);
}

/// `write_string` shows printable ASCII (`0x20..=0x7e`) and newline as they
/// are and every other byte (control bytes such as carriage return or
/// escape, and bytes `0x7f..=0xff`) as the block character `0xfe`.
pub proof fn lemma_displayable_bytes(b: u8)
    ensures
        (0x20 <= b <= 0x7e || b == 0x0a) ==> displayable(b) == b,
        !(0x20 <= b <= 0x7e || b == 0x0a) ==> displayable(b) == 0xfe,
        displayable(0x0d) == 0xfe,
        displayable(0x1b) == 0xfe,
        displayable(0x09) == 0xfe,
        displayable(0x7f) == 0xfe,
{
}

/// The bytes `write_string` hands to the writer for a text: the same number
/// of bytes, each printable ASCII byte or newline kept and every other byte
/// replaced by `0xfe`.
pub proof fn lemma_displayable_text(bytes: Seq<u8>)
    ensures
        ({
            let shown = bytes.map_values(|b: u8| displayable(b));
            &&& shown.len() == bytes.len()
            &&& forall|i: int|
                0 <= i < bytes.len() ==> #[trigger] shown[i] == if 0x20 <= bytes[i] <= 0x7e
                    || bytes[i] == 0x0a {
                    bytes[i]
                } else {
                    0xfeu8
                }
        }),
{
}

/// The palette numbers of the sixteen VGA colours, in the hardware's order.
pub proof fn lemma_palette_numbers()
    ensures
        color_number(Color::Black) == 0,
        color_number(Color::Blue) == 1,
        color_number(Color::Green) == 2,
        color_number(Color::Cyan) == 3,
        color_number(Color::Red) == 4,
        color_number(Color::Magenta) == 5,
        color_number(Color::Brown) == 6,
        color_number(Color::LightGray) == 7,
        color_number(Color::DarkGray) == 8,
        color_number(Color::LightBlue) == 9,
        color_number(Color::LightGreen) == 10,
        color_number(Color::LightCyan) == 11,
        color_number(Color::LightRed) == 12,
        color_number(Color::Pink) == 13,
        color_number(Color::Yellow) == 14,
        color_number(Color::White) == 15,
        color_code_of(Color::Green, Color::Black) == ColorCode(0x02),
        color_code_of(Color::Yellow, Color::Black) == ColorCode(0x0e),
        color_code_of(Color::Black, Color::White) == ColorCode(0xf0),
{
}

/// In video memory a cell is its character byte followed by its attribute
/// byte: as a little-endian word, the character is the low byte and the
/// attribute the high byte.
pub proof fn lemma_cell_word_layout(c: ScreenChar)
    ensures
        cell_word(c) < 0x1_0000,
        cell_word(c) % 256 == c.ascii_character,
        cell_word(c) / 256 == c.color_code.0,
{
}

} // verus!
