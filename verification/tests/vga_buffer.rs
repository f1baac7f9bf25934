use blog_os::vga_buffer::{
    cell_bytes, pack_screen_chars, print_something, Buffer, Color, ColorCode, ScreenChar, Writer,
    BUFFER_CELLS, BUFFER_HEIGHT, BUFFER_WIDTH,
};

fn blank_buffer(color: ColorCode) -> Buffer {
    let cell = ScreenChar { ascii_character: b' ', color_code: color };
    Buffer::from_cells(vec![cell; BUFFER_CELLS]).unwrap()
}

fn yellow_writer() -> Writer {
    let color = ColorCode::new(Color::Yellow, Color::Black);
    Writer::new(color, blank_buffer(ColorCode(0)))
}

fn row_text(writer: &Writer, row: usize) -> Vec<u8> {
    (0..BUFFER_WIDTH).map(|col| writer.char_at(row, col).ascii_character).collect()
}

fn println(writer: &mut Writer, s: &str) {
    writer.write_str(s);
    writer.write_str("\n");
}

#[test]
fn color_numbers_follow_the_palette() {
    assert_eq!(Color::Black.to_u8(), 0);
    assert_eq!(Color::Blue.to_u8(), 1);
    assert_eq!(Color::LightGray.to_u8(), 7);
    assert_eq!(Color::DarkGray.to_u8(), 8);
    assert_eq!(Color::LightCyan.to_u8(), 11);
    assert_eq!(Color::Yellow.to_u8(), 14);
    assert_eq!(Color::White.to_u8(), 15);
}

#[test]
fn color_code_packs_background_high_foreground_low() {
    assert_eq!(ColorCode::new(Color::Yellow, Color::Black), ColorCode(0x0e));
    assert_eq!(ColorCode::new(Color::Black, Color::White), ColorCode(0xf0));
    assert_eq!(ColorCode::new(Color::LightCyan, Color::Black), ColorCode(0x0b));
    assert_eq!(ColorCode::new(Color::Red, Color::Blue), ColorCode(0x14));
}

#[test]
fn color_code_distinguishes_pairs() {
    assert_ne!(ColorCode::new(Color::Blue, Color::Red), ColorCode::new(Color::Red, Color::Blue));
}

#[test]
fn buffer_needs_a_full_screen_of_cells() {
    let cell = ScreenChar { ascii_character: b'x', color_code: ColorCode(0x07) };
    assert!(Buffer::from_cells(vec![cell; BUFFER_CELLS - 1]).is_none());
    assert!(Buffer::from_cells(vec![cell; BUFFER_CELLS + 1]).is_none());
    let b = Buffer::from_cells(vec![cell; BUFFER_CELLS]).unwrap();
    assert_eq!(b.char_at(BUFFER_HEIGHT - 1, BUFFER_WIDTH - 1), cell);
}

#[test]
fn new_writer_starts_at_column_zero() {
    let w = yellow_writer();
    assert_eq!(w.column_position(), 0);
    assert_eq!(w.color_code(), ColorCode(0x0e));
}

#[test]
fn write_byte_puts_character_on_bottom_row() {
    let mut w = yellow_writer();
    w.write_byte(b'A');
    assert_eq!(
        w.char_at(BUFFER_HEIGHT - 1, 0),
        ScreenChar { ascii_character: b'A', color_code: ColorCode(0x0e) }
    );
    assert_eq!(w.column_position(), 1);
    assert_eq!(w.char_at(BUFFER_HEIGHT - 2, 0).ascii_character, b' ');
}

#[test]
fn newline_scrolls_and_blanks_bottom_row() {
    let mut w = yellow_writer();
    w.write_string("ab");
    w.write_byte(b'\n');
    assert_eq!(w.column_position(), 0);
    assert_eq!(w.char_at(BUFFER_HEIGHT - 2, 0).ascii_character, b'a');
    assert_eq!(w.char_at(BUFFER_HEIGHT - 2, 1).ascii_character, b'b');
    for col in 0..BUFFER_WIDTH {
        assert_eq!(
            w.char_at(BUFFER_HEIGHT - 1, col),
            ScreenChar { ascii_character: b' ', color_code: ColorCode(0x0e) }
        );
    }
}

#[test]
fn full_row_wraps_to_a_new_line() {
    let mut w = yellow_writer();
    for _ in 0..BUFFER_WIDTH {
        w.write_byte(b'x');
    }
    assert_eq!(w.column_position(), BUFFER_WIDTH);
    w.write_byte(b'y');
    assert_eq!(w.column_position(), 1);
    assert_eq!(row_text(&w, BUFFER_HEIGHT - 2), vec![b'x'; BUFFER_WIDTH]);
    assert_eq!(w.char_at(BUFFER_HEIGHT - 1, 0).ascii_character, b'y');
    assert_eq!(w.char_at(BUFFER_HEIGHT - 1, 1).ascii_character, b' ');
}

#[test]
fn write_string_replaces_unprintable_bytes() {
    let mut w = yellow_writer();
    w.write_string("a\tö~");
    let row = row_text(&w, BUFFER_HEIGHT - 1);
    assert_eq!(&row[..5], &[b'a', 0xfe, 0xfe, 0xfe, b'~']);
    assert_eq!(w.column_position(), 5);
}

#[test]
fn write_str_keeps_every_byte() {
    let mut w = yellow_writer();
    w.write_str("a\tö");
    let row = row_text(&w, BUFFER_HEIGHT - 1);
    assert_eq!(&row[..4], &[b'a', b'\t', 0xc3, 0xb6]);
}

#[test]
fn print_something_draws_the_greeting() {
    let w = print_something(blank_buffer(ColorCode(0)));
    let expected: &[u8] = b"Hello W\xfe\xferld!";
    for (i, &b) in expected.iter().enumerate() {
        assert_eq!(
            w.char_at(BUFFER_HEIGHT - 1, i),
            ScreenChar { ascii_character: b, color_code: ColorCode(0x0e) }
        );
    }
    assert_eq!(w.column_position(), expected.len());
    assert_eq!(w.char_at(BUFFER_HEIGHT - 1, expected.len()).color_code, ColorCode(0));
}

#[test]
fn test_println_simple() {
    let mut w = yellow_writer();
    println(&mut w, "test_println_simple output");
    assert_eq!(w.column_position(), 0);
}

#[test]
fn test_println_many() {
    let mut w = yellow_writer();
    for _ in 0..200 {
        println(&mut w, "test_println_many output");
    }
    let line = b"test_println_many output";
    for row in 0..BUFFER_HEIGHT - 1 {
        assert_eq!(&row_text(&w, row)[..line.len()], line);
    }
    assert_eq!(row_text(&w, BUFFER_HEIGHT - 1), vec![b' '; BUFFER_WIDTH]);
}

#[test]
fn test_println_output() {
    let mut w = yellow_writer();
    let s = "Some test string that fits on a single line";
    println(&mut w, s);
    for (i, c) in s.chars().enumerate() {
        let screen_char = w.char_at(BUFFER_HEIGHT - 2, i);
        assert_eq!(char::from(screen_char.ascii_character), c);
    }
}

#[test]
fn println_after_text_continues_the_line() {
    let mut w = yellow_writer();
    w.write_string("ab");
    println(&mut w, "cd");
    assert_eq!(&row_text(&w, BUFFER_HEIGHT - 2)[..4], b"abcd");
}

#[test]
fn pack_screen_chars_builds_the_new_message_word() {
    let color = ColorCode::new(Color::Black, Color::White);
    let cells = [b'N', b'e', b'w', b'!'].map(|c| ScreenChar { ascii_character: c, color_code: color });
    assert_eq!(pack_screen_chars(cells), 0x_f021_f077_f065_f04e);
}

#[test]
fn cell_bytes_interleaves_characters_and_colour() {
    let color = ColorCode::new(Color::LightCyan, Color::Black);
    let bytes = cell_bytes(b"Hello World!", color);
    assert_eq!(bytes.len(), 24);
    assert_eq!(&bytes[..6], &[b'H', 0x0b, b'e', 0x0b, b'l', 0x0b]);
    assert_eq!(bytes[22], b'!');
    assert_eq!(bytes[23], 0x0b);
    assert!(cell_bytes(b"", color).is_empty());
}

#[test]
fn write_string_and_write_str_agree_on_printable_text() {
    let mut a = yellow_writer();
    let mut b = yellow_writer();
    let text = "Hello, World! 0123 ~\nnext line";
    a.write_string(text);
    b.write_str(text);
    assert_eq!(a.column_position(), b.column_position());
    for row in 0..BUFFER_HEIGHT {
        for col in 0..BUFFER_WIDTH {
            assert_eq!(a.char_at(row, col), b.char_at(row, col));
        }
    }
}

#[test]
fn writing_in_pieces_equals_writing_at_once() {
    let mut a = yellow_writer();
    let mut b = yellow_writer();
    let text = "a fairly long line of text that will wrap past the right edge of the screen\nand more";
    a.write_str(text);
    b.write_str(&text[..30]);
    b.write_str(&text[30..]);
    assert_eq!(a.column_position(), b.column_position());
    for row in 0..BUFFER_HEIGHT {
        for col in 0..BUFFER_WIDTH {
            assert_eq!(a.char_at(row, col), b.char_at(row, col));
        }
    }
}

#[test]
fn cell_words_round_trip() {
    let c = ScreenChar { ascii_character: b'N', color_code: ColorCode(0xf0) };
    assert_eq!(c.to_word(), 0xf04e);
    assert_eq!(ScreenChar::from_word(0xf04e), c);
    assert_eq!(ScreenChar::from_word(0x0741).to_word(), 0x0741);
}

#[test]
fn twenty_five_newlines_blank_the_screen() {
    let cell = ScreenChar { ascii_character: b'#', color_code: ColorCode(0x1f) };
    let mut w = Writer::new(ColorCode(0x0e), Buffer::from_cells(vec![cell; BUFFER_CELLS]).unwrap());
    w.write_string("abc");
    for k in 1..=BUFFER_HEIGHT {
        w.write_byte(b'\n');
        assert_eq!(w.column_position(), 0);
        if k < BUFFER_HEIGHT {
            assert_eq!(w.char_at(BUFFER_HEIGHT - 1 - k, 0).ascii_character, b'a');
        }
    }
    for row in 0..BUFFER_HEIGHT {
        assert_eq!(row_text(&w, row), vec![b' '; BUFFER_WIDTH]);
    }
}

#[test]
fn resume_goes_on_from_the_given_column() {
    let mut w = Writer::resume(5, ColorCode(0x0e), blank_buffer(ColorCode(0)));
    assert_eq!(w.column_position(), 5);
    w.write_byte(b'z');
    assert_eq!(w.char_at(BUFFER_HEIGHT - 1, 5).ascii_character, b'z');
    assert_eq!(w.column_position(), 6);
}
