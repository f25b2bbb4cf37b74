use rustos::vga_buffer::{
    Colour, ColourCode, ScreenChar, Writer, BUFFER_HEIGHT, BUFFER_WIDTH,
};

fn writer() -> Writer {
    Writer::new(ColourCode::new(Colour::Cyan, Colour::Black))
}

fn row_text(w: &Writer, row: usize) -> Vec<u8> {
    (0..BUFFER_WIDTH).map(|c| w.char_at(row, c).ascii_character).collect()
}

#[test]
fn colour_codes() {
    assert_eq!(ColourCode::new(Colour::Cyan, Colour::Black).0, 0x03);
    assert_eq!(ColourCode::new(Colour::White, Colour::Blue).0, 0x1f);
    assert_eq!(ColourCode::new(Colour::Yellow, Colour::Red).0, 0x4e);
    assert_eq!(Colour::LightGrey.value(), 7);
    assert_eq!(Colour::White.value(), 15);
}

#[test]
fn new_writer_is_blank() {
    let w = writer();
    assert_eq!(w.column_position(), 0);
    for r in 0..BUFFER_HEIGHT {
        assert!(row_text(&w, r).iter().all(|&b| b == b' '));
    }
}

#[test]
fn test_println_simple() {
    let mut w = writer();
    w.write_string("test_println_simple output\n");
    assert_eq!(&row_text(&w, BUFFER_HEIGHT - 2)[..26], b"test_println_simple output");
}

#[test]
fn write_byte_on_last_row() {
    let mut w = writer();
    w.write_byte(b'A');
    let c = w.char_at(BUFFER_HEIGHT - 1, 0);
    assert_eq!(c, ScreenChar { ascii_character: b'A', colour_code: ColourCode(0x03) });
    assert_eq!(w.column_position(), 1);
}

#[test]
fn test_println_output() {
    let mut w = writer();
    let s = "Test string";
    w.write_string(s);
    w.write_string("\n");
    for (i, c) in s.chars().enumerate() {
        let sc = w.char_at(BUFFER_HEIGHT - 2, i);
        assert_eq!(char::from(sc.ascii_character), c);
    }
    assert_eq!(w.column_position(), 0);
    assert!(row_text(&w, BUFFER_HEIGHT - 1).iter().all(|&b| b == b' '));
}

#[test]
fn test_println_many() {
    let mut w = writer();
    for _ in 0..200 {
        w.write_string("test_println_many output\n");
    }
    for r in 0..BUFFER_HEIGHT - 1 {
        assert_eq!(&row_text(&w, r)[..24], b"test_println_many output");
    }
}

#[test]
fn long_line_wraps() {
    let mut w = writer();
    let line: String = std::iter::repeat('x').take(BUFFER_WIDTH).collect();
    w.write_string(&line);
    assert_eq!(w.column_position(), BUFFER_WIDTH);
    w.write_string("y");
    assert!(row_text(&w, BUFFER_HEIGHT - 2).iter().all(|&b| b == b'x'));
    assert_eq!(w.char_at(BUFFER_HEIGHT - 1, 0).ascii_character, b'y');
    assert_eq!(w.column_position(), 1);
}

#[test]
fn non_printable_bytes_are_replaced() {
    let mut w = writer();
    w.write_string("a\u{e9}\tb");
    let row = row_text(&w, BUFFER_HEIGHT - 1);
    // the two bytes of the accented letter and the tab each show as 0xfe
    assert_eq!(&row[..5], &[b'a', 0xfe, 0xfe, 0xfe, b'b']);
}

#[test]
fn scrolled_rows_keep_their_colour() {
    let mut w = Writer::new(ColourCode::new(Colour::White, Colour::Blue));
    w.write_string("hi\n");
    assert_eq!(w.char_at(BUFFER_HEIGHT - 2, 0).colour_code, ColourCode(0x1f));
    assert_eq!(w.char_at(BUFFER_HEIGHT - 1, 5).colour_code, ColourCode(0x1f));
}
