use kernel_core::vga_buffer::{Color, ColorCode, VgaWriter, BUFFER_HEIGHT, BUFFER_WIDTH};

fn writer() -> VgaWriter {
    VgaWriter::new(ColorCode::new(Color::LightBlue, Color::Black))
}

#[test]
fn test_vga_write() {
    let mut w = writer();
    w.clear();
    let string_to_write = "Hello World!";
    w.write_string(string_to_write);
    for (i, expected) in string_to_write.as_bytes().iter().enumerate() {
        let actual = w.char_at(BUFFER_HEIGHT - 1, i) as char;
        assert_eq!(*expected as char, actual);
    }
    assert_eq!(w.column(), string_to_write.len());
}

#[test]
fn test_vga_write_new_line() {
    let mut w = writer();
    w.clear();
    w.write_string("HelloWorld\n!");
    for (i, expected) in "HelloWorld".as_bytes().iter().enumerate() {
        let actual = w.char_at(BUFFER_HEIGHT - 2, i) as char;
        assert_eq!(*expected as char, actual);
    }
    for (i, expected) in "!".as_bytes().iter().enumerate() {
        let actual = w.char_at(BUFFER_HEIGHT - 1, i) as char;
        assert_eq!(*expected as char, actual);
    }
    assert_eq!(w.column(), 1);
}

#[test]
fn test_vga_write_long_line() {
    let mut w = writer();
    w.clear();
    for _ in 0..(BUFFER_WIDTH * 2) {
        w.write_byte(b'x');
    }
    for i in 0..BUFFER_WIDTH {
        assert_eq!('x', w.char_at(BUFFER_HEIGHT - 2, i) as char);
        assert_eq!('x', w.char_at(BUFFER_HEIGHT - 1, i) as char);
    }
    assert_eq!(w.column(), BUFFER_WIDTH);
}

#[test]
fn test_cursor_wraps_at_row_boundary() {
    let mut w = writer();
    for _ in 0..BUFFER_WIDTH {
        w.write_byte(b'y');
    }
    assert_eq!(w.column(), BUFFER_WIDTH);
    w.write_byte(b'y');
    assert_eq!(w.column(), 1);
    assert_eq!(b'y', w.char_at(BUFFER_HEIGHT - 1, 0));
    assert_eq!(b'y', w.char_at(BUFFER_HEIGHT - 2, BUFFER_WIDTH - 1));
}

#[test]
fn test_write_bytes_bottom_row() {
    let mut w = writer();
    w.write_bytes(b"Hello");
    assert_eq!(w.column(), 5);
    for (i, expected) in b"Hello".iter().enumerate() {
        assert_eq!(*expected, w.char_at(BUFFER_HEIGHT - 1, i));
    }
    // the rest of the bottom row stays blank
    assert_eq!(b' ', w.char_at(BUFFER_HEIGHT - 1, 5));
}

#[test]
fn test_empty_write_changes_nothing() {
    let mut w = writer();
    w.write_string("");
    assert_eq!(w.column(), 0);
    for col in 0..BUFFER_WIDTH {
        assert_eq!(b' ', w.char_at(BUFFER_HEIGHT - 1, col));
    }
}

#[test]
fn test_nonprintable_byte_replaced() {
    let mut w = writer();
    w.write_byte(0x01);
    assert_eq!(0xfe, w.char_at(BUFFER_HEIGHT - 1, 0));
    w.write_byte(0x7f);
    assert_eq!(0xfe, w.char_at(BUFFER_HEIGHT - 1, 1));
    w.write_string("\t");
    assert_eq!(0xfe, w.char_at(BUFFER_HEIGHT - 1, 2));
}

#[test]
fn test_written_cell_carries_current_color() {
    let color = ColorCode::new(Color::White, Color::Blue);
    let mut w = VgaWriter::new(color);
    w.write_byte(b'A');
    let cell = w.cell_at(BUFFER_HEIGHT - 1, 0);
    assert_eq!(b'A', cell.ascii_character);
    assert_eq!(color, cell.character_color);
}

#[test]
fn test_clear_line_blanks_one_row() {
    let mut w = writer();
    w.write_string("abc");
    w.clear_line(BUFFER_HEIGHT - 1);
    for col in 0..BUFFER_WIDTH {
        assert_eq!(b' ', w.char_at(BUFFER_HEIGHT - 1, col));
    }
    assert_eq!(w.column(), 0);
}

#[test]
fn test_clear_blanks_everything() {
    let mut w = writer();
    w.write_string("abc\ndef");
    w.clear();
    for row in 0..BUFFER_HEIGHT {
        for col in 0..BUFFER_WIDTH {
            assert_eq!(b' ', w.char_at(row, col));
        }
    }
    assert_eq!(w.column(), 0);
}

#[test]
fn test_clear_last_line_blanks_bottom_row() {
    let mut w = writer();
    w.write_string("abc");
    w.clear_last_line();
    for col in 0..BUFFER_WIDTH {
        assert_eq!(b' ', w.char_at(BUFFER_HEIGHT - 1, col));
    }
    assert_eq!(w.column(), 0);
}

#[test]
fn test_scroll_discards_oldest_row() {
    let mut w = writer();
    // fill every row with a distinct first byte
    for i in 0..BUFFER_HEIGHT {
        w.write_byte(b'0' + (i as u8 % 10));
        w.new_line();
    }
    // the first written row has scrolled off; the last sits one above bottom
    assert_eq!(b'1', w.char_at(0, 0));
    assert_eq!(
        b'0' + ((BUFFER_HEIGHT as u8 - 1) % 10),
        w.char_at(BUFFER_HEIGHT - 2, 0)
    );
    assert_eq!(b' ', w.char_at(BUFFER_HEIGHT - 1, 0));
}

#[test]
fn test_print_appends_to_grid() {
    let mut w = writer();
    kernel_core::vga_buffer::_print(&mut w, "ok");
    assert_eq!(b'o', w.char_at(BUFFER_HEIGHT - 1, 0));
    assert_eq!(b'k', w.char_at(BUFFER_HEIGHT - 1, 1));
}

#[test]
fn test_multibyte_character_replaced_per_byte() {
    let mut w = writer();
    // a two-byte UTF-8 character: each byte is outside the printable range
    w.write_string("\u{e9}");
    assert_eq!(0xfe, w.char_at(BUFFER_HEIGHT - 1, 0));
    assert_eq!(0xfe, w.char_at(BUFFER_HEIGHT - 1, 1));
    assert_eq!(w.column(), 2);
}
