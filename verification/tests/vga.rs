use embedded_rust_os::vga_buffer::Color;
use embedded_rust_os::vga_buffer::ColorCode;
use embedded_rust_os::vga_buffer::Writer;
use embedded_rust_os::vga_buffer::BUFFER_HEIGHT;
use embedded_rust_os::vga_buffer::BUFFER_WIDTH;
use embedded_rust_os::vga_buffer::FALLBACK_GLYPH;

fn white_on_black() -> ColorCode {
    ColorCode::new(Color::White, Color::Black)
}

#[test]
fn color_code_encodes_background_high_foreground_low() {
    assert_eq!(ColorCode::new(Color::Yellow, Color::Blue).0, (1 << 4) | 14);
    assert_eq!(ColorCode::new(Color::LightRed, Color::Black).0, 0x0c);
    assert_eq!(ColorCode::new(Color::Black, Color::White).0, 0xf0);
    assert_eq!(ColorCode::new(Color::White, Color::White).0, 0xff);
}

#[test]
fn color_code_round_trips_for_every_pair() {
    for bg in 0..16u8 {
        for fg in 0..16u8 {
            let code = ColorCode::new(Color::from_u8(fg), Color::from_u8(bg));
            assert_eq!(code.0, (bg << 4) | fg);
            assert_eq!(code.foreground(), fg);
            assert_eq!(code.background(), bg);
        }
    }
}

#[test]
fn color_palette_indices() {
    assert_eq!(Color::Black.as_u8(), 0);
    assert_eq!(Color::Cyan.as_u8(), 3);
    assert_eq!(Color::LightGray.as_u8(), 7);
    assert_eq!(Color::LightRed.as_u8(), 12);
    assert_eq!(Color::White.as_u8(), 15);
    for v in 0..16u8 {
        assert_eq!(Color::from_u8(v).as_u8(), v);
    }
}

#[test]
fn short_line_never_changes_row() {
    let mut w = Writer::new(white_on_black());
    let text: String = "a".repeat(79);
    w.write_string(&text);
    assert_eq!(w.row_position, 0);
    assert_eq!(w.column_position, 79);
    for c in 0..79 {
        assert_eq!(w.buffer.read_cell(0, c).ascii_character, b'a');
    }
}

#[test]
fn exactly_full_line_defers_the_wrap() {
    let mut w = Writer::new(white_on_black());
    let text: String = "b".repeat(BUFFER_WIDTH);
    w.write_string(&text);
    assert_eq!(w.row_position, 0);
    assert_eq!(w.column_position, BUFFER_WIDTH);
}

#[test]
fn one_byte_past_full_line_wraps_to_column_one() {
    let mut w = Writer::new(white_on_black());
    let text: String = "c".repeat(BUFFER_WIDTH + 1);
    w.write_string(&text);
    assert_eq!(w.row_position, 1);
    assert_eq!(w.column_position, 1);
    assert_eq!(w.buffer.read_cell(0, BUFFER_WIDTH - 1).ascii_character, b'c');
    assert_eq!(w.buffer.read_cell(1, 0).ascii_character, b'c');
}

#[test]
fn newline_resets_column_and_advances_row() {
    let mut w = Writer::new(white_on_black());
    w.write_string("abc\n");
    assert_eq!(w.row_position, 1);
    assert_eq!(w.column_position, 0);
    w.write_byte(b'\n');
    assert_eq!(w.row_position, 2);
    assert_eq!(w.column_position, 0);
}

#[test]
fn newline_on_last_row_scrolls_instead() {
    let mut w = Writer::new(white_on_black());
    for _ in 0..(BUFFER_HEIGHT - 1) {
        w.write_byte(b'\n');
    }
    assert_eq!(w.row_position, BUFFER_HEIGHT - 1);
    w.write_string("A");
    w.write_byte(b'\n');
    assert_eq!(w.row_position, BUFFER_HEIGHT - 1);
    assert_eq!(w.column_position, 0);
    assert_eq!(w.buffer.read_cell(BUFFER_HEIGHT - 2, 0).ascii_character, b'A');
    assert_eq!(w.buffer.read_cell(BUFFER_HEIGHT - 1, 0).ascii_character, b' ');
}

#[test]
fn scroll_moves_every_row_up_and_clears_the_last() {
    let mut w = Writer::new(white_on_black());
    // Put a distinct marker at the start of every row, ending on the last row.
    for r in 0..BUFFER_HEIGHT {
        let marker = b'0' + (r % 10) as u8;
        w.write_byte(marker);
        if r < BUFFER_HEIGHT - 1 {
            w.write_byte(b'\n');
        }
    }
    assert_eq!(w.row_position, BUFFER_HEIGHT - 1);
    // Trigger one scroll.
    w.write_byte(b'\n');
    for r in 0..(BUFFER_HEIGHT - 1) {
        let expected = b'0' + ((r + 1) % 10) as u8;
        assert_eq!(w.buffer.read_cell(r, 0).ascii_character, expected);
    }
    for c in 0..BUFFER_WIDTH {
        let cell = w.buffer.read_cell(BUFFER_HEIGHT - 1, c);
        assert_eq!(cell.ascii_character, b' ');
        assert_eq!(cell.color_code, white_on_black());
    }
}

#[test]
fn unprintable_bytes_become_the_fallback_glyph() {
    let mut w = Writer::new(white_on_black());
    w.write_string("\x07");
    assert_eq!(w.buffer.read_cell(0, 0).ascii_character, FALLBACK_GLYPH);
    assert_eq!(w.column_position, 1);
}

#[test]
fn each_byte_of_a_multibyte_character_becomes_one_glyph() {
    let mut w = Writer::new(white_on_black());
    // Two-byte encoded character: two fallback glyphs.
    w.write_string("é");
    assert_eq!(w.column_position, 2);
    assert_eq!(w.buffer.read_cell(0, 0).ascii_character, FALLBACK_GLYPH);
    assert_eq!(w.buffer.read_cell(0, 1).ascii_character, FALLBACK_GLYPH);
    // Three-byte encoded character: exactly three more.
    w.write_string("€");
    assert_eq!(w.column_position, 5);
    assert_eq!(w.buffer.read_cell(0, 2).ascii_character, FALLBACK_GLYPH);
    assert_eq!(w.buffer.read_cell(0, 3).ascii_character, FALLBACK_GLYPH);
    assert_eq!(w.buffer.read_cell(0, 4).ascii_character, FALLBACK_GLYPH);
}

#[test]
fn printable_range_is_written_verbatim() {
    let mut w = Writer::new(white_on_black());
    w.write_string(" ~Az9");
    assert_eq!(w.buffer.read_cell(0, 0).ascii_character, b' ');
    assert_eq!(w.buffer.read_cell(0, 1).ascii_character, b'~');
    assert_eq!(w.buffer.read_cell(0, 2).ascii_character, b'A');
    assert_eq!(w.buffer.read_cell(0, 3).ascii_character, b'z');
    assert_eq!(w.buffer.read_cell(0, 4).ascii_character, b'9');
}

#[test]
fn cells_carry_the_active_color() {
    let color = ColorCode::new(Color::Green, Color::DarkGray);
    let mut w = Writer::new(color);
    w.write_string("x");
    let cell = w.buffer.read_cell(0, 0);
    assert_eq!(cell.ascii_character, b'x');
    assert_eq!(cell.color_code, color);
}
