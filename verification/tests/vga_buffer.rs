use open_os::vga_buffer::{Buffer, Color, ColorCode, ScreenChar, Writer, BUFFER_HEIGHT, BUFFER_WIDTH};

fn blank(color: ColorCode) -> ScreenChar {
    ScreenChar { ascii_character: b' ', color_code: color }
}

fn writer_at(row: usize, column: usize, color: ColorCode) -> Writer {
    let buffer: &'static mut Buffer = Box::leak(Box::new(Buffer::filled(blank(color))));
    Writer { column_position: column, row_position: row, color_code: color, buffer }
}

fn row_text(writer: &Writer, row: usize) -> Vec<u8> {
    (0..BUFFER_WIDTH).map(|c| writer.buffer.read_char(row, c).ascii_character).collect()
}

#[test]
fn color_numbers_follow_hardware_order() {
    let colors = [
        Color::Black,
        Color::Blue,
        Color::Green,
        Color::Cyan,
        Color::Red,
        Color::Magenta,
        Color::Brown,
        Color::LightGray,
        Color::DarkGray,
        Color::LightBlue,
        Color::LightGreen,
        Color::LightCyan,
        Color::LightRed,
        Color::Pink,
        Color::Yellow,
        Color::White,
    ];
    for (i, color) in colors.iter().enumerate() {
        assert_eq!(color.number() as usize, i);
    }
}

#[test]
fn color_code_white_on_blue_is_31() {
    assert_eq!(ColorCode::new(Color::White, Color::Blue).byte(), 31);
}

#[test]
fn color_code_packs_background_in_high_nibble() {
    assert_eq!(ColorCode::new(Color::White, Color::Black).byte(), 0x0f);
    assert_eq!(ColorCode::new(Color::Yellow, Color::Black).byte(), 0x0e);
    assert_eq!(ColorCode::new(Color::Black, Color::White).byte(), 0xf0);
    assert_eq!(ColorCode::new(Color::LightRed, Color::Black).byte(), 0x0c);
    let code = ColorCode::new(Color::Green, Color::Magenta).byte();
    assert_eq!(code >> 4, Color::Magenta.number());
    assert_eq!(code & 0x0f, Color::Green.number());
}

#[test]
fn color_codes_of_different_pairs_differ() {
    let mut seen = std::collections::HashSet::new();
    let colors = [
        Color::Black,
        Color::Blue,
        Color::Green,
        Color::Cyan,
        Color::Red,
        Color::Magenta,
        Color::Brown,
        Color::LightGray,
        Color::DarkGray,
        Color::LightBlue,
        Color::LightGreen,
        Color::LightCyan,
        Color::LightRed,
        Color::Pink,
        Color::Yellow,
        Color::White,
    ];
    for fg in colors.iter() {
        for bg in colors.iter() {
            assert!(seen.insert(ColorCode::new(*fg, *bg).byte()));
        }
    }
    assert_eq!(seen.len(), 256);
}

#[test]
fn filled_buffer_holds_the_fill_everywhere() {
    let fill = ScreenChar { ascii_character: b'x', color_code: ColorCode::new(Color::Red, Color::Green) };
    let buffer = Buffer::filled(fill);
    for r in 0..BUFFER_HEIGHT {
        for c in 0..BUFFER_WIDTH {
            assert_eq!(buffer.read_char(r, c), fill);
        }
    }
}

#[test]
fn write_byte_stores_at_cursor_and_advances() {
    let color = ColorCode::new(Color::Yellow, Color::Black);
    let mut writer = writer_at(3, 10, color);
    writer.write_byte(b'A');
    assert_eq!(writer.buffer.read_char(3, 10), ScreenChar { ascii_character: b'A', color_code: color });
    assert_eq!(writer.column_position, 11);
    assert_eq!(writer.row_position, 3);
    assert_eq!(writer.buffer.read_char(3, 11), blank(color));
    assert_eq!(writer.buffer.read_char(3, 9), blank(color));
}

#[test]
fn write_byte_uses_current_color() {
    let color = ColorCode::new(Color::Yellow, Color::Black);
    let mut writer = writer_at(0, 0, color);
    writer.write_byte(b'a');
    writer.color_code = ColorCode::new(Color::Cyan, Color::Blue);
    writer.write_byte(b'b');
    assert_eq!(writer.buffer.read_char(0, 0).color_code, color);
    assert_eq!(writer.buffer.read_char(0, 1).color_code, ColorCode::new(Color::Cyan, Color::Blue));
}

#[test]
fn newline_moves_to_start_of_next_row() {
    let color = ColorCode::new(Color::White, Color::Black);
    let mut writer = writer_at(5, 42, color);
    writer.write_byte(b'\n');
    assert_eq!(writer.row_position, 6);
    assert_eq!(writer.column_position, 0);
    for r in 0..BUFFER_HEIGHT {
        for c in 0..BUFFER_WIDTH {
            assert_eq!(writer.buffer.read_char(r, c), blank(color));
        }
    }
}

#[test]
fn full_row_wraps_to_next_row() {
    let color = ColorCode::new(Color::White, Color::Black);
    let mut writer = writer_at(7, 0, color);
    for _ in 0..BUFFER_WIDTH {
        writer.write_byte(b'z');
    }
    assert_eq!(writer.column_position, BUFFER_WIDTH);
    assert_eq!(writer.row_position, 7);
    writer.write_byte(b'q');
    assert_eq!(writer.row_position, 8);
    assert_eq!(writer.column_position, 1);
    assert_eq!(writer.buffer.read_char(8, 0).ascii_character, b'q');
    assert!(row_text(&writer, 7).iter().all(|b| *b == b'z'));
}

#[test]
fn column_past_the_end_wraps_before_writing() {
    let color = ColorCode::new(Color::White, Color::Black);
    let mut writer = writer_at(2, 500, color);
    writer.write_byte(b'k');
    assert_eq!(writer.row_position, 3);
    assert_eq!(writer.column_position, 1);
    assert_eq!(writer.buffer.read_char(3, 0).ascii_character, b'k');
}

#[test]
fn newline_on_bottom_row_scrolls_up() {
    let color = ColorCode::new(Color::Green, Color::Black);
    let mut writer = writer_at(0, 0, color);
    for r in 0..BUFFER_HEIGHT {
        let letter = b'A' + r as u8;
        for _ in 0..3 {
            writer.write_byte(letter);
        }
        if r + 1 < BUFFER_HEIGHT {
            writer.write_byte(b'\n');
        }
    }
    assert_eq!(writer.row_position, BUFFER_HEIGHT - 1);
    assert_eq!(&row_text(&writer, 0)[..3], b"AAA");
    assert_eq!(&row_text(&writer, 24)[..3], b"YYY");
    writer.color_code = ColorCode::new(Color::Red, Color::Blue);
    writer.write_byte(b'\n');
    assert_eq!(writer.row_position, BUFFER_HEIGHT - 1);
    assert_eq!(writer.column_position, 0);
    assert_eq!(&row_text(&writer, 0)[..3], b"BBB");
    assert_eq!(&row_text(&writer, 23)[..3], b"YYY");
    for c in 0..BUFFER_WIDTH {
        assert_eq!(writer.buffer.read_char(24, c), blank(ColorCode::new(Color::Red, Color::Blue)));
    }
    writer.write_byte(b'Z');
    assert_eq!(writer.buffer.read_char(24, 0).ascii_character, b'Z');
    assert_eq!(writer.row_position, 24);
    assert_eq!(writer.column_position, 1);
}

#[test]
fn wrap_on_bottom_row_scrolls_up() {
    let color = ColorCode::new(Color::White, Color::Black);
    let mut writer = writer_at(24, 0, color);
    for _ in 0..BUFFER_WIDTH {
        writer.write_byte(b'w');
    }
    writer.write_byte(b'n');
    assert_eq!(writer.row_position, 24);
    assert_eq!(writer.column_position, 1);
    assert!(row_text(&writer, 23).iter().all(|b| *b == b'w'));
    assert_eq!(writer.buffer.read_char(24, 0).ascii_character, b'n');
    assert_eq!(writer.buffer.read_char(24, 1), blank(color));
}

#[test]
fn write_string_writes_printable_text() {
    let color = ColorCode::new(Color::Yellow, Color::Black);
    let mut writer = writer_at(0, 0, color);
    writer.write_string("Hello\nWorld");
    assert_eq!(&row_text(&writer, 0)[..6], b"Hello ");
    assert_eq!(&row_text(&writer, 1)[..6], b"World ");
    assert_eq!(writer.row_position, 1);
    assert_eq!(writer.column_position, 5);
}

#[test]
fn write_string_replaces_unprintable_bytes() {
    let color = ColorCode::new(Color::Yellow, Color::Black);
    let mut writer = writer_at(0, 0, color);
    writer.write_string("a\té~\u{7f}");
    let row = row_text(&writer, 0);
    assert_eq!(&row[..7], &[b'a', 0xfe, 0xfe, 0xfe, b'~', 0xfe, b' ']);
    assert_eq!(writer.column_position, 6);
}

#[test]
fn write_string_in_two_parts_equals_whole() {
    let color = ColorCode::new(Color::LightCyan, Color::Black);
    let mut whole = writer_at(22, 70, color);
    whole.write_string("first part\nsecond\tpart\n\nthird part that is long enough to wrap around the row end");
    let mut parts = writer_at(22, 70, color);
    parts.write_string("first part\nsecond\t");
    parts.write_string("part\n\nthird part that is long enough to wrap around the row end");
    assert_eq!(whole.row_position, parts.row_position);
    assert_eq!(whole.column_position, parts.column_position);
    for r in 0..BUFFER_HEIGHT {
        for c in 0..BUFFER_WIDTH {
            assert_eq!(whole.buffer.read_char(r, c), parts.buffer.read_char(r, c));
        }
    }
}

#[test]
fn newlines_below_the_screen_only_scroll() {
    let color = ColorCode::new(Color::White, Color::Black);
    let mut writer = writer_at(0, 0, color);
    writer.write_string("top");
    writer.row_position = 30;
    writer.column_position = 9;
    writer.write_string("\n");
    assert_eq!(writer.row_position, 30);
    assert_eq!(writer.column_position, 0);
    assert_eq!(writer.buffer.read_char(0, 0), blank(color));
}

#[test]
fn empty_string_changes_nothing() {
    let color = ColorCode::new(Color::White, Color::Black);
    let mut writer = writer_at(4, 4, color);
    writer.write_string("");
    assert_eq!(writer.row_position, 4);
    assert_eq!(writer.column_position, 4);
    assert_eq!(writer.buffer.read_char(4, 4), blank(color));
}

#[test]
fn cursor_stays_on_screen_after_long_text() {
    let color = ColorCode::new(Color::White, Color::Black);
    let mut writer = writer_at(0, 0, color);
    let text: String = (0..5000).map(|i| if i % 97 == 0 { '\n' } else { 'x' }).collect();
    writer.write_string(&text);
    assert!(writer.row_position < BUFFER_HEIGHT);
    assert!(writer.column_position <= BUFFER_WIDTH);
}

#[test]
fn write_string_keeps_screen_printable() {
    let color = ColorCode::new(Color::White, Color::Black);
    let mut writer = writer_at(20, 75, color);
    writer.write_string("tab\there, bell\u{7}, é, \u{1b}[0m and text\n\n\n\n\n\nlong tail that wraps");
    for r in 0..BUFFER_HEIGHT {
        for c in 0..BUFFER_WIDTH {
            let b = writer.buffer.read_char(r, c).ascii_character;
            assert!((0x20..=0x7e).contains(&b) || b == 0xfe);
        }
    }
}
