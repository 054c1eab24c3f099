use vga_console::cell::ScreenChar;
use vga_console::colour::{Colour, ColourCode};
use vga_console::surface::{Buffer, BUFFER_HEIGHT, BUFFER_WIDTH};
use vga_console::writer::Writer;

fn all_colours() -> Vec<Colour> {
    vec![
        Colour::Black,
        Colour::Blue,
        Colour::Green,
        Colour::Cyan,
        Colour::Red,
        Colour::Magenta,
        Colour::Brown,
        Colour::LightGray,
        Colour::DarkGray,
        Colour::LightBlue,
        Colour::LightGreen,
        Colour::LightCyan,
        Colour::LightRed,
        Colour::Pink,
        Colour::Yellow,
        Colour::White,
    ]
}

fn fresh_writer(colour: ColourCode) -> Writer {
    let blank = ScreenChar::new(0x20, colour);
    Writer::new(Buffer::new(blank), colour)
}

#[test]
fn colour_codes_are_fixed() {
    let colours = all_colours();
    for (i, c) in colours.iter().enumerate() {
        assert_eq!(c.code() as usize, i);
    }
}

#[test]
fn colour_encoding_round_trip_all_pairs() {
    let colours = all_colours();
    for fg in colours.iter() {
        for bg in colours.iter() {
            let code = ColourCode::new(*fg, *bg);
            assert_eq!(code.0 & 0x0F, fg.code());
            assert_eq!(code.0 >> 4, bg.code());
        }
    }
}

#[test]
fn colour_encoding_exact_value() {
    assert_eq!(ColourCode::new(Colour::Red, Colour::White).0, 0xF4);
    assert_eq!(ColourCode::new(Colour::White, Colour::Black).0, 0x0F);
    assert_eq!(ColourCode::new(Colour::Black, Colour::Black).0, 0x00);
}

#[test]
fn cell_layout_glyph_first_colour_second() {
    let cell = ScreenChar::new(0x48, ColourCode::new(Colour::Red, Colour::White));
    let bytes = cell.to_bytes();
    assert_eq!(bytes.0, 0x48);
    assert_eq!(bytes.1, 0xF4);
}

#[test]
fn surface_set_then_get() {
    let colour = ColourCode::new(Colour::Green, Colour::Black);
    let blank = ScreenChar::new(0x20, colour);
    let mut buffer = Buffer::new(blank);
    assert_eq!(buffer.get(0, 0), blank);
    assert_eq!(buffer.get(BUFFER_HEIGHT - 1, BUFFER_WIDTH - 1), blank);
    let marked = ScreenChar::new(0x2A, colour);
    buffer.set(3, 7, marked);
    assert_eq!(buffer.get(3, 7), marked);
    assert_eq!(buffer.get(3, 8), blank);
    assert_eq!(buffer.get(2, 7), blank);
}

#[test]
fn printable_pass_through() {
    let colour = ColourCode::new(Colour::Red, Colour::White);
    let mut w = fresh_writer(colour);
    w.write_string("AB");
    assert_eq!(w.column_position, 2);
    for row in 0..BUFFER_HEIGHT {
        for col in 0..BUFFER_WIDTH {
            let cell = w.buffer.get(row, col);
            if row == BUFFER_HEIGHT - 1 && col == 0 {
                assert_eq!(cell.ascii_character, 0x41);
            } else if row == BUFFER_HEIGHT - 1 && col == 1 {
                assert_eq!(cell.ascii_character, 0x42);
            } else {
                assert_eq!(cell.ascii_character, 0x20);
            }
            assert_eq!(cell.colour_code, colour);
        }
    }
}

#[test]
fn glyph_substitution() {
    let colour = ColourCode::new(Colour::Yellow, Colour::Black);
    let mut w = fresh_writer(colour);
    w.write_string("\u{7F}");
    assert_eq!(w.buffer.get(BUFFER_HEIGHT - 1, 0).ascii_character, 0xFE);
    w.write_string("\u{F6}");
    assert_eq!(w.buffer.get(BUFFER_HEIGHT - 1, 1).ascii_character, 0xFE);
    w.write_string("\u{1F600}");
    assert_eq!(w.buffer.get(BUFFER_HEIGHT - 1, 2).ascii_character, 0xFE);
    w.write_string("\u{07}");
    assert_eq!(w.buffer.get(BUFFER_HEIGHT - 1, 3).ascii_character, 0xFE);
}

#[test]
fn printable_range_boundaries() {
    let colour = ColourCode::new(Colour::White, Colour::Black);
    let mut w = fresh_writer(colour);
    // 0x20 and 0x73 pass through; 0x74 lies past the device's supported
    // upper bound and is substituted; 0x1F lies below and is substituted.
    w.write_string(" s");
    assert_eq!(w.buffer.get(BUFFER_HEIGHT - 1, 0).ascii_character, 0x20);
    assert_eq!(w.buffer.get(BUFFER_HEIGHT - 1, 1).ascii_character, 0x73);
    w.write_string("t");
    assert_eq!(w.buffer.get(BUFFER_HEIGHT - 1, 2).ascii_character, 0xFE);
    w.write_string("\u{1F}");
    assert_eq!(w.buffer.get(BUFFER_HEIGHT - 1, 3).ascii_character, 0xFE);
}

#[test]
fn newline_scrolls_and_resets_column() {
    let colour = ColourCode::new(Colour::Blue, Colour::Black);
    let mut w = fresh_writer(colour);
    w.write_string("hi\n");
    assert_eq!(w.column_position, 0);
    // The line just written moved up one row.
    assert_eq!(w.buffer.get(BUFFER_HEIGHT - 2, 0).ascii_character, 0x68);
    assert_eq!(w.buffer.get(BUFFER_HEIGHT - 2, 1).ascii_character, 0x69);
    // The bottom row is blank again.
    for col in 0..BUFFER_WIDTH {
        assert_eq!(w.buffer.get(BUFFER_HEIGHT - 1, col).ascii_character, 0x20);
    }
}

#[test]
fn write_byte_newline_only_scrolls() {
    let colour = ColourCode::new(Colour::Cyan, Colour::Black);
    let mut w = fresh_writer(colour);
    w.write_byte(b'a');
    assert_eq!(w.column_position, 1);
    w.write_byte(b'\n');
    assert_eq!(w.column_position, 0);
    assert_eq!(w.buffer.get(BUFFER_HEIGHT - 2, 0).ascii_character, b'a');
    assert_eq!(w.buffer.get(BUFFER_HEIGHT - 1, 0).ascii_character, 0x20);
}

#[test]
fn wrap_before_overflow() {
    let colour = ColourCode::new(Colour::Pink, Colour::Black);
    let mut w = fresh_writer(colour);
    let marker = ScreenChar::new(0x2A, colour);
    w.buffer.set(BUFFER_HEIGHT - 2, 5, marker);
    let full_row: String = std::iter::repeat('a').take(BUFFER_WIDTH).collect();
    w.write_string(&full_row);
    // Exactly the bottom row is full; no scroll has happened yet.
    assert_eq!(w.column_position, BUFFER_WIDTH);
    for col in 0..BUFFER_WIDTH {
        assert_eq!(w.buffer.get(BUFFER_HEIGHT - 1, col).ascii_character, b'a');
    }
    assert_eq!(w.buffer.get(BUFFER_HEIGHT - 2, 5), marker);
    // One more character scrolls exactly once, then lands at column 0.
    w.write_string("b");
    assert_eq!(w.column_position, 1);
    assert_eq!(w.buffer.get(BUFFER_HEIGHT - 1, 0).ascii_character, b'b');
    for col in 1..BUFFER_WIDTH {
        assert_eq!(w.buffer.get(BUFFER_HEIGHT - 1, col).ascii_character, 0x20);
    }
    for col in 0..BUFFER_WIDTH {
        assert_eq!(w.buffer.get(BUFFER_HEIGHT - 2, col).ascii_character, b'a');
    }
    assert_eq!(w.buffer.get(BUFFER_HEIGHT - 3, 5), marker);
}

#[test]
fn scroll_correctness() {
    let colour = ColourCode::new(Colour::LightGreen, Colour::DarkGray);
    let mut w = fresh_writer(colour);
    // Give every row its own contents.
    for row in 0..BUFFER_HEIGHT {
        for col in 0..BUFFER_WIDTH {
            let glyph = 0x20 + ((row * 3 + col * 7) % 0x54) as u8;
            w.buffer.set(row, col, ScreenChar::new(glyph, colour));
        }
    }
    let mut before = Vec::new();
    for row in 0..BUFFER_HEIGHT {
        let mut cells = Vec::new();
        for col in 0..BUFFER_WIDTH {
            cells.push(w.buffer.get(row, col));
        }
        before.push(cells);
    }
    w.new_line();
    assert_eq!(w.column_position, 0);
    for row in 0..BUFFER_HEIGHT - 1 {
        for col in 0..BUFFER_WIDTH {
            assert_eq!(w.buffer.get(row, col), before[row + 1][col]);
        }
    }
    for col in 0..BUFFER_WIDTH {
        let cell = w.buffer.get(BUFFER_HEIGHT - 1, col);
        assert_eq!(cell.ascii_character, 0x20);
        assert_eq!(cell.colour_code, colour);
    }
}

#[test]
fn idempotent_colour_state() {
    let colour = ColourCode::new(Colour::Brown, Colour::LightGray);
    let mut w = fresh_writer(colour);
    w.write_string("AB");
    w.write_string("CD");
    let first = w.buffer.get(BUFFER_HEIGHT - 1, 0).colour_code;
    for col in 0..4 {
        assert_eq!(w.buffer.get(BUFFER_HEIGHT - 1, col).colour_code, first);
    }
    assert_eq!(first, colour);
}
