use mikeos_vga::vga::{Buffer, Color, ColorCode, ScreenChar, BUFFER_HEIGHT, BUFFER_WIDTH};
use mikeos_vga::writer::{clear_screen, Writer};

fn default_attr() -> ColorCode {
    ColorCode::new(Color::White, Color::Black)
}

fn blank(attr: ColorCode) -> ScreenChar {
    ScreenChar { ascii_char: b' ', color_code: attr }
}

fn fresh_writer() -> Writer {
    let junk = ScreenChar { ascii_char: b'?', color_code: ColorCode(0x4e) };
    let mut w = Writer::new(Buffer::new(junk));
    clear_screen(&mut w);
    w
}

fn row_is(w: &Writer, row: usize, c: ScreenChar) -> bool {
    (0..BUFFER_WIDTH).all(|col| w.cell(row, col) == c)
}

fn snapshot(w: &Writer) -> Vec<ScreenChar> {
    let mut v = Vec::new();
    for r in 0..BUFFER_HEIGHT {
        for c in 0..BUFFER_WIDTH {
            v.push(w.cell(r, c));
        }
    }
    v
}

#[test]
fn color_codes_pack_background_high_foreground_low() {
    assert_eq!(ColorCode::new(Color::White, Color::Black), ColorCode(0x0f));
    assert_eq!(ColorCode::new(Color::Yellow, Color::Blue), ColorCode(0x1e));
    assert_eq!(ColorCode::new(Color::Black, Color::White), ColorCode(0xf0));
    assert_eq!(ColorCode::new(Color::LightGreen, Color::Red), ColorCode(0x4a));
}

#[test]
fn color_values_are_palette_order() {
    assert_eq!(Color::Black.code(), 0);
    assert_eq!(Color::Cyan.code(), 3);
    assert_eq!(Color::LightGray.code(), 7);
    assert_eq!(Color::DarkGray.code(), 8);
    assert_eq!(Color::Pink.code(), 13);
    assert_eq!(Color::White.code(), 15);
}

#[test]
fn new_writer_starts_at_origin_white_on_black() {
    let w = fresh_writer();
    assert_eq!((w.row(), w.col()), (0, 0));
    assert_eq!(w.color_code(), ColorCode(0x0f));
}

#[test]
fn buffer_rows_are_row_major() {
    let mut b = Buffer::new(blank(default_attr()));
    let x = ScreenChar { ascii_char: b'x', color_code: default_attr() };
    b.set_cell(3, 7, x);
    assert_eq!(b.get_cell(3, 7), x);
    let row = b.get_row(3);
    assert_eq!(row.len(), BUFFER_WIDTH);
    assert_eq!(row[7], x);
    assert_eq!(row[6], blank(default_attr()));
    b.set_row(10, &row);
    assert_eq!(b.get_cell(10, 7), x);
    assert_eq!(b.get_cell(10, 8), blank(default_attr()));
    assert_eq!(b.get_cell(9, 7), blank(default_attr()));
}

#[test]
fn ordinary_byte_advances_one_column() {
    let mut w = fresh_writer();
    w.write_str("abc");
    let before = (w.row(), w.col());
    w.write_byte(b'Q');
    assert_eq!((w.row(), w.col()), (before.0, before.1 + 1));
    assert_eq!(w.cell(0, 3), ScreenChar { ascii_char: b'Q', color_code: default_attr() });
}

#[test]
fn byte_on_last_column_wraps_first() {
    let attr = ColorCode::new(Color::Green, Color::Black);
    let buf = Buffer::new(blank(attr));
    let mut w = Writer::with_cursor(buf, 4, BUFFER_WIDTH - 1, attr);
    w.write_byte(b'z');
    assert_eq!((w.row(), w.col()), (5, 1));
    assert_eq!(w.cell(5, 0), ScreenChar { ascii_char: b'z', color_code: attr });
    assert_eq!(w.cell(4, BUFFER_WIDTH - 1), blank(attr));
}

#[test]
fn newline_resets_column_and_writes_nothing() {
    let mut w = fresh_writer();
    w.write_str("hello");
    let before = snapshot(&w);
    w.write_byte(b'\n');
    assert_eq!((w.row(), w.col()), (1, 0));
    assert_eq!(snapshot(&w), before);
}

#[test]
fn newline_at_bottom_scrolls_grid_up() {
    let attr = default_attr();
    let mut buf = Buffer::new(blank(attr));
    for r in 0..BUFFER_HEIGHT {
        for c in 0..BUFFER_WIDTH {
            let ch = ScreenChar { ascii_char: b'A' + (r as u8), color_code: ColorCode(c as u8) };
            buf.set_cell(r, c, ch);
        }
    }
    let mut w = Writer::with_cursor(buf, BUFFER_HEIGHT - 1, 12, attr);
    let before = snapshot(&w);
    w.newline();
    for r in 0..BUFFER_HEIGHT - 1 {
        for c in 0..BUFFER_WIDTH {
            assert_eq!(w.cell(r, c), before[(r + 1) * BUFFER_WIDTH + c]);
        }
    }
    assert!(row_is(&w, BUFFER_HEIGHT - 1, blank(attr)));
    assert_eq!((w.row(), w.col()), (BUFFER_HEIGHT - 1, 0));
}

#[test]
fn newline_above_bottom_moves_down_and_blanks_row() {
    let attr = ColorCode::new(Color::Black, Color::LightGray);
    let fill = ScreenChar { ascii_char: b'#', color_code: default_attr() };
    let buf = Buffer::new(fill);
    let mut w = Writer::with_cursor(buf, 7, 30, attr);
    w.newline();
    assert_eq!((w.row(), w.col()), (8, 0));
    assert!(row_is(&w, 8, blank(attr)));
    assert!(row_is(&w, 7, fill));
    assert!(row_is(&w, 9, fill));
}

#[test]
fn clear_screen_twice_equals_once() {
    let mut w = fresh_writer();
    w.write_str("some text\nmore text");
    clear_screen(&mut w);
    let once = snapshot(&w);
    clear_screen(&mut w);
    assert_eq!(snapshot(&w), once);
    assert!(once.iter().all(|c| *c == blank(default_attr())));
}

#[test]
fn clear_row_blanks_one_row() {
    let mut w = fresh_writer();
    w.write_str("first\nsecond");
    w.clear_row(0);
    assert!(row_is(&w, 0, blank(default_attr())));
    assert_eq!(w.cell(1, 0).ascii_char, b's');
    assert_eq!((w.row(), w.col()), (1, 6));
}

#[test]
fn writing_hi_from_start() {
    let mut w = fresh_writer();
    w.write_str("Hi");
    assert_eq!(w.cell(0, 0), ScreenChar { ascii_char: b'H', color_code: default_attr() });
    assert_eq!(w.cell(0, 1), ScreenChar { ascii_char: b'i', color_code: default_attr() });
    assert_eq!((w.row(), w.col()), (0, 2));
}

#[test]
fn last_column_is_a_wrap_trigger() {
    let mut w = fresh_writer();
    for _ in 0..BUFFER_WIDTH - 1 {
        w.write_byte(b'a');
    }
    assert_eq!((w.row(), w.col()), (0, BUFFER_WIDTH - 1));
    w.write_byte(b'b');
    assert_eq!(w.cell(1, 0), ScreenChar { ascii_char: b'b', color_code: default_attr() });
    assert_eq!(w.cell(0, BUFFER_WIDTH - 1), blank(default_attr()));
    assert_eq!((w.row(), w.col()), (1, 1));
}

#[test]
fn newline_on_bottom_row_shifts_filled_rows() {
    let attr = default_attr();
    let mut buf = Buffer::new(blank(attr));
    let x = ScreenChar { ascii_char: b'X', color_code: attr };
    let y = ScreenChar { ascii_char: b'Y', color_code: attr };
    for c in 0..BUFFER_WIDTH {
        buf.set_cell(BUFFER_HEIGHT - 1, c, x);
        buf.set_cell(BUFFER_HEIGHT - 2, c, y);
    }
    let mut w = Writer::with_cursor(buf, BUFFER_HEIGHT - 1, 5, attr);
    w.write_byte(b'\n');
    assert!(row_is(&w, BUFFER_HEIGHT - 2, x));
    assert!(row_is(&w, BUFFER_HEIGHT - 1, blank(attr)));
    assert!(row_is(&w, BUFFER_HEIGHT - 3, y));
    assert_eq!((w.row(), w.col()), (BUFFER_HEIGHT - 1, 0));
}

#[test]
fn filling_the_grid_scrolls_exactly_once() {
    let mut w = fresh_writer();
    let mut scrolls = 0;
    let n = 1 + BUFFER_HEIGHT * (BUFFER_WIDTH - 1);
    for _ in 0..n {
        let (row, col) = (w.row(), w.col());
        w.write_byte(b'*');
        if row == BUFFER_HEIGHT - 1 && col == BUFFER_WIDTH - 1 {
            scrolls += 1;
        }
    }
    assert_eq!(scrolls, 1);
    assert_eq!((w.row(), w.col()), (BUFFER_HEIGHT - 1, 1));
    let star = ScreenChar { ascii_char: b'*', color_code: default_attr() };
    assert_eq!(w.cell(BUFFER_HEIGHT - 1, 0), star);
    assert_eq!(w.cell(BUFFER_HEIGHT - 1, 1), blank(default_attr()));
    assert_eq!(w.cell(0, BUFFER_WIDTH - 2), star);
}

#[test]
fn write_str_writes_bytes_in_order() {
    let mut w = fresh_writer();
    w.write_str("Hello MikeOS!\n");
    let text: Vec<u8> = (0..13).map(|c| w.cell(0, c).ascii_char).collect();
    assert_eq!(text, b"Hello MikeOS!".to_vec());
    assert_eq!((w.row(), w.col()), (1, 0));
}

#[test]
fn writer_uses_its_own_attribute() {
    let attr = ColorCode::new(Color::Yellow, Color::Blue);
    let mut w = Writer::with_cursor(Buffer::new(blank(attr)), 0, 0, attr);
    w.write_byte(b'k');
    assert_eq!(w.cell(0, 0), ScreenChar { ascii_char: b'k', color_code: ColorCode(0x1e) });
    let b = w.into_buffer();
    assert_eq!(b.get_cell(0, 0).ascii_char, b'k');
}
