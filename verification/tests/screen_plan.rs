use kvfs::{
    CellWrite, IScreen, Position, Screen, BUFFER_HEIGHT, SCREEN_HEIGHT, SCREEN_WIDTH,
    VGA_PORT_DATA, VGA_PORT_INDEX,
};

#[test]
fn putc_computes_the_exact_cell_write() {
    let w = Screen::putc(Position(0, 0), 'A', 7);
    assert_eq!(w, CellWrite { addr: 0xb8000, cell: 65 + 7 * 256 });
    let w = Screen::putc(Position(1, 2), 'B', 0x1f);
    assert_eq!(w, CellWrite { addr: 0xb8000 + 160 + 4, cell: 66 + 0x1f * 256 });
}

#[test]
fn print_line_plans_one_write_per_column() {
    let row = ['x'; SCREEN_WIDTH];
    let writes = Screen::print_line(&row, 3, 2);
    assert_eq!(writes.len(), SCREEN_WIDTH);
    assert_eq!(writes[0], Screen::putc(Position(3, 0), 'x', 2));
    assert_eq!(writes[79], Screen::putc(Position(3, 79), 'x', 2));
}

#[test]
fn put_cursor_sends_offset_through_the_ports() {
    let writes = Screen::put_cursor(Position(2, 5));
    let offset = 2 * SCREEN_WIDTH as u16 + 5;
    assert_eq!(
        writes,
        vec![
            (VGA_PORT_INDEX, 0x0f),
            (VGA_PORT_DATA, (offset % 256) as u8),
            (VGA_PORT_INDEX, 0x0e),
            (VGA_PORT_DATA, (offset / 256) as u8),
        ]
    );
}

#[test]
fn draw_covers_the_screen_row_by_row() {
    let mut buf = [[' '; SCREEN_WIDTH]; BUFFER_HEIGHT];
    buf[0][0] = 'a';
    buf[10][0] = 'b';
    buf[34][0] = 'c';
    let writes = Screen::draw(&buf, 10, 7);
    assert_eq!(writes.len(), SCREEN_HEIGHT * SCREEN_WIDTH);
    // screen row 0 shows buffer row 10
    assert_eq!(writes[0], Screen::putc(Position(0, 0), 'b', 7));
    // screen row 24 shows buffer row 34
    assert_eq!(writes[24 * SCREEN_WIDTH], Screen::putc(Position(24, 0), 'c', 7));
}

#[test]
fn draw_wraps_to_the_first_buffer_row() {
    let mut buf = [[' '; SCREEN_WIDTH]; BUFFER_HEIGHT];
    buf[0][0] = 'w';
    buf[99][0] = 'z';
    let writes = Screen::draw(&buf, 99, 1);
    // screen row 0 shows the last buffer row
    assert_eq!(writes[0], Screen::putc(Position(0, 0), 'z', 1));
    // every later screen row repeats the first buffer row
    assert_eq!(writes[SCREEN_WIDTH], Screen::putc(Position(1, 0), 'w', 1));
    assert_eq!(writes[24 * SCREEN_WIDTH], Screen::putc(Position(24, 0), 'w', 1));
}
