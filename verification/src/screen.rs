use vstd::prelude::*;

verus! {

/// Columns of the VGA text screen.
pub const SCREEN_WIDTH: usize = 80;

/// Rows of the VGA text screen.
pub const SCREEN_HEIGHT: usize = 25;

/// Rows of the scrollback buffer a console keeps behind the screen.
pub const BUFFER_HEIGHT: usize = 100;

/// First byte of the memory-mapped VGA text area.
pub const VGA_TEXT_START: u32 = 0xb8000;

/// The cursor-index register port of the VGA controller.
pub const VGA_PORT_INDEX: u16 = 0x3d4;

/// The cursor-data register port of the VGA controller.
pub const VGA_PORT_DATA: u16 = 0x3d5;

/// A position on the screen: row, then column.
#[derive(Clone, Copy, Debug, PartialEq, Eq, Structural)]
pub struct Position(pub u8, pub u8);

/// One planned write of a character cell: the absolute byte address in
/// the VGA text area and the value to store there — the character in the
/// low byte and the attribute above it. The device write itself is the
/// kernel's; computing where and what is pure.
#[derive(Clone, Copy, Debug, PartialEq, Eq, Structural)]
pub struct CellWrite {
    pub addr: u32,
    pub cell: u32,
}

/// The planned cell write for one character at one position.
pub open spec fn spec_cell_write(pos: Position, c: char, attr: u8) -> CellWrite {
    CellWrite {
        addr: (VGA_TEXT_START + pos.0 * 160 + pos.1 * 2) as u32,
        cell: (c as u32 + attr as u32 * 256) as u32,
    }
}

/// The buffer row that screen row `row` shows when drawing starts at
/// buffer row `line`: rows past the end of the buffer repeat its first
/// row, exactly as the console's wrap-around draws them.
pub open spec fn spec_source_row(line: int, row: int) -> int {
    if line + row < BUFFER_HEIGHT {
        line + row
    } else {
        0
    }
}

/// The screen driver contract: compute the exact cell and cursor writes
/// that realize a console buffer on the device.
pub trait IScreen {
    /// Plan the writes that draw the whole screen from the buffer,
    /// starting at buffer row `line`: one write per screen cell, row by
    /// row.
    fn draw(buf: &[[char; SCREEN_WIDTH]; BUFFER_HEIGHT], line: usize, attr: u8) -> (r: Vec<
        CellWrite,
    >)
        requires
            line < BUFFER_HEIGHT,
        ensures
            r@.len() == SCREEN_HEIGHT * SCREEN_WIDTH,
            forall|row: int, col: int|
                0 <= row < SCREEN_HEIGHT && 0 <= col < SCREEN_WIDTH ==> r@[row * SCREEN_WIDTH
                    + col] == spec_cell_write(
                    Position(row as u8, col as u8),
                    buf@[spec_source_row(line as int, row)]@[col],
                    attr,
                ),
    ;

    /// Plan the write of one character cell at one position.
    fn putc(pos: Position, c: char, attr: u8) -> (r: CellWrite)
        ensures
            r == spec_cell_write(pos, c, attr),
    ;

    /// Plan the port writes that move the hardware cursor: the cursor
    /// offset is the row-major cell index, sent low byte then high byte
    /// through the controller's index and data ports.
    fn put_cursor(pos: Position) -> (r: Vec<(u16, u8)>)
        ensures
            r@.len() == 4,
            r@[0] == (VGA_PORT_INDEX, 0x0fu8),
            r@[1].0 == VGA_PORT_DATA && r@[1].1 == (pos.0 * SCREEN_WIDTH + pos.1) % 256,
            r@[2] == (VGA_PORT_INDEX, 0x0eu8),
            r@[3].0 == VGA_PORT_DATA && r@[3].1 == (pos.0 * SCREEN_WIDTH + pos.1) / 256,
    ;
}

/// The VGA text screen, as a pure planner of device writes.
#[derive(Clone, Copy, Debug, PartialEq, Eq, Structural)]
pub struct Screen;

impl IScreen for Screen {
    fn draw(buf: &[[char; SCREEN_WIDTH]; BUFFER_HEIGHT], line: usize, attr: u8) -> (r: Vec<
        CellWrite,
    >) {
        let mut out: Vec<CellWrite> = Vec::new();
        let mut src: usize = line;
        let mut index: usize = 0;
        while src < BUFFER_HEIGHT && index < SCREEN_HEIGHT
            invariant
                line < BUFFER_HEIGHT,
                src == line + index,
                index <= SCREEN_HEIGHT,
                out@.len() == index * SCREEN_WIDTH,
                forall|row: int, col: int|
                    0 <= row < index && 0 <= col < SCREEN_WIDTH ==> out@[row * SCREEN_WIDTH + col]
                        == spec_cell_write(
                        Position(row as u8, col as u8),
                        buf@[spec_source_row(line as int, row)]@[col],
                        attr,
                    ),
            decreases SCREEN_HEIGHT - index,
        {
            let mut writes = Screen::print_line(&buf[src], index as u8, attr);
            let ghost pre = out@;
            out.append(&mut writes);
            proof {
                lemma_draw_row_append(pre, out@, line as int, index as int, buf@, attr);
            }
            src += 1;
            index += 1;
        }
        while index < SCREEN_HEIGHT
            invariant
                line < BUFFER_HEIGHT,
                index <= SCREEN_HEIGHT,
                index < SCREEN_HEIGHT ==> line + index >= BUFFER_HEIGHT,
                out@.len() == index * SCREEN_WIDTH,
                forall|row: int, col: int|
                    0 <= row < index && 0 <= col < SCREEN_WIDTH ==> out@[row * SCREEN_WIDTH + col]
                        == spec_cell_write(
                        Position(row as u8, col as u8),
                        buf@[spec_source_row(line as int, row)]@[col],
                        attr,
                    ),
            decreases SCREEN_HEIGHT - index,
        {
            let mut writes = Screen::print_line(&buf[0], index as u8, attr);
            let ghost pre = out@;
            out.append(&mut writes);
            proof {
                lemma_draw_row_append(pre, out@, line as int, index as int, buf@, attr);
            }
            index += 1;
        }
        out
    }

    fn putc(pos: Position, c: char, attr: u8) -> (r: CellWrite) {
        let addr: u32 = VGA_TEXT_START + (pos.0 as u32) * 160 + (pos.1 as u32) * 2;
        proof {
            vstd::utf8::char_is_scalar(c);
        }
        let cell: u32 = (c as u32) + (attr as u32) * 256;
        CellWrite { addr, cell }
    }

    fn put_cursor(pos: Position) -> (r: Vec<(u16, u8)>) {
        let offset: u16 = (pos.0 as u16) * (SCREEN_WIDTH as u16) + (pos.1 as u16);
        let mut out: Vec<(u16, u8)> = Vec::new();
        out.push((VGA_PORT_INDEX, 0x0f));
        out.push((VGA_PORT_DATA, (offset % 256) as u8));
        out.push((VGA_PORT_INDEX, 0x0e));
        out.push((VGA_PORT_DATA, (offset / 256) as u8));
        proof {
            assert(offset == pos.0 * SCREEN_WIDTH + pos.1);
        }
        out
    }
}

/// Appending one planned row extends a row-major write plan by one row.
proof fn lemma_draw_row_append(
    pre: Seq<CellWrite>,
    post: Seq<CellWrite>,
    line: int,
    index: int,
    buf: Seq<[char; SCREEN_WIDTH]>,
    attr: u8,
)
    requires
        0 <= index < SCREEN_HEIGHT,
        0 <= line < BUFFER_HEIGHT,
        buf.len() == BUFFER_HEIGHT,
        pre.len() == index * SCREEN_WIDTH,
        forall|row: int, col: int|
            0 <= row < index && 0 <= col < SCREEN_WIDTH ==> pre[row * SCREEN_WIDTH + col]
                == spec_cell_write(
                Position(row as u8, col as u8),
                buf[spec_source_row(line, row)]@[col],
                attr,
            ),
        post.len() == pre.len() + SCREEN_WIDTH,
        forall|j: int| 0 <= j < pre.len() ==> post[j] == pre[j],
        forall|col: int|
            0 <= col < SCREEN_WIDTH ==> post[pre.len() + col] == spec_cell_write(
                Position(index as u8, col as u8),
                buf[spec_source_row(line, index)]@[col],
                attr,
            ),
    ensures
        post.len() == (index + 1) * SCREEN_WIDTH,
        forall|row: int, col: int|
            0 <= row < index + 1 && 0 <= col < SCREEN_WIDTH ==> post[row * SCREEN_WIDTH + col]
                == spec_cell_write(
                Position(row as u8, col as u8),
                buf[spec_source_row(line, row)]@[col],
                attr,
            ),
{
    assert forall|row: int, col: int|
        0 <= row < index + 1 && 0 <= col < SCREEN_WIDTH implies post[row * SCREEN_WIDTH + col]
        == spec_cell_write(
        Position(row as u8, col as u8),
        buf[spec_source_row(line, row)]@[col],
        attr,
    ) by {
        if row < index {
            assert(0 <= row * SCREEN_WIDTH + col < pre.len()) by (nonlinear_arith)
                requires
                    0 <= row < index,
                    0 <= col < SCREEN_WIDTH,
                    pre.len() == index * SCREEN_WIDTH,
            ;
            assert(post[row * SCREEN_WIDTH + col] == pre[row * SCREEN_WIDTH + col]);
        } else {
            assert(row * SCREEN_WIDTH + col == pre.len() + col);
        }
    }
}

impl Screen {
    /// Plan the writes of one buffer row onto screen row `line`: one cell
    /// write per column, left to right.
    pub fn print_line(buf: &[char; SCREEN_WIDTH], line: u8, attr: u8) -> (r: Vec<CellWrite>)
        ensures
            r@.len() == SCREEN_WIDTH,
            forall|col: int|
                0 <= col < SCREEN_WIDTH ==> r@[col] == spec_cell_write(
                    Position(line, col as u8),
                    buf@[col],
                    attr,
                ),
    {
        let mut out: Vec<CellWrite> = Vec::new();
        let mut i: usize = 0;
        while i < SCREEN_WIDTH
            invariant
                i <= SCREEN_WIDTH,
                out@.len() == i,
                forall|col: int|
                    0 <= col < i ==> out@[col] == spec_cell_write(
                        Position(line, col as u8),
                        buf@[col],
                        attr,
                    ),
            decreases SCREEN_WIDTH - i,
        {
            let pos = Position(line, i as u8);
            out.push(Screen::putc(pos, buf[i], attr));
            i += 1;
        }
        out
    }
}

} // verus!
