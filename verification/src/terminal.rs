//! The text terminal: the grid of characters that the terminal buffer and the
//! cursor stand for.

use vstd::prelude::*;
use crate::address_constants::{TERMINAL_BUFFER_START, TERMINAL_CURSOR_MODE, TERMINAL_CURSOR_POINTER};
use crate::cursor::Cursor;
use crate::memory::{accessible_means, word_at, Memory, MEMORY_SIZE};
use crate::Word;

verus! {

/// The number of columns.
pub const WIDTH: usize = 80;

/// The number of rows.
pub const HEIGHT: usize = 25;

/// The character that shows the cursor.
pub const CURSOR_GLYPH: u8 = 95;

/// The character that a byte of the terminal buffer is shown as: a space for
/// a byte below 32, which cannot be printed, and the byte itself otherwise.
pub open spec fn glyph(byte: u8) -> u8 {
    if byte < 32 {
        32
    } else {
        byte
    }
}

/// The cell of the grid that the cursor pointer names, counted row by row
/// from the first cell.
pub open spec fn cursor_cell(memory: Seq<u8>) -> int {
    word_at(memory, TERMINAL_CURSOR_POINTER as int) - TERMINAL_BUFFER_START
}

/// Whether the cursor is drawn: by the cursor's mode in memory and the blink
/// phase of `cursor`.
pub open spec fn cursor_shown(memory: Seq<u8>, cursor: Cursor) -> bool {
    cursor.shows(word_at(memory, TERMINAL_CURSOR_MODE as int))
}

/// The character in `row` and `column` of the grid: an underscore where the
/// cursor is drawn, and else the glyph of the byte that the terminal buffer
/// holds for the cell.
pub open spec fn cell(memory: Seq<u8>, cursor: Cursor, row: int, column: int) -> u8 {
    if cursor_shown(memory, cursor) && row * WIDTH + column == cursor_cell(memory) {
        CURSOR_GLYPH
    } else {
        glyph(memory[TERMINAL_BUFFER_START + row * WIDTH + column])
    }
}

/// Whether `grid` is the grid for `memory` and `cursor`: 25 rows of 80
/// characters, each the one that `cell` gives.
pub open spec fn shows(grid: Seq<Vec<u8>>, memory: Seq<u8>, cursor: Cursor) -> bool {
    &&& grid.len() == HEIGHT
    &&& forall|row: int| 0 <= row < HEIGHT ==> (#[trigger] grid[row])@.len() == WIDTH
    &&& forall|row: int, column: int|
        0 <= row < HEIGHT && 0 <= column < WIDTH ==> #[trigger] grid[row]@[column] == cell(
            memory,
            cursor,
            row,
            column,
        )
}

/// One row of the grid.
fn render_row(memory: &Memory, shown: bool, cursor_cell: Word, row: usize) -> (line: Vec<u8>)
    requires
        memory.wf(),
        row < HEIGHT,
    ensures
        line@.len() == WIDTH,
        forall|column: int|
            0 <= column < WIDTH ==> #[trigger] line@[column] == if shown && row * WIDTH + column
                == cursor_cell {
                CURSOR_GLYPH
            } else {
                glyph(memory@[row * WIDTH + column])
            },
{
    let mut line: Vec<u8> = Vec::with_capacity(WIDTH);
    let mut column: usize = 0;
    while column < WIDTH
        invariant
            memory.wf(),
            row < HEIGHT,
            column <= WIDTH,
            line@.len() == column,
            forall|c: int|
                0 <= c < column ==> #[trigger] line@[c] == if shown && row * WIDTH + c
                    == cursor_cell {
                    CURSOR_GLYPH
                } else {
                    glyph(memory@[row * WIDTH + c])
                },
        decreases WIDTH - column,
    {
        let index: usize = row * WIDTH + column;
        proof {
            accessible_means(index as int, 1);
        }
        let byte: u8 = memory.read_byte(index as u32);
        let character: u8 = if shown && index as u64 == cursor_cell as u64 {
            CURSOR_GLYPH
        } else if byte < 32 {
            32
        } else {
            byte
        };
        line.push(character);
        column = column + 1;
    }
    line
}

/// The grid of characters that the terminal shows.
pub fn render(memory: &Memory, cursor: &Cursor) -> (grid: Vec<Vec<u8>>)
    requires
        memory.wf(),
    ensures
        shows(grid@, memory@, *cursor),
{
    proof {
        accessible_means(TERMINAL_CURSOR_POINTER as int, 4);
        accessible_means(TERMINAL_CURSOR_MODE as int, 4);
    }
    let cursor_pointer: Word = memory.read_data(TERMINAL_CURSOR_POINTER);
    let shown: bool = cursor.is_shown(memory.read_data(TERMINAL_CURSOR_MODE));
    let mut grid: Vec<Vec<u8>> = Vec::with_capacity(HEIGHT);
    let mut row: usize = 0;
    while row < HEIGHT
        invariant
            memory.wf(),
            row <= HEIGHT,
            grid@.len() == row,
            cursor_pointer == word_at(memory@, TERMINAL_CURSOR_POINTER as int),
            shown == cursor_shown(memory@, *cursor),
            forall|r: int| 0 <= r < row ==> (#[trigger] grid@[r])@.len() == WIDTH,
            forall|r: int, c: int|
                0 <= r < row && 0 <= c < WIDTH ==> #[trigger] grid@[r]@[c] == cell(
                    memory@,
                    *cursor,
                    r,
                    c,
                ),
        decreases HEIGHT - row,
    {
        let line: Vec<u8> = render_row(memory, shown, cursor_pointer, row);
        grid.push(line);
        row = row + 1;
    }
    grid
}

} // verus!
