use backseat_safe_system_2k::address_constants::{
    TERMINAL_BUFFER_SIZE, TERMINAL_CURSOR_MODE, TERMINAL_CURSOR_POINTER, TERMINAL_HEIGHT,
    TERMINAL_WIDTH,
};
use backseat_safe_system_2k::cursor::{Cursor, CursorMode};
use backseat_safe_system_2k::memory::Memory;
use backseat_safe_system_2k::terminal::{render, HEIGHT, WIDTH};
use backseat_safe_system_2k::WORD_SIZE;

fn cursor(visible: bool) -> Cursor {
    Cursor {
        visible,
        time_of_next_toggle: 400,
    }
}

fn text(row: &[u8]) -> String {
    row.iter().map(|&byte| byte as char).collect()
}

#[test]
fn terminal_character_width_divisible_by_word_size() {
    assert_eq!(WIDTH % WORD_SIZE as usize, 0);
}

#[test]
fn terminal_has_25_rows_of_80_characters() {
    assert_eq!(WIDTH, 80);
    assert_eq!(HEIGHT, 25);
    assert_eq!(TERMINAL_WIDTH as usize, WIDTH);
    assert_eq!(TERMINAL_HEIGHT as usize, HEIGHT);
    assert_eq!(TERMINAL_BUFFER_SIZE as usize, WIDTH * HEIGHT);
    let memory = Memory::new();
    let grid = render(&memory, &cursor(false));
    assert_eq!(grid.len(), 25);
    for row in &grid {
        assert_eq!(row.len(), 80);
    }
}

#[test]
fn hello_world() {
    let mut memory = Memory::new();
    for (index, &byte) in b"Hello world".iter().enumerate() {
        memory.write_byte(index as u32, byte);
    }
    memory.write_data(TERMINAL_CURSOR_MODE, CursorMode::Invisible.int_value());
    let grid = render(&memory, &cursor(true));
    assert_eq!(
        text(&grid[0]),
        "Hello world                                                                     "
    );
    assert_eq!(grid[0].len(), 80);
    for row in &grid[1..] {
        assert_eq!(text(row), " ".repeat(80));
    }
}

#[test]
fn bytes_that_cannot_be_printed_are_spaces() {
    let mut memory = Memory::new();
    for byte in 0..=255u8 {
        memory.write_byte(byte as u32, byte);
    }
    memory.write_data(TERMINAL_CURSOR_MODE, CursorMode::Invisible.int_value());
    let grid = render(&memory, &cursor(true));
    for byte in 0..=255u8 {
        let shown = grid[byte as usize / 80][byte as usize % 80];
        if byte < 32 {
            assert_eq!(shown, b' ');
        } else {
            assert_eq!(shown, byte);
        }
    }
}

#[test]
fn cursor_is_an_underscore_when_visible() {
    let mut memory = Memory::new();
    memory.write_byte(83, b'x');
    memory.write_data(TERMINAL_CURSOR_POINTER, 83);
    memory.write_data(TERMINAL_CURSOR_MODE, CursorMode::Visible.int_value());
    for phase in [false, true] {
        let grid = render(&memory, &cursor(phase));
        assert_eq!(grid[1][3], b'_');
        assert_eq!(grid[1][2], b' ');
        assert_eq!(grid[0][3], b' ');
    }
    memory.write_data(TERMINAL_CURSOR_MODE, CursorMode::Invisible.int_value());
    for phase in [false, true] {
        let grid = render(&memory, &cursor(phase));
        assert_eq!(grid[1][3], b'x');
    }
    memory.write_data(TERMINAL_CURSOR_MODE, CursorMode::Blinking.int_value());
    assert_eq!(render(&memory, &cursor(true))[1][3], b'_');
    assert_eq!(render(&memory, &cursor(false))[1][3], b'x');
}

#[test]
fn cursor_outside_the_grid_is_not_drawn() {
    let mut memory = Memory::new();
    memory.write_data(TERMINAL_CURSOR_MODE, CursorMode::Visible.int_value());
    memory.write_data(TERMINAL_CURSOR_POINTER, 2000);
    let grid = render(&memory, &cursor(true));
    for row in &grid {
        assert_eq!(text(row), " ".repeat(80));
    }
    memory.write_data(TERMINAL_CURSOR_POINTER, 1999);
    let grid = render(&memory, &cursor(true));
    assert_eq!(grid[24][79], b'_');
}
