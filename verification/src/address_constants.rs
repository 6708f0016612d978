//! The fixed layout of the memory image: terminal buffer, cursor words, the
//! two framebuffers, the stack and, behind it, code and data.

use vstd::prelude::*;
use crate::Address;

verus! {

/// Columns of the text terminal.
pub const TERMINAL_WIDTH: u32 = 80;

/// Rows of the text terminal.
pub const TERMINAL_HEIGHT: u32 = 25;

/// Pixels in one row of a framebuffer.
pub const DISPLAY_WIDTH: u32 = 480;

/// Rows of a framebuffer.
pub const DISPLAY_HEIGHT: u32 = 360;

pub const TERMINAL_BUFFER_START: Address = 0;

/// One byte for each character cell.
pub const TERMINAL_BUFFER_SIZE: u32 = 2000;

pub const TERMINAL_BUFFER_END: Address = 2000;

/// The word that holds the cursor's position.
pub const TERMINAL_CURSOR_POINTER: Address = 2000;

/// The word that holds the cursor's mode.
pub const TERMINAL_CURSOR_MODE: Address = 2004;

/// Four bytes (RGBA) for each pixel.
pub const FRAMEBUFFER_SIZE: u32 = 691200;

pub const FIRST_FRAMEBUFFER_START: Address = 2008;

pub const SECOND_FRAMEBUFFER_START: Address = 693208;

pub const STACK_START: Address = 1384408;

pub const STACK_SIZE: u32 = 524288;

/// The first address behind the stack region.
pub const STACK_END: Address = 1908696;

/// Where execution starts, and where a ROM is loaded.
pub const ENTRY_POINT: Address = 1908696;

/// The regions follow each other without a gap, in the order terminal buffer,
/// cursor pointer, cursor mode, first framebuffer, second framebuffer, stack,
/// code; and the entry point is aligned for instructions.
pub proof fn layout_is_contiguous()
    ensures
        TERMINAL_BUFFER_SIZE == TERMINAL_WIDTH * TERMINAL_HEIGHT,
        TERMINAL_BUFFER_END == TERMINAL_BUFFER_START + TERMINAL_BUFFER_SIZE,
        TERMINAL_CURSOR_POINTER == TERMINAL_BUFFER_END,
        TERMINAL_CURSOR_MODE == TERMINAL_CURSOR_POINTER + 4,
        FIRST_FRAMEBUFFER_START == TERMINAL_CURSOR_MODE + 4,
        FRAMEBUFFER_SIZE == DISPLAY_WIDTH * DISPLAY_HEIGHT * 4,
        DISPLAY_HEIGHT == DISPLAY_WIDTH / 4 * 3,
        SECOND_FRAMEBUFFER_START == FIRST_FRAMEBUFFER_START + FRAMEBUFFER_SIZE,
        STACK_START == SECOND_FRAMEBUFFER_START + FRAMEBUFFER_SIZE,
        STACK_SIZE == 512 * 1024,
        STACK_END == STACK_START + STACK_SIZE,
        ENTRY_POINT == STACK_END,
        ENTRY_POINT % 8 == 0,
        STACK_START % 4 == 0,
        ENTRY_POINT < crate::memory::MEMORY_SIZE,
{
}

} // verus!
