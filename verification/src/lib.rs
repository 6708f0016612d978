//! The core of an emulator for the backseat-safe-system-2k, a 32-bit register
//! machine with a flat 16 MiB memory, a text terminal, two framebuffers, a
//! keyboard and a wall-clock timer.

use vstd::prelude::*;

pub mod address_constants;
pub mod memory;
pub mod opcodes;
pub mod timer;
pub mod keyboard;
pub mod cursor;
pub mod display;
pub mod semantics;
pub mod processor;
pub mod periphery;
pub mod laws;
pub mod debugger;
pub mod terminal;
pub mod machine;
pub mod rom;
pub mod dumper;
pub mod pacing;

verus! {

/// One encoded instruction: an opcode and its operands.
pub type Instruction = u64;

pub type Word = u32;

pub type Halfword = u16;

pub type Byte = u8;

pub type Address = u32;

/// The number of bytes of an instruction in memory.
pub const INSTRUCTION_SIZE: u32 = 8;

/// The number of bytes of a word in memory.
pub const WORD_SIZE: u32 = 4;

/// The number of bytes of a halfword in memory.
pub const HALFWORD_SIZE: u32 = 2;

/// A word as its two halfwords.
pub trait AsHalfwords {
    /// The upper halfword of the value, and its lower one.
    spec fn halfwords(&self) -> (Halfword, Halfword);

    fn as_halfwords(&self) -> (halves: (Halfword, Halfword))
        ensures
            halves == self.halfwords(),
    ;
}

impl AsHalfwords for Word {
    open spec fn halfwords(&self) -> (Halfword, Halfword) {
        ((*self / 0x1_0000) as Halfword, (*self % 0x1_0000) as Halfword)
    }

    fn as_halfwords(&self) -> (halves: (Halfword, Halfword)) {
        ((*self / 0x1_0000) as Halfword, (*self % 0x1_0000) as Halfword)
    }
}

/// An instruction as its two words.
pub trait AsWords {
    /// The upper word of the value, and its lower one.
    spec fn words(&self) -> (Word, Word);

    fn as_words(&self) -> (halves: (Word, Word))
        ensures
            halves == self.words(),
    ;
}

impl AsWords for Instruction {
    open spec fn words(&self) -> (Word, Word) {
        ((*self / 0x1_0000_0000) as Word, (*self % 0x1_0000_0000) as Word)
    }

    fn as_words(&self) -> (halves: (Word, Word)) {
        ((*self / 0x1_0000_0000) as Word, (*self % 0x1_0000_0000) as Word)
    }
}

/// A value is its upper half times the weight of a half, plus its lower half.
pub proof fn halves_make_the_whole(word: Word, instruction: Instruction)
    ensures
        word == word.halfwords().0 * 0x1_0000 + word.halfwords().1,
        instruction == instruction.words().0 * 0x1_0000_0000 + instruction.words().1,
        crate::opcodes::code_field(instruction) == instruction.words().0.halfwords().0,
        crate::opcodes::constant_field(instruction) == instruction.words().1,
{
}

/// The index of one of the 256 registers.
#[derive(Clone, Copy, Debug, PartialEq, Eq, Structural)]
pub struct Register(pub u8);

impl Register {
    /// The position of the register in the register file.
    pub open spec fn index(self) -> int {
        self.0 as int
    }
}

impl vstd::std_specs::convert::FromSpecImpl<u8> for Register {
    open spec fn obeys_from_spec() -> bool {
        true
    }

    open spec fn from_spec(value: u8) -> Register {
        Register(value)
    }
}

impl From<u8> for Register {
    fn from(value: u8) -> (register: Self) {
        Self(value)
    }
}

} // verus!
