//! Programs as bytes: a ROM is the instruction words of its opcodes, eight
//! big-endian bytes each, one behind the other. It is loaded at the entry
//! point.

use vstd::prelude::*;
use crate::address_constants::ENTRY_POINT;
use crate::memory::{
    instruction_at, push_word, word_bytes, word_bytes_read_back, Memory, MEMORY_SIZE,
};
use crate::opcodes::{decoding_inverts_encoding, Opcode};
use crate::{Instruction, Word};

verus! {

/// The eight bytes of an instruction word, the most significant first: the
/// bytes of its upper word, then those of its lower word.
pub open spec fn instruction_bytes(instruction: Instruction) -> Seq<u8> {
    word_bytes((instruction / 0x1_0000_0000) as Word) + word_bytes(
        (instruction % 0x1_0000_0000) as Word,
    )
}

/// The bytes of a program: the bytes of the instruction word of each opcode,
/// in the order of the opcodes.
pub open spec fn machine_code(opcodes: Seq<Opcode>) -> Seq<u8>
    decreases opcodes.len(),
{
    if opcodes.len() == 0 {
        Seq::empty()
    } else {
        machine_code(opcodes.drop_last()) + instruction_bytes(opcodes.last().encoding())
    }
}

/// Why a ROM cannot be loaded.
#[derive(Clone, Copy, Debug, PartialEq, Eq, Structural)]
pub enum LoadError {
    /// The ROM of this size does not fit behind the entry point.
    TooBig(usize),
    /// The size of the ROM is no multiple of the size of a word.
    NotWords(usize),
}

/// The number of bytes that a ROM may have.
pub const ROM_SPACE: usize = 14868520;

/// The bytes of the program `instructions`.
pub fn opcodes_to_machine_code(instructions: &[Opcode]) -> (code: Vec<u8>)
    ensures
        code@ == machine_code(instructions@),
{
    let mut code: Vec<u8> = Vec::new();
    let mut done: usize = 0;
    while done < instructions.len()
        invariant
            done <= instructions@.len(),
            code@ == machine_code(instructions@.take(done as int)),
        decreases instructions@.len() - done,
    {
        let word: Instruction = instructions[done].as_instruction();
        let ghost earlier = code@;
        push_word(&mut code, (word / 0x1_0000_0000) as Word);
        push_word(&mut code, (word % 0x1_0000_0000) as Word);
        proof {
            let now = instructions@.take(done + 1);
            assert(now.drop_last() =~= instructions@.take(done as int));
            assert(now.last() == instructions@[done as int]);
            assert(code@ =~= earlier + instruction_bytes(word));
        }
        done = done + 1;
    }
    assert(instructions@.take(done as int) =~= instructions@);
    code
}

/// Loads the ROM `buffer` at the entry point.
///
/// A ROM that does not fit behind the entry point is too big, and one whose
/// size is no multiple of four is not made of words; neither is loaded.
pub fn write_buffer(buffer: &[u8], memory: &mut Memory) -> (result: Result<(), LoadError>)
    requires
        old(memory).wf(),
    ensures
        final(memory).wf(),
        match result {
            Ok(()) => {
                &&& buffer@.len() <= ROM_SPACE
                &&& buffer@.len() % 4 == 0
                &&& final(memory)@ == old(memory)@.subrange(0, ENTRY_POINT as int) + buffer@ + old(
                    memory,
                )@.subrange(ENTRY_POINT + buffer@.len(), MEMORY_SIZE as int)
            },
            Err(LoadError::TooBig(size)) => {
                &&& buffer@.len() > ROM_SPACE
                &&& size == buffer@.len()
                &&& final(memory)@ == old(memory)@
            },
            Err(LoadError::NotWords(size)) => {
                &&& buffer@.len() <= ROM_SPACE
                &&& buffer@.len() % 4 != 0
                &&& size == buffer@.len()
                &&& final(memory)@ == old(memory)@
            },
        },
{
    if MEMORY_SIZE - (ENTRY_POINT as usize) < buffer.len() {
        return Err(LoadError::TooBig(buffer.len()));
    }
    if buffer.len() % 4 != 0 {
        return Err(LoadError::NotWords(buffer.len()));
    }
    memory.load(ENTRY_POINT, buffer);
    Ok(())
}

/// The instruction word is read back from its own bytes, wherever they
/// stand.
pub proof fn instruction_bytes_read_back(bytes: Seq<u8>, address: int, instruction: Instruction)
    requires
        0 <= address,
        address + 8 <= bytes.len(),
        bytes.subrange(address, address + 8) == instruction_bytes(instruction),
    ensures
        instruction_at(bytes, address) == instruction,
{
    reveal(instruction_at);
    let upper = (instruction / 0x1_0000_0000) as Word;
    let lower = (instruction % 0x1_0000_0000) as Word;
    let part = bytes.subrange(address, address + 8);
    assert(bytes.subrange(address, address + 4) =~= part.subrange(0, 4));
    assert(bytes.subrange(address + 4, address + 8) =~= part.subrange(4, 8));
    assert(part.subrange(0, 4) =~= word_bytes(upper));
    assert(part.subrange(4, 8) =~= word_bytes(lower));
    word_bytes_read_back(bytes, address, upper);
    word_bytes_read_back(bytes, address + 4, lower);
}

/// The machine code of a program has eight bytes for each opcode, and the
/// bytes of the opcode at `index` stand at eight times `index`.
pub proof fn machine_code_holds_each_opcode(opcodes: Seq<Opcode>, index: int)
    requires
        0 <= index < opcodes.len(),
    ensures
        machine_code(opcodes).len() == 8 * opcodes.len(),
        machine_code(opcodes).subrange(8 * index, 8 * index + 8) == instruction_bytes(
            opcodes[index].encoding(),
        ),
    decreases opcodes.len(),
{
    machine_code_has_eight_bytes_each(opcodes);
    let front = opcodes.drop_last();
    machine_code_has_eight_bytes_each(front);
    if index == opcodes.len() - 1 {
        assert(machine_code(opcodes).subrange(8 * index, 8 * index + 8) =~= instruction_bytes(
            opcodes[index].encoding(),
        ));
    } else {
        machine_code_holds_each_opcode(front, index);
        assert(machine_code(opcodes).subrange(8 * index, 8 * index + 8) =~= machine_code(
            front,
        ).subrange(8 * index, 8 * index + 8));
    }
}

/// The machine code of a program has eight bytes for each opcode.
pub proof fn machine_code_has_eight_bytes_each(opcodes: Seq<Opcode>)
    ensures
        machine_code(opcodes).len() == 8 * opcodes.len(),
    decreases opcodes.len(),
{
    if opcodes.len() > 0 {
        machine_code_has_eight_bytes_each(opcodes.drop_last());
    }
}

/// A program that was loaded is the program that is decoded: where memory
/// holds the machine code of `opcodes` from the entry point on, the opcode at
/// `index` is decoded at the entry point plus eight times `index`.
pub proof fn loaded_program_is_decoded(memory: Seq<u8>, opcodes: Seq<Opcode>, index: int)
    requires
        0 <= index < opcodes.len(),
        ENTRY_POINT + 8 * opcodes.len() <= memory.len(),
        memory.subrange(ENTRY_POINT as int, ENTRY_POINT + 8 * opcodes.len()) == machine_code(
            opcodes,
        ),
    ensures
        Opcode::decoding(instruction_at(memory, ENTRY_POINT + 8 * index)) == Some(opcodes[index]),
{
    machine_code_holds_each_opcode(opcodes, index);
    let at = ENTRY_POINT + 8 * index;
    assert(memory.subrange(at, at + 8) =~= machine_code(opcodes).subrange(
        8 * index,
        8 * index + 8,
    )) by {
        let loaded = memory.subrange(ENTRY_POINT as int, ENTRY_POINT + 8 * opcodes.len());
        assert forall|k: int| 0 <= k < 8 implies #[trigger] memory.subrange(at, at + 8)[k]
            == machine_code(opcodes).subrange(8 * index, 8 * index + 8)[k] by {
            assert(loaded[8 * index + k] == memory[at + k]);
        }
    }
    instruction_bytes_read_back(memory, at, opcodes[index].encoding());
    decoding_inverts_encoding(opcodes[index]);
}

} // verus!
