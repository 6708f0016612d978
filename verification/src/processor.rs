//! The processor: the register file, the flags, the stack and the
//! instruction pointer, and the execution of one instruction.

use vstd::prelude::*;
use crate::address_constants::{
    ENTRY_POINT, FIRST_FRAMEBUFFER_START, SECOND_FRAMEBUFFER_START, STACK_END, STACK_START,
};
use crate::memory::{accessible, accessible_means, instruction_at, Memory, MEMORY_SIZE};
use crate::debugger::{
    answer, DebugCommand, DebugHandle, Decision, HandleModel, Interruption,
    ShouldExecuteInstruction,
};
use crate::keyboard::KeyState;
use crate::laws::{pushed_all, tops};
use crate::opcodes::{Family, Opcode};
use crate::periphery::Periphery;
use crate::semantics::{
    wrap, Fault, Flag, Input, Snapshot, FLAGS, INSTRUCTION_POINTER, STACK_POINTER,
};
use crate::{Address, Byte, Halfword, Register, Word};

verus! {

pub enum Direction {
    Forwards,
    Backwards,
}

/// How the execution of an instruction ended.
#[derive(Clone, Copy, Debug, PartialEq, Eq, Structural)]
pub enum ExecutionResult {
    /// The instruction could not be decoded; nothing was executed.
    Error,
    Normal,
    /// The instruction was the halt.
    Halted,
}

impl Flag {
    /// The position of the flag's bit in the flags register.
    pub fn shift(self) -> (shift: u32)
        ensures
            shift < 3,
            self.mask() == 1u32 << shift,
    {
        assert(1u32 << 0u32 == 1 && 1u32 << 1u32 == 2 && 1u32 << 2u32 == 4) by (bit_vector);
        match self {
            Flag::Zero => 0,
            Flag::Carry => 1,
            Flag::DivideByZero => 2,
        }
    }

    /// The flags register with only this flag set.
    pub fn bits(self) -> (bits: Word)
        ensures
            bits == self.mask(),
    {
        match self {
            Flag::Zero => 0b001,
            Flag::Carry => 0b010,
            Flag::DivideByZero => 0b100,
        }
    }
}

/// The register file: 256 words.
pub struct Registers {
    words: [Word; 256],
}

impl View for Registers {
    type V = Seq<Word>;

    closed spec fn view(&self) -> Seq<Word> {
        self.words@
    }
}

impl Registers {
    /// A register file in which every register is zero.
    pub fn new() -> (registers: Self)
        ensures
            registers@.len() == 256,
            forall|i: int| 0 <= i < 256 ==> registers@[i] == 0,
    {
        Registers { words: [0u32; 256] }
    }

    /// The register file has 256 registers.
    pub proof fn has_256(&self)
        ensures
            self@.len() == 256,
    {
    }

    pub fn get(&self, register: Register) -> (value: Word)
        ensures
            self@.len() == 256,
            value == self@[register.index()],
    {
        self.words[register.0 as usize]
    }

    pub fn set(&mut self, register: Register, value: Word)
        ensures
            final(self)@.len() == 256,
            final(self)@ == old(self)@.update(register.index(), value),
    {
        self.words[register.0 as usize] = value;
    }

    /// The bytes of all registers, from register 0 on, four for each
    /// register, the most significant first.
    pub fn to_be_bytes(&self) -> (bytes: Vec<u8>)
        ensures
            bytes@ == crate::memory::words_bytes(self@),
    {
        crate::memory::words_to_bytes(self.words.as_slice())
    }

    /// The words of all registers, from register 0 on.
    pub fn contents(&self) -> (words: &[Word])
        ensures
            words@ == self@,
    {
        self.words.as_slice()
    }
}

pub struct Processor {
    pub registers: Registers,
    /// The number of cycles that were counted.
    pub cycle_count: u64,
    /// Whether the process is to end when the program halts.
    pub exit_on_halt: bool,
    /// The number of the checkpoint that is due next.
    pub checkpoint_counter: Word,
}

impl Processor {
    /// What instructions read and change, with `memory` as the memory image.
    pub open spec fn snapshot(&self, memory: Seq<u8>) -> Snapshot {
        Snapshot {
            registers: self.registers@,
            memory,
            cycle_count: self.cycle_count,
            checkpoint_counter: self.checkpoint_counter,
        }
    }

    /// Whether `other` differs from this processor in its registers at most.
    pub open spec fn same_counters(&self, other: &Processor) -> bool {
        &&& self.cycle_count == other.cycle_count
        &&& self.checkpoint_counter == other.checkpoint_counter
        &&& self.exit_on_halt == other.exit_on_halt
    }

    /// The registers at the start of a program: the instruction pointer at
    /// the entry point, the stack pointer at the start of the stack, and
    /// every other register zero.
    pub open spec fn initial_registers() -> Seq<Word> {
        Seq::new(
            256,
            |i: int|
                if i == INSTRUCTION_POINTER {
                    ENTRY_POINT
                } else if i == STACK_POINTER {
                    STACK_START
                } else {
                    0
                },
        )
    }

    /// A processor at the start of a program: the registers as
    /// `initial_registers` has them, and both counters zero.
    pub fn new(exit_on_halt: bool) -> (processor: Self)
        ensures
            processor.registers@ == Self::initial_registers(),
            processor.cycle_count == 0,
            processor.checkpoint_counter == 0,
            processor.exit_on_halt == exit_on_halt,
    {
        let mut result = Self {
            registers: Registers::new(),
            cycle_count: 0,
            exit_on_halt,
            checkpoint_counter: 0,
        };
        result.registers.set(Register(INSTRUCTION_POINTER), ENTRY_POINT);
        result.registers.set(Register(STACK_POINTER), STACK_START);
        assert(result.registers@ =~= Self::initial_registers());
        result
    }

    pub fn exits_on_halt(&self) -> (exits: bool)
        ensures
            exits == self.exit_on_halt,
    {
        self.exit_on_halt
    }

    pub fn get_flag(&self, flag: Flag) -> (set: bool)
        ensures
            set == flag.is_in(self.registers@[FLAGS as int]),
    {
        let flags: Word = self.registers.get(Register(FLAGS));
        flags & flag.bits() == flag.bits()
    }

    /// Sets or clears `flag`; no other bit of the flags register changes.
    pub fn set_flag(&mut self, flag: Flag, set: bool)
        ensures
            final(self).registers@ == old(self).registers@.update(
                FLAGS as int,
                flag.put_in(old(self).registers@[FLAGS as int], set),
            ),
            final(self).same_counters(old(self)),
    {
        let flags: Word = self.registers.get(Register(FLAGS));
        let changed: Word = if set {
            flags | flag.bits()
        } else {
            flags & !flag.bits()
        };
        self.registers.set(Register(FLAGS), changed);
    }

    pub fn get_stack_pointer(&self) -> (address: Address)
        ensures
            address == self.registers@[STACK_POINTER as int],
    {
        self.registers.get(Register(STACK_POINTER))
    }

    /// Sets the stack pointer to an address in the stack region.
    pub fn set_stack_pointer(&mut self, address: Address)
        requires
            STACK_START <= address <= STACK_END,
        ensures
            final(self).registers@ == old(self).registers@.update(STACK_POINTER as int, address),
            final(self).same_counters(old(self)),
    {
        self.registers.set(Register(STACK_POINTER), address);
    }

    /// Moves the stack pointer by `step` bytes inside the stack region.
    pub fn advance_stack_pointer(&mut self, step: usize, direction: Direction)
        requires
            match direction {
                Direction::Forwards => STACK_START <= old(self).registers@[STACK_POINTER as int]
                    + step <= STACK_END,
                Direction::Backwards => STACK_START <= old(self).registers@[STACK_POINTER as int]
                    - step <= STACK_END,
            },
        ensures
            final(self).registers@ == old(self).registers@.update(
                STACK_POINTER as int,
                match direction {
                    Direction::Forwards => (old(self).registers@[STACK_POINTER as int]
                        + step) as Word,
                    Direction::Backwards => (old(self).registers@[STACK_POINTER as int]
                        - step) as Word,
                },
            ),
            final(self).same_counters(old(self)),
    {
        let current: Address = self.get_stack_pointer();
        match direction {
            Direction::Forwards => { self.set_stack_pointer(current + step as Address) },
            Direction::Backwards => { self.set_stack_pointer(current - step as Address) },
        }
    }

    /// Writes `value` at the stack pointer and moves the stack pointer up by
    /// one word.
    pub fn stack_push(&mut self, memory: &mut Memory, value: Word)
        requires
            old(memory).wf(),
            old(self).snapshot(old(memory)@).push_fault() is None,
        ensures
            final(memory).wf(),
            final(self).snapshot(final(memory)@) == old(self).snapshot(old(memory)@).pushed(value),
            final(self).exit_on_halt == old(self).exit_on_halt,
    {
        let top: Address = self.get_stack_pointer();
        memory.write_data(top, value);
        self.advance_stack_pointer(4, Direction::Forwards);
    }

    /// Moves the stack pointer down by one word and reads the word there.
    pub fn stack_pop(&mut self, memory: &Memory) -> (value: Word)
        requires
            memory.wf(),
            old(self).snapshot(memory@).pop_fault() is None,
        ensures
            value == old(self).snapshot(memory@).top(),
            final(self).snapshot(memory@) == old(self).snapshot(memory@).popped(),
            final(self).exit_on_halt == old(self).exit_on_halt,
    {
        self.advance_stack_pointer(4, Direction::Backwards);
        memory.read_data(self.get_stack_pointer())
    }

    /// Pushes the words of `values`, the first one first. The words must fit
    /// into the stack region.
    pub fn stack_push_all(&mut self, memory: &mut Memory, values: &[Word])
        requires
            old(memory).wf(),
            old(self).registers@[STACK_POINTER as int] % 4 == 0,
            STACK_START <= old(self).registers@[STACK_POINTER as int],
            old(self).registers@[STACK_POINTER as int] + 4 * values@.len() <= STACK_END,
        ensures
            final(memory).wf(),
            final(self).snapshot(final(memory)@) == pushed_all(
                old(self).snapshot(old(memory)@),
                values@,
            ),
            final(self).exit_on_halt == old(self).exit_on_halt,
    {
        let ghost before = self.snapshot(memory@);
        let mut done: usize = 0;
        while done < values.len()
            invariant
                done <= values@.len(),
                memory.wf(),
                before.registers.len() == 256,
                before.stack_pointer() % 4 == 0,
                STACK_START <= before.stack_pointer(),
                before.stack_pointer() + 4 * values@.len() <= STACK_END,
                self.registers@[STACK_POINTER as int] == before.stack_pointer() + 4 * done,
                self.snapshot(memory@) == pushed_all(before, values@.take(done as int)),
                self.exit_on_halt == old(self).exit_on_halt,
            decreases values@.len() - done,
        {
            proof {
                accessible_means(before.stack_pointer() + 4 * done, 4);
                let now = values@.take(done + 1);
                assert(now.drop_last() =~= values@.take(done as int));
                assert(now.last() == values@[done as int]);
            }
            self.stack_push(memory, values[done]);
            done = done + 1;
        }
        assert(values@.take(done as int) =~= values@);
    }

    /// Pops `count` words and hands them back, the topmost first. The stack
    /// must hold as many words.
    pub fn stack_pop_all(&mut self, memory: &Memory, count: usize) -> (values: Vec<Word>)
        requires
            memory.wf(),
            old(self).registers@[STACK_POINTER as int] % 4 == 0,
            STACK_START + 4 * count <= old(self).registers@[STACK_POINTER as int] <= STACK_END,
        ensures
            values@ == tops(old(self).snapshot(memory@), count as nat),
            final(self).registers@ == old(self).registers@.update(
                STACK_POINTER as int,
                (old(self).registers@[STACK_POINTER as int] - 4 * count) as Word,
            ),
            final(self).same_counters(old(self)),
    {
        let ghost before = self.snapshot(memory@);
        let mut values: Vec<Word> = Vec::new();
        let mut done: usize = 0;
        proof {
            self.registers.has_256();
            assert(self.registers@ =~= before.registers.update(
                STACK_POINTER as int,
                before.stack_pointer(),
            ));
        }
        while done < count
            invariant
                done <= count,
                memory.wf(),
                before == old(self).snapshot(memory@),
                before.registers.len() == 256,
                before.stack_pointer() % 4 == 0,
                STACK_START + 4 * count <= before.stack_pointer() <= STACK_END,
                self.registers@ == before.registers.update(
                    STACK_POINTER as int,
                    (before.stack_pointer() - 4 * done) as Word,
                ),
                self.same_counters(old(self)),
                values@ == tops(before, done as nat),
            decreases count - done,
        {
            proof {
                accessible_means(before.stack_pointer() - 4 * done - 4, 4);
            }
            let ghost earlier = self.registers@;
            let value: Word = self.stack_pop(memory);
            values.push(value);
            done = done + 1;
            proof {
                assert(self.registers@ =~= before.registers.update(
                    STACK_POINTER as int,
                    (before.stack_pointer() - 4 * done) as Word,
                ));
                assert(values@ =~= tops(before, done as nat));
            }
        }
        values
    }

    pub fn set_instruction_pointer(&mut self, address: Address)
        ensures
            final(self).registers@ == old(self).registers@.update(
                INSTRUCTION_POINTER as int,
                address,
            ),
            final(self).same_counters(old(self)),
    {
        self.registers.set(Register(INSTRUCTION_POINTER), address);
    }

    pub fn get_instruction_pointer(&self) -> (address: Address)
        ensures
            address == self.registers@[INSTRUCTION_POINTER as int],
    {
        self.registers.get(Register(INSTRUCTION_POINTER))
    }

    /// Moves the instruction pointer by one instruction: forwards modulo
    /// 2^32, backwards not below zero.
    pub fn advance_instruction_pointer(&mut self, direction: Direction)
        ensures
            final(self).registers@ == old(self).registers@.update(
                INSTRUCTION_POINTER as int,
                match direction {
                    Direction::Forwards => wrap(
                        old(self).registers@[INSTRUCTION_POINTER as int] + 8,
                    ),
                    Direction::Backwards => if old(self).registers@[INSTRUCTION_POINTER as int]
                        >= 8 {
                        (old(self).registers@[INSTRUCTION_POINTER as int] - 8) as Word
                    } else {
                        0
                    },
                },
            ),
            final(self).same_counters(old(self)),
    {
        let current: Address = self.get_instruction_pointer();
        match direction {
            Direction::Forwards => { self.set_instruction_pointer(current.wrapping_add(8)) },
            Direction::Backwards => { self.set_instruction_pointer(current.saturating_sub(8)) },
        }
    }

    /// The registers that a dump shows after dump-registers was executed:
    /// the registers as they are, with the instruction pointer moved back by
    /// the one instruction that it has moved on since the dump was asked for.
    pub open spec fn registers_at_dump(registers: Seq<Word>) -> Seq<Word> {
        registers.update(
            INSTRUCTION_POINTER as int,
            wrap(registers[INSTRUCTION_POINTER as int] - 8),
        )
    }

    /// The bytes of a dump of the registers, for the host to write after
    /// dump-registers was executed: the bytes of `registers_at_dump`, four
    /// for each register, the most significant first.
    pub fn dumped_registers(&self) -> (bytes: Vec<u8>)
        ensures
            bytes@ == crate::memory::words_bytes(Self::registers_at_dump(self.registers@)),
    {
        let mut words: Vec<Word> = vstd::slice::slice_to_vec(self.registers.contents());
        let back: Word = self.get_instruction_pointer().wrapping_sub(8);
        words[INSTRUCTION_POINTER as usize] = back;
        crate::memory::words_to_bytes(words.as_slice())
    }

    pub fn get_cycle_count(&self) -> (count: u64)
        ensures
            count == self.cycle_count,
    {
        self.cycle_count
    }

    /// Counts `amount` cycles more; the counter wraps at 2^64.
    pub fn increase_cycle_count(&mut self, amount: u64)
        ensures
            final(self).cycle_count == (old(self).cycle_count + amount) % 0x1_0000_0000_0000_0000,
            final(self).registers@ == old(self).registers@,
            final(self).checkpoint_counter == old(self).checkpoint_counter,
            final(self).exit_on_halt == old(self).exit_on_halt,
    {
        self.cycle_count = self.cycle_count.wrapping_add(amount);
    }
    /// Puts `value` in `register`.
    fn put(&mut self, register: Register, value: Word, Ghost(m): Ghost<Seq<u8>>)
        ensures
            final(self).snapshot(m) == old(self).snapshot(m).with_register(register, value),
            final(self).exit_on_halt == old(self).exit_on_halt,
    {
        self.registers.set(register, value);
    }

    /// Puts `value` in `target` and sets the zero flag by it.
    fn put_result(&mut self, target: Register, value: Word, Ghost(m): Ghost<Seq<u8>>)
        ensures
            final(self).snapshot(m) == old(self).snapshot(m).with_result(target, value),
            final(self).exit_on_halt == old(self).exit_on_halt,
    {
        self.registers.set(target, value);
        self.set_flag(Flag::Zero, value == 0);
    }

    /// Puts the sum `exact` in `target`, modulo 2^32, and sets zero and carry
    /// flag by it.
    fn put_sum(&mut self, target: Register, exact: u64, Ghost(m): Ghost<Seq<u8>>)
        requires
            exact <= 0x1_FFFF_FFFF,
        ensures
            final(self).snapshot(m) == old(self).snapshot(m).with_sum(target, exact as int),
            final(self).exit_on_halt == old(self).exit_on_halt,
    {
        let value: Word = (exact % 0x1_0000_0000) as Word;
        self.put_result(target, value, Ghost(m));
        self.set_flag(Flag::Carry, exact > 0xFFFF_FFFF);
    }

    /// Puts the difference of `minuend` and `subtrahend` in `target`, modulo
    /// 2^32, and sets zero and carry flag by it.
    fn put_difference(&mut self, target: Register, minuend: Word, subtrahend: u64, Ghost(m): Ghost<Seq<u8>>)
        requires
            subtrahend <= 0x1_0000_0000,
        ensures
            final(self).snapshot(m) == old(self).snapshot(m).with_difference(
                    target,
                    minuend - subtrahend,
                ),
            final(self).exit_on_halt == old(self).exit_on_halt,
    {
        let borrow: bool = subtrahend > minuend as u64;
        let value: Word = if borrow {
            (minuend as u64 + 0x1_0000_0000 - subtrahend) as Word
        } else {
            (minuend as u64 - subtrahend) as Word
        };
        self.put_result(target, value, Ghost(m));
        self.set_flag(Flag::Carry, borrow);
    }

    /// Sets the instruction pointer to `target` if the jump is taken, and
    /// to the next instruction if it is not.
    fn branch(&mut self, taken: bool, target: Address, Ghost(m): Ghost<Seq<u8>>)
        ensures
            final(self).snapshot(m) == old(self).snapshot(m).branched(taken, target),
            final(self).exit_on_halt == old(self).exit_on_halt,
    {
        if taken {
            self.set_instruction_pointer(target);
        } else {
            self.advance_instruction_pointer(Direction::Forwards);
        }
    }

    /// Pushes the address of the next instruction.
    fn push_instruction_pointer(&mut self, memory: &mut Memory)
        requires
            old(memory).wf(),
            old(self).snapshot(old(memory)@).push_fault() is None,
        ensures
            final(memory).wf(),
            final(self).snapshot(final(memory)@) == old(self).snapshot(old(memory)@).called(),
            final(self).exit_on_halt == old(self).exit_on_halt,
    {
        let next: Address = self.get_instruction_pointer().wrapping_add(8);
        self.stack_push(memory, next);
    }

    /// Executes a move.
    #[verifier::rlimit(30)]
    fn perform_move(&mut self, opcode: Opcode, memory: &mut Memory, input: Input)
        requires
            old(memory).wf(),
            opcode.family_of() == Family::Move,
            old(self).snapshot(old(memory)@).fault(opcode) is None,
        ensures
            final(memory).wf(),
            final(self).snapshot(final(memory)@) == old(self).snapshot(old(memory)@).operated(
                opcode,
                input,
            ),
            final(self).exit_on_halt == old(self).exit_on_halt,
    {
        match opcode {
            Opcode::MoveRegisterImmediate { register, immediate } => {
                self.put(register, immediate, Ghost(memory@));
            },
            Opcode::MoveRegisterAddress { register, source_address } => {
                let value: Word = memory.read_data(source_address);
                self.put(register, value, Ghost(memory@));
            },
            Opcode::MoveTargetSource { target, source } => {
                let value: Word = self.registers.get(source);
                self.put(target, value, Ghost(memory@));
            },
            Opcode::MoveAddressRegister { register, target_address } => {
                let value: Word = self.registers.get(register);
                memory.write_data(target_address, value);
            },
            Opcode::MoveTargetPointer { target, pointer } => {
                let value: Word = memory.read_data(self.registers.get(pointer));
                self.put(target, value, Ghost(memory@));
            },
            Opcode::MovePointerSource { pointer, source } => {
                let address: Address = self.registers.get(pointer);
                let value: Word = self.registers.get(source);
                memory.write_data(address, value);
            },
            Opcode::MoveByteRegisterAddress { register, source_address } => {
                let value: Byte = memory.read_byte(source_address);
                self.put(register, value as Word, Ghost(memory@));
            },
            Opcode::MoveByteAddressRegister { register, target_address } => {
                let value: Word = self.registers.get(register);
                memory.write_byte(target_address, (value % 0x100) as Byte);
            },
            Opcode::MoveByteTargetPointer { target, pointer } => {
                let value: Byte = memory.read_byte(self.registers.get(pointer));
                self.put(target, value as Word, Ghost(memory@));
            },
            Opcode::MoveBytePointerSource { pointer, source } => {
                let address: Address = self.registers.get(pointer);
                let value: Word = self.registers.get(source);
                memory.write_byte(address, (value % 0x100) as Byte);
            },
            Opcode::MoveHalfwordRegisterAddress { register, source_address } => {
                let value: Halfword = memory.read_halfword(source_address);
                self.put(register, value as Word, Ghost(memory@));
            },
            Opcode::MoveHalfwordAddressRegister { register, target_address } => {
                let value: Halfword = (self.registers.get(register) % 0x1_0000) as Halfword;
                memory.write_halfword(target_address, value);
            },
            Opcode::MoveHalfwordTargetPointer { target, pointer } => {
                let value: Halfword = memory.read_halfword(self.registers.get(pointer));
                self.put(target, value as Word, Ghost(memory@));
            },
            Opcode::MoveHalfwordPointerSource { pointer, source } => {
                let address: Address = self.registers.get(pointer);
                let value: Halfword = (self.registers.get(source) % 0x1_0000) as Halfword;
                memory.write_halfword(address, value);
            },
            Opcode::MovePointerSourceOffset { pointer, source, immediate } => {
                let address: Address = displaced(self.registers.get(pointer), immediate);
                let value: Word = self.registers.get(source);
                memory.write_data(address, value);
            },
            Opcode::MoveBytePointerSourceOffset { pointer, source, immediate } => {
                let address: Address = displaced(self.registers.get(pointer), immediate);
                let value: Word = self.registers.get(source);
                memory.write_byte(address, (value % 0x100) as Byte);
            },
            Opcode::MoveHalfwordPointerSourceOffset { pointer, source, immediate } => {
                let address: Address = displaced(self.registers.get(pointer), immediate);
                let value: Halfword = (self.registers.get(source) % 0x1_0000) as Halfword;
                memory.write_halfword(address, value);
            },
            Opcode::MoveTargetPointerOffset { target, pointer, immediate } => {
                let address: Address = displaced(self.registers.get(pointer), immediate);
                let value: Word = memory.read_data(address);
                self.put(target, value, Ghost(memory@));
            },
            Opcode::MoveByteTargetPointerOffset { target, pointer, immediate } => {
                let address: Address = displaced(self.registers.get(pointer), immediate);
                let value: Byte = memory.read_byte(address);
                self.put(target, value as Word, Ghost(memory@));
            },
            Opcode::MoveHalfwordTargetPointerOffset { target, pointer, immediate } => {
                let address: Address = displaced(self.registers.get(pointer), immediate);
                let value: Halfword = memory.read_halfword(address);
                self.put(target, value as Word, Ghost(memory@));
            },
            _ => {},
        }
    }
    /// Executes an arithmetic or bitwise operation or a comparison.
    #[verifier::rlimit(30)]
    fn perform_arithmetic(&mut self, opcode: Opcode, input: Input, Ghost(m): Ghost<Seq<u8>>)
        requires
            opcode.family_of() == Family::Arithmetic,
        ensures
            final(self).snapshot(m) == old(self).snapshot(m).operated(opcode, input),
            final(self).exit_on_halt == old(self).exit_on_halt,
    {
        match opcode {
            Opcode::AddTargetLhsRhs { target, lhs, rhs } => {
                let left: u64 = self.registers.get(lhs) as u64;
                let right: u64 = self.registers.get(rhs) as u64;
                self.put_sum(target, left + right, Ghost(m));
            },
            Opcode::AddWithCarryTargetLhsRhs { target, lhs, rhs } => {
                let left: u64 = self.registers.get(lhs) as u64;
                let right: u64 = self.registers.get(rhs) as u64;
                let carry: u64 = if self.get_flag(Flag::Carry) {
                    1
                } else {
                    0
                };
                self.put_sum(target, left + right + carry, Ghost(m));
            },
            Opcode::SubtractTargetLhsRhs { target, lhs, rhs } => {
                let left: Word = self.registers.get(lhs);
                let right: u64 = self.registers.get(rhs) as u64;
                self.put_difference(target, left, right, Ghost(m));
            },
            Opcode::SubtractWithCarryTargetLhsRhs { target, lhs, rhs } => {
                let left: Word = self.registers.get(lhs);
                let right: u64 = self.registers.get(rhs) as u64;
                let carry: u64 = if self.get_flag(Flag::Carry) {
                    1
                } else {
                    0
                };
                self.put_difference(target, left, right + carry, Ghost(m));
            },
            Opcode::MultiplyHighLowLhsRhs { high, low, lhs, rhs } => {
                let left: u64 = self.registers.get(lhs) as u64;
                let right: u64 = self.registers.get(rhs) as u64;
                assert(left * right <= 0xFFFF_FFFF * 0xFFFF_FFFF) by (nonlinear_arith)
                    requires
                        0 <= left <= 0xFFFF_FFFF,
                        0 <= right <= 0xFFFF_FFFF,
                ;
                let product: u64 = left * right;
                let upper: Word = (product / 0x1_0000_0000) as Word;
                let lower: Word = (product % 0x1_0000_0000) as Word;
                self.put(high, upper, Ghost(m));
                self.put(low, lower, Ghost(m));
                self.set_flag(Flag::Zero, lower == 0);
                self.set_flag(Flag::Carry, upper > 0);
            },
            Opcode::DivmodTargetModLhsRhs { result, remainder, lhs, rhs } => {
                let dividend: Word = self.registers.get(lhs);
                let divisor: Word = self.registers.get(rhs);
                if divisor == 0 {
                    self.put(result, 0, Ghost(m));
                    self.put(remainder, dividend, Ghost(m));
                    self.set_flag(Flag::Zero, true);
                    self.set_flag(Flag::DivideByZero, true);
                } else {
                    let quotient: Word = dividend / divisor;
                    self.put(result, quotient, Ghost(m));
                    self.put(remainder, dividend % divisor, Ghost(m));
                    self.set_flag(Flag::Zero, quotient == 0);
                    self.set_flag(Flag::DivideByZero, false);
                }
            },
            Opcode::AndTargetLhsRhs { target, lhs, rhs } => {
                let value: Word = self.registers.get(lhs) & self.registers.get(rhs);
                self.put_result(target, value, Ghost(m));
            },
            Opcode::OrTargetLhsRhs { target, lhs, rhs } => {
                let value: Word = self.registers.get(lhs) | self.registers.get(rhs);
                self.put_result(target, value, Ghost(m));
            },
            Opcode::XorTargetLhsRhs { target, lhs, rhs } => {
                let value: Word = self.registers.get(lhs) ^ self.registers.get(rhs);
                self.put_result(target, value, Ghost(m));
            },
            Opcode::NotTargetSource { target, source } => {
                let value: Word = !self.registers.get(source);
                self.put_result(target, value, Ghost(m));
            },
            Opcode::LeftShiftTargetLhsRhs { target, lhs, rhs } => {
                let value: Word = self.registers.get(lhs);
                let amount: Word = self.registers.get(rhs);
                let shifted: Word = if amount >= 32 {
                    0
                } else {
                    value << amount
                };
                let carry: bool = if amount > 32 {
                    value > 0
                } else {
                    amount > value.leading_zeros()
                };
                self.put_result(target, shifted, Ghost(m));
                self.set_flag(Flag::Carry, carry);
            },
            Opcode::RightShiftTargetLhsRhs { target, lhs, rhs } => {
                let value: Word = self.registers.get(lhs);
                let amount: Word = self.registers.get(rhs);
                let shifted: Word = if amount >= 32 {
                    0
                } else {
                    value >> amount
                };
                let carry: bool = if amount > 32 {
                    value > 0
                } else {
                    amount > value.trailing_zeros()
                };
                self.put_result(target, shifted, Ghost(m));
                self.set_flag(Flag::Carry, carry);
            },
            Opcode::AddTargetSourceImmediate { target, source, immediate } => {
                let left: u64 = self.registers.get(source) as u64;
                self.put_sum(target, left + immediate as u64, Ghost(m));
            },
            Opcode::SubtractTargetSourceImmediate { target, source, immediate } => {
                let left: Word = self.registers.get(source);
                self.put_difference(target, left, immediate as u64, Ghost(m));
            },
            Opcode::CompareTargetLhsRhs { target, lhs, rhs } => {
                let left: Word = self.registers.get(lhs);
                let right: Word = self.registers.get(rhs);
                let value: Word = if left < right {
                    Word::MAX
                } else if left == right {
                    0
                } else {
                    1
                };
                self.put_result(target, value, Ghost(m));
            },
            Opcode::BoolCompareEquals { target, lhs, rhs } => {
                let holds: bool = self.registers.get(lhs) == self.registers.get(rhs);
                self.put(target, truth(holds), Ghost(m));
            },
            Opcode::BoolCompareNotEquals { target, lhs, rhs } => {
                let holds: bool = self.registers.get(lhs) != self.registers.get(rhs);
                self.put(target, truth(holds), Ghost(m));
            },
            Opcode::BoolCompareGreater { target, lhs, rhs } => {
                let holds: bool = self.registers.get(lhs) > self.registers.get(rhs);
                self.put(target, truth(holds), Ghost(m));
            },
            Opcode::BoolCompareGreaterOrEquals { target, lhs, rhs } => {
                let holds: bool = self.registers.get(lhs) >= self.registers.get(rhs);
                self.put(target, truth(holds), Ghost(m));
            },
            Opcode::BoolCompareLess { target, lhs, rhs } => {
                let holds: bool = self.registers.get(lhs) < self.registers.get(rhs);
                self.put(target, truth(holds), Ghost(m));
            },
            Opcode::BoolCompareLessOrEquals { target, lhs, rhs } => {
                let holds: bool = self.registers.get(lhs) <= self.registers.get(rhs);
                self.put(target, truth(holds), Ghost(m));
            },
            _ => {},
        }
    }

    /// Executes a push or a pop.
    fn perform_stack(&mut self, opcode: Opcode, memory: &mut Memory, input: Input)
        requires
            old(memory).wf(),
            opcode.family_of() == Family::Stack,
            old(self).snapshot(old(memory)@).fault(opcode) is None,
        ensures
            final(memory).wf(),
            final(self).snapshot(final(memory)@) == old(self).snapshot(old(memory)@).operated(
                opcode,
                input,
            ),
            final(self).exit_on_halt == old(self).exit_on_halt,
    {
        match opcode {
            Opcode::PushRegister { register } => {
                let value: Word = self.registers.get(register);
                self.stack_push(memory, value);
            },
            Opcode::PushImmediate { immediate } => {
                self.stack_push(memory, immediate);
            },
            Opcode::PopRegister { register } => {
                let value: Word = self.stack_pop(memory);
                self.put(register, value, Ghost(memory@));
            },
            Opcode::Pop {  } => {
                let _ = self.stack_pop(memory);
            },
            _ => {},
        }
    }

    /// Executes a call, a return, a jump or the halt.
    #[verifier::rlimit(30)]
    fn perform_control_flow(&mut self, opcode: Opcode, memory: &mut Memory, input: Input)
        requires
            old(memory).wf(),
            opcode.family_of() == Family::ControlFlow,
            old(self).snapshot(old(memory)@).fault(opcode) is None,
        ensures
            final(memory).wf(),
            final(self).snapshot(final(memory)@) == old(self).snapshot(old(memory)@).operated(
                opcode,
                input,
            ),
            final(self).exit_on_halt == old(self).exit_on_halt,
    {
        match opcode {
            Opcode::HaltAndCatchFire {  } => {},
            Opcode::CallAddress { source_address } => {
                self.push_instruction_pointer(memory);
                self.set_instruction_pointer(source_address);
            },
            Opcode::CallRegister { register } => {
                self.push_instruction_pointer(memory);
                let target: Address = self.registers.get(register);
                self.set_instruction_pointer(target);
            },
            Opcode::CallPointer { pointer } => {
                self.push_instruction_pointer(memory);
                let target: Address = memory.read_data(self.registers.get(pointer));
                self.set_instruction_pointer(target);
            },
            Opcode::Return {  } => {
                let target: Address = self.stack_pop(memory);
                self.set_instruction_pointer(target);
            },
            Opcode::JumpImmediate { immediate } => {
                self.set_instruction_pointer(immediate);
            },
            Opcode::JumpRegister { register } => {
                let target: Address = self.registers.get(register);
                self.set_instruction_pointer(target);
            },
            Opcode::JumpImmediateIfEqual { comparison, immediate } => {
                let taken: bool = self.registers.get(comparison) == 0;
                self.branch(taken, immediate, Ghost(memory@));
            },
            Opcode::JumpImmediateIfGreaterThan { comparison, immediate } => {
                let taken: bool = self.registers.get(comparison) == 1;
                self.branch(taken, immediate, Ghost(memory@));
            },
            Opcode::JumpImmediateIfLessThan { comparison, immediate } => {
                let taken: bool = self.registers.get(comparison) == Word::MAX;
                self.branch(taken, immediate, Ghost(memory@));
            },
            Opcode::JumpImmediateIfGreaterThanOrEqual { comparison, immediate } => {
                let order: Word = self.registers.get(comparison);
                self.branch(order == 0 || order == 1, immediate, Ghost(memory@));
            },
            Opcode::JumpImmediateIfLessThanOrEqual { comparison, immediate } => {
                let order: Word = self.registers.get(comparison);
                self.branch(order == 0 || order == Word::MAX, immediate, Ghost(memory@));
            },
            Opcode::JumpImmediateIfZero { immediate } => {
                let taken: bool = self.get_flag(Flag::Zero);
                self.branch(taken, immediate, Ghost(memory@));
            },
            Opcode::JumpImmediateIfNotZero { immediate } => {
                let taken: bool = !self.get_flag(Flag::Zero);
                self.branch(taken, immediate, Ghost(memory@));
            },
            Opcode::JumpImmediateIfCarry { immediate } => {
                let taken: bool = self.get_flag(Flag::Carry);
                self.branch(taken, immediate, Ghost(memory@));
            },
            Opcode::JumpImmediateIfNotCarry { immediate } => {
                let taken: bool = !self.get_flag(Flag::Carry);
                self.branch(taken, immediate, Ghost(memory@));
            },
            Opcode::JumpImmediateIfDivideByZero { immediate } => {
                let taken: bool = self.get_flag(Flag::DivideByZero);
                self.branch(taken, immediate, Ghost(memory@));
            },
            Opcode::JumpImmediateIfNotDivideByZero { immediate } => {
                let taken: bool = !self.get_flag(Flag::DivideByZero);
                self.branch(taken, immediate, Ghost(memory@));
            },
            Opcode::JumpRegisterIfEqual { pointer, comparison } => {
                let taken: bool = self.registers.get(comparison) == 0;
                let target: Address = self.registers.get(pointer);
                self.branch(taken, target, Ghost(memory@));
            },
            Opcode::JumpRegisterIfGreaterThan { pointer, comparison } => {
                let taken: bool = self.registers.get(comparison) == 1;
                let target: Address = self.registers.get(pointer);
                self.branch(taken, target, Ghost(memory@));
            },
            Opcode::JumpRegisterIfLessThan { pointer, comparison } => {
                let taken: bool = self.registers.get(comparison) == Word::MAX;
                let target: Address = self.registers.get(pointer);
                self.branch(taken, target, Ghost(memory@));
            },
            Opcode::JumpRegisterIfGreaterThanOrEqual { pointer, comparison } => {
                let order: Word = self.registers.get(comparison);
                let target: Address = self.registers.get(pointer);
                self.branch(order == 0 || order == 1, target, Ghost(memory@));
            },
            Opcode::JumpRegisterIfLessThanOrEqual { pointer, comparison } => {
                let order: Word = self.registers.get(comparison);
                let target: Address = self.registers.get(pointer);
                self.branch(order == 0 || order == Word::MAX, target, Ghost(memory@));
            },
            Opcode::JumpRegisterIfZero { pointer } => {
                let taken: bool = self.get_flag(Flag::Zero);
                let target: Address = self.registers.get(pointer);
                self.branch(taken, target, Ghost(memory@));
            },
            Opcode::JumpRegisterIfNotZero { pointer } => {
                let taken: bool = !self.get_flag(Flag::Zero);
                let target: Address = self.registers.get(pointer);
                self.branch(taken, target, Ghost(memory@));
            },
            Opcode::JumpRegisterIfCarry { pointer } => {
                let taken: bool = self.get_flag(Flag::Carry);
                let target: Address = self.registers.get(pointer);
                self.branch(taken, target, Ghost(memory@));
            },
            Opcode::JumpRegisterIfNotCarry { pointer } => {
                let taken: bool = !self.get_flag(Flag::Carry);
                let target: Address = self.registers.get(pointer);
                self.branch(taken, target, Ghost(memory@));
            },
            Opcode::JumpRegisterIfDivideByZero { pointer } => {
                let taken: bool = self.get_flag(Flag::DivideByZero);
                let target: Address = self.registers.get(pointer);
                self.branch(taken, target, Ghost(memory@));
            },
            Opcode::JumpRegisterIfNotDivideByZero { pointer } => {
                let taken: bool = !self.get_flag(Flag::DivideByZero);
                let target: Address = self.registers.get(pointer);
                self.branch(taken, target, Ghost(memory@));
            },
            _ => {},
        }
    }

    /// Executes an opcode that asks the periphery; `input` holds its answers.
    fn perform_peripheral(&mut self, opcode: Opcode, input: Input, Ghost(m): Ghost<Seq<u8>>)
        requires
            opcode.family_of() == Family::Peripheral,
        ensures
            final(self).snapshot(m) == old(self).snapshot(m).operated(opcode, input),
            final(self).exit_on_halt == old(self).exit_on_halt,
    {
        match opcode {
            Opcode::GetKeyState { target, keycode } => {
                self.put_result(target, truth(input.key_down), Ghost(m));
            },
            Opcode::PollTime { high, low } => {
                self.put(low, (input.time % 0x1_0000_0000) as Word, Ghost(m));
                self.put(high, (input.time / 0x1_0000_0000) as Word, Ghost(m));
            },
            Opcode::InvisibleFramebufferAddress { target } => {
                let address: Address = if input.first_framebuffer_visible {
                    SECOND_FRAMEBUFFER_START
                } else {
                    FIRST_FRAMEBUFFER_START
                };
                self.put(target, address, Ghost(m));
            },
            _ => {},
        }
    }

    /// Executes the no-op or an opcode that serves to test and to debug.
    fn perform_diagnostic(&mut self, opcode: Opcode, input: Input, Ghost(m): Ghost<Seq<u8>>)
        requires
            opcode.family_of() == Family::Diagnostic,
        ensures
            final(self).snapshot(m) == old(self).snapshot(m).operated(opcode, input),
            final(self).exit_on_halt == old(self).exit_on_halt,
    {
        match opcode {
            Opcode::PollCycleCountHighLow { high, low } => {
                let count: u64 = self.cycle_count;
                self.put(low, (count % 0x1_0000_0000) as Word, Ghost(m));
                self.put(high, (count / 0x1_0000_0000) as Word, Ghost(m));
            },
            Opcode::Checkpoint { immediate } => {
                self.checkpoint_counter = self.checkpoint_counter.wrapping_add(1);
            },
            _ => {},
        }
    }

    /// Executes `opcode`, with `input` as the answers of the periphery.
    pub fn perform(&mut self, opcode: Opcode, memory: &mut Memory, input: Input)
        requires
            old(memory).wf(),
            old(self).snapshot(old(memory)@).fault(opcode) is None,
        ensures
            final(memory).wf(),
            final(self).snapshot(final(memory)@) == old(self).snapshot(old(memory)@).executed(
                opcode,
                input,
            ),
            final(self).exit_on_halt == old(self).exit_on_halt,
    {
        match opcode.family() {
            Family::Move => self.perform_move(opcode, memory, input),
            Family::Arithmetic => self.perform_arithmetic(opcode, input, Ghost(memory@)),
            Family::Stack => self.perform_stack(opcode, memory, input),
            Family::ControlFlow => self.perform_control_flow(opcode, memory, input),
            Family::Peripheral => self.perform_peripheral(opcode, input, Ghost(memory@)),
            Family::Diagnostic => self.perform_diagnostic(opcode, input, Ghost(memory@)),
        }
        self.increase_cycle_count(opcode.get_num_cycles() as u64);
        if opcode.should_increment_instruction_pointer() {
            self.advance_instruction_pointer(Direction::Forwards);
        }
    }
    /// Why `width` bytes at `address` cannot be accessed, if they cannot.
    fn access_fault(address: Address, width: u32) -> (fault: Option<Fault>)
        requires
            width == 1 || width == 2 || width == 4 || width == 8,
        ensures
            fault == Snapshot::access_fault(address, width as int),
    {
        proof {
            reveal(accessible);
        }
        if address as u64 + width as u64 <= MEMORY_SIZE as u64 && address % width == 0 {
            None
        } else {
            Some(Fault::MemoryAccess)
        }
    }

    /// Why nothing can be pushed, if nothing can.
    fn push_fault(&self, Ghost(m): Ghost<Seq<u8>>) -> (fault: Option<Fault>)
        ensures
            fault == self.snapshot(m).push_fault(),
    {
        let top: Address = self.get_stack_pointer();
        proof {
            accessible_means(top as int, 4);
        }
        if Self::access_fault(top, 4).is_some() {
            Some(Fault::MemoryAccess)
        } else if !(STACK_START <= top + 4 && top + 4 <= STACK_END) {
            Some(Fault::StackBounds)
        } else {
            None
        }
    }

    /// Why nothing can be popped, if nothing can.
    fn pop_fault(&self, Ghost(m): Ghost<Seq<u8>>) -> (fault: Option<Fault>)
        ensures
            fault == self.snapshot(m).pop_fault(),
    {
        let top: Address = self.get_stack_pointer();
        if top < 4 || !(STACK_START <= top - 4 && top - 4 <= STACK_END) {
            Some(Fault::StackBounds)
        } else {
            Self::access_fault(top - 4, 4)
        }
    }

    /// Why an assertion that `actual` is `expected` fails, if it does.
    fn assertion_fault(actual: Word, expected: Word) -> (fault: Option<Fault>)
        ensures
            fault == Snapshot::assertion_fault(actual, expected),
    {
        if actual == expected {
            None
        } else {
            Some(Fault::Assertion)
        }
    }

    /// Tells why `opcode` cannot be executed now, if it cannot. Nothing is
    /// changed.
    #[verifier::rlimit(30)]
    pub fn check(&self, opcode: Opcode, memory: &Memory) -> (fault: Option<Fault>)
        requires
            memory.wf(),
        ensures
            fault == self.snapshot(memory@).fault(opcode),
    {
        match opcode {
            Opcode::MoveRegisterAddress { source_address, .. } => Self::access_fault(
                source_address,
                4,
            ),
            Opcode::MoveAddressRegister { target_address, .. } => Self::access_fault(
                target_address,
                4,
            ),
            Opcode::MoveTargetPointer { pointer, .. }
            | Opcode::MovePointerSource { pointer, .. } => Self::access_fault(
                self.registers.get(pointer),
                4,
            ),
            Opcode::MoveByteRegisterAddress { source_address, .. } => Self::access_fault(
                source_address,
                1,
            ),
            Opcode::MoveByteAddressRegister { target_address, .. } => Self::access_fault(
                target_address,
                1,
            ),
            Opcode::MoveByteTargetPointer { pointer, .. }
            | Opcode::MoveBytePointerSource { pointer, .. } => Self::access_fault(
                self.registers.get(pointer),
                1,
            ),
            Opcode::MoveHalfwordRegisterAddress { source_address, .. } => Self::access_fault(
                source_address,
                2,
            ),
            Opcode::MoveHalfwordAddressRegister { target_address, .. } => Self::access_fault(
                target_address,
                2,
            ),
            Opcode::MoveHalfwordTargetPointer { pointer, .. }
            | Opcode::MoveHalfwordPointerSource { pointer, .. } => Self::access_fault(
                self.registers.get(pointer),
                2,
            ),
            Opcode::MovePointerSourceOffset { pointer, immediate, .. }
            | Opcode::MoveTargetPointerOffset { pointer, immediate, .. } => Self::access_fault(
                displaced(self.registers.get(pointer), immediate),
                4,
            ),
            Opcode::MoveBytePointerSourceOffset { pointer, immediate, .. }
            | Opcode::MoveByteTargetPointerOffset { pointer, immediate, .. } => Self::access_fault(
                displaced(self.registers.get(pointer), immediate),
                1,
            ),
            Opcode::MoveHalfwordPointerSourceOffset { pointer, immediate, .. }
            | Opcode::MoveHalfwordTargetPointerOffset {
                pointer,
                immediate,
                ..
            } => Self::access_fault(displaced(self.registers.get(pointer), immediate), 2),
            Opcode::PushRegister { .. }
            | Opcode::PushImmediate { .. }
            | Opcode::CallAddress { .. }
            | Opcode::CallRegister { .. } => self.push_fault(Ghost(memory@)),
            Opcode::CallPointer { pointer } => {
                let pushing: Option<Fault> = self.push_fault(Ghost(memory@));
                if pushing.is_some() {
                    pushing
                } else {
                    let address: Address = if pointer.0 == STACK_POINTER {
                        self.get_stack_pointer() + 4
                    } else {
                        self.registers.get(pointer)
                    };
                    Self::access_fault(address, 4)
                }
            },
            Opcode::PopRegister { .. } | Opcode::Pop {  } | Opcode::Return {  } => self.pop_fault(
                Ghost(memory@),
            ),
            Opcode::AssertRegisterRegister { expected, actual } => Self::assertion_fault(
                self.registers.get(actual),
                self.registers.get(expected),
            ),
            Opcode::AssertRegisterImmediate { actual, immediate } => Self::assertion_fault(
                self.registers.get(actual),
                immediate,
            ),
            Opcode::AssertPointerImmediate { pointer, immediate } => {
                let address: Address = self.registers.get(pointer);
                if Self::access_fault(address, 4).is_some() {
                    Some(Fault::MemoryAccess)
                } else {
                    Self::assertion_fault(memory.read_data(address), immediate)
                }
            },
            Opcode::DebugBreak {  } => Some(Fault::DebugBreak),
            Opcode::Checkpoint { immediate } => if immediate == self.checkpoint_counter {
                None
            } else {
                Some(Fault::Checkpoint)
            },
            _ => None,
        }
    }

    /// Asks the periphery what `opcode` needs to know: the timer for
    /// poll-time, the keyboard for get-key-state, and nobody otherwise.
    fn gather<P: Periphery>(&self, opcode: Opcode, periphery: &mut P) -> (input: Input)
        requires
            old(periphery).usable(),
        ensures
            final(periphery).usable(),
            final(periphery).first_framebuffer_visible() == old(
                periphery,
            ).first_framebuffer_visible(),
            final(periphery).cursor_phase() == old(periphery).cursor_phase(),
            input.first_framebuffer_visible == old(periphery).first_framebuffer_visible(),
    {
        let first_framebuffer_visible: bool = periphery.is_first_framebuffer_visible();
        match opcode {
            Opcode::PollTime { .. } => {
                let time: u64 = periphery.get_ms_since_epoch();
                Input { time, key_down: false, first_framebuffer_visible }
            },
            Opcode::GetKeyState { keycode, .. } => {
                let key_down: bool = match periphery.get_keystate(self.registers.get(keycode)) {
                    KeyState::Down => true,
                    KeyState::Up => false,
                };
                Input { time: 0, key_down, first_framebuffer_visible }
            },
            _ => Input { time: 0, key_down: false, first_framebuffer_visible },
        }
    }

    /// Executes `opcode` against memory and periphery.
    ///
    /// The timer is asked once for poll-time and the keyboard once for
    /// get-key-state, with the keycode register's value; the state afterwards
    /// is that of `Snapshot::executed` for their answers. The display is
    /// swapped for swap-framebuffers and left alone otherwise.
    pub fn execute<P: Periphery>(
        &mut self,
        opcode: Opcode,
        memory: &mut Memory,
        periphery: &mut P,
    ) -> (outcome: Outcome)
        requires
            old(memory).wf(),
            old(periphery).usable(),
            old(self).snapshot(old(memory)@).fault(opcode) is None,
        ensures
            final(memory).wf(),
            final(periphery).usable(),
            exists|time: u64, key_down: bool|
                final(self).snapshot(final(memory)@) == #[trigger] old(self).snapshot(
                    old(memory)@,
                ).executed(
                    opcode,
                    Input {
                        time,
                        key_down,
                        first_framebuffer_visible: old(periphery).first_framebuffer_visible(),
                    },
                ),
            final(periphery).first_framebuffer_visible() == (old(
                periphery,
            ).first_framebuffer_visible() != (opcode is SwapFramebuffers)),
            final(periphery).cursor_phase() == old(periphery).cursor_phase(),
            final(self).exit_on_halt == old(self).exit_on_halt,
            outcome == Outcome::of(opcode, old(self).snapshot(old(memory)@)),
    {
        let input: Input = self.gather(opcode, periphery);
        let outcome: Outcome = self.announce(opcode, Ghost(memory@));
        self.perform(opcode, memory, input);
        match opcode {
            Opcode::SwapFramebuffers {  } => periphery.swap_framebuffers(),
            _ => {},
        }
        assert(self.snapshot(memory@) == old(self).snapshot(old(memory)@).executed(
            opcode,
            Input {
                time: input.time,
                key_down: input.key_down,
                first_framebuffer_visible: old(periphery).first_framebuffer_visible(),
            },
        ));
        outcome
    }

    /// What executing `opcode` now leaves for the host to do.
    fn announce(&self, opcode: Opcode, Ghost(m): Ghost<Seq<u8>>) -> (outcome: Outcome)
        ensures
            outcome == Outcome::of(opcode, self.snapshot(m)),
    {
        match opcode {
            Opcode::HaltAndCatchFire {  } => Outcome {
                result: ExecutionResult::Halted,
                diagnostic: Diagnostic::Nothing,
            },
            Opcode::DumpRegisters {  } => Outcome {
                result: ExecutionResult::Normal,
                diagnostic: Diagnostic::DumpRegisters,
            },
            Opcode::DumpMemory {  } => Outcome {
                result: ExecutionResult::Normal,
                diagnostic: Diagnostic::DumpMemory,
            },
            Opcode::PrintRegister { register } => Outcome {
                result: ExecutionResult::Normal,
                diagnostic: Diagnostic::PrintRegister {
                    register,
                    value: self.registers.get(register),
                },
            },
            _ => Outcome { result: ExecutionResult::Normal, diagnostic: Diagnostic::Nothing },
        }
    }
    /// The executor of `opcode`: the opcode with its operands taken apart,
    /// ready to be executed again and again.
    pub fn generate_cached_instruction(opcode: Opcode) -> (cached: CachedInstruction)
        ensures
            cached.opcode == opcode,
    {
        CachedInstruction { opcode }
    }

    /// What the processor is to execute next: the executor that the cache
    /// holds for the instruction pointer if it holds one, else the opcode
    /// that memory holds there, if it holds one. A fault if no instruction
    /// can stand at the instruction pointer.
    pub open spec fn fetched(before: Snapshot, cache: Seq<Option<CachedInstruction>>) -> Result<
        Option<Opcode>,
        Fault,
    > {
        let at = before.instruction_pointer();
        if !accessible(at as int, 8) {
            Err(Fault::MemoryAccess)
        } else {
            match cache[at as int / 8] {
                Some(cached) => Ok(Some(cached.opcode)),
                None => Ok(Opcode::decoding(instruction_at(before.memory, at as int))),
            }
        }
    }

    /// Whether a step leads from the state `before`, with the cache `cache`
    /// and the display showing the first framebuffer or not, to the state
    /// `after` with `cache_after` and `shown_after`, and ends with `result`.
    ///
    /// Where nothing can be fetched the step ends with the fault, and where
    /// no opcode can be decoded with `Error`; nothing has changed then. Else
    /// the cache holds the executor of the opcode. An opcode that cannot be
    /// executed ends the step with its fault and nothing else changed. An
    /// opcode that can is executed: the state is the one after it for some
    /// answer of timer and keyboard, and the display has swapped if the
    /// opcode is the swap.
    pub open spec fn steps(
        before: Snapshot,
        cache: Seq<Option<CachedInstruction>>,
        shown: bool,
        after: Snapshot,
        cache_after: Seq<Option<CachedInstruction>>,
        shown_after: bool,
        result: Result<Outcome, Fault>,
    ) -> bool {
        let slot = before.instruction_pointer() as int / 8;
        match Self::fetched(before, cache) {
            Err(fault) => {
                &&& result == Err::<Outcome, Fault>(fault)
                &&& after == before
                &&& shown_after == shown
                &&& cache_after == cache
            },
            Ok(None) => {
                &&& result == Ok::<Outcome, Fault>(
                    Outcome { result: ExecutionResult::Error, diagnostic: Diagnostic::Nothing },
                )
                &&& after == before
                &&& shown_after == shown
                &&& cache_after == cache
            },
            Ok(Some(opcode)) => {
                &&& cache_after == cache.update(slot, Some(CachedInstruction { opcode }))
                &&& match before.fault(opcode) {
                    Some(fault) => {
                        &&& result == Err::<Outcome, Fault>(fault)
                        &&& after == before
                        &&& shown_after == shown
                    },
                    None => {
                        &&& result == Ok::<Outcome, Fault>(Outcome::of(opcode, before))
                        &&& exists|time: u64, key_down: bool|
                            after == #[trigger] before.executed(
                                opcode,
                                Input { time, key_down, first_framebuffer_visible: shown },
                            )
                        &&& shown_after == (shown != (opcode is SwapFramebuffers))
                    },
                }
            },
        }
    }

    /// Executes the instruction at the instruction pointer.
    ///
    /// The executor comes from the cache; where the cache has none yet, the
    /// instruction is decoded and its executor put into the cache. An
    /// instruction that cannot be decoded ends the step with `Error`, and an
    /// opcode that cannot be executed with its fault: in both cases nothing
    /// but the cache has changed. Else the opcode is executed as `execute`
    /// says.
    pub fn step<P: Periphery>(
        &mut self,
        memory: &mut Memory,
        periphery: &mut P,
        instruction_cache: &mut InstructionCache,
    ) -> (result: Result<Outcome, Fault>)
        requires
            old(memory).wf(),
            old(periphery).usable(),
            old(instruction_cache).wf(),
        ensures
            final(memory).wf(),
            final(periphery).usable(),
            final(instruction_cache).wf(),
            final(self).exit_on_halt == old(self).exit_on_halt,
            final(periphery).cursor_phase() == old(periphery).cursor_phase(),
            Self::steps(
                old(self).snapshot(old(memory)@),
                old(instruction_cache).cache@,
                old(periphery).first_framebuffer_visible(),
                final(self).snapshot(final(memory)@),
                final(instruction_cache).cache@,
                final(periphery).first_framebuffer_visible(),
                result,
            ),
    {
        let at: Address = self.get_instruction_pointer();
        if Self::access_fault(at, 8).is_some() {
            return Err(Fault::MemoryAccess);
        }
        proof {
            accessible_means(at as int, 8);
        }
        let slot: usize = (at / 8) as usize;
        let opcode: Opcode = match instruction_cache.cache[slot] {
            Some(cached) => cached.opcode,
            None => match memory.read_opcode(at) {
                Ok(opcode) => {
                    instruction_cache.cache[slot] = Some(Self::generate_cached_instruction(opcode));
                    opcode
                },
                Err(_) => {
                    return Ok(
                        Outcome { result: ExecutionResult::Error, diagnostic: Diagnostic::Nothing },
                    );
                },
            },
        };
        assert(instruction_cache.cache@ =~= old(instruction_cache).cache@.update(
            slot as int,
            Some(CachedInstruction { opcode }),
        ));
        match self.check(opcode, memory) {
            Some(fault) => Err(fault),
            None => Ok(self.execute(opcode, memory, periphery)),
        }
    }

    /// Whether a step with the debugger's hook leads from the handle
    /// `handle` and the state `before` to `handle_after` and `after`, and
    /// ends with `result`.
    ///
    /// Unless the debugger's thread was found gone, which aborts the step
    /// with the registers as the debugger left them and nothing else
    /// changed, there are commands that arrived before the handle was asked
    /// and while execution was held, for which `HandleModel::asked` gives the
    /// handle afterwards, the registers that the debugger left and the
    /// decision. A decision to execute makes the step the one of `steps` from
    /// these registers. A decision to skip ends the step normally, and one to
    /// terminate aborts it, with nothing executed.
    pub open spec fn hooked(
        handle: HandleModel,
        handle_after: HandleModel,
        before: Snapshot,
        cache: Seq<Option<CachedInstruction>>,
        shown: bool,
        after: Snapshot,
        cache_after: Seq<Option<CachedInstruction>>,
        shown_after: bool,
        result: Result<Outcome, Abort>,
    ) -> bool {
        ||| {
            &&& result == Err::<Outcome, Abort>(Abort::Disconnected)
            &&& after == before.with_registers(after.registers)
            &&& cache_after == cache
            &&& shown_after == shown
        }
        ||| exists|first: Seq<DebugCommand>, second: Seq<DebugCommand>|
            {
                let asked = #[trigger] handle.asked(
                    before.registers,
                    before.memory,
                    first,
                    second,
                );
                let held = before.with_registers(asked.1);
                &&& handle_after == asked.0
                &&& match asked.2 {
                    Decision::Execute => match result {
                        Ok(outcome) => Self::steps(
                            held,
                            cache,
                            shown,
                            after,
                            cache_after,
                            shown_after,
                            Ok(outcome),
                        ),
                        Err(Abort::Fault(fault)) => Self::steps(
                            held,
                            cache,
                            shown,
                            after,
                            cache_after,
                            shown_after,
                            Err(fault),
                        ),
                        Err(_) => false,
                    },
                    Decision::Skip => {
                        &&& result == Ok::<Outcome, Abort>(
                            Outcome {
                                result: ExecutionResult::Normal,
                                diagnostic: Diagnostic::Nothing,
                            },
                        )
                        &&& after == held
                        &&& cache_after == cache
                        &&& shown_after == shown
                    },
                    Decision::Terminate => {
                        &&& result == Err::<Outcome, Abort>(Abort::Terminated)
                        &&& after == held
                        &&& cache_after == cache
                        &&& shown_after == shown
                    },
                }
            }
    }

    /// Asks the debugger's handle, and executes the instruction at the
    /// instruction pointer unless the handle holds the execution.
    ///
    /// Where the handle holds, nothing is executed and the step ends
    /// normally. Where the debugger has asked to end the process or is gone,
    /// the step is aborted. A handle without a debugger that is running,
    /// without breakpoints, never holds: the step is then the one of `step`.
    pub fn execute_next_instruction<P: Periphery>(
        &mut self,
        memory: &mut Memory,
        periphery: &mut P,
        instruction_cache: &mut InstructionCache,
        debug_handle: &mut DebugHandle,
    ) -> (result: Result<Outcome, Abort>)
        requires
            old(memory).wf(),
            old(periphery).usable(),
            old(instruction_cache).wf(),
        ensures
            final(memory).wf(),
            final(periphery).usable(),
            final(instruction_cache).wf(),
            final(self).exit_on_halt == old(self).exit_on_halt,
            final(periphery).cursor_phase() == old(periphery).cursor_phase(),
            final(debug_handle).attached() == old(debug_handle).attached(),
            Self::hooked(
                old(debug_handle)@,
                final(debug_handle)@,
                old(self).snapshot(old(memory)@),
                old(instruction_cache).cache@,
                old(periphery).first_framebuffer_visible(),
                final(self).snapshot(final(memory)@),
                final(instruction_cache).cache@,
                final(periphery).first_framebuffer_visible(),
                result,
            ),
            !old(debug_handle).attached() && old(debug_handle)@.idle() ==> {
                &&& final(debug_handle)@.idle()
                &&& !(result matches Err(Abort::Terminated))
                &&& !(result matches Err(Abort::Disconnected))
                &&& Self::steps(
                    old(self).snapshot(old(memory)@),
                    old(instruction_cache).cache@,
                    old(periphery).first_framebuffer_visible(),
                    final(self).snapshot(final(memory)@),
                    final(instruction_cache).cache@,
                    final(periphery).first_framebuffer_visible(),
                    match result {
                        Ok(outcome) => Ok(outcome),
                        Err(Abort::Fault(fault)) => Err(fault),
                        Err(_) => Err(Fault::DebugBreak),
                    },
                )
            },
    {
        let hook: Result<ShouldExecuteInstruction, Interruption> =
            debug_handle.before_instruction_execution(self, memory);
        let ghost before = old(self).snapshot(old(memory)@);
        let ghost held = self.snapshot(memory@);
        assert(held == before.with_registers(held.registers));
        let ghost mut first: Seq<DebugCommand> = Seq::empty();
        let ghost mut second: Seq<DebugCommand> = Seq::empty();
        proof {
            if hook != Err::<ShouldExecuteInstruction, Interruption>(Interruption::Disconnected) {
                let commands = choose|one: Seq<DebugCommand>, other: Seq<DebugCommand>|
                    {
                        let asked = #[trigger] old(debug_handle)@.asked(
                            before.registers,
                            before.memory,
                            one,
                            other,
                        );
                        &&& debug_handle@ == asked.0
                        &&& held.registers == asked.1
                        &&& hook == answer(asked.2)
                    };
                first = commands.0;
                second = commands.1;
            }
        }
        let result: Result<Outcome, Abort> = match hook {
            Err(Interruption::Terminated) => Err(Abort::Terminated),
            Err(Interruption::Disconnected) => Err(Abort::Disconnected),
            Ok(ShouldExecuteInstruction::No) => Ok(
                Outcome { result: ExecutionResult::Normal, diagnostic: Diagnostic::Nothing },
            ),
            Ok(ShouldExecuteInstruction::Yes) => {
                match self.step(memory, periphery, instruction_cache) {
                    Ok(outcome) => Ok(outcome),
                    Err(fault) => Err(Abort::Fault(fault)),
                }
            },
        };
        proof {
            if hook != Err::<ShouldExecuteInstruction, Interruption>(Interruption::Disconnected) {
                let asked = old(debug_handle)@.asked(
                    before.registers,
                    before.memory,
                    first,
                    second,
                );
                assert(held == before.with_registers(asked.1));
            }
        }
        result
    }
}

/// Why a step was given up.
#[derive(Clone, Copy, Debug, PartialEq, Eq, Structural)]
pub enum Abort {
    /// The instruction cannot be executed.
    Fault(Fault),
    /// The debugger asked to end the process.
    Terminated,
    /// The debugger's thread is gone.
    Disconnected,
}

/// The executor of one instruction: its opcode with the operands taken
/// apart.
#[derive(Clone, Copy, Debug, PartialEq, Eq, Structural)]
pub struct CachedInstruction {
    pub opcode: Opcode,
}

/// The number of slots of the instruction cache: one for each address at
/// which an instruction can stand.
pub const INSTRUCTION_CACHE_SIZE: usize = 2097152;

/// One slot for each address at which an instruction can stand; the slot of
/// an instruction is its address divided by eight. A slot is filled when its
/// instruction is executed first, and never emptied: what is written into
/// memory later does not reach an instruction that was executed before.
pub struct InstructionCache {
    pub cache: Vec<Option<CachedInstruction>>,
}

impl InstructionCache {
    pub open spec fn wf(&self) -> bool {
        self.cache@.len() == INSTRUCTION_CACHE_SIZE
    }

    /// A cache in which every slot is empty.
    pub fn new() -> (cache: Self)
        ensures
            cache.wf(),
            forall|i: int| 0 <= i < INSTRUCTION_CACHE_SIZE ==> cache.cache@[i] is None,
    {
        let mut cache: Vec<Option<CachedInstruction>> = Vec::with_capacity(INSTRUCTION_CACHE_SIZE);
        let mut filled: usize = 0;
        while filled < INSTRUCTION_CACHE_SIZE
            invariant
                filled <= INSTRUCTION_CACHE_SIZE,
                cache@.len() == filled,
                forall|i: int| 0 <= i < filled ==> cache@[i] is None,
            decreases INSTRUCTION_CACHE_SIZE - filled,
        {
            cache.push(None);
            filled = filled + 1;
        }
        InstructionCache { cache }
    }
}

/// What an instruction leaves for the host to do.
#[derive(Clone, Copy, Debug, PartialEq, Eq, Structural)]
pub enum Diagnostic {
    Nothing,
    /// Dump the register file as it was when the instruction began, which
    /// `Processor::dumped_registers` gives.
    DumpRegisters,
    /// Dump the memory image.
    DumpMemory,
    /// Print the register, which held `value`.
    PrintRegister { register: Register, value: Word },
}

/// How an instruction ended, and what it leaves for the host to do.
#[derive(Clone, Copy, Debug, PartialEq, Eq, Structural)]
pub struct Outcome {
    pub result: ExecutionResult,
    pub diagnostic: Diagnostic,
}

impl Outcome {
    /// The outcome of executing `opcode` in the state `before`: the halt
    /// halts, the dumps and print-register ask the host, and every other
    /// opcode ends normally with nothing to do.
    pub open spec fn of(opcode: Opcode, before: Snapshot) -> Outcome {
        match opcode {
            Opcode::HaltAndCatchFire {  } => Outcome {
                result: ExecutionResult::Halted,
                diagnostic: Diagnostic::Nothing,
            },
            Opcode::DumpRegisters {  } => Outcome {
                result: ExecutionResult::Normal,
                diagnostic: Diagnostic::DumpRegisters,
            },
            Opcode::DumpMemory {  } => Outcome {
                result: ExecutionResult::Normal,
                diagnostic: Diagnostic::DumpMemory,
            },
            Opcode::PrintRegister { register } => Outcome {
                result: ExecutionResult::Normal,
                diagnostic: Diagnostic::PrintRegister { register, value: before.register(register) },
            },
            _ => Outcome { result: ExecutionResult::Normal, diagnostic: Diagnostic::Nothing },
        }
    }
}

/// The address `offset` bytes behind `base`, modulo 2^32.
fn displaced(base: Address, offset: Word) -> (address: Address)
    ensures
        address == wrap(base + offset),
{
    base.wrapping_add(offset)
}

/// One for true, zero for false.
fn truth(holds: bool) -> (value: Word)
    ensures
        value == if holds {
            1u32
        } else {
            0u32
        },
{
    if holds {
        1
    } else {
        0
    }
}

} // verus!
