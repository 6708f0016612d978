//! What an instruction does: the state of the machine after an opcode was
//! executed, as a function of the state before it, and the conditions under
//! which an opcode cannot be executed at all.

use vstd::prelude::*;
use vstd::std_specs::bits::{u32_leading_zeros, u32_trailing_zeros};
use crate::address_constants::{STACK_END, STACK_START};
use crate::display::invisible_address;
use crate::memory::{accessible, halfword_at, with_halfword, with_word, word_at, MEMORY_SIZE};
use crate::opcodes::Opcode;
use crate::{Address, Byte, Halfword, Register, Word};

verus! {

/// The number of registers.
pub const NUM_REGISTERS: usize = 256;

/// The index of the register that holds the flags.
pub const FLAGS: u8 = 253;

/// The index of the register that holds the address of the next instruction.
pub const INSTRUCTION_POINTER: u8 = 254;

/// The index of the register that holds the address of the first free word of
/// the stack.
pub const STACK_POINTER: u8 = 255;

/// One bit of the flags register.
#[derive(Clone, Copy, Debug, PartialEq, Eq, Structural)]
pub enum Flag {
    Zero,
    Carry,
    DivideByZero,
}

impl Flag {
    /// The flags register with only this flag set.
    pub open spec fn mask(self) -> Word {
        match self {
            Flag::Zero => 0b001,
            Flag::Carry => 0b010,
            Flag::DivideByZero => 0b100,
        }
    }

    /// Whether the flag is set in the flags register `flags`.
    pub open spec fn is_in(self, flags: Word) -> bool {
        flags & self.mask() == self.mask()
    }

    /// The flags register `flags` with the flag set or cleared; every other
    /// bit stays as it is.
    pub open spec fn put_in(self, flags: Word, set: bool) -> Word {
        if set {
            flags | self.mask()
        } else {
            flags & !self.mask()
        }
    }
}

/// A flag that was put is the flag that is read, and the other two flags are
/// not touched.
pub proof fn flag_round_trip(flags: Word, flag: Flag, other: Flag, set: bool)
    ensures
        flag.is_in(flag.put_in(flags, set)) == set,
        other != flag ==> other.is_in(flag.put_in(flags, set)) == other.is_in(flags),
{
    let a = flag.mask();
    let b = other.mask();
    assert((flags | a) & a == a) by (bit_vector);
    assert(a != 0 ==> (flags & !a) & a != a) by (bit_vector);
    assert((a == 1 || a == 2 || a == 4) && (b == 1 || b == 2 || b == 4) && a != b ==> ((flags | a)
        & b == b <==> flags & b == b)) by (bit_vector);
    assert((a == 1 || a == 2 || a == 4) && (b == 1 || b == 2 || b == 4) && a != b ==> ((flags & !a)
        & b == b <==> flags & b == b)) by (bit_vector);
}

/// Putting a flag changes no bit of the flags register but its own.
pub proof fn flag_keeps_other_bits(flags: Word, flag: Flag, set: bool)
    ensures
        flag.put_in(flags, set) & !flag.mask() == flags & !flag.mask(),
{
    let a = flag.mask();
    assert((flags | a) & !a == flags & !a) by (bit_vector);
    assert((flags & !a) & !a == flags & !a) by (bit_vector);
}

/// `value` modulo 2^32.
pub open spec fn wrap(value: int) -> Word {
    (value % 0x1_0000_0000) as Word
}

/// `value` shifted left by `amount` bits; bits that leave the word are lost.
pub open spec fn shifted_left(value: Word, amount: Word) -> Word {
    if amount >= 32 {
        0
    } else {
        value << amount
    }
}

/// `value` shifted right by `amount` bits; bits that leave the word are lost.
pub open spec fn shifted_right(value: Word, amount: Word) -> Word {
    if amount >= 32 {
        0
    } else {
        value >> amount
    }
}

/// What the periphery tells the processor while an opcode is executed.
#[derive(Clone, Copy, Debug, PartialEq, Eq, Structural)]
pub struct Input {
    /// The timer's answer, in milliseconds since the epoch.
    pub time: u64,
    /// Whether the keyboard said that the key that was asked for is down.
    pub key_down: bool,
    /// Whether the display shows the first framebuffer.
    pub first_framebuffer_visible: bool,
}

/// Why an opcode cannot be executed.
#[derive(Clone, Copy, Debug, PartialEq, Eq, Structural)]
pub enum Fault {
    /// An access to memory is not aligned or does not lie in the image.
    MemoryAccess,
    /// The stack pointer would leave the stack region.
    StackBounds,
    /// An assertion of the program does not hold.
    Assertion,
    /// The checkpoint is not the one that is due.
    Checkpoint,
    /// The program asked to break.
    DebugBreak,
}

/// The state that instructions read and change: registers, memory and the
/// two counters of the processor.
pub struct Snapshot {
    pub registers: Seq<Word>,
    pub memory: Seq<u8>,
    pub cycle_count: u64,
    pub checkpoint_counter: Word,
}

impl Snapshot {
    pub open spec fn wf(self) -> bool {
        &&& self.registers.len() == NUM_REGISTERS
        &&& self.memory.len() == MEMORY_SIZE
    }

    pub open spec fn register(self, register: Register) -> Word {
        self.registers[register.index()]
    }

    pub open spec fn with_register(self, register: Register, value: Word) -> Snapshot {
        Snapshot { registers: self.registers.update(register.index(), value), ..self }
    }

    /// The state with all registers replaced.
    pub open spec fn with_registers(self, registers: Seq<Word>) -> Snapshot {
        Snapshot { registers, ..self }
    }

    pub open spec fn flag(self, flag: Flag) -> bool {
        flag.is_in(self.register(Register(FLAGS)))
    }

    pub open spec fn with_flag(self, flag: Flag, set: bool) -> Snapshot {
        self.with_register(Register(FLAGS), flag.put_in(self.register(Register(FLAGS)), set))
    }

    /// One if the carry flag is set, else zero.
    pub open spec fn carry_in(self) -> int {
        if self.flag(Flag::Carry) {
            1
        } else {
            0
        }
    }

    pub open spec fn instruction_pointer(self) -> Address {
        self.register(Register(INSTRUCTION_POINTER))
    }

    pub open spec fn stack_pointer(self) -> Address {
        self.register(Register(STACK_POINTER))
    }

    /// The state with the instruction pointer at `target`.
    pub open spec fn jumped(self, target: Address) -> Snapshot {
        self.with_register(Register(INSTRUCTION_POINTER), target)
    }

    /// The address of the instruction behind the current one.
    pub open spec fn next_instruction(self) -> Address {
        wrap(self.instruction_pointer() + 8)
    }

    /// The state with the instruction pointer at the next instruction.
    pub open spec fn advanced(self) -> Snapshot {
        self.jumped(self.next_instruction())
    }

    /// The state after a conditional jump to `target`.
    pub open spec fn branched(self, taken: bool, target: Address) -> Snapshot {
        if taken {
            self.jumped(target)
        } else {
            self.advanced()
        }
    }

    pub open spec fn byte(self, address: Address) -> Byte {
        self.memory[address as int]
    }

    pub open spec fn halfword(self, address: Address) -> Halfword {
        halfword_at(self.memory, address as int)
    }

    pub open spec fn word(self, address: Address) -> Word {
        word_at(self.memory, address as int)
    }

    pub open spec fn with_byte(self, address: Address, value: Byte) -> Snapshot {
        Snapshot { memory: self.memory.update(address as int, value), ..self }
    }

    pub open spec fn with_halfword(self, address: Address, value: Halfword) -> Snapshot {
        Snapshot { memory: with_halfword(self.memory, address as int, value), ..self }
    }

    pub open spec fn with_word(self, address: Address, value: Word) -> Snapshot {
        Snapshot { memory: with_word(self.memory, address as int, value), ..self }
    }

    /// The state with `value` in `target` and the zero flag set if and only
    /// if `value` is zero.
    pub open spec fn with_result(self, target: Register, value: Word) -> Snapshot {
        self.with_register(target, value).with_flag(Flag::Zero, value == 0)
    }

    /// The state after an addition whose exact sum is `exact`: the sum modulo
    /// 2^32 in `target`, zero flag by that value, carry flag set if and only
    /// if the exact sum does not fit in a word.
    pub open spec fn with_sum(self, target: Register, exact: int) -> Snapshot {
        self.with_result(target, wrap(exact)).with_flag(Flag::Carry, exact > Word::MAX)
    }

    /// The state after a subtraction whose exact difference is `exact`: the
    /// difference modulo 2^32 in `target`, zero flag by that value, carry flag
    /// set if and only if the exact difference is negative.
    pub open spec fn with_difference(self, target: Register, exact: int) -> Snapshot {
        self.with_result(target, wrap(exact)).with_flag(Flag::Carry, exact < 0)
    }

    /// The state after a shift that gave `value`.
    pub open spec fn with_shift(self, target: Register, value: Word, carry: bool) -> Snapshot {
        self.with_result(target, value).with_flag(Flag::Carry, carry)
    }

    /// The state with `value` on top of the stack.
    pub open spec fn pushed(self, value: Word) -> Snapshot {
        self.with_word(self.stack_pointer(), value).with_register(
            Register(STACK_POINTER),
            (self.stack_pointer() + 4) as Word,
        )
    }

    /// The word on top of the stack.
    pub open spec fn top(self) -> Word {
        self.word((self.stack_pointer() - 4) as Word)
    }

    /// The state without the word on top of the stack.
    pub open spec fn popped(self) -> Snapshot {
        self.with_register(Register(STACK_POINTER), (self.stack_pointer() - 4) as Word)
    }

    /// The state after a call: the address of the next instruction is on the
    /// stack.
    pub open spec fn called(self) -> Snapshot {
        self.pushed(self.next_instruction())
    }

    /// Why `width` bytes at `address` cannot be accessed, if they cannot.
    pub open spec fn access_fault(address: Address, width: int) -> Option<Fault> {
        if accessible(address as int, width) {
            None
        } else {
            Some(Fault::MemoryAccess)
        }
    }

    /// Why nothing can be pushed, if nothing can: the word at the stack
    /// pointer must be accessible, and the stack pointer must stay in the
    /// stack region.
    pub open spec fn push_fault(self) -> Option<Fault> {
        if !accessible(self.stack_pointer() as int, 4) {
            Some(Fault::MemoryAccess)
        } else if !(STACK_START <= self.stack_pointer() + 4 <= STACK_END) {
            Some(Fault::StackBounds)
        } else {
            None
        }
    }

    /// Why nothing can be popped, if nothing can: the stack pointer must stay
    /// in the stack region, and the word under it must be accessible.
    pub open spec fn pop_fault(self) -> Option<Fault> {
        if !(STACK_START <= self.stack_pointer() - 4 <= STACK_END) {
            Some(Fault::StackBounds)
        } else if !accessible(self.stack_pointer() - 4, 4) {
            Some(Fault::MemoryAccess)
        } else {
            None
        }
    }

    /// Why an assertion that `actual` is `expected` fails, if it does.
    pub open spec fn assertion_fault(actual: Word, expected: Word) -> Option<Fault> {
        if actual == expected {
            None
        } else {
            Some(Fault::Assertion)
        }
    }

    /// Why `opcode` cannot be executed in this state, if it cannot.
    pub open spec fn fault(self, opcode: Opcode) -> Option<Fault> {
        match opcode {
            Opcode::MoveRegisterAddress { source_address, .. } => Self::access_fault(
                source_address,
                4,
            ),
            Opcode::MoveAddressRegister { target_address, .. } => Self::access_fault(
                target_address,
                4,
            ),
            Opcode::MoveTargetPointer { pointer, .. }
            | Opcode::MovePointerSource { pointer, .. } => Self::access_fault(
                self.register(pointer),
                4,
            ),
            Opcode::MoveByteRegisterAddress { source_address, .. } => Self::access_fault(
                source_address,
                1,
            ),
            Opcode::MoveByteAddressRegister { target_address, .. } => Self::access_fault(
                target_address,
                1,
            ),
            Opcode::MoveByteTargetPointer { pointer, .. }
            | Opcode::MoveBytePointerSource { pointer, .. } => Self::access_fault(
                self.register(pointer),
                1,
            ),
            Opcode::MoveHalfwordRegisterAddress { source_address, .. } => Self::access_fault(
                source_address,
                2,
            ),
            Opcode::MoveHalfwordAddressRegister { target_address, .. } => Self::access_fault(
                target_address,
                2,
            ),
            Opcode::MoveHalfwordTargetPointer { pointer, .. }
            | Opcode::MoveHalfwordPointerSource { pointer, .. } => Self::access_fault(
                self.register(pointer),
                2,
            ),
            Opcode::MovePointerSourceOffset { pointer, immediate, .. }
            | Opcode::MoveTargetPointerOffset { pointer, immediate, .. } => Self::access_fault(
                wrap(self.register(pointer) + immediate),
                4,
            ),
            Opcode::MoveBytePointerSourceOffset { pointer, immediate, .. }
            | Opcode::MoveByteTargetPointerOffset { pointer, immediate, .. } => Self::access_fault(
                wrap(self.register(pointer) + immediate),
                1,
            ),
            Opcode::MoveHalfwordPointerSourceOffset { pointer, immediate, .. }
            | Opcode::MoveHalfwordTargetPointerOffset {
                pointer,
                immediate,
                ..
            } => Self::access_fault(wrap(self.register(pointer) + immediate), 2),
            Opcode::PushRegister { .. }
            | Opcode::PushImmediate { .. }
            | Opcode::CallAddress { .. }
            | Opcode::CallRegister { .. } => self.push_fault(),
            Opcode::CallPointer { pointer } => if self.push_fault() is Some {
                self.push_fault()
            } else {
                Self::access_fault(self.called().register(pointer), 4)
            },
            Opcode::PopRegister { .. } | Opcode::Pop {  } | Opcode::Return {  } => self.pop_fault(),
            Opcode::AssertRegisterRegister { expected, actual } => Self::assertion_fault(
                self.register(actual),
                self.register(expected),
            ),
            Opcode::AssertRegisterImmediate { actual, immediate } => Self::assertion_fault(
                self.register(actual),
                immediate,
            ),
            Opcode::AssertPointerImmediate { pointer, immediate } => if !accessible(
                self.register(pointer) as int,
                4,
            ) {
                Some(Fault::MemoryAccess)
            } else {
                Self::assertion_fault(self.word(self.register(pointer)), immediate)
            },
            Opcode::DebugBreak {  } => Some(Fault::DebugBreak),
            Opcode::Checkpoint { immediate } => if immediate == self.checkpoint_counter {
                None
            } else {
                Some(Fault::Checkpoint)
            },
            _ => None,
        }
    }

    /// The state after the work of `opcode` itself, before the cycle is
    /// counted and the instruction pointer moves on.
    pub open spec fn operated(self, opcode: Opcode, input: Input) -> Snapshot {
        match opcode {
            Opcode::MoveRegisterImmediate { register, immediate } => self.with_register(
                register,
                immediate,
            ),
            Opcode::MoveRegisterAddress { register, source_address } => self.with_register(
                register,
                self.word(source_address),
            ),
            Opcode::MoveTargetSource { target, source } => self.with_register(
                target,
                self.register(source),
            ),
            Opcode::MoveAddressRegister { register, target_address } => self.with_word(
                target_address,
                self.register(register),
            ),
            Opcode::MoveTargetPointer { target, pointer } => self.with_register(
                target,
                self.word(self.register(pointer)),
            ),
            Opcode::MovePointerSource { pointer, source } => self.with_word(
                self.register(pointer),
                self.register(source),
            ),
            Opcode::MoveByteRegisterAddress { register, source_address } => self.with_register(
                register,
                self.byte(source_address) as Word,
            ),
            Opcode::MoveByteAddressRegister { register, target_address } => self.with_byte(
                target_address,
                (self.register(register) % 0x100) as Byte,
            ),
            Opcode::MoveByteTargetPointer { target, pointer } => self.with_register(
                target,
                self.byte(self.register(pointer)) as Word,
            ),
            Opcode::MoveBytePointerSource { pointer, source } => self.with_byte(
                self.register(pointer),
                (self.register(source) % 0x100) as Byte,
            ),
            Opcode::MoveHalfwordRegisterAddress { register, source_address } => self.with_register(
                register,
                self.halfword(source_address) as Word,
            ),
            Opcode::MoveHalfwordAddressRegister { register, target_address } => self.with_halfword(
                target_address,
                (self.register(register) % 0x1_0000) as Halfword,
            ),
            Opcode::MoveHalfwordTargetPointer { target, pointer } => self.with_register(
                target,
                self.halfword(self.register(pointer)) as Word,
            ),
            Opcode::MoveHalfwordPointerSource { pointer, source } => self.with_halfword(
                self.register(pointer),
                (self.register(source) % 0x1_0000) as Halfword,
            ),
            Opcode::MovePointerSourceOffset { pointer, source, immediate } => self.with_word(
                wrap(self.register(pointer) + immediate),
                self.register(source),
            ),
            Opcode::MoveBytePointerSourceOffset { pointer, source, immediate } => self.with_byte(
                wrap(self.register(pointer) + immediate),
                (self.register(source) % 0x100) as Byte,
            ),
            Opcode::MoveHalfwordPointerSourceOffset {
                pointer,
                source,
                immediate,
            } => self.with_halfword(
                wrap(self.register(pointer) + immediate),
                (self.register(source) % 0x1_0000) as Halfword,
            ),
            Opcode::MoveTargetPointerOffset { target, pointer, immediate } => self.with_register(
                target,
                self.word(wrap(self.register(pointer) + immediate)),
            ),
            Opcode::MoveByteTargetPointerOffset {
                target,
                pointer,
                immediate,
            } => self.with_register(
                target,
                self.byte(wrap(self.register(pointer) + immediate)) as Word,
            ),
            Opcode::MoveHalfwordTargetPointerOffset {
                target,
                pointer,
                immediate,
            } => self.with_register(
                target,
                self.halfword(wrap(self.register(pointer) + immediate)) as Word,
            ),
            Opcode::HaltAndCatchFire {  } => self,
            Opcode::AddTargetLhsRhs { target, lhs, rhs } => self.with_sum(
                target,
                self.register(lhs) + self.register(rhs),
            ),
            Opcode::AddWithCarryTargetLhsRhs { target, lhs, rhs } => self.with_sum(
                target,
                self.register(lhs) + self.register(rhs) + self.carry_in(),
            ),
            Opcode::SubtractTargetLhsRhs { target, lhs, rhs } => self.with_difference(
                target,
                self.register(lhs) - self.register(rhs),
            ),
            Opcode::SubtractWithCarryTargetLhsRhs { target, lhs, rhs } => self.with_difference(
                target,
                self.register(lhs) - self.register(rhs) - self.carry_in(),
            ),
            Opcode::MultiplyHighLowLhsRhs { high, low, lhs, rhs } => {
                let product = self.register(lhs) * self.register(rhs);
                let upper = (product / 0x1_0000_0000) as Word;
                let lower = (product % 0x1_0000_0000) as Word;
                self.with_register(high, upper).with_register(low, lower).with_flag(
                    Flag::Zero,
                    lower == 0,
                ).with_flag(Flag::Carry, upper > 0)
            },
            Opcode::DivmodTargetModLhsRhs { result, remainder, lhs, rhs } => {
                let dividend = self.register(lhs);
                let divisor = self.register(rhs);
                if divisor == 0 {
                    self.with_register(result, 0).with_register(remainder, dividend).with_flag(
                        Flag::Zero,
                        true,
                    ).with_flag(Flag::DivideByZero, true)
                } else {
                    self.with_register(result, dividend / divisor).with_register(
                        remainder,
                        dividend % divisor,
                    ).with_flag(Flag::Zero, dividend / divisor == 0).with_flag(
                        Flag::DivideByZero,
                        false,
                    )
                }
            },
            Opcode::AndTargetLhsRhs { target, lhs, rhs } => self.with_result(
                target,
                self.register(lhs) & self.register(rhs),
            ),
            Opcode::OrTargetLhsRhs { target, lhs, rhs } => self.with_result(
                target,
                self.register(lhs) | self.register(rhs),
            ),
            Opcode::XorTargetLhsRhs { target, lhs, rhs } => self.with_result(
                target,
                self.register(lhs) ^ self.register(rhs),
            ),
            Opcode::NotTargetSource { target, source } => self.with_result(
                target,
                !self.register(source),
            ),
            Opcode::LeftShiftTargetLhsRhs { target, lhs, rhs } => {
                let value = self.register(lhs);
                let amount = self.register(rhs);
                self.with_shift(
                    target,
                    shifted_left(value, amount),
                    if amount > 32 {
                        value > 0
                    } else {
                        amount > u32_leading_zeros(value)
                    },
                )
            },
            Opcode::RightShiftTargetLhsRhs { target, lhs, rhs } => {
                let value = self.register(lhs);
                let amount = self.register(rhs);
                self.with_shift(
                    target,
                    shifted_right(value, amount),
                    if amount > 32 {
                        value > 0
                    } else {
                        amount > u32_trailing_zeros(value)
                    },
                )
            },
            Opcode::AddTargetSourceImmediate { target, source, immediate } => self.with_sum(
                target,
                self.register(source) + immediate,
            ),
            Opcode::SubtractTargetSourceImmediate { target, source, immediate } => self.with_difference(
                target,
                self.register(source) - immediate,
            ),
            Opcode::CompareTargetLhsRhs { target, lhs, rhs } => self.with_result(
                target,
                if self.register(lhs) < self.register(rhs) {
                    Word::MAX
                } else if self.register(lhs) == self.register(rhs) {
                    0
                } else {
                    1
                },
            ),
            Opcode::BoolCompareEquals { target, lhs, rhs } => self.with_register(
                target,
                if self.register(lhs) == self.register(rhs) {
                    1
                } else {
                    0
                },
            ),
            Opcode::BoolCompareNotEquals { target, lhs, rhs } => self.with_register(
                target,
                if self.register(lhs) != self.register(rhs) {
                    1
                } else {
                    0
                },
            ),
            Opcode::BoolCompareGreater { target, lhs, rhs } => self.with_register(
                target,
                if self.register(lhs) > self.register(rhs) {
                    1
                } else {
                    0
                },
            ),
            Opcode::BoolCompareGreaterOrEquals { target, lhs, rhs } => self.with_register(
                target,
                if self.register(lhs) >= self.register(rhs) {
                    1
                } else {
                    0
                },
            ),
            Opcode::BoolCompareLess { target, lhs, rhs } => self.with_register(
                target,
                if self.register(lhs) < self.register(rhs) {
                    1
                } else {
                    0
                },
            ),
            Opcode::BoolCompareLessOrEquals { target, lhs, rhs } => self.with_register(
                target,
                if self.register(lhs) <= self.register(rhs) {
                    1
                } else {
                    0
                },
            ),
            Opcode::PushRegister { register } => self.pushed(self.register(register)),
            Opcode::PushImmediate { immediate } => self.pushed(immediate),
            Opcode::PopRegister { register } => self.popped().with_register(register, self.top()),
            Opcode::Pop {  } => self.popped(),
            Opcode::CallAddress { source_address } => self.called().jumped(source_address),
            Opcode::CallRegister { register } => self.called().jumped(
                self.called().register(register),
            ),
            Opcode::CallPointer { pointer } => self.called().jumped(
                self.called().word(self.called().register(pointer)),
            ),
            Opcode::Return {  } => self.popped().jumped(self.top()),
            Opcode::JumpImmediate { immediate } => self.jumped(immediate),
            Opcode::JumpRegister { register } => self.jumped(self.register(register)),
            Opcode::JumpImmediateIfEqual { comparison, immediate } => self.branched(
                self.register(comparison) == 0,
                immediate,
            ),
            Opcode::JumpImmediateIfGreaterThan { comparison, immediate } => self.branched(
                self.register(comparison) == 1,
                immediate,
            ),
            Opcode::JumpImmediateIfLessThan { comparison, immediate } => self.branched(
                self.register(comparison) == Word::MAX,
                immediate,
            ),
            Opcode::JumpImmediateIfGreaterThanOrEqual { comparison, immediate } => self.branched(
                self.register(comparison) == 0 || self.register(comparison) == 1,
                immediate,
            ),
            Opcode::JumpImmediateIfLessThanOrEqual { comparison, immediate } => self.branched(
                self.register(comparison) == 0 || self.register(comparison) == Word::MAX,
                immediate,
            ),
            Opcode::JumpImmediateIfZero { immediate } => self.branched(
                self.flag(Flag::Zero),
                immediate,
            ),
            Opcode::JumpImmediateIfNotZero { immediate } => self.branched(
                !self.flag(Flag::Zero),
                immediate,
            ),
            Opcode::JumpImmediateIfCarry { immediate } => self.branched(
                self.flag(Flag::Carry),
                immediate,
            ),
            Opcode::JumpImmediateIfNotCarry { immediate } => self.branched(
                !self.flag(Flag::Carry),
                immediate,
            ),
            Opcode::JumpImmediateIfDivideByZero { immediate } => self.branched(
                self.flag(Flag::DivideByZero),
                immediate,
            ),
            Opcode::JumpImmediateIfNotDivideByZero { immediate } => self.branched(
                !self.flag(Flag::DivideByZero),
                immediate,
            ),
            Opcode::JumpRegisterIfEqual { pointer, comparison } => self.branched(
                self.register(comparison) == 0,
                self.register(pointer),
            ),
            Opcode::JumpRegisterIfGreaterThan { pointer, comparison } => self.branched(
                self.register(comparison) == 1,
                self.register(pointer),
            ),
            Opcode::JumpRegisterIfLessThan { pointer, comparison } => self.branched(
                self.register(comparison) == Word::MAX,
                self.register(pointer),
            ),
            Opcode::JumpRegisterIfGreaterThanOrEqual { pointer, comparison } => self.branched(
                self.register(comparison) == 0 || self.register(comparison) == 1,
                self.register(pointer),
            ),
            Opcode::JumpRegisterIfLessThanOrEqual { pointer, comparison } => self.branched(
                self.register(comparison) == 0 || self.register(comparison) == Word::MAX,
                self.register(pointer),
            ),
            Opcode::JumpRegisterIfZero { pointer } => self.branched(
                self.flag(Flag::Zero),
                self.register(pointer),
            ),
            Opcode::JumpRegisterIfNotZero { pointer } => self.branched(
                !self.flag(Flag::Zero),
                self.register(pointer),
            ),
            Opcode::JumpRegisterIfCarry { pointer } => self.branched(
                self.flag(Flag::Carry),
                self.register(pointer),
            ),
            Opcode::JumpRegisterIfNotCarry { pointer } => self.branched(
                !self.flag(Flag::Carry),
                self.register(pointer),
            ),
            Opcode::JumpRegisterIfDivideByZero { pointer } => self.branched(
                self.flag(Flag::DivideByZero),
                self.register(pointer),
            ),
            Opcode::JumpRegisterIfNotDivideByZero { pointer } => self.branched(
                !self.flag(Flag::DivideByZero),
                self.register(pointer),
            ),
            Opcode::NoOp {  } => self,
            Opcode::GetKeyState { target, keycode } => self.with_result(
                target,
                if input.key_down {
                    1
                } else {
                    0
                },
            ),
            Opcode::PollTime { high, low } => self.with_register(
                low,
                (input.time % 0x1_0000_0000) as Word,
            ).with_register(high, (input.time / 0x1_0000_0000) as Word),
            Opcode::SwapFramebuffers {  } => self,
            Opcode::InvisibleFramebufferAddress { target } => self.with_register(
                target,
                invisible_address(input.first_framebuffer_visible),
            ),
            Opcode::PollCycleCountHighLow { high, low } => self.with_register(
                low,
                (self.cycle_count % 0x1_0000_0000) as Word,
            ).with_register(high, (self.cycle_count / 0x1_0000_0000) as Word),
            Opcode::DumpRegisters {  } => self,
            Opcode::DumpMemory {  } => self,
            Opcode::AssertRegisterRegister { .. } => self,
            Opcode::AssertRegisterImmediate { .. } => self,
            Opcode::AssertPointerImmediate { .. } => self,
            Opcode::DebugBreak {  } => self,
            Opcode::PrintRegister { .. } => self,
            Opcode::Checkpoint { .. } => Snapshot {
                checkpoint_counter: wrap(self.checkpoint_counter + 1),
                ..self
            },
        }
    }

    /// The state with one more cycle counted; the counter wraps at 2^64.
    pub open spec fn counted(self) -> Snapshot {
        Snapshot {
            cycle_count: ((self.cycle_count + 1) % 0x1_0000_0000_0000_0000) as u64,
            ..self
        }
    }

    /// The state after `opcode` was executed: its work is done, one cycle is
    /// counted, and the instruction pointer has moved on to the next
    /// instruction unless the opcode sets it itself.
    pub open spec fn executed(self, opcode: Opcode, input: Input) -> Snapshot {
        let done = self.operated(opcode, input).counted();
        if opcode.advances() {
            done.advanced()
        } else {
            done
        }
    }
}

} // verus!
