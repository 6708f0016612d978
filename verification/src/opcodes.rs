//! The instruction set: every opcode with its operands, its 16-bit code and
//! its place in the 64-bit instruction word.
//!
//! An instruction holds the code in its two most significant bytes. The
//! registers of the opcode follow, one byte each, in the order in which the
//! opcode names them. An immediate or an address takes the four least
//! significant bytes. Bytes that the opcode does not use are zero.

use vstd::prelude::*;
use crate::{Address, Instruction, Register, Word};

verus! {

#[derive(Clone, Copy, Debug, PartialEq, Eq, Structural)]
pub enum Opcode {
    /// `0x0000`: Move the value C into register R.
    MoveRegisterImmediate { register: Register, immediate: Word },
    /// `0x0001`: Move the value at address A into register R.
    MoveRegisterAddress { register: Register, source_address: Address },
    /// `0x0002`: Move the contents of register S into register T.
    MoveTargetSource { target: Register, source: Register },
    /// `0x0003`: Move the contents of register R into memory at address A.
    MoveAddressRegister { register: Register, target_address: Address },
    /// `0x0004`: Move the contents addressed by the value of register P into register T.
    MoveTargetPointer { target: Register, pointer: Register },
    /// `0x0005`: Move the contents of register S into memory at address specified by register P.
    MovePointerSource { pointer: Register, source: Register },
    /// `0x0041`: Move the value at address A into register R (1 byte).
    MoveByteRegisterAddress { register: Register, source_address: Address },
    /// `0x0042`: Move the contents of register R into memory at address A (1 byte).
    MoveByteAddressRegister { register: Register, target_address: Address },
    /// `0x0043`: Move the contents addressed by the value of register P into register T (1 byte).
    MoveByteTargetPointer { target: Register, pointer: Register },
    /// `0x0044`: Move the contents of register S into memory at address specified by register P (1 byte).
    MoveBytePointerSource { pointer: Register, source: Register },
    /// `0x0045`: Move the value at address A into register R (2 bytes).
    MoveHalfwordRegisterAddress { register: Register, source_address: Address },
    /// `0x0046`: Move the contents of register R into memory at address A (2 bytes).
    MoveHalfwordAddressRegister { register: Register, target_address: Address },
    /// `0x0047`: Move the contents addressed by the value of register P into register T (2 bytes).
    MoveHalfwordTargetPointer { target: Register, pointer: Register },
    /// `0x0048`: Move the contents of register S into memory at address specified by register P (2 bytes).
    MoveHalfwordPointerSource { pointer: Register, source: Register },
    /// `0x0049`: Move the value in register S into memory at address pointer + immediate.
    MovePointerSourceOffset { pointer: Register, source: Register, immediate: Word },
    /// `0x004a`: Move the value in register S into memory at address pointer + immediate (1 byte).
    MoveBytePointerSourceOffset { pointer: Register, source: Register, immediate: Word },
    /// `0x004b`: Move the value in register S into memory at address pointer + immediate (2 bytes).
    MoveHalfwordPointerSourceOffset { pointer: Register, source: Register, immediate: Word },
    /// `0x004c`: Move the contents addressed by the sum of the pointer and the immediate into the register T.
    MoveTargetPointerOffset { target: Register, pointer: Register, immediate: Word },
    /// `0x004d`: Move the contents addressed by the sum of the pointer and the immediate into the register T.
    MoveByteTargetPointerOffset { target: Register, pointer: Register, immediate: Word },
    /// `0x004e`: Move the contents addressed by the sum of the pointer and the immediate into the register T.
    MoveHalfwordTargetPointerOffset { target: Register, pointer: Register, immediate: Word },
    /// `0x0006`: Halt and catch fire.
    HaltAndCatchFire {  },
    /// `0x0007`: Add the values in registers L and R, store the result in T, set zero and carry flags appropriately.
    AddTargetLhsRhs { target: Register, lhs: Register, rhs: Register },
    /// `0x0034`: Add (with carry) the values in registers L and R, store the result in T, set zero and carry flags appropriately.
    AddWithCarryTargetLhsRhs { target: Register, lhs: Register, rhs: Register },
    /// `0x0008`: Subtract (without carry) the values in registers L and R, store the result in T, set zero and carry flags appropriately.
    SubtractTargetLhsRhs { target: Register, lhs: Register, rhs: Register },
    /// `0x0009`: Subtract (with carry) the values in registers L and R, store the result in T, set zero and carry flags appropriately.
    SubtractWithCarryTargetLhsRhs { target: Register, lhs: Register, rhs: Register },
    /// `0x000a`: Multiply the values in registers L and R, store the low part of the result in T, the high part in H, set zero and carry flags appropriately.
    MultiplyHighLowLhsRhs { high: Register, low: Register, lhs: Register, rhs: Register },
    /// `0x000b`: Divmod the values in registers L and R, store the result in D and the remainder in M set zero and divide-by-zero flags appropriately.
    DivmodTargetModLhsRhs { result: Register, remainder: Register, lhs: Register, rhs: Register },
    /// `0x000c`: And the values in registers LL and RR, store the result in TT, set zero flag appropriately.
    AndTargetLhsRhs { target: Register, lhs: Register, rhs: Register },
    /// `0x000d`: Or the values in registers LL and RR, store the result in TT, set zero flag appropriately.
    OrTargetLhsRhs { target: Register, lhs: Register, rhs: Register },
    /// `0x000e`: Xor the values in registers LL and RR, store the result in TT, set zero flag appropriately.
    XorTargetLhsRhs { target: Register, lhs: Register, rhs: Register },
    /// `0x000f`: Not the value in register SS, store the result in TT, set zero flag appropriately.
    NotTargetSource { target: Register, source: Register },
    /// `0x0010`: Left shift the value in register LL by RR bits, store the result in TT, set zero and carry flags appropriately.
    LeftShiftTargetLhsRhs { target: Register, lhs: Register, rhs: Register },
    /// `0x0011`: Right shift the value in register LL by RR bits, store the result in TT, set zero and carry flags appropriately.
    RightShiftTargetLhsRhs { target: Register, lhs: Register, rhs: Register },
    /// `0x0012`: Add the constant CC to the value in register SS and store the result in TT, set zero and carry flags appropriately.
    AddTargetSourceImmediate { target: Register, source: Register, immediate: Word },
    /// `0x0013`: Subtract the constant CC from the value in register SS and store the result in TT, set zero and carry flags appropriately.
    SubtractTargetSourceImmediate { target: Register, source: Register, immediate: Word },
    /// `0x0014`: Compare the values in registers LL and RR, store the result (Word::MAX, 0, 1) in TT, set zero flag appropriately.
    CompareTargetLhsRhs { target: Register, lhs: Register, rhs: Register },
    /// `0x003a`: Checks whether the values in registers L and R are equal and stores the result as boolean (0 or 1) in T.
    BoolCompareEquals { target: Register, lhs: Register, rhs: Register },
    /// `0x003b`: Checks whether the values in registers L and R are not equal and stores the result as boolean (0 or 1) in T.
    BoolCompareNotEquals { target: Register, lhs: Register, rhs: Register },
    /// `0x003c`: Checks whether the value in registers L is greater than the value in regsiter R and stores the result as boolean (0 or 1) in T.
    BoolCompareGreater { target: Register, lhs: Register, rhs: Register },
    /// `0x003d`: Checks whether the value in registers L is greater than or equals the value in regsiter R and stores the result as boolean (0 or 1) in T.
    BoolCompareGreaterOrEquals { target: Register, lhs: Register, rhs: Register },
    /// `0x003e`: Checks whether the value in registers L is less than the value in regsiter R and stores the result as boolean (0 or 1) in T.
    BoolCompareLess { target: Register, lhs: Register, rhs: Register },
    /// `0x003f`: Checks whether the value in registers L is less than or equals the value in regsiter R and stores the result as boolean (0 or 1) in T.
    BoolCompareLessOrEquals { target: Register, lhs: Register, rhs: Register },
    /// `0x0015`: Pushes the value of register RR onto the stack.
    PushRegister { register: Register },
    /// `0x004f`: Pushes the constant C onto the stack.
    PushImmediate { immediate: Word },
    /// `0x0016`: Pops from the stack and stores the value in register RR.
    PopRegister { register: Register },
    /// `0x0040`: Pops from the stack and discards the value.
    Pop {  },
    /// `0x0017`: Push the current instruction pointer onto the stack and jump to the specified address.
    CallAddress { source_address: Address },
    /// `0x0036`: Push the current instruction pointer onto the stack and jump to the address stored in register R.
    CallRegister { register: Register },
    /// `0x0037`: Push the current instruction pointer onto the stack and jump to the address stored in memory at the location specified by the value in register P.
    CallPointer { pointer: Register },
    /// `0x0018`: Pop the return address from the stack and jump to it.
    Return {  },
    /// `0x0019`: Jump to the given address.
    JumpImmediate { immediate: Word },
    /// `0x001a`: Jump to the address stored in register R.
    JumpRegister { register: Register },
    /// `0x001b`: Jump to the specified address if the comparison result in register C corresponds to "equality".
    JumpImmediateIfEqual { comparison: Register, immediate: Word },
    /// `0x001c`: Jump to the specified address if the comparison result in register C corresponds to "greater than".
    JumpImmediateIfGreaterThan { comparison: Register, immediate: Word },
    /// `0x001d`: Jump to the specified address if the comparison result in register C corresponds to "less than".
    JumpImmediateIfLessThan { comparison: Register, immediate: Word },
    /// `0x001e`: Jump to the specified address if the comparison result in register C corresponds to "greater than" or "equal".
    JumpImmediateIfGreaterThanOrEqual { comparison: Register, immediate: Word },
    /// `0x001f`: Jump to the specified address if the comparison result in register C corresponds to "less than" or "equal".
    JumpImmediateIfLessThanOrEqual { comparison: Register, immediate: Word },
    /// `0x0020`: Jump to the specified address if the zero flag is set.
    JumpImmediateIfZero { immediate: Word },
    /// `0x0021`: Jump to the specified address if the zero flag is not set.
    JumpImmediateIfNotZero { immediate: Word },
    /// `0x0022`: Jump to the specified address if the carry flag is set.
    JumpImmediateIfCarry { immediate: Word },
    /// `0x0023`: Jump to the specified address if the carry flag is not set.
    JumpImmediateIfNotCarry { immediate: Word },
    /// `0x0024`: Jump to the specified address if the divide by zero flag is set.
    JumpImmediateIfDivideByZero { immediate: Word },
    /// `0x0025`: Jump to the specified address if the divide by zero flag is not set.
    JumpImmediateIfNotDivideByZero { immediate: Word },
    /// `0x0026`: Jump to the address specified in register P if the comparison result in register C corresponds to "equality".
    JumpRegisterIfEqual { pointer: Register, comparison: Register },
    /// `0x0027`: Jump to the address specified in register P if the comparison result in register C corresponds to "greater than".
    JumpRegisterIfGreaterThan { pointer: Register, comparison: Register },
    /// `0x0028`: Jump to the address specified in register P if the comparison result in register C corresponds to "less than".
    JumpRegisterIfLessThan { pointer: Register, comparison: Register },
    /// `0x0029`: Jump to the address specified in register P if the comparison result in register C corresponds to "greater than" or "equal".
    JumpRegisterIfGreaterThanOrEqual { pointer: Register, comparison: Register },
    /// `0x002a`: Jump to the address specified in register P if the comparison result in register C corresponds to "less than" or "equal".
    JumpRegisterIfLessThanOrEqual { pointer: Register, comparison: Register },
    /// `0x002b`: Jump to the address specified in register P if the zero flag is set.
    JumpRegisterIfZero { pointer: Register },
    /// `0x002c`: Jump to the address specified in register P if the zero flag is not set.
    JumpRegisterIfNotZero { pointer: Register },
    /// `0x002d`: Jump to the address specified in register P if the carry flag is set.
    JumpRegisterIfCarry { pointer: Register },
    /// `0x002e`: Jump to the address specified in register P if the carry flag is not set.
    JumpRegisterIfNotCarry { pointer: Register },
    /// `0x002f`: Jump to the address specified in register P if the divide by zero flag is set.
    JumpRegisterIfDivideByZero { pointer: Register },
    /// `0x0030`: Jump to the address specified in register P if the divide by zero flag is not set.
    JumpRegisterIfNotDivideByZero { pointer: Register },
    /// `0x0031`: Does nothing.
    NoOp {  },
    /// `0x0032`: Store the keystate (1 = held down, 0 = not held down) of the key specified by register K into register T and set the zero flag appropriately.
    GetKeyState { target: Register, keycode: Register },
    /// `0x0033`: Store the number of milliseconds since the UNIX epoch into registers high and low.
    PollTime { high: Register, low: Register },
    /// `0x0035`: Swap the display buffers.
    SwapFramebuffers {  },
    /// `0x0038`: Get the start address of the framebuffer that's currently invisible (use the address to draw without tearing).
    InvisibleFramebufferAddress { target: Register },
    /// `0x0039`: Store the current cycle (64 bit value) count into registers H and L (H: most significant bytes, L: least significant bytes).
    PollCycleCountHighLow { high: Register, low: Register },
    /// `0xffff`: Dump the contents of all registers into the file 'registers_YYYY-MM-DD_X.bin' where YYYY-MM-DD is the current date and X is an increasing number.
    DumpRegisters {  },
    /// `0xfffe`: Dump the contents of the whole memory into the file 'memory_YYYY-MM-DD_X.bin' where YYYY-MM-DD is the current date and X is an increasing number.
    DumpMemory {  },
    /// `0xfffd`: Assert that the expected register value equals the actual register value (behavior of the VM on a failed assertion is implementation defined).
    AssertRegisterRegister { expected: Register, actual: Register },
    /// `0xfffc`: Assert that the actual register value equals the immediate (behavior of the VM on a failed assertion is implementation defined).
    AssertRegisterImmediate { actual: Register, immediate: Word },
    /// `0xfffb`: Assert that the value in memory pointed at by P equals the immediate (behavior of the VM on a failed assertion is implementation defined).
    AssertPointerImmediate { pointer: Register, immediate: Word },
    /// `0xfffa`: Behavior is implementation defined.
    DebugBreak {  },
    /// `0xfff9`: Prints the value of the register as debug output.
    PrintRegister { register: Register },
    /// `0xfff8`: Makes the emulator check the value of the internal checkpoint counter, fails on mismatch.
    Checkpoint { immediate: Word },
}

/// The families of the instruction set.
#[derive(Clone, Copy, Debug, PartialEq, Eq, Structural)]
pub enum Family {
    /// Moves between registers, constants and memory.
    Move,
    /// Arithmetic, bitwise operations and comparisons.
    Arithmetic,
    /// Pushes and pops.
    Stack,
    /// Calls, returns, jumps and the halt.
    ControlFlow,
    /// Keyboard, timer and display.
    Peripheral,
    /// The no-op and what serves to test and to debug a program.
    Diagnostic,
}

/// The instruction holds a code that no opcode has.
#[derive(Clone, Copy, Debug, PartialEq, Eq, Structural)]
pub struct DecodeError {
    /// The code that was found.
    pub code: u16,
}

/// The code in the two most significant bytes of an instruction.
pub open spec fn code_field(instruction: Instruction) -> u16 {
    (instruction / 0x1_0000_0000_0000) as u16
}

/// The register in slot `slot` of an instruction; slot 0 follows the code.
pub open spec fn register_field(instruction: Instruction, slot: int) -> Register
    recommends
        0 <= slot < 6,
{
    Register(crate::memory::byte_of(instruction as int, 5 - slot))
}

/// The immediate or address in the four least significant bytes of an
/// instruction.
pub open spec fn constant_field(instruction: Instruction) -> Word {
    (instruction % 0x1_0000_0000) as Word
}

/// The weight of register slot `slot` in the instruction word.
pub open spec fn slot_weight(slot: int) -> int
    recommends
        0 <= slot < 6,
{
    if slot == 0 {
        0x100_0000_0000
    } else if slot == 1 {
        0x1_0000_0000
    } else if slot == 2 {
        0x100_0000
    } else if slot == 3 {
        0x1_0000
    } else if slot == 4 {
        0x100
    } else {
        0x1
    }
}

impl Opcode {
    /// The 16-bit code that selects the opcode.
    pub open spec fn code(self) -> u16 {
        match self {
            Self::MoveRegisterImmediate { .. } => 0x0000,
            Self::MoveRegisterAddress { .. } => 0x0001,
            Self::MoveTargetSource { .. } => 0x0002,
            Self::MoveAddressRegister { .. } => 0x0003,
            Self::MoveTargetPointer { .. } => 0x0004,
            Self::MovePointerSource { .. } => 0x0005,
            Self::MoveByteRegisterAddress { .. } => 0x0041,
            Self::MoveByteAddressRegister { .. } => 0x0042,
            Self::MoveByteTargetPointer { .. } => 0x0043,
            Self::MoveBytePointerSource { .. } => 0x0044,
            Self::MoveHalfwordRegisterAddress { .. } => 0x0045,
            Self::MoveHalfwordAddressRegister { .. } => 0x0046,
            Self::MoveHalfwordTargetPointer { .. } => 0x0047,
            Self::MoveHalfwordPointerSource { .. } => 0x0048,
            Self::MovePointerSourceOffset { .. } => 0x0049,
            Self::MoveBytePointerSourceOffset { .. } => 0x004a,
            Self::MoveHalfwordPointerSourceOffset { .. } => 0x004b,
            Self::MoveTargetPointerOffset { .. } => 0x004c,
            Self::MoveByteTargetPointerOffset { .. } => 0x004d,
            Self::MoveHalfwordTargetPointerOffset { .. } => 0x004e,
            Self::HaltAndCatchFire {  } => 0x0006,
            Self::AddTargetLhsRhs { .. } => 0x0007,
            Self::AddWithCarryTargetLhsRhs { .. } => 0x0034,
            Self::SubtractTargetLhsRhs { .. } => 0x0008,
            Self::SubtractWithCarryTargetLhsRhs { .. } => 0x0009,
            Self::MultiplyHighLowLhsRhs { .. } => 0x000a,
            Self::DivmodTargetModLhsRhs { .. } => 0x000b,
            Self::AndTargetLhsRhs { .. } => 0x000c,
            Self::OrTargetLhsRhs { .. } => 0x000d,
            Self::XorTargetLhsRhs { .. } => 0x000e,
            Self::NotTargetSource { .. } => 0x000f,
            Self::LeftShiftTargetLhsRhs { .. } => 0x0010,
            Self::RightShiftTargetLhsRhs { .. } => 0x0011,
            Self::AddTargetSourceImmediate { .. } => 0x0012,
            Self::SubtractTargetSourceImmediate { .. } => 0x0013,
            Self::CompareTargetLhsRhs { .. } => 0x0014,
            Self::BoolCompareEquals { .. } => 0x003a,
            Self::BoolCompareNotEquals { .. } => 0x003b,
            Self::BoolCompareGreater { .. } => 0x003c,
            Self::BoolCompareGreaterOrEquals { .. } => 0x003d,
            Self::BoolCompareLess { .. } => 0x003e,
            Self::BoolCompareLessOrEquals { .. } => 0x003f,
            Self::PushRegister { .. } => 0x0015,
            Self::PushImmediate { .. } => 0x004f,
            Self::PopRegister { .. } => 0x0016,
            Self::Pop {  } => 0x0040,
            Self::CallAddress { .. } => 0x0017,
            Self::CallRegister { .. } => 0x0036,
            Self::CallPointer { .. } => 0x0037,
            Self::Return {  } => 0x0018,
            Self::JumpImmediate { .. } => 0x0019,
            Self::JumpRegister { .. } => 0x001a,
            Self::JumpImmediateIfEqual { .. } => 0x001b,
            Self::JumpImmediateIfGreaterThan { .. } => 0x001c,
            Self::JumpImmediateIfLessThan { .. } => 0x001d,
            Self::JumpImmediateIfGreaterThanOrEqual { .. } => 0x001e,
            Self::JumpImmediateIfLessThanOrEqual { .. } => 0x001f,
            Self::JumpImmediateIfZero { .. } => 0x0020,
            Self::JumpImmediateIfNotZero { .. } => 0x0021,
            Self::JumpImmediateIfCarry { .. } => 0x0022,
            Self::JumpImmediateIfNotCarry { .. } => 0x0023,
            Self::JumpImmediateIfDivideByZero { .. } => 0x0024,
            Self::JumpImmediateIfNotDivideByZero { .. } => 0x0025,
            Self::JumpRegisterIfEqual { .. } => 0x0026,
            Self::JumpRegisterIfGreaterThan { .. } => 0x0027,
            Self::JumpRegisterIfLessThan { .. } => 0x0028,
            Self::JumpRegisterIfGreaterThanOrEqual { .. } => 0x0029,
            Self::JumpRegisterIfLessThanOrEqual { .. } => 0x002a,
            Self::JumpRegisterIfZero { .. } => 0x002b,
            Self::JumpRegisterIfNotZero { .. } => 0x002c,
            Self::JumpRegisterIfCarry { .. } => 0x002d,
            Self::JumpRegisterIfNotCarry { .. } => 0x002e,
            Self::JumpRegisterIfDivideByZero { .. } => 0x002f,
            Self::JumpRegisterIfNotDivideByZero { .. } => 0x0030,
            Self::NoOp {  } => 0x0031,
            Self::GetKeyState { .. } => 0x0032,
            Self::PollTime { .. } => 0x0033,
            Self::SwapFramebuffers {  } => 0x0035,
            Self::InvisibleFramebufferAddress { .. } => 0x0038,
            Self::PollCycleCountHighLow { .. } => 0x0039,
            Self::DumpRegisters {  } => 0xffff,
            Self::DumpMemory {  } => 0xfffe,
            Self::AssertRegisterRegister { .. } => 0xfffd,
            Self::AssertRegisterImmediate { .. } => 0xfffc,
            Self::AssertPointerImmediate { .. } => 0xfffb,
            Self::DebugBreak {  } => 0xfffa,
            Self::PrintRegister { .. } => 0xfff9,
            Self::Checkpoint { .. } => 0xfff8,
        }
    }

    /// The registers that the opcode names, in the order of their slots.
    pub open spec fn registers(self) -> Seq<Register> {
        match self {
            Self::MoveRegisterImmediate { register, .. } => seq![register],
            Self::MoveRegisterAddress { register, .. } => seq![register],
            Self::MoveTargetSource { target, source } => seq![target, source],
            Self::MoveAddressRegister { register, .. } => seq![register],
            Self::MoveTargetPointer { target, pointer } => seq![target, pointer],
            Self::MovePointerSource { pointer, source } => seq![pointer, source],
            Self::MoveByteRegisterAddress { register, .. } => seq![register],
            Self::MoveByteAddressRegister { register, .. } => seq![register],
            Self::MoveByteTargetPointer { target, pointer } => seq![target, pointer],
            Self::MoveBytePointerSource { pointer, source } => seq![pointer, source],
            Self::MoveHalfwordRegisterAddress { register, .. } => seq![register],
            Self::MoveHalfwordAddressRegister { register, .. } => seq![register],
            Self::MoveHalfwordTargetPointer { target, pointer } => seq![target, pointer],
            Self::MoveHalfwordPointerSource { pointer, source } => seq![pointer, source],
            Self::MovePointerSourceOffset { pointer, source, .. } => seq![pointer, source],
            Self::MoveBytePointerSourceOffset { pointer, source, .. } => seq![pointer, source],
            Self::MoveHalfwordPointerSourceOffset { pointer, source, .. } => seq![pointer, source],
            Self::MoveTargetPointerOffset { target, pointer, .. } => seq![target, pointer],
            Self::MoveByteTargetPointerOffset { target, pointer, .. } => seq![target, pointer],
            Self::MoveHalfwordTargetPointerOffset { target, pointer, .. } => seq![target, pointer],
            Self::HaltAndCatchFire {  } => Seq::empty(),
            Self::AddTargetLhsRhs { target, lhs, rhs } => seq![target, lhs, rhs],
            Self::AddWithCarryTargetLhsRhs { target, lhs, rhs } => seq![target, lhs, rhs],
            Self::SubtractTargetLhsRhs { target, lhs, rhs } => seq![target, lhs, rhs],
            Self::SubtractWithCarryTargetLhsRhs { target, lhs, rhs } => seq![target, lhs, rhs],
            Self::MultiplyHighLowLhsRhs { high, low, lhs, rhs } => seq![high, low, lhs, rhs],
            Self::DivmodTargetModLhsRhs { result, remainder, lhs, rhs } => seq![result, remainder, lhs, rhs],
            Self::AndTargetLhsRhs { target, lhs, rhs } => seq![target, lhs, rhs],
            Self::OrTargetLhsRhs { target, lhs, rhs } => seq![target, lhs, rhs],
            Self::XorTargetLhsRhs { target, lhs, rhs } => seq![target, lhs, rhs],
            Self::NotTargetSource { target, source } => seq![target, source],
            Self::LeftShiftTargetLhsRhs { target, lhs, rhs } => seq![target, lhs, rhs],
            Self::RightShiftTargetLhsRhs { target, lhs, rhs } => seq![target, lhs, rhs],
            Self::AddTargetSourceImmediate { target, source, .. } => seq![target, source],
            Self::SubtractTargetSourceImmediate { target, source, .. } => seq![target, source],
            Self::CompareTargetLhsRhs { target, lhs, rhs } => seq![target, lhs, rhs],
            Self::BoolCompareEquals { target, lhs, rhs } => seq![target, lhs, rhs],
            Self::BoolCompareNotEquals { target, lhs, rhs } => seq![target, lhs, rhs],
            Self::BoolCompareGreater { target, lhs, rhs } => seq![target, lhs, rhs],
            Self::BoolCompareGreaterOrEquals { target, lhs, rhs } => seq![target, lhs, rhs],
            Self::BoolCompareLess { target, lhs, rhs } => seq![target, lhs, rhs],
            Self::BoolCompareLessOrEquals { target, lhs, rhs } => seq![target, lhs, rhs],
            Self::PushRegister { register } => seq![register],
            Self::PushImmediate { .. } => Seq::empty(),
            Self::PopRegister { register } => seq![register],
            Self::Pop {  } => Seq::empty(),
            Self::CallAddress { .. } => Seq::empty(),
            Self::CallRegister { register } => seq![register],
            Self::CallPointer { pointer } => seq![pointer],
            Self::Return {  } => Seq::empty(),
            Self::JumpImmediate { .. } => Seq::empty(),
            Self::JumpRegister { register } => seq![register],
            Self::JumpImmediateIfEqual { comparison, .. } => seq![comparison],
            Self::JumpImmediateIfGreaterThan { comparison, .. } => seq![comparison],
            Self::JumpImmediateIfLessThan { comparison, .. } => seq![comparison],
            Self::JumpImmediateIfGreaterThanOrEqual { comparison, .. } => seq![comparison],
            Self::JumpImmediateIfLessThanOrEqual { comparison, .. } => seq![comparison],
            Self::JumpImmediateIfZero { .. } => Seq::empty(),
            Self::JumpImmediateIfNotZero { .. } => Seq::empty(),
            Self::JumpImmediateIfCarry { .. } => Seq::empty(),
            Self::JumpImmediateIfNotCarry { .. } => Seq::empty(),
            Self::JumpImmediateIfDivideByZero { .. } => Seq::empty(),
            Self::JumpImmediateIfNotDivideByZero { .. } => Seq::empty(),
            Self::JumpRegisterIfEqual { pointer, comparison } => seq![pointer, comparison],
            Self::JumpRegisterIfGreaterThan { pointer, comparison } => seq![pointer, comparison],
            Self::JumpRegisterIfLessThan { pointer, comparison } => seq![pointer, comparison],
            Self::JumpRegisterIfGreaterThanOrEqual { pointer, comparison } => seq![pointer, comparison],
            Self::JumpRegisterIfLessThanOrEqual { pointer, comparison } => seq![pointer, comparison],
            Self::JumpRegisterIfZero { pointer } => seq![pointer],
            Self::JumpRegisterIfNotZero { pointer } => seq![pointer],
            Self::JumpRegisterIfCarry { pointer } => seq![pointer],
            Self::JumpRegisterIfNotCarry { pointer } => seq![pointer],
            Self::JumpRegisterIfDivideByZero { pointer } => seq![pointer],
            Self::JumpRegisterIfNotDivideByZero { pointer } => seq![pointer],
            Self::NoOp {  } => Seq::empty(),
            Self::GetKeyState { target, keycode } => seq![target, keycode],
            Self::PollTime { high, low } => seq![high, low],
            Self::SwapFramebuffers {  } => Seq::empty(),
            Self::InvisibleFramebufferAddress { target } => seq![target],
            Self::PollCycleCountHighLow { high, low } => seq![high, low],
            Self::DumpRegisters {  } => Seq::empty(),
            Self::DumpMemory {  } => Seq::empty(),
            Self::AssertRegisterRegister { expected, actual } => seq![expected, actual],
            Self::AssertRegisterImmediate { actual, .. } => seq![actual],
            Self::AssertPointerImmediate { pointer, .. } => seq![pointer],
            Self::DebugBreak {  } => Seq::empty(),
            Self::PrintRegister { register } => seq![register],
            Self::Checkpoint { .. } => Seq::empty(),
        }
    }

    /// The immediate or address of the opcode, if it has one.
    pub open spec fn constant(self) -> Option<Word> {
        match self {
            Self::MoveRegisterImmediate { immediate, .. } => Some(immediate),
            Self::MoveRegisterAddress { source_address, .. } => Some(source_address),
            Self::MoveTargetSource { .. } => None,
            Self::MoveAddressRegister { target_address, .. } => Some(target_address),
            Self::MoveTargetPointer { .. } => None,
            Self::MovePointerSource { .. } => None,
            Self::MoveByteRegisterAddress { source_address, .. } => Some(source_address),
            Self::MoveByteAddressRegister { target_address, .. } => Some(target_address),
            Self::MoveByteTargetPointer { .. } => None,
            Self::MoveBytePointerSource { .. } => None,
            Self::MoveHalfwordRegisterAddress { source_address, .. } => Some(source_address),
            Self::MoveHalfwordAddressRegister { target_address, .. } => Some(target_address),
            Self::MoveHalfwordTargetPointer { .. } => None,
            Self::MoveHalfwordPointerSource { .. } => None,
            Self::MovePointerSourceOffset { immediate, .. } => Some(immediate),
            Self::MoveBytePointerSourceOffset { immediate, .. } => Some(immediate),
            Self::MoveHalfwordPointerSourceOffset { immediate, .. } => Some(immediate),
            Self::MoveTargetPointerOffset { immediate, .. } => Some(immediate),
            Self::MoveByteTargetPointerOffset { immediate, .. } => Some(immediate),
            Self::MoveHalfwordTargetPointerOffset { immediate, .. } => Some(immediate),
            Self::HaltAndCatchFire {  } => None,
            Self::AddTargetLhsRhs { .. } => None,
            Self::AddWithCarryTargetLhsRhs { .. } => None,
            Self::SubtractTargetLhsRhs { .. } => None,
            Self::SubtractWithCarryTargetLhsRhs { .. } => None,
            Self::MultiplyHighLowLhsRhs { .. } => None,
            Self::DivmodTargetModLhsRhs { .. } => None,
            Self::AndTargetLhsRhs { .. } => None,
            Self::OrTargetLhsRhs { .. } => None,
            Self::XorTargetLhsRhs { .. } => None,
            Self::NotTargetSource { .. } => None,
            Self::LeftShiftTargetLhsRhs { .. } => None,
            Self::RightShiftTargetLhsRhs { .. } => None,
            Self::AddTargetSourceImmediate { immediate, .. } => Some(immediate),
            Self::SubtractTargetSourceImmediate { immediate, .. } => Some(immediate),
            Self::CompareTargetLhsRhs { .. } => None,
            Self::BoolCompareEquals { .. } => None,
            Self::BoolCompareNotEquals { .. } => None,
            Self::BoolCompareGreater { .. } => None,
            Self::BoolCompareGreaterOrEquals { .. } => None,
            Self::BoolCompareLess { .. } => None,
            Self::BoolCompareLessOrEquals { .. } => None,
            Self::PushRegister { .. } => None,
            Self::PushImmediate { immediate } => Some(immediate),
            Self::PopRegister { .. } => None,
            Self::Pop {  } => None,
            Self::CallAddress { source_address } => Some(source_address),
            Self::CallRegister { .. } => None,
            Self::CallPointer { .. } => None,
            Self::Return {  } => None,
            Self::JumpImmediate { immediate } => Some(immediate),
            Self::JumpRegister { .. } => None,
            Self::JumpImmediateIfEqual { immediate, .. } => Some(immediate),
            Self::JumpImmediateIfGreaterThan { immediate, .. } => Some(immediate),
            Self::JumpImmediateIfLessThan { immediate, .. } => Some(immediate),
            Self::JumpImmediateIfGreaterThanOrEqual { immediate, .. } => Some(immediate),
            Self::JumpImmediateIfLessThanOrEqual { immediate, .. } => Some(immediate),
            Self::JumpImmediateIfZero { immediate } => Some(immediate),
            Self::JumpImmediateIfNotZero { immediate } => Some(immediate),
            Self::JumpImmediateIfCarry { immediate } => Some(immediate),
            Self::JumpImmediateIfNotCarry { immediate } => Some(immediate),
            Self::JumpImmediateIfDivideByZero { immediate } => Some(immediate),
            Self::JumpImmediateIfNotDivideByZero { immediate } => Some(immediate),
            Self::JumpRegisterIfEqual { .. } => None,
            Self::JumpRegisterIfGreaterThan { .. } => None,
            Self::JumpRegisterIfLessThan { .. } => None,
            Self::JumpRegisterIfGreaterThanOrEqual { .. } => None,
            Self::JumpRegisterIfLessThanOrEqual { .. } => None,
            Self::JumpRegisterIfZero { .. } => None,
            Self::JumpRegisterIfNotZero { .. } => None,
            Self::JumpRegisterIfCarry { .. } => None,
            Self::JumpRegisterIfNotCarry { .. } => None,
            Self::JumpRegisterIfDivideByZero { .. } => None,
            Self::JumpRegisterIfNotDivideByZero { .. } => None,
            Self::NoOp {  } => None,
            Self::GetKeyState { .. } => None,
            Self::PollTime { .. } => None,
            Self::SwapFramebuffers {  } => None,
            Self::InvisibleFramebufferAddress { .. } => None,
            Self::PollCycleCountHighLow { .. } => None,
            Self::DumpRegisters {  } => None,
            Self::DumpMemory {  } => None,
            Self::AssertRegisterRegister { .. } => None,
            Self::AssertRegisterImmediate { immediate, .. } => Some(immediate),
            Self::AssertPointerImmediate { immediate, .. } => Some(immediate),
            Self::DebugBreak {  } => None,
            Self::PrintRegister { .. } => None,
            Self::Checkpoint { immediate } => Some(immediate),
        }
    }

    /// Whether the instruction pointer moves on to the next instruction after
    /// the opcode was executed. Jumps, calls, returns and the halt set it
    /// themselves.
    pub open spec fn advances(self) -> bool {
        match self {
            Self::HaltAndCatchFire {  }
            | Self::CallAddress { .. }
            | Self::CallRegister { .. }
            | Self::CallPointer { .. }
            | Self::Return {  }
            | Self::JumpImmediate { .. }
            | Self::JumpRegister { .. }
            | Self::JumpImmediateIfEqual { .. }
            | Self::JumpImmediateIfGreaterThan { .. }
            | Self::JumpImmediateIfLessThan { .. }
            | Self::JumpImmediateIfGreaterThanOrEqual { .. }
            | Self::JumpImmediateIfLessThanOrEqual { .. }
            | Self::JumpImmediateIfZero { .. }
            | Self::JumpImmediateIfNotZero { .. }
            | Self::JumpImmediateIfCarry { .. }
            | Self::JumpImmediateIfNotCarry { .. }
            | Self::JumpImmediateIfDivideByZero { .. }
            | Self::JumpImmediateIfNotDivideByZero { .. }
            | Self::JumpRegisterIfEqual { .. }
            | Self::JumpRegisterIfGreaterThan { .. }
            | Self::JumpRegisterIfLessThan { .. }
            | Self::JumpRegisterIfGreaterThanOrEqual { .. }
            | Self::JumpRegisterIfLessThanOrEqual { .. }
            | Self::JumpRegisterIfZero { .. }
            | Self::JumpRegisterIfNotZero { .. }
            | Self::JumpRegisterIfCarry { .. }
            | Self::JumpRegisterIfNotCarry { .. }
            | Self::JumpRegisterIfDivideByZero { .. }
            | Self::JumpRegisterIfNotDivideByZero { .. } => false,
            _ => true,
        }
    }

    /// The family that the opcode belongs to.
    pub open spec fn family_of(self) -> Family {
        match self {
            Self::MoveRegisterImmediate { .. }
            | Self::MoveRegisterAddress { .. }
            | Self::MoveTargetSource { .. }
            | Self::MoveAddressRegister { .. }
            | Self::MoveTargetPointer { .. }
            | Self::MovePointerSource { .. }
            | Self::MoveByteRegisterAddress { .. }
            | Self::MoveByteAddressRegister { .. }
            | Self::MoveByteTargetPointer { .. }
            | Self::MoveBytePointerSource { .. }
            | Self::MoveHalfwordRegisterAddress { .. }
            | Self::MoveHalfwordAddressRegister { .. }
            | Self::MoveHalfwordTargetPointer { .. }
            | Self::MoveHalfwordPointerSource { .. }
            | Self::MovePointerSourceOffset { .. }
            | Self::MoveBytePointerSourceOffset { .. }
            | Self::MoveHalfwordPointerSourceOffset { .. }
            | Self::MoveTargetPointerOffset { .. }
            | Self::MoveByteTargetPointerOffset { .. }
            | Self::MoveHalfwordTargetPointerOffset { .. } => Family::Move,
            Self::AddTargetLhsRhs { .. }
            | Self::AddWithCarryTargetLhsRhs { .. }
            | Self::SubtractTargetLhsRhs { .. }
            | Self::SubtractWithCarryTargetLhsRhs { .. }
            | Self::MultiplyHighLowLhsRhs { .. }
            | Self::DivmodTargetModLhsRhs { .. }
            | Self::AndTargetLhsRhs { .. }
            | Self::OrTargetLhsRhs { .. }
            | Self::XorTargetLhsRhs { .. }
            | Self::NotTargetSource { .. }
            | Self::LeftShiftTargetLhsRhs { .. }
            | Self::RightShiftTargetLhsRhs { .. }
            | Self::AddTargetSourceImmediate { .. }
            | Self::SubtractTargetSourceImmediate { .. }
            | Self::CompareTargetLhsRhs { .. }
            | Self::BoolCompareEquals { .. }
            | Self::BoolCompareNotEquals { .. }
            | Self::BoolCompareGreater { .. }
            | Self::BoolCompareGreaterOrEquals { .. }
            | Self::BoolCompareLess { .. }
            | Self::BoolCompareLessOrEquals { .. } => Family::Arithmetic,
            Self::PushRegister { .. }
            | Self::PushImmediate { .. }
            | Self::PopRegister { .. }
            | Self::Pop { .. } => Family::Stack,
            Self::HaltAndCatchFire { .. }
            | Self::CallAddress { .. }
            | Self::CallRegister { .. }
            | Self::CallPointer { .. }
            | Self::Return { .. }
            | Self::JumpImmediate { .. }
            | Self::JumpRegister { .. }
            | Self::JumpImmediateIfEqual { .. }
            | Self::JumpImmediateIfGreaterThan { .. }
            | Self::JumpImmediateIfLessThan { .. }
            | Self::JumpImmediateIfGreaterThanOrEqual { .. }
            | Self::JumpImmediateIfLessThanOrEqual { .. }
            | Self::JumpImmediateIfZero { .. }
            | Self::JumpImmediateIfNotZero { .. }
            | Self::JumpImmediateIfCarry { .. }
            | Self::JumpImmediateIfNotCarry { .. }
            | Self::JumpImmediateIfDivideByZero { .. }
            | Self::JumpImmediateIfNotDivideByZero { .. }
            | Self::JumpRegisterIfEqual { .. }
            | Self::JumpRegisterIfGreaterThan { .. }
            | Self::JumpRegisterIfLessThan { .. }
            | Self::JumpRegisterIfGreaterThanOrEqual { .. }
            | Self::JumpRegisterIfLessThanOrEqual { .. }
            | Self::JumpRegisterIfZero { .. }
            | Self::JumpRegisterIfNotZero { .. }
            | Self::JumpRegisterIfCarry { .. }
            | Self::JumpRegisterIfNotCarry { .. }
            | Self::JumpRegisterIfDivideByZero { .. }
            | Self::JumpRegisterIfNotDivideByZero { .. } => Family::ControlFlow,
            Self::GetKeyState { .. }
            | Self::PollTime { .. }
            | Self::SwapFramebuffers { .. }
            | Self::InvisibleFramebufferAddress { .. } => Family::Peripheral,
            _ => Family::Diagnostic,
        }
    }

    /// The registers that the opcode names as the place of a result, in the
    /// order of their slots. The flags, the stack pointer and the instruction
    /// pointer are not among them unless the opcode names them so.
    pub open spec fn targets(self) -> Seq<Register> {
        match self {
            Self::MoveRegisterImmediate { register, .. } => seq![register],
            Self::MoveRegisterAddress { register, .. } => seq![register],
            Self::MoveTargetSource { target, .. } => seq![target],
            Self::MoveTargetPointer { target, .. } => seq![target],
            Self::MoveByteRegisterAddress { register, .. } => seq![register],
            Self::MoveByteTargetPointer { target, .. } => seq![target],
            Self::MoveHalfwordRegisterAddress { register, .. } => seq![register],
            Self::MoveHalfwordTargetPointer { target, .. } => seq![target],
            Self::MoveTargetPointerOffset { target, .. } => seq![target],
            Self::MoveByteTargetPointerOffset { target, .. } => seq![target],
            Self::MoveHalfwordTargetPointerOffset { target, .. } => seq![target],
            Self::AddTargetLhsRhs { target, .. } => seq![target],
            Self::AddWithCarryTargetLhsRhs { target, .. } => seq![target],
            Self::SubtractTargetLhsRhs { target, .. } => seq![target],
            Self::SubtractWithCarryTargetLhsRhs { target, .. } => seq![target],
            Self::MultiplyHighLowLhsRhs { high, low, .. } => seq![high, low],
            Self::DivmodTargetModLhsRhs { result, remainder, .. } => seq![result, remainder],
            Self::AndTargetLhsRhs { target, .. } => seq![target],
            Self::OrTargetLhsRhs { target, .. } => seq![target],
            Self::XorTargetLhsRhs { target, .. } => seq![target],
            Self::NotTargetSource { target, .. } => seq![target],
            Self::LeftShiftTargetLhsRhs { target, .. } => seq![target],
            Self::RightShiftTargetLhsRhs { target, .. } => seq![target],
            Self::AddTargetSourceImmediate { target, .. } => seq![target],
            Self::SubtractTargetSourceImmediate { target, .. } => seq![target],
            Self::CompareTargetLhsRhs { target, .. } => seq![target],
            Self::BoolCompareEquals { target, .. } => seq![target],
            Self::BoolCompareNotEquals { target, .. } => seq![target],
            Self::BoolCompareGreater { target, .. } => seq![target],
            Self::BoolCompareGreaterOrEquals { target, .. } => seq![target],
            Self::BoolCompareLess { target, .. } => seq![target],
            Self::BoolCompareLessOrEquals { target, .. } => seq![target],
            Self::PopRegister { register, .. } => seq![register],
            Self::GetKeyState { target, .. } => seq![target],
            Self::PollTime { high, low, .. } => seq![high, low],
            Self::InvisibleFramebufferAddress { target, .. } => seq![target],
            Self::PollCycleCountHighLow { high, low, .. } => seq![high, low],
            _ => Seq::empty(),
        }
    }

    /// Whether the opcode is one of the calls.
    pub open spec fn is_call(self) -> bool {
        self is CallAddress || self is CallRegister || self is CallPointer
    }

    /// The value of register slot `slot`: the register that stands there, or
    /// zero for a slot that the opcode leaves free.
    pub open spec fn slot(self, slot: int) -> int {
        if 0 <= slot < self.registers().len() {
            self.registers()[slot].0 as int
        } else {
            0
        }
    }

    /// The instruction word that holds the opcode.
    pub open spec fn encoding(self) -> Instruction {
        (self.code() * 0x1_0000_0000_0000 + self.slot(0) * slot_weight(0) + self.slot(1)
            * slot_weight(1) + self.slot(2) * slot_weight(2) + self.slot(3) * slot_weight(3)
            + self.slot(4) * slot_weight(4) + self.slot(5) * slot_weight(5) + match self.constant() {
            Some(constant) => constant as int,
            None => 0,
        }) as Instruction
    }

    /// Whether the fields of `instruction` are those of the opcode: its code,
    /// each of its registers in its slot, and its constant if it has one. What
    /// the instruction holds in bytes that the opcode does not use is not
    /// looked at.
    pub open spec fn is_held_by(self, instruction: Instruction) -> bool {
        &&& self.code() == code_field(instruction)
        &&& forall|slot: int|
            0 <= slot < self.registers().len() ==> #[trigger] self.registers()[slot]
                == register_field(instruction, slot)
        &&& match self.constant() {
            Some(constant) => constant == constant_field(instruction),
            None => true,
        }
    }

    /// The opcode that an instruction holds, if its code is that of an opcode.
    pub open spec fn decoding(instruction: Instruction) -> Option<Opcode> {
        if exists|opcode: Opcode| opcode.is_held_by(instruction) {
            Some(choose|opcode: Opcode| opcode.is_held_by(instruction))
        } else {
            None
        }
    }

    /// The instruction word for the opcode.
    pub fn as_instruction(self) -> (instruction: Instruction)
        ensures
            instruction == self.encoding(),
    {
        match self {
            Self::MoveRegisterImmediate { register, immediate } => assemble_with_constant(0x0000, register.0, 0, immediate),
            Self::MoveRegisterAddress { register, source_address } => assemble_with_constant(0x0001, register.0, 0, source_address),
            Self::MoveTargetSource { target, source } => assemble(0x0002, target.0, source.0, 0, 0),
            Self::MoveAddressRegister { register, target_address } => assemble_with_constant(0x0003, register.0, 0, target_address),
            Self::MoveTargetPointer { target, pointer } => assemble(0x0004, target.0, pointer.0, 0, 0),
            Self::MovePointerSource { pointer, source } => assemble(0x0005, pointer.0, source.0, 0, 0),
            Self::MoveByteRegisterAddress { register, source_address } => assemble_with_constant(0x0041, register.0, 0, source_address),
            Self::MoveByteAddressRegister { register, target_address } => assemble_with_constant(0x0042, register.0, 0, target_address),
            Self::MoveByteTargetPointer { target, pointer } => assemble(0x0043, target.0, pointer.0, 0, 0),
            Self::MoveBytePointerSource { pointer, source } => assemble(0x0044, pointer.0, source.0, 0, 0),
            Self::MoveHalfwordRegisterAddress { register, source_address } => assemble_with_constant(0x0045, register.0, 0, source_address),
            Self::MoveHalfwordAddressRegister { register, target_address } => assemble_with_constant(0x0046, register.0, 0, target_address),
            Self::MoveHalfwordTargetPointer { target, pointer } => assemble(0x0047, target.0, pointer.0, 0, 0),
            Self::MoveHalfwordPointerSource { pointer, source } => assemble(0x0048, pointer.0, source.0, 0, 0),
            Self::MovePointerSourceOffset { pointer, source, immediate } => assemble_with_constant(0x0049, pointer.0, source.0, immediate),
            Self::MoveBytePointerSourceOffset { pointer, source, immediate } => assemble_with_constant(0x004a, pointer.0, source.0, immediate),
            Self::MoveHalfwordPointerSourceOffset { pointer, source, immediate } => assemble_with_constant(0x004b, pointer.0, source.0, immediate),
            Self::MoveTargetPointerOffset { target, pointer, immediate } => assemble_with_constant(0x004c, target.0, pointer.0, immediate),
            Self::MoveByteTargetPointerOffset { target, pointer, immediate } => assemble_with_constant(0x004d, target.0, pointer.0, immediate),
            Self::MoveHalfwordTargetPointerOffset { target, pointer, immediate } => assemble_with_constant(0x004e, target.0, pointer.0, immediate),
            Self::HaltAndCatchFire {  } => assemble(0x0006, 0, 0, 0, 0),
            Self::AddTargetLhsRhs { target, lhs, rhs } => assemble(0x0007, target.0, lhs.0, rhs.0, 0),
            Self::AddWithCarryTargetLhsRhs { target, lhs, rhs } => assemble(0x0034, target.0, lhs.0, rhs.0, 0),
            Self::SubtractTargetLhsRhs { target, lhs, rhs } => assemble(0x0008, target.0, lhs.0, rhs.0, 0),
            Self::SubtractWithCarryTargetLhsRhs { target, lhs, rhs } => assemble(0x0009, target.0, lhs.0, rhs.0, 0),
            Self::MultiplyHighLowLhsRhs { high, low, lhs, rhs } => assemble(0x000a, high.0, low.0, lhs.0, rhs.0),
            Self::DivmodTargetModLhsRhs { result, remainder, lhs, rhs } => assemble(0x000b, result.0, remainder.0, lhs.0, rhs.0),
            Self::AndTargetLhsRhs { target, lhs, rhs } => assemble(0x000c, target.0, lhs.0, rhs.0, 0),
            Self::OrTargetLhsRhs { target, lhs, rhs } => assemble(0x000d, target.0, lhs.0, rhs.0, 0),
            Self::XorTargetLhsRhs { target, lhs, rhs } => assemble(0x000e, target.0, lhs.0, rhs.0, 0),
            Self::NotTargetSource { target, source } => assemble(0x000f, target.0, source.0, 0, 0),
            Self::LeftShiftTargetLhsRhs { target, lhs, rhs } => assemble(0x0010, target.0, lhs.0, rhs.0, 0),
            Self::RightShiftTargetLhsRhs { target, lhs, rhs } => assemble(0x0011, target.0, lhs.0, rhs.0, 0),
            Self::AddTargetSourceImmediate { target, source, immediate } => assemble_with_constant(0x0012, target.0, source.0, immediate),
            Self::SubtractTargetSourceImmediate { target, source, immediate } => assemble_with_constant(0x0013, target.0, source.0, immediate),
            Self::CompareTargetLhsRhs { target, lhs, rhs } => assemble(0x0014, target.0, lhs.0, rhs.0, 0),
            Self::BoolCompareEquals { target, lhs, rhs } => assemble(0x003a, target.0, lhs.0, rhs.0, 0),
            Self::BoolCompareNotEquals { target, lhs, rhs } => assemble(0x003b, target.0, lhs.0, rhs.0, 0),
            Self::BoolCompareGreater { target, lhs, rhs } => assemble(0x003c, target.0, lhs.0, rhs.0, 0),
            Self::BoolCompareGreaterOrEquals { target, lhs, rhs } => assemble(0x003d, target.0, lhs.0, rhs.0, 0),
            Self::BoolCompareLess { target, lhs, rhs } => assemble(0x003e, target.0, lhs.0, rhs.0, 0),
            Self::BoolCompareLessOrEquals { target, lhs, rhs } => assemble(0x003f, target.0, lhs.0, rhs.0, 0),
            Self::PushRegister { register } => assemble(0x0015, register.0, 0, 0, 0),
            Self::PushImmediate { immediate } => assemble_with_constant(0x004f, 0, 0, immediate),
            Self::PopRegister { register } => assemble(0x0016, register.0, 0, 0, 0),
            Self::Pop {  } => assemble(0x0040, 0, 0, 0, 0),
            Self::CallAddress { source_address } => assemble_with_constant(0x0017, 0, 0, source_address),
            Self::CallRegister { register } => assemble(0x0036, register.0, 0, 0, 0),
            Self::CallPointer { pointer } => assemble(0x0037, pointer.0, 0, 0, 0),
            Self::Return {  } => assemble(0x0018, 0, 0, 0, 0),
            Self::JumpImmediate { immediate } => assemble_with_constant(0x0019, 0, 0, immediate),
            Self::JumpRegister { register } => assemble(0x001a, register.0, 0, 0, 0),
            Self::JumpImmediateIfEqual { comparison, immediate } => assemble_with_constant(0x001b, comparison.0, 0, immediate),
            Self::JumpImmediateIfGreaterThan { comparison, immediate } => assemble_with_constant(0x001c, comparison.0, 0, immediate),
            Self::JumpImmediateIfLessThan { comparison, immediate } => assemble_with_constant(0x001d, comparison.0, 0, immediate),
            Self::JumpImmediateIfGreaterThanOrEqual { comparison, immediate } => assemble_with_constant(0x001e, comparison.0, 0, immediate),
            Self::JumpImmediateIfLessThanOrEqual { comparison, immediate } => assemble_with_constant(0x001f, comparison.0, 0, immediate),
            Self::JumpImmediateIfZero { immediate } => assemble_with_constant(0x0020, 0, 0, immediate),
            Self::JumpImmediateIfNotZero { immediate } => assemble_with_constant(0x0021, 0, 0, immediate),
            Self::JumpImmediateIfCarry { immediate } => assemble_with_constant(0x0022, 0, 0, immediate),
            Self::JumpImmediateIfNotCarry { immediate } => assemble_with_constant(0x0023, 0, 0, immediate),
            Self::JumpImmediateIfDivideByZero { immediate } => assemble_with_constant(0x0024, 0, 0, immediate),
            Self::JumpImmediateIfNotDivideByZero { immediate } => assemble_with_constant(0x0025, 0, 0, immediate),
            Self::JumpRegisterIfEqual { pointer, comparison } => assemble(0x0026, pointer.0, comparison.0, 0, 0),
            Self::JumpRegisterIfGreaterThan { pointer, comparison } => assemble(0x0027, pointer.0, comparison.0, 0, 0),
            Self::JumpRegisterIfLessThan { pointer, comparison } => assemble(0x0028, pointer.0, comparison.0, 0, 0),
            Self::JumpRegisterIfGreaterThanOrEqual { pointer, comparison } => assemble(0x0029, pointer.0, comparison.0, 0, 0),
            Self::JumpRegisterIfLessThanOrEqual { pointer, comparison } => assemble(0x002a, pointer.0, comparison.0, 0, 0),
            Self::JumpRegisterIfZero { pointer } => assemble(0x002b, pointer.0, 0, 0, 0),
            Self::JumpRegisterIfNotZero { pointer } => assemble(0x002c, pointer.0, 0, 0, 0),
            Self::JumpRegisterIfCarry { pointer } => assemble(0x002d, pointer.0, 0, 0, 0),
            Self::JumpRegisterIfNotCarry { pointer } => assemble(0x002e, pointer.0, 0, 0, 0),
            Self::JumpRegisterIfDivideByZero { pointer } => assemble(0x002f, pointer.0, 0, 0, 0),
            Self::JumpRegisterIfNotDivideByZero { pointer } => assemble(0x0030, pointer.0, 0, 0, 0),
            Self::NoOp {  } => assemble(0x0031, 0, 0, 0, 0),
            Self::GetKeyState { target, keycode } => assemble(0x0032, target.0, keycode.0, 0, 0),
            Self::PollTime { high, low } => assemble(0x0033, high.0, low.0, 0, 0),
            Self::SwapFramebuffers {  } => assemble(0x0035, 0, 0, 0, 0),
            Self::InvisibleFramebufferAddress { target } => assemble(0x0038, target.0, 0, 0, 0),
            Self::PollCycleCountHighLow { high, low } => assemble(0x0039, high.0, low.0, 0, 0),
            Self::DumpRegisters {  } => assemble(0xffff, 0, 0, 0, 0),
            Self::DumpMemory {  } => assemble(0xfffe, 0, 0, 0, 0),
            Self::AssertRegisterRegister { expected, actual } => assemble(0xfffd, expected.0, actual.0, 0, 0),
            Self::AssertRegisterImmediate { actual, immediate } => assemble_with_constant(0xfffc, actual.0, 0, immediate),
            Self::AssertPointerImmediate { pointer, immediate } => assemble_with_constant(0xfffb, pointer.0, 0, immediate),
            Self::DebugBreak {  } => assemble(0xfffa, 0, 0, 0, 0),
            Self::PrintRegister { register } => assemble(0xfff9, register.0, 0, 0, 0),
            Self::Checkpoint { immediate } => assemble_with_constant(0xfff8, 0, 0, immediate),
        }
    }

    /// Whether the instruction pointer moves on by itself after the opcode.
    pub fn should_increment_instruction_pointer(self) -> (increments: bool)
        ensures
            increments == self.advances(),
    {
        match self {
            Self::HaltAndCatchFire {  }
            | Self::CallAddress { .. }
            | Self::CallRegister { .. }
            | Self::CallPointer { .. }
            | Self::Return {  }
            | Self::JumpImmediate { .. }
            | Self::JumpRegister { .. }
            | Self::JumpImmediateIfEqual { .. }
            | Self::JumpImmediateIfGreaterThan { .. }
            | Self::JumpImmediateIfLessThan { .. }
            | Self::JumpImmediateIfGreaterThanOrEqual { .. }
            | Self::JumpImmediateIfLessThanOrEqual { .. }
            | Self::JumpImmediateIfZero { .. }
            | Self::JumpImmediateIfNotZero { .. }
            | Self::JumpImmediateIfCarry { .. }
            | Self::JumpImmediateIfNotCarry { .. }
            | Self::JumpImmediateIfDivideByZero { .. }
            | Self::JumpImmediateIfNotDivideByZero { .. }
            | Self::JumpRegisterIfEqual { .. }
            | Self::JumpRegisterIfGreaterThan { .. }
            | Self::JumpRegisterIfLessThan { .. }
            | Self::JumpRegisterIfGreaterThanOrEqual { .. }
            | Self::JumpRegisterIfLessThanOrEqual { .. }
            | Self::JumpRegisterIfZero { .. }
            | Self::JumpRegisterIfNotZero { .. }
            | Self::JumpRegisterIfCarry { .. }
            | Self::JumpRegisterIfNotCarry { .. }
            | Self::JumpRegisterIfDivideByZero { .. }
            | Self::JumpRegisterIfNotDivideByZero { .. } => false,
            _ => true,
        }
    }

    /// The family that the opcode belongs to.
    pub fn family(self) -> (family: Family)
        ensures
            family == self.family_of(),
    {
        match self {
            Self::MoveRegisterImmediate { .. }
            | Self::MoveRegisterAddress { .. }
            | Self::MoveTargetSource { .. }
            | Self::MoveAddressRegister { .. }
            | Self::MoveTargetPointer { .. }
            | Self::MovePointerSource { .. }
            | Self::MoveByteRegisterAddress { .. }
            | Self::MoveByteAddressRegister { .. }
            | Self::MoveByteTargetPointer { .. }
            | Self::MoveBytePointerSource { .. }
            | Self::MoveHalfwordRegisterAddress { .. }
            | Self::MoveHalfwordAddressRegister { .. }
            | Self::MoveHalfwordTargetPointer { .. }
            | Self::MoveHalfwordPointerSource { .. }
            | Self::MovePointerSourceOffset { .. }
            | Self::MoveBytePointerSourceOffset { .. }
            | Self::MoveHalfwordPointerSourceOffset { .. }
            | Self::MoveTargetPointerOffset { .. }
            | Self::MoveByteTargetPointerOffset { .. }
            | Self::MoveHalfwordTargetPointerOffset { .. } => Family::Move,
            Self::AddTargetLhsRhs { .. }
            | Self::AddWithCarryTargetLhsRhs { .. }
            | Self::SubtractTargetLhsRhs { .. }
            | Self::SubtractWithCarryTargetLhsRhs { .. }
            | Self::MultiplyHighLowLhsRhs { .. }
            | Self::DivmodTargetModLhsRhs { .. }
            | Self::AndTargetLhsRhs { .. }
            | Self::OrTargetLhsRhs { .. }
            | Self::XorTargetLhsRhs { .. }
            | Self::NotTargetSource { .. }
            | Self::LeftShiftTargetLhsRhs { .. }
            | Self::RightShiftTargetLhsRhs { .. }
            | Self::AddTargetSourceImmediate { .. }
            | Self::SubtractTargetSourceImmediate { .. }
            | Self::CompareTargetLhsRhs { .. }
            | Self::BoolCompareEquals { .. }
            | Self::BoolCompareNotEquals { .. }
            | Self::BoolCompareGreater { .. }
            | Self::BoolCompareGreaterOrEquals { .. }
            | Self::BoolCompareLess { .. }
            | Self::BoolCompareLessOrEquals { .. } => Family::Arithmetic,
            Self::PushRegister { .. }
            | Self::PushImmediate { .. }
            | Self::PopRegister { .. }
            | Self::Pop { .. } => Family::Stack,
            Self::HaltAndCatchFire { .. }
            | Self::CallAddress { .. }
            | Self::CallRegister { .. }
            | Self::CallPointer { .. }
            | Self::Return { .. }
            | Self::JumpImmediate { .. }
            | Self::JumpRegister { .. }
            | Self::JumpImmediateIfEqual { .. }
            | Self::JumpImmediateIfGreaterThan { .. }
            | Self::JumpImmediateIfLessThan { .. }
            | Self::JumpImmediateIfGreaterThanOrEqual { .. }
            | Self::JumpImmediateIfLessThanOrEqual { .. }
            | Self::JumpImmediateIfZero { .. }
            | Self::JumpImmediateIfNotZero { .. }
            | Self::JumpImmediateIfCarry { .. }
            | Self::JumpImmediateIfNotCarry { .. }
            | Self::JumpImmediateIfDivideByZero { .. }
            | Self::JumpImmediateIfNotDivideByZero { .. }
            | Self::JumpRegisterIfEqual { .. }
            | Self::JumpRegisterIfGreaterThan { .. }
            | Self::JumpRegisterIfLessThan { .. }
            | Self::JumpRegisterIfGreaterThanOrEqual { .. }
            | Self::JumpRegisterIfLessThanOrEqual { .. }
            | Self::JumpRegisterIfZero { .. }
            | Self::JumpRegisterIfNotZero { .. }
            | Self::JumpRegisterIfCarry { .. }
            | Self::JumpRegisterIfNotCarry { .. }
            | Self::JumpRegisterIfDivideByZero { .. }
            | Self::JumpRegisterIfNotDivideByZero { .. } => Family::ControlFlow,
            Self::GetKeyState { .. }
            | Self::PollTime { .. }
            | Self::SwapFramebuffers { .. }
            | Self::InvisibleFramebufferAddress { .. } => Family::Peripheral,
            _ => Family::Diagnostic,
        }
    }

    /// The number of cycles that the opcode takes.
    pub fn get_num_cycles(self) -> (cycles: u8)
        ensures
            cycles == 1,
    {
        1
    }

    /// Decodes an instruction word.
    pub fn try_from(value: Instruction) -> (decoded: Result<Opcode, DecodeError>)
        ensures
            match decoded {
                Ok(opcode) => Opcode::decoding(value) == Some(opcode),
                Err(error) => Opcode::decoding(value) is None && error.code == code_field(value),
            },
    {
        let code: u16 = (value / 0x1_0000_0000_0000) as u16;
        let r0: Register = Register(((value / 0x100_0000_0000) % 0x100) as u8);
        let r1: Register = Register(((value / 0x1_0000_0000) % 0x100) as u8);
        let r2: Register = Register(((value / 0x100_0000) % 0x100) as u8);
        let r3: Register = Register(((value / 0x1_0000) % 0x100) as u8);
        let constant: Word = (value % 0x1_0000_0000) as u32;
        let found: Option<Opcode> = match code {
            0x0000 => Some(Opcode::MoveRegisterImmediate { register: r0, immediate: constant }),
            0x0001 => Some(Opcode::MoveRegisterAddress { register: r0, source_address: constant }),
            0x0002 => Some(Opcode::MoveTargetSource { target: r0, source: r1 }),
            0x0003 => Some(Opcode::MoveAddressRegister { register: r0, target_address: constant }),
            0x0004 => Some(Opcode::MoveTargetPointer { target: r0, pointer: r1 }),
            0x0005 => Some(Opcode::MovePointerSource { pointer: r0, source: r1 }),
            0x0041 => Some(Opcode::MoveByteRegisterAddress { register: r0, source_address: constant }),
            0x0042 => Some(Opcode::MoveByteAddressRegister { register: r0, target_address: constant }),
            0x0043 => Some(Opcode::MoveByteTargetPointer { target: r0, pointer: r1 }),
            0x0044 => Some(Opcode::MoveBytePointerSource { pointer: r0, source: r1 }),
            0x0045 => Some(Opcode::MoveHalfwordRegisterAddress { register: r0, source_address: constant }),
            0x0046 => Some(Opcode::MoveHalfwordAddressRegister { register: r0, target_address: constant }),
            0x0047 => Some(Opcode::MoveHalfwordTargetPointer { target: r0, pointer: r1 }),
            0x0048 => Some(Opcode::MoveHalfwordPointerSource { pointer: r0, source: r1 }),
            0x0049 => Some(Opcode::MovePointerSourceOffset { pointer: r0, source: r1, immediate: constant }),
            0x004a => Some(Opcode::MoveBytePointerSourceOffset { pointer: r0, source: r1, immediate: constant }),
            0x004b => Some(Opcode::MoveHalfwordPointerSourceOffset { pointer: r0, source: r1, immediate: constant }),
            0x004c => Some(Opcode::MoveTargetPointerOffset { target: r0, pointer: r1, immediate: constant }),
            0x004d => Some(Opcode::MoveByteTargetPointerOffset { target: r0, pointer: r1, immediate: constant }),
            0x004e => Some(Opcode::MoveHalfwordTargetPointerOffset { target: r0, pointer: r1, immediate: constant }),
            0x0006 => Some(Opcode::HaltAndCatchFire {  }),
            0x0007 => Some(Opcode::AddTargetLhsRhs { target: r0, lhs: r1, rhs: r2 }),
            0x0034 => Some(Opcode::AddWithCarryTargetLhsRhs { target: r0, lhs: r1, rhs: r2 }),
            0x0008 => Some(Opcode::SubtractTargetLhsRhs { target: r0, lhs: r1, rhs: r2 }),
            0x0009 => Some(Opcode::SubtractWithCarryTargetLhsRhs { target: r0, lhs: r1, rhs: r2 }),
            0x000a => Some(Opcode::MultiplyHighLowLhsRhs { high: r0, low: r1, lhs: r2, rhs: r3 }),
            0x000b => Some(Opcode::DivmodTargetModLhsRhs { result: r0, remainder: r1, lhs: r2, rhs: r3 }),
            0x000c => Some(Opcode::AndTargetLhsRhs { target: r0, lhs: r1, rhs: r2 }),
            0x000d => Some(Opcode::OrTargetLhsRhs { target: r0, lhs: r1, rhs: r2 }),
            0x000e => Some(Opcode::XorTargetLhsRhs { target: r0, lhs: r1, rhs: r2 }),
            0x000f => Some(Opcode::NotTargetSource { target: r0, source: r1 }),
            0x0010 => Some(Opcode::LeftShiftTargetLhsRhs { target: r0, lhs: r1, rhs: r2 }),
            0x0011 => Some(Opcode::RightShiftTargetLhsRhs { target: r0, lhs: r1, rhs: r2 }),
            0x0012 => Some(Opcode::AddTargetSourceImmediate { target: r0, source: r1, immediate: constant }),
            0x0013 => Some(Opcode::SubtractTargetSourceImmediate { target: r0, source: r1, immediate: constant }),
            0x0014 => Some(Opcode::CompareTargetLhsRhs { target: r0, lhs: r1, rhs: r2 }),
            0x003a => Some(Opcode::BoolCompareEquals { target: r0, lhs: r1, rhs: r2 }),
            0x003b => Some(Opcode::BoolCompareNotEquals { target: r0, lhs: r1, rhs: r2 }),
            0x003c => Some(Opcode::BoolCompareGreater { target: r0, lhs: r1, rhs: r2 }),
            0x003d => Some(Opcode::BoolCompareGreaterOrEquals { target: r0, lhs: r1, rhs: r2 }),
            0x003e => Some(Opcode::BoolCompareLess { target: r0, lhs: r1, rhs: r2 }),
            0x003f => Some(Opcode::BoolCompareLessOrEquals { target: r0, lhs: r1, rhs: r2 }),
            0x0015 => Some(Opcode::PushRegister { register: r0 }),
            0x004f => Some(Opcode::PushImmediate { immediate: constant }),
            0x0016 => Some(Opcode::PopRegister { register: r0 }),
            0x0040 => Some(Opcode::Pop {  }),
            0x0017 => Some(Opcode::CallAddress { source_address: constant }),
            0x0036 => Some(Opcode::CallRegister { register: r0 }),
            0x0037 => Some(Opcode::CallPointer { pointer: r0 }),
            0x0018 => Some(Opcode::Return {  }),
            0x0019 => Some(Opcode::JumpImmediate { immediate: constant }),
            0x001a => Some(Opcode::JumpRegister { register: r0 }),
            0x001b => Some(Opcode::JumpImmediateIfEqual { comparison: r0, immediate: constant }),
            0x001c => Some(Opcode::JumpImmediateIfGreaterThan { comparison: r0, immediate: constant }),
            0x001d => Some(Opcode::JumpImmediateIfLessThan { comparison: r0, immediate: constant }),
            0x001e => Some(Opcode::JumpImmediateIfGreaterThanOrEqual { comparison: r0, immediate: constant }),
            0x001f => Some(Opcode::JumpImmediateIfLessThanOrEqual { comparison: r0, immediate: constant }),
            0x0020 => Some(Opcode::JumpImmediateIfZero { immediate: constant }),
            0x0021 => Some(Opcode::JumpImmediateIfNotZero { immediate: constant }),
            0x0022 => Some(Opcode::JumpImmediateIfCarry { immediate: constant }),
            0x0023 => Some(Opcode::JumpImmediateIfNotCarry { immediate: constant }),
            0x0024 => Some(Opcode::JumpImmediateIfDivideByZero { immediate: constant }),
            0x0025 => Some(Opcode::JumpImmediateIfNotDivideByZero { immediate: constant }),
            0x0026 => Some(Opcode::JumpRegisterIfEqual { pointer: r0, comparison: r1 }),
            0x0027 => Some(Opcode::JumpRegisterIfGreaterThan { pointer: r0, comparison: r1 }),
            0x0028 => Some(Opcode::JumpRegisterIfLessThan { pointer: r0, comparison: r1 }),
            0x0029 => Some(Opcode::JumpRegisterIfGreaterThanOrEqual { pointer: r0, comparison: r1 }),
            0x002a => Some(Opcode::JumpRegisterIfLessThanOrEqual { pointer: r0, comparison: r1 }),
            0x002b => Some(Opcode::JumpRegisterIfZero { pointer: r0 }),
            0x002c => Some(Opcode::JumpRegisterIfNotZero { pointer: r0 }),
            0x002d => Some(Opcode::JumpRegisterIfCarry { pointer: r0 }),
            0x002e => Some(Opcode::JumpRegisterIfNotCarry { pointer: r0 }),
            0x002f => Some(Opcode::JumpRegisterIfDivideByZero { pointer: r0 }),
            0x0030 => Some(Opcode::JumpRegisterIfNotDivideByZero { pointer: r0 }),
            0x0031 => Some(Opcode::NoOp {  }),
            0x0032 => Some(Opcode::GetKeyState { target: r0, keycode: r1 }),
            0x0033 => Some(Opcode::PollTime { high: r0, low: r1 }),
            0x0035 => Some(Opcode::SwapFramebuffers {  }),
            0x0038 => Some(Opcode::InvisibleFramebufferAddress { target: r0 }),
            0x0039 => Some(Opcode::PollCycleCountHighLow { high: r0, low: r1 }),
            0xffff => Some(Opcode::DumpRegisters {  }),
            0xfffe => Some(Opcode::DumpMemory {  }),
            0xfffd => Some(Opcode::AssertRegisterRegister { expected: r0, actual: r1 }),
            0xfffc => Some(Opcode::AssertRegisterImmediate { actual: r0, immediate: constant }),
            0xfffb => Some(Opcode::AssertPointerImmediate { pointer: r0, immediate: constant }),
            0xfffa => Some(Opcode::DebugBreak {  }),
            0xfff9 => Some(Opcode::PrintRegister { register: r0 }),
            0xfff8 => Some(Opcode::Checkpoint { immediate: constant }),
            _ => None,
        };
        match found {
            Some(opcode) => {
                proof {
                    assert(opcode.is_held_by(value));
                    held_by_one(opcode, Opcode::decoding(value).unwrap(), value);
                }
                Ok(opcode)
            },
            None => {
                proof {
                    assert forall|opcode: Opcode| !opcode.is_held_by(value) by {
                        assert(opcode.code() != code);
                    }
                }
                Err(DecodeError { code })
            },
        }
    }
}

/// The instruction word with `code` and four register slots.
fn assemble(code: u16, r0: u8, r1: u8, r2: u8, r3: u8) -> (instruction: Instruction)
    ensures
        instruction == code * 0x1_0000_0000_0000 + r0 * 0x100_0000_0000 + r1 * 0x1_0000_0000 + r2
            * 0x100_0000 + r3 * 0x1_0000,
{
    code as u64 * 0x1_0000_0000_0000 + r0 as u64 * 0x100_0000_0000 + r1 as u64 * 0x1_0000_0000
        + r2 as u64 * 0x100_0000 + r3 as u64 * 0x1_0000
}

/// The instruction word with `code`, two register slots and a constant.
fn assemble_with_constant(code: u16, r0: u8, r1: u8, constant: Word) -> (instruction: Instruction)
    ensures
        instruction == code * 0x1_0000_0000_0000 + r0 * 0x100_0000_0000 + r1 * 0x1_0000_0000
            + constant,
{
    code as u64 * 0x1_0000_0000_0000 + r0 as u64 * 0x100_0000_0000 + r1 as u64 * 0x1_0000_0000
        + constant as u64
}

/// The opcode with the given code, built from the given fields; it takes as
/// many of the registers as it names, and the constant if it has one.
pub open spec fn from_fields(
    code: u16,
    r0: Register,
    r1: Register,
    r2: Register,
    r3: Register,
    constant: Word,
) -> Option<Opcode> {
    match code {
        0x0000 => Some(Opcode::MoveRegisterImmediate { register: r0, immediate: constant }),
        0x0001 => Some(Opcode::MoveRegisterAddress { register: r0, source_address: constant }),
        0x0002 => Some(Opcode::MoveTargetSource { target: r0, source: r1 }),
        0x0003 => Some(Opcode::MoveAddressRegister { register: r0, target_address: constant }),
        0x0004 => Some(Opcode::MoveTargetPointer { target: r0, pointer: r1 }),
        0x0005 => Some(Opcode::MovePointerSource { pointer: r0, source: r1 }),
        0x0041 => Some(Opcode::MoveByteRegisterAddress { register: r0, source_address: constant }),
        0x0042 => Some(Opcode::MoveByteAddressRegister { register: r0, target_address: constant }),
        0x0043 => Some(Opcode::MoveByteTargetPointer { target: r0, pointer: r1 }),
        0x0044 => Some(Opcode::MoveBytePointerSource { pointer: r0, source: r1 }),
        0x0045 => Some(Opcode::MoveHalfwordRegisterAddress { register: r0, source_address: constant }),
        0x0046 => Some(Opcode::MoveHalfwordAddressRegister { register: r0, target_address: constant }),
        0x0047 => Some(Opcode::MoveHalfwordTargetPointer { target: r0, pointer: r1 }),
        0x0048 => Some(Opcode::MoveHalfwordPointerSource { pointer: r0, source: r1 }),
        0x0049 => Some(Opcode::MovePointerSourceOffset { pointer: r0, source: r1, immediate: constant }),
        0x004a => Some(Opcode::MoveBytePointerSourceOffset { pointer: r0, source: r1, immediate: constant }),
        0x004b => Some(Opcode::MoveHalfwordPointerSourceOffset { pointer: r0, source: r1, immediate: constant }),
        0x004c => Some(Opcode::MoveTargetPointerOffset { target: r0, pointer: r1, immediate: constant }),
        0x004d => Some(Opcode::MoveByteTargetPointerOffset { target: r0, pointer: r1, immediate: constant }),
        0x004e => Some(Opcode::MoveHalfwordTargetPointerOffset { target: r0, pointer: r1, immediate: constant }),
        0x0006 => Some(Opcode::HaltAndCatchFire {  }),
        0x0007 => Some(Opcode::AddTargetLhsRhs { target: r0, lhs: r1, rhs: r2 }),
        0x0034 => Some(Opcode::AddWithCarryTargetLhsRhs { target: r0, lhs: r1, rhs: r2 }),
        0x0008 => Some(Opcode::SubtractTargetLhsRhs { target: r0, lhs: r1, rhs: r2 }),
        0x0009 => Some(Opcode::SubtractWithCarryTargetLhsRhs { target: r0, lhs: r1, rhs: r2 }),
        0x000a => Some(Opcode::MultiplyHighLowLhsRhs { high: r0, low: r1, lhs: r2, rhs: r3 }),
        0x000b => Some(Opcode::DivmodTargetModLhsRhs { result: r0, remainder: r1, lhs: r2, rhs: r3 }),
        0x000c => Some(Opcode::AndTargetLhsRhs { target: r0, lhs: r1, rhs: r2 }),
        0x000d => Some(Opcode::OrTargetLhsRhs { target: r0, lhs: r1, rhs: r2 }),
        0x000e => Some(Opcode::XorTargetLhsRhs { target: r0, lhs: r1, rhs: r2 }),
        0x000f => Some(Opcode::NotTargetSource { target: r0, source: r1 }),
        0x0010 => Some(Opcode::LeftShiftTargetLhsRhs { target: r0, lhs: r1, rhs: r2 }),
        0x0011 => Some(Opcode::RightShiftTargetLhsRhs { target: r0, lhs: r1, rhs: r2 }),
        0x0012 => Some(Opcode::AddTargetSourceImmediate { target: r0, source: r1, immediate: constant }),
        0x0013 => Some(Opcode::SubtractTargetSourceImmediate { target: r0, source: r1, immediate: constant }),
        0x0014 => Some(Opcode::CompareTargetLhsRhs { target: r0, lhs: r1, rhs: r2 }),
        0x003a => Some(Opcode::BoolCompareEquals { target: r0, lhs: r1, rhs: r2 }),
        0x003b => Some(Opcode::BoolCompareNotEquals { target: r0, lhs: r1, rhs: r2 }),
        0x003c => Some(Opcode::BoolCompareGreater { target: r0, lhs: r1, rhs: r2 }),
        0x003d => Some(Opcode::BoolCompareGreaterOrEquals { target: r0, lhs: r1, rhs: r2 }),
        0x003e => Some(Opcode::BoolCompareLess { target: r0, lhs: r1, rhs: r2 }),
        0x003f => Some(Opcode::BoolCompareLessOrEquals { target: r0, lhs: r1, rhs: r2 }),
        0x0015 => Some(Opcode::PushRegister { register: r0 }),
        0x004f => Some(Opcode::PushImmediate { immediate: constant }),
        0x0016 => Some(Opcode::PopRegister { register: r0 }),
        0x0040 => Some(Opcode::Pop {  }),
        0x0017 => Some(Opcode::CallAddress { source_address: constant }),
        0x0036 => Some(Opcode::CallRegister { register: r0 }),
        0x0037 => Some(Opcode::CallPointer { pointer: r0 }),
        0x0018 => Some(Opcode::Return {  }),
        0x0019 => Some(Opcode::JumpImmediate { immediate: constant }),
        0x001a => Some(Opcode::JumpRegister { register: r0 }),
        0x001b => Some(Opcode::JumpImmediateIfEqual { comparison: r0, immediate: constant }),
        0x001c => Some(Opcode::JumpImmediateIfGreaterThan { comparison: r0, immediate: constant }),
        0x001d => Some(Opcode::JumpImmediateIfLessThan { comparison: r0, immediate: constant }),
        0x001e => Some(Opcode::JumpImmediateIfGreaterThanOrEqual { comparison: r0, immediate: constant }),
        0x001f => Some(Opcode::JumpImmediateIfLessThanOrEqual { comparison: r0, immediate: constant }),
        0x0020 => Some(Opcode::JumpImmediateIfZero { immediate: constant }),
        0x0021 => Some(Opcode::JumpImmediateIfNotZero { immediate: constant }),
        0x0022 => Some(Opcode::JumpImmediateIfCarry { immediate: constant }),
        0x0023 => Some(Opcode::JumpImmediateIfNotCarry { immediate: constant }),
        0x0024 => Some(Opcode::JumpImmediateIfDivideByZero { immediate: constant }),
        0x0025 => Some(Opcode::JumpImmediateIfNotDivideByZero { immediate: constant }),
        0x0026 => Some(Opcode::JumpRegisterIfEqual { pointer: r0, comparison: r1 }),
        0x0027 => Some(Opcode::JumpRegisterIfGreaterThan { pointer: r0, comparison: r1 }),
        0x0028 => Some(Opcode::JumpRegisterIfLessThan { pointer: r0, comparison: r1 }),
        0x0029 => Some(Opcode::JumpRegisterIfGreaterThanOrEqual { pointer: r0, comparison: r1 }),
        0x002a => Some(Opcode::JumpRegisterIfLessThanOrEqual { pointer: r0, comparison: r1 }),
        0x002b => Some(Opcode::JumpRegisterIfZero { pointer: r0 }),
        0x002c => Some(Opcode::JumpRegisterIfNotZero { pointer: r0 }),
        0x002d => Some(Opcode::JumpRegisterIfCarry { pointer: r0 }),
        0x002e => Some(Opcode::JumpRegisterIfNotCarry { pointer: r0 }),
        0x002f => Some(Opcode::JumpRegisterIfDivideByZero { pointer: r0 }),
        0x0030 => Some(Opcode::JumpRegisterIfNotDivideByZero { pointer: r0 }),
        0x0031 => Some(Opcode::NoOp {  }),
        0x0032 => Some(Opcode::GetKeyState { target: r0, keycode: r1 }),
        0x0033 => Some(Opcode::PollTime { high: r0, low: r1 }),
        0x0035 => Some(Opcode::SwapFramebuffers {  }),
        0x0038 => Some(Opcode::InvisibleFramebufferAddress { target: r0 }),
        0x0039 => Some(Opcode::PollCycleCountHighLow { high: r0, low: r1 }),
        0xffff => Some(Opcode::DumpRegisters {  }),
        0xfffe => Some(Opcode::DumpMemory {  }),
        0xfffd => Some(Opcode::AssertRegisterRegister { expected: r0, actual: r1 }),
        0xfffc => Some(Opcode::AssertRegisterImmediate { actual: r0, immediate: constant }),
        0xfffb => Some(Opcode::AssertPointerImmediate { pointer: r0, immediate: constant }),
        0xfffa => Some(Opcode::DebugBreak {  }),
        0xfff9 => Some(Opcode::PrintRegister { register: r0 }),
        0xfff8 => Some(Opcode::Checkpoint { immediate: constant }),
        _ => None,
    }
}

/// An opcode with a constant names at most two registers, and no opcode names
/// more than four: register slots and constant never share a byte.
pub proof fn constant_leaves_room(opcode: Opcode)
    ensures
        opcode.registers().len() <= 4,
        opcode.constant() is Some ==> opcode.registers().len() <= 2,
{
}

/// An opcode is rebuilt from its own fields.
proof fn rebuilt_from_fields(opcode: Opcode, r0: Register, r1: Register, r2: Register, r3: Register, constant: Word)
    requires
        opcode.registers().len() > 0 ==> opcode.registers()[0] == r0,
        opcode.registers().len() > 1 ==> opcode.registers()[1] == r1,
        opcode.registers().len() > 2 ==> opcode.registers()[2] == r2,
        opcode.registers().len() > 3 ==> opcode.registers()[3] == r3,
        opcode.constant() is Some ==> opcode.constant() == Some(constant),
    ensures
        from_fields(opcode.code(), r0, r1, r2, r3, constant) == Some(opcode),
{
}

/// An instruction holds at most one opcode.
pub proof fn held_by_one(a: Opcode, b: Opcode, instruction: Instruction)
    requires
        a.is_held_by(instruction),
        b.is_held_by(instruction),
    ensures
        a == b,
{
    let r0 = register_field(instruction, 0);
    let r1 = register_field(instruction, 1);
    let r2 = register_field(instruction, 2);
    let r3 = register_field(instruction, 3);
    let constant = constant_field(instruction);
    rebuilt_from_fields(a, r0, r1, r2, r3, constant);
    rebuilt_from_fields(b, r0, r1, r2, r3, constant);
}

/// Division and remainder of `high * place + low` by `place`.
proof fn split_at(high: int, low: int, place: int)
    requires
        0 <= low < place,
        0 <= high,
    ensures
        (high * place + low) / place == high,
        (high * place + low) % place == low,
{
    vstd::arithmetic::div_mod::lemma_fundamental_div_mod_converse(
        high * place + low,
        place,
        high,
        low,
    );
}

/// The fields of an instruction word that was put together from a code, two
/// registers and the four low bytes.
proof fn fields_of_word(code: u16, r0: u8, r1: u8, low: u32)
    ensures
        ({
            let word = (code * 0x1_0000_0000_0000 + r0 * 0x100_0000_0000 + r1 * 0x1_0000_0000
                + low) as Instruction;
            &&& word == code * 0x1_0000_0000_0000 + r0 * 0x100_0000_0000 + r1 * 0x1_0000_0000 + low
            &&& code_field(word) == code
            &&& register_field(word, 0) == Register(r0)
            &&& register_field(word, 1) == Register(r1)
            &&& constant_field(word) == low
            &&& register_field(word, 2).0 == (low / 0x100_0000) % 0x100
            &&& register_field(word, 3).0 == (low / 0x1_0000) % 0x100
        }),
{
    let word: int = code * 0x1_0000_0000_0000 + r0 * 0x100_0000_0000 + r1 * 0x1_0000_0000 + low;
    split_at(code as int, r0 * 0x100_0000_0000 + r1 * 0x1_0000_0000 + low, 0x1_0000_0000_0000);
    split_at(code * 0x100 + r0, r1 * 0x1_0000_0000 + low, 0x100_0000_0000);
    split_at(code as int, r0 as int, 0x100);
    split_at(code * 0x1_0000 + r0 * 0x100 + r1, low as int, 0x1_0000_0000);
    split_at(code * 0x100 + r0, r1 as int, 0x100);
    let b3: int = (low / 0x100_0000) as int;
    let rest3: int = (low % 0x100_0000) as int;
    split_at((code * 0x1_0000 + r0 * 0x100 + r1) * 0x100 + b3, rest3, 0x100_0000);
    split_at(code * 0x1_0000 + r0 * 0x100 + r1, b3, 0x100);
    let b2: int = (low / 0x1_0000) as int;
    let rest2: int = (low % 0x1_0000) as int;
    split_at((code * 0x1_0000 + r0 * 0x100 + r1) * 0x1_0000 + b2, rest2, 0x1_0000);
    assert(word / 0x1_0000 == (code * 0x1_0000 + r0 * 0x100 + r1) * 0x1_0000 + b2);
    assert(word / 0x100_0000 == (code * 0x1_0000 + r0 * 0x100 + r1) * 0x100 + b3);
    assert(((code * 0x1_0000 + r0 * 0x100 + r1) * 0x100 + b3) % 0x100 == b3 % 0x100);
    assert(((code * 0x1_0000 + r0 * 0x100 + r1) * 0x1_0000 + b2) % 0x100 == b2 % 0x100);
}

/// Decoding undoes encoding: the instruction word of an opcode holds that
/// opcode and no other.
pub proof fn decoding_inverts_encoding(opcode: Opcode)
    ensures
        opcode.is_held_by(opcode.encoding()),
        Opcode::decoding(opcode.encoding()) == Some(opcode),
{
    let instruction = opcode.encoding();
    constant_leaves_room(opcode);
    let low: u32 = match opcode.constant() {
        Some(constant) => constant,
        None => (opcode.slot(2) * 0x100_0000 + opcode.slot(3) * 0x1_0000) as u32,
    };
    fields_of_word(opcode.code(), opcode.slot(0) as u8, opcode.slot(1) as u8, low);
    assert(opcode.is_held_by(instruction));
    held_by_one(opcode, Opcode::decoding(instruction).unwrap(), instruction);
}

/// Encoding is injective: no two opcodes share an instruction word.
pub proof fn encoding_is_injective(a: Opcode, b: Opcode)
    requires
        a.encoding() == b.encoding(),
    ensures
        a == b,
{
    decoding_inverts_encoding(a);
    decoding_inverts_encoding(b);
}

} // verus!
