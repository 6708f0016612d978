//! What holds of the instruction set as a whole: statements about the state
//! after one or more instructions, each proved from the semantics.

use vstd::prelude::*;
use crate::address_constants::{ENTRY_POINT, STACK_END, STACK_START};
use crate::memory::{
    accessible_means, word_at, word_reads_its_bytes, word_round_trip, word_write_keeps_rest,
};
use crate::opcodes::Opcode;
use crate::semantics::{
    flag_round_trip, wrap, Flag, Input, Snapshot, FLAGS, INSTRUCTION_POINTER, STACK_POINTER,
};
use crate::{Address, Register, Word};

verus! {

/// A move of a constant into a register leaves the constant there and the
/// instruction pointer at the next instruction. The instruction pointer
/// itself is no such register: a constant moved there is moved on by eight.
pub proof fn move_immediate_fills_register(
    before: Snapshot,
    register: Register,
    immediate: Word,
    input: Input,
)
    requires
        before.wf(),
        before.instruction_pointer() == ENTRY_POINT,
        register != Register(INSTRUCTION_POINTER),
    ensures
        before.executed(Opcode::MoveRegisterImmediate { register, immediate }, input).register(
            register,
        ) == immediate,
        before.executed(
            Opcode::MoveRegisterImmediate { register, immediate },
            input,
        ).instruction_pointer() == ENTRY_POINT + 8,
{
}

/// After an opcode that is no jump, call, return or halt, the instruction
/// pointer stands at the next instruction, unless the opcode names the
/// instruction pointer as the place of a result.
pub proof fn instruction_pointer_moves_on(before: Snapshot, opcode: Opcode, input: Input)
    requires
        before.wf(),
        opcode.advances(),
        !opcode.targets().contains(Register(INSTRUCTION_POINTER)),
    ensures
        before.executed(opcode, input).instruction_pointer() == before.next_instruction(),
        before.instruction_pointer() + 8 <= Word::MAX ==> before.executed(
            opcode,
            input,
        ).instruction_pointer() == before.instruction_pointer() + 8,
{
    let targets = opcode.targets();
    if targets.len() > 0 {
        assert(targets.contains(targets[0]));
    }
    if targets.len() > 1 {
        assert(targets.contains(targets[1]));
    }
    assert(before.operated(opcode, input).instruction_pointer() == before.instruction_pointer());
}

/// Whether a conditional jump is taken in the state `before`; `None` for
/// every other opcode. A jump by a comparison reads the register as the
/// result of a comparison: 0 for equal, 1 for greater, the largest word for
/// less. A jump by a flag reads the flag.
pub open spec fn jump_is_taken(before: Snapshot, opcode: Opcode) -> Option<bool> {
    match opcode {
        Opcode::JumpImmediateIfEqual { comparison, .. }
        | Opcode::JumpRegisterIfEqual { comparison, .. } => Some(
            before.register(comparison) == 0,
        ),
        Opcode::JumpImmediateIfGreaterThan { comparison, .. }
        | Opcode::JumpRegisterIfGreaterThan { comparison, .. } => Some(
            before.register(comparison) == 1,
        ),
        Opcode::JumpImmediateIfLessThan { comparison, .. }
        | Opcode::JumpRegisterIfLessThan { comparison, .. } => Some(
            before.register(comparison) == Word::MAX,
        ),
        Opcode::JumpImmediateIfGreaterThanOrEqual { comparison, .. }
        | Opcode::JumpRegisterIfGreaterThanOrEqual { comparison, .. } => Some(
            set![0u32, 1u32].contains(before.register(comparison)),
        ),
        Opcode::JumpImmediateIfLessThanOrEqual { comparison, .. }
        | Opcode::JumpRegisterIfLessThanOrEqual { comparison, .. } => Some(
            set![0u32, Word::MAX].contains(before.register(comparison)),
        ),
        Opcode::JumpImmediateIfZero { .. } | Opcode::JumpRegisterIfZero { .. } => Some(
            before.flag(Flag::Zero),
        ),
        Opcode::JumpImmediateIfNotZero { .. } | Opcode::JumpRegisterIfNotZero { .. } => Some(
            !before.flag(Flag::Zero),
        ),
        Opcode::JumpImmediateIfCarry { .. } | Opcode::JumpRegisterIfCarry { .. } => Some(
            before.flag(Flag::Carry),
        ),
        Opcode::JumpImmediateIfNotCarry { .. } | Opcode::JumpRegisterIfNotCarry { .. } => Some(
            !before.flag(Flag::Carry),
        ),
        Opcode::JumpImmediateIfDivideByZero { .. }
        | Opcode::JumpRegisterIfDivideByZero { .. } => Some(before.flag(Flag::DivideByZero)),
        Opcode::JumpImmediateIfNotDivideByZero { .. }
        | Opcode::JumpRegisterIfNotDivideByZero { .. } => Some(!before.flag(Flag::DivideByZero)),
        _ => None,
    }
}

/// Where a jump leads if it is taken: to its constant, or to the address in
/// the register that it names first. `None` for an opcode that is no jump.
pub open spec fn jump_target(before: Snapshot, opcode: Opcode) -> Option<Address> {
    if opcode is JumpImmediate || opcode is JumpRegister || jump_is_taken(before, opcode) is Some {
        match opcode.constant() {
            Some(address) => Some(address),
            None => Some(before.register(opcode.registers()[0])),
        }
    } else {
        None
    }
}

/// After a jump that is taken the instruction pointer is the target; after
/// one that is not taken it stands at the next instruction. A jump without a
/// condition is always taken.
pub proof fn jump_sets_instruction_pointer(before: Snapshot, opcode: Opcode, input: Input)
    requires
        before.wf(),
        jump_target(before, opcode) is Some,
    ensures
        before.executed(opcode, input).instruction_pointer() == if jump_is_taken(before, opcode)
            == Some(false) {
            before.next_instruction()
        } else {
            jump_target(before, opcode).unwrap()
        },
{
}

/// A dump shows the registers as they were when dump-registers began: the
/// instruction changes no register but the instruction pointer, which moves
/// on by one instruction, and the dump moves it back.
pub proof fn dump_shows_registers_before(before: Snapshot, input: Input)
    requires
        before.wf(),
    ensures
        crate::processor::Processor::registers_at_dump(
            before.executed(Opcode::DumpRegisters {  }, input).registers,
        ) == before.registers,
        before.executed(Opcode::DumpRegisters {  }, input).memory == before.memory,
{
    let after = before.executed(Opcode::DumpRegisters {  }, input);
    assert(crate::processor::Processor::registers_at_dump(after.registers) =~= before.registers);
}

/// What the periphery answers matters to the opcode that asks and to no
/// other: the time to poll-time, the state of the key to get-key-state, and
/// which framebuffer is shown to invisible-framebuffer-address.
pub proof fn answers_matter_to_those_who_ask(
    before: Snapshot,
    opcode: Opcode,
    one: Input,
    other: Input,
)
    requires
        opcode is PollTime ==> one.time == other.time,
        opcode is GetKeyState ==> one.key_down == other.key_down,
        opcode is InvisibleFramebufferAddress ==> one.first_framebuffer_visible
            == other.first_framebuffer_visible,
    ensures
        before.executed(opcode, one) == before.executed(opcode, other),
{
}

/// What an addition leaves: the zero flag tells whether the result is zero,
/// the carry flag whether the exact sum was too large for a word, and the
/// target holds the sum modulo 2^32 unless it is the flags register.
pub proof fn sum_sets_flags(before: Snapshot, target: Register, exact: int)
    requires
        before.wf(),
    ensures
        before.with_sum(target, exact).flag(Flag::Zero) == (wrap(exact) == 0),
        before.with_sum(target, exact).flag(Flag::Carry) == (exact > Word::MAX),
        before.with_sum(target, exact).flag(Flag::DivideByZero) == before.with_register(
            target,
            wrap(exact),
        ).flag(Flag::DivideByZero),
        target != Register(FLAGS) ==> before.with_sum(target, exact).register(target) == wrap(
            exact,
        ),
{
    let stored = before.with_register(target, wrap(exact));
    let flags = stored.register(Register(FLAGS));
    let zeroed = Flag::Zero.put_in(flags, wrap(exact) == 0);
    flag_round_trip(flags, Flag::Zero, Flag::Carry, wrap(exact) == 0);
    flag_round_trip(flags, Flag::Zero, Flag::DivideByZero, wrap(exact) == 0);
    flag_round_trip(zeroed, Flag::Carry, Flag::Zero, exact > Word::MAX);
    flag_round_trip(zeroed, Flag::Carry, Flag::DivideByZero, exact > Word::MAX);
}

/// What a subtraction leaves: the zero flag tells whether the result is
/// zero, the carry flag whether the subtrahend was larger than the minuend,
/// and the target holds the difference modulo 2^32 unless it is the flags
/// register.
pub proof fn difference_sets_flags(before: Snapshot, target: Register, exact: int)
    requires
        before.wf(),
    ensures
        before.with_difference(target, exact).flag(Flag::Zero) == (wrap(exact) == 0),
        before.with_difference(target, exact).flag(Flag::Carry) == (exact < 0),
        target != Register(FLAGS) ==> before.with_difference(target, exact).register(target)
            == wrap(exact),
{
    let stored = before.with_register(target, wrap(exact));
    let flags = stored.register(Register(FLAGS));
    let zeroed = Flag::Zero.put_in(flags, wrap(exact) == 0);
    flag_round_trip(flags, Flag::Zero, Flag::Carry, wrap(exact) == 0);
    flag_round_trip(zeroed, Flag::Carry, Flag::Zero, exact < 0);
}

/// A division by zero leaves zero as the quotient and the dividend as the
/// remainder, and sets the zero flag and the divide-by-zero flag. Quotient
/// and remainder must go to two registers, neither of them the flags or the
/// instruction pointer.
pub proof fn division_by_zero(
    before: Snapshot,
    result: Register,
    remainder: Register,
    lhs: Register,
    rhs: Register,
    input: Input,
)
    requires
        before.wf(),
        before.register(rhs) == 0,
        result != remainder,
        result != Register(FLAGS),
        remainder != Register(FLAGS),
        result != Register(INSTRUCTION_POINTER),
        remainder != Register(INSTRUCTION_POINTER),
    ensures
        ({
            let after = before.executed(
                Opcode::DivmodTargetModLhsRhs { result, remainder, lhs, rhs },
                input,
            );
            &&& after.register(result) == 0
            &&& after.register(remainder) == before.register(lhs)
            &&& after.flag(Flag::Zero)
            &&& after.flag(Flag::DivideByZero)
        }),
{
    let stored = before.with_register(result, 0).with_register(remainder, before.register(lhs));
    let flags = stored.register(Register(FLAGS));
    let zeroed = Flag::Zero.put_in(flags, true);
    flag_round_trip(flags, Flag::Zero, Flag::DivideByZero, true);
    flag_round_trip(zeroed, Flag::DivideByZero, Flag::Zero, true);
}

/// The state after the words of `values` were pushed, the first one first.
pub open spec fn pushed_all(before: Snapshot, values: Seq<Word>) -> Snapshot
    decreases values.len(),
{
    if values.len() == 0 {
        before
    } else {
        pushed_all(before, values.drop_last()).pushed(values.last())
    }
}

/// The `count` words on top of the stack, the topmost first: what as many
/// pops give, one after the other.
pub open spec fn tops(state: Snapshot, count: nat) -> Seq<Word> {
    Seq::new(count, |i: int| word_at(state.memory, state.stack_pointer() - 4 * (i + 1)))
}

/// The state after one pop into each register of `registers`, the first one
/// first.
pub open spec fn popped_into_all(before: Snapshot, registers: Seq<Register>) -> Snapshot
    decreases registers.len(),
{
    if registers.len() == 0 {
        before
    } else {
        let earlier = popped_into_all(before, registers.drop_last());
        earlier.popped().with_register(registers.last(), earlier.top())
    }
}

/// What pushes leave: the stack pointer has moved up by one word for each
/// value, the values stand in the words that it passed, and nothing else has
/// changed in the registers.
proof fn pushes_leave_values(before: Snapshot, values: Seq<Word>)
    requires
        before.wf(),
        before.stack_pointer() % 4 == 0,
        STACK_START <= before.stack_pointer(),
        before.stack_pointer() + 4 * values.len() <= STACK_END,
    ensures
        pushed_all(before, values).wf(),
        pushed_all(before, values).registers == before.registers.update(
            STACK_POINTER as int,
            (before.stack_pointer() + 4 * values.len()) as Word,
        ),
        forall|j: int|
            0 <= j < values.len() ==> word_at(
                pushed_all(before, values).memory,
                before.stack_pointer() + 4 * j,
            ) == #[trigger] values[j],
        forall|j: int|
            0 <= j < values.len() ==> (#[trigger] pushed_all(
                before,
                values.take(j),
            )).push_fault() is None,
    decreases values.len(),
{
    if values.len() == 0 {
        assert(before.registers =~= before.registers.update(
            STACK_POINTER as int,
            before.stack_pointer(),
        ));
    } else {
        let front = values.drop_last();
        pushes_leave_values(before, front);
        let earlier = pushed_all(before, front);
        let top = earlier.stack_pointer();
        assert(top == before.stack_pointer() + 4 * front.len());
        word_write_keeps_rest(earlier.memory, top as int, values.last());
        word_round_trip(earlier.memory, top as int, values.last());
        let after = earlier.pushed(values.last());
        assert(after.registers =~= before.registers.update(
            STACK_POINTER as int,
            (before.stack_pointer() + 4 * values.len()) as Word,
        ));
        assert forall|j: int| 0 <= j < values.len() implies word_at(
            after.memory,
            before.stack_pointer() + 4 * j,
        ) == #[trigger] values[j] by {
            if j < front.len() {
                assert(front[j] == values[j]);
                assert(word_at(earlier.memory, before.stack_pointer() + 4 * j) == front[j]);
                word_reads_its_bytes(
                    earlier.memory,
                    after.memory,
                    before.stack_pointer() + 4 * j,
                );
            }
        }
        assert forall|j: int| 0 <= j < values.len() implies (#[trigger] pushed_all(
            before,
            values.take(j),
        )).push_fault() is None by {
            assert(values.take(j) =~= front.take(j));
            if j == front.len() {
                assert(front.take(j) =~= front);
                accessible_means(top as int, 4);
                assert(earlier.push_fault() is None);
            }
        }
    }
}

/// What pops into registers leave, if none of the registers is the stack
/// pointer: the stack pointer has moved down by one word for each pop, the
/// memory is as it was, and the register of the last pop holds the word that
/// the stack pointer passed last.
proof fn pops_take_values(before: Snapshot, registers: Seq<Register>)
    requires
        before.wf(),
        before.stack_pointer() - 4 * registers.len() >= 0,
        forall|i: int|
            0 <= i < registers.len() ==> #[trigger] registers[i] != Register(STACK_POINTER),
    ensures
        popped_into_all(before, registers).wf(),
        popped_into_all(before, registers).memory == before.memory,
        popped_into_all(before, registers).stack_pointer() == before.stack_pointer() - 4
            * registers.len(),
        registers.len() > 0 ==> popped_into_all(before, registers).register(registers.last())
            == word_at(before.memory, before.stack_pointer() - 4 * registers.len()),
    decreases registers.len(),
{
    if registers.len() > 0 {
        let front = registers.drop_last();
        assert forall|i: int| 0 <= i < front.len() implies #[trigger] front[i] != Register(
            STACK_POINTER,
        ) by {
            assert(front[i] == registers[i]);
        }
        pops_take_values(before, front);
    }
}

/// Pops give back what was pushed, the last word first: after pushes of
/// `values` the words on top of the stack are those of `values` in reverse
/// order, and the stack pointer has moved up by one word for each. The pushes
/// must fit into the stack region.
pub proof fn pops_give_back_pushes(before: Snapshot, values: Seq<Word>)
    requires
        before.wf(),
        before.stack_pointer() % 4 == 0,
        STACK_START <= before.stack_pointer(),
        before.stack_pointer() + 4 * values.len() <= STACK_END,
    ensures
        tops(pushed_all(before, values), values.len()) == values.reverse(),
        pushed_all(before, values).stack_pointer() == before.stack_pointer() + 4 * values.len(),
        pushed_all(before, values).wf(),
{
    pushes_leave_values(before, values);
    let full = pushed_all(before, values);
    assert(tops(full, values.len()) =~= values.reverse()) by {
        assert forall|i: int| 0 <= i < values.len() implies tops(full, values.len())[i]
            == values.reverse()[i] by {
            let j = values.len() - 1 - i;
            assert(word_at(full.memory, before.stack_pointer() + 4 * j) == values[j]);
        }
    }
}

/// The stack gives back last what was pushed first: after pushes of
/// `values` and as many pops into `registers`, each pop has put into its
/// register the value that was pushed as many pushes before the end as the
/// pop comes after the start, and in the end the stack pointer is where it
/// was. None of the pushes and pops faults. The pushes must fit into the
/// stack region, and no pop may go into the stack pointer.
pub proof fn stack_is_last_in_first_out(
    before: Snapshot,
    values: Seq<Word>,
    registers: Seq<Register>,
)
    requires
        before.wf(),
        values.len() == registers.len(),
        before.stack_pointer() % 4 == 0,
        STACK_START <= before.stack_pointer(),
        before.stack_pointer() + 4 * values.len() <= STACK_END,
        forall|i: int|
            0 <= i < registers.len() ==> #[trigger] registers[i] != Register(STACK_POINTER),
    ensures
        forall|i: int|
            0 <= i < registers.len() ==> popped_into_all(
                pushed_all(before, values),
                #[trigger] registers.take(i + 1),
            ).register(registers[i]) == values[values.len() - 1 - i],
        popped_into_all(pushed_all(before, values), registers).stack_pointer()
            == before.stack_pointer(),
        forall|i: int|
            0 <= i < values.len() ==> (#[trigger] pushed_all(
                before,
                values.take(i),
            )).push_fault() is None,
        forall|i: int|
            0 <= i < registers.len() ==> (#[trigger] popped_into_all(
                pushed_all(before, values),
                registers.take(i),
            )).pop_fault() is None,
{
    let full = pushed_all(before, values);
    pushes_leave_values(before, values);
    pops_take_values(full, registers);
    assert forall|i: int| 0 <= i < registers.len() implies (#[trigger] popped_into_all(
        full,
        registers.take(i),
    )).pop_fault() is None by {
        let some = registers.take(i);
        assert forall|k: int| 0 <= k < some.len() implies #[trigger] some[k] != Register(
            STACK_POINTER,
        ) by {
            assert(some[k] == registers[k]);
        }
        pops_take_values(full, some);
        let top = popped_into_all(full, some).stack_pointer();
        assert(top == before.stack_pointer() + 4 * (values.len() - i));
        accessible_means(top - 4, 4);
    }
    assert forall|i: int| 0 <= i < registers.len() implies popped_into_all(
        full,
        #[trigger] registers.take(i + 1),
    ).register(registers[i]) == values[values.len() - 1 - i] by {
        let some = registers.take(i + 1);
        assert forall|k: int| 0 <= k < some.len() implies #[trigger] some[k] != Register(
            STACK_POINTER,
        ) by {
            assert(some[k] == registers[k]);
        }
        pops_take_values(full, some);
        assert(some.last() == registers[i]);
        assert(full.stack_pointer() - 4 * some.len() == before.stack_pointer() + 4 * (values.len()
            - 1 - i));
    }
}

/// The state after the opcodes of `program` were executed one after the
/// other, each with `input` as the answer of the periphery.
pub open spec fn executed_all(before: Snapshot, program: Seq<Opcode>, input: Input) -> Snapshot
    decreases program.len(),
{
    if program.len() == 0 {
        before
    } else {
        executed_all(before, program.drop_last(), input).executed(program.last(), input)
    }
}

/// The program that pushes the words of `values`, the first one first.
pub open spec fn pushes(values: Seq<Word>) -> Seq<Opcode> {
    Seq::new(values.len(), |i: int| Opcode::PushImmediate { immediate: values[i] })
}

/// The program that pops into the registers of `registers`, the first one
/// first.
pub open spec fn pops(registers: Seq<Register>) -> Seq<Opcode> {
    Seq::new(registers.len(), |i: int| Opcode::PopRegister { register: registers[i] })
}

/// Whether two states differ in nothing that the stack is made of: they have
/// the same memory and the same registers but for the instruction pointer.
spec fn alike(one: Snapshot, other: Snapshot) -> bool {
    &&& one.wf() && other.wf()
    &&& one.memory == other.memory
    &&& forall|i: int|
        0 <= i < 256 && i != INSTRUCTION_POINTER ==> one.registers[i] == other.registers[i]
}

/// Executing a push is pushing, but for instruction pointer and cycle count.
proof fn push_is_pushing(one: Snapshot, other: Snapshot, value: Word, input: Input)
    requires
        alike(one, other),
        other.push_fault() is None,
    ensures
        one.fault(Opcode::PushImmediate { immediate: value }) is None,
        alike(one.executed(Opcode::PushImmediate { immediate: value }, input), other.pushed(value)),
{
    accessible_means(other.stack_pointer() as int, 4);
    word_write_keeps_rest(other.memory, other.stack_pointer() as int, value);
}

/// Executing a pop into a register is popping into it, but for instruction
/// pointer and cycle count.
proof fn pop_is_popping(one: Snapshot, other: Snapshot, register: Register, input: Input)
    requires
        alike(one, other),
        other.pop_fault() is None,
        register != Register(INSTRUCTION_POINTER),
    ensures
        one.fault(Opcode::PopRegister { register }) is None,
        alike(
            one.executed(Opcode::PopRegister { register }, input),
            other.popped().with_register(register, other.top()),
        ),
        one.executed(Opcode::PopRegister { register }, input).register(register)
            == other.popped().with_register(register, other.top()).register(register),
{
}

/// A program of pushes and then pops does to the stack what the pushes and
/// pops themselves do, and none of its instructions faults.
proof fn program_pushes_and_pops(
    before: Snapshot,
    values: Seq<Word>,
    registers: Seq<Register>,
    input: Input,
)
    requires
        before.wf(),
        registers.len() <= values.len(),
        before.stack_pointer() % 4 == 0,
        STACK_START <= before.stack_pointer(),
        before.stack_pointer() + 4 * values.len() <= STACK_END,
        forall|i: int|
            0 <= i < registers.len() ==> #[trigger] registers[i] != Register(STACK_POINTER)
                && registers[i] != Register(INSTRUCTION_POINTER),
    ensures
        alike(
            executed_all(before, pushes(values) + pops(registers), input),
            popped_into_all(pushed_all(before, values), registers),
        ),
        registers.len() > 0 ==> executed_all(
            before,
            pushes(values) + pops(registers),
            input,
        ).register(registers.last()) == popped_into_all(
            pushed_all(before, values),
            registers,
        ).register(registers.last()),
        values.len() + registers.len() > 0 ==> executed_all(
            before,
            (pushes(values) + pops(registers)).drop_last(),
            input,
        ).fault((pushes(values) + pops(registers)).last()) is None,
    decreases values.len() + registers.len(),
{
    let program = pushes(values) + pops(registers);
    if registers.len() > 0 {
        let front = registers.drop_last();
        assert forall|i: int| 0 <= i < front.len() implies #[trigger] front[i] != Register(
            STACK_POINTER,
        ) && front[i] != Register(INSTRUCTION_POINTER) by {
            assert(front[i] == registers[i]);
        }
        program_pushes_and_pops(before, values, front, input);
        assert(program.drop_last() =~= pushes(values) + pops(front));
        assert(program.last() == Opcode::PopRegister { register: registers.last() });
        let full = pushed_all(before, values);
        pushes_leave_values(before, values);
        pops_take_values(full, front);
        let earlier = popped_into_all(full, front);
        accessible_means(earlier.stack_pointer() - 4, 4);
        pop_is_popping(
            executed_all(before, program.drop_last(), input),
            earlier,
            registers.last(),
            input,
        );
    } else if values.len() > 0 {
        let front = values.drop_last();
        program_pushes_and_pops(before, front, registers, input);
        assert(program.drop_last() =~= pushes(front) + pops(registers));
        assert(program.last() == Opcode::PushImmediate { immediate: values.last() });
        pushes_leave_values(before, values);
        assert(values.take(front.len() as int) =~= front);
        assert(popped_into_all(pushed_all(before, front), registers) == pushed_all(before, front));
        push_is_pushing(
            executed_all(before, program.drop_last(), input),
            pushed_all(before, front),
            values.last(),
            input,
        );
    }
}

/// The stack gives back last what was pushed first, instruction by
/// instruction: after a program that pushes `values` and then pops into
/// `registers`, each pop has put into its register the value that was pushed
/// as many pushes before the end as the pop comes after the start, the stack
/// pointer is where it was, and none of the instructions has faulted. The
/// pushes must fit into the stack region, and no pop may go into the stack
/// pointer or the instruction pointer.
pub proof fn pushes_and_pops_are_last_in_first_out(
    before: Snapshot,
    values: Seq<Word>,
    registers: Seq<Register>,
    input: Input,
)
    requires
        before.wf(),
        values.len() == registers.len(),
        before.stack_pointer() % 4 == 0,
        STACK_START <= before.stack_pointer(),
        before.stack_pointer() + 4 * values.len() <= STACK_END,
        forall|i: int|
            0 <= i < registers.len() ==> #[trigger] registers[i] != Register(STACK_POINTER)
                && registers[i] != Register(INSTRUCTION_POINTER),
    ensures
        executed_all(before, pushes(values) + pops(registers), input).stack_pointer()
            == before.stack_pointer(),
        forall|i: int|
            0 <= i < registers.len() ==> executed_all(
                before,
                pushes(values) + pops(#[trigger] registers.take(i + 1)),
                input,
            ).register(registers[i]) == values[values.len() - 1 - i],
        forall|i: int|
            0 <= i < values.len() ==> executed_all(
                before,
                pushes(#[trigger] values.take(i)),
                input,
            ).fault(Opcode::PushImmediate { immediate: values[i] }) is None,
        forall|i: int|
            0 <= i < registers.len() ==> executed_all(
                before,
                pushes(values) + pops(#[trigger] registers.take(i)),
                input,
            ).fault(Opcode::PopRegister { register: registers[i] }) is None,
{
    stack_is_last_in_first_out(before, values, registers);
    program_pushes_and_pops(before, values, registers, input);
    assert forall|i: int| 0 <= i < registers.len() implies executed_all(
        before,
        pushes(values) + pops(#[trigger] registers.take(i + 1)),
        input,
    ).register(registers[i]) == values[values.len() - 1 - i] by {
        let some = registers.take(i + 1);
        assert forall|k: int| 0 <= k < some.len() implies #[trigger] some[k] != Register(
            STACK_POINTER,
        ) && some[k] != Register(INSTRUCTION_POINTER) by {
            assert(some[k] == registers[k]);
        }
        program_pushes_and_pops(before, values, some, input);
        assert(some.last() == registers[i]);
    }
    assert forall|i: int| 0 <= i < values.len() implies executed_all(
        before,
        pushes(#[trigger] values.take(i)),
        input,
    ).fault(Opcode::PushImmediate { immediate: values[i] }) is None by {
        let some = values.take(i + 1);
        let none = Seq::<Register>::empty();
        program_pushes_and_pops(before, some, none, input);
        let program = pushes(some) + pops(none);
        assert(program.drop_last() =~= pushes(values.take(i)));
        assert(program.last() == Opcode::PushImmediate { immediate: values[i] });
    }
    assert forall|i: int| 0 <= i < registers.len() implies executed_all(
        before,
        pushes(values) + pops(#[trigger] registers.take(i)),
        input,
    ).fault(Opcode::PopRegister { register: registers[i] }) is None by {
        let some = registers.take(i + 1);
        assert forall|k: int| 0 <= k < some.len() implies #[trigger] some[k] != Register(
            STACK_POINTER,
        ) && some[k] != Register(INSTRUCTION_POINTER) by {
            assert(some[k] == registers[k]);
        }
        program_pushes_and_pops(before, values, some, input);
        let program = pushes(values) + pops(some);
        assert(program.drop_last() =~= pushes(values) + pops(registers.take(i)));
        assert(program.last() == Opcode::PopRegister { register: registers[i] });
    }
}

/// A call followed by a return leads to the instruction behind the call and
/// leaves the stack pointer where it was. The return can be executed if the
/// stack pointer was in the stack region before the call.
pub proof fn return_undoes_call(before: Snapshot, call: Opcode, first: Input, second: Input)
    requires
        before.wf(),
        call.is_call(),
        before.fault(call) is None,
    ensures
        STACK_START <= before.stack_pointer() ==> before.executed(call, first).fault(
            Opcode::Return {  },
        ) is None,
        before.executed(call, first).executed(Opcode::Return {  }, second).instruction_pointer()
            == before.next_instruction(),
        before.executed(call, first).executed(Opcode::Return {  }, second).stack_pointer()
            == before.stack_pointer(),
{
    let top = before.stack_pointer();
    accessible_means(top as int, 4);
    word_round_trip(before.memory, top as int, before.next_instruction());
    word_write_keeps_rest(before.memory, top as int, before.next_instruction());
}

} // verus!
