use backseat_safe_system_2k::address_constants::{
    ENTRY_POINT, FIRST_FRAMEBUFFER_START, SECOND_FRAMEBUFFER_START, STACK_END, STACK_START,
};
use backseat_safe_system_2k::cursor::Cursor;
use backseat_safe_system_2k::display::MockDisplay;
use backseat_safe_system_2k::keyboard::{KeyState, Keyboard};
use backseat_safe_system_2k::machine::Machine;
use backseat_safe_system_2k::opcodes::Opcode;
use backseat_safe_system_2k::periphery::PeripheryImplementation;
use backseat_safe_system_2k::processor::{
    Abort, Diagnostic, Direction, ExecutionResult, Outcome,
};
use backseat_safe_system_2k::semantics::{
    Fault, Flag, FLAGS, INSTRUCTION_POINTER, STACK_POINTER,
};
use backseat_safe_system_2k::timer::Timer;
use backseat_safe_system_2k::{Address, Register, Word, INSTRUCTION_SIZE, WORD_SIZE};

type Clock = Box<dyn FnMut() -> u64>;
type Keys = Box<dyn FnMut(Word) -> KeyState>;
type MockPeriphery = PeripheryImplementation<Clock, Keys, MockDisplay>;

const KEY_A: i32 = 65;
const KEY_B: i32 = 66;

fn create_mock_periphery() -> MockPeriphery {
    let mut time = 0;
    let clock: Clock = Box::new(move || {
        let old_value = time;
        time += 1;
        old_value
    });
    let keys: Keys = Box::new(|_| KeyState::Up);
    PeripheryImplementation {
        timer: Timer::new(clock),
        keyboard: Keyboard::new(keys),
        display: MockDisplay::new(&mut (), &()),
        cursor: Cursor {
            visible: true,
            time_of_next_toggle: 400,
        },
    }
}

fn create_machine_with_opcodes(opcodes: &[Opcode]) -> Machine<MockPeriphery> {
    let mut machine = Machine::new(create_mock_periphery(), false);
    for (&opcode, address) in opcodes
        .iter()
        .zip((ENTRY_POINT..).step_by(INSTRUCTION_SIZE as usize))
    {
        machine.memory.write_opcode(address, opcode);
    }
    machine
}

fn execute_instruction_with_machine(
    mut machine: Machine<MockPeriphery>,
    opcode: Opcode,
) -> Machine<MockPeriphery> {
    let instruction_pointer = machine.processor.registers.get(Register(INSTRUCTION_POINTER));
    machine.memory.write_opcode(instruction_pointer, opcode);
    machine
        .processor
        .execute_next_instruction(
            &mut machine.memory,
            &mut machine.periphery,
            &mut machine.instruction_cache,
            &mut machine.debug_handle,
        )
        .unwrap();
    assert_eq!(
        machine.processor.registers.get(Register(INSTRUCTION_POINTER)),
        instruction_pointer + INSTRUCTION_SIZE
    );
    machine
}

fn run(machine: &mut Machine<MockPeriphery>, steps: usize) {
    for _ in 0..steps {
        machine.execute_next_instruction().unwrap();
    }
}

fn normal() -> Result<Outcome, Abort> {
    Ok(Outcome {
        result: ExecutionResult::Normal,
        diagnostic: Diagnostic::Nothing,
    })
}

#[test]
fn move_from_one_register_to_another() {
    let mut machine = Machine::new(create_mock_periphery(), false);
    let source = Register(0x5);
    let target = Register(0x0A);
    let data = 0xCAFE;
    machine.processor.registers.set(source, data);
    let machine = execute_instruction_with_machine(machine, Opcode::MoveTargetSource { target, source });
    assert_eq!(machine.processor.registers.get(target), data);
}

#[test]
fn push_and_pop_stack_value() {
    let mut machine = Machine::new(create_mock_periphery(), false);
    let source_register = Register(0xAB);
    let target_register = Register(0x06);
    let data = 42;
    machine.processor.registers.set(source_register, data);
    assert_eq!(machine.processor.get_stack_pointer(), STACK_START);
    let machine = execute_instruction_with_machine(
        machine,
        Opcode::PushRegister {
            register: source_register,
        },
    );
    assert_eq!(
        machine.processor.get_stack_pointer(),
        STACK_START + WORD_SIZE as Address
    );
    assert_eq!(machine.memory.read_data(STACK_START), data);
    let machine = execute_instruction_with_machine(
        machine,
        Opcode::PopRegister {
            register: target_register,
        },
    );
    assert_eq!(machine.processor.get_stack_pointer(), STACK_START);
    assert_eq!(machine.processor.registers.get(target_register), data);
}

#[test]
fn push_and_pop_multiple_stack_values() {
    let values = [1, 4, 5, 42, 2, 3];
    let mut machine = Machine::new(create_mock_periphery(), false);
    for (register, value) in (0..).map(Register).zip(values) {
        machine.processor.registers.set(register, value);
        machine = execute_instruction_with_machine(machine, Opcode::PushRegister { register });
        assert_eq!(
            machine.processor.get_stack_pointer(),
            STACK_START + (register.0 as Address + 1) * WORD_SIZE as Address
        );
        assert_eq!(
            machine
                .memory
                .read_data(STACK_START + register.0 as Address * WORD_SIZE as Address),
            value
        );
    }
    for &value in values.iter().rev() {
        let target = Register(0xAB);
        machine = execute_instruction_with_machine(machine, Opcode::PopRegister { register: target });
        assert_eq!(machine.processor.registers.get(target), value);
    }
    assert_eq!(machine.processor.get_stack_pointer(), STACK_START);
}

#[test]
fn call_and_return() {
    let mut machine: Machine<MockPeriphery> = Machine::new(create_mock_periphery(), false);
    let call_address = ENTRY_POINT + 200 * INSTRUCTION_SIZE as Address;
    machine.memory.write_opcode(
        ENTRY_POINT,
        Opcode::CallAddress {
            source_address: call_address,
        },
    );
    let target_register = Register(0xAB);
    let value = 42;
    machine.memory.write_opcode(
        call_address,
        Opcode::MoveRegisterImmediate {
            register: target_register,
            immediate: value,
        },
    );
    machine
        .memory
        .write_opcode(call_address + INSTRUCTION_SIZE as Address, Opcode::Return {});

    machine.execute_next_instruction().unwrap(); // jump into subroutine
    assert_eq!(
        machine.memory.read_data(STACK_START),
        ENTRY_POINT + INSTRUCTION_SIZE as Address
    );
    assert_eq!(
        machine.processor.registers.get(Register(INSTRUCTION_POINTER)),
        call_address
    );

    machine.execute_next_instruction().unwrap(); // write value into register
    assert_eq!(machine.processor.registers.get(target_register), value);
    assert_eq!(
        machine.processor.registers.get(Register(INSTRUCTION_POINTER)),
        call_address + INSTRUCTION_SIZE as Address
    );

    machine.execute_next_instruction().unwrap(); // jump back from subroutine
    assert_eq!(
        machine.processor.registers.get(Register(INSTRUCTION_POINTER)),
        ENTRY_POINT + INSTRUCTION_SIZE as Address
    );
    assert_eq!(machine.processor.get_stack_pointer(), STACK_START);
}

#[test]
fn get_keystate() {
    let keycode_register = Register(0);
    let target_register = Register(1);
    let mut machine = create_machine_with_opcodes(&[
        Opcode::GetKeyState {
            target: target_register,
            keycode: keycode_register,
        },
        Opcode::GetKeyState {
            target: target_register,
            keycode: keycode_register,
        },
    ]);
    let keys: Keys = Box::new(|keycode| {
        let key: i32 = keycode.try_into().expect("keycode out of range");
        assert!(key == KEY_A || key == KEY_B, "invalid keycode");
        if key == KEY_A {
            KeyState::Down
        } else {
            KeyState::Up
        }
    });
    machine.periphery.keyboard = Keyboard::new(keys);
    machine.processor.registers.set(keycode_register, KEY_A as Word);
    machine.execute_next_instruction().unwrap();
    assert_eq!(machine.processor.registers.get(target_register), 1);
    assert!(!machine.processor.get_flag(Flag::Zero));

    machine.processor.registers.set(keycode_register, KEY_B as Word);
    machine.execute_next_instruction().unwrap();
    assert_eq!(machine.processor.registers.get(target_register), 0);
    assert!(machine.processor.get_flag(Flag::Zero));
}

#[test]
fn processor_starts_at_the_entry_point_with_an_empty_stack() {
    let machine = Machine::new(create_mock_periphery(), false);
    assert_eq!(ENTRY_POINT, 1908696);
    assert_eq!(STACK_START, 1384408);
    assert_eq!(STACK_END, ENTRY_POINT);
    assert_eq!(machine.processor.get_instruction_pointer(), ENTRY_POINT);
    assert_eq!(machine.processor.get_stack_pointer(), STACK_START);
    for index in 0..=255u8 {
        if index != INSTRUCTION_POINTER && index != STACK_POINTER {
            assert_eq!(machine.processor.registers.get(Register(index)), 0);
        }
    }
    assert_eq!(machine.processor.get_cycle_count(), 0);
    assert!(!machine.is_halted());
}

#[test]
fn move_immediate_fills_register_and_moves_on() {
    for register in [0u8, 1, 0x0A, 200, FLAGS, STACK_POINTER] {
        let mut machine = create_machine_with_opcodes(&[Opcode::MoveRegisterImmediate {
            register: Register(register),
            immediate: 0xABCD_1234,
        }]);
        assert_eq!(machine.execute_next_instruction(), normal());
        assert_eq!(machine.processor.registers.get(Register(register)), 0xABCD_1234);
        assert_eq!(machine.processor.get_instruction_pointer(), ENTRY_POINT + 8);
        assert_eq!(machine.processor.get_cycle_count(), 1);
    }
}

#[test]
fn move_immediate_into_the_instruction_pointer_moves_on_from_there() {
    let mut machine = create_machine_with_opcodes(&[Opcode::MoveRegisterImmediate {
        register: Register(INSTRUCTION_POINTER),
        immediate: ENTRY_POINT + 800,
    }]);
    run(&mut machine, 1);
    assert_eq!(machine.processor.get_instruction_pointer(), ENTRY_POINT + 808);
}

#[test]
fn moves_between_registers_and_memory() {
    let mut machine = create_machine_with_opcodes(&[
        Opcode::MoveRegisterAddress {
            register: Register(1),
            source_address: 0xF0,
        },
        Opcode::MoveAddressRegister {
            register: Register(1),
            target_address: 0xF4,
        },
        Opcode::MoveTargetPointer {
            target: Register(3),
            pointer: Register(2),
        },
        Opcode::MovePointerSource {
            pointer: Register(4),
            source: Register(3),
        },
        Opcode::MovePointerSourceOffset {
            pointer: Register(4),
            source: Register(1),
            immediate: 8,
        },
        Opcode::MoveTargetPointerOffset {
            target: Register(5),
            pointer: Register(4),
            immediate: 8,
        },
    ]);
    machine.memory.write_data(0xF0, 0xC0FFEE);
    machine.processor.registers.set(Register(2), 0xF4);
    machine.processor.registers.set(Register(4), 0x100);
    run(&mut machine, 6);
    assert_eq!(machine.processor.registers.get(Register(1)), 0xC0FFEE);
    assert_eq!(machine.memory.read_data(0xF4), 0xC0FFEE);
    assert_eq!(machine.processor.registers.get(Register(3)), 0xC0FFEE);
    assert_eq!(machine.memory.read_data(0x100), 0xC0FFEE);
    assert_eq!(machine.memory.read_data(0x108), 0xC0FFEE);
    assert_eq!(machine.processor.registers.get(Register(5)), 0xC0FFEE);
    assert_eq!(machine.processor.get_instruction_pointer(), ENTRY_POINT + 48);
}

#[test]
fn byte_and_halfword_moves_extend_and_truncate() {
    let mut machine = create_machine_with_opcodes(&[
        Opcode::MoveByteAddressRegister {
            register: Register(1),
            target_address: 0x101,
        },
        Opcode::MoveHalfwordAddressRegister {
            register: Register(1),
            target_address: 0x102,
        },
        Opcode::MoveByteRegisterAddress {
            register: Register(2),
            source_address: 0x101,
        },
        Opcode::MoveHalfwordRegisterAddress {
            register: Register(3),
            source_address: 0x102,
        },
        Opcode::MoveBytePointerSourceOffset {
            pointer: Register(4),
            source: Register(1),
            immediate: 5,
        },
        Opcode::MoveByteTargetPointerOffset {
            target: Register(5),
            pointer: Register(4),
            immediate: 5,
        },
        Opcode::MoveHalfwordPointerSource {
            pointer: Register(6),
            source: Register(1),
        },
        Opcode::MoveHalfwordTargetPointer {
            target: Register(7),
            pointer: Register(6),
        },
    ]);
    machine.processor.registers.set(Register(1), 0x1234_5678);
    machine.processor.registers.set(Register(4), 0x200);
    machine.processor.registers.set(Register(6), 0x300);
    run(&mut machine, 8);
    assert_eq!(machine.memory.read_byte(0x101), 0x78);
    assert_eq!(machine.memory.read_halfword(0x102), 0x5678);
    assert_eq!(machine.memory.read_data(0x100), 0x0078_5678);
    assert_eq!(machine.processor.registers.get(Register(2)), 0x78);
    assert_eq!(machine.processor.registers.get(Register(3)), 0x5678);
    assert_eq!(machine.memory.read_byte(0x205), 0x78);
    assert_eq!(machine.processor.registers.get(Register(5)), 0x78);
    assert_eq!(machine.memory.read_halfword(0x300), 0x5678);
    assert_eq!(machine.processor.registers.get(Register(7)), 0x5678);
}

#[test]
fn pointer_with_offset_wraps_at_the_end_of_the_address_space() {
    let mut machine = create_machine_with_opcodes(&[Opcode::MoveTargetPointerOffset {
        target: Register(1),
        pointer: Register(2),
        immediate: 0x20,
    }]);
    machine.memory.write_data(0x10, 77);
    machine.processor.registers.set(Register(2), 0xFFFF_FFF0);
    run(&mut machine, 1);
    assert_eq!(machine.processor.registers.get(Register(1)), 77);
}

fn check_arithmetic(
    opcode: Opcode,
    lhs: Word,
    rhs: Word,
    carry_before: bool,
    expected: Word,
    zero: bool,
    carry: bool,
) {
    let mut machine = create_machine_with_opcodes(&[opcode]);
    machine.processor.registers.set(Register(0x42), lhs);
    machine.processor.registers.set(Register(0x43), rhs);
    machine.processor.set_flag(Flag::Carry, carry_before);
    run(&mut machine, 1);
    assert_eq!(machine.processor.registers.get(Register(0x0A)), expected);
    assert_eq!(machine.processor.get_flag(Flag::Zero), zero);
    assert_eq!(machine.processor.get_flag(Flag::Carry), carry);
    assert_eq!(machine.processor.registers.get(Register(0x42)), lhs);
    assert_eq!(machine.processor.registers.get(Register(0x43)), rhs);
}

const T: Register = Register(0x0A);
const L: Register = Register(0x42);
const R: Register = Register(0x43);

#[test]
fn add_sets_zero_and_carry_on_overflow() {
    let add = Opcode::AddTargetLhsRhs {
        target: T,
        lhs: L,
        rhs: R,
    };
    check_arithmetic(add, Word::MAX, 1, false, 0, true, true);
    check_arithmetic(add, 10, 12, true, 22, false, false);
    check_arithmetic(add, 0, 0, false, 0, true, false);
    check_arithmetic(add, Word::MAX, 5, false, 4, false, true);
}

#[test]
fn add_with_carry_adds_the_carry_flag() {
    let add = Opcode::AddWithCarryTargetLhsRhs {
        target: T,
        lhs: L,
        rhs: R,
    };
    check_arithmetic(add, 10, 12, false, 22, false, false);
    check_arithmetic(add, 10, 12, true, 23, false, false);
    check_arithmetic(add, Word::MAX, 0, true, 0, true, true);
    check_arithmetic(add, Word::MAX, Word::MAX, true, Word::MAX, false, true);
}

#[test]
fn subtract_sets_carry_on_borrow() {
    let subtract = Opcode::SubtractTargetLhsRhs {
        target: T,
        lhs: L,
        rhs: R,
    };
    check_arithmetic(subtract, 10, 8, true, 2, false, false);
    check_arithmetic(subtract, 10, 10, false, 0, true, false);
    check_arithmetic(subtract, 10, 12, false, Word::MAX - 1, false, true);
    check_arithmetic(subtract, 0, Word::MAX, false, 1, false, true);
}

#[test]
fn subtract_with_carry_borrows_in_either_subtraction() {
    let subtract = Opcode::SubtractWithCarryTargetLhsRhs {
        target: T,
        lhs: L,
        rhs: R,
    };
    check_arithmetic(subtract, 10, 8, false, 2, false, false);
    check_arithmetic(subtract, 10, 8, true, 1, false, false);
    check_arithmetic(subtract, 10, 10, true, Word::MAX, false, true);
    check_arithmetic(subtract, 10, 9, true, 0, true, false);
    check_arithmetic(subtract, 0, Word::MAX, true, 0, true, true);
}

#[test]
fn immediate_arithmetic() {
    let mut machine = create_machine_with_opcodes(&[
        Opcode::AddTargetSourceImmediate {
            target: Register(1),
            source: Register(0),
            immediate: 2,
        },
        Opcode::SubtractTargetSourceImmediate {
            target: Register(2),
            source: Register(0),
            immediate: 0,
        },
        Opcode::SubtractTargetSourceImmediate {
            target: Register(3),
            source: Register(1),
            immediate: 2,
        },
    ]);
    machine.processor.registers.set(Register(0), Word::MAX - 1);
    run(&mut machine, 1);
    assert_eq!(machine.processor.registers.get(Register(1)), 0);
    assert!(machine.processor.get_flag(Flag::Zero));
    assert!(machine.processor.get_flag(Flag::Carry));
    run(&mut machine, 1);
    assert_eq!(machine.processor.registers.get(Register(2)), Word::MAX - 1);
    assert!(!machine.processor.get_flag(Flag::Zero));
    assert!(!machine.processor.get_flag(Flag::Carry));
    run(&mut machine, 1);
    assert_eq!(machine.processor.registers.get(Register(3)), Word::MAX - 1);
    assert!(!machine.processor.get_flag(Flag::Zero));
    assert!(machine.processor.get_flag(Flag::Carry));
}

fn check_multiply(lhs: Word, rhs: Word, high: Word, low: Word, zero: bool, carry: bool) {
    let mut machine = create_machine_with_opcodes(&[Opcode::MultiplyHighLowLhsRhs {
        high: Register(8),
        low: Register(9),
        lhs: L,
        rhs: R,
    }]);
    machine.processor.registers.set(L, lhs);
    machine.processor.registers.set(R, rhs);
    run(&mut machine, 1);
    assert_eq!(machine.processor.registers.get(Register(8)), high);
    assert_eq!(machine.processor.registers.get(Register(9)), low);
    assert_eq!(machine.processor.get_flag(Flag::Zero), zero);
    assert_eq!(machine.processor.get_flag(Flag::Carry), carry);
}

#[test]
fn multiply_gives_high_and_low_word() {
    check_multiply(3, 4, 0, 12, false, false);
    check_multiply(0, 4, 0, 0, true, false);
    check_multiply(Word::MAX, Word::MAX, 0xFFFF_FFFE, 1, false, true);
    // The zero flag goes by the low word alone.
    check_multiply(0x1_0000, 0x1_0000, 1, 0, true, true);
}

fn check_divmod(lhs: Word, rhs: Word, quotient: Word, remainder: Word, zero: bool, by_zero: bool) {
    let mut machine = create_machine_with_opcodes(&[Opcode::DivmodTargetModLhsRhs {
        result: Register(8),
        remainder: Register(9),
        lhs: L,
        rhs: R,
    }]);
    machine.processor.registers.set(L, lhs);
    machine.processor.registers.set(R, rhs);
    machine.processor.set_flag(Flag::DivideByZero, !by_zero);
    run(&mut machine, 1);
    assert_eq!(machine.processor.registers.get(Register(8)), quotient);
    assert_eq!(machine.processor.registers.get(Register(9)), remainder);
    assert_eq!(machine.processor.get_flag(Flag::Zero), zero);
    assert_eq!(machine.processor.get_flag(Flag::DivideByZero), by_zero);
}

#[test]
fn divmod_gives_quotient_and_remainder() {
    check_divmod(15, 4, 3, 3, false, false);
    check_divmod(3, 4, 0, 3, true, false);
    check_divmod(15, 0, 0, 15, true, true);
    check_divmod(0, 0, 0, 0, true, true);
}

#[test]
fn divmod_by_zero_then_jump_if_divide_by_zero() {
    let target = ENTRY_POINT + 0x400;
    let mut machine = create_machine_with_opcodes(&[
        Opcode::DivmodTargetModLhsRhs {
            result: Register(10),
            remainder: Register(11),
            lhs: Register(1),
            rhs: Register(2),
        },
        Opcode::JumpImmediateIfDivideByZero { immediate: target },
    ]);
    machine.processor.registers.set(Register(1), 15);
    machine.processor.registers.set(Register(2), 0);
    run(&mut machine, 1);
    assert_eq!(machine.processor.registers.get(Register(10)), 0);
    assert_eq!(machine.processor.registers.get(Register(11)), 15);
    assert!(machine.processor.get_flag(Flag::Zero));
    assert!(machine.processor.get_flag(Flag::DivideByZero));
    run(&mut machine, 1);
    assert_eq!(machine.processor.get_instruction_pointer(), target);
}

#[test]
fn bitwise_operations_leave_the_carry_flag() {
    for carry in [false, true] {
        check_arithmetic(
            Opcode::AndTargetLhsRhs {
                target: T,
                lhs: L,
                rhs: R,
            },
            0b1100,
            0b1010,
            carry,
            0b1000,
            false,
            carry,
        );
        check_arithmetic(
            Opcode::AndTargetLhsRhs {
                target: T,
                lhs: L,
                rhs: R,
            },
            0b0100,
            0b1010,
            carry,
            0,
            true,
            carry,
        );
        check_arithmetic(
            Opcode::OrTargetLhsRhs {
                target: T,
                lhs: L,
                rhs: R,
            },
            0b1100,
            0b1010,
            carry,
            0b1110,
            false,
            carry,
        );
        check_arithmetic(
            Opcode::XorTargetLhsRhs {
                target: T,
                lhs: L,
                rhs: R,
            },
            0b1100,
            0b1010,
            carry,
            0b0110,
            false,
            carry,
        );
    }
    let mut machine = create_machine_with_opcodes(&[
        Opcode::NotTargetSource {
            target: T,
            source: L,
        },
        Opcode::NotTargetSource {
            target: T,
            source: R,
        },
    ]);
    machine.processor.registers.set(L, 0xFFFF_0000);
    machine.processor.registers.set(R, Word::MAX);
    run(&mut machine, 1);
    assert_eq!(machine.processor.registers.get(T), 0x0000_FFFF);
    assert!(!machine.processor.get_flag(Flag::Zero));
    run(&mut machine, 1);
    assert_eq!(machine.processor.registers.get(T), 0);
    assert!(machine.processor.get_flag(Flag::Zero));
}

#[test]
fn shifts_set_carry_when_bits_are_lost() {
    let left = Opcode::LeftShiftTargetLhsRhs {
        target: T,
        lhs: L,
        rhs: R,
    };
    let right = Opcode::RightShiftTargetLhsRhs {
        target: T,
        lhs: L,
        rhs: R,
    };
    check_arithmetic(left, 0b1, 4, false, 0b1_0000, false, false);
    check_arithmetic(left, 0x8000_0000, 1, false, 0, true, true);
    check_arithmetic(left, 0x4000_0000, 1, true, 0x8000_0000, false, false);
    check_arithmetic(left, 1, 31, false, 0x8000_0000, false, false);
    check_arithmetic(left, 1, 32, false, 0, true, true);
    check_arithmetic(left, 0, 32, true, 0, true, false);
    check_arithmetic(left, 1, 33, false, 0, true, true);
    check_arithmetic(left, 0, 40, true, 0, true, false);
    check_arithmetic(right, 0b1_0000, 4, false, 0b1, false, false);
    check_arithmetic(right, 0b1_0000, 5, false, 0, true, true);
    check_arithmetic(right, 0x8000_0000, 31, true, 1, false, false);
    check_arithmetic(right, 0x8000_0000, 32, false, 0, true, true);
    check_arithmetic(right, 5, 100, false, 0, true, true);
    check_arithmetic(right, 0, 100, true, 0, true, false);
}

#[test]
fn compare_tells_less_equal_greater() {
    let compare = Opcode::CompareTargetLhsRhs {
        target: T,
        lhs: L,
        rhs: R,
    };
    for carry in [false, true] {
        check_arithmetic(compare, 10, 12, carry, Word::MAX, false, carry);
        check_arithmetic(compare, 14, 12, carry, 1, false, carry);
        check_arithmetic(compare, 12, 12, carry, 0, true, carry);
    }
}

#[test]
fn bool_compares_leave_the_flags() {
    let cases: [(Opcode, [Word; 3]); 6] = [
        (
            Opcode::BoolCompareEquals {
                target: T,
                lhs: L,
                rhs: R,
            },
            [0, 1, 0],
        ),
        (
            Opcode::BoolCompareNotEquals {
                target: T,
                lhs: L,
                rhs: R,
            },
            [1, 0, 1],
        ),
        (
            Opcode::BoolCompareGreater {
                target: T,
                lhs: L,
                rhs: R,
            },
            [0, 0, 1],
        ),
        (
            Opcode::BoolCompareGreaterOrEquals {
                target: T,
                lhs: L,
                rhs: R,
            },
            [0, 1, 1],
        ),
        (
            Opcode::BoolCompareLess {
                target: T,
                lhs: L,
                rhs: R,
            },
            [1, 0, 0],
        ),
        (
            Opcode::BoolCompareLessOrEquals {
                target: T,
                lhs: L,
                rhs: R,
            },
            [1, 1, 0],
        ),
    ];
    for (opcode, expected) in cases {
        for (index, (lhs, rhs)) in [(5, 7), (7, 7), (9, 7)].into_iter().enumerate() {
            let mut machine = create_machine_with_opcodes(&[opcode]);
            machine.processor.registers.set(L, lhs);
            machine.processor.registers.set(R, rhs);
            machine.processor.registers.set(Register(FLAGS), 0b101);
            run(&mut machine, 1);
            assert_eq!(machine.processor.registers.get(T), expected[index]);
            assert_eq!(machine.processor.registers.get(Register(FLAGS)), 0b101);
        }
    }
}

#[test]
fn flags_keep_the_bits_that_are_no_flag() {
    let mut machine = Machine::new(create_mock_periphery(), false);
    machine.processor.registers.set(Register(FLAGS), 0xFFFF_FFF8);
    machine.processor.set_flag(Flag::Carry, true);
    assert_eq!(machine.processor.registers.get(Register(FLAGS)), 0xFFFF_FFFA);
    assert!(machine.processor.get_flag(Flag::Carry));
    assert!(!machine.processor.get_flag(Flag::Zero));
    assert!(!machine.processor.get_flag(Flag::DivideByZero));
    machine.processor.set_flag(Flag::DivideByZero, true);
    machine.processor.set_flag(Flag::Zero, true);
    machine.processor.set_flag(Flag::Carry, false);
    assert_eq!(machine.processor.registers.get(Register(FLAGS)), 0xFFFF_FFFD);
    assert_eq!(Flag::Zero.shift(), 0);
    assert_eq!(Flag::Carry.shift(), 1);
    assert_eq!(Flag::DivideByZero.shift(), 2);
    assert_eq!(Flag::DivideByZero.bits(), 4);
}

#[test]
fn push_immediate_and_pop() {
    let mut machine = create_machine_with_opcodes(&[
        Opcode::PushImmediate { immediate: 7 },
        Opcode::PushImmediate { immediate: 8 },
        Opcode::Pop {},
        Opcode::PopRegister {
            register: Register(1),
        },
    ]);
    run(&mut machine, 2);
    assert_eq!(machine.processor.get_stack_pointer(), STACK_START + 8);
    assert_eq!(machine.memory.read_data(STACK_START), 7);
    assert_eq!(machine.memory.read_data(STACK_START + 4), 8);
    run(&mut machine, 2);
    assert_eq!(machine.processor.get_stack_pointer(), STACK_START);
    assert_eq!(machine.processor.registers.get(Register(1)), 7);
}

#[test]
fn stack_faults_at_its_bounds() {
    let mut machine = create_machine_with_opcodes(&[Opcode::Pop {}]);
    assert_eq!(
        machine.execute_next_instruction(),
        Err(Abort::Fault(Fault::StackBounds))
    );
    assert_eq!(machine.processor.get_stack_pointer(), STACK_START);
    assert_eq!(machine.processor.get_instruction_pointer(), ENTRY_POINT);
    assert_eq!(machine.processor.get_cycle_count(), 0);

    let mut machine = create_machine_with_opcodes(&[Opcode::PushImmediate { immediate: 1 }]);
    machine.processor.set_stack_pointer(STACK_END);
    assert_eq!(
        machine.execute_next_instruction(),
        Err(Abort::Fault(Fault::StackBounds))
    );
    assert_eq!(machine.processor.get_stack_pointer(), STACK_END);

    let mut machine = create_machine_with_opcodes(&[Opcode::PushImmediate { immediate: 1 }]);
    machine.processor.set_stack_pointer(STACK_END - 4);
    assert_eq!(machine.execute_next_instruction(), normal());
    assert_eq!(machine.processor.get_stack_pointer(), STACK_END);
}

#[test]
fn memory_faults_on_misaligned_and_outside_addresses() {
    for (opcode, fault) in [
        (
            Opcode::MoveRegisterAddress {
                register: Register(1),
                source_address: 0x101,
            },
            Some(Fault::MemoryAccess),
        ),
        (
            Opcode::MoveRegisterAddress {
                register: Register(1),
                source_address: 0x0100_0000,
            },
            Some(Fault::MemoryAccess),
        ),
        (
            Opcode::MoveRegisterAddress {
                register: Register(1),
                source_address: 0x00FF_FFFC,
            },
            None,
        ),
        (
            Opcode::MoveHalfwordRegisterAddress {
                register: Register(1),
                source_address: 0x101,
            },
            Some(Fault::MemoryAccess),
        ),
        (
            Opcode::MoveHalfwordRegisterAddress {
                register: Register(1),
                source_address: 0x102,
            },
            None,
        ),
        (
            Opcode::MoveByteRegisterAddress {
                register: Register(1),
                source_address: 0x00FF_FFFF,
            },
            None,
        ),
        (
            Opcode::MoveByteRegisterAddress {
                register: Register(1),
                source_address: 0x0100_0000,
            },
            Some(Fault::MemoryAccess),
        ),
    ] {
        let mut machine = create_machine_with_opcodes(&[opcode]);
        assert_eq!(machine.processor.check(opcode, &machine.memory), fault);
        let result = machine.execute_next_instruction();
        match fault {
            Some(fault) => {
                assert_eq!(result, Err(Abort::Fault(fault)));
                assert_eq!(machine.processor.get_instruction_pointer(), ENTRY_POINT);
            }
            None => assert_eq!(result, normal()),
        }
    }
}

#[test]
fn instruction_pointer_outside_memory_is_a_fault() {
    let mut machine = Machine::new(create_mock_periphery(), false);
    machine.processor.set_instruction_pointer(0x0100_0000);
    assert_eq!(
        machine.execute_next_instruction(),
        Err(Abort::Fault(Fault::MemoryAccess))
    );
    machine.processor.set_instruction_pointer(ENTRY_POINT + 4);
    assert_eq!(
        machine.execute_next_instruction(),
        Err(Abort::Fault(Fault::MemoryAccess))
    );
}

#[test]
fn unknown_opcode_ends_with_error_and_changes_nothing() {
    let mut machine = Machine::new(create_mock_periphery(), false);
    machine
        .memory
        .write_instruction(ENTRY_POINT, 0x0050_0000_0000_0000);
    assert_eq!(
        machine.execute_next_instruction(),
        Ok(Outcome {
            result: ExecutionResult::Error,
            diagnostic: Diagnostic::Nothing
        })
    );
    assert_eq!(machine.processor.get_instruction_pointer(), ENTRY_POINT);
    assert_eq!(machine.processor.get_cycle_count(), 0);
}

#[test]
fn halt_and_catch_fire_prevents_further_instructions() {
    let register = Register(0x05);
    let mut machine = create_machine_with_opcodes(&[
        Opcode::HaltAndCatchFire {},
        Opcode::MoveRegisterImmediate {
            register,
            immediate: 0x42,
        },
    ]);
    assert_eq!(
        machine.execute_next_instruction(),
        Ok(Outcome {
            result: ExecutionResult::Halted,
            diagnostic: Diagnostic::Nothing
        })
    );
    assert!(machine.is_halted());
    assert_eq!(machine.processor.get_cycle_count(), 1);
    run(&mut machine, 3);
    assert!(machine.is_halted());
    assert_eq!(machine.processor.get_instruction_pointer(), ENTRY_POINT);
    assert_eq!(machine.processor.registers.get(register), 0);
    assert_eq!(machine.processor.get_cycle_count(), 1);
}

#[test]
fn unconditional_jumps() {
    let mut machine = create_machine_with_opcodes(&[Opcode::JumpImmediate {
        immediate: ENTRY_POINT + 0x80,
    }]);
    machine.memory.write_opcode(
        ENTRY_POINT + 0x80,
        Opcode::JumpRegister {
            register: Register(9),
        },
    );
    machine.processor.registers.set(Register(9), ENTRY_POINT + 0x18);
    run(&mut machine, 1);
    assert_eq!(machine.processor.get_instruction_pointer(), ENTRY_POINT + 0x80);
    run(&mut machine, 1);
    assert_eq!(machine.processor.get_instruction_pointer(), ENTRY_POINT + 0x18);
}

#[test]
fn jumps_by_comparison_are_taken_for_their_results_only() {
    let target = ENTRY_POINT + 0x1000;
    let comparison = Register(3);
    // The results of a comparison: equal, greater, less, and something else.
    let values = [0, 1, Word::MAX, 2];
    let cases: [(Opcode, [bool; 4]); 5] = [
        (
            Opcode::JumpImmediateIfEqual {
                comparison,
                immediate: target,
            },
            [true, false, false, false],
        ),
        (
            Opcode::JumpImmediateIfGreaterThan {
                comparison,
                immediate: target,
            },
            [false, true, false, false],
        ),
        (
            Opcode::JumpImmediateIfLessThan {
                comparison,
                immediate: target,
            },
            [false, false, true, false],
        ),
        (
            Opcode::JumpImmediateIfGreaterThanOrEqual {
                comparison,
                immediate: target,
            },
            [true, true, false, false],
        ),
        (
            Opcode::JumpImmediateIfLessThanOrEqual {
                comparison,
                immediate: target,
            },
            [true, false, true, false],
        ),
    ];
    for (opcode, taken) in cases {
        for (index, value) in values.into_iter().enumerate() {
            let mut machine = create_machine_with_opcodes(&[opcode]);
            machine.processor.registers.set(comparison, value);
            run(&mut machine, 1);
            let expected = if taken[index] {
                target
            } else {
                ENTRY_POINT + 8
            };
            assert_eq!(machine.processor.get_instruction_pointer(), expected);
        }
    }
    let pointer = Register(4);
    let cases: [(Opcode, [bool; 4]); 5] = [
        (Opcode::JumpRegisterIfEqual { pointer, comparison }, [true, false, false, false]),
        (
            Opcode::JumpRegisterIfGreaterThan { pointer, comparison },
            [false, true, false, false],
        ),
        (
            Opcode::JumpRegisterIfLessThan { pointer, comparison },
            [false, false, true, false],
        ),
        (
            Opcode::JumpRegisterIfGreaterThanOrEqual { pointer, comparison },
            [true, true, false, false],
        ),
        (
            Opcode::JumpRegisterIfLessThanOrEqual { pointer, comparison },
            [true, false, true, false],
        ),
    ];
    for (opcode, taken) in cases {
        for (index, value) in values.into_iter().enumerate() {
            let mut machine = create_machine_with_opcodes(&[opcode]);
            machine.processor.registers.set(comparison, value);
            machine.processor.registers.set(pointer, target);
            run(&mut machine, 1);
            let expected = if taken[index] {
                target
            } else {
                ENTRY_POINT + 8
            };
            assert_eq!(machine.processor.get_instruction_pointer(), expected);
        }
    }
}

#[test]
fn jumps_by_flag_are_taken_by_their_flag_only() {
    let target = ENTRY_POINT + 0x1000;
    let pointer = Register(4);
    let cases: [(Opcode, Opcode, Flag, bool); 6] = [
        (
            Opcode::JumpImmediateIfZero { immediate: target },
            Opcode::JumpRegisterIfZero { pointer },
            Flag::Zero,
            true,
        ),
        (
            Opcode::JumpImmediateIfNotZero { immediate: target },
            Opcode::JumpRegisterIfNotZero { pointer },
            Flag::Zero,
            false,
        ),
        (
            Opcode::JumpImmediateIfCarry { immediate: target },
            Opcode::JumpRegisterIfCarry { pointer },
            Flag::Carry,
            true,
        ),
        (
            Opcode::JumpImmediateIfNotCarry { immediate: target },
            Opcode::JumpRegisterIfNotCarry { pointer },
            Flag::Carry,
            false,
        ),
        (
            Opcode::JumpImmediateIfDivideByZero { immediate: target },
            Opcode::JumpRegisterIfDivideByZero { pointer },
            Flag::DivideByZero,
            true,
        ),
        (
            Opcode::JumpImmediateIfNotDivideByZero { immediate: target },
            Opcode::JumpRegisterIfNotDivideByZero { pointer },
            Flag::DivideByZero,
            false,
        ),
    ];
    for (by_immediate, by_register, flag, when_set) in cases {
        for opcode in [by_immediate, by_register] {
            for set in [false, true] {
                let mut machine = create_machine_with_opcodes(&[opcode]);
                machine.processor.registers.set(pointer, target);
                // Every flag but the one in question says the opposite.
                machine
                    .processor
                    .registers
                    .set(Register(FLAGS), if set { 0 } else { 0b111 });
                machine.processor.set_flag(flag, set);
                run(&mut machine, 1);
                let expected = if set == when_set {
                    target
                } else {
                    ENTRY_POINT + 8
                };
                assert_eq!(machine.processor.get_instruction_pointer(), expected);
                assert_eq!(machine.processor.get_cycle_count(), 1);
            }
        }
    }
}

#[test]
fn calls_by_register_and_by_pointer() {
    let subroutine = ENTRY_POINT + 0x100;
    let mut machine = create_machine_with_opcodes(&[
        Opcode::CallRegister {
            register: Register(1),
        },
        Opcode::CallPointer {
            pointer: Register(2),
        },
        Opcode::HaltAndCatchFire {},
    ]);
    machine.memory.write_opcode(subroutine, Opcode::Return {});
    machine.memory.write_data(0x40, subroutine);
    machine.processor.registers.set(Register(1), subroutine);
    machine.processor.registers.set(Register(2), 0x40);
    run(&mut machine, 1);
    assert_eq!(machine.processor.get_instruction_pointer(), subroutine);
    assert_eq!(machine.memory.read_data(STACK_START), ENTRY_POINT + 8);
    run(&mut machine, 1);
    assert_eq!(machine.processor.get_instruction_pointer(), ENTRY_POINT + 8);
    run(&mut machine, 1);
    assert_eq!(machine.processor.get_instruction_pointer(), subroutine);
    assert_eq!(machine.memory.read_data(STACK_START), ENTRY_POINT + 16);
    run(&mut machine, 2);
    assert!(machine.is_halted());
    assert_eq!(machine.processor.get_stack_pointer(), STACK_START);
}

#[test]
fn call_then_halt_then_subroutine() {
    let subroutine = ENTRY_POINT + 16;
    let mut machine = create_machine_with_opcodes(&[
        Opcode::CallAddress {
            source_address: subroutine,
        },
        Opcode::HaltAndCatchFire {},
        Opcode::MoveRegisterImmediate {
            register: Register(0),
            immediate: 42,
        },
        Opcode::Return {},
    ]);
    let mut steps = 0;
    while !machine.is_halted() {
        machine.execute_next_instruction().unwrap();
        steps += 1;
        assert!(steps < 10);
    }
    assert_eq!(steps, 4);
    assert_eq!(machine.processor.registers.get(Register(0)), 42);
    assert_eq!(machine.processor.get_stack_pointer(), STACK_START);
}

#[test]
fn factorial_of_five() {
    let loop_start = ENTRY_POINT + 2 * 8;
    let mut machine = create_machine_with_opcodes(&[
        Opcode::MoveRegisterImmediate {
            register: Register(0),
            immediate: 1,
        },
        Opcode::MoveRegisterImmediate {
            register: Register(1),
            immediate: 5,
        },
        Opcode::MultiplyHighLowLhsRhs {
            high: Register(2),
            low: Register(0),
            lhs: Register(0),
            rhs: Register(1),
        },
        Opcode::SubtractTargetSourceImmediate {
            target: Register(1),
            source: Register(1),
            immediate: 1,
        },
        Opcode::JumpImmediateIfNotZero {
            immediate: loop_start,
        },
        Opcode::HaltAndCatchFire {},
    ]);
    let mut steps = 0;
    while !machine.is_halted() {
        machine.execute_next_instruction().unwrap();
        steps += 1;
        assert!(steps < 100);
    }
    assert_eq!(machine.processor.registers.get(Register(0)), 120);
    assert_eq!(machine.processor.registers.get(Register(1)), 0);
    assert_eq!(steps, 2 + 5 * 3 + 1);
    assert_eq!(machine.processor.get_cycle_count(), steps);
}

#[test]
fn no_op_does_advance_the_instruction_pointer() {
    let mut machine = create_machine_with_opcodes(&[Opcode::NoOp {}]);
    run(&mut machine, 1);
    assert_eq!(machine.processor.get_instruction_pointer(), ENTRY_POINT + 8);
}

#[test]
fn poll_time_twice() {
    let mut machine = create_machine_with_opcodes(&[
        Opcode::PollTime {
            high: Register(0),
            low: Register(1),
        },
        Opcode::PollTime {
            high: Register(0),
            low: Register(1),
        },
    ]);
    run(&mut machine, 2);
    assert_eq!(machine.processor.registers.get(Register(0)), 0);
    assert_eq!(machine.processor.registers.get(Register(1)), 1);
}

#[test]
fn poll_time_splits_the_time_into_two_words() {
    let mut machine = create_machine_with_opcodes(&[Opcode::PollTime {
        high: Register(0),
        low: Register(1),
    }]);
    let clock: Clock = Box::new(|| 0x0000_0186_1234_5678);
    machine.periphery.timer = Timer::new(clock);
    run(&mut machine, 1);
    assert_eq!(machine.processor.registers.get(Register(0)), 0x186);
    assert_eq!(machine.processor.registers.get(Register(1)), 0x1234_5678);
}

#[test]
fn timer_is_asked_for_poll_time_only() {
    let mut machine = create_machine_with_opcodes(&[
        Opcode::NoOp {},
        Opcode::MoveRegisterImmediate {
            register: Register(5),
            immediate: 1,
        },
        Opcode::PollTime {
            high: Register(0),
            low: Register(1),
        },
    ]);
    run(&mut machine, 3);
    assert_eq!(machine.processor.registers.get(Register(1)), 0);
    assert_eq!(machine.periphery.timer.get_ms_since_epoch(), 1);
}

#[test]
fn swap_framebuffers_twice_is_identity() {
    let target = Register(3);
    let mut machine = create_machine_with_opcodes(&[
        Opcode::InvisibleFramebufferAddress { target },
        Opcode::SwapFramebuffers {},
        Opcode::InvisibleFramebufferAddress { target },
        Opcode::SwapFramebuffers {},
        Opcode::InvisibleFramebufferAddress { target },
    ]);
    run(&mut machine, 1);
    assert_eq!(machine.processor.registers.get(target), SECOND_FRAMEBUFFER_START);
    run(&mut machine, 2);
    assert_eq!(machine.processor.registers.get(target), FIRST_FRAMEBUFFER_START);
    run(&mut machine, 2);
    assert_eq!(machine.processor.registers.get(target), SECOND_FRAMEBUFFER_START);
}

#[test]
fn poll_cycle_count() {
    let mut machine = create_machine_with_opcodes(&[
        Opcode::NoOp {},
        Opcode::NoOp {},
        Opcode::PollCycleCountHighLow {
            high: Register(0),
            low: Register(1),
        },
    ]);
    machine.processor.increase_cycle_count(0x7_0000_0000);
    run(&mut machine, 3);
    assert_eq!(machine.processor.registers.get(Register(0)), 7);
    assert_eq!(machine.processor.registers.get(Register(1)), 2);
    assert_eq!(machine.processor.get_cycle_count(), 0x7_0000_0003);
}

#[test]
fn diagnostics_are_left_to_the_host() {
    let mut machine = create_machine_with_opcodes(&[
        Opcode::DumpRegisters {},
        Opcode::DumpMemory {},
        Opcode::PrintRegister {
            register: Register(7),
        },
    ]);
    machine.processor.registers.set(Register(7), 99);
    assert_eq!(
        machine.execute_next_instruction(),
        Ok(Outcome {
            result: ExecutionResult::Normal,
            diagnostic: Diagnostic::DumpRegisters
        })
    );
    assert_eq!(
        machine.execute_next_instruction(),
        Ok(Outcome {
            result: ExecutionResult::Normal,
            diagnostic: Diagnostic::DumpMemory
        })
    );
    assert_eq!(
        machine.execute_next_instruction(),
        Ok(Outcome {
            result: ExecutionResult::Normal,
            diagnostic: Diagnostic::PrintRegister {
                register: Register(7),
                value: 99
            }
        })
    );
    assert_eq!(machine.processor.get_instruction_pointer(), ENTRY_POINT + 24);
}

#[test]
fn registers_are_dumped_as_big_endian_bytes() {
    let mut machine = Machine::new(create_mock_periphery(), false);
    machine.processor.registers.set(Register(0), 0x0102_0304);
    machine.processor.registers.set(Register(255), 0xA0B0_C0D0);
    let bytes = machine.processor.registers.to_be_bytes();
    assert_eq!(bytes.len(), 1024);
    assert_eq!(&bytes[..8], &[1, 2, 3, 4, 0, 0, 0, 0]);
    assert_eq!(&bytes[1020..], &[0xA0, 0xB0, 0xC0, 0xD0]);
    assert_eq!(machine.processor.registers.contents().len(), 256);
}

#[test]
fn assertions_fault_on_mismatch() {
    let cases = [
        (
            Opcode::AssertRegisterRegister {
                expected: Register(1),
                actual: Register(2),
            },
            true,
        ),
        (
            Opcode::AssertRegisterRegister {
                expected: Register(1),
                actual: Register(3),
            },
            false,
        ),
        (
            Opcode::AssertRegisterImmediate {
                actual: Register(1),
                immediate: 5,
            },
            true,
        ),
        (
            Opcode::AssertRegisterImmediate {
                actual: Register(1),
                immediate: 6,
            },
            false,
        ),
        (
            Opcode::AssertPointerImmediate {
                pointer: Register(4),
                immediate: 77,
            },
            true,
        ),
        (
            Opcode::AssertPointerImmediate {
                pointer: Register(4),
                immediate: 78,
            },
            false,
        ),
    ];
    for (opcode, holds) in cases {
        let mut machine = create_machine_with_opcodes(&[opcode]);
        machine.processor.registers.set(Register(1), 5);
        machine.processor.registers.set(Register(2), 5);
        machine.processor.registers.set(Register(3), 6);
        machine.processor.registers.set(Register(4), 0x80);
        machine.memory.write_data(0x80, 77);
        let result = machine.execute_next_instruction();
        if holds {
            assert_eq!(result, normal());
            assert_eq!(machine.processor.get_instruction_pointer(), ENTRY_POINT + 8);
        } else {
            assert_eq!(result, Err(Abort::Fault(Fault::Assertion)));
            assert_eq!(machine.processor.get_instruction_pointer(), ENTRY_POINT);
        }
    }
}

#[test]
fn debug_break_is_a_fault() {
    let mut machine = create_machine_with_opcodes(&[Opcode::DebugBreak {}]);
    assert_eq!(
        machine.execute_next_instruction(),
        Err(Abort::Fault(Fault::DebugBreak))
    );
}

#[test]
fn checkpoints_must_come_in_order() {
    let mut machine = create_machine_with_opcodes(&[
        Opcode::Checkpoint { immediate: 0 },
        Opcode::Checkpoint { immediate: 1 },
        Opcode::Checkpoint { immediate: 3 },
    ]);
    assert_eq!(machine.execute_next_instruction(), normal());
    assert_eq!(machine.execute_next_instruction(), normal());
    assert_eq!(
        machine.execute_next_instruction(),
        Err(Abort::Fault(Fault::Checkpoint))
    );
    assert_eq!(machine.processor.checkpoint_counter, 2);
}

#[test]
fn instruction_cache_keeps_what_was_executed() {
    let mut machine = create_machine_with_opcodes(&[
        Opcode::MoveRegisterImmediate {
            register: Register(1),
            immediate: 1,
        },
        Opcode::JumpImmediate {
            immediate: ENTRY_POINT,
        },
    ]);
    run(&mut machine, 2);
    // What is written over an instruction that was executed does not reach it.
    machine.memory.write_opcode(
        ENTRY_POINT,
        Opcode::MoveRegisterImmediate {
            register: Register(1),
            immediate: 2,
        },
    );
    run(&mut machine, 1);
    assert_eq!(machine.processor.registers.get(Register(1)), 1);
    let slot = (ENTRY_POINT / 8) as usize;
    assert_eq!(
        machine.instruction_cache.cache[slot].map(|cached| cached.opcode),
        Some(Opcode::MoveRegisterImmediate {
            register: Register(1),
            immediate: 1
        })
    );
    assert_eq!(machine.instruction_cache.cache[slot + 2], None);
    assert_eq!(machine.instruction_cache.cache.len(), 2 * 1024 * 1024);
}

#[test]
fn instruction_pointer_moves_back_and_forth() {
    let mut machine = Machine::new(create_mock_periphery(), false);
    machine
        .processor
        .advance_instruction_pointer(Direction::Forwards);
    assert_eq!(machine.processor.get_instruction_pointer(), ENTRY_POINT + 8);
    machine
        .processor
        .advance_instruction_pointer(Direction::Backwards);
    assert_eq!(machine.processor.get_instruction_pointer(), ENTRY_POINT);
    machine.processor.set_instruction_pointer(5);
    machine
        .processor
        .advance_instruction_pointer(Direction::Backwards);
    assert_eq!(machine.processor.get_instruction_pointer(), 0);
    machine.processor.set_instruction_pointer(Word::MAX - 3);
    machine
        .processor
        .advance_instruction_pointer(Direction::Forwards);
    assert_eq!(machine.processor.get_instruction_pointer(), 4);
    machine
        .processor
        .advance_stack_pointer(8, Direction::Forwards);
    machine
        .processor
        .advance_stack_pointer(4, Direction::Backwards);
    assert_eq!(machine.processor.get_stack_pointer(), STACK_START + 4);
}

#[test]
fn render_gives_the_visible_framebuffer_and_the_terminal() {
    let mut machine = Machine::new(create_mock_periphery(), false);
    machine.memory.write_byte(FIRST_FRAMEBUFFER_START, 0x11);
    machine.memory.write_byte(SECOND_FRAMEBUFFER_START, 0x22);
    machine.memory.write_byte(0, b'A');
    machine.memory.write_data(2004, 2);
    {
        let (framebuffer, terminal) = machine.render();
        assert_eq!(framebuffer.len(), 480 * 360 * 4);
        assert_eq!(framebuffer[0], 0x11);
        assert_eq!(terminal.len(), 25);
        assert_eq!(terminal[0][0], b'A');
        assert_eq!(terminal[0][1], b' ');
    }
    machine.memory.write_opcode(ENTRY_POINT, Opcode::SwapFramebuffers {});
    run(&mut machine, 1);
    let (framebuffer, _) = machine.render();
    assert_eq!(framebuffer[0], 0x22);
}

#[test]
fn registers_are_dumped_as_they_were_when_the_dump_began() {
    let mut machine = create_machine_with_opcodes(&[Opcode::DumpRegisters {}]);
    machine.processor.registers.set(Register(7), 0x0A0B_0C0D);
    let before = machine.processor.registers.to_be_bytes();
    assert_eq!(
        machine.execute_next_instruction(),
        Ok(Outcome {
            result: ExecutionResult::Normal,
            diagnostic: Diagnostic::DumpRegisters
        })
    );
    assert_eq!(machine.processor.get_instruction_pointer(), ENTRY_POINT + 8);
    let dump = machine.processor.dumped_registers();
    assert_eq!(dump, before);
    assert_ne!(dump, machine.processor.registers.to_be_bytes());
    assert_eq!(&dump[28..32], &[0x0A, 0x0B, 0x0C, 0x0D]);
    assert_eq!(&dump[254 * 4..255 * 4], &ENTRY_POINT.to_be_bytes());
}

#[test]
fn pops_give_back_what_was_pushed_in_reverse() {
    for count in [0usize, 1, 2, 7, 1000, 131072] {
        let mut machine = Machine::new(create_mock_periphery(), false);
        let values: Vec<Word> = (0..count as Word).map(|i| i.wrapping_mul(2654435761)).collect();
        machine
            .processor
            .stack_push_all(&mut machine.memory, &values);
        assert_eq!(
            machine.processor.get_stack_pointer(),
            STACK_START + 4 * count as Address
        );
        let before = machine.memory.data().to_vec();
        let popped = machine.processor.stack_pop_all(&machine.memory, count);
        let mut reversed = values.clone();
        reversed.reverse();
        assert_eq!(popped, reversed);
        assert_eq!(machine.processor.get_stack_pointer(), STACK_START);
        assert!(machine.memory.data() == &before[..]);
    }
}
