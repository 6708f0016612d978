use backseat_safe_system_2k::opcodes::{DecodeError, Family, Opcode};
use backseat_safe_system_2k::Register;

fn samples() -> Vec<(Opcode, u64)> {
    vec![
        (
            Opcode::MoveRegisterImmediate {
                register: Register(0x0A),
                immediate: 0xABCD_1234,
            },
            0x0000_0A00_ABCD_1234,
        ),
        (
            Opcode::MoveRegisterAddress {
                register: Register(0xFF),
                source_address: 0xF0,
            },
            0x0001_FF00_0000_00F0,
        ),
        (
            Opcode::MoveTargetSource {
                target: Register(1),
                source: Register(2),
            },
            0x0002_0102_0000_0000,
        ),
        (
            Opcode::MoveAddressRegister {
                register: Register(5),
                target_address: 0x00FF_FFFC,
            },
            0x0003_0500_00FF_FFFC,
        ),
        (
            Opcode::MovePointerSourceOffset {
                pointer: Register(3),
                source: Register(4),
                immediate: 8,
            },
            0x0049_0304_0000_0008,
        ),
        (Opcode::HaltAndCatchFire {}, 0x0006_0000_0000_0000),
        (
            Opcode::AddTargetLhsRhs {
                target: Register(1),
                lhs: Register(2),
                rhs: Register(3),
            },
            0x0007_0102_0300_0000,
        ),
        (
            Opcode::AddWithCarryTargetLhsRhs {
                target: Register(1),
                lhs: Register(2),
                rhs: Register(3),
            },
            0x0034_0102_0300_0000,
        ),
        (
            Opcode::MultiplyHighLowLhsRhs {
                high: Register(0x10),
                low: Register(0x20),
                lhs: Register(0x30),
                rhs: Register(0x40),
            },
            0x000A_1020_3040_0000,
        ),
        (
            Opcode::DivmodTargetModLhsRhs {
                result: Register(255),
                remainder: Register(254),
                lhs: Register(253),
                rhs: Register(252),
            },
            0x000B_FFFE_FDFC_0000,
        ),
        (
            Opcode::PushRegister {
                register: Register(0xAB),
            },
            0x0015_AB00_0000_0000,
        ),
        (
            Opcode::PushImmediate {
                immediate: 0xDEAD_BEEF,
            },
            0x004F_0000_DEAD_BEEF,
        ),
        (Opcode::Pop {}, 0x0040_0000_0000_0000),
        (
            Opcode::CallAddress {
                source_address: 0x001D_2000,
            },
            0x0017_0000_001D_2000,
        ),
        (Opcode::Return {}, 0x0018_0000_0000_0000),
        (
            Opcode::JumpImmediateIfLessThan {
                comparison: Register(10),
                immediate: 0x001D_2028,
            },
            0x001D_0A00_001D_2028,
        ),
        (
            Opcode::JumpRegisterIfEqual {
                pointer: Register(7),
                comparison: Register(8),
            },
            0x0026_0708_0000_0000,
        ),
        (
            Opcode::GetKeyState {
                target: Register(1),
                keycode: Register(0),
            },
            0x0032_0100_0000_0000,
        ),
        (
            Opcode::PollTime {
                high: Register(2),
                low: Register(3),
            },
            0x0033_0203_0000_0000,
        ),
        (Opcode::SwapFramebuffers {}, 0x0035_0000_0000_0000),
        (
            Opcode::InvisibleFramebufferAddress {
                target: Register(9),
            },
            0x0038_0900_0000_0000,
        ),
        (Opcode::DumpRegisters {}, 0xFFFF_0000_0000_0000),
        (Opcode::DumpMemory {}, 0xFFFE_0000_0000_0000),
        (
            Opcode::AssertPointerImmediate {
                pointer: Register(1),
                immediate: 2,
            },
            0xFFFB_0100_0000_0002,
        ),
        (Opcode::Checkpoint { immediate: 3 }, 0xFFF8_0000_0000_0003),
    ]
}

#[test]
fn opcodes_encode_to_their_instruction_words() {
    for (opcode, instruction) in samples() {
        assert_eq!(opcode.as_instruction(), instruction);
    }
}

#[test]
fn instruction_words_decode_to_their_opcodes() {
    for (opcode, instruction) in samples() {
        assert_eq!(Opcode::try_from(instruction), Ok(opcode));
    }
}

#[test]
fn decoding_looks_at_no_byte_that_the_opcode_leaves_free() {
    assert_eq!(
        Opcode::try_from(0x0018_1234_5678_9ABC),
        Ok(Opcode::Return {})
    );
    assert_eq!(
        Opcode::try_from(0x0002_0102_FFFF_FFFF),
        Ok(Opcode::MoveTargetSource {
            target: Register(1),
            source: Register(2)
        })
    );
}

#[test]
fn every_code_decodes_to_an_opcode_of_that_code_or_to_none() {
    let mut known = 0;
    for code in 0..=0xFFFFu64 {
        let instruction = (code << 48) | 0x0000_0102_0304_0506;
        match Opcode::try_from(instruction) {
            Ok(opcode) => {
                known += 1;
                assert_eq!(opcode.as_instruction() >> 48, code);
                assert_eq!(Opcode::try_from(opcode.as_instruction()), Ok(opcode));
            }
            Err(error) => assert_eq!(error, DecodeError { code: code as u16 }),
        }
    }
    assert_eq!(known, 88);
}

#[test]
fn only_jumps_calls_return_and_halt_set_the_instruction_pointer_themselves() {
    let mut staying = 0;
    for code in 0..=0xFFFFu64 {
        if let Ok(opcode) = Opcode::try_from(code << 48) {
            assert_eq!(opcode.get_num_cycles(), 1);
            let control_flow = opcode.family() == Family::ControlFlow;
            assert_eq!(opcode.should_increment_instruction_pointer(), !control_flow);
            if control_flow {
                staying += 1;
            }
        }
    }
    assert_eq!(staying, 29);
    assert!(!Opcode::HaltAndCatchFire {}.should_increment_instruction_pointer());
    assert!(Opcode::NoOp {}.should_increment_instruction_pointer());
    assert_eq!(Opcode::NoOp {}.family(), Family::Diagnostic);
    assert_eq!(Opcode::Pop {}.family(), Family::Stack);
    assert_eq!(Opcode::SwapFramebuffers {}.family(), Family::Peripheral);
    assert_eq!(
        Opcode::NotTargetSource {
            target: Register(0),
            source: Register(0)
        }
        .family(),
        Family::Arithmetic
    );
    assert_eq!(
        Opcode::MoveTargetSource {
            target: Register(0),
            source: Register(0)
        }
        .family(),
        Family::Move
    );
}
