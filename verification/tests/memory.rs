use backseat_safe_system_2k::memory::{Memory, MEMORY_SIZE};
use backseat_safe_system_2k::opcodes::{DecodeError, Opcode};
use backseat_safe_system_2k::{Address, Register, Word, INSTRUCTION_SIZE, WORD_SIZE};

#[test]
fn write_instruction_read_back() {
    let mut memory = Memory::new();
    let address = 0x0;
    let opcode = Opcode::MoveRegisterImmediate {
        register: Register(0),
        immediate: 42,
    };
    memory.write_opcode(address, opcode);
    assert_eq!(memory.read_opcode(address), Ok(opcode));
}

#[test]
fn write_data_read_back() {
    let mut memory = Memory::new();
    let data = 0xFFFFFFFF;
    let address = 0x0;
    memory.write_data(address, data);
    assert_eq!(memory.read_data(address), data);
}

#[test]
fn fill_memory_with_instructions_read_back() {
    let mut memory = Memory::new();

    // fill memory
    let opcode = Opcode::MoveRegisterImmediate {
        register: Register(0),
        immediate: 42,
    };
    for address in (0..MEMORY_SIZE).step_by(INSTRUCTION_SIZE as usize) {
        memory.write_opcode(address as Address, opcode);
    }

    for address in (0..MEMORY_SIZE).step_by(INSTRUCTION_SIZE as usize) {
        assert_eq!(memory.read_opcode(address as Address), Ok(opcode));
    }
}

#[test]
fn fill_memory_with_data_read_back() {
    let mut memory = Memory::new();

    // fill memory
    let mut data: Word = 0x0;
    for address in (0..MEMORY_SIZE).step_by(WORD_SIZE as usize) {
        memory.write_data(address as Address, data);
        data = data.wrapping_add(1);
    }

    // read back memory
    data = 0x0;
    for address in (0..MEMORY_SIZE).step_by(WORD_SIZE as usize) {
        assert_eq!(memory.read_data(address as Address), data);
        data = data.wrapping_add(1);
    }
}

#[test]
fn memory_starts_with_zeros() {
    let memory = Memory::new();
    assert_eq!(MEMORY_SIZE, 16 * 1024 * 1024);
    assert_eq!(memory.data().len(), MEMORY_SIZE);
    assert!(memory.data().iter().all(|&byte| byte == 0));
}

#[test]
fn words_are_big_endian() {
    let mut memory = Memory::new();
    memory.write_data(8, 0x1234_5678);
    assert_eq!(&memory.data()[8..12], &[0x12, 0x34, 0x56, 0x78]);
    assert_eq!(memory.read_byte(8), 0x12);
    assert_eq!(memory.read_byte(11), 0x78);
    assert_eq!(memory.read_halfword(8), 0x1234);
    assert_eq!(memory.read_halfword(10), 0x5678);
    assert_eq!(memory.read_data(4), 0);
    assert_eq!(memory.read_data(12), 0);
}

#[test]
fn halfwords_and_bytes_read_back() {
    let mut memory = Memory::new();
    memory.write_halfword(2, 0xBEEF);
    assert_eq!(memory.read_halfword(2), 0xBEEF);
    assert_eq!(memory.read_data(0), 0x0000_BEEF);
    memory.write_byte(1, 0xAB);
    assert_eq!(memory.read_byte(1), 0xAB);
    assert_eq!(memory.read_data(0), 0x00AB_BEEF);
}

#[test]
fn instructions_read_back() {
    let mut memory = Memory::new();
    let last = (MEMORY_SIZE - 8) as Address;
    memory.write_instruction(last, 0x0102_0304_0506_0708);
    assert_eq!(memory.read_instruction(last), 0x0102_0304_0506_0708);
    assert_eq!(
        &memory.data()[MEMORY_SIZE - 8..],
        &[1, 2, 3, 4, 5, 6, 7, 8]
    );
    assert_eq!(memory.read_data(last), 0x0102_0304);
    assert_eq!(memory.read_data(last + 4), 0x0506_0708);
}

#[test]
fn unknown_opcode_is_a_decode_error() {
    let mut memory = Memory::new();
    memory.write_instruction(16, 0x0050_0000_0000_0000);
    assert_eq!(memory.read_opcode(16), Err(DecodeError { code: 0x0050 }));
    memory.write_instruction(16, 0xFFF7_0000_0000_002A);
    assert_eq!(memory.read_opcode(16), Err(DecodeError { code: 0xFFF7 }));
}
