use backseat_safe_system_2k::address_constants::ENTRY_POINT;
use backseat_safe_system_2k::dumper::{dump_file_name, dump_path, DUMP_DIRECTORY, LAST_STAMP};
use backseat_safe_system_2k::memory::{words_to_bytes, Memory, MEMORY_SIZE};
use backseat_safe_system_2k::opcodes::Opcode;
use backseat_safe_system_2k::pacing::{
    calculate_clock_frequency, clock_frequency_label, label_of, ms_since_epoch, TimeMeasurements,
    TARGET_FPS,
};
use backseat_safe_system_2k::rom::{
    opcodes_to_machine_code, write_buffer, LoadError, ROM_SPACE,
};
use backseat_safe_system_2k::Register;

#[test]
fn dump_path_puts_the_name_together() {
    assert_eq!(DUMP_DIRECTORY, "./dumps");
    assert_eq!(
        dump_path("memory", "2022-10-28_19-22-01.123"),
        "./dumps/memory_2022-10-28_19-22-01.123.bin"
    );
    assert_eq!(dump_path("", ""), "./dumps/_.bin");
}

#[test]
fn dump_file_name_writes_the_time_of_the_dump() {
    assert_eq!(
        dump_file_name("registers", 0, 0),
        Some(String::from("./dumps/registers_1970-01-01_00-00-00.000.bin"))
    );
    assert_eq!(
        dump_file_name("memory", 1_666_984_921_123, 0),
        Some(String::from("./dumps/memory_2022-10-28_19-22-01.123.bin"))
    );
    // Two hours east of Greenwich the clocks show two hours more.
    assert_eq!(
        dump_file_name("memory", 1_666_984_921_123, 7200),
        Some(String::from("./dumps/memory_2022-10-28_21-22-01.123.bin"))
    );
    assert_eq!(
        dump_file_name("memory", 1_666_984_921_123, -3600 * 20),
        Some(String::from("./dumps/memory_2022-10-27_23-22-01.123.bin"))
    );
    assert_eq!(dump_file_name("memory", 0, 86_400), None);
    assert_eq!(dump_file_name("memory", i64::MAX, 0), None);
}

#[test]
fn clock_frequency_label_groups_the_digits() {
    assert_eq!(
        clock_frequency_label(1_234_567_890),
        Some(String::from("1 234 567 kHz"))
    );
    assert_eq!(clock_frequency_label(999), Some(String::from("0 kHz")));
    assert_eq!(clock_frequency_label(25_000_000), Some(String::from("25 000 kHz")));
    assert_eq!(label_of("12"), "12 kHz");
}

#[test]
fn milliseconds_since_the_epoch() {
    assert_eq!(ms_since_epoch(0, 0), 0);
    assert_eq!(ms_since_epoch(1, 999_999), 1000);
    assert_eq!(ms_since_epoch(1_666_984_921, 123_456_789), 1_666_984_921_123);
}

#[test]
fn clock_frequency_is_averaged_once_a_second() {
    assert_eq!(TARGET_FPS, 60);
    let mut measurements = TimeMeasurements::new(10_000);
    assert_eq!(measurements.next_render_time, 10_000);
    assert_eq!(measurements.next_clock_frequency_render, 11_000);
    measurements.last_render_time = 10_000;
    measurements.last_cycle_count = 1_000;

    // 500 cycles in 10 ms are 50 000 cycles a second.
    assert!(measurements.can_measure(10_010, 1_500));
    calculate_clock_frequency(10_010, &mut measurements, 1_500);
    assert_eq!(measurements.clock_frequency_accumulator, 50_000);
    assert_eq!(measurements.num_clock_frequency_accumulations, 1);
    assert_eq!(measurements.clock_frequency_average, 0);

    measurements.last_render_time = 10_010;
    measurements.last_cycle_count = 1_500;
    // 1500 cycles in 990 ms are 1515 cycles a second; the second is over.
    calculate_clock_frequency(11_000, &mut measurements, 3_000);
    assert_eq!(measurements.clock_frequency_average, (50_000 + 1_515) / 2);
    assert_eq!(measurements.clock_frequency_accumulator, 0);
    assert_eq!(measurements.num_clock_frequency_accumulations, 0);
    assert_eq!(measurements.next_clock_frequency_render, 12_000);

    assert!(!measurements.can_measure(10_010, 5_000));
    assert!(!measurements.can_measure(12_000, 1_000));
    assert!(!measurements.can_measure(12_000, u64::MAX));
}

#[test]
fn machine_code_is_eight_big_endian_bytes_for_each_opcode() {
    let code = opcodes_to_machine_code(&[
        Opcode::MoveRegisterImmediate {
            register: Register(0x0A),
            immediate: 0xABCD_1234,
        },
        Opcode::HaltAndCatchFire {},
    ]);
    assert_eq!(
        code,
        vec![0x00, 0x00, 0x0A, 0x00, 0xAB, 0xCD, 0x12, 0x34, 0x00, 0x06, 0, 0, 0, 0, 0, 0]
    );
    assert_eq!(opcodes_to_machine_code(&[]), Vec::<u8>::new());
    assert_eq!(words_to_bytes(&[0x0102_0304, 5]), vec![1, 2, 3, 4, 0, 0, 0, 5]);
}

#[test]
fn rom_is_loaded_at_the_entry_point() {
    let program = [
        Opcode::MoveRegisterImmediate {
            register: Register(1),
            immediate: 2,
        },
        Opcode::Return {},
    ];
    let mut memory = Memory::new();
    assert_eq!(write_buffer(&opcodes_to_machine_code(&program), &mut memory), Ok(()));
    assert_eq!(memory.read_opcode(ENTRY_POINT), Ok(program[0]));
    assert_eq!(memory.read_opcode(ENTRY_POINT + 8), Ok(program[1]));
    assert_eq!(memory.read_data(ENTRY_POINT - 4), 0);
    assert_eq!(memory.read_data(ENTRY_POINT + 16), 0);
}

#[test]
fn rom_must_fit_and_be_made_of_words() {
    assert_eq!(ROM_SPACE, MEMORY_SIZE - ENTRY_POINT as usize);
    let mut memory = Memory::new();
    assert_eq!(
        write_buffer(&[1, 2, 3], &mut memory),
        Err(LoadError::NotWords(3))
    );
    assert_eq!(
        write_buffer(&vec![1; ROM_SPACE + 4], &mut memory),
        Err(LoadError::TooBig(ROM_SPACE + 4))
    );
    assert_eq!(
        write_buffer(&vec![1; ROM_SPACE + 1], &mut memory),
        Err(LoadError::TooBig(ROM_SPACE + 1))
    );
    assert!(memory.data().iter().all(|&byte| byte == 0));
    assert_eq!(write_buffer(&vec![1; ROM_SPACE], &mut memory), Ok(()));
    assert_eq!(memory.read_byte((MEMORY_SIZE - 1) as u32), 1);
    assert_eq!(memory.read_byte(ENTRY_POINT - 1), 0);
    assert_eq!(write_buffer(&[], &mut memory), Ok(()));
}

#[test]
fn load_puts_bytes_where_they_belong() {
    let mut memory = Memory::new();
    memory.load(10, &[1, 2, 3]);
    assert_eq!(&memory.data()[8..15], &[0, 0, 1, 2, 3, 0, 0]);
    memory.load((MEMORY_SIZE - 2) as u32, &[8, 9]);
    assert_eq!(&memory.data()[MEMORY_SIZE - 3..], &[0, 8, 9]);
}

#[test]
fn every_moment_from_1970_to_9999_has_a_dump_file_name() {
    assert_eq!(LAST_STAMP, 253_402_300_799_999);
    assert_eq!(
        dump_file_name("memory", LAST_STAMP, 0),
        Some(String::from("./dumps/memory_9999-12-31_23-59-59.999.bin"))
    );
    assert_eq!(
        dump_file_name("memory", LAST_STAMP - 3_600_000, 3600),
        Some(String::from("./dumps/memory_9999-12-31_23-59-59.999.bin"))
    );
    assert_eq!(
        dump_file_name("memory", 3_600_000, -3600),
        Some(String::from("./dumps/memory_1970-01-01_00-00-00.000.bin"))
    );
    assert_eq!(dump_file_name("memory", 0, -86_400), None);
    assert_eq!(dump_file_name("memory", i64::MAX, 1), None);
}

#[test]
fn clock_frequency_label_is_always_there() {
    assert_eq!(
        clock_frequency_label(u64::MAX),
        Some(String::from("18 446 744 073 709 551 kHz"))
    );
    assert_eq!(clock_frequency_label(0), Some(String::from("0 kHz")));
    assert_eq!(clock_frequency_label(1_000_000), Some(String::from("1 000 kHz")));
}
