use nes::cpu::Cpu;
use nes::memory::constant::{PROGRAM_COUNTER_RESET, PROGRAM_ROM_SIZE, PROGRAM_ROM_START};

#[test]
fn load_from() {
    let mut cpu = Cpu::default();

    let size = PROGRAM_ROM_SIZE as usize;
    let values = vec![1; size];

    assert_eq!(size, cpu.load_from(values.as_slice()));
}

#[test]
fn load_from_small() {
    let mut cpu = Cpu::default();

    let size = PROGRAM_ROM_SIZE as usize - 1;
    let values = vec![1; size];

    assert_eq!(size, cpu.load_from(values.as_slice()));
}

#[test]
fn load_from_too_large() {
    let mut cpu = Cpu::default();

    let rom_size = PROGRAM_ROM_SIZE as usize;
    let values = vec![1; rom_size + 1];

    assert_eq!(rom_size, cpu.load_from(values.as_slice()));
}

#[test]
fn load_from_copies_bytes_and_sets_reset_vector() {
    let mut cpu = Cpu::default();
    cpu.memory.write(0x8003, 0x77);

    assert_eq!(3, cpu.load_from(&[0xA9, 0x05, 0x00]));

    assert_eq!(cpu.memory.read(0x8000), 0xA9);
    assert_eq!(cpu.memory.read(0x8001), 0x05);
    assert_eq!(cpu.memory.read(0x8002), 0x00);
    assert_eq!(cpu.memory.read(0x8003), 0x77);
    assert_eq!(cpu.memory.read_u16(PROGRAM_COUNTER_RESET), PROGRAM_ROM_START);
    assert_eq!(cpu.memory.read(0xFFFC), 0x00);
    assert_eq!(cpu.memory.read(0xFFFD), 0x80);
}

#[test]
fn load_keeps_bytes_beyond_the_program() {
    let mut cpu = Cpu::default();
    cpu.load(&[1, 2, 3, 4]);
    cpu.load(&[9]);

    assert_eq!(cpu.memory.read(0x8000), 9);
    assert_eq!(cpu.memory.read(0x8001), 2);
    assert_eq!(cpu.memory.read(0x8003), 4);
    assert_eq!(cpu.memory.read(0x8004), 0);
    assert_eq!(cpu.memory.read(0x0000), 0);
}

#[test]
fn load_of_a_full_rom_has_the_reset_vector_written_over_it() {
    let mut cpu = Cpu::default();
    let values = vec![0xEE; PROGRAM_ROM_SIZE as usize];
    cpu.load(&values);

    assert_eq!(cpu.memory.read(0xFFFB), 0xEE);
    assert_eq!(cpu.memory.read(0xFFFC), 0x00);
    assert_eq!(cpu.memory.read(0xFFFD), 0x80);
    assert_eq!(cpu.memory.read(0xFFFE), 0xEE);
}

#[test]
fn load_from_too_large_ignores_the_excess() {
    let mut cpu = Cpu::default();
    let mut values = vec![1; PROGRAM_ROM_SIZE as usize + 2];
    values[PROGRAM_ROM_SIZE as usize - 1] = 0x42;
    cpu.load_from(&values);

    assert_eq!(cpu.memory.read(0xFFFF), 0x42);
    assert_eq!(cpu.memory.read(0x0000), 0);
}

#[test]
fn load_leaves_registers_alone() {
    let mut cpu = Cpu::default();
    cpu.register.accumulator = 7;
    cpu.register.program_counter = 0x1234;
    cpu.load(&[0xEA]);

    assert_eq!(cpu.register.accumulator, 7);
    assert_eq!(cpu.register.program_counter, 0x1234);
    assert!(!cpu.stop);
}
