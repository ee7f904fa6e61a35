use nes::memory::constant::{
    INTERRUPT, NON_MASKABLE_INTERRUPT, PROGRAM_COUNTER_RESET, PROGRAM_ROM_SIZE,
    PROGRAM_ROM_START, RAM_END, RAM_SIZE, RAM_START,
};
use nes::memory::{Location, Nes};

#[test]
fn constants_describe_the_layout() {
    assert_eq!(RAM_START, 0x0000);
    assert_eq!(RAM_SIZE, 0x0800);
    assert_eq!(RAM_END, 0x0800);
    assert_eq!(PROGRAM_ROM_START, 0x8000);
    assert_eq!(PROGRAM_ROM_SIZE, 0x8000);
    assert_eq!(NON_MASKABLE_INTERRUPT, 0xFFFA);
    assert_eq!(PROGRAM_COUNTER_RESET, 0xFFFC);
    assert_eq!(INTERRUPT, 0xFFFE);
}

#[test]
fn resolve_address_classifies_regions() {
    assert_eq!(Nes::resolve_address(0x0000), Location::Ram(0x0000));
    assert_eq!(Nes::resolve_address(0x07FF), Location::Ram(0x07FF));
    assert_eq!(Nes::resolve_address(0x8000), Location::ProgramRom(0x0000));
    assert_eq!(Nes::resolve_address(0xFFFF), Location::ProgramRom(0x7FFF));
    assert_eq!(Nes::resolve_address(0xFFFC), Location::ProgramRom(0x7FFC));
}

#[test]
fn default_memory_is_zeroed() {
    let memory = Nes::default();
    assert_eq!(memory.read(0x0000), 0);
    assert_eq!(memory.read(0x07FF), 0);
    assert_eq!(memory.read(0x8000), 0);
    assert_eq!(memory.read(0xFFFF), 0);
}

#[test]
fn write_then_read_gives_the_byte_and_leaves_others() {
    let mut memory = Nes::default();
    memory.write(0x0010, 0xAB);
    memory.write(0x8010, 0xCD);

    assert_eq!(memory.read(0x0010), 0xAB);
    assert_eq!(memory.read(0x8010), 0xCD);
    assert_eq!(memory.read(0x0011), 0);
    assert_eq!(memory.read(0x000F), 0);
    assert_eq!(memory.ram[0x10], 0xAB);
    assert_eq!(memory.program_rom[0x10], 0xCD);
}

#[test]
fn read_u16_is_little_endian() {
    let mut memory = Nes::default();
    memory.write(0x0010, 0x03);
    memory.write(0x0011, 0x02);

    assert_eq!(memory.read_u16(0x0010), 0x0203);
}

#[test]
fn write_u16_puts_low_byte_first() {
    let mut memory = Nes::default();
    memory.write_u16(0x0200, 0xBEEF);

    assert_eq!(memory.read(0x0200), 0xEF);
    assert_eq!(memory.read(0x0201), 0xBE);
    assert_eq!(memory.read(0x0202), 0x00);
    assert_eq!(memory.read(0x01FF), 0x00);
}

#[test]
fn write_u16_read_u16_round_trip() {
    let mut memory = Nes::default();
    for &address in &[0x0000u16, 0x00FF, 0x07FE, 0x8000, 0xFFFA, 0xFFFC, 0xFFFE] {
        for &value in &[0x0000u16, 0x0001, 0x00FF, 0x0100, 0x8000, 0xABCD, 0xFFFF] {
            memory.write_u16(address, value);
            assert_eq!(memory.read_u16(address), value);
        }
    }
}

#[test]
fn word_at_the_last_address_wraps_to_the_first() {
    let mut memory = Nes::default();
    memory.write_u16(0xFFFF, 0x1234);

    assert_eq!(memory.read(0xFFFF), 0x34);
    assert_eq!(memory.read(0x0000), 0x12);
    assert_eq!(memory.read_u16(0xFFFF), 0x1234);
}

#[test]
fn index_reads_the_byte_of_the_region() {
    let mut memory = Nes::default();
    memory.write(0x0123, 0x45);
    memory.write(0x8123, 0x67);

    assert_eq!(memory[0x0123], 0x45);
    assert_eq!(memory[0x8123], 0x67);
    assert_eq!(memory[0xFFFF], 0x00);
}

#[test]
fn maps_tells_the_regions_from_the_gap() {
    assert!(Nes::maps(0x0000));
    assert!(Nes::maps(0x07FF));
    assert!(!Nes::maps(0x0800));
    assert!(!Nes::maps(0x7FFF));
    assert!(Nes::maps(0x8000));
    assert!(Nes::maps(0xFFFF));
}
