use nes::cpu::addressing_mode::{Location, Value};
use nes::cpu::error::Error;
use nes::cpu::exec::{adc, sbc, shift_left, shift_right, Shifted, Sum};
use nes::cpu::operation::Operation;
use nes::cpu::registers::{Carry, NumberMode, Overflow};
use nes::cpu::Cpu;

fn add(accumulator: u8, value: u8, carry: bool) -> (u8, bool, bool) {
    let mut cpu = Cpu::default();
    cpu.register.accumulator = accumulator;
    cpu.register.status.result_status.carry = Carry::from_bool(carry);

    cpu.add_with_carry(Value::Immediate(value));

    (
        cpu.register.accumulator,
        cpu.register.status.result_status.carry.to_bool(),
        cpu.register.status.result_status.overflow.to_bool(),
    )
}

#[test]
fn add_with_carry_without_carry_in() {
    assert_eq!(add(80, 16, false), (96, false, false));
    assert_eq!(add(80, 80, false), (160, false, true));
    assert_eq!(add(80, 144, false), (224, false, false));
    assert_eq!(add(80, 208, false), (32, true, false));
    assert_eq!(add(208, 16, false), (224, false, false));
    assert_eq!(add(208, 80, false), (32, true, false));
    assert_eq!(add(208, 144, false), (96, true, true));
    assert_eq!(add(208, 208, false), (160, true, false));
}

#[test]
fn add_with_carry_adds_the_carry_in() {
    assert_eq!(add(80, 80, true), (161, false, true));
    assert_eq!(add(0xFF, 0x00, true), (0x00, true, false));
    assert_eq!(add(0x7F, 0x00, true), (0x80, false, true));
    assert_eq!(add(0xFF, 0xFF, true), (0xFF, true, false));
    assert_eq!(add(0x00, 0x00, false), (0x00, false, false));
}

#[test]
fn add_with_carry_matches_the_sum_for_every_triple() {
    for accumulator in 0..=255u8 {
        for operand in 0..=255u8 {
            for &carry in &[false, true] {
                let total = accumulator as u16 + operand as u16 + carry as u16;
                let signed = accumulator as i8 as i16 + operand as i8 as i16 + carry as i16;
                let expected = Sum {
                    result: (total & 0xFF) as u8,
                    carry: total > 0xFF,
                    overflow: !(-128..=127).contains(&signed),
                };
                assert_eq!(adc(accumulator, operand, carry), expected);
            }
        }
    }
}

#[test]
fn add_with_carry_sets_zero_and_negative() {
    let mut cpu = Cpu::default();
    cpu.register.accumulator = 0xFF;
    cpu.add_with_carry(Value::Immediate(0x01));
    assert!(cpu.register.status.result_status.zero);
    assert!(!cpu.register.status.result_status.negative);

    cpu.add_with_carry(Value::Immediate(0x7F));
    assert_eq!(cpu.register.accumulator, 0x80);
    assert!(!cpu.register.status.result_status.zero);
    assert!(cpu.register.status.result_status.negative);
}

#[test]
fn subtract_with_carry() {
    assert_eq!(sbc(0x50, 0x10, true), Sum { result: 0x40, carry: true, overflow: false });
    assert_eq!(sbc(0x50, 0x10, false), Sum { result: 0x3F, carry: true, overflow: false });
    assert_eq!(sbc(0x50, 0xB0, true), Sum { result: 0xA0, carry: false, overflow: true });
    assert_eq!(sbc(0x00, 0x01, true), Sum { result: 0xFF, carry: false, overflow: false });
    assert_eq!(sbc(0x80, 0x01, true), Sum { result: 0x7F, carry: true, overflow: true });
    assert_eq!(sbc(0x10, 0x10, true), Sum { result: 0x00, carry: true, overflow: false });
}

#[test]
fn and_correctness() {
    let mut cpu = Cpu::default();
    cpu.register.accumulator = 0xFF;
    cpu.and(Value::Immediate(0x0F));
    assert_eq!(cpu.register.accumulator, 0x0F);
    assert!(!cpu.register.status.result_status.zero);

    cpu.register.accumulator = 0xF0;
    cpu.and(Value::Immediate(0x0F));
    assert_eq!(cpu.register.accumulator, 0x00);
    assert!(cpu.register.status.result_status.zero);
}

#[test]
fn and_leaves_carry_and_overflow() {
    let mut cpu = Cpu::default();
    cpu.register.accumulator = 0xFF;
    cpu.register.status.result_status.carry = Carry::UnsignedOverflow;
    cpu.register.status.result_status.overflow = Overflow::SignedOverflow;
    assert_eq!(cpu.execute(Operation::And(Value::Immediate(0x80))), Ok(()));
    assert_eq!(cpu.register.accumulator, 0x80);
    assert!(cpu.register.status.result_status.negative);
    assert_eq!(cpu.register.status.result_status.carry, Carry::UnsignedOverflow);
    assert_eq!(cpu.register.status.result_status.overflow, Overflow::SignedOverflow);
}

#[test]
fn set_accumulator_sets_flags() {
    let mut cpu = Cpu::default();
    cpu.set_accumulator(0);
    assert!(cpu.register.status.result_status.zero);
    cpu.set_accumulator(0x90);
    assert_eq!(cpu.register.accumulator, 0x90);
    assert!(!cpu.register.status.result_status.zero);
    assert!(cpu.register.status.result_status.negative);
}

#[test]
fn or_and_exclusive_or() {
    let mut cpu = Cpu::default();
    cpu.register.accumulator = 0xF0;
    assert_eq!(cpu.execute(Operation::Ora(Value::Immediate(0x0F))), Ok(()));
    assert_eq!(cpu.register.accumulator, 0xFF);
    assert_eq!(cpu.execute(Operation::Eor(Value::Immediate(0xFF))), Ok(()));
    assert_eq!(cpu.register.accumulator, 0x00);
    assert!(cpu.register.status.result_status.zero);
}

#[test]
fn shifts_and_rotations() {
    assert_eq!(shift_left(0x81, false), Shifted { result: 0x02, carry: true });
    assert_eq!(shift_left(0x81, true), Shifted { result: 0x03, carry: true });
    assert_eq!(shift_left(0x40, false), Shifted { result: 0x80, carry: false });
    assert_eq!(shift_right(0x81, false), Shifted { result: 0x40, carry: true });
    assert_eq!(shift_right(0x81, true), Shifted { result: 0xC0, carry: true });
    assert_eq!(shift_right(0x02, false), Shifted { result: 0x01, carry: false });
}

#[test]
fn shift_of_accumulator_and_of_memory() {
    let mut cpu = Cpu::default();
    cpu.register.accumulator = 0x80;
    assert_eq!(cpu.execute(Operation::AslAcc), Ok(()));
    assert_eq!(cpu.register.accumulator, 0x00);
    assert!(cpu.register.status.result_status.zero);
    assert!(cpu.register.status.result_status.carry.to_bool());

    assert_eq!(cpu.execute(Operation::RolAcc), Ok(()));
    assert_eq!(cpu.register.accumulator, 0x01);
    assert!(!cpu.register.status.result_status.carry.to_bool());

    cpu.memory.write(0x0010, 0x01);
    assert_eq!(cpu.execute(Operation::Lsr(Location::ZeroPage(0x10))), Ok(()));
    assert_eq!(cpu.memory.read(0x0010), 0x00);
    assert!(cpu.register.status.result_status.carry.to_bool());
    assert!(cpu.register.status.result_status.zero);
    assert_eq!(cpu.register.accumulator, 0x01);

    assert_eq!(cpu.execute(Operation::Ror(Location::ZeroPage(0x10))), Ok(()));
    assert_eq!(cpu.memory.read(0x0010), 0x80);
    assert!(cpu.register.status.result_status.negative);
    assert!(!cpu.register.status.result_status.carry.to_bool());

    assert_eq!(cpu.execute(Operation::Asl(Location::ZeroPage(0x10))), Ok(()));
    assert_eq!(cpu.memory.read(0x0010), 0x00);
    assert_eq!(cpu.execute(Operation::Rol(Location::ZeroPage(0x10))), Ok(()));
    assert_eq!(cpu.memory.read(0x0010), 0x01);

    cpu.register.accumulator = 0x03;
    assert_eq!(cpu.execute(Operation::LsrAcc), Ok(()));
    assert_eq!(cpu.register.accumulator, 0x01);
    assert_eq!(cpu.execute(Operation::RorAcc), Ok(()));
    assert_eq!(cpu.register.accumulator, 0x80);
}

#[test]
fn compare_sets_carry_zero_negative() {
    let mut cpu = Cpu::default();
    cpu.register.accumulator = 0x10;
    assert_eq!(cpu.execute(Operation::Cmp(Value::Immediate(0x10))), Ok(()));
    assert!(cpu.register.status.result_status.zero);
    assert!(cpu.register.status.result_status.carry.to_bool());
    assert!(!cpu.register.status.result_status.negative);

    assert_eq!(cpu.execute(Operation::Cmp(Value::Immediate(0x20))), Ok(()));
    assert!(!cpu.register.status.result_status.zero);
    assert!(!cpu.register.status.result_status.carry.to_bool());
    assert!(cpu.register.status.result_status.negative);
    assert_eq!(cpu.register.accumulator, 0x10);

    cpu.register.index_x = 0x30;
    assert_eq!(cpu.execute(Operation::Cpx(Value::Immediate(0x20))), Ok(()));
    assert!(cpu.register.status.result_status.carry.to_bool());
    assert!(!cpu.register.status.result_status.negative);

    cpu.register.index_y = 0x00;
    assert_eq!(cpu.execute(Operation::Cpy(Value::Immediate(0x01))), Ok(()));
    assert!(!cpu.register.status.result_status.carry.to_bool());
    assert!(cpu.register.status.result_status.negative);
}

#[test]
fn bit_test_takes_flags_from_the_operand() {
    let mut cpu = Cpu::default();
    cpu.register.accumulator = 0x01;
    cpu.memory.write(0x0020, 0xC0);
    assert_eq!(cpu.execute(Operation::Bit(Value::Location(Location::ZeroPage(0x20)))), Ok(()));
    assert!(cpu.register.status.result_status.zero);
    assert!(cpu.register.status.result_status.negative);
    assert!(cpu.register.status.result_status.overflow.to_bool());

    cpu.memory.write(0x0020, 0x01);
    assert_eq!(cpu.execute(Operation::Bit(Value::Location(Location::ZeroPage(0x20)))), Ok(()));
    assert!(!cpu.register.status.result_status.zero);
    assert!(!cpu.register.status.result_status.negative);
    assert!(!cpu.register.status.result_status.overflow.to_bool());
    assert_eq!(cpu.register.accumulator, 0x01);
}

#[test]
fn loads_stores_and_transfers() {
    let mut cpu = Cpu::default();
    assert_eq!(cpu.execute(Operation::Lda(Value::Immediate(0x85))), Ok(()));
    assert_eq!(cpu.register.accumulator, 0x85);
    assert!(cpu.register.status.result_status.negative);
    assert_eq!(cpu.execute(Operation::Ldx(Value::Immediate(0x00))), Ok(()));
    assert!(cpu.register.status.result_status.zero);
    assert_eq!(cpu.execute(Operation::Ldy(Value::Immediate(0x07))), Ok(()));
    assert_eq!(cpu.register.index_y, 0x07);

    assert_eq!(cpu.execute(Operation::Sta(Location::Absolute(0x0200))), Ok(()));
    assert_eq!(cpu.memory.read(0x0200), 0x85);
    assert_eq!(cpu.execute(Operation::Sty(Location::ZeroPage(0x10))), Ok(()));
    assert_eq!(cpu.memory.read(0x0010), 0x07);
    assert_eq!(cpu.execute(Operation::Tax), Ok(()));
    assert_eq!(cpu.register.index_x, 0x85);
    assert_eq!(cpu.execute(Operation::Stx(Location::YIndexedZeroPage(0x10))), Ok(()));
    assert_eq!(cpu.memory.read(0x0017), 0x85);
    assert_eq!(cpu.execute(Operation::Tya), Ok(()));
    assert_eq!(cpu.register.accumulator, 0x07);
    assert_eq!(cpu.execute(Operation::Txa), Ok(()));
    assert_eq!(cpu.register.accumulator, 0x85);
    assert_eq!(cpu.execute(Operation::Tay), Ok(()));
    assert_eq!(cpu.register.index_y, 0x85);

    assert_eq!(cpu.execute(Operation::Txs), Ok(()));
    assert_eq!(cpu.register.stack_pointer, 0x85);
    cpu.register.index_x = 0;
    assert_eq!(cpu.execute(Operation::Tsx), Ok(()));
    assert_eq!(cpu.register.index_x, 0x85);
    assert!(cpu.register.status.result_status.negative);
}

#[test]
fn increments_and_decrements_wrap() {
    let mut cpu = Cpu::default();
    assert_eq!(cpu.execute(Operation::Dex), Ok(()));
    assert_eq!(cpu.register.index_x, 0xFF);
    assert!(cpu.register.status.result_status.negative);
    assert_eq!(cpu.execute(Operation::Inx), Ok(()));
    assert_eq!(cpu.register.index_x, 0x00);
    assert!(cpu.register.status.result_status.zero);
    assert_eq!(cpu.execute(Operation::Iny), Ok(()));
    assert_eq!(cpu.register.index_y, 0x01);
    assert_eq!(cpu.execute(Operation::Dey), Ok(()));
    assert_eq!(cpu.register.index_y, 0x00);

    cpu.memory.write(0x0300, 0xFF);
    assert_eq!(cpu.execute(Operation::Inc(Location::Absolute(0x0300))), Ok(()));
    assert_eq!(cpu.memory.read(0x0300), 0x00);
    assert!(cpu.register.status.result_status.zero);
    assert_eq!(cpu.execute(Operation::Dec(Location::Absolute(0x0300))), Ok(()));
    assert_eq!(cpu.memory.read(0x0300), 0xFF);
    assert!(cpu.register.status.result_status.negative);
}

#[test]
fn flags_are_set_and_cleared() {
    let mut cpu = Cpu::default();
    assert_eq!(cpu.execute(Operation::Sec), Ok(()));
    assert_eq!(cpu.register.status.result_status.carry, Carry::UnsignedOverflow);
    assert_eq!(cpu.execute(Operation::Clc), Ok(()));
    assert_eq!(cpu.register.status.result_status.carry, Carry::NoOverflow);
    assert_eq!(cpu.execute(Operation::Sei), Ok(()));
    assert!(cpu.register.status.interrupt_status.disabled);
    assert_eq!(cpu.execute(Operation::Cli), Ok(()));
    assert!(!cpu.register.status.interrupt_status.disabled);
    assert_eq!(cpu.execute(Operation::Sed), Ok(()));
    assert_eq!(cpu.register.status.decimal_mode, NumberMode::BinaryCodedDecimal);
    assert_eq!(cpu.execute(Operation::Cld), Ok(()));
    assert_eq!(cpu.register.status.decimal_mode, NumberMode::Binary);
    cpu.register.status.result_status.overflow = Overflow::SignedOverflow;
    assert_eq!(cpu.execute(Operation::Clv), Ok(()));
    assert_eq!(cpu.register.status.result_status.overflow, Overflow::NoOverflow);
    assert_eq!(cpu.execute(Operation::Nop), Ok(()));
}

#[test]
fn decimal_mode_leaves_addition_binary() {
    let mut cpu = Cpu::default();
    assert_eq!(cpu.execute(Operation::Sed), Ok(()));
    cpu.register.accumulator = 0x09;
    assert_eq!(cpu.execute(Operation::Adc(Value::Immediate(0x01))), Ok(()));
    assert_eq!(cpu.register.accumulator, 0x0A);
}

#[test]
fn branches_are_taken_by_their_flag() {
    let mut cpu = Cpu::default();
    cpu.register.program_counter = 0x8010;
    assert_eq!(cpu.execute(Operation::Beq(Location::Relative(0x10))), Ok(()));
    assert_eq!(cpu.register.program_counter, 0x8010);
    assert_eq!(cpu.execute(Operation::Bne(Location::Relative(0x10))), Ok(()));
    assert_eq!(cpu.register.program_counter, 0x8020);
    assert_eq!(cpu.execute(Operation::Bpl(Location::Relative(0xF0))), Ok(()));
    assert_eq!(cpu.register.program_counter, 0x8010);
    assert_eq!(cpu.execute(Operation::Bmi(Location::Relative(0x10))), Ok(()));
    assert_eq!(cpu.register.program_counter, 0x8010);
    assert_eq!(cpu.execute(Operation::Bcs(Location::Relative(0x10))), Ok(()));
    assert_eq!(cpu.register.program_counter, 0x8010);
    assert_eq!(cpu.execute(Operation::Bcc(Location::Relative(0x02))), Ok(()));
    assert_eq!(cpu.register.program_counter, 0x8012);
    assert_eq!(cpu.execute(Operation::Bvs(Location::Relative(0x02))), Ok(()));
    assert_eq!(cpu.register.program_counter, 0x8012);
    assert_eq!(cpu.execute(Operation::Bvc(Location::Relative(0x02))), Ok(()));
    assert_eq!(cpu.register.program_counter, 0x8014);

    cpu.register.status.result_status.zero = true;
    cpu.register.status.result_status.negative = true;
    cpu.register.status.result_status.carry = Carry::UnsignedOverflow;
    cpu.register.status.result_status.overflow = Overflow::SignedOverflow;
    assert_eq!(cpu.execute(Operation::Beq(Location::Relative(0x01))), Ok(()));
    assert_eq!(cpu.execute(Operation::Bmi(Location::Relative(0x01))), Ok(()));
    assert_eq!(cpu.execute(Operation::Bcs(Location::Relative(0x01))), Ok(()));
    assert_eq!(cpu.execute(Operation::Bvs(Location::Relative(0x01))), Ok(()));
    assert_eq!(cpu.register.program_counter, 0x8018);
}

#[test]
fn jump_call_and_return() {
    let mut cpu = Cpu::default();
    cpu.register.stack_pointer = 0xFF;
    cpu.register.program_counter = 0x8003;
    assert_eq!(cpu.execute(Operation::Jsr(Location::Absolute(0x9000))), Ok(()));
    assert_eq!(cpu.register.program_counter, 0x9000);
    assert_eq!(cpu.register.stack_pointer, 0xFD);
    assert_eq!(cpu.memory.read(0x01FF), 0x80);
    assert_eq!(cpu.memory.read(0x01FE), 0x02);

    assert_eq!(cpu.execute(Operation::Rts), Ok(()));
    assert_eq!(cpu.register.program_counter, 0x8003);
    assert_eq!(cpu.register.stack_pointer, 0xFF);

    cpu.memory.write_u16(0x0300, 0x8123);
    assert_eq!(cpu.execute(Operation::Jmp(Location::Indirect(0x0300))), Ok(()));
    assert_eq!(cpu.register.program_counter, 0x8123);
    assert_eq!(cpu.execute(Operation::Jmp(Location::Absolute(0x4000))), Ok(()));
    assert_eq!(cpu.register.program_counter, 0x4000);
}

#[test]
fn stack_pushes_down_and_pulls_up() {
    let mut cpu = Cpu::default();
    cpu.register.accumulator = 0x42;
    assert_eq!(cpu.execute(Operation::Pha), Ok(()));
    assert_eq!(cpu.memory.read(0x0100), 0x42);
    assert_eq!(cpu.register.stack_pointer, 0xFF);

    cpu.register.accumulator = 0x00;
    assert_eq!(cpu.execute(Operation::Pla), Ok(()));
    assert_eq!(cpu.register.accumulator, 0x42);
    assert_eq!(cpu.register.stack_pointer, 0x00);
    assert!(!cpu.register.status.result_status.zero);

    cpu.push(0x11);
    cpu.push(0x22);
    assert_eq!(cpu.pull(), 0x22);
    assert_eq!(cpu.pull(), 0x11);
}

#[test]
fn status_is_pushed_and_pulled_as_a_byte() {
    let mut cpu = Cpu::default();
    cpu.register.stack_pointer = 0xFF;
    cpu.register.status.result_status.carry = Carry::UnsignedOverflow;
    cpu.register.status.result_status.negative = true;
    cpu.register.status.interrupt_status.disabled = true;
    assert_eq!(cpu.register.status.to_byte(), 0xB5);
    assert_eq!(cpu.execute(Operation::Php), Ok(()));
    assert_eq!(cpu.memory.read(0x01FF), 0xB5);

    cpu.register.status = Default::default();
    assert_eq!(cpu.register.status.to_byte(), 0x30);
    assert_eq!(cpu.execute(Operation::Plp), Ok(()));
    assert_eq!(cpu.register.status.to_byte(), 0xB5);
    assert!(!cpu.register.status.interrupt_status.break_command);

    let status = cpu.register.status.from_byte(0x4A);
    assert!(status.result_status.zero);
    assert!(status.result_status.overflow.to_bool());
    assert_eq!(status.decimal_mode, NumberMode::BinaryCodedDecimal);
    assert!(!status.result_status.carry.to_bool());
    assert!(!status.result_status.negative);
    assert!(!status.interrupt_status.disabled);
}

#[test]
fn break_stops_and_touches_nothing_else() {
    let mut cpu = Cpu::default();
    cpu.register.accumulator = 3;
    assert_eq!(cpu.execute(Operation::Brk), Ok(()));
    assert!(cpu.stop);
    assert_eq!(cpu.register.accumulator, 3);
    assert_eq!(cpu.register.stack_pointer, 0);
    assert!(!cpu.register.status.interrupt_status.break_command);
}

#[test]
fn return_from_interrupt_is_not_implemented() {
    let mut cpu = Cpu::default();
    cpu.register.accumulator = 3;
    assert_eq!(
        cpu.execute(Operation::Rti),
        Err(Error::UnimplementedOperation(Operation::Rti))
    );
    assert_eq!(cpu.register.accumulator, 3);
    assert_eq!(cpu.register.stack_pointer, 0);
    assert!(!cpu.stop);
}

#[test]
fn can_execute_follows_the_mapping_of_the_operand() {
    let mut cpu = Cpu::default();
    assert!(cpu.can_execute(Operation::Nop));
    assert!(cpu.can_execute(Operation::Lda(Value::Immediate(1))));
    assert!(cpu.can_execute(Operation::Lda(Value::Location(Location::Absolute(0x07FF)))));
    assert!(!cpu.can_execute(Operation::Lda(Value::Location(Location::Absolute(0x0800)))));
    assert!(!cpu.can_execute(Operation::Sta(Location::Absolute(0x2000))));
    assert!(cpu.can_execute(Operation::Sta(Location::Absolute(0x8000))));
    assert!(cpu.can_execute(Operation::Jmp(Location::Absolute(0x2000))));
    assert!(!cpu.can_execute(Operation::Jmp(Location::Indirect(0x2000))));
    assert!(cpu.can_execute(Operation::Jmp(Location::Indirect(0x0200))));
    assert!(cpu.can_execute(Operation::Bne(Location::Relative(0x10))));
    assert!(cpu.can_execute(Operation::Beq(Location::Indirect(0x2000))));
    assert!(!cpu.can_execute(Operation::Bne(Location::Indirect(0x2000))));
    assert!(cpu.can_execute(Operation::Pha));

    cpu.register.index_x = 1;
    assert!(!cpu.can_execute(Operation::Inc(Location::XIndexedAbsolute(0x07FF))));
    assert!(cpu.can_execute(Operation::Inc(Location::XIndexedAbsolute(0x07FE))));
}
