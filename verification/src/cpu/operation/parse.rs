//! The decoder: from the bytes at the program counter to an operation.

use vstd::prelude::*;

use crate::cpu::addressing_mode::{wrap_address, Location, Value};
use crate::cpu::error::Error;
use crate::cpu::operation::{is_legal, lemma_encoding_is_unique, Operation};
use crate::cpu::{Cpu, Int, State};
use crate::memory;
use crate::memory::{following, is_mapped, word_in};

verus! {

/// The operation that `opcode` encodes, where it encodes one; its operand
/// is left open.
pub open spec fn encoded_by(opcode: Int) -> Operation {
    choose|operation: Operation| operation.opcode() == Some(opcode)
}

/// How many operand bytes follow `opcode`: as many as the operand of the
/// operation that it encodes takes; none where it encodes nothing.
pub open spec fn width_of(opcode: Int) -> nat {
    if is_legal(opcode) {
        encoded_by(opcode).operand_width()
    } else {
        0
    }
}

/// Operations with the same opcode have operands of the same width.
pub proof fn lemma_opcode_fixes_width(first: Operation, second: Operation)
    requires
        first.opcode() is Some,
        first.opcode() == second.opcode(),
    ensures
        first.operand_width() == second.operand_width(),
{
}

/// The width that goes with an opcode is that of the operand of any
/// operation which the opcode encodes.
pub proof fn lemma_width_of_opcode(operation: Operation)
    requires
        operation.opcode() is Some,
    ensures
        operation.operand_width() == width_of(operation.opcode()->0),
{
    lemma_opcode_fixes_width(operation, encoded_by(operation.opcode()->0));
}

/// How many operand bytes follow `opcode`; none where it encodes nothing.
pub fn operand_width(opcode: Int) -> (width: u8)
    ensures
        width == width_of(opcode),
{
    match Operation::decode(opcode, 0) {
        Some(operation) => operation.width(),
        None => 0,
    }
}

/// Whether the operand bytes that follow `opcode`, with the program
/// counter at the first of them, are mapped.
pub open spec fn operand_mapped(opcode: Int, state: State) -> bool {
    let counter = state.register.program_counter;
    &&& width_of(opcode) >= 1 ==> is_mapped(counter)
    &&& width_of(opcode) >= 2 ==> is_mapped(following(counter))
}

/// The operand of the given width that stands at the program counter.
pub open spec fn operand_at(state: State, width: nat) -> u16 {
    let counter = state.register.program_counter;
    if width == 1 {
        state.memory[counter] as u16
    } else if width == 2 {
        word_in(state.memory, counter)
    } else {
        0
    }
}

/// Whether the instruction at the program counter, opcode and operand, lies
/// in mapped memory.
pub open spec fn fetchable(state: State) -> bool {
    let counter = state.register.program_counter;
    &&& is_mapped(counter)
    &&& operand_mapped(state.memory[counter], state.advanced(1))
}

/// Whether `operation` is what the bytes at the program counter encode.
pub open spec fn decodes(state: State, operation: Operation) -> bool {
    &&& operation.opcode() == Some(state.memory[state.register.program_counter])
    &&& operation.operand_raw() == operand_at(state.advanced(1), operation.operand_width())
}

/// The bytes at the program counter encode at most one operation.
pub proof fn lemma_decodes_one_operation(state: State, first: Operation, second: Operation)
    requires
        decodes(state, first),
        decodes(state, second),
    ensures
        first == second,
{
    lemma_width_of_opcode(first);
    lemma_width_of_opcode(second);
    lemma_encoding_is_unique(first, second);
}

/// The part of `operand` that an operand of the given width holds: its
/// low byte for one byte, all of it for two, nothing for none.
pub open spec fn fitted(operand: u16, width: nat) -> u16 {
    if width == 1 {
        operand % 0x100
    } else if width == 2 {
        operand
    } else {
        0
    }
}

impl Location {
    /// How many operand bytes follow the opcode in this mode.
    pub fn operand_bytes(self) -> (width: u8)
        ensures
            width == self.width(),
    {
        match self {
            Location::ZeroPage(_)
            | Location::XIndexedZeroPage(_)
            | Location::YIndexedZeroPage(_)
            | Location::Relative(_)
            | Location::XIndexedIndirect(_)
            | Location::IndirectYIndexed(_) => 1,
            Location::Absolute(_)
            | Location::XIndexedAbsolute(_)
            | Location::YIndexedAbsolute(_)
            | Location::Indirect(_) => 2,
        }
    }
}

impl Operation {
    /// How many operand bytes follow the opcode of this operation.
    pub fn width(self) -> (width: u8)
        ensures
            width == self.operand_width(),
    {
        match (self.read_operand(), self.target()) {
            (Some(Value::Immediate(_)), _) => 1,
            (Some(Value::Location(at)), _) => at.operand_bytes(),
            (_, Some(at)) => at.operand_bytes(),
            _ => 0,
        }
    }

    /// The opcode table: the operation that `opcode` encodes, with
    /// `operand` as its operand; `None` where it encodes no operation.
    ///
    /// An operand of one byte is taken from the low byte of `operand`.
    pub fn decode(opcode: Int, operand: u16) -> (result: Option<Operation>)
        ensures
            match result {
                Some(operation) => {
                    &&& operation.opcode() == Some(opcode)
                    &&& operation.operand_width() == width_of(opcode)
                    &&& operation.operand_raw() == fitted(operand, width_of(opcode))
                },
                None => !is_legal(opcode),
            },
    {
        let byte = (operand % 0x100) as u8;
        let result = match opcode {
            // ADC
            0x69 => Some(Operation::Adc(Value::Immediate(byte))),
            0x65 => Some(Operation::Adc(Value::Location(Location::ZeroPage(byte)))),
            0x75 => Some(Operation::Adc(Value::Location(Location::XIndexedZeroPage(byte)))),
            0x6D => Some(Operation::Adc(Value::Location(Location::Absolute(operand)))),
            0x7D => Some(Operation::Adc(Value::Location(Location::XIndexedAbsolute(operand)))),
            0x79 => Some(Operation::Adc(Value::Location(Location::YIndexedAbsolute(operand)))),
            0x61 => Some(Operation::Adc(Value::Location(Location::XIndexedIndirect(byte)))),
            0x71 => Some(Operation::Adc(Value::Location(Location::IndirectYIndexed(byte)))),
            // AND
            0x29 => Some(Operation::And(Value::Immediate(byte))),
            0x25 => Some(Operation::And(Value::Location(Location::ZeroPage(byte)))),
            0x35 => Some(Operation::And(Value::Location(Location::XIndexedZeroPage(byte)))),
            0x2D => Some(Operation::And(Value::Location(Location::Absolute(operand)))),
            0x3D => Some(Operation::And(Value::Location(Location::XIndexedAbsolute(operand)))),
            0x39 => Some(Operation::And(Value::Location(Location::YIndexedAbsolute(operand)))),
            0x21 => Some(Operation::And(Value::Location(Location::XIndexedIndirect(byte)))),
            0x31 => Some(Operation::And(Value::Location(Location::IndirectYIndexed(byte)))),
            // ASL
            0x0A => Some(Operation::AslAcc),
            0x06 => Some(Operation::Asl(Location::ZeroPage(byte))),
            0x16 => Some(Operation::Asl(Location::XIndexedZeroPage(byte))),
            0x0E => Some(Operation::Asl(Location::Absolute(operand))),
            0x1E => Some(Operation::Asl(Location::XIndexedAbsolute(operand))),
            // BIT
            0x24 => Some(Operation::Bit(Value::Location(Location::ZeroPage(byte)))),
            0x2C => Some(Operation::Bit(Value::Location(Location::Absolute(operand)))),
            // Branches
            0x10 => Some(Operation::Bpl(Location::Relative(byte))),
            0x30 => Some(Operation::Bmi(Location::Relative(byte))),
            0x50 => Some(Operation::Bvc(Location::Relative(byte))),
            0x70 => Some(Operation::Bvs(Location::Relative(byte))),
            0x90 => Some(Operation::Bcc(Location::Relative(byte))),
            0xB0 => Some(Operation::Bcs(Location::Relative(byte))),
            0xD0 => Some(Operation::Bne(Location::Relative(byte))),
            0xF0 => Some(Operation::Beq(Location::Relative(byte))),
            // CMP
            0xC9 => Some(Operation::Cmp(Value::Immediate(byte))),
            0xC5 => Some(Operation::Cmp(Value::Location(Location::ZeroPage(byte)))),
            0xD5 => Some(Operation::Cmp(Value::Location(Location::XIndexedZeroPage(byte)))),
            0xCD => Some(Operation::Cmp(Value::Location(Location::Absolute(operand)))),
            0xDD => Some(Operation::Cmp(Value::Location(Location::XIndexedAbsolute(operand)))),
            0xD9 => Some(Operation::Cmp(Value::Location(Location::YIndexedAbsolute(operand)))),
            0xC1 => Some(Operation::Cmp(Value::Location(Location::XIndexedIndirect(byte)))),
            0xD1 => Some(Operation::Cmp(Value::Location(Location::IndirectYIndexed(byte)))),
            // CPX
            0xE0 => Some(Operation::Cpx(Value::Immediate(byte))),
            0xE4 => Some(Operation::Cpx(Value::Location(Location::ZeroPage(byte)))),
            0xEC => Some(Operation::Cpx(Value::Location(Location::Absolute(operand)))),
            // CPY
            0xC0 => Some(Operation::Cpy(Value::Immediate(byte))),
            0xC4 => Some(Operation::Cpy(Value::Location(Location::ZeroPage(byte)))),
            0xCC => Some(Operation::Cpy(Value::Location(Location::Absolute(operand)))),
            // DEC
            0xC6 => Some(Operation::Dec(Location::ZeroPage(byte))),
            0xD6 => Some(Operation::Dec(Location::XIndexedZeroPage(byte))),
            0xCE => Some(Operation::Dec(Location::Absolute(operand))),
            0xDE => Some(Operation::Dec(Location::XIndexedAbsolute(operand))),
            // EOR
            0x49 => Some(Operation::Eor(Value::Immediate(byte))),
            0x45 => Some(Operation::Eor(Value::Location(Location::ZeroPage(byte)))),
            0x55 => Some(Operation::Eor(Value::Location(Location::XIndexedZeroPage(byte)))),
            0x4D => Some(Operation::Eor(Value::Location(Location::Absolute(operand)))),
            0x5D => Some(Operation::Eor(Value::Location(Location::XIndexedAbsolute(operand)))),
            0x59 => Some(Operation::Eor(Value::Location(Location::YIndexedAbsolute(operand)))),
            0x41 => Some(Operation::Eor(Value::Location(Location::XIndexedIndirect(byte)))),
            0x51 => Some(Operation::Eor(Value::Location(Location::IndirectYIndexed(byte)))),
            // INC
            0xE6 => Some(Operation::Inc(Location::ZeroPage(byte))),
            0xF6 => Some(Operation::Inc(Location::XIndexedZeroPage(byte))),
            0xEE => Some(Operation::Inc(Location::Absolute(operand))),
            0xFE => Some(Operation::Inc(Location::XIndexedAbsolute(operand))),
            // JMP
            0x4C => Some(Operation::Jmp(Location::Absolute(operand))),
            0x6C => Some(Operation::Jmp(Location::Indirect(operand))),
            // JSR
            0x20 => Some(Operation::Jsr(Location::Absolute(operand))),
            // LDA
            0xA9 => Some(Operation::Lda(Value::Immediate(byte))),
            0xA5 => Some(Operation::Lda(Value::Location(Location::ZeroPage(byte)))),
            0xB5 => Some(Operation::Lda(Value::Location(Location::XIndexedZeroPage(byte)))),
            0xAD => Some(Operation::Lda(Value::Location(Location::Absolute(operand)))),
            0xBD => Some(Operation::Lda(Value::Location(Location::XIndexedAbsolute(operand)))),
            0xB9 => Some(Operation::Lda(Value::Location(Location::YIndexedAbsolute(operand)))),
            0xA1 => Some(Operation::Lda(Value::Location(Location::XIndexedIndirect(byte)))),
            0xB1 => Some(Operation::Lda(Value::Location(Location::IndirectYIndexed(byte)))),
            // LDX
            0xA2 => Some(Operation::Ldx(Value::Immediate(byte))),
            0xA6 => Some(Operation::Ldx(Value::Location(Location::ZeroPage(byte)))),
            0xB6 => Some(Operation::Ldx(Value::Location(Location::YIndexedZeroPage(byte)))),
            0xAE => Some(Operation::Ldx(Value::Location(Location::Absolute(operand)))),
            0xBE => Some(Operation::Ldx(Value::Location(Location::YIndexedAbsolute(operand)))),
            // LDY
            0xA0 => Some(Operation::Ldy(Value::Immediate(byte))),
            0xA4 => Some(Operation::Ldy(Value::Location(Location::ZeroPage(byte)))),
            0xB4 => Some(Operation::Ldy(Value::Location(Location::XIndexedZeroPage(byte)))),
            0xAC => Some(Operation::Ldy(Value::Location(Location::Absolute(operand)))),
            0xBC => Some(Operation::Ldy(Value::Location(Location::XIndexedAbsolute(operand)))),
            // LSR
            0x4A => Some(Operation::LsrAcc),
            0x46 => Some(Operation::Lsr(Location::ZeroPage(byte))),
            0x56 => Some(Operation::Lsr(Location::XIndexedZeroPage(byte))),
            0x4E => Some(Operation::Lsr(Location::Absolute(operand))),
            0x5E => Some(Operation::Lsr(Location::XIndexedAbsolute(operand))),
            // ORA
            0x09 => Some(Operation::Ora(Value::Immediate(byte))),
            0x05 => Some(Operation::Ora(Value::Location(Location::ZeroPage(byte)))),
            0x15 => Some(Operation::Ora(Value::Location(Location::XIndexedZeroPage(byte)))),
            0x0D => Some(Operation::Ora(Value::Location(Location::Absolute(operand)))),
            0x1D => Some(Operation::Ora(Value::Location(Location::XIndexedAbsolute(operand)))),
            0x19 => Some(Operation::Ora(Value::Location(Location::YIndexedAbsolute(operand)))),
            0x01 => Some(Operation::Ora(Value::Location(Location::XIndexedIndirect(byte)))),
            0x11 => Some(Operation::Ora(Value::Location(Location::IndirectYIndexed(byte)))),
            // ROL
            0x2A => Some(Operation::RolAcc),
            0x26 => Some(Operation::Rol(Location::ZeroPage(byte))),
            0x36 => Some(Operation::Rol(Location::XIndexedZeroPage(byte))),
            0x2E => Some(Operation::Rol(Location::Absolute(operand))),
            0x3E => Some(Operation::Rol(Location::XIndexedAbsolute(operand))),
            // ROR
            0x6A => Some(Operation::RorAcc),
            0x66 => Some(Operation::Ror(Location::ZeroPage(byte))),
            0x76 => Some(Operation::Ror(Location::XIndexedZeroPage(byte))),
            0x6E => Some(Operation::Ror(Location::Absolute(operand))),
            0x7E => Some(Operation::Ror(Location::XIndexedAbsolute(operand))),
            // SBC
            0xE9 => Some(Operation::Sbc(Value::Immediate(byte))),
            0xE5 => Some(Operation::Sbc(Value::Location(Location::ZeroPage(byte)))),
            0xF5 => Some(Operation::Sbc(Value::Location(Location::XIndexedZeroPage(byte)))),
            0xED => Some(Operation::Sbc(Value::Location(Location::Absolute(operand)))),
            0xFD => Some(Operation::Sbc(Value::Location(Location::XIndexedAbsolute(operand)))),
            0xF9 => Some(Operation::Sbc(Value::Location(Location::YIndexedAbsolute(operand)))),
            0xE1 => Some(Operation::Sbc(Value::Location(Location::XIndexedIndirect(byte)))),
            0xF1 => Some(Operation::Sbc(Value::Location(Location::IndirectYIndexed(byte)))),
            // STA
            0x85 => Some(Operation::Sta(Location::ZeroPage(byte))),
            0x95 => Some(Operation::Sta(Location::XIndexedZeroPage(byte))),
            0x8D => Some(Operation::Sta(Location::Absolute(operand))),
            0x9D => Some(Operation::Sta(Location::XIndexedAbsolute(operand))),
            0x99 => Some(Operation::Sta(Location::YIndexedAbsolute(operand))),
            0x81 => Some(Operation::Sta(Location::XIndexedIndirect(byte))),
            0x91 => Some(Operation::Sta(Location::IndirectYIndexed(byte))),
            // STX
            0x86 => Some(Operation::Stx(Location::ZeroPage(byte))),
            0x96 => Some(Operation::Stx(Location::YIndexedZeroPage(byte))),
            0x8E => Some(Operation::Stx(Location::Absolute(operand))),
            // STY
            0x84 => Some(Operation::Sty(Location::ZeroPage(byte))),
            0x94 => Some(Operation::Sty(Location::XIndexedZeroPage(byte))),
            0x8C => Some(Operation::Sty(Location::Absolute(operand))),
            // Break and returns
            0x00 => Some(Operation::Brk),
            0x40 => Some(Operation::Rti),
            0x60 => Some(Operation::Rts),
            // Flags
            0x38 => Some(Operation::Sec),
            0x78 => Some(Operation::Sei),
            0xF8 => Some(Operation::Sed),
            0x18 => Some(Operation::Clc),
            0x58 => Some(Operation::Cli),
            0xB8 => Some(Operation::Clv),
            0xD8 => Some(Operation::Cld),
            // No operation
            0xEA => Some(Operation::Nop),
            // Stack
            0x48 => Some(Operation::Pha),
            0x08 => Some(Operation::Php),
            0x68 => Some(Operation::Pla),
            0x28 => Some(Operation::Plp),
            0xBA => Some(Operation::Tsx),
            0x9A => Some(Operation::Txs),
            // Register X
            0xAA => Some(Operation::Tax),
            0x8A => Some(Operation::Txa),
            0xCA => Some(Operation::Dex),
            0xE8 => Some(Operation::Inx),
            // Register Y
            0xA8 => Some(Operation::Tay),
            0x98 => Some(Operation::Tya),
            0x88 => Some(Operation::Dey),
            0xC8 => Some(Operation::Iny),
            _ => None,
        };
        proof {
            if let Some(operation) = result {
                lemma_width_of_opcode(operation);
            }
        }
        result
    }

    /// Decodes `opcode`, taking its operand from the program counter on
    /// and moving the program counter past it.
    ///
    /// An opcode that encodes no operation is an error, which names the
    /// opcode and where it stood, and leaves the processor as it was.
    pub fn new(opcode: Int, cpu: &mut Cpu) -> (result: Result<Operation, Error>)
        requires
            operand_mapped(opcode, old(cpu)@),
        ensures
            match result {
                Ok(operation) => {
                    &&& operation.opcode() == Some(opcode)
                    &&& operation.operand_width() == width_of(opcode)
                    &&& operation.operand_raw() == operand_at(old(cpu)@, width_of(opcode))
                    &&& final(cpu)@ == old(cpu)@.advanced(width_of(opcode) as int)
                },
                Err(error) => {
                    &&& !is_legal(opcode)
                    &&& error == (Error::UnimplementedOpcode {
                        opcode,
                        program_counter: wrap_address(old(cpu)@.register.program_counter - 1),
                    })
                    &&& final(cpu)@ == old(cpu)@
                },
            },
    {
        let counter = cpu.register.program_counter;
        let width = operand_width(opcode);
        let operand: u16 = if width == 1 {
            cpu.next_int() as u16
        } else if width == 2 {
            cpu.next_address()
        } else {
            0
        };
        match Operation::decode(opcode, operand) {
            Some(operation) => Ok(operation),
            None => {
                cpu.register.program_counter = counter;
                Err(
                    Error::UnimplementedOpcode {
                        opcode,
                        program_counter: counter.wrapping_sub(1),
                    },
                )
            },
        }
    }

    /// Decodes the instruction at the program counter and moves the
    /// program counter past it: by one byte for the opcode and by as many
    /// as its operand takes.
    ///
    /// An opcode that encodes no operation is an error, which names the
    /// opcode and the program counter, and leaves the processor as it was.
    pub fn next(cpu: &mut Cpu) -> (result: Result<Operation, Error>)
        requires
            fetchable(old(cpu)@),
        ensures
            match result {
                Ok(operation) => {
                    &&& decodes(old(cpu)@, operation)
                    &&& final(cpu)@ == old(cpu)@.advanced(1 + operation.operand_width() as int)
                },
                Err(error) => {
                    &&& !is_legal(old(cpu)@.memory[old(cpu)@.register.program_counter])
                    &&& error == (Error::UnimplementedOpcode {
                        opcode: old(cpu)@.memory[old(cpu)@.register.program_counter],
                        program_counter: old(cpu)@.register.program_counter,
                    })
                    &&& final(cpu)@ == old(cpu)@
                },
            },
    {
        let counter = cpu.register.program_counter;
        let opcode = cpu.next_int();
        match Operation::new(opcode, cpu) {
            Ok(operation) => Ok(operation),
            Err(_) => {
                cpu.register.program_counter = counter;
                Err(Error::UnimplementedOpcode { opcode, program_counter: counter })
            },
        }
    }
}

impl Cpu {
    /// Whether the instruction at the program counter lies in mapped
    /// memory, so that it can be decoded.
    pub fn can_fetch(&self) -> (fetchable: bool)
        ensures
            fetchable == self::fetchable(self@),
    {
        let counter = self.register.program_counter;
        if !memory::Nes::maps(counter) {
            return false;
        }
        let width = operand_width(self.memory.read(counter));
        let first = counter.wrapping_add(1);
        let second = counter.wrapping_add(2);
        (width < 1 || memory::Nes::maps(first)) && (width < 2 || memory::Nes::maps(second))
    }

    /// Decodes the instruction at the program counter and moves the
    /// program counter past it.
    pub fn next_operation(&mut self) -> (result: Result<Operation, Error>)
        requires
            fetchable(old(self)@),
        ensures
            match result {
                Ok(operation) => {
                    &&& decodes(old(self)@, operation)
                    &&& final(self)@ == old(self)@.advanced(1 + operation.operand_width() as int)
                },
                Err(error) => {
                    &&& !is_legal(old(self)@.memory[old(self)@.register.program_counter])
                    &&& error == (Error::UnimplementedOpcode {
                        opcode: old(self)@.memory[old(self)@.register.program_counter],
                        program_counter: old(self)@.register.program_counter,
                    })
                    &&& final(self)@ == old(self)@
                },
            },
    {
        Operation::next(self)
    }
}

} // verus!
