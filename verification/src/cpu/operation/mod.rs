//! The operations of the processor, one variant per mnemonic, and the
//! opcode by which each is encoded.

use vstd::prelude::*;

use crate::cpu::addressing_mode::{Location, Value};
use crate::cpu::Int;

pub mod parse;

verus! {

/// An operation with its operand, as the decoder hands it to the executor.
#[derive(Clone, Copy, Debug, PartialEq, Eq, Structural)]
pub enum Operation {
    /// Add with carry
    Adc(Value),
    /// Bitwise AND with accumulator
    And(Value),
    /// Arithmetic shift accumulator left
    AslAcc,
    /// Arithmetic shift left
    Asl(Location),
    /// Set flags based on bits
    Bit(Value),
    /// Branch if plus: the negative flag is clear
    Bpl(Location),
    /// Branch if minus: the negative flag is set
    Bmi(Location),
    /// Branch if overflow flag clear
    Bvc(Location),
    /// Branch if overflow flag set
    Bvs(Location),
    /// Branch if carry flag clear
    Bcc(Location),
    /// Branch if carry flag set
    Bcs(Location),
    /// Branch if not equal: the zero flag is clear
    Bne(Location),
    /// Branch if equal: the zero flag is set
    Beq(Location),
    /// Break
    Brk,
    /// Compare to accumulator
    Cmp(Value),
    /// Compare to X register
    Cpx(Value),
    /// Compare to Y register
    Cpy(Value),
    /// Decrement memory
    Dec(Location),
    /// Bitwise exclusive OR
    Eor(Value),
    /// Set carry flag
    Sec,
    /// Clear carry flag
    Clc,
    /// Set interrupt-disable flag
    Sei,
    /// Clear interrupt-disable flag
    Cli,
    /// Clear overflow flag
    Clv,
    /// Set decimal-mode flag
    Sed,
    /// Clear decimal-mode flag
    Cld,
    /// Increment memory
    Inc(Location),
    /// Jump
    Jmp(Location),
    /// Jump to subroutine
    Jsr(Location),
    /// Load to accumulator
    Lda(Value),
    /// Load to X register
    Ldx(Value),
    /// Load to Y register
    Ldy(Value),
    /// Logical shift accumulator right
    LsrAcc,
    /// Logical shift right
    Lsr(Location),
    /// No-op
    Nop,
    /// Bitwise OR with accumulator
    Ora(Value),
    /// Push accumulator
    Pha,
    /// Push processor status
    Php,
    /// Pull accumulator
    Pla,
    /// Pull processor status
    Plp,
    /// Transfer A to X
    Tax,
    /// Transfer X to A
    Txa,
    /// Decrement X
    Dex,
    /// Increment X
    Inx,
    /// Transfer A to Y
    Tay,
    /// Transfer Y to A
    Tya,
    /// Decrement Y
    Dey,
    /// Increment Y
    Iny,
    /// Transfer stack pointer to X
    Tsx,
    /// Transfer X to stack pointer
    Txs,
    /// Rotate accumulator left
    RolAcc,
    /// Rotate left
    Rol(Location),
    /// Rotate accumulator right
    RorAcc,
    /// Rotate right
    Ror(Location),
    /// Return from interrupt
    Rti,
    /// Return from subroutine
    Rts,
    /// Subtract with carry
    Sbc(Value),
    /// Store accumulator
    Sta(Location),
    /// Store X register
    Stx(Location),
    /// Store Y register
    Sty(Location),
}

/// The opcode of an accumulator operation (ORA, AND, EOR, ADC, STA, LDA,
/// CMP, SBC): the base of the mnemonic plus the offset of the mode.
pub open spec fn accumulator_opcode(base: Int, operand: Value) -> Option<Int> {
    match operand {
        Value::Immediate(_) => Some((base + 0x09) as Int),
        Value::Location(Location::ZeroPage(_)) => Some((base + 0x05) as Int),
        Value::Location(Location::XIndexedZeroPage(_)) => Some((base + 0x15) as Int),
        Value::Location(Location::Absolute(_)) => Some((base + 0x0D) as Int),
        Value::Location(Location::XIndexedAbsolute(_)) => Some((base + 0x1D) as Int),
        Value::Location(Location::YIndexedAbsolute(_)) => Some((base + 0x19) as Int),
        Value::Location(Location::XIndexedIndirect(_)) => Some((base + 0x01) as Int),
        Value::Location(Location::IndirectYIndexed(_)) => Some((base + 0x11) as Int),
        _ => None,
    }
}

/// The opcode of an operation that reads, changes and writes back a byte
/// of memory (ASL, ROL, LSR, ROR, DEC, INC).
pub open spec fn modify_opcode(base: Int, target: Location) -> Option<Int> {
    match target {
        Location::ZeroPage(_) => Some((base + 0x06) as Int),
        Location::XIndexedZeroPage(_) => Some((base + 0x16) as Int),
        Location::Absolute(_) => Some((base + 0x0E) as Int),
        Location::XIndexedAbsolute(_) => Some((base + 0x1E) as Int),
        _ => None,
    }
}

/// The opcode of a branch: its target is always relative.
pub open spec fn branch_opcode(base: Int, target: Location) -> Option<Int> {
    match target {
        Location::Relative(_) => Some(base),
        _ => None,
    }
}

/// The opcode of an operation on an index register (CPX, CPY, LDX, LDY,
/// STX, STY, and BIT, which shares their layout). An operation on X
/// indexes by Y and the reverse: `by_x` says which. `indexed` and
/// `absolute_indexed` say whether the mnemonic has those modes at all.
pub open spec fn index_opcode(
    base: Int,
    operand: Value,
    by_x: bool,
    indexed: bool,
    absolute_indexed: bool,
) -> Option<Int> {
    match operand {
        Value::Immediate(_) => Some(base),
        Value::Location(Location::ZeroPage(_)) => Some((base + 0x04) as Int),
        Value::Location(Location::Absolute(_)) => Some((base + 0x0C) as Int),
        Value::Location(Location::XIndexedZeroPage(_)) => if indexed && by_x {
            Some((base + 0x14) as Int)
        } else {
            None
        },
        Value::Location(Location::YIndexedZeroPage(_)) => if indexed && !by_x {
            Some((base + 0x14) as Int)
        } else {
            None
        },
        Value::Location(Location::XIndexedAbsolute(_)) => if absolute_indexed && by_x {
            Some((base + 0x1C) as Int)
        } else {
            None
        },
        Value::Location(Location::YIndexedAbsolute(_)) => if absolute_indexed && !by_x {
            Some((base + 0x1C) as Int)
        } else {
            None
        },
        _ => None,
    }
}

impl Operation {
    /// The opcode that encodes this operation, if its operand has a mode
    /// that the mnemonic allows.
    pub open spec fn opcode(self) -> Option<Int> {
        match self {
            Operation::Ora(operand) => accumulator_opcode(0x00, operand),
            Operation::And(operand) => accumulator_opcode(0x20, operand),
            Operation::Eor(operand) => accumulator_opcode(0x40, operand),
            Operation::Adc(operand) => accumulator_opcode(0x60, operand),
            Operation::Sta(target) => accumulator_opcode(0x80, Value::Location(target)),
            Operation::Lda(operand) => accumulator_opcode(0xA0, operand),
            Operation::Cmp(operand) => accumulator_opcode(0xC0, operand),
            Operation::Sbc(operand) => accumulator_opcode(0xE0, operand),
            Operation::Asl(target) => modify_opcode(0x00, target),
            Operation::Rol(target) => modify_opcode(0x20, target),
            Operation::Lsr(target) => modify_opcode(0x40, target),
            Operation::Ror(target) => modify_opcode(0x60, target),
            Operation::Dec(target) => modify_opcode(0xC0, target),
            Operation::Inc(target) => modify_opcode(0xE0, target),
            Operation::AslAcc => Some(0x0A),
            Operation::RolAcc => Some(0x2A),
            Operation::LsrAcc => Some(0x4A),
            Operation::RorAcc => Some(0x6A),
            Operation::Bpl(target) => branch_opcode(0x10, target),
            Operation::Bmi(target) => branch_opcode(0x30, target),
            Operation::Bvc(target) => branch_opcode(0x50, target),
            Operation::Bvs(target) => branch_opcode(0x70, target),
            Operation::Bcc(target) => branch_opcode(0x90, target),
            Operation::Bcs(target) => branch_opcode(0xB0, target),
            Operation::Bne(target) => branch_opcode(0xD0, target),
            Operation::Beq(target) => branch_opcode(0xF0, target),
            Operation::Bit(operand) => match operand {
                Value::Immediate(_) => None,
                _ => index_opcode(0x20, operand, true, false, false),
            },
            Operation::Sty(target) => index_opcode(
                0x80,
                Value::Location(target),
                true,
                true,
                false,
            ),
            Operation::Stx(target) => index_opcode(
                0x82,
                Value::Location(target),
                false,
                true,
                false,
            ),
            Operation::Ldy(operand) => index_opcode(0xA0, operand, true, true, true),
            Operation::Ldx(operand) => index_opcode(0xA2, operand, false, true, true),
            Operation::Cpy(operand) => index_opcode(0xC0, operand, true, false, false),
            Operation::Cpx(operand) => index_opcode(0xE0, operand, true, false, false),
            Operation::Jmp(target) => match target {
                Location::Absolute(_) => Some(0x4C),
                Location::Indirect(_) => Some(0x6C),
                _ => None,
            },
            Operation::Jsr(target) => match target {
                Location::Absolute(_) => Some(0x20),
                _ => None,
            },
            Operation::Brk => Some(0x00),
            Operation::Rti => Some(0x40),
            Operation::Rts => Some(0x60),
            Operation::Php => Some(0x08),
            Operation::Plp => Some(0x28),
            Operation::Pha => Some(0x48),
            Operation::Pla => Some(0x68),
            Operation::Dey => Some(0x88),
            Operation::Tay => Some(0xA8),
            Operation::Iny => Some(0xC8),
            Operation::Inx => Some(0xE8),
            Operation::Clc => Some(0x18),
            Operation::Sec => Some(0x38),
            Operation::Cli => Some(0x58),
            Operation::Sei => Some(0x78),
            Operation::Tya => Some(0x98),
            Operation::Clv => Some(0xB8),
            Operation::Cld => Some(0xD8),
            Operation::Sed => Some(0xF8),
            Operation::Txa => Some(0x8A),
            Operation::Txs => Some(0x9A),
            Operation::Tax => Some(0xAA),
            Operation::Tsx => Some(0xBA),
            Operation::Dex => Some(0xCA),
            Operation::Nop => Some(0xEA),
        }
    }

    /// The operand that this operation reads, if it reads one.
    pub open spec fn value_operand(self) -> Option<Value> {
        match self {
            Operation::Ora(operand)
            | Operation::And(operand)
            | Operation::Eor(operand)
            | Operation::Adc(operand)
            | Operation::Lda(operand)
            | Operation::Cmp(operand)
            | Operation::Sbc(operand)
            | Operation::Bit(operand)
            | Operation::Ldy(operand)
            | Operation::Ldx(operand)
            | Operation::Cpy(operand)
            | Operation::Cpx(operand) => Some(operand),
            _ => None,
        }
    }

    /// The location that this operation writes to, changes or jumps to, if
    /// it has one.
    pub open spec fn location_operand(self) -> Option<Location> {
        match self {
            Operation::Sta(target)
            | Operation::Stx(target)
            | Operation::Sty(target)
            | Operation::Asl(target)
            | Operation::Rol(target)
            | Operation::Lsr(target)
            | Operation::Ror(target)
            | Operation::Dec(target)
            | Operation::Inc(target)
            | Operation::Bpl(target)
            | Operation::Bmi(target)
            | Operation::Bvc(target)
            | Operation::Bvs(target)
            | Operation::Bcc(target)
            | Operation::Bcs(target)
            | Operation::Bne(target)
            | Operation::Beq(target)
            | Operation::Jmp(target)
            | Operation::Jsr(target) => Some(target),
            _ => None,
        }
    }

    /// How many operand bytes follow the opcode of this operation.
    pub open spec fn operand_width(self) -> nat {
        match (self.value_operand(), self.location_operand()) {
            (Some(operand), _) => operand.width(),
            (_, Some(target)) => target.width(),
            _ => 0,
        }
    }

    /// The operand as it stands after the opcode: one byte, or two bytes
    /// read little-endian; zero where there is none.
    pub open spec fn operand_raw(self) -> u16 {
        match (self.value_operand(), self.location_operand()) {
            (Some(operand), _) => operand.raw(),
            (_, Some(target)) => target.raw(),
            _ => 0,
        }
    }
}

impl Operation {
    /// The operand that this operation reads, if it reads one.
    pub fn read_operand(self) -> (operand: Option<Value>)
        ensures
            operand == self.value_operand(),
    {
        match self {
            Operation::Ora(operand)
            | Operation::And(operand)
            | Operation::Eor(operand)
            | Operation::Adc(operand)
            | Operation::Lda(operand)
            | Operation::Cmp(operand)
            | Operation::Sbc(operand)
            | Operation::Bit(operand)
            | Operation::Ldy(operand)
            | Operation::Ldx(operand)
            | Operation::Cpy(operand)
            | Operation::Cpx(operand) => Some(operand),
            _ => None,
        }
    }

    /// The location that this operation writes to, changes or jumps to, if
    /// it has one.
    pub fn target(self) -> (target: Option<Location>)
        ensures
            target == self.location_operand(),
    {
        match self {
            Operation::Sta(target)
            | Operation::Stx(target)
            | Operation::Sty(target)
            | Operation::Asl(target)
            | Operation::Rol(target)
            | Operation::Lsr(target)
            | Operation::Ror(target)
            | Operation::Dec(target)
            | Operation::Inc(target)
            | Operation::Bpl(target)
            | Operation::Bmi(target)
            | Operation::Bvc(target)
            | Operation::Bvs(target)
            | Operation::Bcc(target)
            | Operation::Bcs(target)
            | Operation::Bne(target)
            | Operation::Beq(target)
            | Operation::Jmp(target)
            | Operation::Jsr(target) => Some(target),
            _ => None,
        }
    }
}

/// Whether some operation is encoded by `opcode`.
pub open spec fn is_legal(opcode: Int) -> bool {
    exists|operation: Operation| operation.opcode() == Some(opcode)
}

/// An opcode and the operand that follows it determine the operation.
pub proof fn lemma_encoding_is_unique(first: Operation, second: Operation)
    requires
        first.opcode() is Some,
        first.opcode() == second.opcode(),
        first.operand_raw() == second.operand_raw(),
    ensures
        first == second,
{
}

} // verus!
