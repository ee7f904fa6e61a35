//! The executor: what each operation does to the registers and to memory.
//!
//! The arithmetic is stated over the integers: a sum is the sum, its carry
//! says that the sum left the range of a byte, its overflow that the sum of
//! the operands read as signed numbers left the signed range.

use vstd::prelude::*;

use crate::cpu::addressing_mode::{signed, wrap_address, wrap_byte, Location, Value};
use crate::cpu::error::Error;
use crate::cpu::operation::Operation;
use crate::cpu::registers;
use crate::cpu::registers::{flag_value, Carry, NumberMode, Overflow};
use crate::cpu::{Cpu, Int, State};
use crate::memory;
use crate::memory::{high_byte, is_mapped, low_byte, word_of, Address};

verus! {

/// The outcome of an addition or a subtraction.
#[derive(Clone, Copy, Debug, PartialEq, Eq, Structural)]
pub struct Sum {
    pub result: Int,
    pub carry: bool,
    pub overflow: bool,
}

/// The outcome of a shift or a rotation: the shifted byte, and the bit
/// that left it.
#[derive(Clone, Copy, Debug, PartialEq, Eq, Structural)]
pub struct Shifted {
    pub result: Int,
    pub carry: bool,
}

/// What an operation that writes memory writes, and the registers after
/// it.
#[derive(Clone, Copy, Debug, PartialEq, Eq, Structural)]
pub struct Written {
    pub byte: Int,
    pub register: registers::Nes,
}

/// Accumulator plus operand plus carry: the result wraps at 8 bits, the
/// carry is set where the unsigned sum exceeds 255, the overflow where the
/// signed sum leaves -128..=127.
pub open spec fn sum_of(accumulator: Int, operand: Int, carry: bool) -> Sum {
    let total = accumulator + operand + flag_value(carry);
    let signed_total = signed(accumulator) + signed(operand) + flag_value(carry);
    Sum {
        result: wrap_byte(total),
        carry: total > 0xFF,
        overflow: signed_total < -128 || signed_total > 127,
    }
}

/// Accumulator minus operand minus the borrow, which is the carry
/// inverted: the carry is set where no borrow was needed.
pub open spec fn difference_of(accumulator: Int, operand: Int, carry: bool) -> Sum {
    let total = accumulator - operand - flag_value(!carry);
    let signed_total = signed(accumulator) - signed(operand) - flag_value(!carry);
    Sum {
        result: wrap_byte(total),
        carry: total >= 0,
        overflow: signed_total < -128 || signed_total > 127,
    }
}

/// `value` moved one bit to the left, with `carry` entering at bit 0.
pub open spec fn left_of(value: Int, carry: bool) -> Shifted {
    Shifted { result: wrap_byte(2 * value + flag_value(carry)), carry: value >= 0x80 }
}

/// `value` moved one bit to the right, with `carry` entering at bit 7.
pub open spec fn right_of(value: Int, carry: bool) -> Shifted {
    Shifted { result: (value / 2 + 0x80 * flag_value(carry)) as Int, carry: value % 2 == 1 }
}

/// Adds with carry.
pub fn adc(accumulator: Int, operand: Int, carry: bool) -> (sum: Sum)
    ensures
        sum == sum_of(accumulator, operand, carry),
{
    let carry_in: u16 = if carry {
        1
    } else {
        0
    };
    let total: u16 = accumulator as u16 + operand as u16 + carry_in;
    let result: u8 = (total % 0x100) as u8;
    let overflow = (accumulator ^ result) & (operand ^ result) & 0x80 != 0;
    assert(overflow == ((accumulator >= 0x80) != (result >= 0x80) && (operand >= 0x80) != (result
        >= 0x80))) by (bit_vector)
        requires
            overflow == ((accumulator ^ result) & (operand ^ result) & 0x80 != 0),
    ;
    Sum { result, carry: total > 0xFF, overflow }
}

/// Subtracts with borrow: adds the complement of the operand.
pub fn sbc(accumulator: Int, operand: Int, carry: bool) -> (sum: Sum)
    ensures
        sum == difference_of(accumulator, operand, carry),
{
    let complement = operand ^ 0xFF;
    assert(complement == 0xFF - operand) by (bit_vector)
        requires
            complement == operand ^ 0xFF,
    ;
    adc(accumulator, complement, carry)
}

/// Shifts or rotates one bit to the left.
pub fn shift_left(value: Int, carry: bool) -> (shifted: Shifted)
    ensures
        shifted == left_of(value, carry),
{
    let low: u8 = if carry {
        1
    } else {
        0
    };
    let moved = value << 1;
    assert(moved == (2 * value) % 0x100 && moved % 2 == 0) by (bit_vector)
        requires
            moved == value << 1,
    ;
    Shifted { result: moved + low, carry: value >= 0x80 }
}

/// Shifts or rotates one bit to the right.
pub fn shift_right(value: Int, carry: bool) -> (shifted: Shifted)
    ensures
        shifted == right_of(value, carry),
{
    let high: u8 = if carry {
        0x80
    } else {
        0
    };
    let moved = value >> 1;
    assert(moved == value / 2) by (bit_vector)
        requires
            moved == value >> 1,
    ;
    Shifted { result: moved + high, carry: value % 2 == 1 }
}

/// The address of the stack cell that the stack pointer names: the stack
/// is the page from 0x0100 to 0x01FF.
pub open spec fn stack_address(stack_pointer: Int) -> Address {
    (0x0100 + stack_pointer) as Address
}

impl registers::Nes {
    /// The registers after adding `operand` and the carry to the
    /// accumulator.
    pub open spec fn added(self, operand: Int) -> registers::Nes {
        let sum = sum_of(self.accumulator, operand, self.carry());
        self.with_accumulator(sum.result).with_carry(sum.carry).with_overflow(sum.overflow)
    }

    /// The registers after subtracting `operand` and the borrow from the
    /// accumulator.
    pub open spec fn subtracted(self, operand: Int) -> registers::Nes {
        let sum = difference_of(self.accumulator, operand, self.carry());
        self.with_accumulator(sum.result).with_carry(sum.carry).with_overflow(sum.overflow)
    }

    /// The registers after comparing `register` with `operand`: the flags
    /// of `register - operand`, and the carry where no borrow was needed.
    pub open spec fn compared(self, register: Int, operand: Int) -> registers::Nes {
        self.with_result(wrap_byte(register - operand)).with_carry(register >= operand)
    }

    /// The registers after a shift of the accumulator.
    pub open spec fn with_shifted(self, shifted: Shifted) -> registers::Nes {
        self.with_accumulator(shifted.result).with_carry(shifted.carry)
    }

    /// The byte to write and the registers after a shift of memory.
    pub open spec fn with_written(self, shifted: Shifted) -> Written {
        Written {
            byte: shifted.result,
            register: self.with_result(shifted.result).with_carry(shifted.carry),
        }
    }

    /// The registers after testing the bits of `operand` against the
    /// accumulator: zero where they share no bit, negative and overflow
    /// from bits 7 and 6 of the operand.
    pub open spec fn bit_tested(self, operand: Int) -> registers::Nes {
        self.with_result_status(
            registers::ResultStatus {
                zero: self.accumulator & operand == 0,
                negative: operand >= 0x80,
                overflow: Overflow::of((operand / 0x40) % 2 == 1),
                carry: self.status.result_status.carry,
            },
        )
    }
}

impl State {
    /// This state with other registers.
    pub open spec fn with_register(self, register: registers::Nes) -> State {
        State { register, ..self }
    }

    /// This state with `value` written at `address`.
    pub open spec fn written(self, address: Address, value: Int) -> State {
        State { memory: self.memory.insert(address, value), ..self }
    }

    /// This state with `value` pushed on the stack: written where the
    /// stack pointer points, which then moves down by one.
    pub open spec fn pushed(self, value: Int) -> State {
        State {
            register: registers::Nes {
                stack_pointer: wrap_byte(self.register.stack_pointer - 1),
                ..self.register
            },
            memory: self.memory.insert(stack_address(self.register.stack_pointer), value),
            ..self
        }
    }

    /// The byte that a pull takes from the stack: the one above the stack
    /// pointer.
    pub open spec fn top(self) -> Int {
        self.memory[stack_address(wrap_byte(self.register.stack_pointer + 1))]
    }

    /// This state with one byte pulled from the stack: the stack pointer
    /// moves up by one.
    pub open spec fn pulled(self) -> State {
        self.with_register(
            registers::Nes {
                stack_pointer: wrap_byte(self.register.stack_pointer + 1),
                ..self.register
            },
        )
    }

    /// This state with the program counter at `target`.
    pub open spec fn jumped(self, target: Address) -> State {
        self.with_register(registers::Nes { program_counter: target, ..self.register })
    }

    /// This state after a branch: the program counter is at the target
    /// where the branch is taken.
    pub open spec fn branched(self, taken: bool, target: Location) -> State {
        if taken {
            self.jumped(target.address(self))
        } else {
            self
        }
    }

    /// This state after a call: the address of the last byte of the
    /// calling instruction is pushed, high byte first, and the program
    /// counter is at `target`.
    pub open spec fn called(self, target: Address) -> State {
        let last = wrap_address(self.register.program_counter - 1);
        self.pushed(high_byte(last)).pushed(low_byte(last)).jumped(target)
    }

    /// This state after a return: the address pulled from the stack, low
    /// byte first, plus one is the program counter.
    pub open spec fn returned(self) -> State {
        let low = self.top();
        let high = self.pulled().top();
        self.pulled().pulled().jumped(wrap_address(word_of(low, high) + 1))
    }
}

/// Whether `operation` is a branch that `register` lets be taken.
pub open spec fn branch_taken(operation: Operation, register: registers::Nes) -> bool {
    match operation {
        Operation::Bpl(_) => !register.negative(),
        Operation::Bmi(_) => register.negative(),
        Operation::Bvc(_) => !register.overflow(),
        Operation::Bvs(_) => register.overflow(),
        Operation::Bcc(_) => !register.carry(),
        Operation::Bcs(_) => register.carry(),
        Operation::Bne(_) => !register.zero(),
        Operation::Beq(_) => register.zero(),
        _ => false,
    }
}

/// An operation that reads an operand and changes registers only:
/// arithmetic, logic, comparisons and loads.
pub open spec fn reads(operation: Operation) -> bool {
    operation.value_operand() is Some
}

/// An operation that writes a byte of memory: stores, shifts and
/// increments of memory.
pub open spec fn writes(operation: Operation) -> bool {
    match operation {
        Operation::Sta(_)
        | Operation::Stx(_)
        | Operation::Sty(_)
        | Operation::Asl(_)
        | Operation::Rol(_)
        | Operation::Lsr(_)
        | Operation::Ror(_)
        | Operation::Dec(_)
        | Operation::Inc(_) => true,
        _ => false,
    }
}

/// An operation that moves the program counter or the stack, or stops the
/// run.
pub open spec fn flows(operation: Operation) -> bool {
    match operation {
        Operation::Bpl(_)
        | Operation::Bmi(_)
        | Operation::Bvc(_)
        | Operation::Bvs(_)
        | Operation::Bcc(_)
        | Operation::Bcs(_)
        | Operation::Bne(_)
        | Operation::Beq(_)
        | Operation::Jmp(_)
        | Operation::Jsr(_)
        | Operation::Rts
        | Operation::Rti
        | Operation::Pha
        | Operation::Php
        | Operation::Pla
        | Operation::Plp
        | Operation::Brk => true,
        _ => false,
    }
}

/// Whether executing `operation` in `state` reads and writes mapped memory
/// only. The stack is always mapped; an operand is where its pointer
/// cells and its address are; a branch that is not taken resolves nothing.
pub open spec fn accessible(state: State, operation: Operation) -> bool {
    match operation {
        Operation::Sta(target)
        | Operation::Stx(target)
        | Operation::Sty(target)
        | Operation::Asl(target)
        | Operation::Rol(target)
        | Operation::Lsr(target)
        | Operation::Ror(target)
        | Operation::Dec(target)
        | Operation::Inc(target) => target.resolvable() && is_mapped(target.address(state)),
        Operation::Jmp(target) | Operation::Jsr(target) => target.resolvable(),
        Operation::Bpl(target)
        | Operation::Bmi(target)
        | Operation::Bvc(target)
        | Operation::Bvs(target)
        | Operation::Bcc(target)
        | Operation::Bcs(target)
        | Operation::Bne(target)
        | Operation::Beq(target) => branch_taken(operation, state.register)
            ==> target.resolvable(),
        _ => match operation.value_operand() {
            Some(operand) => operand.readable(state),
            None => true,
        },
    }
}

/// Whether the executor has a case for `operation`. Returning from an
/// interrupt has none: interrupts are not delivered.
pub open spec fn implemented(operation: Operation) -> bool {
    !(operation is Rti)
}

/// The registers after an operation that reads `value` as its operand.
pub open spec fn read_result(
    register: registers::Nes,
    operation: Operation,
    value: Int,
) -> registers::Nes {
    match operation {
        Operation::Adc(_) => register.added(value),
        Operation::Sbc(_) => register.subtracted(value),
        Operation::And(_) => register.with_accumulator(register.accumulator & value),
        Operation::Ora(_) => register.with_accumulator(register.accumulator | value),
        Operation::Eor(_) => register.with_accumulator(register.accumulator ^ value),
        Operation::Bit(_) => register.bit_tested(value),
        Operation::Cmp(_) => register.compared(register.accumulator, value),
        Operation::Cpx(_) => register.compared(register.index_x, value),
        Operation::Cpy(_) => register.compared(register.index_y, value),
        Operation::Lda(_) => register.with_accumulator(value),
        Operation::Ldx(_) => register.with_index_x(value),
        Operation::Ldy(_) => register.with_index_y(value),
        _ => register,
    }
}

/// The registers after an operation that touches registers and flags
/// alone.
pub open spec fn register_result(register: registers::Nes, operation: Operation) -> registers::Nes {
    let r = register;
    match operation {
        Operation::AslAcc => r.with_shifted(left_of(r.accumulator, false)),
        Operation::RolAcc => r.with_shifted(left_of(r.accumulator, r.carry())),
        Operation::LsrAcc => r.with_shifted(right_of(r.accumulator, false)),
        Operation::RorAcc => r.with_shifted(right_of(r.accumulator, r.carry())),
        Operation::Inx => r.with_index_x(wrap_byte(r.index_x + 1)),
        Operation::Dex => r.with_index_x(wrap_byte(r.index_x - 1)),
        Operation::Iny => r.with_index_y(wrap_byte(r.index_y + 1)),
        Operation::Dey => r.with_index_y(wrap_byte(r.index_y - 1)),
        Operation::Tax => r.with_index_x(r.accumulator),
        Operation::Tay => r.with_index_y(r.accumulator),
        Operation::Txa => r.with_accumulator(r.index_x),
        Operation::Tya => r.with_accumulator(r.index_y),
        Operation::Tsx => r.with_index_x(r.stack_pointer),
        Operation::Txs => registers::Nes { stack_pointer: r.index_x, ..r },
        Operation::Sec => r.with_carry(true),
        Operation::Clc => r.with_carry(false),
        Operation::Clv => r.with_overflow(false),
        Operation::Sei => r.with_interrupt_disabled(true),
        Operation::Cli => r.with_interrupt_disabled(false),
        Operation::Sed => r.with_decimal_mode(true),
        Operation::Cld => r.with_decimal_mode(false),
        _ => r,
    }
}

/// What an operation writes to its target, which holds `current`, and the
/// registers after it. A store leaves the flags alone; a shift or an
/// increment sets zero and negative from the byte it writes.
pub open spec fn write_result(
    register: registers::Nes,
    operation: Operation,
    current: Int,
) -> Written {
    let r = register;
    match operation {
        Operation::Sta(_) => Written { byte: r.accumulator, register: r },
        Operation::Stx(_) => Written { byte: r.index_x, register: r },
        Operation::Sty(_) => Written { byte: r.index_y, register: r },
        Operation::Asl(_) => r.with_written(left_of(current, false)),
        Operation::Rol(_) => r.with_written(left_of(current, r.carry())),
        Operation::Lsr(_) => r.with_written(right_of(current, false)),
        Operation::Ror(_) => r.with_written(right_of(current, r.carry())),
        Operation::Inc(_) => Written {
            byte: wrap_byte(current + 1),
            register: r.with_result(wrap_byte(current + 1)),
        },
        Operation::Dec(_) => Written {
            byte: wrap_byte(current - 1),
            register: r.with_result(wrap_byte(current - 1)),
        },
        _ => Written { byte: current, register: r },
    }
}

/// The state that executing `operation` in `state` leads to.
///
/// An operation that reads changes registers by the operand it reads; one
/// that writes puts a byte at its target; one that flows moves the program
/// counter or the stack; the others touch registers and flags alone.
/// Breaking stops the run. Returning from an interrupt, for which the
/// executor has no case, changes nothing.
pub open spec fn executed(state: State, operation: Operation) -> State {
    let r = state.register;
    if reads(operation) {
        state.with_register(
            read_result(r, operation, operation.value_operand()->0.value_in(state)),
        )
    } else if writes(operation) {
        let address = operation.location_operand()->0.address(state);
        let written = write_result(r, operation, state.memory[address]);
        state.written(address, written.byte).with_register(written.register)
    } else if flows(operation) {
        match operation {
            Operation::Jmp(target) => state.jumped(target.address(state)),
            Operation::Jsr(target) => state.called(target.address(state)),
            Operation::Rts => state.returned(),
            Operation::Pha => state.pushed(r.accumulator),
            Operation::Php => state.pushed(r.status.pushed_byte()),
            Operation::Pla => state.pulled().with_register(
                state.pulled().register.with_accumulator(state.top()),
            ),
            Operation::Plp => state.pulled().with_register(
                registers::Nes {
                    status: r.status.pulled(state.top()),
                    ..state.pulled().register
                },
            ),
            Operation::Brk => State { stopped: true, ..state },
            Operation::Rti => state,
            _ => state.branched(branch_taken(operation, r), operation.location_operand()->0),
        }
    } else {
        state.with_register(register_result(r, operation))
    }
}

/// Compares `left` with `operand`.
pub fn compare(register: registers::Nes, left: Int, operand: Int) -> (next: registers::Nes)
    ensures
        next == register.compared(left, operand),
{
    register.result_set(left.wrapping_sub(operand)).carry_set(left >= operand)
}

/// Tests the bits of `operand` against the accumulator.
pub fn bit_test(register: registers::Nes, operand: Int) -> (next: registers::Nes)
    ensures
        next == register.bit_tested(operand),
{
    let mut next = register;
    next.status.result_status.zero = register.accumulator & operand == 0;
    next.status.result_status.negative = operand >= 0x80;
    next.status.result_status.overflow = Overflow::from_bool((operand / 0x40) % 2 == 1);
    next
}

/// The registers after an operation that reads `value` as its operand.
pub fn after_read(register: registers::Nes, operation: Operation, value: Int) -> (next:
    registers::Nes)
    ensures
        next == read_result(register, operation, value),
{
    let r = register;
    let carry = r.status.result_status.carry.to_bool();
    match operation {
        Operation::Adc(_) => {
            let sum = adc(r.accumulator, value, carry);
            r.accumulator_set(sum.result).carry_set(sum.carry).overflow_set(sum.overflow)
        },
        Operation::Sbc(_) => {
            let sum = sbc(r.accumulator, value, carry);
            r.accumulator_set(sum.result).carry_set(sum.carry).overflow_set(sum.overflow)
        },
        Operation::And(_) => r.accumulator_set(r.accumulator & value),
        Operation::Ora(_) => r.accumulator_set(r.accumulator | value),
        Operation::Eor(_) => r.accumulator_set(r.accumulator ^ value),
        Operation::Bit(_) => bit_test(r, value),
        Operation::Cmp(_) => compare(r, r.accumulator, value),
        Operation::Cpx(_) => compare(r, r.index_x, value),
        Operation::Cpy(_) => compare(r, r.index_y, value),
        Operation::Lda(_) => r.accumulator_set(value),
        Operation::Ldx(_) => r.index_x_set(value),
        Operation::Ldy(_) => r.index_y_set(value),
        _ => r,
    }
}

/// The registers after a shift of the accumulator.
pub fn shift_accumulator(register: registers::Nes, shifted: Shifted) -> (next: registers::Nes)
    ensures
        next == register.with_shifted(shifted),
{
    register.accumulator_set(shifted.result).carry_set(shifted.carry)
}

/// The byte to write and the registers after a shift of memory.
pub fn shift_memory(register: registers::Nes, shifted: Shifted) -> (written: Written)
    ensures
        written == register.with_written(shifted),
{
    Written {
        byte: shifted.result,
        register: register.result_set(shifted.result).carry_set(shifted.carry),
    }
}

/// The registers after an operation that only sets or clears a flag.
pub fn after_flag(register: registers::Nes, operation: Operation) -> (next: registers::Nes)
    requires
        operation is Sec || operation is Clc || operation is Clv || operation is Sei
            || operation is Cli || operation is Sed || operation is Cld,
    ensures
        next == register_result(register, operation),
{
    let mut next = register;
    match operation {
        Operation::Sec => {
            next.status.result_status.carry = Carry::UnsignedOverflow;
        },
        Operation::Clc => {
            next.status.result_status.carry = Carry::NoOverflow;
        },
        Operation::Clv => {
            next.status.result_status.overflow = Overflow::NoOverflow;
        },
        Operation::Sei => {
            next.status.interrupt_status.disabled = true;
        },
        Operation::Cli => {
            next.status.interrupt_status.disabled = false;
        },
        Operation::Sed => {
            next.status.decimal_mode = NumberMode::BinaryCodedDecimal;
        },
        _ => {
            next.status.decimal_mode = NumberMode::Binary;
        },
    }
    next
}

/// The registers after an operation that touches registers and flags
/// alone.
pub fn after_register(register: registers::Nes, operation: Operation) -> (next: registers::Nes)
    ensures
        next == register_result(register, operation),
{
    let r = register;
    let carry = r.status.result_status.carry.to_bool();
    match operation {
        Operation::AslAcc => shift_accumulator(r, shift_left(r.accumulator, false)),
        Operation::RolAcc => shift_accumulator(r, shift_left(r.accumulator, carry)),
        Operation::LsrAcc => shift_accumulator(r, shift_right(r.accumulator, false)),
        Operation::RorAcc => shift_accumulator(r, shift_right(r.accumulator, carry)),
        Operation::Inx => r.index_x_set(r.index_x.wrapping_add(1)),
        Operation::Dex => r.index_x_set(r.index_x.wrapping_sub(1)),
        Operation::Iny => r.index_y_set(r.index_y.wrapping_add(1)),
        Operation::Dey => r.index_y_set(r.index_y.wrapping_sub(1)),
        Operation::Tax => r.index_x_set(r.accumulator),
        Operation::Tay => r.index_y_set(r.accumulator),
        Operation::Txa => r.accumulator_set(r.index_x),
        Operation::Tya => r.accumulator_set(r.index_y),
        Operation::Tsx => r.index_x_set(r.stack_pointer),
        Operation::Txs => registers::Nes { stack_pointer: r.index_x, ..r },
        Operation::Sec
        | Operation::Clc
        | Operation::Clv
        | Operation::Sei
        | Operation::Cli
        | Operation::Sed
        | Operation::Cld => after_flag(r, operation),
        _ => r,
    }
}

/// What an operation writes to its target, which holds `current`, and the
/// registers after it.
pub fn after_write(register: registers::Nes, operation: Operation, current: Int) -> (written:
    Written)
    ensures
        written == write_result(register, operation, current),
{
    let r = register;
    let carry = r.status.result_status.carry.to_bool();
    match operation {
        Operation::Sta(_) => Written { byte: r.accumulator, register: r },
        Operation::Stx(_) => Written { byte: r.index_x, register: r },
        Operation::Sty(_) => Written { byte: r.index_y, register: r },
        Operation::Asl(_) => shift_memory(r, shift_left(current, false)),
        Operation::Rol(_) => shift_memory(r, shift_left(current, carry)),
        Operation::Lsr(_) => shift_memory(r, shift_right(current, false)),
        Operation::Ror(_) => shift_memory(r, shift_right(current, carry)),
        Operation::Inc(_) => {
            let byte = current.wrapping_add(1);
            Written { byte, register: r.result_set(byte) }
        },
        Operation::Dec(_) => {
            let byte = current.wrapping_sub(1);
            Written { byte, register: r.result_set(byte) }
        },
        _ => Written { byte: current, register: r },
    }
}

/// Whether `operation` is a branch that the flags let be taken.
pub fn takes_branch(register: registers::Nes, operation: Operation) -> (taken: bool)
    ensures
        taken == branch_taken(operation, register),
{
    let status = register.status.result_status;
    match operation {
        Operation::Bpl(_) => !status.negative,
        Operation::Bmi(_) => status.negative,
        Operation::Bvc(_) => !status.overflow.to_bool(),
        Operation::Bvs(_) => status.overflow.to_bool(),
        Operation::Bcc(_) => !status.carry.to_bool(),
        Operation::Bcs(_) => status.carry.to_bool(),
        Operation::Bne(_) => !status.zero,
        Operation::Beq(_) => status.zero,
        _ => false,
    }
}

impl Operation {
    /// Whether this operation writes a byte of memory.
    pub fn is_write(self) -> (writes: bool)
        ensures
            writes == self::writes(self),
    {
        match self {
            Operation::Sta(_)
            | Operation::Stx(_)
            | Operation::Sty(_)
            | Operation::Asl(_)
            | Operation::Rol(_)
            | Operation::Lsr(_)
            | Operation::Ror(_)
            | Operation::Dec(_)
            | Operation::Inc(_) => true,
            _ => false,
        }
    }

    /// Whether this operation moves the program counter or the stack, or
    /// stops the run.
    pub fn is_flow(self) -> (flows: bool)
        ensures
            flows == self::flows(self),
    {
        match self {
            Operation::Bpl(_)
            | Operation::Bmi(_)
            | Operation::Bvc(_)
            | Operation::Bvs(_)
            | Operation::Bcc(_)
            | Operation::Bcs(_)
            | Operation::Bne(_)
            | Operation::Beq(_)
            | Operation::Jmp(_)
            | Operation::Jsr(_)
            | Operation::Rts
            | Operation::Rti
            | Operation::Pha
            | Operation::Php
            | Operation::Pla
            | Operation::Plp
            | Operation::Brk => true,
            _ => false,
        }
    }
}

impl Cpu {
    /// Puts `result` into the accumulator and sets the zero and negative
    /// flags from it.
    pub fn set_accumulator(&mut self, result: Int)
        ensures
            final(self)@ == old(self)@.with_register(
                old(self)@.register.with_accumulator(result),
            ),
    {
        self.register = self.register.accumulator_set(result);
    }

    /// Adds the operand and the carry flag to the accumulator.
    pub fn add_with_carry(&mut self, source: Value)
        requires
            source.readable(old(self)@),
        ensures
            final(self)@ == executed(old(self)@, Operation::Adc(source)),
    {
        let value = source.value(self);
        self.register = after_read(self.register, Operation::Adc(source), value);
    }

    /// Replaces the accumulator by its bitwise AND with the operand.
    pub fn and(&mut self, source: Value)
        requires
            source.readable(old(self)@),
        ensures
            final(self)@ == executed(old(self)@, Operation::And(source)),
    {
        let value = source.value(self);
        self.register = after_read(self.register, Operation::And(source), value);
    }

    /// Pushes `value` on the stack.
    pub fn push(&mut self, value: Int)
        ensures
            final(self)@ == old(self)@.pushed(value),
    {
        let address = 0x0100 + self.register.stack_pointer as u16;
        self.memory.write(address, value);
        self.register.stack_pointer = self.register.stack_pointer.wrapping_sub(1);
    }

    /// Pulls a byte from the stack.
    pub fn pull(&mut self) -> (value: Int)
        ensures
            value == old(self)@.top(),
            final(self)@ == old(self)@.pulled(),
    {
        self.register.stack_pointer = self.register.stack_pointer.wrapping_add(1);
        self.memory.read(0x0100 + self.register.stack_pointer as u16)
    }

    /// Calls the subroutine at `target`.
    fn call(&mut self, target: Address)
        ensures
            final(self)@ == old(self)@.called(target),
    {
        let last = self.register.program_counter.wrapping_sub(1);
        self.push((last / 0x100) as u8);
        self.push((last % 0x100) as u8);
        self.register.program_counter = target;
    }

    /// Returns from a subroutine.
    fn return_from_call(&mut self)
        ensures
            final(self)@ == old(self)@.returned(),
    {
        let low = self.pull();
        let high = self.pull();
        self.register.program_counter = ((high as u16) * 0x100 + low as u16).wrapping_add(1);
    }

    /// Whether `target` can be written: its pointer cells and its address
    /// are mapped.
    fn is_writable(&self, target: Location) -> (writable: bool)
        ensures
            writable == (target.resolvable() && is_mapped(target.address(self@))),
    {
        if target.is_resolvable() {
            let address = target.location(self);
            memory::Nes::maps(address)
        } else {
            false
        }
    }

    /// Whether executing `operation` reads and writes mapped memory only.
    pub fn can_execute(&self, operation: Operation) -> (accessible: bool)
        ensures
            accessible == self::accessible(self@, operation),
    {
        match operation {
            Operation::Sta(target)
            | Operation::Stx(target)
            | Operation::Sty(target)
            | Operation::Asl(target)
            | Operation::Rol(target)
            | Operation::Lsr(target)
            | Operation::Ror(target)
            | Operation::Dec(target)
            | Operation::Inc(target) => self.is_writable(target),
            Operation::Jmp(target) | Operation::Jsr(target) => target.is_resolvable(),
            Operation::Bpl(target)
            | Operation::Bmi(target)
            | Operation::Bvc(target)
            | Operation::Bvs(target)
            | Operation::Bcc(target)
            | Operation::Bcs(target)
            | Operation::Bne(target)
            | Operation::Beq(target) => !takes_branch(self.register, operation)
                || target.is_resolvable(),
            Operation::Ora(operand)
            | Operation::And(operand)
            | Operation::Eor(operand)
            | Operation::Adc(operand)
            | Operation::Lda(operand)
            | Operation::Cmp(operand)
            | Operation::Sbc(operand)
            | Operation::Bit(operand)
            | Operation::Ldy(operand)
            | Operation::Ldx(operand)
            | Operation::Cpy(operand)
            | Operation::Cpx(operand) => operand.is_readable(self),
            _ => true,
        }
    }

    /// Executes a jump, a call or a branch to `target`.
    fn execute_jump(&mut self, operation: Operation, target: Location)
        requires
            flows(operation),
            operation.location_operand() == Some(target),
            accessible(old(self)@, operation),
        ensures
            final(self)@ == executed(old(self)@, operation),
    {
        match operation {
            Operation::Jsr(_) => {
                let address = target.location(self);
                self.call(address);
            },
            Operation::Jmp(_) => {
                self.register.program_counter = target.location(self);
            },
            _ => {
                if takes_branch(self.register, operation) {
                    self.register.program_counter = target.location(self);
                }
            },
        }
    }

    /// Executes an operation on the stack, a return, or a break.
    fn execute_stack(&mut self, operation: Operation)
        requires
            flows(operation),
            implemented(operation),
            operation.location_operand() is None,
        ensures
            final(self)@ == executed(old(self)@, operation),
    {
        match operation {
            Operation::Rts => self.return_from_call(),
            Operation::Pha => self.push(self.register.accumulator),
            Operation::Php => self.push(self.register.status.to_byte()),
            Operation::Pla => {
                let value = self.pull();
                self.register = self.register.accumulator_set(value);
            },
            Operation::Plp => {
                let status = self.register.status;
                let value = self.pull();
                self.register.status = status.from_byte(value);
            },
            _ => {
                self.stop = true;
            },
        }
    }

    /// Executes the given operation.
    ///
    /// Returning from an interrupt is not implemented: it is an error that
    /// names the operation and leaves the processor as it was.
    pub fn execute(&mut self, operation: Operation) -> (result: Result<(), Error>)
        requires
            accessible(old(self)@, operation),
        ensures
            match result {
                Ok(_) => implemented(operation) && final(self)@ == executed(
                    old(self)@,
                    operation,
                ),
                Err(error) => {
                    &&& !implemented(operation)
                    &&& error == Error::UnimplementedOperation(operation)
                    &&& final(self)@ == old(self)@
                },
            },
    {
        if let Operation::Rti = operation {
            return Err(Error::UnimplementedOperation(operation));
        }
        let target = operation.target();
        if let Some(operand) = operation.read_operand() {
            let value = operand.value(self);
            self.register = after_read(self.register, operation, value);
        } else if operation.is_write() {
            if let Some(at) = target {
                let address = at.location(self);
                let written = after_write(self.register, operation, self.memory.read(address));
                self.memory.write(address, written.byte);
                self.register = written.register;
            }
        } else if operation.is_flow() {
            match target {
                Some(at) => self.execute_jump(operation, at),
                None => self.execute_stack(operation),
            }
        } else {
            self.register = after_register(self.register, operation);
        }
        Ok(())
    }
}

} // verus!
