//! The register file: program counter, stack pointer, accumulator, the two
//! index registers and the status flags.

use vstd::prelude::*;

use crate::cpu::Int;
use crate::memory::Address;

verus! {

/// Whether the last operation caused an *unsigned* overflow.
#[derive(Debug, Clone, Copy, PartialEq, Eq, Structural)]
pub enum Carry {
    NoOverflow,
    UnsignedOverflow,
}

impl Carry {
    /// Whether the carry flag is set.
    pub open spec fn is_set(self) -> bool {
        self == Carry::UnsignedOverflow
    }

    /// The carry flag that stands for `set`.
    pub fn from_bool(set: bool) -> (carry: Self)
        ensures
            carry == Carry::of(set),
    {
        if set {
            Carry::UnsignedOverflow
        } else {
            Carry::NoOverflow
        }
    }

    /// Whether the flag is set.
    pub fn to_bool(self) -> (set: bool)
        ensures
            set == self.is_set(),
    {
        match self {
            Carry::NoOverflow => false,
            Carry::UnsignedOverflow => true,
        }
    }
}

impl Default for Carry {
    /// The carry flag, clear.
    fn default() -> (carry: Self)
        ensures
            carry == Carry::NoOverflow,
    {
        Carry::NoOverflow
    }
}

/// Whether arithmetic treats values as binary or as binary-coded decimal.
///
/// Decimal mode is not supported on NES chips: the flag is tracked, and
/// arithmetic stays binary.
#[derive(Debug, Clone, Copy, PartialEq, Eq, Structural)]
pub enum NumberMode {
    Binary,
    BinaryCodedDecimal,
}

impl NumberMode {
    /// Whether the decimal-mode flag is set.
    pub open spec fn is_set(self) -> bool {
        self == NumberMode::BinaryCodedDecimal
    }

    /// The decimal-mode flag that stands for `set`.
    pub fn from_bool(set: bool) -> (mode: Self)
        ensures
            mode == NumberMode::of(set),
    {
        if set {
            NumberMode::BinaryCodedDecimal
        } else {
            NumberMode::Binary
        }
    }

    /// Whether the flag is set.
    pub fn to_bool(self) -> (set: bool)
        ensures
            set == self.is_set(),
    {
        match self {
            NumberMode::Binary => false,
            NumberMode::BinaryCodedDecimal => true,
        }
    }
}

impl Default for NumberMode {
    /// Binary arithmetic.
    fn default() -> (mode: Self)
        ensures
            mode == NumberMode::Binary,
    {
        NumberMode::Binary
    }
}

/// Whether the last operation caused a *signed* overflow.
///
/// For example 0x40 (64) + 0x40 (64) = 0x80 (-128) overflows.
#[derive(Debug, Clone, Copy, PartialEq, Eq, Structural)]
pub enum Overflow {
    NoOverflow,
    SignedOverflow,
}

impl Overflow {
    /// Whether the overflow flag is set.
    pub open spec fn is_set(self) -> bool {
        self == Overflow::SignedOverflow
    }

    /// The overflow flag that stands for `set`.
    pub fn from_bool(set: bool) -> (overflow: Self)
        ensures
            overflow == Overflow::of(set),
    {
        if set {
            Overflow::SignedOverflow
        } else {
            Overflow::NoOverflow
        }
    }

    /// Whether the flag is set.
    pub fn to_bool(self) -> (set: bool)
        ensures
            set == self.is_set(),
    {
        match self {
            Overflow::NoOverflow => false,
            Overflow::SignedOverflow => true,
        }
    }
}

impl Default for Overflow {
    /// The overflow flag, clear.
    fn default() -> (overflow: Self)
        ensures
            overflow == Overflow::NoOverflow,
    {
        Overflow::NoOverflow
    }
}

/// The flags that reflect the outcome of the last flag-affecting operation.
#[derive(Debug, Clone, Copy, PartialEq, Eq, Structural)]
pub struct ResultStatus {
    /// Whether the result of the last operation was zero.
    pub zero: bool,
    /// Whether the most-significant bit of the last result was one.
    pub negative: bool,
    pub carry: Carry,
    pub overflow: Overflow,
}

impl Default for ResultStatus {
    /// Every flag clear.
    fn default() -> (status: Self)
        ensures
            status == ResultStatus::cleared(),
    {
        ResultStatus {
            zero: false,
            negative: false,
            carry: Carry::NoOverflow,
            overflow: Overflow::NoOverflow,
        }
    }
}

impl ResultStatus {
    /// The result status with every flag clear.
    pub open spec fn cleared() -> Self {
        ResultStatus {
            zero: false,
            negative: false,
            carry: Carry::NoOverflow,
            overflow: Overflow::NoOverflow,
        }
    }
}

/// The flags that bear on interrupts.
#[derive(Debug, Clone, Copy, PartialEq, Eq, Structural)]
pub struct InterruptStatus {
    /// Whether *maskable* interrupts are disabled.
    pub disabled: bool,
    /// Whether a break instruction has been executed.
    pub break_command: bool,
}

impl Default for InterruptStatus {
    /// Every flag clear.
    fn default() -> (status: Self)
        ensures
            status == (InterruptStatus { disabled: false, break_command: false }),
    {
        InterruptStatus { disabled: false, break_command: false }
    }
}

/// The processor status flags.
#[derive(Debug, Clone, Copy, PartialEq, Eq, Structural)]
pub struct StatusRegister {
    pub result_status: ResultStatus,
    pub interrupt_status: InterruptStatus,
    pub decimal_mode: NumberMode,
}

impl StatusRegister {
    /// The status register with every flag clear.
    pub open spec fn cleared() -> Self {
        StatusRegister {
            result_status: ResultStatus::cleared(),
            interrupt_status: InterruptStatus { disabled: false, break_command: false },
            decimal_mode: NumberMode::Binary,
        }
    }
}

/// One where the flag is set, zero where it is clear.
pub open spec fn flag_value(set: bool) -> int {
    if set {
        1
    } else {
        0
    }
}

impl StatusRegister {
    /// The status as a byte on the stack: carry in bit 0, then zero,
    /// interrupt-disable, decimal, break, an unused bit, overflow, and
    /// negative in bit 7. The break bit and the unused bit are always
    /// pushed as one.
    pub open spec fn pushed_byte(self) -> Int {
        (flag_value(self.result_status.carry.is_set()) + 2 * flag_value(self.result_status.zero)
            + 4 * flag_value(self.interrupt_status.disabled) + 8 * flag_value(
            self.decimal_mode.is_set(),
        ) + 0x30 + 0x40 * flag_value(self.result_status.overflow.is_set()) + 0x80 * flag_value(
            self.result_status.negative,
        )) as Int
    }

    /// The status after pulling `byte` from the stack: every flag is taken
    /// from its bit, but the break flag, which stays.
    pub open spec fn pulled(self, byte: Int) -> StatusRegister {
        StatusRegister {
            result_status: ResultStatus {
                carry: Carry::of(byte % 2 == 1),
                zero: (byte / 2) % 2 == 1,
                overflow: Overflow::of((byte / 0x40) % 2 == 1),
                negative: byte >= 0x80,
            },
            interrupt_status: InterruptStatus {
                disabled: (byte / 4) % 2 == 1,
                break_command: self.interrupt_status.break_command,
            },
            decimal_mode: NumberMode::of((byte / 8) % 2 == 1),
        }
    }

    /// The status as a byte to push on the stack.
    pub fn to_byte(self) -> (byte: Int)
        ensures
            byte == self.pushed_byte(),
    {
        let mut byte: u8 = 0x30;
        if self.result_status.carry.to_bool() {
            byte = byte + 0x01;
        }
        if self.result_status.zero {
            byte = byte + 0x02;
        }
        if self.interrupt_status.disabled {
            byte = byte + 0x04;
        }
        if self.decimal_mode.to_bool() {
            byte = byte + 0x08;
        }
        if self.result_status.overflow.to_bool() {
            byte = byte + 0x40;
        }
        if self.result_status.negative {
            byte = byte + 0x80;
        }
        byte
    }

    /// The status after pulling `byte` from the stack.
    pub fn from_byte(self, byte: Int) -> (status: StatusRegister)
        ensures
            status == self.pulled(byte),
    {
        StatusRegister {
            result_status: ResultStatus {
                carry: Carry::from_bool(byte % 2 == 1),
                zero: (byte / 2) % 2 == 1,
                overflow: Overflow::from_bool((byte / 0x40) % 2 == 1),
                negative: byte >= 0x80,
            },
            interrupt_status: InterruptStatus {
                disabled: (byte / 4) % 2 == 1,
                break_command: self.interrupt_status.break_command,
            },
            decimal_mode: NumberMode::from_bool((byte / 8) % 2 == 1),
        }
    }
}

/// Pulling the byte that a status was pushed as gives that status back.
pub proof fn lemma_status_round_trip(status: StatusRegister)
    ensures
        status.pulled(status.pushed_byte()) == status,
{
}

impl Default for StatusRegister {
    /// Every flag clear.
    fn default() -> (status: Self)
        ensures
            status == StatusRegister::cleared(),
    {
        StatusRegister {
            result_status: ResultStatus::default(),
            interrupt_status: InterruptStatus::default(),
            decimal_mode: NumberMode::default(),
        }
    }
}

/// The register file.
#[derive(Debug, Clone, Copy, PartialEq, Eq, Structural)]
pub struct Nes {
    pub program_counter: Address,
    pub stack_pointer: Int,
    pub accumulator: Int,
    pub index_x: Int,
    pub index_y: Int,
    pub status: StatusRegister,
}

impl Carry {
    /// The carry flag that stands for `set`.
    pub open spec fn of(set: bool) -> Carry {
        if set {
            Carry::UnsignedOverflow
        } else {
            Carry::NoOverflow
        }
    }
}

impl Overflow {
    /// The overflow flag that stands for `set`.
    pub open spec fn of(set: bool) -> Overflow {
        if set {
            Overflow::SignedOverflow
        } else {
            Overflow::NoOverflow
        }
    }
}

impl NumberMode {
    /// The decimal-mode flag that stands for `set`.
    pub open spec fn of(set: bool) -> NumberMode {
        if set {
            NumberMode::BinaryCodedDecimal
        } else {
            NumberMode::Binary
        }
    }
}

impl Nes {
    /// Whether the carry flag is set.
    pub open spec fn carry(self) -> bool {
        self.status.result_status.carry.is_set()
    }

    /// Whether the overflow flag is set.
    pub open spec fn overflow(self) -> bool {
        self.status.result_status.overflow.is_set()
    }

    /// Whether the zero flag is set.
    pub open spec fn zero(self) -> bool {
        self.status.result_status.zero
    }

    /// Whether the negative flag is set.
    pub open spec fn negative(self) -> bool {
        self.status.result_status.negative
    }

    /// These registers with another result status.
    pub open spec fn with_result_status(self, result_status: ResultStatus) -> Nes {
        Nes { status: StatusRegister { result_status, ..self.status }, ..self }
    }

    /// These registers with the zero and negative flags set from `result`:
    /// zero where it is 0, negative where its top bit is 1.
    pub open spec fn with_result(self, result: Int) -> Nes {
        self.with_result_status(
            ResultStatus {
                zero: result == 0,
                negative: result >= 0x80,
                ..self.status.result_status
            },
        )
    }

    /// These registers with the carry flag as given.
    pub open spec fn with_carry(self, carry: bool) -> Nes {
        self.with_result_status(
            ResultStatus { carry: Carry::of(carry), ..self.status.result_status },
        )
    }

    /// These registers with the overflow flag as given.
    pub open spec fn with_overflow(self, overflow: bool) -> Nes {
        self.with_result_status(
            ResultStatus { overflow: Overflow::of(overflow), ..self.status.result_status },
        )
    }

    /// These registers with the interrupt-disable flag as given.
    pub open spec fn with_interrupt_disabled(self, disabled: bool) -> Nes {
        Nes {
            status: StatusRegister {
                interrupt_status: InterruptStatus { disabled, ..self.status.interrupt_status },
                ..self.status
            },
            ..self
        }
    }

    /// These registers with the decimal-mode flag as given.
    pub open spec fn with_decimal_mode(self, decimal: bool) -> Nes {
        Nes {
            status: StatusRegister { decimal_mode: NumberMode::of(decimal), ..self.status },
            ..self
        }
    }

    /// These registers with `result` in the accumulator and the zero and
    /// negative flags set from it.
    pub open spec fn with_accumulator(self, result: Int) -> Nes {
        Nes { accumulator: result, ..self }.with_result(result)
    }

    /// These registers with `result` in the X register and the zero and
    /// negative flags set from it.
    pub open spec fn with_index_x(self, result: Int) -> Nes {
        Nes { index_x: result, ..self }.with_result(result)
    }

    /// These registers with `result` in the Y register and the zero and
    /// negative flags set from it.
    pub open spec fn with_index_y(self, result: Int) -> Nes {
        Nes { index_y: result, ..self }.with_result(result)
    }

    /// Sets the zero and negative flags from `result`.
    pub fn result_set(self, result: Int) -> (next: Nes)
        ensures
            next == self.with_result(result),
    {
        let mut next = self;
        next.status.result_status.zero = result == 0;
        next.status.result_status.negative = result >= 0x80;
        next
    }

    /// Sets or clears the carry flag.
    pub fn carry_set(self, carry: bool) -> (next: Nes)
        ensures
            next == self.with_carry(carry),
    {
        let mut next = self;
        next.status.result_status.carry = Carry::from_bool(carry);
        next
    }

    /// Sets or clears the overflow flag.
    pub fn overflow_set(self, overflow: bool) -> (next: Nes)
        ensures
            next == self.with_overflow(overflow),
    {
        let mut next = self;
        next.status.result_status.overflow = Overflow::from_bool(overflow);
        next
    }

    /// Puts `result` into the accumulator and sets the zero and negative
    /// flags from it.
    pub fn accumulator_set(self, result: Int) -> (next: Nes)
        ensures
            next == self.with_accumulator(result),
    {
        let mut next = self;
        next.accumulator = result;
        next.result_set(result)
    }

    /// Puts `result` into the X register and sets the zero and negative
    /// flags from it.
    pub fn index_x_set(self, result: Int) -> (next: Nes)
        ensures
            next == self.with_index_x(result),
    {
        let mut next = self;
        next.index_x = result;
        next.result_set(result)
    }

    /// Puts `result` into the Y register and sets the zero and negative
    /// flags from it.
    pub fn index_y_set(self, result: Int) -> (next: Nes)
        ensures
            next == self.with_index_y(result),
    {
        let mut next = self;
        next.index_y = result;
        next.result_set(result)
    }

    /// The register file as it stands after construction: all zero, all
    /// flags clear.
    pub open spec fn zeroed() -> Self {
        Nes {
            program_counter: 0,
            stack_pointer: 0,
            accumulator: 0,
            index_x: 0,
            index_y: 0,
            status: StatusRegister::cleared(),
        }
    }
}

impl Default for Nes {
    /// Every register zero, every flag clear.
    fn default() -> (registers: Self)
        ensures
            registers == Nes::zeroed(),
    {
        Nes {
            program_counter: 0,
            stack_pointer: 0,
            accumulator: 0,
            index_x: 0,
            index_y: 0,
            status: StatusRegister::default(),
        }
    }
}

} // verus!
