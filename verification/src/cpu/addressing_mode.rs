//! Addressing modes: how the bytes that follow an opcode become an operand
//! value or a target address.
//!
//! Every mode reduces, in at most two steps, to a zero-page or an absolute
//! location, whose address is then known without reading anything further.

use vstd::pervasive::unreached;
use vstd::prelude::*;

use crate::cpu::{Cpu, Int, State};
use crate::memory;
use crate::memory::{following, is_mapped, word_in, Address};

verus! {

/// `base + index`, wrapping within one byte.
pub open spec fn wrap_byte(sum: int) -> Int {
    (sum % 0x100) as Int
}

/// `sum`, wrapping within the 16-bit address range.
pub open spec fn wrap_address(sum: int) -> Address {
    (sum % 0x1_0000) as Address
}

/// The value of `byte` read as a two's-complement signed number.
pub open spec fn signed(byte: Int) -> int {
    if byte < 0x80 {
        byte as int
    } else {
        byte - 0x100
    }
}

/// An operand that is read: a literal, or the byte at a location.
#[derive(Clone, Copy, Debug, PartialEq, Eq, Structural)]
pub enum Value {
    /// Literal values
    Immediate(Int),
    Location(Location),
}

/// An operand that denotes an address, by one of ten addressing modes.
#[derive(Clone, Copy, Debug, PartialEq, Eq, Structural)]
pub enum Location {
    ZeroPage(Int),
    Absolute(Address),
    XIndexedZeroPage(Int),
    YIndexedZeroPage(Int),
    XIndexedAbsolute(Address),
    YIndexedAbsolute(Address),
    Relative(Int),
    Indirect(Address),
    XIndexedIndirect(Int),
    IndirectYIndexed(Int),
}

impl Location {
    /// The address that this location denotes in `state`.
    pub open spec fn address(self, state: State) -> Address {
        let x = state.register.index_x;
        let y = state.register.index_y;
        match self {
            Location::ZeroPage(operand) => operand as Address,
            Location::Absolute(operand) => operand,
            Location::XIndexedZeroPage(operand) => wrap_byte(operand + x) as Address,
            Location::YIndexedZeroPage(operand) => wrap_byte(operand + y) as Address,
            Location::XIndexedAbsolute(operand) => wrap_address(operand + x),
            Location::YIndexedAbsolute(operand) => wrap_address(operand + y),
            Location::Relative(operand) => wrap_address(
                state.register.program_counter + signed(operand),
            ),
            Location::Indirect(operand) => word_in(state.memory, operand),
            Location::XIndexedIndirect(operand) => word_in(
                state.memory,
                wrap_byte(operand + x) as Address,
            ),
            Location::IndirectYIndexed(operand) => wrap_address(
                word_in(state.memory, operand as Address) + y,
            ),
        }
    }

    /// How many operand bytes follow the opcode in this mode.
    pub open spec fn width(self) -> nat {
        match self {
            Location::ZeroPage(_)
            | Location::XIndexedZeroPage(_)
            | Location::YIndexedZeroPage(_)
            | Location::Relative(_)
            | Location::XIndexedIndirect(_)
            | Location::IndirectYIndexed(_) => 1,
            Location::Absolute(_)
            | Location::XIndexedAbsolute(_)
            | Location::YIndexedAbsolute(_)
            | Location::Indirect(_) => 2,
        }
    }

    /// The operand as it stands after the opcode: one byte, or two bytes
    /// read little-endian.
    pub open spec fn raw(self) -> u16 {
        match self {
            Location::ZeroPage(operand)
            | Location::XIndexedZeroPage(operand)
            | Location::YIndexedZeroPage(operand)
            | Location::Relative(operand)
            | Location::XIndexedIndirect(operand)
            | Location::IndirectYIndexed(operand) => operand as u16,
            Location::Absolute(operand)
            | Location::XIndexedAbsolute(operand)
            | Location::YIndexedAbsolute(operand)
            | Location::Indirect(operand) => operand,
        }
    }

    /// Whether the address is known from the location alone.
    pub open spec fn terminal(self) -> bool {
        self is ZeroPage || self is Absolute
    }

    /// How many reductions separate this location from a terminal one.
    pub open spec fn rank(self) -> nat {
        match self {
            Location::ZeroPage(_) | Location::Absolute(_) => 0,
            Location::XIndexedIndirect(_) | Location::IndirectYIndexed(_) => 2,
            _ => 1,
        }
    }

    /// One reduction towards a terminal location. A terminal location
    /// reduces to itself.
    pub open spec fn step(self, state: State) -> Location {
        let x = state.register.index_x;
        let y = state.register.index_y;
        match self {
            Location::ZeroPage(_) | Location::Absolute(_) => self,
            Location::XIndexedZeroPage(operand) => Location::ZeroPage(wrap_byte(operand + x)),
            Location::YIndexedZeroPage(operand) => Location::ZeroPage(wrap_byte(operand + y)),
            Location::XIndexedAbsolute(operand) => Location::Absolute(wrap_address(operand + x)),
            Location::YIndexedAbsolute(operand) => Location::Absolute(wrap_address(operand + y)),
            Location::Relative(operand) => Location::Absolute(
                wrap_address(state.register.program_counter + signed(operand)),
            ),
            Location::Indirect(operand) => Location::Absolute(word_in(state.memory, operand)),
            Location::XIndexedIndirect(operand) => Location::Indirect(
                wrap_byte(operand + x) as Address,
            ),
            Location::IndirectYIndexed(operand) => Location::YIndexedAbsolute(
                word_in(state.memory, operand as Address),
            ),
        }
    }

    /// Whether every pointer cell that resolving this location reads is
    /// mapped. Pointers in the zero page always are.
    pub open spec fn resolvable(self) -> bool {
        self matches Location::Indirect(operand) ==> is_mapped(operand) && is_mapped(
            following(operand),
        )
    }

    /// Whether the address is known from the location alone.
    pub fn is_terminal(self) -> (terminal: bool)
        ensures
            terminal == self.terminal(),
    {
        match self {
            Location::ZeroPage(_) | Location::Absolute(_) => true,
            _ => false,
        }
    }

    /// Whether resolving this location reads mapped memory only.
    pub fn is_resolvable(self) -> (resolvable: bool)
        ensures
            resolvable == self.resolvable(),
    {
        match self {
            Location::Indirect(operand) => {
                let next = operand.wrapping_add(1);
                memory::Nes::maps(operand) && memory::Nes::maps(next)
            },
            _ => true,
        }
    }

    /// Reduces this location by one step.
    pub fn reduce(self, cpu: &Cpu) -> (next: Location)
        requires
            self.resolvable(),
        ensures
            next == self.step(cpu@),
    {
        let x = cpu.register.index_x;
        let y = cpu.register.index_y;
        match self {
            Location::ZeroPage(_) | Location::Absolute(_) => self,
            Location::XIndexedZeroPage(operand) => Location::ZeroPage(operand.wrapping_add(x)),
            Location::YIndexedZeroPage(operand) => Location::ZeroPage(operand.wrapping_add(y)),
            Location::XIndexedAbsolute(operand) => Location::Absolute(
                operand.wrapping_add(x as u16),
            ),
            Location::YIndexedAbsolute(operand) => Location::Absolute(
                operand.wrapping_add(y as u16),
            ),
            Location::Relative(operand) => {
                let counter = cpu.register.program_counter;
                if operand < 0x80 {
                    Location::Absolute(counter.wrapping_add(operand as u16))
                } else {
                    Location::Absolute(counter.wrapping_sub(0x100 - (operand as u16)))
                }
            },
            Location::Indirect(operand) => Location::Absolute(cpu.memory.read_u16(operand)),
            Location::XIndexedIndirect(operand) => Location::Indirect(
                operand.wrapping_add(x) as u16,
            ),
            Location::IndirectYIndexed(operand) => Location::YIndexedAbsolute(
                cpu.memory.read_u16(operand as u16),
            ),
        }
    }

    /// Resolves this location to the address it denotes, by reducing it
    /// until it is terminal.
    pub fn location(self, cpu: &Cpu) -> (address: Address)
        requires
            self.resolvable(),
        ensures
            address == self.address(cpu@),
    {
        let mut current = self;
        while !current.is_terminal()
            invariant
                current.resolvable(),
                current.address(cpu@) == self.address(cpu@),
            decreases current.rank(),
        {
            proof {
                lemma_step_preserves_address(current, cpu@);
            }
            current = current.reduce(cpu);
        }
        match current {
            Location::ZeroPage(operand) => operand as u16,
            Location::Absolute(operand) => operand,
            _ => unreached(),
        }
    }
}

/// A reduction step keeps the address that a location denotes, brings a
/// location that is not terminal closer to a terminal one, and leaves a
/// terminal location as it is; the pointer cells of the reduced location
/// are mapped where those of the location were.
pub proof fn lemma_step_preserves_address(location: Location, state: State)
    requires
        location.resolvable(),
    ensures
        location.step(state).address(state) == location.address(state),
        location.step(state).resolvable(),
        location.terminal() ==> location.step(state) == location,
        !location.terminal() ==> location.step(state).rank() < location.rank(),
{
}

/// Reducing a location as many times as its rank says reaches a terminal
/// location, from which a further reduction changes nothing.
pub proof fn lemma_reduction_is_idempotent(location: Location, state: State)
    ensures
        location.step(state).step(state).terminal(),
        location.step(state).step(state).step(state) == location.step(state).step(state),
{
}

impl Value {
    /// How many operand bytes follow the opcode for this operand.
    pub open spec fn width(self) -> nat {
        match self {
            Value::Immediate(_) => 1,
            Value::Location(at) => at.width(),
        }
    }

    /// The operand as it stands after the opcode.
    pub open spec fn raw(self) -> u16 {
        match self {
            Value::Immediate(value) => value as u16,
            Value::Location(at) => at.raw(),
        }
    }

    /// The byte that this operand yields in `state`.
    pub open spec fn value_in(self, state: State) -> Int {
        match self {
            Value::Immediate(value) => value,
            Value::Location(at) => state.memory[at.address(state)],
        }
    }

    /// Whether reading this operand in `state` touches mapped memory only.
    pub open spec fn readable(self, state: State) -> bool {
        self matches Value::Location(at) ==> at.resolvable() && is_mapped(at.address(state))
    }

    /// Reads the operand: the literal itself, or the byte at its location.
    pub fn value(self, cpu: &Cpu) -> (value: Int)
        requires
            self.readable(cpu@),
        ensures
            value == self.value_in(cpu@),
    {
        match self {
            Value::Immediate(value) => value,
            Value::Location(at) => cpu.memory.read(at.location(cpu)),
        }
    }

    /// Whether reading this operand touches mapped memory only.
    pub fn is_readable(self, cpu: &Cpu) -> (readable: bool)
        ensures
            readable == self.readable(cpu@),
    {
        match self {
            Value::Immediate(_) => true,
            Value::Location(at) => {
                if at.is_resolvable() {
                    let address = at.location(cpu);
                    memory::Nes::maps(address)
                } else {
                    false
                }
            },
        }
    }
}

impl From<Location> for Value {
    /// The operand that is read at `at`.
    fn from(at: Location) -> (value: Self) {
        Value::Location(at)
    }
}

impl vstd::std_specs::convert::FromSpecImpl<Location> for Value {
    open spec fn obeys_from_spec() -> bool {
        true
    }

    open spec fn from_spec(at: Location) -> Self {
        Value::Location(at)
    }
}

} // verus!
