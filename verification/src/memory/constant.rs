//! The fixed layout of the address space. Region ends are exclusive.

use vstd::prelude::*;

use crate::memory::Address;

verus! {

/// The first address of RAM.
pub const RAM_START: Address = 0x0000;

/// How many bytes of RAM there are.
pub const RAM_SIZE: Address = 0x0800;

/// The first address after RAM.
pub const RAM_END: Address = 0x0800;

/// The first address of the program ROM.
pub const PROGRAM_ROM_START: Address = 0x8000;

/// How many bytes of program ROM there are: it runs to the end of memory
/// (0xFFFF inclusive).
pub const PROGRAM_ROM_SIZE: Address = 0x8000;

/// Holds the address of the non-maskable interrupt handler, as a 16-bit cell.
pub const NON_MASKABLE_INTERRUPT: Address = 0xFFFA;

/// Holds the address the program counter takes on reset, as a 16-bit cell.
pub const PROGRAM_COUNTER_RESET: Address = 0xFFFC;

/// Holds the address of the maskable interrupt handler, as a 16-bit cell.
pub const INTERRUPT: Address = 0xFFFE;

} // verus!
