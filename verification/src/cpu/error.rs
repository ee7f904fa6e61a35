//! What can go wrong while decoding and executing.

use vstd::prelude::*;

use crate::cpu::operation::Operation;
use crate::cpu::Int;
use crate::memory::Address;

verus! {

/// Why an instruction was not decoded or not executed.
#[derive(Clone, Copy, Debug, PartialEq, Eq, Structural)]
pub enum Error {
    /// The byte at `program_counter` encodes no operation.
    UnimplementedOpcode { opcode: Int, program_counter: Address },
    /// The operation was decoded, and the executor has no case for it.
    UnimplementedOperation(Operation),
    /// The instruction at `program_counter` would read or write an address
    /// that belongs to no region.
    UnmappedAccess { program_counter: Address },
}

} // verus!
