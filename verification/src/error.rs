//! The two ways a run can end.

use vstd::prelude::*;

verus! {

/// A fatal condition met while executing an instruction. Neither is
/// recoverable: after one of them the interpreter must not be stepped again.
#[derive(Clone, Copy, Debug, PartialEq, Eq, Structural)]
pub enum EmulatorError {
    /// The byte `opcode`, fetched from `address`, is not an implemented
    /// instruction.
    UnimplementedOpcode { opcode: u8, address: u16 },
    /// A read or write went to `address`, which no region backs.
    UnmappedAddress { address: u16 },
}

} // verus!
