use vstd::prelude::*;

verus! {

/// A fatal condition that stops the machine.
#[derive(Clone, Copy, Debug, PartialEq, Eq, Structural)]
pub enum Fault {
    /// A data-memory, program-memory or register address past its bound.
    AddressOutOfRange,
    /// An ALU mode of 11 or more.
    InvalidAluMode,
    /// An opcode with no instruction assigned to it.
    InvalidOpcode,
}

} // verus!
