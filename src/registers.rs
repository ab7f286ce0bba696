use vstd::prelude::*;

use crate::fault::Fault;
use crate::memory::{after_write, read_word, write_status};

verus! {

/// Number of registers.
pub const REGISTERS: usize = 8;

/// Register holding ALU operand A.
pub const ALU_A: usize = 1;

/// Register holding ALU operand B.
pub const ALU_B: usize = 2;

/// Register receiving the ALU result.
pub const ALU_OUT: usize = 3;

/// Register holding the flags that conditional jumps test.
pub const FLAGS: usize = 4;

/// The eight general-purpose word registers. Slot 0 is reserved, 1 and 2 are
/// the ALU operands, 3 the ALU output, 4 the flags, 5 the base address and 6,
/// 7 scratch.
pub struct RegisterFile {
    pub slots: [u16; 8],
}

impl View for RegisterFile {
    type V = Seq<u16>;

    open spec fn view(&self) -> Seq<u16> {
        self.slots@
    }
}

impl RegisterFile {
    /// Registers all zero.
    pub fn new() -> (r: RegisterFile)
        ensures
            r@ == Seq::new(8, |i: int| 0u16),
    {
        let r = RegisterFile { slots: [0u16; 8] };
        assert(r@ =~= Seq::new(8, |i: int| 0u16));
        r
    }

    /// Register `index`; `AddressOutOfRange` when `index >= 8`.
    pub fn read(&self, index: usize) -> (r: Result<u16, Fault>)
        ensures
            r == read_word(self@, index as int),
    {
        if index < REGISTERS {
            Ok(self.slots[index])
        } else {
            Err(Fault::AddressOutOfRange)
        }
    }

    /// Sets register `index` to `val`; `AddressOutOfRange`, with the registers
    /// unchanged, when `index >= 8`.
    pub fn write(&mut self, index: usize, val: u16) -> (r: Result<(), Fault>)
        ensures
            r == write_status(old(self)@, index as int, val),
            final(self)@ == after_write(old(self)@, index as int, val),
    {
        if index < REGISTERS {
            self.slots[index] = val;
            Ok(())
        } else {
            Err(Fault::AddressOutOfRange)
        }
    }
}

} // verus!
