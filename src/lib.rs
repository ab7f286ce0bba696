//! A fetch-decode-execute simulator for a small 16-bit Harvard-architecture
//! computer: 16 words of data memory, 64 words of program memory, eight
//! registers and an ALU with wrapping arithmetic.
//!
//! Every fault (an address past its store, an ALU mode of 11 or more, an
//! unassigned opcode) stops the machine with its state as it was before the
//! faulting instruction. [`machine::run`] takes a bound on the number of
//! instructions, since a program may loop forever.

pub mod fault;
pub mod alu;
pub mod memory;
pub mod registers;
pub mod machine;
