use vstd::prelude::*;

use crate::fault::Fault;

verus! {

/// Number of ALU modes; modes `0..ALU_MODES` are defined.
pub const ALU_MODES: u16 = 11;

/// The compare nibble: bit 3 is `a > b`, bit 2 is `a < b`, bit 1 is `a == b`,
/// bit 0 is always set.
pub open spec fn compare_nibble(a: u16, b: u16) -> u16 {
    ((if a > b { 8int } else { 0 }) + (if a < b { 4int } else { 0 }) + (if a == b { 2int } else { 0 })
        + 1) as u16
}

/// `a + b` modulo 2^16.
pub open spec fn add_word(a: u16, b: u16) -> u16 {
    ((a + b) % 0x1_0000) as u16
}

/// `a - b` modulo 2^16.
pub open spec fn sub_word(a: u16, b: u16) -> u16 {
    ((a - b + 0x1_0000) % 0x1_0000) as u16
}

/// Shift left; bits shifted past bit 15 are lost, so a shift by 16 or more gives 0.
pub open spec fn shl_word(a: u16, b: u16) -> u16 {
    if b < 16 { a << b } else { 0 }
}

/// Shift right; a shift by 16 or more gives 0.
pub open spec fn shr_word(a: u16, b: u16) -> u16 {
    if b < 16 { a >> b } else { 0 }
}

/// What the ALU computes in a defined mode (`mode < 11`).
pub open spec fn alu_value(mode: u16, a: u16, b: u16) -> u16 {
    if mode == 0 {
        shl_word(a, b)
    } else if mode == 1 {
        shr_word(a, b)
    } else if mode == 2 {
        a & b
    } else if mode == 3 {
        !a
    } else if mode == 4 {
        a ^ b
    } else if mode == 5 {
        a | b
    } else if mode == 6 {
        add_word(a, b)
    } else if mode == 7 {
        sub_word(a, b)
    } else if mode == 8 {
        compare_nibble(a, b)
    } else if mode == 9 {
        add_word(a, 1)
    } else {
        sub_word(a, 1)
    }
}

/// The ALU's full result: the value for a defined mode, a fault otherwise.
pub open spec fn alu_result(mode: u16, a: u16, b: u16) -> Result<u16, Fault> {
    if mode < ALU_MODES {
        Ok(alu_value(mode, a, b))
    } else {
        Err(Fault::InvalidAluMode)
    }
}

/// The stateless arithmetic/logic unit.
pub struct Alu;

impl Alu {
    /// Applies operation `mode` to `a` and `b`. Arithmetic wraps modulo 2^16;
    /// a mode of 11 or more is `InvalidAluMode`.
    pub fn exec(mode: u16, a: u16, b: u16) -> (r: Result<u16, Fault>)
        ensures
            r == alu_result(mode, a, b),
    {
        if mode >= ALU_MODES {
            return Err(Fault::InvalidAluMode);
        }
        let v: u16 = match mode {
            0 => if b < 16 { a << b } else { 0 },
            1 => if b < 16 { a >> b } else { 0 },
            2 => a & b,
            3 => !a,
            4 => a ^ b,
            5 => a | b,
            6 => a.wrapping_add(b),
            7 => a.wrapping_sub(b),
            8 => compare(a, b),
            9 => a.wrapping_add(1),
            _ => a.wrapping_sub(1),
        };
        Ok(v)
    }
}

fn compare(a: u16, b: u16) -> (r: u16)
    ensures
        r == compare_nibble(a, b),
{
    let mut r: u16 = 1;
    if a > b {
        r = r + 8;
    }
    if a < b {
        r = r + 4;
    }
    if a == b {
        r = r + 2;
    }
    r
}

/// Addition and subtraction wrap modulo 2^16 for every pair of words:
/// `65535 + 1 == 0` and `0 - 1 == 65535`.
pub proof fn lemma_add_sub_wrap(a: u16, b: u16)
    ensures
        alu_result(6, a, b) == Ok::<u16, Fault>(((a + b) % 0x1_0000) as u16),
        alu_result(7, a, b) == Ok::<u16, Fault>(((a - b) % 0x1_0000) as u16),
        alu_result(6, 0xffff, 1) == Ok::<u16, Fault>(0),
        alu_result(7, 0, 1) == Ok::<u16, Fault>(0xffff),
{
}

/// Compare always sets bit 0 and exactly one of bits 3, 2, 1: it yields
/// `0b1001` when `a > b`, `0b0101` when `a < b` and `0b0011` when they are equal.
pub proof fn lemma_compare_nibble(a: u16, b: u16)
    ensures
        a > b ==> alu_result(8, a, b) == Ok::<u16, Fault>(0b1001),
        a < b ==> alu_result(8, a, b) == Ok::<u16, Fault>(0b0101),
        a == b ==> alu_result(8, a, b) == Ok::<u16, Fault>(0b0011),
{
}

} // verus!
