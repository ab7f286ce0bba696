use vstd::prelude::*;

use crate::fault::Fault;

verus! {

/// Number of words in data memory.
pub const DATA_WORDS: usize = 16;

/// Number of words in program memory.
pub const PROGRAM_WORDS: usize = 64;

/// Reading address `addr` of a word store holding `mem`.
pub open spec fn read_word(mem: Seq<u16>, addr: int) -> Result<u16, Fault> {
    if 0 <= addr < mem.len() {
        Ok(mem[addr])
    } else {
        Err(Fault::AddressOutOfRange)
    }
}

/// Writing `val` at address `addr` of a word store holding `mem`: the new
/// contents, or the fault that leaves the store as it was.
pub open spec fn write_word(mem: Seq<u16>, addr: int, val: u16) -> Result<Seq<u16>, Fault> {
    if 0 <= addr < mem.len() {
        Ok(mem.update(addr, val))
    } else {
        Err(Fault::AddressOutOfRange)
    }
}

/// The contents of a store after an attempted write: unchanged on a fault.
pub open spec fn after_write(mem: Seq<u16>, addr: int, val: u16) -> Seq<u16> {
    match write_word(mem, addr, val) {
        Ok(m) => m,
        Err(_) => mem,
    }
}

/// What an attempted write reports.
pub open spec fn write_status(mem: Seq<u16>, addr: int, val: u16) -> Result<(), Fault> {
    match write_word(mem, addr, val) {
        Ok(_) => Ok(()),
        Err(f) => Err(f),
    }
}

/// Random-access data memory of 16 words.
pub struct DataMemory {
    pub cells: [u16; 16],
}

impl View for DataMemory {
    type V = Seq<u16>;

    open spec fn view(&self) -> Seq<u16> {
        self.cells@
    }
}

impl DataMemory {
    /// Memory with every word zero.
    pub fn new() -> (r: DataMemory)
        ensures
            r@ == Seq::new(16, |i: int| 0u16),
    {
        let r = DataMemory { cells: [0u16; 16] };
        assert(r@ =~= Seq::new(16, |i: int| 0u16));
        r
    }

    /// The word at `addr`; `AddressOutOfRange` when `addr >= 16`.
    pub fn read(&self, addr: usize) -> (r: Result<u16, Fault>)
        ensures
            r == read_word(self@, addr as int),
    {
        if addr < DATA_WORDS {
            Ok(self.cells[addr])
        } else {
            Err(Fault::AddressOutOfRange)
        }
    }

    /// Stores `val` at `addr`; `AddressOutOfRange`, with memory unchanged,
    /// when `addr >= 16`.
    pub fn write(&mut self, addr: usize, val: u16) -> (r: Result<(), Fault>)
        ensures
            r == write_status(old(self)@, addr as int, val),
            final(self)@ == after_write(old(self)@, addr as int, val),
    {
        if addr < DATA_WORDS {
            self.cells[addr] = val;
            Ok(())
        } else {
            Err(Fault::AddressOutOfRange)
        }
    }
}

/// Read-only program memory of 64 words, fixed when it is built.
pub struct ProgramMemory {
    words: [u16; 64],
}

impl View for ProgramMemory {
    type V = Seq<u16>;

    closed spec fn view(&self) -> Seq<u16> {
        self.words@
    }
}

impl ProgramMemory {
    /// Program memory holding the image `mem`.
    pub fn from(mem: [u16; 64]) -> (r: ProgramMemory)
        ensures
            r@ == mem@,
    {
        ProgramMemory { words: mem }
    }

    /// Program memory always holds 64 words.
    pub proof fn lemma_len(&self)
        ensures
            self@.len() == PROGRAM_WORDS,
    {
    }

    /// The word at `addr`; `AddressOutOfRange` when `addr >= 64`.
    pub fn read(&self, addr: usize) -> (r: Result<u16, Fault>)
        ensures
            r == read_word(self@, addr as int),
    {
        if addr < PROGRAM_WORDS {
            Ok(self.words[addr])
        } else {
            Err(Fault::AddressOutOfRange)
        }
    }
}

/// Writing `v` at a data-memory address below 16 and reading it back gives `v`.
pub proof fn lemma_write_then_read(mem: DataMemory, addr: usize, v: u16)
    requires
        addr < DATA_WORDS,
    ensures
        write_status(mem@, addr as int, v) == Ok::<(), Fault>(()),
        read_word(after_write(mem@, addr as int, v), addr as int) == Ok::<u16, Fault>(v),
{
}

/// At a data-memory address of 16 or more, reading and writing fault and the
/// memory keeps its contents.
pub proof fn lemma_data_out_of_range(mem: DataMemory, addr: usize, v: u16)
    requires
        addr >= DATA_WORDS,
    ensures
        read_word(mem@, addr as int) == Err::<u16, Fault>(Fault::AddressOutOfRange),
        write_status(mem@, addr as int, v) == Err::<(), Fault>(Fault::AddressOutOfRange),
        after_write(mem@, addr as int, v) == mem@,
{
}

/// At a program-memory address of 64 or more, reading faults.
pub proof fn lemma_program_out_of_range(rom: ProgramMemory, addr: usize)
    requires
        addr >= PROGRAM_WORDS,
    ensures
        read_word(rom@, addr as int) == Err::<u16, Fault>(Fault::AddressOutOfRange),
{
    rom.lemma_len();
}

} // verus!
