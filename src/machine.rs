//! The fetch-decode-execute engine.
//!
//! Two quirks of the instruction set are kept on purpose: a jump is taken
//! only when the flags masked by its tested bit equal 1, so only type-0 jumps
//! can fire; and the program counter is incremented after a taken jump too, so
//! a jump moves it by its distance plus one. The program counter is a word and
//! wraps like one; an address of 64 or more faults on the next fetch. MOVE
//! reads its source register from bits 7..4 and its destination from bits 3..0.

use vstd::prelude::*;

use crate::alu::{add_word, alu_result, sub_word, Alu};
use crate::fault::Fault;
use crate::memory::{read_word, write_word, DataMemory, ProgramMemory, PROGRAM_WORDS};
use crate::registers::{RegisterFile, ALU_A, ALU_B, ALU_OUT, FLAGS};

verus! {

/// Opcode of an ALU instruction.
pub const OP_ALU: u16 = 0;

/// Opcode of LOAD: data memory into a register.
pub const OP_LOAD: u16 = 1;

/// Opcode of STORE: a register into data memory.
pub const OP_STORE: u16 = 2;

/// Opcode of MOVE: one register into another.
pub const OP_MOVE: u16 = 3;

/// Opcode of JUMP.
pub const OP_JUMP: u16 = 4;

/// Opcode of LOAD-IMMEDIATE: an 8-bit constant into a register.
pub const OP_LOAD_IMMEDIATE: u16 = 5;

/// Opcode of HALT.
pub const OP_HALT: u16 = 6;

/// The halt instruction, which also pads short program images.
pub const HALT_WORD: u16 = 0x6000;

/// Top 4 bits: the opcode.
pub open spec fn opcode(i: u16) -> u16 {
    i >> 12u16
}

/// Low 12 bits: the ALU mode.
pub open spec fn alu_mode(i: u16) -> u16 {
    i & 0xfffu16
}

/// Low 8 bits: a data-memory address or an immediate value.
pub open spec fn low_byte(i: u16) -> u16 {
    i & 0xffu16
}

/// Bits 11..8: the register of LOAD, STORE and LOAD-IMMEDIATE.
pub open spec fn reg_field(i: u16) -> u16 {
    (i >> 8u16) & 0xfu16
}

/// Bits 7..4: the source register of MOVE.
pub open spec fn move_source(i: u16) -> u16 {
    (i >> 4u16) & 0xfu16
}

/// Bits 3..0: the destination register of MOVE.
pub open spec fn move_dest(i: u16) -> u16 {
    i & 0xfu16
}

/// Bits 8..0: the jump distance.
pub open spec fn jump_size(i: u16) -> u16 {
    i & 0x1ffu16
}

/// Bit 9: the jump direction, 0 forward and 1 backward.
pub open spec fn jump_sign(i: u16) -> u16 {
    (i >> 9u16) & 1u16
}

/// Bits 11..10: which flag bit the jump tests.
pub open spec fn jump_type(i: u16) -> u16 {
    (i >> 10u16) & 3u16
}

/// A jump is taken when the flags masked by bit `jump_type` equal 1 exactly,
/// which only a jump of type 0 with flag bit 0 set can satisfy.
pub open spec fn jump_taken(flags: u16, i: u16) -> bool {
    flags & (1u16 << jump_type(i)) == 1u16
}

/// The program counter after a jump instruction at `pc`, before the
/// increment that follows every instruction.
pub open spec fn jump_target(pc: u16, flags: u16, i: u16) -> u16 {
    if !jump_taken(flags, i) {
        pc
    } else if jump_sign(i) == 0 {
        add_word(pc, jump_size(i))
    } else {
        sub_word(pc, jump_size(i))
    }
}

/// Whether the machine goes on after an instruction.
#[derive(Clone, Copy, Debug, PartialEq, Eq, Structural)]
pub enum Status {
    /// It executed an instruction and can go on.
    Running,
    /// It met the halt instruction.
    Halted,
    /// It stopped on a fault.
    Faulted(Fault),
}

/// The mutable part of the machine: data memory, registers and program counter.
pub ghost struct MachineState {
    pub ram: Seq<u16>,
    pub regs: Seq<u16>,
    pub pc: u16,
}

/// The state in which every run starts.
pub open spec fn initial_state() -> MachineState {
    MachineState { ram: Seq::new(16, |i: int| 0u16), regs: Seq::new(8, |i: int| 0u16), pc: 0 }
}

/// Goes on to the next instruction with data memory `ram` and registers `regs`.
pub open spec fn advance(s: MachineState, ram: Seq<u16>, regs: Seq<u16>, pc: u16) -> (
    Status,
    MachineState,
) {
    (Status::Running, MachineState { ram, regs, pc: add_word(pc, 1) })
}

/// Executes instruction `i` in state `s` (fetched at `s.pc`).
pub open spec fn execute_instruction(s: MachineState, i: u16) -> (Status, MachineState) {
    let op = opcode(i);
    if op == OP_ALU {
        match alu_result(alu_mode(i), s.regs[ALU_A as int], s.regs[ALU_B as int]) {
            Ok(v) => advance(s, s.ram, s.regs.update(ALU_OUT as int, v), s.pc),
            Err(f) => (Status::Faulted(f), s),
        }
    } else if op == OP_LOAD {
        match read_word(s.ram, low_byte(i) as int) {
            Ok(v) => match write_word(s.regs, reg_field(i) as int, v) {
                Ok(regs) => advance(s, s.ram, regs, s.pc),
                Err(f) => (Status::Faulted(f), s),
            },
            Err(f) => (Status::Faulted(f), s),
        }
    } else if op == OP_STORE {
        match read_word(s.regs, reg_field(i) as int) {
            Ok(v) => match write_word(s.ram, low_byte(i) as int, v) {
                Ok(ram) => advance(s, ram, s.regs, s.pc),
                Err(f) => (Status::Faulted(f), s),
            },
            Err(f) => (Status::Faulted(f), s),
        }
    } else if op == OP_MOVE {
        match read_word(s.regs, move_source(i) as int) {
            Ok(v) => match write_word(s.regs, move_dest(i) as int, v) {
                Ok(regs) => advance(s, s.ram, regs, s.pc),
                Err(f) => (Status::Faulted(f), s),
            },
            Err(f) => (Status::Faulted(f), s),
        }
    } else if op == OP_JUMP {
        advance(s, s.ram, s.regs, jump_target(s.pc, s.regs[FLAGS as int], i))
    } else if op == OP_LOAD_IMMEDIATE {
        match write_word(s.regs, reg_field(i) as int, low_byte(i)) {
            Ok(regs) => advance(s, s.ram, regs, s.pc),
            Err(f) => (Status::Faulted(f), s),
        }
    } else if op == OP_HALT {
        (Status::Halted, s)
    } else {
        (Status::Faulted(Fault::InvalidOpcode), s)
    }
}

/// One fetch-decode-execute cycle on program `rom`: the status and the new
/// state, which is `s` itself when the machine halts or faults.
pub open spec fn execute(rom: Seq<u16>, s: MachineState) -> (Status, MachineState) {
    match read_word(rom, s.pc as int) {
        Ok(i) => execute_instruction(s, i),
        Err(f) => (Status::Faulted(f), s),
    }
}

/// At most `fuel` cycles from `s`: the status of the last one and the state
/// it left. `Running` means that the budget ran out first.
pub open spec fn run_from(rom: Seq<u16>, s: MachineState, fuel: nat) -> (Status, MachineState)
    decreases fuel,
{
    if fuel == 0 {
        (Status::Running, s)
    } else {
        let (st, next) = execute(rom, s);
        match st {
            Status::Running => run_from(rom, next, (fuel - 1) as nat),
            _ => (st, next),
        }
    }
}

/// The simulated computer: its three stores and its program counter.
pub struct Machine {
    pub ram: DataMemory,
    pub rom: ProgramMemory,
    pub regs: RegisterFile,
    pub pc: u16,
}

impl View for Machine {
    type V = MachineState;

    open spec fn view(&self) -> MachineState {
        MachineState { ram: self.ram@, regs: self.regs@, pc: self.pc }
    }
}

impl Machine {
    /// A machine at program counter 0 with zeroed registers and data memory,
    /// running `rom`.
    pub fn new(rom: ProgramMemory) -> (r: Machine)
        ensures
            r@ == initial_state(),
            r.rom == rom,
    {
        Machine { ram: DataMemory::new(), rom, regs: RegisterFile::new(), pc: 0 }
    }

    /// Fetches, decodes and executes one instruction. On `Running` the
    /// program counter has moved on by one (after any jump); on `Halted` or a
    /// fault nothing has changed.
    pub fn step(&mut self) -> (r: Status)
        ensures
            (r, final(self)@) == execute(old(self).rom@, old(self)@),
            final(self).rom == old(self).rom,
    {
        let instr = match self.rom.read(self.pc as usize) {
            Ok(w) => w,
            Err(f) => return Status::Faulted(f),
        };
        let op = instr >> 12u16;
        if op == OP_ALU {
            let a = self.regs.slots[ALU_A];
            let b = self.regs.slots[ALU_B];
            match Alu::exec(instr & 0xfffu16, a, b) {
                Ok(v) => self.regs.slots[ALU_OUT] = v,
                Err(f) => return Status::Faulted(f),
            }
        } else if op == OP_LOAD {
            let reg = ((instr >> 8u16) & 0xfu16) as usize;
            let v = match self.ram.read((instr & 0xffu16) as usize) {
                Ok(v) => v,
                Err(f) => return Status::Faulted(f),
            };
            if let Err(f) = self.regs.write(reg, v) {
                return Status::Faulted(f);
            }
        } else if op == OP_STORE {
            let reg = ((instr >> 8u16) & 0xfu16) as usize;
            let v = match self.regs.read(reg) {
                Ok(v) => v,
                Err(f) => return Status::Faulted(f),
            };
            if let Err(f) = self.ram.write((instr & 0xffu16) as usize, v) {
                return Status::Faulted(f);
            }
        } else if op == OP_MOVE {
            let v = match self.regs.read(((instr >> 4u16) & 0xfu16) as usize) {
                Ok(v) => v,
                Err(f) => return Status::Faulted(f),
            };
            if let Err(f) = self.regs.write((instr & 0xfu16) as usize, v) {
                return Status::Faulted(f);
            }
        } else if op == OP_JUMP {
            let size = instr & 0x1ffu16;
            let sign = (instr >> 9u16) & 1u16;
            let kind = (instr >> 10u16) & 3u16;
            assert(kind < 16) by (bit_vector)
                requires
                    kind == (instr >> 10u16) & 3u16,
            ;
            if self.regs.slots[FLAGS] & (1u16 << kind) == 1u16 {
                if sign == 0 {
                    self.pc = self.pc.wrapping_add(size);
                } else {
                    self.pc = self.pc.wrapping_sub(size);
                }
            }
        } else if op == OP_LOAD_IMMEDIATE {
            let reg = ((instr >> 8u16) & 0xfu16) as usize;
            if let Err(f) = self.regs.write(reg, instr & 0xffu16) {
                return Status::Faulted(f);
            }
        } else if op == OP_HALT {
            return Status::Halted;
        } else {
            return Status::Faulted(Fault::InvalidOpcode);
        }
        self.pc = self.pc.wrapping_add(1);
        Status::Running
    }
}

/// Why a program image could not be loaded.
#[derive(Clone, Copy, Debug, PartialEq, Eq, Structural)]
pub enum LoadError {
    /// The image holds more than 64 words.
    ProgramTooLong,
}

/// `words` padded with halt instructions to 64 words.
pub open spec fn padded_image(words: Seq<u16>) -> Seq<u16> {
    words + Seq::new((64 - words.len()) as nat, |i: int| HALT_WORD)
}

/// Builds a 64-word program image from `words`, padding it with halt
/// instructions; an image of more than 64 words is `ProgramTooLong`.
pub fn program_image(words: &Vec<u16>) -> (r: Result<[u16; 64], LoadError>)
    ensures
        words@.len() <= 64 <==> r is Ok,
        r matches Err(e) ==> e == LoadError::ProgramTooLong,
        r matches Ok(img) ==> img@ == padded_image(words@),
{
    if words.len() > PROGRAM_WORDS {
        return Err(LoadError::ProgramTooLong);
    }
    let mut img = [HALT_WORD; 64];
    let mut i: usize = 0;
    while i < words.len()
        invariant
            words@.len() <= 64,
            i <= words@.len(),
            forall|j: int| 0 <= j < i ==> img@[j] == words@[j],
            forall|j: int| i <= j < 64 ==> img@[j] == HALT_WORD,
        decreases words@.len() - i,
    {
        img[i] = words[i];
        i = i + 1;
    }
    assert(img@ =~= padded_image(words@));
    Ok(img)
}

/// Runs program `prog` from the initial state for at most `max_steps`
/// instructions. Returns the machine as it stopped and how: `Halted`, a
/// fault, or `Running` when the budget ran out first.
pub fn run(prog: [u16; 64], max_steps: u64) -> (r: (Status, Machine))
    ensures
        (r.0, r.1@) == run_from(prog@, initial_state(), max_steps as nat),
        r.1.rom@ == prog@,
{
    let mut m = Machine::new(ProgramMemory::from(prog));
    let mut n: u64 = 0;
    while n < max_steps
        invariant
            n <= max_steps,
            m.rom@ == prog@,
            run_from(prog@, m@, (max_steps - n) as nat) == run_from(
                prog@,
                initial_state(),
                max_steps as nat,
            ),
        decreases max_steps - n,
    {
        let st = m.step();
        match st {
            Status::Running => {},
            _ => return (st, m),
        }
        n = n + 1;
    }
    (Status::Running, m)
}

/// Loads `words` as a program image and runs it for at most `max_steps`
/// instructions. An image of more than 64 words is refused before any
/// instruction runs.
pub fn run_program(words: &Vec<u16>, max_steps: u64) -> (r: Result<(Status, Machine), LoadError>)
    ensures
        words@.len() <= 64 <==> r is Ok,
        r matches Err(e) ==> e == LoadError::ProgramTooLong,
        r matches Ok(out) ==> (out.0, out.1@) == run_from(
            padded_image(words@),
            initial_state(),
            max_steps as nat,
        ) && out.1.rom@ == padded_image(words@),
{
    match program_image(words) {
        Ok(img) => Ok(run(img, max_steps)),
        Err(e) => Err(e),
    }
}

/// A program made only of halt instructions stops at once, with data memory
/// and registers still zero.
pub proof fn lemma_halt_program(fuel: nat)
    requires
        fuel > 0,
    ensures
        run_from(Seq::new(64, |i: int| HALT_WORD), initial_state(), fuel) == (
            Status::Halted,
            initial_state(),
        ),
{
    let rom = Seq::new(64, |i: int| HALT_WORD);
    assert(HALT_WORD >> 12u16 == 6u16) by (bit_vector);
    assert(execute(rom, initial_state()) == (Status::Halted, initial_state()));
}

/// A jump whose type field is not 0 is never taken, whatever the flags hold:
/// the program counter only moves on by one and nothing else changes.
pub proof fn lemma_typed_jump_not_taken(rom: Seq<u16>, s: MachineState)
    requires
        s.pc < rom.len(),
        opcode(rom[s.pc as int]) == OP_JUMP,
        jump_type(rom[s.pc as int]) != 0,
        s.regs.len() == 8,
    ensures
        execute(rom, s) == (
            Status::Running,
            MachineState { ram: s.ram, regs: s.regs, pc: add_word(s.pc, 1) },
        ),
{
    let i = rom[s.pc as int];
    let flags = s.regs[FLAGS as int];
    assert(flags & (1u16 << ((i >> 10u16) & 3u16)) != 1u16) by (bit_vector)
        requires
            (i >> 10u16) & 3u16 != 0u16,
    ;
}

/// An instruction whose opcode is 7 or more (no instruction is assigned to
/// them) faults with `InvalidOpcode`, leaves the state as it was, and ends
/// the run there.
pub proof fn lemma_invalid_opcode(rom: Seq<u16>, s: MachineState, fuel: nat)
    requires
        s.pc < rom.len(),
        opcode(rom[s.pc as int]) >= 7,
        fuel > 0,
    ensures
        execute(rom, s) == (Status::Faulted(Fault::InvalidOpcode), s),
        run_from(rom, s, fuel) == (Status::Faulted(Fault::InvalidOpcode), s),
{
}

} // verus!
