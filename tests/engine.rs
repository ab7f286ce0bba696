use droneboi::alu::Alu;
use droneboi::fault::Fault;
use droneboi::machine::{program_image, run, run_program, LoadError, Machine, Status, HALT_WORD};
use droneboi::memory::{DataMemory, ProgramMemory};
use droneboi::registers::RegisterFile;

fn load_imm(reg: u16, value: u16) -> u16 {
    (5 << 12) | (reg << 8) | value
}

fn store(reg: u16, addr: u16) -> u16 {
    (2 << 12) | (reg << 8) | addr
}

fn load(reg: u16, addr: u16) -> u16 {
    (1 << 12) | (reg << 8) | addr
}

fn jump(kind: u16, backward: bool, size: u16) -> u16 {
    (4 << 12) | (kind << 10) | ((backward as u16) << 9) | size
}

fn image(words: &[u16]) -> [u16; 64] {
    program_image(&words.to_vec()).unwrap()
}

#[test]
fn data_memory_round_trip() {
    let mut m = DataMemory::new();
    for a in 0..16usize {
        let v = (a as u16) * 4099 + 1;
        assert_eq!(m.write(a, v), Ok(()));
        assert_eq!(m.read(a), Ok(v));
    }
    assert_eq!(m.read(3), Ok(3 * 4099 + 1));
}

#[test]
fn data_memory_out_of_range() {
    let mut m = DataMemory::new();
    m.write(15, 42).unwrap();
    let before = m.cells;
    assert_eq!(m.read(16), Err(Fault::AddressOutOfRange));
    assert_eq!(m.write(16, 7), Err(Fault::AddressOutOfRange));
    assert_eq!(m.write(usize::MAX, 7), Err(Fault::AddressOutOfRange));
    assert_eq!(m.cells, before);
}

#[test]
fn program_memory_out_of_range() {
    let mut words = [0u16; 64];
    words[63] = 0x1234;
    let rom = ProgramMemory::from(words);
    assert_eq!(rom.read(63), Ok(0x1234));
    assert_eq!(rom.read(64), Err(Fault::AddressOutOfRange));
}

#[test]
fn register_file_bounds() {
    let mut r = RegisterFile::new();
    assert_eq!(r.write(7, 5), Ok(()));
    assert_eq!(r.read(7), Ok(5));
    assert_eq!(r.write(8, 1), Err(Fault::AddressOutOfRange));
    assert_eq!(r.read(8), Err(Fault::AddressOutOfRange));
    assert_eq!(r.slots, [0, 0, 0, 0, 0, 0, 0, 5]);
}

#[test]
fn alu_add_and_subtract_wrap() {
    assert_eq!(Alu::exec(6, 65535, 1), Ok(0));
    assert_eq!(Alu::exec(7, 0, 1), Ok(65535));
    assert_eq!(Alu::exec(6, 40000, 30000), Ok(4464));
    assert_eq!(Alu::exec(7, 3, 5), Ok(65534));
    assert_eq!(Alu::exec(6, 2, 3), Ok(5));
    assert_eq!(Alu::exec(7, 9, 4), Ok(5));
}

#[test]
fn alu_compare_nibble() {
    assert_eq!(Alu::exec(8, 5, 3), Ok(0b1001));
    assert_eq!(Alu::exec(8, 3, 5), Ok(0b0101));
    assert_eq!(Alu::exec(8, 4, 4), Ok(0b0011));
}

#[test]
fn alu_bitwise_and_shift_modes() {
    assert_eq!(Alu::exec(0, 0x8001, 1), Ok(0x0002));
    assert_eq!(Alu::exec(0, 1, 15), Ok(0x8000));
    assert_eq!(Alu::exec(0, 1, 16), Ok(0));
    assert_eq!(Alu::exec(1, 0x8000, 15), Ok(1));
    assert_eq!(Alu::exec(1, 0xffff, 40), Ok(0));
    assert_eq!(Alu::exec(2, 0b1100, 0b1010), Ok(0b1000));
    assert_eq!(Alu::exec(3, 0x00ff, 1234), Ok(0xff00));
    assert_eq!(Alu::exec(4, 0b1100, 0b1010), Ok(0b0110));
    assert_eq!(Alu::exec(5, 0b1100, 0b1010), Ok(0b1110));
    assert_eq!(Alu::exec(9, 65535, 0), Ok(0));
    assert_eq!(Alu::exec(9, 7, 0), Ok(8));
    assert_eq!(Alu::exec(10, 0, 0), Ok(65535));
    assert_eq!(Alu::exec(10, 7, 0), Ok(6));
}

#[test]
fn alu_invalid_mode() {
    assert_eq!(Alu::exec(11, 1, 2), Err(Fault::InvalidAluMode));
    assert_eq!(Alu::exec(0xfff, 1, 2), Err(Fault::InvalidAluMode));
}

#[test]
fn halt_only_program() {
    let (status, m) = run(image(&[HALT_WORD]), 1000);
    assert_eq!(status, Status::Halted);
    assert_eq!(m.ram.cells, [0u16; 16]);
    assert_eq!(m.regs.slots, [0u16; 8]);
    assert_eq!(m.pc, 0);
}

#[test]
fn load_immediate_store_halt() {
    let prog = image(&[(5 << 12) | (1 << 8) | 7, (2 << 12) | (1 << 8) | 0, 6 << 12]);
    let (status, m) = run(prog, 1000);
    assert_eq!(status, Status::Halted);
    let mut expected = [0u16; 16];
    expected[0] = 7;
    assert_eq!(m.ram.cells, expected);
    assert_eq!(m.pc, 2);
}

#[test]
fn typed_jump_never_taken() {
    for kind in 1..4u16 {
        for flags in [0u16, 1, 2, 4, 8, 0xff] {
            let prog = image(&[load_imm(4, flags), jump(kind, false, 5), load_imm(6, 9), store(6, 1)]);
            let mut m = Machine::new(ProgramMemory::from(prog));
            assert_eq!(m.step(), Status::Running);
            assert_eq!(m.step(), Status::Running);
            assert_eq!(m.pc, 2);
            let (status, end) = run(prog, 1000);
            assert_eq!(status, Status::Halted);
            assert_eq!(end.ram.cells[1], 9);
        }
    }
}

#[test]
fn type_zero_jump_adds_one_more() {
    let prog = image(&[load_imm(4, 1), jump(0, false, 1), load_imm(6, 5), store(6, 0), load_imm(7, 3)]);
    let mut m = Machine::new(ProgramMemory::from(prog));
    m.step();
    assert_eq!(m.step(), Status::Running);
    assert_eq!(m.pc, 3);
    let (status, end) = run(prog, 1000);
    assert_eq!(status, Status::Halted);
    assert_eq!(end.ram.cells[0], 0);
    assert_eq!(end.regs.slots[6], 0);
    assert_eq!(end.regs.slots[7], 3);
    // flag bit 0 clear: not taken
    let prog = image(&[load_imm(4, 2), jump(0, false, 1), load_imm(6, 5)]);
    let (_, end) = run(prog, 1000);
    assert_eq!(end.regs.slots[6], 5);
}

#[test]
fn backward_jump_loops_until_budget() {
    let prog = image(&[load_imm(4, 1), jump(0, true, 1)]);
    let (status, m) = run(prog, 500);
    assert_eq!(status, Status::Running);
    assert_eq!(m.pc, 1);
    let (status, _) = run(prog, 0);
    assert_eq!(status, Status::Running);
}

#[test]
fn invalid_opcodes_fault() {
    for op in [7u16, 8, 9, 10, 11, 12, 13, 14, 15] {
        let prog = image(&[load_imm(1, 3), op << 12, store(1, 0)]);
        let (status, m) = run(prog, 1000);
        assert_eq!(status, Status::Faulted(Fault::InvalidOpcode));
        assert_eq!(m.pc, 1);
        assert_eq!(m.regs.slots[1], 3);
        assert_eq!(m.ram.cells, [0u16; 16]);
    }
}

#[test]
fn program_longer_than_capacity_rejected() {
    let words = vec![0u16; 65];
    assert_eq!(program_image(&words), Err(LoadError::ProgramTooLong));
    assert!(matches!(run_program(&words, 1000), Err(LoadError::ProgramTooLong)));
    let words = vec![HALT_WORD; 64];
    let (status, _) = run_program(&words, 1000).unwrap();
    assert_eq!(status, Status::Halted);
}

#[test]
fn short_image_padded_with_halts() {
    let img = program_image(&vec![1, 2, 3]).unwrap();
    assert_eq!(&img[..3], &[1, 2, 3]);
    assert!(img[3..].iter().all(|&w| w == 0x6000));
    assert_eq!(program_image(&vec![]).unwrap(), [HALT_WORD; 64]);
}

#[test]
fn alu_instruction_uses_operand_registers() {
    let prog = image(&[load_imm(1, 200), load_imm(2, 100), 6, store(3, 2), 8, store(3, 3), 11]);
    let (status, m) = run(prog, 1000);
    assert_eq!(status, Status::Faulted(Fault::InvalidAluMode));
    assert_eq!(m.ram.cells[2], 300);
    assert_eq!(m.ram.cells[3], 0b1001);
    assert_eq!(m.pc, 6);
}

#[test]
fn move_copies_between_registers() {
    let prog = image(&[load_imm(6, 9), (3 << 12) | (6 << 4) | 7, store(7, 4)]);
    let (status, m) = run(prog, 1000);
    assert_eq!(status, Status::Halted);
    assert_eq!(m.regs.slots[7], 9);
    assert_eq!(m.ram.cells[4], 9);
    let prog = image(&[(3 << 12) | (8 << 4) | 7]);
    let (status, _) = run(prog, 1000);
    assert_eq!(status, Status::Faulted(Fault::AddressOutOfRange));
}

#[test]
fn memory_faults_stop_the_run() {
    let (status, m) = run(image(&[load_imm(1, 5), load(1, 16)]), 1000);
    assert_eq!(status, Status::Faulted(Fault::AddressOutOfRange));
    assert_eq!(m.regs.slots[1], 5);
    let (status, _) = run(image(&[store(1, 200)]), 1000);
    assert_eq!(status, Status::Faulted(Fault::AddressOutOfRange));
    let (status, _) = run(image(&[load_imm(9, 1)]), 1000);
    assert_eq!(status, Status::Faulted(Fault::AddressOutOfRange));
    let (status, m) = run(image(&[store(1, 15), load(2, 15)]), 1000);
    assert_eq!(status, Status::Halted);
    assert_eq!(m.regs.slots[2], 0);
}

#[test]
fn running_past_program_end_faults() {
    let (status, m) = run([load_imm(0, 0); 64], 1000);
    assert_eq!(status, Status::Faulted(Fault::AddressOutOfRange));
    assert_eq!(m.pc, 64);
}
