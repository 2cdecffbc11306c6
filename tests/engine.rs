use std::collections::HashMap;

use mips_emulator::decode::{decode, Funct, ImmInsn, ImmOpcode, Insn, Instruction, Opcode, RegInsn};
use mips_emulator::execute::{dispatch_syscall, imm_op, reg_op, ControlEffect, Cpu};
use mips_emulator::fault::Fault;
use mips_emulator::machine::Computer;
use mips_emulator::register::{Reg, RegisterFile};

fn r_word(rs: u32, rt: u32, rd: u32, shamt: u32, funct: u32) -> u32 {
    (rs << 21) | (rt << 16) | (rd << 11) | (shamt << 6) | funct
}

fn i_word(op: u32, rs: u32, rt: u32, imm: u32) -> u32 {
    (op << 26) | (rs << 21) | (rt << 16) | imm
}

fn machine(regs: [(usize, u32); 3], words: &[u32]) -> Computer {
    let mut init = [0u32; 32];
    for (i, v) in regs {
        init[i] = v;
    }
    Computer::new(init, HashMap::new(), words.iter().map(|w| Insn::new(*w)).collect())
}

fn reg(m: &Computer, r: u32) -> u32 {
    m.registers().read_unsigned(Reg::from_index(r))
}

#[test]
fn write_then_read_every_register() {
    let mut rf = RegisterFile::new();
    for i in 1..32u32 {
        for v in [0u32, 1, 0x7FFF_FFFF, 0x8000_0000, 0xFFFF_FFFF, 0x1234_5678] {
            let r = Reg::from_index(i);
            assert_eq!(rf.write_unsigned(r, v), Ok(()));
            assert_eq!(rf.read_unsigned(r), v);
            assert_eq!(rf.read_signed(r), v as i32);
        }
        for v in [0i32, -1, i32::MIN, i32::MAX, 42] {
            let r = Reg::from_index(i);
            assert_eq!(rf.write_signed(r, v), Ok(()));
            assert_eq!(rf.read_signed(r), v);
            assert_eq!(rf.read_unsigned(r), v as u32);
        }
    }
}

#[test]
fn signed_view_aliases_unsigned_storage() {
    let mut rf = RegisterFile::new();
    assert_eq!(rf.write_signed(Reg::T0, -2), Ok(()));
    assert_eq!(rf.read_unsigned(Reg::T0), 0xFFFF_FFFE);
    assert_eq!(rf.write_unsigned(Reg::T0, 0x8000_0000), Ok(()));
    assert_eq!(rf.read_signed(Reg::T0), i32::MIN);
}

#[test]
fn register_file_refuses_zero_writes() {
    let mut rf = RegisterFile::new();
    assert_eq!(rf.write_unsigned(Reg::Zero, 7), Err(Fault::ZeroRegisterWrite));
    assert_eq!(rf.write_signed(Reg::Zero, -7), Err(Fault::ZeroRegisterWrite));
    assert_eq!(rf.read_unsigned(Reg::Zero), 0);
    assert_eq!(rf.read_signed(Reg::Zero), 0);
}

#[test]
fn zero_destination_instructions_fault_and_change_nothing() {
    let words = [
        r_word(8, 9, 0, 0, 0x20),
        r_word(8, 9, 0, 0, 0x21),
        r_word(8, 9, 0, 0, 0x25),
        r_word(8, 9, 0, 3, 0x00),
        i_word(0x08, 8, 0, 5),
        i_word(0x0F, 8, 0, 0x1234),
        i_word(0x0D, 8, 0, 1),
    ];
    for w in words {
        let mut m = machine([(8, 0x7FFF_FFFF), (9, 1), (10, 3)], &[w]);
        assert_eq!(m.run(), Err(Fault::ZeroRegisterWrite));
        assert_eq!(m.pc(), 0);
        for i in 0..32u32 {
            let expected = match i {
                8 => 0x7FFF_FFFF,
                9 => 1,
                10 => 3,
                _ => 0,
            };
            assert_eq!(reg(&m, i), expected);
        }
    }
}

#[test]
fn zero_destination_wins_over_overflow() {
    let mut m = machine([(8, 0x7FFF_FFFF), (9, 1), (10, 0)], &[r_word(8, 9, 0, 0, 0x20)]);
    assert_eq!(m.run(), Err(Fault::ZeroRegisterWrite));
}

#[test]
fn register_zero_reads_zero() {
    let mut init = [5u32; 32];
    init[0] = 99;
    let rf = RegisterFile::from_values(init);
    assert_eq!(rf.read_unsigned(Reg::Zero), 0);
    assert_eq!(rf.read_signed(Reg::Zero), 0);
    assert_eq!(rf.read_unsigned(Reg::At), 5);
    let mut m = Computer::new(init, HashMap::new(), vec![Insn::new(i_word(0x0D, 1, 2, 0xFF))]);
    assert_eq!(m.run(), Ok(()));
    assert_eq!(m.registers().read_unsigned(Reg::Zero), 0);
    assert_eq!(m.registers().read_signed(Reg::Zero), 0);
    assert_eq!(m.registers().read_unsigned(Reg::V0), 0xFF);
}

#[test]
fn add_checked_overflows_add_unsigned_wraps() {
    let mut m = machine([(8, 0x7FFF_FFFF), (9, 1), (10, 0)], &[r_word(8, 9, 10, 0, 0x20)]);
    assert_eq!(m.run(), Err(Fault::IntegerOverflow));
    assert_eq!(reg(&m, 10), 0);
    let mut m = machine([(8, 0x7FFF_FFFF), (9, 1), (10, 0)], &[r_word(8, 9, 10, 0, 0x21)]);
    assert_eq!(m.run(), Ok(()));
    assert_eq!(reg(&m, 10), 0x8000_0000);
}

#[test]
fn subtract_checked_overflows_subtract_unsigned_wraps() {
    assert_eq!(reg_op(Funct::Sub, 0x8000_0000, 1, 0), Err(Fault::IntegerOverflow));
    assert_eq!(reg_op(Funct::Sub, 5, 7, 0), Ok((-2i32) as u32));
    assert_eq!(reg_op(Funct::SubU, 0, 1, 0), Ok(0xFFFF_FFFF));
    assert_eq!(reg_op(Funct::SubU, 0x8000_0000, 1, 0), Ok(0x7FFF_FFFF));
    assert_eq!(reg_op(Funct::Add, (-3i32) as u32, 1, 0), Ok((-2i32) as u32));
    assert_eq!(reg_op(Funct::Add, 0x8000_0000, 0x8000_0000, 0), Err(Fault::IntegerOverflow));
    assert_eq!(reg_op(Funct::AddU, 0xFFFF_FFFF, 2, 0), Ok(1));
}

#[test]
fn decode_zero_word_is_a_shift_that_writes_zero() {
    let expected = Instruction::Reg(RegInsn {
        rs: Reg::Zero,
        rt: Reg::Zero,
        rd: Reg::Zero,
        shamt: 0,
        funct: Funct::Sll,
    });
    assert_eq!(decode(0), Ok(expected));
    let mut cpu = Cpu::new(RegisterFile::new());
    assert_eq!(cpu.try_handle_insn(&expected), Err(Fault::ZeroRegisterWrite));
    let mut m = machine([(1, 1), (2, 2), (3, 3)], &[0]);
    assert_eq!(m.run(), Err(Fault::ZeroRegisterWrite));
}

#[test]
fn unknown_opcode_is_refused() {
    assert_eq!(decode(0xFC00_0000), Err(Fault::InvalidOpcode(0b11_1111)));
    assert_eq!(decode(0xFFFF_FFFF), Err(Fault::InvalidOpcode(0b11_1111)));
    assert_eq!(decode(i_word(0x02, 0, 0, 0)), Err(Fault::InvalidOpcode(2)));
    assert_eq!(Insn::new(0x0400_0000).opcode(), Err(Fault::InvalidOpcode(1)));
    let mut m = machine([(1, 1), (2, 2), (3, 3)], &[0xFC00_0000]);
    assert_eq!(m.run(), Err(Fault::InvalidOpcode(0b11_1111)));
}

#[test]
fn unknown_funct_is_refused() {
    assert_eq!(decode(r_word(1, 2, 3, 0, 0x01)), Err(Fault::InvalidFunct(1)));
    assert_eq!(decode(r_word(1, 2, 3, 0, 0x3F)), Err(Fault::InvalidFunct(0x3F)));
    assert_eq!(Insn::new(0x05).funct(), Err(Fault::InvalidFunct(5)));
}

#[test]
fn exit_syscall_halts_and_changes_nothing() {
    let words = [r_word(0, 0, 0, 0, 0x0C), i_word(0x0D, 0, 8, 0xFFFF)];
    let mut m = machine([(2, 10), (8, 4), (31, 9)], &words);
    assert_eq!(m.run(), Ok(()));
    assert_eq!(m.pc(), 0);
    for i in 0..32u32 {
        let expected = match i {
            2 => 10,
            8 => 4,
            31 => 9,
            _ => 0,
        };
        assert_eq!(reg(&m, i), expected);
    }
}

#[test]
fn other_syscall_codes_are_refused() {
    let mut m = machine([(2, 5), (8, 4), (31, 9)], &[r_word(0, 0, 0, 0, 0x0C)]);
    assert_eq!(m.run(), Err(Fault::UnsupportedSyscall(5)));
    assert_eq!(dispatch_syscall(10), Ok(ControlEffect::Halt));
    assert_eq!(dispatch_syscall(0), Err(Fault::UnsupportedSyscall(0)));
    assert_eq!(dispatch_syscall(11), Err(Fault::UnsupportedSyscall(11)));
}

#[test]
fn load_upper_immediate_discards_prior_value() {
    let mut m = machine([(8, 0xFFFF_FFFF), (9, 0xABCD), (10, 0)], &[i_word(0x0F, 9, 8, 0x1234)]);
    assert_eq!(m.run(), Ok(()));
    assert_eq!(reg(&m, 8), 0x1234_0000);
    assert_eq!(imm_op(ImmOpcode::LuI, 7, 0xFFFF), Ok(0xFFFF_0000));
}

#[test]
fn running_past_the_end_succeeds() {
    let mut m = machine([(1, 1), (2, 2), (3, 3)], &[]);
    assert_eq!(m.run(), Ok(()));
    assert_eq!(m.pc(), 0);
    let words = [i_word(0x08, 0, 8, 5), i_word(0x08, 8, 8, 5), r_word(8, 8, 9, 0, 0x21)];
    let mut m = machine([(1, 1), (2, 2), (3, 3)], &words);
    assert_eq!(m.run(), Ok(()));
    assert_eq!(m.pc(), 3);
    assert_eq!(reg(&m, 8), 10);
    assert_eq!(reg(&m, 9), 20);
}

#[test]
fn handling_an_instruction_advances_pc_by_one() {
    let mut m = machine([(1, 1), (2, 10), (3, 3)], &[]);
    assert_eq!(m.try_handle_insn(Insn::new(i_word(0x0D, 0, 8, 7))), Ok(ControlEffect::Continue));
    assert_eq!(m.pc(), 1);
    assert_eq!(m.ru(Reg::T0), 7);
    assert_eq!(m.ri(Reg::T1), 0);
    assert_eq!(m.try_handle_insn(Insn::new(r_word(0, 0, 0, 0, 0x0C))), Ok(ControlEffect::Halt));
    assert_eq!(m.pc(), 1);
    assert_eq!(m.try_handle_insn(Insn::new(0xFC00_0000)), Err(Fault::InvalidOpcode(0x3F)));
    assert_eq!(m.pc(), 1);
}

#[test]
fn computer_register_accessors() {
    let mut m = machine([(1, 1), (2, 2), (3, 3)], &[]);
    assert_eq!(m.ru_mut(Reg::S0, 0xFFFF_FFFF), Ok(()));
    assert_eq!(m.ri(Reg::S0), -1);
    assert_eq!(m.ri_mut(Reg::S1, -5), Ok(()));
    assert_eq!(m.ru(Reg::S1), 0xFFFF_FFFB);
    assert_eq!(m.ru_mut(Reg::Zero, 1), Err(Fault::ZeroRegisterWrite));
    assert_eq!(m.ri_mut(Reg::Zero, 1), Err(Fault::ZeroRegisterWrite));
    assert_eq!(m.ru(Reg::Zero), 0);
    let mut cpu = Cpu::new(RegisterFile::new());
    assert_eq!(cpu.write_register(Reg::A0, 9), Ok(()));
    assert_eq!(cpu.write_register(Reg::Zero, 9), Err(Fault::ZeroRegisterWrite));
    assert_eq!(cpu.registers().read_unsigned(Reg::A0), 9);
}

#[test]
fn shifts() {
    assert_eq!(reg_op(Funct::Sll, 0, 0x8000_0001, 1), Ok(2));
    assert_eq!(reg_op(Funct::SllV, 33, 3, 0), Ok(6));
    assert_eq!(reg_op(Funct::Srl, 0, 0x8000_0000, 4), Ok(0x0800_0000));
    assert_eq!(reg_op(Funct::SrlV, 35, 0x80, 31), Ok(0x10));
    assert_eq!(reg_op(Funct::Sra, 0, 0x8000_0000, 4), Ok(0xF800_0000));
    assert_eq!(reg_op(Funct::Sra, 0, 0x4000_0000, 4), Ok(0x0400_0000));
    assert_eq!(reg_op(Funct::SraV, 0xFFFF_FFFF, 0x8000_0000, 0), Ok(0xFFFF_FFFF));
    let mut m = machine([(8, 4), (9, 1), (10, 0)], &[r_word(8, 9, 10, 0, 0x04)]);
    assert_eq!(m.run(), Ok(()));
    assert_eq!(reg(&m, 10), 16);
}

#[test]
fn bitwise_operations() {
    assert_eq!(reg_op(Funct::And, 0b1100, 0b1010, 0), Ok(0b1000));
    assert_eq!(reg_op(Funct::Or, 0b1100, 0b1010, 0), Ok(0b1110));
    assert_eq!(reg_op(Funct::Xor, 0b1100, 0b1010, 0), Ok(0b0110));
    assert_eq!(reg_op(Funct::Nor, 0b1100, 0b1010, 0), Ok(0xFFFF_FFF1));
}

#[test]
fn immediate_operations() {
    assert_eq!(imm_op(ImmOpcode::AndI, 0xFFFF_FFFF, 0x8001), Ok(0x8001));
    assert_eq!(imm_op(ImmOpcode::OrI, 0x1_0000, 0xFFFF), Ok(0x1_FFFF));
    assert_eq!(imm_op(ImmOpcode::XorI, 0xFFFF_FFFF, 0x00FF), Ok(0xFFFF_FF00));
    assert_eq!(imm_op(ImmOpcode::AddI, 5, 0xFFFF), Ok(4));
    assert_eq!(imm_op(ImmOpcode::AddI, 0x7FFF_FFFF, 1), Err(Fault::IntegerOverflow));
    assert_eq!(imm_op(ImmOpcode::AddI, 0x8000_0000, 0xFFFF), Err(Fault::IntegerOverflow));
    assert_eq!(imm_op(ImmOpcode::AddIU, 5, 3), Ok(8));
    assert_eq!(imm_op(ImmOpcode::AddIU, 0, 0xFFFF), Ok(0xFFFF_FFFF));
    assert_eq!(imm_op(ImmOpcode::AddIU, 5, 0xFFFF), Err(Fault::IntegerOverflow));
    assert_eq!(imm_op(ImmOpcode::AddIU, 0xFFFF_FFFF, 1), Err(Fault::IntegerOverflow));
}

#[test]
fn field_extraction() {
    let w = Insn::new(r_word(17, 18, 19, 21, 0x27));
    assert_eq!(w.word(), r_word(17, 18, 19, 21, 0x27));
    assert_eq!(w.opcode(), Ok(Opcode::Reg));
    assert_eq!(w.rs(), Reg::S1);
    assert_eq!(w.rt(), Reg::S2);
    assert_eq!(w.rd(), Reg::S3);
    assert_eq!(w.shamt(), 21);
    assert_eq!(w.funct(), Ok(Funct::Nor));
    let w = Insn::new(i_word(0x0E, 31, 29, 0x8000));
    assert_eq!(w.opcode(), Ok(Opcode::XorI));
    assert_eq!(w.du(), 0x8000);
    assert_eq!(w.di(), -0x8000);
    assert_eq!(w.addr(), 0x03FD_8000);
    assert_eq!(Insn::new(0x7FFF).di(), 0x7FFF);
    assert_eq!(
        decode(i_word(0x09, 4, 5, 0xFFFE)),
        Ok(Instruction::Imm(ImmInsn { opcode: ImmOpcode::AddIU, rs: Reg::A0, rt: Reg::A1, data: 0xFFFE }))
    );
}

#[test]
fn register_indices() {
    for i in 0..32u32 {
        assert_eq!(Reg::from_index(i).index(), i as usize);
    }
    assert_eq!(Reg::V0.index(), 2);
    assert_eq!(Reg::RA.index(), 31);
}

#[test]
fn memory_is_kept() {
    let mut mem = HashMap::new();
    mem.insert(0x100u32, 0xDEAD_BEEFu32);
    let m = Computer::new([0u32; 32], mem, vec![]);
    assert_eq!(m.read_memory(0x100), Some(0xDEAD_BEEF));
    assert_eq!(m.read_memory(0x104), None);
}
