use vstd::prelude::*;

use crate::decode::{sign_extend16, Funct, ImmOpcode, Instruction, RegInsn};
use crate::fault::Fault;
use crate::register::{as_signed, as_unsigned, reg_value, regs_wf, write_result, Reg, RegisterFile};

verus! {

/// The system call code that ends the run.
pub const EXIT_SYSCALL: u32 = 10;

/// What an executed instruction asks of the driver.
#[derive(Debug, Clone, Copy, PartialEq, Eq, Structural)]
pub enum ControlEffect {
    Continue,
    Halt,
}

/// The system call table: only the exit code is known.
pub open spec fn syscall_spec(code: u32) -> Result<ControlEffect, Fault> {
    if code == EXIT_SYSCALL {
        Ok(ControlEffect::Halt)
    } else {
        Err(Fault::UnsupportedSyscall(code))
    }
}

/// The sum of two words modulo 2^32.
pub open spec fn wrap_add(s: u32, t: u32) -> u32 {
    if s + t <= u32::MAX {
        (s + t) as u32
    } else {
        (s + t - 0x1_0000_0000) as u32
    }
}

/// The difference of two words modulo 2^32.
pub open spec fn wrap_sub(s: u32, t: u32) -> u32 {
    if s >= t {
        (s - t) as u32
    } else {
        (s - t + 0x1_0000_0000) as u32
    }
}

/// A signed result, which must fit in 32 bits, as a word.
pub open spec fn checked_signed(sum: int) -> Result<u32, Fault> {
    if i32::MIN <= sum <= i32::MAX {
        Ok(as_unsigned(sum as i32))
    } else {
        Err(Fault::IntegerOverflow)
    }
}

/// The word that a register-type operation computes from the words `s` of
/// rs and `t` of rt. A shift amount taken from a register uses its low five
/// bits. A system call computes no word; it stands here as 0.
pub open spec fn reg_op_spec(f: Funct, s: u32, t: u32, shamt: u32) -> Result<u32, Fault> {
    match f {
        Funct::Sll => Ok(t << shamt),
        Funct::SllV => Ok(t << (s & 31)),
        Funct::Srl => Ok(t >> shamt),
        Funct::SrlV => Ok(t >> (s & 31)),
        Funct::Sra => Ok(as_unsigned(as_signed(t) >> shamt)),
        Funct::SraV => Ok(as_unsigned(as_signed(t) >> (s & 31))),
        Funct::Add => checked_signed(as_signed(s) + as_signed(t)),
        Funct::AddU => Ok(wrap_add(s, t)),
        Funct::Sub => checked_signed(as_signed(s) - as_signed(t)),
        Funct::SubU => Ok(wrap_sub(s, t)),
        Funct::And => Ok(s & t),
        Funct::Or => Ok(s | t),
        Funct::Xor => Ok(s ^ t),
        Funct::Nor => Ok(!(s | t)),
        Funct::Syscall => Ok(0),
    }
}

/// The word that an immediate-type operation computes from the word `s` of
/// rs and the datum `d`: sign-extended for the additions, zero-extended for
/// the logical operations. The unsigned addition faults on a carry out.
pub open spec fn imm_op_spec(op: ImmOpcode, s: u32, d: u16) -> Result<u32, Fault> {
    match op {
        ImmOpcode::AddI => checked_signed(as_signed(s) + sign_extend16(d)),
        ImmOpcode::AddIU => if s + as_unsigned(sign_extend16(d)) <= u32::MAX {
            Ok((s + as_unsigned(sign_extend16(d))) as u32)
        } else {
            Err(Fault::IntegerOverflow)
        },
        ImmOpcode::AndI => Ok(s & (d as u32)),
        ImmOpcode::OrI => Ok(s | (d as u32)),
        ImmOpcode::XorI => Ok(s ^ (d as u32)),
        ImmOpcode::LuI => Ok((d as u32) << 16),
    }
}

/// The register an instruction writes, if it writes one.
pub open spec fn destination(instr: Instruction) -> Option<Reg> {
    match instr {
        Instruction::Reg(i) => if i.funct == Funct::Syscall {
            None
        } else {
            Some(i.rd)
        },
        Instruction::Imm(i) => Some(i.rt),
    }
}

/// What executing an instruction does to a model of the register file: the
/// effect and the new registers, or the fault, with the registers unchanged.
/// A destination of register 0 faults before anything is computed.
pub open spec fn execute_spec(instr: Instruction, regs: Seq<u32>) -> Result<
    (ControlEffect, Seq<u32>),
    Fault,
> {
    match instr {
        Instruction::Reg(i) => if i.funct == Funct::Syscall {
            match syscall_spec(reg_value(regs, Reg::V0)) {
                Ok(e) => Ok((e, regs)),
                Err(e) => Err(e),
            }
        } else if i.rd == Reg::Zero {
            Err(Fault::ZeroRegisterWrite)
        } else {
            match reg_op_spec(i.funct, reg_value(regs, i.rs), reg_value(regs, i.rt), i.shamt) {
                Ok(v) => Ok((ControlEffect::Continue, regs.update(i.rd.spec_index() as int, v))),
                Err(e) => Err(e),
            }
        },
        Instruction::Imm(i) => if i.rt == Reg::Zero {
            Err(Fault::ZeroRegisterWrite)
        } else {
            match imm_op_spec(i.opcode, reg_value(regs, i.rs), i.data) {
                Ok(v) => Ok((ControlEffect::Continue, regs.update(i.rt.spec_index() as int, v))),
                Err(e) => Err(e),
            }
        },
    }
}

/// Looks a system call code up: the exit code halts, any other is refused.
pub fn dispatch_syscall(code: u32) -> (r: Result<ControlEffect, Fault>)
    ensures
        r == syscall_spec(code),
{
    if code == EXIT_SYSCALL {
        Ok(ControlEffect::Halt)
    } else {
        Err(Fault::UnsupportedSyscall(code))
    }
}

/// A signed sum or difference that must fit in 32 bits, as a word.
fn signed_result(v: Option<i32>) -> (r: Result<u32, Fault>)
    ensures
        r == match v {
            Some(x) => Ok::<u32, Fault>(as_unsigned(x)),
            None => Err(Fault::IntegerOverflow),
        },
{
    match v {
        Some(x) => Ok(x as u32),
        None => Err(Fault::IntegerOverflow),
    }
}

/// Computes a register-type operation on the words `s` of rs and `t` of rt.
pub fn reg_op(f: Funct, s: u32, t: u32, shamt: u32) -> (r: Result<u32, Fault>)
    requires
        shamt < 32,
    ensures
        r == reg_op_spec(f, s, t, shamt),
{
    assert(s & 31 < 32) by (bit_vector);
    match f {
        Funct::Sll => Ok(t << shamt),
        Funct::SllV => Ok(t << (s & 31)),
        Funct::Srl => Ok(t >> shamt),
        Funct::SrlV => Ok(t >> (s & 31)),
        Funct::Sra => Ok(((t as i32) >> shamt) as u32),
        Funct::SraV => Ok(((t as i32) >> (s & 31)) as u32),
        Funct::Add => signed_result((s as i32).checked_add(t as i32)),
        Funct::AddU => Ok(s.wrapping_add(t)),
        Funct::Sub => signed_result((s as i32).checked_sub(t as i32)),
        Funct::SubU => Ok(s.wrapping_sub(t)),
        Funct::And => Ok(s & t),
        Funct::Or => Ok(s | t),
        Funct::Xor => Ok(s ^ t),
        Funct::Nor => Ok(!(s | t)),
        Funct::Syscall => Ok(0),
    }
}

/// Computes an immediate-type operation on the word `s` of rs and the datum `d`.
pub fn imm_op(op: ImmOpcode, s: u32, d: u16) -> (r: Result<u32, Fault>)
    ensures
        r == imm_op_spec(op, s, d),
{
    let di: i32 = (d as i16) as i32;
    assert((d as i16) as i32 == if d < 0x8000 { d as i32 } else { (d - 0x10000) as i32 })
        by (bit_vector);
    match op {
        ImmOpcode::AddI => signed_result((s as i32).checked_add(di)),
        ImmOpcode::AddIU => match s.checked_add(di as u32) {
            Some(v) => Ok(v),
            None => Err(Fault::IntegerOverflow),
        },
        ImmOpcode::AndI => Ok(s & (d as u32)),
        ImmOpcode::OrI => Ok(s | (d as u32)),
        ImmOpcode::XorI => Ok(s ^ (d as u32)),
        ImmOpcode::LuI => Ok((d as u32) << 16),
    }
}

/// The execution unit: a register file that decoded instructions act on.
pub struct Cpu {
    regs: RegisterFile,
}

impl View for Cpu {
    type V = Seq<u32>;

    closed spec fn view(&self) -> Seq<u32> {
        self.regs@
    }
}

impl Cpu {
    /// An execution unit over `regs`.
    pub fn new(regs: RegisterFile) -> (r: Cpu)
        ensures
            r@ == regs@,
    {
        Cpu { regs }
    }

    /// The register file.
    pub fn registers(&self) -> (r: &RegisterFile)
        ensures
            r@ == self@,
    {
        &self.regs
    }

    /// Writes a word to a register; refused, with nothing changed, for
    /// register 0.
    pub fn write_register(&mut self, reg: Reg, v: u32) -> (r: Result<(), Fault>)
        ensures
            match write_result(old(self)@, reg, v) {
                Ok(regs) => r == Ok::<(), Fault>(()) && final(self)@ == regs,
                Err(e) => r == Err::<(), Fault>(e) && final(self)@ == old(self)@,
            },
    {
        self.regs.write_unsigned(reg, v)
    }

    /// Executes a decoded instruction. On a fault nothing has been changed.
    pub fn try_handle_insn(&mut self, insn: &Instruction) -> (r: Result<ControlEffect, Fault>)
        requires
            insn.wf(),
        ensures
            match execute_spec(*insn, old(self)@) {
                Ok((e, n)) => r == Ok::<ControlEffect, Fault>(e) && final(self)@ == n,
                Err(e) => r == Err::<ControlEffect, Fault>(e) && final(self)@ == old(self)@,
            },
    {
        match insn {
            Instruction::Reg(i) => {
                if i.funct == Funct::Syscall {
                    return dispatch_syscall(self.regs.read_unsigned(Reg::V0));
                }
                if i.rd == Reg::Zero {
                    return Err(Fault::ZeroRegisterWrite);
                }
                let s = self.regs.read_unsigned(i.rs);
                let t = self.regs.read_unsigned(i.rt);
                let v = reg_op(i.funct, s, t, i.shamt)?;
                self.regs.write_unsigned(i.rd, v)?;
            },
            Instruction::Imm(i) => {
                if i.rt == Reg::Zero {
                    return Err(Fault::ZeroRegisterWrite);
                }
                let v = imm_op(i.opcode, self.regs.read_unsigned(i.rs), i.data)?;
                self.regs.write_unsigned(i.rt, v)?;
            },
        }
        Ok(ControlEffect::Continue)
    }
}

/// Every instruction whose destination is register 0 faults with
/// `ZeroRegisterWrite`; by `Cpu::try_handle_insn`'s contract the registers stay as they were.
pub proof fn lemma_zero_destination_faults(instr: Instruction, regs: Seq<u32>)
    requires
        destination(instr) == Some(Reg::Zero),
    ensures
        execute_spec(instr, regs) == Err::<(ControlEffect, Seq<u32>), Fault>(
            Fault::ZeroRegisterWrite,
        ),
{
}

/// Executing an instruction never changes register 0, nor the number of
/// registers.
pub proof fn lemma_execute_keeps_zero(instr: Instruction, regs: Seq<u32>)
    requires
        regs_wf(regs),
    ensures
        execute_spec(instr, regs) matches Ok((_, n)) ==> regs_wf(n),
{
}

/// A system call with the exit code in V0 halts and changes no register; any
/// other code faults with `UnsupportedSyscall` carrying it.
pub proof fn lemma_syscall(i: RegInsn, regs: Seq<u32>)
    requires
        regs_wf(regs),
        i.funct == Funct::Syscall,
    ensures
        reg_value(regs, Reg::V0) == EXIT_SYSCALL ==> execute_spec(Instruction::Reg(i), regs) == Ok::<
            (ControlEffect, Seq<u32>),
            Fault,
        >((ControlEffect::Halt, regs)),
        reg_value(regs, Reg::V0) != EXIT_SYSCALL ==> execute_spec(Instruction::Reg(i), regs)
            == Err::<(ControlEffect, Seq<u32>), Fault>(
            Fault::UnsupportedSyscall(reg_value(regs, Reg::V0)),
        ),
{
}

/// Load-upper-immediate yields the datum times 2^16, whatever rs holds: the
/// datum in the high half, zeros in the low half.
pub proof fn lemma_load_upper(s: u32, d: u16)
    ensures
        imm_op_spec(ImmOpcode::LuI, s, d) == Ok::<u32, Fault>((d as u32 * 0x10000) as u32),
        (d as u32 * 0x10000) as u32 & 0xFFFF == 0,
        (d as u32 * 0x10000) as u32 >> 16 == d as u32,
{
    assert((d as u32) << 16 == (d as u32 * 0x10000) as u32) by (bit_vector);
    assert((d as u32 * 0x10000) as u32 & 0xFFFF == 0) by (bit_vector);
    assert((d as u32 * 0x10000) as u32 >> 16 == d as u32) by (bit_vector);
}

} // verus!
