use vstd::prelude::*;

use std::collections::HashMap;

use crate::decode::{decode_spec, Insn};
use crate::execute::{
    destination, execute_spec, lemma_execute_keeps_zero, lemma_zero_destination_faults,
    ControlEffect, Cpu,
};
use crate::fault::Fault;
use crate::register::{
    as_signed, as_unsigned, reg_value, regs_wf, write_result, Reg, RegisterFile,
};

verus! {

/// What one fetched word does to a model of the register file: it is
/// decoded, then executed.
pub open spec fn step_spec(insn: Insn, regs: Seq<u32>) -> Result<(ControlEffect, Seq<u32>), Fault> {
    match decode_spec(insn@) {
        Ok(instr) => execute_spec(instr, regs),
        Err(e) => Err(e),
    }
}

/// How a run from `pc` ends: its outcome, the final pc and the final
/// registers. It ends cleanly when the pc passes the end of the program or a
/// system call halts, and with the first fault otherwise; a faulting or
/// halting instruction leaves the pc where it is.
pub open spec fn run_spec(program: Seq<Insn>, pc: nat, regs: Seq<u32>) -> (
    Result<(), Fault>,
    nat,
    Seq<u32>,
)
    decreases program.len() - pc,
{
    if pc >= program.len() {
        (Ok(()), pc, regs)
    } else {
        match step_spec(program[pc as int], regs) {
            Err(e) => (Err(e), pc, regs),
            Ok((ControlEffect::Halt, n)) => (Ok(()), pc, n),
            Ok((ControlEffect::Continue, n)) => run_spec(program, pc + 1, n),
        }
    }
}

/// A computer: an execution unit with its registers, a sparse memory, a
/// program of raw words and a pc that indexes the program.
pub struct Computer {
    cpu: Cpu,
    program: Vec<Insn>,
    /// Direct index into `program`, not a byte offset.
    pc: usize,
    memory: HashMap<u32, u32>,
}

impl Computer {
    /// The registers' model.
    pub closed spec fn regs_view(&self) -> Seq<u32> {
        self.cpu@
    }

    /// The memory's model.
    pub closed spec fn memory_view(&self) -> Map<u32, u32> {
        self.memory@
    }

    /// The program.
    pub closed spec fn program_view(&self) -> Seq<Insn> {
        self.program@
    }

    /// The index of the next instruction.
    pub closed spec fn pc_view(&self) -> nat {
        self.pc as nat
    }

    /// A computer at pc 0 with the given registers (register 0 forced to 0),
    /// memory and program.
    pub fn new(initial_registers: [u32; 32], memory: HashMap<u32, u32>, program: Vec<Insn>) -> (r:
        Computer)
        ensures
            r.regs_view() == initial_registers@.update(0, 0),
            regs_wf(r.regs_view()),
            r.memory_view() == memory@,
            r.program_view() == program@,
            r.pc_view() == 0,
    {
        Computer { cpu: Cpu::new(RegisterFile::from_values(initial_registers)), program, pc: 0, memory }
    }

    /// The registers.
    pub fn registers(&self) -> (r: &RegisterFile)
        ensures
            r@ == self.regs_view(),
    {
        self.cpu.registers()
    }

    /// The index of the next instruction.
    pub fn pc(&self) -> (r: usize)
        ensures
            r == self.pc_view(),
    {
        self.pc
    }

    /// The word stored at `addr`, if one is.
    pub fn read_memory(&self, addr: u32) -> (r: Option<u32>)
        ensures
            r == (if self.memory_view().contains_key(addr) {
                Some(self.memory_view()[addr])
            } else {
                None
            }),
    {
        broadcast use vstd::std_specs::hash::group_hash_axioms;

        match self.memory.get(&addr) {
            Some(v) => Some(*v),
            None => None,
        }
    }

    /// The register's word, unsigned.
    pub fn ru(&self, reg: Reg) -> (r: u32)
        ensures
            r == reg_value(self.regs_view(), reg),
            reg == Reg::Zero ==> r == 0,
    {
        self.cpu.registers().read_unsigned(reg)
    }

    /// The register's word, reinterpreted bit for bit as signed.
    pub fn ri(&self, reg: Reg) -> (r: i32)
        ensures
            r == as_signed(reg_value(self.regs_view(), reg)),
            reg == Reg::Zero ==> r == 0,
    {
        self.cpu.registers().read_signed(reg)
    }

    /// Writes an unsigned word to a register; refused, with nothing changed,
    /// for register 0.
    pub fn ru_mut(&mut self, reg: Reg, v: u32) -> (r: Result<(), Fault>)
        ensures
            final(self).program_view() == old(self).program_view(),
            final(self).memory_view() == old(self).memory_view(),
            final(self).pc_view() == old(self).pc_view(),
            match write_result(old(self).regs_view(), reg, v) {
                Ok(regs) => r == Ok::<(), Fault>(()) && final(self).regs_view() == regs,
                Err(e) => r == Err::<(), Fault>(e) && final(self).regs_view() == old(self).regs_view(),
            },
    {
        self.cpu.write_register(reg, v)
    }

    /// Writes a signed value to a register as its bit pattern; refused, with
    /// nothing changed, for register 0.
    pub fn ri_mut(&mut self, reg: Reg, v: i32) -> (r: Result<(), Fault>)
        ensures
            final(self).program_view() == old(self).program_view(),
            final(self).memory_view() == old(self).memory_view(),
            final(self).pc_view() == old(self).pc_view(),
            match write_result(old(self).regs_view(), reg, as_unsigned(v)) {
                Ok(regs) => r == Ok::<(), Fault>(()) && final(self).regs_view() == regs,
                Err(e) => r == Err::<(), Fault>(e) && final(self).regs_view() == old(self).regs_view(),
            },
    {
        self.ru_mut(reg, v as u32)
    }

    /// Decodes and executes one word. The pc moves on by one unless the
    /// instruction halts or faults; a fault changes nothing.
    pub fn try_handle_insn(&mut self, insn: Insn) -> (r: Result<ControlEffect, Fault>)
        requires
            old(self).pc_view() < usize::MAX,
        ensures
            final(self).program_view() == old(self).program_view(),
            final(self).memory_view() == old(self).memory_view(),
            match step_spec(insn, old(self).regs_view()) {
                Ok((e, n)) => r == Ok::<ControlEffect, Fault>(e) && final(self).regs_view() == n
                    && final(self).pc_view() == (if e == ControlEffect::Continue {
                    old(self).pc_view() + 1
                } else {
                    old(self).pc_view()
                }),
                Err(e) => r == Err::<ControlEffect, Fault>(e) && final(self).regs_view() == old(
                    self,
                ).regs_view() && final(self).pc_view() == old(self).pc_view(),
            },
    {
        let instr = insn.decode()?;
        let effect = self.cpu.try_handle_insn(&instr)?;
        if effect == ControlEffect::Continue {
            self.pc = self.pc + 1;
        }
        Ok(effect)
    }

    /// Runs the program from the pc until the pc passes its end, a system
    /// call halts, or a fault; the first fault is returned.
    pub fn run(&mut self) -> (r: Result<(), Fault>)
        ensures
            final(self).program_view() == old(self).program_view(),
            final(self).memory_view() == old(self).memory_view(),
            run_spec(old(self).program_view(), old(self).pc_view(), old(self).regs_view()) == (
                r,
                final(self).pc_view(),
                final(self).regs_view(),
            ),
    {
        let ghost outcome = run_spec(
            old(self).program_view(),
            old(self).pc_view(),
            old(self).regs_view(),
        );
        while self.pc < self.program.len()
            invariant
                self.program_view() == old(self).program_view(),
                self.memory_view() == old(self).memory_view(),
                outcome == run_spec(
                    old(self).program_view(),
                    old(self).pc_view(),
                    old(self).regs_view(),
                ),
                run_spec(self.program_view(), self.pc_view(), self.regs_view()) == outcome,
            decreases self.program_view().len() - self.pc_view(),
        {
            let insn = self.program[self.pc];
            match self.try_handle_insn(insn) {
                Err(e) => {
                    return Err(e);
                },
                Ok(ControlEffect::Halt) => {
                    return Ok(());
                },
                Ok(ControlEffect::Continue) => {},
            }
        }
        Ok(())
    }
}

/// A run whose pc is at or past the end of the program ends cleanly, with
/// nothing changed.
pub proof fn lemma_run_past_end(program: Seq<Insn>, pc: nat, regs: Seq<u32>)
    requires
        pc >= program.len(),
    ensures
        run_spec(program, pc, regs) == (Ok::<(), Fault>(()), pc, regs),
{
}

/// A run that reaches a word decoding to an instruction that writes
/// register 0 stops there with `ZeroRegisterWrite`, every register as it was.
pub proof fn lemma_run_zero_destination(program: Seq<Insn>, pc: nat, regs: Seq<u32>)
    requires
        pc < program.len(),
        decode_spec(program[pc as int]@) matches Ok(i) && destination(i) == Some(Reg::Zero),
    ensures
        run_spec(program, pc, regs) == (Err::<(), Fault>(Fault::ZeroRegisterWrite), pc, regs),
{
    lemma_zero_destination_faults(decode_spec(program[pc as int]@)->Ok_0, regs);
}

/// Register 0 holds 0 at the end of every run, whatever the program did.
pub proof fn lemma_run_keeps_zero(program: Seq<Insn>, pc: nat, regs: Seq<u32>)
    requires
        regs_wf(regs),
    ensures
        regs_wf(run_spec(program, pc, regs).2),
    decreases program.len() - pc,
{
    if pc < program.len() {
        match decode_spec(program[pc as int]@) {
            Ok(instr) => {
                lemma_execute_keeps_zero(instr, regs);
                match step_spec(program[pc as int], regs) {
                    Ok((ControlEffect::Continue, n)) => {
                        lemma_run_keeps_zero(program, pc + 1, n);
                    },
                    _ => {},
                }
            },
            Err(_) => {},
        }
    }
}

} // verus!
