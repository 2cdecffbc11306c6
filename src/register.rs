use vstd::prelude::*;

use crate::fault::Fault;

verus! {

/// The 32 architectural registers, in index order. `Zero` always reads 0.
#[derive(Debug, Clone, Copy, PartialEq, Eq, Structural)]
pub enum Reg {
    Zero,
    At,
    V0,
    V1,
    A0,
    A1,
    A2,
    A3,
    T0,
    T1,
    T2,
    T3,
    T4,
    T5,
    T6,
    T7,
    S0,
    S1,
    S2,
    S3,
    S4,
    S5,
    S6,
    S7,
    T8,
    T9,
    K0,
    K1,
    GP,
    SP,
    FP,
    RA,
}

impl Reg {
    /// The register's index, 0 to 31.
    pub open spec fn spec_index(self) -> usize {
        match self {
            Reg::Zero => 0,
            Reg::At => 1,
            Reg::V0 => 2,
            Reg::V1 => 3,
            Reg::A0 => 4,
            Reg::A1 => 5,
            Reg::A2 => 6,
            Reg::A3 => 7,
            Reg::T0 => 8,
            Reg::T1 => 9,
            Reg::T2 => 10,
            Reg::T3 => 11,
            Reg::T4 => 12,
            Reg::T5 => 13,
            Reg::T6 => 14,
            Reg::T7 => 15,
            Reg::S0 => 16,
            Reg::S1 => 17,
            Reg::S2 => 18,
            Reg::S3 => 19,
            Reg::S4 => 20,
            Reg::S5 => 21,
            Reg::S6 => 22,
            Reg::S7 => 23,
            Reg::T8 => 24,
            Reg::T9 => 25,
            Reg::K0 => 26,
            Reg::K1 => 27,
            Reg::GP => 28,
            Reg::SP => 29,
            Reg::FP => 30,
            Reg::RA => 31,
        }
    }

    /// The register's index, 0 to 31.
    #[verifier::when_used_as_spec(spec_index)]
    pub fn index(self) -> (r: usize)
        ensures
            r == self.spec_index(),
            r < 32,
    {
        match self {
            Reg::Zero => 0,
            Reg::At => 1,
            Reg::V0 => 2,
            Reg::V1 => 3,
            Reg::A0 => 4,
            Reg::A1 => 5,
            Reg::A2 => 6,
            Reg::A3 => 7,
            Reg::T0 => 8,
            Reg::T1 => 9,
            Reg::T2 => 10,
            Reg::T3 => 11,
            Reg::T4 => 12,
            Reg::T5 => 13,
            Reg::T6 => 14,
            Reg::T7 => 15,
            Reg::S0 => 16,
            Reg::S1 => 17,
            Reg::S2 => 18,
            Reg::S3 => 19,
            Reg::S4 => 20,
            Reg::S5 => 21,
            Reg::S6 => 22,
            Reg::S7 => 23,
            Reg::T8 => 24,
            Reg::T9 => 25,
            Reg::K0 => 26,
            Reg::K1 => 27,
            Reg::GP => 28,
            Reg::SP => 29,
            Reg::FP => 30,
            Reg::RA => 31,
        }
    }

    /// The register with index `i`: every 5-bit field names one.
    pub fn from_index(i: u32) -> (r: Reg)
        requires
            i < 32,
        ensures
            r.spec_index() == i,
    {
        match i {
            0 => Reg::Zero,
            1 => Reg::At,
            2 => Reg::V0,
            3 => Reg::V1,
            4 => Reg::A0,
            5 => Reg::A1,
            6 => Reg::A2,
            7 => Reg::A3,
            8 => Reg::T0,
            9 => Reg::T1,
            10 => Reg::T2,
            11 => Reg::T3,
            12 => Reg::T4,
            13 => Reg::T5,
            14 => Reg::T6,
            15 => Reg::T7,
            16 => Reg::S0,
            17 => Reg::S1,
            18 => Reg::S2,
            19 => Reg::S3,
            20 => Reg::S4,
            21 => Reg::S5,
            22 => Reg::S6,
            23 => Reg::S7,
            24 => Reg::T8,
            25 => Reg::T9,
            26 => Reg::K0,
            27 => Reg::K1,
            28 => Reg::GP,
            29 => Reg::SP,
            30 => Reg::FP,
            _ => Reg::RA,
        }
    }
}

/// A register's 32 bits read as a two's-complement signed value.
pub open spec fn as_signed(v: u32) -> i32 {
    v as i32
}

/// A signed value's 32 bits read as an unsigned value.
pub open spec fn as_unsigned(v: i32) -> u32 {
    v as u32
}

/// Reads a register out of a model of the register file.
pub open spec fn reg_value(regs: Seq<u32>, r: Reg) -> u32 {
    regs[r.spec_index() as int]
}

/// A model of the register file: 32 words, the first of them 0.
pub open spec fn regs_wf(regs: Seq<u32>) -> bool {
    regs.len() == 32 && regs[0] == 0
}

/// What writing `v` to `r` does to a model of the register file: it fails,
/// changing nothing, exactly when `r` is the zero register.
pub open spec fn write_result(regs: Seq<u32>, r: Reg, v: u32) -> Result<Seq<u32>, Fault> {
    if r == Reg::Zero {
        Err(Fault::ZeroRegisterWrite)
    } else {
        Ok(regs.update(r.spec_index() as int, v))
    }
}

/// The 32 general-purpose registers. Each holds one 32-bit word, read either
/// as unsigned or, bit for bit, as signed; register 0 is always 0.
pub struct RegisterFile {
    regs: [u32; 32],
}

impl View for RegisterFile {
    type V = Seq<u32>;

    closed spec fn view(&self) -> Seq<u32> {
        self.regs@
    }
}

impl RegisterFile {
    #[verifier::type_invariant]
    spec fn inv(self) -> bool {
        self.regs@[0] == 0
    }

    /// A register file with every register 0.
    pub fn new() -> (r: RegisterFile)
        ensures
            r@ == Seq::new(32, |i: int| 0u32),
            regs_wf(r@),
    {
        let r = RegisterFile { regs: [0u32; 32] };
        assert(r@ =~= Seq::new(32, |i: int| 0u32));
        r
    }

    /// A register file holding `values`, but for register 0, which holds 0.
    pub fn from_values(values: [u32; 32]) -> (r: RegisterFile)
        ensures
            r@ == values@.update(0, 0),
            regs_wf(r@),
    {
        let mut regs = values;
        regs[0] = 0;
        RegisterFile { regs }
    }

    /// The register's word, unsigned.
    pub fn read_unsigned(&self, r: Reg) -> (v: u32)
        ensures
            regs_wf(self@),
            v == reg_value(self@, r),
            r == Reg::Zero ==> v == 0,
    {
        proof {
            use_type_invariant(self);
        }
        self.regs[r.index()]
    }

    /// The register's word, reinterpreted bit for bit as signed.
    pub fn read_signed(&self, r: Reg) -> (v: i32)
        ensures
            v == as_signed(reg_value(self@, r)),
            r == Reg::Zero ==> v == 0,
    {
        proof {
            use_type_invariant(self);
        }
        self.regs[r.index()] as i32
    }

    /// Writes an unsigned word; refused, with nothing changed, for register 0.
    pub fn write_unsigned(&mut self, r: Reg, v: u32) -> (res: Result<(), Fault>)
        ensures
            match write_result(old(self)@, r, v) {
                Ok(regs) => res == Ok::<(), Fault>(()) && final(self)@ == regs,
                Err(e) => res == Err::<(), Fault>(e) && final(self)@ == old(self)@,
            },
            regs_wf(final(self)@),
    {
        proof {
            use_type_invariant(&*self);
        }
        if r == Reg::Zero {
            return Err(Fault::ZeroRegisterWrite);
        }
        self.regs[r.index()] = v;
        Ok(())
    }

    /// Writes a signed value as its bit pattern; refused, with nothing
    /// changed, for register 0.
    pub fn write_signed(&mut self, r: Reg, v: i32) -> (res: Result<(), Fault>)
        ensures
            match write_result(old(self)@, r, as_unsigned(v)) {
                Ok(regs) => res == Ok::<(), Fault>(()) && final(self)@ == regs,
                Err(e) => res == Err::<(), Fault>(e) && final(self)@ == old(self)@,
            },
            regs_wf(final(self)@),
    {
        self.write_unsigned(r, v as u32)
    }
}

/// Writing a word to any register but register 0 succeeds, and reading the
/// register back gives the same bits through the matching view: the word
/// unsigned, or the signed value that was written.
pub proof fn lemma_write_then_read(regs: Seq<u32>, r: Reg, v: u32, w: i32)
    requires
        regs_wf(regs),
        r != Reg::Zero,
    ensures
        write_result(regs, r, v) matches Ok(n) && reg_value(n, r) == v && regs_wf(n),
        write_result(regs, r, as_unsigned(w)) matches Ok(n) && as_signed(reg_value(n, r)) == w
            && regs_wf(n),
{
    assert((w as u32) as i32 == w) by (bit_vector);
}

} // verus!
