use vstd::prelude::*;

use crate::fault::Fault;
use crate::register::Reg;

verus! {

/// The operation family named by the top six bits of a word.
#[derive(Debug, Clone, Copy, PartialEq, Eq, Structural)]
pub enum Opcode {
    Reg,
    AddI,
    AddIU,
    AndI,
    OrI,
    XorI,
    LuI,
}

/// The operation of a register-type word, named by its low six bits.
#[derive(Debug, Clone, Copy, PartialEq, Eq, Structural)]
pub enum Funct {
    Sll,
    SllV,
    Srl,
    SrlV,
    Sra,
    SraV,
    Syscall,
    Add,
    AddU,
    Sub,
    SubU,
    And,
    Or,
    Xor,
    Nor,
}

/// The operation of an immediate-type instruction.
#[derive(Debug, Clone, Copy, PartialEq, Eq, Structural)]
pub enum ImmOpcode {
    AddI,
    AddIU,
    AndI,
    OrI,
    XorI,
    LuI,
}

/// A register-type instruction: `rd <- rs op rt`, or a shift of `rt`.
#[derive(Debug, Clone, Copy, PartialEq, Eq, Structural)]
pub struct RegInsn {
    pub rs: Reg,
    pub rt: Reg,
    pub rd: Reg,
    pub shamt: u32,
    pub funct: Funct,
}

/// An immediate-type instruction: `rt <- rs op data`.
#[derive(Debug, Clone, Copy, PartialEq, Eq, Structural)]
pub struct ImmInsn {
    pub opcode: ImmOpcode,
    pub rs: Reg,
    pub rt: Reg,
    pub data: u16,
}

/// A decoded instruction.
#[derive(Debug, Clone, Copy, PartialEq, Eq, Structural)]
pub enum Instruction {
    Reg(RegInsn),
    Imm(ImmInsn),
}

impl Instruction {
    /// Every field is in range: the shift amount has five bits.
    pub open spec fn wf(self) -> bool {
        match self {
            Instruction::Reg(i) => i.shamt < 32,
            Instruction::Imm(_) => true,
        }
    }
}

/// The operation family with opcode bits `bits`, if there is one.
pub open spec fn opcode_of(bits: u32) -> Option<Opcode> {
    if bits == 0 {
        Some(Opcode::Reg)
    } else if bits == 8 {
        Some(Opcode::AddI)
    } else if bits == 9 {
        Some(Opcode::AddIU)
    } else if bits == 12 {
        Some(Opcode::AndI)
    } else if bits == 13 {
        Some(Opcode::OrI)
    } else if bits == 14 {
        Some(Opcode::XorI)
    } else if bits == 15 {
        Some(Opcode::LuI)
    } else {
        None
    }
}

/// The register-type operation with funct bits `bits`, if there is one.
pub open spec fn funct_of(bits: u32) -> Option<Funct> {
    if bits == 0 {
        Some(Funct::Sll)
    } else if bits == 4 {
        Some(Funct::SllV)
    } else if bits == 2 {
        Some(Funct::Srl)
    } else if bits == 6 {
        Some(Funct::SrlV)
    } else if bits == 3 {
        Some(Funct::Sra)
    } else if bits == 7 {
        Some(Funct::SraV)
    } else if bits == 12 {
        Some(Funct::Syscall)
    } else if bits == 32 {
        Some(Funct::Add)
    } else if bits == 33 {
        Some(Funct::AddU)
    } else if bits == 34 {
        Some(Funct::Sub)
    } else if bits == 35 {
        Some(Funct::SubU)
    } else if bits == 36 {
        Some(Funct::And)
    } else if bits == 37 {
        Some(Funct::Or)
    } else if bits == 38 {
        Some(Funct::Xor)
    } else if bits == 39 {
        Some(Funct::Nor)
    } else {
        None
    }
}

/// Bits 31 to 26.
pub open spec fn opcode_bits(w: u32) -> u32 {
    w >> 26
}

/// Bits 25 to 21.
pub open spec fn rs_bits(w: u32) -> u32 {
    (w >> 21) & 0x1F
}

/// Bits 20 to 16.
pub open spec fn rt_bits(w: u32) -> u32 {
    (w >> 16) & 0x1F
}

/// Bits 15 to 11.
pub open spec fn rd_bits(w: u32) -> u32 {
    (w >> 11) & 0x1F
}

/// Bits 10 to 6.
pub open spec fn shamt_bits(w: u32) -> u32 {
    (w >> 6) & 0x1F
}

/// Bits 5 to 0.
pub open spec fn funct_bits(w: u32) -> u32 {
    w & 0x3F
}

/// Bits 15 to 0.
pub open spec fn imm_bits(w: u32) -> u32 {
    w & 0xFFFF
}

/// A 16-bit datum sign-extended to 32 bits.
pub open spec fn sign_extend16(d: u16) -> i32 {
    if d < 0x8000 {
        d as i32
    } else {
        (d - 0x10000) as i32
    }
}

/// The immediate-type operation that an opcode other than `Reg` names.
pub open spec fn imm_opcode_of(op: Opcode) -> ImmOpcode {
    match op {
        Opcode::AddI => ImmOpcode::AddI,
        Opcode::AddIU => ImmOpcode::AddIU,
        Opcode::AndI => ImmOpcode::AndI,
        Opcode::OrI => ImmOpcode::OrI,
        Opcode::XorI => ImmOpcode::XorI,
        _ => ImmOpcode::LuI,
    }
}

/// What a word decodes to: its opcode bits, and for a register-type word its
/// funct bits, must name an operation; the register fields always do.
pub open spec fn decode_spec(w: u32) -> Result<Instruction, Fault> {
    match opcode_of(opcode_bits(w)) {
        None => Err(Fault::InvalidOpcode(opcode_bits(w))),
        Some(Opcode::Reg) => match funct_of(funct_bits(w)) {
            None => Err(Fault::InvalidFunct(funct_bits(w))),
            Some(f) => Ok(
                Instruction::Reg(
                    RegInsn {
                        rs: reg_of(rs_bits(w)),
                        rt: reg_of(rt_bits(w)),
                        rd: reg_of(rd_bits(w)),
                        shamt: shamt_bits(w),
                        funct: f,
                    },
                ),
            ),
        },
        Some(op) => Ok(
            Instruction::Imm(
                ImmInsn {
                    opcode: imm_opcode_of(op),
                    rs: reg_of(rs_bits(w)),
                    rt: reg_of(rt_bits(w)),
                    data: imm_bits(w) as u16,
                },
            ),
        ),
    }
}

/// The register whose index is `i`.
pub open spec fn reg_of(i: u32) -> Reg {
    choose|r: Reg| r.spec_index() == i
}

proof fn lemma_reg_of(r: Reg, i: u32)
    requires
        r.spec_index() == i,
    ensures
        reg_of(i) == r,
{
    let c = reg_of(i);
    assert(c.spec_index() == i);
}

/// A raw, undecoded 32-bit instruction word.
#[derive(Debug, Clone, Copy, PartialEq, Eq, Structural)]
pub struct Insn(u32);

impl View for Insn {
    type V = u32;

    closed spec fn view(&self) -> u32 {
        self.0
    }
}

impl Insn {
    /// Wraps a word.
    pub fn new(word: u32) -> (r: Insn)
        ensures
            r@ == word,
    {
        Insn(word)
    }

    /// The word itself.
    pub fn word(&self) -> (r: u32)
        ensures
            r == self@,
    {
        self.0
    }

    /// The operation family named by the opcode bits.
    pub fn opcode(&self) -> (r: Result<Opcode, Fault>)
        ensures
            r == match opcode_of(opcode_bits(self@)) {
                Some(op) => Ok::<Opcode, Fault>(op),
                None => Err(Fault::InvalidOpcode(opcode_bits(self@))),
            },
    {
        let bits = self.0 >> 26;
        match bits {
            0 => Ok(Opcode::Reg),
            8 => Ok(Opcode::AddI),
            9 => Ok(Opcode::AddIU),
            12 => Ok(Opcode::AndI),
            13 => Ok(Opcode::OrI),
            14 => Ok(Opcode::XorI),
            15 => Ok(Opcode::LuI),
            _ => Err(Fault::InvalidOpcode(bits)),
        }
    }

    /// The register-type operation named by the funct bits.
    pub fn funct(&self) -> (r: Result<Funct, Fault>)
        ensures
            r == match funct_of(funct_bits(self@)) {
                Some(f) => Ok::<Funct, Fault>(f),
                None => Err(Fault::InvalidFunct(funct_bits(self@))),
            },
    {
        let bits = self.0 & 0x3F;
        match bits {
            0 => Ok(Funct::Sll),
            4 => Ok(Funct::SllV),
            2 => Ok(Funct::Srl),
            6 => Ok(Funct::SrlV),
            3 => Ok(Funct::Sra),
            7 => Ok(Funct::SraV),
            12 => Ok(Funct::Syscall),
            32 => Ok(Funct::Add),
            33 => Ok(Funct::AddU),
            34 => Ok(Funct::Sub),
            35 => Ok(Funct::SubU),
            36 => Ok(Funct::And),
            37 => Ok(Funct::Or),
            38 => Ok(Funct::Xor),
            39 => Ok(Funct::Nor),
            _ => Err(Fault::InvalidFunct(bits)),
        }
    }

    /// The first source register, bits 25 to 21.
    pub fn rs(&self) -> (r: Reg)
        ensures
            r.spec_index() == rs_bits(self@),
            r == reg_of(rs_bits(self@)),
    {
        let w = self.0;
        assert((w >> 21) & 0x1F < 32) by (bit_vector);
        let r = Reg::from_index((w >> 21) & 0x1F);
        proof {
            lemma_reg_of(r, rs_bits(w));
        }
        r
    }

    /// The second source register, or an immediate-type destination, bits 20 to 16.
    pub fn rt(&self) -> (r: Reg)
        ensures
            r.spec_index() == rt_bits(self@),
            r == reg_of(rt_bits(self@)),
    {
        let w = self.0;
        assert((w >> 16) & 0x1F < 32) by (bit_vector);
        let r = Reg::from_index((w >> 16) & 0x1F);
        proof {
            lemma_reg_of(r, rt_bits(w));
        }
        r
    }

    /// The register-type destination, bits 15 to 11.
    pub fn rd(&self) -> (r: Reg)
        ensures
            r.spec_index() == rd_bits(self@),
            r == reg_of(rd_bits(self@)),
    {
        let w = self.0;
        assert((w >> 11) & 0x1F < 32) by (bit_vector);
        let r = Reg::from_index((w >> 11) & 0x1F);
        proof {
            lemma_reg_of(r, rd_bits(w));
        }
        r
    }

    /// The shift amount, bits 10 to 6.
    pub fn shamt(&self) -> (r: u32)
        ensures
            r == shamt_bits(self@),
            r < 32,
    {
        let w = self.0;
        assert((w >> 6) & 0x1F < 32) by (bit_vector);
        (w >> 6) & 0x1F
    }

    /// The 16-bit immediate, zero-extended.
    pub fn du(&self) -> (r: u32)
        ensures
            r == imm_bits(self@),
            r < 0x10000,
    {
        let w = self.0;
        assert(w & 0xFFFF < 0x10000) by (bit_vector);
        w & 0xFFFF
    }

    /// The 16-bit immediate, sign-extended.
    pub fn di(&self) -> (r: i32)
        ensures
            r == sign_extend16(imm_bits(self@) as u16),
    {
        let d = self.du() as u16;
        assert((d as i16) as i32 == if d < 0x8000 { d as i32 } else { (d - 0x10000) as i32 })
            by (bit_vector);
        (d as i16) as i32
    }

    /// The 26-bit jump target field, bits 25 to 0.
    pub fn addr(&self) -> (r: u32)
        ensures
            r == self@ & 0x3FF_FFFF,
    {
        self.0 & 0x3FF_FFFF
    }

    /// Decodes the word.
    pub fn decode(&self) -> (r: Result<Instruction, Fault>)
        ensures
            r == decode_spec(self@),
            r matches Ok(i) ==> i.wf(),
    {
        let op = self.opcode()?;
        let rs = self.rs();
        let rt = self.rt();
        match op {
            Opcode::Reg => {
                let funct = self.funct()?;
                Ok(Instruction::Reg(RegInsn { rs, rt, rd: self.rd(), shamt: self.shamt(), funct }))
            },
            _ => {
                let opcode = match op {
                    Opcode::AddI => ImmOpcode::AddI,
                    Opcode::AddIU => ImmOpcode::AddIU,
                    Opcode::AndI => ImmOpcode::AndI,
                    Opcode::OrI => ImmOpcode::OrI,
                    Opcode::XorI => ImmOpcode::XorI,
                    _ => ImmOpcode::LuI,
                };
                Ok(Instruction::Imm(ImmInsn { opcode, rs, rt, data: self.du() as u16 }))
            },
        }
    }
}

/// Decodes a raw instruction word.
pub fn decode(word: u32) -> (r: Result<Instruction, Fault>)
    ensures
        r == decode_spec(word),
        r matches Ok(i) ==> i.wf(),
{
    Insn::new(word).decode()
}

/// A word whose opcode bits name no operation decodes to `InvalidOpcode`,
/// carrying those bits; the six top bits all set are one such opcode.
pub proof fn lemma_unknown_opcode(w: u32)
    requires
        opcode_of(opcode_bits(w)) is None,
    ensures
        decode_spec(w) == Err::<Instruction, Fault>(Fault::InvalidOpcode(opcode_bits(w))),
        opcode_of(63) is None,
{
}

} // verus!
