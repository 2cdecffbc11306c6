use vstd::prelude::*;

verus! {

/// Every way in which decoding or executing an instruction can stop a run.
#[derive(Debug, Clone, Copy, PartialEq, Eq, Structural)]
pub enum Fault {
    /// The top six bits of the word name no known operation; carries them.
    InvalidOpcode(u32),
    /// A register-type word whose low six bits name no known operation; carries them.
    InvalidFunct(u32),
    /// A checked addition or subtraction left the range of its type.
    IntegerOverflow,
    /// The instruction's destination is the hardwired zero register.
    ZeroRegisterWrite,
    /// A system call whose code is not known; carries the code.
    UnsupportedSyscall(u32),
}

} // verus!
