//! An emulator for a small MIPS-like 32-bit machine: a decoder for raw
//! instruction words, a register file with a hardwired zero register, an
//! execution unit with trapping arithmetic, and a driver that runs a program.
pub mod decode;
pub mod execute;
pub mod fault;
pub mod machine;
pub mod register;
