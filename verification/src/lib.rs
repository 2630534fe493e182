//! A MOS 6502 toolchain: a two-pass assembler, a disassembler and an
//! instruction-level emulator, with machine-checked contracts.

pub mod assembler;
pub mod emulator;
pub mod laws;
pub mod text;
