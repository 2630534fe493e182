//! The assembler and the disassembler.

pub mod assembly;
pub mod ast;
pub mod disassembly;
pub mod error;
pub mod instruction;
pub mod laws;
pub mod parser;
pub mod round_trip;
pub mod table;
pub mod tokenizer;

pub use assembly::Assembler;
pub use disassembly::disassemble;
pub use ast::{Instruction, NumberType, Operand, OperandData, Position, Program, Statement};
pub use error::{AssemblerError, AssemblerErrorKind, AssemblerResult};
pub use instruction::{byte_to_opcode, instruction_to_byte, AddressingMode, Mnemonics};
