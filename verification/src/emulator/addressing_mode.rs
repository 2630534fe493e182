//! The ways in which an instruction of the processor names its operand.

use vstd::prelude::*;

verus! {

/// How the bytes that follow an opcode lead to the address of the operand.
#[derive(Clone, Copy, Debug, PartialEq, Eq, Structural)]
pub enum AddressingMode {
    /// The operand is the byte after the opcode.
    Immediate,
    /// One byte: an address in the zero page.
    ZeroPage,
    /// One byte, plus X, kept within the zero page.
    ZeroPageX,
    /// One byte, plus Y, kept within the zero page.
    ZeroPageY,
    /// Two bytes: an address, low byte first.
    Absolute,
    /// Two bytes, plus X.
    AbsoluteX,
    /// Two bytes, plus Y.
    AbsoluteY,
    /// Two bytes: the address of a pointer to the operand.
    Indirect,
    /// One byte, plus X within the zero page: the address of a pointer.
    IndirectX,
    /// One byte: the zero-page address of a pointer, to which Y is added.
    IndirectY,
}

impl AddressingMode {
    /// The name of the mode.
    pub open spec fn name(self) -> Seq<char> {
        match self {
            AddressingMode::Immediate => "Immediate"@,
            AddressingMode::ZeroPage => "ZeroPage"@,
            AddressingMode::ZeroPageX => "ZeroPageX"@,
            AddressingMode::ZeroPageY => "ZeroPageY"@,
            AddressingMode::Absolute => "Absolute"@,
            AddressingMode::AbsoluteX => "AbsoluteX"@,
            AddressingMode::AbsoluteY => "AbsoluteY"@,
            AddressingMode::Indirect => "Indirect"@,
            AddressingMode::IndirectX => "IndirectX"@,
            AddressingMode::IndirectY => "IndirectY"@,
        }
    }

    /// The name of the mode, for trace messages.
    pub fn to_str(self) -> (text: &'static str)
        ensures
            text@ == self.name(),
    {
        match self {
            AddressingMode::Immediate => "Immediate",
            AddressingMode::ZeroPage => "ZeroPage",
            AddressingMode::ZeroPageX => "ZeroPageX",
            AddressingMode::ZeroPageY => "ZeroPageY",
            AddressingMode::Absolute => "Absolute",
            AddressingMode::AbsoluteX => "AbsoluteX",
            AddressingMode::AbsoluteY => "AbsoluteY",
            AddressingMode::Indirect => "Indirect",
            AddressingMode::IndirectX => "IndirectX",
            AddressingMode::IndirectY => "IndirectY",
        }
    }

    /// The number of operand bytes that follow the opcode.
    pub open spec fn operand_len(self) -> u16 {
        match self {
            AddressingMode::Absolute | AddressingMode::AbsoluteX | AddressingMode::AbsoluteY
            | AddressingMode::Indirect => 2,
            _ => 1,
        }
    }
}

} // verus!
