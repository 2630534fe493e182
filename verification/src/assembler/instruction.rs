//! The instruction set: the 56 mnemonics, the 11 encoded addressing modes
//! and the table of the 151 opcodes.

use vstd::prelude::*;
use crate::assembler::ast::{Instruction, Position};
use crate::assembler::error::{AssemblerError, AssemblerErrorKind, ErrorKind, ErrorView};

verus! {

/// The instructions of the processor.
#[derive(Clone, Copy, Debug, PartialEq, Eq, Structural)]
pub enum Mnemonics {
    ADC,
    AND,
    ASL,
    BCC,
    BCS,
    BEQ,
    BIT,
    BMI,
    BNE,
    BPL,
    BRK,
    BVC,
    BVS,
    CLC,
    CLD,
    CLI,
    CLV,
    CMP,
    CPX,
    CPY,
    DEC,
    DEX,
    DEY,
    EOR,
    INC,
    INX,
    INY,
    JMP,
    JSR,
    LDA,
    LDX,
    LDY,
    LSR,
    NOP,
    ORA,
    PHA,
    PHP,
    PLA,
    PLP,
    ROL,
    ROR,
    RTI,
    RTS,
    SBC,
    SEC,
    SED,
    SEI,
    STA,
    STX,
    STY,
    TAX,
    TAY,
    TSX,
    TXA,
    TXS,
    TYA,
}

/// The forms in which an operand is encoded. Implied and accumulator
/// operands share `IMPACC`; the displacement of a branch and a zero-page
/// address share `RELZPG`.
#[derive(Clone, Copy, Debug, PartialEq, Eq, Structural)]
pub enum AddressingMode {
    /// Implied or accumulator: no operand byte.
    IMPACC,
    /// Immediate: one byte.
    IMM,
    /// Relative or zero page: one byte.
    RELZPG,
    /// Zero page, indexed by X: one byte.
    ZPX,
    /// Zero page, indexed by Y: one byte.
    ZPY,
    /// Absolute: two bytes.
    ABS,
    /// Absolute, indexed by X: two bytes.
    ABX,
    /// Absolute, indexed by Y: two bytes.
    ABY,
    /// Indirect: two bytes.
    IND,
    /// Indexed indirect: one byte.
    IDX,
    /// Indirect indexed: one byte.
    IDY,
}

impl AddressingMode {
    /// The number of operand bytes of the form.
    pub open spec fn operand_width(self) -> nat {
        match self {
            AddressingMode::IMPACC => 0,
            AddressingMode::ABS | AddressingMode::ABX | AddressingMode::ABY | AddressingMode::IND => 2,
            _ => 1,
        }
    }

    /// The name of the form.
    pub open spec fn name(self) -> Seq<char> {
        match self {
            AddressingMode::IMPACC => "IMPACC"@,
            AddressingMode::IMM => "IMM"@,
            AddressingMode::RELZPG => "RELZPG"@,
            AddressingMode::ZPX => "ZPX"@,
            AddressingMode::ZPY => "ZPY"@,
            AddressingMode::ABS => "ABS"@,
            AddressingMode::ABX => "ABX"@,
            AddressingMode::ABY => "ABY"@,
            AddressingMode::IND => "IND"@,
            AddressingMode::IDX => "IDX"@,
            AddressingMode::IDY => "IDY"@,
        }
    }

    /// The name of the form, for messages.
    pub fn to_str(self) -> (text: &'static str)
        ensures
            text@ == self.name(),
    {
        match self {
            AddressingMode::IMPACC => "IMPACC",
            AddressingMode::IMM => "IMM",
            AddressingMode::RELZPG => "RELZPG",
            AddressingMode::ZPX => "ZPX",
            AddressingMode::ZPY => "ZPY",
            AddressingMode::ABS => "ABS",
            AddressingMode::ABX => "ABX",
            AddressingMode::ABY => "ABY",
            AddressingMode::IND => "IND",
            AddressingMode::IDX => "IDX",
            AddressingMode::IDY => "IDY",
        }
    }
}

impl Mnemonics {
    /// The three capital letters of the mnemonic.
    #[verifier::allow_in_spec]
    pub fn letters(self) -> (char, char, char)
        returns
            (match self {
                Mnemonics::ADC => ('A', 'D', 'C'),
                Mnemonics::AND => ('A', 'N', 'D'),
                Mnemonics::ASL => ('A', 'S', 'L'),
                Mnemonics::BCC => ('B', 'C', 'C'),
                Mnemonics::BCS => ('B', 'C', 'S'),
                Mnemonics::BEQ => ('B', 'E', 'Q'),
                Mnemonics::BIT => ('B', 'I', 'T'),
                Mnemonics::BMI => ('B', 'M', 'I'),
                Mnemonics::BNE => ('B', 'N', 'E'),
                Mnemonics::BPL => ('B', 'P', 'L'),
                Mnemonics::BRK => ('B', 'R', 'K'),
                Mnemonics::BVC => ('B', 'V', 'C'),
                Mnemonics::BVS => ('B', 'V', 'S'),
                Mnemonics::CLC => ('C', 'L', 'C'),
                Mnemonics::CLD => ('C', 'L', 'D'),
                Mnemonics::CLI => ('C', 'L', 'I'),
                Mnemonics::CLV => ('C', 'L', 'V'),
                Mnemonics::CMP => ('C', 'M', 'P'),
                Mnemonics::CPX => ('C', 'P', 'X'),
                Mnemonics::CPY => ('C', 'P', 'Y'),
                Mnemonics::DEC => ('D', 'E', 'C'),
                Mnemonics::DEX => ('D', 'E', 'X'),
                Mnemonics::DEY => ('D', 'E', 'Y'),
                Mnemonics::EOR => ('E', 'O', 'R'),
                Mnemonics::INC => ('I', 'N', 'C'),
                Mnemonics::INX => ('I', 'N', 'X'),
                Mnemonics::INY => ('I', 'N', 'Y'),
                Mnemonics::JMP => ('J', 'M', 'P'),
                Mnemonics::JSR => ('J', 'S', 'R'),
                Mnemonics::LDA => ('L', 'D', 'A'),
                Mnemonics::LDX => ('L', 'D', 'X'),
                Mnemonics::LDY => ('L', 'D', 'Y'),
                Mnemonics::LSR => ('L', 'S', 'R'),
                Mnemonics::NOP => ('N', 'O', 'P'),
                Mnemonics::ORA => ('O', 'R', 'A'),
                Mnemonics::PHA => ('P', 'H', 'A'),
                Mnemonics::PHP => ('P', 'H', 'P'),
                Mnemonics::PLA => ('P', 'L', 'A'),
                Mnemonics::PLP => ('P', 'L', 'P'),
                Mnemonics::ROL => ('R', 'O', 'L'),
                Mnemonics::ROR => ('R', 'O', 'R'),
                Mnemonics::RTI => ('R', 'T', 'I'),
                Mnemonics::RTS => ('R', 'T', 'S'),
                Mnemonics::SBC => ('S', 'B', 'C'),
                Mnemonics::SEC => ('S', 'E', 'C'),
                Mnemonics::SED => ('S', 'E', 'D'),
                Mnemonics::SEI => ('S', 'E', 'I'),
                Mnemonics::STA => ('S', 'T', 'A'),
                Mnemonics::STX => ('S', 'T', 'X'),
                Mnemonics::STY => ('S', 'T', 'Y'),
                Mnemonics::TAX => ('T', 'A', 'X'),
                Mnemonics::TAY => ('T', 'A', 'Y'),
                Mnemonics::TSX => ('T', 'S', 'X'),
                Mnemonics::TXA => ('T', 'X', 'A'),
                Mnemonics::TXS => ('T', 'X', 'S'),
                Mnemonics::TYA => ('T', 'Y', 'A'),
            }),
    {
        match self {
            Mnemonics::ADC => ('A', 'D', 'C'),
            Mnemonics::AND => ('A', 'N', 'D'),
            Mnemonics::ASL => ('A', 'S', 'L'),
            Mnemonics::BCC => ('B', 'C', 'C'),
            Mnemonics::BCS => ('B', 'C', 'S'),
            Mnemonics::BEQ => ('B', 'E', 'Q'),
            Mnemonics::BIT => ('B', 'I', 'T'),
            Mnemonics::BMI => ('B', 'M', 'I'),
            Mnemonics::BNE => ('B', 'N', 'E'),
            Mnemonics::BPL => ('B', 'P', 'L'),
            Mnemonics::BRK => ('B', 'R', 'K'),
            Mnemonics::BVC => ('B', 'V', 'C'),
            Mnemonics::BVS => ('B', 'V', 'S'),
            Mnemonics::CLC => ('C', 'L', 'C'),
            Mnemonics::CLD => ('C', 'L', 'D'),
            Mnemonics::CLI => ('C', 'L', 'I'),
            Mnemonics::CLV => ('C', 'L', 'V'),
            Mnemonics::CMP => ('C', 'M', 'P'),
            Mnemonics::CPX => ('C', 'P', 'X'),
            Mnemonics::CPY => ('C', 'P', 'Y'),
            Mnemonics::DEC => ('D', 'E', 'C'),
            Mnemonics::DEX => ('D', 'E', 'X'),
            Mnemonics::DEY => ('D', 'E', 'Y'),
            Mnemonics::EOR => ('E', 'O', 'R'),
            Mnemonics::INC => ('I', 'N', 'C'),
            Mnemonics::INX => ('I', 'N', 'X'),
            Mnemonics::INY => ('I', 'N', 'Y'),
            Mnemonics::JMP => ('J', 'M', 'P'),
            Mnemonics::JSR => ('J', 'S', 'R'),
            Mnemonics::LDA => ('L', 'D', 'A'),
            Mnemonics::LDX => ('L', 'D', 'X'),
            Mnemonics::LDY => ('L', 'D', 'Y'),
            Mnemonics::LSR => ('L', 'S', 'R'),
            Mnemonics::NOP => ('N', 'O', 'P'),
            Mnemonics::ORA => ('O', 'R', 'A'),
            Mnemonics::PHA => ('P', 'H', 'A'),
            Mnemonics::PHP => ('P', 'H', 'P'),
            Mnemonics::PLA => ('P', 'L', 'A'),
            Mnemonics::PLP => ('P', 'L', 'P'),
            Mnemonics::ROL => ('R', 'O', 'L'),
            Mnemonics::ROR => ('R', 'O', 'R'),
            Mnemonics::RTI => ('R', 'T', 'I'),
            Mnemonics::RTS => ('R', 'T', 'S'),
            Mnemonics::SBC => ('S', 'B', 'C'),
            Mnemonics::SEC => ('S', 'E', 'C'),
            Mnemonics::SED => ('S', 'E', 'D'),
            Mnemonics::SEI => ('S', 'E', 'I'),
            Mnemonics::STA => ('S', 'T', 'A'),
            Mnemonics::STX => ('S', 'T', 'X'),
            Mnemonics::STY => ('S', 'T', 'Y'),
            Mnemonics::TAX => ('T', 'A', 'X'),
            Mnemonics::TAY => ('T', 'A', 'Y'),
            Mnemonics::TSX => ('T', 'S', 'X'),
            Mnemonics::TXA => ('T', 'X', 'A'),
            Mnemonics::TXS => ('T', 'X', 'S'),
            Mnemonics::TYA => ('T', 'Y', 'A'),
        }
    }

    /// The mnemonic as text.
    pub open spec fn name(self) -> Seq<char> {
        seq![self.letters().0, self.letters().1, self.letters().2]
    }

    /// The mnemonic as text.
    pub fn to_string(self) -> (text: String)
        ensures
            text@ == self.name(),
    {
        let (first, second, third) = self.letters();
        let mut text = String::new();
        text.push(first);
        text.push(second);
        text.push(third);
        text
    }

    /// Whether the mnemonic is one of the eight branches, whose operand is
    /// a displacement.
    #[verifier::allow_in_spec]
    pub fn is_branch(self) -> bool
        returns
            (self == Mnemonics::BCC || self == Mnemonics::BCS || self == Mnemonics::BEQ || self
                == Mnemonics::BMI || self == Mnemonics::BNE || self == Mnemonics::BPL || self
                == Mnemonics::BVC || self == Mnemonics::BVS),
    {
        match self {
            Mnemonics::BCC | Mnemonics::BCS | Mnemonics::BEQ | Mnemonics::BMI | Mnemonics::BNE
            | Mnemonics::BPL | Mnemonics::BVC | Mnemonics::BVS => true,
            _ => false,
        }
    }

    /// The mnemonic that three letters spell, if any.
    #[verifier::allow_in_spec]
    pub fn from_letters(first: char, second: char, third: char) -> Option<Mnemonics>
        returns
            (match (first, second, third) {
                ('A', 'D', 'C') => Some(Mnemonics::ADC),
                ('A', 'N', 'D') => Some(Mnemonics::AND),
                ('A', 'S', 'L') => Some(Mnemonics::ASL),
                ('B', 'C', 'C') => Some(Mnemonics::BCC),
                ('B', 'C', 'S') => Some(Mnemonics::BCS),
                ('B', 'E', 'Q') => Some(Mnemonics::BEQ),
                ('B', 'I', 'T') => Some(Mnemonics::BIT),
                ('B', 'M', 'I') => Some(Mnemonics::BMI),
                ('B', 'N', 'E') => Some(Mnemonics::BNE),
                ('B', 'P', 'L') => Some(Mnemonics::BPL),
                ('B', 'R', 'K') => Some(Mnemonics::BRK),
                ('B', 'V', 'C') => Some(Mnemonics::BVC),
                ('B', 'V', 'S') => Some(Mnemonics::BVS),
                ('C', 'L', 'C') => Some(Mnemonics::CLC),
                ('C', 'L', 'D') => Some(Mnemonics::CLD),
                ('C', 'L', 'I') => Some(Mnemonics::CLI),
                ('C', 'L', 'V') => Some(Mnemonics::CLV),
                ('C', 'M', 'P') => Some(Mnemonics::CMP),
                ('C', 'P', 'X') => Some(Mnemonics::CPX),
                ('C', 'P', 'Y') => Some(Mnemonics::CPY),
                ('D', 'E', 'C') => Some(Mnemonics::DEC),
                ('D', 'E', 'X') => Some(Mnemonics::DEX),
                ('D', 'E', 'Y') => Some(Mnemonics::DEY),
                ('E', 'O', 'R') => Some(Mnemonics::EOR),
                ('I', 'N', 'C') => Some(Mnemonics::INC),
                ('I', 'N', 'X') => Some(Mnemonics::INX),
                ('I', 'N', 'Y') => Some(Mnemonics::INY),
                ('J', 'M', 'P') => Some(Mnemonics::JMP),
                ('J', 'S', 'R') => Some(Mnemonics::JSR),
                ('L', 'D', 'A') => Some(Mnemonics::LDA),
                ('L', 'D', 'X') => Some(Mnemonics::LDX),
                ('L', 'D', 'Y') => Some(Mnemonics::LDY),
                ('L', 'S', 'R') => Some(Mnemonics::LSR),
                ('N', 'O', 'P') => Some(Mnemonics::NOP),
                ('O', 'R', 'A') => Some(Mnemonics::ORA),
                ('P', 'H', 'A') => Some(Mnemonics::PHA),
                ('P', 'H', 'P') => Some(Mnemonics::PHP),
                ('P', 'L', 'A') => Some(Mnemonics::PLA),
                ('P', 'L', 'P') => Some(Mnemonics::PLP),
                ('R', 'O', 'L') => Some(Mnemonics::ROL),
                ('R', 'O', 'R') => Some(Mnemonics::ROR),
                ('R', 'T', 'I') => Some(Mnemonics::RTI),
                ('R', 'T', 'S') => Some(Mnemonics::RTS),
                ('S', 'B', 'C') => Some(Mnemonics::SBC),
                ('S', 'E', 'C') => Some(Mnemonics::SEC),
                ('S', 'E', 'D') => Some(Mnemonics::SED),
                ('S', 'E', 'I') => Some(Mnemonics::SEI),
                ('S', 'T', 'A') => Some(Mnemonics::STA),
                ('S', 'T', 'X') => Some(Mnemonics::STX),
                ('S', 'T', 'Y') => Some(Mnemonics::STY),
                ('T', 'A', 'X') => Some(Mnemonics::TAX),
                ('T', 'A', 'Y') => Some(Mnemonics::TAY),
                ('T', 'S', 'X') => Some(Mnemonics::TSX),
                ('T', 'X', 'A') => Some(Mnemonics::TXA),
                ('T', 'X', 'S') => Some(Mnemonics::TXS),
                ('T', 'Y', 'A') => Some(Mnemonics::TYA),
                _ => None,
            }),
    {
        match (first, second, third) {
            ('A', 'D', 'C') => Some(Mnemonics::ADC),
            ('A', 'N', 'D') => Some(Mnemonics::AND),
            ('A', 'S', 'L') => Some(Mnemonics::ASL),
            ('B', 'C', 'C') => Some(Mnemonics::BCC),
            ('B', 'C', 'S') => Some(Mnemonics::BCS),
            ('B', 'E', 'Q') => Some(Mnemonics::BEQ),
            ('B', 'I', 'T') => Some(Mnemonics::BIT),
            ('B', 'M', 'I') => Some(Mnemonics::BMI),
            ('B', 'N', 'E') => Some(Mnemonics::BNE),
            ('B', 'P', 'L') => Some(Mnemonics::BPL),
            ('B', 'R', 'K') => Some(Mnemonics::BRK),
            ('B', 'V', 'C') => Some(Mnemonics::BVC),
            ('B', 'V', 'S') => Some(Mnemonics::BVS),
            ('C', 'L', 'C') => Some(Mnemonics::CLC),
            ('C', 'L', 'D') => Some(Mnemonics::CLD),
            ('C', 'L', 'I') => Some(Mnemonics::CLI),
            ('C', 'L', 'V') => Some(Mnemonics::CLV),
            ('C', 'M', 'P') => Some(Mnemonics::CMP),
            ('C', 'P', 'X') => Some(Mnemonics::CPX),
            ('C', 'P', 'Y') => Some(Mnemonics::CPY),
            ('D', 'E', 'C') => Some(Mnemonics::DEC),
            ('D', 'E', 'X') => Some(Mnemonics::DEX),
            ('D', 'E', 'Y') => Some(Mnemonics::DEY),
            ('E', 'O', 'R') => Some(Mnemonics::EOR),
            ('I', 'N', 'C') => Some(Mnemonics::INC),
            ('I', 'N', 'X') => Some(Mnemonics::INX),
            ('I', 'N', 'Y') => Some(Mnemonics::INY),
            ('J', 'M', 'P') => Some(Mnemonics::JMP),
            ('J', 'S', 'R') => Some(Mnemonics::JSR),
            ('L', 'D', 'A') => Some(Mnemonics::LDA),
            ('L', 'D', 'X') => Some(Mnemonics::LDX),
            ('L', 'D', 'Y') => Some(Mnemonics::LDY),
            ('L', 'S', 'R') => Some(Mnemonics::LSR),
            ('N', 'O', 'P') => Some(Mnemonics::NOP),
            ('O', 'R', 'A') => Some(Mnemonics::ORA),
            ('P', 'H', 'A') => Some(Mnemonics::PHA),
            ('P', 'H', 'P') => Some(Mnemonics::PHP),
            ('P', 'L', 'A') => Some(Mnemonics::PLA),
            ('P', 'L', 'P') => Some(Mnemonics::PLP),
            ('R', 'O', 'L') => Some(Mnemonics::ROL),
            ('R', 'O', 'R') => Some(Mnemonics::ROR),
            ('R', 'T', 'I') => Some(Mnemonics::RTI),
            ('R', 'T', 'S') => Some(Mnemonics::RTS),
            ('S', 'B', 'C') => Some(Mnemonics::SBC),
            ('S', 'E', 'C') => Some(Mnemonics::SEC),
            ('S', 'E', 'D') => Some(Mnemonics::SED),
            ('S', 'E', 'I') => Some(Mnemonics::SEI),
            ('S', 'T', 'A') => Some(Mnemonics::STA),
            ('S', 'T', 'X') => Some(Mnemonics::STX),
            ('S', 'T', 'Y') => Some(Mnemonics::STY),
            ('T', 'A', 'X') => Some(Mnemonics::TAX),
            ('T', 'A', 'Y') => Some(Mnemonics::TAY),
            ('T', 'S', 'X') => Some(Mnemonics::TSX),
            ('T', 'X', 'A') => Some(Mnemonics::TXA),
            ('T', 'X', 'S') => Some(Mnemonics::TXS),
            ('T', 'Y', 'A') => Some(Mnemonics::TYA),
            _ => None,
        }
    }

    /// The mnemonic that `name` spells, if any. Mnemonics are written in
    /// capital letters.
    pub open spec fn named(name: Seq<char>) -> Option<Mnemonics> {
        if name.len() == 3 {
            Mnemonics::from_letters(name[0], name[1], name[2])
        } else {
            None
        }
    }

    /// The mnemonic that `name` spells, if any.
    pub fn from_name(name: &str) -> (mnemonic: Option<Mnemonics>)
        ensures
            mnemonic == Mnemonics::named(name@),
    {
        if name.unicode_len() == 3 {
            Mnemonics::from_letters(name.get_char(0), name.get_char(1), name.get_char(2))
        } else {
            None
        }
    }
}

/// The opcode of a mnemonic in an addressing mode, where the processor has
/// that combination.
#[verifier::allow_in_spec]
pub fn encode(mnemonic: Mnemonics, mode: AddressingMode) -> Option<u8>
    returns
        (match (mnemonic, mode) {
            (Mnemonics::ADC, AddressingMode::IDX) => Some(0x61u8),
            (Mnemonics::ADC, AddressingMode::RELZPG) => Some(0x65u8),
            (Mnemonics::ADC, AddressingMode::IMM) => Some(0x69u8),
            (Mnemonics::ADC, AddressingMode::ABS) => Some(0x6Du8),
            (Mnemonics::ADC, AddressingMode::IDY) => Some(0x71u8),
            (Mnemonics::ADC, AddressingMode::ZPX) => Some(0x75u8),
            (Mnemonics::ADC, AddressingMode::ABY) => Some(0x79u8),
            (Mnemonics::ADC, AddressingMode::ABX) => Some(0x7Du8),
            (Mnemonics::AND, AddressingMode::IDX) => Some(0x21u8),
            (Mnemonics::AND, AddressingMode::RELZPG) => Some(0x25u8),
            (Mnemonics::AND, AddressingMode::IMM) => Some(0x29u8),
            (Mnemonics::AND, AddressingMode::ABS) => Some(0x2Du8),
            (Mnemonics::AND, AddressingMode::IDY) => Some(0x31u8),
            (Mnemonics::AND, AddressingMode::ZPX) => Some(0x35u8),
            (Mnemonics::AND, AddressingMode::ABY) => Some(0x39u8),
            (Mnemonics::AND, AddressingMode::ABX) => Some(0x3Du8),
            (Mnemonics::ASL, AddressingMode::RELZPG) => Some(0x06u8),
            (Mnemonics::ASL, AddressingMode::IMPACC) => Some(0x0Au8),
            (Mnemonics::ASL, AddressingMode::ABS) => Some(0x0Eu8),
            (Mnemonics::ASL, AddressingMode::ZPX) => Some(0x16u8),
            (Mnemonics::ASL, AddressingMode::ABX) => Some(0x1Eu8),
            (Mnemonics::BCC, AddressingMode::RELZPG) => Some(0x90u8),
            (Mnemonics::BCS, AddressingMode::RELZPG) => Some(0xB0u8),
            (Mnemonics::BEQ, AddressingMode::RELZPG) => Some(0xF0u8),
            (Mnemonics::BIT, AddressingMode::RELZPG) => Some(0x24u8),
            (Mnemonics::BIT, AddressingMode::ABS) => Some(0x2Cu8),
            (Mnemonics::BMI, AddressingMode::RELZPG) => Some(0x30u8),
            (Mnemonics::BNE, AddressingMode::RELZPG) => Some(0xD0u8),
            (Mnemonics::BPL, AddressingMode::RELZPG) => Some(0x10u8),
            (Mnemonics::BRK, AddressingMode::IMPACC) => Some(0x00u8),
            (Mnemonics::BVC, AddressingMode::RELZPG) => Some(0x50u8),
            (Mnemonics::BVS, AddressingMode::RELZPG) => Some(0x70u8),
            (Mnemonics::CLC, AddressingMode::IMPACC) => Some(0x18u8),
            (Mnemonics::CLD, AddressingMode::IMPACC) => Some(0xD8u8),
            (Mnemonics::CLI, AddressingMode::IMPACC) => Some(0x58u8),
            (Mnemonics::CLV, AddressingMode::IMPACC) => Some(0xB8u8),
            (Mnemonics::CMP, AddressingMode::IDX) => Some(0xC1u8),
            (Mnemonics::CMP, AddressingMode::RELZPG) => Some(0xC5u8),
            (Mnemonics::CMP, AddressingMode::IMM) => Some(0xC9u8),
            (Mnemonics::CMP, AddressingMode::ABS) => Some(0xCDu8),
            (Mnemonics::CMP, AddressingMode::IDY) => Some(0xD1u8),
            (Mnemonics::CMP, AddressingMode::ZPX) => Some(0xD5u8),
            (Mnemonics::CMP, AddressingMode::ABY) => Some(0xD9u8),
            (Mnemonics::CMP, AddressingMode::ABX) => Some(0xDDu8),
            (Mnemonics::CPX, AddressingMode::IMM) => Some(0xE0u8),
            (Mnemonics::CPX, AddressingMode::RELZPG) => Some(0xE4u8),
            (Mnemonics::CPX, AddressingMode::ABS) => Some(0xECu8),
            (Mnemonics::CPY, AddressingMode::IMM) => Some(0xC0u8),
            (Mnemonics::CPY, AddressingMode::RELZPG) => Some(0xC4u8),
            (Mnemonics::CPY, AddressingMode::ABS) => Some(0xCCu8),
            (Mnemonics::DEC, AddressingMode::RELZPG) => Some(0xC6u8),
            (Mnemonics::DEC, AddressingMode::ABS) => Some(0xCEu8),
            (Mnemonics::DEC, AddressingMode::ZPX) => Some(0xD6u8),
            (Mnemonics::DEC, AddressingMode::ABX) => Some(0xDEu8),
            (Mnemonics::DEX, AddressingMode::IMPACC) => Some(0xCAu8),
            (Mnemonics::DEY, AddressingMode::IMPACC) => Some(0x88u8),
            (Mnemonics::EOR, AddressingMode::IDX) => Some(0x41u8),
            (Mnemonics::EOR, AddressingMode::RELZPG) => Some(0x45u8),
            (Mnemonics::EOR, AddressingMode::IMM) => Some(0x49u8),
            (Mnemonics::EOR, AddressingMode::ABS) => Some(0x4Du8),
            (Mnemonics::EOR, AddressingMode::IDY) => Some(0x51u8),
            (Mnemonics::EOR, AddressingMode::ZPX) => Some(0x55u8),
            (Mnemonics::EOR, AddressingMode::ABY) => Some(0x59u8),
            (Mnemonics::EOR, AddressingMode::ABX) => Some(0x5Du8),
            (Mnemonics::INC, AddressingMode::RELZPG) => Some(0xE6u8),
            (Mnemonics::INC, AddressingMode::ABS) => Some(0xEEu8),
            (Mnemonics::INC, AddressingMode::ZPX) => Some(0xF6u8),
            (Mnemonics::INC, AddressingMode::ABX) => Some(0xFEu8),
            (Mnemonics::INX, AddressingMode::IMPACC) => Some(0xE8u8),
            (Mnemonics::INY, AddressingMode::IMPACC) => Some(0xC8u8),
            (Mnemonics::JMP, AddressingMode::ABS) => Some(0x4Cu8),
            (Mnemonics::JMP, AddressingMode::IND) => Some(0x6Cu8),
            (Mnemonics::JSR, AddressingMode::ABS) => Some(0x20u8),
            (Mnemonics::LDA, AddressingMode::IDX) => Some(0xA1u8),
            (Mnemonics::LDA, AddressingMode::RELZPG) => Some(0xA5u8),
            (Mnemonics::LDA, AddressingMode::IMM) => Some(0xA9u8),
            (Mnemonics::LDA, AddressingMode::ABS) => Some(0xADu8),
            (Mnemonics::LDA, AddressingMode::IDY) => Some(0xB1u8),
            (Mnemonics::LDA, AddressingMode::ZPX) => Some(0xB5u8),
            (Mnemonics::LDA, AddressingMode::ABY) => Some(0xB9u8),
            (Mnemonics::LDA, AddressingMode::ABX) => Some(0xBDu8),
            (Mnemonics::LDX, AddressingMode::IMM) => Some(0xA2u8),
            (Mnemonics::LDX, AddressingMode::RELZPG) => Some(0xA6u8),
            (Mnemonics::LDX, AddressingMode::ABS) => Some(0xAEu8),
            (Mnemonics::LDX, AddressingMode::ZPY) => Some(0xB6u8),
            (Mnemonics::LDX, AddressingMode::ABY) => Some(0xBEu8),
            (Mnemonics::LDY, AddressingMode::IMM) => Some(0xA0u8),
            (Mnemonics::LDY, AddressingMode::RELZPG) => Some(0xA4u8),
            (Mnemonics::LDY, AddressingMode::ABS) => Some(0xACu8),
            (Mnemonics::LDY, AddressingMode::ZPX) => Some(0xB4u8),
            (Mnemonics::LDY, AddressingMode::ABX) => Some(0xBCu8),
            (Mnemonics::LSR, AddressingMode::RELZPG) => Some(0x46u8),
            (Mnemonics::LSR, AddressingMode::IMPACC) => Some(0x4Au8),
            (Mnemonics::LSR, AddressingMode::ABS) => Some(0x4Eu8),
            (Mnemonics::LSR, AddressingMode::ZPX) => Some(0x56u8),
            (Mnemonics::LSR, AddressingMode::ABX) => Some(0x5Eu8),
            (Mnemonics::NOP, AddressingMode::IMPACC) => Some(0xEAu8),
            (Mnemonics::ORA, AddressingMode::IDX) => Some(0x01u8),
            (Mnemonics::ORA, AddressingMode::RELZPG) => Some(0x05u8),
            (Mnemonics::ORA, AddressingMode::IMM) => Some(0x09u8),
            (Mnemonics::ORA, AddressingMode::ABS) => Some(0x0Du8),
            (Mnemonics::ORA, AddressingMode::IDY) => Some(0x11u8),
            (Mnemonics::ORA, AddressingMode::ZPX) => Some(0x15u8),
            (Mnemonics::ORA, AddressingMode::ABY) => Some(0x19u8),
            (Mnemonics::ORA, AddressingMode::ABX) => Some(0x1Du8),
            (Mnemonics::PHA, AddressingMode::IMPACC) => Some(0x48u8),
            (Mnemonics::PHP, AddressingMode::IMPACC) => Some(0x08u8),
            (Mnemonics::PLA, AddressingMode::IMPACC) => Some(0x68u8),
            (Mnemonics::PLP, AddressingMode::IMPACC) => Some(0x28u8),
            (Mnemonics::ROL, AddressingMode::RELZPG) => Some(0x26u8),
            (Mnemonics::ROL, AddressingMode::IMPACC) => Some(0x2Au8),
            (Mnemonics::ROL, AddressingMode::ABS) => Some(0x2Eu8),
            (Mnemonics::ROL, AddressingMode::ZPX) => Some(0x36u8),
            (Mnemonics::ROL, AddressingMode::ABX) => Some(0x3Eu8),
            (Mnemonics::ROR, AddressingMode::RELZPG) => Some(0x66u8),
            (Mnemonics::ROR, AddressingMode::IMPACC) => Some(0x6Au8),
            (Mnemonics::ROR, AddressingMode::ABS) => Some(0x6Eu8),
            (Mnemonics::ROR, AddressingMode::ZPX) => Some(0x76u8),
            (Mnemonics::ROR, AddressingMode::ABX) => Some(0x7Eu8),
            (Mnemonics::RTI, AddressingMode::IMPACC) => Some(0x40u8),
            (Mnemonics::RTS, AddressingMode::IMPACC) => Some(0x60u8),
            (Mnemonics::SBC, AddressingMode::IDX) => Some(0xE1u8),
            (Mnemonics::SBC, AddressingMode::RELZPG) => Some(0xE5u8),
            (Mnemonics::SBC, AddressingMode::IMM) => Some(0xE9u8),
            (Mnemonics::SBC, AddressingMode::ABS) => Some(0xEDu8),
            (Mnemonics::SBC, AddressingMode::IDY) => Some(0xF1u8),
            (Mnemonics::SBC, AddressingMode::ZPX) => Some(0xF5u8),
            (Mnemonics::SBC, AddressingMode::ABY) => Some(0xF9u8),
            (Mnemonics::SBC, AddressingMode::ABX) => Some(0xFDu8),
            (Mnemonics::SEC, AddressingMode::IMPACC) => Some(0x38u8),
            (Mnemonics::SED, AddressingMode::IMPACC) => Some(0xF8u8),
            (Mnemonics::SEI, AddressingMode::IMPACC) => Some(0x78u8),
            (Mnemonics::STA, AddressingMode::IDX) => Some(0x81u8),
            (Mnemonics::STA, AddressingMode::RELZPG) => Some(0x85u8),
            (Mnemonics::STA, AddressingMode::ABS) => Some(0x8Du8),
            (Mnemonics::STA, AddressingMode::IDY) => Some(0x91u8),
            (Mnemonics::STA, AddressingMode::ZPX) => Some(0x95u8),
            (Mnemonics::STA, AddressingMode::ABY) => Some(0x99u8),
            (Mnemonics::STA, AddressingMode::ABX) => Some(0x9Du8),
            (Mnemonics::STX, AddressingMode::RELZPG) => Some(0x86u8),
            (Mnemonics::STX, AddressingMode::ABS) => Some(0x8Eu8),
            (Mnemonics::STX, AddressingMode::ZPY) => Some(0x96u8),
            (Mnemonics::STY, AddressingMode::RELZPG) => Some(0x84u8),
            (Mnemonics::STY, AddressingMode::ABS) => Some(0x8Cu8),
            (Mnemonics::STY, AddressingMode::ZPX) => Some(0x94u8),
            (Mnemonics::TAX, AddressingMode::IMPACC) => Some(0xAAu8),
            (Mnemonics::TAY, AddressingMode::IMPACC) => Some(0xA8u8),
            (Mnemonics::TSX, AddressingMode::IMPACC) => Some(0xBAu8),
            (Mnemonics::TXA, AddressingMode::IMPACC) => Some(0x8Au8),
            (Mnemonics::TXS, AddressingMode::IMPACC) => Some(0x9Au8),
            (Mnemonics::TYA, AddressingMode::IMPACC) => Some(0x98u8),
            _ => None,
        }),
{
    match (mnemonic, mode) {
        (Mnemonics::ADC, AddressingMode::IDX) => Some(0x61u8),
        (Mnemonics::ADC, AddressingMode::RELZPG) => Some(0x65u8),
        (Mnemonics::ADC, AddressingMode::IMM) => Some(0x69u8),
        (Mnemonics::ADC, AddressingMode::ABS) => Some(0x6Du8),
        (Mnemonics::ADC, AddressingMode::IDY) => Some(0x71u8),
        (Mnemonics::ADC, AddressingMode::ZPX) => Some(0x75u8),
        (Mnemonics::ADC, AddressingMode::ABY) => Some(0x79u8),
        (Mnemonics::ADC, AddressingMode::ABX) => Some(0x7Du8),
        (Mnemonics::AND, AddressingMode::IDX) => Some(0x21u8),
        (Mnemonics::AND, AddressingMode::RELZPG) => Some(0x25u8),
        (Mnemonics::AND, AddressingMode::IMM) => Some(0x29u8),
        (Mnemonics::AND, AddressingMode::ABS) => Some(0x2Du8),
        (Mnemonics::AND, AddressingMode::IDY) => Some(0x31u8),
        (Mnemonics::AND, AddressingMode::ZPX) => Some(0x35u8),
        (Mnemonics::AND, AddressingMode::ABY) => Some(0x39u8),
        (Mnemonics::AND, AddressingMode::ABX) => Some(0x3Du8),
        (Mnemonics::ASL, AddressingMode::RELZPG) => Some(0x06u8),
        (Mnemonics::ASL, AddressingMode::IMPACC) => Some(0x0Au8),
        (Mnemonics::ASL, AddressingMode::ABS) => Some(0x0Eu8),
        (Mnemonics::ASL, AddressingMode::ZPX) => Some(0x16u8),
        (Mnemonics::ASL, AddressingMode::ABX) => Some(0x1Eu8),
        (Mnemonics::BCC, AddressingMode::RELZPG) => Some(0x90u8),
        (Mnemonics::BCS, AddressingMode::RELZPG) => Some(0xB0u8),
        (Mnemonics::BEQ, AddressingMode::RELZPG) => Some(0xF0u8),
        (Mnemonics::BIT, AddressingMode::RELZPG) => Some(0x24u8),
        (Mnemonics::BIT, AddressingMode::ABS) => Some(0x2Cu8),
        (Mnemonics::BMI, AddressingMode::RELZPG) => Some(0x30u8),
        (Mnemonics::BNE, AddressingMode::RELZPG) => Some(0xD0u8),
        (Mnemonics::BPL, AddressingMode::RELZPG) => Some(0x10u8),
        (Mnemonics::BRK, AddressingMode::IMPACC) => Some(0x00u8),
        (Mnemonics::BVC, AddressingMode::RELZPG) => Some(0x50u8),
        (Mnemonics::BVS, AddressingMode::RELZPG) => Some(0x70u8),
        (Mnemonics::CLC, AddressingMode::IMPACC) => Some(0x18u8),
        (Mnemonics::CLD, AddressingMode::IMPACC) => Some(0xD8u8),
        (Mnemonics::CLI, AddressingMode::IMPACC) => Some(0x58u8),
        (Mnemonics::CLV, AddressingMode::IMPACC) => Some(0xB8u8),
        (Mnemonics::CMP, AddressingMode::IDX) => Some(0xC1u8),
        (Mnemonics::CMP, AddressingMode::RELZPG) => Some(0xC5u8),
        (Mnemonics::CMP, AddressingMode::IMM) => Some(0xC9u8),
        (Mnemonics::CMP, AddressingMode::ABS) => Some(0xCDu8),
        (Mnemonics::CMP, AddressingMode::IDY) => Some(0xD1u8),
        (Mnemonics::CMP, AddressingMode::ZPX) => Some(0xD5u8),
        (Mnemonics::CMP, AddressingMode::ABY) => Some(0xD9u8),
        (Mnemonics::CMP, AddressingMode::ABX) => Some(0xDDu8),
        (Mnemonics::CPX, AddressingMode::IMM) => Some(0xE0u8),
        (Mnemonics::CPX, AddressingMode::RELZPG) => Some(0xE4u8),
        (Mnemonics::CPX, AddressingMode::ABS) => Some(0xECu8),
        (Mnemonics::CPY, AddressingMode::IMM) => Some(0xC0u8),
        (Mnemonics::CPY, AddressingMode::RELZPG) => Some(0xC4u8),
        (Mnemonics::CPY, AddressingMode::ABS) => Some(0xCCu8),
        (Mnemonics::DEC, AddressingMode::RELZPG) => Some(0xC6u8),
        (Mnemonics::DEC, AddressingMode::ABS) => Some(0xCEu8),
        (Mnemonics::DEC, AddressingMode::ZPX) => Some(0xD6u8),
        (Mnemonics::DEC, AddressingMode::ABX) => Some(0xDEu8),
        (Mnemonics::DEX, AddressingMode::IMPACC) => Some(0xCAu8),
        (Mnemonics::DEY, AddressingMode::IMPACC) => Some(0x88u8),
        (Mnemonics::EOR, AddressingMode::IDX) => Some(0x41u8),
        (Mnemonics::EOR, AddressingMode::RELZPG) => Some(0x45u8),
        (Mnemonics::EOR, AddressingMode::IMM) => Some(0x49u8),
        (Mnemonics::EOR, AddressingMode::ABS) => Some(0x4Du8),
        (Mnemonics::EOR, AddressingMode::IDY) => Some(0x51u8),
        (Mnemonics::EOR, AddressingMode::ZPX) => Some(0x55u8),
        (Mnemonics::EOR, AddressingMode::ABY) => Some(0x59u8),
        (Mnemonics::EOR, AddressingMode::ABX) => Some(0x5Du8),
        (Mnemonics::INC, AddressingMode::RELZPG) => Some(0xE6u8),
        (Mnemonics::INC, AddressingMode::ABS) => Some(0xEEu8),
        (Mnemonics::INC, AddressingMode::ZPX) => Some(0xF6u8),
        (Mnemonics::INC, AddressingMode::ABX) => Some(0xFEu8),
        (Mnemonics::INX, AddressingMode::IMPACC) => Some(0xE8u8),
        (Mnemonics::INY, AddressingMode::IMPACC) => Some(0xC8u8),
        (Mnemonics::JMP, AddressingMode::ABS) => Some(0x4Cu8),
        (Mnemonics::JMP, AddressingMode::IND) => Some(0x6Cu8),
        (Mnemonics::JSR, AddressingMode::ABS) => Some(0x20u8),
        (Mnemonics::LDA, AddressingMode::IDX) => Some(0xA1u8),
        (Mnemonics::LDA, AddressingMode::RELZPG) => Some(0xA5u8),
        (Mnemonics::LDA, AddressingMode::IMM) => Some(0xA9u8),
        (Mnemonics::LDA, AddressingMode::ABS) => Some(0xADu8),
        (Mnemonics::LDA, AddressingMode::IDY) => Some(0xB1u8),
        (Mnemonics::LDA, AddressingMode::ZPX) => Some(0xB5u8),
        (Mnemonics::LDA, AddressingMode::ABY) => Some(0xB9u8),
        (Mnemonics::LDA, AddressingMode::ABX) => Some(0xBDu8),
        (Mnemonics::LDX, AddressingMode::IMM) => Some(0xA2u8),
        (Mnemonics::LDX, AddressingMode::RELZPG) => Some(0xA6u8),
        (Mnemonics::LDX, AddressingMode::ABS) => Some(0xAEu8),
        (Mnemonics::LDX, AddressingMode::ZPY) => Some(0xB6u8),
        (Mnemonics::LDX, AddressingMode::ABY) => Some(0xBEu8),
        (Mnemonics::LDY, AddressingMode::IMM) => Some(0xA0u8),
        (Mnemonics::LDY, AddressingMode::RELZPG) => Some(0xA4u8),
        (Mnemonics::LDY, AddressingMode::ABS) => Some(0xACu8),
        (Mnemonics::LDY, AddressingMode::ZPX) => Some(0xB4u8),
        (Mnemonics::LDY, AddressingMode::ABX) => Some(0xBCu8),
        (Mnemonics::LSR, AddressingMode::RELZPG) => Some(0x46u8),
        (Mnemonics::LSR, AddressingMode::IMPACC) => Some(0x4Au8),
        (Mnemonics::LSR, AddressingMode::ABS) => Some(0x4Eu8),
        (Mnemonics::LSR, AddressingMode::ZPX) => Some(0x56u8),
        (Mnemonics::LSR, AddressingMode::ABX) => Some(0x5Eu8),
        (Mnemonics::NOP, AddressingMode::IMPACC) => Some(0xEAu8),
        (Mnemonics::ORA, AddressingMode::IDX) => Some(0x01u8),
        (Mnemonics::ORA, AddressingMode::RELZPG) => Some(0x05u8),
        (Mnemonics::ORA, AddressingMode::IMM) => Some(0x09u8),
        (Mnemonics::ORA, AddressingMode::ABS) => Some(0x0Du8),
        (Mnemonics::ORA, AddressingMode::IDY) => Some(0x11u8),
        (Mnemonics::ORA, AddressingMode::ZPX) => Some(0x15u8),
        (Mnemonics::ORA, AddressingMode::ABY) => Some(0x19u8),
        (Mnemonics::ORA, AddressingMode::ABX) => Some(0x1Du8),
        (Mnemonics::PHA, AddressingMode::IMPACC) => Some(0x48u8),
        (Mnemonics::PHP, AddressingMode::IMPACC) => Some(0x08u8),
        (Mnemonics::PLA, AddressingMode::IMPACC) => Some(0x68u8),
        (Mnemonics::PLP, AddressingMode::IMPACC) => Some(0x28u8),
        (Mnemonics::ROL, AddressingMode::RELZPG) => Some(0x26u8),
        (Mnemonics::ROL, AddressingMode::IMPACC) => Some(0x2Au8),
        (Mnemonics::ROL, AddressingMode::ABS) => Some(0x2Eu8),
        (Mnemonics::ROL, AddressingMode::ZPX) => Some(0x36u8),
        (Mnemonics::ROL, AddressingMode::ABX) => Some(0x3Eu8),
        (Mnemonics::ROR, AddressingMode::RELZPG) => Some(0x66u8),
        (Mnemonics::ROR, AddressingMode::IMPACC) => Some(0x6Au8),
        (Mnemonics::ROR, AddressingMode::ABS) => Some(0x6Eu8),
        (Mnemonics::ROR, AddressingMode::ZPX) => Some(0x76u8),
        (Mnemonics::ROR, AddressingMode::ABX) => Some(0x7Eu8),
        (Mnemonics::RTI, AddressingMode::IMPACC) => Some(0x40u8),
        (Mnemonics::RTS, AddressingMode::IMPACC) => Some(0x60u8),
        (Mnemonics::SBC, AddressingMode::IDX) => Some(0xE1u8),
        (Mnemonics::SBC, AddressingMode::RELZPG) => Some(0xE5u8),
        (Mnemonics::SBC, AddressingMode::IMM) => Some(0xE9u8),
        (Mnemonics::SBC, AddressingMode::ABS) => Some(0xEDu8),
        (Mnemonics::SBC, AddressingMode::IDY) => Some(0xF1u8),
        (Mnemonics::SBC, AddressingMode::ZPX) => Some(0xF5u8),
        (Mnemonics::SBC, AddressingMode::ABY) => Some(0xF9u8),
        (Mnemonics::SBC, AddressingMode::ABX) => Some(0xFDu8),
        (Mnemonics::SEC, AddressingMode::IMPACC) => Some(0x38u8),
        (Mnemonics::SED, AddressingMode::IMPACC) => Some(0xF8u8),
        (Mnemonics::SEI, AddressingMode::IMPACC) => Some(0x78u8),
        (Mnemonics::STA, AddressingMode::IDX) => Some(0x81u8),
        (Mnemonics::STA, AddressingMode::RELZPG) => Some(0x85u8),
        (Mnemonics::STA, AddressingMode::ABS) => Some(0x8Du8),
        (Mnemonics::STA, AddressingMode::IDY) => Some(0x91u8),
        (Mnemonics::STA, AddressingMode::ZPX) => Some(0x95u8),
        (Mnemonics::STA, AddressingMode::ABY) => Some(0x99u8),
        (Mnemonics::STA, AddressingMode::ABX) => Some(0x9Du8),
        (Mnemonics::STX, AddressingMode::RELZPG) => Some(0x86u8),
        (Mnemonics::STX, AddressingMode::ABS) => Some(0x8Eu8),
        (Mnemonics::STX, AddressingMode::ZPY) => Some(0x96u8),
        (Mnemonics::STY, AddressingMode::RELZPG) => Some(0x84u8),
        (Mnemonics::STY, AddressingMode::ABS) => Some(0x8Cu8),
        (Mnemonics::STY, AddressingMode::ZPX) => Some(0x94u8),
        (Mnemonics::TAX, AddressingMode::IMPACC) => Some(0xAAu8),
        (Mnemonics::TAY, AddressingMode::IMPACC) => Some(0xA8u8),
        (Mnemonics::TSX, AddressingMode::IMPACC) => Some(0xBAu8),
        (Mnemonics::TXA, AddressingMode::IMPACC) => Some(0x8Au8),
        (Mnemonics::TXS, AddressingMode::IMPACC) => Some(0x9Au8),
        (Mnemonics::TYA, AddressingMode::IMPACC) => Some(0x98u8),
        _ => None,
    }
}

/// The mnemonic and the addressing mode of an opcode, where the byte is
/// one.
#[verifier::allow_in_spec]
pub fn decode(byte: u8) -> Option<(Mnemonics, AddressingMode)>
    returns
        (match byte {
            0x00 => Some((Mnemonics::BRK, AddressingMode::IMPACC)),
            0x01 => Some((Mnemonics::ORA, AddressingMode::IDX)),
            0x05 => Some((Mnemonics::ORA, AddressingMode::RELZPG)),
            0x06 => Some((Mnemonics::ASL, AddressingMode::RELZPG)),
            0x08 => Some((Mnemonics::PHP, AddressingMode::IMPACC)),
            0x09 => Some((Mnemonics::ORA, AddressingMode::IMM)),
            0x0A => Some((Mnemonics::ASL, AddressingMode::IMPACC)),
            0x0D => Some((Mnemonics::ORA, AddressingMode::ABS)),
            0x0E => Some((Mnemonics::ASL, AddressingMode::ABS)),
            0x10 => Some((Mnemonics::BPL, AddressingMode::RELZPG)),
            0x11 => Some((Mnemonics::ORA, AddressingMode::IDY)),
            0x15 => Some((Mnemonics::ORA, AddressingMode::ZPX)),
            0x16 => Some((Mnemonics::ASL, AddressingMode::ZPX)),
            0x18 => Some((Mnemonics::CLC, AddressingMode::IMPACC)),
            0x19 => Some((Mnemonics::ORA, AddressingMode::ABY)),
            0x1D => Some((Mnemonics::ORA, AddressingMode::ABX)),
            0x1E => Some((Mnemonics::ASL, AddressingMode::ABX)),
            0x20 => Some((Mnemonics::JSR, AddressingMode::ABS)),
            0x21 => Some((Mnemonics::AND, AddressingMode::IDX)),
            0x24 => Some((Mnemonics::BIT, AddressingMode::RELZPG)),
            0x25 => Some((Mnemonics::AND, AddressingMode::RELZPG)),
            0x26 => Some((Mnemonics::ROL, AddressingMode::RELZPG)),
            0x28 => Some((Mnemonics::PLP, AddressingMode::IMPACC)),
            0x29 => Some((Mnemonics::AND, AddressingMode::IMM)),
            0x2A => Some((Mnemonics::ROL, AddressingMode::IMPACC)),
            0x2C => Some((Mnemonics::BIT, AddressingMode::ABS)),
            0x2D => Some((Mnemonics::AND, AddressingMode::ABS)),
            0x2E => Some((Mnemonics::ROL, AddressingMode::ABS)),
            0x30 => Some((Mnemonics::BMI, AddressingMode::RELZPG)),
            0x31 => Some((Mnemonics::AND, AddressingMode::IDY)),
            0x35 => Some((Mnemonics::AND, AddressingMode::ZPX)),
            0x36 => Some((Mnemonics::ROL, AddressingMode::ZPX)),
            0x38 => Some((Mnemonics::SEC, AddressingMode::IMPACC)),
            0x39 => Some((Mnemonics::AND, AddressingMode::ABY)),
            0x3D => Some((Mnemonics::AND, AddressingMode::ABX)),
            0x3E => Some((Mnemonics::ROL, AddressingMode::ABX)),
            0x40 => Some((Mnemonics::RTI, AddressingMode::IMPACC)),
            0x41 => Some((Mnemonics::EOR, AddressingMode::IDX)),
            0x45 => Some((Mnemonics::EOR, AddressingMode::RELZPG)),
            0x46 => Some((Mnemonics::LSR, AddressingMode::RELZPG)),
            0x48 => Some((Mnemonics::PHA, AddressingMode::IMPACC)),
            0x49 => Some((Mnemonics::EOR, AddressingMode::IMM)),
            0x4A => Some((Mnemonics::LSR, AddressingMode::IMPACC)),
            0x4C => Some((Mnemonics::JMP, AddressingMode::ABS)),
            0x4D => Some((Mnemonics::EOR, AddressingMode::ABS)),
            0x4E => Some((Mnemonics::LSR, AddressingMode::ABS)),
            0x50 => Some((Mnemonics::BVC, AddressingMode::RELZPG)),
            0x51 => Some((Mnemonics::EOR, AddressingMode::IDY)),
            0x55 => Some((Mnemonics::EOR, AddressingMode::ZPX)),
            0x56 => Some((Mnemonics::LSR, AddressingMode::ZPX)),
            0x58 => Some((Mnemonics::CLI, AddressingMode::IMPACC)),
            0x59 => Some((Mnemonics::EOR, AddressingMode::ABY)),
            0x5D => Some((Mnemonics::EOR, AddressingMode::ABX)),
            0x5E => Some((Mnemonics::LSR, AddressingMode::ABX)),
            0x60 => Some((Mnemonics::RTS, AddressingMode::IMPACC)),
            0x61 => Some((Mnemonics::ADC, AddressingMode::IDX)),
            0x65 => Some((Mnemonics::ADC, AddressingMode::RELZPG)),
            0x66 => Some((Mnemonics::ROR, AddressingMode::RELZPG)),
            0x68 => Some((Mnemonics::PLA, AddressingMode::IMPACC)),
            0x69 => Some((Mnemonics::ADC, AddressingMode::IMM)),
            0x6A => Some((Mnemonics::ROR, AddressingMode::IMPACC)),
            0x6C => Some((Mnemonics::JMP, AddressingMode::IND)),
            0x6D => Some((Mnemonics::ADC, AddressingMode::ABS)),
            0x6E => Some((Mnemonics::ROR, AddressingMode::ABS)),
            0x70 => Some((Mnemonics::BVS, AddressingMode::RELZPG)),
            0x71 => Some((Mnemonics::ADC, AddressingMode::IDY)),
            0x75 => Some((Mnemonics::ADC, AddressingMode::ZPX)),
            0x76 => Some((Mnemonics::ROR, AddressingMode::ZPX)),
            0x78 => Some((Mnemonics::SEI, AddressingMode::IMPACC)),
            0x79 => Some((Mnemonics::ADC, AddressingMode::ABY)),
            0x7D => Some((Mnemonics::ADC, AddressingMode::ABX)),
            0x7E => Some((Mnemonics::ROR, AddressingMode::ABX)),
            0x81 => Some((Mnemonics::STA, AddressingMode::IDX)),
            0x84 => Some((Mnemonics::STY, AddressingMode::RELZPG)),
            0x85 => Some((Mnemonics::STA, AddressingMode::RELZPG)),
            0x86 => Some((Mnemonics::STX, AddressingMode::RELZPG)),
            0x88 => Some((Mnemonics::DEY, AddressingMode::IMPACC)),
            0x8A => Some((Mnemonics::TXA, AddressingMode::IMPACC)),
            0x8C => Some((Mnemonics::STY, AddressingMode::ABS)),
            0x8D => Some((Mnemonics::STA, AddressingMode::ABS)),
            0x8E => Some((Mnemonics::STX, AddressingMode::ABS)),
            0x90 => Some((Mnemonics::BCC, AddressingMode::RELZPG)),
            0x91 => Some((Mnemonics::STA, AddressingMode::IDY)),
            0x94 => Some((Mnemonics::STY, AddressingMode::ZPX)),
            0x95 => Some((Mnemonics::STA, AddressingMode::ZPX)),
            0x96 => Some((Mnemonics::STX, AddressingMode::ZPY)),
            0x98 => Some((Mnemonics::TYA, AddressingMode::IMPACC)),
            0x99 => Some((Mnemonics::STA, AddressingMode::ABY)),
            0x9A => Some((Mnemonics::TXS, AddressingMode::IMPACC)),
            0x9D => Some((Mnemonics::STA, AddressingMode::ABX)),
            0xA0 => Some((Mnemonics::LDY, AddressingMode::IMM)),
            0xA1 => Some((Mnemonics::LDA, AddressingMode::IDX)),
            0xA2 => Some((Mnemonics::LDX, AddressingMode::IMM)),
            0xA4 => Some((Mnemonics::LDY, AddressingMode::RELZPG)),
            0xA5 => Some((Mnemonics::LDA, AddressingMode::RELZPG)),
            0xA6 => Some((Mnemonics::LDX, AddressingMode::RELZPG)),
            0xA8 => Some((Mnemonics::TAY, AddressingMode::IMPACC)),
            0xA9 => Some((Mnemonics::LDA, AddressingMode::IMM)),
            0xAA => Some((Mnemonics::TAX, AddressingMode::IMPACC)),
            0xAC => Some((Mnemonics::LDY, AddressingMode::ABS)),
            0xAD => Some((Mnemonics::LDA, AddressingMode::ABS)),
            0xAE => Some((Mnemonics::LDX, AddressingMode::ABS)),
            0xB0 => Some((Mnemonics::BCS, AddressingMode::RELZPG)),
            0xB1 => Some((Mnemonics::LDA, AddressingMode::IDY)),
            0xB4 => Some((Mnemonics::LDY, AddressingMode::ZPX)),
            0xB5 => Some((Mnemonics::LDA, AddressingMode::ZPX)),
            0xB6 => Some((Mnemonics::LDX, AddressingMode::ZPY)),
            0xB8 => Some((Mnemonics::CLV, AddressingMode::IMPACC)),
            0xB9 => Some((Mnemonics::LDA, AddressingMode::ABY)),
            0xBA => Some((Mnemonics::TSX, AddressingMode::IMPACC)),
            0xBC => Some((Mnemonics::LDY, AddressingMode::ABX)),
            0xBD => Some((Mnemonics::LDA, AddressingMode::ABX)),
            0xBE => Some((Mnemonics::LDX, AddressingMode::ABY)),
            0xC0 => Some((Mnemonics::CPY, AddressingMode::IMM)),
            0xC1 => Some((Mnemonics::CMP, AddressingMode::IDX)),
            0xC4 => Some((Mnemonics::CPY, AddressingMode::RELZPG)),
            0xC5 => Some((Mnemonics::CMP, AddressingMode::RELZPG)),
            0xC6 => Some((Mnemonics::DEC, AddressingMode::RELZPG)),
            0xC8 => Some((Mnemonics::INY, AddressingMode::IMPACC)),
            0xC9 => Some((Mnemonics::CMP, AddressingMode::IMM)),
            0xCA => Some((Mnemonics::DEX, AddressingMode::IMPACC)),
            0xCC => Some((Mnemonics::CPY, AddressingMode::ABS)),
            0xCD => Some((Mnemonics::CMP, AddressingMode::ABS)),
            0xCE => Some((Mnemonics::DEC, AddressingMode::ABS)),
            0xD0 => Some((Mnemonics::BNE, AddressingMode::RELZPG)),
            0xD1 => Some((Mnemonics::CMP, AddressingMode::IDY)),
            0xD5 => Some((Mnemonics::CMP, AddressingMode::ZPX)),
            0xD6 => Some((Mnemonics::DEC, AddressingMode::ZPX)),
            0xD8 => Some((Mnemonics::CLD, AddressingMode::IMPACC)),
            0xD9 => Some((Mnemonics::CMP, AddressingMode::ABY)),
            0xDD => Some((Mnemonics::CMP, AddressingMode::ABX)),
            0xDE => Some((Mnemonics::DEC, AddressingMode::ABX)),
            0xE0 => Some((Mnemonics::CPX, AddressingMode::IMM)),
            0xE1 => Some((Mnemonics::SBC, AddressingMode::IDX)),
            0xE4 => Some((Mnemonics::CPX, AddressingMode::RELZPG)),
            0xE5 => Some((Mnemonics::SBC, AddressingMode::RELZPG)),
            0xE6 => Some((Mnemonics::INC, AddressingMode::RELZPG)),
            0xE8 => Some((Mnemonics::INX, AddressingMode::IMPACC)),
            0xE9 => Some((Mnemonics::SBC, AddressingMode::IMM)),
            0xEA => Some((Mnemonics::NOP, AddressingMode::IMPACC)),
            0xEC => Some((Mnemonics::CPX, AddressingMode::ABS)),
            0xED => Some((Mnemonics::SBC, AddressingMode::ABS)),
            0xEE => Some((Mnemonics::INC, AddressingMode::ABS)),
            0xF0 => Some((Mnemonics::BEQ, AddressingMode::RELZPG)),
            0xF1 => Some((Mnemonics::SBC, AddressingMode::IDY)),
            0xF5 => Some((Mnemonics::SBC, AddressingMode::ZPX)),
            0xF6 => Some((Mnemonics::INC, AddressingMode::ZPX)),
            0xF8 => Some((Mnemonics::SED, AddressingMode::IMPACC)),
            0xF9 => Some((Mnemonics::SBC, AddressingMode::ABY)),
            0xFD => Some((Mnemonics::SBC, AddressingMode::ABX)),
            0xFE => Some((Mnemonics::INC, AddressingMode::ABX)),
            _ => None,
        }),
{
    match byte {
        0x00 => Some((Mnemonics::BRK, AddressingMode::IMPACC)),
        0x01 => Some((Mnemonics::ORA, AddressingMode::IDX)),
        0x05 => Some((Mnemonics::ORA, AddressingMode::RELZPG)),
        0x06 => Some((Mnemonics::ASL, AddressingMode::RELZPG)),
        0x08 => Some((Mnemonics::PHP, AddressingMode::IMPACC)),
        0x09 => Some((Mnemonics::ORA, AddressingMode::IMM)),
        0x0A => Some((Mnemonics::ASL, AddressingMode::IMPACC)),
        0x0D => Some((Mnemonics::ORA, AddressingMode::ABS)),
        0x0E => Some((Mnemonics::ASL, AddressingMode::ABS)),
        0x10 => Some((Mnemonics::BPL, AddressingMode::RELZPG)),
        0x11 => Some((Mnemonics::ORA, AddressingMode::IDY)),
        0x15 => Some((Mnemonics::ORA, AddressingMode::ZPX)),
        0x16 => Some((Mnemonics::ASL, AddressingMode::ZPX)),
        0x18 => Some((Mnemonics::CLC, AddressingMode::IMPACC)),
        0x19 => Some((Mnemonics::ORA, AddressingMode::ABY)),
        0x1D => Some((Mnemonics::ORA, AddressingMode::ABX)),
        0x1E => Some((Mnemonics::ASL, AddressingMode::ABX)),
        0x20 => Some((Mnemonics::JSR, AddressingMode::ABS)),
        0x21 => Some((Mnemonics::AND, AddressingMode::IDX)),
        0x24 => Some((Mnemonics::BIT, AddressingMode::RELZPG)),
        0x25 => Some((Mnemonics::AND, AddressingMode::RELZPG)),
        0x26 => Some((Mnemonics::ROL, AddressingMode::RELZPG)),
        0x28 => Some((Mnemonics::PLP, AddressingMode::IMPACC)),
        0x29 => Some((Mnemonics::AND, AddressingMode::IMM)),
        0x2A => Some((Mnemonics::ROL, AddressingMode::IMPACC)),
        0x2C => Some((Mnemonics::BIT, AddressingMode::ABS)),
        0x2D => Some((Mnemonics::AND, AddressingMode::ABS)),
        0x2E => Some((Mnemonics::ROL, AddressingMode::ABS)),
        0x30 => Some((Mnemonics::BMI, AddressingMode::RELZPG)),
        0x31 => Some((Mnemonics::AND, AddressingMode::IDY)),
        0x35 => Some((Mnemonics::AND, AddressingMode::ZPX)),
        0x36 => Some((Mnemonics::ROL, AddressingMode::ZPX)),
        0x38 => Some((Mnemonics::SEC, AddressingMode::IMPACC)),
        0x39 => Some((Mnemonics::AND, AddressingMode::ABY)),
        0x3D => Some((Mnemonics::AND, AddressingMode::ABX)),
        0x3E => Some((Mnemonics::ROL, AddressingMode::ABX)),
        0x40 => Some((Mnemonics::RTI, AddressingMode::IMPACC)),
        0x41 => Some((Mnemonics::EOR, AddressingMode::IDX)),
        0x45 => Some((Mnemonics::EOR, AddressingMode::RELZPG)),
        0x46 => Some((Mnemonics::LSR, AddressingMode::RELZPG)),
        0x48 => Some((Mnemonics::PHA, AddressingMode::IMPACC)),
        0x49 => Some((Mnemonics::EOR, AddressingMode::IMM)),
        0x4A => Some((Mnemonics::LSR, AddressingMode::IMPACC)),
        0x4C => Some((Mnemonics::JMP, AddressingMode::ABS)),
        0x4D => Some((Mnemonics::EOR, AddressingMode::ABS)),
        0x4E => Some((Mnemonics::LSR, AddressingMode::ABS)),
        0x50 => Some((Mnemonics::BVC, AddressingMode::RELZPG)),
        0x51 => Some((Mnemonics::EOR, AddressingMode::IDY)),
        0x55 => Some((Mnemonics::EOR, AddressingMode::ZPX)),
        0x56 => Some((Mnemonics::LSR, AddressingMode::ZPX)),
        0x58 => Some((Mnemonics::CLI, AddressingMode::IMPACC)),
        0x59 => Some((Mnemonics::EOR, AddressingMode::ABY)),
        0x5D => Some((Mnemonics::EOR, AddressingMode::ABX)),
        0x5E => Some((Mnemonics::LSR, AddressingMode::ABX)),
        0x60 => Some((Mnemonics::RTS, AddressingMode::IMPACC)),
        0x61 => Some((Mnemonics::ADC, AddressingMode::IDX)),
        0x65 => Some((Mnemonics::ADC, AddressingMode::RELZPG)),
        0x66 => Some((Mnemonics::ROR, AddressingMode::RELZPG)),
        0x68 => Some((Mnemonics::PLA, AddressingMode::IMPACC)),
        0x69 => Some((Mnemonics::ADC, AddressingMode::IMM)),
        0x6A => Some((Mnemonics::ROR, AddressingMode::IMPACC)),
        0x6C => Some((Mnemonics::JMP, AddressingMode::IND)),
        0x6D => Some((Mnemonics::ADC, AddressingMode::ABS)),
        0x6E => Some((Mnemonics::ROR, AddressingMode::ABS)),
        0x70 => Some((Mnemonics::BVS, AddressingMode::RELZPG)),
        0x71 => Some((Mnemonics::ADC, AddressingMode::IDY)),
        0x75 => Some((Mnemonics::ADC, AddressingMode::ZPX)),
        0x76 => Some((Mnemonics::ROR, AddressingMode::ZPX)),
        0x78 => Some((Mnemonics::SEI, AddressingMode::IMPACC)),
        0x79 => Some((Mnemonics::ADC, AddressingMode::ABY)),
        0x7D => Some((Mnemonics::ADC, AddressingMode::ABX)),
        0x7E => Some((Mnemonics::ROR, AddressingMode::ABX)),
        0x81 => Some((Mnemonics::STA, AddressingMode::IDX)),
        0x84 => Some((Mnemonics::STY, AddressingMode::RELZPG)),
        0x85 => Some((Mnemonics::STA, AddressingMode::RELZPG)),
        0x86 => Some((Mnemonics::STX, AddressingMode::RELZPG)),
        0x88 => Some((Mnemonics::DEY, AddressingMode::IMPACC)),
        0x8A => Some((Mnemonics::TXA, AddressingMode::IMPACC)),
        0x8C => Some((Mnemonics::STY, AddressingMode::ABS)),
        0x8D => Some((Mnemonics::STA, AddressingMode::ABS)),
        0x8E => Some((Mnemonics::STX, AddressingMode::ABS)),
        0x90 => Some((Mnemonics::BCC, AddressingMode::RELZPG)),
        0x91 => Some((Mnemonics::STA, AddressingMode::IDY)),
        0x94 => Some((Mnemonics::STY, AddressingMode::ZPX)),
        0x95 => Some((Mnemonics::STA, AddressingMode::ZPX)),
        0x96 => Some((Mnemonics::STX, AddressingMode::ZPY)),
        0x98 => Some((Mnemonics::TYA, AddressingMode::IMPACC)),
        0x99 => Some((Mnemonics::STA, AddressingMode::ABY)),
        0x9A => Some((Mnemonics::TXS, AddressingMode::IMPACC)),
        0x9D => Some((Mnemonics::STA, AddressingMode::ABX)),
        0xA0 => Some((Mnemonics::LDY, AddressingMode::IMM)),
        0xA1 => Some((Mnemonics::LDA, AddressingMode::IDX)),
        0xA2 => Some((Mnemonics::LDX, AddressingMode::IMM)),
        0xA4 => Some((Mnemonics::LDY, AddressingMode::RELZPG)),
        0xA5 => Some((Mnemonics::LDA, AddressingMode::RELZPG)),
        0xA6 => Some((Mnemonics::LDX, AddressingMode::RELZPG)),
        0xA8 => Some((Mnemonics::TAY, AddressingMode::IMPACC)),
        0xA9 => Some((Mnemonics::LDA, AddressingMode::IMM)),
        0xAA => Some((Mnemonics::TAX, AddressingMode::IMPACC)),
        0xAC => Some((Mnemonics::LDY, AddressingMode::ABS)),
        0xAD => Some((Mnemonics::LDA, AddressingMode::ABS)),
        0xAE => Some((Mnemonics::LDX, AddressingMode::ABS)),
        0xB0 => Some((Mnemonics::BCS, AddressingMode::RELZPG)),
        0xB1 => Some((Mnemonics::LDA, AddressingMode::IDY)),
        0xB4 => Some((Mnemonics::LDY, AddressingMode::ZPX)),
        0xB5 => Some((Mnemonics::LDA, AddressingMode::ZPX)),
        0xB6 => Some((Mnemonics::LDX, AddressingMode::ZPY)),
        0xB8 => Some((Mnemonics::CLV, AddressingMode::IMPACC)),
        0xB9 => Some((Mnemonics::LDA, AddressingMode::ABY)),
        0xBA => Some((Mnemonics::TSX, AddressingMode::IMPACC)),
        0xBC => Some((Mnemonics::LDY, AddressingMode::ABX)),
        0xBD => Some((Mnemonics::LDA, AddressingMode::ABX)),
        0xBE => Some((Mnemonics::LDX, AddressingMode::ABY)),
        0xC0 => Some((Mnemonics::CPY, AddressingMode::IMM)),
        0xC1 => Some((Mnemonics::CMP, AddressingMode::IDX)),
        0xC4 => Some((Mnemonics::CPY, AddressingMode::RELZPG)),
        0xC5 => Some((Mnemonics::CMP, AddressingMode::RELZPG)),
        0xC6 => Some((Mnemonics::DEC, AddressingMode::RELZPG)),
        0xC8 => Some((Mnemonics::INY, AddressingMode::IMPACC)),
        0xC9 => Some((Mnemonics::CMP, AddressingMode::IMM)),
        0xCA => Some((Mnemonics::DEX, AddressingMode::IMPACC)),
        0xCC => Some((Mnemonics::CPY, AddressingMode::ABS)),
        0xCD => Some((Mnemonics::CMP, AddressingMode::ABS)),
        0xCE => Some((Mnemonics::DEC, AddressingMode::ABS)),
        0xD0 => Some((Mnemonics::BNE, AddressingMode::RELZPG)),
        0xD1 => Some((Mnemonics::CMP, AddressingMode::IDY)),
        0xD5 => Some((Mnemonics::CMP, AddressingMode::ZPX)),
        0xD6 => Some((Mnemonics::DEC, AddressingMode::ZPX)),
        0xD8 => Some((Mnemonics::CLD, AddressingMode::IMPACC)),
        0xD9 => Some((Mnemonics::CMP, AddressingMode::ABY)),
        0xDD => Some((Mnemonics::CMP, AddressingMode::ABX)),
        0xDE => Some((Mnemonics::DEC, AddressingMode::ABX)),
        0xE0 => Some((Mnemonics::CPX, AddressingMode::IMM)),
        0xE1 => Some((Mnemonics::SBC, AddressingMode::IDX)),
        0xE4 => Some((Mnemonics::CPX, AddressingMode::RELZPG)),
        0xE5 => Some((Mnemonics::SBC, AddressingMode::RELZPG)),
        0xE6 => Some((Mnemonics::INC, AddressingMode::RELZPG)),
        0xE8 => Some((Mnemonics::INX, AddressingMode::IMPACC)),
        0xE9 => Some((Mnemonics::SBC, AddressingMode::IMM)),
        0xEA => Some((Mnemonics::NOP, AddressingMode::IMPACC)),
        0xEC => Some((Mnemonics::CPX, AddressingMode::ABS)),
        0xED => Some((Mnemonics::SBC, AddressingMode::ABS)),
        0xEE => Some((Mnemonics::INC, AddressingMode::ABS)),
        0xF0 => Some((Mnemonics::BEQ, AddressingMode::RELZPG)),
        0xF1 => Some((Mnemonics::SBC, AddressingMode::IDY)),
        0xF5 => Some((Mnemonics::SBC, AddressingMode::ZPX)),
        0xF6 => Some((Mnemonics::INC, AddressingMode::ZPX)),
        0xF8 => Some((Mnemonics::SED, AddressingMode::IMPACC)),
        0xF9 => Some((Mnemonics::SBC, AddressingMode::ABY)),
        0xFD => Some((Mnemonics::SBC, AddressingMode::ABX)),
        0xFE => Some((Mnemonics::INC, AddressingMode::ABX)),
        _ => None,
    }
}

/// What `instruction_to_byte` returns for a mnemonic in a mode at a
/// position: the opcode, or the complaint that there is none.
pub open spec fn opcode_or_error(
    mnemonic: Mnemonics,
    mode: AddressingMode,
    position: Position,
) -> Result<u8, ErrorView> {
    match encode(mnemonic, mode) {
        Some(byte) => Ok(byte),
        None => Err(
            ErrorView { kind: ErrorKind::InvalidInstruction(mnemonic.name(), mode), position },
        ),
    }
}

/// The opcode of an instruction. A combination of mnemonic and mode that
/// the processor does not have is an `InvalidInstruction`, at the position
/// of the instruction.
pub fn instruction_to_byte(instruction: &Instruction) -> (result: Result<u8, AssemblerError>)
    ensures
        crate::assembler::error::result_view(result) == opcode_or_error(
            instruction.opcode,
            instruction.operand.addressing_mode,
            instruction.position,
        ),
{
    match encode(instruction.opcode, instruction.operand.addressing_mode) {
        Some(byte) => Ok(byte),
        None => Err(
            AssemblerError::new(
                AssemblerErrorKind::InvalidInstruction(
                    instruction.opcode.to_string(),
                    instruction.operand.addressing_mode,
                ),
                instruction.position,
            ),
        ),
    }
}

/// The mnemonic and the addressing mode of an opcode. A byte that is no
/// opcode is an `InvalidOpcode`; it has no place in a source text, so its
/// position is line 0, column 0.
pub fn byte_to_opcode(byte: u8) -> (result: Result<(Mnemonics, AddressingMode), AssemblerError>)
    ensures
        match decode(byte) {
            Some(found) => result == Ok::<(Mnemonics, AddressingMode), AssemblerError>(found),
            None => result is Err && result->Err_0@ == (ErrorView {
                kind: ErrorKind::InvalidOpcode(byte),
                position: Position(0, 0),
            }),
        },
{
    match decode(byte) {
        Some(found) => Ok(found),
        None => Err(AssemblerError::new(AssemblerErrorKind::InvalidOpcode(byte), Position(0, 0))),
    }
}

/// The two tables are inverse to each other: an opcode decodes to the
/// mnemonic and mode that encode to it, and to no other.
pub proof fn lemma_encode_decode(mnemonic: Mnemonics, mode: AddressingMode, byte: u8)
    ensures
        encode(mnemonic, mode) == Some(byte) <==> decode(byte) == Some((mnemonic, mode)),
{
}

/// Spelling a mnemonic and reading it back gives the mnemonic.
pub proof fn lemma_named(mnemonic: Mnemonics)
    ensures
        Mnemonics::named(mnemonic.name()) == Some(mnemonic),
{
}

} // verus!
