//! What a source text says: statements, instructions, operands.

use vstd::prelude::*;
use crate::assembler::instruction::{AddressingMode, Mnemonics};

verus! {

/// A place in the source: line and column, both counted from 1.
#[derive(Clone, Copy, Debug, PartialEq, Eq, Structural)]
pub struct Position(pub usize, pub usize);

/// A number as it was written: in decimal or in hexadecimal, and of 8 or of
/// 16 bits.
#[derive(Clone, Copy, Debug, PartialEq, Eq, Structural)]
pub enum NumberType {
    Decimal8(u8),
    Decimal16(u16),
    Hexadecimal8(u8),
    Hexadecimal16(u16),
}

impl NumberType {
    /// The number of bytes that the number takes in the output.
    pub open spec fn width(self) -> nat {
        match self {
            NumberType::Decimal8(_) | NumberType::Hexadecimal8(_) => 1,
            NumberType::Decimal16(_) | NumberType::Hexadecimal16(_) => 2,
        }
    }

    /// The value of the number.
    pub open spec fn value(self) -> int {
        match self {
            NumberType::Decimal8(value) | NumberType::Hexadecimal8(value) => value as int,
            NumberType::Decimal16(value) | NumberType::Hexadecimal16(value) => value as int,
        }
    }

    /// The bytes of the number in the output: little-endian, one or two.
    pub open spec fn bytes(self) -> Seq<u8> {
        match self {
            NumberType::Decimal8(value) | NumberType::Hexadecimal8(value) => seq![value],
            NumberType::Decimal16(value) | NumberType::Hexadecimal16(value) => seq![
                (value as int % 256) as u8,
                (value as int / 256) as u8,
            ],
        }
    }
}

/// What an operand holds: a number, or the name of a label.
#[derive(Debug)]
pub enum OperandData {
    Number(NumberType),
    Label(String),
}

/// An `OperandData` with the label's name as a sequence of characters.
pub enum OperandValue {
    Number(NumberType),
    Label(Seq<char>),
}

impl View for OperandData {
    type V = OperandValue;

    open spec fn view(&self) -> OperandValue {
        match self {
            OperandData::Number(number) => OperandValue::Number(*number),
            OperandData::Label(name) => OperandValue::Label(name@),
        }
    }
}

impl OperandData {
    /// A copy.
    pub fn duplicate(&self) -> (copy: OperandData)
        ensures
            copy@ == self@,
    {
        match self {
            OperandData::Number(number) => OperandData::Number(*number),
            OperandData::Label(name) => OperandData::Label(name.clone()),
        }
    }
}

/// An operand: what it holds, if anything, and the form in which it is
/// encoded.
#[derive(Debug)]
pub struct Operand {
    pub value: Option<OperandData>,
    pub addressing_mode: AddressingMode,
}

/// What an `Operand` stands for.
pub struct OperandView {
    pub value: Option<OperandValue>,
    pub addressing_mode: AddressingMode,
}

impl View for Operand {
    type V = OperandView;

    open spec fn view(&self) -> OperandView {
        OperandView {
            value: match self.value {
                Some(data) => Some(data@),
                None => None,
            },
            addressing_mode: self.addressing_mode,
        }
    }
}

impl Operand {
    /// A copy.
    pub fn duplicate(&self) -> (copy: Operand)
        ensures
            copy@ == self@,
    {
        Operand {
            value: match &self.value {
                Some(data) => Some(data.duplicate()),
                None => None,
            },
            addressing_mode: self.addressing_mode,
        }
    }
}

/// One instruction of the source, with the place of its mnemonic.
#[derive(Debug)]
pub struct Instruction {
    pub opcode: Mnemonics,
    pub operand: Operand,
    pub position: Position,
}

/// What an `Instruction` stands for.
pub struct InstructionView {
    pub opcode: Mnemonics,
    pub operand: OperandView,
    pub position: Position,
}

impl View for Instruction {
    type V = InstructionView;

    open spec fn view(&self) -> InstructionView {
        InstructionView { opcode: self.opcode, operand: self.operand@, position: self.position }
    }
}

/// A statement: the definition of a label, or an instruction.
#[derive(Debug)]
pub enum Statement {
    Label(String),
    Instruction(Instruction),
}

/// What a `Statement` stands for.
pub enum StatementView {
    Label(Seq<char>),
    Instruction(InstructionView),
}

impl View for Statement {
    type V = StatementView;

    open spec fn view(&self) -> StatementView {
        match self {
            Statement::Label(name) => StatementView::Label(name@),
            Statement::Instruction(instruction) => StatementView::Instruction(instruction@),
        }
    }
}

/// A program: its statements in the order of the source.
#[derive(Debug)]
pub struct Program(pub Vec<Statement>);

impl View for Program {
    type V = Seq<StatementView>;

    open spec fn view(&self) -> Seq<StatementView> {
        self.0@.map_values(|statement: Statement| statement@)
    }
}

} // verus!
