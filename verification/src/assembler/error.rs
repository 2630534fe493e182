//! What can go wrong in assembling and disassembling.

use vstd::prelude::*;
use crate::assembler::ast::Position;
use crate::assembler::instruction::AddressingMode;
use crate::text::{decimal, push_decimal, push_quoted, quoted};

verus! {

/// The kinds of error.
#[derive(Debug)]
pub enum AssemblerErrorKind {
    /// The source holds a character that no token starts with.
    IllegalCharacter(char),
    /// A number has a digit that its radix lacks, or lies outside
    /// `0..=65535`.
    InvalidNumber,
    /// The parser expected one token and found another.
    UnexpectedToken { expected: String, found: String },
    /// A statement starts with a token that starts none.
    UnexpectedToken2,
    /// An operand has none of the known shapes.
    InvalidOperand(String),
    /// An operand names a label that the program does not define.
    InvalidLabel(String),
    /// The processor has no opcode for the mnemonic in the mode.
    InvalidInstruction(String, AddressingMode),
    /// A statement starts with a word that is no mnemonic.
    InvalidMnemonic(String),
    /// The byte is no opcode, or its operand bytes are cut off.
    InvalidOpcode(u8),
}

/// An error kind with its texts as sequences of characters.
pub enum ErrorKind {
    IllegalCharacter(char),
    InvalidNumber,
    UnexpectedToken { expected: Seq<char>, found: Seq<char> },
    UnexpectedToken2,
    InvalidOperand(Seq<char>),
    InvalidLabel(Seq<char>),
    InvalidInstruction(Seq<char>, AddressingMode),
    InvalidMnemonic(Seq<char>),
    InvalidOpcode(u8),
}

impl View for AssemblerErrorKind {
    type V = ErrorKind;

    open spec fn view(&self) -> ErrorKind {
        match self {
            AssemblerErrorKind::IllegalCharacter(c) => ErrorKind::IllegalCharacter(*c),
            AssemblerErrorKind::InvalidNumber => ErrorKind::InvalidNumber,
            AssemblerErrorKind::UnexpectedToken { expected, found } => ErrorKind::UnexpectedToken {
                expected: expected@,
                found: found@,
            },
            AssemblerErrorKind::UnexpectedToken2 => ErrorKind::UnexpectedToken2,
            AssemblerErrorKind::InvalidOperand(text) => ErrorKind::InvalidOperand(text@),
            AssemblerErrorKind::InvalidLabel(text) => ErrorKind::InvalidLabel(text@),
            AssemblerErrorKind::InvalidInstruction(text, mode) => ErrorKind::InvalidInstruction(
                text@,
                *mode,
            ),
            AssemblerErrorKind::InvalidMnemonic(text) => ErrorKind::InvalidMnemonic(text@),
            AssemblerErrorKind::InvalidOpcode(byte) => ErrorKind::InvalidOpcode(*byte),
        }
    }
}

impl AssemblerErrorKind {
    /// A copy.
    pub fn duplicate(&self) -> (copy: AssemblerErrorKind)
        ensures
            copy@ == self@,
    {
        match self {
            AssemblerErrorKind::IllegalCharacter(c) => AssemblerErrorKind::IllegalCharacter(*c),
            AssemblerErrorKind::InvalidNumber => AssemblerErrorKind::InvalidNumber,
            AssemblerErrorKind::UnexpectedToken { expected, found } => {
                AssemblerErrorKind::UnexpectedToken {
                    expected: expected.clone(),
                    found: found.clone(),
                }
            },
            AssemblerErrorKind::UnexpectedToken2 => AssemblerErrorKind::UnexpectedToken2,
            AssemblerErrorKind::InvalidOperand(text) => AssemblerErrorKind::InvalidOperand(
                text.clone(),
            ),
            AssemblerErrorKind::InvalidLabel(text) => AssemblerErrorKind::InvalidLabel(
                text.clone(),
            ),
            AssemblerErrorKind::InvalidInstruction(text, mode) => {
                AssemblerErrorKind::InvalidInstruction(text.clone(), *mode)
            },
            AssemblerErrorKind::InvalidMnemonic(text) => AssemblerErrorKind::InvalidMnemonic(
                text.clone(),
            ),
            AssemblerErrorKind::InvalidOpcode(byte) => AssemblerErrorKind::InvalidOpcode(*byte),
        }
    }
}

impl ErrorKind {
    /// The message of the error.
    pub open spec fn message(self) -> Seq<char> {
        match self {
            ErrorKind::IllegalCharacter(c) => "Illegal character: "@.push(c),
            ErrorKind::InvalidNumber => "Invalid number"@,
            ErrorKind::UnexpectedToken { expected, found } => "Unexpected token: expected "@
                + quoted(expected) + ", found "@ + quoted(found),
            ErrorKind::UnexpectedToken2 => "Unexpected token"@,
            ErrorKind::InvalidOperand(text) => "Invalid operand: "@ + text,
            ErrorKind::InvalidLabel(text) => "Invalid label: "@ + text,
            ErrorKind::InvalidInstruction(text, mode) => "Invalid instruction: mnemonic "@
                + quoted(text) + " does not support "@ + mode.name() + " addressing mode"@,
            ErrorKind::InvalidMnemonic(text) => "Invalid mnemonic: "@ + quoted(text),
            ErrorKind::InvalidOpcode(byte) => "Invalid opcode: "@ + decimal(byte as nat),
        }
    }
}

impl AssemblerErrorKind {
    /// The message of the error.
    pub fn to_string(&self) -> (text: String)
        ensures
            text@ == self@.message(),
    {
        let mut text = String::new();
        match self {
            AssemblerErrorKind::IllegalCharacter(c) => {
                text.append("Illegal character: ");
                text.push(*c);
            },
            AssemblerErrorKind::InvalidNumber => {
                text.append("Invalid number");
            },
            AssemblerErrorKind::UnexpectedToken { expected, found } => {
                text.append("Unexpected token: expected ");
                push_quoted(&mut text, expected.as_str());
                text.append(", found ");
                push_quoted(&mut text, found.as_str());
            },
            AssemblerErrorKind::UnexpectedToken2 => {
                text.append("Unexpected token");
            },
            AssemblerErrorKind::InvalidOperand(operand) => {
                text.append("Invalid operand: ");
                text.append(operand.as_str());
            },
            AssemblerErrorKind::InvalidLabel(label) => {
                text.append("Invalid label: ");
                text.append(label.as_str());
            },
            AssemblerErrorKind::InvalidInstruction(mnemonic, addressing_mode) => {
                text.append("Invalid instruction: mnemonic ");
                push_quoted(&mut text, mnemonic.as_str());
                text.append(" does not support ");
                text.append(addressing_mode.to_str());
                text.append(" addressing mode");
            },
            AssemblerErrorKind::InvalidMnemonic(mnemonic) => {
                text.append("Invalid mnemonic: ");
                push_quoted(&mut text, mnemonic.as_str());
            },
            AssemblerErrorKind::InvalidOpcode(opcode) => {
                text.append("Invalid opcode: ");
                push_decimal(&mut text, *opcode as usize);
            },
        }
        text
    }
}

/// An error and the place in the source that it speaks of.
#[derive(Debug)]
pub struct AssemblerError {
    pub kind: AssemblerErrorKind,
    pub position: Position,
}

/// An error with its texts as sequences of characters.
pub struct ErrorView {
    pub kind: ErrorKind,
    pub position: Position,
}

impl View for AssemblerError {
    type V = ErrorView;

    open spec fn view(&self) -> ErrorView {
        ErrorView { kind: self.kind@, position: self.position }
    }
}

impl ErrorView {
    /// The message of the error, with its place.
    pub open spec fn message(self) -> Seq<char> {
        self.kind.message() + " at line "@ + decimal(self.position.0 as nat) + ", column "@
            + decimal(self.position.1 as nat)
    }
}

impl AssemblerError {
    /// The message of the error, with its place.
    pub fn to_string(&self) -> (text: String)
        ensures
            text@ == self@.message(),
    {
        let mut text = self.kind.to_string();
        text.append(" at line ");
        push_decimal(&mut text, self.position.0);
        text.append(", column ");
        push_decimal(&mut text, self.position.1);
        text
    }

    /// An error of `kind` at `position`.
    pub fn new(kind: AssemblerErrorKind, position: Position) -> (error: AssemblerError)
        ensures
            error.kind == kind,
            error.position == position,
    {
        AssemblerError { kind, position }
    }

    /// A copy.
    pub fn duplicate(&self) -> (copy: AssemblerError)
        ensures
            copy@ == self@,
    {
        AssemblerError { kind: self.kind.duplicate(), position: self.position }
    }
}

/// What the assembler returns: a value, or the first error.
pub type AssemblerResult<T> = Result<T, AssemblerError>;

/// A result with its error as an `ErrorView`.
pub open spec fn result_view<T>(result: Result<T, AssemblerError>) -> Result<T, ErrorView> {
    match result {
        Ok(value) => Ok(value),
        Err(error) => Err(error@),
    }
}

} // verus!
