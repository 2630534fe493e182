//! Tokens, and the lexer that reads them from a source text.

pub mod lexer;

use vstd::prelude::*;
use crate::assembler::ast::Position;

verus! {

/// The radix in which a number was written.
#[derive(Clone, Copy, Debug, PartialEq, Eq, Structural)]
pub enum Radix {
    Decimal,
    Hexadecimal,
}

/// The width of a number, which follows from how it was written.
#[derive(Clone, Copy, Debug, PartialEq, Eq, Structural)]
pub enum Width {
    Eight,
    Sixteen,
}

/// An index register.
#[derive(Clone, Copy, Debug, PartialEq, Eq, Structural)]
pub enum Register {
    X,
    Y,
}

/// The kinds of token.
#[derive(Debug)]
pub enum TokenKind {
    /// A word that is neither `define` nor the name of a register.
    Identifier(String),
    /// A number: its radix, its digits as written, and its width.
    Number(Radix, String, Width),
    /// The word `define`.
    Directive(String),
    /// `X` or `Y`.
    Register(Register),
    /// `#`
    Hash,
    /// A `$` that no digit follows.
    Dollar,
    /// `,`
    Comma,
    /// `(`
    LParen,
    /// `)`
    RParen,
    /// `:`
    Colon,
    /// The end of a line.
    Newline,
    /// The end of the source.
    Eof,
}

/// A `TokenKind` with its texts as sequences of characters.
pub enum TokenValue {
    Identifier(Seq<char>),
    Number(Radix, Seq<char>, Width),
    Directive(Seq<char>),
    Register(Register),
    Hash,
    Dollar,
    Comma,
    LParen,
    RParen,
    Colon,
    Newline,
    Eof,
}

impl View for TokenKind {
    type V = TokenValue;

    open spec fn view(&self) -> TokenValue {
        match self {
            TokenKind::Identifier(text) => TokenValue::Identifier(text@),
            TokenKind::Number(radix, text, width) => TokenValue::Number(*radix, text@, *width),
            TokenKind::Directive(text) => TokenValue::Directive(text@),
            TokenKind::Register(register) => TokenValue::Register(*register),
            TokenKind::Hash => TokenValue::Hash,
            TokenKind::Dollar => TokenValue::Dollar,
            TokenKind::Comma => TokenValue::Comma,
            TokenKind::LParen => TokenValue::LParen,
            TokenKind::RParen => TokenValue::RParen,
            TokenKind::Colon => TokenValue::Colon,
            TokenKind::Newline => TokenValue::Newline,
            TokenKind::Eof => TokenValue::Eof,
        }
    }
}

impl TokenValue {
    /// The token as an error message shows it.
    pub open spec fn text(self) -> Seq<char> {
        match self {
            TokenValue::Identifier(text) => text,
            TokenValue::Number(Radix::Decimal, text, _) => text,
            TokenValue::Number(Radix::Hexadecimal, text, _) => seq!['$'] + text,
            TokenValue::Directive(text) => text,
            TokenValue::Register(Register::X) => seq!['X'],
            TokenValue::Register(Register::Y) => seq!['Y'],
            TokenValue::Hash => seq!['#'],
            TokenValue::Dollar => seq!['$'],
            TokenValue::Comma => seq![','],
            TokenValue::LParen => seq!['('],
            TokenValue::RParen => seq![')'],
            TokenValue::Colon => seq![':'],
            TokenValue::Newline => "newline"@,
            TokenValue::Eof => "end of input"@,
        }
    }
}

impl TokenKind {
    /// The token as an error message shows it.
    pub fn to_string(&self) -> (text: String)
        ensures
            text@ == self@.text(),
    {
        let mut text = String::new();
        match self {
            TokenKind::Identifier(word) => text.append(word.as_str()),
            TokenKind::Number(Radix::Decimal, digits, _) => text.append(digits.as_str()),
            TokenKind::Number(Radix::Hexadecimal, digits, _) => {
                text.push('$');
                text.append(digits.as_str());
            },
            TokenKind::Directive(word) => text.append(word.as_str()),
            TokenKind::Register(Register::X) => text.push('X'),
            TokenKind::Register(Register::Y) => text.push('Y'),
            TokenKind::Hash => text.push('#'),
            TokenKind::Dollar => text.push('$'),
            TokenKind::Comma => text.push(','),
            TokenKind::LParen => text.push('('),
            TokenKind::RParen => text.push(')'),
            TokenKind::Colon => text.push(':'),
            TokenKind::Newline => text.append("newline"),
            TokenKind::Eof => text.append("end of input"),
        }
        text
    }
}

/// A token and the place of its first character.
#[derive(Debug)]
pub struct Token {
    pub kind: TokenKind,
    pub position: Position,
}

/// What a `Token` stands for.
pub struct TokenView {
    pub kind: TokenValue,
    pub position: Position,
}

impl View for Token {
    type V = TokenView;

    open spec fn view(&self) -> TokenView {
        TokenView { kind: self.kind@, position: self.position }
    }
}

} // verus!
