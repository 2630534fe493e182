//! The parser: from tokens to statements.
//!
//! ```text
//! Program     := { Statement } Eof
//! Statement   := Label | Instruction | Define
//! Label       := Ident ':' End
//! Define      := 'define' Ident Operand End
//! Instruction := Mnemonic [ Operand ] End
//! Operand     := '#' Number | Number | Number ',' ('X' | 'Y')
//!              | '(' Number ')' | '(' Number ',' 'X' ')' | '(' Number ')' ',' 'Y'
//!              | Ident
//! End         := Newline | Eof
//! ```
//!
//! Empty lines are skipped. The width of a number decides between the
//! zero-page and the absolute forms. An operand that is the name of a
//! `define` stands for the operand that was defined; any other name is a
//! reference to a label.

use vstd::prelude::*;
use vstd::arithmetic::div_mod::{
    lemma_fundamental_div_mod, lemma_mod_mod, lemma_mod_multiples_vanish,
};
use crate::assembler::ast::{
    Instruction, InstructionView, NumberType, Operand, OperandData, OperandValue, OperandView,
    Position, Program, Statement, StatementView,
};
use crate::assembler::error::{AssemblerError, AssemblerErrorKind, ErrorKind, ErrorView};
use crate::assembler::instruction::{AddressingMode, Mnemonics};
use crate::assembler::table::Table;
use crate::assembler::tokenizer::lexer::{
    digit, error_view, lex_from, number_value, token_views, Lexed, Lexer,
};
use crate::assembler::tokenizer::{Radix, Register, Token, TokenKind, TokenValue, TokenView, Width};

verus! {

/// The number that a number token denotes. A token of the lexer keeps
/// within its width; of any other, the value is cut to the width.
pub open spec fn number_of(radix: Radix, text: Seq<char>, width: Width) -> NumberType {
    let value = number_value(radix, text);
    match (radix, width) {
        (Radix::Decimal, Width::Eight) => NumberType::Decimal8((value % 0x100) as u8),
        (Radix::Decimal, Width::Sixteen) => NumberType::Decimal16((value % 0x10000) as u16),
        (Radix::Hexadecimal, Width::Eight) => NumberType::Hexadecimal8((value % 0x100) as u8),
        (Radix::Hexadecimal, Width::Sixteen) => NumberType::Hexadecimal16(
            (value % 0x10000) as u16,
        ),
    }
}

/// The mode of a number that stands alone: zero page for 8 bits, absolute
/// for 16.
#[verifier::allow_in_spec]
pub fn plain_mode(width: Width) -> AddressingMode
    returns
        (match width {
            Width::Eight => AddressingMode::RELZPG,
            Width::Sixteen => AddressingMode::ABS,
        }),
{
    match width {
        Width::Eight => AddressingMode::RELZPG,
        Width::Sixteen => AddressingMode::ABS,
    }
}

/// The mode of a number that is followed by `,X` or `,Y`.
#[verifier::allow_in_spec]
pub fn indexed_mode(width: Width, register: Register) -> AddressingMode
    returns
        (match (width, register) {
            (Width::Eight, Register::X) => AddressingMode::ZPX,
            (Width::Eight, Register::Y) => AddressingMode::ZPY,
            (Width::Sixteen, Register::X) => AddressingMode::ABX,
            (Width::Sixteen, Register::Y) => AddressingMode::ABY,
        }),
{
    match (width, register) {
        (Width::Eight, Register::X) => AddressingMode::ZPX,
        (Width::Eight, Register::Y) => AddressingMode::ZPY,
        (Width::Sixteen, Register::X) => AddressingMode::ABX,
        (Width::Sixteen, Register::Y) => AddressingMode::ABY,
    }
}

/// The mode of a reference to a label: a displacement for a branch, an
/// absolute address for any other mnemonic.
#[verifier::allow_in_spec]
pub fn label_mode(branch: bool) -> AddressingMode
    returns
        (if branch {
            AddressingMode::RELZPG
        } else {
            AddressingMode::ABS
        }),
{
    if branch {
        AddressingMode::RELZPG
    } else {
        AddressingMode::ABS
    }
}

/// The complaint that an operand has no known shape, at the token where
/// that shows.
pub open spec fn invalid_operand(token: TokenView) -> ErrorView {
    ErrorView { kind: ErrorKind::InvalidOperand(token.kind.text()), position: token.position }
}

/// The complaint that `token` stands where `expected` should.
pub open spec fn unexpected(expected: Seq<char>, token: TokenView) -> ErrorView {
    ErrorView {
        kind: ErrorKind::UnexpectedToken { expected, found: token.kind.text() },
        position: token.position,
    }
}

/// An operand that holds a number.
pub open spec fn numeric(number: NumberType, addressing_mode: AddressingMode) -> OperandView {
    OperandView { value: Some(OperandValue::Number(number)), addressing_mode }
}

/// The operand that a defined operand stands for under a mnemonic: the
/// same, but that a reference to a label takes its mode from the mnemonic.
pub open spec fn substituted(defined: OperandView, branch: bool) -> OperandView {
    match defined.value {
        Some(OperandValue::Label(_)) => OperandView {
            addressing_mode: label_mode(branch),
            ..defined
        },
        _ => defined,
    }
}

impl Lexed {
    /// The token at index `i`. Behind the last token stands the error at
    /// which the lexer stopped; if it did not stop at one, a token is
    /// missing there.
    pub open spec fn token(self, i: int) -> Result<TokenView, ErrorView> {
        if 0 <= i < self.tokens.len() {
            Ok(self.tokens[i])
        } else {
            match self.error {
                Some(error) => Err(error),
                None => Err(
                    ErrorView { kind: ErrorKind::UnexpectedToken2, position: Position(0, 0) },
                ),
            }
        }
    }
}

/// The operand `# Number` whose `#` is the token at `i`, and the index
/// behind it. The number has 8 bits.
pub open spec fn immediate_at(source: Lexed, i: int) -> Result<(OperandView, int), ErrorView> {
    match source.token(i + 1) {
        Err(error) => Err(error),
        Ok(second) => match second.kind {
            TokenValue::Number(radix, text, Width::Eight) => Ok(
                (numeric(number_of(radix, text, Width::Eight), AddressingMode::IMM), i + 2),
            ),
            _ => Err(invalid_operand(second)),
        },
    }
}

/// The operand `Number`, `Number , X` or `Number , Y` whose number is the
/// token at `i`, and the index behind it.
pub open spec fn direct_at(source: Lexed, i: int, number: NumberType, width: Width) -> Result<
    (OperandView, int),
    ErrorView,
> {
    match source.token(i + 1) {
        Err(error) => Err(error),
        Ok(second) => if second.kind == TokenValue::Comma {
            match source.token(i + 2) {
                Err(error) => Err(error),
                Ok(third) => match third.kind {
                    TokenValue::Register(register) => Ok(
                        (numeric(number, indexed_mode(width, register)), i + 3),
                    ),
                    _ => Err(invalid_operand(third)),
                },
            }
        } else {
            Ok((numeric(number, plain_mode(width)), i + 1))
        },
    }
}

/// The operand `( Number )`, `( Number , X )` or `( Number ) , Y` whose
/// `(` is the token at `i`, and the index behind it. The number of the
/// first has 16 bits, that of the others 8.
pub open spec fn indirect_at(source: Lexed, i: int) -> Result<(OperandView, int), ErrorView> {
    match source.token(i + 1) {
        Err(error) => Err(error),
        Ok(second) => match second.kind {
            TokenValue::Number(radix, text, width) => {
                let number = number_of(radix, text, width);
                match source.token(i + 2) {
                    Err(error) => Err(error),
                    Ok(third) => match third.kind {
                        TokenValue::Comma => match source.token(i + 3) {
                            Err(error) => Err(error),
                            Ok(fourth) => match fourth.kind {
                                TokenValue::Register(Register::X) => match source.token(i + 4) {
                                    Err(error) => Err(error),
                                    Ok(fifth) => match fifth.kind {
                                        TokenValue::RParen => if width == Width::Eight {
                                            Ok((numeric(number, AddressingMode::IDX), i + 5))
                                        } else {
                                            Err(invalid_operand(second))
                                        },
                                        _ => Err(invalid_operand(fifth)),
                                    },
                                },
                                _ => Err(invalid_operand(fourth)),
                            },
                        },
                        TokenValue::RParen => match source.token(i + 3) {
                            Err(error) => Err(error),
                            Ok(fourth) => if fourth.kind == TokenValue::Comma {
                                match source.token(i + 4) {
                                    Err(error) => Err(error),
                                    Ok(fifth) => match fifth.kind {
                                        TokenValue::Register(Register::Y) => if width
                                            == Width::Eight {
                                            Ok((numeric(number, AddressingMode::IDY), i + 5))
                                        } else {
                                            Err(invalid_operand(second))
                                        },
                                        _ => Err(invalid_operand(fifth)),
                                    },
                                }
                            } else if width == Width::Sixteen {
                                Ok((numeric(number, AddressingMode::IND), i + 3))
                            } else {
                                Err(invalid_operand(second))
                            },
                        },
                        _ => Err(invalid_operand(third)),
                    },
                }
            },
            _ => Err(invalid_operand(second)),
        },
    }
}

/// The operand that starts with the token at `i`, and the index behind
/// it. `branch` says whether it is the operand of a branch.
pub open spec fn operand_at(
    source: Lexed,
    i: int,
    branch: bool,
    defines: Map<Seq<char>, OperandView>,
) -> Result<(OperandView, int), ErrorView> {
    match source.token(i) {
        Err(error) => Err(error),
        Ok(first) => match first.kind {
            TokenValue::Hash => immediate_at(source, i),
            TokenValue::Number(radix, text, width) => direct_at(
                source,
                i,
                number_of(radix, text, width),
                width,
            ),
            TokenValue::LParen => indirect_at(source, i),
            TokenValue::Identifier(name) => if defines.contains_key(name) {
                Ok((substituted(defines[name], branch), i + 1))
            } else {
                Ok(
                    (
                        OperandView {
                            value: Some(OperandValue::Label(name)),
                            addressing_mode: label_mode(branch),
                        },
                        i + 1,
                    ),
                )
            },
            _ => Err(invalid_operand(first)),
        },
    }
}

/// The index behind the end of the statement that the token at `i` should
/// be: behind a newline, or at the end of the source.
pub open spec fn end_at(source: Lexed, i: int) -> Result<int, ErrorView> {
    match source.token(i) {
        Err(error) => Err(error),
        Ok(token) => match token.kind {
            TokenValue::Newline => Ok(i + 1),
            TokenValue::Eof => Ok(i),
            _ => Err(unexpected("newline"@, token)),
        },
    }
}

/// What a statement leaves behind: the statement, unless it was a
/// `define`; the index behind it; and the operands defined so far.
pub struct Parsed {
    pub statement: Option<StatementView>,
    pub next: int,
    pub defines: Map<Seq<char>, OperandView>,
}

/// The `define` whose first token is at `i`.
pub open spec fn define_at(source: Lexed, i: int, defines: Map<Seq<char>, OperandView>) -> Result<
    Parsed,
    ErrorView,
> {
    match source.token(i + 1) {
        Err(error) => Err(error),
        Ok(second) => match second.kind {
            TokenValue::Identifier(name) => match operand_at(source, i + 2, false, defines) {
                Err(error) => Err(error),
                Ok((operand, end)) => match end_at(source, end) {
                    Err(error) => Err(error),
                    Ok(next) => Ok(
                        Parsed { statement: None, next, defines: defines.insert(name, operand) },
                    ),
                },
            },
            _ => Err(unexpected("identifier"@, second)),
        },
    }
}

/// The instruction with mnemonic `opcode` whose first token, at `i`, has
/// the place `position`.
pub open spec fn instruction_at(
    source: Lexed,
    i: int,
    opcode: Mnemonics,
    position: Position,
    defines: Map<Seq<char>, OperandView>,
) -> Result<Parsed, ErrorView> {
    match source.token(i + 1) {
        Err(error) => Err(error),
        Ok(second) => if second.kind == TokenValue::Newline || second.kind == TokenValue::Eof {
            match end_at(source, i + 1) {
                Err(error) => Err(error),
                Ok(next) => Ok(
                    Parsed {
                        statement: Some(
                            StatementView::Instruction(
                                InstructionView {
                                    opcode,
                                    operand: OperandView {
                                        value: None,
                                        addressing_mode: AddressingMode::IMPACC,
                                    },
                                    position,
                                },
                            ),
                        ),
                        next,
                        defines,
                    },
                ),
            }
        } else {
            match operand_at(source, i + 1, opcode.is_branch(), defines) {
                Err(error) => Err(error),
                Ok((operand, end)) => match end_at(source, end) {
                    Err(error) => Err(error),
                    Ok(next) => Ok(
                        Parsed {
                            statement: Some(
                                StatementView::Instruction(
                                    InstructionView { opcode, operand, position },
                                ),
                            ),
                            next,
                            defines,
                        },
                    ),
                },
            }
        },
    }
}

/// The statement whose first token is at `i`. A word before a `:` is a
/// label; any other word has to be a mnemonic.
pub open spec fn statement_at(
    source: Lexed,
    i: int,
    defines: Map<Seq<char>, OperandView>,
) -> Result<Parsed, ErrorView> {
    match source.token(i) {
        Err(error) => Err(error),
        Ok(first) => match first.kind {
            TokenValue::Directive(_) => define_at(source, i, defines),
            TokenValue::Identifier(name) => match source.token(i + 1) {
                Err(error) => Err(error),
                Ok(second) => if second.kind == TokenValue::Colon {
                    match end_at(source, i + 2) {
                        Err(error) => Err(error),
                        Ok(next) => Ok(
                            Parsed { statement: Some(StatementView::Label(name)), next, defines },
                        ),
                    }
                } else {
                    match Mnemonics::named(name) {
                        None => Err(
                            ErrorView {
                                kind: ErrorKind::InvalidMnemonic(name),
                                position: first.position,
                            },
                        ),
                        Some(opcode) => instruction_at(
                            source,
                            i,
                            opcode,
                            first.position,
                            defines,
                        ),
                    }
                },
            },
            _ => Err(ErrorView { kind: ErrorKind::UnexpectedToken2, position: first.position }),
        },
    }
}

/// `statements` followed by what `rest` holds, or the error of `rest`.
pub open spec fn after(statements: Seq<StatementView>, rest: Result<Seq<StatementView>, ErrorView>)
    -> Result<Seq<StatementView>, ErrorView> {
    match rest {
        Ok(rest) => Ok(statements + rest),
        Err(error) => Err(error),
    }
}

/// A statement ends behind its first token, and within the tokens.
pub proof fn lemma_statement_at(source: Lexed, i: int, defines: Map<Seq<char>, OperandView>)
    ensures
        statement_at(source, i, defines) matches Ok(parsed) ==> i < parsed.next
            <= source.tokens.len(),
{
}

/// The statements from the token at `i` on, to the end of the source.
pub open spec fn program_from(
    source: Lexed,
    i: int,
    defines: Map<Seq<char>, OperandView>,
) -> Result<Seq<StatementView>, ErrorView>
    decreases source.tokens.len() - i,
{
    match source.token(i) {
        Err(error) => Err(error),
        Ok(first) => match first.kind {
            TokenValue::Eof => Ok(seq![]),
            TokenValue::Newline => program_from(source, i + 1, defines),
            _ => match statement_at(source, i, defines) {
                Err(error) => Err(error),
                Ok(parsed) => {
                    proof {
                        lemma_statement_at(source, i, defines);
                    }
                    after(
                        match parsed.statement {
                            Some(statement) => seq![statement],
                            None => seq![],
                        },
                        program_from(source, parsed.next, parsed.defines),
                    )
                },
            },
        },
    }
}

/// The program that the source text `s` holds, or the first error in it.
pub open spec fn parse_source(s: Seq<char>) -> Result<Seq<StatementView>, ErrorView> {
    program_from(crate::assembler::tokenizer::lexer::lex(s), 0, Map::empty())
}

/// The value of the digits `text` in `radix`, cut to 16 bits.
fn text_value(radix: Radix, text: &String) -> (value: u16)
    ensures
        value == number_value(radix, text@) % 0x10000,
{
    let mut value: u32 = 0;
    for c in it: text.as_str().chars()
        invariant
            it.seq() == text@,
            value == number_value(radix, text@.take(it.index() as int)) % 0x10000,
    {
        let ghost before = text@.take(it.index() as int);
        let ghost after = text@.take(it.index() + 1);
        assert(after.drop_last() == before);
        assert(after.last() == c);
        let d = digit(c);
        let ghost whole = number_value(radix, before);
        proof {
            lemma_fundamental_div_mod(whole, 0x10000);
        }
        match radix {
            Radix::Decimal => {
                proof {
                    lemma_mod_multiples_vanish(10 * (whole / 0x10000), value * 10 + d, 0x10000);
                }
                value = (value * 10 + d) % 0x10000;
            },
            Radix::Hexadecimal => {
                proof {
                    lemma_mod_multiples_vanish(16 * (whole / 0x10000), value * 16 + d, 0x10000);
                }
                value = (value * 16 + d) % 0x10000;
            },
        }
    }
    assert(text@.take(text@.len() as int) == text@);
    value as u16
}

/// The number that a number token denotes.
fn number_from(radix: Radix, text: &String, width: Width) -> (number: NumberType)
    ensures
        number == number_of(radix, text@, width),
{
    let value = text_value(radix, text);
    proof {
        lemma_mod_mod(number_value(radix, text@), 0x100, 0x100);
    }
    match (radix, width) {
        (Radix::Decimal, Width::Eight) => NumberType::Decimal8((value % 0x100) as u8),
        (Radix::Decimal, Width::Sixteen) => NumberType::Decimal16(value),
        (Radix::Hexadecimal, Width::Eight) => NumberType::Hexadecimal8((value % 0x100) as u8),
        (Radix::Hexadecimal, Width::Sixteen) => NumberType::Hexadecimal16(value),
    }
}

/// The complaint about an operand, at `token`.
fn make_invalid_operand(token: &Token) -> (error: AssemblerError)
    ensures
        error@ == invalid_operand(token@),
{
    AssemblerError::new(AssemblerErrorKind::InvalidOperand(token.kind.to_string()), token.position)
}

/// The complaint that `token` stands where `expected` should.
fn make_unexpected(expected: &str, token: &Token) -> (error: AssemblerError)
    ensures
        error@ == unexpected(expected@, token@),
{
    AssemblerError::new(
        AssemblerErrorKind::UnexpectedToken {
            expected: String::from_str(expected),
            found: token.kind.to_string(),
        },
        token.position,
    )
}

/// An operand that holds a number.
fn make_numeric(number: NumberType, addressing_mode: AddressingMode) -> (operand: Operand)
    ensures
        operand@ == numeric(number, addressing_mode),
{
    Operand { value: Some(OperandData::Number(number)), addressing_mode }
}

/// A result with its program and its error as what they stand for.
pub open spec fn program_result_view(result: Result<Program, AssemblerError>) -> Result<
    Seq<StatementView>,
    ErrorView,
> {
    match result {
        Ok(program) => Ok(program@),
        Err(error) => Err(error@),
    }
}

/// The parser: the tokens of a source, a place among them, and the
/// operands that `define` statements have named so far.
pub struct Parser {
    tokens: Vec<Token>,
    error: Option<AssemblerError>,
    index: usize,
    defines: Table<Operand>,
}

impl Parser {
    /// The tokens, and the error at which the lexer stopped.
    pub closed spec fn lexed(&self) -> Lexed {
        Lexed { tokens: token_views(self.tokens@), error: error_view(self.error) }
    }

    /// The index of the token at which the parser stands.
    pub closed spec fn index(&self) -> int {
        self.index as int
    }

    /// The operands that were defined so far.
    pub closed spec fn defines(&self) -> Map<Seq<char>, OperandView> {
        self.defines.map()
    }

    /// A parser for what `lexer` has still to yield.
    pub fn new(lexer: Lexer) -> (parser: Parser)
        ensures
            parser.lexed() == lex_from(lexer.source(), lexer.index(), lexer.position()),
            parser.index() == 0,
            parser.defines() == Map::<Seq<char>, OperandView>::empty(),
    {
        let mut lexer = lexer;
        let (tokens, error) = lexer.tokenize();
        Parser { tokens, error, index: 0, defines: Table::new() }
    }

    /// The token `ahead` places behind the one at which the parser stands.
    fn peek(&self, ahead: usize) -> (result: Result<&Token, AssemblerError>)
        ensures
            match self.lexed().token(self.index() + ahead) {
                Ok(token) => result is Ok && result->Ok_0@ == token && self.index() + ahead
                    < self.lexed().tokens.len() <= usize::MAX,
                Err(error) => result is Err && result->Err_0@ == error,
            },
    {
        if self.index < self.tokens.len() && ahead < self.tokens.len() - self.index {
            Ok(&self.tokens[self.index + ahead])
        } else {
            match &self.error {
                Some(error) => Err(error.duplicate()),
                None => Err(
                    AssemblerError::new(AssemblerErrorKind::UnexpectedToken2, Position(0, 0)),
                ),
            }
        }
    }

    /// Parses `# Number`.
    fn parse_immediate(&mut self) -> (result: Result<Operand, AssemblerError>)
        ensures
            final(self).lexed() == old(self).lexed(),
            final(self).defines() == old(self).defines(),
            match immediate_at(old(self).lexed(), old(self).index()) {
                Ok((operand, next)) => result is Ok && result->Ok_0@ == operand && final(self).index() == next,
                Err(error) => result is Err && result->Err_0@ == error,
            },
    {
        let second = self.peek(1)?;
        match &second.kind {
            TokenKind::Number(radix, text, Width::Eight) => {
                let number = number_from(*radix, text, Width::Eight);
                self.index = self.index + 2;
                Ok(make_numeric(number, AddressingMode::IMM))
            },
            _ => Err(make_invalid_operand(second)),
        }
    }

    /// Parses what follows a number: nothing, `,X` or `,Y`.
    fn parse_direct(&mut self, number: NumberType, width: Width) -> (result: Result<
        Operand,
        AssemblerError,
    >)
        ensures
            final(self).lexed() == old(self).lexed(),
            final(self).defines() == old(self).defines(),
            match direct_at(old(self).lexed(), old(self).index(), number, width) {
                Ok((operand, next)) => result is Ok && result->Ok_0@ == operand && final(self).index() == next,
                Err(error) => result is Err && result->Err_0@ == error,
            },
    {
        let second = self.peek(1)?;
        match &second.kind {
            TokenKind::Comma => {
                let third = self.peek(2)?;
                match &third.kind {
                    TokenKind::Register(register) => {
                        let mode = indexed_mode(width, *register);
                        self.index = self.index + 3;
                        Ok(make_numeric(number, mode))
                    },
                    _ => Err(make_invalid_operand(third)),
                }
            },
            _ => {
                self.index = self.index + 1;
                Ok(make_numeric(number, plain_mode(width)))
            },
        }
    }

    /// Parses `( Number )`, `( Number , X )` or `( Number ) , Y`.
    fn parse_indirect(&mut self) -> (result: Result<Operand, AssemblerError>)
        ensures
            final(self).lexed() == old(self).lexed(),
            final(self).defines() == old(self).defines(),
            match indirect_at(old(self).lexed(), old(self).index()) {
                Ok((operand, next)) => result is Ok && result->Ok_0@ == operand && final(self).index() == next,
                Err(error) => result is Err && result->Err_0@ == error,
            },
    {
        let second = self.peek(1)?;
        let (number, eight) = match &second.kind {
            TokenKind::Number(radix, text, width) => (
                number_from(*radix, text, *width),
                match width {
                    Width::Eight => true,
                    Width::Sixteen => false,
                },
            ),
            _ => {
                return Err(make_invalid_operand(second));
            },
        };
        let third = self.peek(2)?;
        match &third.kind {
            TokenKind::Comma => {
                let fourth = self.peek(3)?;
                match &fourth.kind {
                    TokenKind::Register(Register::X) => {},
                    _ => {
                        return Err(make_invalid_operand(fourth));
                    },
                }
                let fifth = self.peek(4)?;
                match &fifth.kind {
                    TokenKind::RParen => {},
                    _ => {
                        return Err(make_invalid_operand(fifth));
                    },
                }
                if !eight {
                    return Err(make_invalid_operand(second));
                }
                self.index = self.index + 5;
                Ok(make_numeric(number, AddressingMode::IDX))
            },
            TokenKind::RParen => {
                let fourth = self.peek(3)?;
                match &fourth.kind {
                    TokenKind::Comma => {
                        let fifth = self.peek(4)?;
                        match &fifth.kind {
                            TokenKind::Register(Register::Y) => {},
                            _ => {
                                return Err(make_invalid_operand(fifth));
                            },
                        }
                        if !eight {
                            return Err(make_invalid_operand(second));
                        }
                        self.index = self.index + 5;
                        Ok(make_numeric(number, AddressingMode::IDY))
                    },
                    _ => {
                        if eight {
                            return Err(make_invalid_operand(second));
                        }
                        self.index = self.index + 3;
                        Ok(make_numeric(number, AddressingMode::IND))
                    },
                }
            },
            _ => Err(make_invalid_operand(third)),
        }
    }

    /// Parses an operand. `branch` says whether it is that of a branch.
    pub fn parse_operand(&mut self, branch: bool) -> (result: Result<Operand, AssemblerError>)
        ensures
            final(self).lexed() == old(self).lexed(),
            final(self).defines() == old(self).defines(),
            match operand_at(old(self).lexed(), old(self).index(), branch, old(self).defines()) {
                Ok((operand, next)) => result is Ok && result->Ok_0@ == operand && final(self).index() == next,
                Err(error) => result is Err && result->Err_0@ == error,
            },
    {
        let first = self.peek(0)?;
        match &first.kind {
            TokenKind::Hash => self.parse_immediate(),
            TokenKind::Number(radix, text, width) => {
                let number = number_from(*radix, text, *width);
                let width = *width;
                self.parse_direct(number, width)
            },
            TokenKind::LParen => self.parse_indirect(),
            TokenKind::Identifier(name) => {
                let operand = match self.defines.get(name) {
                    Some(defined) => {
                        let mut operand = defined.duplicate();
                        match &operand.value {
                            Some(OperandData::Label(_)) => {
                                operand.addressing_mode = label_mode(branch);
                            },
                            _ => {},
                        }
                        operand
                    },
                    None => Operand {
                        value: Some(OperandData::Label(name.clone())),
                        addressing_mode: label_mode(branch),
                    },
                };
                self.index = self.index + 1;
                Ok(operand)
            },
            _ => Err(make_invalid_operand(first)),
        }
    }

    /// Moves behind the end of a statement.
    fn parse_end(&mut self) -> (result: Result<(), AssemblerError>)
        ensures
            final(self).lexed() == old(self).lexed(),
            final(self).defines() == old(self).defines(),
            match end_at(old(self).lexed(), old(self).index()) {
                Ok(next) => result is Ok && final(self).index() == next,
                Err(error) => result is Err && result->Err_0@ == error,
            },
    {
        let token = self.peek(0)?;
        match &token.kind {
            TokenKind::Newline => {
                self.index = self.index + 1;
                Ok(())
            },
            TokenKind::Eof => Ok(()),
            _ => Err(make_unexpected("newline", token)),
        }
    }

    /// Parses one statement. A `define` yields none.
    pub fn parse_statement(&mut self) -> (result: Result<Option<Statement>, AssemblerError>)
        ensures
            final(self).lexed() == old(self).lexed(),
            match statement_at(old(self).lexed(), old(self).index(), old(self).defines()) {
                Ok(parsed) => {
                    &&& result is Ok
                    &&& match result->Ok_0 {
                        Some(statement) => parsed.statement == Some(statement@),
                        None => parsed.statement.is_none(),
                    }
                    &&& final(self).index() == parsed.next
                    &&& final(self).defines() == parsed.defines
                },
                Err(error) => result is Err && result->Err_0@ == error,
            },
    {
        let first = self.peek(0)?;
        let position = first.position;
        match &first.kind {
            TokenKind::Directive(_) => {
                let second = self.peek(1)?;
                let name = match &second.kind {
                    TokenKind::Identifier(name) => name.clone(),
                    _ => {
                        return Err(make_unexpected("identifier", second));
                    },
                };
                self.index = self.index + 2;
                let operand = self.parse_operand(false)?;
                self.parse_end()?;
                self.defines.insert(name, operand);
                Ok(None)
            },
            TokenKind::Identifier(name) => {
                let second = self.peek(1)?;
                match &second.kind {
                    TokenKind::Colon => {
                        let label = name.clone();
                        self.index = self.index + 2;
                        self.parse_end()?;
                        Ok(Some(Statement::Label(label)))
                    },
                    TokenKind::Newline | TokenKind::Eof => {
                        let opcode = match Mnemonics::from_name(name.as_str()) {
                            Some(opcode) => opcode,
                            None => {
                                return Err(
                                    AssemblerError::new(
                                        AssemblerErrorKind::InvalidMnemonic(name.clone()),
                                        position,
                                    ),
                                );
                            },
                        };
                        self.index = self.index + 1;
                        self.parse_end()?;
                        Ok(
                            Some(
                                Statement::Instruction(
                                    Instruction {
                                        opcode,
                                        operand: Operand {
                                            value: None,
                                            addressing_mode: AddressingMode::IMPACC,
                                        },
                                        position,
                                    },
                                ),
                            ),
                        )
                    },
                    _ => {
                        let opcode = match Mnemonics::from_name(name.as_str()) {
                            Some(opcode) => opcode,
                            None => {
                                return Err(
                                    AssemblerError::new(
                                        AssemblerErrorKind::InvalidMnemonic(name.clone()),
                                        position,
                                    ),
                                );
                            },
                        };
                        self.index = self.index + 1;
                        let operand = self.parse_operand(opcode.is_branch())?;
                        self.parse_end()?;
                        Ok(Some(Statement::Instruction(Instruction { opcode, operand, position })))
                    },
                }
            },
            _ => Err(AssemblerError::new(AssemblerErrorKind::UnexpectedToken2, position)),
        }
    }

    /// Parses the statements from where the parser stands to the end of
    /// the source. The first error ends the parse.
    pub fn parse(&mut self) -> (result: Result<Program, AssemblerError>)
        ensures
            final(self).lexed() == old(self).lexed(),
            program_result_view(result) == program_from(
                old(self).lexed(),
                old(self).index(),
                old(self).defines(),
            ),
    {
        let ghost source = self.lexed();
        let ghost all = program_from(source, self.index(), self.defines());
        let mut statements: Vec<Statement> = Vec::new();
        loop
            invariant
                source == old(self).lexed(),
                all == program_from(old(self).lexed(), old(self).index(), old(self).defines()),
                self.lexed() == source,
                all == after(
                    statements@.map_values(|statement: Statement| statement@),
                    program_from(source, self.index(), self.defines()),
                ),
            decreases source.tokens.len() - self.index(),
        {
            let ghost done = statements@.map_values(|statement: Statement| statement@);
            let first = self.peek(0)?;
            match &first.kind {
                TokenKind::Eof => {
                    assert(done + Seq::<StatementView>::empty() == done);
                    return Ok(Program(statements));
                },
                TokenKind::Newline => {
                    self.index = self.index + 1;
                },
                _ => {
                    proof {
                        lemma_statement_at(source, self.index(), self.defines());
                    }
                    let ghost rest = statement_at(source, self.index(), self.defines());
                    match self.parse_statement()? {
                        Some(statement) => {
                            statements.push(statement);
                            assert(statements@.map_values(|statement: Statement| statement@)
                                == done + seq![statement@]);
                            assert(done + (seq![statement@] + program_from(
                                source,
                                self.index(),
                                self.defines(),
                            )->Ok_0) == (done + seq![statement@]) + program_from(
                                source,
                                self.index(),
                                self.defines(),
                            )->Ok_0);
                        },
                        None => {
                            assert(Seq::<StatementView>::empty() + program_from(
                                source,
                                self.index(),
                                self.defines(),
                            )->Ok_0 == program_from(source, self.index(), self.defines())->Ok_0);
                        },
                    }
                },
            }
        }
    }
}

} // verus!
