//! A listing is a source text: assembling the text of a listing gives back
//! the machine code that was listed.

use vstd::prelude::*;
use crate::assembler::ast::{
    InstructionView, NumberType, OperandValue, OperandView, Position, StatementView,
};
use crate::assembler::error::ErrorView;
use crate::assembler::instruction::lemma_named;
use crate::assembler::parser::{parse_source, program_from, statement_at, Parsed};
use crate::assembler::assembly::{assemble_source, emitted, label_table};
use crate::assembler::disassembly::{
    instruction_text, line_at, listed_at, listing, listing_from, operand_digits, operand_prefix,
    operand_suffix, operand_value, Line,
};
use crate::assembler::laws::{
    decoded, decoded_from, lemma_listing_reassembles, lemma_round_trip, listed_end,
};
use crate::assembler::instruction::{AddressingMode, Mnemonics};
use crate::assembler::tokenizer::lexer::{
    digit_value, hexadecimal_value, is_blank, is_hex_digit, is_hexadecimal, is_word_char,
    is_word_start, lex, lex_from, next_lexeme, skip_end, word_end, word_token, Lexed, Lexeme,
};
use crate::assembler::tokenizer::{Radix, Register, TokenValue, TokenView, Width};
use crate::text::{hex2, hex4, hex_char};

verus! {

/// A hexadecimal digit of the listing is a digit to the lexer, and has the
/// value that it was written for.
pub proof fn lemma_hex_char(d: int)
    requires
        0 <= d < 16,
    ensures
        is_hex_digit(hex_char(d)),
        is_word_char(hex_char(d)),
        digit_value(hex_char(d)) == d,
{
}

/// Two digits of the listing denote the byte that they were written for.
pub proof fn lemma_hex2(v: u8)
    ensures
        hex2(v).len() == 2,
        is_hexadecimal(hex2(v)),
        hexadecimal_value(hex2(v)) == v,
        forall|k: int| 0 <= k < 2 ==> is_word_char(#[trigger] hex2(v)[k]),
{
    let text = hex2(v);
    lemma_hex_char(v as int / 16);
    lemma_hex_char(v as int % 16);
    assert(text.drop_last() == seq![hex_char(v as int / 16)]);
    assert(text.drop_last().drop_last() == Seq::<char>::empty());
    reveal_with_fuel(hexadecimal_value, 3);
}

/// Four digits of the listing denote the word that they were written for.
pub proof fn lemma_hex4(v: u16)
    ensures
        hex4(v).len() == 4,
        is_hexadecimal(hex4(v)),
        hexadecimal_value(hex4(v)) == v,
        forall|k: int| 0 <= k < 4 ==> is_word_char(#[trigger] hex4(v)[k]),
{
    let high = (v as int / 256) as u8;
    let low = (v as int % 256) as u8;
    let text = hex4(v);
    lemma_hex2(high);
    lemma_hex2(low);
    lemma_hex_char(low as int / 16);
    lemma_hex_char(low as int % 16);
    assert(text.len() == 4);
    assert(text[0] == hex2(high)[0]);
    assert(text[1] == hex2(high)[1]);
    assert(text[2] == hex2(low)[0]);
    assert(text[3] == hex2(low)[1]);
    let three = text.drop_last();
    let two = three.drop_last();
    assert(two == hex2(high));
    assert(three.last() == hex_char(low as int / 16));
    assert(text.last() == hex_char(low as int % 16));
    reveal_with_fuel(hexadecimal_value, 3);
    assert(hexadecimal_value(three) == high * 16 + low as int / 16);
    assert(hexadecimal_value(text) == hexadecimal_value(three) * 16 + low as int % 16);
}

/// A run of `n` word characters that a character of another kind follows,
/// or the end of the text, ends there.
pub proof fn lemma_word_run(s: Seq<char>, i: int, n: int)
    requires
        0 <= i,
        0 <= n,
        i + n <= s.len(),
        forall|k: int| i <= k < i + n ==> is_word_char(#[trigger] s[k]),
        i + n == s.len() || !is_word_char(s[i + n]),
    ensures
        word_end(s, i) == i + n,
    decreases n,
{
    if n > 0 {
        lemma_word_run(s, i + 1, n - 1);
    }
}

/// Moving right twice is moving right once by the sum.
pub proof fn lemma_right_right(position: Position, a: int, b: int)
    requires
        0 <= a,
        0 <= b,
    ensures
        position.right(a).right(b) == position.right(a + b),
{
}

/// A blank before a token changes nothing but the place of the token.
pub proof fn lemma_lex_blank(s: Seq<char>, i: int, position: Position)
    requires
        0 <= i < s.len(),
        is_blank(s[i]),
    ensures
        next_lexeme(s, i, position) == next_lexeme(s, i + 1, position.right(1)),
{
    crate::assembler::tokenizer::lexer::lemma_skip_end(s, i + 1, false);
    let start = skip_end(s, i, false);
    assert(start == skip_end(s, i + 1, false));
    lemma_right_right(position, 1, start - (i + 1));
}

/// At a word of `n` characters the lexer yields the token that the word
/// is, and moves behind it.
pub proof fn lemma_lex_word(s: Seq<char>, i: int, position: Position, n: int)
    requires
        0 <= i,
        1 <= n,
        i + n <= s.len(),
        is_word_start(s[i]),
        forall|k: int| i <= k < i + n ==> is_word_char(#[trigger] s[k]),
        i + n == s.len() || !is_word_char(s[i + n]),
    ensures
        next_lexeme(s, i, position) == (Lexeme {
            token: Ok(TokenView { kind: word_token(s.subrange(i, i + n)), position }),
            index: i + n,
            position: position.right(n),
        }),
{
    lemma_word_run(s, i, n);
    reveal_strlit("define");
    let word = s.subrange(i, i + n);
    if word == "define"@ {
        assert(word[0] == 'd');
    }
}

/// At a `$` with `n` hexadecimal digits behind it, two or four, the lexer
/// yields the number that they are, of 8 bits for two digits and of 16
/// bits for four.
pub proof fn lemma_lex_number(s: Seq<char>, i: int, position: Position, n: int)
    requires
        0 <= i,
        n == 2 || n == 4,
        i + 1 + n <= s.len(),
        s[i] == '$',
        forall|k: int| i + 1 <= k < i + 1 + n ==> is_hex_digit(#[trigger] s[k]),
        i + 1 + n == s.len() || !is_word_char(s[i + 1 + n]),
    ensures
        next_lexeme(s, i, position) == (Lexeme {
            token: Ok(
                TokenView {
                    kind: TokenValue::Number(
                        Radix::Hexadecimal,
                        s.subrange(i + 1, i + 1 + n),
                        if n == 2 {
                            Width::Eight
                        } else {
                            Width::Sixteen
                        },
                    ),
                    position,
                },
            ),
            index: i + 1 + n,
            position: position.right(1 + n),
        }),
{
    lemma_word_run(s, i + 1, n);
}

/// At one of the characters `#`, `,`, `(` and `)` the lexer yields the
/// token that the character is.
pub proof fn lemma_lex_punctuation(s: Seq<char>, i: int, position: Position)
    requires
        0 <= i < s.len(),
        s[i] == '#' || s[i] == ',' || s[i] == '(' || s[i] == ')',
    ensures
        next_lexeme(s, i, position) == (Lexeme {
            token: Ok(
                TokenView {
                    kind: crate::assembler::tokenizer::lexer::punctuation(s[i])->Some_0,
                    position,
                },
            ),
            index: i + 1,
            position: position.right(1),
        }),
{
}

/// At the end of a line the lexer yields `Newline` and moves to the start
/// of the next line.
pub proof fn lemma_lex_newline(s: Seq<char>, i: int, position: Position)
    requires
        0 <= i < s.len(),
        s[i] == '\n',
    ensures
        next_lexeme(s, i, position) == (Lexeme {
            token: Ok(TokenView { kind: TokenValue::Newline, position }),
            index: i + 1,
            position: position.down(),
        }),
{
}

/// Whether the tokens of `all` from index `j` on are what a lexer yields
/// that stands at index `i` of `s`, at `position`.
pub open spec fn lexer_at(all: Lexed, j: int, s: Seq<char>, i: int, position: Position) -> bool {
    &&& 0 <= j <= all.tokens.len()
    &&& 0 <= i <= s.len()
    &&& all.tokens.subrange(j, all.tokens.len() as int) == lex_from(s, i, position).tokens
    &&& all.error == lex_from(s, i, position).error
}

/// One step of the lexer is one token of the whole.
pub proof fn lemma_lexer_step(all: Lexed, j: int, s: Seq<char>, i: int, position: Position)
    requires
        lexer_at(all, j, s, i, position),
        next_lexeme(s, i, position).token is Ok,
        next_lexeme(s, i, position).token->Ok_0.kind != TokenValue::Eof,
    ensures
        j < all.tokens.len(),
        all.tokens[j] == next_lexeme(s, i, position).token->Ok_0,
        lexer_at(
            all,
            j + 1,
            s,
            next_lexeme(s, i, position).index,
            next_lexeme(s, i, position).position,
        ),
{
    let step = next_lexeme(s, i, position);
    crate::assembler::tokenizer::lexer::lemma_next_lexeme(s, i, position);
    let here = lex_from(s, i, position).tokens;
    let rest = lex_from(s, step.index, step.position).tokens;
    assert(here == seq![step.token->Ok_0] + rest);
    let tail = all.tokens.subrange(j, all.tokens.len() as int);
    assert(tail.len() == here.len());
    assert(all.tokens[j] == tail[0]);
    assert(all.tokens.subrange(j + 1, all.tokens.len() as int) =~= rest) by {
        assert forall|k: int| 0 <= k < rest.len() implies all.tokens.subrange(
            j + 1,
            all.tokens.len() as int,
        )[k] == rest[k] by {
            assert(tail[k + 1] == here[k + 1]);
        }
    }
}

/// At the end of the text the lexer yields `Eof`, the last token.
pub proof fn lemma_lexer_end(all: Lexed, j: int, s: Seq<char>, position: Position)
    requires
        lexer_at(all, j, s, s.len() as int, position),
    ensures
        j + 1 == all.tokens.len(),
        all.tokens[j].kind == TokenValue::Eof,
        all.error.is_none(),
{
    let here = lex_from(s, s.len() as int, position).tokens;
    assert(here.len() == 1);
    let tail = all.tokens.subrange(j, all.tokens.len() as int);
    assert(tail.len() == 1);
    assert(all.tokens[j] == tail[0]);
}

/// The characters before the digits of an operand.
pub open spec fn prefix_chars(mode: AddressingMode) -> Seq<char> {
    match mode {
        AddressingMode::IMPACC => seq![],
        AddressingMode::IMM => seq![' ', '#', '$'],
        AddressingMode::IND | AddressingMode::IDX | AddressingMode::IDY => seq![' ', '(', '$'],
        _ => seq![' ', '$'],
    }
}

/// The characters behind the digits of an operand.
pub open spec fn suffix_chars(mode: AddressingMode) -> Seq<char> {
    match mode {
        AddressingMode::ZPX | AddressingMode::ABX => seq![',', 'X'],
        AddressingMode::ZPY | AddressingMode::ABY => seq![',', 'Y'],
        AddressingMode::IND => seq![')'],
        AddressingMode::IDX => seq![',', 'X', ')'],
        AddressingMode::IDY => seq![')', ',', 'Y'],
        _ => seq![],
    }
}

/// What the listing writes around the digits of an operand, character by
/// character.
pub proof fn lemma_affixes(mode: AddressingMode)
    ensures
        operand_prefix(mode)@ == prefix_chars(mode),
        operand_suffix(mode)@ == suffix_chars(mode),
{
    reveal_strlit("");
    reveal_strlit(" #$");
    reveal_strlit(" ($");
    reveal_strlit(" $");
    reveal_strlit(",X");
    reveal_strlit(",Y");
    reveal_strlit(")");
    reveal_strlit(",X)");
    reveal_strlit("),Y");
    assert(operand_prefix(mode)@ =~= prefix_chars(mode));
    assert(operand_suffix(mode)@ =~= suffix_chars(mode));
}

/// The tokens of the text before the digits of an operand, and of the
/// digits.
pub open spec fn head_tokens(mode: AddressingMode, digits: Seq<char>) -> Seq<TokenValue> {
    match mode {
        AddressingMode::IMPACC => seq![],
        AddressingMode::IMM => seq![
            TokenValue::Hash,
            TokenValue::Number(Radix::Hexadecimal, digits, Width::Eight),
        ],
        AddressingMode::IND => seq![
            TokenValue::LParen,
            TokenValue::Number(Radix::Hexadecimal, digits, Width::Sixteen),
        ],
        AddressingMode::IDX | AddressingMode::IDY => seq![
            TokenValue::LParen,
            TokenValue::Number(Radix::Hexadecimal, digits, Width::Eight),
        ],
        AddressingMode::RELZPG | AddressingMode::ZPX | AddressingMode::ZPY => seq![
            TokenValue::Number(Radix::Hexadecimal, digits, Width::Eight),
        ],
        _ => seq![TokenValue::Number(Radix::Hexadecimal, digits, Width::Sixteen)],
    }
}

/// The tokens of the text behind the digits of an operand, and of the end
/// of the line.
pub open spec fn tail_tokens(mode: AddressingMode) -> Seq<TokenValue> {
    match mode {
        AddressingMode::ZPX | AddressingMode::ABX => seq![
            TokenValue::Comma,
            TokenValue::Register(Register::X),
            TokenValue::Newline,
        ],
        AddressingMode::ZPY | AddressingMode::ABY => seq![
            TokenValue::Comma,
            TokenValue::Register(Register::Y),
            TokenValue::Newline,
        ],
        AddressingMode::IND => seq![TokenValue::RParen, TokenValue::Newline],
        AddressingMode::IDX => seq![
            TokenValue::Comma,
            TokenValue::Register(Register::X),
            TokenValue::RParen,
            TokenValue::Newline,
        ],
        AddressingMode::IDY => seq![
            TokenValue::RParen,
            TokenValue::Comma,
            TokenValue::Register(Register::Y),
            TokenValue::Newline,
        ],
        _ => seq![TokenValue::Newline],
    }
}

/// Whether the tokens of `all` from index `j` on start with the kinds
/// `kinds`.
pub open spec fn tokens_are(all: Lexed, j: int, kinds: Seq<TokenValue>) -> bool {
    &&& 0 <= j
    &&& j + kinds.len() <= all.tokens.len()
    &&& forall|k: int| 0 <= k < kinds.len() ==> (#[trigger] all.tokens[j + k]).kind == kinds[k]
}

/// The lexer reads the text before the digits of an operand, and the
/// digits, as the tokens `head_tokens`. Behind them it stands at the place
/// that is returned.
pub proof fn lemma_lex_head(
    all: Lexed,
    j: int,
    s: Seq<char>,
    i: int,
    position: Position,
    mode: AddressingMode,
) -> (after: Position)
    requires
        mode != AddressingMode::IMPACC,
        lexer_at(all, j, s, i, position),
        i + prefix_chars(mode).len() + 2 * mode.operand_width() <= s.len(),
        s.subrange(i, i + prefix_chars(mode).len()) == prefix_chars(mode),
        forall|k: int|
            i + prefix_chars(mode).len() <= k < i + prefix_chars(mode).len() + 2
                * mode.operand_width() ==> is_hex_digit(#[trigger] s[k]),
        i + prefix_chars(mode).len() + 2 * mode.operand_width() == s.len() || !is_word_char(
            s[i + prefix_chars(mode).len() + 2 * mode.operand_width()],
        ),
    ensures
        tokens_are(
            all,
            j,
            head_tokens(
                mode,
                s.subrange(
                    i + prefix_chars(mode).len(),
                    i + prefix_chars(mode).len() + 2 * mode.operand_width(),
                ),
            ),
        ),
        lexer_at(
            all,
            j + head_tokens(mode, seq![]).len(),
            s,
            i + prefix_chars(mode).len() + 2 * mode.operand_width(),
            after,
        ),
{
    let prefix = prefix_chars(mode);
    let n = 2 * mode.operand_width() as int;
    let front = s.subrange(i, i + prefix.len());
    assert(s[i] == front[0]);
    assert(s[i + 1] == front[1]);
    let spaced = position.right(1);
    lemma_lex_blank(s, i, position);
    if prefix.len() == 2 {
        lemma_lex_number(s, i + 1, spaced, n);
        lemma_lexer_step(all, j, s, i, position);
        spaced.right(1 + n)
    } else {
        assert(s[i + 2] == front[2]);
        lemma_lex_punctuation(s, i + 1, spaced);
        lemma_lexer_step(all, j, s, i, position);
        lemma_lex_number(s, i + 2, spaced.right(1), n);
        lemma_lexer_step(all, j + 1, s, i + 2, spaced.right(1));
        spaced.right(1).right(1 + n)
    }
}

/// The lexer reads the text behind the digits of an operand, and the end
/// of the line, as the tokens `tail_tokens`. Behind them it stands at the
/// start of the next line, at the place that is returned.
pub proof fn lemma_lex_tail(
    all: Lexed,
    j: int,
    s: Seq<char>,
    i: int,
    position: Position,
    mode: AddressingMode,
) -> (after: Position)
    requires
        lexer_at(all, j, s, i, position),
        i + suffix_chars(mode).len() < s.len(),
        s.subrange(i, i + suffix_chars(mode).len()) == suffix_chars(mode),
        s[i + suffix_chars(mode).len()] == '\n',
    ensures
        tokens_are(all, j, tail_tokens(mode)),
        lexer_at(all, j + tail_tokens(mode).len(), s, i + suffix_chars(mode).len() + 1, after),
{
    let suffix = suffix_chars(mode);
    let back = s.subrange(i, i + suffix.len());
    let mut at = i;
    let mut token = j;
    let mut place = position;
    if suffix.len() >= 1 {
        assert(s[i] == back[0]);
    }
    if suffix.len() >= 2 {
        assert(s[i + 1] == back[1]);
    }
    if suffix.len() >= 3 {
        assert(s[i + 2] == back[2]);
    }
    reveal_strlit("define");
    if mode == AddressingMode::IND || mode == AddressingMode::IDY {
        lemma_lex_punctuation(s, at, place);
        lemma_lexer_step(all, token, s, at, place);
        at = at + 1;
        token = token + 1;
        place = place.right(1);
    }
    if suffix.len() >= 2 {
        lemma_lex_punctuation(s, at, place);
        lemma_lexer_step(all, token, s, at, place);
        at = at + 1;
        token = token + 1;
        place = place.right(1);
        lemma_lex_word(s, at, place, 1);
        lemma_lexer_step(all, token, s, at, place);
        assert(s.subrange(at, at + 1) == seq![s[at]]);
        at = at + 1;
        token = token + 1;
        place = place.right(1);
    }
    if mode == AddressingMode::IDX {
        lemma_lex_punctuation(s, at, place);
        lemma_lexer_step(all, token, s, at, place);
        at = at + 1;
        token = token + 1;
        place = place.right(1);
    }
    lemma_lex_newline(s, at, place);
    lemma_lexer_step(all, token, s, at, place);
    place.down()
}

/// The operand that the listing shows for the number `value` in the form
/// `mode`: none without operand bytes, else the number in hexadecimal, of
/// 8 bits for one byte and of 16 bits for two.
pub open spec fn listed_operand(mode: AddressingMode, value: u16) -> OperandView {
    OperandView {
        value: if mode.operand_width() == 0 {
            None
        } else if mode.operand_width() == 1 {
            Some(OperandValue::Number(NumberType::Hexadecimal8((value as int % 0x100) as u8)))
        } else {
            Some(OperandValue::Number(NumberType::Hexadecimal16(value)))
        },
        addressing_mode: mode,
    }
}

/// A mnemonic is written in three capital letters.
pub proof fn lemma_letters(mnemonic: Mnemonics)
    ensures
        mnemonic.name().len() == 3,
        forall|k: int|
            0 <= k < 3 ==> 'A' <= #[trigger] mnemonic.name()[k] && mnemonic.name()[k] <= 'Z',
{
}

/// The digits of an operand in the listing are hexadecimal digits, two
/// for each operand byte, and denote the operand.
pub proof fn lemma_operand_digits(mode: AddressingMode, value: u16)
    ensures
        operand_digits(mode, value).len() == 2 * mode.operand_width(),
        is_hexadecimal(operand_digits(mode, value)),
        mode.operand_width() == 1 ==> hexadecimal_value(operand_digits(mode, value)) == value as int
            % 0x100,
        mode.operand_width() == 2 ==> hexadecimal_value(operand_digits(mode, value)) == value,
{
    if mode.operand_width() == 1 {
        lemma_hex2((value as int % 0x100) as u8);
    } else if mode.operand_width() == 2 {
        lemma_hex4(value);
    }
}

/// A line of a listing is read as the instruction that it shows: where a
/// lexer stands at the start of the text of an instruction that a line
/// feed follows, the tokens up to the line feed parse as that instruction,
/// at that place, and behind them the lexer stands at the start of the
/// next line.
pub proof fn lemma_line(
    all: Lexed,
    j: int,
    s: Seq<char>,
    i: int,
    position: Position,
    mnemonic: Mnemonics,
    mode: AddressingMode,
    value: u16,
    defines: Map<Seq<char>, OperandView>,
) -> (after: (int, Position))
    requires
        lexer_at(all, j, s, i, position),
        i + instruction_text(mnemonic, mode, value).len() < s.len(),
        s.subrange(i, i + instruction_text(mnemonic, mode, value).len()) == instruction_text(
            mnemonic,
            mode,
            value,
        ),
        s[i + instruction_text(mnemonic, mode, value).len()] == '\n',
    ensures
        j < after.0,
        lexer_at(all, after.0, s, i + instruction_text(mnemonic, mode, value).len() + 1, after.1),
        all.tokens[j].kind == TokenValue::Identifier(mnemonic.name()),
        statement_at(all, j, defines) == Ok::<Parsed, ErrorView>(
            Parsed {
                statement: Some(
                    StatementView::Instruction(
                        InstructionView {
                            opcode: mnemonic,
                            operand: listed_operand(mode, value),
                            position,
                        },
                    ),
                ),
                next: after.0,
                defines,
            },
        ),
{
    let name = mnemonic.name();
    let prefix = prefix_chars(mode);
    let digits = operand_digits(mode, value);
    let suffix = suffix_chars(mode);
    let text = instruction_text(mnemonic, mode, value);
    lemma_affixes(mode);
    lemma_letters(mnemonic);
    lemma_operand_digits(mode, value);
    lemma_named(mnemonic);
    assert(text == name + prefix + digits + suffix);
    let line = s.subrange(i, i + text.len());
    let a = 3int;
    let b = a + prefix.len();
    let c = b + digits.len();
    assert(text.len() == c + suffix.len());
    assert forall|k: int| 0 <= k < text.len() implies s[i + k] == #[trigger] text[k] by {
        assert(line[k] == s[i + k]);
    }
    assert(s.subrange(i, i + 3) =~= name) by {
        assert forall|k: int| 0 <= k < 3 implies s.subrange(i, i + 3)[k] == name[k] by {
            assert(text[k] == name[k]);
        }
    }
    assert(s.subrange(i + a, i + b) =~= prefix) by {
        assert forall|k: int| 0 <= k < prefix.len() implies s.subrange(i + a, i + b)[k]
            == prefix[k] by {
            assert(text[a + k] == prefix[k]);
        }
    }
    assert(s.subrange(i + b, i + c) =~= digits) by {
        assert forall|k: int| 0 <= k < digits.len() implies s.subrange(i + b, i + c)[k]
            == digits[k] by {
            assert(text[b + k] == digits[k]);
        }
    }
    assert(s.subrange(i + c, i + c + suffix.len()) =~= suffix) by {
        assert forall|k: int| 0 <= k < suffix.len() implies s.subrange(
            i + c,
            i + c + suffix.len(),
        )[k] == suffix[k] by {
            assert(text[c + k] == suffix[k]);
        }
    }
    assert forall|k: int| i <= k < i + 3 implies is_word_char(#[trigger] s[k]) by {
        assert(s[k] == text[k - i]);
        assert(text[k - i] == name[k - i]);
    }
    assert(is_word_start(s[i])) by {
        assert(s[i] == text[0]);
        assert(text[0] == name[0]);
    }
    assert(!is_word_char(s[i + 3])) by {
        if prefix.len() > 0 {
            assert(s[i + 3] == text[3]);
            assert(text[3] == prefix[0]);
        }
    }
    lemma_lex_word(s, i, position, 3);
    lemma_lexer_step(all, j, s, i, position);
    reveal_strlit("define");
    assert(word_token(name) == TokenValue::Identifier(name));
    let behind = position.right(3);
    if mode == AddressingMode::IMPACC {
        let after = lemma_lex_tail(all, j + 1, s, i + 3, behind, mode);
        assert(all.tokens[j + 1 + 0].kind == tail_tokens(mode)[0]);
        (j + 2, after)
    } else {
        assert forall|k: int| i + b <= k < i + c implies is_hex_digit(#[trigger] s[k]) by {
            assert(s[k] == text[k - i]);
            assert(text[k - i] == digits[k - i - b]);
        }
        assert(!is_word_char(s[i + c])) by {
            if suffix.len() > 0 {
                assert(s[i + c] == text[c]);
                assert(text[c] == suffix[0]);
            }
        }
        let middle = lemma_lex_head(all, j + 1, s, i + 3, behind, mode);
        let head = head_tokens(mode, digits);
        let after = lemma_lex_tail(all, j + 1 + head.len(), s, i + c, middle, mode);
        let tail = tail_tokens(mode);
        assert(forall|k: int| 0 <= k < head.len() ==> (#[trigger] all.tokens[j + 1 + k]).kind
            == head[k]);
        assert(forall|k: int|
            0 <= k < tail.len() ==> (#[trigger] all.tokens[j + 1 + head.len() + k]).kind
                == tail[k]);
        lemma_line_parses(all, j, mnemonic, mode, value, position, defines);
        (j + 1 + head.len() + tail.len(), after)
    }
}

/// The tokens of a line of a listing parse as the instruction that the
/// line shows.
pub proof fn lemma_line_parses(
    all: Lexed,
    j: int,
    mnemonic: Mnemonics,
    mode: AddressingMode,
    value: u16,
    position: Position,
    defines: Map<Seq<char>, OperandView>,
)
    requires
        mode != AddressingMode::IMPACC,
        0 <= j < all.tokens.len(),
        all.tokens[j] == (TokenView {
            kind: TokenValue::Identifier(mnemonic.name()),
            position,
        }),
        tokens_are(all, j + 1, head_tokens(mode, operand_digits(mode, value))),
        tokens_are(
            all,
            j + 1 + head_tokens(mode, operand_digits(mode, value)).len(),
            tail_tokens(mode),
        ),
    ensures
        statement_at(all, j, defines) == Ok::<Parsed, ErrorView>(
            Parsed {
                statement: Some(
                    StatementView::Instruction(
                        InstructionView {
                            opcode: mnemonic,
                            operand: listed_operand(mode, value),
                            position,
                        },
                    ),
                ),
                next: j + 1 + head_tokens(mode, operand_digits(mode, value)).len() + tail_tokens(
                    mode,
                ).len(),
                defines,
            },
        ),
{
    let digits = operand_digits(mode, value);
    let head = head_tokens(mode, digits);
    let tail = tail_tokens(mode);
    lemma_operand_digits(mode, value);
    lemma_named(mnemonic);
    assert(all.tokens[j + 1 + 0].kind == head[0]);
    if head.len() > 1 {
        assert(all.tokens[j + 1 + 1].kind == head[1]);
    }
    let t = j + 1 + head.len();
    assert(all.tokens[t + 0].kind == tail[0]);
    if tail.len() > 1 {
        assert(all.tokens[t + 1].kind == tail[1]);
    }
    if tail.len() > 2 {
        assert(all.tokens[t + 2].kind == tail[2]);
    }
    if tail.len() > 3 {
        assert(all.tokens[t + 3].kind == tail[3]);
    }
}

/// The text of a listing: the text of each line, with a line feed behind
/// it.
pub open spec fn listing_text(lines: Seq<Line>) -> Seq<char>
    decreases lines.len(),
{
    if lines.len() == 0 {
        seq![]
    } else {
        lines[0].text + seq!['\n'] + listing_text(lines.drop_first())
    }
}

/// Whether two programs are the same but for the places of their
/// instructions in a source.
pub open spec fn same_code(left: Seq<StatementView>, right: Seq<StatementView>) -> bool {
    &&& left.len() == right.len()
    &&& forall|k: int|
        0 <= k < left.len() ==> match (#[trigger] left[k], right[k]) {
            (StatementView::Instruction(a), StatementView::Instruction(b)) => a.opcode == b.opcode
                && a.operand == b.operand,
            (StatementView::Label(a), StatementView::Label(b)) => a == b,
            _ => false,
        }
}

/// Programs that are the same but for the places of their instructions
/// assemble to the same bytes.
pub proof fn lemma_same_code(
    left: Seq<StatementView>,
    right: Seq<StatementView>,
    labels: Map<Seq<char>, u16>,
    k: int,
)
    requires
        same_code(left, right),
        0 <= k <= left.len(),
        emitted(right, labels, k) is Ok,
    ensures
        emitted(left, labels, k) == emitted(right, labels, k),
    decreases k,
{
    if k > 0 {
        assert(emitted(right, labels, k - 1) is Ok);
        lemma_same_code(left, right, labels, k - 1);
        let a = left[k - 1];
    }
}

/// Where a text holds, from index `i` on, a line, a line feed and more,
/// the line stands at `i`, the line feed behind it, and the rest behind
/// that.
pub proof fn lemma_split(s: Seq<char>, i: int, line: Seq<char>, more: Seq<char>)
    requires
        0 <= i <= s.len(),
        s.subrange(i, s.len() as int) == line + seq!['\n'] + more,
    ensures
        i + line.len() < s.len(),
        s.subrange(i, i + line.len()) == line,
        s[i + line.len()] == '\n',
        s.subrange(i + line.len() + 1, s.len() as int) == more,
{
    let rest_of_text = s.subrange(i, s.len() as int);
    assert(rest_of_text.len() == line.len() + 1 + more.len());
    assert(s.subrange(i, i + line.len()) =~= line) by {
        assert forall|k: int| 0 <= k < line.len() implies s.subrange(i, i + line.len())[k]
            == line[k] by {
            assert(rest_of_text[k] == line[k]);
        }
    }
    assert(s[i + line.len()] == '\n') by {
        assert(rest_of_text[line.len() as int] == '\n');
    }
    let behind = i + line.len() + 1;
    assert(s.subrange(behind, s.len() as int) =~= more) by {
        assert forall|k: int| 0 <= k < more.len() implies s.subrange(behind, s.len() as int)[k]
            == more[k] by {
            assert(rest_of_text[line.len() + 1 + k] == more[k]);
        }
    }
}

/// The listing from an instruction on is the line of that instruction,
/// followed by the listing from the next instruction on, if the
/// instruction is no `BRK`.
pub open spec fn lines_behind(bytes: Seq<u8>, offset: int) -> Seq<Line> {
    let (mnemonic, mode) = listed_at(bytes, offset)->Some_0;
    if mnemonic == Mnemonics::BRK {
        seq![]
    } else {
        listing_from(bytes, offset + 1 + mode.operand_width())->Ok_0
    }
}

/// Where the text of a listing stands in a text from index `i` on, the
/// text of its first line stands at `i`, a line feed behind it, and the
/// text of the other lines behind that.
pub proof fn lemma_first_line(bytes: Seq<u8>, offset: int, s: Seq<char>, i: int)
    requires
        0 <= offset < bytes.len(),
        0 <= i <= s.len(),
        listing_from(bytes, offset) is Ok,
        s.subrange(i, s.len() as int) == listing_text(listing_from(bytes, offset)->Ok_0),
    ensures
        ({
            let (mnemonic, mode) = listed_at(bytes, offset)->Some_0;
            let text = instruction_text(mnemonic, mode, operand_value(bytes, offset, mode));
            &&& listed_at(bytes, offset) is Some
            &&& mnemonic != Mnemonics::BRK ==> listing_from(
                bytes,
                offset + 1 + mode.operand_width(),
            ) is Ok
            &&& i + text.len() < s.len()
            &&& s.subrange(i, i + text.len()) == text
            &&& s[i + text.len()] == '\n'
            &&& s.subrange(i + text.len() + 1, s.len() as int) == listing_text(
                lines_behind(bytes, offset),
            )
        }),
{
    let lines = listing_from(bytes, offset)->Ok_0;
    let (mnemonic, mode) = listed_at(bytes, offset)->Some_0;
    let line = line_at(bytes, offset, mnemonic, mode);
    let rest = lines_behind(bytes, offset);
    assert(lines == seq![line] + rest);
    assert(lines[0] == line);
    assert(lines.drop_first() == rest);
    assert(listing_text(lines) == line.text + seq!['\n'] + listing_text(rest));
    lemma_split(s, i, line.text, listing_text(rest));
}

/// A program that starts with an instruction is the same code as another
/// if the instructions are the same but for their places, and what
/// follows them is the same code.
pub proof fn lemma_same_code_first(
    a: InstructionView,
    left: Seq<StatementView>,
    b: InstructionView,
    right: Seq<StatementView>,
)
    requires
        a.opcode == b.opcode,
        a.operand == b.operand,
        same_code(left, right),
    ensures
        same_code(
            seq![StatementView::Instruction(a)] + left,
            seq![StatementView::Instruction(b)] + right,
        ),
{
    let first = seq![StatementView::Instruction(a)] + left;
    let second = seq![StatementView::Instruction(b)] + right;
    assert forall|k: int| 0 <= k < first.len() implies match (#[trigger] first[k], second[k]) {
        (StatementView::Instruction(a), StatementView::Instruction(b)) => a.opcode == b.opcode
            && a.operand == b.operand,
        (StatementView::Label(a), StatementView::Label(b)) => a == b,
        _ => false,
    } by {
        if k > 0 {
            assert(first[k] == left[k - 1]);
            assert(second[k] == right[k - 1]);
        }
    }
}

/// A program is its first statement, followed by the program behind it.
pub proof fn lemma_program_first(
    all: Lexed,
    j: int,
    defines: Map<Seq<char>, OperandView>,
    name: Seq<char>,
    statement: StatementView,
    next: int,
)
    requires
        0 <= j < all.tokens.len(),
        all.tokens[j].kind == TokenValue::Identifier(name),
        j < next,
        statement_at(all, j, defines) == Ok::<Parsed, ErrorView>(
            Parsed { statement: Some(statement), next, defines },
        ),
        program_from(all, next, defines) is Ok,
    ensures
        program_from(all, j, defines) == Ok::<Seq<StatementView>, ErrorView>(
            seq![statement] + program_from(all, next, defines)->Ok_0,
        ),
{
}

/// The instructions that a listing shows are the first of them, followed
/// by those that the listing shows behind it, if it is no `BRK`.
pub open spec fn decoded_behind(bytes: Seq<u8>, offset: int) -> Seq<StatementView> {
    let (mnemonic, mode) = listed_at(bytes, offset)->Some_0;
    if mnemonic == Mnemonics::BRK {
        seq![]
    } else {
        decoded_from(bytes, offset + 1 + mode.operand_width())
    }
}

/// The first instruction that a listing shows has the operand that its
/// line shows.
pub proof fn lemma_decoded_first(bytes: Seq<u8>, offset: int)
    requires
        0 <= offset < bytes.len(),
        listed_at(bytes, offset) is Some,
    ensures
        ({
            let (mnemonic, mode) = listed_at(bytes, offset)->Some_0;
            let shown = decoded(bytes, offset, mnemonic, mode);
            &&& decoded_from(bytes, offset) == seq![StatementView::Instruction(shown)]
                + decoded_behind(bytes, offset)
            &&& shown.opcode == mnemonic
            &&& shown.operand == listed_operand(mode, operand_value(bytes, offset, mode))
        }),
{
}

/// The text of a listing parses as the instructions that the listing
/// shows.
pub proof fn lemma_listing_parses(
    all: Lexed,
    j: int,
    s: Seq<char>,
    i: int,
    position: Position,
    bytes: Seq<u8>,
    offset: int,
)
    requires
        lexer_at(all, j, s, i, position),
        0 <= offset <= bytes.len(),
        listing_from(bytes, offset) is Ok,
        s.subrange(i, s.len() as int) == listing_text(listing_from(bytes, offset)->Ok_0),
    ensures
        program_from(all, j, Map::empty()) is Ok,
        same_code(program_from(all, j, Map::empty())->Ok_0, decoded_from(bytes, offset)),
    decreases bytes.len() - offset,
{
    let none = Map::<Seq<char>, OperandView>::empty();
    if offset >= bytes.len() {
        assert(listing_from(bytes, offset)->Ok_0.len() == 0);
        assert(s.subrange(i, s.len() as int).len() == 0);
        lemma_lexer_end(all, j, s, position);
    } else {
        lemma_first_line(bytes, offset, s, i);
        let (mnemonic, mode) = listed_at(bytes, offset)->Some_0;
        let value = operand_value(bytes, offset, mode);
        let text = instruction_text(mnemonic, mode, value);
        let next = offset + 1 + mode.operand_width();
        let after = lemma_line(all, j, s, i, position, mnemonic, mode, value, none);
        let behind = i + text.len() + 1;
        if mnemonic == Mnemonics::BRK {
            assert(listing_text(lines_behind(bytes, offset)).len() == 0);
            assert(s.subrange(behind, s.len() as int).len() == 0);
            lemma_lexer_end(all, after.0, s, after.1);
            assert(program_from(all, after.0, none) == Ok::<Seq<StatementView>, ErrorView>(
                seq![],
            ));
        } else {
            lemma_listing_parses(all, after.0, s, behind, after.1, bytes, next);
        }
        let found = InstructionView {
            opcode: mnemonic,
            operand: listed_operand(mode, value),
            position,
        };
        lemma_program_first(
            all,
            j,
            none,
            mnemonic.name(),
            StatementView::Instruction(found),
            after.0,
        );
        lemma_decoded_first(bytes, offset);
        lemma_same_code_first(
            found,
            program_from(all, after.0, none)->Ok_0,
            decoded(bytes, offset, mnemonic, mode),
            decoded_behind(bytes, offset),
        );
    }
}

/// A listing is a source text of the machine code that it lists: the text
/// of the listing of `bytes` assembles to `bytes` up to the end of their
/// first `BRK`, where the listing ends; without a `BRK`, to all of them.
pub proof fn lemma_listing_assembles(bytes: Seq<u8>)
    requires
        listing(bytes) is Ok,
    ensures
        0 <= listed_end(bytes, 0) <= bytes.len(),
        assemble_source(listing_text(listing(bytes)->Ok_0)) == Ok::<Seq<u8>, ErrorView>(
            bytes.subrange(0, listed_end(bytes, 0)),
        ),
{
    let s = listing_text(listing(bytes)->Ok_0);
    let all = lex(s);
    assert(all.tokens.subrange(0, all.tokens.len() as int) == all.tokens);
    assert(s.subrange(0, s.len() as int) == s);
    lemma_listing_parses(all, 0, s, 0, Position::start(), bytes, 0);
    let program = parse_source(s)->Ok_0;
    let shown = decoded_from(bytes, 0);
    let labels = label_table(program);
    lemma_listing_reassembles(bytes, 0, labels);
    lemma_same_code(program, shown, labels, program.len() as int);
}

/// The round trip through text. The machine code of a source text can be
/// listed, and the text of its listing assembles to the same machine code
/// up to the end of its first `BRK`, where a listing ends; without a
/// `BRK`, to all of it.
pub proof fn lemma_text_round_trip(source: Seq<char>)
    requires
        assemble_source(source) is Ok,
    ensures
        ({
            let bytes = assemble_source(source)->Ok_0;
            &&& listing(bytes) is Ok
            &&& 0 <= listed_end(bytes, 0) <= bytes.len()
            &&& assemble_source(listing_text(listing(bytes)->Ok_0)) == Ok::<Seq<u8>, ErrorView>(
                bytes.subrange(0, listed_end(bytes, 0)),
            )
        }),
{
    lemma_round_trip(source, Map::empty());
    lemma_listing_assembles(assemble_source(source)->Ok_0);
}

} // verus!
