//! The lexer: from the characters of a source text to its tokens.
//!
//! Blanks and comments (`;` to the end of the line) separate tokens and
//! are skipped. The end of a line is a token, and so is the end of the
//! source.

use vstd::prelude::*;
use crate::assembler::ast::Position;
use crate::assembler::error::{AssemblerError, AssemblerErrorKind, ErrorKind, ErrorView};
use crate::assembler::tokenizer::{Radix, Register, Token, TokenKind, TokenValue, TokenView, Width};

verus! {

/// A blank separates tokens: space, tab or carriage return.
pub open spec fn is_blank(c: char) -> bool {
    c == ' ' || c == '\t' || c == '\r'
}

/// A letter of the Latin alphabet.
pub open spec fn is_letter(c: char) -> bool {
    ('a' <= c && c <= 'z') || ('A' <= c && c <= 'Z')
}

/// A decimal digit.
pub open spec fn is_digit(c: char) -> bool {
    '0' <= c && c <= '9'
}

/// A hexadecimal digit, in either case.
pub open spec fn is_hex_digit(c: char) -> bool {
    is_digit(c) || ('a' <= c && c <= 'f') || ('A' <= c && c <= 'F')
}

/// A word starts with a letter or `_`.
pub open spec fn is_word_start(c: char) -> bool {
    is_letter(c) || c == '_'
}

/// A word goes on with letters, digits and `_`.
pub open spec fn is_word_char(c: char) -> bool {
    is_letter(c) || is_digit(c) || c == '_'
}

/// The value of a digit in a radix up to 16; 0 for what is no digit.
pub open spec fn digit_value(c: char) -> int {
    if is_digit(c) {
        c as int - '0' as int
    } else if 'a' <= c && c <= 'f' {
        c as int - 'a' as int + 10
    } else if 'A' <= c && c <= 'F' {
        c as int - 'A' as int + 10
    } else {
        0
    }
}

/// Whether `text` holds decimal digits only.
pub open spec fn is_decimal(text: Seq<char>) -> bool {
    forall|k: int| 0 <= k < text.len() ==> is_digit(#[trigger] text[k])
}

/// Whether `text` holds hexadecimal digits only.
pub open spec fn is_hexadecimal(text: Seq<char>) -> bool {
    forall|k: int| 0 <= k < text.len() ==> is_hex_digit(#[trigger] text[k])
}

/// The number that `text` denotes in decimal.
pub open spec fn decimal_value(text: Seq<char>) -> int
    decreases text.len(),
{
    if text.len() == 0 {
        0
    } else {
        decimal_value(text.drop_last()) * 10 + digit_value(text.last())
    }
}

/// The number that `text` denotes in hexadecimal.
pub open spec fn hexadecimal_value(text: Seq<char>) -> int
    decreases text.len(),
{
    if text.len() == 0 {
        0
    } else {
        hexadecimal_value(text.drop_last()) * 16 + digit_value(text.last())
    }
}

/// The number that the digits `text` denote in `radix`.
pub open spec fn number_value(radix: Radix, text: Seq<char>) -> int {
    match radix {
        Radix::Decimal => decimal_value(text),
        Radix::Hexadecimal => hexadecimal_value(text),
    }
}

/// `n`, or the largest `usize` if `n` is larger.
pub open spec fn clip(n: int) -> usize {
    if n > usize::MAX {
        usize::MAX
    } else {
        n as usize
    }
}

impl Position {
    /// The first place of a text.
    pub open spec fn start() -> Position {
        Position(1, 1)
    }

    /// The place `n` columns to the right.
    pub open spec fn right(self, n: int) -> Position {
        Position(self.0, clip(self.1 + n))
    }

    /// The first place of the next line.
    pub open spec fn down(self) -> Position {
        Position(clip(self.0 + 1), 1)
    }
}

/// The index at which the next token starts: that of the first character
/// from `i` on that is neither blank nor part of a comment, or the length
/// of `s`. With `comment` set, `i` lies in a comment.
pub open spec fn skip_end(s: Seq<char>, i: int, comment: bool) -> int
    decreases s.len() - i,
{
    if i < 0 || i >= s.len() {
        i
    } else if comment {
        if s[i] == '\n' {
            i
        } else {
            skip_end(s, i + 1, true)
        }
    } else if is_blank(s[i]) {
        skip_end(s, i + 1, false)
    } else if s[i] == ';' {
        skip_end(s, i + 1, true)
    } else {
        i
    }
}

/// The index at which the run of word characters from `i` on ends.
pub open spec fn word_end(s: Seq<char>, i: int) -> int
    decreases s.len() - i,
{
    if 0 <= i < s.len() && is_word_char(s[i]) {
        word_end(s, i + 1)
    } else {
        i
    }
}

/// The token that a word is.
pub open spec fn word_token(word: Seq<char>) -> TokenValue {
    if word == "define"@ {
        TokenValue::Directive(word)
    } else if word == seq!['X'] {
        TokenValue::Register(Register::X)
    } else if word == seq!['Y'] {
        TokenValue::Register(Register::Y)
    } else {
        TokenValue::Identifier(word)
    }
}

/// The token that a run of word characters is that starts with a digit:
/// a decimal number of at most 65535, of 8 bits up to 255 and of 16 bits
/// above.
pub open spec fn decimal_token(text: Seq<char>) -> Result<TokenValue, ErrorKind> {
    if is_decimal(text) && decimal_value(text) <= 0xFFFF {
        Ok(
            TokenValue::Number(
                Radix::Decimal,
                text,
                if decimal_value(text) <= 0xFF {
                    Width::Eight
                } else {
                    Width::Sixteen
                },
            ),
        )
    } else {
        Err(ErrorKind::InvalidNumber)
    }
}

/// The token that a `$` is with the run `text` of word characters after
/// it: with no character, the token `$`; with one to four hexadecimal
/// digits, a number, of 8 bits up to two digits and of 16 bits above.
pub open spec fn dollar_token(text: Seq<char>) -> Result<TokenValue, ErrorKind> {
    if text.len() == 0 {
        Ok(TokenValue::Dollar)
    } else if is_hexadecimal(text) && text.len() <= 4 {
        Ok(
            TokenValue::Number(
                Radix::Hexadecimal,
                text,
                if text.len() <= 2 {
                    Width::Eight
                } else {
                    Width::Sixteen
                },
            ),
        )
    } else {
        Err(ErrorKind::InvalidNumber)
    }
}

/// The token that the single character `c` is, if it is one.
pub open spec fn punctuation(c: char) -> Option<TokenValue> {
    if c == '#' {
        Some(TokenValue::Hash)
    } else if c == ',' {
        Some(TokenValue::Comma)
    } else if c == '(' {
        Some(TokenValue::LParen)
    } else if c == ')' {
        Some(TokenValue::RParen)
    } else if c == ':' {
        Some(TokenValue::Colon)
    } else if c == '\n' {
        Some(TokenValue::Newline)
    } else {
        None
    }
}

/// The token that starts at `start`, where no blank and no comment starts,
/// and the index at which it ends.
pub open spec fn token_at(s: Seq<char>, start: int) -> (Result<TokenValue, ErrorKind>, int) {
    if start < 0 || start >= s.len() {
        (Ok(TokenValue::Eof), start)
    } else if is_word_start(s[start]) {
        let end = word_end(s, start);
        (Ok(word_token(s.subrange(start, end))), end)
    } else if is_digit(s[start]) {
        let end = word_end(s, start);
        (decimal_token(s.subrange(start, end)), end)
    } else if s[start] == '$' {
        let end = word_end(s, start + 1);
        (dollar_token(s.subrange(start + 1, end)), end)
    } else {
        match punctuation(s[start]) {
            Some(token) => (Ok(token), start + 1),
            None => (Err(ErrorKind::IllegalCharacter(s[start])), start + 1),
        }
    }
}

/// One step of the lexer: the token or the error that it found, and where
/// it stands afterwards.
pub struct Lexeme {
    pub token: Result<TokenView, ErrorView>,
    pub index: int,
    pub position: Position,
}

/// The step of a lexer that stands at index `i` of `s`, at `position`. A
/// token's position is that of its first character. After an error the
/// lexer stands at the character that the error speaks of.
pub open spec fn next_lexeme(s: Seq<char>, i: int, position: Position) -> Lexeme {
    let start = skip_end(s, i, false);
    let at = position.right(start - i);
    let (found, end) = token_at(s, start);
    match found {
        Ok(kind) => Lexeme {
            token: Ok(TokenView { kind, position: at }),
            index: end,
            position: if kind == TokenValue::Newline {
                at.down()
            } else {
                at.right(end - start)
            },
        },
        Err(kind) => Lexeme {
            token: Err(ErrorView { kind, position: at }),
            index: start,
            position: at,
        },
    }
}

/// A run of a word character's kind never ends before it starts, nor
/// after the text.
pub proof fn lemma_word_end(s: Seq<char>, i: int)
    requires
        0 <= i <= s.len(),
    ensures
        i <= word_end(s, i) <= s.len(),
        0 <= i < s.len() && is_word_char(s[i]) ==> i < word_end(s, i),
    decreases s.len() - i,
{
    if i < s.len() && is_word_char(s[i]) {
        lemma_word_end(s, i + 1);
    }
}

/// Skipping never goes backwards, nor beyond the text.
pub proof fn lemma_skip_end(s: Seq<char>, i: int, comment: bool)
    requires
        0 <= i <= s.len(),
    ensures
        i <= skip_end(s, i, comment) <= s.len(),
    decreases s.len() - i,
{
    if i < s.len() {
        if comment {
            if s[i] != '\n' {
                lemma_skip_end(s, i + 1, true);
            }
        } else if is_blank(s[i]) {
            lemma_skip_end(s, i + 1, false);
        } else if s[i] == ';' {
            lemma_skip_end(s, i + 1, true);
        }
    }
}

/// Every step but the one at the end of the text moves the lexer forward
/// unless it fails, and no step moves it beyond the text.
pub proof fn lemma_next_lexeme(s: Seq<char>, i: int, position: Position)
    requires
        0 <= i <= s.len(),
    ensures
        i <= next_lexeme(s, i, position).index <= s.len(),
        next_lexeme(s, i, position).token matches Ok(token) && token.kind != TokenValue::Eof ==> i
            < next_lexeme(s, i, position).index,
{
    lemma_skip_end(s, i, false);
    let start = skip_end(s, i, false);
    if start < s.len() {
        lemma_word_end(s, start);
        lemma_word_end(s, start + 1);
    }
}

/// What a lexer yields until it fails or reaches the end: the tokens, the
/// last of which is `Eof` if it did not fail, and the failure if it did.
pub struct Lexed {
    pub tokens: Seq<TokenView>,
    pub error: Option<ErrorView>,
}

/// What a lexer yields from index `i` of `s` on.
pub open spec fn lex_from(s: Seq<char>, i: int, position: Position) -> Lexed
    decreases s.len() - i,
{
    if i < 0 || i > s.len() {
        Lexed { tokens: seq![], error: None }
    } else {
        let step = next_lexeme(s, i, position);
        match step.token {
            Err(error) => Lexed { tokens: seq![], error: Some(error) },
            Ok(token) => if token.kind == TokenValue::Eof {
                Lexed { tokens: seq![token], error: None }
            } else {
                proof {
                    lemma_next_lexeme(s, i, position);
                }
                let rest = lex_from(s, step.index, step.position);
                Lexed { tokens: seq![token] + rest.tokens, error: rest.error }
            },
        }
    }
}

/// The tokens of a vector, as what they stand for.
pub open spec fn token_views(tokens: Seq<Token>) -> Seq<TokenView> {
    tokens.map_values(|token: Token| token@)
}

/// The error of an option, as what it stands for.
pub open spec fn error_view(error: Option<AssemblerError>) -> Option<ErrorView> {
    match error {
        Some(error) => Some(error@),
        None => None,
    }
}

/// What a lexer yields for the source `s`.
pub open spec fn lex(s: Seq<char>) -> Lexed {
    lex_from(s, 0, Position::start())
}

/// A token or an error, as what it stands for.
pub open spec fn token_result_view(result: Result<Token, AssemblerError>) -> Result<
    TokenView,
    ErrorView,
> {
    match result {
        Ok(token) => Ok(token@),
        Err(error) => Err(error@),
    }
}

/// Whether `c` is a blank.
fn blank(c: char) -> (b: bool)
    ensures
        b == is_blank(c),
{
    c == ' ' || c == '\t' || c == '\r'
}

/// Whether a word can start with `c`.
fn word_start(c: char) -> (b: bool)
    ensures
        b == is_word_start(c),
{
    ('a' <= c && c <= 'z') || ('A' <= c && c <= 'Z') || c == '_'
}

/// Whether a word can go on with `c`.
fn word_char(c: char) -> (b: bool)
    ensures
        b == is_word_char(c),
{
    word_start(c) || ('0' <= c && c <= '9')
}

/// Whether `c` is a hexadecimal digit.
fn hex_digit(c: char) -> (b: bool)
    ensures
        b == is_hex_digit(c),
{
    ('0' <= c && c <= '9') || ('a' <= c && c <= 'f') || ('A' <= c && c <= 'F')
}

/// The value of a digit; 0 for what is no digit.
pub fn digit(c: char) -> (value: u32)
    ensures
        value == digit_value(c),
        value < 16,
{
    if '0' <= c && c <= '9' {
        c as u32 - '0' as u32
    } else if 'a' <= c && c <= 'f' {
        c as u32 - 'a' as u32 + 10
    } else if 'A' <= c && c <= 'F' {
        c as u32 - 'A' as u32 + 10
    } else {
        0
    }
}

/// Whether `c` is skipped: in a comment, all but the end of the line;
/// elsewhere, a blank or the start of a comment.
fn skipped(c: char, comment: bool) -> (b: bool)
    ensures
        b == if comment {
            c != '\n'
        } else {
            is_blank(c) || c == ';'
        },
{
    if comment {
        c != '\n'
    } else {
        blank(c) || c == ';'
    }
}

/// The index at which the next token starts.
fn skip(source: &Vec<char>, from: usize) -> (start: usize)
    requires
        from <= source.len(),
    ensures
        start == skip_end(source@, from as int, false),
        from <= start <= source.len(),
{
    let mut i = from;
    let mut comment = false;
    while i < source.len() && skipped(source[i], comment)
        invariant
            from <= i <= source.len(),
            skip_end(source@, from as int, false) == skip_end(source@, i as int, comment),
        decreases source.len() - i,
    {
        if !comment && source[i] == ';' {
            comment = true;
        }
        i = i + 1;
    }
    i
}

/// The end of the run of word characters from `from` on, and the run.
fn scan_word(source: &Vec<char>, from: usize) -> (found: (usize, String))
    requires
        from <= source.len(),
    ensures
        found.0 == word_end(source@, from as int),
        from <= found.0 <= source.len(),
        found.1@ == source@.subrange(from as int, found.0 as int),
{
    let mut i = from;
    let mut text = String::new();
    while i < source.len() && word_char(source[i])
        invariant
            from <= i <= source.len(),
            word_end(source@, from as int) == word_end(source@, i as int),
            text@ == source@.subrange(from as int, i as int),
        decreases source.len() - i,
    {
        text.push(source[i]);
        i = i + 1;
        assert(source@.subrange(from as int, i as int) == source@.subrange(
            from as int,
            i - 1,
        ).push(source@[i - 1]));
    }
    (i, text)
}

/// The token that a word is.
fn classify_word(word: String) -> (kind: TokenKind)
    ensures
        kind@ == word_token(word@),
{
    let define = String::from_str("define");
    let x = String::from_str("X");
    let y = String::from_str("Y");
    proof {
        reveal_strlit("X");
        reveal_strlit("Y");
        assert("X"@ == seq!['X']);
        assert("Y"@ == seq!['Y']);
    }
    if word == define {
        TokenKind::Directive(word)
    } else if word == x {
        TokenKind::Register(Register::X)
    } else if word == y {
        TokenKind::Register(Register::Y)
    } else {
        TokenKind::Identifier(word)
    }
}

/// Whether the characters of `source` from `from` to `to` are digits of
/// the radix, and their value, or 65536 if it is larger than that.
fn scan_digits(source: &Vec<char>, from: usize, to: usize, radix: Radix) -> (found: (bool, u32))
    requires
        from <= to <= source.len(),
    ensures
        found.0 == match radix {
            Radix::Decimal => is_decimal(source@.subrange(from as int, to as int)),
            Radix::Hexadecimal => is_hexadecimal(source@.subrange(from as int, to as int)),
        },
        found.1 == if number_value(radix, source@.subrange(from as int, to as int)) > 0xFFFF {
            0x10000
        } else {
            number_value(radix, source@.subrange(from as int, to as int))
        },
{
    let mut valid = true;
    let mut value: u32 = 0;
    let mut i = from;
    while i < to
        invariant
            from <= i <= to <= source.len(),
            valid == match radix {
                Radix::Decimal => is_decimal(source@.subrange(from as int, i as int)),
                Radix::Hexadecimal => is_hexadecimal(source@.subrange(from as int, i as int)),
            },
            0 <= number_value(radix, source@.subrange(from as int, i as int)),
            value == if number_value(radix, source@.subrange(from as int, i as int)) > 0xFFFF {
                0x10000
            } else {
                number_value(radix, source@.subrange(from as int, i as int))
            },
        decreases to - i,
    {
        let c = source[i];
        let ghost before = source@.subrange(from as int, i as int);
        let ghost after = source@.subrange(from as int, i + 1);
        assert(after.drop_last() == before);
        assert(after.last() == c);
        assert(forall|k: int| 0 <= k < before.len() ==> before[k] == after[k]);
        match radix {
            Radix::Decimal => {
                valid = valid && '0' <= c && c <= '9';
                value = value * 10 + digit(c);
            },
            Radix::Hexadecimal => {
                valid = valid && hex_digit(c);
                value = value * 16 + digit(c);
            },
        }
        if value > 0xFFFF {
            value = 0x10000;
        }
        i = i + 1;
    }
    (valid, value)
}

/// The lexer: a source text and a place in it. Each call of `next_token`
/// yields the token that starts there and moves behind it.
pub struct Lexer {
    source: Vec<char>,
    index: usize,
    position: Position,
}

impl Lexer {
    #[verifier::type_invariant]
    /// The lexer stands within its source, or at its end.
    spec fn within(&self) -> bool {
        self.index <= self.source@.len()
    }

    /// The characters of the source.
    pub closed spec fn source(&self) -> Seq<char> {
        self.source@
    }

    /// The index of the character at which the lexer stands.
    pub closed spec fn index(&self) -> int {
        self.index as int
    }

    /// The place of that character in the source.
    pub closed spec fn position(&self) -> Position {
        self.position
    }

    /// A lexer at the start of `source`.
    pub fn new(source: &str) -> (lexer: Lexer)
        ensures
            lexer.source() == source@,
            lexer.index() == 0,
            lexer.position() == Position::start(),
    {
        let mut chars: Vec<char> = Vec::new();
        for c in it: source.chars()
            invariant
                chars@ == source@.take(it.index() as int),
                it.seq() == source@,
        {
            chars.push(c);
        }
        assert(source@.take(source@.len() as int) == source@);
        Lexer { source: chars, index: 0, position: Position(1, 1) }
    }

    /// Goes back to the start of the source.
    pub fn reset(&mut self)
        ensures
            final(self).source() == old(self).source(),
            final(self).index() == 0,
            final(self).position() == Position::start(),
    {
        self.index = 0;
        self.position = Position(1, 1);
    }

    /// The next token. At the end of the source every call yields `Eof`;
    /// at a character that is part of no token, or a number that is none,
    /// every call yields the same error.
    pub fn next_token(&mut self) -> (result: Result<Token, AssemblerError>)
        ensures
            final(self).source() == old(self).source(),
            ({
                let step = next_lexeme(old(self).source(), old(self).index(), old(self).position());
                &&& token_result_view(result) == step.token
                &&& final(self).index() == step.index
                &&& final(self).position() == step.position
            }),
    {
        proof {
            use_type_invariant(&*self);
        }
        let start = skip(&self.source, self.index);
        let at = Position(self.position.0, self.position.1.saturating_add(start - self.index));
        self.index = start;
        self.position = at;
        if start >= self.source.len() {
            return Ok(Token { kind: TokenKind::Eof, position: at });
        }
        let c = self.source[start];
        let ghost s = self.source@;
        proof {
            lemma_word_end(s, start as int);
            lemma_word_end(s, start + 1);
        }
        let end: usize;
        let found: Result<TokenKind, AssemblerErrorKind>;
        if word_start(c) {
            let (word_end, word) = scan_word(&self.source, start);
            end = word_end;
            found = Ok(classify_word(word));
        } else if '0' <= c && c <= '9' {
            let (word_end, text) = scan_word(&self.source, start);
            let (valid, value) = scan_digits(&self.source, start, word_end, Radix::Decimal);
            end = word_end;
            found = if valid && value <= 0xFFFF {
                Ok(
                    TokenKind::Number(
                        Radix::Decimal,
                        text,
                        if value <= 0xFF {
                            Width::Eight
                        } else {
                            Width::Sixteen
                        },
                    ),
                )
            } else {
                Err(AssemblerErrorKind::InvalidNumber)
            };
        } else if c == '$' {
            let (word_end, text) = scan_word(&self.source, start + 1);
            let (valid, value) = scan_digits(&self.source, start + 1, word_end, Radix::Hexadecimal);
            end = word_end;
            found = if word_end == start + 1 {
                Ok(TokenKind::Dollar)
            } else if valid && word_end - start <= 5 {
                Ok(
                    TokenKind::Number(
                        Radix::Hexadecimal,
                        text,
                        if word_end - start <= 3 {
                            Width::Eight
                        } else {
                            Width::Sixteen
                        },
                    ),
                )
            } else {
                Err(AssemblerErrorKind::InvalidNumber)
            };
        } else {
            end = start + 1;
            found = if c == '#' {
                Ok(TokenKind::Hash)
            } else if c == ',' {
                Ok(TokenKind::Comma)
            } else if c == '(' {
                Ok(TokenKind::LParen)
            } else if c == ')' {
                Ok(TokenKind::RParen)
            } else if c == ':' {
                Ok(TokenKind::Colon)
            } else if c == '\n' {
                Ok(TokenKind::Newline)
            } else {
                Err(AssemblerErrorKind::IllegalCharacter(c))
            };
        }
        match found {
            Ok(kind) => {
                self.index = end;
                self.position = if c == '\n' {
                    Position(at.0.saturating_add(1), 1)
                } else {
                    Position(at.0, at.1.saturating_add(end - start))
                };
                Ok(Token { kind, position: at })
            },
            Err(kind) => Err(AssemblerError::new(kind, at)),
        }
    }

    /// All the tokens from where the lexer stands to the end of the source
    /// or to the first error, and that error.
    pub fn tokenize(&mut self) -> (found: (Vec<Token>, Option<AssemblerError>))
        ensures
            final(self).source() == old(self).source(),
            token_views(found.0@) == lex_from(
                old(self).source(),
                old(self).index(),
                old(self).position(),
            ).tokens,
            error_view(found.1) == lex_from(
                old(self).source(),
                old(self).index(),
                old(self).position(),
            ).error,
    {
        proof {
            use_type_invariant(&*self);
        }
        let ghost s = self.source@;
        let ghost all = lex_from(s, self.index as int, self.position);
        let mut tokens: Vec<Token> = Vec::new();
        loop
            invariant
                s == old(self).source(),
                all == lex_from(old(self).source(), old(self).index(), old(self).position()),
                self.source@ == s,
                self.index <= s.len(),
                all.tokens == token_views(tokens@) + lex_from(
                    s,
                    self.index as int,
                    self.position,
                ).tokens,
                all.error == lex_from(s, self.index as int, self.position).error,
            decreases s.len() - self.index,
        {
            proof {
                lemma_next_lexeme(s, self.index as int, self.position);
            }
            let ghost before = token_views(tokens@);
            match self.next_token() {
                Err(error) => {
                    assert(all.tokens == before);
                    return (tokens, Some(error));
                },
                Ok(token) => {
                    let last = match token.kind {
                        TokenKind::Eof => true,
                        _ => false,
                    };
                    tokens.push(token);
                    assert(token_views(tokens@) == before + seq![token@]);
                    if last {
                        assert(all.tokens == token_views(tokens@));
                        return (tokens, None);
                    }
                    proof {
                        use_type_invariant(&*self);
                    }
                },
            }
        }
    }
}

} // verus!
