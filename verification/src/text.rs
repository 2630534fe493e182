//! Building text: hexadecimal and decimal numerals appended to a `String`.

use vstd::prelude::*;

verus! {

/// What the standard library says of `String::push`, taken on trust and
/// not proved here: the character is appended to the end of the string,
/// and nothing else changes.
pub assume_specification[ String::push ](s: &mut String, c: char)
    ensures
        final(s)@ == old(s)@.push(c),
;

/// The upper-case hexadecimal digit for a value below 16.
pub open spec fn hex_char(d: int) -> char {
    if d == 0 {
        '0'
    } else if d == 1 {
        '1'
    } else if d == 2 {
        '2'
    } else if d == 3 {
        '3'
    } else if d == 4 {
        '4'
    } else if d == 5 {
        '5'
    } else if d == 6 {
        '6'
    } else if d == 7 {
        '7'
    } else if d == 8 {
        '8'
    } else if d == 9 {
        '9'
    } else if d == 10 {
        'A'
    } else if d == 11 {
        'B'
    } else if d == 12 {
        'C'
    } else if d == 13 {
        'D'
    } else if d == 14 {
        'E'
    } else {
        'F'
    }
}

/// A byte as two upper-case hexadecimal digits.
pub open spec fn hex2(v: u8) -> Seq<char> {
    seq![hex_char(v as int / 16), hex_char(v as int % 16)]
}

/// A 16-bit word as four upper-case hexadecimal digits.
pub open spec fn hex4(v: u16) -> Seq<char> {
    hex2((v as int / 256) as u8) + hex2((v as int % 256) as u8)
}

/// The decimal numeral of `n`, without leading zeros.
pub open spec fn decimal(n: nat) -> Seq<char>
    decreases n,
{
    if n < 10 {
        seq![hex_char(n as int)]
    } else {
        decimal(n / 10).push(hex_char((n % 10) as int))
    }
}

/// The digit for a value below 16.
pub fn hex_digit(d: u8) -> (c: char)
    requires
        d < 16,
    ensures
        c == hex_char(d as int),
{
    if d < 10 {
        (48u8 + d) as char
    } else {
        (55u8 + d) as char
    }
}

/// Appends the two hexadecimal digits of `v`.
pub fn push_hex2(s: &mut String, v: u8)
    ensures
        final(s)@ == old(s)@ + hex2(v),
{
    s.push(hex_digit(v / 16));
    s.push(hex_digit(v % 16));
}

/// Appends the four hexadecimal digits of `v`.
pub fn push_hex4(s: &mut String, v: u16)
    ensures
        final(s)@ == old(s)@ + hex4(v),
{
    push_hex2(s, (v / 256) as u8);
    push_hex2(s, (v % 256) as u8);
}

/// Appends the decimal numeral of `v`.
pub fn push_decimal(s: &mut String, v: usize)
    ensures
        final(s)@ == old(s)@ + decimal(v as nat),
    decreases v,
{
    if v >= 10 {
        push_decimal(s, v / 10);
    }
    s.push(hex_digit((v % 10) as u8));
}

/// `text` between double quotes.
pub open spec fn quoted(text: Seq<char>) -> Seq<char> {
    seq!['"'] + text + seq!['"']
}

/// Appends `text` between double quotes.
pub fn push_quoted(s: &mut String, text: &str)
    ensures
        final(s)@ == old(s)@ + quoted(text@),
{
    s.push('"');
    s.append(text);
    s.push('"');
}

} // verus!
