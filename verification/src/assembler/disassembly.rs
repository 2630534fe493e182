//! The disassembler: from machine code back to a listing.
//!
//! The bytes are read in order from the first. Each opcode says how many
//! operand bytes follow it. The listing ends behind the first `BRK`, or at
//! the end of the bytes.

use vstd::prelude::*;
use crate::assembler::ast::Position;
use crate::assembler::error::{AssemblerError, AssemblerErrorKind, ErrorKind, ErrorView};
use crate::assembler::instruction::{byte_to_opcode, decode, AddressingMode, Mnemonics};
use crate::text::{hex2, hex4, push_hex2, push_hex4};

verus! {

/// What stands before the digits of an operand.
#[verifier::allow_in_spec]
pub fn operand_prefix(mode: AddressingMode) -> &'static str
    returns
        (match mode {
            AddressingMode::IMPACC => "",
            AddressingMode::IMM => " #$",
            AddressingMode::IND | AddressingMode::IDX | AddressingMode::IDY => " ($",
            _ => " $",
        }),
{
    match mode {
        AddressingMode::IMPACC => "",
        AddressingMode::IMM => " #$",
        AddressingMode::IND | AddressingMode::IDX | AddressingMode::IDY => " ($",
        _ => " $",
    }
}

/// What stands behind the digits of an operand.
#[verifier::allow_in_spec]
pub fn operand_suffix(mode: AddressingMode) -> &'static str
    returns
        (match mode {
            AddressingMode::ZPX | AddressingMode::ABX => ",X",
            AddressingMode::ZPY | AddressingMode::ABY => ",Y",
            AddressingMode::IND => ")",
            AddressingMode::IDX => ",X)",
            AddressingMode::IDY => "),Y",
            _ => "",
        }),
{
    match mode {
        AddressingMode::ZPX | AddressingMode::ABX => ",X",
        AddressingMode::ZPY | AddressingMode::ABY => ",Y",
        AddressingMode::IND => ")",
        AddressingMode::IDX => ",X)",
        AddressingMode::IDY => "),Y",
        _ => "",
    }
}

/// The digits of an operand: two for one byte, four for two, in capital
/// hexadecimal.
pub open spec fn operand_digits(mode: AddressingMode, value: u16) -> Seq<char> {
    if mode.operand_width() == 0 {
        seq![]
    } else if mode.operand_width() == 1 {
        hex2((value as int % 0x100) as u8)
    } else {
        hex4(value)
    }
}

/// An instruction as the listing shows it: `MNE`, `MNE #$hh`, `MNE $hh`,
/// `MNE $hh,X`, `MNE $hh,Y`, `MNE $hhhh`, `MNE $hhhh,X`, `MNE $hhhh,Y`,
/// `MNE ($hhhh)`, `MNE ($hh,X)` or `MNE ($hh),Y`.
pub open spec fn instruction_text(mnemonic: Mnemonics, mode: AddressingMode, value: u16) -> Seq<
    char,
> {
    mnemonic.name() + operand_prefix(mode)@ + operand_digits(mode, value) + operand_suffix(mode)@
}

/// The bytes of an instruction as the listing shows them: two digits each,
/// a space between them, and spaces behind them up to eight characters.
pub open spec fn raw_text(chunk: Seq<u8>) -> Seq<char> {
    if chunk.len() == 1 {
        hex2(chunk[0]) + "      "@
    } else if chunk.len() == 2 {
        hex2(chunk[0]) + " "@ + hex2(chunk[1]) + "   "@
    } else {
        hex2(chunk[0]) + " "@ + hex2(chunk[1]) + " "@ + hex2(chunk[2])
    }
}

/// The operand of the instruction at `offset` whose mode is `mode`: the
/// byte behind the opcode, or the little-endian word there.
pub open spec fn operand_value(bytes: Seq<u8>, offset: int, mode: AddressingMode) -> u16 {
    if mode.operand_width() == 0 {
        0
    } else if mode.operand_width() == 1 {
        bytes[offset + 1] as u16
    } else {
        (bytes[offset + 1] as int + 0x100 * (bytes[offset + 2] as int)) as u16
    }
}

/// The mnemonic and mode of the instruction at `offset`, if the byte there
/// is an opcode and its operand bytes are all there.
pub open spec fn listed_at(bytes: Seq<u8>, offset: int) -> Option<
    (Mnemonics, AddressingMode),
> {
    match decode(bytes[offset]) {
        Some((mnemonic, mode)) => if offset + mode.operand_width() < bytes.len() {
            Some((mnemonic, mode))
        } else {
            None
        },
        None => None,
    }
}

/// A line of the listing: the offset of the instruction, its bytes and its
/// text.
pub struct Line {
    pub offset: int,
    pub raw: Seq<char>,
    pub text: Seq<char>,
}

/// The line for the instruction at `offset`.
pub open spec fn line_at(bytes: Seq<u8>, offset: int, mnemonic: Mnemonics, mode: AddressingMode)
    -> Line {
    Line {
        offset,
        raw: raw_text(bytes.subrange(offset, offset + 1 + mode.operand_width())),
        text: instruction_text(mnemonic, mode, operand_value(bytes, offset, mode)),
    }
}

/// The complaint about the byte at `offset`. It speaks of no source text,
/// so its position is line 0, column 0.
pub open spec fn invalid_opcode(bytes: Seq<u8>, offset: int) -> ErrorView {
    ErrorView { kind: ErrorKind::InvalidOpcode(bytes[offset]), position: Position(0, 0) }
}

/// The listing of `bytes` from `offset` on.
pub open spec fn listing_from(bytes: Seq<u8>, offset: int) -> Result<Seq<Line>, ErrorView>
    decreases bytes.len() - offset,
{
    if offset < 0 || offset >= bytes.len() {
        Ok(seq![])
    } else {
        match listed_at(bytes, offset) {
            None => Err(invalid_opcode(bytes, offset)),
            Some((mnemonic, mode)) => {
                let line = line_at(bytes, offset, mnemonic, mode);
                if mnemonic == Mnemonics::BRK {
                    Ok(seq![line])
                } else {
                    match listing_from(bytes, offset + 1 + mode.operand_width()) {
                        Ok(rest) => Ok(seq![line] + rest),
                        Err(error) => Err(error),
                    }
                }
            },
        }
    }
}

/// The listing of `bytes`.
pub open spec fn listing(bytes: Seq<u8>) -> Result<Seq<Line>, ErrorView> {
    listing_from(bytes, 0)
}

/// The lines of a vector, as what they stand for.
pub open spec fn line_views(lines: Seq<(usize, String, String)>) -> Seq<Line> {
    lines.map_values(
        |line: (usize, String, String)| Line { offset: line.0 as int, raw: line.1@, text: line.2@ },
    )
}

/// A result with its lines and its error as what they stand for.
pub open spec fn listing_result_view(
    result: Result<Vec<(usize, String, String)>, AssemblerError>,
) -> Result<Seq<Line>, ErrorView> {
    match result {
        Ok(lines) => Ok(line_views(lines@)),
        Err(error) => Err(error@),
    }
}

/// `lines` followed by what `rest` holds, or the error of `rest`.
pub open spec fn followed_by(lines: Seq<Line>, rest: Result<Seq<Line>, ErrorView>) -> Result<
    Seq<Line>,
    ErrorView,
> {
    match rest {
        Ok(rest) => Ok(lines + rest),
        Err(error) => Err(error),
    }
}

/// The bytes of the instruction at `offset`, as the listing shows them.
fn make_raw(bytes: &[u8], offset: usize, width: usize) -> (raw: String)
    requires
        width <= 2,
        offset + width < bytes.len(),
    ensures
        raw@ == raw_text(bytes@.subrange(offset as int, offset + 1 + width)),
{
    let mut raw = String::new();
    push_hex2(&mut raw, bytes[offset]);
    if width == 0 {
        raw.append("      ");
    } else if width == 1 {
        raw.append(" ");
        push_hex2(&mut raw, bytes[offset + 1]);
        raw.append("   ");
    } else {
        raw.append(" ");
        push_hex2(&mut raw, bytes[offset + 1]);
        raw.append(" ");
        push_hex2(&mut raw, bytes[offset + 2]);
    }
    raw
}

/// An instruction as the listing shows it.
fn make_text(mnemonic: Mnemonics, mode: AddressingMode, width: usize, value: u16) -> (text: String)
    requires
        width == mode.operand_width(),
    ensures
        text@ == instruction_text(mnemonic, mode, value),
{
    let mut text = mnemonic.to_string();
    text.append(operand_prefix(mode));
    if width == 1 {
        push_hex2(&mut text, (value % 0x100) as u8);
    } else if width == 2 {
        push_hex4(&mut text, value);
    }
    text.append(operand_suffix(mode));
    text
}

/// The number of operand bytes of an addressing mode.
pub fn width_of(mode: AddressingMode) -> (width: usize)
    ensures
        width == mode.operand_width(),
{
    match mode {
        AddressingMode::IMPACC => 0,
        AddressingMode::ABS | AddressingMode::ABX | AddressingMode::ABY | AddressingMode::IND => 2,
        _ => 1,
    }
}

/// The listing of `bytes`: for each instruction its offset, its bytes in
/// hexadecimal and its text. A byte that is no opcode, or an opcode whose
/// operand bytes are cut off, is an `InvalidOpcode`.
pub fn disassemble(bytes: &[u8]) -> (result: Result<Vec<(usize, String, String)>, AssemblerError>)
    ensures
        listing_result_view(result) == listing(bytes@),
{
    let mut result: Vec<(usize, String, String)> = Vec::new();
    let mut pointer: usize = 0;
    while pointer < bytes.len()
        invariant
            listing(bytes@) == followed_by(line_views(result@), listing_from(bytes@, pointer as int)),
        decreases bytes.len() - pointer,
    {
        let ghost done = line_views(result@);
        let (opcode, addressing_mode) = match byte_to_opcode(bytes[pointer]) {
            Ok(found) => found,
            Err(error) => {
                return Err(error);
            },
        };
        let width = width_of(addressing_mode);
        if width >= bytes.len() - pointer {
            return Err(
                AssemblerError::new(
                    AssemblerErrorKind::InvalidOpcode(bytes[pointer]),
                    Position(0, 0),
                ),
            );
        }
        let operand: u16 = if width == 0 {
            0
        } else if width == 1 {
            bytes[pointer + 1] as u16
        } else {
            bytes[pointer + 1] as u16 + 0x100 * (bytes[pointer + 2] as u16)
        };
        let raw = make_raw(bytes, pointer, width);
        let line = make_text(opcode, addressing_mode, width, operand);
        let ghost shown = line_at(bytes@, pointer as int, opcode, addressing_mode);
        result.push((pointer, raw, line));
        assert(line_views(result@) == done + seq![shown]);
        if opcode == Mnemonics::BRK {
            return Ok(result);
        }
        pointer = pointer + 1 + width;
        proof {
            let rest = listing_from(bytes@, pointer as int);
            if rest is Ok {
                assert(done + (seq![shown] + rest->Ok_0) == (done + seq![shown]) + rest->Ok_0);
            }
        }
    }
    assert(line_views(result@) + Seq::<Line>::empty() == line_views(result@));
    Ok(result)
}

} // verus!
