//! What holds of every program: the parser yields well-formed
//! instructions, the two passes agree on every offset, and machine code
//! that is listed and assembled again is the same machine code.

use vstd::prelude::*;
use crate::assembler::assembly::{
    assemble_source, assembled, emitted, instruction_bytes, label_table, offset_after, offset_at,
    operand_bytes, operand_width,
};
use crate::assembler::ast::{
    InstructionView, NumberType, OperandValue, OperandView, Position, StatementView,
};
use crate::assembler::disassembly::{instruction_text, listed_at, listing_from, operand_value};
use crate::assembler::error::ErrorView;
use crate::assembler::instruction::{encode, lemma_encode_decode, AddressingMode, Mnemonics};
use crate::assembler::parser::{label_mode, operand_at, parse_source, program_from, statement_at};
use crate::assembler::tokenizer::lexer::{lex, Lexed};
use crate::assembler::tokenizer::TokenValue;

verus! {

/// Whether an operand under a mnemonic that is or is not a branch takes as
/// many bytes as its addressing mode says: without a value the mode is
/// `IMPACC`; a number has the width of the mode; a reference to a label
/// has the mode that the mnemonic asks for.
pub open spec fn operand_well_formed(operand: OperandView, branch: bool) -> bool {
    match operand.value {
        None => operand.addressing_mode == AddressingMode::IMPACC,
        Some(OperandValue::Number(number)) => number.width()
            == operand.addressing_mode.operand_width(),
        Some(OperandValue::Label(_)) => operand.addressing_mode == label_mode(branch),
    }
}

/// Whether the operand of an instruction is well-formed.
pub open spec fn instruction_well_formed(instruction: InstructionView) -> bool {
    operand_well_formed(instruction.operand, instruction.opcode.is_branch())
}

/// Whether a statement is a label or a well-formed instruction.
pub open spec fn statement_well_formed(statement: StatementView) -> bool {
    match statement {
        StatementView::Label(_) => true,
        StatementView::Instruction(instruction) => instruction_well_formed(instruction),
    }
}

/// Whether every statement of a program is well-formed.
pub open spec fn program_well_formed(program: Seq<StatementView>) -> bool {
    forall|k: int| 0 <= k < program.len() ==> statement_well_formed(#[trigger] program[k])
}

/// Whether every defined operand has a value and is well-formed under a
/// mnemonic that is no branch.
pub open spec fn defines_well_formed(defines: Map<Seq<char>, OperandView>) -> bool {
    forall|name: Seq<char>| #[trigger]
        defines.contains_key(name) ==> defines[name].value.is_some() && operand_well_formed(
            defines[name],
            false,
        )
}

/// An operand that the parser accepts has a value and is well-formed.
pub proof fn lemma_operand_well_formed(
    source: Lexed,
    i: int,
    branch: bool,
    defines: Map<Seq<char>, OperandView>,
)
    requires
        defines_well_formed(defines),
    ensures
        operand_at(source, i, branch, defines) matches Ok(found) ==> found.0.value.is_some()
            && operand_well_formed(found.0, branch),
{
}

/// A statement that the parser accepts is well-formed, and leaves the
/// defined operands well-formed.
pub proof fn lemma_statement_well_formed(
    source: Lexed,
    i: int,
    defines: Map<Seq<char>, OperandView>,
)
    requires
        defines_well_formed(defines),
    ensures
        statement_at(source, i, defines) matches Ok(parsed) ==> defines_well_formed(parsed.defines)
            && i < parsed.next && (parsed.statement matches Some(statement)
            ==> statement_well_formed(statement)),
{
    match statement_at(source, i, defines) {
        Ok(parsed) => {
            let first = source.token(i)->Ok_0;
            match first.kind {
                TokenValue::Directive(_) => {
                    lemma_operand_well_formed(source, i + 2, false, defines);
                },
                TokenValue::Identifier(name) => {
                    let second = source.token(i + 1)->Ok_0;
                    if second.kind != TokenValue::Colon {
                        let opcode = Mnemonics::named(name)->Some_0;
                        lemma_operand_well_formed(source, i + 1, opcode.is_branch(), defines);
                    }
                },
                _ => {},
            }
        },
        Err(_) => {},
    }
}

/// Every statement that the parser yields is well-formed.
pub proof fn lemma_program_well_formed(
    source: Lexed,
    i: int,
    defines: Map<Seq<char>, OperandView>,
)
    requires
        defines_well_formed(defines),
    ensures
        program_from(source, i, defines) matches Ok(program) ==> program_well_formed(program),
    decreases source.tokens.len() - i,
{
    match source.token(i) {
        Err(_) => {},
        Ok(first) => match first.kind {
            TokenValue::Eof => {},
            TokenValue::Newline => {
                lemma_program_well_formed(source, i + 1, defines);
            },
            _ => {
                lemma_statement_well_formed(source, i, defines);
                match statement_at(source, i, defines) {
                    Err(_) => {},
                    Ok(parsed) => {
                        lemma_program_well_formed(source, parsed.next, parsed.defines);
                    },
                }
            },
        },
    }
}

/// The program of a source text is well-formed.
pub proof fn lemma_parse_well_formed(source: Seq<char>)
    ensures
        parse_source(source) matches Ok(program) ==> program_well_formed(program),
{
    lemma_program_well_formed(lex(source), 0, Map::empty());
}

/// The second pass emits for a well-formed instruction as many bytes as
/// the first pass counted for it, and between one and three.
pub proof fn lemma_emitted_width(
    instruction: InstructionView,
    labels: Map<Seq<char>, u16>,
    offset: u16,
)
    requires
        instruction_well_formed(instruction),
    ensures
        instruction_bytes(instruction, labels, offset) matches Ok(bytes) ==> bytes.len() == 1
            + operand_width(instruction) && 1 <= bytes.len() <= 3,
{
}

/// In a well-formed program the second pass reaches every statement at
/// the offset that the first pass gave it.
pub proof fn lemma_passes_agree(program: Seq<StatementView>, labels: Map<Seq<char>, u16>, k: int)
    requires
        program_well_formed(program),
        0 <= k <= program.len(),
    ensures
        emitted(program, labels, k) matches Ok(bytes) ==> offset_at(bytes) == offset_after(
            program,
            k,
        ),
    decreases k,
{
    if k > 0 {
        lemma_passes_agree(program, labels, k - 1);
        match emitted(program, labels, k - 1) {
            Err(_) => {},
            Ok(bytes) => match program[k - 1] {
                StatementView::Label(_) => {},
                StatementView::Instruction(instruction) => {
                    lemma_emitted_width(instruction, labels, offset_at(bytes));
                    match instruction_bytes(instruction, labels, offset_at(bytes)) {
                        Err(_) => {},
                        Ok(chunk) => {
                            crate::assembler::assembly::lemma_offset_at(bytes, chunk);
                        },
                    }
                },
            },
        }
    }
}

/// The instruction that the listing shows at `offset`: the mnemonic and
/// the mode of the opcode there, with the operand bytes as a hexadecimal
/// number of their width.
pub open spec fn decoded(bytes: Seq<u8>, offset: int, mnemonic: Mnemonics, mode: AddressingMode)
    -> InstructionView {
    InstructionView {
        opcode: mnemonic,
        operand: OperandView {
            value: if mode.operand_width() == 0 {
                None
            } else if mode.operand_width() == 1 {
                Some(OperandValue::Number(NumberType::Hexadecimal8(bytes[offset + 1])))
            } else {
                Some(
                    OperandValue::Number(
                        NumberType::Hexadecimal16(operand_value(bytes, offset, mode)),
                    ),
                )
            },
            addressing_mode: mode,
        },
        position: Position(0, 0),
    }
}

/// The instructions that the listing of `bytes` shows from `offset` on.
pub open spec fn decoded_from(bytes: Seq<u8>, offset: int) -> Seq<StatementView>
    decreases bytes.len() - offset,
{
    if offset < 0 || offset >= bytes.len() {
        seq![]
    } else {
        match listed_at(bytes, offset) {
            None => seq![],
            Some((mnemonic, mode)) => {
                let statement = StatementView::Instruction(decoded(bytes, offset, mnemonic, mode));
                if mnemonic == Mnemonics::BRK {
                    seq![statement]
                } else {
                    seq![statement] + decoded_from(bytes, offset + 1 + mode.operand_width())
                }
            },
        }
    }
}

/// The offset behind the last instruction that the listing of `bytes`
/// shows from `offset` on: behind the first `BRK`, or the end of the
/// bytes.
pub open spec fn listed_end(bytes: Seq<u8>, offset: int) -> int
    decreases bytes.len() - offset,
{
    if offset < 0 || offset >= bytes.len() {
        offset
    } else {
        match listed_at(bytes, offset) {
            None => offset,
            Some((mnemonic, mode)) => if mnemonic == Mnemonics::BRK {
                offset + 1 + mode.operand_width()
            } else {
                listed_end(bytes, offset + 1 + mode.operand_width())
            },
        }
    }
}

/// The number that the operand of an instruction holds; 0 if it holds
/// none.
pub open spec fn operand_number(instruction: InstructionView) -> u16 {
    match instruction.operand.value {
        Some(OperandValue::Number(number)) => number.value() as u16,
        _ => 0,
    }
}

/// The listing has one line for each instruction that it shows, and the
/// text of the line is the text of that instruction.
pub proof fn lemma_listing_shows_decoded(bytes: Seq<u8>, offset: int)
    requires
        0 <= offset,
    ensures
        listing_from(bytes, offset) matches Ok(lines) ==> {
            let shown = decoded_from(bytes, offset);
            &&& lines.len() == shown.len()
            &&& forall|k: int|
                0 <= k < lines.len() ==> (#[trigger] shown[k] matches StatementView::Instruction(
                    instruction,
                ) && lines[k].text == instruction_text(
                    instruction.opcode,
                    instruction.operand.addressing_mode,
                    operand_number(instruction),
                ))
        },
    decreases bytes.len() - offset,
{
    if offset < bytes.len() {
        match listed_at(bytes, offset) {
            None => {},
            Some((mnemonic, mode)) => {
                if mnemonic != Mnemonics::BRK {
                    lemma_listing_shows_decoded(bytes, offset + 1 + mode.operand_width());
                }
            },
        }
    }
}

/// Whether no instruction of a program refers to a label.
pub open spec fn label_free(program: Seq<StatementView>) -> bool {
    forall|k: int|
        0 <= k < program.len() ==> (#[trigger] program[k] matches StatementView::Instruction(
            instruction,
        ) && !(instruction.operand.value matches Some(OperandValue::Label(_))))
}

/// The bytes of the first `k` statements of a program whose first
/// statement is an instruction without a label are the bytes of that
/// instruction, followed by those of the `k - 1` statements behind it.
pub proof fn lemma_emitted_first(
    first: InstructionView,
    rest: Seq<StatementView>,
    labels: Map<Seq<char>, u16>,
    k: int,
)
    requires
        !(first.operand.value matches Some(OperandValue::Label(_))),
        label_free(rest),
        1 <= k <= rest.len() + 1,
    ensures
        emitted(seq![StatementView::Instruction(first)] + rest, labels, k) == match instruction_bytes(
            first,
            labels,
            0,
        ) {
            Err(error) => Err(error),
            Ok(chunk) => match emitted(rest, labels, k - 1) {
                Err(error) => Err(error),
                Ok(bytes) => Ok(chunk + bytes),
            },
        },
    decreases k,
{
    let program = seq![StatementView::Instruction(first)] + rest;
    if k == 1 {
        assert(emitted(program, labels, 0) == Ok::<Seq<u8>, ErrorView>(seq![]));
        assert(program[0] == StatementView::Instruction(first));
        match instruction_bytes(first, labels, 0) {
            Err(_) => {},
            Ok(chunk) => {
                assert(Seq::<u8>::empty() + chunk == chunk + Seq::<u8>::empty());
            },
        }
    } else {
        lemma_emitted_first(first, rest, labels, k - 1);
        assert(program[k - 1] == rest[k - 2]);
        match instruction_bytes(first, labels, 0) {
            Err(_) => {},
            Ok(chunk) => match emitted(rest, labels, k - 2) {
                Err(_) => {},
                Ok(bytes) => match rest[k - 2] {
                    StatementView::Label(_) => {},
                    StatementView::Instruction(instruction) => {
                        match instruction_bytes(instruction, labels, offset_at(bytes)) {
                            Err(_) => {},
                            Ok(next) => {
                                assert((chunk + bytes) + next == chunk + (bytes + next));
                            },
                        }
                    },
                },
            },
        }
    }
}

/// Machine code that was listed and is assembled again is the same
/// machine code: the instructions that a listing shows assemble, under any
/// label table, to the very bytes that were listed, which are all the
/// bytes up to the end of the first `BRK`.
pub proof fn lemma_listing_reassembles(bytes: Seq<u8>, offset: int, labels: Map<Seq<char>, u16>)
    requires
        0 <= offset <= bytes.len(),
        listing_from(bytes, offset) is Ok,
    ensures
        label_free(decoded_from(bytes, offset)),
        offset <= listed_end(bytes, offset) <= bytes.len(),
        emitted(
            decoded_from(bytes, offset),
            labels,
            decoded_from(bytes, offset).len() as int,
        ) == Ok::<Seq<u8>, ErrorView>(bytes.subrange(offset, listed_end(bytes, offset))),
    decreases bytes.len() - offset,
{
    if offset < bytes.len() {
        let (mnemonic, mode) = listed_at(bytes, offset)->Some_0;
        let first = decoded(bytes, offset, mnemonic, mode);
        let next = offset + 1 + mode.operand_width();
        let chunk = bytes.subrange(offset, next);
        lemma_encode_decode(mnemonic, mode, bytes[offset]);
        assert(instruction_bytes(first, labels, 0) == Ok::<Seq<u8>, ErrorView>(chunk)) by {
            let found = instruction_bytes(first, labels, 0);
            assert(found is Ok);
            assert(found->Ok_0 =~= chunk);
        }
        if mnemonic == Mnemonics::BRK {
            let rest = Seq::<StatementView>::empty();
            assert(decoded_from(bytes, offset) == seq![StatementView::Instruction(first)] + rest);
            lemma_emitted_first(first, rest, labels, 1);
            assert(chunk + Seq::<u8>::empty() == chunk);
        } else {
            let rest = decoded_from(bytes, next);
            lemma_listing_reassembles(bytes, next, labels);
            lemma_emitted_first(first, rest, labels, rest.len() as int + 1);
            assert(chunk + bytes.subrange(next, listed_end(bytes, next)) == bytes.subrange(
                offset,
                listed_end(bytes, offset),
            ));
        }
    } else {
        assert(bytes.subrange(offset, offset) == Seq::<u8>::empty());
    }
}

/// What the second pass has emitted after `k` statements stays in front of
/// what it emits later.
pub proof fn lemma_emitted_prefix(
    program: Seq<StatementView>,
    labels: Map<Seq<char>, u16>,
    k: int,
    n: int,
)
    requires
        0 <= k <= n,
        emitted(program, labels, n) is Ok,
    ensures
        emitted(program, labels, k) matches Ok(bytes) && bytes.len() <= emitted(
            program,
            labels,
            n,
        )->Ok_0.len() && bytes == emitted(program, labels, n)->Ok_0.subrange(0, bytes.len() as int),
    decreases n - k,
{
    let all = emitted(program, labels, n)->Ok_0;
    if k < n {
        lemma_emitted_prefix(program, labels, k + 1, n);
        let longer = emitted(program, labels, k + 1)->Ok_0;
        let bytes = emitted(program, labels, k)->Ok_0;
        assert(bytes == longer.subrange(0, bytes.len() as int));
        assert(bytes == all.subrange(0, bytes.len() as int));
    } else {
        assert(all == all.subrange(0, all.len() as int));
    }
}

/// The machine code of a well-formed program can be listed from the start
/// of each of its instructions.
pub proof fn lemma_assembled_lists_from(
    program: Seq<StatementView>,
    labels: Map<Seq<char>, u16>,
    k: int,
    n: int,
)
    requires
        program_well_formed(program),
        0 <= k <= n <= program.len(),
        emitted(program, labels, n) is Ok,
    ensures
        emitted(program, labels, k) is Ok,
        listing_from(
            emitted(program, labels, n)->Ok_0,
            emitted(program, labels, k)->Ok_0.len() as int,
        ) is Ok,
    decreases n - k,
{
    let all = emitted(program, labels, n)->Ok_0;
    lemma_emitted_prefix(program, labels, k, n);
    if k < n {
        lemma_emitted_prefix(program, labels, k + 1, n);
        lemma_assembled_lists_from(program, labels, k + 1, n);
        let bytes = emitted(program, labels, k)->Ok_0;
        let longer = emitted(program, labels, k + 1)->Ok_0;
        match program[k] {
            StatementView::Label(_) => {},
            StatementView::Instruction(instruction) => {
                assert(statement_well_formed(program[k]));
                let chunk = instruction_bytes(instruction, labels, offset_at(bytes))->Ok_0;
                let found = operand_bytes(instruction, labels, offset_at(bytes))->Ok_0;
                let mode = found.1;
                assert(longer == bytes + chunk);
                assert(chunk == seq![encode(instruction.opcode, mode)->Some_0] + found.0);
                lemma_encode_decode(instruction.opcode, mode, chunk[0]);
                let offset = bytes.len() as int;
                assert(all[offset] == longer[offset]);
                assert(longer[offset] == chunk[0]);
                assert(found.0.len() == mode.operand_width());
                assert(listed_at(all, offset) == Some((instruction.opcode, mode)));
                assert(offset + 1 + mode.operand_width() == longer.len());
            },
        }
    }
}

/// The round trip. The machine code of a source text can be listed, and
/// the instructions that the listing shows, assembled again under any
/// label table, give back that machine code up to the end of its first
/// `BRK`, where a listing ends; without a `BRK`, all of it.
pub proof fn lemma_round_trip(source: Seq<char>, labels: Map<Seq<char>, u16>)
    requires
        assemble_source(source) is Ok,
    ensures
        ({
            let bytes = assemble_source(source)->Ok_0;
            let shown = decoded_from(bytes, 0);
            &&& listing_from(bytes, 0) is Ok
            &&& 0 <= listed_end(bytes, 0) <= bytes.len()
            &&& emitted(shown, labels, shown.len() as int) == Ok::<Seq<u8>, ErrorView>(
                bytes.subrange(0, listed_end(bytes, 0)),
            )
        }),
{
    let program = parse_source(source)->Ok_0;
    lemma_parse_well_formed(source);
    lemma_assembled_lists_from(program, label_table(program), 0, program.len() as int);
    let bytes = assemble_source(source)->Ok_0;
    lemma_listing_reassembles(bytes, 0, labels);
}

} // verus!
