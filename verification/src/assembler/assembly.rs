//! The assembler: two passes over a program.
//!
//! The first pass gives every label the offset of the statement after it,
//! counted in bytes from the start of the output. The second pass emits
//! every instruction: its opcode, then its operand. The output is meant to
//! be loaded at `ORG`, so a reference to a label is the label's offset
//! plus `ORG`, and for a branch the distance from the end of the branch to
//! the label. Offsets are kept within 16 bits.

use vstd::prelude::*;
use vstd::arithmetic::div_mod::{lemma_fundamental_div_mod, lemma_mod_multiples_vanish};
use crate::assembler::ast::{
    Instruction, InstructionView, NumberType, Operand, OperandData, OperandValue, Statement,
    StatementView,
};
use crate::assembler::error::{AssemblerError, AssemblerErrorKind, ErrorKind, ErrorView};
use crate::assembler::instruction::{encode, instruction_to_byte, AddressingMode};
use crate::assembler::parser::{parse_source, Parser};
use crate::assembler::table::Table;
use crate::assembler::tokenizer::lexer::Lexer;
use crate::emulator::memory::ORG;

verus! {

/// The number of operand bytes that the first pass counts for an
/// instruction: none without an operand; for a reference to a label, one
/// under a branch and two under any other mnemonic; else what the
/// addressing mode takes.
pub open spec fn operand_width(instruction: InstructionView) -> nat {
    match instruction.operand.value {
        None => 0,
        Some(OperandValue::Label(_)) => if instruction.opcode.is_branch() {
            1
        } else {
            2
        },
        Some(OperandValue::Number(_)) => instruction.operand.addressing_mode.operand_width(),
    }
}

/// The number of bytes that the first pass counts for a statement.
pub open spec fn statement_width(statement: StatementView) -> nat {
    match statement {
        StatementView::Label(_) => 0,
        StatementView::Instruction(instruction) => 1 + operand_width(instruction),
    }
}

/// `offset` moved on by `width` bytes, within 16 bits.
pub open spec fn advanced(offset: u16, width: nat) -> u16 {
    ((offset as int + width as int) % 0x10000) as u16
}

/// The offset that the first pass has reached after `k` statements.
pub open spec fn offset_after(program: Seq<StatementView>, k: int) -> u16
    decreases k,
{
    if k <= 0 {
        0
    } else {
        advanced(offset_after(program, k - 1), statement_width(program[k - 1]))
    }
}

/// The labels that the first `k` statements define, each with the offset
/// that the first pass had reached at its last definition.
pub open spec fn labels_after(program: Seq<StatementView>, k: int) -> Map<Seq<char>, u16>
    decreases k,
{
    if k <= 0 {
        Map::empty()
    } else {
        match program[k - 1] {
            StatementView::Label(name) => labels_after(program, k - 1).insert(
                name,
                offset_after(program, k - 1),
            ),
            StatementView::Instruction(_) => labels_after(program, k - 1),
        }
    }
}

/// The label table of a program.
pub open spec fn label_table(program: Seq<StatementView>) -> Map<Seq<char>, u16> {
    labels_after(program, program.len() as int)
}

/// The operand byte of a branch at `offset` to `target`: the distance from
/// the end of the two bytes of the branch, as a signed byte.
pub open spec fn displacement(target: u16, offset: u16) -> u8 {
    ((target as int - offset as int - 2) % 0x100) as u8
}

/// The address of the offset `target` in a program that is loaded at
/// `ORG`.
pub open spec fn absolute(target: u16) -> u16 {
    ((target as int + ORG as int) % 0x10000) as u16
}

/// The two bytes of a word, low byte first.
pub open spec fn word_bytes(word: u16) -> Seq<u8> {
    seq![(word as int % 0x100) as u8, (word as int / 0x100) as u8]
}

/// The complaint about a reference to a label that is not defined.
pub open spec fn invalid_label(instruction: InstructionView, name: Seq<char>) -> ErrorView {
    ErrorView { kind: ErrorKind::InvalidLabel(name), position: instruction.position }
}

/// The operand bytes of an instruction at `offset`, and its addressing
/// mode, which without an operand is `IMPACC`.
pub open spec fn operand_bytes(
    instruction: InstructionView,
    labels: Map<Seq<char>, u16>,
    offset: u16,
) -> Result<(Seq<u8>, AddressingMode), ErrorView> {
    match instruction.operand.value {
        None => Ok((seq![], AddressingMode::IMPACC)),
        Some(OperandValue::Number(number)) => Ok(
            (number.bytes(), instruction.operand.addressing_mode),
        ),
        Some(OperandValue::Label(name)) => if !labels.contains_key(name) {
            Err(invalid_label(instruction, name))
        } else if instruction.opcode.is_branch() {
            Ok((seq![displacement(labels[name], offset)], instruction.operand.addressing_mode))
        } else {
            Ok((word_bytes(absolute(labels[name])), instruction.operand.addressing_mode))
        },
    }
}

/// The bytes of an instruction at `offset`: the opcode, then the operand.
pub open spec fn instruction_bytes(
    instruction: InstructionView,
    labels: Map<Seq<char>, u16>,
    offset: u16,
) -> Result<Seq<u8>, ErrorView> {
    match operand_bytes(instruction, labels, offset) {
        Err(error) => Err(error),
        Ok((bytes, mode)) => match encode(instruction.opcode, mode) {
            Some(opcode) => Ok(seq![opcode] + bytes),
            None => Err(
                ErrorView {
                    kind: ErrorKind::InvalidInstruction(instruction.opcode.name(), mode),
                    position: instruction.position,
                },
            ),
        },
    }
}

/// The offset that the second pass has reached when it has written
/// `bytes`.
pub open spec fn offset_at(bytes: Seq<u8>) -> u16 {
    (bytes.len() % 0x10000) as u16
}

/// What the second pass emits for the first `k` statements, or the first
/// error among them.
pub open spec fn emitted(program: Seq<StatementView>, labels: Map<Seq<char>, u16>, k: int)
    -> Result<Seq<u8>, ErrorView>
    decreases k,
{
    if k <= 0 {
        Ok(seq![])
    } else {
        match emitted(program, labels, k - 1) {
            Err(error) => Err(error),
            Ok(bytes) => match program[k - 1] {
                StatementView::Label(_) => Ok(bytes),
                StatementView::Instruction(instruction) => match instruction_bytes(
                    instruction,
                    labels,
                    offset_at(bytes),
                ) {
                    Err(error) => Err(error),
                    Ok(chunk) => Ok(bytes + chunk),
                },
            },
        }
    }
}

/// The machine code of a program.
pub open spec fn assembled(program: Seq<StatementView>) -> Result<Seq<u8>, ErrorView> {
    emitted(program, label_table(program), program.len() as int)
}

/// The machine code of a source text.
pub open spec fn assemble_source(source: Seq<char>) -> Result<Seq<u8>, ErrorView> {
    match parse_source(source) {
        Err(error) => Err(error),
        Ok(program) => assembled(program),
    }
}

/// A result with its bytes and its error as what they stand for.
pub open spec fn bytes_result_view(result: Result<Vec<u8>, AssemblerError>) -> Result<
    Seq<u8>,
    ErrorView,
> {
    match result {
        Ok(bytes) => Ok(bytes@),
        Err(error) => Err(error@),
    }
}

/// Writing `chunk` behind `bytes` moves the offset on by its length.
pub proof fn lemma_offset_at(bytes: Seq<u8>, chunk: Seq<u8>)
    ensures
        offset_at(bytes + chunk) == advanced(offset_at(bytes), chunk.len()),
{
    let n = bytes.len() as int;
    let c = chunk.len() as int;
    lemma_fundamental_div_mod(n, 0x10000);
    lemma_mod_multiples_vanish(n / 0x10000, n % 0x10000 + c, 0x10000);
}

/// An error of the second pass stays the outcome, whatever follows.
pub proof fn lemma_emitted_error(
    program: Seq<StatementView>,
    labels: Map<Seq<char>, u16>,
    k: int,
    n: int,
)
    requires
        0 <= k <= n,
        emitted(program, labels, k) is Err,
    ensures
        emitted(program, labels, n) == emitted(program, labels, k),
    decreases n - k,
{
    if k < n {
        lemma_emitted_error(program, labels, k, n - 1);
    }
}

/// The assembler of one source text.
pub struct Assembler<'a> {
    pub source: &'a str,
    pointer: u16,
    labels: Table<u16>,
}

impl<'a> Assembler<'a> {
    /// The characters of the source text.
    pub closed spec fn text(&self) -> Seq<char> {
        self.source@
    }

    /// The offset that the pass at work has reached.
    pub closed spec fn pointer(&self) -> u16 {
        self.pointer
    }

    /// The label table.
    pub closed spec fn labels(&self) -> Map<Seq<char>, u16> {
        self.labels.map()
    }

    /// An assembler for `source`, at offset 0 and without labels.
    pub fn new(source: &'a str) -> (assembler: Assembler<'a>)
        ensures
            assembler.text() == source@,
            assembler.pointer() == 0,
            assembler.labels() == Map::<Seq<char>, u16>::empty(),
    {
        Assembler { source, pointer: 0, labels: Table::new() }
    }

    /// Assembles the source: parses it, collects the labels and emits the
    /// bytes. The first error ends the work. Whatever an earlier run left
    /// behind is forgotten: a source that parses leaves the assembler with
    /// its label table and, if the second pass succeeds, at the offset
    /// behind its last byte; a source that does not parse leaves the
    /// assembler as it was.
    pub fn assemble(&mut self) -> (result: Result<Vec<u8>, AssemblerError>)
        ensures
            final(self).text() == old(self).text(),
            bytes_result_view(result) == assemble_source(old(self).text()),
            match parse_source(old(self).text()) {
                Ok(program) => final(self).labels() == label_table(program),
                Err(_) => final(self).labels() == old(self).labels() && final(self).pointer()
                    == old(self).pointer(),
            },
            result matches Ok(bytes) ==> final(self).pointer() == offset_at(bytes@),
    {
        let lexer = Lexer::new(self.source);
        let mut parser = Parser::new(lexer);
        let program = parser.parse()?;
        let ghost statements = program@;
        let count = program.0.len();

        self.pointer = 0;
        self.labels = Table::new();
        let mut k: usize = 0;
        while k < count
            invariant
                k <= count == program.0.len(),
                statements == program@,
                parse_source(old(self).text()) == Ok::<Seq<StatementView>, ErrorView>(statements),
                self.text() == old(self).text(),
                self.pointer() == offset_after(statements, k as int),
                self.labels() == labels_after(statements, k as int),
            decreases count - k,
        {
            self.preprocess_statement(&program.0[k]);
            k = k + 1;
        }

        self.pointer = 0;
        let mut bytes: Vec<u8> = Vec::new();
        let mut k: usize = 0;
        while k < count
            invariant
                k <= count == program.0.len(),
                statements == program@,
                parse_source(old(self).text()) == Ok::<Seq<StatementView>, ErrorView>(statements),
                self.text() == old(self).text(),
                self.labels() == label_table(statements),
                emitted(statements, label_table(statements), k as int) == Ok::<
                    Seq<u8>,
                    ErrorView,
                >(bytes@),
                self.pointer() == offset_at(bytes@),
            decreases count - k,
        {
            match &program.0[k] {
                Statement::Instruction(instruction) => {
                    match self.assemble_instruction(instruction) {
                        Ok(mut chunk) => {
                            proof {
                                lemma_offset_at(bytes@, chunk@);
                            }
                            bytes.append(&mut chunk);
                        },
                        Err(error) => {
                            proof {
                                assert(statements[k as int] == StatementView::Instruction(
                                    instruction@,
                                ));
                                assert(emitted(statements, label_table(statements), k + 1) == Err::<
                                    Seq<u8>,
                                    ErrorView,
                                >(error@));
                                lemma_emitted_error(
                                    statements,
                                    label_table(statements),
                                    k + 1,
                                    count as int,
                                );
                            }
                            return Err(error);
                        },
                    }
                },
                Statement::Label(_) => {},
            }
            k = k + 1;
        }
        Ok(bytes)
    }

    /// The second pass on one instruction: its bytes, between one and
    /// three, by which the offset moves on.
    pub fn assemble_instruction(&mut self, instruction: &Instruction) -> (result: Result<
        Vec<u8>,
        AssemblerError,
    >)
        ensures
            final(self).text() == old(self).text(),
            final(self).labels() == old(self).labels(),
            bytes_result_view(result) == instruction_bytes(
                instruction@,
                old(self).labels(),
                old(self).pointer(),
            ),
            result matches Ok(bytes) ==> 1 <= bytes@.len() <= 3 && final(self).pointer()
                == advanced(old(self).pointer(), bytes@.len()),
    {
        let (operand, mode) = self.assemble_operand_data(instruction)?;
        let normal = Instruction {
            opcode: instruction.opcode,
            operand: Operand { value: None, addressing_mode: mode },
            position: instruction.position,
        };
        let opcode = instruction_to_byte(&normal)?;
        let mut bytes: Vec<u8> = Vec::new();
        bytes.push(opcode);
        let mut operand = operand;
        bytes.append(&mut operand);
        let width = bytes.len();
        assert(width <= 3);
        self.pointer = self.pointer.wrapping_add(width as u16);
        Ok(bytes)
    }

    /// The first pass on one statement: a label is given the offset, an
    /// instruction moves the offset on by its width.
    pub fn preprocess_statement(&mut self, statement: &Statement)
        ensures
            final(self).text() == old(self).text(),
            final(self).pointer() == advanced(old(self).pointer(), statement_width(statement@)),
            final(self).labels() == match statement@ {
                StatementView::Label(name) => old(self).labels().insert(name, old(self).pointer()),
                StatementView::Instruction(_) => old(self).labels(),
            },
    {
        match statement {
            Statement::Instruction(instruction) => {
                self.pointer = self.pointer.wrapping_add(1);
                self.preprocess_operand(instruction);
            },
            Statement::Label(label) => {
                self.labels.insert(label.clone(), self.pointer);
            },
        }
    }

    /// The first pass on the operand of an instruction.
    pub fn preprocess_operand(&mut self, instruction: &Instruction)
        ensures
            final(self).text() == old(self).text(),
            final(self).labels() == old(self).labels(),
            final(self).pointer() == advanced(old(self).pointer(), operand_width(instruction@)),
    {
        match &instruction.operand.value {
            None => {},
            Some(OperandData::Number(_)) => match instruction.operand.addressing_mode {
                AddressingMode::IMPACC => {},
                AddressingMode::ABS | AddressingMode::ABX | AddressingMode::ABY
                | AddressingMode::IND => {
                    self.pointer = self.pointer.wrapping_add(2);
                },
                _ => {
                    self.pointer = self.pointer.wrapping_add(1);
                },
            },
            Some(OperandData::Label(_)) => {
                if instruction.opcode.is_branch() {
                    self.pointer = self.pointer.wrapping_add(1);
                } else {
                    self.pointer = self.pointer.wrapping_add(2);
                }
            },
        }
    }

    /// The operand bytes of an instruction at the offset that the second
    /// pass has reached, and the addressing mode under which the opcode is
    /// looked up.
    pub fn assemble_operand_data(&self, instruction: &Instruction) -> (result: Result<
        (Vec<u8>, AddressingMode),
        AssemblerError,
    >)
        ensures
            match operand_bytes(instruction@, self.labels(), self.pointer()) {
                Ok((bytes, mode)) => result is Ok && result->Ok_0.0@ == bytes && result->Ok_0.1
                    == mode,
                Err(error) => result is Err && result->Err_0@ == error,
            },
    {
        let value = match &instruction.operand.value {
            Some(value) => value,
            None => {
                return Ok((Vec::new(), AddressingMode::IMPACC));
            },
        };
        let mut bytes: Vec<u8> = Vec::new();
        match value {
            OperandData::Number(number) => match number {
                NumberType::Decimal8(value) | NumberType::Hexadecimal8(value) => {
                    bytes.push(*value);
                },
                NumberType::Decimal16(value) | NumberType::Hexadecimal16(value) => {
                    bytes.push((*value % 0x100) as u8);
                    bytes.push((*value / 0x100) as u8);
                },
            },
            OperandData::Label(label) => match self.labels.get(label) {
                Some(address) => {
                    if instruction.opcode.is_branch() {
                        let relative_address = address.wrapping_sub(self.pointer).wrapping_sub(2)
                            % 0x100;
                        bytes.push(relative_address as u8);
                    } else {
                        let absolute_address = address.wrapping_add(ORG);
                        bytes.push((absolute_address % 0x100) as u8);
                        bytes.push((absolute_address / 0x100) as u8);
                    }
                },
                None => {
                    return Err(
                        AssemblerError::new(
                            AssemblerErrorKind::InvalidLabel(label.clone()),
                            instruction.position,
                        ),
                    );
                },
            },
        }
        Ok((bytes, instruction.operand.addressing_mode))
    }
}

} // verus!
