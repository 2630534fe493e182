use mos6502::assembler::tokenizer::lexer::Lexer;
use mos6502::assembler::tokenizer::{Radix, Register, TokenKind, Width};
use mos6502::assembler::parser::Parser;
use mos6502::assembler::{
    byte_to_opcode, disassemble, instruction_to_byte, AddressingMode, Assembler, AssemblerError,
    AssemblerErrorKind, Instruction, Mnemonics, NumberType, Operand, OperandData, Position,
    Statement,
};
use mos6502::text::{hex_digit, push_decimal, push_hex2, push_hex4, push_quoted};

fn lines(bytes: &[u8]) -> Vec<(usize, String, String)> {
    disassemble(bytes).unwrap()
}

#[test]
fn disassemble_every_mode() {
    let bytes = [
        0x0A, 0xA9, 0x0A, 0xA5, 0x10, 0xB5, 0x10, 0xB6, 0x10, 0xAD, 0x34, 0x12, 0xBD, 0x34, 0x12,
        0xB9, 0x34, 0x12, 0x6C, 0x34, 0x12, 0xA1, 0x10, 0xB1, 0x10, 0xD0, 0xFE, 0x00, 0xEA,
    ];
    let found = lines(&bytes);
    let expected = vec![
        (0, "0A      ", "ASL"),
        (1, "A9 0A   ", "LDA #$0A"),
        (3, "A5 10   ", "LDA $10"),
        (5, "B5 10   ", "LDA $10,X"),
        (7, "B6 10   ", "LDX $10,Y"),
        (9, "AD 34 12", "LDA $1234"),
        (12, "BD 34 12", "LDA $1234,X"),
        (15, "B9 34 12", "LDA $1234,Y"),
        (18, "6C 34 12", "JMP ($1234)"),
        (21, "A1 10   ", "LDA ($10,X)"),
        (23, "B1 10   ", "LDA ($10),Y"),
        (25, "D0 FE   ", "BNE $FE"),
        (27, "00      ", "BRK"),
    ];
    assert_eq!(found.len(), expected.len());
    for (line, want) in found.iter().zip(expected.iter()) {
        assert_eq!(line.0, want.0);
        assert_eq!(line.1, want.1);
        assert_eq!(line.2, want.2);
    }
}

#[test]
fn disassemble_empty_and_without_brk() {
    assert_eq!(lines(&[]).len(), 0);
    let found = lines(&[0xEA, 0xEA]);
    assert_eq!(found.len(), 2);
    assert_eq!(found[1], (1, "EA      ".to_string(), "NOP".to_string()));
}

#[test]
fn disassemble_invalid_opcode() {
    let error = disassemble(&[0xEA, 0x02]).unwrap_err();
    assert!(matches!(error.kind, AssemblerErrorKind::InvalidOpcode(0x02)));
    assert_eq!(error.position, Position(0, 0));
    let error = disassemble(&[0xAD, 0x34]).unwrap_err();
    assert!(matches!(error.kind, AssemblerErrorKind::InvalidOpcode(0xAD)));
    let error = byte_to_opcode(0xFF).unwrap_err();
    assert!(matches!(error.kind, AssemblerErrorKind::InvalidOpcode(0xFF)));
}

#[test]
fn opcode_table_is_its_own_inverse() {
    let mut count = 0;
    for byte in 0..=255u8 {
        if let Ok((mnemonic, mode)) = byte_to_opcode(byte) {
            count += 1;
            let instruction = Instruction {
                opcode: mnemonic,
                operand: Operand { value: None, addressing_mode: mode },
                position: Position(1, 1),
            };
            assert_eq!(instruction_to_byte(&instruction).unwrap(), byte);
        }
    }
    assert_eq!(count, 151);
    assert_eq!(byte_to_opcode(0x69).unwrap(), (Mnemonics::ADC, AddressingMode::IMM));
    assert_eq!(byte_to_opcode(0x4C).unwrap(), (Mnemonics::JMP, AddressingMode::ABS));
    assert_eq!(byte_to_opcode(0x90).unwrap(), (Mnemonics::BCC, AddressingMode::RELZPG));
}

#[test]
fn mnemonic_names() {
    assert_eq!(Mnemonics::from_name("LDA"), Some(Mnemonics::LDA));
    assert_eq!(Mnemonics::from_name("TYA"), Some(Mnemonics::TYA));
    assert_eq!(Mnemonics::from_name("lda"), None);
    assert_eq!(Mnemonics::from_name("LDAX"), None);
    assert_eq!(Mnemonics::from_name(""), None);
    assert_eq!(Mnemonics::ROR.to_string(), "ROR");
    assert!(Mnemonics::BVS.is_branch());
    assert!(!Mnemonics::JMP.is_branch());
}

#[test]
fn listing_assembles_to_the_bytes_that_were_listed() {
    let source = "start:\nLDX #$00\nloop:\nINX\nSTX $0200\nLDA ($10),Y\nCPX #10\nBNE loop\nJMP start\nLDA 300,X\nBRK\n";
    let bytes = Assembler::new(source).assemble().unwrap();
    let listing = lines(&bytes);
    let text: Vec<String> = listing.iter().map(|line| line.2.clone()).collect();
    let text = text.join("\n");
    let again = Assembler::new(&text).assemble().unwrap();
    assert_eq!(again, bytes);
    let mut offset = 0;
    for line in &listing {
        assert_eq!(line.0, offset);
        offset += (line.1.trim_end().len() + 1) / 3;
    }
    assert_eq!(offset, bytes.len());
}

#[test]
fn lexer_tokens_and_positions() {
    let mut lexer = Lexer::new("LDA #$0a ; load\n  STA 300,X\n$ define Y");
    let mut seen = Vec::new();
    loop {
        let token = lexer.next_token().unwrap();
        let last = matches!(token.kind, TokenKind::Eof);
        seen.push(token);
        if last {
            break;
        }
    }
    let places: Vec<Position> = seen.iter().map(|token| token.position).collect();
    assert_eq!(
        places,
        vec![
            Position(1, 1),
            Position(1, 5),
            Position(1, 6),
            Position(1, 16),
            Position(2, 3),
            Position(2, 7),
            Position(2, 10),
            Position(2, 11),
            Position(2, 12),
            Position(3, 1),
            Position(3, 3),
            Position(3, 10),
            Position(3, 11),
        ]
    );
    assert!(matches!(&seen[0].kind, TokenKind::Identifier(text) if text == "LDA"));
    assert!(matches!(seen[1].kind, TokenKind::Hash));
    assert!(
        matches!(&seen[2].kind, TokenKind::Number(Radix::Hexadecimal, text, Width::Eight) if text == "0a")
    );
    assert!(matches!(seen[3].kind, TokenKind::Newline));
    assert!(
        matches!(&seen[5].kind, TokenKind::Number(Radix::Decimal, text, Width::Sixteen) if text == "300")
    );
    assert!(matches!(seen[6].kind, TokenKind::Comma));
    assert!(matches!(seen[7].kind, TokenKind::Register(Register::X)));
    assert!(matches!(seen[9].kind, TokenKind::Dollar));
    assert!(matches!(&seen[10].kind, TokenKind::Directive(text) if text == "define"));
    assert!(matches!(seen[11].kind, TokenKind::Register(Register::Y)));
    assert!(matches!(lexer.next_token().unwrap().kind, TokenKind::Eof));
    lexer.reset();
    assert!(matches!(&lexer.next_token().unwrap().kind, TokenKind::Identifier(text) if text == "LDA"));
}

#[test]
fn lexer_number_widths() {
    for (text, width) in [
        ("255", Some(Width::Eight)),
        ("256", Some(Width::Sixteen)),
        ("65535", Some(Width::Sixteen)),
        ("65536", None),
        ("0007", Some(Width::Eight)),
        ("$F", Some(Width::Eight)),
        ("$FF", Some(Width::Eight)),
        ("$0FF", Some(Width::Sixteen)),
        ("$FFFF", Some(Width::Sixteen)),
        ("$10000", None),
        ("12A", None),
        ("99999999999999999999999999", None),
    ] {
        let mut lexer = Lexer::new(text);
        match (lexer.next_token(), width) {
            (Ok(token), Some(width)) => {
                assert!(matches!(token.kind, TokenKind::Number(_, _, found) if found == width))
            }
            (Err(error), None) => {
                assert!(matches!(error.kind, AssemblerErrorKind::InvalidNumber));
                assert_eq!(error.position, Position(1, 1));
            }
            (found, _) => panic!("{}: {:?}", text, found),
        }
    }
    let (tokens, error) = Lexer::new("NOP\n~").tokenize();
    assert_eq!(tokens.len(), 2);
    assert!(matches!(error.unwrap().kind, AssemblerErrorKind::IllegalCharacter('~')));
}

#[test]
fn parser_statements() {
    let mut parser = Parser::new(Lexer::new("here:\n  LDA ($20,X)\n  BEQ here\n  JSR here\n  RTS"));
    let program = parser.parse().unwrap();
    assert_eq!(program.0.len(), 5);
    assert!(matches!(&program.0[0], Statement::Label(name) if name == "here"));
    match &program.0[1] {
        Statement::Instruction(instruction) => {
            assert_eq!(instruction.opcode, Mnemonics::LDA);
            assert_eq!(instruction.position, Position(2, 3));
            assert_eq!(instruction.operand.addressing_mode, AddressingMode::IDX);
            assert!(matches!(
                instruction.operand.value,
                Some(OperandData::Number(NumberType::Hexadecimal8(0x20)))
            ));
        }
        other => panic!("{:?}", other),
    }
    match &program.0[2] {
        Statement::Instruction(instruction) => {
            assert_eq!(instruction.operand.addressing_mode, AddressingMode::RELZPG);
            assert!(matches!(&instruction.operand.value, Some(OperandData::Label(name)) if name == "here"));
        }
        other => panic!("{:?}", other),
    }
    match &program.0[3] {
        Statement::Instruction(instruction) => {
            assert_eq!(instruction.operand.addressing_mode, AddressingMode::ABS);
        }
        other => panic!("{:?}", other),
    }
    match &program.0[4] {
        Statement::Instruction(instruction) => {
            assert_eq!(instruction.operand.addressing_mode, AddressingMode::IMPACC);
            assert!(instruction.operand.value.is_none());
        }
        other => panic!("{:?}", other),
    }
}

#[test]
fn parser_rejects_numbers_of_the_wrong_width() {
    for source in ["JMP ($10)", "LDA ($1234,X)", "LDA ($1234),Y", "LDA #256", "LDA (", "LDA ($10", "LDA ($10,Y)", "LDA ($10),X", "LDA )"] {
        let error = Assembler::new(source).assemble().unwrap_err();
        assert!(matches!(error.kind, AssemblerErrorKind::InvalidOperand(_)), "{}", source);
    }
}

#[test]
fn two_passes_give_forward_and_backward_labels_their_offsets() {
    let bytes = Assembler::new("JMP last\nfirst:\nJMP first\nlast:\nBEQ first\nBEQ last\n")
        .assemble()
        .unwrap();
    assert_eq!(bytes, vec![0x4C, 0x06, 0x80, 0x4C, 0x03, 0x80, 0xF0, 0xFB, 0xF0, 0xFC]);
}

#[test]
fn later_definitions_replace_earlier_ones() {
    let bytes = Assembler::new("define V $01\ndefine V $02\nLDA V\nx1:\nNOP\nx1:\nJMP x1")
        .assemble()
        .unwrap();
    assert_eq!(bytes, vec![0xA5, 0x02, 0xEA, 0x4C, 0x03, 0x80]);
    let bytes = Assembler::new("define target far\nBNE target\nJMP target\nfar:").assemble().unwrap();
    assert_eq!(bytes, vec![0xD0, 0x03, 0x4C, 0x05, 0x80]);
}

#[test]
fn assembling_twice_gives_the_same_bytes() {
    let mut assembler = Assembler::new("a:\nNOP\nJMP a");
    let first = assembler.assemble().unwrap();
    let second = assembler.assemble().unwrap();
    assert_eq!(first, second);
    assert_eq!(first, vec![0xEA, 0x4C, 0x00, 0x80]);
}

#[test]
fn error_messages() {
    let message = |kind: AssemblerErrorKind| AssemblerError::new(kind, Position(3, 14)).to_string();
    assert_eq!(
        message(AssemblerErrorKind::IllegalCharacter('^')),
        "Illegal character: ^ at line 3, column 14"
    );
    assert_eq!(message(AssemblerErrorKind::InvalidNumber), "Invalid number at line 3, column 14");
    assert_eq!(
        message(AssemblerErrorKind::UnexpectedToken {
            expected: "newline".to_string(),
            found: "NOP".to_string()
        }),
        "Unexpected token: expected \"newline\", found \"NOP\" at line 3, column 14"
    );
    assert_eq!(message(AssemblerErrorKind::UnexpectedToken2), "Unexpected token at line 3, column 14");
    assert_eq!(
        message(AssemblerErrorKind::InvalidOperand("$1234".to_string())),
        "Invalid operand: $1234 at line 3, column 14"
    );
    assert_eq!(
        message(AssemblerErrorKind::InvalidLabel("loop".to_string())),
        "Invalid label: loop at line 3, column 14"
    );
    assert_eq!(
        message(AssemblerErrorKind::InvalidInstruction("LDA".to_string(), AddressingMode::IND)),
        "Invalid instruction: mnemonic \"LDA\" does not support IND addressing mode at line 3, column 14"
    );
    assert_eq!(
        message(AssemblerErrorKind::InvalidMnemonic("FOO".to_string())),
        "Invalid mnemonic: \"FOO\" at line 3, column 14"
    );
    assert_eq!(message(AssemblerErrorKind::InvalidOpcode(255)), "Invalid opcode: 255 at line 3, column 14");
}

#[test]
fn numerals() {
    let mut text = String::new();
    push_hex2(&mut text, 0x0F);
    text.push(' ');
    push_hex4(&mut text, 0xBEEF);
    text.push(' ');
    push_decimal(&mut text, 0);
    text.push(' ');
    push_decimal(&mut text, 65535);
    text.push(' ');
    push_quoted(&mut text, "q");
    assert_eq!(text, "0F BEEF 0 65535 \"q\"");
    assert_eq!(hex_digit(9), '9');
    assert_eq!(hex_digit(10), 'A');
}
