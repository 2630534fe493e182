use mos6502::assembler::{Assembler, AssemblerErrorKind, Position};

#[test]
fn test_assemble_instruction() {
    let s = r#"
LDX #$01
STX $0000
"#;

    let src = Assembler::new(s).assemble().unwrap();
    assert_eq!(src, vec![0xA2, 0x01, 0x8E, 0x00, 0x00]);
}

#[test]
fn test_assemble_label() {
    let s = r#"
LDA #$02
CMP #$01
BNE FOO
LDA #$01
STA $00
BRK

FOO:
    LDA #$01
    STA $01
    BRK
        "#;

    let src = Assembler::new(s).assemble().unwrap();
    assert_eq!(
        src,
        vec![
            0xA9, 0x02, // LDA #$02
            0xC9, 0x01, // CMP #$01
            0xD0, 0x05, // BNE FOO
            0xA9, 0x01, // LDA #$01
            0x85, 0x00, // STA $00
            0x00, // BRK
            0xA9, 0x01, // LDA #$01
            0x85, 0x01, // STA $01
            0x00, // BRK
        ]
    );
}

#[test]
fn assemble_define_and_backward_branch() {
    let s = "LDX #$00\nLDY #$00\n\ndefine STA_ADDR $0200,Y\n\nfirstloop:\n    TXA\n    STA STA_ADDR\n    PHA\n    INX\n    INY\n    CPY #$10\n    BNE firstloop ; back\n";
    let bytes = Assembler::new(s).assemble().unwrap();
    assert_eq!(
        bytes,
        vec![0xA2, 0x00, 0xA0, 0x00, 0x8A, 0x99, 0x00, 0x02, 0x48, 0xE8, 0xC8, 0xC0, 0x10, 0xD0, 0xF5]
    );
}

#[test]
fn assemble_absolute_label() {
    let bytes = Assembler::new("JMP end\nNOP\nend:\nBRK").assemble().unwrap();
    assert_eq!(bytes, vec![0x4C, 0x04, 0x80, 0xEA, 0x00]);
}

#[test]
fn assemble_every_operand_shape() {
    let s = "LDA #10\nLDA $10\nLDA $10,X\nLDX $10,Y\nLDA $1234\nLDA $1234,X\nLDA $1234,Y\nJMP ($1234)\nLDA ($10,X)\nLDA ($10),Y\nLDA 300\nASL\n";
    let bytes = Assembler::new(s).assemble().unwrap();
    assert_eq!(
        bytes,
        vec![
            0xA9, 0x0A, 0xA5, 0x10, 0xB5, 0x10, 0xB6, 0x10, 0xAD, 0x34, 0x12, 0xBD, 0x34, 0x12, 0xB9,
            0x34, 0x12, 0x6C, 0x34, 0x12, 0xA1, 0x10, 0xB1, 0x10, 0xAD, 0x2C, 0x01, 0x0A,
        ]
    );
}

#[test]
fn error_illegal_character() {
    let error = Assembler::new("LDA #$01\n  ^").assemble().unwrap_err();
    assert!(matches!(error.kind, AssemblerErrorKind::IllegalCharacter('^')));
    assert_eq!(error.position, Position(2, 3));
}

#[test]
fn error_invalid_number() {
    let error = Assembler::new("LDA 65536").assemble().unwrap_err();
    assert!(matches!(error.kind, AssemblerErrorKind::InvalidNumber));
    assert_eq!(error.position, Position(1, 5));
    let error = Assembler::new("LDA $12G").assemble().unwrap_err();
    assert!(matches!(error.kind, AssemblerErrorKind::InvalidNumber));
    let error = Assembler::new("LDA $12345").assemble().unwrap_err();
    assert!(matches!(error.kind, AssemblerErrorKind::InvalidNumber));
}

#[test]
fn error_invalid_mnemonic() {
    let error = Assembler::new("NOP\nFOO #$01").assemble().unwrap_err();
    match error.kind {
        AssemblerErrorKind::InvalidMnemonic(text) => assert_eq!(text, "FOO"),
        other => panic!("{:?}", other),
    }
    assert_eq!(error.position, Position(2, 1));
}

#[test]
fn error_invalid_operand() {
    let error = Assembler::new("LDA #$1234").assemble().unwrap_err();
    match error.kind {
        AssemblerErrorKind::InvalidOperand(text) => assert_eq!(text, "$1234"),
        other => panic!("{:?}", other),
    }
    assert_eq!(error.position, Position(1, 6));
    let error = Assembler::new("LDA $10,Z").assemble().unwrap_err();
    match error.kind {
        AssemblerErrorKind::InvalidOperand(text) => assert_eq!(text, "Z"),
        other => panic!("{:?}", other),
    }
}

#[test]
fn error_invalid_label() {
    let error = Assembler::new("BNE nowhere").assemble().unwrap_err();
    match error.kind {
        AssemblerErrorKind::InvalidLabel(text) => assert_eq!(text, "nowhere"),
        other => panic!("{:?}", other),
    }
    assert_eq!(error.position, Position(1, 1));
}

#[test]
fn error_invalid_instruction() {
    let error = Assembler::new("LDA").assemble().unwrap_err();
    match error.kind {
        AssemblerErrorKind::InvalidInstruction(text, mode) => {
            assert_eq!(text, "LDA");
            assert_eq!(mode, mos6502::assembler::AddressingMode::IMPACC);
        }
        other => panic!("{:?}", other),
    }
}

#[test]
fn error_unexpected_token() {
    let error = Assembler::new("LDA #$01 NOP").assemble().unwrap_err();
    match error.kind {
        AssemblerErrorKind::UnexpectedToken { expected, found } => {
            assert_eq!(expected, "newline");
            assert_eq!(found, "NOP");
        }
        other => panic!("{:?}", other),
    }
    assert_eq!(error.position, Position(1, 10));
    let error = Assembler::new("define #").assemble().unwrap_err();
    match error.kind {
        AssemblerErrorKind::UnexpectedToken { expected, found } => {
            assert_eq!(expected, "identifier");
            assert_eq!(found, "#");
        }
        other => panic!("{:?}", other),
    }
    let error = Assembler::new(", LDA").assemble().unwrap_err();
    assert!(matches!(error.kind, AssemblerErrorKind::UnexpectedToken2));
}
