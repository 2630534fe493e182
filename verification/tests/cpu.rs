use mos6502::emulator::addressing_mode::AddressingMode;
use mos6502::emulator::cpu::{Cpu, NoneDebuggerCpu};
use mos6502::emulator::memory::{Memory, MemoryBus};

fn setup() -> NoneDebuggerCpu<Memory> {
    Cpu::default()
}

#[test]
fn test_stack() {
    let mut cpu = setup();
    cpu.stack_push(0x01);
    /*
    Stack Push: [0x01]
    SP: 0xFF (0x00 - 0x01 = 0xFF)

    Stack Pop: [0x01]
    SP: 0x00
    */
    assert_eq!(cpu.registers.sp, 0xFF);
    assert_eq!(cpu.stack_pop(), 0x01);
    assert_eq!(cpu.registers.sp, 0x00);

    cpu.stack_push_addr(0x0203);
    /*
    Stack Push: [0x02, 0x03]
    SP: 0xFE (0x00 - 0x02 = 0xFE)

    Stack Pop: [0x02, 0x03]
    SP: 0x00
    */
    assert_eq!(cpu.registers.sp, 0xFE);
    assert_eq!(cpu.stack_pop_addr(), 0x0203);
    assert_eq!(cpu.registers.sp, 0x00);
}

#[test]
fn addressing_mode_immidiate() {
    let mut cpu = setup();
    cpu.reset();
    cpu.memory.write(0x8000, 0x01);

    assert_eq!(cpu.get_address_from_mode(AddressingMode::Immediate), 0x8000);
    assert_eq!(cpu.registers.pc, 0x8001);
}

#[test]
fn addressing_mode_absolute() {
    let mut cpu = setup();
    cpu.reset();
    cpu.memory.write(0x8000, 0x01);
    cpu.memory.write(0x8001, 0x02);

    assert_eq!(cpu.get_address_from_mode(AddressingMode::Absolute), 0x0201);
    assert_eq!(cpu.registers.pc, 0x8002);
}

#[test]
fn addressing_mode_absolute_x() {
    let mut cpu = setup();
    cpu.reset();
    cpu.memory.write(0x8000, 0x01);
    cpu.memory.write(0x8001, 0x02);
    cpu.registers.x = 0x03;

    assert_eq!(cpu.get_address_from_mode(AddressingMode::AbsoluteX), 0x0204);
    assert_eq!(cpu.registers.pc, 0x8002);
}

#[test]
fn addressing_mode_absolute_y() {
    let mut cpu = setup();
    cpu.reset();
    cpu.memory.write(0x8000, 0x01);
    cpu.memory.write(0x8001, 0x02);
    cpu.registers.y = 0x03;

    assert_eq!(cpu.get_address_from_mode(AddressingMode::AbsoluteY), 0x0204);
    assert_eq!(cpu.registers.pc, 0x8002);
}

#[test]
fn addressing_mode_indirect() {
    let mut cpu = setup();
    cpu.reset();
    cpu.memory.write(0x8000, 0x01);
    cpu.memory.write(0x8001, 0x02);
    cpu.memory.write(0x0201, 0x03);
    cpu.memory.write(0x0202, 0x04);

    assert_eq!(cpu.get_address_from_mode(AddressingMode::Indirect), 0x0403);
    assert_eq!(cpu.registers.pc, 0x8002);
}

#[test]
fn addressing_mode_indirect_x() {
    let mut cpu = setup();
    cpu.reset();
    cpu.memory.write(0x8000, 0x01); // `0x01` + RegX (0x03) = 0x04
    cpu.memory.write(0x8001, 0x02);
    cpu.memory.write(0x0004, 0x03);
    cpu.memory.write(0x0005, 0x04);
    cpu.registers.x = 0x03;

    assert_eq!(cpu.get_address_from_mode(AddressingMode::IndirectX), 0x0403);
    assert_eq!(cpu.registers.pc, 0x8001);
}

#[test]
fn addressing_mode_indirect_y() {
    let mut cpu = setup();
    cpu.reset();
    cpu.memory.write(0x8000, 0x04);
    cpu.memory.write(0x8001, 0x02);
    cpu.memory.write(0x0004, 0x03);
    cpu.memory.write(0x0005, 0x04);
    cpu.registers.y = 0x02;

    assert_eq!(cpu.get_address_from_mode(AddressingMode::IndirectY), 0x0405);
    assert_eq!(cpu.registers.pc, 0x8001);
}

#[test]
fn addressing_mode_zero_page() {
    let mut cpu = setup();
    cpu.reset();
    cpu.memory.write(0x8000, 0x01);

    assert_eq!(cpu.get_address_from_mode(AddressingMode::ZeroPage), 0x01);
    assert_eq!(cpu.registers.pc, 0x8001);
}

#[test]
fn addressing_mode_zero_page_x() {
    let mut cpu = setup();
    cpu.reset();
    cpu.memory.write(0x8000, 0x01);
    cpu.registers.x = 0x03;

    assert_eq!(cpu.get_address_from_mode(AddressingMode::ZeroPageX), 0x04);
    assert_eq!(cpu.registers.pc, 0x8001);
}

#[test]
fn addressing_mode_zero_page_y() {
    let mut cpu = setup();
    cpu.reset();
    cpu.memory.write(0x8000, 0x01);
    cpu.registers.y = 0x03;

    assert_eq!(cpu.get_address_from_mode(AddressingMode::ZeroPageY), 0x04);
    assert_eq!(cpu.registers.pc, 0x8001);
}

#[test]
fn adc() {
    let mut cpu = setup();
    cpu.reset();
    cpu.registers.a = 0x78;
    cpu.registers.set_flag_carry(true);
    cpu.load(&[
        0x69, 0x07, // ADC #$07
        0x00,
    ]);

    cpu.execute();

    assert_eq!(cpu.registers.a, 0x80);
    assert_eq!(cpu.registers.pc, 0x8003);
    assert_eq!(cpu.registers.get_flag_carry(), false);
    assert_eq!(cpu.registers.get_flag_zero(), false);
    assert_eq!(cpu.registers.get_flag_overflow(), true);
    assert_eq!(cpu.registers.get_flag_negative(), true);
}

#[test]
fn and() {
    let mut cpu = setup();
    cpu.reset();
    cpu.registers.a = 0x78; // 0111 1000
    cpu.load(&[
        0x29, 0x07, // AND #$07 ; 0000 0111
        0x00,
    ]);

    cpu.execute();

    assert_eq!(cpu.registers.a, 0x00);
    assert_eq!(cpu.registers.pc, 0x8003);
    assert_eq!(cpu.registers.get_flag_zero(), true);
    assert_eq!(cpu.registers.get_flag_negative(), false);
}

#[test]
fn asl() {
    let mut cpu = setup();
    cpu.reset();
    cpu.registers.a = 0x78; // 0111 1000
    cpu.load(&[
        0x0A, // ASL
        0x00,
    ]);

    cpu.execute();

    assert_eq!(cpu.registers.a, 0xF0); // 1111 0000
    assert_eq!(cpu.registers.pc, 0x8002);
    assert_eq!(cpu.registers.get_flag_carry(), false);
    assert_eq!(cpu.registers.get_flag_zero(), false);
    assert_eq!(cpu.registers.get_flag_negative(), true);
}

#[test]
fn bcc() {
    let mut cpu = setup();
    cpu.reset();
    cpu.registers.set_flag_carry(false);
    cpu.load(&[
        0x90, 0x02, // BCC
        0x00,
    ]);

    cpu.execute();

    assert_eq!(cpu.registers.pc, 0x8005);
}

#[test]
fn bcs() {
    let mut cpu = setup();
    cpu.reset();
    cpu.registers.set_flag_carry(true);
    cpu.load(&[
        0xB0, 0x02, // BCS
        0x00,
    ]);

    cpu.execute();

    assert_eq!(cpu.registers.pc, 0x8005);
}

#[test]
fn beq() {
    let mut cpu = setup();
    cpu.reset();
    cpu.registers.set_flag_zero(true);
    cpu.load(&[
        0xF0, 0x02, // BEQ
        0x00,
    ]);

    cpu.execute();

    assert_eq!(cpu.registers.pc, 0x8005);
}

#[test]
fn bit() {
    let mut cpu = setup();
    cpu.reset();
    cpu.registers.a = 129;
    cpu.memory.write(0x10, 150);
    cpu.load(&[
        0x24, 0x10, // BIT
        0x00,
    ]);

    cpu.execute();

    assert_eq!(cpu.registers.pc, 0x8003);
    assert_eq!(cpu.registers.get_flag_zero(), false);
    assert_eq!(cpu.registers.get_flag_overflow(), false);
    assert_eq!(cpu.registers.get_flag_negative(), true);
}

#[test]
fn bmi() {
    let mut cpu = setup();
    cpu.reset();
    cpu.registers.set_flag_negative(true);
    cpu.load(&[
        0x30, 0x02, // BMI
        0x00,
    ]);

    cpu.execute();

    assert_eq!(cpu.registers.pc, 0x8005);
}

#[test]
fn bne() {
    let mut cpu = setup();
    cpu.reset();
    cpu.registers.set_flag_zero(false);
    cpu.load(&[
        0xD0, 0x02, // BNE
        0x00,
    ]);

    cpu.execute();

    assert_eq!(cpu.registers.pc, 0x8005);
}

#[test]
fn bpl() {
    let mut cpu = setup();
    cpu.reset();
    cpu.registers.set_flag_negative(false);
    cpu.load(&[
        0x10, 0x02, // BPL
        0x00,
    ]);

    cpu.execute();

    assert_eq!(cpu.registers.pc, 0x8005);
}

#[test]
fn brk() {}

#[test]
fn bvc() {
    let mut cpu = setup();
    cpu.reset();
    cpu.registers.set_flag_overflow(false);
    cpu.load(&[
        0x50, 0x02, // BVC
        0x00,
    ]);

    cpu.execute();

    assert_eq!(cpu.registers.pc, 0x8005);
}

#[test]
fn bvs() {
    let mut cpu = setup();
    cpu.reset();
    cpu.registers.set_flag_overflow(true);
    cpu.load(&[
        0x70, 0x02, // BVS
        0x00,
    ]);

    cpu.execute();

    assert_eq!(cpu.registers.pc, 0x8005);
}

#[test]
fn clc() {
    let mut cpu = setup();
    cpu.reset();
    cpu.registers.set_flag_carry(true);
    cpu.load(&[
        0x18, // CLC
        0x00,
    ]);

    cpu.execute();

    assert_eq!(cpu.registers.get_flag_carry(), false);
    assert_eq!(cpu.registers.pc, 0x8002);
}

#[test]
fn cld() {
    let mut cpu = setup();
    cpu.reset();
    cpu.registers.set_flag_decimal(true);
    cpu.load(&[
        0xD8, // CLD
        0x00,
    ]);

    cpu.execute();

    assert_eq!(cpu.registers.get_flag_decimal(), false);
    assert_eq!(cpu.registers.pc, 0x8002);
}

#[test]
fn cli() {
    let mut cpu = setup();
    cpu.reset();
    cpu.registers.set_flag_interrupt_disable(true);
    cpu.load(&[
        0x58, // CLI
        0x00,
    ]);

    cpu.execute();

    assert_eq!(cpu.registers.get_flag_interrupt_disable(), false);
    assert_eq!(cpu.registers.pc, 0x8002);
}

#[test]
fn clv() {
    let mut cpu = setup();
    cpu.reset();
    cpu.registers.set_flag_overflow(true);
    cpu.load(&[
        0xB8, // CLV
        0x00,
    ]);

    cpu.execute();

    assert_eq!(cpu.registers.get_flag_overflow(), false);
    assert_eq!(cpu.registers.pc, 0x8002);
}

#[test]
fn cmp() {
    let mut cpu = setup();
    cpu.reset();
    cpu.registers.a = 0x40;
    cpu.load(&[
        0xC9, 0x80, // CMP
        0x00,
    ]);

    cpu.execute();

    assert_eq!(cpu.registers.get_flag_carry(), false);
    assert_eq!(cpu.registers.get_flag_zero(), false);
    assert_eq!(cpu.registers.get_flag_negative(), true);
    assert_eq!(cpu.registers.pc, 0x8003);
}

#[test]
fn cpx() {
    let mut cpu = setup();
    cpu.reset();
    cpu.registers.x = 0x40;
    cpu.load(&[
        0xE0, 0x80, // CPX
        0x00,
    ]);

    cpu.execute();

    assert_eq!(cpu.registers.get_flag_carry(), false);
    assert_eq!(cpu.registers.get_flag_zero(), false);
    assert_eq!(cpu.registers.get_flag_negative(), true);
    assert_eq!(cpu.registers.pc, 0x8003);
}

#[test]
fn cpy() {
    let mut cpu = setup();
    cpu.reset();
    cpu.registers.y = 0x40;
    cpu.load(&[
        0xC0, 0x80, // CPY
        0x00,
    ]);

    cpu.execute();

    assert_eq!(cpu.registers.get_flag_carry(), false);
    assert_eq!(cpu.registers.get_flag_zero(), false);
    assert_eq!(cpu.registers.get_flag_negative(), true);
    assert_eq!(cpu.registers.pc, 0x8003);
}

#[test]
fn dec() {
    let mut cpu = setup();
    cpu.reset();
    cpu.memory.write(0x00, 0x01);
    cpu.load(&[
        0xC6, 0x00, // DEC
        0x00,
    ]);

    cpu.execute();

    assert_eq!(cpu.memory.read(0x00), 0x00);
    assert_eq!(cpu.registers.get_flag_zero(), true);
    assert_eq!(cpu.registers.get_flag_negative(), false);
    assert_eq!(cpu.registers.pc, 0x8003);
}

#[test]
fn dex() {
    let mut cpu = setup();
    cpu.reset();
    cpu.registers.x = 0x01;
    cpu.load(&[
        0xCA, // DEX
        0x00,
    ]);

    cpu.execute();

    assert_eq!(cpu.registers.x, 0x00);
    assert_eq!(cpu.registers.get_flag_zero(), true);
    assert_eq!(cpu.registers.get_flag_negative(), false);
    assert_eq!(cpu.registers.pc, 0x8002);
}

#[test]
fn dey() {
    let mut cpu = setup();
    cpu.reset();
    cpu.registers.y = 0x01;
    cpu.load(&[
        0x88, // DEY
        0x00,
    ]);

    cpu.execute();

    assert_eq!(cpu.registers.y, 0x00);
    assert_eq!(cpu.registers.get_flag_zero(), true);
    assert_eq!(cpu.registers.get_flag_negative(), false);
    assert_eq!(cpu.registers.pc, 0x8002);
}

#[test]
fn eor() {
    let mut cpu = setup();
    cpu.reset();
    cpu.registers.a = 0x78; // 0111 1000
    cpu.load(&[
        0x49, 0x07, // EOR #$07 ; 0000 0111
        0x00,
    ]);

    cpu.execute();

    assert_eq!(cpu.registers.a, 0x7F); // 0111 1111
    assert_eq!(cpu.registers.pc, 0x8003);
    assert_eq!(cpu.registers.get_flag_zero(), false);
    assert_eq!(cpu.registers.get_flag_negative(), false);
}

#[test]
fn inc() {
    let mut cpu = setup();
    cpu.reset();
    cpu.memory.write(0x00, 0x01);
    cpu.load(&[
        0xE6, 0x00, // INC
        0x00,
    ]);

    cpu.execute();

    assert_eq!(cpu.memory.read(0x00), 0x02);
    assert_eq!(cpu.registers.get_flag_zero(), false);
    assert_eq!(cpu.registers.get_flag_negative(), false);
    assert_eq!(cpu.registers.pc, 0x8003);
}

#[test]
fn inx() {
    let mut cpu = setup();
    cpu.reset();
    cpu.registers.x = 0x01;
    cpu.load(&[
        0xE8, // INX
        0x00,
    ]);

    cpu.execute();

    assert_eq!(cpu.registers.x, 0x02);
    assert_eq!(cpu.registers.get_flag_zero(), false);
    assert_eq!(cpu.registers.get_flag_negative(), false);
    assert_eq!(cpu.registers.pc, 0x8002);
}

#[test]
fn iny() {
    let mut cpu = setup();
    cpu.reset();
    cpu.registers.y = 0x01;
    cpu.load(&[
        0xC8, // INY
        0x00,
    ]);

    cpu.execute();

    assert_eq!(cpu.registers.y, 0x02);
    assert_eq!(cpu.registers.get_flag_zero(), false);
    assert_eq!(cpu.registers.get_flag_negative(), false);
    assert_eq!(cpu.registers.pc, 0x8002);
}

#[test]
fn jmp() {
    let mut cpu = setup();
    cpu.reset();
    cpu.registers.x = 0x01;
    cpu.load(&[
        /* $8000 */ 0x4C, 0x04, 0x80, // JMP $8004
        /* $8003 */ 0xE8, // INX
        /* $8004 */ 0xCA, // DEX
        /* $8005 */ 0x00,
    ]);

    cpu.execute();

    assert_eq!(cpu.registers.pc, 0x8006);
    assert_eq!(cpu.registers.x, 0x00);
}

#[test]
fn jsr() {
    let mut cpu = setup();
    cpu.reset();
    cpu.registers.x = 0x01;
    cpu.load(&[
        /* $8000 */ 0x20, 0x04, 0x80, // JSR $8004
        /* $8003 */ 0xE8, // INX
        /* $8004 */ 0xCA, // DEX
        /* $8005 */ 0x00,
    ]);

    cpu.execute();

    assert_eq!(cpu.registers.pc, 0x8006);
    assert_eq!(cpu.registers.x, 0x00);
    assert_eq!(cpu.stack_pop(), 0x02);
    assert_eq!(cpu.stack_pop(), 0x80);
}

#[test]
fn lda() {
    let mut cpu = setup();
    cpu.reset();
    cpu.memory.write(0x00, 0x01);
    cpu.load(&[
        0xA5, 0x00, // LDA
        0x00,
    ]);

    cpu.execute();

    assert_eq!(cpu.registers.a, 0x01);
    assert_eq!(cpu.registers.get_flag_zero(), false);
    assert_eq!(cpu.registers.get_flag_negative(), false);
    assert_eq!(cpu.registers.pc, 0x8003);
}

#[test]
fn ldx() {
    let mut cpu = setup();
    cpu.reset();
    cpu.memory.write(0x00, 0x01);
    cpu.load(&[
        0xA6, 0x00, // LDX
        0x00,
    ]);

    cpu.execute();

    assert_eq!(cpu.registers.x, 0x01);
    assert_eq!(cpu.registers.get_flag_zero(), false);
    assert_eq!(cpu.registers.get_flag_negative(), false);
    assert_eq!(cpu.registers.pc, 0x8003);
}

#[test]
fn ldy() {
    let mut cpu = setup();
    cpu.reset();
    cpu.memory.write(0x00, 0x01);
    cpu.load(&[
        0xA4, 0x00, // LDY
        0x00,
    ]);

    cpu.execute();

    assert_eq!(cpu.registers.y, 0x01);
    assert_eq!(cpu.registers.get_flag_zero(), false);
    assert_eq!(cpu.registers.get_flag_negative(), false);
    assert_eq!(cpu.registers.pc, 0x8003);
}

#[test]
fn lsr() {
    let mut cpu = setup();
    cpu.reset();
    cpu.registers.a = 10;
    cpu.load(&[
        0x4A, // LSR
        0x00,
    ]);

    cpu.execute();

    assert_eq!(cpu.registers.a, 5);
    assert_eq!(cpu.registers.get_flag_carry(), false);
    assert_eq!(cpu.registers.get_flag_zero(), false);
    assert_eq!(cpu.registers.get_flag_negative(), false);
    assert_eq!(cpu.registers.pc, 0x8002);
}

#[test]
fn nop() {
    let mut cpu = setup();
    cpu.reset();
    cpu.load(&[
        0xEA, // NOP
        0x00,
    ]);

    cpu.execute();

    assert_eq!(cpu.registers.pc, 0x8002);
}

#[test]
fn ora() {
    let mut cpu = setup();
    cpu.reset();
    cpu.registers.a = 0x01;
    cpu.memory.write(0x00, 0x01);
    cpu.load(&[
        0x05, 0x00, // ORA
        0x00,
    ]);

    cpu.execute();

    assert_eq!(cpu.registers.a, 0x01);
    assert_eq!(cpu.registers.get_flag_zero(), false);
    assert_eq!(cpu.registers.get_flag_negative(), false);
    assert_eq!(cpu.registers.pc, 0x8003);
}

#[test]
fn pha() {
    let mut cpu = setup();
    cpu.reset();
    cpu.registers.a = 0x01;
    cpu.load(&[
        0x48, // PHA
        0x00,
    ]);

    cpu.execute();

    assert_eq!(cpu.stack_pop(), 0x01);
    assert_eq!(cpu.registers.pc, 0x8002);
}

#[test]
fn php() {
    let mut cpu = setup();
    cpu.reset();
    cpu.registers.set_flag_carry(true);
    cpu.registers.set_flag_zero(true);
    cpu.registers.set_flag_interrupt_disable(true);
    cpu.registers.set_flag_decimal(true);
    cpu.registers.set_flag_break(true);
    cpu.registers.set_flag_overflow(true);
    cpu.registers.set_flag_negative(true);
    cpu.load(&[
        0x08, // PHP
        0x00,
    ]);

    cpu.execute();

    assert_eq!(cpu.stack_pop(), 0b1101_1111);
    assert_eq!(cpu.registers.pc, 0x8002);
}

#[test]
fn pla() {
    let mut cpu = setup();
    cpu.reset();
    cpu.stack_push(0x01);
    cpu.load(&[
        0x68, // PLA
        0x00,
    ]);

    cpu.execute();

    assert_eq!(cpu.registers.a, 0x01);
    assert_eq!(cpu.registers.pc, 0x8002);
}

#[test]
fn plp() {
    let mut cpu = setup();
    cpu.reset();
    cpu.stack_push(0b1101_1111);
    cpu.load(&[
        0x28, // PLP
        0x00,
    ]);

    cpu.execute();

    assert_eq!(cpu.registers.get_flag_carry(), true);
    assert_eq!(cpu.registers.get_flag_zero(), true);
    assert_eq!(cpu.registers.get_flag_interrupt_disable(), true);
    assert_eq!(cpu.registers.get_flag_decimal(), true);
    assert_eq!(cpu.registers.get_flag_break(), true);
    assert_eq!(cpu.registers.get_flag_overflow(), true);
    assert_eq!(cpu.registers.get_flag_negative(), true);
    assert_eq!(cpu.registers.pc, 0x8002);
}

#[test]
fn rol() {
    let mut cpu = setup();
    cpu.reset();
    cpu.registers.a = 10;
    cpu.registers.set_flag_carry(true);
    cpu.load(&[
        0x2A, // ROL
        0x00,
    ]);

    cpu.execute();

    assert_eq!(cpu.registers.a, 21);
    assert_eq!(cpu.registers.get_flag_carry(), false);
    assert_eq!(cpu.registers.get_flag_zero(), false);
    assert_eq!(cpu.registers.get_flag_negative(), false);
    assert_eq!(cpu.registers.pc, 0x8002);
}

#[test]
fn ror() {
    let mut cpu = setup();
    cpu.reset();
    cpu.registers.a = 10;
    cpu.load(&[
        0x6A, // ROR
        0x00,
    ]);

    cpu.execute();

    assert_eq!(cpu.registers.a, 5);
    assert_eq!(cpu.registers.get_flag_carry(), false);
    assert_eq!(cpu.registers.get_flag_zero(), false);
    assert_eq!(cpu.registers.get_flag_negative(), false);
    assert_eq!(cpu.registers.pc, 0x8002);
}

#[test]
fn rti() {
    let mut cpu = setup();
    cpu.reset();
    cpu.stack_push_addr(0x8001);
    cpu.stack_push(0b1101_1111);
    cpu.load(&[
        0x40, // RTI
        0x00,
    ]);

    cpu.execute();

    assert_eq!(cpu.registers.pc, 0x8002);
    assert_eq!(cpu.registers.p, 0b1101_1111);
}

#[test]
fn rts() {
    let mut cpu = setup();
    cpu.reset();
    cpu.stack_push_addr(0x8001);
    cpu.load(&[
        0x60, // RTS
        0xEA, 0x00,
    ]);

    cpu.execute();

    assert_eq!(cpu.registers.pc, 0x8003);
}

#[test]
fn sbc() {
    let mut cpu = setup();
    cpu.reset();
    cpu.registers.a = 0x08;
    cpu.registers.set_flag_carry(true);
    cpu.load(&[
        0xE9, 0x04, // SBC
        0x00,
    ]);

    cpu.execute();

    assert_eq!(cpu.registers.a, 0x04);
    assert_eq!(cpu.registers.get_flag_carry(), true);
    assert_eq!(cpu.registers.get_flag_zero(), false);
    assert_eq!(cpu.registers.get_flag_overflow(), false);
    assert_eq!(cpu.registers.get_flag_negative(), false);
    assert_eq!(cpu.registers.pc, 0x8003);
}

#[test]
fn sec() {
    let mut cpu = setup();
    cpu.reset();
    cpu.load(&[
        0x38, // SEC
        0x00,
    ]);

    cpu.execute();

    assert_eq!(cpu.registers.get_flag_carry(), true);
    assert_eq!(cpu.registers.pc, 0x8002);
}

#[test]
fn sed() {
    let mut cpu = setup();
    cpu.reset();
    cpu.load(&[
        0xF8, // SED
        0x00,
    ]);

    cpu.execute();

    assert_eq!(cpu.registers.get_flag_decimal(), true);
    assert_eq!(cpu.registers.pc, 0x8002);
}

#[test]
fn sei() {
    let mut cpu = setup();
    cpu.reset();
    cpu.load(&[
        0x78, // SEI
        0x00,
    ]);

    cpu.execute();

    assert_eq!(cpu.registers.get_flag_interrupt_disable(), true);
    assert_eq!(cpu.registers.pc, 0x8002);
}

#[test]
fn sta() {
    let mut cpu = setup();
    cpu.reset();
    cpu.registers.a = 0x01;
    cpu.load(&[
        0x85, 0x00, // STA
        0x00,
    ]);

    cpu.execute();

    assert_eq!(cpu.memory.read(0x00), 0x01);
    assert_eq!(cpu.registers.pc, 0x8003);
}

#[test]
fn stx() {
    let mut cpu = setup();
    cpu.reset();
    cpu.registers.x = 0x01;
    cpu.load(&[
        0x86, 0x00, // STX
        0x00,
    ]);

    cpu.execute();

    assert_eq!(cpu.memory.read(0x00), 0x01);
    assert_eq!(cpu.registers.pc, 0x8003);
}

#[test]
fn sty() {
    let mut cpu = setup();
    cpu.reset();
    cpu.registers.y = 0x01;
    cpu.load(&[
        0x84, 0x00, // STY
        0x00,
    ]);

    cpu.execute();

    assert_eq!(cpu.memory.read(0x00), 0x01);
    assert_eq!(cpu.registers.pc, 0x8003);
}

#[test]
fn tax() {
    let mut cpu = setup();
    cpu.reset();
    cpu.registers.a = 0x01;
    cpu.load(&[
        0xAA, // TAX
        0x00,
    ]);

    cpu.execute();

    assert_eq!(cpu.registers.x, 0x01);
    assert_eq!(cpu.registers.get_flag_zero(), false);
    assert_eq!(cpu.registers.get_flag_negative(), false);
    assert_eq!(cpu.registers.pc, 0x8002);
}

#[test]
fn tay() {
    let mut cpu = setup();
    cpu.reset();
    cpu.registers.a = 0x01;
    cpu.load(&[
        0xA8, // TAY
        0x00,
    ]);

    cpu.execute();

    assert_eq!(cpu.registers.y, 0x01);
    assert_eq!(cpu.registers.get_flag_zero(), false);
    assert_eq!(cpu.registers.get_flag_negative(), false);
    assert_eq!(cpu.registers.pc, 0x8002);
}

#[test]
fn tsx() {
    let mut cpu = setup();
    cpu.reset();
    cpu.registers.sp = 0x01;
    cpu.load(&[
        0xBA, // TSX
        0x00,
    ]);

    cpu.execute();

    assert_eq!(cpu.registers.x, 0x01);
    assert_eq!(cpu.registers.get_flag_zero(), false);
    assert_eq!(cpu.registers.get_flag_negative(), false);
    assert_eq!(cpu.registers.pc, 0x8002);
}

#[test]
fn txa() {
    let mut cpu = setup();
    cpu.reset();
    cpu.registers.x = 0x01;
    cpu.load(&[
        0x8A, // TXA
        0x00,
    ]);

    cpu.execute();

    assert_eq!(cpu.registers.a, 0x01);
    assert_eq!(cpu.registers.get_flag_zero(), false);
    assert_eq!(cpu.registers.get_flag_negative(), false);
    assert_eq!(cpu.registers.pc, 0x8002);
}

#[test]
fn txs() {
    let mut cpu = setup();
    cpu.reset();
    cpu.registers.x = 0x01;
    cpu.load(&[
        0x9A, // TXS
        0x00,
    ]);

    cpu.execute();

    assert_eq!(cpu.registers.sp, 0x01);
    assert_eq!(cpu.registers.pc, 0x8002);
}

#[test]
fn tya() {
    let mut cpu = setup();
    cpu.reset();
    cpu.registers.y = 0x01;
    cpu.load(&[
        0x98, // TYA
        0x00,
    ]);

    cpu.execute();

    assert_eq!(cpu.registers.a, 0x01);
    assert_eq!(cpu.registers.get_flag_zero(), false);
    assert_eq!(cpu.registers.get_flag_negative(), false);
    assert_eq!(cpu.registers.pc, 0x8002);
}
