use mos6502::emulator::addressing_mode::AddressingMode;
use mos6502::emulator::cpu::{Cpu, CpuDebugger, NoneDebuggerCpu};
use mos6502::emulator::debugger::{DebugKind, Debugger, NoneDebugger};
use mos6502::emulator::memory::{memory_hexdump, Memory, MemoryBus, ORG, STACK_BASE};
use mos6502::emulator::registers::Registers;

fn machine() -> NoneDebuggerCpu<Memory> {
    let mut cpu: NoneDebuggerCpu<Memory> = Cpu::new(Memory::default());
    cpu.reset();
    cpu
}

#[derive(Default)]
struct Recorder {
    messages: Vec<(String, DebugKind)>,
}

impl Debugger for Recorder {
    fn debug(&mut self, message: &str, kind: DebugKind) {
        self.messages.push((message.to_string(), kind));
    }
}

#[test]
fn reset_state() {
    let mut cpu = machine();
    cpu.registers.a = 7;
    cpu.memory.write(0x1234, 9);
    cpu.reset();
    assert_eq!(cpu.registers.a, 0);
    assert_eq!(cpu.registers.x, 0);
    assert_eq!(cpu.registers.y, 0);
    assert_eq!(cpu.registers.p, 0);
    assert_eq!(cpu.registers.sp, 0);
    assert_eq!(cpu.registers.pc, ORG);
    assert_eq!(cpu.memory.read(0x1234), 0);
    assert_eq!(ORG, 0x8000);
    assert_eq!(STACK_BASE, 0x0100);
}

#[test]
fn memory_word_is_little_endian_and_wraps() {
    let mut memory = Memory::new();
    memory.write(0x1000, 0x34);
    memory.write(0x1001, 0x12);
    assert_eq!(memory.read_addr(0x1000), 0x1234);
    memory.write(0xFFFF, 0xCD);
    memory.write(0x0000, 0xAB);
    assert_eq!(memory.read_addr(0xFFFF), 0xABCD);
}

#[test]
fn rom_copies_from_org_and_cuts_at_the_last_address() {
    let mut memory = Memory::new();
    memory.write(0x7FFF, 0x55);
    memory.rom(&[1, 2, 3]);
    assert_eq!(memory.read(0x7FFF), 0x55);
    assert_eq!(memory.read(0x8000), 1);
    assert_eq!(memory.read(0x8002), 3);
    assert_eq!(memory.read(0x8003), 0);
    let long = vec![0xEE; 0x8001];
    memory.write(0x0000, 0x11);
    memory.rom(&long);
    assert_eq!(memory.read(0xFFFF), 0xEE);
    assert_eq!(memory.read(0x0000), 0x11);
    memory.reset();
    assert_eq!(memory.read(0xFFFF), 0);
}

#[test]
fn hexdump_rows() {
    let mut memory = Memory::new();
    for i in 0..20u16 {
        memory.write(0x0200 + i, i as u8);
    }
    assert_eq!(memory_hexdump(&memory, 0x0200, 0x0202), "0200: 00 01 02");
    assert_eq!(
        memory_hexdump(&memory, 0x0200, 0x0211),
        "0200: 00 01 02 03 04 05 06 07 08 09 0A 0B 0C 0D 0E 0F\n0210: 10 11"
    );
    assert_eq!(memory_hexdump(&memory, 0x0201, 0x0200), "");
    assert_eq!(memory_hexdump(&memory, 0xFFFF, 0xFFFF), "FFFF: 00");
}

#[test]
fn status_text() {
    let mut cpu = machine();
    cpu.registers.a = 0x1A;
    cpu.registers.x = 0x02;
    cpu.registers.y = 0xFF;
    cpu.registers.sp = 0xFD;
    cpu.registers.set_flag_negative(true);
    cpu.registers.set_flag_carry(true);
    assert_eq!(
        cpu.to_string(),
        "Registers: A=1A X=02 Y=FF SP=FD PC=8000\nFlag Registers (NV-B DIZC): 1 0 - 0  0 0 0 1"
    );
    assert_eq!(cpu.registers.to_string(), cpu.to_string());
}

#[test]
fn flags_are_independent() {
    let mut registers = Registers::<NoneDebugger>::default();
    registers.p = 0xFF;
    registers.set_flag_zero(false);
    assert_eq!(registers.p, 0b1111_1101);
    assert!(!registers.get_flag_zero());
    assert!(registers.get_flag_carry());
    registers.set_zero_negative_flags(0);
    assert!(registers.get_flag_zero());
    assert!(!registers.get_flag_negative());
    registers.set_zero_negative_flags(0x80);
    assert!(!registers.get_flag_zero());
    assert!(registers.get_flag_negative());
    assert_eq!(registers.p & 0b0010_0000, 0b0010_0000);
}

#[test]
fn adc_all_inputs() {
    for a in 0..=255u16 {
        for m in [0u16, 1, 0x7F, 0x80, 0xFF, 0x35] {
            for c in 0..=1u16 {
                let mut cpu = machine();
                cpu.registers.a = a as u8;
                cpu.registers.set_flag_carry(c == 1);
                cpu.add_to_accumulator_with_carry(m as u8);
                let sum = a + m + c;
                let result = (sum % 256) as u8;
                assert_eq!(cpu.registers.a, result);
                assert_eq!(cpu.registers.get_flag_carry(), sum >= 256);
                assert_eq!(cpu.registers.get_flag_zero(), result == 0);
                assert_eq!(cpu.registers.get_flag_negative(), result & 0x80 != 0);
                assert_eq!(
                    cpu.registers.get_flag_overflow(),
                    (a as u8 ^ result) & (m as u8 ^ result) & 0x80 != 0
                );
            }
        }
    }
}

#[test]
fn sbc_is_addition_of_the_complement() {
    let mut cpu = machine();
    cpu.registers.a = 0x08;
    cpu.registers.set_flag_carry(false);
    cpu.load(&[0xE9, 0x04, 0x00]);
    cpu.execute();
    assert_eq!(cpu.registers.a, 0x03);
    assert!(cpu.registers.get_flag_carry());

    let mut cpu = machine();
    cpu.registers.a = 0x00;
    cpu.registers.set_flag_carry(true);
    cpu.load(&[0xE9, 0x01, 0x00]);
    cpu.execute();
    assert_eq!(cpu.registers.a, 0xFF);
    assert!(!cpu.registers.get_flag_carry());
    assert!(cpu.registers.get_flag_negative());

    let mut cpu = machine();
    cpu.registers.a = 0x05;
    cpu.registers.set_flag_carry(true);
    cpu.load(&[0xE9, 0xFF, 0x00]);
    cpu.execute();
    assert_eq!(cpu.registers.a, 0x06);
    assert!(!cpu.registers.get_flag_carry());
}

#[test]
fn branch_backwards_and_not_taken() {
    let mut cpu = machine();
    cpu.registers.pc = 0x8010;
    cpu.memory.write(0x8010, 0xFE);
    cpu.branch();
    assert_eq!(cpu.registers.pc, 0x800F);

    let mut cpu = machine();
    cpu.load(&[0xB0, 0x02, 0x00]);
    cpu.registers.set_flag_carry(false);
    assert_eq!(cpu.step(), 0xB0);
    assert_eq!(cpu.registers.pc, 0x8002);

    let mut cpu = machine();
    cpu.registers.pc = 0x0001;
    cpu.memory.write(0x0001, 0x80);
    cpu.branch();
    assert_eq!(cpu.registers.pc, 0xFF82);
}

#[test]
fn stack_round_trip_for_every_byte() {
    for sp in [0x00u8, 0x01, 0x80, 0xFF] {
        for b in 0..=255u8 {
            let mut cpu = machine();
            cpu.registers.sp = sp;
            cpu.stack_push(b);
            assert_eq!(cpu.registers.sp, sp.wrapping_sub(1));
            assert_eq!(cpu.memory.read(0x0100 + sp as u16), b);
            assert_eq!(cpu.stack_pop(), b);
            assert_eq!(cpu.registers.sp, sp);
        }
    }
}

#[test]
fn index_registers_wrap() {
    let mut cpu = machine();
    cpu.registers.x = 0xFF;
    cpu.inx();
    assert_eq!(cpu.registers.x, 0x00);
    assert!(cpu.registers.get_flag_zero());
    assert!(!cpu.registers.get_flag_negative());
    cpu.dex();
    assert_eq!(cpu.registers.x, 0xFF);
    assert!(cpu.registers.get_flag_negative());
    assert!(!cpu.registers.get_flag_zero());

    cpu.registers.y = 0xFF;
    cpu.iny();
    assert_eq!(cpu.registers.y, 0x00);
    assert!(cpu.registers.get_flag_zero());
    cpu.dey();
    assert_eq!(cpu.registers.y, 0xFF);
    assert!(cpu.registers.get_flag_negative());
}

#[test]
fn jsr_from_org() {
    let mut cpu = machine();
    cpu.load(&[0x20, 0x04, 0x80, 0xE8, 0xCA, 0x00]);
    assert_eq!(cpu.step(), 0x20);
    assert_eq!(cpu.registers.pc, 0x8004);
    assert_eq!(cpu.memory.read(0x0100), 0x80);
    assert_eq!(cpu.memory.read(0x01FF), 0x02);
    assert_eq!(cpu.registers.sp, 0xFE);
    cpu.rts();
    assert_eq!(cpu.registers.pc, 0x8003);
    assert_eq!(cpu.registers.sp, 0x00);
}

#[test]
fn php_pushes_the_status_byte() {
    let mut cpu = machine();
    cpu.registers.set_flag_negative(true);
    cpu.registers.set_flag_overflow(true);
    cpu.registers.set_flag_break(true);
    cpu.registers.set_flag_decimal(true);
    cpu.registers.set_flag_interrupt_disable(true);
    cpu.registers.set_flag_zero(true);
    cpu.registers.set_flag_carry(true);
    cpu.php();
    assert_eq!(cpu.memory.read(0x0100), 0xDF);
}

#[test]
fn zero_page_indexing_stays_in_the_zero_page() {
    let mut cpu = machine();
    cpu.memory.write(0x8000, 0xF0);
    cpu.registers.x = 0x20;
    assert_eq!(cpu.get_address_from_mode(AddressingMode::ZeroPageX), 0x0010);
    cpu.registers.pc = 0x8000;
    cpu.registers.y = 0x11;
    assert_eq!(cpu.get_address_from_mode(AddressingMode::ZeroPageY), 0x0001);
    cpu.registers.pc = 0x8000;
    cpu.memory.write(0x0010, 0x78);
    cpu.memory.write(0x0011, 0x56);
    assert_eq!(cpu.get_address_from_mode(AddressingMode::IndirectX), 0x5678);
    assert_eq!(cpu.registers.pc, 0x8001);
}

#[test]
fn shifts_on_memory_read_modify_write() {
    let mut cpu = machine();
    cpu.memory.write(0x0010, 0x81);
    cpu.load(&[0x06, 0x10, 0x00]);
    cpu.execute();
    assert_eq!(cpu.memory.read(0x0010), 0x02);
    assert!(cpu.registers.get_flag_carry());
    assert_eq!(cpu.registers.pc, 0x8003);

    let mut cpu = machine();
    cpu.memory.write(0x0010, 0x01);
    cpu.registers.set_flag_carry(true);
    cpu.load(&[0x66, 0x10, 0x00]);
    cpu.execute();
    assert_eq!(cpu.memory.read(0x0010), 0x80);
    assert!(cpu.registers.get_flag_carry());
    assert!(cpu.registers.get_flag_negative());

    let mut cpu = machine();
    cpu.registers.a = 0x80;
    cpu.registers.set_flag_carry(true);
    cpu.rol(None);
    assert_eq!(cpu.registers.a, 0x01);
    assert!(cpu.registers.get_flag_carry());
    cpu.lsr(None);
    assert_eq!(cpu.registers.a, 0x00);
    assert!(cpu.registers.get_flag_carry());
    assert!(cpu.registers.get_flag_zero());
}

#[test]
fn unknown_opcode_is_reported_and_skipped() {
    let mut cpu: Cpu<Memory, Recorder, NoneDebugger> = Cpu::new(Memory::new());
    cpu.load(&[0x02, 0x00]);
    cpu.registers.a = 3;
    assert_eq!(cpu.step(), 0x02);
    assert_eq!(cpu.registers.pc, 0x8001);
    assert_eq!(cpu.registers.a, 3);
    assert_eq!(cpu.registers.p, 0);
    let warnings: Vec<&(String, DebugKind)> =
        cpu.debugger.messages.iter().filter(|m| m.1 == DebugKind::Warn).collect();
    assert_eq!(warnings.len(), 1);
    assert_eq!(warnings[0].0, "Unknown opcode: 0x02");
    assert_eq!(cpu.debugger.messages[0].0, "Execute 0x02 at 0x8000");
}

#[test]
fn sinks_hear_of_stack_and_flags() {
    let mut cpu: Cpu<Memory, Recorder, Recorder> = Cpu::new(Memory::new());
    cpu.stack_push_addr(0x1234);
    let texts: Vec<&str> = cpu.debugger.messages.iter().map(|m| m.0.as_str()).collect();
    assert_eq!(texts, vec!["Stack push 0x12", "Stack push 0x34", "Stack push 0x1234"]);
    cpu.registers.p = 200;
    cpu.registers.set_flag_carry(true);
    assert_eq!(cpu.registers.debugger.messages[0].0, "Set flag carry: 200 -> 201");
    cpu.debugger.messages.clear();
    cpu.get_address_from_mode(AddressingMode::AbsoluteX);
    assert_eq!(cpu.debugger.messages[0].0, "Addressing mode AbsoluteX");
}

#[test]
fn compare_sets_carry_when_not_below() {
    let mut cpu = machine();
    cpu.registers.a = 0x40;
    cpu.load(&[0xC9, 0x40, 0x00]);
    cpu.execute();
    assert!(cpu.registers.get_flag_carry());
    assert!(cpu.registers.get_flag_zero());
    assert!(!cpu.registers.get_flag_negative());
}

#[test]
fn bit_sets_overflow_from_bit_six() {
    let mut cpu = machine();
    cpu.registers.a = 0x01;
    cpu.memory.write(0x0010, 0x40);
    cpu.load(&[0x24, 0x10, 0x00]);
    cpu.execute();
    assert!(cpu.registers.get_flag_overflow());
    assert!(cpu.registers.get_flag_zero());
    assert!(!cpu.registers.get_flag_negative());
}

#[test]
fn run_stops_at_the_first_brk() {
    let mut cpu = machine();
    cpu.load(&[0xE8, 0xE8, 0x00, 0xE8, 0x00]);
    cpu.execute();
    assert_eq!(cpu.registers.x, 2);
    assert_eq!(cpu.registers.pc, 0x8003);
}

#[test]
fn bounded_run() {
    let mut cpu = machine();
    cpu.load(&[0xE8, 0xE8, 0x00]);
    assert!(!cpu.execute_within(0));
    assert_eq!(cpu.registers.pc, 0x8000);
    assert!(!cpu.execute_within(2));
    assert_eq!(cpu.registers.x, 2);
    assert_eq!(cpu.registers.pc, 0x8002);
    assert!(cpu.execute_within(1));
    assert_eq!(cpu.registers.pc, 0x8003);

    let mut cpu = machine();
    cpu.load(&[0xE8, 0xE8, 0x00]);
    assert!(cpu.execute_within(3));
    assert_eq!(cpu.registers.x, 2);
    assert_eq!(cpu.registers.pc, 0x8003);

    let mut cpu = machine();
    cpu.load(&[0xE8, 0x4C, 0x00, 0x80]);
    assert!(!cpu.execute_within(10));
    assert_eq!(cpu.registers.x, 5);
    assert_eq!(cpu.registers.pc, 0x8000);
}

#[test]
fn debug_hands_the_message_to_the_sink() {
    let mut cpu: Cpu<Memory, Recorder, Recorder> = Cpu::new(Memory::new());
    cpu.registers.a = 9;
    cpu.memory.write(0x0010, 7);
    cpu.debug("first");
    cpu.debug("second");
    assert_eq!(
        cpu.debugger.messages,
        vec![("first".to_string(), DebugKind::Info), ("second".to_string(), DebugKind::Info)]
    );
    assert!(cpu.registers.debugger.messages.is_empty());
    assert_eq!(cpu.registers.a, 9);
    assert_eq!(cpu.registers.pc, ORG);
    assert_eq!(cpu.memory.read(0x0010), 7);

    cpu.registers.debug("third");
    assert_eq!(cpu.registers.debugger.messages, vec![("third".to_string(), DebugKind::Info)]);
    assert_eq!(cpu.debugger.messages.len(), 2);
    assert_eq!(cpu.registers.a, 9);
    assert_eq!(cpu.registers.p, 0);
}
