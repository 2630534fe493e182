use mos6502::emulator::debugger::NoneDebugger;
use mos6502::emulator::registers::Registers;

#[test]
fn test_set_flag() {
    let mut registers = Registers::<NoneDebugger>::default();

    registers.set_flag_negative(true);
    assert_eq!(registers.p, 0b1000_0000);

    registers.set_flag_overflow(true);
    assert_eq!(registers.p, 0b1100_0000);

    registers.set_flag_break(true);
    assert_eq!(registers.p, 0b1101_0000);

    registers.set_flag_decimal(true);
    assert_eq!(registers.p, 0b1101_1000);

    registers.set_flag_interrupt_disable(true);
    assert_eq!(registers.p, 0b1101_1100);

    registers.set_flag_zero(true);
    assert_eq!(registers.p, 0b1101_1110);

    registers.set_flag_carry(true);
    assert_eq!(registers.p, 0b1101_1111);
}
