//! What holds of the machine whatever its state: laws of the flags, of the
//! stack, of arithmetic, of branches and of a run.

use vstd::prelude::*;
use crate::emulator::addressing_mode::AddressingMode;
use crate::emulator::machine::{carry_bit, sign_extend, Machine, BRK};
use crate::emulator::memory::{high_byte, low_byte, word};
use crate::emulator::registers::{
    flag, is_flag_mask, lemma_with_flag, with_flag, with_zero_negative, FLAG_CARRY, FLAG_NEGATIVE,
    FLAG_OVERFLOW, FLAG_ZERO,
};

verus! {

/// Bit 7 of a byte is set exactly when the byte is 128 or more.
pub proof fn lemma_bit7(value: u8)
    by (bit_vector)
    ensures
        (value & 0x80 != 0) == (value >= 0x80),
{
}

/// A flag that was written reads back as written, and the other six flags
/// keep their values.
pub proof fn lemma_flag_written(p: u8, mask: u8, on: bool, other: u8)
    requires
        is_flag_mask(mask),
        is_flag_mask(other),
    ensures
        flag(with_flag(p, mask, on), other) == (if mask == other {
            on
        } else {
            flag(p, other)
        }),
{
    lemma_with_flag(p, mask, on, other);
}

/// After Z and N were set from a byte, Z says that the byte is zero, N
/// that it is 128 or more, and the other five flags keep their values.
pub proof fn lemma_zero_negative(p: u8, value: u8, other: u8)
    requires
        is_flag_mask(other),
    ensures
        flag(with_zero_negative(p, value), FLAG_ZERO) == (value == 0),
        flag(with_zero_negative(p, value), FLAG_NEGATIVE) == (value >= 0x80),
        other != FLAG_ZERO && other != FLAG_NEGATIVE ==> flag(with_zero_negative(p, value), other)
            == flag(p, other),
{
    let zeroed = with_flag(p, FLAG_ZERO, value == 0);
    lemma_with_flag(p, FLAG_ZERO, value == 0, FLAG_ZERO);
    lemma_with_flag(p, FLAG_ZERO, value == 0, other);
    lemma_with_flag(zeroed, FLAG_NEGATIVE, value & 0x80 != 0, FLAG_ZERO);
    lemma_with_flag(zeroed, FLAG_NEGATIVE, value & 0x80 != 0, FLAG_NEGATIVE);
    lemma_with_flag(zeroed, FLAG_NEGATIVE, value & 0x80 != 0, other);
    lemma_bit7(value);
}

/// Addition with carry. With `a` the accumulator, `m` the operand and `c`
/// the carry before: the accumulator becomes `(a + m + c) mod 256`; C says
/// that `a + m + c` is 256 or more; Z that the new accumulator is zero; N
/// that its bit 7 is set; V that `a` and `m` both differ from the new
/// accumulator in bit 7. Nothing else changes but the program counter,
/// which moves past the operand.
pub proof fn lemma_adc(before: Machine, mode: AddressingMode)
    ensures
        ({
            let after = before.adc(mode);
            let a = before.regs.a;
            let m = before.operand(mode);
            let sum = a as int + m as int + carry_bit(before.regs.p) as int;
            &&& after.regs.a == sum % 256
            &&& flag(after.regs.p, FLAG_CARRY) == (sum >= 256)
            &&& flag(after.regs.p, FLAG_ZERO) == (after.regs.a == 0)
            &&& flag(after.regs.p, FLAG_NEGATIVE) == (after.regs.a & 0x80 != 0)
            &&& flag(after.regs.p, FLAG_OVERFLOW) == ((a ^ after.regs.a) & (m ^ after.regs.a)
                & 0x80 != 0)
            &&& forall|other: u8|
                is_flag_mask(other) && other != FLAG_CARRY && other != FLAG_ZERO && other
                    != FLAG_NEGATIVE && other != FLAG_OVERFLOW ==> flag(after.regs.p, other)
                    == #[trigger] flag(before.regs.p, other)
            &&& after.regs.x == before.regs.x
            &&& after.regs.y == before.regs.y
            &&& after.regs.sp == before.regs.sp
            &&& after.regs.pc == before.regs.pc.wrapping_add(mode.operand_len())
            &&& after.mem == before.mem
        }),
{
    let a = before.regs.a;
    let m = before.operand(mode);
    let p = before.regs.p;
    let sum = a as int + m as int + carry_bit(p) as int;
    let result = (sum % 0x100) as u8;
    let overflow = (a ^ result) & (m ^ result) & 0x80 != 0;
    let with_carry = with_flag(p, FLAG_CARRY, sum > 0xFF);
    let with_overflow = with_flag(with_carry, FLAG_OVERFLOW, overflow);
    let with_all = with_zero_negative(with_overflow, result);
    assert(before.adc(mode).regs.p == with_all);
    lemma_zero_negative(with_overflow, result, FLAG_CARRY);
    lemma_zero_negative(with_overflow, result, FLAG_OVERFLOW);
    lemma_bit7(result);
    lemma_with_flag(with_carry, FLAG_OVERFLOW, overflow, FLAG_OVERFLOW);
    lemma_with_flag(with_carry, FLAG_OVERFLOW, overflow, FLAG_CARRY);
    lemma_with_flag(p, FLAG_CARRY, sum > 0xFF, FLAG_CARRY);
    assert forall|other: u8|
        is_flag_mask(other) && other != FLAG_CARRY && other != FLAG_ZERO && other != FLAG_NEGATIVE
            && other != FLAG_OVERFLOW implies flag(with_all, other) == #[trigger] flag(p, other) by {
        lemma_zero_negative(with_overflow, result, other);
        lemma_with_flag(with_carry, FLAG_OVERFLOW, overflow, other);
        lemma_with_flag(p, FLAG_CARRY, sum > 0xFF, other);
    }
}

/// Whether `opcode` is one of the eight branches.
pub open spec fn is_branch(opcode: u8) -> bool {
    opcode == 0x10 || opcode == 0x30 || opcode == 0x50 || opcode == 0x70 || opcode == 0x90
        || opcode == 0xB0 || opcode == 0xD0 || opcode == 0xF0
}

/// Whether the branch with `opcode` is taken under the status byte `p`.
pub open spec fn branch_taken(opcode: u8, p: u8) -> bool {
    if opcode == 0x10 {
        !flag(p, FLAG_NEGATIVE)
    } else if opcode == 0x30 {
        flag(p, FLAG_NEGATIVE)
    } else if opcode == 0x50 {
        !flag(p, FLAG_OVERFLOW)
    } else if opcode == 0x70 {
        flag(p, FLAG_OVERFLOW)
    } else if opcode == 0x90 {
        !flag(p, FLAG_CARRY)
    } else if opcode == 0xB0 {
        flag(p, FLAG_CARRY)
    } else if opcode == 0xD0 {
        !flag(p, FLAG_ZERO)
    } else {
        flag(p, FLAG_ZERO)
    }
}

/// A branch changes the program counter and nothing else. With `next` the
/// address that follows its operand byte `d`: a branch that is taken leads
/// to `next` plus `d` read as a signed number, within 16 bits; one that is
/// not taken leads to `next`.
pub proof fn lemma_branch(before: Machine, opcode: u8)
    requires
        is_branch(opcode),
    ensures
        ({
            let after = before.execute(opcode);
            let d = before.read(before.regs.pc.wrapping_add(1));
            let next = before.regs.pc as int + 2;
            &&& after == before.set_pc(after.regs.pc)
            &&& branch_taken(opcode, before.regs.p) ==> after.regs.pc == (next + sign_extend(d))
                % 0x10000
            &&& !branch_taken(opcode, before.regs.p) ==> after.regs.pc == next % 0x10000
        }),
{
}

/// A byte that was pushed is the byte that the next pop returns, and the
/// pair leaves the stack pointer where it was.
pub proof fn lemma_push_pop(before: Machine, data: u8)
    requires
        before.wf(),
    ensures
        before.push(data).pop_value() == data,
        before.push(data).pop().regs == before.regs,
{
}

/// A word that was pushed is the word that the next two pops return, and
/// the stack pointer is back where it was.
pub proof fn lemma_push_pop_addr(before: Machine, data: u16)
    requires
        before.wf(),
    ensures
        before.push_addr(data).pop_addr_value() == data,
        before.push_addr(data).pop_addr().regs == before.regs,
{
    let pushed = before.push_addr(data);
    assert(pushed.pop_value() == low_byte(data));
    assert(pushed.pop().pop_value() == high_byte(data));
}

/// An increment or decrement of X or Y wraps within eight bits: the new
/// value is the old one plus or minus one modulo 256, Z says that it is
/// zero and N that it is 128 or more. So from `0xFF` an increment gives
/// `0x00` with Z set, and from `0x00` a decrement gives `0xFF` with N set.
pub proof fn lemma_index_steps(before: Machine)
    ensures
        before.inx().regs.x == (before.regs.x + 1) % 256,
        before.iny().regs.y == (before.regs.y + 1) % 256,
        before.dex().regs.x == (before.regs.x - 1) % 256,
        before.dey().regs.y == (before.regs.y - 1) % 256,
        flag(before.inx().regs.p, FLAG_ZERO) == (before.regs.x == 0xFF),
        flag(before.iny().regs.p, FLAG_ZERO) == (before.regs.y == 0xFF),
        flag(before.dex().regs.p, FLAG_ZERO) == (before.regs.x == 0x01),
        flag(before.dey().regs.p, FLAG_ZERO) == (before.regs.y == 0x01),
        flag(before.inx().regs.p, FLAG_NEGATIVE) == (0x7F <= before.regs.x < 0xFF),
        flag(before.iny().regs.p, FLAG_NEGATIVE) == (0x7F <= before.regs.y < 0xFF),
        flag(before.dex().regs.p, FLAG_NEGATIVE) == (before.regs.x == 0 || before.regs.x > 0x80),
        flag(before.dey().regs.p, FLAG_NEGATIVE) == (before.regs.y == 0 || before.regs.y > 0x80),
{
    let p = before.regs.p;
    lemma_zero_negative(p, before.regs.x.wrapping_add(1), FLAG_ZERO);
    lemma_zero_negative(p, before.regs.y.wrapping_add(1), FLAG_ZERO);
    lemma_zero_negative(p, before.regs.x.wrapping_sub(1), FLAG_ZERO);
    lemma_zero_negative(p, before.regs.y.wrapping_sub(1), FLAG_ZERO);
}

/// How far a machine that halts within `i` instructions runs does not
/// depend on how many more it is allowed.
pub proof fn lemma_run_fuel(m: Machine, i: nat, j: nat)
    requires
        m.halts_within(i),
        m.halts_within(j),
    ensures
        m.run(i) == m.run(j),
    decreases i,
{
    if m.read(m.regs.pc) != BRK {
        lemma_run_fuel(m.step(), (i - 1) as nat, (j - 1) as nat);
    }
}

/// The run of a machine that halts: if the next opcode is `BRK`, one step;
/// otherwise one step and then the run from there.
pub proof fn lemma_run_to_break(m: Machine)
    requires
        m.halts(),
    ensures
        m.read(m.regs.pc) == BRK ==> m.run_to_break() == m.step(),
        m.read(m.regs.pc) != BRK ==> m.step().halts() && m.run_to_break()
            == m.step().run_to_break(),
{
    let n = choose|n: nat| m.halts_within(n);
    if m.read(m.regs.pc) != BRK {
        let next = m.step();
        assert(next.halts_within((n - 1) as nat));
        let k = choose|k: nat| next.halts_within(k);
        lemma_run_fuel(next, (n - 1) as nat, k);
    }
}

} // verus!
