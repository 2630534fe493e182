//! The register file and the accessors of the processor status flags.
//!
//! The status register `P` is a bit field, from the most significant bit
//! down: `N V - B D I Z C`. Bit 5 is not used.

use vstd::prelude::*;
use crate::emulator::debugger::{DebugKind, Debugger};
use crate::emulator::memory::ORG;
use crate::text::{decimal, hex2, hex4, push_decimal, push_hex2, push_hex4};

verus! {

/// N: the last result had bit 7 set.
pub const FLAG_NEGATIVE: u8 = 0x80;

/// V: the last addition overflowed as a signed one.
pub const FLAG_OVERFLOW: u8 = 0x40;

/// B: break.
pub const FLAG_BREAK: u8 = 0x10;

/// D: decimal mode. The flag can be set, but arithmetic stays binary.
pub const FLAG_DECIMAL: u8 = 0x08;

/// I: interrupts are disabled.
pub const FLAG_INTERRUPT_DISABLE: u8 = 0x04;

/// Z: the last result was zero.
pub const FLAG_ZERO: u8 = 0x02;

/// C: carry.
pub const FLAG_CARRY: u8 = 0x01;

/// Whether the flag selected by `mask` is set in the status byte `p`.
pub open spec fn flag(p: u8, mask: u8) -> bool {
    p & mask != 0
}

/// The status byte `p` with the flag selected by `mask` set or cleared.
pub open spec fn with_flag(p: u8, mask: u8, on: bool) -> u8 {
    if on {
        p | mask
    } else {
        p & !mask
    }
}

/// The status byte `p` with Z and N describing the byte `value`: Z is set
/// exactly when `value` is zero, N exactly when its bit 7 is set.
pub open spec fn with_zero_negative(p: u8, value: u8) -> u8 {
    with_flag(with_flag(p, FLAG_ZERO, value == 0), FLAG_NEGATIVE, value & 0x80 != 0)
}

/// Whether `mask` selects one of the seven flags.
pub open spec fn is_flag_mask(mask: u8) -> bool {
    mask == FLAG_NEGATIVE || mask == FLAG_OVERFLOW || mask == FLAG_BREAK || mask == FLAG_DECIMAL
        || mask == FLAG_INTERRUPT_DISABLE || mask == FLAG_ZERO || mask == FLAG_CARRY
}

/// A bit that was written reads back as written, and every other bit of
/// the byte keeps its value.
pub proof fn lemma_with_flag(p: u8, mask: u8, on: bool, other: u8)
    by (bit_vector)
    requires
        mask == 0x80 || mask == 0x40 || mask == 0x20 || mask == 0x10 || mask == 0x08 || mask
            == 0x04 || mask == 0x02 || mask == 0x01,
        other == 0x80 || other == 0x40 || other == 0x20 || other == 0x10 || other == 0x08
            || other == 0x04 || other == 0x02 || other == 0x01,
    ensures
        ((if on { p | mask } else { p & !mask }) & other != 0) == (if mask == other {
            on
        } else {
            p & other != 0
        }),
{
}

/// The values of the six registers: what a `Registers` stands for.
pub struct RegisterFile {
    pub a: u8,
    pub x: u8,
    pub y: u8,
    pub p: u8,
    pub sp: u8,
    pub pc: u16,
}

impl RegisterFile {
    /// The state after power-on or reset.
    pub open spec fn initial() -> RegisterFile {
        RegisterFile { a: 0, x: 0, y: 0, p: 0, sp: 0, pc: ORG }
    }

    /// The same registers with another status byte.
    pub open spec fn with_p(self, p: u8) -> RegisterFile {
        RegisterFile { p, ..self }
    }
}

/// The registers of the processor, with the sink that is told of every
/// change of a flag.
///
/// 8 bit: `a` (accumulator), `x` and `y` (index registers), `p` (status),
/// `sp` (stack pointer). 16 bit: `pc` (program counter).
pub struct Registers<T: Debugger> {
    pub a: u8,
    pub x: u8,
    pub y: u8,
    pub p: u8,
    pub sp: u8,
    pub pc: u16,
    pub debugger: T,
}

impl<T: Debugger> View for Registers<T> {
    type V = RegisterFile;

    open spec fn view(&self) -> RegisterFile {
        RegisterFile { a: self.a, x: self.x, y: self.y, p: self.p, sp: self.sp, pc: self.pc }
    }
}

/// The text of the message that reports a change of the flag `name`.
pub open spec fn flag_message(name: Seq<char>, before: u8, after: u8) -> Seq<char> {
    "Set flag "@ + name + ": "@ + decimal(before as nat) + " -> "@ + decimal(after as nat)
}

/// A flag as the digit `1` (set) or `0` (clear).
pub open spec fn bit_char(on: bool) -> char {
    if on {
        '1'
    } else {
        '0'
    }
}

/// The first line of the register dump: the registers in hexadecimal.
pub open spec fn register_line(r: RegisterFile) -> Seq<char> {
    "Registers: A="@ + hex2(r.a) + " X="@ + hex2(r.x) + " Y="@ + hex2(r.y) + " SP="@ + hex2(r.sp)
        + " PC="@ + hex4(r.pc)
}

/// The seven flags, each `0` or `1`, spaced as the letters of the heading
/// of the flag line are.
pub open spec fn flag_digits(p: u8) -> Seq<char> {
    seq![
        bit_char(flag(p, FLAG_NEGATIVE)),
        ' ',
        bit_char(flag(p, FLAG_OVERFLOW)),
        ' ',
        '-',
        ' ',
        bit_char(flag(p, FLAG_BREAK)),
        ' ',
        ' ',
        bit_char(flag(p, FLAG_DECIMAL)),
        ' ',
        bit_char(flag(p, FLAG_INTERRUPT_DISABLE)),
        ' ',
        bit_char(flag(p, FLAG_ZERO)),
        ' ',
        bit_char(flag(p, FLAG_CARRY)),
    ]
}

/// The second line of the register dump: the seven flags under the
/// letters of the heading.
pub open spec fn flag_line(p: u8) -> Seq<char> {
    "Flag Registers (NV-B DIZC): "@ + flag_digits(p)
}

/// The register dump of `r`, in two lines.
pub open spec fn status_text(r: RegisterFile) -> Seq<char> {
    register_line(r) + seq!['\n'] + flag_line(r.p)
}

/// Appends a flag as a digit.
fn push_bit(text: &mut String, on: bool)
    ensures
        final(text)@ == old(text)@.push(bit_char(on)),
{
    text.push(if on { '1' } else { '0' });
}

/// Builds the message that reports a change of the flag `name`.
fn make_flag_message(name: &str, before: u8, after: u8) -> (text: String)
    ensures
        text@ == flag_message(name@, before, after),
{
    let mut text = String::new();
    text.append("Set flag ");
    text.append(name);
    text.append(": ");
    push_decimal(&mut text, before as usize);
    text.append(" -> ");
    push_decimal(&mut text, after as usize);
    text
}

impl<T: Debugger> Default for Registers<T> {
    fn default() -> (registers: Registers<T>)
        ensures
            registers@ == RegisterFile::initial(),
    {
        Registers { a: 0, x: 0, y: 0, p: 0, sp: 0, pc: ORG, debugger: T::default() }
    }
}

impl<T: Debugger> Registers<T> {
    /// Brings every register back to its initial value.
    pub fn reset(&mut self)
        ensures
            final(self)@ == RegisterFile::initial(),
    {
        self.debug("Reset registers");
        self.a = 0;
        self.x = 0;
        self.y = 0;
        self.p = 0;
        self.sp = 0;
        self.pc = ORG;
    }

    /// Hands `message` to the sink of the registers, as one of the kind
    /// `Info`. No register changes.
    pub fn debug(&mut self, message: &str)
        ensures
            final(self).debugger.heard(&old(self).debugger, message@, DebugKind::Info),
            final(self)@ == old(self)@,
    {
        self.debugger.debug(message, DebugKind::Info);
    }

    /// Sets or clears the flag that `mask` selects, and tells the sink.
    fn set_flag(&mut self, name: &str, mask: u8, value: bool)
        ensures
            final(self)@ == old(self)@.with_p(with_flag(old(self).p, mask, value)),
    {
        let data = if value {
            self.p | mask
        } else {
            self.p & !mask
        };
        let message = make_flag_message(name, self.p, data);
        self.debug(message.as_str());
        self.p = data;
    }

    /// Sets or clears N, bit 7 of the status register.
    pub fn set_flag_negative(&mut self, value: bool)
        ensures
            final(self)@ == old(self)@.with_p(with_flag(old(self).p, FLAG_NEGATIVE, value)),
    {
        self.set_flag("negative", FLAG_NEGATIVE, value);
    }

    /// Whether N is set.
    pub fn get_flag_negative(&self) -> (value: bool)
        ensures
            value == flag(self.p, FLAG_NEGATIVE),
    {
        self.p & FLAG_NEGATIVE != 0
    }

    /// Sets or clears V, bit 6 of the status register.
    pub fn set_flag_overflow(&mut self, value: bool)
        ensures
            final(self)@ == old(self)@.with_p(with_flag(old(self).p, FLAG_OVERFLOW, value)),
    {
        self.set_flag("overflow", FLAG_OVERFLOW, value);
    }

    /// Whether V is set.
    pub fn get_flag_overflow(&self) -> (value: bool)
        ensures
            value == flag(self.p, FLAG_OVERFLOW),
    {
        self.p & FLAG_OVERFLOW != 0
    }

    /// Sets or clears B, bit 4 of the status register.
    pub fn set_flag_break(&mut self, value: bool)
        ensures
            final(self)@ == old(self)@.with_p(with_flag(old(self).p, FLAG_BREAK, value)),
    {
        self.set_flag("break", FLAG_BREAK, value);
    }

    /// Whether B is set.
    pub fn get_flag_break(&self) -> (value: bool)
        ensures
            value == flag(self.p, FLAG_BREAK),
    {
        self.p & FLAG_BREAK != 0
    }

    /// Sets or clears D, bit 3 of the status register.
    pub fn set_flag_decimal(&mut self, value: bool)
        ensures
            final(self)@ == old(self)@.with_p(with_flag(old(self).p, FLAG_DECIMAL, value)),
    {
        self.set_flag("decimal", FLAG_DECIMAL, value);
    }

    /// Whether D is set.
    pub fn get_flag_decimal(&self) -> (value: bool)
        ensures
            value == flag(self.p, FLAG_DECIMAL),
    {
        self.p & FLAG_DECIMAL != 0
    }

    /// Sets or clears I, bit 2 of the status register.
    pub fn set_flag_interrupt_disable(&mut self, value: bool)
        ensures
            final(self)@ == old(self)@.with_p(with_flag(old(self).p, FLAG_INTERRUPT_DISABLE, value)),
    {
        self.set_flag("interrupt disable", FLAG_INTERRUPT_DISABLE, value);
    }

    /// Whether I is set.
    pub fn get_flag_interrupt_disable(&self) -> (value: bool)
        ensures
            value == flag(self.p, FLAG_INTERRUPT_DISABLE),
    {
        self.p & FLAG_INTERRUPT_DISABLE != 0
    }

    /// Sets or clears Z, bit 1 of the status register.
    pub fn set_flag_zero(&mut self, value: bool)
        ensures
            final(self)@ == old(self)@.with_p(with_flag(old(self).p, FLAG_ZERO, value)),
    {
        self.set_flag("zero", FLAG_ZERO, value);
    }

    /// Whether Z is set.
    pub fn get_flag_zero(&self) -> (value: bool)
        ensures
            value == flag(self.p, FLAG_ZERO),
    {
        self.p & FLAG_ZERO != 0
    }

    /// Sets or clears C, bit 0 of the status register.
    pub fn set_flag_carry(&mut self, value: bool)
        ensures
            final(self)@ == old(self)@.with_p(with_flag(old(self).p, FLAG_CARRY, value)),
    {
        self.set_flag("carry", FLAG_CARRY, value);
    }

    /// Whether C is set.
    pub fn get_flag_carry(&self) -> (value: bool)
        ensures
            value == flag(self.p, FLAG_CARRY),
    {
        self.p & FLAG_CARRY != 0
    }

    /// Sets Z exactly when `value` is zero, and N exactly when bit 7 of
    /// `value` is set.
    pub fn set_zero_negative_flags(&mut self, value: u8)
        ensures
            final(self)@ == old(self)@.with_p(with_zero_negative(old(self).p, value)),
    {
        self.set_flag_zero(value == 0);
        self.set_flag_negative(value & 0x80 != 0);
    }

    /// The seven flags as digits.
    fn flag_digits(&self) -> (text: String)
        ensures
            text@ == flag_digits(self.p),
    {
        let mut text = String::new();
        push_bit(&mut text, self.get_flag_negative());
        text.push(' ');
        push_bit(&mut text, self.get_flag_overflow());
        text.push(' ');
        text.push('-');
        text.push(' ');
        push_bit(&mut text, self.get_flag_break());
        text.push(' ');
        text.push(' ');
        push_bit(&mut text, self.get_flag_decimal());
        text.push(' ');
        push_bit(&mut text, self.get_flag_interrupt_disable());
        text.push(' ');
        push_bit(&mut text, self.get_flag_zero());
        text.push(' ');
        push_bit(&mut text, self.get_flag_carry());
        assert(text@ =~= flag_digits(self.p));
        text
    }

    /// The seven flags as a line of text.
    fn flag_line(&self) -> (text: String)
        ensures
            text@ == flag_line(self.p),
    {
        let mut text = String::new();
        text.append("Flag Registers (NV-B DIZC): ");
        let digits = self.flag_digits();
        text.append(digits.as_str());
        text
    }

    /// The register dump: the registers in hexadecimal on the first line,
    /// the seven flags as `0` or `1` on the second.
    pub fn to_string(&self) -> (text: String)
        ensures
            text@ == status_text(self@),
    {
        let mut text = String::new();
        text.append("Registers: A=");
        push_hex2(&mut text, self.a);
        text.append(" X=");
        push_hex2(&mut text, self.x);
        text.append(" Y=");
        push_hex2(&mut text, self.y);
        text.append(" SP=");
        push_hex2(&mut text, self.sp);
        text.append(" PC=");
        push_hex4(&mut text, self.pc);
        text.push('\n');
        let flags = self.flag_line();
        text.append(flags.as_str());
        text
    }
}

} // verus!
