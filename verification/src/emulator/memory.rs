//! The memory bus: 64 KiB of byte-addressable memory with a program loader.
//!
//! Every 16-bit address is valid, so no access is ever out of bounds. The
//! processor works on any memory that keeps the contract of `MemoryBus`;
//! `Memory` is the plain one.

use vstd::prelude::*;
use crate::text::{hex2, hex4, push_hex2, push_hex4};

verus! {

/// The address at which programs are loaded and at which execution starts.
pub const ORG: u16 = 0x8000;

/// The page that holds the stack: the stack pointer indexes into
/// `0x0100..=0x01FF`.
pub const STACK_BASE: u16 = 0x0100;

/// The number of bytes on the bus.
pub const MEMORY_SIZE: usize = 0x10000;

/// The 16-bit word with low byte `lo` and high byte `hi`.
pub open spec fn word(lo: u8, hi: u8) -> u16 {
    (lo as int + 256 * (hi as int)) as u16
}

/// The low byte of a word.
pub open spec fn low_byte(w: u16) -> u8 {
    (w as int % 256) as u8
}

/// The high byte of a word.
pub open spec fn high_byte(w: u16) -> u8 {
    (w as int / 256) as u8
}

/// The little-endian word at `addr`: its high byte is the byte at the next
/// address, which for `0xFFFF` is `0x0000`.
pub open spec fn read_word(mem: Seq<u8>, addr: u16) -> u16 {
    word(mem[addr as int], mem[addr.wrapping_add(1) as int])
}

/// The memory `mem` after `program` was copied to it from `ORG` on. What
/// would lie beyond the last address is not copied.
pub open spec fn loaded(mem: Seq<u8>, program: Seq<u8>) -> Seq<u8> {
    Seq::new(
        0x10000,
        |a: int|
            if ORG <= a < ORG + program.len() {
                program[a - ORG]
            } else {
                mem[a]
            },
    )
}

/// Sixty-four KiB of zero bytes.
pub open spec fn zeroed() -> Seq<u8> {
    Seq::new(0x10000, |a: int| 0u8)
}

/// The bytes `mem[from..=to]` as a row of a dump: a space and two
/// hexadecimal digits for each.
pub open spec fn row_text(mem: Seq<u8>, from: int, to: int) -> Seq<char>
    decreases to - from + 1,
{
    if from > to {
        seq![]
    } else {
        row_text(mem, from, to - 1) + seq![' '] + hex2(mem[to])
    }
}

/// The last address of the row of a dump that starts at `start`, in a dump
/// that ends at `end`: a row holds up to 16 bytes.
pub open spec fn row_last(start: int, end: int) -> int {
    if start + 15 < end {
        start + 15
    } else {
        end
    }
}

/// The dump of `mem[start..=end]`: rows of up to 16 bytes, each with the
/// address of its first byte in four hexadecimal digits, a colon, and the
/// bytes; a line feed between the rows. Empty if `start` is above `end`.
pub open spec fn hexdump_text(mem: Seq<u8>, start: int, end: int) -> Seq<char>
    decreases end - start,
{
    if start > end || start < 0 || start > 0xFFFF {
        seq![]
    } else {
        let last = row_last(start, end);
        hex4(start as u16) + seq![':'] + row_text(mem, start, last) + if last < end {
            seq!['\n'] + hexdump_text(mem, last + 1, end)
        } else {
            seq![]
        }
    }
}

/// The memory bus: what the processor asks of a memory. A memory is
/// 65 536 bytes, one for each 16-bit address.
pub trait MemoryBus {
    /// The bytes on the bus, by address.
    spec fn bytes(&self) -> Seq<u8>;

    /// There are exactly 65 536 of them.
    proof fn lemma_size(&self)
        ensures
            self.bytes().len() == 0x10000,
    ;

    /// The byte at `addr`.
    fn read(&self, addr: u16) -> (value: u8)
        ensures
            value == self.bytes()[addr as int],
    ;

    /// The little-endian word at `addr`, read low byte first.
    fn read_addr(&self, addr: u16) -> (value: u16)
        ensures
            value == read_word(self.bytes(), addr),
    ;

    /// Stores `value` at `addr`.
    fn write(&mut self, addr: u16, value: u8)
        ensures
            final(self).bytes() == old(self).bytes().update(addr as int, value),
    ;

    /// Zeroes every byte.
    fn reset(&mut self)
        ensures
            final(self).bytes() == zeroed(),
    ;

    /// Copies `program` to memory, its first byte to `ORG`. A program
    /// longer than the 32 KiB from `ORG` to the last address is cut there.
    fn rom(&mut self, program: &[u8])
        ensures
            final(self).bytes() == loaded(old(self).bytes(), program@),
    ;
}

/// Sixty-four KiB of random-access memory. Its view is the sequence of its
/// bytes.
pub struct Memory {
    bytes: [u8; MEMORY_SIZE],
}

impl View for Memory {
    type V = Seq<u8>;

    closed spec fn view(&self) -> Seq<u8> {
        self.bytes@
    }
}

impl Default for Memory {
    fn default() -> (memory: Memory)
        ensures
            memory@ == zeroed(),
    {
        Memory::new()
    }
}

impl Memory {
    /// A memory of zero bytes.
    pub fn new() -> (memory: Memory)
        ensures
            memory@ == zeroed(),
    {
        let memory = Memory { bytes: [0u8; MEMORY_SIZE] };
        assert(memory@ =~= zeroed());
        memory
    }
}

impl MemoryBus for Memory {
    open spec fn bytes(&self) -> Seq<u8> {
        self@
    }

    proof fn lemma_size(&self) {
    }

    fn read(&self, addr: u16) -> (value: u8) {
        self.bytes[addr as usize]
    }

    fn read_addr(&self, addr: u16) -> (value: u16) {
        let lo = self.read(addr);
        let hi = self.read(addr.wrapping_add(1));
        lo as u16 + 256 * (hi as u16)
    }

    fn write(&mut self, addr: u16, value: u8) {
        self.bytes[addr as usize] = value;
        assert(self@ =~= old(self)@.update(addr as int, value));
    }

    fn reset(&mut self) {
        self.bytes = [0u8; MEMORY_SIZE];
        assert(self@ =~= zeroed());
    }

    fn rom(&mut self, program: &[u8]) {
        let mut i: usize = 0;
        while i < program.len() && i < 0x8000
            invariant
                i <= 0x8000,
                i <= program.len(),
                self@ == loaded(old(self)@, program@.take(i as int)),
            decreases 0x8000 - i,
        {
            self.bytes[0x8000 + i] = program[i];
            i = i + 1;
            assert(self@ =~= loaded(old(self)@, program@.take(i as int)));
        }
        assert(self@ =~= loaded(old(self)@, program@));
    }
}

/// The dump of `memory` from `start` to `end`, both included.
pub fn memory_hexdump<T: MemoryBus>(memory: &T, start: u16, end: u16) -> (text: String)
    ensures
        text@ == hexdump_text(memory.bytes(), start as int, end as int),
{
    let mut text = String::new();
    if start > end {
        return text;
    }
    let ghost mem = memory.bytes();
    let mut row: u32 = start as u32;
    loop
        invariant_except_break
            start <= row <= end,
            mem == memory.bytes(),
            hexdump_text(mem, start as int, end as int) == text@ + hexdump_text(
                mem,
                row as int,
                end as int,
            ),
        ensures
            text@ == hexdump_text(mem, start as int, end as int),
        decreases end - row,
    {
        let last: u32 = if row + 15 < end as u32 {
            row + 15
        } else {
            end as u32
        };
        let ghost before = text@;
        push_hex4(&mut text, row as u16);
        text.push(':');
        let mut at: u32 = row;
        while at <= last
            invariant
                row <= at <= last + 1,
                last <= 0xFFFF,
                mem == memory.bytes(),
                text@ == before + hex4(row as u16) + seq![':'] + row_text(
                    mem,
                    row as int,
                    at - 1,
                ),
            decreases last + 1 - at,
        {
            text.push(' ');
            push_hex2(&mut text, memory.read(at as u16));
            at = at + 1;
        }
        if last < end as u32 {
            text.push('\n');
            row = last + 1;
        } else {
            break ;
        }
    }
    text
}

} // verus!
