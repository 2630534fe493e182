//! The processor: fetch, decode and execute over the memory bus.
//!
//! Each method is one step of the machine of [`crate::emulator::machine`],
//! and its contract says which.

use vstd::prelude::*;
use crate::emulator::addressing_mode::AddressingMode;
use crate::emulator::debugger::{DebugKind, Debugger, NoneDebugger};
use crate::emulator::laws::lemma_run_fuel;
use crate::emulator::machine::Machine;
use crate::emulator::memory::{loaded, zeroed, MemoryBus, STACK_BASE};
use crate::emulator::registers::{status_text, RegisterFile, Registers, FLAG_CARRY};
use crate::text::{hex2, hex4, push_hex2, push_hex4};

verus! {

/// The processor with its memory `T`, its registers and its debug sinks:
/// `D` is told of what the processor does, `R` of every change of a flag.
pub struct Cpu<T: MemoryBus, D: Debugger, R: Debugger> {
    pub memory: T,
    pub debugger: D,
    pub registers: Registers<R>,
}

/// A processor that reports to nobody.
pub type NoneDebuggerCpu<T> = Cpu<T, NoneDebugger, NoneDebugger>;

impl<T: MemoryBus, D: Debugger, R: Debugger> View for Cpu<T, D, R> {
    type V = Machine;

    open spec fn view(&self) -> Machine {
        Machine { regs: self.registers@, mem: self.memory.bytes() }
    }
}

impl<T: MemoryBus + Default, D: Debugger, R: Debugger> Default for Cpu<T, D, R> {
    /// A processor over the default memory, with its registers in their
    /// initial state.
    fn default() -> (cpu: Cpu<T, D, R>)
        ensures
            cpu@.regs == RegisterFile::initial(),
            call_ensures(T::default, (), cpu.memory),
    {
        Cpu::new(T::default())
    }
}

/// A processor that can be driven one instruction at a time.
pub trait CpuDebugger {
    /// Executes one instruction and returns its opcode.
    fn step(&mut self) -> u8;
}

/// `prefix` followed by the two hexadecimal digits of `value`.
fn message_hex2(prefix: &str, value: u8) -> (text: String)
    ensures
        text@ == prefix@ + hex2(value),
{
    let mut text = String::new();
    text.append(prefix);
    push_hex2(&mut text, value);
    text
}

/// `prefix` followed by the four hexadecimal digits of `value`.
fn message_hex4(prefix: &str, value: u16) -> (text: String)
    ensures
        text@ == prefix@ + hex4(value),
{
    let mut text = String::new();
    text.append(prefix);
    push_hex4(&mut text, value);
    text
}

/// The announcement of the instruction with `opcode` at `pc`.
fn message_execute(opcode: u8, pc: u16) -> (text: String)
    ensures
        text@ == "Execute 0x"@ + hex2(opcode) + " at 0x"@ + hex4(pc),
{
    let mut text = message_hex2("Execute 0x", opcode);
    text.append(" at 0x");
    push_hex4(&mut text, pc);
    text
}

impl<T: MemoryBus, D: Debugger, R: Debugger> Cpu<T, D, R> {
    /// A processor over `memory`, with its registers in their initial
    /// state.
    pub fn new(memory: T) -> (cpu: Cpu<T, D, R>)
        ensures
            cpu.memory == memory,
            cpu@ == (Machine { regs: RegisterFile::initial(), mem: memory.bytes() }),
    {
        Cpu { registers: Registers::default(), memory, debugger: D::default() }
    }

    /// The machine of every processor is well-formed: its memory has its
    /// full size.
    pub proof fn lemma_well_formed(&self)
        ensures
            self@.wf(),
    {
        self.memory.lemma_size();
    }

    /// Hands `message` to the sink of the processor, as one of the kind
    /// `Info`. Nothing but that sink changes.
    pub fn debug(&mut self, message: &str)
        ensures
            final(self).debugger.heard(&old(self).debugger, message@, DebugKind::Info),
            final(self).memory == old(self).memory,
            final(self).registers == old(self).registers,
            final(self)@ == old(self)@,
    {
        self.debugger.debug(message, DebugKind::Info);
    }

    /// Zeroes the memory and brings the registers back to their initial
    /// state.
    pub fn reset(&mut self)
        ensures
            final(self)@ == (Machine { regs: RegisterFile::initial(), mem: zeroed() }),
    {
        self.registers.reset();
        self.memory.reset();
        self.debug("Reset CPU");
    }

    /// Copies `program` to memory from `ORG` on.
    pub fn load(&mut self, program: &[u8])
        ensures
            final(self)@ == (Machine { mem: loaded(old(self)@.mem, program@), ..old(self)@ }),
    {
        self.memory.rom(program);
    }

    /// Runs until a `BRK` was executed. A machine that never reaches one
    /// would run forever, so the caller has to know that this one does.
    pub fn execute(&mut self)
        requires
            old(self)@.halts(),
        ensures
            final(self)@ == old(self)@.run_to_break(),
    {
        let ghost start = self@;
        let ghost mut fuel: nat = choose|n: nat| start.halts_within(n);
        loop
            invariant_except_break
                self@.halts_within(fuel),
                self@.run(fuel) == start.run_to_break(),
            ensures
                self@ == start.run_to_break(),
            decreases fuel,
        {
            let opcode = self.memory.read(self.registers.pc);
            let message = message_execute(opcode, self.registers.pc);
            self.debug(message.as_str());
            self.execute_instruction(opcode);
            if opcode == 0x00 {
                break ;
            }
            proof {
                fuel = (fuel - 1) as nat;
            }
        }
        self.debug("Program finished");
    }

    /// Runs until a `BRK` was executed, but no more than `limit`
    /// instructions, and says whether it got that far. This is the run for
    /// a caller who does not know whether the machine halts.
    pub fn execute_within(&mut self, limit: usize) -> (finished: bool)
        ensures
            finished == (limit > 0 && old(self)@.halts_within((limit - 1) as nat)),
            finished ==> final(self)@ == old(self)@.run_to_break(),
            !finished ==> final(self)@ == old(self)@.steps(limit as nat),
    {
        let ghost start = self@;
        let mut done: usize = 0;
        while done < limit
            invariant
                done <= limit,
                self@ == start.steps(done as nat),
                done < limit ==> start.halts_within((limit - 1) as nat) == self@.halts_within(
                    (limit - 1 - done) as nat,
                ),
                done < limit ==> start.run((limit - 1) as nat) == self@.run(
                    (limit - 1 - done) as nat,
                ),
                done == limit && limit > 0 ==> !start.halts_within((limit - 1) as nat),
                start == old(self)@,
            decreases limit - done,
        {
            let opcode = self.memory.read(self.registers.pc);
            let message = message_execute(opcode, self.registers.pc);
            self.debug(message.as_str());
            self.execute_instruction(opcode);
            if opcode == 0x00 {
                proof {
                    let fuel = choose|n: nat| start.halts_within(n);
                    lemma_run_fuel(start, fuel, (limit - 1) as nat);
                }
                self.debug("Program finished");
                return true;
            }
            done = done + 1;
        }
        false
    }

    /// Executes the instruction with `opcode`, which was fetched at the
    /// program counter. A byte that is no opcode is reported to the sink
    /// and skipped.
    pub fn execute_instruction(&mut self, opcode: u8)
        ensures
            final(self)@ == old(self)@.execute(opcode),
    {
        self.registers.pc = self.registers.pc.wrapping_add(1);
        match opcode {
            0x69 => self.adc(AddressingMode::Immediate),
            0x65 => self.adc(AddressingMode::ZeroPage),
            0x75 => self.adc(AddressingMode::ZeroPageX),
            0x6D => self.adc(AddressingMode::Absolute),
            0x7D => self.adc(AddressingMode::AbsoluteX),
            0x79 => self.adc(AddressingMode::AbsoluteY),
            0x61 => self.adc(AddressingMode::IndirectX),
            0x71 => self.adc(AddressingMode::IndirectY),
            0x29 => self.and(AddressingMode::Immediate),
            0x25 => self.and(AddressingMode::ZeroPage),
            0x35 => self.and(AddressingMode::ZeroPageX),
            0x2D => self.and(AddressingMode::Absolute),
            0x3D => self.and(AddressingMode::AbsoluteX),
            0x39 => self.and(AddressingMode::AbsoluteY),
            0x21 => self.and(AddressingMode::IndirectX),
            0x31 => self.and(AddressingMode::IndirectY),
            0x0A => self.asl(None),
            0x06 => self.asl(Some(AddressingMode::ZeroPage)),
            0x16 => self.asl(Some(AddressingMode::ZeroPageX)),
            0x0E => self.asl(Some(AddressingMode::Absolute)),
            0x1E => self.asl(Some(AddressingMode::AbsoluteX)),
            0x90 => self.bcc(),
            0xB0 => self.bcs(),
            0xF0 => self.beq(),
            0x24 => self.bit(AddressingMode::ZeroPage),
            0x2C => self.bit(AddressingMode::Absolute),
            0x30 => self.bmi(),
            0xD0 => self.bne(),
            0x10 => self.bpl(),
            0x50 => self.bvc(),
            0x70 => self.bvs(),
            0x18 => self.clc(),
            0xD8 => self.cld(),
            0x58 => self.cli(),
            0xB8 => self.clv(),
            0xC9 => self.cmp(AddressingMode::Immediate),
            0xC5 => self.cmp(AddressingMode::ZeroPage),
            0xD5 => self.cmp(AddressingMode::ZeroPageX),
            0xCD => self.cmp(AddressingMode::Absolute),
            0xDD => self.cmp(AddressingMode::AbsoluteX),
            0xD9 => self.cmp(AddressingMode::AbsoluteY),
            0xC1 => self.cmp(AddressingMode::IndirectX),
            0xD1 => self.cmp(AddressingMode::IndirectY),
            0xE0 => self.cpx(AddressingMode::Immediate),
            0xE4 => self.cpx(AddressingMode::ZeroPage),
            0xEC => self.cpx(AddressingMode::Absolute),
            0xC0 => self.cpy(AddressingMode::Immediate),
            0xC4 => self.cpy(AddressingMode::ZeroPage),
            0xCC => self.cpy(AddressingMode::Absolute),
            0xC6 => self.dec(AddressingMode::ZeroPage),
            0xD6 => self.dec(AddressingMode::ZeroPageX),
            0xCE => self.dec(AddressingMode::Absolute),
            0xDE => self.dec(AddressingMode::AbsoluteX),
            0xCA => self.dex(),
            0x88 => self.dey(),
            0x49 => self.eor(AddressingMode::Immediate),
            0x45 => self.eor(AddressingMode::ZeroPage),
            0x55 => self.eor(AddressingMode::ZeroPageX),
            0x4D => self.eor(AddressingMode::Absolute),
            0x5D => self.eor(AddressingMode::AbsoluteX),
            0x59 => self.eor(AddressingMode::AbsoluteY),
            0x41 => self.eor(AddressingMode::IndirectX),
            0x51 => self.eor(AddressingMode::IndirectY),
            0xE6 => self.inc(AddressingMode::ZeroPage),
            0xF6 => self.inc(AddressingMode::ZeroPageX),
            0xEE => self.inc(AddressingMode::Absolute),
            0xFE => self.inc(AddressingMode::AbsoluteX),
            0xE8 => self.inx(),
            0xC8 => self.iny(),
            0x4C => self.jmp(AddressingMode::Absolute),
            0x6C => self.jmp(AddressingMode::Indirect),
            0x20 => self.jsr(),
            0xA9 => self.lda(AddressingMode::Immediate),
            0xA5 => self.lda(AddressingMode::ZeroPage),
            0xB5 => self.lda(AddressingMode::ZeroPageX),
            0xAD => self.lda(AddressingMode::Absolute),
            0xBD => self.lda(AddressingMode::AbsoluteX),
            0xB9 => self.lda(AddressingMode::AbsoluteY),
            0xA1 => self.lda(AddressingMode::IndirectX),
            0xB1 => self.lda(AddressingMode::IndirectY),
            0xA2 => self.ldx(AddressingMode::Immediate),
            0xA6 => self.ldx(AddressingMode::ZeroPage),
            0xB6 => self.ldx(AddressingMode::ZeroPageY),
            0xAE => self.ldx(AddressingMode::Absolute),
            0xBE => self.ldx(AddressingMode::AbsoluteY),
            0xA0 => self.ldy(AddressingMode::Immediate),
            0xA4 => self.ldy(AddressingMode::ZeroPage),
            0xB4 => self.ldy(AddressingMode::ZeroPageX),
            0xAC => self.ldy(AddressingMode::Absolute),
            0xBC => self.ldy(AddressingMode::AbsoluteX),
            0x4A => self.lsr(None),
            0x46 => self.lsr(Some(AddressingMode::ZeroPage)),
            0x56 => self.lsr(Some(AddressingMode::ZeroPageX)),
            0x4E => self.lsr(Some(AddressingMode::Absolute)),
            0x5E => self.lsr(Some(AddressingMode::AbsoluteX)),
            0xEA => {},
            0x09 => self.ora(AddressingMode::Immediate),
            0x05 => self.ora(AddressingMode::ZeroPage),
            0x15 => self.ora(AddressingMode::ZeroPageX),
            0x0D => self.ora(AddressingMode::Absolute),
            0x1D => self.ora(AddressingMode::AbsoluteX),
            0x19 => self.ora(AddressingMode::AbsoluteY),
            0x01 => self.ora(AddressingMode::IndirectX),
            0x11 => self.ora(AddressingMode::IndirectY),
            0x48 => self.pha(),
            0x08 => self.php(),
            0x68 => self.pla(),
            0x28 => self.plp(),
            0x2A => self.rol(None),
            0x26 => self.rol(Some(AddressingMode::ZeroPage)),
            0x36 => self.rol(Some(AddressingMode::ZeroPageX)),
            0x2E => self.rol(Some(AddressingMode::Absolute)),
            0x3E => self.rol(Some(AddressingMode::AbsoluteX)),
            0x6A => self.ror(None),
            0x66 => self.ror(Some(AddressingMode::ZeroPage)),
            0x76 => self.ror(Some(AddressingMode::ZeroPageX)),
            0x6E => self.ror(Some(AddressingMode::Absolute)),
            0x7E => self.ror(Some(AddressingMode::AbsoluteX)),
            0x40 => self.rti(),
            0x60 => self.rts(),
            0xE9 => self.sbc(AddressingMode::Immediate),
            0xE5 => self.sbc(AddressingMode::ZeroPage),
            0xF5 => self.sbc(AddressingMode::ZeroPageX),
            0xED => self.sbc(AddressingMode::Absolute),
            0xFD => self.sbc(AddressingMode::AbsoluteX),
            0xF9 => self.sbc(AddressingMode::AbsoluteY),
            0xE1 => self.sbc(AddressingMode::IndirectX),
            0xF1 => self.sbc(AddressingMode::IndirectY),
            0x38 => self.sec(),
            0xF8 => self.sed(),
            0x78 => self.sei(),
            0x85 => self.sta(AddressingMode::ZeroPage),
            0x95 => self.sta(AddressingMode::ZeroPageX),
            0x8D => self.sta(AddressingMode::Absolute),
            0x9D => self.sta(AddressingMode::AbsoluteX),
            0x99 => self.sta(AddressingMode::AbsoluteY),
            0x81 => self.sta(AddressingMode::IndirectX),
            0x91 => self.sta(AddressingMode::IndirectY),
            0x86 => self.stx(AddressingMode::ZeroPage),
            0x96 => self.stx(AddressingMode::ZeroPageY),
            0x8E => self.stx(AddressingMode::Absolute),
            0x84 => self.sty(AddressingMode::ZeroPage),
            0x94 => self.sty(AddressingMode::ZeroPageX),
            0x8C => self.sty(AddressingMode::Absolute),
            0xAA => self.tax(),
            0xA8 => self.tay(),
            0xBA => self.tsx(),
            0x8A => self.txa(),
            0x9A => self.txs(),
            0x98 => self.tya(),
            0x00 => {},
            _ => {
                let message = message_hex2("Unknown opcode: 0x", opcode);
                self.debugger.debug(message.as_str(), DebugKind::Warn);
            },
        }
    }

    /// Stores `data` where the stack pointer points, then moves the stack
    /// pointer down by one.
    pub fn stack_push(&mut self, data: u8)
        ensures
            final(self)@ == old(self)@.push(data),
    {
        self.memory.write(STACK_BASE + self.registers.sp as u16, data);
        self.registers.sp = self.registers.sp.wrapping_sub(1);
        let message = message_hex2("Stack push 0x", data);
        self.debug(message.as_str());
    }

    /// Moves the stack pointer up by one, then reads where it points.
    pub fn stack_pop(&mut self) -> (data: u8)
        ensures
            data == old(self)@.pop_value(),
            final(self)@ == old(self)@.pop(),
    {
        self.registers.sp = self.registers.sp.wrapping_add(1);
        let data = self.memory.read(STACK_BASE + self.registers.sp as u16);
        let message = message_hex2("Stack pop 0x", data);
        self.debug(message.as_str());
        data
    }

    /// Pushes the high byte of `data`, then its low byte.
    pub fn stack_push_addr(&mut self, data: u16)
        ensures
            final(self)@ == old(self)@.push_addr(data),
    {
        let lsb = (data % 256) as u8;
        let msb = (data / 256) as u8;
        self.stack_push(msb);
        self.stack_push(lsb);
        let message = message_hex4("Stack push 0x", data);
        self.debug(message.as_str());
    }

    /// Pops the low byte of a word, then its high byte.
    pub fn stack_pop_addr(&mut self) -> (data: u16)
        ensures
            data == old(self)@.pop_addr_value(),
            final(self)@ == old(self)@.pop_addr(),
    {
        let lsb = self.stack_pop();
        let msb = self.stack_pop();
        let data = lsb as u16 + 256 * (msb as u16);
        let message = message_hex4("Stack pop 0x", data);
        self.debug(message.as_str());
        data
    }

    /// Reads the operand bytes at the program counter, moves the program
    /// counter past them and returns the address of the operand.
    pub fn get_address_from_mode(&mut self, mode: AddressingMode) -> (address: u16)
        ensures
            address == old(self)@.effective_address(mode),
            final(self)@ == old(self)@.skip_operand(mode),
    {
        let mut message = String::new();
        message.append("Addressing mode ");
        message.append(mode.to_str());
        self.debug(message.as_str());
        let pc = self.registers.pc;
        match mode {
            AddressingMode::Immediate => {
                self.registers.pc = pc.wrapping_add(1);
                pc
            },
            AddressingMode::Absolute => {
                let data = self.memory.read_addr(pc);
                self.registers.pc = pc.wrapping_add(2);
                data
            },
            AddressingMode::AbsoluteX => {
                let base = self.memory.read_addr(pc);
                self.registers.pc = pc.wrapping_add(2);
                base.wrapping_add(self.registers.x as u16)
            },
            AddressingMode::AbsoluteY => {
                let base = self.memory.read_addr(pc);
                self.registers.pc = pc.wrapping_add(2);
                base.wrapping_add(self.registers.y as u16)
            },
            AddressingMode::Indirect => {
                let ptr = self.memory.read_addr(pc);
                self.registers.pc = pc.wrapping_add(2);
                self.memory.read_addr(ptr)
            },
            AddressingMode::IndirectX => {
                let base = self.memory.read(pc);
                self.registers.pc = pc.wrapping_add(1);
                let ptr = base.wrapping_add(self.registers.x);
                self.memory.read_addr(ptr as u16)
            },
            AddressingMode::IndirectY => {
                let ptr = self.memory.read(pc);
                self.registers.pc = pc.wrapping_add(1);
                let data = self.memory.read_addr(ptr as u16);
                data.wrapping_add(self.registers.y as u16)
            },
            AddressingMode::ZeroPage => {
                let data = self.memory.read(pc);
                self.registers.pc = pc.wrapping_add(1);
                data as u16
            },
            AddressingMode::ZeroPageX => {
                let data = self.memory.read(pc);
                self.registers.pc = pc.wrapping_add(1);
                data.wrapping_add(self.registers.x) as u16
            },
            AddressingMode::ZeroPageY => {
                let data = self.memory.read(pc);
                self.registers.pc = pc.wrapping_add(1);
                data.wrapping_add(self.registers.y) as u16
            },
        }
    }

    /// Like `get_address_from_mode`, but returns the operand itself.
    pub fn get_data_from_addressing_mode(&mut self, mode: AddressingMode) -> (data: u8)
        ensures
            data == old(self)@.operand(mode),
            final(self)@ == old(self)@.skip_operand(mode),
    {
        let address = self.get_address_from_mode(mode);
        self.memory.read(address)
    }

    /// A + `data` + C goes to A, with N, V, Z and C describing the sum.
    pub fn add_to_accumulator_with_carry(&mut self, data: u8)
        ensures
            final(self)@ == old(self)@.add_with_carry(data),
    {
        let a = self.registers.a;
        let carry: u16 = if self.registers.get_flag_carry() {
            1
        } else {
            0
        };
        let sum: u16 = a as u16 + data as u16 + carry;
        self.registers.set_flag_carry(sum > 0xFF);
        let sum = (sum % 0x100) as u8;
        self.registers.set_flag_overflow((a ^ sum) & (data ^ sum) & 0x80 != 0);
        self.registers.set_zero_negative_flags(sum);
        self.registers.a = sum;
    }

    /// Takes a branch: moves the program counter past the operand byte and
    /// on by the signed displacement that the byte holds.
    pub fn branch(&mut self)
        ensures
            final(self)@ == old(self)@.branch_if(true),
    {
        let offset = self.memory.read(self.registers.pc);
        let next = self.registers.pc.wrapping_add(1);
        if offset < 0x80 {
            self.registers.pc = next.wrapping_add(offset as u16);
        } else {
            self.registers.pc = next.wrapping_sub(0x100 - offset as u16);
        }
        let message = message_hex4("Branch to 0x", self.registers.pc);
        self.debug(message.as_str());
    }

    /// The byte that a shift works on, and its address if it lies in
    /// memory. The program counter moves past the operand bytes.
    fn shift_input(&mut self, mode: Option<AddressingMode>) -> (input: (Option<u16>, u8))
        ensures
            input.1 == old(self)@.shift_input(mode),
            match mode {
                Some(mode) => input.0 == Some(old(self)@.effective_address(mode)) && final(self)@
                    == old(self)@.skip_operand(mode),
                None => input.0.is_none() && final(self)@ == old(self)@,
            },
    {
        match mode {
            Some(mode) => {
                let address = self.get_address_from_mode(mode);
                (Some(address), self.memory.read(address))
            },
            None => (None, self.registers.a),
        }
    }

    /// Stores the result of a shift where its input came from, with C the
    /// bit that was moved out and N and Z describing the result.
    fn shift_output(&mut self, address: Option<u16>, result: u8, carry: bool)
        ensures
            final(self)@ == ({
                let flagged = old(self)@.set_flag(FLAG_CARRY, carry).set_zero_negative(result);
                match address {
                    Some(address) => flagged.write(address, result),
                    None => flagged.set_a(result),
                }
            }),
    {
        self.registers.set_flag_carry(carry);
        self.registers.set_zero_negative_flags(result);
        match address {
            Some(address) => self.memory.write(address, result),
            None => self.registers.a = result,
        }
    }

    /// ADC: add memory to the accumulator with carry.
    pub fn adc(&mut self, mode: AddressingMode)
        ensures
            final(self)@ == old(self)@.adc(mode),
    {
        let data = self.get_data_from_addressing_mode(mode);
        self.add_to_accumulator_with_carry(data);
    }

    /// SBC: subtract memory from the accumulator with borrow.
    pub fn sbc(&mut self, mode: AddressingMode)
        ensures
            final(self)@ == old(self)@.sbc(mode),
    {
        let data = self.get_data_from_addressing_mode(mode);
        self.add_to_accumulator_with_carry(data ^ 0xFF);
    }
    /// AND: A and memory go to A.
    pub fn and(&mut self, mode: AddressingMode)
        ensures
            final(self)@ == old(self)@.and(mode),
    {
        let data = self.get_data_from_addressing_mode(mode);
        self.registers.a = self.registers.a & data;
        self.registers.set_zero_negative_flags(self.registers.a);
    }

    /// EOR: A exclusive-or memory goes to A.
    pub fn eor(&mut self, mode: AddressingMode)
        ensures
            final(self)@ == old(self)@.eor(mode),
    {
        let data = self.get_data_from_addressing_mode(mode);
        self.registers.a = self.registers.a ^ data;
        self.registers.set_zero_negative_flags(self.registers.a);
    }

    /// ORA: A or memory goes to A.
    pub fn ora(&mut self, mode: AddressingMode)
        ensures
            final(self)@ == old(self)@.ora(mode),
    {
        let data = self.get_data_from_addressing_mode(mode);
        self.registers.a = self.registers.a | data;
        self.registers.set_zero_negative_flags(self.registers.a);
    }

    /// ASL: shift left one bit; bit 7 goes to C.
    pub fn asl(&mut self, mode: Option<AddressingMode>)
        ensures
            final(self)@ == old(self)@.asl(mode),
    {
        let (address, data) = self.shift_input(mode);
        self.shift_output(address, data << 1, data & 0x80 != 0);
    }

    /// LSR: shift right one bit; bit 0 goes to C.
    pub fn lsr(&mut self, mode: Option<AddressingMode>)
        ensures
            final(self)@ == old(self)@.lsr(mode),
    {
        let (address, data) = self.shift_input(mode);
        self.shift_output(address, data >> 1, data & 0x01 != 0);
    }

    /// ROL: rotate left one bit through C.
    pub fn rol(&mut self, mode: Option<AddressingMode>)
        ensures
            final(self)@ == old(self)@.rol(mode),
    {
        let carry: u8 = if self.registers.get_flag_carry() {
            1
        } else {
            0
        };
        let (address, data) = self.shift_input(mode);
        self.shift_output(address, (data << 1) | carry, data & 0x80 != 0);
    }

    /// ROR: rotate right one bit through C.
    pub fn ror(&mut self, mode: Option<AddressingMode>)
        ensures
            final(self)@ == old(self)@.ror(mode),
    {
        let carry: u8 = if self.registers.get_flag_carry() {
            1
        } else {
            0
        };
        let (address, data) = self.shift_input(mode);
        self.shift_output(address, (data >> 1) | (carry << 7), data & 0x01 != 0);
    }

    /// BCC: branch if C is clear.
    pub fn bcc(&mut self)
        ensures
            final(self)@ == old(self)@.bcc(),
    {
        if !self.registers.get_flag_carry() {
            self.branch();
        } else {
            self.registers.pc = self.registers.pc.wrapping_add(1);
        }
    }

    /// BCS: branch if C is set.
    pub fn bcs(&mut self)
        ensures
            final(self)@ == old(self)@.bcs(),
    {
        if self.registers.get_flag_carry() {
            self.branch();
        } else {
            self.registers.pc = self.registers.pc.wrapping_add(1);
        }
    }

    /// BEQ: branch if Z is set.
    pub fn beq(&mut self)
        ensures
            final(self)@ == old(self)@.beq(),
    {
        if self.registers.get_flag_zero() {
            self.branch();
        } else {
            self.registers.pc = self.registers.pc.wrapping_add(1);
        }
    }

    /// BMI: branch if N is set.
    pub fn bmi(&mut self)
        ensures
            final(self)@ == old(self)@.bmi(),
    {
        if self.registers.get_flag_negative() {
            self.branch();
        } else {
            self.registers.pc = self.registers.pc.wrapping_add(1);
        }
    }

    /// BNE: branch if Z is clear.
    pub fn bne(&mut self)
        ensures
            final(self)@ == old(self)@.bne(),
    {
        if !self.registers.get_flag_zero() {
            self.branch();
        } else {
            self.registers.pc = self.registers.pc.wrapping_add(1);
        }
    }

    /// BPL: branch if N is clear.
    pub fn bpl(&mut self)
        ensures
            final(self)@ == old(self)@.bpl(),
    {
        if !self.registers.get_flag_negative() {
            self.branch();
        } else {
            self.registers.pc = self.registers.pc.wrapping_add(1);
        }
    }

    /// BVC: branch if V is clear.
    pub fn bvc(&mut self)
        ensures
            final(self)@ == old(self)@.bvc(),
    {
        if !self.registers.get_flag_overflow() {
            self.branch();
        } else {
            self.registers.pc = self.registers.pc.wrapping_add(1);
        }
    }

    /// BVS: branch if V is set.
    pub fn bvs(&mut self)
        ensures
            final(self)@ == old(self)@.bvs(),
    {
        if self.registers.get_flag_overflow() {
            self.branch();
        } else {
            self.registers.pc = self.registers.pc.wrapping_add(1);
        }
    }

    /// BIT: N and V from bits 7 and 6 of memory, Z from A and memory.
    pub fn bit(&mut self, mode: AddressingMode)
        ensures
            final(self)@ == old(self)@.bit(mode),
    {
        let data = self.get_data_from_addressing_mode(mode);
        let result = self.registers.a & data;
        self.registers.set_flag_negative(data & 0x80 != 0);
        self.registers.set_flag_overflow(data & 0x40 != 0);
        self.registers.set_flag_zero(result == 0);
    }

    /// CLC: clear C.
    pub fn clc(&mut self)
        ensures
            final(self)@ == old(self)@.clc(),
    {
        self.registers.set_flag_carry(false);
    }

    /// CLD: clear D.
    pub fn cld(&mut self)
        ensures
            final(self)@ == old(self)@.cld(),
    {
        self.registers.set_flag_decimal(false);
    }

    /// CLI: clear I.
    pub fn cli(&mut self)
        ensures
            final(self)@ == old(self)@.cli(),
    {
        self.registers.set_flag_interrupt_disable(false);
    }

    /// CLV: clear V.
    pub fn clv(&mut self)
        ensures
            final(self)@ == old(self)@.clv(),
    {
        self.registers.set_flag_overflow(false);
    }

    /// SEC: set C.
    pub fn sec(&mut self)
        ensures
            final(self)@ == old(self)@.sec(),
    {
        self.registers.set_flag_carry(true);
    }

    /// SED: set D.
    pub fn sed(&mut self)
        ensures
            final(self)@ == old(self)@.sed(),
    {
        self.registers.set_flag_decimal(true);
    }

    /// SEI: set I.
    pub fn sei(&mut self)
        ensures
            final(self)@ == old(self)@.sei(),
    {
        self.registers.set_flag_interrupt_disable(true);
    }

    /// CMP: compare memory with A.
    pub fn cmp(&mut self, mode: AddressingMode)
        ensures
            final(self)@ == old(self)@.cmp(mode),
    {
        let data = self.get_data_from_addressing_mode(mode);
        let result = self.registers.a.wrapping_sub(data);
        self.registers.set_zero_negative_flags(result);
        self.registers.set_flag_carry(self.registers.a >= data);
    }

    /// CPX: compare memory with X.
    pub fn cpx(&mut self, mode: AddressingMode)
        ensures
            final(self)@ == old(self)@.cpx(mode),
    {
        let data = self.get_data_from_addressing_mode(mode);
        let result = self.registers.x.wrapping_sub(data);
        self.registers.set_zero_negative_flags(result);
        self.registers.set_flag_carry(self.registers.x >= data);
    }

    /// CPY: compare memory with Y.
    pub fn cpy(&mut self, mode: AddressingMode)
        ensures
            final(self)@ == old(self)@.cpy(mode),
    {
        let data = self.get_data_from_addressing_mode(mode);
        let result = self.registers.y.wrapping_sub(data);
        self.registers.set_zero_negative_flags(result);
        self.registers.set_flag_carry(self.registers.y >= data);
    }

    /// DEC: memory minus one.
    pub fn dec(&mut self, mode: AddressingMode)
        ensures
            final(self)@ == old(self)@.dec(mode),
    {
        let addr = self.get_address_from_mode(mode);
        let data = self.memory.read(addr).wrapping_sub(1);
        self.memory.write(addr, data);
        self.registers.set_zero_negative_flags(data);
    }

    /// INC: memory plus one.
    pub fn inc(&mut self, mode: AddressingMode)
        ensures
            final(self)@ == old(self)@.inc(mode),
    {
        let addr = self.get_address_from_mode(mode);
        let data = self.memory.read(addr).wrapping_add(1);
        self.memory.write(addr, data);
        self.registers.set_zero_negative_flags(data);
    }

    /// DEX: X minus one.
    pub fn dex(&mut self)
        ensures
            final(self)@ == old(self)@.dex(),
    {
        self.registers.x = self.registers.x.wrapping_sub(1);
        self.registers.set_zero_negative_flags(self.registers.x);
    }

    /// DEY: Y minus one.
    pub fn dey(&mut self)
        ensures
            final(self)@ == old(self)@.dey(),
    {
        self.registers.y = self.registers.y.wrapping_sub(1);
        self.registers.set_zero_negative_flags(self.registers.y);
    }

    /// INX: X plus one.
    pub fn inx(&mut self)
        ensures
            final(self)@ == old(self)@.inx(),
    {
        self.registers.x = self.registers.x.wrapping_add(1);
        self.registers.set_zero_negative_flags(self.registers.x);
    }

    /// INY: Y plus one.
    pub fn iny(&mut self)
        ensures
            final(self)@ == old(self)@.iny(),
    {
        self.registers.y = self.registers.y.wrapping_add(1);
        self.registers.set_zero_negative_flags(self.registers.y);
    }

    /// JMP: jump to the operand's address.
    pub fn jmp(&mut self, mode: AddressingMode)
        ensures
            final(self)@ == old(self)@.jmp(mode),
    {
        let address = self.get_address_from_mode(mode);
        self.registers.pc = address;
    }

    /// JSR: push the address of the instruction's last byte, then jump.
    pub fn jsr(&mut self)
        ensures
            final(self)@ == old(self)@.jsr(),
    {
        self.stack_push_addr(self.registers.pc.wrapping_add(1));
        let address = self.get_address_from_mode(AddressingMode::Absolute);
        self.registers.pc = address;
    }

    /// LDA: memory goes to A.
    pub fn lda(&mut self, mode: AddressingMode)
        ensures
            final(self)@ == old(self)@.lda(mode),
    {
        let data = self.get_data_from_addressing_mode(mode);
        self.registers.a = data;
        self.registers.set_zero_negative_flags(self.registers.a);
    }

    /// LDX: memory goes to X.
    pub fn ldx(&mut self, mode: AddressingMode)
        ensures
            final(self)@ == old(self)@.ldx(mode),
    {
        let data = self.get_data_from_addressing_mode(mode);
        self.registers.x = data;
        self.registers.set_zero_negative_flags(self.registers.x);
    }

    /// LDY: memory goes to Y.
    pub fn ldy(&mut self, mode: AddressingMode)
        ensures
            final(self)@ == old(self)@.ldy(mode),
    {
        let data = self.get_data_from_addressing_mode(mode);
        self.registers.y = data;
        self.registers.set_zero_negative_flags(self.registers.y);
    }

    /// PHA: push A.
    pub fn pha(&mut self)
        ensures
            final(self)@ == old(self)@.pha(),
    {
        self.stack_push(self.registers.a);
    }

    /// PHP: push the status register.
    pub fn php(&mut self)
        ensures
            final(self)@ == old(self)@.php(),
    {
        self.stack_push(self.registers.p);
    }

    /// PLA: pull A.
    pub fn pla(&mut self)
        ensures
            final(self)@ == old(self)@.pla(),
    {
        self.registers.a = self.stack_pop();
        self.registers.set_zero_negative_flags(self.registers.a);
    }

    /// PLP: pull the status register, all eight bits of it.
    pub fn plp(&mut self)
        ensures
            final(self)@ == old(self)@.plp(),
    {
        self.registers.p = self.stack_pop();
    }

    /// RTI: pull the status register, then the program counter.
    pub fn rti(&mut self)
        ensures
            final(self)@ == old(self)@.rti(),
    {
        self.registers.p = self.stack_pop();
        self.registers.pc = self.stack_pop_addr();
    }

    /// RTS: pull the program counter and add one.
    pub fn rts(&mut self)
        ensures
            final(self)@ == old(self)@.rts(),
    {
        let address = self.stack_pop_addr();
        self.registers.pc = address.wrapping_add(1);
    }

    /// STA: A goes to memory.
    pub fn sta(&mut self, mode: AddressingMode)
        ensures
            final(self)@ == old(self)@.sta(mode),
    {
        let address = self.get_address_from_mode(mode);
        self.memory.write(address, self.registers.a);
    }

    /// STX: X goes to memory.
    pub fn stx(&mut self, mode: AddressingMode)
        ensures
            final(self)@ == old(self)@.stx(mode),
    {
        let address = self.get_address_from_mode(mode);
        self.memory.write(address, self.registers.x);
    }

    /// STY: Y goes to memory.
    pub fn sty(&mut self, mode: AddressingMode)
        ensures
            final(self)@ == old(self)@.sty(mode),
    {
        let address = self.get_address_from_mode(mode);
        self.memory.write(address, self.registers.y);
    }

    /// TAX: A goes to X.
    pub fn tax(&mut self)
        ensures
            final(self)@ == old(self)@.tax(),
    {
        self.registers.x = self.registers.a;
        self.registers.set_zero_negative_flags(self.registers.x);
    }

    /// TAY: A goes to Y.
    pub fn tay(&mut self)
        ensures
            final(self)@ == old(self)@.tay(),
    {
        self.registers.y = self.registers.a;
        self.registers.set_zero_negative_flags(self.registers.y);
    }

    /// TSX: the stack pointer goes to X.
    pub fn tsx(&mut self)
        ensures
            final(self)@ == old(self)@.tsx(),
    {
        self.registers.x = self.registers.sp;
        self.registers.set_zero_negative_flags(self.registers.x);
    }

    /// TXA: X goes to A.
    pub fn txa(&mut self)
        ensures
            final(self)@ == old(self)@.txa(),
    {
        self.registers.a = self.registers.x;
        self.registers.set_zero_negative_flags(self.registers.a);
    }

    /// TYA: Y goes to A.
    pub fn tya(&mut self)
        ensures
            final(self)@ == old(self)@.tya(),
    {
        self.registers.a = self.registers.y;
        self.registers.set_zero_negative_flags(self.registers.a);
    }

    /// TXS: X goes to the stack pointer; no flag changes.
    pub fn txs(&mut self)
        ensures
            final(self)@ == old(self)@.txs(),
    {
        self.registers.sp = self.registers.x;
    }

    /// The register dump.
    pub fn to_string(&self) -> (text: String)
        ensures
            text@ == status_text(self@.regs),
    {
        self.registers.to_string()
    }
}

impl<T: MemoryBus, D: Debugger, R: Debugger> CpuDebugger for Cpu<T, D, R> {
    /// Executes the instruction at the program counter and returns its
    /// opcode.
    fn step(&mut self) -> (opcode: u8)
        ensures
            opcode == old(self)@.read(old(self)@.regs.pc),
            final(self)@ == old(self)@.step(),
    {
        let opcode = self.memory.read(self.registers.pc);
        let message = message_execute(opcode, self.registers.pc);
        self.debug(message.as_str());
        self.execute_instruction(opcode);
        opcode
    }
}

} // verus!
