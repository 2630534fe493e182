//! The machine that the processor implements: its state and, for every
//! instruction, the state that follows.
//!
//! Everything here is mathematics. The executable processor is proved to
//! move through these states step by step. What an opcode stands for is
//! taken from the table of the instruction set, the one by which the
//! assembler encodes: machine code means to the processor what the
//! assembler meant by it.

use vstd::prelude::*;
use crate::assembler::instruction::{decode, Mnemonics};
use crate::emulator::addressing_mode::AddressingMode;
use crate::emulator::memory::{high_byte, low_byte, read_word, word, STACK_BASE};
use crate::emulator::registers::{
    flag, with_flag, with_zero_negative, RegisterFile, FLAG_CARRY, FLAG_DECIMAL,
    FLAG_INTERRUPT_DISABLE, FLAG_NEGATIVE, FLAG_OVERFLOW, FLAG_ZERO,
};

verus! {

/// The way in which the processor finds an operand that is encoded in the
/// form `mode`; none for an instruction without operand bytes. Outside the
/// branches, whose byte is a displacement, the form `RELZPG` is a
/// zero-page address.
pub open spec fn operand_mode(mode: crate::assembler::instruction::AddressingMode) -> Option<
    AddressingMode,
> {
    match mode {
        crate::assembler::instruction::AddressingMode::IMPACC => None,
        crate::assembler::instruction::AddressingMode::IMM => Some(AddressingMode::Immediate),
        crate::assembler::instruction::AddressingMode::RELZPG => Some(AddressingMode::ZeroPage),
        crate::assembler::instruction::AddressingMode::ZPX => Some(AddressingMode::ZeroPageX),
        crate::assembler::instruction::AddressingMode::ZPY => Some(AddressingMode::ZeroPageY),
        crate::assembler::instruction::AddressingMode::ABS => Some(AddressingMode::Absolute),
        crate::assembler::instruction::AddressingMode::ABX => Some(AddressingMode::AbsoluteX),
        crate::assembler::instruction::AddressingMode::ABY => Some(AddressingMode::AbsoluteY),
        crate::assembler::instruction::AddressingMode::IND => Some(AddressingMode::Indirect),
        crate::assembler::instruction::AddressingMode::IDX => Some(AddressingMode::IndirectX),
        crate::assembler::instruction::AddressingMode::IDY => Some(AddressingMode::IndirectY),
    }
}

/// The way in which the processor finds the operand of an instruction
/// that has operand bytes.
pub open spec fn address_mode(mode: crate::assembler::instruction::AddressingMode)
    -> AddressingMode {
    operand_mode(mode)->Some_0
}

/// The opcode that ends a run.
pub const BRK: u8 = 0x00;

/// The address of the stack slot that the stack pointer `sp` selects.
pub open spec fn stack_address(sp: u8) -> u16 {
    (STACK_BASE + sp) as u16
}

/// The operand byte of a branch, read as a signed displacement.
pub open spec fn sign_extend(d: u8) -> int {
    if d < 0x80 {
        d as int
    } else {
        d as int - 0x100
    }
}

/// The address that a taken branch with operand byte `d` leads to, from the
/// address `pc` that follows the operand.
pub open spec fn branch_target(pc: u16, d: u8) -> u16 {
    ((pc as int + sign_extend(d)) % 0x10000) as u16
}

/// The carry flag of `p` as the number 0 or 1.
pub open spec fn carry_bit(p: u8) -> u8 {
    if flag(p, FLAG_CARRY) {
        1
    } else {
        0
    }
}

/// The state of the machine: its registers and its 65 536 bytes of memory.
pub struct Machine {
    pub regs: RegisterFile,
    pub mem: Seq<u8>,
}

impl Machine {
    /// The memory has its full size.
    pub open spec fn wf(self) -> bool {
        self.mem.len() == 0x10000
    }

    /// The same machine with another accumulator.
    pub open spec fn set_a(self, a: u8) -> Machine {
        Machine { regs: RegisterFile { a, ..self.regs }, ..self }
    }

    /// The same machine with another X.
    pub open spec fn set_x(self, x: u8) -> Machine {
        Machine { regs: RegisterFile { x, ..self.regs }, ..self }
    }

    /// The same machine with another Y.
    pub open spec fn set_y(self, y: u8) -> Machine {
        Machine { regs: RegisterFile { y, ..self.regs }, ..self }
    }

    /// The same machine with another status byte.
    pub open spec fn set_p(self, p: u8) -> Machine {
        Machine { regs: RegisterFile { p, ..self.regs }, ..self }
    }

    /// The same machine with another stack pointer.
    pub open spec fn set_sp(self, sp: u8) -> Machine {
        Machine { regs: RegisterFile { sp, ..self.regs }, ..self }
    }

    /// The same machine with another program counter.
    pub open spec fn set_pc(self, pc: u16) -> Machine {
        Machine { regs: RegisterFile { pc, ..self.regs }, ..self }
    }

    /// The status register with Z and N describing `value`.
    pub open spec fn set_zero_negative(self, value: u8) -> Machine {
        self.set_p(with_zero_negative(self.regs.p, value))
    }

    /// One flag set or cleared.
    pub open spec fn set_flag(self, mask: u8, on: bool) -> Machine {
        self.set_p(with_flag(self.regs.p, mask, on))
    }

    /// The byte at `addr`.
    pub open spec fn read(self, addr: u16) -> u8 {
        self.mem[addr as int]
    }

    /// The little-endian word at `addr`.
    pub open spec fn read_addr(self, addr: u16) -> u16 {
        read_word(self.mem, addr)
    }

    /// The same machine with `value` at `addr`.
    pub open spec fn write(self, addr: u16, value: u8) -> Machine {
        Machine { mem: self.mem.update(addr as int, value), ..self }
    }

    // The stack. A push writes and then moves the stack pointer down; a pop
    // moves it up and then reads. The pointer wraps between 0x00 and 0xFF.

    /// The machine after a push of `data`.
    pub open spec fn push(self, data: u8) -> Machine {
        self.write(stack_address(self.regs.sp), data).set_sp(self.regs.sp.wrapping_sub(1))
    }

    /// The machine after a pop.
    pub open spec fn pop(self) -> Machine {
        self.set_sp(self.regs.sp.wrapping_add(1))
    }

    /// The byte that a pop returns.
    pub open spec fn pop_value(self) -> u8 {
        self.read(stack_address(self.regs.sp.wrapping_add(1)))
    }

    /// Pushes the high byte of `data`, then its low byte.
    pub open spec fn push_addr(self, data: u16) -> Machine {
        self.push(high_byte(data)).push(low_byte(data))
    }

    /// The machine after two pops.
    pub open spec fn pop_addr(self) -> Machine {
        self.pop().pop()
    }

    /// The word that two pops return: the low byte first, then the high.
    pub open spec fn pop_addr_value(self) -> u16 {
        word(self.pop_value(), self.pop().pop_value())
    }

    // Operands. The program counter points at the first operand byte.

    /// The address of the operand.
    pub open spec fn effective_address(self, mode: AddressingMode) -> u16 {
        let pc = self.regs.pc;
        match mode {
            AddressingMode::Immediate => pc,
            AddressingMode::ZeroPage => self.read(pc) as u16,
            AddressingMode::ZeroPageX => self.read(pc).wrapping_add(self.regs.x) as u16,
            AddressingMode::ZeroPageY => self.read(pc).wrapping_add(self.regs.y) as u16,
            AddressingMode::Absolute => self.read_addr(pc),
            AddressingMode::AbsoluteX => self.read_addr(pc).wrapping_add(self.regs.x as u16),
            AddressingMode::AbsoluteY => self.read_addr(pc).wrapping_add(self.regs.y as u16),
            AddressingMode::Indirect => self.read_addr(self.read_addr(pc)),
            AddressingMode::IndirectX => self.read_addr(
                self.read(pc).wrapping_add(self.regs.x) as u16,
            ),
            AddressingMode::IndirectY => self.read_addr(self.read(pc) as u16).wrapping_add(
                self.regs.y as u16,
            ),
        }
    }

    /// The machine with the program counter moved past the operand bytes.
    pub open spec fn skip_operand(self, mode: AddressingMode) -> Machine {
        self.set_pc(self.regs.pc.wrapping_add(mode.operand_len()))
    }

    /// The operand byte.
    pub open spec fn operand(self, mode: AddressingMode) -> u8 {
        self.read(self.effective_address(mode))
    }

    // Arithmetic.

    /// A + `data` + C goes to A; N, V, Z and C follow.
    pub open spec fn add_with_carry(self, data: u8) -> Machine {
        let a = self.regs.a;
        let sum = a as int + data as int + carry_bit(self.regs.p) as int;
        let result = (sum % 0x100) as u8;
        self.set_flag(FLAG_CARRY, sum > 0xFF).set_flag(
            FLAG_OVERFLOW,
            (a ^ result) & (data ^ result) & 0x80 != 0,
        ).set_zero_negative(result).set_a(result)
    }

    /// ADC: A + M + C goes to A.
    pub open spec fn adc(self, mode: AddressingMode) -> Machine {
        self.skip_operand(mode).add_with_carry(self.operand(mode))
    }

    /// Subtraction is the addition of the operand's complement.
    pub open spec fn sbc(self, mode: AddressingMode) -> Machine {
        self.skip_operand(mode).add_with_carry(self.operand(mode) ^ 0xFF)
    }

    // Logic.

    /// A new accumulator, with N and Z describing it.
    pub open spec fn load_a(self, value: u8) -> Machine {
        self.set_a(value).set_zero_negative(value)
    }

    /// A new X, with N and Z describing it.
    pub open spec fn load_x(self, value: u8) -> Machine {
        self.set_x(value).set_zero_negative(value)
    }

    /// A new Y, with N and Z describing it.
    pub open spec fn load_y(self, value: u8) -> Machine {
        self.set_y(value).set_zero_negative(value)
    }

    /// AND: A and M go to A.
    pub open spec fn and(self, mode: AddressingMode) -> Machine {
        self.skip_operand(mode).load_a(self.regs.a & self.operand(mode))
    }

    /// ORA: A or M goes to A.
    pub open spec fn ora(self, mode: AddressingMode) -> Machine {
        self.skip_operand(mode).load_a(self.regs.a | self.operand(mode))
    }

    /// EOR: A exclusive-or M goes to A.
    pub open spec fn eor(self, mode: AddressingMode) -> Machine {
        self.skip_operand(mode).load_a(self.regs.a ^ self.operand(mode))
    }

    /// N and V are bits 7 and 6 of the operand; Z says whether A and the
    /// operand have no bit in common.
    pub open spec fn bit(self, mode: AddressingMode) -> Machine {
        let data = self.operand(mode);
        self.skip_operand(mode).set_flag(FLAG_NEGATIVE, data & 0x80 != 0).set_flag(
            FLAG_OVERFLOW,
            data & 0x40 != 0,
        ).set_flag(FLAG_ZERO, self.regs.a & data == 0)
    }

    // Shifts and rotates, on the accumulator (no mode) or on memory.

    /// The byte that a shift works on.
    pub open spec fn shift_input(self, mode: Option<AddressingMode>) -> u8 {
        match mode {
            Some(mode) => self.operand(mode),
            None => self.regs.a,
        }
    }

    /// The machine after a shift that gave `result` and moved `carry` out.
    pub open spec fn shift_output(
        self,
        mode: Option<AddressingMode>,
        result: u8,
        carry: bool,
    ) -> Machine {
        let flags = with_zero_negative(with_flag(self.regs.p, FLAG_CARRY, carry), result);
        match mode {
            Some(mode) => self.skip_operand(mode).set_p(flags).write(
                self.effective_address(mode),
                result,
            ),
            None => self.set_p(flags).set_a(result),
        }
    }

    /// ASL: one bit to the left; bit 7 goes to C, 0 comes in.
    pub open spec fn asl(self, mode: Option<AddressingMode>) -> Machine {
        let data = self.shift_input(mode);
        self.shift_output(mode, data << 1, data & 0x80 != 0)
    }

    /// LSR: one bit to the right; bit 0 goes to C, 0 comes in.
    pub open spec fn lsr(self, mode: Option<AddressingMode>) -> Machine {
        let data = self.shift_input(mode);
        self.shift_output(mode, data >> 1, data & 0x01 != 0)
    }

    /// ROL: one bit to the left; bit 7 goes to C, the old C comes in.
    pub open spec fn rol(self, mode: Option<AddressingMode>) -> Machine {
        let data = self.shift_input(mode);
        self.shift_output(mode, (data << 1) | carry_bit(self.regs.p), data & 0x80 != 0)
    }

    /// ROR: one bit to the right; bit 0 goes to C, the old C comes in.
    pub open spec fn ror(self, mode: Option<AddressingMode>) -> Machine {
        let data = self.shift_input(mode);
        self.shift_output(mode, (data >> 1) | (carry_bit(self.regs.p) << 7), data & 0x01 != 0)
    }

    // Comparisons: N and Z describe register minus operand, C says that the
    // register is not below the operand.

    /// The comparison of the value `register` with the operand.
    pub open spec fn compare(self, register: u8, mode: AddressingMode) -> Machine {
        let data = self.operand(mode);
        self.skip_operand(mode).set_zero_negative(register.wrapping_sub(data)).set_flag(
            FLAG_CARRY,
            register >= data,
        )
    }

    /// CMP: compare A with M.
    pub open spec fn cmp(self, mode: AddressingMode) -> Machine {
        self.compare(self.regs.a, mode)
    }

    /// CPX: compare X with M.
    pub open spec fn cpx(self, mode: AddressingMode) -> Machine {
        self.compare(self.regs.x, mode)
    }

    /// CPY: compare Y with M.
    pub open spec fn cpy(self, mode: AddressingMode) -> Machine {
        self.compare(self.regs.y, mode)
    }

    // Increments and decrements.

    /// The byte at the operand's address replaced by `value`, with N and Z
    /// describing it.
    pub open spec fn modify(self, mode: AddressingMode, value: u8) -> Machine {
        self.skip_operand(mode).write(self.effective_address(mode), value).set_zero_negative(value)
    }

    /// INC: M + 1 goes to M.
    pub open spec fn inc(self, mode: AddressingMode) -> Machine {
        self.modify(mode, self.operand(mode).wrapping_add(1))
    }

    /// DEC: M - 1 goes to M.
    pub open spec fn dec(self, mode: AddressingMode) -> Machine {
        self.modify(mode, self.operand(mode).wrapping_sub(1))
    }

    /// INX: X + 1 goes to X.
    pub open spec fn inx(self) -> Machine {
        self.load_x(self.regs.x.wrapping_add(1))
    }

    /// INY: Y + 1 goes to Y.
    pub open spec fn iny(self) -> Machine {
        self.load_y(self.regs.y.wrapping_add(1))
    }

    /// DEX: X - 1 goes to X.
    pub open spec fn dex(self) -> Machine {
        self.load_x(self.regs.x.wrapping_sub(1))
    }

    /// DEY: Y - 1 goes to Y.
    pub open spec fn dey(self) -> Machine {
        self.load_y(self.regs.y.wrapping_sub(1))
    }

    // Loads, stores and transfers.

    /// LDA: M goes to A.
    pub open spec fn lda(self, mode: AddressingMode) -> Machine {
        self.skip_operand(mode).load_a(self.operand(mode))
    }

    /// LDX: M goes to X.
    pub open spec fn ldx(self, mode: AddressingMode) -> Machine {
        self.skip_operand(mode).load_x(self.operand(mode))
    }

    /// LDY: M goes to Y.
    pub open spec fn ldy(self, mode: AddressingMode) -> Machine {
        self.skip_operand(mode).load_y(self.operand(mode))
    }

    /// STA: A goes to M.
    pub open spec fn sta(self, mode: AddressingMode) -> Machine {
        self.skip_operand(mode).write(self.effective_address(mode), self.regs.a)
    }

    /// STX: X goes to M.
    pub open spec fn stx(self, mode: AddressingMode) -> Machine {
        self.skip_operand(mode).write(self.effective_address(mode), self.regs.x)
    }

    /// STY: Y goes to M.
    pub open spec fn sty(self, mode: AddressingMode) -> Machine {
        self.skip_operand(mode).write(self.effective_address(mode), self.regs.y)
    }

    /// TAX: A goes to X.
    pub open spec fn tax(self) -> Machine {
        self.load_x(self.regs.a)
    }

    /// TAY: A goes to Y.
    pub open spec fn tay(self) -> Machine {
        self.load_y(self.regs.a)
    }

    /// TSX: the stack pointer goes to X.
    pub open spec fn tsx(self) -> Machine {
        self.load_x(self.regs.sp)
    }

    /// TXA: X goes to A.
    pub open spec fn txa(self) -> Machine {
        self.load_a(self.regs.x)
    }

    /// TYA: Y goes to A.
    pub open spec fn tya(self) -> Machine {
        self.load_a(self.regs.y)
    }

    /// The one transfer that leaves the flags alone.
    pub open spec fn txs(self) -> Machine {
        self.set_sp(self.regs.x)
    }

    // Branches, jumps and subroutines.

    /// The program counter moves past the operand byte and, if the branch
    /// is taken, on by the signed displacement that the byte holds.
    pub open spec fn branch_if(self, taken: bool) -> Machine {
        let next = self.regs.pc.wrapping_add(1);
        if taken {
            self.set_pc(branch_target(next, self.read(self.regs.pc)))
        } else {
            self.set_pc(next)
        }
    }

    /// BCC: branch if C is clear.
    pub open spec fn bcc(self) -> Machine {
        self.branch_if(!flag(self.regs.p, FLAG_CARRY))
    }

    /// BCS: branch if C is set.
    pub open spec fn bcs(self) -> Machine {
        self.branch_if(flag(self.regs.p, FLAG_CARRY))
    }

    /// BEQ: branch if Z is set.
    pub open spec fn beq(self) -> Machine {
        self.branch_if(flag(self.regs.p, FLAG_ZERO))
    }

    /// BNE: branch if Z is clear.
    pub open spec fn bne(self) -> Machine {
        self.branch_if(!flag(self.regs.p, FLAG_ZERO))
    }

    /// BMI: branch if N is set.
    pub open spec fn bmi(self) -> Machine {
        self.branch_if(flag(self.regs.p, FLAG_NEGATIVE))
    }

    /// BPL: branch if N is clear.
    pub open spec fn bpl(self) -> Machine {
        self.branch_if(!flag(self.regs.p, FLAG_NEGATIVE))
    }

    /// BVC: branch if V is clear.
    pub open spec fn bvc(self) -> Machine {
        self.branch_if(!flag(self.regs.p, FLAG_OVERFLOW))
    }

    /// BVS: branch if V is set.
    pub open spec fn bvs(self) -> Machine {
        self.branch_if(flag(self.regs.p, FLAG_OVERFLOW))
    }

    /// JMP: the operand's address goes to the program counter.
    pub open spec fn jmp(self, mode: AddressingMode) -> Machine {
        self.set_pc(self.effective_address(mode))
    }

    /// Pushes the address of the last byte of the instruction, then jumps
    /// to the address that the operand holds.
    pub open spec fn jsr(self) -> Machine {
        let pushed = self.push_addr(self.regs.pc.wrapping_add(1));
        pushed.set_pc(pushed.read_addr(pushed.regs.pc))
    }

    /// RTS: the word on the stack, plus one, goes to the program counter.
    pub open spec fn rts(self) -> Machine {
        self.pop_addr().set_pc(self.pop_addr_value().wrapping_add(1))
    }

    /// RTI: the status byte is pulled, then the program counter.
    pub open spec fn rti(self) -> Machine {
        let restored = self.pop().set_p(self.pop_value());
        restored.pop_addr().set_pc(restored.pop_addr_value())
    }

    // The stack instructions.

    /// PHA: push A.
    pub open spec fn pha(self) -> Machine {
        self.push(self.regs.a)
    }

    /// PHP: push the status byte.
    pub open spec fn php(self) -> Machine {
        self.push(self.regs.p)
    }

    /// PLA: pull A; N and Z describe it.
    pub open spec fn pla(self) -> Machine {
        self.pop().load_a(self.pop_value())
    }

    /// PLP: pull the status byte, all eight bits of it.
    pub open spec fn plp(self) -> Machine {
        self.pop().set_p(self.pop_value())
    }

    // The flag instructions.

    /// CLC: clear C.
    pub open spec fn clc(self) -> Machine {
        self.set_flag(FLAG_CARRY, false)
    }

    /// SEC: set C.
    pub open spec fn sec(self) -> Machine {
        self.set_flag(FLAG_CARRY, true)
    }

    /// CLD: clear D.
    pub open spec fn cld(self) -> Machine {
        self.set_flag(FLAG_DECIMAL, false)
    }

    /// SED: set D.
    pub open spec fn sed(self) -> Machine {
        self.set_flag(FLAG_DECIMAL, true)
    }

    /// CLI: clear I.
    pub open spec fn cli(self) -> Machine {
        self.set_flag(FLAG_INTERRUPT_DISABLE, false)
    }

    /// SEI: set I.
    pub open spec fn sei(self) -> Machine {
        self.set_flag(FLAG_INTERRUPT_DISABLE, true)
    }

    /// CLV: clear V.
    pub open spec fn clv(self) -> Machine {
        self.set_flag(FLAG_OVERFLOW, false)
    }

    // Decoding.

    /// What the instruction `mnemonic` in the encoded form `mode` does to a
    /// machine whose program counter stands behind the opcode.
    pub open spec fn perform(
        self,
        mnemonic: Mnemonics,
        mode: crate::assembler::instruction::AddressingMode,
    ) -> Machine {
        match mnemonic {
            Mnemonics::ADC => self.adc(address_mode(mode)),
            Mnemonics::AND => self.and(address_mode(mode)),
            Mnemonics::ASL => self.asl(operand_mode(mode)),
            Mnemonics::BCC => self.bcc(),
            Mnemonics::BCS => self.bcs(),
            Mnemonics::BEQ => self.beq(),
            Mnemonics::BIT => self.bit(address_mode(mode)),
            Mnemonics::BMI => self.bmi(),
            Mnemonics::BNE => self.bne(),
            Mnemonics::BPL => self.bpl(),
            Mnemonics::BVC => self.bvc(),
            Mnemonics::BVS => self.bvs(),
            Mnemonics::CLC => self.clc(),
            Mnemonics::CLD => self.cld(),
            Mnemonics::CLI => self.cli(),
            Mnemonics::CLV => self.clv(),
            Mnemonics::CMP => self.cmp(address_mode(mode)),
            Mnemonics::CPX => self.cpx(address_mode(mode)),
            Mnemonics::CPY => self.cpy(address_mode(mode)),
            Mnemonics::DEC => self.dec(address_mode(mode)),
            Mnemonics::DEX => self.dex(),
            Mnemonics::DEY => self.dey(),
            Mnemonics::EOR => self.eor(address_mode(mode)),
            Mnemonics::INC => self.inc(address_mode(mode)),
            Mnemonics::INX => self.inx(),
            Mnemonics::INY => self.iny(),
            Mnemonics::JMP => self.jmp(address_mode(mode)),
            Mnemonics::JSR => self.jsr(),
            Mnemonics::LDA => self.lda(address_mode(mode)),
            Mnemonics::LDX => self.ldx(address_mode(mode)),
            Mnemonics::LDY => self.ldy(address_mode(mode)),
            Mnemonics::LSR => self.lsr(operand_mode(mode)),
            Mnemonics::ORA => self.ora(address_mode(mode)),
            Mnemonics::PHA => self.pha(),
            Mnemonics::PHP => self.php(),
            Mnemonics::PLA => self.pla(),
            Mnemonics::PLP => self.plp(),
            Mnemonics::ROL => self.rol(operand_mode(mode)),
            Mnemonics::ROR => self.ror(operand_mode(mode)),
            Mnemonics::RTI => self.rti(),
            Mnemonics::RTS => self.rts(),
            Mnemonics::SBC => self.sbc(address_mode(mode)),
            Mnemonics::SEC => self.sec(),
            Mnemonics::SED => self.sed(),
            Mnemonics::SEI => self.sei(),
            Mnemonics::STA => self.sta(address_mode(mode)),
            Mnemonics::STX => self.stx(address_mode(mode)),
            Mnemonics::STY => self.sty(address_mode(mode)),
            Mnemonics::TAX => self.tax(),
            Mnemonics::TAY => self.tay(),
            Mnemonics::TSX => self.tsx(),
            Mnemonics::TXA => self.txa(),
            Mnemonics::TXS => self.txs(),
            Mnemonics::TYA => self.tya(),
            Mnemonics::BRK | Mnemonics::NOP => self,
        }
    }

    /// The machine after the instruction with `opcode`, which was fetched
    /// at the program counter: the program counter moves past the opcode,
    /// and the instruction that the opcode stands for in the table of the
    /// instruction set is performed. A byte that is no opcode only moves
    /// the program counter past itself, and so do `BRK` and `NOP`.
    pub open spec fn execute(self, opcode: u8) -> Machine {
        let fetched = self.set_pc(self.regs.pc.wrapping_add(1));
        match decode(opcode) {
            Some((mnemonic, mode)) => fetched.perform(mnemonic, mode),
            None => fetched,
        }
    }

    /// The machine after one instruction.
    pub open spec fn step(self) -> Machine {
        self.execute(self.read(self.regs.pc))
    }

    /// The machine after `k` instructions.
    pub open spec fn steps(self, k: nat) -> Machine
        decreases k,
    {
        if k == 0 {
            self
        } else {
            self.steps((k - 1) as nat).step()
        }
    }

    /// Whether the machine executes a `BRK` within its next `n + 1`
    /// instructions.
    pub open spec fn halts_within(self, n: nat) -> bool
        decreases n,
    {
        self.read(self.regs.pc) == BRK || (n > 0 && self.step().halts_within((n - 1) as nat))
    }

    /// Whether the machine ever executes a `BRK`.
    pub open spec fn halts(self) -> bool {
        exists|n: nat| self.halts_within(n)
    }

    /// The machine after its first `BRK`, or after `n + 1` instructions if
    /// none of them is a `BRK`.
    pub open spec fn run(self, n: nat) -> Machine
        decreases n,
    {
        if self.read(self.regs.pc) == BRK || n == 0 {
            self.step()
        } else {
            self.step().run((n - 1) as nat)
        }
    }

    /// The machine after its first `BRK`, for a machine that halts.
    pub open spec fn run_to_break(self) -> Machine {
        self.run(choose|n: nat| self.halts_within(n))
    }
}

} // verus!
