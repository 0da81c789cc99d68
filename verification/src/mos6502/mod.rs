pub mod alu;
pub mod instruction;
pub mod laws;
pub mod memory_interface;
pub mod register;
pub mod trace;

use crate::error::Error;
use alu::{
    adc, add_with_carry, asl, branch_target, branch_to, compare, compare_with, crosses_page, lsr,
    page_crossed, rol, ror, rotate_left, rotate_right, sbc, shift_left, shift_right,
    subtract_with_borrow, AluResult, Compared, Shifted,
};
use instruction::{
    decode, instruction_for, lemma_cycles_bounded, AddrMode, Instruction, Mnemonic,
};
pub use memory_interface::MOS6502Memory;
use memory_interface::{after_word_read, word_at};
use register::{high_byte, low_byte, word, Register, StatusRegister};
use vstd::prelude::*;

verus! {

/// Switches of the processor: a set of bits.
#[derive(Debug, Clone, Copy, PartialEq, Eq, Structural)]
pub struct CPUConfig {
    pub bits: u16,
}

impl CPUConfig {
    pub const DEBUG: u16 = 0x0001;

    /// Asks for a trace of the instructions. The processor prints nothing
    /// itself: `MOS6502::trace_line` gives the line for an instruction that
    /// is about to run, for the program around it to print.
    pub const DEBUG_OUTPUT: u16 = 0x0003;

    pub fn empty() -> (c: CPUConfig)
        ensures
            c.bits == 0,
    {
        CPUConfig { bits: 0 }
    }

    pub fn from_bits_truncate(bits: u16) -> (c: CPUConfig)
        ensures
            c.bits == bits & 0x0003,
    {
        CPUConfig { bits: bits & 0x0003 }
    }

    pub fn bits(&self) -> (b: u16)
        ensures
            b == self.bits,
    {
        self.bits
    }

    pub fn contains(&self, mask: u16) -> (b: bool)
        ensures
            b == (self.bits & mask == mask),
    {
        self.bits & mask == mask
    }
}

/// Where an instruction's operand lies and what was found there.
#[derive(Debug, Clone, Copy, PartialEq, Eq, Structural)]
pub struct Operand {
    /// The effective address; 0 in the modes that have none.
    pub pointer: u16,
    /// The operand byte; 0 where the instruction does not read its target.
    pub argument: u8,
    /// Whether indexing or branching left the page it started from.
    pub crossed: bool,
}

/// The 6502 processor: its registers and its three interrupt latches.
#[allow(non_snake_case)]
#[derive(Debug, Clone, Copy, PartialEq, Eq, Structural)]
pub struct MOS6502 {
    pub A: Register<u8>,
    pub X: Register<u8>,
    pub Y: Register<u8>,
    pub PC: Register<u16>,
    pub S: Register<u8>,
    pub P: StatusRegister,
    pub reset: bool,
    pub nmi: bool,
    pub irq: bool,
    pub config: CPUConfig,
}

/// The address of the stack slot that the stack pointer `s` names.
pub open spec fn stack_address(s: u8) -> u16 {
    (0x0100 + s) as u16
}

/// The word that two fetches at `pc` and `pc + 1` give.
pub open spec fn fetched_word<M: MOS6502Memory>(mem: M, pc: u16) -> u16 {
    word(mem.after_read(pc).peek(pc.wrapping_add(1)), mem.peek(pc))
}

/// The memory once the word at `pc` and `pc + 1` has been fetched.
pub open spec fn after_fetched_word<M: MOS6502Memory>(mem: M, pc: u16) -> M {
    mem.after_read(pc).after_read(pc.wrapping_add(1))
}

/// The operand at the effective address `addr`: read from memory unless the
/// instruction is a pure store.
pub open spec fn operand_at<M: MOS6502Memory>(
    mem: M,
    ins: Instruction,
    addr: u16,
    crossed: bool,
    pc: u16,
) -> (Operand, u16, M) {
    if ins.no_read {
        (Operand { pointer: addr, argument: 0, crossed }, pc, mem)
    } else {
        (Operand { pointer: addr, argument: mem.peek(addr), crossed }, pc, mem.after_read(addr))
    }
}

/// The cycles an instruction takes. A branch pays one more cycle when it is
/// taken and another when the taken branch leaves its page; any other
/// instruction pays one more when it crosses a page and its table entry says
/// that this costs.
pub open spec fn cycles_for(ins: Instruction, op: Operand, taken: bool) -> int {
    if ins.mnemonic.is_branch() {
        ins.cycles + (if taken {
            if op.crossed {
                2int
            } else {
                1int
            }
        } else {
            0int
        })
    } else {
        ins.cycles + (if op.crossed && ins.can_change_cycles {
            1int
        } else {
            0int
        })
    }
}

impl MOS6502 {
    /// The processor at power-on: every register zero, no interrupt
    /// pending.
    pub open spec fn initial(config: Option<CPUConfig>) -> MOS6502 {
        MOS6502 {
            A: Register(0),
            X: Register(0),
            Y: Register(0),
            PC: Register(0),
            S: Register(0),
            P: StatusRegister { bits: 0 },
            reset: false,
            nmi: false,
            irq: false,
            config: match config {
                Some(c) => c,
                None => CPUConfig { bits: 0 },
            },
        }
    }

    // ----- what the instructions do, as functions of the state -----

    pub open spec fn with_pc(self, pc: u16) -> MOS6502 {
        MOS6502 { PC: Register(pc), ..self }
    }

    /// Loads A and sets Z and N from it.
    pub open spec fn with_a(self, v: u8) -> MOS6502 {
        MOS6502 { A: Register(v), P: self.P.with_zn(v), ..self }
    }

    /// Loads X and sets Z and N from it.
    pub open spec fn with_x(self, v: u8) -> MOS6502 {
        MOS6502 { X: Register(v), P: self.P.with_zn(v), ..self }
    }

    /// Loads Y and sets Z and N from it.
    pub open spec fn with_y(self, v: u8) -> MOS6502 {
        MOS6502 { Y: Register(v), P: self.P.with_zn(v), ..self }
    }

    /// Takes the result of an addition or subtraction into A, Z, N, C and V.
    pub open spec fn with_alu(self, r: AluResult) -> MOS6502 {
        MOS6502 {
            A: Register(r.value),
            P: self.P.with_zn(r.value).with(StatusRegister::C, r.carry).with(
                StatusRegister::V,
                r.overflow,
            ),
            ..self
        }
    }

    /// Takes the outcome of a comparison into N, Z and C.
    pub open spec fn with_compare(self, c: Compared) -> MOS6502 {
        MOS6502 {
            P: self.P.with(StatusRegister::N, c.negative).with(StatusRegister::Z, c.zero).with(
                StatusRegister::C,
                c.carry,
            ),
            ..self
        }
    }

    /// Takes the outcome of a shift or rotate into C, Z and N.
    pub open spec fn with_shift_flags(self, s: Shifted) -> MOS6502 {
        MOS6502 { P: self.P.with(StatusRegister::C, s.carry).with_zn(s.value), ..self }
    }

    pub open spec fn with_flag(self, mask: u8, on: bool) -> MOS6502 {
        MOS6502 { P: self.P.with(mask, on), ..self }
    }

    /// The processor and memory once `v` has been pushed: the byte goes to
    /// the slot that S names and S counts down.
    pub open spec fn pushed<M: MOS6502Memory>(self, mem: M, v: u8) -> (MOS6502, M) {
        (
            MOS6502 { S: Register(self.S.0.wrapping_sub(1)), ..self },
            mem.after_write(stack_address(self.S.0), v),
        )
    }

    /// The byte pulled, and the processor and memory after the pull: S counts
    /// up and the slot it then names is read.
    pub open spec fn pulled<M: MOS6502Memory>(self, mem: M) -> (u8, MOS6502, M) {
        let s = self.S.0.wrapping_add(1);
        (
            mem.peek(stack_address(s)),
            MOS6502 { S: Register(s), ..self },
            mem.after_read(stack_address(s)),
        )
    }

    /// Entering an interrupt handler: PC high, PC low and the status with bit 5
    /// set (and `extra` bits) are pushed, then PC is loaded from `vector`.
    pub open spec fn entered<M: MOS6502Memory>(self, mem: M, status: u8, vector: u16) -> (
        MOS6502,
        M,
    ) {
        let (c1, m1) = self.pushed(mem, high_byte(self.PC.0));
        let (c2, m2) = c1.pushed(m1, low_byte(self.PC.0));
        let (c3, m3) = c2.pushed(m2, status);
        (c3.with_pc(word_at(m3, vector)), after_word_read(m3, vector))
    }

    /// What happens to the pending interrupts before an instruction is
    /// fetched: RESET before NMI before IRQ, and IRQ only while I is clear.
    pub open spec fn after_interrupts<M: MOS6502Memory>(self, mem: M) -> (MOS6502, M) {
        if self.reset {
            (
                MOS6502 {
                    PC: Register(word_at(mem, 0xFFFC)),
                    P: StatusRegister { bits: StatusRegister::I },
                    reset: false,
                    ..self
                },
                after_word_read(mem, 0xFFFC),
            )
        } else if self.nmi {
            let (c, m) = self.entered(mem, self.P.bits | 0x20, 0xFFFA);
            (MOS6502 { nmi: false, ..c }, m)
        } else if self.irq && !self.P.has(StatusRegister::I) {
            let (c1, m1) = self.pushed(mem, high_byte(self.PC.0));
            let (c2, m2) = c1.pushed(m1, low_byte(self.PC.0));
            let (c3, m3) = c2.pushed(m2, self.P.bits | 0x20);
            let c4 = c3.with_flag(StatusRegister::I, true);
            (c4.with_pc(word_at(m3, 0xFFFE)), after_word_read(m3, 0xFFFE))
        } else {
            (self, mem)
        }
    }

    /// The operand of `ins`, the address after the instruction, and the
    /// memory after the operand was found. `pc` is the address after the
    /// opcode.
    pub open spec fn operand<M: MOS6502Memory>(self, mem: M, ins: Instruction, pc: u16) -> (
        Operand,
        u16,
        M,
    ) {
        let pc1 = pc.wrapping_add(1);
        let pc2 = pc.wrapping_add(2);
        match ins.addr_mode {
            AddrMode::Implied => (Operand { pointer: 0, argument: 0, crossed: false }, pc, mem),
            AddrMode::Accumulator => (
                Operand { pointer: 0, argument: self.A.0, crossed: false },
                pc,
                mem,
            ),
            AddrMode::Immediate => (
                Operand { pointer: 0, argument: mem.peek(pc), crossed: false },
                pc1,
                mem.after_read(pc),
            ),
            AddrMode::Absolute => operand_at(
                after_fetched_word(mem, pc),
                ins,
                fetched_word(mem, pc),
                false,
                pc2,
            ),
            AddrMode::AbsoluteX => {
                let addr = fetched_word(mem, pc);
                let sum = addr.wrapping_add(self.X.0 as u16);
                operand_at(after_fetched_word(mem, pc), ins, sum, page_crossed(sum, addr), pc2)
            },
            AddrMode::AbsoluteY => {
                let addr = fetched_word(mem, pc);
                let sum = addr.wrapping_add(self.Y.0 as u16);
                operand_at(after_fetched_word(mem, pc), ins, sum, page_crossed(sum, addr), pc2)
            },
            AddrMode::ZeroPage => operand_at(
                mem.after_read(pc),
                ins,
                mem.peek(pc) as u16,
                false,
                pc1,
            ),
            AddrMode::ZeroPageX => operand_at(
                mem.after_read(pc),
                ins,
                mem.peek(pc).wrapping_add(self.X.0) as u16,
                false,
                pc1,
            ),
            AddrMode::ZeroPageY => operand_at(
                mem.after_read(pc),
                ins,
                mem.peek(pc).wrapping_add(self.Y.0) as u16,
                false,
                pc1,
            ),
            AddrMode::Relative => {
                let addr = branch_target(pc1, mem.peek(pc));
                operand_at(mem.after_read(pc), ins, addr, page_crossed(addr, pc1), pc1)
            },
            AddrMode::Indirect => {
                let m1 = after_fetched_word(mem, pc);
                let addr = fetched_word(mem, pc);
                operand_at(after_word_read(m1, addr), ins, word_at(m1, addr), false, pc2)
            },
            AddrMode::IndirectX => {
                let m1 = mem.after_read(pc);
                let zp = mem.peek(pc).wrapping_add(self.X.0) as u16;
                operand_at(after_word_read(m1, zp), ins, word_at(m1, zp), false, pc1)
            },
            AddrMode::IndirectY => {
                let m1 = mem.after_read(pc);
                let zp = mem.peek(pc) as u16;
                let base = word_at(m1, zp);
                let addr = base.wrapping_add(self.Y.0 as u16);
                operand_at(after_word_read(m1, zp), ins, addr, page_crossed(addr, base), pc1)
            },
        }
    }

    /// Whether the branch `m` is taken in this state; false for anything
    /// that is no branch.
    pub open spec fn branch_taken(self, m: Mnemonic) -> bool {
        match m {
            Mnemonic::BCS => self.P.has(StatusRegister::C),
            Mnemonic::BCC => !self.P.has(StatusRegister::C),
            Mnemonic::BEQ => self.P.has(StatusRegister::Z),
            Mnemonic::BNE => !self.P.has(StatusRegister::Z),
            Mnemonic::BMI => self.P.has(StatusRegister::N),
            Mnemonic::BPL => !self.P.has(StatusRegister::N),
            Mnemonic::BVS => self.P.has(StatusRegister::V),
            Mnemonic::BVC => !self.P.has(StatusRegister::V),
            _ => false,
        }
    }

    /// A shift or rotate applied to A (accumulator mode) or to the byte at
    /// the operand's address.
    pub open spec fn shifted<M: MOS6502Memory>(
        self,
        mem: M,
        ins: Instruction,
        op: Operand,
        s_acc: Shifted,
        s_mem: Shifted,
    ) -> (MOS6502, M) {
        if ins.addr_mode == AddrMode::Accumulator {
            (MOS6502 { A: Register(s_acc.value), ..self }.with_shift_flags(s_acc), mem)
        } else {
            (self.with_shift_flags(s_mem), mem.after_write(op.pointer, s_mem.value))
        }
    }

    /// The loads, stores, transfers, increments and decrements.
    pub open spec fn moved<M: MOS6502Memory>(self, mem: M, ins: Instruction, op: Operand) -> (
        MOS6502,
        M,
    ) {
        match ins.mnemonic {
            Mnemonic::LDA => (self.with_a(op.argument), mem),
            Mnemonic::LDX => (self.with_x(op.argument), mem),
            Mnemonic::LDY => (self.with_y(op.argument), mem),
            Mnemonic::STA => (self, mem.after_write(op.pointer, self.A.0)),
            Mnemonic::STX => (self, mem.after_write(op.pointer, self.X.0)),
            Mnemonic::STY => (self, mem.after_write(op.pointer, self.Y.0)),
            Mnemonic::TAX => (self.with_x(self.A.0), mem),
            Mnemonic::TAY => (self.with_y(self.A.0), mem),
            Mnemonic::TSX => (self.with_x(self.S.0), mem),
            Mnemonic::TXA => (self.with_a(self.X.0), mem),
            Mnemonic::TXS => (MOS6502 { S: Register(self.X.0), ..self }, mem),
            Mnemonic::TYA => (self.with_a(self.Y.0), mem),
            Mnemonic::INC => {
                let v = mem.peek(op.pointer).wrapping_add(1);
                (
                    MOS6502 { P: self.P.with_zn(v), ..self },
                    mem.after_read(op.pointer).after_write(op.pointer, v),
                )
            },
            Mnemonic::INX => (self.with_x(self.X.0.wrapping_add(1)), mem),
            Mnemonic::INY => (self.with_y(self.Y.0.wrapping_add(1)), mem),
            Mnemonic::DEC => {
                let v = mem.peek(op.pointer).wrapping_sub(1);
                (
                    MOS6502 { P: self.P.with_zn(v), ..self },
                    mem.after_read(op.pointer).after_write(op.pointer, v),
                )
            },
            Mnemonic::DEX => (self.with_x(self.X.0.wrapping_sub(1)), mem),
            Mnemonic::DEY => (self.with_y(self.Y.0.wrapping_sub(1)), mem),
            _ => (self, mem),
        }
    }

    /// Arithmetic, logic, comparisons, shifts and the flag instructions.
    pub open spec fn computed<M: MOS6502Memory>(self, mem: M, ins: Instruction, op: Operand) -> (
        MOS6502,
        M,
    ) {
        let arg = op.argument;
        let carry = self.P.has(StatusRegister::C);
        match ins.mnemonic {
            Mnemonic::ADC => (self.with_alu(adc(self.A.0, arg, carry)), mem),
            Mnemonic::SBC => (self.with_alu(sbc(self.A.0, arg, carry)), mem),
            Mnemonic::CMP => (self.with_compare(compare(self.A.0, arg)), mem),
            Mnemonic::CPX => (self.with_compare(compare(self.X.0, arg)), mem),
            Mnemonic::CPY => (self.with_compare(compare(self.Y.0, arg)), mem),
            Mnemonic::AND => (self.with_a(self.A.0 & arg), mem),
            Mnemonic::ORA => (self.with_a(self.A.0 | arg), mem),
            Mnemonic::EOR => (self.with_a(self.A.0 ^ arg), mem),
            Mnemonic::BIT => (
                MOS6502 {
                    P: self.P.with(StatusRegister::N, arg & 0x80 != 0).with(
                        StatusRegister::V,
                        arg & 0x40 != 0,
                    ).with(StatusRegister::Z, self.A.0 & arg == 0),
                    ..self
                },
                mem,
            ),
            Mnemonic::ASL => self.shifted(mem, ins, op, asl(self.A.0), asl(arg)),
            Mnemonic::LSR => self.shifted(mem, ins, op, lsr(self.A.0), lsr(arg)),
            Mnemonic::ROL => self.shifted(mem, ins, op, rol(self.A.0, carry), rol(arg, carry)),
            Mnemonic::ROR => self.shifted(mem, ins, op, ror(self.A.0, carry), ror(arg, carry)),
            Mnemonic::SEC => (self.with_flag(StatusRegister::C, true), mem),
            Mnemonic::SED => (self.with_flag(StatusRegister::D, true), mem),
            Mnemonic::SEI => (self.with_flag(StatusRegister::I, true), mem),
            Mnemonic::CLC => (self.with_flag(StatusRegister::C, false), mem),
            Mnemonic::CLD => (self.with_flag(StatusRegister::D, false), mem),
            Mnemonic::CLI => (self.with_flag(StatusRegister::I, false), mem),
            Mnemonic::CLV => (self.with_flag(StatusRegister::V, false), mem),
            _ => (self, mem),
        }
    }

    /// Jumps, branches, subroutines, the stack instructions and BRK.
    pub open spec fn flowed<M: MOS6502Memory>(self, mem: M, ins: Instruction, op: Operand) -> (
        MOS6502,
        M,
    ) {
        match ins.mnemonic {
            Mnemonic::JMP => (self.with_pc(op.pointer), mem),
            Mnemonic::JSR => {
                let ret = self.PC.0.wrapping_sub(1);
                let (c1, m1) = self.pushed(mem, high_byte(ret));
                let (c2, m2) = c1.pushed(m1, low_byte(ret));
                (c2.with_pc(op.pointer), m2)
            },
            Mnemonic::BCS | Mnemonic::BCC | Mnemonic::BEQ | Mnemonic::BNE | Mnemonic::BMI
            | Mnemonic::BPL | Mnemonic::BVS | Mnemonic::BVC => if self.branch_taken(
                ins.mnemonic,
            ) {
                (self.with_pc(op.pointer), mem)
            } else {
                (self, mem)
            },
            Mnemonic::PHA => self.pushed(mem, self.A.0),
            Mnemonic::PHP => self.pushed(mem, self.P.bits | StatusRegister::B),
            Mnemonic::PLA => {
                let (v, c, m) = self.pulled(mem);
                (c.with_a(v), m)
            },
            Mnemonic::PLP => {
                let (v, c, m) = self.pulled(mem);
                (MOS6502 { P: StatusRegister { bits: v & 0xCF }, ..c }, m)
            },
            Mnemonic::RTI => {
                let (p, c1, m1) = self.pulled(mem);
                let (lo, c2, m2) = c1.pulled(m1);
                let (hi, c3, m3) = c2.pulled(m2);
                (
                    MOS6502 { P: StatusRegister { bits: p & 0xCF }, PC: Register(word(hi, lo)), ..c3 },
                    m3,
                )
            },
            Mnemonic::RTS => {
                let (lo, c1, m1) = self.pulled(mem);
                let (hi, c2, m2) = c1.pulled(m1);
                (c2.with_pc(word(hi, lo).wrapping_add(1)), m2)
            },
            Mnemonic::BRK => {
                let ret = self.PC.0.wrapping_add(1);
                let (c1, m1) = self.pushed(mem, high_byte(ret));
                let (c2, m2) = c1.pushed(m1, low_byte(ret));
                let (c3, m3) = c2.pushed(m2, self.P.bits | 0x30);
                let c4 = c3.with_flag(StatusRegister::I, true);
                (c4.with_pc(word_at(m3, 0xFFFE)), after_word_read(m3, 0xFFFE))
            },
            _ => (self, mem),
        }
    }

    /// The processor and memory once `ins` has run on `op`; PC already stands
    /// after the instruction.
    pub open spec fn executed<M: MOS6502Memory>(self, mem: M, ins: Instruction, op: Operand) -> (
        MOS6502,
        M,
    ) {
        match ins.mnemonic {
            Mnemonic::LDA | Mnemonic::LDX | Mnemonic::LDY | Mnemonic::STA | Mnemonic::STX
            | Mnemonic::STY | Mnemonic::TAX | Mnemonic::TAY | Mnemonic::TSX | Mnemonic::TXA
            | Mnemonic::TXS | Mnemonic::TYA | Mnemonic::INC | Mnemonic::INX | Mnemonic::INY
            | Mnemonic::DEC | Mnemonic::DEX | Mnemonic::DEY => self.moved(mem, ins, op),
            Mnemonic::ADC | Mnemonic::SBC | Mnemonic::CMP | Mnemonic::CPX | Mnemonic::CPY
            | Mnemonic::AND | Mnemonic::ORA | Mnemonic::EOR | Mnemonic::BIT | Mnemonic::ASL
            | Mnemonic::LSR | Mnemonic::ROL | Mnemonic::ROR | Mnemonic::SEC | Mnemonic::SED
            | Mnemonic::SEI | Mnemonic::CLC | Mnemonic::CLD | Mnemonic::CLI | Mnemonic::CLV => {
                self.computed(mem, ins, op)
            },
            Mnemonic::NOP => (self, mem),
            _ => self.flowed(mem, ins, op),
        }
    }

    /// One instruction: the pending interrupt is entered, the opcode at PC is
    /// fetched and decoded, its operand found and the instruction run. Gives
    /// the processor and the memory afterwards and the cycles it took. A byte
    /// that encodes no instruction leaves PC on it and is reported with its
    /// address.
    #[verifier::opaque]
    pub open spec fn step<M: MOS6502Memory>(self, mem: M) -> (
        MOS6502,
        M,
        Result<u32, Error>,
    ) {
        let (c1, m1) = self.after_interrupts(mem);
        let opcode = m1.peek(c1.PC.0);
        let m2 = m1.after_read(c1.PC.0);
        match instruction_for(opcode) {
            None => (c1, m2, Err(Error::InvalidOpcodeErr(c1.PC.0, opcode))),
            Some(ins) => {
                let (op, pc, m3) = c1.operand(m2, ins, c1.PC.0.wrapping_add(1));
                let c2 = c1.with_pc(pc);
                let (c3, m4) = c2.executed(m3, ins, op);
                (c3, m4, Ok(cycles_for(ins, op, c2.branch_taken(ins.mnemonic)) as u32))
            },
        }
    }

    // ----- the processor itself -----

    /// A processor with every register zero and no interrupt pending.
    pub fn new(config: Option<CPUConfig>) -> (cpu: Self)
        ensures
            cpu == MOS6502::initial(config),
    {
        MOS6502 {
            A: Register(0),
            X: Register(0),
            Y: Register(0),
            PC: Register(0),
            S: Register(0),
            P: StatusRegister::empty(),
            reset: false,
            nmi: false,
            irq: false,
            config: match config {
                Some(c) => c,
                None => CPUConfig::empty(),
            },
        }
    }

    /// Latches a RESET; it is served before the next instruction.
    pub fn reset(&mut self)
        ensures
            *final(self) == (MOS6502 { reset: true, ..*old(self) }),
    {
        self.reset = true;
    }

    /// Latches an NMI; it is served before the next instruction.
    pub fn nmi(&mut self)
        ensures
            *final(self) == (MOS6502 { nmi: true, ..*old(self) }),
    {
        self.nmi = true;
    }

    /// Raises the IRQ line; it is served before an instruction while I is
    /// clear.
    pub fn irq(&mut self)
        ensures
            *final(self) == (MOS6502 { irq: true, ..*old(self) }),
    {
        self.irq = true;
    }

    /// The table entry of `opcode`, or the error that names the byte and
    /// where the processor stands.
    pub fn decode_opcode(&self, opcode: u8) -> (r: Result<Instruction, Error>)
        ensures
            r == (match instruction_for(opcode) {
                Some(ins) => Ok::<Instruction, Error>(ins),
                None => Err(Error::InvalidOpcodeErr(self.PC.0, opcode)),
            }),
    {
        match decode(opcode) {
            Some(ins) => Ok(ins),
            None => Err(Error::invalid_opcode(self.PC.get(), opcode)),
        }
    }

    pub fn push_byte<M: MOS6502Memory>(&mut self, v: u8, mmu: &mut M)
        requires
            old(mmu).usable(),
        ensures
            (*final(self), *final(mmu)) == old(self).pushed(*old(mmu), v),
            final(mmu).usable(),
    {
        mmu.write(0x0100 + self.S.get() as u16, v);
        self.S.dec();
    }

    pub fn pull_byte<M: MOS6502Memory>(&mut self, mmu: &mut M) -> (v: u8)
        requires
            old(mmu).usable(),
        ensures
            (v, *final(self), *final(mmu)) == old(self).pulled(*old(mmu)),
            final(mmu).usable(),
    {
        self.S.inc();
        mmu.read(0x0100 + self.S.get() as u16)
    }

    fn service_interrupts<M: MOS6502Memory>(&mut self, mmu: &mut M)
        requires
            old(mmu).usable(),
        ensures
            (*final(self), *final(mmu)) == old(self).after_interrupts(*old(mmu)),
            final(mmu).usable(),
    {
        if self.reset {
            let pc = mmu.read_double(0xFFFC);
            self.PC.set(pc);
            self.P = StatusRegister::from_bits_truncate(StatusRegister::I);
            self.reset = false;
        } else if self.nmi {
            let hi = self.PC.hi();
            let lo = self.PC.lo();
            let status = self.P.bits() | 0b0010_0000;
            self.push_byte(hi, mmu);
            self.push_byte(lo, mmu);
            self.push_byte(status, mmu);
            let pc = mmu.read_double(0xFFFA);
            self.PC.set(pc);
            self.nmi = false;
        } else if self.irq && !self.P.contains(StatusRegister::I) {
            let hi = self.PC.hi();
            let lo = self.PC.lo();
            let status = self.P.bits() | 0b0010_0000;
            self.push_byte(hi, mmu);
            self.push_byte(lo, mmu);
            self.push_byte(status, mmu);
            self.P.insert(StatusRegister::I);
            let pc = mmu.read_double(0xFFFE);
            self.PC.set(pc);
        }
    }

    fn read_target<M: MOS6502Memory>(
        ins: &Instruction,
        addr: u16,
        crossed: bool,
        pc: u16,
        mmu: &mut M,
    ) -> (op: Operand)
        requires
            old(mmu).usable(),
        ensures
            (op, pc, *final(mmu)) == operand_at(*old(mmu), *ins, addr, crossed, pc),
            final(mmu).usable(),
    {
        let argument = if !ins.no_read {
            mmu.read(addr)
        } else {
            0
        };
        Operand { pointer: addr, argument, crossed }
    }

    fn resolve_operand<M: MOS6502Memory>(
        &self,
        ins: &Instruction,
        pc: &mut Register<u16>,
        mmu: &mut M,
    ) -> (op: Operand)
        requires
            old(mmu).usable(),
        ensures
            (op, final(pc).0, *final(mmu)) == self.operand(*old(mmu), *ins, old(pc).0),
            final(mmu).usable(),
    {
        match ins.addr_mode {
            AddrMode::Implied => Operand { pointer: 0, argument: 0, crossed: false },
            AddrMode::Accumulator => Operand {
                pointer: 0,
                argument: self.A.get(),
                crossed: false,
            },
            AddrMode::Immediate => {
                let arg = fetch_byte(pc, mmu);
                Operand { pointer: 0, argument: arg, crossed: false }
            },
            AddrMode::Absolute => {
                let addr = fetch_double(pc, mmu);
                Self::read_target(ins, addr, false, pc.get(), mmu)
            },
            AddrMode::AbsoluteX => {
                let addr = fetch_double(pc, mmu);
                let sum_addr = addr.wrapping_add(self.X.get() as u16);
                Self::read_target(ins, sum_addr, crosses_page(sum_addr, addr), pc.get(), mmu)
            },
            AddrMode::AbsoluteY => {
                let addr = fetch_double(pc, mmu);
                let sum_addr = addr.wrapping_add(self.Y.get() as u16);
                Self::read_target(ins, sum_addr, crosses_page(sum_addr, addr), pc.get(), mmu)
            },
            AddrMode::ZeroPage => {
                let offset = fetch_byte(pc, mmu);
                Self::read_target(ins, offset as u16, false, pc.get(), mmu)
            },
            AddrMode::ZeroPageX => {
                let offset = fetch_byte(pc, mmu).wrapping_add(self.X.get());
                Self::read_target(ins, offset as u16, false, pc.get(), mmu)
            },
            AddrMode::ZeroPageY => {
                let offset = fetch_byte(pc, mmu).wrapping_add(self.Y.get());
                Self::read_target(ins, offset as u16, false, pc.get(), mmu)
            },
            AddrMode::Relative => {
                let offset = fetch_byte(pc, mmu);
                let addr = branch_to(pc.get(), offset);
                Self::read_target(ins, addr, crosses_page(addr, pc.get()), pc.get(), mmu)
            },
            AddrMode::Indirect => {
                let addr1 = fetch_double(pc, mmu);
                // The high byte comes from the same page as the low byte.
                let addr2 = mmu.read_double(addr1);
                Self::read_target(ins, addr2, false, pc.get(), mmu)
            },
            AddrMode::IndirectX => {
                let addr1 = fetch_byte(pc, mmu).wrapping_add(self.X.get());
                let addr2 = mmu.read_double(addr1 as u16);
                Self::read_target(ins, addr2, false, pc.get(), mmu)
            },
            AddrMode::IndirectY => {
                let addr1 = fetch_byte(pc, mmu);
                let addr2 = mmu.read_double(addr1 as u16);
                let addr3 = addr2.wrapping_add(self.Y.get() as u16);
                Self::read_target(ins, addr3, crosses_page(addr3, addr2), pc.get(), mmu)
            },
        }
    }

    fn load_a(&mut self, v: u8)
        ensures
            *final(self) == old(self).with_a(v),
    {
        self.A.set(v);
        self.P.set_zn(v);
    }

    fn load_x(&mut self, v: u8)
        ensures
            *final(self) == old(self).with_x(v),
    {
        self.X.set(v);
        self.P.set_zn(v);
    }

    fn load_y(&mut self, v: u8)
        ensures
            *final(self) == old(self).with_y(v),
    {
        self.Y.set(v);
        self.P.set_zn(v);
    }

    fn take_alu(&mut self, r: AluResult)
        ensures
            *final(self) == old(self).with_alu(r),
    {
        self.A.set(r.value);
        self.P.set_zn(r.value);
        self.P.set(StatusRegister::C, r.carry);
        self.P.set(StatusRegister::V, r.overflow);
    }

    fn take_compare(&mut self, c: Compared)
        ensures
            *final(self) == old(self).with_compare(c),
    {
        self.P.set(StatusRegister::N, c.negative);
        self.P.set(StatusRegister::Z, c.zero);
        self.P.set(StatusRegister::C, c.carry);
    }

    fn take_shift_flags(&mut self, s: Shifted)
        ensures
            *final(self) == old(self).with_shift_flags(s),
    {
        self.P.set(StatusRegister::C, s.carry);
        self.P.set_zn(s.value);
    }

    fn shift<M: MOS6502Memory>(
        &mut self,
        ins: &Instruction,
        op: &Operand,
        s_acc: Shifted,
        s_mem: Shifted,
        mmu: &mut M,
    )
        requires
            old(mmu).usable(),
        ensures
            (*final(self), *final(mmu)) == old(self).shifted(*old(mmu), *ins, *op, s_acc, s_mem),
            final(mmu).usable(),
    {
        match ins.addr_mode {
            AddrMode::Accumulator => {
                self.A.set(s_acc.value);
                self.take_shift_flags(s_acc);
            },
            _ => {
                mmu.write(op.pointer, s_mem.value);
                self.take_shift_flags(s_mem);
            },
        }
    }

    fn run_move<M: MOS6502Memory>(&mut self, ins: &Instruction, op: &Operand, mmu: &mut M)
        requires
            old(mmu).usable(),
        ensures
            (*final(self), *final(mmu)) == old(self).moved(*old(mmu), *ins, *op),
            final(mmu).usable(),
    {
        match ins.mnemonic {
            Mnemonic::LDA => self.load_a(op.argument),
            Mnemonic::LDX => self.load_x(op.argument),
            Mnemonic::LDY => self.load_y(op.argument),
            Mnemonic::STA => mmu.write(op.pointer, self.A.get()),
            Mnemonic::STX => mmu.write(op.pointer, self.X.get()),
            Mnemonic::STY => mmu.write(op.pointer, self.Y.get()),
            Mnemonic::TAX => self.load_x(self.A.get()),
            Mnemonic::TAY => self.load_y(self.A.get()),
            Mnemonic::TSX => self.load_x(self.S.get()),
            Mnemonic::TXA => self.load_a(self.X.get()),
            Mnemonic::TXS => self.S.set(self.X.get()),
            Mnemonic::TYA => self.load_a(self.Y.get()),
            Mnemonic::INC => {
                let v = mmu.read(op.pointer).wrapping_add(1);
                mmu.write(op.pointer, v);
                self.P.set_zn(v);
            },
            Mnemonic::INX => self.load_x(self.X.get().wrapping_add(1)),
            Mnemonic::INY => self.load_y(self.Y.get().wrapping_add(1)),
            Mnemonic::DEC => {
                let v = mmu.read(op.pointer).wrapping_sub(1);
                mmu.write(op.pointer, v);
                self.P.set_zn(v);
            },
            Mnemonic::DEX => self.load_x(self.X.get().wrapping_sub(1)),
            Mnemonic::DEY => self.load_y(self.Y.get().wrapping_sub(1)),
            _ => {},
        }
    }

    fn run_compute<M: MOS6502Memory>(&mut self, ins: &Instruction, op: &Operand, mmu: &mut M)
        requires
            old(mmu).usable(),
        ensures
            (*final(self), *final(mmu)) == old(self).computed(*old(mmu), *ins, *op),
            final(mmu).usable(),
    {
        let arg = op.argument;
        let a = self.A.get();
        let carry = self.P.contains(StatusRegister::C);
        match ins.mnemonic {
            Mnemonic::ADC => self.take_alu(add_with_carry(a, arg, carry)),
            Mnemonic::SBC => self.take_alu(subtract_with_borrow(a, arg, carry)),
            Mnemonic::CMP => self.take_compare(compare_with(a, arg)),
            Mnemonic::CPX => self.take_compare(compare_with(self.X.get(), arg)),
            Mnemonic::CPY => self.take_compare(compare_with(self.Y.get(), arg)),
            Mnemonic::AND => self.load_a(a & arg),
            Mnemonic::ORA => self.load_a(a | arg),
            Mnemonic::EOR => self.load_a(a ^ arg),
            Mnemonic::BIT => {
                self.P.set(StatusRegister::N, arg & 0x80 != 0);
                self.P.set(StatusRegister::V, arg & 0x40 != 0);
                self.P.set(StatusRegister::Z, a & arg == 0);
            },
            Mnemonic::ASL => self.shift(ins, op, shift_left(a), shift_left(arg), mmu),
            Mnemonic::LSR => self.shift(ins, op, shift_right(a), shift_right(arg), mmu),
            Mnemonic::ROL => self.shift(
                ins,
                op,
                rotate_left(a, carry),
                rotate_left(arg, carry),
                mmu,
            ),
            Mnemonic::ROR => self.shift(
                ins,
                op,
                rotate_right(a, carry),
                rotate_right(arg, carry),
                mmu,
            ),
            Mnemonic::SEC => self.P.insert(StatusRegister::C),
            Mnemonic::SED => self.P.insert(StatusRegister::D),
            Mnemonic::SEI => self.P.insert(StatusRegister::I),
            Mnemonic::CLC => self.P.remove(StatusRegister::C),
            Mnemonic::CLD => self.P.remove(StatusRegister::D),
            Mnemonic::CLI => self.P.remove(StatusRegister::I),
            Mnemonic::CLV => self.P.remove(StatusRegister::V),
            _ => {},
        }
    }

    fn is_branch_taken(&self, m: Mnemonic) -> (taken: bool)
        ensures
            taken == self.branch_taken(m),
    {
        match m {
            Mnemonic::BCS => self.P.contains(StatusRegister::C),
            Mnemonic::BCC => !self.P.contains(StatusRegister::C),
            Mnemonic::BEQ => self.P.contains(StatusRegister::Z),
            Mnemonic::BNE => !self.P.contains(StatusRegister::Z),
            Mnemonic::BMI => self.P.contains(StatusRegister::N),
            Mnemonic::BPL => !self.P.contains(StatusRegister::N),
            Mnemonic::BVS => self.P.contains(StatusRegister::V),
            Mnemonic::BVC => !self.P.contains(StatusRegister::V),
            _ => false,
        }
    }

    fn run_flow<M: MOS6502Memory>(&mut self, ins: &Instruction, op: &Operand, mmu: &mut M)
        requires
            old(mmu).usable(),
        ensures
            (*final(self), *final(mmu)) == old(self).flowed(*old(mmu), *ins, *op),
            final(mmu).usable(),
    {
        match ins.mnemonic {
            Mnemonic::JMP => self.PC.set(op.pointer),
            Mnemonic::JSR => {
                let last_byte = Register(self.PC.get().wrapping_sub(1));
                self.push_byte(last_byte.hi(), mmu);
                self.push_byte(last_byte.lo(), mmu);
                self.PC.set(op.pointer);
            },
            Mnemonic::BCS | Mnemonic::BCC | Mnemonic::BEQ | Mnemonic::BNE | Mnemonic::BMI
            | Mnemonic::BPL | Mnemonic::BVS | Mnemonic::BVC => {
                if self.is_branch_taken(ins.mnemonic) {
                    self.PC.set(op.pointer);
                }
            },
            Mnemonic::PHA => self.push_byte(self.A.get(), mmu),
            Mnemonic::PHP => self.push_byte(self.P.bits() | StatusRegister::B, mmu),
            Mnemonic::PLA => {
                let a = self.pull_byte(mmu);
                self.load_a(a);
            },
            Mnemonic::PLP => {
                let p = self.pull_byte(mmu) & 0b1100_1111;
                self.P = StatusRegister::from_bits_truncate(p);
            },
            Mnemonic::RTI => {
                let p = self.pull_byte(mmu) & 0b1100_1111;
                let pcl = self.pull_byte(mmu);
                let pch = self.pull_byte(mmu);
                self.P = StatusRegister::from_bits_truncate(p);
                self.PC = Register(((pch as u16) << 8) | (pcl as u16));
            },
            Mnemonic::RTS => {
                let lo = self.pull_byte(mmu);
                let hi = self.pull_byte(mmu);
                self.PC = Register((((hi as u16) << 8) | (lo as u16)).wrapping_add(1));
            },
            Mnemonic::BRK => {
                let ret = Register(self.PC.get().wrapping_add(1));
                let status = self.P.bits() | 0b0011_0000;
                self.push_byte(ret.hi(), mmu);
                self.push_byte(ret.lo(), mmu);
                self.push_byte(status, mmu);
                self.P.insert(StatusRegister::I);
                let pc = mmu.read_double(0xFFFE);
                self.PC.set(pc);
            },
            _ => {},
        }
    }

    fn execute<M: MOS6502Memory>(&mut self, ins: &Instruction, op: &Operand, mmu: &mut M)
        requires
            old(mmu).usable(),
        ensures
            (*final(self), *final(mmu)) == old(self).executed(*old(mmu), *ins, *op),
            final(mmu).usable(),
    {
        match ins.mnemonic {
            Mnemonic::LDA | Mnemonic::LDX | Mnemonic::LDY | Mnemonic::STA | Mnemonic::STX
            | Mnemonic::STY | Mnemonic::TAX | Mnemonic::TAY | Mnemonic::TSX | Mnemonic::TXA
            | Mnemonic::TXS | Mnemonic::TYA | Mnemonic::INC | Mnemonic::INX | Mnemonic::INY
            | Mnemonic::DEC | Mnemonic::DEX | Mnemonic::DEY => self.run_move(ins, op, mmu),
            Mnemonic::ADC | Mnemonic::SBC | Mnemonic::CMP | Mnemonic::CPX | Mnemonic::CPY
            | Mnemonic::AND | Mnemonic::ORA | Mnemonic::EOR | Mnemonic::BIT | Mnemonic::ASL
            | Mnemonic::LSR | Mnemonic::ROL | Mnemonic::ROR | Mnemonic::SEC | Mnemonic::SED
            | Mnemonic::SEI | Mnemonic::CLC | Mnemonic::CLD | Mnemonic::CLI | Mnemonic::CLV => {
                self.run_compute(ins, op, mmu)
            },
            Mnemonic::NOP => {},
            _ => self.run_flow(ins, op, mmu),
        }
    }

    /// Executes one instruction, returns the number of cycles executed.
    pub fn tick<M: MOS6502Memory>(&mut self, mmu: &mut M) -> (r: Result<u32, Error>)
        requires
            old(mmu).usable(),
        ensures
            (*final(self), *final(mmu), r) == old(self).step(*old(mmu)),
            r matches Ok(cycles) ==> 2 <= cycles <= 9,
            final(mmu).usable(),
    {
        proof {
            reveal(MOS6502::step);
        }
        self.service_interrupts(mmu);

        let mut pc_temp = self.PC;
        let opcode = fetch_byte(&mut pc_temp, mmu);
        let ins = match self.decode_opcode(opcode) {
            Ok(ins) => ins,
            Err(e) => {
                return Err(e);
            },
        };
        proof {
            lemma_cycles_bounded(opcode);
        }
        let op = self.resolve_operand(&ins, &mut pc_temp, mmu);
        self.PC = pc_temp;

        let taken = self.is_branch_taken(ins.mnemonic);
        self.execute(&ins, &op, mmu);

        let mut cycles = ins.cycles;
        match ins.mnemonic {
            Mnemonic::BCS | Mnemonic::BCC | Mnemonic::BEQ | Mnemonic::BNE | Mnemonic::BMI
            | Mnemonic::BPL | Mnemonic::BVS | Mnemonic::BVC => {
                if taken {
                    cycles += 1;
                    if op.crossed {
                        cycles += 1;
                    }
                }
            },
            _ => {
                if op.crossed && ins.can_change_cycles {
                    cycles += 1;
                }
            },
        }
        Ok(cycles)
    }
}

/// Reads the byte at `pc` and moves `pc` past it.
pub fn fetch_byte<M: MOS6502Memory>(pc: &mut Register<u16>, mmu: &mut M) -> (v: u8)
    requires
        old(mmu).usable(),
    ensures
        v == old(mmu).peek(old(pc).0),
        final(pc).0 == old(pc).0.wrapping_add(1),
        *final(mmu) == old(mmu).after_read(old(pc).0),
        final(mmu).usable(),
{
    let v = mmu.read(pc.get());
    pc.inc();
    v
}

/// Reads the little-endian word at `pc` and moves `pc` past it.
pub fn fetch_double<M: MOS6502Memory>(pc: &mut Register<u16>, mmu: &mut M) -> (v: u16)
    requires
        old(mmu).usable(),
    ensures
        v == fetched_word(*old(mmu), old(pc).0),
        final(pc).0 == old(pc).0.wrapping_add(2),
        *final(mmu) == after_fetched_word(*old(mmu), old(pc).0),
        final(mmu).usable(),
{
    let lo = fetch_byte(pc, mmu);
    let hi = fetch_byte(pc, mmu);
    ((hi as u16) << 8) | (lo as u16)
}

} // verus!
