use super::alu::{lsr, AluResult, Compared, Shifted};
use super::instruction::{
    instruction_for, AddrMode, FlagChange, FlagChanges, Instruction, Mnemonic,
};
use super::memory_interface::MOS6502Memory;
use super::register::{sign_bit, StatusRegister};
use super::{cycles_for, Operand, MOS6502};
use vstd::prelude::*;

verus! {

/// The instructions that read their operand and leave memory alone.
pub open spec fn reads_operand(m: Mnemonic) -> bool {
    m == Mnemonic::LDA || m == Mnemonic::LDX || m == Mnemonic::LDY || m == Mnemonic::ADC || m
        == Mnemonic::SBC || m == Mnemonic::AND || m == Mnemonic::ORA || m == Mnemonic::EOR || m
        == Mnemonic::CMP || m == Mnemonic::CPX || m == Mnemonic::CPY || m == Mnemonic::BIT
}

/// The instructions that read a byte, change it and write it back.
pub open spec fn modifies_operand(m: Mnemonic) -> bool {
    m == Mnemonic::INC || m == Mnemonic::DEC || m == Mnemonic::ASL || m == Mnemonic::LSR || m
        == Mnemonic::ROL || m == Mnemonic::ROR
}

/// The cycles that reading an operand takes in each addressing mode.
pub open spec fn read_cycles(mode: AddrMode) -> int {
    match mode {
        AddrMode::Immediate => 2,
        AddrMode::ZeroPage => 3,
        AddrMode::ZeroPageX | AddrMode::ZeroPageY => 4,
        AddrMode::Absolute | AddrMode::AbsoluteX | AddrMode::AbsoluteY => 4,
        AddrMode::IndirectX => 6,
        AddrMode::IndirectY => 5,
        _ => 2,
    }
}

/// The cycles that a store takes in each addressing mode.
pub open spec fn store_cycles(mode: AddrMode) -> int {
    match mode {
        AddrMode::ZeroPage => 3,
        AddrMode::ZeroPageX | AddrMode::ZeroPageY => 4,
        AddrMode::Absolute => 4,
        AddrMode::AbsoluteX | AddrMode::AbsoluteY => 5,
        _ => 6,
    }
}

/// The cycles that changing a byte takes in each addressing mode.
pub open spec fn modify_cycles(mode: AddrMode) -> int {
    match mode {
        AddrMode::Accumulator => 2,
        AddrMode::ZeroPage => 5,
        AddrMode::ZeroPageX => 6,
        AddrMode::Absolute => 6,
        _ => 7,
    }
}

/// Whether indexing in this mode can cross a page.
pub open spec fn can_cross(mode: AddrMode) -> bool {
    mode == AddrMode::AbsoluteX || mode == AddrMode::AbsoluteY || mode == AddrMode::IndirectY
}

/// The instruction table follows the timing rules of the 6502. An
/// instruction that reads its operand takes the cycles of its addressing mode
/// and pays for a page crossed exactly in the indexed modes; a store and an
/// instruction that changes a byte take the cycles of their addressing mode
/// and never pay for a page; a branch takes two cycles before its penalties.
#[verifier::rlimit(100)]
pub proof fn lemma_table_follows_timing_rules(opcode: u8)
    ensures
        instruction_for(opcode) matches Some(ins) ==> {
            &&& reads_operand(ins.mnemonic) ==> ins.cycles == read_cycles(ins.addr_mode)
                && ins.can_change_cycles == can_cross(ins.addr_mode)
            &&& ins.mnemonic.is_store() ==> ins.cycles == store_cycles(ins.addr_mode)
                && !ins.can_change_cycles
            &&& modifies_operand(ins.mnemonic) ==> ins.cycles == modify_cycles(ins.addr_mode)
                && !ins.can_change_cycles
            &&& ins.mnemonic.is_branch() ==> ins.cycles == 2 && ins.addr_mode
                == AddrMode::Relative
            &&& ins.no_read == ins.mnemonic.is_store()
            &&& ins.flag_changes == ins.mnemonic.spec_flag_changes()
        },
{
}

/// The loads, stores, transfers, increments and decrements.
pub open spec fn moves(m: Mnemonic) -> bool {
    m == Mnemonic::LDA || m == Mnemonic::LDX || m == Mnemonic::LDY || m == Mnemonic::STA || m
        == Mnemonic::STX || m == Mnemonic::STY || m == Mnemonic::TAX || m == Mnemonic::TAY || m
        == Mnemonic::TSX || m == Mnemonic::TXA || m == Mnemonic::TXS || m == Mnemonic::TYA || m
        == Mnemonic::INC || m == Mnemonic::INX || m == Mnemonic::INY || m == Mnemonic::DEC || m
        == Mnemonic::DEX || m == Mnemonic::DEY
}

/// Arithmetic, logic, comparisons, shifts and the flag instructions.
pub open spec fn computes(m: Mnemonic) -> bool {
    m == Mnemonic::ADC || m == Mnemonic::SBC || m == Mnemonic::CMP || m == Mnemonic::CPX || m
        == Mnemonic::CPY || m == Mnemonic::AND || m == Mnemonic::ORA || m == Mnemonic::EOR || m
        == Mnemonic::BIT || m == Mnemonic::ASL || m == Mnemonic::LSR || m == Mnemonic::ROL || m
        == Mnemonic::ROR || m == Mnemonic::SEC || m == Mnemonic::SED || m == Mnemonic::SEI || m
        == Mnemonic::CLC || m == Mnemonic::CLD || m == Mnemonic::CLI || m == Mnemonic::CLV
}

/// Whether `mask` is one of the six flags that the table speaks of.
pub open spec fn is_flag(mask: u8) -> bool {
    mask == StatusRegister::N || mask == StatusRegister::Z || mask == StatusRegister::C || mask
        == StatusRegister::I || mask == StatusRegister::D || mask == StatusRegister::V
}

/// Whether a flag fared as the table says: left alone, set, cleared, or
/// changed in whatever way.
pub open spec fn fared(
    change: FlagChange,
    before: StatusRegister,
    after: StatusRegister,
    mask: u8,
) -> bool {
    match change {
        FlagChange::NotModified => after.has(mask) == before.has(mask),
        FlagChange::Raised => after.has(mask),
        FlagChange::Unset => !after.has(mask),
        FlagChange::Modified => true,
    }
}

/// Whether all six flags fared as the table says, in its order N Z C I D V.
pub open spec fn follows(changes: FlagChanges, before: StatusRegister, after: StatusRegister) -> bool {
    &&& fared(changes.0, before, after, StatusRegister::N)
    &&& fared(changes.1, before, after, StatusRegister::Z)
    &&& fared(changes.2, before, after, StatusRegister::C)
    &&& fared(changes.3, before, after, StatusRegister::I)
    &&& fared(changes.4, before, after, StatusRegister::D)
    &&& fared(changes.5, before, after, StatusRegister::V)
}

/// Setting or clearing one flag gives that flag its value and leaves every
/// other flag as it was; and a byte shifted right has no sign bit.
pub proof fn lemma_one_flag(bits: u8, v: u8)
    by (bit_vector)
    ensures
        (bits | 0x80) & 0x80 == 0x80 && (bits & !0x80u8) & 0x80 != 0x80,
        (bits | 0x40) & 0x40 == 0x40 && (bits & !0x40u8) & 0x40 != 0x40,
        (bits | 0x08) & 0x08 == 0x08 && (bits & !0x08u8) & 0x08 != 0x08,
        (bits | 0x04) & 0x04 == 0x04 && (bits & !0x04u8) & 0x04 != 0x04,
        (bits | 0x02) & 0x02 == 0x02 && (bits & !0x02u8) & 0x02 != 0x02,
        (bits | 0x01) & 0x01 == 0x01 && (bits & !0x01u8) & 0x01 != 0x01,
        (bits | 0x80) & 0x7f == bits & 0x7f && (bits & !0x80u8) & 0x7f == bits & 0x7f,
        (bits | 0x40) & 0xbf == bits & 0xbf && (bits & !0x40u8) & 0xbf == bits & 0xbf,
        (bits | 0x08) & 0xf7 == bits & 0xf7 && (bits & !0x08u8) & 0xf7 == bits & 0xf7,
        (bits | 0x04) & 0xfb == bits & 0xfb && (bits & !0x04u8) & 0xfb == bits & 0xfb,
        (bits | 0x02) & 0xfd == bits & 0xfd && (bits & !0x02u8) & 0xfd == bits & 0xfd,
        (bits | 0x01) & 0xfe == bits & 0xfe && (bits & !0x01u8) & 0xfe == bits & 0xfe,
        (v >> 1) & 0x80 == 0,
{
}

/// Two status bytes that agree outside one flag agree on every other
/// flag.
pub proof fn lemma_rest_agrees(a: u8, b: u8)
    by (bit_vector)
    ensures
        a & 0x7f == b & 0x7f ==> (a & 0x40 == 0x40) == (b & 0x40 == 0x40) && (a & 0x08 == 0x08)
            == (b & 0x08 == 0x08) && (a & 0x04 == 0x04) == (b & 0x04 == 0x04) && (a & 0x02
            == 0x02) == (b & 0x02 == 0x02) && (a & 0x01 == 0x01) == (b & 0x01 == 0x01),
        a & 0xbf == b & 0xbf ==> (a & 0x80 == 0x80) == (b & 0x80 == 0x80) && (a & 0x08 == 0x08)
            == (b & 0x08 == 0x08) && (a & 0x04 == 0x04) == (b & 0x04 == 0x04) && (a & 0x02
            == 0x02) == (b & 0x02 == 0x02) && (a & 0x01 == 0x01) == (b & 0x01 == 0x01),
        a & 0xf7 == b & 0xf7 ==> (a & 0x80 == 0x80) == (b & 0x80 == 0x80) && (a & 0x40 == 0x40)
            == (b & 0x40 == 0x40) && (a & 0x04 == 0x04) == (b & 0x04 == 0x04) && (a & 0x02
            == 0x02) == (b & 0x02 == 0x02) && (a & 0x01 == 0x01) == (b & 0x01 == 0x01),
        a & 0xfb == b & 0xfb ==> (a & 0x80 == 0x80) == (b & 0x80 == 0x80) && (a & 0x40 == 0x40)
            == (b & 0x40 == 0x40) && (a & 0x08 == 0x08) == (b & 0x08 == 0x08) && (a & 0x02
            == 0x02) == (b & 0x02 == 0x02) && (a & 0x01 == 0x01) == (b & 0x01 == 0x01),
        a & 0xfd == b & 0xfd ==> (a & 0x80 == 0x80) == (b & 0x80 == 0x80) && (a & 0x40 == 0x40)
            == (b & 0x40 == 0x40) && (a & 0x08 == 0x08) == (b & 0x08 == 0x08) && (a & 0x04
            == 0x04) == (b & 0x04 == 0x04) && (a & 0x01 == 0x01) == (b & 0x01 == 0x01),
        a & 0xfe == b & 0xfe ==> (a & 0x80 == 0x80) == (b & 0x80 == 0x80) && (a & 0x40 == 0x40)
            == (b & 0x40 == 0x40) && (a & 0x08 == 0x08) == (b & 0x08 == 0x08) && (a & 0x04
            == 0x04) == (b & 0x04 == 0x04) && (a & 0x02 == 0x02) == (b & 0x02 == 0x02),
{
}

impl StatusRegister {
    /// Setting or clearing one of the six flags gives that flag its value
    /// and leaves the other five as they were.
    pub proof fn lemma_with(self, mask: u8, on: bool, other: u8)
        requires
            is_flag(mask),
            is_flag(other),
        ensures
            self.with(mask, on).has(other) == (if other == mask {
                on
            } else {
                self.has(other)
            }),
    {
        lemma_one_flag(self.bits, 0);
        lemma_rest_agrees(self.with(mask, on).bits, self.bits);
    }
}

impl StatusRegister {
    /// Setting or clearing one of the six flags gives that flag its value
    /// and leaves the other five as they were.
    pub proof fn lemma_flag_set(self, mask: u8, on: bool)
        requires
            is_flag(mask),
        ensures
            self.with(mask, on).has(mask) == on,
            mask != StatusRegister::N ==> self.with(mask, on).has(StatusRegister::N) == self.has(
                StatusRegister::N,
            ),
            mask != StatusRegister::Z ==> self.with(mask, on).has(StatusRegister::Z) == self.has(
                StatusRegister::Z,
            ),
            mask != StatusRegister::C ==> self.with(mask, on).has(StatusRegister::C) == self.has(
                StatusRegister::C,
            ),
            mask != StatusRegister::I ==> self.with(mask, on).has(StatusRegister::I) == self.has(
                StatusRegister::I,
            ),
            mask != StatusRegister::D ==> self.with(mask, on).has(StatusRegister::D) == self.has(
                StatusRegister::D,
            ),
            mask != StatusRegister::V ==> self.with(mask, on).has(StatusRegister::V) == self.has(
                StatusRegister::V,
            ),
    {
        self.lemma_with(mask, on, StatusRegister::N);
        self.lemma_with(mask, on, StatusRegister::Z);
        self.lemma_with(mask, on, StatusRegister::C);
        self.lemma_with(mask, on, StatusRegister::I);
        self.lemma_with(mask, on, StatusRegister::D);
        self.lemma_with(mask, on, StatusRegister::V);
    }

    /// Setting Z and N from a result gives them their values and leaves C,
    /// I, D and V as they were.
    pub proof fn lemma_zn_set(self, v: u8)
        ensures
            self.with_zn(v).has(StatusRegister::Z) == (v == 0),
            self.with_zn(v).has(StatusRegister::N) == sign_bit(v),
            self.with_zn(v).has(StatusRegister::C) == self.has(StatusRegister::C),
            self.with_zn(v).has(StatusRegister::I) == self.has(StatusRegister::I),
            self.with_zn(v).has(StatusRegister::D) == self.has(StatusRegister::D),
            self.with_zn(v).has(StatusRegister::V) == self.has(StatusRegister::V),
    {
        self.lemma_flag_set(StatusRegister::Z, v == 0);
        self.with(StatusRegister::Z, v == 0).lemma_flag_set(StatusRegister::N, sign_bit(v));
    }
}

impl MOS6502 {
    /// Taking a sum or difference touches N, Z, C and V only; taking a
    /// comparison or a shift touches N, Z and C only.
    pub proof fn lemma_results_taken(self, r: AluResult, c: Compared, s: Shifted)
        ensures
            self.with_alu(r).P.has(StatusRegister::I) == self.P.has(StatusRegister::I),
            self.with_alu(r).P.has(StatusRegister::D) == self.P.has(StatusRegister::D),
            self.with_compare(c).P.has(StatusRegister::I) == self.P.has(StatusRegister::I),
            self.with_compare(c).P.has(StatusRegister::D) == self.P.has(StatusRegister::D),
            self.with_compare(c).P.has(StatusRegister::V) == self.P.has(StatusRegister::V),
            self.with_shift_flags(s).P.has(StatusRegister::I) == self.P.has(StatusRegister::I),
            self.with_shift_flags(s).P.has(StatusRegister::D) == self.P.has(StatusRegister::D),
            self.with_shift_flags(s).P.has(StatusRegister::V) == self.P.has(StatusRegister::V),
            self.with_shift_flags(s).P.has(StatusRegister::N) == sign_bit(s.value),
    {
        let p = self.P;
        p.lemma_zn_set(r.value);
        let p1 = p.with_zn(r.value);
        p1.lemma_flag_set(StatusRegister::C, r.carry);
        p1.with(StatusRegister::C, r.carry).lemma_flag_set(StatusRegister::V, r.overflow);
        p.lemma_flag_set(StatusRegister::N, c.negative);
        let p2 = p.with(StatusRegister::N, c.negative);
        p2.lemma_flag_set(StatusRegister::Z, c.zero);
        p2.with(StatusRegister::Z, c.zero).lemma_flag_set(StatusRegister::C, c.carry);
        p.lemma_flag_set(StatusRegister::C, s.carry);
        p.with(StatusRegister::C, s.carry).lemma_zn_set(s.value);
    }

    /// The loads, stores, transfers, increments and decrements touch the
    /// flags as the table says.
    pub proof fn lemma_moves_follow_table<M: MOS6502Memory>(
        self,
        mem: M,
        ins: Instruction,
        op: Operand,
    )
        requires
            moves(ins.mnemonic),
        ensures
            follows(ins.mnemonic.spec_flag_changes(), self.P, self.moved(mem, ins, op).0.P),
    {
        let p = self.P;
        p.lemma_zn_set(op.argument);
        p.lemma_zn_set(self.A.0);
        p.lemma_zn_set(self.X.0);
        p.lemma_zn_set(self.Y.0);
        p.lemma_zn_set(self.S.0);
        p.lemma_zn_set(self.X.0.wrapping_add(1));
        p.lemma_zn_set(self.Y.0.wrapping_add(1));
        p.lemma_zn_set(self.X.0.wrapping_sub(1));
        p.lemma_zn_set(self.Y.0.wrapping_sub(1));
        p.lemma_zn_set(mem.peek(op.pointer).wrapping_add(1));
        p.lemma_zn_set(mem.peek(op.pointer).wrapping_sub(1));
    }

    /// Arithmetic, logic, comparisons, shifts and the flag instructions touch
    /// the flags as the table says.
    pub proof fn lemma_computations_follow_table<M: MOS6502Memory>(
        self,
        mem: M,
        ins: Instruction,
        op: Operand,
    )
        requires
            computes(ins.mnemonic),
        ensures
            follows(ins.mnemonic.spec_flag_changes(), self.P, self.computed(mem, ins, op).0.P),
    {
        let p = self.P;
        let arg = op.argument;
        let carry = p.has(StatusRegister::C);
        let c0 = Compared { negative: false, zero: false, carry: false };
        let s0 = Shifted { value: 0, carry: false };
        let r0 = AluResult { value: 0, carry: false, overflow: false };
        match ins.mnemonic {
            Mnemonic::ADC => self.lemma_results_taken(super::alu::adc(self.A.0, arg, carry), c0, s0),
            Mnemonic::SBC => self.lemma_results_taken(super::alu::sbc(self.A.0, arg, carry), c0, s0),
            Mnemonic::CMP => self.lemma_results_taken(
                r0,
                super::alu::compare(self.A.0, arg),
                s0,
            ),
            Mnemonic::CPX => self.lemma_results_taken(
                r0,
                super::alu::compare(self.X.0, arg),
                s0,
            ),
            Mnemonic::CPY => self.lemma_results_taken(
                r0,
                super::alu::compare(self.Y.0, arg),
                s0,
            ),
            Mnemonic::AND => p.lemma_zn_set(self.A.0 & arg),
            Mnemonic::ORA => p.lemma_zn_set(self.A.0 | arg),
            Mnemonic::EOR => p.lemma_zn_set(self.A.0 ^ arg),
            Mnemonic::BIT => {
                p.lemma_flag_set(StatusRegister::N, arg & 0x80 != 0);
                let p1 = p.with(StatusRegister::N, arg & 0x80 != 0);
                p1.lemma_flag_set(StatusRegister::V, arg & 0x40 != 0);
                p1.with(StatusRegister::V, arg & 0x40 != 0).lemma_flag_set(
                    StatusRegister::Z,
                    self.A.0 & arg == 0,
                );
            },
            Mnemonic::ASL => {
                self.lemma_results_taken(r0, c0, super::alu::asl(self.A.0));
                self.lemma_results_taken(r0, c0, super::alu::asl(arg));
            },
            Mnemonic::LSR => {
                self.lemma_results_taken(r0, c0, lsr(self.A.0));
                self.lemma_results_taken(r0, c0, lsr(arg));
                lemma_one_flag(0, self.A.0);
                lemma_one_flag(0, arg);
            },
            Mnemonic::ROL => {
                self.lemma_results_taken(r0, c0, super::alu::rol(self.A.0, carry));
                self.lemma_results_taken(r0, c0, super::alu::rol(arg, carry));
            },
            Mnemonic::ROR => {
                self.lemma_results_taken(r0, c0, super::alu::ror(self.A.0, carry));
                self.lemma_results_taken(r0, c0, super::alu::ror(arg, carry));
            },
            Mnemonic::SEC => p.lemma_flag_set(StatusRegister::C, true),
            Mnemonic::SED => p.lemma_flag_set(StatusRegister::D, true),
            Mnemonic::SEI => p.lemma_flag_set(StatusRegister::I, true),
            Mnemonic::CLC => p.lemma_flag_set(StatusRegister::C, false),
            Mnemonic::CLD => p.lemma_flag_set(StatusRegister::D, false),
            Mnemonic::CLI => p.lemma_flag_set(StatusRegister::I, false),
            Mnemonic::CLV => p.lemma_flag_set(StatusRegister::V, false),
            _ => {},
        }
    }

    /// Jumps, branches, subroutines, the stack instructions and BRK touch
    /// the flags as the table says.
    pub proof fn lemma_flow_follows_table<M: MOS6502Memory>(
        self,
        mem: M,
        ins: Instruction,
        op: Operand,
    )
        requires
            !moves(ins.mnemonic),
            !computes(ins.mnemonic),
        ensures
            follows(ins.mnemonic.spec_flag_changes(), self.P, self.flowed(mem, ins, op).0.P),
    {
        let p = self.P;
        match ins.mnemonic {
            Mnemonic::PLA => p.lemma_zn_set(self.pulled(mem).0),
            Mnemonic::BRK => p.lemma_flag_set(StatusRegister::I, true),
            _ => {},
        }
    }

    /// An instruction touches the flags as its table entry says: a flag
    /// that the entry calls not modified stays as it was, one that it calls
    /// set is set and one that it calls cleared is clear afterwards.
    pub proof fn lemma_flags_follow_table<M: MOS6502Memory>(
        self,
        mem: M,
        ins: Instruction,
        op: Operand,
    )
        requires
            ins.flag_changes == ins.mnemonic.spec_flag_changes(),
        ensures
            follows(ins.flag_changes, self.P, self.executed(mem, ins, op).0.P),
    {
        if moves(ins.mnemonic) {
            self.lemma_moves_follow_table(mem, ins, op);
        } else if computes(ins.mnemonic) {
            self.lemma_computations_follow_table(mem, ins, op);
        } else {
            self.lemma_flow_follows_table(mem, ins, op);
        }
    }

    /// The instruction that the next step runs, if the byte it fetches
    /// encodes one.
    pub open spec fn next_instruction<M: MOS6502Memory>(self, mem: M) -> Option<Instruction> {
        let (cpu, m) = self.after_interrupts(mem);
        instruction_for(m.peek(cpu.PC.0))
    }

    /// The operand of the instruction that the next step runs.
    pub open spec fn next_operand<M: MOS6502Memory>(self, mem: M) -> Operand {
        let (cpu, m) = self.after_interrupts(mem);
        cpu.operand(
            m.after_read(cpu.PC.0),
            self.next_instruction(mem)->0,
            cpu.PC.0.wrapping_add(1),
        ).0
    }

    /// Whether the instruction that the next step runs is a branch that is
    /// taken.
    pub open spec fn next_branch_taken<M: MOS6502Memory>(self, mem: M) -> bool {
        self.after_interrupts(mem).0.branch_taken(self.next_instruction(mem)->0.mnemonic)
    }

    /// A step touches the flags as the table entry of its instruction says,
    /// counted from the status with which the instruction starts, after any
    /// interrupt has been entered.
    pub proof fn lemma_step_flags_follow_table<M: MOS6502Memory>(self, mem: M)
        ensures
            self.next_instruction(mem) matches Some(ins) ==> follows(
                ins.flag_changes,
                self.after_interrupts(mem).0.P,
                self.step(mem).0.P,
            ),
    {
        reveal(MOS6502::step);
        let (c1, m1) = self.after_interrupts(mem);
        let opcode = m1.peek(c1.PC.0);
        lemma_table_follows_timing_rules(opcode);
        match instruction_for(opcode) {
            Some(ins) => {
                let m2 = m1.after_read(c1.PC.0);
                let (op, pc, m3) = c1.operand(m2, ins, c1.PC.0.wrapping_add(1));
                c1.with_pc(pc).lemma_flags_follow_table(m3, ins, op);
            },
            None => {},
        }
    }

    /// A step takes the cycles that the table lists for its instruction,
    /// and more only as documented: one more when an instruction that pays
    /// for pages crosses one, and for a branch one more when it is taken and
    /// a second when the taken branch crosses a page. A step fails exactly
    /// when the byte it fetches encodes no instruction.
    pub proof fn lemma_cycles_match_table<M: MOS6502Memory>(self, mem: M)
        ensures
            self.step(mem).2 is Err <==> self.next_instruction(mem) is None,
            self.step(mem).2 matches Ok(cycles) ==> {
                let ins = self.next_instruction(mem)->0;
                let crossed = self.next_operand(mem).crossed;
                let taken = self.next_branch_taken(mem);
                &&& cycles == cycles_for(ins, self.next_operand(mem), taken)
                &&& ins.mnemonic.is_branch() ==> cycles == ins.cycles + (if !taken {
                    0int
                } else if crossed {
                    2int
                } else {
                    1int
                })
                &&& !ins.mnemonic.is_branch() ==> cycles == ins.cycles + (if crossed
                    && ins.can_change_cycles {
                    1int
                } else {
                    0int
                })
            },
    {
        reveal(MOS6502::step);
        let (cpu, m) = self.after_interrupts(mem);
        super::instruction::lemma_cycles_bounded(m.peek(cpu.PC.0));
    }
}

} // verus!
