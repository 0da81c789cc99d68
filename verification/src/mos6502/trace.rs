use super::instruction::{decode, instruction_for, AddrMode, Instruction};
use super::MOS6502;
use crate::text::{binary_byte, hex_byte, hex_word, push_binary_byte, push_hex_byte, push_hex_word};
use vstd::prelude::*;

verus! {

/// The operand of an instruction as an assembler writes it, from the two
/// bytes that follow the opcode: nothing where the instruction has none, a
/// byte in two digits, an address in four with its high byte first, and the
/// marks of the addressing mode around it.
pub open spec fn operand_text(mode: AddrMode, lo: u8, hi: u8) -> Seq<char> {
    match mode {
        AddrMode::Immediate => "\t#$"@ + hex_byte(lo),
        AddrMode::Implied => Seq::<char>::empty(),
        AddrMode::Accumulator => "\tA"@,
        AddrMode::Absolute => "\t$"@ + hex_byte(hi) + hex_byte(lo),
        AddrMode::AbsoluteX => "\t$"@ + hex_byte(hi) + hex_byte(lo) + ",X"@,
        AddrMode::AbsoluteY => "\t$"@ + hex_byte(hi) + hex_byte(lo) + ",Y"@,
        AddrMode::ZeroPage => "\t$"@ + hex_byte(lo),
        AddrMode::ZeroPageX => "\t$"@ + hex_byte(lo) + ",X"@,
        AddrMode::ZeroPageY => "\t$"@ + hex_byte(lo) + ",Y"@,
        AddrMode::Relative => "\t$"@ + hex_byte(lo),
        AddrMode::Indirect => "\t($"@ + hex_byte(hi) + hex_byte(lo) + ")"@,
        AddrMode::IndirectX => "\t($"@ + hex_byte(lo) + ",X)"@,
        AddrMode::IndirectY => "\t($"@ + hex_byte(lo) + "),Y"@,
    }
}

/// An instruction as an assembler writes it: its three letters and its
/// operand.
pub open spec fn disassembly(ins: Instruction, lo: u8, hi: u8) -> Seq<char> {
    ins.mnemonic.letters() + operand_text(ins.addr_mode, lo, hi)
}

impl MOS6502 {
    /// The registers in one line: the program counter, the accumulator, the
    /// two index registers and the stack pointer in hexadecimal digits, and
    /// the status in binary digits.
    pub open spec fn registers_text(self) -> Seq<char> {
        "PC:0x"@ + hex_word(self.PC.0) + " A:0x"@ + hex_byte(self.A.0) + " X:0x"@ + hex_byte(
            self.X.0,
        ) + " Y:0x"@ + hex_byte(self.Y.0) + " S: 0x"@ + hex_byte(self.S.0) + " P:"@ + binary_byte(
            self.P.bits,
        )
    }

    /// The two lines of the trace for an instruction that is about to run:
    /// the registers, then the opcode and the instruction as an assembler
    /// writes it.
    pub open spec fn trace_text(self, opcode: u8, ins: Instruction, lo: u8, hi: u8) -> Seq<char> {
        self.registers_text() + " \n Opcode: 0x"@ + hex_byte(opcode) + "\tDisassembly: "@
            + disassembly(ins, lo, hi)
    }

    /// The trace of the instruction with the given opcode, followed in
    /// memory by the bytes `lo` and `hi`, as the processor stands before it
    /// runs; `None` where the opcode encodes no documented instruction. The
    /// processor prints nothing itself: a program that wants a trace prints
    /// this line before each instruction.
    pub fn trace_line(&self, opcode: u8, lo: u8, hi: u8) -> (line: Option<String>)
        ensures
            match instruction_for(opcode) {
                Some(ins) => line matches Some(t) && t@ == self.trace_text(opcode, ins, lo, hi),
                None => line is None,
            },
    {
        match decode(opcode) {
            None => None,
            Some(ins) => {
                let mut t = String::from_str("PC:0x");
                push_hex_word(&mut t, self.PC.get());
                t.append(" A:0x");
                push_hex_byte(&mut t, self.A.get());
                t.append(" X:0x");
                push_hex_byte(&mut t, self.X.get());
                t.append(" Y:0x");
                push_hex_byte(&mut t, self.Y.get());
                t.append(" S: 0x");
                push_hex_byte(&mut t, self.S.get());
                t.append(" P:");
                push_binary_byte(&mut t, self.P.bits());
                assert(t@ =~= self.registers_text());
                t.append(" \n Opcode: 0x");
                push_hex_byte(&mut t, opcode);
                t.append("\tDisassembly: ");
                let ghost head = t@;
                t.append(ins.mnemonic.name());
                push_operand(&mut t, ins.addr_mode, lo, hi);
                assert(t@ =~= head + disassembly(ins, lo, hi));
                assert(t@ =~= self.trace_text(opcode, ins, lo, hi));
                Some(t)
            },
        }
    }
}

/// Appends the operand of an instruction as an assembler writes it.
pub fn push_operand(text: &mut String, mode: AddrMode, lo: u8, hi: u8)
    ensures
        final(text)@ == old(text)@ + operand_text(mode, lo, hi),
{
    match mode {
        AddrMode::Immediate => {
            text.append("\t#$");
            push_hex_byte(text, lo);
        },
        AddrMode::Implied => {},
        AddrMode::Accumulator => {
            text.append("\tA");
        },
        AddrMode::Absolute => {
            text.append("\t$");
            push_hex_byte(text, hi);
            push_hex_byte(text, lo);
        },
        AddrMode::AbsoluteX => {
            text.append("\t$");
            push_hex_byte(text, hi);
            push_hex_byte(text, lo);
            text.append(",X");
        },
        AddrMode::AbsoluteY => {
            text.append("\t$");
            push_hex_byte(text, hi);
            push_hex_byte(text, lo);
            text.append(",Y");
        },
        AddrMode::ZeroPage => {
            text.append("\t$");
            push_hex_byte(text, lo);
        },
        AddrMode::ZeroPageX => {
            text.append("\t$");
            push_hex_byte(text, lo);
            text.append(",X");
        },
        AddrMode::ZeroPageY => {
            text.append("\t$");
            push_hex_byte(text, lo);
            text.append(",Y");
        },
        AddrMode::Relative => {
            text.append("\t$");
            push_hex_byte(text, lo);
        },
        AddrMode::Indirect => {
            text.append("\t($");
            push_hex_byte(text, hi);
            push_hex_byte(text, lo);
            text.append(")");
        },
        AddrMode::IndirectX => {
            text.append("\t($");
            push_hex_byte(text, lo);
            text.append(",X)");
        },
        AddrMode::IndirectY => {
            text.append("\t($");
            push_hex_byte(text, lo);
            text.append("),Y");
        },
    }
    assert(text@ =~= old(text)@ + operand_text(mode, lo, hi));
}

} // verus!
