use vstd::prelude::*;

verus! {

/// Everything the processor needs to know about one opcode: what it does,
/// how its operand is found, what it costs and which flags it may touch.
#[derive(Debug, Clone, Copy, PartialEq, Eq, Structural)]
pub struct Instruction {
    pub mnemonic: Mnemonic,
    pub addr_mode: AddrMode,
    /// Cycles taken when no page boundary is crossed.
    pub cycles: u32,
    /// Whether crossing a page boundary costs one more cycle.
    pub can_change_cycles: bool,
    /// Whether the operand's target is left unread (pure stores).
    pub no_read: bool,
    pub flag_changes: FlagChanges,
}

/// Instruction addressing mode
#[derive(Debug, Clone, Copy, PartialEq, Eq, Structural)]
pub enum AddrMode {
    /// `OPC #$BB`
    Immediate,
    /// `OPC`
    Implied,
    /// `OPC $LLHH`
    Absolute,
    /// `OPC $LLHH,X`
    AbsoluteX,
    /// `OPC $LLHH,Y`
    AbsoluteY,
    /// `OPC A`
    Accumulator,
    /// `OPC ($LLHH)`
    Indirect,
    /// `OPC ($LL,X)`
    IndirectX,
    /// `OPC ($LL),Y`
    IndirectY,
    /// `OPC $BB`
    Relative,
    /// `OPC $LL`
    ZeroPage,
    /// `OPC $LL,X`
    ZeroPageX,
    /// `OPC $LL,Y`
    ZeroPageY,
}

#[allow(clippy::upper_case_acronyms)]
#[derive(Debug, PartialEq, Eq, Hash, Clone, Copy, Structural)]
pub enum Mnemonic {
    LDA,
    LDX,
    LDY,
    ADC,
    SBC,
    STA,
    STX,
    STY,
    TAX,
    TAY,
    TSX,
    TXA,
    TXS,
    TYA,
    JMP,
    JSR,
    BCC,
    BCS,
    BEQ,
    BMI,
    BNE,
    BPL,
    BVC,
    BVS,
    INC,
    INX,
    INY,
    DEC,
    DEX,
    DEY,
    NOP,
    PHA,
    PHP,
    PLA,
    PLP,
    RTI,
    RTS,
    SEC,
    SED,
    SEI,
    CLC,
    CLD,
    CLI,
    CLV,
    CMP,
    CPX,
    CPY,
    BIT,
    AND,
    ORA,
    EOR,
    ASL,
    LSR,
    ROL,
    ROR,
    BRK,
}

/// Changes to status flags
///
/// Contents are in the order:
///
/// N Z C I D V
#[derive(Debug, Clone, Copy, PartialEq, Eq, Structural)]
pub struct FlagChanges(
    pub FlagChange,
    pub FlagChange,
    pub FlagChange,
    pub FlagChange,
    pub FlagChange,
    pub FlagChange,
);

#[derive(Debug, Clone, Copy, PartialEq, Eq, Structural)]
pub enum FlagChange {
    NotModified,
    Modified,
    Raised,
    Unset,
}

impl Mnemonic {
    /// What the instruction may do to each of N Z C I D V.
    pub open spec fn spec_flag_changes(self) -> FlagChanges {
        match self {
            Mnemonic::LDA | Mnemonic::LDX | Mnemonic::LDY | Mnemonic::TAX | Mnemonic::TAY
            | Mnemonic::TSX | Mnemonic::TXA | Mnemonic::TYA | Mnemonic::INC | Mnemonic::INX
            | Mnemonic::INY | Mnemonic::DEC | Mnemonic::DEX | Mnemonic::DEY | Mnemonic::PLA
            | Mnemonic::AND | Mnemonic::ORA | Mnemonic::EOR => FlagChanges(
                FlagChange::Modified,
                FlagChange::Modified,
                FlagChange::NotModified,
                FlagChange::NotModified,
                FlagChange::NotModified,
                FlagChange::NotModified,
            ),
            Mnemonic::ADC | Mnemonic::SBC => FlagChanges(
                FlagChange::Modified,
                FlagChange::Modified,
                FlagChange::Modified,
                FlagChange::NotModified,
                FlagChange::NotModified,
                FlagChange::Modified,
            ),
            Mnemonic::STA | Mnemonic::STX | Mnemonic::STY | Mnemonic::TXS | Mnemonic::JMP
            | Mnemonic::JSR | Mnemonic::BCC | Mnemonic::BCS | Mnemonic::BEQ | Mnemonic::BMI
            | Mnemonic::BNE | Mnemonic::BPL | Mnemonic::BVC | Mnemonic::BVS | Mnemonic::NOP
            | Mnemonic::PHA | Mnemonic::PHP | Mnemonic::RTS => FlagChanges(
                FlagChange::NotModified,
                FlagChange::NotModified,
                FlagChange::NotModified,
                FlagChange::NotModified,
                FlagChange::NotModified,
                FlagChange::NotModified,
            ),
            Mnemonic::PLP | Mnemonic::RTI => FlagChanges(
                FlagChange::Modified,
                FlagChange::Modified,
                FlagChange::Modified,
                FlagChange::Modified,
                FlagChange::Modified,
                FlagChange::Modified,
            ),
            Mnemonic::SEC => FlagChanges(
                FlagChange::NotModified,
                FlagChange::NotModified,
                FlagChange::Raised,
                FlagChange::NotModified,
                FlagChange::NotModified,
                FlagChange::NotModified,
            ),
            Mnemonic::SED => FlagChanges(
                FlagChange::NotModified,
                FlagChange::NotModified,
                FlagChange::NotModified,
                FlagChange::NotModified,
                FlagChange::Raised,
                FlagChange::NotModified,
            ),
            Mnemonic::SEI | Mnemonic::BRK => FlagChanges(
                FlagChange::NotModified,
                FlagChange::NotModified,
                FlagChange::NotModified,
                FlagChange::Raised,
                FlagChange::NotModified,
                FlagChange::NotModified,
            ),
            Mnemonic::CLC => FlagChanges(
                FlagChange::NotModified,
                FlagChange::NotModified,
                FlagChange::Unset,
                FlagChange::NotModified,
                FlagChange::NotModified,
                FlagChange::NotModified,
            ),
            Mnemonic::CLD => FlagChanges(
                FlagChange::NotModified,
                FlagChange::NotModified,
                FlagChange::NotModified,
                FlagChange::NotModified,
                FlagChange::Unset,
                FlagChange::NotModified,
            ),
            Mnemonic::CLI => FlagChanges(
                FlagChange::NotModified,
                FlagChange::NotModified,
                FlagChange::NotModified,
                FlagChange::Unset,
                FlagChange::NotModified,
                FlagChange::NotModified,
            ),
            Mnemonic::CLV => FlagChanges(
                FlagChange::NotModified,
                FlagChange::NotModified,
                FlagChange::NotModified,
                FlagChange::NotModified,
                FlagChange::NotModified,
                FlagChange::Unset,
            ),
            Mnemonic::CMP | Mnemonic::CPX | Mnemonic::CPY | Mnemonic::ASL | Mnemonic::ROL
            | Mnemonic::ROR => FlagChanges(
                FlagChange::Modified,
                FlagChange::Modified,
                FlagChange::Modified,
                FlagChange::NotModified,
                FlagChange::NotModified,
                FlagChange::NotModified,
            ),
            Mnemonic::BIT => FlagChanges(
                FlagChange::Modified,
                FlagChange::Modified,
                FlagChange::NotModified,
                FlagChange::NotModified,
                FlagChange::NotModified,
                FlagChange::Modified,
            ),
            Mnemonic::LSR => FlagChanges(
                FlagChange::Unset,
                FlagChange::Modified,
                FlagChange::Modified,
                FlagChange::NotModified,
                FlagChange::NotModified,
                FlagChange::NotModified,
            ),
        }
    }

    pub fn flag_changes(self) -> (f: FlagChanges)
        ensures
            f == self.spec_flag_changes(),
    {
        match self {
            Mnemonic::LDA | Mnemonic::LDX | Mnemonic::LDY | Mnemonic::TAX | Mnemonic::TAY
            | Mnemonic::TSX | Mnemonic::TXA | Mnemonic::TYA | Mnemonic::INC | Mnemonic::INX
            | Mnemonic::INY | Mnemonic::DEC | Mnemonic::DEX | Mnemonic::DEY | Mnemonic::PLA
            | Mnemonic::AND | Mnemonic::ORA | Mnemonic::EOR => FlagChanges(
                FlagChange::Modified,
                FlagChange::Modified,
                FlagChange::NotModified,
                FlagChange::NotModified,
                FlagChange::NotModified,
                FlagChange::NotModified,
            ),
            Mnemonic::ADC | Mnemonic::SBC => FlagChanges(
                FlagChange::Modified,
                FlagChange::Modified,
                FlagChange::Modified,
                FlagChange::NotModified,
                FlagChange::NotModified,
                FlagChange::Modified,
            ),
            Mnemonic::STA | Mnemonic::STX | Mnemonic::STY | Mnemonic::TXS | Mnemonic::JMP
            | Mnemonic::JSR | Mnemonic::BCC | Mnemonic::BCS | Mnemonic::BEQ | Mnemonic::BMI
            | Mnemonic::BNE | Mnemonic::BPL | Mnemonic::BVC | Mnemonic::BVS | Mnemonic::NOP
            | Mnemonic::PHA | Mnemonic::PHP | Mnemonic::RTS => FlagChanges(
                FlagChange::NotModified,
                FlagChange::NotModified,
                FlagChange::NotModified,
                FlagChange::NotModified,
                FlagChange::NotModified,
                FlagChange::NotModified,
            ),
            Mnemonic::PLP | Mnemonic::RTI => FlagChanges(
                FlagChange::Modified,
                FlagChange::Modified,
                FlagChange::Modified,
                FlagChange::Modified,
                FlagChange::Modified,
                FlagChange::Modified,
            ),
            Mnemonic::SEC => FlagChanges(
                FlagChange::NotModified,
                FlagChange::NotModified,
                FlagChange::Raised,
                FlagChange::NotModified,
                FlagChange::NotModified,
                FlagChange::NotModified,
            ),
            Mnemonic::SED => FlagChanges(
                FlagChange::NotModified,
                FlagChange::NotModified,
                FlagChange::NotModified,
                FlagChange::NotModified,
                FlagChange::Raised,
                FlagChange::NotModified,
            ),
            Mnemonic::SEI | Mnemonic::BRK => FlagChanges(
                FlagChange::NotModified,
                FlagChange::NotModified,
                FlagChange::NotModified,
                FlagChange::Raised,
                FlagChange::NotModified,
                FlagChange::NotModified,
            ),
            Mnemonic::CLC => FlagChanges(
                FlagChange::NotModified,
                FlagChange::NotModified,
                FlagChange::Unset,
                FlagChange::NotModified,
                FlagChange::NotModified,
                FlagChange::NotModified,
            ),
            Mnemonic::CLD => FlagChanges(
                FlagChange::NotModified,
                FlagChange::NotModified,
                FlagChange::NotModified,
                FlagChange::NotModified,
                FlagChange::Unset,
                FlagChange::NotModified,
            ),
            Mnemonic::CLI => FlagChanges(
                FlagChange::NotModified,
                FlagChange::NotModified,
                FlagChange::NotModified,
                FlagChange::Unset,
                FlagChange::NotModified,
                FlagChange::NotModified,
            ),
            Mnemonic::CLV => FlagChanges(
                FlagChange::NotModified,
                FlagChange::NotModified,
                FlagChange::NotModified,
                FlagChange::NotModified,
                FlagChange::NotModified,
                FlagChange::Unset,
            ),
            Mnemonic::CMP | Mnemonic::CPX | Mnemonic::CPY | Mnemonic::ASL | Mnemonic::ROL
            | Mnemonic::ROR => FlagChanges(
                FlagChange::Modified,
                FlagChange::Modified,
                FlagChange::Modified,
                FlagChange::NotModified,
                FlagChange::NotModified,
                FlagChange::NotModified,
            ),
            Mnemonic::BIT => FlagChanges(
                FlagChange::Modified,
                FlagChange::Modified,
                FlagChange::NotModified,
                FlagChange::NotModified,
                FlagChange::NotModified,
                FlagChange::Modified,
            ),
            Mnemonic::LSR => FlagChanges(
                FlagChange::Unset,
                FlagChange::Modified,
                FlagChange::Modified,
                FlagChange::NotModified,
                FlagChange::NotModified,
                FlagChange::NotModified,
            ),
        }
    }

    /// The three letters by which assemblers know the instruction.
    pub open spec fn letters(self) -> Seq<char> {
        match self {
            Mnemonic::LDA => "LDA"@,
            Mnemonic::LDX => "LDX"@,
            Mnemonic::LDY => "LDY"@,
            Mnemonic::ADC => "ADC"@,
            Mnemonic::SBC => "SBC"@,
            Mnemonic::STA => "STA"@,
            Mnemonic::STX => "STX"@,
            Mnemonic::STY => "STY"@,
            Mnemonic::TAX => "TAX"@,
            Mnemonic::TAY => "TAY"@,
            Mnemonic::TSX => "TSX"@,
            Mnemonic::TXA => "TXA"@,
            Mnemonic::TXS => "TXS"@,
            Mnemonic::TYA => "TYA"@,
            Mnemonic::JMP => "JMP"@,
            Mnemonic::JSR => "JSR"@,
            Mnemonic::BCC => "BCC"@,
            Mnemonic::BCS => "BCS"@,
            Mnemonic::BEQ => "BEQ"@,
            Mnemonic::BMI => "BMI"@,
            Mnemonic::BNE => "BNE"@,
            Mnemonic::BPL => "BPL"@,
            Mnemonic::BVC => "BVC"@,
            Mnemonic::BVS => "BVS"@,
            Mnemonic::INC => "INC"@,
            Mnemonic::INX => "INX"@,
            Mnemonic::INY => "INY"@,
            Mnemonic::DEC => "DEC"@,
            Mnemonic::DEX => "DEX"@,
            Mnemonic::DEY => "DEY"@,
            Mnemonic::NOP => "NOP"@,
            Mnemonic::PHA => "PHA"@,
            Mnemonic::PHP => "PHP"@,
            Mnemonic::PLA => "PLA"@,
            Mnemonic::PLP => "PLP"@,
            Mnemonic::RTI => "RTI"@,
            Mnemonic::RTS => "RTS"@,
            Mnemonic::SEC => "SEC"@,
            Mnemonic::SED => "SED"@,
            Mnemonic::SEI => "SEI"@,
            Mnemonic::CLC => "CLC"@,
            Mnemonic::CLD => "CLD"@,
            Mnemonic::CLI => "CLI"@,
            Mnemonic::CLV => "CLV"@,
            Mnemonic::CMP => "CMP"@,
            Mnemonic::CPX => "CPX"@,
            Mnemonic::CPY => "CPY"@,
            Mnemonic::BIT => "BIT"@,
            Mnemonic::AND => "AND"@,
            Mnemonic::ORA => "ORA"@,
            Mnemonic::EOR => "EOR"@,
            Mnemonic::ASL => "ASL"@,
            Mnemonic::LSR => "LSR"@,
            Mnemonic::ROL => "ROL"@,
            Mnemonic::ROR => "ROR"@,
            Mnemonic::BRK => "BRK"@,
        }
    }

    /// The mnemonic in letters.
    pub fn name(self) -> (n: &'static str)
        ensures
            n@ == self.letters(),
    {
        match self {
            Mnemonic::LDA => "LDA",
            Mnemonic::LDX => "LDX",
            Mnemonic::LDY => "LDY",
            Mnemonic::ADC => "ADC",
            Mnemonic::SBC => "SBC",
            Mnemonic::STA => "STA",
            Mnemonic::STX => "STX",
            Mnemonic::STY => "STY",
            Mnemonic::TAX => "TAX",
            Mnemonic::TAY => "TAY",
            Mnemonic::TSX => "TSX",
            Mnemonic::TXA => "TXA",
            Mnemonic::TXS => "TXS",
            Mnemonic::TYA => "TYA",
            Mnemonic::JMP => "JMP",
            Mnemonic::JSR => "JSR",
            Mnemonic::BCC => "BCC",
            Mnemonic::BCS => "BCS",
            Mnemonic::BEQ => "BEQ",
            Mnemonic::BMI => "BMI",
            Mnemonic::BNE => "BNE",
            Mnemonic::BPL => "BPL",
            Mnemonic::BVC => "BVC",
            Mnemonic::BVS => "BVS",
            Mnemonic::INC => "INC",
            Mnemonic::INX => "INX",
            Mnemonic::INY => "INY",
            Mnemonic::DEC => "DEC",
            Mnemonic::DEX => "DEX",
            Mnemonic::DEY => "DEY",
            Mnemonic::NOP => "NOP",
            Mnemonic::PHA => "PHA",
            Mnemonic::PHP => "PHP",
            Mnemonic::PLA => "PLA",
            Mnemonic::PLP => "PLP",
            Mnemonic::RTI => "RTI",
            Mnemonic::RTS => "RTS",
            Mnemonic::SEC => "SEC",
            Mnemonic::SED => "SED",
            Mnemonic::SEI => "SEI",
            Mnemonic::CLC => "CLC",
            Mnemonic::CLD => "CLD",
            Mnemonic::CLI => "CLI",
            Mnemonic::CLV => "CLV",
            Mnemonic::CMP => "CMP",
            Mnemonic::CPX => "CPX",
            Mnemonic::CPY => "CPY",
            Mnemonic::BIT => "BIT",
            Mnemonic::AND => "AND",
            Mnemonic::ORA => "ORA",
            Mnemonic::EOR => "EOR",
            Mnemonic::ASL => "ASL",
            Mnemonic::LSR => "LSR",
            Mnemonic::ROL => "ROL",
            Mnemonic::ROR => "ROR",
            Mnemonic::BRK => "BRK",
        }
    }

    /// The pure stores: they write their target without reading it first.
    pub open spec fn is_store(self) -> bool {
        self == Mnemonic::STA || self == Mnemonic::STX || self == Mnemonic::STY
    }

    /// The eight conditional branches.
    pub open spec fn is_branch(self) -> bool {
        self == Mnemonic::BCC || self == Mnemonic::BCS || self == Mnemonic::BEQ
            || self == Mnemonic::BMI || self == Mnemonic::BNE || self == Mnemonic::BPL
            || self == Mnemonic::BVC || self == Mnemonic::BVS
    }
}

impl Instruction {
    /// The table entry for `mnemonic` in `addr_mode`: the store and flag
    /// columns follow from the mnemonic alone.
    pub open spec fn spec_entry(
        mnemonic: Mnemonic,
        addr_mode: AddrMode,
        cycles: u32,
        can_change_cycles: bool,
    ) -> Instruction {
        Instruction {
            mnemonic,
            addr_mode,
            cycles,
            can_change_cycles,
            no_read: mnemonic.is_store(),
            flag_changes: mnemonic.spec_flag_changes(),
        }
    }

    pub fn entry(mnemonic: Mnemonic, addr_mode: AddrMode, cycles: u32, can_change_cycles: bool) -> (i:
        Instruction)
        ensures
            i == Instruction::spec_entry(mnemonic, addr_mode, cycles, can_change_cycles),
    {
        let no_read = match mnemonic {
            Mnemonic::STA | Mnemonic::STX | Mnemonic::STY => true,
            _ => false,
        };
        Instruction {
            mnemonic,
            addr_mode,
            cycles,
            can_change_cycles,
            no_read,
            flag_changes: mnemonic.flag_changes(),
        }
    }
}

/// The instruction set: the entry of each documented opcode, `None` for the
/// bytes that encode no documented instruction.
pub open spec fn instruction_for(opcode: u8) -> Option<Instruction> {
    match opcode {
        0x00 => Some(Instruction::spec_entry(Mnemonic::BRK, AddrMode::Implied, 7, false)),
        0x01 => Some(Instruction::spec_entry(Mnemonic::ORA, AddrMode::IndirectX, 6, false)),
        0x05 => Some(Instruction::spec_entry(Mnemonic::ORA, AddrMode::ZeroPage, 3, false)),
        0x06 => Some(Instruction::spec_entry(Mnemonic::ASL, AddrMode::ZeroPage, 5, false)),
        0x08 => Some(Instruction::spec_entry(Mnemonic::PHP, AddrMode::Implied, 3, false)),
        0x09 => Some(Instruction::spec_entry(Mnemonic::ORA, AddrMode::Immediate, 2, false)),
        0x0A => Some(Instruction::spec_entry(Mnemonic::ASL, AddrMode::Accumulator, 2, false)),
        0x0D => Some(Instruction::spec_entry(Mnemonic::ORA, AddrMode::Absolute, 4, false)),
        0x0E => Some(Instruction::spec_entry(Mnemonic::ASL, AddrMode::Absolute, 6, false)),
        0x10 => Some(Instruction::spec_entry(Mnemonic::BPL, AddrMode::Relative, 2, true)),
        0x11 => Some(Instruction::spec_entry(Mnemonic::ORA, AddrMode::IndirectY, 5, true)),
        0x15 => Some(Instruction::spec_entry(Mnemonic::ORA, AddrMode::ZeroPageX, 4, false)),
        0x16 => Some(Instruction::spec_entry(Mnemonic::ASL, AddrMode::ZeroPageX, 6, false)),
        0x18 => Some(Instruction::spec_entry(Mnemonic::CLC, AddrMode::Implied, 2, false)),
        0x19 => Some(Instruction::spec_entry(Mnemonic::ORA, AddrMode::AbsoluteY, 4, true)),
        0x1D => Some(Instruction::spec_entry(Mnemonic::ORA, AddrMode::AbsoluteX, 4, true)),
        0x1E => Some(Instruction::spec_entry(Mnemonic::ASL, AddrMode::AbsoluteX, 7, false)),
        0x20 => Some(Instruction::spec_entry(Mnemonic::JSR, AddrMode::Absolute, 6, false)),
        0x21 => Some(Instruction::spec_entry(Mnemonic::AND, AddrMode::IndirectX, 6, false)),
        0x24 => Some(Instruction::spec_entry(Mnemonic::BIT, AddrMode::ZeroPage, 3, false)),
        0x25 => Some(Instruction::spec_entry(Mnemonic::AND, AddrMode::ZeroPage, 3, false)),
        0x26 => Some(Instruction::spec_entry(Mnemonic::ROL, AddrMode::ZeroPage, 5, false)),
        0x28 => Some(Instruction::spec_entry(Mnemonic::PLP, AddrMode::Implied, 4, false)),
        0x29 => Some(Instruction::spec_entry(Mnemonic::AND, AddrMode::Immediate, 2, false)),
        0x2A => Some(Instruction::spec_entry(Mnemonic::ROL, AddrMode::Accumulator, 2, false)),
        0x2C => Some(Instruction::spec_entry(Mnemonic::BIT, AddrMode::Absolute, 4, false)),
        0x2D => Some(Instruction::spec_entry(Mnemonic::AND, AddrMode::Absolute, 4, false)),
        0x2E => Some(Instruction::spec_entry(Mnemonic::ROL, AddrMode::Absolute, 6, false)),
        0x30 => Some(Instruction::spec_entry(Mnemonic::BMI, AddrMode::Relative, 2, true)),
        0x31 => Some(Instruction::spec_entry(Mnemonic::AND, AddrMode::IndirectY, 5, true)),
        0x35 => Some(Instruction::spec_entry(Mnemonic::AND, AddrMode::ZeroPageX, 4, false)),
        0x36 => Some(Instruction::spec_entry(Mnemonic::ROL, AddrMode::ZeroPageX, 6, false)),
        0x38 => Some(Instruction::spec_entry(Mnemonic::SEC, AddrMode::Implied, 2, false)),
        0x39 => Some(Instruction::spec_entry(Mnemonic::AND, AddrMode::AbsoluteY, 4, true)),
        0x3D => Some(Instruction::spec_entry(Mnemonic::AND, AddrMode::AbsoluteX, 4, true)),
        0x3E => Some(Instruction::spec_entry(Mnemonic::ROL, AddrMode::AbsoluteX, 7, false)),
        0x40 => Some(Instruction::spec_entry(Mnemonic::RTI, AddrMode::Implied, 6, false)),
        0x41 => Some(Instruction::spec_entry(Mnemonic::EOR, AddrMode::IndirectX, 6, false)),
        0x45 => Some(Instruction::spec_entry(Mnemonic::EOR, AddrMode::ZeroPage, 3, false)),
        0x46 => Some(Instruction::spec_entry(Mnemonic::LSR, AddrMode::ZeroPage, 5, false)),
        0x48 => Some(Instruction::spec_entry(Mnemonic::PHA, AddrMode::Implied, 3, false)),
        0x49 => Some(Instruction::spec_entry(Mnemonic::EOR, AddrMode::Immediate, 2, false)),
        0x4A => Some(Instruction::spec_entry(Mnemonic::LSR, AddrMode::Accumulator, 2, false)),
        0x4C => Some(Instruction::spec_entry(Mnemonic::JMP, AddrMode::Absolute, 3, false)),
        0x4D => Some(Instruction::spec_entry(Mnemonic::EOR, AddrMode::Absolute, 4, false)),
        0x4E => Some(Instruction::spec_entry(Mnemonic::LSR, AddrMode::Absolute, 6, false)),
        0x50 => Some(Instruction::spec_entry(Mnemonic::BVC, AddrMode::Relative, 2, true)),
        0x51 => Some(Instruction::spec_entry(Mnemonic::EOR, AddrMode::IndirectY, 5, true)),
        0x55 => Some(Instruction::spec_entry(Mnemonic::EOR, AddrMode::ZeroPageX, 4, false)),
        0x56 => Some(Instruction::spec_entry(Mnemonic::LSR, AddrMode::ZeroPageX, 6, false)),
        0x58 => Some(Instruction::spec_entry(Mnemonic::CLI, AddrMode::Implied, 2, false)),
        0x59 => Some(Instruction::spec_entry(Mnemonic::EOR, AddrMode::AbsoluteY, 4, true)),
        0x5D => Some(Instruction::spec_entry(Mnemonic::EOR, AddrMode::AbsoluteX, 4, true)),
        0x5E => Some(Instruction::spec_entry(Mnemonic::LSR, AddrMode::AbsoluteX, 7, false)),
        0x60 => Some(Instruction::spec_entry(Mnemonic::RTS, AddrMode::Implied, 6, false)),
        0x61 => Some(Instruction::spec_entry(Mnemonic::ADC, AddrMode::IndirectX, 6, false)),
        0x65 => Some(Instruction::spec_entry(Mnemonic::ADC, AddrMode::ZeroPage, 3, false)),
        0x66 => Some(Instruction::spec_entry(Mnemonic::ROR, AddrMode::ZeroPage, 5, false)),
        0x68 => Some(Instruction::spec_entry(Mnemonic::PLA, AddrMode::Implied, 4, false)),
        0x69 => Some(Instruction::spec_entry(Mnemonic::ADC, AddrMode::Immediate, 2, false)),
        0x6A => Some(Instruction::spec_entry(Mnemonic::ROR, AddrMode::Accumulator, 2, false)),
        0x6C => Some(Instruction::spec_entry(Mnemonic::JMP, AddrMode::Indirect, 5, false)),
        0x6D => Some(Instruction::spec_entry(Mnemonic::ADC, AddrMode::Absolute, 4, false)),
        0x6E => Some(Instruction::spec_entry(Mnemonic::ROR, AddrMode::Absolute, 6, false)),
        0x70 => Some(Instruction::spec_entry(Mnemonic::BVS, AddrMode::Relative, 2, true)),
        0x71 => Some(Instruction::spec_entry(Mnemonic::ADC, AddrMode::IndirectY, 5, true)),
        0x75 => Some(Instruction::spec_entry(Mnemonic::ADC, AddrMode::ZeroPageX, 4, false)),
        0x76 => Some(Instruction::spec_entry(Mnemonic::ROR, AddrMode::ZeroPageX, 6, false)),
        0x78 => Some(Instruction::spec_entry(Mnemonic::SEI, AddrMode::Implied, 2, false)),
        0x79 => Some(Instruction::spec_entry(Mnemonic::ADC, AddrMode::AbsoluteY, 4, true)),
        0x7D => Some(Instruction::spec_entry(Mnemonic::ADC, AddrMode::AbsoluteX, 4, true)),
        0x7E => Some(Instruction::spec_entry(Mnemonic::ROR, AddrMode::AbsoluteX, 7, false)),
        0x81 => Some(Instruction::spec_entry(Mnemonic::STA, AddrMode::IndirectX, 6, false)),
        0x84 => Some(Instruction::spec_entry(Mnemonic::STY, AddrMode::ZeroPage, 3, false)),
        0x85 => Some(Instruction::spec_entry(Mnemonic::STA, AddrMode::ZeroPage, 3, false)),
        0x86 => Some(Instruction::spec_entry(Mnemonic::STX, AddrMode::ZeroPage, 3, false)),
        0x88 => Some(Instruction::spec_entry(Mnemonic::DEY, AddrMode::Implied, 2, false)),
        0x8A => Some(Instruction::spec_entry(Mnemonic::TXA, AddrMode::Implied, 2, false)),
        0x8C => Some(Instruction::spec_entry(Mnemonic::STY, AddrMode::Absolute, 4, false)),
        0x8D => Some(Instruction::spec_entry(Mnemonic::STA, AddrMode::Absolute, 4, false)),
        0x8E => Some(Instruction::spec_entry(Mnemonic::STX, AddrMode::Absolute, 4, false)),
        0x90 => Some(Instruction::spec_entry(Mnemonic::BCC, AddrMode::Relative, 2, true)),
        0x91 => Some(Instruction::spec_entry(Mnemonic::STA, AddrMode::IndirectY, 6, false)),
        0x94 => Some(Instruction::spec_entry(Mnemonic::STY, AddrMode::ZeroPageX, 4, false)),
        0x95 => Some(Instruction::spec_entry(Mnemonic::STA, AddrMode::ZeroPageX, 4, false)),
        0x96 => Some(Instruction::spec_entry(Mnemonic::STX, AddrMode::ZeroPageY, 4, false)),
        0x98 => Some(Instruction::spec_entry(Mnemonic::TYA, AddrMode::Implied, 2, false)),
        0x99 => Some(Instruction::spec_entry(Mnemonic::STA, AddrMode::AbsoluteY, 5, false)),
        0x9A => Some(Instruction::spec_entry(Mnemonic::TXS, AddrMode::Implied, 2, false)),
        0x9D => Some(Instruction::spec_entry(Mnemonic::STA, AddrMode::AbsoluteX, 5, false)),
        0xA0 => Some(Instruction::spec_entry(Mnemonic::LDY, AddrMode::Immediate, 2, false)),
        0xA1 => Some(Instruction::spec_entry(Mnemonic::LDA, AddrMode::IndirectX, 6, false)),
        0xA2 => Some(Instruction::spec_entry(Mnemonic::LDX, AddrMode::Immediate, 2, false)),
        0xA4 => Some(Instruction::spec_entry(Mnemonic::LDY, AddrMode::ZeroPage, 3, false)),
        0xA5 => Some(Instruction::spec_entry(Mnemonic::LDA, AddrMode::ZeroPage, 3, false)),
        0xA6 => Some(Instruction::spec_entry(Mnemonic::LDX, AddrMode::ZeroPage, 3, false)),
        0xA8 => Some(Instruction::spec_entry(Mnemonic::TAY, AddrMode::Implied, 2, false)),
        0xA9 => Some(Instruction::spec_entry(Mnemonic::LDA, AddrMode::Immediate, 2, false)),
        0xAA => Some(Instruction::spec_entry(Mnemonic::TAX, AddrMode::Implied, 2, false)),
        0xAC => Some(Instruction::spec_entry(Mnemonic::LDY, AddrMode::Absolute, 4, false)),
        0xAD => Some(Instruction::spec_entry(Mnemonic::LDA, AddrMode::Absolute, 4, false)),
        0xAE => Some(Instruction::spec_entry(Mnemonic::LDX, AddrMode::Absolute, 4, false)),
        0xB0 => Some(Instruction::spec_entry(Mnemonic::BCS, AddrMode::Relative, 2, true)),
        0xB1 => Some(Instruction::spec_entry(Mnemonic::LDA, AddrMode::IndirectY, 5, true)),
        0xB4 => Some(Instruction::spec_entry(Mnemonic::LDY, AddrMode::ZeroPageX, 4, false)),
        0xB5 => Some(Instruction::spec_entry(Mnemonic::LDA, AddrMode::ZeroPageX, 4, false)),
        0xB6 => Some(Instruction::spec_entry(Mnemonic::LDX, AddrMode::ZeroPageY, 4, false)),
        0xB8 => Some(Instruction::spec_entry(Mnemonic::CLV, AddrMode::Implied, 2, false)),
        0xB9 => Some(Instruction::spec_entry(Mnemonic::LDA, AddrMode::AbsoluteY, 4, true)),
        0xBA => Some(Instruction::spec_entry(Mnemonic::TSX, AddrMode::Implied, 2, false)),
        0xBC => Some(Instruction::spec_entry(Mnemonic::LDY, AddrMode::AbsoluteX, 4, true)),
        0xBD => Some(Instruction::spec_entry(Mnemonic::LDA, AddrMode::AbsoluteX, 4, true)),
        0xBE => Some(Instruction::spec_entry(Mnemonic::LDX, AddrMode::AbsoluteY, 4, true)),
        0xC0 => Some(Instruction::spec_entry(Mnemonic::CPY, AddrMode::Immediate, 2, false)),
        0xC1 => Some(Instruction::spec_entry(Mnemonic::CMP, AddrMode::IndirectX, 6, false)),
        0xC4 => Some(Instruction::spec_entry(Mnemonic::CPY, AddrMode::ZeroPage, 3, false)),
        0xC5 => Some(Instruction::spec_entry(Mnemonic::CMP, AddrMode::ZeroPage, 3, false)),
        0xC6 => Some(Instruction::spec_entry(Mnemonic::DEC, AddrMode::ZeroPage, 5, false)),
        0xC8 => Some(Instruction::spec_entry(Mnemonic::INY, AddrMode::Implied, 2, false)),
        0xC9 => Some(Instruction::spec_entry(Mnemonic::CMP, AddrMode::Immediate, 2, false)),
        0xCA => Some(Instruction::spec_entry(Mnemonic::DEX, AddrMode::Implied, 2, false)),
        0xCC => Some(Instruction::spec_entry(Mnemonic::CPY, AddrMode::Absolute, 4, false)),
        0xCD => Some(Instruction::spec_entry(Mnemonic::CMP, AddrMode::Absolute, 4, false)),
        0xCE => Some(Instruction::spec_entry(Mnemonic::DEC, AddrMode::Absolute, 6, false)),
        0xD0 => Some(Instruction::spec_entry(Mnemonic::BNE, AddrMode::Relative, 2, true)),
        0xD1 => Some(Instruction::spec_entry(Mnemonic::CMP, AddrMode::IndirectY, 5, true)),
        0xD5 => Some(Instruction::spec_entry(Mnemonic::CMP, AddrMode::ZeroPageX, 4, false)),
        0xD6 => Some(Instruction::spec_entry(Mnemonic::DEC, AddrMode::ZeroPageX, 6, false)),
        0xD8 => Some(Instruction::spec_entry(Mnemonic::CLD, AddrMode::Implied, 2, false)),
        0xD9 => Some(Instruction::spec_entry(Mnemonic::CMP, AddrMode::AbsoluteY, 4, true)),
        0xDD => Some(Instruction::spec_entry(Mnemonic::CMP, AddrMode::AbsoluteX, 4, true)),
        0xDE => Some(Instruction::spec_entry(Mnemonic::DEC, AddrMode::AbsoluteX, 7, false)),
        0xE0 => Some(Instruction::spec_entry(Mnemonic::CPX, AddrMode::Immediate, 2, false)),
        0xE1 => Some(Instruction::spec_entry(Mnemonic::SBC, AddrMode::IndirectX, 6, false)),
        0xE4 => Some(Instruction::spec_entry(Mnemonic::CPX, AddrMode::ZeroPage, 3, false)),
        0xE5 => Some(Instruction::spec_entry(Mnemonic::SBC, AddrMode::ZeroPage, 3, false)),
        0xE6 => Some(Instruction::spec_entry(Mnemonic::INC, AddrMode::ZeroPage, 5, false)),
        0xE8 => Some(Instruction::spec_entry(Mnemonic::INX, AddrMode::Implied, 2, false)),
        0xE9 => Some(Instruction::spec_entry(Mnemonic::SBC, AddrMode::Immediate, 2, false)),
        0xEA => Some(Instruction::spec_entry(Mnemonic::NOP, AddrMode::Implied, 2, false)),
        0xEC => Some(Instruction::spec_entry(Mnemonic::CPX, AddrMode::Absolute, 4, false)),
        0xED => Some(Instruction::spec_entry(Mnemonic::SBC, AddrMode::Absolute, 4, false)),
        0xEE => Some(Instruction::spec_entry(Mnemonic::INC, AddrMode::Absolute, 6, false)),
        0xF0 => Some(Instruction::spec_entry(Mnemonic::BEQ, AddrMode::Relative, 2, true)),
        0xF1 => Some(Instruction::spec_entry(Mnemonic::SBC, AddrMode::IndirectY, 5, true)),
        0xF5 => Some(Instruction::spec_entry(Mnemonic::SBC, AddrMode::ZeroPageX, 4, false)),
        0xF6 => Some(Instruction::spec_entry(Mnemonic::INC, AddrMode::ZeroPageX, 6, false)),
        0xF8 => Some(Instruction::spec_entry(Mnemonic::SED, AddrMode::Implied, 2, false)),
        0xF9 => Some(Instruction::spec_entry(Mnemonic::SBC, AddrMode::AbsoluteY, 4, true)),
        0xFD => Some(Instruction::spec_entry(Mnemonic::SBC, AddrMode::AbsoluteX, 4, true)),
        0xFE => Some(Instruction::spec_entry(Mnemonic::INC, AddrMode::AbsoluteX, 7, false)),
        _ => None,
    }
}

/// Looks an opcode up in the instruction set.
pub fn decode(opcode: u8) -> (ins: Option<Instruction>)
    ensures
        ins == instruction_for(opcode),
{
    match opcode {
        0x00 => Some(Instruction::entry(Mnemonic::BRK, AddrMode::Implied, 7, false)),
        0x01 => Some(Instruction::entry(Mnemonic::ORA, AddrMode::IndirectX, 6, false)),
        0x05 => Some(Instruction::entry(Mnemonic::ORA, AddrMode::ZeroPage, 3, false)),
        0x06 => Some(Instruction::entry(Mnemonic::ASL, AddrMode::ZeroPage, 5, false)),
        0x08 => Some(Instruction::entry(Mnemonic::PHP, AddrMode::Implied, 3, false)),
        0x09 => Some(Instruction::entry(Mnemonic::ORA, AddrMode::Immediate, 2, false)),
        0x0A => Some(Instruction::entry(Mnemonic::ASL, AddrMode::Accumulator, 2, false)),
        0x0D => Some(Instruction::entry(Mnemonic::ORA, AddrMode::Absolute, 4, false)),
        0x0E => Some(Instruction::entry(Mnemonic::ASL, AddrMode::Absolute, 6, false)),
        0x10 => Some(Instruction::entry(Mnemonic::BPL, AddrMode::Relative, 2, true)),
        0x11 => Some(Instruction::entry(Mnemonic::ORA, AddrMode::IndirectY, 5, true)),
        0x15 => Some(Instruction::entry(Mnemonic::ORA, AddrMode::ZeroPageX, 4, false)),
        0x16 => Some(Instruction::entry(Mnemonic::ASL, AddrMode::ZeroPageX, 6, false)),
        0x18 => Some(Instruction::entry(Mnemonic::CLC, AddrMode::Implied, 2, false)),
        0x19 => Some(Instruction::entry(Mnemonic::ORA, AddrMode::AbsoluteY, 4, true)),
        0x1D => Some(Instruction::entry(Mnemonic::ORA, AddrMode::AbsoluteX, 4, true)),
        0x1E => Some(Instruction::entry(Mnemonic::ASL, AddrMode::AbsoluteX, 7, false)),
        0x20 => Some(Instruction::entry(Mnemonic::JSR, AddrMode::Absolute, 6, false)),
        0x21 => Some(Instruction::entry(Mnemonic::AND, AddrMode::IndirectX, 6, false)),
        0x24 => Some(Instruction::entry(Mnemonic::BIT, AddrMode::ZeroPage, 3, false)),
        0x25 => Some(Instruction::entry(Mnemonic::AND, AddrMode::ZeroPage, 3, false)),
        0x26 => Some(Instruction::entry(Mnemonic::ROL, AddrMode::ZeroPage, 5, false)),
        0x28 => Some(Instruction::entry(Mnemonic::PLP, AddrMode::Implied, 4, false)),
        0x29 => Some(Instruction::entry(Mnemonic::AND, AddrMode::Immediate, 2, false)),
        0x2A => Some(Instruction::entry(Mnemonic::ROL, AddrMode::Accumulator, 2, false)),
        0x2C => Some(Instruction::entry(Mnemonic::BIT, AddrMode::Absolute, 4, false)),
        0x2D => Some(Instruction::entry(Mnemonic::AND, AddrMode::Absolute, 4, false)),
        0x2E => Some(Instruction::entry(Mnemonic::ROL, AddrMode::Absolute, 6, false)),
        0x30 => Some(Instruction::entry(Mnemonic::BMI, AddrMode::Relative, 2, true)),
        0x31 => Some(Instruction::entry(Mnemonic::AND, AddrMode::IndirectY, 5, true)),
        0x35 => Some(Instruction::entry(Mnemonic::AND, AddrMode::ZeroPageX, 4, false)),
        0x36 => Some(Instruction::entry(Mnemonic::ROL, AddrMode::ZeroPageX, 6, false)),
        0x38 => Some(Instruction::entry(Mnemonic::SEC, AddrMode::Implied, 2, false)),
        0x39 => Some(Instruction::entry(Mnemonic::AND, AddrMode::AbsoluteY, 4, true)),
        0x3D => Some(Instruction::entry(Mnemonic::AND, AddrMode::AbsoluteX, 4, true)),
        0x3E => Some(Instruction::entry(Mnemonic::ROL, AddrMode::AbsoluteX, 7, false)),
        0x40 => Some(Instruction::entry(Mnemonic::RTI, AddrMode::Implied, 6, false)),
        0x41 => Some(Instruction::entry(Mnemonic::EOR, AddrMode::IndirectX, 6, false)),
        0x45 => Some(Instruction::entry(Mnemonic::EOR, AddrMode::ZeroPage, 3, false)),
        0x46 => Some(Instruction::entry(Mnemonic::LSR, AddrMode::ZeroPage, 5, false)),
        0x48 => Some(Instruction::entry(Mnemonic::PHA, AddrMode::Implied, 3, false)),
        0x49 => Some(Instruction::entry(Mnemonic::EOR, AddrMode::Immediate, 2, false)),
        0x4A => Some(Instruction::entry(Mnemonic::LSR, AddrMode::Accumulator, 2, false)),
        0x4C => Some(Instruction::entry(Mnemonic::JMP, AddrMode::Absolute, 3, false)),
        0x4D => Some(Instruction::entry(Mnemonic::EOR, AddrMode::Absolute, 4, false)),
        0x4E => Some(Instruction::entry(Mnemonic::LSR, AddrMode::Absolute, 6, false)),
        0x50 => Some(Instruction::entry(Mnemonic::BVC, AddrMode::Relative, 2, true)),
        0x51 => Some(Instruction::entry(Mnemonic::EOR, AddrMode::IndirectY, 5, true)),
        0x55 => Some(Instruction::entry(Mnemonic::EOR, AddrMode::ZeroPageX, 4, false)),
        0x56 => Some(Instruction::entry(Mnemonic::LSR, AddrMode::ZeroPageX, 6, false)),
        0x58 => Some(Instruction::entry(Mnemonic::CLI, AddrMode::Implied, 2, false)),
        0x59 => Some(Instruction::entry(Mnemonic::EOR, AddrMode::AbsoluteY, 4, true)),
        0x5D => Some(Instruction::entry(Mnemonic::EOR, AddrMode::AbsoluteX, 4, true)),
        0x5E => Some(Instruction::entry(Mnemonic::LSR, AddrMode::AbsoluteX, 7, false)),
        0x60 => Some(Instruction::entry(Mnemonic::RTS, AddrMode::Implied, 6, false)),
        0x61 => Some(Instruction::entry(Mnemonic::ADC, AddrMode::IndirectX, 6, false)),
        0x65 => Some(Instruction::entry(Mnemonic::ADC, AddrMode::ZeroPage, 3, false)),
        0x66 => Some(Instruction::entry(Mnemonic::ROR, AddrMode::ZeroPage, 5, false)),
        0x68 => Some(Instruction::entry(Mnemonic::PLA, AddrMode::Implied, 4, false)),
        0x69 => Some(Instruction::entry(Mnemonic::ADC, AddrMode::Immediate, 2, false)),
        0x6A => Some(Instruction::entry(Mnemonic::ROR, AddrMode::Accumulator, 2, false)),
        0x6C => Some(Instruction::entry(Mnemonic::JMP, AddrMode::Indirect, 5, false)),
        0x6D => Some(Instruction::entry(Mnemonic::ADC, AddrMode::Absolute, 4, false)),
        0x6E => Some(Instruction::entry(Mnemonic::ROR, AddrMode::Absolute, 6, false)),
        0x70 => Some(Instruction::entry(Mnemonic::BVS, AddrMode::Relative, 2, true)),
        0x71 => Some(Instruction::entry(Mnemonic::ADC, AddrMode::IndirectY, 5, true)),
        0x75 => Some(Instruction::entry(Mnemonic::ADC, AddrMode::ZeroPageX, 4, false)),
        0x76 => Some(Instruction::entry(Mnemonic::ROR, AddrMode::ZeroPageX, 6, false)),
        0x78 => Some(Instruction::entry(Mnemonic::SEI, AddrMode::Implied, 2, false)),
        0x79 => Some(Instruction::entry(Mnemonic::ADC, AddrMode::AbsoluteY, 4, true)),
        0x7D => Some(Instruction::entry(Mnemonic::ADC, AddrMode::AbsoluteX, 4, true)),
        0x7E => Some(Instruction::entry(Mnemonic::ROR, AddrMode::AbsoluteX, 7, false)),
        0x81 => Some(Instruction::entry(Mnemonic::STA, AddrMode::IndirectX, 6, false)),
        0x84 => Some(Instruction::entry(Mnemonic::STY, AddrMode::ZeroPage, 3, false)),
        0x85 => Some(Instruction::entry(Mnemonic::STA, AddrMode::ZeroPage, 3, false)),
        0x86 => Some(Instruction::entry(Mnemonic::STX, AddrMode::ZeroPage, 3, false)),
        0x88 => Some(Instruction::entry(Mnemonic::DEY, AddrMode::Implied, 2, false)),
        0x8A => Some(Instruction::entry(Mnemonic::TXA, AddrMode::Implied, 2, false)),
        0x8C => Some(Instruction::entry(Mnemonic::STY, AddrMode::Absolute, 4, false)),
        0x8D => Some(Instruction::entry(Mnemonic::STA, AddrMode::Absolute, 4, false)),
        0x8E => Some(Instruction::entry(Mnemonic::STX, AddrMode::Absolute, 4, false)),
        0x90 => Some(Instruction::entry(Mnemonic::BCC, AddrMode::Relative, 2, true)),
        0x91 => Some(Instruction::entry(Mnemonic::STA, AddrMode::IndirectY, 6, false)),
        0x94 => Some(Instruction::entry(Mnemonic::STY, AddrMode::ZeroPageX, 4, false)),
        0x95 => Some(Instruction::entry(Mnemonic::STA, AddrMode::ZeroPageX, 4, false)),
        0x96 => Some(Instruction::entry(Mnemonic::STX, AddrMode::ZeroPageY, 4, false)),
        0x98 => Some(Instruction::entry(Mnemonic::TYA, AddrMode::Implied, 2, false)),
        0x99 => Some(Instruction::entry(Mnemonic::STA, AddrMode::AbsoluteY, 5, false)),
        0x9A => Some(Instruction::entry(Mnemonic::TXS, AddrMode::Implied, 2, false)),
        0x9D => Some(Instruction::entry(Mnemonic::STA, AddrMode::AbsoluteX, 5, false)),
        0xA0 => Some(Instruction::entry(Mnemonic::LDY, AddrMode::Immediate, 2, false)),
        0xA1 => Some(Instruction::entry(Mnemonic::LDA, AddrMode::IndirectX, 6, false)),
        0xA2 => Some(Instruction::entry(Mnemonic::LDX, AddrMode::Immediate, 2, false)),
        0xA4 => Some(Instruction::entry(Mnemonic::LDY, AddrMode::ZeroPage, 3, false)),
        0xA5 => Some(Instruction::entry(Mnemonic::LDA, AddrMode::ZeroPage, 3, false)),
        0xA6 => Some(Instruction::entry(Mnemonic::LDX, AddrMode::ZeroPage, 3, false)),
        0xA8 => Some(Instruction::entry(Mnemonic::TAY, AddrMode::Implied, 2, false)),
        0xA9 => Some(Instruction::entry(Mnemonic::LDA, AddrMode::Immediate, 2, false)),
        0xAA => Some(Instruction::entry(Mnemonic::TAX, AddrMode::Implied, 2, false)),
        0xAC => Some(Instruction::entry(Mnemonic::LDY, AddrMode::Absolute, 4, false)),
        0xAD => Some(Instruction::entry(Mnemonic::LDA, AddrMode::Absolute, 4, false)),
        0xAE => Some(Instruction::entry(Mnemonic::LDX, AddrMode::Absolute, 4, false)),
        0xB0 => Some(Instruction::entry(Mnemonic::BCS, AddrMode::Relative, 2, true)),
        0xB1 => Some(Instruction::entry(Mnemonic::LDA, AddrMode::IndirectY, 5, true)),
        0xB4 => Some(Instruction::entry(Mnemonic::LDY, AddrMode::ZeroPageX, 4, false)),
        0xB5 => Some(Instruction::entry(Mnemonic::LDA, AddrMode::ZeroPageX, 4, false)),
        0xB6 => Some(Instruction::entry(Mnemonic::LDX, AddrMode::ZeroPageY, 4, false)),
        0xB8 => Some(Instruction::entry(Mnemonic::CLV, AddrMode::Implied, 2, false)),
        0xB9 => Some(Instruction::entry(Mnemonic::LDA, AddrMode::AbsoluteY, 4, true)),
        0xBA => Some(Instruction::entry(Mnemonic::TSX, AddrMode::Implied, 2, false)),
        0xBC => Some(Instruction::entry(Mnemonic::LDY, AddrMode::AbsoluteX, 4, true)),
        0xBD => Some(Instruction::entry(Mnemonic::LDA, AddrMode::AbsoluteX, 4, true)),
        0xBE => Some(Instruction::entry(Mnemonic::LDX, AddrMode::AbsoluteY, 4, true)),
        0xC0 => Some(Instruction::entry(Mnemonic::CPY, AddrMode::Immediate, 2, false)),
        0xC1 => Some(Instruction::entry(Mnemonic::CMP, AddrMode::IndirectX, 6, false)),
        0xC4 => Some(Instruction::entry(Mnemonic::CPY, AddrMode::ZeroPage, 3, false)),
        0xC5 => Some(Instruction::entry(Mnemonic::CMP, AddrMode::ZeroPage, 3, false)),
        0xC6 => Some(Instruction::entry(Mnemonic::DEC, AddrMode::ZeroPage, 5, false)),
        0xC8 => Some(Instruction::entry(Mnemonic::INY, AddrMode::Implied, 2, false)),
        0xC9 => Some(Instruction::entry(Mnemonic::CMP, AddrMode::Immediate, 2, false)),
        0xCA => Some(Instruction::entry(Mnemonic::DEX, AddrMode::Implied, 2, false)),
        0xCC => Some(Instruction::entry(Mnemonic::CPY, AddrMode::Absolute, 4, false)),
        0xCD => Some(Instruction::entry(Mnemonic::CMP, AddrMode::Absolute, 4, false)),
        0xCE => Some(Instruction::entry(Mnemonic::DEC, AddrMode::Absolute, 6, false)),
        0xD0 => Some(Instruction::entry(Mnemonic::BNE, AddrMode::Relative, 2, true)),
        0xD1 => Some(Instruction::entry(Mnemonic::CMP, AddrMode::IndirectY, 5, true)),
        0xD5 => Some(Instruction::entry(Mnemonic::CMP, AddrMode::ZeroPageX, 4, false)),
        0xD6 => Some(Instruction::entry(Mnemonic::DEC, AddrMode::ZeroPageX, 6, false)),
        0xD8 => Some(Instruction::entry(Mnemonic::CLD, AddrMode::Implied, 2, false)),
        0xD9 => Some(Instruction::entry(Mnemonic::CMP, AddrMode::AbsoluteY, 4, true)),
        0xDD => Some(Instruction::entry(Mnemonic::CMP, AddrMode::AbsoluteX, 4, true)),
        0xDE => Some(Instruction::entry(Mnemonic::DEC, AddrMode::AbsoluteX, 7, false)),
        0xE0 => Some(Instruction::entry(Mnemonic::CPX, AddrMode::Immediate, 2, false)),
        0xE1 => Some(Instruction::entry(Mnemonic::SBC, AddrMode::IndirectX, 6, false)),
        0xE4 => Some(Instruction::entry(Mnemonic::CPX, AddrMode::ZeroPage, 3, false)),
        0xE5 => Some(Instruction::entry(Mnemonic::SBC, AddrMode::ZeroPage, 3, false)),
        0xE6 => Some(Instruction::entry(Mnemonic::INC, AddrMode::ZeroPage, 5, false)),
        0xE8 => Some(Instruction::entry(Mnemonic::INX, AddrMode::Implied, 2, false)),
        0xE9 => Some(Instruction::entry(Mnemonic::SBC, AddrMode::Immediate, 2, false)),
        0xEA => Some(Instruction::entry(Mnemonic::NOP, AddrMode::Implied, 2, false)),
        0xEC => Some(Instruction::entry(Mnemonic::CPX, AddrMode::Absolute, 4, false)),
        0xED => Some(Instruction::entry(Mnemonic::SBC, AddrMode::Absolute, 4, false)),
        0xEE => Some(Instruction::entry(Mnemonic::INC, AddrMode::Absolute, 6, false)),
        0xF0 => Some(Instruction::entry(Mnemonic::BEQ, AddrMode::Relative, 2, true)),
        0xF1 => Some(Instruction::entry(Mnemonic::SBC, AddrMode::IndirectY, 5, true)),
        0xF5 => Some(Instruction::entry(Mnemonic::SBC, AddrMode::ZeroPageX, 4, false)),
        0xF6 => Some(Instruction::entry(Mnemonic::INC, AddrMode::ZeroPageX, 6, false)),
        0xF8 => Some(Instruction::entry(Mnemonic::SED, AddrMode::Implied, 2, false)),
        0xF9 => Some(Instruction::entry(Mnemonic::SBC, AddrMode::AbsoluteY, 4, true)),
        0xFD => Some(Instruction::entry(Mnemonic::SBC, AddrMode::AbsoluteX, 4, true)),
        0xFE => Some(Instruction::entry(Mnemonic::INC, AddrMode::AbsoluteX, 7, false)),
        _ => None,
    }
}

/// No instruction of the table takes more than seven cycles before
/// penalties, and none fewer than two.
#[verifier::rlimit(60)]
pub proof fn lemma_cycles_bounded(opcode: u8)
    ensures
        instruction_for(opcode) matches Some(ins) ==> 2 <= ins.cycles <= 7,
{
}

} // verus!
