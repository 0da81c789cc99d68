use super::{rom_byte, Mapper};
use crate::bytes::{stored, zeros};
use crate::cart::{Ines, Mirroring};
use vstd::prelude::*;

verus! {

/// Size of a program bank.
pub const PRG_BANK: usize = 8192;

/// Size of a pattern bank.
pub const CHR_BANK: usize = 1024;

/// The register that says which bank register the next write loads, and how
/// the banks are laid out.
#[derive(Debug, Clone, Copy, PartialEq, Eq, Structural)]
pub struct BankSelectRegister {
    pub bits: u8,
}

impl BankSelectRegister {
    /// The two 2 KiB pattern banks lie at `0x1000` and the four 1 KiB banks
    /// at `0x0000`, not the other way round.
    pub const CHR_A12_INV: u8 = 0b1000_0000;

    /// The switchable program bank lies at `0xC000`, not at `0x8000`.
    pub const PRG_ROM_MODE: u8 = 0b0100_0000;

    pub const SELECT_0: u8 = 0b0000_0001;

    pub const SELECT_1: u8 = 0b0000_0010;

    pub const SELECT_2: u8 = 0b0000_0100;

    /// The bits that mean something.
    pub const ALL: u8 = 0b1100_0111;

    pub open spec fn has(self, mask: u8) -> bool {
        self.bits & mask == mask
    }

    /// The bank register that the next write loads, 0 to 7.
    pub open spec fn select(self) -> u8 {
        self.bits % 8
    }

    pub fn empty() -> (r: Self)
        ensures
            r.bits == 0,
    {
        BankSelectRegister { bits: 0 }
    }

    pub fn from_bits_truncate(bits: u8) -> (r: Self)
        ensures
            r.bits == bits & Self::ALL,
    {
        BankSelectRegister { bits: bits & Self::ALL }
    }

    pub fn contains(&self, mask: u8) -> (b: bool)
        ensures
            b == self.has(mask),
    {
        self.bits & mask == mask
    }

    pub fn get_select(&self) -> (i: u8)
        ensures
            i == self.select(),
            i < 8,
    {
        self.bits % 8
    }
}

/// Mapper 4 without its scanline counter: eight bank registers that lay out
/// program ROM in banks of 8 KiB and pattern ROM in banks of 1 KiB.
#[derive(Clone, Copy)]
pub struct MMC3 {
    pub bank_select: BankSelectRegister,
    pub bank_data: [u8; 8],
    pub mirroring: Mirroring,
    pub irq_latch: u8,
    pub irq_counter: u8,
    pub irq_enable: bool,
    pub prg_ram: [u8; 0x2000],
}

/// The bank among `banks` that a program bank number names: 62 and 63 stand
/// for the last two, wherever they lie.
pub open spec fn prg_bank(number: u8, banks: int) -> int {
    if number == 62 {
        if banks >= 2 {
            banks - 2
        } else {
            0
        }
    } else if number == 63 {
        if banks >= 1 {
            banks - 1
        } else {
            0
        }
    } else {
        number as int
    }
}

impl MMC3 {
    /// The power-on state.
    pub open spec fn initial() -> MMC3 {
        MMC3 {
            bank_select: BankSelectRegister { bits: 0 },
            bank_data: zeros::<8>(),
            mirroring: Mirroring::Vertical,
            irq_latch: 0,
            irq_counter: 0,
            irq_enable: false,
            prg_ram: zeros::<0x2000>(),
        }
    }

    /// The pattern bank of 1 KiB that shows at `addr`, an address below
    /// `0x2000`. Registers 0 and 1 each name a pair of banks, registers 2 to 5
    /// a single bank, and the two groups change places with `CHR_A12_INV`.
    pub open spec fn chr_bank(self, addr: u16) -> u8 {
        let window = if self.bank_select.has(BankSelectRegister::CHR_A12_INV) {
            (addr as int / 0x400 + 4) % 8
        } else {
            addr as int / 0x400
        };
        if window == 0 {
            self.bank_data[0]
        } else if window == 1 {
            self.bank_data[0] | 1
        } else if window == 2 {
            self.bank_data[1]
        } else if window == 3 {
            self.bank_data[1] | 1
        } else {
            self.bank_data[window - 2]
        }
    }

    /// The number of the program bank of 8 KiB that shows at `addr`, an
    /// address from `0x8000` up. The last bank is fixed at `0xE000`, register
    /// 7 shows at `0xA000`, and register 6 and the second-last bank share
    /// `0x8000` and `0xC000` as `PRG_ROM_MODE` says.
    pub open spec fn prg_bank_of(self, addr: u16) -> u8 {
        let swapped = self.bank_select.has(BankSelectRegister::PRG_ROM_MODE);
        if addr <= 0x9fff {
            if swapped {
                62
            } else {
                self.bank_data[6]
            }
        } else if addr <= 0xbfff {
            self.bank_data[7]
        } else if addr <= 0xdfff {
            if swapped {
                self.bank_data[6]
            } else {
                62
            }
        } else {
            63
        }
    }

    /// The bank registers once `v` has been written to the one selected:
    /// registers 0 and 1 take even numbers, registers 6 and 7 six bits.
    pub open spec fn bank_written(self, v: u8) -> MMC3 {
        let i = self.bank_select.select();
        MMC3 {
            bank_data: stored(
                self.bank_data,
                i as int,
                if i <= 1 {
                    v & 0xFE
                } else if i <= 5 {
                    v
                } else {
                    v & 0x3F
                },
            ),
            ..self
        }
    }

    pub fn new() -> (m: Self)
        ensures
            m == MMC3::initial(),
    {
        MMC3 {
            bank_select: BankSelectRegister::empty(),
            bank_data: [0; 8],
            mirroring: Mirroring::Vertical,
            irq_latch: 0,
            irq_counter: 0,
            irq_enable: false,
            prg_ram: [0; 0x2000],
        }
    }

    pub fn chr_bank_number(&self, addr: u16) -> (bank: u8)
        requires
            addr <= 0x1fff,
        ensures
            bank == self.chr_bank(addr),
    {
        let slot = (addr / 0x400) as usize;
        let window = if self.bank_select.contains(BankSelectRegister::CHR_A12_INV) {
            (slot + 4) % 8
        } else {
            slot
        };
        if window == 0 {
            self.bank_data[0]
        } else if window == 1 {
            self.bank_data[0] | 1
        } else if window == 2 {
            self.bank_data[1]
        } else if window == 3 {
            self.bank_data[1] | 1
        } else {
            self.bank_data[window - 2]
        }
    }

    pub fn prg_bank_number(&self, addr: u16) -> (bank: u8)
        requires
            addr >= 0x8000,
        ensures
            bank == self.prg_bank_of(addr),
    {
        let swapped = self.bank_select.contains(BankSelectRegister::PRG_ROM_MODE);
        if addr <= 0x9fff {
            if swapped {
                62
            } else {
                self.bank_data[6]
            }
        } else if addr <= 0xbfff {
            self.bank_data[7]
        } else if addr <= 0xdfff {
            if swapped {
                self.bank_data[6]
            } else {
                62
            }
        } else {
            63
        }
    }
}

impl Mapper for MMC3 {
    /// Pattern ROM below `0x2000` (zero where the cartridge has none),
    /// cartridge RAM at `0x6000`, program ROM from `0x8000`; zero elsewhere.
    open spec fn byte_at(&self, ines: &Ines, addr: u16) -> u8 {
        if addr <= 0x1fff {
            match ines.chr_rom() {
                Some(rom) => rom_byte(rom, self.chr_bank(addr) * CHR_BANK + addr % 0x400),
                None => 0,
            }
        } else if 0x6000 <= addr <= 0x7fff {
            self.prg_ram[addr - 0x6000]
        } else if addr >= 0x8000 {
            rom_byte(
                ines.prg_rom(),
                prg_bank(self.prg_bank_of(addr), ines.prg_rom().len() as int / PRG_BANK as int)
                    * PRG_BANK + addr % 0x2000,
            )
        } else {
            0
        }
    }

    /// Cartridge RAM takes what is written to it. From `0x8000` up lie four
    /// pairs of registers, the even address of a pair being one register and
    /// the odd address the other: bank select and bank data, mirroring, the
    /// latch and the reload of the scanline counter, and its two switches.
    open spec fn after_write(&self, ines: &Ines, addr: u16, v: u8) -> Self {
        let even = addr % 2 == 0;
        if 0x6000 <= addr <= 0x7fff {
            MMC3 { prg_ram: stored(self.prg_ram, addr - 0x6000, v), ..*self }
        } else if 0x8000 <= addr <= 0x9fff {
            if even {
                MMC3 {
                    bank_select: BankSelectRegister { bits: v & BankSelectRegister::ALL },
                    ..*self
                }
            } else {
                self.bank_written(v)
            }
        } else if 0xa000 <= addr <= 0xbfff {
            if even {
                MMC3 {
                    mirroring: if v % 2 == 0 {
                        Mirroring::Vertical
                    } else {
                        Mirroring::Horizontal
                    },
                    ..*self
                }
            } else {
                *self
            }
        } else if 0xc000 <= addr <= 0xdfff {
            if even {
                MMC3 { irq_latch: v, ..*self }
            } else {
                MMC3 { irq_counter: self.irq_latch, ..*self }
            }
        } else if addr >= 0xe000 {
            MMC3 { irq_enable: !even, ..*self }
        } else {
            *self
        }
    }

    open spec fn after_reset(&self) -> Self {
        *self
    }

    open spec fn chosen_mirroring(&self) -> Option<Mirroring> {
        Some(self.mirroring)
    }

    open spec fn label(&self) -> Seq<char> {
        "MMC3"@
    }

    fn name(&self) -> &'static str {
        "MMC3"
    }

    fn read(&self, ines: &Ines, addr: u16) -> u8 {
        if addr <= 0x1fff {
            let bank_number = self.chr_bank_number(addr) as usize;
            match ines.chr_byte(bank_number * CHR_BANK + (addr % 0x400) as usize) {
                Some(b) => b,
                None => 0,
            }
        } else if 0x6000 <= addr && addr <= 0x7fff {
            self.prg_ram[addr as usize - 0x6000]
        } else if addr >= 0x8000 {
            let prg_banks = ines.prg_rom_len() / PRG_BANK;
            let number = self.prg_bank_number(addr);
            let bank_number = if number == 62 {
                if prg_banks >= 2 {
                    prg_banks - 2
                } else {
                    0
                }
            } else if number == 63 {
                if prg_banks >= 1 {
                    prg_banks - 1
                } else {
                    0
                }
            } else {
                number as usize
            };
            ines.prg_byte(bank_number * PRG_BANK + (addr % 0x2000) as usize)
        } else {
            0
        }
    }

    fn write(&mut self, _ines: &Ines, addr: u16, v: u8) {
        let even = addr % 2 == 0;
        if 0x6000 <= addr && addr <= 0x7fff {
            self.prg_ram[addr as usize - 0x6000] = v;
        } else if 0x8000 <= addr && addr <= 0x9fff {
            if even {
                self.bank_select = BankSelectRegister::from_bits_truncate(v);
            } else {
                let i = self.bank_select.get_select();
                if i <= 1 {
                    self.bank_data[i as usize] = v & 0xFE;
                } else if i <= 5 {
                    self.bank_data[i as usize] = v;
                } else {
                    self.bank_data[i as usize] = v & 0x3F;
                }
            }
        } else if 0xa000 <= addr && addr <= 0xbfff {
            if even {
                self.mirroring = if v % 2 == 0 {
                    Mirroring::Vertical
                } else {
                    Mirroring::Horizontal
                };
            }
        } else if 0xc000 <= addr && addr <= 0xdfff {
            if even {
                self.irq_latch = v;
            } else {
                self.irq_counter = self.irq_latch;
            }
        } else if addr >= 0xe000 {
            self.irq_enable = !even;
        }
    }

    fn reset(&mut self) {
    }

    fn mirroring(&self) -> Option<Mirroring> {
        Some(self.mirroring)
    }
}

} // verus!
