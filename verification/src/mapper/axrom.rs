use super::{pattern_byte, pattern_written, read_pattern, rom_byte, write_pattern, Mapper};
use crate::cart::{Ines, Mirroring};
use crate::bytes::zeros;
use vstd::prelude::*;

verus! {

/// Size of a switchable program bank.
pub const BANK_SIZE: usize = 0x8000;

/// Mapper 7: one of eight 32 KiB program banks at `0x8000`, single-screen
/// mirroring chosen by the same write, and 8 KiB of pattern memory.
#[allow(non_snake_case)]
#[derive(Copy, Clone)]
pub struct AxROM {
    pub bank_select: u8,
    pub chr_ram: [u8; 0x2000],
    pub mirroring: Mirroring,
}

/// The single-screen bank that bit 4 of a written byte selects.
pub open spec fn screen_of(v: u8) -> Mirroring {
    if v & 0x10 != 0 {
        Mirroring::OneScreenUpperBank
    } else {
        Mirroring::OneScreenLowerBank
    }
}

impl AxROM {
    /// The power-on state: bank 0, the lower screen, CHR RAM all zero.
    pub open spec fn initial() -> AxROM {
        AxROM { bank_select: 0, chr_ram: zeros::<0x2000>(), mirroring: Mirroring::OneScreenLowerBank }
    }

    pub fn new() -> (m: Self)
        ensures
            m == AxROM::initial(),
    {
        AxROM { bank_select: 0, chr_ram: [0; 0x2000], mirroring: Mirroring::OneScreenLowerBank }
    }
}

impl Mapper for AxROM {
    /// Pattern memory below `0x2000`; the selected 32 KiB bank from `0x8000`;
    /// `0xff` elsewhere.
    open spec fn byte_at(&self, ines: &Ines, addr: u16) -> u8 {
        if addr <= 0x1fff {
            pattern_byte(ines, self.chr_ram, addr as int)
        } else if addr >= 0x8000 {
            rom_byte(ines.prg_rom(), self.bank_select * BANK_SIZE + (addr - 0x8000))
        } else {
            0xff
        }
    }

    /// A write to pattern memory reaches CHR RAM; a write from `0x8000` up
    /// selects the bank with its low three bits and the screen with bit 4.
    open spec fn after_write(&self, ines: &Ines, addr: u16, v: u8) -> Self {
        if addr <= 0x1fff {
            AxROM { chr_ram: pattern_written(ines, self.chr_ram, addr as int, v), ..*self }
        } else if addr >= 0x8000 {
            AxROM { bank_select: v & 0x07, mirroring: screen_of(v), ..*self }
        } else {
            *self
        }
    }

    open spec fn after_reset(&self) -> Self {
        AxROM { bank_select: 0, ..*self }
    }

    open spec fn chosen_mirroring(&self) -> Option<Mirroring> {
        Some(self.mirroring)
    }

    open spec fn label(&self) -> Seq<char> {
        "AxROM"@
    }

    fn name(&self) -> &'static str {
        "AxROM"
    }

    fn read(&self, ines: &Ines, addr: u16) -> u8 {
        if addr <= 0x1fff {
            read_pattern(ines, &self.chr_ram, addr as usize)
        } else if addr >= 0x8000 {
            ines.prg_byte(self.bank_select as usize * BANK_SIZE + (addr as usize - 0x8000))
        } else {
            0xff
        }
    }

    fn write(&mut self, ines: &Ines, addr: u16, v: u8) {
        if addr <= 0x1fff {
            write_pattern(ines, &mut self.chr_ram, addr as usize, v);
        } else if addr >= 0x8000 {
            self.bank_select = v & 0x07;
            self.mirroring = if v & 0x10 != 0 {
                Mirroring::OneScreenUpperBank
            } else {
                Mirroring::OneScreenLowerBank
            };
        }
    }

    fn reset(&mut self) {
        self.bank_select = 0;
    }

    fn mirroring(&self) -> Option<Mirroring> {
        Some(self.mirroring)
    }
}

} // verus!
