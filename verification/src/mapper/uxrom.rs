use super::{pattern_byte, pattern_written, read_pattern, rom_byte, write_pattern, Mapper};
use crate::cart::{Ines, Mirroring};
use crate::bytes::zeros;
use vstd::prelude::*;

verus! {

/// Size of a switchable program bank.
pub const BANK_SIZE: usize = 0x4000;

/// Mapper 2: a switchable 16 KiB program bank at `0x8000`, the last bank
/// fixed at `0xC000`, and 8 KiB of pattern memory.
#[allow(non_snake_case)]
#[derive(Copy, Clone)]
pub struct UxROM {
    pub bank_select: u8,
    pub chr_ram: [u8; 0x2000],
}

/// Where the last 16 KiB bank of a program ROM of `len` bytes starts.
pub open spec fn last_bank_start(len: int) -> int {
    if len >= BANK_SIZE {
        len - BANK_SIZE
    } else {
        0
    }
}

impl UxROM {
    /// The power-on state: bank 0 selected, CHR RAM all zero.
    pub open spec fn initial() -> UxROM {
        UxROM { bank_select: 0, chr_ram: zeros::<0x2000>() }
    }

    pub fn new() -> (m: Self)
        ensures
            m == UxROM::initial(),
    {
        UxROM { bank_select: 0, chr_ram: [0; 0x2000] }
    }
}

impl Mapper for UxROM {
    /// Pattern memory below `0x2000`; the selected bank at `0x8000`; the last
    /// bank at `0xC000`; `0xff` elsewhere.
    open spec fn byte_at(&self, ines: &Ines, addr: u16) -> u8 {
        if addr <= 0x1fff {
            pattern_byte(ines, self.chr_ram, addr as int)
        } else if 0x8000 <= addr <= 0xbfff {
            rom_byte(ines.prg_rom(), self.bank_select * BANK_SIZE + (addr - 0x8000))
        } else if addr >= 0xc000 {
            rom_byte(ines.prg_rom(), last_bank_start(ines.prg_rom().len() as int) + (addr - 0xc000))
        } else {
            0xff
        }
    }

    /// A write to pattern memory reaches CHR RAM; a write from `0x8000` up
    /// selects the bank, all eight bits of it.
    open spec fn after_write(&self, ines: &Ines, addr: u16, v: u8) -> Self {
        if addr <= 0x1fff {
            UxROM { chr_ram: pattern_written(ines, self.chr_ram, addr as int, v), ..*self }
        } else if addr >= 0x8000 {
            UxROM { bank_select: v, ..*self }
        } else {
            *self
        }
    }

    open spec fn after_reset(&self) -> Self {
        UxROM { bank_select: 0, ..*self }
    }

    open spec fn chosen_mirroring(&self) -> Option<Mirroring> {
        None
    }

    open spec fn label(&self) -> Seq<char> {
        "UxROM"@
    }

    fn name(&self) -> &'static str {
        "UxROM"
    }

    fn read(&self, ines: &Ines, addr: u16) -> u8 {
        if addr <= 0x1fff {
            read_pattern(ines, &self.chr_ram, addr as usize)
        } else if 0x8000 <= addr && addr <= 0xbfff {
            ines.prg_byte(self.bank_select as usize * BANK_SIZE + (addr as usize - 0x8000))
        } else if addr >= 0xc000 {
            let len = ines.prg_rom_len();
            let start = if len >= BANK_SIZE {
                len - BANK_SIZE
            } else {
                0
            };
            ines.prg_byte(start + (addr as usize - 0xc000))
        } else {
            0xff
        }
    }

    fn write(&mut self, ines: &Ines, addr: u16, v: u8) {
        if addr <= 0x1fff {
            write_pattern(ines, &mut self.chr_ram, addr as usize, v);
        } else if addr >= 0x8000 {
            self.bank_select = v;
        }
    }

    fn reset(&mut self) {
        self.bank_select = 0;
    }

    fn mirroring(&self) -> Option<Mirroring> {
        None
    }
}

} // verus!
