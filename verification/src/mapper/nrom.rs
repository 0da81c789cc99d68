use super::{pattern_byte, pattern_written, read_pattern, rom_byte, write_pattern, Mapper};
use crate::cart::{Ines, Mirroring};
use crate::bytes::zeros;
use vstd::prelude::*;

verus! {

/// Mapper 0: program ROM of 16 or 32 KiB at a fixed place, pattern memory
/// mapped straight through.
#[allow(clippy::upper_case_acronyms)]
#[derive(Clone, Copy)]
pub struct NROM {
    pub chr_ram: [u8; 0x2000],
}

impl NROM {
    /// The power-on state: CHR RAM all zero.
    pub open spec fn initial() -> NROM {
        NROM { chr_ram: zeros::<0x2000>() }
    }

    pub fn new() -> (m: Self)
        ensures
            m == NROM::initial(),
    {
        NROM { chr_ram: [0; 0x2000] }
    }
}

impl NROM {
    /// A single program bank of 16 KiB shows twice: at `0x8000` and again
    /// at `0xC000`.
    pub proof fn lemma_single_bank_shows_twice(self, ines: &Ines, addr: u16)
        requires
            ines.prg_rom().len() == 0x4000,
            0x8000 <= addr <= 0xbfff,
        ensures
            self.byte_at(ines, addr) == self.byte_at(ines, (addr + 0x4000) as u16),
            self.byte_at(ines, addr) == ines.prg_rom()[addr - 0x8000],
    {
    }
}

impl Mapper for NROM {
    /// Pattern memory below `0x2000`; program ROM from `0x8000`, a single
    /// 16 KiB bank showing twice; `0xff` elsewhere.
    open spec fn byte_at(&self, ines: &Ines, addr: u16) -> u8 {
        if addr <= 0x1fff {
            pattern_byte(ines, self.chr_ram, addr as int)
        } else if addr >= 0x8000 {
            rom_byte(ines.prg_rom(), addr - 0x8000)
        } else {
            0xff
        }
    }

    /// CHR RAM is writable where the cartridge has no CHR ROM; nothing else
    /// is.
    open spec fn after_write(&self, ines: &Ines, addr: u16, v: u8) -> Self {
        if addr <= 0x1fff {
            NROM { chr_ram: pattern_written(ines, self.chr_ram, addr as int, v) }
        } else {
            *self
        }
    }

    open spec fn after_reset(&self) -> Self {
        *self
    }

    open spec fn chosen_mirroring(&self) -> Option<Mirroring> {
        None
    }

    open spec fn label(&self) -> Seq<char> {
        "NROM"@
    }

    fn name(&self) -> &'static str {
        "NROM"
    }

    fn read(&self, ines: &Ines, addr: u16) -> u8 {
        if addr <= 0x1fff {
            read_pattern(ines, &self.chr_ram, addr as usize)
        } else if addr >= 0x8000 {
            ines.prg_byte((addr - 0x8000) as usize)
        } else {
            0xff
        }
    }

    fn write(&mut self, ines: &Ines, addr: u16, v: u8) {
        if addr <= 0x1fff {
            write_pattern(ines, &mut self.chr_ram, addr as usize, v);
        }
    }

    fn reset(&mut self) {
    }

    fn mirroring(&self) -> Option<Mirroring> {
        None
    }
}

} // verus!
