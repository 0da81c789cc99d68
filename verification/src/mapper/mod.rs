pub mod axrom;
pub mod dummy;
pub mod mmc1;
pub mod mmc3;
pub mod nrom;
pub mod uxrom;

use crate::cart::{CartState, Ines, Mirroring};
use crate::error::Error;
use crate::bytes::stored;
use vstd::prelude::*;

verus! {

/// Represents a memory banking method for a cartridge.
///
/// One mapper serves both buses: addresses `0x0000..=0x1FFF` are pattern
/// memory as the picture unit sees it, `0x6000..=0x7FFF` is cartridge RAM and
/// `0x8000..=0xFFFF` is program ROM as the processor sees them. A verified
/// mapper says in the specification functions what its methods do; of any
/// other nothing is known.
pub trait Mapper: Sized {
    /// The byte that a read of `addr` returns.
    open spec fn byte_at(&self, ines: &Ines, addr: u16) -> u8 {
        arbitrary()
    }

    /// The mapper once `v` has been written to `addr`.
    open spec fn after_write(&self, ines: &Ines, addr: u16, v: u8) -> Self {
        arbitrary()
    }

    /// The mapper once it has been reset.
    open spec fn after_reset(&self) -> Self {
        arbitrary()
    }

    /// The mirroring that the mapper imposes; `None` where it leaves the
    /// choice to the cartridge's header.
    open spec fn chosen_mirroring(&self) -> Option<Mirroring> {
        arbitrary()
    }

    /// The mapper's name.
    open spec fn label(&self) -> Seq<char> {
        arbitrary()
    }

    /// Returns the name of the mapper
    fn name(&self) -> (n: &'static str)
        ensures
            n@ == self.label(),
    ;

    /// Performs a read from the cartridge
    fn read(&self, ines: &Ines, addr: u16) -> (v: u8)
        requires
            ines.wf(),
        ensures
            v == self.byte_at(ines, addr),
    ;

    /// Performs a write to the cartridge
    fn write(&mut self, ines: &Ines, addr: u16, v: u8)
        requires
            ines.wf(),
        ensures
            *final(self) == old(self).after_write(ines, addr, v),
    ;

    /// Resets the mapper
    fn reset(&mut self)
        ensures
            *final(self) == old(self).after_reset(),
    ;

    /// Gets the nametable mirroring mode.
    fn mirroring(&self) -> (m: Option<Mirroring>)
        ensures
            m == self.chosen_mirroring(),
    ;
}

/// The byte at `offset` of a ROM. An offset past the end wraps round, as on
/// a board that leaves the upper address lines unconnected; an empty ROM
/// reads as zero.
pub open spec fn rom_byte(rom: Seq<u8>, offset: int) -> u8 {
    if rom.len() == 0 {
        0
    } else {
        rom[offset % rom.len() as int]
    }
}

/// The byte of pattern memory at `addr`: from CHR ROM where the cartridge
/// has one, else from the mapper's CHR RAM.
pub open spec fn pattern_byte(ines: &Ines, chr_ram: [u8; 0x2000], offset: int) -> u8 {
    match ines.chr_rom() {
        Some(rom) => rom_byte(rom, offset),
        None => chr_ram[offset % 0x2000],
    }
}

/// CHR RAM once `v` has been written at `offset`; CHR ROM ignores writes.
pub open spec fn pattern_written(ines: &Ines, chr_ram: [u8; 0x2000], offset: int, v: u8) -> [
    u8;
    0x2000
] {
    match ines.chr_rom() {
        Some(_) => chr_ram,
        None => stored(chr_ram, offset % 0x2000, v),
    }
}

/// Reads pattern memory.
pub fn read_pattern(ines: &Ines, chr_ram: &[u8; 0x2000], offset: usize) -> (v: u8)
    requires
        ines.wf(),
    ensures
        v == pattern_byte(ines, *chr_ram, offset as int),
{
    match ines.chr_byte(offset) {
        Some(b) => b,
        None => chr_ram[offset % 0x2000],
    }
}

/// Writes pattern memory: CHR RAM takes the byte, CHR ROM ignores it.
pub fn write_pattern(ines: &Ines, chr_ram: &mut [u8; 0x2000], offset: usize, v: u8)
    requires
        ines.wf(),
    ensures
        *final(chr_ram) == pattern_written(ines, *old(chr_ram), offset as int, v),
{
    if ines.has_chr_ram {
        chr_ram[offset % 0x2000] = v;
    }
}

/// The mapper that a cartridge with mapper id `id` starts with; `None` for
/// an id that is not emulated.
pub open spec fn mapper_for(id: u16) -> Option<CartState> {
    match id {
        0 => Some(CartState::NROM(nrom::NROM::initial())),
        1 => Some(CartState::MMC1(mmc1::MMC1::initial())),
        2 => Some(CartState::UxROM(uxrom::UxROM::initial())),
        7 => Some(CartState::AxROM(axrom::AxROM::initial())),
        _ => None,
    }
}

/// The mapper for an iNES mapper id, in its power-on state.
pub fn from_ines_id(id: u16) -> (r: Result<CartState, Error>)
    ensures
        r is Ok <==> mapper_for(id) is Some,
        r matches Ok(m) ==> Some(m) == mapper_for(id),
        r matches Err(e) ==> e == Error::UnsupportedMapperErr(id),
{
    match id {
        0 => Ok(CartState::NROM(nrom::NROM::new())),
        1 => Ok(CartState::MMC1(mmc1::MMC1::new())),
        2 => Ok(CartState::UxROM(uxrom::UxROM::new())),
        7 => Ok(CartState::AxROM(axrom::AxROM::new())),
        _ => Err(Error::unsupported_mapper(id)),
    }
}

} // verus!
