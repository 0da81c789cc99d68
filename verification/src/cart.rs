use crate::error::Error;
use crate::mapper::axrom::AxROM;
use crate::mapper::dummy::Dummy;
use crate::mapper::mmc1::MMC1;
use crate::mapper::nrom::NROM;
use crate::mapper::uxrom::UxROM;
use crate::mapper::{from_ines_id, mapper_for, rom_byte, Mapper};
use std::ops::Range;
use vstd::prelude::*;
use vstd::slice::slice_subrange;
use vstd::string::StringExecFns;

verus! {

/// The five ways a cartridge can arrange the console's nametable banks.
#[derive(Clone, Copy, Debug, PartialEq, Eq, Structural)]
pub enum Mirroring {
    Horizontal,
    Vertical,
    OneScreenLowerBank,
    OneScreenUpperBank,
    FourScreen,
}

/// Size of the iNES header in bytes.
pub const HEADER_SIZE: usize = 16;

/// Size of one unit of PRG ROM in bytes.
pub const PRG_UNIT: usize = 16384;

/// Size of one unit of CHR ROM in bytes.
pub const CHR_UNIT: usize = 8192;

/// Whether `bytes` start with the four bytes `N`, `E`, `S`, `0x1A`.
pub open spec fn has_magic(bytes: Seq<u8>) -> bool {
    &&& bytes.len() >= 4
    &&& bytes[0] == 0x4E
    &&& bytes[1] == 0x45
    &&& bytes[2] == 0x53
    &&& bytes[3] == 0x1A
}

/// The length in bytes of the PRG ROM that the header of `bytes` announces.
pub open spec fn prg_len(bytes: Seq<u8>) -> int {
    bytes[4] * PRG_UNIT
}

/// The length in bytes of the CHR ROM that the header of `bytes` announces.
pub open spec fn chr_len(bytes: Seq<u8>) -> int {
    bytes[5] * CHR_UNIT
}

/// Whether the header of `bytes` is complete and carries the magic.
pub open spec fn has_header(bytes: Seq<u8>) -> bool {
    bytes.len() >= HEADER_SIZE && has_magic(bytes)
}

/// Whether `bytes` are a well-formed iNES image: a header with the magic, at
/// least one unit of PRG ROM, and all the PRG and CHR data that the header
/// announces.
pub open spec fn is_ines(bytes: Seq<u8>) -> bool {
    &&& has_header(bytes)
    &&& bytes[4] > 0
    &&& bytes.len() >= HEADER_SIZE + prg_len(bytes) + chr_len(bytes)
}

/// What is wrong with `bytes` that are no well-formed iNES image: the
/// header is incomplete or lacks the magic, or it announces no PRG ROM, or
/// the file ends before the data that it announces.
pub open spec fn format_fault(bytes: Seq<u8>) -> Seq<char> {
    if !has_header(bytes) {
        "Invalid iNES header"@
    } else if bytes[4] == 0 {
        "iNES file has no PRG ROM"@
    } else {
        "iNES file is truncated"@
    }
}

/// The mapper id that flag bytes 6 and 7 hold: the high nibble of byte 6 is
/// its low nibble, the high nibble of byte 7 its high nibble.
pub open spec fn mapper_id_of(flags6: u8, flags7: u8) -> u16 {
    ((flags7 & 0xf0) | (flags6 >> 4)) as u16
}

/// The mirroring that flag byte 6 asks for.
pub open spec fn mirroring_of(flags6: u8) -> Mirroring {
    if flags6 & 0x01 != 0 {
        Mirroring::Vertical
    } else {
        Mirroring::Horizontal
    }
}

/// What an iNES file holds, apart from how it is laid out.
pub struct InesImage {
    pub prg_rom: Seq<u8>,
    /// `None` where the cartridge has CHR RAM in place of CHR ROM.
    pub chr_rom: Option<Seq<u8>>,
    pub mapper_id: u16,
    pub mirroring: Mirroring,
    pub persistent_prg_ram: bool,
}

/// The image that well-formed iNES `bytes` hold.
pub open spec fn image_of(bytes: Seq<u8>) -> InesImage {
    let prg_end = HEADER_SIZE + prg_len(bytes);
    InesImage {
        prg_rom: bytes.subrange(HEADER_SIZE as int, prg_end),
        chr_rom: if bytes[5] == 0 {
            None
        } else {
            Some(bytes.subrange(prg_end, prg_end + chr_len(bytes)))
        },
        mapper_id: mapper_id_of(bytes[6], bytes[7]),
        mirroring: mirroring_of(bytes[6]),
        persistent_prg_ram: bytes[6] & 0b10 != 0,
    }
}

/// A parsed iNES file: the flag bytes, and where in the file the PRG and CHR
/// ROM lie.
pub struct Ines {
    pub flags6: u8,
    pub flags7: u8,
    pub prg_rom_range: Range<usize>,
    pub chr_rom_range: Range<usize>,
    pub has_chr_ram: bool,
    pub persistent_prg_ram: bool,
    pub data: Vec<u8>,
}

impl View for Ines {
    type V = InesImage;

    open spec fn view(&self) -> InesImage {
        InesImage {
            prg_rom: self.prg_rom(),
            chr_rom: self.chr_rom(),
            mapper_id: mapper_id_of(self.flags6, self.flags7),
            mirroring: mirroring_of(self.flags6),
            persistent_prg_ram: self.persistent_prg_ram,
        }
    }
}

impl Ines {
    /// Both ranges lie inside the data.
    pub open spec fn wf(&self) -> bool {
        &&& self.prg_rom_range.start <= self.prg_rom_range.end <= self.data@.len()
        &&& self.chr_rom_range.start <= self.chr_rom_range.end <= self.data@.len()
    }

    /// Whether this is the header of a real cartridge: it has PRG ROM, in
    /// whole units, and its CHR ROM, if any, comes in whole units too.
    pub open spec fn is_image(&self) -> bool {
        &&& self.wf()
        &&& self.prg_rom().len() > 0
        &&& self.prg_rom().len() % (PRG_UNIT as nat) == 0
        &&& self.chr_rom() matches Some(chr) ==> chr.len() >= CHR_UNIT && chr.len() % (
        CHR_UNIT as nat) == 0
    }

    /// The PRG ROM.
    pub open spec fn prg_rom(&self) -> Seq<u8> {
        self.data@.subrange(self.prg_rom_range.start as int, self.prg_rom_range.end as int)
    }

    /// The CHR ROM, or `None` if the cartridge has CHR RAM.
    pub open spec fn chr_rom(&self) -> Option<Seq<u8>> {
        if self.has_chr_ram {
            None
        } else {
            Some(
                self.data@.subrange(
                    self.chr_rom_range.start as int,
                    self.chr_rom_range.end as int,
                ),
            )
        }
    }

    /// Parses an iNES file. Fails with a format error, and only then, when
    /// the bytes are no well-formed image.
    pub fn new(data: Vec<u8>) -> (r: Result<Ines, Error>)
        ensures
            r is Ok <==> is_ines(data@),
            r matches Ok(ines) ==> ines@ == image_of(data@) && ines.is_image() && ines.data@
                == data@,
            r matches Err(e) ==> e matches Error::FormatErr(msg) && msg@ == format_fault(data@),
    {
        if data.len() < HEADER_SIZE || data[0] != 0x4E || data[1] != 0x45 || data[2] != 0x53
            || data[3] != 0x1A {
            return Err(Error::format_err(String::from_str("Invalid iNES header")));
        }
        let prg_size = data[4];
        let chr_size = data[5];
        let flags6 = data[6];
        let flags7 = data[7];
        if prg_size == 0 {
            return Err(Error::format_err(String::from_str("iNES file has no PRG ROM")));
        }
        let prg_len: usize = prg_size as usize * PRG_UNIT;
        let chr_len: usize = chr_size as usize * CHR_UNIT;
        if data.len() - HEADER_SIZE < prg_len + chr_len {
            return Err(Error::format_err(String::from_str("iNES file is truncated")));
        }
        let prg_end: usize = HEADER_SIZE + prg_len;
        let ines = Ines {
            flags6,
            flags7,
            prg_rom_range: HEADER_SIZE..prg_end,
            chr_rom_range: prg_end..prg_end + chr_len,
            has_chr_ram: chr_size == 0,
            persistent_prg_ram: flags6 & 0b10 != 0,
            data,
        };
        assert(ines@.prg_rom =~= image_of(ines.data@).prg_rom);
        Ok(ines)
    }

    /// The header of the cartridge that stands for an empty slot.
    pub fn dummy() -> (ines: Ines)
        ensures
            ines.wf(),
            ines.data@.len() == 0,
            ines.prg_rom_range.start == 0 && ines.prg_rom_range.end == 0,
            ines.chr_rom_range.start == 0 && ines.chr_rom_range.end == 0,
            ines.prg_rom().len() == 0,
            ines.chr_rom() == Some(Seq::<u8>::empty()),
            ines.flags6 == 0,
            ines.flags7 == 0,
            !ines.has_chr_ram,
            !ines.persistent_prg_ram,
    {
        let ines = Ines {
            flags6: 0,
            flags7: 0,
            prg_rom_range: 0..0,
            chr_rom_range: 0..0,
            data: Vec::new(),
            has_chr_ram: false,
            persistent_prg_ram: false,
        };
        assert(ines.chr_rom()->0 =~= Seq::<u8>::empty());
        ines
    }

    pub fn mapper_id(&self) -> (id: u16)
        ensures
            id == self@.mapper_id,
    {
        let low = self.flags6 >> 4;
        let hi = self.flags7 & 0xf0;
        (hi | low) as u16
    }

    pub fn prg_rom_slice(&self) -> (prg: &[u8])
        requires
            self.wf(),
        ensures
            prg@ == self.prg_rom(),
    {
        slice_subrange(self.data.as_slice(), self.prg_rom_range.start, self.prg_rom_range.end)
    }

    /// Returns `None` if the cartridge has CHR RAM
    pub fn chr_rom_slice(&self) -> (chr: Option<&[u8]>)
        requires
            self.wf(),
        ensures
            chr is Some <==> self.chr_rom() is Some,
            chr matches Some(c) ==> c@ == self.chr_rom()->0,
    {
        if self.has_chr_ram {
            None
        } else {
            Some(
                slice_subrange(
                    self.data.as_slice(),
                    self.chr_rom_range.start,
                    self.chr_rom_range.end,
                ),
            )
        }
    }

    pub fn mirroring(&self) -> (m: Mirroring)
        ensures
            m == self@.mirroring,
    {
        if self.flags6 & 0x01 != 0 {
            Mirroring::Vertical
        } else {
            Mirroring::Horizontal
        }
    }

    /// The length of the PRG ROM in bytes.
    pub fn prg_rom_len(&self) -> (n: usize)
        requires
            self.wf(),
        ensures
            n == self.prg_rom().len(),
    {
        self.prg_rom_range.end - self.prg_rom_range.start
    }

    /// The byte of PRG ROM at `offset`; an offset past the end wraps round.
    pub fn prg_byte(&self, offset: usize) -> (v: u8)
        requires
            self.wf(),
        ensures
            v == rom_byte(self.prg_rom(), offset as int),
    {
        let len = self.prg_rom_range.end - self.prg_rom_range.start;
        if len == 0 {
            0
        } else {
            self.data[self.prg_rom_range.start + offset % len]
        }
    }

    /// The byte of CHR ROM at `offset`, wrapping round past the end; `None`
    /// if the cartridge has CHR RAM.
    pub fn chr_byte(&self, offset: usize) -> (v: Option<u8>)
        requires
            self.wf(),
        ensures
            v == chr_rom_byte(self.chr_rom(), offset as int),
    {
        if self.has_chr_ram {
            None
        } else {
            let len = self.chr_rom_range.end - self.chr_rom_range.start;
            if len == 0 {
                Some(0)
            } else {
                Some(self.data[self.chr_rom_range.start + offset % len])
            }
        }
    }
}

/// The byte at `offset` of a CHR ROM, wrapping round past its end; `None`
/// where there is no CHR ROM.
pub open spec fn chr_rom_byte(chr: Option<Seq<u8>>, offset: int) -> Option<u8> {
    match chr {
        None => None,
        Some(rom) => Some(rom_byte(rom, offset)),
    }
}

/// The state of whichever mapper a cartridge carries.
///
/// Beside the mappers that the library emulates stands `Custom`, which
/// carries a mapper of the user's own: any type with the methods of
/// `Mapper` that can be copied, as saving a game asks.
#[derive(Clone, Copy)]
pub enum CartState<K: Mapper + Copy = Dummy> {
    Dummy(Dummy),
    NROM(NROM),
    MMC1(MMC1),
    UxROM(UxROM),
    AxROM(AxROM),
    Custom(K),
}

impl<K: Mapper + Copy> Mapper for CartState<K> {
    open spec fn byte_at(&self, ines: &Ines, addr: u16) -> u8 {
        match self {
            CartState::Dummy(m) => m.byte_at(ines, addr),
            CartState::NROM(m) => m.byte_at(ines, addr),
            CartState::MMC1(m) => m.byte_at(ines, addr),
            CartState::UxROM(m) => m.byte_at(ines, addr),
            CartState::AxROM(m) => m.byte_at(ines, addr),
            CartState::Custom(m) => m.byte_at(ines, addr),
        }
    }

    open spec fn after_write(&self, ines: &Ines, addr: u16, v: u8) -> Self {
        match self {
            CartState::Dummy(m) => CartState::Dummy(m.after_write(ines, addr, v)),
            CartState::NROM(m) => CartState::NROM(m.after_write(ines, addr, v)),
            CartState::MMC1(m) => CartState::MMC1(m.after_write(ines, addr, v)),
            CartState::UxROM(m) => CartState::UxROM(m.after_write(ines, addr, v)),
            CartState::AxROM(m) => CartState::AxROM(m.after_write(ines, addr, v)),
            CartState::Custom(m) => CartState::Custom(m.after_write(ines, addr, v)),
        }
    }

    open spec fn after_reset(&self) -> Self {
        match self {
            CartState::Dummy(m) => CartState::Dummy(m.after_reset()),
            CartState::NROM(m) => CartState::NROM(m.after_reset()),
            CartState::MMC1(m) => CartState::MMC1(m.after_reset()),
            CartState::UxROM(m) => CartState::UxROM(m.after_reset()),
            CartState::AxROM(m) => CartState::AxROM(m.after_reset()),
            CartState::Custom(m) => CartState::Custom(m.after_reset()),
        }
    }

    open spec fn chosen_mirroring(&self) -> Option<Mirroring> {
        match self {
            CartState::Dummy(m) => m.chosen_mirroring(),
            CartState::NROM(m) => m.chosen_mirroring(),
            CartState::MMC1(m) => m.chosen_mirroring(),
            CartState::UxROM(m) => m.chosen_mirroring(),
            CartState::AxROM(m) => m.chosen_mirroring(),
            CartState::Custom(m) => m.chosen_mirroring(),
        }
    }

    open spec fn label(&self) -> Seq<char> {
        match self {
            CartState::Dummy(m) => m.label(),
            CartState::NROM(m) => m.label(),
            CartState::MMC1(m) => m.label(),
            CartState::UxROM(m) => m.label(),
            CartState::AxROM(m) => m.label(),
            CartState::Custom(m) => m.label(),
        }
    }

    fn name(&self) -> &'static str {
        match self {
            CartState::Dummy(m) => m.name(),
            CartState::NROM(m) => m.name(),
            CartState::MMC1(m) => m.name(),
            CartState::UxROM(m) => m.name(),
            CartState::AxROM(m) => m.name(),
            CartState::Custom(m) => m.name(),
        }
    }

    fn read(&self, ines: &Ines, addr: u16) -> u8 {
        match self {
            CartState::Dummy(m) => m.read(ines, addr),
            CartState::NROM(m) => m.read(ines, addr),
            CartState::MMC1(m) => m.read(ines, addr),
            CartState::UxROM(m) => m.read(ines, addr),
            CartState::AxROM(m) => m.read(ines, addr),
            CartState::Custom(m) => m.read(ines, addr),
        }
    }

    fn write(&mut self, ines: &Ines, addr: u16, v: u8) {
        match self {
            CartState::Dummy(m) => m.write(ines, addr, v),
            CartState::NROM(m) => m.write(ines, addr, v),
            CartState::MMC1(m) => m.write(ines, addr, v),
            CartState::UxROM(m) => m.write(ines, addr, v),
            CartState::AxROM(m) => m.write(ines, addr, v),
            CartState::Custom(m) => m.write(ines, addr, v),
        }
    }

    fn reset(&mut self) {
        match self {
            CartState::Dummy(m) => m.reset(),
            CartState::NROM(m) => m.reset(),
            CartState::MMC1(m) => m.reset(),
            CartState::UxROM(m) => m.reset(),
            CartState::AxROM(m) => m.reset(),
            CartState::Custom(m) => m.reset(),
        }
    }

    fn mirroring(&self) -> Option<Mirroring> {
        match self {
            CartState::Dummy(m) => m.mirroring(),
            CartState::NROM(m) => m.mirroring(),
            CartState::MMC1(m) => m.mirroring(),
            CartState::UxROM(m) => m.mirroring(),
            CartState::AxROM(m) => m.mirroring(),
            CartState::Custom(m) => m.mirroring(),
        }
    }
}

/// A cartridge: the parsed image and the mapper that serves it.
pub struct Cart<K: Mapper + Copy = Dummy> {
    pub ines: Ines,
    pub mapper: CartState<K>,
}

impl<K: Mapper + Copy> Cart<K> {
    /// The parsed image is well-formed.
    pub open spec fn wf(&self) -> bool {
        self.ines.wf()
    }

    /// The byte that a read of `addr` returns.
    pub open spec fn byte_at(&self, addr: u16) -> u8 {
        self.mapper.byte_at(&self.ines, addr)
    }

    /// The cartridge once `v` has been written to `addr`.
    pub open spec fn after_write(&self, addr: u16, v: u8) -> Self {
        Cart { ines: self.ines, mapper: self.mapper.after_write(&self.ines, addr, v) }
    }

    /// The cartridge once it has been reset.
    pub open spec fn after_reset(&self) -> Self {
        Cart { ines: self.ines, mapper: self.mapper.after_reset() }
    }

    /// The mirroring in force: the mapper's choice, or else the header's.
    pub open spec fn spec_mirroring(&self) -> Mirroring {
        match self.mapper.chosen_mirroring() {
            Some(m) => m,
            None => self.ines@.mirroring,
        }
    }

    /// A cartridge with a mapper of the user's own reads, writes, resets
    /// and mirrors as that mapper does, and a saved game holds the mapper as
    /// it stood.
    pub proof fn lemma_custom_mapper_serves(ines: Ines, mapper: K, addr: u16, v: u8)
        ensures
            ({
                let cart = Cart { ines, mapper: CartState::<K>::Custom(mapper) };
                &&& cart.byte_at(addr) == mapper.byte_at(&ines, addr)
                &&& cart.after_write(addr, v).mapper == CartState::<K>::Custom(
                    mapper.after_write(&ines, addr, v),
                )
                &&& cart.after_reset().mapper == CartState::<K>::Custom(mapper.after_reset())
                &&& cart.mapper.chosen_mirroring() == mapper.chosen_mirroring()
                &&& cart.mapper.label() == mapper.label()
                &&& cart.after_write(addr, v).ines == ines
                &&& cart.after_reset().ines == ines
            }),
    {
    }

    /// A cartridge with a mapper of the user's own, in the state it is
    /// handed over in.
    pub fn custom(ines: Ines, mapper: K) -> (cart: Self)
        requires
            ines.wf(),
        ensures
            cart.wf(),
            cart.ines == ines,
            cart.mapper == CartState::<K>::Custom(mapper),
    {
        Cart { ines, mapper: CartState::Custom(mapper) }
    }

    pub fn reset(&mut self)
        requires
            old(self).wf(),
        ensures
            *final(self) == old(self).after_reset(),
            final(self).wf(),
    {
        self.mapper.reset();
    }

    pub fn save_state(&self) -> (s: CartState<K>)
        ensures
            s == self.mapper,
    {
        self.mapper
    }

    /// Puts a saved mapper state back.
    pub fn load_state(&mut self, s: CartState<K>)
        ensures
            *final(self) == (Cart { ines: old(self).ines, mapper: s }),
    {
        self.mapper = s;
    }

    pub fn read(&self, addr: u16) -> (v: u8)
        requires
            self.wf(),
        ensures
            v == self.byte_at(addr),
    {
        self.mapper.read(&self.ines, addr)
    }

    pub fn write(&mut self, addr: u16, v: u8)
        requires
            old(self).wf(),
        ensures
            *final(self) == old(self).after_write(addr, v),
            final(self).wf(),
    {
        self.mapper.write(&self.ines, addr, v)
    }

    pub fn mapper_name(&self) -> (name: &'static str)
        ensures
            name@ == self.mapper.label(),
    {
        self.mapper.name()
    }

    pub fn header(&self) -> (ines: &Ines)
        ensures
            *ines == self.ines,
    {
        &self.ines
    }

    pub fn mirroring(&self) -> (m: Mirroring)
        ensures
            m == self.spec_mirroring(),
    {
        match self.mapper.mirroring() {
            Some(m) => m,
            None => self.ines.mirroring(),
        }
    }
}

impl Cart {
    /// Makes a cartridge directly from a byte vector representing an iNes
    /// ROM. Succeeds exactly on a well-formed image that asks for an emulated
    /// mapper; a malformed image is reported before an unknown mapper.
    pub fn from_bytes(rom: Vec<u8>) -> (r: Result<Cart, Error>)
        ensures
            r is Ok <==> is_ines(rom@) && mapper_for(image_of(rom@).mapper_id) is Some,
            r matches Ok(cart) ==> {
                &&& cart.wf()
                &&& cart.ines@ == image_of(rom@)
                &&& cart.ines.data@ == rom@
                &&& Some(cart.mapper) == mapper_for(image_of(rom@).mapper_id)
            },
            r matches Err(e) ==> if is_ines(rom@) {
                e == Error::UnsupportedMapperErr(image_of(rom@).mapper_id)
            } else {
                e matches Error::FormatErr(msg) && msg@ == format_fault(rom@)
            },
    {
        let ines = match Ines::new(rom) {
            Ok(ines) => ines,
            Err(e) => {
                return Err(e);
            },
        };
        let mapper = match from_ines_id(ines.mapper_id()) {
            Ok(mapper) => mapper,
            Err(e) => {
                return Err(e);
            },
        };
        Ok(Cart { ines, mapper })
    }

    /// Creates a dummy cartridge.
    /// This cartridge contains only zeroes.
    /// Any writes are no-ops.
    pub fn dummy() -> (cart: Cart)
        ensures
            cart.wf(),
            cart.mapper == CartState::<Dummy>::Dummy(Dummy {  }),
            cart.ines.data@.len() == 0,
            cart.ines@.prg_rom.len() == 0,
            cart.ines.flags6 == 0,
            cart.ines.flags7 == 0,
            forall|addr: u16| cart.byte_at(addr) == 0,
            forall|addr: u16, v: u8| cart.after_write(addr, v) == cart,
    {
        Cart { ines: Ines::dummy(), mapper: CartState::Dummy(Dummy {  }) }
    }
}

} // verus!
