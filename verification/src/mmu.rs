use crate::apu::APURegisters;
use crate::bytes::{filled, stored, zeros};
use crate::cart::{Cart, CartState, Mirroring};
use crate::mapper::dummy::Dummy;
use crate::mapper::Mapper;
use crate::controller::NESController;
use crate::mos6502::MOS6502Memory;
use crate::ppu::{PPUMemory, PPURegisters, VideoInterface, PPU};
use vstd::prelude::*;

verus! {

/// Switches of the memory unit: a set of bits.
#[derive(Debug, Clone, Copy, PartialEq, Eq, Structural)]
pub struct MMUConfig {
    pub bits: u16,
}

impl MMUConfig {
    /// Capture what test programs report at `0x6000..=0x61FF`.
    pub const DEBUG: u16 = 0x0001;

    pub const DEBUG_OUTPUT: u16 = 0x0002;

    pub open spec fn has(self, mask: u16) -> bool {
        self.bits & mask == mask
    }

    pub fn empty() -> (c: MMUConfig)
        ensures
            c.bits == 0,
    {
        MMUConfig { bits: 0 }
    }

    pub fn from_bits_truncate(bits: u16) -> (c: MMUConfig)
        ensures
            c.bits == bits & 0x0003,
    {
        MMUConfig { bits: bits & 0x0003 }
    }

    pub fn bits(&self) -> (b: u16)
        ensures
            b == self.bits,
    {
        self.bits
    }

    pub fn contains(&self, mask: u16) -> (b: bool)
        ensures
            b == self.has(mask),
    {
        self.bits & mask == mask
    }
}

/// Size of the console's work RAM.
pub const RAM_SIZE: usize = 2048;

/// Size of one nametable bank.
pub const BANK_SIZE: usize = 0x400;

/// Length of the text that a test program can report.
pub const DEBUG_TEXT_SIZE: usize = 0x200 - 4;

/// What a test program has reported through `0x6000..=0x61FF`: a status
/// byte, three bytes that mark the report as valid, and a text.
#[derive(Debug, Clone, Copy)]
pub struct BlarggDebug {
    pub code: u8,
    pub magic_number: [u8; 3],
    pub test_output: [u8; DEBUG_TEXT_SIZE],
}

impl BlarggDebug {
    /// The report before anything was written: status and marker `0xff`, the
    /// text all zero.
    pub open spec fn initial() -> BlarggDebug {
        BlarggDebug {
            code: 0xff,
            magic_number: filled::<u8, 3>(0xff),
            test_output: zeros::<DEBUG_TEXT_SIZE>(),
        }
    }

    /// The report once `v` has been written to `addr`, an address of
    /// `0x6000..=0x61FF`.
    pub open spec fn after_write(self, addr: u16, v: u8) -> BlarggDebug {
        if addr == 0x6000 {
            BlarggDebug { code: v, ..self }
        } else if addr <= 0x6003 {
            BlarggDebug { magic_number: stored(self.magic_number, addr - 0x6001, v), ..self }
        } else {
            BlarggDebug { test_output: stored(self.test_output, addr - 0x6004, v), ..self }
        }
    }
}

/// What of the memory a saved game keeps: work RAM, the nametable banks and
/// the mapper's state.
#[derive(Clone, Copy)]
pub struct MMUSaveState<K: Mapper + Copy = Dummy> {
    pub ram: [u8; RAM_SIZE],
    pub vram: [[u8; BANK_SIZE]; 4],
    pub cart_state: Option<CartState<K>>,
}

/// The memory unit: everything that the processor and the picture unit
/// reach through their address buses.
pub struct MMU<C: NESController, K: Mapper + Copy = Dummy> {
    pub cart: Option<Cart<K>>,
    pub ram: [u8; RAM_SIZE],
    pub ppu_registers: PPURegisters,
    pub apu_registers: APURegisters,
    pub vram: [[u8; BANK_SIZE]; 4],
    pub controller: C,
    pub controller_shift: u8,
    pub oam_transfer: bool,
    pub oam_page: u16,
    pub oam_offset: u16,
    pub config: MMUConfig,
    pub blargg_debug_state: Option<BlarggDebug>,
}

/// The nametable bank (A = 0, B = 1, C = 2, D = 3) behind `addr` under
/// `mirroring`; `None` outside `0x2000..=0x2FFF`.
pub open spec fn nametable_bank(mirroring: Mirroring, addr: u16) -> Option<usize> {
    if 0x2000 <= addr <= 0x2fff {
        let quadrant = (addr - 0x2000) / 0x400;
        Some(
            match mirroring {
                Mirroring::Horizontal => (quadrant / 2) as usize,
                Mirroring::Vertical => (quadrant % 2) as usize,
                Mirroring::OneScreenLowerBank => 0usize,
                Mirroring::OneScreenUpperBank => 1usize,
                Mirroring::FourScreen => quadrant as usize,
            },
        )
    } else {
        None
    }
}

/// Four nametable banks of zeros.
pub open spec fn blank_banks() -> [[u8; BANK_SIZE]; 4] {
    filled::<[u8; BANK_SIZE], 4>(zeros::<BANK_SIZE>())
}

impl<C: NESController, K: Mapper + Copy> MMU<C, K> {
    /// The cartridge, if there is one, is well-formed, and the sprite
    /// transfer stands within its page.
    pub open spec fn wf(&self) -> bool {
        &&& self.cart matches Some(c) ==> c.wf()
        &&& self.oam_offset < 256
    }

    /// The memory unit at power-on: work RAM and nametables blank, the
    /// register files at power-on, no sprite transfer under way, and a blank
    /// test report if the switches ask for one.
    pub open spec fn initial(cart: Option<Cart<K>>, controller: C, config: Option<MMUConfig>) -> Self {
        let config = match config {
            Some(c) => c,
            None => MMUConfig { bits: 0 },
        };
        MMU {
            cart,
            ram: zeros::<RAM_SIZE>(),
            ppu_registers: PPURegisters::initial(),
            apu_registers: APURegisters::initial(),
            vram: blank_banks(),
            controller,
            controller_shift: 0,
            oam_transfer: false,
            oam_page: 0,
            oam_offset: 0,
            config,
            blargg_debug_state: if config.has(MMUConfig::DEBUG) {
                Some(BlarggDebug::initial())
            } else {
                None
            },
        }
    }

    /// Whether writes to `addr` go to the test report.
    pub open spec fn captures(&self, addr: u16) -> bool {
        0x6000 <= addr <= 0x61ff && self.config.has(MMUConfig::DEBUG)
    }

    /// The byte that the processor reads at `addr`.
    pub open spec fn cpu_byte(&self, addr: u16) -> u8 {
        if addr <= 0x1fff {
            self.ram[(addr % 2048) as int]
        } else if addr <= 0x3fff {
            self.ppu_registers.value_at(((addr - 0x2000) % 8) as u16)
        } else if addr == 0x4016 {
            if self.controller_shift & 0x01 != 0 {
                1
            } else {
                0
            }
        } else if addr == 0x4017 {
            0
        } else if addr <= 0x401f {
            self.apu_registers.value_at(addr)
        } else {
            match self.cart {
                Some(c) => c.byte_at(addr),
                None => 0,
            }
        }
    }

    /// The memory once the processor has read `addr`: registers note the
    /// access, the controller port shifts to its next button.
    pub open spec fn after_cpu_read(&self, addr: u16) -> Self {
        if addr <= 0x1fff {
            *self
        } else if addr <= 0x3fff {
            MMU {
                ppu_registers: self.ppu_registers.after_read(((addr - 0x2000) % 8) as u16),
                ..*self
            }
        } else if addr == 0x4016 {
            MMU { controller_shift: self.controller_shift >> 1, ..*self }
        } else if addr == 0x4017 {
            *self
        } else if addr <= 0x401f {
            MMU { apu_registers: self.apu_registers.after_read(addr), ..*self }
        } else {
            *self
        }
    }

    /// The memory once the processor has written `v` to `addr`.
    pub open spec fn after_cpu_write(&self, addr: u16, v: u8) -> Self {
        if addr <= 0x1fff {
            MMU { ram: stored(self.ram, (addr % 2048) as int, v), ..*self }
        } else if addr <= 0x3fff {
            MMU {
                ppu_registers: self.ppu_registers.after_write(((addr - 0x2000) % 8) as u16, v),
                ..*self
            }
        } else if addr == 0x4014 {
            if self.oam_transfer {
                *self
            } else {
                MMU { oam_transfer: true, oam_page: (v as u16) << 8, oam_offset: 0, ..*self }
            }
        } else if addr == 0x4016 {
            if v & 0x01 != 0 {
                MMU { controller_shift: self.controller.buttons().bits, ..*self }
            } else {
                *self
            }
        } else if addr <= 0x401f {
            MMU { apu_registers: self.apu_registers.after_write(addr, v), ..*self }
        } else if self.captures(addr) {
            match self.blargg_debug_state {
                Some(report) => MMU {
                    blargg_debug_state: Some(report.after_write(addr, v)),
                    ..*self
                },
                None => *self,
            }
        } else {
            match self.cart {
                Some(c) => MMU { cart: Some(c.after_write(addr, v)), ..*self },
                None => *self,
            }
        }
    }

    /// The memory once it has been reset: the mapper reset, the nametables
    /// blank, the controller port empty, the picture registers at power-on.
    pub open spec fn after_reset(&self) -> Self {
        MMU {
            cart: match self.cart {
                Some(c) => Some(c.after_reset()),
                None => None,
            },
            vram: blank_banks(),
            controller_shift: 0,
            ppu_registers: PPURegisters::initial(),
            ..*self
        }
    }

    /// What `save_state` keeps.
    pub open spec fn saved(&self) -> MMUSaveState<K> {
        MMUSaveState {
            ram: self.ram,
            vram: self.vram,
            cart_state: match self.cart {
                Some(c) => Some(c.mapper),
                None => None,
            },
        }
    }

    /// The memory once `s` has been loaded; a saved mapper state goes to the
    /// cartridge if there is one.
    pub open spec fn after_load(&self, s: MMUSaveState<K>) -> Self {
        MMU {
            ram: s.ram,
            vram: s.vram,
            cart: match (s.cart_state, self.cart) {
                (Some(m), Some(c)) => Some(Cart { ines: c.ines, mapper: m }),
                _ => self.cart,
            },
            ..*self
        }
    }

    pub fn new(cart: Option<Cart<K>>, controller: C, config: Option<MMUConfig>) -> (mmu: Self)
        requires
            cart matches Some(c) ==> c.wf(),
        ensures
            mmu == MMU::initial(cart, controller, config),
            mmu.wf(),
    {
        let config = match config {
            Some(c) => c,
            None => MMUConfig::empty(),
        };
        MMU {
            cart,
            ram: [0; RAM_SIZE],
            ppu_registers: PPURegisters::default(),
            apu_registers: APURegisters::default(),
            vram: [[0; BANK_SIZE]; 4],
            controller,
            controller_shift: 0,
            oam_transfer: false,
            oam_page: 0,
            oam_offset: 0,
            config,
            blargg_debug_state: if config.contains(MMUConfig::DEBUG) {
                Some(
                    BlarggDebug {
                        code: 0xff,
                        magic_number: [0xff; 3],
                        test_output: [0x00; DEBUG_TEXT_SIZE],
                    },
                )
            } else {
                None
            },
        }
    }

    pub fn reset(&mut self)
        requires
            old(self).wf(),
        ensures
            *final(self) == old(self).after_reset(),
            final(self).wf(),
    {
        match &mut self.cart {
            Some(c) => c.reset(),
            None => {},
        }
        self.vram = [[0; BANK_SIZE]; 4];
        self.controller_shift = 0;
        self.ppu_registers = PPURegisters::default();
    }

    pub fn save_state(&self) -> (s: MMUSaveState<K>)
        ensures
            s == self.saved(),
    {
        MMUSaveState {
            ram: self.ram,
            vram: self.vram,
            cart_state: match &self.cart {
                Some(c) => Some(c.save_state()),
                None => None,
            },
        }
    }

    pub fn load_state(&mut self, s: MMUSaveState<K>)
        requires
            old(self).wf(),
        ensures
            *final(self) == old(self).after_load(s),
            final(self).wf(),
    {
        self.ram = s.ram;
        self.vram = s.vram;
        match s.cart_state {
            Some(m) => {
                match &mut self.cart {
                    Some(c) => c.load_state(m),
                    None => {},
                }
            },
            None => {},
        }
    }

    /// Loads a single bytes from the specified address.
    /// Different address ranges may load from different devices; an empty
    /// cartridge slot reads as zero.
    pub fn read(&mut self, addr: u16) -> (v: u8)
        requires
            old(self).wf(),
        ensures
            v == old(self).cpu_byte(addr),
            *final(self) == old(self).after_cpu_read(addr),
            final(self).wf(),
    {
        if addr <= 0x1fff {
            self.ram[(addr as usize) % 2048]
        } else if addr <= 0x3fff {
            self.ppu_registers.read_by_index((addr - 0x2000) % 8)
        } else if addr == 0x4016 {
            let c = self.controller_shift & 0x01 != 0;
            self.controller_shift = self.controller_shift >> 1;
            if c {
                1
            } else {
                0
            }
        } else if addr == 0x4017 {
            0
        } else if addr <= 0x401f {
            self.apu_registers.read(addr)
        } else {
            match &self.cart {
                Some(c) => c.read(addr),
                None => 0,
            }
        }
    }

    /// Stores a byte at the specified address, in whichever device lies
    /// there. A write to `0x4014` starts a sprite transfer from the page
    /// `v`, unless one is under way.
    pub fn write(&mut self, addr: u16, v: u8)
        requires
            old(self).wf(),
        ensures
            *final(self) == old(self).after_cpu_write(addr, v),
            final(self).wf(),
    {
        if addr <= 0x1fff {
            self.ram[(addr as usize) % 2048] = v;
        } else if addr <= 0x3fff {
            self.ppu_registers.write_by_index((addr - 0x2000) % 8, v);
        } else if addr == 0x4014 {
            if !self.oam_transfer {
                self.oam_transfer = true;
                self.oam_page = (v as u16) << 8;
                self.oam_offset = 0;
            }
        } else if addr == 0x4016 {
            if v & 0x01 != 0 {
                self.controller_shift = self.controller.poll_controller().bits();
            }
        } else if addr <= 0x401f {
            self.apu_registers.write(addr, v);
        } else if 0x6000 <= addr && addr <= 0x61ff && self.config.contains(MMUConfig::DEBUG) {
            match &mut self.blargg_debug_state {
                Some(bds) => {
                    if addr == 0x6000 {
                        bds.code = v;
                    } else if addr <= 0x6003 {
                        bds.magic_number[(addr - 0x6001) as usize] = v;
                    } else {
                        bds.test_output[(addr - 0x6004) as usize] = v;
                    }
                },
                None => {},
            }
        } else {
            match &mut self.cart {
                Some(c) => c.write(addr, v),
                None => {},
            }
        }
    }

    /// The text that a test program has reported.
    pub fn blargg_debug_text(&self) -> (text: &[u8])
        requires
            self.blargg_debug_state is Some,
        ensures
            text@ == self.blargg_debug_state->0.test_output@,
    {
        match &self.blargg_debug_state {
            Some(state) => state.test_output.as_slice(),
            None => {
                let empty: &[u8] = &[];
                empty
            },
        }
    }

    /// The status that a test program has reported.
    pub fn blargg_debug_status(&self) -> (code: u8)
        requires
            self.blargg_debug_state is Some,
        ensures
            code == self.blargg_debug_state->0.code,
    {
        match &self.blargg_debug_state {
            Some(state) => state.code,
            None => 0xff,
        }
    }

    pub fn has_cartridge(&self) -> (b: bool)
        ensures
            b == self.cart is Some,
    {
        self.cart.is_some()
    }

    pub fn insert_cartridge(&mut self, cart: Cart<K>)
        requires
            old(self).wf(),
            cart.wf(),
        ensures
            *final(self) == (MMU { cart: Some(cart), ..*old(self) }),
            final(self).wf(),
    {
        self.cart = Some(cart);
    }

    /// VRAM is divided into 4 1KB banks A,B,C,D.
    /// Banks C and D are only used in 4 Screen mode.
    /// Mirroring is implemented by translating each nametable to a bank.
    pub fn get_vram_bank_from_nametable_addr(mirroring: Mirroring, addr: u16) -> (bank: Option<
        usize,
    >)
        ensures
            bank == nametable_bank(mirroring, addr),
            bank matches Some(b) ==> b < 4,
    {
        if 0x2000 <= addr && addr <= 0x23ff {
            match mirroring {
                Mirroring::OneScreenUpperBank => Some(1),
                _ => Some(0),
            }
        } else if 0x2400 <= addr && addr <= 0x27ff {
            match mirroring {
                Mirroring::Vertical => Some(1),
                Mirroring::Horizontal => Some(0),
                Mirroring::OneScreenLowerBank => Some(0),
                Mirroring::OneScreenUpperBank => Some(1),
                Mirroring::FourScreen => Some(1),
            }
        } else if 0x2800 <= addr && addr <= 0x2bff {
            match mirroring {
                Mirroring::Vertical => Some(0),
                Mirroring::Horizontal => Some(1),
                Mirroring::OneScreenLowerBank => Some(0),
                Mirroring::OneScreenUpperBank => Some(1),
                Mirroring::FourScreen => Some(2),
            }
        } else if 0x2c00 <= addr && addr <= 0x2fff {
            match mirroring {
                Mirroring::Vertical => Some(1),
                Mirroring::Horizontal => Some(1),
                Mirroring::OneScreenLowerBank => Some(0),
                Mirroring::OneScreenUpperBank => Some(1),
                Mirroring::FourScreen => Some(3),
            }
        } else {
            None
        }
    }
}

impl<C: NESController, K: Mapper + Copy> MMU<C, K> {
    /// Every dot of the picture unit consumes the note that the memory unit
    /// keeps of the processor's last access to the picture registers.
    pub proof fn lemma_dot_consumes_access<V: VideoInterface>(self, ppu: PPU, video: V)
        ensures
            ppu.ticked(self, video).1.ppu_registers.last_access_from is None,
    {
        ppu.lemma_tick_registers(self, video);
        ppu.lemma_tick_consumes_access(self);
    }
}

impl<C: NESController, K: Mapper + Copy> MOS6502Memory for MMU<C, K> {
    open spec fn usable(&self) -> bool {
        self.wf()
    }

    open spec fn peek(&self, addr: u16) -> u8 {
        self.cpu_byte(addr)
    }

    open spec fn after_read(&self, addr: u16) -> Self {
        self.after_cpu_read(addr)
    }

    open spec fn after_write(&self, addr: u16, v: u8) -> Self {
        self.after_cpu_write(addr, v)
    }

    fn read(&mut self, addr: u16) -> u8 {
        MMU::read(self, addr)
    }

    fn write(&mut self, addr: u16, v: u8) {
        MMU::write(self, addr, v)
    }
}

impl<C: NESController, K: Mapper + Copy> PPUMemory for MMU<C, K> {
    open spec fn ppu_usable(&self) -> bool {
        self.wf()
    }

    /// Pattern memory comes from the cartridge, the nametables from the
    /// bank that the cartridge's mirroring selects; `0xff` elsewhere.
    open spec fn ppu_byte(&self, addr: u16) -> u8 {
        match self.cart {
            Some(c) => if addr <= 0x1fff {
                c.byte_at(addr)
            } else {
                match nametable_bank(c.spec_mirroring(), addr) {
                    Some(bank) => self.vram[bank as int][(addr % 0x400) as int],
                    None => 0xff,
                }
            },
            None => 0xff,
        }
    }

    open spec fn after_ppu_write(&self, addr: u16, v: u8) -> Self {
        match self.cart {
            Some(c) => if addr <= 0x1fff {
                MMU { cart: Some(c.after_write(addr, v)), ..*self }
            } else {
                match nametable_bank(c.spec_mirroring(), addr) {
                    Some(bank) => MMU {
                        vram: stored(
                            self.vram,
                            bank as int,
                            stored(self.vram[bank as int], (addr % 0x400) as int, v),
                        ),
                        ..*self
                    },
                    None => *self,
                }
            },
            None => *self,
        }
    }

    open spec fn register_file(&self) -> PPURegisters {
        self.ppu_registers
    }

    open spec fn with_registers(&self, regs: PPURegisters) -> Self {
        MMU { ppu_registers: regs, ..*self }
    }

    fn read_ppu(&self, addr: u16) -> u8 {
        match &self.cart {
            Some(cart) => {
                if addr <= 0x1fff {
                    cart.read(addr)
                } else {
                    match Self::get_vram_bank_from_nametable_addr(cart.mirroring(), addr) {
                        Some(bank) => self.vram[bank][(addr % 0x400) as usize],
                        None => 0xff,
                    }
                }
            },
            None => 0xff,
        }
    }

    fn write_ppu(&mut self, addr: u16, v: u8) {
        if addr <= 0x1fff {
            match &mut self.cart {
                Some(cart) => cart.write(addr, v),
                None => {},
            }
        } else {
            let bank = match &self.cart {
                Some(cart) => Self::get_vram_bank_from_nametable_addr(cart.mirroring(), addr),
                None => None,
            };
            match bank {
                Some(bank) => {
                    self.vram[bank][(addr % 0x400) as usize] = v;
                },
                None => {},
            }
        }
    }

    fn registers(&self) -> &PPURegisters {
        &self.ppu_registers
    }

    fn set_registers(&mut self, regs: PPURegisters) {
        self.ppu_registers = regs;
    }
}

} // verus!
