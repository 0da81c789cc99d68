use super::{pattern_byte, pattern_written, read_pattern, rom_byte, write_pattern, Mapper};
use crate::cart::{Ines, Mirroring};
use crate::bytes::{stored, zeros};
use vstd::prelude::*;

verus! {

pub const CHR_RAM_SIZE: usize = 0x2000;

pub const PRG_RAM_SIZE: usize = 0x2000;

/// Size of a program bank.
pub const PRG_BANK: usize = 0x4000;

/// Size of a pattern bank.
pub const CHR_BANK: usize = 0x1000;

/// What the shift register holds when it is empty: a lone marker bit that
/// falls out with the fifth shift.
pub const SHIFT_EMPTY: u8 = 0b10000;

/// How the two 16 KiB windows of program ROM are filled.
#[derive(Clone, Copy, Debug, PartialEq, Eq, Structural)]
pub enum PrgMode {
    /// Both windows show one 32 KiB bank.
    ThirtyTwoKilobyte,
    /// The first bank is fixed at `0x8000`, `0xC000` is switchable.
    FixFirst,
    /// `0x8000` is switchable, the last bank is fixed at `0xC000`.
    FixLast,
}

/// Mapper 1: registers loaded one bit per write through a five-bit shift
/// register.
#[allow(non_snake_case)]
#[derive(Clone, Copy)]
pub struct MMC1 {
    pub incoming_value: u8,
    pub bits_shifted: u8,
    pub prg_ram_enable: bool,
    pub prg_rom_bank_index: u8,
    pub chr_rom_0_index: u8,
    pub chr_rom_1_index: u8,
    pub chr_separate: bool,
    pub prg_mode: PrgMode,
    pub mirroring: Mirroring,
    pub chr_ram: [u8; CHR_RAM_SIZE],
    pub prg_ram: [u8; PRG_RAM_SIZE],
}

/// The mirroring that the low two bits of the control register select.
pub open spec fn control_mirroring(value: u8) -> Mirroring {
    let bits = value & 0b00011;
    if bits == 0 {
        Mirroring::OneScreenLowerBank
    } else if bits == 1 {
        Mirroring::OneScreenUpperBank
    } else if bits == 2 {
        Mirroring::Vertical
    } else {
        Mirroring::Horizontal
    }
}

/// The program banking that bits 2 and 3 of the control register select.
pub open spec fn control_prg_mode(value: u8) -> PrgMode {
    let bits = (value & 0b01100) >> 2;
    if bits == 2 {
        PrgMode::FixFirst
    } else if bits == 3 {
        PrgMode::FixLast
    } else {
        PrgMode::ThirtyTwoKilobyte
    }
}

/// The shift register with one more bit shifted in at the top.
pub open spec fn shifted_in(incoming: u8, v: u8) -> u8 {
    (incoming >> 1) | ((v & 0x01) << 4)
}

/// Where the last 16 KiB bank of a program ROM of `len` bytes starts.
pub open spec fn last_bank_start(len: int) -> int {
    if len >= PRG_BANK {
        len - PRG_BANK
    } else {
        0
    }
}

impl MMC1 {
    /// The power-on state.
    pub open spec fn initial() -> MMC1 {
        MMC1 {
            incoming_value: 0,
            bits_shifted: 0,
            prg_ram_enable: false,
            prg_rom_bank_index: 0,
            chr_rom_0_index: 0,
            chr_rom_1_index: 1,
            chr_separate: false,
            prg_mode: PrgMode::FixLast,
            mirroring: Mirroring::OneScreenLowerBank,
            chr_ram: zeros::<CHR_RAM_SIZE>(),
            prg_ram: zeros::<PRG_RAM_SIZE>(),
        }
    }

    /// Where in program ROM the window at `0x8000` starts.
    pub open spec fn prg_offset_0(&self) -> int {
        match self.prg_mode {
            PrgMode::ThirtyTwoKilobyte => (self.prg_rom_bank_index & 0b11111110) * PRG_BANK,
            PrgMode::FixFirst => 0,
            PrgMode::FixLast => self.prg_rom_bank_index * PRG_BANK,
        }
    }

    /// Where in program ROM the window at `0xC000` starts.
    pub open spec fn prg_offset_1(&self, ines: &Ines) -> int {
        match self.prg_mode {
            PrgMode::ThirtyTwoKilobyte => ((self.prg_rom_bank_index & 0b11111110) + 1) * PRG_BANK,
            PrgMode::FixFirst => self.prg_rom_bank_index * PRG_BANK,
            PrgMode::FixLast => last_bank_start(ines.prg_rom().len() as int),
        }
    }

    /// Where in pattern memory the window at `0x0000` starts.
    pub open spec fn chr_offset_0(&self) -> int {
        if self.chr_separate {
            CHR_BANK * self.chr_rom_0_index
        } else {
            2 * CHR_BANK * (self.chr_rom_0_index / 2)
        }
    }

    /// Where in pattern memory the window at `0x1000` starts.
    pub open spec fn chr_offset_1(&self) -> int {
        if self.chr_separate {
            CHR_BANK * self.chr_rom_1_index
        } else {
            2 * CHR_BANK * (self.chr_rom_0_index / 2) + CHR_BANK
        }
    }

    /// The mapper once a byte has been written to the register port at
    /// `addr`. A byte with bit 7 set empties the shift register and fixes the
    /// last program bank. Any other byte shifts its bit 0 in; the fifth such
    /// write loads the five bits into the register that `addr` selects and
    /// empties the shift register.
    pub open spec fn after_register_write(&self, addr: u16, v: u8) -> MMC1 {
        if v & 0x80 != 0 {
            MMC1 {
                incoming_value: SHIFT_EMPTY,
                bits_shifted: 0,
                prg_mode: PrgMode::FixLast,
                ..*self
            }
        } else if self.bits_shifted < 4 {
            MMC1 {
                incoming_value: shifted_in(self.incoming_value, v),
                bits_shifted: (self.bits_shifted + 1) as u8,
                ..*self
            }
        } else {
            let value = shifted_in(self.incoming_value, v);
            let cleared = MMC1 { incoming_value: SHIFT_EMPTY, bits_shifted: 0, ..*self };
            if 0x8000 <= addr <= 0x9fff {
                MMC1 {
                    mirroring: control_mirroring(value),
                    prg_mode: control_prg_mode(value),
                    chr_separate: value & 0b10000 != 0,
                    ..cleared
                }
            } else if 0xa000 <= addr <= 0xbfff {
                MMC1 { chr_rom_0_index: value, ..cleared }
            } else if 0xc000 <= addr <= 0xdfff {
                MMC1 { chr_rom_1_index: value, ..cleared }
            } else if addr >= 0xe000 {
                MMC1 {
                    prg_rom_bank_index: value & 0b01111,
                    prg_ram_enable: value & 0b10000 == 0,
                    ..cleared
                }
            } else {
                cleared
            }
        }
    }

    pub fn new() -> (m: Self)
        ensures
            m == MMC1::initial(),
    {
        MMC1 {
            incoming_value: 0,
            bits_shifted: 0,
            prg_ram_enable: false,
            prg_rom_bank_index: 0,
            chr_rom_0_index: 0,
            chr_rom_1_index: 1,
            chr_separate: false,
            prg_mode: PrgMode::FixLast,
            mirroring: Mirroring::OneScreenLowerBank,
            chr_ram: [0; CHR_RAM_SIZE],
            prg_ram: [0; PRG_RAM_SIZE],
        }
    }

    /// Reads the program window at `0x8000`; `addr` counts from its start.
    pub fn prg_bank_0(&self, ines: &Ines, addr: u16) -> (v: u8)
        requires
            ines.wf(),
            addr < PRG_BANK,
        ensures
            v == rom_byte(ines.prg_rom(), self.prg_offset_0() + addr),
    {
        let offset: usize = match self.prg_mode {
            PrgMode::ThirtyTwoKilobyte => (self.prg_rom_bank_index & 0b11111110) as usize
                * PRG_BANK,
            PrgMode::FixFirst => 0,
            PrgMode::FixLast => self.prg_rom_bank_index as usize * PRG_BANK,
        };
        ines.prg_byte(offset + addr as usize)
    }

    /// Reads the program window at `0xC000`; `addr` counts from its start.
    pub fn prg_bank_1(&self, ines: &Ines, addr: u16) -> (v: u8)
        requires
            ines.wf(),
            addr < PRG_BANK,
        ensures
            v == rom_byte(ines.prg_rom(), self.prg_offset_1(ines) + addr),
    {
        let offset: usize = match self.prg_mode {
            PrgMode::ThirtyTwoKilobyte => ((self.prg_rom_bank_index & 0b11111110) as usize + 1)
                * PRG_BANK,
            PrgMode::FixFirst => self.prg_rom_bank_index as usize * PRG_BANK,
            PrgMode::FixLast => {
                let len = ines.prg_rom_len();
                if len >= PRG_BANK {
                    len - PRG_BANK
                } else {
                    0
                }
            },
        };
        ines.prg_byte(offset + addr as usize)
    }

    fn chr_start_0(&self) -> (offset: usize)
        ensures
            offset == self.chr_offset_0(),
            offset <= 0x100000,
    {
        if self.chr_separate {
            CHR_BANK * self.chr_rom_0_index as usize
        } else {
            2 * CHR_BANK * ((self.chr_rom_0_index / 2) as usize)
        }
    }

    fn chr_start_1(&self) -> (offset: usize)
        ensures
            offset == self.chr_offset_1(),
            offset <= 0x100000,
    {
        if self.chr_separate {
            CHR_BANK * self.chr_rom_1_index as usize
        } else {
            2 * CHR_BANK * ((self.chr_rom_0_index / 2) as usize) + CHR_BANK
        }
    }

    /// Reads the pattern window at `0x0000`; `addr` counts from its start.
    pub fn chr_bank_0(&self, ines: &Ines, addr: u16) -> (v: u8)
        requires
            ines.wf(),
            addr < CHR_BANK,
        ensures
            v == pattern_byte(ines, self.chr_ram, self.chr_offset_0() + addr),
    {
        read_pattern(ines, &self.chr_ram, self.chr_start_0() + addr as usize)
    }

    /// Reads the pattern window at `0x1000`; `addr` counts from its start.
    pub fn chr_bank_1(&self, ines: &Ines, addr: u16) -> (v: u8)
        requires
            ines.wf(),
            addr < CHR_BANK,
        ensures
            v == pattern_byte(ines, self.chr_ram, self.chr_offset_1() + addr),
    {
        read_pattern(ines, &self.chr_ram, self.chr_start_1() + addr as usize)
    }

    /// Writes the pattern window at `0x0000`; `addr` counts from its start.
    pub fn write_chr_bank_0(&mut self, ines: &Ines, addr: u16, v: u8)
        requires
            ines.wf(),
            addr < CHR_BANK,
        ensures
            *final(self) == (MMC1 {
                chr_ram: pattern_written(
                    ines,
                    old(self).chr_ram,
                    old(self).chr_offset_0() + addr,
                    v,
                ),
                ..*old(self)
            }),
    {
        let offset = self.chr_start_0() + addr as usize;
        write_pattern(ines, &mut self.chr_ram, offset, v);
    }

    /// Writes the pattern window at `0x1000`; `addr` counts from its start.
    pub fn write_chr_bank_1(&mut self, ines: &Ines, addr: u16, v: u8)
        requires
            ines.wf(),
            addr < CHR_BANK,
        ensures
            *final(self) == (MMC1 {
                chr_ram: pattern_written(
                    ines,
                    old(self).chr_ram,
                    old(self).chr_offset_1() + addr,
                    v,
                ),
                ..*old(self)
            }),
    {
        let offset = self.chr_start_1() + addr as usize;
        write_pattern(ines, &mut self.chr_ram, offset, v);
    }

    /// Takes a write to the register port.
    pub fn write_register(&mut self, addr: u16, v: u8)
        ensures
            *final(self) == old(self).after_register_write(addr, v),
    {
        if v & 0x80 != 0 {
            self.incoming_value = SHIFT_EMPTY;
            self.bits_shifted = 0;
            self.prg_mode = PrgMode::FixLast;
        } else {
            let value = (self.incoming_value >> 1) | ((v & 0x01) << 4);
            if self.bits_shifted < 4 {
                self.incoming_value = value;
                self.bits_shifted = self.bits_shifted + 1;
            } else {
                if 0x8000 <= addr && addr <= 0x9fff {
                    let mirror_v = value & 0b00011;
                    let prg_v = (value & 0b01100) >> 2;
                    self.mirroring = if mirror_v == 0 {
                        Mirroring::OneScreenLowerBank
                    } else if mirror_v == 1 {
                        Mirroring::OneScreenUpperBank
                    } else if mirror_v == 2 {
                        Mirroring::Vertical
                    } else {
                        Mirroring::Horizontal
                    };
                    self.prg_mode = if prg_v == 2 {
                        PrgMode::FixFirst
                    } else if prg_v == 3 {
                        PrgMode::FixLast
                    } else {
                        PrgMode::ThirtyTwoKilobyte
                    };
                    self.chr_separate = value & 0b10000 != 0;
                } else if 0xa000 <= addr && addr <= 0xbfff {
                    self.chr_rom_0_index = value;
                } else if 0xc000 <= addr && addr <= 0xdfff {
                    self.chr_rom_1_index = value;
                } else if addr >= 0xe000 {
                    self.prg_rom_bank_index = value & 0b01111;
                    self.prg_ram_enable = value & 0b10000 == 0;
                }
                self.incoming_value = SHIFT_EMPTY;
                self.bits_shifted = 0;
            }
        }
    }
}

/// The five low bits of five written bytes, the first written lowest.
pub open spec fn serial_value(b0: u8, b1: u8, b2: u8, b3: u8, b4: u8) -> u8 {
    (b0 & 1) | ((b1 & 1) << 1) | ((b2 & 1) << 2) | ((b3 & 1) << 3) | ((b4 & 1) << 4)
}

/// Five bits shifted in, each at the top, stand lowest first in the shift
/// register, whatever it held before.
pub proof fn lemma_five_shifts(held: u8, b0: u8, b1: u8, b2: u8, b3: u8, b4: u8)
    by (bit_vector)
    requires
        held <= 0x1f,
    ensures
        shifted_in(shifted_in(shifted_in(shifted_in(shifted_in(held, b0), b1), b2), b3), b4)
            == serial_value(b0, b1, b2, b3, b4),
{
}

impl MMC1 {
    /// The serial load. Five writes of bytes with bit 7 clear to an empty
    /// shift register load a register with their five low bits, the first
    /// written lowest, and leave the shift register empty: the fifth write
    /// does to the mapper what a write of the whole value to a full shift
    /// register does.
    pub proof fn lemma_serial_load(self, addr: u16, b0: u8, b1: u8, b2: u8, b3: u8, b4: u8)
        requires
            self.bits_shifted == 0,
            self.incoming_value <= 0x1f,
            b0 & 0x80 == 0,
            b1 & 0x80 == 0,
            b2 & 0x80 == 0,
            b3 & 0x80 == 0,
            b4 & 0x80 == 0,
        ensures
            ({
                let loaded = self.after_register_write(addr, b0).after_register_write(
                    addr,
                    b1,
                ).after_register_write(addr, b2).after_register_write(addr, b3).after_register_write(
                    addr,
                    b4,
                );
                let value = serial_value(b0, b1, b2, b3, b4);
                &&& loaded.bits_shifted == 0
                &&& loaded.incoming_value == SHIFT_EMPTY
                &&& 0x8000 <= addr <= 0x9fff ==> loaded == (MMC1 {
                    mirroring: control_mirroring(value),
                    prg_mode: control_prg_mode(value),
                    chr_separate: value & 0b10000 != 0,
                    incoming_value: SHIFT_EMPTY,
                    ..self
                })
                &&& 0xa000 <= addr <= 0xbfff ==> loaded == (MMC1 {
                    chr_rom_0_index: value,
                    incoming_value: SHIFT_EMPTY,
                    ..self
                })
                &&& 0xc000 <= addr <= 0xdfff ==> loaded == (MMC1 {
                    chr_rom_1_index: value,
                    incoming_value: SHIFT_EMPTY,
                    ..self
                })
                &&& addr >= 0xe000 ==> loaded == (MMC1 {
                    prg_rom_bank_index: value & 0b01111,
                    prg_ram_enable: value & 0b10000 == 0,
                    incoming_value: SHIFT_EMPTY,
                    ..self
                })
            }),
    {
        lemma_five_shifts(self.incoming_value, b0, b1, b2, b3, b4);
    }

    /// A write with bit 7 set empties the shift register, whatever it
    /// held, and fixes the last program bank; nothing else changes.
    pub proof fn lemma_reset_write(self, addr: u16, v: u8)
        requires
            v & 0x80 != 0,
        ensures
            self.after_register_write(addr, v) == (MMC1 {
                incoming_value: SHIFT_EMPTY,
                bits_shifted: 0,
                prg_mode: PrgMode::FixLast,
                ..self
            }),
    {
    }
}

impl Mapper for MMC1 {
    /// Two 4 KiB pattern windows below `0x2000`, cartridge RAM at `0x6000`
    /// (zero while it is disabled), two 16 KiB program windows from `0x8000`;
    /// zero elsewhere.
    open spec fn byte_at(&self, ines: &Ines, addr: u16) -> u8 {
        if addr <= 0x0fff {
            pattern_byte(ines, self.chr_ram, self.chr_offset_0() + addr)
        } else if addr <= 0x1fff {
            pattern_byte(ines, self.chr_ram, self.chr_offset_1() + (addr - 0x1000))
        } else if 0x6000 <= addr <= 0x7fff {
            if self.prg_ram_enable {
                self.prg_ram[addr - 0x6000]
            } else {
                0
            }
        } else if 0x8000 <= addr <= 0xbfff {
            rom_byte(ines.prg_rom(), self.prg_offset_0() + (addr - 0x8000))
        } else if addr >= 0xc000 {
            rom_byte(ines.prg_rom(), self.prg_offset_1(ines) + (addr - 0xc000))
        } else {
            0
        }
    }

    /// Writes reach CHR RAM through the pattern windows, cartridge RAM while
    /// it is enabled, and the register port from `0x8000` up.
    open spec fn after_write(&self, ines: &Ines, addr: u16, v: u8) -> Self {
        if addr <= 0x0fff {
            MMC1 {
                chr_ram: pattern_written(ines, self.chr_ram, self.chr_offset_0() + addr, v),
                ..*self
            }
        } else if addr <= 0x1fff {
            MMC1 {
                chr_ram: pattern_written(
                    ines,
                    self.chr_ram,
                    self.chr_offset_1() + (addr - 0x1000),
                    v,
                ),
                ..*self
            }
        } else if 0x6000 <= addr <= 0x7fff {
            if self.prg_ram_enable {
                MMC1 {
                    prg_ram: stored(self.prg_ram, addr - 0x6000, v),
                    ..*self
                }
            } else {
                *self
            }
        } else if addr >= 0x8000 {
            self.after_register_write(addr, v)
        } else {
            *self
        }
    }

    /// Everything returns to its power-on value but the cartridge RAM, which
    /// keeps what it holds.
    open spec fn after_reset(&self) -> Self {
        MMC1 { prg_ram: self.prg_ram, ..MMC1::initial() }
    }

    open spec fn chosen_mirroring(&self) -> Option<Mirroring> {
        Some(self.mirroring)
    }

    open spec fn label(&self) -> Seq<char> {
        "MMC1/SxROM"@
    }

    fn name(&self) -> &'static str {
        "MMC1/SxROM"
    }

    fn read(&self, ines: &Ines, addr: u16) -> u8 {
        if addr <= 0x0fff {
            self.chr_bank_0(ines, addr)
        } else if addr <= 0x1fff {
            self.chr_bank_1(ines, addr - 0x1000)
        } else if 0x6000 <= addr && addr <= 0x7fff {
            if self.prg_ram_enable {
                self.prg_ram[addr as usize - 0x6000]
            } else {
                0
            }
        } else if 0x8000 <= addr && addr <= 0xbfff {
            self.prg_bank_0(ines, addr - 0x8000)
        } else if addr >= 0xc000 {
            self.prg_bank_1(ines, addr - 0xc000)
        } else {
            0
        }
    }

    fn write(&mut self, ines: &Ines, addr: u16, v: u8) {
        if addr <= 0x0fff {
            self.write_chr_bank_0(ines, addr, v)
        } else if addr <= 0x1fff {
            self.write_chr_bank_1(ines, addr - 0x1000, v)
        } else if 0x6000 <= addr && addr <= 0x7fff {
            if self.prg_ram_enable {
                self.prg_ram[addr as usize - 0x6000] = v
            }
        } else if addr >= 0x8000 {
            self.write_register(addr, v)
        }
    }

    fn reset(&mut self) {
        let prg_ram = self.prg_ram;
        *self = MMC1::new();
        self.prg_ram = prg_ram;
    }

    fn mirroring(&self) -> Option<Mirroring> {
        Some(self.mirroring)
    }
}

} // verus!
