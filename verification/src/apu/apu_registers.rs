use crate::bytes::{stored, zeros};
use vstd::prelude::*;

verus! {

/// The sound unit's register file as the processor sees it: the bytes last
/// written, the status byte that a read of `0x4015` returns, and notes of the
/// last read and the last write for the sound unit to act on.
#[derive(Debug, Clone, Copy)]
pub struct APURegisters {
    pub registers: [u8; 0x20],
    pub last_read: Option<usize>,
    pub last_write: Option<usize>,
    pub status_out: u8,
}

impl APURegisters {
    /// The power-on state: every register zero, no access noted.
    pub open spec fn initial() -> APURegisters {
        APURegisters {
            registers: zeros::<0x20>(),
            last_read: None,
            last_write: None,
            status_out: 0,
        }
    }

    /// The byte that a read of `addr` returns: the status at `0x4015`, zero
    /// from every other register.
    pub open spec fn value_at(&self, addr: u16) -> u8 {
        if addr == 0x4015 {
            self.status_out
        } else {
            0x00
        }
    }

    /// The register file once `addr` has been read.
    pub open spec fn after_read(&self, addr: u16) -> APURegisters {
        APURegisters { last_read: Some((addr - 0x4000) as usize), ..*self }
    }

    /// The register file once `v` has been written to `addr`.
    pub open spec fn after_write(&self, addr: u16, v: u8) -> APURegisters {
        APURegisters {
            registers: stored(self.registers, addr - 0x4000, v),
            last_write: Some((addr - 0x4000) as usize),
            ..*self
        }
    }

    pub fn new() -> (r: Self)
        ensures
            r == APURegisters::initial(),
    {
        APURegisters { registers: [0; 0x20], last_read: None, last_write: None, status_out: 0 }
    }

    pub fn write(&mut self, addr: u16, v: u8)
        requires
            0x4000 <= addr <= 0x401f,
        ensures
            *final(self) == old(self).after_write(addr, v),
    {
        self.last_write = Some((addr - 0x4000) as usize);
        self.registers[(addr - 0x4000) as usize] = v;
    }

    pub fn read(&mut self, addr: u16) -> (v: u8)
        requires
            0x4000 <= addr <= 0x401f,
        ensures
            v == old(self).value_at(addr),
            *final(self) == old(self).after_read(addr),
    {
        self.last_read = Some((addr - 0x4000) as usize);
        if addr == 0x4015 {
            self.status_out
        } else {
            0x00
        }
    }
}

impl Default for APURegisters {
    fn default() -> (r: Self)
        ensures
            r == APURegisters::initial(),
    {
        APURegisters::new()
    }
}

} // verus!
