use vstd::prelude::*;

verus! {

/// The eight registers through which the processor talks to the picture
/// unit, and a note of the last access for the picture unit to act on.
#[derive(Debug, Clone, Copy)]
pub struct PPURegisters {
    pub ppu_ctrl: u8,
    pub ppu_mask: u8,
    pub ppu_status: u8,
    pub oam_addr: u8,
    pub oam_data: u8,
    pub ppu_scroll: u8,
    pub ppu_addr: u8,
    pub ppu_data: u8,
    /// Contains the index of the last access, and if it was a write.
    pub last_access_from: Option<(u16, bool)>,
}

impl Default for PPURegisters {
    fn default() -> (r: Self)
        ensures
            r == PPURegisters::initial(),
    {
        PPURegisters {
            ppu_ctrl: 0,
            ppu_mask: 0,
            ppu_status: 0,
            oam_addr: 0,
            oam_data: 0,
            ppu_scroll: 0,
            ppu_addr: 0,
            ppu_data: 0,
            last_access_from: None,
        }
    }
}

impl PPURegisters {
    /// The power-on state: every register zero, no access noted.
    pub open spec fn initial() -> PPURegisters {
        PPURegisters {
            ppu_ctrl: 0,
            ppu_mask: 0,
            ppu_status: 0,
            oam_addr: 0,
            oam_data: 0,
            ppu_scroll: 0,
            ppu_addr: 0,
            ppu_data: 0,
            last_access_from: None,
        }
    }

    /// The register with the given index: PPUCTRL, PPUMASK, PPUSTATUS,
    /// OAMADDR, OAMDATA, PPUSCROLL, PPUADDR, PPUDATA; 255 for an index that
    /// names none.
    pub open spec fn value_at(&self, index: u16) -> u8 {
        match index {
            0 => self.ppu_ctrl,
            1 => self.ppu_mask,
            2 => self.ppu_status,
            3 => self.oam_addr,
            4 => self.oam_data,
            5 => self.ppu_scroll,
            6 => self.ppu_addr,
            7 => self.ppu_data,
            _ => 255,
        }
    }

    /// The registers once the one at `index` has been read: unchanged but
    /// for the note of the access.
    pub open spec fn after_read(&self, index: u16) -> PPURegisters {
        PPURegisters { last_access_from: Some((index, false)), ..*self }
    }

    /// The registers once `v` has been written to the one at `index`.
    pub open spec fn after_write(&self, index: u16, v: u8) -> PPURegisters {
        let noted = PPURegisters { last_access_from: Some((index, true)), ..*self };
        match index {
            0 => PPURegisters { ppu_ctrl: v, ..noted },
            1 => PPURegisters { ppu_mask: v, ..noted },
            2 => PPURegisters { ppu_status: v, ..noted },
            3 => PPURegisters { oam_addr: v, ..noted },
            4 => PPURegisters { oam_data: v, ..noted },
            5 => PPURegisters { ppu_scroll: v, ..noted },
            6 => PPURegisters { ppu_addr: v, ..noted },
            7 => PPURegisters { ppu_data: v, ..noted },
            _ => noted,
        }
    }

    /// `0 -> PPUCTRL`
    /// `1 -> PPUMASK`
    /// `2 -> PPUSTATUS`
    /// `3 -> OAMADDR`
    /// `4 -> OAMDATA`
    /// `5 -> PPUSCROLL`
    /// `6 -> PPUADDR`
    /// `7 -> PPUDATA`
    /// `_ -> 255`
    pub fn read_by_index(&mut self, index: u16) -> (v: u8)
        ensures
            v == old(self).value_at(index),
            *final(self) == old(self).after_read(index),
    {
        self.last_access_from = Some((index, false));
        match index {
            0 => self.ppu_ctrl,
            1 => self.ppu_mask,
            2 => self.ppu_status,
            3 => self.oam_addr,
            4 => self.oam_data,
            5 => self.ppu_scroll,
            6 => self.ppu_addr,
            7 => self.ppu_data,
            _ => 255,
        }
    }

    /// Same indexing as `read_by_index`
    pub fn write_by_index(&mut self, index: u16, v: u8)
        ensures
            *final(self) == old(self).after_write(index, v),
    {
        self.last_access_from = Some((index, true));
        match index {
            0 => self.ppu_ctrl = v,
            1 => self.ppu_mask = v,
            2 => self.ppu_status = v,
            3 => self.oam_addr = v,
            4 => self.oam_data = v,
            5 => self.ppu_scroll = v,
            6 => self.ppu_addr = v,
            7 => self.ppu_data = v,
            _ => {},
        }
    }
}

} // verus!
