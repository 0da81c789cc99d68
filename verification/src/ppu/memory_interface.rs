use super::ppu_registers::PPURegisters;
use vstd::prelude::*;

verus! {

/// The address space as the picture unit sees it, together with the register
/// file that it shares with the processor. A verified memory says in the
/// specification functions what its methods do; of any other nothing is
/// known.
pub trait PPUMemory: Sized {
    /// Whether the memory is in a state that can serve the picture unit.
    open spec fn ppu_usable(&self) -> bool {
        true
    }

    /// The byte at `addr` of the picture unit's address space.
    open spec fn ppu_byte(&self, addr: u16) -> u8 {
        arbitrary()
    }

    /// The memory once the picture unit has written `v` to `addr`.
    open spec fn after_ppu_write(&self, addr: u16, v: u8) -> Self {
        arbitrary()
    }

    /// The register file.
    open spec fn register_file(&self) -> PPURegisters {
        arbitrary()
    }

    /// The memory with `regs` as its register file.
    open spec fn with_registers(&self, regs: PPURegisters) -> Self {
        arbitrary()
    }

    fn read_ppu(&self, addr: u16) -> (v: u8)
        requires
            self.ppu_usable(),
        ensures
            v == self.ppu_byte(addr),
    ;

    fn write_ppu(&mut self, addr: u16, v: u8)
        requires
            old(self).ppu_usable(),
        ensures
            *final(self) == old(self).after_ppu_write(addr, v),
            final(self).ppu_usable(),
    ;

    fn registers(&self) -> (regs: &PPURegisters)
        ensures
            *regs == self.register_file(),
    ;

    /// Replaces the register file.
    fn set_registers(&mut self, regs: PPURegisters)
        requires
            old(self).ppu_usable(),
        ensures
            *final(self) == old(self).with_registers(regs),
            final(self).ppu_usable(),
    ;
}

} // verus!
