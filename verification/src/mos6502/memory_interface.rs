use super::register::{high_byte, low_byte, word};
use vstd::prelude::*;

verus! {

/// The address space as the processor sees it.
///
/// A read may change the memory (registers that latch, shift or clear when
/// read), so both directions take `&mut self`. What an access returns and what
/// it leaves behind are functions of the memory before it: `peek`,
/// `after_read` and `after_write`. A verified memory says there what its
/// methods do; of any other nothing is known.
pub trait MOS6502Memory: Sized {
    /// Whether the memory is in a state that can serve the processor.
    open spec fn usable(&self) -> bool {
        true
    }

    /// The byte that a read of `addr` returns.
    open spec fn peek(&self, addr: u16) -> u8 {
        arbitrary()
    }

    /// The memory once `addr` has been read.
    open spec fn after_read(&self, addr: u16) -> Self {
        arbitrary()
    }

    /// The memory once `v` has been written to `addr`.
    open spec fn after_write(&self, addr: u16, v: u8) -> Self {
        arbitrary()
    }

    fn read(&mut self, addr: u16) -> (v: u8)
        requires
            old(self).usable(),
        ensures
            v == old(self).peek(addr),
            *final(self) == old(self).after_read(addr),
            final(self).usable(),
    ;

    fn write(&mut self, addr: u16, v: u8)
        requires
            old(self).usable(),
        ensures
            *final(self) == old(self).after_write(addr, v),
            final(self).usable(),
    ;

    /// Reads a little-endian word whose high byte lies in the same page as its
    /// low byte: the address of the high byte wraps within the page.
    fn read_double(&mut self, addr: u16) -> (v: u16)
        requires
            old(self).usable(),
        ensures
            v == word(old(self).after_read(addr).peek(page_neighbour(addr)), old(self).peek(addr)),
            *final(self) == old(self).after_read(addr).after_read(page_neighbour(addr)),
            final(self).usable(),
    {
        let ah = addr & 0xff00;
        let al = #[verifier::truncate] ((addr & 0xff) as u8);
        let lo = self.read(addr);
        let hi = self.read(ah | (al.wrapping_add(1) as u16));
        ((hi as u16) << 8) | (lo as u16)
    }

    /// Writes a little-endian word, the high byte to the next address of the
    /// same page.
    fn write_double(&mut self, addr: u16, v: u16)
        requires
            old(self).usable(),
        ensures
            *final(self) == old(self).after_write(addr, low_byte(v)).after_write(
                page_neighbour(addr),
                high_byte(v),
            ),
            final(self).usable(),
    {
        let ah = addr & 0xff00;
        let al = #[verifier::truncate] ((addr & 0xff) as u8);
        self.write(addr, #[verifier::truncate] ((v & 0x00ff) as u8));
        self.write(ah | (al.wrapping_add(1) as u16), #[verifier::truncate] (((v & 0xff00) >> 8) as u8));
    }
}

/// The address after `addr` within the page of `addr`: the low byte wraps
/// from `0xff` to `0x00` and the page stays.
pub open spec fn page_neighbour(addr: u16) -> u16 {
    (addr & 0xff00) | ((((addr & 0xff) as u8).wrapping_add(1)) as u16)
}

/// The word that `read_double` finds at `addr`.
pub open spec fn word_at<M: MOS6502Memory>(mem: M, addr: u16) -> u16 {
    word(mem.after_read(addr).peek(page_neighbour(addr)), mem.peek(addr))
}

/// The memory once `read_double` has read the word at `addr`.
pub open spec fn after_word_read<M: MOS6502Memory>(mem: M, addr: u16) -> M {
    mem.after_read(addr).after_read(page_neighbour(addr))
}

} // verus!
