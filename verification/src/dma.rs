use crate::apu::AudioOutput;
use crate::controller::NESController;
use crate::mapper::Mapper;
use crate::nes::Nes;
use crate::ppu::VideoInterface;
use crate::bytes::stored;
use vstd::prelude::*;

verus! {

/// The cycles that a sprite transfer takes when it starts on an even cycle:
/// one to halt the processor and two for each of the 256 bytes.
pub const TRANSFER_CYCLES: u32 = 513;

impl<V: VideoInterface, C: NESController, A: AudioOutput, K: Mapper + Copy> Nes<V, C, A, K> {
    /// The console after `n` ticks of the master clock.
    pub open spec fn ticks(self, n: nat) -> Self
        decreases n,
    {
        if n == 0 {
            self
        } else {
            self.ticks((n - 1) as nat).master_ticked().0
        }
    }

    /// Whether a sprite transfer has just been asked for and not begun.
    pub open spec fn transfer_requested(self) -> bool {
        &&& self.mmu.cart is Some
        &&& self.mmu.oam_transfer
        &&& self.mmu.oam_offset == 0
        &&& !self.dma_started
        &&& self.oam_write is None
    }

    /// The cycles that the sprite transfer asked for takes: one more when
    /// it starts on an odd cycle.
    pub open spec fn transfer_length(self) -> nat {
        if self.odd_cycle {
            (TRANSFER_CYCLES + 1) as nat
        } else {
            TRANSFER_CYCLES as nat
        }
    }

    /// How the console stands `k` cycles into the transfer that `start`
    /// asked for: the processor has not moved, and the transfer has got as
    /// far as `k` cycles take it.
    pub open spec fn in_transfer(self, start: Self, k: nat) -> bool {
        let wait: int = if start.odd_cycle {
            2
        } else {
            1
        };
        let copied = k - wait;
        &&& self.mmu.cart is Some
        &&& self.cpu == start.cpu
        &&& self.cycles_counter == start.cycles_counter
        &&& self.odd_cycle == (start.odd_cycle != (k % 2 == 1))
        &&& if k == 0 {
            self.transfer_requested()
        } else if copied < 0 {
            &&& self.mmu.oam_transfer
            &&& self.mmu.oam_offset == 0
            &&& self.dma_started
            &&& self.dma_align
            &&& self.oam_write is None
        } else if copied < 512 {
            &&& self.mmu.oam_transfer
            &&& self.mmu.oam_offset == copied / 2
            &&& self.dma_started
            &&& !self.dma_align
            &&& self.oam_write is Some <==> copied % 2 == 1
        } else {
            &&& copied == 512
            &&& !self.mmu.oam_transfer
        }
    }

    /// A read cycle and the write cycle after it copy one byte: the byte
    /// that the memory shows at the place of the page that the transfer has
    /// come to lands in the sprite memory at that place, no other byte of
    /// the sprite memory changes, and the transfer moves one place on, or is
    /// over after the last place.
    pub proof fn lemma_transfer_copies_a_byte(self, odd: bool, then_odd: bool)
        requires
            self.dma_started,
            !self.dma_align,
            self.oam_write is None,
            self.mmu.oam_offset < 256,
        ensures
            ({
                let at = self.mmu.oam_offset;
                let from = self.mmu.oam_page.wrapping_add(at);
                let read = self.dma_stepped(odd);
                let written = read.dma_stepped(then_odd);
                &&& read.oam_write == Some(self.mmu.cpu_byte(from))
                &&& read.ppu == self.ppu
                &&& written.ppu.oam == stored(self.ppu.oam, at as int, self.mmu.cpu_byte(from))
                &&& written.oam_write is None
                &&& written.mmu.oam_transfer == (self.mmu.oam_transfer && at < 255)
                &&& at < 255 ==> written.mmu.oam_offset == at + 1 && written.mmu.oam_page
                    == self.mmu.oam_page
                &&& written.cpu == self.cpu
            }),
    {
    }

    /// A dot of the picture unit touches neither the processor nor the
    /// sprite transfer, and leaves the cartridge in its slot.
    pub proof fn lemma_dot_keeps_transfer(self)
        ensures
            ({
                let next = self.ppu_ticked();
                &&& next.cpu == self.cpu
                &&& next.cycles_counter == self.cycles_counter
                &&& next.odd_cycle == self.odd_cycle
                &&& next.dma_started == self.dma_started
                &&& next.dma_align == self.dma_align
                &&& next.oam_write == self.oam_write
                &&& next.mmu.oam_transfer == self.mmu.oam_transfer
                &&& next.mmu.oam_offset == self.mmu.oam_offset
                &&& next.mmu.oam_page == self.mmu.oam_page
                &&& next.mmu.cart is Some == self.mmu.cart is Some
            }),
    {
        self.ppu.lemma_tick_registers(self.mmu, self.screen);
    }

    /// The ticks of the sound unit touch neither the processor nor the
    /// sprite transfer, and leave the cartridge in its slot.
    pub proof fn lemma_sound_keeps_transfer(self)
        ensures
            ({
                let next = self.apu_ticked_thrice().0;
                &&& next.cpu == self.cpu
                &&& next.cycles_counter == self.cycles_counter
                &&& next.odd_cycle == self.odd_cycle
                &&& next.dma_started == self.dma_started
                &&& next.dma_align == self.dma_align
                &&& next.oam_write == self.oam_write
                &&& next.mmu.oam_transfer == self.mmu.oam_transfer
                &&& next.mmu.oam_offset == self.mmu.oam_offset
                &&& next.mmu.oam_page == self.mmu.oam_page
                &&& next.mmu.cart == self.mmu.cart
            }),
    {
    }

    /// The three dots and three ticks of the units touch neither the
    /// processor nor the sprite transfer, and leave the cartridge in its slot.
    pub proof fn lemma_units_keep_transfer(self)
        ensures
            ({
                let next = self.units_ticked().0;
                &&& next.cpu == self.cpu
                &&& next.cycles_counter == self.cycles_counter
                &&& next.odd_cycle == self.odd_cycle
                &&& next.dma_started == self.dma_started
                &&& next.dma_align == self.dma_align
                &&& next.oam_write == self.oam_write
                &&& next.mmu.oam_transfer == self.mmu.oam_transfer
                &&& next.mmu.oam_offset == self.mmu.oam_offset
                &&& next.mmu.oam_page == self.mmu.oam_page
                &&& next.mmu.cart is Some == self.mmu.cart is Some
            }),
    {
        let d1 = self.ppu_ticked();
        self.lemma_dot_keeps_transfer();
        let d2 = d1.ppu_ticked();
        d1.lemma_dot_keeps_transfer();
        let d3 = d2.ppu_ticked();
        d2.lemma_dot_keeps_transfer();
        d3.lemma_sound_keeps_transfer();
    }

    /// One tick takes a transfer that is under way one cycle further.
    pub proof fn lemma_transfer_step(self, start: Self, k: nat)
        requires
            self.in_transfer(start, k),
            k < start.transfer_length(),
        ensures
            self.master_ticked().0.in_transfer(start, k + 1),
    {
        let stepped = self.cycle_stepped().0;
        assert(self.cycle_stepped().1 is Ok);
        stepped.lemma_units_keep_transfer();
        assert(self.master_ticked().0 == stepped.units_ticked().0);
    }

    /// `k` ticks take a transfer that was asked for `k` cycles far.
    pub proof fn lemma_transfer_progress(self, k: nat)
        requires
            self.transfer_requested(),
            k <= self.transfer_length(),
        ensures
            self.ticks(k).in_transfer(self, k),
        decreases k,
    {
        if k > 0 {
            self.lemma_transfer_progress((k - 1) as nat);
            self.ticks((k - 1) as nat).lemma_transfer_step(self, (k - 1) as nat);
        }
    }

    /// A sprite transfer takes exactly 513 cycles when it starts on an even
    /// cycle and 514 when it starts on an odd one. Through all of them the
    /// transfer is under way and the processor stands still, fetching no
    /// instruction; after the last the transfer is over.
    pub proof fn lemma_transfer_takes_513_or_514(self, k: nat)
        requires
            self.transfer_requested(),
            k < self.transfer_length(),
        ensures
            self.transfer_length() == (if self.odd_cycle {
                514nat
            } else {
                513nat
            }),
            self.ticks(k).mmu.oam_transfer,
            self.ticks(k).cpu == self.cpu,
            !self.ticks(self.transfer_length()).mmu.oam_transfer,
            self.ticks(self.transfer_length()).cpu == self.cpu,
    {
        self.lemma_transfer_progress(k);
        self.lemma_transfer_progress(self.transfer_length());
    }
}

} // verus!
