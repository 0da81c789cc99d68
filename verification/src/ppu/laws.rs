use super::{
    shows_background, shows_background_left, shows_sprites, shows_sprites_left, PPUMemory,
    PPURegisters, VideoInterface, LAST_DOT, LAST_SCANLINE, PPU,
};
use vstd::prelude::*;

verus! {

/// The number of dots in a scanline.
pub const LINE_DOTS: u32 = 341;

/// The number of dots in a frame.
pub const FRAME_DOTS: u32 = 341 * 262;

impl PPU {
    /// Whether the dot and scanline counters are in range.
    pub open spec fn in_frame(self) -> bool {
        self.dot <= LAST_DOT && self.scanline <= LAST_SCANLINE
    }

    /// Where in the frame the picture unit stands, counted in dots.
    pub open spec fn position(self) -> int {
        self.scanline * LINE_DOTS + self.dot
    }

    /// Loading the sprite patterns changes neither the counters nor the
    /// address registers.
    pub proof fn lemma_loading_keeps_counters<M: PPUMemory>(
        self,
        regs: PPURegisters,
        mem: M,
        n: int,
    )
        ensures
            ({
                let q = self.patterns_loaded(regs, mem, n);
                &&& q.dot == self.dot
                &&& q.scanline == self.scanline
                &&& q.sprite_count == self.sprite_count
                &&& q.sprite_zero_hit_possible == self.sprite_zero_hit_possible
            }),
        decreases n,
    {
        if n > 0 {
            self.lemma_loading_keeps_counters(regs, mem, n - 1);
        }
    }

    /// Acting on a register access leaves the picture unit where it stands.
    pub proof fn lemma_registers_keep_position<M: PPUMemory>(self, regs: PPURegisters, mem: M)
        ensures
            self.registers_served(regs, mem).0.dot == self.dot,
            self.registers_served(regs, mem).0.scanline == self.scanline,
            self.registers_served(regs, mem).1.ppu_mask == regs.ppu_mask,
            self.registers_served(regs, mem).1.ppu_ctrl == regs.ppu_ctrl,
    {
    }

    /// The work of a scanline's dot leaves the picture unit where it stands,
    /// and leaves PPUMASK as it is.
    pub proof fn lemma_line_keeps_position<M: PPUMemory>(self, regs: PPURegisters, mem: M)
        ensures
            self.line_served(regs, mem).0.dot == self.dot,
            self.line_served(regs, mem).0.scanline == self.scanline,
            self.line_served(regs, mem).1.ppu_mask == regs.ppu_mask,
    {
        if self.scanline <= 239 || self.scanline == 261 {
            let (p1, r1) = if self.scanline == 261 && self.dot == 1 {
                (
                    PPU {
                        fg_pattern_shift_hi: crate::bytes::zeros::<8>(),
                        fg_pattern_shift_lo: crate::bytes::zeros::<8>(),
                        ..self
                    },
                    PPURegisters { ppu_status: 0, ..regs },
                )
            } else {
                (self, regs)
            };
            let p2 = if p1.scanline == 1 && p1.dot == 1 {
                PPU { nmi: false, ..p1 }
            } else {
                p1
            };
            let shifted = if shows_background(r1.ppu_mask) {
                p2.background_shifted()
            } else {
                p2
            };
            shifted.lemma_clocking_keeps_counters(shifted.sprite_count as int);
            let p3 = p2.pipelines_clocked(r1, mem).scroll_updated(r1);
            assert(p3.dot == self.dot && p3.scanline == self.scanline);
            let (p4, r4) = if p3.dot == 257 && p3.scanline < 261 {
                p3.sprites_evaluated(r1)
            } else {
                (p3, r1)
            };
            p4.lemma_loading_keeps_counters(r4, mem, p4.sprite_count as int);
        }
    }

    /// Moving on takes the picture unit to the next position of the frame,
    /// and the last position is followed by the first.
    pub proof fn lemma_advanced_position(self)
        requires
            self.in_frame(),
        ensures
            self.advanced().position() == (self.position() + 1) % (FRAME_DOTS as int),
            self.advanced().in_frame(),
    {
    }

    /// A dot moves the picture unit to the next position of the frame, and
    /// the last position is followed by the first.
    pub proof fn lemma_tick_moves_on<M: PPUMemory, V: VideoInterface>(self, mem: M, video: V)
        requires
            self.in_frame(),
        ensures
            self.ticked(mem, video).0.position() == (self.position() + 1) % (FRAME_DOTS as int),
            self.ticked(mem, video).0.in_frame(),
    {
        reveal(PPU::ticked);
        let (p1, r1, m1) = self.registers_served(mem.register_file(), mem);
        self.lemma_registers_keep_position(mem.register_file(), mem);
        let (p2, r2) = p1.line_served(r1, m1);
        p1.lemma_line_keeps_position(r1, m1);
        let (p3, r3) = p2.pixel_composed(r2);
        assert(p3.dot == self.dot && p3.scanline == self.scanline);
        p3.lemma_advanced_position();
        assert(self.ticked(mem, video).0 == p3.advanced());
    }

    /// What a dot hands to the video sink: the end of the frame at the
    /// start of the vertical blank and at no other dot; the pixel at every
    /// dot of the picture, at its column and row; and nothing anywhere else.
    pub proof fn lemma_tick_output<M: PPUMemory, V: VideoInterface>(self, mem: M, video: V)
        ensures
            self.ticked(mem, video).2 == (if self.at_vblank_start() {
                video.presented()
            } else if self.in_picture() {
                video.drawn((self.dot - 1) as u16, self.scanline, self.pixel_shown(mem))
            } else {
                video
            }),
    {
        reveal(PPU::ticked);
        self.lemma_registers_keep_position(mem.register_file(), mem);
    }

    /// The memory that a dot leaves behind holds the register file that
    /// the dot leaves behind.
    pub proof fn lemma_tick_registers<M: PPUMemory, V: VideoInterface>(self, mem: M, video: V)
        ensures
            self.ticked(mem, video).1 == self.registers_served(
                mem.register_file(),
                mem,
            ).2.with_registers(self.registers_after(mem)),
    {
        reveal(PPU::ticked);
    }

    /// A sprite pixel is a color of 0 to 3 within its palette, and where it
    /// is not transparent its palette is one of the four sprite palettes.
    pub proof fn lemma_sprite_pixel_in_range(self, k: int)
        ensures
            self.sprite_pixel_from(k).pixel <= 3,
            self.sprite_pixel_from(k).pixel != 0 ==> 4 <= self.sprite_pixel_from(k).palette <= 7,
        decreases self.sprite_count - k,
    {
        if 0 <= k < self.sprite_count && self.sprite_dot(k) == 0 {
            self.lemma_sprite_pixel_in_range(k + 1);
        }
    }

    /// A pixel that is transparent in both layers shows the universal
    /// background color, entry 0 of the palette RAM, whatever palette the
    /// background names there; and no pixel shows the first entry of any
    /// other palette.
    pub proof fn lemma_transparent_shows_backdrop(self, mask: u8)
        ensures
            0 <= self.shown_entry(mask) < 32,
            self.background_pixel(mask) == 0 && self.sprite_pixel(mask).pixel == 0
                ==> self.shown_entry(mask) == 0,
            self.shown_entry(mask) % 4 == 0 ==> self.shown_entry(mask) == 0,
    {
        self.lemma_sprite_pixel_in_range(0);
    }

    /// The hit of sprite 0 is gated. If a dot sets bit 6 of PPUSTATUS, then
    /// both the background and the sprites are switched on, the dot is one
    /// of 1 to 257, and if it is one of the eight leftmost, 1 to 8, both
    /// layers are shown in the leftmost columns.
    pub proof fn lemma_sprite_zero_hit_is_gated<M: PPUMemory>(self, mem: M)
        requires
            mem.register_file().ppu_status & 0x40 == 0,
        ensures
            self.registers_after(mem).ppu_status & 0x40 != 0 ==> {
                let mask = mem.register_file().ppu_mask;
                &&& shows_background(mask)
                &&& shows_sprites(mask)
                &&& 1 <= self.dot < 258
                &&& self.dot <= 8 ==> shows_background_left(mask) && shows_sprites_left(mask)
            },
    {
        let regs = mem.register_file();
        let (p1, r1, m1) = self.registers_served(regs, mem);
        self.lemma_registers_keep_position(regs, mem);
        lemma_status_bits(regs.ppu_status);
        assert(r1.ppu_status & 0x40 == 0);
        let (p2, r2) = p1.line_served(r1, m1);
        p1.lemma_line_keeps_position(r1, m1);
        p1.lemma_line_keeps_hit_flag(r1, m1);
    }

    /// A dot consumes the note of the access to the registers: the register
    /// file that it leaves behind holds none.
    pub proof fn lemma_tick_consumes_access<M: PPUMemory>(self, mem: M)
        ensures
            self.registers_after(mem).last_access_from is None,
    {
        let regs = mem.register_file();
        let (p1, r1, m1) = self.registers_served(regs, mem);
        assert(r1.last_access_from is None);
        p1.lemma_line_keeps_access(r1, m1);
    }

    /// The work of a scanline's dot notes no access to the registers.
    pub proof fn lemma_line_keeps_access<M: PPUMemory>(self, regs: PPURegisters, mem: M)
        ensures
            self.line_served(regs, mem).1.last_access_from == regs.last_access_from,
    {
    }

    /// The work of a scanline's dot does not set bit 6 of PPUSTATUS.
    pub proof fn lemma_line_keeps_hit_flag<M: PPUMemory>(self, regs: PPURegisters, mem: M)
        requires
            regs.ppu_status & 0x40 == 0,
        ensures
            self.line_served(regs, mem).1.ppu_status & 0x40 == 0,
    {
        lemma_status_bits(regs.ppu_status);
        lemma_status_bits(0);
    }
}

/// Clearing bit 7 or setting bit 5 or bit 7 of a status leaves bit 6 as it
/// is, and setting bit 6 sets it.
pub proof fn lemma_status_bits(s: u8)
    by (bit_vector)
    ensures
        (s & 0x7f) & 0x40 == s & 0x40,
        (s | 0x20) & 0x40 == s & 0x40,
        (s | 0x80) & 0x40 == s & 0x40,
        (s | 0x40) & 0x40 != 0,
        0u8 & 0x40 == 0,
{
}

} // verus!
