pub mod laws;
pub mod memory_interface;
pub mod palette;
pub mod ppu_registers;
pub mod scroll;
pub mod sprites;
pub mod video_interface;

pub use memory_interface::PPUMemory;
pub use ppu_registers::PPURegisters;
pub use sprites::OAMEntry;
pub use video_interface::{Color, DummyVideo, VideoInterface};

use crate::bytes::{stored, zeros};
use palette::{
    palette_color, palette_entry, palette_written, read_palette, rgb_of, unpack, write_palette,
    FAULT_COLOR, PALETTE_SIZE, PALETTE_TABLE,
};
use scroll::{
    address_high_written, address_low_written, attribute_address, attribute_address_of,
    attribute_palette, attribute_palette_of, copy_horizontal, copy_vertical, data_incremented,
    horizontal_copied, increment_data, increment_x, increment_y, nametable_selected,
    pattern_address, pattern_address_of, scroll_x_incremented, scroll_x_written,
    scroll_y_incremented, scroll_y_written, select_nametable, tile_address, tile_address_of,
    vertical_copied, write_address_high, write_address_low, write_scroll_x, write_scroll_y,
    ADDRESS_MAX,
};
use sprites::{
    entry_at, get_entry, get_line_entry, reverse_bits, reversed, scan_sprites, scanned,
    sprite_pattern_address, sprite_pattern_address_of, LINE_OAM_SIZE, LINE_SPRITES, OAM_SIZE,
    SPRITES,
};
use crate::text::{
    binary_byte, decimal, hex_byte, push_binary_byte, push_decimal, push_hex_byte,
    push_two_digits, two_digits,
};
use vstd::prelude::*;
use vstd::string::StringExecFns;

verus! {

/// The last dot of a scanline.
pub const LAST_DOT: u16 = 340;

/// The last scanline of a frame, the pre-render line.
pub const LAST_SCANLINE: u16 = 261;

/// The scanline on which the vertical blank starts.
pub const VBLANK_SCANLINE: u16 = 241;

/// The picture unit.
pub struct PPU {
    // Scrolling registers
    pub vram_addr: u16,
    pub t_addr: u16,
    pub fine_x: u8,
    pub second_write: bool,
    /// What a read through PPUDATA returns next from below the palette.
    pub read_buffer: u8,
    /// Whether the last write to PPUCTRL asked for an NMI at vertical blank.
    pub nmi_enabled: bool,
    // VRAM
    pub palette_ram: [u8; PALETTE_SIZE],
    pub oam: [u8; OAM_SIZE],
    // BG rendering registers
    pub next_bg_tile_id: u8,
    pub next_bg_palette: u8,
    pub next_bg_lsb: u8,
    pub next_bg_msb: u8,
    pub pattern_shift_high: u16,
    pub pattern_shift_low: u16,
    pub palette_shift_high: u16,
    pub palette_shift_low: u16,
    // FG rendering registers
    pub scanline_sprites: [u8; LINE_OAM_SIZE],
    pub sprite_count: u32,
    pub fg_pattern_shift_hi: [u8; LINE_SPRITES],
    pub fg_pattern_shift_lo: [u8; LINE_SPRITES],
    // Sprite zero hit
    pub sprite_zero_hit_possible: bool,
    pub sprite_zero_rendering: bool,
    pub dot: u16,
    pub scanline: u16,
    pub frame: u64,
    pub nmi: bool,
}

/// What of the picture unit a saved game keeps.
#[derive(Clone, Copy)]
pub struct PPUSaveState {
    pub palette_ram: [u8; PALETTE_SIZE],
    pub oam: [u8; OAM_SIZE],
}

/// The pixel that the sprites contribute to a dot.
#[derive(Debug, Clone, Copy, PartialEq, Eq, Structural)]
pub struct SpritePixel {
    /// The color within the palette, 1 to 3, or 0 for no sprite pixel.
    pub pixel: u8,
    pub palette: u8,
    /// Whether the sprite lies in front of the background.
    pub in_front: bool,
    /// Whether the pixel belongs to the first sprite of the scanline.
    pub first: bool,
}

/// No sprite pixel.
pub open spec fn no_sprite_pixel() -> SpritePixel {
    SpritePixel { pixel: 0, palette: 0, in_front: false, first: false }
}

/// Whether the background is shown at all (bit 3 of PPUMASK).
pub open spec fn shows_background(mask: u8) -> bool {
    mask & 0x08 != 0
}

/// Whether sprites are shown at all (bit 4 of PPUMASK).
pub open spec fn shows_sprites(mask: u8) -> bool {
    mask & 0x10 != 0
}

/// Whether anything is rendered.
pub open spec fn rendering(mask: u8) -> bool {
    mask & 0x18 != 0
}

/// Whether the background is shown in the eight leftmost columns (bit 1).
pub open spec fn shows_background_left(mask: u8) -> bool {
    mask & 0x02 != 0
}

/// Whether sprites are shown in the eight leftmost columns (bit 2).
pub open spec fn shows_sprites_left(mask: u8) -> bool {
    mask & 0x04 != 0
}

/// A shift register with `byte` loaded into its low half.
pub open spec fn low_loaded(shift: u16, byte: u8) -> u16 {
    (shift & 0xff00) | byte as u16
}

/// A palette shift register with bit `bit` of the palette number spread
/// over its low half.
pub open spec fn low_spread(shift: u16, palette: u8, bit: u8) -> u16 {
    (shift & 0xff00) | (if palette & bit != 0 {
        0xffu16
    } else {
        0x00u16
    })
}

/// The bit of a shift register that fine x selects, as 0 or 1.
pub open spec fn tap(shift: u16, fine_x: u8) -> u8 {
    if shift & (0x8000u16 >> fine_x) != 0 {
        1
    } else {
        0
    }
}

/// The top bit of a sprite shift register, as 0 or 1.
pub open spec fn top_bit(shift: u8) -> u8 {
    if shift & 0x80 != 0 {
        1
    } else {
        0
    }
}

impl PPU {
    /// The counters are in range and the address registers hold fifteen
    /// bits.
    pub open spec fn wf(&self) -> bool {
        &&& self.dot <= LAST_DOT
        &&& self.scanline <= LAST_SCANLINE
        &&& self.sprite_count <= LINE_SPRITES
        &&& self.fine_x <= 7
        &&& self.vram_addr <= ADDRESS_MAX
        &&& self.t_addr <= ADDRESS_MAX
    }

    /// The picture unit at power-on: everything zero, standing at the start
    /// of the pre-render line.
    pub open spec fn initial() -> PPU {
        PPU {
            vram_addr: 0,
            t_addr: 0,
            fine_x: 0,
            second_write: false,
            read_buffer: 0,
            nmi_enabled: false,
            palette_ram: zeros::<PALETTE_SIZE>(),
            oam: zeros::<OAM_SIZE>(),
            next_bg_tile_id: 0,
            next_bg_palette: 0,
            next_bg_lsb: 0,
            next_bg_msb: 0,
            pattern_shift_high: 0,
            pattern_shift_low: 0,
            palette_shift_high: 0,
            palette_shift_low: 0,
            scanline_sprites: zeros::<LINE_OAM_SIZE>(),
            sprite_count: 0,
            fg_pattern_shift_hi: zeros::<LINE_SPRITES>(),
            fg_pattern_shift_lo: zeros::<LINE_SPRITES>(),
            sprite_zero_hit_possible: false,
            sprite_zero_rendering: false,
            dot: 0,
            scanline: 261,
            frame: 0,
            nmi: false,
        }
    }

    // ----- the picture unit's view of video memory -----

    /// The byte at `addr` of video memory: pattern and nametable memory
    /// come from `mem`, `0x3000..=0x3EFF` shows the nametables again, the
    /// palette lies at `0x3F00..=0x3FFF`, and nothing lies above.
    pub open spec fn vram_byte<M: PPUMemory>(self, mem: M, addr: u16) -> u8 {
        if addr <= 0x2fff {
            mem.ppu_byte(addr)
        } else if addr <= 0x3eff {
            mem.ppu_byte((addr - 0x1000) as u16)
        } else if addr <= 0x3fff {
            palette_color(self.palette_ram, palette_entry(addr))
        } else {
            0xff
        }
    }

    /// The picture unit and memory once `v` has been written to `addr` of
    /// video memory.
    pub open spec fn vram_written<M: PPUMemory>(self, mem: M, addr: u16, v: u8) -> (PPU, M) {
        if addr <= 0x2fff {
            (self, mem.after_ppu_write(addr, v))
        } else if addr <= 0x3eff {
            (self, mem.after_ppu_write((addr - 0x1000) as u16, v))
        } else if addr <= 0x3fff {
            (
                PPU {
                    palette_ram: palette_written(self.palette_ram, palette_entry(addr), v),
                    ..self
                },
                mem,
            )
        } else {
            (self, mem)
        }
    }

    /// What a read through PPUDATA leaves in the read buffer: the byte at
    /// the address register, or, where that points into the palette, the
    /// nametable byte that lies beneath it.
    pub open spec fn buffered<M: PPUMemory>(self, mem: M) -> u8 {
        if 0x3f00 <= self.vram_addr <= 0x3fff {
            mem.ppu_byte((self.vram_addr - 0x1000) as u16)
        } else {
            self.vram_byte(mem, self.vram_addr)
        }
    }

    /// What the processor reads from PPUDATA next: a palette entry at once,
    /// anything else from the read buffer.
    pub open spec fn data_port(self) -> u8 {
        if 0x3f00 <= self.vram_addr <= 0x3fff {
            palette_color(self.palette_ram, palette_entry(self.vram_addr))
        } else {
            self.read_buffer
        }
    }

    // ----- what an access to a register does, one dot later -----

    /// PPUCTRL written: its low two bits choose the nametable of `t`, and
    /// switching the NMI on while the vertical blank flag is set raises an
    /// NMI at once.
    pub open spec fn control_written(self, regs: PPURegisters) -> PPU {
        let enabled = regs.ppu_ctrl & 0x80 != 0;
        PPU {
            t_addr: nametable_selected(self.t_addr, regs.ppu_ctrl),
            nmi: self.nmi || (enabled && !self.nmi_enabled && regs.ppu_status & 0x80 != 0),
            nmi_enabled: enabled,
            ..self
        }
    }

    /// PPUSCROLL written: the first write sets the horizontal scroll, the
    /// second the vertical.
    pub open spec fn scroll_written(self, regs: PPURegisters) -> PPU {
        if !self.second_write {
            PPU {
                t_addr: scroll_x_written(self.t_addr, regs.ppu_scroll),
                fine_x: regs.ppu_scroll % 8,
                second_write: true,
                ..self
            }
        } else {
            PPU {
                t_addr: scroll_y_written(self.t_addr, regs.ppu_scroll),
                second_write: false,
                ..self
            }
        }
    }

    /// PPUADDR written: the first write sets the high byte of `t`, the
    /// second the low byte, after which `t` becomes the address register and
    /// the read buffer is primed.
    pub open spec fn address_written<M: PPUMemory>(self, regs: PPURegisters, mem: M) -> PPU {
        if !self.second_write {
            PPU {
                t_addr: address_high_written(self.t_addr, regs.ppu_addr),
                second_write: true,
                ..self
            }
        } else {
            let t = address_low_written(self.t_addr, regs.ppu_addr);
            let moved = PPU { t_addr: t, vram_addr: t, second_write: false, ..self };
            PPU { read_buffer: moved.buffered(mem), ..moved }
        }
    }

    /// PPUDATA read or written: a write stores the byte at the address
    /// register; either way the read buffer is filled from there and the
    /// address register moves on.
    pub open spec fn data_accessed<M: PPUMemory>(
        self,
        regs: PPURegisters,
        mem: M,
        is_write: bool,
    ) -> (PPU, M) {
        let (p1, m1) = if is_write {
            self.vram_written(mem, self.vram_addr, regs.ppu_data)
        } else {
            (self, mem)
        };
        (
            PPU {
                read_buffer: p1.buffered(m1),
                vram_addr: data_incremented(p1.vram_addr, regs.ppu_ctrl),
                ..p1
            },
            m1,
        )
    }

    /// The picture unit, the registers and the memory once the access that
    /// the registers note has been acted on. The note is consumed.
    pub open spec fn registers_served<M: PPUMemory>(self, regs: PPURegisters, mem: M) -> (
        PPU,
        PPURegisters,
        M,
    ) {
        let taken = PPURegisters { last_access_from: None, ..regs };
        match regs.last_access_from {
            Some((index, is_write)) => {
                if index == 0 && is_write {
                    (self.control_written(regs), taken, mem)
                } else if index == 2 && !is_write {
                    (
                        PPU { second_write: false, ..self },
                        PPURegisters { ppu_status: regs.ppu_status & 0x7f, ..taken },
                        mem,
                    )
                } else if index == 3 && is_write {
                    (self, PPURegisters { oam_data: self.oam[regs.oam_addr as int], ..taken }, mem)
                } else if index == 4 && is_write {
                    (
                        PPU { oam: stored(self.oam, regs.oam_addr as int, regs.oam_data), ..self },
                        PPURegisters { oam_addr: regs.oam_addr.wrapping_add(1), ..taken },
                        mem,
                    )
                } else if index == 5 && is_write {
                    (self.scroll_written(regs), taken, mem)
                } else if index == 6 && is_write {
                    let p = self.address_written(regs, mem);
                    (
                        p,
                        if self.second_write {
                            PPURegisters { ppu_data: p.data_port(), ..taken }
                        } else {
                            taken
                        },
                        mem,
                    )
                } else if index == 7 {
                    let (p, m) = self.data_accessed(regs, mem, is_write);
                    (p, PPURegisters { ppu_data: p.data_port(), ..taken }, m)
                } else {
                    (self, taken, mem)
                }
            },
            None => (self, taken, mem),
        }
    }

    // ----- the background pipeline -----

    /// Whether the background pipeline runs at the current dot.
    pub open spec fn fetching(self) -> bool {
        2 <= self.dot < 258 || 321 <= self.dot < 338
    }

    /// The four background shift registers moved on by one pixel.
    pub open spec fn background_shifted(self) -> PPU {
        PPU {
            palette_shift_high: self.palette_shift_high << 1,
            palette_shift_low: self.palette_shift_low << 1,
            pattern_shift_high: self.pattern_shift_high << 1,
            pattern_shift_low: self.pattern_shift_low << 1,
            ..self
        }
    }

    /// The next tile's pattern and palette loaded into the low halves of
    /// the shift registers.
    pub open spec fn shifters_loaded(self) -> PPU {
        PPU {
            pattern_shift_low: low_loaded(self.pattern_shift_low, self.next_bg_lsb),
            pattern_shift_high: low_loaded(self.pattern_shift_high, self.next_bg_msb),
            palette_shift_low: low_spread(self.palette_shift_low, self.next_bg_palette, 0b01),
            palette_shift_high: low_spread(self.palette_shift_high, self.next_bg_palette, 0b10),
            ..self
        }
    }

    /// Sprite `k` of the scanline moved on by one pixel: it counts down to
    /// its column, and from there on shifts its pattern out.
    pub open spec fn sprite_clocked(self, k: int) -> PPU {
        if self.scanline_sprites[4 * k + 3] > 0 {
            PPU {
                scanline_sprites: stored(
                    self.scanline_sprites,
                    4 * k + 3,
                    (self.scanline_sprites[4 * k + 3] - 1) as u8,
                ),
                ..self
            }
        } else {
            PPU {
                fg_pattern_shift_hi: stored(
                    self.fg_pattern_shift_hi,
                    k,
                    self.fg_pattern_shift_hi[k] << 1,
                ),
                fg_pattern_shift_lo: stored(
                    self.fg_pattern_shift_lo,
                    k,
                    self.fg_pattern_shift_lo[k] << 1,
                ),
                ..self
            }
        }
    }

    /// The first `n` sprites of the scanline moved on by one pixel.
    pub open spec fn sprites_clocked(self, n: int) -> PPU
        decreases n,
    {
        if n <= 0 {
            self
        } else {
            self.sprites_clocked(n - 1).sprite_clocked(n - 1)
        }
    }

    /// The fetch that falls on the current dot: every eight dots the shift
    /// registers are loaded and the tile number fetched, then the attribute,
    /// the low plane and the high plane, and at the end of the tile the
    /// address register moves one tile to the right.
    pub open spec fn fetched<M: PPUMemory>(self, regs: PPURegisters, mem: M) -> PPU {
        let phase = (self.dot - 1) % 8;
        if phase == 7 {
            if rendering(regs.ppu_mask) {
                PPU { vram_addr: scroll_x_incremented(self.vram_addr), ..self }
            } else {
                self
            }
        } else if phase == 0 {
            let loaded = self.shifters_loaded();
            PPU {
                next_bg_tile_id: loaded.vram_byte(mem, tile_address(loaded.vram_addr)),
                ..loaded
            }
        } else if phase == 2 {
            PPU {
                next_bg_palette: attribute_palette(
                    self.vram_byte(mem, attribute_address(self.vram_addr)),
                    self.vram_addr,
                ),
                ..self
            }
        } else if phase == 4 {
            PPU {
                next_bg_lsb: self.vram_byte(
                    mem,
                    pattern_address(regs.ppu_ctrl, self.next_bg_tile_id, self.vram_addr, false),
                ),
                ..self
            }
        } else if phase == 6 {
            PPU {
                next_bg_msb: self.vram_byte(
                    mem,
                    pattern_address(regs.ppu_ctrl, self.next_bg_tile_id, self.vram_addr, true),
                ),
                ..self
            }
        } else {
            self
        }
    }

    /// The pipelines moved on by one dot, where they run.
    pub open spec fn pipelines_clocked<M: PPUMemory>(self, regs: PPURegisters, mem: M) -> PPU {
        if self.fetching() {
            let p1 = if shows_background(regs.ppu_mask) {
                self.background_shifted()
            } else {
                self
            };
            let p2 = if shows_sprites(regs.ppu_mask) && self.dot < 258 {
                p1.sprites_clocked(p1.sprite_count as int)
            } else {
                p1
            };
            p2.fetched(regs, mem)
        } else {
            self
        }
    }

    /// What the ends of a scanline do to the scroll: at dot 256 the address
    /// register moves one pixel row down, at dot 257 it takes the horizontal
    /// position of `t`, and on dots 280 to 304 of the pre-render line the
    /// vertical one. All of it only while something is rendered.
    pub open spec fn scroll_updated(self, regs: PPURegisters) -> PPU {
        let p1 = if self.dot == 256 && rendering(regs.ppu_mask) {
            PPU { vram_addr: scroll_y_incremented(self.vram_addr), ..self }
        } else {
            self
        };
        let p2 = if p1.dot == 257 && rendering(regs.ppu_mask) {
            let loaded = p1.shifters_loaded();
            PPU { vram_addr: horizontal_copied(loaded.vram_addr, loaded.t_addr), ..loaded }
        } else {
            p1
        };
        if p2.scanline == 261 && 280 <= p2.dot < 305 && rendering(regs.ppu_mask) {
            PPU { vram_addr: vertical_copied(p2.vram_addr, p2.t_addr), ..p2 }
        } else {
            p2
        }
    }

    // ----- the sprite pipeline -----

    /// How tall the sprites are: sixteen lines if bit 5 of PPUCTRL is set,
    /// else eight.
    pub open spec fn sprite_height(ctrl: u8) -> u16 {
        if ctrl & 0x20 != 0 {
            16
        } else {
            8
        }
    }

    /// The sprites for the next scanline chosen: up to eight of those that
    /// cover the current scanline. A ninth sets the overflow flag.
    pub open spec fn sprites_evaluated(self, regs: PPURegisters) -> (PPU, PPURegisters) {
        let found = scanned(self.oam, self.scanline, Self::sprite_height(regs.ppu_ctrl), 64);
        (
            PPU {
                scanline_sprites: found.sprites,
                sprite_count: if found.count > 8 {
                    8
                } else {
                    found.count
                },
                sprite_zero_hit_possible: found.zero_found,
                ..self
            },
            if found.count > 8 {
                PPURegisters { ppu_status: regs.ppu_status | 0x20, ..regs }
            } else {
                regs
            },
        )
    }

    /// One bit plane of the pattern row of sprite `e` for the current
    /// scanline, reversed if the sprite is mirrored left to right.
    pub open spec fn sprite_plane<M: PPUMemory>(
        self,
        regs: PPURegisters,
        mem: M,
        e: OAMEntry,
        high: bool,
    ) -> u8 {
        let low_addr = sprite_pattern_address(regs.ppu_ctrl, e, self.scanline);
        let byte = mem.ppu_byte(
            if high {
                (low_addr + 8) as u16
            } else {
                low_addr
            },
        );
        if e.flipped_horizontally() {
            reversed(byte)
        } else {
            byte
        }
    }

    /// The pattern rows of the first `n` sprites of the scanline loaded into
    /// their shift registers.
    pub open spec fn patterns_loaded<M: PPUMemory>(self, regs: PPURegisters, mem: M, n: int) -> PPU
        decreases n,
    {
        if n <= 0 {
            self
        } else {
            let p = self.patterns_loaded(regs, mem, n - 1);
            let e = entry_at(p.scanline_sprites, n - 1);
            PPU {
                fg_pattern_shift_hi: stored(
                    p.fg_pattern_shift_hi,
                    n - 1,
                    p.sprite_plane(regs, mem, e, true),
                ),
                fg_pattern_shift_lo: stored(
                    p.fg_pattern_shift_lo,
                    n - 1,
                    p.sprite_plane(regs, mem, e, false),
                ),
                ..p
            }
        }
    }

    /// The pixel of sprite `k` of the scanline at the current dot; 0 while
    /// the sprite has not reached its column.
    pub open spec fn sprite_dot(self, k: int) -> u8 {
        if self.scanline_sprites[4 * k + 3] == 0 {
            (2 * top_bit(self.fg_pattern_shift_hi[k]) + top_bit(self.fg_pattern_shift_lo[k])) as u8
        } else {
            0
        }
    }

    /// The pixel of the first sprite, from sprite `k` of the scanline on,
    /// that is not transparent at the current dot.
    pub open spec fn sprite_pixel_from(self, k: int) -> SpritePixel
        decreases self.sprite_count - k,
    {
        if k < 0 || k >= self.sprite_count {
            no_sprite_pixel()
        } else if self.sprite_dot(k) != 0 {
            let e = entry_at(self.scanline_sprites, k);
            SpritePixel {
                pixel: self.sprite_dot(k),
                palette: e.palette(),
                in_front: e.in_front(),
                first: k == 0,
            }
        } else {
            self.sprite_pixel_from(k + 1)
        }
    }

    /// The pixel that the sprites contribute to the current dot.
    pub open spec fn sprite_pixel(self, mask: u8) -> SpritePixel {
        if shows_sprites(mask) {
            self.sprite_pixel_from(0)
        } else {
            no_sprite_pixel()
        }
    }

    // ----- the picture -----

    /// The color within its palette of the background at the current dot;
    /// 0 where the background is switched off or hidden at the left edge.
    pub open spec fn background_pixel(self, mask: u8) -> u8 {
        if shows_background(mask) && (self.dot > 8 || shows_background_left(mask)) {
            (2 * tap(self.pattern_shift_high, self.fine_x) + tap(
                self.pattern_shift_low,
                self.fine_x,
            )) as u8
        } else {
            0
        }
    }

    /// The palette of the background at the current dot.
    pub open spec fn background_palette(self, mask: u8) -> u8 {
        if shows_background(mask) && (self.dot > 8 || shows_background_left(mask)) {
            (2 * tap(self.palette_shift_high, self.fine_x) + tap(
                self.palette_shift_low,
                self.fine_x,
            )) as u8
        } else {
            0
        }
    }

    /// The entry of the palette RAM that is shown at the current dot. Where
    /// both layers are transparent it is entry 0, the universal background
    /// color. Where one is, the other shows. Where neither is, the sprite
    /// shows if it lies in front, else the background.
    pub open spec fn shown_entry(self, mask: u8) -> int {
        let bg = self.background_pixel(mask);
        let fg = self.sprite_pixel(mask);
        if bg == 0 && fg.pixel == 0 {
            0
        } else if bg == 0 {
            fg.palette * 4 + fg.pixel
        } else if fg.pixel == 0 {
            self.background_palette(mask) * 4 + bg
        } else if fg.in_front {
            fg.palette * 4 + fg.pixel
        } else {
            self.background_palette(mask) * 4 + bg
        }
    }

    /// Whether the first sprite of the sprite memory meets the background
    /// at the current dot: both layers are switched on and opaque here, the
    /// sprite pixel is sprite 0's, the dot is one of 1 to 257, and in the
    /// eight leftmost columns both layers are shown there.
    pub open spec fn sprite_zero_hits(self, mask: u8) -> bool {
        &&& self.background_pixel(mask) != 0
        &&& self.sprite_pixel(mask).pixel != 0
        &&& self.sprite_zero_hit_possible
        &&& self.sprite_pixel(mask).first
        &&& shows_background(mask)
        &&& shows_sprites(mask)
        &&& 1 <= self.dot < 258
        &&& (self.dot >= 9 || (shows_background_left(mask) && shows_sprites_left(mask)))
    }

    /// The picture unit and the registers once the pixel of the current dot
    /// has been composed: a hit of sprite 0 sets bit 6 of PPUSTATUS.
    pub open spec fn pixel_composed(self, regs: PPURegisters) -> (PPU, PPURegisters) {
        (
            if shows_sprites(regs.ppu_mask) {
                PPU { sprite_zero_rendering: self.sprite_pixel(regs.ppu_mask).first, ..self }
            } else {
                self
            },
            if self.sprite_zero_hits(regs.ppu_mask) {
                PPURegisters { ppu_status: regs.ppu_status | 0x40, ..regs }
            } else {
                regs
            },
        )
    }

    /// Whether the current dot is a pixel of the picture.
    pub open spec fn in_picture(self) -> bool {
        self.scanline < 240 && 1 <= self.dot <= 256
    }

    /// Whether the vertical blank starts at the current dot.
    pub open spec fn at_vblank_start(self) -> bool {
        self.scanline == VBLANK_SCANLINE && self.dot == 1
    }

    // ----- the scanlines -----

    /// What a dot of a visible scanline, or of the pre-render line, does
    /// before the pixel is composed.
    pub open spec fn rendered<M: PPUMemory>(self, regs: PPURegisters, mem: M) -> (
        PPU,
        PPURegisters,
    ) {
        let (p1, r1) = if self.scanline == 261 && self.dot == 1 {
            (
                PPU {
                    fg_pattern_shift_hi: zeros::<LINE_SPRITES>(),
                    fg_pattern_shift_lo: zeros::<LINE_SPRITES>(),
                    ..self
                },
                PPURegisters { ppu_status: 0, ..regs },
            )
        } else {
            (self, regs)
        };
        let p2 = if p1.scanline == 1 && p1.dot == 1 {
            PPU { nmi: false, ..p1 }
        } else {
            p1
        };
        let p3 = p2.pipelines_clocked(r1, mem).scroll_updated(r1);
        let (p4, r4) = if p3.dot == 257 && p3.scanline < 261 {
            p3.sprites_evaluated(r1)
        } else {
            (p3, r1)
        };
        let p5 = if p4.dot == 340 {
            p4.patterns_loaded(r4, mem, p4.sprite_count as int)
        } else {
            p4
        };
        (p5, r4)
    }

    /// What a dot does before the pixel is composed: the rendering on the
    /// visible scanlines and the pre-render line, nothing on scanline 240,
    /// and at dot 1 of scanline 241 the start of the vertical blank, with an
    /// NMI if bit 7 of PPUCTRL asks for one.
    pub open spec fn line_served<M: PPUMemory>(self, regs: PPURegisters, mem: M) -> (
        PPU,
        PPURegisters,
    ) {
        if self.scanline <= 239 || self.scanline == 261 {
            self.rendered(regs, mem)
        } else if self.at_vblank_start() {
            (
                PPU { nmi: self.nmi || regs.ppu_ctrl & 0x80 != 0, ..self },
                PPURegisters { ppu_status: regs.ppu_status | 0x80, ..regs },
            )
        } else {
            (self, regs)
        }
    }

    /// The picture unit moved on to the next dot: 341 dots make a scanline,
    /// 262 scanlines a frame.
    pub open spec fn advanced(self) -> PPU {
        if self.dot < LAST_DOT {
            PPU { dot: (self.dot + 1) as u16, ..self }
        } else if self.scanline < LAST_SCANLINE {
            PPU { dot: 0, scanline: (self.scanline + 1) as u16, ..self }
        } else {
            PPU { dot: 0, scanline: 0, frame: self.frame.wrapping_add(1), ..self }
        }
    }

    /// What the video sink is handed at the current dot: the end of the
    /// frame at the start of the vertical blank, and the pixel of every dot
    /// of the picture. `shown` is the picture unit after the dot's work.
    pub open spec fn output<V: VideoInterface>(self, shown: PPU, mask: u8, video: V) -> V {
        let v1 = if self.at_vblank_start() {
            video.presented()
        } else {
            video
        };
        if self.in_picture() {
            v1.drawn(
                (self.dot - 1) as u16,
                self.scanline,
                rgb_of(palette_color(shown.palette_ram, shown.shown_entry(mask))),
            )
        } else {
            v1
        }
    }

    /// The register file as one dot leaves it.
    pub open spec fn registers_after<M: PPUMemory>(self, mem: M) -> PPURegisters {
        let (p1, r1, m1) = self.registers_served(mem.register_file(), mem);
        let (p2, r2) = p1.line_served(r1, m1);
        p2.pixel_composed(r2).1
    }

    /// The color of the pixel that one dot composes.
    pub open spec fn pixel_shown<M: PPUMemory>(self, mem: M) -> Color {
        let (p1, r1, m1) = self.registers_served(mem.register_file(), mem);
        let (p2, r2) = p1.line_served(r1, m1);
        rgb_of(palette_color(p2.palette_ram, p2.shown_entry(r2.ppu_mask)))
    }

    /// One dot: the access that the registers note is acted on, the
    /// scanline's work for this dot is done, the pixel is composed and
    /// handed to the video sink, and the picture unit moves on to the next
    /// dot.
    #[verifier::opaque]
    pub open spec fn ticked<M: PPUMemory, V: VideoInterface>(self, mem: M, video: V) -> (
        PPU,
        M,
        V,
    ) {
        let (p1, r1, m1) = self.registers_served(mem.register_file(), mem);
        let (p2, r2) = p1.line_served(r1, m1);
        let (p3, r3) = p2.pixel_composed(r2);
        (p3.advanced(), m1.with_registers(r3), p1.output(p2, r2.ppu_mask, video))
    }

    // ----- the picture unit itself -----

    pub fn save_state(&self) -> (s: PPUSaveState)
        ensures
            s.palette_ram == self.palette_ram,
            s.oam == self.oam,
    {
        PPUSaveState { palette_ram: self.palette_ram, oam: self.oam }
    }

    pub fn load_state(&mut self, s: PPUSaveState)
        ensures
            *final(self) == (PPU { palette_ram: s.palette_ram, oam: s.oam, ..*old(self) }),
    {
        self.palette_ram = s.palette_ram;
        self.oam = s.oam;
    }

    pub fn read_palette_ram(&self, i: usize) -> (v: u8)
        requires
            i < PALETTE_SIZE,
        ensures
            v == palette_color(self.palette_ram, i as int),
    {
        read_palette(&self.palette_ram, i)
    }

    pub fn write_palette_ram(&mut self, i: usize, v: u8)
        requires
            i < PALETTE_SIZE,
        ensures
            *final(self) == (PPU {
                palette_ram: palette_written(old(self).palette_ram, i as int, v),
                ..*old(self)
            }),
    {
        write_palette(&mut self.palette_ram, i, v);
    }

    pub fn write_vram<M: PPUMemory>(&mut self, addr: u16, v: u8, chr: &mut M)
        requires
            old(chr).ppu_usable(),
        ensures
            (*final(self), *final(chr)) == old(self).vram_written(*old(chr), addr, v),
            final(chr).ppu_usable(),
    {
        if addr <= 0x2fff {
            chr.write_ppu(addr, v);
        } else if addr <= 0x3eff {
            chr.write_ppu(addr - 0x1000, v);
        } else if addr <= 0x3fff {
            write_palette(&mut self.palette_ram, (addr - 0x3f00) as usize % 0x20, v);
        }
    }

    pub fn read_vram<M: PPUMemory>(&self, addr: u16, chr: &M) -> (v: u8)
        requires
            chr.ppu_usable(),
        ensures
            v == self.vram_byte(*chr, addr),
    {
        if addr <= 0x2fff {
            chr.read_ppu(addr)
        } else if addr <= 0x3eff {
            // Mirror
            chr.read_ppu(addr - 0x1000)
        } else if addr <= 0x3fff {
            read_palette(&self.palette_ram, (addr - 0x3f00) as usize % 0x20)
        } else {
            0xff
        }
    }

    fn fill_buffer<M: PPUMemory>(&self, chr: &M) -> (v: u8)
        requires
            chr.ppu_usable(),
        ensures
            v == self.buffered(*chr),
    {
        if 0x3f00 <= self.vram_addr && self.vram_addr <= 0x3fff {
            chr.read_ppu(self.vram_addr - 0x1000)
        } else {
            self.read_vram(self.vram_addr, chr)
        }
    }

    fn data_port_value(&self) -> (v: u8)
        ensures
            v == self.data_port(),
    {
        if 0x3f00 <= self.vram_addr && self.vram_addr <= 0x3fff {
            read_palette(&self.palette_ram, (self.vram_addr - 0x3f00) as usize % 0x20)
        } else {
            self.read_buffer
        }
    }

    /// Acts on the access to a register that the processor made last.
    pub fn update_from_registers<M: PPUMemory>(&mut self, regs: &mut PPURegisters, chr: &mut M)
        requires
            old(self).wf(),
            old(chr).ppu_usable(),
        ensures
            (*final(self), *final(regs), *final(chr)) == old(self).registers_served(
                *old(regs),
                *old(chr),
            ),
            final(self).wf(),
            final(chr).ppu_usable(),
    {
        let access = regs.last_access_from;
        regs.last_access_from = None;
        match access {
            Some((index, is_write)) => {
                if index == 0 && is_write {
                    let enabled = regs.ppu_ctrl & 0x80 != 0;
                    self.t_addr = select_nametable(self.t_addr, regs.ppu_ctrl);
                    if enabled && !self.nmi_enabled && regs.ppu_status & 0x80 != 0 {
                        self.nmi = true;
                    }
                    self.nmi_enabled = enabled;
                } else if index == 2 && !is_write {
                    self.second_write = false;
                    regs.ppu_status = regs.ppu_status & 0x7f;
                } else if index == 3 && is_write {
                    regs.oam_data = self.oam[regs.oam_addr as usize];
                } else if index == 4 && is_write {
                    self.oam[regs.oam_addr as usize] = regs.oam_data;
                    regs.oam_addr = regs.oam_addr.wrapping_add(1);
                } else if index == 5 && is_write {
                    if !self.second_write {
                        self.t_addr = write_scroll_x(self.t_addr, regs.ppu_scroll);
                        self.fine_x = regs.ppu_scroll % 8;
                        self.second_write = true;
                    } else {
                        self.t_addr = write_scroll_y(self.t_addr, regs.ppu_scroll);
                        self.second_write = false;
                    }
                } else if index == 6 && is_write {
                    if !self.second_write {
                        self.t_addr = write_address_high(self.t_addr, regs.ppu_addr);
                        self.second_write = true;
                    } else {
                        self.t_addr = write_address_low(self.t_addr, regs.ppu_addr);
                        self.second_write = false;
                        self.vram_addr = self.t_addr;
                        self.read_buffer = self.fill_buffer(chr);
                        regs.ppu_data = self.data_port_value();
                    }
                } else if index == 7 {
                    if is_write {
                        self.write_vram(self.vram_addr, regs.ppu_data, chr);
                    }
                    self.read_buffer = self.fill_buffer(chr);
                    self.vram_addr = increment_data(self.vram_addr, regs.ppu_ctrl);
                    regs.ppu_data = self.data_port_value();
                }
            },
            None => {},
        }
    }

    fn load_shifters(&mut self)
        ensures
            *final(self) == old(self).shifters_loaded(),
    {
        self.pattern_shift_low = (self.pattern_shift_low & 0xff00) | self.next_bg_lsb as u16;
        self.pattern_shift_high = (self.pattern_shift_high & 0xff00) | self.next_bg_msb as u16;
        self.palette_shift_low = (self.palette_shift_low & 0xff00) | (if self.next_bg_palette
            & 0b01 != 0 {
            0xff
        } else {
            0x00
        });
        self.palette_shift_high = (self.palette_shift_high & 0xff00) | (if self.next_bg_palette
            & 0b10 != 0 {
            0xff
        } else {
            0x00
        });
    }

    fn clock_sprites(&mut self)
        requires
            old(self).sprite_count <= LINE_SPRITES,
        ensures
            *final(self) == old(self).sprites_clocked(old(self).sprite_count as int),
    {
        let ghost start = *self;
        let mut i: usize = 0;
        while i < self.sprite_count as usize
            invariant
                i <= self.sprite_count <= LINE_SPRITES,
                self.sprite_count == start.sprite_count,
                *self == start.sprites_clocked(i as int),
            decreases self.sprite_count - i,
        {
            let x = self.scanline_sprites[4 * i + 3];
            if x > 0 {
                self.scanline_sprites[4 * i + 3] = x - 1;
            } else {
                self.fg_pattern_shift_hi[i] = self.fg_pattern_shift_hi[i] << 1;
                self.fg_pattern_shift_lo[i] = self.fg_pattern_shift_lo[i] << 1;
            }
            i += 1;
        }
    }

    fn fetch<M: PPUMemory>(&mut self, regs: &PPURegisters, chr: &M)
        requires
            old(self).wf(),
            old(self).dot >= 1,
            chr.ppu_usable(),
        ensures
            *final(self) == old(self).fetched(*regs, *chr),
            final(self).wf(),
    {
        let phase = (self.dot - 1) % 8;
        if phase == 7 {
            self.increment_scroll_x(regs);
        } else if phase == 0 {
            // Shift in next tile to be drawn and load NT byte for next tile
            self.load_shifters();
            self.next_bg_tile_id = self.read_vram(tile_address_of(self.vram_addr), chr);
        } else if phase == 2 {
            // Load AT byte for next tile
            let attr = self.read_vram(attribute_address_of(self.vram_addr), chr);
            self.next_bg_palette = attribute_palette_of(attr, self.vram_addr);
        } else if phase == 4 {
            // Load low BG Tile byte
            let addr = pattern_address_of(
                regs.ppu_ctrl,
                self.next_bg_tile_id,
                self.vram_addr,
                false,
            );
            self.next_bg_lsb = self.read_vram(addr, chr);
        } else if phase == 6 {
            // Load high BG Tile byte
            let addr = pattern_address_of(
                regs.ppu_ctrl,
                self.next_bg_tile_id,
                self.vram_addr,
                true,
            );
            self.next_bg_msb = self.read_vram(addr, chr);
        }
    }

    fn clock_pipelines<M: PPUMemory>(&mut self, regs: &PPURegisters, chr: &M)
        requires
            old(self).wf(),
            chr.ppu_usable(),
        ensures
            *final(self) == old(self).pipelines_clocked(*regs, *chr),
            final(self).wf(),
    {
        if (2 <= self.dot && self.dot < 258) || (321 <= self.dot && self.dot < 338) {
            // If rendering background is enabled, shift the shift registers
            if regs.ppu_mask & 0x08 != 0 {
                self.palette_shift_high = self.palette_shift_high << 1;
                self.palette_shift_low = self.palette_shift_low << 1;
                self.pattern_shift_high = self.pattern_shift_high << 1;
                self.pattern_shift_low = self.pattern_shift_low << 1;
            }
            if regs.ppu_mask & 0x10 != 0 && self.dot < 258 {
                proof {
                    self.lemma_clocking_keeps_counters(self.sprite_count as int);
                }
                self.clock_sprites();
            }
            self.fetch(regs, chr);
        }
    }

    /// Clocking the sprites changes neither the counters nor the address
    /// registers.
    pub proof fn lemma_clocking_keeps_counters(self, n: int)
        ensures
            ({
                let q = self.sprites_clocked(n);
                &&& q.dot == self.dot
                &&& q.scanline == self.scanline
                &&& q.sprite_count == self.sprite_count
                &&& q.fine_x == self.fine_x
                &&& q.vram_addr == self.vram_addr
                &&& q.t_addr == self.t_addr
            }),
        decreases n,
    {
        if n > 0 {
            self.lemma_clocking_keeps_counters(n - 1);
        }
    }

    fn update_scroll(&mut self, regs: &PPURegisters)
        requires
            old(self).wf(),
        ensures
            *final(self) == old(self).scroll_updated(*regs),
            final(self).wf(),
    {
        if self.dot == 256 {
            self.increment_scroll_y(regs);
        }
        if self.dot == 257 && regs.ppu_mask & 0x18 != 0 {
            self.load_shifters();
            self.vram_addr = copy_horizontal(self.vram_addr, self.t_addr);
        }
        if self.scanline == 261 && 280 <= self.dot && self.dot < 305 && regs.ppu_mask & 0x18
            != 0 {
            self.vram_addr = copy_vertical(self.vram_addr, self.t_addr);
        }
    }

    fn evaluate_sprites(&mut self, regs: &mut PPURegisters)
        requires
            old(self).wf(),
        ensures
            (*final(self), *final(regs)) == old(self).sprites_evaluated(*old(regs)),
            final(self).wf(),
    {
        let sprite_height: u16 = if regs.ppu_ctrl & 0x20 != 0 {
            16
        } else {
            8
        };
        let found = scan_sprites(&self.oam, self.scanline, sprite_height);
        self.scanline_sprites = found.sprites;
        self.sprite_zero_hit_possible = found.zero_found;
        if found.count > 8 {
            regs.ppu_status = regs.ppu_status | 0x20;
            self.sprite_count = 8;
        } else {
            self.sprite_count = found.count;
        }
    }

    fn load_patterns<M: PPUMemory>(&mut self, regs: &PPURegisters, chr: &M)
        requires
            old(self).wf(),
            chr.ppu_usable(),
        ensures
            *final(self) == old(self).patterns_loaded(
                *regs,
                *chr,
                old(self).sprite_count as int,
            ),
            final(self).wf(),
    {
        let ghost start = *self;
        let mut i: usize = 0;
        while i < self.sprite_count as usize
            invariant
                i <= self.sprite_count <= LINE_SPRITES,
                self.sprite_count == start.sprite_count,
                chr.ppu_usable(),
                self.wf(),
                *self == start.patterns_loaded(*regs, *chr, i as int),
            decreases self.sprite_count - i,
        {
            let entry = get_line_entry(&self.scanline_sprites, i);
            let pattern_addr_lo = sprite_pattern_address_of(regs.ppu_ctrl, entry, self.scanline);
            let pattern_addr_hi = pattern_addr_lo + 8;
            let mut pattern_bytes_lo = chr.read_ppu(pattern_addr_lo);
            let mut pattern_bytes_hi = chr.read_ppu(pattern_addr_hi);
            if entry.attr & 0x40 != 0 {
                // Flip horizontally
                pattern_bytes_lo = reverse_bits(pattern_bytes_lo);
                pattern_bytes_hi = reverse_bits(pattern_bytes_hi);
            }
            self.fg_pattern_shift_hi[i] = pattern_bytes_hi;
            self.fg_pattern_shift_lo[i] = pattern_bytes_lo;
            i += 1;
        }
    }

    fn render<M: PPUMemory>(&mut self, regs: &mut PPURegisters, chr: &M)
        requires
            old(self).wf(),
            chr.ppu_usable(),
        ensures
            (*final(self), *final(regs)) == old(self).rendered(*old(regs), *chr),
            final(self).wf(),
    {
        if self.scanline == 261 && self.dot == 1 {
            regs.ppu_status = 0;
            self.fg_pattern_shift_hi = [0; LINE_SPRITES];
            self.fg_pattern_shift_lo = [0; LINE_SPRITES];
        }
        if self.scanline == 1 && self.dot == 1 {
            // Start of a new frame
            self.nmi = false;
        }
        self.clock_pipelines(regs, chr);
        self.update_scroll(regs);
        // Sprite rendering
        if self.dot == 257 && self.scanline < 261 {
            self.evaluate_sprites(regs);
        }
        if self.dot == 340 {
            self.load_patterns(regs, chr);
        }
    }

    fn serve_line<M: PPUMemory>(&mut self, regs: &mut PPURegisters, chr: &M)
        requires
            old(self).wf(),
            chr.ppu_usable(),
        ensures
            (*final(self), *final(regs)) == old(self).line_served(*old(regs), *chr),
            final(self).wf(),
    {
        if self.scanline <= 239 || self.scanline == 261 {
            // Visible scanlines (And pre-render scanline)
            self.render(regs, chr);
        } else if self.scanline == VBLANK_SCANLINE && self.dot == 1 {
            // Set VBlank enable bit
            regs.ppu_status = regs.ppu_status | 0x80;
            if regs.ppu_ctrl & 0x80 != 0 {
                // Send an NMI if it is enabled
                self.nmi = true;
            }
        }
    }

    fn find_sprite_pixel(&self, mask: u8) -> (px: SpritePixel)
        requires
            self.wf(),
        ensures
            px == self.sprite_pixel(mask),
            px.pixel <= 3,
            px.palette <= 7,
    {
        let mut found = SpritePixel { pixel: 0, palette: 0, in_front: false, first: false };
        if mask & 0x10 != 0 {
            let mut i: usize = 0;
            while i < self.sprite_count as usize
                invariant_except_break
                    found == no_sprite_pixel(),
                    self.sprite_pixel_from(0) == self.sprite_pixel_from(i as int),
                invariant
                    i <= self.sprite_count <= LINE_SPRITES,
                ensures
                    found == self.sprite_pixel_from(0),
                    found.pixel <= 3,
                    found.palette <= 7,
                decreases self.sprite_count - i,
            {
                let entry = get_line_entry(&self.scanline_sprites, i);
                if entry.x == 0 {
                    let lo: u8 = if self.fg_pattern_shift_lo[i] & 0x80 != 0 {
                        1
                    } else {
                        0
                    };
                    let hi: u8 = if self.fg_pattern_shift_hi[i] & 0x80 != 0 {
                        1
                    } else {
                        0
                    };
                    let pixel = 2 * hi + lo;
                    if pixel != 0 {
                        found =
                        SpritePixel {
                            pixel,
                            palette: entry.attr % 4 + 4,
                            in_front: entry.attr & 0x20 == 0,
                            first: i == 0,
                        };
                        break ;
                    }
                }
                i += 1;
            }
        }
        found
    }

    fn tap_bit(shift: u16, fine_x: u8) -> (b: u8)
        requires
            fine_x <= 7,
        ensures
            b == tap(shift, fine_x),
            b <= 1,
    {
        if shift & (0x8000u16 >> fine_x) != 0 {
            1
        } else {
            0
        }
    }

    /// Composes the pixel of the current dot; returns the entry of the
    /// palette RAM that is shown.
    fn compose_pixel(&mut self, regs: &mut PPURegisters) -> (entry: usize)
        requires
            old(self).wf(),
        ensures
            (*final(self), *final(regs)) == old(self).pixel_composed(*old(regs)),
            entry == old(self).shown_entry(old(regs).ppu_mask),
            entry < PALETTE_SIZE,
            final(self).wf(),
    {
        let mask = regs.ppu_mask;
        // Background rendering
        let mut bg_palette: u8 = 0;
        let mut bg_pixel: u8 = 0;
        if mask & 0x08 != 0 && (self.dot > 8 || mask & 0x02 != 0) {
            bg_pixel = 2 * Self::tap_bit(self.pattern_shift_high, self.fine_x) + Self::tap_bit(
                self.pattern_shift_low,
                self.fine_x,
            );
            bg_palette = 2 * Self::tap_bit(self.palette_shift_high, self.fine_x) + Self::tap_bit(
                self.palette_shift_low,
                self.fine_x,
            );
        }
        // Foreground rendering
        let fg = self.find_sprite_pixel(mask);
        if mask & 0x10 != 0 {
            self.sprite_zero_rendering = fg.first;
        }
        let pixel: u8;
        let palette: u8;
        if bg_pixel == 0 && fg.pixel == 0 {
            pixel = 0;
            palette = 0;
        } else if bg_pixel == 0 {
            pixel = fg.pixel;
            palette = fg.palette;
        } else if fg.pixel == 0 {
            pixel = bg_pixel;
            palette = bg_palette;
        } else {
            // Both pixels are visible
            if fg.in_front {
                pixel = fg.pixel;
                palette = fg.palette;
            } else {
                pixel = bg_pixel;
                palette = bg_palette;
            }
            // Perform sprite 0 hit detection
            if self.sprite_zero_hit_possible && fg.first && mask & 0x08 != 0 && mask & 0x10 != 0
                && 1 <= self.dot && self.dot < 258 && (self.dot >= 9 || (mask & 0x02 != 0 && mask
                & 0x04 != 0)) {
                // Set the sprite 0 hit bit
                regs.ppu_status = regs.ppu_status | 0x40;
            }
        }
        palette as usize * 4 + pixel as usize
    }

    fn advance(&mut self)
        requires
            old(self).wf(),
        ensures
            *final(self) == old(self).advanced(),
            final(self).wf(),
    {
        if self.dot < LAST_DOT {
            self.dot += 1;
        } else {
            self.dot = 0;
            if self.scanline < LAST_SCANLINE {
                self.scanline += 1;
            } else {
                self.scanline = 0;
                self.frame = self.frame.wrapping_add(1);
            }
        }
    }

    /// Run one cycle of the PPU, and output a pixel to the video interface
    pub fn tick<M: PPUMemory, V: VideoInterface>(&mut self, chr: &mut M, video_out: &mut V)
        requires
            old(self).wf(),
            old(chr).ppu_usable(),
        ensures
            (*final(self), *final(chr), *final(video_out)) == old(self).ticked(
                *old(chr),
                *old(video_out),
            ),
            final(self).wf(),
            final(chr).ppu_usable(),
    {
        proof {
            reveal(PPU::ticked);
        }
        let mut regs = *chr.registers();
        self.update_from_registers(&mut regs, chr);
        let vblank_starts = self.scanline == VBLANK_SCANLINE && self.dot == 1;
        let in_picture = self.scanline < 240 && 1 <= self.dot && self.dot <= 256;
        let x = if in_picture {
            self.dot - 1
        } else {
            0
        };
        let y = self.scanline;

        self.serve_line(&mut regs, chr);
        if vblank_starts {
            video_out.end_of_frame();
        }
        let entry = self.compose_pixel(&mut regs);
        if in_picture {
            let color = self.read_palette_ram(entry);
            video_out.draw_pixel(x, y, self.convert_color_to_rgb(color));
        }
        self.advance();
        chr.set_registers(regs);
    }

    /// The color that the television shows for a color number.
    pub fn convert_color_to_rgb(&self, color: u8) -> (c: Color)
        ensures
            c == rgb_of(color),
    {
        if color > 0x3f {
            return unpack(FAULT_COLOR);
        }
        unpack(PALETTE_TABLE[color as usize])
    }

    pub fn increment_scroll_x(&mut self, registers: &PPURegisters)
        ensures
            *final(self) == (if rendering(registers.ppu_mask) {
                PPU { vram_addr: scroll_x_incremented(old(self).vram_addr), ..*old(self) }
            } else {
                *old(self)
            }),
            final(self).vram_addr <= ADDRESS_MAX || !rendering(registers.ppu_mask),
    {
        // Check if rendering is enabled
        if registers.ppu_mask & 0x18 != 0 {
            self.vram_addr = increment_x(self.vram_addr);
        }
    }

    pub fn increment_scroll_y(&mut self, registers: &PPURegisters)
        ensures
            *final(self) == (if rendering(registers.ppu_mask) {
                PPU { vram_addr: scroll_y_incremented(old(self).vram_addr), ..*old(self) }
            } else {
                *old(self)
            }),
            final(self).vram_addr <= ADDRESS_MAX || !rendering(registers.ppu_mask),
    {
        // Check if rendering is enabled
        if registers.ppu_mask & 0x18 != 0 {
            self.vram_addr = increment_y(self.vram_addr);
        }
    }

    /// One line of the listing of the sprite memory: the sprite's number and
    /// its four bytes, the tile in hexadecimal and the attributes in binary.
    pub open spec fn oam_line(i: u8, e: OAMEntry) -> Seq<char> {
        two_digits(i) + ": { y: "@ + decimal(e.y as u16) + ", tile_id: $"@ + hex_byte(e.tile_id)
            + ", attr: "@ + binary_byte(e.attr) + "b, x: "@ + decimal(e.x as u16) + " } \n"@
    }

    /// The listing of the first `n` sprites of the sprite memory.
    pub open spec fn oam_listing(self, n: int) -> Seq<char>
        decreases n,
    {
        if n <= 0 {
            Seq::<char>::empty()
        } else {
            self.oam_listing(n - 1) + Self::oam_line((n - 1) as u8, entry_at(self.oam, n - 1))
        }
    }

    /// Appends one line of the listing of the sprite memory.
    fn push_oam_line(text: &mut String, i: u8, e: OAMEntry)
        requires
            i < 100,
        ensures
            final(text)@ == old(text)@ + Self::oam_line(i, e),
    {
        push_two_digits(text, i);
        text.append(": { y: ");
        push_decimal(text, e.y as u16);
        text.append(", tile_id: $");
        push_hex_byte(text, e.tile_id);
        let ghost half = text@;
        assert(half =~= old(text)@ + (two_digits(i) + ": { y: "@ + decimal(e.y as u16)
            + ", tile_id: $"@ + hex_byte(e.tile_id)));
        text.append(", attr: ");
        push_binary_byte(text, e.attr);
        text.append("b, x: ");
        push_decimal(text, e.x as u16);
        text.append(" } \n");
        assert(text@ =~= half + (", attr: "@ + binary_byte(e.attr) + "b, x: "@ + decimal(
            e.x as u16,
        ) + " } \n"@));
        assert(text@ =~= old(text)@ + Self::oam_line(i, e));
    }

    /// Lists the sprite memory, a line for each of the sixty-four sprites.
    pub fn print_oam(&self) -> (text: String)
        ensures
            text@ == self.oam_listing(SPRITES as int),
    {
        let mut out = String::new();
        let mut i: u8 = 0;
        while i < 64
            invariant
                i <= 64,
                out@ == self.oam_listing(i as int),
            decreases 64 - i,
        {
            let entry = self.get_oam_entry(i);
            Self::push_oam_line(&mut out, i, entry);
            i += 1;
        }
        out
    }

    pub fn get_oam_entry(&self, id: u8) -> (e: OAMEntry)
        requires
            id < SPRITES,
        ensures
            e == entry_at(self.oam, id as int),
    {
        get_entry(&self.oam, id)
    }
}

impl Default for PPU {
    fn default() -> (ppu: Self)
        ensures
            ppu == PPU::initial(),
            ppu.wf(),
    {
        PPU {
            vram_addr: 0,
            t_addr: 0,
            fine_x: 0,
            second_write: false,
            read_buffer: 0,
            nmi_enabled: false,
            palette_ram: [0; PALETTE_SIZE],
            oam: [0; OAM_SIZE],
            next_bg_tile_id: 0,
            next_bg_palette: 0,
            next_bg_lsb: 0,
            next_bg_msb: 0,
            pattern_shift_high: 0,
            pattern_shift_low: 0,
            palette_shift_high: 0,
            palette_shift_low: 0,
            scanline_sprites: [0; LINE_OAM_SIZE],
            sprite_count: 0,
            fg_pattern_shift_hi: [0; LINE_SPRITES],
            fg_pattern_shift_lo: [0; LINE_SPRITES],
            sprite_zero_hit_possible: false,
            sprite_zero_rendering: false,
            dot: 0,
            scanline: 261,
            frame: 0,
            nmi: false,
        }
    }
}

} // verus!
