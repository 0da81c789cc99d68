use super::video_interface::Color;
use crate::bytes::stored;
use vstd::prelude::*;

verus! {

/// The colors of the NTSC 2C02, as `0xRRGGBB`, by color number.
pub const PALETTE_TABLE: [u32; 0x40] = [
    0x545454, 0x001E74, 0x081090, 0x300088, 0x440064, 0x5C0030, 0x540400, 0x3C1800,
    0x202A00, 0x083A00, 0x004000, 0x003C00, 0x00323C, 0x000000, 0x000000, 0x000000,
    0x989698, 0x084CC4, 0x3032EC, 0x5C1EE4, 0x8814B0, 0xA01464, 0x982220, 0x783C00,
    0x545A00, 0x287200, 0x087C00, 0x007628, 0x006678, 0x000000, 0x000000, 0x000000,
    0xECEEEC, 0x4C9AEC, 0x787CEC, 0xB062EC, 0xE454EC, 0xEC58B4, 0xEC6A64, 0xD48820,
    0xA0AA00, 0x74C400, 0x4CD020, 0x38CC6C, 0x38B4CC, 0x3C3C3C, 0x000000, 0x000000,
    0xECEEEC, 0xA8CCEC, 0xBCBCEC, 0xD4B2EC, 0xECAEEC, 0xECAED4, 0xECB4B0, 0xE4C490,
    0xCCD278, 0xB4DE78, 0xA8E290, 0x98E2B4, 0xA0D6E4, 0xA0A2A0, 0x000000, 0x000000,
];

/// What is shown for a color number that the table does not hold.
pub const FAULT_COLOR: u32 = 0xFF00FF;

/// The color that `0xRRGGBB` packs.
pub open spec fn unpacked(rgb: u32) -> Color {
    Color(((rgb / 0x10000) % 0x100) as u8, ((rgb / 0x100) % 0x100) as u8, (rgb % 0x100) as u8)
}

/// The color that the television shows for color number `color`: the
/// table's entry, or magenta for a number above `0x3f`.
pub open spec fn rgb_of(color: u8) -> Color {
    if color > 0x3f {
        unpacked(FAULT_COLOR)
    } else {
        unpacked(PALETTE_TABLE[color as int])
    }
}

/// Unpacks `0xRRGGBB`.
pub fn unpack(rgb: u32) -> (c: Color)
    ensures
        c == unpacked(rgb),
{
    Color(((rgb / 0x10000) % 0x100) as u8, ((rgb / 0x100) % 0x100) as u8, (rgb % 0x100) as u8)
}

/// Size of the palette RAM.
pub const PALETTE_SIZE: usize = 0x20;

/// The cell of palette RAM that a read of entry `i` finds: the first color
/// of every sprite palette shows the universal background color.
pub open spec fn read_cell(i: int) -> int {
    if i >= 16 && i % 4 == 0 {
        0
    } else {
        i
    }
}

/// The cell of palette RAM that a write to entry `i` reaches: the first
/// color of a sprite palette lands in the first color of the background
/// palette sixteen below, and every other entry in its own cell.
pub open spec fn write_cell(i: int) -> int {
    if i >= 16 && i % 4 == 0 {
        i - 16
    } else {
        i
    }
}

/// The entry of palette RAM that the picture unit's address `addr` of
/// `0x3F00..=0x3FFF` names.
pub open spec fn palette_entry(addr: u16) -> int {
    (addr - 0x3f00) % 0x20
}

/// The color number at entry `i` of the palette RAM.
pub open spec fn palette_color(ram: [u8; PALETTE_SIZE], i: int) -> u8 {
    ram[read_cell(i)]
}

/// The palette RAM once `v` has been written to entry `i`.
pub open spec fn palette_written(ram: [u8; PALETTE_SIZE], i: int, v: u8) -> [u8; PALETTE_SIZE] {
    stored(ram, write_cell(i), v)
}

/// Reads entry `i` of the palette RAM.
pub fn read_palette(ram: &[u8; PALETTE_SIZE], i: usize) -> (v: u8)
    requires
        i < PALETTE_SIZE,
    ensures
        v == palette_color(*ram, i as int),
{
    if i >= 16 && i % 4 == 0 {
        // Mirror the background color of all palettes to $3F00
        ram[0]
    } else {
        ram[i]
    }
}

/// Writes entry `i` of the palette RAM.
pub fn write_palette(ram: &mut [u8; PALETTE_SIZE], i: usize, v: u8)
    requires
        i < PALETTE_SIZE,
    ensures
        *final(ram) == palette_written(*old(ram), i as int, v),
{
    if i >= 16 && i % 4 == 0 {
        ram[i - 16] = v;
    } else {
        ram[i] = v;
    }
}

/// Every entry but the first color of a sprite palette has a cell of its
/// own: a write there changes that cell and no other, so the first colors
/// of the four background palettes can each be written and none of them
/// disturbs the universal background color.
pub proof fn lemma_own_cells(ram: [u8; PALETTE_SIZE], i: int, v: u8, j: int)
    requires
        0 <= i < PALETTE_SIZE,
        0 <= j < PALETTE_SIZE,
        !(i >= 16 && i % 4 == 0),
    ensures
        palette_written(ram, i, v)[j] == if j == i {
            v
        } else {
            ram[j]
        },
{
    crate::bytes::lemma_array_contents(ram, 0u8, i, v, j);
}

/// Palette aliasing. A write to the first color of a sprite palette
/// (`0x3F10`, `0x3F14`, `0x3F18`, `0x3F1C`) does exactly what a write to
/// the first color of the background palette sixteen below does, and after a
/// write to `0x3F10` or `0x3F00` a read of `0x3F00`, or of the first color
/// of any sprite palette, returns what was written.
pub proof fn lemma_palette_aliasing(ram: [u8; PALETTE_SIZE], i: int, v: u8, j: int)
    requires
        i == 0x10 || i == 0x14 || i == 0x18 || i == 0x1c,
        j == 0x10 || j == 0x14 || j == 0x18 || j == 0x1c,
    ensures
        palette_written(ram, i, v) == palette_written(ram, i - 0x10, v),
        palette_color(palette_written(ram, 0x10, v), 0) == v,
        palette_color(palette_written(ram, 0x00, v), 0) == v,
        palette_color(palette_written(ram, 0x10, v), j) == v,
{
    crate::bytes::lemma_array_contents(ram, 0u8, 0, v, 0);
}

} // verus!
