use vstd::prelude::*;

verus! {

// The picture unit's two address registers hold fifteen bits:
// fine y (3) | nametable (2) | coarse y (5) | coarse x (5).
/// The largest value of an address register.
pub const ADDRESS_MAX: u16 = 0x7fff;

/// The column of the tile, 0 to 31.
pub open spec fn coarse_x(v: u16) -> int {
    v as int % 32
}

/// The row of the tile, 0 to 31.
pub open spec fn coarse_y(v: u16) -> int {
    v as int / 32 % 32
}

/// The nametable, 0 to 3: bit 0 chooses left or right, bit 1 top or bottom.
pub open spec fn nametable(v: u16) -> int {
    v as int / 1024 % 4
}

/// The row of pixels within the tile, 0 to 7.
pub open spec fn fine_y(v: u16) -> int {
    v as int / 4096 % 8
}

/// The address register with the given fields.
pub open spec fn address(fine_y: int, nametable: int, coarse_y: int, coarse_x: int) -> u16 {
    (fine_y * 4096 + nametable * 1024 + coarse_y * 32 + coarse_x) as u16
}

/// One tile to the right: past column 31 the column returns to 0 and the
/// nametable changes sides.
pub open spec fn scroll_x_incremented(v: u16) -> u16 {
    if coarse_x(v) == 31 {
        let side = nametable(v) % 2;
        address(fine_y(v), nametable(v) - side + (1 - side), coarse_y(v), 0)
    } else {
        address(fine_y(v), nametable(v), coarse_y(v), coarse_x(v) + 1)
    }
}

/// One row of pixels down: past fine y 7 the tile row advances, and from
/// row 29 on it returns to 0 and the nametable changes between top and
/// bottom.
pub open spec fn scroll_y_incremented(v: u16) -> u16 {
    if fine_y(v) < 7 {
        address(fine_y(v) + 1, nametable(v), coarse_y(v), coarse_x(v))
    } else if coarse_y(v) >= 29 {
        let half = nametable(v) / 2;
        address(0, nametable(v) % 2 + 2 * (1 - half), 0, coarse_x(v))
    } else {
        address(0, nametable(v), coarse_y(v) + 1, coarse_x(v))
    }
}

/// `v` with the horizontal position of `t`: its coarse x and the side of
/// its nametable.
pub open spec fn horizontal_copied(v: u16, t: u16) -> u16 {
    address(fine_y(v), nametable(v) / 2 * 2 + nametable(t) % 2, coarse_y(v), coarse_x(t))
}

/// `v` with the vertical position of `t`: its fine y, its coarse y and
/// whether its nametable is a top or a bottom one.
pub open spec fn vertical_copied(v: u16, t: u16) -> u16 {
    address(fine_y(t), nametable(t) / 2 * 2 + nametable(v) % 2, coarse_y(t), coarse_x(v))
}

/// `t` once PPUCTRL has been written: the low two bits of `ctrl` choose
/// the nametable.
pub open spec fn nametable_selected(t: u16, ctrl: u8) -> u16 {
    address(fine_y(t), ctrl as int % 4, coarse_y(t), coarse_x(t))
}

/// `t` after the first write to PPUSCROLL: the high five bits of `scroll`
/// are the coarse x.
pub open spec fn scroll_x_written(t: u16, scroll: u8) -> u16 {
    address(fine_y(t), nametable(t), coarse_y(t), scroll as int / 8)
}

/// `t` after the second write to PPUSCROLL: the high five bits of `scroll`
/// are the coarse y, the low three the fine y.
pub open spec fn scroll_y_written(t: u16, scroll: u8) -> u16 {
    address(scroll as int % 8, nametable(t), scroll as int / 8, coarse_x(t))
}

/// `t` after the first write to PPUADDR: the low six bits of `addr` become
/// bits 8 to 13, bit 14 is cleared and the low byte stays.
pub open spec fn address_high_written(t: u16, addr: u8) -> u16 {
    ((addr as int % 64) * 256 + t as int % 256) as u16
}

/// `t` after the second write to PPUADDR: `addr` becomes the low byte.
pub open spec fn address_low_written(t: u16, addr: u8) -> u16 {
    (t as int / 256 * 256 + addr) as u16
}

/// The address register after an access through PPUDATA: 1 further, or 32
/// if bit 2 of `ctrl` is set, within fifteen bits.
pub open spec fn data_incremented(v: u16, ctrl: u8) -> u16 {
    ((v + (if ctrl & 0b0000_0100 != 0 {
        32int
    } else {
        1int
    })) % 0x8000) as u16
}

/// Where the tile number of the tile at `v` lies.
pub open spec fn tile_address(v: u16) -> u16 {
    (0x2000 + v as int % 0x1000) as u16
}

/// Where the attribute byte of the tile at `v` lies: one byte serves a
/// square of four by four tiles.
pub open spec fn attribute_address(v: u16) -> u16 {
    (0x23C0 + nametable(v) * 1024 + coarse_y(v) / 4 * 8 + coarse_x(v) / 4) as u16
}

/// The palette that attribute byte `attr` gives the tile at `v`: two bits
/// for each quarter of the square.
pub open spec fn attribute_palette(attr: u8, v: u16) -> u8 {
    let lower = coarse_y(v) / 2 % 2 == 1;
    let right = coarse_x(v) / 2 % 2 == 1;
    if lower {
        if right {
            attr / 64 % 4
        } else {
            attr / 16 % 4
        }
    } else {
        if right {
            attr / 4 % 4
        } else {
            attr % 4
        }
    }
}

/// Where a bit plane of the background tile `tile` lies for the pixel row
/// of `v`: in the pattern table that bit 4 of `ctrl` chooses, sixteen bytes
/// per tile, the high plane eight bytes after the low.
pub open spec fn pattern_address(ctrl: u8, tile: u8, v: u16, high: bool) -> u16 {
    ((if ctrl & 0x10 != 0 {
        0x1000int
    } else {
        0int
    }) + tile * 16 + fine_y(v) + (if high {
        8int
    } else {
        0int
    })) as u16
}

/// The fields of an address register: fine y, nametable, coarse y, coarse x.
pub fn fields_of(v: u16) -> (f: (u16, u16, u16, u16))
    ensures
        f.0 == fine_y(v),
        f.1 == nametable(v),
        f.2 == coarse_y(v),
        f.3 == coarse_x(v),
{
    (v / 4096 % 8, v / 1024 % 4, v / 32 % 32, v % 32)
}

/// The address register with the given fields.
pub fn address_of(fine_y: u16, nametable: u16, coarse_y: u16, coarse_x: u16) -> (v: u16)
    requires
        fine_y < 8,
        nametable < 4,
        coarse_y < 32,
        coarse_x < 32,
    ensures
        v == address(fine_y as int, nametable as int, coarse_y as int, coarse_x as int),
        v <= ADDRESS_MAX,
{
    fine_y * 4096 + nametable * 1024 + coarse_y * 32 + coarse_x
}

pub fn increment_x(v: u16) -> (r: u16)
    ensures
        r == scroll_x_incremented(v),
        r <= ADDRESS_MAX,
{
    let (fy, nt, cy, cx) = fields_of(v);
    if cx == 31 {
        // Flip nametable X bit
        let side = nt % 2;
        address_of(fy, nt - side + (1 - side), cy, 0)
    } else {
        address_of(fy, nt, cy, cx + 1)
    }
}

pub fn increment_y(v: u16) -> (r: u16)
    ensures
        r == scroll_y_incremented(v),
        r <= ADDRESS_MAX,
{
    let (fy, nt, cy, cx) = fields_of(v);
    if fy < 7 {
        address_of(fy + 1, nt, cy, cx)
    } else if cy >= 29 {
        // Flip nametable Y bit
        let half = nt / 2;
        address_of(0, nt % 2 + 2 * (1 - half), 0, cx)
    } else {
        address_of(0, nt, cy + 1, cx)
    }
}

pub fn copy_horizontal(v: u16, t: u16) -> (r: u16)
    ensures
        r == horizontal_copied(v, t),
        r <= ADDRESS_MAX,
{
    let (fy, nt, cy, _) = fields_of(v);
    let (_, t_nt, _, t_cx) = fields_of(t);
    address_of(fy, nt / 2 * 2 + t_nt % 2, cy, t_cx)
}

pub fn copy_vertical(v: u16, t: u16) -> (r: u16)
    ensures
        r == vertical_copied(v, t),
        r <= ADDRESS_MAX,
{
    let (_, nt, _, cx) = fields_of(v);
    let (t_fy, t_nt, t_cy, _) = fields_of(t);
    address_of(t_fy, t_nt / 2 * 2 + nt % 2, t_cy, cx)
}

pub fn select_nametable(t: u16, ctrl: u8) -> (r: u16)
    ensures
        r == nametable_selected(t, ctrl),
        r <= ADDRESS_MAX,
{
    let (fy, _, cy, cx) = fields_of(t);
    address_of(fy, (ctrl % 4) as u16, cy, cx)
}

pub fn write_scroll_x(t: u16, scroll: u8) -> (r: u16)
    ensures
        r == scroll_x_written(t, scroll),
        r <= ADDRESS_MAX,
{
    let (fy, nt, cy, _) = fields_of(t);
    address_of(fy, nt, cy, (scroll / 8) as u16)
}

pub fn write_scroll_y(t: u16, scroll: u8) -> (r: u16)
    ensures
        r == scroll_y_written(t, scroll),
        r <= ADDRESS_MAX,
{
    let (_, nt, _, cx) = fields_of(t);
    address_of((scroll % 8) as u16, nt, (scroll / 8) as u16, cx)
}

pub fn write_address_high(t: u16, addr: u8) -> (r: u16)
    ensures
        r == address_high_written(t, addr),
        r <= ADDRESS_MAX,
{
    (addr % 64) as u16 * 256 + t % 256
}

pub fn write_address_low(t: u16, addr: u8) -> (r: u16)
    requires
        t <= ADDRESS_MAX,
    ensures
        r == address_low_written(t, addr),
        r <= ADDRESS_MAX,
{
    (t / 256) * 256 + addr as u16
}

pub fn increment_data(v: u16, ctrl: u8) -> (r: u16)
    requires
        v <= ADDRESS_MAX,
    ensures
        r == data_incremented(v, ctrl),
        r <= ADDRESS_MAX,
{
    let step: u16 = if ctrl & 0b0000_0100 != 0 {
        32
    } else {
        1
    };
    (v + step) % 0x8000
}

pub fn tile_address_of(v: u16) -> (r: u16)
    ensures
        r == tile_address(v),
        0x2000 <= r <= 0x2fff,
{
    0x2000 + v % 0x1000
}

pub fn attribute_address_of(v: u16) -> (r: u16)
    ensures
        r == attribute_address(v),
        0x23c0 <= r <= 0x2fff,
{
    let (_, nt, cy, cx) = fields_of(v);
    0x23C0 + nt * 1024 + cy / 4 * 8 + cx / 4
}

pub fn attribute_palette_of(attr: u8, v: u16) -> (r: u8)
    ensures
        r == attribute_palette(attr, v),
        r <= 3,
{
    let (_, _, cy, cx) = fields_of(v);
    let lower = cy / 2 % 2 == 1;
    let right = cx / 2 % 2 == 1;
    if lower {
        if right {
            attr / 64 % 4
        } else {
            attr / 16 % 4
        }
    } else {
        if right {
            attr / 4 % 4
        } else {
            attr % 4
        }
    }
}

pub fn pattern_address_of(ctrl: u8, tile: u8, v: u16, high: bool) -> (r: u16)
    ensures
        r == pattern_address(ctrl, tile, v, high),
        r <= 0x1fff,
{
    let table: u16 = if ctrl & 0x10 != 0 {
        0x1000
    } else {
        0
    };
    let plane: u16 = if high {
        8
    } else {
        0
    };
    table + tile as u16 * 16 + v / 4096 % 8 + plane
}

} // verus!
