use crate::bytes::{stored, zeros};
use vstd::prelude::*;

verus! {

/// Number of sprites in the sprite memory.
pub const SPRITES: usize = 64;

/// Size of the sprite memory in bytes.
pub const OAM_SIZE: usize = 64 * 4;

/// Number of sprites that can be shown on one scanline.
pub const LINE_SPRITES: usize = 8;

/// Size of the memory for the sprites of one scanline.
pub const LINE_OAM_SIZE: usize = 8 * 4;

/// One sprite of the sprite memory.
#[derive(Debug, Clone, Copy, PartialEq, Eq, Structural)]
pub struct OAMEntry {
    pub y: u8,
    pub tile_id: u8,
    pub attr: u8,
    pub x: u8,
}

impl OAMEntry {
    /// The four bytes of the sprite as they lie in memory.
    pub fn to_bytes(self) -> (b: [u8; 4])
        ensures
            b@ == seq![self.y, self.tile_id, self.attr, self.x],
    {
        let b = [self.y, self.tile_id, self.attr, self.x];
        assert(b@ =~= seq![self.y, self.tile_id, self.attr, self.x]);
        b
    }

    /// Whether the sprite is mirrored top to bottom.
    pub open spec fn flipped_vertically(self) -> bool {
        self.attr & 0x80 != 0
    }

    /// Whether the sprite is mirrored left to right.
    pub open spec fn flipped_horizontally(self) -> bool {
        self.attr & 0x40 != 0
    }

    /// Whether the sprite is drawn in front of the background.
    pub open spec fn in_front(self) -> bool {
        self.attr & 0x20 == 0
    }

    /// The palette of the sprite: one of the four sprite palettes, 4 to 7.
    pub open spec fn palette(self) -> u8 {
        (self.attr % 4 + 4) as u8
    }
}

/// Sprite `k` of a sprite memory.
pub open spec fn entry_at<const N: usize>(table: [u8; N], k: int) -> OAMEntry {
    OAMEntry {
        y: table[4 * k],
        tile_id: table[4 * k + 1],
        attr: table[4 * k + 2],
        x: table[4 * k + 3],
    }
}

/// A sprite memory with `e` as its sprite `k`.
pub open spec fn with_entry<const N: usize>(table: [u8; N], k: int, e: OAMEntry) -> [u8; N] {
    stored(
        stored(stored(stored(table, 4 * k, e.y), 4 * k + 1, e.tile_id), 4 * k + 2, e.attr),
        4 * k + 3,
        e.x,
    )
}

/// Whether a sprite `height` lines tall, with its top at `e.y`, covers
/// scanline `line`.
pub open spec fn covers(e: OAMEntry, line: u16, height: u16) -> bool {
    e.y <= line < e.y + height
}

/// What the scan of the sprite memory for one scanline has found.
#[derive(Clone, Copy)]
pub struct SpriteScan {
    /// The first eight sprites found, in the order of the sprite memory.
    pub sprites: [u8; LINE_OAM_SIZE],
    /// How many sprites were found; the scan stops at the ninth.
    pub count: u32,
    /// Whether sprite 0 is among those kept.
    pub zero_found: bool,
}

/// The scan of the first `n` sprites of `oam` for the sprites that cover
/// `line`: each is kept while there is room for it, and counted.
pub open spec fn scanned(oam: [u8; OAM_SIZE], line: u16, height: u16, n: int) -> SpriteScan
    decreases n,
{
    if n <= 0 {
        SpriteScan { sprites: zeros::<LINE_OAM_SIZE>(), count: 0, zero_found: false }
    } else {
        let found = scanned(oam, line, height, n - 1);
        let e = entry_at(oam, n - 1);
        if found.count >= 9 || !covers(e, line, height) {
            found
        } else {
            SpriteScan {
                sprites: if found.count < 8 {
                    with_entry(found.sprites, found.count as int, e)
                } else {
                    found.sprites
                },
                count: (found.count + 1) as u32,
                zero_found: found.zero_found || (n == 1 && found.count < 8),
            }
        }
    }
}

/// The scan never counts past nine.
pub proof fn lemma_scan_is_bounded(oam: [u8; OAM_SIZE], line: u16, height: u16, n: int)
    ensures
        scanned(oam, line, height, n).count <= 9,
        scanned(oam, line, height, n).count <= n || n < 0,
    decreases n,
{
    if n > 0 {
        lemma_scan_is_bounded(oam, line, height, n - 1);
    }
}

/// Reads sprite `id` of the sprite memory.
pub fn get_entry(oam: &[u8; OAM_SIZE], id: u8) -> (e: OAMEntry)
    requires
        id < SPRITES,
    ensures
        e == entry_at(*oam, id as int),
{
    let base = id as usize * 4;
    OAMEntry { y: oam[base], tile_id: oam[base + 1], attr: oam[base + 2], x: oam[base + 3] }
}

/// Reads sprite `k` of the memory for the sprites of one scanline.
pub fn get_line_entry(sprites: &[u8; LINE_OAM_SIZE], k: usize) -> (e: OAMEntry)
    requires
        k < LINE_SPRITES,
    ensures
        e == entry_at(*sprites, k as int),
{
    let base = k * 4;
    OAMEntry {
        y: sprites[base],
        tile_id: sprites[base + 1],
        attr: sprites[base + 2],
        x: sprites[base + 3],
    }
}

/// Scans the sprite memory for the sprites that cover `line`.
pub fn scan_sprites(oam: &[u8; OAM_SIZE], line: u16, height: u16) -> (found: SpriteScan)
    requires
        height <= 16,
    ensures
        found == scanned(*oam, line, height, SPRITES as int),
        found.count <= 9,
{
    let mut found = SpriteScan { sprites: [0; LINE_OAM_SIZE], count: 0, zero_found: false };
    let mut i: u8 = 0;
    while i < 64
        invariant
            i <= 64,
            height <= 16,
            found == scanned(*oam, line, height, i as int),
            found.count <= 9,
        decreases 64 - i,
    {
        let entry = get_entry(oam, i);
        proof {
            lemma_scan_is_bounded(*oam, line, height, i as int + 1);
        }
        if found.count < 9 && entry.y as u16 <= line && line < entry.y as u16 + height {
            if found.count < 8 {
                if i == 0 {
                    found.zero_found = true;
                }
                let off = found.count as usize * 4;
                found.sprites[off] = entry.y;
                found.sprites[off + 1] = entry.tile_id;
                found.sprites[off + 2] = entry.attr;
                found.sprites[off + 3] = entry.x;
            }
            found.count += 1;
        }
        i += 1;
    }
    found
}

/// The row of the sprite's pattern that shows on `line`, 0 to 7; a sprite
/// mirrored top to bottom shows its rows in reverse.
pub open spec fn pattern_row(e: OAMEntry, line: u16) -> int {
    let row = line.wrapping_sub(e.y as u16) % 8;
    if e.flipped_vertically() {
        7 - row
    } else {
        row as int
    }
}

/// Where the low bit plane of the sprite's pattern row for `line` lies.
/// A sprite of eight lines takes its tile from the pattern table that bit 3
/// of `ctrl` chooses. A sprite of sixteen lines (bit 5 of `ctrl`) is two
/// tiles, the even tile above the odd and the other way round when mirrored
/// top to bottom, in the pattern table that bit 0 of its tile number chooses.
pub open spec fn sprite_pattern_address(ctrl: u8, e: OAMEntry, line: u16) -> u16 {
    if ctrl & 0x20 == 0 {
        ((if ctrl & 0x08 != 0 {
            0x1000int
        } else {
            0int
        }) + e.tile_id * 16 + pattern_row(e, line)) as u16
    } else {
        let upper = line.wrapping_sub(e.y as u16) < 8;
        let first = e.tile_id - e.tile_id % 2;
        let tile = if upper != e.flipped_vertically() {
            first
        } else {
            first + 1
        };
        ((e.tile_id % 2) * 0x1000 + tile * 16 + pattern_row(e, line)) as u16
    }
}

pub fn sprite_pattern_address_of(ctrl: u8, e: OAMEntry, line: u16) -> (addr: u16)
    ensures
        addr == sprite_pattern_address(ctrl, e, line),
        addr <= 0x1ff7,
{
    let diff = line.wrapping_sub(e.y as u16);
    let flipped = e.attr & 0x80 != 0;
    let row = if flipped {
        7 - diff % 8
    } else {
        diff % 8
    };
    if ctrl & 0x20 == 0 {
        // 8x8 sprite mode
        let table: u16 = if ctrl & 0x08 != 0 {
            0x1000
        } else {
            0
        };
        table + e.tile_id as u16 * 16 + row
    } else {
        // 8x16 sprite mode
        let upper = diff < 8;
        let first = (e.tile_id - e.tile_id % 2) as u16;
        let tile = if upper != flipped {
            first
        } else {
            first + 1
        };
        (e.tile_id % 2) as u16 * 0x1000 + tile * 16 + row
    }
}

/// The byte with its bits in reverse order.
pub open spec fn reversed(b: u8) -> u8 {
    let b1 = (b & 0xF0) >> 4 | (b & 0x0F) << 4;
    let b2 = (b1 & 0xCC) >> 2 | (b1 & 0x33) << 2;
    (b2 & 0xAA) >> 1 | (b2 & 0x55) << 1
}

pub fn reverse_bits(b: u8) -> (r: u8)
    ensures
        r == reversed(b),
{
    let b1 = (b & 0xF0) >> 4 | (b & 0x0F) << 4;
    let b2 = (b1 & 0xCC) >> 2 | (b1 & 0x33) << 2;
    (b2 & 0xAA) >> 1 | (b2 & 0x55) << 1
}

/// Reversing moves bit 7 to bit 0, bit 6 to bit 1 and so on, and reversing
/// twice gives the byte back.
pub proof fn lemma_reversed(b: u8)
    by (bit_vector)
    ensures
        reversed(reversed(b)) == b,
        (reversed(b) & 0x01 != 0) == (b & 0x80 != 0),
        (reversed(b) & 0x02 != 0) == (b & 0x40 != 0),
        (reversed(b) & 0x04 != 0) == (b & 0x20 != 0),
        (reversed(b) & 0x08 != 0) == (b & 0x10 != 0),
        (reversed(b) & 0x10 != 0) == (b & 0x08 != 0),
        (reversed(b) & 0x20 != 0) == (b & 0x04 != 0),
        (reversed(b) & 0x40 != 0) == (b & 0x02 != 0),
        (reversed(b) & 0x80 != 0) == (b & 0x01 != 0),
{
}

} // verus!
