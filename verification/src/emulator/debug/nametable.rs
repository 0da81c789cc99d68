use super::{part, pixel_of, plane_pixel, push_pixel, shows};
use vstd::prelude::*;

verus! {

/// Width of the picture of the four nametables: two tables side by side.
pub const TABLES_WIDTH: usize = 512;

/// Height of the picture of the four nametables: two tables, one above the
/// other.
pub const TABLES_HEIGHT: usize = 480;

/// The palette, 0 to 3, that an attribute byte gives the tile in column
/// `tile` and row `row` of a nametable: two bits for each quarter of the
/// block of four tiles by four that the byte stands for.
pub open spec fn attribute_palette(attr: u8, row: int, tile: int) -> u8 {
    let quarter = ((row / 2) % 2) * 2 + ((tile / 2) % 2);
    if quarter == 0 {
        attr & 0b00000011
    } else if quarter == 1 {
        (attr & 0b00001100) >> 2
    } else if quarter == 2 {
        (attr & 0b00110000) >> 4
    } else {
        (attr & 0b11000000) >> 6
    }
}

/// The color of pixel (`x`, `y`) of the picture of the four nametables.
/// Table 0 lies at the top left, 1 to its right, 2 and 3 below them. A tile
/// is drawn from the pattern table that bit 4 of `ppu_ctrl` names, in the
/// palette that the attribute table gives it; a pixel that is 0 shows the
/// backdrop.
#[verifier::opaque]
pub open spec fn tables_color(
    pattern_table: [u8; 0x2000],
    ppu_ctrl: u8,
    palette_table: [(u8, u8, u8); 32],
    vram: [u8; 0x1000],
    x: int,
    y: int,
) -> (u8, u8, u8) {
    let patterns = if ppu_ctrl & 0b00010000 == 0 {
        0
    } else {
        0x1000int
    };
    let table_off = 0x400 * ((y / 240) * 2 + x / 256);
    let row = (y % 240) / 8;
    let tile = (x % 256) / 8;
    let attr = vram[table_off + 0x3c0 + (row / 4) * 8 + tile / 4];
    let palette = attribute_palette(attr, row, tile);
    let pattern_byte = vram[table_off + row * 0x20 + tile];
    let lo = pattern_table[patterns + pattern_byte * 16 + y % 8];
    let hi = pattern_table[patterns + pattern_byte * 16 + y % 8 + 8];
    let px = plane_pixel(lo, hi, (x % 8) as u8);
    if px == 0 {
        palette_table[0]
    } else {
        palette_table[(palette << 2 | px) as int]
    }
}

/// The palette that an attribute byte gives a tile.
pub fn palette_of(attr: u8, row: usize, tile: usize) -> (palette: u8)
    ensures
        palette == attribute_palette(attr, row as int, tile as int),
        palette < 4,
{
    let quarter = ((row / 2) % 2) * 2 + ((tile / 2) % 2);
    assert(attr & 0b00000011 < 4 && (attr & 0b00001100) >> 2 < 4 && (attr & 0b00110000) >> 4 < 4
        && (attr & 0b11000000) >> 6 < 4) by (bit_vector);
    if quarter == 0 {
        attr & 0b00000011
    } else if quarter == 1 {
        (attr & 0b00001100) >> 2
    } else if quarter == 2 {
        (attr & 0b00110000) >> 4
    } else {
        (attr & 0b11000000) >> 6
    }
}

/// The color of one pixel of the picture of the four nametables.
pub fn tables_pixel(
    pattern_table: &[u8; 0x2000],
    ppu_ctrl: u8,
    palette_table: &[(u8, u8, u8); 32],
    vram: &[u8; 0x1000],
    x: usize,
    y: usize,
) -> (rgb: (u8, u8, u8))
    requires
        x < TABLES_WIDTH,
        y < TABLES_HEIGHT,
    ensures
        rgb == tables_color(*pattern_table, ppu_ctrl, *palette_table, *vram, x as int, y as int),
{
    proof {
        reveal(tables_color);
    }
    let patterns: usize = if ppu_ctrl & 0b00010000 == 0 {
        0
    } else {
        0x1000
    };
    let table_off = 0x400 * ((y / 240) * 2 + x / 256);
    let row = (y % 240) / 8;
    let tile = (x % 256) / 8;
    let attr = vram[table_off + 0x3c0 + (row / 4) * 8 + tile / 4];
    let palette = palette_of(attr, row, tile);
    let pattern_byte = vram[table_off + row * 0x20 + tile];
    let lo = pattern_table[patterns + pattern_byte as usize * 16 + y % 8];
    let hi = pattern_table[patterns + pattern_byte as usize * 16 + y % 8 + 8];
    let px = pixel_of(lo, hi, (x % 8) as u8);
    if px == 0 {
        palette_table[0]
    } else {
        assert(palette << 2 | px < 16) by (bit_vector)
            requires
                palette < 4,
                px < 4,
        ;
        palette_table[(palette << 2 | px) as usize]
    }
}

/// The picture of the four nametables.
pub fn nametable_image(
    pattern_table: &[u8; 0x2000],
    ppu_ctrl: u8,
    palette_table: &[(u8, u8, u8); 32],
    vram: &[u8; 0x1000],
) -> (image: Vec<u8>)
    ensures
        shows(
            image@,
            TABLES_WIDTH as int,
            TABLES_HEIGHT as int,
            |x: int, y: int|
                tables_color(*pattern_table, ppu_ctrl, *palette_table, *vram, x, y),
        ),
{
    let ghost color = |x: int, y: int|
        tables_color(*pattern_table, ppu_ctrl, *palette_table, *vram, x, y);
    let mut image: Vec<u8> = Vec::new();
    let mut y: usize = 0;
    while y < TABLES_HEIGHT
        invariant
            y <= TABLES_HEIGHT,
            color == |x: int, y: int|
                tables_color(*pattern_table, ppu_ctrl, *palette_table, *vram, x, y),
            image@.len() == y * TABLES_WIDTH * 3,
            forall|i: int|
                0 <= i < image@.len() ==> #[trigger] image@[i] == part(
                    color((i / 3) % (TABLES_WIDTH as int), (i / 3) / (TABLES_WIDTH as int)),
                    i % 3,
                ),
        decreases TABLES_HEIGHT - y,
    {
        let mut x: usize = 0;
        while x < TABLES_WIDTH
            invariant
                y < TABLES_HEIGHT,
                x <= TABLES_WIDTH,
                color == |x: int, y: int|
                    tables_color(*pattern_table, ppu_ctrl, *palette_table, *vram, x, y),
                image@.len() == (y * TABLES_WIDTH + x) * 3,
                forall|i: int|
                    0 <= i < image@.len() ==> #[trigger] image@[i] == part(
                        color((i / 3) % (TABLES_WIDTH as int), (i / 3) / (TABLES_WIDTH as int)),
                        i % 3,
                    ),
            decreases TABLES_WIDTH - x,
        {
            let rgb = tables_pixel(pattern_table, ppu_ctrl, palette_table, vram, x, y);
            assert(rgb == color(x as int, y as int));
            push_pixel(&mut image, rgb);
            x += 1;
        }
        y += 1;
    }
    image
}

} // verus!
