use super::{part, pixel_of, plane_pixel, push_pixel, shows};
use vstd::prelude::*;

verus! {

/// Pixels along each side of the picture of a pattern table: sixteen tiles
/// of eight pixels.
pub const TABLE_SIDE: usize = 128;

/// The color of pixel (`x`, `y`) of the picture of pattern table `half`:
/// the tiles lie sixteen to a row, in the order of their numbers, and a
/// pixel that is 0 shows the backdrop.
pub open spec fn table_color(
    pattern_table: [u8; 0x2000],
    half: int,
    palette: [(u8, u8, u8); 4],
    bg_color: (u8, u8, u8),
    x: int,
    y: int,
) -> (u8, u8, u8) {
    let tile_addr = half * 0x1000 + (y / 8) * 0x100 + (x / 8) * 0x10;
    let lo = pattern_table[tile_addr + y % 8];
    let hi = pattern_table[tile_addr + 8 + y % 8];
    let px = plane_pixel(lo, hi, (x % 8) as u8);
    if px == 0 {
        bg_color
    } else {
        palette[px as int]
    }
}

/// The picture of pattern table `half` (0 or 1) in the colors of `palette`.
pub fn pattern_table_image(
    pattern_table: &[u8; 0x2000],
    half: usize,
    palette: &[(u8, u8, u8); 4],
    bg_color: (u8, u8, u8),
) -> (image: Vec<u8>)
    requires
        half < 2,
    ensures
        shows(
            image@,
            TABLE_SIDE as int,
            TABLE_SIDE as int,
            |x: int, y: int| table_color(*pattern_table, half as int, *palette, bg_color, x, y),
        ),
{
    let ghost color = |x: int, y: int|
        table_color(*pattern_table, half as int, *palette, bg_color, x, y);
    let mut image: Vec<u8> = Vec::new();
    let mut y: usize = 0;
    while y < TABLE_SIDE
        invariant
            half < 2,
            y <= TABLE_SIDE,
            color == |x: int, y: int|
                table_color(*pattern_table, half as int, *palette, bg_color, x, y),
            image@.len() == y * TABLE_SIDE * 3,
            forall|i: int|
                0 <= i < image@.len() ==> #[trigger] image@[i] == part(
                    color((i / 3) % (TABLE_SIDE as int), (i / 3) / (TABLE_SIDE as int)),
                    i % 3,
                ),
        decreases TABLE_SIDE - y,
    {
        let mut x: usize = 0;
        while x < TABLE_SIDE
            invariant
                half < 2,
                y < TABLE_SIDE,
                x <= TABLE_SIDE,
                color == |x: int, y: int|
                    table_color(*pattern_table, half as int, *palette, bg_color, x, y),
                image@.len() == (y * TABLE_SIDE + x) * 3,
                forall|i: int|
                    0 <= i < image@.len() ==> #[trigger] image@[i] == part(
                        color((i / 3) % (TABLE_SIDE as int), (i / 3) / (TABLE_SIDE as int)),
                        i % 3,
                    ),
            decreases TABLE_SIDE - x,
        {
            let tile_addr = half * 0x1000 + (y / 8) * 0x100 + (x / 8) * 0x10;
            let lo = pattern_table[tile_addr + y % 8];
            let hi = pattern_table[tile_addr + 8 + y % 8];
            let px = pixel_of(lo, hi, (x % 8) as u8);
            let rgb = if px == 0 {
                bg_color
            } else {
                palette[px as usize]
            };
            assert(rgb == color(x as int, y as int));
            push_pixel(&mut image, rgb);
            x += 1;
        }
        y += 1;
    }
    image
}

} // verus!
