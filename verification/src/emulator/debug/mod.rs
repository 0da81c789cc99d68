//! Pictures of what the picture unit holds, for a window beside the game.
pub mod nametable;
pub mod pattern_table;

use vstd::prelude::*;

verus! {

/// Bytes for each pixel of a picture: red, green, blue.
pub const PIXEL_BYTES: usize = 3;

/// Pixel `x` of a row of a tile, 0 to 3, counted from the left: its low
/// bit is taken from the plane `lo` and its high bit from the plane `hi`.
pub open spec fn plane_pixel(lo: u8, hi: u8, x: u8) -> u8 {
    (((hi >> ((7 - x) as u8)) & 1) << 1) | ((lo >> ((7 - x) as u8)) & 1)
}

/// Byte `k` of a pixel in the color `rgb`.
pub open spec fn part(rgb: (u8, u8, u8), k: int) -> u8 {
    if k == 0 {
        rgb.0
    } else if k == 1 {
        rgb.1
    } else {
        rgb.2
    }
}

/// Whether `image` is a picture `width` pixels wide and `height` high, row
/// after row, in which each pixel has the color that `color` gives it.
pub open spec fn shows(
    image: Seq<u8>,
    width: int,
    height: int,
    color: spec_fn(int, int) -> (u8, u8, u8),
) -> bool {
    &&& image.len() == width * height * PIXEL_BYTES
    &&& forall|i: int|
        0 <= i < image.len() ==> #[trigger] image[i] == part(
            color((i / 3) % width, (i / 3) / width),
            i % 3,
        )
}

/// Pixel `x` of a row of a tile.
pub fn pixel_of(lo: u8, hi: u8, x: u8) -> (px: u8)
    requires
        x < 8,
    ensures
        px == plane_pixel(lo, hi, x),
        px < 4,
{
    let px = (((hi >> (7 - x)) & 1) << 1) | ((lo >> (7 - x)) & 1);
    assert((((hi >> ((7 - x) as u8)) & 1) << 1) | ((lo >> ((7 - x) as u8)) & 1) < 4)
        by (bit_vector);
    px
}

/// Appends a pixel in the color `rgb` to a picture.
pub fn push_pixel(image: &mut Vec<u8>, rgb: (u8, u8, u8))
    ensures
        final(image)@ == old(image)@.push(rgb.0).push(rgb.1).push(rgb.2),
{
    image.push(rgb.0);
    image.push(rgb.1);
    image.push(rgb.2);
}

} // verus!
