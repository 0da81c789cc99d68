use crate::bytes::{lemma_array_contents, stored, zeros};
use crate::ppu::{Color, VideoInterface};
use vstd::prelude::*;

verus! {

/// Screen pixels along each side of a pixel of the picture.
pub const PIX_SCALE: usize = 3;

pub const SCREEN_WIDTH: usize = PIX_SCALE * 256;

pub const SCREEN_HEIGHT: usize = PIX_SCALE * 240;

/// Bytes in a frame: four for each screen pixel.
pub const FRAME_BYTES: usize = SCREEN_HEIGHT * SCREEN_WIDTH * 4;

/// A pixel array that fits exactly one frame: row after row, and in each
/// pixel red, green, blue and an opacity.
pub type NesFrame = [u8; 2_211_840];

/// Stands between the picture unit and the image on screen: the picture is
/// drawn into one frame while the other is shown.
pub struct Screen {
    /// The frame that is shown to the user.
    pub front: Box<NesFrame>,
    /// The frame currently being drawn.
    pub back: Box<NesFrame>,
}

/// Where the screen pixel (`sx`, `sy`) starts in a frame.
pub open spec fn offset_of(sx: int, sy: int) -> int {
    (sy * SCREEN_WIDTH + sx) * 4
}

/// The frame with the screen pixel (`sx`, `sy`) in `color`, opaque.
pub open spec fn with_dot(frame: NesFrame, sx: int, sy: int, color: Color) -> NesFrame {
    let at = offset_of(sx, sy);
    stored(stored(stored(stored(frame, at, color.0), at + 1, color.1), at + 2, color.2), at + 3, 0xFF)
}

/// The frame with the first `dots` screen pixels of row `row` of the block
/// that shows the pixel (`x`, `y`) of the picture in `color`.
pub open spec fn with_dots(frame: NesFrame, x: int, y: int, color: Color, row: int, dots: nat) -> NesFrame
    decreases dots,
{
    if dots == 0 {
        frame
    } else {
        with_dot(
            with_dots(frame, x, y, color, row, (dots - 1) as nat),
            PIX_SCALE * x + dots - 1,
            PIX_SCALE * y + row,
            color,
        )
    }
}

/// The frame with the first `rows` rows of the block that shows the pixel
/// (`x`, `y`) of the picture in `color`.
pub open spec fn with_rows(frame: NesFrame, x: int, y: int, color: Color, rows: nat) -> NesFrame
    decreases rows,
{
    if rows == 0 {
        frame
    } else {
        with_dots(
            with_rows(frame, x, y, color, (rows - 1) as nat),
            x,
            y,
            color,
            rows - 1,
            PIX_SCALE as nat,
        )
    }
}

/// Whether byte `i` of a frame belongs to the block of screen pixels that
/// shows the pixel (`x`, `y`) of the picture.
pub open spec fn in_block(i: int, x: int, y: int) -> bool {
    let sx = (i / 4) % (SCREEN_WIDTH as int);
    let sy = (i / 4) / (SCREEN_WIDTH as int);
    PIX_SCALE * x <= sx < PIX_SCALE * (x + 1) && PIX_SCALE * y <= sy < PIX_SCALE * (y + 1)
}

/// Byte `k` of a screen pixel in `color`: red, green, blue, and the
/// opacity, which is full.
pub open spec fn component(color: Color, k: int) -> u8 {
    if k == 0 {
        color.0
    } else if k == 1 {
        color.1
    } else if k == 2 {
        color.2
    } else {
        0xFF
    }
}

/// Byte `i` of a frame in which one screen pixel has been coloured.
proof fn lemma_dot(frame: NesFrame, sx: int, sy: int, color: Color, i: int)
    requires
        0 <= sx < SCREEN_WIDTH,
        0 <= sy < SCREEN_HEIGHT,
        0 <= i < FRAME_BYTES,
    ensures
        with_dot(frame, sx, sy, color)[i] == if i / 4 == sy * SCREEN_WIDTH + sx {
            component(color, i % 4)
        } else {
            frame[i]
        },
{
    assert(SCREEN_WIDTH == 768 && SCREEN_HEIGHT == 720 && FRAME_BYTES == 2_211_840);
    let at = offset_of(sx, sy);
    assert(0 <= at && at + 3 < 2_211_840);
    let red = stored(frame, at, color.0);
    let green = stored(red, at + 1, color.1);
    let blue = stored(green, at + 2, color.2);
    lemma_array_contents(frame, 0u8, at, color.0, i);
    lemma_array_contents(red, 0u8, at + 1, color.1, i);
    lemma_array_contents(green, 0u8, at + 2, color.2, i);
    lemma_array_contents(blue, 0u8, at + 3, 0xFFu8, i);
}

/// Byte `i` of a frame in which the first `dots` screen pixels of a row of
/// a block have been coloured.
proof fn lemma_dots(frame: NesFrame, x: int, y: int, color: Color, row: int, dots: nat, i: int)
    requires
        0 <= x < 256,
        0 <= y < 240,
        0 <= row < PIX_SCALE,
        dots <= PIX_SCALE,
        0 <= i < FRAME_BYTES,
    ensures
        with_dots(frame, x, y, color, row, dots)[i] == if (i / 4) / (SCREEN_WIDTH as int)
            == PIX_SCALE * y + row && PIX_SCALE * x <= (i / 4) % (SCREEN_WIDTH as int) < PIX_SCALE
            * x + dots {
            component(color, i % 4)
        } else {
            frame[i]
        },
    decreases dots,
{
    if dots > 0 {
        lemma_dots(frame, x, y, color, row, (dots - 1) as nat, i);
        lemma_dot(
            with_dots(frame, x, y, color, row, (dots - 1) as nat),
            PIX_SCALE * x + dots - 1,
            PIX_SCALE * y + row,
            color,
            i,
        );
    }
}

/// Byte `i` of a frame in which the first `rows` rows of a block have been
/// coloured.
proof fn lemma_rows(frame: NesFrame, x: int, y: int, color: Color, rows: nat, i: int)
    requires
        0 <= x < 256,
        0 <= y < 240,
        rows <= PIX_SCALE,
        0 <= i < FRAME_BYTES,
    ensures
        with_rows(frame, x, y, color, rows)[i] == if PIX_SCALE * y <= (i / 4) / (
        SCREEN_WIDTH as int) < PIX_SCALE * y + rows && PIX_SCALE * x <= (i / 4) % (
        SCREEN_WIDTH as int) < PIX_SCALE * (x + 1) {
            component(color, i % 4)
        } else {
            frame[i]
        },
    decreases rows,
{
    if rows > 0 {
        lemma_rows(frame, x, y, color, (rows - 1) as nat, i);
        lemma_dots(
            with_rows(frame, x, y, color, (rows - 1) as nat),
            x,
            y,
            color,
            rows - 1,
            PIX_SCALE as nat,
            i,
        );
    }
}

impl Screen {
    /// A pixel of the picture fills its block of screen pixels, each byte
    /// of the block with its part of the colour, and no other byte of the
    /// frame being drawn changes; the frame that is shown stays as it is.
    pub proof fn lemma_pixel_fills_its_block(self, x: u16, y: u16, color: Color)
        requires
            x < 256,
            y < 240,
        ensures
            self.drawn(x, y, color).front == self.front,
            forall|i: int|
                0 <= i < FRAME_BYTES ==> #[trigger] self.drawn(x, y, color).back[i] == if in_block(
                    i,
                    x as int,
                    y as int,
                ) {
                    component(color, i % 4)
                } else {
                    self.back[i]
                },
    {
        assert forall|i: int| 0 <= i < FRAME_BYTES implies #[trigger] self.drawn(
            x,
            y,
            color,
        ).back[i] == if in_block(i, x as int, y as int) {
            component(color, i % 4)
        } else {
            self.back[i]
        } by {
            lemma_rows(*self.back, x as int, y as int, color, PIX_SCALE as nat, i);
        }
    }

    /// A frame is shown once the picture that was drawn into it is
    /// complete: after two presentations each frame is back in its place.
    pub proof fn lemma_frames_alternate(self)
        ensures
            self.presented().front == self.back,
            self.presented().presented() == self,
    {
    }

    /// Two black, transparent frames.
    pub fn new() -> (s: Self)
        ensures
            *s.front == zeros::<2_211_840>(),
            *s.back == zeros::<2_211_840>(),
    {
        Screen { front: Box::new([0u8; 2_211_840]), back: Box::new([0u8; 2_211_840]) }
    }

    /// The frame to show.
    pub fn get_frame(&self) -> (frame: &NesFrame)
        ensures
            *frame == *self.front,
    {
        &self.front
    }

    /// Colours one screen pixel of the frame being drawn.
    fn draw_dot(&mut self, sx: usize, sy: usize, color: Color)
        requires
            sx < SCREEN_WIDTH,
            sy < SCREEN_HEIGHT,
        ensures
            *final(self).back == with_dot(*old(self).back, sx as int, sy as int, color),
            final(self).front == old(self).front,
    {
        let at = (sy * SCREEN_WIDTH + sx) * 4;
        self.back[at] = color.0;
        self.back[at + 1] = color.1;
        self.back[at + 2] = color.2;
        self.back[at + 3] = 0xFF;
    }
}

impl Default for Screen {
    fn default() -> (s: Self)
        ensures
            *s.front == zeros::<2_211_840>(),
            *s.back == zeros::<2_211_840>(),
    {
        Self::new()
    }
}

impl VideoInterface for Screen {
    /// The block of screen pixels that shows the pixel is coloured in the
    /// frame being drawn.
    open spec fn drawn(&self, x: u16, y: u16, color: Color) -> Self {
        Screen {
            front: self.front,
            back: Box::new(with_rows(*self.back, x as int, y as int, color, PIX_SCALE as nat)),
        }
    }

    /// The two frames change places.
    open spec fn presented(&self) -> Self {
        Screen { front: self.back, back: self.front }
    }

    fn draw_pixel(&mut self, x: u16, y: u16, color: Color) {
        let mut row: usize = 0;
        while row < PIX_SCALE
            invariant
                x < 256,
                y < 240,
                row <= PIX_SCALE,
                self.front == old(self).front,
                *self.back == with_rows(*old(self).back, x as int, y as int, color, row as nat),
            decreases PIX_SCALE - row,
        {
            let ghost before = *self.back;
            let mut dot: usize = 0;
            while dot < PIX_SCALE
                invariant
                    x < 256,
                    y < 240,
                    row < PIX_SCALE,
                    dot <= PIX_SCALE,
                    self.front == old(self).front,
                    *self.back == with_dots(before, x as int, y as int, color, row as int, dot as nat),
                decreases PIX_SCALE - dot,
            {
                self.draw_dot(PIX_SCALE * x as usize + dot, PIX_SCALE * y as usize + row, color);
                dot += 1;
            }
            row += 1;
        }
    }

    fn end_of_frame(&mut self) {
        std::mem::swap(&mut self.front, &mut self.back);
    }
}

} // verus!
