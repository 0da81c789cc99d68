use vstd::prelude::*;

verus! {

/// Represents an RGB color
#[derive(Debug, Clone, Copy, PartialEq, Eq, Structural)]
pub struct Color(pub u8, pub u8, pub u8);

impl Color {
    pub fn into_tuple(self) -> (t: (u8, u8, u8))
        ensures
            t == (self.0, self.1, self.2),
    {
        (self.0, self.1, self.2)
    }
}

/// Width of the picture in pixels.
pub const PICTURE_WIDTH: u16 = 256;

/// Height of the picture in pixels.
pub const PICTURE_HEIGHT: u16 = 240;

/// Where the picture unit sends its picture. What a sink shows after a call
/// is a function of what it showed before and of what it was handed:
/// `drawn` and `presented`. A verified sink says there what its two methods
/// do; of any other nothing is known.
pub trait VideoInterface: Sized {
    /// The sink once the pixel at (`x`, `y`) has been drawn in `color`.
    open spec fn drawn(&self, x: u16, y: u16, color: Color) -> Self {
        arbitrary()
    }

    /// The sink once it has been told that the frame is complete.
    open spec fn presented(&self) -> Self {
        arbitrary()
    }

    /// Outputs a single pixel to the interface at the specified location,
    /// which lies within the picture.
    fn draw_pixel(&mut self, x: u16, y: u16, color: Color)
        requires
            x < PICTURE_WIDTH,
            y < PICTURE_HEIGHT,
        ensures
            *final(self) == old(self).drawn(x, y, color),
    ;

    /// Signals to the interface that a full frame has been sent.
    fn end_of_frame(&mut self)
        ensures
            *final(self) == old(self).presented(),
    ;
}

/// A sink that shows nothing.
#[derive(Debug, Clone, Copy, PartialEq, Eq, Structural)]
pub struct DummyVideo();

impl VideoInterface for DummyVideo {
    open spec fn drawn(&self, x: u16, y: u16, color: Color) -> Self {
        *self
    }

    open spec fn presented(&self) -> Self {
        *self
    }

    fn draw_pixel(&mut self, _x: u16, _y: u16, _color: Color) {
    }

    fn end_of_frame(&mut self) {
    }
}

} // verus!
