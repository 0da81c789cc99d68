use vstd::prelude::*;

verus! {

/// The lengths that the five bits of a length load select.
pub const COUNTER_LOOKUP: [u8; 32] = [
    0x0A, 0xFE, 0x14, 0x02, 0x28, 0x04, 0x50, 0x06, 0xA0, 0x08, 0x3C, 0x0A, 0x0E, 0x0C, 0x1A, 0x0E,
    0x0C, 0x10, 0x18, 0x12, 0x30, 0x14, 0x60, 0x16, 0xC0, 0x18, 0x48, 0x1A, 0x10, 0x1C, 0x20, 0x1E,
];

/// Counts a note's length down to silence.
#[derive(Debug, Clone, Copy, PartialEq, Eq, Structural)]
pub struct LengthCounter {
    pub halt: bool,
    pub counter: u8,
}

impl LengthCounter {
    /// The counter after a half-frame clock: one less, unless it is halted or
    /// at zero.
    pub open spec fn ticked(self) -> LengthCounter {
        if !self.halt && self.counter > 0 {
            LengthCounter { counter: (self.counter - 1) as u8, ..self }
        } else {
            self
        }
    }

    pub fn new() -> (c: Self)
        ensures
            c == (LengthCounter { halt: false, counter: 0 }),
    {
        LengthCounter { halt: false, counter: 0 }
    }

    pub fn tick(&mut self)
        ensures
            *final(self) == old(self).ticked(),
    {
        if !self.halt && self.counter > 0 {
            self.counter -= 1;
        }
    }

    pub fn is_zero(&self) -> (b: bool)
        ensures
            b == (self.counter == 0),
    {
        self.counter == 0
    }

    /// Loads the length counter with a value determined by a table
    pub fn load_counter(&mut self, i: u8)
        requires
            i < 32,
        ensures
            *final(self) == (LengthCounter { counter: COUNTER_LOOKUP[i as int], ..*old(self) }),
    {
        self.counter = COUNTER_LOOKUP[i as usize];
    }

    pub fn set_zero(&mut self)
        ensures
            *final(self) == (LengthCounter { counter: 0, ..*old(self) }),
    {
        self.counter = 0;
    }
}

} // verus!
