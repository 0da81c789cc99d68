use vstd::prelude::*;

verus! {

/// Represents the envelope component of an APU channel
#[derive(Debug, Clone, Copy, PartialEq, Eq, Structural)]
pub struct Envelope {
    /// Whether the decay starts over from 15 when it has reached 0.
    pub loop_env: bool,
    /// Whether the volume is constant, the decay being unused.
    pub disable: bool,
    /// The divider's period, which is also the constant volume.
    pub raw_period: u8,
    pub divider_time: u8,
    /// The decay level, 15 down to 0.
    pub counter: u8,
}

impl Envelope {
    /// The decay level and the period are numbers of four bits.
    pub open spec fn wf(self) -> bool {
        self.counter <= 15 && self.raw_period <= 15
    }

    /// The envelope at power-on.
    pub open spec fn initial() -> Envelope {
        Envelope { loop_env: false, disable: false, raw_period: 1, divider_time: 1, counter: 0 }
    }

    /// The envelope after a quarter-frame clock. A start (`restart`) sets
    /// the decay to 15 and reloads the divider. Otherwise the divider counts
    /// down; when it was at zero it is reloaded and the decay counts down,
    /// or, at 0 and looping, returns to 15.
    pub open spec fn ticked(self, restart: bool) -> Envelope {
        if restart {
            Envelope { divider_time: self.raw_period, counter: 15, ..self }
        } else if self.divider_time > 0 {
            Envelope { divider_time: (self.divider_time - 1) as u8, ..self }
        } else {
            Envelope {
                counter: if self.counter > 0 {
                    (self.counter - 1) as u8
                } else if self.loop_env {
                    15
                } else {
                    0
                },
                divider_time: self.raw_period,
                ..self
            }
        }
    }

    /// The volume that the envelope puts out: the period when the volume is
    /// constant, else the decay level.
    pub open spec fn volume(self) -> u8 {
        if self.disable {
            self.raw_period
        } else {
            self.counter
        }
    }

    pub fn new() -> (e: Self)
        ensures
            e == Envelope::initial(),
            e.wf(),
    {
        Envelope { loop_env: false, disable: false, raw_period: 1, divider_time: 1, counter: 0 }
    }

    pub fn tick(&mut self, register_four_write: bool)
        ensures
            *final(self) == old(self).ticked(register_four_write),
            old(self).wf() ==> final(self).wf(),
    {
        if register_four_write {
            self.divider_time = self.raw_period;
            self.counter = 15;
        } else {
            match self.divider_time.checked_sub(1) {
                Some(n) => self.divider_time = n,
                None => {
                    if self.loop_env && self.counter == 0 {
                        self.counter = 15;
                    } else if self.counter > 0 {
                        self.counter -= 1;
                    }
                    self.divider_time = self.raw_period;
                },
            }
        }
    }

    pub fn get_volume(&self) -> (v: u8)
        ensures
            v == self.volume(),
            self.wf() ==> v <= 15,
    {
        if self.disable {
            self.raw_period
        } else {
            self.counter
        }
    }
}

} // verus!
