use super::length_counter::{LengthCounter, COUNTER_LOOKUP};
use super::sweep::PERIOD_MAX;
use vstd::prelude::*;

verus! {

/// The thirty-two steps of the triangle wave.
pub const SEQUENCE: [u8; 32] = [
    0xf, 0xe, 0xd, 0xc, 0xb, 0xa, 0x9, 0x8, 0x7, 0x6, 0x5, 0x4, 0x3, 0x2, 0x1, 0x0, 0x0, 0x1, 0x2,
    0x3, 0x4, 0x5, 0x6, 0x7, 0x8, 0x9, 0xa, 0xb, 0xc, 0xd, 0xe, 0xf,
];

/// The triangle channel.
#[derive(Debug, Clone, Copy, PartialEq, Eq, Structural)]
pub struct Triangle {
    pub enabled: bool,
    pub len_ctr: LengthCounter,
    pub lin_ctr_reload: bool,
    pub lin_ctr_reload_val: u8,
    pub lin_ctr_control: bool,
    pub lin_ctr_val: u8,
    pub sequencer: usize,
    pub raw_timer_period: u16,
    pub timer_div: u16,
}

impl Triangle {
    pub open spec fn wf(self) -> bool {
        self.sequencer < 32 && self.raw_timer_period <= PERIOD_MAX
    }

    /// The channel at power-on.
    pub open spec fn initial() -> Triangle {
        Triangle {
            enabled: false,
            len_ctr: LengthCounter { halt: false, counter: 0 },
            lin_ctr_reload: false,
            lin_ctr_reload_val: 0,
            lin_ctr_control: false,
            lin_ctr_val: 0,
            sequencer: 0,
            raw_timer_period: 0,
            timer_div: 0,
        }
    }

    /// The channel once `v` has been written to its register `i`:
    /// 0 sets the control flag and the linear counter's reload value, 1 the
    /// low eight bits of the period, and 2 its high three bits and, on an
    /// enabled channel, the length, and asks for a reload of the linear
    /// counter.
    pub open spec fn written(self, i: usize, v: u8) -> Triangle {
        if i == 0 {
            Triangle {
                len_ctr: LengthCounter { halt: v & 0x80 != 0, ..self.len_ctr },
                lin_ctr_control: v & 0x80 != 0,
                lin_ctr_reload_val: v % 128,
                ..self
            }
        } else if i == 1 {
            Triangle {
                raw_timer_period: (self.raw_timer_period / 256 % 8 * 256 + v) as u16,
                ..self
            }
        } else {
            Triangle {
                len_ctr: if self.enabled {
                    LengthCounter { counter: COUNTER_LOOKUP[v as int / 8], ..self.len_ctr }
                } else {
                    self.len_ctr
                },
                raw_timer_period: (v % 8 * 256 + self.raw_timer_period % 256) as u16,
                lin_ctr_reload: true,
                ..self
            }
        }
    }

    /// The channel after a timer clock. A period below 2 holds the channel.
    /// Otherwise the timer counts down, and when it was at zero it is
    /// reloaded and the sequencer steps, provided neither the length nor the
    /// linear counter has run out.
    pub open spec fn timer_ticked(self) -> Triangle {
        if self.raw_timer_period < 2 {
            self
        } else if self.timer_div > 0 {
            Triangle { timer_div: (self.timer_div - 1) as u16, ..self }
        } else {
            Triangle {
                sequencer: if self.len_ctr.counter != 0 && self.lin_ctr_val != 0 {
                    ((self.sequencer + 1) % 32) as usize
                } else {
                    self.sequencer
                },
                timer_div: self.raw_timer_period,
                ..self
            }
        }
    }

    /// The channel after a quarter-frame clock: the linear counter is
    /// reloaded if that was asked for, else counts down to zero; the request
    /// stands while the control flag is set.
    pub open spec fn lin_ctr_ticked(self) -> Triangle {
        Triangle {
            lin_ctr_val: if self.lin_ctr_reload {
                self.lin_ctr_reload_val
            } else if self.lin_ctr_val != 0 {
                (self.lin_ctr_val - 1) as u8
            } else {
                0
            },
            lin_ctr_reload: self.lin_ctr_reload && self.lin_ctr_control,
            ..self
        }
    }

    /// The channel after a half-frame clock.
    pub open spec fn length_ticked(self) -> Triangle {
        Triangle { len_ctr: self.len_ctr.ticked(), ..self }
    }

    /// What the channel puts out: the current step of the wave.
    pub open spec fn sample(self) -> u8 {
        SEQUENCE[self.sequencer as int]
    }

    /// The channel switched on or off; a channel switched off loses its
    /// length.
    pub open spec fn switched(self, on: bool) -> Triangle {
        if on {
            Triangle { enabled: true, ..self }
        } else {
            Triangle { enabled: false, ..self }.disabled()
        }
    }

    /// The channel once it has been switched off.
    pub open spec fn disabled(self) -> Triangle {
        Triangle { len_ctr: LengthCounter { counter: 0, ..self.len_ctr }, ..self }
    }

    pub fn new() -> (t: Self)
        ensures
            t == Triangle::initial(),
            t.wf(),
    {
        Triangle {
            enabled: false,
            len_ctr: LengthCounter::new(),
            lin_ctr_reload: false,
            lin_ctr_reload_val: 0,
            lin_ctr_control: false,
            lin_ctr_val: 0,
            sequencer: 0,
            raw_timer_period: 0,
            timer_div: 0,
        }
    }

    pub fn write_to_registers(&mut self, i: usize, v: u8)
        requires
            old(self).wf(),
            i < 3,
        ensures
            *final(self) == old(self).written(i, v),
            final(self).wf(),
    {
        if i == 0 {
            self.len_ctr.halt = v & 0x80 != 0;
            self.lin_ctr_control = v & 0x80 != 0;
            self.lin_ctr_reload_val = v % 128;
        } else if i == 1 {
            self.raw_timer_period = self.raw_timer_period / 256 % 8 * 256 + v as u16;
        } else {
            if self.enabled {
                self.len_ctr.load_counter(v / 8);
            }
            self.raw_timer_period = (v % 8) as u16 * 256 + self.raw_timer_period % 256;
            self.lin_ctr_reload = true;
        }
    }

    pub fn tick_timer(&mut self)
        requires
            old(self).wf(),
        ensures
            *final(self) == old(self).timer_ticked(),
            final(self).wf(),
    {
        if self.raw_timer_period < 2 {
            // The audio is unfiltered: to prevent popping noises, halt the
            // channel whenever the period is below 2
            return ;
        }
        match self.timer_div.checked_sub(1) {
            Some(n) => self.timer_div = n,
            None => {
                if !self.len_ctr.is_zero() && self.lin_ctr_val != 0 {
                    self.sequencer = (self.sequencer + 1) % 32;
                }
                self.timer_div = self.raw_timer_period;
            },
        }
    }

    pub fn tick_lin_ctr(&mut self)
        ensures
            *final(self) == old(self).lin_ctr_ticked(),
            old(self).wf() ==> final(self).wf(),
    {
        if self.lin_ctr_reload {
            self.lin_ctr_val = self.lin_ctr_reload_val;
        } else {
            if self.lin_ctr_val != 0 {
                self.lin_ctr_val -= 1;
            }
        }
        if !self.lin_ctr_control {
            self.lin_ctr_reload = false;
        }
    }

    pub fn tick_length(&mut self)
        ensures
            *final(self) == old(self).length_ticked(),
            old(self).wf() ==> final(self).wf(),
    {
        self.len_ctr.tick();
    }

    pub fn digital_sample(&self) -> (v: u8)
        requires
            self.wf(),
        ensures
            v == self.sample(),
            v <= 15,
    {
        SEQUENCE[self.sequencer]
    }

    /// Switches the channel on or off.
    pub fn switch(&mut self, on: bool)
        ensures
            *final(self) == old(self).switched(on),
            old(self).wf() ==> final(self).wf(),
    {
        self.enabled = on;
        if !on {
            self.disable()
        }
    }

    pub fn disable(&mut self)
        ensures
            *final(self) == old(self).disabled(),
            old(self).wf() ==> final(self).wf(),
    {
        self.len_ctr.set_zero();
    }

    #[inline]
    pub fn length_counter_gt_zero(&self) -> (b: bool)
        ensures
            b == (self.len_ctr.counter > 0),
    {
        !self.len_ctr.is_zero()
    }
}

} // verus!
