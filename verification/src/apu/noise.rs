use super::envelope::Envelope;
use super::length_counter::{LengthCounter, COUNTER_LOOKUP};
use vstd::prelude::*;

verus! {

/// The timer periods that the four bits of the period register select.
pub const PERIOD_LOOKUP: [u16; 16] = [
    4, 8, 16, 32, 64, 96, 128, 160, 202, 254, 380, 508, 762, 1016, 2034, 4068,
];

/// The noise channel.
#[derive(Debug, Clone, Copy, PartialEq, Eq, Structural)]
pub struct Noise {
    pub enabled: bool,
    pub len_ctr: LengthCounter,
    pub envelope: Envelope,
    pub restart_envelope: bool,
    /// The linear feedback shift register, fifteen bits wide.
    pub shift_register: u16,
    pub mode: bool,
    pub raw_timer_period: u16,
    pub timer_div: u16,
}

/// The shift register after one step: bit 0 exclusive-or bit 1, or bit 6 in
/// the short mode, enters at bit 14 while the rest moves one place down.
pub open spec fn feedback_shifted(shift_register: u16, mode: bool) -> u16 {
    let tap = if mode {
        (shift_register >> 6) & 0x0001
    } else {
        (shift_register >> 1) & 0x0001
    };
    (shift_register >> 1) | (((shift_register & 0x0001) ^ tap) << 14)
}

impl Noise {
    pub open spec fn wf(self) -> bool {
        self.envelope.wf()
    }

    /// The channel at power-on.
    pub open spec fn initial() -> Noise {
        Noise {
            enabled: false,
            len_ctr: LengthCounter { halt: false, counter: 0 },
            envelope: Envelope::initial(),
            restart_envelope: false,
            shift_register: 1,
            mode: false,
            raw_timer_period: 0,
            timer_div: 0,
        }
    }

    /// The channel once `v` has been written to its register `i`:
    /// 0 sets halt and envelope, 1 the mode and the period, and 2 loads the
    /// length and restarts the envelope.
    pub open spec fn written(self, i: usize, v: u8) -> Noise {
        if i == 0 {
            Noise {
                envelope: Envelope {
                    loop_env: v & 0x20 != 0,
                    disable: v & 0x10 != 0,
                    raw_period: v % 16,
                    ..self.envelope
                },
                len_ctr: LengthCounter { halt: v & 0x20 != 0, ..self.len_ctr },
                ..self
            }
        } else if i == 1 {
            Noise { mode: v & 0x80 != 0, raw_timer_period: PERIOD_LOOKUP[v as int % 16], ..self }
        } else {
            Noise {
                len_ctr: LengthCounter { counter: COUNTER_LOOKUP[v as int / 8], ..self.len_ctr },
                restart_envelope: true,
                ..self
            }
        }
    }

    /// The channel after a quarter-frame clock.
    pub open spec fn envelope_ticked(self) -> Noise {
        Noise {
            envelope: self.envelope.ticked(self.restart_envelope),
            restart_envelope: false,
            ..self
        }
    }

    /// The channel after a half-frame clock.
    pub open spec fn length_ticked(self) -> Noise {
        Noise { len_ctr: self.len_ctr.ticked(), ..self }
    }

    /// The channel after a timer clock: the timer counts down, and when it
    /// was at zero it is reloaded and the shift register steps.
    pub open spec fn timer_ticked(self) -> Noise {
        if self.timer_div > 0 {
            Noise { timer_div: (self.timer_div - 1) as u16, ..self }
        } else {
            Noise {
                shift_register: feedback_shifted(self.shift_register, self.mode),
                timer_div: self.raw_timer_period,
                ..self
            }
        }
    }

    /// What the channel puts out: the envelope's volume while bit 0 of the
    /// shift register is set and the length has not run out; else 0.
    pub open spec fn sample(self) -> u8 {
        if self.shift_register & 0x0001 != 0 && self.len_ctr.counter != 0 {
            self.envelope.volume()
        } else {
            0
        }
    }

    /// The channel switched on or off; a channel switched off loses its
    /// length.
    pub open spec fn switched(self, on: bool) -> Noise {
        if on {
            Noise { enabled: true, ..self }
        } else {
            Noise { enabled: false, ..self }.disabled()
        }
    }

    /// The channel once it has been switched off.
    pub open spec fn disabled(self) -> Noise {
        Noise { len_ctr: LengthCounter { counter: 0, ..self.len_ctr }, ..self }
    }

    pub fn new() -> (n: Self)
        ensures
            n == Noise::initial(),
            n.wf(),
    {
        Noise {
            enabled: false,
            len_ctr: LengthCounter::new(),
            envelope: Envelope::new(),
            restart_envelope: false,
            shift_register: 1,
            mode: false,
            raw_timer_period: 0,
            timer_div: 0,
        }
    }

    pub fn write_to_registers(&mut self, i: usize, v: u8)
        requires
            i < 3,
        ensures
            *final(self) == old(self).written(i, v),
            old(self).wf() ==> final(self).wf(),
    {
        if i == 0 {
            self.envelope.loop_env = v & 0x20 != 0;
            self.len_ctr.halt = v & 0x20 != 0;
            self.envelope.disable = v & 0x10 != 0;
            self.envelope.raw_period = v % 16;
        } else if i == 1 {
            self.mode = v & 0x80 != 0;
            self.raw_timer_period = PERIOD_LOOKUP[v as usize % 16];
        } else {
            self.len_ctr.load_counter(v / 8);
            self.restart_envelope = true;
        }
    }

    pub fn tick_envelope(&mut self)
        ensures
            *final(self) == old(self).envelope_ticked(),
            old(self).wf() ==> final(self).wf(),
    {
        self.envelope.tick(self.restart_envelope);
        self.restart_envelope = false;
    }

    pub fn tick_length(&mut self)
        ensures
            *final(self) == old(self).length_ticked(),
            old(self).wf() ==> final(self).wf(),
    {
        self.len_ctr.tick();
    }

    pub fn tick_timer(&mut self)
        ensures
            *final(self) == old(self).timer_ticked(),
            old(self).wf() ==> final(self).wf(),
    {
        match self.timer_div.checked_sub(1) {
            Some(n) => self.timer_div = n,
            None => {
                let bit0 = self.shift_register & 0x0001;
                let tap = if self.mode {
                    (self.shift_register >> 6) & 0x0001
                } else {
                    (self.shift_register >> 1) & 0x0001
                };
                self.shift_register = (self.shift_register >> 1) | ((bit0 ^ tap) << 14);
                self.timer_div = self.raw_timer_period;
            },
        }
    }

    pub fn digital_sample(&self) -> (v: u8)
        ensures
            v == self.sample(),
            self.wf() ==> v <= 15,
    {
        if self.shift_register & 0x0001 != 0 && !self.len_ctr.is_zero() {
            self.envelope.get_volume()
        } else {
            0
        }
    }

    /// Switches the channel on or off.
    pub fn switch(&mut self, on: bool)
        ensures
            *final(self) == old(self).switched(on),
            old(self).wf() ==> final(self).wf(),
    {
        self.enabled = on;
        if !on {
            self.disable()
        }
    }

    pub fn disable(&mut self)
        ensures
            *final(self) == old(self).disabled(),
            old(self).wf() ==> final(self).wf(),
    {
        self.len_ctr.set_zero();
    }

    #[inline]
    pub fn length_counter_gt_zero(&self) -> (b: bool)
        ensures
            b == (self.len_ctr.counter > 0),
    {
        !self.len_ctr.is_zero()
    }
}

} // verus!
