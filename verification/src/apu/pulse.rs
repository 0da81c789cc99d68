use super::envelope::Envelope;
use super::length_counter::{LengthCounter, COUNTER_LOOKUP};
use super::sweep::{Sweep, PERIOD_MAX};
use vstd::prelude::*;

verus! {

/// The four duty cycles, eight steps each.
pub const SEQUENCER_STEPS: [u8; 32] = [
    0, 1, 0, 0, 0, 0, 0, 0, 0, 1, 1, 0, 0, 0, 0, 0, 0, 1, 1, 1, 1, 0, 0, 0, 1, 0, 0, 1, 1, 1, 1, 1,
];

/// A pulse channel.
#[derive(Debug, Clone, Copy, PartialEq, Eq, Structural)]
pub struct Pulse {
    pub enabled: bool,
    pub duty_cycle: u8,
    pub envelope: Envelope,
    pub sweep: Sweep,
    pub length_counter: LengthCounter,
    /// NOTE: The sequencer is ticked every other timer cycle, so it goes
    /// from 0-15 instead of 0-7
    pub sequencer: usize,
    pub register_four_write: bool,
    pub register_two_write: bool,
    pub raw_timer_period: u16,
    pub timer_div: u16,
}

impl Pulse {
    pub open spec fn wf(self) -> bool {
        &&& self.duty_cycle < 4
        &&& self.sequencer < 16
        &&& self.raw_timer_period <= PERIOD_MAX
        &&& self.sweep.wf()
        &&& self.envelope.wf()
    }

    /// The channel at power-on.
    pub open spec fn initial(channel_number: u8) -> Pulse {
        Pulse {
            enabled: false,
            duty_cycle: 0,
            envelope: Envelope::initial(),
            sweep: Sweep {
                enable: false,
                raw_period: 0,
                negate: false,
                shift: 0,
                negate_mode: channel_number,
                divider: 0,
            },
            length_counter: LengthCounter { halt: false, counter: 0 },
            sequencer: 0,
            register_four_write: false,
            register_two_write: false,
            raw_timer_period: 0,
            timer_div: 0,
        }
    }

    /// The channel once `v` has been written to its register `i`:
    /// 0 sets duty, halt and envelope, 1 the sweep, 2 the low eight bits of
    /// the period, and 3 its high three bits and, on an enabled channel, the
    /// length.
    pub open spec fn written(self, i: usize, v: u8) -> Pulse {
        if i == 0 {
            Pulse {
                duty_cycle: v / 64,
                length_counter: LengthCounter { halt: v & 0x20 != 0, ..self.length_counter },
                envelope: Envelope {
                    loop_env: v & 0x20 != 0,
                    disable: v & 0x10 != 0,
                    raw_period: v % 16,
                    ..self.envelope
                },
                ..self
            }
        } else if i == 1 {
            Pulse {
                sweep: Sweep {
                    enable: v & 0x80 != 0,
                    raw_period: v / 16 % 8,
                    negate: v & 0x08 != 0,
                    shift: v % 8,
                    ..self.sweep
                },
                register_two_write: true,
                ..self
            }
        } else if i == 2 {
            Pulse { raw_timer_period: (self.raw_timer_period / 256 % 8 * 256 + v) as u16, ..self }
        } else {
            Pulse {
                raw_timer_period: (v % 8 * 256 + self.raw_timer_period % 256) as u16,
                length_counter: if self.enabled {
                    LengthCounter { counter: COUNTER_LOOKUP[v as int / 8], ..self.length_counter }
                } else {
                    self.length_counter
                },
                register_four_write: true,
                ..self
            }
        }
    }

    /// What the channel puts out: the envelope's volume while the duty
    /// cycle is high, the length has not run out and the sweep does not
    /// mute; else 0.
    pub open spec fn sample(self) -> u8 {
        if !self.sweep.muted(self.raw_timer_period) && SEQUENCER_STEPS[self.duty_cycle * 8
            + self.sequencer / 2] == 1 && self.length_counter.counter != 0 {
            self.envelope.volume()
        } else {
            0
        }
    }

    /// The channel after a quarter-frame clock.
    pub open spec fn envelope_ticked(self) -> Pulse {
        Pulse {
            envelope: self.envelope.ticked(self.register_four_write),
            register_four_write: false,
            ..self
        }
    }

    /// The channel after a half-frame clock.
    pub open spec fn length_and_sweep_ticked(self) -> Pulse {
        Pulse {
            sweep: self.sweep.ticked(self.register_two_write, self.raw_timer_period).0,
            raw_timer_period: self.sweep.ticked(self.register_two_write, self.raw_timer_period).1,
            length_counter: self.length_counter.ticked(),
            register_two_write: false,
            ..self
        }
    }

    /// The channel after a timer clock: the timer counts down, and when it
    /// was at zero it is reloaded and the sequencer steps.
    pub open spec fn timer_ticked(self) -> Pulse {
        if self.timer_div > 0 {
            Pulse { timer_div: (self.timer_div - 1) as u16, ..self }
        } else {
            Pulse {
                sequencer: ((self.sequencer + 1) % 16) as usize,
                timer_div: self.raw_timer_period,
                ..self
            }
        }
    }

    /// The channel switched on or off; a channel switched off loses its
    /// length.
    pub open spec fn switched(self, on: bool) -> Pulse {
        if on {
            Pulse { enabled: true, ..self }
        } else {
            Pulse { enabled: false, ..self }.disabled()
        }
    }

    /// The channel once it has been switched off.
    pub open spec fn disabled(self) -> Pulse {
        Pulse { length_counter: LengthCounter { counter: 0, ..self.length_counter }, ..self }
    }

    pub fn write_to_registers(&mut self, i: usize, v: u8)
        requires
            old(self).wf(),
            i < 4,
        ensures
            *final(self) == old(self).written(i, v),
            final(self).wf(),
    {
        if i == 0 {
            self.duty_cycle = v / 64;
            self.length_counter.halt = v & 0x20 != 0;
            self.envelope.loop_env = v & 0x20 != 0;
            self.envelope.disable = v & 0x10 != 0;
            self.envelope.raw_period = v % 16;
        } else if i == 1 {
            self.sweep.enable = v & 0x80 != 0;
            self.sweep.raw_period = v / 16 % 8;
            self.sweep.negate = v & 0x08 != 0;
            self.sweep.shift = v % 8;
            self.register_two_write = true;
        } else if i == 2 {
            self.raw_timer_period = self.raw_timer_period / 256 % 8 * 256 + v as u16;
        } else {
            self.raw_timer_period = (v % 8) as u16 * 256 + self.raw_timer_period % 256;
            if self.enabled {
                self.length_counter.load_counter(v / 8);
            }
            self.register_four_write = true;
        }
    }

    pub fn new(channel_number: u8) -> (p: Self)
        requires
            channel_number <= 1,
        ensures
            p == Pulse::initial(channel_number),
            p.wf(),
    {
        Pulse {
            enabled: false,
            duty_cycle: 0,
            envelope: Envelope::new(),
            sweep: Sweep::new(channel_number),
            length_counter: LengthCounter::new(),
            sequencer: 0,
            register_four_write: false,
            register_two_write: false,
            raw_timer_period: 0,
            timer_div: 0,
        }
    }

    pub fn digital_sample(&self) -> (v: u8)
        requires
            self.wf(),
        ensures
            v == self.sample(),
            v <= 15,
    {
        let envelope = self.envelope.get_volume();
        let sweep_mute = self.sweep.is_muted(self.raw_timer_period);
        let sequencer_val = SEQUENCER_STEPS[self.duty_cycle as usize * 8 + self.sequencer / 2];
        let length_mute: bool = self.length_counter.is_zero();

        if !sweep_mute && sequencer_val == 1 && !length_mute {
            envelope
        } else {
            0
        }
    }

    pub fn tick_envelope(&mut self)
        ensures
            *final(self) == old(self).envelope_ticked(),
            old(self).wf() ==> final(self).wf(),
    {
        self.envelope.tick(self.register_four_write);
        self.register_four_write = false;
    }

    pub fn tick_length_and_sweep(&mut self)
        requires
            old(self).wf(),
        ensures
            *final(self) == old(self).length_and_sweep_ticked(),
            final(self).wf(),
    {
        let reload = self.register_two_write;
        self.sweep.tick(reload, &mut self.raw_timer_period);
        self.length_counter.tick();
        self.register_two_write = false;
    }

    pub fn tick_timer(&mut self)
        requires
            old(self).wf(),
        ensures
            *final(self) == old(self).timer_ticked(),
            final(self).wf(),
    {
        match self.timer_div.checked_sub(1) {
            Some(n) => self.timer_div = n,
            None => {
                self.sequencer = (self.sequencer + 1) % 16;
                self.timer_div = self.raw_timer_period;
            },
        }
    }

    #[inline]
    pub fn length_counter_gt_zero(&self) -> (b: bool)
        ensures
            b == (self.length_counter.counter > 0),
    {
        !self.length_counter.is_zero()
    }

    /// Switches the channel on or off.
    pub fn switch(&mut self, on: bool)
        ensures
            *final(self) == old(self).switched(on),
            old(self).wf() ==> final(self).wf(),
    {
        self.enabled = on;
        if !on {
            self.disable()
        }
    }

    pub fn disable(&mut self)
        ensures
            *final(self) == old(self).disabled(),
            old(self).wf() ==> final(self).wf(),
    {
        self.length_counter.set_zero();
    }
}

} // verus!
