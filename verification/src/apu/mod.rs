pub mod apu_registers;
pub mod audio_output;
pub mod envelope;
pub mod laws;
pub mod length_counter;
pub mod noise;
pub mod pulse;
pub mod sweep;
pub mod triangle;

pub use apu_registers::APURegisters;
pub use audio_output::{AudioOutput, ChannelLevels, DummyAudio};

use crate::bytes::{filled, stored};
use crate::error::Error;
use noise::Noise;
use pulse::Pulse;
use triangle::Triangle;
use vstd::prelude::*;
use vstd::slice::slice_subrange;

verus! {

/// The number of samples after which the buffer is handed to the sink.
pub const SAMPLE_OUT: usize = 4096;

/// The size of the sample buffer: one more than the threshold.
pub const BUFFER_SIZE: usize = 4097;

/// The calls of `tick` between two steps of the frame sequencer, times four.
pub const QUARTER_FRAME_DIVIDER_PERIOD: u32 = 89490;

/// The calls of `tick` in a second.
pub const TICK_RATE: i32 = 5_369_318;

/// The sound unit.
pub struct APU<T: AudioOutput> {
    pub pulse_1: Pulse,
    pub pulse_2: Pulse,
    pub triangle: Triangle,
    pub noise: Noise,
    pub quarter_frame_divider: u32,
    /// The frame sequencer's mode: false for four steps, true for five.
    pub frame_seq_mode: bool,
    pub frame_seq: u8,
    pub timer_div: u8,
    pub sample_buffer: [ChannelLevels; BUFFER_SIZE],
    /// How many samples the buffer holds.
    pub buffered: usize,
    pub sample_out: T,
    /// The time until the next sample is due, in ticks times the sample
    /// rate.
    pub sample_divider: i32,
    pub frame_irq: bool,
    pub irq_inhibit: bool,
}

/// Silence.
pub open spec fn silence() -> ChannelLevels {
    ChannelLevels { pulse_1: 0, pulse_2: 0, triangle: 0, noise: 0 }
}

/// The sample rate as the sample clock counts it: a sink cannot be fed
/// more than one sample a tick.
pub open spec fn clocked_rate(rate: usize) -> int {
    if rate > TICK_RATE {
        TICK_RATE as int
    } else {
        rate as int
    }
}

impl<T: AudioOutput> APU<T> {
    pub open spec fn wf(&self) -> bool {
        &&& self.pulse_1.wf()
        &&& self.pulse_2.wf()
        &&& self.triangle.wf()
        &&& self.noise.wf()
        &&& self.frame_seq < (if self.frame_seq_mode {
            5u8
        } else {
            4u8
        })
        &&& self.buffered <= SAMPLE_OUT
        &&& 0 <= self.sample_divider < TICK_RATE
    }

    /// The sound unit at power-on, with `output` as its sink: the channels
    /// at power-on, the frame sequencer at the start of the four-step
    /// sequence, the sample buffer empty and the first sample due at once.
    pub open spec fn initial(output: T) -> Self {
        APU {
            pulse_1: Pulse::initial(0),
            pulse_2: Pulse::initial(1),
            triangle: Triangle::initial(),
            noise: Noise::initial(),
            quarter_frame_divider: QUARTER_FRAME_DIVIDER_PERIOD,
            frame_seq_mode: false,
            frame_seq: 0,
            timer_div: 0,
            sample_buffer: filled::<ChannelLevels, BUFFER_SIZE>(silence()),
            buffered: 0,
            sample_out: output,
            sample_divider: 0,
            frame_irq: false,
            irq_inhibit: false,
        }
    }

    /// The sound unit once the envelopes and the triangle's linear counter
    /// have been clocked.
    pub open spec fn quarter_clocked(self) -> Self {
        APU {
            pulse_1: self.pulse_1.envelope_ticked(),
            pulse_2: self.pulse_2.envelope_ticked(),
            triangle: self.triangle.lin_ctr_ticked(),
            noise: self.noise.envelope_ticked(),
            ..self
        }
    }

    /// The sound unit once the length counters and the sweeps have been
    /// clocked.
    pub open spec fn half_clocked(self) -> Self {
        APU {
            pulse_1: self.pulse_1.length_and_sweep_ticked(),
            pulse_2: self.pulse_2.length_and_sweep_ticked(),
            triangle: self.triangle.length_ticked(),
            noise: self.noise.length_ticked(),
            ..self
        }
    }

    /// The sound unit once the status register `0x4015` has been written:
    /// bits 0 to 3 switch the two pulse channels, the triangle and the noise
    /// on or off, and a channel switched off loses its length.
    pub open spec fn status_written(self, v: u8) -> Self {
        APU {
            pulse_1: self.pulse_1.switched(v & 0b0000_0001 != 0),
            pulse_2: self.pulse_2.switched(v & 0b0000_0010 != 0),
            triangle: self.triangle.switched(v & 0b0000_0100 != 0),
            noise: self.noise.switched(v & 0b0000_1000 != 0),
            ..self
        }
    }

    /// The sound unit once the frame counter `0x4017` has been written: bit
    /// 7 is the mode, and a change of mode starts the sequence over; the
    /// five-step mode clocks everything at once; bit 6 inhibits the frame
    /// IRQ and clears it; the divider starts over.
    pub open spec fn frame_counter_written(self, v: u8) -> Self {
        let mode = v & 0b1000_0000 != 0;
        let p1 = APU {
            frame_seq_mode: mode,
            frame_seq: if mode != self.frame_seq_mode {
                0
            } else {
                self.frame_seq
            },
            ..self
        };
        let p2 = if mode {
            p1.quarter_clocked().half_clocked()
        } else {
            p1
        };
        APU {
            frame_irq: p2.frame_irq && v & 0b0100_0000 == 0,
            irq_inhibit: v & 0b0100_0000 != 0,
            quarter_frame_divider: (QUARTER_FRAME_DIVIDER_PERIOD - 1) as u32,
            ..p2
        }
    }

    /// The status that a read of `0x4015` returns: bits 0 to 3 tell which
    /// channels have length left, bit 6 tells of a frame IRQ.
    pub open spec fn status(self) -> u8 {
        (if self.pulse_1.length_counter.counter > 0 {
            0x01u8
        } else {
            0u8
        }) | (if self.pulse_2.length_counter.counter > 0 {
            0x02u8
        } else {
            0u8
        }) | (if self.triangle.len_ctr.counter > 0 {
            0x04u8
        } else {
            0u8
        }) | (if self.noise.len_ctr.counter > 0 {
            0x08u8
        } else {
            0u8
        }) | (if !self.irq_inhibit && self.frame_irq {
            0x40u8
        } else {
            0u8
        })
    }

    /// The sound unit once the register at offset `addr` from `0x4000` has
    /// been written.
    pub open spec fn register_written(self, addr: usize, v: u8) -> Self {
        if addr <= 3 {
            APU { pulse_1: self.pulse_1.written(addr, v), ..self }
        } else if addr <= 7 {
            APU { pulse_2: self.pulse_2.written((addr - 4) as usize, v), ..self }
        } else if addr == 0x8 {
            APU { triangle: self.triangle.written(0, v), ..self }
        } else if addr == 0xa {
            APU { triangle: self.triangle.written(1, v), ..self }
        } else if addr == 0xb {
            APU { triangle: self.triangle.written(2, v), ..self }
        } else if addr == 0xc {
            APU { noise: self.noise.written(0, v), ..self }
        } else if addr == 0xe {
            APU { noise: self.noise.written(1, v), ..self }
        } else if addr == 0xf {
            APU { noise: self.noise.written(2, v), ..self }
        } else if addr == 0x15 {
            self.status_written(v)
        } else if addr == 0x17 {
            self.frame_counter_written(v)
        } else {
            self
        }
    }

    /// The sound unit and the register file once the accesses that the
    /// register file notes have been acted on: the last write reaches the
    /// channel or counter it was meant for, a read of `0x4015` clears the
    /// frame IRQ, and the status is brought up to date. The notes are
    /// consumed.
    pub open spec fn registers_served(self, regs: APURegisters) -> (Self, APURegisters) {
        let p1 = match regs.last_write {
            Some(addr) => if addr < 0x20 {
                self.register_written(addr, regs.registers[addr as int])
            } else {
                self
            },
            None => self,
        };
        let p2 = if regs.last_read == Some(0x15usize) {
            APU { frame_irq: false, ..p1 }
        } else {
            p1
        };
        (
            p2,
            APURegisters { status_out: p2.status(), last_read: None, last_write: None, ..regs },
        )
    }

    /// Whether the frame sequencer steps at this tick.
    pub open spec fn sequencer_due(self) -> bool {
        self.quarter_frame_divider < 4
    }

    /// The sound unit once the frame sequencer has done the step it stands
    /// at. In the four-step mode every step clocks the envelopes, steps 1 and
    /// 3 the lengths and sweeps as well, and step 3 raises the frame IRQ
    /// unless it is inhibited. In the five-step mode steps 0 and 2 clock
    /// everything, steps 1 and 3 the envelopes, and step 4 nothing.
    pub open spec fn sequencer_stepped(self) -> Self {
        if !self.frame_seq_mode {
            let p = if self.frame_seq == 1 || self.frame_seq == 3 {
                self.quarter_clocked().half_clocked()
            } else {
                self.quarter_clocked()
            };
            APU {
                frame_irq: p.frame_irq || (self.frame_seq == 3 && !self.irq_inhibit),
                frame_seq: ((self.frame_seq + 1) % 4) as u8,
                ..p
            }
        } else {
            let p = if self.frame_seq == 0 || self.frame_seq == 2 {
                self.quarter_clocked().half_clocked()
            } else if self.frame_seq == 1 || self.frame_seq == 3 {
                self.quarter_clocked()
            } else {
                self
            };
            APU { frame_seq: ((self.frame_seq + 1) % 5) as u8, ..p }
        }
    }

    /// The sound unit once the divider of the frame sequencer has been
    /// clocked: it counts down by four, and when it would pass zero the
    /// sequencer steps and the divider starts over.
    pub open spec fn sequencer_clocked(self) -> Self {
        if self.sequencer_due() {
            APU {
                quarter_frame_divider: (QUARTER_FRAME_DIVIDER_PERIOD - 1) as u32,
                ..self.sequencer_stepped()
            }
        } else {
            APU { quarter_frame_divider: (self.quarter_frame_divider - 4) as u32, ..self }
        }
    }

    /// The sound unit once the channels' timers have been clocked, which
    /// happens on every third tick.
    pub open spec fn timers_clocked(self) -> Self {
        if self.timer_div > 0 {
            APU { timer_div: (self.timer_div - 1) as u8, ..self }
        } else {
            APU {
                pulse_1: self.pulse_1.timer_ticked(),
                pulse_2: self.pulse_2.timer_ticked(),
                triangle: self.triangle.timer_ticked(),
                noise: self.noise.timer_ticked(),
                timer_div: 2,
                ..self
            }
        }
    }

    /// What the channels put out: a channel that is switched off is silent,
    /// but for the triangle, which holds its level.
    pub open spec fn levels(self) -> ChannelLevels {
        ChannelLevels {
            pulse_1: if self.pulse_1.enabled {
                self.pulse_1.sample()
            } else {
                0
            },
            pulse_2: if self.pulse_2.enabled {
                self.pulse_2.sample()
            } else {
                0
            },
            triangle: self.triangle.sample(),
            noise: if self.noise.enabled {
                self.noise.sample()
            } else {
                0
            },
        }
    }

    /// Whether a sample is due at this tick.
    pub open spec fn sample_due(self) -> bool {
        self.sample_divider - clocked_rate(self.sample_out.rate()) < 0
    }

    /// The samples that the buffer holds.
    pub open spec fn pending(self) -> Seq<ChannelLevels> {
        self.sample_buffer@.subrange(0, self.buffered as int)
    }

    /// The sound unit once the sample clock has been clocked, and what came
    /// of it. The time to the next sample shrinks by the sample rate; when
    /// it runs out a sample is taken and the time grows by the tick rate.
    /// When that sample takes the buffer past its threshold, the buffer is
    /// handed to the sink and emptied, and a failure of the sink is reported.
    pub open spec fn sample_clocked(self) -> (Self, Result<(), Error>) {
        if self.sample_due() {
            let taken = APU {
                sample_buffer: stored(self.sample_buffer, self.buffered as int, self.levels()),
                buffered: (self.buffered + 1) as usize,
                sample_divider: (self.sample_divider - clocked_rate(self.sample_out.rate())
                    + TICK_RATE) as i32,
                ..self
            };
            if taken.buffered > SAMPLE_OUT {
                (
                    APU {
                        sample_out: taken.sample_out.after_queue(taken.pending()),
                        buffered: 0,
                        ..taken
                    },
                    match taken.sample_out.answer(taken.pending()) {
                        Ok(_) => Ok(()),
                        Err(msg) => Err(Error::OtherErr(msg)),
                    },
                )
            } else {
                (taken, Ok(()))
            }
        } else {
            (
                APU {
                    sample_divider: (self.sample_divider - clocked_rate(
                        self.sample_out.rate(),
                    )) as i32,
                    ..self
                },
                Ok(()),
            )
        }
    }

    /// One call of `tick`: the register accesses are acted on, then the
    /// frame sequencer, the timers and the sample clock are clocked.
    #[verifier::opaque]
    pub open spec fn ticked(self, regs: APURegisters) -> (Self, APURegisters, Result<(), Error>) {
        let (p1, r1) = self.registers_served(regs);
        let (p2, result) = p1.sequencer_clocked().timers_clocked().sample_clocked();
        (p2, r1, result)
    }

    /// The sound unit once it has been reset: every channel is switched
    /// off.
    pub open spec fn after_reset(self) -> Self {
        APU {
            pulse_1: Pulse { enabled: false, ..self.pulse_1 },
            pulse_2: Pulse { enabled: false, ..self.pulse_2 },
            triangle: Triangle { enabled: false, ..self.triangle },
            noise: Noise { enabled: false, ..self.noise },
            ..self
        }
    }

    pub fn new(output: T) -> (apu: Self)
        ensures
            apu == APU::initial(output),
            apu.wf(),
    {
        APU {
            pulse_1: Pulse::new(0),
            pulse_2: Pulse::new(1),
            triangle: Triangle::new(),
            noise: Noise::new(),
            quarter_frame_divider: QUARTER_FRAME_DIVIDER_PERIOD,
            frame_seq_mode: false,
            frame_seq: 0,
            timer_div: 0,
            sample_buffer: [ChannelLevels { pulse_1: 0, pulse_2: 0, triangle: 0, noise: 0 };
                BUFFER_SIZE],
            buffered: 0,
            sample_out: output,
            sample_divider: 0,
            frame_irq: false,
            irq_inhibit: false,
        }
    }

    fn tick_envelope_and_lin_ctr(&mut self)
        ensures
            *final(self) == old(self).quarter_clocked(),
            old(self).wf() ==> final(self).wf(),
    {
        self.pulse_1.tick_envelope();
        self.pulse_2.tick_envelope();
        self.triangle.tick_lin_ctr();
        self.noise.tick_envelope();
    }

    fn tick_length_counters(&mut self)
        requires
            old(self).wf(),
        ensures
            *final(self) == old(self).half_clocked(),
            final(self).wf(),
    {
        self.pulse_1.tick_length_and_sweep();
        self.pulse_2.tick_length_and_sweep();
        self.triangle.tick_length();
        self.noise.tick_length();
    }

    fn write_status(&mut self, v: u8)
        ensures
            *final(self) == old(self).status_written(v),
            old(self).wf() ==> final(self).wf(),
    {
        self.pulse_1.switch(v & 0b0000_0001 != 0);
        self.pulse_2.switch(v & 0b0000_0010 != 0);
        self.triangle.switch(v & 0b0000_0100 != 0);
        self.noise.switch(v & 0b0000_1000 != 0);
    }

    fn write_frame_counter(&mut self, v: u8)
        requires
            old(self).wf(),
        ensures
            *final(self) == old(self).frame_counter_written(v),
            final(self).wf(),
    {
        let old_f_s_m = self.frame_seq_mode;
        self.frame_seq_mode = v & 0b1000_0000 != 0;
        if old_f_s_m != self.frame_seq_mode {
            self.frame_seq = 0;
        }
        if v & 0b1000_0000 != 0 {
            self.tick_envelope_and_lin_ctr();
            self.tick_length_counters();
        }
        if v & 0b0100_0000 != 0 {
            self.frame_irq = false;
        }
        self.irq_inhibit = v & 0b0100_0000 != 0;
        self.quarter_frame_divider = QUARTER_FRAME_DIVIDER_PERIOD - 1;
    }

    fn write_register(&mut self, addr: usize, v: u8)
        requires
            old(self).wf(),
        ensures
            *final(self) == old(self).register_written(addr, v),
            final(self).wf(),
    {
        if addr <= 3 {
            self.pulse_1.write_to_registers(addr, v);
        } else if addr <= 7 {
            self.pulse_2.write_to_registers(addr - 4, v);
        } else if addr == 0x8 {
            self.triangle.write_to_registers(0, v);
        } else if addr == 0xa {
            self.triangle.write_to_registers(1, v);
        } else if addr == 0xb {
            self.triangle.write_to_registers(2, v);
        } else if addr == 0xc {
            self.noise.write_to_registers(0, v);
        } else if addr == 0xe {
            self.noise.write_to_registers(1, v);
        } else if addr == 0xf {
            self.noise.write_to_registers(2, v);
        } else if addr == 0x15 {
            self.write_status(v);
        } else if addr == 0x17 {
            self.write_frame_counter(v);
        }
    }

    fn status_byte(&self) -> (s: u8)
        ensures
            s == self.status(),
    {
        let p1: u8 = if self.pulse_1.length_counter_gt_zero() {
            0x01
        } else {
            0
        };
        let p2: u8 = if self.pulse_2.length_counter_gt_zero() {
            0x02
        } else {
            0
        };
        let t: u8 = if self.triangle.length_counter_gt_zero() {
            0x04
        } else {
            0
        };
        let n: u8 = if self.noise.length_counter_gt_zero() {
            0x08
        } else {
            0
        };
        let irq: u8 = if !self.irq_inhibit && self.frame_irq {
            0x40
        } else {
            0
        };
        p1 | p2 | t | n | irq
    }

    /// Acts on the accesses to the registers that the processor made last.
    pub fn update_from_registers(&mut self, registers: &mut APURegisters)
        requires
            old(self).wf(),
        ensures
            (*final(self), *final(registers)) == old(self).registers_served(*old(registers)),
            final(self).wf(),
    {
        match registers.last_write {
            Some(addr) => {
                if addr < 0x20 {
                    self.write_register(addr, registers.registers[addr]);
                }
            },
            None => {},
        }
        match registers.last_read {
            Some(addr) => {
                if addr == 0x15 {
                    self.frame_irq = false;
                }
            },
            None => {},
        }
        // Update the status register
        registers.status_out = self.status_byte();
        registers.last_read = None;
        registers.last_write = None;
    }

    fn step_sequencer(&mut self)
        requires
            old(self).wf(),
        ensures
            *final(self) == old(self).sequencer_stepped(),
            final(self).wf(),
    {
        let step = self.frame_seq;
        if !self.frame_seq_mode {
            // Mode 0 - 4-step sequence
            self.tick_envelope_and_lin_ctr();
            if step == 1 || step == 3 {
                self.tick_length_counters();
            }
            if step == 3 && !self.irq_inhibit {
                self.frame_irq = true;
            }
            self.frame_seq = (step + 1) % 4;
        } else {
            // Mode 1 - 5-step sequence
            if step == 0 || step == 2 {
                self.tick_envelope_and_lin_ctr();
                self.tick_length_counters();
            } else if step == 1 || step == 3 {
                self.tick_envelope_and_lin_ctr();
            }
            self.frame_seq = (step + 1) % 5;
        }
    }

    fn clock_sequencer(&mut self)
        requires
            old(self).wf(),
        ensures
            *final(self) == old(self).sequencer_clocked(),
            final(self).wf(),
    {
        // The quarter frame divider is run at the full master clock
        match self.quarter_frame_divider.checked_sub(4) {
            Some(n) => self.quarter_frame_divider = n,
            None => {
                self.step_sequencer();
                self.quarter_frame_divider = QUARTER_FRAME_DIVIDER_PERIOD - 1;
            },
        }
    }

    fn clock_timers(&mut self)
        requires
            old(self).wf(),
        ensures
            *final(self) == old(self).timers_clocked(),
            final(self).wf(),
    {
        // The timers run at 1/12 the master clock speed
        match self.timer_div.checked_sub(1) {
            Some(n) => self.timer_div = n,
            None => {
                self.pulse_1.tick_timer();
                self.pulse_2.tick_timer();
                self.triangle.tick_timer();
                self.noise.tick_timer();
                self.timer_div = 2;
            },
        }
    }

    /// What the channels put out at this moment.
    pub fn single_sample(&self) -> (s: ChannelLevels)
        requires
            self.wf(),
        ensures
            s == self.levels(),
            s.pulse_1 <= 15,
            s.pulse_2 <= 15,
            s.triangle <= 15,
            s.noise <= 15,
    {
        ChannelLevels {
            pulse_1: if self.pulse_1.enabled {
                self.pulse_1.digital_sample()
            } else {
                0
            },
            pulse_2: if self.pulse_2.enabled {
                self.pulse_2.digital_sample()
            } else {
                0
            },
            triangle: self.triangle.digital_sample(),
            noise: if self.noise.enabled {
                self.noise.digital_sample()
            } else {
                0
            },
        }
    }

    /// Hands the buffer to the sink and empties it.
    fn queue_samples(&mut self) -> (r: Result<(), Error>)
        requires
            old(self).buffered <= BUFFER_SIZE,
        ensures
            *final(self) == (APU {
                sample_out: old(self).sample_out.after_queue(old(self).pending()),
                buffered: 0,
                ..*old(self)
            }),
            r == (match old(self).sample_out.answer(old(self).pending()) {
                Ok(_) => Ok::<(), Error>(()),
                Err(msg) => Err(Error::OtherErr(msg)),
            }),
    {
        let samples = slice_subrange(self.sample_buffer.as_slice(), 0, self.buffered);
        let answer = self.sample_out.queue_audio(samples);
        self.buffered = 0;
        match answer {
            Ok(_) => Ok(()),
            Err(msg) => Err(Error::other_error(msg)),
        }
    }

    fn clock_samples(&mut self) -> (r: Result<(), Error>)
        requires
            old(self).wf(),
        ensures
            (*final(self), r) == old(self).sample_clocked(),
            final(self).wf(),
    {
        // Use the sample divider to calculate when to generate samples
        let rate = self.sample_out.sample_rate();
        let step: i32 = if rate > TICK_RATE as usize {
            TICK_RATE
        } else {
            rate as i32
        };
        if self.sample_divider - step < 0 {
            let sample = self.single_sample();
            self.sample_buffer[self.buffered] = sample;
            self.buffered = self.buffered + 1;
            self.sample_divider = self.sample_divider - step + TICK_RATE;
            if self.buffered > SAMPLE_OUT {
                return self.queue_samples();
            }
        } else {
            self.sample_divider = self.sample_divider - step;
        }
        Ok(())
    }

    /// This function is called at 1/4 the master clock cycle
    pub fn tick(&mut self, registers: &mut APURegisters) -> (r: Result<(), Error>)
        requires
            old(self).wf(),
        ensures
            (*final(self), *final(registers), r) == old(self).ticked(*old(registers)),
            final(self).wf(),
    {
        proof {
            reveal(APU::ticked);
        }
        self.update_from_registers(registers);
        self.clock_sequencer();
        self.clock_timers();
        self.clock_samples()
    }

    pub fn reset(&mut self)
        ensures
            *final(self) == old(self).after_reset(),
            old(self).wf() ==> final(self).wf(),
    {
        self.pulse_1.enabled = false;
        self.pulse_2.enabled = false;
        self.triangle.enabled = false;
        self.noise.enabled = false;
    }

    /// Whether the frame IRQ is raised.
    pub fn get_irq(&self) -> (irq: bool)
        ensures
            irq == self.frame_irq,
    {
        self.frame_irq
    }

    pub fn audio_device(&self) -> (device: &T)
        ensures
            *device == self.sample_out,
    {
        &self.sample_out
    }

    pub fn audio_device_mut(&mut self) -> (device: &mut T)
        ensures
            *device == old(self).sample_out,
            *final(self) == (APU { sample_out: *final(device), ..*old(self) }),
    {
        &mut self.sample_out
    }
}

} // verus!
