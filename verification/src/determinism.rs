use crate::apu::{clocked_rate, APURegisters, AudioOutput, ChannelLevels, APU, TICK_RATE};
use crate::bytes::stored;
use crate::error::Error;
use crate::controller::NESController;
use crate::mapper::Mapper;
use crate::nes::Nes;
use crate::ppu::VideoInterface;
use vstd::prelude::*;

verus! {

/// Whether `alike` holds only of two sinks that run at one sample rate and
/// answer alike whatever they are handed, and holds of them again once they
/// have been handed it.
pub open spec fn answer_alike<A: AudioOutput>(alike: spec_fn(A, A) -> bool) -> bool {
    &&& forall|a: A, b: A| #[trigger] alike(a, b) ==> a.rate() == b.rate()
    &&& forall|a: A, b: A, samples: Seq<ChannelLevels>|
        #![trigger alike(a, b), a.answer(samples)]
        alike(a, b) ==> a.answer(samples) == b.answer(samples)
    &&& forall|a: A, b: A, samples: Seq<ChannelLevels>|
        #![trigger alike(a, b), a.after_queue(samples)]
        alike(a, b) ==> alike(a.after_queue(samples), b.after_queue(samples))
}

/// Whether the sinks of type `A` never fail and never change their sample
/// rate.
pub open spec fn steady<A: AudioOutput>() -> bool {
    &&& forall|sink: A, samples: Seq<ChannelLevels>| #[trigger] sink.answer(samples) is Ok
    &&& forall|sink: A, samples: Seq<ChannelLevels>| #[trigger]
        sink.after_queue(samples).rate() == sink.rate()
}

/// Two sinks in one state answer alike, and so do any two steady sinks of
/// one sample rate.
pub proof fn lemma_sinks_that_answer_alike<A: AudioOutput>()
    ensures
        answer_alike(|a: A, b: A| a == b),
        steady::<A>() ==> answer_alike(|a: A, b: A| a.rate() == b.rate()),
{
    let same = |a: A, b: A| a == b;
    assert(answer_alike(same));
    if steady::<A>() {
        let rated = |a: A, b: A| a.rate() == b.rate();
        assert forall|a: A, b: A, samples: Seq<ChannelLevels>|
            #![trigger rated(a, b), a.answer(samples)]
            rated(a, b) implies a.answer(samples) == b.answer(samples) by {
            assert(a.answer(samples) is Ok && b.answer(samples) is Ok);
            let x = a.answer(samples)->Ok_0;
            let y = b.answer(samples)->Ok_0;
            assert(x == ());
            assert(y == ());
            assert(a.answer(samples) == Ok::<(), String>(x));
            assert(b.answer(samples) == Ok::<(), String>(y));
        }
        assert forall|a: A, b: A, samples: Seq<ChannelLevels>|
            #![trigger rated(a, b), a.after_queue(samples)]
            rated(a, b) implies rated(a.after_queue(samples), b.after_queue(samples)) by {
            assert(a.after_queue(samples).rate() == a.rate());
            assert(b.after_queue(samples).rate() == b.rate());
        }
        assert(answer_alike(rated));
    }
}

impl<T: AudioOutput> APU<T> {
    /// Whether two sound units differ at most in their sinks, and `alike`
    /// holds of those.
    pub open spec fn same_but_sink(self, other: Self, alike: spec_fn(T, T) -> bool) -> bool {
        &&& alike(self.sample_out, other.sample_out)
        &&& other == (APU { sample_out: other.sample_out, ..self })
    }

    /// The sink takes no part in what the register accesses do.
    pub proof fn lemma_registers_ignore_sink(
        self,
        other: Self,
        regs: APURegisters,
        alike: spec_fn(T, T) -> bool,
    )
        requires
            self.same_but_sink(other, alike),
        ensures
            self.registers_served(regs).0.same_but_sink(other.registers_served(regs).0, alike),
            self.registers_served(regs).1 == other.registers_served(regs).1,
    {
    }

    /// The sink takes no part in what the frame sequencer does.
    pub proof fn lemma_sequencer_ignores_sink(self, other: Self, alike: spec_fn(T, T) -> bool)
        requires
            self.same_but_sink(other, alike),
        ensures
            self.sequencer_clocked().same_but_sink(other.sequencer_clocked(), alike),
    {
    }

    /// The sink takes no part in what the timers do.
    pub proof fn lemma_timers_ignore_sink(self, other: Self, alike: spec_fn(T, T) -> bool)
        requires
            self.same_but_sink(other, alike),
        ensures
            self.timers_clocked().same_but_sink(other.timers_clocked(), alike),
    {
    }

    /// The sample clock of two sound units that differ at most in sinks
    /// that answer alike leaves two that differ at most in their sinks, and
    /// fails for both or for neither.
    pub proof fn lemma_samples_ignore_sink(self, other: Self, alike: spec_fn(T, T) -> bool)
        requires
            self.same_but_sink(other, alike),
            answer_alike(alike),
        ensures
            self.sample_clocked().0.same_but_sink(other.sample_clocked().0, alike),
            self.sample_clocked().1 == other.sample_clocked().1,
    {
        assert(self.levels() == other.levels());
        assert(self.sample_out.rate() == other.sample_out.rate());
        assert(self.sample_due() == other.sample_due());
        if self.sample_due() {
            let a = APU {
                sample_buffer: stored(self.sample_buffer, self.buffered as int, self.levels()),
                buffered: (self.buffered + 1) as usize,
                sample_divider: (self.sample_divider - clocked_rate(self.sample_out.rate())
                    + TICK_RATE) as i32,
                ..self
            };
            let b = APU {
                sample_buffer: stored(other.sample_buffer, other.buffered as int, other.levels()),
                buffered: (other.buffered + 1) as usize,
                sample_divider: (other.sample_divider - clocked_rate(other.sample_out.rate())
                    + TICK_RATE) as i32,
                ..other
            };
            assert(a.pending() == b.pending());
            assert(a.sample_out.answer(a.pending()) == b.sample_out.answer(a.pending()));
            assert(alike(
                a.sample_out.after_queue(a.pending()),
                b.sample_out.after_queue(a.pending()),
            ));
        }
    }

    /// A tick of two sound units that differ at most in sinks that answer
    /// alike leaves two that differ at most in their sinks, and the same
    /// register file, and fails for both or for neither.
    pub proof fn lemma_tick_ignores_sink(
        self,
        other: Self,
        regs: APURegisters,
        alike: spec_fn(T, T) -> bool,
    )
        requires
            self.same_but_sink(other, alike),
            answer_alike(alike),
        ensures
            self.ticked(regs).0.same_but_sink(other.ticked(regs).0, alike),
            self.ticked(regs).1 == other.ticked(regs).1,
            self.ticked(regs).2 == other.ticked(regs).2,
    {
        reveal(APU::ticked);
        self.lemma_registers_ignore_sink(other, regs, alike);
        let a1 = self.registers_served(regs).0;
        let b1 = other.registers_served(regs).0;
        a1.lemma_sequencer_ignores_sink(b1, alike);
        let a2 = a1.sequencer_clocked();
        let b2 = b1.sequencer_clocked();
        a2.lemma_timers_ignore_sink(b2, alike);
        let a3 = a2.timers_clocked();
        let b3 = b2.timers_clocked();
        a3.lemma_samples_ignore_sink(b3, alike);
    }
}

impl<V: VideoInterface, C: NESController, A: AudioOutput, K: Mapper + Copy> Nes<V, C, A, K> {
    /// Whether two consoles differ at most in their audio sinks, and
    /// `alike` holds of those: the same cartridge, the same controller, the
    /// same video sink, the same state of everything else.
    pub open spec fn same_but_sink(self, other: Self, alike: spec_fn(A, A) -> bool) -> bool {
        &&& self.apu.same_but_sink(other.apu, alike)
        &&& other == Nes { apu: other.apu, ..self }
    }

    /// The console after `k` frames, and what came of them: it stops at the
    /// first frame that fails.
    pub open spec fn frames_run(self, k: nat) -> (Self, Result<(), Error>)
        decreases k,
    {
        if k == 0 {
            (self, Ok(()))
        } else {
            let (before, result) = self.frames_run((k - 1) as nat);
            if result is Err {
                (before, result)
            } else {
                before.frame_run()
            }
        }
    }

    /// The ticks of the sound unit keep two consoles alike that differ at
    /// most in audio sinks that answer alike.
    pub proof fn lemma_sound_ignores_sink(self, other: Self, alike: spec_fn(A, A) -> bool)
        requires
            self.same_but_sink(other, alike),
            answer_alike(alike),
        ensures
            self.apu_ticked().0.same_but_sink(other.apu_ticked().0, alike),
            self.apu_ticked().1 == other.apu_ticked().1,
    {
        self.apu.lemma_tick_ignores_sink(other.apu, self.mmu.apu_registers, alike);
    }

    /// A dot of the picture unit keeps two consoles alike that differ at
    /// most in their audio sinks.
    pub proof fn lemma_dot_ignores_sink(self, other: Self, alike: spec_fn(A, A) -> bool)
        requires
            self.same_but_sink(other, alike),
        ensures
            self.ppu_ticked().same_but_sink(other.ppu_ticked(), alike),
    {
    }

    /// A cycle of the sprite transfer keeps two consoles alike that differ
    /// at most in their audio sinks.
    pub proof fn lemma_transfer_ignores_sink(
        self,
        other: Self,
        odd: bool,
        alike: spec_fn(A, A) -> bool,
    )
        requires
            self.same_but_sink(other, alike),
        ensures
            self.dma_stepped(odd).same_but_sink(other.dma_stepped(odd), alike),
    {
    }

    /// A cycle of the processor keeps two consoles alike that differ at
    /// most in their audio sinks.
    pub proof fn lemma_processor_ignores_sink(self, other: Self, alike: spec_fn(A, A) -> bool)
        requires
            self.same_but_sink(other, alike),
        ensures
            self.cpu_stepped().0.same_but_sink(other.cpu_stepped().0, alike),
            self.cpu_stepped().1 == other.cpu_stepped().1,
    {
    }

    /// The three ticks of the sound unit keep two consoles alike that
    /// differ at most in audio sinks that answer alike.
    pub proof fn lemma_sound_thrice_ignores_sink(
        self,
        other: Self,
        alike: spec_fn(A, A) -> bool,
    )
        requires
            self.same_but_sink(other, alike),
            answer_alike(alike),
        ensures
            self.apu_ticked_thrice().0.same_but_sink(other.apu_ticked_thrice().0, alike),
            self.apu_ticked_thrice().1 == other.apu_ticked_thrice().1,
    {
        self.lemma_sound_ignores_sink(other, alike);
        let a1 = self.apu_ticked().0;
        let b1 = other.apu_ticked().0;
        a1.lemma_sound_ignores_sink(b1, alike);
        let a2 = a1.apu_ticked().0;
        let b2 = b1.apu_ticked().0;
        a2.lemma_sound_ignores_sink(b2, alike);
    }

    /// The three dots of the picture unit keep two consoles alike that
    /// differ at most in their audio sinks.
    pub proof fn lemma_dots_ignore_sink(self, other: Self, alike: spec_fn(A, A) -> bool)
        requires
            self.same_but_sink(other, alike),
        ensures
            self.ppu_ticked().ppu_ticked().ppu_ticked().same_but_sink(
                other.ppu_ticked().ppu_ticked().ppu_ticked(),
                alike,
            ),
    {
        self.lemma_dot_ignores_sink(other, alike);
        self.ppu_ticked().lemma_dot_ignores_sink(other.ppu_ticked(), alike);
        self.ppu_ticked().ppu_ticked().lemma_dot_ignores_sink(
            other.ppu_ticked().ppu_ticked(),
            alike,
        );
    }

    /// The three dots and three ticks of the units keep two consoles alike
    /// that differ at most in audio sinks that answer alike.
    pub proof fn lemma_units_ignore_sink(self, other: Self, alike: spec_fn(A, A) -> bool)
        requires
            self.same_but_sink(other, alike),
            answer_alike(alike),
        ensures
            self.units_ticked().0.same_but_sink(other.units_ticked().0, alike),
            self.units_ticked().1 == other.units_ticked().1,
    {
        self.lemma_dots_ignore_sink(other, alike);
        self.ppu_ticked().ppu_ticked().ppu_ticked().lemma_sound_thrice_ignores_sink(
            other.ppu_ticked().ppu_ticked().ppu_ticked(),
            alike,
        );
    }

    /// The cycle of the processor or of the sprite transfer keeps two
    /// consoles alike that differ at most in their audio sinks.
    pub proof fn lemma_cycle_step_ignores_sink(self, other: Self, alike: spec_fn(A, A) -> bool)
        requires
            self.same_but_sink(other, alike),
        ensures
            self.cycle_stepped().0.same_but_sink(other.cycle_stepped().0, alike),
            self.cycle_stepped().1 == other.cycle_stepped().1,
    {
        let a0 = Nes { odd_cycle: !self.odd_cycle, ..self };
        let b0 = Nes { odd_cycle: !other.odd_cycle, ..other };
        assert(a0.same_but_sink(b0, alike));
        a0.lemma_transfer_ignores_sink(b0, self.odd_cycle, alike);
        a0.lemma_processor_ignores_sink(b0, alike);
    }

    /// One tick of the master clock is deterministic, and the audio sink has
    /// no say in it but through its sample rate and its answers: two
    /// consoles that differ at most in audio sinks that answer alike fare
    /// alike, and after the tick they still differ at most in such sinks.
    pub proof fn lemma_tick_is_deterministic(self, other: Self, alike: spec_fn(A, A) -> bool)
        requires
            self.same_but_sink(other, alike),
            answer_alike(alike),
        ensures
            self.master_ticked().0.same_but_sink(other.master_ticked().0, alike),
            self.master_ticked().0.screen == other.master_ticked().0.screen,
            self.master_ticked().1 == other.master_ticked().1,
    {
        self.lemma_cycle_step_ignores_sink(other, alike);
        self.cycle_stepped().0.lemma_units_ignore_sink(other.cycle_stepped().0, alike);
    }

    /// Any number of ticks is deterministic: given the same cartridge, the
    /// same controller and audio sinks that answer alike, two consoles show
    /// the same picture after every tick.
    pub proof fn lemma_ticks_are_deterministic(
        self,
        other: Self,
        n: nat,
        alike: spec_fn(A, A) -> bool,
    )
        requires
            self.same_but_sink(other, alike),
            answer_alike(alike),
        ensures
            self.ticks(n).same_but_sink(other.ticks(n), alike),
            self.ticks(n).screen == other.ticks(n).screen,
        decreases n,
    {
        if n > 0 {
            self.lemma_ticks_are_deterministic(other, (n - 1) as nat, alike);
            self.ticks((n - 1) as nat).lemma_tick_is_deterministic(
                other.ticks((n - 1) as nat),
                alike,
            );
        }
    }

    /// A frame leaves the picture unit within its frame.
    pub proof fn lemma_frame_keeps_frame(self)
        requires
            self.ppu.in_frame(),
        ensures
            self.frame_run().0.ppu.in_frame(),
        decreases self.dots_to_vblank(),
    {
        self.lemma_tick_nears_vblank();
        let (a, ra) = self.master_ticked();
        if ra is Ok && !a.screen.frame_completed {
            a.lemma_frame_keeps_frame();
        }
    }

    /// A frame is deterministic: given the same cartridge, the same
    /// controller and audio sinks that answer alike, two consoles hand the
    /// same frame to their video sinks and fare alike.
    pub proof fn lemma_frame_is_deterministic(self, other: Self, alike: spec_fn(A, A) -> bool)
        requires
            self.same_but_sink(other, alike),
            answer_alike(alike),
            self.ppu.in_frame(),
        ensures
            self.frame_run().0.same_but_sink(other.frame_run().0, alike),
            self.frame_run().0.screen == other.frame_run().0.screen,
            self.frame_run().1 == other.frame_run().1,
        decreases self.dots_to_vblank(),
    {
        self.lemma_tick_is_deterministic(other, alike);
        self.lemma_tick_nears_vblank();
        let (a, ra) = self.master_ticked();
        let (b, rb) = other.master_ticked();
        if ra is Ok && !a.screen.frame_completed {
            a.lemma_frame_is_deterministic(b, alike);
        }
    }

    /// Any number of frames is deterministic. Two consoles with the same
    /// cartridge, the same controller, the same video sink and audio sinks
    /// that answer alike, among them any two sinks in one state and any two
    /// steady sinks of one sample rate, fare alike in frame after frame:
    /// each frame ends with the same result in both, and hands the same
    /// picture to both video sinks.
    pub proof fn lemma_frames_are_deterministic(
        self,
        other: Self,
        k: nat,
        alike: spec_fn(A, A) -> bool,
    )
        requires
            self.same_but_sink(other, alike),
            answer_alike(alike),
            self.ppu.in_frame(),
        ensures
            self.frames_run(k).0.same_but_sink(other.frames_run(k).0, alike),
            self.frames_run(k).0.screen == other.frames_run(k).0.screen,
            self.frames_run(k).1 == other.frames_run(k).1,
            self.frames_run(k).0.ppu.in_frame(),
        decreases k,
    {
        if k > 0 {
            self.lemma_frames_are_deterministic(other, (k - 1) as nat, alike);
            let (a, ra) = self.frames_run((k - 1) as nat);
            let (b, rb) = other.frames_run((k - 1) as nat);
            if ra is Ok {
                a.lemma_frame_is_deterministic(b, alike);
                a.lemma_frame_keeps_frame();
            }
        }
    }
}

} // verus!
