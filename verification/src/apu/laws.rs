use super::{APURegisters, AudioOutput, APU};
use vstd::prelude::*;

verus! {

impl<T: AudioOutput> APU<T> {
    /// Whether the frame sequencer, at this tick, does step 3 of the
    /// four-step sequence with the frame IRQ not inhibited.
    pub open spec fn at_irq_step(self) -> bool {
        self.sequencer_due() && !self.frame_seq_mode && self.frame_seq == 3 && !self.irq_inhibit
    }

    /// A step of the frame sequencer raises the frame IRQ at step 3 of the
    /// four-step sequence when it is not inhibited, and at no other step; it
    /// never clears it.
    pub proof fn lemma_step_raises_frame_irq(self)
        ensures
            self.sequencer_stepped().frame_irq == (self.frame_irq || (!self.frame_seq_mode
                && self.frame_seq == 3 && !self.irq_inhibit)),
    {
    }

    /// Acting on the register accesses never raises the frame IRQ, and a
    /// read of `0x4015` clears it.
    pub proof fn lemma_registers_clear_frame_irq(self, regs: APURegisters)
        ensures
            self.registers_served(regs).0.frame_irq ==> self.frame_irq,
            regs.last_read == Some(0x15usize) ==> !self.registers_served(regs).0.frame_irq,
    {
    }

    /// The frame IRQ over one tick. It is raised on step 3 of the four-step
    /// sequence and only when it is not inhibited: after the tick it stands
    /// exactly if it stood once the register accesses were acted on, or the
    /// sequencer did that step in this tick. A read of `0x4015` clears it
    /// within the tick: after the tick it stands only if that step raised it
    /// anew.
    pub proof fn lemma_frame_irq(self, regs: APURegisters)
        ensures
            self.ticked(regs).0.frame_irq == (self.registers_served(regs).0.frame_irq
                || self.registers_served(regs).0.at_irq_step()),
            regs.last_read == Some(0x15usize) ==> (self.ticked(regs).0.frame_irq
                <==> self.registers_served(regs).0.at_irq_step()),
            !self.frame_irq && self.ticked(regs).0.frame_irq ==> self.registers_served(
                regs,
            ).0.at_irq_step(),
    {
        reveal(APU::ticked);
        let seen = self.registers_served(regs).0;
        self.lemma_registers_clear_frame_irq(regs);
        seen.lemma_step_raises_frame_irq();
        let stepped = seen.sequencer_clocked();
        assert(stepped.frame_irq == (seen.frame_irq || seen.at_irq_step()));
        let timed = stepped.timers_clocked();
        assert(timed.frame_irq == stepped.frame_irq);
        assert(timed.sample_clocked().0.frame_irq == timed.frame_irq);
    }
}

} // verus!
