use vstd::prelude::*;

verus! {

/// What the four channels put out at one moment, each a level of 0 to 15.
/// Mixing the levels into one amplitude is left to the sink.
#[derive(Debug, Clone, Copy, PartialEq, Eq, Structural)]
pub struct ChannelLevels {
    pub pulse_1: u8,
    pub pulse_2: u8,
    pub triangle: u8,
    pub noise: u8,
}

/// Where the sound unit sends its samples. What a sink answers and what it
/// holds afterwards are functions of what it held before and of what it was
/// handed: `answer` and `after_queue`. A verified sink says there what its
/// methods do; of any other nothing is known.
pub trait AudioOutput: Sized {
    /// The number of samples that the sink plays in a second.
    open spec fn rate(&self) -> usize {
        arbitrary()
    }

    /// What the sink answers when handed `samples`: `Ok`, or the reason
    /// for which it fails.
    open spec fn answer(&self, samples: Seq<ChannelLevels>) -> Result<(), String> {
        arbitrary()
    }

    /// The sink once it has been handed `samples`.
    open spec fn after_queue(&self, samples: Seq<ChannelLevels>) -> Self {
        arbitrary()
    }

    /// Called by the APU to queue audio samples.
    fn queue_audio(&mut self, samples: &[ChannelLevels]) -> (r: Result<(), String>)
        ensures
            r == old(self).answer(samples@),
            *final(self) == old(self).after_queue(samples@),
    ;

    fn sample_rate(&self) -> (r: usize)
        ensures
            r == self.rate(),
    ;
}

/// A sink that plays nothing.
#[derive(Debug, Clone, Copy, PartialEq, Eq, Structural)]
pub struct DummyAudio();

impl AudioOutput for DummyAudio {
    open spec fn rate(&self) -> usize {
        1
    }

    open spec fn answer(&self, samples: Seq<ChannelLevels>) -> Result<(), String> {
        Ok(())
    }

    open spec fn after_queue(&self, samples: Seq<ChannelLevels>) -> Self {
        *self
    }

    fn queue_audio(&mut self, _samples: &[ChannelLevels]) -> Result<(), String> {
        Ok(())
    }

    fn sample_rate(&self) -> usize {
        1
    }
}

} // verus!
