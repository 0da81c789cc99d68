use crate::apu::{AudioOutput, DummyAudio};
use crate::cart::Cart;
use crate::controller::{DummyController, NESController};
use crate::mapper::Mapper;
use crate::nes::{NESConfig, Nes};
use crate::ppu::{DummyVideo, VideoInterface};
use vstd::prelude::*;

verus! {

/// Collects the three hosts of a console before it is built.
pub struct NesBuilder<V: VideoInterface, C: NESController, A: AudioOutput> {
    pub vid: V,
    pub cont: C,
    pub audio: A,
}

impl<V: VideoInterface, C: NESController, A: AudioOutput> NesBuilder<V, C, A> {
    /// Replaces the video sink.
    pub fn video<W: VideoInterface>(self, vid: W) -> (b: NesBuilder<W, C, A>)
        ensures
            b.vid == vid,
            b.cont == self.cont,
            b.audio == self.audio,
    {
        NesBuilder { vid, cont: self.cont, audio: self.audio }
    }

    /// Replaces the controller.
    pub fn controller<D: NESController>(self, cont: D) -> (b: NesBuilder<V, D, A>)
        ensures
            b.vid == self.vid,
            b.cont == cont,
            b.audio == self.audio,
    {
        NesBuilder { cont, vid: self.vid, audio: self.audio }
    }

    /// Replaces the audio sink.
    pub fn audio<B: AudioOutput>(self, audio: B) -> (b: NesBuilder<V, C, B>)
        ensures
            b.vid == self.vid,
            b.cont == self.cont,
            b.audio == audio,
    {
        NesBuilder { audio, vid: self.vid, cont: self.cont }
    }

    /// Builds the console, with the cartridge inserted if there is one.
    pub fn build<K: Mapper + Copy>(self, cart: Option<Cart<K>>, config: Option<NESConfig>) -> (nes:
        Nes<V, C, A, K>)
        requires
            cart matches Some(c) ==> c.wf(),
        ensures
            nes == Nes::initial(cart, self.vid, self.cont, self.audio, config),
            nes.wf(),
    {
        Nes::new(cart, self.vid, self.cont, self.audio, config)
    }
}

/// A builder that starts from the three dummy hosts.
pub fn nes_builder() -> (b: NesBuilder<DummyVideo, DummyController, DummyAudio>)
    ensures
        b.vid == DummyVideo(),
        b.cont == DummyController(),
        b.audio == DummyAudio(),
{
    NesBuilder { vid: DummyVideo {  }, cont: DummyController {  }, audio: DummyAudio {  } }
}

} // verus!
