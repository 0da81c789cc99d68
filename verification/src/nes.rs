use crate::apu::{AudioOutput, APU};
use crate::cart::Cart;
use crate::mapper::dummy::Dummy;
use crate::mapper::Mapper;
use crate::controller::NESController;
use crate::error::Error;
use crate::mmu::{MMUConfig, MMUSaveState, MMU};
use crate::mos6502::{CPUConfig, MOS6502Memory, MOS6502};
use crate::ppu::laws::FRAME_DOTS;
use crate::ppu::palette::rgb_of;
use crate::ppu::{Color, PPUMemory, PPUSaveState, VideoInterface, PPU};
use crate::bytes::stored;
use vstd::prelude::*;

verus! {

/// Switches of the console: a set of bits.
#[derive(Debug, Clone, Copy, PartialEq, Eq, Structural)]
pub struct NESConfig {
    pub bits: u16,
}

impl NESConfig {
    pub const DEBUG: u16 = 0x0001;

    pub const DEBUG_OUTPUT: u16 = 0x0003;

    pub open spec fn has(self, mask: u16) -> bool {
        self.bits & mask == mask
    }

    /// What the console's switches mean for the processor.
    pub open spec fn for_cpu(self) -> CPUConfig {
        CPUConfig {
            bits: (if self.has(Self::DEBUG_OUTPUT) {
                CPUConfig::DEBUG_OUTPUT
            } else if self.has(Self::DEBUG) {
                CPUConfig::DEBUG
            } else {
                0
            }),
        }
    }

    /// What the console's switches mean for the memory unit.
    pub open spec fn for_mmu(self) -> MMUConfig {
        MMUConfig {
            bits: (if self.has(Self::DEBUG_OUTPUT) {
                0x0003u16
            } else if self.has(Self::DEBUG) {
                MMUConfig::DEBUG
            } else {
                0
            }),
        }
    }

    pub fn empty() -> (c: NESConfig)
        ensures
            c.bits == 0,
    {
        NESConfig { bits: 0 }
    }

    pub fn from_bits_truncate(bits: u16) -> (c: NESConfig)
        ensures
            c.bits == bits & 0x0003,
    {
        NESConfig { bits: bits & 0x0003 }
    }

    pub fn bits(&self) -> (b: u16)
        ensures
            b == self.bits,
    {
        self.bits
    }

    pub fn contains(&self, mask: u16) -> (b: bool)
        ensures
            b == self.has(mask),
    {
        self.bits & mask == mask
    }

    pub fn cpu_config(&self) -> (c: CPUConfig)
        ensures
            c == self.for_cpu(),
    {
        if self.contains(Self::DEBUG_OUTPUT) {
            CPUConfig { bits: CPUConfig::DEBUG_OUTPUT }
        } else if self.contains(Self::DEBUG) {
            CPUConfig { bits: CPUConfig::DEBUG }
        } else {
            CPUConfig { bits: 0 }
        }
    }

    pub fn mmu_config(&self) -> (c: MMUConfig)
        ensures
            c == self.for_mmu(),
    {
        if self.contains(Self::DEBUG_OUTPUT) {
            MMUConfig { bits: 0x0003 }
        } else if self.contains(Self::DEBUG) {
            MMUConfig { bits: MMUConfig::DEBUG }
        } else {
            MMUConfig { bits: 0 }
        }
    }
}

/// The video sink as the console holds it: it notes when a frame has been
/// completed.
pub struct NesVideoWrapper<V> {
    pub screen: V,
    pub frame_completed: bool,
}

impl<V: VideoInterface> VideoInterface for NesVideoWrapper<V> {
    open spec fn drawn(&self, x: u16, y: u16, color: Color) -> Self {
        NesVideoWrapper { screen: self.screen.drawn(x, y, color), ..*self }
    }

    open spec fn presented(&self) -> Self {
        NesVideoWrapper { screen: self.screen.presented(), frame_completed: true }
    }

    #[inline]
    fn draw_pixel(&mut self, x: u16, y: u16, color: Color) {
        self.screen.draw_pixel(x, y, color);
    }

    #[inline]
    fn end_of_frame(&mut self) {
        self.frame_completed = true;
        self.screen.end_of_frame();
    }
}

/// A saved game.
#[derive(Clone, Copy)]
pub struct NesSaveState<K: Mapper + Copy = Dummy> {
    pub cpu_state: MOS6502,
    pub mmu_state: MMUSaveState<K>,
    pub ppu_state: PPUSaveState,
}

/// A color as a triple of red, green and blue.
pub open spec fn tuple_of(c: Color) -> (u8, u8, u8) {
    (c.0, c.1, c.2)
}

/// The dot of the frame at which the vertical blank starts.
pub const VBLANK_DOT: u32 = 241 * 341 + 1;

/// Represents the NES system.
pub struct Nes<
    V: VideoInterface,
    C: NESController,
    A: AudioOutput,
    K: Mapper + Copy = Dummy,
> {
    pub cpu: MOS6502,
    pub ppu: PPU,
    pub mmu: MMU<C, K>,
    pub apu: APU<A>,
    pub screen: NesVideoWrapper<V>,
    /// The cycles that the instruction under way still takes.
    pub cycles_counter: u32,
    /// The byte that the sprite transfer has read and not yet written.
    pub oam_write: Option<u8>,
    /// Whether the processor cycle that comes next is an odd one; the first
    /// cycle is an even one.
    pub odd_cycle: bool,
    /// Whether the sprite transfer has halted the processor.
    pub dma_started: bool,
    /// Whether the sprite transfer waits one more cycle to start on an even
    /// one.
    pub dma_align: bool,
    pub config: NESConfig,
}

/// Three dots in a row take the picture unit three positions on, and one of
/// them is the start of the vertical blank exactly when that start was
/// fewer than three dots away.
proof fn lemma_three_dots(p0: int, p1: int, p2: int, p3: int)
    requires
        0 <= p0 < FRAME_DOTS,
        p1 == (p0 + 1) % (FRAME_DOTS as int),
        p2 == (p1 + 1) % (FRAME_DOTS as int),
        p3 == (p2 + 1) % (FRAME_DOTS as int),
    ensures
        p3 == (p0 + 3) % (FRAME_DOTS as int),
        (p0 == VBLANK_DOT || p1 == VBLANK_DOT || p2 == VBLANK_DOT) <==> (VBLANK_DOT - p0) % (
        FRAME_DOTS as int) < 3,
{
    assert(FRAME_DOTS == 89342 && VBLANK_DOT == 82182);
}

impl<V: VideoInterface, C: NESController, A: AudioOutput, K: Mapper + Copy> Nes<V, C, A, K> {
    pub open spec fn wf(&self) -> bool {
        &&& self.ppu.wf()
        &&& self.mmu.wf()
        &&& self.apu.wf()
        &&& self.cycles_counter <= 9
    }

    /// The console at power-on: every unit at power-on, a RESET latched in
    /// the processor, and the cartridge, if there is one, in its slot.
    pub open spec fn initial(
        cart: Option<Cart<K>>,
        screen: V,
        controller: C,
        audio: A,
        config: Option<NESConfig>,
    ) -> Self {
        Nes {
            cpu: MOS6502 {
                reset: true,
                ..MOS6502::initial(
                    match config {
                        Some(c) => Some(c.for_cpu()),
                        None => None,
                    },
                )
            },
            ppu: PPU::initial(),
            mmu: MMU::initial(
                cart,
                controller,
                match config {
                    Some(c) => Some(c.for_mmu()),
                    None => None,
                },
            ),
            apu: APU::initial(audio),
            screen: NesVideoWrapper { screen, frame_completed: false },
            cycles_counter: 0,
            oam_write: None,
            odd_cycle: false,
            dma_started: false,
            dma_align: false,
            config: match config {
                Some(c) => c,
                None => NESConfig { bits: 0 },
            },
        }
    }

    /// The console once the sprite transfer has done the work of one
    /// cycle. The first cycle halts the processor; if that was an odd cycle
    /// another goes by; then reads and writes alternate until 256 bytes have
    /// gone from the page to the sprite memory.
    pub open spec fn dma_stepped(self, odd: bool) -> Self {
        if !self.dma_started {
            Nes { dma_started: true, dma_align: odd, ..self }
        } else if self.dma_align {
            Nes { dma_align: false, ..self }
        } else {
            match self.oam_write {
                Some(v) => {
                    let done = self.mmu.oam_offset + 1 >= 256;
                    Nes {
                        ppu: PPU {
                            oam: stored(self.ppu.oam, self.mmu.oam_offset as int, v),
                            ..self.ppu
                        },
                        mmu: if done {
                            MMU { oam_transfer: false, oam_page: 0, oam_offset: 0, ..self.mmu }
                        } else {
                            MMU { oam_offset: (self.mmu.oam_offset + 1) as u16, ..self.mmu }
                        },
                        oam_write: None,
                        dma_started: !done,
                        ..self
                    }
                },
                None => {
                    let addr = self.mmu.oam_page.wrapping_add(self.mmu.oam_offset);
                    Nes {
                        oam_write: Some(self.mmu.cpu_byte(addr)),
                        mmu: self.mmu.after_cpu_read(addr),
                        ..self
                    }
                },
            }
        }
    }

    /// The console once the interrupt lines have been brought to the
    /// processor: an NMI of the picture unit is latched and acknowledged,
    /// else a frame IRQ of the sound unit is raised.
    pub open spec fn interrupts_wired(self) -> Self {
        if self.ppu.nmi {
            Nes {
                cpu: MOS6502 { nmi: true, ..self.cpu },
                ppu: PPU { nmi: false, ..self.ppu },
                ..self
            }
        } else if self.apu.frame_irq {
            Nes { cpu: MOS6502 { irq: true, ..self.cpu }, ..self }
        } else {
            self
        }
    }

    /// The console once the processor has done the work of one cycle, and
    /// what came of it. An instruction runs as a whole in the first of its
    /// cycles; in the others the processor only waits.
    pub open spec fn cpu_stepped(self) -> (Self, Result<(), Error>) {
        let wired = self.interrupts_wired();
        if wired.cycles_counter == 0 {
            let (cpu, mmu, result) = wired.cpu.step(wired.mmu);
            match result {
                Ok(cycles) => (
                    Nes { cpu, mmu, cycles_counter: (cycles - 1) as u32, ..wired },
                    Ok(()),
                ),
                Err(e) => (Nes { cpu, mmu, ..wired }, Err(e)),
            }
        } else {
            (Nes { cycles_counter: (wired.cycles_counter - 1) as u32, ..wired }, Ok(()))
        }
    }

    /// The console once the picture unit has done one dot.
    pub open spec fn ppu_ticked(self) -> Self {
        let (ppu, mmu, screen) = self.ppu.ticked(self.mmu, self.screen);
        Nes { ppu, mmu, screen, ..self }
    }

    /// The console once the sound unit has done one tick, and what came of
    /// it.
    pub open spec fn apu_ticked(self) -> (Self, Result<(), Error>) {
        let (apu, regs, result) = self.apu.ticked(self.mmu.apu_registers);
        (Nes { apu, mmu: MMU { apu_registers: regs, ..self.mmu }, ..self }, result)
    }

    /// The console once the sound unit has done its three ticks, stopping
    /// at the first that fails.
    pub open spec fn apu_ticked_thrice(self) -> (Self, Result<(), Error>) {
        let (first, r1) = self.apu_ticked();
        if r1 is Err {
            (first, r1)
        } else {
            let (second, r2) = first.apu_ticked();
            if r2 is Err {
                (second, r2)
            } else {
                second.apu_ticked()
            }
        }
    }

    /// The console once the processor's cycle has been done, by the sprite
    /// transfer if one is under way and else by the processor, and what came
    /// of it. The cycles alternate between even and odd.
    pub open spec fn cycle_stepped(self) -> (Self, Result<(), Error>) {
        let cycle = Nes { odd_cycle: !self.odd_cycle, ..self };
        if cycle.mmu.oam_transfer {
            (cycle.dma_stepped(self.odd_cycle), Ok(()))
        } else {
            cycle.cpu_stepped()
        }
    }

    /// The console once the picture unit has done its three dots and the
    /// sound unit its three ticks, and what came of it.
    pub open spec fn units_ticked(self) -> (Self, Result<(), Error>) {
        self.ppu_ticked().ppu_ticked().ppu_ticked().apu_ticked_thrice()
    }

    /// One tick of the master clock, and what came of it. Without a
    /// cartridge nothing happens. Otherwise the sprite transfer, if one is
    /// under way, or else the processor does the work of one cycle; then the
    /// picture unit does three dots and the sound unit three ticks. A failure
    /// ends the tick where it occurs.
    pub open spec fn master_ticked(self) -> (Self, Result<(), Error>) {
        if self.mmu.cart is None {
            (self, Err(Error::MissingCartErr))
        } else if self.cycle_stepped().1 is Err {
            self.cycle_stepped()
        } else {
            self.cycle_stepped().0.units_ticked()
        }
    }

    /// How many dots the picture unit has yet to do before the dot at which
    /// the vertical blank starts.
    pub open spec fn dots_to_vblank(self) -> int {
        (VBLANK_DOT - self.ppu.position()) % (FRAME_DOTS as int)
    }

    /// A cycle of the processor or of the sprite transfer leaves the
    /// picture unit where it stands and the video sink as it is.
    pub proof fn lemma_cycle_keeps_picture(self)
        ensures
            self.cycle_stepped().0.ppu.dot == self.ppu.dot,
            self.cycle_stepped().0.ppu.scanline == self.ppu.scanline,
            self.cycle_stepped().0.screen == self.screen,
    {
    }

    /// A dot takes the picture unit one position on and completes the frame
    /// exactly when it is the start of the vertical blank.
    pub proof fn lemma_dot_nears_vblank(self)
        requires
            self.ppu.in_frame(),
        ensures
            self.ppu_ticked().ppu.in_frame(),
            self.ppu_ticked().ppu.position() == (self.ppu.position() + 1) % (FRAME_DOTS as int),
            self.ppu_ticked().screen.frame_completed == (self.screen.frame_completed
                || self.ppu.position() == VBLANK_DOT),
    {
        self.ppu.lemma_tick_moves_on(self.mmu, self.screen);
        self.ppu.lemma_tick_output(self.mmu, self.screen);
    }

    /// The ticks of the sound unit leave the picture unit and the video
    /// sink as they are.
    pub proof fn lemma_sound_keeps_picture(self)
        ensures
            self.apu_ticked_thrice().0.ppu == self.ppu,
            self.apu_ticked_thrice().0.screen == self.screen,
    {
    }

    /// The three dots and three ticks of the units take the picture unit
    /// three positions on, and complete the frame exactly when one of the
    /// three dots is the start of the vertical blank.
    pub proof fn lemma_units_near_vblank(self)
        requires
            self.ppu.in_frame(),
        ensures
            self.units_ticked().0.ppu.in_frame(),
            self.units_ticked().0.ppu.position() == (self.ppu.position() + 3) % (
            FRAME_DOTS as int),
            self.units_ticked().0.screen.frame_completed == (self.screen.frame_completed || (
            VBLANK_DOT - self.ppu.position()) % (FRAME_DOTS as int) < 3),
    {
        let d1 = self.ppu_ticked();
        self.lemma_dot_nears_vblank();
        let d2 = d1.ppu_ticked();
        d1.lemma_dot_nears_vblank();
        let d3 = d2.ppu_ticked();
        d2.lemma_dot_nears_vblank();
        d3.lemma_sound_keeps_picture();
        lemma_three_dots(
            self.ppu.position(),
            d1.ppu.position(),
            d2.ppu.position(),
            d3.ppu.position(),
        );
    }

    /// A tick of the master clock takes the picture unit three dots on, and
    /// when none of the three was the start of the vertical blank, the
    /// vertical blank is three dots nearer.
    pub proof fn lemma_tick_nears_vblank(self)
        requires
            self.ppu.in_frame(),
        ensures
            self.master_ticked().0.ppu.in_frame(),
            self.master_ticked().1 is Ok && !self.master_ticked().0.screen.frame_completed
                ==> self.master_ticked().0.dots_to_vblank() == self.dots_to_vblank() - 3,
            self.master_ticked().1 is Ok && !self.master_ticked().0.screen.frame_completed
                ==> self.dots_to_vblank() >= 3,
    {
        self.lemma_cycle_keeps_picture();
        let stepped = self.cycle_stepped().0;
        stepped.lemma_units_near_vblank();
        let p0 = self.ppu.position();
        assert(stepped.ppu.position() == p0);
        if self.mmu.cart is Some && self.cycle_stepped().1 is Ok {
            let after = stepped.units_ticked().0;
            assert(self.master_ticked().0 == after);
            let p3 = after.ppu.position();
            assert(!after.screen.frame_completed ==> (VBLANK_DOT - p3) % (FRAME_DOTS as int) == (
            VBLANK_DOT - p0) % (FRAME_DOTS as int) - 3 && (VBLANK_DOT - p0) % (FRAME_DOTS as int)
                >= 3) by {
                assert(0 <= p0 < FRAME_DOTS);
                assert(p3 == (p0 + 3) % (FRAME_DOTS as int));
                assert(!after.screen.frame_completed ==> (VBLANK_DOT - p0) % (FRAME_DOTS as int)
                    >= 3);
            }
        }
    }

    /// The console once it has run to the end of the frame, and what came
    /// of it: the master clock ticks until a tick fails or the picture unit
    /// has told the video sink that the frame is complete; the note of that
    /// is then cleared.
    pub open spec fn frame_run(self) -> (Self, Result<(), Error>)
        decreases self.dots_to_vblank(),
        when self.ppu.in_frame()
        via Self::frame_run_ends
    {
        let (next, result) = self.master_ticked();
        if result is Err {
            (next, result)
        } else if next.screen.frame_completed {
            (
                Nes {
                    screen: NesVideoWrapper { frame_completed: false, ..next.screen },
                    ..next
                },
                Ok(()),
            )
        } else {
            next.frame_run()
        }
    }

    #[via_fn]
    proof fn frame_run_ends(self) {
        self.lemma_tick_nears_vblank();
    }

    /// The console once it has been reset: a RESET is latched in the
    /// processor, the memory unit is reset and the sound channels are
    /// switched off.
    pub open spec fn after_reset(self) -> Self {
        Nes {
            cpu: MOS6502 { reset: true, ..self.cpu },
            mmu: self.mmu.after_reset(),
            apu: self.apu.after_reset(),
            ..self
        }
    }

    /// What `save_state` keeps.
    pub open spec fn saved(self) -> NesSaveState<K> {
        NesSaveState {
            cpu_state: self.cpu,
            mmu_state: self.mmu.saved(),
            ppu_state: PPUSaveState { palette_ram: self.ppu.palette_ram, oam: self.ppu.oam },
        }
    }

    /// The console once `s` has been loaded.
    pub open spec fn after_load(self, s: NesSaveState<K>) -> Self {
        Nes {
            cpu: s.cpu_state,
            mmu: self.mmu.after_load(s.mmu_state),
            ppu: PPU { palette_ram: s.ppu_state.palette_ram, oam: s.ppu_state.oam, ..self.ppu },
            ..self
        }
    }

    pub fn new(
        cart: Option<Cart<K>>,
        screen: V,
        controller: C,
        audio: A,
        config: Option<NESConfig>,
    ) -> (nes: Self)
        requires
            cart matches Some(c) ==> c.wf(),
        ensures
            nes == Nes::initial(cart, screen, controller, audio, config),
            nes.wf(),
    {
        let cpu_config = match &config {
            Some(c) => Some(c.cpu_config()),
            None => None,
        };
        let mmu_config = match &config {
            Some(c) => Some(c.mmu_config()),
            None => None,
        };
        let mut cpu = MOS6502::new(cpu_config);
        cpu.reset();
        let ppu = PPU::default();
        let apu = APU::new(audio);
        let mmu = MMU::new(cart, controller, mmu_config);
        Nes {
            cpu,
            ppu,
            apu,
            mmu,
            screen: NesVideoWrapper { screen, frame_completed: false },
            cycles_counter: 0,
            oam_write: None,
            odd_cycle: false,
            dma_started: false,
            dma_align: false,
            config: match config {
                Some(c) => c,
                None => NESConfig::empty(),
            },
        }
    }

    pub fn reset(&mut self)
        requires
            old(self).wf(),
        ensures
            *final(self) == old(self).after_reset(),
            final(self).wf(),
    {
        self.cpu.reset();
        self.mmu.reset();
        self.apu.reset();
    }

    pub fn save_state(&self) -> (s: NesSaveState<K>)
        ensures
            s == self.saved(),
    {
        NesSaveState {
            cpu_state: self.cpu,
            mmu_state: self.mmu.save_state(),
            ppu_state: self.ppu.save_state(),
        }
    }

    pub fn load_state(&mut self, s: NesSaveState<K>)
        requires
            old(self).wf(),
        ensures
            *final(self) == old(self).after_load(s),
            final(self).wf(),
    {
        self.cpu = s.cpu_state;
        self.mmu.load_state(s.mmu_state);
        self.ppu.load_state(s.ppu_state);
    }

    fn step_dma(&mut self, odd: bool)
        requires
            old(self).wf(),
        ensures
            *final(self) == old(self).dma_stepped(odd),
            final(self).wf(),
    {
        if !self.dma_started {
            self.dma_started = true;
            self.dma_align = odd;
        } else if self.dma_align {
            self.dma_align = false;
        } else {
            match self.oam_write {
                Some(v) => {
                    self.ppu.oam[self.mmu.oam_offset as usize] = v;
                    self.oam_write = None;
                    if self.mmu.oam_offset + 1 >= 256 {
                        self.mmu.oam_transfer = false;
                        self.mmu.oam_page = 0;
                        self.mmu.oam_offset = 0;
                        self.dma_started = false;
                    } else {
                        self.mmu.oam_offset += 1;
                    }
                },
                None => {
                    let addr = self.mmu.oam_page.wrapping_add(self.mmu.oam_offset);
                    self.oam_write = Some(self.mmu.read(addr));
                },
            }
        }
    }

    fn wire_interrupts(&mut self)
        requires
            old(self).wf(),
        ensures
            *final(self) == old(self).interrupts_wired(),
            final(self).wf(),
    {
        if self.ppu.nmi {
            self.cpu.nmi();
            self.ppu.nmi = false;
        } else if self.apu.get_irq() {
            self.cpu.irq();
        }
    }

    fn step_cpu(&mut self) -> (r: Result<(), Error>)
        requires
            old(self).wf(),
        ensures
            (*final(self), r) == old(self).cpu_stepped(),
            final(self).wf(),
    {
        self.wire_interrupts();
        if self.cycles_counter == 0 {
            match self.cpu.tick(&mut self.mmu) {
                Ok(cycles) => {
                    self.cycles_counter = cycles;
                },
                Err(e) => {
                    return Err(e);
                },
            }
        }
        self.cycles_counter -= 1;
        Ok(())
    }

    fn tick_ppu(&mut self)
        requires
            old(self).wf(),
        ensures
            *final(self) == old(self).ppu_ticked(),
            final(self).wf(),
    {
        self.ppu.tick(&mut self.mmu, &mut self.screen);
    }

    fn tick_apu(&mut self) -> (r: Result<(), Error>)
        requires
            old(self).wf(),
        ensures
            (*final(self), r) == old(self).apu_ticked(),
            final(self).wf(),
    {
        self.apu.tick(&mut self.mmu.apu_registers)
    }

    /// Advances the console by one tick of the master clock.
    pub fn master_clock_tick(&mut self) -> (r: Result<(), Error>)
        requires
            old(self).wf(),
        ensures
            (*final(self), r) == old(self).master_ticked(),
            final(self).wf(),
    {
        if !self.mmu.has_cartridge() {
            return Err(Error::missing_cart());
        }
        let odd = self.odd_cycle;
        self.odd_cycle = !odd;
        if self.mmu.oam_transfer {
            self.step_dma(odd);
        } else {
            match self.step_cpu() {
                Ok(_) => {},
                Err(e) => {
                    return Err(e);
                },
            }
        }
        self.tick_ppu();
        self.tick_ppu();
        self.tick_ppu();
        match self.tick_apu() {
            Ok(_) => {},
            Err(e) => {
                return Err(e);
            },
        }
        match self.tick_apu() {
            Ok(_) => {},
            Err(e) => {
                return Err(e);
            },
        }
        self.tick_apu()
    }

    /// Runs the console until the picture unit signals the end of a frame.
    pub fn run_frame(&mut self) -> (r: Result<(), Error>)
        requires
            old(self).wf(),
        ensures
            (*final(self), r) == old(self).frame_run(),
            final(self).wf(),
    {
        loop
            invariant
                self.wf(),
                self.frame_run() == old(self).frame_run(),
            decreases self.dots_to_vblank(),
        {
            proof {
                self.lemma_tick_nears_vblank();
            }
            match self.master_clock_tick() {
                Ok(_) => {},
                Err(e) => {
                    return Err(e);
                },
            }
            if self.screen.frame_completed {
                self.screen.frame_completed = false;
                return Ok(());
            }
        }
    }

    pub fn insert_cartridge(&mut self, cart: Cart<K>)
        requires
            old(self).wf(),
            cart.wf(),
        ensures
            *final(self) == (Nes {
                mmu: MMU { cart: Some(cart), ..old(self).mmu },
                ..*old(self)
            }),
            final(self).wf(),
    {
        self.mmu.insert_cartridge(cart)
    }

    /// A copy of the pattern memory, `0x0000..=0x1FFF` of the picture
    /// unit's address space.
    pub fn pattern_table(&self) -> (table: [u8; 0x2000])
        requires
            self.wf(),
        ensures
            forall|i: int| 0 <= i < 0x2000 ==> table[i] == self.mmu.ppu_byte(i as u16),
    {
        let mut r = [0; 0x2000];
        let mut i: usize = 0;
        while i < 0x2000
            invariant
                i <= 0x2000,
                self.wf(),
                forall|j: int| 0 <= j < i ==> r[j] == self.mmu.ppu_byte(j as u16),
            decreases 0x2000 - i,
        {
            r[i] = self.mmu.read_ppu(i as u16);
            i += 1;
        }
        r
    }

    /// The four colors of palette `id`, as the television shows them.
    pub fn get_palette(&self, id: u16) -> (colors: [(u8, u8, u8); 4])
        requires
            id < 8,
        ensures
            forall|i: int|
                0 <= i < 4 ==> colors[i] == tuple_of(rgb_of(self.ppu.palette_ram[4 * id + i])),
    {
        let index = (4 * id) as usize;
        let mut out = [(0, 0, 0); 4];
        let mut i: usize = 0;
        while i < 4
            invariant
                i <= 4,
                index == 4 * id,
                id < 8,
                forall|j: int|
                    0 <= j < i ==> out[j] == tuple_of(rgb_of(self.ppu.palette_ram[4 * id + j])),
            decreases 4 - i,
        {
            let c = self.ppu.palette_ram[index + i];
            out[i] = self.ppu.convert_color_to_rgb(c).into_tuple();
            i += 1;
        }
        out
    }

    /// All thirty-two colors of the palette RAM, as the television shows
    /// them.
    pub fn palette_table(&self) -> (colors: [(u8, u8, u8); 32])
        ensures
            forall|i: int| 0 <= i < 32 ==> colors[i] == tuple_of(rgb_of(self.ppu.palette_ram[i])),
    {
        let mut out = [(0, 0, 0); 32];
        let mut i: usize = 0;
        while i < 32
            invariant
                i <= 32,
                forall|j: int|
                    0 <= j < i ==> out[j] == tuple_of(rgb_of(self.ppu.palette_ram[j])),
            decreases 32 - i,
        {
            let c = self.ppu.palette_ram[i];
            out[i] = self.ppu.convert_color_to_rgb(c).into_tuple();
            i += 1;
        }
        out
    }

    /// Returns a clone of 0x2000-0x2fff of PPU memory
    pub fn get_nametables(&self) -> (tables: [u8; 0x1000])
        requires
            self.wf(),
        ensures
            forall|i: int| 0 <= i < 0x1000 ==> tables[i] == self.mmu.ppu_byte((0x2000 + i) as u16),
    {
        let mut buf = [0; 0x1000];
        let mut i: usize = 0;
        while i < 0x1000
            invariant
                i <= 0x1000,
                self.wf(),
                forall|j: int| 0 <= j < i ==> buf[j] == self.mmu.ppu_byte((0x2000 + j) as u16),
            decreases 0x1000 - i,
        {
            buf[i] = self.mmu.read_ppu(0x2000 + i as u16);
            i += 1;
        }
        buf
    }

    #[inline]
    pub fn get_screen_mut(&mut self) -> (screen: &mut V)
        ensures
            *screen == old(self).screen.screen,
            *final(self) == (Nes {
                screen: NesVideoWrapper { screen: *final(screen), ..old(self).screen },
                ..*old(self)
            }),
    {
        &mut self.screen.screen
    }

    #[inline]
    pub fn get_audio_device_mut(&mut self) -> (device: &mut A)
        ensures
            *device == old(self).apu.sample_out,
            *final(self) == (Nes {
                apu: APU { sample_out: *final(device), ..old(self).apu },
                ..*old(self)
            }),
    {
        &mut self.apu.sample_out
    }

    #[inline]
    pub fn get_controller_mut(&mut self) -> (controller: &mut C)
        ensures
            *controller == old(self).mmu.controller,
            *final(self) == (Nes {
                mmu: MMU { controller: *final(controller), ..old(self).mmu },
                ..*old(self)
            }),
    {
        &mut self.mmu.controller
    }

    #[inline]
    pub fn get_screen(&self) -> (screen: &V)
        ensures
            *screen == self.screen.screen,
    {
        &self.screen.screen
    }

    #[inline]
    pub fn get_audio_device(&self) -> (device: &A)
        ensures
            *device == self.apu.sample_out,
    {
        self.apu.audio_device()
    }

    #[inline]
    pub fn get_controller(&self) -> (controller: &C)
        ensures
            *controller == self.mmu.controller,
    {
        &self.mmu.controller
    }
}

} // verus!
