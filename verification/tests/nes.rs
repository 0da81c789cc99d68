use nes_core::apu::{AudioOutput, ChannelLevels, DummyAudio};
use nes_core::cart::{Cart, CartState, Ines, Mirroring};
use nes_core::controller::{ControllerState, DummyController, NESController};
use nes_core::error::Error;
use nes_core::mapper::Mapper;
use nes_core::nes::{NESConfig, Nes};
use nes_core::nes_builder;
use nes_core::ppu::{Color, DummyVideo, PPUMemory, VideoInterface};

/// A video sink that keeps the picture it is drawing and the frames it has
/// been handed.
#[derive(Clone, PartialEq, Debug)]
struct Film {
    drawing: Vec<Color>,
    frames: Vec<Vec<Color>>,
}

impl Film {
    fn new() -> Film {
        Film { drawing: vec![Color(0, 0, 0); 256 * 240], frames: Vec::new() }
    }
}

impl VideoInterface for Film {
    fn draw_pixel(&mut self, x: u16, y: u16, color: Color) {
        self.drawing[y as usize * 256 + x as usize] = color;
    }
    fn end_of_frame(&mut self) {
        self.frames.push(self.drawing.clone());
    }
}

struct Pad(u8);

impl NESController for Pad {
    fn poll_controller(&self) -> ControllerState {
        ControllerState::from_bits_truncate(self.0)
    }
}

/// A sink that counts the samples it is handed.
struct Counter {
    rate: usize,
    heard: usize,
}

impl AudioOutput for Counter {
    fn queue_audio(&mut self, samples: &[ChannelLevels]) -> Result<(), String> {
        self.heard += samples.len();
        Ok(())
    }
    fn sample_rate(&self) -> usize {
        self.rate
    }
}

/// An image of mapper `flags6 >> 4` with pattern RAM and 32 KiB of program:
/// `code` at 0x8000, `nmi` at 0x8100 and `irq` at 0x8200, with the vectors
/// pointing at them.
fn image(flags6: u8, code: &[u8], nmi: &[u8], irq: &[u8]) -> Vec<u8> {
    let mut rom = vec![0x4E, 0x45, 0x53, 0x1A, 2, 0, flags6, 0];
    rom.extend_from_slice(&[0; 8]);
    let mut prg = vec![0xEA; 32768];
    prg[..code.len()].copy_from_slice(code);
    prg[0x100..0x100 + nmi.len()].copy_from_slice(nmi);
    prg[0x200..0x200 + irq.len()].copy_from_slice(irq);
    prg[0x7FFA..0x8000].copy_from_slice(&[0x00, 0x81, 0x00, 0x80, 0x00, 0x82]);
    rom.extend_from_slice(&prg);
    rom
}

fn cart(code: &[u8]) -> Cart {
    Cart::from_bytes(image(0, code, &[0x40], &[0x40])).unwrap()
}

fn console(code: &[u8]) -> Nes<Film, Pad, DummyAudio> {
    Nes::new(Some(cart(code)), Film::new(), Pad(0), DummyAudio(), None)
}

const FOREVER: [u8; 3] = [0x4C, 0x00, 0x80];

#[test]
fn a_console_without_a_cartridge_does_not_tick() {
    let mut nes: Nes<DummyVideo, DummyController, DummyAudio> =
        Nes::new(None, DummyVideo(), DummyController(), DummyAudio(), None);
    assert!(matches!(nes.master_clock_tick(), Err(Error::MissingCartErr)));
    assert!(matches!(nes.run_frame(), Err(Error::MissingCartErr)));
    assert_eq!((nes.ppu.scanline, nes.ppu.dot), (261, 0));
    assert!(nes.cpu.reset);
    nes.insert_cartridge(cart(&FOREVER));
    assert!(nes.master_clock_tick().is_ok());
    assert_eq!((nes.ppu.scanline, nes.ppu.dot), (261, 3));
}

#[test]
fn the_first_tick_serves_the_reset_and_runs_the_first_instruction() {
    let mut nes = console(&[0xA9, 0x42, 0x00]);
    assert!(nes.cpu.reset);
    nes.master_clock_tick().unwrap();
    assert_eq!(nes.cpu.A.get(), 0x42);
    assert_eq!(nes.cpu.PC.get(), 0x8002);
    assert_eq!(nes.cpu.P.bits() & 0x82, 0);
    assert!(!nes.cpu.reset);
    // The instruction takes two cycles: the second tick only waits.
    assert_eq!(nes.cycles_counter, 1);
    nes.master_clock_tick().unwrap();
    assert_eq!(nes.cpu.PC.get(), 0x8002);
    assert_eq!(nes.cycles_counter, 0);
    assert_eq!((nes.ppu.scanline, nes.ppu.dot), (261, 6));
}

#[test]
fn an_instruction_that_is_none_stops_the_frame() {
    let mut nes = console(&[0xEA, 0x02]);
    match nes.run_frame() {
        Err(Error::InvalidOpcodeErr(at, opcode)) => assert_eq!((at, opcode), (0x8001, 0x02)),
        other => panic!("{:?}", other),
    }
    assert_eq!(nes.cpu.PC.get(), 0x8001);
    // The failing tick has not reached the picture unit.
    assert_eq!((nes.ppu.scanline, nes.ppu.dot), (261, 6));
    assert!(nes.get_screen().frames.is_empty());
}

#[test]
fn the_vertical_blank_interrupts_the_processor() {
    // LDA #$80; STA $2000; then wait.
    let code = [0xA9, 0x80, 0x8D, 0x00, 0x20, 0x4C, 0x05, 0x80];
    // The handler counts in 0x10 and returns.
    let handler = [0xE6, 0x10, 0x40];
    let rom = image(0, &code, &handler, &[0x40]);
    let mut nes =
        Nes::new(Some(Cart::from_bytes(rom).unwrap()), Film::new(), Pad(0), DummyAudio(), None);
    while !nes.ppu.nmi {
        nes.master_clock_tick().unwrap();
        assert!(nes.cpu.PC.get() < 0x8100);
    }
    // The picture unit has just passed dot 1 of scanline 241.
    assert_eq!(nes.ppu.scanline, 241);
    assert!(nes.ppu.dot >= 2 && nes.ppu.dot <= 4);
    assert_eq!(nes.mmu.read(0x0010), 0);
    // The processor takes the NMI as soon as its instruction is over.
    let mut waited = 0;
    while nes.cpu.PC.get() < 0x8100 {
        nes.master_clock_tick().unwrap();
        waited += 1;
    }
    assert!(waited <= 3);
    assert!(!nes.ppu.nmi);
    assert!(!nes.cpu.nmi);
    assert_eq!(nes.cpu.PC.get(), 0x8102);
    assert_eq!(nes.mmu.read(0x0010), 1);
    // The return address on the stack lies in the waiting loop.
    let s = nes.cpu.S.get();
    let lo = nes.mmu.read(0x0100 + s.wrapping_add(2) as u16) as u16;
    let hi = nes.mmu.read(0x0100 + s.wrapping_add(3) as u16) as u16;
    assert!((0x8005..0x8008).contains(&(hi << 8 | lo)));
    // The ticks above have completed a frame: running to the end of the
    // frame returns at once, and clears the note of it.
    assert!(nes.screen.frame_completed);
    nes.run_frame().unwrap();
    assert!(!nes.screen.frame_completed);
    assert!(!nes.ppu.nmi);
    // The next frame ends as the next NMI is raised; the processor takes
    // it within the next instruction.
    nes.run_frame().unwrap();
    assert!(nes.ppu.nmi);
    assert_eq!(nes.mmu.read(0x0010), 1);
    for _ in 0..4 {
        nes.master_clock_tick().unwrap();
    }
    assert_eq!(nes.mmu.read(0x0010), 2);
}

/// How many ticks the sprite transfer that `code` starts takes, whether it
/// started on an odd cycle, and the console afterwards.
fn transfer(code: &[u8]) -> (usize, bool, Nes<Film, Pad, DummyAudio>) {
    let mut nes = console(code);
    for i in 0..256 {
        nes.mmu.ram[0x200 + i] = (i as u8) ^ 0x5A;
    }
    while !nes.mmu.oam_transfer {
        nes.master_clock_tick().unwrap();
    }
    let odd = nes.odd_cycle;
    let cpu = nes.cpu;
    let waiting = nes.cycles_counter;
    let mut ticks = 0;
    while nes.mmu.oam_transfer {
        nes.master_clock_tick().unwrap();
        ticks += 1;
        // The processor stands still.
        assert_eq!(nes.cpu, cpu);
        assert_eq!(nes.cycles_counter, waiting);
    }
    (ticks, odd, nes)
}

#[test]
fn a_sprite_transfer_takes_513_cycles_from_an_even_cycle_and_514_from_an_odd_one() {
    // LDA #$02; STA $4014
    let even = [0xA9, 0x02, 0x8D, 0x14, 0x40];
    // The same after an instruction of three cycles: LDA $00.
    let odd = [0xA5, 0x00, 0xA9, 0x02, 0x8D, 0x14, 0x40];
    let (ticks_a, odd_a, nes) = transfer(&even);
    let (ticks_b, odd_b, _) = transfer(&odd);
    assert_ne!(odd_a, odd_b);
    assert_eq!(ticks_a, if odd_a { 514 } else { 513 });
    assert_eq!(ticks_b, if odd_b { 514 } else { 513 });
    // The page has reached the sprite memory.
    for i in 0..256 {
        assert_eq!(nes.ppu.oam[i], (i as u8) ^ 0x5A);
    }
    assert_eq!(nes.mmu.oam_offset, 0);
    assert!(!nes.dma_started);
    assert_eq!(nes.oam_write, None);
}

#[test]
fn the_processor_goes_on_after_a_sprite_transfer() {
    // LDA #$02; STA $4014; LDX #$07
    let (_, _, mut nes) = transfer(&[0xA9, 0x02, 0x8D, 0x14, 0x40, 0xA2, 0x07]);
    assert_eq!(nes.cpu.X.get(), 0);
    // The store still has three of its four cycles to wait.
    for _ in 0..3 {
        nes.master_clock_tick().unwrap();
        assert_eq!(nes.cpu.X.get(), 0);
    }
    nes.master_clock_tick().unwrap();
    assert_eq!(nes.cpu.X.get(), 7);
}

/// A program that shows a white tile on a red backdrop and then waits.
fn painter() -> Vec<u8> {
    let mut code = Vec::new();
    let mut poke = |addr: u16, v: u8| {
        code.extend_from_slice(&[0xA9, v, 0x8D, addr as u8, (addr >> 8) as u8]);
    };
    // A solid tile 1 in pattern RAM.
    poke(0x2006, 0x00);
    poke(0x2006, 0x10);
    for _ in 0..8 {
        poke(0x2007, 0xFF);
    }
    // Tile 1 at column 3 of row 2 of the first nametable.
    poke(0x2006, 0x20);
    poke(0x2006, 0x43);
    poke(0x2007, 0x01);
    // The backdrop red, color 1 white.
    poke(0x2006, 0x3F);
    poke(0x2006, 0x00);
    poke(0x2007, 0x16);
    poke(0x2007, 0x30);
    // Scroll to the origin and switch the background on.
    poke(0x2006, 0x00);
    poke(0x2006, 0x00);
    poke(0x2005, 0x00);
    poke(0x2005, 0x00);
    poke(0x2001, 0x0A);
    let here = 0x8000 + code.len() as u16;
    code.extend_from_slice(&[0x4C, here as u8, (here >> 8) as u8]);
    code
}

#[test]
fn a_program_paints_the_screen() {
    let mut nes = console(&painter());
    nes.run_frame().unwrap();
    nes.run_frame().unwrap();
    let frame = &nes.get_screen().frames[1];
    let white = Color(236, 238, 236);
    let red = Color(152, 34, 32);
    for y in 0..240 {
        for x in 0..256 {
            let inside = (24..32).contains(&x) && (16..24).contains(&y);
            assert_eq!(frame[y * 256 + x], if inside { white } else { red }, "at {} {}", x, y);
        }
    }
}

#[test]
fn two_consoles_with_the_same_cartridge_show_the_same_frames() {
    let code = painter();
    let mut a = console(&code);
    let mut b = Nes::new(
        Some(cart(&code)),
        Film::new(),
        Pad(0),
        Counter { rate: 1, heard: 0 },
        None,
    );
    for frame in 0..3 {
        a.run_frame().unwrap();
        b.run_frame().unwrap();
        assert_eq!(a.get_screen().frames.len(), frame + 1);
        assert_eq!(a.get_screen(), b.get_screen());
        assert_eq!(a.cpu, b.cpu);
        assert_eq!((a.ppu.scanline, a.ppu.dot), (b.ppu.scanline, b.ppu.dot));
        assert_eq!(a.mmu.ram, b.mmu.ram);
    }
    assert_eq!(b.get_audio_device().heard + b.apu.buffered, 1);
}

#[test]
fn a_frame_is_as_many_ticks_as_bring_the_vertical_blank() {
    let mut by_frame = console(&FOREVER);
    let mut by_tick = console(&FOREVER);
    for ticks in [27508, 29781, 29781, 29780, 29781] {
        by_frame.run_frame().unwrap();
        for _ in 0..ticks - 1 {
            by_tick.master_clock_tick().unwrap();
            assert!(!by_tick.screen.frame_completed);
        }
        by_tick.master_clock_tick().unwrap();
        assert!(by_tick.screen.frame_completed);
        by_tick.screen.frame_completed = false;
        assert_eq!(by_frame.cpu, by_tick.cpu);
        assert_eq!(
            (by_frame.ppu.scanline, by_frame.ppu.dot, by_frame.ppu.frame),
            (by_tick.ppu.scanline, by_tick.ppu.dot, by_tick.ppu.frame)
        );
        assert_eq!(by_frame.get_screen(), by_tick.get_screen());
        assert!(!by_frame.screen.frame_completed);
        assert_eq!(by_frame.ppu.scanline, 241);
    }
    assert_eq!(by_frame.get_screen().frames.len(), 5);
}

#[test]
fn samples_come_at_the_sinks_rate() {
    let mut nes = Nes::new(
        Some(cart(&FOREVER)),
        DummyVideo(),
        DummyController(),
        Counter { rate: 44100, heard: 0 },
        None,
    );
    // A tenth of a second: 178977 ticks of the master clock, three ticks of
    // the sound unit each.
    for _ in 0..178977 {
        nes.master_clock_tick().unwrap();
    }
    assert_eq!(nes.get_audio_device().heard + nes.apu.buffered, 4410);
    assert_eq!(nes.get_audio_device().heard, 4097);
    nes.get_audio_device_mut().rate = 0;
    for _ in 0..1000 {
        nes.master_clock_tick().unwrap();
    }
    assert_eq!(nes.get_audio_device().heard + nes.apu.buffered, 4410);
}

#[test]
fn a_program_reads_the_controller() {
    // Strobe, then shift the eight buttons into 0x20..0x28.
    let code = [
        0xA9, 0x01, 0x8D, 0x16, 0x40, // LDA #1; STA $4016
        0xA9, 0x00, 0x8D, 0x16, 0x40, // LDA #0; STA $4016
        0xA2, 0x00, // LDX #0
        0xAD, 0x16, 0x40, // LDA $4016
        0x95, 0x20, // STA $20,X
        0xE8, // INX
        0xE0, 0x08, // CPX #8
        0xD0, 0xF6, // BNE back to LDA $4016
        0x4C, 0x16, 0x80, // wait
    ];
    let held = ControllerState::B | ControllerState::SELECT | ControllerState::LEFT;
    let mut nes = Nes::new(Some(cart(&code)), DummyVideo(), Pad(held), DummyAudio(), None);
    for _ in 0..200 {
        nes.master_clock_tick().unwrap();
    }
    assert_eq!(nes.cpu.PC.get(), 0x8016);
    assert_eq!(nes.mmu.ram[0x20..0x28], [0, 1, 1, 0, 0, 0, 1, 0]);
    // The buttons can change between ticks.
    nes.get_controller_mut().0 = ControllerState::A;
    assert_eq!(nes.get_controller().poll_controller().bits(), 1);
}

#[test]
fn the_frame_irq_reaches_the_processor() {
    // CLI; then wait.
    let code = [0x58, 0x4C, 0x01, 0x80];
    // The handler counts in 0x11, disables interrupts in the pushed status
    // and returns.
    let handler = [0xE6, 0x11, 0x68, 0x09, 0x04, 0x48, 0x40];
    let rom = image(0, &code, &[0x40], &handler);
    let mut nes = Nes::new(
        Some(Cart::from_bytes(rom).unwrap()),
        DummyVideo(),
        DummyController(),
        DummyAudio(),
        None,
    );
    // Step 3 of the frame sequencer is the sound unit's 89492nd tick.
    for _ in 0..29830 {
        nes.master_clock_tick().unwrap();
    }
    assert!(!nes.apu.get_irq());
    assert!(!nes.cpu.irq);
    assert_eq!(nes.mmu.ram[0x11], 0);
    nes.master_clock_tick().unwrap();
    assert!(nes.apu.get_irq());
    for _ in 0..20 {
        nes.master_clock_tick().unwrap();
    }
    assert!(nes.cpu.irq);
    assert_eq!(nes.mmu.ram[0x11], 1);
    assert!(nes.cpu.P.contains(0x04));
}

#[test]
fn a_saved_state_brings_the_console_back() {
    // Count in 0x30 for ever.
    let mut nes = console(&[0xE6, 0x30, 0x4C, 0x00, 0x80]);
    for _ in 0..100 {
        nes.master_clock_tick().unwrap();
    }
    nes.ppu.palette_ram[1] = 0x21;
    nes.ppu.oam[9] = 0x99;
    let saved = nes.save_state();
    let counted = nes.mmu.ram[0x30];
    let cpu = nes.cpu;
    assert!(counted > 0);
    for _ in 0..100 {
        nes.master_clock_tick().unwrap();
    }
    nes.ppu.palette_ram[1] = 0;
    nes.ppu.oam[9] = 0;
    assert!(nes.mmu.ram[0x30] > counted);
    nes.load_state(saved);
    assert_eq!(nes.mmu.ram[0x30], counted);
    assert_eq!(nes.cpu, cpu);
    assert_eq!(nes.ppu.palette_ram[1], 0x21);
    assert_eq!(nes.ppu.oam[9], 0x99);
    // The state can be loaded again.
    nes.master_clock_tick().unwrap();
    nes.load_state(saved);
    assert_eq!(nes.cpu, cpu);
}

#[test]
fn a_reset_starts_the_program_over() {
    // A UxROM cartridge: the program selects bank 1 and goes on there.
    let mut rom = image(0x20, &[0xA9, 0x01, 0x8D, 0x00, 0x80], &[0x40], &[0x40]);
    rom[16 + 0x4005..16 + 0x4008].copy_from_slice(&[0x4C, 0x05, 0x80]);
    let mut nes = Nes::new(
        Some(Cart::from_bytes(rom).unwrap()),
        DummyVideo(),
        DummyController(),
        DummyAudio(),
        None,
    );
    for _ in 0..20 {
        nes.master_clock_tick().unwrap();
    }
    assert_eq!(nes.mmu.read(0x8000), 0xEA);
    assert!((0x8005..0x8008).contains(&nes.cpu.PC.get()));
    nes.mmu.write(0x0000, 0x77);
    nes.mmu.vram[0][5] = 0x55;
    nes.apu.pulse_1.enabled = true;
    nes.apu.noise.enabled = true;
    nes.reset();
    assert!(nes.cpu.reset);
    // The mapper shows bank 0 again, the nametables are blank, the channels
    // off; work RAM is as it was.
    assert_eq!(nes.mmu.read(0x8000), 0xA9);
    assert_eq!(nes.mmu.vram[0][5], 0);
    assert!(!nes.apu.pulse_1.enabled && !nes.apu.noise.enabled);
    assert_eq!(nes.mmu.read(0x0000), 0x77);
    nes.cpu.A.set(0);
    while nes.cycles_counter > 0 {
        nes.master_clock_tick().unwrap();
    }
    nes.master_clock_tick().unwrap();
    assert_eq!(nes.cpu.PC.get(), 0x8002);
    assert_eq!(nes.cpu.A.get(), 1);
}

/// A test program that reports as the test programs for this console do:
/// a status byte at 0x6000 (0x80 while it runs, then its result), three
/// bytes that mark the report at 0x6001, and a text from 0x6004.
fn reporter() -> Vec<u8> {
    let text = b"basics\n\nPassed\n\0";
    let mut code = vec![
        0xA9, 0x80, 0x8D, 0x00, 0x60, // running
        0xA9, 0xDE, 0x8D, 0x01, 0x60, 0xA9, 0xB0, 0x8D, 0x02, 0x60, 0xA9, 0x61, 0x8D, 0x03, 0x60,
        0xA2, 0x00, // LDX #0
        0xBD, 0x80, 0x80, // LDA text,X
        0x9D, 0x04, 0x60, // STA $6004,X
        0xF0, 0x03, // BEQ past the loop
        0xE8, // INX
        0xD0, 0xF5, // BNE back to LDA text,X
        // 0x7F + 1 overflows into 0x80 and sets V.
        0x18, 0xA9, 0x7F, 0x69, 0x01, // CLC; LDA #$7F; ADC #1
        0x50, 0x11, // BVC fail
        0xC9, 0x80, // CMP #$80
        0xD0, 0x0D, // BNE fail
        // 0x00 - 1 borrows.
        0x38, 0xA9, 0x00, 0xE9, 0x01, // SEC; LDA #0; SBC #1
        0xB0, 0x06, // BCS fail
        0xA9, 0x00, 0x8D, 0x00, 0x60, // passed
        0xF0, 0x05, // BEQ to the end
        0xA9, 0x01, 0x8D, 0x00, 0x60, // fail
    ];
    let here = 0x8000 + code.len() as u16;
    code.extend_from_slice(&[0x4C, here as u8, (here >> 8) as u8]);
    assert!(code.len() <= 0x80);
    code.resize(0x80, 0xEA);
    code.extend_from_slice(text);
    code
}

/// Runs the reporting program as a test program for this console is run:
/// tick by tick until the status leaves 0x80, resetting the processor when
/// the program asks for it, and then reads the result and the text.
#[test]
fn a_test_program_reports_its_result_through_the_debug_area() {
    let cart = cart(&reporter());
    let mut nes = Nes::new(
        Some(cart),
        DummyVideo(),
        DummyController(),
        DummyAudio(),
        Some(NESConfig::from_bits_truncate(NESConfig::DEBUG)),
    );
    let mut ticks = 0;
    let code = loop {
        nes.master_clock_tick().unwrap();
        let status = nes.mmu.blargg_debug_status();
        if status < 0x80 {
            break status;
        } else if status == 0x81 {
            nes.cpu.reset();
        }
        ticks += 1;
        assert!(ticks < 100_000);
    };
    let output = nes.mmu.blargg_debug_text();
    let text: String = output.iter().take_while(|c| **c != 0).map(|c| *c as char).collect();
    println!("{}", text);
    println!("Test finished with code: {}", code);
    assert_eq!(code, 0);
    assert!(text.starts_with("basics"));
    assert_eq!(text, "basics\n\nPassed\n");
    assert_eq!(nes.mmu.blargg_debug_state.unwrap().magic_number, [0xDE, 0xB0, 0x61]);
}

#[test]
fn the_builder_puts_a_console_together() {
    let mut plain = nes_builder().build(Some(cart(&FOREVER)), None);
    plain.run_frame().unwrap();
    assert_eq!(plain.ppu.scanline, 241);
    assert_eq!(plain.config, NESConfig::empty());
    assert!(plain.mmu.blargg_debug_state.is_none());
    let mut nes = nes_builder()
        .video(Film::new())
        .controller(Pad(0x81))
        .audio(Counter { rate: 48000, heard: 0 })
        .build(None::<Cart>, Some(NESConfig::from_bits_truncate(NESConfig::DEBUG_OUTPUT)));
    assert!(matches!(nes.master_clock_tick(), Err(Error::MissingCartErr)));
    assert_eq!(nes.get_controller().0, 0x81);
    assert_eq!(nes.get_audio_device().rate, 48000);
    assert!(nes.get_screen().frames.is_empty());
    assert!(nes.config.contains(NESConfig::DEBUG));
    assert_eq!(nes.cpu.config.bits(), 3);
    assert_eq!(nes.mmu.config.bits(), 3);
    assert!(nes.mmu.blargg_debug_state.is_some());
    nes.get_screen_mut().frames.push(Vec::new());
    assert_eq!(nes.get_screen().frames.len(), 1);
}

#[test]
fn the_debug_views_copy_video_memory() {
    let mut nes = console(&painter());
    nes.run_frame().unwrap();
    let patterns = nes.pattern_table();
    assert_eq!(patterns.len(), 0x2000);
    assert!(patterns[0x10..0x18].iter().all(|b| *b == 0xFF));
    assert!(patterns[..0x10].iter().all(|b| *b == 0));
    assert_eq!(patterns[0x18], 0);
    let tables = nes.get_nametables();
    assert_eq!(tables.len(), 0x1000);
    assert_eq!(tables[0x43], 1);
    // The cartridge mirrors horizontally: the second table shows the first.
    assert_eq!(tables[0x443], 1);
    assert_eq!(tables[0x843], 0);
    assert_eq!(tables.iter().filter(|b| **b != 0).count(), 2);
    let palette = nes.palette_table();
    assert_eq!(palette[0], (152, 34, 32));
    assert_eq!(palette[1], (236, 238, 236));
    assert_eq!(palette[2], (84, 84, 84));
    assert_eq!(nes.get_palette(0), [(152, 34, 32), (236, 238, 236), (84, 84, 84), (84, 84, 84)]);
    nes.ppu.palette_ram[0x1F] = 0x40;
    assert_eq!(nes.get_palette(7)[3], (255, 0, 255));
    assert_eq!(nes.palette_table()[31], (255, 0, 255));
}

/// A mapper of the user's own: program ROM in one window of 16 KiB that a
/// write moves, shown twice, and four screens.
#[derive(Clone, Copy, Debug, PartialEq)]
struct Window {
    bank: u8,
    writes: u32,
}

impl Mapper for Window {
    fn name(&self) -> &'static str {
        "WINDOW"
    }
    fn read(&self, ines: &Ines, addr: u16) -> u8 {
        if addr >= 0x8000 {
            ines.prg_byte(self.bank as usize * 0x4000 + (addr as usize & 0x3FFF))
        } else {
            0xEE
        }
    }
    fn write(&mut self, _ines: &Ines, addr: u16, v: u8) {
        if addr >= 0x8000 {
            self.bank = v & 1;
            self.writes += 1;
        }
    }
    fn reset(&mut self) {
        self.bank = 0;
    }
    fn mirroring(&self) -> Option<Mirroring> {
        Some(Mirroring::FourScreen)
    }
}

/// An image of two banks: the first loads 0x11 and moves the window, the
/// second loads 0x22 and stops.
fn two_windows() -> Ines {
    let mut rom = vec![0x4E, 0x45, 0x53, 0x1A, 2, 0, 0, 0];
    rom.extend_from_slice(&[0; 8]);
    let mut first = vec![0xEA; 0x4000];
    // LDA #$11; LDX #1; STX $8000
    first[..7].copy_from_slice(&[0xA9, 0x11, 0xA2, 0x01, 0x8E, 0x00, 0x80]);
    first[0x3FFC] = 0x00;
    first[0x3FFD] = 0x80;
    let mut second = vec![0xEA; 0x4000];
    // At 0x8007, where the first bank left off: LDA #$22; JMP here
    second[7..12].copy_from_slice(&[0xA9, 0x22, 0x4C, 0x09, 0x80]);
    second[0x3FFC] = 0x00;
    second[0x3FFD] = 0x80;
    rom.extend_from_slice(&first);
    rom.extend_from_slice(&second);
    Ines::new(rom).unwrap()
}

#[test]
fn a_cartridge_carries_a_mapper_of_the_users_own() {
    let mut cart = Cart::custom(two_windows(), Window { bank: 0, writes: 0 });
    assert_eq!(cart.mapper_name(), "WINDOW");
    assert_eq!(cart.mirroring(), Mirroring::FourScreen);
    assert_eq!(cart.read(0x8000), 0xA9);
    assert_eq!(cart.read(0x8001), 0x11);
    assert_eq!(cart.read(0xC001), 0x11);
    assert_eq!(cart.read(0x1000), 0xEE);
    cart.write(0x8000, 1);
    assert_eq!(cart.read(0x8008), 0x22);
    let saved = cart.save_state();
    assert!(matches!(saved, CartState::Custom(Window { bank: 1, writes: 1 })));
    cart.reset();
    assert_eq!(cart.read(0x8001), 0x11);
    assert!(matches!(cart.mapper, CartState::Custom(Window { bank: 0, writes: 1 })));
    cart.load_state(saved);
    assert_eq!(cart.read(0x8008), 0x22);
    assert_eq!(cart.header().prg_rom_slice().len(), 0x8000);
}

#[test]
fn a_console_runs_a_game_on_a_mapper_of_the_users_own() {
    let cart = Cart::custom(two_windows(), Window { bank: 0, writes: 0 });
    let mut nes = Nes::new(Some(cart), DummyVideo(), DummyController(), DummyAudio(), None);
    // The reset and LDA #$11, then LDX #1.
    nes.master_clock_tick().unwrap();
    nes.master_clock_tick().unwrap();
    assert_eq!(nes.cpu.A.get(), 0x11);
    let before = nes.save_state();
    // STX $8000 moves the window; the program goes on in the second bank.
    for _ in 0..40 {
        nes.master_clock_tick().unwrap();
    }
    assert_eq!(nes.cpu.A.get(), 0x22);
    assert!(matches!(
        nes.mmu.cart.as_ref().unwrap().mapper,
        CartState::Custom(Window { bank: 1, writes: 1 })
    ));
    // Four screens: each nametable has a bank of its own.
    nes.mmu.write_ppu(0x2000, 1);
    nes.mmu.write_ppu(0x2400, 2);
    nes.mmu.write_ppu(0x2800, 3);
    nes.mmu.write_ppu(0x2C00, 4);
    let seen: Vec<u8> =
        [0x2000u16, 0x2400, 0x2800, 0x2C00].iter().map(|a| nes.mmu.read_ppu(*a)).collect();
    assert_eq!(seen, vec![1, 2, 3, 4]);
    // A saved game brings the mapper back with the rest.
    nes.load_state(before);
    assert_eq!(nes.cpu.A.get(), 0x11);
    assert!(matches!(
        nes.mmu.cart.as_ref().unwrap().mapper,
        CartState::Custom(Window { bank: 0, writes: 0 })
    ));
    // A reset resets the mapper of the user as it does the others.
    for _ in 0..40 {
        nes.master_clock_tick().unwrap();
    }
    assert_eq!(nes.cpu.A.get(), 0x22);
    nes.reset();
    assert!(matches!(
        nes.mmu.cart.as_ref().unwrap().mapper,
        CartState::Custom(Window { bank: 0, writes: 1 })
    ));
    for _ in 0..4 {
        nes.master_clock_tick().unwrap();
        if nes.cpu.PC.get() == 0x8002 {
            break;
        }
    }
    assert_eq!(nes.cpu.PC.get(), 0x8002);
    assert_eq!(nes.cpu.A.get(), 0x11);
}
