use nes_core::cart::Cart;
use nes_core::controller::DummyController;
use nes_core::mmu::MMU;
use nes_core::ppu::palette::{read_palette, unpack, write_palette, PALETTE_TABLE};
use nes_core::ppu::scroll::{
    attribute_address_of, attribute_palette_of, copy_horizontal, copy_vertical, increment_data,
    increment_x, increment_y, pattern_address_of, select_nametable, tile_address_of,
    write_address_high, write_address_low, write_scroll_x, write_scroll_y,
};
use nes_core::ppu::sprites::{
    get_entry, reverse_bits, scan_sprites, sprite_pattern_address_of, OAMEntry,
};
use nes_core::ppu::{Color, DummyVideo, PPUMemory, VideoInterface, PPU};

/// A video sink that keeps the picture.
struct Picture {
    pixels: Vec<Option<Color>>,
    frames: usize,
    drawn: usize,
}

impl Picture {
    fn new() -> Picture {
        Picture { pixels: vec![None; 256 * 240], frames: 0, drawn: 0 }
    }
    fn at(&self, x: usize, y: usize) -> Color {
        self.pixels[y * 256 + x].unwrap()
    }
}

impl VideoInterface for Picture {
    fn draw_pixel(&mut self, x: u16, y: u16, color: Color) {
        assert!(x < 256 && y < 240);
        self.pixels[y as usize * 256 + x as usize] = Some(color);
        self.drawn += 1;
    }
    fn end_of_frame(&mut self) {
        self.frames += 1;
    }
}

type Bus = MMU<DummyController>;

const BLACK: Color = Color(0, 0, 0);
const WHITE: Color = Color(236, 238, 236);
const RED: Color = Color(152, 34, 32);

/// A picture unit and a memory unit with a cartridge of pattern RAM.
fn bench(flags6: u8) -> (PPU, Bus, Picture) {
    let mut rom = vec![0x4E, 0x45, 0x53, 0x1A, 1, 0, flags6, 0];
    rom.extend_from_slice(&[0; 8]);
    rom.extend(std::iter::repeat(0xEA).take(16384));
    let cart = Cart::from_bytes(rom).unwrap();
    (PPU::default(), MMU::new(Some(cart), DummyController(), None), Picture::new())
}

/// A write by the processor and the dot that acts on it.
fn put(ppu: &mut PPU, bus: &mut Bus, addr: u16, v: u8) {
    bus.write(addr, v);
    ppu.tick(bus, &mut DummyVideo());
}

/// A read by the processor and the dot that acts on it.
fn get(ppu: &mut PPU, bus: &mut Bus, addr: u16) -> u8 {
    let v = bus.read(addr);
    ppu.tick(bus, &mut DummyVideo());
    v
}

fn run_to(ppu: &mut PPU, bus: &mut Bus, video: &mut Picture, scanline: u16, dot: u16) {
    while !(ppu.scanline == scanline && ppu.dot == dot) {
        ppu.tick(bus, video);
    }
}

/// Tile 1 is solid in color 1, tile 2 solid in color 3.
fn load_tiles(bus: &mut Bus) {
    for row in 0..8 {
        bus.write_ppu(0x0010 + row, 0xFF);
        bus.write_ppu(0x0018 + row, 0x00);
        bus.write_ppu(0x0020 + row, 0xFF);
        bus.write_ppu(0x0028 + row, 0xFF);
    }
}

#[test]
fn the_picture_unit_starts_on_the_pre_render_line() {
    let ppu = PPU::default();
    assert_eq!((ppu.scanline, ppu.dot, ppu.frame), (261, 0, 0));
    assert_eq!(ppu.vram_addr, 0);
    assert!(!ppu.nmi);
    assert!(ppu.oam.iter().all(|b| *b == 0));
    assert!(ppu.palette_ram.iter().all(|b| *b == 0));
}

#[test]
fn dots_and_scanlines_count_round_a_frame() {
    let (mut ppu, mut bus, mut video) = bench(0);
    for _ in 0..341 {
        ppu.tick(&mut bus, &mut video);
    }
    assert_eq!((ppu.scanline, ppu.dot, ppu.frame), (0, 0, 1));
    for _ in 0..341 * 262 - 1 {
        ppu.tick(&mut bus, &mut video);
    }
    assert_eq!((ppu.scanline, ppu.dot, ppu.frame), (261, 340, 1));
    ppu.tick(&mut bus, &mut video);
    assert_eq!((ppu.scanline, ppu.dot, ppu.frame), (0, 0, 2));
    assert_eq!(video.frames, 1);
    assert_eq!(video.drawn, 256 * 240);
}

#[test]
fn ppuaddr_and_ppudata_reach_video_memory_through_a_read_buffer() {
    let (mut ppu, mut bus, _) = bench(0);
    put(&mut ppu, &mut bus, 0x2006, 0x21);
    assert!(ppu.second_write);
    put(&mut ppu, &mut bus, 0x2006, 0x08);
    assert!(!ppu.second_write);
    assert_eq!(ppu.vram_addr, 0x2108);
    put(&mut ppu, &mut bus, 0x2007, 0xAA);
    assert_eq!(bus.read_ppu(0x2108), 0xAA);
    assert_eq!(ppu.vram_addr, 0x2109);
    put(&mut ppu, &mut bus, 0x2007, 0xBB);
    assert_eq!(bus.read_ppu(0x2109), 0xBB);
    assert_eq!(ppu.vram_addr, 0x210A);
    // Back to the first address: the first read returns what the buffer
    // holds, the second what lies at the address.
    put(&mut ppu, &mut bus, 0x2006, 0x21);
    put(&mut ppu, &mut bus, 0x2006, 0x08);
    let buffered = ppu.read_buffer;
    assert_eq!(get(&mut ppu, &mut bus, 0x2007), buffered);
    assert_eq!(ppu.vram_addr, 0x2109);
    assert_eq!(get(&mut ppu, &mut bus, 0x2007), 0xAA);
    assert_eq!(ppu.vram_addr, 0x210A);
    assert_eq!(get(&mut ppu, &mut bus, 0x2007), 0xBB);
    assert_eq!(ppu.vram_addr, 0x210B);
}

#[test]
fn ppudata_steps_by_32_when_ppuctrl_says_so() {
    let (mut ppu, mut bus, _) = bench(0);
    put(&mut ppu, &mut bus, 0x2000, 0x04);
    put(&mut ppu, &mut bus, 0x2006, 0x20);
    put(&mut ppu, &mut bus, 0x2006, 0x00);
    put(&mut ppu, &mut bus, 0x2007, 0x11);
    assert_eq!(ppu.vram_addr, 0x2020);
    put(&mut ppu, &mut bus, 0x2007, 0x22);
    assert_eq!(ppu.vram_addr, 0x2040);
    assert_eq!(bus.read_ppu(0x2000), 0x11);
    assert_eq!(bus.read_ppu(0x2020), 0x22);
    assert_eq!(increment_data(0x7FFF, 0x00), 0x0000);
    assert_eq!(increment_data(0x7FF0, 0x04), 0x0010);
    assert_eq!(increment_data(0x2000, 0xFB), 0x2001);
}

#[test]
fn the_nametables_show_again_at_0x3000() {
    let (mut ppu, mut bus, _) = bench(0);
    ppu.write_vram(0x3005, 0x5A, &mut bus);
    assert_eq!(bus.read_ppu(0x2005), 0x5A);
    assert_eq!(ppu.read_vram(0x3005, &bus), 0x5A);
    assert_eq!(ppu.read_vram(0x2005, &bus), 0x5A);
    ppu.write_vram(0x0123, 0x77, &mut bus);
    assert_eq!(ppu.read_vram(0x0123, &bus), 0x77);
    // Nothing lies above the palette.
    ppu.write_vram(0x4000, 0x12, &mut bus);
    assert_eq!(ppu.read_vram(0x4000, &bus), 0xFF);
    assert_eq!(ppu.read_vram(0xFFFF, &bus), 0xFF);
}

#[test]
fn writing_0x3f10_is_writing_0x3f00() {
    let (mut ppu, mut bus, _) = bench(0);
    put(&mut ppu, &mut bus, 0x2006, 0x3F);
    put(&mut ppu, &mut bus, 0x2006, 0x10);
    put(&mut ppu, &mut bus, 0x2007, 0x2A);
    assert_eq!(ppu.palette_ram[0], 0x2A);
    assert_eq!(ppu.read_vram(0x3F00, &bus), 0x2A);
    assert_eq!(ppu.read_vram(0x3F10, &bus), 0x2A);
    for (written, backing) in [(0x10usize, 0usize), (0x14, 4), (0x18, 8), (0x1C, 0xC)] {
        let mut a = PPU::default();
        let mut b = PPU::default();
        a.write_palette_ram(written, 0x15);
        b.write_palette_ram(written - 0x10, 0x15);
        assert_eq!(a.palette_ram, b.palette_ram);
        assert_eq!(a.palette_ram[backing], 0x15);
    }
    // The palette shows every thirty-two bytes up to 0x3FFF.
    ppu.write_vram(0x3FE1, 0x07, &mut bus);
    assert_eq!(ppu.palette_ram[1], 0x07);
    assert_eq!(ppu.read_vram(0x3F21, &bus), 0x07);
}

#[test]
fn the_first_colors_of_the_background_palettes_have_cells_of_their_own() {
    let (mut ppu, mut bus, _) = bench(0);
    ppu.write_vram(0x3F00, 0x0F, &mut bus);
    ppu.write_vram(0x3F04, 0x14, &mut bus);
    ppu.write_vram(0x3F08, 0x18, &mut bus);
    ppu.write_vram(0x3F0C, 0x1C, &mut bus);
    assert_eq!(ppu.palette_ram[0x0], 0x0F);
    assert_eq!(ppu.palette_ram[0x4], 0x14);
    assert_eq!(ppu.palette_ram[0x8], 0x18);
    assert_eq!(ppu.palette_ram[0xC], 0x1C);
    // A write through PPUDATA at 0x3F18 or 0x3F1C reaches 0x3F08 or 0x3F0C.
    put(&mut ppu, &mut bus, 0x2006, 0x3F);
    put(&mut ppu, &mut bus, 0x2006, 0x18);
    put(&mut ppu, &mut bus, 0x2007, 0x28);
    put(&mut ppu, &mut bus, 0x2006, 0x3F);
    put(&mut ppu, &mut bus, 0x2006, 0x1C);
    put(&mut ppu, &mut bus, 0x2007, 0x2C);
    assert_eq!(ppu.palette_ram[0x0], 0x0F);
    assert_eq!(ppu.palette_ram[0x4], 0x14);
    assert_eq!(ppu.palette_ram[0x8], 0x28);
    assert_eq!(ppu.palette_ram[0xC], 0x2C);
    assert_eq!(ppu.palette_ram[0x18], 0);
    assert_eq!(ppu.palette_ram[0x1C], 0);
    assert_eq!(ppu.read_vram(0x3F08, &bus), 0x28);
    assert_eq!(ppu.read_vram(0x3F0C, &bus), 0x2C);
    assert_eq!(ppu.read_vram(0x3F00, &bus), 0x0F);
}

#[test]
fn the_first_color_of_a_sprite_palette_reads_as_the_backdrop() {
    let mut ram = [0u8; 0x20];
    for (i, cell) in ram.iter_mut().enumerate() {
        *cell = i as u8;
    }
    for i in 0..0x20 {
        let expected = if i >= 16 && i % 4 == 0 { 0 } else { i as u8 };
        assert_eq!(read_palette(&ram, i), expected);
    }
    write_palette(&mut ram, 0x01, 0x3C);
    assert_eq!(ram[1], 0x3C);
    write_palette(&mut ram, 0x11, 0x3D);
    assert_eq!(ram[0x11], 0x3D);
    write_palette(&mut ram, 0x00, 0x3E);
    assert_eq!(ram[0], 0x3E);
    let ppu = PPU::default();
    assert_eq!(ppu.read_palette_ram(0x1F), 0);
}

#[test]
fn a_palette_entry_is_read_at_once() {
    let (mut ppu, mut bus, _) = bench(0);
    ppu.write_palette_ram(0x01, 0x21);
    ppu.write_palette_ram(0x02, 0x22);
    bus.write_ppu(0x2F01, 0x99);
    put(&mut ppu, &mut bus, 0x2006, 0x3F);
    put(&mut ppu, &mut bus, 0x2006, 0x01);
    assert_eq!(get(&mut ppu, &mut bus, 0x2007), 0x21);
    // The buffer has taken the nametable byte that lies beneath.
    assert_eq!(ppu.read_buffer, 0x99);
    assert_eq!(get(&mut ppu, &mut bus, 0x2007), 0x22);
}

#[test]
fn reading_ppustatus_clears_the_vertical_blank_flag_and_the_write_latch() {
    let (mut ppu, mut bus, mut video) = bench(0);
    run_to(&mut ppu, &mut bus, &mut video, 261, 10);
    put(&mut ppu, &mut bus, 0x2006, 0x21);
    assert!(ppu.second_write);
    bus.ppu_registers.ppu_status = 0xE0;
    // The value read still has the flag.
    assert_eq!(get(&mut ppu, &mut bus, 0x2002), 0xE0);
    assert!(!ppu.second_write);
    assert_eq!(bus.ppu_registers.ppu_status, 0x60);
    assert_eq!(bus.ppu_registers.last_access_from, None);
}

#[test]
fn oamdata_stores_at_oamaddr_and_moves_it_on() {
    let (mut ppu, mut bus, _) = bench(0);
    ppu.oam[0x10] = 0x77;
    put(&mut ppu, &mut bus, 0x2003, 0x10);
    assert_eq!(bus.ppu_registers.oam_data, 0x77);
    put(&mut ppu, &mut bus, 0x2004, 0xAB);
    assert_eq!(ppu.oam[0x10], 0xAB);
    assert_eq!(bus.ppu_registers.oam_addr, 0x11);
    put(&mut ppu, &mut bus, 0x2004, 0xCD);
    assert_eq!(ppu.oam[0x11], 0xCD);
    put(&mut ppu, &mut bus, 0x2003, 0xFF);
    put(&mut ppu, &mut bus, 0x2004, 0xEE);
    assert_eq!(ppu.oam[0xFF], 0xEE);
    assert_eq!(bus.ppu_registers.oam_addr, 0x00);
}

#[test]
fn ppuscroll_takes_x_then_y() {
    let (mut ppu, mut bus, _) = bench(0);
    put(&mut ppu, &mut bus, 0x2005, 0b01111_101);
    assert_eq!(ppu.t_addr, 0b000_00_00000_01111);
    assert_eq!(ppu.fine_x, 0b101);
    assert!(ppu.second_write);
    put(&mut ppu, &mut bus, 0x2005, 0b10110_011);
    assert_eq!(ppu.t_addr, 0b011_00_10110_01111);
    assert!(!ppu.second_write);
    put(&mut ppu, &mut bus, 0x2000, 0b0000_0010);
    assert_eq!(ppu.t_addr, 0b011_10_10110_01111);
    assert_eq!(ppu.vram_addr, 0);
}

#[test]
fn the_address_register_is_made_of_fields() {
    assert_eq!(write_scroll_x(0x7FFF, 0x00), 0x7FE0);
    assert_eq!(write_scroll_y(0x0C1F, 0xFF), 0x7FFF);
    assert_eq!(select_nametable(0x7FFF, 0x01), 0x77FF);
    assert_eq!(write_address_high(0x7FFF, 0xFF), 0x3FFF);
    assert_eq!(write_address_high(0x0012, 0x21), 0x2112);
    assert_eq!(write_address_low(0x2112, 0x08), 0x2108);
    // One tile right, and round to the other nametable.
    assert_eq!(increment_x(0x0000), 0x0001);
    assert_eq!(increment_x(0x001F), 0x0400);
    assert_eq!(increment_x(0x041F), 0x0000);
    assert_eq!(increment_x(0x7BFF), 0x7FE0);
    // One row down: fine y first, then the tile row, which wraps at 30.
    assert_eq!(increment_y(0x0000), 0x1000);
    assert_eq!(increment_y(0x7000), 0x0020);
    assert_eq!(increment_y(0x73A0), 0x0800);
    assert_eq!(increment_y(0x7BA0), 0x0000);
    assert_eq!(increment_y(0x73E0), 0x0800);
    assert_eq!(increment_y(0x73BF), 0x081F);
    assert_eq!(copy_horizontal(0x7BE0, 0x041F), 0x7FFF);
    assert_eq!(copy_horizontal(0x7FFF, 0x0000), 0x7BE0);
    assert_eq!(copy_vertical(0x041F, 0x7BE0), 0x7FFF);
    assert_eq!(copy_vertical(0x7FFF, 0x0000), 0x041F);
}

#[test]
fn fetch_addresses_follow_the_address_register() {
    assert_eq!(tile_address_of(0x0000), 0x2000);
    assert_eq!(tile_address_of(0x7FFF), 0x2FFF);
    assert_eq!(tile_address_of(0x1421), 0x2421);
    assert_eq!(attribute_address_of(0x0000), 0x23C0);
    assert_eq!(attribute_address_of(0x0C00), 0x2FC0);
    assert_eq!(attribute_address_of(0x001F), 0x23C7);
    assert_eq!(attribute_address_of(0x03A0), 0x23F8);
    assert_eq!(attribute_address_of(0x7084), 0x23C9);
    // One attribute byte holds four palettes, a quarter each.
    assert_eq!(attribute_palette_of(0b11_10_01_00, 0x0000), 0);
    assert_eq!(attribute_palette_of(0b11_10_01_00, 0x0002), 1);
    assert_eq!(attribute_palette_of(0b11_10_01_00, 0x0040), 2);
    assert_eq!(attribute_palette_of(0b11_10_01_00, 0x0042), 3);
    assert_eq!(attribute_palette_of(0b11_10_01_00, 0x0001), 0);
    assert_eq!(attribute_palette_of(0b11_10_01_00, 0x0063), 3);
    assert_eq!(pattern_address_of(0x00, 0x01, 0x0000, false), 0x0010);
    assert_eq!(pattern_address_of(0x00, 0x01, 0x0000, true), 0x0018);
    assert_eq!(pattern_address_of(0x10, 0xFF, 0x7000, true), 0x1FFF);
    assert_eq!(pattern_address_of(0x10, 0x20, 0x3000, false), 0x1203);
}

#[test]
fn the_color_table_is_the_2c02s() {
    let ppu = PPU::default();
    assert_eq!(ppu.convert_color_to_rgb(0x00), Color(84, 84, 84));
    assert_eq!(ppu.convert_color_to_rgb(0x01), Color(0, 30, 116));
    assert_eq!(ppu.convert_color_to_rgb(0x0F), BLACK);
    assert_eq!(ppu.convert_color_to_rgb(0x16), RED);
    assert_eq!(ppu.convert_color_to_rgb(0x20), WHITE);
    assert_eq!(ppu.convert_color_to_rgb(0x30), WHITE);
    assert_eq!(ppu.convert_color_to_rgb(0x2C), Color(56, 180, 204));
    assert_eq!(ppu.convert_color_to_rgb(0x3D), Color(160, 162, 160));
    assert_eq!(ppu.convert_color_to_rgb(0x3F), BLACK);
    // A number that is no color shows as magenta.
    assert_eq!(ppu.convert_color_to_rgb(0x40), Color(255, 0, 255));
    assert_eq!(ppu.convert_color_to_rgb(0xFF), Color(255, 0, 255));
    assert_eq!(PALETTE_TABLE.len(), 64);
    assert_eq!(unpack(0x123456), Color(0x12, 0x34, 0x56));
    assert_eq!(Color(1, 2, 3).into_tuple(), (1, 2, 3));
}

#[test]
fn the_vertical_blank_starts_at_scanline_241_dot_1() {
    let (mut ppu, mut bus, mut video) = bench(0);
    run_to(&mut ppu, &mut bus, &mut video, 241, 1);
    assert_eq!(bus.ppu_registers.ppu_status & 0x80, 0);
    assert_eq!(video.frames, 0);
    ppu.tick(&mut bus, &mut video);
    assert_eq!(bus.ppu_registers.ppu_status & 0x80, 0x80);
    assert_eq!(video.frames, 1);
    // PPUCTRL has not asked for an NMI.
    assert!(!ppu.nmi);
    run_to(&mut ppu, &mut bus, &mut video, 261, 1);
    assert_eq!(bus.ppu_registers.ppu_status & 0x80, 0x80);
    ppu.tick(&mut bus, &mut video);
    assert_eq!(bus.ppu_registers.ppu_status, 0);
    assert_eq!(video.frames, 1);
}

#[test]
fn the_vertical_blank_raises_an_nmi_when_ppuctrl_asks_for_it() {
    let (mut ppu, mut bus, mut video) = bench(0);
    put(&mut ppu, &mut bus, 0x2000, 0x80);
    assert!(ppu.nmi_enabled);
    assert!(!ppu.nmi);
    run_to(&mut ppu, &mut bus, &mut video, 241, 1);
    assert!(!ppu.nmi);
    ppu.tick(&mut bus, &mut video);
    assert!(ppu.nmi);
    // Left unserved, the NMI is withdrawn at the start of the next frame.
    run_to(&mut ppu, &mut bus, &mut video, 1, 1);
    assert!(ppu.nmi);
    ppu.tick(&mut bus, &mut video);
    assert!(!ppu.nmi);
}

#[test]
fn switching_the_nmi_on_during_the_vertical_blank_raises_it_at_once() {
    let (mut ppu, mut bus, mut video) = bench(0);
    run_to(&mut ppu, &mut bus, &mut video, 245, 0);
    assert!(!ppu.nmi);
    put(&mut ppu, &mut bus, 0x2000, 0x80);
    assert!(ppu.nmi);
    // Writing it again while it is on raises nothing anew.
    ppu.nmi = false;
    put(&mut ppu, &mut bus, 0x2000, 0x80);
    assert!(!ppu.nmi);
    put(&mut ppu, &mut bus, 0x2000, 0x00);
    put(&mut ppu, &mut bus, 0x2000, 0x80);
    assert!(ppu.nmi);
    // Outside the vertical blank it raises nothing.
    let (mut ppu, mut bus, mut video) = bench(0);
    run_to(&mut ppu, &mut bus, &mut video, 100, 0);
    put(&mut ppu, &mut bus, 0x2000, 0x80);
    assert!(!ppu.nmi);
}

#[test]
fn with_rendering_off_every_pixel_is_the_backdrop() {
    let (mut ppu, mut bus, mut video) = bench(0);
    ppu.write_palette_ram(0, 0x16);
    run_to(&mut ppu, &mut bus, &mut video, 241, 2);
    assert_eq!(video.drawn, 256 * 240);
    assert!(video.pixels.iter().all(|p| *p == Some(RED)));
    assert_eq!(ppu.vram_addr, 0);
}

#[test]
fn a_background_tile_shows_where_the_nametable_puts_it() {
    let (mut ppu, mut bus, mut video) = bench(0);
    load_tiles(&mut bus);
    // Tile 1 in column 2 of row 1, in palette 0.
    bus.write_ppu(0x2000 + 32 + 2, 1);
    ppu.write_palette_ram(0, 0x0F);
    ppu.write_palette_ram(1, 0x30);
    bus.ppu_registers.ppu_mask = 0x0A;
    run_to(&mut ppu, &mut bus, &mut video, 241, 2);
    for y in 0..240 {
        for x in 0..256 {
            let inside = (16..24).contains(&x) && (8..16).contains(&y);
            assert_eq!(video.at(x, y), if inside { WHITE } else { BLACK }, "at {} {}", x, y);
        }
    }
}

#[test]
fn the_attribute_table_chooses_the_palette() {
    let (mut ppu, mut bus, mut video) = bench(0);
    load_tiles(&mut bus);
    for i in 0..960 {
        bus.write_ppu(0x2000 + i, 2);
    }
    // The first attribute byte: palettes 0, 1, 2 and 3 for its quarters.
    bus.write_ppu(0x23C0, 0b11_10_01_00);
    for (palette, color) in [(0usize, 0x01u8), (1, 0x16), (2, 0x30), (3, 0x2C)] {
        ppu.write_palette_ram(palette * 4 + 3, color);
    }
    bus.ppu_registers.ppu_mask = 0x0A;
    run_to(&mut ppu, &mut bus, &mut video, 241, 2);
    assert_eq!(video.at(0, 0), Color(0, 30, 116));
    assert_eq!(video.at(15, 15), Color(0, 30, 116));
    assert_eq!(video.at(16, 0), RED);
    assert_eq!(video.at(31, 15), RED);
    assert_eq!(video.at(0, 16), WHITE);
    assert_eq!(video.at(16, 16), Color(56, 180, 204));
    assert_eq!(video.at(31, 31), Color(56, 180, 204));
    assert_eq!(video.at(32, 0), Color(0, 30, 116));
}

#[test]
fn the_left_edge_of_the_background_can_be_hidden() {
    let (mut ppu, mut bus, mut video) = bench(0);
    load_tiles(&mut bus);
    for i in 0..960 {
        bus.write_ppu(0x2000 + i, 1);
    }
    ppu.write_palette_ram(0, 0x0F);
    ppu.write_palette_ram(1, 0x30);
    bus.ppu_registers.ppu_mask = 0x08;
    run_to(&mut ppu, &mut bus, &mut video, 241, 2);
    assert_eq!(video.at(0, 0), BLACK);
    assert_eq!(video.at(7, 100), BLACK);
    assert_eq!(video.at(8, 100), WHITE);
    assert_eq!(video.at(255, 239), WHITE);
}

#[test]
fn fine_x_scrolls_the_background_by_pixels() {
    let (mut ppu, mut bus, mut video) = bench(0);
    load_tiles(&mut bus);
    bus.write_ppu(0x2000 + 2, 1);
    ppu.write_palette_ram(0, 0x0F);
    ppu.write_palette_ram(1, 0x30);
    bus.ppu_registers.ppu_mask = 0x0A;
    // Scroll by eleven pixels: one tile and three pixels.
    put(&mut ppu, &mut bus, 0x2005, 11);
    put(&mut ppu, &mut bus, 0x2005, 0);
    run_to(&mut ppu, &mut bus, &mut video, 241, 2);
    assert_eq!(video.at(4, 0), BLACK);
    assert_eq!(video.at(5, 0), WHITE);
    assert_eq!(video.at(12, 7), WHITE);
    assert_eq!(video.at(13, 0), BLACK);
    assert_eq!(video.at(5, 8), BLACK);
}

/// Puts sprite `index` into the sprite memory.
fn sprite(ppu: &mut PPU, index: usize, y: u8, tile: u8, attr: u8, x: u8) {
    ppu.oam[index * 4..index * 4 + 4].copy_from_slice(&[y, tile, attr, x]);
}

fn hide_sprites(ppu: &mut PPU) {
    for i in 0..64 {
        sprite(ppu, i, 0xF0, 0, 0, 0);
    }
}

#[test]
fn a_sprite_shows_one_line_below_its_y() {
    let (mut ppu, mut bus, mut video) = bench(0);
    load_tiles(&mut bus);
    hide_sprites(&mut ppu);
    sprite(&mut ppu, 3, 10, 1, 0x01, 16);
    ppu.write_palette_ram(0, 0x0F);
    ppu.write_palette_ram(0x15, 0x16);
    bus.ppu_registers.ppu_mask = 0x14;
    run_to(&mut ppu, &mut bus, &mut video, 241, 2);
    for y in 0..240 {
        for x in 0..256 {
            let inside = (16..24).contains(&x) && (11..19).contains(&y);
            assert_eq!(video.at(x, y), if inside { RED } else { BLACK }, "at {} {}", x, y);
        }
    }
}

#[test]
fn a_sprite_behind_the_background_shows_only_where_that_is_transparent() {
    let (mut ppu, mut bus, mut video) = bench(0);
    load_tiles(&mut bus);
    hide_sprites(&mut ppu);
    // The background covers column 2 of row 2 only; the sprite lies across
    // its left edge.
    bus.write_ppu(0x2000 + 2 * 32 + 2, 1);
    sprite(&mut ppu, 0, 15, 2, 0x20, 12);
    sprite(&mut ppu, 1, 15, 2, 0x00, 40);
    ppu.write_palette_ram(0, 0x0F);
    ppu.write_palette_ram(1, 0x30);
    ppu.write_palette_ram(0x13, 0x16);
    bus.ppu_registers.ppu_mask = 0x1E;
    run_to(&mut ppu, &mut bus, &mut video, 241, 2);
    assert_eq!(video.at(12, 16), RED);
    assert_eq!(video.at(15, 16), RED);
    assert_eq!(video.at(16, 16), WHITE);
    assert_eq!(video.at(19, 16), WHITE);
    assert_eq!(video.at(20, 16), WHITE);
    assert_eq!(video.at(24, 16), BLACK);
    // In front of nothing the second sprite shows whole.
    assert_eq!(video.at(40, 16), RED);
    assert_eq!(video.at(47, 23), RED);
    assert_eq!(video.at(48, 16), BLACK);
}

#[test]
fn sprite_0_hits_where_it_meets_the_background() {
    let (mut ppu, mut bus, mut video) = bench(0);
    load_tiles(&mut bus);
    hide_sprites(&mut ppu);
    for i in 0..960 {
        bus.write_ppu(0x2000 + i, 1);
    }
    sprite(&mut ppu, 0, 10, 1, 0, 16);
    bus.ppu_registers.ppu_mask = 0x1E;
    // The sprite's first pixel is drawn at dot 17 of scanline 11.
    run_to(&mut ppu, &mut bus, &mut video, 11, 17);
    assert_eq!(bus.ppu_registers.ppu_status & 0x40, 0);
    ppu.tick(&mut bus, &mut video);
    assert_eq!(bus.ppu_registers.ppu_status & 0x40, 0x40);
    // The flag stands until the pre-render line.
    run_to(&mut ppu, &mut bus, &mut video, 261, 1);
    assert_eq!(bus.ppu_registers.ppu_status & 0x40, 0x40);
    ppu.tick(&mut bus, &mut video);
    assert_eq!(bus.ppu_registers.ppu_status & 0x40, 0);
}

fn hit_after_a_frame(mask: u8, sprite_index: usize, x: u8) -> bool {
    let (mut ppu, mut bus, mut video) = bench(0);
    load_tiles(&mut bus);
    hide_sprites(&mut ppu);
    for i in 0..960 {
        bus.write_ppu(0x2000 + i, 1);
    }
    sprite(&mut ppu, sprite_index, 10, 1, 0, x);
    bus.ppu_registers.ppu_mask = mask;
    run_to(&mut ppu, &mut bus, &mut video, 240, 0);
    bus.ppu_registers.ppu_status & 0x40 != 0
}

#[test]
fn sprite_0_never_hits_with_a_layer_switched_off() {
    assert!(hit_after_a_frame(0x1E, 0, 16));
    assert!(!hit_after_a_frame(0x16, 0, 16));
    assert!(!hit_after_a_frame(0x0E, 0, 16));
    assert!(!hit_after_a_frame(0x06, 0, 16));
    // Another sprite is no sprite 0.
    assert!(!hit_after_a_frame(0x1E, 1, 16));
}

#[test]
fn sprite_0_never_hits_in_the_left_columns_while_a_layer_is_hidden_there() {
    // The sprite covers columns 0 to 7 only.
    assert!(hit_after_a_frame(0x1E, 0, 0));
    assert!(!hit_after_a_frame(0x1C, 0, 0));
    assert!(!hit_after_a_frame(0x1A, 0, 0));
    assert!(!hit_after_a_frame(0x18, 0, 0));
    // From column 8 on the left edge plays no part.
    assert!(hit_after_a_frame(0x18, 0, 1));
    assert!(hit_after_a_frame(0x18, 0, 8));
}

#[test]
fn a_ninth_sprite_on_a_line_sets_the_overflow_flag() {
    let (mut ppu, mut bus, mut video) = bench(0);
    hide_sprites(&mut ppu);
    for i in 0..8 {
        sprite(&mut ppu, i * 2, 50, 1, 0, 8 * i as u8);
    }
    bus.ppu_registers.ppu_mask = 0x1E;
    run_to(&mut ppu, &mut bus, &mut video, 60, 0);
    assert_eq!(bus.ppu_registers.ppu_status & 0x20, 0);
    assert_eq!(ppu.sprite_count, 0);
    sprite(&mut ppu, 63, 100, 1, 0, 200);
    for i in 0..8 {
        sprite(&mut ppu, i * 2, 100, 1, 0, 8 * i as u8);
    }
    run_to(&mut ppu, &mut bus, &mut video, 100, 257);
    assert_eq!(bus.ppu_registers.ppu_status & 0x20, 0);
    ppu.tick(&mut bus, &mut video);
    assert_eq!(bus.ppu_registers.ppu_status & 0x20, 0x20);
    assert_eq!(ppu.sprite_count, 8);
    assert!(ppu.sprite_zero_hit_possible);
}

#[test]
fn the_scan_keeps_the_first_eight_sprites_of_a_line() {
    let mut oam = [0xF0u8; 256];
    for i in 0..10 {
        oam[i * 8..i * 8 + 4].copy_from_slice(&[20, i as u8, 0, 3 * i as u8]);
    }
    let found = scan_sprites(&oam, 27, 8);
    assert_eq!(found.count, 9);
    assert!(found.zero_found);
    for k in 0..8 {
        assert_eq!(found.sprites[k * 4..k * 4 + 4], [20, k as u8, 0, 3 * k as u8]);
    }
    assert_eq!(scan_sprites(&oam, 28, 8).count, 0);
    assert_eq!(scan_sprites(&oam, 19, 8).count, 0);
    assert_eq!(scan_sprites(&oam, 35, 16).count, 9);
    oam[0] = 0xF0;
    let found = scan_sprites(&oam, 20, 8);
    assert_eq!(found.count, 9);
    assert!(!found.zero_found);
    assert_eq!(found.sprites[0..4], [20, 1, 0, 3]);
    let entry = get_entry(&oam, 2);
    assert_eq!(entry, OAMEntry { y: 20, tile_id: 1, attr: 0, x: 3 });
    assert_eq!(entry.to_bytes(), [20, 1, 0, 3]);
    let mut ppu = PPU::default();
    ppu.oam = oam;
    assert_eq!(ppu.get_oam_entry(4), OAMEntry { y: 20, tile_id: 2, attr: 0, x: 6 });
}

#[test]
fn sprite_patterns_are_found_by_size_and_flip() {
    let e = OAMEntry { y: 10, tile_id: 0x21, attr: 0, x: 0 };
    // Eight lines tall: the table comes from PPUCTRL.
    assert_eq!(sprite_pattern_address_of(0x00, e, 10), 0x0210);
    assert_eq!(sprite_pattern_address_of(0x00, e, 13), 0x0213);
    assert_eq!(sprite_pattern_address_of(0x08, e, 17), 0x1217);
    let flipped = OAMEntry { attr: 0x80, ..e };
    assert_eq!(sprite_pattern_address_of(0x00, flipped, 10), 0x0217);
    assert_eq!(sprite_pattern_address_of(0x00, flipped, 17), 0x0210);
    // Sixteen lines tall: the table comes from the tile number.
    assert_eq!(sprite_pattern_address_of(0x20, e, 10), 0x1200);
    assert_eq!(sprite_pattern_address_of(0x20, e, 17), 0x1207);
    assert_eq!(sprite_pattern_address_of(0x20, e, 18), 0x1210);
    assert_eq!(sprite_pattern_address_of(0x20, e, 25), 0x1217);
    assert_eq!(sprite_pattern_address_of(0x20, flipped, 10), 0x1217);
    assert_eq!(sprite_pattern_address_of(0x20, flipped, 25), 0x1200);
    let even = OAMEntry { tile_id: 0x20, ..e };
    assert_eq!(sprite_pattern_address_of(0x28, even, 10), 0x0200);
}

#[test]
fn a_sprite_can_be_mirrored_left_to_right() {
    for b in 0..=255u8 {
        assert_eq!(reverse_bits(b), b.reverse_bits());
    }
    let (mut ppu, mut bus, mut video) = bench(0);
    hide_sprites(&mut ppu);
    // Tile 3 has only its leftmost column set.
    for row in 0..8 {
        bus.write_ppu(0x0030 + row, 0x80);
    }
    sprite(&mut ppu, 0, 10, 3, 0x00, 16);
    sprite(&mut ppu, 1, 10, 3, 0x40, 32);
    ppu.write_palette_ram(0, 0x0F);
    ppu.write_palette_ram(0x11, 0x30);
    bus.ppu_registers.ppu_mask = 0x14;
    run_to(&mut ppu, &mut bus, &mut video, 241, 2);
    assert_eq!(video.at(16, 11), WHITE);
    assert_eq!(video.at(17, 11), BLACK);
    assert_eq!(video.at(23, 11), BLACK);
    assert_eq!(video.at(32, 11), BLACK);
    assert_eq!(video.at(39, 11), WHITE);
}

#[test]
fn a_saved_state_brings_back_palette_and_sprites() {
    let mut ppu = PPU::default();
    ppu.write_palette_ram(3, 0x21);
    ppu.oam[7] = 0x55;
    ppu.vram_addr = 0x1234;
    let saved = ppu.save_state();
    ppu.write_palette_ram(3, 0x01);
    ppu.oam[7] = 0x00;
    ppu.vram_addr = 0x2345;
    ppu.load_state(saved);
    assert_eq!(ppu.palette_ram[3], 0x21);
    assert_eq!(ppu.oam[7], 0x55);
    assert_eq!(ppu.vram_addr, 0x2345);
}

#[test]
fn the_picture_unit_reaches_its_registers_through_the_memory() {
    let (mut ppu, mut bus, _) = bench(0);
    bus.write(0x2001, 0x1E);
    assert_eq!(bus.registers().ppu_mask, 0x1E);
    assert_eq!(bus.registers().last_access_from, Some((1, true)));
    let mut regs = *bus.registers();
    ppu.update_from_registers(&mut regs, &mut bus);
    assert_eq!(regs.last_access_from, None);
    assert_eq!(regs.ppu_mask, 0x1E);
    let before = ppu.vram_addr;
    regs.ppu_mask = 0;
    ppu.increment_scroll_x(&regs);
    ppu.increment_scroll_y(&regs);
    assert_eq!(ppu.vram_addr, before);
    regs.ppu_mask = 0x08;
    ppu.increment_scroll_x(&regs);
    assert_eq!(ppu.vram_addr, before + 1);
    ppu.increment_scroll_y(&regs);
    assert_eq!(ppu.vram_addr, before + 1 + 0x1000);
}

#[test]
fn the_sprite_memory_can_be_listed() {
    let mut ppu = PPU::default();
    sprite(&mut ppu, 0, 240, 0x1F, 0b1010_0001, 7);
    sprite(&mut ppu, 63, 9, 0xA0, 0xFF, 255);
    let text = ppu.print_oam();
    let lines: Vec<&str> = text.split('\n').collect();
    assert_eq!(lines.len(), 65);
    assert_eq!(lines[0], "00: { y: 240, tile_id: $1F, attr: 10100001b, x: 7 } ");
    assert_eq!(lines[1], "01: { y: 0, tile_id: $00, attr: 00000000b, x: 0 } ");
    assert_eq!(lines[10], "10: { y: 0, tile_id: $00, attr: 00000000b, x: 0 } ");
    assert_eq!(lines[63], "63: { y: 9, tile_id: $A0, attr: 11111111b, x: 255 } ");
    assert_eq!(lines[64], "");
}
