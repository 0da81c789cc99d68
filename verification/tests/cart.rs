use nes_core::cart::{Cart, CartState, Ines, Mirroring};
use nes_core::error::Error;
use nes_core::mapper::axrom::AxROM;
use nes_core::mapper::dummy::Dummy;
use nes_core::mapper::mmc1::{PrgMode, MMC1};
use nes_core::mapper::mmc3::{BankSelectRegister, MMC3};
use nes_core::mapper::nrom::NROM;
use nes_core::mapper::uxrom::UxROM;
use nes_core::mapper::{from_ines_id, Mapper};

/// An iNES image with the given program and pattern data.
fn image(prg: &[u8], chr: &[u8], flags6: u8, flags7: u8) -> Vec<u8> {
    let mut rom = vec![
        0x4E,
        0x45,
        0x53,
        0x1A,
        (prg.len() / 16384) as u8,
        (chr.len() / 8192) as u8,
        flags6,
        flags7,
    ];
    rom.extend_from_slice(&[0; 8]);
    rom.extend_from_slice(prg);
    rom.extend_from_slice(chr);
    rom
}

/// Program banks of 16 KiB in which every byte tells its bank and the low
/// bits of its place.
fn banks(n: usize) -> Vec<u8> {
    let mut prg = vec![0; n * 16384];
    for (i, b) in prg.iter_mut().enumerate() {
        *b = ((i / 16384) as u8) << 4 | (i % 16) as u8;
    }
    prg
}

/// Pattern banks of 4 KiB in which every byte tells its bank.
fn patterns(n: usize) -> Vec<u8> {
    let mut chr = vec![0; n * 4096];
    for (i, b) in chr.iter_mut().enumerate() {
        *b = (i / 4096) as u8;
    }
    chr
}

fn format_message(r: Result<Cart, Error>) -> String {
    match r {
        Err(Error::FormatErr(msg)) => msg,
        Err(other) => panic!("{:?}", other),
        Ok(_) => panic!("accepted"),
    }
}

#[test]
fn a_valid_image_makes_a_cartridge() {
    let cart = Cart::from_bytes(image(&banks(2), &patterns(2), 0x01, 0x00)).unwrap();
    assert_eq!(cart.mapper_name(), "NROM");
    assert_eq!(cart.mirroring(), Mirroring::Vertical);
    assert_eq!(cart.header().prg_rom_slice().len(), 32768);
    assert_eq!(cart.header().chr_rom_slice().unwrap().len(), 8192);
    assert_eq!(cart.header().mapper_id(), 0);
    assert!(!cart.header().persistent_prg_ram);
    assert_eq!(cart.header().prg_rom_range, 16..16 + 32768);
    assert_eq!(cart.header().chr_rom_range, 16 + 32768..16 + 32768 + 8192);
}

#[test]
fn every_valid_header_with_an_emulated_mapper_is_accepted() {
    for prg_units in 1..=4usize {
        for chr_units in 0..=2usize {
            for (flags6, name) in
                [(0x00, "NROM"), (0x10, "MMC1/SxROM"), (0x20, "UxROM"), (0x70, "AxROM")]
            {
                for low in 0..16u8 {
                    let rom = image(&banks(prg_units), &patterns(2 * chr_units), flags6 | low, 0);
                    let cart = Cart::from_bytes(rom).unwrap();
                    assert_eq!(cart.mapper_name(), name);
                    assert_eq!(cart.header().persistent_prg_ram, low & 2 != 0);
                    assert_eq!(cart.header().chr_rom_slice().is_none(), chr_units == 0);
                }
            }
        }
    }
}

#[test]
fn trailing_bytes_are_no_fault() {
    let mut rom = image(&banks(1), &[], 0, 0);
    rom.extend_from_slice(&[1, 2, 3]);
    assert!(Cart::from_bytes(rom).is_ok());
}

#[test]
fn a_wrong_magic_is_a_format_error() {
    let mut rom = image(&banks(1), &[], 0, 0);
    rom[3] = 0x1B;
    assert_eq!(format_message(Cart::from_bytes(rom)), "Invalid iNES header");
    for bad in 0..4 {
        let mut rom = image(&banks(1), &[], 0, 0);
        rom[bad] ^= 0x20;
        assert_eq!(format_message(Cart::from_bytes(rom)), "Invalid iNES header");
    }
    assert_eq!(format_message(Cart::from_bytes(vec![])), "Invalid iNES header");
    assert_eq!(
        format_message(Cart::from_bytes(vec![0x4E, 0x45, 0x53, 0x1A, 1, 0])),
        "Invalid iNES header"
    );
}

#[test]
fn a_truncated_file_is_a_format_error() {
    let mut rom = image(&banks(1), &patterns(2), 0, 0);
    rom.pop();
    assert_eq!(format_message(Cart::from_bytes(rom)), "iNES file is truncated");
    let rom = image(&[], &[], 0, 0)[..16].to_vec();
    let mut short = rom.clone();
    short[4] = 1;
    assert_eq!(format_message(Cart::from_bytes(short)), "iNES file is truncated");
}

#[test]
fn an_image_without_program_rom_is_a_format_error() {
    let rom = image(&[], &patterns(2), 0, 0);
    assert_eq!(format_message(Cart::from_bytes(rom)), "iNES file has no PRG ROM");
}

#[test]
fn a_mapper_that_is_not_emulated_is_reported_by_its_id() {
    for (flags6, flags7, id) in [(0x40u8, 0x00u8, 4u16), (0x30, 0x00, 3), (0x00, 0x10, 16), (0x50, 0xF0, 245)]
    {
        match Cart::from_bytes(image(&banks(1), &[], flags6, flags7)) {
            Err(Error::UnsupportedMapperErr(got)) => assert_eq!(got, id),
            Err(other) => panic!("{:?}", other),
            Ok(_) => panic!("accepted"),
        }
    }
    assert!(matches!(from_ines_id(0), Ok(CartState::NROM(_))));
    assert!(matches!(from_ines_id(1), Ok(CartState::MMC1(_))));
    assert!(matches!(from_ines_id(2), Ok(CartState::UxROM(_))));
    assert!(matches!(from_ines_id(7), Ok(CartState::AxROM(_))));
    assert!(matches!(from_ines_id(4), Err(Error::UnsupportedMapperErr(4))));
    assert!(matches!(from_ines_id(0xFFFF), Err(Error::UnsupportedMapperErr(0xFFFF))));
}

#[test]
fn a_malformed_image_is_reported_before_an_unknown_mapper() {
    let mut rom = image(&banks(1), &[], 0x40, 0);
    rom.pop();
    assert_eq!(format_message(Cart::from_bytes(rom)), "iNES file is truncated");
}

#[test]
fn the_header_gives_mirroring_and_mapper_id() {
    let ines = Ines::new(image(&banks(1), &[], 0x01, 0x00)).unwrap();
    assert_eq!(ines.mirroring(), Mirroring::Vertical);
    let ines = Ines::new(image(&banks(1), &[], 0x00, 0x00)).unwrap();
    assert_eq!(ines.mirroring(), Mirroring::Horizontal);
    let ines = Ines::new(image(&banks(1), &[], 0xA2, 0xC5)).unwrap();
    assert_eq!(ines.mapper_id(), 0xCA);
    assert!(ines.persistent_prg_ram);
    assert_eq!(ines.mirroring(), Mirroring::Horizontal);
    assert!(ines.chr_rom_slice().is_none());
    assert_eq!(ines.prg_rom_slice(), &banks(1)[..]);
    assert_eq!(ines.prg_rom_len(), 16384);
    assert_eq!(ines.prg_byte(5), 0x05);
    assert_eq!(ines.prg_byte(16384 + 5), 0x05);
    assert_eq!(ines.chr_byte(0), None);
}

#[test]
fn the_dummy_cartridge_reads_zero_and_ignores_writes() {
    let mut cart = Cart::dummy();
    assert_eq!(cart.mapper_name(), "DUMMY");
    for addr in [0x0000u16, 0x1FFF, 0x6000, 0x8000, 0xFFFC, 0xFFFF] {
        cart.write(addr, 0xAA);
        assert_eq!(cart.read(addr), 0);
    }
    assert_eq!(cart.mirroring(), Mirroring::Horizontal);
    assert_eq!(cart.header().prg_rom_slice().len(), 0);
    cart.reset();
    assert_eq!(cart.read(0x8000), 0);
    let ines = Ines::dummy();
    assert_eq!(ines.prg_byte(3), 0);
    let mut dummy = Dummy {};
    dummy.write(&ines, 0x8000, 1);
    assert_eq!(dummy.read(&ines, 0x8000), 0);
    assert_eq!(dummy.name(), "DUMMY");
    assert_eq!(dummy.mirroring(), None);
}

#[test]
fn nrom_shows_a_single_bank_twice() {
    let cart = Cart::from_bytes(image(&banks(1), &patterns(2), 0, 0)).unwrap();
    assert_eq!(cart.read(0x8000), 0x00);
    assert_eq!(cart.read(0x8005), 0x05);
    assert_eq!(cart.read(0xC005), 0x05);
    assert_eq!(cart.read(0xFFFF), 0x0F);
    // Nothing is mapped between pattern memory and program ROM.
    assert_eq!(cart.read(0x2000), 0xFF);
    assert_eq!(cart.read(0x6000), 0xFF);
    assert_eq!(cart.read(0x7FFF), 0xFF);
    let cart = Cart::from_bytes(image(&banks(2), &patterns(2), 0, 0)).unwrap();
    assert_eq!(cart.read(0x8005), 0x05);
    assert_eq!(cart.read(0xC005), 0x15);
    assert_eq!(cart.mirroring(), Mirroring::Horizontal);
}

#[test]
fn nrom_pattern_memory_is_rom_or_writable_ram() {
    let mut cart = Cart::from_bytes(image(&banks(1), &patterns(2), 0, 0)).unwrap();
    assert_eq!(cart.read(0x0000), 0);
    assert_eq!(cart.read(0x1000), 1);
    cart.write(0x1000, 0x55);
    assert_eq!(cart.read(0x1000), 1);
    let mut cart = Cart::from_bytes(image(&banks(1), &[], 0, 0)).unwrap();
    assert_eq!(cart.read(0x1234), 0);
    cart.write(0x1234, 0x55);
    assert_eq!(cart.read(0x1234), 0x55);
    cart.write(0x9000, 0x66);
    assert_eq!(cart.read(0x9000), 0x00);
    cart.reset();
    assert_eq!(cart.read(0x1234), 0x55);
    let mut nrom = NROM::new();
    let ines = Ines::new(image(&banks(1), &[], 0, 0)).unwrap();
    assert_eq!(nrom.name(), "NROM");
    nrom.write(&ines, 0x0010, 9);
    assert_eq!(nrom.read(&ines, 0x0010), 9);
    assert_eq!(nrom.chr_ram[0x10], 9);
    assert_eq!(nrom.mirroring(), None);
}

#[test]
fn uxrom_switches_the_first_bank_and_fixes_the_last() {
    let mut cart = Cart::from_bytes(image(&banks(8), &[], 0x20, 0)).unwrap();
    assert_eq!(cart.mapper_name(), "UxROM");
    assert_eq!(cart.read(0x8005), 0x05);
    assert_eq!(cart.read(0xC005), 0x75);
    cart.write(0x8000, 3);
    assert_eq!(cart.read(0x8005), 0x35);
    assert_eq!(cart.read(0xBFFF), 0x3F);
    assert_eq!(cart.read(0xC005), 0x75);
    cart.write(0xFFFF, 6);
    assert_eq!(cart.read(0x8000), 0x60);
    // A bank past the end of the ROM wraps round.
    cart.write(0x8000, 9);
    assert_eq!(cart.read(0x8000), 0x10);
    cart.reset();
    assert_eq!(cart.read(0x8005), 0x05);
    // Pattern memory is RAM.
    cart.write(0x0123, 0x77);
    assert_eq!(cart.read(0x0123), 0x77);
    assert_eq!(cart.read(0x4020), 0xFF);
    assert_eq!(cart.mirroring(), Mirroring::Horizontal);
    let uxrom = UxROM::new();
    assert_eq!(uxrom.bank_select, 0);
    assert_eq!(uxrom.name(), "UxROM");
}

#[test]
fn axrom_switches_32k_banks_and_chooses_the_screen() {
    let mut cart = Cart::from_bytes(image(&banks(8), &[], 0x70, 0)).unwrap();
    assert_eq!(cart.mapper_name(), "AxROM");
    assert_eq!(cart.mirroring(), Mirroring::OneScreenLowerBank);
    assert_eq!(cart.read(0x8005), 0x05);
    assert_eq!(cart.read(0xC005), 0x15);
    cart.write(0x8000, 0x12);
    assert_eq!(cart.mirroring(), Mirroring::OneScreenUpperBank);
    assert_eq!(cart.read(0x8005), 0x45);
    assert_eq!(cart.read(0xC005), 0x55);
    cart.write(0xFFFF, 0x03);
    assert_eq!(cart.mirroring(), Mirroring::OneScreenLowerBank);
    assert_eq!(cart.read(0x8000), 0x60);
    assert_eq!(cart.read(0xC000), 0x70);
    // Only the low three bits select, and a bank past the end wraps round.
    cart.write(0x8000, 0xFF);
    assert_eq!(cart.read(0x8000), 0x60);
    cart.write(0x8000, 0x10);
    cart.reset();
    assert_eq!(cart.read(0x8005), 0x05);
    assert_eq!(cart.mirroring(), Mirroring::OneScreenUpperBank);
    let axrom = AxROM::new();
    assert_eq!(axrom.mirroring(), Some(Mirroring::OneScreenLowerBank));
}

/// Loads a five-bit value into the MMC1 register at `addr`, low bit first.
fn load(cart: &mut Cart, addr: u16, value: u8) {
    for bit in 0..5 {
        cart.write(addr, (value >> bit) & 1);
    }
}

fn mmc1(cart: &Cart) -> MMC1 {
    match cart.save_state() {
        CartState::MMC1(m) => m,
        _ => panic!("not MMC1"),
    }
}

#[test]
fn mmc1_starts_with_the_last_bank_fixed() {
    let cart = Cart::from_bytes(image(&banks(8), &patterns(4), 0x10, 0)).unwrap();
    let m = mmc1(&cart);
    assert_eq!(m.prg_mode, PrgMode::FixLast);
    assert_eq!(m.bits_shifted, 0);
    assert_eq!(m.chr_rom_1_index, 1);
    assert!(!m.prg_ram_enable);
    assert_eq!(cart.mirroring(), Mirroring::OneScreenLowerBank);
    assert_eq!(cart.read(0x8005), 0x05);
    assert_eq!(cart.read(0xC005), 0x75);
    assert_eq!(cart.read(0x0000), 0);
    assert_eq!(cart.read(0x1000), 1);
    assert_eq!(cart.read(0x5000), 0);
}

#[test]
fn mmc1_write_with_bit_7_resets_the_shift_register_and_fixes_the_last_bank() {
    let mut cart = Cart::from_bytes(image(&banks(8), &patterns(4), 0x10, 0)).unwrap();
    // Switch to 32 KiB mode first, then shift in three bits.
    load(&mut cart, 0x8000, 0b00000);
    assert_eq!(mmc1(&cart).prg_mode, PrgMode::ThirtyTwoKilobyte);
    cart.write(0xE000, 1);
    cart.write(0xE000, 1);
    cart.write(0xE000, 1);
    assert_eq!(mmc1(&cart).bits_shifted, 3);
    cart.write(0xC000, 0x80);
    let m = mmc1(&cart);
    assert_eq!(m.bits_shifted, 0);
    assert_eq!(m.incoming_value, 0b10000);
    assert_eq!(m.prg_mode, PrgMode::FixLast);
    // The three bits are gone: the next five writes load a register whole.
    load(&mut cart, 0xE000, 0b00010);
    assert_eq!(mmc1(&cart).prg_rom_bank_index, 2);
    assert_eq!(cart.read(0x8005), 0x25);
    assert_eq!(cart.read(0xC005), 0x75);
}

#[test]
fn mmc1_loads_its_registers_one_bit_at_a_time() {
    let mut cart = Cart::from_bytes(image(&banks(8), &patterns(8), 0x10, 0)).unwrap();
    // Control: vertical mirroring, fix-first, separate pattern banks.
    load(&mut cart, 0x8000, 0b11010);
    let m = mmc1(&cart);
    assert_eq!(m.mirroring, Mirroring::Vertical);
    assert_eq!(m.prg_mode, PrgMode::FixFirst);
    assert!(m.chr_separate);
    assert_eq!(cart.mirroring(), Mirroring::Vertical);
    load(&mut cart, 0xE000, 0b00101);
    assert!(mmc1(&cart).prg_ram_enable);
    assert_eq!(cart.read(0x8005), 0x05);
    assert_eq!(cart.read(0xC005), 0x55);
    load(&mut cart, 0xA000, 3);
    load(&mut cart, 0xC000, 6);
    assert_eq!(cart.read(0x0000), 3);
    assert_eq!(cart.read(0x0FFF), 3);
    assert_eq!(cart.read(0x1000), 6);
    // The other mirrorings and the 32 KiB mode.
    load(&mut cart, 0x9FFF, 0b00011);
    assert_eq!(cart.mirroring(), Mirroring::Horizontal);
    assert_eq!(mmc1(&cart).prg_mode, PrgMode::ThirtyTwoKilobyte);
    assert!(!mmc1(&cart).chr_separate);
    assert_eq!(cart.read(0x8005), 0x45);
    assert_eq!(cart.read(0xC005), 0x55);
    // Paired pattern banks: bank 3 means the pair 2 and 3.
    assert_eq!(cart.read(0x0000), 2);
    assert_eq!(cart.read(0x1000), 3);
    load(&mut cart, 0x8000, 0b00101);
    assert_eq!(cart.mirroring(), Mirroring::OneScreenUpperBank);
    assert_eq!(mmc1(&cart).prg_mode, PrgMode::ThirtyTwoKilobyte);
    load(&mut cart, 0x8000, 0b01100);
    assert_eq!(cart.mirroring(), Mirroring::OneScreenLowerBank);
    assert_eq!(mmc1(&cart).prg_mode, PrgMode::FixLast);
}

#[test]
fn mmc1_cartridge_ram_can_be_switched_off() {
    let mut cart = Cart::from_bytes(image(&banks(2), &[], 0x10, 0)).unwrap();
    cart.write(0x6000, 0x11);
    assert_eq!(cart.read(0x6000), 0);
    load(&mut cart, 0xE000, 0b00000);
    cart.write(0x6000, 0x11);
    cart.write(0x7FFF, 0x22);
    assert_eq!(cart.read(0x6000), 0x11);
    assert_eq!(cart.read(0x7FFF), 0x22);
    load(&mut cart, 0xE000, 0b10000);
    assert_eq!(cart.read(0x6000), 0);
    cart.write(0x6000, 0x33);
    load(&mut cart, 0xE000, 0b00000);
    assert_eq!(cart.read(0x6000), 0x11);
    // A reset keeps what the RAM holds and nothing else.
    cart.write(0x0005, 0x44);
    assert_eq!(cart.read(0x0005), 0x44);
    cart.reset();
    let m = mmc1(&cart);
    assert!(!m.prg_ram_enable);
    assert_eq!(m.prg_ram[0], 0x11);
    assert_eq!(m.prg_ram[0x1FFF], 0x22);
    assert_eq!(m.chr_ram[5], 0);
    assert_eq!(m.prg_mode, PrgMode::FixLast);
}

#[test]
fn mmc1_pattern_ram_is_written_through_the_windows() {
    let mut cart = Cart::from_bytes(image(&banks(2), &[], 0x10, 0)).unwrap();
    cart.write(0x0010, 0xA1);
    cart.write(0x1010, 0xB2);
    assert_eq!(cart.read(0x0010), 0xA1);
    assert_eq!(cart.read(0x1010), 0xB2);
    let m = mmc1(&cart);
    assert_eq!(m.chr_ram[0x0010], 0xA1);
    assert_eq!(m.chr_ram[0x1010], 0xB2);
    // With separate banks both windows can show the same 4 KiB.
    load(&mut cart, 0x8000, 0b11100);
    load(&mut cart, 0xA000, 1);
    load(&mut cart, 0xC000, 1);
    assert_eq!(cart.read(0x0010), 0xB2);
    assert_eq!(cart.read(0x1010), 0xB2);
}

#[test]
fn a_saved_mapper_state_can_be_put_back() {
    let mut cart = Cart::from_bytes(image(&banks(8), &[], 0x20, 0)).unwrap();
    cart.write(0x8000, 5);
    cart.write(0x0000, 0x99);
    let saved = cart.save_state();
    cart.write(0x8000, 2);
    cart.write(0x0000, 0x11);
    assert_eq!(cart.read(0x8000), 0x20);
    cart.load_state(saved);
    assert_eq!(cart.read(0x8000), 0x50);
    assert_eq!(cart.read(0x0000), 0x99);
}

/// Program banks of 8 KiB and pattern banks of 1 KiB in which every byte
/// tells its bank.
fn fine_banks(prg: usize, chr: usize) -> Ines {
    let mut rom = vec![0x4E, 0x45, 0x53, 0x1A, (prg / 2) as u8, (chr / 8) as u8, 0x40, 0];
    rom.extend_from_slice(&[0; 8]);
    for i in 0..prg * 8192 {
        rom.push((i / 8192) as u8);
    }
    for i in 0..chr * 1024 {
        rom.push((i / 1024) as u8);
    }
    Ines::new(rom).unwrap()
}

/// Loads bank register `register` of an MMC3 with `v`, keeping the layout
/// bits of `layout`.
fn select(m: &mut MMC3, ines: &Ines, layout: u8, register: u8, v: u8) {
    m.write(ines, 0x8000, layout | register);
    m.write(ines, 0x8001, v);
}

#[test]
fn mmc3_lays_out_program_rom_in_8k_banks() {
    let ines = fine_banks(16, 32);
    let mut m = MMC3::new();
    assert_eq!(m.name(), "MMC3");
    assert_eq!(m.mirroring(), Some(Mirroring::Vertical));
    select(&mut m, &ines, 0, 6, 3);
    select(&mut m, &ines, 0, 7, 5);
    assert_eq!(m.read(&ines, 0x8000), 3);
    assert_eq!(m.read(&ines, 0x9FFF), 3);
    assert_eq!(m.read(&ines, 0xA000), 5);
    assert_eq!(m.read(&ines, 0xC000), 14);
    assert_eq!(m.read(&ines, 0xE000), 15);
    assert_eq!(m.read(&ines, 0xFFFF), 15);
    // The other layout swaps 0x8000 and 0xC000.
    m.write(&ines, 0x8000, BankSelectRegister::PRG_ROM_MODE);
    assert_eq!(m.read(&ines, 0x8000), 14);
    assert_eq!(m.read(&ines, 0xA000), 5);
    assert_eq!(m.read(&ines, 0xC000), 3);
    assert_eq!(m.read(&ines, 0xE000), 15);
    // Program bank numbers have six bits.
    select(&mut m, &ines, 0, 6, 0xC7);
    assert_eq!(m.bank_data[6], 7);
    assert_eq!(m.prg_bank_number(0x8000), 7);
    assert_eq!(m.prg_bank_number(0xC000), 62);
    assert_eq!(m.prg_bank_number(0xE000), 63);
    assert_eq!(m.read(&ines, 0x4100), 0);
}

#[test]
fn mmc3_lays_out_pattern_rom_in_1k_banks() {
    let ines = fine_banks(4, 32);
    let mut m = MMC3::new();
    // Registers 0 and 1 name pairs of banks and take even numbers only.
    select(&mut m, &ines, 0, 0, 9);
    select(&mut m, &ines, 0, 1, 12);
    for (register, bank) in [(2u8, 20u8), (3, 21), (4, 22), (5, 23)] {
        select(&mut m, &ines, 0, register, bank);
    }
    assert_eq!(m.bank_data[0], 8);
    let seen: Vec<u8> = (0..8).map(|k| m.read(&ines, 0x400 * k)).collect();
    assert_eq!(seen, vec![8, 9, 12, 13, 20, 21, 22, 23]);
    assert_eq!(m.read(&ines, 0x03FF), 8);
    assert_eq!(m.chr_bank_number(0x1FFF), 23);
    // The other layout puts the single banks first.
    m.write(&ines, 0x8000, BankSelectRegister::CHR_A12_INV);
    let seen: Vec<u8> = (0..8).map(|k| m.read(&ines, 0x400 * k)).collect();
    assert_eq!(seen, vec![20, 21, 22, 23, 8, 9, 12, 13]);
    // A cartridge without pattern ROM reads as zero.
    let bare = fine_banks(4, 0);
    assert_eq!(m.read(&bare, 0x0000), 0);
}

#[test]
fn mmc3_has_cartridge_ram_mirroring_and_irq_registers() {
    let ines = fine_banks(4, 8);
    let mut m = MMC3::new();
    m.write(&ines, 0x6000, 0x11);
    m.write(&ines, 0x7FFF, 0x22);
    assert_eq!(m.read(&ines, 0x6000), 0x11);
    assert_eq!(m.read(&ines, 0x7FFF), 0x22);
    m.write(&ines, 0xA000, 1);
    assert_eq!(m.mirroring(), Some(Mirroring::Horizontal));
    m.write(&ines, 0xA001, 0);
    assert_eq!(m.mirroring(), Some(Mirroring::Horizontal));
    m.write(&ines, 0xBFFE, 0);
    assert_eq!(m.mirroring(), Some(Mirroring::Vertical));
    m.write(&ines, 0xC000, 0x42);
    assert_eq!((m.irq_latch, m.irq_counter), (0x42, 0));
    m.write(&ines, 0xC001, 0);
    assert_eq!(m.irq_counter, 0x42);
    m.write(&ines, 0xE001, 0);
    assert!(m.irq_enable);
    m.write(&ines, 0xE000, 0);
    assert!(!m.irq_enable);
    // Only the bits that mean something are kept.
    m.write(&ines, 0x8000, 0xFF);
    assert_eq!(m.bank_select.bits, 0xC7);
    assert_eq!(m.bank_select.get_select(), 7);
    assert!(m.bank_select.contains(BankSelectRegister::CHR_A12_INV));
    m.reset();
    assert_eq!(m.bank_select.bits, 0xC7);
    assert_eq!(m.read(&ines, 0x6000), 0x11);
}
