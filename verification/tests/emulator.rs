use nes_core::apu::DummyAudio;
use nes_core::cart::Cart;
use nes_core::controller::{ControllerState, NESController};
use nes_core::emulator::audio::{Volume, MAX_VOLUME, START_VOLUME};
use nes_core::emulator::button::{lower, reads_name, Button};
use nes_core::emulator::controller::Controller;
use nes_core::emulator::debug::nametable::{nametable_image, palette_of, tables_pixel};
use nes_core::emulator::debug::pattern_table::pattern_table_image;
use nes_core::emulator::debug::pixel_of;
use nes_core::emulator::input::{Input, InputHandler, KeyMap, Message, INPUTS};
use nes_core::emulator::screen::{Screen, FRAME_BYTES, SCREEN_HEIGHT, SCREEN_WIDTH};
use nes_core::emulator::{title, update, AppState, Flags};
use nes_core::nes::Nes;
use nes_core::ppu::{Color, DummyVideo, VideoInterface};

const KEY_Z: u32 = 35;
const KEY_X: u32 = 33;
const KEY_P: u32 = 25;

#[test]
fn a_pixel_of_the_picture_fills_a_block_of_nine_screen_pixels() {
    assert_eq!((SCREEN_WIDTH, SCREEN_HEIGHT, FRAME_BYTES), (768, 720, 2_211_840));
    let mut screen = Screen::new();
    assert!(screen.get_frame().iter().all(|&b| b == 0));
    screen.draw_pixel(2, 1, Color(10, 20, 30));
    // Nothing shows until the frame is complete.
    assert!(screen.get_frame().iter().all(|&b| b == 0));
    screen.end_of_frame();
    let frame = screen.get_frame();
    for sy in 0..SCREEN_HEIGHT {
        for sx in 0..SCREEN_WIDTH {
            let at = (sy * SCREEN_WIDTH + sx) * 4;
            let inside = (6..9).contains(&sx) && (3..6).contains(&sy);
            let expected = if inside { [10, 20, 30, 0xFF] } else { [0, 0, 0, 0] };
            assert_eq!(frame[at..at + 4], expected, "{} {}", sx, sy);
        }
    }
}

#[test]
fn the_corners_of_the_picture_lie_in_the_corners_of_the_frame() {
    let mut screen = Screen::default();
    screen.draw_pixel(0, 0, Color(1, 2, 3));
    screen.draw_pixel(255, 239, Color(4, 5, 6));
    screen.end_of_frame();
    let frame = screen.get_frame();
    assert_eq!(frame[0..4], [1, 2, 3, 0xFF]);
    assert_eq!(frame[FRAME_BYTES - 4..], [4, 5, 6, 0xFF]);
    let first_of_last_block = ((SCREEN_HEIGHT - 3) * SCREEN_WIDTH + SCREEN_WIDTH - 3) * 4;
    assert_eq!(frame[first_of_last_block..first_of_last_block + 4], [4, 5, 6, 0xFF]);
    assert_eq!(frame[first_of_last_block - 4..first_of_last_block], [0, 0, 0, 0]);
}

#[test]
fn the_two_frames_change_places_at_the_end_of_a_frame() {
    let mut screen = Screen::new();
    screen.draw_pixel(0, 0, Color(9, 9, 9));
    screen.end_of_frame();
    screen.draw_pixel(1, 0, Color(7, 7, 7));
    assert_eq!(screen.get_frame()[0..4], [9, 9, 9, 0xFF]);
    assert_eq!(screen.get_frame()[12..16], [0, 0, 0, 0]);
    screen.end_of_frame();
    assert_eq!(screen.get_frame()[0..4], [0, 0, 0, 0]);
    assert_eq!(screen.get_frame()[12..16], [7, 7, 7, 0xFF]);
    screen.end_of_frame();
    assert_eq!(screen.get_frame()[0..4], [9, 9, 9, 0xFF]);
}

#[test]
fn the_controller_holds_what_was_pressed_and_not_released() {
    let mut pad = Controller::new();
    assert_eq!(pad.poll_controller().bits(), 0);
    pad.press(ControllerState::A | ControllerState::LEFT);
    pad.press(ControllerState::START);
    assert_eq!(pad.poll_controller().bits(), 0x49);
    pad.release(ControllerState::A);
    assert_eq!(pad.poll_controller().bits(), 0x48);
    pad.release(ControllerState::B);
    assert_eq!(pad.poll_controller().bits(), 0x48);
    assert_eq!(Controller::default(), Controller::new());
}

#[test]
fn the_volume_stays_between_silence_and_the_loudest() {
    let mut volume = Volume::new();
    assert_eq!((START_VOLUME, MAX_VOLUME), (500, 1000));
    assert_eq!(volume.get_volume(), 500);
    assert_eq!(volume.change_volume(50), 550);
    assert_eq!(volume.change_volume(-100), 450);
    assert_eq!(volume.change_volume(-451), 0);
    assert_eq!(volume.change_volume(-1), 0);
    assert_eq!(volume.change_volume(i16::MAX), 1000);
    assert_eq!(volume.change_volume(i16::MIN), 0);
    assert_eq!(volume.change_volume(1000), 1000);
    assert_eq!(volume.change_volume(1), 1000);
    volume.set_volume(1001);
    assert_eq!(volume.get_volume(), 1000);
    volume.set_volume(u16::MAX);
    assert_eq!(volume.get_volume(), 1000);
    volume.set_volume(123);
    assert_eq!(volume.get_volume(), 123);
    assert_eq!(Volume::default(), Volume::new());
}

#[test]
fn muting_keeps_the_volume_for_later() {
    let mut volume = Volume::new();
    volume.set_volume(700);
    assert!(!volume.set_mute(false));
    assert_eq!(volume.get_volume(), 700);
    assert!(!volume.set_mute(true));
    assert_eq!(volume.get_volume(), 0);
    assert_eq!(volume.mute_volume, Some(700));
    assert!(volume.set_mute(true));
    assert_eq!(volume.mute_volume, Some(700));
    assert!(volume.set_mute(false));
    assert_eq!(volume, Volume { level: 700, mute_volume: None });
}

#[test]
fn inputs_are_listed_in_a_fixed_order() {
    let order = [
        Input::ButtonA,
        Input::ButtonB,
        Input::ButtonStart,
        Input::ButtonSelect,
        Input::ButtonUp,
        Input::ButtonDown,
        Input::ButtonLeft,
        Input::ButtonRight,
        Input::Pause,
        Input::VolumeUp,
        Input::VolumeDown,
    ];
    assert_eq!(order.len(), INPUTS);
    for (i, input) in order.iter().enumerate() {
        assert_eq!(input.index(), i);
        assert_eq!(Input::at(i), *input);
    }
}

#[test]
fn keys_ask_for_buttons_pause_and_volume() {
    let buttons = [
        (Input::ButtonA, 0x01u8),
        (Input::ButtonB, 0x02),
        (Input::ButtonSelect, 0x04),
        (Input::ButtonStart, 0x08),
        (Input::ButtonUp, 0x10),
        (Input::ButtonDown, 0x20),
        (Input::ButtonLeft, 0x40),
        (Input::ButtonRight, 0x80),
    ];
    for (input, mask) in buttons {
        let held = ControllerState::from_bits_truncate(mask);
        assert_eq!(input.button_mask(), Some(mask));
        assert_eq!(input.msg_on_press(), Some(Message::ControllerButtonPressed(held)));
        assert_eq!(input.msg_on_release(), Some(Message::ControllerButtonReleased(held)));
    }
    assert_eq!(Input::Pause.msg_on_press(), Some(Message::TogglePause));
    assert_eq!(Input::VolumeUp.msg_on_press(), Some(Message::VolumeChange(50)));
    assert_eq!(Input::VolumeDown.msg_on_press(), Some(Message::VolumeChange(-50)));
    for input in [Input::Pause, Input::VolumeUp, Input::VolumeDown] {
        assert_eq!(input.button_mask(), None);
        assert_eq!(input.msg_on_release(), None);
    }
}

#[test]
fn a_key_means_the_one_input_bound_to_it() {
    let mut keys = InputHandler::from_keymaps(&[
        (Input::ButtonA, KEY_Z),
        (Input::ButtonB, KEY_X),
        (Input::Pause, KEY_P),
    ]);
    assert_eq!(keys.translate_keypresses(KEY_Z), Some(Input::ButtonA));
    assert_eq!(keys.translate_keypresses(KEY_X), Some(Input::ButtonB));
    assert_eq!(keys.translate_keypresses(KEY_P), Some(Input::Pause));
    assert_eq!(keys.translate_keypresses(99), None);
    assert_eq!(keys.count_bound(KEY_Z), 1);
    assert_eq!(keys.count_bound(99), 0);

    // A key that two inputs share means nothing.
    keys.bind_input(Input::ButtonStart, KEY_Z);
    assert_eq!(keys.translate_keypresses(KEY_Z), None);
    assert_eq!(keys.count_bound(KEY_Z), 2);
    keys.bind_input(Input::ButtonSelect, KEY_Z);
    assert_eq!(keys.translate_keypresses(KEY_Z), None);
    assert_eq!(keys.count_bound(KEY_Z), 3);

    // It means the input that is left once the others have gone.
    keys.unbind_input(Input::ButtonA);
    assert_eq!(keys.translate_keypresses(KEY_Z), None);
    keys.bind_input(Input::ButtonSelect, 77);
    assert_eq!(keys.translate_keypresses(KEY_Z), Some(Input::ButtonStart));
    assert_eq!(keys.translate_keypresses(77), Some(Input::ButtonSelect));

    // Binding an input again takes its old key from it.
    keys.bind_input(Input::ButtonB, 78);
    assert_eq!(keys.translate_keypresses(KEY_X), None);
    assert_eq!(keys.translate_keypresses(78), Some(Input::ButtonB));
    keys.unbind_input(Input::ButtonB);
    assert_eq!(keys.translate_keypresses(78), None);
    keys.unbind_input(Input::ButtonB);
    assert_eq!(keys.forward_map[Input::ButtonB.index()], None);
}

#[test]
fn of_two_bindings_for_one_input_the_later_stands() {
    let keys = InputHandler::from_keymaps(&[(Input::ButtonA, 1), (Input::ButtonA, 2)]);
    assert_eq!(keys.translate_keypresses(1), None);
    assert_eq!(keys.translate_keypresses(2), Some(Input::ButtonA));
    let none = InputHandler::from_keymaps(&[]);
    assert_eq!(none.forward_map, [None; 11]);
    assert_eq!(InputHandler::new().forward_map, [None; 11]);
}

#[test]
fn the_configuration_screen_marks_shared_keys() {
    let keys = InputHandler::from_keymaps(&[
        (Input::ButtonA, KEY_Z),
        (Input::ButtonUp, KEY_Z),
        (Input::VolumeDown, KEY_P),
    ]);
    let lines = keys.keymaps();
    assert_eq!(lines.len(), 11);
    for (i, line) in lines.iter().enumerate() {
        let input = Input::at(i);
        let expected = match input {
            Input::ButtonA | Input::ButtonUp => {
                KeyMap { input, key: Some(KEY_Z), is_duplicate: true }
            }
            Input::VolumeDown => KeyMap { input, key: Some(KEY_P), is_duplicate: false },
            _ => KeyMap { input, key: None, is_duplicate: false },
        };
        assert_eq!(*line, expected);
    }
}

/// A console with a game that runs in a loop.
fn console() -> Nes<DummyVideo, Controller, DummyAudio> {
    let mut rom = vec![0x4E, 0x45, 0x53, 0x1A, 1, 0, 0, 0];
    rom.extend_from_slice(&[0; 8]);
    let mut prg = vec![0xEA; 16384];
    prg[3] = 0x4C;
    prg[4] = 0x00;
    prg[5] = 0x80;
    prg[0x3FFC] = 0x00;
    prg[0x3FFD] = 0x80;
    rom.extend_from_slice(&prg);
    let cart = Cart::from_bytes(rom).unwrap();
    Nes::new(Some(cart), DummyVideo(), Controller::new(), DummyAudio(), None)
}

#[test]
fn the_time_for_a_frame_runs_a_running_game_only() {
    let mut nes = console();
    let mut volume = Volume::new();
    for mut state in [AppState::Empty, AppState::Paused { was_muted: false }] {
        let before = state;
        assert!(update(&mut state, &mut nes, &mut volume, Message::NextFrame).is_ok());
        assert_eq!(state, before);
        assert_eq!((nes.ppu.scanline, nes.ppu.dot), (261, 0));
        assert_eq!(nes.cpu.PC.get(), 0);
    }
    let mut state = AppState::Running;
    assert!(update(&mut state, &mut nes, &mut volume, Message::NextFrame).is_ok());
    assert_eq!(state, AppState::Running);
    assert_eq!(nes.ppu.scanline, 241);
    assert!((2..=4).contains(&nes.ppu.dot));
    assert!((0x8000..0x8006).contains(&nes.cpu.PC.get()));
    assert_eq!(volume, Volume::new());
}

#[test]
fn buttons_reach_the_controller_of_the_console() {
    let mut nes = console();
    let mut volume = Volume::new();
    let mut state = AppState::Running;
    let a = Input::ButtonA.msg_on_press().unwrap();
    let right = Input::ButtonRight.msg_on_press().unwrap();
    assert!(update(&mut state, &mut nes, &mut volume, a).is_ok());
    assert!(update(&mut state, &mut nes, &mut volume, right).is_ok());
    assert_eq!(nes.get_controller().poll_controller().bits(), 0x81);
    let let_go = Input::ButtonA.msg_on_release().unwrap();
    assert!(update(&mut state, &mut nes, &mut volume, let_go).is_ok());
    assert_eq!(nes.get_controller().poll_controller().bits(), 0x80);
    assert_eq!(state, AppState::Running);
    assert_eq!((nes.ppu.scanline, nes.ppu.dot), (261, 0));
}

#[test]
fn pausing_mutes_and_running_again_gives_the_volume_back() {
    let mut nes = console();
    let mut volume = Volume::new();
    let mut state = AppState::Running;
    assert!(update(&mut state, &mut nes, &mut volume, Message::VolumeChange(50)).is_ok());
    assert_eq!(volume.get_volume(), 550);
    assert!(update(&mut state, &mut nes, &mut volume, Message::TogglePause).is_ok());
    assert_eq!(state, AppState::Paused { was_muted: false });
    assert_eq!(volume, Volume { level: 0, mute_volume: Some(550) });
    assert!(update(&mut state, &mut nes, &mut volume, Message::TogglePause).is_ok());
    assert_eq!(state, AppState::Running);
    assert_eq!(volume, Volume { level: 550, mute_volume: None });

    // A game that was muted when it was paused stays muted.
    volume.set_mute(true);
    assert!(update(&mut state, &mut nes, &mut volume, Message::TogglePause).is_ok());
    assert_eq!(state, AppState::Paused { was_muted: true });
    assert!(update(&mut state, &mut nes, &mut volume, Message::TogglePause).is_ok());
    assert_eq!(state, AppState::Running);
    assert_eq!(volume, Volume { level: 0, mute_volume: Some(550) });

    // Without a game there is nothing to pause.
    let mut state = AppState::Empty;
    assert!(update(&mut state, &mut nes, &mut volume, Message::TogglePause).is_ok());
    assert_eq!(state, AppState::Empty);
}

#[test]
fn the_title_tells_the_game_the_pause_and_the_volume() {
    assert_eq!(title("game.nes", &AppState::Running, 500), "game.nes - Vol: 50%");
    assert_eq!(
        title("game.nes", &AppState::Paused { was_muted: false }, 0),
        "game.nes - PAUSE - Vol: 0%"
    );
    assert_eq!(title("", &AppState::Empty, 1000), " - Vol: 100%");
    assert_eq!(title("a", &AppState::Running, 9), "a - Vol: 0%");
    assert_eq!(title("a", &AppState::Running, 999), "a - Vol: 99%");
    assert_eq!(Flags::default().rom_path, None);
}

#[test]
fn a_pixel_of_a_tile_takes_a_bit_from_each_plane() {
    assert_eq!(pixel_of(0b1000_0001, 0b1100_0000, 0), 3);
    assert_eq!(pixel_of(0b1000_0001, 0b1100_0000, 1), 2);
    assert_eq!(pixel_of(0b1000_0001, 0b1100_0000, 2), 0);
    assert_eq!(pixel_of(0b1000_0001, 0b1100_0000, 7), 1);
    for x in 0..8 {
        assert_eq!(pixel_of(0xFF, 0x00, x), 1);
        assert_eq!(pixel_of(0x00, 0xFF, x), 2);
        assert_eq!(pixel_of(0xFF, 0xFF, x), 3);
        assert_eq!(pixel_of(0x00, 0x00, x), 0);
    }
}

#[test]
fn the_picture_of_a_pattern_table_shows_its_tiles_sixteen_to_a_row() {
    let mut patterns = [0u8; 0x2000];
    // Tile 1 of the first table, row 0.
    patterns[0x10] = 0b1000_0001;
    patterns[0x18] = 0b1100_0000;
    // Tile 0x23 of the second table, row 5.
    patterns[0x1000 + 0x230 + 5] = 0b0000_0100;
    let palette = [(1, 1, 1), (10, 11, 12), (20, 21, 22), (30, 31, 32)];
    let bg = (5, 6, 7);
    let pixel = |image: &[u8], x: usize, y: usize| {
        let at = (y * 128 + x) * 3;
        (image[at], image[at + 1], image[at + 2])
    };

    let first = pattern_table_image(&patterns, 0, &palette, bg);
    assert_eq!(first.len(), 128 * 128 * 3);
    for y in 0..128 {
        for x in 0..128 {
            let expected = match (x, y) {
                (8, 0) => (30, 31, 32),
                (9, 0) => (20, 21, 22),
                (15, 0) => (10, 11, 12),
                _ => bg,
            };
            assert_eq!(pixel(&first, x, y), expected, "{} {}", x, y);
        }
    }

    let second = pattern_table_image(&patterns, 1, &palette, bg);
    assert_eq!(second.len(), 128 * 128 * 3);
    for y in 0..128 {
        for x in 0..128 {
            let expected = if (x, y) == (3 * 8 + 5, 2 * 8 + 5) { (10, 11, 12) } else { bg };
            assert_eq!(pixel(&second, x, y), expected, "{} {}", x, y);
        }
    }
}

#[test]
fn an_attribute_byte_holds_a_palette_for_each_quarter_of_its_block() {
    let attr = 0b11_10_01_00;
    assert_eq!(palette_of(attr, 0, 0), 0);
    assert_eq!(palette_of(attr, 1, 1), 0);
    assert_eq!(palette_of(attr, 0, 2), 1);
    assert_eq!(palette_of(attr, 1, 3), 1);
    assert_eq!(palette_of(attr, 2, 0), 2);
    assert_eq!(palette_of(attr, 3, 1), 2);
    assert_eq!(palette_of(attr, 2, 2), 3);
    assert_eq!(palette_of(attr, 3, 3), 3);
    assert_eq!(palette_of(attr, 4, 4), 0);
    assert_eq!(palette_of(attr, 29, 31), 1);
}

#[test]
fn the_picture_of_the_nametables_shows_four_tables_in_a_square() {
    let mut patterns = [0u8; 0x2000];
    // Row 3 of tile 5, in both pattern tables.
    patterns[5 * 16 + 3] = 0x80;
    patterns[0x1000 + 5 * 16 + 3] = 0x01;
    patterns[0x1000 + 5 * 16 + 3 + 8] = 0x01;
    let mut vram = [0u8; 0x1000];
    // Table 1: tile 5 in row 2, column 3, with palette 2.
    vram[0x400 + 2 * 32 + 3] = 5;
    vram[0x400 + 0x3C0] = 0b10_00_00_00;
    // Table 2: tile 5 in row 29, column 31, with palette 1.
    vram[0x800 + 29 * 32 + 31] = 5;
    vram[0x800 + 0x3C0 + 7 * 8 + 7] = 0b00_00_01_00;
    let mut colors = [(0u8, 0u8, 0u8); 32];
    for (i, c) in colors.iter_mut().enumerate() {
        *c = (i as u8, 2 * i as u8, 100 + i as u8);
    }
    let pixel = |image: &[u8], x: usize, y: usize| {
        let at = (y * 512 + x) * 3;
        (image[at], image[at + 1], image[at + 2])
    };

    let image = nametable_image(&patterns, 0x00, &colors, &vram);
    assert_eq!(image.len(), 512 * 480 * 3);
    for y in 0..480 {
        for x in 0..512 {
            let expected = match (x, y) {
                (280, 19) => colors[2 << 2 | 1],
                (248, 475) => colors[1 << 2 | 1],
                _ => colors[0],
            };
            assert_eq!(pixel(&image, x, y), expected, "{} {}", x, y);
            assert_eq!(tables_pixel(&patterns, 0x00, &colors, &vram, x, y), expected);
        }
    }

    // With bit 4 of the control register the tiles come from the second
    // pattern table.
    let image = nametable_image(&patterns, 0x10, &colors, &vram);
    assert_eq!(pixel(&image, 280, 19), colors[0]);
    assert_eq!(pixel(&image, 287, 19), colors[2 << 2 | 3]);
    assert_eq!(pixel(&image, 255, 475), colors[1 << 2 | 3]);
    assert_eq!(pixel(&image, 0, 0), colors[0]);
}

#[test]
fn a_button_is_named_in_letters_of_either_case() {
    let all = [
        (Button::A, "A", 0x01u8),
        (Button::B, "B", 0x02),
        (Button::Select, "Select", 0x04),
        (Button::Start, "Start", 0x08),
        (Button::Up, "Up", 0x10),
        (Button::Down, "Down", 0x20),
        (Button::Left, "Left", 0x40),
        (Button::Right, "Right", 0x80),
    ];
    for (button, name, mask) in all {
        assert_eq!(button.name(), name);
        assert_eq!(button.buttons().bits(), mask);
        assert_eq!(Button::from_name(name), Some(button));
        assert_eq!(Button::from_name(&name.to_lowercase()), Some(button));
        assert_eq!(Button::from_name(&name.to_uppercase()), Some(button));
    }
    assert_eq!(Button::from_name("sTaRt"), Some(Button::Start));
    for bad in ["", "c", "aa", "star", "starts", " start", "st\u{e4}rt", "s\u{442}art", "selec\u{1e6a}"] {
        assert_eq!(Button::from_name(bad), None, "{:?}", bad);
    }
}

#[test]
fn only_capital_letters_of_the_alphabet_are_lowered() {
    assert_eq!(lower('A'), 'a');
    assert_eq!(lower('Z'), 'z');
    assert_eq!(lower('q'), 'q');
    assert_eq!(lower('@'), '@');
    assert_eq!(lower('['), '[');
    assert_eq!(lower('0'), '0');
    assert_eq!(lower('\u{c4}'), '\u{c4}');
    assert!(reads_name("DoWn", "down"));
    assert!(!reads_name("down", "DOWN"));
    assert!(!reads_name("dow", "down"));
    assert!(reads_name("", ""));
}
