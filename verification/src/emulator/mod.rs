//! What a program around the console keeps: the frame that it shows, the
//! controller that it fills from the keyboard, the key bindings, the volume,
//! and what it does when it is told of a key or of the time for a frame.
pub mod audio;
pub mod button;
pub mod controller;
pub mod debug;
pub mod input;
pub mod screen;

use crate::apu::AudioOutput;
use crate::controller::ControllerState;
use crate::error::Error;
use crate::mapper::Mapper;
use crate::mmu::MMU;
use crate::nes::Nes;
use crate::ppu::VideoInterface;
use crate::text::{decimal, push_decimal};
use audio::Volume;
use controller::Controller;
use input::Message;
use vstd::prelude::*;

verus! {

/// Whether a game is in the console, and whether it runs.
#[derive(Debug, Clone, Copy, PartialEq, Eq, Structural)]
pub enum AppState {
    Empty,
    Running,
    Paused { was_muted: bool },
}

/// What the program is started with.
#[derive(Debug, Default)]
pub struct Flags {
    pub rom_path: Option<String>,
}

/// The console with the given buttons held on its controller.
pub open spec fn holding<V: VideoInterface, A: AudioOutput, K: Mapper + Copy>(
    nes: Nes<V, Controller, A, K>,
    bits: u8,
) -> Nes<V, Controller, A, K> {
    Nes {
        mmu: MMU { controller: Controller { buttons: ControllerState { bits } }, ..nes.mmu },
        ..nes
    }
}

/// The program once it has been told `message`, and whether what it did
/// failed.
///
/// At the time for a frame a running game runs for one frame. A button
/// pressed is held on the controller and a button released let go. The
/// pause key pauses a running game and mutes it, noting whether it was
/// muted already, and lets a paused game run again, as loud as it was.
/// A volume key changes the volume.
pub open spec fn updated<V: VideoInterface, A: AudioOutput, K: Mapper + Copy>(
    state: AppState,
    nes: Nes<V, Controller, A, K>,
    volume: Volume,
    message: Message,
) -> (AppState, Nes<V, Controller, A, K>, Volume, Result<(), Error>) {
    match message {
        Message::NextFrame => if state == AppState::Running {
            let (next, result) = nes.frame_run();
            (state, next, volume, result)
        } else {
            (state, nes, volume, Ok(()))
        },
        Message::ControllerButtonPressed(b) => (
            state,
            holding(nes, nes.mmu.controller.buttons.bits | b.bits),
            volume,
            Ok(()),
        ),
        Message::ControllerButtonReleased(b) => (
            state,
            holding(nes, nes.mmu.controller.buttons.bits & !b.bits),
            volume,
            Ok(()),
        ),
        Message::TogglePause => match state {
            AppState::Running => (
                AppState::Paused { was_muted: volume.is_muted() },
                nes,
                volume.muted(true),
                Ok(()),
            ),
            AppState::Paused { was_muted } => (
                AppState::Running,
                nes,
                volume.muted(was_muted),
                Ok(()),
            ),
            AppState::Empty => (state, nes, volume, Ok(())),
        },
        Message::VolumeChange(dv) => (state, nes, volume.changed(dv), Ok(())),
    }
}

/// Does what `message` asks for.
pub fn update<V: VideoInterface, A: AudioOutput, K: Mapper + Copy>(
    state: &mut AppState,
    nes: &mut Nes<V, Controller, A, K>,
    volume: &mut Volume,
    message: Message,
) -> (r: Result<(), Error>)
    requires
        old(nes).wf(),
    ensures
        (*final(state), *final(nes), *final(volume), r) == updated(
            *old(state),
            *old(nes),
            *old(volume),
            message,
        ),
        final(nes).wf(),
{
    match message {
        Message::NextFrame => {
            if matches!(*state, AppState::Running) {
                return nes.run_frame();
            }
        },
        Message::ControllerButtonPressed(b) => {
            nes.get_controller_mut().press(b.bits());
        },
        Message::ControllerButtonReleased(b) => {
            nes.get_controller_mut().release(b.bits());
        },
        Message::TogglePause => match *state {
            AppState::Running => {
                let was_muted = volume.set_mute(true);
                *state = AppState::Paused { was_muted };
            },
            AppState::Paused { was_muted } => {
                volume.set_mute(was_muted);
                *state = AppState::Running;
            },
            AppState::Empty => {},
        },
        Message::VolumeChange(dv) => {
            volume.change_volume(dv);
        },
    }
    Ok(())
}

/// The title of the window: the game, a note while it is paused, and the
/// volume in hundredths.
pub open spec fn title_text(game_title: Seq<char>, state: AppState, volume: u16) -> Seq<char> {
    game_title + (if state is Paused {
        " - PAUSE"@
    } else {
        Seq::<char>::empty()
    }) + " - Vol: "@ + decimal(volume / 10) + "%"@
}

/// Writes the title of the window.
pub fn title(game_title: &str, state: &AppState, volume: u16) -> (t: String)
    ensures
        t@ == title_text(game_title@, *state, volume),
{
    let mut t = String::from_str(game_title);
    if let AppState::Paused { .. } = state {
        t.append(" - PAUSE");
    }
    t.append(" - Vol: ");
    push_decimal(&mut t, volume / 10);
    t.append("%");
    assert(t@ =~= title_text(game_title@, *state, volume));
    t
}

/// Pausing mutes a game and running it again gives it back the volume it
/// had, muted or not; the console and what it shows do not change.
pub proof fn lemma_pause_is_undone<V: VideoInterface, A: AudioOutput, K: Mapper + Copy>(
    nes: Nes<V, Controller, A, K>,
    volume: Volume,
)
    ensures
        ({
            let paused = updated(AppState::Running, nes, volume, Message::TogglePause);
            let resumed = updated(paused.0, paused.1, paused.2, Message::TogglePause);
            &&& paused.0 is Paused
            &&& paused.2.is_muted()
            &&& resumed.0 == AppState::Running
            &&& resumed.1 == nes
            &&& resumed.2 == volume
        }),
{
    volume.lemma_mute_is_undone();
}

/// Only a running game runs: while no game is in the console, or the game
/// is paused, the time for a frame changes nothing.
pub proof fn lemma_only_a_running_game_runs<V: VideoInterface, A: AudioOutput, K: Mapper + Copy>(
    state: AppState,
    nes: Nes<V, Controller, A, K>,
    volume: Volume,
)
    requires
        state != AppState::Running,
    ensures
        updated(state, nes, volume, Message::NextFrame) == (state, nes, volume, Ok::<(), Error>(())),
{
}

} // verus!
