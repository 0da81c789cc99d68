//! The core of an emulator of the Nintendo Entertainment System: a 6502
//! processor, the picture unit, the sound unit, the memory unit that joins
//! them, the cartridge mappers, and the console that clocks them all.
//!
//! Every unit is a state machine. What one step does is written down twice:
//! as a function from the state before to the state after, and as the code
//! that takes the step, which is proved to compute that function. The laws
//! that hold of these functions are proved beside them.

pub mod apu;
pub mod bytes;
pub mod cart;
pub mod controller;
pub mod determinism;
pub mod dma;
pub mod emulator;
pub mod error;
pub mod mapper;
pub mod mmu;
pub mod mos6502;
pub mod nes;
pub mod nes_builder;
pub mod ppu;
pub mod text;

pub use nes_builder::nes_builder;
