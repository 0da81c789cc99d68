use super::Mapper;
use crate::cart::{Ines, Mirroring};
use vstd::prelude::*;

verus! {

/// An empty Cartridge mapper.
/// Reads only zeroes, ignores writes
#[derive(Clone, Copy, Debug, PartialEq, Eq, Structural)]
pub struct Dummy {}

impl Mapper for Dummy {
    open spec fn byte_at(&self, ines: &Ines, addr: u16) -> u8 {
        0
    }

    open spec fn after_write(&self, ines: &Ines, addr: u16, v: u8) -> Self {
        *self
    }

    open spec fn after_reset(&self) -> Self {
        *self
    }

    open spec fn chosen_mirroring(&self) -> Option<Mirroring> {
        None
    }

    open spec fn label(&self) -> Seq<char> {
        "DUMMY"@
    }

    fn name(&self) -> &'static str {
        "DUMMY"
    }

    fn read(&self, _ines: &Ines, _addr: u16) -> u8 {
        0
    }

    fn write(&mut self, _ines: &Ines, _addr: u16, _v: u8) {
    }

    fn reset(&mut self) {
    }

    fn mirroring(&self) -> Option<Mirroring> {
        None
    }
}

} // verus!
