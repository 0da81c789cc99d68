use crate::controller::{ControllerState, NESController};
use vstd::prelude::*;

verus! {

/// A controller whose buttons the program presses and releases.
#[derive(Debug, Clone, Copy, PartialEq, Eq, Structural)]
pub struct Controller {
    pub buttons: ControllerState,
}

impl Controller {
    /// A controller with no button held.
    pub fn new() -> (c: Self)
        ensures
            c.buttons.bits == 0,
    {
        Controller { buttons: ControllerState::empty() }
    }

    /// Holds the buttons of `buttons` down.
    pub fn press(&mut self, buttons: u8)
        ensures
            final(self).buttons.bits == old(self).buttons.bits | buttons,
    {
        self.buttons.insert(buttons);
    }

    /// Lets the buttons of `buttons` go.
    pub fn release(&mut self, buttons: u8)
        ensures
            final(self).buttons.bits == old(self).buttons.bits & !buttons,
    {
        self.buttons.remove(buttons);
    }
}

impl Default for Controller {
    fn default() -> (c: Self)
        ensures
            c.buttons.bits == 0,
    {
        Self::new()
    }
}

impl NESController for Controller {
    open spec fn buttons(&self) -> ControllerState {
        self.buttons
    }

    fn poll_controller(&self) -> ControllerState {
        self.buttons
    }
}

} // verus!
