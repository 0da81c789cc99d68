use vstd::prelude::*;

verus! {

/// The eight buttons of a controller, one bit each; a set bit is a button
/// held down.
#[derive(Debug, Clone, Copy, PartialEq, Eq, Structural)]
pub struct ControllerState {
    pub bits: u8,
}

impl ControllerState {
    pub const A: u8 = 0x01;

    pub const B: u8 = 0x02;

    pub const SELECT: u8 = 0x04;

    pub const START: u8 = 0x08;

    pub const UP: u8 = 0x10;

    pub const DOWN: u8 = 0x20;

    pub const LEFT: u8 = 0x40;

    pub const RIGHT: u8 = 0x80;

    /// No button held.
    pub fn empty() -> (s: ControllerState)
        ensures
            s.bits == 0,
    {
        ControllerState { bits: 0 }
    }

    /// The state with exactly the buttons of `bits` held; every bit stands
    /// for a button.
    pub fn from_bits_truncate(bits: u8) -> (s: ControllerState)
        ensures
            s.bits == bits,
    {
        ControllerState { bits }
    }

    pub fn bits(&self) -> (b: u8)
        ensures
            b == self.bits,
    {
        self.bits
    }

    /// Whether every button of `buttons` is held.
    pub fn contains(&self, buttons: u8) -> (b: bool)
        ensures
            b == (self.bits & buttons == buttons),
    {
        self.bits & buttons == buttons
    }

    /// Presses the buttons of `buttons`.
    pub fn insert(&mut self, buttons: u8)
        ensures
            final(self).bits == old(self).bits | buttons,
    {
        self.bits = self.bits | buttons;
    }

    /// Releases the buttons of `buttons`.
    pub fn remove(&mut self, buttons: u8)
        ensures
            final(self).bits == old(self).bits & !buttons,
    {
        self.bits = self.bits & !buttons;
    }
}

/// A source of controller input. The console asks it for the buttons held
/// each time the game strobes the controller port.
pub trait NESController {
    /// The buttons held at this moment. A verified controller says here
    /// what `poll_controller` answers; of any other nothing is known.
    open spec fn buttons(&self) -> ControllerState {
        arbitrary()
    }

    fn poll_controller(&self) -> (s: ControllerState)
        ensures
            s == self.buttons(),
    ;
}

/// A controller that nobody touches.
#[derive(Debug, Clone, Copy, PartialEq, Eq, Structural)]
pub struct DummyController();

impl NESController for DummyController {
    open spec fn buttons(&self) -> ControllerState {
        ControllerState { bits: 0 }
    }

    fn poll_controller(&self) -> ControllerState {
        ControllerState::empty()
    }
}

} // verus!
