use crate::bytes::{filled, lemma_array_contents, stored};
use crate::controller::ControllerState;
use vstd::prelude::*;

verus! {

/// How many inputs there are.
pub const INPUTS: usize = 11;

/// How much one press of a volume key changes the volume.
pub const VOLUME_STEP: i16 = 50;

/// The number that the window toolkit gives a key of the keyboard.
pub type Key = u32;

/// What a key can be bound to.
#[derive(Debug, Clone, Copy, PartialEq, Eq, Structural)]
pub enum Input {
    ButtonA,
    ButtonB,
    ButtonStart,
    ButtonSelect,
    ButtonUp,
    ButtonDown,
    ButtonLeft,
    ButtonRight,
    Pause,
    VolumeUp,
    VolumeDown,
}

/// What the program is told to do.
#[derive(Debug, Clone, Copy, PartialEq, Eq, Structural)]
pub enum Message {
    NextFrame,
    ControllerButtonPressed(ControllerState),
    ControllerButtonReleased(ControllerState),
    TogglePause,
    VolumeChange(i16),
}

impl Input {
    /// The place of the input in the list of inputs.
    pub open spec fn spec_index(self) -> int {
        match self {
            Input::ButtonA => 0,
            Input::ButtonB => 1,
            Input::ButtonStart => 2,
            Input::ButtonSelect => 3,
            Input::ButtonUp => 4,
            Input::ButtonDown => 5,
            Input::ButtonLeft => 6,
            Input::ButtonRight => 7,
            Input::Pause => 8,
            Input::VolumeUp => 9,
            Input::VolumeDown => 10,
        }
    }

    /// The input at place `i` of the list of inputs.
    pub open spec fn spec_at(i: int) -> Input {
        if i == 0 {
            Input::ButtonA
        } else if i == 1 {
            Input::ButtonB
        } else if i == 2 {
            Input::ButtonStart
        } else if i == 3 {
            Input::ButtonSelect
        } else if i == 4 {
            Input::ButtonUp
        } else if i == 5 {
            Input::ButtonDown
        } else if i == 6 {
            Input::ButtonLeft
        } else if i == 7 {
            Input::ButtonRight
        } else if i == 8 {
            Input::Pause
        } else if i == 9 {
            Input::VolumeUp
        } else {
            Input::VolumeDown
        }
    }

    /// The button of the controller that the input stands for, if it
    /// stands for one.
    pub open spec fn button(self) -> Option<u8> {
        match self {
            Input::ButtonA => Some(ControllerState::A),
            Input::ButtonB => Some(ControllerState::B),
            Input::ButtonStart => Some(ControllerState::START),
            Input::ButtonSelect => Some(ControllerState::SELECT),
            Input::ButtonUp => Some(ControllerState::UP),
            Input::ButtonDown => Some(ControllerState::DOWN),
            Input::ButtonLeft => Some(ControllerState::LEFT),
            Input::ButtonRight => Some(ControllerState::RIGHT),
            _ => None,
        }
    }

    /// What pressing the key of the input asks for: the button held, the
    /// pause switched, the volume a step up or down.
    pub open spec fn on_press(self) -> Option<Message> {
        match self.button() {
            Some(mask) => Some(Message::ControllerButtonPressed(ControllerState { bits: mask })),
            None => match self {
                Input::Pause => Some(Message::TogglePause),
                Input::VolumeUp => Some(Message::VolumeChange(VOLUME_STEP)),
                _ => Some(Message::VolumeChange((-VOLUME_STEP) as i16)),
            },
        }
    }

    /// What letting the key of the input go asks for: the button let go,
    /// and nothing for the other inputs.
    pub open spec fn on_release(self) -> Option<Message> {
        match self.button() {
            Some(mask) => Some(Message::ControllerButtonReleased(ControllerState { bits: mask })),
            None => None,
        }
    }

    pub fn index(self) -> (i: usize)
        ensures
            i == self.spec_index(),
            i < INPUTS,
            Input::spec_at(i as int) == self,
    {
        match self {
            Input::ButtonA => 0,
            Input::ButtonB => 1,
            Input::ButtonStart => 2,
            Input::ButtonSelect => 3,
            Input::ButtonUp => 4,
            Input::ButtonDown => 5,
            Input::ButtonLeft => 6,
            Input::ButtonRight => 7,
            Input::Pause => 8,
            Input::VolumeUp => 9,
            Input::VolumeDown => 10,
        }
    }

    pub fn at(i: usize) -> (input: Input)
        requires
            i < INPUTS,
        ensures
            input == Input::spec_at(i as int),
            input.spec_index() == i,
    {
        if i == 0 {
            Input::ButtonA
        } else if i == 1 {
            Input::ButtonB
        } else if i == 2 {
            Input::ButtonStart
        } else if i == 3 {
            Input::ButtonSelect
        } else if i == 4 {
            Input::ButtonUp
        } else if i == 5 {
            Input::ButtonDown
        } else if i == 6 {
            Input::ButtonLeft
        } else if i == 7 {
            Input::ButtonRight
        } else if i == 8 {
            Input::Pause
        } else if i == 9 {
            Input::VolumeUp
        } else {
            Input::VolumeDown
        }
    }

    /// The button of the controller that the input stands for.
    pub fn button_mask(self) -> (mask: Option<u8>)
        ensures
            mask == self.button(),
    {
        match self {
            Input::ButtonA => Some(ControllerState::A),
            Input::ButtonB => Some(ControllerState::B),
            Input::ButtonStart => Some(ControllerState::START),
            Input::ButtonSelect => Some(ControllerState::SELECT),
            Input::ButtonUp => Some(ControllerState::UP),
            Input::ButtonDown => Some(ControllerState::DOWN),
            Input::ButtonLeft => Some(ControllerState::LEFT),
            Input::ButtonRight => Some(ControllerState::RIGHT),
            _ => None,
        }
    }

    pub fn msg_on_press(self) -> (msg: Option<Message>)
        ensures
            msg == self.on_press(),
    {
        match self.button_mask() {
            Some(mask) => Some(
                Message::ControllerButtonPressed(ControllerState::from_bits_truncate(mask)),
            ),
            None => match self {
                Input::Pause => Some(Message::TogglePause),
                Input::VolumeUp => Some(Message::VolumeChange(VOLUME_STEP)),
                _ => Some(Message::VolumeChange(-VOLUME_STEP)),
            },
        }
    }

    pub fn msg_on_release(self) -> (msg: Option<Message>)
        ensures
            msg == self.on_release(),
    {
        match self.button_mask() {
            Some(mask) => Some(
                Message::ControllerButtonReleased(ControllerState::from_bits_truncate(mask)),
            ),
            None => None,
        }
    }
}

/// An input, the key that it is bound to, and whether another input is
/// bound to that key too.
#[derive(Debug, Clone, Copy, PartialEq, Eq, Structural)]
pub struct KeyMap {
    pub input: Input,
    pub key: Option<Key>,
    pub is_duplicate: bool,
}

/// The key bindings: for each input the key that it is bound to, if any.
/// This is what the user sees on the input configuration screen.
#[derive(Debug, Clone, Copy)]
pub struct InputHandler {
    pub forward_map: [Option<Key>; 11],
}

/// How many of the first `n` inputs are bound to `key`.
pub open spec fn bound_among(map: [Option<Key>; 11], key: Key, n: nat) -> nat
    decreases n,
{
    if n == 0 {
        0
    } else {
        bound_among(map, key, (n - 1) as nat) + if map[n - 1] == Some(key) {
            1nat
        } else {
            0nat
        }
    }
}

/// The bindings once each pair of `pairs` has been bound in turn.
pub open spec fn bound_all(map: [Option<Key>; 11], pairs: Seq<(Input, Key)>) -> [Option<Key>; 11]
    decreases pairs.len(),
{
    if pairs.len() == 0 {
        map
    } else {
        let (input, key) = pairs.last();
        stored(bound_all(map, pairs.drop_last()), input.spec_index(), Some(key))
    }
}

/// What the count of the inputs bound to a key says: it is zero where none
/// of them is bound to it, and two or more where two of them are.
pub proof fn lemma_bound_among(map: [Option<Key>; 11], key: Key, n: nat)
    requires
        n <= INPUTS,
    ensures
        bound_among(map, key, n) <= n,
        bound_among(map, key, n) == 0 <==> forall|j: int| 0 <= j < n ==> map[j] != Some(key),
        forall|j: int, k: int|
            0 <= j < k < n && map[j] == Some(key) && map[k] == Some(key) ==> bound_among(
                map,
                key,
                n,
            ) >= 2,
    decreases n,
{
    if n > 0 {
        lemma_bound_among(map, key, (n - 1) as nat);
    }
}

/// Where the count is two or more, two inputs are bound to the key.
proof fn lemma_two_bound(map: [Option<Key>; 11], key: Key, n: nat)
    requires
        n <= INPUTS,
        bound_among(map, key, n) >= 2,
    ensures
        exists|j: int, k: int| 0 <= j < k < n && map[j] == Some(key) && map[k] == Some(key),
    decreases n,
{
    if n > 0 {
        if bound_among(map, key, (n - 1) as nat) >= 2 {
            lemma_two_bound(map, key, (n - 1) as nat);
            let (j, k) = choose|j: int, k: int|
                0 <= j < k < n - 1 && map[j] == Some(key) && map[k] == Some(key);
            assert(0 <= j < k < n && map[j] == Some(key) && map[k] == Some(key));
        } else {
            lemma_bound_among(map, key, (n - 1) as nat);
            let j = choose|j: int| 0 <= j < n - 1 && map[j] == Some(key);
            assert(0 <= j < n - 1 < n && map[j] == Some(key) && map[n - 1] == Some(key));
        }
    }
}

impl InputHandler {
    /// A key means an input where that input is bound to it and no other
    /// is.
    pub proof fn lemma_translation(self, key: Key, input: Input)
        ensures
            self.translated(key) == Some(input) <==> self.forward_map[input.spec_index()] == Some(
                key,
            ) && forall|j: int|
                0 <= j < INPUTS && j != input.spec_index() ==> self.forward_map[j] != Some(key),
    {
        lemma_bound_among(self.forward_map, key, INPUTS as nat);
        let at = input.spec_index();
        assert(Input::spec_at(at) == input);
        if self.bound_to(key) == 1 {
            let chosen = choose|i: int| 0 <= i < INPUTS && self.forward_map[i] == Some(key);
            assert(Input::spec_at(chosen).spec_index() == chosen);
            if self.forward_map[at] == Some(key) && chosen != at {
                assert(self.forward_map[chosen] == Some(key));
                assert(bound_among(self.forward_map, key, INPUTS as nat) >= 2);
            }
        } else if self.bound_to(key) == 0 {
        } else {
            lemma_two_bound(self.forward_map, key, INPUTS as nat);
        }
    }

    /// Once an input is bound to a key that no other input has, the key
    /// means that input; bound to a key that another input has, the key
    /// means nothing, and the configuration screen marks both.
    pub proof fn lemma_binding(self, input: Input, key: Key, other: Input)
        requires
            other != input,
        ensures
            ({
                let next = InputHandler {
                    forward_map: stored(self.forward_map, input.spec_index(), Some(key)),
                };
                &&& self.bound_to(key) == 0 ==> next.translated(key) == Some(input)
                &&& self.forward_map[other.spec_index()] == Some(key) ==> {
                    &&& next.translated(key) is None
                    &&& next.keymap_of(input).is_duplicate
                    &&& next.keymap_of(other).is_duplicate
                }
            }),
    {
        let next = InputHandler {
            forward_map: stored(self.forward_map, input.spec_index(), Some(key)),
        };
        lemma_bound_among(self.forward_map, key, INPUTS as nat);
        lemma_bound_among(next.forward_map, key, INPUTS as nat);
        assert forall|j: int| 0 <= j < INPUTS implies next.forward_map[j] == if j
            == input.spec_index() {
            Some(key)
        } else {
            self.forward_map[j]
        } by {
            lemma_array_contents(self.forward_map, None, input.spec_index(), Some(key), j);
        }
        next.lemma_translation(key, input);
        if self.forward_map[other.spec_index()] == Some(key) {
            let a = input.spec_index();
            let b = other.spec_index();
            assert(next.forward_map[a] == Some(key));
            assert(next.forward_map[b] == Some(key));
            assert(Input::spec_at(a) == input && Input::spec_at(b) == other);
            assert(a != b);
            assert(next.bound_to(key) >= 2);
        }
    }

    /// How many inputs are bound to `key`.
    pub open spec fn bound_to(self, key: Key) -> nat {
        bound_among(self.forward_map, key, INPUTS as nat)
    }

    /// The input that a key means: the one bound to it, where exactly one
    /// is. A key that several inputs share means nothing.
    pub open spec fn translated(self, key: Key) -> Option<Input> {
        if self.bound_to(key) == 1 {
            Some(
                Input::spec_at(
                    choose|i: int| 0 <= i < INPUTS && self.forward_map[i] == Some(key),
                ),
            )
        } else {
            None
        }
    }

    /// The line of the configuration screen for `input`.
    pub open spec fn keymap_of(self, input: Input) -> KeyMap {
        let key = self.forward_map[input.spec_index()];
        KeyMap {
            input,
            key,
            is_duplicate: match key {
                Some(k) => self.bound_to(k) >= 2,
                None => false,
            },
        }
    }

    /// Bindings in which no input has a key.
    pub fn new() -> (h: Self)
        ensures
            h.forward_map == filled::<Option<Key>, 11>(None),
    {
        InputHandler { forward_map: [None; 11] }
    }

    /// Binds each input of `keymaps` to its key, in turn: of two pairs for
    /// one input the later stands.
    pub fn from_keymaps(keymaps: &[(Input, Key)]) -> (h: Self)
        ensures
            h.forward_map == bound_all(filled::<Option<Key>, 11>(None), keymaps@),
    {
        let mut h = InputHandler::new();
        let mut i: usize = 0;
        while i < keymaps.len()
            invariant
                i <= keymaps.len(),
                h.forward_map == bound_all(filled::<Option<Key>, 11>(None), keymaps@.take(i as int)),
            decreases keymaps.len() - i,
        {
            let (input, key) = keymaps[i];
            proof {
                assert(keymaps@.take(i + 1).drop_last() == keymaps@.take(i as int));
            }
            h.bind_input(input, key);
            i += 1;
        }
        proof {
            assert(keymaps@.take(keymaps.len() as int) == keymaps@);
        }
        h
    }

    /// Binds `input` to `key`, in place of the key that it had.
    pub fn bind_input(&mut self, input: Input, key: Key)
        ensures
            final(self).forward_map == stored(
                old(self).forward_map,
                input.spec_index(),
                Some(key),
            ),
    {
        self.forward_map[input.index()] = Some(key);
    }

    /// Leaves `input` without a key.
    pub fn unbind_input(&mut self, input: Input)
        ensures
            final(self).forward_map == stored(old(self).forward_map, input.spec_index(), None),
    {
        self.forward_map[input.index()] = None;
    }

    /// How many inputs are bound to `key`.
    pub fn count_bound(&self, key: Key) -> (n: usize)
        ensures
            n == self.bound_to(key),
            n <= INPUTS,
    {
        let mut n: usize = 0;
        let mut i: usize = 0;
        while i < INPUTS
            invariant
                i <= INPUTS,
                n <= i,
                n == bound_among(self.forward_map, key, i as nat),
            decreases INPUTS - i,
        {
            if self.forward_map[i] == Some(key) {
                n += 1;
            }
            i += 1;
        }
        n
    }

    /// The input that `key` means.
    pub fn translate_keypresses(&self, key: Key) -> (input: Option<Input>)
        ensures
            input == self.translated(key),
            input matches Some(found) ==> self.forward_map[found.spec_index()] == Some(key),
    {
        let mut found: Option<Input> = None;
        let mut n: usize = 0;
        let mut i: usize = 0;
        while i < INPUTS
            invariant
                i <= INPUTS,
                n <= i,
                n == bound_among(self.forward_map, key, i as nat),
                n == 0 ==> found is None,
                n == 1 ==> found is Some && found->0.spec_index() < i && self.forward_map[found->0.spec_index()]
                    == Some(key),
                forall|j: int|
                    0 <= j < i && self.forward_map[j] == Some(key) ==> n >= 1 && (n == 1
                        ==> found->0.spec_index() == j),
            decreases INPUTS - i,
        {
            if self.forward_map[i] == Some(key) {
                n += 1;
                found = Some(Input::at(i));
            }
            i += 1;
        }
        if n == 1 {
            proof {
                let chosen = choose|i: int| 0 <= i < INPUTS && self.forward_map[i] == Some(key);
                assert(self.forward_map[found->0.spec_index()] == Some(key));
                assert(chosen == found->0.spec_index());
            }
            found
        } else {
            None
        }
    }

    /// The lines of the configuration screen, one for each input, in the
    /// order of the list of inputs.
    pub fn keymaps(&self) -> (lines: Vec<KeyMap>)
        ensures
            lines@.len() == INPUTS,
            forall|i: int| 0 <= i < INPUTS ==> lines@[i] == self.keymap_of(Input::spec_at(i)),
    {
        let mut lines: Vec<KeyMap> = Vec::new();
        let mut i: usize = 0;
        while i < INPUTS
            invariant
                i <= INPUTS,
                lines@.len() == i,
                forall|j: int| 0 <= j < i ==> lines@[j] == self.keymap_of(Input::spec_at(j)),
            decreases INPUTS - i,
        {
            let input = Input::at(i);
            let key = self.forward_map[i];
            let is_duplicate = match key {
                Some(k) => self.count_bound(k) >= 2,
                None => false,
            };
            lines.push(KeyMap { input, key, is_duplicate });
            i += 1;
        }
        lines
    }
}

} // verus!
