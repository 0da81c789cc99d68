use crate::controller::ControllerState;
use vstd::prelude::*;

verus! {

/// A button of the controller, as a page in a browser names it.
#[derive(Debug, Clone, Copy, PartialEq, Eq, Structural)]
pub enum Button {
    A,
    B,
    Up,
    Down,
    Left,
    Right,
    Start,
    Select,
}

/// The small letter of a capital letter of the alphabet; any other
/// character as it is.
pub open spec fn lowered(c: char) -> char {
    if 'A' <= c <= 'Z' {
        ((c as u8) + 32) as char
    } else {
        c
    }
}

/// Whether `text` reads `name` when its capital letters are taken for
/// small ones.
pub open spec fn reads(text: Seq<char>, name: Seq<char>) -> bool {
    text.len() == name.len() && forall|i: int|
        0 <= i < text.len() ==> lowered(#[trigger] text[i]) == name[i]
}

impl Button {
    /// The name of the button.
    pub open spec fn spec_name(self) -> Seq<char> {
        match self {
            Button::A => "A"@,
            Button::B => "B"@,
            Button::Start => "Start"@,
            Button::Select => "Select"@,
            Button::Left => "Left"@,
            Button::Right => "Right"@,
            Button::Up => "Up"@,
            Button::Down => "Down"@,
        }
    }

    /// The bit of the controller that stands for the button.
    pub open spec fn mask(self) -> u8 {
        match self {
            Button::A => ControllerState::A,
            Button::B => ControllerState::B,
            Button::Start => ControllerState::START,
            Button::Select => ControllerState::SELECT,
            Button::Left => ControllerState::LEFT,
            Button::Right => ControllerState::RIGHT,
            Button::Up => ControllerState::UP,
            Button::Down => ControllerState::DOWN,
        }
    }

    /// The button that `text` names, in letters of either case.
    pub open spec fn named(text: Seq<char>) -> Option<Button> {
        if reads(text, "a"@) {
            Some(Button::A)
        } else if reads(text, "b"@) {
            Some(Button::B)
        } else if reads(text, "start"@) {
            Some(Button::Start)
        } else if reads(text, "select"@) {
            Some(Button::Select)
        } else if reads(text, "left"@) {
            Some(Button::Left)
        } else if reads(text, "right"@) {
            Some(Button::Right)
        } else if reads(text, "up"@) {
            Some(Button::Up)
        } else if reads(text, "down"@) {
            Some(Button::Down)
        } else {
            None
        }
    }

    pub fn name(self) -> (text: &'static str)
        ensures
            text@ == self.spec_name(),
    {
        match self {
            Button::A => "A",
            Button::B => "B",
            Button::Start => "Start",
            Button::Select => "Select",
            Button::Left => "Left",
            Button::Right => "Right",
            Button::Up => "Up",
            Button::Down => "Down",
        }
    }

    /// The button as the controller holds it.
    pub fn buttons(self) -> (state: ControllerState)
        ensures
            state.bits == self.mask(),
    {
        let bits = match self {
            Button::A => ControllerState::A,
            Button::B => ControllerState::B,
            Button::Start => ControllerState::START,
            Button::Select => ControllerState::SELECT,
            Button::Left => ControllerState::LEFT,
            Button::Right => ControllerState::RIGHT,
            Button::Up => ControllerState::UP,
            Button::Down => ControllerState::DOWN,
        };
        ControllerState::from_bits_truncate(bits)
    }

    /// The button that `text` names, if it names one.
    pub fn from_name(text: &str) -> (button: Option<Button>)
        ensures
            button == Button::named(text@),
    {
        if reads_name(text, "a") {
            Some(Button::A)
        } else if reads_name(text, "b") {
            Some(Button::B)
        } else if reads_name(text, "start") {
            Some(Button::Start)
        } else if reads_name(text, "select") {
            Some(Button::Select)
        } else if reads_name(text, "left") {
            Some(Button::Left)
        } else if reads_name(text, "right") {
            Some(Button::Right)
        } else if reads_name(text, "up") {
            Some(Button::Up)
        } else if reads_name(text, "down") {
            Some(Button::Down)
        } else {
            None
        }
    }

    /// Every button is found again by its name, whatever the case of its
    /// letters.
    pub proof fn lemma_found_by_name(self)
        ensures
            Button::named(self.spec_name()) == Some(self),
    {
        reveal_strlit("A");
        reveal_strlit("B");
        reveal_strlit("Start");
        reveal_strlit("Select");
        reveal_strlit("Left");
        reveal_strlit("Right");
        reveal_strlit("Up");
        reveal_strlit("Down");
        reveal_strlit("a");
        reveal_strlit("b");
        reveal_strlit("start");
        reveal_strlit("select");
        reveal_strlit("left");
        reveal_strlit("right");
        reveal_strlit("up");
        reveal_strlit("down");
        let text = self.spec_name();
        assert(lowered('A') == 'a' && lowered('B') == 'b' && lowered('S') == 's' && lowered('L')
            == 'l' && lowered('R') == 'r' && lowered('U') == 'u' && lowered('D') == 'd');
        assert(lowered(text[0]) != 'a' ==> !reads(text, "a"@));
        assert(lowered(text[0]) != 'b' ==> !reads(text, "b"@));
        assert(text.len() == 5 && lowered(text[0]) != 's' ==> !reads(text, "start"@));
        assert(text.len() == 5 && lowered(text[0]) != 'r' ==> !reads(text, "right"@));
        assert(text.len() == 4 && lowered(text[0]) != 'l' ==> !reads(text, "left"@));
        assert(text.len() == 4 && lowered(text[0]) != 'd' ==> !reads(text, "down"@));
    }
}

/// The small letter of a capital letter.
pub fn lower(c: char) -> (l: char)
    ensures
        l == lowered(c),
{
    if 'A' <= c && c <= 'Z' {
        ((c as u8) + 32) as char
    } else {
        c
    }
}

/// Whether `text` reads `name` when its capital letters are taken for small
/// ones.
pub fn reads_name(text: &str, name: &str) -> (b: bool)
    ensures
        b == reads(text@, name@),
{
    let n = name.unicode_len();
    if text.unicode_len() != n {
        return false;
    }
    let mut i: usize = 0;
    while i < n
        invariant
            i <= n,
            n == name@.len(),
            n == text@.len(),
            forall|j: int| 0 <= j < i ==> lowered(#[trigger] text@[j]) == name@[j],
        decreases n - i,
    {
        if lower(text.get_char(i)) != name.get_char(i) {
            assert(lowered(text@[i as int]) != name@[i as int]);
            return false;
        }
        i += 1;
    }
    true
}

} // verus!
