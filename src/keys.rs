use vstd::prelude::*;

verus! {

/// What a key pressed at the teleoperation console asks for.
#[derive(Clone, Copy, Debug, PartialEq, Eq, Structural)]
pub enum KeyAction {
    Up,
    Down,
    Left,
    Right,
    Quit,
    Ignore,
}

pub open spec fn spec_key_action(c: char) -> KeyAction {
    if c == 'w' {
        KeyAction::Up
    } else if c == 's' {
        KeyAction::Down
    } else if c == 'a' {
        KeyAction::Left
    } else if c == 'd' {
        KeyAction::Right
    } else if c == 'q' {
        KeyAction::Quit
    } else {
        KeyAction::Ignore
    }
}

/// The action bound to a character key: `w`, `s`, `a`, `d` steer, `q` quits,
/// every other key is ignored.
pub fn key_action(c: char) -> (r: KeyAction)
    ensures
        r == spec_key_action(c),
{
    if c == 'w' {
        KeyAction::Up
    } else if c == 's' {
        KeyAction::Down
    } else if c == 'a' {
        KeyAction::Left
    } else if c == 'd' {
        KeyAction::Right
    } else if c == 'q' {
        KeyAction::Quit
    } else {
        KeyAction::Ignore
    }
}

impl KeyAction {
    /// The word echoed to the console for the action; empty for an ignored key.
    pub fn label(&self) -> (r: &'static str)
        ensures
            r@ == match *self {
                KeyAction::Up => "Up"@,
                KeyAction::Down => "Down"@,
                KeyAction::Left => "Left"@,
                KeyAction::Right => "Right"@,
                KeyAction::Quit => "Quit"@,
                KeyAction::Ignore => Seq::<char>::empty(),
            },
    {
        proof {
            reveal_strlit("");
        }
        match self {
            KeyAction::Up => "Up",
            KeyAction::Down => "Down",
            KeyAction::Left => "Left",
            KeyAction::Right => "Right",
            KeyAction::Quit => "Quit",
            KeyAction::Ignore => "",
        }
    }
}

} // verus!
