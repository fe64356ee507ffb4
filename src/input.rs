use vstd::prelude::*;

verus! {

/// An abstract input action, decoded from a key press.
#[derive(Clone, Copy, Debug, PartialEq, Eq, Structural)]
pub enum Action {
    Up,
    Down,
    Enter,
    Esc,
    Backspace,
    Save,
    Char(char),
}

/// A key as the terminal reports it, before it is given a meaning.
#[derive(Clone, Copy, Debug, PartialEq, Eq, Structural)]
pub enum Key {
    Up,
    Down,
    Enter,
    Esc,
    Backspace,
    Char(char),
    Other,
}

/// The action a key stands for: with Control held only Ctrl+X (save) counts;
/// otherwise each named key maps to its action and any other key to none.
pub open spec fn spec_action_for_key(key: Key, control: bool) -> Option<Action> {
    if control {
        if key == Key::Char('x') {
            Some(Action::Save)
        } else {
            None
        }
    } else {
        match key {
            Key::Up => Some(Action::Up),
            Key::Down => Some(Action::Down),
            Key::Enter => Some(Action::Enter),
            Key::Esc => Some(Action::Esc),
            Key::Backspace => Some(Action::Backspace),
            Key::Char(c) => Some(Action::Char(c)),
            Key::Other => None,
        }
    }
}

/// Decodes a key press into an action, if it has one.
pub fn action_for_key(key: Key, control: bool) -> (r: Option<Action>)
    ensures
        r == spec_action_for_key(key, control),
{
    if control {
        return match key {
            Key::Char('x') => Some(Action::Save),
            _ => None,
        };
    }
    match key {
        Key::Up => Some(Action::Up),
        Key::Down => Some(Action::Down),
        Key::Enter => Some(Action::Enter),
        Key::Esc => Some(Action::Esc),
        Key::Backspace => Some(Action::Backspace),
        Key::Char(c) => Some(Action::Char(c)),
        Key::Other => None,
    }
}

} // verus!
