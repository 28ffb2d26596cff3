//! Key bindings: which key means which command.
use crate::model::NaviEvent;
use vstd::prelude::*;

verus! {

/// A key as the bindings see it.
#[derive(Clone, Copy, Debug, PartialEq, Eq, Structural)]
pub enum Key {
    /// A key that produces a character.
    Char(char),
    Esc,
    Tab,
    Up,
    Down,
    Left,
    Right,
    /// Any other key.
    Other,
}

/// What a key press asks for.
#[derive(Clone, Copy, Debug, PartialEq, Eq, Structural)]
pub enum KeyCommand {
    /// A navigation event for the state machine.
    Navigate(NaviEvent),
    /// The signal to leave, which is no navigation event.
    Exit,
    /// Nothing: the key is not bound.
    Ignored,
}

/// The bindings. `q` and Esc leave; Tab moves focus; an arrow key steps, and jumps
/// when Shift is held; every other key is ignored.
pub open spec fn binding(key: Key, shift: bool) -> KeyCommand {
    match key {
        Key::Char(c) => if c == 'q' {
            KeyCommand::Exit
        } else {
            KeyCommand::Ignored
        },
        Key::Esc => KeyCommand::Exit,
        Key::Tab => KeyCommand::Navigate(NaviEvent::Tab),
        Key::Down => KeyCommand::Navigate(
            if shift {
                NaviEvent::ShiftDown
            } else {
                NaviEvent::Down
            },
        ),
        Key::Up => KeyCommand::Navigate(
            if shift {
                NaviEvent::ShiftUp
            } else {
                NaviEvent::Up
            },
        ),
        Key::Right => KeyCommand::Navigate(
            if shift {
                NaviEvent::ShiftRight
            } else {
                NaviEvent::Right
            },
        ),
        Key::Left => KeyCommand::Navigate(
            if shift {
                NaviEvent::ShiftLeft
            } else {
                NaviEvent::Left
            },
        ),
        Key::Other => KeyCommand::Ignored,
    }
}

/// Translates one key press, with or without Shift, into its command. The answer
/// depends on this key press alone.
pub fn translate_key(key: Key, shift: bool) -> (command: KeyCommand)
    ensures
        command == binding(key, shift),
{
    match key {
        Key::Char(c) => {
            if c == 'q' {
                KeyCommand::Exit
            } else {
                KeyCommand::Ignored
            }
        },
        Key::Esc => KeyCommand::Exit,
        Key::Tab => KeyCommand::Navigate(NaviEvent::Tab),
        Key::Down => {
            if shift {
                KeyCommand::Navigate(NaviEvent::ShiftDown)
            } else {
                KeyCommand::Navigate(NaviEvent::Down)
            }
        },
        Key::Up => {
            if shift {
                KeyCommand::Navigate(NaviEvent::ShiftUp)
            } else {
                KeyCommand::Navigate(NaviEvent::Up)
            }
        },
        Key::Right => {
            if shift {
                KeyCommand::Navigate(NaviEvent::ShiftRight)
            } else {
                KeyCommand::Navigate(NaviEvent::Right)
            }
        },
        Key::Left => {
            if shift {
                KeyCommand::Navigate(NaviEvent::ShiftLeft)
            } else {
                KeyCommand::Navigate(NaviEvent::Left)
            }
        },
        Key::Other => KeyCommand::Ignored,
    }
}

/// A jump is bound to the same arrow key as its step, with Shift held, and no key
/// that is bound to a navigation event is bound to leaving.
pub proof fn lemma_shift_tells_jump_from_step(key: Key)
    requires
        key == Key::Up || key == Key::Down || key == Key::Left || key == Key::Right,
    ensures
        binding(key, true) != binding(key, false),
        binding(key, true) is Navigate,
        binding(key, false) is Navigate,
{
}

} // verus!
