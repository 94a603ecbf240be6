use vstd::prelude::*;

verus! {

/// A keyboard key, as far as the program tells keys apart.
#[derive(Clone, Copy, Debug, PartialEq, Eq, Structural)]
pub enum Key {
    Escape,
    Other,
}

/// What happened to a key.
#[derive(Clone, Copy, Debug, PartialEq, Eq, Structural)]
pub enum KeyAction {
    Press,
    Release,
    Repeat,
}

/// Whether a key event asks for the window to close: exactly a press of
/// Escape.
pub fn requests_close(key: Key, action: KeyAction) -> (r: bool)
    ensures
        r == (key == Key::Escape && action == KeyAction::Press),
{
    match (key, action) {
        (Key::Escape, KeyAction::Press) => true,
        _ => false,
    }
}

} // verus!
