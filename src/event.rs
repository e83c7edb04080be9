use vstd::prelude::*;

verus! {

/// A key of the keyboard, as far as the dialog tells keys apart.
#[derive(Clone, Copy, Debug, PartialEq, Eq, Structural)]
pub enum KeyCode {
    Esc,
    Enter,
    Backspace,
    Char(char),
    /// Any other key (arrows, function keys, tab, ...).
    Other,
}

/// An input event delivered by the host's event loop.
#[derive(Clone, Copy, Debug, PartialEq, Eq, Structural)]
pub enum Event {
    /// A key press.
    Key(KeyCode),
    /// Anything that is not a key press (a resize, a mouse event, ...).
    Other,
}

} // verus!
