//! Input events, as far as the dispatcher reads them.

use vstd::prelude::*;

verus! {

/// The modifier mask of a key pressed with no modifier held.
pub const NONE: u8 = 0b0000_0000;

/// The bit of the shift key in a modifier mask.
pub const SHIFT: u8 = 0b0000_0001;

/// The bit of the control key in a modifier mask.
pub const CONTROL: u8 = 0b0000_0010;

/// The bit of the alt key in a modifier mask.
pub const ALT: u8 = 0b0000_0100;

/// The bit of the super key in a modifier mask.
pub const SUPER: u8 = 0b0000_1000;

/// The bit of the hyper key in a modifier mask.
pub const HYPER: u8 = 0b0001_0000;

/// The bit of the meta key in a modifier mask.
pub const META: u8 = 0b0010_0000;

/// Whether the character is printable: it is no control character, that is,
/// none of U+0000 to U+001F and none of U+007F to U+009F.
pub open spec fn printable(c: char) -> bool {
    !(c as u32 <= 0x1f) && !(0x7f <= c as u32 <= 0x9f)
}

/// Whether the character is printable.
pub fn is_printable(c: char) -> (b: bool)
    ensures
        b == printable(c),
{
    let code: u32 = c as u32;
    !(code <= 0x1f) && !(0x7f <= code && code <= 0x9f)
}

/// The key of a key event.
#[derive(Clone, Copy, Debug, PartialEq, Eq, Structural)]
pub enum KeyCode {
    Backspace,
    Enter,
    Left,
    Right,
    /// A character key.
    Char(char),
    /// Any other key.
    Other,
}

/// A key pressed, with the mask of the modifiers held with it.
#[derive(Clone, Copy, Debug, PartialEq, Eq, Structural)]
pub struct KeyEvent {
    pub code: KeyCode,
    pub modifiers: u8,
}

/// An input event.
#[derive(Clone, Copy, Debug, PartialEq, Eq, Structural)]
pub enum Event {
    Key(KeyEvent),
    /// An event of the mouse, of the window, or any other that is no key.
    Other,
}

} // verus!
