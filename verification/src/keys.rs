//! The keys that components react to, apart from those they hand to a text field.
use vstd::prelude::*;

verus! {

/// A key, as far as the components tell keys apart.
#[derive(Clone, Copy, Debug, PartialEq, Eq, Structural)]
pub enum KeyInput {
    Up,
    BackTab,
    Left,
    Down,
    Tab,
    Right,
    Esc,
    Enter,
    Backspace,
    /// Any other key, which goes to the text field being edited.
    Other,
}

} // verus!
