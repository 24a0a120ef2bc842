//! What the event source delivers to the controller: key presses and ticks.

use vstd::prelude::*;

verus! {

/// Modifier bits of a key press with no modifier held.
pub const NO_MODIFIERS: u8 = 0;

/// Modifier bits of a key press with Control, and nothing else, held.
pub const CONTROL: u8 = 2;

/// The key of a key press, as far as the controller tells keys apart.
#[derive(Copy, Clone, Debug, PartialEq, Eq)]
pub enum KeyCode {
    /// The backspace key.
    Backspace,
    /// A key that produces a character.
    Char(char),
    /// Any other key.
    Other,
}

/// One key press: the key and the modifier bits held with it (Shift is bit 0,
/// Control bit 1, Alt bit 2).
#[derive(Copy, Clone, Debug, PartialEq, Eq)]
pub struct KeyEvent {
    pub code: KeyCode,
    pub modifiers: u8,
}

/// One item of the event stream.
#[derive(Copy, Clone, Debug, PartialEq, Eq)]
pub enum Event<I> {
    /// A key became available.
    Input(I),
    /// The tick interval has passed.
    Tick,
}

/// What the caller of the controller has to do after an event.
#[derive(Copy, Clone, Debug, PartialEq, Eq)]
pub enum Action {
    /// Go on with the next render pass.
    Continue,
    /// Restore the terminal and end the program with success.
    Quit,
}

} // verus!
