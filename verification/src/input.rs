//! Key presses and mouse events, as far as the browser tells them apart.

use vstd::prelude::*;

verus! {

/// The key that was pressed.
#[derive(Clone, Copy, Debug, PartialEq, Eq, Structural)]
pub enum KeyCode {
    Char(char),
    Enter,
    Esc,
    Backspace,
    Tab,
    BackTab,
    Up,
    Down,
    Left,
    Right,
    /// Any key that has no binding.
    Other,
}

/// A key press with the modifiers held.
#[derive(Clone, Copy, Debug, PartialEq, Eq, Structural)]
pub struct KeyInput {
    pub code: KeyCode,
    pub shift: bool,
    pub control: bool,
    pub alt: bool,
}

/// A mouse event.
#[derive(Clone, Copy, Debug, PartialEq, Eq, Structural)]
pub enum MouseInput {
    ScrollDown,
    ScrollUp,
    /// Any event that has no binding.
    Other,
}

impl KeyInput {
    /// The key `code` with no modifier held.
    pub fn plain(code: KeyCode) -> (r: KeyInput)
        ensures
            r == (KeyInput { code, shift: false, control: false, alt: false }),
    {
        KeyInput { code, shift: false, control: false, alt: false }
    }

    /// Whether the key is the character `c`.
    pub open spec fn is_char(self, c: char) -> bool {
        self.code == KeyCode::Char(c)
    }

    /// Whether the key is the character `c`.
    pub fn has_char(&self, c: char) -> (r: bool)
        ensures
            r == self.is_char(c),
    {
        match self.code {
            KeyCode::Char(x) => x == c,
            _ => false,
        }
    }
}

/// Where a selection stands after one step down a list of `len` entries:
/// one further, but never past the last entry.
pub open spec fn stepped_down(index: usize, len: nat) -> usize {
    if len == 0 {
        index
    } else if index + 1 < len {
        (index + 1) as usize
    } else {
        (len - 1) as usize
    }
}

/// Where a selection stands after one step up: one nearer to the first entry.
pub open spec fn stepped_up(index: usize) -> usize {
    if index > 0 {
        (index - 1) as usize
    } else {
        0
    }
}

/// The entry of a list of `len` entries that is nearest to `index`.
pub open spec fn clamped(index: usize, len: nat) -> usize {
    if index < len {
        index
    } else if len == 0 {
        0
    } else {
        (len - 1) as usize
    }
}

/// Whether a selection stands on an entry of a list of `len` entries, or at
/// 0 where the list is empty.
pub open spec fn in_range(index: usize, len: nat) -> bool {
    index < len || (len == 0 && index == 0)
}

/// One step down a list of `len` entries.
pub fn step_down(index: usize, len: usize) -> (r: usize)
    ensures
        r == stepped_down(index, len as nat),
        in_range(index, len as nat) ==> in_range(r, len as nat),
{
    if len == 0 {
        index
    } else if index < len - 1 {
        index + 1
    } else {
        len - 1
    }
}

/// One step up a list.
pub fn step_up(index: usize) -> (r: usize)
    ensures
        r == stepped_up(index),
{
    if index > 0 {
        index - 1
    } else {
        0
    }
}

/// The entry of a list of `len` entries that is nearest to `index`.
pub fn clamp(index: usize, len: usize) -> (r: usize)
    ensures
        r == clamped(index, len as nat),
        in_range(r, len as nat),
{
    if index < len {
        index
    } else if len == 0 {
        0
    } else {
        len - 1
    }
}

} // verus!
