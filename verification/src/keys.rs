//! Key codes and modifier bit-sets carried by keyboard events.

use vstd::prelude::*;

verus! {

/// Bit for the shift modifier.
pub const SHIFT: u8 = 1;
/// Bit for the control modifier.
pub const CONTROL: u8 = 2;
/// Bit for the alt modifier.
pub const ALT: u8 = 4;
/// Bit for the super modifier.
pub const SUPER: u8 = 8;
/// Bit for the hyper modifier.
pub const HYPER: u8 = 16;
/// Bit for the meta modifier.
pub const META: u8 = 32;

/// A bit-set over the six keyboard modifiers. The all-zero value is the
/// identity of bitwise union.
#[derive(Clone, Copy, PartialEq, Eq, Hash, Debug, Structural)]
pub struct Modifiers {
    pub bits: u8,
}

impl Modifiers {
    /// The empty modifier set.
    pub fn none() -> (r: Modifiers)
        ensures
            r.bits == 0,
    {
        Modifiers { bits: 0 }
    }

    /// Bitwise union of two modifier sets.
    pub fn union(self, other: Modifiers) -> (r: Modifiers)
        ensures
            r.bits == self.bits | other.bits,
    {
        Modifiers { bits: self.bits | other.bits }
    }
}

/// A symbolic key, together with `Char` for plain ASCII characters.
#[derive(Clone, Copy, PartialEq, Eq, Hash, Debug, Structural)]
pub enum KeyCode {
    Backspace,
    Enter,
    Left,
    Right,
    Up,
    Down,
    Home,
    End,
    PageUp,
    PageDown,
    Tab,
    BackTab,
    Delete,
    Insert,
    Null,
    Esc,
    /// A function key; the parser only produces `F(1)` through `F(12)`.
    F(u8),
    /// A single character; the parser only produces ASCII characters.
    Char(char),
}

/// The key codes the chord parser can produce: function keys `f1..f12` and
/// ASCII characters only.
pub open spec fn key_code_wf(k: KeyCode) -> bool {
    match k {
        KeyCode::F(n) => 1 <= n <= 12,
        KeyCode::Char(c) => (c as u32) <= 127,
        _ => true,
    }
}

} // verus!
