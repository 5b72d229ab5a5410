use vstd::prelude::*;

verus! {

/// Bit of the modifier set held by either Shift key.
pub const MOD_SHIFT: i32 = 1;

/// Bit of the modifier set held by either Control key.
pub const MOD_CONTROL: i32 = 2;

/// Bit of the modifier set held by either Alt key.
pub const MOD_ALT: i32 = 4;

/// Bit of the modifier set held by either Super (Windows / Command) key.
pub const MOD_SUPER: i32 = 8;

/// What happened to a key or a mouse button.
#[derive(Clone, Copy, Debug, PartialEq, Eq, Structural)]
pub enum Action {
    Release,
    Press,
    Repeat,
}

/// The window system's mouse buttons, in its own numbering.
#[derive(Clone, Copy, Debug, PartialEq, Eq, Structural)]
pub enum MouseButton {
    Button1,
    Button2,
    Button3,
    Button4,
    Button5,
    Button6,
    Button7,
    Button8,
}

/// A set of modifier flags, as the bits of the window system's modifier mask.
#[derive(Clone, Copy, Debug, PartialEq, Eq, Structural)]
pub struct Modifiers {
    pub bits: i32,
}

/// Whether the mask `bits` shares a bit with `flag`.
pub open spec fn has_flag(bits: i32, flag: i32) -> bool {
    bits & flag != 0
}

impl Modifiers {
    /// Whether this set and `other` have a flag in common.
    pub fn intersects(&self, other: Modifiers) -> (r: bool)
        ensures
            r == has_flag(self.bits, other.bits),
    {
        self.bits & other.bits != 0
    }
}

/// One raw input event of the window system.
///
/// Positions and offsets are IEEE-754 binary64 values, carried as their bit
/// patterns: the library only stores and forwards them.
#[derive(Clone, Copy, Debug, PartialEq, Eq, Structural)]
pub enum InputEvent {
    /// A mouse button changed state.
    MouseButton(MouseButton, Action, Modifiers),
    /// The cursor moved to `(x, y)` in window coordinates.
    CursorPos(u64, u64),
    /// The wheel or touchpad scrolled by a horizontal and a vertical offset.
    Scroll(u64, u64),
    /// A character was typed.
    Char(char),
    /// A key changed state: its key code, its scancode, the action and the modifiers.
    Key(i32, i32, Action, Modifiers),
    /// Any event that the bridge ignores.
    Other,
}

/// Slot of the UI session's button array that a window-system button drives;
/// buttons past the fifth fall back to the first slot.
pub open spec fn spec_button_index(b: MouseButton) -> int {
    match b {
        MouseButton::Button1 => 0,
        MouseButton::Button2 => 1,
        MouseButton::Button3 => 2,
        MouseButton::Button4 => 3,
        MouseButton::Button5 => 4,
        _ => 0,
    }
}

/// Slot of the UI session's button array for `b`.
pub fn button_index(b: MouseButton) -> (r: usize)
    ensures
        r == spec_button_index(b),
        r < 5,
{
    match b {
        MouseButton::Button1 => 0,
        MouseButton::Button2 => 1,
        MouseButton::Button3 => 2,
        MouseButton::Button4 => 3,
        MouseButton::Button5 => 4,
        _ => 0,
    }
}

} // verus!
