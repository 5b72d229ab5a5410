use vstd::prelude::*;

verus! {

/// Number of logical key roles that the bridge registers with the UI session.
pub const KEY_ROLE_COUNT: usize = 19;

/// Logical key roles of the UI library that the bridge maps to native keys.
#[derive(Clone, Copy, Debug, PartialEq, Eq, Structural)]
pub enum KeyRole {
    Tab,
    LeftArrow,
    RightArrow,
    UpArrow,
    DownArrow,
    PageUp,
    PageDown,
    Home,
    End,
    Delete,
    Backspace,
    Enter,
    Escape,
    A,
    C,
    V,
    X,
    Y,
    Z,
}

/// The window system's key code for each role.
pub open spec fn spec_native_key(role: KeyRole) -> i32 {
    match role {
        KeyRole::Tab => 258,
        KeyRole::LeftArrow => 263,
        KeyRole::RightArrow => 262,
        KeyRole::UpArrow => 265,
        KeyRole::DownArrow => 264,
        KeyRole::PageUp => 266,
        KeyRole::PageDown => 267,
        KeyRole::Home => 268,
        KeyRole::End => 269,
        KeyRole::Delete => 261,
        KeyRole::Backspace => 259,
        KeyRole::Enter => 257,
        KeyRole::Escape => 256,
        KeyRole::A => 65,
        KeyRole::C => 67,
        KeyRole::V => 86,
        KeyRole::X => 88,
        KeyRole::Y => 89,
        KeyRole::Z => 90,
    }
}

/// Position of a role in the UI session's key table.
pub open spec fn spec_role_index(role: KeyRole) -> int {
    match role {
        KeyRole::Tab => 0,
        KeyRole::LeftArrow => 1,
        KeyRole::RightArrow => 2,
        KeyRole::UpArrow => 3,
        KeyRole::DownArrow => 4,
        KeyRole::PageUp => 5,
        KeyRole::PageDown => 6,
        KeyRole::Home => 7,
        KeyRole::End => 8,
        KeyRole::Delete => 9,
        KeyRole::Backspace => 10,
        KeyRole::Enter => 11,
        KeyRole::Escape => 12,
        KeyRole::A => 13,
        KeyRole::C => 14,
        KeyRole::V => 15,
        KeyRole::X => 16,
        KeyRole::Y => 17,
        KeyRole::Z => 18,
    }
}

/// Slot of the UI session's key-down table that a native key code or scancode
/// lands in: its low byte.
pub open spec fn spec_key_slot(code: i32) -> int {
    code as int % 256
}

/// The window system's key code for `role`.
pub fn native_key(role: KeyRole) -> (r: i32)
    ensures
        r == spec_native_key(role),
{
    match role {
        KeyRole::Tab => 258,
        KeyRole::LeftArrow => 263,
        KeyRole::RightArrow => 262,
        KeyRole::UpArrow => 265,
        KeyRole::DownArrow => 264,
        KeyRole::PageUp => 266,
        KeyRole::PageDown => 267,
        KeyRole::Home => 268,
        KeyRole::End => 269,
        KeyRole::Delete => 261,
        KeyRole::Backspace => 259,
        KeyRole::Enter => 257,
        KeyRole::Escape => 256,
        KeyRole::A => 65,
        KeyRole::C => 67,
        KeyRole::V => 86,
        KeyRole::X => 88,
        KeyRole::Y => 89,
        KeyRole::Z => 90,
    }
}

impl KeyRole {
    /// Position of this role in the UI session's key table.
    pub fn index(&self) -> (r: usize)
        ensures
            r == spec_role_index(*self),
            r < KEY_ROLE_COUNT,
    {
        match self {
            KeyRole::Tab => 0,
            KeyRole::LeftArrow => 1,
            KeyRole::RightArrow => 2,
            KeyRole::UpArrow => 3,
            KeyRole::DownArrow => 4,
            KeyRole::PageUp => 5,
            KeyRole::PageDown => 6,
            KeyRole::Home => 7,
            KeyRole::End => 8,
            KeyRole::Delete => 9,
            KeyRole::Backspace => 10,
            KeyRole::Enter => 11,
            KeyRole::Escape => 12,
            KeyRole::A => 13,
            KeyRole::C => 14,
            KeyRole::V => 15,
            KeyRole::X => 16,
            KeyRole::Y => 17,
            KeyRole::Z => 18,
        }
    }
}

/// The low byte of a native key code or scancode, as the UI session indexes its
/// key-down table.
pub fn key_slot(code: i32) -> (r: u8)
    ensures
        r as int == spec_key_slot(code),
{
    let m: i32 = code % 256;
    if m < 0 {
        (m + 256) as u8
    } else {
        m as u8
    }
}

} // verus!
