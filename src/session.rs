use vstd::prelude::*;

use crate::event::{has_flag, spec_button_index, Action, InputEvent, Modifiers, MOD_ALT, MOD_CONTROL, MOD_SHIFT, MOD_SUPER};
use crate::keymap::{spec_key_slot, KEY_ROLE_COUNT};

verus! {

/// The four modifier flags as the UI session reads them.
#[derive(Clone, Copy, Debug, PartialEq, Eq, Structural)]
pub struct KeyModifiers {
    pub ctrl: bool,
    pub alt: bool,
    pub shift: bool,
    pub super_: bool,
}

/// The input state that the bridge hands to one UI session, read by the
/// session once per frame.
///
/// Positions and wheel offsets are binary64 bit patterns, as in `InputEvent`.
pub struct UiInput {
    /// Down state of the session's five mouse buttons.
    pub mouse_down: [bool; 5],
    /// Pointer position, once a cursor move has been seen.
    pub mouse_pos: Option<(u64, u64)>,
    /// Vertical wheel offset of the latest scroll, if one came since it was last taken.
    pub mouse_wheel: Option<u64>,
    /// Down state per key slot (the low byte of a scancode).
    pub keys_down: [bool; 256],
    /// Modifier flags of the latest key event.
    pub modifiers: KeyModifiers,
    /// Typed characters, in order, not yet taken by the session.
    pub input_chars: Vec<char>,
    /// Native key slot registered for each logical key role, by role index.
    pub key_map: [Option<u8>; 19],
}

/// The modifier flags that a modifier mask stands for, each tested on its own.
pub open spec fn resolve_modifiers(m: Modifiers) -> KeyModifiers {
    KeyModifiers {
        ctrl: has_flag(m.bits, MOD_CONTROL),
        alt: has_flag(m.bits, MOD_ALT),
        shift: has_flag(m.bits, MOD_SHIFT),
        super_: has_flag(m.bits, MOD_SUPER),
    }
}

/// Button states after one event: a button event sets its slot to
/// "not released".
pub open spec fn press_step(p: Seq<bool>, e: InputEvent) -> Seq<bool> {
    match e {
        InputEvent::MouseButton(b, a, _) => p.update(spec_button_index(b), a != Action::Release),
        _ => p,
    }
}

/// Pointer position after one event.
pub open spec fn pos_step(p: Option<(u64, u64)>, e: InputEvent) -> Option<(u64, u64)> {
    match e {
        InputEvent::CursorPos(x, y) => Some((x, y)),
        _ => p,
    }
}

/// Wheel offset after one event: a scroll overwrites it with its vertical offset.
pub open spec fn wheel_step(w: Option<u64>, e: InputEvent) -> Option<u64> {
    match e {
        InputEvent::Scroll(_, y) => Some(y),
        _ => w,
    }
}

/// Pending characters after one event.
pub open spec fn chars_step(cs: Seq<char>, e: InputEvent) -> Seq<char> {
    match e {
        InputEvent::Char(c) => cs.push(c),
        _ => cs,
    }
}

/// Key-down table after one event: a key event sets the slot of its scancode.
pub open spec fn keys_step(k: Seq<bool>, e: InputEvent) -> Seq<bool> {
    match e {
        InputEvent::Key(_, scancode, a, _) => k.update(spec_key_slot(scancode), a != Action::Release),
        _ => k,
    }
}

/// Modifier flags after one event: a key event recomputes all four.
pub open spec fn mods_step(k: KeyModifiers, e: InputEvent) -> KeyModifiers {
    match e {
        InputEvent::Key(_, _, _, m) => resolve_modifiers(m),
        _ => k,
    }
}

impl UiInput {
    /// An input state in which nothing is pressed, typed, moved or registered.
    pub fn new() -> (r: UiInput)
        ensures
            forall|i: int| 0 <= i < 5 ==> !#[trigger] r.mouse_down@[i],
            r.mouse_pos is None,
            r.mouse_wheel is None,
            forall|i: int| 0 <= i < 256 ==> !#[trigger] r.keys_down@[i],
            r.modifiers == (KeyModifiers { ctrl: false, alt: false, shift: false, super_: false }),
            r.input_chars@ == Seq::<char>::empty(),
            forall|i: int| 0 <= i < KEY_ROLE_COUNT ==> #[trigger] r.key_map@[i] is None,
    {
        UiInput {
            mouse_down: [false; 5],
            mouse_pos: None,
            mouse_wheel: None,
            keys_down: [false; 256],
            modifiers: KeyModifiers { ctrl: false, alt: false, shift: false, super_: false },
            input_chars: Vec::new(),
            key_map: [None; 19],
        }
    }
}

} // verus!
