use vstd::prelude::*;

use crate::event::{button_index, Action, InputEvent, Modifiers, MOD_ALT, MOD_CONTROL, MOD_SHIFT, MOD_SUPER};
use crate::keymap::{key_slot, native_key, spec_key_slot, spec_native_key, spec_role_index, KeyRole};
use crate::session::{
    chars_step, keys_step, mods_step, pos_step, press_step, resolve_modifiers, wheel_step,
    KeyModifiers, UiInput,
};

verus! {

/// Bridge between one window's input events and one UI session.
pub struct ImguiGLFW {
    /// Clock reading taken at construction; frame times count from it.
    pub origin: std::time::Instant,
    /// Nanoseconds from `origin` to the previous frame.
    pub last_frame: u64,
    /// Down state of the five mouse buttons, as last reported.
    pub mouse_press: [bool; 5],
    /// Last cursor position, as binary64 bit patterns.
    pub cursor_pos: (u64, u64),
}

/// Cursor position that the bridge records after one event.
pub open spec fn cursor_step(c: (u64, u64), e: InputEvent) -> (u64, u64) {
    match e {
        InputEvent::CursorPos(x, y) => (x, y),
        _ => c,
    }
}

/// Nanoseconds between the previous frame at `last` and a reading `now`;
/// a reading behind the previous one counts as no time.
pub open spec fn elapsed(last: u64, now: u64) -> int {
    if now >= last {
        now - last
    } else {
        0
    }
}

/// Whether the session's key table holds the native key slot of every role.
pub open spec fn keys_registered(input: UiInput) -> bool {
    forall|role: KeyRole|
        #[trigger] input.key_map@[spec_role_index(role)] == Some(
            spec_key_slot(spec_native_key(role)) as u8,
        )
}

/// Whether two input states agree on everything but the key table.
pub open spec fn same_but_key_map(a: UiInput, b: UiInput) -> bool {
    &&& a.mouse_down == b.mouse_down
    &&& a.mouse_pos == b.mouse_pos
    &&& a.mouse_wheel == b.mouse_wheel
    &&& a.keys_down == b.keys_down
    &&& a.modifiers == b.modifiers
    &&& a.input_chars@ == b.input_chars@
}

impl ImguiGLFW {
    /// Registers the native key of every logical role with the session and
    /// starts a bridge with nothing pressed and the clock read now.
    pub fn new(imgui: &mut UiInput) -> (r: Self)
        ensures
            keys_registered(*final(imgui)),
            same_but_key_map(*final(imgui), *old(imgui)),
            forall|i: int| 0 <= i < 5 ==> !#[trigger] r.mouse_press@[i],
            r.cursor_pos == (0u64, 0u64),
            r.last_frame == 0,
    {
        Self::register_key(imgui, KeyRole::Tab);
        Self::register_key(imgui, KeyRole::LeftArrow);
        Self::register_key(imgui, KeyRole::RightArrow);
        Self::register_key(imgui, KeyRole::UpArrow);
        Self::register_key(imgui, KeyRole::DownArrow);
        Self::register_key(imgui, KeyRole::PageUp);
        Self::register_key(imgui, KeyRole::PageDown);
        Self::register_key(imgui, KeyRole::Home);
        Self::register_key(imgui, KeyRole::End);
        Self::register_key(imgui, KeyRole::Delete);
        Self::register_key(imgui, KeyRole::Backspace);
        Self::register_key(imgui, KeyRole::Enter);
        Self::register_key(imgui, KeyRole::Escape);
        Self::register_key(imgui, KeyRole::A);
        Self::register_key(imgui, KeyRole::C);
        Self::register_key(imgui, KeyRole::V);
        Self::register_key(imgui, KeyRole::X);
        Self::register_key(imgui, KeyRole::Y);
        Self::register_key(imgui, KeyRole::Z);
        ImguiGLFW {
            origin: std::time::Instant::now(),
            last_frame: 0,
            mouse_press: [false; 5],
            cursor_pos: (0, 0),
        }
    }

    /// Applies one raw event to the bridge and the session, in arrival order.
    ///
    /// A button event sets its button's slot (buttons past the fifth use the
    /// first) and pushes all five states; a cursor move records the position; a
    /// scroll overwrites the wheel with its vertical offset; a character is
    /// appended to the pending text; a key event recomputes the four modifier
    /// flags and sets the key slot of its scancode. Other events change nothing.
    pub fn handle_event(&mut self, imgui: &mut UiInput, event: &InputEvent)
        ensures
            final(self).mouse_press@ == press_step(old(self).mouse_press@, *event),
            final(self).cursor_pos == cursor_step(old(self).cursor_pos, *event),
            final(self).last_frame == old(self).last_frame,
            final(self).origin == old(self).origin,
            final(imgui).mouse_down@ == (match *event {
                InputEvent::MouseButton(..) => final(self).mouse_press@,
                _ => old(imgui).mouse_down@,
            }),
            final(imgui).mouse_pos == pos_step(old(imgui).mouse_pos, *event),
            final(imgui).mouse_wheel == wheel_step(old(imgui).mouse_wheel, *event),
            final(imgui).input_chars@ == chars_step(old(imgui).input_chars@, *event),
            final(imgui).keys_down@ == keys_step(old(imgui).keys_down@, *event),
            final(imgui).modifiers == mods_step(old(imgui).modifiers, *event),
            final(imgui).key_map == old(imgui).key_map,
    {
        match *event {
            InputEvent::MouseButton(mouse_btn, action, _) => {
                let index = button_index(mouse_btn);
                let press = action != Action::Release;
                self.mouse_press[index] = press;
                imgui.mouse_down = self.mouse_press;
            },
            InputEvent::CursorPos(x, y) => {
                imgui.mouse_pos = Some((x, y));
                self.cursor_pos = (x, y);
            },
            InputEvent::Scroll(_, d) => {
                imgui.mouse_wheel = Some(d);
            },
            InputEvent::Char(character) => {
                imgui.input_chars.push(character);
            },
            InputEvent::Key(_, scancode, action, modifier) => {
                Self::set_mod(imgui, modifier);
                let slot = key_slot(scancode) as usize;
                imgui.keys_down[slot] = action != Action::Release;
            },
            InputEvent::Other => {},
        }
    }

    /// Nanoseconds since the previous frame (or since construction), read from
    /// the monotonic clock; the reading becomes the previous frame.
    pub fn update(&mut self) -> (r: u64)
        ensures
            final(self).origin == old(self).origin,
            final(self).mouse_press == old(self).mouse_press,
            final(self).cursor_pos == old(self).cursor_pos,
            r == elapsed(old(self).last_frame, final(self).last_frame),
    {
        let since_origin: u128 = self.origin.elapsed().as_nanos();
        let now: u64 = if since_origin > u64::MAX as u128 {
            u64::MAX
        } else {
            since_origin as u64
        };
        self.tick_at(now)
    }

    /// Ends a frame at `now` nanoseconds after construction: returns the time
    /// since the previous frame, never negative, and records `now` as the
    /// previous frame.
    pub fn tick_at(&mut self, now: u64) -> (r: u64)
        ensures
            r == elapsed(old(self).last_frame, now),
            final(self).last_frame == now,
            final(self).origin == old(self).origin,
            final(self).mouse_press == old(self).mouse_press,
            final(self).cursor_pos == old(self).cursor_pos,
    {
        let delta: u64 = if now >= self.last_frame {
            now - self.last_frame
        } else {
            0
        };
        self.last_frame = now;
        delta
    }

    /// Pushes the modifier flags of `modifier`, each tested on its own.
    fn set_mod(imgui: &mut UiInput, modifier: Modifiers)
        ensures
            final(imgui).modifiers == resolve_modifiers(modifier),
            final(imgui).mouse_down == old(imgui).mouse_down,
            final(imgui).mouse_pos == old(imgui).mouse_pos,
            final(imgui).mouse_wheel == old(imgui).mouse_wheel,
            final(imgui).keys_down == old(imgui).keys_down,
            final(imgui).input_chars@ == old(imgui).input_chars@,
            final(imgui).key_map == old(imgui).key_map,
    {
        let ctrl = modifier.intersects(Modifiers { bits: MOD_CONTROL });
        let alt = modifier.intersects(Modifiers { bits: MOD_ALT });
        let shift = modifier.intersects(Modifiers { bits: MOD_SHIFT });
        let super_ = modifier.intersects(Modifiers { bits: MOD_SUPER });
        imgui.modifiers = KeyModifiers { ctrl, alt, shift, super_ };
    }

    /// Points the session's table entry for `role` at the slot of its native key.
    fn register_key(imgui: &mut UiInput, role: KeyRole)
        ensures
            final(imgui).key_map@ == old(imgui).key_map@.update(
                spec_role_index(role),
                Some(spec_key_slot(spec_native_key(role)) as u8),
            ),
            same_but_key_map(*final(imgui), *old(imgui)),
    {
        let i = role.index();
        imgui.key_map[i] = Some(key_slot(native_key(role)));
    }
}

} // verus!
