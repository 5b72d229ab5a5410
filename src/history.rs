use vstd::prelude::*;

use crate::bridge::cursor_step;
use crate::event::{spec_button_index, Action, InputEvent};
use crate::session::{pos_step, press_step, wheel_step};

verus! {

/// Button states after `events`, handled one by one from `init`.
pub open spec fn presses_after(init: Seq<bool>, events: Seq<InputEvent>) -> Seq<bool>
    decreases events.len(),
{
    if events.len() == 0 {
        init
    } else {
        press_step(presses_after(init, events.drop_last()), events.last())
    }
}

/// Whether the latest button event among `events` that drives slot `i`
/// leaves the button down; false when no event drives that slot.
pub open spec fn latest_press(events: Seq<InputEvent>, i: int) -> bool
    decreases events.len(),
{
    if events.len() == 0 {
        false
    } else {
        match events.last() {
            InputEvent::MouseButton(b, a, _) => if spec_button_index(b) == i {
                a != Action::Release
            } else {
                latest_press(events.drop_last(), i)
            },
            _ => latest_press(events.drop_last(), i),
        }
    }
}

/// Wheel offset after `events`, handled one by one from `w0`.
pub open spec fn wheel_after(w0: Option<u64>, events: Seq<InputEvent>) -> Option<u64>
    decreases events.len(),
{
    if events.len() == 0 {
        w0
    } else {
        wheel_step(wheel_after(w0, events.drop_last()), events.last())
    }
}

/// Vertical offset of the latest scroll among `events`, if there is one.
pub open spec fn latest_scroll(events: Seq<InputEvent>) -> Option<u64>
    decreases events.len(),
{
    if events.len() == 0 {
        None
    } else {
        match events.last() {
            InputEvent::Scroll(_, y) => Some(y),
            _ => latest_scroll(events.drop_last()),
        }
    }
}

/// Session pointer position after `events`, handled one by one from `init`.
pub open spec fn pos_after(init: Option<(u64, u64)>, events: Seq<InputEvent>) -> Option<(u64, u64)>
    decreases events.len(),
{
    if events.len() == 0 {
        init
    } else {
        pos_step(pos_after(init, events.drop_last()), events.last())
    }
}

/// Bridge cursor position after `events`, handled one by one from `c0`.
pub open spec fn cursor_after(c0: (u64, u64), events: Seq<InputEvent>) -> (u64, u64)
    decreases events.len(),
{
    if events.len() == 0 {
        c0
    } else {
        cursor_step(cursor_after(c0, events.drop_last()), events.last())
    }
}

/// Position of the latest cursor move among `events`, if there is one.
pub open spec fn latest_cursor(events: Seq<InputEvent>) -> Option<(u64, u64)>
    decreases events.len(),
{
    if events.len() == 0 {
        None
    } else {
        match events.last() {
            InputEvent::CursorPos(x, y) => Some((x, y)),
            _ => latest_cursor(events.drop_last()),
        }
    }
}

/// From a fresh bridge, after any sequence of events, a button's slot is down
/// exactly when the latest event for that slot was a press or a repeat; it is
/// up after a release, and up when no event for it has arrived.
pub proof fn lemma_button_follows_latest_event(init: Seq<bool>, events: Seq<InputEvent>, i: int)
    requires
        init.len() == 5,
        forall|j: int| 0 <= j < 5 ==> !#[trigger] init[j],
        0 <= i < 5,
    ensures
        presses_after(init, events).len() == 5,
        presses_after(init, events)[i] == latest_press(events, i),
    decreases events.len(),
{
    if events.len() > 0 {
        lemma_button_follows_latest_event(init, events.drop_last(), i);
    }
}

/// Of several scrolls before a frame reads the wheel, only the last one's
/// vertical offset is seen, never a sum; without a scroll the wheel keeps its value.
pub proof fn lemma_wheel_keeps_latest_scroll(w0: Option<u64>, events: Seq<InputEvent>)
    ensures
        wheel_after(w0, events) == (match latest_scroll(events) {
            Some(y) => Some(y),
            None => w0,
        }),
    decreases events.len(),
{
    if events.len() > 0 {
        lemma_wheel_keeps_latest_scroll(w0, events.drop_last());
    }
}

/// After any sequence of events the recorded cursor position, in the bridge
/// and in the session, is that of the latest cursor move, however many came
/// before it.
pub proof fn lemma_cursor_is_latest_move(
    init: Option<(u64, u64)>,
    c0: (u64, u64),
    events: Seq<InputEvent>,
)
    ensures
        pos_after(init, events) == (match latest_cursor(events) {
            Some(q) => Some(q),
            None => init,
        }),
        cursor_after(c0, events) == (match latest_cursor(events) {
            Some(q) => q,
            None => c0,
        }),
    decreases events.len(),
{
    if events.len() > 0 {
        lemma_cursor_is_latest_move(init, c0, events.drop_last());
    }
}

} // verus!
