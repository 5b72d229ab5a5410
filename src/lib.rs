//! Translation of window-system input events into the input snapshot that an
//! immediate-mode UI session consumes once per frame.

pub mod event;
pub mod keymap;
pub mod session;
pub mod clock;
pub mod bridge;
pub mod history;

pub use event::{
    button_index, Action, InputEvent, Modifiers, MouseButton, MOD_ALT, MOD_CONTROL, MOD_SHIFT, MOD_SUPER,
};
pub use keymap::{key_slot, native_key, KeyRole, KEY_ROLE_COUNT};
pub use session::{KeyModifiers, UiInput};
pub use bridge::ImguiGLFW;
