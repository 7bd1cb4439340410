pub mod backend_kind;
pub mod controller;
pub mod error;
pub mod error_chain;
pub mod event;
pub mod overlay;
pub mod portal;

use vstd::prelude::*;

verus! {

/// The id under which the portal binds the shortcut.
pub const HOTKEY_ID: &'static str = "hold-overlay";

/// The hotkey as the user reads it.
pub const HOTKEY_LABEL: &'static str = "Ctrl+Alt+Space";

/// The application id that the portal knows this program by.
pub const WAYLAND_APP_ID: &'static str = "dev.gpui.HotkeyHoldApp";

/// The trigger that the portal is asked to bind.
pub const WAYLAND_PREFERRED_TRIGGER: &'static str = "CTRL+ALT+space";

} // verus!
