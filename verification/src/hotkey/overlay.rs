use vstd::prelude::*;

use crate::hotkey::backend_kind::BackendKind;
use crate::hotkey::HOTKEY_LABEL;

verus! {

/// The overlay window's own state: the backend it names and whether it is shown.
pub struct HotkeyWindow {
    backend_kind: BackendKind,
    is_visible: bool,
}

impl HotkeyWindow {
    /// The backend that the overlay names.
    pub closed spec fn kind(&self) -> BackendKind {
        self.backend_kind
    }

    /// Whether the overlay shows its content.
    pub closed spec fn visible(&self) -> bool {
        self.is_visible
    }

    /// A new overlay, shown.
    pub fn new(backend_kind: BackendKind) -> (window: HotkeyWindow)
        ensures
            window.kind() == backend_kind,
            window.visible(),
    {
        HotkeyWindow { backend_kind, is_visible: true }
    }

    /// Shows the overlay.
    pub fn show(&mut self)
        ensures
            final(self).visible(),
            final(self).kind() == old(self).kind(),
    {
        self.is_visible = true;
    }

    /// Hides the overlay; the window stays.
    pub fn conceal(&mut self)
        ensures
            !final(self).visible(),
            final(self).kind() == old(self).kind(),
    {
        self.is_visible = false;
    }

    /// Whether the overlay shows its content.
    pub fn is_visible(&self) -> (visible: bool)
        ensures
            visible == self.visible(),
    {
        self.is_visible
    }

    /// The backend that the overlay names.
    pub fn backend_kind(&self) -> (kind: BackendKind)
        ensures
            kind == self.kind(),
    {
        self.backend_kind
    }
}

/// The line that tells how to close the overlay.
pub fn release_hint() -> (hint: String)
    ensures
        hint@ == "Release "@ + HOTKEY_LABEL@ + " to close"@,
{
    let mut hint = "Release ".to_owned();
    hint.append(HOTKEY_LABEL);
    hint.append(" to close");
    hint
}

/// Under the portal backend the program gives up focus before it opens the
/// overlay, so that the overlay does not take it.
pub fn deactivate_before_opening(backend_kind: BackendKind) -> (deactivate: bool)
    ensures
        deactivate == (backend_kind == BackendKind::WaylandPortal),
{
    backend_kind == BackendKind::WaylandPortal
}

} // verus!
