use vstd::prelude::*;

verus! {

/// Where hotkey presses come from: the `global-hotkey` crate, or the XDG
/// desktop portal's global shortcuts under Wayland.
#[derive(Clone, Copy, Debug, PartialEq, Eq, Structural)]
pub enum BackendKind {
    GlobalHotkey,
    WaylandPortal,
}

/// The name that the window shows for a backend.
pub open spec fn backend_label(kind: BackendKind) -> Seq<char> {
    match kind {
        BackendKind::GlobalHotkey => "global-hotkey"@,
        BackendKind::WaylandPortal => "XDG portal global shortcuts"@,
    }
}

impl BackendKind {
    /// The name that the window shows for this backend.
    pub fn label(self) -> (label: &'static str)
        ensures
            label@ == backend_label(self),
    {
        match self {
            BackendKind::GlobalHotkey => "global-hotkey",
            BackendKind::WaylandPortal => "XDG portal global shortcuts",
        }
    }
}

/// The backend kind under a second name, with the same labels.
#[derive(Clone, Copy, Debug, PartialEq, Eq, Structural)]
pub enum HotkeyBackendKind {
    GlobalHotkey,
    WaylandPortal,
}

impl HotkeyBackendKind {
    /// The name that the window shows for this backend.
    pub fn label(self) -> (label: &'static str)
        ensures
            label@ == backend_label(self.kind()),
    {
        match self {
            HotkeyBackendKind::GlobalHotkey => "global-hotkey",
            HotkeyBackendKind::WaylandPortal => "XDG portal global shortcuts",
        }
    }

    /// The same backend, under its other name.
    pub open spec fn kind(self) -> BackendKind {
        match self {
            HotkeyBackendKind::GlobalHotkey => BackendKind::GlobalHotkey,
            HotkeyBackendKind::WaylandPortal => BackendKind::WaylandPortal,
        }
    }
}

/// The portal backend is used on Linux when a Wayland display is set, the
/// `global-hotkey` backend everywhere else.
pub fn select_backend_kind(is_linux: bool, wayland_display_set: bool) -> (kind: BackendKind)
    ensures
        kind == (if is_linux && wayland_display_set {
            BackendKind::WaylandPortal
        } else {
            BackendKind::GlobalHotkey
        }),
{
    if is_linux && wayland_display_set {
        return BackendKind::WaylandPortal;
    }
    BackendKind::GlobalHotkey
}

} // verus!
