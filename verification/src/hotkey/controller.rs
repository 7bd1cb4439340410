use vstd::prelude::*;

use crate::hotkey::backend_kind::{backend_label, BackendKind};
use crate::hotkey::event::{Event, RuntimeEvent};
use crate::hotkey::HOTKEY_LABEL;

verus! {

/// What the main window shows of the controller.
#[derive(Debug)]
pub struct Snapshot {
    pub hotkey_label: &'static str,
    pub backend_label: &'static str,
    pub is_hotkey_down: bool,
    pub popup_open: bool,
    pub status: String,
}

impl Clone for Snapshot {
    /// A copy of the snapshot.
    fn clone(&self) -> (copy: Snapshot)
        ensures
            copy.hotkey_label@ == self.hotkey_label@,
            copy.backend_label@ == self.backend_label@,
            copy.is_hotkey_down == self.is_hotkey_down,
            copy.popup_open == self.popup_open,
            copy.status@ == self.status@,
    {
        Snapshot {
            hotkey_label: self.hotkey_label,
            backend_label: self.backend_label,
            is_hotkey_down: self.is_hotkey_down,
            popup_open: self.popup_open,
            status: self.status.clone(),
        }
    }
}

impl Snapshot {
    /// The text of the "State" line: held while the hotkey is down.
    pub fn state_text(&self) -> (text: &'static str)
        ensures
            text@ == (if self.is_hotkey_down {
                "held"@
            } else {
                "idle"@
            }),
    {
        if self.is_hotkey_down {
            "held"
        } else {
            "idle"
        }
    }

    /// The text of the "Overlay" line: visible while the overlay is open.
    pub fn overlay_text(&self) -> (text: &'static str)
        ensures
            text@ == (if self.popup_open {
                "visible"@
            } else {
                "hidden"@
            }),
    {
        if self.popup_open {
            "visible"
        } else {
            "hidden"
        }
    }
}

/// What the program around the controller does next.  `W` is the handle of
/// the overlay window.
#[derive(Debug)]
pub enum Effect<W> {
    /// Nothing: the state did not change.
    Nothing,
    /// Redraw: the state changed.
    Notify,
    /// Show the hidden overlay, then report with `popup_shown`.
    ShowPopup(W),
    /// Open a new overlay window, then report with `popup_opened`.
    OpenPopup,
    /// Hide the overlay, then report with `popup_hidden`.
    HidePopup(W),
}

/// The controller's state as values.
pub struct ControllerModel<W> {
    pub backend_kind: BackendKind,
    pub popup: Option<W>,
    pub is_hotkey_down: bool,
    pub status: Seq<char>,
}

/// The decisions of the hotkey window: whether the hotkey is held, which
/// overlay window exists, and the status line.
pub struct Controller<W> {
    backend_kind: BackendKind,
    popup_window: Option<W>,
    is_hotkey_down: bool,
    status: String,
}

impl<W> View for Controller<W> {
    type V = ControllerModel<W>;

    closed spec fn view(&self) -> ControllerModel<W> {
        ControllerModel {
            backend_kind: self.backend_kind,
            popup: self.popup_window,
            is_hotkey_down: self.is_hotkey_down,
            status: self.status@,
        }
    }
}

// ---------------------------------------------------------------------------------------------- //
// The transitions, as values.

/// The status line before any backend reports.
pub open spec fn starting_status(kind: BackendKind) -> Seq<char> {
    "Starting "@ + backend_label(kind) + " backend"@
}

/// The status line while the hotkey is held.
pub open spec fn down_status() -> Seq<char> {
    "Hotkey is down"@
}

/// The status line while the hotkey is up.
pub open spec fn waiting_status() -> Seq<char> {
    "Waiting for "@ + HOTKEY_LABEL@
}

/// The status line when no overlay window could be opened.
pub open spec fn open_failed_status(error: Seq<char>) -> Seq<char> {
    "Failed to open hotkey window: "@ + error
}

/// A press: ignored while the hotkey is held; otherwise the hotkey is down and
/// the overlay is shown again when one exists, or opened.
pub open spec fn pressed<W>(m: ControllerModel<W>) -> (ControllerModel<W>, Effect<W>) {
    if m.is_hotkey_down {
        (m, Effect::Nothing)
    } else {
        let next = ControllerModel { is_hotkey_down: true, status: down_status(), ..m };
        match m.popup {
            Some(w) => (next, Effect::ShowPopup(w)),
            None => (next, Effect::OpenPopup),
        }
    }
}

/// The overlay was shown, or could not be: then it is forgotten and a new
/// one is opened.
pub open spec fn shown<W>(m: ControllerModel<W>, ok: bool) -> (ControllerModel<W>, Effect<W>) {
    if ok {
        (m, Effect::Notify)
    } else {
        (ControllerModel { popup: None, ..m }, Effect::OpenPopup)
    }
}

/// A new overlay window was opened, or the error says why not.
pub open spec fn opened<W>(m: ControllerModel<W>, result: Result<W, Seq<char>>) -> (
    ControllerModel<W>,
    Effect<W>,
) {
    match result {
        Ok(w) => (ControllerModel { popup: Some(w), ..m }, Effect::Notify),
        Err(error) => (ControllerModel { status: open_failed_status(error), ..m }, Effect::Notify),
    }
}

/// A release: the hotkey is up and the overlay, if any, is hidden, not closed.
pub open spec fn released<W>(m: ControllerModel<W>) -> (ControllerModel<W>, Effect<W>) {
    let next = ControllerModel { is_hotkey_down: false, status: waiting_status(), ..m };
    match m.popup {
        Some(w) => (next, Effect::HidePopup(w)),
        None => (next, Effect::Notify),
    }
}

/// The overlay was hidden, or could not be: then it is forgotten.
pub open spec fn hidden<W>(m: ControllerModel<W>, ok: bool) -> (ControllerModel<W>, Effect<W>) {
    if ok {
        (m, Effect::Notify)
    } else {
        (ControllerModel { popup: None, ..m }, Effect::Notify)
    }
}

/// A status or error message from the backend replaces the status line.
pub open spec fn reported<W>(m: ControllerModel<W>, message: Seq<char>) -> (
    ControllerModel<W>,
    Effect<W>,
) {
    (ControllerModel { status: message, ..m }, Effect::Notify)
}

/// What the overlay line of the main window says: open only while held.
pub open spec fn popup_open<W>(m: ControllerModel<W>) -> bool {
    m.is_hotkey_down && m.popup is Some
}

/// Whether every open window is the overlay, so that nothing but the hidden
/// overlay would keep the program alive.
pub open spec fn only_popup_remains(window_ids: Seq<u64>, popup_id: u64) -> bool {
    forall|i: int| 0 <= i < window_ids.len() ==> window_ids[i] == popup_id
}

/// The answer to a closed window.
pub struct ClosedOutcome {
    /// Redraw: the overlay window was closed and is forgotten.
    pub notify: bool,
    /// Quit: only the hidden overlay is left.
    pub quit: bool,
}

impl<W: Copy> Controller<W> {
    /// A controller for `backend_kind`: the hotkey is up, there is no overlay,
    /// and the status says which backend starts.
    pub fn new(backend_kind: BackendKind) -> (controller: Controller<W>)
        ensures
            controller@ == (ControllerModel::<W> {
                backend_kind,
                popup: None,
                is_hotkey_down: false,
                status: starting_status(backend_kind),
            }),
    {
        let mut status = "Starting ".to_owned();
        status.append(backend_kind.label());
        status.append(" backend");
        Controller { backend_kind, popup_window: None, is_hotkey_down: false, status }
    }

    /// The overlay window, if one is open.
    pub fn popup_window(&self) -> (window: Option<W>)
        ensures
            window == self@.popup,
    {
        self.popup_window
    }

    /// The backend that reports the hotkey.
    pub fn backend_kind(&self) -> (kind: BackendKind)
        ensures
            kind == self@.backend_kind,
    {
        self.backend_kind
    }

    /// The hotkey as the user reads it.
    pub fn hotkey_label() -> (label: &'static str)
        ensures
            label@ == HOTKEY_LABEL@,
    {
        HOTKEY_LABEL
    }

    /// What the main window shows.
    pub fn snapshot(&self) -> (snapshot: Snapshot)
        ensures
            snapshot.hotkey_label@ == HOTKEY_LABEL@,
            snapshot.backend_label@ == backend_label(self@.backend_kind),
            snapshot.is_hotkey_down == self@.is_hotkey_down,
            snapshot.popup_open == popup_open(self@),
            snapshot.status@ == self@.status,
    {
        Snapshot {
            hotkey_label: HOTKEY_LABEL,
            backend_label: self.backend_kind.label(),
            is_hotkey_down: self.is_hotkey_down,
            popup_open: self.is_hotkey_down && self.popup_window.is_some(),
            status: self.status.clone(),
        }
    }

    /// Applies what a backend reported.
    pub fn apply_runtime_event(&mut self, event: RuntimeEvent) -> (effect: Effect<W>)
        ensures
            (final(self)@, effect) == (match event {
                RuntimeEvent::Hotkey(Event::Pressed) => pressed(old(self)@),
                RuntimeEvent::Hotkey(Event::Released) => released(old(self)@),
                RuntimeEvent::Status(message) => reported(old(self)@, message@),
                RuntimeEvent::Error(message) => reported(old(self)@, message@),
            }),
    {
        match event {
            RuntimeEvent::Hotkey(Event::Pressed) => self.hotkey_pressed(),
            RuntimeEvent::Hotkey(Event::Released) => self.hotkey_released(),
            RuntimeEvent::Status(message) => {
                self.status = message;
                Effect::Notify
            },
            RuntimeEvent::Error(message) => {
                self.status = message;
                Effect::Notify
            },
        }
    }

    /// The hotkey went down.
    pub fn hotkey_pressed(&mut self) -> (effect: Effect<W>)
        ensures
            (final(self)@, effect) == pressed(old(self)@),
    {
        if self.is_hotkey_down {
            return Effect::Nothing;
        }
        self.is_hotkey_down = true;
        self.status = "Hotkey is down".to_owned();
        match self.popup_window {
            Some(window) => Effect::ShowPopup(window),
            None => Effect::OpenPopup,
        }
    }

    /// Reports whether the overlay could be shown again.
    pub fn popup_shown(&mut self, ok: bool) -> (effect: Effect<W>)
        ensures
            (final(self)@, effect) == shown(old(self)@, ok),
    {
        if ok {
            Effect::Notify
        } else {
            self.popup_window = None;
            Effect::OpenPopup
        }
    }

    /// Reports the new overlay window, or the error that opening it gave.
    pub fn popup_opened(&mut self, result: Result<W, String>) -> (effect: Effect<W>)
        ensures
            (final(self)@, effect) == opened(
                old(self)@,
                match result {
                    Ok(w) => Ok(w),
                    Err(e) => Err(e@),
                },
            ),
    {
        match result {
            Ok(window) => {
                self.popup_window = Some(window);
            },
            Err(error) => {
                let mut status = "Failed to open hotkey window: ".to_owned();
                status.append(error.as_str());
                self.status = status;
            },
        }
        Effect::Notify
    }

    /// The hotkey went up.
    pub fn hotkey_released(&mut self) -> (effect: Effect<W>)
        ensures
            (final(self)@, effect) == released(old(self)@),
    {
        self.is_hotkey_down = false;
        let mut status = "Waiting for ".to_owned();
        status.append(HOTKEY_LABEL);
        self.status = status;
        match self.popup_window {
            Some(window) => Effect::HidePopup(window),
            None => Effect::Notify,
        }
    }

    /// Reports whether the overlay could be hidden.
    pub fn popup_hidden(&mut self, ok: bool) -> (effect: Effect<W>)
        ensures
            (final(self)@, effect) == hidden(old(self)@, ok),
    {
        if !ok {
            self.popup_window = None;
        }
        Effect::Notify
    }

    /// A window was closed.  `popup_is_closed` tells whether the overlay
    /// window is gone, `window_ids` are the windows still open and
    /// `popup_id` is the overlay's window id.  A closed overlay is forgotten;
    /// the program quits when the overlay is all that is left.
    pub fn window_closed(&mut self, popup_is_closed: bool, window_ids: &Vec<u64>, popup_id: u64) -> (outcome: ClosedOutcome)
        ensures
            outcome.notify == (old(self)@.popup is Some && popup_is_closed),
            final(self)@ == (if outcome.notify {
                ControllerModel { popup: None, ..old(self)@ }
            } else {
                old(self)@
            }),
            outcome.quit == (final(self)@.popup is Some && only_popup_remains(
                window_ids@,
                popup_id,
            )),
    {
        let notify = self.popup_window.is_some() && popup_is_closed;
        if notify {
            self.popup_window = None;
        }
        let quit = self.popup_window.is_some() && all_equal(window_ids, popup_id);
        ClosedOutcome { notify, quit }
    }
}

// ---------------------------------------------------------------------------------------------- //
// Laws of the controller.

/// A press while the hotkey is held changes nothing and asks for nothing, so
/// a repeated press is ignored.
pub proof fn lemma_press_while_held<W>(m: ControllerModel<W>)
    ensures
        m.is_hotkey_down ==> pressed(m) == (m, Effect::<W>::Nothing),
        pressed(pressed(m).0) == (pressed(m).0, Effect::<W>::Nothing),
        pressed(m).0.is_hotkey_down,
{
}

/// A release hides the overlay and keeps its window; once hidden, the next
/// press shows that same window again instead of opening another.
pub proof fn lemma_release_keeps_overlay<W>(m: ControllerModel<W>, w: W)
    requires
        m.popup == Some(w),
    ensures
        released(m).1 == Effect::HidePopup(w),
        released(m).0.popup == Some(w),
        hidden(released(m).0, true).0.popup == Some(w),
        pressed(hidden(released(m).0, true).0).1 == Effect::ShowPopup(w),
{
}

/// After a release the hotkey is up and the overlay line says hidden, whether
/// or not hiding the window worked.
pub proof fn lemma_released_overlay_hidden<W>(m: ControllerModel<W>, ok: bool)
    ensures
        !released(m).0.is_hotkey_down,
        !popup_open(released(m).0),
        !popup_open(hidden(released(m).0, ok).0),
        released(m).0.status == waiting_status(),
{
}

/// From rest, a press opens an overlay; once it opened, the overlay line says
/// visible.  When it cannot open, the status says why and the line says hidden.
pub proof fn lemma_press_opens_overlay<W>(m: ControllerModel<W>, w: W, error: Seq<char>)
    requires
        !m.is_hotkey_down,
        m.popup is None,
    ensures
        pressed(m).1 == Effect::<W>::OpenPopup,
        popup_open(opened(pressed(m).0, Ok(w)).0),
        opened(pressed(m).0, Ok(w)).0.popup == Some(w),
        !popup_open(opened(pressed(m).0, Err(error)).0),
        opened(pressed(m).0, Err(error)).0.status == open_failed_status(error),
{
}

/// A backend's message replaces the status line and nothing else.
pub proof fn lemma_report_only_status<W>(m: ControllerModel<W>, message: Seq<char>)
    ensures
        reported(m, message).0.status == message,
        reported(m, message).0.is_hotkey_down == m.is_hotkey_down,
        reported(m, message).0.popup == m.popup,
        reported(m, message).0.backend_kind == m.backend_kind,
{
}

/// What each report of the window work changes.  A successful open only
/// records the new overlay, and a successful show or hide changes nothing:
/// the status line, the held state and the backend stay.  A failed show or
/// hide only forgets the overlay; a failed open only puts the error in the
/// status line.
pub proof fn lemma_window_reports<W>(m: ControllerModel<W>, w: W, ok: bool, error: Seq<char>)
    ensures
        opened(m, Ok(w)).0.popup == Some(w),
        opened(m, Ok(w)).0.status == m.status,
        opened(m, Ok(w)).0.is_hotkey_down == m.is_hotkey_down,
        opened(m, Ok(w)).0.backend_kind == m.backend_kind,
        opened(m, Err(error)).0.popup == m.popup,
        opened(m, Err(error)).0.status == "Failed to open hotkey window: "@ + error,
        opened(m, Err(error)).0.is_hotkey_down == m.is_hotkey_down,
        opened(m, Err(error)).0.backend_kind == m.backend_kind,
        ok ==> shown(m, ok).0 == m && hidden(m, ok).0 == m,
        !ok ==> shown(m, ok).0.popup is None && shown(m, ok).1 == Effect::<W>::OpenPopup,
        !ok ==> hidden(m, ok).0.popup is None,
        shown(m, ok).0.status == m.status && hidden(m, ok).0.status == m.status,
        shown(m, ok).0.is_hotkey_down == m.is_hotkey_down && hidden(m, ok).0.is_hotkey_down
            == m.is_hotkey_down,
        shown(m, ok).0.backend_kind == m.backend_kind && hidden(m, ok).0.backend_kind == m.backend_kind,
{
}

/// What a press and a release do to the state: a press from rest makes the
/// hotkey down with the status "Hotkey is down", keeping the overlay and the
/// backend; a release makes it up with the status "Waiting for" the hotkey,
/// keeping the overlay and the backend.
pub proof fn lemma_press_release_state<W>(m: ControllerModel<W>)
    ensures
        !m.is_hotkey_down ==> {
            let next = pressed(m).0;
            &&& next.is_hotkey_down
            &&& next.status == "Hotkey is down"@
            &&& next.popup == m.popup
            &&& next.backend_kind == m.backend_kind
        },
        !released(m).0.is_hotkey_down,
        released(m).0.status == "Waiting for "@ + HOTKEY_LABEL@,
        released(m).0.popup == m.popup,
        released(m).0.backend_kind == m.backend_kind,
{
}

/// From rest with no overlay, a press and a successful open leave the hotkey
/// held, the overlay visible and the status "Hotkey is down", whatever the
/// status was before.
pub proof fn lemma_press_then_open<W>(m: ControllerModel<W>, w: W)
    requires
        !m.is_hotkey_down,
        m.popup is None,
    ensures
        ({
            let after = opened(pressed(m).0, Ok(w)).0;
            &&& after.is_hotkey_down
            &&& popup_open(after)
            &&& after.popup == Some(w)
            &&& after.status == "Hotkey is down"@
            &&& after.backend_kind == m.backend_kind
        }),
{
}

/// Whether every id is `id`.
fn all_equal(ids: &Vec<u64>, id: u64) -> (all: bool)
    ensures
        all == only_popup_remains(ids@, id),
{
    let n = ids.len();
    for i in 0..n
        invariant
            n == ids@.len(),
            forall|j: int| 0 <= j < i ==> ids@[j] == id,
    {
        if ids[i] != id {
            return false;
        }
    }
    true
}

} // verus!
