use vstd::prelude::*;

use crate::hotkey::event::{map_portal_event, Event, RuntimeEvent};
use crate::hotkey::{HOTKEY_ID, HOTKEY_LABEL, WAYLAND_APP_ID};

verus! {

/// How the portal refused to bind the shortcut.
#[derive(Clone, Copy, Debug, PartialEq, Eq, Structural)]
pub enum BindFailure {
    /// The user cancelled the dialog.
    Cancelled,
    /// The portal answered with response code 2.
    Other,
    /// Any other error, which the message is put in front of.
    Unexpected,
}

/// The message for a refused binding.
pub open spec fn bind_failure_message(failure: BindFailure) -> Seq<char> {
    match failure {
        BindFailure::Cancelled => "Wayland global shortcut binding was cancelled"@,
        BindFailure::Other => "Wayland portal returned response code 2 (Other) while binding "@
            + HOTKEY_LABEL@
            + ". This matches known GNOME GlobalShortcuts backend failures; update xdg-desktop-portal-gnome/gnome-control-center or use a desktop portal with working BindShortcuts support"@,
        BindFailure::Unexpected => "read Wayland global shortcut binding response"@,
    }
}

/// The message for a refused binding.
pub fn describe_bind_shortcuts_error(failure: BindFailure) -> (message: String)
    ensures
        message@ == bind_failure_message(failure),
{
    match failure {
        BindFailure::Cancelled => "Wayland global shortcut binding was cancelled".to_owned(),
        BindFailure::Other => {
            let mut message = "Wayland portal returned response code 2 (Other) while binding ".to_owned();
            message.append(HOTKEY_LABEL);
            message.append(
                ". This matches known GNOME GlobalShortcuts backend failures; update xdg-desktop-portal-gnome/gnome-control-center or use a desktop portal with working BindShortcuts support",
            );
            message
        },
        BindFailure::Unexpected => "read Wayland global shortcut binding response".to_owned(),
    }
}

/// Whether the shortcuts that the portal bound include ours.
pub fn binding_includes_hotkey(bound_ids: &Vec<String>) -> (bound: bool)
    ensures
        bound == exists|i: int| 0 <= i < bound_ids@.len() && #[trigger] bound_ids@[i]@ == HOTKEY_ID@,
{
    let ours = HOTKEY_ID.to_owned();
    let n = bound_ids.len();
    for i in 0..n
        invariant
            n == bound_ids@.len(),
            ours@ == HOTKEY_ID@,
            forall|j: int| 0 <= j < i ==> #[trigger] bound_ids@[j]@ != HOTKEY_ID@,
    {
        if bound_ids[i] == ours {
            return true;
        }
    }
    false
}

/// The status after the desktop entry at `path` is in place.
pub open spec fn desktop_entry_text(path: Seq<char>) -> Seq<char> {
    "Using desktop entry "@ + path
}

/// The status while the program registers with the portal.
pub open spec fn registering_text() -> Seq<char> {
    "Registering "@ + WAYLAND_APP_ID@ + " with the XDG portal"@
}

/// The status while the portal dialog asks the user.
pub open spec fn requesting_text() -> Seq<char> {
    "Requesting "@ + HOTKEY_LABEL@ + "; approve it in the portal dialog"@
}

/// The status once the portal bound the shortcut.
pub open spec fn portal_registered_text() -> Seq<char> {
    "Registered "@ + HOTKEY_LABEL@ + " through the Wayland portal"@
}

/// The error when the portal answered without our shortcut.
pub open spec fn not_bound_text() -> Seq<char> {
    "portal did not bind "@ + HOTKEY_LABEL@ + "; use the desktop shortcut dialog to allow it"@
}

/// The error that the portal reports when it stops, after `message`.
pub open spec fn portal_failed_text(message: Seq<char>) -> Seq<char> {
    "Wayland global shortcut portal failed: "@ + message
}

/// The status after the desktop entry is in place.
pub fn desktop_entry_status(path: &str) -> (status: String)
    ensures
        status@ == desktop_entry_text(path@),
{
    let mut status = "Using desktop entry ".to_owned();
    status.append(path);
    status
}

/// The status while the program registers with the portal.
pub fn registering_status() -> (status: String)
    ensures
        status@ == registering_text(),
{
    let mut status = "Registering ".to_owned();
    status.append(WAYLAND_APP_ID);
    status.append(" with the XDG portal");
    status
}

/// The status while the portal dialog asks the user.
pub fn requesting_status() -> (status: String)
    ensures
        status@ == requesting_text(),
{
    let mut status = "Requesting ".to_owned();
    status.append(HOTKEY_LABEL);
    status.append("; approve it in the portal dialog");
    status
}

/// The status once the portal bound the shortcut.
pub fn portal_registered_status() -> (status: String)
    ensures
        status@ == portal_registered_text(),
{
    let mut status = "Registered ".to_owned();
    status.append(HOTKEY_LABEL);
    status.append(" through the Wayland portal");
    status
}

/// The error when the portal answered without our shortcut.
pub fn not_bound_message() -> (message: String)
    ensures
        message@ == not_bound_text(),
{
    let mut message = "portal did not bind ".to_owned();
    message.append(HOTKEY_LABEL);
    message.append("; use the desktop shortcut dialog to allow it");
    message
}

/// The status once `global-hotkey` registered the hotkey.
pub fn native_registered_status() -> (status: String)
    ensures
        status@ == "Registered "@ + HOTKEY_LABEL@ + "; hold it to show the overlay"@,
{
    let mut status = "Registered ".to_owned();
    status.append(HOTKEY_LABEL);
    status.append("; hold it to show the overlay");
    status
}

/// The error that the portal thread reports when it stops.
pub fn portal_failed_status(message: &str) -> (status: String)
    ensures
        status@ == portal_failed_text(message@),
{
    let mut status = "Wayland global shortcut portal failed: ".to_owned();
    status.append(message);
    status
}

// ---------------------------------------------------------------------------------------------- //
// The portal session, step by step.

/// Where the portal session stands: each stage names the outside work that
/// comes next; `Done` and `Failed` end the session.
#[derive(Clone, Copy, Debug, PartialEq, Eq, Structural)]
pub enum PortalStage {
    /// Install the desktop entry the portal identifies the program by.
    InstallEntry,
    /// Connect to the session bus.
    Connect,
    /// Register the program with the portal.
    Register,
    /// Open the global shortcuts portal.
    OpenPortal,
    /// Create a shortcuts session.
    CreateSession,
    /// Ask the portal to bind the hotkey, and wait for the answer.
    Bind,
    /// Subscribe to activations and deactivations.
    Subscribe,
    /// Forward activations and deactivations.
    Listen,
    /// The streams ended.
    Done,
    /// A step failed.
    Failed,
}

/// What the outside work of a stage came back with.
#[derive(Debug)]
pub enum PortalOutcome {
    /// The desktop entry is in place at this path.
    EntryInstalled(String),
    /// The work of a stage that reports nothing succeeded.
    Succeeded,
    /// The portal answered the binding request with these shortcut ids.
    BindingAnswered(Vec<String>),
    /// The shortcut with this id was activated.
    Activated(String),
    /// The shortcut with this id was deactivated.
    Deactivated(String),
    /// A stream of activations or deactivations ended.
    StreamEnded,
    /// The work failed; the text is the error's chain of messages.
    Failed(String),
}

/// A portal outcome with its strings taken as text.
pub enum OutcomeView {
    EntryInstalled(Seq<char>),
    Succeeded,
    BindingAnswered(Seq<Seq<char>>),
    Activated(Seq<char>),
    Deactivated(Seq<char>),
    StreamEnded,
    Failed(Seq<char>),
}

impl View for PortalOutcome {
    type V = OutcomeView;

    open spec fn view(&self) -> OutcomeView {
        match self {
            PortalOutcome::EntryInstalled(path) => OutcomeView::EntryInstalled(path@),
            PortalOutcome::Succeeded => OutcomeView::Succeeded,
            PortalOutcome::BindingAnswered(ids) => OutcomeView::BindingAnswered(
                ids@.map_values(|id: String| id@),
            ),
            PortalOutcome::Activated(id) => OutcomeView::Activated(id@),
            PortalOutcome::Deactivated(id) => OutcomeView::Deactivated(id@),
            PortalOutcome::StreamEnded => OutcomeView::StreamEnded,
            PortalOutcome::Failed(text) => OutcomeView::Failed(text@),
        }
    }
}

/// A report to the controller with its text taken as text.
pub enum ReportView {
    Hotkey(Event),
    Status(Seq<char>),
    Error(Seq<char>),
}

/// The report that `event` makes.
pub open spec fn report_view(event: RuntimeEvent) -> ReportView {
    match event {
        RuntimeEvent::Hotkey(e) => ReportView::Hotkey(e),
        RuntimeEvent::Status(text) => ReportView::Status(text@),
        RuntimeEvent::Error(text) => ReportView::Error(text@),
    }
}

/// The report that `event` makes, if there is one.
pub open spec fn optional_report_view(event: Option<RuntimeEvent>) -> Option<ReportView> {
    match event {
        Some(e) => Some(report_view(e)),
        None => None,
    }
}

/// Whether the session has ended.
pub open spec fn stage_is_terminal(stage: PortalStage) -> bool {
    stage == PortalStage::Done || stage == PortalStage::Failed
}

/// The next stage after `stage` came back with `outcome`, and what is reported
/// to the controller on the way. An ended session stays as it is; a failure
/// ends it with the error; each stage goes on to the next when its work comes
/// back as expected, with the statuses in this order: the desktop entry, the
/// registration, the request, and the binding. The binding goes on only when
/// the portal bound our shortcut; while listening, our shortcut's activation
/// and deactivation are forwarded as press and release. An outcome that does
/// not belong to the stage changes nothing.
pub open spec fn portal_transition(stage: PortalStage, outcome: OutcomeView) -> (PortalStage, Option<ReportView>) {
    if stage_is_terminal(stage) {
        (stage, None)
    } else {
        match outcome {
            OutcomeView::Failed(text) => (
                PortalStage::Failed,
                Some(ReportView::Error(portal_failed_text(text))),
            ),
            OutcomeView::EntryInstalled(path) => if stage == PortalStage::InstallEntry {
                (PortalStage::Connect, Some(ReportView::Status(desktop_entry_text(path))))
            } else {
                (stage, None)
            },
            OutcomeView::Succeeded => match stage {
                PortalStage::Connect => (
                    PortalStage::Register,
                    Some(ReportView::Status(registering_text())),
                ),
                PortalStage::Register => (PortalStage::OpenPortal, None),
                PortalStage::OpenPortal => (PortalStage::CreateSession, None),
                PortalStage::CreateSession => (
                    PortalStage::Bind,
                    Some(ReportView::Status(requesting_text())),
                ),
                PortalStage::Subscribe => (PortalStage::Listen, None),
                _ => (stage, None),
            },
            OutcomeView::BindingAnswered(ids) => if stage != PortalStage::Bind {
                (stage, None)
            } else if ids.contains(HOTKEY_ID@) {
                (PortalStage::Subscribe, Some(ReportView::Status(portal_registered_text())))
            } else {
                (PortalStage::Failed, Some(ReportView::Error(portal_failed_text(not_bound_text()))))
            },
            OutcomeView::Activated(id) => if stage == PortalStage::Listen && id == HOTKEY_ID@ {
                (stage, Some(ReportView::Hotkey(Event::Pressed)))
            } else {
                (stage, None)
            },
            OutcomeView::Deactivated(id) => if stage == PortalStage::Listen && id == HOTKEY_ID@ {
                (stage, Some(ReportView::Hotkey(Event::Released)))
            } else {
                (stage, None)
            },
            OutcomeView::StreamEnded => if stage == PortalStage::Listen {
                (PortalStage::Done, None)
            } else {
                (stage, None)
            },
        }
    }
}

/// The next stage of the portal session and what to report to the controller.
pub struct PortalStep {
    pub stage: PortalStage,
    pub report: Option<RuntimeEvent>,
}

/// Decides what follows when the work of `stage` came back with `outcome`.
pub fn portal_step(stage: PortalStage, outcome: &PortalOutcome) -> (step: PortalStep)
    ensures
        step.stage == portal_transition(stage, outcome@).0,
        optional_report_view(step.report) == portal_transition(stage, outcome@).1,
{
    if stage == PortalStage::Done || stage == PortalStage::Failed {
        return PortalStep { stage, report: None };
    }
    match outcome {
        PortalOutcome::Failed(text) => PortalStep {
            stage: PortalStage::Failed,
            report: Some(RuntimeEvent::Error(portal_failed_status(text.as_str()))),
        },
        PortalOutcome::EntryInstalled(path) => if stage == PortalStage::InstallEntry {
            PortalStep {
                stage: PortalStage::Connect,
                report: Some(RuntimeEvent::Status(desktop_entry_status(path.as_str()))),
            }
        } else {
            PortalStep { stage, report: None }
        },
        PortalOutcome::Succeeded => match stage {
            PortalStage::Connect => PortalStep {
                stage: PortalStage::Register,
                report: Some(RuntimeEvent::Status(registering_status())),
            },
            PortalStage::Register => PortalStep { stage: PortalStage::OpenPortal, report: None },
            PortalStage::OpenPortal => PortalStep { stage: PortalStage::CreateSession, report: None },
            PortalStage::CreateSession => PortalStep {
                stage: PortalStage::Bind,
                report: Some(RuntimeEvent::Status(requesting_status())),
            },
            PortalStage::Subscribe => PortalStep { stage: PortalStage::Listen, report: None },
            _ => PortalStep { stage, report: None },
        },
        PortalOutcome::BindingAnswered(ids) => if stage != PortalStage::Bind {
            PortalStep { stage, report: None }
        } else {
            let bound = binding_includes_hotkey(ids);
            proof {
                let views = ids@.map_values(|id: String| id@);
                if bound {
                    let i: int = choose|i: int| 0 <= i < ids@.len() && #[trigger] ids@[i]@ == HOTKEY_ID@;
                    assert(views[i] == HOTKEY_ID@);
                } else {
                    assert forall|i: int| 0 <= i < views.len() implies views[i] != HOTKEY_ID@ by {
                        assert(views[i] == ids@[i]@);
                    }
                }
            }
            if bound {
                PortalStep {
                    stage: PortalStage::Subscribe,
                    report: Some(RuntimeEvent::Status(portal_registered_status())),
                }
            } else {
                let message = not_bound_message();
                PortalStep {
                    stage: PortalStage::Failed,
                    report: Some(RuntimeEvent::Error(portal_failed_status(message.as_str()))),
                }
            }
        },
        PortalOutcome::Activated(id) => if stage == PortalStage::Listen {
            match map_portal_event(id.as_str(), true) {
                Some(event) => PortalStep { stage, report: Some(RuntimeEvent::Hotkey(event)) },
                None => PortalStep { stage, report: None },
            }
        } else {
            PortalStep { stage, report: None }
        },
        PortalOutcome::Deactivated(id) => if stage == PortalStage::Listen {
            match map_portal_event(id.as_str(), false) {
                Some(event) => PortalStep { stage, report: Some(RuntimeEvent::Hotkey(event)) },
                None => PortalStep { stage, report: None },
            }
        } else {
            PortalStep { stage, report: None }
        },
        PortalOutcome::StreamEnded => if stage == PortalStage::Listen {
            PortalStep { stage: PortalStage::Done, report: None }
        } else {
            PortalStep { stage, report: None }
        },
    }
}

// ---------------------------------------------------------------------------------------------- //
// Laws of the portal session.

/// How far a stage lies along the session.
pub open spec fn stage_rank(stage: PortalStage) -> nat {
    match stage {
        PortalStage::InstallEntry => 0,
        PortalStage::Connect => 1,
        PortalStage::Register => 2,
        PortalStage::OpenPortal => 3,
        PortalStage::CreateSession => 4,
        PortalStage::Bind => 5,
        PortalStage::Subscribe => 6,
        PortalStage::Listen => 7,
        PortalStage::Done => 8,
        PortalStage::Failed => 8,
    }
}

/// An ended session stays ended and reports nothing more.
pub proof fn lemma_ended_session_stays(stage: PortalStage, outcome: OutcomeView)
    requires
        stage_is_terminal(stage),
    ensures
        portal_transition(stage, outcome) == (stage, Option::<ReportView>::None),
{
}

/// The session never goes back: each step stays where it is or moves on.
pub proof fn lemma_session_moves_forward(stage: PortalStage, outcome: OutcomeView)
    ensures
        stage_rank(stage) <= stage_rank(portal_transition(stage, outcome).0),
{
}

/// A failure of any running stage ends the session, and the controller is
/// told why.
pub proof fn lemma_failure_is_reported(stage: PortalStage, text: Seq<char>)
    requires
        !stage_is_terminal(stage),
    ensures
        portal_transition(stage, OutcomeView::Failed(text)) == (
            PortalStage::Failed,
            Some(ReportView::Error(portal_failed_text(text))),
        ),
{
}

/// The session subscribes to the shortcut only after the portal bound it.
pub proof fn lemma_subscribes_only_when_bound(stage: PortalStage, outcome: OutcomeView)
    requires
        portal_transition(stage, outcome).0 == PortalStage::Subscribe,
        stage != PortalStage::Subscribe,
    ensures
        stage == PortalStage::Bind,
        outcome matches OutcomeView::BindingAnswered(ids) && ids.contains(HOTKEY_ID@),
{
}

/// Presses and releases reach the controller only while the session listens,
/// and only for our shortcut.
pub proof fn lemma_hotkey_only_while_listening(stage: PortalStage, outcome: OutcomeView, event: Event)
    requires
        portal_transition(stage, outcome).1 == Some(ReportView::Hotkey(event)),
    ensures
        stage == PortalStage::Listen,
        portal_transition(stage, outcome).0 == PortalStage::Listen,
        outcome matches OutcomeView::Activated(id) ==> id == HOTKEY_ID@ && event == Event::Pressed,
        outcome matches OutcomeView::Deactivated(id) ==> id == HOTKEY_ID@ && event == Event::Released,
        outcome is Activated || outcome is Deactivated,
{
}

} // verus!
