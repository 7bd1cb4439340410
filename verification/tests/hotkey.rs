use error_location::ErrorLocation;
use gpui_template::hotkey::backend_kind::{select_backend_kind, BackendKind, HotkeyBackendKind};
use gpui_template::hotkey::controller::{Controller, Effect};
use gpui_template::hotkey::error::AppError;
use gpui_template::hotkey::error_chain::{error_message, format_error_chain, join_messages};
use gpui_template::hotkey::event::{map_hotkey_event, map_portal_event, Event, RuntimeEvent};
use gpui_template::hotkey::overlay::{deactivate_before_opening, release_hint, HotkeyWindow};
use gpui_template::hotkey::portal::{
    binding_includes_hotkey, describe_bind_shortcuts_error, desktop_entry_status,
    native_registered_status, not_bound_message, portal_failed_status, portal_registered_status,
    portal_step, registering_status, requesting_status, BindFailure, PortalOutcome, PortalStage,
};
use gpui_template::hotkey::HOTKEY_LABEL;

fn is_nothing(effect: &Effect<u32>) -> bool {
    matches!(effect, Effect::Nothing)
}

fn is_notify(effect: &Effect<u32>) -> bool {
    matches!(effect, Effect::Notify)
}

#[test]
fn backend_labels() {
    assert_eq!(BackendKind::GlobalHotkey.label(), "global-hotkey");
    assert_eq!(BackendKind::WaylandPortal.label(), "XDG portal global shortcuts");
    assert_eq!(HotkeyBackendKind::GlobalHotkey.label(), "global-hotkey");
    assert_eq!(HotkeyBackendKind::WaylandPortal.label(), "XDG portal global shortcuts");
}

#[test]
fn backend_selection() {
    assert_eq!(select_backend_kind(true, true), BackendKind::WaylandPortal);
    assert_eq!(select_backend_kind(true, false), BackendKind::GlobalHotkey);
    assert_eq!(select_backend_kind(false, true), BackendKind::GlobalHotkey);
}

#[test]
fn new_controller_is_starting() {
    let controller: Controller<u32> = Controller::new(BackendKind::WaylandPortal);
    let snapshot = controller.snapshot();
    assert_eq!(snapshot.status, "Starting XDG portal global shortcuts backend");
    assert_eq!(snapshot.hotkey_label, "Ctrl+Alt+Space");
    assert_eq!(snapshot.backend_label, "XDG portal global shortcuts");
    assert!(!snapshot.is_hotkey_down);
    assert!(!snapshot.popup_open);
    assert_eq!(snapshot.state_text(), "idle");
    assert_eq!(snapshot.overlay_text(), "hidden");
    assert_eq!(Controller::<u32>::hotkey_label(), HOTKEY_LABEL);
}

#[test]
fn hold_opens_overlay_and_release_hides_it() {
    let mut controller: Controller<u32> = Controller::new(BackendKind::GlobalHotkey);
    let effect = controller.apply_runtime_event(RuntimeEvent::Hotkey(Event::Pressed));
    assert!(matches!(effect, Effect::OpenPopup));
    assert_eq!(controller.snapshot().status, "Hotkey is down");
    assert!(!controller.snapshot().popup_open);
    assert!(is_notify(&controller.popup_opened(Ok(7))));
    let snapshot = controller.snapshot();
    assert!(snapshot.is_hotkey_down && snapshot.popup_open);
    assert_eq!(snapshot.state_text(), "held");
    assert_eq!(snapshot.overlay_text(), "visible");

    let effect = controller.apply_runtime_event(RuntimeEvent::Hotkey(Event::Released));
    assert!(matches!(effect, Effect::HidePopup(7)));
    assert!(is_notify(&controller.popup_hidden(true)));
    let snapshot = controller.snapshot();
    assert_eq!(snapshot.status, "Waiting for Ctrl+Alt+Space");
    assert!(!snapshot.is_hotkey_down && !snapshot.popup_open);

    let effect = controller.apply_runtime_event(RuntimeEvent::Hotkey(Event::Pressed));
    assert!(matches!(effect, Effect::ShowPopup(7)));
    assert!(is_notify(&controller.popup_shown(true)));
    assert!(controller.snapshot().popup_open);
}

#[test]
fn repeated_press_is_ignored() {
    let mut controller: Controller<u32> = Controller::new(BackendKind::GlobalHotkey);
    controller.hotkey_pressed();
    controller.popup_opened(Ok(1));
    let effect = controller.hotkey_pressed();
    assert!(is_nothing(&effect));
    assert!(controller.snapshot().popup_open);
}

#[test]
fn failed_show_opens_a_new_overlay() {
    let mut controller: Controller<u32> = Controller::new(BackendKind::GlobalHotkey);
    controller.hotkey_pressed();
    controller.popup_opened(Ok(1));
    controller.hotkey_released();
    controller.popup_hidden(true);
    assert!(matches!(controller.hotkey_pressed(), Effect::ShowPopup(1)));
    assert!(matches!(controller.popup_shown(false), Effect::OpenPopup));
    assert!(!controller.snapshot().popup_open);
    controller.popup_opened(Ok(2));
    assert!(matches!(controller.hotkey_released(), Effect::HidePopup(2)));
}

#[test]
fn failed_hide_forgets_the_overlay() {
    let mut controller: Controller<u32> = Controller::new(BackendKind::GlobalHotkey);
    controller.hotkey_pressed();
    controller.popup_opened(Ok(3));
    controller.hotkey_released();
    assert!(is_notify(&controller.popup_hidden(false)));
    assert!(matches!(controller.hotkey_pressed(), Effect::OpenPopup));
}

#[test]
fn failed_open_reports_status() {
    let mut controller: Controller<u32> = Controller::new(BackendKind::GlobalHotkey);
    controller.hotkey_pressed();
    assert!(is_notify(&controller.popup_opened(Err("no display".to_string()))));
    let snapshot = controller.snapshot();
    assert_eq!(snapshot.status, "Failed to open hotkey window: no display");
    assert!(snapshot.is_hotkey_down && !snapshot.popup_open);
}

#[test]
fn release_without_overlay_just_notifies() {
    let mut controller: Controller<u32> = Controller::new(BackendKind::GlobalHotkey);
    assert!(is_notify(&controller.hotkey_released()));
}

#[test]
fn backend_messages_replace_status() {
    let mut controller: Controller<u32> = Controller::new(BackendKind::GlobalHotkey);
    assert!(is_notify(&controller.apply_runtime_event(RuntimeEvent::Status("ready".to_string()))));
    assert_eq!(controller.snapshot().status, "ready");
    assert!(is_notify(&controller.apply_runtime_event(RuntimeEvent::Error("broken".to_string()))));
    assert_eq!(controller.snapshot().status, "broken");
}

#[test]
fn closing_windows() {
    let mut controller: Controller<u32> = Controller::new(BackendKind::GlobalHotkey);
    let outcome = controller.window_closed(true, &vec![5], 5);
    assert!(!outcome.notify && !outcome.quit);
    controller.hotkey_pressed();
    controller.popup_opened(Ok(5));
    let outcome = controller.window_closed(false, &vec![5, 6], 5);
    assert!(!outcome.notify && !outcome.quit);
    let outcome = controller.window_closed(false, &vec![5], 5);
    assert!(!outcome.notify && outcome.quit);
    let outcome = controller.window_closed(true, &vec![6], 5);
    assert!(outcome.notify && !outcome.quit);
    assert!(!controller.snapshot().popup_open);
}

#[test]
fn event_mapping() {
    assert_eq!(map_hotkey_event(1, 2, true), None);
    assert_eq!(map_hotkey_event(2, 2, true), Some(Event::Pressed));
    assert_eq!(map_hotkey_event(2, 2, false), Some(Event::Released));
    assert_eq!(map_portal_event("hold-overlay", true), Some(Event::Pressed));
    assert_eq!(map_portal_event("hold-overlay", false), Some(Event::Released));
    assert_eq!(map_portal_event("other", true), None);
}

#[test]
fn overlay_window_state() {
    let mut window = HotkeyWindow::new(BackendKind::WaylandPortal);
    assert!(window.is_visible());
    window.conceal();
    assert!(!window.is_visible());
    window.show();
    assert!(window.is_visible());
    assert_eq!(window.backend_kind(), BackendKind::WaylandPortal);
    assert_eq!(release_hint(), "Release Ctrl+Alt+Space to close");
    assert!(deactivate_before_opening(BackendKind::WaylandPortal));
    assert!(!deactivate_before_opening(BackendKind::GlobalHotkey));
}

#[test]
fn portal_messages() {
    assert_eq!(
        describe_bind_shortcuts_error(BindFailure::Cancelled),
        "Wayland global shortcut binding was cancelled"
    );
    assert!(describe_bind_shortcuts_error(BindFailure::Other)
        .starts_with("Wayland portal returned response code 2 (Other) while binding Ctrl+Alt+Space. "));
    assert_eq!(
        describe_bind_shortcuts_error(BindFailure::Unexpected),
        "read Wayland global shortcut binding response"
    );
    assert!(binding_includes_hotkey(&vec!["x".to_string(), "hold-overlay".to_string()]));
    assert!(!binding_includes_hotkey(&vec!["x".to_string()]));
    assert!(!binding_includes_hotkey(&Vec::new()));
    assert_eq!(desktop_entry_status("/a/b.desktop"), "Using desktop entry /a/b.desktop");
    assert_eq!(registering_status(), "Registering dev.gpui.HotkeyHoldApp with the XDG portal");
    assert_eq!(requesting_status(), "Requesting Ctrl+Alt+Space; approve it in the portal dialog");
    assert_eq!(portal_registered_status(), "Registered Ctrl+Alt+Space through the Wayland portal");
    assert_eq!(
        not_bound_message(),
        "portal did not bind Ctrl+Alt+Space; use the desktop shortcut dialog to allow it"
    );
    assert_eq!(
        native_registered_status(),
        "Registered Ctrl+Alt+Space; hold it to show the overlay"
    );
    assert_eq!(portal_failed_status("x: y"), "Wayland global shortcut portal failed: x: y");
}

#[test]
fn error_chain_is_joined() {
    let error = anyhow::Error::msg("root cause").context("middle").context("outer");
    assert_eq!(format_error_chain(&error), "outer: middle: root cause");
    let single = anyhow::Error::msg("alone");
    assert_eq!(format_error_chain(&single), "alone");
    assert_eq!(error_message(&error), "outer");
    assert_eq!(join_messages(&vec![]), "");
    assert_eq!(join_messages(&vec!["a".to_string(), "b".to_string()]), "a: b");
}

#[test]
fn hotkey_app_errors() {
    let at = ErrorLocation { file: "main.rs", line: 3, column: 9 };
    let error = AppError::hotkey_runtime(&anyhow::Error::msg("no manager"), at);
    assert_eq!(error.message(), "Hotkey Runtime Error");
    assert_eq!(error.location().line, 3);
    match &error {
        AppError::HotkeyRuntime { message, .. } => {
            assert_eq!(message, "Failed to start hotkey runtime: no manager")
        }
        _ => panic!("wrong variant"),
    }
    let error = AppError::main_window(&anyhow::Error::msg("gone"), at);
    assert_eq!(error.message(), "Main Window Error");
    match &error {
        AppError::MainWindow { message, .. } => assert_eq!(message, "Failed to open main window: gone"),
        _ => panic!("wrong variant"),
    }
}

#[test]
fn clones_keep_contents() {
    let event = RuntimeEvent::Status("hello".to_string());
    match event.clone() {
        RuntimeEvent::Status(message) => assert_eq!(message, "hello"),
        _ => panic!("wrong variant"),
    }
    assert!(matches!(RuntimeEvent::Hotkey(Event::Released).clone(), RuntimeEvent::Hotkey(Event::Released)));
    let controller: Controller<u32> = Controller::new(BackendKind::GlobalHotkey);
    let snapshot = controller.snapshot().clone();
    assert_eq!(snapshot.status, "Starting global-hotkey backend");
    assert_eq!(controller.backend_kind(), BackendKind::GlobalHotkey);
    assert_eq!(controller.popup_window(), None);
}

fn status_text(report: Option<RuntimeEvent>) -> Option<String> {
    match report {
        Some(RuntimeEvent::Status(text)) => Some(text),
        _ => None,
    }
}

fn error_text(report: Option<RuntimeEvent>) -> Option<String> {
    match report {
        Some(RuntimeEvent::Error(text)) => Some(text),
        _ => None,
    }
}

#[test]
fn portal_session_reports_statuses_in_order() {
    let mut stage = PortalStage::InstallEntry;
    let mut statuses = Vec::new();
    let outcomes = vec![
        PortalOutcome::EntryInstalled("/home/u/.local/share/applications/a.desktop".to_string()),
        PortalOutcome::Succeeded,
        PortalOutcome::Succeeded,
        PortalOutcome::Succeeded,
        PortalOutcome::Succeeded,
        PortalOutcome::BindingAnswered(vec!["other".to_string(), "hold-overlay".to_string()]),
        PortalOutcome::Succeeded,
    ];
    for outcome in &outcomes {
        let step = portal_step(stage, outcome);
        if let Some(text) = status_text(step.report) {
            statuses.push(text);
        }
        stage = step.stage;
    }
    assert_eq!(stage, PortalStage::Listen);
    assert_eq!(
        statuses,
        vec![
            "Using desktop entry /home/u/.local/share/applications/a.desktop".to_string(),
            "Registering dev.gpui.HotkeyHoldApp with the XDG portal".to_string(),
            "Requesting Ctrl+Alt+Space; approve it in the portal dialog".to_string(),
            "Registered Ctrl+Alt+Space through the Wayland portal".to_string(),
        ]
    );
}

#[test]
fn portal_session_stops_when_shortcut_not_bound() {
    let step = portal_step(
        PortalStage::Bind,
        &PortalOutcome::BindingAnswered(vec!["other".to_string()]),
    );
    assert_eq!(step.stage, PortalStage::Failed);
    assert_eq!(
        error_text(step.report).unwrap(),
        "Wayland global shortcut portal failed: portal did not bind Ctrl+Alt+Space; use the desktop shortcut dialog to allow it"
    );
}

#[test]
fn portal_session_reports_failure_and_stays_failed() {
    let step = portal_step(
        PortalStage::Connect,
        &PortalOutcome::Failed("connect to the session bus for Wayland global shortcuts: no bus".to_string()),
    );
    assert_eq!(step.stage, PortalStage::Failed);
    assert_eq!(
        error_text(step.report).unwrap(),
        "Wayland global shortcut portal failed: connect to the session bus for Wayland global shortcuts: no bus"
    );
    let after = portal_step(PortalStage::Failed, &PortalOutcome::Succeeded);
    assert_eq!(after.stage, PortalStage::Failed);
    assert!(after.report.is_none());
    let done = portal_step(PortalStage::Done, &PortalOutcome::Activated("hold-overlay".to_string()));
    assert_eq!(done.stage, PortalStage::Done);
    assert!(done.report.is_none());
}

#[test]
fn portal_session_forwards_our_shortcut_while_listening() {
    let pressed = portal_step(PortalStage::Listen, &PortalOutcome::Activated("hold-overlay".to_string()));
    assert_eq!(pressed.stage, PortalStage::Listen);
    assert!(matches!(pressed.report, Some(RuntimeEvent::Hotkey(Event::Pressed))));
    let released = portal_step(PortalStage::Listen, &PortalOutcome::Deactivated("hold-overlay".to_string()));
    assert!(matches!(released.report, Some(RuntimeEvent::Hotkey(Event::Released))));
    let other = portal_step(PortalStage::Listen, &PortalOutcome::Activated("other".to_string()));
    assert!(other.report.is_none());
    let early = portal_step(PortalStage::Bind, &PortalOutcome::Activated("hold-overlay".to_string()));
    assert_eq!(early.stage, PortalStage::Bind);
    assert!(early.report.is_none());
    let ended = portal_step(PortalStage::Listen, &PortalOutcome::StreamEnded);
    assert_eq!(ended.stage, PortalStage::Done);
    assert!(ended.report.is_none());
}

#[test]
fn hotkey_app_errors_from_reasons() {
    let at = ErrorLocation { file: "main.rs", line: 5, column: 2 };
    match AppError::hotkey_runtime_because("no manager", at) {
        AppError::HotkeyRuntime { message, location } => {
            assert_eq!(message, "Failed to start hotkey runtime: no manager");
            assert_eq!(location.column, 2);
        }
        _ => panic!("wrong variant"),
    }
    match AppError::main_window_because("gone", at) {
        AppError::MainWindow { message, .. } => assert_eq!(message, "Failed to open main window: gone"),
        _ => panic!("wrong variant"),
    }
}
