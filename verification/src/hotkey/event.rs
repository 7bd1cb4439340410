use vstd::prelude::*;

verus! {

/// A change of the hotkey's state.
#[derive(Clone, Copy, Debug, PartialEq, Eq, Structural)]
pub enum Event {
    Pressed,
    Released,
}

/// What a hotkey backend reports to the controller.
#[derive(Debug)]
pub enum RuntimeEvent {
    Hotkey(Event),
    Status(String),
    Error(String),
}

impl Clone for RuntimeEvent {
    /// A copy of the event.
    fn clone(&self) -> (copy: RuntimeEvent)
        ensures
            match (copy, *self) {
                (RuntimeEvent::Hotkey(a), RuntimeEvent::Hotkey(b)) => a == b,
                (RuntimeEvent::Status(a), RuntimeEvent::Status(b)) => a@ == b@,
                (RuntimeEvent::Error(a), RuntimeEvent::Error(b)) => a@ == b@,
                _ => false,
            },
    {
        match self {
            RuntimeEvent::Hotkey(event) => RuntimeEvent::Hotkey(*event),
            RuntimeEvent::Status(message) => RuntimeEvent::Status(message.clone()),
            RuntimeEvent::Error(message) => RuntimeEvent::Error(message.clone()),
        }
    }
}

/// The event that the `global-hotkey` backend forwards: none for another
/// hotkey than ours, else pressed or released as the key state says.
pub fn map_hotkey_event(event_id: u32, hotkey_id: u32, pressed: bool) -> (event: Option<Event>)
    ensures
        event == (if event_id != hotkey_id {
            None
        } else if pressed {
            Some(Event::Pressed)
        } else {
            Some(Event::Released)
        }),
{
    if event_id != hotkey_id {
        return None;
    }
    if pressed {
        Some(Event::Pressed)
    } else {
        Some(Event::Released)
    }
}

/// The event that the portal backend forwards for an activation (`true`) or a
/// deactivation of the shortcut `shortcut_id`: none for another shortcut.
pub fn map_portal_event(shortcut_id: &str, activated: bool) -> (event: Option<Event>)
    ensures
        event == (if shortcut_id@ != super::HOTKEY_ID@ {
            None
        } else if activated {
            Some(Event::Pressed)
        } else {
            Some(Event::Released)
        }),
{
    let ours = super::HOTKEY_ID.to_owned();
    if !(shortcut_id.to_owned() == ours) {
        return None;
    }
    if activated {
        Some(Event::Pressed)
    } else {
        Some(Event::Released)
    }
}

} // verus!
