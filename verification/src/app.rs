//! The application's handling of every event it sends: a key release with Command held
//! goes straight to the key window, and mouse motion and buttons become device events.
use vstd::prelude::*;

use crate::appkit::NSEventType;
use crate::event::{flags_contain, ElementState, NS_FLAG_COMMAND};

verus! {

/// Where `sendEvent:` sends an event.
#[derive(Clone, Copy, Debug, PartialEq, Eq, Structural)]
pub enum SendEventRoute {
    /// Straight to the key window (if any), and nowhere else: with Command held, AppKit
    /// would otherwise never deliver the key release.
    KeyWindow,
    /// Turned into device events, then handled as AppKit does.
    DeviceEventsThenAppKit,
}

/// Where an event of this type with these modifier flags is sent.
pub fn send_event_route(event_type: NSEventType, modifier_flags: usize) -> (r: SendEventRoute)
    ensures
        r == (if event_type == NSEventType::NSKeyUp && flags_contain(modifier_flags, NS_FLAG_COMMAND) {
            SendEventRoute::KeyWindow
        } else {
            SendEventRoute::DeviceEventsThenAppKit
        }),
{
    if event_type == NSEventType::NSKeyUp && modifier_flags & NS_FLAG_COMMAND == NS_FLAG_COMMAND {
        SendEventRoute::KeyWindow
    } else {
        SendEventRoute::DeviceEventsThenAppKit
    }
}

/// A device event that an application event gives.
#[derive(Clone, Copy, Debug, PartialEq, Eq, Structural)]
pub enum DeviceEventKind {
    /// Motion along an axis (0 horizontal, 1 vertical) by the event's delta on it.
    Motion { axis: u32 },
    /// Motion of the mouse by the event's deltas.
    MouseMotion,
    /// A mouse button went down or up.
    Button { button: u32, state: ElementState },
}

/// Whether an event type is mouse motion (moved or dragged with any button).
pub open spec fn is_motion(t: NSEventType) -> bool {
    t == NSEventType::NSMouseMoved || t == NSEventType::NSLeftMouseDragged || t
        == NSEventType::NSOtherMouseDragged || t == NSEventType::NSRightMouseDragged
}

/// Whether an event type is a mouse button going down.
pub open spec fn is_button_down(t: NSEventType) -> bool {
    t == NSEventType::NSLeftMouseDown || t == NSEventType::NSRightMouseDown || t
        == NSEventType::NSOtherMouseDown
}

/// Whether an event type is a mouse button going up.
pub open spec fn is_button_up(t: NSEventType) -> bool {
    t == NSEventType::NSLeftMouseUp || t == NSEventType::NSRightMouseUp || t
        == NSEventType::NSOtherMouseUp
}

/// The device events of an application event: for motion, one per axis that moved and one
/// for the mouse if either did; for a button, its press or release; none otherwise.
pub open spec fn device_events_of(
    event_type: NSEventType,
    moved_x: bool,
    moved_y: bool,
    button_number: isize,
) -> Seq<DeviceEventKind> {
    if is_motion(event_type) {
        (if moved_x { seq![DeviceEventKind::Motion { axis: 0 }] } else { Seq::empty() }) + (if moved_y {
            seq![DeviceEventKind::Motion { axis: 1 }]
        } else {
            Seq::empty()
        }) + (if moved_x || moved_y { seq![DeviceEventKind::MouseMotion] } else { Seq::empty() })
    } else if is_button_down(event_type) {
        seq![DeviceEventKind::Button { button: button_number as u32, state: ElementState::Pressed }]
    } else if is_button_up(event_type) {
        seq![DeviceEventKind::Button { button: button_number as u32, state: ElementState::Released }]
    } else {
        Seq::empty()
    }
}

/// The device events to queue for an application event; `moved_x` and `moved_y` say
/// whether its deltas are non-zero.
pub fn maybe_dispatch_device_event(
    event_type: NSEventType,
    moved_x: bool,
    moved_y: bool,
    button_number: isize,
) -> (r: Vec<DeviceEventKind>)
    ensures
        r@ == device_events_of(event_type, moved_x, moved_y, button_number),
{
    let mut events: Vec<DeviceEventKind> = Vec::new();
    match event_type {
        NSEventType::NSMouseMoved | NSEventType::NSLeftMouseDragged
        | NSEventType::NSOtherMouseDragged | NSEventType::NSRightMouseDragged => {
            if moved_x {
                events.push(DeviceEventKind::Motion { axis: 0 });
            }
            if moved_y {
                events.push(DeviceEventKind::Motion { axis: 1 });
            }
            if moved_x || moved_y {
                events.push(DeviceEventKind::MouseMotion);
            }
            proof {
                assert(events@ =~= device_events_of(event_type, moved_x, moved_y, button_number));
            }
        },
        NSEventType::NSLeftMouseDown | NSEventType::NSRightMouseDown
        | NSEventType::NSOtherMouseDown => {
            let button = #[verifier::truncate] (button_number as u32);
            events.push(DeviceEventKind::Button { button, state: ElementState::Pressed });
            proof {
                assert(events@ =~= device_events_of(event_type, moved_x, moved_y, button_number));
            }
        },
        NSEventType::NSLeftMouseUp | NSEventType::NSRightMouseUp | NSEventType::NSOtherMouseUp => {
            let button = #[verifier::truncate] (button_number as u32);
            events.push(DeviceEventKind::Button { button, state: ElementState::Released });
            proof {
                assert(events@ =~= device_events_of(event_type, moved_x, moved_y, button_number));
            }
        },
        _ => {
            proof {
                assert(events@ =~= device_events_of(event_type, moved_x, moved_y, button_number));
            }
        },
    }
    events
}

} // verus!
