use std::sync::mpsc;

use winit::app_delegate::{ControlFlow, StartCause};
use winit::channel::PeekableReceiver;
use winit::event::{ElementState, Ime};
use winit::event_loop::PumpStatus;
use winit::keyboard::{Key, KeyCode, KeyLocation, NamedKey, PhysicalKey};
use winit::ohos::{
    input_events, user_event_actions, InputEventModel, KeyAction, KeyboardStatus, MainEventModel,
    EventLoop, OhosAction, OhosEvent, OhosWindowEvent, TouchKind, TouchPhase,
};

fn event_loop() -> (mpsc::Sender<u32>, EventLoop<u32>) {
    let (sender, receiver) = mpsc::channel();
    (sender, EventLoop::new(PeekableReceiver::from_recv(receiver)))
}

fn dispatched(events: Vec<OhosEvent<u32>>) -> Vec<OhosAction<u32>> {
    let mut actions = Vec::new();
    for e in events {
        actions.push(OhosAction::Dispatch(e));
        actions.push(OhosAction::Dispatch(OhosEvent::AboutToWait));
    }
    actions
}

fn key(state: ElementState, named: NamedKey, code: KeyCode) -> OhosWindowEvent {
    OhosWindowEvent::KeyboardInput {
        device_id: 0,
        state,
        physical_key: PhysicalKey::Code(code),
        logical_key: Key::Named(named),
        location: KeyLocation::Standard,
        is_synthetic: false,
    }
}

#[test]
fn pumping_starts_with_new_events_and_continues() {
    let (_sender, el) = event_loop();
    assert_eq!(el.pump_events_begin(), dispatched(vec![OhosEvent::NewEvents(StartCause::Init)]));
    assert_eq!(el.pump_events_end(), PumpStatus::Continue);
    assert_eq!(el.window_target.control_flow(), ControlFlow::Wait);
    assert!(el.has_focus());
}

#[test]
fn focus_changes_are_reported_as_focused() {
    let (_sender, mut el) = event_loop();
    let actions = el.handle_main_event(MainEventModel::LostFocus);
    assert!(!el.has_focus());
    assert_eq!(
        actions,
        dispatched(vec![OhosEvent::WindowEvent(OhosWindowEvent::Focused(true))])
    );
    let actions = el.handle_main_event(MainEventModel::GainedFocus);
    assert!(el.has_focus());
    assert_eq!(
        actions,
        dispatched(vec![OhosEvent::WindowEvent(OhosWindowEvent::Focused(true))])
    );
}

#[test]
fn lifecycle_and_window_events() {
    let (_sender, mut el) = event_loop();
    assert_eq!(el.handle_main_event(MainEventModel::SurfaceCreate), dispatched(vec![OhosEvent::Resumed]));
    assert_eq!(el.handle_main_event(MainEventModel::SurfaceDestroy), dispatched(vec![OhosEvent::Suspended]));
    assert_eq!(
        el.handle_main_event(MainEventModel::WindowResize(None)),
        dispatched(vec![OhosEvent::WindowEvent(OhosWindowEvent::Resized(0, 0))])
    );
    assert_eq!(
        el.handle_main_event(MainEventModel::WindowResize(Some((640, 480)))),
        dispatched(vec![OhosEvent::WindowEvent(OhosWindowEvent::Resized(640, 480))])
    );
    assert!(el.handle_main_event(MainEventModel::ConfigChanged(None)).is_empty());
    assert_eq!(
        el.handle_main_event(MainEventModel::ConfigChanged(Some((1, 2)))),
        dispatched(vec![OhosEvent::WindowEvent(OhosWindowEvent::ScaleFactorChanged(1, 2))])
    );
    assert_eq!(el.handle_main_event(MainEventModel::LowMemory), dispatched(vec![OhosEvent::MemoryWarning]));
    assert_eq!(
        el.handle_main_event(MainEventModel::WindowDestroy),
        dispatched(vec![OhosEvent::WindowEvent(OhosWindowEvent::CloseRequested)])
    );
    assert!(el.handle_main_event(MainEventModel::Pause).is_empty());
    assert!(el.handle_main_event(MainEventModel::Destroy).is_empty());
}

#[test]
fn touches_become_one_event_per_point() {
    let events = input_events(InputEventModel::Touch {
        device_id: 9,
        kind: TouchKind::Down,
        point_ids: vec![4, -1],
    });
    assert_eq!(
        events,
        vec![
            OhosWindowEvent::Touch { device_id: 9, phase: TouchPhase::Started, point: 0, id: 4 },
            OhosWindowEvent::Touch {
                device_id: 9,
                phase: TouchPhase::Started,
                point: 1,
                id: u64::MAX,
            },
        ]
    );
    let other =
        input_events(InputEventModel::Touch { device_id: 9, kind: TouchKind::Other, point_ids: vec![1] });
    assert!(other.is_empty());
}

#[test]
fn key_events_press_and_release() {
    let events = input_events(InputEventModel::Key {
        device_id: 2,
        action: KeyAction::Other,
        physical_key: PhysicalKey::Code(KeyCode::KeyA),
        logical_key: Key::Character(String::from("a")),
        location: KeyLocation::Standard,
    });
    assert_eq!(
        events,
        vec![OhosWindowEvent::KeyboardInput {
            device_id: 2,
            state: ElementState::Released,
            physical_key: PhysicalKey::Code(KeyCode::KeyA),
            logical_key: Key::Character(String::from("a")),
            location: KeyLocation::Standard,
            is_synthetic: false,
        }]
    );
}

#[test]
fn input_method_events() {
    assert_eq!(
        input_events(InputEventModel::ImeText(String::from("héllo"))),
        vec![
            OhosWindowEvent::Ime(Ime::Preedit(String::from("héllo"), Some((6, 6)))),
            OhosWindowEvent::Ime(Ime::Commit(String::from("héllo"))),
        ]
    );
    assert_eq!(
        input_events(InputEventModel::ImeBackspace),
        vec![
            key(ElementState::Pressed, NamedKey::Backspace, KeyCode::Backspace),
            key(ElementState::Released, NamedKey::Backspace, KeyCode::Backspace),
        ]
    );
    assert_eq!(
        input_events(InputEventModel::ImeStatus(KeyboardStatus::Hide)),
        vec![
            key(ElementState::Pressed, NamedKey::Enter, KeyCode::Enter),
            key(ElementState::Released, NamedKey::Enter, KeyCode::Enter),
            OhosWindowEvent::Ime(Ime::Disabled),
        ]
    );
    assert!(input_events(InputEventModel::ImeStatus(KeyboardStatus::Other)).is_empty());
    let (_sender, mut el) = event_loop();
    let actions = el.handle_main_event(MainEventModel::Input(InputEventModel::ImeBackspace));
    assert_eq!(
        actions,
        dispatched(vec![
            OhosEvent::WindowEvent(key(ElementState::Pressed, NamedKey::Backspace, KeyCode::Backspace)),
            OhosEvent::WindowEvent(key(ElementState::Released, NamedKey::Backspace, KeyCode::Backspace)),
        ])
    );
}

#[test]
fn user_events_are_received_one_at_a_time() {
    let (sender, mut el) = event_loop();
    assert!(el.handle_main_event(MainEventModel::UserEvent).is_empty());
    sender.send(5).unwrap();
    sender.send(6).unwrap();
    assert_eq!(el.handle_main_event(MainEventModel::UserEvent), dispatched(vec![OhosEvent::UserEvent(5)]));
    assert_eq!(el.handle_main_event(MainEventModel::UserEvent), dispatched(vec![OhosEvent::UserEvent(6)]));
    assert!(user_event_actions::<u32>(Err(mpsc::TryRecvError::Empty)).is_empty());
    assert_eq!(user_event_actions(Ok(7u32)), dispatched(vec![OhosEvent::UserEvent(7)]));
}

#[test]
fn exiting_after_a_main_event() {
    let (_sender, mut el) = event_loop();
    assert!(el.after_main_event().is_empty());
    el.window_target.exit();
    assert!(el.window_target.exiting());
    let mut expected = dispatched(vec![OhosEvent::LoopExiting]);
    expected.push(OhosAction::Exit(0));
    assert_eq!(el.after_main_event(), expected);
    el.window_target.clear_exit();
    assert!(el.after_main_event().is_empty());
    el.window_target.set_control_flow(ControlFlow::Poll);
    assert_eq!(el.window_target.control_flow(), ControlFlow::Poll);
}
