//! The OpenHarmony event loop: how the events of the ability's main loop and its input
//! events become the events of the application's handler.
//!
//! The ability's own loop calls back once per main event; each decision here returns the
//! [`OhosAction`]s to perform, in order. Every event handed to the handler is followed by
//! `AboutToWait`.
use vstd::prelude::*;

use crate::app_delegate::{ControlFlow, StartCause};
use crate::channel::PeekableReceiver;
use crate::event::{ElementState, Ime};
use crate::event_loop::PumpStatus;
use crate::keyboard::{Key, KeyCode, KeyLocation, NamedKey, PhysicalKey};

use std::sync::mpsc::TryRecvError;

verus! {

/// The kind of a touch event of the ability.
#[derive(Clone, Copy, Debug, PartialEq, Eq, Structural)]
pub enum TouchKind {
    Down,
    Up,
    Move,
    Cancel,
    /// Any other kind (such as mouse events), which is not reported.
    Other,
}

/// The phase of a touch.
#[derive(Clone, Copy, Debug, PartialEq, Eq, Structural)]
pub enum TouchPhase {
    Started,
    Moved,
    Ended,
    Cancelled,
}

/// The action of a key event of the ability.
#[derive(Clone, Copy, Debug, PartialEq, Eq, Structural)]
pub enum KeyAction {
    Down,
    Up,
    Other,
}

/// The status of the soft keyboard that the input method reports.
#[derive(Clone, Copy, Debug, PartialEq, Eq, Structural)]
pub enum KeyboardStatus {
    Hide,
    Other,
}

/// An input event of the ability, as the event loop reads it. A touch lists the
/// identifiers of its points, in order; their positions and forces, which are floating
/// point, stay with the caller and are found again by index. A key event carries the keys
/// that its key code stands for.
#[derive(Debug)]
pub enum InputEventModel {
    Touch { device_id: i32, kind: TouchKind, point_ids: Vec<i32> },
    Key {
        device_id: i32,
        action: KeyAction,
        physical_key: PhysicalKey,
        logical_key: Key,
        location: KeyLocation,
    },
    /// Text that the input method entered.
    ImeText(String),
    /// The input method deleted backwards.
    ImeBackspace,
    ImeStatus(KeyboardStatus),
    Other,
}

/// A main event of the ability. A size is that of the native window, if there is one.
#[derive(Debug)]
pub enum MainEventModel {
    SurfaceCreate,
    SurfaceDestroy,
    WindowResize(Option<(u32, u32)>),
    WindowRedraw,
    ContentRectChange,
    GainedFocus,
    LostFocus,
    ConfigChanged(Option<(u32, u32)>),
    LowMemory,
    Start,
    Resume,
    SaveState,
    Pause,
    WindowDestroy,
    Destroy,
    Input(InputEventModel),
    UserEvent,
    Other,
}

/// An event of the (only) window. A touch refers to its point by index in the input
/// event; a scale-factor change carries the window size, the caller adds the scale.
#[derive(Debug, PartialEq, Eq)]
pub enum OhosWindowEvent {
    Touch { device_id: i32, phase: TouchPhase, point: usize, id: u64 },
    /// A key press or release; such events never repeat and carry no text.
    KeyboardInput {
        device_id: i32,
        state: ElementState,
        physical_key: PhysicalKey,
        logical_key: Key,
        location: KeyLocation,
        is_synthetic: bool,
    },
    Ime(Ime),
    Resized(u32, u32),
    RedrawRequested,
    Focused(bool),
    ScaleFactorChanged(u32, u32),
    CloseRequested,
}

/// An event for the application's handler; `T` is the user event payload.
#[derive(Debug, PartialEq, Eq)]
pub enum OhosEvent<T> {
    NewEvents(StartCause),
    WindowEvent(OhosWindowEvent),
    UserEvent(T),
    Resumed,
    Suspended,
    MemoryWarning,
    AboutToWait,
    LoopExiting,
}

/// A step that the caller must perform.
#[derive(Debug, PartialEq, Eq)]
pub enum OhosAction<T> {
    /// Call the application's handler with this event.
    Dispatch(OhosEvent<T>),
    /// Ask the ability to exit with this code.
    Exit(i32),
}

/// The actions that hand events to the handler, each followed by `AboutToWait`.
pub open spec fn dispatched<T>(events: Seq<OhosEvent<T>>) -> Seq<OhosAction<T>>
    decreases events.len(),
{
    if events.len() == 0 {
        Seq::empty()
    } else {
        dispatched(events.drop_last()) + seq![
            OhosAction::Dispatch(events.last()),
            OhosAction::Dispatch(OhosEvent::AboutToWait),
        ]
    }
}

/// The phase of a touch of this kind, if it is reported.
pub open spec fn touch_phase(kind: TouchKind) -> Option<TouchPhase> {
    match kind {
        TouchKind::Down => Some(TouchPhase::Started),
        TouchKind::Up => Some(TouchPhase::Ended),
        TouchKind::Move => Some(TouchPhase::Moved),
        TouchKind::Cancel => Some(TouchPhase::Cancelled),
        TouchKind::Other => None,
    }
}

/// Whether a key action presses or releases the key (anything but a press releases it).
pub open spec fn key_state(action: KeyAction) -> ElementState {
    match action {
        KeyAction::Down => ElementState::Pressed,
        _ => ElementState::Released,
    }
}

/// The length in UTF-8 bytes of a text.
pub open spec fn utf8_len(text: String) -> usize {
    vstd::utf8::encode_utf8(text@).len() as usize
}

/// A press and a release of a named key, as the input method's stand-in for it.
pub open spec fn synthetic_key(named: NamedKey, code: KeyCode) -> Seq<OhosWindowEvent> {
    seq![
        OhosWindowEvent::KeyboardInput {
            device_id: 0,
            state: ElementState::Pressed,
            physical_key: PhysicalKey::Code(code),
            logical_key: Key::Named(named),
            location: KeyLocation::Standard,
            is_synthetic: false,
        },
        OhosWindowEvent::KeyboardInput {
            device_id: 0,
            state: ElementState::Released,
            physical_key: PhysicalKey::Code(code),
            logical_key: Key::Named(named),
            location: KeyLocation::Standard,
            is_synthetic: false,
        },
    ]
}

/// The window events of an input event: one touch per point for a reported touch kind;
/// the key event; entered text as a preedit with the cursor at its end, then committed;
/// a press and release of Backspace for deleting; a press and release of Enter, then IME
/// disabled, when the soft keyboard hides; nothing otherwise.
pub open spec fn spec_input_events(ev: InputEventModel) -> Seq<OhosWindowEvent> {
    match ev {
        InputEventModel::Touch { device_id, kind, point_ids } => match touch_phase(kind) {
            Some(phase) => Seq::new(
                point_ids@.len(),
                |i: int|
                    OhosWindowEvent::Touch {
                        device_id,
                        phase,
                        point: i as usize,
                        id: point_ids@[i] as u64,
                    },
            ),
            None => Seq::empty(),
        },
        InputEventModel::Key { device_id, action, physical_key, logical_key, location } => seq![
            OhosWindowEvent::KeyboardInput {
                device_id,
                state: key_state(action),
                physical_key,
                logical_key,
                location,
                is_synthetic: false,
            },
        ],
        InputEventModel::ImeText(text) => seq![
            OhosWindowEvent::Ime(Ime::Preedit(text, Some((utf8_len(text), utf8_len(text))))),
            OhosWindowEvent::Ime(Ime::Commit(text)),
        ],
        InputEventModel::ImeBackspace => synthetic_key(NamedKey::Backspace, KeyCode::Backspace),
        InputEventModel::ImeStatus(KeyboardStatus::Hide) => synthetic_key(
            NamedKey::Enter,
            KeyCode::Enter,
        ) + seq![OhosWindowEvent::Ime(Ime::Disabled)],
        InputEventModel::ImeStatus(KeyboardStatus::Other) => Seq::empty(),
        InputEventModel::Other => Seq::empty(),
    }
}

/// The window events as events for the handler.
pub open spec fn window_events<T>(events: Seq<OhosWindowEvent>) -> Seq<OhosEvent<T>> {
    Seq::new(events.len(), |i: int| OhosEvent::WindowEvent(events[i]))
}

/// The handler's events for a main event other than a user event. Losing the focus
/// reports `Focused(true)`, as gaining it does.
pub open spec fn main_event_events<T>(event: MainEventModel) -> Seq<OhosEvent<T>> {
    match event {
        MainEventModel::SurfaceCreate => seq![OhosEvent::Resumed],
        MainEventModel::SurfaceDestroy => seq![OhosEvent::Suspended],
        MainEventModel::WindowResize(size) => {
            let (w, h) = match size {
                Some(s) => s,
                None => (0u32, 0u32),
            };
            seq![OhosEvent::WindowEvent(OhosWindowEvent::Resized(w, h))]
        },
        MainEventModel::WindowRedraw => seq![OhosEvent::WindowEvent(OhosWindowEvent::RedrawRequested)],
        MainEventModel::GainedFocus => seq![OhosEvent::WindowEvent(OhosWindowEvent::Focused(true))],
        MainEventModel::LostFocus => seq![OhosEvent::WindowEvent(OhosWindowEvent::Focused(true))],
        MainEventModel::ConfigChanged(size) => match size {
            Some((w, h)) => seq![OhosEvent::WindowEvent(OhosWindowEvent::ScaleFactorChanged(w, h))],
            None => Seq::empty(),
        },
        MainEventModel::LowMemory => seq![OhosEvent::MemoryWarning],
        MainEventModel::Resume => seq![OhosEvent::Resumed],
        MainEventModel::WindowDestroy => seq![OhosEvent::WindowEvent(OhosWindowEvent::CloseRequested)],
        MainEventModel::Input(input) => window_events(spec_input_events(input)),
        _ => Seq::empty(),
    }
}

/// The focus after a main event: gained and lost focus set it, other events keep it.
pub open spec fn focus_after(has_focus: bool, event: MainEventModel) -> bool {
    match event {
        MainEventModel::GainedFocus => true,
        MainEventModel::LostFocus => false,
        _ => has_focus,
    }
}

/// What follows every main event: when the application asked to exit, `LoopExiting` and
/// the request to exit with code 0.
pub open spec fn exit_actions<T>(exit: bool) -> Seq<OhosAction<T>> {
    if exit {
        dispatched(seq![OhosEvent::LoopExiting]) + seq![OhosAction::Exit(0)]
    } else {
        Seq::empty()
    }
}

/// The handler's events of a received user event: it, if one came.
pub open spec fn user_events<T>(received: Result<T, TryRecvError>) -> Seq<OhosEvent<T>> {
    match received {
        Ok(v) => seq![OhosEvent::UserEvent(v)],
        Err(_) => Seq::empty(),
    }
}

/// Appends the dispatch of `e` and of `AboutToWait`.
fn dispatch<T>(actions: &mut Vec<OhosAction<T>>, e: OhosEvent<T>, Ghost(events): Ghost<Seq<OhosEvent<T>>>)
    requires
        old(actions)@ == dispatched(events),
    ensures
        final(actions)@ == dispatched(events.push(e)),
{
    proof {
        assert(events.push(e).drop_last() =~= events);
    }
    actions.push(OhosAction::Dispatch(e));
    actions.push(OhosAction::Dispatch(OhosEvent::AboutToWait));
    proof {
        assert(final(actions)@ =~= dispatched(events) + seq![
            OhosAction::Dispatch(e),
            OhosAction::Dispatch(OhosEvent::AboutToWait),
        ]);
    }
}

/// The press and release of a named key that the input method stands in for.
fn push_synthetic_key(events: &mut Vec<OhosWindowEvent>, named: NamedKey, code: KeyCode)
    ensures
        final(events)@ == old(events)@ + synthetic_key(named, code),
{
    events.push(
        OhosWindowEvent::KeyboardInput {
            device_id: 0,
            state: ElementState::Pressed,
            physical_key: PhysicalKey::Code(code),
            logical_key: Key::Named(named),
            location: KeyLocation::Standard,
            is_synthetic: false,
        },
    );
    events.push(
        OhosWindowEvent::KeyboardInput {
            device_id: 0,
            state: ElementState::Released,
            physical_key: PhysicalKey::Code(code),
            logical_key: Key::Named(named),
            location: KeyLocation::Standard,
            is_synthetic: false,
        },
    );
    proof {
        assert(final(events)@ =~= old(events)@ + synthetic_key(named, code));
    }
}

/// The touch events of a touch of this kind; see [`spec_input_events`].
fn touch_events(device_id: i32, kind: TouchKind, point_ids: &Vec<i32>) -> (r: Vec<OhosWindowEvent>)
    ensures
        r@ == spec_input_events(
            InputEventModel::Touch { device_id, kind, point_ids: *point_ids },
        ),
{
    let mut events: Vec<OhosWindowEvent> = Vec::new();
    let phase = match kind {
        TouchKind::Down => TouchPhase::Started,
        TouchKind::Up => TouchPhase::Ended,
        TouchKind::Move => TouchPhase::Moved,
        TouchKind::Cancel => TouchPhase::Cancelled,
        TouchKind::Other => {
            return events;
        },
    };
    let ghost all = Seq::new(
        point_ids@.len(),
        |i: int|
            OhosWindowEvent::Touch { device_id, phase, point: i as usize, id: point_ids@[i] as u64 },
    );
    let mut i: usize = 0;
    while i < point_ids.len()
        invariant
            i <= point_ids@.len(),
            all.len() == point_ids@.len(),
            all == Seq::new(
                point_ids@.len(),
                |j: int|
                    OhosWindowEvent::Touch {
                        device_id,
                        phase,
                        point: j as usize,
                        id: point_ids@[j] as u64,
                    },
            ),
            events@ == all.take(i as int),
        decreases point_ids@.len() - i,
    {
        let id = point_ids[i] as u64;
        events.push(OhosWindowEvent::Touch { device_id, phase, point: i, id });
        proof {
            assert(all.take(i + 1) =~= all.take(i as int).push(all[i as int]));
        }
        i = i + 1;
    }
    proof {
        assert(all.take(point_ids@.len() as int) =~= all);
    }
    events
}

/// The window events of an input event; see [`spec_input_events`].
pub fn input_events(ev: InputEventModel) -> (r: Vec<OhosWindowEvent>)
    ensures
        r@ == spec_input_events(ev),
{
    let mut events: Vec<OhosWindowEvent> = Vec::new();
    match ev {
        InputEventModel::Touch { device_id, kind, point_ids } => {
            return touch_events(device_id, kind, &point_ids);
        },
        InputEventModel::Key { device_id, action, physical_key, logical_key, location } => {
            let state = match action {
                KeyAction::Down => ElementState::Pressed,
                _ => ElementState::Released,
            };
            events.push(
                OhosWindowEvent::KeyboardInput {
                    device_id,
                    state,
                    physical_key,
                    logical_key,
                    location,
                    is_synthetic: false,
                },
            );
        },
        InputEventModel::ImeText(text) => {
            let len = text.as_str().len();
            events.push(OhosWindowEvent::Ime(Ime::Preedit(text.clone(), Some((len, len)))));
            events.push(OhosWindowEvent::Ime(Ime::Commit(text.clone())));
        },
        InputEventModel::ImeBackspace => {
            push_synthetic_key(&mut events, NamedKey::Backspace, KeyCode::Backspace);
        },
        InputEventModel::ImeStatus(KeyboardStatus::Hide) => {
            push_synthetic_key(&mut events, NamedKey::Enter, KeyCode::Enter);
            events.push(OhosWindowEvent::Ime(Ime::Disabled));
        },
        InputEventModel::ImeStatus(KeyboardStatus::Other) => {},
        InputEventModel::Other => {},
    }
    proof {
        assert(events@ =~= spec_input_events(ev));
    }
    events
}

/// What the application's handler can change of the running loop.
#[derive(Clone, Copy, Debug)]
pub struct ActiveEventLoop {
    pub control_flow: ControlFlow,
    /// Whether the application asked to exit.
    pub exit: bool,
}

impl ActiveEventLoop {
    /// Records the application's request to exit.
    pub fn exit(&mut self)
        ensures
            *final(self) == (ActiveEventLoop { exit: true, ..*old(self) }),
    {
        self.exit = true;
    }

    pub fn clear_exit(&mut self)
        ensures
            *final(self) == (ActiveEventLoop { exit: false, ..*old(self) }),
    {
        self.exit = false;
    }

    pub fn exiting(&self) -> (r: bool)
        ensures
            r == self.exit,
    {
        self.exit
    }

    pub fn set_control_flow(&mut self, control_flow: ControlFlow)
        ensures
            *final(self) == (ActiveEventLoop { control_flow, ..*old(self) }),
    {
        self.control_flow = control_flow;
    }

    pub fn control_flow(&self) -> (r: ControlFlow)
        ensures
            r == self.control_flow,
    {
        self.control_flow
    }
}

/// The state of the OpenHarmony event loop.
#[verifier::reject_recursive_types(T)]
pub struct EventLoop<T> {
    pub window_target: ActiveEventLoop,
    /// Whether the window has the focus.
    pub has_focus: bool,
    /// Why the loop starts: always the first start.
    pub cause: StartCause,
    pub user_events: PeekableReceiver<T>,
}

impl<T> EventLoop<T> {
    /// A new event loop: focused, not exiting, waiting, and receiving the user events of
    /// `user_events`.
    pub fn new(user_events: PeekableReceiver<T>) -> (r: Self)
        ensures
            r.has_focus,
            !r.window_target.exit,
            r.window_target.control_flow == ControlFlow::Wait,
            r.cause == StartCause::Init,
            r.user_events == user_events,
    {
        EventLoop {
            window_target: ActiveEventLoop { control_flow: ControlFlow::Wait, exit: false },
            has_focus: true,
            cause: StartCause::Init,
            user_events,
        }
    }

    /// Starts pumping events: dispatches `NewEvents` with the cause of the start. The
    /// ability's loop then calls [`Self::handle_main_event`] for each of its events.
    pub fn pump_events_begin(&self) -> (actions: Vec<OhosAction<T>>)
        ensures
            actions@ == dispatched(seq![OhosEvent::<T>::NewEvents(self.cause)]),
    {
        let mut actions: Vec<OhosAction<T>> = Vec::new();
        proof {
            assert(Seq::<OhosEvent<T>>::empty().push(OhosEvent::<T>::NewEvents(self.cause))
                =~= seq![OhosEvent::<T>::NewEvents(self.cause)]);
        }
        dispatch(&mut actions, OhosEvent::NewEvents(self.cause), Ghost(Seq::empty()));
        actions
    }

    /// Ends pumping events: the loop always continues.
    pub fn pump_events_end(&self) -> (r: PumpStatus)
        ensures
            r == PumpStatus::Continue,
    {
        PumpStatus::Continue
    }

    /// Hands the window events of an input event to the handler.
    pub fn handle_input_event(&self, ev: InputEventModel) -> (actions: Vec<OhosAction<T>>)
        ensures
            actions@ == dispatched(window_events::<T>(spec_input_events(ev))),
    {
        let ghost spec_events = spec_input_events(ev);
        let events = input_events(ev);
        let mut actions: Vec<OhosAction<T>> = Vec::new();
        let mut rest = events;
        let ghost n = spec_events.len();
        assert(n == rest.len());
        proof {
            assert(spec_events.take(0) =~= Seq::<OhosWindowEvent>::empty());
            assert(window_events::<T>(Seq::<OhosWindowEvent>::empty()) =~= Seq::<OhosEvent<T>>::empty());
            assert(rest@ =~= spec_events.skip(0));
        }
        let mut i: usize = 0;
        while rest.len() > 0
            invariant
                n == spec_events.len(),
                n <= usize::MAX,
                i + rest@.len() == n,
                rest@ == spec_events.skip(i as int),
                actions@ == dispatched(window_events::<T>(spec_events.take(i as int))),
            decreases rest@.len(),
        {
            let e = rest.remove(0);
            proof {
                assert(e == spec_events[i as int]);
                assert(window_events::<T>(spec_events.take(i + 1)) =~= window_events::<T>(
                    spec_events.take(i as int),
                ).push(OhosEvent::WindowEvent(e)));
                assert(rest@ =~= spec_events.skip(i + 1));
            }
            dispatch(
                &mut actions,
                OhosEvent::WindowEvent(e),
                Ghost(window_events::<T>(spec_events.take(i as int))),
            );
            i = i + 1;
        }
        proof {
            assert(spec_events.take(n as int) =~= spec_events);
        }
        actions
    }

    /// Handles a main event of the ability (see [`main_event_events`]); a user event
    /// delivers the next user event, if one came.
    pub fn handle_main_event(&mut self, event: MainEventModel) -> (actions: Vec<OhosAction<T>>)
        ensures
            !(event is UserEvent) ==> {
                &&& actions@ == dispatched(main_event_events::<T>(event))
                &&& *final(self) == (EventLoop {
                    has_focus: focus_after(old(self).has_focus, event),
                    ..*old(self)
                })
            },
            event is UserEvent ==> {
                &&& final(self).has_focus == old(self).has_focus
                &&& final(self).window_target == old(self).window_target
                &&& final(self).cause == old(self).cause
                &&& final(self).user_events.held() is None
                &&& old(self).user_events.held() matches Some(v) ==> actions@ == dispatched(
                    seq![OhosEvent::UserEvent(v)],
                )
                &&& exists|received: Result<T, TryRecvError>|
                    actions@ == dispatched(#[trigger] user_events(received))
            },
    {
        match event {
            MainEventModel::UserEvent => {
                let received = self.user_events.try_recv();
                user_event_actions(received)
            },
            MainEventModel::Input(input) => self.handle_input_event(input),
            _ => self.main_event_actions(event),
        }
    }

    /// Handles a main event that is neither a user event nor an input event.
    fn main_event_actions(&mut self, event: MainEventModel) -> (actions: Vec<OhosAction<T>>)
        requires
            !(event is UserEvent),
            !(event is Input),
        ensures
            actions@ == dispatched(main_event_events::<T>(event)),
            *final(self) == (EventLoop {
                has_focus: focus_after(old(self).has_focus, event),
                ..*old(self)
            }),
    {
        let mut actions: Vec<OhosAction<T>> = Vec::new();
        let e: Option<OhosEvent<T>> = match event {
            MainEventModel::SurfaceCreate => Some(OhosEvent::Resumed),
            MainEventModel::SurfaceDestroy => Some(OhosEvent::Suspended),
            MainEventModel::WindowResize(size) => {
                let (w, h) = match size {
                    Some(s) => s,
                    None => (0u32, 0u32),
                };
                Some(OhosEvent::WindowEvent(OhosWindowEvent::Resized(w, h)))
            },
            MainEventModel::WindowRedraw => Some(OhosEvent::WindowEvent(OhosWindowEvent::RedrawRequested)),
            MainEventModel::GainedFocus => {
                self.has_focus = true;
                Some(OhosEvent::WindowEvent(OhosWindowEvent::Focused(true)))
            },
            MainEventModel::LostFocus => {
                self.has_focus = false;
                Some(OhosEvent::WindowEvent(OhosWindowEvent::Focused(true)))
            },
            MainEventModel::ConfigChanged(size) => match size {
                Some((w, h)) => Some(OhosEvent::WindowEvent(OhosWindowEvent::ScaleFactorChanged(w, h))),
                None => None,
            },
            MainEventModel::LowMemory => Some(OhosEvent::MemoryWarning),
            MainEventModel::Resume => Some(OhosEvent::Resumed),
            MainEventModel::WindowDestroy => Some(OhosEvent::WindowEvent(OhosWindowEvent::CloseRequested)),
            _ => None,
        };
        match e {
            Some(e) => {
                proof {
                    assert(Seq::<OhosEvent<T>>::empty().push(e) =~= main_event_events::<T>(event));
                }
                dispatch(&mut actions, e, Ghost(Seq::empty()));
            },
            None => {
                proof {
                    assert(main_event_events::<T>(event) =~= Seq::<OhosEvent<T>>::empty());
                }
            },
        }
        actions
    }

    /// After each main event: when the application asked to exit, dispatches `LoopExiting`
    /// and asks the ability to exit with code 0.
    pub fn after_main_event(&self) -> (actions: Vec<OhosAction<T>>)
        ensures
            actions@ == exit_actions::<T>(self.window_target.exit),
    {
        let mut actions: Vec<OhosAction<T>> = Vec::new();
        if self.window_target.exit {
            proof {
                assert(Seq::<OhosEvent<T>>::empty().push(OhosEvent::<T>::LoopExiting) =~= seq![
                    OhosEvent::<T>::LoopExiting,
                ]);
            }
            dispatch(&mut actions, OhosEvent::LoopExiting, Ghost(Seq::empty()));
            actions.push(OhosAction::Exit(0));
        }
        proof {
            if !self.window_target.exit {
                assert(actions@ =~= Seq::<OhosAction<T>>::empty());
            }
        }
        actions
    }

    /// Whether the window has the focus.
    pub fn has_focus(&self) -> (r: bool)
        ensures
            r == self.has_focus,
    {
        self.has_focus
    }
}

/// The actions for what receiving a user event gave: the user event, if one came.
pub fn user_event_actions<T>(received: Result<T, TryRecvError>) -> (actions: Vec<OhosAction<T>>)
    ensures
        actions@ == dispatched(user_events(received)),
{
    let mut actions: Vec<OhosAction<T>> = Vec::new();
    match received {
        Ok(v) => {
            proof {
                assert(Seq::<OhosEvent<T>>::empty().push(OhosEvent::UserEvent(v)) =~= seq![
                    OhosEvent::UserEvent(v),
                ]);
            }
            dispatch(&mut actions, OhosEvent::UserEvent(v), Ghost(Seq::empty()));
        },
        Err(_) => {
            proof {
                assert(actions@ =~= dispatched(Seq::<OhosEvent<T>>::empty()));
            }
        },
    }
    actions
}

/// The key input of a named key that the input method stands in for, in a state.
pub open spec fn named_key_input(state: ElementState, named: NamedKey, code: KeyCode) -> OhosWindowEvent {
    OhosWindowEvent::KeyboardInput {
        device_id: 0,
        state,
        physical_key: PhysicalKey::Code(code),
        logical_key: Key::Named(named),
        location: KeyLocation::Standard,
        is_synthetic: false,
    }
}

/// The window events of an input event. A touch of a reported kind gives one event per
/// point, in order, with the touch's device, the point's index and its identifier
/// (sign-extended to 64 bits), in phase `Started` for a press, `Ended` for a release,
/// `Moved` for a move and `Cancelled` for a cancellation; a touch of another kind gives
/// nothing. A key event gives one non-synthetic key input with its device and keys,
/// pressed for a press and released for anything else. Entered text gives a preedit of it
/// with the cursor at its end (in UTF-8 bytes), then its commit. Deleting gives a press
/// then a release of Backspace, from device 0; the soft keyboard hiding gives a press
/// then a release of Enter, then IME disabled; other input events give nothing.
pub proof fn lemma_input_events(ev: InputEventModel)
    ensures
        ({
            let r = spec_input_events(ev);
            match ev {
                InputEventModel::Touch { device_id, kind, point_ids } => {
                    &&& kind == TouchKind::Other ==> r.len() == 0
                    &&& kind != TouchKind::Other ==> r.len() == point_ids@.len()
                    &&& forall|i: int|
                        0 <= i < r.len() ==> {
                            &&& #[trigger] r[i] matches OhosWindowEvent::Touch {
                                device_id: d,
                                phase,
                                point,
                                id,
                            }
                            &&& d == device_id
                            &&& point == i as usize
                            &&& id == point_ids@[i] as u64
                            &&& kind == TouchKind::Down ==> phase == TouchPhase::Started
                            &&& kind == TouchKind::Up ==> phase == TouchPhase::Ended
                            &&& kind == TouchKind::Move ==> phase == TouchPhase::Moved
                            &&& kind == TouchKind::Cancel ==> phase == TouchPhase::Cancelled
                        }
                },
                InputEventModel::Key { device_id, action, physical_key, logical_key, location } => {
                    r == seq![
                        OhosWindowEvent::KeyboardInput {
                            device_id,
                            state: if action == KeyAction::Down {
                                ElementState::Pressed
                            } else {
                                ElementState::Released
                            },
                            physical_key,
                            logical_key,
                            location,
                            is_synthetic: false,
                        },
                    ]
                },
                InputEventModel::ImeText(text) => {
                    let end = vstd::utf8::encode_utf8(text@).len() as usize;
                    r == seq![
                        OhosWindowEvent::Ime(Ime::Preedit(text, Some((end, end)))),
                        OhosWindowEvent::Ime(Ime::Commit(text)),
                    ]
                },
                InputEventModel::ImeBackspace => r == seq![
                    named_key_input(ElementState::Pressed, NamedKey::Backspace, KeyCode::Backspace),
                    named_key_input(ElementState::Released, NamedKey::Backspace, KeyCode::Backspace),
                ],
                InputEventModel::ImeStatus(KeyboardStatus::Hide) => r == seq![
                    named_key_input(ElementState::Pressed, NamedKey::Enter, KeyCode::Enter),
                    named_key_input(ElementState::Released, NamedKey::Enter, KeyCode::Enter),
                    OhosWindowEvent::Ime(Ime::Disabled),
                ],
                InputEventModel::ImeStatus(KeyboardStatus::Other) => r.len() == 0,
                InputEventModel::Other => r.len() == 0,
            }
        }),
{
    match ev {
        InputEventModel::Touch { device_id, kind, point_ids } => {
            let r = spec_input_events(ev);
            if kind != TouchKind::Other {
                assert forall|i: int| 0 <= i < r.len() implies r[i] == (OhosWindowEvent::Touch {
                    device_id,
                    phase: touch_phase(kind)->0,
                    point: i as usize,
                    id: point_ids@[i] as u64,
                }) by {}
            }
        },
        InputEventModel::ImeBackspace => {
            assert(spec_input_events(ev) =~= seq![
                named_key_input(ElementState::Pressed, NamedKey::Backspace, KeyCode::Backspace),
                named_key_input(ElementState::Released, NamedKey::Backspace, KeyCode::Backspace),
            ]);
        },
        InputEventModel::ImeStatus(KeyboardStatus::Hide) => {
            assert(spec_input_events(ev) =~= seq![
                named_key_input(ElementState::Pressed, NamedKey::Enter, KeyCode::Enter),
                named_key_input(ElementState::Released, NamedKey::Enter, KeyCode::Enter),
                OhosWindowEvent::Ime(Ime::Disabled),
            ]);
        },
        _ => {},
    }
}

/// The handler's events of each main event other than a user event: a surface created
/// resumes and one destroyed suspends the application; a resize reports the window's size
/// (0 by 0 without a native window); a redraw asks for one; gaining and losing the focus
/// both report `Focused(true)`; a configuration change with a native window reports a
/// scale-factor change with its size; low memory warns; resuming resumes; the window being
/// destroyed asks to close it; an input event gives its window events; the rest give
/// nothing. A main event never gives more than one event, except an input event.
pub proof fn lemma_main_event_events<T>(event: MainEventModel)
    ensures
        ({
            let r = main_event_events::<T>(event);
            match event {
                MainEventModel::SurfaceCreate => r == seq![OhosEvent::<T>::Resumed],
                MainEventModel::SurfaceDestroy => r == seq![OhosEvent::<T>::Suspended],
                MainEventModel::WindowResize(Some((w, h))) => r == seq![
                    OhosEvent::<T>::WindowEvent(OhosWindowEvent::Resized(w, h)),
                ],
                MainEventModel::WindowResize(None) => r == seq![
                    OhosEvent::<T>::WindowEvent(OhosWindowEvent::Resized(0, 0)),
                ],
                MainEventModel::WindowRedraw => r == seq![
                    OhosEvent::<T>::WindowEvent(OhosWindowEvent::RedrawRequested),
                ],
                MainEventModel::GainedFocus => r == seq![
                    OhosEvent::<T>::WindowEvent(OhosWindowEvent::Focused(true)),
                ],
                MainEventModel::LostFocus => r == seq![
                    OhosEvent::<T>::WindowEvent(OhosWindowEvent::Focused(true)),
                ],
                MainEventModel::ConfigChanged(Some((w, h))) => r == seq![
                    OhosEvent::<T>::WindowEvent(OhosWindowEvent::ScaleFactorChanged(w, h)),
                ],
                MainEventModel::LowMemory => r == seq![OhosEvent::<T>::MemoryWarning],
                MainEventModel::Resume => r == seq![OhosEvent::<T>::Resumed],
                MainEventModel::WindowDestroy => r == seq![
                    OhosEvent::<T>::WindowEvent(OhosWindowEvent::CloseRequested),
                ],
                MainEventModel::Input(input) => r.len() == spec_input_events(input).len() && forall|
                    i: int,
                | 0 <= i < r.len() ==> #[trigger] r[i] == OhosEvent::<T>::WindowEvent(
                    spec_input_events(input)[i],
                ),
                _ => r.len() == 0,
            }
        }),
{
}

/// Every event handed to the handler is followed by `AboutToWait`: the actions of a
/// sequence of events are, for each event in order, its dispatch and then that of
/// `AboutToWait`, and nothing else.
pub proof fn lemma_dispatched<T>(events: Seq<OhosEvent<T>>)
    ensures
        dispatched(events).len() == 2 * events.len(),
        forall|i: int|
            0 <= i < events.len() ==> #[trigger] dispatched(events)[2 * i] == OhosAction::Dispatch(
                events[i],
            ) && dispatched(events)[2 * i + 1] == OhosAction::<T>::Dispatch(OhosEvent::AboutToWait),
    decreases events.len(),
{
    if events.len() > 0 {
        let rest = events.drop_last();
        lemma_dispatched(rest);
        let d = dispatched(events);
        assert forall|i: int| 0 <= i < events.len() implies #[trigger] d[2 * i] == OhosAction::Dispatch(
            events[i],
        ) && d[2 * i + 1] == OhosAction::<T>::Dispatch(OhosEvent::AboutToWait) by {
            if i < rest.len() {
                assert(d[2 * i] == dispatched(rest)[2 * i]);
                assert(d[2 * i + 1] == dispatched(rest)[2 * i + 1]);
                assert(rest[i] == events[i]);
            }
        }
    }
}

/// After a main event, exiting dispatches `LoopExiting` (followed by `AboutToWait`) and
/// then asks the ability to exit with code 0; without an exit request nothing happens.
/// The focus is gained by `GainedFocus`, lost by `LostFocus` and kept by every other main
/// event. A received user event is handed to the handler; a failed reception gives nothing.
pub proof fn lemma_after_event_and_focus<T>(
    exit: bool,
    has_focus: bool,
    event: MainEventModel,
    received: Result<T, TryRecvError>,
)
    ensures
        exit ==> exit_actions::<T>(exit) == seq![
            OhosAction::<T>::Dispatch(OhosEvent::LoopExiting),
            OhosAction::<T>::Dispatch(OhosEvent::AboutToWait),
            OhosAction::<T>::Exit(0),
        ],
        !exit ==> exit_actions::<T>(exit).len() == 0,
        event is GainedFocus ==> focus_after(has_focus, event),
        event is LostFocus ==> !focus_after(has_focus, event),
        !(event is GainedFocus || event is LostFocus) ==> focus_after(has_focus, event) == has_focus,
        received matches Ok(v) ==> user_events(received) == seq![OhosEvent::UserEvent(v)],
        received is Err ==> user_events(received).len() == 0,
{
    if exit {
        let s = seq![OhosEvent::<T>::LoopExiting];
        assert(s.drop_last() =~= Seq::<OhosEvent<T>>::empty());
        assert(dispatched(Seq::<OhosEvent<T>>::empty()) =~= Seq::<OhosAction<T>>::empty());
        assert(dispatched(s) =~= seq![
            OhosAction::<T>::Dispatch(OhosEvent::LoopExiting),
            OhosAction::<T>::Dispatch(OhosEvent::AboutToWait),
        ]);
        assert(exit_actions::<T>(exit) =~= seq![
            OhosAction::<T>::Dispatch(OhosEvent::LoopExiting),
            OhosAction::<T>::Dispatch(OhosEvent::AboutToWait),
            OhosAction::<T>::Exit(0),
        ]);
    }
}

} // verus!
