//! The application delegate: the global state of the event loop and the decisions it takes
//! when AppKit calls back (launch, run-loop wake-up, before waiting, redraws, exit).
//!
//! The delegate does not call the application's event handler or AppKit itself: each
//! decision returns the [`AppAction`]s to perform, in order, and the caller performs them.
use vstd::prelude::*;

use crate::appkit::NSApplicationActivationPolicy;
use crate::observer::{start_at_result, spec_min_timeout, min_timeout, EventLoopWaker, TimerAction};
use crate::platform::{DeviceId, WindowId};

verus! {

/// When the event loop should wake up again. Instants are in nanoseconds.
#[derive(Clone, Copy, Debug, PartialEq, Eq, Structural, Hash)]
pub enum ControlFlow {
    /// Wake up again at once.
    Poll,
    /// Sleep until an event arrives.
    Wait,
    /// Sleep until an event arrives or the instant is reached.
    WaitUntil(u64),
}

/// Why the event loop woke up.
#[derive(Clone, Copy, Debug, PartialEq, Eq, Structural, Hash)]
pub enum StartCause {
    ResumeTimeReached { start: u64, requested_resume: u64 },
    WaitCancelled { start: u64, requested_resume: Option<u64> },
    Poll,
    Init,
}

/// The internal user event that stands for "user events may be pending".
#[derive(Clone, Copy, Debug, PartialEq, Eq, Structural)]
pub struct HandlePendingUserEvents;

/// An event for the application's handler; `W`, `D` and `U` are the window, device and
/// user event payloads.
#[derive(Debug, PartialEq, Eq)]
pub enum Event<W, D, U> {
    NewEvents(StartCause),
    WindowEvent { window_id: WindowId, event: W },
    RedrawRequested { window_id: WindowId },
    DeviceEvent { device_id: DeviceId, event: D },
    UserEvent(U),
    Resumed,
    AboutToWait,
    LoopExiting,
}

/// An event queued for delivery before the loop next waits; `S` is the payload of a
/// scale-factor change, which the caller delivers itself.
#[derive(Debug, PartialEq, Eq)]
pub enum QueuedEvent<W, D, S> {
    WindowEvent(WindowId, W),
    DeviceEvent(D),
    ScaleFactorChanged(S),
}

/// A step that the caller of the delegate must perform.
#[derive(Debug, PartialEq, Eq)]
pub enum AppAction<W, D, S> {
    /// Call the application's event handler with this event.
    Dispatch(Event<W, D, HandlePendingUserEvents>),
    /// Deliver a scale-factor change (and the resize it implies) to the handler.
    DispatchScaleFactorChanged(S),
    /// Stop `NSApplication` at once.
    StopApp,
    /// Wake up the main run loop.
    WakeUp,
    /// Re-arm the run-loop timer.
    Timer(TimerAction),
    /// Set the application's activation policy.
    SetActivationPolicy(NSApplicationActivationPolicy),
    /// Bring the windows that are already visible to the front.
    ActivateVisibleWindows,
    /// Activate the application, ignoring other applications or not.
    ActivateIgnoringOtherApps(bool),
    /// Install the default menu bar.
    InitializeMenu,
}

/// The state of the application delegate.
#[derive(Debug)]
#[verifier::reject_recursive_types(W)]
#[verifier::reject_recursive_types(D)]
#[verifier::reject_recursive_types(S)]
pub struct ApplicationDelegate<W, D, S> {
    pub activation_policy: NSApplicationActivationPolicy,
    pub default_menu: bool,
    pub activate_ignoring_other_apps: bool,
    /// Whether the application is currently executing a callback.
    pub in_callback: bool,
    /// Whether an event handler is registered.
    pub has_callback: bool,
    pub stop_on_launch: bool,
    pub stop_before_wait: bool,
    pub stop_after_wait: bool,
    pub stop_on_redraw: bool,
    /// Whether `applicationDidFinishLaunching:` has run.
    pub is_launched: bool,
    /// Whether an event loop is currently running.
    pub is_running: bool,
    /// Whether the user asked the event loop to exit.
    pub exit: bool,
    pub control_flow: ControlFlow,
    pub waker: EventLoopWaker,
    pub start_time: Option<u64>,
    pub wait_timeout: Option<u64>,
    pub pending_events: std::collections::VecDeque<QueuedEvent<W, D, S>>,
    pub pending_redraw: Vec<WindowId>,
}

/// The actions that dispatch events to the handler, if one is registered.
pub open spec fn dispatch_all<W, D, S>(
    has_callback: bool,
    events: Seq<Event<W, D, HandlePendingUserEvents>>,
) -> Seq<AppAction<W, D, S>> {
    if has_callback {
        events.map_values(|e: Event<W, D, HandlePendingUserEvents>| AppAction::Dispatch(e))
    } else {
        Seq::empty()
    }
}

/// An action if there is one.
pub open spec fn opt_action<W, D, S>(a: Option<AppAction<W, D, S>>) -> Seq<AppAction<W, D, S>> {
    match a {
        Some(x) => seq![x],
        None => Seq::empty(),
    }
}

/// The timer action, if any, as an action.
pub open spec fn timer_action<W, D, S>(t: Option<TimerAction>) -> Seq<AppAction<W, D, S>> {
    match t {
        Some(x) => seq![AppAction::Timer(x)],
        None => Seq::empty(),
    }
}

/// `StopApp` if `b` holds.
pub open spec fn stop_if<W, D, S>(b: bool) -> Seq<AppAction<W, D, S>> {
    if b {
        seq![AppAction::StopApp]
    } else {
        Seq::empty()
    }
}

/// The action that delivers a queued event.
pub open spec fn queued_action<W, D, S>(e: QueuedEvent<W, D, S>) -> AppAction<W, D, S> {
    match e {
        QueuedEvent::WindowEvent(window_id, event) => AppAction::Dispatch(
            Event::WindowEvent { window_id, event },
        ),
        QueuedEvent::DeviceEvent(event) => AppAction::Dispatch(
            Event::DeviceEvent { device_id: DeviceId, event },
        ),
        QueuedEvent::ScaleFactorChanged(s) => AppAction::DispatchScaleFactorChanged(s),
    }
}

/// The action that delivers a pending redraw.
pub open spec fn redraw_action<W, D, S>(window_id: WindowId) -> AppAction<W, D, S> {
    AppAction::Dispatch(Event::RedrawRequested { window_id })
}

/// The pending redraws after a redraw of `window_id` is asked for.
pub open spec fn redraw_queued(pending: Seq<WindowId>, window_id: WindowId) -> Seq<WindowId> {
    if pending.contains(window_id) {
        pending
    } else {
        pending.push(window_id)
    }
}

/// Asking for a redraw keeps the pending redraws free of duplicates, makes the window
/// pending, and asking twice is the same as asking once.
pub proof fn lemma_redraw_queued(pending: Seq<WindowId>, window_id: WindowId)
    requires
        pending.no_duplicates(),
    ensures
        redraw_queued(pending, window_id).no_duplicates(),
        redraw_queued(pending, window_id).contains(window_id),
        redraw_queued(redraw_queued(pending, window_id), window_id) == redraw_queued(
            pending,
            window_id,
        ),
        forall|w: WindowId| #[trigger]
            pending.contains(w) ==> redraw_queued(pending, window_id).contains(w),
{
    let r = redraw_queued(pending, window_id);
    if !pending.contains(window_id) {
        assert(r[r.len() - 1] == window_id);
        assert forall|i: int, j: int| 0 <= i < r.len() && 0 <= j < r.len() && i != j implies r[i]
            != r[j] by {
            if i == r.len() - 1 {
                assert(!pending.contains(r[j]) ==> false) by {
                    assert(pending[j] == r[j]);
                }
            } else if j == r.len() - 1 {
                assert(pending[i] == r[i]);
            }
        }
        assert forall|w: WindowId| #[trigger] pending.contains(w) implies r.contains(w) by {
            let k = choose|k: int| 0 <= k < pending.len() && pending[k] == w;
            assert(r[k] == w);
        }
    }
}

/// Why the loop woke up, given the control flow, when it started waiting and the time now.
pub open spec fn wakeup_cause(control_flow: ControlFlow, start: u64, now: u64) -> StartCause {
    match control_flow {
        ControlFlow::Poll => StartCause::Poll,
        ControlFlow::Wait => StartCause::WaitCancelled { start, requested_resume: None },
        ControlFlow::WaitUntil(requested_resume) => if now >= requested_resume {
            StartCause::ResumeTimeReached { start, requested_resume }
        } else {
            StartCause::WaitCancelled { start, requested_resume: Some(requested_resume) }
        },
    }
}

/// The deadline that the control flow sets, given the time now.
pub open spec fn app_timeout(control_flow: ControlFlow, now: u64) -> Option<u64> {
    match control_flow {
        ControlFlow::Wait => None,
        ControlFlow::Poll => Some(now),
        ControlFlow::WaitUntil(instant) => Some(instant),
    }
}

/// What the application finishing launching does: applies the activation policy,
/// activates the visible windows and the application, installs the default menu if asked,
/// starts the wake-up timer (unless it already fires at once), dispatches the initial
/// events and, for `pump_events`, stops the application.
pub open spec fn launch_actions<W, D, S>(d: ApplicationDelegate<W, D, S>) -> Seq<AppAction<W, D, S>> {
    seq![
        AppAction::SetActivationPolicy(d.activation_policy),
        AppAction::ActivateVisibleWindows,
        AppAction::ActivateIgnoringOtherApps(d.activate_ignoring_other_apps),
    ] + (if d.default_menu {
        seq![AppAction::InitializeMenu]
    } else {
        Seq::empty()
    }) + (if d.waker.next_fire_date != Some(d.waker.start_instant) {
        seq![AppAction::Timer(TimerAction::Immediately)]
    } else {
        Seq::empty()
    }) + dispatch_all::<W, D, S>(
        d.has_callback,
        seq![Event::NewEvents(StartCause::Init), Event::Resumed],
    ) + stop_if::<W, D, S>(d.stop_on_launch)
}

/// What the run loop waking up does: unless the callback is ignored, stops the application
/// first when `pump_events` asked so, then dispatches `NewEvents` with the cause.
pub open spec fn wakeup_actions<W, D, S>(d: ApplicationDelegate<W, D, S>, panicking: bool, now: u64) -> Seq<
    AppAction<W, D, S>,
> {
    if d.observer_ignored(panicking) {
        Seq::empty()
    } else {
        stop_if::<W, D, S>(d.stop_after_wait) + seq![
            AppAction::Dispatch(
                Event::NewEvents(wakeup_cause(d.control_flow, d.start_time->0, now)),
            ),
        ]
    }
}

/// What a redraw requested by AppKit does: nothing from inside a callback; otherwise the
/// dispatch of `RedrawRequested` and, for `pump_events`, a stop.
pub open spec fn redraw_request_actions<W, D, S>(d: ApplicationDelegate<W, D, S>, window_id: WindowId) -> Seq<
    AppAction<W, D, S>,
> {
    if d.in_callback {
        Seq::empty()
    } else {
        dispatch_all::<W, D, S>(d.has_callback, seq![Event::RedrawRequested { window_id }])
            + stop_if::<W, D, S>(d.stop_on_redraw)
    }
}

impl<W, D, S> ApplicationDelegate<W, D, S> {
    /// Whether the delegate must ignore a run-loop observer callback: a panic is being
    /// handled, a callback is running, no handler is registered or no loop is running.
    pub open spec fn observer_ignored(&self, panicking: bool) -> bool {
        panicking || self.in_callback || !self.has_callback || !self.is_running
    }

    /// No window has more than one pending redraw.
    pub open spec fn redraws_distinct(&self) -> bool {
        self.pending_redraw@.no_duplicates()
    }

    /// The state of a new delegate, before the application has launched.
    pub fn new(
        activation_policy: NSApplicationActivationPolicy,
        default_menu: bool,
        activate_ignoring_other_apps: bool,
        now: u64,
    ) -> (r: Self)
        ensures
            r.activation_policy == activation_policy,
            r.default_menu == default_menu,
            r.activate_ignoring_other_apps == activate_ignoring_other_apps,
            !r.in_callback && !r.has_callback,
            !r.stop_on_launch && !r.stop_before_wait && !r.stop_after_wait && !r.stop_on_redraw,
            !r.is_launched && !r.is_running && !r.exit,
            r.control_flow == ControlFlow::Wait,
            r.waker.start_instant == now,
            r.waker.next_fire_date is None,
            r.start_time is None,
            r.wait_timeout is None,
            r.pending_events@.len() == 0,
            r.pending_redraw@.len() == 0,
            r.redraws_distinct(),
    {
        ApplicationDelegate {
            activation_policy,
            default_menu,
            activate_ignoring_other_apps,
            in_callback: false,
            has_callback: false,
            stop_on_launch: false,
            stop_before_wait: false,
            stop_after_wait: false,
            stop_on_redraw: false,
            is_launched: false,
            is_running: false,
            exit: false,
            control_flow: ControlFlow::Wait,
            waker: EventLoopWaker::new(now),
            start_time: None,
            wait_timeout: None,
            pending_events: std::collections::VecDeque::new(),
            pending_redraw: Vec::new(),
        }
    }

    /// Appends the dispatch of an event, if a handler is registered.
    fn handle_event(&self, event: Event<W, D, HandlePendingUserEvents>, actions: &mut Vec<AppAction<W, D, S>>)
        ensures
            final(actions)@ == old(actions)@ + dispatch_all::<W, D, S>(self.has_callback, seq![event]),
    {
        proof {
            assert(seq![event].map_values(
                |e: Event<W, D, HandlePendingUserEvents>| AppAction::<W, D, S>::Dispatch(e),
            ) =~= seq![AppAction::<W, D, S>::Dispatch(event)]);
        }
        if self.has_callback {
            actions.push(AppAction::Dispatch(event));
        } else {
            proof {
                assert(old(actions)@ + Seq::<AppAction<W, D, S>>::empty() =~= old(actions)@);
            }
        }
    }

    /// Registers the application's event handler.
    pub fn set_callback(&mut self)
        ensures
            *final(self) == (Self { has_callback: true, ..*old(self) }),
    {
        self.has_callback = true;
    }

    /// Forgets the application's event handler.
    pub fn clear_callback(&mut self)
        ensures
            *final(self) == (Self { has_callback: false, ..*old(self) }),
    {
        self.has_callback = false;
    }

    /// Whether an event handler is registered.
    pub fn have_callback(&self) -> (r: bool)
        ensures
            r == self.has_callback,
    {
        self.has_callback
    }

    /// Stop the application as soon as it has launched (used to bootstrap `pump_events`).
    pub fn set_stop_on_launch(&mut self)
        ensures
            *final(self) == (Self { stop_on_launch: true, ..*old(self) }),
    {
        self.stop_on_launch = true;
    }

    pub fn set_stop_before_wait(&mut self, value: bool)
        ensures
            *final(self) == (Self { stop_before_wait: value, ..*old(self) }),
    {
        self.stop_before_wait = value;
    }

    pub fn set_stop_after_wait(&mut self, value: bool)
        ensures
            *final(self) == (Self { stop_after_wait: value, ..*old(self) }),
    {
        self.stop_after_wait = value;
    }

    pub fn set_stop_on_redraw(&mut self, value: bool)
        ensures
            *final(self) == (Self { stop_on_redraw: value, ..*old(self) }),
    {
        self.stop_on_redraw = value;
    }

    pub fn set_wait_timeout(&mut self, value: Option<u64>)
        ensures
            *final(self) == (Self { wait_timeout: value, ..*old(self) }),
    {
        self.wait_timeout = value;
    }

    pub fn is_launched(&self) -> (r: bool)
        ensures
            r == self.is_launched,
    {
        self.is_launched
    }

    pub fn set_is_running(&mut self, value: bool)
        ensures
            *final(self) == (Self { is_running: value, ..*old(self) }),
    {
        self.is_running = value;
    }

    pub fn is_running(&self) -> (r: bool)
        ensures
            r == self.is_running,
    {
        self.is_running
    }

    /// Records the user's request to exit the event loop.
    pub fn exit(&mut self)
        ensures
            *final(self) == (Self { exit: true, ..*old(self) }),
    {
        self.exit = true;
    }

    pub fn clear_exit(&mut self)
        ensures
            *final(self) == (Self { exit: false, ..*old(self) }),
    {
        self.exit = false;
    }

    pub fn exiting(&self) -> (r: bool)
        ensures
            r == self.exit,
    {
        self.exit
    }

    pub fn set_in_callback(&mut self, value: bool)
        ensures
            *final(self) == (Self { in_callback: value, ..*old(self) }),
    {
        self.in_callback = value;
    }

    pub fn set_control_flow(&mut self, value: ControlFlow)
        ensures
            *final(self) == (Self { control_flow: value, ..*old(self) }),
    {
        self.control_flow = value;
    }

    pub fn control_flow(&self) -> (r: ControlFlow)
        ensures
            r == self.control_flow,
    {
        self.control_flow
    }

    /// Queues a window event for delivery before the loop next waits.
    pub fn queue_window_event(&mut self, window_id: WindowId, event: W)
        ensures
            final(self).pending_events@ == old(self).pending_events@.push(
                QueuedEvent::WindowEvent(window_id, event),
            ),
            *final(self) == (Self { pending_events: final(self).pending_events, ..*old(self) }),
    {
        self.pending_events.push_back(QueuedEvent::WindowEvent(window_id, event));
    }

    /// Queues a device event for delivery before the loop next waits.
    pub fn queue_device_event(&mut self, event: D)
        ensures
            final(self).pending_events@ == old(self).pending_events@.push(
                QueuedEvent::DeviceEvent(event),
            ),
            *final(self) == (Self { pending_events: final(self).pending_events, ..*old(self) }),
    {
        self.pending_events.push_back(QueuedEvent::DeviceEvent(event));
    }

    /// Queues a scale-factor change for delivery before the loop next waits.
    pub fn queue_static_scale_factor_changed_event(&mut self, change: S)
        ensures
            final(self).pending_events@ == old(self).pending_events@.push(
                QueuedEvent::ScaleFactorChanged(change),
            ),
            *final(self) == (Self { pending_events: final(self).pending_events, ..*old(self) }),
    {
        self.pending_events.push_back(QueuedEvent::ScaleFactorChanged(change));
    }

    /// Dispatches `NewEvents(Init)` and `Resumed`.
    pub fn dispatch_init_events(&mut self) -> (actions: Vec<AppAction<W, D, S>>)
        ensures
            *final(self) == (Self { in_callback: false, ..*old(self) }),
            actions@ == dispatch_all::<W, D, S>(
                old(self).has_callback,
                seq![Event::NewEvents(StartCause::Init), Event::Resumed],
            ),
    {
        let mut actions: Vec<AppAction<W, D, S>> = Vec::new();
        self.set_in_callback(true);
        self.handle_event(Event::NewEvents(StartCause::Init), &mut actions);
        // For consistency all platforms emit a `Resumed` event, although macOS applications
        // have no suspend/resume lifecycle.
        self.handle_event(Event::Resumed, &mut actions);
        self.set_in_callback(false);
        proof {
            let e1 = Event::<W, D, HandlePendingUserEvents>::NewEvents(StartCause::Init);
            let e2 = Event::<W, D, HandlePendingUserEvents>::Resumed;
            let f = |e: Event<W, D, HandlePendingUserEvents>| AppAction::<W, D, S>::Dispatch(e);
            assert(seq![e1, e2].map_values(f) =~= seq![e1].map_values(f) + seq![e2].map_values(f));
            assert(Seq::<AppAction<W, D, S>>::empty() + Seq::<AppAction<W, D, S>>::empty()
                =~= Seq::<AppAction<W, D, S>>::empty());
        }
        actions
    }

    /// Clears the running state when an event loop exits: dispatches `LoopExiting`, stops
    /// running, resets the control flow to `Wait` and the `pump_events` settings, and forgets
    /// the handler. Whether the application has launched is kept, so that a later loop need
    /// not launch it again.
    pub fn internal_exit(&mut self) -> (actions: Vec<AppAction<W, D, S>>)
        ensures
            *final(self) == (Self {
                in_callback: false,
                is_running: false,
                control_flow: ControlFlow::Wait,
                stop_on_redraw: false,
                stop_before_wait: false,
                stop_after_wait: false,
                wait_timeout: None,
                has_callback: false,
                ..*old(self)
            }),
            actions@ == dispatch_all::<W, D, S>(old(self).has_callback, seq![Event::LoopExiting]),
    {
        let mut actions: Vec<AppAction<W, D, S>> = Vec::new();
        self.set_in_callback(true);
        self.handle_event(Event::LoopExiting, &mut actions);
        self.set_in_callback(false);

        self.set_is_running(false);
        self.set_control_flow(ControlFlow::Wait);
        self.set_stop_on_redraw(false);
        self.set_stop_before_wait(false);
        self.set_stop_after_wait(false);
        self.set_wait_timeout(None);
        self.clear_callback();
        proof {
            assert(Seq::<AppAction<W, D, S>>::empty() + dispatch_all::<W, D, S>(
                old(self).has_callback,
                seq![Event::LoopExiting],
            ) =~= dispatch_all::<W, D, S>(old(self).has_callback, seq![Event::LoopExiting]));
        }
        actions
    }

    /// Asks for a redraw of a window when the loop next waits; a window is queued once.
    pub fn queue_redraw(&mut self, window_id: WindowId) -> (actions: Vec<AppAction<W, D, S>>)
        ensures
            final(self).pending_redraw@ == redraw_queued(old(self).pending_redraw@, window_id),
            *final(self) == (Self { pending_redraw: final(self).pending_redraw, ..*old(self) }),
            actions@ == seq![AppAction::<W, D, S>::WakeUp],
    {
        let mut found = false;
        let mut i: usize = 0;
        while i < self.pending_redraw.len()
            invariant
                i <= self.pending_redraw@.len(),
                found == (exists|j: int| 0 <= j < i && self.pending_redraw@[j] == window_id),
            decreases self.pending_redraw@.len() - i,
        {
            if self.pending_redraw[i] == window_id {
                found = true;
            }
            i = i + 1;
        }
        if !found {
            self.pending_redraw.push(window_id);
        }
        let mut actions: Vec<AppAction<W, D, S>> = Vec::new();
        actions.push(AppAction::WakeUp);
        actions
    }

    /// The application finished launching (run once per process): applies the activation
    /// policy, activates the visible windows and the application, installs the default menu
    /// if asked, starts the wake-up timer, starts running and dispatches the initial events;
    /// for `pump_events`, it then stops the application.
    #[verifier::spinoff_prover]
    #[verifier::rlimit(40)]
    pub fn did_finish_launching(&mut self) -> (actions: Vec<AppAction<W, D, S>>)
        ensures
            final(self).is_launched,
            final(self).is_running,
            !final(self).in_callback,
            final(self).waker.start_instant == old(self).waker.start_instant,
            final(self).waker.next_fire_date == Some(old(self).waker.start_instant),
            *final(self) == (Self {
                is_launched: true,
                is_running: true,
                in_callback: false,
                waker: final(self).waker,
                ..*old(self)
            }),
            actions@ == launch_actions(*old(self)),
    {
        self.is_launched = true;
        let mut actions: Vec<AppAction<W, D, S>> = Vec::new();
        // The activation policy is set, and the application activated, only once it has
        // finished launching; otherwise the menu bar is unresponsive at first.
        actions.push(AppAction::SetActivationPolicy(self.activation_policy));
        actions.push(AppAction::ActivateVisibleWindows);
        actions.push(AppAction::ActivateIgnoringOtherApps(self.activate_ignoring_other_apps));
        if self.default_menu {
            // The menu bar is set up before `NewEvents`, so that the application can
            // replace the default menu.
            actions.push(AppAction::InitializeMenu);
        }
        let ghost a1 = actions@;
        match self.waker.start() {
            Some(t) => actions.push(AppAction::Timer(t)),
            None => {},
        }
        let ghost a2 = actions@;
        self.set_is_running(true);
        let mut init = self.dispatch_init_events();
        let ghost a3 = init@;
        actions.append(&mut init);
        // Launched through `pump_events`: stop the application once it has launched.
        if self.stop_on_launch {
            actions.push(AppAction::StopApp);
        }
        proof {
            let tail = if old(self).waker.next_fire_date != Some(old(self).waker.start_instant) {
                seq![AppAction::<W, D, S>::Timer(TimerAction::Immediately)]
            } else {
                Seq::empty()
            };
            assert(a2 =~= a1 + tail);
            let st = stop_if::<W, D, S>(old(self).stop_on_launch);
            assert(actions@ =~= a2 + a3 + st);
            let menu = if old(self).default_menu {
                seq![AppAction::<W, D, S>::InitializeMenu]
            } else {
                Seq::empty()
            };
            assert(a1 =~= seq![
                AppAction::<W, D, S>::SetActivationPolicy(old(self).activation_policy),
                AppAction::ActivateVisibleWindows,
                AppAction::ActivateIgnoringOtherApps(old(self).activate_ignoring_other_apps),
            ] + menu);
            assert(actions@ =~= launch_actions(*old(self)));
        }
        actions
    }

    /// The run loop woke up after waiting. Unless the callback is ignored (see
    /// [`Self::observer_ignored`]), stops the application first when `pump_events` asked so,
    /// then dispatches `NewEvents` with the cause of the wake-up.
    pub fn wakeup(&mut self, panicking: bool, now: u64) -> (actions: Vec<AppAction<W, D, S>>)
        requires
            !old(self).observer_ignored(panicking) ==> old(self).start_time is Some,
        ensures
            *final(self) == *old(self),
            actions@ == wakeup_actions(*old(self), panicking, now),
    {
        let mut actions: Vec<AppAction<W, D, S>> = Vec::new();
        // Return when in a callback: a callback may run a nested event loop.
        if panicking || self.in_callback || !self.has_callback || !self.is_running {
            return actions;
        }
        if self.stop_after_wait {
            actions.push(AppAction::StopApp);
        }
        let ghost a1 = actions@;
        let start = match self.start_time {
            Some(start) => start,
            None => 0,
        };
        let cause = match self.control_flow {
            ControlFlow::Poll => StartCause::Poll,
            ControlFlow::Wait => StartCause::WaitCancelled { start, requested_resume: None },
            ControlFlow::WaitUntil(requested_resume) => {
                if now >= requested_resume {
                    StartCause::ResumeTimeReached { start, requested_resume }
                } else {
                    StartCause::WaitCancelled { start, requested_resume: Some(requested_resume) }
                }
            },
        };
        self.set_in_callback(true);
        actions.push(AppAction::Dispatch(Event::NewEvents(cause)));
        self.set_in_callback(false);
        proof {
            assert(actions@ =~= a1 + seq![
                AppAction::<W, D, S>::Dispatch(Event::NewEvents(cause)),
            ]);
        }
        actions
    }
}

/// The actions that `cleared` performs when it does not ignore the callback.
pub open spec fn cleared_actions<W, D, S>(d: ApplicationDelegate<W, D, S>, now: u64) -> Seq<AppAction<W, D, S>> {
    let deadline = spec_min_timeout(d.wait_timeout, app_timeout(d.control_flow, now));
    seq![AppAction::Dispatch(Event::UserEvent(HandlePendingUserEvents))] + d.pending_events@.map_values(
        |e: QueuedEvent<W, D, S>| queued_action(e),
    ) + d.pending_redraw@.map_values(|w: WindowId| redraw_action::<W, D, S>(w)) + seq![
        AppAction::Dispatch(Event::AboutToWait),
    ] + stop_if::<W, D, S>(d.exit) + stop_if::<W, D, S>(d.stop_before_wait) + timer_action::<W, D, S>(
        start_at_result(d.waker.next_fire_date, d.waker.start_instant, deadline, now).1,
    )
}

/// After the event loop exits, the run-loop observers dispatch nothing: a delegate that
/// is not running ignores every wake-up and every "about to wait" callback.
pub proof fn lemma_exit_silences_observers<W, D, S>(d: ApplicationDelegate<W, D, S>, panicking: bool)
    requires
        !d.is_running || !d.has_callback,
    ensures
        d.observer_ignored(panicking),
{
}

impl<W, D, S> ApplicationDelegate<W, D, S> {
    /// The run loop is about to wait. Unless the callback is ignored, delivers the pending
    /// user events, the queued events and the pending redraws in order, then `AboutToWait`;
    /// stops the application when the user asked to exit or `pump_events` asked to stop
    /// before waiting; records `now` as the start of the wait and arms the timer for the
    /// earlier of the `pump_events` timeout and the control flow's deadline.
    pub fn cleared(&mut self, panicking: bool, now: u64) -> (actions: Vec<AppAction<W, D, S>>)
        ensures
            old(self).observer_ignored(panicking) ==> *final(self) == *old(self) && actions@.len()
                == 0,
            !old(self).observer_ignored(panicking) ==> {
                let deadline = spec_min_timeout(
                    old(self).wait_timeout,
                    app_timeout(old(self).control_flow, now),
                );
                &&& actions@ == cleared_actions(*old(self), now)
                &&& final(self).pending_events@.len() == 0
                &&& final(self).pending_redraw@.len() == 0
                &&& final(self).start_time == Some(now)
                &&& final(self).waker.start_instant == old(self).waker.start_instant
                &&& final(self).waker.next_fire_date == start_at_result(
                    old(self).waker.next_fire_date,
                    old(self).waker.start_instant,
                    deadline,
                    now,
                ).0
                &&& *final(self) == (Self {
                    pending_events: final(self).pending_events,
                    pending_redraw: final(self).pending_redraw,
                    start_time: Some(now),
                    waker: final(self).waker,
                    ..*old(self)
                })
            },
    {
        let mut actions: Vec<AppAction<W, D, S>> = Vec::new();
        if panicking || self.in_callback || !self.has_callback || !self.is_running {
            return actions;
        }
        let ghost old_events = self.pending_events@;
        let ghost old_redraw = self.pending_redraw@;
        let ghost f_ev = |e: QueuedEvent<W, D, S>| queued_action(e);
        let ghost f_rd = |w: WindowId| redraw_action::<W, D, S>(w);

        self.set_in_callback(true);
        actions.push(AppAction::Dispatch(Event::UserEvent(HandlePendingUserEvents)));
        let ghost a0 = actions@;

        let mut events = std::collections::VecDeque::new();
        std::mem::swap(&mut events, &mut self.pending_events);
        let ghost n_ev = old_events.len();
        while events.len() > 0
            invariant
                events@ == old_events.subrange(n_ev - events@.len(), n_ev as int),
                events@.len() <= n_ev,
                n_ev == old_events.len(),
                actions@ == a0 + old_events.subrange(0, n_ev - events@.len()).map_values(f_ev),
                f_ev == (|e: QueuedEvent<W, D, S>| queued_action(e)),
            decreases events@.len(),
        {
            let ghost k = n_ev - events@.len();
            match events.pop_front() {
                Some(event) => {
                    match event {
                        QueuedEvent::WindowEvent(window_id, event) => {
                            actions.push(AppAction::Dispatch(Event::WindowEvent { window_id, event }));
                        },
                        QueuedEvent::DeviceEvent(event) => {
                            actions.push(
                                AppAction::Dispatch(Event::DeviceEvent { device_id: DeviceId, event }),
                            );
                        },
                        QueuedEvent::ScaleFactorChanged(change) => {
                            actions.push(AppAction::DispatchScaleFactorChanged(change));
                        },
                    }
                    proof {
                        assert(events@ =~= old_events.subrange(k + 1, n_ev as int));
                        let lhs = old_events.subrange(0, k + 1).map_values(f_ev);
                        let rhs = old_events.subrange(0, k).map_values(f_ev).push(f_ev(old_events[k]));
                        assert(lhs.len() == rhs.len());
                        assert forall|j: int| 0 <= j < lhs.len() implies lhs[j] == rhs[j] by {
                            if j < k {
                                assert(lhs[j] == f_ev(old_events[j]));
                                assert(rhs[j] == f_ev(old_events[j]));
                            }
                        }
                        assert(lhs =~= rhs);
                    }
                },
                None => {},
            }
        }
        proof {
            assert(old_events.subrange(0, n_ev as int) =~= old_events);
        }
        let ghost a1 = actions@;

        let mut redraw: Vec<WindowId> = Vec::new();
        std::mem::swap(&mut redraw, &mut self.pending_redraw);
        let mut i: usize = 0;
        while i < redraw.len()
            invariant
                redraw@ == old_redraw,
                i <= redraw@.len(),
                actions@ == a1 + old_redraw.subrange(0, i as int).map_values(f_rd),
                f_rd == (|w: WindowId| redraw_action::<W, D, S>(w)),
            decreases redraw@.len() - i,
        {
            let window_id = redraw[i];
            actions.push(AppAction::Dispatch(Event::RedrawRequested { window_id }));
            proof {
                assert(old_redraw.subrange(0, i + 1).map_values(f_rd) =~= old_redraw.subrange(
                    0,
                    i as int,
                ).map_values(f_rd).push(f_rd(old_redraw[i as int])));
            }
            i = i + 1;
        }
        proof {
            assert(old_redraw.subrange(0, old_redraw.len() as int) =~= old_redraw);
        }
        actions.push(AppAction::Dispatch(Event::AboutToWait));
        self.set_in_callback(false);
        let ghost a3 = actions@;

        if self.exit {
            actions.push(AppAction::StopApp);
        }
        let ghost a4 = actions@;
        if self.stop_before_wait {
            actions.push(AppAction::StopApp);
        }
        let ghost a5 = actions@;
        self.start_time = Some(now);
        let wait_timeout = self.wait_timeout;
        let app_timeout = match self.control_flow {
            ControlFlow::Wait => None,
            ControlFlow::Poll => Some(now),
            ControlFlow::WaitUntil(instant) => Some(instant),
        };
        match self.waker.start_at(min_timeout(wait_timeout, app_timeout), now) {
            Some(t) => actions.push(AppAction::Timer(t)),
            None => {},
        }
        proof {
            assert(a4 =~= a3 + stop_if::<W, D, S>(old(self).exit));
            assert(a5 =~= a4 + stop_if::<W, D, S>(old(self).stop_before_wait));
            assert(self.pending_events@.len() == 0);
            assert(actions@ =~= cleared_actions(*old(self), now));
        }
        actions
    }

    /// A redraw that AppKit requests directly. Unless a callback is running (the request
    /// came from inside it), dispatches `RedrawRequested` and, for `pump_events`, stops the
    /// application afterwards.
    pub fn handle_redraw(&mut self, window_id: WindowId) -> (actions: Vec<AppAction<W, D, S>>)
        ensures
            *final(self) == *old(self),
            actions@ == redraw_request_actions(*old(self), window_id),
    {
        let mut actions: Vec<AppAction<W, D, S>> = Vec::new();
        if !self.in_callback {
            self.handle_event(Event::RedrawRequested { window_id }, &mut actions);
            self.in_callback = false;
            if self.stop_on_redraw {
                actions.push(AppAction::StopApp);
            }
        }
        proof {
            assert(Seq::<AppAction<W, D, S>>::empty() + dispatch_all::<W, D, S>(
                old(self).has_callback,
                seq![Event::RedrawRequested { window_id }],
            ) =~= dispatch_all::<W, D, S>(
                old(self).has_callback,
                seq![Event::RedrawRequested { window_id }],
            ));
            assert(dispatch_all::<W, D, S>(
                old(self).has_callback,
                seq![Event::RedrawRequested { window_id }],
            ) + Seq::<AppAction<W, D, S>>::empty() =~= dispatch_all::<W, D, S>(
                old(self).has_callback,
                seq![Event::RedrawRequested { window_id }],
            ));
        }
        actions
    }
}

/// A call that AppKit, the run-loop observers or the event loop make on the delegate.
pub enum DelegateCall<W, D, S> {
    SetCallback,
    ClearCallback,
    SetStopOnLaunch,
    SetStopBeforeWait(bool),
    SetStopAfterWait(bool),
    SetStopOnRedraw(bool),
    SetWaitTimeout(Option<u64>),
    SetIsRunning(bool),
    Exit,
    ClearExit,
    SetControlFlow(ControlFlow),
    QueueWindowEvent(WindowId, W),
    QueueDeviceEvent(D),
    QueueScaleFactorChanged(S),
    QueueRedraw(WindowId),
    DispatchInitEvents,
    InternalExit,
    DidFinishLaunching,
    Wakeup { panicking: bool, now: u64 },
    Cleared { panicking: bool, now: u64 },
    HandleRedraw(WindowId),
}

/// The actions of a call on a delegate in state `d`.
pub open spec fn call_actions<W, D, S>(d: ApplicationDelegate<W, D, S>, call: DelegateCall<W, D, S>) -> Seq<
    AppAction<W, D, S>,
> {
    match call {
        DelegateCall::QueueRedraw(_) => seq![AppAction::WakeUp],
        DelegateCall::DispatchInitEvents => dispatch_all::<W, D, S>(
            d.has_callback,
            seq![Event::NewEvents(StartCause::Init), Event::Resumed],
        ),
        DelegateCall::InternalExit => dispatch_all::<W, D, S>(d.has_callback, seq![Event::LoopExiting]),
        DelegateCall::DidFinishLaunching => launch_actions(d),
        DelegateCall::Wakeup { panicking, now } => wakeup_actions(d, panicking, now),
        DelegateCall::Cleared { panicking, now } => if d.observer_ignored(panicking) {
            Seq::empty()
        } else {
            cleared_actions(d, now)
        },
        DelegateCall::HandleRedraw(window_id) => redraw_request_actions(d, window_id),
        _ => Seq::empty(),
    }
}

/// The control flow after a call: set by `SetControlFlow`, reset to `Wait` when the loop
/// exits, kept by every other call.
pub open spec fn control_flow_after<W, D, S>(cf: ControlFlow, call: DelegateCall<W, D, S>) -> ControlFlow {
    match call {
        DelegateCall::SetControlFlow(value) => value,
        DelegateCall::InternalExit => ControlFlow::Wait,
        _ => cf,
    }
}

/// Whether exiting is asked for after a call: set by `Exit`, cleared by `ClearExit`, kept
/// by every other call.
pub open spec fn exit_after<W, D, S>(exit: bool, call: DelegateCall<W, D, S>) -> bool {
    match call {
        DelegateCall::Exit => true,
        DelegateCall::ClearExit => false,
        _ => exit,
    }
}

/// Whether the application has launched after a call.
pub open spec fn launched_after<W, D, S>(launched: bool, call: DelegateCall<W, D, S>) -> bool {
    match call {
        DelegateCall::DidFinishLaunching => true,
        _ => launched,
    }
}

/// The queued events after a call: a queueing call appends its event, a `Cleared` that is
/// not ignored delivers them all, every other call keeps them.
pub open spec fn pending_after<W, D, S>(d: ApplicationDelegate<W, D, S>, call: DelegateCall<W, D, S>) -> Seq<
    QueuedEvent<W, D, S>,
> {
    match call {
        DelegateCall::QueueWindowEvent(window_id, event) => d.pending_events@.push(
            QueuedEvent::WindowEvent(window_id, event),
        ),
        DelegateCall::QueueDeviceEvent(event) => d.pending_events@.push(QueuedEvent::DeviceEvent(event)),
        DelegateCall::QueueScaleFactorChanged(change) => d.pending_events@.push(
            QueuedEvent::ScaleFactorChanged(change),
        ),
        DelegateCall::Cleared { panicking, now } => if d.observer_ignored(panicking) {
            d.pending_events@
        } else {
            Seq::empty()
        },
        _ => d.pending_events@,
    }
}

/// The pending redraws after a call: `QueueRedraw` adds its window once, a `Cleared` that
/// is not ignored delivers them all, every other call keeps them.
pub open spec fn redraws_after<W, D, S>(d: ApplicationDelegate<W, D, S>, call: DelegateCall<W, D, S>) -> Seq<
    WindowId,
> {
    match call {
        DelegateCall::QueueRedraw(window_id) => redraw_queued(d.pending_redraw@, window_id),
        DelegateCall::Cleared { panicking, now } => if d.observer_ignored(panicking) {
            d.pending_redraw@
        } else {
            Seq::empty()
        },
        _ => d.pending_redraw@,
    }
}

/// The control flow after a sequence of calls, starting from `cf`.
pub open spec fn control_flow_after_calls<W, D, S>(cf: ControlFlow, calls: Seq<DelegateCall<W, D, S>>) -> ControlFlow
    decreases calls.len(),
{
    if calls.len() == 0 {
        cf
    } else {
        control_flow_after(control_flow_after_calls(cf, calls.drop_last()), calls.last())
    }
}

/// Whether exiting is asked for after a sequence of calls, starting from `exit`.
pub open spec fn exit_after_calls<W, D, S>(exit: bool, calls: Seq<DelegateCall<W, D, S>>) -> bool
    decreases calls.len(),
{
    if calls.len() == 0 {
        exit
    } else {
        exit_after(exit_after_calls(exit, calls.drop_last()), calls.last())
    }
}

/// Whether the application has launched after a sequence of calls, starting from
/// `launched`.
pub open spec fn launched_after_calls<W, D, S>(launched: bool, calls: Seq<DelegateCall<W, D, S>>) -> bool
    decreases calls.len(),
{
    if calls.len() == 0 {
        launched
    } else {
        launched_after(launched_after_calls(launched, calls.drop_last()), calls.last())
    }
}

/// The last request to exit (`Some(true)`) or not to (`Some(false)`) among the calls.
pub open spec fn last_exit_request<W, D, S>(calls: Seq<DelegateCall<W, D, S>>) -> Option<bool>
    decreases calls.len(),
{
    if calls.len() == 0 {
        None
    } else {
        match calls.last() {
            DelegateCall::Exit => Some(true),
            DelegateCall::ClearExit => Some(false),
            _ => last_exit_request(calls.drop_last()),
        }
    }
}

impl<W, D, S> ApplicationDelegate<W, D, S> {
    /// Makes a call on the delegate, returning its actions (see [`call_actions`]); the
    /// control flow, the exit request, the launch state, the queued events and the pending
    /// redraws change as [`control_flow_after`], [`exit_after`], [`launched_after`],
    /// [`pending_after`] and [`redraws_after`] say.
    #[verifier::spinoff_prover]
    #[verifier::rlimit(60)]
    pub fn apply_call(&mut self, call: DelegateCall<W, D, S>) -> (actions: Vec<AppAction<W, D, S>>)
        requires
            call matches DelegateCall::Wakeup { panicking, now } ==> (!old(self).observer_ignored(
                panicking,
            ) ==> old(self).start_time is Some),
        ensures
            actions@ == call_actions(*old(self), call),
            final(self).control_flow == control_flow_after(old(self).control_flow, call),
            final(self).exit == exit_after(old(self).exit, call),
            final(self).is_launched == launched_after(old(self).is_launched, call),
            final(self).pending_events@ == pending_after(*old(self), call),
            final(self).pending_redraw@ == redraws_after(*old(self), call),
    {
        match call {
            DelegateCall::SetCallback => {
                self.set_callback();
                Vec::new()
            },
            DelegateCall::ClearCallback => {
                self.clear_callback();
                Vec::new()
            },
            DelegateCall::SetStopOnLaunch => {
                self.set_stop_on_launch();
                Vec::new()
            },
            DelegateCall::SetStopBeforeWait(value) => {
                self.set_stop_before_wait(value);
                Vec::new()
            },
            DelegateCall::SetStopAfterWait(value) => {
                self.set_stop_after_wait(value);
                Vec::new()
            },
            DelegateCall::SetStopOnRedraw(value) => {
                self.set_stop_on_redraw(value);
                Vec::new()
            },
            DelegateCall::SetWaitTimeout(value) => {
                self.set_wait_timeout(value);
                Vec::new()
            },
            DelegateCall::SetIsRunning(value) => {
                self.set_is_running(value);
                Vec::new()
            },
            DelegateCall::Exit => {
                self.exit();
                Vec::new()
            },
            DelegateCall::ClearExit => {
                self.clear_exit();
                Vec::new()
            },
            DelegateCall::SetControlFlow(value) => {
                self.set_control_flow(value);
                Vec::new()
            },
            DelegateCall::QueueWindowEvent(window_id, event) => {
                self.queue_window_event(window_id, event);
                Vec::new()
            },
            DelegateCall::QueueDeviceEvent(event) => {
                self.queue_device_event(event);
                Vec::new()
            },
            DelegateCall::QueueScaleFactorChanged(change) => {
                self.queue_static_scale_factor_changed_event(change);
                Vec::new()
            },
            DelegateCall::QueueRedraw(window_id) => self.queue_redraw(window_id),
            DelegateCall::DispatchInitEvents => self.dispatch_init_events(),
            DelegateCall::InternalExit => self.internal_exit(),
            DelegateCall::DidFinishLaunching => self.did_finish_launching(),
            DelegateCall::Wakeup { panicking, now } => self.wakeup(panicking, now),
            DelegateCall::Cleared { panicking, now } => self.cleared(panicking, now),
            DelegateCall::HandleRedraw(window_id) => self.handle_redraw(window_id),
        }
    }
}

/// The control flow stays at its default, `Wait`, until the application sets it: a
/// sequence of calls without `SetControlFlow`, made on a new delegate, leaves it `Wait`.
pub proof fn lemma_control_flow_default_until_set<W, D, S>(calls: Seq<DelegateCall<W, D, S>>)
    requires
        forall|i: int| 0 <= i < calls.len() ==> !(#[trigger] calls[i] is SetControlFlow),
    ensures
        control_flow_after_calls(ControlFlow::Wait, calls) == ControlFlow::Wait,
    decreases calls.len(),
{
    if calls.len() > 0 {
        let rest = calls.drop_last();
        assert forall|i: int| 0 <= i < rest.len() implies !(#[trigger] rest[i] is SetControlFlow) by {
            assert(rest[i] == calls[i]);
        }
        lemma_control_flow_default_until_set(rest);
        assert(!(calls[calls.len() - 1] is SetControlFlow));
    }
}

/// Whether the event loop is exiting follows the last `Exit` or `ClearExit`; with neither
/// among the calls it is what it was before them (false for a new delegate).
pub proof fn lemma_exiting_follows_last_request<W, D, S>(exit: bool, calls: Seq<DelegateCall<W, D, S>>)
    ensures
        exit_after_calls(exit, calls) == match last_exit_request(calls) {
            Some(b) => b,
            None => exit,
        },
    decreases calls.len(),
{
    if calls.len() > 0 {
        lemma_exiting_follows_last_request(exit, calls.drop_last());
    }
}

/// Once the application has launched it stays launched; before, it has launched exactly
/// when `DidFinishLaunching` was among the calls.
pub proof fn lemma_launch_is_kept<W, D, S>(launched: bool, calls: Seq<DelegateCall<W, D, S>>)
    ensures
        launched ==> launched_after_calls(launched, calls),
        !launched ==> (launched_after_calls(launched, calls) <==> exists|i: int|
            0 <= i < calls.len() && #[trigger] calls[i] is DidFinishLaunching),
    decreases calls.len(),
{
    if calls.len() > 0 {
        let rest = calls.drop_last();
        lemma_launch_is_kept(launched, rest);
        if !launched {
            if launched_after_calls(launched, rest) {
                let i = choose|i: int| 0 <= i < rest.len() && #[trigger] rest[i] is DidFinishLaunching;
                assert(calls[i] == rest[i]);
            }
            if exists|i: int| 0 <= i < calls.len() && #[trigger] calls[i] is DidFinishLaunching {
                let i = choose|i: int| 0 <= i < calls.len() && #[trigger] calls[i] is DidFinishLaunching;
                if i < calls.len() - 1 {
                    assert(rest[i] == calls[i]);
                }
            }
        }
    }
}

/// Whether an action delivers a queued event.
pub open spec fn delivers_queued<W, D, S>(a: AppAction<W, D, S>) -> bool {
    ||| a matches AppAction::Dispatch(Event::WindowEvent { .. })
    ||| a matches AppAction::Dispatch(Event::DeviceEvent { .. })
    ||| a is DispatchScaleFactorChanged
}

/// `cleared` delivers each queued event exactly once, in the order in which they were
/// queued: right after the pending-user-events marker, the action at each queue position
/// delivers that entry, and no other action delivers a queued event.
pub proof fn lemma_cleared_delivers_queue_in_order<W, D, S>(d: ApplicationDelegate<W, D, S>, now: u64)
    ensures
        forall|i: int|
            0 <= i < d.pending_events@.len() ==> #[trigger] cleared_actions(d, now)[1 + i]
                == queued_action(d.pending_events@[i]),
        forall|j: int|
            0 <= j < cleared_actions(d, now).len() && !(1 <= j < 1 + d.pending_events@.len())
                ==> !delivers_queued(#[trigger] cleared_actions(d, now)[j]),
{
    let q = d.pending_events@;
    let r = d.pending_redraw@;
    let deadline = spec_min_timeout(d.wait_timeout, app_timeout(d.control_flow, now));
    let head = seq![AppAction::<W, D, S>::Dispatch(Event::UserEvent(HandlePendingUserEvents))];
    let evs = q.map_values(|e: QueuedEvent<W, D, S>| queued_action(e));
    let rds = r.map_values(|w: WindowId| redraw_action::<W, D, S>(w));
    let tail = seq![AppAction::<W, D, S>::Dispatch(Event::AboutToWait)] + stop_if::<W, D, S>(d.exit)
        + stop_if::<W, D, S>(d.stop_before_wait) + timer_action::<W, D, S>(
        start_at_result(d.waker.next_fire_date, d.waker.start_instant, deadline, now).1,
    );
    let acts = cleared_actions(d, now);
    assert(acts =~= head + evs + rds + tail);
    assert forall|i: int| 0 <= i < q.len() implies #[trigger] cleared_actions(d, now)[1 + i]
        == queued_action(q[i]) by {
        assert(acts[1 + i] == evs[i]);
    }
    assert forall|j: int|
        0 <= j < acts.len() && !(1 <= j < 1 + q.len()) implies !delivers_queued(
        #[trigger] cleared_actions(d, now)[j],
    ) by {
        if j == 0 {
        } else if j < 1 + q.len() + r.len() {
            assert(acts[j] == rds[j - 1 - q.len()]);
        } else {
            let k = j - 1 - q.len() - r.len();
            assert(acts[j] == tail[k]);
            if k > 0 {
                let t1 = stop_if::<W, D, S>(d.exit) + stop_if::<W, D, S>(d.stop_before_wait);
                let t2 = timer_action::<W, D, S>(
                    start_at_result(d.waker.next_fire_date, d.waker.start_instant, deadline, now).1,
                );
                assert(tail =~= seq![AppAction::<W, D, S>::Dispatch(Event::AboutToWait)] + t1 + t2);
                if k - 1 < t1.len() {
                    assert(tail[k] == t1[k - 1]);
                } else {
                    assert(tail[k] == t2[k - 1 - t1.len()]);
                }
            }
        }
    }
}

/// An event queued on a delegate is delivered by the next `cleared` that is not ignored
/// after all those queued before it: at its own queue position, which no other action
/// delivers.
pub proof fn lemma_queued_event_delivered<W, D, S>(
    before: ApplicationDelegate<W, D, S>,
    after: ApplicationDelegate<W, D, S>,
    event: QueuedEvent<W, D, S>,
    now: u64,
)
    requires
        after.pending_events@ == before.pending_events@.push(event),
    ensures
        cleared_actions(after, now)[1 + before.pending_events@.len() as int] == queued_action(event),
        forall|i: int|
            0 <= i < before.pending_events@.len() ==> #[trigger] cleared_actions(after, now)[1 + i]
                == queued_action(before.pending_events@[i]),
{
    lemma_cleared_delivers_queue_in_order(after, now);
    let n = before.pending_events@.len() as int;
    assert(after.pending_events@[n] == event);
    assert forall|i: int| 0 <= i < n implies #[trigger] cleared_actions(after, now)[1 + i]
        == queued_action(before.pending_events@[i]) by {
        assert(after.pending_events@[i] == before.pending_events@[i]);
    }
}

/// A window whose redraw is pending, once or asked for again, gets exactly one
/// `RedrawRequested` from `cleared`.
pub proof fn lemma_redraw_delivered_once<W, D, S>(d: ApplicationDelegate<W, D, S>, window_id: WindowId, now: u64)
    requires
        d.redraws_distinct(),
        d.pending_redraw@.contains(window_id),
    ensures
        exists|j: int|
            0 <= j < cleared_actions(d, now).len() && #[trigger] cleared_actions(d, now)[j]
                == redraw_action::<W, D, S>(window_id),
        forall|j: int, k: int|
            0 <= j < cleared_actions(d, now).len() && 0 <= k < cleared_actions(d, now).len()
                && #[trigger] cleared_actions(d, now)[j] == redraw_action::<W, D, S>(window_id)
                && #[trigger] cleared_actions(d, now)[k] == redraw_action::<W, D, S>(window_id)
                ==> j == k,
{
    let q = d.pending_events@;
    let r = d.pending_redraw@;
    let deadline = spec_min_timeout(d.wait_timeout, app_timeout(d.control_flow, now));
    let head = seq![AppAction::<W, D, S>::Dispatch(Event::UserEvent(HandlePendingUserEvents))];
    let evs = q.map_values(|e: QueuedEvent<W, D, S>| queued_action(e));
    let rds = r.map_values(|w: WindowId| redraw_action::<W, D, S>(w));
    let t1 = stop_if::<W, D, S>(d.exit) + stop_if::<W, D, S>(d.stop_before_wait);
    let t2 = timer_action::<W, D, S>(
        start_at_result(d.waker.next_fire_date, d.waker.start_instant, deadline, now).1,
    );
    let tail = seq![AppAction::<W, D, S>::Dispatch(Event::AboutToWait)] + t1 + t2;
    let acts = cleared_actions(d, now);
    assert(acts =~= head + evs + rds + tail);
    let base = 1 + q.len();
    // Only the redraw segment holds a `RedrawRequested`, at the position of its window.
    assert forall|j: int|
        0 <= j < acts.len() && acts[j] == redraw_action::<W, D, S>(window_id) implies base <= j
        < base + r.len() && r[j - base] == window_id by {
        if j == 0 {
        } else if j < base {
            assert(acts[j] == evs[j - 1]);
        } else if j < base + r.len() {
            assert(acts[j] == rds[j - base]);
        } else {
            let k = j - base - r.len();
            assert(acts[j] == tail[k]);
            if k > 0 {
                if k - 1 < t1.len() {
                    assert(tail[k] == t1[k - 1]);
                } else {
                    assert(tail[k] == t2[k - 1 - t1.len()]);
                }
            }
        }
    }
    let p = choose|p: int| 0 <= p < r.len() && r[p] == window_id;
    assert(acts[base + p] == rds[p]);
}

/// Asking twice for a redraw of a window before the loop waits still gives it exactly one
/// `RedrawRequested`: the second request leaves the pending redraws as the first made them.
pub proof fn lemma_second_redraw_request_delivered_once<W, D, S>(
    before: ApplicationDelegate<W, D, S>,
    after: ApplicationDelegate<W, D, S>,
    window_id: WindowId,
    now: u64,
)
    requires
        before.redraws_distinct(),
        after.pending_redraw@ == redraw_queued(
            redraw_queued(before.pending_redraw@, window_id),
            window_id,
        ),
    ensures
        after.pending_redraw@ == redraw_queued(before.pending_redraw@, window_id),
        exists|j: int|
            0 <= j < cleared_actions(after, now).len() && #[trigger] cleared_actions(after, now)[j]
                == redraw_action::<W, D, S>(window_id),
        forall|j: int, k: int|
            0 <= j < cleared_actions(after, now).len() && 0 <= k < cleared_actions(after, now).len()
                && #[trigger] cleared_actions(after, now)[j] == redraw_action::<W, D, S>(window_id)
                && #[trigger] cleared_actions(after, now)[k] == redraw_action::<W, D, S>(window_id)
                ==> j == k,
{
    lemma_redraw_queued(before.pending_redraw@, window_id);
    lemma_redraw_delivered_once(after, window_id, now);
}

/// Why the loop says it woke up: when the wake-up is not ignored, the last action hands the
/// handler `NewEvents` with a cause that follows the control flow. Polling reports `Poll`
/// (and only polling does); waiting reports that the wait was cancelled, from the recorded
/// start, with no requested resume; waiting until an instant reports that the resume time
/// was reached once `now` is at or past it, and otherwise that the wait was cancelled
/// before it, with that instant. The application is stopped first exactly when
/// `pump_events` asked to stop after waiting. An ignored wake-up does nothing.
pub proof fn lemma_wakeup_reports_cause<W, D, S>(d: ApplicationDelegate<W, D, S>, panicking: bool, now: u64)
    ensures
        d.observer_ignored(panicking) ==> wakeup_actions(d, panicking, now).len() == 0,
        !d.observer_ignored(panicking) ==> {
            let a = wakeup_actions(d, panicking, now);
            let start = d.start_time->0;
            &&& a.len() == if d.stop_after_wait {
                2int
            } else {
                1int
            }
            &&& d.stop_after_wait ==> a[0] == AppAction::<W, D, S>::StopApp
            &&& d.control_flow == ControlFlow::Poll ==> a.last() == AppAction::<W, D, S>::Dispatch(
                Event::NewEvents(StartCause::Poll),
            )
            &&& d.control_flow == ControlFlow::Wait ==> a.last() == AppAction::<W, D, S>::Dispatch(
                Event::NewEvents(StartCause::WaitCancelled { start, requested_resume: None }),
            )
            &&& forall|t: u64|
                d.control_flow == ControlFlow::WaitUntil(t) && now >= t ==> a.last()
                    == AppAction::<W, D, S>::Dispatch(
                    Event::NewEvents(StartCause::ResumeTimeReached { start, requested_resume: t }),
                )
            &&& forall|t: u64|
                d.control_flow == ControlFlow::WaitUntil(t) && now < t ==> a.last()
                    == AppAction::<W, D, S>::Dispatch(
                    Event::NewEvents(StartCause::WaitCancelled { start, requested_resume: Some(t) }),
                )
            &&& (a.last() == AppAction::<W, D, S>::Dispatch(Event::NewEvents(StartCause::Poll)))
                == (d.control_flow == ControlFlow::Poll)
        },
{
}

/// The deadline that each control flow sets: polling at once, waiting never, waiting until
/// an instant at that instant.
pub proof fn lemma_control_flow_deadline(now: u64)
    ensures
        app_timeout(ControlFlow::Poll, now) == Some(now),
        app_timeout(ControlFlow::Wait, now) == None::<u64>,
        forall|t: u64| app_timeout(ControlFlow::WaitUntil(t), now) == Some(t),
{
}

/// How a queued event is delivered: a window event to the handler as that window's event,
/// a device event as an event of the only device, a scale-factor change through its own
/// action.
pub proof fn lemma_queued_action<W, D, S>(e: QueuedEvent<W, D, S>)
    ensures
        match e {
            QueuedEvent::WindowEvent(window_id, event) => queued_action(e) == AppAction::<W, D, S>::Dispatch(
                Event::WindowEvent { window_id, event },
            ),
            QueuedEvent::DeviceEvent(event) => queued_action(e) == AppAction::<W, D, S>::Dispatch(
                Event::DeviceEvent { device_id: DeviceId, event },
            ),
            QueuedEvent::ScaleFactorChanged(change) => queued_action(e)
                == AppAction::<W, D, S>::DispatchScaleFactorChanged(change),
        },
{
}

/// What the loop does before it waits: first the pending-user-events marker, then one
/// action per queued event, then a `RedrawRequested` for each pending redraw in order, then
/// `AboutToWait` (once); then one `StopApp` if the application asked to exit and one if
/// `pump_events` asked to stop before waiting; last, if the timer needs re-arming, the
/// timer action for the earlier of the `pump_events` deadline and the control flow's.
pub proof fn lemma_cleared_actions_shape<W, D, S>(d: ApplicationDelegate<W, D, S>, now: u64)
    ensures
        ({
            let a = cleared_actions(d, now);
            let q = d.pending_events@.len() as int;
            let r = d.pending_redraw@;
            let n = 1 + q + r.len() as int;
            let stops = (if d.exit { 1int } else { 0int }) + (if d.stop_before_wait {
                1int
            } else {
                0int
            });
            let timer = start_at_result(
                d.waker.next_fire_date,
                d.waker.start_instant,
                spec_min_timeout(d.wait_timeout, app_timeout(d.control_flow, now)),
                now,
            ).1;
            &&& a[0] == AppAction::<W, D, S>::Dispatch(Event::UserEvent(HandlePendingUserEvents))
            &&& forall|k: int|
                0 <= k < r.len() ==> #[trigger] a[1 + q + k] == AppAction::<W, D, S>::Dispatch(
                    Event::RedrawRequested { window_id: r[k] },
                )
            &&& a[n] == AppAction::<W, D, S>::Dispatch(Event::AboutToWait)
            &&& forall|j: int|
                0 <= j < n + 1 + stops ==> (#[trigger] a[j] == AppAction::<W, D, S>::StopApp
                    <==> n < j)
            &&& a.len() == n + 1 + stops + (if timer is Some {
                1int
            } else {
                0int
            })
            &&& timer matches Some(t) ==> a.last() == AppAction::<W, D, S>::Timer(t)
        }),
{
    let q = d.pending_events@;
    let r = d.pending_redraw@;
    let deadline = spec_min_timeout(d.wait_timeout, app_timeout(d.control_flow, now));
    let head = seq![AppAction::<W, D, S>::Dispatch(Event::UserEvent(HandlePendingUserEvents))];
    let evs = q.map_values(|e: QueuedEvent<W, D, S>| queued_action(e));
    let rds = r.map_values(|w: WindowId| redraw_action::<W, D, S>(w));
    let t1 = stop_if::<W, D, S>(d.exit) + stop_if::<W, D, S>(d.stop_before_wait);
    let t2 = timer_action::<W, D, S>(
        start_at_result(d.waker.next_fire_date, d.waker.start_instant, deadline, now).1,
    );
    let a = cleared_actions(d, now);
    assert(a =~= head + evs + rds + seq![AppAction::<W, D, S>::Dispatch(Event::AboutToWait)] + t1
        + t2);
    let n = 1 + q.len() as int + r.len() as int;
    assert forall|k: int| 0 <= k < r.len() implies #[trigger] a[1 + q.len() as int + k]
        == AppAction::<W, D, S>::Dispatch(Event::RedrawRequested { window_id: r[k] }) by {
        assert(a[1 + q.len() as int + k] == rds[k]);
    }
    let stops = (if d.exit { 1int } else { 0int }) + (if d.stop_before_wait { 1int } else { 0int });
    assert forall|j: int| 0 <= j < n + 1 + stops implies (#[trigger] a[j]
        == AppAction::<W, D, S>::StopApp <==> n < j) by {
        if j == 0 {
        } else if j < 1 + q.len() {
            assert(a[j] == evs[j - 1]);
            assert(evs[j - 1] == queued_action(q[j - 1]));
        } else if j < n {
            assert(a[j] == rds[j - 1 - q.len()]);
        } else if j == n {
        } else {
            assert(a[j] == t1[j - n - 1]);
        }
    }
}

/// What the application finishing launching does: it sets the activation policy, then
/// activates the visible windows, then activates the application as configured; the
/// default menu is installed exactly when asked for; the timer is made to fire at once
/// exactly when it would not already; `NewEvents(Init)` then `Resumed` go to the handler
/// exactly when one is registered, and no other event does; the application is stopped,
/// last, exactly when `pump_events` launched it.
pub proof fn lemma_launch_actions<W, D, S>(d: ApplicationDelegate<W, D, S>)
    ensures
        ({
            let a = launch_actions(d);
            let menu = if d.default_menu { 1int } else { 0int };
            let timer = if d.waker.next_fire_date != Some(d.waker.start_instant) {
                1int
            } else {
                0int
            };
            let init = 3 + menu + timer;
            &&& a[0] == AppAction::<W, D, S>::SetActivationPolicy(d.activation_policy)
            &&& a[1] == AppAction::<W, D, S>::ActivateVisibleWindows
            &&& a[2] == AppAction::<W, D, S>::ActivateIgnoringOtherApps(d.activate_ignoring_other_apps)
            &&& d.default_menu ==> a[3] == AppAction::<W, D, S>::InitializeMenu
            &&& timer == 1 ==> a[3 + menu] == AppAction::<W, D, S>::Timer(TimerAction::Immediately)
            &&& d.has_callback ==> a[init] == AppAction::<W, D, S>::Dispatch(
                Event::NewEvents(StartCause::Init),
            ) && a[init + 1] == AppAction::<W, D, S>::Dispatch(Event::Resumed)
            &&& a.len() == init + (if d.has_callback {
                2int
            } else {
                0int
            }) + (if d.stop_on_launch {
                1int
            } else {
                0int
            })
            &&& d.stop_on_launch ==> a.last() == AppAction::<W, D, S>::StopApp
            &&& forall|j: int| 0 <= j < a.len() && #[trigger] a[j] is Dispatch ==> d.has_callback
                && init <= j < init + 2
            &&& forall|j: int| 0 <= j < a.len() && #[trigger] a[j] is StopApp ==> d.stop_on_launch
                && j == a.len() - 1
        }),
{
    let menu = if d.default_menu {
        seq![AppAction::<W, D, S>::InitializeMenu]
    } else {
        Seq::empty()
    };
    let timer = if d.waker.next_fire_date != Some(d.waker.start_instant) {
        seq![AppAction::<W, D, S>::Timer(TimerAction::Immediately)]
    } else {
        Seq::empty()
    };
    let init = dispatch_all::<W, D, S>(
        d.has_callback,
        seq![Event::NewEvents(StartCause::Init), Event::Resumed],
    );
    if d.has_callback {
        assert(init =~= seq![
            AppAction::<W, D, S>::Dispatch(Event::NewEvents(StartCause::Init)),
            AppAction::<W, D, S>::Dispatch(Event::Resumed),
        ]);
    }
    let first = seq![
        AppAction::<W, D, S>::SetActivationPolicy(d.activation_policy),
        AppAction::ActivateVisibleWindows,
        AppAction::ActivateIgnoringOtherApps(d.activate_ignoring_other_apps),
    ];
    let a = launch_actions(d);
    assert(a =~= first + menu + timer + init + stop_if::<W, D, S>(d.stop_on_launch));
}

/// Events reach the handler only when one is registered: then each event, in order,
/// becomes its dispatch, and without a handler nothing is dispatched.
pub proof fn lemma_dispatch_all<W, D, S>(has_callback: bool, events: Seq<Event<W, D, HandlePendingUserEvents>>)
    ensures
        has_callback ==> dispatch_all::<W, D, S>(has_callback, events).len() == events.len(),
        has_callback ==> forall|i: int|
            0 <= i < events.len() ==> #[trigger] dispatch_all::<W, D, S>(has_callback, events)[i]
                == AppAction::<W, D, S>::Dispatch(events[i]),
        !has_callback ==> dispatch_all::<W, D, S>(has_callback, events).len() == 0,
{
}

/// A redraw that AppKit asks for from inside a callback does nothing; otherwise the window's
/// `RedrawRequested` goes to the handler, if one is registered, and then the application is
/// stopped exactly when `pump_events` asked to stop on a redraw.
pub proof fn lemma_redraw_request_actions<W, D, S>(d: ApplicationDelegate<W, D, S>, window_id: WindowId)
    ensures
        d.in_callback ==> redraw_request_actions(d, window_id).len() == 0,
        !d.in_callback ==> redraw_request_actions(d, window_id) == (if d.has_callback {
            seq![AppAction::<W, D, S>::Dispatch(Event::RedrawRequested { window_id })]
        } else {
            Seq::empty()
        }) + (if d.stop_on_redraw {
            seq![AppAction::<W, D, S>::StopApp]
        } else {
            Seq::empty()
        }),
{
    let e = seq![Event::<W, D, HandlePendingUserEvents>::RedrawRequested { window_id }];
    if d.has_callback {
        assert(dispatch_all::<W, D, S>(d.has_callback, e) =~= seq![
            AppAction::<W, D, S>::Dispatch(Event::RedrawRequested { window_id }),
        ]);
    }
}

} // verus!
