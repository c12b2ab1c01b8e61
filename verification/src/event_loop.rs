//! The event loop's entry points: how `run_on_demand` and `pump_events` prepare and finish
//! a run of the application, the panic slot, and the delivery of user events.
use vstd::prelude::*;

use crate::appkit::NSApplicationActivationPolicy;
use crate::app_delegate::{
    dispatch_all, AppAction, ApplicationDelegate, ControlFlow, Event, HandlePendingUserEvents,
    StartCause,
};

verus! {

/// A panic caught while the application ran, kept to be resumed at a safe point.
#[derive(Debug)]
pub struct PanicInfo<P> {
    pub inner: Option<P>,
}

impl<P> PanicInfo<P> {
    /// No panic caught.
    pub fn new() -> (r: PanicInfo<P>)
        ensures
            r.inner is None,
    {
        PanicInfo { inner: None }
    }

    /// Whether a panic was caught.
    pub fn is_panicking(&self) -> (r: bool)
        ensures
            r == self.inner is Some,
    {
        self.inner.is_some()
    }

    /// Records a caught panic, unless one is recorded already (the first one is kept).
    pub fn set_panic(&mut self, p: P)
        ensures
            final(self).inner == panic_recorded(old(self).inner, p),
    {
        if !self.is_panicking() {
            self.inner = Some(p);
        }
    }

    /// Takes the recorded panic, leaving none.
    pub fn take(&mut self) -> (r: Option<P>)
        ensures
            r == old(self).inner,
            final(self).inner is None,
    {
        self.inner.take()
    }
}

/// The recorded panic after a panic `p` is caught.
pub open spec fn panic_recorded<P>(inner: Option<P>, p: P) -> Option<P> {
    if inner is Some {
        inner
    } else {
        Some(p)
    }
}

/// Only the first panic is kept: after any number of further panics are caught, the panic
/// recorded first is still the one recorded, and it is what `take` gives back.
pub proof fn lemma_first_panic_kept<P>(first: P, later: Seq<P>)
    ensures
        later.fold_left(panic_recorded(None, first), |acc: Option<P>, p: P| panic_recorded(acc, p))
            == Some(first),
    decreases later.len(),
{
    if later.len() > 0 {
        lemma_first_panic_kept(first, later.drop_last());
    }
}

/// The event that the handler of a user-event type receives for an internal event.
pub open spec fn user_facing<W, D, T>(event: Event<W, D, HandlePendingUserEvents>) -> Event<W, D, T> {
    match event {
        Event::NewEvents(c) => Event::NewEvents(c),
        Event::WindowEvent { window_id, event } => Event::WindowEvent { window_id, event },
        Event::RedrawRequested { window_id } => Event::RedrawRequested { window_id },
        Event::DeviceEvent { device_id, event } => Event::DeviceEvent { device_id, event },
        Event::Resumed => Event::Resumed,
        Event::AboutToWait => Event::AboutToWait,
        Event::LoopExiting => Event::LoopExiting,
        Event::UserEvent(_) => Event::LoopExiting,
    }
}

/// The events that the application's handler receives for one internal event: the event
/// itself, or, for the "user events may be pending" marker, each user event received so
/// far in order.
pub open spec fn mapped_events<W, D, T>(
    event: Event<W, D, HandlePendingUserEvents>,
    user_events: Seq<T>,
) -> Seq<Event<W, D, T>> {
    match event {
        Event::UserEvent(_) => user_events.map_values(|e: T| Event::<W, D, T>::UserEvent(e)),
        _ => seq![user_facing::<W, D, T>(event)],
    }
}

/// Turns an internal event into the events for the application's handler. For the
/// marker event, `user_events` holds what the user-event channel had received.
pub fn map_user_event<W, D, T>(
    event: Event<W, D, HandlePendingUserEvents>,
    user_events: Vec<T>,
) -> (r: Vec<Event<W, D, T>>)
    ensures
        r@ == mapped_events(event, user_events@),
{
    let mut out: Vec<Event<W, D, T>> = Vec::new();
    match event {
        Event::UserEvent(_) => {
            let ghost orig = user_events@;
            let ghost f = |e: T| Event::<W, D, T>::UserEvent(e);
            let mut queue = std::collections::VecDeque::new();
            let mut rest = user_events;
            // Reverse twice through a deque to deliver the events in order.
            while rest.len() > 0
                invariant
                    rest@ + queue@ == orig,
                decreases rest@.len(),
            {
                let ghost before = rest@ + queue@;
                match rest.pop() {
                    Some(e) => {
                        queue.push_front(e);
                        proof {
                            assert(rest@ + queue@ =~= before);
                        }
                    },
                    None => {},
                }
            }
            let ghost n = orig.len();
            proof {
                assert(queue@ =~= orig);
            }
            while queue.len() > 0
                invariant
                    queue@ == orig.subrange(n - queue@.len(), n as int),
                    queue@.len() <= n,
                    n == orig.len(),
                    out@ == orig.subrange(0, n - queue@.len()).map_values(f),
                    f == (|e: T| Event::<W, D, T>::UserEvent(e)),
                decreases queue@.len(),
            {
                let ghost k = n - queue@.len();
                match queue.pop_front() {
                    Some(e) => {
                        out.push(Event::UserEvent(e));
                        proof {
                            assert(queue@ =~= orig.subrange(k + 1, n as int));
                            let lhs = orig.subrange(0, k + 1).map_values(f);
                            let rhs = orig.subrange(0, k).map_values(f).push(f(orig[k]));
                            assert forall|j: int| 0 <= j < lhs.len() implies lhs[j] == rhs[j] by {
                                if j < k {
                                    assert(lhs[j] == f(orig[j]));
                                }
                            }
                            assert(lhs =~= rhs);
                        }
                    },
                    None => {},
                }
            }
            proof {
                assert(orig.subrange(0, n as int) =~= orig);
            }
        },
        Event::NewEvents(c) => out.push(Event::NewEvents(c)),
        Event::WindowEvent { window_id, event } => out.push(Event::WindowEvent { window_id, event }),
        Event::RedrawRequested { window_id } => out.push(Event::RedrawRequested { window_id }),
        Event::DeviceEvent { device_id, event } => out.push(Event::DeviceEvent { device_id, event }),
        Event::Resumed => out.push(Event::Resumed),
        Event::AboutToWait => out.push(Event::AboutToWait),
        Event::LoopExiting => out.push(Event::LoopExiting),
    }
    out
}

/// How `pump_events` ended.
#[derive(Clone, Copy, Debug, PartialEq, Eq, Structural)]
pub enum PumpStatus {
    Continue,
    Exit(i32),
}

/// Prepares `run_on_demand`: clears the `pump_events` settings and, if the application has
/// launched already (an earlier loop ran), starts running and dispatches the initial
/// events; otherwise launching will. The caller then runs the application and, when it
/// returns, calls `internal_exit`.
pub fn run_on_demand_begin<W, D, S>(delegate: &mut ApplicationDelegate<W, D, S>) -> (actions: Vec<AppAction<W, D, S>>)
    requires
        old(delegate).is_launched ==> !old(delegate).is_running,
    ensures
        *final(delegate) == (ApplicationDelegate {
            wait_timeout: None,
            stop_before_wait: false,
            stop_after_wait: false,
            stop_on_redraw: false,
            is_running: old(delegate).is_launched || old(delegate).is_running,
            in_callback: if old(delegate).is_launched { false } else { old(delegate).in_callback },
            ..*old(delegate)
        }),
        actions@ == (if old(delegate).is_launched {
            dispatch_all::<W, D, S>(
                old(delegate).has_callback,
                seq![Event::NewEvents(StartCause::Init), Event::Resumed],
            )
        } else {
            Seq::empty()
        }),
{
    delegate.set_wait_timeout(None);
    delegate.set_stop_before_wait(false);
    delegate.set_stop_after_wait(false);
    delegate.set_stop_on_redraw(false);
    if delegate.is_launched() {
        delegate.set_is_running(true);
        delegate.dispatch_init_events()
    } else {
        Vec::new()
    }
}

/// Prepares one `pump_events` call at instant `now`, with an optional timeout in
/// nanoseconds. Returns the actions and whether to run the application.
///
/// Before launch, the application runs until it has launched (then stops). A launched
/// loop that is not running restarts and dispatches the initial events without running.
/// Otherwise the application runs until the first redraw, stopping before waiting for a
/// zero timeout, after waiting for no timeout, and after waiting at most the timeout for
/// another one.
pub fn pump_events_begin<W, D, S>(
    delegate: &mut ApplicationDelegate<W, D, S>,
    timeout: Option<u64>,
    now: u64,
) -> (r: (Vec<AppAction<W, D, S>>, bool))
    requires
        !old(delegate).is_launched ==> !old(delegate).is_running,
        timeout matches Some(d) ==> now + d <= u64::MAX,
    ensures
        !old(delegate).is_launched ==> {
            &&& *final(delegate) == (ApplicationDelegate { stop_on_launch: true, ..*old(delegate) })
            &&& r.0@.len() == 0
            &&& r.1
        },
        old(delegate).is_launched && !old(delegate).is_running ==> {
            &&& *final(delegate) == (ApplicationDelegate {
                is_running: true,
                in_callback: false,
                ..*old(delegate)
            })
            &&& r.0@ == dispatch_all::<W, D, S>(
                old(delegate).has_callback,
                seq![Event::NewEvents(StartCause::Init), Event::Resumed],
            )
            &&& !r.1
        },
        old(delegate).is_launched && old(delegate).is_running ==> {
            &&& *final(delegate) == (ApplicationDelegate {
                wait_timeout: match timeout {
                    Some(d) => if d == 0 {
                        None
                    } else {
                        Some((now + d) as u64)
                    },
                    None => None,
                },
                stop_before_wait: timeout == Some(0u64),
                stop_after_wait: if timeout == Some(0u64) {
                    old(delegate).stop_after_wait
                } else {
                    true
                },
                stop_on_redraw: true,
                ..*old(delegate)
            })
            &&& r.0@.len() == 0
            &&& r.1
        },
{
    if !delegate.is_launched() {
        // Run the application until it has launched; the initial events are dispatched
        // once it has.
        delegate.set_stop_on_launch();
        (Vec::new(), true)
    } else if !delegate.is_running() {
        // The loop ran before and exited: start it again.
        delegate.set_is_running(true);
        let actions = delegate.dispatch_init_events();
        (actions, false)
    } else {
        // Run only as long as the timeout allows, so as not to block the caller's loop.
        match timeout {
            Some(0) => {
                delegate.set_wait_timeout(None);
                delegate.set_stop_before_wait(true);
            },
            Some(duration) => {
                delegate.set_stop_before_wait(false);
                delegate.set_wait_timeout(Some(now + duration));
                delegate.set_stop_after_wait(true);
            },
            None => {
                delegate.set_wait_timeout(None);
                delegate.set_stop_before_wait(false);
                delegate.set_stop_after_wait(true);
            },
        }
        delegate.set_stop_on_redraw(true);
        (Vec::new(), true)
    }
}

/// Finishes one `pump_events` call: if the user asked to exit, the loop exits (see
/// `internal_exit`) with status 0; otherwise it continues.
pub fn pump_events_end<W, D, S>(delegate: &mut ApplicationDelegate<W, D, S>) -> (r: (Vec<AppAction<W, D, S>>, PumpStatus))
    ensures
        old(delegate).exit ==> {
            &&& *final(delegate) == (ApplicationDelegate {
                in_callback: false,
                is_running: false,
                control_flow: ControlFlow::Wait,
                stop_on_redraw: false,
                stop_before_wait: false,
                stop_after_wait: false,
                wait_timeout: None,
                has_callback: false,
                ..*old(delegate)
            })
            &&& r.0@ == dispatch_all::<W, D, S>(old(delegate).has_callback, seq![Event::LoopExiting])
            &&& r.1 == PumpStatus::Exit(0)
        },
        !old(delegate).exit ==> *final(delegate) == *old(delegate) && r.0@.len() == 0 && r.1
            == PumpStatus::Continue,
{
    if delegate.exiting() {
        let actions = delegate.internal_exit();
        (actions, PumpStatus::Exit(0))
    } else {
        (Vec::new(), PumpStatus::Continue)
    }
}

/// How the application appears in the Dock and whether it may have a user interface.
#[derive(Clone, Copy, Debug, PartialEq, Eq, Structural, Hash)]
pub enum ActivationPolicy {
    /// An ordinary application, in the Dock, with a menu bar.
    Regular,
    /// Not in the Dock and without a menu bar, but it may show windows.
    Accessory,
    /// Without any user interface.
    Prohibited,
}

/// The macOS-specific attributes of an event loop.
#[derive(Clone, Copy, Debug)]
pub struct PlatformSpecificEventLoopAttributes {
    pub activation_policy: Option<ActivationPolicy>,
    pub default_menu: bool,
    pub activate_ignoring_other_apps: bool,
}

impl Default for PlatformSpecificEventLoopAttributes {
    /// No activation policy of its own, the default menu, and activation ignoring other
    /// applications.
    fn default() -> (r: Self)
        ensures
            r.activation_policy is None,
            r.default_menu,
            r.activate_ignoring_other_apps,
    {
        Self { activation_policy: None, default_menu: true, activate_ignoring_other_apps: true }
    }
}

/// The native activation policy of an activation policy, if one was asked for.
pub fn native_activation_policy(policy: Option<ActivationPolicy>) -> (r: Option<NSApplicationActivationPolicy>)
    ensures
        r == match policy {
            None => None,
            Some(ActivationPolicy::Regular) => Some(
                NSApplicationActivationPolicy::NSApplicationActivationPolicyRegular,
            ),
            Some(ActivationPolicy::Accessory) => Some(
                NSApplicationActivationPolicy::NSApplicationActivationPolicyAccessory,
            ),
            Some(ActivationPolicy::Prohibited) => Some(
                NSApplicationActivationPolicy::NSApplicationActivationPolicyProhibited,
            ),
        },
{
    match policy {
        None => None,
        Some(ActivationPolicy::Regular) => Some(
            NSApplicationActivationPolicy::NSApplicationActivationPolicyRegular,
        ),
        Some(ActivationPolicy::Accessory) => Some(
            NSApplicationActivationPolicy::NSApplicationActivationPolicyAccessory,
        ),
        Some(ActivationPolicy::Prohibited) => Some(
            NSApplicationActivationPolicy::NSApplicationActivationPolicyProhibited,
        ),
    }
}

} // verus!
