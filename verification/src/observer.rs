//! The run-loop timer that wakes the event loop: when it should next fire.
use vstd::prelude::*;

verus! {

/// How the run-loop timer must be re-armed.
#[derive(Clone, Copy, Debug, PartialEq, Eq, Structural)]
pub enum TimerAction {
    /// Never fire (the fire date far in the future).
    Never,
    /// Fire at once (the fire date far in the past).
    Immediately,
    /// Fire after this many nanoseconds from now.
    After(u64),
}

/// The earlier of two optional deadlines, where `None` means no deadline (an infinite
/// timeout, not a zero one).
pub open spec fn spec_min_timeout(a: Option<u64>, b: Option<u64>) -> Option<u64> {
    match (a, b) {
        (None, b) => b,
        (Some(x), None) => Some(x),
        (Some(x), Some(y)) => Some(if x <= y { x } else { y }),
    }
}

/// Returns the earlier of two optional deadlines; `None` is an infinite timeout.
pub fn min_timeout(a: Option<u64>, b: Option<u64>) -> (r: Option<u64>)
    ensures
        r == spec_min_timeout(a, b),
{
    match a {
        None => b,
        Some(a_timeout) => match b {
            None => Some(a_timeout),
            Some(b_timeout) => Some(if a_timeout <= b_timeout { a_timeout } else { b_timeout }),
        },
    }
}

/// `min_timeout` does not depend on the order of its arguments.
pub proof fn lemma_min_timeout_commutative(a: Option<u64>, b: Option<u64>)
    ensures
        spec_min_timeout(a, b) == spec_min_timeout(b, a),
{
}

/// No deadline is the identity of `min_timeout`, and the result is never later than a
/// given deadline.
pub proof fn lemma_min_timeout_bounds(a: Option<u64>, b: Option<u64>)
    ensures
        spec_min_timeout(None, b) == b,
        spec_min_timeout(a, None) == a,
        a matches Some(x) ==> (spec_min_timeout(a, b) matches Some(m) && m <= x),
        b matches Some(y) ==> (spec_min_timeout(a, b) matches Some(m) && m <= y),
        spec_min_timeout(a, b) is Some <==> (a is Some || b is Some),
        spec_min_timeout(a, b) matches Some(m) ==> (a == Some(m) || b == Some(m)),
{
}

/// The new fire date and the re-arming of the timer when it is armed for `instant` at `now`.
pub open spec fn start_at_result(
    next_fire_date: Option<u64>,
    start_instant: u64,
    instant: Option<u64>,
    now: u64,
) -> (Option<u64>, Option<TimerAction>) {
    match instant {
        None => (None, if next_fire_date is Some { Some(TimerAction::Never) } else { None }),
        Some(i) => if now >= i {
            (
                Some(start_instant),
                if next_fire_date != Some(start_instant) {
                    Some(TimerAction::Immediately)
                } else {
                    None
                },
            )
        } else {
            (Some(i), if next_fire_date != Some(i) { Some(TimerAction::After((i - now) as u64)) } else { None })
        },
    }
}

/// Arming the timer again for the same deadline changes nothing, as long as the deadline
/// has not been reached in between: the fire date is only re-armed when it differs.
pub proof fn lemma_start_at_idempotent(
    next_fire_date: Option<u64>,
    start_instant: u64,
    instant: Option<u64>,
    now: u64,
    later: u64,
)
    requires
        now <= later,
        instant matches Some(i) ==> (later < i || now >= i),
    ensures
        ({
            let first = start_at_result(next_fire_date, start_instant, instant, now);
            let second = start_at_result(first.0, start_instant, instant, later);
            second.0 == first.0 && second.1 is None
        }),
{
}

/// The timer that wakes the main run loop, as instants in nanoseconds.
#[derive(Debug)]
pub struct EventLoopWaker {
    /// An instant in the past: a fire date of this instant wakes the loop at once.
    pub start_instant: u64,
    /// The fire date the timer is armed with: `None` for never, `start_instant` for at once.
    pub next_fire_date: Option<u64>,
}

impl EventLoopWaker {
    /// A waker that never fires, created at instant `now`.
    pub fn new(now: u64) -> (r: EventLoopWaker)
        ensures
            r.start_instant == now,
            r.next_fire_date is None,
    {
        EventLoopWaker { start_instant: now, next_fire_date: None }
    }

    /// Stops the timer; returns how to re-arm it, if anything changes.
    pub fn stop(&mut self) -> (r: Option<TimerAction>)
        ensures
            final(self).next_fire_date is None,
            final(self).start_instant == old(self).start_instant,
            r == (if old(self).next_fire_date is Some {
                Some(TimerAction::Never)
            } else {
                None
            }),
    {
        if self.next_fire_date.is_some() {
            self.next_fire_date = None;
            Some(TimerAction::Never)
        } else {
            None
        }
    }

    /// Makes the timer fire at once; returns how to re-arm it, if anything changes.
    pub fn start(&mut self) -> (r: Option<TimerAction>)
        ensures
            final(self).next_fire_date == Some(old(self).start_instant),
            final(self).start_instant == old(self).start_instant,
            r == (if old(self).next_fire_date != Some(old(self).start_instant) {
                Some(TimerAction::Immediately)
            } else {
                None
            }),
    {
        let armed = match self.next_fire_date {
            Some(d) => d == self.start_instant,
            None => false,
        };
        if !armed {
            self.next_fire_date = Some(self.start_instant);
            Some(TimerAction::Immediately)
        } else {
            None
        }
    }

    /// Arms the timer for a deadline at instant `now`: a deadline that has passed fires at
    /// once, no deadline never fires, and a future one fires after the time left (re-armed
    /// only when it differs from the current fire date).
    pub fn start_at(&mut self, instant: Option<u64>, now: u64) -> (r: Option<TimerAction>)
        ensures
            final(self).start_instant == old(self).start_instant,
            (final(self).next_fire_date, r) == start_at_result(
                old(self).next_fire_date,
                old(self).start_instant,
                instant,
                now,
            ),
    {
        match instant {
            Some(i) => {
                if now >= i {
                    self.start()
                } else {
                    let same = match self.next_fire_date {
                        Some(d) => d == i,
                        None => false,
                    };
                    if !same {
                        self.next_fire_date = Some(i);
                        Some(TimerAction::After(i - now))
                    } else {
                        None
                    }
                }
            },
            None => self.stop(),
        }
    }
}

/// The run loop is about to wait for events (`kCFRunLoopBeforeWaiting`).
pub const K_CF_RUN_LOOP_BEFORE_WAITING: usize = 32;
/// The run loop finished waiting (`kCFRunLoopAfterWaiting`).
pub const K_CF_RUN_LOOP_AFTER_WAITING: usize = 64;
/// The run loop exits (`kCFRunLoopExit`).
pub const K_CF_RUN_LOOP_EXIT: usize = 128;

/// What the application delegate does for an activity of the main run loop.
#[derive(Clone, Copy, Debug, PartialEq, Eq, Structural)]
pub enum RunLoopStep {
    /// The loop woke up: `wakeup`.
    Wakeup,
    /// The loop is about to wait: `cleared`.
    Cleared,
    /// Nothing (the loop exits).
    Nothing,
}

/// The step of the observer that runs first in each iteration: it only observes the end
/// of a wait.
pub fn control_flow_begin_step(activity: usize) -> (r: RunLoopStep)
    requires
        activity == K_CF_RUN_LOOP_AFTER_WAITING,
    ensures
        r == RunLoopStep::Wakeup,
{
    RunLoopStep::Wakeup
}

/// The step of the observer that runs last in each iteration: it observes the start of a
/// wait and the exit of the loop.
pub fn control_flow_end_step(activity: usize) -> (r: RunLoopStep)
    requires
        activity == K_CF_RUN_LOOP_BEFORE_WAITING || activity == K_CF_RUN_LOOP_EXIT,
    ensures
        r == (if activity == K_CF_RUN_LOOP_BEFORE_WAITING {
            RunLoopStep::Cleared
        } else {
            RunLoopStep::Nothing
        }),
{
    if activity == K_CF_RUN_LOOP_BEFORE_WAITING {
        RunLoopStep::Cleared
    } else {
        RunLoopStep::Nothing
    }
}

/// Arming the timer for a deadline at `now`: with no deadline the fire date is cleared and
/// the timer told never to fire, if it was armed; a deadline already reached makes the timer
/// fire at once (its fire date the start instant); a later deadline becomes the fire date,
/// the timer told to fire after the time left until it. The timer is only re-armed when
/// its fire date changes.
pub proof fn lemma_start_at_result(next_fire_date: Option<u64>, start_instant: u64, instant: Option<u64>, now: u64)
    ensures
        instant is None ==> start_at_result(next_fire_date, start_instant, instant, now).0 is None,
        instant is None ==> start_at_result(next_fire_date, start_instant, instant, now).1 == (
        if next_fire_date is Some {
            Some(TimerAction::Never)
        } else {
            None
        }),
        instant matches Some(i) ==> (now >= i ==> start_at_result(
            next_fire_date,
            start_instant,
            instant,
            now,
        ).0 == Some(start_instant)),
        instant matches Some(i) ==> (now >= i ==> start_at_result(
            next_fire_date,
            start_instant,
            instant,
            now,
        ).1 == (if next_fire_date != Some(start_instant) {
            Some(TimerAction::Immediately)
        } else {
            None
        })),
        instant matches Some(i) ==> (now < i ==> start_at_result(
            next_fire_date,
            start_instant,
            instant,
            now,
        ).0 == Some(i)),
        instant matches Some(i) ==> (now < i ==> (start_at_result(
            next_fire_date,
            start_instant,
            instant,
            now,
        ).1 is None <==> next_fire_date == Some(i))),
        instant matches Some(i) ==> (now < i ==> (start_at_result(
            next_fire_date,
            start_instant,
            instant,
            now,
        ).1 is Some ==> (start_at_result(next_fire_date, start_instant, instant, now).1->0 matches TimerAction::After(
            delay,
        ) && now + delay == i))),
{
}

} // verus!
