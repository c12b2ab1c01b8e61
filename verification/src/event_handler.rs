//! The slot that holds the application's event handler while an event loop runs, and
//! guards it against re-entrant use.
use vstd::prelude::*;

verus! {

/// The state of the handler slot.
#[derive(Clone, Copy, Debug, PartialEq, Eq, Structural)]
pub enum HandlerState {
    /// No handler is registered.
    Unset,
    /// A handler is registered and idle.
    Ready,
    /// The handler is executing.
    InUse,
}

/// What handling an event amounts to.
#[derive(Clone, Copy, Debug, PartialEq, Eq, Structural)]
pub enum HandleOutcome {
    /// Run the handler, then call [`EventHandler::finish_event`].
    Run,
    /// No handler is set (the loop has exited): the event is dropped and an error logged.
    NoHandler,
}

/// What clearing the handler found.
#[derive(Clone, Copy, Debug, PartialEq, Eq, Structural)]
pub enum ClearOutcome {
    Cleared,
    /// No handler was set; an error is logged.
    WasUnset,
}

/// The slot holding the event loop's handler.
#[derive(Debug)]
pub struct EventHandler {
    pub state: HandlerState,
}

impl EventHandler {
    /// An empty slot.
    pub fn new() -> (r: EventHandler)
        ensures
            r.state == HandlerState::Unset,
    {
        EventHandler { state: HandlerState::Unset }
    }

    /// Registers the handler for the duration of `closure`: the slot is ready while the
    /// closure runs, the closure runs once and its value is returned, and the slot is empty
    /// again when it returns. Setting a handler while one is set or in use is a programming
    /// error, excluded here.
    pub fn set<R, F: FnOnce() -> R>(&mut self, closure: F) -> (r: R)
        requires
            old(self).state == HandlerState::Unset,
            call_requires(closure, ()),
        ensures
            final(self).state == HandlerState::Unset,
            call_ensures(closure, (), r),
    {
        self.state = HandlerState::Ready;
        let r = closure();
        let _ = self.clear();
        r
    }

    /// Unregisters the handler. Clearing it while it runs is excluded (the process would
    /// abort).
    pub fn clear(&mut self) -> (r: ClearOutcome)
        requires
            old(self).state != HandlerState::InUse,
        ensures
            final(self).state == HandlerState::Unset,
            r == (if old(self).state == HandlerState::Ready {
                ClearOutcome::Cleared
            } else {
                ClearOutcome::WasUnset
            }),
    {
        match self.state {
            HandlerState::Ready => {
                self.state = HandlerState::Unset;
                ClearOutcome::Cleared
            },
            _ => {
                self.state = HandlerState::Unset;
                ClearOutcome::WasUnset
            },
        }
    }

    /// Whether the handler is executing.
    pub fn in_use(&self) -> (r: bool)
        ensures
            r == (self.state == HandlerState::InUse),
    {
        self.state == HandlerState::InUse
    }

    /// Whether a handler is registered and idle.
    pub fn ready(&self) -> (r: bool)
        ensures
            r == (self.state == HandlerState::Ready),
    {
        self.state == HandlerState::Ready
    }

    /// Starts handling an event. Handling an event while another is being handled would
    /// re-enter the handler and is excluded (it panics).
    pub fn handle_event(&mut self) -> (r: HandleOutcome)
        requires
            old(self).state != HandlerState::InUse,
        ensures
            old(self).state == HandlerState::Ready ==> r == HandleOutcome::Run && final(self).state
                == HandlerState::InUse,
            old(self).state == HandlerState::Unset ==> r == HandleOutcome::NoHandler
                && final(self).state == HandlerState::Unset,
    {
        match self.state {
            HandlerState::Ready => {
                self.state = HandlerState::InUse;
                HandleOutcome::Run
            },
            _ => HandleOutcome::NoHandler,
        }
    }

    /// The handler returned (or unwound) from an event.
    pub fn finish_event(&mut self)
        requires
            old(self).state == HandlerState::InUse,
        ensures
            final(self).state == HandlerState::Ready,
    {
        self.state = HandlerState::Ready;
    }
}

} // verus!
