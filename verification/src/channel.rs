//! A receiving end of a channel that can hold back one value, so that a value looked at
//! early is still the next one received.
use vstd::prelude::*;

use std::sync::mpsc::{Receiver, TryRecvError};

verus! {

#[verifier::external_type_specification]
#[verifier::external_body]
#[verifier::reject_recursive_types(T)]
pub struct ExReceiver<T>(Receiver<T>);

#[verifier::external_type_specification]
#[verifier::external_body]
pub struct ExTryRecvError(TryRecvError);

/// Calls `Receiver::try_recv`: a value waiting in the channel, or an error when none is
/// waiting or the senders are gone. What comes back depends on other threads, so the
/// contract states nothing of it.
#[verifier::external_body]
fn receiver_try_recv<T>(recv: &Receiver<T>) -> Result<T, TryRecvError> {
    recv.try_recv()
}

/// A channel receiver with room for one value received ahead.
#[verifier::reject_recursive_types(T)]
pub struct PeekableReceiver<T> {
    recv: Receiver<T>,
    first: Option<T>,
}

impl<T> PeekableReceiver<T> {
    /// The value held back, received before the ones still in the channel.
    pub closed spec fn held(&self) -> Option<T> {
        self.first
    }

    /// A receiver that holds nothing back yet.
    pub fn from_recv(recv: Receiver<T>) -> (r: Self)
        ensures
            r.held() is None,
    {
        Self { recv, first: None }
    }

    /// The value held back, if any, else the next value of the channel (or why there is
    /// none); either way nothing is held back afterwards.
    pub fn try_recv(&mut self) -> (r: Result<T, TryRecvError>)
        ensures
            final(self).held() is None,
            old(self).held() matches Some(v) ==> r == Ok::<T, TryRecvError>(v),
    {
        if let Some(first) = self.first.take() {
            return Ok(first);
        }
        receiver_try_recv(&self.recv)
    }
}

} // verus!
