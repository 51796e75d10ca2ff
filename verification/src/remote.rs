//! What a caller is told when it submits an event from outside the table.
//!
//! Submitting and waiting are done by whoever owns the channels; this module
//! holds the rules that turn what the channels said into the caller's answer.

use crate::message::Message;
use vstd::prelude::*;

verus! {

/// Why a submission did not end with a value.
#[derive(Clone, Copy, Debug, PartialEq, Eq)]
pub enum RemoteError {
    /// The table is no longer served: the event was never accepted.
    EngineUnavailable,
    /// The request was accepted, but its channel was dropped without a value.
    LostResponse,
}

impl RemoteError {
    /// The answer to an attempt to enqueue an event. `returned` is the event
    /// itself if the channel gave it back, which it does only when nobody
    /// reads the channel any more.
    pub fn accepted<R>(returned: Option<Message<R>>) -> (answer: Result<(), RemoteError>)
        ensures
            answer == if returned is None {
                Ok::<(), RemoteError>(())
            } else {
                Err::<(), RemoteError>(RemoteError::EngineUnavailable)
            },
    {
        match returned {
            None => Ok(()),
            Some(_) => Err(RemoteError::EngineUnavailable),
        }
    }

    /// The answer to an accepted request. `response` is what came out of the
    /// request's channel: the value, or nothing if the sending half was
    /// dropped first.
    pub fn resolved<R>(response: Option<R>) -> (answer: Result<R, RemoteError>)
        ensures
            answer == match response {
                Some(signal) => Ok::<R, RemoteError>(signal),
                None => Err::<R, RemoteError>(RemoteError::LostResponse),
            },
    {
        match response {
            Some(signal) => Ok(signal),
            None => Err(RemoteError::LostResponse),
        }
    }
}

} // verus!
