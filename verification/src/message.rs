//! The events that the pending table consumes.

use tokio::sync::oneshot;
use vstd::prelude::*;

verus! {

/// Either kind of event.
#[derive(Debug)]
#[verifier::reject_recursive_types(R)]
pub enum Message<R> {
    Request(Request<R>),
    Receive(Receive<R>),
}

/// A request that waits for its response: `resolve` carries the response
/// back to whoever asked.
#[derive(Debug)]
#[verifier::reject_recursive_types(R)]
pub struct Request<R> {
    pub request_id: u64,
    pub resolve: oneshot::Sender<R>,
}

/// A response that has arrived: `signal` is the value to deliver.
#[derive(Debug)]
pub struct Receive<R> {
    pub request_id: u64,
    pub signal: R,
}

impl<R> Message<R> {
    /// The event that asks for the response filed under `request_id`, to be
    /// sent on `resolve`.
    pub fn request(request_id: u64, resolve: oneshot::Sender<R>) -> (message: Self)
        ensures
            message == Message::Request(Request { request_id, resolve }),
    {
        Message::Request(Request { request_id, resolve })
    }

    /// The event that delivers `signal` as the response for `request_id`.
    pub fn receive(request_id: u64, signal: R) -> (message: Self)
        ensures
            message == Message::Receive(Receive { request_id, signal }),
    {
        Message::Receive(Receive { request_id, signal })
    }

    /// The key that pairs this event with its counterpart.
    pub open spec fn key(self) -> u64 {
        match self {
            Message::Request(request) => request.request_id,
            Message::Receive(receive) => receive.request_id,
        }
    }
}

} // verus!
