//! The pending table and the step that pairs a request with its response.

use crate::channel::send_signal;
use crate::message::{Message, Receive, Request};
use std::collections::HashMap;
use std::fmt::Debug;
use tokio::sync::oneshot;
use vstd::prelude::*;
use vstd::std_specs::hash::*;

verus! {

/// The half of a pair that arrived first and waits for the other.
#[derive(Debug)]
#[verifier::reject_recursive_types(R)]
pub enum ResponseState<R> {
    Received(Receive<R>),
    Requested(Request<R>),
}

impl<R> ResponseState<R> {
    /// The key under which the waiting half was submitted.
    pub open spec fn key(self) -> u64 {
        match self {
            ResponseState::Received(receive) => receive.request_id,
            ResponseState::Requested(request) => request.request_id,
        }
    }
}

/// A misuse that the table refuses to paper over.
#[derive(Clone, Copy, Debug, PartialEq, Eq)]
pub enum EngineError {
    /// A second request came for a key whose first request is still waiting.
    DuplicateRequestKey,
    /// A second response came for a key whose first response is still waiting.
    DuplicateResponseKey,
}

/// What the table decides to do with an event, before anything is sent.
#[verifier::reject_recursive_types(R)]
pub enum Effect<R> {
    /// The event is the first half of its pair and is kept.
    Store,
    /// The event completes a pair: `signal` goes out on `resolve`.
    Fulfill { resolve: oneshot::Sender<R>, signal: R },
    /// The event repeats a half that is already waiting.
    Fail(EngineError),
}

/// What became of an event that the table accepted.
#[derive(Debug, PartialEq, Eq)]
pub enum Outcome<R> {
    /// The event waits in the table for its counterpart.
    Stored,
    /// The pair was completed and the requester's channel took the value.
    Delivered,
    /// The pair was completed, but the requester had gone: the value that
    /// nobody will read comes back.
    Abandoned(R),
}

/// Every entry is filed under the key it was submitted with.
pub open spec fn filed_by_key<R>(table: Map<u64, ResponseState<R>>) -> bool {
    forall|k: u64| #[trigger] table.contains_key(k) ==> table[k].key() == k
}

/// The table after `message` has been handled.
pub open spec fn next_table<R>(table: Map<u64, ResponseState<R>>, message: Message<R>) -> Map<
    u64,
    ResponseState<R>,
> {
    let k = message.key();
    if !table.contains_key(k) {
        match message {
            Message::Request(request) => table.insert(k, ResponseState::Requested(request)),
            Message::Receive(receive) => table.insert(k, ResponseState::Received(receive)),
        }
    } else {
        match (message, table[k]) {
            (Message::Request(_), ResponseState::Received(_)) => table.remove(k),
            (Message::Receive(_), ResponseState::Requested(_)) => table.remove(k),
            _ => table,
        }
    }
}

/// What handling `message` calls for, given the table it meets.
pub open spec fn effect<R>(table: Map<u64, ResponseState<R>>, message: Message<R>) -> Effect<R> {
    let k = message.key();
    if !table.contains_key(k) {
        Effect::Store
    } else {
        match (message, table[k]) {
            (Message::Request(request), ResponseState::Received(receive)) => Effect::Fulfill {
                resolve: request.resolve,
                signal: receive.signal,
            },
            (Message::Receive(receive), ResponseState::Requested(request)) => Effect::Fulfill {
                resolve: request.resolve,
                signal: receive.signal,
            },
            (Message::Request(_), ResponseState::Requested(_)) => Effect::Fail(
                EngineError::DuplicateRequestKey,
            ),
            (Message::Receive(_), ResponseState::Received(_)) => Effect::Fail(
                EngineError::DuplicateResponseKey,
            ),
        }
    }
}

/// An attempt to deliver `signal` ended in `outcome`: either the channel took
/// it, or it came back untouched.
pub open spec fn settles<R>(outcome: Outcome<R>, signal: R) -> bool {
    outcome == Outcome::<R>::Delivered || outcome == Outcome::Abandoned(signal)
}

/// `result` is a faithful report of `effect`. A stored event and a refused
/// one have exactly one report; a delivery has two, because only the channel
/// knows whether the requester is still there.
pub open spec fn answers<R>(effect: Effect<R>, result: Result<Outcome<R>, EngineError>) -> bool {
    match effect {
        Effect::Store => result == Ok::<Outcome<R>, EngineError>(Outcome::Stored),
        Effect::Fulfill { resolve, signal } => result matches Ok(outcome) && settles(
            outcome,
            signal,
        ),
        Effect::Fail(error) => result == Err::<Outcome<R>, EngineError>(error),
    }
}

/// Matches requests and responses by key. Whichever half of a pair arrives
/// first is kept; when the other half arrives the response is sent to the
/// requester and the entry is gone.
#[verifier::reject_recursive_types(R)]
pub struct ResponseManager<R: Send + Debug> {
    response: HashMap<u64, ResponseState<R>>,
}

impl<R: Send + Debug> View for ResponseManager<R> {
    type V = Map<u64, ResponseState<R>>;

    closed spec fn view(&self) -> Map<u64, ResponseState<R>> {
        self.response@
    }
}

impl<R: Send + Debug + 'static> ResponseManager<R> {
    /// The table is well formed: every entry is filed under its own key.
    pub open spec fn wf(&self) -> bool {
        filed_by_key(self@)
    }

    /// An empty table.
    pub fn new() -> (manager: Self)
        ensures
            manager@ == Map::<u64, ResponseState<R>>::empty(),
            manager.wf(),
    {
        let response = HashMap::new();
        Self { response }
    }

    /// Handles one event: stores it, or completes the pair it belongs to, or
    /// refuses it as a duplicate. A refused event leaves the table as it was.
    pub fn handle_message(&mut self, message: Message<R>) -> (result: Result<
        Outcome<R>,
        EngineError,
    >)
        requires
            old(self).wf(),
        ensures
            final(self)@ == next_table(old(self)@, message),
            answers(effect(old(self)@, message), result),
            final(self).wf(),
    {
        match message {
            Message::Request(request) => self.on_request(request),
            Message::Receive(store) => self.on_receive(store),
        }
    }

    /// Handles a request. With nothing filed under its key it is stored; with
    /// a response waiting there, the response is sent on the request's channel
    /// and the entry removed; with another request waiting there, it is
    /// refused with `DuplicateRequestKey`.
    pub fn on_request(&mut self, request: Request<R>) -> (result: Result<Outcome<R>, EngineError>)
        requires
            old(self).wf(),
        ensures
            final(self)@ == next_table(old(self)@, Message::Request(request)),
            answers(effect(old(self)@, Message::Request(request)), result),
            final(self).wf(),
    {
        broadcast use group_hash_axioms;

        let key = request.request_id;
        let query = self.response.remove(&key);
        match query {
            None => {
                self.store_request(request);
                Ok(Outcome::Stored)
            },
            Some(ResponseState::Received(receive)) => Ok(Self::fulfill_request(request, receive)),
            Some(ResponseState::Requested(first)) => {
                self.response.insert(key, ResponseState::Requested(first));
                assert(self.response@ =~= old(self).response@);
                Err(EngineError::DuplicateRequestKey)
            },
        }
    }

    /// Handles a response. With nothing filed under its key it is stored;
    /// with a request waiting there, it is sent on that request's channel and
    /// the entry removed; with another response waiting there, it is refused
    /// with `DuplicateResponseKey`.
    pub fn on_receive(&mut self, receive: Receive<R>) -> (result: Result<Outcome<R>, EngineError>)
        requires
            old(self).wf(),
        ensures
            final(self)@ == next_table(old(self)@, Message::Receive(receive)),
            answers(effect(old(self)@, Message::Receive(receive)), result),
            final(self).wf(),
    {
        broadcast use group_hash_axioms;

        let key = receive.request_id;
        let query = self.response.remove(&key);
        match query {
            None => {
                self.store_received(receive);
                Ok(Outcome::Stored)
            },
            Some(ResponseState::Requested(request)) => Ok(Self::fulfill_request(request, receive)),
            Some(ResponseState::Received(first)) => {
                self.response.insert(key, ResponseState::Received(first));
                assert(self.response@ =~= old(self).response@);
                Err(EngineError::DuplicateResponseKey)
            },
        }
    }

    /// Files `request` under its key, in place of whatever was there.
    pub fn store_request(&mut self, request: Request<R>)
        requires
            old(self).wf(),
        ensures
            final(self)@ == old(self)@.insert(
                request.request_id,
                ResponseState::Requested(request),
            ),
            final(self).wf(),
    {
        broadcast use group_hash_axioms;

        let key = request.request_id;
        self.response.insert(key, ResponseState::Requested(request));
    }

    /// Files `received` under its key, in place of whatever was there.
    pub fn store_received(&mut self, received: Receive<R>)
        requires
            old(self).wf(),
        ensures
            final(self)@ == old(self)@.insert(
                received.request_id,
                ResponseState::Received(received),
            ),
            final(self).wf(),
    {
        broadcast use group_hash_axioms;

        let key = received.request_id;
        self.response.insert(key, ResponseState::Received(received));
    }

    /// Sends the response's value on the request's channel. A requester that
    /// has gone is no error: the value then comes back in `Abandoned`.
    pub fn fulfill_request(request: Request<R>, receive: Receive<R>) -> (outcome: Outcome<R>)
        ensures
            settles(outcome, receive.signal),
    {
        let Request { request_id: _, resolve } = request;
        let Receive { request_id: _, signal } = receive;
        Outcome::from_sent(send_signal(resolve, signal))
    }
}

impl<R> Outcome<R> {
    /// Reads what the completion channel said of a send: `Ok` means the value
    /// was taken, `Err` hands back the value that found no requester.
    pub fn from_sent(sent: Result<(), R>) -> (outcome: Self)
        ensures
            outcome == match sent {
                Ok(_) => Outcome::Delivered,
                Err(signal) => Outcome::Abandoned(signal),
            },
    {
        match sent {
            Ok(_) => Outcome::Delivered,
            Err(signal) => Outcome::Abandoned(signal),
        }
    }
}

} // verus!
