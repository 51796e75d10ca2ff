//! What holds of the pending table whatever the events are.
//!
//! The laws speak of [`next_table`] and [`effect`], the two functions by
//! which `ResponseManager::handle_message` states what it does, so each of
//! them is a statement about every run of the table.

use crate::manager::{answers, effect, filed_by_key, next_table};
use crate::manager::{Effect, EngineError, Outcome, ResponseState};
use crate::message::{Message, Receive, Request};
use tokio::sync::oneshot;
use vstd::prelude::*;

verus! {

/// Two tables hold the same thing, or both nothing, under `k`.
pub open spec fn agree_at<R>(
    a: Map<u64, ResponseState<R>>,
    b: Map<u64, ResponseState<R>>,
    k: u64,
) -> bool {
    a.contains_key(k) == b.contains_key(k) && (a.contains_key(k) ==> a[k] == b[k])
}

/// The table after a sequence of events, handled first to last.
pub open spec fn run<R>(table: Map<u64, ResponseState<R>>, events: Seq<Message<R>>) -> Map<
    u64,
    ResponseState<R>,
>
    decreases events.len(),
{
    if events.len() == 0 {
        table
    } else {
        run(next_table(table, events[0]), events.drop_first())
    }
}

/// No event of the run is refused.
pub open spec fn unrefused<R>(table: Map<u64, ResponseState<R>>, events: Seq<Message<R>>) -> bool
    decreases events.len(),
{
    events.len() == 0 || (!(effect(table, events[0]) is Fail) && unrefused(
        next_table(table, events[0]),
        events.drop_first(),
    ))
}

/// How many of `events` carry the key `k`.
pub open spec fn arrivals<R>(events: Seq<Message<R>>, k: u64) -> nat
    decreases events.len(),
{
    if events.len() == 0 {
        0
    } else if events[0].key() == k {
        1 + arrivals(events.drop_first(), k)
    } else {
        arrivals(events.drop_first(), k)
    }
}

/// None of `events` concerns the key `k`.
pub open spec fn all_about_others<R>(events: Seq<Message<R>>, k: u64) -> bool {
    forall|i: int| 0 <= i < events.len() ==> (#[trigger] events[i]).key() != k
}

/// A response that arrives first is stored, and the request that follows
/// under the same key is answered with exactly that response's value. The
/// pair then leaves the table as it was before either half came, so the value
/// is handed over once and never again.
pub proof fn law_response_then_request<R>(
    table: Map<u64, ResponseState<R>>,
    k: u64,
    signal: R,
    resolve: oneshot::Sender<R>,
)
    requires
        !table.contains_key(k),
    ensures
        ({
            let receive = Message::Receive(Receive { request_id: k, signal });
            let request = Message::Request(Request { request_id: k, resolve });
            let waiting = next_table(table, receive);
            &&& effect(table, receive) == Effect::<R>::Store
            &&& waiting == table.insert(k, ResponseState::Received(Receive { request_id: k, signal }))
            &&& effect(waiting, request) == (Effect::Fulfill { resolve, signal })
            &&& next_table(waiting, request) == table
        }),
{
    let receive = Message::Receive(Receive { request_id: k, signal });
    let request = Message::Request(Request { request_id: k, resolve });
    assert(next_table(next_table(table, receive), request) =~= table);
}

/// A request that arrives first is stored, and the response that follows
/// under the same key is sent to exactly that request's channel. The pair
/// then leaves the table as it was before either half came.
pub proof fn law_request_then_response<R>(
    table: Map<u64, ResponseState<R>>,
    k: u64,
    signal: R,
    resolve: oneshot::Sender<R>,
)
    requires
        !table.contains_key(k),
    ensures
        ({
            let receive = Message::Receive(Receive { request_id: k, signal });
            let request = Message::Request(Request { request_id: k, resolve });
            let waiting = next_table(table, request);
            &&& effect(table, request) == Effect::<R>::Store
            &&& waiting == table.insert(k, ResponseState::Requested(Request { request_id: k, resolve }))
            &&& effect(waiting, receive) == (Effect::Fulfill { resolve, signal })
            &&& next_table(waiting, receive) == table
        }),
{
    let receive = Message::Receive(Receive { request_id: k, signal });
    let request = Message::Request(Request { request_id: k, resolve });
    assert(next_table(next_table(table, request), receive) =~= table);
}

/// What the table decides for an event depends on nothing but what it holds
/// under that event's key.
pub proof fn law_effect_reads_own_key<R>(
    a: Map<u64, ResponseState<R>>,
    b: Map<u64, ResponseState<R>>,
    message: Message<R>,
)
    requires
        agree_at(a, b, message.key()),
    ensures
        effect(a, message) == effect(b, message),
        agree_at(next_table(a, message), next_table(b, message), message.key()),
{
}

/// An event touches no key but its own.
pub proof fn law_other_keys_untouched<R>(
    table: Map<u64, ResponseState<R>>,
    message: Message<R>,
    k: u64,
)
    requires
        message.key() != k,
    ensures
        agree_at(next_table(table, message), table, k),
{
}

/// Events under different keys can be handled in either order: the table
/// ends up the same, and each event meets the same decision whether or not
/// the other was handled before it.
pub proof fn law_distinct_keys_commute<R>(
    table: Map<u64, ResponseState<R>>,
    first: Message<R>,
    second: Message<R>,
)
    requires
        first.key() != second.key(),
    ensures
        next_table(next_table(table, first), second) == next_table(
            next_table(table, second),
            first,
        ),
        effect(next_table(table, first), second) == effect(table, second),
        effect(next_table(table, second), first) == effect(table, first),
{
    assert(next_table(next_table(table, first), second) =~= next_table(
        next_table(table, second),
        first,
    ));
}

/// However many events about other keys are handled, what the table holds
/// under `k` stays as it is.
pub proof fn law_run_leaves_other_keys<R>(
    table: Map<u64, ResponseState<R>>,
    events: Seq<Message<R>>,
    k: u64,
)
    requires
        all_about_others(events, k),
    ensures
        agree_at(run(table, events), table, k),
    decreases events.len(),
{
    if events.len() > 0 {
        let rest = events.drop_first();
        assert forall|i: int| 0 <= i < rest.len() implies (#[trigger] rest[i]).key() != k by {
            assert(rest[i] == events[i + 1]);
        }
        law_other_keys_untouched(table, events[0], k);
        law_run_leaves_other_keys(next_table(table, events[0]), rest, k);
    }
}

/// A pair is matched whatever happens to other keys in between: with a
/// response stored under a fresh key, then any events about other keys, the
/// request under that key is answered with the stored value. The same holds
/// with the request first and the response last.
pub proof fn law_pair_survives_interleaving<R>(
    table: Map<u64, ResponseState<R>>,
    k: u64,
    signal: R,
    resolve: oneshot::Sender<R>,
    others: Seq<Message<R>>,
)
    requires
        !table.contains_key(k),
        all_about_others(others, k),
    ensures
        ({
            let receive = Message::Receive(Receive { request_id: k, signal });
            let request = Message::Request(Request { request_id: k, resolve });
            &&& effect(run(next_table(table, receive), others), request) == (Effect::Fulfill {
                resolve,
                signal,
            })
            &&& effect(run(next_table(table, request), others), receive) == (Effect::Fulfill {
                resolve,
                signal,
            })
            &&& !next_table(run(next_table(table, receive), others), request).contains_key(k)
            &&& !next_table(run(next_table(table, request), others), receive).contains_key(k)
        }),
{
    let receive = Message::Receive(Receive { request_id: k, signal });
    let request = Message::Request(Request { request_id: k, resolve });
    law_run_leaves_other_keys(next_table(table, receive), others, k);
    law_run_leaves_other_keys(next_table(table, request), others, k);
}

/// A request is refused exactly when another request waits under its key,
/// and the refusal is `DuplicateRequestKey`; the table is left as it was.
pub proof fn law_duplicate_request<R>(table: Map<u64, ResponseState<R>>, request: Request<R>)
    ensures
        effect(table, Message::Request(request)) is Fail <==> table.contains_key(
            request.request_id,
        ) && table[request.request_id] is Requested,
        effect(table, Message::Request(request)) is Fail ==> {
            &&& effect(table, Message::Request(request)) == Effect::<R>::Fail(
                EngineError::DuplicateRequestKey,
            )
            &&& next_table(table, Message::Request(request)) == table
        },
{
}

/// A response is refused exactly when another response waits under its key,
/// and the refusal is `DuplicateResponseKey`; the table is left as it was.
pub proof fn law_duplicate_response<R>(table: Map<u64, ResponseState<R>>, receive: Receive<R>)
    ensures
        effect(table, Message::Receive(receive)) is Fail <==> table.contains_key(
            receive.request_id,
        ) && table[receive.request_id] is Received,
        effect(table, Message::Receive(receive)) is Fail ==> {
            &&& effect(table, Message::Receive(receive)) == Effect::<R>::Fail(
                EngineError::DuplicateResponseKey,
            )
            &&& next_table(table, Message::Receive(receive)) == table
        },
{
}

/// The same half submitted twice under a fresh key: the first is stored, the
/// second is refused, whatever channel or value the second one carries.
pub proof fn law_second_submission_is_refused<R>(
    table: Map<u64, ResponseState<R>>,
    first: Message<R>,
    second: Message<R>,
)
    requires
        !table.contains_key(first.key()),
        first.key() == second.key(),
        first is Request <==> second is Request,
    ensures
        effect(table, first) == Effect::<R>::Store,
        effect(next_table(table, first), second) == Effect::<R>::Fail(
            if first is Request {
                EngineError::DuplicateRequestKey
            } else {
                EngineError::DuplicateResponseKey
            },
        ),
{
}

/// A response for a waiting request is never refused and always clears the
/// entry, whether or not the requester is still listening: every report that
/// the table can give of it is an `Ok`, and the key is free afterwards.
pub proof fn law_response_clears_waiting_request<R>(
    table: Map<u64, ResponseState<R>>,
    waiting: Request<R>,
    receive: Receive<R>,
    result: Result<Outcome<R>, EngineError>,
)
    requires
        table.contains_key(receive.request_id),
        table[receive.request_id] == ResponseState::Requested(waiting),
        answers(effect(table, Message::Receive(receive)), result),
    ensures
        effect(table, Message::Receive(receive)) == (Effect::Fulfill {
            resolve: waiting.resolve,
            signal: receive.signal,
        }),
        result == Ok::<Outcome<R>, EngineError>(Outcome::Delivered) || result == Ok::<
            Outcome<R>,
            EngineError,
        >(Outcome::Abandoned(receive.signal)),
        next_table(table, Message::Receive(receive)) == table.remove(receive.request_id),
        !next_table(table, Message::Receive(receive)).contains_key(receive.request_id),
{
}

/// An entry lives from the first half of its pair to the second: an event
/// that is not refused files its key if the key was free, and frees it if it
/// was taken.
pub proof fn law_entry_lives_between_halves<R>(
    table: Map<u64, ResponseState<R>>,
    message: Message<R>,
)
    requires
        !(effect(table, message) is Fail),
    ensures
        next_table(table, message).contains_key(message.key()) <==> !table.contains_key(
            message.key(),
        ),
        effect(table, message) is Store <==> !table.contains_key(message.key()),
{
}

/// A key is pending exactly while one half of its pair has arrived and the
/// other has not: over a run in which nothing is refused, each accepted
/// event under `k` files the key or frees it, so the key's presence flips
/// once per arrival. From an empty table, `k` is pending if and only if an
/// odd number of its halves has come.
pub proof fn law_pending_iff_one_half_arrived<R>(
    table: Map<u64, ResponseState<R>>,
    events: Seq<Message<R>>,
    k: u64,
)
    requires
        unrefused(table, events),
    ensures
        run(table, events).contains_key(k) <==> (table.contains_key(k) != (arrivals(events, k) % 2
            == 1)),
    decreases events.len(),
{
    if events.len() > 0 {
        law_entry_lives_between_halves(table, events[0]);
        if events[0].key() != k {
            law_other_keys_untouched(table, events[0], k);
        }
        law_pending_iff_one_half_arrived(next_table(table, events[0]), events.drop_first(), k);
    }
}

/// Every table that events can produce from a well-filed one is well filed.
pub proof fn law_filing_is_kept<R>(table: Map<u64, ResponseState<R>>, events: Seq<Message<R>>)
    requires
        filed_by_key(table),
    ensures
        filed_by_key(run(table, events)),
    decreases events.len(),
{
    if events.len() > 0 {
        law_filing_is_kept(next_table(table, events[0]), events.drop_first());
    }
}

} // verus!
