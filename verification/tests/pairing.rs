use aligne::{EngineError, Message, Outcome, Receive, RemoteError, Request, ResponseManager};
use tokio::sync::oneshot;
use tokio::sync::oneshot::error::TryRecvError;

fn request<R>(request_id: u64) -> (Message<R>, oneshot::Receiver<R>) {
    let (resolve, response) = oneshot::channel();
    (Message::request(request_id, resolve), response)
}

fn receive<R>(request_id: u64, signal: R) -> Message<R> {
    Message::receive(request_id, signal)
}

#[test]
fn message_request_carries_the_key_and_the_channel() {
    let (resolve, mut response) = oneshot::channel();
    match Message::request(12, resolve) {
        Message::Request(Request { request_id, resolve }) => {
            assert_eq!(request_id, 12);
            assert_eq!(resolve.send("through"), Ok(()));
            assert_eq!(response.try_recv(), Ok("through"));
        }
        Message::Receive(_) => panic!("a request became a response"),
    }
}

#[test]
fn message_receive_carries_the_key_and_the_value() {
    match Message::receive(u64::MAX, 5i32) {
        Message::Receive(Receive { request_id, signal }) => {
            assert_eq!(request_id, u64::MAX);
            assert_eq!(signal, 5);
        }
        Message::Request(_) => panic!("a response became a request"),
    }
}

#[test]
fn an_enqueued_event_is_accepted() {
    assert_eq!(RemoteError::accepted::<u8>(None), Ok(()));
}

#[test]
fn a_returned_event_means_the_engine_is_unavailable() {
    assert_eq!(RemoteError::accepted(Some(receive(1, 2u8))), Err(RemoteError::EngineUnavailable));
    let (message, _response) = request::<u8>(1);
    assert_eq!(RemoteError::accepted(Some(message)), Err(RemoteError::EngineUnavailable));
}

#[test]
fn a_response_resolves_the_request() {
    assert_eq!(RemoteError::resolved(Some("x")), Ok("x"));
}

#[test]
fn a_dropped_channel_is_a_lost_response() {
    assert_eq!(RemoteError::resolved::<&str>(None), Err(RemoteError::LostResponse));
}

#[test]
fn a_table_dropped_with_a_waiting_request_loses_the_response() {
    let mut manager = ResponseManager::new();
    let (message, mut response) = request::<u8>(6);
    assert_eq!(manager.handle_message(message), Ok(Outcome::Stored));
    drop(manager);
    assert_eq!(RemoteError::resolved(response.try_recv().ok()), Err(RemoteError::LostResponse));
}

#[test]
fn response_before_request_resolves_to_the_value() {
    let mut manager = ResponseManager::new();
    assert_eq!(manager.handle_message(receive(7, "x")), Ok(Outcome::Stored));
    let (message, mut response) = request(7);
    assert_eq!(manager.handle_message(message), Ok(Outcome::Delivered));
    assert_eq!(response.try_recv(), Ok("x"));
}

#[test]
fn request_before_response_resolves_to_the_value() {
    let mut manager = ResponseManager::new();
    let (message, mut response) = request(7);
    assert_eq!(manager.handle_message(message), Ok(Outcome::Stored));
    assert_eq!(response.try_recv(), Err(TryRecvError::Empty));
    assert_eq!(manager.handle_message(receive(7, "x")), Ok(Outcome::Delivered));
    assert_eq!(response.try_recv(), Ok("x"));
}

#[test]
fn a_matched_value_is_handed_over_once() {
    let mut manager = ResponseManager::new();
    assert_eq!(manager.handle_message(receive(3, 30u32)), Ok(Outcome::Stored));
    let (first, mut first_response) = request(3);
    assert_eq!(manager.handle_message(first), Ok(Outcome::Delivered));
    assert_eq!(first_response.try_recv(), Ok(30));
    // The entry is gone: a new request under the key waits for a new response.
    let (second, mut second_response) = request(3);
    assert_eq!(manager.handle_message(second), Ok(Outcome::Stored));
    assert_eq!(second_response.try_recv(), Err(TryRecvError::Empty));
    assert_eq!(manager.handle_message(receive(3, 31u32)), Ok(Outcome::Delivered));
    assert_eq!(second_response.try_recv(), Ok(31));
}

#[test]
fn every_key_pairs_in_either_order() {
    let keys: [u64; 5] = [0, 1, 7, 1 << 40, u64::MAX];
    for key in keys {
        let mut manager = ResponseManager::new();
        assert_eq!(manager.on_receive(Receive { request_id: key, signal: key }), Ok(Outcome::Stored));
        let (resolve, mut response) = oneshot::channel();
        assert_eq!(manager.on_request(Request { request_id: key, resolve }), Ok(Outcome::Delivered));
        assert_eq!(response.try_recv(), Ok(key));

        let (resolve, mut response) = oneshot::channel();
        assert_eq!(manager.on_request(Request { request_id: key, resolve }), Ok(Outcome::Stored));
        assert_eq!(manager.on_receive(Receive { request_id: key, signal: !key }), Ok(Outcome::Delivered));
        assert_eq!(response.try_recv(), Ok(!key));
    }
}

#[test]
fn distinct_keys_do_not_leak_into_each_other() {
    let mut manager = ResponseManager::new();
    let (request_two, mut response_two) = request(2);
    let (request_one, mut response_one) = request(1);
    assert_eq!(manager.handle_message(request_two), Ok(Outcome::Stored));
    assert_eq!(manager.handle_message(receive(1, "message 1")), Ok(Outcome::Stored));
    assert_eq!(response_two.try_recv(), Err(TryRecvError::Empty));
    assert_eq!(manager.handle_message(receive(2, "message 2")), Ok(Outcome::Delivered));
    assert_eq!(manager.handle_message(request_one), Ok(Outcome::Delivered));
    assert_eq!(response_two.try_recv(), Ok("message 2"));
    assert_eq!(response_one.try_recv(), Ok("message 1"));
}

#[test]
fn interleaved_keys_give_the_same_answers_in_the_other_order() {
    let mut manager = ResponseManager::new();
    let (request_one, mut response_one) = request(1);
    let (request_two, mut response_two) = request(2);
    assert_eq!(manager.handle_message(receive(1, "message 1")), Ok(Outcome::Stored));
    assert_eq!(manager.handle_message(request_two), Ok(Outcome::Stored));
    assert_eq!(manager.handle_message(request_one), Ok(Outcome::Delivered));
    assert_eq!(manager.handle_message(receive(2, "message 2")), Ok(Outcome::Delivered));
    assert_eq!(response_one.try_recv(), Ok("message 1"));
    assert_eq!(response_two.try_recv(), Ok("message 2"));
}

#[test]
fn second_request_for_a_waiting_key_is_refused() {
    let mut manager: ResponseManager<&str> = ResponseManager::new();
    let (first, _first_response) = request(7);
    let (second, _second_response) = request(7);
    assert_eq!(manager.handle_message(first), Ok(Outcome::Stored));
    assert_eq!(manager.handle_message(second), Err(EngineError::DuplicateRequestKey));
}

#[test]
fn second_response_for_a_waiting_key_is_refused() {
    let mut manager = ResponseManager::new();
    assert_eq!(manager.handle_message(receive(7, "x")), Ok(Outcome::Stored));
    assert_eq!(manager.handle_message(receive(7, "y")), Err(EngineError::DuplicateResponseKey));
}

#[test]
fn a_refused_request_leaves_the_first_one_waiting() {
    let mut manager = ResponseManager::new();
    let (first, mut first_response) = request(9);
    let (second, mut second_response) = request(9);
    assert_eq!(manager.handle_message(first), Ok(Outcome::Stored));
    assert_eq!(manager.handle_message(second), Err(EngineError::DuplicateRequestKey));
    assert_eq!(second_response.try_recv(), Err(TryRecvError::Closed));
    assert_eq!(manager.handle_message(receive(9, 90u8)), Ok(Outcome::Delivered));
    assert_eq!(first_response.try_recv(), Ok(90));
}

#[test]
fn a_refused_response_leaves_the_first_one_waiting() {
    let mut manager = ResponseManager::new();
    assert_eq!(manager.handle_message(receive(9, "kept")), Ok(Outcome::Stored));
    assert_eq!(manager.handle_message(receive(9, "refused")), Err(EngineError::DuplicateResponseKey));
    let (message, mut response) = request(9);
    assert_eq!(manager.handle_message(message), Ok(Outcome::Delivered));
    assert_eq!(response.try_recv(), Ok("kept"));
}

#[test]
fn response_for_an_abandoned_request_is_accepted() {
    let mut manager = ResponseManager::new();
    let (message, response) = request(5);
    assert_eq!(manager.handle_message(message), Ok(Outcome::Stored));
    drop(response);
    assert_eq!(
        manager.handle_message(receive(5, String::from("late"))),
        Ok(Outcome::Abandoned(String::from("late")))
    );
    // The entry was consumed: the key is free again.
    assert_eq!(manager.handle_message(receive(5, String::from("next"))), Ok(Outcome::Stored));
    let (again, mut response) = request(5);
    assert_eq!(manager.handle_message(again), Ok(Outcome::Delivered));
    assert_eq!(response.try_recv(), Ok(String::from("next")));
}

#[test]
fn request_abandoned_at_once_is_accepted() {
    let mut manager = ResponseManager::new();
    assert_eq!(manager.handle_message(receive(5, 50u16)), Ok(Outcome::Stored));
    let (message, response) = request(5);
    drop(response);
    assert_eq!(manager.handle_message(message), Ok(Outcome::Abandoned(50)));
}

#[test]
fn fulfill_request_sends_the_signal() {
    let (resolve, mut response) = oneshot::channel();
    let outcome = ResponseManager::fulfill_request(
        Request { request_id: 1, resolve },
        Receive { request_id: 1, signal: vec![1u8, 2, 3] },
    );
    assert_eq!(outcome, Outcome::Delivered);
    assert_eq!(response.try_recv(), Ok(vec![1u8, 2, 3]));
}

#[test]
fn fulfill_request_ignores_the_keys() {
    let (resolve, mut response) = oneshot::channel();
    let outcome = ResponseManager::fulfill_request(
        Request { request_id: 1, resolve },
        Receive { request_id: 2, signal: 'z' },
    );
    assert_eq!(outcome, Outcome::Delivered);
    assert_eq!(response.try_recv(), Ok('z'));
}

#[test]
fn fulfill_request_returns_what_nobody_waits_for() {
    let (resolve, response) = oneshot::channel();
    drop(response);
    let outcome = ResponseManager::fulfill_request(
        Request { request_id: 1, resolve },
        Receive { request_id: 1, signal: 11i64 },
    );
    assert_eq!(outcome, Outcome::Abandoned(11));
}

#[test]
fn from_sent_reads_both_results() {
    assert_eq!(Outcome::<u8>::from_sent(Ok(())), Outcome::Delivered);
    assert_eq!(Outcome::from_sent(Err(4u8)), Outcome::Abandoned(4));
}

#[test]
fn store_request_replaces_what_was_filed() {
    let mut manager = ResponseManager::new();
    let (first, mut first_response) = oneshot::channel();
    let (second, mut second_response) = oneshot::channel();
    manager.store_request(Request { request_id: 4, resolve: first });
    manager.store_request(Request { request_id: 4, resolve: second });
    assert_eq!(first_response.try_recv(), Err(TryRecvError::Closed));
    assert_eq!(manager.on_receive(Receive { request_id: 4, signal: "v" }), Ok(Outcome::Delivered));
    assert_eq!(second_response.try_recv(), Ok("v"));
}

#[test]
fn store_received_replaces_what_was_filed() {
    let mut manager = ResponseManager::new();
    manager.store_received(Receive { request_id: 4, signal: "old" });
    manager.store_received(Receive { request_id: 4, signal: "new" });
    let (resolve, mut response) = oneshot::channel();
    assert_eq!(manager.on_request(Request { request_id: 4, resolve }), Ok(Outcome::Delivered));
    assert_eq!(response.try_recv(), Ok("new"));
}

#[test]
fn a_new_table_holds_nothing() {
    let mut manager = ResponseManager::new();
    let (message, mut response) = request::<u8>(0);
    assert_eq!(manager.handle_message(message), Ok(Outcome::Stored));
    assert_eq!(response.try_recv(), Err(TryRecvError::Empty));
    let mut other = ResponseManager::new();
    assert_eq!(other.handle_message(receive(0, 1u8)), Ok(Outcome::Stored));
}

#[test]
fn tables_do_not_share_entries() {
    let mut left = ResponseManager::new();
    let mut right = ResponseManager::new();
    assert_eq!(left.handle_message(receive(1, "left")), Ok(Outcome::Stored));
    let (message, mut response) = request(1);
    assert_eq!(right.handle_message(message), Ok(Outcome::Stored));
    assert_eq!(response.try_recv(), Err(TryRecvError::Empty));
    assert_eq!(right.handle_message(receive(1, "right")), Ok(Outcome::Delivered));
    assert_eq!(response.try_recv(), Ok("right"));
}
