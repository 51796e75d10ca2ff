//! The completion channel: the one place where the library hands a value to
//! code that is not verified.

use tokio::sync::oneshot;
use vstd::prelude::*;

verus! {

/// `tokio::sync::oneshot::Sender`, the sending half of a single-use channel.
/// Nothing inside it is visible to a proof: the library only stores it and
/// hands it on.
#[verifier::external_type_specification]
#[verifier::external_body]
#[verifier::reject_recursive_types(T)]
pub struct ExOneshotSender<T>(oneshot::Sender<T>);

/// Calls `tokio::sync::oneshot::Sender::send`.
///
/// Not proved. Whether the receiving half is still alive is decided outside
/// the library, so nothing is claimed about which of `Ok` and `Err` comes
/// back. The one claim is tokio's own: a value that could not be sent is
/// returned as it was given.
#[verifier::external_body]
pub(crate) fn send_signal<R>(resolve: oneshot::Sender<R>, signal: R) -> (sent: Result<(), R>)
    ensures
        sent matches Err(returned) ==> returned == signal,
{
    resolve.send(signal)
}

} // verus!
