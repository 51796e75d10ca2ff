//! # aligne
//!
//! Pairs asynchronous requests with the responses that answer them. Both
//! halves carry a numeric key and may arrive in either order; the pending
//! table keeps whichever half came first until its counterpart shows up.

pub mod channel;
pub mod laws;
pub mod manager;
pub mod message;
pub mod remote;

pub use manager::{Effect, EngineError, Outcome, ResponseManager, ResponseState};
pub use message::{Message, Receive, Request};
pub use remote::RemoteError;
