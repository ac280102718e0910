//! Cooperative, one-shot cancellation of asynchronous streams.
//!
//! A [`Canceler`] is the read-only, cloneable observer side of a one-shot
//! broadcast flag; [`Canceler::spawn`] creates the flag, hands an observer to a
//! unit of work and returns the finalizer that raises the flag. A
//! [`CancelGate`] holds the decisions of a cancelable stream: once the bound
//! wait operation has resolved, the underlying stream is never asked again.
mod watch_specs;

pub mod signal;
pub mod gate;

pub use signal::{CancelToken, Canceler};
pub use gate::{CancelGate, StreamPoll};
