//! The parts of tokio's `watch` channel that the signal state is built on.
use vstd::prelude::*;
use tokio::sync::watch::{Receiver, Sender};
use tokio::sync::watch::error::{RecvError, SendError};

verus! {

#[verifier::external_type_specification]
#[verifier::external_body]
#[verifier::reject_recursive_types(T)]
pub struct ExReceiver<T>(Receiver<T>);

#[verifier::external_type_specification]
#[verifier::external_body]
#[verifier::reject_recursive_types(T)]
pub struct ExSender<T>(Sender<T>);

#[verifier::external_type_specification]
#[verifier::external_body]
#[verifier::reject_recursive_types(T)]
pub struct ExSendError<T>(SendError<T>);

#[verifier::external_type_specification]
#[verifier::external_body]
pub struct ExRecvError(RecvError);

/// Relies on tokio::sync::watch::channel: a new shared slot holding `init`,
/// with its one sender and one receiver. Nothing is promised of later reads,
/// which depend on what other handles do.
pub assume_specification<T>[ tokio::sync::watch::channel::<T> ](init: T) -> (Sender<T>, Receiver<T>);

/// Relies on tokio::sync::watch::Sender::send: stores the value and wakes the
/// receivers; it fails only when no receiver is left, which depends on other
/// handles, so nothing is promised of the result.
pub assume_specification<T>[ Sender::<T>::send ](tx: &Sender<T>, value: T) -> Result<(), SendError<T>>;

/// Relies on tokio::sync::watch::Receiver::has_changed: an error once every
/// sender is gone. That depends on other handles, so nothing is promised.
pub assume_specification<T>[ Receiver::<T>::has_changed ](rx: &Receiver<T>) -> Result<bool, RecvError>;

/// Relies on the `Clone` impl of tokio::sync::watch::Receiver: a second
/// receiver on the same shared slot.
pub assume_specification<T>[ <Receiver<T> as Clone>::clone ](rx: &Receiver<T>) -> Receiver<T>;

/// Relies on tokio::sync::watch::Receiver::borrow: the value now in the slot.
/// Another handle may have changed it at any time, so nothing is promised.
#[verifier::external_body]
pub(crate) fn current_value(rx: &Receiver<bool>) -> bool {
    *rx.borrow()
}

} // verus!
