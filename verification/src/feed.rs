//! The broadcast channel that carries the change feed.
//!
//! The channel is `tokio::sync::broadcast`. It keeps the records sent last,
//! as many as its capacity rounded up to a power of two, and every receiver
//! reads them in the order in which they were sent. A receiver that falls
//! further behind than that loses the oldest records and is told how many.
//! None of this is visible to the verifier: a channel is a shared object,
//! and what a call finds in it depends on every other handle. The items here
//! are taken on trust.

use crate::actions::Actions;
use tokio::sync::broadcast::error::SendError;
use tokio::sync::broadcast::{Receiver, Sender};
use vstd::prelude::*;

verus! {

/// `broadcast::Sender`: a sending end of a channel.
#[verifier::external_type_specification]
#[verifier::external_body]
#[verifier::reject_recursive_types(T)]
pub struct ExSender<T>(Sender<T>);

/// `broadcast::Receiver`: a receiving end of a channel, with its own place
/// in the sequence of values.
#[verifier::external_type_specification]
#[verifier::external_body]
#[verifier::reject_recursive_types(T)]
pub struct ExReceiver<T>(Receiver<T>);

/// `broadcast::error::SendError`: the failure of a send, which holds the
/// value that was not sent.
#[verifier::external_type_specification]
#[verifier::external_body]
#[verifier::reject_recursive_types(T)]
pub struct ExSendError<T>(SendError<T>);

/// `broadcast::channel`: a new channel and its first receiver. It refuses a
/// capacity of 0 or above `usize::MAX / 2` by a panic, and allocates a slot
/// for each value that it can keep.
pub assume_specification<T: Clone>[ tokio::sync::broadcast::channel::<T> ](capacity: usize) -> (ends: (
    Sender<T>,
    Receiver<T>,
))
    requires
        0 < capacity <= usize::MAX / 2,
;

/// `Sender::send`: queues `record` for every receiver that is subscribed at
/// the time and returns their number, which is then at least one; with no
/// receiver it queues nothing and hands the record back as it came.
#[verifier::external_body]
pub(crate) fn send_record(sender: &Sender<Actions>, record: Actions) -> (sent: Result<
    usize,
    Actions,
>)
    ensures
        match sent {
            Ok(receivers) => receivers > 0,
            Err(back) => back == record,
        },
{
    match sender.send(record) {
        Ok(receivers) => Ok(receivers),
        Err(SendError(back)) => Err(back),
    }
}

/// `Sender::subscribe`: a new receiver, which gets the values sent from now
/// on. It panics if the channel has `usize::MAX >> 2` receivers already,
/// which is more than memory can hold.
pub assume_specification<T>[ Sender::<T>::subscribe ](sender: &Sender<T>) -> (receiver: Receiver<T>)
;

/// `Sender::clone`: one more sending end of the same channel.
pub assume_specification<T>[ <Sender<T> as Clone>::clone ](sender: &Sender<T>) -> (copy: Sender<T>)
;

} // verus!
