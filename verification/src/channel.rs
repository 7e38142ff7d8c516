//! The queue ends that a bridge is made of.
//!
//! The queues are `flume` channels. An end is a handle that many owners on
//! many threads may hold, so what a queue holds can change between any two
//! calls, and nothing here says what a queue holds. What is stated below is
//! believed of `flume`, not proved.

use vstd::prelude::*;

verus! {

/// The sending end of a `flume` channel.
#[verifier::external_type_specification]
#[verifier::external_body]
#[verifier::reject_recursive_types(T)]
pub struct ExSender<T>(flume::Sender<T>);

/// The receiving end of a `flume` channel.
#[verifier::external_type_specification]
#[verifier::external_body]
#[verifier::reject_recursive_types(T)]
pub struct ExReceiver<T>(flume::Receiver<T>);

/// What `flume::Sender::send` hands back when every receiver is gone: the
/// message that was not taken.
#[verifier::external_type_specification]
#[verifier::external_body]
#[verifier::reject_recursive_types(T)]
pub struct ExSendError<T>(flume::SendError<T>);

/// Why `flume::Receiver::try_recv` gave no message: the queue was empty, or
/// it was empty and every sender is gone.
#[verifier::external_type_specification]
pub struct ExTryRecvError(flume::TryRecvError);

/// `flume::unbounded` makes a queue without a bound and returns its two ends.
/// Nothing is claimed of them.
pub assume_specification<T>[ flume::unbounded::<T> ]() -> (ends: (
    flume::Sender<T>,
    flume::Receiver<T>,
));

/// `flume::Sender::send` puts `msg` at the back of the queue, or fails when
/// every receiver has been dropped. On a queue without a bound it does not
/// wait. Which of the two happens is not claimed.
pub assume_specification<T>[ flume::Sender::<T>::send ](tx: &flume::Sender<T>, msg: T) -> (r:
    Result<(), flume::SendError<T>>);

/// `flume::Receiver::try_recv` takes the message at the front of the queue
/// without waiting, or fails when there is none. Which message, if any, is
/// not claimed.
pub assume_specification<T>[ flume::Receiver::<T>::try_recv ](rx: &flume::Receiver<T>) -> (r:
    Result<T, flume::TryRecvError>);

/// `flume::Receiver::is_empty` tells whether the queue held no message when
/// it was asked. Nothing is claimed of the answer.
pub assume_specification<T>[ flume::Receiver::<T>::is_empty ](rx: &flume::Receiver<T>) -> (r:
    bool);

/// `Clone` for `flume::Sender` makes one more handle of the same queue: the
/// new sender holds the same shared state as the one it was made from, and
/// is claimed equal to it.
pub assume_specification<T>[ <flume::Sender<T> as Clone>::clone ](tx: &flume::Sender<T>) -> (r:
    flume::Sender<T>)
    ensures
        r == *tx,
;

/// `Clone` for `flume::Receiver` makes one more handle of the same queue, in
/// the same way. A message is still taken by one receiver only.
pub assume_specification<T>[ <flume::Receiver<T> as Clone>::clone ](rx: &flume::Receiver<T>) -> (r:
    flume::Receiver<T>)
    ensures
        r == *rx,
;

} // verus!
