use std::sync::mpsc::{Receiver, RecvError, SendError, Sender};
use std::sync::Arc;
use vstd::prelude::*;

verus! {

/// The sending half of std's mpsc channel, opaque to verification.
#[verifier::external_type_specification]
#[verifier::external_body]
#[verifier::reject_recursive_types(T)]
pub struct ExSender<T>(Sender<T>);

/// The receiving half of std's mpsc channel, opaque to verification.
#[verifier::external_type_specification]
#[verifier::external_body]
#[verifier::reject_recursive_types(T)]
pub struct ExReceiver<T>(Receiver<T>);

/// std's mpsc send error; it hands the undelivered value back.
#[verifier::external_type_specification]
#[verifier::reject_recursive_types(T)]
pub struct ExSendError<T>(SendError<T>);

/// std's mpsc receive error.
#[verifier::external_type_specification]
pub struct ExRecvError(RecvError);

/// mio's cross-thread wakeup handle, opaque to verification.
#[verifier::external_type_specification]
#[verifier::external_body]
pub struct ExWaker(mio::Waker);

/// std's I/O error, opaque to verification.
#[verifier::external_type_specification]
#[verifier::external_body]
pub struct ExIoError(std::io::Error);

/// Relies on `std::sync::mpsc::channel`: makes a connected
/// multi-producer, single-consumer channel pair.
pub assume_specification<T>[ std::sync::mpsc::channel::<T> ]() -> (r: (Sender<T>, Receiver<T>));

/// Relies on `Sender::send`: delivery fails only when the receiver is gone,
/// and a failure hands the unsent value back.
pub assume_specification<T>[ Sender::<T>::send ](s: &Sender<T>, t: T) -> (r: Result<
    (),
    SendError<T>,
>)
    ensures
        r matches Err(e) ==> e.0 == t,
;

/// Relies on `Sender::clone`: another sender into the same channel.
pub assume_specification<T>[ <Sender<T> as Clone>::clone ](s: &Sender<T>) -> (r: Sender<T>);

/// Relies on `Receiver::recv`: blocks for the next value; fails only when
/// every sender is gone and the channel is drained.
pub assume_specification<T>[ Receiver::<T>::recv ](r: &Receiver<T>) -> (res: Result<T, RecvError>);

/// Relies on `mio::Waker::wake`: wakes the poll this waker was registered
/// with, so the reactor thread drains its channel.
pub assume_specification[ mio::Waker::wake ](w: &mio::Waker) -> (r: Result<(), std::io::Error>);

/// Relies on `Arc::clone`: the new handle refers to the same waker.
#[verifier::external_body]
pub(crate) fn clone_waker(w: &Arc<mio::Waker>) -> (r: Arc<mio::Waker>)
    ensures
        r == *w,
{
    Arc::clone(w)
}

} // verus!
