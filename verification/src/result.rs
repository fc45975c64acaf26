use vstd::prelude::*;

verus! {

/// The failure signals visible at the queue's boundary.
#[derive(Clone, Copy, Debug, PartialEq, Eq, Structural)]
pub enum Error {
    /// The reactor thread is unreachable or has terminated.
    QueueOutOfService,
    /// An I/O operation of the underlying reactor failed.
    IoFailure,
    /// A cross-thread channel rejected a message.
    ChannelSendFailure,
    /// A blocking receive on a rendezvous channel failed.
    ChannelReceiveFailure,
    /// The reactor could not be woken for a pending message.
    NotifyFailure,
    /// A token that names no live processor was used for dispatch.
    InvalidToken,
}

/// The result of a queue boundary operation.
pub type QueueResult<T> = core::result::Result<T, Error>;

/// An error a processor reports through its own response payload; the queue
/// forwards it opaquely.
#[derive(Clone, Copy, Debug)]
pub struct ResponseError(pub &'static str);

/// The result of a processor-level operation.
pub type ResponseResult<T> = core::result::Result<T, ResponseError>;

} // verus!
