//! A single-reactor actor-dispatch queue.
//!
//! Many independent, stateful processors are multiplexed over one dedicated
//! event-loop thread. Producer threads hold cloneable [`Binding`] handles and
//! talk to the reactor thread through a cross-thread channel; the
//! [`Queue`] dispatcher owns all processor state and routes readiness,
//! message and timeout events to the user-supplied [`Handler`] callbacks.

mod channel;
mod fragments;
mod handler;
mod queue;
mod result;

pub use fragments::Fragments;
pub use fragments::Index;
pub use handler::Handler;
pub use queue::Binding;
pub use queue::Callback;
pub use queue::ControlMessage;
pub use queue::EventLoop;
pub use queue::EventSet;
pub use queue::Message;
pub use queue::NotifySender;
pub use queue::Queue;
pub use queue::lemma_routing_preserves_others;
pub use queue::lemma_stale_token_dead;
pub use queue::Timeout;
pub use queue::Token;
pub use result::Error;
pub use result::QueueResult;
pub use result::ResponseError;
pub use result::ResponseResult;
