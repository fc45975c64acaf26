use vstd::prelude::*;

use crate::queue::{Callback, EventLoop, EventSet, Token};

verus! {

/// The user-supplied capability set a dispatcher drives: one stateful
/// processor kind, addressed by token, with callbacks for readiness, message
/// delivery, timer expiry and per-iteration housekeeping. Every callback not
/// needed may keep its default no-op body.
#[allow(unused_variables)]
pub trait Handler: Send + Sized + 'static {
    type Processor: Send;

    type Message: Send;

    type Response: Send;

    type Timeout: Send;

    /// I/O readiness for a token that also takes part in I/O.
    fn ready(
        &mut self,
        event_loop: &mut EventLoop<Self>,
        token: Token,
        processor: &mut Self::Processor,
        events: EventSet,
    ) {
    }

    /// Delivery of a user message; the callback is consumed at most once,
    /// now or from a later callback of the same processor.
    fn process(
        &mut self,
        event_loop: &mut EventLoop<Self>,
        token: Token,
        processor: &mut Self::Processor,
        msg: Self::Message,
        callback: Callback<Self::Response>,
    ) {
    }

    /// Delivery of an expired timer; timers are never re-armed
    /// automatically, so periodic behaviour re-arms here.
    fn timeout(
        &mut self,
        event_loop: &mut EventLoop<Self>,
        token: Token,
        processor: &mut Self::Processor,
        timeout: Self::Timeout,
    ) {
    }

    /// Housekeeping once per reactor loop iteration; no token context.
    fn tick(&mut self, event_loop: &mut EventLoop<Self>) {
    }
}

} // verus!
