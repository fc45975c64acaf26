use std::sync::mpsc::Sender;
use std::sync::Arc;
use vstd::prelude::*;

use crate::channel::clone_waker;
use crate::fragments::Fragments;
use crate::handler::Handler;
use crate::result::{Error, QueueResult};

verus! {

/// Names one processor: the index of its registry slot, paired with the
/// slot's generation at registration time. The generation lets a dispatcher
/// reject a token that outlived its processor even after the slot was reused.
#[derive(Clone, Copy, Debug, PartialEq, Eq, Hash, Structural)]
pub struct Token {
    pub index: usize,
    pub generation: u64,
}

/// The readiness kinds delivered with one I/O event.
#[derive(Clone, Copy, Debug, PartialEq, Eq, Structural)]
pub struct EventSet {
    pub readable: bool,
    pub writable: bool,
    pub error: bool,
    pub hup: bool,
}

/// A timer record: the addressed token and a user-defined payload.
pub struct Timeout<U>(pub Token, pub U);

/// The requests a handler addresses to the reactor during one callback; the
/// driver of the reactor thread drains them after each dispatch and performs
/// them against the real poll loop.
pub struct EventLoop<H: Handler> {
    timers: Vec<(Timeout<H::Timeout>, u64)>,
    shutdown: bool,
}

impl<H: Handler> EventLoop<H> {
    /// The timers armed since the driver last drained, in arming order; each
    /// pair is the record to deliver and its delay in milliseconds.
    pub closed spec fn timer_requests(&self) -> Seq<(Timeout<H::Timeout>, u64)> {
        self.timers@
    }

    /// Whether a callback asked the reactor to stop.
    pub closed spec fn is_shutdown(&self) -> bool {
        self.shutdown
    }

    pub fn new() -> (r: Self)
        ensures
            r.timer_requests().len() == 0,
            !r.is_shutdown(),
    {
        EventLoop { timers: Vec::new(), shutdown: false }
    }

    /// Asks the reactor to deliver `timeout` back to the dispatcher once
    /// `delay_ms` milliseconds have passed; delivery is best-effort, at or
    /// after the deadline, never twice.
    pub fn timeout_ms(&mut self, timeout: Timeout<H::Timeout>, delay_ms: u64)
        ensures
            final(self).timer_requests() == old(self).timer_requests().push((timeout, delay_ms)),
            final(self).is_shutdown() == old(self).is_shutdown(),
    {
        self.timers.push((timeout, delay_ms));
    }

    /// Asks the reactor to stop after the current iteration.
    pub fn shutdown(&mut self)
        ensures
            final(self).is_shutdown(),
            final(self).timer_requests() == old(self).timer_requests(),
    {
        self.shutdown = true;
    }

    /// Whether a callback asked the reactor to stop; polled by the driver.
    pub fn is_stopped(&self) -> (r: bool)
        ensures
            r == self.is_shutdown(),
    {
        self.shutdown
    }

    /// Hands every pending timer request to the reactor driver.
    pub fn take_timers(&mut self) -> (r: Vec<(Timeout<H::Timeout>, u64)>)
        ensures
            r@ == old(self).timer_requests(),
            final(self).timer_requests().len() == 0,
            final(self).is_shutdown() == old(self).is_shutdown(),
    {
        let mut drained: Vec<(Timeout<H::Timeout>, u64)> = Vec::new();
        std::mem::swap(&mut drained, &mut self.timers);
        drained
    }
}

/// A reply channel that re-enters a reactor: a sender into that reactor's
/// cross-thread channel, paired with its wakeup handle.
#[verifier::reject_recursive_types(T)]
pub struct NotifySender<T: Send> {
    sender: Sender<T>,
    waker: Arc<mio::Waker>,
}

impl<T: Send> NotifySender<T> {
    /// Binds a channel sender to the waker of the poll that consumes it.
    pub fn new(sender: Sender<T>, waker: Arc<mio::Waker>) -> Self {
        NotifySender { sender, waker }
    }

    /// Sends `value` and wakes the consuming reactor.
    pub fn send(self, value: T) -> (r: QueueResult<()>)
        ensures
            r matches Err(e) ==> e == Error::NotifyFailure,
    {
        match self.sender.send(value) {
            Ok(()) => match self.waker.wake() {
                Ok(()) => Ok(()),
                Err(_) => Err(Error::NotifyFailure),
            },
            Err(_) => Err(Error::NotifyFailure),
        }
    }
}

/// The one-shot reply mechanism handed to a handler with each user message.
/// It is consumed by `reply`, so a reply is delivered at most once.
#[verifier::reject_recursive_types(T)]
pub enum Callback<T: Send> {
    /// The reply re-enters a reactor's cross-thread channel.
    Notify(NotifySender<T>),
    /// The reply goes to a private one-shot rendezvous channel.
    Channel(Sender<T>),
    /// The reply is silently discarded.
    Ignore,
}

impl<T: Send> Callback<T> {
    /// Delivers `response` to whoever awaits it, consuming the callback.
    pub fn reply(self, response: T) -> (r: QueueResult<()>)
        ensures
            r matches Err(e) ==> e == Error::NotifyFailure || e == Error::ChannelSendFailure,
            self is Ignore ==> r is Ok,
    {
        match self {
            Callback::Notify(sender) => sender.send(response),
            Callback::Channel(tx) => match tx.send(response) {
                Ok(()) => Ok(()),
                Err(_) => Err(Error::ChannelSendFailure),
            },
            Callback::Ignore => Ok(()),
        }
    }
}

/// The envelope that crosses the reactor's cross-thread channel.
#[verifier::reject_recursive_types(P)]
#[verifier::reject_recursive_types(R)]
pub enum Message<P, U, R: Send> {
    /// A user message for the processor the token names, with its one-shot
    /// reply callback.
    UserMessage(Token, U, Callback<R>),
    /// A privileged message that acts on the registry itself.
    ControlMessage(ControlMessage<P>),
}

/// The privileged messages; the dispatcher handles them directly and the
/// handler never sees them.
#[verifier::reject_recursive_types(P)]
pub enum ControlMessage<P> {
    /// Startup rendezvous: acknowledges that the reactor thread is live.
    Initialize(Sender<bool>),
    /// Admits a processor and reports its token on the reply channel.
    RegisterProcessor(P, Sender<Token>),
    /// Retires the processor the token names.
    UnregisterProcessor(Token),
}

/// A cloneable, thread-safe handle to one dispatcher: it turns external
/// register, send and unregister calls into messages on that dispatcher's
/// cross-thread channel.
#[verifier::reject_recursive_types(H)]
pub struct Binding<H: Handler> {
    sender: Sender<Message<H::Processor, H::Message, H::Response>>,
    waker: Arc<mio::Waker>,
}

impl<H: Handler> Clone for Binding<H> {
    /// Another handle to the same dispatcher.
    fn clone(&self) -> (r: Self) {
        Binding { sender: self.sender.clone(), waker: clone_waker(&self.waker) }
    }
}

impl<H: Handler> Binding<H> {
    /// Binds the channel sender and waker of one reactor thread; called by
    /// the driver that starts that thread.
    pub fn new(
        sender: Sender<Message<H::Processor, H::Message, H::Response>>,
        waker: Arc<mio::Waker>,
    ) -> Self {
        Binding { sender, waker }
    }

    /// Fire-and-forget delivery of one user message; delivery failure is
    /// propagated, never swallowed, since a caller may rely on the reply.
    pub fn send(
        &mut self,
        token: Token,
        message: H::Message,
        callback: Callback<H::Response>,
    ) -> (r: QueueResult<()>)
        ensures
            r matches Err(e) ==> e == Error::ChannelSendFailure || e == Error::NotifyFailure,
    {
        match self.sender.send(Message::UserMessage(token, message, callback)) {
            Ok(()) => match self.waker.wake() {
                Ok(()) => Ok(()),
                Err(_) => Err(Error::NotifyFailure),
            },
            Err(_) => Err(Error::ChannelSendFailure),
        }
    }

    /// Blocking rendezvous: sends a registration request and waits until the
    /// dispatcher has committed it, so the returned token is already valid.
    /// A dead or unreachable reactor surfaces as `QueueOutOfService`.
    pub fn register(&mut self, processor: H::Processor) -> (r: QueueResult<Token>)
        ensures
            r matches Err(e) ==> e == Error::QueueOutOfService,
    {
        let (tx, rx) = std::sync::mpsc::channel();
        let msg = Message::ControlMessage(ControlMessage::RegisterProcessor(processor, tx));
        match self.sender.send(msg) {
            Ok(()) => {},
            Err(_) => {
                return Err(Error::QueueOutOfService);
            },
        }
        match self.waker.wake() {
            Ok(()) => {},
            Err(_) => {
                return Err(Error::QueueOutOfService);
            },
        }
        match rx.recv() {
            Ok(token) => Ok(token),
            Err(_) => Err(Error::QueueOutOfService),
        }
    }

    /// Fire-and-forget retirement of a token; delivery failure is swallowed,
    /// since an already-dead queue is an acceptable terminal state here.
    pub fn unregister(&mut self, token: Token) {
        let msg = Message::ControlMessage(
            ControlMessage::UnregisterProcessor::<H::Processor>(token),
        );
        let sent = self.sender.send(msg);
        if sent.is_ok() {
            let _ = self.waker.wake();
        }
    }

    /// Synchronous act-and-wait: `send` with a private one-shot channel
    /// callback, then a blocking receive of the reply.
    pub fn send_wait(&mut self, token: Token, message: H::Message) -> (r: QueueResult<
        H::Response,
    >)
        ensures
            r matches Err(e) ==> e == Error::ChannelSendFailure || e == Error::NotifyFailure
                || e == Error::ChannelReceiveFailure,
    {
        let (tx, rx) = std::sync::mpsc::channel();
        match self.send(token, message, Callback::Channel(tx)) {
            Ok(()) => {},
            Err(e) => {
                return Err(e);
            },
        }
        match rx.recv() {
            Ok(response) => Ok(response),
            Err(_) => Err(Error::ChannelReceiveFailure),
        }
    }
}

/// The dispatcher: sole owner of the processor registry and the handler,
/// living on the reactor thread as the reactor's single event sink. It
/// demultiplexes readiness, message and timer events to the handler's
/// callbacks, resolving the target processor by token; control messages act
/// on the registry directly and bypass the handler.
#[verifier::reject_recursive_types(H)]
pub struct Queue<H: Handler> {
    handler: H,
    processors: Fragments<H::Processor, usize>,
    gens: Vec<u64>,
}

impl<H: Handler> Queue<H> {
    /// The registry slots in index order: `Some` is a live processor.
    pub closed spec fn slots(&self) -> Seq<Option<H::Processor>> {
        self.processors.slots()
    }

    /// The freed slot indexes, oldest first; the last one is reused next.
    pub closed spec fn free_list(&self) -> Seq<usize> {
        self.processors.free_list()
    }

    /// The current generation of each slot; a slot's generation moves every
    /// time the slot is handed to a new processor.
    pub closed spec fn generations(&self) -> Seq<u64> {
        self.gens@
    }

    /// The registry is well-formed and every slot has a generation.
    pub closed spec fn wf(&self) -> bool {
        &&& self.processors.wf()
        &&& self.gens@.len() == self.processors.slots().len()
    }

    /// `t` names a live processor: its slot is in range and occupied, and
    /// `t` carries that slot's current generation.
    pub open spec fn token_live(&self, t: Token) -> bool {
        &&& t.index < self.slots().len()
        &&& self.slots()[t.index as int] is Some
        &&& t.index < self.generations().len()
        &&& self.generations()[t.index as int] == t.generation
    }

    /// One dispatch addressed to slot `ix`, relative to the state `pre`: the
    /// slot is still occupied, and every other slot, the free list and all
    /// generations are untouched.
    pub open spec fn routed_only_to(&self, pre: Self, ix: usize) -> bool {
        &&& self.slots().len() == pre.slots().len()
        &&& ix < self.slots().len()
        &&& self.slots()[ix as int] is Some
        &&& forall|j: int|
            0 <= j < pre.slots().len() && j != ix ==> self.slots()[j] == #[trigger] pre.slots()[j]
        &&& self.free_list() == pre.free_list()
        &&& self.generations() == pre.generations()
    }

    pub fn new(handler: H) -> (r: Self)
        ensures
            r.wf(),
            r.slots().len() == 0,
            r.free_list().len() == 0,
            r.generations().len() == 0,
    {
        Queue { handler, processors: Fragments::new(), gens: Vec::new() }
    }

    /// Does `token` currently name a live processor?
    pub fn token_alive(&mut self, token: Token) -> (r: bool)
        requires
            old(self).wf(),
        ensures
            *final(self) == *old(self),
            r == old(self).token_live(token),
    {
        if token.index >= self.gens.len() {
            return false;
        }
        if self.gens[token.index] != token.generation {
            return false;
        }
        self.processors.elem(token.index).is_some()
    }

    /// Admits `processor` and returns the token that names it: the most
    /// recently freed slot is reused, else a fresh slot is appended, and the
    /// slot's generation moves so that no older token names the new occupant.
    pub fn register(&mut self, processor: H::Processor) -> (r: Token)
        requires
            old(self).wf(),
        ensures
            final(self).wf(),
            final(self).token_live(r),
            r.generation == final(self).generations()[r.index as int],
            r.index < old(self).generations().len() ==> r.generation != old(
                self,
            ).generations()[r.index as int],
            final(self).slots()[r.index as int] == Some(processor),
            old(self).free_list().len() > 0 ==> {
                &&& r.index == old(self).free_list().last()
                &&& final(self).slots().len() == old(self).slots().len()
                &&& final(self).free_list() == old(self).free_list().drop_last()
            },
            old(self).free_list().len() == 0 ==> {
                &&& r.index == old(self).slots().len()
                &&& final(self).slots().len() == old(self).slots().len() + 1
                &&& final(self).free_list() == old(self).free_list()
            },
            forall|j: int|
                0 <= j < old(self).slots().len() && j != r.index ==> final(self).slots()[j]
                    == #[trigger] old(self).slots()[j],
            forall|j: int|
                0 <= j < old(self).generations().len() && j != r.index
                    ==> final(self).generations()[j] == #[trigger] old(self).generations()[j],
            forall|t: Token| #[trigger]
                old(self).token_live(t) ==> final(self).token_live(t) && t.index != r.index,
            forall|t: Token|
                t.index == r.index && t != r ==> !(#[trigger] final(self).token_live(t)),
    {
        let ix = self.processors.add(processor);
        let g: u64;
        if ix == self.gens.len() {
            self.gens.push(0);
            g = 0;
        } else {
            let cur = self.gens[ix];
            g = cur.wrapping_add(1);
            proof {
                assert(g != cur) by {
                    assert(g == if cur == u64::MAX { 0u64 } else { (cur + 1) as u64 });
                };
            }
            self.gens[ix] = g;
        }
        Token { index: ix, generation: g }
    }

    /// Retires the processor `token` names; a stale token — out of range,
    /// already freed, or of an outdated generation — is a no-op, so a late
    /// unregister can never evict a slot's newer occupant.
    pub fn unregister(&mut self, token: Token)
        requires
            old(self).wf(),
        ensures
            final(self).wf(),
            !final(self).token_live(token),
            final(self).generations() == old(self).generations(),
            old(self).token_live(token) ==> {
                &&& final(self).slots() == old(self).slots().update(
                    token.index as int,
                    None::<H::Processor>,
                )
                &&& final(self).free_list() == old(self).free_list().push(token.index)
            },
            !old(self).token_live(token) ==> *final(self) == *old(self),
            forall|t: Token|
                t.index != token.index ==> (final(self).token_live(t) <==> #[trigger] old(
                    self,
                ).token_live(t)),
    {
        if token.index < self.gens.len() {
            if self.gens[token.index] == token.generation {
                self.processors.delete(token.index);
            }
        }
    }

    /// Routes an I/O readiness event to the handler's `ready` callback for
    /// the processor `token` names; a stale token is rejected untouched.
    pub fn ready(
        &mut self,
        event_loop: &mut EventLoop<H>,
        token: Token,
        events: EventSet,
    ) -> (r: QueueResult<()>)
        requires
            old(self).wf(),
        ensures
            final(self).wf(),
            r is Ok <==> old(self).token_live(token),
            !old(self).token_live(token) ==> r == Err::<(), Error>(Error::InvalidToken)
                && *final(self) == *old(self) && *final(event_loop) == *old(event_loop),
            old(self).token_live(token) ==> final(self).routed_only_to(*old(self), token.index),
    {
        if !self.token_alive(token) {
            return Err(Error::InvalidToken);
        }
        let slot = self.processors.elem_mut(token.index);
        match slot {
            Some(processor) => {
                self.handler.ready(event_loop, token, processor, events);
                Ok(())
            },
            None => Err(Error::InvalidToken),
        }
    }

    /// Routes one cross-thread message. Control messages mutate the registry
    /// directly: `Initialize` only acknowledges on its rendezvous channel,
    /// `RegisterProcessor` admits the processor and reports the new token,
    /// `UnregisterProcessor` retires one. A user message is forwarded, with
    /// its callback, to the handler's `process` for the processor its token
    /// names; a stale token is rejected untouched.
    pub fn notify(
        &mut self,
        event_loop: &mut EventLoop<H>,
        message: Message<H::Processor, H::Message, H::Response>,
    ) -> (r: QueueResult<()>)
        requires
            old(self).wf(),
        ensures
            final(self).wf(),
            message matches Message::UserMessage(t, _, _) ==> {
                &&& (r is Ok <==> old(self).token_live(t))
                &&& !old(self).token_live(t) ==> r == Err::<(), Error>(Error::InvalidToken)
                    && *final(self) == *old(self) && *final(event_loop) == *old(event_loop)
                &&& old(self).token_live(t) ==> final(self).routed_only_to(*old(self), t.index)
            },
            message matches Message::ControlMessage(ControlMessage::Initialize(_)) ==> {
                &&& *final(self) == *old(self)
                &&& *final(event_loop) == *old(event_loop)
                &&& (r is Ok || r == Err::<(), Error>(Error::ChannelSendFailure))
            },
            message matches Message::ControlMessage(ControlMessage::RegisterProcessor(p, _)) ==> {
                &&& *final(event_loop) == *old(event_loop)
                &&& (r is Ok || r == Err::<(), Error>(Error::ChannelSendFailure))
                &&& (forall|t: Token| #[trigger]
                    old(self).token_live(t) ==> final(self).token_live(t))
                &&& (exists|t: Token| #[trigger]
                    final(self).token_live(t) && final(self).slots()[t.index as int] == Some(p))
            },
            message matches Message::ControlMessage(ControlMessage::UnregisterProcessor(t)) ==> {
                &&& r is Ok
                &&& *final(event_loop) == *old(event_loop)
                &&& !final(self).token_live(t)
                &&& (forall|t2: Token|
                    t2.index != t.index ==> (final(self).token_live(t2) <==> #[trigger] old(
                        self,
                    ).token_live(t2)))
            },
    {
        match message {
            Message::ControlMessage(cm) => match cm {
                ControlMessage::Initialize(sender) => {
                    match sender.send(true) {
                        Ok(()) => Ok(()),
                        Err(_) => Err(Error::ChannelSendFailure),
                    }
                },
                ControlMessage::RegisterProcessor(processor, sender) => {
                    let token = self.register(processor);
                    match sender.send(token) {
                        Ok(()) => Ok(()),
                        Err(_) => Err(Error::ChannelSendFailure),
                    }
                },
                ControlMessage::UnregisterProcessor(token) => {
                    self.unregister(token);
                    Ok(())
                },
            },
            Message::UserMessage(token, um, callback) => {
                if !self.token_alive(token) {
                    return Err(Error::InvalidToken);
                }
                let slot = self.processors.elem_mut(token.index);
                match slot {
                    Some(processor) => {
                        self.handler.process(event_loop, token, processor, um, callback);
                        Ok(())
                    },
                    None => Err(Error::InvalidToken),
                }
            },
        }
    }

    /// Routes an expired timer to the handler's `timeout` callback for the
    /// processor the record's token names. A timer that outlived its
    /// processor — the slot freed or reused since it was armed — is rejected
    /// instead of touching the slot's newer occupant.
    pub fn timeout(&mut self, event_loop: &mut EventLoop<H>, timeout: Timeout<H::Timeout>) -> (r:
        QueueResult<()>)
        requires
            old(self).wf(),
        ensures
            final(self).wf(),
            r is Ok <==> old(self).token_live(timeout.0),
            !old(self).token_live(timeout.0) ==> r == Err::<(), Error>(Error::InvalidToken)
                && *final(self) == *old(self) && *final(event_loop) == *old(event_loop),
            old(self).token_live(timeout.0) ==> final(self).routed_only_to(
                *old(self),
                timeout.0.index,
            ),
    {
        let Timeout(token, payload) = timeout;
        if !self.token_alive(token) {
            return Err(Error::InvalidToken);
        }
        let slot = self.processors.elem_mut(token.index);
        match slot {
            Some(processor) => {
                self.handler.timeout(event_loop, token, processor, payload);
                Ok(())
            },
            None => Err(Error::InvalidToken),
        }
    }

    /// Runs the handler's per-iteration housekeeping; the registry is never
    /// touched.
    pub fn tick(&mut self, event_loop: &mut EventLoop<H>)
        requires
            old(self).wf(),
        ensures
            final(self).wf(),
            final(self).slots() == old(self).slots(),
            final(self).free_list() == old(self).free_list(),
            final(self).generations() == old(self).generations(),
    {
        self.handler.tick(event_loop);
    }
}

/// A dispatch addressed to one slot leaves the liveness of every token that
/// names another slot exactly as it was: processors are mutually independent.
pub proof fn lemma_routing_preserves_others<H: Handler>(
    pre: Queue<H>,
    post: Queue<H>,
    ix: usize,
    t: Token,
)
    requires
        post.routed_only_to(pre, ix),
        t.index != ix,
    ensures
        post.token_live(t) <==> pre.token_live(t),
{
}

/// A token that names the same slot as a live token, without being that very
/// token, is dead: dispatch rejects it, and the slot's occupant — possibly a
/// newer processor in a reused slot — is never reached through it.
pub proof fn lemma_stale_token_dead<H: Handler>(q: Queue<H>, live: Token, stale: Token)
    requires
        q.token_live(live),
        stale.index == live.index,
        stale != live,
    ensures
        !q.token_live(stale),
{
}

} // verus!
