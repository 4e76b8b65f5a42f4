//! The life cycle shared by streaming calls, and the producer side of a
//! server-streaming call.
use vstd::prelude::*;
use crate::message::{Response, ServiceError};
use crate::query_log::texts;

verus! {

/// Capacity of the bounded channel between a producer and its consumer.
pub const STREAM_CAPACITY: usize = 4;

/// `Created -> Streaming -> {Completed | Errored | Cancelled}`.
#[derive(Clone, Copy, Debug, PartialEq, Eq, Structural)]
pub enum StreamState {
    Created,
    Streaming,
    Completed,
    Errored,
    Cancelled,
}

impl StreamState {
    pub open spec fn is_terminal(self) -> bool {
        self == StreamState::Completed || self == StreamState::Errored || self
            == StreamState::Cancelled
    }
}

/// The mathematical state of a server-streaming producer: the items it was
/// given, how many the channel has accepted, and whether the call was
/// cancelled.
pub struct ServerStreamView {
    pub items: Seq<Seq<char>>,
    pub sent: nat,
    pub cancelled: bool,
}

impl ServerStreamView {
    pub open spec fn wf(self) -> bool {
        &&& self.sent <= self.items.len()
        &&& self.cancelled ==> self.sent < self.items.len()
    }

    pub open spec fn state(self) -> StreamState {
        if self.cancelled {
            StreamState::Cancelled
        } else if self.sent == self.items.len() {
            StreamState::Completed
        } else if self.sent == 0 {
            StreamState::Created
        } else {
            StreamState::Streaming
        }
    }

    /// The item the producer offers next, if it is still producing.
    pub open spec fn pending(self) -> Option<Seq<char>> {
        if !self.cancelled && self.sent < self.items.len() {
            Some(self.items[self.sent as int])
        } else {
            None
        }
    }

    /// What the consumer side has been handed so far, in order.
    pub open spec fn emitted(self) -> Seq<Seq<char>> {
        self.items.take(self.sent as int)
    }

    /// After the channel accepted the pending item.
    pub open spec fn accepted(self) -> ServerStreamView {
        ServerStreamView { sent: self.sent + 1, ..self }
    }

    /// After the consumer went away.
    pub open spec fn cancel(self) -> ServerStreamView {
        if self.sent < self.items.len() {
            ServerStreamView { cancelled: true, ..self }
        } else {
            self
        }
    }

    /// After `n` more items were accepted, however long each one waited.
    pub open spec fn accept_n(self, n: nat) -> ServerStreamView
        decreases n,
    {
        if n == 0 {
            self
        } else {
            self.accept_n((n - 1) as nat).accepted()
        }
    }
}

/// The producer side of a server-streaming call: it owns the items it will
/// emit and hands them to a bounded channel one at a time. An item leaves
/// the producer only once the channel has accepted it, so a full channel
/// suspends production and loses nothing.
pub struct ServerStream {
    items: Vec<String>,
    sent: usize,
    cancelled: bool,
}

impl View for ServerStream {
    type V = ServerStreamView;

    closed spec fn view(&self) -> ServerStreamView {
        ServerStreamView { items: texts(self.items@), sent: self.sent as nat, cancelled: self.cancelled }
    }
}

impl ServerStream {
    pub closed spec fn wf(&self) -> bool {
        self@.wf()
    }

    pub fn new(items: Vec<String>) -> (r: ServerStream)
        ensures
            r.wf(),
            r@ == (ServerStreamView { items: texts(items@), sent: 0, cancelled: false }),
    {
        ServerStream { items, sent: 0, cancelled: false }
    }

    pub fn state(&self) -> (r: StreamState)
        requires
            self.wf(),
        ensures
            r == self@.state(),
    {
        if self.cancelled {
            StreamState::Cancelled
        } else if self.sent == self.items.len() {
            StreamState::Completed
        } else if self.sent == 0 {
            StreamState::Created
        } else {
            StreamState::Streaming
        }
    }

    /// How many items the channel has accepted.
    pub fn sent_count(&self) -> (r: usize)
        ensures
            r == self@.sent,
    {
        self.sent
    }

    /// The response to hand to the channel next; `None` once the stream has
    /// ended or was cancelled.
    pub fn next_response(&self) -> (r: Option<Response>)
        requires
            self.wf(),
        ensures
            r is None <==> self@.pending() is None,
            r is Some ==> r->Some_0.result@ == self@.pending()->Some_0,
    {
        if !self.cancelled && self.sent < self.items.len() {
            Some(Response::new(self.items[self.sent].clone()))
        } else {
            None
        }
    }

    /// Records what became of the pending item: `accepted` when the channel
    /// took it, otherwise the consumer is gone and the stream is cancelled.
    pub fn record_send(&mut self, accepted: bool) -> (r: Result<(), ServiceError>)
        requires
            old(self).wf(),
            old(self)@.pending() is Some,
        ensures
            final(self).wf(),
            accepted ==> final(self)@ == old(self)@.accepted() && r is Ok,
            !accepted ==> final(self)@ == old(self)@.cancel() && r == Err::<(), ServiceError>(
                ServiceError::ProducerUnavailable,
            ),
    {
        let n = self.items.len();
        assert(self.sent < n);
        if accepted {
            self.sent = self.sent + 1;
            Ok(())
        } else {
            self.cancelled = true;
            Err(ServiceError::ProducerUnavailable)
        }
    }

    /// The consumer disconnected: produce nothing more.
    pub fn cancel(&mut self)
        requires
            old(self).wf(),
        ensures
            final(self).wf(),
            final(self)@ == old(self)@.cancel(),
    {
        if self.sent < self.items.len() {
            self.cancelled = true;
        }
    }
}

} // verus!
