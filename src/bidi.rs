//! The bidirectional-streaming call: each inbound request becomes one
//! outbound response as it arrives, in arrival order.
use vstd::prelude::*;
use crate::message::{Fault, Request, Response, ServiceError};
use crate::stream::StreamState;
use crate::text::{upper_of, uppercase};

verus! {

/// What the driver of the call does next.
#[derive(Debug)]
pub enum BidiAction {
    /// Send this response on the outbound stream.
    Emit(Response),
    /// The inbound stream ended: close the outbound stream normally.
    End,
    /// Close the outbound stream with this error.
    Fail(ServiceError),
    /// The call is already over: send nothing.
    Stop,
}

/// The mathematical form of a `BidiAction`.
pub enum BidiActionView {
    Emit(Seq<char>),
    End,
    Fail(ServiceError),
    Stop,
}

impl View for BidiAction {
    type V = BidiActionView;

    open spec fn view(&self) -> BidiActionView {
        match self {
            BidiAction::Emit(r) => BidiActionView::Emit(r.result@),
            BidiAction::End => BidiActionView::End,
            BidiAction::Fail(e) => BidiActionView::Fail(*e),
            BidiAction::Stop => BidiActionView::Stop,
        }
    }
}

/// An inbound event: the next item, or `None` when the caller finished.
pub type Inbound = Option<Result<Request, Fault>>;

/// The state after an inbound event.
pub open spec fn bidi_next(s: StreamState, item: Inbound) -> StreamState {
    if s.is_terminal() {
        s
    } else {
        match item {
            None => StreamState::Completed,
            Some(Err(_)) => StreamState::Errored,
            Some(Ok(_)) => StreamState::Streaming,
        }
    }
}

/// The action that an inbound event calls for.
pub open spec fn bidi_action(s: StreamState, item: Inbound) -> BidiActionView {
    if s.is_terminal() {
        BidiActionView::Stop
    } else {
        match item {
            None => BidiActionView::End,
            Some(Err(f)) => BidiActionView::Fail(ServiceError::StreamFault(f)),
            Some(Ok(r)) => BidiActionView::Emit(upper_of(r.query@)),
        }
    }
}

/// The state after the consumer cancelled the call.
pub open spec fn bidi_cancel(s: StreamState) -> StreamState {
    if s.is_terminal() {
        s
    } else {
        StreamState::Cancelled
    }
}

/// The state after a run of inbound events.
pub open spec fn bidi_final(s: StreamState, items: Seq<Inbound>) -> StreamState
    decreases items.len(),
{
    if items.len() == 0 {
        s
    } else {
        bidi_next(bidi_final(s, items.drop_last()), items.last())
    }
}

/// The actions taken over a run of inbound events, one per event.
pub open spec fn bidi_actions(s: StreamState, items: Seq<Inbound>) -> Seq<BidiActionView>
    decreases items.len(),
{
    if items.len() == 0 {
        Seq::empty()
    } else {
        bidi_actions(s, items.drop_last()).push(
            bidi_action(bidi_final(s, items.drop_last()), items.last()),
        )
    }
}

/// The response to one request: its query upper-cased.
pub fn transform(request: &Request) -> (r: Response)
    ensures
        r.result@ == upper_of(request.query@),
{
    Response::new(uppercase(request.query.as_str()))
}

/// A bidirectional-streaming call. It holds no items: each inbound request
/// is turned into its response at once.
pub struct BidiStream {
    state: StreamState,
}

impl View for BidiStream {
    type V = StreamState;

    closed spec fn view(&self) -> StreamState {
        self.state
    }
}

impl BidiStream {
    pub fn new() -> (r: BidiStream)
        ensures
            r@ == StreamState::Created,
    {
        BidiStream { state: StreamState::Created }
    }

    pub fn state(&self) -> (r: StreamState)
        ensures
            r == self@,
    {
        self.state
    }

    fn is_terminal(&self) -> (r: bool)
        ensures
            r == self@.is_terminal(),
    {
        match self.state {
            StreamState::Completed | StreamState::Errored | StreamState::Cancelled => true,
            _ => false,
        }
    }

    /// Handles the next inbound event.
    pub fn on_inbound(&mut self, item: Inbound) -> (r: BidiAction)
        ensures
            final(self)@ == bidi_next(old(self)@, item),
            r@ == bidi_action(old(self)@, item),
    {
        if self.is_terminal() {
            return BidiAction::Stop;
        }
        match item {
            None => {
                self.state = StreamState::Completed;
                BidiAction::End
            },
            Some(Err(f)) => {
                self.state = StreamState::Errored;
                BidiAction::Fail(ServiceError::StreamFault(f))
            },
            Some(Ok(r)) => {
                self.state = StreamState::Streaming;
                BidiAction::Emit(transform(&r))
            },
        }
    }

    /// The consumer went away: nothing more is produced.
    pub fn cancel(&mut self)
        ensures
            final(self)@ == bidi_cancel(old(self)@),
    {
        if !self.is_terminal() {
            self.state = StreamState::Cancelled;
        }
    }
}

} // verus!
