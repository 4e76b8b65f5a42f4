//! The consumer side of a client-streaming call: it folds the inbound
//! requests into one comma-joined response.
use vstd::prelude::*;
use crate::message::{Fault, Request, Response, ServiceError};
use crate::text::{append_joined, join_queries, lemma_join_push};

verus! {

/// What a client-streaming call has consumed: the queries of its valid items,
/// and the fault that ended it, if one did.
pub struct ClientStreamView {
    pub queries: Seq<Seq<char>>,
    pub fault: Option<Fault>,
}

impl ClientStreamView {
    pub open spec fn initial() -> ClientStreamView {
        ClientStreamView { queries: Seq::empty(), fault: None }
    }

    /// After one more inbound item. Once a fault arrived nothing changes.
    pub open spec fn push(self, item: Result<Request, Fault>) -> ClientStreamView {
        if self.fault is Some {
            self
        } else {
            match item {
                Ok(r) => ClientStreamView { queries: self.queries.push(r.query@), ..self },
                Err(f) => ClientStreamView { fault: Some(f), ..self },
            }
        }
    }

    /// The call's result: the joined queries, or the fault that aborted it.
    pub open spec fn outcome(self) -> Result<Seq<char>, Fault> {
        match self.fault {
            Some(f) => Err(f),
            None => Ok(join_queries(self.queries)),
        }
    }
}

/// The view after consuming `items`, one by one, starting from `v`.
pub open spec fn client_run(v: ClientStreamView, items: Seq<Result<Request, Fault>>) -> ClientStreamView
    decreases items.len(),
{
    if items.len() == 0 {
        v
    } else {
        client_run(v, items.drop_last()).push(items.last())
    }
}

/// Accumulates an inbound request stream. Only the joined text so far is
/// kept, never the items themselves.
pub struct ClientStream {
    joined: String,
    started: bool,
    queries: Ghost<Seq<Seq<char>>>,
    fault: Option<Fault>,
}

impl View for ClientStream {
    type V = ClientStreamView;

    closed spec fn view(&self) -> ClientStreamView {
        ClientStreamView { queries: self.queries@, fault: self.fault }
    }
}

impl ClientStream {
    pub closed spec fn wf(&self) -> bool {
        &&& self.joined@ == join_queries(self.queries@)
        &&& self.started == (self.queries@.len() > 0)
    }

    pub fn new() -> (r: ClientStream)
        ensures
            r.wf(),
            r@ == ClientStreamView::initial(),
    {
        ClientStream { joined: String::new(), started: false, queries: Ghost(Seq::empty()), fault: None }
    }

    /// Consumes one inbound item.
    pub fn push(&mut self, item: Result<Request, Fault>)
        requires
            old(self).wf(),
        ensures
            final(self).wf(),
            final(self)@ == old(self)@.push(item),
    {
        if self.fault.is_some() {
            return;
        }
        match item {
            Ok(r) => {
                proof {
                    lemma_join_push(self.queries@, r.query@);
                }
                append_joined(&mut self.joined, self.started, r.query.as_str());
                self.started = true;
                self.queries = Ghost(self.queries@.push(r.query@));
            },
            Err(f) => {
                self.fault = Some(f);
            },
        }
    }

    /// Whether a fault has ended the call.
    pub fn is_failed(&self) -> (r: bool)
        ensures
            r == self@.fault is Some,
    {
        self.fault.is_some()
    }

    /// Ends the call: one response with the joined queries, or the fault.
    pub fn finish(self) -> (r: Result<Response, ServiceError>)
        requires
            self.wf(),
        ensures
            self@.outcome() is Ok ==> r is Ok && r->Ok_0.result@ == self@.outcome()->Ok_0,
            self@.outcome() is Err ==> r == Err::<Response, ServiceError>(
                ServiceError::StreamFault(self@.outcome()->Err_0),
            ),
    {
        match self.fault {
            Some(f) => Err(ServiceError::StreamFault(f)),
            None => Ok(Response::new(self.joined)),
        }
    }
}

} // verus!
