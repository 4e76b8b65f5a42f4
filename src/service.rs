//! The service instance: the query log it owns and the entry point of each
//! call shape.
use vstd::prelude::*;
use crate::bidi::BidiStream;
use crate::client::{ClientStream, ClientStreamView};
use crate::message::{Request, Response, ServiceError};
use crate::query_log::QueryLog;
use crate::stream::{ServerStream, StreamState};
use crate::text::{unary_reply, unary_reply_text};
use crate::tokens::{
    all_token_chars, get_random_strings, is_token, token_at, TOKEN_COUNT, TOKEN_LEN,
};

verus! {

/// What a server-streaming call emits.
#[derive(Clone, Copy, Debug, PartialEq, Eq, Structural)]
pub enum StreamPolicy {
    /// One response per query log entry, as the log stood when the call began.
    Snapshot,
    /// `TOKEN_COUNT` freshly drawn tokens, whatever the request holds.
    /// Drawing panics only if the operating system's entropy source fails.
    RandomTokens,
    /// This deployment does not offer server streaming.
    Disabled,
}

/// The service: a query log shared by all calls, under exclusive access for
/// every append.
pub struct DemoServiceImpl {
    log: QueryLog,
    policy: StreamPolicy,
}

impl DemoServiceImpl {
    pub closed spec fn log_view(&self) -> Seq<Seq<char>> {
        self.log@
    }

    pub closed spec fn policy_view(&self) -> StreamPolicy {
        self.policy
    }

    pub fn new(policy: StreamPolicy) -> (r: DemoServiceImpl)
        ensures
            r.log_view() == Seq::<Seq<char>>::empty(),
            r.policy_view() == policy,
    {
        DemoServiceImpl { log: QueryLog::new(), policy }
    }

    pub fn policy(&self) -> (r: StreamPolicy)
        ensures
            r == self.policy_view(),
    {
        self.policy
    }

    pub fn log(&self) -> (r: &QueryLog)
        ensures
            r@ == self.log_view(),
    {
        &self.log
    }

    /// A unary call: records the query, then answers "Result for <query>".
    /// An undelivered request (`None`) fails and leaves the log as it was.
    pub fn unary(&mut self, request: Option<Request>) -> (r: Result<Response, ServiceError>)
        ensures
            final(self).policy_view() == old(self).policy_view(),
            request is None ==> r == Err::<Response, ServiceError>(ServiceError::InvalidRequest)
                && final(self).log_view() == old(self).log_view(),
            request is Some ==> r is Ok && r->Ok_0.result@ == unary_reply(
                request->Some_0.query@,
            ) && final(self).log_view() == old(self).log_view().push(request->Some_0.query@),
    {
        match request {
            None => Err(ServiceError::InvalidRequest),
            Some(req) => {
                let reply = unary_reply_text(req.query.as_str());
                self.log.append(req.query);
                Ok(Response::new(reply))
            },
        }
    }

    /// A server-streaming call: the producer of its responses. Under
    /// `Snapshot` it holds a copy of the log taken now, which later appends
    /// do not reach.
    pub fn server_streaming(&self, _request: &Request) -> (r: Result<ServerStream, ServiceError>)
        ensures
            self.policy_view() == StreamPolicy::Disabled ==> r == Err::<ServerStream, ServiceError>(
                ServiceError::Unimplemented,
            ),
            self.policy_view() != StreamPolicy::Disabled ==> r is Ok && r->Ok_0.wf()
                && r->Ok_0@.sent == 0 && !r->Ok_0@.cancelled,
            self.policy_view() == StreamPolicy::Snapshot ==> r is Ok && r->Ok_0@.items
                == self.log_view(),
            self.policy_view() == StreamPolicy::RandomTokens ==> r is Ok && r->Ok_0@.items.len()
                == TOKEN_COUNT && (forall|i: int|
                0 <= i < r->Ok_0@.items.len() ==> is_token(#[trigger] r->Ok_0@.items[i])) && exists|
                chars: Seq<char>,
            |
                chars.len() == TOKEN_COUNT * TOKEN_LEN && all_token_chars(chars) && forall|i: int|
                    0 <= i < TOKEN_COUNT ==> #[trigger] r->Ok_0@.items[i] == token_at(chars, i),
    {
        match self.policy {
            StreamPolicy::Disabled => Err(ServiceError::Unimplemented),
            StreamPolicy::Snapshot => Ok(ServerStream::new(self.log.snapshot())),
            StreamPolicy::RandomTokens => {
                let tokens = get_random_strings();
                let r = ServerStream::new(tokens);
                assert forall|i: int| 0 <= i < r@.items.len() implies is_token(
                    #[trigger] r@.items[i],
                ) by {
                    assert(r@.items[i] == tokens@[i]@);
                }
                let ghost chars = choose|chars: Seq<char>|
                    chars.len() == TOKEN_COUNT * TOKEN_LEN && all_token_chars(chars) && forall|
                        i: int,
                    | 0 <= i < TOKEN_COUNT ==> #[trigger] tokens@[i]@ == token_at(chars, i);
                assert forall|i: int| 0 <= i < TOKEN_COUNT implies #[trigger] r@.items[i]
                    == token_at(chars, i) by {
                    assert(r@.items[i] == tokens@[i]@);
                }
                Ok(r)
            },
        }
    }

    /// A client-streaming call: the consumer that folds its inbound stream.
    pub fn client_streaming(&self) -> (r: ClientStream)
        ensures
            r.wf(),
            r@ == ClientStreamView::initial(),
    {
        ClientStream::new()
    }

    /// A bidirectional-streaming call: the per-item transformer.
    pub fn bidirectional_streaming(&self) -> (r: BidiStream)
        ensures
            r@ == StreamState::Created,
    {
        BidiStream::new()
    }
}

impl Default for DemoServiceImpl {
    fn default() -> (r: DemoServiceImpl)
        ensures
            r.log_view() == Seq::<Seq<char>>::empty(),
            r.policy_view() == StreamPolicy::RandomTokens,
    {
        DemoServiceImpl::new(StreamPolicy::RandomTokens)
    }
}

} // verus!
