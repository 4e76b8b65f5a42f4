//! The two record shapes carried by every call, and the service's errors.
use vstd::prelude::*;

verus! {

/// One inbound message: the caller's query text.
#[derive(Clone, Debug, PartialEq, Eq)]
pub struct Request {
    pub query: String,
}

/// One outbound message: a handler's result text.
#[derive(Clone, Debug, PartialEq, Eq)]
pub struct Response {
    pub result: String,
}

/// A transport-level error carried by an inbound stream item.
#[derive(Clone, Debug, PartialEq, Eq)]
pub struct Fault {
    pub code: i32,
    pub message: String,
}

/// How a call fails. Every error is scoped to the one call that raised it.
#[derive(Clone, Debug, PartialEq, Eq)]
pub enum ServiceError {
    /// The inbound message was malformed or never delivered.
    InvalidRequest,
    /// An inbound stream item carried a transport-level error.
    StreamFault(Fault),
    /// A producer could not deliver an item because its consumer is gone.
    ProducerUnavailable,
    /// The call shape is known but not offered by this deployment.
    Unimplemented,
}

impl Request {
    pub fn new(query: String) -> (r: Request)
        ensures
            r.query@ == query@,
    {
        Request { query }
    }
}

impl Response {
    pub fn new(result: String) -> (r: Response)
        ensures
            r.result@ == result@,
    {
        Response { result }
    }
}

impl Fault {
    pub fn new(code: i32, message: String) -> (r: Fault)
        ensures
            r.code == code,
            r.message@ == message@,
    {
        Fault { code, message }
    }
}

} // verus!
