//! Server-side coordination logic of a small RPC service with the four call
//! shapes: unary, server streaming, client streaming and bidirectional
//! streaming.
pub mod bidi;
pub mod client;
pub mod laws;
pub mod message;
pub mod query_log;
pub mod service;
pub mod stream;
pub mod text;
pub mod tokens;
