use vstd::prelude::*;
use vstd::string::StringExecFns;
use crate::json::JsonValue;
use crate::types::JsonRpcRequest;

verus! {

/// A failure of the message channel. A closed or exhausted channel is
/// reported apart from I/O failures, so callers can tell clean shutdown
/// from abnormal termination.
#[derive(Debug, Clone, PartialEq)]
pub enum TransportError {
    IoError(String),
    JsonError(String),
    Closed,
    ConnectionError(String),
}

/// The text a transport failure reads as.
pub open spec fn transport_error_text(e: TransportError) -> Seq<char> {
    match e {
        TransportError::IoError(s) => "IO error: "@ + s@,
        TransportError::JsonError(s) => "JSON error: "@ + s@,
        TransportError::Closed => "Transport closed"@,
        TransportError::ConnectionError(s) => "Connection error: "@ + s@,
    }
}

impl TransportError {
    /// Human-readable text of the failure.
    pub fn message(&self) -> (r: String)
        ensures
            r@ == transport_error_text(*self),
    {
        match self {
            TransportError::IoError(s) => "IO error: ".to_owned().concat(s.as_str()),
            TransportError::JsonError(s) => "JSON error: ".to_owned().concat(s.as_str()),
            TransportError::Closed => "Transport closed".to_owned(),
            TransportError::ConnectionError(s) => "Connection error: ".to_owned().concat(s.as_str()),
        }
    }
}

/// One bidirectional message channel: send a request envelope, receive
/// the next inbound message, tear down idempotently. Implementations sit
/// at the I/O edge (a spawned subprocess, a polled network endpoint) and
/// promise nothing the verifier can use: every caller is proved correct
/// for every outcome of these calls. The channel carries no correlation
/// of replies to requests, so at most one request may be in flight at a
/// time.
pub trait Transport {
    fn send(&mut self, message: &JsonRpcRequest) -> Result<(), TransportError>;

    fn receive(&mut self) -> Result<JsonValue, TransportError>;

    fn close(&mut self) -> Result<(), TransportError>;
}

} // verus!
