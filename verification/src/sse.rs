//! Server-sent events: the event frame with its builder, and the SSE error
//! with its mapping.
use vstd::prelude::*;
use vstd::string::*;

use crate::error::{plain_error, Error, ErrorCode};

verus! {

/// One server-sent event frame.
#[derive(Debug, Clone, PartialEq)]
pub struct SseEvent {
    /// Event id (`id:` field).
    pub id: Option<String>,
    /// Event type (`event:` field).
    pub event: Option<String>,
    /// Payload (`data:` field).
    pub data: String,
    /// Reconnection delay in milliseconds (`retry:` field).
    pub retry: Option<u32>,
}

impl SseEvent {
    /// An event carrying only `data`.
    pub fn from_data(data: &str) -> (r: Self)
        ensures
            r.data@ == data@,
            r.id is None,
            r.event is None,
            r.retry is None,
    {
        SseEvent { id: None, event: None, data: String::from_str(data), retry: None }
    }

    /// Sets the id, keeping the rest.
    pub fn with_id(self, id: &str) -> (r: Self)
        ensures
            r.id matches Some(i) && i@ == id@,
            r.event == self.event,
            r.data == self.data,
            r.retry == self.retry,
    {
        SseEvent { id: Some(String::from_str(id)), ..self }
    }

    /// Sets the event type, keeping the rest.
    pub fn with_event(self, event: &str) -> (r: Self)
        ensures
            r.event matches Some(e) && e@ == event@,
            r.id == self.id,
            r.data == self.data,
            r.retry == self.retry,
    {
        SseEvent { event: Some(String::from_str(event)), ..self }
    }

    /// Sets the reconnection delay, keeping the rest.
    pub fn with_retry(self, retry: u32) -> (r: Self)
        ensures
            r.retry == Some(retry),
            r.id == self.id,
            r.event == self.event,
            r.data == self.data,
    {
        SseEvent { retry: Some(retry), ..self }
    }
}

/// Errors raised by SSE streams and publishers.
#[derive(Debug, Clone, PartialEq)]
pub enum SseError {
    /// The connection closed.
    ConnectionClosed,
    /// A message could not be encoded.
    SerializationError(String),
    /// The operation timed out.
    Timeout,
    /// The client disconnected.
    ClientDisconnected,
    /// An internal failure.
    InternalError(String),
}

/// The message of an SSE error.
pub open spec fn sse_error_message(e: SseError) -> Seq<char> {
    match e {
        SseError::ConnectionClosed => "sse connection closed"@,
        SseError::SerializationError(m) => "sse serialization error: "@ + m@,
        SseError::Timeout => "sse timeout"@,
        SseError::ClientDisconnected => "sse client disconnected"@,
        SseError::InternalError(m) => "sse internal error: "@ + m@,
    }
}

impl SseError {
    /// The message of this error.
    pub fn to_string(&self) -> (s: String)
        ensures
            s@ == sse_error_message(*self),
    {
        match self {
            SseError::ConnectionClosed => String::from_str("sse connection closed"),
            SseError::SerializationError(m) => {
                let mut s = String::from_str("sse serialization error: ");
                s.append(m.as_str());
                s
            },
            SseError::Timeout => String::from_str("sse timeout"),
            SseError::ClientDisconnected => String::from_str("sse client disconnected"),
            SseError::InternalError(m) => {
                let mut s = String::from_str("sse internal error: ");
                s.append(m.as_str());
                s
            },
        }
    }
}

impl vstd::std_specs::convert::FromSpecImpl<SseError> for Error {
    /// The conversion is stated by the `ensures` of `from` itself.
    open spec fn obeys_from_spec() -> bool {
        false
    }

    open spec fn from_spec(e: SseError) -> Error {
        vstd::pervasive::arbitrary()
    }
}

impl From<SseError> for Error {
    /// Every SSE error is a transport error carrying its message.
    fn from(e: SseError) -> (r: Error)
        ensures
            plain_error(r, ErrorCode::TransportError, sse_error_message(e)),
    {
        let m = e.to_string();
        Error::transport_error(m.as_str())
    }
}

} // verus!
