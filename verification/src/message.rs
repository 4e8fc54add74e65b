//! The message subsystem's error and the JSON serializer's marker type.
use vstd::prelude::*;
use vstd::string::*;

use crate::error::{plain_error, Error, ErrorCode};
use crate::model::{format_tag_text, FormatTag};

verus! {

/// The serializer of the JSON text format.
#[derive(Debug, Clone, Copy, Default)]
pub struct JsonSerializer;

/// Errors raised by message encoding.
#[derive(Debug, Clone, PartialEq, Eq)]
pub enum MessageError {
    /// Encoding failed.
    SerializationError(String),
    /// Decoding failed.
    DeserializationError(String),
    /// The format is not supported by the serializer.
    UnsupportedFormat(FormatTag),
    /// The payload did not have the expected shape.
    PayloadMismatch,
}

/// The message of a message error.
pub open spec fn message_error_message(e: MessageError) -> Seq<char> {
    match e {
        MessageError::SerializationError(m) => "serialization error: "@ + m@,
        MessageError::DeserializationError(m) => "deserialization error: "@ + m@,
        MessageError::UnsupportedFormat(t) => "unsupported format: "@ + format_tag_text(t),
        MessageError::PayloadMismatch => "payload mismatch"@,
    }
}

impl MessageError {
    /// The message of this error.
    pub fn to_string(&self) -> (s: String)
        ensures
            s@ == message_error_message(*self),
    {
        match self {
            MessageError::SerializationError(m) => {
                let mut s = String::from_str("serialization error: ");
                s.append(m.as_str());
                s
            },
            MessageError::DeserializationError(m) => {
                let mut s = String::from_str("deserialization error: ");
                s.append(m.as_str());
                s
            },
            MessageError::UnsupportedFormat(t) => {
                let mut s = String::from_str("unsupported format: ");
                let n = t.to_string();
                s.append(n.as_str());
                s
            },
            MessageError::PayloadMismatch => String::from_str("payload mismatch"),
        }
    }
}

impl vstd::std_specs::convert::FromSpecImpl<MessageError> for Error {
    /// The conversion is stated by the `ensures` of `from` itself.
    open spec fn obeys_from_spec() -> bool {
        false
    }

    open spec fn from_spec(e: MessageError) -> Error {
        vstd::pervasive::arbitrary()
    }
}

impl From<MessageError> for Error {
    /// Every message error is a transport error carrying its message.
    fn from(e: MessageError) -> (r: Error)
        ensures
            plain_error(r, ErrorCode::TransportError, message_error_message(e)),
    {
        let m = e.to_string();
        Error::transport_error(m.as_str())
    }
}

} // verus!
