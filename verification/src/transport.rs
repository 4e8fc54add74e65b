//! Bridging between transports: transport kinds, static routes with their
//! subject rewrites, and the transport error with its mapping.
use vstd::prelude::*;
use vstd::string::*;

use crate::error::{plain_error, Error, ErrorCode};
use crate::subject::{Subject, SubjectPattern};

verus! {

/// One of the three transports.
#[derive(Debug, Clone, Copy, PartialEq, Eq, Hash, Structural)]
pub enum TransportKind {
    /// MQTT publish/subscribe.
    Mqtt,
    /// GraphQL request/response and subscriptions.
    Graphql,
    /// Server-sent events.
    Sse,
}

/// How a bridge rewrites the subject of a forwarded message.
#[derive(Debug, Clone, PartialEq, Eq, Hash)]
pub enum SubjectRewrite {
    /// Prepend this prefix.
    Prefix(Subject),
    /// Replace the subject with this one.
    Replace(Subject),
}

/// A static route from one transport to another for the subjects a
/// pattern matches.
#[derive(Debug, Clone, PartialEq, Eq, Hash)]
pub struct BridgeRoute {
    /// The transport messages arrive on.
    pub source: TransportKind,
    /// The transport they are forwarded to.
    pub target: TransportKind,
    /// The subjects eligible for the route.
    pub source_pattern: SubjectPattern,
    /// Explicit target subject; `None` keeps the original.
    pub target_subject: Option<Subject>,
    /// Rewrite applied while forwarding.
    pub rewrite: Option<SubjectRewrite>,
}

/// Errors raised by transport bridging.
#[derive(Debug, Clone, PartialEq, Eq)]
pub enum TransportError {
    /// The source transport closed.
    SourceClosed,
    /// Publishing on a target failed.
    TargetPublishFailed(String),
    /// A subject rewrite could not be applied.
    SubjectRewriteFailed(String),
    /// A message could not be encoded for the target.
    SerializationError(String),
    /// A route back to the source transport was attempted.
    LoopbackForbidden,
}

/// The message of a transport error.
pub open spec fn transport_error_message(e: TransportError) -> Seq<char> {
    match e {
        TransportError::SourceClosed => "source transport closed"@,
        TransportError::TargetPublishFailed(m) => "target publish failed: "@ + m@,
        TransportError::SubjectRewriteFailed(m) => "subject rewrite failed: "@ + m@,
        TransportError::SerializationError(m) => "serialization error: "@ + m@,
        TransportError::LoopbackForbidden => "loopback forbidden: a bridge may not route back to the source transport"@,
    }
}

impl TransportError {
    /// The message of this error.
    pub fn to_string(&self) -> (s: String)
        ensures
            s@ == transport_error_message(*self),
    {
        match self {
            TransportError::SourceClosed => String::from_str("source transport closed"),
            TransportError::TargetPublishFailed(m) => {
                let mut s = String::from_str("target publish failed: ");
                s.append(m.as_str());
                s
            },
            TransportError::SubjectRewriteFailed(m) => {
                let mut s = String::from_str("subject rewrite failed: ");
                s.append(m.as_str());
                s
            },
            TransportError::SerializationError(m) => {
                let mut s = String::from_str("serialization error: ");
                s.append(m.as_str());
                s
            },
            TransportError::LoopbackForbidden => String::from_str(
                "loopback forbidden: a bridge may not route back to the source transport",
            ),
        }
    }
}

impl vstd::std_specs::convert::FromSpecImpl<TransportError> for Error {
    /// The conversion is stated by the `ensures` of `from` itself.
    open spec fn obeys_from_spec() -> bool {
        false
    }

    open spec fn from_spec(e: TransportError) -> Error {
        vstd::pervasive::arbitrary()
    }
}

impl From<TransportError> for Error {
    /// Every transport error is a transport error of the canonical kind,
    /// carrying its message.
    fn from(e: TransportError) -> (r: Error)
        ensures
            plain_error(r, ErrorCode::TransportError, transport_error_message(e)),
    {
        let m = e.to_string();
        Error::transport_error(m.as_str())
    }
}

} // verus!
