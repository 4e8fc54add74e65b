//! The canonical error and response types that every transport and
//! subsystem maps its own errors onto.
use serde_json::Value;
use vstd::prelude::*;
use vstd::string::*;

use crate::model::{CausationId, CorrelationId, FormatTag};
use crate::subject::{subject_error_message, Subject, SubjectError};

verus! {

/// Canonical error code.
#[derive(Debug, Clone, Copy, PartialEq, Eq, Hash, Structural)]
pub enum ErrorCode {
    /// Transport-level failure.
    TransportError,
    /// The resolver could not fulfil the query.
    ResolverError,
    /// Authoritative miss and no resolver.
    CacheMiss,
    /// Input failed validation.
    ValidationError,
    /// Deadline exceeded.
    Timeout,
    /// Unexpected internal failure.
    InternalError,
}

/// The snake-case name of an error code.
pub open spec fn error_code_name(c: ErrorCode) -> Seq<char> {
    match c {
        ErrorCode::TransportError => "transport_error"@,
        ErrorCode::ResolverError => "resolver_error"@,
        ErrorCode::CacheMiss => "cache_miss"@,
        ErrorCode::ValidationError => "validation_error"@,
        ErrorCode::Timeout => "timeout"@,
        ErrorCode::InternalError => "internal_error"@,
    }
}

impl ErrorCode {
    /// The snake-case name of this code.
    pub fn to_string(&self) -> (s: String)
        ensures
            s@ == error_code_name(*self),
    {
        match self {
            ErrorCode::TransportError => String::from_str("transport_error"),
            ErrorCode::ResolverError => String::from_str("resolver_error"),
            ErrorCode::CacheMiss => String::from_str("cache_miss"),
            ErrorCode::ValidationError => String::from_str("validation_error"),
            ErrorCode::Timeout => String::from_str("timeout"),
            ErrorCode::InternalError => String::from_str("internal_error"),
        }
    }
}

/// The canonical error. Transport adapters project it into their own
/// wire forms; they define no error types of their own for callers.
#[derive(Debug, Clone, PartialEq)]
pub struct Error {
    /// Canonical error code.
    pub code: ErrorCode,
    /// Human-readable message.
    pub message: String,
    /// Subject the error relates to.
    pub subject: Option<Subject>,
    /// Correlation id.
    pub correlation_id: Option<CorrelationId>,
    /// Causation id.
    pub causation_id: Option<CausationId>,
    /// Optional structured details.
    pub details: Option<Value>,
}

/// `e` carries `code` and `message` and nothing else.
pub open spec fn plain_error(e: Error, code: ErrorCode, message: Seq<char>) -> bool {
    &&& e.code == code
    &&& e.message@ == message
    &&& e.subject is None
    &&& e.correlation_id is None
    &&& e.causation_id is None
    &&& e.details is None
}

impl Error {
    /// An error with a code and a message.
    pub fn new(code: ErrorCode, message: &str) -> (r: Self)
        ensures
            plain_error(r, code, message@),
    {
        Error {
            code,
            message: String::from_str(message),
            subject: None,
            correlation_id: None,
            causation_id: None,
            details: None,
        }
    }

    /// A transport error.
    pub fn transport_error(msg: &str) -> (r: Self)
        ensures
            plain_error(r, ErrorCode::TransportError, msg@),
    {
        Error::new(ErrorCode::TransportError, msg)
    }

    /// A resolver error.
    pub fn resolver_error(msg: &str) -> (r: Self)
        ensures
            plain_error(r, ErrorCode::ResolverError, msg@),
    {
        Error::new(ErrorCode::ResolverError, msg)
    }

    /// A cache-miss error.
    pub fn cache_miss(msg: &str) -> (r: Self)
        ensures
            plain_error(r, ErrorCode::CacheMiss, msg@),
    {
        Error::new(ErrorCode::CacheMiss, msg)
    }

    /// A validation error.
    pub fn validation_error(msg: &str) -> (r: Self)
        ensures
            plain_error(r, ErrorCode::ValidationError, msg@),
    {
        Error::new(ErrorCode::ValidationError, msg)
    }

    /// A timeout error.
    pub fn timeout(msg: &str) -> (r: Self)
        ensures
            plain_error(r, ErrorCode::Timeout, msg@),
    {
        Error::new(ErrorCode::Timeout, msg)
    }

    /// An internal error.
    pub fn internal_error(msg: &str) -> (r: Self)
        ensures
            plain_error(r, ErrorCode::InternalError, msg@),
    {
        Error::new(ErrorCode::InternalError, msg)
    }

    /// Sets the subject.
    pub fn with_subject(self, s: Subject) -> (r: Self)
        ensures
            r == (Error { subject: Some(s), ..self }),
    {
        Error { subject: Some(s), ..self }
    }

    /// Sets the correlation id.
    pub fn with_correlation(self, id: CorrelationId) -> (r: Self)
        ensures
            r == (Error { correlation_id: Some(id), ..self }),
    {
        Error { correlation_id: Some(id), ..self }
    }

    /// Sets the causation id.
    pub fn with_causation(self, id: CausationId) -> (r: Self)
        ensures
            r == (Error { causation_id: Some(id), ..self }),
    {
        Error { causation_id: Some(id), ..self }
    }

    /// Sets structured details.
    pub fn with_details(self, details: Value) -> (r: Self)
        ensures
            r == (Error { details: Some(details), ..self }),
    {
        Error { details: Some(details), ..self }
    }

    /// `code: message`.
    pub fn to_string(&self) -> (s: String)
        ensures
            s@ == error_code_name(self.code) + ": "@ + self.message@,
    {
        let mut s = self.code.to_string();
        s.append(": ");
        s.append(self.message.as_str());
        s
    }
}

/// The canonical error of a subject error: a validation error carrying
/// the subject error's message.
pub fn subject_error_to_core(e: &SubjectError) -> (r: Error)
    ensures
        plain_error(r, ErrorCode::ValidationError, subject_error_message(e@)),
{
    let m = e.to_string();
    Error::validation_error(m.as_str())
}

impl vstd::std_specs::convert::FromSpecImpl<SubjectError> for Error {
    /// The conversion is stated by the `ensures` of `from` itself.
    open spec fn obeys_from_spec() -> bool {
        false
    }

    open spec fn from_spec(e: SubjectError) -> Error {
        vstd::pervasive::arbitrary()
    }
}

impl From<SubjectError> for Error {
    fn from(e: SubjectError) -> (r: Error)
        ensures
            plain_error(r, ErrorCode::ValidationError, subject_error_message(e@)),
    {
        subject_error_to_core(&e)
    }
}

// ===========================================================================
// Response
// ===========================================================================

/// The value of a successful response.
#[derive(Debug, Clone, PartialEq)]
pub enum ResponseValue {
    /// JSON value.
    Json(Value),
    /// Binary value with format tag.
    Bytes(Vec<u8>, FormatTag),
    /// No body.
    Unit,
}

/// The result of a query or command: a value or an error, never both and
/// never neither.
#[derive(Debug, PartialEq)]
pub struct Response {
    /// The value or the error.
    pub result: Result<ResponseValue, Error>,
    /// Correlation id; required on responses.
    pub correlation_id: CorrelationId,
}

impl Response {
    /// A successful response.
    pub fn ok(value: ResponseValue, correlation_id: CorrelationId) -> (r: Self)
        ensures
            r.result == Ok::<ResponseValue, Error>(value),
            r.correlation_id == correlation_id,
    {
        Response { result: Ok(value), correlation_id }
    }

    /// An error response.
    pub fn err(error: Error, correlation_id: CorrelationId) -> (r: Self)
        ensures
            r.result == Err::<ResponseValue, Error>(error),
            r.correlation_id == correlation_id,
    {
        Response { result: Err(error), correlation_id }
    }

    /// Whether this response is a success.
    pub fn is_ok(&self) -> (r: bool)
        ensures
            r == self.result is Ok,
    {
        self.result.is_ok()
    }

    /// Whether this response is an error.
    pub fn is_err(&self) -> (r: bool)
        ensures
            r == self.result is Err,
    {
        self.result.is_err()
    }
}

/// A response is exactly one of a success and an error: `is_ok` and
/// `is_err` never agree.
pub proof fn lemma_response_ok_xor_err(r: Response)
    ensures
        (r.result is Ok) != (r.result is Err),
{
}

} // verus!
