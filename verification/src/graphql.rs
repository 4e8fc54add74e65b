//! The GraphQL adapter's error and its mapping onto the canonical error.
use vstd::prelude::*;
use vstd::string::*;

use serde_json::Value;

use crate::error::{plain_error, Error, ErrorCode};
use crate::model::{Context, Query, Resource};
use crate::subject::{parse_subject, subject_error_message, SubjectErrorView};

verus! {

/// Errors raised by the GraphQL adapter.
#[derive(Debug, Clone, PartialEq)]
pub enum GraphqlError {
    /// The schema could not be built.
    SchemaBuildFailed(String),
    /// A field resolution failed.
    ResolutionFailed(String),
    /// A type could not be mapped to or from a core type.
    MappingError(String),
}

/// The message of a GraphQL error.
pub open spec fn graphql_error_message(e: GraphqlError) -> Seq<char> {
    match e {
        GraphqlError::SchemaBuildFailed(m) => "graphql schema build failed: "@ + m@,
        GraphqlError::ResolutionFailed(m) => "graphql resolution failed: "@ + m@,
        GraphqlError::MappingError(m) => "graphql mapping error: "@ + m@,
    }
}

impl GraphqlError {
    /// The message of this error.
    pub fn to_string(&self) -> (s: String)
        ensures
            s@ == graphql_error_message(*self),
    {
        let (prefix, m) = match self {
            GraphqlError::SchemaBuildFailed(m) => ("graphql schema build failed: ", m),
            GraphqlError::ResolutionFailed(m) => ("graphql resolution failed: ", m),
            GraphqlError::MappingError(m) => ("graphql mapping error: ", m),
        };
        let mut s = String::from_str(prefix);
        s.append(m.as_str());
        s
    }
}

/// The canonical error a GraphQL error maps to: a failed resolution is a
/// resolver error, the rest internal errors; the message is the GraphQL
/// error's.
pub open spec fn graphql_error_maps(e: GraphqlError, r: Error) -> bool {
    plain_error(
        r,
        match e {
            GraphqlError::ResolutionFailed(_) => ErrorCode::ResolverError,
            _ => ErrorCode::InternalError,
        },
        graphql_error_message(e),
    )
}

impl vstd::std_specs::convert::FromSpecImpl<GraphqlError> for Error {
    /// The conversion is stated by the `ensures` of `from` itself.
    open spec fn obeys_from_spec() -> bool {
        false
    }

    open spec fn from_spec(e: GraphqlError) -> Error {
        vstd::pervasive::arbitrary()
    }
}

impl From<GraphqlError> for Error {
    fn from(e: GraphqlError) -> (r: Error)
        ensures
            graphql_error_maps(e, r),
    {
        let m = e.to_string();
        match e {
            GraphqlError::SchemaBuildFailed(_) | GraphqlError::MappingError(_) => {
                Error::internal_error(m.as_str())
            },
            GraphqlError::ResolutionFailed(_) => Error::resolver_error(m.as_str()),
        }
    }
}

/// The query a GraphQL field resolves to: the resource the field names,
/// all its entities, the request's context, and the field's arguments
/// when they are not JSON `null` (`args` is `None` then). A field that is
/// not a subject is a validation error carrying the subject error's
/// message.
pub fn resolve_field_query(field: &str, args: Option<Value>, ctx: Context) -> (r: Result<
    Query,
    Error,
>)
    ensures
        match r {
            Ok(q) => {
                &&& parse_subject(field@) == Ok::<Seq<Seq<char>>, SubjectErrorView>(
                    q.resource.subject@,
                )
                &&& q.selection is All
                &&& q.arguments == args
                &&& q.projection is None
                &&& q.context == ctx
                &&& q.cache_policy is None
                &&& q.deadline is None
            },
            Err(e) => parse_subject(field@) matches Err(se) && plain_error(
                e,
                ErrorCode::ValidationError,
                subject_error_message(se),
            ),
        },
{
    let resource = match Resource::from_str(field) {
        Ok(r) => r,
        Err(e) => {
            let m = e.to_string();
            return Err(Error::validation_error(m.as_str()));
        },
    };
    let q = Query::new(resource);
    let q = Query { context: ctx, ..q };
    match args {
        Some(a) => Ok(q.with_arguments(a)),
        None => Ok(q),
    }
}

} // verus!
