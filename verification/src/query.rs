//! Query-side caching and orchestration: the cache key derived from a
//! query, the default keyer, and the query orchestration error.
use vstd::prelude::*;
use vstd::string::*;

use crate::digest::{blake3_digest, blake3_hash};
use crate::error::{plain_error, Error, ErrorCode};
use crate::text::{hex_lower, hex_text};

verus! {

/// Opaque, hash-stable cache key: a 32-byte BLAKE3 digest of the
/// query's key material.
#[derive(Debug, Clone, PartialEq, Eq, Hash)]
pub struct CacheKey {
    hash: [u8; 32],
}

impl View for CacheKey {
    type V = Seq<u8>;

    closed spec fn view(&self) -> Seq<u8> {
        self.hash@
    }
}

impl CacheKey {
    /// A key from a raw 32-byte digest.
    pub fn from_hash(hash: [u8; 32]) -> (r: Self)
        ensures
            r@ == hash@,
    {
        CacheKey { hash }
    }

    /// The key of `input`: its BLAKE3 digest.
    pub fn hash_of(input: &[u8]) -> (r: Self)
        ensures
            r@ == blake3_digest(input@),
    {
        CacheKey { hash: blake3_hash(input) }
    }

    /// The raw 32-byte digest.
    pub fn as_bytes(&self) -> (r: &[u8; 32])
        ensures
            r@ == self@,
    {
        &self.hash
    }

    /// The digest as 64 lower-case hexadecimal characters.
    pub fn to_string(&self) -> (s: String)
        ensures
            s@ == hex_text(self@),
            s@.len() == 64,
    {
        hex_lower(self.hash.as_slice())
    }
}

/// The key material of a query: its subject text, a zero byte, its
/// selection's canonical JSON, a zero byte, its arguments' canonical
/// JSON (empty when absent). The projection is not part of it.
pub open spec fn key_material(subject: Seq<u8>, selection: Seq<u8>, arguments: Seq<u8>) -> Seq<u8> {
    subject + seq![0u8] + selection + seq![0u8] + arguments
}

/// The default keyer: BLAKE3 over the key material of a query.
#[derive(Debug, Clone, Copy)]
pub struct DefaultCacheKeyer;

impl DefaultCacheKeyer {
    /// A keyer.
    pub fn new() -> (r: Self) {
        DefaultCacheKeyer
    }

    /// The cache key of a query given its subject text and the canonical
    /// JSON texts of its selection and arguments.
    pub fn key_of(&self, subject: &str, selection_json: &str, arguments_json: &str) -> (r: CacheKey)
        ensures
            r@ == blake3_digest(
                key_material(subject.spec_bytes(), selection_json.spec_bytes(), arguments_json.spec_bytes()),
            ),
    {
        let mut material: Vec<u8> = Vec::new();
        append_bytes(&mut material, subject.as_bytes());
        material.push(0u8);
        append_bytes(&mut material, selection_json.as_bytes());
        material.push(0u8);
        append_bytes(&mut material, arguments_json.as_bytes());
        proof {
            assert(material@ =~= key_material(
                subject.spec_bytes(),
                selection_json.spec_bytes(),
                arguments_json.spec_bytes(),
            ));
        }
        CacheKey::hash_of(material.as_slice())
    }
}

fn append_bytes(out: &mut Vec<u8>, bytes: &[u8])
    ensures
        final(out)@ == old(out)@ + bytes@,
{
    let n = bytes.len();
    let mut i: usize = 0;
    while i < n
        invariant
            n == bytes@.len(),
            i <= n,
            out@ == old(out)@ + bytes@.take(i as int),
        decreases n - i,
    {
        out.push(bytes[i]);
        assert(bytes@.take(i + 1) =~= bytes@.take(i as int).push(bytes@[i as int]));
        i += 1;
    }
    assert(bytes@.take(n as int) =~= bytes@);
}

/// Errors raised by query orchestration; callers always receive the
/// canonical [`Error`] they map to.
#[derive(Debug, Clone, PartialEq)]
pub enum QueryError {
    /// The context's deadline expired before dispatch completed.
    DeadlineExpired,
    /// The context's cancellation signal was set.
    Cancelled,
    /// A cache tier lookup failed (a fault, not a miss).
    CacheLookupFailed,
    /// Batch dispatch failed.
    BatchDispatchFailed,
    /// The resolver returned an error; it is passed on as it is.
    ResolverReturned(Error),
}

/// The message of a query error.
pub open spec fn query_error_message(e: QueryError) -> Seq<char> {
    match e {
        QueryError::DeadlineExpired => "deadline expired"@,
        QueryError::Cancelled => "cancelled"@,
        QueryError::CacheLookupFailed => "cache lookup failed"@,
        QueryError::BatchDispatchFailed => "batch dispatch failed"@,
        QueryError::ResolverReturned(inner) => "resolver returned: "@ + crate::error::error_code_name(
            inner.code,
        ) + ": "@ + inner.message@,
    }
}

impl QueryError {
    /// The message of this error.
    pub fn to_string(&self) -> (s: String)
        ensures
            s@ == query_error_message(*self),
    {
        match self {
            QueryError::DeadlineExpired => String::from_str("deadline expired"),
            QueryError::Cancelled => String::from_str("cancelled"),
            QueryError::CacheLookupFailed => String::from_str("cache lookup failed"),
            QueryError::BatchDispatchFailed => String::from_str("batch dispatch failed"),
            QueryError::ResolverReturned(inner) => {
                let mut s = String::from_str("resolver returned: ");
                let t = inner.to_string();
                s.append(t.as_str());
                s
            },
        }
    }
}

/// The canonical error a query error maps to: deadline and cancellation
/// are timeouts, cache and batch faults are internal errors, a resolver
/// error is passed on unchanged.
pub open spec fn query_error_maps(e: QueryError, r: Error) -> bool {
    match e {
        QueryError::DeadlineExpired | QueryError::Cancelled => plain_error(
            r,
            ErrorCode::Timeout,
            query_error_message(e),
        ),
        QueryError::CacheLookupFailed | QueryError::BatchDispatchFailed => plain_error(
            r,
            ErrorCode::InternalError,
            query_error_message(e),
        ),
        QueryError::ResolverReturned(inner) => r == inner,
    }
}

impl vstd::std_specs::convert::FromSpecImpl<QueryError> for Error {
    /// The conversion is stated by the `ensures` of `from` itself.
    open spec fn obeys_from_spec() -> bool {
        false
    }

    open spec fn from_spec(e: QueryError) -> Error {
        vstd::pervasive::arbitrary()
    }
}

impl From<QueryError> for Error {
    fn from(e: QueryError) -> (r: Error)
        ensures
            query_error_maps(e, r),
    {
        let m = e.to_string();
        match e {
            QueryError::DeadlineExpired | QueryError::Cancelled => Error::timeout(m.as_str()),
            QueryError::CacheLookupFailed | QueryError::BatchDispatchFailed => Error::internal_error(
                m.as_str(),
            ),
            QueryError::ResolverReturned(inner) => inner,
        }
    }
}

impl vstd::std_specs::convert::FromSpecImpl<Error> for QueryError {
    /// The conversion is stated by the `ensures` of `from` itself.
    open spec fn obeys_from_spec() -> bool {
        false
    }

    open spec fn from_spec(e: Error) -> QueryError {
        vstd::pervasive::arbitrary()
    }
}

impl From<Error> for QueryError {
    fn from(e: Error) -> (r: QueryError)
        ensures
            r == QueryError::ResolverReturned(e),
    {
        QueryError::ResolverReturned(e)
    }
}

} // verus!
