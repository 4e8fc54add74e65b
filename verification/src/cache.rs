//! The tiered cache's data model: content-addressed keys, entries, lookup
//! outcomes and the cache error with its mapping onto the canonical error.
use std::time::Duration;

use vstd::prelude::*;
use vstd::string::*;

use crate::digest::{blake3_digest, blake3_hash};
use crate::error::{plain_error, Error, ErrorCode, ResponseValue};
use crate::model::{cache_tier_name, CacheTier, Timestamp};
use crate::subject::{subject_error_message, SubjectError};

verus! {

/// A deterministic, content-addressed cache key: a 32-byte BLAKE3 digest.
#[derive(Debug, Clone, PartialEq, Eq, Hash)]
pub struct CacheKey(pub [u8; 32]);

impl CacheKey {
    /// A key from pre-computed digest bytes.
    pub fn from_bytes(bytes: [u8; 32]) -> (r: Self)
        ensures
            r.0@ == bytes@,
    {
        CacheKey(bytes)
    }

    /// The key of `input`: its BLAKE3 digest.
    pub fn hash_of(input: &[u8]) -> (r: Self)
        ensures
            r.0@ == blake3_digest(input@),
    {
        CacheKey(blake3_hash(input))
    }

    /// The raw 32-byte digest.
    pub fn as_bytes(&self) -> (r: &[u8; 32])
        ensures
            r@ == self.0@,
    {
        &self.0
    }
}

/// A cached value with the metadata needed for promotion, expiry and
/// conditional requests.
#[derive(Debug, Clone, PartialEq)]
pub struct CacheEntry {
    /// The cached response value.
    pub value: ResponseValue,
    /// When the entry was inserted into its current tier.
    pub inserted_at: Timestamp,
    /// Time to live; `None` defers to the tier's default.
    pub ttl: Option<Duration>,
    /// The tier the entry was read from.
    pub source_tier: CacheTier,
    /// Entity tag for conditional requests.
    pub etag: Option<String>,
}

/// The outcome of a cache lookup.
#[derive(Debug, Clone, PartialEq)]
pub enum CacheHit {
    /// The entry was found, in `source_tier`.
    Hit {
        /// The cached entry.
        value: CacheEntry,
        /// The tier the entry was read from.
        source_tier: CacheTier,
    },
    /// No tier held the key.
    Miss,
}

/// Errors raised by cache operations.
#[derive(Debug, Clone, PartialEq, Eq)]
pub enum CacheError {
    /// The tier is unavailable.
    TierUnavailable(CacheTier),
    /// A cached value could not be decoded.
    DeserializationError(String),
    /// A value could not be encoded for write-through.
    SerializationError(String),
    /// The cache policy is invalid.
    InvalidPolicy,
    /// The invalidation pattern is invalid.
    PatternInvalid(SubjectError),
}

/// The message of a cache error.
pub open spec fn cache_error_message(e: CacheError) -> Seq<char> {
    match e {
        CacheError::TierUnavailable(t) => "cache tier unavailable: "@ + cache_tier_name(t),
        CacheError::DeserializationError(m) => "cache deserialization error: "@ + m@,
        CacheError::SerializationError(m) => "cache serialization error: "@ + m@,
        CacheError::InvalidPolicy => "invalid cache policy"@,
        CacheError::PatternInvalid(se) => "invalid subject pattern: "@ + subject_error_message(se@),
    }
}

impl CacheError {
    /// The message of this error.
    pub fn to_string(&self) -> (s: String)
        ensures
            s@ == cache_error_message(*self),
    {
        match self {
            CacheError::TierUnavailable(t) => {
                let mut s = String::from_str("cache tier unavailable: ");
                let n = t.name();
                s.append(n.as_str());
                s
            },
            CacheError::DeserializationError(m) => {
                let mut s = String::from_str("cache deserialization error: ");
                s.append(m.as_str());
                s
            },
            CacheError::SerializationError(m) => {
                let mut s = String::from_str("cache serialization error: ");
                s.append(m.as_str());
                s
            },
            CacheError::InvalidPolicy => String::from_str("invalid cache policy"),
            CacheError::PatternInvalid(se) => {
                let mut s = String::from_str("invalid subject pattern: ");
                let t = se.to_string();
                s.append(t.as_str());
                s
            },
        }
    }
}

impl vstd::std_specs::convert::FromSpecImpl<SubjectError> for CacheError {
    /// The conversion is stated by the `ensures` of `from` itself.
    open spec fn obeys_from_spec() -> bool {
        false
    }

    open spec fn from_spec(e: SubjectError) -> CacheError {
        vstd::pervasive::arbitrary()
    }
}

impl From<SubjectError> for CacheError {
    fn from(e: SubjectError) -> (r: CacheError)
        ensures
            r == CacheError::PatternInvalid(e),
    {
        CacheError::PatternInvalid(e)
    }
}

/// The canonical error a cache error maps to: an unavailable tier is an
/// internal error, an encoding failure a transport error, a bad policy or
/// pattern a validation error; the message is the cache error's.
pub open spec fn cache_error_maps(e: CacheError, r: Error) -> bool {
    plain_error(
        r,
        match e {
            CacheError::TierUnavailable(_) => ErrorCode::InternalError,
            CacheError::DeserializationError(_) | CacheError::SerializationError(_) => ErrorCode::TransportError,
            CacheError::InvalidPolicy | CacheError::PatternInvalid(_) => ErrorCode::ValidationError,
        },
        cache_error_message(e),
    )
}

impl vstd::std_specs::convert::FromSpecImpl<CacheError> for Error {
    /// The conversion is stated by the `ensures` of `from` itself.
    open spec fn obeys_from_spec() -> bool {
        false
    }

    open spec fn from_spec(e: CacheError) -> Error {
        vstd::pervasive::arbitrary()
    }
}

impl From<CacheError> for Error {
    fn from(e: CacheError) -> (r: Error)
        ensures
            cache_error_maps(e, r),
    {
        let m = e.to_string();
        match e {
            CacheError::TierUnavailable(_) => Error::internal_error(m.as_str()),
            CacheError::DeserializationError(_) | CacheError::SerializationError(_) => {
                Error::transport_error(m.as_str())
            },
            CacheError::InvalidPolicy | CacheError::PatternInvalid(_) => Error::validation_error(
                m.as_str(),
            ),
        }
    }
}

} // verus!
