//! The message and query model: identities, operations, payloads,
//! metadata, timestamps and deadlines, selections and projections,
//! resources, cache policies, cancellation, contexts, queries, messages.
use std::collections::BTreeMap;
use std::time::Duration;

use serde_json::Value;
use uuid::Uuid;
use vstd::prelude::*;
use vstd::string::*;

use crate::subject::{parse_subject, FieldPath, Subject, SubjectError, SubjectErrorView, SubjectPattern};

verus! {

// ===========================================================================
// Outside types carried through the model
// ===========================================================================

/// `uuid::Uuid`, carried through identities; nothing of its content is
/// read.
#[verifier::external_type_specification]
#[verifier::external_body]
pub struct ExUuid(Uuid);

/// `serde_json::Value`, carried through payloads, arguments and details;
/// nothing of its content is read.
#[verifier::external_type_specification]
#[verifier::external_body]
pub struct ExJsonValue(Value);

/// `serde_json::Value::clone` (derived): the copy is the same JSON value.
pub assume_specification[ <Value as Clone>::clone ](v: &Value) -> (r: Value)
    ensures
        r == *v,
;

/// `std::time::Duration::clone` (a `Copy` type): the copy is the same
/// duration.
pub assume_specification[ <Duration as Clone>::clone ](d: &Duration) -> (r: Duration)
    ensures
        r == *d,
;

/// The 16 bytes of a UUID, most significant first, as
/// `uuid::Uuid::as_bytes` gives them.
pub uninterp spec fn uuid_bytes(u: Uuid) -> Seq<u8>;

/// A version 7 UUID of the RFC 9562 variant: the high nibble of byte 6
/// is 7 and the two high bits of byte 8 are `10`.
pub open spec fn uuid_is_v7(u: Uuid) -> bool {
    let b = uuid_bytes(u);
    &&& b.len() == 16
    &&& b[6] / 16 == 7
    &&& b[8] / 64 == 2
}

/// The Unix milliseconds that `uuid::Uuid::new_v7` records for a time of
/// `secs` seconds and `nanos` nanoseconds (saturating at `u64::MAX`).
pub open spec fn v7_millis(secs: u64, nanos: u32) -> int {
    let m = if secs * 1000 > u64::MAX {
        u64::MAX as int
    } else {
        secs * 1000
    };
    let t = m + nanos / 1_000_000;
    if t > u64::MAX {
        u64::MAX as int
    } else {
        t
    }
}

/// The 48-bit timestamp field of a UUID's bytes: bytes 0 to 5, big-endian.
pub open spec fn uuid_millis_field(b: Seq<u8>) -> int {
    ((((b[0] * 256 + b[1]) * 256 + b[2]) * 256 + b[3]) * 256 + b[4]) * 256 + b[5]
}

/// Calls `uuid::Uuid::new_v7` on `uuid::Timestamp::from_unix_time(secs,
/// nanos, 0, 0)`, a time without a counter: a version 7 UUID of the
/// RFC 9562 variant whose 48-bit timestamp field holds the milliseconds
/// of `secs` and `nanos` (modulo 2^48); its other bits are random, so
/// nothing more is stated. It panics only when the operating system's
/// random source fails (`getrandom`), which no argument can rule out.
#[verifier::external_body]
fn uuid_v7_at(secs: u64, nanos: u32) -> (r: Uuid)
    ensures
        uuid_bytes(r).len() == 16,
        uuid_bytes(r)[6] / 16 == 7,
        uuid_bytes(r)[8] / 64 == 2,
        uuid_millis_field(uuid_bytes(r)) == v7_millis(secs, nanos) % 0x1_0000_0000_0000,
{
    Uuid::new_v7(uuid::Timestamp::from_unix_time(secs, nanos, 0, 0))
}

/// A fresh version 7 UUID stamped with the system clock; a clock that
/// reads before the Unix epoch stamps the epoch itself.
fn fresh_uuid_v7() -> (r: Uuid)
    ensures
        uuid_is_v7(r),
{
    match system_clock_reading() {
        Ok((secs, nanos)) => uuid_v7_at(secs, nanos),
        Err(_) => uuid_v7_at(0, 0),
    }
}

// ===========================================================================
// Identity types
// ===========================================================================

/// Unique identifier of a message (a time-ordered UUID).
#[derive(Debug, Clone, Copy, PartialEq, Eq, Hash, PartialOrd, Ord)]
pub struct MessageId(pub Uuid);

impl MessageId {
    /// A fresh identifier: a new version 7 UUID.
    pub fn new() -> (r: Self)
        ensures
            uuid_is_v7(r.0),
    {
        MessageId(fresh_uuid_v7())
    }

    /// The inner UUID.
    pub fn as_uuid(&self) -> (r: Uuid)
        ensures
            r == self.0,
    {
        self.0
    }
}

/// Links a response (or error) to the request that caused it.
#[derive(Debug, Clone, Copy, PartialEq, Eq, Hash)]
pub struct CorrelationId(pub Uuid);

impl CorrelationId {
    /// The correlation id of a request: the request's own UUID, since a
    /// response correlates one to one with its request.
    pub fn for_request(request: &MessageId) -> (r: Self)
        ensures
            r.0 == request.0,
    {
        CorrelationId(request.0)
    }

    /// A fresh correlation id: a new version 7 UUID.
    pub fn new() -> (r: Self)
        ensures
            uuid_is_v7(r.0),
    {
        CorrelationId(fresh_uuid_v7())
    }
}

/// Links an event to the command that caused it.
#[derive(Debug, Clone, Copy, PartialEq, Eq, Hash)]
pub struct CausationId(pub Uuid);

impl CausationId {
    /// A fresh causation id: a new version 7 UUID.
    pub fn new() -> (r: Self)
        ensures
            uuid_is_v7(r.0),
    {
        CausationId(fresh_uuid_v7())
    }
}

/// Trace identifier for distributed tracing.
#[derive(Debug, Clone, Copy, PartialEq, Eq, Hash)]
pub struct TraceId(pub Uuid);

impl TraceId {
    /// A fresh trace id: a new version 7 UUID.
    pub fn new() -> (r: Self)
        ensures
            uuid_is_v7(r.0),
    {
        TraceId(fresh_uuid_v7())
    }
}

// ===========================================================================
// Operation, format, payload, metadata
// ===========================================================================

/// The verb of a message.
#[derive(Debug, Clone, Copy, PartialEq, Eq, Hash, Structural)]
pub enum Operation {
    /// A read-only query against a resource.
    Query,
    /// A side-effectful command.
    Command,
    /// An event that has occurred.
    Event,
    /// A long-lived stream subscription.
    Stream,
    /// The response to a query or command.
    Response,
    /// A telemetry reading.
    Telemetry,
    /// An error.
    Error,
}

/// The lowercase name of an operation.
pub open spec fn operation_name(op: Operation) -> Seq<char> {
    match op {
        Operation::Query => "query"@,
        Operation::Command => "command"@,
        Operation::Event => "event"@,
        Operation::Stream => "stream"@,
        Operation::Response => "response"@,
        Operation::Telemetry => "telemetry"@,
        Operation::Error => "error"@,
    }
}

impl Operation {
    /// The lowercase name of this operation.
    pub fn to_string(&self) -> (s: String)
        ensures
            s@ == operation_name(*self),
    {
        match self {
            Operation::Query => String::from_str("query"),
            Operation::Command => String::from_str("command"),
            Operation::Event => String::from_str("event"),
            Operation::Stream => String::from_str("stream"),
            Operation::Response => String::from_str("response"),
            Operation::Telemetry => String::from_str("telemetry"),
            Operation::Error => String::from_str("error"),
        }
    }
}

/// The serialisation format of a payload.
#[derive(Debug, Clone, PartialEq, Eq, Hash)]
pub enum FormatTag {
    /// JSON.
    Json,
    /// Bincode.
    Bincode,
    /// Postcard.
    Postcard,
    /// A custom format identified by name.
    Custom(String),
}

/// The display text of a format tag.
pub open spec fn format_tag_text(t: FormatTag) -> Seq<char> {
    match t {
        FormatTag::Json => "json"@,
        FormatTag::Bincode => "bincode"@,
        FormatTag::Postcard => "postcard"@,
        FormatTag::Custom(name) => "custom:"@ + name@,
    }
}

/// Two format tags are the same tag (custom names compared by text).
pub open spec fn same_format(a: FormatTag, b: FormatTag) -> bool {
    match (a, b) {
        (FormatTag::Json, FormatTag::Json) => true,
        (FormatTag::Bincode, FormatTag::Bincode) => true,
        (FormatTag::Postcard, FormatTag::Postcard) => true,
        (FormatTag::Custom(x), FormatTag::Custom(y)) => x@ == y@,
        _ => false,
    }
}

impl FormatTag {
    /// The display text of this tag: `json`, `bincode`, `postcard` or
    /// `custom:<name>`.
    pub fn to_string(&self) -> (s: String)
        ensures
            s@ == format_tag_text(*self),
    {
        match self {
            FormatTag::Json => String::from_str("json"),
            FormatTag::Bincode => String::from_str("bincode"),
            FormatTag::Postcard => String::from_str("postcard"),
            FormatTag::Custom(name) => {
                let mut s = String::from_str("custom:");
                s.append(name.as_str());
                s
            },
        }
    }

    /// Whether two tags are the same tag.
    pub fn same_as(&self, other: &FormatTag) -> (r: bool)
        ensures
            r == same_format(*self, *other),
    {
        match (self, other) {
            (FormatTag::Json, FormatTag::Json) => true,
            (FormatTag::Bincode, FormatTag::Bincode) => true,
            (FormatTag::Postcard, FormatTag::Postcard) => true,
            (FormatTag::Custom(x), FormatTag::Custom(y)) => *x == *y,
            _ => false,
        }
    }
}

/// Explicitly typed payload of a message.
#[derive(Debug, Clone, PartialEq)]
pub enum Payload {
    /// JSON payload.
    Json(Value),
    /// Binary payload with an explicit format tag.
    Bytes(Vec<u8>, FormatTag),
    /// No payload body.
    Unit,
}

/// Auth principal carried in metadata and contexts.
#[derive(Debug, Clone, PartialEq, Eq)]
pub struct Principal {
    /// Principal identifier.
    pub id: String,
    /// Scopes granted to this principal.
    pub scopes: Vec<String>,
}

/// Key-value bag carried on every message.
#[derive(Debug, Clone, PartialEq)]
pub struct Metadata {
    /// Correlation id.
    pub correlation_id: Option<CorrelationId>,
    /// Causation id.
    pub causation_id: Option<CausationId>,
    /// Trace id.
    pub trace_id: Option<TraceId>,
    /// Auth principal.
    pub auth_principal: Option<Principal>,
    /// Optional explicit format hint.
    pub format: Option<FormatTag>,
    /// Extension keys, in key order.
    pub extensions: BTreeMap<String, Value>,
}

impl Metadata {
    /// Metadata with no named field set and no extension.
    pub fn new() -> (r: Self)
        ensures
            r.correlation_id is None,
            r.causation_id is None,
            r.trace_id is None,
            r.auth_principal is None,
            r.format is None,
            r.extensions@.len() == 0,
    {
        Metadata {
            correlation_id: None,
            causation_id: None,
            trace_id: None,
            auth_principal: None,
            format: None,
            extensions: BTreeMap::new(),
        }
    }

    /// Sets the correlation id.
    pub fn with_correlation(self, id: CorrelationId) -> (r: Self)
        ensures
            r == (Metadata { correlation_id: Some(id), ..self }),
    {
        Metadata { correlation_id: Some(id), ..self }
    }

    /// Sets the causation id.
    pub fn with_causation(self, id: CausationId) -> (r: Self)
        ensures
            r == (Metadata { causation_id: Some(id), ..self }),
    {
        Metadata { causation_id: Some(id), ..self }
    }

    /// Sets the trace id.
    pub fn with_trace(self, id: TraceId) -> (r: Self)
        ensures
            r == (Metadata { trace_id: Some(id), ..self }),
    {
        Metadata { trace_id: Some(id), ..self }
    }

    /// Sets extension `key` to `value`, replacing an earlier value of the
    /// key; the named fields are kept.
    pub fn with_extension(self, key: String, value: Value) -> (r: Self)
        ensures
            r.correlation_id == self.correlation_id,
            r.causation_id == self.causation_id,
            r.trace_id == self.trace_id,
            r.auth_principal == self.auth_principal,
            r.format == self.format,
            vstd::laws_cmp::obeys_cmp::<String>() ==> r.extensions@ == self.extensions@.insert(
                key,
                value,
            ),
    {
        let mut m = self;
        m.extensions.insert(key, value);
        m
    }
}

// ===========================================================================
// Timestamp + Deadline
// ===========================================================================

/// Whether a timestamp is monotonic or wall-clock.
#[derive(Debug, Clone, Copy, PartialEq, Eq, Hash, Structural)]
pub enum TimestampKind {
    /// Monotonic: safe for ordering.
    Monotonic,
    /// Wall-clock: safe for cross-process correlation.
    WallClock,
}

/// Timestamp on every message, tagged with its kind.
#[derive(Debug, Clone, Copy, PartialEq, Eq, Hash, Structural)]
pub struct Timestamp {
    /// Whether this is monotonic or wall-clock.
    pub kind: TimestampKind,
    /// Nanoseconds since the epoch (wall) or process start (monotonic).
    pub nanos_since_epoch: i64,
}

impl Timestamp {
    /// A timestamp from its kind and nanoseconds.
    pub fn new(kind: TimestampKind, nanos_since_epoch: i64) -> (r: Self)
        ensures
            r.kind == kind,
            r.nanos_since_epoch == nanos_since_epoch,
    {
        Timestamp { kind, nanos_since_epoch }
    }

    /// A timestamp of kind `kind` at the nanoseconds of a system clock
    /// reading (see [`reading_nanos`]).
    pub fn from_clock_reading(kind: TimestampKind, reading: Result<(u64, u32), (u64, u32)>) -> (r:
        Self)
        ensures
            r.kind == kind,
            r.nanos_since_epoch == reading_nanos(reading),
    {
        let nanos: i64 = match reading {
            Ok((secs, sub)) => {
                let t: u128 = (secs as u128) * 1_000_000_000 + (sub as u128);
                if t > 0x7fff_ffff_ffff_ffff {
                    i64::MAX
                } else {
                    t as i64
                }
            },
            Err((secs, sub)) => {
                let t: u128 = (secs as u128) * 1_000_000_000 + (sub as u128);
                if t >= 0x8000_0000_0000_0000 {
                    i64::MIN
                } else {
                    -(t as i64)
                }
            },
        };
        Timestamp { kind, nanos_since_epoch: nanos }
    }

    /// The current monotonic timestamp, best effort. std gives no reading
    /// of its monotonic clock against a fixed origin and the library keeps
    /// no process-wide start time, so the nanoseconds are read from the
    /// system clock, measured from the Unix epoch.
    pub fn now_monotonic() -> (r: Self)
        ensures
            r.kind == TimestampKind::Monotonic,
    {
        Timestamp::from_clock_reading(TimestampKind::Monotonic, system_clock_reading())
    }

    /// The current wall-clock timestamp: the system clock's nanoseconds
    /// since the Unix epoch (negative before it).
    pub fn now_wall_clock() -> (r: Self)
        ensures
            r.kind == TimestampKind::WallClock,
    {
        Timestamp::from_clock_reading(TimestampKind::WallClock, system_clock_reading())
    }
}

/// The signed nanoseconds of a system clock reading (seconds and
/// nanoseconds after the Unix epoch, or before it), saturated to the
/// `i64` range.
pub open spec fn reading_nanos(reading: Result<(u64, u32), (u64, u32)>) -> i64 {
    match reading {
        Ok((secs, sub)) => {
            let t = secs as int * 1_000_000_000 + sub as int;
            if t > i64::MAX {
                i64::MAX
            } else {
                t as i64
            }
        },
        Err((secs, sub)) => {
            let t = -(secs as int * 1_000_000_000 + sub as int);
            if t < i64::MIN {
                i64::MIN
            } else {
                t as i64
            }
        },
    }
}

/// Reads the system clock with `std::time::SystemTime::now` and measures
/// it from `UNIX_EPOCH` (`SystemTime::duration_since`): the whole seconds
/// and the nanoseconds of the fraction, after the epoch (`Ok`) or before
/// it (`Err`). The reading depends on the clock, so only what holds of
/// every reading is stated: the fraction is under one second, as
/// `Duration::subsec_nanos` documents.
#[verifier::external_body]
fn system_clock_reading() -> (r: Result<(u64, u32), (u64, u32)>)
    ensures
        match r {
            Ok((_, sub)) => sub < 1_000_000_000,
            Err((_, sub)) => sub < 1_000_000_000,
        },
{
    match std::time::SystemTime::now().duration_since(std::time::UNIX_EPOCH) {
        Ok(d) => Ok((d.as_secs(), d.subsec_nanos())),
        Err(e) => Err((e.duration().as_secs(), e.duration().subsec_nanos())),
    }
}

/// Absolute deadline for a query resolution or command dispatch.
#[derive(Debug, Clone, Copy, PartialEq, Eq, Hash, Structural)]
pub struct Deadline {
    /// Whether this is monotonic or wall-clock.
    pub kind: TimestampKind,
    /// Absolute nanoseconds at which the deadline expires.
    pub nanos_since_epoch: i64,
}

impl Deadline {
    /// A deadline from its kind and nanoseconds.
    pub fn new(kind: TimestampKind, nanos_since_epoch: i64) -> (r: Self)
        ensures
            r.kind == kind,
            r.nanos_since_epoch == nanos_since_epoch,
    {
        Deadline { kind, nanos_since_epoch }
    }

    /// Whether the deadline has expired at `now`: same kind of clock, and
    /// the deadline is not after `now`.
    pub fn is_expired(&self, now: &Timestamp) -> (r: bool)
        ensures
            r == expired_at(*self, *now),
    {
        self.kind == now.kind && self.nanos_since_epoch <= now.nanos_since_epoch
    }
}

/// Deadline `d` has expired at `now`: the same kind of clock, and `d` not
/// after `now`.
pub open spec fn expired_at(d: Deadline, now: Timestamp) -> bool {
    d.kind == now.kind && d.nanos_since_epoch <= now.nanos_since_epoch
}

/// A deadline that has expired stays expired at every later time on the
/// same clock.
pub proof fn lemma_expiry_persists(d: Deadline, earlier: Timestamp, later: Timestamp)
    requires
        expired_at(d, earlier),
        later.kind == earlier.kind,
        earlier.nanos_since_epoch <= later.nanos_since_epoch,
    ensures
        expired_at(d, later),
{
}

// ===========================================================================
// Selection / Projection
// ===========================================================================

/// Comparison operator of a selection predicate.
#[derive(Debug, Clone, Copy, PartialEq, Eq, Hash, Structural)]
pub enum Comparison {
    /// Equal.
    Eq,
    /// Not equal.
    Ne,
    /// Less than.
    Lt,
    /// Less than or equal.
    Le,
    /// Greater than.
    Gt,
    /// Greater than or equal.
    Ge,
    /// In a set.
    In,
    /// Contains a value.
    Contains,
}

/// A boolean predicate tree over resource fields.
#[derive(Debug, PartialEq)]
pub enum Predicate {
    /// A field comparison: `path op value`.
    Field {
        /// Path to the field being compared.
        path: FieldPath,
        /// Comparison operator.
        op: Comparison,
        /// Value to compare against.
        value: Value,
    },
    /// Conjunction of sub-predicates.
    And(Vec<Predicate>),
    /// Disjunction of sub-predicates.
    Or(Vec<Predicate>),
    /// Negation of a sub-predicate.
    Not(Box<Predicate>),
}

/// Which entities of a resource a query selects.
#[derive(Debug, PartialEq)]
pub enum Selection {
    /// All entities of the resource.
    All,
    /// The entities that satisfy a predicate.
    Filter(Predicate),
}

impl Selection {
    /// The selection of all entities.
    pub fn all() -> (r: Self)
        ensures
            r is All,
    {
        Selection::All
    }

    /// A filtered selection.
    pub fn filter(p: Predicate) -> (r: Self)
        ensures
            r == Selection::Filter(p),
    {
        Selection::Filter(p)
    }
}

impl Default for Selection {
    fn default() -> (r: Self)
        ensures
            r is All,
    {
        Selection::All
    }
}

/// Field projection of a query's response. The kept and the excluded
/// fields are mutually exclusive; both empty means all fields.
#[derive(Debug, Clone, PartialEq, Eq)]
pub struct Projection {
    /// Fields to keep.
    pub included: Vec<FieldPath>,
    /// Fields to exclude.
    pub exclude: Vec<FieldPath>,
}

impl Projection {
    /// The empty projection (all fields).
    pub fn new() -> (r: Self)
        ensures
            r.included@.len() == 0,
            r.exclude@.len() == 0,
    {
        Projection { included: Vec::new(), exclude: Vec::new() }
    }

    /// Adds a path to keep.
    pub fn include_path(self, path: FieldPath) -> (r: Self)
        ensures
            r.included@ == self.included@.push(path),
            r.exclude@ == self.exclude@,
    {
        let mut p = self;
        p.included.push(path);
        p
    }

    /// Adds an exclude path.
    pub fn exclude(self, path: FieldPath) -> (r: Self)
        ensures
            r.exclude@ == self.exclude@.push(path),
            r.included@ == self.included@,
    {
        let mut p = self;
        p.exclude.push(path);
        p
    }

    /// Whether the kept and the excluded paths are not both non-empty.
    pub fn is_valid(&self) -> (r: bool)
        ensures
            r == (self.included@.len() == 0 || self.exclude@.len() == 0),
    {
        self.included.len() == 0 || self.exclude.len() == 0
    }
}

impl Default for Projection {
    fn default() -> (r: Self)
        ensures
            r.included@.len() == 0,
            r.exclude@.len() == 0,
    {
        Projection::new()
    }
}

// ===========================================================================
// Resource
// ===========================================================================

/// A named, addressable entity, identified by a subject.
#[derive(Debug, Clone, PartialEq, Eq, Hash)]
pub struct Resource {
    /// The subject identifying this resource.
    pub subject: Subject,
}

impl Resource {
    /// The resource of a subject.
    pub fn from_subject(subject: Subject) -> (r: Self)
        ensures
            r.subject == subject,
    {
        Resource { subject }
    }

    /// Parses a resource from its subject's dot-joined text.
    pub fn from_str(s: &str) -> (r: Result<Self, SubjectError>)
        ensures
            match r {
                Ok(x) => parse_subject(s@) == Ok::<Seq<Seq<char>>, SubjectErrorView>(x.subject@),
                Err(e) => parse_subject(s@) == Err::<Seq<Seq<char>>, SubjectErrorView>(e@),
            },
    {
        match Subject::from_str(s) {
            Ok(subject) => Ok(Resource { subject }),
            Err(e) => Err(e),
        }
    }
}

// ===========================================================================
// CachePolicy
// ===========================================================================

/// A tier of the cache stack.
#[derive(Debug, Clone, Copy, PartialEq, Eq, Hash, Structural)]
pub enum CacheTier {
    /// L1: process-local, lowest latency.
    L1,
    /// L2: process-local.
    L2,
    /// L3: distributed.
    L3,
    /// L4: authoritative, persistent.
    L4,
}

/// The name of a cache tier.
pub open spec fn cache_tier_name(t: CacheTier) -> Seq<char> {
    match t {
        CacheTier::L1 => "L1"@,
        CacheTier::L2 => "L2"@,
        CacheTier::L3 => "L3"@,
        CacheTier::L4 => "L4"@,
    }
}

impl CacheTier {
    /// The name of this tier, as it is debug-printed.
    pub fn name(&self) -> (s: String)
        ensures
            s@ == cache_tier_name(*self),
    {
        match self {
            CacheTier::L1 => String::from_str("L1"),
            CacheTier::L2 => String::from_str("L2"),
            CacheTier::L3 => String::from_str("L3"),
            CacheTier::L4 => String::from_str("L4"),
        }
    }
}

/// When the cache should invalidate an entry.
#[derive(Debug, Clone, PartialEq, Eq, Hash)]
pub enum InvalidationHint {
    /// When a message on this subject pattern is published.
    OnSubjectChange(SubjectPattern),
    /// After this time-to-live.
    AfterTtl(Duration),
    /// Only through explicit invalidation.
    Explicit,
}

/// How a query result is cached.
#[derive(Debug, Clone, PartialEq)]
pub struct CachePolicy {
    /// If `false`, no cache tier is read or written.
    pub enabled: bool,
    /// Explicit time-to-live; `None` defers to the tier default.
    pub ttl: Option<Duration>,
    /// Preferred tier; `None` lets the tiers decide.
    pub tier_hint: Option<CacheTier>,
    /// If `true`, skip the cache read but still write through.
    pub bypass: bool,
    /// Optional invalidation hint.
    pub invalidation_hint: Option<InvalidationHint>,
}

impl CachePolicy {
    /// The default policy: enabled, no TTL, no tier hint, no bypass, no
    /// invalidation hint.
    pub fn new() -> (r: Self)
        ensures
            r.enabled,
            r.ttl is None,
            r.tier_hint is None,
            !r.bypass,
            r.invalidation_hint is None,
    {
        CachePolicy { enabled: true, ttl: None, tier_hint: None, bypass: false, invalidation_hint: None }
    }

    /// A policy that disables all caching.
    pub fn disabled() -> (r: Self)
        ensures
            !r.enabled,
            r.ttl is None,
            r.tier_hint is None,
            !r.bypass,
            r.invalidation_hint is None,
    {
        CachePolicy {
            enabled: false,
            ttl: None,
            tier_hint: None,
            bypass: false,
            invalidation_hint: None,
        }
    }

    /// Sets the TTL.
    pub fn with_ttl(self, ttl: Duration) -> (r: Self)
        ensures
            r == (CachePolicy { ttl: Some(ttl), ..self }),
    {
        CachePolicy { ttl: Some(ttl), ..self }
    }

    /// Sets the tier hint.
    pub fn with_tier(self, tier: CacheTier) -> (r: Self)
        ensures
            r == (CachePolicy { tier_hint: Some(tier), ..self }),
    {
        CachePolicy { tier_hint: Some(tier), ..self }
    }

    /// Sets the bypass flag.
    pub fn with_bypass(self, bypass: bool) -> (r: Self)
        ensures
            r == (CachePolicy { bypass, ..self }),
    {
        CachePolicy { bypass, ..self }
    }
}

impl Default for CachePolicy {
    fn default() -> (r: Self)
        ensures
            r.enabled,
            r.ttl is None,
            r.tier_hint is None,
            !r.bypass,
            r.invalidation_hint is None,
    {
        CachePolicy::new()
    }
}

// ===========================================================================
// Cancellation
// ===========================================================================

/// Cancellation signal propagated through a resolution.
#[derive(Debug, Clone, PartialEq, Eq)]
pub struct Cancellation {
    cancelled: bool,
}

impl Cancellation {
    /// Whether this signal has been cancelled, as a value.
    pub closed spec fn spec_cancelled(&self) -> bool {
        self.cancelled
    }

    /// The signal this one becomes when cancelled.
    pub closed spec fn spec_cancel(self) -> Cancellation {
        Cancellation { cancelled: true }
    }

    /// A signal that is not cancelled.
    pub fn new() -> (r: Self)
        ensures
            !r.spec_cancelled(),
    {
        Cancellation { cancelled: false }
    }

    /// Whether this signal has been cancelled.
    pub fn is_cancelled(&self) -> (r: bool)
        ensures
            r == self.spec_cancelled(),
    {
        self.cancelled
    }

    /// Cancels this signal; it stays cancelled. Cancelling a cancelled
    /// signal leaves it as it is.
    pub fn cancel(&mut self)
        ensures
            *final(self) == old(self).spec_cancel(),
            final(self).spec_cancelled(),
            old(self).spec_cancelled() ==> *final(self) == *old(self),
    {
        self.cancelled = true;
    }
}

/// The signal `c` becomes after `k` calls of [`Cancellation::cancel`].
pub open spec fn cancelled_times(c: Cancellation, k: nat) -> Cancellation
    decreases k,
{
    if k == 0 {
        c
    } else {
        cancelled_times(c, (k - 1) as nat).spec_cancel()
    }
}

/// After `k` calls of `cancel`, a signal is cancelled exactly when it was
/// already or `k > 0`; every positive number of calls gives the same
/// signal. From [`Cancellation::new`], `is_cancelled` is `k > 0`.
pub proof fn lemma_cancelled_times(c: Cancellation, k: nat)
    ensures
        cancelled_times(c, k).spec_cancelled() == (c.spec_cancelled() || k > 0),
        k > 0 ==> cancelled_times(c, k) == cancelled_times(c, 1),
    decreases k,
{
    if k > 1 {
        lemma_cancelled_times(c, (k - 1) as nat);
    }
}

/// A signal is determined by whether it is cancelled: cancelling once and
/// cancelling twice give equal signals, as do any two cancelled signals.
pub proof fn lemma_cancellation_is_its_flag(a: Cancellation, b: Cancellation)
    ensures
        (a == b) <==> (a.spec_cancelled() == b.spec_cancelled()),
{
}

impl Default for Cancellation {
    fn default() -> (r: Self)
        ensures
            !r.spec_cancelled(),
    {
        Cancellation::new()
    }
}

// ===========================================================================
// Context, Query, Message
// ===========================================================================

/// Execution context of a resolution: deadline, principal, trace id,
/// cache policy and cancellation.
#[derive(Debug, Clone, PartialEq)]
pub struct Context {
    /// Absolute deadline.
    pub deadline: Option<Deadline>,
    /// Auth principal.
    pub principal: Option<Principal>,
    /// Trace id.
    pub trace_id: Option<TraceId>,
    /// Cache policy.
    pub cache_policy: CachePolicy,
    /// Cancellation signal.
    pub cancellation: Cancellation,
}

impl Context {
    /// A context with the default cache policy and nothing else set.
    pub fn new() -> (r: Self)
        ensures
            r.deadline is None,
            r.principal is None,
            r.trace_id is None,
            r.cache_policy.enabled,
            !r.cache_policy.bypass,
            r.cache_policy.ttl is None,
            r.cache_policy.tier_hint is None,
            r.cache_policy.invalidation_hint is None,
            !r.cancellation.spec_cancelled(),
    {
        Context {
            deadline: None,
            principal: None,
            trace_id: None,
            cache_policy: CachePolicy::new(),
            cancellation: Cancellation::new(),
        }
    }

    /// Sets the deadline.
    pub fn with_deadline(self, d: Deadline) -> (r: Self)
        ensures
            r == (Context { deadline: Some(d), ..self }),
    {
        Context { deadline: Some(d), ..self }
    }

    /// Sets the principal.
    pub fn with_principal(self, p: Principal) -> (r: Self)
        ensures
            r == (Context { principal: Some(p), ..self }),
    {
        Context { principal: Some(p), ..self }
    }

    /// Sets the trace id.
    pub fn with_trace(self, t: TraceId) -> (r: Self)
        ensures
            r == (Context { trace_id: Some(t), ..self }),
    {
        Context { trace_id: Some(t), ..self }
    }

    /// Sets the cache policy.
    pub fn with_cache_policy(self, p: CachePolicy) -> (r: Self)
        ensures
            r == (Context { cache_policy: p, ..self }),
    {
        Context { cache_policy: p, ..self }
    }
}

/// A read-only, side-effect-free request against a resource.
#[derive(Debug, PartialEq)]
pub struct Query {
    /// The target.
    pub resource: Resource,
    /// Which entities are selected.
    pub selection: Selection,
    /// Named arguments to the resolver.
    pub arguments: Option<Value>,
    /// Which fields are returned.
    pub projection: Option<Projection>,
    /// Execution context.
    pub context: Context,
    /// Override of the context's cache policy.
    pub cache_policy: Option<CachePolicy>,
    /// Override of the context's deadline.
    pub deadline: Option<Deadline>,
}

impl Query {
    /// A query of all entities of `resource`, with the default context.
    pub fn new(resource: Resource) -> (r: Self)
        ensures
            r.resource == resource,
            r.selection is All,
            r.arguments is None,
            r.projection is None,
            r.cache_policy is None,
            r.deadline is None,
            r.context.deadline is None,
            r.context.cache_policy.enabled,
    {
        Query {
            resource,
            selection: Selection::All,
            arguments: None,
            projection: None,
            context: Context::new(),
            cache_policy: None,
            deadline: None,
        }
    }

    /// Sets the selection.
    pub fn with_selection(self, s: Selection) -> (r: Self)
        ensures
            r == (Query { selection: s, ..self }),
    {
        Query { selection: s, ..self }
    }

    /// Sets the projection.
    pub fn with_projection(self, p: Projection) -> (r: Self)
        ensures
            r == (Query { projection: Some(p), ..self }),
    {
        Query { projection: Some(p), ..self }
    }

    /// Sets the arguments.
    pub fn with_arguments(self, args: Value) -> (r: Self)
        ensures
            r == (Query { arguments: Some(args), ..self }),
    {
        Query { arguments: Some(args), ..self }
    }
}

/// The fundamental primitive: every request, command, event, stream,
/// response, telemetry reading and error is carried by a message.
#[derive(Debug, Clone, PartialEq)]
pub struct Message {
    /// Unique identifier.
    pub id: MessageId,
    /// Timestamp.
    pub timestamp: Timestamp,
    /// Routing key.
    pub subject: Subject,
    /// Verb.
    pub operation: Operation,
    /// Payload.
    pub payload: Payload,
    /// Metadata.
    pub metadata: Metadata,
}

impl Message {
    /// A message on the subject spelled by `subject_str`, with a fresh
    /// id, a monotonic timestamp, a unit payload and empty metadata.
    pub fn new(subject_str: &str, operation: Operation) -> (r: Result<Self, SubjectError>)
        ensures
            match r {
                Ok(m) => {
                    &&& parse_subject(subject_str@) == Ok::<Seq<Seq<char>>, SubjectErrorView>(
                        m.subject@,
                    )
                    &&& m.operation == operation
                    &&& m.payload is Unit
                    &&& m.timestamp.kind == TimestampKind::Monotonic
                    &&& m.metadata.correlation_id is None
                    &&& m.metadata.extensions@.len() == 0
                },
                Err(e) => parse_subject(subject_str@) == Err::<Seq<Seq<char>>, SubjectErrorView>(
                    e@,
                ),
            },
    {
        let subject = match Subject::from_str(subject_str) {
            Ok(s) => s,
            Err(e) => return Err(e),
        };
        Ok(Message {
            id: MessageId::new(),
            timestamp: Timestamp::now_monotonic(),
            subject,
            operation,
            payload: Payload::Unit,
            metadata: Metadata::new(),
        })
    }
}


} // verus!
