//! The authoritative storage tier's data model and query semantics: keys,
//! values, queries, result pages, the storage error and its mapping, and
//! the selection a query makes over the entries a backend scanned.
use vstd::prelude::*;
use vstd::string::*;

use crate::error::{plain_error, Error, ErrorCode};
use crate::model::FormatTag;
use crate::subject::{
    parse_subject, pattern_matches, PatternSegmentView, Subject, SubjectErrorView, SubjectPattern,
};
use crate::text::{contains_str, contains_text};

verus! {

/// Opaque, stable storage key.
#[derive(Debug, Clone, PartialEq, Eq, Hash)]
pub struct StorageKey(pub String);

impl StorageKey {
    /// A storage key from its text.
    pub fn new(s: &str) -> (r: Self)
        ensures
            r.0@ == s@,
    {
        StorageKey(String::from_str(s))
    }

    /// The key's text.
    pub fn as_str(&self) -> (r: &str)
        ensures
            r@ == self.0@,
    {
        self.0.as_str()
    }
}

/// A stored value: raw bytes and the format they are encoded in.
#[derive(Debug, Clone, PartialEq, Eq, Hash)]
pub struct StorageValue {
    /// The encoded bytes.
    pub bytes: Vec<u8>,
    /// The encoding of `bytes`.
    pub format: FormatTag,
}

impl StorageValue {
    /// A value from bytes and a format tag.
    pub fn new(bytes: Vec<u8>, format: FormatTag) -> (r: Self)
        ensures
            r.bytes@ == bytes@,
            r.format == format,
    {
        StorageValue { bytes, format }
    }
}

/// The target value of a predicate query, as the query's `value` member
/// gave it.
#[derive(Debug, Clone, PartialEq)]
pub enum PredicateValue {
    /// A string: the key must contain it.
    Text(String),
    /// A number, in its decimal text: the key must contain that text.
    Number(String),
    /// Absent or of another kind: no constraint.
    Any,
}

/// A predicate query: the `field` the key must contain, and a target value.
#[derive(Debug, Clone, PartialEq)]
pub struct PredicateQuery {
    /// The field text; a query without one is malformed.
    pub field: Option<String>,
    /// The target value.
    pub value: PredicateValue,
}

/// A query against storage: exact key, subject-pattern scan, or predicate
/// scan.
#[derive(Debug, Clone, PartialEq)]
pub enum StorageQuery {
    /// The entry with exactly this key.
    ByKey(StorageKey),
    /// The entries whose key is a subject matched by the pattern.
    BySubjectPattern(SubjectPattern),
    /// The entries whose key satisfies the predicate.
    ByPredicate(PredicateQuery),
}

/// A page of query results.
#[derive(Debug, Clone, PartialEq)]
pub struct StorageResultSet {
    /// The matched pairs of this page.
    pub entries: Vec<(StorageKey, StorageValue)>,
    /// Whether more results follow.
    pub has_more: bool,
    /// Cursor of the next page; `None` when exhausted.
    pub cursor: Option<String>,
}

impl StorageResultSet {
    /// The empty, exhausted result set.
    pub fn empty() -> (r: Self)
        ensures
            r.entries@.len() == 0,
            !r.has_more,
            r.cursor is None,
    {
        StorageResultSet { entries: Vec::new(), has_more: false, cursor: None }
    }

    /// A complete, single-page result set holding `entries`.
    pub fn complete(entries: Vec<(StorageKey, StorageValue)>) -> (r: Self)
        ensures
            r.entries@ == entries@,
            !r.has_more,
            r.cursor is None,
    {
        StorageResultSet { entries, has_more: false, cursor: None }
    }

    /// The result of a direct key lookup: the pair when the key was found,
    /// nothing otherwise.
    pub fn from_lookup(key: StorageKey, found: Option<StorageValue>) -> (r: Self)
        ensures
            match found {
                Some(v) => r.entries@ == seq![(key, v)],
                None => r.entries@.len() == 0,
            },
            !r.has_more,
            r.cursor is None,
    {
        match found {
            Some(v) => {
                let mut entries: Vec<(StorageKey, StorageValue)> = Vec::new();
                entries.push((key, v));
                StorageResultSet::complete(entries)
            },
            None => StorageResultSet::empty(),
        }
    }

    /// Whether this result set holds no entries.
    pub fn is_empty(&self) -> (r: bool)
        ensures
            r == (self.entries@.len() == 0),
    {
        self.entries.len() == 0
    }
}

/// Errors raised by storage operations.
#[derive(Debug, Clone, PartialEq, Eq)]
pub enum StorageError {
    /// The key was not found.
    NotFound,
    /// An entry with the key already exists.
    AlreadyExists,
    /// The backend could not be reached.
    ConnectionFailed,
    /// The operation did not complete before its deadline.
    Timeout,
    /// A key or value could not be encoded or decoded.
    SerializationError(String),
    /// A predicate query could not be executed.
    QueryError(String),
    /// An unexpected backend failure.
    InternalError,
}

/// The message of a storage error.
pub open spec fn storage_error_message(e: StorageError) -> Seq<char> {
    match e {
        StorageError::NotFound => "storage key not found"@,
        StorageError::AlreadyExists => "storage key already exists"@,
        StorageError::ConnectionFailed => "storage connection failed"@,
        StorageError::Timeout => "storage operation timed out"@,
        StorageError::SerializationError(m) => "storage serialization error: "@ + m@,
        StorageError::QueryError(m) => "storage query error: "@ + m@,
        StorageError::InternalError => "storage internal error"@,
    }
}

impl StorageError {
    /// The message of this error.
    pub fn to_string(&self) -> (s: String)
        ensures
            s@ == storage_error_message(*self),
    {
        match self {
            StorageError::NotFound => String::from_str("storage key not found"),
            StorageError::AlreadyExists => String::from_str("storage key already exists"),
            StorageError::ConnectionFailed => String::from_str("storage connection failed"),
            StorageError::Timeout => String::from_str("storage operation timed out"),
            StorageError::SerializationError(m) => {
                let mut s = String::from_str("storage serialization error: ");
                s.append(m.as_str());
                s
            },
            StorageError::QueryError(m) => {
                let mut s = String::from_str("storage query error: ");
                s.append(m.as_str());
                s
            },
            StorageError::InternalError => String::from_str("storage internal error"),
        }
    }
}

/// The canonical error a storage error maps to: a missing or duplicate
/// key or a failed query is a resolver error, an encoding failure a
/// transport error, the rest internal errors; the message is the storage
/// error's.
pub open spec fn storage_error_maps(e: StorageError, r: Error) -> bool {
    plain_error(
        r,
        match e {
            StorageError::NotFound | StorageError::AlreadyExists | StorageError::QueryError(
                _,
            ) => ErrorCode::ResolverError,
            StorageError::SerializationError(_) => ErrorCode::TransportError,
            StorageError::ConnectionFailed | StorageError::Timeout
            | StorageError::InternalError => ErrorCode::InternalError,
        },
        storage_error_message(e),
    )
}

impl vstd::std_specs::convert::FromSpecImpl<StorageError> for Error {
    /// The conversion is stated by the `ensures` of `from` itself.
    open spec fn obeys_from_spec() -> bool {
        false
    }

    open spec fn from_spec(e: StorageError) -> Error {
        vstd::pervasive::arbitrary()
    }
}

impl From<StorageError> for Error {
    fn from(e: StorageError) -> (r: Error)
        ensures
            storage_error_maps(e, r),
    {
        let m = e.to_string();
        match e {
            StorageError::NotFound | StorageError::AlreadyExists | StorageError::QueryError(
                _,
            ) => Error::resolver_error(m.as_str()),
            StorageError::SerializationError(_) => Error::transport_error(m.as_str()),
            StorageError::ConnectionFailed | StorageError::Timeout
            | StorageError::InternalError => Error::internal_error(m.as_str()),
        }
    }
}

/// Read, write, delete and query access to a storage backend.
pub trait Storage {
    /// The value at `key`, if any.
    fn get(&self, key: &StorageKey) -> Result<Option<StorageValue>, StorageError>;

    /// Writes `value` at `key`, replacing an earlier value.
    fn put(&self, key: &StorageKey, value: StorageValue) -> Result<(), StorageError>;

    /// Removes the entry at `key`.
    fn delete(&self, key: &StorageKey) -> Result<(), StorageError>;

    /// Runs a query, returning a page of results.
    fn query(&self, q: &StorageQuery) -> Result<StorageResultSet, StorageError>;
}

/// Read-only access to storage, for query resolvers.
pub trait StorageReader {
    /// The value at `key`, if any.
    fn get(&self, key: &StorageKey) -> Result<Option<StorageValue>, StorageError>;

    /// Runs a query, returning a page of results.
    fn query(&self, q: &StorageQuery) -> Result<StorageResultSet, StorageError>;
}

/// Write-only access to storage, for ingest and persistence.
pub trait StorageWriter {
    /// Writes `value` at `key`, replacing an earlier value.
    fn put(&self, key: &StorageKey, value: StorageValue) -> Result<(), StorageError>;

    /// Removes the entry at `key`.
    fn delete(&self, key: &StorageKey) -> Result<(), StorageError>;
}

// ===========================================================================
// Query semantics
// ===========================================================================

/// The subject a storage key names, when its text parses as one.
pub fn subject_from_storage_key(key: &StorageKey) -> (r: Option<Subject>)
    ensures
        match r {
            Some(s) => parse_subject(key.0@) == Ok::<Seq<Seq<char>>, SubjectErrorView>(s@),
            None => parse_subject(key.0@) is Err,
        },
{
    match Subject::from_str(key.as_str()) {
        Ok(s) => Some(s),
        Err(_) => None,
    }
}

/// A key is selected by a pattern when its text parses as a subject that
/// the pattern matches.
pub open spec fn pattern_selects(p: Seq<PatternSegmentView>, key: Seq<char>) -> bool {
    match parse_subject(key) {
        Ok(c) => pattern_matches(p, c),
        Err(_) => false,
    }
}

/// A key satisfies a predicate when it contains the field text and, for a
/// string or number target, the target's text too.
pub open spec fn predicate_selects(field: Seq<char>, value: PredicateValue, key: Seq<char>) -> bool {
    contains_text(key, field) && match value {
        PredicateValue::Text(t) => contains_text(key, t@),
        PredicateValue::Number(t) => contains_text(key, t@),
        PredicateValue::Any => true,
    }
}

/// Whether `key` satisfies the predicate `field` / `value`.
pub fn predicate_matches(field: &str, value: &PredicateValue, key: &StorageKey) -> (r: bool)
    ensures
        r == predicate_selects(field@, *value, key.0@),
{
    if !contains_str(key.as_str(), field) {
        return false;
    }
    match value {
        PredicateValue::Text(t) => contains_str(key.as_str(), t.as_str()),
        PredicateValue::Number(t) => contains_str(key.as_str(), t.as_str()),
        PredicateValue::Any => true,
    }
}

/// A key satisfies a predicate exactly when the field text occurs in the
/// key's text and, for a string or number target, the target's text
/// (a number's decimal text) occurs in it too; any other target asks
/// only for the field.
pub proof fn lemma_predicate_selects_exactly(field: Seq<char>, value: PredicateValue, key: Seq<char>)
    ensures
        predicate_selects(field, value, key) <==> {
            &&& exists|i: int|
                0 <= i && i + field.len() <= key.len() && #[trigger] key.subrange(
                    i,
                    i + field.len(),
                ) == field
            &&& match value {
                PredicateValue::Text(t) => exists|j: int|
                    0 <= j && j + t@.len() <= key.len() && #[trigger] key.subrange(j, j + t@.len())
                        == t@,
                PredicateValue::Number(n) => exists|j: int|
                    0 <= j && j + n@.len() <= key.len() && #[trigger] key.subrange(j, j + n@.len())
                        == n@,
                PredicateValue::Any => true,
            }
        },
{
}

/// A predicate query keeps an entry exactly when it names a field whose
/// text occurs in the entry's key and, for a string or number target,
/// the target's text occurs in the key too; one without a field keeps
/// nothing.
pub proof fn lemma_predicate_query_keeps(pq: PredicateQuery, key: Seq<char>)
    ensures
        query_keeps(StorageQuery::ByPredicate(pq), key) <==> {
            &&& pq.field is Some
            &&& exists|i: int|
                0 <= i && i + pq.field->Some_0@.len() <= key.len() && #[trigger] key.subrange(
                    i,
                    i + pq.field->Some_0@.len(),
                ) == pq.field->Some_0@
            &&& match pq.value {
                PredicateValue::Text(t) => exists|j: int|
                    0 <= j && j + t@.len() <= key.len() && #[trigger] key.subrange(j, j + t@.len())
                        == t@,
                PredicateValue::Number(n) => exists|j: int|
                    0 <= j && j + n@.len() <= key.len() && #[trigger] key.subrange(j, j + n@.len())
                        == n@,
                PredicateValue::Any => true,
            }
        },
{
    if let Some(f) = pq.field {
        lemma_predicate_selects_exactly(f@, pq.value, key);
    }
}

/// Whether query `q` keeps the entry keyed `key`.
pub open spec fn query_keeps(q: StorageQuery, key: Seq<char>) -> bool {
    match q {
        StorageQuery::ByKey(k) => k.0@ == key,
        StorageQuery::BySubjectPattern(p) => pattern_selects(p@, key),
        StorageQuery::ByPredicate(pq) => match pq.field {
            Some(f) => predicate_selects(f@, pq.value, key),
            None => false,
        },
    }
}

/// A predicate scan decodes every value; the other scans decode only the
/// values they keep.
pub open spec fn query_decodes_all(q: StorageQuery) -> bool {
    q is ByPredicate
}

/// One entry as a backend scanned it: its key and value, each decoded or
/// the reason it could not be.
#[derive(Debug, PartialEq)]
pub struct ScannedEntry {
    /// The decoded key, or the decoding failure.
    pub key: Result<StorageKey, String>,
    /// The decoded value, or the decoding failure.
    pub value: Result<StorageValue, String>,
}

/// What scanning `s` in order for query `q` gives: the kept pairs, or the
/// first decoding failure met. A key is always decoded; a value when the
/// query decodes all values or keeps the entry.
pub open spec fn scan_result(q: StorageQuery, s: Seq<ScannedEntry>) -> Result<
    Seq<(StorageKey, StorageValue)>,
    StorageError,
>
    decreases s.len(),
{
    if s.len() == 0 {
        Ok(Seq::empty())
    } else {
        match scan_result(q, s.drop_last()) {
            Err(e) => Err(e),
            Ok(acc) => {
                let e = s.last();
                match e.key {
                    Err(m) => Err(StorageError::SerializationError(m)),
                    Ok(k) => {
                        let keep = query_keeps(q, k.0@);
                        if keep || query_decodes_all(q) {
                            match e.value {
                                Err(m) => Err(StorageError::SerializationError(m)),
                                Ok(v) => if keep {
                                    Ok(acc.push((k, v)))
                                } else {
                                    Ok(acc)
                                },
                            }
                        } else {
                            Ok(acc)
                        }
                    },
                }
            },
        }
    }
}

/// Once a scan has failed, scanning further entries keeps the failure.
proof fn lemma_scan_failure_persists(q: StorageQuery, s: Seq<ScannedEntry>, i: int)
    requires
        0 <= i <= s.len(),
        scan_result(q, s.take(i)) is Err,
    ensures
        scan_result(q, s) == scan_result(q, s.take(i)),
    decreases s.len() - i,
{
    if i < s.len() {
        assert(s.take(i + 1).drop_last() =~= s.take(i));
        lemma_scan_failure_persists(q, s, i + 1);
    } else {
        assert(s.take(i) =~= s);
    }
}

/// Every key and value of the scanned entries decoded.
pub open spec fn all_decoded(s: Seq<ScannedEntry>) -> bool {
    forall|i: int| 0 <= i < s.len() ==> (#[trigger] s[i]).key is Ok && s[i].value is Ok
}

/// Over entries that all decoded, a scan succeeds and keeps exactly the
/// entries the query keeps: each pair it returns is a scanned pair whose
/// key the query keeps, and each scanned pair whose key the query keeps
/// is returned.
pub proof fn lemma_scan_keeps_exactly(q: StorageQuery, s: Seq<ScannedEntry>)
    requires
        all_decoded(s),
    ensures
        scan_result(q, s) is Ok,
        forall|k: int|
            0 <= k < scan_result(q, s)->Ok_0.len() ==> query_keeps(
                q,
                (#[trigger] scan_result(q, s)->Ok_0[k]).0.0@,
            ) && exists|j: int|
                0 <= j < s.len() && s[j].key == Ok::<StorageKey, String>(
                    scan_result(q, s)->Ok_0[k].0,
                ) && s[j].value == Ok::<StorageValue, String>(scan_result(q, s)->Ok_0[k].1),
        forall|j: int|
            0 <= j < s.len() && query_keeps(q, (#[trigger] s[j]).key->Ok_0.0@)
                ==> scan_result(q, s)->Ok_0.contains((s[j].key->Ok_0, s[j].value->Ok_0)),
    decreases s.len(),
{
    if s.len() > 0 {
        let init = s.drop_last();
        assert forall|i: int| 0 <= i < init.len() implies (#[trigger] init[i]).key is Ok
            && init[i].value is Ok by {
            assert(init[i] == s[i]);
        }
        lemma_scan_keeps_exactly(q, init);
        let acc = scan_result(q, init)->Ok_0;
        let e = s.last();
        assert(s[s.len() - 1] == e);
        let out = scan_result(q, s)->Ok_0;
        assert forall|k: int| 0 <= k < out.len() implies query_keeps(
            q,
            (#[trigger] out[k]).0.0@,
        ) && exists|j: int|
            0 <= j < s.len() && s[j].key == Ok::<StorageKey, String>(out[k].0) && s[j].value
                == Ok::<StorageValue, String>(out[k].1) by {
            if k < acc.len() {
                assert(out[k] == acc[k]);
                let j = choose|j: int|
                    0 <= j < init.len() && init[j].key == Ok::<StorageKey, String>(acc[k].0)
                        && init[j].value == Ok::<StorageValue, String>(acc[k].1);
                assert(s[j] == init[j]);
            } else {
                assert(s[s.len() - 1] == e);
            }
        }
        assert forall|j: int|
            0 <= j < s.len() && query_keeps(q, (#[trigger] s[j]).key->Ok_0.0@)
                implies out.contains((s[j].key->Ok_0, s[j].value->Ok_0)) by {
            if j < init.len() {
                assert(s[j] == init[j]);
                let w = choose|w: int|
                    0 <= w < acc.len() && acc[w] == (init[j].key->Ok_0, init[j].value->Ok_0);
                assert(out[w] == acc[w]);
            } else {
                assert(out[out.len() - 1] == (e.key->Ok_0, e.value->Ok_0));
            }
        }
    }
}

/// The message of a predicate query that names no field.
pub open spec fn missing_field_message() -> Seq<char> {
    "predicate requires 'field'"@
}

/// Whether `q` keeps the entry keyed `key`.
fn keeps(q: &StorageQuery, key: &StorageKey) -> (r: bool)
    ensures
        r == query_keeps(*q, key.0@),
{
    match q {
        StorageQuery::ByKey(k) => k.0 == key.0,
        StorageQuery::BySubjectPattern(p) => match subject_from_storage_key(key) {
            Some(s) => p.matches(&s),
            None => false,
        },
        StorageQuery::ByPredicate(pq) => match &pq.field {
            Some(f) => predicate_matches(f.as_str(), &pq.value, key),
            None => false,
        },
    }
}

/// Runs query `q` over the entries a backend scanned, in scan order. A
/// predicate query without a field is refused before any entry is looked
/// at; otherwise the result is the complete page of kept pairs, or the
/// first decoding failure met.
pub fn run_query(q: &StorageQuery, entries: Vec<ScannedEntry>) -> (r: Result<
    StorageResultSet,
    StorageError,
>)
    ensures
        (q matches StorageQuery::ByPredicate(pq) && pq.field is None) ==> (r matches Err(
            StorageError::QueryError(m),
        ) && m@ == missing_field_message()),
        !(q matches StorageQuery::ByPredicate(pq) && pq.field is None) ==> match r {
            Ok(rs) => scan_result(*q, entries@) == Ok::<
                Seq<(StorageKey, StorageValue)>,
                StorageError,
            >(rs.entries@) && !rs.has_more && rs.cursor is None,
            Err(e) => scan_result(*q, entries@) == Err::<Seq<(StorageKey, StorageValue)>, StorageError>(
                e,
            ),
        },
{
    if let StorageQuery::ByPredicate(pq) = q {
        if pq.field.is_none() {
            return Err(StorageError::QueryError(String::from_str("predicate requires 'field'")));
        }
    }
    let ghost all = entries@;
    let n = entries.len();
    // Reverse the entries so that popping yields them in scan order.
    let mut pending: Vec<ScannedEntry> = Vec::new();
    let mut source = entries;
    while source.len() > 0
        invariant
            source@.len() + pending@.len() == all.len(),
            n == all.len(),
            forall|j: int| 0 <= j < source@.len() ==> #[trigger] source@[j] == all[j],
            forall|j: int|
                0 <= j < pending@.len() ==> #[trigger] pending@[j] == all[all.len() - 1 - j],
        decreases source@.len(),
    {
        let e = source.pop().unwrap();
        pending.push(e);
    }
    let mut kept: Vec<(StorageKey, StorageValue)> = Vec::new();
    let mut i: usize = 0;
    while i < n
        invariant
            all == entries@,
            !(q matches StorageQuery::ByPredicate(pq) && pq.field is None),
            n == all.len(),
            i <= n,
            pending@.len() == n - i,
            forall|j: int| 0 <= j < pending@.len() ==> #[trigger] pending@[j] == all[n - 1 - j],
            scan_result(*q, all.take(i as int)) == Ok::<
                Seq<(StorageKey, StorageValue)>,
                StorageError,
            >(kept@),
        decreases n - i,
    {
        let e = pending.pop().unwrap();
        assert(e == all[i as int]);
        assert(all.take(i + 1).drop_last() =~= all.take(i as int));
        assert(all.take(i + 1).last() == all[i as int]);
        let decodes_all = match q {
            StorageQuery::ByPredicate(_) => true,
            _ => false,
        };
        match e.key {
            Err(m) => {
                proof {
                    lemma_scan_failure_persists(*q, all, i + 1);
                }
                return Err(StorageError::SerializationError(m));
            },
            Ok(k) => {
                let keep = keeps(q, &k);
                if keep || decodes_all {
                    match e.value {
                        Err(m) => {
                            proof {
                                lemma_scan_failure_persists(*q, all, i + 1);
                            }
                            return Err(StorageError::SerializationError(m));
                        },
                        Ok(v) => {
                            if keep {
                                kept.push((k, v));
                            }
                        },
                    }
                }
            },
        }
        i += 1;
    }
    assert(all.take(n as int) =~= all);
    Ok(StorageResultSet::complete(kept))
}

} // verus!
