use std::collections::HashSet;

use themql::error::{Error, ErrorCode};
use themql::model::FormatTag;
use themql::storage::{
    predicate_matches, run_query, subject_from_storage_key, PredicateQuery, PredicateValue,
    ScannedEntry, StorageError, StorageKey, StorageQuery, StorageResultSet, StorageValue,
};
use themql::subject::SubjectPattern;

fn sv(b: &[u8]) -> StorageValue {
    StorageValue::new(b.to_vec(), FormatTag::Json)
}

fn scanned(key: &str, value: &[u8]) -> ScannedEntry {
    ScannedEntry { key: Ok(StorageKey::new(key)), value: Ok(sv(value)) }
}

#[test]
fn storage_key_new_and_as_str() {
    let k = StorageKey::new("vehicle.sensors.imu.gyro/abc123");
    assert_eq!(k.as_str(), "vehicle.sensors.imu.gyro/abc123");
    assert_eq!(k.0, "vehicle.sensors.imu.gyro/abc123");
}

#[test]
fn storage_key_eq_and_hash() {
    let a = StorageKey::new("k1");
    let b = StorageKey::new("k1");
    let c = StorageKey::new("k2");
    assert_eq!(a, b);
    assert_ne!(a, c);
    let mut set = HashSet::new();
    set.insert(a);
    set.insert(b);
    assert_eq!(set.len(), 1, "equal keys collapse in a set");
}

#[test]
fn storage_value_new() {
    let v = StorageValue::new(vec![1, 2, 3], FormatTag::Json);
    assert_eq!(v.bytes, vec![1, 2, 3]);
    assert_eq!(v.format, FormatTag::Json);
}

#[test]
fn storage_value_eq() {
    let a = StorageValue::new(vec![1], FormatTag::Json);
    let b = StorageValue::new(vec![1], FormatTag::Json);
    let c = StorageValue::new(vec![1], FormatTag::Bincode);
    assert_eq!(a, b);
    assert_ne!(a, c, "different format => different value");
}

#[test]
fn storage_query_by_key() {
    let q = StorageQuery::ByKey(StorageKey::new("k"));
    match q {
        StorageQuery::ByKey(k) => assert_eq!(k.as_str(), "k"),
        _ => panic!("expected ByKey"),
    }
}

#[test]
fn storage_query_by_subject_pattern() {
    let p = SubjectPattern::from_str("vehicle.#").unwrap();
    let q = StorageQuery::BySubjectPattern(p);
    match &q {
        StorageQuery::BySubjectPattern(p) => assert_eq!(p.as_str(), "vehicle.#"),
        _ => panic!("expected BySubjectPattern"),
    }
}

#[test]
fn storage_result_set_empty_is_empty() {
    let rs = StorageResultSet::empty();
    assert!(rs.is_empty());
    assert!(!rs.has_more);
    assert!(rs.cursor.is_none());
}

#[test]
fn storage_result_set_with_entries() {
    let rs = StorageResultSet {
        entries: vec![(StorageKey::new("k1"), StorageValue::new(vec![1], FormatTag::Json))],
        has_more: true,
        cursor: Some("cursor-abc".to_owned()),
    };
    assert!(!rs.is_empty());
    assert_eq!(rs.entries.len(), 1);
    assert!(rs.has_more);
    assert_eq!(rs.cursor.as_deref(), Some("cursor-abc"));
}

#[test]
fn storage_error_not_found_constructs() {
    let e = StorageError::NotFound;
    assert_eq!(e.to_string(), "storage key not found");
}

#[test]
fn storage_error_already_exists_constructs() {
    let e = StorageError::AlreadyExists;
    assert!(e.to_string().contains("already exists"));
}

#[test]
fn storage_error_query_error_carries_message() {
    let e = StorageError::QueryError("malformed predicate".to_owned());
    assert!(e.to_string().contains("malformed predicate"));
}

#[test]
fn storage_error_serialization_error_carries_message() {
    let e = StorageError::SerializationError("decode failed".to_owned());
    assert!(e.to_string().contains("decode failed"));
}

#[test]
fn storage_error_not_found_maps_to_resolver_error() {
    let core: Error = StorageError::NotFound.into();
    assert_eq!(core.code, ErrorCode::ResolverError);
}

#[test]
fn storage_error_already_exists_maps_to_resolver_error() {
    let core: Error = StorageError::AlreadyExists.into();
    assert_eq!(core.code, ErrorCode::ResolverError);
}

#[test]
fn storage_error_query_error_maps_to_resolver_error() {
    let core: Error = StorageError::QueryError("bad".to_owned()).into();
    assert_eq!(core.code, ErrorCode::ResolverError);
}

#[test]
fn storage_error_serialization_maps_to_transport_error() {
    let core: Error = StorageError::SerializationError("bad".to_owned()).into();
    assert_eq!(core.code, ErrorCode::TransportError);
}

#[test]
fn storage_error_connection_failed_maps_to_internal_error() {
    let core: Error = StorageError::ConnectionFailed.into();
    assert_eq!(core.code, ErrorCode::InternalError);
}

#[test]
fn storage_error_timeout_maps_to_internal_error() {
    let core: Error = StorageError::Timeout.into();
    assert_eq!(core.code, ErrorCode::InternalError);
}

#[test]
fn storage_error_internal_error_maps_to_internal_error() {
    let core: Error = StorageError::InternalError.into();
    assert_eq!(core.code, ErrorCode::InternalError);
    assert_eq!(core.message, "storage internal error");
}

#[test]
fn lookup_result_holds_the_found_pair() {
    let k = StorageKey::new("qk");
    let rs = StorageResultSet::from_lookup(k.clone(), Some(sv(&[9])));
    assert_eq!(rs.entries.len(), 1);
    assert_eq!(rs.entries[0].0, k);
    assert!(!rs.has_more);
    let none = StorageResultSet::from_lookup(k, None);
    assert!(none.is_empty());
}

#[test]
fn pattern_query_keeps_matching_subjects() {
    let p = SubjectPattern::from_str("vehicle.sensors.#").unwrap();
    let entries = vec![
        scanned("vehicle.sensors.imu.gyro", &[1]),
        scanned("vehicle.sensors.imu.accel", &[2]),
        scanned("vehicle.actuators.flap", &[3]),
        scanned("not a subject", &[4]),
    ];
    let rs = run_query(&StorageQuery::BySubjectPattern(p), entries).unwrap();
    assert_eq!(rs.entries.len(), 2, "pattern matches two sensors keys");
    assert_eq!(rs.entries[0].0.as_str(), "vehicle.sensors.imu.gyro");
    assert_eq!(rs.entries[1].1, sv(&[2]));
    assert!(!rs.has_more);
    assert!(rs.cursor.is_none());
}

#[test]
fn pattern_query_ignores_undecodable_values_it_does_not_keep() {
    let p = SubjectPattern::from_str("vehicle.sensors.#").unwrap();
    let entries = vec![
        ScannedEntry {
            key: Ok(StorageKey::new("vehicle.actuators.flap")),
            value: Err("bad value".to_owned()),
        },
        scanned("vehicle.sensors.baro", &[5]),
    ];
    let rs = run_query(&StorageQuery::BySubjectPattern(p), entries).unwrap();
    assert_eq!(rs.entries.len(), 1);
}

#[test]
fn predicate_query_with_field() {
    let pred = PredicateQuery {
        field: Some("sensors".to_owned()),
        value: PredicateValue::Text("imu".to_owned()),
    };
    let entries = vec![scanned("vehicle.sensors.imu.gyro", &[1]), scanned("vehicle.actuators.flap", &[2])];
    let rs = run_query(&StorageQuery::ByPredicate(pred), entries).unwrap();
    assert_eq!(rs.entries.len(), 1);
    assert_eq!(rs.entries[0].0, StorageKey::new("vehicle.sensors.imu.gyro"));
}

#[test]
fn predicate_query_missing_field_errors() {
    let pred = PredicateQuery { field: None, value: PredicateValue::Number("0".to_owned()) };
    let res = run_query(&StorageQuery::ByPredicate(pred), Vec::new());
    assert_eq!(res, Err(StorageError::QueryError("predicate requires 'field'".to_owned())));
}

#[test]
fn predicate_query_reports_undecodable_values() {
    let pred = PredicateQuery { field: Some("x".to_owned()), value: PredicateValue::Any };
    let entries = vec![ScannedEntry { key: Ok(StorageKey::new("abc")), value: Err("oops".to_owned()) }];
    let res = run_query(&StorageQuery::ByPredicate(pred), entries);
    assert_eq!(res, Err(StorageError::SerializationError("oops".to_owned())));
}

#[test]
fn scan_stops_at_undecodable_key() {
    let q = StorageQuery::ByKey(StorageKey::new("k"));
    let entries = vec![
        ScannedEntry { key: Err("bad key".to_owned()), value: Ok(sv(&[1])) },
        scanned("k", &[2]),
    ];
    assert_eq!(run_query(&q, entries), Err(StorageError::SerializationError("bad key".to_owned())));
}

#[test]
fn predicate_matching_rules() {
    let k = StorageKey::new("vehicle.sensors.imu.42");
    assert!(predicate_matches("sensors", &PredicateValue::Any, &k));
    assert!(predicate_matches("sensors", &PredicateValue::Number("42".to_owned()), &k));
    assert!(!predicate_matches("sensors", &PredicateValue::Text("baro".to_owned()), &k));
    assert!(!predicate_matches("actuators", &PredicateValue::Any, &k));
    assert!(predicate_matches("", &PredicateValue::Any, &k));
}

#[test]
fn storage_key_subject_parse() {
    assert!(subject_from_storage_key(&StorageKey::new("a.b")).is_some());
    assert!(subject_from_storage_key(&StorageKey::new("a..b")).is_none());
}
