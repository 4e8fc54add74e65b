use std::time::Duration;

use themql::cache::{CacheEntry, CacheError, CacheHit, CacheKey};
use themql::error::{Error, ErrorCode, ResponseValue};
use themql::model::{CacheTier, Timestamp};
use themql::subject::SubjectError;

#[test]
fn cache_key_hash_of_is_deterministic() {
    let a = CacheKey::hash_of(b"vehicle.sensors.imu.gyro");
    let b = CacheKey::hash_of(b"vehicle.sensors.imu.gyro");
    assert_eq!(a, b, "same input must hash to the same key");
}

#[test]
fn cache_key_hash_of_differs_for_different_input() {
    let a = CacheKey::hash_of(b"vehicle.sensors.imu.gyro");
    let b = CacheKey::hash_of(b"vehicle.sensors.imu.accel");
    assert_ne!(a, b, "different input must hash to a different key");
}

#[test]
fn cache_key_hash_of_is_the_blake3_digest() {
    let k = CacheKey::hash_of(b"abc");
    let expected: [u8; 32] = blake3::hash(b"abc").into();
    assert_eq!(k.as_bytes(), &expected);
    assert_ne!(k.as_bytes(), &[0u8; 32]);
}

#[test]
fn cache_key_from_bytes_round_trips() {
    let bytes = [1u8; 32];
    let k = CacheKey::from_bytes(bytes);
    assert_eq!(k.as_bytes(), &bytes);
}

#[test]
fn cache_hit_miss_is_not_hit() {
    let h = CacheHit::Miss;
    assert!(!matches!(h, CacheHit::Hit { .. }));
}

#[test]
fn cache_hit_hit_carries_entry_and_tier() {
    let entry = CacheEntry {
        value: ResponseValue::Unit,
        inserted_at: Timestamp::now_monotonic(),
        ttl: None,
        source_tier: CacheTier::L2,
        etag: None,
    };
    let h = CacheHit::Hit { value: entry.clone(), source_tier: CacheTier::L2 };
    match h {
        CacheHit::Hit { value, source_tier } => {
            assert_eq!(value, entry);
            assert_eq!(source_tier, CacheTier::L2);
        }
        CacheHit::Miss => panic!("expected Hit"),
    }
}

#[test]
fn cache_entry_constructs_with_all_fields() {
    let e = CacheEntry {
        value: ResponseValue::Unit,
        inserted_at: Timestamp::now_monotonic(),
        ttl: Some(Duration::from_secs(60)),
        source_tier: CacheTier::L1,
        etag: Some("w/\"abc\"".to_owned()),
    };
    assert_eq!(e.source_tier, CacheTier::L1);
    assert_eq!(e.etag.as_deref(), Some("w/\"abc\""));
    assert_eq!(e.ttl, Some(Duration::from_secs(60)));
}

#[test]
fn cache_error_tier_unavailable_constructs() {
    let e = CacheError::TierUnavailable(CacheTier::L3);
    assert!(e.to_string().contains("L3"), "message must name the tier");
    assert_eq!(e.to_string(), "cache tier unavailable: L3");
}

#[test]
fn cache_error_invalid_policy_constructs() {
    let e = CacheError::InvalidPolicy;
    assert_eq!(e.to_string(), "invalid cache policy");
}

#[test]
fn cache_error_pattern_invalid_from_subject_error() {
    let se = SubjectError::EmptySubject;
    let ce: CacheError = se.into();
    assert!(matches!(ce, CacheError::PatternInvalid(SubjectError::EmptySubject)));
}

#[test]
fn cache_error_tier_unavailable_maps_to_internal_error() {
    let ce = CacheError::TierUnavailable(CacheTier::L3);
    let core: Error = ce.into();
    assert_eq!(core.code, ErrorCode::InternalError);
    assert_eq!(core.message, "cache tier unavailable: L3");
}

#[test]
fn cache_error_serialization_maps_to_transport_error() {
    let ce = CacheError::SerializationError("boom".to_owned());
    let core: Error = ce.into();
    assert_eq!(core.code, ErrorCode::TransportError);
    assert_eq!(core.message, "cache serialization error: boom");
}

#[test]
fn cache_error_deserialization_maps_to_transport_error() {
    let ce = CacheError::DeserializationError("bad".to_owned());
    let core: Error = ce.into();
    assert_eq!(core.code, ErrorCode::TransportError);
    assert_eq!(core.message, "cache deserialization error: bad");
}

#[test]
fn cache_error_invalid_policy_maps_to_validation_error() {
    let ce = CacheError::InvalidPolicy;
    let core: Error = ce.into();
    assert_eq!(core.code, ErrorCode::ValidationError);
}

#[test]
fn cache_error_pattern_invalid_maps_to_validation_error() {
    let ce = CacheError::PatternInvalid(SubjectError::EmptySubject);
    let core: Error = ce.into();
    assert_eq!(core.code, ErrorCode::ValidationError);
    assert_eq!(core.message, "invalid subject pattern: empty subject");
}
