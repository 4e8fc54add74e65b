use themql::artifact::ArtifactError;
use themql::error::{Error, ErrorCode};
use themql::graphql::GraphqlError;
use themql::inference::{now_timestamp, InferenceError, ResourceBudget, RollbackHandle};
use themql::message::MessageError;
use themql::model::{FormatTag, TimestampKind};
use themql::query::{CacheKey as QueryCacheKey, DefaultCacheKeyer, QueryError};
use themql::runtime::{Cancelled, Elapsed, JoinError, RuntimeError};
use themql::subject::Subject;
use themql::telemetry::TelemetryError;
use themql::training::{TchTrainer, TrainerKind};

#[test]
fn join_error_constructs_and_displays() {
    let e = JoinError::new("panic");
    assert_eq!(e.reason(), "panic");
    assert_eq!(e.to_string(), "join error: panic");
}

#[test]
fn elapsed_displays() {
    assert_eq!(Elapsed.to_string(), "operation timed out");
}

#[test]
fn cancelled_displays() {
    assert_eq!(Cancelled.to_string(), "cancelled");
}

#[test]
fn runtime_error_from_join_error() {
    let je = JoinError::new("panic");
    let re: RuntimeError = je.into();
    assert_eq!(re, RuntimeError::Join(JoinError::new("panic")));
    assert_eq!(re.to_string(), "join error: join error: panic");
}

#[test]
fn runtime_error_from_elapsed() {
    let re: RuntimeError = Elapsed.into();
    assert_eq!(re, RuntimeError::Elapsed(Elapsed));
    assert_eq!(re.to_string(), "timeout elapsed");
}

#[test]
fn runtime_error_backend_variant() {
    let re = RuntimeError::Backend("shut down".to_owned());
    assert_eq!(re.to_string(), "backend error: shut down");
}

#[test]
fn resource_budget_construction_valid() {
    let b = ResourceBudget::new(50, 1024, 10, 100).expect("valid budget");
    assert_eq!(b.cpu_budget_pct, 50);
    assert_eq!(b.memory_budget_bytes, 1024);
}

#[test]
fn resource_budget_rejects_over_100_pct() {
    let err = ResourceBudget::new(101, 0, 1, 1).unwrap_err();
    assert!(matches!(err, InferenceError::BudgetExceeded { .. }));
    assert_eq!(err.to_string(), "budget exceeded: used_cpu 101 > limit_cpu 100");
}

#[test]
fn inference_error_variants_display() {
    assert_eq!(InferenceError::ModelNotLoaded.to_string(), "model not loaded");
    assert_eq!(InferenceError::RollbackFailed("x".to_string()).to_string(), "rollback failed: x");
    assert_eq!(
        InferenceError::DeadlineExceeded { deadline_ms: 10, actual_ms: 12 }.to_string(),
        "deadline exceeded: deadline_ms 10, actual_ms 12"
    );
}

#[test]
fn inference_error_maps_to_internal_error() {
    let e: Error = InferenceError::ModelNotLoaded.into();
    assert_eq!(e.code, ErrorCode::InternalError);
    let from_artifact: InferenceError = ArtifactError::HashMismatch.into();
    assert_eq!(from_artifact, InferenceError::ArtifactInvalid("artifact hash mismatch".to_string()));
}

#[test]
fn rollback_handle_restore_returns_bytes() {
    let h = RollbackHandle::new("m-1".to_string(), vec![1, 2, 3]);
    let bytes = h.restore().expect("restore");
    assert_eq!(bytes, vec![1, 2, 3]);
}

#[test]
fn rollback_handle_restore_rejects_empty() {
    let h = RollbackHandle::new("m-1".to_string(), Vec::new());
    assert_eq!(
        h.restore(),
        Err(InferenceError::RollbackFailed("no previous model bytes retained".to_string()))
    );
}

#[test]
fn rollback_handle_restore_rejects_missing_id() {
    let h = RollbackHandle::new(String::new(), vec![1, 2, 3]);
    assert_eq!(
        h.restore(),
        Err(InferenceError::RollbackFailed("previous model id missing".to_string()))
    );
}

#[test]
fn inference_timestamps_are_monotonic() {
    let t = now_timestamp();
    assert_eq!(t.kind, TimestampKind::Monotonic);
    assert!(t.nanos_since_epoch > 0);
}

#[test]
fn message_error_converts_to_core_error() {
    let e: Error = MessageError::PayloadMismatch.into();
    assert_eq!(e.code, ErrorCode::TransportError);
    assert_eq!(e.message, "payload mismatch");
}

#[test]
fn message_error_unsupported_format_names_the_format() {
    assert_eq!(MessageError::UnsupportedFormat(FormatTag::Json).to_string(), "unsupported format: json");
}

#[test]
fn subject_re_exported_from_core() {
    let s = Subject::from_str("vehicle.sensors.imu.gyro").unwrap();
    assert_eq!(s.segments().len(), 4);
}

#[test]
fn graphql_error_schema_build_maps_to_internal_error() {
    let e: Error = GraphqlError::SchemaBuildFailed("bad".to_owned()).into();
    assert_eq!(e.code, ErrorCode::InternalError);
    assert_eq!(e.message, "graphql schema build failed: bad");
}

#[test]
fn graphql_error_resolution_maps_to_resolver_error() {
    let e: Error = GraphqlError::ResolutionFailed("nope".to_owned()).into();
    assert_eq!(e.code, ErrorCode::ResolverError);
}

#[test]
fn graphql_error_mapping_maps_to_internal_error() {
    let e: Error = GraphqlError::MappingError("x".to_owned()).into();
    assert_eq!(e.code, ErrorCode::InternalError);
}

#[test]
fn telemetry_error_schema_version_maps_to_validation_error() {
    let te = TelemetryError::SchemaVersionUnsupported { got: 2, supported: 1 };
    assert_eq!(te.to_string(), "unsupported telemetry schema version: got 2, supported 1");
    let e: Error = te.into();
    assert_eq!(e.code, ErrorCode::ValidationError);
}

#[test]
fn telemetry_error_unknown_sensor_kind_maps_to_validation_error() {
    let e: Error = TelemetryError::UnknownSensorKind("lidar".to_owned()).into();
    assert_eq!(e.code, ErrorCode::ValidationError);
}

#[test]
fn telemetry_error_sequence_overflow_maps_to_internal_error() {
    let e: Error = TelemetryError::SequenceOverflow.into();
    assert_eq!(e.code, ErrorCode::InternalError);
}

#[test]
fn telemetry_error_serialization_maps_to_internal_error() {
    let e: Error = TelemetryError::SerializationError("bad".to_owned()).into();
    assert_eq!(e.code, ErrorCode::InternalError);
}

#[test]
fn trainer_remembers_its_kind() {
    assert_eq!(TchTrainer::new(TrainerKind::Pinn).kind(), TrainerKind::Pinn);
}

fn key(subject: &str, selection: &str, arguments: &str) -> QueryCacheKey {
    DefaultCacheKeyer::new().key_of(subject, selection, arguments)
}

#[test]
fn cache_key_is_deterministic_for_same_query() {
    let k1 = key("vehicle.sensors.imu.gyro", "\"All\"", "");
    let k2 = key("vehicle.sensors.imu.gyro", "\"All\"", "");
    assert_eq!(k1, k2, "same query must produce same cache key");
}

#[test]
fn cache_key_differs_when_selection_differs() {
    let all = key("vehicle.sensors.imu.gyro", "\"All\"", "");
    let filtered = key(
        "vehicle.sensors.imu.gyro",
        "{\"Filter\":{\"Compare\":{\"field\":\"temperature\",\"op\":\"Eq\",\"value\":42}}}",
        "",
    );
    assert_ne!(all, filtered, "different selections must produce different cache keys");
}

#[test]
fn cache_key_differs_when_arguments_differ() {
    let k1 = key("vehicle.sensors.imu.gyro", "\"All\"", "{\"limit\":10}");
    let k2 = key("vehicle.sensors.imu.gyro", "\"All\"", "{\"limit\":100}");
    assert_ne!(k1, k2, "different arguments must produce different cache keys");
}

#[test]
fn cache_key_is_stable_across_keyer_instances() {
    let a = DefaultCacheKeyer::new().key_of("vehicle.sensors.imu.gyro", "\"All\"", "");
    let b = DefaultCacheKeyer::new().key_of("vehicle.sensors.imu.gyro", "\"All\"", "");
    assert_eq!(a, b, "different keyer instances must agree");
}

#[test]
fn cache_key_is_the_digest_of_the_key_material() {
    let k = key("a.b", "\"All\"", "");
    let expected: [u8; 32] = blake3::hash(b"a.b\0\"All\"\0").into();
    assert_eq!(k.as_bytes(), &expected);
}

#[test]
fn cache_key_display_is_hex() {
    let k = key("vehicle.sensors.imu.gyro", "\"All\"", "");
    let s = k.to_string();
    assert_eq!(s.len(), 64, "blake3 hex must be 64 chars");
    assert!(s.chars().all(|c| c.is_ascii_hexdigit()), "must be hex");
    assert_eq!(QueryCacheKey::from_hash([0xab; 32]).to_string(), "ab".repeat(32));
}

#[test]
fn query_error_deadline_maps_to_timeout() {
    let e: Error = QueryError::DeadlineExpired.into();
    assert_eq!(e.code, ErrorCode::Timeout);
}

#[test]
fn query_error_cancelled_maps_to_timeout() {
    let e: Error = QueryError::Cancelled.into();
    assert_eq!(e.code, ErrorCode::Timeout);
}

#[test]
fn query_error_cache_lookup_maps_to_internal() {
    let e: Error = QueryError::CacheLookupFailed.into();
    assert_eq!(e.code, ErrorCode::InternalError);
}

#[test]
fn query_error_batch_maps_to_internal() {
    let e: Error = QueryError::BatchDispatchFailed.into();
    assert_eq!(e.code, ErrorCode::InternalError);
}

#[test]
fn query_error_resolver_returned_propagates_inner() {
    let inner = Error::resolver_error("boom");
    let e: Error = QueryError::ResolverReturned(inner.clone()).into();
    assert_eq!(e.code, ErrorCode::ResolverError);
    assert_eq!(e.message, "boom");
}

#[test]
fn resolver_bridge_rejects_invalid_subject() {
    let err = themql::graphql::resolve_field_query("not..valid", None, themql::model::Context::new())
        .unwrap_err();
    assert_eq!(err.code, ErrorCode::ValidationError);
    assert_eq!(err.message, "consecutive separators");
}

#[test]
fn resolver_bridge_builds_the_field_query() {
    let mut map = serde_json::Map::new();
    map.insert("limit".to_owned(), serde_json::Value::from(5));
    let args = serde_json::Value::Object(map);
    let q = themql::graphql::resolve_field_query(
        "vehicle.sensors.imu",
        Some(args.clone()),
        themql::model::Context::new(),
    )
    .unwrap();
    assert_eq!(q.resource.subject.as_str(), "vehicle.sensors.imu");
    assert_eq!(q.arguments, Some(args));
    assert!(q.projection.is_none());
}

#[test]
fn metadata_extension_is_recorded() {
    let m = themql::model::Metadata::new()
        .with_extension("origin".to_owned(), serde_json::Value::String("bench".to_owned()));
    assert_eq!(m.extensions.get("origin"), Some(&serde_json::Value::String("bench".to_owned())));
    assert!(m.correlation_id.is_none());
}

#[test]
fn auth_secret_prefers_the_argument() {
    let long_arg = "a".repeat(32);
    let long_env = "e".repeat(40);
    assert_eq!(themql::auth::auth_secret(Some(long_arg.clone()), Some(long_env.clone())).unwrap(), long_arg);
    assert_eq!(themql::auth::auth_secret(None, Some(long_env.clone())).unwrap(), long_env);
}

#[test]
fn auth_secret_missing_or_short_is_a_validation_error() {
    let e = themql::auth::auth_secret(None, None).unwrap_err();
    assert_eq!(e.code, ErrorCode::ValidationError);
    assert_eq!(e.message, "auth enabled but no secret provided (--auth-secret or THEMQL_AUTH_SECRET)");
    let e = themql::auth::auth_secret(Some("short".to_string()), Some("e".repeat(40))).unwrap_err();
    assert_eq!(e.code, ErrorCode::ValidationError);
    assert_eq!(e.message, "auth secret must be at least 32 characters");
    assert!(themql::auth::auth_secret(Some("é".repeat(16)), None).is_ok());
    assert!(themql::auth::auth_secret(Some("a".repeat(31)), None).is_err());
}
