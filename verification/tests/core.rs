use std::collections::hash_map::DefaultHasher;
use std::hash::{Hash, Hasher};

use themql::error::{Error, ErrorCode, Response, ResponseValue};
use themql::model::{
    Cancellation, Deadline, Timestamp, TimestampKind,
    CachePolicy, CorrelationId, Message, MessageId, Operation, Payload, Projection, Selection,
};
use themql::subject::{FieldPath, Subject, SubjectError, SubjectPattern, SubjectSegment};

#[test]
fn message_id_is_unique() {
    let a = MessageId::new();
    let b = MessageId::new();
    assert_ne!(a, b, "two MessageId::new() must differ");
}

#[test]
fn correlation_id_derives_from_request() {
    let req = MessageId::new();
    let corr = CorrelationId::for_request(&req);
    assert_eq!(corr.0, req.0, "correlation must equal request id");
}

#[test]
fn subject_parses_simple() {
    let s = Subject::from_str("vehicle.sensors.imu.gyro").unwrap();
    assert_eq!(s.segments().len(), 4);
    assert_eq!(s.as_str(), "vehicle.sensors.imu.gyro");
    assert!(s.is_concrete());
}

#[test]
fn subject_rejects_empty() {
    assert!(matches!(Subject::from_str(""), Err(SubjectError::EmptySubject)));
}

#[test]
fn subject_rejects_trailing_separator() {
    assert!(matches!(Subject::from_str("vehicle."), Err(SubjectError::TrailingSeparator)));
}

#[test]
fn subject_rejects_leading_separator() {
    assert!(matches!(Subject::from_str(".vehicle"), Err(SubjectError::LeadingSeparator)));
}

#[test]
fn subject_rejects_consecutive_separators() {
    assert!(matches!(
        Subject::from_str("vehicle..sensors"),
        Err(SubjectError::ConsecutiveSeparators)
    ));
}

#[test]
fn subject_rejects_wildcard_in_concrete() {
    assert!(matches!(
        Subject::from_str("vehicle.+.sensors"),
        Err(SubjectError::WildcardInConcreteSubject)
    ));
}

#[test]
fn subject_segment_rejects_invalid_charset() {
    assert!(matches!(
        SubjectSegment::new("bad/segment"),
        Err(SubjectError::InvalidCharset { .. })
    ));
}

#[test]
fn pattern_matches_exact() {
    let p = SubjectPattern::from_str("vehicle.sensors.imu.gyro").unwrap();
    let s = Subject::from_str("vehicle.sensors.imu.gyro").unwrap();
    assert!(p.matches(&s));
}

#[test]
fn pattern_matches_wildcard_one() {
    let p = SubjectPattern::from_str("vehicle.+.imu.gyro").unwrap();
    let s = Subject::from_str("vehicle.sensors.imu.gyro").unwrap();
    assert!(p.matches(&s), "+ must match one segment");
}

#[test]
fn pattern_does_not_match_wildcard_one_when_length_differs() {
    let p = SubjectPattern::from_str("vehicle.+.gyro").unwrap();
    let s = Subject::from_str("vehicle.sensors.imu.gyro").unwrap();
    assert!(!p.matches(&s), "+ matches exactly one segment");
}

#[test]
fn pattern_matches_wildcard_multi_trailing() {
    let p = SubjectPattern::from_str("vehicle.#").unwrap();
    let s = Subject::from_str("vehicle.sensors.imu.gyro").unwrap();
    assert!(p.matches(&s), "# must match trailing segments");
}

#[test]
fn pattern_wildcard_multi_matches_zero() {
    let p = SubjectPattern::from_str("vehicle.sensors.#").unwrap();
    let s = Subject::from_str("vehicle.sensors").unwrap();
    assert!(p.matches(&s), "# must match zero trailing segments");
}

#[test]
fn pattern_rejects_wildcard_multi_not_last() {
    assert!(matches!(
        SubjectPattern::from_str("vehicle.#.sensors"),
        Err(SubjectError::WildcardMultiNotLast)
    ));
}

#[test]
fn projection_include_and_exclude_mutually_exclusive() {
    let mut p = Projection::new().include_path(FieldPath::from_str("position.x").unwrap());
    p = p.exclude(FieldPath::from_str("velocity.vx").unwrap());
    assert!(!p.is_valid(), "include + exclude must be invalid");
}

#[test]
fn projection_empty_is_valid() {
    let p = Projection::new();
    assert!(p.is_valid(), "empty projection is valid (returns all)");
}

#[test]
fn selection_default_is_all() {
    assert_eq!(Selection::default(), Selection::All);
}

#[test]
fn cache_policy_disabled_is_not_enabled() {
    let p = CachePolicy::disabled();
    assert!(!p.enabled);
}

#[test]
fn cache_policy_default_is_enabled() {
    assert!(CachePolicy::default().enabled);
}

#[test]
fn response_ok_is_ok() {
    let r = Response::ok(ResponseValue::Unit, CorrelationId::new());
    assert!(r.is_ok());
    assert!(!r.is_err());
}

#[test]
fn response_err_is_err() {
    let r = Response::err(Error::timeout("deadline"), CorrelationId::new());
    assert!(r.is_err());
    assert!(!r.is_ok());
}

#[test]
fn subject_error_converts_to_core_error() {
    let e: Error = SubjectError::EmptySubject.into();
    assert_eq!(e.code, ErrorCode::ValidationError);
}

#[test]
fn message_new_constructs_valid() {
    let m = Message::new("vehicle.sensors.imu.gyro", Operation::Telemetry).unwrap();
    assert_eq!(m.operation, Operation::Telemetry);
    assert_eq!(m.payload, Payload::Unit);
    assert_eq!(m.subject.as_str(), "vehicle.sensors.imu.gyro");
}

#[test]
fn message_new_rejects_invalid_subject() {
    let r = Message::new("", Operation::Telemetry);
    assert!(r.is_err());
}

#[test]
fn subject_round_trip_preserves_string() {
    for s in ["vehicle", "vehicle.sensors", "vehicle.sensors.imu.gyro", "a.b.c.d.e.f.g"] {
        let subject = Subject::from_str(s).unwrap();
        assert_eq!(subject.as_str(), s, "round-trip must preserve {s}");
    }
}

#[test]
fn pattern_matches_self_concrete() {
    let p = SubjectPattern::from_str("vehicle.sensors.imu.gyro").unwrap();
    assert!(p.matches(&Subject::from_str("vehicle.sensors.imu.gyro").unwrap()));
    assert!(!p.matches(&Subject::from_str("vehicle.sensors.imu.accel").unwrap()));
    assert!(!p.matches(&Subject::from_str("vehicle.sensors.imu").unwrap()));
    assert!(!p.matches(&Subject::from_str("vehicle.sensors.imu.gyro.extra").unwrap()));
}

#[test]
fn cache_key_stability_via_hash() {
    let s = Subject::from_str("vehicle.sensors.imu.gyro").unwrap();
    let mut h1 = DefaultHasher::new();
    s.hash(&mut h1);
    let mut h2 = DefaultHasher::new();
    s.hash(&mut h2);
    assert_eq!(h1.finish(), h2.finish(), "hash must be stable");
}

#[test]
fn pattern_text_round_trips() {
    for s in ["vehicle.#", "vehicle.+.imu", "a.b.c"] {
        let p = SubjectPattern::from_str(s).unwrap();
        assert_eq!(p.as_str(), s);
    }
}

#[test]
fn prefix_multi_pattern_matches_exactly_the_subtree() {
    let p = SubjectPattern::from_str("vehicle.sensors.#").unwrap();
    assert!(p.matches(&Subject::from_str("vehicle.sensors").unwrap()));
    assert!(p.matches(&Subject::from_str("vehicle.sensors.imu.gyro").unwrap()));
    assert!(!p.matches(&Subject::from_str("vehicle.sensorsx").unwrap()));
    assert!(!p.matches(&Subject::from_str("vehicle").unwrap()));
}

#[test]
fn subject_error_messages() {
    assert_eq!(SubjectError::EmptySubject.to_string(), "empty subject");
    assert_eq!(
        SubjectError::InvalidCharset { segment: "a/b".to_owned() }.to_string(),
        "invalid charset in segment: a/b"
    );
}

#[test]
fn deadline_expiry_persists_on_the_same_clock() {

    let d = Deadline::new(TimestampKind::Monotonic, 100);
    assert!(!d.is_expired(&Timestamp::new(TimestampKind::Monotonic, 99)));
    assert!(d.is_expired(&Timestamp::new(TimestampKind::Monotonic, 100)));
    assert!(d.is_expired(&Timestamp::new(TimestampKind::Monotonic, 5000)));
    assert!(!d.is_expired(&Timestamp::new(TimestampKind::WallClock, 5000)));
}

#[test]
fn fresh_identifiers_are_version_7_uuids() {
    let ids = [
        MessageId::new().0,
        CorrelationId::new().0,
        themql::model::CausationId::new().0,
        themql::model::TraceId::new().0,
    ];
    for id in ids {
        assert_eq!(id.get_version_num(), 7);
        assert_eq!(id.as_bytes()[6] >> 4, 7);
        assert_eq!(id.as_bytes()[8] >> 6, 2);
    }
}

#[test]
fn clock_readings_become_signed_saturated_nanoseconds() {
    let t = Timestamp::from_clock_reading(TimestampKind::WallClock, Ok((2, 5)));
    assert_eq!(t.kind, TimestampKind::WallClock);
    assert_eq!(t.nanos_since_epoch, 2_000_000_005);
    let t = Timestamp::from_clock_reading(TimestampKind::Monotonic, Err((1, 500)));
    assert_eq!(t.kind, TimestampKind::Monotonic);
    assert_eq!(t.nanos_since_epoch, -1_000_000_500);
    let t = Timestamp::from_clock_reading(TimestampKind::WallClock, Ok((u64::MAX, 999_999_999)));
    assert_eq!(t.nanos_since_epoch, i64::MAX);
    let t = Timestamp::from_clock_reading(TimestampKind::WallClock, Err((u64::MAX, 0)));
    assert_eq!(t.nanos_since_epoch, i64::MIN);
    let t = Timestamp::from_clock_reading(TimestampKind::WallClock, Err((9_223_372_036, 854_775_808)));
    assert_eq!(t.nanos_since_epoch, i64::MIN);
}

#[test]
fn now_reads_the_system_clock() {
    let w = Timestamp::now_wall_clock();
    assert_eq!(w.kind, TimestampKind::WallClock);
    assert!(w.nanos_since_epoch > 1_600_000_000_000_000_000);
    let m = Timestamp::now_monotonic();
    assert_eq!(m.kind, TimestampKind::Monotonic);
    assert!(m.nanos_since_epoch > 0);
}

#[test]
fn cancelling_twice_equals_cancelling_once() {
    let mut once = Cancellation::new();
    once.cancel();
    let mut twice = Cancellation::new();
    twice.cancel();
    twice.cancel();
    assert_eq!(once, twice);
    assert!(twice.is_cancelled());
}

#[test]
fn cancelled_exactly_after_some_cancel() {
    for k in 0..4 {
        let mut c = Cancellation::new();
        for _ in 0..k {
            c.cancel();
        }
        assert_eq!(c.is_cancelled(), k > 0);
    }
    assert!(!Cancellation::default().is_cancelled());
}

#[test]
fn fresh_identifiers_carry_the_clock_milliseconds() {
    let before = std::time::SystemTime::now()
        .duration_since(std::time::UNIX_EPOCH)
        .unwrap()
        .as_millis() as u64;
    let id = MessageId::new().0;
    let after = std::time::SystemTime::now()
        .duration_since(std::time::UNIX_EPOCH)
        .unwrap()
        .as_millis() as u64;
    let b = id.as_bytes();
    let millis = b[..6].iter().fold(0u64, |acc, &x| acc * 256 + u64::from(x));
    assert!(before <= millis && millis <= after);
}
