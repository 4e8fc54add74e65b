use std::collections::HashSet;

use themql::error::{Error, ErrorCode};
use themql::mqtt::{subject_to_topic, topic_to_subject, MqttError, MqttQos, SubscriptionId};
use themql::sse::{SseError, SseEvent};
use themql::subject::{Subject, SubjectError, SubjectPattern};
use themql::transport::{BridgeRoute, SubjectRewrite, TransportError, TransportKind};

#[test]
fn subscription_id_wraps_u64() {
    let id = SubscriptionId::new(7);
    assert_eq!(id.as_u64(), 7);
    assert_eq!(SubscriptionId(7), id);
}

#[test]
fn mqtt_qos_default_is_at_least_once() {
    assert_eq!(MqttQos::default(), MqttQos::AtLeastOnce);
}

#[test]
fn mqtt_error_connection_lost_maps_to_transport_error() {
    let e: Error = MqttError::ConnectionLost.into();
    assert_eq!(e.code, ErrorCode::TransportError);
    assert_eq!(e.message, "mqtt connection lost");
}

#[test]
fn mqtt_error_publish_failed_maps_to_transport_error() {
    let e: Error = MqttError::PublishFailed("broker unreachable".to_owned()).into();
    assert_eq!(e.code, ErrorCode::TransportError);
    assert!(e.message.contains("broker unreachable"));
}

#[test]
fn mqtt_error_subscribe_failed_maps_to_transport_error() {
    let e: Error = MqttError::SubscribeFailed("topic too long".to_owned()).into();
    assert_eq!(e.code, ErrorCode::TransportError);
}

#[test]
fn mqtt_error_deserialization_maps_to_transport_error() {
    let e: Error = MqttError::DeserializationError("bad json".to_owned()).into();
    assert_eq!(e.code, ErrorCode::TransportError);
}

#[test]
fn mqtt_error_qos_violation_maps_to_transport_error() {
    let e: Error = MqttError::QosViolation.into();
    assert_eq!(e.code, ErrorCode::TransportError);
}

#[test]
fn mqtt_error_timeout_maps_to_transport_error() {
    let e: Error = MqttError::Timeout.into();
    assert_eq!(e.code, ErrorCode::TransportError);
    assert_eq!(e.message, "mqtt timeout");
}

#[test]
fn subject_to_topic_is_identity() {
    let subject = Subject::from_str("vehicle.sensors.imu.gyro").expect("valid subject");
    assert_eq!(subject_to_topic(&subject), "vehicle.sensors.imu.gyro");
}

#[test]
fn topic_to_subject_round_trips() {
    let topic = "vehicle.actuators.fins.fin1";
    let subject = topic_to_subject(topic).expect("valid topic");
    assert_eq!(subject.as_str(), topic);
}

#[test]
fn topic_to_subject_rejects_wildcard() {
    let r = topic_to_subject("vehicle.#");
    assert!(matches!(r, Err(SubjectError::WildcardInConcreteSubject)));
}

#[test]
fn sse_event_from_data_sets_only_data() {
    let ev = SseEvent::from_data("{}");
    assert_eq!(ev.data, "{}");
    assert_eq!(ev.id, None);
    assert_eq!(ev.event, None);
    assert_eq!(ev.retry, None);
}

#[test]
fn sse_event_builder_chains() {
    let ev = SseEvent::from_data("payload").with_id("42").with_event("telemetry").with_retry(5000);
    assert_eq!(ev.id.as_deref(), Some("42"));
    assert_eq!(ev.event.as_deref(), Some("telemetry"));
    assert_eq!(ev.data, "payload");
    assert_eq!(ev.retry, Some(5000));
}

#[test]
fn sse_error_connection_closed_maps_to_transport_error() {
    let e: Error = SseError::ConnectionClosed.into();
    assert_eq!(e.code, ErrorCode::TransportError);
    assert_eq!(e.message, "sse connection closed");
}

#[test]
fn sse_error_serialization_maps_to_transport_error() {
    let e: Error = SseError::SerializationError("x".to_owned()).into();
    assert_eq!(e.code, ErrorCode::TransportError);
    assert_eq!(e.message, "sse serialization error: x");
}

#[test]
fn sse_error_timeout_maps_to_transport_error() {
    let e: Error = SseError::Timeout.into();
    assert_eq!(e.code, ErrorCode::TransportError);
}

#[test]
fn sse_error_client_disconnected_maps_to_transport_error() {
    let e: Error = SseError::ClientDisconnected.into();
    assert_eq!(e.code, ErrorCode::TransportError);
}

#[test]
fn sse_error_internal_maps_to_transport_error() {
    let e: Error = SseError::InternalError("boom".to_owned()).into();
    assert_eq!(e.code, ErrorCode::TransportError);
    assert_eq!(e.message, "sse internal error: boom");
}

#[test]
fn transport_kind_eq_and_hash() {
    assert_eq!(TransportKind::Mqtt, TransportKind::Mqtt);
    assert_ne!(TransportKind::Mqtt, TransportKind::Sse);
    let mut set = HashSet::new();
    set.insert(TransportKind::Mqtt);
    set.insert(TransportKind::Mqtt);
    assert_eq!(set.len(), 1, "duplicates collapse");
}

#[test]
fn bridge_route_constructs_with_defaults() {
    let route = BridgeRoute {
        source: TransportKind::Mqtt,
        target: TransportKind::Graphql,
        source_pattern: SubjectPattern::from_str("vehicle.#").unwrap(),
        target_subject: None,
        rewrite: None,
    };
    assert_eq!(route.source, TransportKind::Mqtt);
    assert_eq!(route.target, TransportKind::Graphql);
    assert!(route.target_subject.is_none());
    assert!(route.rewrite.is_none());
}

#[test]
fn bridge_route_with_rewrite_prefix() {
    let route = BridgeRoute {
        source: TransportKind::Mqtt,
        target: TransportKind::Sse,
        source_pattern: SubjectPattern::from_str("vehicle.sensors.#").unwrap(),
        target_subject: None,
        rewrite: Some(SubjectRewrite::Prefix(Subject::from_str("bridge").unwrap())),
    };
    assert!(matches!(route.rewrite, Some(SubjectRewrite::Prefix(_))));
}

#[test]
fn bridge_route_with_rewrite_replace() {
    let route = BridgeRoute {
        source: TransportKind::Graphql,
        target: TransportKind::Mqtt,
        source_pattern: SubjectPattern::from_str("query.#").unwrap(),
        target_subject: Some(Subject::from_str("bridge.query").unwrap()),
        rewrite: Some(SubjectRewrite::Replace(Subject::from_str("mqtt.forwarded").unwrap())),
    };
    assert!(matches!(route.rewrite, Some(SubjectRewrite::Replace(_))));
    assert_eq!(route.target_subject.as_ref().unwrap().as_str(), "bridge.query");
}

#[test]
fn transport_error_source_closed_constructs() {
    let e = TransportError::SourceClosed;
    assert_eq!(e.to_string(), "source transport closed");
}

#[test]
fn transport_error_target_publish_failed_carries_message() {
    let e = TransportError::TargetPublishFailed("connection reset".to_owned());
    assert!(e.to_string().contains("connection reset"));
}

#[test]
fn transport_error_loopback_forbidden_constructs() {
    let e = TransportError::LoopbackForbidden;
    assert!(e.to_string().contains("loopback"));
}

#[test]
fn transport_error_converts_to_core_error_as_transport() {
    let core: Error = TransportError::SourceClosed.into();
    assert_eq!(core.code, ErrorCode::TransportError);
}

#[test]
fn transport_error_serialization_maps_to_transport_error() {
    let core: Error = TransportError::SerializationError("bad bytes".to_owned()).into();
    assert_eq!(core.code, ErrorCode::TransportError);
    assert_eq!(core.message, "serialization error: bad bytes");
}

#[test]
fn transport_error_subject_rewrite_maps_to_transport_error() {
    let core: Error = TransportError::SubjectRewriteFailed("prefix too long".to_owned()).into();
    assert_eq!(core.code, ErrorCode::TransportError);
}
