//! The MQTT transport's data model: subscription handles, quality of
//! service, the MQTT error and its mapping, and the subject/topic mapping.
use vstd::prelude::*;
use vstd::string::*;

use crate::error::{plain_error, Error, ErrorCode};
use crate::subject::{lemma_subject_round_trip, parse_subject, Subject, SubjectError, SubjectErrorView};
use crate::text::join_dots;

verus! {

/// Opaque handle of a subscription.
#[derive(Debug, Clone, Copy, PartialEq, Eq, Hash, PartialOrd, Ord, Structural)]
pub struct SubscriptionId(pub u64);

impl SubscriptionId {
    /// A handle from its raw number.
    pub fn new(raw: u64) -> (r: Self)
        ensures
            r.0 == raw,
    {
        SubscriptionId(raw)
    }

    /// The raw number.
    pub fn as_u64(&self) -> (r: u64)
        ensures
            r == self.0,
    {
        self.0
    }
}

/// MQTT quality of service.
#[derive(Debug, Clone, Copy, PartialEq, Eq, Hash, Structural)]
pub enum MqttQos {
    /// Fire and forget.
    AtMostOnce,
    /// Acknowledged delivery; the default.
    AtLeastOnce,
    /// Assured single delivery.
    ExactlyOnce,
}

impl Default for MqttQos {
    fn default() -> (r: Self)
        ensures
            r == MqttQos::AtLeastOnce,
    {
        MqttQos::AtLeastOnce
    }
}

/// Errors raised by the MQTT transport.
#[derive(Debug, Clone, PartialEq)]
pub enum MqttError {
    /// The connection to the broker was lost.
    ConnectionLost,
    /// A publish failed.
    PublishFailed(String),
    /// A subscribe failed.
    SubscribeFailed(String),
    /// A payload could not be decoded.
    DeserializationError(String),
    /// The QoS contract was violated.
    QosViolation,
    /// The operation timed out.
    Timeout,
}

/// The message of an MQTT error.
pub open spec fn mqtt_error_message(e: MqttError) -> Seq<char> {
    match e {
        MqttError::ConnectionLost => "mqtt connection lost"@,
        MqttError::PublishFailed(m) => "mqtt publish failed: "@ + m@,
        MqttError::SubscribeFailed(m) => "mqtt subscribe failed: "@ + m@,
        MqttError::DeserializationError(m) => "mqtt deserialization error: "@ + m@,
        MqttError::QosViolation => "mqtt qos violation"@,
        MqttError::Timeout => "mqtt timeout"@,
    }
}

impl MqttError {
    /// The message of this error.
    pub fn to_string(&self) -> (s: String)
        ensures
            s@ == mqtt_error_message(*self),
    {
        match self {
            MqttError::ConnectionLost => String::from_str("mqtt connection lost"),
            MqttError::PublishFailed(m) => {
                let mut s = String::from_str("mqtt publish failed: ");
                s.append(m.as_str());
                s
            },
            MqttError::SubscribeFailed(m) => {
                let mut s = String::from_str("mqtt subscribe failed: ");
                s.append(m.as_str());
                s
            },
            MqttError::DeserializationError(m) => {
                let mut s = String::from_str("mqtt deserialization error: ");
                s.append(m.as_str());
                s
            },
            MqttError::QosViolation => String::from_str("mqtt qos violation"),
            MqttError::Timeout => String::from_str("mqtt timeout"),
        }
    }
}

impl vstd::std_specs::convert::FromSpecImpl<MqttError> for Error {
    /// The conversion is stated by the `ensures` of `from` itself.
    open spec fn obeys_from_spec() -> bool {
        false
    }

    open spec fn from_spec(e: MqttError) -> Error {
        vstd::pervasive::arbitrary()
    }
}

impl From<MqttError> for Error {
    /// Every MQTT error is a transport error carrying its message.
    fn from(e: MqttError) -> (r: Error)
        ensures
            plain_error(r, ErrorCode::TransportError, mqtt_error_message(e)),
    {
        let m = e.to_string();
        Error::transport_error(m.as_str())
    }
}

/// The MQTT topic of a subject: its dot-joined text.
pub fn subject_to_topic(subject: &Subject) -> (r: String)
    ensures
        r@ == join_dots(subject@),
{
    subject.as_str()
}

/// The subject an MQTT topic names; the topic's text is the subject's.
pub fn topic_to_subject(topic: &str) -> (r: Result<Subject, SubjectError>)
    ensures
        match r {
            Ok(s) => parse_subject(topic@) == Ok::<Seq<Seq<char>>, SubjectErrorView>(s@) && join_dots(
                s@,
            ) == topic@,
            Err(e) => parse_subject(topic@) == Err::<Seq<Seq<char>>, SubjectErrorView>(e@),
        },
{
    let r = Subject::from_str(topic);
    proof {
        if r is Ok {
            lemma_subject_round_trip(topic@);
        }
    }
    r
}

} // verus!
