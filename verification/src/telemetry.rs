//! Telemetry schema: sensor and derived-source tags, model-state and
//! budget summaries, diagnostics, and the telemetry error with its
//! mapping.
use serde_json::Value;
use vstd::prelude::*;
use vstd::string::*;

use crate::error::{plain_error, Error, ErrorCode};
use crate::subject::Subject;
use crate::text::{decimal, decimal_text};

verus! {

/// Raw sensor kinds.
#[derive(Debug, Clone, Copy, PartialEq, Eq, Hash, Structural)]
pub enum SensorKind {
    /// GPS receiver.
    Gps,
    /// Barometer.
    Barometer,
    /// IMU.
    Imu,
}

/// GPS fix quality.
#[derive(Debug, Clone, Copy, PartialEq, Eq, Hash, Structural)]
pub enum GpsFix {
    /// No fix.
    NoFix,
    /// Position only.
    TwoD,
    /// Position and altitude.
    ThreeD,
    /// Differential fix.
    Dgps,
    /// RTK fixed-integer solution.
    RtkFixed,
    /// RTK float solution.
    RtkFloat,
}

/// Kind of active controller.
#[derive(Debug, Clone, Copy, PartialEq, Eq, Hash, Structural)]
pub enum ControllerKind {
    /// PID.
    Pid,
    /// LQRI.
    Lqri,
    /// Hybrid PID and LQRI.
    Hybrid,
}

/// Resource budget granted to a model.
#[derive(Debug, Clone, Copy, PartialEq, Eq, Structural)]
pub struct ResourceBudgetSummary {
    /// CPU budget in percent.
    pub cpu_budget_pct: u8,
    /// Memory budget in bytes.
    pub memory_budget_bytes: u64,
    /// Inference deadline in milliseconds.
    pub inference_deadline_ms: u16,
}

/// Snapshot of the active model and its budget.
#[derive(Debug, Clone, PartialEq)]
pub struct ModelStateReading {
    /// Model identifier.
    pub model_id: String,
    /// Model version.
    pub model_version: String,
    /// Whether the model is active.
    pub active: bool,
    /// Its resource budget.
    pub resource_budget: ResourceBudgetSummary,
    /// Latency of the latest inference in nanoseconds.
    pub last_inference_latency_ns: u64,
    /// Whether a rollback is engaged.
    pub rollback_engaged: bool,
}

/// Severity of a diagnostics reading.
#[derive(Debug, Clone, Copy, PartialEq, Eq, Hash, Structural)]
pub enum DiagnosticLevel {
    /// Informational.
    Info,
    /// Warning.
    Warn,
    /// Error.
    Error,
    /// Safety may be compromised.
    Critical,
}

/// A diagnostics reading.
#[derive(Debug, Clone, PartialEq)]
pub struct DiagnosticsReading {
    /// Severity.
    pub level: DiagnosticLevel,
    /// Stable diagnostic code.
    pub code: String,
    /// Human-readable message.
    pub message: String,
    /// Source subject.
    pub source: Subject,
    /// Structured details.
    pub details: Option<Value>,
}

/// Errors of telemetry schema validation and encoding.
#[derive(Debug, Clone, PartialEq)]
pub enum TelemetryError {
    /// The schema version is not supported.
    SchemaVersionUnsupported {
        /// The version found.
        got: u16,
        /// The highest version supported.
        supported: u16,
    },
    /// The sequence number overflowed.
    SequenceOverflow,
    /// Encoding or decoding failed.
    SerializationError(String),
    /// An unknown sensor kind was met.
    UnknownSensorKind(String),
}

/// The message of a telemetry error.
pub open spec fn telemetry_error_message(e: TelemetryError) -> Seq<char> {
    match e {
        TelemetryError::SchemaVersionUnsupported { got, supported } =>
            "unsupported telemetry schema version: got "@ + decimal_text(got as nat) + ", supported "@
            + decimal_text(supported as nat),
        TelemetryError::SequenceOverflow => "telemetry sequence number overflowed"@,
        TelemetryError::SerializationError(m) => "telemetry serialisation error: "@ + m@,
        TelemetryError::UnknownSensorKind(m) => "unknown sensor kind: "@ + m@,
    }
}

impl TelemetryError {
    /// The message of this error.
    pub fn to_string(&self) -> (s: String)
        ensures
            s@ == telemetry_error_message(*self),
    {
        match self {
            TelemetryError::SchemaVersionUnsupported { got, supported } => {
                let mut s = String::from_str("unsupported telemetry schema version: got ");
                let g = decimal(*got as u64);
                s.append(g.as_str());
                s.append(", supported ");
                let v = decimal(*supported as u64);
                s.append(v.as_str());
                s
            },
            TelemetryError::SequenceOverflow => String::from_str(
                "telemetry sequence number overflowed",
            ),
            TelemetryError::SerializationError(m) => {
                let mut s = String::from_str("telemetry serialisation error: ");
                s.append(m.as_str());
                s
            },
            TelemetryError::UnknownSensorKind(m) => {
                let mut s = String::from_str("unknown sensor kind: ");
                s.append(m.as_str());
                s
            },
        }
    }
}

/// The canonical error a telemetry error maps to: an unsupported version
/// or unknown sensor kind is a validation error, an overflow or encoding
/// failure an internal error; the message is the telemetry error's.
pub open spec fn telemetry_error_maps(e: TelemetryError, r: Error) -> bool {
    plain_error(
        r,
        match e {
            TelemetryError::SchemaVersionUnsupported { .. } | TelemetryError::UnknownSensorKind(
                _,
            ) => ErrorCode::ValidationError,
            TelemetryError::SequenceOverflow | TelemetryError::SerializationError(_) => ErrorCode::InternalError,
        },
        telemetry_error_message(e),
    )
}

impl vstd::std_specs::convert::FromSpecImpl<TelemetryError> for Error {
    /// The conversion is stated by the `ensures` of `from` itself.
    open spec fn obeys_from_spec() -> bool {
        false
    }

    open spec fn from_spec(e: TelemetryError) -> Error {
        vstd::pervasive::arbitrary()
    }
}

impl From<TelemetryError> for Error {
    fn from(e: TelemetryError) -> (r: Error)
        ensures
            telemetry_error_maps(e, r),
    {
        let m = e.to_string();
        match e {
            TelemetryError::SchemaVersionUnsupported { .. } | TelemetryError::UnknownSensorKind(
                _,
            ) => Error::validation_error(m.as_str()),
            TelemetryError::SequenceOverflow | TelemetryError::SerializationError(_) => {
                Error::internal_error(m.as_str())
            },
        }
    }
}

} // verus!
