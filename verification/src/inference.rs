//! The inference runtime's admission rules: resource budgets, the
//! rollback handle of the last known good model, and the inference error
//! with its mappings.
use vstd::prelude::*;
use vstd::string::*;

use crate::artifact::{artifact_error_message, ArtifactError};
use crate::error::{plain_error, Error, ErrorCode};
use crate::model::{Timestamp, TimestampKind};
use crate::text::{decimal, decimal_text};

verus! {

/// Dimension of the estimator state.
pub const STATE_DIM: usize = 21;

/// Resource budget for online adaptation.
#[derive(Debug, Clone, Copy, PartialEq, Eq, Structural)]
pub struct ResourceBudget {
    /// Largest share of one core, in percent.
    pub cpu_budget_pct: u8,
    /// Largest resident memory for adaptation, in bytes.
    pub memory_budget_bytes: u64,
    /// Longest wall time of one inference, in milliseconds.
    pub inference_deadline_ms: u16,
    /// Longest wall time of one update step, in milliseconds.
    pub adaptation_deadline_ms: u16,
}

impl ResourceBudget {
    /// A budget; a CPU share over 100 percent is refused.
    pub fn new(
        cpu_budget_pct: u8,
        memory_budget_bytes: u64,
        inference_deadline_ms: u16,
        adaptation_deadline_ms: u16,
    ) -> (r: Result<Self, InferenceError>)
        ensures
            cpu_budget_pct > 100 ==> r == Err::<Self, InferenceError>(
                InferenceError::BudgetExceeded { used_cpu: cpu_budget_pct, limit_cpu: 100 },
            ),
            cpu_budget_pct <= 100 ==> r == Ok::<Self, InferenceError>(
                ResourceBudget {
                    cpu_budget_pct,
                    memory_budget_bytes,
                    inference_deadline_ms,
                    adaptation_deadline_ms,
                },
            ),
    {
        if cpu_budget_pct > 100 {
            return Err(InferenceError::BudgetExceeded { used_cpu: cpu_budget_pct, limit_cpu: 100 });
        }
        Ok(
            ResourceBudget {
                cpu_budget_pct,
                memory_budget_bytes,
                inference_deadline_ms,
                adaptation_deadline_ms,
            },
        )
    }
}

/// The last known good model, kept for restoration.
#[derive(Debug, Clone, PartialEq, Eq)]
pub struct RollbackHandle {
    /// Its model id.
    pub previous_model_id: String,
    /// Its raw bytes.
    pub previous_model_bytes: Vec<u8>,
}

impl RollbackHandle {
    /// A handle on a previous model.
    pub fn new(previous_model_id: String, previous_model_bytes: Vec<u8>) -> (r: Self)
        ensures
            r.previous_model_id == previous_model_id,
            r.previous_model_bytes@ == previous_model_bytes@,
    {
        RollbackHandle { previous_model_id, previous_model_bytes }
    }

    /// The previous model's bytes; refused when none were kept or the id
    /// is missing.
    pub fn restore(self) -> (r: Result<Vec<u8>, InferenceError>)
        ensures
            self.previous_model_bytes@.len() == 0 ==> (r matches Err(
                InferenceError::RollbackFailed(m),
            ) && m@ == "no previous model bytes retained"@),
            self.previous_model_bytes@.len() > 0 && self.previous_model_id@.len() == 0 ==> (r matches Err(
                InferenceError::RollbackFailed(m),
            ) && m@ == "previous model id missing"@),
            self.previous_model_bytes@.len() > 0 && self.previous_model_id@.len() > 0 ==> (r matches Ok(
                b,
            ) && b@ == self.previous_model_bytes@),
    {
        if self.previous_model_bytes.len() == 0 {
            return Err(
                InferenceError::RollbackFailed(String::from_str("no previous model bytes retained")),
            );
        }
        if self.previous_model_id.as_str().unicode_len() == 0 {
            return Err(InferenceError::RollbackFailed(String::from_str("previous model id missing")));
        }
        Ok(self.previous_model_bytes)
    }
}

/// Errors raised by the inference engine.
#[derive(Debug, Clone, PartialEq)]
pub enum InferenceError {
    /// The artifact was invalid.
    ArtifactInvalid(String),
    /// The resource budget was exceeded.
    BudgetExceeded {
        /// CPU share used.
        used_cpu: u8,
        /// CPU share allowed.
        limit_cpu: u8,
    },
    /// The inference deadline was exceeded.
    DeadlineExceeded {
        /// The deadline in milliseconds.
        deadline_ms: u16,
        /// The time taken in milliseconds.
        actual_ms: u16,
    },
    /// Rollback failed.
    RollbackFailed(String),
    /// No model is loaded.
    ModelNotLoaded,
    /// The forward pass failed.
    InferenceFailed(String),
    /// Artifact and expected schema disagree.
    SchemaMismatch {
        /// The expected side.
        expected: String,
        /// The side found.
        got: String,
    },
}

/// The message of an inference error.
pub open spec fn inference_error_message(e: InferenceError) -> Seq<char> {
    match e {
        InferenceError::ArtifactInvalid(m) => "artifact invalid: "@ + m@,
        InferenceError::BudgetExceeded { used_cpu, limit_cpu } => "budget exceeded: used_cpu "@
            + decimal_text(used_cpu as nat) + " > limit_cpu "@ + decimal_text(limit_cpu as nat),
        InferenceError::DeadlineExceeded { deadline_ms, actual_ms } =>
            "deadline exceeded: deadline_ms "@ + decimal_text(deadline_ms as nat) + ", actual_ms "@
            + decimal_text(actual_ms as nat),
        InferenceError::RollbackFailed(m) => "rollback failed: "@ + m@,
        InferenceError::ModelNotLoaded => "model not loaded"@,
        InferenceError::InferenceFailed(m) => "inference failed: "@ + m@,
        InferenceError::SchemaMismatch { expected, got } => "schema mismatch: expected "@
            + expected@ + ", got "@ + got@,
    }
}

fn two_numbers(a: &str, x: u64, b: &str, y: u64) -> (s: String)
    ensures
        s@ == a@ + decimal_text(x as nat) + b@ + decimal_text(y as nat),
{
    let mut s = String::from_str(a);
    let dx = decimal(x);
    s.append(dx.as_str());
    s.append(b);
    let dy = decimal(y);
    s.append(dy.as_str());
    s
}

impl InferenceError {
    /// The message of this error.
    pub fn to_string(&self) -> (s: String)
        ensures
            s@ == inference_error_message(*self),
    {
        match self {
            InferenceError::ArtifactInvalid(m) => {
                let mut s = String::from_str("artifact invalid: ");
                s.append(m.as_str());
                s
            },
            InferenceError::BudgetExceeded { used_cpu, limit_cpu } => two_numbers(
                "budget exceeded: used_cpu ",
                *used_cpu as u64,
                " > limit_cpu ",
                *limit_cpu as u64,
            ),
            InferenceError::DeadlineExceeded { deadline_ms, actual_ms } => two_numbers(
                "deadline exceeded: deadline_ms ",
                *deadline_ms as u64,
                ", actual_ms ",
                *actual_ms as u64,
            ),
            InferenceError::RollbackFailed(m) => {
                let mut s = String::from_str("rollback failed: ");
                s.append(m.as_str());
                s
            },
            InferenceError::ModelNotLoaded => String::from_str("model not loaded"),
            InferenceError::InferenceFailed(m) => {
                let mut s = String::from_str("inference failed: ");
                s.append(m.as_str());
                s
            },
            InferenceError::SchemaMismatch { expected, got } => {
                let mut s = String::from_str("schema mismatch: expected ");
                s.append(expected.as_str());
                s.append(", got ");
                s.append(got.as_str());
                s
            },
        }
    }
}

impl vstd::std_specs::convert::FromSpecImpl<InferenceError> for Error {
    /// The conversion is stated by the `ensures` of `from` itself.
    open spec fn obeys_from_spec() -> bool {
        false
    }

    open spec fn from_spec(e: InferenceError) -> Error {
        vstd::pervasive::arbitrary()
    }
}

impl From<InferenceError> for Error {
    /// Every inference error is an internal error carrying its message.
    fn from(e: InferenceError) -> (r: Error)
        ensures
            plain_error(r, ErrorCode::InternalError, inference_error_message(e)),
    {
        let m = e.to_string();
        Error::internal_error(m.as_str())
    }
}

impl vstd::std_specs::convert::FromSpecImpl<ArtifactError> for InferenceError {
    /// The conversion is stated by the `ensures` of `from` itself.
    open spec fn obeys_from_spec() -> bool {
        false
    }

    open spec fn from_spec(e: ArtifactError) -> InferenceError {
        vstd::pervasive::arbitrary()
    }
}

impl From<ArtifactError> for InferenceError {
    /// An artifact error makes the artifact invalid, with its message.
    fn from(e: ArtifactError) -> (r: InferenceError)
        ensures
            r matches InferenceError::ArtifactInvalid(m) && m@ == artifact_error_message(e@),
    {
        InferenceError::ArtifactInvalid(e.to_string())
    }
}

/// The timestamp inference stamps its results with: the best-effort
/// monotonic clock.
pub fn now_timestamp() -> (r: Timestamp)
    ensures
        r.kind == TimestampKind::Monotonic,
{
    Timestamp::now_monotonic()
}

} // verus!
