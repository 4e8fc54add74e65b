//! Runtime errors shared by the desktop and embedded runtimes: join
//! failures, elapsed timeouts, backend refusals, and the cancellation
//! marker.
use vstd::prelude::*;
use vstd::string::*;

verus! {

/// A spawned task's join failed, for the reason given.
#[derive(Debug, Clone, PartialEq, Eq)]
pub struct JoinError {
    reason: String,
}

impl View for JoinError {
    type V = Seq<char>;

    closed spec fn view(&self) -> Seq<char> {
        self.reason@
    }
}

impl JoinError {
    /// A join error with `reason`.
    pub fn new(reason: &str) -> (r: Self)
        ensures
            r@ == reason@,
    {
        JoinError { reason: String::from_str(reason) }
    }

    /// The reason the join failed.
    pub fn reason(&self) -> (r: &str)
        ensures
            r@ == self@,
    {
        self.reason.as_str()
    }

    /// `join error: ` followed by the reason.
    pub fn to_string(&self) -> (s: String)
        ensures
            s@ == "join error: "@ + self@,
    {
        let mut s = String::from_str("join error: ");
        s.append(self.reason.as_str());
        s
    }
}

/// A timeout expired before the wrapped work completed.
#[derive(Debug, Clone, Copy, PartialEq, Eq, Structural)]
pub struct Elapsed;

impl Elapsed {
    /// `operation timed out`.
    pub fn to_string(&self) -> (s: String)
        ensures
            s@ == "operation timed out"@,
    {
        String::from_str("operation timed out")
    }
}

/// The signal value of an embedded cancellation.
#[derive(Debug, Clone, Copy, PartialEq, Eq, Structural)]
pub struct Cancelled;

impl Cancelled {
    /// `cancelled`.
    pub fn to_string(&self) -> (s: String)
        ensures
            s@ == "cancelled"@,
    {
        String::from_str("cancelled")
    }
}

/// The runtime error: a join failure, an elapsed timeout, or a backend
/// refusal.
#[derive(Debug, Clone, PartialEq, Eq)]
pub enum RuntimeError {
    /// A join failed.
    Join(JoinError),
    /// A timeout elapsed.
    Elapsed(Elapsed),
    /// The backend refused the operation.
    Backend(String),
}

/// The message of a runtime error.
pub open spec fn runtime_error_message(e: RuntimeError) -> Seq<char> {
    match e {
        RuntimeError::Join(j) => "join error: "@ + ("join error: "@ + j@),
        RuntimeError::Elapsed(_) => "timeout elapsed"@,
        RuntimeError::Backend(m) => "backend error: "@ + m@,
    }
}

impl RuntimeError {
    /// The message of this error.
    pub fn to_string(&self) -> (s: String)
        ensures
            s@ == runtime_error_message(*self),
    {
        match self {
            RuntimeError::Join(j) => {
                let mut s = String::from_str("join error: ");
                let t = j.to_string();
                s.append(t.as_str());
                s
            },
            RuntimeError::Elapsed(_) => String::from_str("timeout elapsed"),
            RuntimeError::Backend(m) => {
                let mut s = String::from_str("backend error: ");
                s.append(m.as_str());
                s
            },
        }
    }
}

impl vstd::std_specs::convert::FromSpecImpl<JoinError> for RuntimeError {
    /// The conversion is stated by the `ensures` of `from` itself.
    open spec fn obeys_from_spec() -> bool {
        false
    }

    open spec fn from_spec(e: JoinError) -> RuntimeError {
        vstd::pervasive::arbitrary()
    }
}

impl From<JoinError> for RuntimeError {
    fn from(e: JoinError) -> (r: RuntimeError)
        ensures
            r == RuntimeError::Join(e),
    {
        RuntimeError::Join(e)
    }
}

impl vstd::std_specs::convert::FromSpecImpl<Elapsed> for RuntimeError {
    /// The conversion is stated by the `ensures` of `from` itself.
    open spec fn obeys_from_spec() -> bool {
        false
    }

    open spec fn from_spec(e: Elapsed) -> RuntimeError {
        vstd::pervasive::arbitrary()
    }
}

impl From<Elapsed> for RuntimeError {
    fn from(e: Elapsed) -> (r: RuntimeError)
        ensures
            r == RuntimeError::Elapsed(e),
    {
        RuntimeError::Elapsed(e)
    }
}

} // verus!
