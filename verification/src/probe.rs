//! Outcome classification shared by every probe engine.

use vstd::prelude::*;

verus! {

/// Outcome category of a single probe attempt.
#[derive(Clone, Copy, Debug, PartialEq, Eq, Structural)]
pub enum ProbeStatusKind {
    /// Successfully completed.
    Done,
    /// Interrupted by an error.
    Error,
    /// Execution time exceeded the configured timeout value.
    Timeout,
}

impl ProbeStatusKind {
    /// Name of the status, for display.
    pub fn name(&self) -> (r: String)
        ensures
            r@ == self.name_spec(),
    {
        match *self {
            ProbeStatusKind::Done => String::from_str("Done"),
            ProbeStatusKind::Error => String::from_str("Error"),
            ProbeStatusKind::Timeout => String::from_str("Timeout"),
        }
    }

    /// The character sequence `name` returns.
    pub open spec fn name_spec(self) -> Seq<char> {
        match self {
            ProbeStatusKind::Done => "Done"@,
            ProbeStatusKind::Error => "Error"@,
            ProbeStatusKind::Timeout => "Timeout"@,
        }
    }
}

/// Status of a single probe attempt: the category plus a diagnostic message.
#[derive(Debug)]
pub struct ProbeStatus {
    pub kind: ProbeStatusKind,
    pub message: String,
}

impl Clone for ProbeStatus {
    /// Cloning keeps the status.
    fn clone(&self) -> (r: Self)
        ensures
            r == *self,
    {
        ProbeStatus { kind: self.kind, message: self.message.clone() }
    }
}

impl ProbeStatus {
    /// A successful status with an empty message.
    pub fn new() -> (r: ProbeStatus)
        ensures
            r.kind == ProbeStatusKind::Done,
            r.message@ == Seq::<char>::empty(),
    {
        ProbeStatus { kind: ProbeStatusKind::Done, message: String::new() }
    }

    /// An error status carrying the given message.
    pub fn with_error_message(message: String) -> (r: ProbeStatus)
        ensures
            r.kind == ProbeStatusKind::Error,
            r.message == message,
    {
        ProbeStatus { kind: ProbeStatusKind::Error, message }
    }

    /// A timeout status carrying the given message.
    pub fn with_timeout_message(message: String) -> (r: ProbeStatus)
        ensures
            r.kind == ProbeStatusKind::Timeout,
            r.message == message,
    {
        ProbeStatus { kind: ProbeStatusKind::Timeout, message }
    }

    /// True exactly when the probe completed successfully.
    pub fn is_ok(&self) -> (r: bool)
        ensures
            r == (self.kind == ProbeStatusKind::Done),
    {
        matches!(self.kind, ProbeStatusKind::Done)
    }

    /// True exactly when the probe failed with an error.
    pub fn is_error(&self) -> (r: bool)
        ensures
            r == (self.kind == ProbeStatusKind::Error),
    {
        matches!(self.kind, ProbeStatusKind::Error)
    }

    /// True exactly when the probe timed out.
    pub fn is_timeout(&self) -> (r: bool)
        ensures
            r == (self.kind == ProbeStatusKind::Timeout),
    {
        matches!(self.kind, ProbeStatusKind::Timeout)
    }
}

} // verus!
