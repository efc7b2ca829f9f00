//! Error taxonomy of the probe core.

use vstd::prelude::*;

verus! {

/// Why a probe run, or one step of it, could not proceed.
///
/// Per-sample failures (timeouts, connect errors) are recorded in the
/// sample's status and do not abort a run; these variants describe what
/// aborts a run or rejects a setting.
#[derive(Clone, Debug, PartialEq, Eq)]
pub enum ProbeError {
    /// The setting is rejected: unsupported family mix, empty target list,
    /// zero count, and the like.
    InvalidArgument(String),
    /// The platform cannot provide the probe.
    Unsupported(String),
    /// Socket open refused.
    PermissionDenied(String),
    /// Deadline exceeded.
    Timeout(String),
    /// Any other kernel-reported I/O error.
    Io(String),
    /// Malformed packet or unexpected reply classification.
    Protocol(String),
    /// External cancellation.
    Cancelled,
}

impl ProbeError {
    /// A short name for the error class, for display.
    pub fn class_name(&self) -> (r: String)
        ensures
            r@ == self.class_name_spec(),
    {
        match self {
            ProbeError::InvalidArgument(_) => String::from_str("InvalidArgument"),
            ProbeError::Unsupported(_) => String::from_str("Unsupported"),
            ProbeError::PermissionDenied(_) => String::from_str("PermissionDenied"),
            ProbeError::Timeout(_) => String::from_str("Timeout"),
            ProbeError::Io(_) => String::from_str("Io"),
            ProbeError::Protocol(_) => String::from_str("Protocol"),
            ProbeError::Cancelled => String::from_str("Cancelled"),
        }
    }

    /// The character sequence `class_name` returns.
    pub open spec fn class_name_spec(self) -> Seq<char> {
        match self {
            ProbeError::InvalidArgument(_) => "InvalidArgument"@,
            ProbeError::Unsupported(_) => "Unsupported"@,
            ProbeError::PermissionDenied(_) => "PermissionDenied"@,
            ProbeError::Timeout(_) => "Timeout"@,
            ProbeError::Io(_) => "Io"@,
            ProbeError::Protocol(_) => "Protocol"@,
            ProbeError::Cancelled => "Cancelled"@,
        }
    }
}

/// The kernel-reported error classes the probe engines distinguish. The
/// caller maps the platform's error kind onto this model; everything it
/// does not name is `Other`.
#[derive(Clone, Copy, Debug, PartialEq, Eq, Structural)]
pub enum IoErrorKind {
    TimedOut,
    ConnectionRefused,
    ConnectionReset,
    NotConnected,
    NetworkUnreachable,
    HostUnreachable,
    AddrNotAvailable,
    Other,
}

} // verus!
