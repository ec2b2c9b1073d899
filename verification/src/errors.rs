//! Error taxonomy of the facade.
//!
//! Per-operation device failures are classified into the small
//! [`SerialError`] enumeration and returned, never silently dropped and
//! never escalated to a panic. Construction-time failures are reported as
//! [`DeviceError`]; listener-builder misuse as [`BuildError`].

use vstd::prelude::*;

verus! {

/// Outcome of a read operation: the classification of the call and the
/// number of raw bytes consumed from the device stream.
#[derive(Clone, Copy, Debug, PartialEq, Eq, Structural)]
pub struct ReadResult {
    /// The error this read produced, if any.
    pub error: SerialError,
    /// The number of bytes read into the buffer.
    pub bytes_read: usize,
}

/// Per-operation classification of a device failure.
///
/// `Timeout` and `Interrupted` are retryable by reissuing the identical
/// call; `Other` carries no retry guarantee. `PortIOErr` is kept for
/// callers of earlier revisions; no operation of this design produces it,
/// since the read-side handle is duplicated once at construction and never
/// re-cloned per call.
#[derive(Clone, Copy, Debug, PartialEq, Eq, Structural)]
pub enum SerialError {
    /// The operation succeeded.
    NoErr,
    /// The action timed out.
    Timeout,
    /// The operation was interrupted, but did not fail. Can be started again.
    Interrupted,
    /// The port errored while opening or cloning.
    PortIOErr,
    /// Uncategorized error.
    Other,
}

/// The failure kinds a raw device transfer can report, as the facade
/// distinguishes them.
#[derive(Clone, Copy, Debug, PartialEq, Eq, Structural)]
pub enum IoFailure {
    /// The transfer was interrupted and may be retried as-is.
    Interrupted,
    /// The device-level timeout elapsed.
    TimedOut,
    /// Any other device failure, such as a disconnect.
    Other,
}

/// The classification an operation returns for a raw transfer outcome:
/// success maps to `NoErr`, a failure to its three-way classification.
pub open spec fn spec_classify(outcome: Result<(), IoFailure>) -> SerialError {
    match outcome {
        Ok(_) => SerialError::NoErr,
        Err(IoFailure::Interrupted) => SerialError::Interrupted,
        Err(IoFailure::TimedOut) => SerialError::Timeout,
        Err(IoFailure::Other) => SerialError::Other,
    }
}

/// Classifies the outcome of a raw device transfer.
pub fn classify_outcome(outcome: Result<(), IoFailure>) -> (r: SerialError)
    ensures
        r == spec_classify(outcome),
{
    match outcome {
        Ok(_) => SerialError::NoErr,
        Err(IoFailure::Interrupted) => SerialError::Interrupted,
        Err(IoFailure::TimedOut) => SerialError::Timeout,
        Err(IoFailure::Other) => SerialError::Other,
    }
}

/// Classifies a raw transfer failure.
pub fn classify_failure(k: IoFailure) -> (r: SerialError)
    ensures
        r == spec_classify(Err(k)),
{
    match k {
        IoFailure::Interrupted => SerialError::Interrupted,
        IoFailure::TimedOut => SerialError::Timeout,
        IoFailure::Other => SerialError::Other,
    }
}

/// Why the device could not be opened or duplicated at construction time.
#[derive(Clone, Copy, Debug, PartialEq, Eq, Structural)]
pub enum DeviceErrorKind {
    /// The device is not available, in use, or was disconnected.
    NoDevice,
    /// A parameter was incorrect.
    InvalidInput,
    /// An unknown device error occurred.
    Unknown,
    /// An I/O error occurred while opening or duplicating.
    Io(IoFailure),
}

/// A construction-time failure: opening the device or duplicating its
/// handle failed. Fatal to that call and surfaced to the caller.
#[derive(Clone, Debug)]
pub struct DeviceError {
    /// The kind of failure.
    pub kind: DeviceErrorKind,
    /// A description of the failure suitable for end-users.
    pub description: String,
}

impl DeviceError {
    /// The kind of failure.
    pub fn kind(&self) -> (k: DeviceErrorKind)
        ensures
            k == self.kind,
    {
        self.kind
    }
}

/// Why a listener could not be built.
#[derive(Clone, Copy, Debug, PartialEq, Eq, Structural)]
pub enum BuildError {
    /// No callback was attached to the builder.
    CallbackMissing,
    /// The builder's reader was already consumed by an earlier successful
    /// build; make another builder instead.
    BuilderSpent,
}

} // verus!
