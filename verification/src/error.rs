//! The error taxonomy of the update layer.
//!
//! Two errors originate here (`UnsupportedVersion`, `UnsupportedShape`); the
//! remaining kinds classify failures reported by the proving backend and are
//! propagated annotated with the operation that triggered them.

use vstd::prelude::*;

verus! {

/// The five protocol operations, used to annotate propagated backend failures.
#[derive(Clone, Copy, Debug, PartialEq, Eq, Structural)]
pub enum OpKind {
    Encode,
    Decode,
    RemoveData,
    GenerateProof,
    VerifyProof,
}

/// Everything an operation of this layer can fail with.
#[derive(Clone, Copy, Debug, PartialEq, Eq, Structural)]
pub enum UpdateError {
    /// The descriptor's major version is not the one this layer implements.
    UnsupportedVersion { major_version: u64 },
    /// The descriptor's sector size is outside the registered dispatch table.
    UnsupportedShape { sector_size: u64 },
    /// The backend recomputed a commitment and it disagreed with the supplied one.
    CommitmentMismatch { op: OpKind },
    /// The backend failed reading or writing one of the supplied paths.
    IoFailure { op: OpKind },
    /// The backend's commitment or proving computation failed.
    BackendComputationFailure { op: OpKind },
}

/// How the backend reports a failure, before this layer annotates it.
#[derive(Clone, Copy, Debug, PartialEq, Eq, Structural)]
pub enum BackendFailure {
    CommitmentMismatch,
    Io,
    Computation,
}

/// The annotation every propagated backend failure receives: its kind is kept
/// exactly, and the operation that triggered it is attached.
pub open spec fn spec_backend_error(op: OpKind, failure: BackendFailure) -> UpdateError {
    match failure {
        BackendFailure::CommitmentMismatch => UpdateError::CommitmentMismatch { op },
        BackendFailure::Io => UpdateError::IoFailure { op },
        BackendFailure::Computation => UpdateError::BackendComputationFailure { op },
    }
}

/// Classifies a backend failure into this layer's error taxonomy. No failure
/// is downgraded, retried or dropped: each backend kind maps to exactly one
/// error, annotated with the operation that triggered it.
pub fn backend_failure_to_error(op: OpKind, failure: BackendFailure) -> (e: UpdateError)
    ensures
        e == spec_backend_error(op, failure),
{
    match failure {
        BackendFailure::CommitmentMismatch => UpdateError::CommitmentMismatch { op },
        BackendFailure::Io => UpdateError::IoFailure { op },
        BackendFailure::Computation => UpdateError::BackendComputationFailure { op },
    }
}

} // verus!
