//! Why the execution of a request fails.

use crate::store::StoreErrorV1;
use vstd::prelude::*;

verus! {

/// Why a request does not satisfy the rules of a session.
#[derive(Clone, Debug, PartialEq, Eq)]
pub enum DomainErrorV1 {
    PreconditionFailed { expected: u64, actual: u64 },
    SessionIdentityMismatch { expected: String, actual: Option<String> },
    AttemptNotCurrent { expected: String, actual: Option<String> },
    InvalidTransition,
    InvalidState,
    RequiredItemsMissing,
    BlockersPresent,
    BlockerLimitReached { maximum_open_blockers: usize },
    ItemNotFound,
    BlockerNotCurrent,
    ArtifactChanged,
    RevisionOverflow,
    EmptyValue,
    ValueTooLong,
    InvalidUuid,
    InvalidIdentifier,
    InvalidSha256Digest,
}

/// Why a procedure could not be loaded for a request.
#[derive(Clone, Debug, PartialEq, Eq)]
pub enum ExecutionBoundaryErrorV1 {
    Domain(DomainErrorV1),
    ProcedureV2Unsupported,
    WorkspaceIdentityMismatch { expected: String, actual: String },
    Transient,
}

/// Why an execution failed.
#[derive(Debug, PartialEq, Eq)]
pub enum ExecutionErrorV1 {
    Store(StoreErrorV1),
    UnsupportedV2Capability { capability: String, required_result_schema: String },
    BoundaryDomain(DomainErrorV1),
    BoundaryTransient,
    SessionIdentityMismatch { expected: String, actual: Option<String> },
    WorkspaceIdentityMismatch { expected: String, actual: String },
    ProcedureDigestMismatch { expected: String, actual: String },
    InvalidPersistedExecution { reason: &'static str },
    InvalidStoreValue,
}

/// Why the source of a graph procedure is not admitted.
#[derive(Clone, Debug, PartialEq, Eq)]
pub enum ProcedureV2SourceAdmissionErrorV1 {
    NotProcedureV2,
    SchemaInvalid { diagnostic_codes: Vec<String> },
    Rejected(ExecutionBoundaryErrorV1),
}

/// Why a goal could not be bound to a session.
#[derive(Clone, Copy, Debug, PartialEq, Eq, Structural)]
pub enum GraphMutationErrorV2 {
    GoalTrackingNotEnabled,
    Other,
}

/// Why the start of a graph session could not be prepared.
#[derive(Debug, PartialEq, Eq)]
pub enum ProcedureV2StartPreparationErrorV1 {
    Source(ProcedureV2SourceAdmissionErrorV1),
    DigestConfirmationRequired { procedure_digest: String },
    ProcedureDigestMismatch { expected: String, actual: String },
    PinnedPresetDigestMismatch { expected: String, actual: String },
    Execution(ExecutionErrorV1),
    GoalMutation(GraphMutationErrorV2),
    Domain(DomainErrorV1),
    InvalidStoreValue,
}

} // verus!
