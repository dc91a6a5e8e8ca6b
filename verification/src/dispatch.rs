//! Public failures and outputs of a dispatched request.

use vstd::prelude::*;

verus! {

/// The public failures that a request can be answered with.
#[derive(Clone, Copy, Debug, PartialEq, Eq, Structural)]
pub enum DispatchFailureKindV1 {
    ArtifactChanged,
    AttemptNotCurrent,
    BareGitRepository,
    BlockerLimitReached,
    BlockerNotCurrent,
    BlockerNotFound,
    BlockersPresent,
    CriterionCitationInvalid,
    CriterionModeMixed,
    CriterionNotFound,
    DaemonUnavailable,
    DecisionReasonMissing,
    DigestConfirmationRequired,
    EvidenceReferenceStale,
    EvidenceReferenceUnresolved,
    FreshGoalAssessmentMissing,
    GoalRevisionStale,
    GoalRevisionTargetNotAllowed,
    GoalRevisionTargetNotRevisionSafe,
    GoalTrackingNotEnabled,
    GraphNodeTypeMismatch,
    IdempotencyKeyReused,
    Internal,
    ItemConstraintFailed,
    ItemNotFound,
    ItemRevisionConflict,
    ItemTypeMismatch,
    JobNotCancellable,
    JobNotFound,
    JobWaitTimeout,
    ListValueDuplicate,
    ListValueNotFound,
    ManualReworkTargetNotAllowed,
    ManualReworkTargetNotOnTrace,
    MutationOutcomeUnknown,
    NotGitWorktree,
    OptionNotAllowed,
    PathOutsideWorktree,
    ProcedureDigestMismatch,
    ProcedureInvalid,
    ProcedureV2SchemaInvalid,
    ReactivationFlagRequired,
    ReopenNotAllowed,
    RequestInvalid,
    RequiredItemsMissing,
    ReturnNotAllowed,
    RouteNotAllowed,
    SessionAlreadyExists,
    SessionCancelled,
    SessionGoalAlreadyDefined,
    SessionGoalMissing,
    SessionIdMismatch,
    SessionNotFound,
    SessionNotRunning,
    SessionRevisionConflict,
    StageNotSkippable,
    UnsupportedV2Capability,
    WorkspaceAlreadyInitialized,
    WorkspaceConfigInvalid,
    WorkspaceIdentityConflict,
    WorkspaceInitConflict,
    WorkspaceMaintenance,
    WorkspaceNotInitialized,
    WorkspacePathUnsafe,
    WorkspaceSchemaUnsupported,
    WorkspaceStateUnreadable,
    WorkspaceUuidMismatch,
    WorktreeGone,
}

/// The evidence that a public failure carries.
#[derive(Clone, Debug, PartialEq, Eq)]
pub enum DispatchErrorDetailsV1 {
    Absent,
    AttemptMismatch { expected: String, actual: Option<String> },
    BlockerLimit { maximum_open_blockers: usize },
    CriterionCitationInvalid { criterion_id: String, citation: serde_json::Value },
    CriterionModeMixed { criterion_id: String, expected_mode: String, actual_status: String },
    CriterionNotFound { criterion_id: String },
    DecisionReasonMissing { graph_node_id: String },
    DigestConfirmationRequired { procedure_digest: String },
    EvidenceReferenceStale {
        graph_node_id: String,
        source_graph_node_id: String,
        expected_source_attempt_id: String,
        current_source_attempt_id: Option<String>,
    },
    EvidenceReferenceUnresolved { graph_node_id: String, source_graph_node_ids: Vec<String> },
    FreshGoalAssessmentMissing { goal_revision: u64 },
    GoalRevisionStale { expected_goal_revision: u64, actual_goal_revision: u64 },
    GoalRevisionTargetNotAllowed { target_graph_node_id: String },
    GoalRevisionTargetNotRevisionSafe { target_graph_node_id: String },
    GoalTrackingNotEnabled,
    GraphNodeTypeMismatch { graph_node_id: String, actual: String },
    ManualReworkTargetNotAllowed { target_graph_node_id: String },
    ManualReworkTargetNotOnTrace { target_graph_node_id: String },
    OptionNotAllowed { graph_node_id: String, option_id: String, allowed_option_ids: Vec<String> },
    ProcedureDigestMismatch { expected: String, actual: String },
    ProcedureV2SchemaInvalid { diagnostic_codes: Vec<String> },
    ReactivationFlagRequired,
    Revisions { expected: Option<u64>, current: Option<u64> },
    RouteNotAllowed { graph_node_id: String, option_id: String },
    SessionGoalAlreadyDefined { goal_revision: u64 },
    SessionGoalMissing,
    SessionIdMismatch { expected: String, actual: Option<String> },
    UnknownOutcome { idempotency_key: String },
    UnsupportedV2Capability { capability: String, required_result_schema: String },
    WorkspaceUuidMismatch { expected: String, actual: String },
}

/// The job that a request was admitted as before it failed.
#[derive(Clone, Debug, PartialEq, Eq)]
pub struct AdmissionIdentityV1 {
    pub job_id: String,
    pub workspace_sequence: u64,
}

/// The public state of a job.
#[derive(Clone, Copy, Debug, PartialEq, Eq, Structural)]
pub enum JobStateV1 {
    Queued,
    Running,
    Succeeded,
    Failed,
    Cancelled,
}

/// A job as a response shows it, its instants as timestamps.
#[derive(Clone, Debug, PartialEq, Eq)]
pub struct JobOutputV1 {
    pub id: String,
    pub sequence: u64,
    pub state: JobStateV1,
    pub submitted_at: String,
    pub claimed_at: Option<String>,
    pub finished_at: Option<String>,
}

/// A workspace as a response shows it.
#[derive(Clone, Debug, PartialEq, Eq)]
pub struct WorkspaceOutputV1 {
    pub uuid: String,
    pub root: String,
    pub latest_workspace_sequence: u64,
}

/// The public lifecycle of a session.
#[derive(Clone, Copy, Debug, PartialEq, Eq, Structural)]
pub enum SessionLifecycleV1 {
    Running,
    Completed,
    Cancelled,
}

/// A session as a response shows it.
#[derive(Clone, Debug, PartialEq, Eq)]
pub struct SessionOutputV1 {
    pub id: String,
    pub title: String,
    pub lifecycle: SessionLifecycleV1,
    pub revision_before: u64,
    pub revision_after: u64,
}

/// A public failure, its evidence, and what had been admitted or waited for when it arose.
#[derive(Clone, Debug, PartialEq, Eq)]
pub struct DispatchFailureV1 {
    pub kind: DispatchFailureKindV1,
    pub details: DispatchErrorDetailsV1,
    pub admission: Option<AdmissionIdentityV1>,
    pub job: Option<JobOutputV1>,
}

/// A failure without evidence.
pub open spec fn bare_failure(kind: DispatchFailureKindV1) -> DispatchFailureV1 {
    detailed_failure(kind, DispatchErrorDetailsV1::Absent)
}

/// A failure with the given evidence.
pub open spec fn detailed_failure(
    kind: DispatchFailureKindV1,
    details: DispatchErrorDetailsV1,
) -> DispatchFailureV1 {
    DispatchFailureV1 { kind, details, admission: None, job: None }
}

/// A failure that arose after a job had been admitted.
pub open spec fn admitted_failure(
    failure: DispatchFailureV1,
    job_id: String,
    workspace_sequence: u64,
) -> DispatchFailureV1 {
    DispatchFailureV1 {
        admission: Some(AdmissionIdentityV1 { job_id, workspace_sequence }),
        ..failure
    }
}

impl DispatchFailureV1 {
    /// A failure without evidence.
    pub fn new(kind: DispatchFailureKindV1) -> (failure: Self)
        ensures
            failure == bare_failure(kind),
    {
        DispatchFailureV1 {
            kind,
            details: DispatchErrorDetailsV1::Absent,
            admission: None,
            job: None,
        }
    }

    /// The failure with other evidence.
    pub fn with_details(self, details: DispatchErrorDetailsV1) -> (failure: Self)
        ensures
            failure == (DispatchFailureV1 { details, ..self }),
    {
        DispatchFailureV1 {
            kind: self.kind,
            details,
            admission: self.admission,
            job: self.job,
        }
    }

    /// The failure of another kind, with the same evidence.
    pub fn with_kind(self, kind: DispatchFailureKindV1) -> (failure: Self)
        ensures
            failure == (DispatchFailureV1 { kind, ..self }),
    {
        DispatchFailureV1 {
            kind,
            details: self.details,
            admission: self.admission,
            job: self.job,
        }
    }

    /// The failure of a request that had been admitted as the given job.
    pub fn with_admission_identity(self, job_id: String, workspace_sequence: u64) -> (failure: Self)
        ensures
            failure == admitted_failure(self, job_id, workspace_sequence),
    {
        DispatchFailureV1 {
            kind: self.kind,
            details: self.details,
            admission: Some(AdmissionIdentityV1 { job_id, workspace_sequence }),
            job: self.job,
        }
    }

    /// The failure of a request that waited for the given job.
    pub fn with_job(self, job: JobOutputV1) -> (failure: Self)
        ensures
            failure == (DispatchFailureV1 { job: Some(job), ..self }),
    {
        DispatchFailureV1 {
            kind: self.kind,
            details: self.details,
            admission: self.admission,
            job: Some(job),
        }
    }

    /// The kind of the failure.
    pub fn kind(&self) -> (kind: DispatchFailureKindV1)
        ensures
            kind == self.kind,
    {
        self.kind
    }
}

} // verus!
