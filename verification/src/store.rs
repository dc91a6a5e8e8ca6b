//! What the daemon reads from a workspace Store and hands to it, as plain values.

use crate::text::copy_texts;
use vstd::prelude::*;

verus! {

/// The state of a durable job.
#[derive(Clone, Copy, Debug, PartialEq, Eq, Structural)]
pub enum StoreJobStateV1 {
    Queued,
    Running,
    Succeeded,
    Failed,
    Cancelled,
}

/// The state in which a job ended.
#[derive(Clone, Copy, Debug, PartialEq, Eq, Structural)]
pub enum PersistedTerminalJobStateV1 {
    Succeeded,
    Failed,
    Cancelled,
}

/// The lifecycle of a persisted session.
#[derive(Clone, Copy, Debug, PartialEq, Eq, Structural)]
pub enum PersistedSessionLifecycleV1 {
    Running,
    Completed,
    Cancelled,
}

/// A durable command, without the payload that its execution carries.
#[derive(Clone, Copy, Debug, PartialEq, Eq, Structural)]
pub enum CommandV1 {
    WorkspaceInitialize,
    WorkspaceResetAll,
    SessionStart,
    SessionStartReplace,
    SessionComplete,
    SessionSkip,
    SessionRetry,
    SessionReturn,
    SessionBlock,
    SessionUnblock,
    SessionCancel,
    SessionReopen,
    SessionReset,
    SessionDecide,
    SessionRework,
    GoalDefine,
    GoalRevise,
    GoalAssessCriterion,
    ItemCheck,
    ItemUncheck,
    ItemSet,
    ItemAdd,
    ItemRemove,
    ItemAttach,
    ItemClear,
}

/// The identity of a worktree as its Store holds it.
#[derive(Clone, Debug, PartialEq, Eq)]
pub struct DurableWorktreeIdentityV1 {
    pub common_dir_identity: String,
    pub workspace_uuid: String,
    pub worktree_admin_identity: String,
}

/// The receipt of an admitted job.
#[derive(Clone, Debug, PartialEq, Eq)]
pub struct JobReceiptV1 {
    pub identity_sequence: u64,
    pub job_id: String,
    pub request_digest: String,
}

/// How and when a job ended.
#[derive(Clone, Copy, Debug, PartialEq, Eq)]
pub struct PersistedTerminalJobProjectionV1 {
    pub state: PersistedTerminalJobStateV1,
    pub submitted_at: u64,
    pub claimed_at: Option<u64>,
    pub finished_at: u64,
}

/// The session that a terminal job left behind.
#[derive(Clone, Debug, PartialEq, Eq)]
pub struct PersistedTerminalSessionProjectionV1 {
    pub session_id: String,
    pub task_title: String,
    pub lifecycle: PersistedSessionLifecycleV1,
    pub revision_before: u64,
    pub revision_after: u64,
    pub procedure_digest: Option<String>,
}

/// The graph session that a terminal job left behind.
#[derive(Clone, Debug, PartialEq, Eq)]
pub struct PersistedGraphTerminalSessionProjectionV2 {
    pub session_id: String,
    pub task_title: String,
    pub lifecycle: PersistedSessionLifecycleV1,
    pub revision_before: u64,
    pub revision_after: u64,
    pub procedure_digest: String,
    pub entry_graph_node_id: String,
    pub goal_tracking: bool,
    pub goal_defined: bool,
    pub operation: Option<PersistedGraphTerminalOperationV2>,
}

/// The operation that a terminal job performed on a graph session.
#[derive(Clone, Debug, PartialEq, Eq)]
pub enum PersistedGraphTerminalOperationV2 {
    Decide { record: serde_json::Value, target_attempt_id: String },
    Rework { record: serde_json::Value },
    GoalDefine { record: serde_json::Value },
    GoalRevise { record: serde_json::Value },
    GoalAssessCriterion { record: serde_json::Value },
    Complete {
        from_graph_node_id: String,
        from_attempt_id: String,
        to_graph_node_id: Option<String>,
        to_attempt_id: Option<String>,
    },
    Skip {
        from_graph_node_id: String,
        from_attempt_id: String,
        to_graph_node_id: Option<String>,
        to_attempt_id: Option<String>,
        reason: Option<String>,
    },
    Retry {
        graph_node_id: String,
        from_attempt_id: String,
        to_attempt_id: String,
        reason: String,
    },
    Block { graph_node_id: String, attempt_id: String, blocker_id: String, reason: String },
    Unblock { graph_node_id: String, attempt_id: String, all: bool, blocker_ids: Vec<String> },
    Cancel { graph_node_id: String, attempt_id: String },
    Reset { session_id: String },
    ItemMutation {
        graph_node_id: String,
        attempt_id: String,
        attempt_number: u64,
        item_id: String,
        value_digest: Option<String>,
    },
    Failure { error: PersistedGraphMutationFailureV2 },
}

/// Why a graph session refused a mutation.
#[derive(Clone, Debug, PartialEq, Eq)]
pub enum PersistedGraphMutationFailureV2 {
    GoalTrackingNotEnabled,
    SessionGoalAlreadyDefined { goal_revision: u64 },
    GoalRevisionStale { expected_goal_revision: u64, actual_goal_revision: u64 },
    GoalRevisionTargetNotAllowed { target_graph_node_id: String },
    GoalRevisionTargetNotRevisionSafe { target_graph_node_id: String },
    ReactivationFlagRequired,
    SessionNotRunning,
    SessionCancelled,
    SessionRevisionConflict { expected: u64, actual: u64 },
    AttemptNotCurrent { expected: String, actual: Option<String> },
    GraphNodeTypeMismatch { graph_node_id: String, actual: String },
    OptionNotAllowed { graph_node_id: String, option_id: String, allowed_option_ids: Vec<String> },
    RouteNotAllowed { graph_node_id: String, option_id: String },
    ManualReworkTargetNotAllowed { target_graph_node_id: String },
    ManualReworkTargetNotOnTrace { target_graph_node_id: String },
    DecisionReasonMissing { graph_node_id: String },
    EvidenceReferenceUnresolved { graph_node_id: String, source_graph_node_ids: Vec<String> },
    EvidenceReferenceStale {
        graph_node_id: String,
        source_graph_node_id: String,
        expected_source_attempt_id: String,
        current_source_attempt_id: Option<String>,
    },
    GoalAssessmentDecisionRequiresAssessment,
    GoalAssessmentDecisionRequired,
    CriterionResultAlreadyRecorded,
    CriterionNotFound { criterion_id: String },
    CriterionModeMixed { criterion_id: String, expected_mode: String, actual_status: String },
    CriterionCitationInvalid { criterion_id: String, citation: serde_json::Value },
    SkipNotAllowed,
    SkipReasonRequired,
    BlockerIdAlreadyUsed,
    TooManyOpenBlockers { maximum: u64 },
    BlockerNotFound,
    NoOpenBlockers,
    BlockerNotCurrent,
    BlockerAlreadyResolved,
    ItemNotFound,
    ItemRevisionConflict { expected: u64, actual: u64 },
    ItemTypeMismatch,
    ItemConstraintFailed,
    ListValueNotFound,
    ListValueDuplicate,
    RequiredItemsMissing,
    BlockersPresent,
    SessionGoalMissing,
    FreshGoalAssessmentMissing { goal_revision: u64 },
    ArtifactChanged,
}

/// What a domain command achieved.
#[derive(Clone, Debug, PartialEq, Eq)]
pub enum PersistedDomainResultV1 {
    WorkspaceInitialized { workspace_id: String, revision: u64 },
    WorkspaceReset { workspace_id: String, revision: u64 },
    SessionChanged {
        session_id: String,
        revision_before: u64,
        revision_after: u64,
        changed: bool,
    },
    ItemChanged {
        session_id: String,
        item_id: String,
        revision_before: u64,
        revision_after: u64,
        changed: bool,
    },
}

/// Why a domain command failed.
#[derive(Clone, Debug, PartialEq, Eq)]
pub enum PersistedDomainErrorV1 {
    PreconditionFailed { expected: u64, actual: u64 },
    SessionIdentityMismatch { expected: String, actual: Option<String> },
    AttemptNotCurrent { expected: String, actual: Option<String> },
    ItemNotFound,
    BlockerNotCurrent,
    InvalidTransition,
    InvalidState,
    RevisionOverflow,
    RequiredItemsMissing,
    BlockersPresent,
    BlockerLimitReached { maximum_open_blockers: u64 },
    ArtifactChanged,
    EmptyValue,
    ValueTooLong,
    InvalidUuid,
    InvalidIdentifier,
    InvalidSha256Digest,
}

/// How a job ended.
#[derive(Clone, Debug, PartialEq, Eq)]
pub enum PersistedTerminalResultV1 {
    Success(PersistedDomainResultV1),
    Failure(PersistedDomainErrorV1),
    Cancelled,
}

/// The request that a terminal response answers.
#[derive(Clone, Debug, PartialEq, Eq)]
pub struct PersistedResponseContextV1 {
    pub request_id: String,
    pub command: String,
    pub workspace_uuid: String,
    pub workspace_root: String,
    pub workspace_sequence: u64,
}

/// The immutable receipt of a terminal job.
#[derive(Clone, Debug, PartialEq, Eq)]
pub struct PersistedTerminalReceiptV1 {
    pub job: JobReceiptV1,
    pub result: PersistedTerminalResultV1,
    pub job_projection: Option<PersistedTerminalJobProjectionV1>,
    pub session_projection: Option<PersistedTerminalSessionProjectionV1>,
    pub graph_session_projection: Option<PersistedGraphTerminalSessionProjectionV2>,
    pub lookup_command: Option<CommandV1>,
    pub response_context: Option<PersistedResponseContextV1>,
    pub public_terminal_envelope: Option<serde_json::Value>,
}

/// A receipt that a Store already holds for an idempotency key.
#[derive(Clone, Debug, PartialEq, Eq)]
pub enum JobReceiptOrTerminalV1 {
    JobReceipt(JobReceiptV1),
    TerminalReceipt(PersistedTerminalReceiptV1),
}

/// What an admission found or created.
#[derive(Clone, Debug, PartialEq, Eq)]
pub enum AdmitOutcomeV1 {
    New(JobReceiptV1),
    Existing(JobReceiptOrTerminalV1),
}

/// A job as the Store shows it.
#[derive(Clone, Debug, PartialEq, Eq)]
pub struct JobViewV1 {
    pub command: CommandV1,
    pub job: JobReceiptV1,
    pub state: StoreJobStateV1,
    pub submitted_at: u64,
    pub claimed_at: Option<u64>,
    pub finished_at: Option<u64>,
    pub terminal_receipt: Option<PersistedTerminalReceiptV1>,
}

/// Why a Store is unavailable.
#[derive(Clone, Copy, Debug, PartialEq, Eq, Structural)]
pub enum StoreUnavailableReasonV1 {
    Busy,
    Io,
    Recovery,
}

/// An invariant of the Store.
#[derive(Clone, Copy, Debug, PartialEq, Eq, Structural)]
pub enum StoreInvariantV1 {
    ResetSeed,
    TransitionMutationShape,
}

/// Why a Store operation failed.
#[derive(Debug, PartialEq, Eq)]
pub enum StoreErrorV1 {
    AdmissionCommittedV1 { receipt: JobReceiptV1, source: Box<StoreErrorV1> },
    AdmissionOutcomeUnknownV1 { idempotency_key: String },
    IdempotencyDigestConflictV1,
    JobNotFoundV1,
    PreconditionConflictV1 { expected: Option<u64>, actual: Option<u64> },
    ProcedureV2PreconditionFailedV1 { failure: PersistedGraphMutationFailureV2 },
    SessionIdentityConflictV1 { expected: Option<String>, actual: Option<String> },
    NewerStateV1,
    StorageUnavailableV1 { reason: StoreUnavailableReasonV1 },
    AlreadyClaimedV1,
    CancellationLostV1,
    ClaimStaleV1,
    CorruptStateV1,
    InternalInvariantViolationV1 { invariant: StoreInvariantV1 },
    InvalidStateV1,
    PrimaryOperationAndCleanupFailureV1 { primary: Box<StoreErrorV1>, cleanup: Box<StoreErrorV1> },
    StorageIntegrityV1,
}

/// Whether a job state is one in which a job stays.
pub open spec fn is_terminal_state(state: StoreJobStateV1) -> bool {
    state is Succeeded || state is Failed || state is Cancelled
}

/// Whether two identities are the same identity.
pub open spec fn same_identity_spec(
    left: DurableWorktreeIdentityV1,
    right: DurableWorktreeIdentityV1,
) -> bool {
    left.common_dir_identity@ == right.common_dir_identity@ && left.workspace_uuid@
        == right.workspace_uuid@ && left.worktree_admin_identity@ == right.worktree_admin_identity@
}

/// Whether two identities are the same identity.
pub fn same_identity(
    left: &DurableWorktreeIdentityV1,
    right: &DurableWorktreeIdentityV1,
) -> (same: bool)
    ensures
        same == same_identity_spec(*left, *right),
{
    left.common_dir_identity == right.common_dir_identity && left.workspace_uuid
        == right.workspace_uuid && left.worktree_admin_identity == right.worktree_admin_identity
}

/// A copy of an identity.
pub fn copy_identity(identity: &DurableWorktreeIdentityV1) -> (copy: DurableWorktreeIdentityV1)
    ensures
        copy == *identity,
{
    DurableWorktreeIdentityV1 {
        common_dir_identity: identity.common_dir_identity.clone(),
        workspace_uuid: identity.workspace_uuid.clone(),
        worktree_admin_identity: identity.worktree_admin_identity.clone(),
    }
}

/// Whether a reason is a copy of another: the same, with lists of the same texts.
pub open spec fn is_copy_of_failure(
    copy: PersistedGraphMutationFailureV2,
    failure: PersistedGraphMutationFailureV2,
) -> bool {
    match (failure, copy) {
        (
            PersistedGraphMutationFailureV2::OptionNotAllowed {
                graph_node_id,
                option_id,
                allowed_option_ids,
            },
            PersistedGraphMutationFailureV2::OptionNotAllowed {
                graph_node_id: graph_node_id_copied,
                option_id: option_id_copied,
                allowed_option_ids: allowed_option_ids_copied,
            },
        ) => graph_node_id_copied == graph_node_id && option_id_copied == option_id
            && allowed_option_ids_copied@ == allowed_option_ids@,
        (
            PersistedGraphMutationFailureV2::EvidenceReferenceUnresolved {
                graph_node_id,
                source_graph_node_ids,
            },
            PersistedGraphMutationFailureV2::EvidenceReferenceUnresolved {
                graph_node_id: graph_node_id_copied,
                source_graph_node_ids: source_graph_node_ids_copied,
            },
        ) => graph_node_id_copied == graph_node_id && source_graph_node_ids_copied@
            == source_graph_node_ids@,
        _ => copy == failure,
    }
}

fn copy_optional_text(text: &Option<String>) -> (copy: Option<String>)
    ensures
        copy == *text,
{
    match text {
        Some(text) => Some(text.clone()),
        None => None,
    }
}

/// A copy of the reason for which a graph session refused a mutation.
pub fn copy_failure(failure: &PersistedGraphMutationFailureV2) -> (copy:
    PersistedGraphMutationFailureV2)
    ensures
        is_copy_of_failure(copy, *failure),
{
    match failure {
        PersistedGraphMutationFailureV2::GoalTrackingNotEnabled => {
            PersistedGraphMutationFailureV2::GoalTrackingNotEnabled
        },
        PersistedGraphMutationFailureV2::SessionGoalAlreadyDefined { goal_revision } => {
            PersistedGraphMutationFailureV2::SessionGoalAlreadyDefined {
                goal_revision: *goal_revision,
            }
        },
        PersistedGraphMutationFailureV2::GoalRevisionStale {
            expected_goal_revision,
            actual_goal_revision,
        } => {
            PersistedGraphMutationFailureV2::GoalRevisionStale {
                expected_goal_revision: *expected_goal_revision,
                actual_goal_revision: *actual_goal_revision,
            }
        },
        PersistedGraphMutationFailureV2::GoalRevisionTargetNotAllowed { target_graph_node_id } => {
            PersistedGraphMutationFailureV2::GoalRevisionTargetNotAllowed {
                target_graph_node_id: target_graph_node_id.clone(),
            }
        },
        PersistedGraphMutationFailureV2::GoalRevisionTargetNotRevisionSafe {
            target_graph_node_id,
        } => {
            PersistedGraphMutationFailureV2::GoalRevisionTargetNotRevisionSafe {
                target_graph_node_id: target_graph_node_id.clone(),
            }
        },
        PersistedGraphMutationFailureV2::ReactivationFlagRequired => {
            PersistedGraphMutationFailureV2::ReactivationFlagRequired
        },
        PersistedGraphMutationFailureV2::SessionNotRunning => {
            PersistedGraphMutationFailureV2::SessionNotRunning
        },
        PersistedGraphMutationFailureV2::SessionCancelled => {
            PersistedGraphMutationFailureV2::SessionCancelled
        },
        PersistedGraphMutationFailureV2::SessionRevisionConflict { expected, actual } => {
            PersistedGraphMutationFailureV2::SessionRevisionConflict {
                expected: *expected,
                actual: *actual,
            }
        },
        PersistedGraphMutationFailureV2::AttemptNotCurrent { expected, actual } => {
            PersistedGraphMutationFailureV2::AttemptNotCurrent {
                expected: expected.clone(),
                actual: copy_optional_text(actual),
            }
        },
        PersistedGraphMutationFailureV2::GraphNodeTypeMismatch { graph_node_id, actual } => {
            PersistedGraphMutationFailureV2::GraphNodeTypeMismatch {
                graph_node_id: graph_node_id.clone(),
                actual: actual.clone(),
            }
        },
        PersistedGraphMutationFailureV2::OptionNotAllowed {
            graph_node_id,
            option_id,
            allowed_option_ids,
        } => {
            PersistedGraphMutationFailureV2::OptionNotAllowed {
                graph_node_id: graph_node_id.clone(),
                option_id: option_id.clone(),
                allowed_option_ids: copy_texts(allowed_option_ids),
            }
        },
        PersistedGraphMutationFailureV2::RouteNotAllowed { graph_node_id, option_id } => {
            PersistedGraphMutationFailureV2::RouteNotAllowed {
                graph_node_id: graph_node_id.clone(),
                option_id: option_id.clone(),
            }
        },
        PersistedGraphMutationFailureV2::ManualReworkTargetNotAllowed { target_graph_node_id } => {
            PersistedGraphMutationFailureV2::ManualReworkTargetNotAllowed {
                target_graph_node_id: target_graph_node_id.clone(),
            }
        },
        PersistedGraphMutationFailureV2::ManualReworkTargetNotOnTrace { target_graph_node_id } => {
            PersistedGraphMutationFailureV2::ManualReworkTargetNotOnTrace {
                target_graph_node_id: target_graph_node_id.clone(),
            }
        },
        PersistedGraphMutationFailureV2::DecisionReasonMissing { graph_node_id } => {
            PersistedGraphMutationFailureV2::DecisionReasonMissing {
                graph_node_id: graph_node_id.clone(),
            }
        },
        PersistedGraphMutationFailureV2::EvidenceReferenceUnresolved {
            graph_node_id,
            source_graph_node_ids,
        } => {
            PersistedGraphMutationFailureV2::EvidenceReferenceUnresolved {
                graph_node_id: graph_node_id.clone(),
                source_graph_node_ids: copy_texts(source_graph_node_ids),
            }
        },
        PersistedGraphMutationFailureV2::EvidenceReferenceStale {
            graph_node_id,
            source_graph_node_id,
            expected_source_attempt_id,
            current_source_attempt_id,
        } => {
            PersistedGraphMutationFailureV2::EvidenceReferenceStale {
                graph_node_id: graph_node_id.clone(),
                source_graph_node_id: source_graph_node_id.clone(),
                expected_source_attempt_id: expected_source_attempt_id.clone(),
                current_source_attempt_id: copy_optional_text(current_source_attempt_id),
            }
        },
        PersistedGraphMutationFailureV2::GoalAssessmentDecisionRequiresAssessment => {
            PersistedGraphMutationFailureV2::GoalAssessmentDecisionRequiresAssessment
        },
        PersistedGraphMutationFailureV2::GoalAssessmentDecisionRequired => {
            PersistedGraphMutationFailureV2::GoalAssessmentDecisionRequired
        },
        PersistedGraphMutationFailureV2::CriterionResultAlreadyRecorded => {
            PersistedGraphMutationFailureV2::CriterionResultAlreadyRecorded
        },
        PersistedGraphMutationFailureV2::CriterionNotFound { criterion_id } => {
            PersistedGraphMutationFailureV2::CriterionNotFound {
                criterion_id: criterion_id.clone(),
            }
        },
        PersistedGraphMutationFailureV2::CriterionModeMixed {
            criterion_id,
            expected_mode,
            actual_status,
        } => {
            PersistedGraphMutationFailureV2::CriterionModeMixed {
                criterion_id: criterion_id.clone(),
                expected_mode: expected_mode.clone(),
                actual_status: actual_status.clone(),
            }
        },
        PersistedGraphMutationFailureV2::CriterionCitationInvalid { criterion_id, citation } => {
            PersistedGraphMutationFailureV2::CriterionCitationInvalid {
                criterion_id: criterion_id.clone(),
                citation: citation.clone(),
            }
        },
        PersistedGraphMutationFailureV2::SkipNotAllowed => {
            PersistedGraphMutationFailureV2::SkipNotAllowed
        },
        PersistedGraphMutationFailureV2::SkipReasonRequired => {
            PersistedGraphMutationFailureV2::SkipReasonRequired
        },
        PersistedGraphMutationFailureV2::BlockerIdAlreadyUsed => {
            PersistedGraphMutationFailureV2::BlockerIdAlreadyUsed
        },
        PersistedGraphMutationFailureV2::TooManyOpenBlockers { maximum } => {
            PersistedGraphMutationFailureV2::TooManyOpenBlockers {
                maximum: *maximum,
            }
        },
        PersistedGraphMutationFailureV2::BlockerNotFound => {
            PersistedGraphMutationFailureV2::BlockerNotFound
        },
        PersistedGraphMutationFailureV2::NoOpenBlockers => {
            PersistedGraphMutationFailureV2::NoOpenBlockers
        },
        PersistedGraphMutationFailureV2::BlockerNotCurrent => {
            PersistedGraphMutationFailureV2::BlockerNotCurrent
        },
        PersistedGraphMutationFailureV2::BlockerAlreadyResolved => {
            PersistedGraphMutationFailureV2::BlockerAlreadyResolved
        },
        PersistedGraphMutationFailureV2::ItemNotFound => {
            PersistedGraphMutationFailureV2::ItemNotFound
        },
        PersistedGraphMutationFailureV2::ItemRevisionConflict { expected, actual } => {
            PersistedGraphMutationFailureV2::ItemRevisionConflict {
                expected: *expected,
                actual: *actual,
            }
        },
        PersistedGraphMutationFailureV2::ItemTypeMismatch => {
            PersistedGraphMutationFailureV2::ItemTypeMismatch
        },
        PersistedGraphMutationFailureV2::ItemConstraintFailed => {
            PersistedGraphMutationFailureV2::ItemConstraintFailed
        },
        PersistedGraphMutationFailureV2::ListValueNotFound => {
            PersistedGraphMutationFailureV2::ListValueNotFound
        },
        PersistedGraphMutationFailureV2::ListValueDuplicate => {
            PersistedGraphMutationFailureV2::ListValueDuplicate
        },
        PersistedGraphMutationFailureV2::RequiredItemsMissing => {
            PersistedGraphMutationFailureV2::RequiredItemsMissing
        },
        PersistedGraphMutationFailureV2::BlockersPresent => {
            PersistedGraphMutationFailureV2::BlockersPresent
        },
        PersistedGraphMutationFailureV2::SessionGoalMissing => {
            PersistedGraphMutationFailureV2::SessionGoalMissing
        },
        PersistedGraphMutationFailureV2::FreshGoalAssessmentMissing { goal_revision } => {
            PersistedGraphMutationFailureV2::FreshGoalAssessmentMissing {
                goal_revision: *goal_revision,
            }
        },
        PersistedGraphMutationFailureV2::ArtifactChanged => {
            PersistedGraphMutationFailureV2::ArtifactChanged
        },
    }
}

/// Whether an error is a copy of another: the same, with copies of what it came from.
pub open spec fn is_copy_of_error(copy: StoreErrorV1, error: StoreErrorV1) -> bool
    decreases error,
{
    match (error, copy) {
        (
            StoreErrorV1::AdmissionCommittedV1 { receipt, source },
            StoreErrorV1::AdmissionCommittedV1 { receipt: receipt_copied, source: source_copied },
        ) => receipt_copied == receipt && is_copy_of_error(*source_copied, *source),
        (
            StoreErrorV1::ProcedureV2PreconditionFailedV1 { failure },
            StoreErrorV1::ProcedureV2PreconditionFailedV1 { failure: failure_copied },
        ) => is_copy_of_failure(failure_copied, failure),
        (
            StoreErrorV1::PrimaryOperationAndCleanupFailureV1 { primary, cleanup },
            StoreErrorV1::PrimaryOperationAndCleanupFailureV1 {
                primary: primary_copied,
                cleanup: cleanup_copied,
            },
        ) => is_copy_of_error(*primary_copied, *primary) && is_copy_of_error(
            *cleanup_copied,
            *cleanup,
        ),
        _ => copy == error,
    }
}

/// A copy of an error.
pub fn copy_error(error: &StoreErrorV1) -> (copy: StoreErrorV1)
    ensures
        is_copy_of_error(copy, *error),
    decreases *error,
{
    match error {
        StoreErrorV1::AdmissionCommittedV1 { receipt, source } =>
            StoreErrorV1::AdmissionCommittedV1 {
            receipt: JobReceiptV1 {
                identity_sequence: receipt.identity_sequence,
                job_id: receipt.job_id.clone(),
                request_digest: receipt.request_digest.clone(),
            },
            source: Box::new(copy_error(source)),
        },
        StoreErrorV1::AdmissionOutcomeUnknownV1 { idempotency_key } =>
            StoreErrorV1::AdmissionOutcomeUnknownV1 { idempotency_key: idempotency_key.clone() },
        StoreErrorV1::IdempotencyDigestConflictV1 => StoreErrorV1::IdempotencyDigestConflictV1,
        StoreErrorV1::JobNotFoundV1 => StoreErrorV1::JobNotFoundV1,
        StoreErrorV1::PreconditionConflictV1 { expected, actual } =>
            StoreErrorV1::PreconditionConflictV1 { expected: *expected, actual: *actual },
        StoreErrorV1::ProcedureV2PreconditionFailedV1 { failure } =>
            StoreErrorV1::ProcedureV2PreconditionFailedV1 { failure: copy_failure(failure) },
        StoreErrorV1::SessionIdentityConflictV1 { expected, actual } =>
            StoreErrorV1::SessionIdentityConflictV1 {
            expected: copy_optional_text(expected),
            actual: copy_optional_text(actual),
        },
        StoreErrorV1::NewerStateV1 => StoreErrorV1::NewerStateV1,
        StoreErrorV1::StorageUnavailableV1 { reason } => StoreErrorV1::StorageUnavailableV1 {
            reason: *reason,
        },
        StoreErrorV1::AlreadyClaimedV1 => StoreErrorV1::AlreadyClaimedV1,
        StoreErrorV1::CancellationLostV1 => StoreErrorV1::CancellationLostV1,
        StoreErrorV1::ClaimStaleV1 => StoreErrorV1::ClaimStaleV1,
        StoreErrorV1::CorruptStateV1 => StoreErrorV1::CorruptStateV1,
        StoreErrorV1::InternalInvariantViolationV1 { invariant } =>
            StoreErrorV1::InternalInvariantViolationV1 { invariant: *invariant },
        StoreErrorV1::InvalidStateV1 => StoreErrorV1::InvalidStateV1,
        StoreErrorV1::PrimaryOperationAndCleanupFailureV1 { primary, cleanup } =>
            StoreErrorV1::PrimaryOperationAndCleanupFailureV1 {
            primary: Box::new(copy_error(primary)),
            cleanup: Box::new(copy_error(cleanup)),
        },
        StoreErrorV1::StorageIntegrityV1 => StoreErrorV1::StorageIntegrityV1,
    }
}

/// An error and its copy tell the same: they are of the same kind, with the same evidence, and come from
/// errors that do.
pub proof fn a_copied_error_tells_the_same(error: StoreErrorV1, copy: StoreErrorV1)
    requires
        call_ensures(copy_error, (&error,), copy),
    ensures
        error matches StoreErrorV1::AdmissionCommittedV1 { receipt, source } ==> (copy matches
            StoreErrorV1::AdmissionCommittedV1 { receipt: copied, source: copied_source } && copied
            == receipt && is_copy_of_error(*copied_source, *source)),
        !(error is AdmissionCommittedV1) && !(error is ProcedureV2PreconditionFailedV1) && !(
        error is PrimaryOperationAndCleanupFailureV1) ==> copy == error,
        error is ProcedureV2PreconditionFailedV1 <==> copy is ProcedureV2PreconditionFailedV1,
        error is PrimaryOperationAndCleanupFailureV1 <==> copy
            is PrimaryOperationAndCleanupFailureV1,
{
}

/// A refused change and its copy tell the same, list by list.
pub proof fn a_copied_refusal_tells_the_same(
    failure: PersistedGraphMutationFailureV2,
    copy: PersistedGraphMutationFailureV2,
)
    requires
        call_ensures(copy_failure, (&failure,), copy),
    ensures
        !(failure is OptionNotAllowed) && !(failure is EvidenceReferenceUnresolved) ==> copy
            == failure,
        failure matches PersistedGraphMutationFailureV2::OptionNotAllowed {
            graph_node_id,
            option_id,
            allowed_option_ids,
        } ==> (copy matches PersistedGraphMutationFailureV2::OptionNotAllowed {
            graph_node_id: node,
            option_id: option,
            allowed_option_ids: allowed,
        } && node@ == graph_node_id@ && option@ == option_id@ && allowed@ == allowed_option_ids@),
        failure matches PersistedGraphMutationFailureV2::EvidenceReferenceUnresolved {
            graph_node_id,
            source_graph_node_ids,
        } ==> (copy matches PersistedGraphMutationFailureV2::EvidenceReferenceUnresolved {
            graph_node_id: node,
            source_graph_node_ids: sources,
        } && node@ == graph_node_id@ && sources@ == source_graph_node_ids@),
{
}

/// Two identities are the same exactly if they are of the same workspace, in the same worktree of the same
/// repository.
pub proof fn an_identity_is_a_workspace_of_a_worktree(
    left: DurableWorktreeIdentityV1,
    right: DurableWorktreeIdentityV1,
    same: bool,
)
    requires
        call_ensures(same_identity, (&left, &right), same),
    ensures
        same <==> left.workspace_uuid@ == right.workspace_uuid@ && left.common_dir_identity@
            == right.common_dir_identity@ && left.worktree_admin_identity@
            == right.worktree_admin_identity@,
{
}

} // verus!
