//! Which causes each public failure stands for.

use crate::dispatch::{DispatchErrorDetailsV1, DispatchFailureKindV1, DispatchFailureV1};
use crate::execution::{
    DomainErrorV1, ExecutionBoundaryErrorV1, ExecutionErrorV1, GraphMutationErrorV2,
    ProcedureV2SourceAdmissionErrorV1, ProcedureV2StartPreparationErrorV1,
};
use crate::json;
use crate::production::answers::{admitted_as, is_bare};
use crate::production::failures::{
    map_cancel_error, map_graph_mutation_failure_v2, map_graph_view_error_v2,
    map_mutation_worker_error, map_preview_domain_error, map_preview_procedure_error,
    map_procedure_v2_start_preparation_error, map_read_error, map_reset_preparation_error,
    map_resolution_error, map_runtime_error, map_store_error, map_terminal_domain_error,
    map_worker_error, GraphViewErrorV2, PreviewCommandKindV1, TerminalCommandKindV1,
};
use crate::production::sealed_results::says_what_it_cites;
use crate::read_service::ReadServiceErrorV1;
use crate::runtime_workspace::WorkspaceRuntimeErrorV1;
use crate::store::{
    AdmitOutcomeV1, JobReceiptV1, PersistedDomainErrorV1, PersistedGraphMutationFailureV2,
    StoreErrorV1,
};
use crate::worker::WorkerErrorV1;
use crate::workspace::{GitResolverErrorV1, ResetMarkerV1, WorkspaceResolutionErrorV1};
use vstd::prelude::*;

verus! {

/// A refused change of a graph session is told by its own failure. Each failure stands for the causes
/// that are listed for it and for no other, and nothing had been admitted.
pub proof fn a_refused_graph_change_is_told_by_its_cause(
    error: PersistedGraphMutationFailureV2,
    failure: DispatchFailureV1,
)
    requires
        call_ensures(map_graph_mutation_failure_v2, (&error,), failure),
    ensures
        failure.admission is None && failure.job is None,
        failure.kind is GoalTrackingNotEnabled <==> error is GoalTrackingNotEnabled,
        failure.kind is SessionGoalAlreadyDefined <==> error is SessionGoalAlreadyDefined,
        failure.kind is GoalRevisionStale <==> error is GoalRevisionStale,
        failure.kind is GoalRevisionTargetNotAllowed <==> error is GoalRevisionTargetNotAllowed,
        failure.kind is GoalRevisionTargetNotRevisionSafe
            <==> error is GoalRevisionTargetNotRevisionSafe,
        failure.kind is ReactivationFlagRequired <==> error is ReactivationFlagRequired,
        failure.kind is SessionNotRunning <==> error is SessionNotRunning,
        failure.kind is SessionCancelled <==> error is SessionCancelled,
        failure.kind is SessionRevisionConflict <==> error is SessionRevisionConflict,
        failure.kind is AttemptNotCurrent <==> error is AttemptNotCurrent,
        failure.kind is GraphNodeTypeMismatch <==> error is GraphNodeTypeMismatch,
        failure.kind is OptionNotAllowed <==> error is OptionNotAllowed,
        failure.kind is RouteNotAllowed <==> error is RouteNotAllowed,
        failure.kind is ManualReworkTargetNotAllowed <==> error is ManualReworkTargetNotAllowed,
        failure.kind is ManualReworkTargetNotOnTrace <==> error is ManualReworkTargetNotOnTrace,
        failure.kind is DecisionReasonMissing <==> error is DecisionReasonMissing,
        failure.kind is EvidenceReferenceUnresolved <==> error is EvidenceReferenceUnresolved,
        failure.kind is EvidenceReferenceStale <==> error is EvidenceReferenceStale,
        failure.kind is RequestInvalid <==> error is GoalAssessmentDecisionRequiresAssessment
            || error is GoalAssessmentDecisionRequired || error is CriterionResultAlreadyRecorded,
        failure.kind is CriterionNotFound <==> error is CriterionNotFound,
        failure.kind is CriterionModeMixed <==> error is CriterionModeMixed,
        failure.kind is StageNotSkippable <==> error is SkipNotAllowed || error is SkipReasonRequired,
        failure.kind is BlockerNotFound <==> error is BlockerNotFound || error is NoOpenBlockers,
        failure.kind is BlockerNotCurrent <==> error is BlockerNotCurrent
            || error is BlockerAlreadyResolved,
        failure.kind is ItemNotFound <==> error is ItemNotFound,
        failure.kind is ItemRevisionConflict <==> error is ItemRevisionConflict,
        failure.kind is ItemTypeMismatch <==> error is ItemTypeMismatch,
        failure.kind is ItemConstraintFailed <==> error is ItemConstraintFailed,
        failure.kind is ListValueNotFound <==> error is ListValueNotFound,
        failure.kind is ListValueDuplicate <==> error is ListValueDuplicate,
        failure.kind is RequiredItemsMissing <==> error is RequiredItemsMissing,
        failure.kind is BlockersPresent <==> error is BlockersPresent,
        failure.kind is SessionGoalMissing <==> error is SessionGoalMissing,
        failure.kind is FreshGoalAssessmentMissing <==> error is FreshGoalAssessmentMissing,
        failure.kind is ArtifactChanged <==> error is ArtifactChanged,
        failure.kind is BlockerLimitReached <==> (error matches
            PersistedGraphMutationFailureV2::TooManyOpenBlockers { maximum } && maximum
            <= usize::MAX),
        failure.kind is CriterionCitationInvalid <==> (error matches
            PersistedGraphMutationFailureV2::CriterionCitationInvalid { citation, .. }
            && says_what_it_cites(json::json_tree(citation))),
{
    citation_kinds_differ();
}

proof fn citation_kinds_differ()
    ensures
        "evidence"@.len() == 8,
        "item"@.len() == 4,
{
    reveal_strlit("evidence");
    reveal_strlit("item");
}

/// What a refused change of a graph session was refused for is told in full: the revisions, the attempts
/// and the nodes that the cause names.
pub proof fn a_refused_graph_change_tells_its_evidence(
    error: PersistedGraphMutationFailureV2,
    failure: DispatchFailureV1,
)
    requires
        call_ensures(map_graph_mutation_failure_v2, (&error,), failure),
    ensures
        error matches PersistedGraphMutationFailureV2::SessionRevisionConflict { expected, actual }
            ==> failure.details == (DispatchErrorDetailsV1::Revisions {
            expected: Some(expected),
            current: Some(actual),
        }),
        error matches PersistedGraphMutationFailureV2::ItemRevisionConflict { expected, actual }
            ==> failure.details == (DispatchErrorDetailsV1::Revisions {
            expected: Some(expected),
            current: Some(actual),
        }),
        error matches PersistedGraphMutationFailureV2::AttemptNotCurrent { expected, actual }
            ==> failure.details == (DispatchErrorDetailsV1::AttemptMismatch { expected, actual }),
        error matches PersistedGraphMutationFailureV2::GoalRevisionStale {
            expected_goal_revision,
            actual_goal_revision,
        } ==> failure.details == (DispatchErrorDetailsV1::GoalRevisionStale {
            expected_goal_revision,
            actual_goal_revision,
        }),
        error matches PersistedGraphMutationFailureV2::SessionGoalAlreadyDefined { goal_revision }
            ==> failure.details == (DispatchErrorDetailsV1::SessionGoalAlreadyDefined {
            goal_revision,
        }),
        error matches PersistedGraphMutationFailureV2::FreshGoalAssessmentMissing { goal_revision }
            ==> failure.details == (DispatchErrorDetailsV1::FreshGoalAssessmentMissing {
            goal_revision,
        }),
        error matches PersistedGraphMutationFailureV2::GoalRevisionTargetNotAllowed {
            target_graph_node_id,
        } ==> failure.details == (DispatchErrorDetailsV1::GoalRevisionTargetNotAllowed {
            target_graph_node_id,
        }),
        error matches PersistedGraphMutationFailureV2::GoalRevisionTargetNotRevisionSafe {
            target_graph_node_id,
        } ==> failure.details == (DispatchErrorDetailsV1::GoalRevisionTargetNotRevisionSafe {
            target_graph_node_id,
        }),
        error matches PersistedGraphMutationFailureV2::ManualReworkTargetNotAllowed {
            target_graph_node_id,
        } ==> failure.details == (DispatchErrorDetailsV1::ManualReworkTargetNotAllowed {
            target_graph_node_id,
        }),
        error matches PersistedGraphMutationFailureV2::ManualReworkTargetNotOnTrace {
            target_graph_node_id,
        } ==> failure.details == (DispatchErrorDetailsV1::ManualReworkTargetNotOnTrace {
            target_graph_node_id,
        }),
        error matches PersistedGraphMutationFailureV2::GraphNodeTypeMismatch {
            graph_node_id,
            actual,
        } ==> failure.details == (DispatchErrorDetailsV1::GraphNodeTypeMismatch {
            graph_node_id,
            actual,
        }),
        error matches PersistedGraphMutationFailureV2::RouteNotAllowed { graph_node_id, option_id }
            ==> failure.details == (DispatchErrorDetailsV1::RouteNotAllowed {
            graph_node_id,
            option_id,
        }),
        error matches PersistedGraphMutationFailureV2::DecisionReasonMissing { graph_node_id }
            ==> failure.details == (DispatchErrorDetailsV1::DecisionReasonMissing {
            graph_node_id,
        }),
        error matches PersistedGraphMutationFailureV2::CriterionNotFound { criterion_id }
            ==> failure.details == (DispatchErrorDetailsV1::CriterionNotFound { criterion_id }),
        error matches PersistedGraphMutationFailureV2::CriterionModeMixed {
            criterion_id,
            expected_mode,
            actual_status,
        } ==> failure.details == (DispatchErrorDetailsV1::CriterionModeMixed {
            criterion_id,
            expected_mode,
            actual_status,
        }),
        error matches PersistedGraphMutationFailureV2::EvidenceReferenceStale {
            graph_node_id,
            source_graph_node_id,
            expected_source_attempt_id,
            current_source_attempt_id,
        } ==> failure.details == (DispatchErrorDetailsV1::EvidenceReferenceStale {
            graph_node_id,
            source_graph_node_id,
            expected_source_attempt_id,
            current_source_attempt_id,
        }),
        error matches PersistedGraphMutationFailureV2::OptionNotAllowed {
            graph_node_id,
            option_id,
            allowed_option_ids,
        } ==> (failure.details matches DispatchErrorDetailsV1::OptionNotAllowed {
            graph_node_id: node,
            option_id: option,
            allowed_option_ids: allowed,
        } && node == graph_node_id && option == option_id && allowed@.len()
            == allowed_option_ids@.len() && forall|i: int|
            0 <= i < allowed@.len() ==> #[trigger] allowed@[i]@ == allowed_option_ids@[i]@),
        error matches PersistedGraphMutationFailureV2::EvidenceReferenceUnresolved {
            graph_node_id,
            source_graph_node_ids,
        } ==> (failure.details matches DispatchErrorDetailsV1::EvidenceReferenceUnresolved {
            graph_node_id: node,
            source_graph_node_ids: sources,
        } && node == graph_node_id && sources@.len() == source_graph_node_ids@.len() && forall|
            i: int,
        |
            0 <= i < sources@.len() ==> #[trigger] sources@[i]@ == source_graph_node_ids@[i]@),
        error matches PersistedGraphMutationFailureV2::TooManyOpenBlockers { maximum } ==> (maximum
            <= usize::MAX ==> (failure.details matches DispatchErrorDetailsV1::BlockerLimit {
            maximum_open_blockers,
        } && maximum_open_blockers == maximum)),
        error is SessionNotRunning || error is SessionCancelled || error is ItemNotFound
            || error is SkipNotAllowed || error is SkipReasonRequired || error is BlockerNotFound
            || error is NoOpenBlockers || error is BlockerNotCurrent
            || error is BlockerAlreadyResolved ==> failure.details is Absent,
{
    match error {
        PersistedGraphMutationFailureV2::OptionNotAllowed { allowed_option_ids, .. } => {
            match failure.details {
                DispatchErrorDetailsV1::OptionNotAllowed { allowed_option_ids: allowed, .. } => {
                    let told = crate::text::characters_of(allowed@);
                    let named = crate::text::characters_of(allowed_option_ids@);
                    assert(told.len() == allowed@.len() && named.len() == allowed_option_ids@.len());
                    assert forall|i: int| 0 <= i < allowed@.len() implies #[trigger] allowed@[i]@
                        == allowed_option_ids@[i]@ by {
                        assert(told[i] == named[i]);
                    }
                },
                _ => {},
            }
        },
        PersistedGraphMutationFailureV2::EvidenceReferenceUnresolved {
            source_graph_node_ids,
            ..
        } => {
            match failure.details {
                DispatchErrorDetailsV1::EvidenceReferenceUnresolved {
                    source_graph_node_ids: sources,
                    ..
                } => {
                    let told = crate::text::characters_of(sources@);
                    let named = crate::text::characters_of(source_graph_node_ids@);
                    assert(told.len() == sources@.len() && named.len()
                        == source_graph_node_ids@.len());
                    assert forall|i: int| 0 <= i < sources@.len() implies #[trigger] sources@[i]@
                        == source_graph_node_ids@[i]@ by {
                        assert(told[i] == named[i]);
                    }
                },
                _ => {},
            }
        },
        _ => {},
    }
}

/// A failed job is told by what it failed for, and where that depends on what it was asked for, by that:
/// a conflict of revisions is one of the item's for a change of an item alone, and what may not be done
/// is told as what was asked.
pub proof fn a_failed_job_is_told_by_its_cause(
    error: PersistedDomainErrorV1,
    command: TerminalCommandKindV1,
    failure: DispatchFailureV1,
)
    requires
        call_ensures(map_terminal_domain_error, (&error, command), failure),
    ensures
        failure.admission is None && failure.job is None,
        failure.kind is ItemRevisionConflict <==> error is PreconditionFailed
            && command is ItemMutation,
        failure.kind is SessionRevisionConflict <==> error is PreconditionFailed && !(
        command is ItemMutation),
        error matches PersistedDomainErrorV1::PreconditionFailed { expected, actual }
            ==> failure.details == (DispatchErrorDetailsV1::Revisions {
            expected: Some(expected),
            current: Some(actual),
        }),
        failure.kind is SessionIdMismatch <==> error is SessionIdentityMismatch,
        error matches PersistedDomainErrorV1::SessionIdentityMismatch { expected, actual }
            ==> failure.details == (DispatchErrorDetailsV1::SessionIdMismatch {
            expected,
            actual,
        }),
        failure.kind is AttemptNotCurrent <==> error is AttemptNotCurrent,
        error matches PersistedDomainErrorV1::AttemptNotCurrent { expected, actual }
            ==> failure.details == (DispatchErrorDetailsV1::AttemptMismatch { expected, actual }),
        failure.kind is ItemNotFound <==> error is ItemNotFound,
        failure.kind is BlockerNotCurrent <==> error is BlockerNotCurrent,
        failure.kind is StageNotSkippable <==> (error is InvalidTransition || error is InvalidState)
            && command is Skip,
        failure.kind is ReturnNotAllowed <==> (error is InvalidTransition || error is InvalidState)
            && command is Return,
        failure.kind is ReopenNotAllowed <==> (error is InvalidTransition || error is InvalidState)
            && command is Reopen,
        failure.kind is SessionNotRunning <==> (error is InvalidTransition || error is InvalidState)
            && !(command is Skip || command is Return || command is Reopen),
        failure.kind is RequiredItemsMissing <==> error is RequiredItemsMissing,
        failure.kind is BlockersPresent <==> error is BlockersPresent,
        failure.kind is ArtifactChanged <==> error is ArtifactChanged,
        failure.kind is RequestInvalid <==> error is EmptyValue || error is ValueTooLong
            || error is InvalidUuid || error is InvalidIdentifier || error is InvalidSha256Digest,
        failure.kind is BlockerLimitReached <==> (error matches
            PersistedDomainErrorV1::BlockerLimitReached { maximum_open_blockers }
            && maximum_open_blockers <= usize::MAX),
{
}

/// A preview that a session refuses is told as a failed job is, but that it never changes an item.
pub proof fn a_refused_preview_is_told_by_its_cause(
    error: DomainErrorV1,
    command: PreviewCommandKindV1,
    failure: DispatchFailureV1,
)
    requires
        call_ensures(map_preview_domain_error, (error, command), failure),
    ensures
        failure.admission is None && failure.job is None,
        failure.kind is SessionRevisionConflict <==> error is PreconditionFailed,
        error matches DomainErrorV1::PreconditionFailed { expected, actual } ==> failure.details == (
        DispatchErrorDetailsV1::Revisions { expected: Some(expected), current: Some(actual) }),
        failure.kind is SessionIdMismatch <==> error is SessionIdentityMismatch,
        failure.kind is AttemptNotCurrent <==> error is AttemptNotCurrent,
        failure.kind is ItemNotFound <==> error is ItemNotFound,
        failure.kind is BlockerNotCurrent <==> error is BlockerNotCurrent,
        failure.kind is ReturnNotAllowed <==> (error is InvalidTransition || error is InvalidState)
            && command is Return,
        failure.kind is ReopenNotAllowed <==> (error is InvalidTransition || error is InvalidState)
            && command is Reopen,
        failure.kind is SessionNotRunning <==> (error is InvalidTransition || error is InvalidState)
            && command is Other,
        failure.kind is RequiredItemsMissing <==> error is RequiredItemsMissing,
        failure.kind is BlockersPresent <==> error is BlockersPresent,
        failure.kind is BlockerLimitReached <==> error is BlockerLimitReached,
        failure.kind is ArtifactChanged <==> error is ArtifactChanged,
        failure.kind is Internal <==> error is RevisionOverflow,
        failure.kind is RequestInvalid <==> error is EmptyValue || error is ValueTooLong
            || error is InvalidUuid || error is InvalidIdentifier || error is InvalidSha256Digest,
{
}

/// A failed operation of a Store that admitted nothing is told by what it failed for.
pub proof fn a_failed_store_is_told_by_its_cause(error: StoreErrorV1, failure: DispatchFailureV1)
    requires
        call_ensures(map_store_error, (error,), failure),
        !(error is AdmissionCommittedV1),
        !(error is ProcedureV2PreconditionFailedV1),
    ensures
        failure.admission is None && failure.job is None,
        failure.kind is MutationOutcomeUnknown <==> error is AdmissionOutcomeUnknownV1,
        error matches StoreErrorV1::AdmissionOutcomeUnknownV1 { idempotency_key }
            ==> failure.details == (DispatchErrorDetailsV1::UnknownOutcome { idempotency_key }),
        failure.kind is IdempotencyKeyReused <==> error is IdempotencyDigestConflictV1,
        failure.kind is JobNotFound <==> error is JobNotFoundV1,
        failure.kind is SessionRevisionConflict <==> error is PreconditionConflictV1,
        error matches StoreErrorV1::PreconditionConflictV1 { expected, actual } ==> failure.details
            == (DispatchErrorDetailsV1::Revisions { expected, current: actual }),
        failure.kind is SessionIdMismatch <==> (error matches
            StoreErrorV1::SessionIdentityConflictV1 { expected, .. } && expected is Some),
        failure.kind is SessionAlreadyExists <==> (error matches
            StoreErrorV1::SessionIdentityConflictV1 { expected, actual } && expected is None
            && actual is Some),
        failure.kind is WorkspaceSchemaUnsupported <==> error is NewerStateV1,
        failure.kind is DaemonUnavailable <==> error is StorageUnavailableV1
            || error is AlreadyClaimedV1 || error is CancellationLostV1 || error is ClaimStaleV1,
        failure.kind is WorkspaceStateUnreadable <==> error is CorruptStateV1
            || error is InternalInvariantViolationV1 || error is InvalidStateV1
            || error is PrimaryOperationAndCleanupFailureV1 || error is StorageIntegrityV1 || (
        error matches StoreErrorV1::SessionIdentityConflictV1 { expected, actual }
            && expected is None && actual is None),
{
}

/// A failure after an admission is told as without one, but that it says which job was admitted: by the
/// admission that was made last.
pub proof fn an_admission_does_not_change_the_cause(
    receipt: JobReceiptV1,
    source: StoreErrorV1,
    committed: StoreErrorV1,
    plain: DispatchFailureV1,
    failure: DispatchFailureV1,
)
    requires
        committed == (StoreErrorV1::AdmissionCommittedV1 { receipt, source: Box::new(source) }),
        !(source is ProcedureV2PreconditionFailedV1),
        call_ensures(map_store_error, (source,), plain),
        call_ensures(map_store_error, (committed,), failure),
        !(crate::production::failures::store_cause(source) is ProcedureV2PreconditionFailedV1),
    ensures
        failure.kind == plain.kind,
        failure.details == plain.details,
        failure.job == plain.job,
        failure.admission matches Some(admission) && admission.job_id@ == receipt.job_id@
            && admission.workspace_sequence == receipt.identity_sequence,
{
}

/// A cancellation that came too late is told as such, and every other failure of it as one of the Store.
pub proof fn a_cancellation_that_lost_is_told_as_such(
    error: StoreErrorV1,
    failure: DispatchFailureV1,
)
    requires
        call_ensures(map_cancel_error, (error,), failure),
    ensures
        error is AlreadyClaimedV1 || error is CancellationLostV1 ==> is_bare(
            failure,
            DispatchFailureKindV1::JobNotCancellable,
        ),
        error is ClaimStaleV1 || error is StorageUnavailableV1 ==> is_bare(
            failure,
            DispatchFailureKindV1::DaemonUnavailable,
        ),
        error is JobNotFoundV1 ==> is_bare(failure, DispatchFailureKindV1::JobNotFound),
        error is CorruptStateV1 || error is StorageIntegrityV1 ==> is_bare(
            failure,
            DispatchFailureKindV1::WorkspaceStateUnreadable,
        ),
{
}

/// A failed execution is told by what it failed for, or by what its Store failed for.
pub proof fn a_failed_execution_is_told_by_its_cause(
    error: ExecutionErrorV1,
    failure: DispatchFailureV1,
)
    requires
        call_ensures(map_reset_preparation_error, (error,), failure),
        !(error is Store),
    ensures
        failure.admission is None && failure.job is None,
        failure.kind is UnsupportedV2Capability <==> error is UnsupportedV2Capability,
        error matches ExecutionErrorV1::UnsupportedV2Capability {
            capability,
            required_result_schema,
        } ==> failure.details == (DispatchErrorDetailsV1::UnsupportedV2Capability {
            capability,
            required_result_schema,
        }),
        failure.kind is RequestInvalid <==> error is BoundaryDomain,
        failure.kind is DaemonUnavailable <==> error is BoundaryTransient,
        failure.kind is SessionIdMismatch <==> error is SessionIdentityMismatch,
        error matches ExecutionErrorV1::SessionIdentityMismatch { expected, actual }
            ==> failure.details == (DispatchErrorDetailsV1::SessionIdMismatch {
            expected,
            actual,
        }),
        failure.kind is WorkspaceUuidMismatch <==> error is WorkspaceIdentityMismatch,
        error matches ExecutionErrorV1::WorkspaceIdentityMismatch { expected, actual }
            ==> failure.details == (DispatchErrorDetailsV1::WorkspaceUuidMismatch {
            expected,
            actual,
        }),
        failure.kind is ProcedureDigestMismatch <==> error is ProcedureDigestMismatch,
        error matches ExecutionErrorV1::ProcedureDigestMismatch { expected, actual }
            ==> failure.details == (DispatchErrorDetailsV1::ProcedureDigestMismatch {
            expected,
            actual,
        }),
        failure.kind is WorkspaceStateUnreadable <==> error is InvalidPersistedExecution
            || error is InvalidStoreValue,
{
}

/// A start that could not be prepared is told by what stood against it.
pub proof fn an_unprepared_start_is_told_by_its_cause(
    error: ProcedureV2StartPreparationErrorV1,
    failure: DispatchFailureV1,
)
    requires
        call_ensures(map_procedure_v2_start_preparation_error, (error,), failure),
        !(error is Execution),
    ensures
        failure.admission is None && failure.job is None,
        failure.kind is ProcedureV2SchemaInvalid <==> (error matches
            ProcedureV2StartPreparationErrorV1::Source(source) && source is SchemaInvalid),
        error matches ProcedureV2StartPreparationErrorV1::Source(
            ProcedureV2SourceAdmissionErrorV1::SchemaInvalid { diagnostic_codes },
        ) ==> failure.details == (DispatchErrorDetailsV1::ProcedureV2SchemaInvalid {
            diagnostic_codes,
        }),
        failure.kind is ProcedureInvalid <==> (error matches
            ProcedureV2StartPreparationErrorV1::Source(source) && (source is NotProcedureV2
            || (source matches ProcedureV2SourceAdmissionErrorV1::Rejected(rejected)
            && rejected is Domain))),
        failure.kind is DaemonUnavailable <==> error == ProcedureV2StartPreparationErrorV1::Source(
            ProcedureV2SourceAdmissionErrorV1::Rejected(ExecutionBoundaryErrorV1::Transient),
        ),
        failure.kind is UnsupportedV2Capability <==> error
            == ProcedureV2StartPreparationErrorV1::Source(
            ProcedureV2SourceAdmissionErrorV1::Rejected(
                ExecutionBoundaryErrorV1::ProcedureV2Unsupported,
            ),
        ),
        failure.kind is DigestConfirmationRequired <==> error is DigestConfirmationRequired,
        error matches ProcedureV2StartPreparationErrorV1::DigestConfirmationRequired {
            procedure_digest,
        } ==> failure.details == (DispatchErrorDetailsV1::DigestConfirmationRequired {
            procedure_digest,
        }),
        failure.kind is ProcedureDigestMismatch <==> error is ProcedureDigestMismatch
            || error is PinnedPresetDigestMismatch,
        error matches ProcedureV2StartPreparationErrorV1::ProcedureDigestMismatch {
            expected,
            actual,
        } ==> failure.details == (DispatchErrorDetailsV1::ProcedureDigestMismatch {
            expected,
            actual,
        }),
        error matches ProcedureV2StartPreparationErrorV1::PinnedPresetDigestMismatch {
            expected,
            actual,
        } ==> failure.details == (DispatchErrorDetailsV1::ProcedureDigestMismatch {
            expected,
            actual,
        }),
        failure.kind is GoalTrackingNotEnabled <==> error
            == ProcedureV2StartPreparationErrorV1::GoalMutation(
            GraphMutationErrorV2::GoalTrackingNotEnabled,
        ),
        failure.kind is Internal <==> error is Domain || error is InvalidStoreValue || error
            == ProcedureV2StartPreparationErrorV1::GoalMutation(GraphMutationErrorV2::Other),
{
}

/// A failed submission is told by what it failed for, whatever had been admitted, and says which job had
/// been.
pub proof fn a_failed_submission_is_told_by_its_cause(
    error: WorkerErrorV1,
    failure: DispatchFailureV1,
    admission: AdmitOutcomeV1,
    admitted: WorkerErrorV1,
    admitted_failure: DispatchFailureV1,
)
    requires
        call_ensures(map_worker_error, (error,), failure),
        error is JobNotFound || error is Progress || error is BackgroundPanicked
            || error is RecoveryRequired || error is RetirementRejected,
        admitted == (WorkerErrorV1::AfterAdmission { admission, source: Box::new(error) }),
        call_ensures(map_worker_error, (admitted,), admitted_failure),
    ensures
        error is JobNotFound <==> is_bare(failure, DispatchFailureKindV1::JobNotFound),
        !(error is JobNotFound) <==> is_bare(failure, DispatchFailureKindV1::DaemonUnavailable),
        admitted_failure.kind == failure.kind,
        admitted_failure.details is Absent,
        admitted_failure.admission matches Some(identity) && identity.job_id@ == admitted_as(
            admission,
        ).0 && identity.workspace_sequence == admitted_as(admission).1,
{
    reveal_with_fuel(crate::production::failures::worker_cause, 2);
}

/// A failed mutation is told as a failed submission, but that a conflict of revisions is one of the
/// item's where an item was to be changed.
pub proof fn a_conflict_over_an_item_is_told_as_one(
    mutates_item: bool,
    expected: Option<u64>,
    actual: Option<u64>,
    failure: DispatchFailureV1,
)
    requires
        call_ensures(
            map_mutation_worker_error,
            (
                mutates_item,
                WorkerErrorV1::Store(StoreErrorV1::PreconditionConflictV1 { expected, actual }),
            ),
            failure,
        ),
    ensures
        mutates_item ==> failure.kind is ItemRevisionConflict,
        !mutates_item ==> failure.kind is SessionRevisionConflict,
        failure.details == (DispatchErrorDetailsV1::Revisions { expected, current: actual }),
        failure.admission is None && failure.job is None,
{
}

/// A failed read is told by what it failed for.
pub proof fn a_failed_read_is_told_by_its_cause(
    error: ReadServiceErrorV1,
    failure: DispatchFailureV1,
)
    requires
        call_ensures(map_read_error, (error,), failure),
        !(error is Store),
    ensures
        failure.admission is None && failure.job is None,
        failure.kind is JobNotFound <==> error is JobNotFound,
        failure.kind is JobWaitTimeout <==> error is WaitTimedOut,
        failure.kind is DaemonUnavailable <==> error is Notification,
        failure.kind is Internal <==> error is DeadlineOverflow || error is TimestampOutOfRange,
        failure.kind is SessionNotFound <==> error is MissingSession,
        failure.kind is SessionIdMismatch <==> error is SessionIdentityMismatch,
        error matches ReadServiceErrorV1::SessionIdentityMismatch { expected, actual }
            ==> failure.details == (DispatchErrorDetailsV1::SessionIdMismatch {
            expected,
            actual,
        }),
        failure.kind is WorkspaceStateUnreadable <==> error is ResultShapeConversion
            || error is InconsistentState,
{
}

/// A view of a graph session that cannot be shown is told by why it cannot.
pub proof fn an_unshown_graph_is_told_by_its_cause(
    error: GraphViewErrorV2,
    failure: DispatchFailureV1,
)
    requires
        call_ensures(map_graph_view_error_v2, (error,), failure),
    ensures
        is_bare(failure, failure.kind),
        failure.kind is SessionNotFound <==> error is MissingGraphSession,
        failure.kind is SessionNotRunning <==> error is TerminalSessionHasNoNext,
        failure.kind is Internal <==> error is TimestampOutOfRange,
        failure.kind is WorkspaceStateUnreadable <==> error is PendingMutationsForCompact
            || error is InvalidSnapshot || error is InconsistentState,
{
}

/// A workspace that does not resolve is told by why it does not.
pub proof fn an_unresolved_workspace_is_told_by_its_cause(
    error: WorkspaceResolutionErrorV1,
    failure: DispatchFailureV1,
)
    requires
        call_ensures(map_resolution_error, (error,), failure),
        !(error is BindingInspection),
    ensures
        failure.admission is None && failure.job is None,
        failure.kind is WorkspacePathUnsafe <==> error is Selector || error is StoredRootPathInvalid
            || error is WorkspaceRootPathInvalid || error is RuntimeDirectoryPathInvalid
            || error is RuntimeDirectoryPathUnsupportedPlatform || error is WorkspaceRootConversion
            || error is ManagedDevScopeViolation,
        failure.kind is WorkspaceNotInitialized <==> error is ExistingBindingMissing,
        failure.kind is WorkspaceAlreadyInitialized <==> error is BootstrapBindingAlreadyPresent,
        failure.kind is WorkspaceUuidMismatch <==> error is ExpectedWorkspaceUuidMismatch,
        error matches WorkspaceResolutionErrorV1::ExpectedWorkspaceUuidMismatch { expected, actual }
            ==> failure.details == (DispatchErrorDetailsV1::WorkspaceUuidMismatch {
            expected,
            actual,
        }),
        failure.kind is WorkspaceIdentityConflict <==> error is GitStoreFingerprintMismatch
            || error is PreliminaryIdentityWasNotCandidate
            || error is RevalidatedIdentityStateMismatch || error is RevalidatedStoreIdentityMismatch
            || error is RuntimeDatabasePathChangedDuringResolution || (error matches
            WorkspaceResolutionErrorV1::Git { source } && (source is CopiedWorkspaceUuid
            || source is IdentityMismatch || source is MoveConflict)),
        failure.kind is NotGitWorktree <==> error == (WorkspaceResolutionErrorV1::Git {
            source: GitResolverErrorV1::NonGitRepository,
        }),
        failure.kind is BareGitRepository <==> error == (WorkspaceResolutionErrorV1::Git {
            source: GitResolverErrorV1::BareRepository,
        }),
        failure.kind is WorktreeGone <==> error == (WorkspaceResolutionErrorV1::Git {
            source: GitResolverErrorV1::WorktreeDeleted,
        }),
        failure.kind is PathOutsideWorktree <==> (error matches WorkspaceResolutionErrorV1::Git {
            source,
        } && (source is PathEscape || source is SymlinkEscape)),
        failure.kind is RequestInvalid <==> error == (WorkspaceResolutionErrorV1::Git {
            source: GitResolverErrorV1::Selector,
        }),
        failure.kind is DaemonUnavailable <==> (error matches WorkspaceResolutionErrorV1::Git {
            source,
        } && (source is PermissionDenied || source is Io || source is Representation
            || source is Invariant || source is WorkspaceLayoutCleanup)),
{
}

/// A failed operation on a workspace is told by what it failed for.
pub proof fn a_failed_operation_is_told_by_its_cause(
    error: WorkspaceRuntimeErrorV1,
    failure: DispatchFailureV1,
)
    requires
        call_ensures(map_runtime_error, (error,), failure),
        !(error is Resolution),
        !(error is Store),
        !(error is ResetAdmitted),
    ensures
        failure.admission is None && failure.job is None,
        failure.kind is MutationOutcomeUnknown <==> error is ResetAdmissionOutcomeUnknown,
        error matches WorkspaceRuntimeErrorV1::ResetAdmissionOutcomeUnknown { idempotency_key, .. }
            ==> failure.details == (DispatchErrorDetailsV1::UnknownOutcome { idempotency_key }),
        failure.kind is WorkspaceInitConflict <==> error is Layout,
        failure.kind is DaemonUnavailable <==> error is Registry || error is Scheduler,
        failure.kind is WorkspaceMaintenance <==> error is MaintenanceInProgress
            || error is ResetSchedulerRetirement || error is ResetMarkerConflict
            || error is ResetRegistryPredecessorStale,
        failure.kind is IdempotencyKeyReused <==> error is ResetIdempotencyConflict,
        failure.kind is WorkspaceNotInitialized <==> error is ResetSourceNotRegistered
            || error is BindingDisappeared,
        failure.kind is WorkspaceIdentityConflict <==> error is ResetSourceAmbiguous
            || error is BindingIdentityMismatch || error is BindingMismatch
            || error is RebindEvidenceMismatch || error is RevalidationKeyMismatch,
        failure.kind is WorkspacePathUnsafe <==> error is RuntimeDirectory
            || error is RuntimeDirectoryMissing || error is RuntimePathMismatch
            || error is RuntimePathsUnsupportedPlatform,
        failure.kind is WorkspaceConfigInvalid <==> error is ConfigRead || error is ConfigAdmission
            || error is StoreOptions,
{
}

/// An operation that failed after its reset was admitted is told by the same cause, and says that the
/// reset was admitted: as its operation, the first job of the workspace that it leads to.
pub proof fn an_admitted_reset_is_told_by_its_cause(
    marker: ResetMarkerV1,
    source: WorkspaceRuntimeErrorV1,
    plain: DispatchFailureV1,
    admitted: WorkspaceRuntimeErrorV1,
    failure: DispatchFailureV1,
)
    requires
        !(source is Resolution),
        !(source is Store),
        !(source is ResetAdmitted),
        call_ensures(map_runtime_error, (source,), plain),
        admitted == (WorkspaceRuntimeErrorV1::ResetAdmitted { marker, source: Box::new(source) }),
        call_ensures(map_runtime_error, (admitted,), failure),
    ensures
        failure.kind == plain.kind,
        failure.details == plain.details,
        failure.admission matches Some(identity) && identity.job_id@ == marker.operation_id@
            && identity.workspace_sequence == 1,
{
    reveal_with_fuel(crate::production::failures::runtime_cause, 2);
}

/// A previewed start whose procedure does not load is told by why it does not.
pub proof fn an_unloaded_procedure_is_told_by_its_cause(
    error: ExecutionBoundaryErrorV1,
    capability: String,
    failure: DispatchFailureV1,
)
    requires
        call_ensures(map_preview_procedure_error, (error, capability), failure),
    ensures
        failure.admission is None && failure.job is None,
        failure.kind is ProcedureInvalid <==> error is Domain,
        failure.kind is UnsupportedV2Capability <==> error is ProcedureV2Unsupported,
        failure.kind is WorkspaceUuidMismatch <==> error is WorkspaceIdentityMismatch,
        failure.kind is DaemonUnavailable <==> error is Transient,
        error is ProcedureV2Unsupported ==> (failure.details matches
            DispatchErrorDetailsV1::UnsupportedV2Capability { capability: told, .. } && told
            == capability),
{
}

/// What a Store failed for is told alike by everything that asks it: an execution, a start that is
/// prepared, a submission, a read, a workspace that is resolved and one that is worked on.
pub proof fn a_failed_store_is_told_alike_by_all(
    error: StoreErrorV1,
    failure: DispatchFailureV1,
    of_execution: DispatchFailureV1,
    of_preparation: DispatchFailureV1,
    of_submission: DispatchFailureV1,
    of_read: DispatchFailureV1,
    of_resolution: DispatchFailureV1,
    of_operation: DispatchFailureV1,
)
    requires
        !(error is AdmissionCommittedV1),
        !(error is ProcedureV2PreconditionFailedV1),
        call_ensures(map_store_error, (error,), failure),
        call_ensures(
            map_reset_preparation_error,
            (ExecutionErrorV1::Store(error),),
            of_execution,
        ),
        call_ensures(
            map_procedure_v2_start_preparation_error,
            (ProcedureV2StartPreparationErrorV1::Execution(ExecutionErrorV1::Store(error)),),
            of_preparation,
        ),
        call_ensures(map_worker_error, (WorkerErrorV1::Store(error),), of_submission),
        call_ensures(map_read_error, (ReadServiceErrorV1::Store(error),), of_read),
        call_ensures(
            map_resolution_error,
            (WorkspaceResolutionErrorV1::BindingInspection { source: error },),
            of_resolution,
        ),
        call_ensures(map_runtime_error, (WorkspaceRuntimeErrorV1::Store(error),), of_operation),
    ensures
        of_execution == failure,
        of_preparation == failure,
        of_submission == failure,
        of_read == failure,
        of_resolution == failure,
        of_operation == failure,
{
}

/// A change of a graph session that its Store refuses is told as the change itself is.
pub proof fn a_change_that_the_store_refuses_is_told_by_its_cause(
    refused: PersistedGraphMutationFailureV2,
    plain: DispatchFailureV1,
    failure: DispatchFailureV1,
)
    requires
        call_ensures(map_graph_mutation_failure_v2, (&refused,), plain),
        call_ensures(
            map_store_error,
            (StoreErrorV1::ProcedureV2PreconditionFailedV1 { failure: refused },),
            failure,
        ),
    ensures
        failure.kind == plain.kind,
        failure.admission is None && failure.job is None,
{
}

} // verus!
