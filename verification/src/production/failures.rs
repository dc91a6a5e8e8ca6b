//! From the failures of the daemon's parts to the public failures of a request.

use crate::dispatch::{DispatchErrorDetailsV1, DispatchFailureKindV1, DispatchFailureV1};
use crate::dispatch;
use crate::execution::{
    DomainErrorV1, ExecutionBoundaryErrorV1, ExecutionErrorV1, GraphMutationErrorV2,
    ProcedureV2SourceAdmissionErrorV1, ProcedureV2StartPreparationErrorV1,
};
use crate::json;
use crate::read_service::ReadServiceErrorV1;
use crate::runtime_workspace::WorkspaceRuntimeErrorV1;
use crate::store::{
    AdmitOutcomeV1, JobReceiptOrTerminalV1, JobReceiptV1, PersistedDomainErrorV1,
    PersistedGraphMutationFailureV2, StoreErrorV1,
};
use crate::text;
use crate::worker::WorkerErrorV1;
use crate::workspace::{GitResolverErrorV1, WorkspaceResolutionErrorV1};
use vstd::prelude::*;

verus! {

/// What a terminal job was asked to do, as far as its failures are concerned.
#[derive(Clone, Copy, Debug, PartialEq, Eq, Structural)]
pub enum TerminalCommandKindV1 {
    Start,
    ItemMutation,
    SessionReset,
    Skip,
    Return,
    Reopen,
    Decision,
    Rework,
    GoalDefinition,
    GoalRevision,
    CriterionAssessment,
    Other,
}

/// What a previewed command asks for, as far as its failures are concerned.
#[derive(Clone, Copy, Debug, PartialEq, Eq, Structural)]
pub enum PreviewCommandKindV1 {
    Return,
    Reopen,
    Other,
}

/// The public failure of a session that is not the expected one.
pub open spec fn session_mismatch(expected: String, actual: Option<String>) -> DispatchFailureV1 {
    dispatch::detailed_failure(
        DispatchFailureKindV1::SessionIdMismatch,
        DispatchErrorDetailsV1::SessionIdMismatch { expected, actual },
    )
}

/// The public failure of a workspace that is not the expected one.
pub open spec fn workspace_mismatch(expected: String, actual: String) -> DispatchFailureV1 {
    dispatch::detailed_failure(
        DispatchFailureKindV1::WorkspaceUuidMismatch,
        DispatchErrorDetailsV1::WorkspaceUuidMismatch { expected, actual },
    )
}

/// The public failure of a procedure that is not the expected one.
pub open spec fn digest_mismatch(expected: String, actual: String) -> DispatchFailureV1 {
    dispatch::detailed_failure(
        DispatchFailureKindV1::ProcedureDigestMismatch,
        DispatchErrorDetailsV1::ProcedureDigestMismatch { expected, actual },
    )
}

/// The public failure of an attempt that is not the current one.
pub open spec fn attempt_mismatch(expected: String, actual: Option<String>) -> DispatchFailureV1 {
    dispatch::detailed_failure(
        DispatchFailureKindV1::AttemptNotCurrent,
        DispatchErrorDetailsV1::AttemptMismatch { expected, actual },
    )
}

/// A public failure that reports two revisions.
pub open spec fn revision_conflict(
    kind: DispatchFailureKindV1,
    expected: Option<u64>,
    current: Option<u64>,
) -> DispatchFailureV1 {
    dispatch::detailed_failure(kind, DispatchErrorDetailsV1::Revisions { expected, current })
}

/// The public failure of a request that needs a capability of graph procedures.
pub open spec fn unsupported_capability(
    capability: String,
    required_result_schema: String,
) -> DispatchFailureV1 {
    dispatch::detailed_failure(
        DispatchFailureKindV1::UnsupportedV2Capability,
        DispatchErrorDetailsV1::UnsupportedV2Capability { capability, required_result_schema },
    )
}

/// The public failure of a session that has as many open blockers as it may have. A limit that a
/// machine word cannot hold is a defect.
pub open spec fn blocker_limit(maximum: nat) -> DispatchFailureV1 {
    if maximum <= usize::MAX {
        dispatch::detailed_failure(
            DispatchFailureKindV1::BlockerLimitReached,
            DispatchErrorDetailsV1::BlockerLimit { maximum_open_blockers: maximum as usize },
        )
    } else {
        dispatch::bare_failure(DispatchFailureKindV1::Internal)
    }
}

/// The public failure of a receipt that contradicts itself or what it stands for.
pub open spec fn integrity_failure() -> DispatchFailureV1 {
    dispatch::bare_failure(DispatchFailureKindV1::WorkspaceStateUnreadable)
}

/// The public failure of a defect.
pub open spec fn internal_failure() -> DispatchFailureV1 {
    dispatch::bare_failure(DispatchFailureKindV1::Internal)
}

/// The public failure of a session that is not the expected one.
pub fn session_id_mismatch_failure(expected: String, actual: Option<String>) -> (failure:
    DispatchFailureV1)
    ensures
        failure == session_mismatch(expected, actual),
{
    DispatchFailureV1::new(DispatchFailureKindV1::SessionIdMismatch).with_details(
        DispatchErrorDetailsV1::SessionIdMismatch { expected, actual },
    )
}

/// The public failure of a workspace that is not the expected one.
pub fn workspace_uuid_mismatch_failure(expected: String, actual: String) -> (failure:
    DispatchFailureV1)
    ensures
        failure == workspace_mismatch(expected, actual),
{
    DispatchFailureV1::new(DispatchFailureKindV1::WorkspaceUuidMismatch).with_details(
        DispatchErrorDetailsV1::WorkspaceUuidMismatch { expected, actual },
    )
}

/// The public failure of a procedure that is not the expected one.
pub fn procedure_digest_mismatch_failure(expected: String, actual: String) -> (failure:
    DispatchFailureV1)
    ensures
        failure == digest_mismatch(expected, actual),
{
    DispatchFailureV1::new(DispatchFailureKindV1::ProcedureDigestMismatch).with_details(
        DispatchErrorDetailsV1::ProcedureDigestMismatch { expected, actual },
    )
}

fn attempt_mismatch_failure(expected: String, actual: Option<String>) -> (failure:
    DispatchFailureV1)
    ensures
        failure == attempt_mismatch(expected, actual),
{
    DispatchFailureV1::new(DispatchFailureKindV1::AttemptNotCurrent).with_details(
        DispatchErrorDetailsV1::AttemptMismatch { expected, actual },
    )
}

fn revision_conflict_failure(
    kind: DispatchFailureKindV1,
    expected: Option<u64>,
    current: Option<u64>,
) -> (failure: DispatchFailureV1)
    ensures
        failure == revision_conflict(kind, expected, current),
{
    DispatchFailureV1::new(kind).with_details(
        DispatchErrorDetailsV1::Revisions { expected, current },
    )
}

fn unsupported_capability_failure(capability: String, required_result_schema: String) -> (failure:
    DispatchFailureV1)
    ensures
        failure == unsupported_capability(capability, required_result_schema),
{
    DispatchFailureV1::new(DispatchFailureKindV1::UnsupportedV2Capability).with_details(
        DispatchErrorDetailsV1::UnsupportedV2Capability { capability, required_result_schema },
    )
}

fn blocker_limit_failure(maximum: u64) -> (failure: DispatchFailureV1)
    ensures
        failure == blocker_limit(maximum as nat),
{
    if maximum <= usize::MAX as u64 {
        DispatchFailureV1::new(DispatchFailureKindV1::BlockerLimitReached).with_details(
            DispatchErrorDetailsV1::BlockerLimit { maximum_open_blockers: maximum as usize },
        )
    } else {
        DispatchFailureV1::new(DispatchFailureKindV1::Internal)
    }
}

/// The public failure of a receipt that contradicts itself or what it stands for.
pub fn terminal_replay_integrity_failure() -> (failure: DispatchFailureV1)
    ensures
        failure == integrity_failure(),
{
    DispatchFailureV1::new(DispatchFailureKindV1::WorkspaceStateUnreadable)
}

/// The public failure of a start that needs a graph procedure where none is supported.
pub fn unsupported_v2_capability_failure(capability: String) -> (failure: DispatchFailureV1)
    ensures
        failure.kind == DispatchFailureKindV1::UnsupportedV2Capability,
        failure.admission is None,
        failure.job is None,
        failure.details matches DispatchErrorDetailsV1::UnsupportedV2Capability {
            capability: reported,
            required_result_schema,
        } && reported == capability && required_result_schema@ == "podway.session-start-result/v2"@,
{
    unsupported_capability_failure(capability, "podway.session-start-result/v2".to_owned())
}

/// A citation as a response shows it: by the node that it refers to, or by the item.
pub open spec fn public_citation(citation: json::JsonTreeV1) -> Option<json::JsonTreeV1> {
    if json::text_of(json::tree_member(citation, "kind"@)) == Some("evidence"@) {
        match json::tree_member(citation, "graph_node_id"@) {
            Some(node) => Some(
                json::JsonTreeV1::Record(
                    json::no_members().insert("reference_graph_node_id"@, node),
                ),
            ),
            None => None,
        }
    } else if json::text_of(json::tree_member(citation, "kind"@)) == Some("item"@) {
        match json::tree_member(citation, "item_id"@) {
            Some(item) => Some(
                json::JsonTreeV1::Record(json::no_members().insert("local_item_id"@, item)),
            ),
            None => None,
        }
    } else {
        None
    }
}

/// A citation as a response shows it.
pub fn publish_citation(citation: &serde_json::Value) -> (published: Option<serde_json::Value>)
    ensures
        match published {
            Some(published) => public_citation(json::json_tree(*citation)) == Some(
                json::json_tree(published),
            ),
            None => public_citation(json::json_tree(*citation)) is None,
        },
{
    proof {
        reveal_strlit("evidence");
        reveal_strlit("item");
    }
    let object = match json::json_as_object(citation) {
        Some(object) => object,
        None => {
            return None;
        },
    };
    let (source, shown) = if json::member_text_is(object, "kind", "evidence") {
        ("graph_node_id", "reference_graph_node_id")
    } else if json::member_text_is(object, "kind", "item") {
        ("item_id", "local_item_id")
    } else {
        return None;
    };
    match json::json_map_get(object, source) {
        Some(value) => {
            let mut published = json::json_map_new();
            json::json_map_insert(&mut published, shown, value.clone());
            Some(json::json_object(published))
        },
        None => None,
    }
}

/// Whether a public failure is the one that a refused graph mutation is answered with.
pub open spec fn is_graph_failure(
    error: PersistedGraphMutationFailureV2,
    failure: DispatchFailureV1,
) -> bool {
    match error {
        PersistedGraphMutationFailureV2::GoalTrackingNotEnabled =>
            failure == dispatch::detailed_failure(
                DispatchFailureKindV1::GoalTrackingNotEnabled,
                DispatchErrorDetailsV1::GoalTrackingNotEnabled,
            ),
        PersistedGraphMutationFailureV2::SessionGoalAlreadyDefined { goal_revision } =>
            failure == dispatch::detailed_failure(
                DispatchFailureKindV1::SessionGoalAlreadyDefined,
                DispatchErrorDetailsV1::SessionGoalAlreadyDefined { goal_revision },
            ),
        PersistedGraphMutationFailureV2::GoalRevisionStale {
            expected_goal_revision,
            actual_goal_revision,
        } =>
            failure == dispatch::detailed_failure(
                DispatchFailureKindV1::GoalRevisionStale,
                DispatchErrorDetailsV1::GoalRevisionStale {
                    expected_goal_revision,
                    actual_goal_revision,
                },
            ),
        PersistedGraphMutationFailureV2::GoalRevisionTargetNotAllowed { target_graph_node_id } =>
            failure == dispatch::detailed_failure(
                DispatchFailureKindV1::GoalRevisionTargetNotAllowed,
                DispatchErrorDetailsV1::GoalRevisionTargetNotAllowed { target_graph_node_id },
            ),
        PersistedGraphMutationFailureV2::GoalRevisionTargetNotRevisionSafe {
            target_graph_node_id,
        } =>
            failure == dispatch::detailed_failure(
                DispatchFailureKindV1::GoalRevisionTargetNotRevisionSafe,
                DispatchErrorDetailsV1::GoalRevisionTargetNotRevisionSafe { target_graph_node_id },
            ),
        PersistedGraphMutationFailureV2::ReactivationFlagRequired =>
            failure == dispatch::detailed_failure(
                DispatchFailureKindV1::ReactivationFlagRequired,
                DispatchErrorDetailsV1::ReactivationFlagRequired,
            ),
        PersistedGraphMutationFailureV2::SessionNotRunning => failure == dispatch::bare_failure(
            DispatchFailureKindV1::SessionNotRunning,
        ),
        PersistedGraphMutationFailureV2::SessionCancelled => failure == dispatch::bare_failure(
            DispatchFailureKindV1::SessionCancelled,
        ),
        PersistedGraphMutationFailureV2::SessionRevisionConflict { expected, actual } =>
            failure == dispatch::detailed_failure(
                DispatchFailureKindV1::SessionRevisionConflict,
                DispatchErrorDetailsV1::Revisions {
                    expected: Some(expected),
                    current: Some(actual),
                },
            ),
        PersistedGraphMutationFailureV2::AttemptNotCurrent { expected, actual } =>
            failure == dispatch::detailed_failure(
                DispatchFailureKindV1::AttemptNotCurrent,
                DispatchErrorDetailsV1::AttemptMismatch { expected, actual },
            ),
        PersistedGraphMutationFailureV2::GraphNodeTypeMismatch { graph_node_id, actual } =>
            failure == dispatch::detailed_failure(
                DispatchFailureKindV1::GraphNodeTypeMismatch,
                DispatchErrorDetailsV1::GraphNodeTypeMismatch { graph_node_id, actual },
            ),
        PersistedGraphMutationFailureV2::RouteNotAllowed { graph_node_id, option_id } =>
            failure == dispatch::detailed_failure(
                DispatchFailureKindV1::RouteNotAllowed,
                DispatchErrorDetailsV1::RouteNotAllowed { graph_node_id, option_id },
            ),
        PersistedGraphMutationFailureV2::ManualReworkTargetNotAllowed { target_graph_node_id } =>
            failure == dispatch::detailed_failure(
                DispatchFailureKindV1::ManualReworkTargetNotAllowed,
                DispatchErrorDetailsV1::ManualReworkTargetNotAllowed { target_graph_node_id },
            ),
        PersistedGraphMutationFailureV2::ManualReworkTargetNotOnTrace { target_graph_node_id } =>
            failure == dispatch::detailed_failure(
                DispatchFailureKindV1::ManualReworkTargetNotOnTrace,
                DispatchErrorDetailsV1::ManualReworkTargetNotOnTrace { target_graph_node_id },
            ),
        PersistedGraphMutationFailureV2::DecisionReasonMissing { graph_node_id } =>
            failure == dispatch::detailed_failure(
                DispatchFailureKindV1::DecisionReasonMissing,
                DispatchErrorDetailsV1::DecisionReasonMissing { graph_node_id },
            ),
        PersistedGraphMutationFailureV2::EvidenceReferenceStale {
            graph_node_id,
            source_graph_node_id,
            expected_source_attempt_id,
            current_source_attempt_id,
        } =>
            failure == dispatch::detailed_failure(
                DispatchFailureKindV1::EvidenceReferenceStale,
                DispatchErrorDetailsV1::EvidenceReferenceStale {
                    graph_node_id,
                    source_graph_node_id,
                    expected_source_attempt_id,
                    current_source_attempt_id,
                },
            ),
        PersistedGraphMutationFailureV2::GoalAssessmentDecisionRequiresAssessment =>
            failure == dispatch::bare_failure(
                DispatchFailureKindV1::RequestInvalid,
            ),
        PersistedGraphMutationFailureV2::GoalAssessmentDecisionRequired =>
            failure == dispatch::bare_failure(
                DispatchFailureKindV1::RequestInvalid,
            ),
        PersistedGraphMutationFailureV2::CriterionResultAlreadyRecorded =>
            failure == dispatch::bare_failure(
                DispatchFailureKindV1::RequestInvalid,
            ),
        PersistedGraphMutationFailureV2::CriterionNotFound { criterion_id } =>
            failure == dispatch::detailed_failure(
                DispatchFailureKindV1::CriterionNotFound,
                DispatchErrorDetailsV1::CriterionNotFound { criterion_id },
            ),
        PersistedGraphMutationFailureV2::CriterionModeMixed {
            criterion_id,
            expected_mode,
            actual_status,
        } =>
            failure == dispatch::detailed_failure(
                DispatchFailureKindV1::CriterionModeMixed,
                DispatchErrorDetailsV1::CriterionModeMixed {
                    criterion_id,
                    expected_mode,
                    actual_status,
                },
            ),
        PersistedGraphMutationFailureV2::SkipNotAllowed => failure == dispatch::bare_failure(
            DispatchFailureKindV1::StageNotSkippable,
        ),
        PersistedGraphMutationFailureV2::SkipReasonRequired => failure == dispatch::bare_failure(
            DispatchFailureKindV1::StageNotSkippable,
        ),
        PersistedGraphMutationFailureV2::BlockerIdAlreadyUsed => failure == dispatch::bare_failure(
            DispatchFailureKindV1::Internal,
        ),
        PersistedGraphMutationFailureV2::BlockerNotFound => failure == dispatch::bare_failure(
            DispatchFailureKindV1::BlockerNotFound,
        ),
        PersistedGraphMutationFailureV2::NoOpenBlockers => failure == dispatch::bare_failure(
            DispatchFailureKindV1::BlockerNotFound,
        ),
        PersistedGraphMutationFailureV2::BlockerNotCurrent => failure == dispatch::bare_failure(
            DispatchFailureKindV1::BlockerNotCurrent,
        ),
        PersistedGraphMutationFailureV2::BlockerAlreadyResolved =>
            failure == dispatch::bare_failure(
                DispatchFailureKindV1::BlockerNotCurrent,
            ),
        PersistedGraphMutationFailureV2::ItemNotFound => failure == dispatch::bare_failure(
            DispatchFailureKindV1::ItemNotFound,
        ),
        PersistedGraphMutationFailureV2::ItemRevisionConflict { expected, actual } =>
            failure == dispatch::detailed_failure(
                DispatchFailureKindV1::ItemRevisionConflict,
                DispatchErrorDetailsV1::Revisions {
                    expected: Some(expected),
                    current: Some(actual),
                },
            ),
        PersistedGraphMutationFailureV2::ItemTypeMismatch => failure == dispatch::bare_failure(
            DispatchFailureKindV1::ItemTypeMismatch,
        ),
        PersistedGraphMutationFailureV2::ItemConstraintFailed => failure == dispatch::bare_failure(
            DispatchFailureKindV1::ItemConstraintFailed,
        ),
        PersistedGraphMutationFailureV2::ListValueNotFound => failure == dispatch::bare_failure(
            DispatchFailureKindV1::ListValueNotFound,
        ),
        PersistedGraphMutationFailureV2::ListValueDuplicate => failure == dispatch::bare_failure(
            DispatchFailureKindV1::ListValueDuplicate,
        ),
        PersistedGraphMutationFailureV2::RequiredItemsMissing => failure == dispatch::bare_failure(
            DispatchFailureKindV1::RequiredItemsMissing,
        ),
        PersistedGraphMutationFailureV2::BlockersPresent => failure == dispatch::bare_failure(
            DispatchFailureKindV1::BlockersPresent,
        ),
        PersistedGraphMutationFailureV2::SessionGoalMissing =>
            failure == dispatch::detailed_failure(
                DispatchFailureKindV1::SessionGoalMissing,
                DispatchErrorDetailsV1::SessionGoalMissing,
            ),
        PersistedGraphMutationFailureV2::FreshGoalAssessmentMissing { goal_revision } =>
            failure == dispatch::detailed_failure(
                DispatchFailureKindV1::FreshGoalAssessmentMissing,
                DispatchErrorDetailsV1::FreshGoalAssessmentMissing { goal_revision },
            ),
        PersistedGraphMutationFailureV2::ArtifactChanged => failure == dispatch::bare_failure(
            DispatchFailureKindV1::ArtifactChanged,
        ),
        PersistedGraphMutationFailureV2::TooManyOpenBlockers { maximum } => failure
            == blocker_limit(maximum as nat),
        PersistedGraphMutationFailureV2::OptionNotAllowed {
            graph_node_id,
            option_id,
            allowed_option_ids,
        } => failure.kind == DispatchFailureKindV1::OptionNotAllowed && failure.admission is None
            && failure.job is None && (failure.details
            matches DispatchErrorDetailsV1::OptionNotAllowed {
            graph_node_id: node,
            option_id: option,
            allowed_option_ids: allowed,
        } && node == graph_node_id && option == option_id && text::characters_of(allowed@)
            == text::characters_of(allowed_option_ids@)),
        PersistedGraphMutationFailureV2::EvidenceReferenceUnresolved {
            graph_node_id,
            source_graph_node_ids,
        } => failure.kind == DispatchFailureKindV1::EvidenceReferenceUnresolved
            && failure.admission is None && failure.job is None && (failure.details
            matches DispatchErrorDetailsV1::EvidenceReferenceUnresolved {
            graph_node_id: node,
            source_graph_node_ids: sources,
        } && node == graph_node_id && text::characters_of(sources@) == text::characters_of(
            source_graph_node_ids@,
        )),
        PersistedGraphMutationFailureV2::CriterionCitationInvalid { criterion_id, citation } => {
            match public_citation(json::json_tree(citation)) {
                Some(published) => failure.kind == DispatchFailureKindV1::CriterionCitationInvalid
                    && failure.admission is None && failure.job is None && (failure.details
                    matches DispatchErrorDetailsV1::CriterionCitationInvalid {
                    criterion_id: criterion,
                    citation: shown,
                } && criterion == criterion_id && json::json_tree(shown) == published),
                None => failure == internal_failure(),
            }
        },
    }
}

/// The public failure that a refused graph mutation is answered with.
pub fn map_graph_mutation_failure_v2(error: &PersistedGraphMutationFailureV2) -> (failure:
    DispatchFailureV1)
    ensures
        is_graph_failure(*error, failure),
{
    match error {
        PersistedGraphMutationFailureV2::GoalTrackingNotEnabled =>
            DispatchFailureV1::new(DispatchFailureKindV1::GoalTrackingNotEnabled).with_details(
                DispatchErrorDetailsV1::GoalTrackingNotEnabled,
            ),
        PersistedGraphMutationFailureV2::SessionGoalAlreadyDefined { goal_revision } =>
            DispatchFailureV1::new(DispatchFailureKindV1::SessionGoalAlreadyDefined).with_details(
                DispatchErrorDetailsV1::SessionGoalAlreadyDefined { goal_revision: *goal_revision },
            ),
        PersistedGraphMutationFailureV2::GoalRevisionStale {
            expected_goal_revision,
            actual_goal_revision,
        } =>
            DispatchFailureV1::new(DispatchFailureKindV1::GoalRevisionStale).with_details(
                DispatchErrorDetailsV1::GoalRevisionStale {
                    expected_goal_revision: *expected_goal_revision,
                    actual_goal_revision: *actual_goal_revision,
                },
            ),
        PersistedGraphMutationFailureV2::GoalRevisionTargetNotAllowed { target_graph_node_id } =>
            DispatchFailureV1::new(
                DispatchFailureKindV1::GoalRevisionTargetNotAllowed,
            ).with_details(
                DispatchErrorDetailsV1::GoalRevisionTargetNotAllowed {
                    target_graph_node_id: target_graph_node_id.clone(),
                },
            ),
        PersistedGraphMutationFailureV2::GoalRevisionTargetNotRevisionSafe {
            target_graph_node_id,
        } =>
            DispatchFailureV1::new(
                DispatchFailureKindV1::GoalRevisionTargetNotRevisionSafe,
            ).with_details(
                DispatchErrorDetailsV1::GoalRevisionTargetNotRevisionSafe {
                    target_graph_node_id: target_graph_node_id.clone(),
                },
            ),
        PersistedGraphMutationFailureV2::ReactivationFlagRequired =>
            DispatchFailureV1::new(DispatchFailureKindV1::ReactivationFlagRequired).with_details(
                DispatchErrorDetailsV1::ReactivationFlagRequired,
            ),
        PersistedGraphMutationFailureV2::SessionNotRunning =>
            DispatchFailureV1::new(DispatchFailureKindV1::SessionNotRunning),
        PersistedGraphMutationFailureV2::SessionCancelled =>
            DispatchFailureV1::new(DispatchFailureKindV1::SessionCancelled),
        PersistedGraphMutationFailureV2::SessionRevisionConflict { expected, actual } =>
            DispatchFailureV1::new(DispatchFailureKindV1::SessionRevisionConflict).with_details(
                DispatchErrorDetailsV1::Revisions {
                    expected: Some(*expected),
                    current: Some(*actual),
                },
            ),
        PersistedGraphMutationFailureV2::AttemptNotCurrent { expected, actual } =>
            DispatchFailureV1::new(DispatchFailureKindV1::AttemptNotCurrent).with_details(
                DispatchErrorDetailsV1::AttemptMismatch {
                    expected: expected.clone(),
                    actual: actual.clone(),
                },
            ),
        PersistedGraphMutationFailureV2::GraphNodeTypeMismatch { graph_node_id, actual } =>
            DispatchFailureV1::new(DispatchFailureKindV1::GraphNodeTypeMismatch).with_details(
                DispatchErrorDetailsV1::GraphNodeTypeMismatch {
                    graph_node_id: graph_node_id.clone(),
                    actual: actual.clone(),
                },
            ),
        PersistedGraphMutationFailureV2::RouteNotAllowed { graph_node_id, option_id } =>
            DispatchFailureV1::new(DispatchFailureKindV1::RouteNotAllowed).with_details(
                DispatchErrorDetailsV1::RouteNotAllowed {
                    graph_node_id: graph_node_id.clone(),
                    option_id: option_id.clone(),
                },
            ),
        PersistedGraphMutationFailureV2::ManualReworkTargetNotAllowed { target_graph_node_id } =>
            DispatchFailureV1::new(
                DispatchFailureKindV1::ManualReworkTargetNotAllowed,
            ).with_details(
                DispatchErrorDetailsV1::ManualReworkTargetNotAllowed {
                    target_graph_node_id: target_graph_node_id.clone(),
                },
            ),
        PersistedGraphMutationFailureV2::ManualReworkTargetNotOnTrace { target_graph_node_id } =>
            DispatchFailureV1::new(
                DispatchFailureKindV1::ManualReworkTargetNotOnTrace,
            ).with_details(
                DispatchErrorDetailsV1::ManualReworkTargetNotOnTrace {
                    target_graph_node_id: target_graph_node_id.clone(),
                },
            ),
        PersistedGraphMutationFailureV2::DecisionReasonMissing { graph_node_id } =>
            DispatchFailureV1::new(DispatchFailureKindV1::DecisionReasonMissing).with_details(
                DispatchErrorDetailsV1::DecisionReasonMissing {
                    graph_node_id: graph_node_id.clone(),
                },
            ),
        PersistedGraphMutationFailureV2::EvidenceReferenceStale {
            graph_node_id,
            source_graph_node_id,
            expected_source_attempt_id,
            current_source_attempt_id,
        } =>
            DispatchFailureV1::new(DispatchFailureKindV1::EvidenceReferenceStale).with_details(
                DispatchErrorDetailsV1::EvidenceReferenceStale {
                    graph_node_id: graph_node_id.clone(),
                    source_graph_node_id: source_graph_node_id.clone(),
                    expected_source_attempt_id: expected_source_attempt_id.clone(),
                    current_source_attempt_id: current_source_attempt_id.clone(),
                },
            ),
        PersistedGraphMutationFailureV2::GoalAssessmentDecisionRequiresAssessment =>
            DispatchFailureV1::new(DispatchFailureKindV1::RequestInvalid),
        PersistedGraphMutationFailureV2::GoalAssessmentDecisionRequired =>
            DispatchFailureV1::new(DispatchFailureKindV1::RequestInvalid),
        PersistedGraphMutationFailureV2::CriterionResultAlreadyRecorded =>
            DispatchFailureV1::new(DispatchFailureKindV1::RequestInvalid),
        PersistedGraphMutationFailureV2::CriterionNotFound { criterion_id } =>
            DispatchFailureV1::new(DispatchFailureKindV1::CriterionNotFound).with_details(
                DispatchErrorDetailsV1::CriterionNotFound { criterion_id: criterion_id.clone() },
            ),
        PersistedGraphMutationFailureV2::CriterionModeMixed {
            criterion_id,
            expected_mode,
            actual_status,
        } =>
            DispatchFailureV1::new(DispatchFailureKindV1::CriterionModeMixed).with_details(
                DispatchErrorDetailsV1::CriterionModeMixed {
                    criterion_id: criterion_id.clone(),
                    expected_mode: expected_mode.clone(),
                    actual_status: actual_status.clone(),
                },
            ),
        PersistedGraphMutationFailureV2::SkipNotAllowed =>
            DispatchFailureV1::new(DispatchFailureKindV1::StageNotSkippable),
        PersistedGraphMutationFailureV2::SkipReasonRequired =>
            DispatchFailureV1::new(DispatchFailureKindV1::StageNotSkippable),
        PersistedGraphMutationFailureV2::BlockerIdAlreadyUsed =>
            DispatchFailureV1::new(DispatchFailureKindV1::Internal),
        PersistedGraphMutationFailureV2::BlockerNotFound =>
            DispatchFailureV1::new(DispatchFailureKindV1::BlockerNotFound),
        PersistedGraphMutationFailureV2::NoOpenBlockers =>
            DispatchFailureV1::new(DispatchFailureKindV1::BlockerNotFound),
        PersistedGraphMutationFailureV2::BlockerNotCurrent =>
            DispatchFailureV1::new(DispatchFailureKindV1::BlockerNotCurrent),
        PersistedGraphMutationFailureV2::BlockerAlreadyResolved =>
            DispatchFailureV1::new(DispatchFailureKindV1::BlockerNotCurrent),
        PersistedGraphMutationFailureV2::ItemNotFound =>
            DispatchFailureV1::new(DispatchFailureKindV1::ItemNotFound),
        PersistedGraphMutationFailureV2::ItemRevisionConflict { expected, actual } =>
            DispatchFailureV1::new(DispatchFailureKindV1::ItemRevisionConflict).with_details(
                DispatchErrorDetailsV1::Revisions {
                    expected: Some(*expected),
                    current: Some(*actual),
                },
            ),
        PersistedGraphMutationFailureV2::ItemTypeMismatch =>
            DispatchFailureV1::new(DispatchFailureKindV1::ItemTypeMismatch),
        PersistedGraphMutationFailureV2::ItemConstraintFailed =>
            DispatchFailureV1::new(DispatchFailureKindV1::ItemConstraintFailed),
        PersistedGraphMutationFailureV2::ListValueNotFound =>
            DispatchFailureV1::new(DispatchFailureKindV1::ListValueNotFound),
        PersistedGraphMutationFailureV2::ListValueDuplicate =>
            DispatchFailureV1::new(DispatchFailureKindV1::ListValueDuplicate),
        PersistedGraphMutationFailureV2::RequiredItemsMissing =>
            DispatchFailureV1::new(DispatchFailureKindV1::RequiredItemsMissing),
        PersistedGraphMutationFailureV2::BlockersPresent =>
            DispatchFailureV1::new(DispatchFailureKindV1::BlockersPresent),
        PersistedGraphMutationFailureV2::SessionGoalMissing =>
            DispatchFailureV1::new(DispatchFailureKindV1::SessionGoalMissing).with_details(
                DispatchErrorDetailsV1::SessionGoalMissing,
            ),
        PersistedGraphMutationFailureV2::FreshGoalAssessmentMissing { goal_revision } =>
            DispatchFailureV1::new(DispatchFailureKindV1::FreshGoalAssessmentMissing).with_details(
                DispatchErrorDetailsV1::FreshGoalAssessmentMissing {
                    goal_revision: *goal_revision,
                },
            ),
        PersistedGraphMutationFailureV2::ArtifactChanged =>
            DispatchFailureV1::new(DispatchFailureKindV1::ArtifactChanged),
        PersistedGraphMutationFailureV2::TooManyOpenBlockers { maximum } => {
            blocker_limit_failure(*maximum)
        },
        PersistedGraphMutationFailureV2::OptionNotAllowed {
            graph_node_id,
            option_id,
            allowed_option_ids,
        } => DispatchFailureV1::new(DispatchFailureKindV1::OptionNotAllowed).with_details(
            DispatchErrorDetailsV1::OptionNotAllowed {
                graph_node_id: graph_node_id.clone(),
                option_id: option_id.clone(),
                allowed_option_ids: text::copy_texts(allowed_option_ids),
            },
        ),
        PersistedGraphMutationFailureV2::EvidenceReferenceUnresolved {
            graph_node_id,
            source_graph_node_ids,
        } => DispatchFailureV1::new(
            DispatchFailureKindV1::EvidenceReferenceUnresolved,
        ).with_details(
            DispatchErrorDetailsV1::EvidenceReferenceUnresolved {
                graph_node_id: graph_node_id.clone(),
                source_graph_node_ids: text::copy_texts(source_graph_node_ids),
            },
        ),
        PersistedGraphMutationFailureV2::CriterionCitationInvalid { criterion_id, citation } => {
            match publish_citation(citation) {
                Some(citation) => DispatchFailureV1::new(
                    DispatchFailureKindV1::CriterionCitationInvalid,
                ).with_details(
                    DispatchErrorDetailsV1::CriterionCitationInvalid {
                        criterion_id: criterion_id.clone(),
                        citation,
                    },
                ),
                None => DispatchFailureV1::new(DispatchFailureKindV1::Internal),
            }
        },
    }
}

/// The public failure that a failed terminal job is answered with.
pub open spec fn terminal_domain_failure(
    error: PersistedDomainErrorV1,
    command: TerminalCommandKindV1,
) -> DispatchFailureV1 {
    match error {
        PersistedDomainErrorV1::PreconditionFailed { expected, actual } => revision_conflict(
            if command is ItemMutation {
                DispatchFailureKindV1::ItemRevisionConflict
            } else {
                DispatchFailureKindV1::SessionRevisionConflict
            },
            Some(expected),
            Some(actual),
        ),
        PersistedDomainErrorV1::SessionIdentityMismatch { expected, actual } => session_mismatch(
            expected,
            actual,
        ),
        PersistedDomainErrorV1::AttemptNotCurrent { expected, actual } => attempt_mismatch(
            expected,
            actual,
        ),
        PersistedDomainErrorV1::ItemNotFound => dispatch::bare_failure(
            DispatchFailureKindV1::ItemNotFound,
        ),
        PersistedDomainErrorV1::BlockerNotCurrent => dispatch::bare_failure(
            DispatchFailureKindV1::BlockerNotCurrent,
        ),
        PersistedDomainErrorV1::InvalidTransition | PersistedDomainErrorV1::InvalidState => {
            dispatch::bare_failure(
                match command {
                    TerminalCommandKindV1::Skip => DispatchFailureKindV1::StageNotSkippable,
                    TerminalCommandKindV1::Return => DispatchFailureKindV1::ReturnNotAllowed,
                    TerminalCommandKindV1::Reopen => DispatchFailureKindV1::ReopenNotAllowed,
                    _ => DispatchFailureKindV1::SessionNotRunning,
                },
            )
        },
        PersistedDomainErrorV1::RevisionOverflow => internal_failure(),
        PersistedDomainErrorV1::RequiredItemsMissing => dispatch::bare_failure(
            DispatchFailureKindV1::RequiredItemsMissing,
        ),
        PersistedDomainErrorV1::BlockersPresent => dispatch::bare_failure(
            DispatchFailureKindV1::BlockersPresent,
        ),
        PersistedDomainErrorV1::BlockerLimitReached { maximum_open_blockers } => blocker_limit(
            maximum_open_blockers as nat,
        ),
        PersistedDomainErrorV1::ArtifactChanged => dispatch::bare_failure(
            DispatchFailureKindV1::ArtifactChanged,
        ),
        PersistedDomainErrorV1::EmptyValue
        | PersistedDomainErrorV1::ValueTooLong
        | PersistedDomainErrorV1::InvalidUuid
        | PersistedDomainErrorV1::InvalidIdentifier
        | PersistedDomainErrorV1::InvalidSha256Digest => dispatch::bare_failure(
            DispatchFailureKindV1::RequestInvalid,
        ),
    }
}

/// The public failure that a failed terminal job is answered with.
pub fn map_terminal_domain_error(
    error: &PersistedDomainErrorV1,
    command: TerminalCommandKindV1,
) -> (failure: DispatchFailureV1)
    ensures
        failure == terminal_domain_failure(*error, command),
{
    match error {
        PersistedDomainErrorV1::PreconditionFailed { expected, actual } => {
            let kind = match command {
                TerminalCommandKindV1::ItemMutation => DispatchFailureKindV1::ItemRevisionConflict,
                _ => DispatchFailureKindV1::SessionRevisionConflict,
            };
            revision_conflict_failure(kind, Some(*expected), Some(*actual))
        },
        PersistedDomainErrorV1::SessionIdentityMismatch { expected, actual } => {
            session_id_mismatch_failure(expected.clone(), actual.clone())
        },
        PersistedDomainErrorV1::AttemptNotCurrent { expected, actual } => {
            attempt_mismatch_failure(expected.clone(), actual.clone())
        },
        PersistedDomainErrorV1::ItemNotFound => DispatchFailureV1::new(
            DispatchFailureKindV1::ItemNotFound,
        ),
        PersistedDomainErrorV1::BlockerNotCurrent => DispatchFailureV1::new(
            DispatchFailureKindV1::BlockerNotCurrent,
        ),
        PersistedDomainErrorV1::InvalidTransition | PersistedDomainErrorV1::InvalidState => {
            DispatchFailureV1::new(
                match command {
                    TerminalCommandKindV1::Skip => DispatchFailureKindV1::StageNotSkippable,
                    TerminalCommandKindV1::Return => DispatchFailureKindV1::ReturnNotAllowed,
                    TerminalCommandKindV1::Reopen => DispatchFailureKindV1::ReopenNotAllowed,
                    _ => DispatchFailureKindV1::SessionNotRunning,
                },
            )
        },
        PersistedDomainErrorV1::RevisionOverflow => DispatchFailureV1::new(
            DispatchFailureKindV1::Internal,
        ),
        PersistedDomainErrorV1::RequiredItemsMissing => DispatchFailureV1::new(
            DispatchFailureKindV1::RequiredItemsMissing,
        ),
        PersistedDomainErrorV1::BlockersPresent => DispatchFailureV1::new(
            DispatchFailureKindV1::BlockersPresent,
        ),
        PersistedDomainErrorV1::BlockerLimitReached { maximum_open_blockers } => {
            blocker_limit_failure(*maximum_open_blockers)
        },
        PersistedDomainErrorV1::ArtifactChanged => DispatchFailureV1::new(
            DispatchFailureKindV1::ArtifactChanged,
        ),
        PersistedDomainErrorV1::EmptyValue
        | PersistedDomainErrorV1::ValueTooLong
        | PersistedDomainErrorV1::InvalidUuid
        | PersistedDomainErrorV1::InvalidIdentifier
        | PersistedDomainErrorV1::InvalidSha256Digest => DispatchFailureV1::new(
            DispatchFailureKindV1::RequestInvalid,
        ),
    }
}

/// Why a Store operation failed, whether or not a job had been admitted.
pub open spec fn store_cause(error: StoreErrorV1) -> StoreErrorV1
    decreases error,
{
    match error {
        StoreErrorV1::AdmissionCommittedV1 { source, .. } => store_cause(*source),
        _ => error,
    }
}

/// The job that had been admitted when a Store operation failed.
pub open spec fn store_admission(error: StoreErrorV1) -> Option<dispatch::AdmissionIdentityV1> {
    match error {
        StoreErrorV1::AdmissionCommittedV1 { receipt, .. } => Some(
            dispatch::AdmissionIdentityV1 {
                job_id: receipt.job_id,
                workspace_sequence: receipt.identity_sequence,
            },
        ),
        _ => None,
    }
}

/// A failure as if the given job, or none, had been admitted when it arose.
pub open spec fn with_admission(
    failure: DispatchFailureV1,
    admission: Option<dispatch::AdmissionIdentityV1>,
) -> DispatchFailureV1 {
    DispatchFailureV1 { admission, ..failure }
}

/// Whether a public failure is the one that a Store operation is answered with which failed before
/// a job was admitted.
pub open spec fn is_plain_store_failure(error: StoreErrorV1, failure: DispatchFailureV1) -> bool {
    match error {
        StoreErrorV1::AdmissionCommittedV1 { .. } => false,
        StoreErrorV1::AdmissionOutcomeUnknownV1 { idempotency_key } => failure
            == dispatch::detailed_failure(
            DispatchFailureKindV1::MutationOutcomeUnknown,
            DispatchErrorDetailsV1::UnknownOutcome { idempotency_key },
        ),
        StoreErrorV1::IdempotencyDigestConflictV1 => failure == dispatch::bare_failure(
            DispatchFailureKindV1::IdempotencyKeyReused,
        ),
        StoreErrorV1::JobNotFoundV1 => failure == dispatch::bare_failure(
            DispatchFailureKindV1::JobNotFound,
        ),
        StoreErrorV1::PreconditionConflictV1 { expected, actual } => failure == revision_conflict(
            DispatchFailureKindV1::SessionRevisionConflict,
            expected,
            actual,
        ),
        StoreErrorV1::ProcedureV2PreconditionFailedV1 { failure: refused } => is_graph_failure(
            refused,
            failure,
        ),
        StoreErrorV1::SessionIdentityConflictV1 { expected, actual } => failure == match (
            expected,
            actual,
        ) {
            (Some(expected), actual) => session_mismatch(expected, actual),
            (None, Some(_)) => dispatch::bare_failure(DispatchFailureKindV1::SessionAlreadyExists),
            (None, None) => integrity_failure(),
        },
        StoreErrorV1::NewerStateV1 => failure == dispatch::bare_failure(
            DispatchFailureKindV1::WorkspaceSchemaUnsupported,
        ),
        StoreErrorV1::StorageUnavailableV1 { .. }
        | StoreErrorV1::AlreadyClaimedV1
        | StoreErrorV1::CancellationLostV1
        | StoreErrorV1::ClaimStaleV1 => failure == dispatch::bare_failure(
            DispatchFailureKindV1::DaemonUnavailable,
        ),
        StoreErrorV1::CorruptStateV1
        | StoreErrorV1::InternalInvariantViolationV1 { .. }
        | StoreErrorV1::InvalidStateV1
        | StoreErrorV1::PrimaryOperationAndCleanupFailureV1 { .. }
        | StoreErrorV1::StorageIntegrityV1 => failure == integrity_failure(),
    }
}

/// Whether a public failure is the one that a failed Store operation is answered with: what it
/// failed for, and the job that it had admitted before it failed.
pub open spec fn is_store_failure(error: StoreErrorV1, failure: DispatchFailureV1) -> bool {
    failure.admission == store_admission(error) && is_plain_store_failure(
        store_cause(error),
        with_admission(failure, None),
    )
}

/// The public failure that a failed Store operation is answered with.
pub fn map_store_error(error: StoreErrorV1) -> (failure: DispatchFailureV1)
    ensures
        is_store_failure(error, failure),
    decreases error,
{
    match error {
        StoreErrorV1::AdmissionCommittedV1 { receipt, source } => {
            let inner = map_store_error(*source);
            inner.with_admission_identity(receipt.job_id, receipt.identity_sequence)
        },
        StoreErrorV1::AdmissionOutcomeUnknownV1 { idempotency_key } => {
            DispatchFailureV1::new(DispatchFailureKindV1::MutationOutcomeUnknown).with_details(
                DispatchErrorDetailsV1::UnknownOutcome { idempotency_key },
            )
        },
        StoreErrorV1::IdempotencyDigestConflictV1 => DispatchFailureV1::new(
            DispatchFailureKindV1::IdempotencyKeyReused,
        ),
        StoreErrorV1::JobNotFoundV1 => DispatchFailureV1::new(DispatchFailureKindV1::JobNotFound),
        StoreErrorV1::PreconditionConflictV1 { expected, actual } => revision_conflict_failure(
            DispatchFailureKindV1::SessionRevisionConflict,
            expected,
            actual,
        ),
        StoreErrorV1::ProcedureV2PreconditionFailedV1 { failure } => {
            map_graph_mutation_failure_v2(&failure)
        },
        StoreErrorV1::SessionIdentityConflictV1 { expected, actual } => match (expected, actual) {
            (Some(expected), actual) => session_id_mismatch_failure(expected, actual),
            (None, Some(_)) => DispatchFailureV1::new(DispatchFailureKindV1::SessionAlreadyExists),
            (None, None) => terminal_replay_integrity_failure(),
        },
        StoreErrorV1::NewerStateV1 => DispatchFailureV1::new(
            DispatchFailureKindV1::WorkspaceSchemaUnsupported,
        ),
        StoreErrorV1::StorageUnavailableV1 { .. }
        | StoreErrorV1::AlreadyClaimedV1
        | StoreErrorV1::CancellationLostV1
        | StoreErrorV1::ClaimStaleV1 => DispatchFailureV1::new(
            DispatchFailureKindV1::DaemonUnavailable,
        ),
        StoreErrorV1::CorruptStateV1
        | StoreErrorV1::InternalInvariantViolationV1 { .. }
        | StoreErrorV1::InvalidStateV1
        | StoreErrorV1::PrimaryOperationAndCleanupFailureV1 { .. }
        | StoreErrorV1::StorageIntegrityV1 => terminal_replay_integrity_failure(),
    }
}

/// Whether a public failure is the one that a failed cancellation is answered with.
pub open spec fn is_cancel_failure(error: StoreErrorV1, failure: DispatchFailureV1) -> bool {
    if error is AlreadyClaimedV1 || error is CancellationLostV1 {
        failure == dispatch::bare_failure(DispatchFailureKindV1::JobNotCancellable)
    } else {
        is_store_failure(error, failure)
    }
}

/// The public failure that a failed cancellation is answered with.
pub fn map_cancel_error(error: StoreErrorV1) -> (failure: DispatchFailureV1)
    ensures
        is_cancel_failure(error, failure),
{
    match error {
        StoreErrorV1::AlreadyClaimedV1 | StoreErrorV1::CancellationLostV1 => DispatchFailureV1::new(
            DispatchFailureKindV1::JobNotCancellable,
        ),
        error => map_store_error(error),
    }
}

/// The receipt of the job that an admission found or created.
pub open spec fn receipt_of(admission: AdmitOutcomeV1) -> JobReceiptV1 {
    match admission {
        AdmitOutcomeV1::New(receipt) => receipt,
        AdmitOutcomeV1::Existing(JobReceiptOrTerminalV1::JobReceipt(receipt)) => receipt,
        AdmitOutcomeV1::Existing(JobReceiptOrTerminalV1::TerminalReceipt(receipt)) => receipt.job,
    }
}

/// The receipt of the job that an admission found or created.
pub fn admission_receipt(admission: &AdmitOutcomeV1) -> (receipt: &JobReceiptV1)
    ensures
        *receipt == receipt_of(*admission),
{
    match admission {
        AdmitOutcomeV1::New(receipt) => receipt,
        AdmitOutcomeV1::Existing(JobReceiptOrTerminalV1::JobReceipt(receipt)) => receipt,
        AdmitOutcomeV1::Existing(JobReceiptOrTerminalV1::TerminalReceipt(receipt)) => &receipt.job,
    }
}

/// Whether a public failure is the one that a failed execution is answered with.
pub open spec fn is_execution_failure(error: ExecutionErrorV1, failure: DispatchFailureV1) -> bool {
    match error {
        ExecutionErrorV1::Store(error) => is_store_failure(error, failure),
        ExecutionErrorV1::UnsupportedV2Capability { capability, required_result_schema } => failure
            == unsupported_capability(capability, required_result_schema),
        ExecutionErrorV1::BoundaryDomain(_) => failure == dispatch::bare_failure(
            DispatchFailureKindV1::RequestInvalid,
        ),
        ExecutionErrorV1::BoundaryTransient => failure == dispatch::bare_failure(
            DispatchFailureKindV1::DaemonUnavailable,
        ),
        ExecutionErrorV1::SessionIdentityMismatch { expected, actual } => failure
            == session_mismatch(expected, actual),
        ExecutionErrorV1::WorkspaceIdentityMismatch { expected, actual } => failure
            == workspace_mismatch(expected, actual),
        ExecutionErrorV1::ProcedureDigestMismatch { expected, actual } => failure
            == digest_mismatch(expected, actual),
        ExecutionErrorV1::InvalidPersistedExecution { .. } | ExecutionErrorV1::InvalidStoreValue =>
            failure == integrity_failure(),
    }
}

/// The public failure that a failed execution is answered with, while a reset is prepared or a job
/// is worked on.
pub fn map_reset_preparation_error(error: ExecutionErrorV1) -> (failure: DispatchFailureV1)
    ensures
        is_execution_failure(error, failure),
{
    match error {
        ExecutionErrorV1::Store(error) => map_store_error(error),
        ExecutionErrorV1::UnsupportedV2Capability { capability, required_result_schema } => {
            unsupported_capability_failure(capability, required_result_schema)
        },
        ExecutionErrorV1::BoundaryDomain(_) => DispatchFailureV1::new(
            DispatchFailureKindV1::RequestInvalid,
        ),
        ExecutionErrorV1::BoundaryTransient => DispatchFailureV1::new(
            DispatchFailureKindV1::DaemonUnavailable,
        ),
        ExecutionErrorV1::SessionIdentityMismatch { expected, actual } => {
            session_id_mismatch_failure(expected, actual)
        },
        ExecutionErrorV1::WorkspaceIdentityMismatch { expected, actual } => {
            workspace_uuid_mismatch_failure(expected, actual)
        },
        ExecutionErrorV1::ProcedureDigestMismatch { expected, actual } => {
            procedure_digest_mismatch_failure(expected, actual)
        },
        ExecutionErrorV1::InvalidPersistedExecution { .. }
        | ExecutionErrorV1::InvalidStoreValue => terminal_replay_integrity_failure(),
    }
}

/// Whether a public failure is the one that a start which could not be prepared is answered with.
pub open spec fn is_preparation_failure(
    error: ProcedureV2StartPreparationErrorV1,
    failure: DispatchFailureV1,
) -> bool {
    match error {
        ProcedureV2StartPreparationErrorV1::Source(
            ProcedureV2SourceAdmissionErrorV1::SchemaInvalid { diagnostic_codes },
        ) => failure == dispatch::detailed_failure(
            DispatchFailureKindV1::ProcedureV2SchemaInvalid,
            DispatchErrorDetailsV1::ProcedureV2SchemaInvalid { diagnostic_codes },
        ),
        ProcedureV2StartPreparationErrorV1::Source(
            ProcedureV2SourceAdmissionErrorV1::NotProcedureV2,
        ) => failure == dispatch::bare_failure(DispatchFailureKindV1::ProcedureInvalid),
        ProcedureV2StartPreparationErrorV1::Source(
            ProcedureV2SourceAdmissionErrorV1::Rejected(error),
        ) => failure == match error {
            ExecutionBoundaryErrorV1::Domain(_) => dispatch::bare_failure(
                DispatchFailureKindV1::ProcedureInvalid,
            ),
            ExecutionBoundaryErrorV1::Transient => dispatch::bare_failure(
                DispatchFailureKindV1::DaemonUnavailable,
            ),
            ExecutionBoundaryErrorV1::ProcedureV2Unsupported => dispatch::bare_failure(
                DispatchFailureKindV1::UnsupportedV2Capability,
            ),
            ExecutionBoundaryErrorV1::WorkspaceIdentityMismatch { expected, actual } => {
                workspace_mismatch(expected, actual)
            },
        },
        ProcedureV2StartPreparationErrorV1::DigestConfirmationRequired { procedure_digest } =>
            failure == dispatch::detailed_failure(
            DispatchFailureKindV1::DigestConfirmationRequired,
            DispatchErrorDetailsV1::DigestConfirmationRequired { procedure_digest },
        ),
        ProcedureV2StartPreparationErrorV1::ProcedureDigestMismatch { expected, actual } => failure
            == digest_mismatch(expected, actual),
        ProcedureV2StartPreparationErrorV1::PinnedPresetDigestMismatch { expected, actual } =>
            failure == digest_mismatch(expected, actual),
        ProcedureV2StartPreparationErrorV1::Execution(error) => is_execution_failure(
            error,
            failure,
        ),
        ProcedureV2StartPreparationErrorV1::GoalMutation(
            GraphMutationErrorV2::GoalTrackingNotEnabled,
        ) => failure == dispatch::detailed_failure(
            DispatchFailureKindV1::GoalTrackingNotEnabled,
            DispatchErrorDetailsV1::GoalTrackingNotEnabled,
        ),
        ProcedureV2StartPreparationErrorV1::GoalMutation(GraphMutationErrorV2::Other)
        | ProcedureV2StartPreparationErrorV1::Domain(_)
        | ProcedureV2StartPreparationErrorV1::InvalidStoreValue => failure == internal_failure(),
    }
}

/// The public failure that a start which could not be prepared is answered with.
pub fn map_procedure_v2_start_preparation_error(
    error: ProcedureV2StartPreparationErrorV1,
) -> (failure: DispatchFailureV1)
    ensures
        is_preparation_failure(error, failure),
{
    match error {
        ProcedureV2StartPreparationErrorV1::Source(source) =>
            match source {
                ProcedureV2SourceAdmissionErrorV1::SchemaInvalid { diagnostic_codes } => {
                    DispatchFailureV1::new(DispatchFailureKindV1::ProcedureV2SchemaInvalid).with_details(
                        DispatchErrorDetailsV1::ProcedureV2SchemaInvalid { diagnostic_codes },
                    )
                },
                ProcedureV2SourceAdmissionErrorV1::NotProcedureV2 => DispatchFailureV1::new(
                    DispatchFailureKindV1::ProcedureInvalid,
                ),
                ProcedureV2SourceAdmissionErrorV1::Rejected(error) => match error {
                    ExecutionBoundaryErrorV1::Domain(_) => DispatchFailureV1::new(
                        DispatchFailureKindV1::ProcedureInvalid,
                    ),
                    ExecutionBoundaryErrorV1::Transient => DispatchFailureV1::new(
                        DispatchFailureKindV1::DaemonUnavailable,
                    ),
                    ExecutionBoundaryErrorV1::ProcedureV2Unsupported => DispatchFailureV1::new(
                        DispatchFailureKindV1::UnsupportedV2Capability,
                    ),
                    ExecutionBoundaryErrorV1::WorkspaceIdentityMismatch { expected, actual } => {
                        workspace_uuid_mismatch_failure(expected, actual)
                    },
                },
            },
        ProcedureV2StartPreparationErrorV1::DigestConfirmationRequired { procedure_digest } => {
            DispatchFailureV1::new(DispatchFailureKindV1::DigestConfirmationRequired).with_details(
                DispatchErrorDetailsV1::DigestConfirmationRequired { procedure_digest },
            )
        },
        ProcedureV2StartPreparationErrorV1::ProcedureDigestMismatch { expected, actual } => {
            procedure_digest_mismatch_failure(expected, actual)
        },
        ProcedureV2StartPreparationErrorV1::PinnedPresetDigestMismatch { expected, actual } => {
            procedure_digest_mismatch_failure(expected, actual)
        },
        ProcedureV2StartPreparationErrorV1::Execution(error) => map_reset_preparation_error(error),
        ProcedureV2StartPreparationErrorV1::GoalMutation(error) => match error {
            GraphMutationErrorV2::GoalTrackingNotEnabled => DispatchFailureV1::new(
                DispatchFailureKindV1::GoalTrackingNotEnabled,
            ).with_details(DispatchErrorDetailsV1::GoalTrackingNotEnabled),
            GraphMutationErrorV2::Other => DispatchFailureV1::new(DispatchFailureKindV1::Internal),
        },
        ProcedureV2StartPreparationErrorV1::Domain(_)
        | ProcedureV2StartPreparationErrorV1::InvalidStoreValue => DispatchFailureV1::new(
            DispatchFailureKindV1::Internal,
        ),
    }
}

/// Why a submission failed, whether or not a job had been admitted.
pub open spec fn worker_cause(error: WorkerErrorV1) -> WorkerErrorV1
    decreases error,
{
    match error {
        WorkerErrorV1::AfterAdmission { source, .. } => worker_cause(*source),
        _ => error,
    }
}

/// The job that an execution had admitted when it failed.
pub open spec fn execution_admission(error: ExecutionErrorV1) -> Option<
    dispatch::AdmissionIdentityV1,
> {
    match error {
        ExecutionErrorV1::Store(error) => store_admission(error),
        _ => None,
    }
}

/// The job that had been admitted when a submission failed.
pub open spec fn worker_admission(error: WorkerErrorV1) -> Option<dispatch::AdmissionIdentityV1> {
    match error {
        WorkerErrorV1::AfterAdmission { admission, .. } => Some(
            dispatch::AdmissionIdentityV1 {
                job_id: receipt_of(admission).job_id,
                workspace_sequence: receipt_of(admission).identity_sequence,
            },
        ),
        WorkerErrorV1::Store(error) => store_admission(error),
        WorkerErrorV1::Execution(error) => execution_admission(error),
        WorkerErrorV1::ProcedureV2Preparation(
            ProcedureV2StartPreparationErrorV1::Execution(error),
        ) => execution_admission(error),
        _ => None,
    }
}

/// Whether a public failure is the one that a submission is answered with which failed for the
/// given reason.
pub open spec fn is_plain_worker_failure(
    error: WorkerErrorV1,
    failure: DispatchFailureV1,
) -> bool {
    match error {
        WorkerErrorV1::AfterAdmission { .. } => false,
        WorkerErrorV1::Store(error) => is_store_failure(error, failure),
        WorkerErrorV1::Execution(error) => is_execution_failure(error, failure),
        WorkerErrorV1::ProcedureV2Preparation(error) => is_preparation_failure(error, failure),
        WorkerErrorV1::JobNotFound => failure == dispatch::bare_failure(
            DispatchFailureKindV1::JobNotFound,
        ),
        WorkerErrorV1::Progress
        | WorkerErrorV1::BackgroundPanicked
        | WorkerErrorV1::RecoveryRequired
        | WorkerErrorV1::RetirementRejected => failure == dispatch::bare_failure(
            DispatchFailureKindV1::DaemonUnavailable,
        ),
    }
}

/// Whether a public failure is the one that a failed submission is answered with: what it failed
/// for, and the job that it had been admitted as.
pub open spec fn is_worker_failure(error: WorkerErrorV1, failure: DispatchFailureV1) -> bool {
    failure.admission == worker_admission(error) && is_plain_worker_failure(
        worker_cause(error),
        with_admission(failure, worker_admission(worker_cause(error))),
    )
}

/// The public failure that a failed submission is answered with.
pub fn map_worker_error(error: WorkerErrorV1) -> (failure: DispatchFailureV1)
    ensures
        is_worker_failure(error, failure),
    decreases error,
{
    match error {
        WorkerErrorV1::AfterAdmission { admission, source } => {
            let inner = map_worker_error(*source);
            let receipt = admission_receipt(&admission);
            inner.with_admission_identity(receipt.job_id.clone(), receipt.identity_sequence)
        },
        WorkerErrorV1::Store(error) => map_store_error(error),
        WorkerErrorV1::Execution(error) => map_reset_preparation_error(error),
        WorkerErrorV1::ProcedureV2Preparation(error) => {
            map_procedure_v2_start_preparation_error(error)
        },
        WorkerErrorV1::JobNotFound => DispatchFailureV1::new(DispatchFailureKindV1::JobNotFound),
        WorkerErrorV1::Progress
        | WorkerErrorV1::BackgroundPanicked
        | WorkerErrorV1::RecoveryRequired
        | WorkerErrorV1::RetirementRejected => DispatchFailureV1::new(
            DispatchFailureKindV1::DaemonUnavailable,
        ),
    }
}

/// Whether a public failure is the one that a failed mutation is answered with: a conflict of
/// revisions is one of the item's where the mutation is of an item.
pub open spec fn is_mutation_failure(
    mutates_item: bool,
    error: WorkerErrorV1,
    failure: DispatchFailureV1,
) -> bool {
    exists|inner: DispatchFailureV1| #[trigger]
        is_worker_failure(error, inner) && failure == if mutates_item && inner.kind
            == DispatchFailureKindV1::SessionRevisionConflict {
            DispatchFailureV1 { kind: DispatchFailureKindV1::ItemRevisionConflict, ..inner }
        } else {
            inner
        }
}

/// The public failure that a failed mutation is answered with.
pub fn map_mutation_worker_error(mutates_item: bool, error: WorkerErrorV1) -> (failure:
    DispatchFailureV1)
    ensures
        is_mutation_failure(mutates_item, error, failure),
{
    let failure = map_worker_error(error);
    if mutates_item && failure.kind == DispatchFailureKindV1::SessionRevisionConflict {
        failure.with_kind(DispatchFailureKindV1::ItemRevisionConflict)
    } else {
        failure
    }
}

/// Whether a public failure is the one that a failed read is answered with.
pub open spec fn is_read_failure(error: ReadServiceErrorV1, failure: DispatchFailureV1) -> bool {
    match error {
        ReadServiceErrorV1::Store(error) => is_store_failure(error, failure),
        ReadServiceErrorV1::JobNotFound { .. } => failure == dispatch::bare_failure(
            DispatchFailureKindV1::JobNotFound,
        ),
        ReadServiceErrorV1::WaitTimedOut => failure == dispatch::bare_failure(
            DispatchFailureKindV1::JobWaitTimeout,
        ),
        ReadServiceErrorV1::Notification(_) => failure == dispatch::bare_failure(
            DispatchFailureKindV1::DaemonUnavailable,
        ),
        ReadServiceErrorV1::DeadlineOverflow | ReadServiceErrorV1::TimestampOutOfRange => failure
            == internal_failure(),
        ReadServiceErrorV1::MissingSession => failure == dispatch::bare_failure(
            DispatchFailureKindV1::SessionNotFound,
        ),
        ReadServiceErrorV1::SessionIdentityMismatch { expected, actual } => failure
            == session_mismatch(expected, actual),
        ReadServiceErrorV1::ResultShapeConversion
        | ReadServiceErrorV1::InconsistentState { .. } => failure == integrity_failure(),
    }
}

/// The public failure that a failed read is answered with.
pub fn map_read_error(error: ReadServiceErrorV1) -> (failure: DispatchFailureV1)
    ensures
        is_read_failure(error, failure),
{
    match error {
        ReadServiceErrorV1::Store(error) => map_store_error(error),
        ReadServiceErrorV1::JobNotFound { .. } => DispatchFailureV1::new(
            DispatchFailureKindV1::JobNotFound,
        ),
        ReadServiceErrorV1::WaitTimedOut => DispatchFailureV1::new(
            DispatchFailureKindV1::JobWaitTimeout,
        ),
        ReadServiceErrorV1::Notification(_) => DispatchFailureV1::new(
            DispatchFailureKindV1::DaemonUnavailable,
        ),
        ReadServiceErrorV1::DeadlineOverflow | ReadServiceErrorV1::TimestampOutOfRange => {
            DispatchFailureV1::new(DispatchFailureKindV1::Internal)
        },
        ReadServiceErrorV1::MissingSession => DispatchFailureV1::new(
            DispatchFailureKindV1::SessionNotFound,
        ),
        ReadServiceErrorV1::SessionIdentityMismatch { expected, actual } => {
            session_id_mismatch_failure(expected, actual)
        },
        ReadServiceErrorV1::ResultShapeConversion
        | ReadServiceErrorV1::InconsistentState { .. } => terminal_replay_integrity_failure(),
    }
}

/// Why a graph view is not projected.
#[derive(Clone, Copy, Debug, PartialEq, Eq, Structural)]
pub enum GraphViewErrorV2 {
    MissingGraphSession,
    TerminalSessionHasNoNext,
    TimestampOutOfRange,
    PendingMutationsForCompact,
    InvalidSnapshot,
    InconsistentState,
}

/// The kind of the public failure that a graph view which is not projected is answered with.
pub open spec fn graph_view_failure_kind(error: GraphViewErrorV2) -> DispatchFailureKindV1 {
    match error {
        GraphViewErrorV2::MissingGraphSession => DispatchFailureKindV1::SessionNotFound,
        GraphViewErrorV2::TerminalSessionHasNoNext => DispatchFailureKindV1::SessionNotRunning,
        GraphViewErrorV2::TimestampOutOfRange => DispatchFailureKindV1::Internal,
        GraphViewErrorV2::PendingMutationsForCompact
        | GraphViewErrorV2::InvalidSnapshot
        | GraphViewErrorV2::InconsistentState => DispatchFailureKindV1::WorkspaceStateUnreadable,
    }
}

/// The public failure that a graph view which is not projected is answered with.
pub fn map_graph_view_error_v2(error: GraphViewErrorV2) -> (failure: DispatchFailureV1)
    ensures
        failure == dispatch::bare_failure(graph_view_failure_kind(error)),
{
    DispatchFailureV1::new(
        match error {
            GraphViewErrorV2::MissingGraphSession => DispatchFailureKindV1::SessionNotFound,
            GraphViewErrorV2::TerminalSessionHasNoNext => DispatchFailureKindV1::SessionNotRunning,
            GraphViewErrorV2::TimestampOutOfRange => DispatchFailureKindV1::Internal,
            GraphViewErrorV2::PendingMutationsForCompact
            | GraphViewErrorV2::InvalidSnapshot
            | GraphViewErrorV2::InconsistentState => {
                DispatchFailureKindV1::WorkspaceStateUnreadable
            },
        },
    )
}

/// The public failure kind of a worktree that Git does not resolve.
pub open spec fn git_failure_kind(source: GitResolverErrorV1) -> DispatchFailureKindV1 {
    match source {
        GitResolverErrorV1::NonGitRepository => DispatchFailureKindV1::NotGitWorktree,
        GitResolverErrorV1::BareRepository => DispatchFailureKindV1::BareGitRepository,
        GitResolverErrorV1::WorktreeDeleted => DispatchFailureKindV1::WorktreeGone,
        GitResolverErrorV1::CopiedWorkspaceUuid
        | GitResolverErrorV1::IdentityMismatch
        | GitResolverErrorV1::MoveConflict => DispatchFailureKindV1::WorkspaceIdentityConflict,
        GitResolverErrorV1::PathEscape
        | GitResolverErrorV1::SymlinkEscape => DispatchFailureKindV1::PathOutsideWorktree,
        GitResolverErrorV1::Selector => DispatchFailureKindV1::RequestInvalid,
        GitResolverErrorV1::PermissionDenied
        | GitResolverErrorV1::Io
        | GitResolverErrorV1::Representation
        | GitResolverErrorV1::Invariant
        | GitResolverErrorV1::WorkspaceLayoutCleanup => DispatchFailureKindV1::DaemonUnavailable,
    }
}

/// Whether a public failure is the one that an unresolved workspace is answered with.
pub open spec fn is_resolution_failure(
    error: WorkspaceResolutionErrorV1,
    failure: DispatchFailureV1,
) -> bool {
    match error {
        WorkspaceResolutionErrorV1::Selector
        | WorkspaceResolutionErrorV1::StoredRootPathInvalid
        | WorkspaceResolutionErrorV1::WorkspaceRootPathInvalid
        | WorkspaceResolutionErrorV1::RuntimeDirectoryPathInvalid
        | WorkspaceResolutionErrorV1::RuntimeDirectoryPathUnsupportedPlatform
        | WorkspaceResolutionErrorV1::WorkspaceRootConversion
        | WorkspaceResolutionErrorV1::ManagedDevScopeViolation => failure == dispatch::bare_failure(
            DispatchFailureKindV1::WorkspacePathUnsafe,
        ),
        WorkspaceResolutionErrorV1::Git { source } => failure == dispatch::bare_failure(
            git_failure_kind(source),
        ),
        WorkspaceResolutionErrorV1::BindingInspection { source } => is_store_failure(
            source,
            failure,
        ),
        WorkspaceResolutionErrorV1::ExistingBindingMissing => failure == dispatch::bare_failure(
            DispatchFailureKindV1::WorkspaceNotInitialized,
        ),
        WorkspaceResolutionErrorV1::BootstrapBindingAlreadyPresent => failure
            == dispatch::bare_failure(DispatchFailureKindV1::WorkspaceAlreadyInitialized),
        WorkspaceResolutionErrorV1::ExpectedWorkspaceUuidMismatch { expected, actual } => failure
            == workspace_mismatch(expected, actual),
        WorkspaceResolutionErrorV1::GitStoreFingerprintMismatch
        | WorkspaceResolutionErrorV1::PreliminaryIdentityWasNotCandidate
        | WorkspaceResolutionErrorV1::RevalidatedIdentityStateMismatch
        | WorkspaceResolutionErrorV1::RevalidatedStoreIdentityMismatch
        | WorkspaceResolutionErrorV1::RuntimeDatabasePathChangedDuringResolution => failure
            == dispatch::bare_failure(DispatchFailureKindV1::WorkspaceIdentityConflict),
    }
}

/// The public failure that an unresolved workspace is answered with.
pub fn map_resolution_error(error: WorkspaceResolutionErrorV1) -> (failure: DispatchFailureV1)
    ensures
        is_resolution_failure(error, failure),
{
    match error {
        WorkspaceResolutionErrorV1::Selector
        | WorkspaceResolutionErrorV1::StoredRootPathInvalid
        | WorkspaceResolutionErrorV1::WorkspaceRootPathInvalid
        | WorkspaceResolutionErrorV1::RuntimeDirectoryPathInvalid
        | WorkspaceResolutionErrorV1::RuntimeDirectoryPathUnsupportedPlatform
        | WorkspaceResolutionErrorV1::WorkspaceRootConversion
        | WorkspaceResolutionErrorV1::ManagedDevScopeViolation => DispatchFailureV1::new(
            DispatchFailureKindV1::WorkspacePathUnsafe,
        ),
        WorkspaceResolutionErrorV1::Git { source } => DispatchFailureV1::new(
            match source {
                GitResolverErrorV1::NonGitRepository => DispatchFailureKindV1::NotGitWorktree,
                GitResolverErrorV1::BareRepository => DispatchFailureKindV1::BareGitRepository,
                GitResolverErrorV1::WorktreeDeleted => DispatchFailureKindV1::WorktreeGone,
                GitResolverErrorV1::CopiedWorkspaceUuid
                | GitResolverErrorV1::IdentityMismatch
                | GitResolverErrorV1::MoveConflict => {
                    DispatchFailureKindV1::WorkspaceIdentityConflict
                },
                GitResolverErrorV1::PathEscape | GitResolverErrorV1::SymlinkEscape => {
                    DispatchFailureKindV1::PathOutsideWorktree
                },
                GitResolverErrorV1::Selector => DispatchFailureKindV1::RequestInvalid,
                GitResolverErrorV1::PermissionDenied
                | GitResolverErrorV1::Io
                | GitResolverErrorV1::Representation
                | GitResolverErrorV1::Invariant
                | GitResolverErrorV1::WorkspaceLayoutCleanup => {
                    DispatchFailureKindV1::DaemonUnavailable
                },
            },
        ),
        WorkspaceResolutionErrorV1::BindingInspection { source } => map_store_error(source),
        WorkspaceResolutionErrorV1::ExistingBindingMissing => DispatchFailureV1::new(
            DispatchFailureKindV1::WorkspaceNotInitialized,
        ),
        WorkspaceResolutionErrorV1::BootstrapBindingAlreadyPresent => DispatchFailureV1::new(
            DispatchFailureKindV1::WorkspaceAlreadyInitialized,
        ),
        WorkspaceResolutionErrorV1::ExpectedWorkspaceUuidMismatch { expected, actual } => {
            workspace_uuid_mismatch_failure(expected, actual)
        },
        WorkspaceResolutionErrorV1::GitStoreFingerprintMismatch
        | WorkspaceResolutionErrorV1::PreliminaryIdentityWasNotCandidate
        | WorkspaceResolutionErrorV1::RevalidatedIdentityStateMismatch
        | WorkspaceResolutionErrorV1::RevalidatedStoreIdentityMismatch
        | WorkspaceResolutionErrorV1::RuntimeDatabasePathChangedDuringResolution => {
            DispatchFailureV1::new(DispatchFailureKindV1::WorkspaceIdentityConflict)
        },
    }
}

/// Why an operation on a workspace failed, whether or not a reset had been admitted.
pub open spec fn runtime_cause(error: WorkspaceRuntimeErrorV1) -> WorkspaceRuntimeErrorV1
    decreases error,
{
    match error {
        WorkspaceRuntimeErrorV1::ResetAdmitted { source, .. } => runtime_cause(*source),
        _ => error,
    }
}

/// The job that had been admitted when an operation on a workspace failed. A reset is the first
/// job of the workspace that it makes.
pub open spec fn runtime_admission(error: WorkspaceRuntimeErrorV1) -> Option<
    dispatch::AdmissionIdentityV1,
> {
    match error {
        WorkspaceRuntimeErrorV1::ResetAdmitted { marker, .. } => Some(
            dispatch::AdmissionIdentityV1 { job_id: marker.operation_id, workspace_sequence: 1 },
        ),
        WorkspaceRuntimeErrorV1::Store(error) => store_admission(error),
        WorkspaceRuntimeErrorV1::Resolution(
            WorkspaceResolutionErrorV1::BindingInspection { source },
        ) => store_admission(source),
        _ => None,
    }
}

/// Whether a public failure is the one that an operation on a workspace is answered with which
/// failed for the given reason.
pub open spec fn is_plain_runtime_failure(
    error: WorkspaceRuntimeErrorV1,
    failure: DispatchFailureV1,
) -> bool {
    match error {
        WorkspaceRuntimeErrorV1::ResetAdmissionOutcomeUnknown { idempotency_key, .. } => failure
            == dispatch::detailed_failure(
            DispatchFailureKindV1::MutationOutcomeUnknown,
            DispatchErrorDetailsV1::UnknownOutcome { idempotency_key },
        ),
        WorkspaceRuntimeErrorV1::ResetAdmitted { .. } => false,
        WorkspaceRuntimeErrorV1::Resolution(error) => is_resolution_failure(error, failure),
        WorkspaceRuntimeErrorV1::Store(error) => is_store_failure(error, failure),
        WorkspaceRuntimeErrorV1::Layout => failure == dispatch::bare_failure(
            DispatchFailureKindV1::WorkspaceInitConflict,
        ),
        WorkspaceRuntimeErrorV1::Registry(_) | WorkspaceRuntimeErrorV1::Scheduler(_) => failure
            == dispatch::bare_failure(DispatchFailureKindV1::DaemonUnavailable),
        WorkspaceRuntimeErrorV1::MaintenanceInProgress
        | WorkspaceRuntimeErrorV1::ResetSchedulerRetirement
        | WorkspaceRuntimeErrorV1::ResetMarkerConflict
        | WorkspaceRuntimeErrorV1::ResetRegistryPredecessorStale => failure
            == dispatch::bare_failure(DispatchFailureKindV1::WorkspaceMaintenance),
        WorkspaceRuntimeErrorV1::ResetIdempotencyConflict { .. } => failure
            == dispatch::bare_failure(DispatchFailureKindV1::IdempotencyKeyReused),
        WorkspaceRuntimeErrorV1::ResetSourceNotRegistered
        | WorkspaceRuntimeErrorV1::BindingDisappeared { .. } => failure == dispatch::bare_failure(
            DispatchFailureKindV1::WorkspaceNotInitialized,
        ),
        WorkspaceRuntimeErrorV1::ResetSourceAmbiguous
        | WorkspaceRuntimeErrorV1::BindingIdentityMismatch { .. }
        | WorkspaceRuntimeErrorV1::BindingMismatch { .. }
        | WorkspaceRuntimeErrorV1::RebindEvidenceMismatch { .. }
        | WorkspaceRuntimeErrorV1::RevalidationKeyMismatch { .. } => failure
            == dispatch::bare_failure(DispatchFailureKindV1::WorkspaceIdentityConflict),
        WorkspaceRuntimeErrorV1::RuntimeDirectory(_)
        | WorkspaceRuntimeErrorV1::RuntimeDirectoryMissing { .. }
        | WorkspaceRuntimeErrorV1::RuntimePathMismatch { .. }
        | WorkspaceRuntimeErrorV1::RuntimePathsUnsupportedPlatform => failure
            == dispatch::bare_failure(DispatchFailureKindV1::WorkspacePathUnsafe),
        WorkspaceRuntimeErrorV1::ConfigRead { .. }
        | WorkspaceRuntimeErrorV1::ConfigAdmission
        | WorkspaceRuntimeErrorV1::StoreOptions => failure == dispatch::bare_failure(
            DispatchFailureKindV1::WorkspaceConfigInvalid,
        ),
    }
}

/// Whether a public failure is the one that a failed operation on a workspace is answered with:
/// what it failed for, and the reset that had been admitted before it failed.
pub open spec fn is_runtime_failure(
    error: WorkspaceRuntimeErrorV1,
    failure: DispatchFailureV1,
) -> bool {
    failure.admission == runtime_admission(error) && is_plain_runtime_failure(
        runtime_cause(error),
        with_admission(failure, runtime_admission(runtime_cause(error))),
    )
}

/// The public failure that a failed operation on a workspace is answered with.
pub fn map_runtime_error(error: WorkspaceRuntimeErrorV1) -> (failure: DispatchFailureV1)
    ensures
        is_runtime_failure(error, failure),
    decreases error,
{
    match error {
        WorkspaceRuntimeErrorV1::ResetAdmissionOutcomeUnknown { idempotency_key, .. } => {
            DispatchFailureV1::new(DispatchFailureKindV1::MutationOutcomeUnknown).with_details(
                DispatchErrorDetailsV1::UnknownOutcome { idempotency_key },
            )
        },
        WorkspaceRuntimeErrorV1::ResetAdmitted { marker, source } => {
            let inner = map_runtime_error(*source);
            inner.with_admission_identity(marker.operation_id, 1)
        },
        WorkspaceRuntimeErrorV1::Resolution(error) => map_resolution_error(error),
        WorkspaceRuntimeErrorV1::Store(error) => map_store_error(error),
        WorkspaceRuntimeErrorV1::Layout => DispatchFailureV1::new(
            DispatchFailureKindV1::WorkspaceInitConflict,
        ),
        WorkspaceRuntimeErrorV1::Registry(_)
        | WorkspaceRuntimeErrorV1::Scheduler(_) => DispatchFailureV1::new(
            DispatchFailureKindV1::DaemonUnavailable,
        ),
        WorkspaceRuntimeErrorV1::MaintenanceInProgress
        | WorkspaceRuntimeErrorV1::ResetSchedulerRetirement
        | WorkspaceRuntimeErrorV1::ResetMarkerConflict
        | WorkspaceRuntimeErrorV1::ResetRegistryPredecessorStale => DispatchFailureV1::new(
            DispatchFailureKindV1::WorkspaceMaintenance,
        ),
        WorkspaceRuntimeErrorV1::ResetIdempotencyConflict { .. } => DispatchFailureV1::new(
            DispatchFailureKindV1::IdempotencyKeyReused,
        ),
        WorkspaceRuntimeErrorV1::ResetSourceNotRegistered
        | WorkspaceRuntimeErrorV1::BindingDisappeared { .. } => DispatchFailureV1::new(
            DispatchFailureKindV1::WorkspaceNotInitialized,
        ),
        WorkspaceRuntimeErrorV1::ResetSourceAmbiguous
        | WorkspaceRuntimeErrorV1::BindingIdentityMismatch { .. }
        | WorkspaceRuntimeErrorV1::BindingMismatch { .. }
        | WorkspaceRuntimeErrorV1::RebindEvidenceMismatch { .. }
        | WorkspaceRuntimeErrorV1::RevalidationKeyMismatch { .. } => DispatchFailureV1::new(
            DispatchFailureKindV1::WorkspaceIdentityConflict,
        ),
        WorkspaceRuntimeErrorV1::RuntimeDirectory(_)
        | WorkspaceRuntimeErrorV1::RuntimeDirectoryMissing { .. }
        | WorkspaceRuntimeErrorV1::RuntimePathMismatch { .. }
        | WorkspaceRuntimeErrorV1::RuntimePathsUnsupportedPlatform => DispatchFailureV1::new(
            DispatchFailureKindV1::WorkspacePathUnsafe,
        ),
        WorkspaceRuntimeErrorV1::ConfigRead { .. }
        | WorkspaceRuntimeErrorV1::ConfigAdmission
        | WorkspaceRuntimeErrorV1::StoreOptions => DispatchFailureV1::new(
            DispatchFailureKindV1::WorkspaceConfigInvalid,
        ),
    }
}

/// The public failure that a previewed start whose procedure does not load is answered with.
pub fn map_preview_procedure_error(error: ExecutionBoundaryErrorV1, capability: String) -> (failure:
    DispatchFailureV1)
    ensures
        match error {
            ExecutionBoundaryErrorV1::Domain(_) => failure == dispatch::bare_failure(
                DispatchFailureKindV1::ProcedureInvalid,
            ),
            ExecutionBoundaryErrorV1::ProcedureV2Unsupported => failure.kind
                == DispatchFailureKindV1::UnsupportedV2Capability && failure.admission is None
                && failure.job is None && (failure.details
                matches DispatchErrorDetailsV1::UnsupportedV2Capability {
                capability: reported,
                required_result_schema,
            } && reported == capability && required_result_schema@
                == "podway.session-start-result/v2"@),
            ExecutionBoundaryErrorV1::WorkspaceIdentityMismatch { expected, actual } => failure
                == workspace_mismatch(expected, actual),
            ExecutionBoundaryErrorV1::Transient => failure == dispatch::bare_failure(
                DispatchFailureKindV1::DaemonUnavailable,
            ),
        },
{
    match error {
        ExecutionBoundaryErrorV1::Domain(_) => DispatchFailureV1::new(
            DispatchFailureKindV1::ProcedureInvalid,
        ),
        ExecutionBoundaryErrorV1::ProcedureV2Unsupported => unsupported_v2_capability_failure(
            capability,
        ),
        ExecutionBoundaryErrorV1::WorkspaceIdentityMismatch { expected, actual } => {
            workspace_uuid_mismatch_failure(expected, actual)
        },
        ExecutionBoundaryErrorV1::Transient => DispatchFailureV1::new(
            DispatchFailureKindV1::DaemonUnavailable,
        ),
    }
}

/// The public failure that a preview which a session refuses is answered with.
pub open spec fn preview_domain_failure(
    error: DomainErrorV1,
    command: PreviewCommandKindV1,
) -> DispatchFailureV1 {
    match error {
        DomainErrorV1::PreconditionFailed { expected, actual } => revision_conflict(
            DispatchFailureKindV1::SessionRevisionConflict,
            Some(expected),
            Some(actual),
        ),
        DomainErrorV1::SessionIdentityMismatch { expected, actual } => session_mismatch(
            expected,
            actual,
        ),
        DomainErrorV1::AttemptNotCurrent { expected, actual } => attempt_mismatch(expected, actual),
        DomainErrorV1::InvalidTransition | DomainErrorV1::InvalidState => dispatch::bare_failure(
            match command {
                PreviewCommandKindV1::Return => DispatchFailureKindV1::ReturnNotAllowed,
                PreviewCommandKindV1::Reopen => DispatchFailureKindV1::ReopenNotAllowed,
                PreviewCommandKindV1::Other => DispatchFailureKindV1::SessionNotRunning,
            },
        ),
        DomainErrorV1::RequiredItemsMissing => dispatch::bare_failure(
            DispatchFailureKindV1::RequiredItemsMissing,
        ),
        DomainErrorV1::BlockersPresent => dispatch::bare_failure(
            DispatchFailureKindV1::BlockersPresent,
        ),
        DomainErrorV1::BlockerLimitReached { maximum_open_blockers } => blocker_limit(
            maximum_open_blockers as nat,
        ),
        DomainErrorV1::ItemNotFound => dispatch::bare_failure(DispatchFailureKindV1::ItemNotFound),
        DomainErrorV1::BlockerNotCurrent => dispatch::bare_failure(
            DispatchFailureKindV1::BlockerNotCurrent,
        ),
        DomainErrorV1::ArtifactChanged => dispatch::bare_failure(
            DispatchFailureKindV1::ArtifactChanged,
        ),
        DomainErrorV1::RevisionOverflow => internal_failure(),
        DomainErrorV1::EmptyValue
        | DomainErrorV1::ValueTooLong
        | DomainErrorV1::InvalidUuid
        | DomainErrorV1::InvalidIdentifier
        | DomainErrorV1::InvalidSha256Digest => dispatch::bare_failure(
            DispatchFailureKindV1::RequestInvalid,
        ),
    }
}

/// The public failure that a preview which a session refuses is answered with.
pub fn map_preview_domain_error(error: DomainErrorV1, command: PreviewCommandKindV1) -> (failure:
    DispatchFailureV1)
    ensures
        failure == preview_domain_failure(error, command),
{
    match error {
        DomainErrorV1::PreconditionFailed { expected, actual } => revision_conflict_failure(
            DispatchFailureKindV1::SessionRevisionConflict,
            Some(expected),
            Some(actual),
        ),
        DomainErrorV1::SessionIdentityMismatch { expected, actual } => {
            session_id_mismatch_failure(expected, actual)
        },
        DomainErrorV1::AttemptNotCurrent { expected, actual } => attempt_mismatch_failure(
            expected,
            actual,
        ),
        DomainErrorV1::InvalidTransition | DomainErrorV1::InvalidState => DispatchFailureV1::new(
            match command {
                PreviewCommandKindV1::Return => DispatchFailureKindV1::ReturnNotAllowed,
                PreviewCommandKindV1::Reopen => DispatchFailureKindV1::ReopenNotAllowed,
                PreviewCommandKindV1::Other => DispatchFailureKindV1::SessionNotRunning,
            },
        ),
        DomainErrorV1::RequiredItemsMissing => DispatchFailureV1::new(
            DispatchFailureKindV1::RequiredItemsMissing,
        ),
        DomainErrorV1::BlockersPresent => DispatchFailureV1::new(
            DispatchFailureKindV1::BlockersPresent,
        ),
        DomainErrorV1::BlockerLimitReached { maximum_open_blockers } => blocker_limit_failure(
            maximum_open_blockers as u64,
        ),
        DomainErrorV1::ItemNotFound => DispatchFailureV1::new(DispatchFailureKindV1::ItemNotFound),
        DomainErrorV1::BlockerNotCurrent => DispatchFailureV1::new(
            DispatchFailureKindV1::BlockerNotCurrent,
        ),
        DomainErrorV1::ArtifactChanged => DispatchFailureV1::new(
            DispatchFailureKindV1::ArtifactChanged,
        ),
        DomainErrorV1::RevisionOverflow => DispatchFailureV1::new(DispatchFailureKindV1::Internal),
        DomainErrorV1::EmptyValue
        | DomainErrorV1::ValueTooLong
        | DomainErrorV1::InvalidUuid
        | DomainErrorV1::InvalidIdentifier
        | DomainErrorV1::InvalidSha256Digest => DispatchFailureV1::new(
            DispatchFailureKindV1::RequestInvalid,
        ),
    }
}

} // verus!
