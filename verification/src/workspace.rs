//! Worktrees, the markers of their resets, and why they do not resolve.

use crate::store::StoreErrorV1;
use crate::text;
use crate::text::same_optional_text;
use vstd::prelude::*;

verus! {

/// Why Git does not resolve a worktree.
#[derive(Clone, Copy, Debug, PartialEq, Eq, Structural)]
pub enum GitResolverErrorV1 {
    NonGitRepository,
    BareRepository,
    WorktreeDeleted,
    CopiedWorkspaceUuid,
    IdentityMismatch,
    MoveConflict,
    PathEscape,
    SymlinkEscape,
    Selector,
    PermissionDenied,
    Io,
    Representation,
    Invariant,
    WorkspaceLayoutCleanup,
}

/// Why a workspace does not resolve.
#[derive(Debug, PartialEq, Eq)]
pub enum WorkspaceResolutionErrorV1 {
    Selector,
    StoredRootPathInvalid,
    WorkspaceRootPathInvalid,
    RuntimeDirectoryPathInvalid,
    RuntimeDirectoryPathUnsupportedPlatform,
    WorkspaceRootConversion,
    ManagedDevScopeViolation,
    Git { source: GitResolverErrorV1 },
    BindingInspection { source: StoreErrorV1 },
    ExistingBindingMissing,
    BootstrapBindingAlreadyPresent,
    ExpectedWorkspaceUuidMismatch { expected: String, actual: String },
    GitStoreFingerprintMismatch,
    PreliminaryIdentityWasNotCandidate,
    RevalidatedIdentityStateMismatch,
    RevalidatedStoreIdentityMismatch,
    RuntimeDatabasePathChangedDuringResolution,
}

/// Why an operation on the runtime directory of a workspace failed.
#[derive(Clone, Copy, Debug, PartialEq, Eq, Structural)]
pub enum ValidatedRuntimeDirectoryErrorV1 {
    UnsupportedPlatform,
    Unsafe,
    Io,
}

/// The durable marker of a reset that has been admitted.
#[derive(Clone, Debug, PartialEq, Eq)]
pub struct ResetMarkerV1 {
    pub operation_id: String,
    pub idempotency_key: String,
    pub request_digest: String,
    pub previous_workspace_uuid: String,
    pub target_workspace_uuid: String,
    pub submitted_at_ms: u64,
    pub response_request_id: Option<String>,
}

/// Whether two markers are the same marker.
pub open spec fn same_marker_spec(left: ResetMarkerV1, right: ResetMarkerV1) -> bool {
    left.operation_id@ == right.operation_id@ && left.idempotency_key@ == right.idempotency_key@
        && left.request_digest@ == right.request_digest@ && left.previous_workspace_uuid@
        == right.previous_workspace_uuid@ && left.target_workspace_uuid@
        == right.target_workspace_uuid@ && left.submitted_at_ms == right.submitted_at_ms
        && text::optional_characters(left.response_request_id) == text::optional_characters(
        right.response_request_id,
    )
}

/// Whether two markers are the same marker.
pub fn same_marker(left: &ResetMarkerV1, right: &ResetMarkerV1) -> (same: bool)
    ensures
        same == same_marker_spec(*left, *right),
{
    left.operation_id == right.operation_id && left.idempotency_key == right.idempotency_key
        && left.request_digest == right.request_digest && left.previous_workspace_uuid
        == right.previous_workspace_uuid && left.target_workspace_uuid
        == right.target_workspace_uuid && left.submitted_at_ms == right.submitted_at_ms
        && same_optional_text(&left.response_request_id, &right.response_request_id)
}

/// The same marker once more.
pub fn copy_marker(marker: &ResetMarkerV1) -> (copy: ResetMarkerV1)
    ensures
        copy == *marker,
{
    ResetMarkerV1 {
        operation_id: marker.operation_id.clone(),
        idempotency_key: marker.idempotency_key.clone(),
        request_digest: marker.request_digest.clone(),
        previous_workspace_uuid: marker.previous_workspace_uuid.clone(),
        target_workspace_uuid: marker.target_workspace_uuid.clone(),
        submitted_at_ms: marker.submitted_at_ms,
        response_request_id: match &marker.response_request_id {
            Some(request_id) => Some(request_id.clone()),
            None => None,
        },
    }
}

/// Two markers are the same exactly if they tell of the same reset: the same operation for the same request,
/// from the same workspace to the same one, at the same instant.
pub proof fn a_marker_is_that_of_one_reset(left: ResetMarkerV1, right: ResetMarkerV1, same: bool)
    requires
        call_ensures(same_marker, (&left, &right), same),
    ensures
        same <==> {
            &&& left.operation_id@ == right.operation_id@
            &&& left.idempotency_key@ == right.idempotency_key@
            &&& left.request_digest@ == right.request_digest@
            &&& left.previous_workspace_uuid@ == right.previous_workspace_uuid@
            &&& left.target_workspace_uuid@ == right.target_workspace_uuid@
            &&& left.submitted_at_ms == right.submitted_at_ms
            &&& match (left.response_request_id, right.response_request_id) {
                (Some(left), Some(right)) => left@ == right@,
                (None, None) => true,
                _ => false,
            }
        },
{
}

} // verus!
