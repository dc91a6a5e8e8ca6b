//! What Git tells of a worktree.

use crate::runtime_workspace::maintenance;
use crate::runtime_workspace::maintenance::WorkspaceMaintenanceKeyV1;
use crate::text;
use crate::text::same_optional_text;
use vstd::prelude::*;

verus! {

/// What Git tells of a worktree. Its roots, its kind and what it contains are held as the texts that
/// they are told by.
#[derive(Clone, Debug, PartialEq, Eq)]
pub struct GitEvidenceV1 {
    pub common_directory_fingerprint: String,
    pub worktree_administration_fingerprint: String,
    pub workspace_uuid: Option<String>,
    pub roots: String,
    pub kind: String,
    pub containment: String,
}

/// Whether two observations are of the same worktree at the same roots, whichever workspace it
/// holds.
pub open spec fn same_roots(left: GitEvidenceV1, right: GitEvidenceV1) -> bool {
    &&& left.common_directory_fingerprint@ == right.common_directory_fingerprint@
    &&& left.worktree_administration_fingerprint@ == right.worktree_administration_fingerprint@
    &&& left.roots@ == right.roots@
    &&& left.kind@ == right.kind@
    &&& left.containment@ == right.containment@
}

/// Whether two observations tell the same.
pub open spec fn same_evidence_spec(left: GitEvidenceV1, right: GitEvidenceV1) -> bool {
    same_roots(left, right) && text::optional_characters(left.workspace_uuid)
        == text::optional_characters(right.workspace_uuid)
}

/// Whether two observations are of the same worktree at the same roots.
pub fn same_git_root_evidence(left: &GitEvidenceV1, right: &GitEvidenceV1) -> (same: bool)
    ensures
        same == same_roots(*left, *right),
{
    left.common_directory_fingerprint == right.common_directory_fingerprint
        && left.worktree_administration_fingerprint == right.worktree_administration_fingerprint
        && left.roots == right.roots && left.kind == right.kind && left.containment
        == right.containment
}

/// Whether two observations tell the same.
pub fn same_evidence(left: &GitEvidenceV1, right: &GitEvidenceV1) -> (same: bool)
    ensures
        same == same_evidence_spec(*left, *right),
{
    same_git_root_evidence(left, right) && same_optional_text(
        &left.workspace_uuid,
        &right.workspace_uuid,
    )
}

/// The key of the worktree that was observed.
pub open spec fn worktree_key(worktree: GitEvidenceV1) -> maintenance::MaintenanceKeyId {
    maintenance::MaintenanceKeyId {
        common_directory: worktree.common_directory_fingerprint@,
        worktree_administration: worktree.worktree_administration_fingerprint@,
    }
}

/// The key of the worktree that was observed.
pub fn maintenance_key_from_worktree(worktree: &GitEvidenceV1) -> (key: WorkspaceMaintenanceKeyV1)
    ensures
        key.id() == worktree_key(*worktree),
{
    WorkspaceMaintenanceKeyV1 {
        common_directory_fingerprint: worktree.common_directory_fingerprint.clone(),
        worktree_administration_fingerprint: worktree.worktree_administration_fingerprint.clone(),
    }
}

/// Two observations are of one worktree at the same roots exactly if Git tells the same of it, and tell the
/// same exactly if they are of the same workspace too. The worktree names its maintenance.
pub proof fn a_worktree_is_what_git_tells_of_it(
    left: GitEvidenceV1,
    right: GitEvidenceV1,
    same_root: bool,
    same: bool,
    key: WorkspaceMaintenanceKeyV1,
)
    requires
        call_ensures(same_git_root_evidence, (&left, &right), same_root),
        call_ensures(same_evidence, (&left, &right), same),
        call_ensures(maintenance_key_from_worktree, (&left,), key),
    ensures
        same_root <==> {
            &&& left.common_directory_fingerprint@ == right.common_directory_fingerprint@
            &&& left.worktree_administration_fingerprint@
                == right.worktree_administration_fingerprint@
            &&& left.roots@ == right.roots@
            &&& left.kind@ == right.kind@
            &&& left.containment@ == right.containment@
        },
        same <==> same_root && (match (left.workspace_uuid, right.workspace_uuid) {
            (Some(left), Some(right)) => left@ == right@,
            (None, None) => true,
            _ => false,
        }),
        key.common_directory_fingerprint@ == left.common_directory_fingerprint@,
        key.worktree_administration_fingerprint@ == left.worktree_administration_fingerprint@,
{
    assert(key.id() == worktree_key(left));
    assert(key.id().common_directory == worktree_key(left).common_directory);
}

} // verus!
