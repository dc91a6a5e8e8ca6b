//! Workspaces that this process has activated: their Stores, their maintenance, and their resets.

pub mod activation;
pub mod config;
pub mod context;
pub mod evidence;
pub mod maintenance;
pub mod readonly;
pub mod reset;
pub mod store_slot;

use crate::registry::RegistryErrorV1;
use crate::scheduler::{DaemonCompositionErrorV1, WorkspaceSchedulerKeyV1};
use crate::store;
use crate::store::{copy_identity, same_identity, DurableWorktreeIdentityV1, StoreErrorV1};
use crate::text::{join_three, join_two};
use crate::workspace::{
    ResetMarkerV1, ValidatedRuntimeDirectoryErrorV1, WorkspaceResolutionErrorV1,
};
use vstd::prelude::*;

verus! {

/// A durable identity, and the root at which a Store last validated it.
#[derive(Clone, Debug, PartialEq, Eq)]
pub struct WorkspaceBindingV1 {
    pub identity: DurableWorktreeIdentityV1,
    pub last_validated_root: String,
}

/// Whether two bindings are the same binding.
pub open spec fn same_binding_spec(left: WorkspaceBindingV1, right: WorkspaceBindingV1) -> bool {
    store::same_identity_spec(left.identity, right.identity) && left.last_validated_root@
        == right.last_validated_root@
}

/// Whether two bindings are the same binding.
pub fn same_binding(left: &WorkspaceBindingV1, right: &WorkspaceBindingV1) -> (same: bool)
    ensures
        same == same_binding_spec(*left, *right),
{
    same_identity(&left.identity, &right.identity) && left.last_validated_root
        == right.last_validated_root
}

/// The same binding once more.
pub fn copy_binding(binding: &WorkspaceBindingV1) -> (copy: WorkspaceBindingV1)
    ensures
        copy == *binding,
{
    WorkspaceBindingV1 {
        identity: copy_identity(&binding.identity),
        last_validated_root: binding.last_validated_root.clone(),
    }
}

/// Why an operation on a workspace failed. Paths are held as the texts that they are shown by.
#[derive(Debug, PartialEq, Eq)]
pub enum WorkspaceRuntimeErrorV1 {
    Resolution(WorkspaceResolutionErrorV1),
    Layout,
    Store(StoreErrorV1),
    Registry(RegistryErrorV1),
    ConfigRead { path: String },
    ConfigAdmission,
    StoreOptions,
    Scheduler(DaemonCompositionErrorV1),
    BindingDisappeared { database_path: String },
    BindingIdentityMismatch {
        expected: DurableWorktreeIdentityV1,
        actual: DurableWorktreeIdentityV1,
    },
    BindingMismatch { expected: WorkspaceBindingV1, actual: WorkspaceBindingV1 },
    RebindEvidenceMismatch {
        binding_root: String,
        git_previous_root: Option<String>,
        git_current_root: String,
    },
    RuntimeDirectoryMissing { database_path: String },
    RuntimePathMismatch { database_path: String, runtime_directory_path: String },
    RuntimeDirectory(ValidatedRuntimeDirectoryErrorV1),
    MaintenanceInProgress,
    ResetMarkerConflict,
    ResetIdempotencyConflict { existing: String, requested: String },
    ResetSchedulerRetirement,
    RuntimePathsUnsupportedPlatform,
    ResetSourceNotRegistered,
    ResetSourceAmbiguous,
    ResetRegistryPredecessorStale,
    RevalidationKeyMismatch { expected: WorkspaceSchedulerKeyV1, actual: WorkspaceSchedulerKeyV1 },
    ResetAdmissionOutcomeUnknown {
        idempotency_key: String,
        source: ValidatedRuntimeDirectoryErrorV1,
    },
    ResetAdmitted { marker: ResetMarkerV1, source: Box<WorkspaceRuntimeErrorV1> },
}

impl WorkspaceRuntimeErrorV1 {
    /// The text that tells the error.
    pub open spec fn shown(self) -> Seq<char> {
        match self {
            WorkspaceRuntimeErrorV1::ConfigRead { path } =>
                "cannot read workspace configuration "@ + path@,
            WorkspaceRuntimeErrorV1::BindingDisappeared { database_path } =>
                "workspace binding disappeared from "@ + database_path@ + " before Store open"@,
            WorkspaceRuntimeErrorV1::RuntimeDirectoryMissing { database_path } =>
                "workspace database "@ + database_path@ + " has no runtime-directory parent"@,
            WorkspaceRuntimeErrorV1::Resolution(_) => "workspace resolution failed"@,
            WorkspaceRuntimeErrorV1::Layout => "workspace layout initialization failed"@,
            WorkspaceRuntimeErrorV1::Store(_) => "workspace Store operation failed"@,
            WorkspaceRuntimeErrorV1::Registry(_) => "workspace metadata registry update failed"@,
            WorkspaceRuntimeErrorV1::ConfigAdmission => "workspace configuration is invalid"@,
            WorkspaceRuntimeErrorV1::StoreOptions => "workspace Store options are invalid"@,
            WorkspaceRuntimeErrorV1::Scheduler(_) => "workspace scheduler creation failed"@,
            WorkspaceRuntimeErrorV1::BindingIdentityMismatch { .. } =>
                "workspace binding identity changed during activation"@,
            WorkspaceRuntimeErrorV1::BindingMismatch { .. } =>
                "workspace binding does not match the validated workspace"@,
            WorkspaceRuntimeErrorV1::RebindEvidenceMismatch { .. } =>
                "workspace root rebinding lacks matching Git and Store evidence"@,
            WorkspaceRuntimeErrorV1::RuntimePathMismatch { .. } =>
                "workspace runtime directory does not match the validated database location"@,
            WorkspaceRuntimeErrorV1::RuntimeDirectory(_) =>
                "validated reset runtime-directory operation failed"@,
            WorkspaceRuntimeErrorV1::MaintenanceInProgress =>
                "workspace maintenance is already in progress"@,
            WorkspaceRuntimeErrorV1::ResetMarkerConflict =>
                "reset marker conflicts with the requested operation"@,
            WorkspaceRuntimeErrorV1::ResetIdempotencyConflict { .. } =>
                "reset marker conflicts with the requested idempotency digest"@,
            WorkspaceRuntimeErrorV1::ResetSchedulerRetirement =>
                "old scheduler retirement did not complete"@,
            WorkspaceRuntimeErrorV1::RuntimePathsUnsupportedPlatform =>
                "workspace runtime paths require Unix native path support"@,
            WorkspaceRuntimeErrorV1::ResetSourceNotRegistered =>
                "no registered reset source matches the validated worktree"@,
            WorkspaceRuntimeErrorV1::ResetSourceAmbiguous =>
                "multiple registered reset sources match the validated worktree"@,
            WorkspaceRuntimeErrorV1::ResetRegistryPredecessorStale =>
                "registered reset predecessor changed before destructive maintenance"@,
            WorkspaceRuntimeErrorV1::RevalidationKeyMismatch { .. } =>
                "revalidated workspace has a different scheduler identity"@,
            WorkspaceRuntimeErrorV1::ResetAdmissionOutcomeUnknown { .. } =>
                "reset admission outcome is unknown"@,
            WorkspaceRuntimeErrorV1::ResetAdmitted { .. } => "admitted reset did not complete"@,
        }
    }

    /// The text that tells the error.
    pub fn message(&self) -> (message: String)
        ensures
            message@ == self.shown(),
    {
        match self {
            WorkspaceRuntimeErrorV1::ConfigRead { path } => join_two(
                "cannot read workspace configuration ",
                path,
            ),
            WorkspaceRuntimeErrorV1::BindingDisappeared { database_path } => join_three(
                "workspace binding disappeared from ",
                database_path,
                " before Store open",
            ),
            WorkspaceRuntimeErrorV1::RuntimeDirectoryMissing { database_path } => join_three(
                "workspace database ",
                database_path,
                " has no runtime-directory parent",
            ),
            WorkspaceRuntimeErrorV1::Resolution(_) => "workspace resolution failed".to_owned(),
            WorkspaceRuntimeErrorV1::Layout => "workspace layout initialization failed".to_owned(),
            WorkspaceRuntimeErrorV1::Store(_) => "workspace Store operation failed".to_owned(),
            WorkspaceRuntimeErrorV1::Registry(_) =>
                "workspace metadata registry update failed".to_owned(),
            WorkspaceRuntimeErrorV1::ConfigAdmission =>
                "workspace configuration is invalid".to_owned(),
            WorkspaceRuntimeErrorV1::StoreOptions =>
                "workspace Store options are invalid".to_owned(),
            WorkspaceRuntimeErrorV1::Scheduler(_) => "workspace scheduler creation failed".to_owned(),
            WorkspaceRuntimeErrorV1::BindingIdentityMismatch { .. } =>
                "workspace binding identity changed during activation".to_owned(),
            WorkspaceRuntimeErrorV1::BindingMismatch { .. } =>
                "workspace binding does not match the validated workspace".to_owned(),
            WorkspaceRuntimeErrorV1::RebindEvidenceMismatch { .. } =>
                "workspace root rebinding lacks matching Git and Store evidence".to_owned(),
            WorkspaceRuntimeErrorV1::RuntimePathMismatch { .. } =>
                "workspace runtime directory does not match the validated database location".to_owned(),
            WorkspaceRuntimeErrorV1::RuntimeDirectory(_) =>
                "validated reset runtime-directory operation failed".to_owned(),
            WorkspaceRuntimeErrorV1::MaintenanceInProgress =>
                "workspace maintenance is already in progress".to_owned(),
            WorkspaceRuntimeErrorV1::ResetMarkerConflict =>
                "reset marker conflicts with the requested operation".to_owned(),
            WorkspaceRuntimeErrorV1::ResetIdempotencyConflict { .. } =>
                "reset marker conflicts with the requested idempotency digest".to_owned(),
            WorkspaceRuntimeErrorV1::ResetSchedulerRetirement =>
                "old scheduler retirement did not complete".to_owned(),
            WorkspaceRuntimeErrorV1::RuntimePathsUnsupportedPlatform =>
                "workspace runtime paths require Unix native path support".to_owned(),
            WorkspaceRuntimeErrorV1::ResetSourceNotRegistered =>
                "no registered reset source matches the validated worktree".to_owned(),
            WorkspaceRuntimeErrorV1::ResetSourceAmbiguous =>
                "multiple registered reset sources match the validated worktree".to_owned(),
            WorkspaceRuntimeErrorV1::ResetRegistryPredecessorStale =>
                "registered reset predecessor changed before destructive maintenance".to_owned(),
            WorkspaceRuntimeErrorV1::RevalidationKeyMismatch { .. } =>
                "revalidated workspace has a different scheduler identity".to_owned(),
            WorkspaceRuntimeErrorV1::ResetAdmissionOutcomeUnknown { .. } =>
                "reset admission outcome is unknown".to_owned(),
            WorkspaceRuntimeErrorV1::ResetAdmitted { .. } =>
                "admitted reset did not complete".to_owned(),
        }
    }
}

} // verus!
