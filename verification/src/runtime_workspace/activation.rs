//! The activation of a workspace: how a scheduler of this process comes to work on it.
//!
//! A workspace is activated by a scheduler that is active already, if nothing of what it works with
//! has changed, and otherwise by opening the Store anew. The Store is opened only after its binding
//! was inspected and Git was asked once more, and the registry is told only after the Store has
//! confirmed the binding.

use crate::registry;
use crate::registry::{
    RegistryErrorV1, WorkspaceRegistryV1, WorkspaceRegistryValidationErrorV1,
};
use crate::runtime_workspace;
use crate::runtime_workspace::context::{DatabaseFileIdentityV1, WorkspaceSchedulerContextV1};
use crate::runtime_workspace::evidence;
use crate::runtime_workspace::evidence::{
    same_evidence, same_git_root_evidence, GitEvidenceV1,
};
use crate::runtime_workspace::{
    copy_binding, same_binding, WorkspaceBindingV1, WorkspaceRuntimeErrorV1,
};
use crate::scheduler::{SchedulerGenerationV1, WorkspaceSchedulerKeyV1};
use crate::store;
use crate::store::{copy_identity, same_identity, DurableWorktreeIdentityV1};
use crate::workspace::{GitResolverErrorV1, ResetMarkerV1, WorkspaceResolutionErrorV1};
use vstd::prelude::*;

verus! {

/// Why the root that Git tells as the previous one is not a root.
#[derive(Clone, Copy, Debug, PartialEq, Eq, Structural)]
pub enum PreviousRootErrorV1 {
    /// The path that Git has stored is none.
    StoredPathInvalid,
    /// The path cannot be the root of a workspace.
    RootInvalid,
    /// Paths are not read on this platform.
    UnsupportedPlatform,
}

impl PreviousRootErrorV1 {
    /// What an activation fails with for want of the previous root.
    pub open spec fn as_runtime_error(self) -> WorkspaceRuntimeErrorV1 {
        match self {
            PreviousRootErrorV1::StoredPathInvalid => WorkspaceRuntimeErrorV1::Resolution(
                WorkspaceResolutionErrorV1::StoredRootPathInvalid,
            ),
            PreviousRootErrorV1::RootInvalid => WorkspaceRuntimeErrorV1::StoreOptions,
            PreviousRootErrorV1::UnsupportedPlatform =>
                WorkspaceRuntimeErrorV1::RuntimePathsUnsupportedPlatform,
        }
    }

    /// What an activation fails with for want of the previous root.
    pub fn runtime_error(self) -> (error: WorkspaceRuntimeErrorV1)
        ensures
            error == self.as_runtime_error(),
    {
        match self {
            PreviousRootErrorV1::StoredPathInvalid => WorkspaceRuntimeErrorV1::Resolution(
                WorkspaceResolutionErrorV1::StoredRootPathInvalid,
            ),
            PreviousRootErrorV1::RootInvalid => WorkspaceRuntimeErrorV1::StoreOptions,
            PreviousRootErrorV1::UnsupportedPlatform =>
                WorkspaceRuntimeErrorV1::RuntimePathsUnsupportedPlatform,
        }
    }
}

/// A workspace that resolves. Paths are held as texts that tell them apart; the root that Git tells
/// as the previous one may not be readable.
#[derive(Debug, PartialEq, Eq)]
pub struct ResolvedWorkspaceV1 {
    pub store_identity: DurableWorktreeIdentityV1,
    pub workspace_root: String,
    pub database_path: String,
    pub worktree: GitEvidenceV1,
    pub previous_root: Result<Option<String>, PreviousRootErrorV1>,
    pub relocated_from_prior_root: bool,
}

/// Where a database lies: the directory that holds it, if one does, and whether it is named there as
/// the database of a workspace is.
#[derive(Clone, Debug, PartialEq, Eq)]
pub struct DatabaseLocationV1 {
    pub directory: Option<String>,
    pub is_named_state: bool,
}

/// Whether a scheduler context still holds.
#[derive(Debug, PartialEq, Eq)]
pub enum WorkspaceSchedulerRevalidationV1 {
    Current,
    RetireRequired {
        key: WorkspaceSchedulerKeyV1,
        generation: SchedulerGenerationV1,
        source: WorkspaceResolutionErrorV1,
    },
}

/// The name of the file that is the database of a workspace.
pub const WORKSPACE_DATABASE_NAME_V1: &'static str = "state.sqlite3";

/// The runtime directory of a workspace: the one that holds its database.
pub open spec fn runtime_directory_of(
    database_path: String,
    location: DatabaseLocationV1,
) -> Result<String, WorkspaceRuntimeErrorV1> {
    match location.directory {
        None => Err(WorkspaceRuntimeErrorV1::RuntimeDirectoryMissing { database_path }),
        Some(directory) => if location.is_named_state {
            Ok(directory)
        } else {
            Err(
                WorkspaceRuntimeErrorV1::RuntimePathMismatch {
                    database_path,
                    runtime_directory_path: directory,
                },
            )
        },
    }
}

/// The runtime directory of a workspace.
pub fn runtime_directory_path(database_path: &String, location: DatabaseLocationV1) -> (path:
    Result<String, WorkspaceRuntimeErrorV1>)
    ensures
        path == runtime_directory_of(*database_path, location),
{
    match location.directory {
        None => Err(
            WorkspaceRuntimeErrorV1::RuntimeDirectoryMissing {
                database_path: database_path.clone(),
            },
        ),
        Some(directory) => if location.is_named_state {
            Ok(directory)
        } else {
            Err(
                WorkspaceRuntimeErrorV1::RuntimePathMismatch {
                    database_path: database_path.clone(),
                    runtime_directory_path: directory,
                },
            )
        },
    }
}

/// The binding that the Store of a resolved workspace has to have.
pub open spec fn expected_binding_of(resolved: ResolvedWorkspaceV1) -> WorkspaceBindingV1 {
    WorkspaceBindingV1 {
        identity: resolved.store_identity,
        last_validated_root: resolved.workspace_root,
    }
}

/// The binding that the Store of a resolved workspace has to have.
pub fn expected_binding(resolved: &ResolvedWorkspaceV1) -> (binding: WorkspaceBindingV1)
    ensures
        binding == expected_binding_of(*resolved),
{
    WorkspaceBindingV1 {
        identity: copy_identity(&resolved.store_identity),
        last_validated_root: resolved.workspace_root.clone(),
    }
}

/// Whether a scheduler still works with what a workspace resolves to.
pub open spec fn context_is_current(
    context: WorkspaceSchedulerContextV1,
    resolved: ResolvedWorkspaceV1,
    database_identity: Option<DatabaseFileIdentityV1>,
    runtime_directory: Seq<char>,
) -> bool {
    &&& runtime_workspace::same_binding_spec(context.binding, expected_binding_of(resolved))
    &&& context.database_path@ == resolved.database_path@
    &&& database_identity == Some(context.database_identity)
    &&& context.runtime_directory_path@ == runtime_directory
    &&& evidence::same_evidence_spec(context.git_evidence, resolved.worktree)
}

fn same_database(
    context: &WorkspaceSchedulerContextV1,
    database_identity: Option<DatabaseFileIdentityV1>,
) -> (same: bool)
    ensures
        same == (database_identity == Some(context.database_identity)),
{
    match database_identity {
        Some(identity) => identity == context.database_identity,
        None => false,
    }
}

/// Whether a scheduler still works with what a workspace resolves to. A read may use it only then.
pub fn is_current_context(
    context: &WorkspaceSchedulerContextV1,
    resolved: &ResolvedWorkspaceV1,
    database_identity: Option<DatabaseFileIdentityV1>,
    runtime_directory: &String,
) -> (current: bool)
    ensures
        current == context_is_current(
            *context,
            *resolved,
            database_identity,
            runtime_directory@,
        ),
{
    same_database(context, database_identity) && same_binding(
        &context.binding,
        &expected_binding(resolved),
    ) && context.database_path == resolved.database_path && context.runtime_directory_path
        == *runtime_directory && same_evidence(&context.git_evidence, &resolved.worktree)
}

/// What is known of a scheduler once the database at its path was looked at: it has to retire if
/// another database is there.
pub fn revalidate_scheduler_database(
    key: &WorkspaceSchedulerKeyV1,
    generation: SchedulerGenerationV1,
    context: &WorkspaceSchedulerContextV1,
    database_identity: Option<DatabaseFileIdentityV1>,
) -> (revalidation: Option<WorkspaceSchedulerRevalidationV1>)
    ensures
        revalidation == match database_identity {
            Some(identity) if identity != context.database_identity => Some(
                WorkspaceSchedulerRevalidationV1::RetireRequired {
                    key: *key,
                    generation,
                    source: WorkspaceResolutionErrorV1::RuntimeDatabasePathChangedDuringResolution,
                },
            ),
            _ => None,
        },
{
    match database_identity {
        Some(identity) => if identity != context.database_identity {
            Some(
                WorkspaceSchedulerRevalidationV1::RetireRequired {
                    key: key.copy(),
                    generation,
                    source: WorkspaceResolutionErrorV1::RuntimeDatabasePathChangedDuringResolution,
                },
            )
        } else {
            None
        },
        None => None,
    }
}

/// What is known of a scheduler once its workspace was resolved anew: it has to retire if the
/// workspace does not resolve, or resolves to another identity.
pub fn revalidate_scheduler(
    key: &WorkspaceSchedulerKeyV1,
    generation: SchedulerGenerationV1,
    resolved: Result<DurableWorktreeIdentityV1, WorkspaceResolutionErrorV1>,
) -> (revalidation: WorkspaceSchedulerRevalidationV1)
    ensures
        match resolved {
            Ok(identity) => if key.workspace_uuid@ == identity.workspace_uuid@
                && key.common_directory_digest@ == identity.common_dir_identity@
                && key.worktree_administration_digest@ == identity.worktree_admin_identity@ {
                revalidation == WorkspaceSchedulerRevalidationV1::Current
            } else {
                revalidation == (WorkspaceSchedulerRevalidationV1::RetireRequired {
                    key: *key,
                    generation,
                    source: WorkspaceResolutionErrorV1::RevalidatedStoreIdentityMismatch,
                })
            },
            Err(source) => revalidation == (WorkspaceSchedulerRevalidationV1::RetireRequired {
                key: *key,
                generation,
                source,
            }),
        },
{
    match resolved {
        Ok(identity) => {
            let actual = WorkspaceSchedulerKeyV1::from_durable_identity(&identity);
            if !key.same(&actual) {
                return WorkspaceSchedulerRevalidationV1::RetireRequired {
                    key: key.copy(),
                    generation,
                    source: WorkspaceResolutionErrorV1::RevalidatedStoreIdentityMismatch,
                };
            }
            WorkspaceSchedulerRevalidationV1::Current
        },
        Err(source) => WorkspaceSchedulerRevalidationV1::RetireRequired {
            key: key.copy(),
            generation,
            source,
        },
    }
}

/// Refuses an activation while a reset of the workspace is not completed.
pub fn require_marker_clear(marker: Option<&ResetMarkerV1>) -> (verdict: Result<
    (),
    WorkspaceRuntimeErrorV1,
>)
    ensures
        verdict == if marker is Some {
            Err::<(), WorkspaceRuntimeErrorV1>(WorkspaceRuntimeErrorV1::MaintenanceInProgress)
        } else {
            Ok(())
        },
{
    if marker.is_some() {
        return Err(WorkspaceRuntimeErrorV1::MaintenanceInProgress);
    }
    Ok(())
}

/// Refuses a bootstrap of another worktree than the one that it began in.
pub fn require_bootstrap_worktree(lifecycle: &GitEvidenceV1, candidate: &GitEvidenceV1) -> (verdict:
    Result<(), WorkspaceRuntimeErrorV1>)
    ensures
        verdict == if evidence::same_roots(*lifecycle, *candidate) {
            Ok(())
        } else {
            Err(WorkspaceRuntimeErrorV1::MaintenanceInProgress)
        },
{
    if !same_git_root_evidence(lifecycle, candidate) {
        return Err(WorkspaceRuntimeErrorV1::MaintenanceInProgress);
    }
    Ok(())
}

/// Whether the binding that a Store had before it was opened goes with the resolved workspace: it is
/// of the same identity, and at the root that the workspace had, or has if it did not move.
pub open spec fn pre_open_verdict(
    resolved: ResolvedWorkspaceV1,
    binding: WorkspaceBindingV1,
) -> Result<(), WorkspaceRuntimeErrorV1> {
    if !store::same_identity_spec(binding.identity, resolved.store_identity) {
        Err(
            WorkspaceRuntimeErrorV1::BindingIdentityMismatch {
                expected: resolved.store_identity,
                actual: binding.identity,
            },
        )
    } else {
        match resolved.previous_root {
            Err(error) => Err(error.as_runtime_error()),
            Ok(previous_root) => {
                let expected_root = match previous_root {
                    Some(previous_root) => previous_root,
                    None => resolved.workspace_root,
                };
                if binding.last_validated_root@ == expected_root@ {
                    Ok(())
                } else {
                    Err(
                        WorkspaceRuntimeErrorV1::RebindEvidenceMismatch {
                            binding_root: binding.last_validated_root,
                            git_previous_root: previous_root,
                            git_current_root: resolved.workspace_root,
                        },
                    )
                }
            },
        }
    }
}

/// Refuses a Store whose binding does not go with the resolved workspace.
pub fn validate_pre_open_binding(resolved: &ResolvedWorkspaceV1, binding: &WorkspaceBindingV1) -> (
verdict: Result<(), WorkspaceRuntimeErrorV1>)
    ensures
        verdict == pre_open_verdict(*resolved, *binding),
{
    if !same_identity(&binding.identity, &resolved.store_identity) {
        return Err(
            WorkspaceRuntimeErrorV1::BindingIdentityMismatch {
                expected: copy_identity(&resolved.store_identity),
                actual: copy_identity(&binding.identity),
            },
        );
    }
    let previous_root: Option<String> = match &resolved.previous_root {
        Ok(Some(previous_root)) => Some(previous_root.clone()),
        Ok(None) => None,
        Err(error) => {
            return Err(error.runtime_error());
        },
    };
    let matches = match &previous_root {
        Some(previous_root) => binding.last_validated_root == *previous_root,
        None => binding.last_validated_root == resolved.workspace_root,
    };
    if !matches {
        return Err(
            WorkspaceRuntimeErrorV1::RebindEvidenceMismatch {
                binding_root: binding.last_validated_root.clone(),
                git_previous_root: previous_root,
                git_current_root: resolved.workspace_root.clone(),
            },
        );
    }
    Ok(())
}

/// Whether the binding that a Store has is the expected one.
pub open spec fn exact_verdict(
    database_path: String,
    actual: Option<WorkspaceBindingV1>,
    expected: WorkspaceBindingV1,
) -> Result<(), WorkspaceRuntimeErrorV1> {
    match actual {
        None => Err(WorkspaceRuntimeErrorV1::BindingDisappeared { database_path }),
        Some(actual) => if runtime_workspace::same_binding_spec(actual, expected) {
            Ok(())
        } else {
            Err(WorkspaceRuntimeErrorV1::BindingMismatch { expected, actual })
        },
    }
}

/// Refuses a Store whose binding is not the expected one.
pub fn require_exact_binding(
    database_path: &String,
    actual: Option<WorkspaceBindingV1>,
    expected: &WorkspaceBindingV1,
) -> (verdict: Result<(), WorkspaceRuntimeErrorV1>)
    ensures
        verdict == exact_verdict(*database_path, actual, *expected),
{
    match actual {
        None => Err(
            WorkspaceRuntimeErrorV1::BindingDisappeared { database_path: database_path.clone() },
        ),
        Some(actual) => if same_binding(&actual, expected) {
            Ok(())
        } else {
            Err(
                WorkspaceRuntimeErrorV1::BindingMismatch {
                    expected: copy_binding(expected),
                    actual,
                },
            )
        },
    }
}

/// Refuses to open a Store in another worktree than the resolved one.
pub fn revalidate_before_store_open(resolved: &GitEvidenceV1, actual: &GitEvidenceV1) -> (verdict:
    Result<(), WorkspaceRuntimeErrorV1>)
    ensures
        verdict == if evidence::same_roots(*resolved, *actual) {
            Ok(())
        } else {
            Err(changed_worktree())
        },
{
    if !same_git_root_evidence(resolved, actual) {
        return Err(
            WorkspaceRuntimeErrorV1::Resolution(
                WorkspaceResolutionErrorV1::Git { source: GitResolverErrorV1::IdentityMismatch },
            ),
        );
    }
    Ok(())
}

/// What is refused where Git tells of another worktree than before.
pub open spec fn changed_worktree() -> WorkspaceRuntimeErrorV1 {
    WorkspaceRuntimeErrorV1::Resolution(
        WorkspaceResolutionErrorV1::Git { source: GitResolverErrorV1::IdentityMismatch },
    )
}

/// What is refused where another database is at the path of the one that was resolved.
pub open spec fn changed_database() -> WorkspaceRuntimeErrorV1 {
    WorkspaceRuntimeErrorV1::Resolution(
        WorkspaceResolutionErrorV1::RuntimeDatabasePathChangedDuringResolution,
    )
}

/// What comes of an insertion that the registry refused. Where the Store is at the current root
/// already and only the registry holds another root, the workspace is moved from there.
pub open spec fn insertion_refused(
    error: RegistryErrorV1,
    binding_root: Seq<char>,
    current_root: Seq<char>,
) -> Result<String, WorkspaceRuntimeErrorV1> {
    match error {
        RegistryErrorV1::WorkspaceRootConflict { registered_root, supplied_root, .. } => if binding_root
            == current_root && supplied_root@ == current_root {
            Ok(registered_root)
        } else {
            Err(WorkspaceRuntimeErrorV1::Registry(error))
        },
        _ => Err(WorkspaceRuntimeErrorV1::Registry(error)),
    }
}

/// What comes of an insertion that the registry refused.
fn registry_after_refused_insertion(
    error: RegistryErrorV1,
    binding_before_open: &WorkspaceBindingV1,
    current_root: &String,
) -> (previous_root: Result<String, WorkspaceRuntimeErrorV1>)
    ensures
        previous_root == insertion_refused(
            error,
            binding_before_open.last_validated_root@,
            current_root@,
        ),
{
    match error {
        RegistryErrorV1::WorkspaceRootConflict {
            workspace_uuid,
            registered_root,
            supplied_root,
        } => if binding_before_open.last_validated_root == *current_root && supplied_root
            == *current_root {
            Ok(registered_root)
        } else {
            Err(
                WorkspaceRuntimeErrorV1::Registry(
                    RegistryErrorV1::WorkspaceRootConflict {
                        workspace_uuid,
                        registered_root,
                        supplied_root,
                    },
                ),
            )
        },
        error => Err(WorkspaceRuntimeErrorV1::Registry(error)),
    }
}

/// What comes of a move that the registry refused. A workspace that is not registered, or that is at
/// the current root already, may be inserted there.
pub open spec fn move_refused(
    error: RegistryErrorV1,
    previous_root: Seq<char>,
    current_root: Seq<char>,
) -> Result<(), WorkspaceRuntimeErrorV1> {
    match error {
        RegistryErrorV1::WorkspaceNotRegistered { .. } => Ok(()),
        RegistryErrorV1::WorkspaceRootConflict { registered_root, supplied_root, .. } => if registered_root@
            == current_root && supplied_root@ == previous_root {
            Ok(())
        } else {
            Err(WorkspaceRuntimeErrorV1::Registry(error))
        },
        _ => Err(WorkspaceRuntimeErrorV1::Registry(error)),
    }
}

/// What comes of a move that the registry refused.
fn registry_after_refused_move(
    error: RegistryErrorV1,
    previous_root: &String,
    current_root: &String,
) -> (verdict: Result<(), WorkspaceRuntimeErrorV1>)
    ensures
        verdict == move_refused(error, previous_root@, current_root@),
{
    match error {
        RegistryErrorV1::WorkspaceNotRegistered { .. } => Ok(()),
        RegistryErrorV1::WorkspaceRootConflict {
            workspace_uuid,
            registered_root,
            supplied_root,
        } => if registered_root == *current_root && supplied_root == *previous_root {
            Ok(())
        } else {
            Err(
                WorkspaceRuntimeErrorV1::Registry(
                    RegistryErrorV1::WorkspaceRootConflict {
                        workspace_uuid,
                        registered_root,
                        supplied_root,
                    },
                ),
            )
        },
        error => Err(WorkspaceRuntimeErrorV1::Registry(error)),
    }
}

/// Whether the registry can be told that a workspace is at its current root: it is registered there,
/// or at the root that it is known to have left, or it is not registered and there is room for it.
pub open spec fn registry_is_refreshed(
    registry: WorkspaceRegistryV1,
    workspace_uuid: Seq<char>,
    relocated_from_prior_root: bool,
    binding_root: Seq<char>,
    current_root: Seq<char>,
) -> bool {
    registry::root_fits(current_root) && if registry.says().dom().contains(workspace_uuid) {
        let registered_root = registry.says()[workspace_uuid].0;
        ||| registered_root == current_root
        ||| if relocated_from_prior_root {
            registered_root == binding_root
        } else {
            binding_root == current_root
        }
    } else {
        registry@.len() < registry::MAX_WORKSPACE_REGISTRY_ENTRIES_V1
    }
}

/// Tells the registry that a workspace is at its current root. The root that its Store had before
/// decides whether a workspace that is registered elsewhere has moved. Where the registry cannot be
/// told, it stays as it is.
pub fn refresh_registry_metadata(
    registry: &mut WorkspaceRegistryV1,
    workspace_uuid: &String,
    relocated_from_prior_root: bool,
    binding_before_open: &WorkspaceBindingV1,
    current_root: &String,
    seen_at: &String,
) -> (result: Result<(), WorkspaceRuntimeErrorV1>)
    requires
        old(registry).wf(),
    ensures
        final(registry).wf(),
        result is Ok <==> registry_is_refreshed(
            *old(registry),
            workspace_uuid@,
            relocated_from_prior_root,
            binding_before_open.last_validated_root@,
            current_root@,
        ),
        result is Ok ==> final(registry).says() == old(registry).says().insert(
            workspace_uuid@,
            (current_root@, seen_at@),
        ),
        result matches Err(error) ==> *final(registry) == *old(registry) && (error matches
            WorkspaceRuntimeErrorV1::Registry(error) && if !registry::root_fits(current_root@) {
            error == RegistryErrorV1::RegistryValidation(
                WorkspaceRegistryValidationErrorV1::WorkspaceRootTooLong {
                    maximum: registry::MAX_WORKSPACE_ROOT_TEXT_BYTES_V1,
                    actual: registry::byte_length(current_root@) as usize,
                },
            )
        } else if old(registry).says().dom().contains(workspace_uuid@) {
            registry::is_root_conflict(
                error,
                workspace_uuid@,
                old(registry).says()[workspace_uuid@].0,
                if relocated_from_prior_root {
                    binding_before_open.last_validated_root@
                } else {
                    current_root@
                },
            )
        } else {
            error == RegistryErrorV1::RegistryValidation(
                WorkspaceRegistryValidationErrorV1::TooManyWorkspaces {
                    maximum: registry::MAX_WORKSPACE_REGISTRY_ENTRIES_V1,
                    actual: (registry::MAX_WORKSPACE_REGISTRY_ENTRIES_V1 + 1) as usize,
                },
            )
        }),
{
    let previous_root = if relocated_from_prior_root {
        binding_before_open.last_validated_root.clone()
    } else {
        let error = match registry.insert_or_refresh(
            workspace_uuid.clone(),
            current_root.clone(),
            seen_at.clone(),
        ) {
            Ok(_) => {
                return Ok(());
            },
            Err(error) => error,
        };
        match registry_after_refused_insertion(error, binding_before_open, current_root) {
            Ok(previous_root) => previous_root,
            Err(error) => {
                return Err(error);
            },
        }
    };
    reconcile_registry_move(registry, workspace_uuid, &previous_root, current_root, seen_at)
}

/// Moves a workspace in the registry from the given root to its current one. A workspace that is not
/// registered, or that is at its current root already, is inserted there.
pub fn reconcile_registry_move(
    registry: &mut WorkspaceRegistryV1,
    workspace_uuid: &String,
    previous_root: &String,
    current_root: &String,
    seen_at: &String,
) -> (result: Result<(), WorkspaceRuntimeErrorV1>)
    requires
        old(registry).wf(),
    ensures
        final(registry).wf(),
        result is Ok <==> registry_is_refreshed(
            *old(registry),
            workspace_uuid@,
            true,
            previous_root@,
            current_root@,
        ),
        result is Ok ==> final(registry).says() == old(registry).says().insert(
            workspace_uuid@,
            (current_root@, seen_at@),
        ),
        result matches Err(error) ==> *final(registry) == *old(registry) && (error matches
            WorkspaceRuntimeErrorV1::Registry(error) && if !registry::root_fits(current_root@) {
            error == RegistryErrorV1::RegistryValidation(
                WorkspaceRegistryValidationErrorV1::WorkspaceRootTooLong {
                    maximum: registry::MAX_WORKSPACE_ROOT_TEXT_BYTES_V1,
                    actual: registry::byte_length(current_root@) as usize,
                },
            )
        } else if old(registry).says().dom().contains(workspace_uuid@) {
            registry::is_root_conflict(
                error,
                workspace_uuid@,
                old(registry).says()[workspace_uuid@].0,
                previous_root@,
            )
        } else {
            error == RegistryErrorV1::RegistryValidation(
                WorkspaceRegistryValidationErrorV1::TooManyWorkspaces {
                    maximum: registry::MAX_WORKSPACE_REGISTRY_ENTRIES_V1,
                    actual: (registry::MAX_WORKSPACE_REGISTRY_ENTRIES_V1 + 1) as usize,
                },
            )
        }),
{
    let error = match registry.move_workspace(
        workspace_uuid,
        previous_root,
        current_root.clone(),
        seen_at.clone(),
    ) {
        Ok(_) => {
            return Ok(());
        },
        Err(error) => error,
    };
    match registry_after_refused_move(error, previous_root, current_root) {
        Ok(_) => {},
        Err(error) => {
            return Err(error);
        },
    }
    match registry.insert_or_refresh(
        workspace_uuid.clone(),
        current_root.clone(),
        seen_at.clone(),
    ) {
        Ok(_) => Ok(()),
        Err(error) => Err(WorkspaceRuntimeErrorV1::Registry(error)),
    }
}

/// What an activation does next.
#[derive(Clone, Copy, Debug, PartialEq, Eq, Structural)]
pub enum ActivationStepV1 {
    RefreshRegistryOfActive,
    AcquireRebind,
    ReadConfig,
    InspectBinding,
    RevalidateWorktree,
    OpenStore,
    ConfirmBinding,
    IdentifyDatabase,
    RefreshRegistry,
    PublishScheduler,
    RebindContext,
    BindGeneration,
    Completed,
}

/// What came of a step of an activation.
#[derive(Debug, PartialEq, Eq)]
pub enum ActivationEventV1 {
    Succeeded,
    Failed(WorkspaceRuntimeErrorV1),
    RebindRefused,
    BindingInspected(Option<WorkspaceBindingV1>),
    WorktreeResolved(GitEvidenceV1),
    DatabaseIdentified(Option<DatabaseFileIdentityV1>),
    SchedulerPublished { requires_rebind: bool },
}

/// An activation on its way.
#[derive(Debug, PartialEq, Eq)]
pub struct ActivationV1 {
    pub step: ActivationStepV1,
    pub maintenance_authorized: bool,
    pub resolved: ResolvedWorkspaceV1,
    pub runtime_directory: Result<String, WorkspaceRuntimeErrorV1>,
    pub binding_before_open: Option<WorkspaceBindingV1>,
    pub database_identity: Option<DatabaseFileIdentityV1>,
    pub reuses_active: bool,
    pub rebind_is_held: bool,
    pub worktree_is_revalidated: bool,
    pub store_is_open: bool,
    pub binding_is_confirmed: bool,
}

/// Whether what came of a step can come of it.
pub open spec fn activation_event_fits(step: ActivationStepV1, event: ActivationEventV1) -> bool {
    match event {
        ActivationEventV1::Succeeded => step is RefreshRegistryOfActive || step is AcquireRebind
            || step is ReadConfig || step is OpenStore || step is RefreshRegistry
            || step is RebindContext || step is BindGeneration,
        ActivationEventV1::Failed(_) => !(step is Completed),
        ActivationEventV1::RebindRefused => step is AcquireRebind,
        ActivationEventV1::BindingInspected(_) => step is InspectBinding || step is ConfirmBinding,
        ActivationEventV1::WorktreeResolved(_) => step is RevalidateWorktree,
        ActivationEventV1::DatabaseIdentified(_) => step is IdentifyDatabase,
        ActivationEventV1::SchedulerPublished { .. } => step is PublishScheduler,
    }
}

/// The activation at another step.
pub open spec fn activation_at(activation: ActivationV1, step: ActivationStepV1) -> ActivationV1 {
    ActivationV1 { step, ..activation }
}

/// What an activation does once a step came to the given end.
pub open spec fn activation_next(
    activation: ActivationV1,
    event: ActivationEventV1,
) -> Result<ActivationV1, WorkspaceRuntimeErrorV1> {
    match event {
        ActivationEventV1::Failed(error) => Err(error),
        ActivationEventV1::RebindRefused => Err(WorkspaceRuntimeErrorV1::MaintenanceInProgress),
        ActivationEventV1::BindingInspected(actual) => if activation.step is InspectBinding {
            match actual {
                None => Err(
                    WorkspaceRuntimeErrorV1::BindingDisappeared {
                        database_path: activation.resolved.database_path,
                    },
                ),
                Some(binding) => match pre_open_verdict(activation.resolved, binding) {
                    Err(error) => Err(error),
                    Ok(()) => Ok(
                        ActivationV1 {
                            step: ActivationStepV1::RevalidateWorktree,
                            binding_before_open: Some(binding),
                            ..activation
                        },
                    ),
                },
            }
        } else {
            match exact_verdict(
                activation.resolved.database_path,
                actual,
                expected_binding_of(activation.resolved),
            ) {
                Err(error) => Err(error),
                Ok(()) => Ok(
                    ActivationV1 {
                        step: ActivationStepV1::IdentifyDatabase,
                        binding_is_confirmed: true,
                        ..activation
                    },
                ),
            }
        },
        ActivationEventV1::WorktreeResolved(actual) => if evidence::same_roots(
            activation.resolved.worktree,
            actual,
        ) {
            Ok(
                ActivationV1 {
                    step: ActivationStepV1::OpenStore,
                    worktree_is_revalidated: true,
                    ..activation
                },
            )
        } else {
            Err(changed_worktree())
        },
        ActivationEventV1::DatabaseIdentified(identity) => match identity {
            None => Err(changed_database()),
            Some(identity) => Ok(
                ActivationV1 {
                    step: ActivationStepV1::RefreshRegistry,
                    database_identity: Some(identity),
                    ..activation
                },
            ),
        },
        ActivationEventV1::SchedulerPublished { requires_rebind } => Ok(
            activation_at(
                activation,
                if requires_rebind {
                    ActivationStepV1::RebindContext
                } else {
                    ActivationStepV1::BindGeneration
                },
            ),
        ),
        ActivationEventV1::Succeeded => match activation.step {
            ActivationStepV1::RefreshRegistryOfActive => Ok(
                activation_at(activation, ActivationStepV1::BindGeneration),
            ),
            ActivationStepV1::AcquireRebind => Ok(
                ActivationV1 {
                    step: ActivationStepV1::ReadConfig,
                    rebind_is_held: true,
                    ..activation
                },
            ),
            ActivationStepV1::ReadConfig => Ok(
                activation_at(activation, ActivationStepV1::InspectBinding),
            ),
            ActivationStepV1::OpenStore => Ok(
                ActivationV1 {
                    step: ActivationStepV1::ConfirmBinding,
                    store_is_open: true,
                    ..activation
                },
            ),
            ActivationStepV1::RefreshRegistry => match activation.runtime_directory {
                Ok(_) => Ok(activation_at(activation, ActivationStepV1::PublishScheduler)),
                Err(error) => Err(error),
            },
            ActivationStepV1::RebindContext => Ok(
                activation_at(activation, ActivationStepV1::BindGeneration),
            ),
            ActivationStepV1::BindGeneration => Ok(
                activation_at(activation, ActivationStepV1::Completed),
            ),
            _ => Ok(activation),
        },
    }
}

/// How an activation begins: by the scheduler that is active, if it still works with what the
/// workspace resolves to. Where another database is at its path, it does not begin.
pub open spec fn activation_begins(
    resolved: ResolvedWorkspaceV1,
    runtime_directory: Result<String, WorkspaceRuntimeErrorV1>,
    active: Option<WorkspaceSchedulerContextV1>,
    current_database: Option<DatabaseFileIdentityV1>,
    maintenance_authorized: bool,
) -> Result<ActivationV1, WorkspaceRuntimeErrorV1> {
    let anew = ActivationV1 {
        step: if maintenance_authorized {
            ActivationStepV1::ReadConfig
        } else {
            ActivationStepV1::AcquireRebind
        },
        maintenance_authorized,
        resolved,
        runtime_directory,
        binding_before_open: None,
        database_identity: None,
        reuses_active: false,
        rebind_is_held: false,
        worktree_is_revalidated: false,
        store_is_open: false,
        binding_is_confirmed: false,
    };
    match active {
        None => Ok(anew),
        Some(context) => match runtime_directory {
            Err(error) => Err(error),
            Ok(directory) => if context.database_path@ == resolved.database_path@
                && current_database != Some(context.database_identity) {
                Err(changed_database())
            } else if context_is_current(context, resolved, current_database, directory@) {
                Ok(
                    ActivationV1 {
                        step: ActivationStepV1::RefreshRegistryOfActive,
                        reuses_active: true,
                        binding_before_open: Some(context.binding),
                        ..anew
                    },
                )
            } else {
                Ok(anew)
            },
        },
    }
}

/// How many steps an activation has left at most.
pub open spec fn activation_steps_left(step: ActivationStepV1) -> nat {
    match step {
        ActivationStepV1::AcquireRebind => 11,
        ActivationStepV1::ReadConfig => 10,
        ActivationStepV1::InspectBinding => 9,
        ActivationStepV1::RevalidateWorktree => 8,
        ActivationStepV1::OpenStore => 7,
        ActivationStepV1::ConfirmBinding => 6,
        ActivationStepV1::IdentifyDatabase => 5,
        ActivationStepV1::RefreshRegistry => 4,
        ActivationStepV1::PublishScheduler => 3,
        ActivationStepV1::RebindContext => 2,
        ActivationStepV1::RefreshRegistryOfActive => 2,
        ActivationStepV1::BindGeneration => 1,
        ActivationStepV1::Completed => 0,
    }
}

/// Whether an activation is at a step before the Store is opened.
pub open spec fn is_before_store_open(step: ActivationStepV1) -> bool {
    step is AcquireRebind || step is ReadConfig || step is InspectBinding
        || step is RevalidateWorktree || step is OpenStore
}

impl ActivationV1 {
    /// Whether an activation has come to its step in order.
    pub open spec fn wf(self) -> bool {
        &&& self.step is RefreshRegistryOfActive ==> self.reuses_active
        &&& self.reuses_active ==> (self.step is RefreshRegistryOfActive
            || self.step is BindGeneration || self.step is Completed)
        &&& !self.reuses_active ==> {
            &&& self.store_is_open == !is_before_store_open(self.step)
            &&& !(self.step is AcquireRebind) ==> self.rebind_is_held || self.maintenance_authorized
            &&& (self.step is OpenStore || self.store_is_open) ==> self.binding_before_open is Some
                && self.worktree_is_revalidated
            &&& self.step is RevalidateWorktree ==> self.binding_before_open is Some
            &&& self.binding_is_confirmed == (self.store_is_open && !(self.step is ConfirmBinding))
            &&& (self.binding_is_confirmed && !(self.step is IdentifyDatabase))
                ==> self.database_identity is Some
            &&& (self.step is PublishScheduler || self.step is RebindContext
                || self.step is BindGeneration || self.step is Completed)
                ==> self.runtime_directory is Ok
        }
    }

    /// An activation that begins.
    pub fn begin(
        resolved: ResolvedWorkspaceV1,
        runtime_directory: Result<String, WorkspaceRuntimeErrorV1>,
        active: Option<&WorkspaceSchedulerContextV1>,
        current_database: Option<DatabaseFileIdentityV1>,
        maintenance_authorized: bool,
    ) -> (activation: Result<Self, WorkspaceRuntimeErrorV1>)
        ensures
            activation == activation_begins(
                resolved,
                runtime_directory,
                match active {
                    Some(active) => Some(*active),
                    None => None,
                },
                current_database,
                maintenance_authorized,
            ),
            activation matches Ok(activation) ==> activation.wf(),
    {
        let mut reused: Option<WorkspaceBindingV1> = None;
        let mut runtime_directory = runtime_directory;
        if let Some(context) = active {
            match runtime_directory {
                Err(error) => {
                    return Err(error);
                },
                Ok(directory) => {
                    if context.database_path == resolved.database_path && !same_database(
                        context,
                        current_database,
                    ) {
                        return Err(
                            WorkspaceRuntimeErrorV1::Resolution(
                                WorkspaceResolutionErrorV1::RuntimeDatabasePathChangedDuringResolution,
                            ),
                        );
                    }
                    if is_current_context(context, &resolved, current_database, &directory) {
                        reused = Some(copy_binding(&context.binding));
                    }
                    runtime_directory = Ok(directory);
                },
            }
        }
        let reuses_active = reused.is_some();
        Ok(
            ActivationV1 {
                step: if reuses_active {
                    ActivationStepV1::RefreshRegistryOfActive
                } else if maintenance_authorized {
                    ActivationStepV1::ReadConfig
                } else {
                    ActivationStepV1::AcquireRebind
                },
                maintenance_authorized,
                resolved,
                runtime_directory,
                binding_before_open: reused,
                database_identity: None,
                reuses_active,
                rebind_is_held: false,
                worktree_is_revalidated: false,
                store_is_open: false,
                binding_is_confirmed: false,
            },
        )
    }

    /// What an activation does once a step came to the given end.
    pub fn advance(self, event: ActivationEventV1) -> (next: Result<Self, WorkspaceRuntimeErrorV1>)
        requires
            self.wf(),
            activation_event_fits(self.step, event),
        ensures
            next == activation_next(self, event),
            next matches Ok(next) ==> next.wf() && activation_steps_left(next.step)
                < activation_steps_left(self.step),
    {
        let mut activation = self;
        match event {
            ActivationEventV1::Failed(error) => {
                return Err(error);
            },
            ActivationEventV1::RebindRefused => {
                return Err(WorkspaceRuntimeErrorV1::MaintenanceInProgress);
            },
            ActivationEventV1::BindingInspected(actual) => {
                if activation.step == ActivationStepV1::InspectBinding {
                    let binding = match actual {
                        Some(binding) => binding,
                        None => {
                            return Err(
                                WorkspaceRuntimeErrorV1::BindingDisappeared {
                                    database_path: activation.resolved.database_path,
                                },
                            );
                        },
                    };
                    match validate_pre_open_binding(&activation.resolved, &binding) {
                        Ok(()) => {},
                        Err(error) => {
                            return Err(error);
                        },
                    }
                    activation.binding_before_open = Some(binding);
                    activation.step = ActivationStepV1::RevalidateWorktree;
                } else {
                    let expected = expected_binding(&activation.resolved);
                    match require_exact_binding(
                        &activation.resolved.database_path,
                        actual,
                        &expected,
                    ) {
                        Ok(()) => {},
                        Err(error) => {
                            return Err(error);
                        },
                    }
                    activation.binding_is_confirmed = true;
                    activation.step = ActivationStepV1::IdentifyDatabase;
                }
            },
            ActivationEventV1::WorktreeResolved(actual) => {
                match revalidate_before_store_open(&activation.resolved.worktree, &actual) {
                    Ok(()) => {},
                    Err(error) => {
                        return Err(error);
                    },
                }
                activation.worktree_is_revalidated = true;
                activation.step = ActivationStepV1::OpenStore;
            },
            ActivationEventV1::DatabaseIdentified(identity) => {
                if identity.is_none() {
                    return Err(
                        WorkspaceRuntimeErrorV1::Resolution(
                            WorkspaceResolutionErrorV1::RuntimeDatabasePathChangedDuringResolution,
                        ),
                    );
                }
                activation.database_identity = identity;
                activation.step = ActivationStepV1::RefreshRegistry;
            },
            ActivationEventV1::SchedulerPublished { requires_rebind } => {
                activation.step =
                if requires_rebind {
                    ActivationStepV1::RebindContext
                } else {
                    ActivationStepV1::BindGeneration
                };
            },
            ActivationEventV1::Succeeded => {
                match activation.step {
                    ActivationStepV1::RefreshRegistryOfActive => {
                        activation.step = ActivationStepV1::BindGeneration;
                    },
                    ActivationStepV1::AcquireRebind => {
                        activation.rebind_is_held = true;
                        activation.step = ActivationStepV1::ReadConfig;
                    },
                    ActivationStepV1::ReadConfig => {
                        activation.step = ActivationStepV1::InspectBinding;
                    },
                    ActivationStepV1::OpenStore => {
                        activation.store_is_open = true;
                        activation.step = ActivationStepV1::ConfirmBinding;
                    },
                    ActivationStepV1::RefreshRegistry => {
                        match activation.runtime_directory {
                            Ok(directory) => {
                                activation.runtime_directory = Ok(directory);
                            },
                            Err(error) => {
                                return Err(error);
                            },
                        }
                        activation.step = ActivationStepV1::PublishScheduler;
                    },
                    ActivationStepV1::RebindContext => {
                        activation.step = ActivationStepV1::BindGeneration;
                    },
                    ActivationStepV1::BindGeneration => {
                        activation.step = ActivationStepV1::Completed;
                    },
                    _ => {},
                }
            },
        }
        Ok(activation)
    }
}

/// The Store of a workspace is opened only after its binding was found to go with the workspace and
/// Git told of the same worktree once more, and only by whoever has the worktree for a rebind or for
/// maintenance.
pub proof fn a_store_is_opened_only_where_it_belongs(
    activation: ActivationV1,
    event: ActivationEventV1,
)
    requires
        activation.wf(),
        activation_event_fits(activation.step, event),
    ensures
        activation.step is OpenStore ==> activation.binding_before_open is Some
            && activation.worktree_is_revalidated && (activation.rebind_is_held
            || activation.maintenance_authorized),
        activation_next(activation, event) matches Ok(next) ==> {
            &&& next.step is OpenStore ==> (event matches ActivationEventV1::WorktreeResolved(actual)
                && evidence::same_roots(activation.resolved.worktree, actual))
            &&& next.store_is_open && !activation.store_is_open ==> activation.step is OpenStore
            &&& next.step is RevalidateWorktree ==> (next.binding_before_open matches Some(binding)
                && pre_open_verdict(activation.resolved, binding) is Ok)
        },
{
}

/// The registry is told of a workspace only once the Store has confirmed the binding, whether it
/// was opened anew or is in use by the scheduler that is active.
pub proof fn the_registry_is_told_last(activation: ActivationV1, event: ActivationEventV1)
    requires
        activation.wf(),
        activation_event_fits(activation.step, event),
    ensures
        activation.step is RefreshRegistry ==> activation.binding_is_confirmed
            && activation.database_identity is Some,
        activation_next(activation, event) matches Ok(next) && next.binding_is_confirmed
            && !activation.binding_is_confirmed ==> (event matches
            ActivationEventV1::BindingInspected(Some(actual))
            && runtime_workspace::same_binding_spec(
            actual,
            expected_binding_of(activation.resolved),
        )),
{
}

/// An activation comes to its end: every step that does not end it leaves fewer steps to do.
pub proof fn an_activation_comes_to_its_end(activation: ActivationV1, event: ActivationEventV1)
    requires
        activation.wf(),
        activation_event_fits(activation.step, event),
    ensures
        activation_next(activation, event) matches Ok(next) ==> next.wf() && activation_steps_left(
            next.step,
        ) < activation_steps_left(activation.step),
{
}

/// Whether an activation goes through the given states, one step after another.
pub open spec fn is_activation_course(
    states: Seq<ActivationV1>,
    events: Seq<ActivationEventV1>,
) -> bool {
    &&& states.len() == events.len() + 1
    &&& forall|i: int|
        #![trigger events[i]]
        0 <= i < events.len() ==> activation_event_fits(states[i].step, events[i])
            && activation_next(states[i], events[i]) == Ok::<ActivationV1, WorkspaceRuntimeErrorV1>(
            states[i + 1],
        )
}

/// Whether a binding is the one that a resolved workspace has, or had before it was moved.
pub open spec fn is_bound_to(
    binding: WorkspaceBindingV1,
    resolved: ResolvedWorkspaceV1,
    root: Seq<char>,
) -> bool {
    &&& binding.identity.common_dir_identity@ == resolved.store_identity.common_dir_identity@
    &&& binding.identity.workspace_uuid@ == resolved.store_identity.workspace_uuid@
    &&& binding.identity.worktree_admin_identity@
        == resolved.store_identity.worktree_admin_identity@
    &&& binding.last_validated_root@ == root
}

/// Whether two observations of a worktree tell the same roots of the same worktree.
pub open spec fn tell_the_same_worktree(left: GitEvidenceV1, right: GitEvidenceV1) -> bool {
    &&& left.common_directory_fingerprint@ == right.common_directory_fingerprint@
    &&& left.worktree_administration_fingerprint@ == right.worktree_administration_fingerprint@
    &&& left.roots@ == right.roots@
    &&& left.kind@ == right.kind@
    &&& left.containment@ == right.containment@
}

/// An activation is refused at its beginning only for want of a runtime directory beside an active
/// scheduler, or where another database file is at the path that the active scheduler works with and
/// that the workspace resolves to. It goes by the active scheduler exactly where that works with the
/// same binding, path, file, directory and evidence. Otherwise it begins anew, with nothing done: with
/// the rebind, or under maintenance with the configuration.
pub proof fn a_moved_workspace_is_activated_anew(
    resolved: ResolvedWorkspaceV1,
    runtime_directory: Result<String, WorkspaceRuntimeErrorV1>,
    active: Option<WorkspaceSchedulerContextV1>,
    current_database: Option<DatabaseFileIdentityV1>,
    maintenance_authorized: bool,
)
    ensures
        match activation_begins(
            resolved,
            runtime_directory,
            active,
            current_database,
            maintenance_authorized,
        ) {
            Err(error) => active matches Some(context) && match runtime_directory {
                Err(failure) => error == failure,
                Ok(_) => {
                    &&& error == WorkspaceRuntimeErrorV1::Resolution(
                        WorkspaceResolutionErrorV1::RuntimeDatabasePathChangedDuringResolution,
                    )
                    &&& context.database_path@ == resolved.database_path@
                    &&& current_database != Some(context.database_identity)
                },
            },
            Ok(activation) => {
                &&& activation.resolved == resolved
                &&& activation.runtime_directory == runtime_directory
                &&& activation.maintenance_authorized == maintenance_authorized
                &&& activation.database_identity is None
                &&& !activation.rebind_is_held && !activation.worktree_is_revalidated
                &&& !activation.store_is_open && !activation.binding_is_confirmed
                &&& active matches Some(_) ==> runtime_directory is Ok
                &&& activation.reuses_active <==> (active matches Some(context) && (runtime_directory
                    matches Ok(directory) && {
                    &&& is_bound_to(context.binding, resolved, resolved.workspace_root@)
                    &&& context.database_path@ == resolved.database_path@
                    &&& current_database == Some(context.database_identity)
                    &&& context.runtime_directory_path@ == directory@
                    &&& tell_the_same_worktree(context.git_evidence, resolved.worktree)
                    &&& match (context.git_evidence.workspace_uuid, resolved.worktree.workspace_uuid) {
                        (Some(left), Some(right)) => left@ == right@,
                        (None, None) => true,
                        _ => false,
                    }
                }))
                &&& if activation.reuses_active {
                    activation.step is RefreshRegistryOfActive && activation.binding_before_open
                        == Some(active->0.binding)
                } else {
                    activation.binding_before_open is None && if maintenance_authorized {
                        activation.step is ReadConfig
                    } else {
                        activation.step is AcquireRebind
                    }
                }
            },
        },
{
}

/// An activation ends short only for cause: a step failed, the rebind was refused, the binding is gone
/// or does not go with the workspace, Git or the database file has changed, or there is no runtime
/// directory to work with. Otherwise every step leads on.
pub proof fn an_activation_ends_short_only_for_cause(
    activation: ActivationV1,
    event: ActivationEventV1,
)
    requires
        activation.wf(),
        activation_event_fits(activation.step, event),
    ensures
        ({
            let resolved = activation.resolved;
            match activation_next(activation, event) {
                Ok(_) => match event {
                    ActivationEventV1::Failed(_) | ActivationEventV1::RebindRefused => false,
                    ActivationEventV1::BindingInspected(actual) => actual matches Some(binding)
                        && if activation.step is InspectBinding {
                        resolved.previous_root matches Ok(previous) && is_bound_to(
                            binding,
                            resolved,
                            match previous {
                                Some(root) => root@,
                                None => resolved.workspace_root@,
                            },
                        )
                    } else {
                        is_bound_to(binding, resolved, resolved.workspace_root@)
                    },
                    ActivationEventV1::WorktreeResolved(actual) => tell_the_same_worktree(
                        resolved.worktree,
                        actual,
                    ),
                    ActivationEventV1::DatabaseIdentified(identity) => identity is Some,
                    ActivationEventV1::Succeeded => activation.step is RefreshRegistry
                        ==> activation.runtime_directory is Ok,
                    ActivationEventV1::SchedulerPublished { .. } => true,
                },
                Err(error) => match event {
                    ActivationEventV1::Failed(failure) => error == failure,
                    ActivationEventV1::RebindRefused => error
                        == WorkspaceRuntimeErrorV1::MaintenanceInProgress,
                    ActivationEventV1::BindingInspected(None) => error matches
                        WorkspaceRuntimeErrorV1::BindingDisappeared { database_path }
                        && database_path == resolved.database_path,
                    ActivationEventV1::BindingInspected(Some(binding)) => if activation.step
                        is InspectBinding {
                        match resolved.previous_root {
                            Err(_) => true,
                            Ok(previous) => !is_bound_to(
                                binding,
                                resolved,
                                match previous {
                                    Some(root) => root@,
                                    None => resolved.workspace_root@,
                                },
                            ) && (error is BindingIdentityMismatch
                                || error is RebindEvidenceMismatch),
                        }
                    } else {
                        !is_bound_to(binding, resolved, resolved.workspace_root@) && error
                            is BindingMismatch
                    },
                    ActivationEventV1::WorktreeResolved(actual) => !tell_the_same_worktree(
                        resolved.worktree,
                        actual,
                    ) && error is Resolution,
                    ActivationEventV1::DatabaseIdentified(identity) => identity is None && error
                        is Resolution,
                    ActivationEventV1::Succeeded => activation.step is RefreshRegistry
                        && activation.runtime_directory == Err::<String, WorkspaceRuntimeErrorV1>(
                        error,
                    ),
                    ActivationEventV1::SchedulerPublished { .. } => false,
                },
            }
        }),
{
}

/// Whether a step has come to an end that leads on, before the given point of a course.
pub open spec fn has_gone_through(
    states: Seq<ActivationV1>,
    step: ActivationStepV1,
    before: int,
) -> bool {
    exists|i: int| 0 <= i < before && (#[trigger] states[i]).step == step
}

/// Whether an activation has begun anew.
pub open spec fn begins_anew(activation: ActivationV1) -> bool {
    &&& activation.step is AcquireRebind || (activation.step is ReadConfig
        && activation.maintenance_authorized)
    &&& !activation.reuses_active
    &&& !activation.rebind_is_held
    &&& !activation.worktree_is_revalidated
    &&& !activation.store_is_open
    &&& !activation.binding_is_confirmed
    &&& activation.binding_before_open is None
    &&& activation.database_identity is None
}

spec fn activation_came_in_order(
    states: Seq<ActivationV1>,
    events: Seq<ActivationEventV1>,
    at: int,
) -> bool {
    let activation = states[at];
    let step = activation.step;
    let through = |step: ActivationStepV1| has_gone_through(states, step, at);
    let bound = step is Completed;
    let published = step is RebindContext || step is BindGeneration || bound;
    let refreshed = step is PublishScheduler || published;
    let identified = step is RefreshRegistry || refreshed;
    let confirmed = step is IdentifyDatabase || identified;
    let opened = step is ConfirmBinding || confirmed;
    let revalidated = step is OpenStore || opened;
    let inspected = step is RevalidateWorktree || revalidated;
    let configured = step is InspectBinding || inspected;
    let held = step is ReadConfig || configured;
    &&& activation.resolved == states[0].resolved
    &&& activation.maintenance_authorized == states[0].maintenance_authorized
    &&& !activation.reuses_active
    &&& step is AcquireRebind || held
    &&& held ==> activation.maintenance_authorized || through(ActivationStepV1::AcquireRebind)
    &&& configured ==> through(ActivationStepV1::ReadConfig)
    &&& inspected ==> through(ActivationStepV1::InspectBinding)
    &&& revalidated ==> through(ActivationStepV1::RevalidateWorktree)
    &&& opened ==> through(ActivationStepV1::OpenStore)
    &&& confirmed ==> through(ActivationStepV1::ConfirmBinding)
    &&& identified ==> through(ActivationStepV1::IdentifyDatabase)
    &&& refreshed ==> through(ActivationStepV1::RefreshRegistry)
    &&& published ==> through(ActivationStepV1::PublishScheduler)
    &&& bound ==> through(ActivationStepV1::BindGeneration)
    &&& forall|i: int|
        #![trigger events[i]]
        0 <= i < at && events[i] == (ActivationEventV1::SchedulerPublished {
            requires_rebind: true,
        }) && (step is BindGeneration || bound) ==> through(ActivationStepV1::RebindContext)
    &&& forall|i: int|
        #![trigger events[i]]
        0 <= i < at ==> match events[i] {
            ActivationEventV1::BindingInspected(Some(binding)) => if states[i].step
                is InspectBinding {
                states[0].resolved.previous_root matches Ok(previous) && is_bound_to(
                    binding,
                    states[0].resolved,
                    match previous {
                        Some(root) => root@,
                        None => states[0].resolved.workspace_root@,
                    },
                )
            } else {
                is_bound_to(binding, states[0].resolved, states[0].resolved.workspace_root@)
            },
            ActivationEventV1::BindingInspected(None) => false,
            ActivationEventV1::WorktreeResolved(actual) => tell_the_same_worktree(
                states[0].resolved.worktree,
                actual,
            ),
            ActivationEventV1::DatabaseIdentified(identity) => identity is Some,
            ActivationEventV1::Failed(_) | ActivationEventV1::RebindRefused => false,
            _ => true,
        }
    &&& forall|i: int|
        #![trigger events[i]]
        0 <= i < at && events[i] is SchedulerPublished ==> published
}

proof fn every_activation_step_comes_in_order(
    states: Seq<ActivationV1>,
    events: Seq<ActivationEventV1>,
    at: int,
)
    requires
        is_activation_course(states, events),
        begins_anew(states[0]),
        0 <= at < states.len(),
    ensures
        activation_came_in_order(states, events, at),
    decreases at,
{
    if at > 0 {
        every_activation_step_comes_in_order(states, events, at - 1);
        let event = events[at - 1];
        assert(activation_next(states[at - 1], event) == Ok::<ActivationV1, WorkspaceRuntimeErrorV1>(
            states[at - 1 + 1],
        ));
        assert forall|step: ActivationStepV1| #[trigger]
            has_gone_through(states, step, at) == (has_gone_through(states, step,
                at - 1,
            ) || states[at - 1].step == step) by {
            if has_gone_through(states, step, at - 1) {
                let i = choose|i: int| 0 <= i < at - 1 && (#[trigger] states[i]).step == step;
                assert(0 <= i < at && states[i].step == step);
            }
            if states[at - 1].step == step {
                assert(0 <= at - 1 < at && states[at - 1].step == step);
            }
        }
    }
}

/// An activation that began anew completes only through all of it: it had the worktree for a rebind or
/// for maintenance, read the configuration, found the binding that the workspace has or had, found Git
/// to tell the same worktree once more, opened the Store, found the binding that the workspace has now,
/// identified the database, told the registry, published a scheduler, rebound it if that was required,
/// and bound its generation.
pub proof fn a_completed_activation_has_done_it_all(
    states: Seq<ActivationV1>,
    events: Seq<ActivationEventV1>,
    at: int,
)
    requires
        is_activation_course(states, events),
        begins_anew(states[0]),
        0 <= at < states.len(),
        states[at].step is Completed,
    ensures
        states[0].maintenance_authorized || has_gone_through(states, ActivationStepV1::AcquireRebind,
            at,
        ),
        has_gone_through(states, ActivationStepV1::ReadConfig, at),
        has_gone_through(states, ActivationStepV1::InspectBinding, at),
        has_gone_through(states, ActivationStepV1::RevalidateWorktree, at),
        has_gone_through(states, ActivationStepV1::OpenStore, at),
        has_gone_through(states, ActivationStepV1::ConfirmBinding, at),
        has_gone_through(states, ActivationStepV1::IdentifyDatabase, at),
        has_gone_through(states, ActivationStepV1::RefreshRegistry, at),
        has_gone_through(states, ActivationStepV1::PublishScheduler, at),
        has_gone_through(states, ActivationStepV1::BindGeneration, at),
        forall|i: int|
            #![trigger events[i]]
            0 <= i < at && events[i] == (ActivationEventV1::SchedulerPublished {
                requires_rebind: true,
            }) ==> has_gone_through(states, ActivationStepV1::RebindContext, at),
        forall|i: int|
            #![trigger events[i]]
            0 <= i < at && states[i].step is ConfirmBinding ==> (events[i] matches
                ActivationEventV1::BindingInspected(Some(binding)) && is_bound_to(
                binding,
                states[0].resolved,
                states[0].resolved.workspace_root@,
            )),
        forall|i: int|
            #![trigger events[i]]
            0 <= i < at && states[i].step is RevalidateWorktree ==> (events[i] matches
                ActivationEventV1::WorktreeResolved(actual) && tell_the_same_worktree(
                states[0].resolved.worktree,
                actual,
            )),
{
    every_activation_step_comes_in_order(states, events, at);
    assert forall|i: int|
        #![trigger events[i]]
        0 <= i < at && states[i].step is ConfirmBinding implies (events[i] matches
        ActivationEventV1::BindingInspected(Some(binding)) && is_bound_to(
        binding,
        states[0].resolved,
        states[0].resolved.workspace_root@,
    )) by {
        assert(activation_event_fits(states[i].step, events[i]));
    }
    assert forall|i: int|
        #![trigger events[i]]
        0 <= i < at && states[i].step is RevalidateWorktree implies (events[i] matches
        ActivationEventV1::WorktreeResolved(actual) && tell_the_same_worktree(
        states[0].resolved.worktree,
        actual,
    )) by {
        assert(activation_event_fits(states[i].step, events[i]));
    }
}

/// The end of a step that goes well: the binding that the Store had before it was opened, and the
/// database file, are as given; Git and the opened Store tell what the workspace resolved to.
pub open spec fn good_end(
    activation: ActivationV1,
    binding: WorkspaceBindingV1,
    database: DatabaseFileIdentityV1,
    requires_rebind: bool,
) -> ActivationEventV1 {
    match activation.step {
        ActivationStepV1::InspectBinding => ActivationEventV1::BindingInspected(Some(binding)),
        ActivationStepV1::ConfirmBinding => ActivationEventV1::BindingInspected(
            Some(
                WorkspaceBindingV1 {
                    identity: activation.resolved.store_identity,
                    last_validated_root: activation.resolved.workspace_root,
                },
            ),
        ),
        ActivationStepV1::RevalidateWorktree => ActivationEventV1::WorktreeResolved(
            activation.resolved.worktree,
        ),
        ActivationStepV1::IdentifyDatabase => ActivationEventV1::DatabaseIdentified(Some(database)),
        ActivationStepV1::PublishScheduler => ActivationEventV1::SchedulerPublished {
            requires_rebind,
        },
        _ => ActivationEventV1::Succeeded,
    }
}

/// An activation after so many steps that went well.
pub open spec fn after_good_ends(
    activation: ActivationV1,
    binding: WorkspaceBindingV1,
    database: DatabaseFileIdentityV1,
    requires_rebind: bool,
    steps: nat,
) -> Result<ActivationV1, WorkspaceRuntimeErrorV1>
    decreases steps,
{
    if steps == 0 || activation.step is Completed {
        Ok(activation)
    } else {
        match activation_next(
            activation,
            good_end(activation, binding, database, requires_rebind),
        ) {
            Ok(next) => after_good_ends(
                next,
                binding,
                database,
                requires_rebind,
                (steps - 1) as nat,
            ),
            Err(error) => Err(error),
        }
    }
}

proof fn an_activation_completes_in_time(
    activation: ActivationV1,
    binding: WorkspaceBindingV1,
    database: DatabaseFileIdentityV1,
    requires_rebind: bool,
    steps: nat,
)
    requires
        activation.wf(),
        activation.runtime_directory is Ok,
        activation.resolved.previous_root matches Ok(previous) && is_bound_to(
            binding,
            activation.resolved,
            match previous {
                Some(root) => root@,
                None => activation.resolved.workspace_root@,
            },
        ),
        steps >= activation_steps_left(activation.step),
    ensures
        after_good_ends(activation, binding, database, requires_rebind, steps) matches Ok(last)
            && last.step is Completed && last.resolved == activation.resolved
            && last.reuses_active == activation.reuses_active,
    decreases steps,
{
    if !(activation.step is Completed) {
        let event = good_end(activation, binding, database, requires_rebind);
        an_activation_comes_to_its_end(activation, event);
        an_activation_ends_short_only_for_cause(activation, event);
        let next = activation_next(activation, event)->Ok_0;
        an_activation_completes_in_time(next, binding, database, requires_rebind, (steps - 1) as nat);
    }
}

/// An activation completes if its workspace has a runtime directory, the Store is bound to the root
/// that the workspace has or had, and every step goes well: also the one of a workspace that was moved
/// while its scheduler was active, and whether it began anew or goes by the active scheduler.
pub proof fn an_activation_that_goes_well_completes(
    resolved: ResolvedWorkspaceV1,
    directory: String,
    active: Option<WorkspaceSchedulerContextV1>,
    current_database: Option<DatabaseFileIdentityV1>,
    maintenance_authorized: bool,
    binding: WorkspaceBindingV1,
    database: DatabaseFileIdentityV1,
    requires_rebind: bool,
    steps: nat,
)
    requires
        active matches Some(context) ==> context.database_path@ != resolved.database_path@
            || current_database == Some(context.database_identity),
        resolved.previous_root matches Ok(previous) && is_bound_to(
            binding,
            resolved,
            match previous {
                Some(root) => root@,
                None => resolved.workspace_root@,
            },
        ),
        steps >= 11,
    ensures
        activation_begins(
            resolved,
            Ok(directory),
            active,
            current_database,
            maintenance_authorized,
        ) matches Ok(begun) && (after_good_ends(begun, binding, database, requires_rebind, steps)
            matches Ok(last) && last.step is Completed && last.resolved == resolved),
{
    let begun = activation_begins(
        resolved,
        Ok(directory),
        active,
        current_database,
        maintenance_authorized,
    )->Ok_0;
    an_activation_completes_in_time(begun, binding, database, requires_rebind, steps);
}

/// The runtime directory of a workspace is the one that holds its database, exactly if one does and the
/// database is named there as one of a workspace.
pub proof fn a_runtime_directory_holds_its_database(
    database_path: String,
    location: DatabaseLocationV1,
    path: Result<String, WorkspaceRuntimeErrorV1>,
)
    requires
        call_ensures(runtime_directory_path, (&database_path, location), path),
    ensures
        path is Ok <==> location.directory is Some && location.is_named_state,
        path matches Ok(path) ==> location.directory == Some(path),
        path matches Err(error) ==> (if location.directory is None {
            error is RuntimeDirectoryMissing
        } else {
            error is RuntimePathMismatch
        }),
{
}

/// Whether two identities are of the same workspace in the same worktree of the same repository.
pub open spec fn are_one_workspace(
    left: DurableWorktreeIdentityV1,
    right: DurableWorktreeIdentityV1,
) -> bool {
    &&& left.workspace_uuid@ == right.workspace_uuid@
    &&& left.common_dir_identity@ == right.common_dir_identity@
    &&& left.worktree_admin_identity@ == right.worktree_admin_identity@
}

/// A Store is let open exactly if it is bound to the resolved workspace, at the root that the workspace had
/// where Git tells of one, and otherwise at the root that it has.
pub proof fn a_store_is_let_open_for_its_own_workspace(
    resolved: ResolvedWorkspaceV1,
    binding: WorkspaceBindingV1,
    verdict: Result<(), WorkspaceRuntimeErrorV1>,
)
    requires
        call_ensures(validate_pre_open_binding, (&resolved, &binding), verdict),
    ensures
        verdict is Ok <==> are_one_workspace(binding.identity, resolved.store_identity) && (
        resolved.previous_root matches Ok(previous) && (match previous {
            Some(previous) => binding.last_validated_root@ == previous@,
            None => binding.last_validated_root@ == resolved.workspace_root@,
        })),
        verdict matches Err(error) ==> {
            &&& error is BindingIdentityMismatch <==> !are_one_workspace(
                binding.identity,
                resolved.store_identity,
            )
            &&& error is RebindEvidenceMismatch <==> are_one_workspace(
                binding.identity,
                resolved.store_identity,
            ) && resolved.previous_root is Ok
        },
{
}

/// A binding is confirmed exactly if there is one and it is the expected one.
pub proof fn only_the_expected_binding_is_confirmed(
    database_path: String,
    actual: Option<WorkspaceBindingV1>,
    expected: WorkspaceBindingV1,
    verdict: Result<(), WorkspaceRuntimeErrorV1>,
)
    requires
        call_ensures(require_exact_binding, (&database_path, actual, &expected), verdict),
    ensures
        verdict is Ok <==> (actual matches Some(actual) && are_one_workspace(
            actual.identity,
            expected.identity,
        ) && actual.last_validated_root@ == expected.last_validated_root@),
        verdict matches Err(error) ==> (if actual is None {
            error is BindingDisappeared
        } else {
            error is BindingMismatch
        }),
{
}

/// A scheduler is used for a read exactly if it works with just what the workspace resolves to: the same
/// workspace at the same root, the same database at the same path, the same runtime directory, in the same
/// worktree.
pub proof fn a_current_scheduler_works_with_what_resolves(
    context: WorkspaceSchedulerContextV1,
    resolved: ResolvedWorkspaceV1,
    database_identity: Option<DatabaseFileIdentityV1>,
    runtime_directory: String,
    current: bool,
)
    requires
        call_ensures(
            is_current_context,
            (&context, &resolved, database_identity, &runtime_directory),
            current,
        ),
    ensures
        current <==> {
            &&& are_one_workspace(context.binding.identity, resolved.store_identity)
            &&& context.binding.last_validated_root@ == resolved.workspace_root@
            &&& context.database_path@ == resolved.database_path@
            &&& database_identity == Some(context.database_identity)
            &&& context.runtime_directory_path@ == runtime_directory@
            &&& tell_the_same_worktree(context.git_evidence, resolved.worktree)
            &&& match (context.git_evidence.workspace_uuid, resolved.worktree.workspace_uuid) {
                (Some(left), Some(right)) => left@ == right@,
                (None, None) => true,
                _ => false,
            }
        },
{
}

/// A scheduler has to retire exactly if another database is at the path of its own, its workspace does not
/// resolve, or resolves to another identity.
pub proof fn a_scheduler_retires_only_for_cause(
    key: WorkspaceSchedulerKeyV1,
    generation: SchedulerGenerationV1,
    context: WorkspaceSchedulerContextV1,
    database_identity: Option<DatabaseFileIdentityV1>,
    of_database: Option<WorkspaceSchedulerRevalidationV1>,
    resolved: Result<DurableWorktreeIdentityV1, WorkspaceResolutionErrorV1>,
    of_workspace: WorkspaceSchedulerRevalidationV1,
)
    requires
        call_ensures(
            revalidate_scheduler_database,
            (&key, generation, &context, database_identity),
            of_database,
        ),
        call_ensures(revalidate_scheduler, (&key, generation, resolved), of_workspace),
    ensures
        of_database is Some <==> (database_identity matches Some(identity) && identity
            != context.database_identity),
        of_database matches Some(revalidation) ==> (revalidation matches
            WorkspaceSchedulerRevalidationV1::RetireRequired { key: told, generation: at, .. } && told
            == key && at == generation),
        of_workspace is Current <==> (resolved matches Ok(identity) && key.workspace_uuid@
            == identity.workspace_uuid@ && key.common_directory_digest@
            == identity.common_dir_identity@ && key.worktree_administration_digest@
            == identity.worktree_admin_identity@),
        of_workspace matches WorkspaceSchedulerRevalidationV1::RetireRequired {
            key: told,
            generation: at,
            source,
        } ==> told == key && at == generation && (resolved matches Err(error) ==> source == error),
{
}

/// A registry can be told of the root that a workspace is at exactly if the root is short enough and the
/// workspace is registered at it, is registered at the root that it is known to have left, is known to have
/// been at it all along, or is not registered while there is room.
pub proof fn a_registry_is_told_of_a_root_it_can_hold(
    registry: WorkspaceRegistryV1,
    workspace_uuid: Seq<char>,
    relocated: bool,
    binding_root: Seq<char>,
    current_root: Seq<char>,
)
    ensures
        registry_is_refreshed(registry, workspace_uuid, relocated, binding_root, current_root)
            <==> vstd::utf8::encode_utf8(current_root).len() <= 4_096 && (
        if !registry.says().dom().contains(workspace_uuid) {
            registry@.len() < 10_000
        } else {
            registry.says()[workspace_uuid].0 == current_root || (relocated
                && registry.says()[workspace_uuid].0 == binding_root) || (!relocated
                && binding_root == current_root)
        }),
{
}

} // verus!
