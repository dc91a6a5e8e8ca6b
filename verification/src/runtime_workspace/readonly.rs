//! Workspaces that are resolved for a read.

use crate::registry_store::RegistryStoreV1;
use crate::runtime_workspace::activation;
use crate::runtime_workspace::activation::{
    expected_binding, is_current_context, ResolvedWorkspaceV1,
};
use crate::runtime_workspace::context::{
    DatabaseFileIdentityV1, StoreOptionsV1, WorkspaceSchedulerContextV1,
};
use crate::runtime_workspace::evidence::GitEvidenceV1;
use crate::runtime_workspace::{WorkspaceBindingV1, WorkspaceRuntimeErrorV1};
use vstd::prelude::*;

verus! {

/// The instants at which an operation on a workspace writes: one for the Store, one for the
/// registry.
#[derive(Clone, Debug, PartialEq, Eq)]
pub struct WorkspaceRuntimeObservationV1 {
    store_now: u64,
    registry_seen_at: String,
}

impl WorkspaceRuntimeObservationV1 {
    /// The instant of the Store, in milliseconds since the start of 1970.
    pub closed spec fn store_millis(self) -> u64 {
        self.store_now
    }

    /// The instant of the registry.
    pub closed spec fn registry_text(self) -> String {
        self.registry_seen_at
    }

    /// The given instants.
    pub fn new(store_now: u64, registry_seen_at: String) -> (observation: Self)
        ensures
            observation.store_millis() == store_now,
            observation.registry_text() == registry_seen_at,
    {
        WorkspaceRuntimeObservationV1 { store_now, registry_seen_at }
    }

    /// The instant of the Store.
    pub fn store_now(&self) -> (now: u64)
        ensures
            now == self.store_millis(),
    {
        self.store_now
    }

    /// The instant of the registry.
    pub fn registry_seen_at(&self) -> (seen_at: &String)
        ensures
            *seen_at == self.registry_text(),
    {
        &self.registry_seen_at
    }
}

/// A registry that can only be observed.
#[derive(Clone, Copy)]
pub struct WorkspaceRegistryReadFacadeV1<'a> {
    registry: &'a RegistryStoreV1,
}

impl<'a> WorkspaceRegistryReadFacadeV1<'a> {
    /// The registry that is observed.
    pub closed spec fn observed(self) -> RegistryStoreV1 {
        *self.registry
    }

    /// Observes a registry.
    pub fn new(registry: &'a RegistryStoreV1) -> (facade: Self)
        ensures
            facade.observed() == *registry,
    {
        WorkspaceRegistryReadFacadeV1 { registry }
    }

    /// The path of the registry.
    pub fn registry_path(&self) -> (path: &String)
        ensures
            *path == self.observed().registry_path,
    {
        self.registry.registry_path()
    }
}

/// A workspace that was resolved for a read. It neither creates a scheduler nor tells the registry
/// anything; a scheduler that is active comes with it only if it works with just what was resolved.
#[derive(Debug, PartialEq, Eq)]
pub struct ReadonlyWorkspaceResolutionV1<Scheduler> {
    pub binding: WorkspaceBindingV1,
    pub workspace_root: String,
    pub database_path: String,
    pub store_options: StoreOptionsV1,
    pub worktree: GitEvidenceV1,
    pub active_scheduler: Option<Scheduler>,
}

/// Whether a workspace was resolved for a read as it should be.
pub open spec fn is_readonly_resolution<Scheduler>(
    resolved: ResolvedWorkspaceV1,
    runtime_directory: Seq<char>,
    store_options: StoreOptionsV1,
    active: Option<(Scheduler, WorkspaceSchedulerContextV1)>,
    database_identity: Option<DatabaseFileIdentityV1>,
    resolution: ReadonlyWorkspaceResolutionV1<Scheduler>,
) -> bool {
    &&& resolution.binding == activation::expected_binding_of(resolved)
    &&& resolution.workspace_root == resolved.workspace_root
    &&& resolution.database_path == resolved.database_path
    &&& resolution.store_options == store_options
    &&& resolution.worktree == resolved.worktree
    &&& resolution.active_scheduler == match active {
        Some((scheduler, context)) => if activation::context_is_current(
            context,
            resolved,
            database_identity,
            runtime_directory,
        ) {
            Some(scheduler)
        } else {
            None
        },
        None => None,
    }
}

/// A workspace that was resolved for a read.
pub fn resolve_existing_readonly<Scheduler>(
    resolved: ResolvedWorkspaceV1,
    runtime_directory: Result<String, WorkspaceRuntimeErrorV1>,
    store_options: StoreOptionsV1,
    active: Option<(Scheduler, &WorkspaceSchedulerContextV1)>,
    database_identity: Option<DatabaseFileIdentityV1>,
) -> (resolution: Result<ReadonlyWorkspaceResolutionV1<Scheduler>, WorkspaceRuntimeErrorV1>)
    ensures
        match (runtime_directory, resolution) {
            (Ok(directory), Ok(resolution)) => is_readonly_resolution(
                resolved,
                directory@,
                store_options,
                match active {
                    Some((scheduler, context)) => Some((scheduler, *context)),
                    None => None,
                },
                database_identity,
                resolution,
            ),
            (Err(error), Err(returned)) => returned == error,
            _ => false,
        },
{
    let binding = expected_binding(&resolved);
    let directory = match runtime_directory {
        Ok(directory) => directory,
        Err(error) => {
            return Err(error);
        },
    };
    let active_scheduler = match active {
        Some((scheduler, context)) => if is_current_context(
            context,
            &resolved,
            database_identity,
            &directory,
        ) {
            Some(scheduler)
        } else {
            None
        },
        None => None,
    };
    Ok(
        ReadonlyWorkspaceResolutionV1 {
            binding,
            workspace_root: resolved.workspace_root,
            database_path: resolved.database_path,
            store_options,
            worktree: resolved.worktree,
            active_scheduler,
        },
    )
}

impl<Scheduler> ReadonlyWorkspaceResolutionV1<Scheduler> {
    /// The identity of the workspace, and its root.
    pub fn binding(&self) -> (binding: &WorkspaceBindingV1)
        ensures
            *binding == self.binding,
    {
        &self.binding
    }

    /// The root of the workspace.
    pub fn workspace_root(&self) -> (root: &String)
        ensures
            *root == self.workspace_root,
    {
        &self.workspace_root
    }

    /// The path of the database.
    pub fn database_path(&self) -> (path: &String)
        ensures
            *path == self.database_path,
    {
        &self.database_path
    }

    /// The options that the Store may be opened with.
    pub fn store_options(&self) -> (options: StoreOptionsV1)
        ensures
            options == self.store_options,
    {
        self.store_options
    }

    /// What Git told of the worktree.
    pub fn worktree(&self) -> (worktree: &GitEvidenceV1)
        ensures
            *worktree == self.worktree,
    {
        &self.worktree
    }

    /// The scheduler that is active, if it works with just what was resolved.
    pub fn active_scheduler(&self) -> (scheduler: Option<&Scheduler>)
        ensures
            match (scheduler, self.active_scheduler) {
                (Some(scheduler), Some(held)) => *scheduler == held,
                (None, None) => true,
                _ => false,
            },
    {
        match &self.active_scheduler {
            Some(scheduler) => Some(scheduler),
            None => None,
        }
    }
}

/// A workspace is resolved for a read exactly if it has a runtime directory, as what it resolved to. A
/// scheduler that is active comes with it exactly if it works with just that.
pub proof fn a_read_uses_only_a_current_scheduler<Scheduler>(
    resolved: ResolvedWorkspaceV1,
    runtime_directory: Result<String, WorkspaceRuntimeErrorV1>,
    store_options: StoreOptionsV1,
    scheduler: Scheduler,
    context: WorkspaceSchedulerContextV1,
    database_identity: Option<DatabaseFileIdentityV1>,
    resolution: Result<ReadonlyWorkspaceResolutionV1<Scheduler>, WorkspaceRuntimeErrorV1>,
    directory: String,
    current: bool,
)
    requires
        call_ensures(
            resolve_existing_readonly::<Scheduler>,
            (
                resolved,
                runtime_directory,
                store_options,
                Some((scheduler, &context)),
                database_identity,
            ),
            resolution,
        ),
        call_ensures(
            is_current_context,
            (&context, &resolved, database_identity, &directory),
            current,
        ),
    ensures
        resolution is Ok <==> runtime_directory is Ok,
        resolution matches Ok(resolution) ==> {
            &&& resolution.binding.identity == resolved.store_identity
            &&& resolution.binding.last_validated_root == resolved.workspace_root
            &&& resolution.workspace_root == resolved.workspace_root
            &&& resolution.database_path == resolved.database_path
            &&& resolution.store_options == store_options
            &&& resolution.worktree == resolved.worktree
            &&& resolution.active_scheduler matches Some(active) ==> active == scheduler
            &&& runtime_directory == Ok::<String, WorkspaceRuntimeErrorV1>(directory) ==> (
            resolution.active_scheduler is Some <==> current)
        },
        resolution matches Err(error) ==> runtime_directory == Err::<
            String,
            WorkspaceRuntimeErrorV1,
        >(error),
{
}

} // verus!
