//! What a scheduler works with, and how it stops working.

use crate::runtime_workspace;
use crate::runtime_workspace::evidence;
use crate::runtime_workspace::evidence::{same_evidence, GitEvidenceV1};
use crate::runtime_workspace::maintenance;
use crate::runtime_workspace::maintenance::{
    copy_retirement_binding, WorkspaceMaintenanceCoordinatorV1, WorkspaceMaintenanceKeyV1,
    WorkspaceSchedulerRetirementBindingV1,
};
use crate::runtime_workspace::store_slot::WorkspaceStoreSlotTokenV1;
use crate::runtime_workspace::{same_binding, WorkspaceBindingV1};
use crate::scheduler::{SchedulerGenerationV1, WorkspaceSchedulerKeyV1};
use crate::store::copy_identity;
use vstd::prelude::*;

verus! {

/// What tells a database file apart from every other file that there is at the same time.
#[derive(Clone, Copy, Debug, PartialEq, Eq, Structural)]
pub struct DatabaseFileIdentityV1 {
    pub device: u64,
    pub inode: u64,
}

/// The options that a Store is opened with.
#[derive(Clone, Copy, Debug, PartialEq, Eq, Structural)]
pub struct StoreOptionsV1 {
    pub queue_limit: u32,
    pub busy_timeout_ms: u64,
}

/// An admitted workspace configuration: the length of its queue, and the text of everything that it
/// says.
#[derive(Clone, Debug, PartialEq, Eq)]
pub struct AdmittedConfigV1 {
    pub max_pending: u16,
    pub text: String,
}

/// Whether a scheduler takes claims, whether it has to recover, and how often it was notified.
#[derive(Clone, Copy, Debug, PartialEq, Eq, Structural)]
pub struct WorkspaceSchedulerCoordinationStateV1 {
    pub accepting_claims: bool,
    pub recovery_required: bool,
    pub notification_version: u64,
}

/// What one generation of a scheduler works with. Paths are held as texts that tell them apart.
#[derive(Clone, Debug, PartialEq, Eq)]
pub struct WorkspaceSchedulerContextV1 {
    pub binding: WorkspaceBindingV1,
    pub workspace_root: String,
    pub database_path: String,
    pub database_identity: DatabaseFileIdentityV1,
    pub runtime_directory_path: String,
    pub store_slot: WorkspaceStoreSlotTokenV1,
    pub store_options: StoreOptionsV1,
    pub config: AdmittedConfigV1,
    pub queue_limit: u16,
    pub git_evidence: GitEvidenceV1,
    pub coordination: WorkspaceSchedulerCoordinationStateV1,
    pub retirement: Option<WorkspaceSchedulerRetirementBindingV1>,
}

/// What a scheduler context is made from.
#[derive(Clone, Debug, PartialEq, Eq)]
pub struct WorkspaceSchedulerContextInputV1 {
    pub binding: WorkspaceBindingV1,
    pub database_path: String,
    pub database_identity: DatabaseFileIdentityV1,
    pub runtime_directory_path: String,
    pub store_slot: WorkspaceStoreSlotTokenV1,
    pub store_options: StoreOptionsV1,
    pub config: AdmittedConfigV1,
    pub git_evidence: GitEvidenceV1,
}

impl WorkspaceSchedulerCoordinationStateV1 {
    /// The state of a scheduler that begins: it takes claims, and was not notified yet.
    pub fn new() -> (state: Self)
        ensures
            state == (WorkspaceSchedulerCoordinationStateV1 {
                accepting_claims: true,
                recovery_required: false,
                notification_version: 0,
            }),
    {
        WorkspaceSchedulerCoordinationStateV1 {
            accepting_claims: true,
            recovery_required: false,
            notification_version: 0,
        }
    }

    /// The number of the notification after the given one. After the last number comes 0 again.
    pub open spec fn next_version(version: u64) -> int {
        if version == u64::MAX {
            0
        } else {
            version + 1
        }
    }

    /// Notifies of an authoritative change.
    pub fn notify_after_authoritative_change(&mut self)
        ensures
            final(self).notification_version == Self::next_version(old(self).notification_version),
            final(self).notification_version != old(self).notification_version,
            final(self).accepting_claims == old(self).accepting_claims,
            final(self).recovery_required == old(self).recovery_required,
    {
        self.notification_version = self.notification_version.wrapping_add(1);
    }

    /// Whether whoever has observed the given notification waits for the next one. Whoever has
    /// missed one does not wait.
    pub fn waits_for_notification_after(&self, observed: u64) -> (waits: bool)
        ensures
            waits == (self.notification_version == observed),
    {
        self.notification_version == observed
    }
}

/// Whether two contexts work with the same, apart from the Store handle, the coordination and the
/// retirement, which are their own.
pub open spec fn same_settings(
    left: WorkspaceSchedulerContextV1,
    right: WorkspaceSchedulerContextV1,
) -> bool {
    &&& runtime_workspace::same_binding_spec(left.binding, right.binding)
    &&& left.workspace_root@ == right.workspace_root@
    &&& left.database_path@ == right.database_path@
    &&& left.database_identity == right.database_identity
    &&& left.runtime_directory_path@ == right.runtime_directory_path@
    &&& left.store_options == right.store_options
    &&& left.config.max_pending == right.config.max_pending
    &&& left.config.text@ == right.config.text@
    &&& left.queue_limit == right.queue_limit
    &&& evidence::same_evidence_spec(left.git_evidence, right.git_evidence)
}

/// Whether a scheduler has to be rebound to a new context: it works with something else.
pub fn context_requires_rebind(
    current: &WorkspaceSchedulerContextV1,
    candidate: &WorkspaceSchedulerContextV1,
) -> (required: bool)
    ensures
        required == !same_settings(*current, *candidate),
{
    !same_binding(&current.binding, &candidate.binding) || current.workspace_root
        != candidate.workspace_root || current.database_path != candidate.database_path
        || current.database_identity != candidate.database_identity
        || current.runtime_directory_path != candidate.runtime_directory_path
        || current.store_options != candidate.store_options || current.config.max_pending
        != candidate.config.max_pending || current.config.text != candidate.config.text
        || current.queue_limit != candidate.queue_limit || !same_evidence(
        &current.git_evidence,
        &candidate.git_evidence,
    )
}

impl WorkspaceSchedulerContextV1 {
    /// The context of a scheduler that begins. Its root is the one that the Store last validated,
    /// and its queue is as long as the configuration says.
    pub fn new(input: WorkspaceSchedulerContextInputV1) -> (context: Self)
        ensures
            context == (WorkspaceSchedulerContextV1 {
                binding: input.binding,
                workspace_root: input.binding.last_validated_root,
                database_path: input.database_path,
                database_identity: input.database_identity,
                runtime_directory_path: input.runtime_directory_path,
                store_slot: input.store_slot,
                store_options: input.store_options,
                config: input.config,
                queue_limit: input.config.max_pending,
                git_evidence: input.git_evidence,
                coordination: WorkspaceSchedulerCoordinationStateV1 {
                    accepting_claims: true,
                    recovery_required: false,
                    notification_version: 0,
                },
                retirement: None,
            }),
    {
        let queue_limit = input.config.max_pending;
        let workspace_root = input.binding.last_validated_root.clone();
        WorkspaceSchedulerContextV1 {
            binding: input.binding,
            workspace_root,
            database_path: input.database_path,
            database_identity: input.database_identity,
            runtime_directory_path: input.runtime_directory_path,
            store_slot: input.store_slot,
            store_options: input.store_options,
            config: input.config,
            queue_limit,
            git_evidence: input.git_evidence,
            coordination: WorkspaceSchedulerCoordinationStateV1::new(),
            retirement: None,
        }
    }

    /// The identity that the context is bound to, and the root at which a Store last validated it.
    pub fn binding(&self) -> (binding: &WorkspaceBindingV1)
        ensures
            *binding == self.binding,
    {
        &self.binding
    }

    /// The root of the workspace.
    pub fn workspace_root(&self) -> (root: &String)
        ensures
            *root == self.workspace_root,
    {
        &self.workspace_root
    }

    /// The path of the database.
    pub fn database_path(&self) -> (path: &String)
        ensures
            *path == self.database_path,
    {
        &self.database_path
    }

    /// The path of the runtime directory.
    pub fn runtime_directory_path(&self) -> (path: &String)
        ensures
            *path == self.runtime_directory_path,
    {
        &self.runtime_directory_path
    }

    /// The options that the Store was opened with.
    pub fn store_options(&self) -> (options: StoreOptionsV1)
        ensures
            options == self.store_options,
    {
        self.store_options
    }

    /// The configuration of the workspace.
    pub fn config(&self) -> (config: &AdmittedConfigV1)
        ensures
            *config == self.config,
    {
        &self.config
    }

    /// How many jobs may wait.
    pub fn queue_limit(&self) -> (limit: u16)
        ensures
            limit == self.queue_limit,
    {
        self.queue_limit
    }

    /// What Git told of the worktree.
    pub fn git_evidence(&self) -> (worktree: &GitEvidenceV1)
        ensures
            *worktree == self.git_evidence,
    {
        &self.git_evidence
    }

    /// Whether the scheduler has to recover.
    pub fn recovery_required(&self) -> (required: bool)
        ensures
            required == self.coordination.recovery_required,
    {
        self.coordination.recovery_required
    }

    /// Has the scheduler recover.
    pub fn mark_recovery_required(&mut self)
        ensures
            *final(self) == (WorkspaceSchedulerContextV1 {
                coordination: WorkspaceSchedulerCoordinationStateV1 {
                    recovery_required: true,
                    ..old(self).coordination
                },
                ..*old(self)
            }),
    {
        self.coordination.recovery_required = true;
    }

    /// The retirement of the given generation of the scheduler.
    pub open spec fn retirement_of(
        self,
        key: WorkspaceSchedulerKeyV1,
        generation: SchedulerGenerationV1,
    ) -> WorkspaceSchedulerRetirementBindingV1 {
        WorkspaceSchedulerRetirementBindingV1 {
            key,
            generation,
            source: self.binding.identity,
            store_slot: self.store_slot,
        }
    }

    /// Has the coordinator keep a record of the generation that works with the context. A context
    /// that is recorded already stays recorded as it is.
    pub fn bind_maintenance_generation(
        &mut self,
        coordinator: &mut WorkspaceMaintenanceCoordinatorV1,
        key: WorkspaceSchedulerKeyV1,
        generation: SchedulerGenerationV1,
    )
        requires
            old(coordinator).wf(),
        ensures
            final(coordinator).wf(),
            old(self).retirement is Some ==> *final(self) == *old(self) && *final(coordinator)
                == *old(coordinator),
            old(self).retirement is None ==> {
                &&& *final(self) == (WorkspaceSchedulerContextV1 {
                    retirement: Some(old(self).retirement_of(key, generation)),
                    ..*old(self)
                })
                &&& final(coordinator).changes_only_record(
                    *old(coordinator),
                    old(self).store_slot.number,
                )
                &&& final(coordinator).generation(old(self).store_slot.number) == match
                    old(coordinator).generation(old(self).store_slot.number) {
                    Some(record) => Some(record),
                    None => Some(
                        maintenance::WorkspaceSchedulerRetirementStateV1 {
                            binding: old(self).retirement_of(key, generation),
                            claims_stopped: false,
                            work_drained: false,
                            store_closed: false,
                        },
                    ),
                }
            },
    {
        if self.retirement.is_some() {
            return ;
        }
        let retirement = WorkspaceSchedulerRetirementBindingV1 {
            key,
            generation,
            source: copy_identity(&self.binding.identity),
            store_slot: self.store_slot,
        };
        self.retirement = Some(copy_retirement_binding(&retirement));
        coordinator.register_scheduler_generation(retirement);
    }

    /// Begins a claim, if the scheduler takes claims and the worktree lets it. Returns whether it
    /// began.
    pub fn begin_claim(&self, coordinator: &mut WorkspaceMaintenanceCoordinatorV1) -> (began: bool)
        requires
            old(coordinator).wf(),
            old(coordinator).leases(maintenance::identity_key(self.binding.identity)).claims
                < usize::MAX,
        ensures
            final(coordinator).wf(),
            began == (self.coordination.accepting_claims && maintenance::work_may_begin(
                old(coordinator).leases(maintenance::identity_key(self.binding.identity)),
            )),
            final(coordinator).changes_only_leases(
                *old(coordinator),
                maintenance::identity_key(self.binding.identity),
            ),
            final(coordinator).leases(maintenance::identity_key(self.binding.identity)) == if began {
                maintenance::WorktreeLeasesV1 {
                    claims: (old(coordinator).leases(
                        maintenance::identity_key(self.binding.identity),
                    ).claims + 1) as usize,
                    ..old(coordinator).leases(maintenance::identity_key(self.binding.identity))
                }
            } else {
                old(coordinator).leases(maintenance::identity_key(self.binding.identity))
            },
    {
        if !self.coordination.accepting_claims {
            return false;
        }
        let key = WorkspaceMaintenanceKeyV1::from_durable_identity(&self.binding.identity);
        coordinator.acquire_claim(&key)
    }

    /// Has the scheduler take no more claims, and records it.
    pub fn stop_claims(&mut self, coordinator: &mut WorkspaceMaintenanceCoordinatorV1)
        requires
            old(coordinator).wf(),
        ensures
            final(coordinator).wf(),
            *final(self) == (WorkspaceSchedulerContextV1 {
                coordination: WorkspaceSchedulerCoordinationStateV1 {
                    accepting_claims: false,
                    ..old(self).coordination
                },
                ..*old(self)
            }),
            match old(self).retirement {
                None => *final(coordinator) == *old(coordinator),
                Some(binding) => {
                    &&& final(coordinator).changes_only_record(
                        *old(coordinator),
                        binding.store_slot.number,
                    )
                    &&& final(coordinator).generation(binding.store_slot.number) == match
                        old(coordinator).generation(binding.store_slot.number) {
                        Some(record) if maintenance::is_record_of(record, binding) => Some(
                            maintenance::WorkspaceSchedulerRetirementStateV1 {
                                claims_stopped: true,
                                ..record
                            },
                        ),
                        other => other,
                    }
                },
            },
    {
        self.coordination.accepting_claims = false;
        if let Some(retirement) = &self.retirement {
            coordinator.record_claims_stopped(retirement);
        }
    }

    /// Retires the context once its Store was closed, or could not be: its claims are stopped, its
    /// work is drained, and its Store counts as closed only if it was closed without an error.
    pub fn retire(
        &mut self,
        coordinator: &mut WorkspaceMaintenanceCoordinatorV1,
        store_closed: bool,
    )
        requires
            old(coordinator).wf(),
        ensures
            final(coordinator).wf(),
            *final(self) == (WorkspaceSchedulerContextV1 {
                coordination: WorkspaceSchedulerCoordinationStateV1 {
                    accepting_claims: false,
                    ..old(self).coordination
                },
                ..*old(self)
            }),
            match old(self).retirement {
                None => *final(coordinator) == *old(coordinator),
                Some(binding) => {
                    &&& final(coordinator).changes_only_record(
                        *old(coordinator),
                        binding.store_slot.number,
                    )
                    &&& final(coordinator).generation(binding.store_slot.number) == match
                        old(coordinator).generation(binding.store_slot.number) {
                        Some(record) if maintenance::is_record_of(record, binding) => Some(
                            maintenance::WorkspaceSchedulerRetirementStateV1 {
                                claims_stopped: true,
                                work_drained: true,
                                store_closed: store_closed || record.store_closed,
                                ..record
                            },
                        ),
                        other => other,
                    }
                },
            },
    {
        self.stop_claims(coordinator);
        if let Some(retirement) = &self.retirement {
            coordinator.record_work_drained(retirement);
            coordinator.record_store_close_result(retirement, store_closed);
        }
    }
}

/// A scheduler keeps its context exactly if the new one works with the same: the same workspace at the same
/// root, the same database, directory, options and configuration, in the same worktree.
pub proof fn a_context_is_rebound_only_for_another(
    current: WorkspaceSchedulerContextV1,
    candidate: WorkspaceSchedulerContextV1,
    required: bool,
)
    requires
        call_ensures(context_requires_rebind, (&current, &candidate), required),
    ensures
        !required <==> {
            &&& current.binding.identity.workspace_uuid@
                == candidate.binding.identity.workspace_uuid@
            &&& current.binding.identity.common_dir_identity@
                == candidate.binding.identity.common_dir_identity@
            &&& current.binding.identity.worktree_admin_identity@
                == candidate.binding.identity.worktree_admin_identity@
            &&& current.binding.last_validated_root@ == candidate.binding.last_validated_root@
            &&& current.workspace_root@ == candidate.workspace_root@
            &&& current.database_path@ == candidate.database_path@
            &&& current.database_identity == candidate.database_identity
            &&& current.runtime_directory_path@ == candidate.runtime_directory_path@
            &&& current.store_options == candidate.store_options
            &&& current.config.max_pending == candidate.config.max_pending
            &&& current.config.text@ == candidate.config.text@
            &&& current.queue_limit == candidate.queue_limit
            &&& current.git_evidence.common_directory_fingerprint@
                == candidate.git_evidence.common_directory_fingerprint@
            &&& current.git_evidence.worktree_administration_fingerprint@
                == candidate.git_evidence.worktree_administration_fingerprint@
            &&& current.git_evidence.roots@ == candidate.git_evidence.roots@
            &&& current.git_evidence.kind@ == candidate.git_evidence.kind@
            &&& current.git_evidence.containment@ == candidate.git_evidence.containment@
            &&& match (current.git_evidence.workspace_uuid, candidate.git_evidence.workspace_uuid) {
                (Some(left), Some(right)) => left@ == right@,
                (None, None) => true,
                _ => false,
            }
        },
{
}

/// A context begins at the root that its Store last validated, with the queue that its configuration asks
/// for. It takes claims, has nothing to recover, and is not recorded as retiring.
pub proof fn a_context_begins_open_for_claims(
    input: WorkspaceSchedulerContextInputV1,
    context: WorkspaceSchedulerContextV1,
)
    requires
        call_ensures(WorkspaceSchedulerContextV1::new, (input,), context),
    ensures
        context.binding == input.binding,
        context.workspace_root == input.binding.last_validated_root,
        context.database_path == input.database_path,
        context.database_identity == input.database_identity,
        context.runtime_directory_path == input.runtime_directory_path,
        context.store_slot == input.store_slot,
        context.store_options == input.store_options,
        context.config == input.config,
        context.queue_limit == input.config.max_pending,
        context.git_evidence == input.git_evidence,
        context.coordination.accepting_claims,
        !context.coordination.recovery_required,
        context.coordination.notification_version == 0,
        context.retirement is None,
{
}

/// The retirement of a generation is recorded for the workspace that its context is bound to, and for the
/// Store that it works on.
pub proof fn a_retirement_is_of_its_own_store(
    context: WorkspaceSchedulerContextV1,
    key: WorkspaceSchedulerKeyV1,
    generation: SchedulerGenerationV1,
)
    ensures
        context.retirement_of(key, generation).key == key,
        context.retirement_of(key, generation).generation == generation,
        context.retirement_of(key, generation).source == context.binding.identity,
        context.retirement_of(key, generation).store_slot == context.store_slot,
{
}

} // verus!
