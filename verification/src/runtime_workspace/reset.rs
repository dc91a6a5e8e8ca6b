//! The reset of a workspace: what it starts from, and the order in which it is performed.
//!
//! A reset replaces the workspace of a worktree by another one. It survives a crash at any point,
//! because a durable marker tells of it from before anything is destroyed until everything is done.
//! Before each step that cannot be undone, the registry is asked once more whether the workspace to
//! be replaced is still the registered one.

use crate::registry::{WorkspaceRegistryEntryV1, WorkspaceRegistryV1};
use crate::runtime_workspace::evidence;
use crate::runtime_workspace::evidence::{
    maintenance_key_from_worktree, same_git_root_evidence, GitEvidenceV1,
};
use crate::runtime_workspace::maintenance;
use crate::runtime_workspace::maintenance::{
    WorkspaceMaintenanceCoordinatorV1, WorkspaceMaintenanceKeyV1,
};
use crate::runtime_workspace::WorkspaceRuntimeErrorV1;
use crate::store;
use crate::store::{
    copy_identity, same_identity, DurableWorktreeIdentityV1, PersistedResponseContextV1,
    PersistedTerminalReceiptV1, StoreErrorV1,
};
use crate::workspace;
use crate::workspace::{copy_marker, same_marker, ResetMarkerV1, WorkspaceResolutionErrorV1};
use vstd::prelude::*;

verus! {

/// A point of a reset at which a test may have the process die.
#[derive(Clone, Copy, Debug, PartialEq, Eq, Structural)]
pub enum ResetAllCrashBoundaryV1 {
    MarkerCreated,
    OldDatabaseDeleted,
    NewTargetDatabaseCreated,
}

/// What looking at the Store of the workspace to be reset came to. An error is held as the text
/// that it is told by.
#[derive(Clone, Debug, PartialEq, Eq)]
pub enum ResetStoreInspectionV1 {
    Readable,
    Absent,
    Unreadable { error: String },
}

/// What a reset starts from. The registered workspace only tells which registration is replaced;
/// the identity is there where the Store could be read.
#[derive(Clone, Debug, PartialEq, Eq)]
pub struct ResetSourceAuthorityV1 {
    pub worktree: GitEvidenceV1,
    pub registry_previous_workspace_uuid: String,
    pub persisted_identity: Option<DurableWorktreeIdentityV1>,
    pub store_inspection: ResetStoreInspectionV1,
}

/// That a Store is not available, and why. Only a reset may go on without a Store, and only with
/// this.
#[derive(Clone, Debug, PartialEq, Eq)]
pub enum UnavailableStoreV1 {
    Absent { source: DurableWorktreeIdentityV1 },
    Unreadable { source: DurableWorktreeIdentityV1, error: String },
}

/// Whether two optional identities are both absent, or the same.
pub open spec fn same_optional_identity_spec(
    left: Option<DurableWorktreeIdentityV1>,
    right: Option<DurableWorktreeIdentityV1>,
) -> bool {
    match (left, right) {
        (Some(left), Some(right)) => store::same_identity_spec(left, right),
        (None, None) => true,
        _ => false,
    }
}

fn same_optional_identity(
    left: &Option<DurableWorktreeIdentityV1>,
    right: &Option<DurableWorktreeIdentityV1>,
) -> (same: bool)
    ensures
        same == same_optional_identity_spec(*left, *right),
{
    match (left, right) {
        (Some(left), Some(right)) => same_identity(left, right),
        (None, None) => true,
        _ => false,
    }
}

/// Whether looking at a Store came to the same twice.
pub open spec fn same_inspection_spec(
    left: ResetStoreInspectionV1,
    right: ResetStoreInspectionV1,
) -> bool {
    match (left, right) {
        (ResetStoreInspectionV1::Readable, ResetStoreInspectionV1::Readable) => true,
        (ResetStoreInspectionV1::Absent, ResetStoreInspectionV1::Absent) => true,
        (
            ResetStoreInspectionV1::Unreadable { error: left },
            ResetStoreInspectionV1::Unreadable { error: right },
        ) => left@ == right@,
        _ => false,
    }
}

fn same_inspection(left: &ResetStoreInspectionV1, right: &ResetStoreInspectionV1) -> (same: bool)
    ensures
        same == same_inspection_spec(*left, *right),
{
    match (left, right) {
        (ResetStoreInspectionV1::Readable, ResetStoreInspectionV1::Readable) => true,
        (ResetStoreInspectionV1::Absent, ResetStoreInspectionV1::Absent) => true,
        (
            ResetStoreInspectionV1::Unreadable { error: left },
            ResetStoreInspectionV1::Unreadable { error: right },
        ) => *left == *right,
        _ => false,
    }
}

impl ResetSourceAuthorityV1 {
    /// The workspace that the registry holds.
    pub fn registry_previous_workspace_uuid(&self) -> (uuid: &String)
        ensures
            *uuid == self.registry_previous_workspace_uuid,
    {
        &self.registry_previous_workspace_uuid
    }

    /// The identity that the Store told, if it told one.
    pub fn persisted_identity(&self) -> (identity: Option<&DurableWorktreeIdentityV1>)
        ensures
            match identity {
                Some(identity) => self.persisted_identity == Some(*identity),
                None => self.persisted_identity is None,
            },
    {
        match &self.persisted_identity {
            Some(identity) => Some(identity),
            None => None,
        }
    }

    /// What looking at the Store came to.
    pub fn store_inspection(&self) -> (inspection: &ResetStoreInspectionV1)
        ensures
            *inspection == self.store_inspection,
    {
        &self.store_inspection
    }

    /// The identity by which the workspace to be reset is found: its own where the Store told it,
    /// and otherwise the registered workspace of the observed worktree.
    pub open spec fn routed(self) -> DurableWorktreeIdentityV1 {
        match self.persisted_identity {
            Some(identity) => identity,
            None => DurableWorktreeIdentityV1 {
                common_dir_identity: self.worktree.common_directory_fingerprint,
                workspace_uuid: self.registry_previous_workspace_uuid,
                worktree_admin_identity: self.worktree.worktree_administration_fingerprint,
            },
        }
    }

    /// The identity by which the workspace to be reset is found.
    pub fn routing_identity(&self) -> (identity: DurableWorktreeIdentityV1)
        ensures
            identity == self.routed(),
    {
        match &self.persisted_identity {
            Some(identity) => copy_identity(identity),
            None => DurableWorktreeIdentityV1 {
                common_dir_identity: self.worktree.common_directory_fingerprint.clone(),
                workspace_uuid: self.registry_previous_workspace_uuid.clone(),
                worktree_admin_identity: self.worktree.worktree_administration_fingerprint.clone(),
            },
        }
    }

    /// That the Store is not available. A Store that can be read is available.
    pub fn unavailable_store_proof(&self) -> (proven: Option<UnavailableStoreV1>)
        ensures
            proven == match self.store_inspection {
                ResetStoreInspectionV1::Readable => None,
                ResetStoreInspectionV1::Absent => Some(
                    UnavailableStoreV1::Absent { source: self.routed() },
                ),
                ResetStoreInspectionV1::Unreadable { error } => Some(
                    UnavailableStoreV1::Unreadable { source: self.routed(), error },
                ),
            },
    {
        match &self.store_inspection {
            ResetStoreInspectionV1::Readable => None,
            ResetStoreInspectionV1::Absent => Some(
                UnavailableStoreV1::Absent { source: self.routing_identity() },
            ),
            ResetStoreInspectionV1::Unreadable { error } => Some(
                UnavailableStoreV1::Unreadable {
                    source: self.routing_identity(),
                    error: error.clone(),
                },
            ),
        }
    }

    /// Whether the reset starts from the worktree that was observed.
    pub fn matches_reset(&self, worktree: &GitEvidenceV1) -> (matches: bool)
        ensures
            matches == evidence::same_roots(self.worktree, *worktree),
    {
        same_git_root_evidence(&self.worktree, worktree)
    }
}

/// Whether maintenance of a worktree is held: the lease is for the key, and so is the worktree.
pub open spec fn is_maintained(
    lease_key: WorkspaceMaintenanceKeyV1,
    maintenance_key: WorkspaceMaintenanceKeyV1,
    worktree: GitEvidenceV1,
) -> bool {
    lease_key.id() == maintenance_key.id() && evidence::worktree_key(worktree)
        == maintenance_key.id()
}

/// Refuses what needs the maintenance of a worktree to whoever does not hold it.
pub fn require_maintained(
    lease_key: &WorkspaceMaintenanceKeyV1,
    maintenance_key: &WorkspaceMaintenanceKeyV1,
    worktree: &GitEvidenceV1,
) -> (verdict: Result<(), WorkspaceRuntimeErrorV1>)
    ensures
        verdict == if is_maintained(*lease_key, *maintenance_key, *worktree) {
            Ok(())
        } else {
            Err(WorkspaceRuntimeErrorV1::MaintenanceInProgress)
        },
{
    if !lease_key.same(maintenance_key) || !maintenance_key_from_worktree(worktree).same(
        maintenance_key,
    ) {
        return Err(WorkspaceRuntimeErrorV1::MaintenanceInProgress);
    }
    Ok(())
}

/// Refuses a reset whose source is not in the worktree that is maintained.
pub fn require_source_in_worktree(
    authority: &ResetSourceAuthorityV1,
    worktree: &GitEvidenceV1,
) -> (verdict: Result<(), WorkspaceRuntimeErrorV1>)
    ensures
        verdict == if evidence::same_roots(authority.worktree, *worktree) {
            Ok(())
        } else {
            Err(WorkspaceRuntimeErrorV1::ResetSourceAmbiguous)
        },
{
    if !authority.matches_reset(worktree) {
        return Err(WorkspaceRuntimeErrorV1::ResetSourceAmbiguous);
    }
    Ok(())
}

/// The identity of the workspace to be reset, where its Store told it.
pub fn registered_reset_source_identity(authority: &ResetSourceAuthorityV1) -> (identity: Result<
    DurableWorktreeIdentityV1,
    WorkspaceRuntimeErrorV1,
>)
    ensures
        identity == match authority.persisted_identity {
            Some(identity) => Ok(identity),
            None => Err(
                WorkspaceRuntimeErrorV1::Resolution(
                    WorkspaceResolutionErrorV1::ExistingBindingMissing,
                ),
            ),
        },
{
    match &authority.persisted_identity {
        Some(identity) => Ok(copy_identity(identity)),
        None => Err(
            WorkspaceRuntimeErrorV1::Resolution(WorkspaceResolutionErrorV1::ExistingBindingMissing),
        ),
    }
}

/// How the preparation of a reset gets the scheduler of the workspace to be reset.
#[derive(Clone, Debug, PartialEq, Eq)]
pub enum PreparationSchedulerV1 {
    /// The scheduler is active.
    Active,
    /// The workspace has to be resolved and its scheduler activated.
    Activate { workspace_uuid: String },
    /// There is no Store that a scheduler could work on.
    Unavailable,
}

/// How the preparation of a reset gets the scheduler of the workspace to be reset.
pub fn preparation_scheduler(authority: &ResetSourceAuthorityV1, old_scheduler_active: bool) -> (
    scheduler: PreparationSchedulerV1)
    ensures
        scheduler == if old_scheduler_active {
            PreparationSchedulerV1::Active
        } else {
            match authority.persisted_identity {
                Some(identity) => PreparationSchedulerV1::Activate {
                    workspace_uuid: identity.workspace_uuid,
                },
                None => PreparationSchedulerV1::Unavailable,
            }
        },
{
    if old_scheduler_active {
        return PreparationSchedulerV1::Active;
    }
    match &authority.persisted_identity {
        Some(identity) => PreparationSchedulerV1::Activate {
            workspace_uuid: identity.workspace_uuid.clone(),
        },
        None => PreparationSchedulerV1::Unavailable,
    }
}

/// Whether an active scheduler is the one of the workspace to be reset.
pub fn is_old_scheduler(
    authority: &ResetSourceAuthorityV1,
    context_identity: &DurableWorktreeIdentityV1,
    context_worktree: &GitEvidenceV1,
) -> (is: bool)
    ensures
        is == {
            &&& evidence::same_roots(*context_worktree, authority.worktree)
            &&& context_identity.workspace_uuid@ == authority.registry_previous_workspace_uuid@
            &&& authority.persisted_identity matches Some(persisted) ==> store::same_identity_spec(
                *context_identity,
                persisted,
            )
        },
{
    let as_persisted = match &authority.persisted_identity {
        Some(persisted) => same_identity(context_identity, persisted),
        None => true,
    };
    same_git_root_evidence(context_worktree, &authority.worktree)
        && context_identity.workspace_uuid == authority.registry_previous_workspace_uuid
        && as_persisted
}

/// The registrations at a root, in the order of the registry.
pub open spec fn entries_at(
    entries: Seq<WorkspaceRegistryEntryV1>,
    root: Seq<char>,
) -> Seq<WorkspaceRegistryEntryV1> {
    entries.filter(|entry: WorkspaceRegistryEntryV1| entry.last_known_root@ == root)
}

/// How many registrations there are at a root, as far as it matters.
#[derive(Debug, PartialEq, Eq)]
pub enum RegistrationsAtV1<'a> {
    Missing,
    Sole(&'a WorkspaceRegistryEntryV1),
    Several,
}

/// The registrations at a root.
pub fn registrations_at<'a>(registry: &'a WorkspaceRegistryV1, root: &String) -> (found:
    RegistrationsAtV1<'a>)
    ensures
        match found {
            RegistrationsAtV1::Missing => entries_at(registry@, root@).len() == 0,
            RegistrationsAtV1::Sole(entry) => entries_at(registry@, root@) == seq![*entry],
            RegistrationsAtV1::Several => entries_at(registry@, root@).len() > 1,
        },
{
    let entries = registry.workspaces();
    let ghost wanted = |entry: WorkspaceRegistryEntryV1| entry.last_known_root@ == root@;
    let mut sole: Option<&'a WorkspaceRegistryEntryV1> = None;
    let mut place: usize = 0;
    proof {
        reveal(Seq::filter);
    }
    while place < entries.len()
        invariant
            place <= entries@.len(),
            entries@ == registry@,
            wanted == (|entry: WorkspaceRegistryEntryV1| entry.last_known_root@ == root@),
            match sole {
                Some(entry) => entries@.take(place as int).filter(wanted) == seq![*entry],
                None => entries@.take(place as int).filter(wanted).len() == 0,
            },
        decreases entries@.len() - place,
    {
        let ghost here = entries@.take(place as int).filter(wanted);
        proof {
            reveal(Seq::filter);
            assert(entries@.take(place + 1).drop_last() =~= entries@.take(place as int));
            assert(entries@.take(place + 1).last() == entries@[place as int]);
        }
        if entries[place].last_known_root == *root {
            match sole {
                Some(_) => {
                    proof {
                        let grown = entries@.take(place + 1).filter(wanted);
                        assert(grown == here.push(entries@[place as int]));
                        filter_only_grows(entries@, wanted, place + 1);
                    }
                    return RegistrationsAtV1::Several;
                },
                None => {
                    sole = Some(&entries[place]);
                    assert(entries@.take(place + 1).filter(wanted) =~= seq![
                        entries@[place as int],
                    ]);
                },
            }
        }
        place = place + 1;
    }
    assert(entries@.take(entries@.len() as int) =~= entries@);
    match sole {
        Some(entry) => RegistrationsAtV1::Sole(entry),
        None => RegistrationsAtV1::Missing,
    }
}

proof fn filter_only_grows(
    entries: Seq<WorkspaceRegistryEntryV1>,
    wanted: spec_fn(WorkspaceRegistryEntryV1) -> bool,
    place: int,
)
    requires
        0 <= place <= entries.len(),
    ensures
        entries.take(place).filter(wanted).len() <= entries.filter(wanted).len(),
    decreases entries.len(),
{
    reveal(Seq::filter);
    if place < entries.len() {
        filter_only_grows(entries.drop_last(), wanted, place);
        assert(entries.drop_last().take(place) =~= entries.take(place));
    } else {
        assert(entries.take(place) =~= entries);
    }
}

/// The registration that a reset replaces: the only one at the root of the worktree.
pub fn registered_reset_source<'a>(
    registry: &'a WorkspaceRegistryV1,
    root: &String,
) -> (entry: Result<&'a WorkspaceRegistryEntryV1, WorkspaceRuntimeErrorV1>)
    ensures
        match entry {
            Ok(entry) => entries_at(registry@, root@) == seq![*entry],
            Err(error) => if entries_at(registry@, root@).len() == 0 {
                error == WorkspaceRuntimeErrorV1::ResetSourceNotRegistered
            } else {
                entries_at(registry@, root@).len() > 1 && error
                    == WorkspaceRuntimeErrorV1::ResetSourceAmbiguous
            },
        },
{
    match registrations_at(registry, root) {
        RegistrationsAtV1::Sole(entry) => Ok(entry),
        RegistrationsAtV1::Missing => Err(WorkspaceRuntimeErrorV1::ResetSourceNotRegistered),
        RegistrationsAtV1::Several => Err(WorkspaceRuntimeErrorV1::ResetSourceAmbiguous),
    }
}

/// Refuses to go on where the registration that a reset replaces is no longer the only one at its
/// root.
pub fn revalidate_reset_registry_predecessor(
    registry: &WorkspaceRegistryV1,
    root: &String,
    previous_workspace_uuid: &String,
) -> (verdict: Result<(), WorkspaceRuntimeErrorV1>)
    ensures
        match verdict {
            Ok(()) => entries_at(registry@, root@).len() == 1 && entries_at(
                registry@,
                root@,
            )[0].workspace_uuid@ == previous_workspace_uuid@,
            Err(error) => error == WorkspaceRuntimeErrorV1::ResetRegistryPredecessorStale && !(
            entries_at(registry@, root@).len() == 1 && entries_at(
                registry@,
                root@,
            )[0].workspace_uuid@ == previous_workspace_uuid@),
        },
{
    match registrations_at(registry, root) {
        RegistrationsAtV1::Sole(entry) => {
            assert(entries_at(registry@, root@)[0] == *entry);
            if entry.workspace_uuid == *previous_workspace_uuid {
                Ok(())
            } else {
                Err(WorkspaceRuntimeErrorV1::ResetRegistryPredecessorStale)
            }
        },
        _ => Err(WorkspaceRuntimeErrorV1::ResetRegistryPredecessorStale),
    }
}

/// What is known of the Store of the workspace to be reset, once it was tried to be resolved.
#[derive(Debug, PartialEq, Eq)]
pub enum ResetSourceStepV1 {
    /// The Store was looked at.
    Inspected {
        persisted_identity: Option<DurableWorktreeIdentityV1>,
        store_inspection: ResetStoreInspectionV1,
    },
    /// Another workspace is there; the marker has to tell whether a reset put it there.
    ReadMarker { expected: String, actual: String },
    /// The workspace does not resolve.
    Failed(WorkspaceRuntimeErrorV1),
}

/// What is known of the Store of the workspace to be reset. The text tells the error of a Store that
/// cannot be read.
pub fn reset_source_step(
    resolved: Result<DurableWorktreeIdentityV1, WorkspaceResolutionErrorV1>,
    error_text: String,
) -> (step: ResetSourceStepV1)
    ensures
        step == match resolved {
            Ok(identity) => ResetSourceStepV1::Inspected {
                persisted_identity: Some(identity),
                store_inspection: ResetStoreInspectionV1::Readable,
            },
            Err(WorkspaceResolutionErrorV1::ExistingBindingMissing) =>
                ResetSourceStepV1::Inspected {
                persisted_identity: None,
                store_inspection: ResetStoreInspectionV1::Absent,
            },
            Err(WorkspaceResolutionErrorV1::BindingInspection { .. }) =>
                ResetSourceStepV1::Inspected {
                persisted_identity: None,
                store_inspection: ResetStoreInspectionV1::Unreadable { error: error_text },
            },
            Err(WorkspaceResolutionErrorV1::ExpectedWorkspaceUuidMismatch { expected, actual }) =>
                ResetSourceStepV1::ReadMarker { expected, actual },
            Err(error) => ResetSourceStepV1::Failed(WorkspaceRuntimeErrorV1::Resolution(error)),
        },
{
    match resolved {
        Ok(identity) => ResetSourceStepV1::Inspected {
            persisted_identity: Some(identity),
            store_inspection: ResetStoreInspectionV1::Readable,
        },
        Err(WorkspaceResolutionErrorV1::ExistingBindingMissing) => ResetSourceStepV1::Inspected {
            persisted_identity: None,
            store_inspection: ResetStoreInspectionV1::Absent,
        },
        Err(WorkspaceResolutionErrorV1::BindingInspection { .. }) => ResetSourceStepV1::Inspected {
            persisted_identity: None,
            store_inspection: ResetStoreInspectionV1::Unreadable { error: error_text },
        },
        Err(WorkspaceResolutionErrorV1::ExpectedWorkspaceUuidMismatch { expected, actual }) =>
            ResetSourceStepV1::ReadMarker { expected, actual },
        Err(error) => ResetSourceStepV1::Failed(WorkspaceRuntimeErrorV1::Resolution(error)),
    }
}

/// What is known of the Store of the workspace to be reset where another workspace is in its place.
/// Where a reset from the registered workspace put it there, the Store to be reset is gone.
pub fn reset_source_after_marker(
    marker: Option<&ResetMarkerV1>,
    registered_workspace_uuid: &String,
    expected: String,
    actual: String,
) -> (inspection: Result<ResetStoreInspectionV1, WorkspaceRuntimeErrorV1>)
    ensures
        inspection == if (marker matches Some(marker) && marker.target_workspace_uuid@ == actual@
            && marker.previous_workspace_uuid@ == registered_workspace_uuid@) {
            Ok(ResetStoreInspectionV1::Absent)
        } else {
            Err(
                WorkspaceRuntimeErrorV1::Resolution(
                    WorkspaceResolutionErrorV1::ExpectedWorkspaceUuidMismatch { expected, actual },
                ),
            )
        },
{
    let put_there = match marker {
        Some(marker) => marker.target_workspace_uuid == actual && marker.previous_workspace_uuid
            == *registered_workspace_uuid,
        None => false,
    };
    if put_there {
        Ok(ResetStoreInspectionV1::Absent)
    } else {
        Err(
            WorkspaceRuntimeErrorV1::Resolution(
                WorkspaceResolutionErrorV1::ExpectedWorkspaceUuidMismatch { expected, actual },
            ),
        )
    }
}

/// Refuses to go on where what a reset starts from has changed since it was prepared.
pub fn revalidate_reset_source_authority(
    fresh: &ResetSourceAuthorityV1,
    authority: &ResetSourceAuthorityV1,
    worktree: &GitEvidenceV1,
) -> (verdict: Result<(), WorkspaceRuntimeErrorV1>)
    ensures
        verdict == if {
            &&& evidence::same_roots(fresh.worktree, *worktree)
            &&& fresh.registry_previous_workspace_uuid@
                == authority.registry_previous_workspace_uuid@
            &&& same_optional_identity_spec(fresh.persisted_identity, authority.persisted_identity)
            &&& same_inspection_spec(fresh.store_inspection, authority.store_inspection)
        } {
            Ok(())
        } else {
            Err(WorkspaceRuntimeErrorV1::ResetRegistryPredecessorStale)
        },
{
    if !fresh.matches_reset(worktree) || fresh.registry_previous_workspace_uuid
        != authority.registry_previous_workspace_uuid || !same_optional_identity(
        &fresh.persisted_identity,
        &authority.persisted_identity,
    ) || !same_inspection(&fresh.store_inspection, &authority.store_inspection) {
        return Err(WorkspaceRuntimeErrorV1::ResetRegistryPredecessorStale);
    }
    Ok(())
}

/// Whether the old scheduler of a worktree stands in the way of a reset: a generation has not
/// retired, the old scheduler is still active, or it is recorded without having retired.
pub open spec fn retirement_is_missing(
    coordinator: WorkspaceMaintenanceCoordinatorV1,
    key: maintenance::MaintenanceKeyId,
    previous_workspace_uuid: Seq<char>,
    old_scheduler_active: bool,
) -> bool {
    ||| exists|slot: u64|
        (#[trigger] coordinator.generation(slot)) matches Some(record) && maintenance::identity_key(
            record.binding.source,
        ) == key && !maintenance::has_retired(record)
    ||| old_scheduler_active
    ||| (exists|slot: u64|
        (#[trigger] coordinator.generation(slot)) matches Some(record) && maintenance::identity_key(
            record.binding.source,
        ) == key && record.binding.source.workspace_uuid@ == previous_workspace_uuid) && !(exists|
        slot: u64,
    |
        (#[trigger] coordinator.generation(slot)) matches Some(record) && maintenance::identity_key(
            record.binding.source,
        ) == key && record.binding.source.workspace_uuid@ == previous_workspace_uuid
            && maintenance::has_retired(record))
}

/// Refuses a reset before the old scheduler of its worktree has retired.
pub fn require_scheduler_retired_for_reset(
    coordinator: &WorkspaceMaintenanceCoordinatorV1,
    key: &WorkspaceMaintenanceKeyV1,
    previous_workspace_uuid: &String,
    old_scheduler_active: bool,
) -> (verdict: Result<(), WorkspaceRuntimeErrorV1>)
    requires
        coordinator.wf(),
    ensures
        verdict == if retirement_is_missing(
            *coordinator,
            key.id(),
            previous_workspace_uuid@,
            old_scheduler_active,
        ) {
            Err::<(), WorkspaceRuntimeErrorV1>(WorkspaceRuntimeErrorV1::ResetSchedulerRetirement)
        } else {
            Ok(())
        },
{
    if coordinator.has_unclosed_generation(key) {
        return Err(WorkspaceRuntimeErrorV1::ResetSchedulerRetirement);
    }
    if old_scheduler_active {
        return Err(WorkspaceRuntimeErrorV1::ResetSchedulerRetirement);
    }
    if coordinator.has_registered_generation(key, previous_workspace_uuid)
        && !coordinator.has_retirement_receipt(key, previous_workspace_uuid) {
        return Err(WorkspaceRuntimeErrorV1::ResetSchedulerRetirement);
    }
    Ok(())
}

/// Whether a marker tells of a reset from or to the registered workspace, and to another one than it
/// starts from.
pub open spec fn marker_is_current(marker: ResetMarkerV1, registered: Seq<char>) -> bool {
    &&& marker.target_workspace_uuid@ != marker.previous_workspace_uuid@
    &&& marker.previous_workspace_uuid@ == registered || marker.target_workspace_uuid@ == registered
}

/// Whether a marker tells of a reset from or to the registered workspace.
pub fn marker_matches_registry_generation(
    marker: &ResetMarkerV1,
    registered_workspace_uuid: &String,
) -> (matches: bool)
    ensures
        matches == marker_is_current(*marker, registered_workspace_uuid@),
{
    marker.target_workspace_uuid != marker.previous_workspace_uuid && (
    marker.previous_workspace_uuid == *registered_workspace_uuid || marker.target_workspace_uuid
        == *registered_workspace_uuid)
}

/// What comes of a request to go on with the reset that a marker tells of.
pub open spec fn resume_verdict(
    marker: Option<ResetMarkerV1>,
    registered: Seq<char>,
    idempotency_key: Seq<char>,
    request_digest: String,
) -> Result<(), WorkspaceRuntimeErrorV1> {
    match marker {
        Some(marker) => if !marker_is_current(marker, registered) || marker.idempotency_key@
            != idempotency_key {
            Err(WorkspaceRuntimeErrorV1::ResetMarkerConflict)
        } else if marker.request_digest@ != request_digest@ {
            Err(
                WorkspaceRuntimeErrorV1::ResetIdempotencyConflict {
                    existing: marker.request_digest,
                    requested: request_digest,
                },
            )
        } else {
            Ok(())
        },
        None => Err(WorkspaceRuntimeErrorV1::ResetMarkerConflict),
    }
}

/// Refuses a request to go on with a reset that is not the one that the marker tells of.
pub fn validate_resume_request(
    marker: Option<&ResetMarkerV1>,
    registered_workspace_uuid: &String,
    expected_idempotency_key: &String,
    expected_digest: &String,
) -> (verdict: Result<(), WorkspaceRuntimeErrorV1>)
    ensures
        verdict == resume_verdict(
            match marker {
                Some(marker) => Some(*marker),
                None => None,
            },
            registered_workspace_uuid@,
            expected_idempotency_key@,
            *expected_digest,
        ),
{
    let marker = match marker {
        Some(marker) => marker,
        None => {
            return Err(WorkspaceRuntimeErrorV1::ResetMarkerConflict);
        },
    };
    if !marker_matches_registry_generation(marker, registered_workspace_uuid)
        || marker.idempotency_key != *expected_idempotency_key {
        return Err(WorkspaceRuntimeErrorV1::ResetMarkerConflict);
    }
    if marker.request_digest != *expected_digest {
        return Err(
            WorkspaceRuntimeErrorV1::ResetIdempotencyConflict {
                existing: marker.request_digest.clone(),
                requested: expected_digest.clone(),
            },
        );
    }
    Ok(())
}

/// Whether a target that could not be verified is replaced: its state is corrupt, damaged, or of a
/// newer version. A failure to clean up is never repaired this way.
pub open spec fn target_is_replaceable(error: StoreErrorV1) -> bool {
    error is CorruptStateV1 || error is StorageIntegrityV1 || error is NewerStateV1
}

/// Whether a target that could not be verified is replaced.
pub fn reset_seed_requires_fixed_replacement(error: &StoreErrorV1) -> (replaceable: bool)
    ensures
        replaceable == target_is_replaceable(*error),
{
    match error {
        StoreErrorV1::CorruptStateV1
        | StoreErrorV1::StorageIntegrityV1
        | StoreErrorV1::NewerStateV1 => true,
        StoreErrorV1::PrimaryOperationAndCleanupFailureV1 { .. }
        | StoreErrorV1::AdmissionCommittedV1 { .. }
        | StoreErrorV1::AdmissionOutcomeUnknownV1 { .. }
        | StoreErrorV1::AlreadyClaimedV1
        | StoreErrorV1::CancellationLostV1
        | StoreErrorV1::ClaimStaleV1
        | StoreErrorV1::IdempotencyDigestConflictV1
        | StoreErrorV1::InternalInvariantViolationV1 { .. }
        | StoreErrorV1::InvalidStateV1
        | StoreErrorV1::JobNotFoundV1
        | StoreErrorV1::PreconditionConflictV1 { .. }
        | StoreErrorV1::ProcedureV2PreconditionFailedV1 { .. }
        | StoreErrorV1::SessionIdentityConflictV1 { .. }
        | StoreErrorV1::StorageUnavailableV1 { .. } => false,
    }
}

/// The job that the Store of a reset's target begins with.
#[derive(Clone, Debug, PartialEq, Eq)]
pub struct ResetSeedRequestV1 {
    pub idempotency_key: String,
    pub job_id: String,
    pub request_digest: String,
    pub submitted_at: u64,
    pub response_context: Option<PersistedResponseContextV1>,
}

/// Whether a job is the one that the target of a marker begins with. It answers the request that
/// asked for the reset, where that is known.
pub open spec fn is_seed_request(
    marker: ResetMarkerV1,
    worktree_root: String,
    request: ResetSeedRequestV1,
) -> bool {
    &&& request.idempotency_key == marker.idempotency_key
    &&& request.job_id == marker.operation_id
    &&& request.request_digest == marker.request_digest
    &&& request.submitted_at == marker.submitted_at_ms
    &&& match (marker.response_request_id, request.response_context) {
        (Some(request_id), Some(context)) => {
            &&& context.request_id == request_id
            &&& context.command@ == "workspace.reset_all"@
            &&& context.workspace_uuid == marker.target_workspace_uuid
            &&& context.workspace_root == worktree_root
            &&& context.workspace_sequence == 1
        },
        (None, None) => true,
        _ => false,
    }
}

/// The job that the Store of a reset's target begins with.
pub fn reset_seed_request(
    marker: &ResetMarkerV1,
    worktree_root: String,
) -> (request: ResetSeedRequestV1)
    ensures
        is_seed_request(*marker, worktree_root, request),
{
    let response_context = match &marker.response_request_id {
        Some(request_id) => Some(
            PersistedResponseContextV1 {
                request_id: request_id.clone(),
                command: "workspace.reset_all".to_owned(),
                workspace_uuid: marker.target_workspace_uuid.clone(),
                workspace_root: worktree_root,
                workspace_sequence: 1,
            },
        ),
        None => None,
    };
    ResetSeedRequestV1 {
        idempotency_key: marker.idempotency_key.clone(),
        job_id: marker.operation_id.clone(),
        request_digest: marker.request_digest.clone(),
        submitted_at: marker.submitted_at_ms,
        response_context,
    }
}

/// A reset that was prepared, and whether it was prepared from the workspace that it starts from.
#[derive(Clone, Debug, PartialEq, Eq)]
pub struct PreparedResetV1 {
    pub previous_workspace_uuid: String,
    pub marker: ResetMarkerV1,
    pub matches_source: bool,
}

/// What a reset does next.
#[derive(Clone, Copy, Debug, PartialEq, Eq, Structural)]
pub enum ResetStepV1 {
    RevalidateSource,
    RevalidateBeforeMarker,
    ReadMarker,
    RequireRetiredBeforeMarker,
    PublishMarker,
    RequireRetiredAfterMarker,
    RevalidateBeforeWork,
    RevalidateBeforeReplacement,
    RemoveDatabase,
    SeedTarget,
    RevalidateBeforeRegistry,
    ReplaceRegistration,
    RemoveMarker,
    ResolveTarget,
    ActivateTarget,
    Completed,
}

/// What came of a step of a reset.
#[derive(Debug, PartialEq, Eq)]
pub enum ResetEventV1 {
    Succeeded,
    Failed(WorkspaceRuntimeErrorV1),
    MarkerRead(Option<ResetMarkerV1>),
    SeedRefused(StoreErrorV1),
}

/// A reset on its way. It was prepared, or goes on with what a marker tells of; where it goes on for
/// a request, the key and the digest of that request are expected.
#[derive(Clone, Debug, PartialEq, Eq)]
pub struct ResetCompletionV1 {
    pub step: ResetStepV1,
    pub registered_workspace_uuid: String,
    pub prepared: Option<ResetMarkerV1>,
    pub expected_request: Option<(String, String)>,
    pub marker: Option<ResetMarkerV1>,
    pub marker_was_present: bool,
    pub target_was_refused: bool,
    pub database_was_removed: bool,
}

/// Whether what came of a step can come of it.
pub open spec fn event_fits(step: ResetStepV1, event: ResetEventV1) -> bool {
    match event {
        ResetEventV1::Succeeded => !(step is ReadMarker) && !(step is Completed),
        ResetEventV1::Failed(_) => !(step is Completed),
        ResetEventV1::MarkerRead(_) => step is ReadMarker,
        ResetEventV1::SeedRefused(_) => step is SeedTarget,
    }
}

/// The marker that a reset goes by where one was found: the prepared one, or one of the request.
pub open spec fn found_marker_verdict(
    existing: ResetMarkerV1,
    prepared: Option<ResetMarkerV1>,
    expected_request: Option<(String, String)>,
) -> Result<(), WorkspaceRuntimeErrorV1> {
    match (prepared, expected_request) {
        (Some(prepared), _) => if workspace::same_marker_spec(existing, prepared) {
            Ok(())
        } else if existing.idempotency_key@ == prepared.idempotency_key@
            && existing.request_digest@ != prepared.request_digest@ {
            Err(
                WorkspaceRuntimeErrorV1::ResetIdempotencyConflict {
                    existing: existing.request_digest,
                    requested: prepared.request_digest,
                },
            )
        } else {
            Err(WorkspaceRuntimeErrorV1::ResetMarkerConflict)
        },
        (None, Some((key, digest))) => if existing.idempotency_key@ != key@ {
            Err(WorkspaceRuntimeErrorV1::ResetMarkerConflict)
        } else if existing.request_digest@ != digest@ {
            Err(
                WorkspaceRuntimeErrorV1::ResetIdempotencyConflict {
                    existing: existing.request_digest,
                    requested: digest,
                },
            )
        } else {
            Ok(())
        },
        (None, None) => Ok(()),
    }
}

fn check_found_marker(
    existing: &ResetMarkerV1,
    prepared: &Option<ResetMarkerV1>,
    expected_request: &Option<(String, String)>,
) -> (verdict: Result<(), WorkspaceRuntimeErrorV1>)
    ensures
        verdict == found_marker_verdict(*existing, *prepared, *expected_request),
{
    match (prepared, expected_request) {
        (Some(prepared), _) => {
            if same_marker(existing, prepared) {
                return Ok(());
            }
            if existing.idempotency_key == prepared.idempotency_key && existing.request_digest
                != prepared.request_digest {
                return Err(
                    WorkspaceRuntimeErrorV1::ResetIdempotencyConflict {
                        existing: existing.request_digest.clone(),
                        requested: prepared.request_digest.clone(),
                    },
                );
            }
            Err(WorkspaceRuntimeErrorV1::ResetMarkerConflict)
        },
        (None, Some((key, digest))) => {
            if existing.idempotency_key != *key {
                return Err(WorkspaceRuntimeErrorV1::ResetMarkerConflict);
            }
            if existing.request_digest != *digest {
                return Err(
                    WorkspaceRuntimeErrorV1::ResetIdempotencyConflict {
                        existing: existing.request_digest.clone(),
                        requested: digest.clone(),
                    },
                );
            }
            Ok(())
        },
        (None, None) => Ok(()),
    }
}

/// The reset at another step.
pub open spec fn at_step(reset: ResetCompletionV1, step: ResetStepV1) -> ResetCompletionV1 {
    ResetCompletionV1 { step, ..reset }
}

/// The reset that goes on with the marker that was found.
pub open spec fn with_found_marker(
    reset: ResetCompletionV1,
    existing: ResetMarkerV1,
) -> Result<ResetCompletionV1, WorkspaceRuntimeErrorV1> {
    match found_marker_verdict(existing, reset.prepared, reset.expected_request) {
        Err(error) => Err(error),
        Ok(()) => if marker_is_current(existing, reset.registered_workspace_uuid@) {
            Ok(
                ResetCompletionV1 {
                    step: ResetStepV1::RequireRetiredAfterMarker,
                    marker: Some(existing),
                    marker_was_present: true,
                    ..reset
                },
            )
        } else {
            Err(WorkspaceRuntimeErrorV1::ResetMarkerConflict)
        },
    }
}

/// What a reset does once a step came to the given end. Every failure ends it, but for a target that
/// was found and cannot be verified: that is replaced once, if it may be.
pub open spec fn reset_next(
    reset: ResetCompletionV1,
    event: ResetEventV1,
) -> Result<ResetCompletionV1, WorkspaceRuntimeErrorV1> {
    match event {
        ResetEventV1::Failed(error) => Err(error),
        ResetEventV1::MarkerRead(Some(existing)) => with_found_marker(reset, existing),
        ResetEventV1::MarkerRead(None) => if reset.prepared is Some {
            Ok(at_step(reset, ResetStepV1::RequireRetiredBeforeMarker))
        } else {
            Err(WorkspaceRuntimeErrorV1::ResetMarkerConflict)
        },
        ResetEventV1::SeedRefused(error) => if reset.marker_was_present
            && !reset.database_was_removed && target_is_replaceable(error) {
            Ok(
                ResetCompletionV1 {
                    step: ResetStepV1::RevalidateBeforeReplacement,
                    target_was_refused: true,
                    ..reset
                },
            )
        } else {
            Err(WorkspaceRuntimeErrorV1::Store(error))
        },
        ResetEventV1::Succeeded => match reset.step {
            ResetStepV1::RevalidateSource => Ok(
                at_step(reset, ResetStepV1::RevalidateBeforeMarker),
            ),
            ResetStepV1::RevalidateBeforeMarker => Ok(at_step(reset, ResetStepV1::ReadMarker)),
            ResetStepV1::RequireRetiredBeforeMarker => match reset.prepared {
                Some(prepared) if prepared.target_workspace_uuid@
                    != reset.registered_workspace_uuid@ => Ok(
                    at_step(reset, ResetStepV1::PublishMarker),
                ),
                _ => Err(WorkspaceRuntimeErrorV1::ResetMarkerConflict),
            },
            ResetStepV1::PublishMarker => match reset.prepared {
                Some(prepared) if marker_is_current(
                    prepared,
                    reset.registered_workspace_uuid@,
                ) => Ok(
                    ResetCompletionV1 {
                        step: ResetStepV1::RevalidateBeforeWork,
                        marker: Some(prepared),
                        ..reset
                    },
                ),
                _ => Err(WorkspaceRuntimeErrorV1::ResetMarkerConflict),
            },
            ResetStepV1::RequireRetiredAfterMarker => Ok(
                at_step(reset, ResetStepV1::RevalidateBeforeWork),
            ),
            ResetStepV1::RevalidateBeforeWork => Ok(
                at_step(
                    reset,
                    if reset.marker_was_present {
                        ResetStepV1::SeedTarget
                    } else {
                        ResetStepV1::RemoveDatabase
                    },
                ),
            ),
            ResetStepV1::RevalidateBeforeReplacement => Ok(
                at_step(reset, ResetStepV1::RemoveDatabase),
            ),
            ResetStepV1::RemoveDatabase => Ok(
                ResetCompletionV1 {
                    step: ResetStepV1::SeedTarget,
                    database_was_removed: true,
                    ..reset
                },
            ),
            ResetStepV1::SeedTarget => Ok(at_step(reset, ResetStepV1::RevalidateBeforeRegistry)),
            ResetStepV1::RevalidateBeforeRegistry => Ok(
                at_step(
                    reset,
                    if replaces_registration(reset) {
                        ResetStepV1::ReplaceRegistration
                    } else {
                        ResetStepV1::RemoveMarker
                    },
                ),
            ),
            ResetStepV1::ReplaceRegistration => Ok(at_step(reset, ResetStepV1::RemoveMarker)),
            ResetStepV1::RemoveMarker => Ok(at_step(reset, ResetStepV1::ResolveTarget)),
            ResetStepV1::ResolveTarget => Ok(at_step(reset, ResetStepV1::ActivateTarget)),
            ResetStepV1::ActivateTarget => Ok(at_step(reset, ResetStepV1::Completed)),
            ResetStepV1::ReadMarker | ResetStepV1::Completed => Ok(reset),
        },
    }
}

/// Whether the workspace that a reset starts from is still registered, and so has to be replaced.
pub open spec fn replaces_registration(reset: ResetCompletionV1) -> bool {
    reset.marker matches Some(marker) && reset.registered_workspace_uuid@
        == marker.previous_workspace_uuid@
}

/// Whether a reset is at a step that goes by a marker.
pub open spec fn goes_by_marker(step: ResetStepV1) -> bool {
    !(step is RevalidateSource || step is RevalidateBeforeMarker || step is ReadMarker
        || step is RequireRetiredBeforeMarker || step is PublishMarker)
}

/// How many steps a reset has left at most.
pub open spec fn steps_left(reset: ResetCompletionV1) -> nat {
    match reset.step {
        ResetStepV1::RevalidateSource => 15,
        ResetStepV1::RevalidateBeforeMarker => 14,
        ResetStepV1::ReadMarker => 13,
        ResetStepV1::RequireRetiredBeforeMarker => 12,
        ResetStepV1::PublishMarker => 11,
        ResetStepV1::RequireRetiredAfterMarker => 11,
        ResetStepV1::RevalidateBeforeWork => 10,
        ResetStepV1::SeedTarget => if reset.database_was_removed {
            6
        } else {
            9
        },
        ResetStepV1::RevalidateBeforeReplacement => 8,
        ResetStepV1::RemoveDatabase => 7,
        ResetStepV1::RevalidateBeforeRegistry => 5,
        ResetStepV1::ReplaceRegistration => 4,
        ResetStepV1::RemoveMarker => 3,
        ResetStepV1::ResolveTarget => 2,
        ResetStepV1::ActivateTarget => 1,
        ResetStepV1::Completed => 0,
    }
}

impl ResetCompletionV1 {
    /// Whether a reset has come to its step in order: by a marker of the registered workspace from
    /// when there is one, and with a database that was removed only where there was no target yet
    /// or the target was refused.
    pub open spec fn wf(self) -> bool {
        &&& goes_by_marker(self.step) <==> self.marker is Some
        &&& self.marker matches Some(marker) ==> marker_is_current(
            marker,
            self.registered_workspace_uuid@,
        )
        &&& !goes_by_marker(self.step) ==> !self.marker_was_present && !self.target_was_refused
            && !self.database_was_removed
        &&& self.step is RequireRetiredAfterMarker ==> self.marker_was_present
        &&& (self.step is RequireRetiredAfterMarker || self.step is RevalidateBeforeWork) ==> (
        !self.target_was_refused && !self.database_was_removed)
        &&& self.step is RevalidateBeforeReplacement ==> self.target_was_refused
            && !self.database_was_removed
        &&& self.step is RemoveDatabase ==> !self.database_was_removed
        &&& self.target_was_refused ==> self.marker_was_present
        &&& (self.step is RemoveDatabase || self.database_was_removed) ==> (
        self.marker_was_present ==> self.target_was_refused)
        &&& self.step is SeedTarget ==> (self.marker_was_present || self.database_was_removed) && (
        self.target_was_refused ==> self.database_was_removed)
        &&& self.step is ReplaceRegistration ==> replaces_registration(self)
    }

    /// A reset that begins, in a worktree whose maintenance it has, from the worktree that was
    /// observed. A reset that was prepared has to have been prepared from the registered workspace.
    pub fn begin(
        lease_key: &WorkspaceMaintenanceKeyV1,
        maintenance_key: &WorkspaceMaintenanceKeyV1,
        worktree: &GitEvidenceV1,
        authority: &ResetSourceAuthorityV1,
        prepared: Option<PreparedResetV1>,
        expected_request: Option<(String, String)>,
    ) -> (reset: Result<Self, WorkspaceRuntimeErrorV1>)
        ensures
            reset == if !is_maintained(*lease_key, *maintenance_key, *worktree)
                || !evidence::same_roots(authority.worktree, *worktree) {
                Err(WorkspaceRuntimeErrorV1::MaintenanceInProgress)
            } else if (prepared matches Some(prepared) && (prepared.previous_workspace_uuid@
                != authority.registry_previous_workspace_uuid@
                || prepared.marker.previous_workspace_uuid@
                != authority.registry_previous_workspace_uuid@ || !prepared.matches_source)) {
                Err(WorkspaceRuntimeErrorV1::ResetMarkerConflict)
            } else {
                Ok(
                    ResetCompletionV1 {
                        step: ResetStepV1::RevalidateSource,
                        registered_workspace_uuid: authority.registry_previous_workspace_uuid,
                        prepared: match prepared {
                            Some(prepared) => Some(prepared.marker),
                            None => None,
                        },
                        expected_request,
                        marker: None,
                        marker_was_present: false,
                        target_was_refused: false,
                        database_was_removed: false,
                    },
                )
            },
            reset matches Ok(reset) ==> reset.wf(),
    {
        match require_maintained(lease_key, maintenance_key, worktree) {
            Ok(()) => {},
            Err(error) => {
                return Err(error);
            },
        }
        if !authority.matches_reset(worktree) {
            return Err(WorkspaceRuntimeErrorV1::MaintenanceInProgress);
        }
        let prepared = match prepared {
            Some(prepared) => {
                if prepared.previous_workspace_uuid != authority.registry_previous_workspace_uuid
                    || prepared.marker.previous_workspace_uuid
                    != authority.registry_previous_workspace_uuid || !prepared.matches_source {
                    return Err(WorkspaceRuntimeErrorV1::ResetMarkerConflict);
                }
                Some(prepared.marker)
            },
            None => None,
        };
        Ok(
            ResetCompletionV1 {
                step: ResetStepV1::RevalidateSource,
                registered_workspace_uuid: authority.registry_previous_workspace_uuid.clone(),
                prepared,
                expected_request,
                marker: None,
                marker_was_present: false,
                target_was_refused: false,
                database_was_removed: false,
            },
        )
    }

    fn found_marker(self, existing: ResetMarkerV1) -> (next: Result<Self, WorkspaceRuntimeErrorV1>)
        ensures
            next == with_found_marker(self, existing),
    {
        match check_found_marker(&existing, &self.prepared, &self.expected_request) {
            Ok(()) => {},
            Err(error) => {
                return Err(error);
            },
        }
        if !marker_matches_registry_generation(&existing, &self.registered_workspace_uuid) {
            return Err(WorkspaceRuntimeErrorV1::ResetMarkerConflict);
        }
        Ok(
            ResetCompletionV1 {
                step: ResetStepV1::RequireRetiredAfterMarker,
                registered_workspace_uuid: self.registered_workspace_uuid,
                prepared: self.prepared,
                expected_request: self.expected_request,
                marker: Some(existing),
                marker_was_present: true,
                target_was_refused: self.target_was_refused,
                database_was_removed: self.database_was_removed,
            },
        )
    }

    /// What a reset does once a step came to the given end.
    pub fn advance(self, event: ResetEventV1) -> (next: Result<Self, WorkspaceRuntimeErrorV1>)
        requires
            self.wf(),
            event_fits(self.step, event),
        ensures
            next == reset_next(self, event),
            next matches Ok(next) ==> next.wf() && steps_left(next) < steps_left(self),
    {
        let mut reset = self;
        match event {
            ResetEventV1::Failed(error) => Err(error),
            ResetEventV1::MarkerRead(Some(existing)) => reset.found_marker(existing),
            ResetEventV1::MarkerRead(None) => {
                if reset.prepared.is_none() {
                    return Err(WorkspaceRuntimeErrorV1::ResetMarkerConflict);
                }
                reset.step = ResetStepV1::RequireRetiredBeforeMarker;
                Ok(reset)
            },
            ResetEventV1::SeedRefused(error) => {
                if !(reset.marker_was_present && !reset.database_was_removed
                    && reset_seed_requires_fixed_replacement(&error)) {
                    return Err(WorkspaceRuntimeErrorV1::Store(error));
                }
                reset.step = ResetStepV1::RevalidateBeforeReplacement;
                reset.target_was_refused = true;
                Ok(reset)
            },
            ResetEventV1::Succeeded => {
                match reset.step {
                    ResetStepV1::RevalidateSource => {
                        reset.step = ResetStepV1::RevalidateBeforeMarker;
                    },
                    ResetStepV1::RevalidateBeforeMarker => {
                        reset.step = ResetStepV1::ReadMarker;
                    },
                    ResetStepV1::RequireRetiredBeforeMarker => {
                        let is_new = match &reset.prepared {
                            Some(prepared) => prepared.target_workspace_uuid
                                != reset.registered_workspace_uuid,
                            None => false,
                        };
                        if !is_new {
                            return Err(WorkspaceRuntimeErrorV1::ResetMarkerConflict);
                        }
                        reset.step = ResetStepV1::PublishMarker;
                    },
                    ResetStepV1::PublishMarker => {
                        let marker = match &reset.prepared {
                            Some(prepared) => if marker_matches_registry_generation(
                                prepared,
                                &reset.registered_workspace_uuid,
                            ) {
                                copy_marker(prepared)
                            } else {
                                return Err(WorkspaceRuntimeErrorV1::ResetMarkerConflict);
                            },
                            None => {
                                return Err(WorkspaceRuntimeErrorV1::ResetMarkerConflict);
                            },
                        };
                        reset.marker = Some(marker);
                        reset.step = ResetStepV1::RevalidateBeforeWork;
                    },
                    ResetStepV1::RequireRetiredAfterMarker => {
                        reset.step = ResetStepV1::RevalidateBeforeWork;
                    },
                    ResetStepV1::RevalidateBeforeWork => {
                        reset.step =
                        if reset.marker_was_present {
                            ResetStepV1::SeedTarget
                        } else {
                            ResetStepV1::RemoveDatabase
                        };
                    },
                    ResetStepV1::RevalidateBeforeReplacement => {
                        reset.step = ResetStepV1::RemoveDatabase;
                    },
                    ResetStepV1::RemoveDatabase => {
                        reset.step = ResetStepV1::SeedTarget;
                        reset.database_was_removed = true;
                    },
                    ResetStepV1::SeedTarget => {
                        reset.step = ResetStepV1::RevalidateBeforeRegistry;
                    },
                    ResetStepV1::RevalidateBeforeRegistry => {
                        let replaces = match &reset.marker {
                            Some(marker) => reset.registered_workspace_uuid
                                == marker.previous_workspace_uuid,
                            None => false,
                        };
                        reset.step =
                        if replaces {
                            ResetStepV1::ReplaceRegistration
                        } else {
                            ResetStepV1::RemoveMarker
                        };
                    },
                    ResetStepV1::ReplaceRegistration => {
                        reset.step = ResetStepV1::RemoveMarker;
                    },
                    ResetStepV1::RemoveMarker => {
                        reset.step = ResetStepV1::ResolveTarget;
                    },
                    ResetStepV1::ResolveTarget => {
                        reset.step = ResetStepV1::ActivateTarget;
                    },
                    ResetStepV1::ActivateTarget => {
                        reset.step = ResetStepV1::Completed;
                    },
                    ResetStepV1::ReadMarker | ResetStepV1::Completed => {},
                }
                Ok(reset)
            },
        }
    }

    /// The workspace whose scheduler has to have retired, at a step that requires it, and whether
    /// the identity that the Store told counts for it.
    pub fn retirement_required(&self) -> (required: Option<(&String, bool)>)
        requires
            self.wf(),
        ensures
            match required {
                Some((workspace_uuid, counts)) => if self.step is RequireRetiredBeforeMarker {
                    *workspace_uuid == self.registered_workspace_uuid && counts
                } else {
                    self.step is RequireRetiredAfterMarker && (self.marker matches Some(marker)
                        && *workspace_uuid == marker.previous_workspace_uuid && counts
                        == replaces_registration(*self))
                },
                None => !(self.step is RequireRetiredBeforeMarker)
                    && !(self.step is RequireRetiredAfterMarker),
            },
    {
        match self.step {
            ResetStepV1::RequireRetiredBeforeMarker => Some((&self.registered_workspace_uuid, true)),
            ResetStepV1::RequireRetiredAfterMarker => match &self.marker {
                Some(marker) => Some(
                    (
                        &marker.previous_workspace_uuid,
                        self.registered_workspace_uuid == marker.previous_workspace_uuid,
                    ),
                ),
                None => None,
            },
            _ => None,
        }
    }
}

/// What a reset came to: the scheduler of the target, the receipt of the job that the target begins
/// with, and the marker that the reset went by.
#[derive(Debug, PartialEq, Eq)]
pub struct ResetAllCompletionV1<Scheduler> {
    pub scheduler: Scheduler,
    pub receipt: PersistedTerminalReceiptV1,
    pub marker: ResetMarkerV1,
}

impl<Scheduler> ResetAllCompletionV1<Scheduler> {
    /// The scheduler of the target.
    pub fn scheduler(&self) -> (scheduler: &Scheduler)
        ensures
            *scheduler == self.scheduler,
    {
        &self.scheduler
    }

    /// The receipt of the job that the target begins with.
    pub fn receipt(&self) -> (receipt: &PersistedTerminalReceiptV1)
        ensures
            *receipt == self.receipt,
    {
        &self.receipt
    }

    /// The marker that the reset went by.
    pub fn marker(&self) -> (marker: &ResetMarkerV1)
        ensures
            *marker == self.marker,
    {
        &self.marker
    }
}

/// The point that a reset has reached once a step has succeeded, if it is one at which a test may
/// have the process die.
pub fn crash_boundary_after(step: ResetStepV1, database_was_removed: bool) -> (boundary: Option<
    ResetAllCrashBoundaryV1,
>)
    ensures
        boundary == match step {
            ResetStepV1::PublishMarker => Some(ResetAllCrashBoundaryV1::MarkerCreated),
            ResetStepV1::RemoveDatabase => Some(ResetAllCrashBoundaryV1::OldDatabaseDeleted),
            ResetStepV1::SeedTarget => if database_was_removed {
                Some(ResetAllCrashBoundaryV1::NewTargetDatabaseCreated)
            } else {
                None
            },
            _ => None,
        },
{
    match step {
        ResetStepV1::PublishMarker => Some(ResetAllCrashBoundaryV1::MarkerCreated),
        ResetStepV1::RemoveDatabase => Some(ResetAllCrashBoundaryV1::OldDatabaseDeleted),
        ResetStepV1::SeedTarget => if database_was_removed {
            Some(ResetAllCrashBoundaryV1::NewTargetDatabaseCreated)
        } else {
            None
        },
        _ => None,
    }
}

/// What a reset destroys, it destroys under a marker of the registered workspace and right after the
/// registry was asked once more: the old database is removed only then, and so is the registration
/// replaced.
pub proof fn a_reset_revalidates_before_it_destroys(reset: ResetCompletionV1, event: ResetEventV1)
    requires
        reset.wf(),
        event_fits(reset.step, event),
    ensures
        reset_next(reset, event) matches Ok(next) ==> {
            &&& next.step is RemoveDatabase ==> (reset.step is RevalidateBeforeWork
                || reset.step is RevalidateBeforeReplacement) && event is Succeeded
            &&& next.step is ReplaceRegistration ==> reset.step is RevalidateBeforeRegistry
                && event is Succeeded
            &&& (next.step is RemoveDatabase || next.step is ReplaceRegistration) ==> (
            next.marker matches Some(marker) && marker_is_current(
                marker,
                next.registered_workspace_uuid@,
            ))
        },
{
}

/// A reset that goes on with a marker verifies the target before it destroys anything: it removes a
/// database only once the target that it found there was refused, and only for damage that a new
/// target repairs.
pub proof fn a_resumed_reset_verifies_its_target_first(
    reset: ResetCompletionV1,
    event: ResetEventV1,
)
    requires
        reset.wf(),
        event_fits(reset.step, event),
    ensures
        reset.step is RemoveDatabase && reset.marker_was_present ==> reset.target_was_refused,
        reset_next(reset, event) matches Ok(next) && next.target_was_refused
            && !reset.target_was_refused ==> (event matches ResetEventV1::SeedRefused(error)
            && target_is_replaceable(error)),
{
}

/// A reset comes to its end: every step that does not end it leaves fewer steps to do.
pub proof fn a_reset_comes_to_its_end(reset: ResetCompletionV1, event: ResetEventV1)
    requires
        reset.wf(),
        event_fits(reset.step, event),
    ensures
        reset_next(reset, event) matches Ok(next) ==> next.wf() && steps_left(next) < steps_left(
            reset,
        ),
{
}

/// Whether a reset goes through the given states, one step after another.
pub open spec fn is_reset_course(
    states: Seq<ResetCompletionV1>,
    events: Seq<ResetEventV1>,
) -> bool {
    &&& states.len() == events.len() + 1
    &&& forall|i: int|
        #![trigger events[i]]
        0 <= i < events.len() ==> event_fits(states[i].step, events[i]) && reset_next(
            states[i],
            events[i],
        ) == Ok::<ResetCompletionV1, WorkspaceRuntimeErrorV1>(states[i + 1])
}

/// Whether a step has succeeded before the given point of a course.
pub open spec fn has_done(
    states: Seq<ResetCompletionV1>,
    events: Seq<ResetEventV1>,
    step: ResetStepV1,
    before: int,
) -> bool {
    exists|i: int|
        #![trigger events[i]]
        0 <= i < before && states[i].step == step && events[i] is Succeeded
}

/// The workspace that is registered at a point of a reset: the one that it started from, until the
/// registration was replaced by the target of the marker.
pub open spec fn registered_at(
    states: Seq<ResetCompletionV1>,
    events: Seq<ResetEventV1>,
    at: int,
) -> Seq<char> {
    if has_done(states, events, ResetStepV1::ReplaceRegistration, at) {
        states[at].marker->0.target_workspace_uuid@
    } else {
        states[0].registered_workspace_uuid@
    }
}

/// Whether a reset has begun and done nothing yet.
pub open spec fn has_just_begun(reset: ResetCompletionV1) -> bool {
    reset.step is RevalidateSource && reset.marker is None && !reset.marker_was_present
        && !reset.target_was_refused && !reset.database_was_removed
}

proof fn what_was_done_stays_done(
    states: Seq<ResetCompletionV1>,
    events: Seq<ResetEventV1>,
    step: ResetStepV1,
    before: int,
    later: int,
)
    requires
        before <= later,
        has_done(states, events, step, before),
    ensures
        has_done(states, events, step, later),
{
    let i = choose|i: int|
        #![trigger events[i]]
        0 <= i < before && states[i].step == step && events[i] is Succeeded;
    assert(0 <= i < later && states[i].step == step && events[i] is Succeeded);
}

/// Whether the steps that come before the one at a point of a course were done.
spec fn came_in_order(
    states: Seq<ResetCompletionV1>,
    events: Seq<ResetEventV1>,
    at: int,
) -> bool {
    let reset = states[at];
    let step = reset.step;
    let done = |step: ResetStepV1| has_done(states, events, step, at);
    let removed = step is ResolveTarget || step is ActivateTarget || step is Completed;
    let registered = step is RemoveMarker || removed;
    let revalidated = step is ReplaceRegistration || registered;
    let seeded = step is RevalidateBeforeRegistry || revalidated;
    &&& reset.registered_workspace_uuid == states[0].registered_workspace_uuid
    &&& reset.prepared == states[0].prepared
    &&& reset.expected_request == states[0].expected_request
    &&& !(step is RevalidateSource) ==> done(ResetStepV1::RevalidateSource)
    &&& !(step is RevalidateSource || step is RevalidateBeforeMarker) ==> done(
        ResetStepV1::RevalidateBeforeMarker,
    )
    &&& (step is RevalidateSource || step is RevalidateBeforeMarker || step is ReadMarker
        || step is RequireRetiredBeforeMarker || step is PublishMarker) <==> reset.marker is None
    &&& reset.marker is None ==> !reset.marker_was_present && !reset.target_was_refused
        && !reset.database_was_removed
    &&& step is PublishMarker || (reset.marker is Some && !reset.marker_was_present) ==> done(
        ResetStepV1::RequireRetiredBeforeMarker,
    )
    &&& reset.marker is Some && !reset.marker_was_present ==> done(ResetStepV1::PublishMarker)
        && reset.marker == reset.prepared
    &&& reset.marker_was_present ==> exists|i: int|
        #![trigger events[i]]
        0 <= i < at && events[i] == ResetEventV1::MarkerRead(reset.marker)
    &&& step is RequireRetiredAfterMarker ==> reset.marker_was_present
    &&& reset.marker_was_present && !(step is RequireRetiredAfterMarker) ==> done(
        ResetStepV1::RequireRetiredAfterMarker,
    )
    &&& reset.marker matches Some(marker) ==> {
        &&& marker.target_workspace_uuid@ != marker.previous_workspace_uuid@
        &&& reset.registered_workspace_uuid@ == marker.previous_workspace_uuid@
            || reset.registered_workspace_uuid@ == marker.target_workspace_uuid@
    }
    &&& reset.marker is Some && !(step is RequireRetiredAfterMarker || step is RevalidateBeforeWork)
        ==> done(ResetStepV1::RevalidateBeforeWork)
    &&& reset.database_was_removed ==> done(ResetStepV1::RemoveDatabase)
    &&& has_done(states, events, ResetStepV1::RemoveDatabase, at) ==> reset.database_was_removed
    &&& step is SeedTarget || seeded ==> reset.marker_was_present || reset.database_was_removed
    &&& seeded ==> done(ResetStepV1::SeedTarget)
    &&& revalidated ==> done(ResetStepV1::RevalidateBeforeRegistry)
    &&& has_done(states, events, ResetStepV1::ReplaceRegistration, at) ==> registered
    &&& has_done(states, events, ResetStepV1::RemoveMarker, at) ==> removed
    &&& step is ReplaceRegistration ==> reset.registered_workspace_uuid@
        == reset.marker->0.previous_workspace_uuid@
    &&& registered ==> if has_done(states, events, ResetStepV1::ReplaceRegistration, at) {
        reset.registered_workspace_uuid@ == reset.marker->0.previous_workspace_uuid@
    } else {
        reset.registered_workspace_uuid@ == reset.marker->0.target_workspace_uuid@
    }
    &&& removed ==> done(ResetStepV1::RemoveMarker)
    &&& step is ActivateTarget || step is Completed ==> done(ResetStepV1::ResolveTarget)
    &&& step is Completed ==> done(ResetStepV1::ActivateTarget)
}

proof fn every_step_comes_in_order(
    states: Seq<ResetCompletionV1>,
    events: Seq<ResetEventV1>,
    at: int,
)
    requires
        is_reset_course(states, events),
        has_just_begun(states[0]),
        0 <= at < states.len(),
    ensures
        came_in_order(states, events, at),
    decreases at,
{
    if at > 0 {
        every_step_comes_in_order(states, events, at - 1);
        let event = events[at - 1];
        assert(reset_next(states[at - 1], event) == Ok::<ResetCompletionV1, WorkspaceRuntimeErrorV1>(
            states[at - 1 + 1],
        ));
        assert forall|step: ResetStepV1| #[trigger]
            has_done(states, events, step, at) == (has_done(states, events, step, at - 1) || (
            states[at - 1].step == step && event is Succeeded)) by {
            if has_done(states, events, step, at - 1) {
                what_was_done_stays_done(states, events, step, at - 1, at);
            }
            if states[at - 1].step == step && event is Succeeded {
                assert(0 <= at - 1 < at && states[at - 1].step == step && events[at - 1]
                    is Succeeded);
            }
        }
        if states[at].marker_was_present && !states[at - 1].marker_was_present {
            assert(events[at - 1] == ResetEventV1::MarkerRead(states[at].marker));
        }
    }
}

/// The marker of a reset is removed only once the registration is the marker's target: where the
/// workspace that the marker starts from was registered, only through a replacement of the
/// registration that succeeded, whether the marker was found or published by this reset. So it is
/// from when the marker is about to be removed.
pub proof fn a_marker_outlives_the_old_registration(
    states: Seq<ResetCompletionV1>,
    events: Seq<ResetEventV1>,
    at: int,
)
    requires
        is_reset_course(states, events),
        has_just_begun(states[0]),
        0 <= at < states.len(),
        states[at].step is RemoveMarker || has_done(states, events, ResetStepV1::RemoveMarker, at),
    ensures
        states[at].marker matches Some(marker) && {
            &&& registered_at(states, events, at) == marker.target_workspace_uuid@
            &&& states[0].registered_workspace_uuid@ == marker.previous_workspace_uuid@ ==> has_done(
                states,
                events,
                ResetStepV1::ReplaceRegistration,
                at,
            )
            &&& states[0].registered_workspace_uuid@ == marker.previous_workspace_uuid@
                || states[0].registered_workspace_uuid@ == marker.target_workspace_uuid@
        },
{
    every_step_comes_in_order(states, events, at);
}

/// A reset that is complete has done all of it: its source was revalidated, its marker was read or
/// published once the old scheduler had retired, its target was seeded, and a database was removed
/// before that unless the target was there; the registry was asked once more and holds the target;
/// and then the marker was removed and the target resolved and activated.
pub proof fn a_completed_reset_has_done_it_all(
    states: Seq<ResetCompletionV1>,
    events: Seq<ResetEventV1>,
    at: int,
)
    requires
        is_reset_course(states, events),
        has_just_begun(states[0]),
        0 <= at < states.len(),
        states[at].step is Completed,
    ensures
        has_done(states, events, ResetStepV1::RevalidateSource, at),
        has_done(states, events, ResetStepV1::RevalidateBeforeMarker, at),
        states[at].marker matches Some(marker) && registered_at(states, events, at)
            == marker.target_workspace_uuid@,
        states[at].marker_was_present ==> has_done(
            states,
            events,
            ResetStepV1::RequireRetiredAfterMarker,
            at,
        ),
        states[at].marker_was_present ==> exists|i: int|
            #![trigger events[i]]
            0 <= i < at && events[i] == ResetEventV1::MarkerRead(states[at].marker),
        !states[at].marker_was_present ==> {
            &&& states[at].marker == states[0].prepared
            &&& has_done(states, events, ResetStepV1::RequireRetiredBeforeMarker, at)
            &&& has_done(states, events, ResetStepV1::PublishMarker, at)
            &&& has_done(states, events, ResetStepV1::RemoveDatabase, at)
        },
        has_done(states, events, ResetStepV1::RevalidateBeforeWork, at),
        has_done(states, events, ResetStepV1::SeedTarget, at),
        has_done(states, events, ResetStepV1::RevalidateBeforeRegistry, at),
        has_done(states, events, ResetStepV1::RemoveMarker, at),
        has_done(states, events, ResetStepV1::ResolveTarget, at),
        has_done(states, events, ResetStepV1::ActivateTarget, at),
{
    every_step_comes_in_order(states, events, at);
}

/// Nothing is destroyed but under the marker, and the marker lasts until all is done: the database
/// is removed, the registration replaced and the target seeded only after the marker was read or
/// published, after the old scheduler has retired, and before the marker is removed.
pub proof fn a_reset_works_under_its_marker(
    states: Seq<ResetCompletionV1>,
    events: Seq<ResetEventV1>,
    at: int,
)
    requires
        is_reset_course(states, events),
        has_just_begun(states[0]),
        0 <= at < states.len(),
        states[at].step is RemoveDatabase || states[at].step is SeedTarget
            || states[at].step is ReplaceRegistration,
    ensures
        !has_done(states, events, ResetStepV1::RemoveMarker, at),
        has_done(states, events, ResetStepV1::RevalidateBeforeWork, at),
        if states[at].marker_was_present {
            &&& has_done(states, events, ResetStepV1::RequireRetiredAfterMarker, at)
            &&& exists|i: int|
                #![trigger events[i]]
                0 <= i < at && events[i] == ResetEventV1::MarkerRead(states[at].marker)
        } else {
            &&& has_done(states, events, ResetStepV1::RequireRetiredBeforeMarker, at)
            &&& has_done(states, events, ResetStepV1::PublishMarker, at)
        },
        states[at].step is ReplaceRegistration ==> has_done(
            states,
            events,
            ResetStepV1::SeedTarget,
            at,
        ),
{
    every_step_comes_in_order(states, events, at);
}

/// A reset ends short only for cause: a step failed, the target could not be seeded, no marker was
/// there and none prepared, the marker is not the prepared one or not of the request, or it tells of
/// no reset from or to the registered workspace. Otherwise every step leads on.
pub proof fn a_reset_ends_short_only_for_cause(reset: ResetCompletionV1, event: ResetEventV1)
    requires
        reset.wf(),
        event_fits(reset.step, event),
    ensures
        reset_next(reset, event) is Err ==> {
            ||| event is Failed
            ||| event is SeedRefused
            ||| event == ResetEventV1::MarkerRead(None) && reset.prepared is None
            ||| event matches ResetEventV1::MarkerRead(Some(marker)) && {
                ||| reset.prepared matches Some(prepared) && marker != prepared
                ||| reset.prepared is None && (reset.expected_request matches Some((key, digest))
                    && (marker.idempotency_key@ != key@ || marker.request_digest@ != digest@))
                ||| marker.target_workspace_uuid@ == marker.previous_workspace_uuid@
                ||| marker.previous_workspace_uuid@ != reset.registered_workspace_uuid@
                    && marker.target_workspace_uuid@ != reset.registered_workspace_uuid@
            }
            ||| (reset.step is RequireRetiredBeforeMarker || reset.step is PublishMarker) && !(
            reset.prepared matches Some(prepared) && prepared.previous_workspace_uuid@
                == reset.registered_workspace_uuid@ && prepared.target_workspace_uuid@
                != reset.registered_workspace_uuid@)
        },
        event matches ResetEventV1::Failed(error) ==> reset_next(reset, event) == Err::<
            ResetCompletionV1,
            WorkspaceRuntimeErrorV1,
        >(error),
        event matches ResetEventV1::SeedRefused(error) ==> (match reset_next(reset, event) {
            Err(failure) => failure == WorkspaceRuntimeErrorV1::Store(error) && (
            !reset.marker_was_present || reset.database_was_removed || !(error is CorruptStateV1
                || error is StorageIntegrityV1 || error is NewerStateV1)),
            Ok(next) => next.step is RevalidateBeforeReplacement && reset.marker_was_present
                && !reset.database_was_removed && (error is CorruptStateV1
                || error is StorageIntegrityV1 || error is NewerStateV1),
        }),
        event == ResetEventV1::MarkerRead(None) && reset.prepared is None ==> reset_next(reset, event)
            == Err::<ResetCompletionV1, WorkspaceRuntimeErrorV1>(
            WorkspaceRuntimeErrorV1::ResetMarkerConflict,
        ),
{
}

/// A marker that was found is gone on with only if it is the prepared one, or of the request that is
/// expected where none was prepared, and tells of a reset from or to the registered workspace. Of a
/// request that used the same key for something else, both digests are told.
pub proof fn a_reset_goes_on_only_with_its_own_marker(
    reset: ResetCompletionV1,
    marker: ResetMarkerV1,
)
    requires
        reset.wf(),
        reset.step is ReadMarker,
    ensures
        match reset_next(reset, ResetEventV1::MarkerRead(Some(marker))) {
            Ok(next) => {
                &&& next.marker == Some(marker)
                &&& next.marker_was_present
                &&& next.step is RequireRetiredAfterMarker
                &&& next.registered_workspace_uuid == reset.registered_workspace_uuid
                &&& reset.prepared matches Some(prepared) ==> {
                    &&& marker.idempotency_key@ == prepared.idempotency_key@
                    &&& marker.request_digest@ == prepared.request_digest@
                    &&& marker.operation_id@ == prepared.operation_id@
                    &&& marker.previous_workspace_uuid@ == prepared.previous_workspace_uuid@
                    &&& marker.target_workspace_uuid@ == prepared.target_workspace_uuid@
                    &&& marker.submitted_at_ms == prepared.submitted_at_ms
                }
                &&& reset.prepared is None ==> (reset.expected_request matches Some((key, digest))
                    ==> marker.idempotency_key@ == key@ && marker.request_digest@ == digest@)
                &&& marker.previous_workspace_uuid@ == reset.registered_workspace_uuid@
                    || marker.target_workspace_uuid@ == reset.registered_workspace_uuid@
                &&& marker.target_workspace_uuid@ != marker.previous_workspace_uuid@
            },
            Err(error) => match reset.prepared {
                Some(prepared) => if marker.idempotency_key@ == prepared.idempotency_key@
                    && marker.request_digest@ != prepared.request_digest@ {
                    error == (WorkspaceRuntimeErrorV1::ResetIdempotencyConflict {
                        existing: marker.request_digest,
                        requested: prepared.request_digest,
                    })
                } else {
                    error == WorkspaceRuntimeErrorV1::ResetMarkerConflict
                },
                None => match reset.expected_request {
                    Some((key, digest)) => if marker.idempotency_key@ == key@
                        && marker.request_digest@ != digest@ {
                        error == (WorkspaceRuntimeErrorV1::ResetIdempotencyConflict {
                            existing: marker.request_digest,
                            requested: digest,
                        })
                    } else {
                        error == WorkspaceRuntimeErrorV1::ResetMarkerConflict
                    },
                    None => error == WorkspaceRuntimeErrorV1::ResetMarkerConflict,
                },
            },
        },
{
}

/// A reset after so many steps that succeeded.
pub open spec fn after_successes(reset: ResetCompletionV1, steps: nat) -> Result<
    ResetCompletionV1,
    WorkspaceRuntimeErrorV1,
>
    decreases steps,
{
    if steps == 0 || reset.step is Completed {
        Ok(reset)
    } else {
        match reset_next(reset, ResetEventV1::Succeeded) {
            Ok(next) => after_successes(next, (steps - 1) as nat),
            Err(error) => Err(error),
        }
    }
}

proof fn a_marked_reset_completes_in_time(reset: ResetCompletionV1, steps: nat)
    requires
        reset.wf(),
        reset.marker is Some,
        steps >= steps_left(reset),
    ensures
        after_successes(reset, steps) matches Ok(last) && last.step is Completed && last.marker
            == reset.marker && last.registered_workspace_uuid == reset.registered_workspace_uuid
            && last.marker_was_present == reset.marker_was_present && (reset.database_was_removed
            ==> last.database_was_removed) && (!reset.marker_was_present
            ==> last.database_was_removed || reset.step is Completed
            || reset.database_was_removed || !(reset.step is RevalidateBeforeWork
            || reset.step is RemoveDatabase)),
    decreases steps,
{
    if !(reset.step is Completed) {
        a_reset_comes_to_its_end(reset, ResetEventV1::Succeeded);
        let next = reset_next(reset, ResetEventV1::Succeeded)->Ok_0;
        a_marked_reset_completes_in_time(next, (steps - 1) as nat);
    }
}

/// A reset that has its marker completes if every step from there on succeeds, under the marker and
/// for the registered workspace that it had.
pub proof fn a_reset_under_its_marker_completes(reset: ResetCompletionV1, steps: nat)
    requires
        reset.wf(),
        reset.marker is Some,
        steps >= 15,
    ensures
        after_successes(reset, steps) matches Ok(last) && last.step is Completed && last.marker
            == reset.marker && last.registered_workspace_uuid == reset.registered_workspace_uuid,
{
    a_marked_reset_completes_in_time(reset, steps);
}

/// A reset that was prepared from the registered workspace, for another one, completes where no
/// marker is found and every step succeeds; it goes by the prepared marker and begins with an empty
/// database.
pub proof fn a_prepared_reset_completes(reset: ResetCompletionV1, steps: nat)
    requires
        reset.wf(),
        reset.step is ReadMarker,
        reset.prepared matches Some(prepared) && prepared.previous_workspace_uuid@
            == reset.registered_workspace_uuid@ && prepared.target_workspace_uuid@
            != reset.registered_workspace_uuid@,
        steps >= 15,
    ensures
        reset_next(reset, ResetEventV1::MarkerRead(None)) matches Ok(next) && (after_successes(
            next,
            steps,
        ) matches Ok(last) && last.step is Completed && last.marker == reset.prepared
            && last.database_was_removed && !last.marker_was_present),
{
    reveal_with_fuel(after_successes, 3);
    let read = reset_next(reset, ResetEventV1::MarkerRead(None))->Ok_0;
    let retired = reset_next(read, ResetEventV1::Succeeded)->Ok_0;
    let published = reset_next(retired, ResetEventV1::Succeeded)->Ok_0;
    a_marked_reset_completes_in_time(published, (steps - 2) as nat);
}

/// A reset that a crash left behind is finished: whatever point it had come to, as long as its marker
/// had not been removed, a reset that begins with what is then registered and finds the marker goes on
/// with it, and completes if every step succeeds.
pub proof fn a_reset_survives_a_crash(
    states: Seq<ResetCompletionV1>,
    events: Seq<ResetEventV1>,
    at: int,
    resumed: ResetCompletionV1,
    steps: nat,
)
    requires
        is_reset_course(states, events),
        has_just_begun(states[0]),
        0 <= at < states.len(),
        states[at].marker is Some,
        !has_done(states, events, ResetStepV1::RemoveMarker, at),
        resumed.wf(),
        resumed.step is ReadMarker,
        resumed.prepared is None,
        resumed.registered_workspace_uuid@ == registered_at(states, events, at),
        resumed.expected_request matches Some((key, digest)) ==> key@
            == states[at].marker->0.idempotency_key@ && digest@
            == states[at].marker->0.request_digest@,
        steps >= 15,
    ensures
        reset_next(resumed, ResetEventV1::MarkerRead(states[at].marker)) matches Ok(next) && (
        after_successes(next, steps) matches Ok(last) && last.step is Completed && last.marker
            == states[at].marker),
{
    every_step_comes_in_order(states, events, at);
    let next = reset_next(resumed, ResetEventV1::MarkerRead(states[at].marker))->Ok_0;
    a_reset_comes_to_its_end(resumed, ResetEventV1::MarkerRead(states[at].marker));
    a_reset_under_its_marker_completes(next, steps);
}

/// Whether two observations are of one worktree at the same roots.
pub open spec fn observe_one_worktree(left: GitEvidenceV1, right: GitEvidenceV1) -> bool {
    &&& left.common_directory_fingerprint@ == right.common_directory_fingerprint@
    &&& left.worktree_administration_fingerprint@ == right.worktree_administration_fingerprint@
    &&& left.roots@ == right.roots@
    &&& left.kind@ == right.kind@
    &&& left.containment@ == right.containment@
}

/// A reset begins exactly if it holds the maintenance of the worktree that it starts from and, where it was
/// prepared, was prepared from the workspace that is registered. It begins with nothing done.
pub proof fn a_reset_begins_where_it_was_prepared(
    lease_key: WorkspaceMaintenanceKeyV1,
    maintenance_key: WorkspaceMaintenanceKeyV1,
    worktree: GitEvidenceV1,
    authority: ResetSourceAuthorityV1,
    prepared: Option<PreparedResetV1>,
    expected_request: Option<(String, String)>,
    reset: Result<ResetCompletionV1, WorkspaceRuntimeErrorV1>,
)
    requires
        call_ensures(
            ResetCompletionV1::begin,
            (&lease_key, &maintenance_key, &worktree, &authority, prepared, expected_request),
            reset,
        ),
    ensures
        reset is Ok <==> {
            &&& lease_key.id() == maintenance_key.id()
            &&& maintenance_key.id().common_directory == worktree.common_directory_fingerprint@
            &&& maintenance_key.id().worktree_administration
                == worktree.worktree_administration_fingerprint@
            &&& observe_one_worktree(authority.worktree, worktree)
            &&& prepared matches Some(prepared) ==> prepared.matches_source
                && prepared.previous_workspace_uuid@ == authority.registry_previous_workspace_uuid@
                && prepared.marker.previous_workspace_uuid@
                == authority.registry_previous_workspace_uuid@
        },
        reset matches Ok(reset) ==> {
            &&& reset.step is RevalidateSource
            &&& reset.registered_workspace_uuid == authority.registry_previous_workspace_uuid
            &&& reset.prepared is Some <==> prepared is Some
            &&& prepared matches Some(prepared) ==> reset.prepared == Some(prepared.marker)
            &&& reset.expected_request == expected_request
            &&& reset.marker is None && !reset.marker_was_present && !reset.target_was_refused
                && !reset.database_was_removed
        },
{
}

/// A reset under way is gone on with exactly for the request that it was admitted for: its marker tells of a
/// reset from or to the registered workspace, to another one than it starts from, with the same key and the
/// same digest.
pub proof fn a_reset_is_resumed_for_its_own_request(
    marker: Option<&ResetMarkerV1>,
    registered: String,
    idempotency_key: String,
    digest: String,
    verdict: Result<(), WorkspaceRuntimeErrorV1>,
)
    requires
        call_ensures(
            validate_resume_request,
            (marker, &registered, &idempotency_key, &digest),
            verdict,
        ),
    ensures
        verdict is Ok <==> (marker matches Some(marker) && marker.target_workspace_uuid@
            != marker.previous_workspace_uuid@ && (marker.previous_workspace_uuid@ == registered@
            || marker.target_workspace_uuid@ == registered@) && marker.idempotency_key@
            == idempotency_key@ && marker.request_digest@ == digest@),
        verdict matches Err(error) ==> (error is ResetIdempotencyConflict <==> (
        marker matches Some(marker) && marker.target_workspace_uuid@
            != marker.previous_workspace_uuid@ && (marker.previous_workspace_uuid@ == registered@
            || marker.target_workspace_uuid@ == registered@) && marker.idempotency_key@
            == idempotency_key@)) && (error is ResetIdempotencyConflict
            || error is ResetMarkerConflict),
{
}

/// The target of a reset begins with the job that its marker tells of, which answers the request that asked
/// for the reset, where that is known, for the target.
pub proof fn a_target_begins_with_the_job_of_its_marker(
    marker: ResetMarkerV1,
    worktree_root: String,
    request: ResetSeedRequestV1,
)
    requires
        call_ensures(reset_seed_request, (&marker, worktree_root), request),
    ensures
        request.idempotency_key@ == marker.idempotency_key@,
        request.job_id@ == marker.operation_id@,
        request.request_digest@ == marker.request_digest@,
        request.submitted_at == marker.submitted_at_ms,
        request.response_context is Some <==> marker.response_request_id is Some,
        request.response_context matches Some(context) ==> marker.response_request_id == Some(
            context.request_id,
        ) && context.command@ == "workspace.reset_all"@ && context.workspace_uuid@
            == marker.target_workspace_uuid@ && context.workspace_root@ == worktree_root@
            && context.workspace_sequence == 1,
{
}

/// A target is replaced exactly if its state is corrupt, damaged or of a newer version.
pub proof fn only_a_damaged_target_is_replaced(error: StoreErrorV1, replaceable: bool)
    requires
        call_ensures(reset_seed_requires_fixed_replacement, (&error,), replaceable),
    ensures
        replaceable <==> error is CorruptStateV1 || error is StorageIntegrityV1
            || error is NewerStateV1,
{
}

/// A reset goes on with what it starts from exactly if that is what it was prepared with: the same worktree,
/// the same registered workspace, the same identity in the same state.
pub proof fn a_reset_goes_on_from_what_it_was_prepared_with(
    fresh: ResetSourceAuthorityV1,
    authority: ResetSourceAuthorityV1,
    worktree: GitEvidenceV1,
    verdict: Result<(), WorkspaceRuntimeErrorV1>,
)
    requires
        call_ensures(
            revalidate_reset_source_authority,
            (&fresh, &authority, &worktree),
            verdict,
        ),
    ensures
        verdict is Ok <==> {
            &&& observe_one_worktree(fresh.worktree, worktree)
            &&& fresh.registry_previous_workspace_uuid@
                == authority.registry_previous_workspace_uuid@
            &&& fresh.persisted_identity is Some <==> authority.persisted_identity is Some
            &&& fresh.persisted_identity matches Some(left) ==> (
            authority.persisted_identity matches Some(right) ==> left.workspace_uuid@
                == right.workspace_uuid@ && left.common_dir_identity@ == right.common_dir_identity@
                && left.worktree_admin_identity@ == right.worktree_admin_identity@)
            &&& fresh.store_inspection is Readable <==> authority.store_inspection is Readable
            &&& fresh.store_inspection is Absent <==> authority.store_inspection is Absent
            &&& fresh.store_inspection matches ResetStoreInspectionV1::Unreadable { error: left }
                ==> (authority.store_inspection matches ResetStoreInspectionV1::Unreadable {
                error: right,
            } ==> left@ == right@)
        },
        verdict matches Err(error) ==> error is ResetRegistryPredecessorStale,
{
}

/// A reset waits for the old scheduler to retire: it is let through exactly if that is not active, no
/// generation of the worktree is left that has not stopped its claims, drained its work and closed its
/// Store.
pub proof fn a_reset_waits_for_the_old_scheduler(
    coordinator: WorkspaceMaintenanceCoordinatorV1,
    key: WorkspaceMaintenanceKeyV1,
    previous_workspace_uuid: String,
    old_scheduler_active: bool,
    verdict: Result<(), WorkspaceRuntimeErrorV1>,
)
    requires
        call_ensures(
            require_scheduler_retired_for_reset,
            (&coordinator, &key, &previous_workspace_uuid, old_scheduler_active),
            verdict,
        ),
    ensures
        verdict is Ok <==> !old_scheduler_active && forall|slot: u64|
            (#[trigger] coordinator.generation(slot)) matches Some(record) ==> (
            record.binding.source.common_dir_identity@ == key.id().common_directory
                && record.binding.source.worktree_admin_identity@
                == key.id().worktree_administration ==> record.claims_stopped && record.work_drained
                && record.store_closed),
        verdict matches Err(error) ==> error is ResetSchedulerRetirement,
{
    let missing = retirement_is_missing(
        coordinator,
        key.id(),
        previous_workspace_uuid@,
        old_scheduler_active,
    );
    if !missing {
        assert forall|slot: u64|
            (#[trigger] coordinator.generation(slot)) matches Some(record) implies (
            coordinator.generation(slot) matches Some(record) && (
            record.binding.source.common_dir_identity@ == key.id().common_directory
                && record.binding.source.worktree_admin_identity@
                == key.id().worktree_administration ==> record.claims_stopped && record.work_drained
                && record.store_closed)) by {
            let record = coordinator.generation(slot)->Some_0;
            if record.binding.source.common_dir_identity@ == key.id().common_directory
                && record.binding.source.worktree_admin_identity@
                == key.id().worktree_administration {
                assert(maintenance::identity_key(record.binding.source) == key.id());
            }
        }
    }
}

/// What is known of the Store of the workspace to be reset is what resolving it told: a Store that was read
/// with its identity, one that is not there, one that cannot be read, or another workspace in its place,
/// which only the marker of a reset from the registered one explains.
pub proof fn a_source_is_what_resolving_it_told(
    resolved: Result<DurableWorktreeIdentityV1, WorkspaceResolutionErrorV1>,
    error_text: String,
    step: ResetSourceStepV1,
    marker: Option<&ResetMarkerV1>,
    registered: String,
    expected: String,
    actual: String,
    inspection: Result<ResetStoreInspectionV1, WorkspaceRuntimeErrorV1>,
)
    requires
        call_ensures(reset_source_step, (resolved, error_text), step),
        call_ensures(
            reset_source_after_marker,
            (marker, &registered, expected, actual),
            inspection,
        ),
    ensures
        step matches ResetSourceStepV1::Inspected { persisted_identity, store_inspection } ==> {
            &&& store_inspection is Readable <==> resolved is Ok
            &&& persisted_identity is Some <==> resolved is Ok
            &&& resolved matches Ok(identity) ==> persisted_identity == Some(identity)
            &&& store_inspection is Absent <==> (resolved matches Err(error)
                && error is ExistingBindingMissing)
            &&& store_inspection is Unreadable <==> (resolved matches Err(error)
                && error is BindingInspection)
        },
        step is Inspected <==> (resolved matches Err(error) ==> error is ExistingBindingMissing
            || error is BindingInspection),
        step is ReadMarker <==> (resolved matches Err(error)
            && error is ExpectedWorkspaceUuidMismatch),
        inspection is Ok <==> (marker matches Some(marker) && marker.target_workspace_uuid@
            == actual@ && marker.previous_workspace_uuid@ == registered@),
        inspection matches Ok(inspection) ==> inspection is Absent,
{
}

/// The workspace to be reset is found by its own identity where its Store told it, and otherwise by the
/// registered workspace of the observed worktree. That its Store is not available is proven exactly if it
/// could not be read.
pub proof fn a_source_is_found_by_its_own_identity(
    authority: ResetSourceAuthorityV1,
    identity: DurableWorktreeIdentityV1,
    proven: Option<UnavailableStoreV1>,
)
    requires
        call_ensures(ResetSourceAuthorityV1::routing_identity, (&authority,), identity),
        call_ensures(ResetSourceAuthorityV1::unavailable_store_proof, (&authority,), proven),
    ensures
        match authority.persisted_identity {
            Some(persisted) => identity == persisted,
            None => identity.workspace_uuid@ == authority.registry_previous_workspace_uuid@
                && identity.common_dir_identity@
                == authority.worktree.common_directory_fingerprint@
                && identity.worktree_admin_identity@
                == authority.worktree.worktree_administration_fingerprint@,
        },
        proven is None <==> authority.store_inspection is Readable,
        proven matches Some(UnavailableStoreV1::Absent { source }) ==> source == identity
            && authority.store_inspection is Absent,
        proven matches Some(UnavailableStoreV1::Unreadable { source, error }) ==> source == identity
            && authority.store_inspection == (ResetStoreInspectionV1::Unreadable { error }),
{
}

proof fn the_entries_at_a_root_are_at_it(entries: Seq<WorkspaceRegistryEntryV1>, root: Seq<char>)
    ensures
        forall|entry: WorkspaceRegistryEntryV1|
            #![trigger entries.contains(entry)]
            #![trigger entries_at(entries, root).contains(entry)]
            entries_at(entries, root).contains(entry) <==> entries.contains(entry)
                && entry.last_known_root@ == root,
    decreases entries.len(),
{
    reveal(Seq::filter);
    if entries.len() > 0 {
        let before = entries.drop_last();
        let last = entries.last();
        the_entries_at_a_root_are_at_it(before, root);
        let at = entries_at(entries, root);
        let at_before = entries_at(before, root);
        assert(at == if last.last_known_root@ == root {
            at_before.push(last)
        } else {
            at_before
        });
        assert forall|entry: WorkspaceRegistryEntryV1|
            #![trigger entries.contains(entry)]
            #![trigger entries_at(entries, root).contains(entry)]
            entries_at(entries, root).contains(entry) <==> entries.contains(entry)
                && entry.last_known_root@ == root by {
            assert(at_before.contains(entry) <==> before.contains(entry) && entry.last_known_root@
                == root);
            if entries.contains(entry) {
                let i = choose|i: int| 0 <= i < entries.len() && entries[i] == entry;
                if i < before.len() {
                    assert(before[i] == entry);
                }
            }
            if before.contains(entry) {
                let i = choose|i: int| 0 <= i < before.len() && before[i] == entry;
                assert(entries[i] == entry);
            }
            if at_before.contains(entry) {
                let i = choose|i: int| 0 <= i < at_before.len() && at_before[i] == entry;
                assert(at[i] == entry);
            }
            if at.contains(entry) {
                let i = choose|i: int| 0 <= i < at.len() && at[i] == entry;
                if i < at_before.len() {
                    assert(at_before[i] == entry);
                }
            }
            assert(entries[entries.len() - 1] == last);
            if last.last_known_root@ == root {
                assert(at[at_before.len() as int] == last);
            }
        }
    }
}

/// A reset replaces the registration at its root: it is found exactly where it is the only one, and the
/// replaced registration is still the one that was found exactly as long as it is.
pub proof fn a_reset_replaces_the_registration_at_its_root(
    registry: WorkspaceRegistryV1,
    root: String,
    entry: Result<&WorkspaceRegistryEntryV1, WorkspaceRuntimeErrorV1>,
    previous_workspace_uuid: String,
    verdict: Result<(), WorkspaceRuntimeErrorV1>,
)
    requires
        call_ensures(registered_reset_source, (&registry, &root), entry),
        call_ensures(
            revalidate_reset_registry_predecessor,
            (&registry, &root, &previous_workspace_uuid),
            verdict,
        ),
    ensures
        entry matches Ok(entry) ==> registry@.contains(*entry) && entry.last_known_root@ == root@
            && forall|other: WorkspaceRegistryEntryV1| #[trigger]
            registry@.contains(other) && other.last_known_root@ == root@ ==> other == *entry,
        entry matches Err(error) ==> (error is ResetSourceNotRegistered <==> forall|
            other: WorkspaceRegistryEntryV1,
        | #[trigger]
            registry@.contains(other) ==> other.last_known_root@ != root@) && (
        error is ResetSourceNotRegistered || error is ResetSourceAmbiguous),
        verdict is Ok <==> (entry matches Ok(entry) && entry.workspace_uuid@
            == previous_workspace_uuid@),
        verdict matches Err(error) ==> error is ResetRegistryPredecessorStale,
{
    the_entries_at_a_root_are_at_it(registry@, root@);
    let at = entries_at(registry@, root@);
    match entry {
        Ok(entry) => {
            assert(at[0] == *entry);
            assert(at.contains(*entry));
        },
        Err(_) => {
            if at.len() > 0 {
                assert(at.contains(at[0]));
                assert(registry@.contains(at[0]));
            }
        },
    }
}

} // verus!
