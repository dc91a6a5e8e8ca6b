//! Who may work on a worktree, and which scheduler generations have retired from it.
//!
//! Maintenance has a worktree to itself: it does not begin while a scheduler is being activated or a
//! job claimed, and neither begins while it lasts. A scheduler context is rebound only by the single
//! activation under way, and without claims. A generation has retired once its claims were stopped,
//! its work drained and its Store closed, in that order.

use crate::runtime_workspace::store_slot::WorkspaceStoreSlotTokenV1;

use crate::scheduler::{SchedulerGenerationV1, WorkspaceSchedulerKeyV1};
use crate::store;
use crate::store::{copy_identity, same_identity, DurableWorktreeIdentityV1};
use vstd::prelude::*;

verus! {

/// What maintenance of a worktree is named by. The workspace that the worktree holds has no part in
/// it, so that a workspace and the one that a reset leads to share a name.
#[derive(Clone, Debug, PartialEq, Eq)]
pub struct WorkspaceMaintenanceKeyV1 {
    pub common_directory_fingerprint: String,
    pub worktree_administration_fingerprint: String,
}

/// The characters of a maintenance key.
pub ghost struct MaintenanceKeyId {
    pub common_directory: Seq<char>,
    pub worktree_administration: Seq<char>,
}

/// The leases that are out on a worktree.
#[derive(Clone, Copy, Debug, PartialEq, Eq, Structural)]
pub struct WorktreeLeasesV1 {
    pub maintenance: bool,
    pub rebind: bool,
    pub activations: usize,
    pub claims: usize,
}

/// The leases on one worktree.
pub struct WorktreeLeaseEntryV1 {
    key: WorkspaceMaintenanceKeyV1,
    leases: WorktreeLeasesV1,
}

/// A scheduler generation, and the Store slot that it works on.
#[derive(Clone, Debug, PartialEq, Eq)]
pub struct WorkspaceSchedulerRetirementBindingV1 {
    pub key: WorkspaceSchedulerKeyV1,
    pub generation: SchedulerGenerationV1,
    pub source: DurableWorktreeIdentityV1,
    pub store_slot: WorkspaceStoreSlotTokenV1,
}

/// How far a generation has retired.
#[derive(Debug, PartialEq, Eq)]
pub struct WorkspaceSchedulerRetirementStateV1 {
    pub binding: WorkspaceSchedulerRetirementBindingV1,
    pub claims_stopped: bool,
    pub work_drained: bool,
    pub store_closed: bool,
}

/// The leases on the worktrees of this process, and the generations that work on them.
pub struct WorkspaceMaintenanceCoordinatorV1 {
    entries: Vec<WorktreeLeaseEntryV1>,
    generations: Vec<WorkspaceSchedulerRetirementStateV1>,
}

impl WorkspaceMaintenanceKeyV1 {
    /// The characters of the key.
    pub open spec fn id(self) -> MaintenanceKeyId {
        MaintenanceKeyId {
            common_directory: self.common_directory_fingerprint@,
            worktree_administration: self.worktree_administration_fingerprint@,
        }
    }

    /// The key of the worktree that an identity belongs to.
    pub fn from_durable_identity(identity: &DurableWorktreeIdentityV1) -> (key: Self)
        ensures
            key.id() == identity_key(*identity),
    {
        WorkspaceMaintenanceKeyV1 {
            common_directory_fingerprint: identity.common_dir_identity.clone(),
            worktree_administration_fingerprint: identity.worktree_admin_identity.clone(),
        }
    }

    /// Whether two keys name the same worktree.
    pub fn same(&self, other: &Self) -> (same: bool)
        ensures
            same == (self.id() == other.id()),
    {
        self.common_directory_fingerprint == other.common_directory_fingerprint
            && self.worktree_administration_fingerprint
            == other.worktree_administration_fingerprint
    }

    /// The same key once more.
    pub fn copy(&self) -> (key: Self)
        ensures
            key == *self,
    {
        WorkspaceMaintenanceKeyV1 {
            common_directory_fingerprint: self.common_directory_fingerprint.clone(),
            worktree_administration_fingerprint: self.worktree_administration_fingerprint.clone(),
        }
    }
}

/// The key of the worktree that an identity belongs to.
pub open spec fn identity_key(identity: DurableWorktreeIdentityV1) -> MaintenanceKeyId {
    MaintenanceKeyId {
        common_directory: identity.common_dir_identity@,
        worktree_administration: identity.worktree_admin_identity@,
    }
}

/// No leases.
pub open spec fn no_leases() -> WorktreeLeasesV1 {
    WorktreeLeasesV1 { maintenance: false, rebind: false, activations: 0, claims: 0 }
}

/// Whether leases go together: maintenance goes with neither activations nor claims, and a rebind
/// goes with the single activation that it is part of, and without claims.
pub open spec fn leases_go_together(leases: WorktreeLeasesV1) -> bool {
    &&& leases.maintenance ==> leases.activations == 0 && leases.claims == 0
    &&& leases.rebind ==> leases.activations == 1 && leases.claims == 0
}

/// Whether maintenance may begin beside the given leases.
pub open spec fn maintenance_may_begin(leases: WorktreeLeasesV1) -> bool {
    !leases.maintenance && leases.activations == 0 && leases.claims == 0
}

/// Whether an activation or a claim may begin beside the given leases.
pub open spec fn work_may_begin(leases: WorktreeLeasesV1) -> bool {
    !leases.maintenance && !leases.rebind
}

/// Whether a rebind may begin beside the given leases.
pub open spec fn rebind_may_begin(leases: WorktreeLeasesV1) -> bool {
    !leases.maintenance && !leases.rebind && leases.claims == 0 && leases.activations == 1
}

/// Maintenance and work keep each other out: beside maintenance neither an activation, nor a claim,
/// nor a rebind begins, and beside an activation or a claim no maintenance. Maintenance begins exactly
/// where no lease is out, and once it has ended each of them may begin again.
pub proof fn maintenance_and_work_keep_each_other_out(leases: WorktreeLeasesV1)
    requires
        leases_go_together(leases),
    ensures
        leases.maintenance ==> !work_may_begin(leases) && !rebind_may_begin(leases)
            && !maintenance_may_begin(leases),
        leases.activations > 0 || leases.claims > 0 ==> !maintenance_may_begin(leases),
        leases.rebind ==> !work_may_begin(leases) && !rebind_may_begin(leases),
        maintenance_may_begin(leases) <==> leases == no_leases(),
        leases.maintenance ==> (WorktreeLeasesV1 { maintenance: false, ..leases }) == no_leases(),
        maintenance_may_begin(no_leases()) && work_may_begin(no_leases()),
{
}

spec fn held(entries: Seq<WorktreeLeaseEntryV1>, id: MaintenanceKeyId) -> WorktreeLeasesV1
    decreases entries.len(),
{
    if entries.len() == 0 {
        no_leases()
    } else if entries.last().key.id() == id {
        entries.last().leases
    } else {
        held(entries.drop_last(), id)
    }
}

spec fn keys_are_distinct(entries: Seq<WorktreeLeaseEntryV1>) -> bool {
    forall|i: int, j: int|
        0 <= i < j < entries.len() ==> (#[trigger] entries[i]).key.id() != (
        #[trigger] entries[j]).key.id()
}

proof fn held_where_found(entries: Seq<WorktreeLeaseEntryV1>, place: int)
    requires
        keys_are_distinct(entries),
        0 <= place < entries.len(),
    ensures
        held(entries, entries[place].key.id()) == entries[place].leases,
    decreases entries.len(),
{
    if place < entries.len() - 1 {
        held_where_found(entries.drop_last(), place);
    }
}

proof fn held_where_absent(entries: Seq<WorktreeLeaseEntryV1>, id: MaintenanceKeyId)
    requires
        forall|i: int| 0 <= i < entries.len() ==> (#[trigger] entries[i]).key.id() != id,
    ensures
        held(entries, id) == no_leases(),
    decreases entries.len(),
{
    if entries.len() > 0 {
        held_where_absent(entries.drop_last(), id);
    }
}

/// Whatever is held of a key goes together where the leases of every entry do.
proof fn held_goes_together(entries: Seq<WorktreeLeaseEntryV1>, id: MaintenanceKeyId)
    requires
        forall|i: int|
            0 <= i < entries.len() ==> leases_go_together((#[trigger] entries[i]).leases),
    ensures
        leases_go_together(held(entries, id)),
    decreases entries.len(),
{
    if entries.len() > 0 && entries.last().key.id() != id {
        held_goes_together(entries.drop_last(), id);
    }
}

/// What is held of every key is the same in two lists, one of which differs from the other in the
/// entry of one key at most.
proof fn held_elsewhere(
    before: Seq<WorktreeLeaseEntryV1>,
    after: Seq<WorktreeLeaseEntryV1>,
    id: MaintenanceKeyId,
)
    requires
        keys_are_distinct(before),
        keys_are_distinct(after),
        forall|i: int|
            0 <= i < before.len() && (#[trigger] before[i]).key.id() == id ==> exists|j: int|
                0 <= j < after.len() && #[trigger] after[j] == before[i],
        forall|j: int|
            0 <= j < after.len() && (#[trigger] after[j]).key.id() == id ==> exists|i: int|
                0 <= i < before.len() && #[trigger] before[i] == after[j],
    ensures
        held(after, id) == held(before, id),
{
    if exists|i: int| 0 <= i < before.len() && (#[trigger] before[i]).key.id() == id {
        let i = choose|i: int| 0 <= i < before.len() && (#[trigger] before[i]).key.id() == id;
        let j = choose|j: int| 0 <= j < after.len() && #[trigger] after[j] == before[i];
        held_where_found(before, i);
        held_where_found(after, j);
    } else {
        held_where_absent(before, id);
        assert forall|j: int| 0 <= j < after.len() implies (#[trigger] after[j]).key.id() != id by {
            if after[j].key.id() == id {
                let i = choose|i: int| 0 <= i < before.len() && #[trigger] before[i] == after[j];
                assert(before[i].key.id() == id);
            }
        }
        held_where_absent(after, id);
    }
}

spec fn recorded(
    generations: Seq<WorkspaceSchedulerRetirementStateV1>,
    slot: u64,
) -> Option<WorkspaceSchedulerRetirementStateV1>
    decreases generations.len(),
{
    if generations.len() == 0 {
        None
    } else if generations.last().binding.store_slot.number == slot {
        Some(generations.last())
    } else {
        recorded(generations.drop_last(), slot)
    }
}

spec fn slots_are_distinct(generations: Seq<WorkspaceSchedulerRetirementStateV1>) -> bool {
    forall|i: int, j: int|
        0 <= i < j < generations.len() ==> (#[trigger] generations[i]).binding.store_slot.number
            != (#[trigger] generations[j]).binding.store_slot.number
}

proof fn recorded_where_found(generations: Seq<WorkspaceSchedulerRetirementStateV1>, place: int)
    requires
        slots_are_distinct(generations),
        0 <= place < generations.len(),
    ensures
        recorded(generations, generations[place].binding.store_slot.number) == Some(
            generations[place],
        ),
    decreases generations.len(),
{
    if place < generations.len() - 1 {
        recorded_where_found(generations.drop_last(), place);
    }
}

proof fn recorded_where_absent(generations: Seq<WorkspaceSchedulerRetirementStateV1>, slot: u64)
    requires
        forall|i: int|
            0 <= i < generations.len() ==> (
            #[trigger] generations[i]).binding.store_slot.number != slot,
    ensures
        recorded(generations, slot) is None,
    decreases generations.len(),
{
    if generations.len() > 0 {
        recorded_where_absent(generations.drop_last(), slot);
    }
}

proof fn recorded_elsewhere(
    before: Seq<WorkspaceSchedulerRetirementStateV1>,
    after: Seq<WorkspaceSchedulerRetirementStateV1>,
    slot: u64,
)
    requires
        slots_are_distinct(before),
        slots_are_distinct(after),
        forall|i: int|
            0 <= i < before.len() && (#[trigger] before[i]).binding.store_slot.number == slot
                ==> exists|j: int| 0 <= j < after.len() && #[trigger] after[j] == before[i],
        forall|j: int|
            0 <= j < after.len() && (#[trigger] after[j]).binding.store_slot.number == slot
                ==> exists|i: int| 0 <= i < before.len() && #[trigger] before[i] == after[j],
    ensures
        recorded(after, slot) == recorded(before, slot),
{
    if exists|i: int|
        0 <= i < before.len() && (#[trigger] before[i]).binding.store_slot.number == slot {
        let i = choose|i: int|
            0 <= i < before.len() && (#[trigger] before[i]).binding.store_slot.number == slot;
        let j = choose|j: int| 0 <= j < after.len() && #[trigger] after[j] == before[i];
        recorded_where_found(before, i);
        recorded_where_found(after, j);
    } else {
        recorded_where_absent(before, slot);
        assert forall|j: int| 0 <= j < after.len() implies (
        #[trigger] after[j]).binding.store_slot.number != slot by {
            if after[j].binding.store_slot.number == slot {
                let i = choose|i: int| 0 <= i < before.len() && #[trigger] before[i] == after[j];
                assert(before[i].binding.store_slot.number == slot);
            }
        }
        recorded_where_absent(after, slot);
    }
}

/// What is recorded of any slot was recorded in some place.
proof fn recorded_has_a_place(
    generations: Seq<WorkspaceSchedulerRetirementStateV1>,
    slot: u64,
) -> (place: int)
    requires
        recorded(generations, slot) is Some,
    ensures
        0 <= place < generations.len(),
        recorded(generations, slot) == Some(generations[place]),
        generations[place].binding.store_slot.number == slot,
    decreases generations.len(),
{
    if generations.last().binding.store_slot.number == slot {
        generations.len() - 1
    } else {
        recorded_has_a_place(generations.drop_last(), slot)
    }
}

/// Whether a record is the one of the given generation of the given source.
pub open spec fn is_record_of(
    record: WorkspaceSchedulerRetirementStateV1,
    binding: WorkspaceSchedulerRetirementBindingV1,
) -> bool {
    &&& record.binding.key.identity() == binding.key.identity()
    &&& record.binding.generation == binding.generation
    &&& store::same_identity_spec(record.binding.source, binding.source)
}

/// Whether a generation has retired.
pub open spec fn has_retired(record: WorkspaceSchedulerRetirementStateV1) -> bool {
    record.claims_stopped && record.work_drained && record.store_closed
}

/// Whether a generation has retired in order so far.
pub open spec fn retires_in_order(record: WorkspaceSchedulerRetirementStateV1) -> bool {
    &&& record.work_drained ==> record.claims_stopped
    &&& record.store_closed ==> record.work_drained
}

fn is_same_record(
    record: &WorkspaceSchedulerRetirementStateV1,
    binding: &WorkspaceSchedulerRetirementBindingV1,
) -> (same: bool)
    ensures
        same == is_record_of(*record, *binding),
{
    record.binding.key.same(&binding.key) && record.binding.generation == binding.generation
        && same_identity(&record.binding.source, &binding.source)
}

impl WorkspaceMaintenanceCoordinatorV1 {
    /// The leases that are out on a worktree.
    pub closed spec fn leases(self, id: MaintenanceKeyId) -> WorktreeLeasesV1 {
        held(self.entries@, id)
    }

    /// What is recorded of the generation that works on a slot.
    pub closed spec fn generation(self, slot: u64) -> Option<WorkspaceSchedulerRetirementStateV1> {
        recorded(self.generations@, slot)
    }

    /// Whether the coordinator holds one entry for each worktree and one record for each slot, its
    /// leases go together, and its generations retire in order.
    pub closed spec fn wf(self) -> bool {
        &&& keys_are_distinct(self.entries@)
        &&& slots_are_distinct(self.generations@)
        &&& forall|i: int|
            0 <= i < self.entries@.len() ==> leases_go_together(
                (#[trigger] self.entries@[i]).leases,
            )
        &&& forall|i: int|
            0 <= i < self.generations@.len() ==> retires_in_order(#[trigger] self.generations@[i])
    }

    /// Whether the leases of every other worktree, and every record, are as before.
    pub open spec fn changes_only_leases(self, before: Self, id: MaintenanceKeyId) -> bool {
        &&& forall|other: MaintenanceKeyId|
            other != id ==> #[trigger] self.leases(other) == before.leases(other)
        &&& forall|slot: u64| #[trigger] self.generation(slot) == before.generation(slot)
    }

    /// Whether the records of every other slot, and all leases, are as before.
    pub open spec fn changes_only_record(self, before: Self, slot: u64) -> bool {
        &&& forall|other: u64|
            other != slot ==> #[trigger] self.generation(other) == before.generation(other)
        &&& forall|id: MaintenanceKeyId| #[trigger] self.leases(id) == before.leases(id)
    }

    /// A coordinator without leases and generations.
    pub fn new() -> (coordinator: Self)
        ensures
            coordinator.wf(),
            forall|id: MaintenanceKeyId| #[trigger] coordinator.leases(id) == no_leases(),
            forall|slot: u64| #[trigger] coordinator.generation(slot) is None,
    {
        WorkspaceMaintenanceCoordinatorV1 { entries: Vec::new(), generations: Vec::new() }
    }

    /// The place of the entry of a worktree, if it has one.
    fn entry_place(&self, key: &WorkspaceMaintenanceKeyV1) -> (place: Option<usize>)
        ensures
            match place {
                Some(place) => place < self.entries@.len() && self.entries@[place as int].key.id()
                    == key.id(),
                None => forall|i: int|
                    0 <= i < self.entries@.len() ==> (#[trigger] self.entries@[i]).key.id()
                        != key.id(),
            },
    {
        let mut place: usize = 0;
        while place < self.entries.len()
            invariant
                place <= self.entries@.len(),
                forall|i: int|
                    0 <= i < place ==> (#[trigger] self.entries@[i]).key.id() != key.id(),
            decreases self.entries@.len() - place,
        {
            if self.entries[place].key.same(key) {
                return Some(place);
            }
            place = place + 1;
        }
        None
    }

    /// The leases that are out on a worktree.
    pub fn leases_of(&self, key: &WorkspaceMaintenanceKeyV1) -> (leases: WorktreeLeasesV1)
        requires
            self.wf(),
        ensures
            leases == self.leases(key.id()),
            leases_go_together(leases),
    {
        match self.entry_place(key) {
            Some(place) => {
                proof {
                    held_where_found(self.entries@, place as int);
                }
                self.entries[place].leases
            },
            None => {
                proof {
                    held_where_absent(self.entries@, key.id());
                }
                WorktreeLeasesV1 { maintenance: false, rebind: false, activations: 0, claims: 0 }
            },
        }
    }

    /// Puts other leases on a worktree. A worktree without leases has no entry.
    fn set_leases(&mut self, key: &WorkspaceMaintenanceKeyV1, leases: WorktreeLeasesV1)
        requires
            old(self).wf(),
            leases_go_together(leases),
        ensures
            final(self).wf(),
            final(self).leases(key.id()) == leases,
            final(self).changes_only_leases(*old(self), key.id()),
    {
        let ghost before = self.entries@;
        let free = !leases.maintenance && !leases.rebind && leases.activations == 0
            && leases.claims == 0;
        match self.entry_place(key) {
            Some(place) => {
                if free {
                    let _ = self.entries.remove(place);
                    proof {
                        let after = self.entries@;
                        assert(after == before.remove(place as int));
                        assert forall|i: int, j: int| 0 <= i < j < after.len() implies (
                        #[trigger] after[i]).key.id() != (#[trigger] after[j]).key.id() by {
                            let left = if i < place { i } else { i + 1 };
                            let right = if j < place { j } else { j + 1 };
                            assert(after[i] == before[left] && after[j] == before[right]);
                        }
                        assert forall|i: int| 0 <= i < after.len() implies (
                        #[trigger] after[i]).key.id() != key.id() && leases_go_together(
                            after[i].leases,
                        ) by {
                            let left = if i < place { i } else { i + 1 };
                            assert(after[i] == before[left]);
                            if left < place {
                                assert(before[left].key.id() != before[place as int].key.id());
                            } else {
                                assert(before[place as int].key.id() != before[left].key.id());
                            }
                        }
                        held_where_absent(after, key.id());
                        assert forall|other: MaintenanceKeyId| other != key.id() implies held(
                            after,
                            other,
                        ) == held(before, other) by {
                            assert forall|i: int|
                                0 <= i < before.len() && (#[trigger] before[i]).key.id()
                                    == other implies exists|j: int|
                                0 <= j < after.len() && #[trigger] after[j] == before[i] by {
                                let right = if i < place { i } else { i - 1 };
                                assert(after[right] == before[i]);
                            }
                            assert forall|j: int|
                                0 <= j < after.len() && (#[trigger] after[j]).key.id()
                                    == other implies exists|i: int|
                                0 <= i < before.len() && #[trigger] before[i] == after[j] by {
                                let left = if j < place { j } else { j + 1 };
                                assert(before[left] == after[j]);
                            }
                            held_elsewhere(before, after, other);
                        }
                    }
                } else {
                    let changed = WorktreeLeaseEntryV1 { key: key.copy(), leases };
                    self.entries.set(place, changed);
                    proof {
                        let after = self.entries@;
                        assert(after == before.update(place as int, changed));
                        assert(keys_are_distinct(after));
                        held_where_found(after, place as int);
                        assert forall|other: MaintenanceKeyId| other != key.id() implies held(
                            after,
                            other,
                        ) == held(before, other) by {
                            assert forall|i: int|
                                0 <= i < before.len() && (#[trigger] before[i]).key.id()
                                    == other implies exists|j: int|
                                0 <= j < after.len() && #[trigger] after[j] == before[i] by {
                                assert(after[i] == before[i]);
                            }
                            assert forall|j: int|
                                0 <= j < after.len() && (#[trigger] after[j]).key.id()
                                    == other implies exists|i: int|
                                0 <= i < before.len() && #[trigger] before[i] == after[j] by {
                                assert(before[j] == after[j]);
                            }
                            held_elsewhere(before, after, other);
                        }
                    }
                }
            },
            None => {
                if !free {
                    self.entries.push(WorktreeLeaseEntryV1 { key: key.copy(), leases });
                    proof {
                        let after = self.entries@;
                        assert(after.drop_last() =~= before);
                    }
                } else {
                    proof {
                        held_where_absent(before, key.id());
                    }
                }
            },
        }
    }

    /// Begins maintenance of a worktree, unless it is maintained already, or a scheduler is being
    /// activated or a job claimed on it. Returns whether it began.
    pub fn acquire(&mut self, key: &WorkspaceMaintenanceKeyV1) -> (acquired: bool)
        requires
            old(self).wf(),
        ensures
            final(self).wf(),
            final(self).changes_only_leases(*old(self), key.id()),
            acquired == maintenance_may_begin(old(self).leases(key.id())),
            final(self).leases(key.id()) == (WorktreeLeasesV1 {
                maintenance: acquired || old(self).leases(key.id()).maintenance,
                ..old(self).leases(key.id())
            }),
            !acquired ==> *final(self) == *old(self),
    {
        let leases = self.leases_of(key);
        if leases.maintenance || leases.activations > 0 || leases.claims > 0 {
            return false;
        }
        self.set_leases(
            key,
            WorktreeLeasesV1 {
                maintenance: true,
                rebind: leases.rebind,
                activations: leases.activations,
                claims: leases.claims,
            },
        );
        true
    }

    /// Ends maintenance of a worktree.
    pub fn release(&mut self, key: &WorkspaceMaintenanceKeyV1)
        requires
            old(self).wf(),
        ensures
            final(self).wf(),
            final(self).changes_only_leases(*old(self), key.id()),
            final(self).leases(key.id()) == (WorktreeLeasesV1 {
                maintenance: false,
                ..old(self).leases(key.id())
            }),
    {
        let leases = self.leases_of(key);
        self.set_leases(
            key,
            WorktreeLeasesV1 {
                maintenance: false,
                rebind: leases.rebind,
                activations: leases.activations,
                claims: leases.claims,
            },
        );
    }

    /// Begins an activation on a worktree, unless it is maintained or a context is being rebound.
    /// Returns whether it began.
    pub fn acquire_activation(&mut self, key: &WorkspaceMaintenanceKeyV1) -> (acquired: bool)
        requires
            old(self).wf(),
            old(self).leases(key.id()).activations < usize::MAX,
        ensures
            final(self).wf(),
            final(self).changes_only_leases(*old(self), key.id()),
            acquired == work_may_begin(old(self).leases(key.id())),
            final(self).leases(key.id()) == if acquired {
                WorktreeLeasesV1 {
                    activations: (old(self).leases(key.id()).activations + 1) as usize,
                    ..old(self).leases(key.id())
                }
            } else {
                old(self).leases(key.id())
            },
            !acquired ==> *final(self) == *old(self),
    {
        let leases = self.leases_of(key);
        if leases.maintenance || leases.rebind {
            return false;
        }
        self.set_leases(
            key,
            WorktreeLeasesV1 {
                maintenance: leases.maintenance,
                rebind: leases.rebind,
                activations: leases.activations + 1,
                claims: leases.claims,
            },
        );
        true
    }

    /// Ends an activation on a worktree. A rebind that is part of it has ended before.
    pub fn release_activation(&mut self, key: &WorkspaceMaintenanceKeyV1)
        requires
            old(self).wf(),
            old(self).leases(key.id()).activations > 0,
            !old(self).leases(key.id()).rebind,
        ensures
            final(self).wf(),
            final(self).changes_only_leases(*old(self), key.id()),
            final(self).leases(key.id()) == (WorktreeLeasesV1 {
                activations: (old(self).leases(key.id()).activations - 1) as usize,
                ..old(self).leases(key.id())
            }),
    {
        let leases = self.leases_of(key);
        self.set_leases(
            key,
            WorktreeLeasesV1 {
                maintenance: leases.maintenance,
                rebind: leases.rebind,
                activations: leases.activations - 1,
                claims: leases.claims,
            },
        );
    }

    /// Begins a claim on a worktree, unless it is maintained or a context is being rebound. Returns
    /// whether it began.
    pub fn acquire_claim(&mut self, key: &WorkspaceMaintenanceKeyV1) -> (acquired: bool)
        requires
            old(self).wf(),
            old(self).leases(key.id()).claims < usize::MAX,
        ensures
            final(self).wf(),
            final(self).changes_only_leases(*old(self), key.id()),
            acquired == work_may_begin(old(self).leases(key.id())),
            final(self).leases(key.id()) == if acquired {
                WorktreeLeasesV1 {
                    claims: (old(self).leases(key.id()).claims + 1) as usize,
                    ..old(self).leases(key.id())
                }
            } else {
                old(self).leases(key.id())
            },
            !acquired ==> *final(self) == *old(self),
    {
        let leases = self.leases_of(key);
        if leases.maintenance || leases.rebind {
            return false;
        }
        self.set_leases(
            key,
            WorktreeLeasesV1 {
                maintenance: leases.maintenance,
                rebind: leases.rebind,
                activations: leases.activations,
                claims: leases.claims + 1,
            },
        );
        true
    }

    /// Ends a claim on a worktree.
    pub fn release_claim(&mut self, key: &WorkspaceMaintenanceKeyV1)
        requires
            old(self).wf(),
            old(self).leases(key.id()).claims > 0,
        ensures
            final(self).wf(),
            final(self).changes_only_leases(*old(self), key.id()),
            final(self).leases(key.id()) == (WorktreeLeasesV1 {
                claims: (old(self).leases(key.id()).claims - 1) as usize,
                ..old(self).leases(key.id())
            }),
    {
        let leases = self.leases_of(key);
        self.set_leases(
            key,
            WorktreeLeasesV1 {
                maintenance: leases.maintenance,
                rebind: leases.rebind,
                activations: leases.activations,
                claims: leases.claims - 1,
            },
        );
    }

    /// Begins a rebind on a worktree: only where a single activation is under way, and neither
    /// maintenance, nor another rebind, nor a claim. Returns whether it began.
    pub fn acquire_rebind(&mut self, key: &WorkspaceMaintenanceKeyV1) -> (acquired: bool)
        requires
            old(self).wf(),
        ensures
            final(self).wf(),
            final(self).changes_only_leases(*old(self), key.id()),
            acquired == rebind_may_begin(old(self).leases(key.id())),
            final(self).leases(key.id()) == (WorktreeLeasesV1 {
                rebind: acquired || old(self).leases(key.id()).rebind,
                ..old(self).leases(key.id())
            }),
            !acquired ==> *final(self) == *old(self),
    {
        let leases = self.leases_of(key);
        if leases.maintenance || leases.rebind || leases.claims > 0 || leases.activations != 1 {
            return false;
        }
        self.set_leases(
            key,
            WorktreeLeasesV1 {
                maintenance: leases.maintenance,
                rebind: true,
                activations: leases.activations,
                claims: leases.claims,
            },
        );
        true
    }

    /// Ends a rebind on a worktree.
    pub fn release_rebind(&mut self, key: &WorkspaceMaintenanceKeyV1)
        requires
            old(self).wf(),
        ensures
            final(self).wf(),
            final(self).changes_only_leases(*old(self), key.id()),
            final(self).leases(key.id()) == (WorktreeLeasesV1 {
                rebind: false,
                ..old(self).leases(key.id())
            }),
    {
        let leases = self.leases_of(key);
        self.set_leases(
            key,
            WorktreeLeasesV1 {
                maintenance: leases.maintenance,
                rebind: false,
                activations: leases.activations,
                claims: leases.claims,
            },
        );
    }

    /// The place of the record of a slot, if it has one.
    fn record_place(&self, slot: u64) -> (place: Option<usize>)
        ensures
            match place {
                Some(place) => place < self.generations@.len()
                    && self.generations@[place as int].binding.store_slot.number == slot,
                None => forall|i: int|
                    0 <= i < self.generations@.len() ==> (
                    #[trigger] self.generations@[i]).binding.store_slot.number != slot,
            },
    {
        let mut place: usize = 0;
        while place < self.generations.len()
            invariant
                place <= self.generations@.len(),
                forall|i: int|
                    0 <= i < place ==> (
                    #[trigger] self.generations@[i]).binding.store_slot.number != slot,
            decreases self.generations@.len() - place,
        {
            if self.generations[place].binding.store_slot.number == slot {
                return Some(place);
            }
            place = place + 1;
        }
        None
    }

    /// Records a generation that begins to work on a slot. A slot that has a record keeps it.
    pub fn register_scheduler_generation(&mut self, binding: WorkspaceSchedulerRetirementBindingV1)
        requires
            old(self).wf(),
        ensures
            final(self).wf(),
            final(self).changes_only_record(*old(self), binding.store_slot.number),
            final(self).generation(binding.store_slot.number) == match old(self).generation(
                binding.store_slot.number,
            ) {
                Some(record) => Some(record),
                None => Some(
                    WorkspaceSchedulerRetirementStateV1 {
                        binding,
                        claims_stopped: false,
                        work_drained: false,
                        store_closed: false,
                    },
                ),
            },
    {
        match self.record_place(binding.store_slot.number) {
            Some(place) => {
                proof {
                    recorded_where_found(self.generations@, place as int);
                }
            },
            None => {
                let ghost before = self.generations@;
                self.generations.push(
                    WorkspaceSchedulerRetirementStateV1 {
                        binding,
                        claims_stopped: false,
                        work_drained: false,
                        store_closed: false,
                    },
                );
                proof {
                    recorded_where_absent(before, binding.store_slot.number);
                    assert(self.generations@.drop_last() =~= before);
                }
            },
        }
    }

    /// Forgets a generation, unless its slot has the record of another.
    pub fn unregister_scheduler_generation(
        &mut self,
        binding: &WorkspaceSchedulerRetirementBindingV1,
    )
        requires
            old(self).wf(),
        ensures
            final(self).wf(),
            final(self).changes_only_record(*old(self), binding.store_slot.number),
            final(self).generation(binding.store_slot.number) == match old(self).generation(
                binding.store_slot.number,
            ) {
                Some(record) if !is_record_of(record, *binding) => Some(record),
                _ => None,
            },
    {
        match self.record_place(binding.store_slot.number) {
            Some(place) => {
                proof {
                    recorded_where_found(self.generations@, place as int);
                }
                if is_same_record(&self.generations[place], binding) {
                    let ghost before = self.generations@;
                    let ghost slot = binding.store_slot.number;
                    let _ = self.generations.remove(place);
                    proof {
                        let after = self.generations@;
                        assert(after == before.remove(place as int));
                        assert forall|i: int, j: int| 0 <= i < j < after.len() implies (
                        #[trigger] after[i]).binding.store_slot.number != (
                        #[trigger] after[j]).binding.store_slot.number by {
                            let left = if i < place { i } else { i + 1 };
                            let right = if j < place { j } else { j + 1 };
                            assert(after[i] == before[left] && after[j] == before[right]);
                        }
                        assert forall|i: int| 0 <= i < after.len() implies (
                        #[trigger] after[i]).binding.store_slot.number != slot && retires_in_order(
                            after[i],
                        ) by {
                            let left = if i < place { i } else { i + 1 };
                            assert(after[i] == before[left]);
                            if left < place {
                                assert(before[left].binding.store_slot.number
                                    != before[place as int].binding.store_slot.number);
                            } else {
                                assert(before[place as int].binding.store_slot.number
                                    != before[left].binding.store_slot.number);
                            }
                        }
                        recorded_where_absent(after, slot);
                        assert forall|other: u64| other != slot implies recorded(after, other)
                            == recorded(before, other) by {
                            assert forall|i: int|
                                0 <= i < before.len() && (
                                #[trigger] before[i]).binding.store_slot.number
                                    == other implies exists|j: int|
                                0 <= j < after.len() && #[trigger] after[j] == before[i] by {
                                let right = if i < place { i } else { i - 1 };
                                assert(after[right] == before[i]);
                            }
                            assert forall|j: int|
                                0 <= j < after.len() && (
                                #[trigger] after[j]).binding.store_slot.number
                                    == other implies exists|i: int|
                                0 <= i < before.len() && #[trigger] before[i] == after[j] by {
                                let left = if j < place { j } else { j + 1 };
                                assert(before[left] == after[j]);
                            }
                            recorded_elsewhere(before, after, other);
                        }
                    }
                }
            },
            None => {
                proof {
                    recorded_where_absent(self.generations@, binding.store_slot.number);
                }
            },
        }
    }

    /// Puts how far a recorded generation has retired.
    fn set_progress(
        &mut self,
        place: usize,
        claims_stopped: bool,
        work_drained: bool,
        store_closed: bool,
    )
        requires
            old(self).wf(),
            place < old(self).generations@.len(),
            work_drained ==> claims_stopped,
            store_closed ==> work_drained,
        ensures
            final(self).wf(),
            final(self).changes_only_record(
                *old(self),
                old(self).generations@[place as int].binding.store_slot.number,
            ),
            final(self).generation(
                old(self).generations@[place as int].binding.store_slot.number,
            ) == Some(
                WorkspaceSchedulerRetirementStateV1 {
                    claims_stopped,
                    work_drained,
                    store_closed,
                    ..old(self).generations@[place as int]
                },
            ),
    {
        let ghost before = self.generations@;
        let ghost slot = before[place as int].binding.store_slot.number;
        let binding = copy_retirement_binding(&self.generations[place].binding);
        let changed = WorkspaceSchedulerRetirementStateV1 {
            binding,
            claims_stopped,
            work_drained,
            store_closed,
        };
        self.generations.set(place, changed);
        proof {
            let after = self.generations@;
            assert(after == before.update(place as int, changed));
            assert(slots_are_distinct(after));
            recorded_where_found(after, place as int);
            assert forall|other: u64| other != slot implies recorded(after, other) == recorded(
                before,
                other,
            ) by {
                assert forall|i: int|
                    0 <= i < before.len() && (#[trigger] before[i]).binding.store_slot.number
                        == other implies exists|j: int|
                    0 <= j < after.len() && #[trigger] after[j] == before[i] by {
                    assert(after[i] == before[i]);
                }
                assert forall|j: int|
                    0 <= j < after.len() && (#[trigger] after[j]).binding.store_slot.number
                        == other implies exists|i: int|
                    0 <= i < before.len() && #[trigger] before[i] == after[j] by {
                    assert(before[j] == after[j]);
                }
                recorded_elsewhere(before, after, other);
            }
        }
    }

    /// Records that a generation takes no more claims.
    pub fn record_claims_stopped(&mut self, binding: &WorkspaceSchedulerRetirementBindingV1)
        requires
            old(self).wf(),
        ensures
            final(self).wf(),
            final(self).changes_only_record(*old(self), binding.store_slot.number),
            final(self).generation(binding.store_slot.number) == match old(self).generation(
                binding.store_slot.number,
            ) {
                Some(record) if is_record_of(record, *binding) => Some(
                    WorkspaceSchedulerRetirementStateV1 { claims_stopped: true, ..record },
                ),
                other => other,
            },
    {
        match self.record_place(binding.store_slot.number) {
            Some(place) => {
                proof {
                    recorded_where_found(self.generations@, place as int);
                }
                if is_same_record(&self.generations[place], binding) {
                    let work_drained = self.generations[place].work_drained;
                    let store_closed = self.generations[place].store_closed;
                    self.set_progress(place, true, work_drained, store_closed);
                }
            },
            None => {
                proof {
                    recorded_where_absent(self.generations@, binding.store_slot.number);
                }
            },
        }
    }

    /// Records that the work of a generation is drained. It counts only once its claims were
    /// stopped.
    pub fn record_work_drained(&mut self, binding: &WorkspaceSchedulerRetirementBindingV1)
        requires
            old(self).wf(),
        ensures
            final(self).wf(),
            final(self).changes_only_record(*old(self), binding.store_slot.number),
            final(self).generation(binding.store_slot.number) == match old(self).generation(
                binding.store_slot.number,
            ) {
                Some(record) if is_record_of(record, *binding) && record.claims_stopped => Some(
                    WorkspaceSchedulerRetirementStateV1 { work_drained: true, ..record },
                ),
                other => other,
            },
    {
        match self.record_place(binding.store_slot.number) {
            Some(place) => {
                proof {
                    recorded_where_found(self.generations@, place as int);
                }
                if is_same_record(&self.generations[place], binding)
                    && self.generations[place].claims_stopped {
                    let store_closed = self.generations[place].store_closed;
                    self.set_progress(place, true, true, store_closed);
                }
            },
            None => {
                proof {
                    recorded_where_absent(self.generations@, binding.store_slot.number);
                }
            },
        }
    }

    /// Records that the Store of a generation is closed. It counts only once its claims were
    /// stopped and its work drained.
    pub fn record_store_closed(&mut self, binding: &WorkspaceSchedulerRetirementBindingV1)
        requires
            old(self).wf(),
        ensures
            final(self).wf(),
            final(self).changes_only_record(*old(self), binding.store_slot.number),
            final(self).generation(binding.store_slot.number) == match old(self).generation(
                binding.store_slot.number,
            ) {
                Some(record) if is_record_of(record, *binding) && record.claims_stopped
                    && record.work_drained => Some(
                    WorkspaceSchedulerRetirementStateV1 { store_closed: true, ..record },
                ),
                other => other,
            },
    {
        match self.record_place(binding.store_slot.number) {
            Some(place) => {
                proof {
                    recorded_where_found(self.generations@, place as int);
                }
                if is_same_record(&self.generations[place], binding)
                    && self.generations[place].claims_stopped
                    && self.generations[place].work_drained {
                    self.set_progress(place, true, true, true);
                }
            },
            None => {
                proof {
                    recorded_where_absent(self.generations@, binding.store_slot.number);
                }
            },
        }
    }

    /// Records what closing the Store of a generation came to. Only a Store that was closed without
    /// an error counts as closed.
    pub fn record_store_close_result(
        &mut self,
        binding: &WorkspaceSchedulerRetirementBindingV1,
        succeeded: bool,
    )
        requires
            old(self).wf(),
        ensures
            final(self).wf(),
            final(self).changes_only_record(*old(self), binding.store_slot.number),
            final(self).generation(binding.store_slot.number) == match old(self).generation(
                binding.store_slot.number,
            ) {
                Some(record) if succeeded && is_record_of(record, *binding) && record.claims_stopped
                    && record.work_drained => Some(
                    WorkspaceSchedulerRetirementStateV1 { store_closed: true, ..record },
                ),
                other => other,
            },
    {
        if succeeded {
            self.record_store_closed(binding);
        }
    }

    /// Whether a generation of the given workspace of a worktree has retired.
    pub fn has_retirement_receipt(
        &self,
        key: &WorkspaceMaintenanceKeyV1,
        previous_workspace_uuid: &String,
    ) -> (found: bool)
        requires
            self.wf(),
        ensures
            found == exists|slot: u64|
                (#[trigger] self.generation(slot)) matches Some(record) && identity_key(
                    record.binding.source,
                ) == key.id() && record.binding.source.workspace_uuid@
                    == previous_workspace_uuid@ && has_retired(record),
    {
        let mut place: usize = 0;
        while place < self.generations.len()
            invariant
                self.wf(),
                place <= self.generations@.len(),
                forall|i: int|
                    0 <= i < place ==> !(identity_key(
                        (#[trigger] self.generations@[i]).binding.source,
                    ) == key.id() && self.generations@[i].binding.source.workspace_uuid@
                        == previous_workspace_uuid@ && has_retired(self.generations@[i])),
            decreases self.generations@.len() - place,
        {
            let record = &self.generations[place];
            if WorkspaceMaintenanceKeyV1::from_durable_identity(&record.binding.source).same(key)
                && record.binding.source.workspace_uuid == *previous_workspace_uuid
                && record.claims_stopped && record.work_drained && record.store_closed {
                proof {
                    recorded_where_found(self.generations@, place as int);
                    assert(self.generation(record.binding.store_slot.number) == Some(*record));
                }
                return true;
            }
            place = place + 1;
        }
        proof {
            assert forall|slot: u64| #[trigger] self.generation(slot) is Some implies !(
            identity_key(self.generation(slot)->Some_0.binding.source) == key.id()
                && self.generation(slot)->Some_0.binding.source.workspace_uuid@
                == previous_workspace_uuid@ && has_retired(self.generation(slot)->Some_0)) by {
                let i = recorded_has_a_place(self.generations@, slot);
            }
        }
        false
    }

    /// Whether a generation of the given workspace of a worktree is recorded.
    pub fn has_registered_generation(
        &self,
        key: &WorkspaceMaintenanceKeyV1,
        previous_workspace_uuid: &String,
    ) -> (found: bool)
        requires
            self.wf(),
        ensures
            found == exists|slot: u64|
                (#[trigger] self.generation(slot)) matches Some(record) && identity_key(
                    record.binding.source,
                ) == key.id() && record.binding.source.workspace_uuid@
                    == previous_workspace_uuid@,
    {
        let mut place: usize = 0;
        while place < self.generations.len()
            invariant
                self.wf(),
                place <= self.generations@.len(),
                forall|i: int|
                    0 <= i < place ==> !(identity_key(
                        (#[trigger] self.generations@[i]).binding.source,
                    ) == key.id() && self.generations@[i].binding.source.workspace_uuid@
                        == previous_workspace_uuid@),
            decreases self.generations@.len() - place,
        {
            let record = &self.generations[place];
            if WorkspaceMaintenanceKeyV1::from_durable_identity(&record.binding.source).same(key)
                && record.binding.source.workspace_uuid == *previous_workspace_uuid {
                proof {
                    recorded_where_found(self.generations@, place as int);
                    assert(self.generation(record.binding.store_slot.number) == Some(*record));
                }
                return true;
            }
            place = place + 1;
        }
        proof {
            assert forall|slot: u64| #[trigger] self.generation(slot) is Some implies !(
            identity_key(self.generation(slot)->Some_0.binding.source) == key.id()
                && self.generation(slot)->Some_0.binding.source.workspace_uuid@
                == previous_workspace_uuid@) by {
                let i = recorded_has_a_place(self.generations@, slot);
            }
        }
        false
    }

    /// Whether a generation on a worktree has not retired.
    pub fn has_unclosed_generation(&self, key: &WorkspaceMaintenanceKeyV1) -> (found: bool)
        requires
            self.wf(),
        ensures
            found == exists|slot: u64|
                (#[trigger] self.generation(slot)) matches Some(record) && identity_key(
                    record.binding.source,
                ) == key.id() && !has_retired(record),
    {
        let mut place: usize = 0;
        while place < self.generations.len()
            invariant
                self.wf(),
                place <= self.generations@.len(),
                forall|i: int|
                    0 <= i < place ==> !(identity_key(
                        (#[trigger] self.generations@[i]).binding.source,
                    ) == key.id() && !has_retired(self.generations@[i])),
            decreases self.generations@.len() - place,
        {
            let record = &self.generations[place];
            if WorkspaceMaintenanceKeyV1::from_durable_identity(&record.binding.source).same(key)
                && !(record.claims_stopped && record.work_drained && record.store_closed) {
                proof {
                    recorded_where_found(self.generations@, place as int);
                    assert(self.generation(record.binding.store_slot.number) == Some(*record));
                }
                return true;
            }
            place = place + 1;
        }
        proof {
            assert forall|slot: u64| #[trigger] self.generation(slot) is Some implies !(
            identity_key(self.generation(slot)->Some_0.binding.source) == key.id()
                && !has_retired(self.generation(slot)->Some_0)) by {
                let i = recorded_has_a_place(self.generations@, slot);
            }
        }
        false
    }

    /// While a worktree is maintained, no scheduler is activated and no job claimed on it; while a
    /// context is rebound, no job is claimed.
    pub proof fn maintenance_is_exclusive(self, id: MaintenanceKeyId)
        requires
            self.wf(),
        ensures
            leases_go_together(self.leases(id)),
    {
        if exists|i: int|
            0 <= i < self.entries@.len() && (#[trigger] self.entries@[i]).key.id() == id {
            let i = choose|i: int|
                0 <= i < self.entries@.len() && (#[trigger] self.entries@[i]).key.id() == id;
            held_where_found(self.entries@, i);
        } else {
            held_where_absent(self.entries@, id);
        }
    }

    /// Every generation retires in order: its Store is closed only after its work was drained, and
    /// its work is drained only after its claims were stopped.
    pub proof fn generations_retire_in_order(self, slot: u64)
        requires
            self.wf(),
        ensures
            self.generation(slot) matches Some(record) ==> retires_in_order(record),
    {
        if self.generation(slot) is Some {
            let i = recorded_has_a_place(self.generations@, slot);
        }
    }
}

/// Maintenance has its worktree to itself. While it lasts, neither maintenance, nor an activation, nor
/// a claim, nor a rebind begins there. Once it has ended nothing is out there, so that each but a
/// rebind may begin again. The leases of every other worktree are what they were.
pub proof fn maintenance_has_its_worktree_to_itself(
    maintained: WorkspaceMaintenanceCoordinatorV1,
    ended: WorkspaceMaintenanceCoordinatorV1,
    id: MaintenanceKeyId,
)
    requires
        maintained.wf(),
        maintained.leases(id).maintenance,
        ended.leases(id) == (WorktreeLeasesV1 { maintenance: false, ..maintained.leases(id) }),
        ended.changes_only_leases(maintained, id),
    ensures
        !maintenance_may_begin(maintained.leases(id)),
        !work_may_begin(maintained.leases(id)),
        !rebind_may_begin(maintained.leases(id)),
        ended.leases(id) == no_leases(),
        maintenance_may_begin(ended.leases(id)),
        work_may_begin(ended.leases(id)),
        forall|other: MaintenanceKeyId|
            other != id ==> #[trigger] ended.leases(other) == maintained.leases(other),
{
    held_goes_together(maintained.entries@, id);
}

/// Maintenance of a worktree begins exactly where no lease is out on it, in whatever state the
/// coordinator is, and whatever is out on other worktrees.
pub proof fn maintenance_begins_exactly_where_nothing_is_out(
    coordinator: WorkspaceMaintenanceCoordinatorV1,
    id: MaintenanceKeyId,
)
    requires
        coordinator.wf(),
    ensures
        maintenance_may_begin(coordinator.leases(id)) <==> coordinator.leases(id) == no_leases(),
{
    held_goes_together(coordinator.entries@, id);
}

/// The same binding once more.
pub fn copy_retirement_binding(
    binding: &WorkspaceSchedulerRetirementBindingV1,
) -> (copy: WorkspaceSchedulerRetirementBindingV1)
    ensures
        copy == *binding,
{
    WorkspaceSchedulerRetirementBindingV1 {
        key: binding.key.copy(),
        generation: binding.generation,
        source: copy_identity(&binding.source),
        store_slot: binding.store_slot,
    }
}

/// An activation or a claim begins exactly beside neither maintenance nor a rebind, and a rebind exactly
/// beside the single activation that it is part of.
pub proof fn work_begins_where_it_may(leases: WorktreeLeasesV1)
    ensures
        work_may_begin(leases) <==> !leases.maintenance && !leases.rebind,
        rebind_may_begin(leases) <==> !leases.maintenance && !leases.rebind && leases.claims == 0
            && leases.activations == 1,
        maintenance_may_begin(leases) <==> !leases.maintenance && leases.activations == 0
            && leases.claims == 0,
{
}

/// A generation has retired exactly once its claims were stopped, its work drained and its Store closed. A
/// record is that of the same generation of the same workspace.
pub proof fn a_retired_generation_has_closed_its_store(
    record: WorkspaceSchedulerRetirementStateV1,
    binding: WorkspaceSchedulerRetirementBindingV1,
)
    ensures
        has_retired(record) <==> record.claims_stopped && record.work_drained
            && record.store_closed,
        is_record_of(record, binding) <==> {
            &&& record.binding.generation == binding.generation
            &&& record.binding.key.workspace_uuid@ == binding.key.workspace_uuid@
            &&& record.binding.key.common_directory_digest@ == binding.key.common_directory_digest@
            &&& record.binding.key.worktree_administration_digest@
                == binding.key.worktree_administration_digest@
            &&& record.binding.source.workspace_uuid@ == binding.source.workspace_uuid@
            &&& record.binding.source.common_dir_identity@ == binding.source.common_dir_identity@
            &&& record.binding.source.worktree_admin_identity@
                == binding.source.worktree_admin_identity@
        },
{
}

/// Maintenance is named by the worktree alone, whichever workspace it holds.
pub proof fn maintenance_is_named_by_the_worktree(
    identity: DurableWorktreeIdentityV1,
    key: WorkspaceMaintenanceKeyV1,
    other: WorkspaceMaintenanceKeyV1,
    same: bool,
)
    requires
        call_ensures(WorkspaceMaintenanceKeyV1::from_durable_identity, (&identity,), key),
        call_ensures(WorkspaceMaintenanceKeyV1::same, (&key, &other), same),
    ensures
        key.common_directory_fingerprint@ == identity.common_dir_identity@,
        key.worktree_administration_fingerprint@ == identity.worktree_admin_identity@,
        same <==> key.common_directory_fingerprint@ == other.common_directory_fingerprint@
            && key.worktree_administration_fingerprint@
            == other.worktree_administration_fingerprint@,
{
    assert(key.id() == identity_key(identity));
    assert(key.id().common_directory == identity_key(identity).common_directory);
}

} // verus!
