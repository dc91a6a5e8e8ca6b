//! The lifecycle of workspace schedulers.
//!
//! A scheduler coordinates one generation of a durable worktree identity within this process.
//! Durable order and command state stay with the Store; progress versions are wake-up hints only.
//! The registry keeps at most one scheduler for each identity. A generation that could not be
//! closed stays retiring: it is neither reopened nor replaced.

use crate::observability::{EventCategoryV1, EventNoticeV1, SeverityV1};
use crate::store::DurableWorktreeIdentityV1;
use crate::text;
use vstd::prelude::*;

verus! {

/// The durable identity that selects a workspace scheduler. It holds no path.
#[derive(Clone, Debug, PartialEq, Eq)]
pub struct WorkspaceSchedulerKeyV1 {
    pub workspace_uuid: String,
    pub common_directory_digest: String,
    pub worktree_administration_digest: String,
}

/// A generation of the schedulers of one identity.
#[derive(Clone, Copy, Debug, PartialEq, Eq, Structural)]
pub struct SchedulerGenerationV1 {
    number: u64,
}

/// Why a scheduler could not be created.
#[derive(Clone, Copy, Debug, PartialEq, Eq)]
pub enum DaemonCompositionErrorV1 {
    SchedulerRetiring { generation: SchedulerGenerationV1 },
    SchedulerGenerationExhausted,
}

/// A wake-up version of a scheduler's progress. It carries no state.
#[derive(Clone, Copy, Debug, PartialEq, Eq, PartialOrd, Ord, Hash, Structural)]
pub struct WorkspaceSchedulerProgressVersionV1 {
    version: u64,
}

/// A progress version could not advance without wrapping.
#[derive(Clone, Copy, Debug, PartialEq, Eq, Structural)]
pub enum WorkspaceSchedulerProgressErrorV1 {
    VersionExhausted,
}

/// One scheduler generation of a durable worktree identity.
pub struct WorkspaceSchedulerV1<C> {
    key: WorkspaceSchedulerKeyV1,
    generation: SchedulerGenerationV1,
    context: C,
    progress: WorkspaceSchedulerProgressVersionV1,
}

/// A scheduler that this process holds: its generation, and the number of the object itself, which
/// no other object of this process has.
#[derive(Clone, Copy, Debug, PartialEq, Eq, Structural)]
pub struct SchedulerObjectV1 {
    pub generation: SchedulerGenerationV1,
    pub object: u64,
}

/// The place of a scheduler in the registry.
#[derive(Clone, Copy, Debug, PartialEq, Eq)]
pub enum WorkspaceSchedulerRegistrySlotV1 {
    Active(SchedulerObjectV1),
    Retiring { scheduler: SchedulerObjectV1, close_in_progress: bool },
}

/// What the registry holds for an identity.
pub struct WorkspaceSchedulerCellV1 {
    key: WorkspaceSchedulerKeyV1,
    generation: SchedulerGenerationV1,
    creating: bool,
    slot: Option<WorkspaceSchedulerRegistrySlotV1>,
}

/// The schedulers of this process, by identity.
pub struct WorkspaceSchedulerRegistryV1 {
    cells: Vec<WorkspaceSchedulerCellV1>,
}

/// What a request for a scheduler finds.
#[derive(Clone, Copy, Debug, PartialEq, Eq)]
pub enum SchedulerAcquisitionV1 {
    Existing(SchedulerObjectV1),
    WaitForChange,
    Reserved(SchedulerGenerationV1),
    Refused(DaemonCompositionErrorV1),
}

/// The capability to close a retiring scheduler once more.
#[derive(Clone, Debug, PartialEq, Eq)]
pub struct WorkspaceSchedulerRetirementRetryV1 {
    pub key: WorkspaceSchedulerKeyV1,
    pub scheduler: SchedulerObjectV1,
}

/// Why the retirement of a scheduler does not start.
#[derive(Clone, Debug, PartialEq, Eq)]
pub enum WorkspaceSchedulerRetirementStartErrorV1 {
    NotRegistered { key: WorkspaceSchedulerKeyV1, generation: SchedulerGenerationV1 },
    NotCurrent { key: WorkspaceSchedulerKeyV1, generation: SchedulerGenerationV1 },
    CloseInProgress { key: WorkspaceSchedulerKeyV1, generation: SchedulerGenerationV1 },
    AlreadyRetiring { retry: WorkspaceSchedulerRetirementRetryV1 },
}

/// Why the retirement of a scheduler does not complete.
#[derive(Clone, Debug, PartialEq, Eq)]
pub enum WorkspaceSchedulerRetirementErrorV1<E> {
    Start(WorkspaceSchedulerRetirementStartErrorV1),
    CloseFailed { source: E, retry: WorkspaceSchedulerRetirementRetryV1 },
    CloseFailedStale {
        source: E,
        key: WorkspaceSchedulerKeyV1,
        generation: SchedulerGenerationV1,
    },
    StaleCompletion { key: WorkspaceSchedulerKeyV1, generation: SchedulerGenerationV1 },
}

/// The identity that a key stands for.
pub struct KeyIdentity {
    pub workspace: Seq<char>,
    pub common_directory: Seq<char>,
    pub worktree_administration: Seq<char>,
}

/// What the registry says of an identity.
pub struct CellState {
    pub generation: u64,
    pub creating: bool,
    pub slot: Option<WorkspaceSchedulerRegistrySlotV1>,
}

impl WorkspaceSchedulerKeyV1 {
    /// The identity that the key stands for.
    pub open spec fn identity(self) -> KeyIdentity {
        KeyIdentity {
            workspace: self.workspace_uuid@,
            common_directory: self.common_directory_digest@,
            worktree_administration: self.worktree_administration_digest@,
        }
    }

    /// The key of a durable identity.
    pub fn from_durable_identity(identity: &DurableWorktreeIdentityV1) -> (key: Self)
        ensures
            key.workspace_uuid == identity.workspace_uuid,
            key.common_directory_digest == identity.common_dir_identity,
            key.worktree_administration_digest == identity.worktree_admin_identity,
    {
        WorkspaceSchedulerKeyV1 {
            workspace_uuid: identity.workspace_uuid.clone(),
            common_directory_digest: identity.common_dir_identity.clone(),
            worktree_administration_digest: identity.worktree_admin_identity.clone(),
        }
    }

    /// The workspace of the identity.
    pub fn workspace_uuid(&self) -> (uuid: &String)
        ensures
            *uuid == self.workspace_uuid,
    {
        &self.workspace_uuid
    }

    /// The digest of the identity's common directory.
    pub fn common_directory_digest(&self) -> (digest: &String)
        ensures
            *digest == self.common_directory_digest,
    {
        &self.common_directory_digest
    }

    /// The digest of the identity's worktree administration.
    pub fn worktree_administration_digest(&self) -> (digest: &String)
        ensures
            *digest == self.worktree_administration_digest,
    {
        &self.worktree_administration_digest
    }

    /// Whether two keys stand for the same identity.
    pub fn same(&self, other: &Self) -> (same: bool)
        ensures
            same == (self.identity() == other.identity()),
    {
        self.workspace_uuid == other.workspace_uuid && self.common_directory_digest
            == other.common_directory_digest && self.worktree_administration_digest
            == other.worktree_administration_digest
    }

    /// The same key once more.
    pub fn copy(&self) -> (key: Self)
        ensures
            key == *self,
    {
        WorkspaceSchedulerKeyV1 {
            workspace_uuid: self.workspace_uuid.clone(),
            common_directory_digest: self.common_directory_digest.clone(),
            worktree_administration_digest: self.worktree_administration_digest.clone(),
        }
    }
}

impl SchedulerGenerationV1 {
    /// The number of the generation.
    pub closed spec fn nth(self) -> u64 {
        self.number
    }

    /// The first generation of an identity.
    pub fn initial() -> (generation: Self)
        ensures
            generation.nth() == 1,
    {
        SchedulerGenerationV1 { number: 1 }
    }

    /// The generation that follows.
    pub fn next(self) -> (generation: Result<Self, DaemonCompositionErrorV1>)
        ensures
            match generation {
                Ok(generation) => generation.nth() == self.nth() + 1,
                Err(error) => self.nth() == u64::MAX && error
                    == DaemonCompositionErrorV1::SchedulerGenerationExhausted,
            },
    {
        match self.number.checked_add(1) {
            Some(number) => Ok(SchedulerGenerationV1 { number }),
            None => Err(DaemonCompositionErrorV1::SchedulerGenerationExhausted),
        }
    }

    /// The number of the generation.
    pub fn get(self) -> (number: u64)
        ensures
            number == self.nth(),
    {
        self.number
    }
}

impl WorkspaceSchedulerProgressVersionV1 {
    /// The number of the version.
    pub closed spec fn number(self) -> u64 {
        self.version
    }

    /// The version of a scheduler that has made no progress.
    pub fn initial() -> (version: Self)
        ensures
            version.number() == 0,
    {
        WorkspaceSchedulerProgressVersionV1 { version: 0 }
    }

    /// The number of the version.
    pub fn get(self) -> (number: u64)
        ensures
            number == self.number(),
    {
        self.version
    }

    /// The version that follows.
    pub fn next(self) -> (version: Result<Self, WorkspaceSchedulerProgressErrorV1>)
        ensures
            match version {
                Ok(version) => version.number() == self.number() + 1,
                Err(error) => self.number() == u64::MAX && error
                    == WorkspaceSchedulerProgressErrorV1::VersionExhausted,
            },
    {
        match self.version.checked_add(1) {
            Some(version) => Ok(WorkspaceSchedulerProgressVersionV1 { version }),
            None => Err(WorkspaceSchedulerProgressErrorV1::VersionExhausted),
        }
    }
}

impl Default for WorkspaceSchedulerProgressVersionV1 {
    /// The version of a scheduler that has made no progress.
    fn default() -> (version: Self)
        ensures
            version.number() == 0,
    {
        WorkspaceSchedulerProgressVersionV1::initial()
    }
}

/// A version is its number: versions of the same number are the same version.
pub proof fn progress_versions_are_their_numbers(
    left: WorkspaceSchedulerProgressVersionV1,
    right: WorkspaceSchedulerProgressVersionV1,
)
    ensures
        left == right <==> left.number() == right.number(),
{
}

impl WorkspaceSchedulerProgressErrorV1 {
    /// The text of the error.
    pub fn message(&self) -> (message: &'static str)
        ensures
            message == "scheduler progress version exhausted",
    {
        "scheduler progress version exhausted"
    }
}

impl<C> WorkspaceSchedulerV1<C> {
    /// The key of the identity.
    pub closed spec fn held_key(self) -> WorkspaceSchedulerKeyV1 {
        self.key
    }

    /// The generation.
    pub closed spec fn held_generation(self) -> SchedulerGenerationV1 {
        self.generation
    }

    /// The current context.
    pub closed spec fn held_context(self) -> C {
        self.context
    }

    /// The current progress version.
    pub closed spec fn held_progress(self) -> WorkspaceSchedulerProgressVersionV1 {
        self.progress
    }

    /// A scheduler that has made no progress.
    pub fn new(
        key: WorkspaceSchedulerKeyV1,
        generation: SchedulerGenerationV1,
        context: C,
    ) -> (scheduler: Self)
        ensures
            scheduler.held_key() == key,
            scheduler.held_generation() == generation,
            scheduler.held_context() == context,
            scheduler.held_progress().number() == 0,
    {
        WorkspaceSchedulerV1 {
            key,
            generation,
            context,
            progress: WorkspaceSchedulerProgressVersionV1::initial(),
        }
    }

    /// The key of the identity.
    pub fn key(&self) -> (key: &WorkspaceSchedulerKeyV1)
        ensures
            *key == self.held_key(),
    {
        &self.key
    }

    /// The generation.
    pub fn generation(&self) -> (generation: SchedulerGenerationV1)
        ensures
            generation == self.held_generation(),
    {
        self.generation
    }

    /// The current context.
    pub fn context_snapshot(&self) -> (context: &C)
        ensures
            *context == self.held_context(),
    {
        &self.context
    }

    /// Publishes another context once the current one has been retired, and returns the current
    /// one. A context that could not be retired stays.
    pub fn rebind_context_serialized_after<E>(
        &mut self,
        context: C,
        retired: Result<(), E>,
    ) -> (prior: Result<C, E>)
        ensures
            final(self).held_key() == old(self).held_key(),
            final(self).held_generation() == old(self).held_generation(),
            final(self).held_progress() == old(self).held_progress(),
            match retired {
                Ok(_) => prior == Ok::<C, E>(old(self).held_context())
                    && final(self).held_context() == context,
                Err(error) => prior == Err::<C, E>(error) && *final(self) == *old(self),
            },
    {
        match retired {
            Ok(_) => {
                let mut replaced = context;
                std::mem::swap(&mut self.context, &mut replaced);
                Ok(replaced)
            },
            Err(error) => Err(error),
        }
    }

    /// The current progress version.
    pub fn progress_version(&self) -> (version: WorkspaceSchedulerProgressVersionV1)
        ensures
            version == self.held_progress(),
    {
        self.progress
    }

    /// Advances the progress version. Where it cannot advance, it stays.
    pub fn notify_progress(&mut self) -> (version: Result<
        WorkspaceSchedulerProgressVersionV1,
        WorkspaceSchedulerProgressErrorV1,
    >)
        ensures
            final(self).held_key() == old(self).held_key(),
            final(self).held_generation() == old(self).held_generation(),
            final(self).held_context() == old(self).held_context(),
            match version {
                Ok(version) => version == final(self).held_progress()
                    && version.number() == old(self).held_progress().number() + 1,
                Err(error) => error == WorkspaceSchedulerProgressErrorV1::VersionExhausted
                    && old(self).held_progress().number() == u64::MAX
                    && *final(self) == *old(self),
            },
    {
        match self.progress.next() {
            Ok(version) => {
                self.progress = version;
                Ok(version)
            },
            Err(error) => Err(error),
        }
    }
}

/// Whether a waiter that observed a version goes on waiting.
pub fn progress_is_unchanged(
    observed: WorkspaceSchedulerProgressVersionV1,
    current: WorkspaceSchedulerProgressVersionV1,
) -> (unchanged: bool)
    ensures
        unchanged == (observed == current),
{
    observed == current
}

/// The identities that cells are about, and what the cells say of them.
spec fn cell_states(cells: Seq<WorkspaceSchedulerCellV1>) -> Map<KeyIdentity, CellState> {
    Map::new(
        |identity: KeyIdentity|
            exists|i: int| 0 <= i < cells.len() && #[trigger] cells[i].key.identity() == identity,
        |identity: KeyIdentity|
            cell_state(
                cells[choose|i: int|
                    0 <= i < cells.len() && #[trigger] cells[i].key.identity() == identity],
            ),
    )
}

/// What a cell says of its identity.
spec fn cell_state(cell: WorkspaceSchedulerCellV1) -> CellState {
    CellState { generation: cell.generation.nth(), creating: cell.creating, slot: cell.slot }
}

/// Whether no two cells are about the same identity.
spec fn cells_are_distinct(cells: Seq<WorkspaceSchedulerCellV1>) -> bool {
    forall|i: int, j: int|
        0 <= i < j < cells.len() ==> #[trigger] cells[i].key.identity()
            != #[trigger] cells[j].key.identity()
}

proof fn a_cell_is_its_state(cells: Seq<WorkspaceSchedulerCellV1>, place: int)
    requires
        cells_are_distinct(cells),
        0 <= place < cells.len(),
    ensures
        cell_states(cells).dom().contains(cells[place].key.identity()),
        cell_states(cells)[cells[place].key.identity()] == cell_state(cells[place]),
{
    let identity = cells[place].key.identity();
    let chosen = choose|i: int|
        0 <= i < cells.len() && #[trigger] cells[i].key.identity() == identity;
    if chosen != place {
        assert(cells[chosen].key.identity() == cells[place].key.identity());
        assert(false);
    }
}

proof fn updating_a_cell_updates_its_state(
    cells: Seq<WorkspaceSchedulerCellV1>,
    place: int,
    cell: WorkspaceSchedulerCellV1,
)
    requires
        cells_are_distinct(cells),
        0 <= place < cells.len(),
        cell.key.identity() == cells[place].key.identity(),
    ensures
        cells_are_distinct(cells.update(place, cell)),
        cell_states(cells.update(place, cell)) == cell_states(cells).insert(
            cell.key.identity(),
            cell_state(cell),
        ),
{
    let updated = cells.update(place, cell);
    assert forall|i: int, j: int| 0 <= i < j < updated.len() implies #[trigger] updated[i].key.identity()
        != #[trigger] updated[j].key.identity() by {
        assert(cells[i].key.identity() != cells[j].key.identity());
    }
    assert forall|identity: KeyIdentity|
        cell_states(updated).dom().contains(identity) == (cell_states(cells).dom().contains(
            identity,
        ) || identity == cell.key.identity()) by {
        if cell_states(updated).dom().contains(identity) {
            let i = choose|i: int|
                0 <= i < updated.len() && #[trigger] updated[i].key.identity() == identity;
            assert(cells[i].key.identity() == identity);
        }
        if cell_states(cells).dom().contains(identity) {
            let i = choose|i: int|
                0 <= i < cells.len() && #[trigger] cells[i].key.identity() == identity;
            assert(updated[i].key.identity() == identity);
        }
        assert(updated[place].key.identity() == cell.key.identity());
    }
    assert forall|identity: KeyIdentity| #[trigger]
        cell_states(updated).dom().contains(identity) implies cell_states(updated)[identity]
        == cell_states(cells).insert(cell.key.identity(), cell_state(cell))[identity] by {
        let i = choose|i: int|
            0 <= i < updated.len() && #[trigger] updated[i].key.identity() == identity;
        a_cell_is_its_state(updated, i);
        a_cell_is_its_state(cells, i);
        a_cell_is_its_state(updated, place);
        if i != place {
            assert(updated[i].key.identity() != updated[place].key.identity()) by {
                if i < place {
                } else {
                    assert(updated[place].key.identity() != updated[i].key.identity());
                }
            }
        }
    }
    assert(cell_states(updated) =~= cell_states(cells).insert(
        cell.key.identity(),
        cell_state(cell),
    ));
}

proof fn adding_a_cell_adds_its_state(
    cells: Seq<WorkspaceSchedulerCellV1>,
    cell: WorkspaceSchedulerCellV1,
)
    requires
        cells_are_distinct(cells),
        !cell_states(cells).dom().contains(cell.key.identity()),
    ensures
        cells_are_distinct(cells.push(cell)),
        cell_states(cells.push(cell)) == cell_states(cells).insert(
            cell.key.identity(),
            cell_state(cell),
        ),
{
    let more = cells.push(cell);
    assert forall|i: int, j: int| 0 <= i < j < more.len() implies #[trigger] more[i].key.identity()
        != #[trigger] more[j].key.identity() by {
        assert(cells[i].key.identity() == more[i].key.identity());
        if j < cells.len() {
            assert(cells[j].key.identity() == more[j].key.identity());
        }
    }
    assert forall|identity: KeyIdentity|
        cell_states(more).dom().contains(identity) == (cell_states(cells).dom().contains(identity)
            || identity == cell.key.identity()) by {
        if cell_states(more).dom().contains(identity) {
            let i = choose|i: int|
                0 <= i < more.len() && #[trigger] more[i].key.identity() == identity;
            if i < cells.len() {
                assert(cells[i].key.identity() == identity);
            }
        }
        if cell_states(cells).dom().contains(identity) {
            let i = choose|i: int|
                0 <= i < cells.len() && #[trigger] cells[i].key.identity() == identity;
            assert(more[i].key.identity() == identity);
        }
        assert(more[cells.len() as int].key.identity() == cell.key.identity());
    }
    assert forall|identity: KeyIdentity| #[trigger]
        cell_states(more).dom().contains(identity) implies cell_states(more)[identity]
        == cell_states(cells).insert(cell.key.identity(), cell_state(cell))[identity] by {
        let i = choose|i: int|
            0 <= i < more.len() && #[trigger] more[i].key.identity() == identity;
        a_cell_is_its_state(more, i);
        if i < cells.len() {
            a_cell_is_its_state(cells, i);
        }
    }
    assert(cell_states(more) =~= cell_states(cells).insert(cell.key.identity(), cell_state(cell)));
}

/// Whether an identity may pass from one state to another: its generations only grow, and a
/// retiring scheduler is either still retiring or gone, never active again.
pub open spec fn identity_may_pass(before: Option<CellState>, after: Option<CellState>) -> bool {
    match before {
        None => true,
        Some(before) => after matches Some(after) && before.generation <= after.generation && (
        before.slot matches Some(WorkspaceSchedulerRegistrySlotV1::Retiring { scheduler, .. })
            ==> match after.slot {
            Some(WorkspaceSchedulerRegistrySlotV1::Active(_)) => false,
            Some(WorkspaceSchedulerRegistrySlotV1::Retiring { scheduler: still, .. }) => still
                == scheduler,
            None => true,
        }),
    }
}

/// The state of an identity, if the registry has one.
pub open spec fn state_of(states: Map<KeyIdentity, CellState>, identity: KeyIdentity) -> Option<
    CellState,
> {
    if states.dom().contains(identity) {
        Some(states[identity])
    } else {
        None
    }
}

/// Whether a registry may pass from one set of states to another.
pub open spec fn registry_may_pass(
    before: Map<KeyIdentity, CellState>,
    after: Map<KeyIdentity, CellState>,
) -> bool {
    forall|identity: KeyIdentity|
        identity_may_pass(#[trigger] state_of(before, identity), state_of(after, identity))
}

/// Whether a scheduler is the one that an identity is retiring and closing.
pub open spec fn is_closing(state: Option<CellState>, scheduler: SchedulerObjectV1) -> bool {
    state matches Some(state) && state.slot == Some(
        WorkspaceSchedulerRegistrySlotV1::Retiring { scheduler, close_in_progress: true },
    )
}

/// What is noticed of asking for a scheduler: one that could not be closed and is refused, and
/// nothing else.
pub fn notice_of_acquisition(acquisition: &SchedulerAcquisitionV1) -> (notice: Option<
    EventNoticeV1,
>)
    ensures
        notice == if (*acquisition matches SchedulerAcquisitionV1::Refused(
            DaemonCompositionErrorV1::SchedulerRetiring { .. },
        )) {
            Some(
                EventNoticeV1 {
                    category: EventCategoryV1::TerminalOrRequeueOrSaturation,
                    severity: SeverityV1::Warn,
                },
            )
        } else {
            None
        },
{
    match acquisition {
        SchedulerAcquisitionV1::Refused(DaemonCompositionErrorV1::SchedulerRetiring { .. }) => Some(
            EventNoticeV1 {
                category: EventCategoryV1::TerminalOrRequeueOrSaturation,
                severity: SeverityV1::Warn,
            },
        ),
        _ => None,
    }
}

/// What is noticed once the scheduler of a reserved generation is published.
pub fn notice_of_published_scheduler() -> (notice: EventNoticeV1)
    ensures
        notice == (EventNoticeV1 {
            category: EventCategoryV1::Scheduler,
            severity: SeverityV1::Info,
        }),
{
    EventNoticeV1 { category: EventCategoryV1::Scheduler, severity: SeverityV1::Info }
}

impl WorkspaceSchedulerRegistryV1 {
    /// What the registry says of each identity that it has ever held a scheduler of.
    pub closed spec fn states(self) -> Map<KeyIdentity, CellState> {
        cell_states(self.cells@)
    }

    /// The invariant of the registry.
    pub closed spec fn wf(self) -> bool {
        cells_are_distinct(self.cells@)
    }

    /// What the registry says of an identity.
    pub open spec fn state(self, identity: KeyIdentity) -> Option<CellState> {
        state_of(self.states(), identity)
    }

    /// A registry without schedulers.
    pub fn new() -> (registry: Self)
        ensures
            registry.wf(),
            registry.states() == Map::<KeyIdentity, CellState>::empty(),
    {
        let registry = WorkspaceSchedulerRegistryV1 { cells: Vec::new() };
        assert(registry.states() =~= Map::<KeyIdentity, CellState>::empty());
        registry
    }

    fn find(&self, key: &WorkspaceSchedulerKeyV1) -> (place: Option<usize>)
        requires
            self.wf(),
        ensures
            match place {
                Some(place) => place < self.cells@.len() && self.cells@[place as int].key.identity()
                    == key.identity() && self.state(key.identity()) == Some(
                    cell_state(self.cells@[place as int]),
                ),
                None => self.state(key.identity()) is None,
            },
    {
        let mut place: usize = 0;
        while place < self.cells.len()
            invariant
                self.wf(),
                place <= self.cells@.len(),
                forall|i: int|
                    0 <= i < place ==> #[trigger] self.cells@[i].key.identity() != key.identity(),
            decreases self.cells@.len() - place,
        {
            if self.cells[place].key.same(key) {
                proof {
                    a_cell_is_its_state(self.cells@, place as int);
                }
                return Some(place);
            }
            place = place + 1;
        }
        None
    }

    fn set_slot(
        &mut self,
        place: usize,
        creating: bool,
        slot: Option<WorkspaceSchedulerRegistrySlotV1>,
    )
        requires
            old(self).wf(),
            place < old(self).cells@.len(),
        ensures
            final(self).wf(),
            final(self).states() == old(self).states().insert(
                old(self).cells@[place as int].key.identity(),
                CellState {
                    generation: old(self).cells@[place as int].generation.nth(),
                    creating,
                    slot,
                },
            ),
    {
        let cell = WorkspaceSchedulerCellV1 {
            key: self.cells[place].key.copy(),
            generation: self.cells[place].generation,
            creating,
            slot,
        };
        proof {
            updating_a_cell_updates_its_state(self.cells@, place as int, cell);
        }
        self.cells.set(place, cell);
    }

    /// The active scheduler of an identity. One that is being created or retired is not reported.
    pub fn get_active(&self, key: &WorkspaceSchedulerKeyV1) -> (scheduler: Option<
        SchedulerObjectV1,
    >)
        requires
            self.wf(),
        ensures
            scheduler == match self.state(key.identity()) {
                Some(CellState {
                    slot: Some(WorkspaceSchedulerRegistrySlotV1::Active(scheduler)),
                    ..
                }) => Some(scheduler),
                _ => None::<SchedulerObjectV1>,
            },
    {
        match self.find(key) {
            Some(place) => match self.cells[place].slot {
                Some(WorkspaceSchedulerRegistrySlotV1::Active(scheduler)) => Some(scheduler),
                Some(WorkspaceSchedulerRegistrySlotV1::Retiring { .. }) => None,
                None => None,
            },
            None => None,
        }
    }

    /// The active scheduler of an identity, or the reservation of the generation that the caller
    /// is to create. One that is being created or closed is waited for; one that could not be
    /// closed is refused.
    pub fn acquire(&mut self, key: &WorkspaceSchedulerKeyV1) -> (acquisition:
        SchedulerAcquisitionV1)
        requires
            old(self).wf(),
        ensures
            final(self).wf(),
            registry_may_pass(old(self).states(), final(self).states()),
            !(acquisition is Reserved) ==> final(self).states() == old(self).states(),
            match old(self).state(key.identity()) {
                Some(CellState {
                    slot: Some(WorkspaceSchedulerRegistrySlotV1::Active(scheduler)),
                    ..
                }) => acquisition == SchedulerAcquisitionV1::Existing(scheduler),
                Some(CellState {
                    slot: Some(
                        WorkspaceSchedulerRegistrySlotV1::Retiring {
                            scheduler,
                            close_in_progress,
                        },
                    ),
                    ..
                }) => acquisition == if close_in_progress {
                    SchedulerAcquisitionV1::WaitForChange
                } else {
                    SchedulerAcquisitionV1::Refused(
                        DaemonCompositionErrorV1::SchedulerRetiring {
                            generation: scheduler.generation,
                        },
                    )
                },
                Some(CellState { slot: None, creating: true, .. }) => acquisition
                    == SchedulerAcquisitionV1::WaitForChange,
                Some(CellState { slot: None, creating: false, generation }) => if generation
                    == u64::MAX {
                    acquisition == SchedulerAcquisitionV1::Refused(
                        DaemonCompositionErrorV1::SchedulerGenerationExhausted,
                    )
                } else {
                    acquisition matches SchedulerAcquisitionV1::Reserved(reserved)
                        && reserved.nth() == generation + 1
                },
                None => acquisition matches SchedulerAcquisitionV1::Reserved(reserved)
                    && reserved.nth() == 1,
            },
            acquisition matches SchedulerAcquisitionV1::Reserved(reserved) ==> final(self).states()
                == old(self).states().insert(
                key.identity(),
                CellState { generation: reserved.nth(), creating: true, slot: None },
            ),
    {
        match self.find(key) {
            Some(place) => {
                match self.cells[place].slot {
                    Some(WorkspaceSchedulerRegistrySlotV1::Active(scheduler)) => {
                        return SchedulerAcquisitionV1::Existing(scheduler);
                    },
                    Some(
                        WorkspaceSchedulerRegistrySlotV1::Retiring { scheduler, close_in_progress },
                    ) => {
                        if close_in_progress {
                            return SchedulerAcquisitionV1::WaitForChange;
                        }
                        return SchedulerAcquisitionV1::Refused(
                            DaemonCompositionErrorV1::SchedulerRetiring {
                                generation: scheduler.generation,
                            },
                        );
                    },
                    None => {},
                }
                if self.cells[place].creating {
                    return SchedulerAcquisitionV1::WaitForChange;
                }
                match self.cells[place].generation.next() {
                    Ok(generation) => {
                        let cell = WorkspaceSchedulerCellV1 {
                            key: key.copy(),
                            generation,
                            creating: true,
                            slot: None,
                        };
                        proof {
                            updating_a_cell_updates_its_state(self.cells@, place as int, cell);
                        }
                        self.cells.set(place, cell);
                        SchedulerAcquisitionV1::Reserved(generation)
                    },
                    Err(error) => SchedulerAcquisitionV1::Refused(error),
                }
            },
            None => {
                let generation = SchedulerGenerationV1::initial();
                let cell = WorkspaceSchedulerCellV1 {
                    key: key.copy(),
                    generation,
                    creating: true,
                    slot: None,
                };
                proof {
                    adding_a_cell_adds_its_state(self.cells@, cell);
                }
                self.cells.push(cell);
                SchedulerAcquisitionV1::Reserved(generation)
            },
        }
    }

    /// Publishes the scheduler of a reserved generation.
    pub fn publish(
        &mut self,
        key: &WorkspaceSchedulerKeyV1,
        scheduler: SchedulerObjectV1,
    )
        requires
            old(self).wf(),
            old(self).state(key.identity()) == Some(
                CellState { generation: scheduler.generation.nth(), creating: true, slot: None },
            ),
        ensures
            final(self).wf(),
            registry_may_pass(old(self).states(), final(self).states()),
            final(self).states() == old(self).states().insert(
                key.identity(),
                CellState {
                    generation: scheduler.generation.nth(),
                    creating: false,
                    slot: Some(WorkspaceSchedulerRegistrySlotV1::Active(scheduler)),
                },
            ),
    {
        if let Some(place) = self.find(key) {
            self.set_slot(place, false, Some(WorkspaceSchedulerRegistrySlotV1::Active(scheduler)));
        }
    }

    /// Gives up the reservation of a generation whose context could not be made. The generation is
    /// not used again.
    pub fn abandon(&mut self, key: &WorkspaceSchedulerKeyV1)
        requires
            old(self).wf(),
        ensures
            final(self).wf(),
            registry_may_pass(old(self).states(), final(self).states()),
            final(self).states() == match old(self).state(key.identity()) {
                Some(state) => old(self).states().insert(
                    key.identity(),
                    CellState { creating: false, ..state },
                ),
                None => old(self).states(),
            },
    {
        if let Some(place) = self.find(key) {
            let slot = self.cells[place].slot;
            self.set_slot(place, false, slot);
        }
    }

    /// Starts the retirement of exactly this active scheduler.
    pub fn begin_retirement(
        &mut self,
        key: &WorkspaceSchedulerKeyV1,
        scheduler: SchedulerObjectV1,
    ) -> (result: Result<(), WorkspaceSchedulerRetirementStartErrorV1>)
        requires
            old(self).wf(),
        ensures
            final(self).wf(),
            registry_may_pass(old(self).states(), final(self).states()),
            result is Err ==> final(self).states() == old(self).states(),
            match old(self).state(key.identity()) {
                Some(CellState {
                    slot: Some(WorkspaceSchedulerRegistrySlotV1::Active(current)),
                    generation,
                    creating,
                }) => if current == scheduler {
                    result is Ok && final(self).states() == old(self).states().insert(
                        key.identity(),
                        CellState {
                            generation,
                            creating,
                            slot: Some(
                                WorkspaceSchedulerRegistrySlotV1::Retiring {
                                    scheduler,
                                    close_in_progress: true,
                                },
                            ),
                        },
                    )
                } else {
                    result == Err::<(), WorkspaceSchedulerRetirementStartErrorV1>(
                        WorkspaceSchedulerRetirementStartErrorV1::NotCurrent {
                            key: *key,
                            generation: scheduler.generation,
                        },
                    )
                },
                Some(CellState {
                    slot: Some(
                        WorkspaceSchedulerRegistrySlotV1::Retiring {
                            scheduler: current,
                            close_in_progress,
                        },
                    ),
                    ..
                }) => result == Err::<(), WorkspaceSchedulerRetirementStartErrorV1>(
                    if current != scheduler {
                        WorkspaceSchedulerRetirementStartErrorV1::NotCurrent {
                            key: *key,
                            generation: scheduler.generation,
                        }
                    } else if close_in_progress {
                        WorkspaceSchedulerRetirementStartErrorV1::CloseInProgress {
                            key: *key,
                            generation: scheduler.generation,
                        }
                    } else {
                        WorkspaceSchedulerRetirementStartErrorV1::AlreadyRetiring {
                            retry: WorkspaceSchedulerRetirementRetryV1 { key: *key, scheduler },
                        }
                    },
                ),
                _ => result == Err::<(), WorkspaceSchedulerRetirementStartErrorV1>(
                    WorkspaceSchedulerRetirementStartErrorV1::NotRegistered {
                        key: *key,
                        generation: scheduler.generation,
                    },
                ),
            },
    {
        let generation = scheduler.generation;
        match self.find(key) {
            Some(place) => match self.cells[place].slot {
                Some(WorkspaceSchedulerRegistrySlotV1::Active(current)) => {
                    if current != scheduler {
                        return Err(
                            WorkspaceSchedulerRetirementStartErrorV1::NotCurrent {
                                key: key.copy(),
                                generation,
                            },
                        );
                    }
                    let creating: bool = self.cells[place].creating;
                    self.set_slot(
                        place,
                        creating,
                        Some(
                            WorkspaceSchedulerRegistrySlotV1::Retiring {
                                scheduler,
                                close_in_progress: true,
                            },
                        ),
                    );
                    Ok(())
                },
                Some(
                    WorkspaceSchedulerRegistrySlotV1::Retiring {
                        scheduler: current,
                        close_in_progress,
                    },
                ) => {
                    if current != scheduler {
                        Err(
                            WorkspaceSchedulerRetirementStartErrorV1::NotCurrent {
                                key: key.copy(),
                                generation,
                            },
                        )
                    } else if close_in_progress {
                        Err(
                            WorkspaceSchedulerRetirementStartErrorV1::CloseInProgress {
                                key: key.copy(),
                                generation,
                            },
                        )
                    } else {
                        Err(
                            WorkspaceSchedulerRetirementStartErrorV1::AlreadyRetiring {
                                retry: WorkspaceSchedulerRetirementRetryV1 {
                                    key: key.copy(),
                                    scheduler,
                                },
                            },
                        )
                    }
                },
                None => Err(
                    WorkspaceSchedulerRetirementStartErrorV1::NotRegistered {
                        key: key.copy(),
                        generation,
                    },
                ),
            },
            None => Err(
                WorkspaceSchedulerRetirementStartErrorV1::NotRegistered {
                    key: key.copy(),
                    generation,
                },
            ),
        }
    }

    /// Starts another close of exactly this retiring scheduler.
    pub fn begin_retirement_retry(
        &mut self,
        retry: &WorkspaceSchedulerRetirementRetryV1,
    ) -> (result: Result<(), WorkspaceSchedulerRetirementStartErrorV1>)
        requires
            old(self).wf(),
        ensures
            final(self).wf(),
            registry_may_pass(old(self).states(), final(self).states()),
            result is Err ==> final(self).states() == old(self).states(),
            match old(self).state(retry.key.identity()) {
                Some(CellState {
                    slot: Some(
                        WorkspaceSchedulerRegistrySlotV1::Retiring {
                            scheduler,
                            close_in_progress,
                        },
                    ),
                    generation,
                    creating,
                }) => if scheduler != retry.scheduler {
                    result == Err::<(), WorkspaceSchedulerRetirementStartErrorV1>(
                        WorkspaceSchedulerRetirementStartErrorV1::NotCurrent {
                            key: retry.key,
                            generation: retry.scheduler.generation,
                        },
                    )
                } else if close_in_progress {
                    result == Err::<(), WorkspaceSchedulerRetirementStartErrorV1>(
                        WorkspaceSchedulerRetirementStartErrorV1::CloseInProgress {
                            key: retry.key,
                            generation: retry.scheduler.generation,
                        },
                    )
                } else {
                    result is Ok && final(self).states() == old(self).states().insert(
                        retry.key.identity(),
                        CellState {
                            generation,
                            creating,
                            slot: Some(
                                WorkspaceSchedulerRegistrySlotV1::Retiring {
                                    scheduler,
                                    close_in_progress: true,
                                },
                            ),
                        },
                    )
                },
                Some(CellState {
                    slot: Some(WorkspaceSchedulerRegistrySlotV1::Active(_)),
                    ..
                }) => result == Err::<(), WorkspaceSchedulerRetirementStartErrorV1>(
                    WorkspaceSchedulerRetirementStartErrorV1::NotCurrent {
                        key: retry.key,
                        generation: retry.scheduler.generation,
                    },
                ),
                _ => result == Err::<(), WorkspaceSchedulerRetirementStartErrorV1>(
                    WorkspaceSchedulerRetirementStartErrorV1::NotRegistered {
                        key: retry.key,
                        generation: retry.scheduler.generation,
                    },
                ),
            },
    {
        let generation = retry.scheduler.generation;
        match self.find(&retry.key) {
            Some(place) => match self.cells[place].slot {
                Some(
                    WorkspaceSchedulerRegistrySlotV1::Retiring { scheduler, close_in_progress },
                ) => {
                    if scheduler != retry.scheduler {
                        return Err(
                            WorkspaceSchedulerRetirementStartErrorV1::NotCurrent {
                                key: retry.key.copy(),
                                generation,
                            },
                        );
                    }
                    if close_in_progress {
                        return Err(
                            WorkspaceSchedulerRetirementStartErrorV1::CloseInProgress {
                                key: retry.key.copy(),
                                generation,
                            },
                        );
                    }
                    let creating: bool = self.cells[place].creating;
                    self.set_slot(
                        place,
                        creating,
                        Some(
                            WorkspaceSchedulerRegistrySlotV1::Retiring {
                                scheduler,
                                close_in_progress: true,
                            },
                        ),
                    );
                    Ok(())
                },
                Some(WorkspaceSchedulerRegistrySlotV1::Active(_)) => Err(
                    WorkspaceSchedulerRetirementStartErrorV1::NotCurrent {
                        key: retry.key.copy(),
                        generation,
                    },
                ),
                None => Err(
                    WorkspaceSchedulerRetirementStartErrorV1::NotRegistered {
                        key: retry.key.copy(),
                        generation,
                    },
                ),
            },
            None => Err(
                WorkspaceSchedulerRetirementStartErrorV1::NotRegistered {
                    key: retry.key.copy(),
                    generation,
                },
            ),
        }
    }

    fn closing_place(&self, retry: &WorkspaceSchedulerRetirementRetryV1) -> (place: Option<usize>)
        requires
            self.wf(),
        ensures
            match place {
                Some(place) => is_closing(self.state(retry.key.identity()), retry.scheduler)
                    && place < self.cells@.len() && self.cells@[place as int].key.identity()
                    == retry.key.identity() && self.state(retry.key.identity()) == Some(
                    cell_state(self.cells@[place as int]),
                ),
                None => !is_closing(self.state(retry.key.identity()), retry.scheduler),
            },
    {
        match self.find(&retry.key) {
            Some(place) => match self.cells[place].slot {
                Some(
                    WorkspaceSchedulerRegistrySlotV1::Retiring { scheduler, close_in_progress },
                ) => {
                    if close_in_progress && scheduler == retry.scheduler {
                        Some(place)
                    } else {
                        None
                    }
                },
                _ => None,
            },
            None => None,
        }
    }

    /// Makes a close that did not complete retryable, if it is still the current one.
    pub fn clear_close_in_progress(
        &mut self,
        retry: &WorkspaceSchedulerRetirementRetryV1,
    ) -> (current: bool)
        requires
            old(self).wf(),
        ensures
            final(self).wf(),
            registry_may_pass(old(self).states(), final(self).states()),
            current == is_closing(old(self).state(retry.key.identity()), retry.scheduler),
            final(self).states() == if current {
                old(self).states().insert(
                    retry.key.identity(),
                    CellState {
                        slot: Some(
                            WorkspaceSchedulerRegistrySlotV1::Retiring {
                                scheduler: retry.scheduler,
                                close_in_progress: false,
                            },
                        ),
                        ..old(self).states()[retry.key.identity()]
                    },
                )
            } else {
                old(self).states()
            },
    {
        match self.closing_place(retry) {
            Some(place) => {
                let creating: bool = self.cells[place].creating;
                self.set_slot(
                    place,
                    creating,
                    Some(
                        WorkspaceSchedulerRegistrySlotV1::Retiring {
                            scheduler: retry.scheduler,
                            close_in_progress: false,
                        },
                    ),
                );
                true
            },
            None => false,
        }
    }

    /// Completes a close. A scheduler that was closed leaves the registry if it is still the one
    /// being closed; one that was not stays retiring, and may be closed again.
    pub fn finish_retirement<E>(
        &mut self,
        retry: &WorkspaceSchedulerRetirementRetryV1,
        closed: Result<(), E>,
    ) -> (result: Result<(), WorkspaceSchedulerRetirementErrorV1<E>>)
        requires
            old(self).wf(),
        ensures
            final(self).wf(),
            registry_may_pass(old(self).states(), final(self).states()),
            !is_closing(old(self).state(retry.key.identity()), retry.scheduler)
                ==> final(self).states() == old(self).states(),
            is_closing(old(self).state(retry.key.identity()), retry.scheduler)
                ==> final(self).states() == old(self).states().insert(
                retry.key.identity(),
                CellState {
                    slot: match closed {
                        Ok(_) => None,
                        Err(_) => Some(
                            WorkspaceSchedulerRegistrySlotV1::Retiring {
                                scheduler: retry.scheduler,
                                close_in_progress: false,
                            },
                        ),
                    },
                    ..old(self).states()[retry.key.identity()]
                },
            ),
            result == match (
                closed,
                is_closing(old(self).state(retry.key.identity()), retry.scheduler),
            ) {
                (Ok(_), true) => Ok::<(), WorkspaceSchedulerRetirementErrorV1<E>>(()),
                (Ok(_), false) => Err(
                    WorkspaceSchedulerRetirementErrorV1::StaleCompletion {
                        key: retry.key,
                        generation: retry.scheduler.generation,
                    },
                ),
                (Err(source), true) => Err(
                    WorkspaceSchedulerRetirementErrorV1::CloseFailed { source, retry: *retry },
                ),
                (Err(source), false) => Err(
                    WorkspaceSchedulerRetirementErrorV1::CloseFailedStale {
                        source,
                        key: retry.key,
                        generation: retry.scheduler.generation,
                    },
                ),
            },
    {
        let generation = retry.scheduler.generation;
        match closed {
            Ok(_) => match self.closing_place(retry) {
                Some(place) => {
                    let creating: bool = self.cells[place].creating;
                    self.set_slot(place, creating, None);
                    Ok(())
                },
                None => Err(
                    WorkspaceSchedulerRetirementErrorV1::StaleCompletion {
                        key: retry.key.copy(),
                        generation,
                    },
                ),
            },
            Err(source) => {
                if self.clear_close_in_progress(retry) {
                    Err(
                        WorkspaceSchedulerRetirementErrorV1::CloseFailed {
                            source,
                            retry: retry.copy(),
                        },
                    )
                } else {
                    Err(
                        WorkspaceSchedulerRetirementErrorV1::CloseFailedStale {
                            source,
                            key: retry.key.copy(),
                            generation,
                        },
                    )
                }
            },
        }
    }
}

impl Default for WorkspaceSchedulerRegistryV1 {
    /// A registry without schedulers.
    fn default() -> (registry: Self)
        ensures
            registry.wf(),
            registry.states() == Map::<KeyIdentity, CellState>::empty(),
    {
        WorkspaceSchedulerRegistryV1::new()
    }
}

impl WorkspaceSchedulerRetirementRetryV1 {
    /// The key of the retiring scheduler.
    pub fn key(&self) -> (key: &WorkspaceSchedulerKeyV1)
        ensures
            *key == self.key,
    {
        &self.key
    }

    /// The generation of the retiring scheduler.
    pub fn generation(&self) -> (generation: SchedulerGenerationV1)
        ensures
            generation == self.scheduler.generation,
    {
        self.scheduler.generation
    }

    /// The same capability once more.
    pub fn copy(&self) -> (retry: Self)
        ensures
            retry == *self,
    {
        WorkspaceSchedulerRetirementRetryV1 { key: self.key.copy(), scheduler: self.scheduler }
    }
}

/// What a registry may do in one step and then another, it may do in both.
pub proof fn registry_steps_compose(
    first: Map<KeyIdentity, CellState>,
    second: Map<KeyIdentity, CellState>,
    third: Map<KeyIdentity, CellState>,
)
    requires
        registry_may_pass(first, second),
        registry_may_pass(second, third),
    ensures
        forall|identity: KeyIdentity| #[trigger]
            first.dom().contains(identity) ==> third.dom().contains(identity)
                && first[identity].generation <= third[identity].generation,
{
    assert forall|identity: KeyIdentity| #[trigger]
        first.dom().contains(identity) implies third.dom().contains(identity)
        && first[identity].generation <= third[identity].generation by {
        assert(identity_may_pass(state_of(first, identity), state_of(second, identity)));
        assert(identity_may_pass(state_of(second, identity), state_of(third, identity)));
    }
}

impl WorkspaceSchedulerRetirementStartErrorV1 {
    /// What the error is shown as.
    pub open spec fn shown(self) -> Seq<char> {
        match self {
            WorkspaceSchedulerRetirementStartErrorV1::NotRegistered { generation, .. } =>
                "scheduler generation "@ + text::decimal(generation.nth() as nat)
                + " is not registered"@,
            WorkspaceSchedulerRetirementStartErrorV1::NotCurrent { generation, .. } =>
                "scheduler generation "@ + text::decimal(generation.nth() as nat)
                + " is not current"@,
            WorkspaceSchedulerRetirementStartErrorV1::CloseInProgress { generation, .. } =>
                "scheduler generation "@ + text::decimal(generation.nth() as nat)
                + " close/drain is already in progress"@,
            WorkspaceSchedulerRetirementStartErrorV1::AlreadyRetiring { retry } =>
                "scheduler generation "@ + text::decimal(retry.scheduler.generation.nth() as nat)
                + " remains retiring after a failed close/drain"@,
        }
    }

    /// The text of the error.
    pub fn message(&self) -> (message: String)
        ensures
            message@ == self.shown(),
    {
        match self {
            WorkspaceSchedulerRetirementStartErrorV1::NotRegistered { generation, .. } => {
                text::join_three(
                    "scheduler generation ",
                    &text::decimal_text(generation.get()),
                    " is not registered",
                )
            },
            WorkspaceSchedulerRetirementStartErrorV1::NotCurrent { generation, .. } => {
                text::join_three(
                    "scheduler generation ",
                    &text::decimal_text(generation.get()),
                    " is not current",
                )
            },
            WorkspaceSchedulerRetirementStartErrorV1::CloseInProgress { generation, .. } => {
                text::join_three(
                    "scheduler generation ",
                    &text::decimal_text(generation.get()),
                    " close/drain is already in progress",
                )
            },
            WorkspaceSchedulerRetirementStartErrorV1::AlreadyRetiring { retry } => {
                text::join_three(
                    "scheduler generation ",
                    &text::decimal_text(retry.scheduler.generation.get()),
                    " remains retiring after a failed close/drain",
                )
            },
        }
    }
}

impl<E> WorkspaceSchedulerRetirementErrorV1<E> {
    /// What the error is shown as, given what its source is shown as.
    pub open spec fn shown(self, source_text: Seq<char>) -> Seq<char> {
        match self {
            WorkspaceSchedulerRetirementErrorV1::Start(error) => error.shown(),
            WorkspaceSchedulerRetirementErrorV1::CloseFailed { retry, .. } =>
                "scheduler generation "@ + text::decimal(retry.scheduler.generation.nth() as nat)
                + " close/drain failed: "@ + source_text,
            WorkspaceSchedulerRetirementErrorV1::CloseFailedStale { generation, .. } =>
                "scheduler generation "@ + text::decimal(generation.nth() as nat)
                + " close/drain failed after becoming stale: "@ + source_text,
            WorkspaceSchedulerRetirementErrorV1::StaleCompletion { generation, .. } =>
                "scheduler generation "@ + text::decimal(generation.nth() as nat)
                + " completion became stale"@,
        }
    }

    /// The text of the error, given the text of its source.
    pub fn message(&self, source_text: &str) -> (message: String)
        ensures
            message@ == self.shown(source_text@),
    {
        match self {
            WorkspaceSchedulerRetirementErrorV1::Start(error) => error.message(),
            WorkspaceSchedulerRetirementErrorV1::CloseFailed { retry, .. } => text::join_four(
                "scheduler generation ",
                &text::decimal_text(retry.scheduler.generation.get()),
                " close/drain failed: ",
                source_text,
            ),
            WorkspaceSchedulerRetirementErrorV1::CloseFailedStale { generation, .. } => {
                text::join_four(
                    "scheduler generation ",
                    &text::decimal_text(generation.get()),
                    " close/drain failed after becoming stale: ",
                    source_text,
                )
            },
            WorkspaceSchedulerRetirementErrorV1::StaleCompletion { generation, .. } => {
                text::join_three(
                    "scheduler generation ",
                    &text::decimal_text(generation.get()),
                    " completion became stale",
                )
            },
        }
    }
}

/// A registry may pass only to one in which no identity is forgotten, no generation is issued again, and a
/// retiring scheduler is never active again: it is still retiring, or gone.
pub proof fn a_retiring_scheduler_never_comes_back(
    before: Map<KeyIdentity, CellState>,
    after: Map<KeyIdentity, CellState>,
    identity: KeyIdentity,
)
    requires
        registry_may_pass(before, after),
        before.dom().contains(identity),
    ensures
        after.dom().contains(identity),
        before[identity].generation <= after[identity].generation,
        before[identity].slot matches Some(WorkspaceSchedulerRegistrySlotV1::Retiring {
            scheduler,
            ..
        }) ==> (match after[identity].slot {
            None => true,
            Some(WorkspaceSchedulerRegistrySlotV1::Active(_)) => false,
            Some(WorkspaceSchedulerRegistrySlotV1::Retiring { scheduler: still, .. }) => still
                == scheduler,
        }),
{
    assert(identity_may_pass(state_of(before, identity), state_of(after, identity)));
}

/// Two keys name the same identity exactly if they are of the same workspace in the same worktree of the same
/// repository.
pub proof fn a_key_names_a_workspace_of_a_worktree(
    left: WorkspaceSchedulerKeyV1,
    right: WorkspaceSchedulerKeyV1,
    same: bool,
)
    requires
        call_ensures(WorkspaceSchedulerKeyV1::same, (&left, &right), same),
    ensures
        same <==> left.workspace_uuid@ == right.workspace_uuid@ && left.common_directory_digest@
            == right.common_directory_digest@ && left.worktree_administration_digest@
            == right.worktree_administration_digest@,
{
}

/// A scheduler is being closed exactly if it is the one that its identity is retiring, and a close of it is
/// under way.
pub proof fn only_a_retiring_scheduler_is_being_closed(
    state: Option<CellState>,
    scheduler: SchedulerObjectV1,
)
    ensures
        is_closing(state, scheduler) <==> (state matches Some(state) && (state.slot matches Some(
            WorkspaceSchedulerRegistrySlotV1::Retiring { scheduler: retiring, close_in_progress },
        ) && retiring == scheduler && close_in_progress)),
{
}

} // verus!
