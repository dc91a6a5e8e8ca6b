//! The workspace registry: which root each workspace was last seen at.
//!
//! The registry is no identity, Store or scheduler authority. It remembers only the last validated
//! root and observation time of a workspace that a Store vouches for. A document is a sequence of
//! entries, strictly sorted by workspace; [`registered`] is what it says, and every operation is
//! stated over that.

use crate::text;
use vstd::prelude::*;

verus! {

/// The only schema that a registry document may carry.
pub const WORKSPACE_REGISTRY_SCHEMA_V1: &'static str = "podway.registry/v1";

/// The registry is bounded so that startup recovery cannot be amplified by a corrupt local file.
pub const MAX_WORKSPACE_REGISTRY_ENTRIES_V1: usize = 10_000;

/// The largest registry document that is read, in bytes.
pub const MAX_WORKSPACE_REGISTRY_BYTES_V1: u64 = 4_194_304;

/// The longest root text that an entry may hold, in bytes.
pub const MAX_WORKSPACE_ROOT_TEXT_BYTES_V1: usize = 4_096;

/// The permission bits of the directory that holds the registry.
pub const PRIVATE_DIRECTORY_MODE: u32 = 0o700;

/// The permission bits of the registry's files.
pub const PRIVATE_FILE_MODE: u32 = 0o600;

/// One metadata observation.
#[derive(Clone, Debug, PartialEq, Eq)]
pub struct WorkspaceRegistryEntryV1 {
    pub workspace_uuid: String,
    pub last_known_root: String,
    pub last_seen_at: String,
}

/// The complete registry document. Entries are strictly sorted by workspace.
#[derive(Clone, Debug, PartialEq, Eq)]
pub struct WorkspaceRegistryV1 {
    workspaces: Vec<WorkspaceRegistryEntryV1>,
}

/// Why entries do not make a registry.
#[derive(Clone, Copy, Debug, PartialEq, Eq)]
pub enum WorkspaceRegistryValidationErrorV1 {
    TooManyWorkspaces { maximum: usize, actual: usize },
    WorkspaceRootTooLong { maximum: usize, actual: usize },
    WorkspacesNotStrictlySorted,
}

/// A filesystem property that makes a registry path unsafe.
#[derive(Clone, Copy, Debug, PartialEq, Eq)]
pub enum RegistryPathViolationV1 {
    Symlink,
    NotDirectory,
    NotRegularFile,
    WrongOwner { expected_uid: u32, actual_uid: u32 },
    WrongMode { expected_mode: u32, actual_mode: u32 },
}

/// Why an existing registry document is rejected instead of repaired or tolerated.
#[derive(Clone, Copy, Debug, PartialEq, Eq, Structural)]
pub enum RegistryDocumentViolationV1 {
    InvalidJson,
    NonCanonicalJson,
    InvalidShape,
    UnsupportedSchema,
    InvalidWorkspaceRoot,
    InvalidTimestamp,
    InvalidEntryOrder,
}

/// A publication boundary at which a test may interrupt.
#[derive(Clone, Copy, Debug, PartialEq, Eq, Structural)]
pub enum RegistryFailpointV1 {
    BeforeRename,
    AfterRenameBeforeParentSync,
}

/// What happens at the boundary that a store was built to interrupt at.
#[derive(Clone, Copy, Debug, PartialEq, Eq, Structural)]
pub enum RegistryFailpointActionV1 {
    ReturnError,
    AbortProcess,
    Barrier,
}

/// Why a registry operation failed. Paths and operating-system errors are held as the texts that
/// they are shown by.
#[derive(Clone, Debug, PartialEq, Eq)]
pub enum RegistryErrorV1 {
    RegistryPathHasNoParent { path: String },
    UnsafeRegistryParent { path: String, violation: RegistryPathViolationV1 },
    UnsafeRegistryFile { path: String, violation: RegistryPathViolationV1 },
    UnsafeRegistryLock { path: String, violation: RegistryPathViolationV1 },
    UnsafeRegistryTemporary { path: String, violation: RegistryPathViolationV1 },
    Io { operation: String, path: String, source: String },
    ParentCreate { path: String, source: String },
    RegistryOpen { path: String, source: String },
    LockOpen { path: String, source: String },
    LockAcquire { path: String, source: String },
    LockRelease { path: String, source: String },
    RegistryTooLarge { path: String, maximum: u64, actual: u64 },
    InvalidRegistryDocument { path: String, violation: RegistryDocumentViolationV1 },
    RegistryValidation(WorkspaceRegistryValidationErrorV1),
    WorkspaceRootConflict {
        workspace_uuid: String,
        registered_root: String,
        supplied_root: String,
    },
    WorkspaceRootOccupied { occupied_root: String },
    WorkspaceNotRegistered { workspace_uuid: String },
    TemporaryNameExhausted { parent: String },
    Failpoint { point: RegistryFailpointV1 },
    InProcessLockPoisoned,
}

/// What an entry says of its workspace: the root it was last known at, and when it was seen.
pub open spec fn observation(entry: WorkspaceRegistryEntryV1) -> (Seq<char>, Seq<char>) {
    (entry.last_known_root@, entry.last_seen_at@)
}

/// The number of bytes of a text.
pub open spec fn byte_length(characters: Seq<char>) -> nat {
    vstd::utf8::encode_utf8(characters).len()
}

/// Whether a root text is short enough for an entry.
pub open spec fn root_fits(root: Seq<char>) -> bool {
    byte_length(root) <= MAX_WORKSPACE_ROOT_TEXT_BYTES_V1
}

/// Whether every workspace comes before the workspaces of the later entries.
pub open spec fn strictly_sorted(entries: Seq<WorkspaceRegistryEntryV1>) -> bool {
    forall|i: int, j: int|
        0 <= i < j < entries.len() ==> text::text_before(
            #[trigger] entries[i].workspace_uuid@,
            #[trigger] entries[j].workspace_uuid@,
        )
}

/// Whether the root text of every entry is short enough.
pub open spec fn roots_fit(entries: Seq<WorkspaceRegistryEntryV1>) -> bool {
    forall|i: int| 0 <= i < entries.len() ==> root_fits(#[trigger] entries[i].last_known_root@)
}

/// Whether some entry is about the given workspace.
pub open spec fn mentions(entries: Seq<WorkspaceRegistryEntryV1>, workspace: Seq<char>) -> bool {
    exists|i: int| 0 <= i < entries.len() && #[trigger] entries[i].workspace_uuid@ == workspace
}

/// What entries say: the observation of each workspace that they mention.
pub open spec fn registered(entries: Seq<WorkspaceRegistryEntryV1>) -> Map<
    Seq<char>,
    (Seq<char>, Seq<char>),
> {
    Map::new(
        |workspace: Seq<char>| mentions(entries, workspace),
        |workspace: Seq<char>|
            observation(
                entries[choose|i: int|
                    0 <= i < entries.len() && #[trigger] entries[i].workspace_uuid@ == workspace],
            ),
    )
}

/// An entry of sorted entries is what they say of its workspace.
proof fn an_entry_is_registered(entries: Seq<WorkspaceRegistryEntryV1>, place: int)
    requires
        strictly_sorted(entries),
        0 <= place < entries.len(),
    ensures
        registered(entries).dom().contains(entries[place].workspace_uuid@),
        registered(entries)[entries[place].workspace_uuid@] == observation(entries[place]),
{
    let workspace = entries[place].workspace_uuid@;
    let chosen = choose|i: int|
        0 <= i < entries.len() && #[trigger] entries[i].workspace_uuid@ == workspace;
    text::text_order_is_irreflexive(workspace);
    if chosen < place {
        assert(text::text_before(entries[chosen].workspace_uuid@, entries[place].workspace_uuid@));
    } else if place < chosen {
        assert(text::text_before(entries[place].workspace_uuid@, entries[chosen].workspace_uuid@));
    }
}

/// No workspace is mentioned by two entries of sorted entries.
proof fn entries_are_distinct(entries: Seq<WorkspaceRegistryEntryV1>, first: int, second: int)
    requires
        strictly_sorted(entries),
        0 <= first < entries.len(),
        0 <= second < entries.len(),
        entries[first].workspace_uuid@ == entries[second].workspace_uuid@,
    ensures
        first == second,
{
    text::text_order_is_irreflexive(entries[first].workspace_uuid@);
    if first < second {
        assert(text::text_before(entries[first].workspace_uuid@, entries[second].workspace_uuid@));
    } else if second < first {
        assert(text::text_before(entries[second].workspace_uuid@, entries[first].workspace_uuid@));
    }
}

/// Two sorted documents that say the same have the same entries in the same order.
#[verifier::spinoff_prover]
pub proof fn a_registry_has_one_document(
    left: Seq<WorkspaceRegistryEntryV1>,
    right: Seq<WorkspaceRegistryEntryV1>,
)
    requires
        strictly_sorted(left),
        strictly_sorted(right),
        registered(left) == registered(right),
    ensures
        left.len() == right.len(),
        forall|i: int|
            0 <= i < left.len() ==> #[trigger] left[i].workspace_uuid@ == right[i].workspace_uuid@
                && observation(left[i]) == observation(right[i]),
    decreases left.len(),
{
    if left.len() == 0 {
        if right.len() > 0 {
            an_entry_is_registered(right, 0);
            assert(mentions(left, right[0].workspace_uuid@));
        }
    } else {
        an_entry_is_registered(left, left.len() - 1);
        assert(mentions(right, left.last().workspace_uuid@));
        assert(right.len() > 0);
        an_entry_is_registered(right, right.len() - 1);
        assert(mentions(left, right.last().workspace_uuid@));
        let in_right = choose|i: int|
            0 <= i < right.len() && #[trigger] right[i].workspace_uuid@
                == left.last().workspace_uuid@;
        let in_left = choose|i: int|
            0 <= i < left.len() && #[trigger] left[i].workspace_uuid@
                == right.last().workspace_uuid@;
        if left.last().workspace_uuid@ != right.last().workspace_uuid@ {
            assert(text::text_before(left[in_left].workspace_uuid@, left.last().workspace_uuid@));
            assert(text::text_before(
                right[in_right].workspace_uuid@,
                right.last().workspace_uuid@,
            ));
            text::text_order_is_transitive(
                left.last().workspace_uuid@,
                right.last().workspace_uuid@,
                left.last().workspace_uuid@,
            );
            text::text_order_is_irreflexive(left.last().workspace_uuid@);
        }
        let shorter_left = left.drop_last();
        let shorter_right = right.drop_last();
        assert(registered(shorter_left) =~= registered(shorter_right)) by {
            removing_the_last_entry_forgets_it(left);
            removing_the_last_entry_forgets_it(right);
        }
        a_registry_has_one_document(shorter_left, shorter_right);
        assert forall|i: int| 0 <= i < left.len() implies #[trigger] left[i].workspace_uuid@
            == right[i].workspace_uuid@ && observation(left[i]) == observation(right[i]) by {
            if i < left.len() - 1 {
                assert(shorter_left[i].workspace_uuid@ == shorter_right[i].workspace_uuid@);
                assert(shorter_left[i] == left[i]);
                assert(shorter_right[i] == right[i]);
            } else {
                assert(left[i] == left.last());
                assert(right[i] == right.last());
            }
        }
    }
}

/// Without its last entry a document says the same of every other workspace, and nothing of that
/// entry's.
proof fn removing_the_last_entry_forgets_it(entries: Seq<WorkspaceRegistryEntryV1>)
    requires
        strictly_sorted(entries),
        entries.len() > 0,
    ensures
        registered(entries.drop_last()) == registered(entries).remove(
            entries.last().workspace_uuid@,
        ),
{
    removing_an_entry_forgets_it(entries, entries.len() - 1);
    assert(entries.remove(entries.len() - 1) =~= entries.drop_last());
}

/// Without one of its entries a document is still sorted, says the same of every other workspace,
/// and nothing of that entry's.
proof fn removing_an_entry_forgets_it(entries: Seq<WorkspaceRegistryEntryV1>, place: int)
    requires
        strictly_sorted(entries),
        0 <= place < entries.len(),
    ensures
        strictly_sorted(entries.remove(place)),
        roots_fit(entries) ==> roots_fit(entries.remove(place)),
        registered(entries.remove(place)) == registered(entries).remove(
            entries[place].workspace_uuid@,
        ),
{
    let rest = entries.remove(place);
    assert forall|i: int, j: int| 0 <= i < j < rest.len() implies text::text_before(
        #[trigger] rest[i].workspace_uuid@,
        #[trigger] rest[j].workspace_uuid@,
    ) by {
        let at_i = if i < place { i } else { i + 1 };
        let at_j = if j < place { j } else { j + 1 };
        assert(rest[i] == entries[at_i] && rest[j] == entries[at_j]);
        assert(text::text_before(entries[at_i].workspace_uuid@, entries[at_j].workspace_uuid@));
    }
    let forgotten = entries[place].workspace_uuid@;
    assert forall|workspace: Seq<char>|
        mentions(rest, workspace) == (mentions(entries, workspace) && workspace != forgotten) by {
        if mentions(rest, workspace) {
            let i = choose|i: int|
                0 <= i < rest.len() && #[trigger] rest[i].workspace_uuid@ == workspace;
            let at_i = if i < place { i } else { i + 1 };
            assert(entries[at_i].workspace_uuid@ == workspace);
            if workspace == forgotten {
                entries_are_distinct(entries, at_i, place);
            }
        }
        if mentions(entries, workspace) && workspace != forgotten {
            let i = choose|i: int|
                0 <= i < entries.len() && #[trigger] entries[i].workspace_uuid@ == workspace;
            let in_rest = if i < place { i } else { i - 1 };
            assert(rest[in_rest].workspace_uuid@ == workspace);
        }
    }
    assert forall|workspace: Seq<char>| mentions(rest, workspace) implies #[trigger] registered(
        rest,
    )[workspace] == registered(entries)[workspace] by {
        let i = choose|i: int|
            0 <= i < rest.len() && #[trigger] rest[i].workspace_uuid@ == workspace;
        let at_i = if i < place { i } else { i + 1 };
        assert(rest[i] == entries[at_i]);
        an_entry_is_registered(rest, i);
        an_entry_is_registered(entries, at_i);
    }
    assert(registered(rest) =~= registered(entries).remove(forgotten));
    if roots_fit(entries) {
        assert forall|i: int| 0 <= i < rest.len() implies root_fits(
            #[trigger] rest[i].last_known_root@,
        ) by {
            let at_i = if i < place { i } else { i + 1 };
            assert(rest[i] == entries[at_i]);
            assert(root_fits(entries[at_i].last_known_root@));
        }
    }
}

/// With one more entry at the place where its workspace belongs, a document is still sorted and
/// says the same of every other workspace.
proof fn inserting_an_entry_registers_it(
    entries: Seq<WorkspaceRegistryEntryV1>,
    place: int,
    entry: WorkspaceRegistryEntryV1,
)
    requires
        strictly_sorted(entries),
        0 <= place <= entries.len(),
        forall|i: int|
            0 <= i < place ==> text::text_before(
                #[trigger] entries[i].workspace_uuid@,
                entry.workspace_uuid@,
            ),
        forall|i: int|
            place <= i < entries.len() ==> text::text_before(
                entry.workspace_uuid@,
                #[trigger] entries[i].workspace_uuid@,
            ),
    ensures
        strictly_sorted(entries.insert(place, entry)),
        roots_fit(entries) && root_fits(entry.last_known_root@) ==> roots_fit(
            entries.insert(place, entry),
        ),
        registered(entries.insert(place, entry)) == registered(entries).insert(
            entry.workspace_uuid@,
            observation(entry),
        ),
{
    let more = entries.insert(place, entry);
    assert forall|i: int, j: int| 0 <= i < j < more.len() implies text::text_before(
        #[trigger] more[i].workspace_uuid@,
        #[trigger] more[j].workspace_uuid@,
    ) by {
        let from_i = if i < place { i } else { i - 1 };
        let from_j = if j < place { j } else { j - 1 };
        if i != place && j != place {
            assert(more[i] == entries[from_i] && more[j] == entries[from_j]);
            assert(text::text_before(
                entries[from_i].workspace_uuid@,
                entries[from_j].workspace_uuid@,
            ));
        } else if i == place {
            assert(more[j] == entries[from_j]);
        } else {
            assert(more[i] == entries[from_i]);
        }
    }
    assert(more.remove(place) =~= entries);
    removing_an_entry_forgets_it(more, place);
    an_entry_is_registered(more, place);
    assert(!mentions(entries, entry.workspace_uuid@)) by {
        if mentions(entries, entry.workspace_uuid@) {
            let i = choose|i: int|
                0 <= i < entries.len() && #[trigger] entries[i].workspace_uuid@
                    == entry.workspace_uuid@;
            text::text_order_is_irreflexive(entry.workspace_uuid@);
        }
    }
    assert(registered(more) =~= registered(entries).insert(
        entry.workspace_uuid@,
        observation(entry),
    ));
    if roots_fit(entries) && root_fits(entry.last_known_root@) {
        assert forall|i: int| 0 <= i < more.len() implies root_fits(
            #[trigger] more[i].last_known_root@,
        ) by {
            if i != place {
                let from_i = if i < place { i } else { i - 1 };
                assert(more[i] == entries[from_i]);
                assert(root_fits(entries[from_i].last_known_root@));
            }
        }
    }
}

/// With another observation in one of its entries, a document is still sorted and says the same of
/// every other workspace.
proof fn updating_an_entry_registers_it(
    entries: Seq<WorkspaceRegistryEntryV1>,
    place: int,
    entry: WorkspaceRegistryEntryV1,
)
    requires
        strictly_sorted(entries),
        0 <= place < entries.len(),
        entry.workspace_uuid@ == entries[place].workspace_uuid@,
    ensures
        strictly_sorted(entries.update(place, entry)),
        roots_fit(entries) && root_fits(entry.last_known_root@) ==> roots_fit(
            entries.update(place, entry),
        ),
        registered(entries.update(place, entry)) == registered(entries).insert(
            entry.workspace_uuid@,
            observation(entry),
        ),
{
    let updated = entries.update(place, entry);
    assert forall|i: int, j: int| 0 <= i < j < updated.len() implies text::text_before(
        #[trigger] updated[i].workspace_uuid@,
        #[trigger] updated[j].workspace_uuid@,
    ) by {
        assert(text::text_before(entries[i].workspace_uuid@, entries[j].workspace_uuid@));
    }
    assert(updated.remove(place) =~= entries.remove(place));
    removing_an_entry_forgets_it(updated, place);
    removing_an_entry_forgets_it(entries, place);
    an_entry_is_registered(updated, place);
    an_entry_is_registered(entries, place);
    assert(registered(updated) =~= registered(entries).insert(
        entry.workspace_uuid@,
        observation(entry),
    )) by {
        assert forall|workspace: Seq<char>| workspace != entry.workspace_uuid@ implies (registered(
            updated,
        ).dom().contains(workspace) == registered(entries).dom().contains(workspace)) by {
            assert(registered(updated).remove(entry.workspace_uuid@).dom().contains(workspace)
                == registered(entries).remove(entry.workspace_uuid@).dom().contains(workspace));
        }
        assert forall|workspace: Seq<char>|
            workspace != entry.workspace_uuid@ && registered(entries).dom().contains(
                workspace,
            ) implies #[trigger] registered(updated)[workspace] == registered(
            entries,
        )[workspace] by {
            assert(registered(updated).remove(entry.workspace_uuid@)[workspace] == registered(
                entries,
            ).remove(entry.workspace_uuid@)[workspace]);
        }
    }
    if roots_fit(entries) && root_fits(entry.last_known_root@) {
        assert forall|i: int| 0 <= i < updated.len() implies root_fits(
            #[trigger] updated[i].last_known_root@,
        ) by {
            assert(root_fits(entries[i].last_known_root@));
        }
    }
}

/// Whether the root text of an entry is too long, and no earlier entry's is.
pub open spec fn is_first_long_root(entries: Seq<WorkspaceRegistryEntryV1>, place: int) -> bool {
    0 <= place < entries.len() && !root_fits(entries[place].last_known_root@) && forall|i: int|
        0 <= i < place ==> root_fits(#[trigger] entries[i].last_known_root@)
}

impl WorkspaceRegistryEntryV1 {
    /// An observation of a workspace at a root, if the root text is short enough.
    pub fn new(workspace_uuid: String, last_known_root: String, last_seen_at: String) -> (entry:
        Result<Self, WorkspaceRegistryValidationErrorV1>)
        ensures
            entry == if root_fits(last_known_root@) {
                Ok(WorkspaceRegistryEntryV1 { workspace_uuid, last_known_root, last_seen_at })
            } else {
                Err(
                    WorkspaceRegistryValidationErrorV1::WorkspaceRootTooLong {
                        maximum: MAX_WORKSPACE_ROOT_TEXT_BYTES_V1,
                        actual: byte_length(last_known_root@) as usize,
                    },
                )
            },
    {
        let length: usize = root_length(&last_known_root);
        if length > MAX_WORKSPACE_ROOT_TEXT_BYTES_V1 {
            return Err(
                WorkspaceRegistryValidationErrorV1::WorkspaceRootTooLong {
                    maximum: MAX_WORKSPACE_ROOT_TEXT_BYTES_V1,
                    actual: length,
                },
            );
        }
        Ok(WorkspaceRegistryEntryV1 { workspace_uuid, last_known_root, last_seen_at })
    }

    /// The workspace that was observed.
    pub fn workspace_uuid(&self) -> (uuid: &String)
        ensures
            *uuid == self.workspace_uuid,
    {
        &self.workspace_uuid
    }

    /// The root that the workspace was observed at.
    pub fn last_known_root(&self) -> (root: &String)
        ensures
            *root == self.last_known_root,
    {
        &self.last_known_root
    }

    /// When the workspace was observed.
    pub fn last_seen_at(&self) -> (seen: &String)
        ensures
            *seen == self.last_seen_at,
    {
        &self.last_seen_at
    }

    /// The same observation once more.
    pub fn copy(&self) -> (entry: Self)
        ensures
            entry == *self,
    {
        WorkspaceRegistryEntryV1 {
            workspace_uuid: self.workspace_uuid.clone(),
            last_known_root: self.last_known_root.clone(),
            last_seen_at: self.last_seen_at.clone(),
        }
    }
}

/// The number of bytes of a root text.
fn root_length(root: &String) -> (length: usize)
    ensures
        length == byte_length(root@) as usize,
        (length <= MAX_WORKSPACE_ROOT_TEXT_BYTES_V1) == root_fits(root@),
{
    let bytes = root.as_str().as_bytes();
    bytes.len()
}

impl View for WorkspaceRegistryV1 {
    type V = Seq<WorkspaceRegistryEntryV1>;

    closed spec fn view(&self) -> Seq<WorkspaceRegistryEntryV1> {
        self.workspaces@
    }
}

impl WorkspaceRegistryV1 {
    /// The invariant of a registry.
    pub open spec fn wf(self) -> bool {
        self@.len() <= MAX_WORKSPACE_REGISTRY_ENTRIES_V1 && roots_fit(self@) && strictly_sorted(
            self@,
        )
    }

    /// What the registry says of each workspace that it mentions.
    pub open spec fn says(self) -> Map<Seq<char>, (Seq<char>, Seq<char>)> {
        registered(self@)
    }

    /// The registry that mentions no workspace.
    pub fn empty() -> (registry: Self)
        ensures
            registry.wf(),
            registry@ == Seq::<WorkspaceRegistryEntryV1>::empty(),
    {
        WorkspaceRegistryV1 { workspaces: Vec::new() }
    }

    /// The registry of the given entries, if they are few enough, their roots short enough, and
    /// they are strictly sorted by workspace. The first of these that fails is the error.
    pub fn new(workspaces: Vec<WorkspaceRegistryEntryV1>) -> (registry: Result<
        Self,
        WorkspaceRegistryValidationErrorV1,
    >)
        ensures
            registry is Ok <==> workspaces@.len() <= MAX_WORKSPACE_REGISTRY_ENTRIES_V1
                && roots_fit(workspaces@) && strictly_sorted(workspaces@),
            match registry {
                Ok(registry) => registry.wf() && registry@ == workspaces@,
                Err(WorkspaceRegistryValidationErrorV1::TooManyWorkspaces { maximum, actual }) =>
                    workspaces@.len() > MAX_WORKSPACE_REGISTRY_ENTRIES_V1 && maximum
                        == MAX_WORKSPACE_REGISTRY_ENTRIES_V1 && actual == workspaces@.len(),
                Err(WorkspaceRegistryValidationErrorV1::WorkspaceRootTooLong { maximum, actual }) =>
                    workspaces@.len() <= MAX_WORKSPACE_REGISTRY_ENTRIES_V1 && maximum
                        == MAX_WORKSPACE_ROOT_TEXT_BYTES_V1 && exists|place: int|
                        #[trigger] is_first_long_root(workspaces@, place) && actual
                            == byte_length(workspaces@[place].last_known_root@) as usize,
                Err(WorkspaceRegistryValidationErrorV1::WorkspacesNotStrictlySorted) =>
                    workspaces@.len() <= MAX_WORKSPACE_REGISTRY_ENTRIES_V1 && roots_fit(workspaces@)
                        && !strictly_sorted(workspaces@),
            },
    {
        if workspaces.len() > MAX_WORKSPACE_REGISTRY_ENTRIES_V1 {
            return Err(
                WorkspaceRegistryValidationErrorV1::TooManyWorkspaces {
                    maximum: MAX_WORKSPACE_REGISTRY_ENTRIES_V1,
                    actual: workspaces.len(),
                },
            );
        }
        let mut place: usize = 0;
        while place < workspaces.len()
            invariant
                place <= workspaces@.len(),
                workspaces@.len() <= MAX_WORKSPACE_REGISTRY_ENTRIES_V1,
                forall|i: int|
                    0 <= i < place ==> root_fits(#[trigger] workspaces@[i].last_known_root@),
            decreases workspaces@.len() - place,
        {
            let length: usize = root_length(&workspaces[place].last_known_root);
            if length > MAX_WORKSPACE_ROOT_TEXT_BYTES_V1 {
                assert(is_first_long_root(workspaces@, place as int));
                return Err(
                    WorkspaceRegistryValidationErrorV1::WorkspaceRootTooLong {
                        maximum: MAX_WORKSPACE_ROOT_TEXT_BYTES_V1,
                        actual: length,
                    },
                );
            }
            place = place + 1;
        }
        let mut next: usize = 1;
        while next < workspaces.len()
            invariant
                1 <= next,
                next <= workspaces@.len() || (next == 1 && workspaces@.len() == 0),
                workspaces@.len() <= MAX_WORKSPACE_REGISTRY_ENTRIES_V1,
                roots_fit(workspaces@),
                forall|i: int, j: int|
                    0 <= i < j < next && j < workspaces@.len() ==> text::text_before(
                        #[trigger] workspaces@[i].workspace_uuid@,
                        #[trigger] workspaces@[j].workspace_uuid@,
                    ),
            decreases workspaces@.len() - next,
        {
            let before: bool = text::text_is_before(
                &workspaces[next - 1].workspace_uuid,
                &workspaces[next].workspace_uuid,
            );
            if !before {
                assert(!text::text_before(
                    workspaces@[next - 1].workspace_uuid@,
                    workspaces@[next as int].workspace_uuid@,
                ));
                return Err(WorkspaceRegistryValidationErrorV1::WorkspacesNotStrictlySorted);
            }
            proof {
                assert forall|i: int| 0 <= i < next implies text::text_before(
                    #[trigger] workspaces@[i].workspace_uuid@,
                    workspaces@[next as int].workspace_uuid@,
                ) by {
                    if i < next - 1 {
                        text::text_order_is_transitive(
                            workspaces@[i].workspace_uuid@,
                            workspaces@[next - 1].workspace_uuid@,
                            workspaces@[next as int].workspace_uuid@,
                        );
                    }
                }
            }
            next = next + 1;
        }
        Ok(WorkspaceRegistryV1 { workspaces })
    }

    /// The entries, in order.
    pub fn workspaces(&self) -> (entries: &[WorkspaceRegistryEntryV1])
        ensures
            entries@ == self@,
    {
        self.workspaces.as_slice()
    }

    /// Where the entry of a workspace is, or where it would have to be.
    fn search(&self, workspace_uuid: &str) -> (place: Result<usize, usize>)
        requires
            self.wf(),
        ensures
            match place {
                Ok(place) => place < self@.len() && self@[place as int].workspace_uuid@
                    == workspace_uuid@,
                Err(place) => place <= self@.len() && !mentions(self@, workspace_uuid@)
                    && (forall|i: int|
                    0 <= i < place ==> text::text_before(
                        #[trigger] self@[i].workspace_uuid@,
                        workspace_uuid@,
                    )) && (forall|i: int|
                    place <= i < self@.len() ==> text::text_before(
                        workspace_uuid@,
                        #[trigger] self@[i].workspace_uuid@,
                    )),
            },
    {
        let mut low: usize = 0;
        let mut high: usize = self.workspaces.len();
        while low < high
            invariant
                self.wf(),
                low <= high <= self@.len(),
                forall|i: int|
                    0 <= i < low ==> text::text_before(
                        #[trigger] self@[i].workspace_uuid@,
                        workspace_uuid@,
                    ),
                forall|i: int|
                    high <= i < self@.len() ==> text::text_before(
                        workspace_uuid@,
                        #[trigger] self@[i].workspace_uuid@,
                    ),
            decreases high - low,
        {
            let middle: usize = low + (high - low) / 2;
            let found = &self.workspaces[middle].workspace_uuid;
            assert(self@[middle as int].workspace_uuid@ == found@);
            if text::text_is_before(found, workspace_uuid) {
                proof {
                    assert forall|i: int| 0 <= i <= middle implies text::text_before(
                        #[trigger] self@[i].workspace_uuid@,
                        workspace_uuid@,
                    ) by {
                        if i < middle {
                            text::text_order_is_transitive(
                                self@[i].workspace_uuid@,
                                self@[middle as int].workspace_uuid@,
                                workspace_uuid@,
                            );
                        }
                    }
                }
                low = middle + 1;
            } else if text::text_is_before(workspace_uuid, found) {
                proof {
                    assert forall|i: int| middle <= i < self@.len() implies text::text_before(
                        workspace_uuid@,
                        #[trigger] self@[i].workspace_uuid@,
                    ) by {
                        if middle < i {
                            text::text_order_is_transitive(
                                workspace_uuid@,
                                self@[middle as int].workspace_uuid@,
                                self@[i].workspace_uuid@,
                            );
                        }
                    }
                }
                high = middle;
            } else {
                proof {
                    text::text_order_is_total(found@, workspace_uuid@);
                }
                return Ok(middle);
            }
        }
        proof {
            text::text_order_is_irreflexive(workspace_uuid@);
        }
        Err(low)
    }

    /// The entry of a workspace, if the registry mentions it.
    pub fn lookup(&self, workspace_uuid: &str) -> (entry: Option<&WorkspaceRegistryEntryV1>)
        requires
            self.wf(),
        ensures
            match entry {
                Some(entry) => self@.contains(*entry) && entry.workspace_uuid@ == workspace_uuid@
                    && self.says().dom().contains(workspace_uuid@) && observation(*entry)
                    == self.says()[workspace_uuid@],
                None => !self.says().dom().contains(workspace_uuid@),
            },
    {
        match self.search(workspace_uuid) {
            Ok(place) => {
                proof {
                    an_entry_is_registered(self@, place as int);
                }
                Some(&self.workspaces[place])
            },
            Err(_) => None,
        }
    }

    /// Adds a new observation, or refreshes the time of a workspace seen at the same root again. A
    /// workspace that is registered at another root is refused, as is a new workspace where the
    /// registry is full; then the registry stays as it is.
    pub fn insert_or_refresh(
        &mut self,
        workspace_uuid: String,
        last_known_root: String,
        last_seen_at: String,
    ) -> (result: Result<WorkspaceRegistryEntryV1, RegistryErrorV1>)
        requires
            old(self).wf(),
        ensures
            final(self).wf(),
            result is Ok <==> root_fits(last_known_root@) && (if old(self).says().dom().contains(
                workspace_uuid@,
            ) {
                old(self).says()[workspace_uuid@].0 == last_known_root@
            } else {
                old(self)@.len() < MAX_WORKSPACE_REGISTRY_ENTRIES_V1
            }),
            result matches Ok(entry) ==> entry == (WorkspaceRegistryEntryV1 {
                workspace_uuid,
                last_known_root,
                last_seen_at,
            }) && final(self).says() == old(self).says().insert(
                workspace_uuid@,
                (last_known_root@, last_seen_at@),
            ),
            result matches Err(error) ==> *final(self) == *old(self) && (if !root_fits(
                last_known_root@,
            ) {
                error == RegistryErrorV1::RegistryValidation(
                    WorkspaceRegistryValidationErrorV1::WorkspaceRootTooLong {
                        maximum: MAX_WORKSPACE_ROOT_TEXT_BYTES_V1,
                        actual: byte_length(last_known_root@) as usize,
                    },
                )
            } else if old(self).says().dom().contains(workspace_uuid@) {
                is_root_conflict(
                    error,
                    workspace_uuid@,
                    old(self).says()[workspace_uuid@].0,
                    last_known_root@,
                )
            } else {
                error == RegistryErrorV1::RegistryValidation(
                    WorkspaceRegistryValidationErrorV1::TooManyWorkspaces {
                        maximum: MAX_WORKSPACE_REGISTRY_ENTRIES_V1,
                        actual: (MAX_WORKSPACE_REGISTRY_ENTRIES_V1 + 1) as usize,
                    },
                )
            }),
    {
        let entry = match WorkspaceRegistryEntryV1::new(
            workspace_uuid,
            last_known_root,
            last_seen_at,
        ) {
            Ok(entry) => entry,
            Err(error) => {
                return Err(RegistryErrorV1::RegistryValidation(error));
            },
        };
        match self.search(&entry.workspace_uuid) {
            Ok(place) => {
                proof {
                    an_entry_is_registered(self@, place as int);
                    updating_an_entry_registers_it(self@, place as int, entry);
                }
                if self.workspaces[place].last_known_root != entry.last_known_root {
                    return Err(
                        RegistryErrorV1::WorkspaceRootConflict {
                            workspace_uuid: entry.workspace_uuid,
                            registered_root: self.workspaces[place].last_known_root.clone(),
                            supplied_root: entry.last_known_root,
                        },
                    );
                }
                self.workspaces.set(place, entry.copy());
            },
            Err(place) => {
                if self.workspaces.len() == MAX_WORKSPACE_REGISTRY_ENTRIES_V1 {
                    return Err(
                        RegistryErrorV1::RegistryValidation(
                            WorkspaceRegistryValidationErrorV1::TooManyWorkspaces {
                                maximum: MAX_WORKSPACE_REGISTRY_ENTRIES_V1,
                                actual: self.workspaces.len() + 1,
                            },
                        ),
                    );
                }
                proof {
                    inserting_an_entry_registers_it(self@, place as int, entry);
                }
                self.workspaces.insert(place, entry.copy());
            },
        }
        Ok(entry)
    }

    /// Moves a workspace to another root, only where it is registered at exactly the given
    /// previous root. Otherwise the registry stays as it is.
    pub fn move_workspace(
        &mut self,
        workspace_uuid: &String,
        previous_root: &String,
        new_root: String,
        last_seen_at: String,
    ) -> (result: Result<WorkspaceRegistryEntryV1, RegistryErrorV1>)
        requires
            old(self).wf(),
        ensures
            final(self).wf(),
            result is Ok <==> root_fits(new_root@) && old(self).says().dom().contains(
                workspace_uuid@,
            ) && old(self).says()[workspace_uuid@].0 == previous_root@,
            result matches Ok(entry) ==> entry == (WorkspaceRegistryEntryV1 {
                workspace_uuid: *workspace_uuid,
                last_known_root: new_root,
                last_seen_at,
            }) && final(self).says() == old(self).says().insert(
                workspace_uuid@,
                (new_root@, last_seen_at@),
            ),
            result matches Err(error) ==> *final(self) == *old(self) && (if !root_fits(new_root@) {
                error == RegistryErrorV1::RegistryValidation(
                    WorkspaceRegistryValidationErrorV1::WorkspaceRootTooLong {
                        maximum: MAX_WORKSPACE_ROOT_TEXT_BYTES_V1,
                        actual: byte_length(new_root@) as usize,
                    },
                )
            } else if !old(self).says().dom().contains(workspace_uuid@) {
                is_not_registered(error, workspace_uuid@)
            } else {
                is_root_conflict(
                    error,
                    workspace_uuid@,
                    old(self).says()[workspace_uuid@].0,
                    previous_root@,
                )
            }),
    {
        let updated = match WorkspaceRegistryEntryV1::new(
            workspace_uuid.clone(),
            new_root,
            last_seen_at,
        ) {
            Ok(entry) => entry,
            Err(error) => {
                return Err(RegistryErrorV1::RegistryValidation(error));
            },
        };
        match self.search(workspace_uuid) {
            Ok(place) => {
                proof {
                    an_entry_is_registered(self@, place as int);
                    updating_an_entry_registers_it(self@, place as int, updated);
                }
                if self.workspaces[place].last_known_root != *previous_root {
                    return Err(
                        RegistryErrorV1::WorkspaceRootConflict {
                            workspace_uuid: workspace_uuid.clone(),
                            registered_root: self.workspaces[place].last_known_root.clone(),
                            supplied_root: previous_root.clone(),
                        },
                    );
                }
                self.workspaces.set(place, updated.copy());
                Ok(updated)
            },
            Err(_) => Err(
                RegistryErrorV1::WorkspaceNotRegistered { workspace_uuid: workspace_uuid.clone() },
            ),
        }
    }

    /// Removes the entry of a workspace, and returns it if there was one.
    pub fn remove(&mut self, workspace_uuid: &str) -> (removed: Option<WorkspaceRegistryEntryV1>)
        requires
            old(self).wf(),
        ensures
            final(self).wf(),
            final(self).says() == old(self).says().remove(workspace_uuid@),
            match removed {
                Some(entry) => old(self)@.contains(entry) && entry.workspace_uuid@
                    == workspace_uuid@,
                None => !old(self).says().dom().contains(workspace_uuid@)
                    && *final(self) == *old(self),
            },
    {
        match self.search(workspace_uuid) {
            Ok(place) => {
                proof {
                    removing_an_entry_forgets_it(self@, place as int);
                }
                assert(self@.contains(self@[place as int]));
                Some(self.workspaces.remove(place))
            },
            Err(_) => {
                assert(self.says().remove(workspace_uuid@) =~= self.says());
                None
            },
        }
    }

    /// An entry at the given root of a workspace that is neither of the two given ones.
    fn foreign_occupant(
        &self,
        root: &String,
        previous_uuid: &String,
        target_uuid: &String,
    ) -> (place: Option<usize>)
        requires
            self.wf(),
        ensures
            match place {
                Some(place) => place < self@.len() && self@[place as int].last_known_root@ == root@
                    && root_is_taken(self.says(), root@, previous_uuid@, target_uuid@),
                None => !root_is_taken(self.says(), root@, previous_uuid@, target_uuid@),
            },
    {
        let mut place: usize = 0;
        while place < self.workspaces.len()
            invariant
                self.wf(),
                place <= self@.len(),
                forall|i: int|
                    0 <= i < place ==> !((#[trigger] self@[i]).last_known_root@ == root@
                        && self@[i].workspace_uuid@ != previous_uuid@ && self@[i].workspace_uuid@
                        != target_uuid@),
            decreases self@.len() - place,
        {
            let entry = &self.workspaces[place];
            if entry.last_known_root == *root && entry.workspace_uuid != *previous_uuid
                && entry.workspace_uuid != *target_uuid {
                proof {
                    an_entry_is_registered(self@, place as int);
                    assert(is_taken_by(
                        self.says(),
                        root@,
                        previous_uuid@,
                        target_uuid@,
                        self@[place as int].workspace_uuid@,
                    ));
                }
                return Some(place);
            }
            place = place + 1;
        }
        proof {
            if root_is_taken(self.says(), root@, previous_uuid@, target_uuid@) {
                let workspace = choose|workspace: Seq<char>|
                    is_taken_by(self.says(), root@, previous_uuid@, target_uuid@, workspace);
                assert(mentions(self@, workspace));
                let i = choose|i: int|
                    0 <= i < self@.len() && #[trigger] self@[i].workspace_uuid@ == workspace;
                an_entry_is_registered(self@, i);
            }
        }
        None
    }

    /// Replaces the workspace that was reset by its successor at the same root, in one step. A
    /// registry that already holds the successor at that root only has its time refreshed, and
    /// loses the predecessor if it still holds it.
    pub fn replace_for_reset(
        &mut self,
        previous_uuid: &String,
        target_uuid: String,
        exact_root: String,
        seen_at: String,
    ) -> (result: Result<WorkspaceRegistryEntryV1, RegistryErrorV1>)
        requires
            old(self).wf(),
        ensures
            final(self).wf(),
            result is Ok <==> reset_refusal(
                old(self).says(),
                previous_uuid@,
                target_uuid@,
                exact_root@,
            ) is None,
            result matches Ok(entry) ==> entry.workspace_uuid@ == target_uuid@ && observation(entry)
                == (exact_root@, seen_at@) && final(self).says() == old(self).says().remove(
                previous_uuid@,
            ).insert(target_uuid@, (exact_root@, seen_at@)),
            result matches Err(error) ==> *final(self) == *old(self) && match reset_refusal(
                old(self).says(),
                previous_uuid@,
                target_uuid@,
                exact_root@,
            ) {
                Some(ResetRefusal::RootTooLong) => error == RegistryErrorV1::RegistryValidation(
                    WorkspaceRegistryValidationErrorV1::WorkspaceRootTooLong {
                        maximum: MAX_WORKSPACE_ROOT_TEXT_BYTES_V1,
                        actual: byte_length(exact_root@) as usize,
                    },
                ),
                Some(ResetRefusal::Conflict { workspace, registered_root }) => is_root_conflict(
                    error,
                    workspace,
                    registered_root,
                    exact_root@,
                ),
                Some(ResetRefusal::NotRegistered) => is_not_registered(error, previous_uuid@),
                None => false,
            },
    {
        let target = match WorkspaceRegistryEntryV1::new(target_uuid, exact_root, seen_at) {
            Ok(entry) => entry,
            Err(error) => {
                return Err(RegistryErrorV1::RegistryValidation(error));
            },
        };
        if let Some(occupant) = self.foreign_occupant(
            &target.last_known_root,
            previous_uuid,
            &target.workspace_uuid,
        ) {
            return Err(
                RegistryErrorV1::WorkspaceRootConflict {
                    workspace_uuid: target.workspace_uuid,
                    registered_root: self.workspaces[occupant].last_known_root.clone(),
                    supplied_root: target.last_known_root,
                },
            );
        }
        let previous_place = self.search(previous_uuid);
        let target_place = self.search(&target.workspace_uuid);
        let ghost before = self.says();
        proof {
            if let Ok(place) = previous_place {
                an_entry_is_registered(self@, place as int);
            }
            if let Ok(place) = target_place {
                an_entry_is_registered(self@, place as int);
            }
        }
        if *previous_uuid == target.workspace_uuid {
            let place: usize = match previous_place {
                Ok(place) => place,
                Err(_) => {
                    return Err(
                        RegistryErrorV1::WorkspaceNotRegistered {
                            workspace_uuid: previous_uuid.clone(),
                        },
                    );
                },
            };
            if self.workspaces[place].last_known_root != target.last_known_root {
                return Err(
                    RegistryErrorV1::WorkspaceRootConflict {
                        workspace_uuid: previous_uuid.clone(),
                        registered_root: self.workspaces[place].last_known_root.clone(),
                        supplied_root: target.last_known_root,
                    },
                );
            }
            proof {
                updating_an_entry_registers_it(self@, place as int, target);
                assert(before.remove(previous_uuid@).insert(target.workspace_uuid@, observation(
                    target,
                )) =~= before.insert(target.workspace_uuid@, observation(target)));
            }
            self.workspaces.set(place, target.copy());
            return Ok(target);
        }
        if let Ok(place) = target_place {
            if self.workspaces[place].last_known_root != target.last_known_root {
                return Err(
                    RegistryErrorV1::WorkspaceRootConflict {
                        workspace_uuid: target.workspace_uuid,
                        registered_root: self.workspaces[place].last_known_root.clone(),
                        supplied_root: target.last_known_root,
                    },
                );
            }
            if let Ok(previous) = previous_place {
                if self.workspaces[previous].last_known_root != target.last_known_root {
                    return Err(
                        RegistryErrorV1::WorkspaceRootConflict {
                            workspace_uuid: previous_uuid.clone(),
                            registered_root: self.workspaces[previous].last_known_root.clone(),
                            supplied_root: target.last_known_root,
                        },
                    );
                }
                proof {
                    removing_an_entry_forgets_it(self@, previous as int);
                }
                let place_after: usize = if previous < place { place - 1 } else { place };
                assert(self@.remove(previous as int)[place_after as int] == self@[place as int]);
                self.workspaces.remove(previous);
                proof {
                    updating_an_entry_registers_it(self@, place_after as int, target);
                }
                self.workspaces.set(place_after, target.copy());
            } else {
                proof {
                    updating_an_entry_registers_it(self@, place as int, target);
                    assert(before.remove(previous_uuid@) =~= before);
                }
                self.workspaces.set(place, target.copy());
            }
            return Ok(target);
        }
        let previous: usize = match previous_place {
            Ok(place) => place,
            Err(_) => {
                return Err(
                    RegistryErrorV1::WorkspaceNotRegistered {
                        workspace_uuid: previous_uuid.clone(),
                    },
                );
            },
        };
        if self.workspaces[previous].last_known_root != target.last_known_root {
            return Err(
                RegistryErrorV1::WorkspaceRootConflict {
                    workspace_uuid: previous_uuid.clone(),
                    registered_root: self.workspaces[previous].last_known_root.clone(),
                    supplied_root: target.last_known_root,
                },
            );
        }
        proof {
            removing_an_entry_forgets_it(self@, previous as int);
        }
        self.workspaces.remove(previous);
        let place: usize = match self.search(&target.workspace_uuid) {
            Ok(place) => {
                proof {
                    an_entry_is_registered(self@, place as int);
                }
                place
            },
            Err(place) => place,
        };
        proof {
            inserting_an_entry_registers_it(self@, place as int, target);
        }
        self.workspaces.insert(place, target.copy());
        Ok(target)
    }
}

/// Whether an error reports that a workspace is registered at another root than the supplied one.
pub open spec fn is_root_conflict(
    error: RegistryErrorV1,
    workspace: Seq<char>,
    registered_root: Seq<char>,
    supplied_root: Seq<char>,
) -> bool {
    match error {
        RegistryErrorV1::WorkspaceRootConflict {
            workspace_uuid,
            registered_root: registered,
            supplied_root: supplied,
        } => workspace_uuid@ == workspace && registered@ == registered_root && supplied@
            == supplied_root,
        _ => false,
    }
}

/// Whether an error reports that a workspace is not registered.
pub open spec fn is_not_registered(error: RegistryErrorV1, workspace: Seq<char>) -> bool {
    match error {
        RegistryErrorV1::WorkspaceNotRegistered { workspace_uuid } => workspace_uuid@ == workspace,
        _ => false,
    }
}

/// Whether a workspace other than the two given ones is registered at a root.
pub open spec fn is_taken_by(
    says: Map<Seq<char>, (Seq<char>, Seq<char>)>,
    root: Seq<char>,
    previous: Seq<char>,
    target: Seq<char>,
    workspace: Seq<char>,
) -> bool {
    says.dom().contains(workspace) && says[workspace].0 == root && workspace != previous
        && workspace != target
}

/// Whether some workspace other than the two given ones is registered at a root.
pub open spec fn root_is_taken(
    says: Map<Seq<char>, (Seq<char>, Seq<char>)>,
    root: Seq<char>,
    previous: Seq<char>,
    target: Seq<char>,
) -> bool {
    exists|workspace: Seq<char>| is_taken_by(says, root, previous, target, workspace)
}

/// Why a reset workspace is not replaced by its successor.
pub enum ResetRefusal {
    RootTooLong,
    Conflict { workspace: Seq<char>, registered_root: Seq<char> },
    NotRegistered,
}

/// Why a reset workspace is not replaced by its successor at a root, if it is not: the root text is
/// too long, a third workspace is registered at the root, one of the two is registered elsewhere,
/// or neither is registered.
pub open spec fn reset_refusal(
    says: Map<Seq<char>, (Seq<char>, Seq<char>)>,
    previous: Seq<char>,
    target: Seq<char>,
    root: Seq<char>,
) -> Option<ResetRefusal> {
    if !root_fits(root) {
        Some(ResetRefusal::RootTooLong)
    } else if root_is_taken(says, root, previous, target) {
        Some(ResetRefusal::Conflict { workspace: target, registered_root: root })
    } else if says.dom().contains(target) && says[target].0 != root {
        Some(ResetRefusal::Conflict { workspace: target, registered_root: says[target].0 })
    } else if says.dom().contains(previous) && says[previous].0 != root {
        Some(ResetRefusal::Conflict { workspace: previous, registered_root: says[previous].0 })
    } else if !says.dom().contains(previous) && !says.dom().contains(target) {
        Some(ResetRefusal::NotRegistered)
    } else {
        None
    }
}

/// After a replacement the successor is the only workspace registered at its root.
pub proof fn a_reset_leaves_one_workspace_at_its_root(
    says: Map<Seq<char>, (Seq<char>, Seq<char>)>,
    previous: Seq<char>,
    target: Seq<char>,
    root: Seq<char>,
    seen: Seq<char>,
)
    requires
        reset_refusal(says, previous, target, root) is None,
    ensures
        ({
            let after = says.remove(previous).insert(target, (root, seen));
            forall|workspace: Seq<char>| #[trigger]
                after.dom().contains(workspace) ==> (after[workspace].0 == root <==> workspace
                    == target)
        }),
{
    let after = says.remove(previous).insert(target, (root, seen));
    assert forall|workspace: Seq<char>| #[trigger]
        after.dom().contains(workspace) && workspace != target implies after[workspace].0
        != root by {
        if after[workspace].0 == root {
            assert(is_taken_by(says, root, previous, target, workspace));
        }
    }
}

/// A replacement that is published once more is accepted, and changes nothing but the time.
pub proof fn a_repeated_replacement_only_refreshes(
    says: Map<Seq<char>, (Seq<char>, Seq<char>)>,
    previous: Seq<char>,
    target: Seq<char>,
    root: Seq<char>,
    seen: Seq<char>,
    seen_again: Seq<char>,
)
    requires
        reset_refusal(says, previous, target, root) is None,
        previous != target,
    ensures
        ({
            let after = says.remove(previous).insert(target, (root, seen));
            reset_refusal(after, previous, target, root) is None && after.remove(previous).insert(
                target,
                (root, seen_again),
            ) == after.insert(target, (root, seen_again))
        }),
{
    let after = says.remove(previous).insert(target, (root, seen));
    a_reset_leaves_one_workspace_at_its_root(says, previous, target, root, seen);
    assert(after.remove(previous).insert(target, (root, seen_again)) =~= after.insert(
        target,
        (root, seen_again),
    ));
    if root_is_taken(after, root, previous, target) {
        let workspace = choose|workspace: Seq<char>|
            is_taken_by(after, root, previous, target, workspace);
        assert(after.dom().contains(workspace));
    }
}

impl WorkspaceRegistryValidationErrorV1 {
    /// What the error is shown as.
    pub open spec fn shown(self) -> Seq<char> {
        match self {
            WorkspaceRegistryValidationErrorV1::TooManyWorkspaces { maximum, actual } => {
                "registry has "@ + text::decimal(actual as nat) + " workspaces, maximum is "@
                    + text::decimal(maximum as nat)
            },
            WorkspaceRegistryValidationErrorV1::WorkspaceRootTooLong { maximum, actual } => {
                "workspace root text is "@ + text::decimal(actual as nat) + " bytes, maximum is "@
                    + text::decimal(maximum as nat)
            },
            WorkspaceRegistryValidationErrorV1::WorkspacesNotStrictlySorted => {
                "registry workspaces are not strictly sorted by UUID"@
            },
        }
    }

    /// The text of the error.
    pub fn message(&self) -> (message: String)
        ensures
            message@ == self.shown(),
    {
        match self {
            WorkspaceRegistryValidationErrorV1::TooManyWorkspaces { maximum, actual } => {
                text::join_four(
                    "registry has ",
                    &text::decimal_text(*actual as u64),
                    " workspaces, maximum is ",
                    &text::decimal_text(*maximum as u64),
                )
            },
            WorkspaceRegistryValidationErrorV1::WorkspaceRootTooLong { maximum, actual } => {
                text::join_four(
                    "workspace root text is ",
                    &text::decimal_text(*actual as u64),
                    " bytes, maximum is ",
                    &text::decimal_text(*maximum as u64),
                )
            },
            WorkspaceRegistryValidationErrorV1::WorkspacesNotStrictlySorted => {
                "registry workspaces are not strictly sorted by UUID".to_owned()
            },
        }
    }
}

impl RegistryPathViolationV1 {
    /// What the violation is shown as.
    pub open spec fn shown(self) -> Seq<char> {
        match self {
            RegistryPathViolationV1::Symlink => "is a symlink"@,
            RegistryPathViolationV1::NotDirectory => "is not a directory"@,
            RegistryPathViolationV1::NotRegularFile => "is not a regular file"@,
            RegistryPathViolationV1::WrongOwner { expected_uid, actual_uid } => {
                "has owner UID "@ + text::decimal(actual_uid as nat) + ", expected current UID "@
                    + text::decimal(expected_uid as nat)
            },
            RegistryPathViolationV1::WrongMode { expected_mode, actual_mode } => {
                "has mode "@ + text::numeral(actual_mode as nat, 8) + ", expected "@
                    + text::numeral(expected_mode as nat, 8)
            },
        }
    }

    /// The text of the violation.
    pub fn message(&self) -> (message: String)
        ensures
            message@ == self.shown(),
    {
        match self {
            RegistryPathViolationV1::Symlink => "is a symlink".to_owned(),
            RegistryPathViolationV1::NotDirectory => "is not a directory".to_owned(),
            RegistryPathViolationV1::NotRegularFile => "is not a regular file".to_owned(),
            RegistryPathViolationV1::WrongOwner { expected_uid, actual_uid } => text::join_four(
                "has owner UID ",
                &text::decimal_text(*actual_uid as u64),
                ", expected current UID ",
                &text::decimal_text(*expected_uid as u64),
            ),
            RegistryPathViolationV1::WrongMode { expected_mode, actual_mode } => text::join_four(
                "has mode ",
                &text::numeral_text(*actual_mode as u64, 8),
                ", expected ",
                &text::numeral_text(*expected_mode as u64, 8),
            ),
        }
    }
}

impl RegistryDocumentViolationV1 {
    /// What the violation is shown as.
    pub open spec fn shown(self) -> &'static str {
        match self {
            RegistryDocumentViolationV1::InvalidJson => "is not valid JSON",
            RegistryDocumentViolationV1::NonCanonicalJson => "is not canonical JSON",
            RegistryDocumentViolationV1::InvalidShape => "does not match the strict registry shape",
            RegistryDocumentViolationV1::UnsupportedSchema => "has an unsupported schema",
            RegistryDocumentViolationV1::InvalidWorkspaceRoot => "has an invalid workspace root",
            RegistryDocumentViolationV1::InvalidTimestamp => "has an invalid timestamp",
            RegistryDocumentViolationV1::InvalidEntryOrder => {
                "has invalid workspace ordering or bounds"
            },
        }
    }

    /// The text of the violation.
    pub fn message(&self) -> (message: &'static str)
        ensures
            message == self.shown(),
    {
        match self {
            RegistryDocumentViolationV1::InvalidJson => "is not valid JSON",
            RegistryDocumentViolationV1::NonCanonicalJson => "is not canonical JSON",
            RegistryDocumentViolationV1::InvalidShape => "does not match the strict registry shape",
            RegistryDocumentViolationV1::UnsupportedSchema => "has an unsupported schema",
            RegistryDocumentViolationV1::InvalidWorkspaceRoot => "has an invalid workspace root",
            RegistryDocumentViolationV1::InvalidTimestamp => "has an invalid timestamp",
            RegistryDocumentViolationV1::InvalidEntryOrder => {
                "has invalid workspace ordering or bounds"
            },
        }
    }
}

impl RegistryErrorV1 {
    /// What the error is shown as.
    pub open spec fn shown(self) -> Seq<char> {
        match self {
            RegistryErrorV1::RegistryPathHasNoParent { path } => "registry path "@ + path@
                + " has no parent"@,
            RegistryErrorV1::UnsafeRegistryParent { path, violation } => "registry parent "@ + path@
                + " "@ + violation.shown(),
            RegistryErrorV1::UnsafeRegistryFile { path, violation } => "registry file "@ + path@
                + " "@ + violation.shown(),
            RegistryErrorV1::UnsafeRegistryLock { path, violation } => "registry lock "@ + path@
                + " "@ + violation.shown(),
            RegistryErrorV1::UnsafeRegistryTemporary { path, violation } => "registry temporary "@
                + path@ + " "@ + violation.shown(),
            RegistryErrorV1::Io { operation, path, source } => "cannot "@ + operation@ + " "@
                + path@ + ": "@ + source@,
            RegistryErrorV1::ParentCreate { path, source } => "cannot create registry parent "@
                + path@ + ": "@ + source@,
            RegistryErrorV1::RegistryOpen { path, source } => "cannot open registry "@ + path@
                + ": "@ + source@,
            RegistryErrorV1::LockOpen { path, source } => "cannot open registry lock "@ + path@
                + ": "@ + source@,
            RegistryErrorV1::LockAcquire { path, source } => "cannot lock registry "@ + path@
                + ": "@ + source@,
            RegistryErrorV1::LockRelease { path, source } => "cannot unlock registry "@ + path@
                + ": "@ + source@,
            RegistryErrorV1::RegistryTooLarge { path, maximum, actual } => "registry "@ + path@
                + " is "@ + text::decimal(actual as nat) + " bytes, maximum is "@ + text::decimal(
                maximum as nat,
            ),
            RegistryErrorV1::InvalidRegistryDocument { path, violation } => "registry "@ + path@
                + " "@ + violation.shown()@,
            RegistryErrorV1::RegistryValidation(error) => error.shown(),
            RegistryErrorV1::WorkspaceRootConflict {
                workspace_uuid,
                registered_root,
                supplied_root,
            } => "workspace "@ + workspace_uuid@ + " is registered at "@ + registered_root@
                + ", not "@ + supplied_root@,
            RegistryErrorV1::WorkspaceRootOccupied { occupied_root } => "workspace root "@
                + occupied_root@ + " is occupied by another workspace"@,
            RegistryErrorV1::WorkspaceNotRegistered { workspace_uuid } => "workspace "@
                + workspace_uuid@ + " is not registered"@,
            RegistryErrorV1::TemporaryNameExhausted { parent } =>
                "could not create a unique registry temporary in "@ + parent@,
            RegistryErrorV1::Failpoint { point: RegistryFailpointV1::BeforeRename } =>
                "registry failpoint BeforeRename triggered"@,
            RegistryErrorV1::Failpoint {
                point: RegistryFailpointV1::AfterRenameBeforeParentSync,
            } => "registry failpoint AfterRenameBeforeParentSync triggered"@,
            RegistryErrorV1::InProcessLockPoisoned => "registry in-process lock is poisoned"@,
        }
    }

    /// The text of the error.
    pub fn message(&self) -> (message: String)
        ensures
            message@ == self.shown(),
    {
        match self {
            RegistryErrorV1::RegistryPathHasNoParent { path } => text::join_three(
                "registry path ",
                path,
                " has no parent",
            ),
            RegistryErrorV1::UnsafeRegistryParent { path, violation } => text::join_four(
                "registry parent ",
                path,
                " ",
                &violation.message(),
            ),
            RegistryErrorV1::UnsafeRegistryFile { path, violation } => text::join_four(
                "registry file ",
                path,
                " ",
                &violation.message(),
            ),
            RegistryErrorV1::UnsafeRegistryLock { path, violation } => text::join_four(
                "registry lock ",
                path,
                " ",
                &violation.message(),
            ),
            RegistryErrorV1::UnsafeRegistryTemporary { path, violation } => text::join_four(
                "registry temporary ",
                path,
                " ",
                &violation.message(),
            ),
            RegistryErrorV1::Io { operation, path, source } => {
                let opening: String = text::join_five("cannot ", operation, " ", path, ": ");
                text::join_two(&opening, source)
            },
            RegistryErrorV1::ParentCreate { path, source } => text::join_four(
                "cannot create registry parent ",
                path,
                ": ",
                source,
            ),
            RegistryErrorV1::RegistryOpen { path, source } => text::join_four(
                "cannot open registry ",
                path,
                ": ",
                source,
            ),
            RegistryErrorV1::LockOpen { path, source } => text::join_four(
                "cannot open registry lock ",
                path,
                ": ",
                source,
            ),
            RegistryErrorV1::LockAcquire { path, source } => text::join_four(
                "cannot lock registry ",
                path,
                ": ",
                source,
            ),
            RegistryErrorV1::LockRelease { path, source } => text::join_four(
                "cannot unlock registry ",
                path,
                ": ",
                source,
            ),
            RegistryErrorV1::RegistryTooLarge { path, maximum, actual } => {
                let opening: String = text::join_five(
                    "registry ",
                    path,
                    " is ",
                    &text::decimal_text(*actual),
                    " bytes, maximum is ",
                );
                text::join_two(&opening, &text::decimal_text(*maximum))
            },
            RegistryErrorV1::InvalidRegistryDocument { path, violation } => text::join_four(
                "registry ",
                path,
                " ",
                violation.message(),
            ),
            RegistryErrorV1::RegistryValidation(error) => error.message(),
            RegistryErrorV1::WorkspaceRootConflict {
                workspace_uuid,
                registered_root,
                supplied_root,
            } => {
                let opening: String = text::join_five(
                    "workspace ",
                    workspace_uuid,
                    " is registered at ",
                    registered_root,
                    ", not ",
                );
                text::join_two(&opening, supplied_root)
            },
            RegistryErrorV1::WorkspaceRootOccupied { occupied_root } => text::join_three(
                "workspace root ",
                occupied_root,
                " is occupied by another workspace",
            ),
            RegistryErrorV1::WorkspaceNotRegistered { workspace_uuid } => text::join_three(
                "workspace ",
                workspace_uuid,
                " is not registered",
            ),
            RegistryErrorV1::TemporaryNameExhausted { parent } => text::join_two(
                "could not create a unique registry temporary in ",
                parent,
            ),
            RegistryErrorV1::Failpoint { point } => match point {
                RegistryFailpointV1::BeforeRename => {
                    "registry failpoint BeforeRename triggered".to_owned()
                },
                RegistryFailpointV1::AfterRenameBeforeParentSync => {
                    "registry failpoint AfterRenameBeforeParentSync triggered".to_owned()
                },
            },
            RegistryErrorV1::InProcessLockPoisoned => {
                "registry in-process lock is poisoned".to_owned()
            },
        }
    }
}

/// A reset workspace is replaced by its successor exactly if the root is short enough, no third workspace is
/// registered at it, neither of the two is registered elsewhere, and one of them is registered.
pub proof fn a_successor_takes_a_root_that_is_free(
    says: Map<Seq<char>, (Seq<char>, Seq<char>)>,
    previous: Seq<char>,
    target: Seq<char>,
    root: Seq<char>,
)
    ensures
        reset_refusal(says, previous, target, root) is None <==> {
            &&& vstd::utf8::encode_utf8(root).len() <= 4_096
            &&& says.dom().contains(previous) || says.dom().contains(target)
            &&& forall|workspace: Seq<char>| #[trigger]
                says.dom().contains(workspace) ==> (says[workspace].0 == root <==> workspace
                    == previous || workspace == target)
        },
        reset_refusal(says, previous, target, root) matches Some(refusal) ==> {
            &&& refusal is RootTooLong <==> vstd::utf8::encode_utf8(root).len() > 4_096
            &&& refusal is NotRegistered ==> !says.dom().contains(previous) && !says.dom().contains(
                target,
            )
            &&& refusal matches ResetRefusal::Conflict { workspace, registered_root } ==> (workspace
                == target || workspace == previous) && (says.dom().contains(workspace)
                && says[workspace].0 != root ==> registered_root == says[workspace].0
                || registered_root == root)
        },
{
    if root_is_taken(says, root, previous, target) {
        let workspace = choose|workspace: Seq<char>|
            is_taken_by(says, root, previous, target, workspace);
        assert(says.dom().contains(workspace));
    } else {
        assert forall|workspace: Seq<char>| #[trigger]
            says.dom().contains(workspace) && says[workspace].0 == root implies workspace == previous
            || workspace == target by {
            assert(!is_taken_by(says, root, previous, target, workspace));
        }
    }
}

/// What entries say of a workspace is what the entry of that workspace holds, and nothing is said of a
/// workspace that no entry is about.
pub proof fn a_registry_says_what_its_entries_hold(
    entries: Seq<WorkspaceRegistryEntryV1>,
    place: int,
    workspace: Seq<char>,
)
    requires
        forall|i: int, j: int|
            0 <= i < j < entries.len() ==> text::text_before(
                #[trigger] entries[i].workspace_uuid@,
                #[trigger] entries[j].workspace_uuid@,
            ),
        0 <= place < entries.len(),
    ensures
        registered(entries).dom().contains(entries[place].workspace_uuid@),
        registered(entries)[entries[place].workspace_uuid@] == (
            entries[place].last_known_root@,
            entries[place].last_seen_at@,
        ),
        registered(entries).dom().contains(workspace) <==> exists|i: int|
            0 <= i < entries.len() && #[trigger] entries[i].workspace_uuid@ == workspace,
{
    an_entry_is_registered(entries, place);
}

/// A refusal names what was refused: the workspace that is not registered, or the workspace, the root
/// that it is registered at and the one that was given. An error is never both, and never of two
/// workspaces.
pub proof fn a_refusal_names_what_was_refused(
    error: RegistryErrorV1,
    workspace: Seq<char>,
    other: Seq<char>,
    registered_root: Seq<char>,
    supplied_root: Seq<char>,
)
    ensures
        is_not_registered(error, workspace) ==> (error matches
            RegistryErrorV1::WorkspaceNotRegistered { workspace_uuid } && workspace_uuid@
            == workspace) && !is_root_conflict(error, other, registered_root, supplied_root),
        is_not_registered(error, workspace) && is_not_registered(error, other) ==> workspace == other,
        is_root_conflict(error, workspace, registered_root, supplied_root) ==> (error matches
            RegistryErrorV1::WorkspaceRootConflict {
            workspace_uuid,
            registered_root: registered,
            supplied_root: supplied,
        } && workspace_uuid@ == workspace && registered@ == registered_root && supplied@
            == supplied_root),
{
}

} // verus!
