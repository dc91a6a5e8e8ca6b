//! What a registry store decides about the files that hold its document.

use crate::observability::{EventCategoryV1, EventNoticeV1, SeverityV1};
use crate::registry::{
    RegistryDocumentViolationV1, RegistryErrorV1, RegistryFailpointActionV1, RegistryFailpointV1,
    RegistryPathViolationV1, WorkspaceRegistryEntryV1, WorkspaceRegistryV1,
    MAX_WORKSPACE_REGISTRY_BYTES_V1, PRIVATE_DIRECTORY_MODE, PRIVATE_FILE_MODE,
    WORKSPACE_REGISTRY_SCHEMA_V1,
};
use crate::registry;
use crate::text;
use vstd::prelude::*;

verus! {

/// What a path names, without following it.
#[derive(Clone, Copy, Debug, PartialEq, Eq)]
pub struct FileMetadataV1 {
    pub is_symlink: bool,
    pub is_directory: bool,
    pub is_regular_file: bool,
    pub owner_uid: u32,
    pub mode: u32,
    pub device: u64,
    pub inode: u64,
}

/// The identity of a file that this process created.
#[derive(Clone, Copy, Debug, PartialEq, Eq)]
pub struct FileIdentityV1 {
    pub device: u64,
    pub inode: u64,
    pub owner_uid: u32,
}

/// What the file of a registry path is for.
#[derive(Clone, Copy, Debug, PartialEq, Eq, Structural)]
pub enum RegistryFileRoleV1 {
    Registry,
    Lock,
    Temporary,
}

/// The permission bits of a file mode.
pub open spec fn permission_bits(mode: u32) -> u32 {
    mode & 0o777
}

/// What is wrong with the owner or the permissions of a file, if anything is.
pub open spec fn access_violation(
    metadata: FileMetadataV1,
    current_uid: u32,
    expected_mode: u32,
) -> Option<RegistryPathViolationV1> {
    if metadata.owner_uid != current_uid {
        Some(
            RegistryPathViolationV1::WrongOwner {
                expected_uid: current_uid,
                actual_uid: metadata.owner_uid,
            },
        )
    } else if permission_bits(metadata.mode) != expected_mode {
        Some(
            RegistryPathViolationV1::WrongMode {
                expected_mode,
                actual_mode: permission_bits(metadata.mode),
            },
        )
    } else {
        None
    }
}

/// What is wrong with the directory that holds the registry, if anything is.
pub open spec fn parent_violation(
    metadata: FileMetadataV1,
    current_uid: u32,
) -> Option<RegistryPathViolationV1> {
    if metadata.is_symlink {
        Some(RegistryPathViolationV1::Symlink)
    } else if !metadata.is_directory {
        Some(RegistryPathViolationV1::NotDirectory)
    } else {
        access_violation(metadata, current_uid, PRIVATE_DIRECTORY_MODE)
    }
}

/// What is wrong with a file of the registry, if anything is.
pub open spec fn file_violation(
    metadata: FileMetadataV1,
    current_uid: u32,
) -> Option<RegistryPathViolationV1> {
    if metadata.is_symlink {
        Some(RegistryPathViolationV1::Symlink)
    } else if !metadata.is_regular_file {
        Some(RegistryPathViolationV1::NotRegularFile)
    } else {
        access_violation(metadata, current_uid, PRIVATE_FILE_MODE)
    }
}

/// The error that reports a violation of a file of the given role.
pub open spec fn unsafe_file(
    role: RegistryFileRoleV1,
    path: String,
    violation: RegistryPathViolationV1,
) -> RegistryErrorV1 {
    match role {
        RegistryFileRoleV1::Registry => RegistryErrorV1::UnsafeRegistryFile { path, violation },
        RegistryFileRoleV1::Lock => RegistryErrorV1::UnsafeRegistryLock { path, violation },
        RegistryFileRoleV1::Temporary => RegistryErrorV1::UnsafeRegistryTemporary {
            path,
            violation,
        },
    }
}

fn check_access(metadata: &FileMetadataV1, current_uid: u32, expected_mode: u32) -> (violation:
    Option<RegistryPathViolationV1>)
    ensures
        violation == access_violation(*metadata, current_uid, expected_mode),
{
    let actual_mode: u32 = metadata.mode & 0o777;
    if metadata.owner_uid != current_uid {
        Some(
            RegistryPathViolationV1::WrongOwner {
                expected_uid: current_uid,
                actual_uid: metadata.owner_uid,
            },
        )
    } else if actual_mode != expected_mode {
        Some(RegistryPathViolationV1::WrongMode { expected_mode, actual_mode })
    } else {
        None
    }
}

/// Whether the directory that holds the registry is private to the current user.
pub fn validate_parent_v1(path: &String, metadata: &FileMetadataV1, current_uid: u32) -> (result:
    Result<(), RegistryErrorV1>)
    ensures
        result == match parent_violation(*metadata, current_uid) {
            Some(violation) => Err::<(), RegistryErrorV1>(
                RegistryErrorV1::UnsafeRegistryParent { path: *path, violation },
            ),
            None => Ok(()),
        },
{
    let violation = if metadata.is_symlink {
        Some(RegistryPathViolationV1::Symlink)
    } else if !metadata.is_directory {
        Some(RegistryPathViolationV1::NotDirectory)
    } else {
        check_access(metadata, current_uid, PRIVATE_DIRECTORY_MODE)
    };
    match violation {
        Some(violation) => Err(
            RegistryErrorV1::UnsafeRegistryParent { path: path.clone(), violation },
        ),
        None => Ok(()),
    }
}

/// Whether a file of the registry is a regular file, private to the current user.
pub fn validate_file_v1(
    role: RegistryFileRoleV1,
    path: &String,
    metadata: &FileMetadataV1,
    current_uid: u32,
) -> (result: Result<(), RegistryErrorV1>)
    ensures
        result == match file_violation(*metadata, current_uid) {
            Some(violation) => Err::<(), RegistryErrorV1>(unsafe_file(role, *path, violation)),
            None => Ok(()),
        },
{
    let violation = if metadata.is_symlink {
        Some(RegistryPathViolationV1::Symlink)
    } else if !metadata.is_regular_file {
        Some(RegistryPathViolationV1::NotRegularFile)
    } else {
        check_access(metadata, current_uid, PRIVATE_FILE_MODE)
    };
    match violation {
        None => Ok(()),
        Some(violation) => {
            let path: String = path.clone();
            Err(
                match role {
                    RegistryFileRoleV1::Registry => RegistryErrorV1::UnsafeRegistryFile {
                        path,
                        violation,
                    },
                    RegistryFileRoleV1::Lock => RegistryErrorV1::UnsafeRegistryLock {
                        path,
                        violation,
                    },
                    RegistryFileRoleV1::Temporary => RegistryErrorV1::UnsafeRegistryTemporary {
                        path,
                        violation,
                    },
                },
            )
        },
    }
}

/// Whether a document of the given length is small enough to be read.
pub fn validate_registry_length(path: &String, length: u64) -> (result: Result<
    (),
    RegistryErrorV1,
>)
    ensures
        result == if length > MAX_WORKSPACE_REGISTRY_BYTES_V1 {
            Err::<(), RegistryErrorV1>(
                RegistryErrorV1::RegistryTooLarge {
                    path: *path,
                    maximum: MAX_WORKSPACE_REGISTRY_BYTES_V1,
                    actual: length,
                },
            )
        } else {
            Ok(())
        },
{
    if length > MAX_WORKSPACE_REGISTRY_BYTES_V1 {
        return Err(
            RegistryErrorV1::RegistryTooLarge {
                path: path.clone(),
                maximum: MAX_WORKSPACE_REGISTRY_BYTES_V1,
                actual: length,
            },
        );
    }
    Ok(())
}

impl FileIdentityV1 {
    /// The identity of the file that metadata describe.
    pub fn from_metadata(metadata: &FileMetadataV1) -> (identity: Self)
        ensures
            identity.device == metadata.device,
            identity.inode == metadata.inode,
            identity.owner_uid == metadata.owner_uid,
    {
        FileIdentityV1 {
            device: metadata.device,
            inode: metadata.inode,
            owner_uid: metadata.owner_uid,
        }
    }

    /// Whether metadata describe this very file, so that it may be removed.
    pub fn owns(&self, metadata: &FileMetadataV1) -> (owned: bool)
        ensures
            owned == (metadata.is_regular_file && metadata.owner_uid == self.owner_uid
                && metadata.device == self.device && metadata.inode == self.inode),
    {
        metadata.is_regular_file && metadata.owner_uid == self.owner_uid && metadata.device
            == self.device && metadata.inode == self.inode
    }
}

/// What the canonical-form check says of the bytes of a document.
#[derive(Clone, Copy, Debug, PartialEq, Eq, Structural)]
pub enum CanonicalVerdictV1 {
    Canonical,
    InvalidJson,
    NonCanonical,
}

/// An entry of a document. A part is absent where its text is not a valid one of its kind.
#[derive(Clone, Debug, PartialEq, Eq)]
pub struct SerializedEntryV1 {
    pub workspace_uuid: Option<String>,
    pub last_known_root: Option<String>,
    pub last_seen_at: Option<String>,
}

/// A document of the registry's shape.
#[derive(Clone, Debug, PartialEq, Eq)]
pub struct SerializedRegistryV1 {
    pub schema: String,
    pub workspaces: Vec<SerializedEntryV1>,
}

/// What is wrong with an entry of a document, if anything is: its workspace, its root, its time, in
/// that order, and then the length of its root.
pub open spec fn entry_violation(entry: SerializedEntryV1) -> Option<RegistryDocumentViolationV1> {
    if entry.workspace_uuid is None {
        Some(RegistryDocumentViolationV1::InvalidShape)
    } else if entry.last_known_root is None {
        Some(RegistryDocumentViolationV1::InvalidWorkspaceRoot)
    } else if entry.last_seen_at is None {
        Some(RegistryDocumentViolationV1::InvalidTimestamp)
    } else if !registry::root_fits(entry.last_known_root->0@) {
        Some(RegistryDocumentViolationV1::InvalidEntryOrder)
    } else {
        None
    }
}

/// The entry that a valid entry of a document spells.
pub open spec fn spelled_entry(entry: SerializedEntryV1) -> WorkspaceRegistryEntryV1 {
    WorkspaceRegistryEntryV1 {
        workspace_uuid: entry.workspace_uuid->0,
        last_known_root: entry.last_known_root->0,
        last_seen_at: entry.last_seen_at->0,
    }
}

/// The entries that the valid entries of a document spell.
pub open spec fn spelled_entries(entries: Seq<SerializedEntryV1>) -> Seq<WorkspaceRegistryEntryV1> {
    entries.map_values(|entry: SerializedEntryV1| spelled_entry(entry))
}

/// What is wrong with the first entry that is not valid.
pub open spec fn first_entry_violation(entries: Seq<SerializedEntryV1>) -> Option<
    RegistryDocumentViolationV1,
>
    decreases entries.len(),
{
    if entries.len() == 0 {
        None
    } else {
        match first_entry_violation(entries.drop_last()) {
            Some(violation) => Some(violation),
            None => entry_violation(entries.last()),
        }
    }
}

/// Why the bytes of a document are rejected, if they are.
pub open spec fn document_violation(
    verdict: CanonicalVerdictV1,
    document: Option<SerializedRegistryV1>,
) -> Option<RegistryDocumentViolationV1> {
    match (verdict, document) {
        (CanonicalVerdictV1::InvalidJson, _) => Some(RegistryDocumentViolationV1::InvalidJson),
        (CanonicalVerdictV1::NonCanonical, _) => Some(
            RegistryDocumentViolationV1::NonCanonicalJson,
        ),
        (CanonicalVerdictV1::Canonical, None) => Some(RegistryDocumentViolationV1::InvalidShape),
        (CanonicalVerdictV1::Canonical, Some(document)) => {
            if document.schema@ != WORKSPACE_REGISTRY_SCHEMA_V1@ {
                Some(RegistryDocumentViolationV1::UnsupportedSchema)
            } else {
                match first_entry_violation(document.workspaces@) {
                    Some(violation) => Some(violation),
                    None => {
                        if document.workspaces@.len() > registry::MAX_WORKSPACE_REGISTRY_ENTRIES_V1
                            || !registry::strictly_sorted(spelled_entries(document.workspaces@)) {
                            Some(RegistryDocumentViolationV1::InvalidEntryOrder)
                        } else {
                            None
                        }
                    },
                }
            }
        },
    }
}

/// While no entry is invalid, every entry is valid.
proof fn entries_without_violation_are_valid(entries: Seq<SerializedEntryV1>)
    requires
        first_entry_violation(entries) is None,
    ensures
        forall|i: int| 0 <= i < entries.len() ==> entry_violation(#[trigger] entries[i]) is None,
        registry::roots_fit(spelled_entries(entries)),
    decreases entries.len(),
{
    if entries.len() > 0 {
        entries_without_violation_are_valid(entries.drop_last());
        assert forall|i: int| 0 <= i < entries.len() implies entry_violation(
            #[trigger] entries[i],
        ) is None by {
            if i < entries.len() - 1 {
                assert(entries.drop_last()[i] == entries[i]);
            }
        }
        assert forall|i: int| 0 <= i < entries.len() implies registry::root_fits(
            #[trigger] spelled_entries(entries)[i].last_known_root@,
        ) by {
            assert(entry_violation(entries[i]) is None);
        }
    }
}

/// An invalid entry stays the first one whatever follows it.
proof fn the_first_violation_stays(entries: Seq<SerializedEntryV1>, place: int)
    requires
        0 <= place <= entries.len(),
        first_entry_violation(entries.take(place)) is Some,
    ensures
        first_entry_violation(entries) == first_entry_violation(entries.take(place)),
    decreases entries.len() - place,
{
    if place < entries.len() {
        assert(entries.take(place + 1).drop_last() =~= entries.take(place));
        the_first_violation_stays(entries, place + 1);
    } else {
        assert(entries.take(place) =~= entries);
    }
}

/// Decodes a registry document from what the canonical-form check and the parser made of its
/// bytes. A document that is not exactly a registry is rejected, never repaired.
pub fn decode_registry_v1(
    registry_path: &String,
    verdict: CanonicalVerdictV1,
    document: Option<SerializedRegistryV1>,
) -> (result: Result<WorkspaceRegistryV1, RegistryErrorV1>)
    ensures
        match result {
            Ok(registry) => document_violation(verdict, document) is None && registry.wf()
                && registry@ == spelled_entries(document->0.workspaces@),
            Err(error) => document_violation(verdict, document) matches Some(violation) && error
                == (RegistryErrorV1::InvalidRegistryDocument { path: *registry_path, violation }),
        },
{
    let violation: RegistryDocumentViolationV1 = match verdict {
        CanonicalVerdictV1::InvalidJson => RegistryDocumentViolationV1::InvalidJson,
        CanonicalVerdictV1::NonCanonical => RegistryDocumentViolationV1::NonCanonicalJson,
        CanonicalVerdictV1::Canonical => match document {
            None => RegistryDocumentViolationV1::InvalidShape,
            Some(document) => match decode_document(document) {
                Ok(registry) => {
                    return Ok(registry);
                },
                Err(violation) => violation,
            },
        },
    };
    Err(RegistryErrorV1::InvalidRegistryDocument { path: registry_path.clone(), violation })
}

fn decode_entry(entry: &SerializedEntryV1) -> (result: Result<
    WorkspaceRegistryEntryV1,
    RegistryDocumentViolationV1,
>)
    ensures
        result == match entry_violation(*entry) {
            Some(violation) => Err::<WorkspaceRegistryEntryV1, RegistryDocumentViolationV1>(
                violation,
            ),
            None => Ok(spelled_entry(*entry)),
        },
{
    let workspace_uuid: String = match &entry.workspace_uuid {
        Some(text) => text.clone(),
        None => {
            return Err(RegistryDocumentViolationV1::InvalidShape);
        },
    };
    let last_known_root: String = match &entry.last_known_root {
        Some(text) => text.clone(),
        None => {
            return Err(RegistryDocumentViolationV1::InvalidWorkspaceRoot);
        },
    };
    let last_seen_at: String = match &entry.last_seen_at {
        Some(text) => text.clone(),
        None => {
            return Err(RegistryDocumentViolationV1::InvalidTimestamp);
        },
    };
    match WorkspaceRegistryEntryV1::new(workspace_uuid, last_known_root, last_seen_at) {
        Ok(entry) => Ok(entry),
        Err(_) => Err(RegistryDocumentViolationV1::InvalidEntryOrder),
    }
}

fn decode_document(document: SerializedRegistryV1) -> (result: Result<
    WorkspaceRegistryV1,
    RegistryDocumentViolationV1,
>)
    ensures
        match result {
            Ok(registry) => document_violation(
                CanonicalVerdictV1::Canonical,
                Some(document),
            ) is None && registry.wf() && registry@ == spelled_entries(document.workspaces@),
            Err(violation) => document_violation(CanonicalVerdictV1::Canonical, Some(document))
                == Some(violation),
        },
{
    if !text::same_text(&document.schema, WORKSPACE_REGISTRY_SCHEMA_V1) {
        return Err(RegistryDocumentViolationV1::UnsupportedSchema);
    }
    let mut entries: Vec<WorkspaceRegistryEntryV1> = Vec::new();
    let mut place: usize = 0;
    while place < document.workspaces.len()
        invariant
            place <= document.workspaces@.len(),
            document.schema@ == WORKSPACE_REGISTRY_SCHEMA_V1@,
            first_entry_violation(document.workspaces@.take(place as int)) is None,
            entries@ == spelled_entries(document.workspaces@.take(place as int)),
        decreases document.workspaces@.len() - place,
    {
        let entry = decode_entry(&document.workspaces[place]);
        let ghost through = document.workspaces@.take(place + 1);
        assert(through.drop_last() =~= document.workspaces@.take(place as int));
        assert(through.last() == document.workspaces@[place as int]);
        match entry {
            Ok(entry) => {
                entries.push(entry);
                assert(entries@ =~= spelled_entries(through));
            },
            Err(violation) => {
                proof {
                    the_first_violation_stays(document.workspaces@, place + 1);
                }
                return Err(violation);
            },
        }
        place = place + 1;
    }
    proof {
        assert(document.workspaces@.take(place as int) =~= document.workspaces@);
        entries_without_violation_are_valid(document.workspaces@);
    }
    match WorkspaceRegistryV1::new(entries) {
        Ok(registry) => Ok(registry),
        Err(_) => Err(RegistryDocumentViolationV1::InvalidEntryOrder),
    }
}

/// The entry of a document that an entry of a registry is written as.
pub open spec fn written_entry(entry: WorkspaceRegistryEntryV1) -> SerializedEntryV1 {
    SerializedEntryV1 {
        workspace_uuid: Some(entry.workspace_uuid),
        last_known_root: Some(entry.last_known_root),
        last_seen_at: Some(entry.last_seen_at),
    }
}

/// The entries of a document that the entries of a registry are written as, in the same order.
pub open spec fn written_entries(entries: Seq<WorkspaceRegistryEntryV1>) -> Seq<SerializedEntryV1> {
    entries.map_values(|entry: WorkspaceRegistryEntryV1| written_entry(entry))
}

/// The document that a registry is written as.
pub fn encode_registry_v1(registry: &WorkspaceRegistryV1) -> (document: SerializedRegistryV1)
    ensures
        document.schema@ == WORKSPACE_REGISTRY_SCHEMA_V1@,
        document.workspaces@ == written_entries(registry@),
{
    let entries = registry.workspaces();
    let mut workspaces: Vec<SerializedEntryV1> = Vec::new();
    let mut place: usize = 0;
    while place < entries.len()
        invariant
            place <= entries@.len(),
            entries@ == registry@,
            workspaces@ == written_entries(entries@.take(place as int)),
        decreases entries@.len() - place,
    {
        let entry = entries[place].copy();
        workspaces.push(
            SerializedEntryV1 {
                workspace_uuid: Some(entry.workspace_uuid),
                last_known_root: Some(entry.last_known_root),
                last_seen_at: Some(entry.last_seen_at),
            },
        );
        assert(workspaces@ =~= written_entries(entries@.take(place + 1)));
        place = place + 1;
    }
    assert(entries@.take(place as int) =~= entries@);
    SerializedRegistryV1 { schema: WORKSPACE_REGISTRY_SCHEMA_V1.to_owned(), workspaces }
}

proof fn written_entries_are_valid(entries: Seq<WorkspaceRegistryEntryV1>)
    requires
        registry::roots_fit(entries),
    ensures
        first_entry_violation(written_entries(entries)) is None,
        spelled_entries(written_entries(entries)) == entries,
    decreases entries.len(),
{
    assert(spelled_entries(written_entries(entries)) =~= entries);
    if entries.len() > 0 {
        assert forall|i: int| 0 <= i < entries.drop_last().len() implies registry::root_fits(
            #[trigger] entries.drop_last()[i].last_known_root@,
        ) by {
            assert(entries.drop_last()[i] == entries[i]);
        }
        written_entries_are_valid(entries.drop_last());
        assert(written_entries(entries).drop_last() =~= written_entries(entries.drop_last()));
        assert(entries[entries.len() - 1] == entries.last());
    }
}

/// A registry that was written is read back: its document is accepted, and spells the same entries
/// in the same order.
pub proof fn a_written_registry_is_read_back(
    registry: WorkspaceRegistryV1,
    document: SerializedRegistryV1,
)
    requires
        registry.wf(),
        document.schema@ == WORKSPACE_REGISTRY_SCHEMA_V1@,
        document.workspaces@ == written_entries(registry@),
    ensures
        document_violation(CanonicalVerdictV1::Canonical, Some(document)) is None,
        spelled_entries(document.workspaces@) == registry@,
{
    written_entries_are_valid(registry@);
}

/// How many names are tried for a temporary file.
pub const TEMPORARY_NAME_ATTEMPTS_V1: usize = 128;

/// The name of a temporary file of a process, by its place in a sequence.
pub open spec fn temporary_name(process_id: nat, sequence: nat) -> Seq<char> {
    ".podway-registry-v1-"@ + text::decimal(process_id) + "-"@ + text::decimal(sequence) + ".tmp"@
}

/// The name of a temporary file of a process, by its place in a sequence.
pub fn temporary_file_name(process_id: u32, sequence: u64) -> (name: String)
    ensures
        name@ == temporary_name(process_id as nat, sequence as nat),
{
    let process = text::decimal_text(process_id as u64);
    let place = text::decimal_text(sequence);
    text::join_five(".podway-registry-v1-", &process, "-", &place, ".tmp")
}

/// What follows an attempt to create a temporary file.
#[derive(Debug, PartialEq, Eq)]
pub enum TemporaryCreationV1 {
    Created,
    TryAgain,
    Failed(RegistryErrorV1),
}

/// What came of an attempt to create a temporary file.
#[derive(Debug, PartialEq, Eq)]
pub enum TemporaryAttemptV1 {
    Created,
    /// There is a file of that name already.
    NameTaken,
    Failed(RegistryErrorV1),
}

/// What follows an attempt to create a temporary file. A name that is taken is given up for the next
/// one, as long as there are attempts left.
pub fn temporary_creation_after(
    attempts_made: usize,
    attempt: TemporaryAttemptV1,
    parent: &String,
) -> (next: TemporaryCreationV1)
    ensures
        next == match attempt {
            TemporaryAttemptV1::Created => TemporaryCreationV1::Created,
            TemporaryAttemptV1::Failed(error) => TemporaryCreationV1::Failed(error),
            TemporaryAttemptV1::NameTaken => if attempts_made < TEMPORARY_NAME_ATTEMPTS_V1 {
                TemporaryCreationV1::TryAgain
            } else {
                TemporaryCreationV1::Failed(
                    RegistryErrorV1::TemporaryNameExhausted { parent: *parent },
                )
            },
        },
{
    match attempt {
        TemporaryAttemptV1::Created => TemporaryCreationV1::Created,
        TemporaryAttemptV1::Failed(error) => TemporaryCreationV1::Failed(error),
        TemporaryAttemptV1::NameTaken => if attempts_made < TEMPORARY_NAME_ATTEMPTS_V1 {
            TemporaryCreationV1::TryAgain
        } else {
            TemporaryCreationV1::Failed(
                RegistryErrorV1::TemporaryNameExhausted { parent: parent.clone() },
            )
        },
    }
}

/// The steps of publishing a document, in order.
#[derive(Clone, Copy, Debug, PartialEq, Eq, Structural)]
pub enum RegistryPublicationStepV1 {
    CreateTemporary,
    WriteTemporary,
    SyncTemporary,
    FailpointBeforeRename,
    Rename,
    FailpointAfterRename,
    SyncParent,
}

/// What follows a step of publishing a document.
#[derive(Clone, Copy, Debug, PartialEq, Eq, Structural)]
pub enum RegistryPublicationV1 {
    Continue(RegistryPublicationStepV1),
    Published,
    Abandon { remove_temporary: bool },
}

/// What follows a step of publishing a document. Once the temporary file exists, and until it has
/// taken the document's place, an abandoned publication removes it.
pub fn registry_publication_after(step: RegistryPublicationStepV1, succeeded: bool) -> (next:
    RegistryPublicationV1)
    ensures
        next == match (step, succeeded) {
            (RegistryPublicationStepV1::CreateTemporary, true) => RegistryPublicationV1::Continue(
                RegistryPublicationStepV1::WriteTemporary,
            ),
            (RegistryPublicationStepV1::WriteTemporary, true) => RegistryPublicationV1::Continue(
                RegistryPublicationStepV1::SyncTemporary,
            ),
            (RegistryPublicationStepV1::SyncTemporary, true) => RegistryPublicationV1::Continue(
                RegistryPublicationStepV1::FailpointBeforeRename,
            ),
            (RegistryPublicationStepV1::FailpointBeforeRename, true) =>
                RegistryPublicationV1::Continue(RegistryPublicationStepV1::Rename),
            (RegistryPublicationStepV1::Rename, true) => RegistryPublicationV1::Continue(
                RegistryPublicationStepV1::FailpointAfterRename,
            ),
            (RegistryPublicationStepV1::FailpointAfterRename, true) =>
                RegistryPublicationV1::Continue(RegistryPublicationStepV1::SyncParent),
            (RegistryPublicationStepV1::SyncParent, true) => RegistryPublicationV1::Published,
            (step, false) => RegistryPublicationV1::Abandon {
                remove_temporary: step is WriteTemporary || step is SyncTemporary
                    || step is FailpointBeforeRename || step is Rename,
            },
        },
{
    if !succeeded {
        let remove_temporary: bool = match step {
            RegistryPublicationStepV1::WriteTemporary => true,
            RegistryPublicationStepV1::SyncTemporary => true,
            RegistryPublicationStepV1::FailpointBeforeRename => true,
            RegistryPublicationStepV1::Rename => true,
            RegistryPublicationStepV1::CreateTemporary => false,
            RegistryPublicationStepV1::FailpointAfterRename => false,
            RegistryPublicationStepV1::SyncParent => false,
        };
        return RegistryPublicationV1::Abandon { remove_temporary };
    }
    match step {
        RegistryPublicationStepV1::CreateTemporary => RegistryPublicationV1::Continue(
            RegistryPublicationStepV1::WriteTemporary,
        ),
        RegistryPublicationStepV1::WriteTemporary => RegistryPublicationV1::Continue(
            RegistryPublicationStepV1::SyncTemporary,
        ),
        RegistryPublicationStepV1::SyncTemporary => RegistryPublicationV1::Continue(
            RegistryPublicationStepV1::FailpointBeforeRename,
        ),
        RegistryPublicationStepV1::FailpointBeforeRename => RegistryPublicationV1::Continue(
            RegistryPublicationStepV1::Rename,
        ),
        RegistryPublicationStepV1::Rename => RegistryPublicationV1::Continue(
            RegistryPublicationStepV1::FailpointAfterRename,
        ),
        RegistryPublicationStepV1::FailpointAfterRename => RegistryPublicationV1::Continue(
            RegistryPublicationStepV1::SyncParent,
        ),
        RegistryPublicationStepV1::SyncParent => RegistryPublicationV1::Published,
    }
}

/// What a locked operation comes to. A lock that could not be released is reported in place of
/// whatever the operation returned.
pub fn locked_result<T>(
    result: Result<T, RegistryErrorV1>,
    unlock: Result<(), RegistryErrorV1>,
) -> (combined: Result<T, RegistryErrorV1>)
    ensures
        combined == match unlock {
            Ok(_) => result,
            Err(error) => Err::<T, RegistryErrorV1>(error),
        },
{
    match unlock {
        Ok(_) => result,
        Err(error) => Err(error),
    }
}

/// What is noticed of a load of the registry.
pub fn notice_of_load(loaded: bool) -> (notice: EventNoticeV1)
    ensures
        notice == (EventNoticeV1 {
            category: EventCategoryV1::MigrationOrIntegrity,
            severity: if loaded {
                SeverityV1::Debug
            } else {
                SeverityV1::Warn
            },
        }),
{
    EventNoticeV1 {
        category: EventCategoryV1::MigrationOrIntegrity,
        severity: if loaded {
            SeverityV1::Debug
        } else {
            SeverityV1::Warn
        },
    }
}

/// What is noticed of an operation under the lock, before the lock is released: one that failed, and
/// nothing of one that did not.
pub fn notice_of_locked_operation(succeeded: bool) -> (notice: Option<EventNoticeV1>)
    ensures
        notice == if succeeded {
            None
        } else {
            Some(
                EventNoticeV1 {
                    category: EventCategoryV1::MigrationOrIntegrity,
                    severity: SeverityV1::Warn,
                },
            )
        },
{
    if succeeded {
        None
    } else {
        Some(
            EventNoticeV1 {
                category: EventCategoryV1::MigrationOrIntegrity,
                severity: SeverityV1::Warn,
            },
        )
    }
}

/// What is noticed of publishing a document: that it was published, and nothing before that.
pub fn notice_of_publication(next: RegistryPublicationV1) -> (notice: Option<EventNoticeV1>)
    ensures
        notice == if next is Published {
            Some(
                EventNoticeV1 {
                    category: EventCategoryV1::MoveOrRepair,
                    severity: SeverityV1::Info,
                },
            )
        } else {
            None
        },
{
    match next {
        RegistryPublicationV1::Published => Some(
            EventNoticeV1 { category: EventCategoryV1::MoveOrRepair, severity: SeverityV1::Info },
        ),
        _ => None,
    }
}

/// What happens at a publication boundary.
#[derive(Clone, Copy, Debug, PartialEq, Eq, Structural)]
pub enum RegistryInterruptionV1 {
    Proceed,
    AbortProcess,
    WaitAtBarrier,
}

/// The path of a registry, and the boundary that it was built to interrupt at.
#[derive(Clone, Debug, PartialEq, Eq)]
pub struct RegistryStoreV1 {
    pub registry_path: String,
    pub failpoint: Option<RegistryFailpointV1>,
    pub failpoint_action: RegistryFailpointActionV1,
}

impl RegistryStoreV1 {
    /// A store that interrupts nowhere.
    pub fn new(registry_path: String) -> (store: Self)
        ensures
            store.registry_path == registry_path,
            store.failpoint is None,
            store.failpoint_action is ReturnError,
    {
        RegistryStoreV1 {
            registry_path,
            failpoint: None,
            failpoint_action: RegistryFailpointActionV1::ReturnError,
        }
    }

    /// A store that interrupts at the given publication boundary.
    pub fn with_failpoint(
        registry_path: String,
        failpoint: RegistryFailpointV1,
        failpoint_action: RegistryFailpointActionV1,
    ) -> (store: Self)
        ensures
            store.registry_path == registry_path,
            store.failpoint == Some(failpoint),
            store.failpoint_action == failpoint_action,
    {
        RegistryStoreV1 { registry_path, failpoint: Some(failpoint), failpoint_action }
    }

    /// The path of the registry document.
    pub fn registry_path(&self) -> (path: &String)
        ensures
            *path == self.registry_path,
    {
        &self.registry_path
    }

    /// The directory of the registry document, where its path tells one.
    pub fn parent_directory(&self, parent: Option<String>) -> (directory: Result<
        String,
        RegistryErrorV1,
    >)
        ensures
            directory == match parent {
                Some(parent) => Ok(parent),
                None => Err(
                    RegistryErrorV1::RegistryPathHasNoParent { path: self.registry_path },
                ),
            },
    {
        match parent {
            Some(parent) => Ok(parent),
            None => Err(
                RegistryErrorV1::RegistryPathHasNoParent { path: self.registry_path.clone() },
            ),
        }
    }

    /// The name of the lock beside the registry document, where the path of the document tells a
    /// name.
    pub fn lock_name(&self, file_name: Option<&str>) -> (name: Result<String, RegistryErrorV1>)
        ensures
            match (file_name, name) {
                (Some(file_name), Ok(name)) => name@ == file_name@ + ".lock"@,
                (None, Err(error)) => error == (RegistryErrorV1::RegistryPathHasNoParent {
                    path: self.registry_path,
                }),
                _ => false,
            },
    {
        match file_name {
            Some(file_name) => Ok(text::join_two(file_name, ".lock")),
            None => Err(
                RegistryErrorV1::RegistryPathHasNoParent { path: self.registry_path.clone() },
            ),
        }
    }

    /// What happens when publication reaches a boundary.
    pub fn trigger_failpoint(&self, point: RegistryFailpointV1) -> (result: Result<
        RegistryInterruptionV1,
        RegistryErrorV1,
    >)
        ensures
            result == if self.failpoint != Some(point) {
                Ok::<RegistryInterruptionV1, RegistryErrorV1>(RegistryInterruptionV1::Proceed)
            } else {
                match self.failpoint_action {
                    RegistryFailpointActionV1::ReturnError => Err(
                        RegistryErrorV1::Failpoint { point },
                    ),
                    RegistryFailpointActionV1::AbortProcess => Ok(
                        RegistryInterruptionV1::AbortProcess,
                    ),
                    RegistryFailpointActionV1::Barrier => Ok(
                        RegistryInterruptionV1::WaitAtBarrier,
                    ),
                }
            },
    {
        match self.failpoint {
            Some(failpoint) => {
                if failpoint != point {
                    return Ok(RegistryInterruptionV1::Proceed);
                }
                match self.failpoint_action {
                    RegistryFailpointActionV1::ReturnError => Err(
                        RegistryErrorV1::Failpoint { point },
                    ),
                    RegistryFailpointActionV1::AbortProcess => Ok(
                        RegistryInterruptionV1::AbortProcess,
                    ),
                    RegistryFailpointActionV1::Barrier => Ok(
                        RegistryInterruptionV1::WaitAtBarrier,
                    ),
                }
            },
            None => Ok(RegistryInterruptionV1::Proceed),
        }
    }
}

/// A directory holds a registry exactly if it is one, not by a link, and belongs to the current user, who
/// alone may do anything with it.
pub proof fn only_a_private_directory_holds_a_registry(
    path: String,
    metadata: FileMetadataV1,
    current_uid: u32,
    result: Result<(), RegistryErrorV1>,
)
    requires
        call_ensures(validate_parent_v1, (&path, &metadata, current_uid), result),
    ensures
        result is Ok <==> !metadata.is_symlink && metadata.is_directory && metadata.owner_uid
            == current_uid && metadata.mode & 0o777 == 0o700,
        result matches Err(error) ==> (error matches RegistryErrorV1::UnsafeRegistryParent {
            path: told,
            violation,
        } && told == path && {
            &&& violation is Symlink <==> metadata.is_symlink
            &&& violation is NotDirectory <==> !metadata.is_symlink && !metadata.is_directory
            &&& violation is WrongOwner <==> !metadata.is_symlink && metadata.is_directory
                && metadata.owner_uid != current_uid
        }),
{
}

/// A file belongs to a registry exactly if it is a regular one, not by a link, of the current user, who
/// alone may read and write it. One that is not is told as what it was meant for.
pub proof fn only_a_private_file_belongs_to_a_registry(
    role: RegistryFileRoleV1,
    path: String,
    metadata: FileMetadataV1,
    current_uid: u32,
    result: Result<(), RegistryErrorV1>,
)
    requires
        call_ensures(validate_file_v1, (role, &path, &metadata, current_uid), result),
    ensures
        result is Ok <==> !metadata.is_symlink && metadata.is_regular_file && metadata.owner_uid
            == current_uid && metadata.mode & 0o777 == 0o600,
        result matches Err(error) ==> {
            &&& role is Registry <==> error is UnsafeRegistryFile
            &&& role is Lock <==> error is UnsafeRegistryLock
            &&& role is Temporary <==> error is UnsafeRegistryTemporary
            &&& error matches RegistryErrorV1::UnsafeRegistryFile { path: told, .. } ==> told == path
            &&& error matches RegistryErrorV1::UnsafeRegistryLock { path: told, .. } ==> told == path
            &&& error matches RegistryErrorV1::UnsafeRegistryTemporary { path: told, .. } ==> told
                == path
        },
{
}

/// A document is read as a registry exactly if it is written in the one form that there is, under the one
/// schema that there is, with entries that are complete, whose roots are short enough, that are not too
/// many and are in order. The registry holds just what its entries spell, one by one.
pub proof fn only_a_registry_is_read_as_one(
    path: String,
    verdict: CanonicalVerdictV1,
    document: SerializedRegistryV1,
    result: Result<WorkspaceRegistryV1, RegistryErrorV1>,
)
    requires
        call_ensures(
            decode_registry_v1,
            (&path, verdict, Some::<SerializedRegistryV1>(document)),
            result,
        ),
    ensures
        result is Ok <==> {
            &&& verdict is Canonical
            &&& document.schema@ == "podway.registry/v1"@
            &&& document.workspaces@.len() <= 10_000
            &&& forall|i: int|
                0 <= i < document.workspaces@.len() ==> {
                    let entry = #[trigger] document.workspaces@[i];
                    &&& entry.workspace_uuid is Some
                    &&& entry.last_seen_at is Some
                    &&& entry.last_known_root matches Some(root) && vstd::utf8::encode_utf8(
                        root@,
                    ).len() <= 4_096
                }
            &&& forall|i: int, j: int|
                0 <= i < j < document.workspaces@.len() ==> text::text_before(
                    (#[trigger] document.workspaces@[i]).workspace_uuid->Some_0@,
                    (#[trigger] document.workspaces@[j]).workspace_uuid->Some_0@,
                )
        },
        result matches Ok(registry) ==> registry@.len() == document.workspaces@.len() && forall|
            i: int,
        |
            0 <= i < registry@.len() ==> {
                let entry = #[trigger] registry@[i];
                &&& Some(entry.workspace_uuid) == document.workspaces@[i].workspace_uuid
                &&& Some(entry.last_known_root) == document.workspaces@[i].last_known_root
                &&& Some(entry.last_seen_at) == document.workspaces@[i].last_seen_at
            },
        result matches Err(error) ==> (error matches RegistryErrorV1::InvalidRegistryDocument {
            path: told,
            violation,
        } && told == path && {
            &&& violation is InvalidJson <==> verdict is InvalidJson
            &&& violation is NonCanonicalJson <==> verdict is NonCanonical
            &&& violation is UnsupportedSchema <==> verdict is Canonical && document.schema@
                != "podway.registry/v1"@
        }),
{
    let entries = document.workspaces@;
    let spelled = spelled_entries(entries);
    if first_entry_violation(entries) is None {
        entries_without_violation_are_valid(entries);
        assert forall|i: int| 0 <= i < entries.len() implies {
            let entry = #[trigger] entries[i];
            &&& entry.workspace_uuid is Some
            &&& entry.last_seen_at is Some
            &&& entry.last_known_root matches Some(root) && registry::root_fits(root@)
        } by {
            assert(entry_violation(entries[i]) is None);
        }
        if registry::strictly_sorted(spelled) {
            assert forall|i: int, j: int| 0 <= i < j < entries.len() implies text::text_before(
                (#[trigger] entries[i]).workspace_uuid->Some_0@,
                (#[trigger] entries[j]).workspace_uuid->Some_0@,
            ) by {
                assert(spelled[i].workspace_uuid == entries[i].workspace_uuid->Some_0);
                assert(spelled[j].workspace_uuid == entries[j].workspace_uuid->Some_0);
            }
        }
    } else {
        an_invalid_entry_is_there(entries);
    }
    if forall|i: int, j: int|
        0 <= i < j < entries.len() ==> text::text_before(
            (#[trigger] entries[i]).workspace_uuid->Some_0@,
            (#[trigger] entries[j]).workspace_uuid->Some_0@,
        ) {
        assert forall|i: int, j: int| 0 <= i < j < spelled.len() implies text::text_before(
            (#[trigger] spelled[i]).workspace_uuid@,
            (#[trigger] spelled[j]).workspace_uuid@,
        ) by {
            assert(spelled[i].workspace_uuid == entries[i].workspace_uuid->Some_0);
            assert(spelled[j].workspace_uuid == entries[j].workspace_uuid->Some_0);
        }
        assert(registry::strictly_sorted(spelled));
    }
}

proof fn an_invalid_entry_is_there(entries: Seq<SerializedEntryV1>)
    requires
        first_entry_violation(entries) is Some,
    ensures
        exists|i: int|
            0 <= i < entries.len() && entry_violation(#[trigger] entries[i]) is Some,
        first_entry_violation(entries) matches Some(violation) && (violation is InvalidShape
            || violation is InvalidWorkspaceRoot || violation is InvalidTimestamp
            || violation is InvalidEntryOrder),
    decreases entries.len(),
{
    if entries.len() > 0 {
        let before = entries.drop_last();
        if first_entry_violation(before) is Some {
            an_invalid_entry_is_there(before);
            let i = choose|i: int|
                0 <= i < before.len() && entry_violation(#[trigger] before[i]) is Some;
            assert(entry_violation(entries[i]) is Some);
        } else {
            assert(entry_violation(entries[entries.len() - 1]) is Some);
        }
    }
}

/// A registry is written under its schema, entry by entry.
pub proof fn a_registry_is_written_entry_by_entry(
    registry: WorkspaceRegistryV1,
    document: SerializedRegistryV1,
)
    requires
        call_ensures(encode_registry_v1, (&registry,), document),
    ensures
        document.schema@ == "podway.registry/v1"@,
        document.workspaces@.len() == registry@.len(),
        forall|i: int|
            0 <= i < registry@.len() ==> {
                let entry = #[trigger] registry@[i];
                &&& document.workspaces@[i].workspace_uuid == Some(entry.workspace_uuid)
                &&& document.workspaces@[i].last_known_root == Some(entry.last_known_root)
                &&& document.workspaces@[i].last_seen_at == Some(entry.last_seen_at)
            },
{
}

/// Whether steps of publishing a document were taken one after the other from the first, each because the
/// one before it succeeded.
pub open spec fn is_publication(steps: Seq<RegistryPublicationStepV1>) -> bool {
    &&& steps.len() > 0
    &&& steps[0] is CreateTemporary
    &&& forall|i: int|
        #![trigger steps[i]]
        0 <= i < steps.len() - 1 ==> call_ensures(
            registry_publication_after,
            (steps[i], true),
            RegistryPublicationV1::Continue(steps[i + 1]),
        )
}

/// A document takes its place only after it was written and synced, and is published only after that: the
/// steps come one after the other, each in its place.
pub proof fn a_document_is_synced_before_it_takes_its_place(
    steps: Seq<RegistryPublicationStepV1>,
    place: int,
    next: RegistryPublicationV1,
)
    requires
        is_publication(steps),
        0 <= place < steps.len(),
        call_ensures(registry_publication_after, (steps[place], true), next),
    ensures
        steps[place] is CreateTemporary <==> place == 0,
        steps[place] is WriteTemporary <==> place == 1,
        steps[place] is SyncTemporary <==> place == 2,
        steps[place] is FailpointBeforeRename <==> place == 3,
        steps[place] is Rename <==> place == 4,
        steps[place] is FailpointAfterRename <==> place == 5,
        steps[place] is SyncParent <==> place == 6,
        next is Published <==> place == 6,
        next is Continue <==> place < 6,
    decreases place,
{
    if place > 0 {
        a_document_is_synced_before_it_takes_its_place(
            steps,
            place - 1,
            RegistryPublicationV1::Continue(steps[place]),
        );
        assert(call_ensures(
            registry_publication_after,
            (steps[place - 1], true),
            RegistryPublicationV1::Continue(steps[place - 1 + 1]),
        ));
    }
}

/// A publication that fails is abandoned, and its temporary file removed exactly if it was there and had
/// not taken the place of the document.
pub proof fn an_abandoned_publication_leaves_no_temporary_file(
    step: RegistryPublicationStepV1,
    next: RegistryPublicationV1,
)
    requires
        call_ensures(registry_publication_after, (step, false), next),
    ensures
        next matches RegistryPublicationV1::Abandon { remove_temporary } && (remove_temporary <==> !(
        step is CreateTemporary || step is FailpointAfterRename || step is SyncParent)),
{
}

} // verus!
