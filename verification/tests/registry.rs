//! The registry of workspaces, its document, and how the document is published.

use podway_daemon::observability::{EventCategoryV1, EventNoticeV1, SeverityV1};
use podway_daemon::registry::{
    RegistryDocumentViolationV1, RegistryErrorV1, RegistryFailpointActionV1, RegistryFailpointV1,
    RegistryPathViolationV1, WorkspaceRegistryEntryV1, WorkspaceRegistryV1,
    WorkspaceRegistryValidationErrorV1, MAX_WORKSPACE_REGISTRY_BYTES_V1,
    MAX_WORKSPACE_REGISTRY_ENTRIES_V1, MAX_WORKSPACE_ROOT_TEXT_BYTES_V1,
    WORKSPACE_REGISTRY_SCHEMA_V1,
};
use podway_daemon::registry_store::{
    decode_registry_v1, encode_registry_v1, locked_result, notice_of_load,
    notice_of_locked_operation, notice_of_publication, registry_publication_after,
    temporary_creation_after, temporary_file_name, validate_file_v1, validate_parent_v1,
    validate_registry_length, CanonicalVerdictV1, FileIdentityV1, FileMetadataV1,
    RegistryFileRoleV1, RegistryInterruptionV1, RegistryPublicationStepV1, RegistryPublicationV1,
    RegistryStoreV1, SerializedEntryV1, SerializedRegistryV1, TemporaryAttemptV1,
    TemporaryCreationV1, TEMPORARY_NAME_ATTEMPTS_V1,
};

fn entry(uuid: &str, root: &str) -> WorkspaceRegistryEntryV1 {
    WorkspaceRegistryEntryV1::new(uuid.to_owned(), root.to_owned(), "t".to_owned()).unwrap()
}

fn names(registry: &WorkspaceRegistryV1) -> Vec<(String, String)> {
    registry
        .workspaces()
        .iter()
        .map(|entry| (entry.workspace_uuid().clone(), entry.last_known_root().clone()))
        .collect()
}

fn named(pairs: &[(&str, &str)]) -> Vec<(String, String)> {
    pairs
        .iter()
        .map(|(uuid, root)| ((*uuid).to_owned(), (*root).to_owned()))
        .collect()
}

#[test]
fn a_registry_is_strictly_sorted_and_bounded() {
    let registry = WorkspaceRegistryV1::new(vec![entry("a", "/one"), entry("b", "/two")]).unwrap();
    assert_eq!(registry.lookup("b").unwrap().last_known_root(), "/two");
    assert!(registry.lookup("c").is_none());
    for unsorted in [
        vec![entry("b", "/two"), entry("a", "/one")],
        vec![entry("a", "/one"), entry("a", "/two")],
    ] {
        assert_eq!(
            WorkspaceRegistryV1::new(unsorted).unwrap_err(),
            WorkspaceRegistryValidationErrorV1::WorkspacesNotStrictlySorted
        );
    }
    let many: Vec<_> = (0..=MAX_WORKSPACE_REGISTRY_ENTRIES_V1)
        .map(|number| entry(&format!("{number:05}"), "/many"))
        .collect();
    let refused = WorkspaceRegistryV1::new(many).unwrap_err();
    assert_eq!(
        refused,
        WorkspaceRegistryValidationErrorV1::TooManyWorkspaces {
            maximum: 10_000,
            actual: 10_001
        }
    );
    assert_eq!(
        refused.message(),
        "registry has 10001 workspaces, maximum is 10000"
    );
}

#[test]
fn the_length_of_a_root_is_counted_in_bytes() {
    let fits = "é".repeat(MAX_WORKSPACE_ROOT_TEXT_BYTES_V1 / 2);
    assert!(WorkspaceRegistryEntryV1::new("a".to_owned(), fits.clone(), "t".to_owned()).is_ok());
    let refused =
        WorkspaceRegistryEntryV1::new("a".to_owned(), fits + "x", "t".to_owned()).unwrap_err();
    assert_eq!(
        refused.message(),
        "workspace root text is 4097 bytes, maximum is 4096"
    );
}

#[test]
fn a_refresh_keeps_the_root_and_a_move_changes_it() {
    let mut registry = WorkspaceRegistryV1::empty();
    for (uuid, root) in [("m", "/m"), ("a", "/a"), ("z", "/z")] {
        registry
            .insert_or_refresh(uuid.to_owned(), root.to_owned(), "first".to_owned())
            .unwrap();
    }
    assert_eq!(names(&registry), named(&[("a", "/a"), ("m", "/m"), ("z", "/z")]));
    registry
        .insert_or_refresh("m".to_owned(), "/m".to_owned(), "again".to_owned())
        .unwrap();
    assert_eq!(registry.lookup("m").unwrap().last_seen_at(), "again");
    let conflict = registry
        .insert_or_refresh("m".to_owned(), "/n".to_owned(), "later".to_owned())
        .unwrap_err();
    assert_eq!(
        conflict.message(),
        "workspace m is registered at /m, not /n"
    );
    assert_eq!(registry.lookup("m").unwrap().last_seen_at(), "again");

    registry
        .move_workspace(
            &"m".to_owned(),
            &"/m".to_owned(),
            "/n".to_owned(),
            "moved".to_owned(),
        )
        .unwrap();
    assert_eq!(registry.lookup("m").unwrap().last_known_root(), "/n");
    assert!(registry
        .move_workspace(
            &"m".to_owned(),
            &"/m".to_owned(),
            "/o".to_owned(),
            "moved".to_owned()
        )
        .is_err());
    assert_eq!(
        registry
            .move_workspace(
                &"q".to_owned(),
                &"/q".to_owned(),
                "/r".to_owned(),
                "moved".to_owned()
            )
            .unwrap_err()
            .message(),
        "workspace q is not registered"
    );
    assert_eq!(registry.remove("a").unwrap().workspace_uuid(), "a");
    assert_eq!(registry.remove("a"), None);
    assert_eq!(names(&registry), named(&[("m", "/n"), ("z", "/z")]));
}

#[test]
fn a_reset_replaces_a_workspace_once_and_refreshes_afterwards() {
    let mut registry =
        WorkspaceRegistryV1::new(vec![entry("a", "/one"), entry("b", "/two")]).unwrap();
    let replace = |registry: &mut WorkspaceRegistryV1, seen: &str| {
        registry.replace_for_reset(
            &"a".to_owned(),
            "c".to_owned(),
            "/one".to_owned(),
            seen.to_owned(),
        )
    };
    replace(&mut registry, "reset").unwrap();
    assert_eq!(names(&registry), named(&[("b", "/two"), ("c", "/one")]));
    replace(&mut registry, "once more").unwrap();
    assert_eq!(names(&registry), named(&[("b", "/two"), ("c", "/one")]));
    assert_eq!(registry.lookup("c").unwrap().last_seen_at(), "once more");
    assert!(registry
        .replace_for_reset(
            &"b".to_owned(),
            "d".to_owned(),
            "/elsewhere".to_owned(),
            "t".to_owned()
        )
        .is_err());
    assert!(registry
        .replace_for_reset(
            &"x".to_owned(),
            "y".to_owned(),
            "/three".to_owned(),
            "t".to_owned()
        )
        .is_err());
    assert_eq!(names(&registry), named(&[("b", "/two"), ("c", "/one")]));
}

#[test]
fn a_written_registry_is_read_back_as_it_was() {
    let registry =
        WorkspaceRegistryV1::new(vec![entry("a", "/one"), entry("b", "/two")]).unwrap();
    let document = encode_registry_v1(&registry);
    assert_eq!(document.schema, "podway.registry/v1");
    assert_eq!(
        decode_registry_v1(
            &"/r".to_owned(),
            CanonicalVerdictV1::Canonical,
            Some(document)
        ),
        Ok(registry)
    );
}

#[test]
fn documents_are_refused_for_what_is_wrong_with_them() {
    let valid = SerializedEntryV1 {
        workspace_uuid: Some("a".to_owned()),
        last_known_root: Some("/one".to_owned()),
        last_seen_at: Some("t".to_owned()),
    };
    let decode = |verdict, schema: &str, workspaces: Option<Vec<SerializedEntryV1>>| {
        let refused = decode_registry_v1(
            &"/r".to_owned(),
            verdict,
            workspaces.map(|workspaces| SerializedRegistryV1 {
                schema: schema.to_owned(),
                workspaces,
            }),
        )
        .unwrap_err();
        match refused {
            RegistryErrorV1::InvalidRegistryDocument { path, violation } => {
                assert_eq!(path, "/r");
                violation
            }
            other => panic!("unexpected {other:?}"),
        }
    };
    let schema = WORKSPACE_REGISTRY_SCHEMA_V1;
    let canonical = CanonicalVerdictV1::Canonical;
    assert_eq!(
        decode(CanonicalVerdictV1::InvalidJson, schema, None),
        RegistryDocumentViolationV1::InvalidJson
    );
    assert_eq!(
        decode(CanonicalVerdictV1::NonCanonical, schema, Some(vec![])),
        RegistryDocumentViolationV1::NonCanonicalJson
    );
    assert_eq!(
        decode(canonical, schema, None),
        RegistryDocumentViolationV1::InvalidShape
    );
    assert_eq!(
        decode(canonical, "podway.registry/v2", Some(vec![])),
        RegistryDocumentViolationV1::UnsupportedSchema
    );
    let mut unnamed = valid.clone();
    unnamed.workspace_uuid = None;
    assert_eq!(
        decode(canonical, schema, Some(vec![unnamed])),
        RegistryDocumentViolationV1::InvalidShape
    );
    let mut rootless = valid.clone();
    rootless.last_known_root = None;
    assert_eq!(
        decode(canonical, schema, Some(vec![rootless])),
        RegistryDocumentViolationV1::InvalidWorkspaceRoot
    );
    let mut timeless = valid.clone();
    timeless.last_seen_at = None;
    assert_eq!(
        decode(canonical, schema, Some(vec![timeless])),
        RegistryDocumentViolationV1::InvalidTimestamp
    );
    assert_eq!(
        decode(canonical, schema, Some(vec![valid.clone(), valid])),
        RegistryDocumentViolationV1::InvalidEntryOrder
    );
    assert_eq!(
        RegistryDocumentViolationV1::InvalidEntryOrder.message(),
        "has invalid workspace ordering or bounds"
    );
}

fn metadata(is_directory: bool, mode: u32) -> FileMetadataV1 {
    FileMetadataV1 {
        is_symlink: false,
        is_directory,
        is_regular_file: !is_directory,
        owner_uid: 1000,
        mode,
        device: 1,
        inode: 2,
    }
}

#[test]
fn registry_files_are_private_to_the_current_user() {
    let path = "/r".to_owned();
    assert_eq!(
        validate_parent_v1(&path, &metadata(true, 0o40700), 1000),
        Ok(())
    );
    assert_eq!(
        validate_parent_v1(&path, &metadata(true, 0o40755), 1000)
            .unwrap_err()
            .message(),
        "registry parent /r has mode 755, expected 700"
    );
    assert_eq!(
        validate_parent_v1(&path, &metadata(false, 0o600), 1000),
        Err(RegistryErrorV1::UnsafeRegistryParent {
            path: path.clone(),
            violation: RegistryPathViolationV1::NotDirectory
        })
    );
    let role = RegistryFileRoleV1::Registry;
    assert_eq!(
        validate_file_v1(role, &path, &metadata(false, 0o100600), 1000),
        Ok(())
    );
    assert_eq!(
        validate_file_v1(role, &path, &metadata(false, 0o600), 7)
            .unwrap_err()
            .message(),
        "registry file /r has owner UID 1000, expected current UID 7"
    );
    let mut link = metadata(false, 0o600);
    link.is_symlink = true;
    assert_eq!(
        validate_file_v1(RegistryFileRoleV1::Lock, &path, &link, 1000)
            .unwrap_err()
            .message(),
        "registry lock /r is a symlink"
    );
    assert_eq!(
        validate_file_v1(
            RegistryFileRoleV1::Temporary,
            &path,
            &metadata(true, 0o700),
            1000
        )
        .unwrap_err()
        .message(),
        "registry temporary /r is not a regular file"
    );
    let identity = FileIdentityV1::from_metadata(&metadata(false, 0o600));
    assert!(identity.owns(&metadata(false, 0o644)));
    let mut replaced = metadata(false, 0o600);
    replaced.inode = 3;
    assert!(!identity.owns(&replaced));
    assert_eq!(
        validate_registry_length(&path, MAX_WORKSPACE_REGISTRY_BYTES_V1),
        Ok(())
    );
    assert_eq!(
        validate_registry_length(&path, 4_194_305)
            .unwrap_err()
            .message(),
        "registry /r is 4194305 bytes, maximum is 4194304"
    );
}

#[test]
fn a_publication_removes_its_temporary_until_it_was_renamed() {
    let mut step = RegistryPublicationStepV1::CreateTemporary;
    let mut removes = Vec::new();
    loop {
        match registry_publication_after(step, false) {
            RegistryPublicationV1::Abandon { remove_temporary } => removes.push(remove_temporary),
            other => panic!("unexpected {other:?}"),
        }
        match registry_publication_after(step, true) {
            RegistryPublicationV1::Continue(next) => step = next,
            RegistryPublicationV1::Published => break,
            other => panic!("unexpected {other:?}"),
        }
    }
    assert_eq!(step, RegistryPublicationStepV1::SyncParent);
    assert_eq!(removes, vec![false, true, true, true, true, false, false]);
}

#[test]
fn temporary_names_are_tried_a_limited_number_of_times() {
    assert_eq!(
        temporary_file_name(42, 7),
        ".podway-registry-v1-42-7.tmp"
    );
    let parent = "/state".to_owned();
    assert_eq!(
        temporary_creation_after(
            TEMPORARY_NAME_ATTEMPTS_V1 - 1,
            TemporaryAttemptV1::NameTaken,
            &parent
        ),
        TemporaryCreationV1::TryAgain
    );
    assert_eq!(
        temporary_creation_after(
            TEMPORARY_NAME_ATTEMPTS_V1,
            TemporaryAttemptV1::NameTaken,
            &parent
        ),
        TemporaryCreationV1::Failed(RegistryErrorV1::TemporaryNameExhausted {
            parent: parent.clone()
        })
    );
    assert_eq!(
        temporary_creation_after(1, TemporaryAttemptV1::Created, &parent),
        TemporaryCreationV1::Created
    );
    assert_eq!(
        temporary_creation_after(
            1,
            TemporaryAttemptV1::Failed(RegistryErrorV1::InProcessLockPoisoned),
            &parent
        ),
        TemporaryCreationV1::Failed(RegistryErrorV1::InProcessLockPoisoned)
    );
}

#[test]
fn stores_know_their_paths_and_their_failpoints() {
    let store = RegistryStoreV1::new("/state/registry.json".to_owned());
    assert_eq!(store.registry_path(), "/state/registry.json");
    assert_eq!(
        store.parent_directory(Some("/state".to_owned())),
        Ok("/state".to_owned())
    );
    assert_eq!(
        store.parent_directory(None).unwrap_err().message(),
        "registry path /state/registry.json has no parent"
    );
    assert!(store.lock_name(None).is_err());
    assert!(store
        .lock_name(Some("registry.json"))
        .unwrap()
        .contains("registry.json"));
    assert_eq!(
        store.trigger_failpoint(RegistryFailpointV1::BeforeRename),
        Ok(RegistryInterruptionV1::Proceed)
    );
    let failing = RegistryStoreV1::with_failpoint(
        "/r".to_owned(),
        RegistryFailpointV1::BeforeRename,
        RegistryFailpointActionV1::ReturnError,
    );
    assert_eq!(
        failing
            .trigger_failpoint(RegistryFailpointV1::BeforeRename)
            .unwrap_err()
            .message(),
        "registry failpoint BeforeRename triggered"
    );
    assert_eq!(
        failing.trigger_failpoint(RegistryFailpointV1::AfterRenameBeforeParentSync),
        Ok(RegistryInterruptionV1::Proceed)
    );
    let barrier = RegistryStoreV1::with_failpoint(
        "/r".to_owned(),
        RegistryFailpointV1::AfterRenameBeforeParentSync,
        RegistryFailpointActionV1::Barrier,
    );
    assert_eq!(
        barrier.trigger_failpoint(RegistryFailpointV1::AfterRenameBeforeParentSync),
        Ok(RegistryInterruptionV1::WaitAtBarrier)
    );
}

#[test]
fn a_lock_that_could_not_be_released_is_told_whatever_happened() {
    fn release<T>() -> Result<T, RegistryErrorV1> {
        Err(RegistryErrorV1::LockRelease {
            path: "/lock".to_owned(),
            source: "busy".to_owned(),
        })
    }
    assert_eq!(locked_result(Ok(1_u8), Ok(())), Ok(1));
    assert_eq!(
        locked_result(Ok(1_u8), release()).unwrap_err().message(),
        "cannot unlock registry /lock: busy"
    );
    assert_eq!(
        locked_result::<u8>(Err(RegistryErrorV1::InProcessLockPoisoned), release()),
        release()
    );
    assert_eq!(
        locked_result::<u8>(Err(RegistryErrorV1::InProcessLockPoisoned), Ok(())),
        Err(RegistryErrorV1::InProcessLockPoisoned)
    );
}

#[test]
fn the_registry_is_noticed_when_it_is_read_refused_and_published() {
    let notice = |category, severity| EventNoticeV1 { category, severity };
    let warning = notice(EventCategoryV1::MigrationOrIntegrity, SeverityV1::Warn);
    assert_eq!(
        notice_of_load(true),
        notice(EventCategoryV1::MigrationOrIntegrity, SeverityV1::Debug)
    );
    assert_eq!(notice_of_load(false), warning);
    assert_eq!(notice_of_locked_operation(true), None);
    assert_eq!(notice_of_locked_operation(false), Some(warning));
    let after = |step, succeeded| notice_of_publication(registry_publication_after(step, succeeded));
    assert_eq!(
        after(RegistryPublicationStepV1::SyncParent, true),
        Some(notice(EventCategoryV1::MoveOrRepair, SeverityV1::Info))
    );
    assert_eq!(after(RegistryPublicationStepV1::SyncParent, false), None);
    assert_eq!(after(RegistryPublicationStepV1::Rename, true), None);
}
