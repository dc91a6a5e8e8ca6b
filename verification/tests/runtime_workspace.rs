//! Activated workspaces: their leases, their Stores, their activation, and their resets.

use podway_daemon::registry::{
    RegistryErrorV1, WorkspaceRegistryEntryV1, WorkspaceRegistryV1,
};
use podway_daemon::registry_store::RegistryStoreV1;
use podway_daemon::runtime_workspace::activation::{
    refresh_registry_metadata, require_bootstrap_worktree, require_marker_clear, revalidate_scheduler,
    revalidate_scheduler_database, runtime_directory_path, validate_pre_open_binding,
    ActivationEventV1, ActivationStepV1, ActivationV1, DatabaseLocationV1, PreviousRootErrorV1,
    ResolvedWorkspaceV1, WorkspaceSchedulerRevalidationV1,
};
use podway_daemon::runtime_workspace::config::{
    admit_workspace_config_bytes, check_config_file, config_read_limit, ConfigErrorV1,
    ConfigRefusalV1,
};
use podway_daemon::runtime_workspace::context::{
    context_requires_rebind, AdmittedConfigV1, DatabaseFileIdentityV1, StoreOptionsV1,
    WorkspaceSchedulerContextInputV1, WorkspaceSchedulerContextV1,
    WorkspaceSchedulerCoordinationStateV1,
};
use podway_daemon::runtime_workspace::evidence::{same_evidence, same_git_root_evidence, GitEvidenceV1};
use podway_daemon::runtime_workspace::maintenance::{
    WorkspaceMaintenanceCoordinatorV1, WorkspaceMaintenanceKeyV1,
    WorkspaceSchedulerRetirementBindingV1,
};
use podway_daemon::runtime_workspace::readonly::{
    resolve_existing_readonly, WorkspaceRegistryReadFacadeV1, WorkspaceRuntimeObservationV1,
};
use podway_daemon::runtime_workspace::reset::{
    crash_boundary_after, is_old_scheduler, preparation_scheduler, registered_reset_source,
    registered_reset_source_identity, require_scheduler_retired_for_reset,
    require_source_in_worktree, reset_seed_request, reset_seed_requires_fixed_replacement,
    reset_source_after_marker, reset_source_step, revalidate_reset_registry_predecessor,
    revalidate_reset_source_authority, validate_resume_request, PreparationSchedulerV1,
    PreparedResetV1, ResetAllCrashBoundaryV1, ResetCompletionV1, ResetEventV1,
    ResetSourceAuthorityV1, ResetSourceStepV1, ResetStepV1, ResetStoreInspectionV1,
    UnavailableStoreV1,
};
use podway_daemon::runtime_workspace::store_slot::{
    next_token, refusal_error, StoreRefusalV1, WorkspaceStoreSlotTokenV1, WorkspaceStoreSlotV1,
    WorkspaceStoreStateV1,
};
use podway_daemon::runtime_workspace::{WorkspaceBindingV1, WorkspaceRuntimeErrorV1};
use podway_daemon::scheduler::{SchedulerGenerationV1, WorkspaceSchedulerKeyV1};
use podway_daemon::store::{
    DurableWorktreeIdentityV1, JobReceiptV1, PersistedGraphMutationFailureV2, StoreErrorV1,
    StoreUnavailableReasonV1,
};
use podway_daemon::workspace::{GitResolverErrorV1, ResetMarkerV1, WorkspaceResolutionErrorV1};
use std::cell::Cell;

const MAX_WORKSPACE_CONFIG_BYTES_V1: usize = 65_536;

fn digest(letter: &str) -> String {
    format!("sha256:{}", letter.repeat(64))
}

fn busy() -> StoreErrorV1 {
    StoreErrorV1::StorageUnavailableV1 {
        reason: StoreUnavailableReasonV1::Busy,
    }
}

#[test]
fn real_store_slot_close_failpoint_executes_once_and_caches_the_exact_failure() {
    let close_count = Cell::new(0_u64);
    let close = |_store: &str| {
        close_count.set(close_count.get() + 1);
        Err(busy())
    };
    let mut slot = WorkspaceStoreSlotV1::new("Store", next_token(0).unwrap());
    assert_eq!(slot.open_store(), Ok(&"Store"));
    assert_eq!(slot.close_result(), None);

    assert!(!slot.close_for_maintenance(&close));
    assert_eq!(slot.close_result(), Some(&Err(busy())));
    assert!(!slot.close_for_maintenance(&close));
    assert_eq!(slot.close_result(), Some(&Err(busy())));
    assert_eq!(
        close_count.get(),
        1,
        "the Store close executes once before its exact failpoint result is cached"
    );
    assert_eq!(slot.open_store(), Err(StoreRefusalV1::CloseFailed(&busy())));
}

#[test]
fn a_store_that_could_not_be_closed_fails_with_the_same_error_every_time() {
    let failure = || StoreErrorV1::PrimaryOperationAndCleanupFailureV1 {
        primary: Box::new(StoreErrorV1::AdmissionCommittedV1 {
            receipt: JobReceiptV1 {
                identity_sequence: 3,
                job_id: "job".to_owned(),
                request_digest: digest("a"),
            },
            source: Box::new(StoreErrorV1::ProcedureV2PreconditionFailedV1 {
                failure: PersistedGraphMutationFailureV2::OptionNotAllowed {
                    graph_node_id: "node".to_owned(),
                    option_id: "third".to_owned(),
                    allowed_option_ids: vec!["first".to_owned(), "second".to_owned()],
                },
            }),
        }),
        cleanup: Box::new(StoreErrorV1::SessionIdentityConflictV1 {
            expected: Some("session".to_owned()),
            actual: None,
        }),
    };
    let mut slot = WorkspaceStoreSlotV1::new((), next_token(0).unwrap());
    assert!(!slot.close_for_maintenance(|()| Err(failure())));
    for _ in 0..2 {
        assert_eq!(refusal_error(slot.open_store().unwrap_err()), failure());
    }
}

#[test]
fn a_store_that_was_closed_is_not_used_again() {
    let mut slot = WorkspaceStoreSlotV1::new(7_u8, next_token(41).unwrap());
    assert_eq!(slot.token, WorkspaceStoreSlotTokenV1 { number: 42 });
    assert!(slot.close_for_maintenance(|_| Ok(())));
    assert_eq!(slot.open_store(), Err(StoreRefusalV1::Closed));
    assert_eq!(
        refusal_error(slot.open_store().unwrap_err()),
        StoreErrorV1::StorageUnavailableV1 {
            reason: StoreUnavailableReasonV1::Recovery
        }
    );
    assert_eq!(next_token(u64::MAX), None);
    let unavailable = WorkspaceStoreSlotV1::<u8>::unavailable_for_reset_preparation(
        WorkspaceStoreSlotTokenV1 { number: 1 },
    );
    assert!(matches!(
        unavailable.state,
        WorkspaceStoreStateV1::Closed(Err(StoreErrorV1::StorageUnavailableV1 {
            reason: StoreUnavailableReasonV1::Recovery
        }))
    ));
}

#[test]
fn same_key_admission_preparation_and_activation_are_mutually_exclusive() {
    let mut coordinator = WorkspaceMaintenanceCoordinatorV1::new();
    let key = WorkspaceMaintenanceKeyV1 {
        common_directory_fingerprint: digest("a"),
        worktree_administration_fingerprint: digest("b"),
    };

    assert!(
        coordinator.acquire(&key),
        "reset maintenance must acquire exclusivity"
    );
    assert!(
        !coordinator.acquire_activation(&key),
        "activation must not pass while reset maintenance owns the lifecycle"
    );
    coordinator.release(&key);

    assert!(
        coordinator.acquire_activation(&key),
        "activation must hold a shared lifecycle lease"
    );
    assert!(
        !coordinator.acquire(&key),
        "reset maintenance must not pass while activation publishes its scheduler"
    );
    coordinator.release_activation(&key);
    assert!(
        coordinator.acquire_claim(&key),
        "ordinary admission must register a same-key claim"
    );
    assert!(
        !coordinator.acquire(&key),
        "reset preparation must not begin while same-key admission owns a claim"
    );
    coordinator.release_claim(&key);

    assert!(
        coordinator.acquire(&key),
        "reset maintenance must acquire after the admission releases"
    );
    assert!(
        !coordinator.acquire_claim(&key),
        "same-key admission must not begin after reset preparation acquires maintenance"
    );
    coordinator.release(&key);
}

#[test]
fn concurrent_claims_and_activations_cannot_cross_maintenance_boundaries() {
    let mut coordinator = WorkspaceMaintenanceCoordinatorV1::new();
    let key = WorkspaceMaintenanceKeyV1 {
        common_directory_fingerprint: digest("c"),
        worktree_administration_fingerprint: digest("d"),
    };

    assert!(
        coordinator.acquire(&key),
        "maintenance must acquire before concurrent contenders"
    );
    assert!(!coordinator.acquire_claim(&key));
    assert!(!coordinator.acquire_activation(&key));
    coordinator.release(&key);

    assert!(
        coordinator.acquire_claim(&key),
        "claim must acquire before maintenance"
    );
    assert!(
        !coordinator.acquire(&key),
        "maintenance cannot cross a live claim boundary"
    );
    coordinator.release_claim(&key);

    assert!(
        coordinator.acquire_activation(&key),
        "activation must acquire before maintenance"
    );
    assert!(
        !coordinator.acquire(&key),
        "maintenance cannot cross a live activation boundary"
    );
    coordinator.release_activation(&key);
    assert!(coordinator.acquire(&key));
}

#[test]
fn a_rebind_needs_the_only_activation_and_no_claim() {
    let mut coordinator = WorkspaceMaintenanceCoordinatorV1::new();
    let key = WorkspaceMaintenanceKeyV1 {
        common_directory_fingerprint: digest("c"),
        worktree_administration_fingerprint: digest("d"),
    };
    assert!(!coordinator.acquire_rebind(&key));
    assert!(coordinator.acquire_activation(&key));
    assert!(coordinator.acquire_activation(&key));
    assert!(!coordinator.acquire_rebind(&key));
    coordinator.release_activation(&key);
    assert!(coordinator.acquire_claim(&key));
    assert!(!coordinator.acquire_rebind(&key));
    coordinator.release_claim(&key);
    assert!(coordinator.acquire_rebind(&key));
    assert!(!coordinator.acquire_claim(&key));
    assert!(!coordinator.acquire_activation(&key));
    assert!(!coordinator.acquire(&key));
    coordinator.release_rebind(&key);
    coordinator.release_activation(&key);
    assert!(coordinator.acquire(&key));
    assert!(!coordinator.acquire(&key));
    assert!(!coordinator.acquire_claim(&key));
    assert!(!coordinator.acquire_activation(&key));
    assert!(!coordinator.acquire_rebind(&key));
    coordinator.release(&key);
    assert!(coordinator.acquire_activation(&key));
    coordinator.release_activation(&key);
    assert!(coordinator.acquire_claim(&key));
    let other = WorkspaceMaintenanceKeyV1 {
        common_directory_fingerprint: digest("e"),
        worktree_administration_fingerprint: digest("d"),
    };
    assert!(coordinator.acquire(&other));
    assert_eq!(coordinator.leases_of(&key).claims, 1);
}

fn source() -> DurableWorktreeIdentityV1 {
    DurableWorktreeIdentityV1 {
        common_dir_identity: digest("a"),
        workspace_uuid: "00000000-0000-4000-8000-000000005901".to_owned(),
        worktree_admin_identity: digest("b"),
    }
}

#[test]
fn retirement_receipts_are_bound_to_each_closed_store_slot() {
    let mut coordinator = WorkspaceMaintenanceCoordinatorV1::new();
    let source = source();
    let maintenance_key = WorkspaceMaintenanceKeyV1::from_durable_identity(&source);
    let key = WorkspaceSchedulerKeyV1::from_durable_identity(&source);
    let old = WorkspaceSchedulerRetirementBindingV1 {
        key: key.clone(),
        generation: SchedulerGenerationV1::initial(),
        source: source.clone(),
        store_slot: WorkspaceStoreSlotTokenV1 { number: 5_901 },
    };
    let current = WorkspaceSchedulerRetirementBindingV1 {
        key,
        generation: SchedulerGenerationV1::initial(),
        source: source.clone(),
        store_slot: WorkspaceStoreSlotTokenV1 { number: 5_902 },
    };
    coordinator.register_scheduler_generation(old.clone());
    coordinator.register_scheduler_generation(current.clone());
    coordinator.record_claims_stopped(&old);
    coordinator.record_work_drained(&old);
    let close: Result<(), StoreErrorV1> = Err(busy());
    coordinator.record_store_close_result(&old, close.is_ok());
    assert!(
        !coordinator.has_retirement_receipt(&maintenance_key, &source.workspace_uuid),
        "a cached close failure must not earn retirement credit"
    );
    coordinator.record_store_closed(&old);

    assert!(
        coordinator.has_retirement_receipt(&maintenance_key, &source.workspace_uuid),
        "the old slot earns a receipt only after stop, drain, and close"
    );
    assert!(
        coordinator.has_unclosed_generation(&maintenance_key),
        "closing an old slot must not credit the distinct current slot"
    );

    coordinator.record_store_closed(&current);
    assert!(
        coordinator.has_unclosed_generation(&maintenance_key),
        "close cannot be credited before stop and drain"
    );
    coordinator.record_claims_stopped(&current);
    coordinator.record_work_drained(&current);
    coordinator.record_store_closed(&current);
    assert!(!coordinator.has_unclosed_generation(&maintenance_key));
}

#[test]
fn only_its_own_record_of_a_slot_is_forgotten() {
    let mut coordinator = WorkspaceMaintenanceCoordinatorV1::new();
    let registered = WorkspaceSchedulerRetirementBindingV1 {
        key: WorkspaceSchedulerKeyV1::from_durable_identity(&source()),
        generation: SchedulerGenerationV1::initial(),
        source: source(),
        store_slot: WorkspaceStoreSlotTokenV1 { number: 3 },
    };
    coordinator.register_scheduler_generation(registered.clone());
    let mut another = registered.clone();
    another.generation = SchedulerGenerationV1::initial().next().unwrap();
    coordinator.unregister_scheduler_generation(&another);
    assert!(coordinator.has_unclosed_generation(&key()));
    coordinator.unregister_scheduler_generation(&registered);
    assert!(!coordinator.has_unclosed_generation(&key()));
}

#[test]
fn combined_reset_seed_cleanup_failure_is_not_replaceable() {
    let error = StoreErrorV1::PrimaryOperationAndCleanupFailureV1 {
        primary: Box::new(StoreErrorV1::NewerStateV1),
        cleanup: Box::new(busy()),
    };
    assert!(
        !reset_seed_requires_fixed_replacement(&error),
        "a failed cleanup must remain fatal even when the primary error is replaceable"
    );
    for error in [
        StoreErrorV1::NewerStateV1,
        StoreErrorV1::CorruptStateV1,
        StoreErrorV1::StorageIntegrityV1,
    ] {
        assert!(reset_seed_requires_fixed_replacement(&error));
    }
    assert!(!reset_seed_requires_fixed_replacement(&busy()));
}

struct GrowingReaderV1 {
    bytes: Vec<u8>,
    position: usize,
}

impl std::io::Read for GrowingReaderV1 {
    fn read(&mut self, buffer: &mut [u8]) -> Result<usize, std::io::Error> {
        let remaining = &self.bytes[self.position..];
        let copied = remaining.len().min(buffer.len());
        buffer[..copied].copy_from_slice(&remaining[..copied]);
        self.position += copied;
        Ok(copied)
    }
}

#[test]
fn config_read_rejects_post_metadata_growth_without_reading_past_the_limit() {
    let mut reader = GrowingReaderV1 {
        bytes: vec![b' '; MAX_WORKSPACE_CONFIG_BYTES_V1 + 2],
        position: 0,
    };
    let mut bytes = Vec::new();
    std::io::Read::read_to_end(
        &mut std::io::Read::take(
            &mut reader,
            config_read_limit(MAX_WORKSPACE_CONFIG_BYTES_V1),
        ),
        &mut bytes,
    )
    .expect("the bounded reader must read the permitted prefix");

    assert_eq!(bytes.len(), MAX_WORKSPACE_CONFIG_BYTES_V1 + 1);
    assert_eq!(reader.position, MAX_WORKSPACE_CONFIG_BYTES_V1 + 1);
    assert_eq!(
        admit_workspace_config_bytes(bytes, MAX_WORKSPACE_CONFIG_BYTES_V1),
        Err(ConfigErrorV1::InputTooLarge {
            maximum: MAX_WORKSPACE_CONFIG_BYTES_V1,
            actual: MAX_WORKSPACE_CONFIG_BYTES_V1 + 1,
        })
    );
}

#[test]
fn config_fifo_is_rejected_without_waiting_for_a_writer() {
    let (is_regular, length) = (false, 0);
    assert_eq!(
        check_config_file(is_regular, length, MAX_WORKSPACE_CONFIG_BYTES_V1),
        Err(ConfigRefusalV1::NotRegular)
    );
}

#[test]
fn a_configuration_is_a_regular_file_of_limited_length() {
    assert_eq!(check_config_file(true, 10, 10), Ok(10));
    assert_eq!(
        check_config_file(false, 10, 10),
        Err(ConfigRefusalV1::NotRegular)
    );
    assert_eq!(
        check_config_file(true, 11, 10),
        Err(ConfigRefusalV1::Admission(ConfigErrorV1::InputTooLarge {
            maximum: 10,
            actual: 11
        }))
    );
    assert_eq!(
        admit_workspace_config_bytes(vec![1, 2], 2),
        Ok(vec![1, 2])
    );
}

fn worktree() -> GitEvidenceV1 {
    GitEvidenceV1 {
        common_directory_fingerprint: digest("a"),
        worktree_administration_fingerprint: digest("b"),
        workspace_uuid: None,
        roots: "/work".to_owned(),
        kind: "linked".to_owned(),
        containment: "contained".to_owned(),
    }
}

fn marker(previous: &str, target: &str) -> ResetMarkerV1 {
    ResetMarkerV1 {
        operation_id: "operation".to_owned(),
        idempotency_key: "key".to_owned(),
        request_digest: "digest".to_owned(),
        previous_workspace_uuid: previous.to_owned(),
        target_workspace_uuid: target.to_owned(),
        submitted_at_ms: 11,
        response_request_id: Some("request".to_owned()),
    }
}

fn authority(registered: &str) -> ResetSourceAuthorityV1 {
    ResetSourceAuthorityV1 {
        worktree: worktree(),
        registry_previous_workspace_uuid: registered.to_owned(),
        persisted_identity: None,
        store_inspection: ResetStoreInspectionV1::Absent,
    }
}

fn key() -> WorkspaceMaintenanceKeyV1 {
    WorkspaceMaintenanceKeyV1 {
        common_directory_fingerprint: digest("a"),
        worktree_administration_fingerprint: digest("b"),
    }
}

fn begun(prepared: Option<ResetMarkerV1>) -> ResetCompletionV1 {
    ResetCompletionV1::begin(
        &key(),
        &key(),
        &worktree(),
        &authority("old"),
        prepared.map(|marker| PreparedResetV1 {
            previous_workspace_uuid: "old".to_owned(),
            marker,
            matches_source: true,
        }),
        None,
    )
    .unwrap()
}

#[test]
fn a_prepared_reset_destroys_only_after_its_marker() {
    let mut reset = begun(Some(marker("old", "new")));
    let mut course = Vec::new();
    let mut boundaries = Vec::new();
    while reset.step != ResetStepV1::Completed {
        let step = reset.step;
        course.push(step);
        let event = match step {
            ResetStepV1::ReadMarker => ResetEventV1::MarkerRead(None),
            _ => ResetEventV1::Succeeded,
        };
        if let Some(boundary) = crash_boundary_after(step, reset.database_was_removed) {
            boundaries.push(boundary);
        }
        reset = reset.advance(event).unwrap();
    }
    assert_eq!(
        course,
        vec![
            ResetStepV1::RevalidateSource,
            ResetStepV1::RevalidateBeforeMarker,
            ResetStepV1::ReadMarker,
            ResetStepV1::RequireRetiredBeforeMarker,
            ResetStepV1::PublishMarker,
            ResetStepV1::RevalidateBeforeWork,
            ResetStepV1::RemoveDatabase,
            ResetStepV1::SeedTarget,
            ResetStepV1::RevalidateBeforeRegistry,
            ResetStepV1::ReplaceRegistration,
            ResetStepV1::RemoveMarker,
            ResetStepV1::ResolveTarget,
            ResetStepV1::ActivateTarget,
        ]
    );
    assert_eq!(
        boundaries,
        vec![
            ResetAllCrashBoundaryV1::MarkerCreated,
            ResetAllCrashBoundaryV1::OldDatabaseDeleted,
            ResetAllCrashBoundaryV1::NewTargetDatabaseCreated,
        ]
    );
}

fn resumed() -> ResetCompletionV1 {
    begun(None)
        .advance(ResetEventV1::Succeeded)
        .unwrap()
        .advance(ResetEventV1::Succeeded)
        .unwrap()
        .advance(ResetEventV1::MarkerRead(Some(marker("old", "new"))))
        .unwrap()
}

#[test]
fn a_resumed_reset_verifies_its_target_before_it_destroys() {
    let reset = resumed();
    assert_eq!(reset.step, ResetStepV1::RequireRetiredAfterMarker);
    let required = reset.retirement_required().unwrap();
    assert_eq!(required.0, "old");
    assert!(required.1);
    let reset = reset
        .advance(ResetEventV1::Succeeded)
        .unwrap()
        .advance(ResetEventV1::Succeeded)
        .unwrap();
    assert_eq!(reset.step, ResetStepV1::SeedTarget);
    let kept = reset.clone().advance(ResetEventV1::Succeeded).unwrap();
    assert_eq!(kept.step, ResetStepV1::RevalidateBeforeRegistry);
    assert_eq!(
        reset.clone().advance(ResetEventV1::SeedRefused(busy())),
        Err(WorkspaceRuntimeErrorV1::Store(busy()))
    );
    let replaced = reset
        .advance(ResetEventV1::SeedRefused(StoreErrorV1::CorruptStateV1))
        .unwrap();
    assert_eq!(replaced.step, ResetStepV1::RevalidateBeforeReplacement);
    let replaced = replaced
        .advance(ResetEventV1::Succeeded)
        .unwrap()
        .advance(ResetEventV1::Succeeded)
        .unwrap();
    assert_eq!(replaced.step, ResetStepV1::SeedTarget);
    assert_eq!(
        replaced.advance(ResetEventV1::SeedRefused(StoreErrorV1::CorruptStateV1)),
        Err(WorkspaceRuntimeErrorV1::Store(StoreErrorV1::CorruptStateV1))
    );
}

#[test]
fn a_reset_refuses_what_is_not_its_own() {
    let other = WorkspaceMaintenanceKeyV1 {
        common_directory_fingerprint: digest("f"),
        worktree_administration_fingerprint: digest("b"),
    };
    assert_eq!(
        ResetCompletionV1::begin(&other, &key(), &worktree(), &authority("old"), None, None),
        Err(WorkspaceRuntimeErrorV1::MaintenanceInProgress)
    );
    assert_eq!(
        ResetCompletionV1::begin(
            &key(),
            &key(),
            &worktree(),
            &authority("old"),
            Some(PreparedResetV1 {
                previous_workspace_uuid: "older".to_owned(),
                marker: marker("old", "new"),
                matches_source: true,
            }),
            None
        ),
        Err(WorkspaceRuntimeErrorV1::ResetMarkerConflict)
    );
    let at_marker = |reset: ResetCompletionV1| {
        reset
            .advance(ResetEventV1::Succeeded)
            .unwrap()
            .advance(ResetEventV1::Succeeded)
            .unwrap()
    };
    let mut digest_changed = marker("old", "new");
    digest_changed.request_digest = "another".to_owned();
    assert_eq!(
        at_marker(begun(Some(marker("old", "new"))))
            .advance(ResetEventV1::MarkerRead(Some(digest_changed.clone()))),
        Err(WorkspaceRuntimeErrorV1::ResetIdempotencyConflict {
            existing: "another".to_owned(),
            requested: "digest".to_owned(),
        })
    );
    assert_eq!(
        at_marker(begun(Some(marker("old", "new"))))
            .advance(ResetEventV1::MarkerRead(Some(marker("old", "newer")))),
        Err(WorkspaceRuntimeErrorV1::ResetMarkerConflict)
    );
    assert_eq!(
        at_marker(begun(None)).advance(ResetEventV1::MarkerRead(None)),
        Err(WorkspaceRuntimeErrorV1::ResetMarkerConflict)
    );
    assert_eq!(
        at_marker(begun(None)).advance(ResetEventV1::MarkerRead(Some(marker("a", "b")))),
        Err(WorkspaceRuntimeErrorV1::ResetMarkerConflict)
    );
    assert_eq!(
        begun(None).advance(ResetEventV1::Failed(
            WorkspaceRuntimeErrorV1::ResetRegistryPredecessorStale
        )),
        Err(WorkspaceRuntimeErrorV1::ResetRegistryPredecessorStale)
    );
    assert_eq!(
        validate_resume_request(
            Some(&marker("old", "new")),
            &"old".to_owned(),
            &"key".to_owned(),
            &"digest".to_owned()
        ),
        Ok(())
    );
    assert_eq!(
        validate_resume_request(
            Some(&digest_changed),
            &"old".to_owned(),
            &"key".to_owned(),
            &"digest".to_owned()
        ),
        Err(WorkspaceRuntimeErrorV1::ResetIdempotencyConflict {
            existing: "another".to_owned(),
            requested: "digest".to_owned(),
        })
    );
    assert_eq!(
        validate_resume_request(
            None,
            &"old".to_owned(),
            &"key".to_owned(),
            &"digest".to_owned()
        ),
        Err(WorkspaceRuntimeErrorV1::ResetMarkerConflict)
    );
}

fn entry(uuid: &str, root: &str) -> WorkspaceRegistryEntryV1 {
    WorkspaceRegistryEntryV1::new(uuid.to_owned(), root.to_owned(), "t".to_owned()).unwrap()
}

#[test]
fn a_reset_starts_from_the_only_workspace_at_its_root() {
    let registry =
        WorkspaceRegistryV1::new(vec![entry("a", "/one"), entry("b", "/two"), entry("c", "/two")])
            .unwrap();
    assert_eq!(
        registered_reset_source(&registry, &"/one".to_owned())
            .unwrap()
            .workspace_uuid(),
        "a"
    );
    assert_eq!(
        registered_reset_source(&registry, &"/two".to_owned()).unwrap_err(),
        WorkspaceRuntimeErrorV1::ResetSourceAmbiguous
    );
    assert_eq!(
        registered_reset_source(&registry, &"/three".to_owned()).unwrap_err(),
        WorkspaceRuntimeErrorV1::ResetSourceNotRegistered
    );
    assert_eq!(
        revalidate_reset_registry_predecessor(&registry, &"/one".to_owned(), &"a".to_owned()),
        Ok(())
    );
    assert_eq!(
        revalidate_reset_registry_predecessor(&registry, &"/one".to_owned(), &"b".to_owned()),
        Err(WorkspaceRuntimeErrorV1::ResetRegistryPredecessorStale)
    );
}

#[test]
fn the_source_of_a_reset_is_found_whether_or_not_its_store_can_be_read() {
    assert_eq!(
        reset_source_step(Ok(source()), String::new()),
        ResetSourceStepV1::Inspected {
            persisted_identity: Some(source()),
            store_inspection: ResetStoreInspectionV1::Readable,
        }
    );
    assert_eq!(
        reset_source_step(
            Err(WorkspaceResolutionErrorV1::BindingInspection { source: busy() }),
            "busy".to_owned()
        ),
        ResetSourceStepV1::Inspected {
            persisted_identity: None,
            store_inspection: ResetStoreInspectionV1::Unreadable {
                error: "busy".to_owned()
            },
        }
    );
    assert_eq!(
        reset_source_step(
            Err(WorkspaceResolutionErrorV1::ExpectedWorkspaceUuidMismatch {
                expected: "old".to_owned(),
                actual: "new".to_owned(),
            }),
            String::new()
        ),
        ResetSourceStepV1::ReadMarker {
            expected: "old".to_owned(),
            actual: "new".to_owned(),
        }
    );
    assert_eq!(
        reset_source_after_marker(
            Some(&marker("old", "new")),
            &"old".to_owned(),
            "old".to_owned(),
            "new".to_owned()
        ),
        Ok(ResetStoreInspectionV1::Absent)
    );
    assert!(reset_source_after_marker(
        None,
        &"old".to_owned(),
        "old".to_owned(),
        "new".to_owned()
    )
    .is_err());
    let absent = authority("old");
    assert_eq!(absent.registry_previous_workspace_uuid(), "old");
    let routed = absent.routing_identity();
    assert_eq!(routed.workspace_uuid, "old");
    assert_eq!(routed.common_dir_identity, digest("a"));
    assert_eq!(
        absent.unavailable_store_proof(),
        Some(UnavailableStoreV1::Absent { source: routed })
    );
    let mut readable = authority("old");
    readable.store_inspection = ResetStoreInspectionV1::Readable;
    readable.persisted_identity = Some(source());
    assert_eq!(readable.unavailable_store_proof(), None);
    assert_eq!(readable.routing_identity(), source());
    assert_eq!(
        preparation_scheduler(&readable, false),
        PreparationSchedulerV1::Activate {
            workspace_uuid: source().workspace_uuid
        }
    );
    assert_eq!(
        preparation_scheduler(&absent, false),
        PreparationSchedulerV1::Unavailable
    );
    assert_eq!(
        preparation_scheduler(&absent, true),
        PreparationSchedulerV1::Active
    );
    assert_eq!(
        revalidate_reset_source_authority(&readable, &absent, &worktree()),
        Err(WorkspaceRuntimeErrorV1::ResetRegistryPredecessorStale)
    );
    assert_eq!(
        revalidate_reset_source_authority(&absent, &absent, &worktree()),
        Ok(())
    );
    assert_eq!(absent.persisted_identity(), None);
    assert_eq!(readable.persisted_identity(), Some(&source()));
    assert_eq!(
        *readable.store_inspection(),
        ResetStoreInspectionV1::Readable
    );
    assert_eq!(registered_reset_source_identity(&readable), Ok(source()));
    assert_eq!(
        registered_reset_source_identity(&absent),
        Err(WorkspaceRuntimeErrorV1::Resolution(
            WorkspaceResolutionErrorV1::ExistingBindingMissing
        ))
    );
    let mut elsewhere = worktree();
    elsewhere.roots = "/elsewhere".to_owned();
    assert_eq!(require_source_in_worktree(&absent, &worktree()), Ok(()));
    assert_eq!(
        require_source_in_worktree(&absent, &elsewhere),
        Err(WorkspaceRuntimeErrorV1::ResetSourceAmbiguous)
    );
    assert_eq!(require_bootstrap_worktree(&worktree(), &worktree()), Ok(()));
    assert_eq!(
        require_bootstrap_worktree(&worktree(), &elsewhere),
        Err(WorkspaceRuntimeErrorV1::MaintenanceInProgress)
    );
    let mut old = source();
    old.workspace_uuid = "old".to_owned();
    assert!(is_old_scheduler(&absent, &old, &worktree()));
    assert!(!is_old_scheduler(&absent, &source(), &worktree()));
}

#[test]
fn the_target_of_a_reset_begins_with_its_own_job() {
    let request = reset_seed_request(&marker("old", "new"), "/work".to_owned());
    assert_eq!(request.job_id, "operation");
    assert_eq!(request.submitted_at, 11);
    let context = request.response_context.unwrap();
    assert_eq!(context.request_id, "request");
    assert_eq!(context.command, "workspace.reset_all");
    assert_eq!(context.workspace_uuid, "new");
    assert_eq!(context.workspace_root, "/work");
    assert_eq!(context.workspace_sequence, 1);
    let mut unanswered = marker("old", "new");
    unanswered.response_request_id = None;
    assert_eq!(
        reset_seed_request(&unanswered, "/work".to_owned()).response_context,
        None
    );
}

#[test]
fn a_reset_waits_for_the_old_scheduler_to_retire() {
    let mut coordinator = WorkspaceMaintenanceCoordinatorV1::new();
    let uuid = source().workspace_uuid;
    assert_eq!(
        require_scheduler_retired_for_reset(&coordinator, &key(), &uuid, false),
        Ok(())
    );
    assert_eq!(
        require_scheduler_retired_for_reset(&coordinator, &key(), &uuid, true),
        Err(WorkspaceRuntimeErrorV1::ResetSchedulerRetirement)
    );
    let mut context = context();
    context.bind_maintenance_generation(
        &mut coordinator,
        WorkspaceSchedulerKeyV1::from_durable_identity(&source()),
        SchedulerGenerationV1::initial(),
    );
    assert_eq!(
        require_scheduler_retired_for_reset(&coordinator, &key(), &uuid, false),
        Err(WorkspaceRuntimeErrorV1::ResetSchedulerRetirement)
    );
    assert!(context.begin_claim(&mut coordinator));
    coordinator.release_claim(&key());
    context.retire(&mut coordinator, false);
    assert!(!context.begin_claim(&mut coordinator));
    assert!(coordinator.has_unclosed_generation(&key()));
    context.retire(&mut coordinator, true);
    assert_eq!(
        require_scheduler_retired_for_reset(&coordinator, &key(), &uuid, false),
        Ok(())
    );
    assert!(coordinator.has_retirement_receipt(&key(), &uuid));
}

fn context() -> WorkspaceSchedulerContextV1 {
    WorkspaceSchedulerContextV1::new(WorkspaceSchedulerContextInputV1 {
        binding: WorkspaceBindingV1 {
            identity: source(),
            last_validated_root: "/work".to_owned(),
        },
        database_path: "/work/.podway/runtime/state.sqlite3".to_owned(),
        database_identity: DatabaseFileIdentityV1 {
            device: 1,
            inode: 2,
        },
        runtime_directory_path: "/work/.podway/runtime".to_owned(),
        store_slot: WorkspaceStoreSlotTokenV1 { number: 9 },
        store_options: StoreOptionsV1 {
            queue_limit: 16,
            busy_timeout_ms: 100,
        },
        config: AdmittedConfigV1 {
            max_pending: 16,
            text: "config".to_owned(),
        },
        git_evidence: worktree(),
    })
}

#[test]
fn a_context_is_rebound_when_anything_that_it_works_with_changes() {
    let current = context();
    assert_eq!(current.workspace_root(), "/work");
    assert_eq!(current.queue_limit(), 16);
    assert!(!context_requires_rebind(&current, &context()));
    let mut other = context();
    other.config.text = "another".to_owned();
    assert!(context_requires_rebind(&current, &other));
    let mut other = context();
    other.database_identity.inode = 3;
    assert!(context_requires_rebind(&current, &other));
    let mut same = context();
    same.store_slot = WorkspaceStoreSlotTokenV1 { number: 10 };
    assert!(!context_requires_rebind(&current, &same));
}

#[test]
fn whoever_missed_a_notification_does_not_wait() {
    let mut state = WorkspaceSchedulerCoordinationStateV1::new();
    let observed = state.notification_version;
    assert!(state.waits_for_notification_after(observed));
    state.notify_after_authoritative_change();
    assert!(!state.waits_for_notification_after(observed));
    state.notification_version = u64::MAX;
    state.notify_after_authoritative_change();
    assert_eq!(state.notification_version, 0);
    let mut context = context();
    assert!(!context.recovery_required());
    context.mark_recovery_required();
    assert!(context.recovery_required());
}

fn resolved() -> ResolvedWorkspaceV1 {
    ResolvedWorkspaceV1 {
        store_identity: source(),
        workspace_root: "/work".to_owned(),
        database_path: "/work/.podway/runtime/state.sqlite3".to_owned(),
        worktree: worktree(),
        previous_root: Ok(None),
        relocated_from_prior_root: false,
    }
}

#[test]
fn a_binding_is_held_against_the_root_that_the_workspace_had() {
    let at = |root: &str| WorkspaceBindingV1 {
        identity: source(),
        last_validated_root: root.to_owned(),
    };
    let mut workspace = resolved();
    assert_eq!(validate_pre_open_binding(&workspace, &at("/work")), Ok(()));
    workspace.previous_root = Ok(Some("/before".to_owned()));
    assert_eq!(validate_pre_open_binding(&workspace, &at("/before")), Ok(()));
    assert_eq!(
        workspace.previous_root,
        Ok(Some("/before".to_owned())),
        "the resolved workspace is only read"
    );
    assert_eq!(
        validate_pre_open_binding(&workspace, &at("/work")),
        Err(WorkspaceRuntimeErrorV1::RebindEvidenceMismatch {
            binding_root: "/work".to_owned(),
            git_previous_root: Some("/before".to_owned()),
            git_current_root: "/work".to_owned(),
        })
    );
    let mut other = at("/before");
    other.identity.workspace_uuid = "other".to_owned();
    assert_eq!(
        validate_pre_open_binding(&workspace, &other),
        Err(WorkspaceRuntimeErrorV1::BindingIdentityMismatch {
            expected: source(),
            actual: other.identity.clone(),
        })
    );
    for (error, expected) in [
        (
            PreviousRootErrorV1::StoredPathInvalid,
            WorkspaceRuntimeErrorV1::Resolution(WorkspaceResolutionErrorV1::StoredRootPathInvalid),
        ),
        (
            PreviousRootErrorV1::RootInvalid,
            WorkspaceRuntimeErrorV1::StoreOptions,
        ),
        (
            PreviousRootErrorV1::UnsupportedPlatform,
            WorkspaceRuntimeErrorV1::RuntimePathsUnsupportedPlatform,
        ),
    ] {
        workspace.previous_root = Err(error);
        assert_eq!(
            validate_pre_open_binding(&workspace, &at("/work")),
            Err(expected)
        );
    }
}

fn runtime_directory() -> Result<String, WorkspaceRuntimeErrorV1> {
    Ok("/work/.podway/runtime".to_owned())
}

#[test]
fn an_activation_reuses_the_scheduler_that_is_current() {
    let identity = Some(DatabaseFileIdentityV1 {
        device: 1,
        inode: 2,
    });
    let activation = ActivationV1::begin(
        resolved(),
        runtime_directory(),
        Some(&context()),
        identity,
        false,
    )
    .unwrap();
    assert_eq!(activation.step, ActivationStepV1::RefreshRegistryOfActive);
    let activation = activation
        .advance(ActivationEventV1::Succeeded)
        .unwrap()
        .advance(ActivationEventV1::Succeeded)
        .unwrap();
    assert_eq!(activation.step, ActivationStepV1::Completed);
    assert_eq!(
        ActivationV1::begin(
            resolved(),
            runtime_directory(),
            Some(&context()),
            Some(DatabaseFileIdentityV1 {
                device: 1,
                inode: 5
            }),
            false,
        )
        .unwrap_err(),
        WorkspaceRuntimeErrorV1::Resolution(
            WorkspaceResolutionErrorV1::RuntimeDatabasePathChangedDuringResolution
        )
    );
    let readonly = resolve_existing_readonly(
        resolved(),
        runtime_directory(),
        StoreOptionsV1 {
            queue_limit: 16,
            busy_timeout_ms: 100,
        },
        Some(("scheduler", &context())),
        identity,
    )
    .unwrap();
    assert_eq!(readonly.active_scheduler(), Some(&"scheduler"));
    assert_eq!(readonly.binding().identity, source());
    let stale = resolve_existing_readonly(
        resolved(),
        runtime_directory(),
        StoreOptionsV1 {
            queue_limit: 16,
            busy_timeout_ms: 100,
        },
        Some(("scheduler", &context())),
        None,
    )
    .unwrap();
    assert_eq!(stale.active_scheduler(), None);
}

#[test]
fn an_activation_opens_the_store_only_where_it_belongs() {
    let binding = WorkspaceBindingV1 {
        identity: source(),
        last_validated_root: "/work".to_owned(),
    };
    let begin = || {
        ActivationV1::begin(resolved(), runtime_directory(), None, None, false)
            .unwrap()
            .advance(ActivationEventV1::Succeeded)
            .unwrap()
            .advance(ActivationEventV1::Succeeded)
            .unwrap()
    };
    assert_eq!(begin().step, ActivationStepV1::InspectBinding);
    let inspected = || {
        begin()
            .advance(ActivationEventV1::BindingInspected(Some(binding.clone())))
            .unwrap()
    };
    let opened = inspected()
        .advance(ActivationEventV1::WorktreeResolved(worktree()))
        .unwrap();
    assert_eq!(opened.step, ActivationStepV1::OpenStore);
    let confirmed = opened
        .advance(ActivationEventV1::Succeeded)
        .unwrap()
        .advance(ActivationEventV1::BindingInspected(Some(binding.clone())))
        .unwrap()
        .advance(ActivationEventV1::DatabaseIdentified(Some(
            DatabaseFileIdentityV1 {
                device: 1,
                inode: 2,
            },
        )))
        .unwrap();
    assert_eq!(confirmed.step, ActivationStepV1::RefreshRegistry);
    let completed = confirmed
        .advance(ActivationEventV1::Succeeded)
        .unwrap()
        .advance(ActivationEventV1::SchedulerPublished {
            requires_rebind: true,
        })
        .unwrap()
        .advance(ActivationEventV1::Succeeded)
        .unwrap()
        .advance(ActivationEventV1::Succeeded)
        .unwrap();
    assert_eq!(completed.step, ActivationStepV1::Completed);

    let mut elsewhere = worktree();
    elsewhere.roots = "/elsewhere".to_owned();
    assert_eq!(
        inspected()
            .advance(ActivationEventV1::WorktreeResolved(elsewhere))
            .unwrap_err(),
        WorkspaceRuntimeErrorV1::Resolution(WorkspaceResolutionErrorV1::Git {
            source: GitResolverErrorV1::IdentityMismatch
        })
    );
    assert_eq!(
        begin()
            .advance(ActivationEventV1::BindingInspected(None))
            .unwrap_err()
            .message(),
        "workspace binding disappeared from /work/.podway/runtime/state.sqlite3 before Store open"
    );
    let mut moved = binding.clone();
    moved.last_validated_root = "/before".to_owned();
    assert_eq!(
        begin()
            .advance(ActivationEventV1::BindingInspected(Some(moved)))
            .unwrap_err(),
        WorkspaceRuntimeErrorV1::RebindEvidenceMismatch {
            binding_root: "/before".to_owned(),
            git_previous_root: None,
            git_current_root: "/work".to_owned(),
        }
    );
    assert_eq!(
        ActivationV1::begin(resolved(), runtime_directory(), None, None, false)
            .unwrap()
            .advance(ActivationEventV1::RebindRefused)
            .unwrap_err(),
        WorkspaceRuntimeErrorV1::MaintenanceInProgress
    );
    assert_eq!(
        ActivationV1::begin(resolved(), runtime_directory(), None, None, true)
            .unwrap()
            .step,
        ActivationStepV1::ReadConfig
    );
    assert_eq!(
        require_marker_clear(Some(&marker("old", "new"))),
        Err(WorkspaceRuntimeErrorV1::MaintenanceInProgress)
    );
}

#[test]
fn the_registry_follows_a_workspace_that_has_moved() {
    let binding = |root: &str| WorkspaceBindingV1 {
        identity: source(),
        last_validated_root: root.to_owned(),
    };
    let uuid = "w".to_owned();
    let current = "/now".to_owned();
    let seen = "later".to_owned();
    let mut registry = WorkspaceRegistryV1::empty();
    refresh_registry_metadata(
        &mut registry,
        &uuid,
        false,
        &binding("/then"),
        &"/then".to_owned(),
        &"first".to_owned(),
    )
    .unwrap();
    assert_eq!(registry.lookup("w").unwrap().last_known_root(), "/then");

    let refused = refresh_registry_metadata(
        &mut registry,
        &uuid,
        false,
        &binding("/elsewhere"),
        &current,
        &seen,
    );
    assert_eq!(
        refused,
        Err(WorkspaceRuntimeErrorV1::Registry(
            RegistryErrorV1::WorkspaceRootConflict {
                workspace_uuid: "w".to_owned(),
                registered_root: "/then".to_owned(),
                supplied_root: "/now".to_owned(),
            }
        ))
    );
    assert_eq!(registry.lookup("w").unwrap().last_known_root(), "/then");

    refresh_registry_metadata(&mut registry, &uuid, false, &binding("/now"), &current, &seen)
        .unwrap();
    assert_eq!(registry.lookup("w").unwrap().last_known_root(), "/now");
    refresh_registry_metadata(
        &mut registry,
        &uuid,
        true,
        &binding("/now"),
        &"/next".to_owned(),
        &seen,
    )
    .unwrap();
    assert_eq!(registry.lookup("w").unwrap().last_known_root(), "/next");
    refresh_registry_metadata(
        &mut registry,
        &uuid,
        true,
        &binding("/long ago"),
        &"/next".to_owned(),
        &"last".to_owned(),
    )
    .unwrap();
    assert_eq!(registry.lookup("w").unwrap().last_seen_at(), "last");
}

#[test]
fn a_scheduler_is_revalidated_against_what_resolves_now() {
    let key = WorkspaceSchedulerKeyV1::from_durable_identity(&source());
    let generation = SchedulerGenerationV1::initial();
    assert_eq!(
        revalidate_scheduler(&key, generation, Ok(source())),
        WorkspaceSchedulerRevalidationV1::Current
    );
    let mut other = source();
    other.workspace_uuid = "other".to_owned();
    assert_eq!(
        revalidate_scheduler(&key, generation, Ok(other)),
        WorkspaceSchedulerRevalidationV1::RetireRequired {
            key: key.copy(),
            generation,
            source: WorkspaceResolutionErrorV1::RevalidatedStoreIdentityMismatch,
        }
    );
    assert_eq!(
        revalidate_scheduler_database(
            &key,
            generation,
            &context(),
            Some(DatabaseFileIdentityV1 {
                device: 9,
                inode: 9
            })
        ),
        Some(WorkspaceSchedulerRevalidationV1::RetireRequired {
            key: key.copy(),
            generation,
            source: WorkspaceResolutionErrorV1::RuntimeDatabasePathChangedDuringResolution,
        })
    );
    assert_eq!(
        revalidate_scheduler_database(&key, generation, &context(), None),
        None
    );
}

#[test]
fn the_runtime_directory_is_the_one_that_holds_the_database() {
    let path = "/work/.podway/runtime/state.sqlite3".to_owned();
    let location = |directory: Option<&str>, is_named_state: bool| DatabaseLocationV1 {
        directory: directory.map(str::to_owned),
        is_named_state,
    };
    assert_eq!(
        runtime_directory_path(&path, location(Some("/work/.podway/runtime"), true)),
        Ok("/work/.podway/runtime".to_owned())
    );
    assert_eq!(
        runtime_directory_path(&path, location(None, true))
            .unwrap_err()
            .message(),
        "workspace database /work/.podway/runtime/state.sqlite3 has no runtime-directory parent"
    );
    assert_eq!(
        runtime_directory_path(&path, location(Some("/work"), false))
            .unwrap_err()
            .message(),
        "workspace runtime directory does not match the validated database location"
    );
}

#[test]
fn observations_and_facades_tell_what_they_were_given() {
    let observation = WorkspaceRuntimeObservationV1::new(5, "seen".to_owned());
    assert_eq!(observation.store_now(), 5);
    assert_eq!(observation.registry_seen_at(), "seen");
    let store = RegistryStoreV1::new("/state/registry.json".to_owned());
    assert_eq!(
        WorkspaceRegistryReadFacadeV1::new(&store).registry_path(),
        "/state/registry.json"
    );
    let mut named = worktree();
    named.workspace_uuid = Some("uuid".to_owned());
    assert!(same_git_root_evidence(&named, &worktree()));
    assert!(!same_evidence(&named, &worktree()));
}
