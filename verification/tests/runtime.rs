//! The daemon as a whole: how it stops, and what it reports of its recovery.

use podway_daemon::execution::ExecutionErrorV1;
use podway_daemon::observability::EventOutcomeV1;
use podway_daemon::registry::RegistryErrorV1;
use podway_daemon::runtime::recovery::{
    advance_recovery, unavailable_reason_from_resolution_error,
    unavailable_reason_from_runtime_error, unavailable_reason_from_worker_error, RecoveryEventV1,
    RecoveryStepV1, RegistryRecoveryV1, WorkspaceRecoveryEntryV1,
    WorkspaceRecoveryUnavailableReasonV1,
};
use podway_daemon::runtime::{
    daemon_start_outcome, daemon_stop_outcome, runtime_result,
    shutdown_after_registry_load_failure,
    ProductionDaemonRuntimeConfigV1, ProductionDaemonRuntimeErrorV1,
    ProductionDaemonShutdownHandleV1, ProductionDaemonStartupErrorV1,
};
use podway_daemon::runtime_workspace::WorkspaceRuntimeErrorV1;
use podway_daemon::scheduler::DaemonCompositionErrorV1;
use podway_daemon::server::accept_loop::ServerAcceptLoopErrorV1;
use podway_daemon::server::admission::{HandlerLimitV1, ShutdownAdmissionV1};
use podway_daemon::server::ServerTransportTimeoutsV1;
use podway_daemon::store::{AdmitOutcomeV1, JobReceiptV1, StoreErrorV1};
use podway_daemon::worker::WorkerErrorV1;
use podway_daemon::workspace::{GitResolverErrorV1, ResetMarkerV1, WorkspaceResolutionErrorV1};

#[test]
fn daemon_stop_requires_complete_runtime_success() {
    for (accept_loop_succeeded, endpoint_shutdown_succeeded, expected) in [
        (true, true, EventOutcomeV1::Succeeded),
        (false, true, EventOutcomeV1::Failed),
        (true, false, EventOutcomeV1::Failed),
        (false, false, EventOutcomeV1::Failed),
    ] {
        assert_eq!(
            daemon_stop_outcome(accept_loop_succeeded, endpoint_shutdown_succeeded),
            expected
        );
    }
}

fn marker() -> ResetMarkerV1 {
    ResetMarkerV1 {
        operation_id: "00000000-0000-4000-8000-000000000071".to_owned(),
        idempotency_key: "reset-1".to_owned(),
        request_digest: "sha256:7".to_owned(),
        previous_workspace_uuid: "old".to_owned(),
        target_workspace_uuid: "new".to_owned(),
        submitted_at_ms: 5,
        response_request_id: None,
    }
}

#[test]
fn every_registered_workspace_is_reported_in_order() {
    let mut recovery = RegistryRecoveryV1::new();
    recovery.record_activated("first".to_owned(), 2);
    recovery.record_unavailable(
        "second".to_owned(),
        WorkspaceRecoveryUnavailableReasonV1::WorktreeGone,
    );
    recovery.record_activated("third".to_owned(), 0);
    let report = recovery.finish(&vec![
        Ok(4),
        Err(WorkerErrorV1::AfterAdmission {
            admission: AdmitOutcomeV1::New(JobReceiptV1 {
                identity_sequence: 1,
                job_id: "job".to_owned(),
                request_digest: "digest".to_owned(),
            }),
            source: Box::new(WorkerErrorV1::Store(StoreErrorV1::CorruptStateV1)),
        }),
    ]);
    assert_eq!(report.workspaces().len(), 3);
    match &report.workspaces()[0] {
        WorkspaceRecoveryEntryV1::Recovered(entry) => {
            assert_eq!(entry.workspace_uuid(), "first");
            assert_eq!(entry.requeued_job_count(), 2);
            assert_eq!(entry.drained_terminal_job_count(), 4);
        }
        other => panic!("the first workspace was recovered: {other:?}"),
    }
    match &report.workspaces()[1] {
        WorkspaceRecoveryEntryV1::Unavailable(entry) => {
            assert_eq!(entry.workspace_uuid(), "second");
            assert_eq!(
                entry.reason(),
                WorkspaceRecoveryUnavailableReasonV1::WorktreeGone
            );
        }
        other => panic!("the second workspace was not recovered: {other:?}"),
    }
    match &report.workspaces()[2] {
        WorkspaceRecoveryEntryV1::Unavailable(entry) => {
            assert_eq!(entry.workspace_uuid(), "third");
            assert_eq!(
                entry.reason(),
                WorkspaceRecoveryUnavailableReasonV1::WorkspaceStateUnreadable
            );
        }
        other => panic!("the third workspace was not drained: {other:?}"),
    }
    assert_eq!(report.recovered_workspace_count(), 1);
    assert_eq!(report.unavailable_workspace_count(), 2);

    let stopped = runtime_result(Ok(()), Ok(()), &report).unwrap();
    assert_eq!(stopped.recovered_workspace_count(), 1);
    assert_eq!(stopped.unavailable_workspace_count(), 2);
}

#[test]
fn a_recovery_resumes_a_reset_only_of_its_own_entry() {
    let registered = "old".to_owned();
    let step = advance_recovery(
        &registered,
        RecoveryStepV1::MakeSelector,
        RecoveryEventV1::Succeeded,
    );
    assert_eq!(step, RecoveryStepV1::BeginMaintenance);
    let step = advance_recovery(&registered, step, RecoveryEventV1::Succeeded);
    assert_eq!(step, RecoveryStepV1::DiscoverMarker);
    let resumed = advance_recovery(
        &registered,
        RecoveryStepV1::DiscoverMarker,
        RecoveryEventV1::MarkerDiscovered {
            marker: Some(marker()),
            registered_workspace_uuid: "old".to_owned(),
        },
    );
    assert_eq!(
        resumed,
        RecoveryStepV1::ResumeReset {
            idempotency_key: "reset-1".to_owned(),
            request_digest: "sha256:7".to_owned(),
        }
    );
    assert_eq!(
        advance_recovery(
            &registered,
            resumed,
            RecoveryEventV1::Activated {
                workspace_uuid: "new".to_owned(),
                requeued_job_count: 3,
            },
        ),
        RecoveryStepV1::Activated {
            workspace_uuid: "new".to_owned(),
            requeued_job_count: 3,
        }
    );
    assert_eq!(
        advance_recovery(
            &registered,
            RecoveryStepV1::DiscoverMarker,
            RecoveryEventV1::MarkerDiscovered {
                marker: Some(marker()),
                registered_workspace_uuid: "other".to_owned(),
            },
        ),
        RecoveryStepV1::Unavailable {
            reason: WorkspaceRecoveryUnavailableReasonV1::DaemonUnavailable,
        }
    );
    assert_eq!(
        advance_recovery(
            &registered,
            RecoveryStepV1::MakeSelector,
            RecoveryEventV1::RootInvalid,
        ),
        RecoveryStepV1::Unavailable {
            reason: WorkspaceRecoveryUnavailableReasonV1::RegisteredRootInvalid,
        }
    );
}

#[test]
fn unavailable_reasons_tell_what_failed() {
    for (error, reason, text) in [
        (
            WorkspaceResolutionErrorV1::Git {
                source: GitResolverErrorV1::WorktreeDeleted,
            },
            WorkspaceRecoveryUnavailableReasonV1::WorktreeGone,
            "worktree is unavailable",
        ),
        (
            WorkspaceResolutionErrorV1::Git {
                source: GitResolverErrorV1::Selector,
            },
            WorkspaceRecoveryUnavailableReasonV1::RegisteredRootInvalid,
            "registered workspace root is invalid",
        ),
        (
            WorkspaceResolutionErrorV1::ExistingBindingMissing,
            WorkspaceRecoveryUnavailableReasonV1::WorkspaceNotInitialized,
            "workspace state is unavailable",
        ),
        (
            WorkspaceResolutionErrorV1::GitStoreFingerprintMismatch,
            WorkspaceRecoveryUnavailableReasonV1::WorkspaceIdentityConflict,
            "workspace identity does not match durable state",
        ),
        (
            WorkspaceResolutionErrorV1::BootstrapBindingAlreadyPresent,
            WorkspaceRecoveryUnavailableReasonV1::DaemonUnavailable,
            "workspace recovery is unavailable",
        ),
    ] {
        let found = unavailable_reason_from_resolution_error(&error);
        assert_eq!(found, reason);
        assert_eq!(found.message(), text);
    }
    assert_eq!(
        unavailable_reason_from_runtime_error(&WorkspaceRuntimeErrorV1::ConfigAdmission),
        WorkspaceRecoveryUnavailableReasonV1::WorkspaceConfigurationInvalid
    );
    assert_eq!(
        unavailable_reason_from_runtime_error(&WorkspaceRuntimeErrorV1::ResetSourceNotRegistered),
        WorkspaceRecoveryUnavailableReasonV1::WorkspaceNotInitialized
    );
    let occupied = RegistryErrorV1::WorkspaceRootOccupied {
        occupied_root: "/work".to_owned(),
    };
    assert_eq!(
        occupied.message(),
        "workspace root /work is occupied by another workspace"
    );
    assert_eq!(
        unavailable_reason_from_runtime_error(&WorkspaceRuntimeErrorV1::Registry(occupied)),
        WorkspaceRecoveryUnavailableReasonV1::WorkspaceIdentityConflict
    );
    assert_eq!(
        unavailable_reason_from_runtime_error(&WorkspaceRuntimeErrorV1::Registry(
            RegistryErrorV1::InProcessLockPoisoned
        )),
        WorkspaceRecoveryUnavailableReasonV1::DaemonUnavailable
    );
    let exhausted = WorkspaceRuntimeErrorV1::Scheduler(
        DaemonCompositionErrorV1::SchedulerGenerationExhausted,
    );
    assert_eq!(
        unavailable_reason_from_runtime_error(&exhausted),
        WorkspaceRecoveryUnavailableReasonV1::DaemonUnavailable
    );
    assert_eq!(exhausted.message(), "workspace scheduler creation failed");
    assert_eq!(
        unavailable_reason_from_worker_error(&WorkerErrorV1::Execution(
            ExecutionErrorV1::InvalidStoreValue
        )),
        WorkspaceRecoveryUnavailableReasonV1::WorkspaceStateUnreadable
    );
    assert_eq!(
        unavailable_reason_from_worker_error(&WorkerErrorV1::BackgroundPanicked),
        WorkspaceRecoveryUnavailableReasonV1::DaemonUnavailable
    );
}

#[test]
fn a_daemon_that_did_not_stop_well_loses_no_failure() {
    let report = RegistryRecoveryV1::new().finish(&Vec::new());
    let accept = ServerAcceptLoopErrorV1::HandlerPanicked;
    assert_eq!(
        runtime_result(Err(accept.clone()), Ok(()), &report),
        Err(ProductionDaemonRuntimeErrorV1::AcceptLoop(accept.clone()))
    );
    assert_eq!(
        runtime_result(Ok(()), Err("socket".to_owned()), &report),
        Err(ProductionDaemonRuntimeErrorV1::EndpointShutdown(
            "socket".to_owned()
        ))
    );
    let both = runtime_result(Err(accept.clone()), Err("socket".to_owned()), &report).unwrap_err();
    assert_eq!(
        both,
        ProductionDaemonRuntimeErrorV1::AcceptLoopAndEndpointShutdown {
            accept_loop: accept,
            endpoint_shutdown: "socket".to_owned(),
        }
    );
    assert_eq!(
        both.message(),
        "daemon accept loop and endpoint shutdown both failed"
    );
    let registry = RegistryErrorV1::InProcessLockPoisoned;
    let failed = shutdown_after_registry_load_failure(registry, Err("left".to_owned()));
    assert_eq!(
        failed.message(),
        "cannot load workspace registry and cannot clean up daemon endpoint"
    );
    assert_eq!(
        shutdown_after_registry_load_failure(RegistryErrorV1::InProcessLockPoisoned, Ok(())),
        ProductionDaemonStartupErrorV1::RegistryLoad(RegistryErrorV1::InProcessLockPoisoned)
    );
    assert_eq!(
        ProductionDaemonStartupErrorV1::EndpointAcquire("held".to_owned()).message(),
        "cannot acquire daemon endpoint"
    );
}

#[test]
fn settings_are_read_as_they_were_set() {
    let timeouts = ServerTransportTimeoutsV1::new(1, 2).unwrap();
    let maximum = HandlerLimitV1::new(8).unwrap();
    let config: ProductionDaemonRuntimeConfigV1<u8, &str> =
        ProductionDaemonRuntimeConfigV1::new("worker".to_owned(), maximum, timeouts, "public")
            .with_process_identity(3)
            .with_dev_mode()
            .with_managed_dev_workspace_root("/dev/root".to_owned())
            .with_development_v2_admission("development");
    assert_eq!(config.worker_id(), "worker");
    assert_eq!(config.maximum_in_flight_connections().get(), 8);
    assert_eq!(config.transport_timeouts(), timeouts);
    assert_eq!(config.process_identity(), Some(&3));
    assert!(config.dev_mode());
    assert_eq!(
        config.managed_dev_workspace_root(),
        &Some("/dev/root".to_owned())
    );
    assert_eq!(*config.procedure_v2_admission(), "development");
}

#[test]
fn a_shutdown_is_seen_by_every_handle() {
    let mut admission = ShutdownAdmissionV1::new();
    assert!(admission.try_admit(HandlerLimitV1::new(2).unwrap()).is_ok());
    let handle = ProductionDaemonShutdownHandleV1::of(&admission);
    let other = handle;
    assert_eq!(other, ProductionDaemonShutdownHandleV1::of(&admission));
    assert!(handle.is_accepting(&mut admission));
    assert!(other.is_accepting(&mut admission));
    for _ in 0..2 {
        handle.request_shutdown(&mut admission);
        assert!(!handle.is_accepting(&mut admission));
        assert!(!other.is_accepting(&mut admission));
        assert_eq!(admission.in_flight(), 1);
    }
    assert_eq!(ProductionDaemonShutdownHandleV1::of(&admission), handle);
    let elsewhere = ShutdownAdmissionV1::numbered(admission.own_number() + 1);
    assert_ne!(ProductionDaemonShutdownHandleV1::of(&elsewhere), handle);
}

#[test]
fn a_handle_of_a_poisoned_admission_accepts_nothing() {
    let mut admission = ShutdownAdmissionV1::new();
    admission.poison();
    let handle = ProductionDaemonShutdownHandleV1::of(&admission);
    assert!(!handle.is_accepting(&mut admission));
    assert_eq!(admission.in_flight(), 0);
}

#[test]
fn the_start_and_the_recovery_of_a_daemon_are_told() {
    assert_eq!(daemon_start_outcome(true, true), EventOutcomeV1::Succeeded);
    assert_eq!(daemon_start_outcome(true, false), EventOutcomeV1::Failed);
    assert_eq!(daemon_start_outcome(false, false), EventOutcomeV1::Failed);
    let mut recovery = RegistryRecoveryV1::new();
    recovery.record_activated("a".to_owned(), 0);
    assert_eq!(
        recovery.finish(&vec![Ok(3)]).integrity_outcome(),
        EventOutcomeV1::Succeeded
    );
    recovery.record_unavailable(
        "b".to_owned(),
        WorkspaceRecoveryUnavailableReasonV1::WorktreeGone,
    );
    assert_eq!(
        recovery.finish(&vec![Ok(3)]).integrity_outcome(),
        EventOutcomeV1::Failed
    );
    assert_eq!(
        RegistryRecoveryV1::new().finish(&Vec::new()).integrity_outcome(),
        EventOutcomeV1::Succeeded
    );
}
