//! How failures are told in public.

use podway_daemon::dispatch::{
    AdmissionIdentityV1, DispatchErrorDetailsV1, DispatchFailureKindV1,
};
use podway_daemon::execution::{
    DomainErrorV1, ExecutionBoundaryErrorV1, ExecutionErrorV1, ProcedureV2StartPreparationErrorV1,
};
use podway_daemon::production::failures::{
    map_preview_domain_error, map_preview_procedure_error,
    map_procedure_v2_start_preparation_error, map_read_error, map_runtime_error, map_store_error,
    map_terminal_domain_error, map_worker_error, PreviewCommandKindV1, TerminalCommandKindV1,
};
use podway_daemon::read_service::ReadServiceErrorV1;
use podway_daemon::runtime_workspace::WorkspaceRuntimeErrorV1;
use podway_daemon::store::{
    JobReceiptV1, PersistedDomainErrorV1, StoreErrorV1, StoreUnavailableReasonV1,
};
use podway_daemon::worker::WorkerErrorV1;
use podway_daemon::workspace::{ResetMarkerV1, ValidatedRuntimeDirectoryErrorV1};

fn fixture_job(sequence: u64) -> JobReceiptV1 {
    JobReceiptV1 {
        identity_sequence: sequence,
        job_id: format!("00000000-0000-4000-8000-{sequence:012x}"),
        request_digest: "sha256:aaaaaaaaaaaaaaaaaaaaaaaaaaaaaaaaaaaaaaaaaaaaaaaaaaaaaaaaaaaaaaaa"
            .to_owned(),
    }
}

#[test]
fn v2run001_pinned_preset_digest_mismatch_preserves_stable_details() {
    let expected = format!("sha256:{}", "a".repeat(64));
    let actual = format!("sha256:{}", "b".repeat(64));
    let failure = map_procedure_v2_start_preparation_error(
        ProcedureV2StartPreparationErrorV1::PinnedPresetDigestMismatch {
            expected: expected.clone(),
            actual: actual.clone(),
        },
    );
    assert_eq!(failure.kind, DispatchFailureKindV1::ProcedureDigestMismatch);
    assert_eq!(
        failure.details,
        DispatchErrorDetailsV1::ProcedureDigestMismatch { expected, actual }
    );
    assert_eq!(failure.admission, None);
}

#[test]
fn blocker_limit_domain_errors_preserve_the_public_limit() {
    let preview = map_preview_domain_error(
        DomainErrorV1::BlockerLimitReached {
            maximum_open_blockers: 1_024,
        },
        PreviewCommandKindV1::Other,
    );
    assert_eq!(preview.kind, DispatchFailureKindV1::BlockerLimitReached);
    assert_eq!(
        preview.details,
        DispatchErrorDetailsV1::BlockerLimit {
            maximum_open_blockers: 1024
        }
    );
    assert_eq!(preview.admission, None);

    let terminal = map_terminal_domain_error(
        &PersistedDomainErrorV1::BlockerLimitReached {
            maximum_open_blockers: 1_024,
        },
        TerminalCommandKindV1::Other,
    );
    assert_eq!(terminal.kind, DispatchFailureKindV1::BlockerLimitReached);
    assert_eq!(
        terminal.details,
        DispatchErrorDetailsV1::BlockerLimit {
            maximum_open_blockers: 1024
        }
    );
}

#[test]
fn v2plt007_source_declared_v2_preserves_capability_and_pre_admission_details() {
    let expected = DispatchErrorDetailsV1::UnsupportedV2Capability {
        capability: "session.start".to_owned(),
        required_result_schema: "podway.session-start-result/v2".to_owned(),
    };
    let preview = map_preview_procedure_error(
        ExecutionBoundaryErrorV1::ProcedureV2Unsupported,
        "session.start".to_owned(),
    );
    assert_eq!(preview.kind, DispatchFailureKindV1::UnsupportedV2Capability);
    assert_eq!(preview.details, expected);
    assert_eq!(preview.admission, None);

    let admission = map_worker_error(WorkerErrorV1::Execution(
        ExecutionErrorV1::UnsupportedV2Capability {
            capability: "session.start".to_owned(),
            required_result_schema: "podway.session-start-result/v2".to_owned(),
        },
    ));
    assert_eq!(
        admission.kind,
        DispatchFailureKindV1::UnsupportedV2Capability
    );
    assert_eq!(admission.details, expected);
    assert_eq!(admission.admission, None);
}

#[test]
fn identity_boundary_mappers_preserve_expected_actual_and_absence() {
    let expected_workspace = "00000000-0000-4000-8000-000000000031".to_owned();
    let actual_workspace = "00000000-0000-4000-8000-000000000032".to_owned();
    let workspace_failure = map_worker_error(WorkerErrorV1::Execution(
        ExecutionErrorV1::WorkspaceIdentityMismatch {
            expected: expected_workspace.clone(),
            actual: actual_workspace.clone(),
        },
    ));
    assert_eq!(
        workspace_failure.kind,
        DispatchFailureKindV1::WorkspaceUuidMismatch
    );
    assert_eq!(
        workspace_failure.details,
        DispatchErrorDetailsV1::WorkspaceUuidMismatch {
            expected: expected_workspace,
            actual: actual_workspace,
        }
    );
    assert_eq!(workspace_failure.admission, None);

    let expected_session = "00000000-0000-4000-8000-000000000033".to_owned();
    let read_failure = map_read_error(ReadServiceErrorV1::SessionIdentityMismatch {
        expected: expected_session.clone(),
        actual: None,
    });
    assert_eq!(read_failure.kind, DispatchFailureKindV1::SessionIdMismatch);
    assert_eq!(
        read_failure.details,
        DispatchErrorDetailsV1::SessionIdMismatch {
            expected: expected_session.clone(),
            actual: None,
        }
    );

    let store_failure = map_store_error(StoreErrorV1::SessionIdentityConflictV1 {
        expected: Some(expected_session),
        actual: None,
    });
    assert_eq!(store_failure.kind, DispatchFailureKindV1::SessionIdMismatch);
    let start_conflict = map_store_error(StoreErrorV1::SessionIdentityConflictV1 {
        expected: None,
        actual: Some("00000000-0000-4000-8000-000000000034".to_owned()),
    });
    assert_eq!(
        start_conflict.kind,
        DispatchFailureKindV1::SessionAlreadyExists
    );
}

#[test]
fn recon002_post_commit_store_errors_preserve_admission_identity() {
    let failure = map_store_error(StoreErrorV1::AdmissionCommittedV1 {
        receipt: fixture_job(7),
        source: Box::new(StoreErrorV1::StorageUnavailableV1 {
            reason: StoreUnavailableReasonV1::Recovery,
        }),
    });

    assert_eq!(
        failure.admission,
        Some(AdmissionIdentityV1 {
            job_id: "00000000-0000-4000-8000-000000000007".to_owned(),
            workspace_sequence: 7,
        })
    );

    let unknown = map_store_error(StoreErrorV1::AdmissionOutcomeUnknownV1 {
        idempotency_key: "unknown-admission".to_owned(),
    });
    assert_eq!(
        unknown.details,
        DispatchErrorDetailsV1::UnknownOutcome {
            idempotency_key: "unknown-admission".to_owned(),
        }
    );
    assert_eq!(unknown.kind, DispatchFailureKindV1::MutationOutcomeUnknown);
}

#[test]
fn reset_marker_failures_preserve_unknown_and_admitted_public_evidence() {
    let key = "reset-admission-boundary".to_owned();
    let marker = ResetMarkerV1 {
        operation_id: "00000000-0000-4000-8000-000000000071".to_owned(),
        idempotency_key: key.clone(),
        request_digest: format!("sha256:{}", "7".repeat(64)),
        previous_workspace_uuid: "00000000-0000-4000-8000-000000000072".to_owned(),
        target_workspace_uuid: "00000000-0000-4000-8000-000000000073".to_owned(),
        submitted_at_ms: 1_700_000_000_123,
        response_request_id: None,
    };
    let admitted = map_runtime_error(WorkspaceRuntimeErrorV1::ResetAdmitted {
        marker: marker.clone(),
        source: Box::new(WorkspaceRuntimeErrorV1::RuntimeDirectory(
            ValidatedRuntimeDirectoryErrorV1::UnsupportedPlatform,
        )),
    });
    assert_eq!(
        admitted.admission,
        Some(AdmissionIdentityV1 {
            job_id: marker.operation_id,
            workspace_sequence: 1,
        })
    );

    let unknown = map_runtime_error(WorkspaceRuntimeErrorV1::ResetAdmissionOutcomeUnknown {
        idempotency_key: key,
        source: ValidatedRuntimeDirectoryErrorV1::UnsupportedPlatform,
    });
    assert_eq!(unknown.kind, DispatchFailureKindV1::MutationOutcomeUnknown);
    assert_eq!(
        unknown.details,
        DispatchErrorDetailsV1::UnknownOutcome {
            idempotency_key: "reset-admission-boundary".to_owned(),
        }
    );
}

#[test]
fn pstrt001_digest_mismatch_mapper_preserves_closed_details() {
    let expected = format!("sha256:{}", "a".repeat(64));
    let actual = format!("sha256:{}", "b".repeat(64));
    let failure = map_worker_error(WorkerErrorV1::Execution(
        ExecutionErrorV1::ProcedureDigestMismatch {
            expected: expected.clone(),
            actual: actual.clone(),
        },
    ));
    assert_eq!(failure.kind, DispatchFailureKindV1::ProcedureDigestMismatch);
    assert_eq!(
        failure.details,
        DispatchErrorDetailsV1::ProcedureDigestMismatch { expected, actual }
    );
    assert_eq!(failure.admission, None);
}
