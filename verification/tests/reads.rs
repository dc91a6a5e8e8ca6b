//! Reads of jobs and sessions, cancellations, and the answers to requests about a workspace.

use podway_daemon::digest::{canonical_request_digest, digest_text};
use podway_daemon::dispatch::{
    DispatchErrorDetailsV1, DispatchFailureKindV1, JobStateV1, WorkspaceOutputV1,
};
use podway_daemon::execution::{
    ExecutionErrorV1, GraphMutationErrorV2, ProcedureV2SourceAdmissionErrorV1,
    ProcedureV2StartPreparationErrorV1,
};
use podway_daemon::production::clock::{
    saturated_millis, NativeProductionClockV1, ProductionControlServiceV1,
    ProductionPreviewServiceV1,
};
use podway_daemon::production::development_v2::{
    active_graph_view, admitted_job, admitted_start, detached_output, development_v2_route,
    graph_read_output, graph_read_step, prepared_start, reset_preview_output, start_preview_output,
    status_tier, submission_answer, submission_request, validate_graph_start_dry_run_fence_v2,
    DaemonRequestV1, DevelopmentRouteV2, GraphReadStepV2, GraphStartCurrentTaskV2,
    GraphStatusTierV2, PreparedStartV2, ProcedureV2StartV1, RequestEnvelopeV1, SubmissionAnswerV2,
    SubmissionKindV2,
};
use podway_daemon::production::failures::{GraphViewErrorV2, TerminalCommandKindV1};
use podway_daemon::production::mutations::{
    reset_after_preparation, reset_all_step, reset_preparation, reset_preparation_failure,
    reset_retirement_failure, reset_terminal_outcome, submission_outcome, terminal_command_kind,
    MutationDispatchOutcomeV1, ResetAllContinuationV1, ResetAllStepV1, ResetPreparationV1,
};
use podway_daemon::production::reads::{
    cancel_is_allowed, cancellation_outcome, cancellation_plan, job_list_result, job_lookup,
    job_lookup_result, job_lookup_step, job_status_result, listed_jobs, notification_after_wait,
    notification_step, observed_progress, resetting_lookup_result, unknown_lookup_result,
    CancelOutcomeV1, LookupBindingV1, LookupResolutionV1, LookupStepV1, NotificationStepV1,
    ReconciliationSnapshotV1,
};
use podway_daemon::production::terminal::FrozenEnvelopeEvidenceV1;
use podway_daemon::production::workspaces::{
    check_context_binding, development_v2_admission, doctor_result, repair_reconciled_registry,
    repair_result, require_active_scheduler, root_before_repair, show_result, DoctorCheckV1,
    ExecutionStepV1,
};
use podway_daemon::protocol::{
    completion_mode, read_wait, MutationWaitV1, RequestReadWaitV1, SessionIdentityPreconditionsV1,
    SessionNextV1, SessionResetV1, SessionStartSourceV1, SessionStartV1, SessionStatusV1,
    SliceCommandV1,
};
use podway_daemon::read_service::{
    begin_graph_read, begin_job_read, graph_predicate_satisfied_v2, job_answer_to,
    read_graph_workspace_view_v2, read_job, GraphSessionViewV2, GraphWorkspaceViewV2,
    MonotonicClockV1, MonotonicDeadlineV1, ReadNotificationErrorV1, ReadNotificationVersionV1,
    ReadServiceErrorV1, ReadWaitOutcomeV1, ReadWaitV1, WaitingReadEventV1, WaitingReadV1,
};
use podway_daemon::registry::WorkspaceRegistryEntryV1;
use podway_daemon::runtime_workspace::WorkspaceBindingV1;
use podway_daemon::store::{
    AdmitOutcomeV1, CommandV1, DurableWorktreeIdentityV1, JobReceiptOrTerminalV1, JobReceiptV1,
    JobViewV1, PersistedTerminalJobProjectionV1, PersistedTerminalJobStateV1,
    PersistedTerminalReceiptV1, PersistedTerminalResultV1, StoreErrorV1, StoreJobStateV1,
    StoreUnavailableReasonV1,
};
use podway_daemon::worker::{
    WorkerCompletionModeV1, WorkerErrorV1, WorkerSubmissionV1, WorkerWaitResultV1,
};
use podway_daemon::workspace::ResetMarkerV1;
use serde_json::Value;

fn json(text: &str) -> Value {
    serde_json::from_str(text).unwrap()
}

fn busy() -> StoreErrorV1 {
    StoreErrorV1::StorageUnavailableV1 {
        reason: StoreUnavailableReasonV1::Busy,
    }
}

fn job(sequence: u64) -> JobReceiptV1 {
    JobReceiptV1 {
        identity_sequence: sequence,
        job_id: format!("job-{sequence}"),
        request_digest: "digest".to_owned(),
    }
}

fn view(sequence: u64, state: StoreJobStateV1) -> JobViewV1 {
    JobViewV1 {
        command: CommandV1::SessionStart,
        job: job(sequence),
        state,
        submitted_at: 1,
        claimed_at: None,
        finished_at: None,
        terminal_receipt: None,
    }
}

fn cancelled_receipt(sequence: u64) -> PersistedTerminalReceiptV1 {
    PersistedTerminalReceiptV1 {
        job: job(sequence),
        result: PersistedTerminalResultV1::Cancelled,
        job_projection: Some(PersistedTerminalJobProjectionV1 {
            state: PersistedTerminalJobStateV1::Cancelled,
            submitted_at: 1,
            claimed_at: None,
            finished_at: 2,
        }),
        session_projection: None,
        graph_session_projection: None,
        lookup_command: Some(CommandV1::SessionStart),
        response_context: None,
        public_terminal_envelope: None,
    }
}

fn marker() -> ResetMarkerV1 {
    ResetMarkerV1 {
        operation_id: "operation".to_owned(),
        idempotency_key: "key".to_owned(),
        request_digest: "digest".to_owned(),
        previous_workspace_uuid: "old".to_owned(),
        target_workspace_uuid: "new".to_owned(),
        submitted_at_ms: 0,
        response_request_id: None,
    }
}

fn identity(uuid: &str) -> DurableWorktreeIdentityV1 {
    DurableWorktreeIdentityV1 {
        common_dir_identity: "common".to_owned(),
        workspace_uuid: uuid.to_owned(),
        worktree_admin_identity: "admin".to_owned(),
    }
}

fn graph_view(session: Option<&str>, queued: u64) -> GraphWorkspaceViewV2 {
    GraphWorkspaceViewV2 {
        identity: identity("workspace"),
        graph_state: session.map(|id| GraphSessionViewV2 {
            session_id: id.to_owned(),
            revision: 3,
        }),
        queued_job_count: queued,
        running_job_id: None,
        latest_workspace_sequence: 8,
    }
}

#[test]
fn requests_are_named_by_the_digest_of_their_text() {
    assert_eq!(
        canonical_request_digest(""),
        "sha256:e3b0c44298fc1c149afbf4c8996fb92427ae41e4649b934ca495991b7852b855"
    );
    assert_eq!(
        canonical_request_digest("abc"),
        "sha256:ba7816bf8f01cfea414140de5dae2223b00361a396177a9cb410ff61f20015ad"
    );
    assert_eq!(digest_text(&[0x00, 0xab, 0x7f]), "sha256:00ab7f");
}

#[test]
fn clocks_run_forward_and_tell_the_time() {
    assert_eq!(saturated_millis(7), 7);
    assert_eq!(saturated_millis(u128::from(u64::MAX) + 1), u64::MAX);
    let clock = NativeProductionClockV1::default();
    let first = clock.now_millis();
    let waiting = std::time::Instant::now();
    while waiting.elapsed().as_millis() < 25 {}
    assert!(clock.now_millis() >= first + 24);
    let deadline = MonotonicDeadlineV1::after(&clock, 1_000).unwrap();
    assert!(deadline.millis() >= 1_000);
    assert_eq!(clock.generated_at().unwrap().len(), 24);
    let preview = ProductionPreviewServiceV1::new(clock);
    assert!(preview.clock().now_millis() < 1_000_000);
    let control = ProductionControlServiceV1::new(NativeProductionClockV1::default());
    assert!(control.clock().generated_at().unwrap().ends_with('Z'));
}

#[test]
fn a_wait_for_progress_ends_with_progress_or_with_its_time() {
    assert_eq!(ReadNotificationVersionV1::initial().get(), 0);
    assert_eq!(
        ReadNotificationVersionV1::default(),
        ReadNotificationVersionV1::initial()
    );
    assert_eq!(
        ReadNotificationVersionV1::new(0),
        ReadNotificationVersionV1::initial()
    );
    assert_ne!(
        ReadNotificationVersionV1::new(1),
        ReadNotificationVersionV1::initial()
    );
    assert_eq!(ReadNotificationVersionV1::new(u64::MAX).get(), u64::MAX);
    let observed = ReadNotificationVersionV1::new(4);
    let deadline = MonotonicDeadlineV1::new(100);
    assert_eq!(
        notification_step(5, observed, 200, deadline),
        NotificationStepV1::Ended(ReadWaitOutcomeV1::Notified)
    );
    assert_eq!(
        notification_step(4, observed, 100, deadline),
        NotificationStepV1::Ended(ReadWaitOutcomeV1::TimedOut)
    );
    assert_eq!(
        notification_step(4, observed, 40, deadline),
        NotificationStepV1::WaitFor { millis: 60 }
    );
    assert_eq!(notification_after_wait(4, observed, 1, 1), None);
    assert_eq!(
        notification_after_wait(4, observed, 1, 2),
        Some(ReadWaitOutcomeV1::Notified)
    );
    assert_eq!(observed_progress(true, 4), Ok(observed));
    assert_eq!(
        observed_progress(false, 4),
        Err(ReadNotificationErrorV1::Unavailable)
    );
}

#[test]
fn a_list_keeps_the_order_of_the_store() {
    let views = vec![
        view(1, StoreJobStateV1::Queued),
        view(2, StoreJobStateV1::Running),
        view(3, StoreJobStateV1::Queued),
    ];
    let sequences = |state| -> Vec<u64> {
        listed_jobs(&views, state)
            .iter()
            .map(|view| view.job.identity_sequence)
            .collect()
    };
    assert_eq!(sequences(None), vec![1, 2, 3]);
    assert_eq!(sequences(Some(JobStateV1::Queued)), vec![1, 3]);
    assert_eq!(sequences(Some(JobStateV1::Failed)), Vec::<u64>::new());
    assert_eq!(
        Value::Object(job_list_result(vec![json("1"), json("2")])),
        json(r#"{"jobs":[1,2]}"#)
    );
    assert_eq!(
        Value::Object(job_status_result(json(r#"{"schema":"podway.output/v2"}"#))),
        json(r#"{"schema":"podway.job-result/v2","job":{"schema":"podway.output/v2"}}"#)
    );
    assert_eq!(
        Value::Object(job_status_result(json("{}"))),
        json(r#"{"job":{}}"#)
    );
}

#[test]
fn a_reset_that_has_not_ended_is_found_by_its_key() {
    let resolution = LookupResolutionV1::ResetMarker {
        marker: marker(),
        worktree_root: "/work".to_owned(),
    };
    let LookupStepV1::Resetting { workspace, job } = job_lookup_step(&resolution, "key").unwrap()
    else {
        panic!("the key is that of the reset");
    };
    assert_eq!(workspace.uuid, "new");
    assert_eq!(workspace.latest_workspace_sequence, 1);
    assert_eq!(job.id, "operation");
    assert_eq!(job.state, JobStateV1::Running);
    assert_eq!(job.submitted_at, "1970-01-01T00:00:00.000Z");
    assert_eq!(
        job_lookup_step(&resolution, "other"),
        Ok(LookupStepV1::Unknown)
    );
    assert_eq!(
        job_lookup_step(&LookupResolutionV1::Missing, "key"),
        Ok(LookupStepV1::Unknown)
    );
    assert_eq!(
        job_lookup_step(&LookupResolutionV1::Store, "key"),
        Ok(LookupStepV1::ReadStore)
    );
    assert_eq!(
        Value::Object(resetting_lookup_result(&marker(), &json(r#"{"id":"operation"}"#)).unwrap()),
        json(
            r#"{"found":true,"job":{"id":"operation","command":"workspace.reset_all",
                "request_digest":"digest","terminal_response":null}}"#
        )
    );
    assert!(resetting_lookup_result(&marker(), &json("3")).is_err());
    assert_eq!(
        Value::Object(unknown_lookup_result()),
        json(r#"{"found":false}"#)
    );
}

#[test]
fn a_lookup_shows_the_job_or_the_receipt_that_outlives_it() {
    let absent = FrozenEnvelopeEvidenceV1::absent;
    let mut snapshot = ReconciliationSnapshotV1 {
        latest_workspace_sequence: 2,
        lookup: None,
        job: None,
    };
    assert_eq!(job_lookup(&snapshot, absent()), Ok(None));
    snapshot.lookup = Some(LookupBindingV1 {
        request_digest: "digest".to_owned(),
        terminal_receipt: None,
    });
    assert!(job_lookup(&snapshot, absent()).is_err());
    snapshot.job = Some(view(1, StoreJobStateV1::Queued));
    let found = job_lookup(&snapshot, absent()).unwrap().unwrap();
    assert_eq!(found.job.id, "job-1");
    assert_eq!(found.response, None);
    assert_eq!(
        Value::Object(
            job_lookup_result(&snapshot, &json(r#"{"id":"job-1"}"#), Value::Null).unwrap()
        ),
        json(
            r#"{"found":true,"job":{"id":"job-1","command":"session.start",
                "terminal_response":null,"request_digest":"digest"}}"#
        )
    );
    snapshot.job.as_mut().unwrap().job.request_digest = "another".to_owned();
    assert_eq!(
        job_lookup(&snapshot, absent()).unwrap_err().kind(),
        DispatchFailureKindV1::WorkspaceStateUnreadable
    );
    snapshot.job = None;
    snapshot.lookup.as_mut().unwrap().terminal_receipt = Some(cancelled_receipt(1));
    let found = job_lookup(&snapshot, absent()).unwrap().unwrap();
    assert_eq!(found.job.state, JobStateV1::Cancelled);
    assert!(found.response.is_some());
}

#[test]
fn only_a_queued_job_is_cancelled() {
    assert_eq!(cancel_is_allowed(JobStateV1::Queued), Ok(()));
    assert_eq!(
        cancel_is_allowed(JobStateV1::Running).unwrap_err().kind(),
        DispatchFailureKindV1::JobNotCancellable
    );
    assert_eq!(
        cancellation_plan(Ok(None), 5).unwrap_err().kind(),
        DispatchFailureKindV1::JobNotFound
    );
    assert_eq!(
        cancellation_plan(Ok(Some(view(1, StoreJobStateV1::Running))), 5)
            .unwrap_err()
            .kind(),
        DispatchFailureKindV1::JobNotCancellable
    );
    let plan = || cancellation_plan(Ok(Some(view(1, StoreJobStateV1::Queued))), 5).unwrap();
    assert_eq!(plan().expected_sequence, 1);
    assert_eq!(plan().committed_job.state, JobStateV1::Cancelled);
    assert_eq!(
        plan().committed_job.finished_at.as_deref(),
        Some("1970-01-01T00:00:00.005Z")
    );
    let cancelled =
        cancellation_outcome(plan(), Some(Ok(CancelOutcomeV1::Cancelled)), true).unwrap();
    assert_eq!(cancelled.job.id, "job-1");
    assert!(cancelled.warnings.is_empty());
    let untold =
        cancellation_outcome(plan(), Some(Ok(CancelOutcomeV1::Cancelled)), false).unwrap();
    assert_eq!(untold.warnings.len(), 1);
    assert_eq!(
        cancellation_outcome(plan(), Some(Ok(CancelOutcomeV1::AlreadyTerminal)), true)
            .unwrap_err()
            .kind(),
        DispatchFailureKindV1::JobNotCancellable
    );
}

#[test]
fn a_submission_is_answered_with_the_job_that_was_admitted() {
    let submission = |completion| WorkerSubmissionV1 {
        admission: AdmitOutcomeV1::New(job(4)),
        completion,
    };
    let ended = submission(Some(WorkerWaitResultV1::Terminal(cancelled_receipt(4))));
    assert!(matches!(
        submission_outcome(&ended, TerminalCommandKindV1::Other, Ok(None), None),
        Ok(MutationDispatchOutcomeV1::Terminal { .. })
    ));
    let late = submission(Some(WorkerWaitResultV1::TimedOut(view(
        4,
        StoreJobStateV1::Running,
    ))));
    let Ok(MutationDispatchOutcomeV1::TimedOut { job: running }) =
        submission_outcome(&late, TerminalCommandKindV1::Other, Ok(None), Some(None))
    else {
        panic!("the wait was in vain");
    };
    assert_eq!(running.state, JobStateV1::Running);
    let detached = submission(None);
    let Ok(MutationDispatchOutcomeV1::Detached {
        procedure_digest, ..
    }) = submission_outcome(
        &detached,
        TerminalCommandKindV1::Start,
        Ok(Some(view(4, StoreJobStateV1::Queued))),
        Some(Some("procedure".to_owned())),
    )
    else {
        panic!("the job was not waited for");
    };
    assert_eq!(procedure_digest.as_deref(), Some("procedure"));
    let lost = submission_outcome(&detached, TerminalCommandKindV1::Other, Ok(None), Some(None))
        .unwrap_err();
    assert_eq!(lost.kind(), DispatchFailureKindV1::JobNotFound);
    assert_eq!(lost.admission.unwrap().job_id, "job-4");
}

#[test]
fn a_reset_of_a_workspace_goes_on_where_it_was_left() {
    assert_eq!(reset_all_step(true, false, false), ResetAllStepV1::Resume);
    assert_eq!(
        reset_all_step(false, false, true),
        ResetAllStepV1::ActivateOldScheduler
    );
    assert_eq!(reset_all_step(false, true, true), ResetAllStepV1::Prepare);
    let source = identity("a");
    assert_eq!(
        reset_preparation(Some(&source), &source, false),
        Ok(ResetPreparationV1::WithStore)
    );
    assert_eq!(
        reset_preparation(None, &source, true),
        Ok(ResetPreparationV1::WithoutStore)
    );
    assert_eq!(
        reset_preparation(Some(&identity("b")), &source, true)
            .unwrap_err()
            .kind(),
        DispatchFailureKindV1::WorkspaceMaintenance
    );
    assert_eq!(
        reset_preparation_failure(ExecutionErrorV1::Store(
            StoreErrorV1::IdempotencyDigestConflictV1
        ))
        .kind(),
        DispatchFailureKindV1::IdempotencyKeyReused
    );
    assert_eq!(
        reset_after_preparation(None, false),
        Ok(ResetAllContinuationV1::Complete)
    );
    let existing =
        AdmitOutcomeV1::Existing(JobReceiptOrTerminalV1::TerminalReceipt(cancelled_receipt(1)));
    assert_eq!(
        reset_after_preparation(Some(&existing), true),
        Ok(ResetAllContinuationV1::Reread {
            request_digest: "digest".to_owned()
        })
    );
    assert!(reset_after_preparation(Some(&existing), false).is_err());
    assert!(matches!(
        reset_terminal_outcome(Ok(Some(existing)), TerminalCommandKindV1::Other),
        Ok(MutationDispatchOutcomeV1::Terminal { .. })
    ));
    assert!(reset_terminal_outcome(Ok(None), TerminalCommandKindV1::Other).is_err());
    assert_eq!(
        reset_retirement_failure(Some(&marker()))
            .admission
            .unwrap()
            .workspace_sequence,
        1
    );
    assert_eq!(reset_retirement_failure(None).admission, None);
}

#[test]
fn a_doctor_reports_a_binding_that_is_not_current() {
    assert_eq!(
        Value::Object(doctor_result(DoctorCheckV1::NotRequested)),
        json(
            r#"{"deep":false,"workspace_state_readable":true,"healthy":true,
                "git_store_binding_revalidated":{"outcome":"not_requested"}}"#
        )
    );
    assert_eq!(
        Value::Object(doctor_result(DoctorCheckV1::RetireRequired)),
        json(
            r#"{"deep":true,"workspace_state_readable":true,"healthy":false,
                "git_store_binding_revalidated":{"outcome":"retire_required"},
                "findings":[{"code":"workspace_identity_changed","severity":"error"}]}"#
        )
    );
    assert_eq!(doctor_result(DoctorCheckV1::Current)["healthy"], true);
    assert_eq!(
        doctor_result(DoctorCheckV1::Failed)["findings"][0]["code"],
        "git_store_binding_revalidation_failed"
    );
    assert_eq!(
        Value::Object(show_result()),
        json(r#"{"initialized":true}"#)
    );
}

#[test]
fn a_repair_tells_what_it_changed() {
    let before = "/before".to_owned();
    let after = "/after".to_owned();
    assert_eq!(
        Value::Object(repair_result(true, &before, &after)),
        json(
            r#"{"changed":true,"moved_identity_proven":true,
                "changes":["workspace_binding.last_validated_root","registry.last_known_root"]}"#
        )
    );
    assert_eq!(
        Value::Object(repair_result(false, &before, &after)),
        json(
            r#"{"changed":true,"moved_identity_proven":false,
                "changes":["registry.last_known_root"]}"#
        )
    );
    assert_eq!(
        Value::Object(repair_result(false, &before, &before)),
        json(r#"{"changed":false,"moved_identity_proven":true,"changes":[]}"#)
    );
    let entry =
        WorkspaceRegistryEntryV1::new("w".to_owned(), before.clone(), "t".to_owned()).unwrap();
    assert_eq!(root_before_repair(Some(&entry)), Ok(before.clone()));
    assert_eq!(
        root_before_repair(None).unwrap_err().kind(),
        DispatchFailureKindV1::RequestInvalid
    );
    assert_eq!(repair_reconciled_registry(&before, Some(&entry)), Ok(false));
    assert_eq!(repair_reconciled_registry(&after, Some(&entry)), Ok(true));
    assert_eq!(
        repair_reconciled_registry(&after, None).unwrap_err().kind(),
        DispatchFailureKindV1::WorkspaceStateUnreadable
    );
    assert_eq!(require_active_scheduler(Some(1_u8)), Ok(1));
    assert_eq!(
        require_active_scheduler::<u8>(None).unwrap_err().kind(),
        DispatchFailureKindV1::DaemonUnavailable
    );
    assert!(development_v2_admission(true, true, true));
    assert!(!development_v2_admission(true, false, true));
    let binding = |root: &str| WorkspaceBindingV1 {
        identity: identity("w"),
        last_validated_root: root.to_owned(),
    };
    assert_eq!(
        check_context_binding(&binding("/a"), &binding("/a"), ExecutionStepV1::Claim),
        Ok(())
    );
    assert_eq!(
        check_context_binding(&binding("/a"), &binding("/b"), ExecutionStepV1::Claim),
        Err(ExecutionErrorV1::InvalidPersistedExecution {
            reason: "scheduler context binding changed during claim"
        })
    );
}

#[test]
fn a_named_job_is_waited_for_until_it_ends_or_its_time_is_up() {
    let deadline = MonotonicDeadlineV1::new(100);
    let named = "job-1".to_owned();
    assert_eq!(
        begin_job_read(&named, &ReadWaitV1::immediate()),
        WaitingReadV1::ReadOnce
    );
    let after = ReadWaitV1::after_job_until(named.clone(), deadline);
    assert_eq!(
        begin_job_read(&named, &after),
        WaitingReadV1::Observe { deadline }
    );
    let refused = |wait| match begin_job_read(&named, &wait) {
        WaitingReadV1::Ended(Err(error)) => error.message(""),
        other => panic!("unexpected {other:?}"),
    };
    assert_eq!(
        refused(ReadWaitV1::idle_until(deadline)),
        "inconsistent durable workspace state: named job reads cannot wait for workspace idleness"
    );
    assert_eq!(
        refused(ReadWaitV1::after_job_until("other".to_owned(), deadline)),
        "inconsistent durable workspace state: \
         named job wait target does not match the requested job"
    );
    assert_eq!(
        read_job(Ok(None), &named).unwrap_err().message(""),
        "job job-1 was not found"
    );
    assert_eq!(
        read_job(Err(busy()), &named).unwrap_err().message("busy"),
        "busy"
    );
    let running = || Ok(view(1, StoreJobStateV1::Running));
    let ended = || Ok(view(1, StoreJobStateV1::Failed));
    assert_eq!(job_answer_to(&after, running()), Ok(None));
    assert_eq!(job_answer_to(&after, ended()), ended().map(Some));
    assert_eq!(
        job_answer_to(&ReadWaitV1::immediate(), running()),
        running().map(Some)
    );
    let observed = ReadNotificationVersionV1::new(7);
    let read = || {
        begin_job_read(&named, &after).advance(WaitingReadEventV1::Observed(Ok(observed)))
    };
    assert_eq!(read(), WaitingReadV1::Read { observed, deadline });
    assert_eq!(
        read().advance(WaitingReadEventV1::Answered(job_answer_to(&after, ended()))),
        WaitingReadV1::Ended(ended())
    );
    let ask = || read().advance(WaitingReadEventV1::Answered(job_answer_to(&after, running())));
    assert_eq!(ask(), WaitingReadV1::AskClock { observed, deadline });
    assert_eq!(
        ask().advance(WaitingReadEventV1::ClockTold(100)),
        WaitingReadV1::Ended(Err(ReadServiceErrorV1::WaitTimedOut))
    );
    let wait = || ask().advance(WaitingReadEventV1::ClockTold(99));
    assert_eq!(wait(), WaitingReadV1::AwaitChange { observed, deadline });
    assert_eq!(
        wait().advance(WaitingReadEventV1::Woken(Ok(ReadWaitOutcomeV1::Notified))),
        WaitingReadV1::Observe { deadline }
    );
    let last = || wait().advance(WaitingReadEventV1::Woken(Ok(ReadWaitOutcomeV1::TimedOut)));
    assert_eq!(last(), WaitingReadV1::ReadLast);
    assert_eq!(
        last().advance(WaitingReadEventV1::Answered(Ok(None))),
        WaitingReadV1::Ended(Err(ReadServiceErrorV1::WaitTimedOut))
    );
    assert_eq!(
        last().advance(WaitingReadEventV1::Answered(job_answer_to(&after, ended()))),
        WaitingReadV1::Ended(ended())
    );
    let unavailable = || ReadNotificationErrorV1::Unavailable;
    assert_eq!(
        wait().advance(WaitingReadEventV1::Woken(Err(unavailable()))),
        WaitingReadV1::Ended(Err(ReadServiceErrorV1::Notification(unavailable())))
    );
    assert_eq!(
        begin_job_read(&named, &after).advance(WaitingReadEventV1::Observed(Err(unavailable()))),
        WaitingReadV1::Ended(Err(ReadServiceErrorV1::Notification(unavailable())))
    );
    assert_eq!(
        MonotonicDeadlineV1::after_instant(u64::MAX, 1),
        Err(ReadServiceErrorV1::DeadlineOverflow)
    );
}

#[test]
fn a_graph_view_answers_only_for_its_workspace_and_session() {
    let read = |expected: Option<&String>, uuid: &str| {
        read_graph_workspace_view_v2(Ok(graph_view(Some("s"), 0)), &identity(uuid), expected)
    };
    assert!(read(Some(&"s".to_owned()), "workspace").is_ok());
    assert_eq!(
        read(Some(&"t".to_owned()), "workspace"),
        Err(ReadServiceErrorV1::SessionIdentityMismatch {
            expected: "t".to_owned(),
            actual: Some("s".to_owned())
        })
    );
    assert!(matches!(
        read(None, "another"),
        Err(ReadServiceErrorV1::InconsistentState { .. })
    ));
    let deadline = MonotonicDeadlineV1::new(100);
    let idle = ReadWaitV1::idle_until(deadline);
    assert_eq!(
        graph_predicate_satisfied_v2(&idle, Ok(graph_view(None, 1)), Err(ReadServiceErrorV1::MissingSession), Err(ReadServiceErrorV1::MissingSession)),
        Ok(None)
    );
    assert_eq!(
        graph_predicate_satisfied_v2(&idle, Ok(graph_view(None, 0)), Err(ReadServiceErrorV1::MissingSession), Err(ReadServiceErrorV1::MissingSession)),
        Ok(Some(graph_view(None, 0)))
    );
    let after = ReadWaitV1::after_job_until("job-1".to_owned(), deadline);
    assert_eq!(
        graph_predicate_satisfied_v2(
            &after,
            Ok(graph_view(None, 1)),
            Ok(view(1, StoreJobStateV1::Succeeded)),
            Ok(graph_view(None, 0))
        ),
        Ok(Some(graph_view(None, 0)))
    );
    assert_eq!(
        begin_graph_read(&ReadWaitV1::immediate()),
        WaitingReadV1::ReadOnce
    );
    assert_eq!(begin_graph_read(&idle), WaitingReadV1::Observe { deadline });
    assert_eq!(begin_graph_read(&after), WaitingReadV1::Observe { deadline });
    assert_eq!(
        begin_graph_read(&ReadWaitV1::immediate())
            .advance(WaitingReadEventV1::Answered(Ok(Some(graph_view(None, 0))))),
        WaitingReadV1::Ended(Ok(graph_view(None, 0)))
    );
}

#[test]
fn deadlines_are_in_the_order_of_their_instants() {
    let (early, late) = (MonotonicDeadlineV1::new(3), MonotonicDeadlineV1::new(5));
    assert!(early < late && early <= late && late > early && early != late);
    assert!(early <= MonotonicDeadlineV1::new(3) && early == MonotonicDeadlineV1::new(3));
    assert_eq!(early.max(late).millis(), 5);
}

fn request(detach: bool) -> RequestEnvelopeV1 {
    RequestEnvelopeV1 {
        request_id: "request".to_owned(),
        command: "session.start".to_owned(),
        idempotency_key: Some("key".to_owned()),
        detach,
        wait_timeout_ms: 30,
    }
}

fn start(dry_run: bool, source: SessionStartSourceV1) -> SessionStartV1 {
    SessionStartV1 {
        source,
        expected_procedure_digest: None,
        task_title: "title".to_owned(),
        dry_run,
    }
}

fn preset(dry_run: bool) -> SessionStartV1 {
    start(
        dry_run,
        SessionStartSourceV1::Preset {
            preset: "bug-fix".to_owned(),
        },
    )
}

fn expects(revision: u64) -> SessionIdentityPreconditionsV1 {
    SessionIdentityPreconditionsV1 {
        expected_session_id: "s".to_owned(),
        expected_session_revision: revision,
    }
}

#[test]
fn requests_of_graph_sessions_go_their_own_ways() {
    let submits = |request: DaemonRequestV1, kind, terminal| {
        assert_eq!(
            development_v2_route(&request),
            DevelopmentRouteV2::Submit {
                submission: kind,
                terminal_kind: terminal,
                changes_item: terminal == TerminalCommandKindV1::ItemMutation,
            }
        );
    };
    for (name, kind) in [
        ("session.decide", TerminalCommandKindV1::Decision),
        ("session.rework", TerminalCommandKindV1::Rework),
        ("goal.define", TerminalCommandKindV1::GoalDefinition),
        ("goal.revise", TerminalCommandKindV1::GoalRevision),
        ("goal.assess_criterion", TerminalCommandKindV1::CriterionAssessment),
    ] {
        submits(
            DaemonRequestV1::ProcedureV2Mutation {
                command_name: name.to_owned(),
            },
            SubmissionKindV2::TypedMutation,
            kind,
        );
    }
    submits(
        DaemonRequestV1::Slice(SliceCommandV1::ItemSet),
        SubmissionKindV2::Mutation,
        TerminalCommandKindV1::ItemMutation,
    );
    submits(
        DaemonRequestV1::Slice(SliceCommandV1::SessionSkip),
        SubmissionKindV2::Mutation,
        TerminalCommandKindV1::Skip,
    );
    submits(
        DaemonRequestV1::Slice(SliceCommandV1::SessionStart(preset(false))),
        SubmissionKindV2::Start,
        TerminalCommandKindV1::Start,
    );
    let typed = |is_mutation, has_initial_goal| {
        DaemonRequestV1::ProcedureV2Start(ProcedureV2StartV1 {
            start: preset(true),
            has_initial_goal,
            is_mutation,
            replaces: Some(expects(3)),
        })
    };
    submits(
        typed(true, true),
        SubmissionKindV2::TypedStart,
        TerminalCommandKindV1::Start,
    );
    let bound = typed(false, true);
    assert!(matches!(
        development_v2_route(&bound),
        DevelopmentRouteV2::PreviewStart {
            binds_goal: true,
            expected_current: GraphStartCurrentTaskV2::Exact {
                session_revision: 3,
                ..
            },
            ..
        }
    ));
    for request in [
        typed(false, false),
        DaemonRequestV1::Other,
        DaemonRequestV1::Slice(SliceCommandV1::WorkspaceInit),
        DaemonRequestV1::ProcedureV2Mutation {
            command_name: "session.other".to_owned(),
        },
    ] {
        assert_eq!(
            development_v2_route(&request),
            DevelopmentRouteV2::NotHandled
        );
    }
    let reset = |dry_run| {
        DaemonRequestV1::Slice(SliceCommandV1::SessionReset(SessionResetV1 {
            confirmed: true,
            dry_run,
            preconditions: expects(3),
        }))
    };
    assert!(matches!(
        development_v2_route(&reset(true)),
        DevelopmentRouteV2::PreviewReset(_)
    ));
    submits(
        reset(false),
        SubmissionKindV2::Mutation,
        TerminalCommandKindV1::SessionReset,
    );
    let next = DaemonRequestV1::Slice(SliceCommandV1::SessionNext(SessionNextV1 {
        wait: RequestReadWaitV1::Immediate,
        expected_session_id: Some("s".to_owned()),
    }));
    assert_eq!(
        development_v2_route(&next),
        DevelopmentRouteV2::ReadSession {
            wait: &RequestReadWaitV1::Immediate,
            expected_session_id: Some(&"s".to_owned()),
        }
    );
    assert_eq!(
        terminal_command_kind(&SliceCommandV1::SessionComplete),
        TerminalCommandKindV1::Other
    );
}

fn workspace() -> WorkspaceOutputV1 {
    WorkspaceOutputV1 {
        uuid: "workspace".to_owned(),
        root: "/work".to_owned(),
        latest_workspace_sequence: 8,
    }
}

#[test]
fn a_submission_carries_its_key_its_context_and_its_wait() {
    let submission = submission_request(&request(false), &workspace(), 12).unwrap();
    assert_eq!(submission.idempotency_key, "key");
    assert_eq!(submission.response_context.workspace_sequence, 8);
    assert_eq!(
        submission.completion,
        WorkerCompletionModeV1::WaitUntil(MonotonicDeadlineV1::new(42))
    );
    assert_eq!(
        submission_request(&request(true), &workspace(), u64::MAX)
            .unwrap()
            .completion,
        WorkerCompletionModeV1::Detached
    );
    assert_eq!(
        submission_request(&request(false), &workspace(), u64::MAX)
            .unwrap_err()
            .kind(),
        DispatchFailureKindV1::Internal
    );
    let mut keyless = request(true);
    keyless.idempotency_key = None;
    assert_eq!(
        submission_request(&keyless, &workspace(), 0)
            .unwrap_err()
            .kind(),
        DispatchFailureKindV1::RequestInvalid
    );
    assert_eq!(
        read_wait(RequestReadWaitV1::IdleUntil { timeout_millis: 5 }, 10),
        Ok(ReadWaitV1::IdleUntil(MonotonicDeadlineV1::new(15)))
    );
    assert_eq!(
        completion_mode(MutationWaitV1::Detached, 10),
        Ok(WorkerCompletionModeV1::Detached)
    );
}

#[test]
fn a_graph_submission_is_replayed_read_or_timed_out() {
    let answer = |submission| {
        submission_answer(
            TerminalCommandKindV1::Other,
            true,
            submission,
            FrozenEnvelopeEvidenceV1::absent(),
        )
    };
    assert_eq!(answer(Ok(None)), Ok(SubmissionAnswerV2::NotHandled));
    let submission = |completion| {
        Ok(Some(WorkerSubmissionV1 {
            admission: AdmitOutcomeV1::New(job(4)),
            completion,
        }))
    };
    assert_eq!(
        answer(submission(None)),
        Ok(SubmissionAnswerV2::ReadAdmittedJob)
    );
    assert!(matches!(
        answer(submission(Some(WorkerWaitResultV1::Terminal(
            cancelled_receipt(4)
        )))),
        Ok(SubmissionAnswerV2::Replay(_))
    ));
    let late = answer(submission(Some(WorkerWaitResultV1::TimedOut(view(
        4,
        StoreJobStateV1::Running,
    )))))
    .unwrap_err();
    assert_eq!(late.kind(), DispatchFailureKindV1::JobWaitTimeout);
    assert_eq!(late.job.unwrap().id, "job-4");
    assert_eq!(
        answer(Err(WorkerErrorV1::Store(
            StoreErrorV1::PreconditionConflictV1 {
                expected: Some(1),
                actual: Some(2)
            }
        )))
        .unwrap_err()
        .kind(),
        DispatchFailureKindV1::ItemRevisionConflict
    );
    assert_eq!(
        admitted_job(Ok(None)).unwrap_err().kind(),
        DispatchFailureKindV1::JobNotFound
    );
    let queued = || Ok(Some(view(4, StoreJobStateV1::Queued)));
    let (started, digest) =
        admitted_start(queued(), true, queued(), Some("procedure".to_owned())).unwrap();
    assert_eq!(started.id, "job-4");
    assert_eq!(digest, "procedure");
    assert!(admitted_start(queued(), false, queued(), Some("procedure".to_owned())).is_err());
    assert!(admitted_start(queued(), true, queued(), None).is_err());
    let output = detached_output(
        &request(true),
        "now".to_owned(),
        workspace(),
        started,
        &Some("procedure".to_owned()),
    );
    assert_eq!(
        Value::Object(output.result),
        json(
            r#"{"schema":"podway.detached-admission-result/v2","detached":true,
                "procedure_digest":"procedure",
                "admission":{"admitted":true,"job_id":"job-4","workspace_sequence":4}}"#
        )
    );
}

#[test]
fn a_previewed_start_looks_at_the_session_that_is_there() {
    let exact = |id: &str, revision| GraphStartCurrentTaskV2::Exact {
        session_id: id.to_owned(),
        session_revision: revision,
    };
    let absent = GraphStartCurrentTaskV2::Absent;
    let fence = |expected: &GraphStartCurrentTaskV2, actual: &GraphStartCurrentTaskV2| {
        validate_graph_start_dry_run_fence_v2(expected, actual).map_err(|failure| failure.kind())
    };
    assert_eq!(fence(&absent, &absent), Ok(()));
    assert_eq!(fence(&exact("s", 3), &exact("s", 3)), Ok(()));
    assert_eq!(
        fence(&absent, &exact("s", 3)),
        Err(DispatchFailureKindV1::SessionAlreadyExists)
    );
    assert_eq!(
        fence(&exact("s", 3), &absent),
        Err(DispatchFailureKindV1::SessionIdMismatch)
    );
    assert_eq!(
        fence(&exact("s", 3), &exact("t", 3)),
        Err(DispatchFailureKindV1::SessionIdMismatch)
    );
    assert_eq!(
        fence(&exact("s", 3), &exact("s", 4)),
        Err(DispatchFailureKindV1::SessionRevisionConflict)
    );
    let not_graph = || {
        Err(ProcedureV2StartPreparationErrorV1::Source(
            ProcedureV2SourceAdmissionErrorV1::NotProcedureV2,
        ))
    };
    let own = start(
        true,
        SessionStartSourceV1::Procedure {
            procedure: "procedure.yaml".to_owned(),
        },
    );
    assert_eq!(prepared_start(&own, false, not_graph()), Ok(None));
    assert!(prepared_start(&own, true, not_graph()).is_err());
    assert!(prepared_start(&preset(true), false, not_graph()).is_err());
    let prepared = PreparedStartV2 {
        procedure_digest: "digest".to_owned(),
        goal_tracking: true,
    };
    let output = start_preview_output(
        &request(false),
        "now".to_owned(),
        &prepared,
        true,
        Ok(()),
        &absent,
        Ok(GraphStartCurrentTaskV2::Absent),
    )
    .unwrap();
    assert_eq!(
        Value::Object(output.result),
        json(
            r#"{"schema":"podway.session-start-result/v2",
                "procedure_schema":"podway.procedure/v2","procedure_digest":"digest",
                "dry_run":true,"goal_tracking":true,"goal_defined":true}"#
        )
    );
    assert_eq!(
        start_preview_output(
            &request(false),
            "now".to_owned(),
            &prepared,
            true,
            Err(ProcedureV2StartPreparationErrorV1::GoalMutation(
                GraphMutationErrorV2::GoalTrackingNotEnabled
            )),
            &absent,
            Err(busy()),
        )
        .unwrap_err()
        .kind(),
        DispatchFailureKindV1::GoalTrackingNotEnabled
    );
}

#[test]
fn a_previewed_reset_tells_the_revision_that_it_would_clear() {
    let input = |revision| SessionResetV1 {
        confirmed: true,
        dry_run: true,
        preconditions: expects(revision),
    };
    let preview = |revision, view| {
        reset_preview_output(
            &request(false),
            "now".to_owned(),
            &input(revision),
            Ok(view),
            "/work".to_owned(),
        )
    };
    let output = preview(3, graph_view(Some("s"), 0)).unwrap().unwrap();
    assert_eq!(output.workspace, Some(workspace()));
    assert_eq!(
        Value::Object(output.result),
        json(
            r#"{"schema":"podway.stage-transition-result/v2","admission":{"admitted":false},
                "transition":"reset","reset":true,"revision":3}"#
        )
    );
    assert_eq!(preview(3, graph_view(None, 0)), Ok(None));
    assert_eq!(
        preview(3, graph_view(Some("t"), 0)).unwrap_err().kind(),
        DispatchFailureKindV1::SessionIdMismatch
    );
    assert_eq!(
        preview(2, graph_view(Some("s"), 0)).unwrap_err().details,
        DispatchErrorDetailsV1::Revisions {
            expected: Some(2),
            current: Some(3)
        }
    );
}

#[test]
fn a_read_of_an_inactive_session_sleeps_no_longer_than_its_wait() {
    let wait = ReadWaitV1::idle_until(MonotonicDeadlineV1::new(100));
    let step = |now| {
        graph_read_step(
            &wait,
            None,
            Ok((graph_view(Some("s"), 1), None)),
            now,
        )
    };
    assert_eq!(step(0), Ok(GraphReadStepV2::Sleep { millis: 50 }));
    assert_eq!(step(80), Ok(GraphReadStepV2::Sleep { millis: 20 }));
    assert_eq!(
        step(100).unwrap_err().kind(),
        DispatchFailureKindV1::JobWaitTimeout
    );
    assert_eq!(
        graph_read_step(&wait, None, Ok((graph_view(None, 1), None)), 0),
        Ok(GraphReadStepV2::NotHandled)
    );
    let after = ReadWaitV1::after_job_until("job".to_owned(), MonotonicDeadlineV1::new(100));
    assert_eq!(
        graph_read_step(&after, None, Ok((graph_view(Some("s"), 1), None)), 0)
            .unwrap_err()
            .kind(),
        DispatchFailureKindV1::JobNotFound
    );
    assert_eq!(
        graph_read_step(
            &after,
            None,
            Ok((graph_view(Some("s"), 1), Some(StoreJobStateV1::Failed))),
            0
        ),
        Ok(GraphReadStepV2::Ready(graph_view(Some("s"), 1)))
    );
    assert_eq!(active_graph_view(Ok(graph_view(None, 0))), Ok(None));
    assert_eq!(
        active_graph_view(Err(ReadServiceErrorV1::WaitTimedOut))
            .unwrap_err()
            .kind(),
        DispatchFailureKindV1::JobWaitTimeout
    );
    let status = |compact, verbose| {
        status_tier(&SessionStatusV1 {
            wait: RequestReadWaitV1::Immediate,
            expected_session_id: None,
            compact,
            verbose,
            history_before: None,
        })
    };
    assert_eq!(status(true, true), GraphStatusTierV2::Compact);
    assert_eq!(status(false, true), GraphStatusTierV2::Verbose);
    assert_eq!(status(false, false), GraphStatusTierV2::Standard);
    let output = graph_read_output(
        &request(false),
        "now".to_owned(),
        &graph_view(Some("s"), 0),
        "/work".to_owned(),
        Ok(serde_json::Map::new()),
    )
    .unwrap();
    assert_eq!(output.request_id, "request");
    assert_eq!(output.generated_at, "now");
    assert_eq!(output.workspace, Some(workspace()));
    assert!(graph_read_output(
        &request(false),
        "now".to_owned(),
        &graph_view(Some("s"), 0),
        "/work".to_owned(),
        Err(GraphViewErrorV2::InvalidSnapshot),
    )
    .is_err());
}
