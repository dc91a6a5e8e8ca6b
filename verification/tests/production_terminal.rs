//! What is answered for jobs that have ended.

use podway_daemon::dispatch::{
    AdmissionIdentityV1, DispatchErrorDetailsV1, DispatchFailureKindV1, DispatchFailureV1,
    JobOutputV1, JobStateV1, SessionLifecycleV1, WorkspaceOutputV1,
};
use podway_daemon::production::failures::TerminalCommandKindV1;
use podway_daemon::production::frozen::validate_frozen_v2_result_projection;
use podway_daemon::production::graph_envelope::{
    graph_start_terminal_envelope_v2, GraphTerminalEnvelopeV2, OutputEnvelopeInputV2,
};
use podway_daemon::production::mutations::{terminal_outcome, MutationDispatchOutcomeV1};
use podway_daemon::production::receipts::{
    admitted_job_id, durable_command_name, job_output_from_terminal_receipt, rfc3339_millis,
    terminal_replay,
};
use podway_daemon::production::terminal::{
    expected_terminal_failure, job_read_projection, job_result_value,
    receipt_only_job_projection, receipt_only_job_result_value, seal_terminal_receipt_v1,
    terminal_direct_response_v2, terminal_job_response, terminal_response_requires_v2_wrapper,
    terminal_result_for_kind, terminal_session_projection, terminal_success_result_map,
    validate_frozen_terminal_envelope, DecodedResponseV2, DispatcherTerminalResultV1,
    FrozenEnvelopeEvidenceV1, SealedTerminalResponseV1, TerminalJobResponseV1,
};
use podway_daemon::store::{
    AdmitOutcomeV1, CommandV1, JobReceiptOrTerminalV1, JobReceiptV1, JobViewV1,
    PersistedDomainErrorV1, PersistedDomainResultV1, PersistedGraphMutationFailureV2,
    PersistedGraphTerminalOperationV2, PersistedGraphTerminalSessionProjectionV2,
    PersistedResponseContextV1, PersistedSessionLifecycleV1, PersistedTerminalJobProjectionV1,
    PersistedTerminalJobStateV1, PersistedTerminalReceiptV1, PersistedTerminalResultV1,
    PersistedTerminalSessionProjectionV1, StoreErrorV1, StoreInvariantV1, StoreJobStateV1,
};
use serde_json::Value;

const DIGEST_A: &str = "sha256:aaaaaaaaaaaaaaaaaaaaaaaaaaaaaaaaaaaaaaaaaaaaaaaaaaaaaaaaaaaaaaaa";
const DIGEST_B: &str = "sha256:bbbbbbbbbbbbbbbbbbbbbbbbbbbbbbbbbbbbbbbbbbbbbbbbbbbbbbbbbbbbbbbb";
const WORKSPACE: &str = "00000000-0000-4000-8000-000000000099";

fn json(text: &str) -> Value {
    serde_json::from_str(text).unwrap()
}

fn fixture_job(sequence: u64) -> JobReceiptV1 {
    JobReceiptV1 {
        identity_sequence: sequence,
        job_id: format!("00000000-0000-4000-8000-{sequence:012x}"),
        request_digest: DIGEST_A.to_owned(),
    }
}

fn terminal_job_projection(state: PersistedTerminalJobStateV1) -> PersistedTerminalJobProjectionV1 {
    PersistedTerminalJobProjectionV1 {
        state,
        submitted_at: 10,
        claimed_at: (state != PersistedTerminalJobStateV1::Cancelled).then_some(11),
        finished_at: 12,
    }
}

fn receipt(
    job: JobReceiptV1,
    result: PersistedTerminalResultV1,
    state: PersistedTerminalJobStateV1,
    session_projection: Option<PersistedTerminalSessionProjectionV1>,
) -> PersistedTerminalReceiptV1 {
    PersistedTerminalReceiptV1 {
        job,
        result,
        job_projection: Some(terminal_job_projection(state)),
        session_projection,
        graph_session_projection: None,
        lookup_command: None,
        response_context: None,
        public_terminal_envelope: None,
    }
}

fn correlated(
    mut receipt: PersistedTerminalReceiptV1,
    command: CommandV1,
    sequence: u64,
) -> PersistedTerminalReceiptV1 {
    receipt.lookup_command = Some(command);
    receipt.response_context = Some(PersistedResponseContextV1 {
        request_id: format!("00000000-0000-4000-8000-{sequence:012x}"),
        command: durable_command_name(command).to_owned(),
        workspace_uuid: WORKSPACE.to_owned(),
        workspace_root: "/safe/worktree".to_owned(),
        workspace_sequence: sequence,
    });
    receipt
}

fn asked_by(mut receipt: PersistedTerminalReceiptV1, request_id: &str) -> PersistedTerminalReceiptV1 {
    receipt.response_context.as_mut().unwrap().request_id = request_id.to_owned();
    receipt
}

fn terminal_view(
    command: CommandV1,
    state: StoreJobStateV1,
    receipt: PersistedTerminalReceiptV1,
) -> JobViewV1 {
    let sequence = receipt.job.identity_sequence;
    let receipt = correlated(receipt, command, sequence);
    let projection = receipt.job_projection.unwrap();
    JobViewV1 {
        command,
        job: receipt.job.clone(),
        state,
        submitted_at: projection.submitted_at,
        claimed_at: projection.claimed_at,
        finished_at: Some(projection.finished_at),
        terminal_receipt: Some(receipt),
    }
}

fn terminal_session_result(session_id: &str) -> PersistedDomainResultV1 {
    PersistedDomainResultV1::SessionChanged {
        session_id: session_id.to_owned(),
        revision_before: 4,
        revision_after: 5,
        changed: true,
    }
}

fn terminal_session_clear_result(session_id: &str) -> PersistedDomainResultV1 {
    PersistedDomainResultV1::SessionChanged {
        session_id: session_id.to_owned(),
        revision_before: 4,
        revision_after: 0,
        changed: true,
    }
}

fn fixture_terminal_session_projection(session_id: &str) -> PersistedTerminalSessionProjectionV1 {
    PersistedTerminalSessionProjectionV1 {
        session_id: session_id.to_owned(),
        task_title: "Stored immutable terminal session".to_owned(),
        lifecycle: PersistedSessionLifecycleV1::Running,
        revision_before: 4,
        revision_after: 5,
        procedure_digest: None,
    }
}

fn job_state_name(state: JobStateV1) -> &'static str {
    match state {
        JobStateV1::Queued => "queued",
        JobStateV1::Running => "running",
        JobStateV1::Succeeded => "succeeded",
        JobStateV1::Failed => "failed",
        JobStateV1::Cancelled => "cancelled",
    }
}

fn job_state(name: &str) -> JobStateV1 {
    match name {
        "queued" => JobStateV1::Queued,
        "running" => JobStateV1::Running,
        "succeeded" => JobStateV1::Succeeded,
        "failed" => JobStateV1::Failed,
        _ => JobStateV1::Cancelled,
    }
}

fn optional(text: &Option<String>) -> Value {
    text.clone().map_or(Value::Null, Value::String)
}

fn job_document(job: &JobOutputV1) -> Value {
    let mut document = serde_json::Map::new();
    document.insert("id".to_owned(), Value::from(job.id.clone()));
    document.insert("sequence".to_owned(), Value::from(job.sequence));
    document.insert("state".to_owned(), Value::from(job_state_name(job.state)));
    document.insert("submitted_at".to_owned(), Value::from(job.submitted_at.clone()));
    document.insert("claimed_at".to_owned(), optional(&job.claimed_at));
    document.insert("finished_at".to_owned(), optional(&job.finished_at));
    Value::Object(document)
}

fn job_of(document: &Value) -> JobOutputV1 {
    JobOutputV1 {
        id: document["id"].as_str().unwrap().to_owned(),
        sequence: document["sequence"].as_u64().unwrap(),
        state: job_state(document["state"].as_str().unwrap()),
        submitted_at: document["submitted_at"].as_str().unwrap().to_owned(),
        claimed_at: document["claimed_at"].as_str().map(str::to_owned),
        finished_at: document["finished_at"].as_str().map(str::to_owned),
    }
}

fn decoded(envelope: &Value) -> DecodedResponseV2 {
    DecodedResponseV2::OutputV2 {
        command: envelope["command"].as_str().unwrap().to_owned(),
        job: Some(job_of(&envelope["job"])),
        generated_at: envelope["generated_at"].as_str().unwrap().to_owned(),
        result: envelope["result"].as_object().unwrap().clone(),
    }
}

fn evidence(receipt: &PersistedTerminalReceiptV1, decoded: DecodedResponseV2) -> FrozenEnvelopeEvidenceV1 {
    FrozenEnvelopeEvidenceV1 {
        job_document: job_document(&job_output_from_terminal_receipt(receipt).unwrap()),
        decoded,
        expected_error: Err(DispatchFailureV1::new(
            DispatchFailureKindV1::WorkspaceStateUnreadable,
        )),
    }
}

fn absent() -> FrozenEnvelopeEvidenceV1 {
    FrozenEnvelopeEvidenceV1::absent()
}

fn rendered(response: TerminalJobResponseV1) -> DispatcherTerminalResultV1 {
    match response {
        TerminalJobResponseV1::Render { result, .. } => result,
        TerminalJobResponseV1::Document(document) => panic!("unexpected document {document}"),
    }
}

fn document(response: TerminalJobResponseV1) -> Value {
    match response {
        TerminalJobResponseV1::Document(document) => document,
        TerminalJobResponseV1::Render { .. } => panic!("a document was expected"),
    }
}

fn unreadable<T: std::fmt::Debug>(result: Result<T, DispatchFailureV1>) {
    assert_eq!(
        result.unwrap_err().kind(),
        DispatchFailureKindV1::WorkspaceStateUnreadable
    );
}

#[test]
fn terminal_job_projection_builds_output_without_a_live_job_view() {
    let receipt = receipt(
        JobReceiptV1 {
            identity_sequence: 7,
            job_id: "00000000-0000-4000-8000-000000000007".to_owned(),
            request_digest: DIGEST_A.to_owned(),
        },
        PersistedTerminalResultV1::Cancelled,
        PersistedTerminalJobStateV1::Cancelled,
        None,
    );

    let output = job_output_from_terminal_receipt(&receipt).unwrap();

    assert_eq!(output.id, receipt.job.job_id);
    assert_eq!(output.sequence, 7);
    assert_eq!(output.state, JobStateV1::Cancelled);
    assert_eq!(output.submitted_at, "1970-01-01T00:00:00.010Z");
    assert!(output.claimed_at.is_none());
    assert_eq!(
        output.finished_at.as_deref(),
        Some("1970-01-01T00:00:00.012Z")
    );
}

#[test]
fn receipt_only_lookup_projects_terminal_response_and_rejects_legacy_receipts() {
    let mut receipt = receipt(
        JobReceiptV1 {
            identity_sequence: 7,
            job_id: "00000000-0000-4000-8000-000000000017".to_owned(),
            request_digest: DIGEST_A.to_owned(),
        },
        PersistedTerminalResultV1::Cancelled,
        PersistedTerminalJobStateV1::Cancelled,
        None,
    );
    assert!(receipt_only_job_projection(&receipt, DIGEST_A, absent()).is_err());
    assert!(
        receipt_only_job_result_value(&receipt, DIGEST_A, &json("{}"), Value::Null).is_err()
    );

    receipt.lookup_command = Some(CommandV1::WorkspaceInitialize);
    let (job, response) = receipt_only_job_projection(&receipt, DIGEST_A, absent()).unwrap();
    let output = receipt_only_job_result_value(
        &receipt,
        DIGEST_A,
        &job_document(&job),
        document(response),
    )
    .unwrap();
    assert_eq!(output["id"], receipt.job.job_id.as_str());
    assert_eq!(output["sequence"], 7);
    assert_eq!(output["state"], "cancelled");
    assert_eq!(output["command"], "workspace.init");
    assert_eq!(output["terminal_response"]["kind"], "cancelled");
    assert_eq!(output["request_digest"], DIGEST_A);
    assert!(receipt_only_job_projection(&receipt, DIGEST_B, absent()).is_err());
    assert!(
        receipt_only_job_result_value(&receipt, DIGEST_B, &json("{}"), Value::Null).is_err()
    );
}

#[test]
fn terminal_session_projection_is_independent_of_current_session_state() {
    let session_id = "00000000-0000-4000-8000-000000000008";
    let projection = PersistedTerminalSessionProjectionV1 {
        session_id: session_id.to_owned(),
        task_title: "Immutable terminal session".to_owned(),
        lifecycle: PersistedSessionLifecycleV1::Running,
        revision_before: 4,
        revision_after: 5,
        procedure_digest: None,
    };

    let output = terminal_session_projection(
        &terminal_session_result(session_id),
        &Some(projection),
        TerminalCommandKindV1::Other,
    )
    .unwrap()
    .expect("persisted session projection must produce output");

    assert_eq!(output.id, session_id);
    assert_eq!(output.title, "Immutable terminal session");
    assert_eq!(output.lifecycle, SessionLifecycleV1::Running);
    assert_eq!(output.revision_before, 4);
    assert_eq!(output.revision_after, 5);
}

#[test]
fn pstrt004_terminal_job_replay_exposes_the_admitted_procedure_digest() {
    let session_id = "00000000-0000-4000-8000-000000000018";
    let digest = "sha256:cccccccccccccccccccccccccccccccccccccccccccccccccccccccccccccccc";
    let started = |procedure_digest: Option<String>| {
        asked_by(correlated(
            receipt(
                fixture_job(18),
                PersistedTerminalResultV1::Success(PersistedDomainResultV1::SessionChanged {
                    session_id: session_id.to_owned(),
                    revision_before: 0,
                    revision_after: 1,
                    changed: true,
                }),
                PersistedTerminalJobStateV1::Succeeded,
                Some(PersistedTerminalSessionProjectionV1 {
                    session_id: session_id.to_owned(),
                    task_title: "Immutable start digest".to_owned(),
                    lifecycle: PersistedSessionLifecycleV1::Running,
                    revision_before: 0,
                    revision_after: 1,
                    procedure_digest,
                }),
            ),
            CommandV1::SessionStart,
            18,
        ), "00000000-0000-4000-8000-000000000018")
    };

    let response = terminal_job_response(
        &started(Some(digest.to_owned())),
        TerminalCommandKindV1::Start,
        absent(),
    )
    .unwrap();
    let DispatcherTerminalResultV1::Output { result, .. } = rendered(response) else {
        panic!("a success is answered with an output");
    };
    assert_eq!(result["procedure_digest"], digest);
    unreadable(terminal_job_response(
        &started(None),
        TerminalCommandKindV1::Start,
        absent(),
    ));
}

#[test]
fn recon003_terminal_replay_prefers_the_frozen_public_envelope() {
    let mut receipt = asked_by(
        correlated(
        receipt(
            fixture_job(19),
            PersistedTerminalResultV1::Success(PersistedDomainResultV1::WorkspaceInitialized {
                workspace_id: WORKSPACE.to_owned(),
                revision: 0,
            }),
            PersistedTerminalJobStateV1::Succeeded,
            None,
        ),
        CommandV1::WorkspaceInitialize,
        19,
        ),
        "00000000-0000-4000-8000-000000000019",
    );
    let TerminalJobResponseV1::Render { context, job, .. } =
        terminal_job_response(&receipt, TerminalCommandKindV1::Other, absent()).unwrap()
    else {
        panic!("a receipt without a frozen envelope is rendered");
    };
    assert_eq!(context.request_id, "00000000-0000-4000-8000-000000000019");
    assert_eq!(context.generated_at, "1970-01-01T00:00:00.012Z");
    let mut frozen = json(
        r#"{
            "schema": "podway.output/v1",
            "request_id": "00000000-0000-4000-8000-000000000019",
            "command": "workspace.init",
            "workspace": {
                "uuid": "00000000-0000-4000-8000-000000000099",
                "root": "/safe/worktree",
                "latest_workspace_sequence": 19
            },
            "warnings": [{"code": "frozen-renderer"}]
        }"#,
    );
    frozen["job"] = job_document(&job);
    receipt.public_terminal_envelope = Some(frozen.clone());

    assert_eq!(
        document(
            terminal_job_response(
                &receipt,
                TerminalCommandKindV1::Other,
                evidence(&receipt, DecodedResponseV2::Other)
            )
            .unwrap()
        ),
        frozen
    );
}

fn procedure_v2_terminal_fixture(sequence: u64) -> (PersistedTerminalReceiptV1, Value) {
    let session_id = "00000000-0000-4000-8000-000000000080";
    let mut projection = fixture_terminal_session_projection(session_id);
    projection.lifecycle = PersistedSessionLifecycleV1::Completed;
    let receipt = correlated(
        receipt(
            fixture_job(sequence),
            PersistedTerminalResultV1::Success(terminal_session_result(session_id)),
            PersistedTerminalJobStateV1::Succeeded,
            Some(projection),
        ),
        CommandV1::SessionComplete,
        sequence,
    );
    let job = job_output_from_terminal_receipt(&receipt).unwrap();
    let mut envelope = json(
        r#"{
            "schema": "podway.output/v2",
            "command": "session.complete",
            "workspace": {
                "uuid": "00000000-0000-4000-8000-000000000099",
                "root": "/safe/worktree"
            },
            "result": {
                "schema": "podway.stage-transition-result/v2",
                "admission": {"admitted": true},
                "transition": "complete",
                "from_graph_node_id": "work",
                "from_attempt_id": "00000000-0000-4000-8000-000000000081",
                "revision": 5,
                "session_state": "completed"
            },
            "warnings": []
        }"#,
    );
    let id = format!("00000000-0000-4000-8000-{sequence:012x}");
    envelope["request_id"] = Value::from(id.clone());
    envelope["generated_at"] = optional(&job.finished_at);
    envelope["workspace"]["latest_workspace_sequence"] = Value::from(sequence);
    envelope["job"] = job_document(&job);
    envelope["result"]["admission"]["job_id"] = Value::from(id);
    envelope["result"]["admission"]["workspace_sequence"] = Value::from(sequence);
    (receipt, envelope)
}

#[test]
fn v2plt007_terminal_replay_accepts_a_complete_correlated_v2_envelope() {
    let (mut receipt, frozen) = procedure_v2_terminal_fixture(80);
    validate_frozen_terminal_envelope(&receipt, &frozen, evidence(&receipt, decoded(&frozen)))
        .unwrap();
    receipt.public_terminal_envelope = Some(frozen.clone());

    assert_eq!(
        document(
            terminal_job_response(
                &receipt,
                TerminalCommandKindV1::Other,
                evidence(&receipt, decoded(&frozen))
            )
            .unwrap()
        ),
        frozen
    );
}

fn graph_receipt(
    sequence: u64,
    command: CommandV1,
    result: PersistedTerminalResultV1,
    state: PersistedTerminalJobStateV1,
    graph: PersistedGraphTerminalSessionProjectionV2,
) -> PersistedTerminalReceiptV1 {
    let mut receipt = receipt(fixture_job(sequence), result, state, None);
    receipt.graph_session_projection = Some(graph);
    correlated(receipt, command, sequence)
}

fn graph_session(
    title: &str,
    entry: &str,
    operation: Option<PersistedGraphTerminalOperationV2>,
) -> PersistedGraphTerminalSessionProjectionV2 {
    PersistedGraphTerminalSessionProjectionV2 {
        session_id: "00000000-0000-4000-8000-000000000080".to_owned(),
        task_title: title.to_owned(),
        lifecycle: PersistedSessionLifecycleV1::Running,
        revision_before: 4,
        revision_after: 5,
        procedure_digest: DIGEST_A.to_owned(),
        entry_graph_node_id: entry.to_owned(),
        goal_tracking: false,
        goal_defined: false,
        operation,
    }
}

fn sealed_output(receipt: &PersistedTerminalReceiptV1) -> OutputEnvelopeInputV2 {
    match seal_terminal_receipt_v1(receipt, absent()).unwrap() {
        SealedTerminalResponseV1::Graph(GraphTerminalEnvelopeV2::Output(output)) => output,
        other => panic!("an output was expected, not {other:?}"),
    }
}

fn envelope_of(output: &OutputEnvelopeInputV2) -> Value {
    let workspace: &WorkspaceOutputV1 = output.workspace.as_ref().unwrap();
    let mut envelope = json(r#"{"schema": "podway.output/v2", "workspace": {}, "warnings": []}"#);
    envelope["request_id"] = Value::from(output.request_id.clone());
    envelope["command"] = Value::from(output.command.clone());
    envelope["generated_at"] = Value::from(output.generated_at.clone());
    envelope["workspace"]["uuid"] = Value::from(workspace.uuid.clone());
    envelope["workspace"]["root"] = Value::from(workspace.root.clone());
    envelope["workspace"]["latest_workspace_sequence"] =
        Value::from(workspace.latest_workspace_sequence);
    envelope["job"] = job_document(output.job.as_ref().unwrap());
    envelope["result"] = Value::Object(output.result.clone());
    envelope
}

#[test]
fn v2run004_retry_terminal_seals_required_same_node_fields_and_reason() {
    let from_attempt_id = "00000000-0000-4000-8000-000000000081";
    let to_attempt_id = "00000000-0000-4000-8000-000000000082";
    let reason = "Retry from a clean attempt.";
    let receipt = graph_receipt(
        83,
        CommandV1::SessionRetry,
        PersistedTerminalResultV1::Success(terminal_session_result(
            "00000000-0000-4000-8000-000000000080",
        )),
        PersistedTerminalJobStateV1::Succeeded,
        graph_session(
            "Stored immutable retry session",
            "work",
            Some(PersistedGraphTerminalOperationV2::Retry {
                graph_node_id: "work".to_owned(),
                from_attempt_id: from_attempt_id.to_owned(),
                to_attempt_id: to_attempt_id.to_owned(),
                reason: reason.to_owned(),
            }),
        ),
    );

    let envelope = envelope_of(&sealed_output(&receipt));
    assert_eq!(envelope["result"]["transition"], "retry");
    assert_eq!(envelope["result"]["from_graph_node_id"], "work");
    assert_eq!(envelope["result"]["to_graph_node_id"], "work");
    assert_eq!(envelope["result"]["from_attempt_id"], from_attempt_id);
    assert_eq!(envelope["result"]["to_attempt_id"], to_attempt_id);
    assert_eq!(envelope["result"]["reason"], reason);
    validate_frozen_terminal_envelope(&receipt, &envelope, evidence(&receipt, decoded(&envelope)))
        .unwrap();
}

#[test]
fn v2run005_skip_terminal_seals_successor_fields_and_optional_reason() {
    let from_attempt_id = "00000000-0000-4000-8000-000000000081";
    let to_attempt_id = "00000000-0000-4000-8000-000000000082";
    let reason = "The optional work is unnecessary.";
    let receipt = graph_receipt(
        84,
        CommandV1::SessionSkip,
        PersistedTerminalResultV1::Success(terminal_session_result(
            "00000000-0000-4000-8000-000000000080",
        )),
        PersistedTerminalJobStateV1::Succeeded,
        graph_session(
            "Stored immutable skip session",
            "entry",
            Some(PersistedGraphTerminalOperationV2::Skip {
                from_graph_node_id: "optional-work".to_owned(),
                from_attempt_id: from_attempt_id.to_owned(),
                to_graph_node_id: Some("review".to_owned()),
                to_attempt_id: Some(to_attempt_id.to_owned()),
                reason: Some(reason.to_owned()),
            }),
        ),
    );

    let envelope = envelope_of(&sealed_output(&receipt));
    assert_eq!(envelope["result"]["transition"], "skip");
    assert_eq!(envelope["result"]["from_graph_node_id"], "optional-work");
    assert_eq!(envelope["result"]["to_graph_node_id"], "review");
    assert_eq!(envelope["result"]["from_attempt_id"], from_attempt_id);
    assert_eq!(envelope["result"]["to_attempt_id"], to_attempt_id);
    assert_eq!(envelope["result"]["reason"], reason);
    validate_frozen_terminal_envelope(&receipt, &envelope, evidence(&receipt, decoded(&envelope)))
        .unwrap();
}

#[test]
fn v2plt007_terminal_replay_rejects_open_or_mismatched_v2_receipts() {
    let (receipt, frozen) = procedure_v2_terminal_fixture(81);
    let changed = |change: &dyn Fn(&mut Value)| {
        let mut value = frozen.clone();
        change(&mut value);
        value
    };
    // An envelope with a member that its closed shape does not know, or with an incomplete
    // warning, cannot be read back.
    let invalid = [
        (
            changed(&|value| value["result"]["unexpected"] = Value::Bool(true)),
            true,
        ),
        (
            changed(&|value| {
                value["result"]["admission"]["job_id"] =
                    Value::from("00000000-0000-4000-8000-000000000099");
            }),
            false,
        ),
        (
            changed(&|value| value["job"]["finished_at"] = Value::from("2026-08-09T00:00:00.000Z")),
            false,
        ),
        (
            changed(&|value| value["command"] = Value::from("session.skip")),
            false,
        ),
        (
            changed(&|value| value["warnings"] = json(r#"[{"code":"incomplete"}]"#)),
            true,
        ),
        (
            changed(&|value| value["result"]["revision"] = Value::from(6)),
            false,
        ),
        (
            changed(&|value| value["result"]["transition"] = Value::from("skip")),
            false,
        ),
    ];

    for (envelope, is_open) in invalid {
        let read = if is_open {
            DecodedResponseV2::Rejected
        } else {
            decoded(&envelope)
        };
        let mut receipt = receipt.clone();
        receipt.public_terminal_envelope = Some(envelope);
        let evidence = evidence(&receipt, read);
        unreadable(terminal_job_response(
            &receipt,
            TerminalCommandKindV1::Other,
            evidence,
        ));
    }
}

fn failed(sequence: u64, error: PersistedDomainErrorV1) -> PersistedTerminalReceiptV1 {
    correlated(
        receipt(
            fixture_job(sequence),
            PersistedTerminalResultV1::Failure(error),
            PersistedTerminalJobStateV1::Failed,
            None,
        ),
        CommandV1::SessionComplete,
        sequence,
    )
}

fn error_envelope(receipt: &PersistedTerminalReceiptV1) -> Value {
    let failure = expected_terminal_failure(receipt).unwrap();
    let mut envelope = json(
        r#"{
            "schema": "podway.error/v1",
            "generated_at": "2026-07-18T00:00:02.000Z",
            "request_id": "00000000-0000-4000-8000-000000000052",
            "command": "session.complete",
            "workspace": {
                "uuid": "00000000-0000-4000-8000-000000000099",
                "root": "/safe/worktree",
                "latest_workspace_sequence": 82
            },
            "message": "The session changed after it was observed.",
            "retryable": true,
            "exit_code": 4,
            "details": {}
        }"#,
    );
    envelope["job"] = job_document(&job_output_from_terminal_receipt(receipt).unwrap());
    match failure.details {
        DispatchErrorDetailsV1::Revisions { expected, current } => {
            envelope["code"] = Value::from("SESSION_REVISION_CONFLICT");
            envelope["details"]["expected_revision"] = Value::from(expected.unwrap());
            envelope["details"]["current_revision"] = Value::from(current.unwrap());
        }
        _ => {
            envelope["code"] = Value::from("SESSION_ID_MISMATCH");
            envelope["retryable"] = Value::Bool(false);
        }
    }
    envelope
}

fn error_evidence(receipt: &PersistedTerminalReceiptV1, envelope: &Value) -> FrozenEnvelopeEvidenceV1 {
    FrozenEnvelopeEvidenceV1 {
        job_document: job_document(&job_output_from_terminal_receipt(receipt).unwrap()),
        decoded: DecodedResponseV2::Error {
            document: envelope.clone(),
        },
        expected_error: match expected_terminal_failure(receipt) {
            Ok(_) => Ok(error_envelope(receipt)),
            Err(failure) => Err(failure),
        },
    }
}

#[test]
fn v2plt007_terminal_error_replay_is_typed_and_failure_bound() {
    let failure = failed(
        82,
        PersistedDomainErrorV1::PreconditionFailed {
            expected: 4,
            actual: 5,
        },
    );
    let valid = error_envelope(&failure);
    validate_frozen_terminal_envelope(&failure, &valid, error_evidence(&failure, &valid)).unwrap();
    let mut improved_message = valid.clone();
    improved_message["message"] = Value::from("The observed session revision changed.");
    validate_frozen_terminal_envelope(
        &failure,
        &improved_message,
        error_evidence(&failure, &improved_message),
    )
    .unwrap();

    let (success, _) = procedure_v2_terminal_fixture(82);
    assert!(validate_frozen_terminal_envelope(
        &success,
        &valid,
        error_evidence(&success, &valid)
    )
    .is_err());

    let alternate_receipt = failed(
        82,
        PersistedDomainErrorV1::SessionIdentityMismatch {
            expected: "00000000-0000-4000-8000-000000000090".to_owned(),
            actual: Some("00000000-0000-4000-8000-000000000091".to_owned()),
        },
    );
    let alternate = error_envelope(&alternate_receipt);
    assert!(validate_frozen_terminal_envelope(
        &failure,
        &alternate,
        error_evidence(&failure, &alternate)
    )
    .is_err());

    let changed = |change: &dyn Fn(&mut Value)| {
        let mut value = valid.clone();
        change(&mut value);
        value
    };
    let invalid = [
        changed(&|value| value["details"]["unknown"] = Value::Bool(true)),
        changed(&|value| value["code"] = Value::from("UNSUPPORTED_V2_CAPABILITY")),
        changed(&|value| value["retryable"] = Value::Bool(!value["retryable"].as_bool().unwrap())),
        changed(&|value| value["exit_code"] = Value::from(6)),
    ];
    for envelope in invalid {
        assert!(validate_frozen_terminal_envelope(
            &failure,
            &envelope,
            error_evidence(&failure, &envelope)
        )
        .is_err());
    }
}

#[test]
fn a_frozen_error_may_change_in_its_message_alone() {
    let failure = failed(
        82,
        PersistedDomainErrorV1::PreconditionFailed {
            expected: 4,
            actual: 5,
        },
    );
    let valid = error_envelope(&failure);
    let verdict = |receipt: &PersistedTerminalReceiptV1, envelope: &Value| {
        validate_frozen_terminal_envelope(receipt, envelope, error_evidence(receipt, envelope))
    };
    assert!(verdict(&failure, &valid).is_ok());
    for message in [Value::from("Another message."), Value::Null] {
        let mut changed = valid.clone();
        changed["message"] = message;
        assert!(verdict(&failure, &changed).is_ok());
    }
    let mut without = valid.clone();
    without.as_object_mut().unwrap().remove("message");
    assert!(verdict(&failure, &without).is_ok());

    for name in [
        "code",
        "retryable",
        "exit_code",
        "generated_at",
        "request_id",
        "command",
        "workspace",
        "details",
        "job",
    ] {
        let mut changed = valid.clone();
        changed[name] = Value::from("changed");
        unreadable(verdict(&failure, &changed));
        let mut read_otherwise = error_evidence(&failure, &changed);
        read_otherwise.decoded = DecodedResponseV2::Rejected;
        unreadable(validate_frozen_terminal_envelope(
            &failure,
            &changed,
            read_otherwise,
        ));
    }
    let mut added = valid.clone();
    added["unknown"] = Value::Bool(true);
    unreadable(verdict(&failure, &added));

    let (success, _) = procedure_v2_terminal_fixture(82);
    let mut held_against_itself = error_evidence(&success, &valid);
    held_against_itself.expected_error = Ok(valid.clone());
    assert!(validate_frozen_terminal_envelope(&success, &valid, held_against_itself).is_err());
}

#[test]
fn projectionless_terminal_replay_fails_closed() {
    let job = JobReceiptV1 {
        identity_sequence: 9,
        job_id: "00000000-0000-4000-8000-000000000009".to_owned(),
        request_digest: DIGEST_B.to_owned(),
    };
    let mut missing_job_projection = receipt(
        job.clone(),
        PersistedTerminalResultV1::Cancelled,
        PersistedTerminalJobStateV1::Cancelled,
        None,
    );
    missing_job_projection.job_projection = None;
    unreadable(job_output_from_terminal_receipt(&missing_job_projection));

    let mut missing_session_projection = receipt(
        job,
        PersistedTerminalResultV1::Success(PersistedDomainResultV1::SessionChanged {
            session_id: "00000000-0000-4000-8000-000000000010".to_owned(),
            revision_before: 1,
            revision_after: 2,
            changed: true,
        }),
        PersistedTerminalJobStateV1::Succeeded,
        None,
    );
    missing_session_projection.job_projection = None;
    unreadable(terminal_result_for_kind(
        &missing_session_projection,
        TerminalCommandKindV1::Other,
    ));
}

#[test]
fn session_reset_terminal_without_projection_renders_immediate_replay_and_job_read() {
    let session_id = "00000000-0000-4000-8000-000000000011";
    let cleared = |sequence: u64| {
        receipt(
            fixture_job(sequence),
            PersistedTerminalResultV1::Success(terminal_session_clear_result(session_id)),
            PersistedTerminalJobStateV1::Succeeded,
            None,
        )
    };
    let receipt = cleared(11);

    assert_eq!(
        terminal_result_for_kind(&receipt, TerminalCommandKindV1::SessionReset),
        Ok(DispatcherTerminalResultV1::Output {
            session: None,
            result: terminal_success_result_map(&terminal_session_clear_result(session_id)),
        }),
    );
    unreadable(terminal_result_for_kind(
        &receipt,
        TerminalCommandKindV1::Other,
    ));
    let invalid_view = terminal_view(
        CommandV1::WorkspaceInitialize,
        StoreJobStateV1::Succeeded,
        cleared(12),
    );
    unreadable(job_read_projection(&invalid_view, absent()));

    let view = terminal_view(CommandV1::SessionReset, StoreJobStateV1::Succeeded, receipt);
    let (_, terminal) = job_read_projection(&view, absent()).unwrap();
    let DispatcherTerminalResultV1::Output { session, result } = rendered(terminal.unwrap()) else {
        panic!("a success is answered with an output");
    };
    assert_eq!(result["changed"], true);
    assert_eq!(result["revision_after"], 0);
    assert_eq!(session, None);
}

#[test]
fn job_reads_project_complete_terminal_success_receipts() {
    let session_id = "00000000-0000-4000-8000-000000000020";
    let view = terminal_view(
        CommandV1::SessionComplete,
        StoreJobStateV1::Succeeded,
        receipt(
            fixture_job(20),
            PersistedTerminalResultV1::Success(terminal_session_result(session_id)),
            PersistedTerminalJobStateV1::Succeeded,
            Some(fixture_terminal_session_projection(session_id)),
        ),
    );

    let (job, terminal) = job_read_projection(&view, absent()).unwrap();

    assert_eq!(job.state, JobStateV1::Succeeded);
    let DispatcherTerminalResultV1::Output { session, result } = rendered(terminal.unwrap()) else {
        panic!("a success is answered with an output");
    };
    assert_eq!(result["changed"], true);
    let session = session.unwrap();
    assert_eq!(session.title, "Stored immutable terminal session");
    assert_eq!(session.revision_before, 4);
    assert_eq!(session.revision_after, 5);
}

fn read_failure(command: CommandV1, sequence: u64, error: PersistedDomainErrorV1) -> DispatchFailureV1 {
    let view = terminal_view(
        command,
        StoreJobStateV1::Failed,
        receipt(
            fixture_job(sequence),
            PersistedTerminalResultV1::Failure(error),
            PersistedTerminalJobStateV1::Failed,
            None,
        ),
    );
    let (job, terminal) = job_read_projection(&view, absent()).unwrap();
    assert_eq!(job.id, fixture_job(sequence).job_id);
    assert_eq!(job.sequence, sequence);
    match rendered(terminal.unwrap()) {
        DispatcherTerminalResultV1::Error(failure) => failure,
        DispatcherTerminalResultV1::Output { .. } => panic!("a failure is answered with an error"),
    }
}

#[test]
fn job_reads_render_failed_receipts_with_public_catalog_errors() {
    let conflict = read_failure(
        CommandV1::ItemCheck,
        21,
        PersistedDomainErrorV1::PreconditionFailed {
            expected: 4,
            actual: 5,
        },
    );
    assert_eq!(conflict.kind(), DispatchFailureKindV1::ItemRevisionConflict);
    assert_eq!(
        conflict.details,
        DispatchErrorDetailsV1::Revisions {
            expected: Some(4),
            current: Some(5),
        }
    );

    let expected = "00000000-0000-4000-8000-000000000026".to_owned();
    let actual = Some("00000000-0000-4000-8000-000000000027".to_owned());
    let mismatch = read_failure(
        CommandV1::SessionComplete,
        26,
        PersistedDomainErrorV1::SessionIdentityMismatch {
            expected: expected.clone(),
            actual: actual.clone(),
        },
    );
    assert_eq!(mismatch.kind(), DispatchFailureKindV1::SessionIdMismatch);
    assert_eq!(
        mismatch.details,
        DispatchErrorDetailsV1::SessionIdMismatch { expected, actual }
    );

    let expected = "00000000-0000-4000-8000-000000000028".to_owned();
    let actual = Some("00000000-0000-4000-8000-000000000029".to_owned());
    let stale = read_failure(
        CommandV1::ItemCheck,
        28,
        PersistedDomainErrorV1::AttemptNotCurrent {
            expected: expected.clone(),
            actual: actual.clone(),
        },
    );
    assert_eq!(stale.kind(), DispatchFailureKindV1::AttemptNotCurrent);
    assert_eq!(
        stale.details,
        DispatchErrorDetailsV1::AttemptMismatch { expected, actual }
    );
}

#[test]
fn job_reads_render_cancellation_and_active_jobs_without_terminal_receipts() {
    let cancelled = terminal_view(
        CommandV1::SessionStart,
        StoreJobStateV1::Cancelled,
        receipt(
            fixture_job(22),
            PersistedTerminalResultV1::Cancelled,
            PersistedTerminalJobStateV1::Cancelled,
            None,
        ),
    );
    let (_, terminal) = job_read_projection(&cancelled, absent()).unwrap();
    assert_eq!(
        document(terminal.unwrap()),
        json(r#"{"kind": "cancelled", "payload": {"cancelled": true}}"#)
    );

    let active = JobViewV1 {
        command: CommandV1::SessionStart,
        job: fixture_job(23),
        state: StoreJobStateV1::Queued,
        submitted_at: 20,
        claimed_at: None,
        finished_at: None,
        terminal_receipt: None,
    };
    let (job, terminal) = job_read_projection(&active, absent()).unwrap();
    assert_eq!(job.state, JobStateV1::Queued);
    assert_eq!(terminal, None);
}

#[test]
fn job_reads_fail_closed_when_store_state_and_terminal_receipt_disagree() {
    let mismatched = terminal_view(
        CommandV1::SessionStart,
        StoreJobStateV1::Succeeded,
        receipt(
            fixture_job(24),
            PersistedTerminalResultV1::Cancelled,
            PersistedTerminalJobStateV1::Cancelled,
            None,
        ),
    );

    unreadable(job_read_projection(&mismatched, absent()));
}

#[test]
fn terminal_job_reads_replay_the_immutable_persisted_projection() {
    let session_id = "00000000-0000-4000-8000-000000000025";
    let view = terminal_view(
        CommandV1::SessionComplete,
        StoreJobStateV1::Succeeded,
        receipt(
            fixture_job(25),
            PersistedTerminalResultV1::Success(terminal_session_result(session_id)),
            PersistedTerminalJobStateV1::Succeeded,
            Some(fixture_terminal_session_projection(session_id)),
        ),
    );
    let read = || {
        let (job, response) = job_read_projection(&view, absent()).unwrap();
        let DispatcherTerminalResultV1::Output { session, result } = rendered(response.unwrap())
        else {
            panic!("a success is answered with an output");
        };
        let mut terminal = json(r#"{"session": {}}"#);
        terminal["session"]["title"] = Value::from(session.unwrap().title);
        terminal["result"] = Value::Object(result);
        job_result_value(&view, &job_document(&job), terminal).unwrap()
    };

    let first = read();
    let replay = read();

    assert_eq!(replay, first);
    assert_eq!(replay["command"], "session.complete");
    assert_eq!(
        replay["terminal_response"]["session"]["title"],
        "Stored immutable terminal session"
    );
    assert!(replay["terminal_response"]["result"]
        .get("session_id")
        .is_none());
}

fn operations() -> Vec<(CommandV1, PersistedGraphTerminalOperationV2)> {
    let node = || "work".to_owned();
    let attempt = || "00000000-0000-4000-8000-000000000081".to_owned();
    let goal = r#"{"goal_revision":1,"statement":"Ship"}"#;
    vec![
        (
            CommandV1::SessionComplete,
            PersistedGraphTerminalOperationV2::Complete {
                from_graph_node_id: node(),
                from_attempt_id: attempt(),
                to_graph_node_id: Some("review".to_owned()),
                to_attempt_id: Some("00000000-0000-4000-8000-000000000082".to_owned()),
            },
        ),
        (
            CommandV1::SessionBlock,
            PersistedGraphTerminalOperationV2::Block {
                graph_node_id: node(),
                attempt_id: attempt(),
                blocker_id: "blocker".to_owned(),
                reason: "Waiting.".to_owned(),
            },
        ),
        (
            CommandV1::SessionUnblock,
            PersistedGraphTerminalOperationV2::Unblock {
                graph_node_id: node(),
                attempt_id: attempt(),
                all: true,
                blocker_ids: vec!["one".to_owned(), "two".to_owned()],
            },
        ),
        (
            CommandV1::SessionUnblock,
            PersistedGraphTerminalOperationV2::Unblock {
                graph_node_id: node(),
                attempt_id: attempt(),
                all: false,
                blocker_ids: vec!["one".to_owned()],
            },
        ),
        (
            CommandV1::GoalDefine,
            PersistedGraphTerminalOperationV2::GoalDefine { record: json(goal) },
        ),
        (
            CommandV1::GoalRevise,
            PersistedGraphTerminalOperationV2::GoalRevise { record: json(goal) },
        ),
    ]
}

#[test]
fn what_is_sealed_is_accepted_when_it_is_read_back() {
    for (command, operation) in operations() {
        let receipt = graph_receipt(
            90,
            command,
            PersistedTerminalResultV1::Success(terminal_session_result(
                "00000000-0000-4000-8000-000000000080",
            )),
            PersistedTerminalJobStateV1::Succeeded,
            graph_session("Sealed", "work", Some(operation)),
        );
        let output = sealed_output(&receipt);
        assert_eq!(output.command, durable_command_name(command));
        assert_eq!(output.result["admission"]["job_id"], fixture_job(90).job_id);
        let envelope = envelope_of(&output);
        assert_eq!(
            validate_frozen_v2_result_projection(&receipt, &output.result),
            Ok(()),
            "{envelope}"
        );
        validate_frozen_terminal_envelope(
            &receipt,
            &envelope,
            evidence(&receipt, decoded(&envelope)),
        )
        .unwrap();
    }
}

#[test]
fn a_goal_record_with_a_schema_of_its_own_is_not_accepted_back() {
    let receipt = graph_receipt(
        93,
        CommandV1::GoalDefine,
        PersistedTerminalResultV1::Success(terminal_session_result(
            "00000000-0000-4000-8000-000000000080",
        )),
        PersistedTerminalJobStateV1::Succeeded,
        graph_session(
            "Sealed",
            "work",
            Some(PersistedGraphTerminalOperationV2::GoalDefine {
                record: json(r#"{"schema":"podway.goal/v1","goal_revision":1}"#),
            }),
        ),
    );
    let output = sealed_output(&receipt);
    assert_eq!(output.result["schema"], "podway.goal-definition-result/v1");
    unreadable(validate_frozen_v2_result_projection(&receipt, &output.result));
}

#[test]
fn a_receipt_without_an_operation_seals_a_start() {
    let mut receipt = graph_receipt(
        91,
        CommandV1::SessionStart,
        PersistedTerminalResultV1::Success(PersistedDomainResultV1::SessionChanged {
            session_id: "00000000-0000-4000-8000-000000000080".to_owned(),
            revision_before: 0,
            revision_after: 5,
            changed: true,
        }),
        PersistedTerminalJobStateV1::Succeeded,
        graph_session("Started", "entry", None),
    );
    let output = graph_start_terminal_envelope_v2(&receipt).unwrap();
    assert_eq!(output.result["schema"], "podway.session-start-result/v2");
    assert_eq!(output.result["procedure_digest"], DIGEST_A);
    assert_eq!(output.result["entry_graph_node_id"], "entry");
    assert_eq!(output.result["goal_tracking"], false);
    assert_eq!(
        validate_frozen_v2_result_projection(&receipt, &output.result),
        Ok(())
    );
    let mut other = output.result.clone();
    other.insert("goal_defined".to_owned(), Value::Bool(true));
    unreadable(validate_frozen_v2_result_projection(&receipt, &other));
    receipt.response_context = None;
    assert_eq!(
        seal_terminal_receipt_v1(&receipt, absent()),
        Err(StoreErrorV1::InternalInvariantViolationV1 {
            invariant: StoreInvariantV1::TransitionMutationShape,
        })
    );
}

#[test]
fn a_graph_failure_seals_an_error() {
    let receipt = graph_receipt(
        92,
        CommandV1::SessionComplete,
        PersistedTerminalResultV1::Failure(PersistedDomainErrorV1::InvalidTransition),
        PersistedTerminalJobStateV1::Failed,
        graph_session(
            "Failed",
            "work",
            Some(PersistedGraphTerminalOperationV2::Failure {
                error: PersistedGraphMutationFailureV2::TooManyOpenBlockers { maximum: 3 },
            }),
        ),
    );
    let SealedTerminalResponseV1::Graph(GraphTerminalEnvelopeV2::Error { failure, job, .. }) =
        seal_terminal_receipt_v1(&receipt, absent()).unwrap()
    else {
        panic!("a failure is sealed as an error");
    };
    assert_eq!(job.state, JobStateV1::Failed);
    assert_eq!(failure.kind(), DispatchFailureKindV1::BlockerLimitReached);
    assert_eq!(
        failure.details,
        DispatchErrorDetailsV1::BlockerLimit {
            maximum_open_blockers: 3
        }
    );
    assert_eq!(
        expected_terminal_failure(&receipt).unwrap().kind(),
        DispatchFailureKindV1::BlockerLimitReached
    );
}

#[test]
fn a_cancelled_job_is_answered_with_maintenance() {
    let receipt = receipt(
        fixture_job(30),
        PersistedTerminalResultV1::Cancelled,
        PersistedTerminalJobStateV1::Cancelled,
        None,
    );
    let MutationDispatchOutcomeV1::Terminal {
        job,
        result,
        response_context,
    } = terminal_outcome(&receipt, TerminalCommandKindV1::Other).unwrap()
    else {
        panic!("a receipt is terminal");
    };
    assert_eq!(job.state, JobStateV1::Cancelled);
    assert_eq!(
        result,
        DispatcherTerminalResultV1::Error(DispatchFailureV1::new(
            DispatchFailureKindV1::WorkspaceMaintenance
        ))
    );
    assert_eq!(response_context, None);
}

#[test]
fn replayed_responses_answer_the_request_that_asks() {
    let response = json(r#"{"schema":"podway.output/v2","request_id":"old"}"#);
    assert!(terminal_response_requires_v2_wrapper(&response));
    let answer = terminal_direct_response_v2(response, "new").unwrap();
    assert_eq!(answer["request_id"], "new");
    assert_eq!(answer["schema"], "podway.output/v2");
    unreadable(terminal_direct_response_v2(json("[]"), "new"));
    assert!(!terminal_response_requires_v2_wrapper(&json(
        r#"{"schema":"podway.output/v1"}"#
    )));
    assert!(terminal_response_requires_v2_wrapper(&json(
        r#"{"details":{"schema":"podway.v2-runtime-error-details/v1"}}"#
    )));
}

#[test]
fn timestamps_end_with_the_year_9999() {
    assert_eq!(rfc3339_millis(0).unwrap(), "1970-01-01T00:00:00.000Z");
    assert_eq!(
        rfc3339_millis(1_709_210_096_789).unwrap(),
        "2024-02-29T12:34:56.789Z"
    );
    assert_eq!(
        rfc3339_millis(253_402_300_799_999).unwrap(),
        "9999-12-31T23:59:59.999Z"
    );
    assert_eq!(
        rfc3339_millis(253_402_300_800_000).unwrap_err().kind(),
        DispatchFailureKindV1::Internal
    );
}

#[test]
fn only_a_terminal_receipt_is_replayed() {
    let ended = receipt(
        fixture_job(31),
        PersistedTerminalResultV1::Cancelled,
        PersistedTerminalJobStateV1::Cancelled,
        None,
    );
    let existing =
        AdmitOutcomeV1::Existing(JobReceiptOrTerminalV1::TerminalReceipt(ended.clone()));
    assert_eq!(terminal_replay(&existing), Some(&ended));
    let fresh = AdmitOutcomeV1::New(fixture_job(32));
    assert_eq!(terminal_replay(&fresh), None);
    assert_eq!(admitted_job_id(&fresh), Ok(&fixture_job(32).job_id));
    let failure = DispatchFailureV1::new(DispatchFailureKindV1::Internal)
        .with_admission_identity("job".to_owned(), 4);
    assert_eq!(
        failure.admission,
        Some(AdmissionIdentityV1 {
            job_id: "job".to_owned(),
            workspace_sequence: 4
        })
    );
}
