//! What a request would do, told without doing it.

use podway_daemon::dispatch::{DispatchFailureKindV1, DispatchFailureV1};
use podway_daemon::execution::{DomainErrorV1, ExecutionBoundaryErrorV1};
use podway_daemon::production::failures::map_preview_domain_error;
use podway_daemon::production::preview::{
    preview_command, preview_command_kind, preview_result_map, AttemptV1, PreviewPlanV1,
    ProcedureSnapshotV1, SessionAggregateV1, SessionCommandV1, StageProgressStateV1,
    StageProgressV1, TransitionOutcomeV1, PREVIEW_ATTEMPT_ID_V1, PREVIEW_SESSION_ID_V1,
    PREVIEW_SNAPSHOT_ID_V1,
};
use podway_daemon::protocol::{
    SessionIdentityPreconditionsV1, SessionMutationPreconditionsV1, SessionReopenV1,
    SessionResetV1, SessionReturnV1, SessionStartSourceV1, SessionStartV1, SliceCommandV1,
};
use serde_json::Value;

const SESSION: &str = "00000000-0000-4000-8000-000000000032";
const FIRST_ATTEMPT: &str = "00000000-0000-4000-8000-000000000033";
const SECOND_ATTEMPT: &str = "00000000-0000-4000-8000-000000000034";

fn stage(
    stage_id: &str,
    state: StageProgressStateV1,
    latest: Option<(&str, u64)>,
) -> StageProgressV1 {
    StageProgressV1 {
        stage_id: stage_id.to_owned(),
        state,
        latest_attempt_id: latest.map(|(id, _)| id.to_owned()),
        latest_attempt_number: latest.map_or(0, |(_, number)| number),
    }
}

fn session(
    session_id: &str,
    active: Option<(&str, &str)>,
    attempts: &[(&str, u64)],
    stage_progress: Vec<StageProgressV1>,
) -> SessionAggregateV1 {
    SessionAggregateV1 {
        session_id: session_id.to_owned(),
        active_stage_id: active.map(|(stage, _)| stage.to_owned()),
        active_attempt_id: active.map(|(_, attempt)| attempt.to_owned()),
        attempts: attempts
            .iter()
            .map(|(id, number)| AttemptV1 {
                attempt_id: (*id).to_owned(),
                number: *number,
            })
            .collect(),
        stage_progress,
    }
}

fn preview_running_session() -> SessionAggregateV1 {
    session(
        SESSION,
        Some(("first", FIRST_ATTEMPT)),
        &[(FIRST_ATTEMPT, 1)],
        vec![
            stage("first", StageProgressStateV1::Current, Some((FIRST_ATTEMPT, 1))),
            stage("second", StageProgressStateV1::Pending, None),
        ],
    )
}

fn preview_second_stage_session() -> SessionAggregateV1 {
    session(
        SESSION,
        Some(("second", SECOND_ATTEMPT)),
        &[(FIRST_ATTEMPT, 1), (SECOND_ATTEMPT, 1)],
        vec![
            stage("first", StageProgressStateV1::Done, Some((FIRST_ATTEMPT, 1))),
            stage("second", StageProgressStateV1::Current, Some((SECOND_ATTEMPT, 1))),
        ],
    )
}

fn preview_completed_session() -> SessionAggregateV1 {
    let mut completed = preview_second_stage_session();
    completed.active_stage_id = None;
    completed.active_attempt_id = None;
    completed.stage_progress[1].state = StageProgressStateV1::Done;
    completed
}

/// The session after a return to, or a reopening at, its first stage.
fn preview_reworked_session() -> SessionAggregateV1 {
    session(
        SESSION,
        Some(("first", PREVIEW_ATTEMPT_ID_V1)),
        &[
            (FIRST_ATTEMPT, 1),
            (SECOND_ATTEMPT, 1),
            (PREVIEW_ATTEMPT_ID_V1, 2),
        ],
        vec![
            stage("first", StageProgressStateV1::Current, Some((PREVIEW_ATTEMPT_ID_V1, 2))),
            stage("second", StageProgressStateV1::Redo, Some((SECOND_ATTEMPT, 1))),
        ],
    )
}

fn preview_started_session() -> SessionAggregateV1 {
    session(
        PREVIEW_SESSION_ID_V1,
        Some(("reproduce", PREVIEW_ATTEMPT_ID_V1)),
        &[(PREVIEW_ATTEMPT_ID_V1, 1)],
        vec![stage(
            "reproduce",
            StageProgressStateV1::Current,
            Some((PREVIEW_ATTEMPT_ID_V1, 1)),
        )],
    )
}

fn outcome(
    revision_before: Option<u64>,
    revision_after: Option<u64>,
    next_aggregate: Option<SessionAggregateV1>,
    affected: &[&str],
) -> Result<TransitionOutcomeV1, DomainErrorV1> {
    Ok(TransitionOutcomeV1 {
        changed: true,
        revision_before,
        revision_after,
        next_aggregate,
        affected_stages: affected.iter().map(|id| (*id).to_owned()).collect(),
    })
}

fn production_preview_map(
    command: SliceCommandV1,
    prior: Option<&SessionAggregateV1>,
    transition: Result<TransitionOutcomeV1, DomainErrorV1>,
) -> Result<serde_json::Map<String, Value>, DispatchFailureV1> {
    let mut plan = preview_command(&command, prior, None)?;
    if let PreviewPlanV1::LoadProcedure { snapshot_id, .. } = &plan {
        assert_eq!(snapshot_id, PREVIEW_SNAPSHOT_ID_V1);
        plan = preview_command(
            &command,
            prior,
            Some(Ok(ProcedureSnapshotV1 {
                digest: "digest".to_owned(),
            })),
        )?;
    }
    assert!(matches!(plan, PreviewPlanV1::Transition { .. }));
    match transition {
        Ok(outcome) => Ok(preview_result_map(&outcome, prior)),
        Err(error) => Err(map_preview_domain_error(
            error,
            preview_command_kind(&command),
        )),
    }
}

fn start(title: &str) -> SessionStartV1 {
    SessionStartV1 {
        source: SessionStartSourceV1::Preset {
            preset: "bug-fix".to_owned(),
        },
        expected_procedure_digest: None,
        task_title: title.to_owned(),
        dry_run: true,
    }
}

fn identity(session_id: &str, revision: u64) -> SessionIdentityPreconditionsV1 {
    SessionIdentityPreconditionsV1 {
        expected_session_id: session_id.to_owned(),
        expected_session_revision: revision,
    }
}

fn start_replace(title: &str) -> SliceCommandV1 {
    SliceCommandV1::SessionStartReplace {
        start: start(title),
        preconditions: identity(SESSION, 1),
    }
}

fn return_to(stage: &str, reason: &str, attempt: &str, revision: u64) -> SliceCommandV1 {
    SliceCommandV1::SessionReturn(SessionReturnV1 {
        destination_stage_id: stage.to_owned(),
        reason: reason.to_owned(),
        preconditions: SessionMutationPreconditionsV1 {
            expected_session_id: SESSION.to_owned(),
            expected_attempt_id: attempt.to_owned(),
            expected_session_revision: revision,
        },
    })
}

fn reopen(reason: &str, revision: u64) -> SliceCommandV1 {
    SliceCommandV1::SessionReopen(SessionReopenV1 {
        destination_stage_id: "first".to_owned(),
        reason: reason.to_owned(),
        preconditions: identity(SESSION, revision),
    })
}

fn reset(session_id: &str, revision: u64) -> SliceCommandV1 {
    SliceCommandV1::SessionReset(SessionResetV1 {
        confirmed: true,
        dry_run: true,
        preconditions: identity(session_id, revision),
    })
}

fn assert_preview_projection(
    result: &serde_json::Map<String, Value>,
    revision_before: Value,
    revision_after: Value,
    destination_stage: Option<&str>,
    destination_attempt_number: Option<u64>,
    affected_stages: &[&str],
) {
    assert_eq!(result.get("preview"), Some(&Value::Bool(true)));
    assert_eq!(result.get("changed"), Some(&Value::Bool(true)));
    assert_eq!(result.get("revision_before"), Some(&revision_before));
    assert_eq!(result.get("revision_after"), Some(&revision_after));
    match destination_stage {
        Some(stage_id) => {
            assert_eq!(
                result["destination_attempt"]["stage_id"],
                Value::String(stage_id.to_owned())
            );
            assert_eq!(
                result["destination_attempt"]["attempt_id"],
                Value::String(PREVIEW_ATTEMPT_ID_V1.to_owned())
            );
            assert_eq!(
                result["destination_attempt"]["attempt_number"],
                Value::from(destination_attempt_number.unwrap())
            );
        }
        None => assert_eq!(result["destination_attempt"], Value::Null),
    }
    assert_eq!(
        result["affected_stages"]
            .as_array()
            .unwrap()
            .iter()
            .map(|stage| stage["stage_id"].as_str().unwrap())
            .collect::<Vec<_>>(),
        affected_stages.to_vec()
    );
}

#[test]
fn production_preview_projects_all_dry_run_variants_from_core_outcomes() {
    let started = production_preview_map(
        SliceCommandV1::SessionStart(start("Preview start")),
        None,
        outcome(None, Some(1), Some(preview_started_session()), &["reproduce"]),
    )
    .unwrap();
    assert_preview_projection(
        &started,
        Value::Null,
        Value::from(1),
        Some("reproduce"),
        Some(1),
        &["reproduce"],
    );

    let running = preview_running_session();
    let replaced = production_preview_map(
        start_replace("Preview replacement"),
        Some(&running),
        outcome(Some(1), Some(1), Some(preview_started_session()), &["reproduce"]),
    )
    .unwrap();
    assert_preview_projection(
        &replaced,
        Value::from(1),
        Value::from(1),
        Some("reproduce"),
        Some(1),
        &["reproduce"],
    );

    let second = preview_second_stage_session();
    let returned = production_preview_map(
        return_to("first", "Return to first", SECOND_ATTEMPT, 2),
        Some(&second),
        outcome(Some(2), Some(3), Some(preview_reworked_session()), &["first", "second"]),
    )
    .unwrap();
    assert_preview_projection(
        &returned,
        Value::from(2),
        Value::from(3),
        Some("first"),
        Some(2),
        &["first", "second"],
    );
    let affected = &returned["affected_stages"];
    assert_eq!(affected[0]["before"], "done");
    assert_eq!(affected[0]["after"], "current");
    assert_eq!(affected[0]["before_attempt"]["attempt_id"], FIRST_ATTEMPT);
    assert_eq!(affected[0]["after_attempt"]["attempt_number"], 2);
    assert_eq!(affected[1]["after"], "redo");
    assert_eq!(returned["active_before"]["attempt_id"], SECOND_ATTEMPT);

    let completed = preview_completed_session();
    let reopened = production_preview_map(
        reopen("Reopen first", 3),
        Some(&completed),
        outcome(Some(3), Some(4), Some(preview_reworked_session()), &["first", "second"]),
    )
    .unwrap();
    assert_preview_projection(
        &reopened,
        Value::from(3),
        Value::from(4),
        Some("first"),
        Some(2),
        &["first", "second"],
    );
    assert_eq!(reopened["active_before"], Value::Null);

    let cleared = production_preview_map(
        reset(SESSION, 1),
        Some(&running),
        outcome(Some(1), None, None, &["first", "second"]),
    )
    .unwrap();
    assert_preview_projection(
        &cleared,
        Value::from(1),
        Value::Null,
        None,
        None,
        &["first", "second"],
    );
    assert_eq!(cleared["affected_stages"][1]["after"], Value::Null);
    assert_eq!(cleared["affected_stages"][1]["before_attempt"], Value::Null);
}

#[test]
fn production_preview_preserves_variant_specific_public_errors() {
    let running = preview_running_session();
    let kind = |command, prior, error| {
        production_preview_map(command, prior, Err(error))
            .unwrap_err()
            .kind()
    };

    assert_eq!(
        kind(
            SliceCommandV1::SessionStart(start("Existing session")),
            Some(&running),
            DomainErrorV1::InvalidTransition
        ),
        DispatchFailureKindV1::SessionNotRunning
    );
    assert_eq!(
        kind(
            start_replace("Missing session"),
            None,
            DomainErrorV1::InvalidTransition
        ),
        DispatchFailureKindV1::SessionIdMismatch
    );
    assert_eq!(
        kind(
            return_to("second", "Invalid forward return", FIRST_ATTEMPT, 1),
            Some(&running),
            DomainErrorV1::InvalidTransition
        ),
        DispatchFailureKindV1::ReturnNotAllowed
    );
    assert_eq!(
        kind(
            reopen("Running sessions cannot reopen", 1),
            Some(&running),
            DomainErrorV1::InvalidTransition
        ),
        DispatchFailureKindV1::ReopenNotAllowed
    );
    assert_eq!(
        kind(
            reset(SESSION, 0),
            Some(&running),
            DomainErrorV1::PreconditionFailed {
                expected: 0,
                actual: 1
            }
        ),
        DispatchFailureKindV1::SessionRevisionConflict
    );
    assert_eq!(
        kind(
            reset("00000000-0000-4000-8000-000000000099", 1),
            Some(&running),
            DomainErrorV1::InvalidTransition
        ),
        DispatchFailureKindV1::SessionIdMismatch
    );
}

#[test]
fn a_previewed_start_takes_the_procedure_that_was_loaded() {
    let mut input = start("Title");
    input.expected_procedure_digest = Some("digest".to_owned());
    let command = SliceCommandV1::SessionStart(input);
    let loaded = |digest: &str| {
        Some(Ok(ProcedureSnapshotV1 {
            digest: digest.to_owned(),
        }))
    };
    let PreviewPlanV1::Transition {
        command: SessionCommandV1::Start(started),
        expected_revision,
    } = preview_command(&command, None, loaded("digest")).unwrap()
    else {
        panic!("a loaded start is a transition");
    };
    assert_eq!(expected_revision, 0);
    assert_eq!(started.task_title, "Title");
    assert_eq!(started.session_id, PREVIEW_SESSION_ID_V1);
    assert_eq!(started.first_attempt_id, PREVIEW_ATTEMPT_ID_V1);
    let refused = |loaded| {
        preview_command(&command, None, loaded)
            .unwrap_err()
            .kind()
    };
    assert_eq!(
        refused(loaded("other")),
        DispatchFailureKindV1::ProcedureDigestMismatch
    );
    assert_eq!(
        refused(Some(Err(ExecutionBoundaryErrorV1::Domain(
            DomainErrorV1::EmptyValue
        )))),
        DispatchFailureKindV1::ProcedureInvalid
    );
    assert_eq!(
        refused(Some(Err(ExecutionBoundaryErrorV1::Transient))),
        DispatchFailureKindV1::DaemonUnavailable
    );
    assert_eq!(
        refused(Some(Err(ExecutionBoundaryErrorV1::ProcedureV2Unsupported))),
        DispatchFailureKindV1::UnsupportedV2Capability
    );
    assert_eq!(
        preview_command(&SliceCommandV1::SessionComplete, None, None)
            .unwrap_err()
            .kind(),
        DispatchFailureKindV1::RequestInvalid
    );
}
