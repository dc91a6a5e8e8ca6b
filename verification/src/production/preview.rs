//! What a request would do, told without doing it.

use crate::dispatch;
use crate::dispatch::{DispatchFailureKindV1, DispatchFailureV1};
use crate::execution::ExecutionBoundaryErrorV1;
use crate::json;
use crate::json::{
    json_array, json_map_insert, json_map_new, json_null, json_object, json_text, json_unsigned,
};
use crate::production::failures;
use crate::production::failures::{
    map_preview_procedure_error, procedure_digest_mismatch_failure, session_id_mismatch_failure,
    PreviewCommandKindV1,
};
use crate::production::frozen::Members;
use crate::production::graph_envelope;
use crate::production::graph_envelope::{put_bool, put_text, put_unsigned};
use crate::protocol::{SessionStartSourceV1, SessionStartV1, SliceCommandV1};
use crate::text;
use vstd::prelude::*;

verus! {

/// The session that a previewed start would create.
pub const PREVIEW_SESSION_ID_V1: &'static str = "00000000-0000-4000-8000-000000000201";

/// The attempt that a previewed command would create.
pub const PREVIEW_ATTEMPT_ID_V1: &'static str = "00000000-0000-4000-8000-000000000202";

/// The snapshot that a previewed start would take.
pub const PREVIEW_SNAPSHOT_ID_V1: &'static str = "00000000-0000-4000-8000-000000000203";

/// How far a stage has come.
#[derive(Clone, Copy, Debug, PartialEq, Eq, Structural)]
pub enum StageProgressStateV1 {
    Pending,
    Current,
    Done,
    Skipped,
    Redo,
    Abandoned,
}

/// An attempt at a stage.
#[derive(Clone, Debug, PartialEq, Eq)]
pub struct AttemptV1 {
    pub attempt_id: String,
    pub number: u64,
}

/// The progress of a stage.
#[derive(Clone, Debug, PartialEq, Eq)]
pub struct StageProgressV1 {
    pub stage_id: String,
    pub state: StageProgressStateV1,
    pub latest_attempt_id: Option<String>,
    pub latest_attempt_number: u64,
}

/// A session, as far as a preview shows it.
#[derive(Clone, Debug, PartialEq, Eq)]
pub struct SessionAggregateV1 {
    pub session_id: String,
    pub active_stage_id: Option<String>,
    pub active_attempt_id: Option<String>,
    pub attempts: Vec<AttemptV1>,
    pub stage_progress: Vec<StageProgressV1>,
}

/// What a transition would come to.
#[derive(Clone, Debug, PartialEq, Eq)]
pub struct TransitionOutcomeV1 {
    pub changed: bool,
    pub revision_before: Option<u64>,
    pub revision_after: Option<u64>,
    pub next_aggregate: Option<SessionAggregateV1>,
    pub affected_stages: Vec<String>,
}

/// A loaded procedure, named by its digest.
#[derive(Clone, Debug, PartialEq, Eq)]
pub struct ProcedureSnapshotV1 {
    pub digest: String,
}

/// The start of a session that a preview asks about.
#[derive(Clone, Debug, PartialEq, Eq)]
pub struct StartSessionV1 {
    pub task_title: String,
    pub snapshot: ProcedureSnapshotV1,
    pub session_id: String,
    pub first_attempt_id: String,
}

/// The transition that a preview asks about.
#[derive(Clone, Debug, PartialEq, Eq)]
pub enum SessionCommandV1 {
    Start(StartSessionV1),
    StartReplace { expected_session_id: String, confirmed: bool, start: StartSessionV1 },
    Return {
        expected_attempt_id: String,
        destination_stage_id: String,
        reason: String,
        destination_attempt_id: String,
    },
    Reopen {
        expected_session_id: String,
        destination_stage_id: String,
        reason: String,
        destination_attempt_id: String,
    },
    Reset { expected_session_id: String, confirmed: bool },
}

/// What a preview does next: load the procedure of a start, or ask about a transition.
#[derive(Clone, Debug, PartialEq, Eq)]
pub enum PreviewPlanV1 {
    LoadProcedure { source: SessionStartSourceV1, snapshot_id: String },
    Transition { command: SessionCommandV1, expected_revision: u64 },
}

/// The session that a previewed command expects to find.
pub open spec fn expected_session(command: SliceCommandV1) -> Option<String> {
    match command {
        SliceCommandV1::SessionStartReplace { preconditions, .. } => Some(
            preconditions.expected_session_id,
        ),
        SliceCommandV1::SessionReturn(input) => Some(input.preconditions.expected_session_id),
        SliceCommandV1::SessionReopen(input) => Some(input.preconditions.expected_session_id),
        SliceCommandV1::SessionReset(input) => Some(input.preconditions.expected_session_id),
        _ => None,
    }
}

/// The session that a previewed command expects to find.
pub fn preview_expected_session_id(command: &SliceCommandV1) -> (expected: Option<&String>)
    ensures
        match expected {
            Some(expected) => expected_session(*command) == Some(*expected),
            None => expected_session(*command) is None,
        },
{
    match command {
        SliceCommandV1::SessionStartReplace { preconditions, .. } => Some(
            &preconditions.expected_session_id,
        ),
        SliceCommandV1::SessionReturn(input) => Some(&input.preconditions.expected_session_id),
        SliceCommandV1::SessionReopen(input) => Some(&input.preconditions.expected_session_id),
        SliceCommandV1::SessionReset(input) => Some(&input.preconditions.expected_session_id),
        _ => None,
    }
}

/// What a previewed command is, as far as its failures are concerned.
pub fn preview_command_kind(command: &SliceCommandV1) -> (kind: PreviewCommandKindV1)
    ensures
        kind == match *command {
            SliceCommandV1::SessionReturn(_) => PreviewCommandKindV1::Return,
            SliceCommandV1::SessionReopen(_) => PreviewCommandKindV1::Reopen,
            _ => PreviewCommandKindV1::Other,
        },
{
    match command {
        SliceCommandV1::SessionReturn(_) => PreviewCommandKindV1::Return,
        SliceCommandV1::SessionReopen(_) => PreviewCommandKindV1::Reopen,
        _ => PreviewCommandKindV1::Other,
    }
}

/// The session that a workspace holds.
pub open spec fn session_of_aggregate(prior: Option<&SessionAggregateV1>) -> Option<String> {
    match prior {
        Some(aggregate) => Some(aggregate.session_id),
        None => None,
    }
}

/// Whether a failure is the one that a start whose procedure does not load is answered with.
pub open spec fn is_load_failure(
    error: ExecutionBoundaryErrorV1,
    capability: Seq<char>,
    failure: DispatchFailureV1,
) -> bool {
    match error {
        ExecutionBoundaryErrorV1::Domain(_) => failure == dispatch::bare_failure(
            DispatchFailureKindV1::ProcedureInvalid,
        ),
        ExecutionBoundaryErrorV1::ProcedureV2Unsupported => failure.kind
            == DispatchFailureKindV1::UnsupportedV2Capability && failure.admission is None
            && failure.job is None && (failure.details
            matches dispatch::DispatchErrorDetailsV1::UnsupportedV2Capability {
            capability: reported,
            required_result_schema,
        } && reported@ == capability && required_result_schema@
            == "podway.session-start-result/v2"@),
        ExecutionBoundaryErrorV1::WorkspaceIdentityMismatch { expected, actual } => failure
            == failures::workspace_mismatch(expected, actual),
        ExecutionBoundaryErrorV1::Transient => failure == dispatch::bare_failure(
            DispatchFailureKindV1::DaemonUnavailable,
        ),
    }
}

/// Whether a start is the one that a preview of the given start asks about, once its procedure was
/// loaded or could not be. A digest that the request expects has to be the procedure's.
pub open spec fn is_preview_start(
    input: SessionStartV1,
    loaded: Result<ProcedureSnapshotV1, ExecutionBoundaryErrorV1>,
    capability: Seq<char>,
    start: Result<StartSessionV1, DispatchFailureV1>,
) -> bool {
    match loaded {
        Err(error) => start matches Err(failure) && is_load_failure(error, capability, failure),
        Ok(snapshot) => match input.expected_procedure_digest {
            Some(expected) if expected@ != snapshot.digest@ => start matches Err(failure) && failure
                == failures::digest_mismatch(expected, snapshot.digest),
            _ => start matches Ok(start) && {
                &&& start.task_title == input.task_title
                &&& start.snapshot == snapshot
                &&& start.session_id@ == PREVIEW_SESSION_ID_V1@
                &&& start.first_attempt_id@ == PREVIEW_ATTEMPT_ID_V1@
            },
        },
    }
}

/// The start that a preview asks about.
pub fn preview_start(
    input: &SessionStartV1,
    loaded: Result<ProcedureSnapshotV1, ExecutionBoundaryErrorV1>,
    capability: &'static str,
) -> (start: Result<StartSessionV1, DispatchFailureV1>)
    ensures
        is_preview_start(*input, loaded, capability@, start),
{
    let snapshot = match loaded {
        Ok(snapshot) => snapshot,
        Err(error) => {
            return Err(map_preview_procedure_error(error, capability.to_owned()));
        },
    };
    if let Some(expected) = &input.expected_procedure_digest {
        if *expected != snapshot.digest {
            return Err(procedure_digest_mismatch_failure(expected.clone(), snapshot.digest));
        }
    }
    Ok(
        StartSessionV1 {
            task_title: input.task_title.clone(),
            snapshot,
            session_id: PREVIEW_SESSION_ID_V1.to_owned(),
            first_attempt_id: PREVIEW_ATTEMPT_ID_V1.to_owned(),
        },
    )
}

/// Whether a plan is the one for a previewed command. A command that expects a session gets no
/// further where the workspace holds another; a start first has its procedure loaded.
pub open spec fn is_preview_plan(
    command: SliceCommandV1,
    prior: Option<&SessionAggregateV1>,
    loaded: Option<Result<ProcedureSnapshotV1, ExecutionBoundaryErrorV1>>,
    plan: Result<PreviewPlanV1, DispatchFailureV1>,
) -> bool {
    let actual = session_of_aggregate(prior);
    match expected_session(command) {
        Some(expected) if text::optional_characters(actual) != Some(expected@) => plan matches Err(
            failure,
        ) && failure == failures::session_mismatch(expected, actual),
        _ => match command {
            SliceCommandV1::SessionStart(input) => match loaded {
                None => is_load_plan(input, plan),
                Some(loaded) => match plan {
                    Ok(
                        PreviewPlanV1::Transition {
                            command: SessionCommandV1::Start(start),
                            expected_revision,
                        },
                    ) => expected_revision == 0 && is_preview_start(
                        input,
                        loaded,
                        "session.start"@,
                        Ok::<StartSessionV1, DispatchFailureV1>(start),
                    ),
                    Ok(_) => false,
                    Err(failure) => is_preview_start(
                        input,
                        loaded,
                        "session.start"@,
                        Err::<StartSessionV1, DispatchFailureV1>(failure),
                    ),
                },
            },
            SliceCommandV1::SessionStartReplace { start: input, preconditions } => match loaded {
                None => is_load_plan(input, plan),
                Some(loaded) => match plan {
                    Ok(
                        PreviewPlanV1::Transition {
                            command: SessionCommandV1::StartReplace {
                                expected_session_id,
                                confirmed,
                                start,
                            },
                            expected_revision,
                        },
                    ) => expected_session_id == preconditions.expected_session_id && confirmed
                        && expected_revision == preconditions.expected_session_revision
                        && is_preview_start(
                        input,
                        loaded,
                        "session.start_replace"@,
                        Ok::<StartSessionV1, DispatchFailureV1>(start),
                    ),
                    Ok(_) => false,
                    Err(failure) => is_preview_start(
                        input,
                        loaded,
                        "session.start_replace"@,
                        Err::<StartSessionV1, DispatchFailureV1>(failure),
                    ),
                },
            },
            SliceCommandV1::SessionReturn(input) => plan matches Ok(
                PreviewPlanV1::Transition {
                    command: SessionCommandV1::Return {
                        expected_attempt_id,
                        destination_stage_id,
                        reason,
                        destination_attempt_id,
                    },
                    expected_revision,
                },
            ) && {
                &&& expected_attempt_id == input.preconditions.expected_attempt_id
                &&& destination_stage_id == input.destination_stage_id
                &&& reason == input.reason
                &&& destination_attempt_id@ == PREVIEW_ATTEMPT_ID_V1@
                &&& expected_revision == input.preconditions.expected_session_revision
            },
            SliceCommandV1::SessionReopen(input) => plan matches Ok(
                PreviewPlanV1::Transition {
                    command: SessionCommandV1::Reopen {
                        expected_session_id,
                        destination_stage_id,
                        reason,
                        destination_attempt_id,
                    },
                    expected_revision,
                },
            ) && {
                &&& expected_session_id == input.preconditions.expected_session_id
                &&& destination_stage_id == input.destination_stage_id
                &&& reason == input.reason
                &&& destination_attempt_id@ == PREVIEW_ATTEMPT_ID_V1@
                &&& expected_revision == input.preconditions.expected_session_revision
            },
            SliceCommandV1::SessionReset(input) => plan == Ok::<PreviewPlanV1, DispatchFailureV1>(
                PreviewPlanV1::Transition {
                    command: SessionCommandV1::Reset {
                        expected_session_id: input.preconditions.expected_session_id,
                        confirmed: true,
                    },
                    expected_revision: input.preconditions.expected_session_revision,
                },
            ),
            _ => plan matches Err(failure) && failure == dispatch::bare_failure(
                DispatchFailureKindV1::RequestInvalid,
            ),
        },
    }
}

/// Whether a plan loads the procedure of a start.
pub open spec fn is_load_plan(
    input: SessionStartV1,
    plan: Result<PreviewPlanV1, DispatchFailureV1>,
) -> bool {
    plan matches Ok(PreviewPlanV1::LoadProcedure { source, snapshot_id }) && source == input.source
        && snapshot_id@ == PREVIEW_SNAPSHOT_ID_V1@
}

fn load_plan(input: &SessionStartV1) -> (plan: PreviewPlanV1)
    ensures
        is_load_plan(*input, Ok::<PreviewPlanV1, DispatchFailureV1>(plan)),
{
    let source = match &input.source {
        SessionStartSourceV1::Preset { preset } => SessionStartSourceV1::Preset {
            preset: preset.clone(),
        },
        SessionStartSourceV1::Procedure { procedure } => SessionStartSourceV1::Procedure {
            procedure: procedure.clone(),
        },
    };
    PreviewPlanV1::LoadProcedure { source, snapshot_id: PREVIEW_SNAPSHOT_ID_V1.to_owned() }
}

/// What the preview of a command does next, given the session that the workspace holds and, once it
/// was asked for, what came of loading the procedure.
pub fn preview_command(
    command: &SliceCommandV1,
    prior: Option<&SessionAggregateV1>,
    loaded: Option<Result<ProcedureSnapshotV1, ExecutionBoundaryErrorV1>>,
) -> (plan: Result<PreviewPlanV1, DispatchFailureV1>)
    ensures
        is_preview_plan(*command, prior, loaded, plan),
{
    if let Some(expected) = preview_expected_session_id(command) {
        let actual = match prior {
            Some(aggregate) => Some(aggregate.session_id.clone()),
            None => None,
        };
        let same = match &actual {
            Some(actual) => *actual == *expected,
            None => false,
        };
        if !same {
            return Err(session_id_mismatch_failure(expected.clone(), actual));
        }
    }
    match command {
        SliceCommandV1::SessionStart(input) => match loaded {
            None => Ok(load_plan(input)),
            Some(loaded) => match preview_start(input, loaded, "session.start") {
                Ok(start) => Ok(
                    PreviewPlanV1::Transition {
                        command: SessionCommandV1::Start(start),
                        expected_revision: 0,
                    },
                ),
                Err(failure) => Err(failure),
            },
        },
        SliceCommandV1::SessionStartReplace { start: input, preconditions } => match loaded {
            None => Ok(load_plan(input)),
            Some(loaded) => match preview_start(input, loaded, "session.start_replace") {
                Ok(start) => Ok(
                    PreviewPlanV1::Transition {
                        command: SessionCommandV1::StartReplace {
                            expected_session_id: preconditions.expected_session_id.clone(),
                            confirmed: true,
                            start,
                        },
                        expected_revision: preconditions.expected_session_revision,
                    },
                ),
                Err(failure) => Err(failure),
            },
        },
        SliceCommandV1::SessionReturn(input) => Ok(
            PreviewPlanV1::Transition {
                command: SessionCommandV1::Return {
                    expected_attempt_id: input.preconditions.expected_attempt_id.clone(),
                    destination_stage_id: input.destination_stage_id.clone(),
                    reason: input.reason.clone(),
                    destination_attempt_id: PREVIEW_ATTEMPT_ID_V1.to_owned(),
                },
                expected_revision: input.preconditions.expected_session_revision,
            },
        ),
        SliceCommandV1::SessionReopen(input) => Ok(
            PreviewPlanV1::Transition {
                command: SessionCommandV1::Reopen {
                    expected_session_id: input.preconditions.expected_session_id.clone(),
                    destination_stage_id: input.destination_stage_id.clone(),
                    reason: input.reason.clone(),
                    destination_attempt_id: PREVIEW_ATTEMPT_ID_V1.to_owned(),
                },
                expected_revision: input.preconditions.expected_session_revision,
            },
        ),
        SliceCommandV1::SessionReset(input) => Ok(
            PreviewPlanV1::Transition {
                command: SessionCommandV1::Reset {
                    expected_session_id: input.preconditions.expected_session_id.clone(),
                    confirmed: true,
                },
                expected_revision: input.preconditions.expected_session_revision,
            },
        ),
        _ => Err(DispatchFailureV1::new(DispatchFailureKindV1::RequestInvalid)),
    }
}

/// The first attempt with the given name, if there is one.
pub open spec fn attempt_named(attempts: Seq<AttemptV1>, attempt_id: Seq<char>) -> Option<AttemptV1>
    decreases attempts.len(),
{
    if attempts.len() == 0 {
        None
    } else if attempts[0].attempt_id@ == attempt_id {
        Some(attempts[0])
    } else {
        attempt_named(attempts.drop_first(), attempt_id)
    }
}

/// The first stage with the given name, if there is one.
pub open spec fn stage_named(
    stages: Seq<StageProgressV1>,
    stage_id: Seq<char>,
) -> Option<StageProgressV1>
    decreases stages.len(),
{
    if stages.len() == 0 {
        None
    } else if stages[0].stage_id@ == stage_id {
        Some(stages[0])
    } else {
        stage_named(stages.drop_first(), stage_id)
    }
}

fn find_attempt<'a>(attempts: &'a Vec<AttemptV1>, attempt_id: &String) -> (found: Option<
    &'a AttemptV1,
>)
    ensures
        match found {
            Some(found) => attempt_named(attempts@, attempt_id@) == Some(*found),
            None => attempt_named(attempts@, attempt_id@) is None,
        },
{
    let mut position: usize = 0;
    assert(attempts@.skip(0) =~= attempts@);
    while position < attempts.len()
        invariant
            position <= attempts.len(),
            attempt_named(attempts@, attempt_id@) == attempt_named(
                attempts@.skip(position as int),
                attempt_id@,
            ),
        decreases attempts.len() - position,
    {
        let ghost rest = attempts@.skip(position as int);
        assert(rest[0] == attempts@[position as int]);
        if attempts[position].attempt_id == *attempt_id {
            return Some(&attempts[position]);
        }
        assert(rest.drop_first() =~= attempts@.skip(position + 1));
        position = position + 1;
    }
    None
}

fn find_stage<'a>(stages: &'a Vec<StageProgressV1>, stage_id: &String) -> (found: Option<
    &'a StageProgressV1,
>)
    ensures
        match found {
            Some(found) => stage_named(stages@, stage_id@) == Some(*found),
            None => stage_named(stages@, stage_id@) is None,
        },
{
    let mut position: usize = 0;
    assert(stages@.skip(0) =~= stages@);
    while position < stages.len()
        invariant
            position <= stages.len(),
            stage_named(stages@, stage_id@) == stage_named(
                stages@.skip(position as int),
                stage_id@,
            ),
        decreases stages.len() - position,
    {
        let ghost rest = stages@.skip(position as int);
        assert(rest[0] == stages@[position as int]);
        if stages[position].stage_id == *stage_id {
            return Some(&stages[position]);
        }
        assert(rest.drop_first() =~= stages@.skip(position + 1));
        position = position + 1;
    }
    None
}

/// The public name of a stage's progress.
pub open spec fn progress_text(state: StageProgressStateV1) -> &'static str {
    match state {
        StageProgressStateV1::Pending => "pending",
        StageProgressStateV1::Current => "current",
        StageProgressStateV1::Done => "done",
        StageProgressStateV1::Skipped => "skipped",
        StageProgressStateV1::Redo => "redo",
        StageProgressStateV1::Abandoned => "abandoned",
    }
}

/// The public name of a stage's progress.
pub fn stage_progress_state_name(state: StageProgressStateV1) -> (name: &'static str)
    ensures
        name == progress_text(state),
{
    match state {
        StageProgressStateV1::Pending => "pending",
        StageProgressStateV1::Current => "current",
        StageProgressStateV1::Done => "done",
        StageProgressStateV1::Skipped => "skipped",
        StageProgressStateV1::Redo => "redo",
        StageProgressStateV1::Abandoned => "abandoned",
    }
}

/// The account of a session's active attempt. A session without one has none.
pub open spec fn active_attempt_tree(aggregate: Option<&SessionAggregateV1>) -> json::JsonTreeV1 {
    match aggregate {
        Some(aggregate) => match (aggregate.active_stage_id, aggregate.active_attempt_id) {
            (Some(stage_id), Some(attempt_id)) => match attempt_named(
                aggregate.attempts@,
                attempt_id@,
            ) {
                Some(attempt) => json::JsonTreeV1::Record(
                    graph_envelope::with_unsigned(
                        graph_envelope::with_text(
                            graph_envelope::with_text(
                                json::no_members(),
                                "stage_id"@,
                                stage_id@,
                            ),
                            "attempt_id"@,
                            attempt.attempt_id@,
                        ),
                        "attempt_number"@,
                        attempt.number,
                    ),
                ),
                None => json::JsonTreeV1::Null,
            },
            _ => json::JsonTreeV1::Null,
        },
        None => json::JsonTreeV1::Null,
    }
}

/// The account of a session's active attempt.
pub fn active_attempt_projection(
    aggregate: Option<&SessionAggregateV1>,
) -> (projection: serde_json::Value)
    ensures
        json::json_tree(projection) == active_attempt_tree(aggregate),
{
    let aggregate = match aggregate {
        Some(aggregate) => aggregate,
        None => {
            return json_null();
        },
    };
    let stage_id = match &aggregate.active_stage_id {
        Some(stage_id) => stage_id,
        None => {
            return json_null();
        },
    };
    let attempt_id = match &aggregate.active_attempt_id {
        Some(attempt_id) => attempt_id,
        None => {
            return json_null();
        },
    };
    match find_attempt(&aggregate.attempts, attempt_id) {
        Some(attempt) => {
            let mut object = json_map_new();
            put_text(&mut object, "stage_id", stage_id);
            put_text(&mut object, "attempt_id", &attempt.attempt_id);
            put_unsigned(&mut object, "attempt_number", attempt.number);
            json_object(object)
        },
        None => json_null(),
    }
}

/// The progress of a stage, if the session has it.
pub open spec fn stage_state_tree(
    aggregate: Option<&SessionAggregateV1>,
    stage_id: Seq<char>,
) -> json::JsonTreeV1 {
    match aggregate {
        Some(aggregate) => match stage_named(aggregate.stage_progress@, stage_id) {
            Some(stage) => json::JsonTreeV1::Text(progress_text(stage.state)@),
            None => json::JsonTreeV1::Null,
        },
        None => json::JsonTreeV1::Null,
    }
}

/// The progress of a stage, if the session has it.
pub fn stage_state_projection(
    aggregate: Option<&SessionAggregateV1>,
    stage_id: &String,
) -> (projection: serde_json::Value)
    ensures
        json::json_tree(projection) == stage_state_tree(aggregate, stage_id@),
{
    match aggregate {
        Some(aggregate) => match find_stage(&aggregate.stage_progress, stage_id) {
            Some(stage) => json_text(stage_progress_state_name(stage.state)),
            None => json_null(),
        },
        None => json_null(),
    }
}

/// The latest attempt at a stage, if the session has the stage and the stage an attempt.
pub open spec fn stage_attempt_tree(
    aggregate: Option<&SessionAggregateV1>,
    stage_id: Seq<char>,
) -> json::JsonTreeV1 {
    match aggregate {
        Some(aggregate) => match stage_named(aggregate.stage_progress@, stage_id) {
            Some(stage) => match stage.latest_attempt_id {
                Some(attempt_id) => json::JsonTreeV1::Record(
                    graph_envelope::with_unsigned(
                        graph_envelope::with_text(
                            json::no_members(),
                            "attempt_id"@,
                            attempt_id@,
                        ),
                        "attempt_number"@,
                        stage.latest_attempt_number,
                    ),
                ),
                None => json::JsonTreeV1::Null,
            },
            None => json::JsonTreeV1::Null,
        },
        None => json::JsonTreeV1::Null,
    }
}

/// The latest attempt at a stage.
pub fn stage_attempt_projection(
    aggregate: Option<&SessionAggregateV1>,
    stage_id: &String,
) -> (projection: serde_json::Value)
    ensures
        json::json_tree(projection) == stage_attempt_tree(aggregate, stage_id@),
{
    let stage = match aggregate {
        Some(aggregate) => match find_stage(&aggregate.stage_progress, stage_id) {
            Some(stage) => stage,
            None => {
                return json_null();
            },
        },
        None => {
            return json_null();
        },
    };
    match &stage.latest_attempt_id {
        Some(attempt_id) => {
            let mut object = json_map_new();
            put_text(&mut object, "attempt_id", attempt_id);
            put_unsigned(&mut object, "attempt_number", stage.latest_attempt_number);
            json_object(object)
        },
        None => json_null(),
    }
}

/// An optional revision, null where there is none.
pub open spec fn revision_tree(revision: Option<u64>) -> json::JsonTreeV1 {
    match revision {
        Some(revision) => json::JsonTreeV1::Unsigned(revision),
        None => json::JsonTreeV1::Null,
    }
}

fn revision_value(revision: Option<u64>) -> (value: serde_json::Value)
    ensures
        json::json_tree(value) == revision_tree(revision),
{
    match revision {
        Some(revision) => json_unsigned(revision),
        None => json_null(),
    }
}

/// What a transition would do to a stage.
pub open spec fn affected_stage_tree(
    prior: Option<&SessionAggregateV1>,
    next: Option<&SessionAggregateV1>,
    stage_id: Seq<char>,
) -> json::JsonTreeV1 {
    json::JsonTreeV1::Record(
        graph_envelope::with_text(json::no_members(), "stage_id"@, stage_id).insert(
            "before"@,
            stage_state_tree(prior, stage_id),
        ).insert("after"@, stage_state_tree(next, stage_id)).insert(
            "before_attempt"@,
            stage_attempt_tree(prior, stage_id),
        ).insert("after_attempt"@, stage_attempt_tree(next, stage_id)),
    )
}

fn affected_stage(
    prior: Option<&SessionAggregateV1>,
    next: Option<&SessionAggregateV1>,
    stage_id: &String,
) -> (value: serde_json::Value)
    ensures
        json::json_tree(value) == affected_stage_tree(prior, next, stage_id@),
{
    let mut object = json_map_new();
    put_text(&mut object, "stage_id", stage_id);
    json_map_insert(&mut object, "before", stage_state_projection(prior, stage_id));
    json_map_insert(&mut object, "after", stage_state_projection(next, stage_id));
    json_map_insert(&mut object, "before_attempt", stage_attempt_projection(prior, stage_id));
    json_map_insert(&mut object, "after_attempt", stage_attempt_projection(next, stage_id));
    json_object(object)
}

/// The session that a transition would leave behind.
pub open spec fn next_of(outcome: &TransitionOutcomeV1) -> Option<&SessionAggregateV1> {
    match &outcome.next_aggregate {
        Some(next) => Some(next),
        None => None,
    }
}

/// What a transition would do to the stages that it affects, in the order in which it names them.
pub open spec fn affected_stage_trees(
    outcome: TransitionOutcomeV1,
    prior: Option<&SessionAggregateV1>,
) -> Seq<json::JsonTreeV1> {
    Seq::new(
        outcome.affected_stages@.len(),
        |i: int| affected_stage_tree(prior, next_of(&outcome), outcome.affected_stages@[i]@),
    )
}

/// What a preview tells.
pub open spec fn preview_members(
    outcome: TransitionOutcomeV1,
    prior: Option<&SessionAggregateV1>,
) -> Members {
    let next = next_of(&outcome);
    let members = graph_envelope::with_bool(json::no_members(), "preview"@, true);
    let members = graph_envelope::with_bool(members, "changed"@, outcome.changed);
    let members = members.insert("revision_before"@, revision_tree(outcome.revision_before));
    let members = members.insert("revision_after"@, revision_tree(outcome.revision_after));
    let members = members.insert("active_before"@, active_attempt_tree(prior));
    let members = members.insert("active_after"@, active_attempt_tree(next));
    let members = members.insert("destination_attempt"@, active_attempt_tree(next));
    members.insert(
        "affected_stages"@,
        json::JsonTreeV1::List(affected_stage_trees(outcome, prior)),
    )
}

/// What a preview tells.
pub fn preview_result_map(
    outcome: &TransitionOutcomeV1,
    prior: Option<&SessionAggregateV1>,
) -> (result: serde_json::Map<String, serde_json::Value>)
    ensures
        json::json_members(result) == preview_members(*outcome, prior),
{
    let next = match &outcome.next_aggregate {
        Some(next) => Some(next),
        None => None,
    };
    assert(next == next_of(outcome));
    let mut affected: Vec<serde_json::Value> = Vec::new();
    let mut position: usize = 0;
    while position < outcome.affected_stages.len()
        invariant
            position <= outcome.affected_stages.len(),
            affected@.len() == position,
            next == next_of(outcome),
            forall|i: int|
                0 <= i < position ==> json::json_tree(#[trigger] affected@[i])
                    == affected_stage_tree(prior, next, outcome.affected_stages@[i]@),
        decreases outcome.affected_stages.len() - position,
    {
        affected.push(affected_stage(prior, next, &outcome.affected_stages[position]));
        position = position + 1;
    }
    assert(json::json_trees(affected@) =~= affected_stage_trees(*outcome, prior));
    let mut result = json_map_new();
    put_bool(&mut result, "preview", true);
    put_bool(&mut result, "changed", outcome.changed);
    json_map_insert(&mut result, "revision_before", revision_value(outcome.revision_before));
    json_map_insert(&mut result, "revision_after", revision_value(outcome.revision_after));
    json_map_insert(&mut result, "active_before", active_attempt_projection(prior));
    json_map_insert(&mut result, "active_after", active_attempt_projection(next));
    json_map_insert(&mut result, "destination_attempt", active_attempt_projection(next));
    json_map_insert(&mut result, "affected_stages", json_array(affected));
    result
}

/// A preview gets no further than the session that it expects: where the workspace holds another, or none,
/// it is refused for that, whatever else it asks for.
pub proof fn a_preview_expects_its_session(
    command: SliceCommandV1,
    prior: Option<&SessionAggregateV1>,
    loaded: Option<Result<ProcedureSnapshotV1, ExecutionBoundaryErrorV1>>,
    plan: Result<PreviewPlanV1, DispatchFailureV1>,
    expected: String,
)
    requires
        call_ensures(preview_command, (&command, prior, loaded), plan),
        (command matches SliceCommandV1::SessionStartReplace { preconditions, .. }
            && preconditions.expected_session_id == expected) || (command matches
            SliceCommandV1::SessionReturn(input) && input.preconditions.expected_session_id
            == expected) || (command matches SliceCommandV1::SessionReopen(input)
            && input.preconditions.expected_session_id == expected) || (command matches
            SliceCommandV1::SessionReset(input) && input.preconditions.expected_session_id
            == expected),
        prior matches Some(held) ==> held.session_id@ != expected@,
    ensures
        plan matches Err(failure) && failure.kind is SessionIdMismatch && failure.details == (
        dispatch::DispatchErrorDetailsV1::SessionIdMismatch {
            expected,
            actual: match prior {
                Some(held) => Some(held.session_id),
                None => None,
            },
        }),
{
}

/// A previewed start first has its procedure loaded, from the source that it names.
pub proof fn a_previewed_start_loads_its_procedure(
    command: SliceCommandV1,
    start: SessionStartV1,
    prior: Option<&SessionAggregateV1>,
    plan: Result<PreviewPlanV1, DispatchFailureV1>,
)
    requires
        call_ensures(
            preview_command,
            (
                &command,
                prior,
                None::<Result<ProcedureSnapshotV1, ExecutionBoundaryErrorV1>>,
            ),
            plan,
        ),
        command == SliceCommandV1::SessionStart(start) || (command matches
            SliceCommandV1::SessionStartReplace { start: input, preconditions } && input == start
            && (prior matches Some(held) && held.session_id@ == preconditions.expected_session_id@)),
    ensures
        plan matches Ok(PreviewPlanV1::LoadProcedure { source, .. }) && source == start.source,
{
}

/// A previewed start is asked about exactly if its procedure loaded and is the expected one, where one is
/// expected: with the title of the request and the loaded procedure, at no revision if it replaces
/// nothing, and at the expected revision of what it replaces.
pub proof fn a_previewed_start_is_asked_about(
    command: SliceCommandV1,
    start: SessionStartV1,
    prior: Option<&SessionAggregateV1>,
    loaded: Result<ProcedureSnapshotV1, ExecutionBoundaryErrorV1>,
    plan: Result<PreviewPlanV1, DispatchFailureV1>,
)
    requires
        call_ensures(
            preview_command,
            (
                &command,
                prior,
                Some::<Result<ProcedureSnapshotV1, ExecutionBoundaryErrorV1>>(loaded),
            ),
            plan,
        ),
        command == SliceCommandV1::SessionStart(start) || (command matches
            SliceCommandV1::SessionStartReplace { start: input, preconditions } && input == start
            && (prior matches Some(held) && held.session_id@ == preconditions.expected_session_id@)),
    ensures
        plan is Ok <==> (loaded matches Ok(snapshot) && (
        start.expected_procedure_digest matches Some(expected) ==> expected@ == snapshot.digest@)),
        plan matches Ok(plan) ==> (loaded matches Ok(snapshot) && (plan matches
            PreviewPlanV1::Transition { command: asked, expected_revision } && match command {
            SliceCommandV1::SessionStart(_) => asked matches SessionCommandV1::Start(asked)
                && asked.task_title == start.task_title && asked.snapshot == snapshot
                && expected_revision == 0,
            SliceCommandV1::SessionStartReplace { preconditions, .. } => asked matches
                SessionCommandV1::StartReplace { expected_session_id, confirmed, start: asked }
                && confirmed && expected_session_id == preconditions.expected_session_id
                && asked.task_title == start.task_title && asked.snapshot == snapshot
                && expected_revision == preconditions.expected_session_revision,
            _ => false,
        })),
        loaded matches Ok(snapshot) ==> (start.expected_procedure_digest matches Some(expected) ==> (
        expected@ != snapshot.digest@ ==> (plan matches Err(failure)
            && failure.kind is ProcedureDigestMismatch && failure.details == (
        dispatch::DispatchErrorDetailsV1::ProcedureDigestMismatch {
            expected,
            actual: snapshot.digest,
        })))),
{
}

/// A previewed return, reopening or reset of the session that it expects is asked about as it was asked
/// for: the same stage, for the same reason, at the expected revision. No other command is previewed.
pub proof fn a_previewed_change_is_asked_about(
    command: SliceCommandV1,
    held: SessionAggregateV1,
    loaded: Option<Result<ProcedureSnapshotV1, ExecutionBoundaryErrorV1>>,
    plan: Result<PreviewPlanV1, DispatchFailureV1>,
)
    requires
        call_ensures(preview_command, (&command, Some(&held), loaded), plan),
    ensures
        command matches SliceCommandV1::SessionReturn(input) ==> (held.session_id@
            == input.preconditions.expected_session_id@ ==> (plan matches Ok(
            PreviewPlanV1::Transition {
                command: SessionCommandV1::Return {
                    expected_attempt_id,
                    destination_stage_id,
                    reason,
                    ..
                },
                expected_revision,
            },
        ) && expected_attempt_id == input.preconditions.expected_attempt_id && destination_stage_id
            == input.destination_stage_id && reason == input.reason && expected_revision
            == input.preconditions.expected_session_revision)),
        command matches SliceCommandV1::SessionReopen(input) ==> (held.session_id@
            == input.preconditions.expected_session_id@ ==> (plan matches Ok(
            PreviewPlanV1::Transition {
                command: SessionCommandV1::Reopen {
                    expected_session_id,
                    destination_stage_id,
                    reason,
                    ..
                },
                expected_revision,
            },
        ) && expected_session_id == input.preconditions.expected_session_id && destination_stage_id
            == input.destination_stage_id && reason == input.reason && expected_revision
            == input.preconditions.expected_session_revision)),
        command matches SliceCommandV1::SessionReset(input) ==> (held.session_id@
            == input.preconditions.expected_session_id@ ==> (plan matches Ok(
            PreviewPlanV1::Transition {
                command: SessionCommandV1::Reset { expected_session_id, confirmed },
                expected_revision,
            },
        ) && confirmed && expected_session_id == input.preconditions.expected_session_id
            && expected_revision == input.preconditions.expected_session_revision)),
        !(command is SessionStart || command is SessionStartReplace || command is SessionReturn
            || command is SessionReopen || command is SessionReset) ==> (plan matches Err(failure)
            && failure.kind is RequestInvalid && failure.details is Absent),
{
}

proof fn a_named_stage_is_there(stages: Seq<StageProgressV1>, stage_id: Seq<char>)
    ensures
        match stage_named(stages, stage_id) {
            Some(stage) => exists|i: int|
                0 <= i < stages.len() && #[trigger] stages[i] == stage && stage.stage_id@ == stage_id
                    && forall|j: int| 0 <= j < i ==> (#[trigger] stages[j]).stage_id@ != stage_id,
            None => forall|i: int|
                0 <= i < stages.len() ==> (#[trigger] stages[i]).stage_id@ != stage_id,
        },
    decreases stages.len(),
{
    if stages.len() > 0 && stages[0].stage_id@ != stage_id {
        let rest = stages.drop_first();
        a_named_stage_is_there(rest, stage_id);
        match stage_named(rest, stage_id) {
            Some(stage) => {
                let i = choose|i: int|
                    0 <= i < rest.len() && #[trigger] rest[i] == stage && stage.stage_id@ == stage_id
                        && forall|j: int| 0 <= j < i ==> (#[trigger] rest[j]).stage_id@ != stage_id;
                assert(stages[i + 1] == stage);
                assert forall|j: int| 0 <= j < i + 1 implies (#[trigger] stages[j]).stage_id@
                    != stage_id by {
                    if j > 0 {
                        assert(rest[j - 1] == stages[j]);
                    }
                }
            },
            None => {
                assert forall|i: int| 0 <= i < stages.len() implies (#[trigger] stages[i]).stage_id@
                    != stage_id by {
                    if i > 0 {
                        assert(rest[i - 1] == stages[i]);
                    }
                }
            },
        }
    } else if stages.len() > 0 {
        assert(stages[0] == stages[0]);
    }
}

/// A stage that a session has is told by how far it has come, at the first of its name, and a stage that it
/// does not have by nothing.
pub proof fn a_stage_is_told_by_its_progress(
    held: SessionAggregateV1,
    stage_id: String,
    projection: serde_json::Value,
    place: int,
)
    requires
        call_ensures(stage_state_projection, (Some(&held), &stage_id), projection),
    ensures
        (forall|i: int|
            0 <= i < held.stage_progress@.len() ==> (#[trigger] held.stage_progress@[i]).stage_id@
                != stage_id@) <==> json::json_tree(projection) is Null,
        0 <= place < held.stage_progress@.len() && held.stage_progress@[place].stage_id@ == stage_id@
            && (forall|j: int|
            0 <= j < place ==> (#[trigger] held.stage_progress@[j]).stage_id@ != stage_id@) ==> {
            let told = json::json_tree(projection);
            match held.stage_progress@[place].state {
                StageProgressStateV1::Pending => told == json::JsonTreeV1::Text("pending"@),
                StageProgressStateV1::Current => told == json::JsonTreeV1::Text("current"@),
                StageProgressStateV1::Done => told == json::JsonTreeV1::Text("done"@),
                StageProgressStateV1::Skipped => told == json::JsonTreeV1::Text("skipped"@),
                StageProgressStateV1::Redo => told == json::JsonTreeV1::Text("redo"@),
                StageProgressStateV1::Abandoned => told == json::JsonTreeV1::Text("abandoned"@),
            }
        },
{
    a_named_stage_is_there(held.stage_progress@, stage_id@);
    let stages = held.stage_progress@;
    match stage_named(stages, stage_id@) {
        Some(stage) => {
            let i = choose|i: int|
                0 <= i < stages.len() && #[trigger] stages[i] == stage && stage.stage_id@ == stage_id@
                    && forall|j: int| 0 <= j < i ==> (#[trigger] stages[j]).stage_id@ != stage_id@;
            if 0 <= place < stages.len() && place < i {
                assert(stages[place].stage_id@ != stage_id@);
            }
        },
        None => {},
    }
}

/// A preview tells whether anything would change, between which revisions, and for each stage that would be
/// affected, in order, what it is before and after.
pub proof fn a_preview_tells_before_and_after(
    outcome: TransitionOutcomeV1,
    prior: Option<&SessionAggregateV1>,
    result: serde_json::Map<String, serde_json::Value>,
    place: int,
    before: serde_json::Value,
    after: serde_json::Value,
)
    requires
        call_ensures(preview_result_map, (&outcome, prior), result),
        0 <= place < outcome.affected_stages@.len(),
        call_ensures(
            stage_state_projection,
            (prior, &outcome.affected_stages@[place]),
            before,
        ),
        call_ensures(
            stage_state_projection,
            (
                match &outcome.next_aggregate {
                    Some(next) => Some(next),
                    None => None,
                },
                &outcome.affected_stages@[place],
            ),
            after,
        ),
    ensures
        ({
            let members = json::json_members(result);
            &&& json::member(members, "preview"@) == Some(json::JsonTreeV1::Bool(true))
            &&& json::member(members, "changed"@) == Some(json::JsonTreeV1::Bool(outcome.changed))
            &&& json::member(members, "revision_before"@) == Some(
                match outcome.revision_before {
                    Some(revision) => json::JsonTreeV1::Unsigned(revision),
                    None => json::JsonTreeV1::Null,
                },
            )
            &&& json::member(members, "revision_after"@) == Some(
                match outcome.revision_after {
                    Some(revision) => json::JsonTreeV1::Unsigned(revision),
                    None => json::JsonTreeV1::Null,
                },
            )
            &&& json::member(members, "active_after"@) == json::member(
                members,
                "destination_attempt"@,
            )
            &&& json::member(members, "affected_stages"@) matches Some(json::JsonTreeV1::List(stages))
                && stages.len() == outcome.affected_stages@.len() && (
            stages[place] matches json::JsonTreeV1::Record(stage) && json::member(
                stage,
                "stage_id"@,
            ) == Some(json::JsonTreeV1::Text(outcome.affected_stages@[place]@)) && json::member(
                stage,
                "before"@,
            ) == Some(json::json_tree(before)) && json::member(stage, "after"@) == Some(
                json::json_tree(after),
            ))
        }),
{
    reveal_strlit("preview");
    reveal_strlit("changed");
    reveal_strlit("revision_before");
    reveal_strlit("revision_after");
    reveal_strlit("active_before");
    reveal_strlit("active_after");
    reveal_strlit("destination_attempt");
    reveal_strlit("affected_stages");
    assert("preview"@.len() == 7 && "changed"@.len() == 7 && "revision_before"@.len() == 15
        && "revision_after"@.len() == 14 && "active_before"@.len() == 13 && "active_after"@.len()
        == 12 && "destination_attempt"@.len() == 19 && "affected_stages"@.len() == 15);
    assert("preview"@[0] != "changed"@[0]);
    assert("revision_before"@[0] != "affected_stages"@[0]);
    reveal_strlit("stage_id");
    reveal_strlit("before");
    reveal_strlit("after");
    reveal_strlit("before_attempt");
    reveal_strlit("after_attempt");
    assert("stage_id"@.len() == 8 && "before"@.len() == 6 && "after"@.len() == 5
        && "before_attempt"@.len() == 14 && "after_attempt"@.len() == 13);
}

/// An active attempt is told by its stage, its name and its number, and nothing is told of a session without
/// one.
pub proof fn an_active_attempt_is_told(
    held: SessionAggregateV1,
    projection: serde_json::Value,
    place: int,
)
    requires
        call_ensures(active_attempt_projection, (Some(&held),), projection),
        0 <= place < held.attempts@.len(),
        forall|j: int|
            0 <= j < place ==> (#[trigger] held.attempts@[j]).attempt_id@
                != held.attempts@[place].attempt_id@,
    ensures
        held.active_stage_id is None || held.active_attempt_id is None ==> json::json_tree(
            projection,
        ) is Null,
        held.active_stage_id matches Some(stage_id) ==> (held.active_attempt_id matches Some(
            attempt_id,
        ) ==> (attempt_id@ == held.attempts@[place].attempt_id@ ==> (json::json_tree(projection)
            matches json::JsonTreeV1::Record(members) && json::member(members, "stage_id"@) == Some(
            json::JsonTreeV1::Text(stage_id@),
        ) && json::member(members, "attempt_id"@) == Some(json::JsonTreeV1::Text(attempt_id@))
            && json::member(members, "attempt_number"@) == Some(
            json::JsonTreeV1::Unsigned(held.attempts@[place].number),
        )))),
{
    a_named_attempt_is_found(held.attempts@, place);
    reveal_strlit("stage_id");
    reveal_strlit("attempt_id");
    reveal_strlit("attempt_number");
    assert("stage_id"@.len() == 8 && "attempt_id"@.len() == 10 && "attempt_number"@.len() == 14);
}

proof fn a_named_attempt_is_found(attempts: Seq<AttemptV1>, place: int)
    requires
        0 <= place < attempts.len(),
        forall|j: int|
            0 <= j < place ==> (#[trigger] attempts[j]).attempt_id@ != attempts[place].attempt_id@,
    ensures
        attempt_named(attempts, attempts[place].attempt_id@) == Some(attempts[place]),
    decreases attempts.len(),
{
    if place > 0 {
        let rest = attempts.drop_first();
        assert(attempts[0].attempt_id@ != attempts[place].attempt_id@);
        assert forall|j: int| 0 <= j < place - 1 implies (#[trigger] rest[j]).attempt_id@ != rest[place
            - 1].attempt_id@ by {
            assert(rest[j] == attempts[j + 1]);
        }
        a_named_attempt_is_found(rest, place - 1);
    }
}

/// A previewed start whose procedure does not load is refused for why it does not.
pub proof fn a_previewed_start_needs_its_procedure(
    command: SliceCommandV1,
    start: SessionStartV1,
    prior: Option<&SessionAggregateV1>,
    error: ExecutionBoundaryErrorV1,
    plan: Result<PreviewPlanV1, DispatchFailureV1>,
)
    requires
        call_ensures(
            preview_command,
            (
                &command,
                prior,
                Some(Err::<ProcedureSnapshotV1, ExecutionBoundaryErrorV1>(error)),
            ),
            plan,
        ),
        command == SliceCommandV1::SessionStart(start) || (command matches
            SliceCommandV1::SessionStartReplace { start: input, preconditions } && input == start
            && (prior matches Some(held) && held.session_id@ == preconditions.expected_session_id@)),
    ensures
        plan matches Err(failure) && {
            &&& failure.admission is None && failure.job is None
            &&& failure.kind is ProcedureInvalid <==> error is Domain
            &&& failure.kind is UnsupportedV2Capability <==> error is ProcedureV2Unsupported
            &&& failure.kind is WorkspaceUuidMismatch <==> error is WorkspaceIdentityMismatch
            &&& failure.kind is DaemonUnavailable <==> error is Transient
            &&& error is ProcedureV2Unsupported ==> (failure.details matches
                dispatch::DispatchErrorDetailsV1::UnsupportedV2Capability {
                capability,
                required_result_schema,
            } && required_result_schema@ == "podway.session-start-result/v2"@ && capability@ == (
            if command is SessionStart {
                "session.start"@
            } else {
                "session.start_replace"@
            }))
        },
{
}

/// The latest attempt at a stage is told by its name and its number, at the first stage of the name, and
/// nothing is told where there is no such stage or no attempt at it.
pub proof fn a_latest_attempt_is_told(
    held: SessionAggregateV1,
    stage_id: String,
    projection: serde_json::Value,
    place: int,
)
    requires
        call_ensures(stage_attempt_projection, (Some(&held), &stage_id), projection),
        0 <= place < held.stage_progress@.len(),
        held.stage_progress@[place].stage_id@ == stage_id@,
        forall|j: int|
            0 <= j < place ==> (#[trigger] held.stage_progress@[j]).stage_id@ != stage_id@,
    ensures
        match held.stage_progress@[place].latest_attempt_id {
            Some(attempt_id) => json::json_tree(projection) matches json::JsonTreeV1::Record(members)
                && json::member(members, "attempt_id"@) == Some(json::JsonTreeV1::Text(attempt_id@))
                && json::member(members, "attempt_number"@) == Some(
                json::JsonTreeV1::Unsigned(held.stage_progress@[place].latest_attempt_number),
            ),
            None => json::json_tree(projection) is Null,
        },
{
    a_named_stage_is_there(held.stage_progress@, stage_id@);
    let stages = held.stage_progress@;
    match stage_named(stages, stage_id@) {
        Some(stage) => {
            let i = choose|i: int|
                0 <= i < stages.len() && #[trigger] stages[i] == stage && stage.stage_id@ == stage_id@
                    && forall|j: int| 0 <= j < i ==> (#[trigger] stages[j]).stage_id@ != stage_id@;
            if place < i {
                assert(stages[place].stage_id@ != stage_id@);
            } else if i < place {
                assert(stages[i].stage_id@ != stage_id@);
            }
        },
        None => {
            assert(stages[place].stage_id@ != stage_id@);
        },
    }
    reveal_strlit("attempt_id");
    reveal_strlit("attempt_number");
    assert("attempt_id"@.len() == 10 && "attempt_number"@.len() == 14);
}

/// Whatever is previewed would be made under identities that are set aside for previews: one for a
/// session, one for an attempt and one for a procedure.
pub proof fn a_preview_is_made_under_set_aside_identities(
    command: SliceCommandV1,
    prior: Option<&SessionAggregateV1>,
    loaded: Option<Result<ProcedureSnapshotV1, ExecutionBoundaryErrorV1>>,
    plan: PreviewPlanV1,
)
    requires
        call_ensures(
            preview_command,
            (&command, prior, loaded),
            Ok::<PreviewPlanV1, DispatchFailureV1>(plan),
        ),
    ensures
        match plan {
            PreviewPlanV1::LoadProcedure { snapshot_id, .. } => snapshot_id@
                == "00000000-0000-4000-8000-000000000203"@,
            PreviewPlanV1::Transition { command, .. } => match command {
                SessionCommandV1::Start(start) => start.session_id@
                    == "00000000-0000-4000-8000-000000000201"@ && start.first_attempt_id@
                    == "00000000-0000-4000-8000-000000000202"@,
                SessionCommandV1::StartReplace { start, .. } => start.session_id@
                    == "00000000-0000-4000-8000-000000000201"@ && start.first_attempt_id@
                    == "00000000-0000-4000-8000-000000000202"@,
                SessionCommandV1::Return { destination_attempt_id, .. } => destination_attempt_id@
                    == "00000000-0000-4000-8000-000000000202"@,
                SessionCommandV1::Reopen { destination_attempt_id, .. } => destination_attempt_id@
                    == "00000000-0000-4000-8000-000000000202"@,
                SessionCommandV1::Reset { .. } => true,
            },
        },
{
}

} // verus!
