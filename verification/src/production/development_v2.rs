//! How a request for a graph session is served.
//!
//! [`development_v2_route`] tells which of five ways a request goes: it is not for a graph session,
//! it is submitted as a job, it asks what a start or a reset would do, or it reads the session. Each
//! of the other functions is one turn of such a way. It is given what came of the last piece of
//! outside work, and says what is to be done next or what the request is answered with.

use crate::dispatch;
use crate::dispatch::{DispatchFailureKindV1, DispatchFailureV1, JobOutputV1, WorkspaceOutputV1};
use crate::execution::{ProcedureV2SourceAdmissionErrorV1, ProcedureV2StartPreparationErrorV1};
use crate::json;
use crate::json::{json_map_insert, json_map_new, json_object};
use crate::production::failures;
use crate::production::failures::{
    map_graph_view_error_v2, map_mutation_worker_error, map_procedure_v2_start_preparation_error,
    map_read_error, map_store_error, session_id_mismatch_failure,
    terminal_replay_integrity_failure, GraphViewErrorV2, TerminalCommandKindV1,
};
use crate::production::frozen::Members;
use crate::production::graph_envelope;
use crate::production::graph_envelope::{
    put_bool, put_optional_text, put_text, put_unsigned, OutputEnvelopeInputV2,
};
use crate::production::mutations;
use crate::production::mutations::{terminal_command_kind, terminal_of_submission};
use crate::production::receipts;
use crate::production::receipts::job_output;
use crate::production::terminal;
use crate::production::terminal::{
    terminal_job_response, FrozenEnvelopeEvidenceV1, TerminalJobResponseV1,
};
use crate::protocol;
use crate::protocol::{
    completion_mode, mutates_item, MutationWaitV1, RequestReadWaitV1,
    SessionIdentityPreconditionsV1, SessionResetV1, SessionStartSourceV1, SessionStartV1,
    SessionStatusV1, SliceCommandV1,
};
use crate::read_service;
use crate::read_service::{
    is_expected_session, is_terminal_job, session_of, GraphWorkspaceViewV2, MonotonicDeadlineV1,
    ReadServiceErrorV1, ReadWaitV1,
};
use crate::store;
use crate::store::{JobViewV1, PersistedResponseContextV1, StoreErrorV1, StoreJobStateV1};
use crate::text::same_text;
use crate::worker::{
    WorkerCompletionModeV1, WorkerErrorV1, WorkerSubmissionV1, WorkerWaitResultV1,
};
use vstd::prelude::*;

verus! {

/// How long a read sleeps at most before it looks again, in milliseconds.
pub const READ_POLL_MILLIS_V2: u64 = 50;

/// What every request carries.
#[derive(Clone, Debug, PartialEq, Eq)]
pub struct RequestEnvelopeV1 {
    pub request_id: String,
    pub command: String,
    pub idempotency_key: Option<String>,
    pub detach: bool,
    pub wait_timeout_ms: u64,
}

/// The start of a graph session, in the form that can define its goal.
#[derive(Clone, Debug, PartialEq, Eq)]
pub struct ProcedureV2StartV1 {
    pub start: SessionStartV1,
    pub has_initial_goal: bool,
    pub is_mutation: bool,
    pub replaces: Option<SessionIdentityPreconditionsV1>,
}

/// A request, by the form in which its command came.
#[derive(Clone, Debug, PartialEq, Eq)]
pub enum DaemonRequestV1 {
    Slice(SliceCommandV1),
    ProcedureV2Mutation { command_name: String },
    ProcedureV2Start(ProcedureV2StartV1),
    Other,
}

/// The session that a start expects to find.
#[derive(Clone, Debug, PartialEq, Eq)]
pub enum GraphStartCurrentTaskV2 {
    Absent,
    Exact { session_id: String, session_revision: u64 },
}

/// How a job is submitted.
#[derive(Clone, Copy, Debug, PartialEq, Eq, Structural)]
pub enum SubmissionKindV2 {
    TypedMutation,
    TypedStart,
    Mutation,
    Start,
}

/// Which way a request goes.
#[derive(Debug, PartialEq, Eq)]
pub enum DevelopmentRouteV2<'a> {
    NotHandled,
    Submit {
        submission: SubmissionKindV2,
        terminal_kind: TerminalCommandKindV1,
        changes_item: bool,
    },
    PreviewStart {
        start: &'a SessionStartV1,
        binds_goal: bool,
        expected_current: GraphStartCurrentTaskV2,
    },
    PreviewReset(&'a SessionResetV1),
    ReadSession { wait: &'a RequestReadWaitV1, expected_session_id: Option<&'a String> },
}

/// What a mutation in its own form is, if it is one of those.
pub open spec fn typed_mutation_kind(command_name: Seq<char>) -> Option<TerminalCommandKindV1> {
    if command_name == "session.decide"@ {
        Some(TerminalCommandKindV1::Decision)
    } else if command_name == "session.rework"@ {
        Some(TerminalCommandKindV1::Rework)
    } else if command_name == "goal.define"@ {
        Some(TerminalCommandKindV1::GoalDefinition)
    } else if command_name == "goal.revise"@ {
        Some(TerminalCommandKindV1::GoalRevision)
    } else if command_name == "goal.assess_criterion"@ {
        Some(TerminalCommandKindV1::CriterionAssessment)
    } else {
        None
    }
}

fn typed_mutation_kind_of(command_name: &str) -> (kind: Option<TerminalCommandKindV1>)
    ensures
        kind == typed_mutation_kind(command_name@),
{
    if same_text(command_name, "session.decide") {
        Some(TerminalCommandKindV1::Decision)
    } else if same_text(command_name, "session.rework") {
        Some(TerminalCommandKindV1::Rework)
    } else if same_text(command_name, "goal.define") {
        Some(TerminalCommandKindV1::GoalDefinition)
    } else if same_text(command_name, "goal.revise") {
        Some(TerminalCommandKindV1::GoalRevision)
    } else if same_text(command_name, "goal.assess_criterion") {
        Some(TerminalCommandKindV1::CriterionAssessment)
    } else {
        None
    }
}

/// The session that a start which may replace one expects to find.
pub open spec fn expected_task(replaces: Option<SessionIdentityPreconditionsV1>)
    -> GraphStartCurrentTaskV2 {
    match replaces {
        Some(preconditions) => GraphStartCurrentTaskV2::Exact {
            session_id: preconditions.expected_session_id,
            session_revision: preconditions.expected_session_revision,
        },
        None => GraphStartCurrentTaskV2::Absent,
    }
}

fn expected_task_of(replaces: Option<&SessionIdentityPreconditionsV1>) -> (task:
    GraphStartCurrentTaskV2)
    ensures
        task == expected_task(
            match replaces {
                Some(preconditions) => Some(*preconditions),
                None => None,
            },
        ),
{
    match replaces {
        Some(preconditions) => GraphStartCurrentTaskV2::Exact {
            session_id: preconditions.expected_session_id.clone(),
            session_revision: preconditions.expected_session_revision,
        },
        None => GraphStartCurrentTaskV2::Absent,
    }
}

/// Whether a command of the first form is submitted as a job of a graph session.
pub open spec fn is_graph_mutation(command: SliceCommandV1) -> bool {
    command is SessionComplete || command is SessionSkip || command is SessionRetry
        || command is SessionBlock || command is SessionUnblock || command is SessionCancel
        || command is SessionReset || protocol::is_item_mutation(command)
}

/// Which way the start of a session goes.
pub open spec fn start_route<'a>(
    start: &'a SessionStartV1,
    replaces: Option<SessionIdentityPreconditionsV1>,
) -> DevelopmentRouteV2<'a> {
    if start.dry_run {
        DevelopmentRouteV2::PreviewStart {
            start,
            binds_goal: false,
            expected_current: expected_task(replaces),
        }
    } else {
        DevelopmentRouteV2::Submit {
            submission: SubmissionKindV2::Start,
            terminal_kind: TerminalCommandKindV1::Start,
            changes_item: false,
        }
    }
}

/// Which way a request goes.
pub open spec fn development_route<'a>(request: &'a DaemonRequestV1) -> DevelopmentRouteV2<'a> {
    match request {
        DaemonRequestV1::ProcedureV2Mutation { command_name } => match typed_mutation_kind(
            command_name@,
        ) {
            Some(terminal_kind) => DevelopmentRouteV2::Submit {
                submission: SubmissionKindV2::TypedMutation,
                terminal_kind,
                changes_item: false,
            },
            None => DevelopmentRouteV2::NotHandled,
        },
        DaemonRequestV1::ProcedureV2Start(typed) => if typed.is_mutation {
            DevelopmentRouteV2::Submit {
                submission: SubmissionKindV2::TypedStart,
                terminal_kind: TerminalCommandKindV1::Start,
                changes_item: false,
            }
        } else if typed.has_initial_goal {
            DevelopmentRouteV2::PreviewStart {
                start: &typed.start,
                binds_goal: true,
                expected_current: expected_task(typed.replaces),
            }
        } else {
            DevelopmentRouteV2::NotHandled
        },
        DaemonRequestV1::Slice(command) => match command {
            SliceCommandV1::SessionReset(input) if input.dry_run =>
                DevelopmentRouteV2::PreviewReset(input),
            SliceCommandV1::SessionStatus(input) => DevelopmentRouteV2::ReadSession {
                wait: &input.wait,
                expected_session_id: as_reference(&input.expected_session_id),
            },
            SliceCommandV1::SessionNext(input) => DevelopmentRouteV2::ReadSession {
                wait: &input.wait,
                expected_session_id: as_reference(&input.expected_session_id),
            },
            SliceCommandV1::SessionStart(start) => start_route(start, None),
            SliceCommandV1::SessionStartReplace { start, preconditions } => start_route(
                start,
                Some(*preconditions),
            ),
            _ => if is_graph_mutation(*command) {
                DevelopmentRouteV2::Submit {
                    submission: SubmissionKindV2::Mutation,
                    terminal_kind: mutations::slice_command_kind(*command),
                    changes_item: protocol::is_item_mutation(*command),
                }
            } else {
                DevelopmentRouteV2::NotHandled
            },
        },
        DaemonRequestV1::Other => DevelopmentRouteV2::NotHandled,
    }
}

/// A reference to what an optional text holds.
pub open spec fn as_reference<'a>(text: &'a Option<String>) -> Option<&'a String> {
    match text {
        Some(text) => Some(text),
        None => None,
    }
}

fn reference_to<'a>(text: &'a Option<String>) -> (reference: Option<&'a String>)
    ensures
        reference == as_reference(text),
{
    match text {
        Some(text) => Some(text),
        None => None,
    }
}

fn start_route_of<'a>(
    start: &'a SessionStartV1,
    replaces: Option<&SessionIdentityPreconditionsV1>,
) -> (route: DevelopmentRouteV2<'a>)
    ensures
        route == start_route(
            start,
            match replaces {
                Some(preconditions) => Some(*preconditions),
                None => None,
            },
        ),
{
    if start.dry_run {
        DevelopmentRouteV2::PreviewStart {
            start,
            binds_goal: false,
            expected_current: expected_task_of(replaces),
        }
    } else {
        DevelopmentRouteV2::Submit {
            submission: SubmissionKindV2::Start,
            terminal_kind: TerminalCommandKindV1::Start,
            changes_item: false,
        }
    }
}

/// Which way a request goes.
pub fn development_v2_route<'a>(request: &'a DaemonRequestV1) -> (route: DevelopmentRouteV2<'a>)
    ensures
        route == development_route(request),
{
    let command = match request {
        DaemonRequestV1::ProcedureV2Mutation { command_name } => {
            return match typed_mutation_kind_of(command_name) {
                Some(terminal_kind) => DevelopmentRouteV2::Submit {
                    submission: SubmissionKindV2::TypedMutation,
                    terminal_kind,
                    changes_item: false,
                },
                None => DevelopmentRouteV2::NotHandled,
            };
        },
        DaemonRequestV1::ProcedureV2Start(typed) => {
            return if typed.is_mutation {
                DevelopmentRouteV2::Submit {
                    submission: SubmissionKindV2::TypedStart,
                    terminal_kind: TerminalCommandKindV1::Start,
                    changes_item: false,
                }
            } else if typed.has_initial_goal {
                DevelopmentRouteV2::PreviewStart {
                    start: &typed.start,
                    binds_goal: true,
                    expected_current: match &typed.replaces {
                        Some(preconditions) => expected_task_of(Some(preconditions)),
                        None => expected_task_of(None),
                    },
                }
            } else {
                DevelopmentRouteV2::NotHandled
            };
        },
        DaemonRequestV1::Other => {
            return DevelopmentRouteV2::NotHandled;
        },
        DaemonRequestV1::Slice(command) => command,
    };
    match command {
        SliceCommandV1::SessionReset(input) => if input.dry_run {
            DevelopmentRouteV2::PreviewReset(input)
        } else {
            DevelopmentRouteV2::Submit {
                submission: SubmissionKindV2::Mutation,
                terminal_kind: TerminalCommandKindV1::SessionReset,
                changes_item: false,
            }
        },
        SliceCommandV1::SessionStatus(input) => DevelopmentRouteV2::ReadSession {
            wait: &input.wait,
            expected_session_id: reference_to(&input.expected_session_id),
        },
        SliceCommandV1::SessionNext(input) => DevelopmentRouteV2::ReadSession {
            wait: &input.wait,
            expected_session_id: reference_to(&input.expected_session_id),
        },
        SliceCommandV1::SessionStart(start) => start_route_of(start, None),
        SliceCommandV1::SessionStartReplace { start, preconditions } => start_route_of(
            start,
            Some(preconditions),
        ),
        SliceCommandV1::SessionComplete
        | SliceCommandV1::SessionSkip
        | SliceCommandV1::SessionRetry
        | SliceCommandV1::SessionBlock
        | SliceCommandV1::SessionUnblock
        | SliceCommandV1::SessionCancel
        | SliceCommandV1::ItemCheck
        | SliceCommandV1::ItemUncheck
        | SliceCommandV1::ItemSet
        | SliceCommandV1::ItemAdd
        | SliceCommandV1::ItemRemove
        | SliceCommandV1::ItemAttach
        | SliceCommandV1::ItemClear => DevelopmentRouteV2::Submit {
            submission: SubmissionKindV2::Mutation,
            terminal_kind: terminal_command_kind(command),
            changes_item: mutates_item(command),
        },
        SliceCommandV1::WorkspaceInit
        | SliceCommandV1::WorkspaceResetAll
        | SliceCommandV1::SessionReturn(_)
        | SliceCommandV1::SessionReopen(_)
        | SliceCommandV1::Other => DevelopmentRouteV2::NotHandled,
    }
}

/// What a job is submitted with.
#[derive(Clone, Debug, PartialEq, Eq)]
pub struct SubmissionRequestV2 {
    pub idempotency_key: String,
    pub response_context: PersistedResponseContextV1,
    pub completion: WorkerCompletionModeV1,
}

/// Whether a submission carries what its request asks for: the key, the context of the response,
/// and a wait unless the request detaches from its job.
pub open spec fn is_submission_request(
    request: RequestEnvelopeV1,
    workspace: WorkspaceOutputV1,
    now_millis: u64,
    submission: Result<SubmissionRequestV2, DispatchFailureV1>,
) -> bool {
    match request.idempotency_key {
        None => submission matches Err(failure) && failure == dispatch::bare_failure(
            DispatchFailureKindV1::RequestInvalid,
        ),
        Some(key) => if !request.detach && now_millis + request.wait_timeout_ms > u64::MAX {
            submission matches Err(failure) && failure == failures::internal_failure()
        } else {
            submission matches Ok(submission) && {
                &&& submission.idempotency_key == key
                &&& submission.response_context == (PersistedResponseContextV1 {
                    request_id: request.request_id,
                    command: request.command,
                    workspace_uuid: workspace.uuid,
                    workspace_root: workspace.root,
                    workspace_sequence: workspace.latest_workspace_sequence,
                })
                &&& if request.detach {
                    submission.completion is Detached
                } else {
                    submission.completion matches WorkerCompletionModeV1::WaitUntil(deadline)
                        && deadline.at() == now_millis + request.wait_timeout_ms
                }
            }
        },
    }
}

/// What a job is submitted with, once its workspace is resolved.
pub fn submission_request(
    request: &RequestEnvelopeV1,
    workspace: &WorkspaceOutputV1,
    now_millis: u64,
) -> (submission: Result<SubmissionRequestV2, DispatchFailureV1>)
    ensures
        is_submission_request(*request, *workspace, now_millis, submission),
{
    let idempotency_key: String = match &request.idempotency_key {
        Some(key) => key.clone(),
        None => {
            return Err(DispatchFailureV1::new(DispatchFailureKindV1::RequestInvalid));
        },
    };
    let wait = if request.detach {
        MutationWaitV1::Detached
    } else {
        MutationWaitV1::UntilTerminal { timeout_millis: request.wait_timeout_ms }
    };
    let completion = match completion_mode(wait, now_millis) {
        Ok(completion) => completion,
        Err(error) => {
            return Err(map_read_error(error));
        },
    };
    Ok(
        SubmissionRequestV2 {
            idempotency_key,
            response_context: PersistedResponseContextV1 {
                request_id: request.request_id.clone(),
                command: request.command.clone(),
                workspace_uuid: workspace.uuid.clone(),
                workspace_root: workspace.root.clone(),
                workspace_sequence: workspace.latest_workspace_sequence,
            },
            completion,
        },
    )
}

/// What a submitted job is answered with next.
#[derive(Debug, PartialEq, Eq)]
pub enum SubmissionAnswerV2 {
    /// The worker does not take the request for one of a graph session.
    NotHandled,
    /// The job has ended; the response to it is sent to the request.
    Replay(TerminalJobResponseV1),
    /// The job was admitted and not waited for; it has to be read.
    ReadAdmittedJob,
}

/// Whether an answer is the next one to a submission.
pub open spec fn is_submission_answer(
    terminal_kind: TerminalCommandKindV1,
    changes_item: bool,
    submission: Result<Option<WorkerSubmissionV1>, WorkerErrorV1>,
    evidence: FrozenEnvelopeEvidenceV1,
    answer: Result<SubmissionAnswerV2, DispatchFailureV1>,
) -> bool {
    match submission {
        Err(error) => answer matches Err(failure) && failures::is_mutation_failure(
            changes_item,
            error,
            failure,
        ),
        Ok(None) => answer == Ok::<SubmissionAnswerV2, DispatchFailureV1>(
            SubmissionAnswerV2::NotHandled,
        ),
        Ok(Some(submission)) => match mutations::ended_receipt(submission) {
            Some(receipt) => match answer {
                Ok(SubmissionAnswerV2::Replay(response)) => terminal::is_job_response(
                    receipt,
                    terminal_kind,
                    evidence,
                    Ok::<TerminalJobResponseV1, DispatchFailureV1>(response),
                ),
                Ok(_) => false,
                Err(failure) => terminal::is_job_response(
                    receipt,
                    terminal_kind,
                    evidence,
                    Err::<TerminalJobResponseV1, DispatchFailureV1>(failure),
                ),
            },
            None => match submission.completion {
                Some(WorkerWaitResultV1::TimedOut(view)) => answer matches Err(failure)
                    && is_timeout_failure(view, failure),
                _ => answer == Ok::<SubmissionAnswerV2, DispatchFailureV1>(
                    SubmissionAnswerV2::ReadAdmittedJob,
                ),
            },
        },
    }
}

/// Whether a failure tells that a job did not end in time, and shows the job.
pub open spec fn is_timeout_failure(view: JobViewV1, failure: DispatchFailureV1) -> bool {
    if receipts::view_has_timestamps(view) {
        failure.job matches Some(job) && receipts::is_view_output(view, job) && failure == (
        DispatchFailureV1 {
            job: Some(job),
            ..dispatch::bare_failure(DispatchFailureKindV1::JobWaitTimeout)
        })
    } else {
        failure == failures::internal_failure()
    }
}

/// What a submission is answered with next. The evidence counts only where the job has ended with a
/// response that its receipt keeps.
pub fn submission_answer(
    terminal_kind: TerminalCommandKindV1,
    changes_item: bool,
    submission: Result<Option<WorkerSubmissionV1>, WorkerErrorV1>,
    evidence: FrozenEnvelopeEvidenceV1,
) -> (answer: Result<SubmissionAnswerV2, DispatchFailureV1>)
    ensures
        is_submission_answer(terminal_kind, changes_item, submission, evidence, answer),
{
    let submission = match submission {
        Ok(Some(submission)) => submission,
        Ok(None) => {
            return Ok(SubmissionAnswerV2::NotHandled);
        },
        Err(error) => {
            return Err(map_mutation_worker_error(changes_item, error));
        },
    };
    if let Some(receipt) = terminal_of_submission(&submission) {
        return match terminal_job_response(receipt, terminal_kind, evidence) {
            Ok(response) => Ok(SubmissionAnswerV2::Replay(response)),
            Err(failure) => Err(failure),
        };
    }
    if let Some(WorkerWaitResultV1::TimedOut(view)) = &submission.completion {
        return match job_output(view) {
            Ok(job) => Err(
                DispatchFailureV1::new(DispatchFailureKindV1::JobWaitTimeout).with_job(job),
            ),
            Err(failure) => Err(failure),
        };
    }
    Ok(SubmissionAnswerV2::ReadAdmittedJob)
}

/// Whether a job is the admitted one as it was read, or there is none and why.
pub open spec fn is_admitted_job(
    read: Result<Option<JobViewV1>, StoreErrorV1>,
    job: Result<JobOutputV1, DispatchFailureV1>,
) -> bool {
    match read {
        Err(error) => job matches Err(failure) && failures::is_store_failure(error, failure),
        Ok(None) => job matches Err(failure) && failure == dispatch::bare_failure(
            DispatchFailureKindV1::JobNotFound,
        ),
        Ok(Some(view)) => match job {
            Ok(job) => receipts::view_has_timestamps(view) && receipts::is_view_output(view, job),
            Err(failure) => !receipts::view_has_timestamps(view) && failure
                == failures::internal_failure(),
        },
    }
}

/// The admitted job as it was read.
pub fn admitted_job(read: Result<Option<JobViewV1>, StoreErrorV1>) -> (job: Result<
    JobOutputV1,
    DispatchFailureV1,
>)
    ensures
        is_admitted_job(read, job),
{
    match read {
        Ok(Some(view)) => job_output(&view),
        Ok(None) => Err(DispatchFailureV1::new(DispatchFailureKindV1::JobNotFound)),
        Err(error) => Err(map_store_error(error)),
    }
}

/// Whether a job is the admitted one of a start. The start is read twice: once as a job, whose
/// digest has to be told, and once more for the procedure that it was admitted with.
pub open spec fn is_admitted_start(
    first: Result<Option<JobViewV1>, StoreErrorV1>,
    digest_is_told: bool,
    second: Result<Option<JobViewV1>, StoreErrorV1>,
    procedure_digest: Option<String>,
    started: Result<(JobOutputV1, String), DispatchFailureV1>,
) -> bool {
    match first {
        Ok(Some(view)) if !digest_is_told => started matches Err(failure) && failure
            == failures::integrity_failure(),
        _ => match (first, second, procedure_digest) {
            (Ok(Some(view)), second, procedure_digest) if receipts::view_has_timestamps(view) =>
                match (second, procedure_digest) {
                (Err(error), _) => started matches Err(failure) && failures::is_store_failure(
                    error,
                    failure,
                ),
                (Ok(Some(_)), Some(digest)) => started matches Ok((job, shown))
                    && receipts::is_view_output(view, job) && shown == digest,
                _ => started matches Err(failure) && failure == failures::integrity_failure(),
            },
            _ => started matches Err(failure) && is_admitted_job(
                first,
                Err::<JobOutputV1, DispatchFailureV1>(failure),
            ),
        },
    }
}

/// The admitted job of a start, and the digest of the procedure that it was admitted with.
pub fn admitted_start(
    first: Result<Option<JobViewV1>, StoreErrorV1>,
    digest_is_told: bool,
    second: Result<Option<JobViewV1>, StoreErrorV1>,
    procedure_digest: Option<String>,
) -> (started: Result<(JobOutputV1, String), DispatchFailureV1>)
    ensures
        is_admitted_start(first, digest_is_told, second, procedure_digest, started),
{
    let view = match first {
        Ok(Some(view)) => view,
        Ok(None) => {
            return Err(DispatchFailureV1::new(DispatchFailureKindV1::JobNotFound));
        },
        Err(error) => {
            return Err(map_store_error(error));
        },
    };
    if !digest_is_told {
        return Err(terminal_replay_integrity_failure());
    }
    let job = match job_output(&view) {
        Ok(job) => job,
        Err(failure) => {
            return Err(failure);
        },
    };
    match second {
        Ok(Some(_)) => match procedure_digest {
            Some(digest) => Ok((job, digest)),
            None => Err(terminal_replay_integrity_failure()),
        },
        Ok(None) => Err(terminal_replay_integrity_failure()),
        Err(error) => Err(map_store_error(error)),
    }
}

/// The account of a job that was admitted.
pub open spec fn admitted_members(job: JobOutputV1) -> Members {
    graph_envelope::with_unsigned(
        graph_envelope::with_text(
            graph_envelope::with_bool(json::no_members(), "admitted"@, true),
            "job_id"@,
            job.id@,
        ),
        "workspace_sequence"@,
        job.sequence,
    )
}

/// The result of a request that detached from its job. A start tells its procedure.
pub open spec fn detached_members(job: JobOutputV1, procedure_digest: Option<String>) -> Members {
    let members = graph_envelope::of_schema("podway.detached-admission-result/v2"@);
    let members = graph_envelope::with_bool(members, "detached"@, true);
    let members = graph_envelope::with_optional_text(
        members,
        "procedure_digest"@,
        procedure_digest,
    );
    members.insert("admission"@, json::JsonTreeV1::Record(admitted_members(job)))
}

/// Whether a response answers the given request at the given instant.
pub open spec fn answers(
    request: RequestEnvelopeV1,
    generated_at: String,
    output: OutputEnvelopeInputV2,
) -> bool {
    output.request_id == request.request_id && output.command == request.command
        && output.generated_at == generated_at && output.session is None
}

fn answer_to(
    request: &RequestEnvelopeV1,
    generated_at: String,
    workspace: Option<WorkspaceOutputV1>,
    job: Option<JobOutputV1>,
    result: serde_json::Map<String, serde_json::Value>,
) -> (output: OutputEnvelopeInputV2)
    ensures
        answers(*request, generated_at, output),
        output.workspace == workspace,
        output.job == job,
        output.result == result,
{
    OutputEnvelopeInputV2 {
        request_id: request.request_id.clone(),
        command: request.command.clone(),
        generated_at,
        workspace,
        job,
        session: None,
        result,
    }
}

/// The response to a request that detached from its job.
pub fn detached_output(
    request: &RequestEnvelopeV1,
    generated_at: String,
    workspace: WorkspaceOutputV1,
    job: JobOutputV1,
    procedure_digest: &Option<String>,
) -> (output: OutputEnvelopeInputV2)
    ensures
        answers(*request, generated_at, output),
        output.workspace == Some(workspace),
        output.job == Some(job),
        json::json_members(output.result) == detached_members(job, *procedure_digest),
{
    let mut admission = json_map_new();
    put_bool(&mut admission, "admitted", true);
    put_text(&mut admission, "job_id", &job.id);
    put_unsigned(&mut admission, "workspace_sequence", job.sequence);
    let mut result = json_map_new();
    put_text(&mut result, "schema", "podway.detached-admission-result/v2");
    put_bool(&mut result, "detached", true);
    put_optional_text(&mut result, "procedure_digest", procedure_digest);
    json_map_insert(&mut result, "admission", json_object(admission));
    answer_to(request, generated_at, Some(workspace), Some(job), result)
}

/// What the preparation of a start found out about its procedure.
#[derive(Clone, Debug, PartialEq, Eq)]
pub struct PreparedStartV2 {
    pub procedure_digest: String,
    pub goal_tracking: bool,
}

/// Whether a preview goes on with what the preparation of its start came to. A start of the first
/// form whose own procedure is not for a graph session is left to others.
pub open spec fn is_prepared_start(
    start: SessionStartV1,
    binds_goal: bool,
    prepared: Result<Option<PreparedStartV2>, ProcedureV2StartPreparationErrorV1>,
    next: Result<Option<PreparedStartV2>, DispatchFailureV1>,
) -> bool {
    match prepared {
        Ok(prepared) => next == Ok::<Option<PreparedStartV2>, DispatchFailureV1>(prepared),
        Err(error) => if !binds_goal && start.source is Procedure && error == (
        ProcedureV2StartPreparationErrorV1::Source(
            ProcedureV2SourceAdmissionErrorV1::NotProcedureV2,
        )) {
            next == Ok::<Option<PreparedStartV2>, DispatchFailureV1>(None)
        } else {
            next matches Err(failure) && failures::is_preparation_failure(error, failure)
        },
    }
}

/// What a preview goes on with, once its start was prepared. There is nothing to go on with where
/// the start is not for a graph session.
pub fn prepared_start(
    start: &SessionStartV1,
    binds_goal: bool,
    prepared: Result<Option<PreparedStartV2>, ProcedureV2StartPreparationErrorV1>,
) -> (next: Result<Option<PreparedStartV2>, DispatchFailureV1>)
    ensures
        is_prepared_start(*start, binds_goal, prepared, next),
{
    let from_workspace = match &start.source {
        SessionStartSourceV1::Procedure { .. } => true,
        SessionStartSourceV1::Preset { .. } => false,
    };
    match prepared {
        Ok(prepared) => Ok(prepared),
        Err(
            ProcedureV2StartPreparationErrorV1::Source(
                ProcedureV2SourceAdmissionErrorV1::NotProcedureV2,
            ),
        ) if !binds_goal && from_workspace => Ok(None),
        Err(error) => Err(map_procedure_v2_start_preparation_error(error)),
    }
}

/// What comes of holding the session that a start expects against the one that is there.
pub open spec fn start_fence(
    expected: GraphStartCurrentTaskV2,
    actual: GraphStartCurrentTaskV2,
) -> Result<(), DispatchFailureV1> {
    match (expected, actual) {
        (GraphStartCurrentTaskV2::Absent, GraphStartCurrentTaskV2::Absent) => Ok(()),
        (GraphStartCurrentTaskV2::Absent, GraphStartCurrentTaskV2::Exact { .. }) => Err(
            dispatch::bare_failure(DispatchFailureKindV1::SessionAlreadyExists),
        ),
        (GraphStartCurrentTaskV2::Exact { session_id, .. }, GraphStartCurrentTaskV2::Absent) => Err(
            failures::session_mismatch(session_id, None),
        ),
        (
            GraphStartCurrentTaskV2::Exact {
                session_id: expected_id,
                session_revision: expected_revision,
            },
            GraphStartCurrentTaskV2::Exact {
                session_id: actual_id,
                session_revision: actual_revision,
            },
        ) => if expected_id@ != actual_id@ {
            Err(failures::session_mismatch(expected_id, Some(actual_id)))
        } else if expected_revision != actual_revision {
            Err(
                failures::revision_conflict(
                    DispatchFailureKindV1::SessionRevisionConflict,
                    Some(expected_revision),
                    Some(actual_revision),
                ),
            )
        } else {
            Ok(())
        },
    }
}

/// Refuses a start where the session that it expects is not the one that is there.
pub fn validate_graph_start_dry_run_fence_v2(
    expected: &GraphStartCurrentTaskV2,
    actual: &GraphStartCurrentTaskV2,
) -> (verdict: Result<(), DispatchFailureV1>)
    ensures
        verdict == start_fence(*expected, *actual),
{
    match (expected, actual) {
        (GraphStartCurrentTaskV2::Absent, GraphStartCurrentTaskV2::Absent) => Ok(()),
        (GraphStartCurrentTaskV2::Absent, GraphStartCurrentTaskV2::Exact { .. }) => Err(
            DispatchFailureV1::new(DispatchFailureKindV1::SessionAlreadyExists),
        ),
        (GraphStartCurrentTaskV2::Exact { session_id, .. }, GraphStartCurrentTaskV2::Absent) => Err(
            session_id_mismatch_failure(session_id.clone(), None),
        ),
        (
            GraphStartCurrentTaskV2::Exact {
                session_id: expected_id,
                session_revision: expected_revision,
            },
            GraphStartCurrentTaskV2::Exact {
                session_id: actual_id,
                session_revision: actual_revision,
            },
        ) => if *expected_id != *actual_id {
            Err(session_id_mismatch_failure(expected_id.clone(), Some(actual_id.clone())))
        } else if *expected_revision != *actual_revision {
            Err(
                DispatchFailureV1::new(
                    DispatchFailureKindV1::SessionRevisionConflict,
                ).with_details(
                    dispatch::DispatchErrorDetailsV1::Revisions {
                        expected: Some(*expected_revision),
                        current: Some(*actual_revision),
                    },
                ),
            )
        } else {
            Ok(())
        },
    }
}

/// What a preview of a start tells. A goal is defined where the start binds one.
pub open spec fn start_preview_members(prepared: PreparedStartV2, binds_goal: bool) -> Members {
    let members = graph_envelope::of_schema("podway.session-start-result/v2"@);
    let members = graph_envelope::with_text(
        members,
        "procedure_schema"@,
        "podway.procedure/v2"@,
    );
    let members = graph_envelope::with_text(
        members,
        "procedure_digest"@,
        prepared.procedure_digest@,
    );
    let members = graph_envelope::with_bool(members, "dry_run"@, true);
    let members = graph_envelope::with_bool(members, "goal_tracking"@, prepared.goal_tracking);
    graph_envelope::with_bool(members, "goal_defined"@, binds_goal)
}

/// Whether a response is the one to a preview of a start. The goal is bound before the session that
/// is there is looked at.
pub open spec fn is_start_preview(
    request: RequestEnvelopeV1,
    generated_at: String,
    prepared: PreparedStartV2,
    binds_goal: bool,
    bound: Result<(), ProcedureV2StartPreparationErrorV1>,
    expected: GraphStartCurrentTaskV2,
    actual: Result<GraphStartCurrentTaskV2, StoreErrorV1>,
    output: Result<OutputEnvelopeInputV2, DispatchFailureV1>,
) -> bool {
    match (bound, actual) {
        (Err(error), _) => output matches Err(failure) && failures::is_preparation_failure(
            error,
            failure,
        ),
        (Ok(()), Err(error)) => output matches Err(failure) && failures::is_store_failure(
            error,
            failure,
        ),
        (Ok(()), Ok(actual)) => match start_fence(expected, actual) {
            Err(cause) => output matches Err(failure) && failure == cause,
            Ok(()) => output matches Ok(output) && answers(request, generated_at, output)
                && output.workspace is None && output.job is None && json::json_members(
                output.result,
            ) == start_preview_members(prepared, binds_goal),
        },
    }
}

/// The response to a preview of a start.
pub fn start_preview_output(
    request: &RequestEnvelopeV1,
    generated_at: String,
    prepared: &PreparedStartV2,
    binds_goal: bool,
    bound: Result<(), ProcedureV2StartPreparationErrorV1>,
    expected: &GraphStartCurrentTaskV2,
    actual: Result<GraphStartCurrentTaskV2, StoreErrorV1>,
) -> (output: Result<OutputEnvelopeInputV2, DispatchFailureV1>)
    ensures
        is_start_preview(
            *request,
            generated_at,
            *prepared,
            binds_goal,
            bound,
            *expected,
            actual,
            output,
        ),
{
    match bound {
        Ok(()) => {},
        Err(error) => {
            return Err(map_procedure_v2_start_preparation_error(error));
        },
    }
    let actual = match actual {
        Ok(actual) => actual,
        Err(error) => {
            return Err(map_store_error(error));
        },
    };
    match validate_graph_start_dry_run_fence_v2(expected, &actual) {
        Ok(()) => {},
        Err(failure) => {
            return Err(failure);
        },
    }
    let mut result = json_map_new();
    put_text(&mut result, "schema", "podway.session-start-result/v2");
    put_text(&mut result, "procedure_schema", "podway.procedure/v2");
    put_text(&mut result, "procedure_digest", &prepared.procedure_digest);
    put_bool(&mut result, "dry_run", true);
    put_bool(&mut result, "goal_tracking", prepared.goal_tracking);
    put_bool(&mut result, "goal_defined", binds_goal);
    Ok(answer_to(request, generated_at, None, None, result))
}

/// What comes of holding the session that a request expects against the one that a view shows.
pub open spec fn view_session_verdict(
    view: GraphWorkspaceViewV2,
    expected_session_id: Option<&String>,
) -> Result<(), DispatchFailureV1> {
    match expected_session_id {
        Some(expected) => if read_service::session_is_expected(
            expected_session_id,
            read_service::shown_session(view),
        ) {
            Ok(())
        } else {
            Err(failures::session_mismatch(*expected, read_service::shown_session(view)))
        },
        None => Ok(()),
    }
}

/// Refuses a request that expects another session than the one that a view shows.
pub fn validate_graph_view_session_v2(
    view: &GraphWorkspaceViewV2,
    expected_session_id: Option<&String>,
) -> (verdict: Result<(), DispatchFailureV1>)
    ensures
        verdict == view_session_verdict(*view, expected_session_id),
{
    let actual = session_of(view);
    match expected_session_id {
        Some(expected) => if is_expected_session(expected_session_id, &actual) {
            Ok(())
        } else {
            Err(session_id_mismatch_failure(expected.clone(), actual))
        },
        None => Ok(()),
    }
}

/// The workspace that a view shows, at the root where its worktree is.
pub open spec fn workspace_of(view: GraphWorkspaceViewV2, worktree_root: String)
    -> WorkspaceOutputV1 {
    WorkspaceOutputV1 {
        uuid: view.identity.workspace_uuid,
        root: worktree_root,
        latest_workspace_sequence: view.latest_workspace_sequence,
    }
}

/// What a preview of a reset tells.
pub open spec fn reset_preview_members(revision: u64) -> Members {
    let members = graph_envelope::of_schema("podway.stage-transition-result/v2"@);
    let members = members.insert(
        "admission"@,
        json::JsonTreeV1::Record(
            graph_envelope::with_bool(json::no_members(), "admitted"@, false),
        ),
    );
    let members = graph_envelope::with_text(members, "transition"@, "reset"@);
    let members = graph_envelope::with_bool(members, "reset"@, true);
    graph_envelope::with_unsigned(members, "revision"@, revision)
}

/// Whether a response is the one to a preview of a reset, or there is none because the workspace
/// holds no graph session.
pub open spec fn is_reset_preview(
    request: RequestEnvelopeV1,
    generated_at: String,
    input: SessionResetV1,
    read: Result<GraphWorkspaceViewV2, StoreErrorV1>,
    worktree_root: String,
    output: Result<Option<OutputEnvelopeInputV2>, DispatchFailureV1>,
) -> bool {
    match read {
        Err(error) => output matches Err(failure) && failures::is_store_failure(error, failure),
        Ok(view) => match view.graph_state {
            None => output == Ok::<Option<OutputEnvelopeInputV2>, DispatchFailureV1>(None),
            Some(state) => match view_session_verdict(
                view,
                Some(&input.preconditions.expected_session_id),
            ) {
                Err(cause) => output matches Err(failure) && failure == cause,
                Ok(()) => if state.revision != input.preconditions.expected_session_revision {
                    output matches Err(failure) && failure == failures::revision_conflict(
                        DispatchFailureKindV1::SessionRevisionConflict,
                        Some(input.preconditions.expected_session_revision),
                        Some(state.revision),
                    )
                } else {
                    output matches Ok(Some(output)) && answers(request, generated_at, output)
                        && output.workspace == Some(workspace_of(view, worktree_root))
                        && output.job is None && json::json_members(output.result)
                        == reset_preview_members(state.revision)
                },
            },
        },
    }
}

/// The response to a preview of a reset.
pub fn reset_preview_output(
    request: &RequestEnvelopeV1,
    generated_at: String,
    input: &SessionResetV1,
    read: Result<GraphWorkspaceViewV2, StoreErrorV1>,
    worktree_root: String,
) -> (output: Result<Option<OutputEnvelopeInputV2>, DispatchFailureV1>)
    ensures
        is_reset_preview(*request, generated_at, *input, read, worktree_root, output),
{
    let view = match read {
        Ok(view) => view,
        Err(error) => {
            return Err(map_store_error(error));
        },
    };
    let revision: u64 = match &view.graph_state {
        Some(state) => state.revision,
        None => {
            return Ok(None);
        },
    };
    match validate_graph_view_session_v2(&view, Some(&input.preconditions.expected_session_id)) {
        Ok(()) => {},
        Err(failure) => {
            return Err(failure);
        },
    }
    if revision != input.preconditions.expected_session_revision {
        return Err(
            DispatchFailureV1::new(DispatchFailureKindV1::SessionRevisionConflict).with_details(
                dispatch::DispatchErrorDetailsV1::Revisions {
                    expected: Some(input.preconditions.expected_session_revision),
                    current: Some(revision),
                },
            ),
        );
    }
    let mut admission = json_map_new();
    put_bool(&mut admission, "admitted", false);
    let mut result = json_map_new();
    put_text(&mut result, "schema", "podway.stage-transition-result/v2");
    json_map_insert(&mut result, "admission", json_object(admission));
    put_text(&mut result, "transition", "reset");
    put_bool(&mut result, "reset", true);
    put_unsigned(&mut result, "revision", revision);
    let workspace = WorkspaceOutputV1 {
        uuid: view.identity.workspace_uuid.clone(),
        root: worktree_root,
        latest_workspace_sequence: view.latest_workspace_sequence,
    };
    Ok(Some(answer_to(request, generated_at, Some(workspace), None, result)))
}

/// What a read of a session that is not active does next.
#[derive(Clone, Debug, PartialEq, Eq)]
pub enum GraphReadStepV2 {
    /// The workspace holds no graph session.
    NotHandled,
    /// The view answers the read.
    Ready(GraphWorkspaceViewV2),
    /// The read looks again after the given time.
    Sleep { millis: u64 },
}

/// Whether what a read waits for is there, or cannot come.
pub open spec fn read_is_answered(
    wait: ReadWaitV1,
    view: GraphWorkspaceViewV2,
    job_state: Option<StoreJobStateV1>,
) -> Result<bool, DispatchFailureV1> {
    match wait {
        ReadWaitV1::Immediate => Ok(true),
        ReadWaitV1::IdleUntil(_) => Ok(read_service::is_idle(view)),
        ReadWaitV1::AfterJobUntil { .. } => match job_state {
            Some(state) => Ok(store::is_terminal_state(state)),
            None => Err(dispatch::bare_failure(DispatchFailureKindV1::JobNotFound)),
        },
    }
}

/// When a read stops waiting at the latest.
pub open spec fn wait_ends(wait: ReadWaitV1) -> u64 {
    match wait {
        ReadWaitV1::Immediate => 0,
        ReadWaitV1::IdleUntil(deadline) => deadline.at(),
        ReadWaitV1::AfterJobUntil { deadline, .. } => deadline.at(),
    }
}

/// What a read of a session that is not active does next, given what the Store shows of the session
/// and of the job that the read waits for.
pub open spec fn is_read_step(
    wait: ReadWaitV1,
    expected_session_id: Option<&String>,
    inspected: Result<(GraphWorkspaceViewV2, Option<StoreJobStateV1>), StoreErrorV1>,
    now_millis: u64,
    step: Result<GraphReadStepV2, DispatchFailureV1>,
) -> bool {
    match inspected {
        Err(error) => step matches Err(failure) && failures::is_store_failure(error, failure),
        Ok((view, job_state)) => if view.graph_state is None {
            step == Ok::<GraphReadStepV2, DispatchFailureV1>(GraphReadStepV2::NotHandled)
        } else {
            match view_session_verdict(view, expected_session_id) {
                Err(cause) => step matches Err(failure) && failure == cause,
                Ok(()) => match read_is_answered(wait, view, job_state) {
                    Err(cause) => step matches Err(failure) && failure == cause,
                    Ok(true) => step == Ok::<GraphReadStepV2, DispatchFailureV1>(
                        GraphReadStepV2::Ready(view),
                    ),
                    Ok(false) => if now_millis >= wait_ends(wait) {
                        step matches Err(failure) && failure == dispatch::bare_failure(
                            DispatchFailureKindV1::JobWaitTimeout,
                        )
                    } else {
                        step == Ok::<GraphReadStepV2, DispatchFailureV1>(
                            GraphReadStepV2::Sleep {
                                millis: if wait_ends(wait) - now_millis < READ_POLL_MILLIS_V2 {
                                    (wait_ends(wait) - now_millis) as u64
                                } else {
                                    READ_POLL_MILLIS_V2
                                },
                            },
                        )
                    },
                },
            }
        },
    }
}

/// What a read of a session that is not active does next.
pub fn graph_read_step(
    wait: &ReadWaitV1,
    expected_session_id: Option<&String>,
    inspected: Result<(GraphWorkspaceViewV2, Option<StoreJobStateV1>), StoreErrorV1>,
    now_millis: u64,
) -> (step: Result<GraphReadStepV2, DispatchFailureV1>)
    ensures
        is_read_step(*wait, expected_session_id, inspected, now_millis, step),
{
    let (view, job_state) = match inspected {
        Ok((view, job_state)) => (view, job_state),
        Err(error) => {
            return Err(map_store_error(error));
        },
    };
    if view.graph_state.is_none() {
        return Ok(GraphReadStepV2::NotHandled);
    }
    match validate_graph_view_session_v2(&view, expected_session_id) {
        Ok(()) => {},
        Err(failure) => {
            return Err(failure);
        },
    }
    let deadline: MonotonicDeadlineV1 = match wait {
        ReadWaitV1::Immediate => {
            return Ok(GraphReadStepV2::Ready(view));
        },
        ReadWaitV1::IdleUntil(deadline) => {
            if view.queued_job_count == 0 && view.running_job_id.is_none() {
                return Ok(GraphReadStepV2::Ready(view));
            }
            *deadline
        },
        ReadWaitV1::AfterJobUntil { deadline, .. } => {
            match job_state {
                Some(state) => {
                    if is_terminal_job(state) {
                        return Ok(GraphReadStepV2::Ready(view));
                    }
                },
                None => {
                    return Err(DispatchFailureV1::new(DispatchFailureKindV1::JobNotFound));
                },
            }
            *deadline
        },
    };
    if now_millis >= deadline.millis() {
        return Err(DispatchFailureV1::new(DispatchFailureKindV1::JobWaitTimeout));
    }
    let left: u64 = deadline.millis() - now_millis;
    let millis: u64 = if left < READ_POLL_MILLIS_V2 {
        left
    } else {
        READ_POLL_MILLIS_V2
    };
    Ok(GraphReadStepV2::Sleep { millis })
}

/// What a read of an active session found: the view that answers it, or nothing where the workspace
/// holds no graph session.
pub fn active_graph_view(read: Result<GraphWorkspaceViewV2, ReadServiceErrorV1>) -> (found: Result<
    Option<GraphWorkspaceViewV2>,
    DispatchFailureV1,
>)
    ensures
        match read {
            Err(error) => found matches Err(failure) && failures::is_read_failure(error, failure),
            Ok(view) => found == Ok::<Option<GraphWorkspaceViewV2>, DispatchFailureV1>(
                if view.graph_state is Some {
                    Some(view)
                } else {
                    None
                },
            ),
        },
{
    match read {
        Ok(view) => if view.graph_state.is_some() {
            Ok(Some(view))
        } else {
            Ok(None)
        },
        Err(error) => Err(map_read_error(error)),
    }
}

/// How much a status tells.
#[derive(Clone, Copy, Debug, PartialEq, Eq, Structural)]
pub enum GraphStatusTierV2 {
    Compact,
    Standard,
    Verbose,
}

/// How much a status tells. A request for a compact one wins.
pub fn status_tier(input: &SessionStatusV1) -> (tier: GraphStatusTierV2)
    ensures
        tier == if input.compact {
            GraphStatusTierV2::Compact
        } else if input.verbose {
            GraphStatusTierV2::Verbose
        } else {
            GraphStatusTierV2::Standard
        },
{
    if input.compact {
        GraphStatusTierV2::Compact
    } else if input.verbose {
        GraphStatusTierV2::Verbose
    } else {
        GraphStatusTierV2::Standard
    }
}

/// The response to a read of a session, given what was made of the view that answers it.
pub fn graph_read_output(
    request: &RequestEnvelopeV1,
    generated_at: String,
    view: &GraphWorkspaceViewV2,
    worktree_root: String,
    projected: Result<serde_json::Map<String, serde_json::Value>, GraphViewErrorV2>,
) -> (output: Result<OutputEnvelopeInputV2, DispatchFailureV1>)
    ensures
        match projected {
            Err(error) => output matches Err(failure) && failure == dispatch::bare_failure(
                failures::graph_view_failure_kind(error),
            ),
            Ok(result) => output matches Ok(output) && answers(*request, generated_at, output)
                && output.workspace == Some(workspace_of(*view, worktree_root))
                && output.job is None && output.result == result,
        },
{
    match projected {
        Ok(result) => {
            let workspace = WorkspaceOutputV1 {
                uuid: view.identity.workspace_uuid.clone(),
                root: worktree_root,
                latest_workspace_sequence: view.latest_workspace_sequence,
            };
            Ok(answer_to(request, generated_at, Some(workspace), None, result))
        },
        Err(error) => Err(map_graph_view_error_v2(error)),
    }
}

/// A read that waits never sleeps past the end of its wait, and stops waiting when that has come:
/// whatever the Store shows, a read that looks again only once its wait has ended does not sleep.
pub proof fn a_read_does_not_outlast_its_wait(
    wait: ReadWaitV1,
    expected_session_id: Option<&String>,
    inspected: Result<(GraphWorkspaceViewV2, Option<StoreJobStateV1>), StoreErrorV1>,
    now_millis: u64,
    step: Result<GraphReadStepV2, DispatchFailureV1>,
)
    requires
        is_read_step(wait, expected_session_id, inspected, now_millis, step),
    ensures
        step matches Ok(GraphReadStepV2::Sleep { millis }) ==> 0 < millis <= READ_POLL_MILLIS_V2
            && now_millis + millis <= wait_ends(wait),
        now_millis >= wait_ends(wait) ==> !(step matches Ok(GraphReadStepV2::Sleep { .. })),
{
}

} // verus!
