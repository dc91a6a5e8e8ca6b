//! Which way the requests for graph sessions go, and what they are answered with.

use crate::civil_time;
use crate::dispatch::{
    DispatchErrorDetailsV1, DispatchFailureKindV1, DispatchFailureV1, JobOutputV1,
    WorkspaceOutputV1,
};
use crate::execution::{ProcedureV2SourceAdmissionErrorV1, ProcedureV2StartPreparationErrorV1};
use crate::json;
use crate::json::JsonTreeV1;
use crate::production::answers::{has_dates, is_bare, shows_view};
use crate::production::development_v2::{
    active_graph_view, admitted_job, admitted_start, detached_output, development_v2_route,
    graph_read_output, graph_read_step, prepared_start, reset_preview_output, start_preview_output,
    submission_answer, submission_request, validate_graph_start_dry_run_fence_v2,
    validate_graph_view_session_v2, DaemonRequestV1, DevelopmentRouteV2, GraphReadStepV2,
    GraphStartCurrentTaskV2, PreparedStartV2, RequestEnvelopeV1, SubmissionAnswerV2,
    SubmissionRequestV2,
};
use crate::production::failures::{GraphViewErrorV2, TerminalCommandKindV1};
use crate::production::graph_envelope::OutputEnvelopeInputV2;
use crate::production::sealed_results::{
    tells_bool, tells_number, tells_optional, tells_text, LAST_MILLISECOND,
};
use crate::production::terminal::FrozenEnvelopeEvidenceV1;
use crate::protocol::{SessionResetV1, SessionStartV1, SliceCommandV1};
use crate::read_service::{GraphWorkspaceViewV2, ReadServiceErrorV1, ReadWaitV1};
use crate::store::{
    AdmitOutcomeV1, JobReceiptOrTerminalV1, JobViewV1, StoreErrorV1, StoreJobStateV1,
};
use crate::worker::{WorkerCompletionModeV1, WorkerErrorV1, WorkerSubmissionV1, WorkerWaitResultV1};
use vstd::prelude::*;

verus! {

proof fn typed_commands_differ()
    ensures
        "session.decide"@.len() == 14,
        "session.rework"@.len() == 14,
        "goal.define"@.len() == 11,
        "goal.revise"@.len() == 11,
        "goal.assess_criterion"@.len() == 21,
        "session.decide"@ != "session.rework"@,
        "goal.define"@ != "goal.revise"@,
{
    reveal_strlit("session.decide");
    reveal_strlit("session.rework");
    reveal_strlit("goal.define");
    reveal_strlit("goal.revise");
    reveal_strlit("goal.assess_criterion");
    assert("session.decide"@[8] != "session.rework"@[8]);
    assert("goal.define"@[5] != "goal.revise"@[5]);
}

/// A change in its own form is submitted as what its name says, and no other name is served.
pub proof fn a_typed_change_is_submitted_as_what_it_is(
    command_name: String,
    request: DaemonRequestV1,
    route: DevelopmentRouteV2,
)
    requires
        request == (DaemonRequestV1::ProcedureV2Mutation { command_name }),
        call_ensures(development_v2_route, (&request,), route),
    ensures
        route is Submit || route is NotHandled,
        route is Submit <==> command_name@ == "session.decide"@ || command_name@
            == "session.rework"@ || command_name@ == "goal.define"@ || command_name@
            == "goal.revise"@ || command_name@ == "goal.assess_criterion"@,
        route matches DevelopmentRouteV2::Submit { submission, terminal_kind, changes_item } ==> {
            &&& submission is TypedMutation
            &&& !changes_item
            &&& terminal_kind is Decision <==> command_name@ == "session.decide"@
            &&& terminal_kind is Rework <==> command_name@ == "session.rework"@
            &&& terminal_kind is GoalDefinition <==> command_name@ == "goal.define"@
            &&& terminal_kind is GoalRevision <==> command_name@ == "goal.revise"@
            &&& terminal_kind is CriterionAssessment <==> command_name@ == "goal.assess_criterion"@
        },
{
    typed_commands_differ();
}

/// A start in its own form is submitted if it is to change anything, and otherwise previewed if it binds
/// a goal. It expects the session that it replaces, or none.
pub proof fn a_typed_start_is_submitted_or_previewed(
    request: DaemonRequestV1,
    route: DevelopmentRouteV2,
)
    requires
        call_ensures(development_v2_route, (&request,), route),
    ensures
        request matches DaemonRequestV1::ProcedureV2Start(typed) ==> {
            &&& typed.is_mutation <==> (route matches DevelopmentRouteV2::Submit {
                submission,
                terminal_kind,
                changes_item,
            } && submission is TypedStart && terminal_kind is Start && !changes_item)
            &&& !typed.is_mutation && typed.has_initial_goal <==> route is PreviewStart
            &&& !typed.is_mutation && !typed.has_initial_goal <==> route is NotHandled
            &&& route matches DevelopmentRouteV2::PreviewStart {
                start,
                binds_goal,
                expected_current,
            } ==> *start == typed.start && binds_goal && (match typed.replaces {
                Some(replaced) => expected_current matches GraphStartCurrentTaskV2::Exact {
                    session_id,
                    session_revision,
                } && session_id == replaced.expected_session_id && session_revision
                    == replaced.expected_session_revision,
                None => expected_current is Absent,
            })
        },
        request is Other ==> route is NotHandled,
{
}

/// A command in the first form is submitted if it changes the session, previewed if it only asks what a
/// start or a reset would do, and read if it asks for the session. No other is served.
pub proof fn a_command_goes_its_own_way(
    command: SliceCommandV1,
    request: DaemonRequestV1,
    route: DevelopmentRouteV2,
)
    requires
        request == DaemonRequestV1::Slice(command),
        call_ensures(development_v2_route, (&request,), route),
    ensures
        route is ReadSession <==> command is SessionStatus || command is SessionNext,
        command matches SliceCommandV1::SessionStatus(input) ==> (route matches
            DevelopmentRouteV2::ReadSession { wait, expected_session_id } && *wait == input.wait && (
        expected_session_id is Some <==> input.expected_session_id is Some) && (
        expected_session_id matches Some(expected) ==> input.expected_session_id == Some(
            *expected,
        ))),
        command matches SliceCommandV1::SessionNext(input) ==> (route matches
            DevelopmentRouteV2::ReadSession { wait, expected_session_id } && *wait == input.wait && (
        expected_session_id is Some <==> input.expected_session_id is Some) && (
        expected_session_id matches Some(expected) ==> input.expected_session_id == Some(
            *expected,
        ))),
        route is PreviewReset <==> (command matches SliceCommandV1::SessionReset(input)
            && input.dry_run),
        route matches DevelopmentRouteV2::PreviewReset(input) ==> command
            == SliceCommandV1::SessionReset(*input),
        route is PreviewStart <==> (command matches SliceCommandV1::SessionStart(start)
            && start.dry_run) || (command matches SliceCommandV1::SessionStartReplace { start, .. }
            && start.dry_run),
        command matches SliceCommandV1::SessionStart(start) ==> (route matches
            DevelopmentRouteV2::PreviewStart { start: previewed, binds_goal, expected_current }
            ==> *previewed == start && !binds_goal && expected_current is Absent),
        command matches SliceCommandV1::SessionStartReplace { start, preconditions } ==> (
        route matches DevelopmentRouteV2::PreviewStart {
            start: previewed,
            binds_goal,
            expected_current,
        } ==> *previewed == start && !binds_goal && (expected_current matches
            GraphStartCurrentTaskV2::Exact { session_id, session_revision } && session_id
            == preconditions.expected_session_id && session_revision
            == preconditions.expected_session_revision)),
        route matches DevelopmentRouteV2::Submit { submission, terminal_kind, changes_item } ==> {
            &&& submission is Start <==> command is SessionStart || command is SessionStartReplace
            &&& submission is Start || submission is Mutation
            &&& terminal_kind is Start <==> submission is Start
            &&& terminal_kind is SessionReset <==> command is SessionReset
            &&& terminal_kind is Skip <==> command is SessionSkip
            &&& changes_item <==> terminal_kind is ItemMutation
            &&& changes_item <==> command is ItemCheck || command is ItemUncheck
                || command is ItemSet || command is ItemAdd || command is ItemRemove
                || command is ItemAttach || command is ItemClear
        },
        route is Submit <==> command is SessionComplete || command is SessionSkip
            || command is SessionRetry || command is SessionBlock || command is SessionUnblock
            || command is SessionCancel || command is ItemCheck || command is ItemUncheck
            || command is ItemSet || command is ItemAdd || command is ItemRemove
            || command is ItemAttach || command is ItemClear || (command matches
            SliceCommandV1::SessionReset(input) && !input.dry_run) || (command matches
            SliceCommandV1::SessionStart(start) && !start.dry_run) || (command matches
            SliceCommandV1::SessionStartReplace { start, .. } && !start.dry_run),
{
}

/// A job is submitted under the key of its request, to answer that request in its workspace, and waited
/// for until its time is up unless the request detaches from it. Without a key, or with a wait beyond
/// the range of the clock, it is not submitted.
pub proof fn a_job_is_submitted_as_its_request_asks(
    request: RequestEnvelopeV1,
    workspace: WorkspaceOutputV1,
    now_millis: u64,
    submission: Result<SubmissionRequestV2, DispatchFailureV1>,
)
    requires
        call_ensures(submission_request, (&request, &workspace, now_millis), submission),
    ensures
        submission is Ok <==> request.idempotency_key is Some && (request.detach || now_millis
            + request.wait_timeout_ms <= u64::MAX),
        submission matches Ok(submission) ==> {
            &&& request.idempotency_key == Some(submission.idempotency_key)
            &&& submission.response_context.request_id == request.request_id
            &&& submission.response_context.command == request.command
            &&& submission.response_context.workspace_uuid == workspace.uuid
            &&& submission.response_context.workspace_root == workspace.root
            &&& submission.response_context.workspace_sequence
                == workspace.latest_workspace_sequence
            &&& submission.completion is Detached <==> request.detach
            &&& submission.completion matches WorkerCompletionModeV1::WaitUntil(deadline)
                ==> deadline.at() == now_millis + request.wait_timeout_ms
        },
        submission matches Err(failure) ==> is_bare(
            failure,
            if request.idempotency_key is None {
                DispatchFailureKindV1::RequestInvalid
            } else {
                DispatchFailureKindV1::Internal
            },
        ),
{
}

/// A submitted job that has ended is answered with the response to it, one that was waited for in vain
/// with the job as it stands, and one that was not waited for is read. What the worker does not take is
/// left to others.
pub proof fn a_submission_is_answered_by_how_it_went(
    terminal_kind: TerminalCommandKindV1,
    changes_item: bool,
    submission: Result<Option<WorkerSubmissionV1>, WorkerErrorV1>,
    evidence: FrozenEnvelopeEvidenceV1,
    answer: Result<SubmissionAnswerV2, DispatchFailureV1>,
)
    requires
        call_ensures(
            submission_answer,
            (terminal_kind, changes_item, submission, evidence),
            answer,
        ),
    ensures
        answer == Ok::<SubmissionAnswerV2, DispatchFailureV1>(SubmissionAnswerV2::NotHandled)
            <==> submission == Ok::<Option<WorkerSubmissionV1>, WorkerErrorV1>(None),
        submission is Err ==> answer is Err,
        answer == Ok::<SubmissionAnswerV2, DispatchFailureV1>(SubmissionAnswerV2::ReadAdmittedJob)
            <==> (submission matches Ok(Some(submission)) && submission.completion is None && !(
        submission.admission matches AdmitOutcomeV1::Existing(
            JobReceiptOrTerminalV1::TerminalReceipt(_),
        ))),
        answer matches Ok(SubmissionAnswerV2::Replay(_)) ==> (submission matches Ok(Some(submission))
            && ((submission.admission matches AdmitOutcomeV1::Existing(
            JobReceiptOrTerminalV1::TerminalReceipt(_),
        )) || (submission.completion matches Some(WorkerWaitResultV1::Terminal(_))))),
        submission matches Ok(Some(submission)) ==> (submission.completion matches Some(
            WorkerWaitResultV1::TimedOut(view),
        ) ==> (!(submission.admission matches AdmitOutcomeV1::Existing(
            JobReceiptOrTerminalV1::TerminalReceipt(_),
        )) ==> (answer matches Err(failure) && failure.admission is None && (if has_dates(view) {
            failure.kind is JobWaitTimeout && failure.details is Absent && (
            failure.job matches Some(job) && shows_view(view, job))
        } else {
            is_bare(failure, DispatchFailureKindV1::Internal)
        })))),
{
    instants_have_timestamps();
}

proof fn instants_have_timestamps()
    ensures
        forall|millis: u64| #[trigger]
            civil_time::has_timestamp(millis as nat) <==> millis <= LAST_MILLISECOND,
{
    assert forall|millis: u64| #[trigger]
        civil_time::has_timestamp(millis as nat) <==> millis <= LAST_MILLISECOND by {
        civil_time::an_instant_has_a_timestamp_until_the_year_ten_thousand(millis as nat);
    }
}

/// An admitted job is shown as it was read, exactly if it was found and its instants can be dated.
pub proof fn an_admitted_job_is_shown_as_it_was_read(
    read: Result<Option<JobViewV1>, StoreErrorV1>,
    job: Result<JobOutputV1, DispatchFailureV1>,
)
    requires
        call_ensures(admitted_job, (read,), job),
    ensures
        job is Ok <==> (read matches Ok(Some(view)) && has_dates(view)),
        job matches Ok(job) ==> (read matches Ok(Some(view)) && shows_view(view, job)),
        read == Ok::<Option<JobViewV1>, StoreErrorV1>(None) ==> (job matches Err(failure)
            && is_bare(failure, DispatchFailureKindV1::JobNotFound)),
{
    instants_have_timestamps();
}

/// The admitted job of a start is shown with the digest of its procedure, exactly if both were read and
/// the digest was told both times.
pub proof fn an_admitted_start_tells_its_procedure(
    first: Result<Option<JobViewV1>, StoreErrorV1>,
    digest_is_told: bool,
    second: Result<Option<JobViewV1>, StoreErrorV1>,
    procedure_digest: Option<String>,
    started: Result<(JobOutputV1, String), DispatchFailureV1>,
)
    requires
        call_ensures(admitted_start, (first, digest_is_told, second, procedure_digest), started),
    ensures
        started is Ok <==> digest_is_told && (first matches Ok(Some(view)) && has_dates(view)) && (
        second matches Ok(Some(_))) && procedure_digest is Some,
        started matches Ok(started) ==> (first matches Ok(Some(view)) && shows_view(view, started.0))
            && procedure_digest == Some(started.1),
{
    instants_have_timestamps();
}

/// A request that detached from its job is answered with the job that was admitted and, for a start, the
/// procedure.
pub proof fn a_detached_request_tells_its_job(
    request: RequestEnvelopeV1,
    generated_at: String,
    workspace: WorkspaceOutputV1,
    job: JobOutputV1,
    procedure_digest: Option<String>,
    output: OutputEnvelopeInputV2,
)
    requires
        call_ensures(
            detached_output,
            (&request, generated_at, workspace, job, &procedure_digest),
            output,
        ),
    ensures
        is_answer_to(request, generated_at, output),
        output.workspace == Some(workspace),
        output.job == Some(job),
        ({
            let members = json::json_members(output.result);
            &&& tells_text(members, "schema"@, "podway.detached-admission-result/v2"@)
            &&& tells_bool(members, "detached"@, true)
            &&& tells_optional(members, "procedure_digest"@, procedure_digest)
            &&& json::member(members, "admission"@) matches Some(JsonTreeV1::Record(admission)) && {
                &&& tells_bool(admission, "admitted"@, true)
                &&& tells_text(admission, "job_id"@, job.id@)
                &&& tells_number(admission, "workspace_sequence"@, job.sequence)
            }
        }),
{
    reveal_strlit("schema");
    reveal_strlit("detached");
    reveal_strlit("procedure_digest");
    reveal_strlit("admission");
    reveal_strlit("admitted");
    reveal_strlit("job_id");
    reveal_strlit("workspace_sequence");
    assert("schema"@.len() == 6 && "detached"@.len() == 8 && "procedure_digest"@.len() == 16
        && "admission"@.len() == 9 && "admitted"@.len() == 8 && "job_id"@.len() == 6
        && "workspace_sequence"@.len() == 18);
}

/// Whether a response answers a request at an instant, with no session beside its result.
pub open spec fn is_answer_to(
    request: RequestEnvelopeV1,
    generated_at: String,
    output: OutputEnvelopeInputV2,
) -> bool {
    &&& output.request_id == request.request_id
    &&& output.command == request.command
    &&& output.generated_at == generated_at
    &&& output.session is None
}

/// A preview goes on with what the preparation of its start found. A start in the first form whose own
/// procedure is not for a graph session is left to others; anything else that stood against it is told.
pub proof fn a_preview_goes_on_with_what_was_prepared(
    start: SessionStartV1,
    binds_goal: bool,
    prepared: Result<Option<PreparedStartV2>, ProcedureV2StartPreparationErrorV1>,
    next: Result<Option<PreparedStartV2>, DispatchFailureV1>,
)
    requires
        call_ensures(prepared_start, (&start, binds_goal, prepared), next),
    ensures
        prepared matches Ok(prepared) ==> next == Ok::<Option<PreparedStartV2>, DispatchFailureV1>(
            prepared,
        ),
        prepared matches Err(error) ==> (next is Ok <==> !binds_goal && start.source is Procedure
            && error == ProcedureV2StartPreparationErrorV1::Source(
            ProcedureV2SourceAdmissionErrorV1::NotProcedureV2,
        )),
        prepared matches Err(_) ==> (next matches Ok(next) ==> next is None),
{
}

/// A start is let through exactly if the session that is there is the one that it expects: none, or the
/// same at the same revision.
pub proof fn a_start_finds_the_session_it_expects(
    expected: GraphStartCurrentTaskV2,
    actual: GraphStartCurrentTaskV2,
    verdict: Result<(), DispatchFailureV1>,
)
    requires
        call_ensures(validate_graph_start_dry_run_fence_v2, (&expected, &actual), verdict),
    ensures
        verdict is Ok <==> (expected is Absent && actual is Absent) || (expected matches
            GraphStartCurrentTaskV2::Exact { session_id, session_revision } && (actual matches
            GraphStartCurrentTaskV2::Exact { session_id: found, session_revision: at }
            && session_id@ == found@ && session_revision == at)),
        verdict matches Err(failure) ==> {
            &&& failure.admission is None && failure.job is None
            &&& failure.kind is SessionAlreadyExists <==> expected is Absent
            &&& failure.kind is SessionIdMismatch <==> (expected matches
                GraphStartCurrentTaskV2::Exact { session_id, .. } && (actual matches
                GraphStartCurrentTaskV2::Exact { session_id: found, .. } ==> session_id@ != found@))
            &&& failure.kind is SessionRevisionConflict <==> (expected matches
                GraphStartCurrentTaskV2::Exact { session_id, .. } && (actual matches
                GraphStartCurrentTaskV2::Exact { session_id: found, .. } && session_id@ == found@))
        },
{
}

/// A preview of a start is answered exactly if its goal could be bound, the session that is there could be
/// read and is the one that it expects. It tells the procedure and the goal, and admits nothing.
pub proof fn a_previewed_start_tells_its_procedure(
    request: RequestEnvelopeV1,
    generated_at: String,
    prepared: PreparedStartV2,
    binds_goal: bool,
    bound: Result<(), ProcedureV2StartPreparationErrorV1>,
    expected: GraphStartCurrentTaskV2,
    actual: Result<GraphStartCurrentTaskV2, StoreErrorV1>,
    output: Result<OutputEnvelopeInputV2, DispatchFailureV1>,
)
    requires
        call_ensures(
            start_preview_output,
            (&request, generated_at, &prepared, binds_goal, bound, &expected, actual),
            output,
        ),
    ensures
        output is Ok <==> bound is Ok && (actual matches Ok(actual) && ((expected is Absent
            && actual is Absent) || (expected matches GraphStartCurrentTaskV2::Exact {
            session_id,
            session_revision,
        } && (actual matches GraphStartCurrentTaskV2::Exact {
            session_id: found,
            session_revision: at,
        } && session_id@ == found@ && session_revision == at)))),
        output matches Ok(output) ==> ({
            let members = json::json_members(output.result);
            &&& is_answer_to(request, generated_at, output)
            &&& output.workspace is None && output.job is None
            &&& tells_text(members, "schema"@, "podway.session-start-result/v2"@)
            &&& tells_text(members, "procedure_schema"@, "podway.procedure/v2"@)
            &&& tells_text(members, "procedure_digest"@, prepared.procedure_digest@)
            &&& tells_bool(members, "dry_run"@, true)
            &&& tells_bool(members, "goal_tracking"@, prepared.goal_tracking)
            &&& tells_bool(members, "goal_defined"@, binds_goal)
        }),
{
    reveal_strlit("schema");
    reveal_strlit("procedure_schema");
    reveal_strlit("procedure_digest");
    reveal_strlit("dry_run");
    reveal_strlit("goal_tracking");
    reveal_strlit("goal_defined");
    assert("schema"@.len() == 6 && "procedure_schema"@.len() == 16 && "procedure_digest"@.len()
        == 16 && "dry_run"@.len() == 7 && "goal_tracking"@.len() == 13 && "goal_defined"@.len()
        == 12);
    assert("procedure_schema"@[10] != "procedure_digest"@[10]);
}

/// Whether a view shows the session of the given id.
pub open spec fn shows_the_session(view: GraphWorkspaceViewV2, session_id: Seq<char>) -> bool {
    view.graph_state matches Some(state) && state.session_id@ == session_id
}

/// A view is refused exactly if another session than the shown one, or none, is expected.
pub proof fn only_the_expected_session_is_shown(
    view: GraphWorkspaceViewV2,
    expected_session_id: Option<&String>,
    verdict: Result<(), DispatchFailureV1>,
)
    requires
        call_ensures(validate_graph_view_session_v2, (&view, expected_session_id), verdict),
    ensures
        verdict is Ok <==> (expected_session_id matches Some(expected) ==> shows_the_session(
            view,
            expected@,
        )),
        verdict matches Err(failure) ==> failure.kind is SessionIdMismatch && failure.admission
            is None && failure.job is None,
{
}

/// A preview of a reset is answered exactly if the workspace can be read and either holds no graph session,
/// which is left to others, or holds the expected one at the expected revision. It admits nothing.
pub proof fn a_previewed_reset_tells_its_revision(
    request: RequestEnvelopeV1,
    generated_at: String,
    input: SessionResetV1,
    read: Result<GraphWorkspaceViewV2, StoreErrorV1>,
    worktree_root: String,
    output: Result<Option<OutputEnvelopeInputV2>, DispatchFailureV1>,
)
    requires
        call_ensures(
            reset_preview_output,
            (&request, generated_at, &input, read, worktree_root),
            output,
        ),
    ensures
        output == Ok::<Option<OutputEnvelopeInputV2>, DispatchFailureV1>(None) <==> (
        read matches Ok(view) && view.graph_state is None),
        output matches Ok(Some(_)) <==> (read matches Ok(view) && (
        view.graph_state matches Some(state) && state.session_id@
            == input.preconditions.expected_session_id@ && state.revision
            == input.preconditions.expected_session_revision)),
        output matches Ok(Some(output)) ==> (read matches Ok(view) && {
            let members = json::json_members(output.result);
            &&& is_answer_to(request, generated_at, output)
            &&& output.job is None
            &&& output.workspace matches Some(workspace) && workspace.uuid
                == view.identity.workspace_uuid && workspace.root == worktree_root
                && workspace.latest_workspace_sequence == view.latest_workspace_sequence
            &&& tells_text(members, "schema"@, "podway.stage-transition-result/v2"@)
            &&& tells_text(members, "transition"@, "reset"@)
            &&& tells_bool(members, "reset"@, true)
            &&& tells_number(members, "revision"@, input.preconditions.expected_session_revision)
            &&& json::member(members, "admission"@) matches Some(JsonTreeV1::Record(admission))
                && tells_bool(admission, "admitted"@, false)
        }),
        read matches Ok(view) ==> (view.graph_state matches Some(state) ==> (state.session_id@
            == input.preconditions.expected_session_id@ && state.revision
            != input.preconditions.expected_session_revision ==> (output matches Err(failure)
            && failure.kind is SessionRevisionConflict && failure.details == (
        DispatchErrorDetailsV1::Revisions {
            expected: Some(input.preconditions.expected_session_revision),
            current: Some(state.revision),
        })))),
{
    reveal_strlit("schema");
    reveal_strlit("admission");
    reveal_strlit("transition");
    reveal_strlit("reset");
    reveal_strlit("revision");
    assert("schema"@.len() == 6 && "admission"@.len() == 9 && "transition"@.len() == 10
        && "reset"@.len() == 5 && "revision"@.len() == 8);
}

/// Whether what a read waits for has come.
pub open spec fn has_come(
    wait: ReadWaitV1,
    view: GraphWorkspaceViewV2,
    job_state: Option<StoreJobStateV1>,
) -> bool {
    match wait {
        ReadWaitV1::Immediate => true,
        ReadWaitV1::IdleUntil(_) => view.queued_job_count == 0 && view.running_job_id is None,
        ReadWaitV1::AfterJobUntil { .. } => job_state matches Some(state) && (state is Succeeded
            || state is Failed || state is Cancelled),
    }
}

/// Whether a read has waited for as long as it may.
pub open spec fn is_over(wait: ReadWaitV1, now_millis: u64) -> bool {
    match wait {
        ReadWaitV1::Immediate => true,
        ReadWaitV1::IdleUntil(deadline) => now_millis >= deadline.at(),
        ReadWaitV1::AfterJobUntil { deadline, .. } => now_millis >= deadline.at(),
    }
}

/// A read of a session that is not active is answered with the expected session exactly once what it waits
/// for has come, and looks again exactly while it may still come and its time is not up. A workspace
/// without a graph session is left to others.
pub proof fn a_session_is_read_once_its_wait_is_over(
    wait: ReadWaitV1,
    expected_session_id: Option<&String>,
    view: GraphWorkspaceViewV2,
    job_state: Option<StoreJobStateV1>,
    now_millis: u64,
    step: Result<GraphReadStepV2, DispatchFailureV1>,
)
    requires
        call_ensures(
            graph_read_step,
            (
                &wait,
                expected_session_id,
                Ok::<(GraphWorkspaceViewV2, Option<StoreJobStateV1>), StoreErrorV1>(
                    (view, job_state),
                ),
                now_millis,
            ),
            step,
        ),
    ensures
        step == Ok::<GraphReadStepV2, DispatchFailureV1>(GraphReadStepV2::NotHandled)
            <==> view.graph_state is None,
        view.graph_state is Some ==> ({
            let expected = expected_session_id matches Some(expected) ==> shows_the_session(
                view,
                expected@,
            );
            let lost = wait is AfterJobUntil && job_state is None;
            &&& (step matches Ok(GraphReadStepV2::Ready(_))) <==> expected && has_come(
                wait,
                view,
                job_state,
            )
            &&& step matches Ok(GraphReadStepV2::Ready(shown)) ==> shown == view
            &&& (step matches Ok(GraphReadStepV2::Sleep { .. })) <==> expected && !lost && !has_come(
                wait,
                view,
                job_state,
            ) && !is_over(wait, now_millis)
            &&& !expected ==> (step matches Err(failure) && failure.kind is SessionIdMismatch)
            &&& expected && lost ==> (step matches Err(failure) && is_bare(
                failure,
                DispatchFailureKindV1::JobNotFound,
            ))
            &&& expected && !lost && !has_come(wait, view, job_state) && is_over(wait, now_millis)
                ==> (step matches Err(failure) && is_bare(
                failure,
                DispatchFailureKindV1::JobWaitTimeout,
            ))
        }),
        step matches Ok(GraphReadStepV2::Sleep { millis }) ==> 0 < millis <= 50,
{
}

/// A read of an active session is answered with its view exactly if it could be read, and left to others
/// where the workspace holds no graph session.
pub proof fn an_active_session_is_shown_as_it_was_read(
    read: Result<GraphWorkspaceViewV2, ReadServiceErrorV1>,
    found: Result<Option<GraphWorkspaceViewV2>, DispatchFailureV1>,
)
    requires
        call_ensures(active_graph_view, (read,), found),
    ensures
        found is Ok <==> read is Ok,
        found matches Ok(found) ==> (read matches Ok(view) && (found is Some
            <==> view.graph_state is Some) && (found matches Some(found) ==> found == view)),
{
}

/// A read of a session answers its request with what was made of the view, for the workspace of the view.
pub proof fn a_read_answers_with_what_was_made_of_the_view(
    request: RequestEnvelopeV1,
    generated_at: String,
    view: GraphWorkspaceViewV2,
    worktree_root: String,
    projected: Result<serde_json::Map<String, serde_json::Value>, GraphViewErrorV2>,
    output: Result<OutputEnvelopeInputV2, DispatchFailureV1>,
)
    requires
        call_ensures(
            graph_read_output,
            (&request, generated_at, &view, worktree_root, projected),
            output,
        ),
    ensures
        output is Ok <==> projected is Ok,
        output matches Ok(output) ==> is_answer_to(request, generated_at, output) && output.job
            is None && projected == Ok::<
            serde_json::Map<String, serde_json::Value>,
            GraphViewErrorV2,
        >(output.result) && (output.workspace matches Some(workspace) && workspace.uuid
            == view.identity.workspace_uuid && workspace.root == worktree_root
            && workspace.latest_workspace_sequence == view.latest_workspace_sequence),
{
}

} // verus!
