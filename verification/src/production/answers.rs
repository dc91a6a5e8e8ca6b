//! What jobs are answered with, by what the Store and their receipts hold.

use crate::civil_time;
use crate::dispatch::{DispatchFailureKindV1, DispatchFailureV1, JobOutputV1, SessionOutputV1};
use crate::json;
use crate::json::JsonTreeV1;
use crate::production::failures::TerminalCommandKindV1;
use crate::production::frozen::Members;
use crate::production::mutations::{
    submission_outcome, terminal_command_kind, MutationDispatchOutcomeV1,
};
use crate::production::reads::{
    cancellation_plan, job_lookup, job_lookup_result, job_lookup_step, job_status_result,
    CancellationPlanV1, LookupJobV1, LookupResolutionV1, LookupStepV1, ReconciliationSnapshotV1,
};
use crate::production::receipts::{
    admitted_job_id, durable_command_name, job_output, job_output_from_terminal_receipt,
    terminal_command_kind_from_store, terminal_response_context, TerminalResponseContextV1,
};
use crate::production::sealed_results::{
    is_answerable, shows_job, tells_bool, tells_number, tells_text, LAST_MILLISECOND,
};
use crate::production::terminal::{
    job_read_projection, receipt_only_job_projection, seal_terminal_receipt_v1,
    terminal_result_for_kind, terminal_session_projection, terminal_success_result_map,
    DispatcherTerminalResultV1, FrozenEnvelopeEvidenceV1, SealedTerminalResponseV1,
    TerminalJobResponseV1,
};
use crate::protocol::{read_wait, RequestReadWaitV1, SliceCommandV1};
use crate::read_service::{ReadServiceErrorV1, ReadWaitV1};
use crate::store::{
    AdmitOutcomeV1, CommandV1, JobReceiptOrTerminalV1, JobViewV1, PersistedDomainResultV1,
    PersistedTerminalReceiptV1, PersistedTerminalResultV1, PersistedTerminalSessionProjectionV1,
    StoreErrorV1,
};
use crate::worker::{WorkerSubmissionV1, WorkerWaitResultV1};
use vstd::prelude::*;

verus! {

/// Whether a text dates an optional instant, and is absent where the instant is.
pub open spec fn dates(text: Option<String>, millis: Option<u64>) -> bool {
    (text is Some <==> millis is Some) && (text matches Some(text) ==> (millis matches Some(millis)
        ==> text@ == civil_time::timestamp(millis as nat)))
}

/// Whether every instant of a job has a timestamp.
pub open spec fn has_dates(view: JobViewV1) -> bool {
    &&& view.submitted_at <= LAST_MILLISECOND
    &&& view.claimed_at matches Some(claimed_at) ==> claimed_at <= LAST_MILLISECOND
    &&& view.finished_at matches Some(finished_at) ==> finished_at <= LAST_MILLISECOND
}

/// Whether a job is shown as the Store holds it.
pub open spec fn shows_view(view: JobViewV1, job: JobOutputV1) -> bool {
    &&& job.id@ == view.job.job_id@
    &&& job.sequence == view.job.identity_sequence
    &&& job.state is Queued <==> view.state is Queued
    &&& job.state is Running <==> view.state is Running
    &&& job.state is Succeeded <==> view.state is Succeeded
    &&& job.state is Failed <==> view.state is Failed
    &&& job.state is Cancelled <==> view.state is Cancelled
    &&& job.submitted_at@ == civil_time::timestamp(view.submitted_at as nat)
    &&& dates(job.claimed_at, view.claimed_at)
    &&& dates(job.finished_at, view.finished_at)
}

/// Whether a failure is of the given kind and tells nothing else.
pub open spec fn is_bare(failure: DispatchFailureV1, kind: DispatchFailureKindV1) -> bool {
    failure.kind == kind && failure.details is Absent && failure.admission is None
        && failure.job is None
}

/// Whether an ended job can be shown: its receipt knows how and when it ended.
pub open spec fn is_shown(receipt: PersistedTerminalReceiptV1) -> bool {
    receipt.job_projection matches Some(projection) && {
        &&& projection.submitted_at <= LAST_MILLISECOND
        &&& projection.claimed_at matches Some(claimed_at) ==> claimed_at <= LAST_MILLISECOND
        &&& projection.finished_at <= LAST_MILLISECOND
    }
}

proof fn instants_have_timestamps()
    ensures
        forall|millis: u64| #[trigger]
            civil_time::has_timestamp(millis as nat) <==> millis <= LAST_MILLISECOND,
{
    assert forall|millis: u64| #[trigger]
        civil_time::has_timestamp(millis as nat) <==> millis <= LAST_MILLISECOND by {
        civil_time::an_instant_has_a_timestamp_until_the_year_ten_thousand(millis as nat);
    }
}

/// A job is shown as the Store holds it, exactly if its instants can be dated. Otherwise it is a
/// defect.
pub proof fn a_job_is_shown_as_the_store_holds_it(
    view: JobViewV1,
    shown: Result<JobOutputV1, DispatchFailureV1>,
)
    requires
        call_ensures(job_output, (&view,), shown),
    ensures
        shown is Ok <==> has_dates(view),
        shown matches Ok(job) ==> shows_view(view, job),
        shown matches Err(failure) ==> is_bare(failure, DispatchFailureKindV1::Internal),
{
    instants_have_timestamps();
}

/// An ended job is shown as its receipt holds it, exactly if the receipt knows its end and its instants
/// can be dated.
pub proof fn an_ended_job_is_shown_as_its_receipt_holds_it(
    receipt: PersistedTerminalReceiptV1,
    shown: Result<JobOutputV1, DispatchFailureV1>,
)
    requires
        call_ensures(job_output_from_terminal_receipt, (&receipt,), shown),
    ensures
        shown is Ok <==> is_shown(receipt),
        shown matches Ok(job) ==> shows_job(receipt, job),
        shown matches Err(failure) ==> is_bare(
            failure,
            if receipt.job_projection is Some {
                DispatchFailureKindV1::Internal
            } else {
                DispatchFailureKindV1::WorkspaceStateUnreadable
            },
        ),
{
    instants_have_timestamps();
}

/// Every durable command goes by its own name.
pub proof fn a_command_goes_by_its_name(command: CommandV1, name: &'static str)
    requires
        call_ensures(durable_command_name, (command,), name),
    ensures
        command is WorkspaceInitialize ==> name@ == "workspace.init"@,
        command is WorkspaceResetAll ==> name@ == "workspace.reset_all"@,
        command is SessionStart ==> name@ == "session.start"@,
        command is SessionStartReplace ==> name@ == "session.start_replace"@,
        command is SessionComplete ==> name@ == "session.complete"@,
        command is SessionSkip ==> name@ == "session.skip"@,
        command is SessionRetry ==> name@ == "session.retry"@,
        command is SessionReturn ==> name@ == "session.return"@,
        command is SessionBlock ==> name@ == "session.block"@,
        command is SessionUnblock ==> name@ == "session.unblock"@,
        command is SessionCancel ==> name@ == "session.cancel"@,
        command is SessionReopen ==> name@ == "session.reopen"@,
        command is SessionReset ==> name@ == "session.reset"@,
        command is SessionDecide ==> name@ == "session.decide"@,
        command is SessionRework ==> name@ == "session.rework"@,
        command is GoalDefine ==> name@ == "goal.define"@,
        command is GoalRevise ==> name@ == "goal.revise"@,
        command is GoalAssessCriterion ==> name@ == "goal.assess_criterion"@,
        command is ItemCheck ==> name@ == "item.check"@,
        command is ItemUncheck ==> name@ == "item.uncheck"@,
        command is ItemSet ==> name@ == "item.set"@,
        command is ItemAdd ==> name@ == "item.add"@,
        command is ItemRemove ==> name@ == "item.remove"@,
        command is ItemAttach ==> name@ == "item.attach"@,
        command is ItemClear ==> name@ == "item.clear"@,
{
}

/// A durable command and the command of a request are of the same kind: the changes of items, the
/// starts, and each of the commands whose failures are told in their own way.
pub proof fn a_command_is_of_its_kind(
    command: CommandV1,
    kind: TerminalCommandKindV1,
    slice: SliceCommandV1,
    slice_kind: TerminalCommandKindV1,
)
    requires
        call_ensures(terminal_command_kind_from_store, (command,), kind),
        call_ensures(terminal_command_kind, (&slice,), slice_kind),
    ensures
        kind is Start <==> command is SessionStart || command is SessionStartReplace,
        kind is ItemMutation <==> command is ItemCheck || command is ItemUncheck
            || command is ItemSet || command is ItemAdd || command is ItemRemove
            || command is ItemAttach || command is ItemClear,
        kind is SessionReset <==> command is SessionReset,
        kind is Skip <==> command is SessionSkip,
        kind is Return <==> command is SessionReturn,
        kind is Reopen <==> command is SessionReopen,
        kind is Decision <==> command is SessionDecide,
        kind is Rework <==> command is SessionRework,
        kind is GoalDefinition <==> command is GoalDefine,
        kind is GoalRevision <==> command is GoalRevise,
        kind is CriterionAssessment <==> command is GoalAssessCriterion,
        slice_kind is Start <==> slice is SessionStart || slice is SessionStartReplace,
        slice_kind is ItemMutation <==> slice is ItemCheck || slice is ItemUncheck
            || slice is ItemSet || slice is ItemAdd || slice is ItemRemove || slice is ItemAttach
            || slice is ItemClear,
        slice_kind is SessionReset <==> slice is SessionReset,
        slice_kind is Skip <==> slice is SessionSkip,
        slice_kind is Return <==> slice is SessionReturn,
        slice_kind is Reopen <==> slice is SessionReopen,
        slice_kind is Start || slice_kind is ItemMutation || slice_kind is SessionReset
            || slice_kind is Skip || slice_kind is Return || slice_kind is Reopen
            || slice_kind is Other,
{
}

/// Whether a context is that of the request that a receipt was made for.
pub open spec fn tells_request(
    receipt: PersistedTerminalReceiptV1,
    context: TerminalResponseContextV1,
) -> bool {
    receipt.response_context matches Some(asked) && (receipt.job_projection matches Some(projection)
        && {
        &&& context.request_id@ == asked.request_id@
        &&& context.command@ == asked.command@
        &&& context.generated_at@ == civil_time::timestamp(projection.finished_at as nat)
        &&& context.workspace.uuid@ == asked.workspace_uuid@
        &&& context.workspace.root@ == asked.workspace_root@
        &&& context.workspace.latest_workspace_sequence == asked.workspace_sequence
    })
}

/// A receipt tells the request that it was made for, dated by the end of its job, and nothing where it
/// was made for none.
pub proof fn a_receipt_tells_its_request(
    receipt: PersistedTerminalReceiptV1,
    context: Result<Option<TerminalResponseContextV1>, DispatchFailureV1>,
)
    requires
        call_ensures(terminal_response_context, (&receipt,), context),
    ensures
        receipt.response_context is None <==> context == Ok::<
            Option<TerminalResponseContextV1>,
            DispatchFailureV1,
        >(None),
        receipt.response_context is Some && (receipt.job_projection matches Some(projection)
            && projection.finished_at <= LAST_MILLISECOND) ==> (context matches Ok(Some(context))
            && tells_request(receipt, context)),
        receipt.response_context is Some && (receipt.job_projection matches Some(projection)
            ==> projection.finished_at > LAST_MILLISECOND) ==> context is Err,
{
    instants_have_timestamps();
}

/// An admission is asked for its job exactly if it found no receipt, and then for the job that it made
/// or found.
pub proof fn an_admission_tells_its_job(
    admission: AdmitOutcomeV1,
    job_id: Result<&String, DispatchFailureV1>,
)
    requires
        call_ensures(admitted_job_id, (&admission,), job_id),
    ensures
        admission matches AdmitOutcomeV1::New(receipt) ==> job_id == Ok::<
            &String,
            DispatchFailureV1,
        >(&receipt.job_id),
        admission matches AdmitOutcomeV1::Existing(JobReceiptOrTerminalV1::JobReceipt(receipt))
            ==> job_id == Ok::<&String, DispatchFailureV1>(&receipt.job_id),
        admission matches AdmitOutcomeV1::Existing(JobReceiptOrTerminalV1::TerminalReceipt(_))
            ==> (job_id matches Err(failure) && is_bare(
            failure,
            DispatchFailureKindV1::WorkspaceStateUnreadable,
        )),
{
}

/// Whether a session is shown as its receipt holds it.
pub open spec fn shows_session(
    persisted: PersistedTerminalSessionProjectionV1,
    session: SessionOutputV1,
) -> bool {
    &&& session.id@ == persisted.session_id@
    &&& session.title@ == persisted.task_title@
    &&& session.lifecycle is Running <==> persisted.lifecycle is Running
    &&& session.lifecycle is Completed <==> persisted.lifecycle is Completed
    &&& session.lifecycle is Cancelled <==> persisted.lifecycle is Cancelled
    &&& session.revision_before == persisted.revision_before
    &&& session.revision_after == persisted.revision_after
}

/// Whether a success left its session cleared: a reset that went from some revision to none.
pub open spec fn clears_session(
    success: PersistedDomainResultV1,
    command: TerminalCommandKindV1,
) -> bool {
    command is SessionReset && (success matches PersistedDomainResultV1::SessionChanged {
        changed,
        revision_before,
        revision_after,
        ..
    } && changed && revision_before > 0 && revision_after == 0)
}

/// Whether a success goes with what its receipt keeps of the session: there is one exactly if the
/// command changed a session or an item of it, unless it cleared the session.
pub open spec fn fits_session(
    success: PersistedDomainResultV1,
    persisted: Option<PersistedTerminalSessionProjectionV1>,
    command: TerminalCommandKindV1,
) -> bool {
    match success {
        PersistedDomainResultV1::SessionChanged { .. }
        | PersistedDomainResultV1::ItemChanged { .. } => persisted is Some || clears_session(
            success,
            command,
        ),
        _ => persisted is None,
    }
}

/// A success is answered with the session that its receipt keeps, exactly if the two fit.
pub proof fn a_success_shows_the_session_it_left(
    success: PersistedDomainResultV1,
    persisted: Option<PersistedTerminalSessionProjectionV1>,
    command: TerminalCommandKindV1,
    session: Result<Option<SessionOutputV1>, DispatchFailureV1>,
)
    requires
        call_ensures(terminal_session_projection, (&success, &persisted, command), session),
    ensures
        session is Ok <==> fits_session(success, persisted, command),
        session matches Ok(session) ==> (session is Some <==> persisted is Some) && (
        session matches Some(session) ==> (persisted matches Some(persisted) ==> shows_session(
            persisted,
            session,
        ))),
        session matches Err(failure) ==> is_bare(
            failure,
            DispatchFailureKindV1::WorkspaceStateUnreadable,
        ),
{
}

/// Whether members tell what a success changed.
pub open spec fn tells_success(success: PersistedDomainResultV1, members: Members) -> bool {
    match success {
        PersistedDomainResultV1::WorkspaceInitialized { revision, .. } => tells_bool(
            members,
            "initialized"@,
            true,
        ) && tells_number(members, "revision"@, revision),
        PersistedDomainResultV1::WorkspaceReset { revision, .. } => tells_bool(
            members,
            "reset"@,
            true,
        ) && tells_number(members, "revision"@, revision),
        PersistedDomainResultV1::SessionChanged {
            revision_before,
            revision_after,
            changed,
            ..
        } => tells_bool(members, "changed"@, changed) && tells_number(
            members,
            "revision_before"@,
            revision_before,
        ) && tells_number(members, "revision_after"@, revision_after),
        PersistedDomainResultV1::ItemChanged {
            item_id,
            revision_before,
            revision_after,
            changed,
            ..
        } => tells_bool(members, "changed"@, changed) && tells_text(members, "item_id"@, item_id@)
            && tells_number(members, "revision_before"@, revision_before) && tells_number(
            members,
            "revision_after"@,
            revision_after,
        ),
    }
}

/// A success tells what it changed, and between which revisions.
pub proof fn a_success_tells_what_it_changed(
    success: PersistedDomainResultV1,
    result: serde_json::Map<String, serde_json::Value>,
)
    requires
        call_ensures(terminal_success_result_map, (&success,), result),
    ensures
        tells_success(success, json::json_members(result)),
{
    success_literals();
}

proof fn success_literals()
    ensures
        "initialized"@.len() == 11,
        "reset"@.len() == 5,
        "changed"@.len() == 7,
        "item_id"@.len() == 7,
        "revision"@.len() == 8,
        "revision_before"@.len() == 15,
        "revision_after"@.len() == 14,
        "procedure_digest"@.len() == 16,
        "changed"@ != "item_id"@,
{
    reveal_strlit("initialized");
    reveal_strlit("reset");
    reveal_strlit("changed");
    reveal_strlit("item_id");
    reveal_strlit("revision");
    reveal_strlit("revision_before");
    reveal_strlit("revision_after");
    reveal_strlit("procedure_digest");
    assert("changed"@[0] != "item_id"@[0]);
}

/// Whether a receipt of no graph session fits how its job ended: a success its session, and any other
/// end no session at all.
pub open spec fn fits_end(
    receipt: PersistedTerminalReceiptV1,
    command: TerminalCommandKindV1,
) -> bool {
    match receipt.result {
        PersistedTerminalResultV1::Success(success) => fits_session(
            success,
            receipt.session_projection,
            command,
        ),
        _ => receipt.session_projection is None,
    }
}

/// Whether a receipt keeps the digest of the procedure that its session was started with.
pub open spec fn keeps_digest(receipt: PersistedTerminalReceiptV1) -> bool {
    receipt.session_projection matches Some(session) && session.procedure_digest is Some
}

/// Whether a result tells how the job of a receipt ended.
pub open spec fn tells_end(
    receipt: PersistedTerminalReceiptV1,
    command: TerminalCommandKindV1,
    result: DispatcherTerminalResultV1,
) -> bool {
    match receipt.result {
        PersistedTerminalResultV1::Success(success) => result matches
            DispatcherTerminalResultV1::Output { session, result } && {
            &&& session is Some <==> receipt.session_projection is Some
            &&& session matches Some(session) ==> (receipt.session_projection matches Some(persisted)
                ==> shows_session(persisted, session))
            &&& tells_success(success, json::json_members(result))
            &&& json::member(json::json_members(result), "procedure_digest"@) == (
            if command is Start {
                Some(
                    JsonTreeV1::Text(
                        receipt.session_projection->Some_0.procedure_digest->Some_0@,
                    ),
                )
            } else {
                None
            })
        },
        PersistedTerminalResultV1::Failure(_) => result is Error,
        PersistedTerminalResultV1::Cancelled => result matches DispatcherTerminalResultV1::Error(
            failure,
        ) && is_bare(failure, DispatchFailureKindV1::WorkspaceMaintenance),
    }
}

/// A job of no graph session is answered with how it ended, exactly if its receipt fits that end and,
/// for a start, knows the digest of the procedure.
pub proof fn an_ended_job_is_answered_with_its_end(
    receipt: PersistedTerminalReceiptV1,
    command: TerminalCommandKindV1,
    result: Result<DispatcherTerminalResultV1, DispatchFailureV1>,
)
    requires
        call_ensures(terminal_result_for_kind, (&receipt, command), result),
        receipt.graph_session_projection is None,
    ensures
        result is Ok <==> fits_end(receipt, command) && (command is Start && receipt.result is Success
            ==> keeps_digest(receipt)),
        result matches Ok(result) ==> tells_end(receipt, command, result),
        result matches Err(failure) ==> is_bare(
            failure,
            DispatchFailureKindV1::WorkspaceStateUnreadable,
        ),
{
    success_literals();
}

/// A job of no graph session that keeps no response is sealed with one that is made from its receipt:
/// exactly if the receipt can be answered, fits its end and, for a start, knows the digest. A cancelled
/// job is sealed whatever its receipt knows.
pub proof fn a_job_is_sealed_with_its_end(
    receipt: PersistedTerminalReceiptV1,
    command: CommandV1,
    evidence: FrozenEnvelopeEvidenceV1,
    sealed: Result<SealedTerminalResponseV1, StoreErrorV1>,
)
    requires
        call_ensures(seal_terminal_receipt_v1, (&receipt, evidence), sealed),
        receipt.graph_session_projection is None,
        receipt.public_terminal_envelope is None,
        receipt.lookup_command == Some(command),
    ensures
        ({
            let starts = command is SessionStart || command is SessionStartReplace;
            let kind = crate::production::receipts::terminal_kind(command);
            &&& kind is Start <==> starts
            &&& kind is SessionReset <==> command is SessionReset
            &&& sealed is Ok <==> fits_end(receipt, kind) && (receipt.result is Cancelled || (
            is_answerable(receipt) && (starts && receipt.result is Success ==> keeps_digest(
                receipt,
            ))))
            &&& sealed matches Ok(sealed) ==> (sealed matches SealedTerminalResponseV1::Job(response)
                && match response {
                TerminalJobResponseV1::Document(document) => receipt.result is Cancelled && (
                json::json_tree(document) matches JsonTreeV1::Record(members) && tells_text(
                    members,
                    "kind"@,
                    "cancelled"@,
                ) && (json::member(members, "payload"@) matches Some(JsonTreeV1::Record(payload))
                    && tells_bool(payload, "cancelled"@, true))),
                TerminalJobResponseV1::Render { context, job, result } => !(receipt.result
                    is Cancelled) && tells_request(receipt, context) && shows_job(receipt, job)
                    && tells_end(receipt, kind, result),
            })
        }),
{
    instants_have_timestamps();
    success_literals();
    reveal_strlit("kind");
    reveal_strlit("payload");
    assert("kind"@.len() == 4 && "payload"@.len() == 7);
}

/// Whether a view and its receipt tell of the same end of the same job.
pub open spec fn tell_the_same_end(view: JobViewV1, receipt: PersistedTerminalReceiptV1) -> bool {
    receipt.job_projection matches Some(projection) && {
        &&& view.job.job_id@ == receipt.job.job_id@
        &&& view.job.identity_sequence == receipt.job.identity_sequence
        &&& view.state is Succeeded <==> projection.state is Succeeded
        &&& view.state is Failed <==> projection.state is Failed
        &&& view.state is Cancelled <==> projection.state is Cancelled
        &&& view.submitted_at == projection.submitted_at
        &&& view.claimed_at == projection.claimed_at
        &&& view.finished_at == Some(projection.finished_at)
    }
}

/// A job that has not ended is read as the Store holds it, without a response. One that has ended is
/// read with the response that its receipt gives, exactly if the receipt tells of the same end, and is
/// shown as the receipt holds it. A job that is neither is refused.
pub proof fn a_job_is_read_with_its_response(
    view: JobViewV1,
    evidence: FrozenEnvelopeEvidenceV1,
    read: Result<(JobOutputV1, Option<TerminalJobResponseV1>), DispatchFailureV1>,
)
    requires
        call_ensures(job_read_projection, (&view, evidence), read),
    ensures
        ({
            let pends = (view.state is Queued || view.state is Running) && view.terminal_receipt
                is None && view.finished_at is None;
            let ended = !(view.state is Queued) && !(view.state is Running)
                && view.terminal_receipt is Some;
            &&& pends ==> (read is Ok <==> has_dates(view))
            &&& pends ==> (read matches Ok(read) ==> shows_view(view, read.0) && read.1 is None)
            &&& !pends && !ended ==> (read matches Err(failure) && is_bare(
                failure,
                DispatchFailureKindV1::WorkspaceStateUnreadable,
            ))
            &&& ended ==> (view.terminal_receipt matches Some(receipt) && {
                &&& !is_shown(receipt) || !tell_the_same_end(view, receipt) ==> read is Err
                &&& read matches Ok(read) ==> shows_job(receipt, read.0) && read.1 is Some
                &&& is_shown(receipt) && tell_the_same_end(view, receipt) && receipt.result
                    is Cancelled && receipt.session_projection is None
                    && receipt.graph_session_projection is None
                    && receipt.public_terminal_envelope is None ==> read is Ok
            })
        }),
{
    instants_have_timestamps();
}

/// A receipt that outlives its job is read for the request that it is of alone, with the job as the
/// receipt holds it.
pub proof fn a_receipt_is_read_for_its_own_request(
    receipt: PersistedTerminalReceiptV1,
    request_digest: &str,
    evidence: FrozenEnvelopeEvidenceV1,
    read: Result<(JobOutputV1, TerminalJobResponseV1), DispatchFailureV1>,
)
    requires
        call_ensures(receipt_only_job_projection, (&receipt, request_digest, evidence), read),
    ensures
        receipt.job.request_digest@ != request_digest@ || receipt.lookup_command is None
            || !is_shown(receipt) ==> read is Err,
        read matches Ok(read) ==> shows_job(receipt, read.0),
        receipt.job.request_digest@ == request_digest@ && receipt.lookup_command is Some
            && is_shown(receipt) && receipt.result is Cancelled && receipt.session_projection is None
            && receipt.graph_session_projection is None
            && receipt.public_terminal_envelope is None ==> read is Ok,
{
    instants_have_timestamps();
}

/// The job that an admission made or found.
pub open spec fn admitted_as(admission: AdmitOutcomeV1) -> (Seq<char>, u64) {
    match admission {
        AdmitOutcomeV1::New(receipt) => (receipt.job_id@, receipt.identity_sequence),
        AdmitOutcomeV1::Existing(JobReceiptOrTerminalV1::JobReceipt(receipt)) => (
            receipt.job_id@,
            receipt.identity_sequence,
        ),
        AdmitOutcomeV1::Existing(JobReceiptOrTerminalV1::TerminalReceipt(receipt)) => (
            receipt.job.job_id@,
            receipt.job.identity_sequence,
        ),
    }
}

/// A submission whose job has not ended is answered with its job: as timed out where the wait for it
/// was in vain, and otherwise as it was read afterwards, with the digest of its procedure. Whatever
/// fails, the answer says which job was admitted.
pub proof fn a_pending_submission_is_answered_with_its_job(
    submission: WorkerSubmissionV1,
    command: TerminalCommandKindV1,
    read: Result<Option<JobViewV1>, StoreErrorV1>,
    procedure_digest: Option<Option<String>>,
    outcome: Result<MutationDispatchOutcomeV1, DispatchFailureV1>,
)
    requires
        call_ensures(submission_outcome, (&submission, command, read, procedure_digest), outcome),
        !(submission.admission matches AdmitOutcomeV1::Existing(
            JobReceiptOrTerminalV1::TerminalReceipt(_),
        )),
        !(submission.completion matches Some(WorkerWaitResultV1::Terminal(_))),
    ensures
        submission.completion matches Some(WorkerWaitResultV1::TimedOut(view)) ==> (outcome is Ok
            <==> has_dates(view) && procedure_digest is Some),
        submission.completion matches Some(WorkerWaitResultV1::TimedOut(view)) ==> (
        outcome matches Ok(outcome) ==> (outcome matches MutationDispatchOutcomeV1::TimedOut { job }
            && shows_view(view, job))),
        submission.completion is None ==> (outcome is Ok <==> procedure_digest is Some && (
        read matches Ok(Some(view)) && has_dates(view))),
        submission.completion is None ==> (outcome matches Ok(outcome) ==> (outcome matches
            MutationDispatchOutcomeV1::Detached { job, procedure_digest: shown }
            && procedure_digest == Some(shown) && (read matches Ok(Some(view)) && shows_view(
            view,
            job,
        )))),
        outcome matches Err(failure) ==> (failure.admission matches Some(admission)
            && admission.job_id@ == admitted_as(submission.admission).0
            && admission.workspace_sequence == admitted_as(submission.admission).1),
        submission.completion is None && procedure_digest is Some && read == Ok::<
            Option<JobViewV1>,
            StoreErrorV1,
        >(None) ==> (outcome matches Err(failure) && failure.kind is JobNotFound),
{
    instants_have_timestamps();
}

/// A submission whose job has ended, as its admission found or its wait told, is answered with that end
/// and nothing that was read beside it.
pub proof fn an_ended_submission_is_answered_with_its_end(
    submission: WorkerSubmissionV1,
    command: TerminalCommandKindV1,
    read: Result<Option<JobViewV1>, StoreErrorV1>,
    procedure_digest: Option<Option<String>>,
    outcome: Result<MutationDispatchOutcomeV1, DispatchFailureV1>,
    receipt: PersistedTerminalReceiptV1,
)
    requires
        call_ensures(submission_outcome, (&submission, command, read, procedure_digest), outcome),
        submission.admission == AdmitOutcomeV1::Existing(
            JobReceiptOrTerminalV1::TerminalReceipt(receipt),
        ) || (!(submission.admission matches AdmitOutcomeV1::Existing(
            JobReceiptOrTerminalV1::TerminalReceipt(_),
        )) && submission.completion == Some(WorkerWaitResultV1::Terminal(receipt))),
        receipt.graph_session_projection is None,
    ensures
        outcome is Ok <==> is_shown(receipt) && fits_end(receipt, command) && (command is Start
            && receipt.result is Success ==> keeps_digest(receipt)),
        outcome matches Ok(outcome) ==> (outcome matches MutationDispatchOutcomeV1::Terminal {
            job,
            result,
            response_context,
        } && {
            &&& shows_job(receipt, job)
            &&& tells_end(receipt, command, result)
            &&& response_context is Some <==> receipt.response_context is Some
            &&& response_context matches Some(context) ==> tells_request(receipt, context)
        }),
        outcome matches Err(failure) ==> (failure.admission matches Some(admission)
            && admission.job_id@ == admitted_as(submission.admission).0
            && admission.workspace_sequence == admitted_as(submission.admission).1),
{
    instants_have_timestamps();
    success_literals();
}

/// A lookup of a key knows it exactly if it is that of the reset under way or the Store is to be asked.
/// A reset under way is a running job: its operation, the first of the workspace that it leads to.
pub proof fn a_lookup_begins_where_its_key_is_known(
    resolution: LookupResolutionV1,
    idempotency_key: &str,
    step: Result<LookupStepV1, DispatchFailureV1>,
)
    requires
        call_ensures(job_lookup_step, (&resolution, idempotency_key), step),
    ensures
        step matches Ok(LookupStepV1::ReadStore) <==> resolution is Store,
        step matches Ok(LookupStepV1::Unknown) <==> resolution is Missing || (resolution matches
            LookupResolutionV1::ResetMarker { marker, .. } && marker.idempotency_key@
            != idempotency_key@),
        step matches Ok(LookupStepV1::Resetting { .. }) <==> (resolution matches
            LookupResolutionV1::ResetMarker { marker, .. } && marker.idempotency_key@
            == idempotency_key@ && marker.submitted_at_ms <= LAST_MILLISECOND),
        step matches Ok(LookupStepV1::Resetting { workspace, job }) ==> (resolution matches
            LookupResolutionV1::ResetMarker { marker, worktree_root } && {
            &&& workspace.uuid@ == marker.target_workspace_uuid@
            &&& workspace.root@ == worktree_root@
            &&& workspace.latest_workspace_sequence == 1
            &&& job.id@ == marker.operation_id@
            &&& job.sequence == 1
            &&& job.state is Running
            &&& job.submitted_at@ == civil_time::timestamp(marker.submitted_at_ms as nat)
            &&& job.claimed_at is None
            &&& job.finished_at is None
        }),
{
    instants_have_timestamps();
}

/// A lookup in the Store finds nothing exactly if the key is not bound. What it finds is the job while
/// that is there, and what its receipt tells afterwards, if it is of the request that the key is bound
/// to; anything else is refused.
pub proof fn a_lookup_finds_what_its_key_is_bound_to(
    snapshot: ReconciliationSnapshotV1,
    evidence: FrozenEnvelopeEvidenceV1,
    found: Result<Option<LookupJobV1>, DispatchFailureV1>,
)
    requires
        call_ensures(job_lookup, (&snapshot, evidence), found),
    ensures
        snapshot.lookup is None <==> found == Ok::<Option<LookupJobV1>, DispatchFailureV1>(None),
        snapshot.lookup matches Some(binding) ==> (snapshot.job matches Some(view) ==> {
            &&& view.job.request_digest@ != binding.request_digest@ ==> found is Err
            &&& view.job.request_digest@ == binding.request_digest@ && (view.state is Queued
                || view.state is Running) && view.terminal_receipt is None && view.finished_at
                is None && has_dates(view) ==> (found matches Ok(Some(found)) && shows_view(
                view,
                found.job,
            ) && found.response is None)
            &&& found matches Ok(Some(found)) ==> (if view.state is Queued || view.state is Running {
                shows_view(view, found.job) && found.response is None
            } else {
                (view.terminal_receipt matches Some(receipt) && tell_the_same_end(view, receipt)
                    && shows_job(receipt, found.job)) && found.response is Some
            })
        }),
        snapshot.lookup matches Some(binding) ==> (snapshot.job is None ==> {
            &&& binding.terminal_receipt is None ==> found is Err
            &&& found matches Ok(Some(found)) ==> (binding.terminal_receipt matches Some(receipt)
                && receipt.job.request_digest@ == binding.request_digest@ && shows_job(
                receipt,
                found.job,
            ) && found.response is Some)
        }),
{
    instants_have_timestamps();
}

/// A job can be cancelled exactly if the Store shows it queued. The plan expects it as it was read, and
/// shows it as cancelled at the given instant, never claimed.
pub proof fn only_a_queued_job_is_cancelled(
    read: Result<Option<JobViewV1>, StoreErrorV1>,
    now: u64,
    plan: Result<CancellationPlanV1, DispatchFailureV1>,
)
    requires
        call_ensures(cancellation_plan, (read, now), plan),
    ensures
        plan is Ok <==> (read matches Ok(Some(view)) && view.state is Queued && view.submitted_at
            <= LAST_MILLISECOND && now <= LAST_MILLISECOND),
        plan matches Ok(plan) ==> (read matches Ok(Some(view)) && {
            &&& plan.expected_sequence == view.job.identity_sequence
            &&& plan.committed_job.id@ == view.job.job_id@
            &&& plan.committed_job.sequence == view.job.identity_sequence
            &&& plan.committed_job.state is Cancelled
            &&& plan.committed_job.submitted_at@ == civil_time::timestamp(view.submitted_at as nat)
            &&& plan.committed_job.claimed_at is None
            &&& dates(plan.committed_job.finished_at, Some(now))
        }),
        read == Ok::<Option<JobViewV1>, StoreErrorV1>(None) ==> (plan matches Err(failure)
            && is_bare(failure, DispatchFailureKindV1::JobNotFound)),
        read matches Ok(Some(view)) ==> (!(view.state is Queued) ==> (plan matches Err(failure)
            && is_bare(failure, DispatchFailureKindV1::JobNotCancellable))),
{
    instants_have_timestamps();
}

/// A read of one job tells the response to it, and under the second schema exactly if the response is
/// an output of the second version or an error with details of it.
pub proof fn a_status_tells_the_response(
    response: serde_json::Value,
    result: serde_json::Map<String, serde_json::Value>,
)
    requires
        call_ensures(job_status_result, (response,), result),
    ensures
        json::member(json::json_members(result), "job"@) == Some(json::json_tree(response)),
        json::member(json::json_members(result), "schema"@) == (if needs_second_schema(
            json::json_tree(response),
        ) {
            Some(JsonTreeV1::Text("podway.job-result/v2"@))
        } else {
            None
        }),
{
    reveal_strlit("job");
    reveal_strlit("schema");
    assert("job"@.len() == 3 && "schema"@.len() == 6);
}

/// Whether a response is an output of the second version, or an error with details of it.
pub open spec fn needs_second_schema(response: JsonTreeV1) -> bool {
    response matches JsonTreeV1::Record(members) && {
        ||| tells_text(members, "schema"@, "podway.output/v2"@)
        ||| json::member(members, "details"@) matches Some(JsonTreeV1::Record(details))
            && tells_text(details, "schema"@, "podway.v2-runtime-error-details/v1"@)
    }
}

/// A lookup that found a job tells it by the name of its command, with the response to it and the
/// request that the key is bound to.
pub proof fn a_lookup_tells_the_job_it_found(
    snapshot: ReconciliationSnapshotV1,
    job_document: serde_json::Value,
    terminal_response: serde_json::Value,
    job: Members,
    result: Result<serde_json::Map<String, serde_json::Value>, DispatchFailureV1>,
)
    requires
        call_ensures(job_lookup_result, (&snapshot, &job_document, terminal_response), result),
        json::json_tree(job_document) == JsonTreeV1::Record(job),
    ensures
        result is Ok <==> (snapshot.lookup matches Some(binding) && match snapshot.job {
            Some(view) => view.job.request_digest@ == binding.request_digest@,
            None => binding.terminal_receipt matches Some(receipt) && receipt.job.request_digest@
                == binding.request_digest@ && receipt.lookup_command is Some,
        }),
        result matches Ok(result) ==> ({
            let members = json::json_members(result);
            &&& tells_bool(members, "found"@, true)
            &&& json::member(members, "schema"@) is Some <==> needs_second_schema(
                json::json_tree(terminal_response),
            )
            &&& json::member(members, "job"@) matches Some(JsonTreeV1::Record(shown)) && {
                &&& json::member(shown, "terminal_response"@) == Some(
                    json::json_tree(terminal_response),
                )
                &&& tells_text(shown, "request_digest"@, snapshot.lookup->Some_0.request_digest@)
                &&& snapshot.job matches Some(view) ==> tells_text(
                    shown,
                    "command"@,
                    crate::production::receipts::command_name(view.command)@,
                )
                &&& forall|name: Seq<char>|
                    name != "terminal_response"@ && name != "request_digest"@ && name != "command"@
                        ==> #[trigger] json::member(shown, name) == json::member(job, name)
            }
        }),
{
    reveal_strlit("found");
    reveal_strlit("job");
    reveal_strlit("schema");
    reveal_strlit("terminal_response");
    reveal_strlit("request_digest");
    reveal_strlit("command");
    assert("found"@.len() == 5 && "job"@.len() == 3 && "schema"@.len() == 6
        && "terminal_response"@.len() == 17 && "request_digest"@.len() == 14 && "command"@.len()
        == 7);
}

/// A read waits as it was asked to, until its time is up from the instant that it starts at. It is
/// refused exactly if that lies beyond the range of the clock.
pub proof fn a_read_waits_as_asked(
    wait: RequestReadWaitV1,
    now_millis: u64,
    result: Result<ReadWaitV1, ReadServiceErrorV1>,
)
    requires
        call_ensures(read_wait, (wait, now_millis), result),
    ensures
        wait is Immediate ==> result == Ok::<ReadWaitV1, ReadServiceErrorV1>(ReadWaitV1::Immediate),
        wait matches RequestReadWaitV1::IdleUntil { timeout_millis } ==> (if now_millis
            + timeout_millis <= u64::MAX {
            result matches Ok(ReadWaitV1::IdleUntil(deadline)) && deadline.at() == now_millis
                + timeout_millis
        } else {
            result == Err::<ReadWaitV1, ReadServiceErrorV1>(ReadServiceErrorV1::DeadlineOverflow)
        }),
        wait matches RequestReadWaitV1::AfterJobUntil { job_id, timeout_millis } ==> (if now_millis
            + timeout_millis <= u64::MAX {
            result matches Ok(ReadWaitV1::AfterJobUntil { job_id: waited, deadline })
                && waited@ == job_id@ && deadline.at() == now_millis + timeout_millis
        } else {
            result == Err::<ReadWaitV1, ReadServiceErrorV1>(ReadServiceErrorV1::DeadlineOverflow)
        }),
{
}

} // verus!
