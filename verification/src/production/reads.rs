//! The answers to reads of jobs, and to the cancellation of one.

use crate::civil_time;
use crate::dispatch;
use crate::dispatch::{
    DispatchFailureKindV1, DispatchFailureV1, JobOutputV1, JobStateV1, WorkspaceOutputV1,
};
use crate::json;
use crate::json::{
    json_array, json_as_object, json_map_insert, json_map_new, json_null, json_object,
};
use crate::production::failures;
use crate::production::failures::{
    map_cancel_error, map_store_error, terminal_replay_integrity_failure,
};
use crate::production::frozen::Members;
use crate::production::graph_envelope;
use crate::production::graph_envelope::{put_bool, put_text};
use crate::production::receipts;
use crate::production::receipts::{protocol_job_state, rfc3339_millis};
use crate::production::terminal;
use crate::production::terminal::{
    job_read_projection, job_result_value, receipt_only_job_projection,
    receipt_only_job_result_value, terminal_response_requires_v2_wrapper, FrozenEnvelopeEvidenceV1,
    TerminalJobResponseV1,
};
use crate::read_service::{
    MonotonicDeadlineV1, ReadNotificationErrorV1, ReadNotificationVersionV1, ReadWaitOutcomeV1,
};
use crate::store::{JobViewV1, PersistedTerminalReceiptV1, StoreErrorV1};
use crate::workspace::ResetMarkerV1;
use vstd::prelude::*;

verus! {

/// How many jobs a list shows at most.
pub const JOB_LIST_LIMIT_V1: u64 = 1_000;

/// What a wait for a scheduler's progress does next.
#[derive(Clone, Copy, Debug, PartialEq, Eq, Structural)]
pub enum NotificationStepV1 {
    Ended(ReadWaitOutcomeV1),
    WaitFor { millis: u64 },
}

/// What a wait for progress does next: it ends when there was progress or its time is up, and
/// otherwise waits for the time that is left.
pub fn notification_step(
    progress: u64,
    observed: ReadNotificationVersionV1,
    now_millis: u64,
    deadline: MonotonicDeadlineV1,
) -> (step: NotificationStepV1)
    ensures
        step == if progress != observed.number() {
            NotificationStepV1::Ended(ReadWaitOutcomeV1::Notified)
        } else if now_millis >= deadline.at() {
            NotificationStepV1::Ended(ReadWaitOutcomeV1::TimedOut)
        } else {
            NotificationStepV1::WaitFor { millis: (deadline.at() - now_millis) as u64 }
        },
{
    if progress != observed.get() {
        return NotificationStepV1::Ended(ReadWaitOutcomeV1::Notified);
    }
    if now_millis >= deadline.millis() {
        return NotificationStepV1::Ended(ReadWaitOutcomeV1::TimedOut);
    }
    NotificationStepV1::WaitFor { millis: deadline.millis() - now_millis }
}

/// Whether a wait that was woken ends: there was progress, or the workspace was notified.
pub fn notification_after_wait(
    progress: u64,
    observed: ReadNotificationVersionV1,
    notified_before: u64,
    notified_now: u64,
) -> (ended: Option<ReadWaitOutcomeV1>)
    ensures
        ended == if progress != observed.number() || notified_now != notified_before {
            Some(ReadWaitOutcomeV1::Notified)
        } else {
            None
        },
{
    if progress != observed.get() || notified_now != notified_before {
        Some(ReadWaitOutcomeV1::Notified)
    } else {
        None
    }
}

/// The version that a workspace has been notified of, which only its own scheduler can tell.
pub fn observed_progress(same_workspace: bool, progress: u64) -> (observed: Result<
    ReadNotificationVersionV1,
    ReadNotificationErrorV1,
>)
    ensures
        match observed {
            Ok(version) => same_workspace && version.number() == progress,
            Err(error) => !same_workspace && error == ReadNotificationErrorV1::Unavailable,
        },
{
    if same_workspace {
        Ok(ReadNotificationVersionV1::new(progress))
    } else {
        Err(ReadNotificationErrorV1::Unavailable)
    }
}

/// Whether a job is one of those that a list asks for.
pub open spec fn is_listed(view: JobViewV1, state: Option<JobStateV1>) -> bool {
    state matches Some(state) ==> receipts::public_state(view.state) == state
}

/// The jobs that a list asks for, in the order in which the Store shows them.
pub fn listed_jobs<'a>(views: &'a Vec<JobViewV1>, state: Option<JobStateV1>) -> (listed: Vec<
    &'a JobViewV1,
>)
    ensures
        listed@.map_values(|view: &JobViewV1| *view) == views@.filter(
            |view: JobViewV1| is_listed(view, state),
        ),
{
    let ghost wanted = |view: JobViewV1| is_listed(view, state);
    let mut listed: Vec<&'a JobViewV1> = Vec::new();
    let mut position: usize = 0;
    proof {
        reveal(Seq::filter);
        assert(views@.take(0).filter(wanted) =~= Seq::empty());
        assert(listed@.map_values(|view: &JobViewV1| *view) =~= Seq::<JobViewV1>::empty());
    }
    while position < views.len()
        invariant
            position <= views.len(),
            wanted == (|view: JobViewV1| is_listed(view, state)),
            listed@.map_values(|view: &JobViewV1| *view) == views@.take(position as int).filter(
                wanted,
            ),
        decreases views.len() - position,
    {
        let view = &views[position];
        let ghost before = listed@;
        let show = match state {
            Some(state) => protocol_job_state(view.state) == state,
            None => true,
        };
        proof {
            reveal(Seq::filter);
            assert(views@.take(position + 1).drop_last() =~= views@.take(position as int));
            assert(views@.take(position + 1).last() == *view);
        }
        if show {
            listed.push(view);
            assert(listed@.map_values(|view: &JobViewV1| *view) =~= before.map_values(
                |view: &JobViewV1| *view,
            ).push(*view));
        }
        position = position + 1;
    }
    assert(views@.take(views@.len() as int) =~= views@);
    listed
}

/// The answer to a list of jobs.
pub fn job_list_result(
    jobs: Vec<serde_json::Value>,
) -> (result: serde_json::Map<String, serde_json::Value>)
    ensures
        json::json_members(result) == json::no_members().insert(
            "jobs"@,
            json::JsonTreeV1::List(json::json_trees(jobs@)),
        ),
{
    let mut result = json_map_new();
    json_map_insert(&mut result, "jobs", json_array(jobs));
    result
}

/// The answer to a read of one job: the response to it, under a schema of its own where the
/// response needs one.
pub open spec fn job_status_members(response: json::JsonTreeV1) -> Members {
    let members = json::no_members().insert("job"@, response);
    if terminal::requires_v2_wrapper(response) {
        graph_envelope::with_text(members, "schema"@, "podway.job-result/v2"@)
    } else {
        members
    }
}

/// The answer to a read of one job.
pub fn job_status_result(
    response: serde_json::Value,
) -> (result: serde_json::Map<String, serde_json::Value>)
    ensures
        json::json_members(result) == job_status_members(json::json_tree(response)),
{
    let uses_v2 = terminal_response_requires_v2_wrapper(&response);
    let mut result = json_map_new();
    json_map_insert(&mut result, "job", response);
    if uses_v2 {
        put_text(&mut result, "schema", "podway.job-result/v2");
    }
    result
}

/// What a lookup by idempotency key resolved its workspace to.
#[derive(Clone, Debug, PartialEq, Eq)]
pub enum LookupResolutionV1 {
    /// There is no workspace.
    Missing,
    /// A reset of the workspace was admitted and has not ended.
    ResetMarker { marker: ResetMarkerV1, worktree_root: String },
    /// The workspace has a Store.
    Store,
}

/// What a lookup does next.
#[derive(Clone, Debug, PartialEq, Eq)]
pub enum LookupStepV1 {
    /// The key is not known.
    Unknown,
    /// The key is that of a reset that has not ended.
    Resetting { workspace: WorkspaceOutputV1, job: JobOutputV1 },
    /// The Store has to be asked.
    ReadStore,
}

/// Whether a step is the next one of a lookup.
pub open spec fn is_lookup_step(
    resolution: LookupResolutionV1,
    idempotency_key: Seq<char>,
    step: Result<LookupStepV1, DispatchFailureV1>,
) -> bool {
    match resolution {
        LookupResolutionV1::Missing => step == Ok::<LookupStepV1, DispatchFailureV1>(
            LookupStepV1::Unknown,
        ),
        LookupResolutionV1::Store => step == Ok::<LookupStepV1, DispatchFailureV1>(
            LookupStepV1::ReadStore,
        ),
        LookupResolutionV1::ResetMarker { marker, worktree_root } =>
            if marker.idempotency_key@ != idempotency_key {
                step == Ok::<LookupStepV1, DispatchFailureV1>(LookupStepV1::Unknown)
            } else if !civil_time::has_timestamp(marker.submitted_at_ms as nat) {
                step matches Err(failure) && failure == failures::internal_failure()
            } else {
                step matches Ok(LookupStepV1::Resetting { workspace, job }) && {
                    &&& workspace == (WorkspaceOutputV1 {
                        uuid: marker.target_workspace_uuid,
                        root: worktree_root,
                        latest_workspace_sequence: 1,
                    })
                    &&& job.id == marker.operation_id
                    &&& job.sequence == 1
                    &&& job.state == JobStateV1::Running
                    &&& job.submitted_at@ == civil_time::timestamp(marker.submitted_at_ms as nat)
                    &&& job.claimed_at is None
                    &&& job.finished_at is None
                }
            },
    }
}

/// What a lookup does once its workspace is resolved. A reset that has not ended is a running job,
/// the first of the workspace that it leads to.
pub fn job_lookup_step(resolution: &LookupResolutionV1, idempotency_key: &str) -> (step: Result<
    LookupStepV1,
    DispatchFailureV1,
>)
    ensures
        is_lookup_step(*resolution, idempotency_key@, step),
{
    match resolution {
        LookupResolutionV1::Missing => Ok(LookupStepV1::Unknown),
        LookupResolutionV1::Store => Ok(LookupStepV1::ReadStore),
        LookupResolutionV1::ResetMarker { marker, worktree_root } => {
            if !crate::text::same_text(&marker.idempotency_key, idempotency_key) {
                return Ok(LookupStepV1::Unknown);
            }
            let submitted_at: String = match rfc3339_millis(marker.submitted_at_ms) {
                Ok(text) => text,
                Err(failure) => {
                    return Err(failure);
                },
            };
            Ok(
                LookupStepV1::Resetting {
                    workspace: WorkspaceOutputV1 {
                        uuid: marker.target_workspace_uuid.clone(),
                        root: worktree_root.clone(),
                        latest_workspace_sequence: 1,
                    },
                    job: JobOutputV1 {
                        id: marker.operation_id.clone(),
                        sequence: 1,
                        state: JobStateV1::Running,
                        submitted_at,
                        claimed_at: None,
                        finished_at: None,
                    },
                },
            )
        },
    }
}

/// The answer to a lookup of a key that is not known.
pub fn unknown_lookup_result() -> (result: serde_json::Map<String, serde_json::Value>)
    ensures
        json::json_members(result) == graph_envelope::with_bool(
            json::no_members(),
            "found"@,
            false,
        ),
{
    let mut result = json_map_new();
    put_bool(&mut result, "found", false);
    result
}

/// The answer to a lookup that found the given job.
pub open spec fn found_members(job: Members) -> Members {
    graph_envelope::with_bool(json::no_members(), "found"@, true).insert(
        "job"@,
        json::JsonTreeV1::Record(job),
    )
}

/// The answer to a lookup that found a reset which has not ended.
pub fn resetting_lookup_result(
    marker: &ResetMarkerV1,
    job_document: &serde_json::Value,
) -> (result: Result<serde_json::Map<String, serde_json::Value>, DispatchFailureV1>)
    ensures
        match (result, json::json_tree(*job_document)) {
            (Ok(result), json::JsonTreeV1::Record(job)) => json::json_members(result)
                == found_members(
                graph_envelope::with_text(
                    graph_envelope::with_text(job, "command"@, "workspace.reset_all"@),
                    "request_digest"@,
                    marker.request_digest@,
                ).insert("terminal_response"@, json::JsonTreeV1::Null),
            ),
            (Ok(_), _) => false,
            (Err(failure), tree) => !(tree is Record) && failure == failures::internal_failure(),
        },
{
    match json_as_object(job_document) {
        Some(document) => {
            let mut job = document.clone();
            put_text(&mut job, "command", "workspace.reset_all");
            put_text(&mut job, "request_digest", &marker.request_digest);
            json_map_insert(&mut job, "terminal_response", json_null());
            let mut result = json_map_new();
            put_bool(&mut result, "found", true);
            json_map_insert(&mut result, "job", json_object(job));
            Ok(result)
        },
        None => Err(DispatchFailureV1::new(DispatchFailureKindV1::Internal)),
    }
}

/// What a Store binds an idempotency key to.
#[derive(Clone, Debug, PartialEq, Eq)]
pub struct LookupBindingV1 {
    pub request_digest: String,
    pub terminal_receipt: Option<PersistedTerminalReceiptV1>,
}

/// What a Store tells about an idempotency key.
#[derive(Clone, Debug, PartialEq, Eq)]
pub struct ReconciliationSnapshotV1 {
    pub latest_workspace_sequence: u64,
    pub lookup: Option<LookupBindingV1>,
    pub job: Option<JobViewV1>,
}

/// The job that a lookup found, and the response to it once it has ended.
#[derive(Clone, Debug, PartialEq, Eq)]
pub struct LookupJobV1 {
    pub job: JobOutputV1,
    pub response: Option<TerminalJobResponseV1>,
}

/// Whether a lookup found what the Store tells about the key: the job where it is still there, and
/// otherwise the receipt that outlives it. Both have to be of the request that the key is bound to.
pub open spec fn is_lookup(
    snapshot: ReconciliationSnapshotV1,
    evidence: FrozenEnvelopeEvidenceV1,
    found: Result<Option<LookupJobV1>, DispatchFailureV1>,
) -> bool {
    match snapshot.lookup {
        None => found == Ok::<Option<LookupJobV1>, DispatchFailureV1>(None),
        Some(binding) => match snapshot.job {
            Some(view) => if view.job.request_digest@ != binding.request_digest@ {
                found matches Err(failure) && failure == failures::integrity_failure()
            } else {
                match found {
                    Ok(Some(found)) => terminal::is_job_read(
                        view,
                        evidence,
                        Ok::<(JobOutputV1, Option<TerminalJobResponseV1>), DispatchFailureV1>(
                            (found.job, found.response),
                        ),
                    ),
                    Ok(None) => false,
                    Err(failure) => terminal::is_job_read(
                        view,
                        evidence,
                        Err::<(JobOutputV1, Option<TerminalJobResponseV1>), DispatchFailureV1>(
                            failure,
                        ),
                    ),
                }
            },
            None => match binding.terminal_receipt {
                None => found matches Err(failure) && failure == failures::integrity_failure(),
                Some(receipt) => match found {
                    Ok(Some(found)) => found.response matches Some(response)
                        && terminal::is_receipt_read(
                        receipt,
                        binding.request_digest@,
                        evidence,
                        Ok::<(JobOutputV1, TerminalJobResponseV1), DispatchFailureV1>(
                            (found.job, response),
                        ),
                    ),
                    Ok(None) => false,
                    Err(failure) => terminal::is_receipt_read(
                        receipt,
                        binding.request_digest@,
                        evidence,
                        Err::<(JobOutputV1, TerminalJobResponseV1), DispatchFailureV1>(failure),
                    ),
                },
            },
        },
    }
}

/// What a lookup finds in what the Store tells about the key.
pub fn job_lookup(
    snapshot: &ReconciliationSnapshotV1,
    evidence: FrozenEnvelopeEvidenceV1,
) -> (found: Result<Option<LookupJobV1>, DispatchFailureV1>)
    ensures
        is_lookup(*snapshot, evidence, found),
{
    let binding = match &snapshot.lookup {
        Some(binding) => binding,
        None => {
            return Ok(None);
        },
    };
    match &snapshot.job {
        Some(view) => {
            if view.job.request_digest != binding.request_digest {
                return Err(terminal_replay_integrity_failure());
            }
            match job_read_projection(view, evidence) {
                Ok((job, response)) => Ok(Some(LookupJobV1 { job, response })),
                Err(failure) => Err(failure),
            }
        },
        None => match &binding.terminal_receipt {
            Some(receipt) => match receipt_only_job_projection(
                receipt,
                &binding.request_digest,
                evidence,
            ) {
                Ok((job, response)) => Ok(Some(LookupJobV1 { job, response: Some(response) })),
                Err(failure) => Err(failure),
            },
            None => Err(terminal_replay_integrity_failure()),
        },
    }
}

/// The command of the job that a lookup found.
pub open spec fn looked_up_command(snapshot: ReconciliationSnapshotV1) -> Option<
    crate::store::CommandV1,
> {
    match snapshot.job {
        Some(view) => Some(view.command),
        None => match snapshot.lookup {
            Some(binding) => match binding.terminal_receipt {
                Some(receipt) => receipt.lookup_command,
                None => None,
            },
            None => None,
        },
    }
}

/// Whether what the Store tells about a key is of the request that the key is bound to.
pub open spec fn lookup_is_bound(snapshot: ReconciliationSnapshotV1) -> bool {
    snapshot.lookup matches Some(binding) && match snapshot.job {
        Some(view) => view.job.request_digest@ == binding.request_digest@,
        None => binding.terminal_receipt matches Some(receipt) && receipt.job.request_digest@
            == binding.request_digest@ && receipt.lookup_command is Some,
    }
}

/// The answer to a lookup that found the given job of the given command, under a schema of its own
/// where the response needs one.
pub open spec fn lookup_members(
    job: Members,
    command: crate::store::CommandV1,
    response: json::JsonTreeV1,
    request_digest: Seq<char>,
) -> Members {
    let members = found_members(
        graph_envelope::with_text(
            graph_envelope::with_text(
                job,
                "command"@,
                receipts::command_name(command)@,
            ).insert("terminal_response"@, response),
            "request_digest"@,
            request_digest,
        ),
    );
    if terminal::requires_v2_wrapper(response) {
        graph_envelope::with_text(members, "schema"@, "podway.job-lookup-result/v2"@)
    } else {
        members
    }
}

/// The answer to a lookup that found a job, given that job and the response to it, written out.
pub fn job_lookup_result(
    snapshot: &ReconciliationSnapshotV1,
    job_document: &serde_json::Value,
    terminal_response: serde_json::Value,
) -> (result: Result<serde_json::Map<String, serde_json::Value>, DispatchFailureV1>)
    ensures
        match (result, json::json_tree(*job_document)) {
            (Ok(result), json::JsonTreeV1::Record(job)) => lookup_is_bound(*snapshot) && (
            snapshot.lookup matches Some(binding) && looked_up_command(*snapshot) matches Some(
                command,
            ) && json::json_members(result) == lookup_members(
                job,
                command,
                json::json_tree(terminal_response),
                binding.request_digest@,
            )),
            (Ok(_), _) => false,
            (Err(failure), tree) => if !lookup_is_bound(*snapshot) {
                failure == failures::integrity_failure()
            } else {
                !(tree is Record) && failure == failures::internal_failure()
            },
        },
{
    let binding = match &snapshot.lookup {
        Some(binding) => binding,
        None => {
            return Err(terminal_replay_integrity_failure());
        },
    };
    let uses_v2 = terminal_response_requires_v2_wrapper(&terminal_response);
    let value = match &snapshot.job {
        Some(view) => {
            if view.job.request_digest != binding.request_digest {
                return Err(terminal_replay_integrity_failure());
            }
            job_result_value(view, job_document, terminal_response)
        },
        None => match &binding.terminal_receipt {
            Some(receipt) => receipt_only_job_result_value(
                receipt,
                &binding.request_digest,
                job_document,
                terminal_response,
            ),
            None => Err(terminal_replay_integrity_failure()),
        },
    };
    let value = match value {
        Ok(value) => value,
        Err(failure) => {
            return Err(failure);
        },
    };
    match json_as_object(&value) {
        Some(object) => {
            let mut job = object.clone();
            put_text(&mut job, "request_digest", &binding.request_digest);
            proof {
                if snapshot.job is None {
                    assert(json::json_members(job) =~= json::json_members(*object));
                }
            }
            let mut result = json_map_new();
            put_bool(&mut result, "found", true);
            json_map_insert(&mut result, "job", json_object(job));
            if uses_v2 {
                put_text(&mut result, "schema", "podway.job-lookup-result/v2");
            }
            Ok(result)
        },
        None => Err(DispatchFailureV1::new(DispatchFailureKindV1::Internal)),
    }
}

/// What a cancellation is asked of the Store with, and how the job is shown once it is cancelled.
#[derive(Clone, Debug, PartialEq, Eq)]
pub struct CancellationPlanV1 {
    pub expected_sequence: u64,
    pub committed_job: JobOutputV1,
}

/// What a cancellation found.
#[derive(Clone, Copy, Debug, PartialEq, Eq, Structural)]
pub enum CancelOutcomeV1 {
    Cancelled,
    AlreadyTerminal,
}

/// A cancelled job, and the warning that goes with it where its scheduler could not be told.
#[derive(Clone, Debug, PartialEq, Eq)]
pub struct CancelledJobV1 {
    pub job: JobOutputV1,
    pub result: serde_json::Map<String, serde_json::Value>,
    pub warnings: Vec<serde_json::Value>,
}

/// Only a queued job can be cancelled, and so only a queued job may be expected.
pub fn cancel_is_allowed(expected_state: JobStateV1) -> (allowed: Result<(), DispatchFailureV1>)
    ensures
        allowed == if expected_state == JobStateV1::Queued {
            Ok(())
        } else {
            Err(dispatch::bare_failure(DispatchFailureKindV1::JobNotCancellable))
        },
{
    if expected_state != JobStateV1::Queued {
        return Err(DispatchFailureV1::new(DispatchFailureKindV1::JobNotCancellable));
    }
    Ok(())
}

/// Whether a plan cancels the job that the Store shows.
pub open spec fn is_cancellation_plan(
    read: Result<Option<JobViewV1>, StoreErrorV1>,
    now: u64,
    plan: Result<CancellationPlanV1, DispatchFailureV1>,
) -> bool {
    match read {
        Err(error) => plan matches Err(failure) && failures::is_store_failure(error, failure),
        Ok(None) => plan matches Err(failure) && failure == dispatch::bare_failure(
            DispatchFailureKindV1::JobNotFound,
        ),
        Ok(Some(view)) => if !(view.state is Queued) {
            plan matches Err(failure) && failure == dispatch::bare_failure(
                DispatchFailureKindV1::JobNotCancellable,
            )
        } else if !civil_time::has_timestamp(view.submitted_at as nat)
            || !civil_time::has_timestamp(now as nat) {
            plan matches Err(failure) && failure == failures::internal_failure()
        } else {
            plan matches Ok(plan) && {
                &&& plan.expected_sequence == view.job.identity_sequence
                &&& plan.committed_job.id == view.job.job_id
                &&& plan.committed_job.sequence == view.job.identity_sequence
                &&& plan.committed_job.state == JobStateV1::Cancelled
                &&& plan.committed_job.submitted_at@ == civil_time::timestamp(
                    view.submitted_at as nat,
                )
                &&& plan.committed_job.claimed_at is None
                &&& receipts::is_optional_timestamp(plan.committed_job.finished_at, Some(now))
            }
        },
    }
}

/// How the job that the Store shows is cancelled at the given instant.
pub fn cancellation_plan(read: Result<Option<JobViewV1>, StoreErrorV1>, now: u64) -> (plan: Result<
    CancellationPlanV1,
    DispatchFailureV1,
>)
    ensures
        is_cancellation_plan(read, now, plan),
{
    let view = match read {
        Ok(Some(view)) => view,
        Ok(None) => {
            return Err(DispatchFailureV1::new(DispatchFailureKindV1::JobNotFound));
        },
        Err(error) => {
            return Err(map_store_error(error));
        },
    };
    if protocol_job_state(view.state) != JobStateV1::Queued {
        return Err(DispatchFailureV1::new(DispatchFailureKindV1::JobNotCancellable));
    }
    let submitted_at: String = match rfc3339_millis(view.submitted_at) {
        Ok(text) => text,
        Err(failure) => {
            return Err(failure);
        },
    };
    let finished_at: String = match rfc3339_millis(now) {
        Ok(text) => text,
        Err(failure) => {
            return Err(failure);
        },
    };
    Ok(
        CancellationPlanV1 {
            expected_sequence: view.job.identity_sequence,
            committed_job: JobOutputV1 {
                id: view.job.job_id,
                sequence: view.job.identity_sequence,
                state: JobStateV1::Cancelled,
                submitted_at,
                claimed_at: None,
                finished_at: Some(finished_at),
            },
        },
    )
}

/// The warning that a scheduler could not be told.
pub open spec fn notification_warning() -> json::JsonTreeV1 {
    json::JsonTreeV1::Record(
        graph_envelope::with_text(
            graph_envelope::with_text(
                json::no_members(),
                "code"@,
                "scheduler_notification_failed"@,
            ),
            "severity"@,
            "warning"@,
        ),
    )
}

/// What a cancellation comes to. There is no outcome where the workspace does not let its jobs be
/// claimed. Once the Store has committed it, a scheduler that could not be told is worth a warning
/// and no more.
pub fn cancellation_outcome(
    plan: CancellationPlanV1,
    outcome: Option<Result<CancelOutcomeV1, StoreErrorV1>>,
    scheduler_was_told: bool,
) -> (cancelled: Result<CancelledJobV1, DispatchFailureV1>)
    ensures
        match outcome {
            None => cancelled matches Err(failure) && failure == dispatch::bare_failure(
                DispatchFailureKindV1::WorkspaceMaintenance,
            ),
            Some(Err(error)) => cancelled matches Err(failure) && failures::is_cancel_failure(
                error,
                failure,
            ),
            Some(Ok(CancelOutcomeV1::AlreadyTerminal)) => cancelled matches Err(failure) && failure
                == dispatch::bare_failure(DispatchFailureKindV1::JobNotCancellable),
            Some(Ok(CancelOutcomeV1::Cancelled)) => cancelled matches Ok(cancelled) && {
                &&& cancelled.job == plan.committed_job
                &&& json::json_members(cancelled.result) == graph_envelope::with_bool(
                    json::no_members(),
                    "cancelled"@,
                    true,
                )
                &&& json::json_trees(cancelled.warnings@) == if scheduler_was_told {
                    Seq::<json::JsonTreeV1>::empty()
                } else {
                    seq![notification_warning()]
                }
            },
        },
{
    match outcome {
        None => Err(DispatchFailureV1::new(DispatchFailureKindV1::WorkspaceMaintenance)),
        Some(Err(error)) => Err(map_cancel_error(error)),
        Some(Ok(CancelOutcomeV1::AlreadyTerminal)) => Err(
            DispatchFailureV1::new(DispatchFailureKindV1::JobNotCancellable),
        ),
        Some(Ok(CancelOutcomeV1::Cancelled)) => {
            let mut result = json_map_new();
            put_bool(&mut result, "cancelled", true);
            let mut warnings: Vec<serde_json::Value> = Vec::new();
            if !scheduler_was_told {
                let mut warning = json_map_new();
                put_text(&mut warning, "code", "scheduler_notification_failed");
                put_text(&mut warning, "severity", "warning");
                warnings.push(json_object(warning));
            }
            assert(json::json_trees(warnings@) =~= if scheduler_was_told {
                Seq::<json::JsonTreeV1>::empty()
            } else {
                seq![notification_warning()]
            });
            Ok(CancelledJobV1 { job: plan.committed_job, result, warnings })
        },
    }
}

/// The jobs that a list asks for are those of the Store in the asked state, or all where none is asked for,
/// and no others.
pub proof fn a_list_shows_the_jobs_it_asks_for(
    views: Vec<JobViewV1>,
    state: Option<JobStateV1>,
    listed: Vec<&JobViewV1>,
    view: JobViewV1,
)
    requires
        call_ensures(listed_jobs, (&views, state), listed),
    ensures
        listed@.contains(&view) <==> views@.contains(view) && (match state {
            None => true,
            Some(JobStateV1::Queued) => view.state is Queued,
            Some(JobStateV1::Running) => view.state is Running,
            Some(JobStateV1::Succeeded) => view.state is Succeeded,
            Some(JobStateV1::Failed) => view.state is Failed,
            Some(JobStateV1::Cancelled) => view.state is Cancelled,
        }),
        listed@.len() <= views@.len(),
{
    let wanted = |view: JobViewV1| is_listed(view, state);
    let shown = listed@.map_values(|view: &JobViewV1| *view);
    assert(shown == views@.filter(wanted));
    views@.filter_lemma(wanted);
    assert(shown.len() == listed@.len());
    if listed@.contains(&view) {
        let i = choose|i: int| 0 <= i < listed@.len() && listed@[i] == &view;
        assert(shown[i] == view);
        assert(views@.filter(wanted).contains(view));
        views@.lemma_filter_contains_rev(wanted, view);
        assert(wanted(views@.filter(wanted)[i]));
    }
    if views@.contains(view) && is_listed(view, state) {
        let i = choose|i: int| 0 <= i < views@.len() && views@[i] == view;
        assert(wanted(views@[i]));
        assert(views@.filter(wanted).contains(views@[i]));
        let j = choose|j: int| 0 <= j < shown.len() && shown[j] == view;
        assert(listed@[j] == &view);
    }
}

} // verus!
