//! Jobs and terminal receipts as responses show them.

use crate::civil_time;
use crate::dispatch::{
    DispatchFailureKindV1, DispatchFailureV1, JobOutputV1, JobStateV1, WorkspaceOutputV1,
};
use crate::production::failures::{terminal_replay_integrity_failure, TerminalCommandKindV1};
use crate::production::failures;
use crate::store::{
    AdmitOutcomeV1, CommandV1, JobReceiptOrTerminalV1, JobViewV1, PersistedTerminalJobProjectionV1,
    PersistedTerminalJobStateV1, PersistedTerminalReceiptV1, StoreJobStateV1,
};
use vstd::prelude::*;

verus! {

/// The request that a terminal response answers, and when it was answered.
#[derive(Clone, Debug, PartialEq, Eq)]
pub struct TerminalResponseContextV1 {
    pub request_id: String,
    pub command: String,
    pub generated_at: String,
    pub workspace: WorkspaceOutputV1,
}

/// The public name of a durable command.
pub open spec fn command_name(command: CommandV1) -> &'static str {
    match command {
        CommandV1::WorkspaceInitialize => "workspace.init",
        CommandV1::WorkspaceResetAll => "workspace.reset_all",
        CommandV1::SessionStart => "session.start",
        CommandV1::SessionStartReplace => "session.start_replace",
        CommandV1::SessionComplete => "session.complete",
        CommandV1::SessionSkip => "session.skip",
        CommandV1::SessionRetry => "session.retry",
        CommandV1::SessionReturn => "session.return",
        CommandV1::SessionBlock => "session.block",
        CommandV1::SessionUnblock => "session.unblock",
        CommandV1::SessionCancel => "session.cancel",
        CommandV1::SessionReopen => "session.reopen",
        CommandV1::SessionReset => "session.reset",
        CommandV1::SessionDecide => "session.decide",
        CommandV1::SessionRework => "session.rework",
        CommandV1::GoalDefine => "goal.define",
        CommandV1::GoalRevise => "goal.revise",
        CommandV1::GoalAssessCriterion => "goal.assess_criterion",
        CommandV1::ItemCheck => "item.check",
        CommandV1::ItemUncheck => "item.uncheck",
        CommandV1::ItemSet => "item.set",
        CommandV1::ItemAdd => "item.add",
        CommandV1::ItemRemove => "item.remove",
        CommandV1::ItemAttach => "item.attach",
        CommandV1::ItemClear => "item.clear",
    }
}

/// The public name of a durable command.
pub fn durable_command_name(command: CommandV1) -> (name: &'static str)
    ensures
        name == command_name(command),
{
    match command {
        CommandV1::WorkspaceInitialize => "workspace.init",
        CommandV1::WorkspaceResetAll => "workspace.reset_all",
        CommandV1::SessionStart => "session.start",
        CommandV1::SessionStartReplace => "session.start_replace",
        CommandV1::SessionComplete => "session.complete",
        CommandV1::SessionSkip => "session.skip",
        CommandV1::SessionRetry => "session.retry",
        CommandV1::SessionReturn => "session.return",
        CommandV1::SessionBlock => "session.block",
        CommandV1::SessionUnblock => "session.unblock",
        CommandV1::SessionCancel => "session.cancel",
        CommandV1::SessionReopen => "session.reopen",
        CommandV1::SessionReset => "session.reset",
        CommandV1::SessionDecide => "session.decide",
        CommandV1::SessionRework => "session.rework",
        CommandV1::GoalDefine => "goal.define",
        CommandV1::GoalRevise => "goal.revise",
        CommandV1::GoalAssessCriterion => "goal.assess_criterion",
        CommandV1::ItemCheck => "item.check",
        CommandV1::ItemUncheck => "item.uncheck",
        CommandV1::ItemSet => "item.set",
        CommandV1::ItemAdd => "item.add",
        CommandV1::ItemRemove => "item.remove",
        CommandV1::ItemAttach => "item.attach",
        CommandV1::ItemClear => "item.clear",
    }
}

/// What a durable command asks for, as far as its failures are concerned.
pub open spec fn terminal_kind(command: CommandV1) -> TerminalCommandKindV1 {
    match command {
        CommandV1::SessionStart | CommandV1::SessionStartReplace => TerminalCommandKindV1::Start,
        CommandV1::ItemCheck
        | CommandV1::ItemUncheck
        | CommandV1::ItemSet
        | CommandV1::ItemAdd
        | CommandV1::ItemRemove
        | CommandV1::ItemAttach
        | CommandV1::ItemClear => TerminalCommandKindV1::ItemMutation,
        CommandV1::SessionReset => TerminalCommandKindV1::SessionReset,
        CommandV1::SessionSkip => TerminalCommandKindV1::Skip,
        CommandV1::SessionReturn => TerminalCommandKindV1::Return,
        CommandV1::SessionReopen => TerminalCommandKindV1::Reopen,
        CommandV1::SessionDecide => TerminalCommandKindV1::Decision,
        CommandV1::SessionRework => TerminalCommandKindV1::Rework,
        CommandV1::GoalDefine => TerminalCommandKindV1::GoalDefinition,
        CommandV1::GoalRevise => TerminalCommandKindV1::GoalRevision,
        CommandV1::GoalAssessCriterion => TerminalCommandKindV1::CriterionAssessment,
        _ => TerminalCommandKindV1::Other,
    }
}

/// What a durable command asks for, as far as its failures are concerned.
pub fn terminal_command_kind_from_store(command: CommandV1) -> (kind: TerminalCommandKindV1)
    ensures
        kind == terminal_kind(command),
{
    match command {
        CommandV1::SessionStart | CommandV1::SessionStartReplace => TerminalCommandKindV1::Start,
        CommandV1::ItemCheck
        | CommandV1::ItemUncheck
        | CommandV1::ItemSet
        | CommandV1::ItemAdd
        | CommandV1::ItemRemove
        | CommandV1::ItemAttach
        | CommandV1::ItemClear => TerminalCommandKindV1::ItemMutation,
        CommandV1::SessionReset => TerminalCommandKindV1::SessionReset,
        CommandV1::SessionSkip => TerminalCommandKindV1::Skip,
        CommandV1::SessionReturn => TerminalCommandKindV1::Return,
        CommandV1::SessionReopen => TerminalCommandKindV1::Reopen,
        CommandV1::SessionDecide => TerminalCommandKindV1::Decision,
        CommandV1::SessionRework => TerminalCommandKindV1::Rework,
        CommandV1::GoalDefine => TerminalCommandKindV1::GoalDefinition,
        CommandV1::GoalRevise => TerminalCommandKindV1::GoalRevision,
        CommandV1::GoalAssessCriterion => TerminalCommandKindV1::CriterionAssessment,
        CommandV1::WorkspaceInitialize
        | CommandV1::WorkspaceResetAll
        | CommandV1::SessionComplete
        | CommandV1::SessionRetry
        | CommandV1::SessionBlock
        | CommandV1::SessionUnblock
        | CommandV1::SessionCancel => TerminalCommandKindV1::Other,
    }
}

/// The public state of a job.
pub open spec fn public_state(state: StoreJobStateV1) -> JobStateV1 {
    match state {
        StoreJobStateV1::Queued => JobStateV1::Queued,
        StoreJobStateV1::Running => JobStateV1::Running,
        StoreJobStateV1::Succeeded => JobStateV1::Succeeded,
        StoreJobStateV1::Failed => JobStateV1::Failed,
        StoreJobStateV1::Cancelled => JobStateV1::Cancelled,
    }
}

/// The public state of a job that has ended.
pub open spec fn public_terminal_state(state: PersistedTerminalJobStateV1) -> JobStateV1 {
    match state {
        PersistedTerminalJobStateV1::Succeeded => JobStateV1::Succeeded,
        PersistedTerminalJobStateV1::Failed => JobStateV1::Failed,
        PersistedTerminalJobStateV1::Cancelled => JobStateV1::Cancelled,
    }
}

/// The public state of a job.
pub fn protocol_job_state(state: StoreJobStateV1) -> (public: JobStateV1)
    ensures
        public == public_state(state),
{
    match state {
        StoreJobStateV1::Queued => JobStateV1::Queued,
        StoreJobStateV1::Running => JobStateV1::Running,
        StoreJobStateV1::Succeeded => JobStateV1::Succeeded,
        StoreJobStateV1::Failed => JobStateV1::Failed,
        StoreJobStateV1::Cancelled => JobStateV1::Cancelled,
    }
}

/// The timestamp of an instant. An instant that has none is a defect.
pub fn rfc3339_millis(value: u64) -> (result: Result<String, DispatchFailureV1>)
    ensures
        match result {
            Ok(text) => civil_time::has_timestamp(value as nat) && text@ == civil_time::timestamp(
                value as nat,
            ),
            Err(failure) => !civil_time::has_timestamp(value as nat) && failure
                == failures::internal_failure(),
        },
{
    match civil_time::timestamp_text(value) {
        Some(text) => Ok(text),
        None => Err(DispatchFailureV1::new(DispatchFailureKindV1::Internal)),
    }
}

/// Whether an optional instant, where there is one, has a timestamp.
pub open spec fn optional_has_timestamp(value: Option<u64>) -> bool {
    value matches Some(value) ==> civil_time::has_timestamp(value as nat)
}

/// Whether a text is the timestamp of an optional instant, and absent where the instant is.
pub open spec fn is_optional_timestamp(text: Option<String>, value: Option<u64>) -> bool {
    match (text, value) {
        (Some(text), Some(value)) => text@ == civil_time::timestamp(value as nat),
        (None, None) => true,
        _ => false,
    }
}

fn optional_rfc3339_millis(value: Option<u64>) -> (result: Result<
    Option<String>,
    DispatchFailureV1,
>)
    ensures
        match result {
            Ok(text) => optional_has_timestamp(value) && is_optional_timestamp(text, value),
            Err(failure) => !optional_has_timestamp(value) && failure
                == failures::internal_failure(),
        },
{
    match value {
        Some(value) => match rfc3339_millis(value) {
            Ok(text) => Ok(Some(text)),
            Err(failure) => Err(failure),
        },
        None => Ok(None),
    }
}

/// Whether every instant of a terminal job has a timestamp.
pub open spec fn projection_has_timestamps(projection: PersistedTerminalJobProjectionV1) -> bool {
    civil_time::has_timestamp(projection.submitted_at as nat) && optional_has_timestamp(
        projection.claimed_at,
    ) && civil_time::has_timestamp(projection.finished_at as nat)
}

/// Why a terminal receipt has no public job, if it has none.
pub open spec fn terminal_output_failure(receipt: PersistedTerminalReceiptV1) -> Option<
    DispatchFailureV1,
> {
    match receipt.job_projection {
        None => Some(failures::integrity_failure()),
        Some(projection) => if projection_has_timestamps(projection) {
            None
        } else {
            Some(failures::internal_failure())
        },
    }
}

/// Whether a public job is the one that a terminal receipt stands for.
pub open spec fn is_terminal_output(
    receipt: PersistedTerminalReceiptV1,
    output: JobOutputV1,
) -> bool {
    receipt.job_projection matches Some(projection) && output.id@ == receipt.job.job_id@
        && output.sequence == receipt.job.identity_sequence && output.state
        == public_terminal_state(projection.state) && output.submitted_at@
        == civil_time::timestamp(projection.submitted_at as nat) && is_optional_timestamp(
        output.claimed_at,
        projection.claimed_at,
    ) && is_optional_timestamp(output.finished_at, Some(projection.finished_at))
}

/// The public job that a terminal receipt stands for. It needs no live job.
pub fn job_output_from_terminal_receipt(receipt: &PersistedTerminalReceiptV1) -> (result: Result<
    JobOutputV1,
    DispatchFailureV1,
>)
    ensures
        match result {
            Ok(output) => terminal_output_failure(*receipt) is None && is_terminal_output(
                *receipt,
                output,
            ),
            Err(failure) => terminal_output_failure(*receipt) == Some(failure),
        },
{
    let projection = match &receipt.job_projection {
        Some(projection) => projection,
        None => {
            return Err(terminal_replay_integrity_failure());
        },
    };
    let state = match projection.state {
        PersistedTerminalJobStateV1::Succeeded => JobStateV1::Succeeded,
        PersistedTerminalJobStateV1::Failed => JobStateV1::Failed,
        PersistedTerminalJobStateV1::Cancelled => JobStateV1::Cancelled,
    };
    let submitted_at: String = match rfc3339_millis(projection.submitted_at) {
        Ok(text) => text,
        Err(failure) => {
            return Err(failure);
        },
    };
    let claimed_at = match optional_rfc3339_millis(projection.claimed_at) {
        Ok(text) => text,
        Err(failure) => {
            return Err(failure);
        },
    };
    let finished_at: String = match rfc3339_millis(projection.finished_at) {
        Ok(text) => text,
        Err(failure) => {
            return Err(failure);
        },
    };
    Ok(
        JobOutputV1 {
            id: receipt.job.job_id.clone(),
            sequence: receipt.job.identity_sequence,
            state,
            submitted_at,
            claimed_at,
            finished_at: Some(finished_at),
        },
    )
}

/// Whether every instant of a job has a timestamp.
pub open spec fn view_has_timestamps(view: JobViewV1) -> bool {
    civil_time::has_timestamp(view.submitted_at as nat) && optional_has_timestamp(view.claimed_at)
        && optional_has_timestamp(view.finished_at)
}

/// Whether a public job is the one that a view shows.
pub open spec fn is_view_output(view: JobViewV1, output: JobOutputV1) -> bool {
    output.id == view.job.job_id && output.sequence == view.job.identity_sequence && output.state
        == public_state(view.state) && output.submitted_at@ == civil_time::timestamp(
        view.submitted_at as nat,
    ) && is_optional_timestamp(output.claimed_at, view.claimed_at) && is_optional_timestamp(
        output.finished_at,
        view.finished_at,
    )
}

/// The public job that a view shows. An instant without a timestamp is a defect.
pub fn job_output(view: &JobViewV1) -> (result: Result<JobOutputV1, DispatchFailureV1>)
    ensures
        match result {
            Ok(output) => view_has_timestamps(*view) && is_view_output(*view, output),
            Err(failure) => !view_has_timestamps(*view) && failure == failures::internal_failure(),
        },
{
    let submitted_at: String = match rfc3339_millis(view.submitted_at) {
        Ok(text) => text,
        Err(failure) => {
            return Err(failure);
        },
    };
    let claimed_at = match optional_rfc3339_millis(view.claimed_at) {
        Ok(text) => text,
        Err(failure) => {
            return Err(failure);
        },
    };
    let finished_at = match optional_rfc3339_millis(view.finished_at) {
        Ok(text) => text,
        Err(failure) => {
            return Err(failure);
        },
    };
    Ok(
        JobOutputV1 {
            id: view.job.job_id.clone(),
            sequence: view.job.identity_sequence,
            state: protocol_job_state(view.state),
            submitted_at,
            claimed_at,
            finished_at,
        },
    )
}

/// The terminal receipt that an admission found.
pub open spec fn replayed_receipt(admission: AdmitOutcomeV1) -> Option<PersistedTerminalReceiptV1> {
    match admission {
        AdmitOutcomeV1::Existing(JobReceiptOrTerminalV1::TerminalReceipt(receipt)) => Some(receipt),
        _ => None,
    }
}

/// The terminal receipt that an admission found.
pub fn terminal_replay(admission: &AdmitOutcomeV1) -> (receipt: Option<&PersistedTerminalReceiptV1>)
    ensures
        match receipt {
            Some(receipt) => replayed_receipt(*admission) == Some(*receipt),
            None => replayed_receipt(*admission) is None,
        },
{
    match admission {
        AdmitOutcomeV1::Existing(JobReceiptOrTerminalV1::TerminalReceipt(receipt)) => Some(receipt),
        AdmitOutcomeV1::New(_)
        | AdmitOutcomeV1::Existing(JobReceiptOrTerminalV1::JobReceipt(_)) => None,
    }
}

/// The job that an admission which did not find a terminal receipt has to read.
pub fn admitted_job_id(admission: &AdmitOutcomeV1) -> (job_id: Result<&String, DispatchFailureV1>)
    ensures
        match job_id {
            Ok(job_id) => replayed_receipt(*admission) is None && *job_id == failures::receipt_of(
                *admission,
            ).job_id,
            Err(failure) => replayed_receipt(*admission) is Some && failure
                == failures::integrity_failure(),
        },
{
    match admission {
        AdmitOutcomeV1::New(receipt) => Ok(&receipt.job_id),
        AdmitOutcomeV1::Existing(JobReceiptOrTerminalV1::JobReceipt(receipt)) => Ok(
            &receipt.job_id,
        ),
        AdmitOutcomeV1::Existing(JobReceiptOrTerminalV1::TerminalReceipt(_)) => Err(
            terminal_replay_integrity_failure(),
        ),
    }
}

/// Why the context of a terminal response cannot be told, if it cannot.
pub open spec fn response_context_failure(receipt: PersistedTerminalReceiptV1) -> Option<
    DispatchFailureV1,
> {
    match (receipt.response_context, receipt.job_projection) {
        (None, _) => None,
        (Some(_), None) => Some(failures::integrity_failure()),
        (Some(_), Some(projection)) => if civil_time::has_timestamp(
            projection.finished_at as nat,
        ) {
            None
        } else {
            Some(failures::internal_failure())
        },
    }
}

/// Whether a context is the one that a terminal receipt was made for.
pub open spec fn is_response_context(
    receipt: PersistedTerminalReceiptV1,
    context: TerminalResponseContextV1,
) -> bool {
    receipt.response_context matches Some(persisted) && receipt.job_projection matches Some(
        projection,
    ) && context.request_id == persisted.request_id && context.command == persisted.command
        && context.generated_at@ == civil_time::timestamp(projection.finished_at as nat)
        && context.workspace == (WorkspaceOutputV1 {
        uuid: persisted.workspace_uuid,
        root: persisted.workspace_root,
        latest_workspace_sequence: persisted.workspace_sequence,
    })
}

/// The context that a terminal receipt was made for, if it was made for a request. The response is
/// dated by the end of its job.
pub fn terminal_response_context(receipt: &PersistedTerminalReceiptV1) -> (result: Result<
    Option<TerminalResponseContextV1>,
    DispatchFailureV1,
>)
    ensures
        match result {
            Ok(Some(context)) => response_context_failure(*receipt) is None && is_response_context(
                *receipt,
                context,
            ),
            Ok(None) => receipt.response_context is None,
            Err(failure) => response_context_failure(*receipt) == Some(failure),
        },
{
    let context = match &receipt.response_context {
        Some(context) => context,
        None => {
            return Ok(None);
        },
    };
    let projection = match &receipt.job_projection {
        Some(projection) => projection,
        None => {
            return Err(terminal_replay_integrity_failure());
        },
    };
    let generated_at: String = match rfc3339_millis(projection.finished_at) {
        Ok(text) => text,
        Err(failure) => {
            return Err(failure);
        },
    };
    Ok(
        Some(
            TerminalResponseContextV1 {
                request_id: context.request_id.clone(),
                command: context.command.clone(),
                generated_at,
                workspace: WorkspaceOutputV1 {
                    uuid: context.workspace_uuid.clone(),
                    root: context.workspace_root.clone(),
                    latest_workspace_sequence: context.workspace_sequence,
                },
            },
        ),
    )
}

} // verus!
