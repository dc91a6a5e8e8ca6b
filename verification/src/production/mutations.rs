//! What the submission of a mutation, and a reset of a whole workspace, are answered with.

use crate::dispatch;
use crate::dispatch::{DispatchFailureKindV1, DispatchFailureV1, JobOutputV1};
use crate::execution::ExecutionErrorV1;
use crate::production::failures;
use crate::production::failures::{
    admission_receipt, map_reset_preparation_error, map_store_error,
    terminal_replay_integrity_failure, TerminalCommandKindV1,
};
use crate::production::receipts;
use crate::production::receipts::{
    job_output, job_output_from_terminal_receipt, terminal_replay, terminal_response_context,
    TerminalResponseContextV1,
};
use crate::production::terminal;
use crate::production::terminal::{terminal_result_for_kind, DispatcherTerminalResultV1};
use crate::protocol::SliceCommandV1;
use crate::store;
use crate::store::{
    same_identity, AdmitOutcomeV1, DurableWorktreeIdentityV1, JobViewV1,
    PersistedTerminalReceiptV1, StoreErrorV1,
};
use crate::worker::{WorkerSubmissionV1, WorkerWaitResultV1};
use crate::workspace::ResetMarkerV1;
use vstd::prelude::*;

verus! {

/// What a mutation is answered with.
#[derive(Clone, Debug, PartialEq, Eq)]
pub enum MutationDispatchOutcomeV1 {
    Terminal {
        job: JobOutputV1,
        result: DispatcherTerminalResultV1,
        response_context: Option<TerminalResponseContextV1>,
    },
    TimedOut { job: JobOutputV1 },
    Detached { job: JobOutputV1, procedure_digest: Option<String> },
}

/// What a command of a request is, as far as its failures are concerned.
pub open spec fn slice_command_kind(command: SliceCommandV1) -> TerminalCommandKindV1 {
    if crate::protocol::is_item_mutation(command) {
        TerminalCommandKindV1::ItemMutation
    } else {
        match command {
            SliceCommandV1::SessionStart(_) | SliceCommandV1::SessionStartReplace { .. } =>
                TerminalCommandKindV1::Start,
            SliceCommandV1::SessionReset(_) => TerminalCommandKindV1::SessionReset,
            SliceCommandV1::SessionSkip => TerminalCommandKindV1::Skip,
            SliceCommandV1::SessionReturn(_) => TerminalCommandKindV1::Return,
            SliceCommandV1::SessionReopen(_) => TerminalCommandKindV1::Reopen,
            _ => TerminalCommandKindV1::Other,
        }
    }
}

/// What a command of a request is, as far as its failures are concerned.
pub fn terminal_command_kind(command: &SliceCommandV1) -> (kind: TerminalCommandKindV1)
    ensures
        kind == slice_command_kind(*command),
{
    match command {
        SliceCommandV1::ItemCheck
        | SliceCommandV1::ItemUncheck
        | SliceCommandV1::ItemSet
        | SliceCommandV1::ItemAdd
        | SliceCommandV1::ItemRemove
        | SliceCommandV1::ItemAttach
        | SliceCommandV1::ItemClear => TerminalCommandKindV1::ItemMutation,
        SliceCommandV1::SessionStart(_) | SliceCommandV1::SessionStartReplace { .. } => {
            TerminalCommandKindV1::Start
        },
        SliceCommandV1::SessionReset(_) => TerminalCommandKindV1::SessionReset,
        SliceCommandV1::SessionSkip => TerminalCommandKindV1::Skip,
        SliceCommandV1::SessionReturn(_) => TerminalCommandKindV1::Return,
        SliceCommandV1::SessionReopen(_) => TerminalCommandKindV1::Reopen,
        _ => TerminalCommandKindV1::Other,
    }
}

/// The receipt of a submission whose job has ended: the one that its admission found, or the one
/// that it waited for.
pub open spec fn ended_receipt(submission: WorkerSubmissionV1) -> Option<
    PersistedTerminalReceiptV1,
> {
    match receipts::replayed_receipt(submission.admission) {
        Some(receipt) => Some(receipt),
        None => match submission.completion {
            Some(WorkerWaitResultV1::Terminal(receipt)) => Some(receipt),
            _ => None,
        },
    }
}

/// The receipt of a submission whose job has ended.
pub fn terminal_of_submission(submission: &WorkerSubmissionV1) -> (receipt: Option<
    &PersistedTerminalReceiptV1,
>)
    ensures
        match receipt {
            Some(receipt) => ended_receipt(*submission) == Some(*receipt),
            None => ended_receipt(*submission) is None,
        },
{
    match terminal_replay(&submission.admission) {
        Some(receipt) => Some(receipt),
        None => match &submission.completion {
            Some(WorkerWaitResultV1::Terminal(receipt)) => Some(receipt),
            Some(WorkerWaitResultV1::TimedOut(_)) | None => None,
        },
    }
}

/// Whether an outcome is the one for a receipt: its job, what it is answered with, and the request
/// that it was made for.
pub open spec fn is_terminal_outcome(
    receipt: PersistedTerminalReceiptV1,
    command: TerminalCommandKindV1,
    outcome: Result<MutationDispatchOutcomeV1, DispatchFailureV1>,
) -> bool {
    match outcome {
        Ok(MutationDispatchOutcomeV1::Terminal { job, result, response_context }) => {
            &&& receipts::terminal_output_failure(receipt) is None
            &&& receipts::is_terminal_output(receipt, job)
            &&& terminal::is_terminal_result(
                receipt,
                command,
                Ok::<DispatcherTerminalResultV1, DispatchFailureV1>(result),
            )
            &&& match response_context {
                Some(context) => receipts::is_response_context(receipt, context),
                None => receipt.response_context is None,
            }
        },
        Ok(_) => false,
        Err(failure) => match receipts::terminal_output_failure(receipt) {
            Some(cause) => failure == cause,
            None => terminal::is_terminal_result(
                receipt,
                command,
                Err::<DispatcherTerminalResultV1, DispatchFailureV1>(failure),
            ),
        },
    }
}

/// The outcome for a receipt.
pub fn terminal_outcome(
    receipt: &PersistedTerminalReceiptV1,
    command: TerminalCommandKindV1,
) -> (outcome: Result<MutationDispatchOutcomeV1, DispatchFailureV1>)
    ensures
        is_terminal_outcome(*receipt, command, outcome),
{
    let job = match job_output_from_terminal_receipt(receipt) {
        Ok(job) => job,
        Err(failure) => {
            return Err(failure);
        },
    };
    let result = match terminal_result_for_kind(receipt, command) {
        Ok(result) => result,
        Err(failure) => {
            return Err(failure);
        },
    };
    match terminal_response_context(receipt) {
        Ok(response_context) => Ok(
            MutationDispatchOutcomeV1::Terminal { job, result, response_context },
        ),
        Err(failure) => Err(failure),
    }
}

/// Whether an outcome is the one for a job that has not ended, before it is said which job was
/// admitted. The digest is that of the procedure that the job starts with, if it starts one; a job
/// whose digest cannot be told is damaged.
pub open spec fn is_pending_outcome(
    submission: WorkerSubmissionV1,
    read: Result<Option<JobViewV1>, StoreErrorV1>,
    procedure_digest: Option<Option<String>>,
    outcome: Result<MutationDispatchOutcomeV1, DispatchFailureV1>,
) -> bool {
    match submission.completion {
        Some(WorkerWaitResultV1::TimedOut(view)) => if !receipts::view_has_timestamps(view) {
            outcome matches Err(failure) && failure == failures::internal_failure()
        } else if procedure_digest is None {
            outcome matches Err(failure) && failure == failures::integrity_failure()
        } else {
            outcome matches Ok(MutationDispatchOutcomeV1::TimedOut { job })
                && receipts::is_view_output(view, job)
        },
        _ => match read {
            Err(error) => outcome matches Err(failure) && failures::is_store_failure(
                error,
                failure,
            ),
            Ok(None) => outcome matches Err(failure) && failure == dispatch::bare_failure(
                DispatchFailureKindV1::JobNotFound,
            ),
            Ok(Some(view)) => match procedure_digest {
                None => outcome matches Err(failure) && failure == failures::integrity_failure(),
                Some(digest) => if !receipts::view_has_timestamps(view) {
                    outcome matches Err(failure) && failure == failures::internal_failure()
                } else {
                    outcome matches Ok(
                        MutationDispatchOutcomeV1::Detached { job, procedure_digest: shown },
                    ) && receipts::is_view_output(view, job) && shown == digest
                },
            },
        },
    }
}

fn pending_outcome(
    submission: &WorkerSubmissionV1,
    read: Result<Option<JobViewV1>, StoreErrorV1>,
    procedure_digest: Option<Option<String>>,
) -> (outcome: Result<MutationDispatchOutcomeV1, DispatchFailureV1>)
    requires
        ended_receipt(*submission) is None,
    ensures
        is_pending_outcome(*submission, read, procedure_digest, outcome),
{
    if let Some(WorkerWaitResultV1::TimedOut(view)) = &submission.completion {
        let job = match job_output(view) {
            Ok(job) => job,
            Err(failure) => {
                return Err(failure);
            },
        };
        return match procedure_digest {
            Some(_) => Ok(MutationDispatchOutcomeV1::TimedOut { job }),
            None => Err(terminal_replay_integrity_failure()),
        };
    }
    let view = match read {
        Ok(Some(view)) => view,
        Ok(None) => {
            return Err(DispatchFailureV1::new(DispatchFailureKindV1::JobNotFound));
        },
        Err(error) => {
            return Err(map_store_error(error));
        },
    };
    let procedure_digest = match procedure_digest {
        Some(procedure_digest) => procedure_digest,
        None => {
            return Err(terminal_replay_integrity_failure());
        },
    };
    match job_output(&view) {
        Ok(job) => Ok(MutationDispatchOutcomeV1::Detached { job, procedure_digest }),
        Err(failure) => Err(failure),
    }
}

/// The failure of a request that was admitted as the given submission.
pub open spec fn of_submission(
    submission: WorkerSubmissionV1,
    failure: DispatchFailureV1,
) -> DispatchFailureV1 {
    let receipt = failures::receipt_of(submission.admission);
    dispatch::admitted_failure(failure, receipt.job_id, receipt.identity_sequence)
}

/// Whether an outcome is the one for a submission, before it is said which job was admitted.
pub open spec fn is_unnamed_outcome(
    submission: WorkerSubmissionV1,
    command: TerminalCommandKindV1,
    read: Result<Option<JobViewV1>, StoreErrorV1>,
    procedure_digest: Option<Option<String>>,
    outcome: Result<MutationDispatchOutcomeV1, DispatchFailureV1>,
) -> bool {
    match ended_receipt(submission) {
        Some(receipt) => is_terminal_outcome(receipt, command, outcome),
        None => is_pending_outcome(submission, read, procedure_digest, outcome),
    }
}

/// Whether an outcome is the one for a submission. Whatever fails from here on, the answer says
/// which job was admitted.
pub open spec fn is_submission_outcome(
    submission: WorkerSubmissionV1,
    command: TerminalCommandKindV1,
    read: Result<Option<JobViewV1>, StoreErrorV1>,
    procedure_digest: Option<Option<String>>,
    outcome: Result<MutationDispatchOutcomeV1, DispatchFailureV1>,
) -> bool {
    match outcome {
        Ok(_) => is_unnamed_outcome(submission, command, read, procedure_digest, outcome),
        Err(failure) => exists|cause: DispatchFailureV1|
            failure == of_submission(submission, cause) && #[trigger] is_unnamed_outcome(
                submission,
                command,
                read,
                procedure_digest,
                Err::<MutationDispatchOutcomeV1, DispatchFailureV1>(cause),
            ),
    }
}

/// What a submission is answered with. Where its job has neither ended nor been waited for in vain,
/// the answer shows the job as it was read afterwards.
pub fn submission_outcome(
    submission: &WorkerSubmissionV1,
    command: TerminalCommandKindV1,
    read: Result<Option<JobViewV1>, StoreErrorV1>,
    procedure_digest: Option<Option<String>>,
) -> (outcome: Result<MutationDispatchOutcomeV1, DispatchFailureV1>)
    ensures
        is_submission_outcome(*submission, command, read, procedure_digest, outcome),
{
    let outcome = match terminal_of_submission(submission) {
        Some(receipt) => terminal_outcome(receipt, command),
        None => pending_outcome(submission, read, procedure_digest),
    };
    match outcome {
        Ok(outcome) => Ok(outcome),
        Err(cause) => {
            let receipt = admission_receipt(&submission.admission);
            let failure = cause.with_admission_identity(
                receipt.job_id.clone(),
                receipt.identity_sequence,
            );
            assert(is_unnamed_outcome(
                *submission,
                command,
                read,
                procedure_digest,
                Err::<MutationDispatchOutcomeV1, DispatchFailureV1>(cause),
            ));
            Err(failure)
        },
    }
}

/// What the answer to a reset shows, once its receipt was read back by its key: nothing but a
/// receipt will do.
pub fn reset_terminal_outcome(
    read: Result<Option<AdmitOutcomeV1>, StoreErrorV1>,
    command: TerminalCommandKindV1,
) -> (outcome: Result<MutationDispatchOutcomeV1, DispatchFailureV1>)
    ensures
        match read {
            Err(error) => outcome matches Err(failure) && failures::is_store_failure(
                error,
                failure,
            ),
            Ok(None) => outcome matches Err(failure) && failure == failures::integrity_failure(),
            Ok(Some(admission)) => match receipts::replayed_receipt(admission) {
                Some(receipt) => is_terminal_outcome(receipt, command, outcome),
                None => outcome matches Err(failure) && failure == failures::integrity_failure(),
            },
        },
{
    let admission = match read {
        Ok(Some(admission)) => admission,
        Ok(None) => {
            return Err(terminal_replay_integrity_failure());
        },
        Err(error) => {
            return Err(map_store_error(error));
        },
    };
    match terminal_replay(&admission) {
        Some(receipt) => terminal_outcome(receipt, command),
        None => Err(terminal_replay_integrity_failure()),
    }
}

/// What a reset of a whole workspace does next.
#[derive(Clone, Copy, Debug, PartialEq, Eq, Structural)]
pub enum ResetAllStepV1 {
    /// Goes on with the reset that the marker tells of.
    Resume,
    /// Activates the workspace that is to be reset.
    ActivateOldScheduler,
    /// Prepares a new reset.
    Prepare,
}

/// What a reset does once it knows whether a reset was admitted before, whether the workspace is
/// active, and whether its Store can be read. A Store that can be read is asked before anything is
/// prepared, and so has to be active.
pub fn reset_all_step(
    marker_present: bool,
    scheduler_active: bool,
    store_readable: bool,
) -> (step: ResetAllStepV1)
    ensures
        step == if marker_present {
            ResetAllStepV1::Resume
        } else if !scheduler_active && store_readable {
            ResetAllStepV1::ActivateOldScheduler
        } else {
            ResetAllStepV1::Prepare
        },
{
    if marker_present {
        ResetAllStepV1::Resume
    } else if !scheduler_active && store_readable {
        ResetAllStepV1::ActivateOldScheduler
    } else {
        ResetAllStepV1::Prepare
    }
}

/// Where a reset is prepared.
#[derive(Clone, Copy, Debug, PartialEq, Eq, Structural)]
pub enum ResetPreparationV1 {
    WithStore,
    WithoutStore,
}

/// Where a reset is prepared: with the Store of the workspace where that is active, and otherwise
/// without one, which takes a proof that the Store is unavailable.
pub fn reset_preparation(
    active: Option<&DurableWorktreeIdentityV1>,
    source: &DurableWorktreeIdentityV1,
    unavailable_proof: bool,
) -> (preparation: Result<ResetPreparationV1, DispatchFailureV1>)
    ensures
        preparation == match active {
            Some(active) => if store::same_identity_spec(*active, *source) {
                Ok(ResetPreparationV1::WithStore)
            } else {
                Err(dispatch::bare_failure(DispatchFailureKindV1::WorkspaceMaintenance))
            },
            None => if unavailable_proof {
                Ok(ResetPreparationV1::WithoutStore)
            } else {
                Err(dispatch::bare_failure(DispatchFailureKindV1::WorkspaceMaintenance))
            },
        },
{
    match active {
        Some(active) => if same_identity(active, source) {
            Ok(ResetPreparationV1::WithStore)
        } else {
            Err(DispatchFailureV1::new(DispatchFailureKindV1::WorkspaceMaintenance))
        },
        None => if unavailable_proof {
            Ok(ResetPreparationV1::WithoutStore)
        } else {
            Err(DispatchFailureV1::new(DispatchFailureKindV1::WorkspaceMaintenance))
        },
    }
}

/// The failure of a reset that could not be prepared. A key that was used for another request is
/// told as such.
pub fn reset_preparation_failure(error: ExecutionErrorV1) -> (failure: DispatchFailureV1)
    ensures
        if error == ExecutionErrorV1::Store(StoreErrorV1::IdempotencyDigestConflictV1) {
            failure == dispatch::bare_failure(DispatchFailureKindV1::IdempotencyKeyReused)
        } else {
            failures::is_execution_failure(error, failure)
        },
{
    match error {
        ExecutionErrorV1::Store(StoreErrorV1::IdempotencyDigestConflictV1) => {
            DispatchFailureV1::new(DispatchFailureKindV1::IdempotencyKeyReused)
        },
        error => map_reset_preparation_error(error),
    }
}

/// What a reset does with what its preparation found.
#[derive(Clone, Debug, PartialEq, Eq)]
pub enum ResetAllContinuationV1 {
    /// Answers with the receipt that is already there.
    Reread { request_digest: String },
    /// Performs the reset.
    Complete,
}

/// What a reset does once it is prepared: perform it, or answer with the receipt of the one that
/// was performed before, which the active workspace has to hold.
pub fn reset_after_preparation(
    existing: Option<&AdmitOutcomeV1>,
    scheduler_active: bool,
) -> (continuation: Result<ResetAllContinuationV1, DispatchFailureV1>)
    ensures
        match existing {
            None => continuation == Ok::<ResetAllContinuationV1, DispatchFailureV1>(
                ResetAllContinuationV1::Complete,
            ),
            Some(existing) => match receipts::replayed_receipt(*existing) {
                Some(receipt) if scheduler_active => continuation == Ok::<
                    ResetAllContinuationV1,
                    DispatchFailureV1,
                >(
                    ResetAllContinuationV1::Reread { request_digest: receipt.job.request_digest },
                ),
                _ => continuation matches Err(failure) && failure == failures::integrity_failure(),
            },
        },
{
    let existing = match existing {
        Some(existing) => existing,
        None => {
            return Ok(ResetAllContinuationV1::Complete);
        },
    };
    match terminal_replay(existing) {
        Some(receipt) => if scheduler_active {
            Ok(
                ResetAllContinuationV1::Reread {
                    request_digest: receipt.job.request_digest.clone(),
                },
            )
        } else {
            Err(terminal_replay_integrity_failure())
        },
        None => Err(terminal_replay_integrity_failure()),
    }
}

/// The failure of a reset whose old scheduler could not be retired. A reset that was admitted
/// before says as which job: its operation, the first job of the workspace that it leads to.
pub fn reset_retirement_failure(marker: Option<&ResetMarkerV1>) -> (failure: DispatchFailureV1)
    ensures
        failure == match marker {
            Some(marker) => dispatch::admitted_failure(
                dispatch::bare_failure(DispatchFailureKindV1::WorkspaceMaintenance),
                marker.operation_id,
                1,
            ),
            None => dispatch::bare_failure(DispatchFailureKindV1::WorkspaceMaintenance),
        },
{
    let failure = DispatchFailureV1::new(DispatchFailureKindV1::WorkspaceMaintenance);
    match marker {
        Some(marker) => failure.with_admission_identity(marker.operation_id.clone(), 1),
        None => failure,
    }
}

} // verus!
