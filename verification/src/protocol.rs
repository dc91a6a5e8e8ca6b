//! The requests that the daemon serves, as plain values.

use crate::read_service::{MonotonicDeadlineV1, ReadServiceErrorV1, ReadWaitV1};
use crate::worker::WorkerCompletionModeV1;
use vstd::prelude::*;

verus! {

/// Where the procedure of a session comes from.
#[derive(Clone, Debug, PartialEq, Eq)]
pub enum SessionStartSourceV1 {
    Preset { preset: String },
    Procedure { procedure: String },
}

/// The start of a session.
#[derive(Clone, Debug, PartialEq, Eq)]
pub struct SessionStartV1 {
    pub source: SessionStartSourceV1,
    pub expected_procedure_digest: Option<String>,
    pub task_title: String,
    pub dry_run: bool,
}

/// The session that a request expects to find.
#[derive(Clone, Debug, PartialEq, Eq)]
pub struct SessionIdentityPreconditionsV1 {
    pub expected_session_id: String,
    pub expected_session_revision: u64,
}

/// The session and the attempt that a request expects to find.
#[derive(Clone, Debug, PartialEq, Eq)]
pub struct SessionMutationPreconditionsV1 {
    pub expected_session_id: String,
    pub expected_attempt_id: String,
    pub expected_session_revision: u64,
}

/// The return to an earlier stage of a running session.
#[derive(Clone, Debug, PartialEq, Eq)]
pub struct SessionReturnV1 {
    pub destination_stage_id: String,
    pub reason: String,
    pub preconditions: SessionMutationPreconditionsV1,
}

/// The reopening of a completed session at one of its stages.
#[derive(Clone, Debug, PartialEq, Eq)]
pub struct SessionReopenV1 {
    pub destination_stage_id: String,
    pub reason: String,
    pub preconditions: SessionIdentityPreconditionsV1,
}

/// The reset of a session.
#[derive(Clone, Debug, PartialEq, Eq)]
pub struct SessionResetV1 {
    pub confirmed: bool,
    pub dry_run: bool,
    pub preconditions: SessionIdentityPreconditionsV1,
}

/// How a read of a session waits, before a clock has told when the wait ends.
#[derive(Clone, Debug, PartialEq, Eq)]
pub enum RequestReadWaitV1 {
    Immediate,
    IdleUntil { timeout_millis: u64 },
    AfterJobUntil { job_id: String, timeout_millis: u64 },
}

/// How a mutation waits, before a clock has told when the wait ends.
#[derive(Clone, Copy, Debug, PartialEq, Eq, Structural)]
pub enum MutationWaitV1 {
    Detached,
    UntilTerminal { timeout_millis: u64 },
}

/// A read of a session's status.
#[derive(Clone, Debug, PartialEq, Eq)]
pub struct SessionStatusV1 {
    pub wait: RequestReadWaitV1,
    pub expected_session_id: Option<String>,
    pub compact: bool,
    pub verbose: bool,
    pub history_before: Option<u64>,
}

/// A read of what a session asks for next.
#[derive(Clone, Debug, PartialEq, Eq)]
pub struct SessionNextV1 {
    pub wait: RequestReadWaitV1,
    pub expected_session_id: Option<String>,
}

/// The command of a request, with the payload that decisions about it need.
#[derive(Clone, Debug, PartialEq, Eq)]
pub enum SliceCommandV1 {
    WorkspaceInit,
    WorkspaceResetAll,
    SessionStart(SessionStartV1),
    SessionStartReplace { start: SessionStartV1, preconditions: SessionIdentityPreconditionsV1 },
    SessionComplete,
    SessionSkip,
    SessionRetry,
    SessionReturn(SessionReturnV1),
    SessionBlock,
    SessionUnblock,
    SessionCancel,
    SessionReopen(SessionReopenV1),
    SessionReset(SessionResetV1),
    SessionStatus(SessionStatusV1),
    SessionNext(SessionNextV1),
    ItemCheck,
    ItemUncheck,
    ItemSet,
    ItemAdd,
    ItemRemove,
    ItemAttach,
    ItemClear,
    Other,
}

/// Whether a command changes an item.
pub open spec fn is_item_mutation(command: SliceCommandV1) -> bool {
    command is ItemCheck || command is ItemUncheck || command is ItemSet || command is ItemAdd
        || command is ItemRemove || command is ItemAttach || command is ItemClear
}

/// Whether a command changes an item.
pub fn mutates_item(command: &SliceCommandV1) -> (mutates: bool)
    ensures
        mutates == is_item_mutation(*command),
{
    match command {
        SliceCommandV1::ItemCheck
        | SliceCommandV1::ItemUncheck
        | SliceCommandV1::ItemSet
        | SliceCommandV1::ItemAdd
        | SliceCommandV1::ItemRemove
        | SliceCommandV1::ItemAttach
        | SliceCommandV1::ItemClear => true,
        _ => false,
    }
}

/// How a read that starts at the given instant waits. A wait that would end beyond the range of the
/// clock is refused.
pub open spec fn read_wait_at(wait: RequestReadWaitV1, now_millis: u64, result: Result<
    ReadWaitV1,
    ReadServiceErrorV1,
>) -> bool {
    match (wait, result) {
        (RequestReadWaitV1::Immediate, Ok(wait)) => wait == ReadWaitV1::Immediate,
        (RequestReadWaitV1::IdleUntil { timeout_millis }, Ok(wait)) => wait matches
            ReadWaitV1::IdleUntil(deadline) && deadline.at() == now_millis + timeout_millis,
        (RequestReadWaitV1::AfterJobUntil { job_id, timeout_millis }, Ok(wait)) => wait matches
            ReadWaitV1::AfterJobUntil { job_id: waited, deadline } && waited == job_id
            && deadline.at() == now_millis + timeout_millis,
        (RequestReadWaitV1::Immediate, Err(_)) => false,
        (
            RequestReadWaitV1::IdleUntil { timeout_millis }
            | RequestReadWaitV1::AfterJobUntil { timeout_millis, .. },
            Err(error),
        ) => error == ReadServiceErrorV1::DeadlineOverflow && now_millis + timeout_millis
            > u64::MAX,
    }
}

/// How a read that starts at the given instant waits.
pub fn read_wait(wait: RequestReadWaitV1, now_millis: u64) -> (result: Result<
    ReadWaitV1,
    ReadServiceErrorV1,
>)
    ensures
        read_wait_at(wait, now_millis, result),
{
    match wait {
        RequestReadWaitV1::Immediate => Ok(ReadWaitV1::immediate()),
        RequestReadWaitV1::IdleUntil { timeout_millis } => {
            match MonotonicDeadlineV1::after_instant(now_millis, timeout_millis) {
                Ok(deadline) => Ok(ReadWaitV1::idle_until(deadline)),
                Err(error) => Err(error),
            }
        },
        RequestReadWaitV1::AfterJobUntil { job_id, timeout_millis } => {
            match MonotonicDeadlineV1::after_instant(now_millis, timeout_millis) {
                Ok(deadline) => Ok(ReadWaitV1::after_job_until(job_id, deadline)),
                Err(error) => Err(error),
            }
        },
    }
}

/// How a mutation that is submitted at the given instant is completed. A wait that would end beyond
/// the range of the clock is refused.
pub fn completion_mode(wait: MutationWaitV1, now_millis: u64) -> (result: Result<
    WorkerCompletionModeV1,
    ReadServiceErrorV1,
>)
    ensures
        match (wait, result) {
            (MutationWaitV1::Detached, Ok(mode)) => mode == WorkerCompletionModeV1::Detached,
            (MutationWaitV1::Detached, Err(_)) => false,
            (MutationWaitV1::UntilTerminal { timeout_millis }, Ok(mode)) => mode matches
                WorkerCompletionModeV1::WaitUntil(deadline) && deadline.at() == now_millis
                + timeout_millis,
            (MutationWaitV1::UntilTerminal { timeout_millis }, Err(error)) => error
                == ReadServiceErrorV1::DeadlineOverflow && now_millis + timeout_millis > u64::MAX,
        },
{
    match wait {
        MutationWaitV1::Detached => Ok(WorkerCompletionModeV1::Detached),
        MutationWaitV1::UntilTerminal { timeout_millis } => {
            match MonotonicDeadlineV1::after_instant(now_millis, timeout_millis) {
                Ok(deadline) => Ok(WorkerCompletionModeV1::WaitUntil(deadline)),
                Err(error) => Err(error),
            }
        },
    }
}

} // verus!
