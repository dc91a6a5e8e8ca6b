//! What a submission to the mutation worker comes to.

use crate::execution::{ExecutionErrorV1, ProcedureV2StartPreparationErrorV1};
use crate::read_service::MonotonicDeadlineV1;
use crate::store::{AdmitOutcomeV1, JobViewV1, PersistedTerminalReceiptV1, StoreErrorV1};
use vstd::prelude::*;

verus! {

/// Why a submission failed.
#[derive(Debug, PartialEq, Eq)]
pub enum WorkerErrorV1 {
    AfterAdmission { admission: AdmitOutcomeV1, source: Box<WorkerErrorV1> },
    Store(StoreErrorV1),
    Execution(ExecutionErrorV1),
    ProcedureV2Preparation(ProcedureV2StartPreparationErrorV1),
    JobNotFound,
    Progress,
    BackgroundPanicked,
    RecoveryRequired,
    RetirementRejected,
}

/// Whether a submission waits for its job, and until when.
#[derive(Clone, Copy, Debug, PartialEq, Eq, Structural)]
pub enum WorkerCompletionModeV1 {
    Detached,
    WaitUntil(MonotonicDeadlineV1),
}

/// How a wait for a submitted job ended.
#[derive(Clone, Debug, PartialEq, Eq)]
pub enum WorkerWaitResultV1 {
    Terminal(PersistedTerminalReceiptV1),
    TimedOut(JobViewV1),
}

/// An admitted submission, and how the wait for its job ended if it waited.
#[derive(Clone, Debug, PartialEq, Eq)]
pub struct WorkerSubmissionV1 {
    pub admission: AdmitOutcomeV1,
    pub completion: Option<WorkerWaitResultV1>,
}

} // verus!
