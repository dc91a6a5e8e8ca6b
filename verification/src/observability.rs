//! What is told of the daemon's work to whoever observes it. Nothing that the daemon does depends on
//! what is told.

use vstd::prelude::*;

verus! {

/// What something that is told of was about.
#[derive(Clone, Copy, Debug, PartialEq, Eq, Structural)]
pub enum EventOperationV1 {
    DaemonStart,
    DaemonStop,
    IntegrityCheck,
    PeerAdmission,
    ConnectionSetup,
    ConnectionAccepted,
    AdmissionSaturation,
    HandlerJoin,
    TransportServiceRequest,
    ServiceDispatch,
    ResponseWrite,
}

/// How something that is told of ended.
#[derive(Clone, Copy, Debug, PartialEq, Eq, Structural)]
pub enum EventOutcomeV1 {
    Succeeded,
    Rejected,
    Failed,
    Saturated,
}

/// Something that is told: what it was about, and how it ended.
#[derive(Clone, Copy, Debug, PartialEq, Eq, Structural)]
pub struct EventRecordV1 {
    pub operation: EventOperationV1,
    pub outcome: EventOutcomeV1,
}

/// What part of the durable state a notice is about.
#[derive(Clone, Copy, Debug, PartialEq, Eq, Structural)]
pub enum EventCategoryV1 {
    MigrationOrIntegrity,
    MoveOrRepair,
    Scheduler,
    TerminalOrRequeueOrSaturation,
}

/// How much a notice matters.
#[derive(Clone, Copy, Debug, PartialEq, Eq, Structural)]
pub enum SeverityV1 {
    Debug,
    Info,
    Warn,
}

/// A notice of what became of a part of the durable state.
#[derive(Clone, Copy, Debug, PartialEq, Eq, Structural)]
pub struct EventNoticeV1 {
    pub category: EventCategoryV1,
    pub severity: SeverityV1,
}

impl EventRecordV1 {
    /// That the given operation ended in the given way.
    pub fn new(operation: EventOperationV1, outcome: EventOutcomeV1) -> (record: Self)
        ensures
            record == (EventRecordV1 { operation, outcome }),
    {
        EventRecordV1 { operation, outcome }
    }
}

} // verus!
