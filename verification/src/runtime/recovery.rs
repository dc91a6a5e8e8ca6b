//! The recovery of the registered workspaces when a daemon starts.

use crate::observability::EventOutcomeV1;
use crate::registry::RegistryErrorV1;
use crate::runtime_workspace::WorkspaceRuntimeErrorV1;
use crate::worker::WorkerErrorV1;
use crate::workspace::{GitResolverErrorV1, ResetMarkerV1, WorkspaceResolutionErrorV1};
use vstd::prelude::*;

verus! {

/// Why a registered workspace was not recovered.
#[derive(Clone, Copy, Debug, PartialEq, Eq, Structural)]
pub enum WorkspaceRecoveryUnavailableReasonV1 {
    WorktreeGone,
    RegisteredRootInvalid,
    WorkspaceNotInitialized,
    WorkspaceIdentityConflict,
    WorkspaceConfigurationInvalid,
    WorkspaceStateUnreadable,
    DaemonUnavailable,
}

impl WorkspaceRecoveryUnavailableReasonV1 {
    /// The text that tells the reason.
    pub open spec fn shown(self) -> &'static str {
        match self {
            WorkspaceRecoveryUnavailableReasonV1::WorktreeGone => "worktree is unavailable",
            WorkspaceRecoveryUnavailableReasonV1::RegisteredRootInvalid =>
                "registered workspace root is invalid",
            WorkspaceRecoveryUnavailableReasonV1::WorkspaceNotInitialized =>
                "workspace state is unavailable",
            WorkspaceRecoveryUnavailableReasonV1::WorkspaceIdentityConflict =>
                "workspace identity does not match durable state",
            WorkspaceRecoveryUnavailableReasonV1::WorkspaceConfigurationInvalid =>
                "workspace configuration is unavailable",
            WorkspaceRecoveryUnavailableReasonV1::WorkspaceStateUnreadable =>
                "workspace state cannot be recovered",
            WorkspaceRecoveryUnavailableReasonV1::DaemonUnavailable =>
                "workspace recovery is unavailable",
        }
    }

    /// The text that tells the reason.
    pub fn message(&self) -> (message: &'static str)
        ensures
            message == self.shown(),
    {
        match self {
            WorkspaceRecoveryUnavailableReasonV1::WorktreeGone => "worktree is unavailable",
            WorkspaceRecoveryUnavailableReasonV1::RegisteredRootInvalid =>
                "registered workspace root is invalid",
            WorkspaceRecoveryUnavailableReasonV1::WorkspaceNotInitialized =>
                "workspace state is unavailable",
            WorkspaceRecoveryUnavailableReasonV1::WorkspaceIdentityConflict =>
                "workspace identity does not match durable state",
            WorkspaceRecoveryUnavailableReasonV1::WorkspaceConfigurationInvalid =>
                "workspace configuration is unavailable",
            WorkspaceRecoveryUnavailableReasonV1::WorkspaceStateUnreadable =>
                "workspace state cannot be recovered",
            WorkspaceRecoveryUnavailableReasonV1::DaemonUnavailable =>
                "workspace recovery is unavailable",
        }
    }
}

/// A workspace that was recovered: how many of its jobs were queued again, and how many were brought
/// to their end.
#[derive(Clone, Debug, PartialEq, Eq)]
pub struct RecoveredWorkspaceReportV1 {
    pub workspace_uuid: String,
    pub requeued_job_count: u32,
    pub drained_terminal_job_count: u64,
}

impl RecoveredWorkspaceReportV1 {
    /// The workspace.
    pub fn workspace_uuid(&self) -> (uuid: &String)
        ensures
            *uuid == self.workspace_uuid,
    {
        &self.workspace_uuid
    }

    /// How many of its jobs were queued again.
    pub fn requeued_job_count(&self) -> (count: u32)
        ensures
            count == self.requeued_job_count,
    {
        self.requeued_job_count
    }

    /// How many of its jobs were brought to their end.
    pub fn drained_terminal_job_count(&self) -> (count: u64)
        ensures
            count == self.drained_terminal_job_count,
    {
        self.drained_terminal_job_count
    }
}

/// A workspace that was not recovered, and why.
#[derive(Clone, Debug, PartialEq, Eq)]
pub struct UnavailableWorkspaceReportV1 {
    pub workspace_uuid: String,
    pub reason: WorkspaceRecoveryUnavailableReasonV1,
}

impl UnavailableWorkspaceReportV1 {
    /// The workspace.
    pub fn workspace_uuid(&self) -> (uuid: &String)
        ensures
            *uuid == self.workspace_uuid,
    {
        &self.workspace_uuid
    }

    /// Why it was not recovered.
    pub fn reason(&self) -> (reason: WorkspaceRecoveryUnavailableReasonV1)
        ensures
            reason == self.reason,
    {
        self.reason
    }
}

/// What the recovery of one workspace came to.
#[derive(Clone, Debug, PartialEq, Eq)]
pub enum WorkspaceRecoveryEntryV1 {
    Recovered(RecoveredWorkspaceReportV1),
    Unavailable(UnavailableWorkspaceReportV1),
}

/// What the recovery of every registered workspace came to.
#[derive(Clone, Debug, PartialEq, Eq)]
pub struct ProductionDaemonRecoveryReportV1 {
    workspaces: Vec<WorkspaceRecoveryEntryV1>,
}

/// How many of the entries are of recovered workspaces.
pub open spec fn recovered_among(entries: Seq<WorkspaceRecoveryEntryV1>) -> nat
    decreases entries.len(),
{
    if entries.len() == 0 {
        0
    } else {
        recovered_among(entries.drop_last()) + if entries.last() is Recovered {
            1nat
        } else {
            0nat
        }
    }
}

/// How many of the entries are of workspaces that were not recovered.
pub open spec fn unavailable_among(entries: Seq<WorkspaceRecoveryEntryV1>) -> nat
    decreases entries.len(),
{
    if entries.len() == 0 {
        0
    } else {
        unavailable_among(entries.drop_last()) + if entries.last() is Unavailable {
            1nat
        } else {
            0nat
        }
    }
}

/// Every entry counts either as recovered or as not.
pub proof fn every_entry_is_counted_once(entries: Seq<WorkspaceRecoveryEntryV1>)
    ensures
        recovered_among(entries) + unavailable_among(entries) == entries.len(),
    decreases entries.len(),
{
    if entries.len() > 0 {
        every_entry_is_counted_once(entries.drop_last());
    }
}

proof fn none_is_unavailable_if_all_are_recovered(entries: Seq<WorkspaceRecoveryEntryV1>)
    ensures
        unavailable_among(entries) == 0 <==> forall|i: int|
            0 <= i < entries.len() ==> (#[trigger] entries[i]) is Recovered,
    decreases entries.len(),
{
    if entries.len() > 0 {
        let before = entries.drop_last();
        none_is_unavailable_if_all_are_recovered(before);
        assert forall|i: int| 0 <= i < before.len() implies before[i] == #[trigger] entries[i] by {}
        if unavailable_among(entries) == 0 {
            assert forall|i: int| 0 <= i < entries.len() implies (
            #[trigger] entries[i]) is Recovered by {
                if i < before.len() {
                    assert(before[i] is Recovered);
                }
            }
        } else if unavailable_among(before) == 0 {
            assert(entries[entries.len() - 1] is Unavailable);
        } else {
            let i = choose|i: int| 0 <= i < before.len() && !((#[trigger] before[i]) is Recovered);
            assert(!(entries[i] is Recovered));
        }
    }
}

impl View for ProductionDaemonRecoveryReportV1 {
    type V = Seq<WorkspaceRecoveryEntryV1>;

    closed spec fn view(&self) -> Seq<WorkspaceRecoveryEntryV1> {
        self.workspaces@
    }
}

impl ProductionDaemonRecoveryReportV1 {
    /// The report of the given entries.
    pub fn new(workspaces: Vec<WorkspaceRecoveryEntryV1>) -> (report: Self)
        ensures
            report@ == workspaces@,
    {
        ProductionDaemonRecoveryReportV1 { workspaces }
    }

    /// The entries, in the order of the registry.
    pub fn workspaces(&self) -> (entries: &[WorkspaceRecoveryEntryV1])
        ensures
            entries@ == self@,
    {
        self.workspaces.as_slice()
    }

    /// How many workspaces were recovered.
    pub fn recovered_workspace_count(&self) -> (count: usize)
        ensures
            count == recovered_among(self@),
    {
        let mut count: usize = 0;
        let mut place: usize = 0;
        assert(self@.take(0) =~= Seq::empty());
        while place < self.workspaces.len()
            invariant
                place <= self.workspaces@.len(),
                self.workspaces@ == self@,
                count == recovered_among(self@.take(place as int)),
                count <= place,
            decreases self.workspaces@.len() - place,
        {
            proof {
                assert(self@.take(place + 1).drop_last() =~= self@.take(place as int));
                assert(self@.take(place + 1).last() == self@[place as int]);
            }
            if matches!(&self.workspaces[place], WorkspaceRecoveryEntryV1::Recovered(_)) {
                count = count + 1;
            }
            place = place + 1;
        }
        assert(self@.take(place as int) =~= self@);
        count
    }

    /// How the recovery is told: it succeeded if no workspace is unavailable.
    pub fn integrity_outcome(&self) -> (outcome: EventOutcomeV1)
        ensures
            outcome == if unavailable_among(self@) == 0 {
                EventOutcomeV1::Succeeded
            } else {
                EventOutcomeV1::Failed
            },
            outcome is Succeeded <==> forall|i: int|
                0 <= i < self@.len() ==> (#[trigger] self@[i]) is Recovered,
    {
        proof {
            none_is_unavailable_if_all_are_recovered(self@);
        }
        if self.unavailable_workspace_count() == 0 {
            EventOutcomeV1::Succeeded
        } else {
            EventOutcomeV1::Failed
        }
    }

    /// How many workspaces were not recovered.
    pub fn unavailable_workspace_count(&self) -> (count: usize)
        ensures
            count == unavailable_among(self@),
    {
        let mut count: usize = 0;
        let mut place: usize = 0;
        assert(self@.take(0) =~= Seq::empty());
        while place < self.workspaces.len()
            invariant
                place <= self.workspaces@.len(),
                self.workspaces@ == self@,
                count == unavailable_among(self@.take(place as int)),
                count <= place,
            decreases self.workspaces@.len() - place,
        {
            proof {
                assert(self@.take(place + 1).drop_last() =~= self@.take(place as int));
                assert(self@.take(place + 1).last() == self@[place as int]);
            }
            if matches!(&self.workspaces[place], WorkspaceRecoveryEntryV1::Unavailable(_)) {
                count = count + 1;
            }
            place = place + 1;
        }
        assert(self@.take(place as int) =~= self@);
        count
    }
}

/// Why a workspace is not recovered, by why it does not resolve.
pub open spec fn resolution_reason(error: WorkspaceResolutionErrorV1) ->
    WorkspaceRecoveryUnavailableReasonV1 {
    match error {
        WorkspaceResolutionErrorV1::Git { source } => match source {
            GitResolverErrorV1::CopiedWorkspaceUuid
            | GitResolverErrorV1::IdentityMismatch
            | GitResolverErrorV1::MoveConflict =>
                WorkspaceRecoveryUnavailableReasonV1::WorkspaceIdentityConflict,
            GitResolverErrorV1::Selector =>
                WorkspaceRecoveryUnavailableReasonV1::RegisteredRootInvalid,
            _ => WorkspaceRecoveryUnavailableReasonV1::WorktreeGone,
        },
        WorkspaceResolutionErrorV1::ExpectedWorkspaceUuidMismatch { .. }
        | WorkspaceResolutionErrorV1::GitStoreFingerprintMismatch
        | WorkspaceResolutionErrorV1::PreliminaryIdentityWasNotCandidate
        | WorkspaceResolutionErrorV1::RevalidatedIdentityStateMismatch
        | WorkspaceResolutionErrorV1::RevalidatedStoreIdentityMismatch
        | WorkspaceResolutionErrorV1::RuntimeDatabasePathChangedDuringResolution =>
            WorkspaceRecoveryUnavailableReasonV1::WorkspaceIdentityConflict,
        WorkspaceResolutionErrorV1::ManagedDevScopeViolation
        | WorkspaceResolutionErrorV1::Selector
        | WorkspaceResolutionErrorV1::StoredRootPathInvalid
        | WorkspaceResolutionErrorV1::WorkspaceRootPathInvalid
        | WorkspaceResolutionErrorV1::RuntimeDirectoryPathInvalid
        | WorkspaceResolutionErrorV1::RuntimeDirectoryPathUnsupportedPlatform
        | WorkspaceResolutionErrorV1::WorkspaceRootConversion =>
            WorkspaceRecoveryUnavailableReasonV1::RegisteredRootInvalid,
        WorkspaceResolutionErrorV1::ExistingBindingMissing =>
            WorkspaceRecoveryUnavailableReasonV1::WorkspaceNotInitialized,
        WorkspaceResolutionErrorV1::BindingInspection { .. }
        | WorkspaceResolutionErrorV1::BootstrapBindingAlreadyPresent =>
            WorkspaceRecoveryUnavailableReasonV1::DaemonUnavailable,
    }
}

/// Why a workspace is not recovered, by why it does not resolve.
pub fn unavailable_reason_from_resolution_error(error: &WorkspaceResolutionErrorV1) -> (reason:
    WorkspaceRecoveryUnavailableReasonV1)
    ensures
        reason == resolution_reason(*error),
{
    match error {
        WorkspaceResolutionErrorV1::Git { source } => match source {
            GitResolverErrorV1::CopiedWorkspaceUuid
            | GitResolverErrorV1::IdentityMismatch
            | GitResolverErrorV1::MoveConflict =>
                WorkspaceRecoveryUnavailableReasonV1::WorkspaceIdentityConflict,
            GitResolverErrorV1::Selector =>
                WorkspaceRecoveryUnavailableReasonV1::RegisteredRootInvalid,
            _ => WorkspaceRecoveryUnavailableReasonV1::WorktreeGone,
        },
        WorkspaceResolutionErrorV1::ExpectedWorkspaceUuidMismatch { .. }
        | WorkspaceResolutionErrorV1::GitStoreFingerprintMismatch
        | WorkspaceResolutionErrorV1::PreliminaryIdentityWasNotCandidate
        | WorkspaceResolutionErrorV1::RevalidatedIdentityStateMismatch
        | WorkspaceResolutionErrorV1::RevalidatedStoreIdentityMismatch
        | WorkspaceResolutionErrorV1::RuntimeDatabasePathChangedDuringResolution =>
            WorkspaceRecoveryUnavailableReasonV1::WorkspaceIdentityConflict,
        WorkspaceResolutionErrorV1::ManagedDevScopeViolation
        | WorkspaceResolutionErrorV1::Selector
        | WorkspaceResolutionErrorV1::StoredRootPathInvalid
        | WorkspaceResolutionErrorV1::WorkspaceRootPathInvalid
        | WorkspaceResolutionErrorV1::RuntimeDirectoryPathInvalid
        | WorkspaceResolutionErrorV1::RuntimeDirectoryPathUnsupportedPlatform
        | WorkspaceResolutionErrorV1::WorkspaceRootConversion =>
            WorkspaceRecoveryUnavailableReasonV1::RegisteredRootInvalid,
        WorkspaceResolutionErrorV1::ExistingBindingMissing =>
            WorkspaceRecoveryUnavailableReasonV1::WorkspaceNotInitialized,
        WorkspaceResolutionErrorV1::BindingInspection { .. }
        | WorkspaceResolutionErrorV1::BootstrapBindingAlreadyPresent =>
            WorkspaceRecoveryUnavailableReasonV1::DaemonUnavailable,
    }
}

/// Why a workspace is not recovered, by why an operation on it failed.
pub open spec fn runtime_reason(error: WorkspaceRuntimeErrorV1) ->
    WorkspaceRecoveryUnavailableReasonV1 {
    match error {
        WorkspaceRuntimeErrorV1::Resolution(error) => resolution_reason(error),
        WorkspaceRuntimeErrorV1::ConfigRead { .. }
        | WorkspaceRuntimeErrorV1::ConfigAdmission
        | WorkspaceRuntimeErrorV1::StoreOptions =>
            WorkspaceRecoveryUnavailableReasonV1::WorkspaceConfigurationInvalid,
        WorkspaceRuntimeErrorV1::Store(_)
        | WorkspaceRuntimeErrorV1::BindingDisappeared { .. } =>
            WorkspaceRecoveryUnavailableReasonV1::WorkspaceStateUnreadable,
        WorkspaceRuntimeErrorV1::ResetSourceNotRegistered =>
            WorkspaceRecoveryUnavailableReasonV1::WorkspaceNotInitialized,
        WorkspaceRuntimeErrorV1::BindingIdentityMismatch { .. }
        | WorkspaceRuntimeErrorV1::BindingMismatch { .. }
        | WorkspaceRuntimeErrorV1::RebindEvidenceMismatch { .. }
        | WorkspaceRuntimeErrorV1::ResetSourceAmbiguous
        | WorkspaceRuntimeErrorV1::RevalidationKeyMismatch { .. }
        | WorkspaceRuntimeErrorV1::Registry(RegistryErrorV1::WorkspaceRootOccupied { .. }) =>
            WorkspaceRecoveryUnavailableReasonV1::WorkspaceIdentityConflict,
        WorkspaceRuntimeErrorV1::RuntimeDirectoryMissing { .. }
        | WorkspaceRuntimeErrorV1::RuntimePathMismatch { .. }
        | WorkspaceRuntimeErrorV1::RuntimePathsUnsupportedPlatform =>
            WorkspaceRecoveryUnavailableReasonV1::RegisteredRootInvalid,
        WorkspaceRuntimeErrorV1::MaintenanceInProgress
        | WorkspaceRuntimeErrorV1::ResetAdmissionOutcomeUnknown { .. }
        | WorkspaceRuntimeErrorV1::ResetAdmitted { .. }
        | WorkspaceRuntimeErrorV1::ResetSchedulerRetirement
        | WorkspaceRuntimeErrorV1::ResetMarkerConflict
        | WorkspaceRuntimeErrorV1::ResetIdempotencyConflict { .. }
        | WorkspaceRuntimeErrorV1::ResetRegistryPredecessorStale
        | WorkspaceRuntimeErrorV1::RuntimeDirectory(_)
        | WorkspaceRuntimeErrorV1::Layout
        | WorkspaceRuntimeErrorV1::Registry(_)
        | WorkspaceRuntimeErrorV1::Scheduler(_) =>
            WorkspaceRecoveryUnavailableReasonV1::DaemonUnavailable,
    }
}

/// Why a workspace is not recovered, by why an operation on it failed.
pub fn unavailable_reason_from_runtime_error(error: &WorkspaceRuntimeErrorV1) -> (reason:
    WorkspaceRecoveryUnavailableReasonV1)
    ensures
        reason == runtime_reason(*error),
{
    match error {
        WorkspaceRuntimeErrorV1::Resolution(error) => unavailable_reason_from_resolution_error(
            error,
        ),
        WorkspaceRuntimeErrorV1::ConfigRead { .. }
        | WorkspaceRuntimeErrorV1::ConfigAdmission
        | WorkspaceRuntimeErrorV1::StoreOptions =>
            WorkspaceRecoveryUnavailableReasonV1::WorkspaceConfigurationInvalid,
        WorkspaceRuntimeErrorV1::Store(_)
        | WorkspaceRuntimeErrorV1::BindingDisappeared { .. } =>
            WorkspaceRecoveryUnavailableReasonV1::WorkspaceStateUnreadable,
        WorkspaceRuntimeErrorV1::ResetSourceNotRegistered =>
            WorkspaceRecoveryUnavailableReasonV1::WorkspaceNotInitialized,
        WorkspaceRuntimeErrorV1::BindingIdentityMismatch { .. }
        | WorkspaceRuntimeErrorV1::BindingMismatch { .. }
        | WorkspaceRuntimeErrorV1::RebindEvidenceMismatch { .. }
        | WorkspaceRuntimeErrorV1::ResetSourceAmbiguous
        | WorkspaceRuntimeErrorV1::RevalidationKeyMismatch { .. }
        | WorkspaceRuntimeErrorV1::Registry(RegistryErrorV1::WorkspaceRootOccupied { .. }) =>
            WorkspaceRecoveryUnavailableReasonV1::WorkspaceIdentityConflict,
        WorkspaceRuntimeErrorV1::RuntimeDirectoryMissing { .. }
        | WorkspaceRuntimeErrorV1::RuntimePathMismatch { .. }
        | WorkspaceRuntimeErrorV1::RuntimePathsUnsupportedPlatform =>
            WorkspaceRecoveryUnavailableReasonV1::RegisteredRootInvalid,
        WorkspaceRuntimeErrorV1::MaintenanceInProgress
        | WorkspaceRuntimeErrorV1::ResetAdmissionOutcomeUnknown { .. }
        | WorkspaceRuntimeErrorV1::ResetAdmitted { .. }
        | WorkspaceRuntimeErrorV1::ResetSchedulerRetirement
        | WorkspaceRuntimeErrorV1::ResetMarkerConflict
        | WorkspaceRuntimeErrorV1::ResetIdempotencyConflict { .. }
        | WorkspaceRuntimeErrorV1::ResetRegistryPredecessorStale
        | WorkspaceRuntimeErrorV1::RuntimeDirectory(_)
        | WorkspaceRuntimeErrorV1::Layout
        | WorkspaceRuntimeErrorV1::Registry(_)
        | WorkspaceRuntimeErrorV1::Scheduler(_) =>
            WorkspaceRecoveryUnavailableReasonV1::DaemonUnavailable,
    }
}

/// Why a workspace is not recovered, by why its jobs could not be brought to their end.
pub open spec fn worker_reason(error: WorkerErrorV1) -> WorkspaceRecoveryUnavailableReasonV1
    decreases error,
{
    match error {
        WorkerErrorV1::AfterAdmission { source, .. } => worker_reason(*source),
        WorkerErrorV1::Store(_)
        | WorkerErrorV1::Execution(_)
        | WorkerErrorV1::ProcedureV2Preparation(_)
        | WorkerErrorV1::RecoveryRequired =>
            WorkspaceRecoveryUnavailableReasonV1::WorkspaceStateUnreadable,
        WorkerErrorV1::Progress
        | WorkerErrorV1::JobNotFound
        | WorkerErrorV1::BackgroundPanicked
        | WorkerErrorV1::RetirementRejected =>
            WorkspaceRecoveryUnavailableReasonV1::DaemonUnavailable,
    }
}

/// Why a workspace is not recovered, by why its jobs could not be brought to their end.
pub fn unavailable_reason_from_worker_error(error: &WorkerErrorV1) -> (reason:
    WorkspaceRecoveryUnavailableReasonV1)
    ensures
        reason == worker_reason(*error),
    decreases *error,
{
    match error {
        WorkerErrorV1::AfterAdmission { source, .. } => unavailable_reason_from_worker_error(source),
        WorkerErrorV1::Store(_)
        | WorkerErrorV1::Execution(_)
        | WorkerErrorV1::ProcedureV2Preparation(_)
        | WorkerErrorV1::RecoveryRequired =>
            WorkspaceRecoveryUnavailableReasonV1::WorkspaceStateUnreadable,
        WorkerErrorV1::Progress
        | WorkerErrorV1::JobNotFound
        | WorkerErrorV1::BackgroundPanicked
        | WorkerErrorV1::RetirementRejected =>
            WorkspaceRecoveryUnavailableReasonV1::DaemonUnavailable,
    }
}

/// What the recovery of one workspace does next.
#[derive(Debug, PartialEq, Eq)]
pub enum RecoveryStepV1 {
    /// The root that is registered is made a selector.
    MakeSelector,
    /// Maintenance of the worktree is begun.
    BeginMaintenance,
    /// It is looked for a marker of a reset.
    DiscoverMarker,
    /// The reset that the marker tells of is resumed.
    ResumeReset { idempotency_key: String, request_digest: String },
    /// Maintenance is ended, and the workspace is resolved and activated.
    ResolveExisting,
    /// The workspace is active; its jobs have to be brought to their end.
    Activated { workspace_uuid: String, requeued_job_count: u32 },
    /// The workspace is not recovered.
    Unavailable { reason: WorkspaceRecoveryUnavailableReasonV1 },
}

/// What came of a step of a recovery.
#[derive(Debug, PartialEq, Eq)]
pub enum RecoveryEventV1 {
    Succeeded,
    /// The registered root is no root.
    RootInvalid,
    Failed(WorkspaceRuntimeErrorV1),
    /// It was looked for a marker, in maintenance that starts from the given registered workspace.
    MarkerDiscovered { marker: Option<ResetMarkerV1>, registered_workspace_uuid: String },
    /// A scheduler is active for the given workspace.
    Activated { workspace_uuid: String, requeued_job_count: u32 },
}

/// Whether what came of a step can come of it.
pub open spec fn recovery_event_fits(step: RecoveryStepV1, event: RecoveryEventV1) -> bool {
    match event {
        RecoveryEventV1::Succeeded => step is MakeSelector || step is BeginMaintenance,
        RecoveryEventV1::RootInvalid => step is MakeSelector,
        RecoveryEventV1::Failed(_) => step is BeginMaintenance || step is DiscoverMarker
            || step is ResumeReset || step is ResolveExisting,
        RecoveryEventV1::MarkerDiscovered { .. } => step is DiscoverMarker,
        RecoveryEventV1::Activated { .. } => step is ResumeReset || step is ResolveExisting,
    }
}

/// What the recovery of a workspace does once a step came to the given end. A reset is resumed only
/// from the workspace that the entry is about; a workspace that is resolved is recovered under the
/// name that it is registered by, and the target of a reset under its own.
pub open spec fn recovery_next(
    registered: String,
    step: RecoveryStepV1,
    event: RecoveryEventV1,
) -> RecoveryStepV1 {
    match event {
        RecoveryEventV1::Succeeded => if step is MakeSelector {
            RecoveryStepV1::BeginMaintenance
        } else {
            RecoveryStepV1::DiscoverMarker
        },
        RecoveryEventV1::RootInvalid => RecoveryStepV1::Unavailable {
            reason: WorkspaceRecoveryUnavailableReasonV1::RegisteredRootInvalid,
        },
        RecoveryEventV1::Failed(error) => RecoveryStepV1::Unavailable {
            reason: runtime_reason(error),
        },
        RecoveryEventV1::MarkerDiscovered { marker, registered_workspace_uuid } => match marker {
            None => RecoveryStepV1::ResolveExisting,
            Some(marker) => if registered_workspace_uuid@ == registered@ {
                RecoveryStepV1::ResumeReset {
                    idempotency_key: marker.idempotency_key,
                    request_digest: marker.request_digest,
                }
            } else {
                RecoveryStepV1::Unavailable {
                    reason: runtime_reason(WorkspaceRuntimeErrorV1::ResetRegistryPredecessorStale),
                }
            },
        },
        RecoveryEventV1::Activated { workspace_uuid, requeued_job_count } => RecoveryStepV1::Activated {
            workspace_uuid: if step is ResolveExisting {
                registered
            } else {
                workspace_uuid
            },
            requeued_job_count,
        },
    }
}

/// What the recovery of a workspace does once a step came to the given end.
pub fn advance_recovery(
    registered: &String,
    step: RecoveryStepV1,
    event: RecoveryEventV1,
) -> (next: RecoveryStepV1)
    requires
        recovery_event_fits(step, event),
    ensures
        next == recovery_next(*registered, step, event),
{
    match event {
        RecoveryEventV1::Succeeded => if matches!(step, RecoveryStepV1::MakeSelector) {
            RecoveryStepV1::BeginMaintenance
        } else {
            RecoveryStepV1::DiscoverMarker
        },
        RecoveryEventV1::RootInvalid => RecoveryStepV1::Unavailable {
            reason: WorkspaceRecoveryUnavailableReasonV1::RegisteredRootInvalid,
        },
        RecoveryEventV1::Failed(error) => RecoveryStepV1::Unavailable {
            reason: unavailable_reason_from_runtime_error(&error),
        },
        RecoveryEventV1::MarkerDiscovered { marker, registered_workspace_uuid } => match marker {
            None => RecoveryStepV1::ResolveExisting,
            Some(marker) => if registered_workspace_uuid == *registered {
                RecoveryStepV1::ResumeReset {
                    idempotency_key: marker.idempotency_key,
                    request_digest: marker.request_digest,
                }
            } else {
                RecoveryStepV1::Unavailable {
                    reason: WorkspaceRecoveryUnavailableReasonV1::DaemonUnavailable,
                }
            },
        },
        RecoveryEventV1::Activated { workspace_uuid, requeued_job_count } => RecoveryStepV1::Activated {
            workspace_uuid: if matches!(step, RecoveryStepV1::ResolveExisting) {
                registered.clone()
            } else {
                workspace_uuid
            },
            requeued_job_count,
        },
    }
}

/// What is known of a workspace before the jobs of the active ones are brought to their end.
#[derive(Clone, Debug, PartialEq, Eq)]
pub enum RecoveryOutcomeV1 {
    Unavailable(UnavailableWorkspaceReportV1),
    Activated { workspace_uuid: String, requeued_job_count: u32 },
}

/// What is known of the workspaces of a registry so far, in its order.
#[derive(Clone, Debug, PartialEq, Eq)]
pub struct RegistryRecoveryV1 {
    outcomes: Vec<RecoveryOutcomeV1>,
}

/// The entry of a workspace that is active, once it was tried to bring its jobs to their end.
pub open spec fn drained_entry(
    workspace_uuid: String,
    requeued_job_count: u32,
    drain: Result<u64, WorkerErrorV1>,
) -> WorkspaceRecoveryEntryV1 {
    match drain {
        Ok(drained_terminal_job_count) => WorkspaceRecoveryEntryV1::Recovered(
            RecoveredWorkspaceReportV1 {
                workspace_uuid,
                requeued_job_count,
                drained_terminal_job_count,
            },
        ),
        Err(error) => WorkspaceRecoveryEntryV1::Unavailable(
            UnavailableWorkspaceReportV1 { workspace_uuid, reason: worker_reason(error) },
        ),
    }
}

/// How many of the outcomes are of workspaces that are active.
pub open spec fn activated_among(outcomes: Seq<RecoveryOutcomeV1>) -> nat
    decreases outcomes.len(),
{
    if outcomes.len() == 0 {
        0
    } else {
        activated_among(outcomes.drop_last()) + if outcomes.last() is Activated {
            1nat
        } else {
            0nat
        }
    }
}

/// The entries of outcomes: the drains belong to the active workspaces, in order. An active
/// workspace that no drain belongs to has no entry.
pub open spec fn reported(
    outcomes: Seq<RecoveryOutcomeV1>,
    drains: Seq<Result<u64, WorkerErrorV1>>,
) -> Seq<WorkspaceRecoveryEntryV1>
    decreases outcomes.len(),
{
    if outcomes.len() == 0 {
        Seq::empty()
    } else {
        let before = reported(outcomes.drop_last(), drains);
        match outcomes.last() {
            RecoveryOutcomeV1::Unavailable(report) => before.push(
                WorkspaceRecoveryEntryV1::Unavailable(report),
            ),
            RecoveryOutcomeV1::Activated { workspace_uuid, requeued_job_count } => {
                let place = activated_among(outcomes.drop_last());
                if place < drains.len() {
                    before.push(
                        drained_entry(workspace_uuid, requeued_job_count, drains[place as int]),
                    )
                } else {
                    before
                }
            },
        }
    }
}

/// The workspace that an outcome is about.
pub open spec fn outcome_workspace(outcome: RecoveryOutcomeV1) -> String {
    match outcome {
        RecoveryOutcomeV1::Unavailable(report) => report.workspace_uuid,
        RecoveryOutcomeV1::Activated { workspace_uuid, .. } => workspace_uuid,
    }
}

/// The workspace that an entry is about.
pub open spec fn entry_workspace(entry: WorkspaceRecoveryEntryV1) -> String {
    match entry {
        WorkspaceRecoveryEntryV1::Recovered(report) => report.workspace_uuid,
        WorkspaceRecoveryEntryV1::Unavailable(report) => report.workspace_uuid,
    }
}

/// Every workspace of the registry is reported, in its order, whatever came of the others: where
/// there is a drain for each active workspace, there is an entry for each outcome, about the same
/// workspace, and what was known of a workspace that is not available stays as it was.
pub proof fn every_workspace_is_reported(
    outcomes: Seq<RecoveryOutcomeV1>,
    drains: Seq<Result<u64, WorkerErrorV1>>,
)
    requires
        drains.len() >= activated_among(outcomes),
    ensures
        reported(outcomes, drains).len() == outcomes.len(),
        forall|i: int|
            #![trigger reported(outcomes, drains)[i]]
            #![trigger outcomes[i]]
            0 <= i < outcomes.len() ==> {
                &&& entry_workspace(reported(outcomes, drains)[i]) == outcome_workspace(outcomes[i])
                &&& outcomes[i] matches RecoveryOutcomeV1::Unavailable(report) ==> reported(
                    outcomes,
                    drains,
                )[i] == WorkspaceRecoveryEntryV1::Unavailable(report)
            },
    decreases outcomes.len(),
{
    if outcomes.len() > 0 {
        every_workspace_is_reported(outcomes.drop_last(), drains);
        assert forall|i: int| 0 <= i < outcomes.len() implies {
            &&& entry_workspace(#[trigger] reported(outcomes, drains)[i]) == outcome_workspace(
                outcomes[i],
            )
            &&& outcomes[i] matches RecoveryOutcomeV1::Unavailable(report) ==> reported(
                outcomes,
                drains,
            )[i] == WorkspaceRecoveryEntryV1::Unavailable(report)
        } by {
            if i < outcomes.len() - 1 {
                assert(outcomes.drop_last()[i] == outcomes[i]);
                assert(reported(outcomes.drop_last(), drains)[i] == reported(outcomes, drains)[i]);
            }
        }
    }
}

impl View for RegistryRecoveryV1 {
    type V = Seq<RecoveryOutcomeV1>;

    closed spec fn view(&self) -> Seq<RecoveryOutcomeV1> {
        self.outcomes@
    }
}

impl RegistryRecoveryV1 {
    /// A recovery that begins.
    pub fn new() -> (recovery: Self)
        ensures
            recovery@ == Seq::<RecoveryOutcomeV1>::empty(),
    {
        RegistryRecoveryV1 { outcomes: Vec::new() }
    }

    /// Records that the next workspace is not available.
    pub fn record_unavailable(
        &mut self,
        workspace_uuid: String,
        reason: WorkspaceRecoveryUnavailableReasonV1,
    )
        ensures
            final(self)@ == old(self)@.push(
                RecoveryOutcomeV1::Unavailable(
                    UnavailableWorkspaceReportV1 { workspace_uuid, reason },
                ),
            ),
    {
        self.outcomes.push(
            RecoveryOutcomeV1::Unavailable(UnavailableWorkspaceReportV1 { workspace_uuid, reason }),
        );
    }

    /// Records that the next workspace is active.
    pub fn record_activated(&mut self, workspace_uuid: String, requeued_job_count: u32)
        ensures
            final(self)@ == old(self)@.push(
                RecoveryOutcomeV1::Activated { workspace_uuid, requeued_job_count },
            ),
    {
        self.outcomes.push(RecoveryOutcomeV1::Activated { workspace_uuid, requeued_job_count });
    }

    /// The report of the recovery, once it was tried to bring the jobs of each active workspace to
    /// their end.
    pub fn finish(&self, drains: &Vec<Result<u64, WorkerErrorV1>>) -> (report:
        ProductionDaemonRecoveryReportV1)
        ensures
            report@ == reported(self@, drains@),
    {
        let mut entries: Vec<WorkspaceRecoveryEntryV1> = Vec::new();
        let mut next: usize = 0;
        let mut place: usize = 0;
        assert(self@.take(0) =~= Seq::empty());
        while place < self.outcomes.len()
            invariant
                place <= self.outcomes@.len(),
                self.outcomes@ == self@,
                next <= place,
                next == activated_among(self@.take(place as int)),
                entries@ == reported(self@.take(place as int), drains@),
            decreases self.outcomes@.len() - place,
        {
            proof {
                assert(self@.take(place + 1).drop_last() =~= self@.take(place as int));
                assert(self@.take(place + 1).last() == self@[place as int]);
            }
            match &self.outcomes[place] {
                RecoveryOutcomeV1::Unavailable(report) => {
                    entries.push(
                        WorkspaceRecoveryEntryV1::Unavailable(
                            UnavailableWorkspaceReportV1 {
                                workspace_uuid: report.workspace_uuid.clone(),
                                reason: report.reason,
                            },
                        ),
                    );
                },
                RecoveryOutcomeV1::Activated { workspace_uuid, requeued_job_count } => {
                    if next < drains.len() {
                        entries.push(
                            match &drains[next] {
                                Ok(drained_terminal_job_count) =>
                                    WorkspaceRecoveryEntryV1::Recovered(
                                    RecoveredWorkspaceReportV1 {
                                        workspace_uuid: workspace_uuid.clone(),
                                        requeued_job_count: *requeued_job_count,
                                        drained_terminal_job_count: *drained_terminal_job_count,
                                    },
                                ),
                                Err(error) => WorkspaceRecoveryEntryV1::Unavailable(
                                    UnavailableWorkspaceReportV1 {
                                        workspace_uuid: workspace_uuid.clone(),
                                        reason: unavailable_reason_from_worker_error(error),
                                    },
                                ),
                            },
                        );
                    }
                    next = next + 1;
                },
            }
            place = place + 1;
        }
        assert(self@.take(place as int) =~= self@);
        ProductionDaemonRecoveryReportV1::new(entries)
    }
}

/// Whether a recovery goes through the given steps, one after another, from its beginning.
pub open spec fn is_recovery_course(
    registered: String,
    steps: Seq<RecoveryStepV1>,
    events: Seq<RecoveryEventV1>,
) -> bool {
    &&& steps.len() == events.len() + 1
    &&& steps[0] is MakeSelector
    &&& forall|i: int|
        #![trigger events[i]]
        0 <= i < events.len() ==> recovery_event_fits(steps[i], events[i]) && recovery_next(
            registered,
            steps[i],
            events[i],
        ) == steps[i + 1]
}

/// A healthy workspace is recovered: where its root makes a selector, its maintenance begins, no
/// marker is found there, and it is resolved and activated, it ends as active under the name that it
/// is registered by, with the jobs that were queued again.
pub proof fn a_healthy_workspace_is_recovered(
    registered: String,
    maintained: String,
    activated: String,
    requeued_job_count: u32,
)
    ensures
        ({
            let maintenance = recovery_next(
                registered,
                RecoveryStepV1::MakeSelector,
                RecoveryEventV1::Succeeded,
            );
            let discovery = recovery_next(registered, maintenance, RecoveryEventV1::Succeeded);
            let found = RecoveryEventV1::MarkerDiscovered {
                marker: None,
                registered_workspace_uuid: maintained,
            };
            let resolution = recovery_next(registered, discovery, found);
            let active = RecoveryEventV1::Activated {
                workspace_uuid: activated,
                requeued_job_count,
            };
            &&& recovery_event_fits(maintenance, RecoveryEventV1::Succeeded)
            &&& recovery_event_fits(discovery, found)
            &&& recovery_event_fits(resolution, active)
            &&& recovery_next(registered, resolution, active) == (RecoveryStepV1::Activated {
                workspace_uuid: registered,
                requeued_job_count,
            })
        }),
{
}

/// A reset that was left behind is finished at the start: where a marker is found in maintenance that
/// starts from the registered workspace, the reset of that marker is resumed, by its key and digest,
/// and the workspace that becomes active is the one that is reported.
pub proof fn a_reset_that_was_left_behind_is_resumed(
    registered: String,
    maintained: String,
    marker: ResetMarkerV1,
    activated: String,
    requeued_job_count: u32,
)
    requires
        maintained@ == registered@,
    ensures
        ({
            let found = RecoveryEventV1::MarkerDiscovered {
                marker: Some(marker),
                registered_workspace_uuid: maintained,
            };
            let resumption = recovery_next(registered, RecoveryStepV1::DiscoverMarker, found);
            let active = RecoveryEventV1::Activated {
                workspace_uuid: activated,
                requeued_job_count,
            };
            &&& resumption == (RecoveryStepV1::ResumeReset {
                idempotency_key: marker.idempotency_key,
                request_digest: marker.request_digest,
            })
            &&& recovery_event_fits(resumption, active)
            &&& recovery_next(registered, resumption, active) == (RecoveryStepV1::Activated {
                workspace_uuid: activated,
                requeued_job_count,
            })
        }),
{
}

/// A workspace is unavailable only for cause: in a course of recovery, the end right before it was a
/// root that is invalid, a step that failed, or a marker in maintenance that starts from another
/// registered workspace. It is active only once a scheduler is, and a reset is resumed only by a marker
/// that was found.
pub proof fn a_workspace_is_unavailable_only_for_cause(
    registered: String,
    steps: Seq<RecoveryStepV1>,
    events: Seq<RecoveryEventV1>,
    at: int,
)
    requires
        is_recovery_course(registered, steps, events),
        0 < at < steps.len(),
    ensures
        steps[at] matches RecoveryStepV1::Unavailable { reason } ==> {
            ||| events[at - 1] is RootInvalid && reason
                == WorkspaceRecoveryUnavailableReasonV1::RegisteredRootInvalid
            ||| events[at - 1] is Failed
            ||| events[at - 1] matches RecoveryEventV1::MarkerDiscovered {
                marker: Some(_),
                registered_workspace_uuid,
            } && registered_workspace_uuid@ != registered@ && reason
                == WorkspaceRecoveryUnavailableReasonV1::DaemonUnavailable
        },
        steps[at] matches RecoveryStepV1::Activated { workspace_uuid, requeued_job_count } ==> (
        events[at - 1] matches RecoveryEventV1::Activated {
            workspace_uuid: activated,
            requeued_job_count: requeued,
        } && requeued == requeued_job_count && if steps[at - 1] is ResolveExisting {
            workspace_uuid == registered
        } else {
            steps[at - 1] is ResumeReset && workspace_uuid == activated
        }),
        steps[at] is ResumeReset ==> (events[at - 1] matches RecoveryEventV1::MarkerDiscovered {
            marker: Some(marker),
            registered_workspace_uuid,
        } && registered_workspace_uuid@ == registered@ && steps[at] == (RecoveryStepV1::ResumeReset {
            idempotency_key: marker.idempotency_key,
            request_digest: marker.request_digest,
        })),
        steps[at] is ResolveExisting ==> (events[at - 1] matches RecoveryEventV1::MarkerDiscovered {
            marker: None,
            ..
        }),
        (events[at - 1] is Failed || events[at - 1] is RootInvalid) ==> steps[at] is Unavailable,
{
    assert(recovery_next(registered, steps[at - 1], events[at - 1]) == steps[at - 1 + 1]);
}

/// In a course of recovery the marker is looked for before a workspace is resolved, resumed or active,
/// and each of these is reached within four steps.
pub proof fn a_recovery_looks_for_a_marker_first(
    registered: String,
    steps: Seq<RecoveryStepV1>,
    events: Seq<RecoveryEventV1>,
    at: int,
)
    requires
        is_recovery_course(registered, steps, events),
        0 <= at < steps.len(),
    ensures
        at <= 4,
        at == 0 ==> steps[at] is MakeSelector,
        at == 1 ==> steps[at] is BeginMaintenance || steps[at] is Unavailable,
        at == 2 ==> steps[at] is DiscoverMarker || steps[at] is Unavailable,
        at == 3 ==> steps[at] is ResolveExisting || steps[at] is ResumeReset
            || steps[at] is Unavailable,
        at == 4 ==> steps[at] is Activated || steps[at] is Unavailable,
    decreases at,
{
    if at > 0 {
        a_recovery_looks_for_a_marker_first(registered, steps, events, at - 1);
        assert(recovery_event_fits(steps[at - 1], events[at - 1]));
        assert(recovery_next(registered, steps[at - 1], events[at - 1]) == steps[at - 1 + 1]);
    }
}

/// What is told of a workspace that does not resolve tells its cause: that the worktree is gone only
/// where Git finds none, that its identity is in conflict exactly where another workspace, store or
/// database is found in its place, that its root is invalid exactly where a path or selector is, and
/// that it is not initialized exactly where it has no binding.
pub proof fn a_reason_tells_why_a_workspace_does_not_resolve(error: WorkspaceResolutionErrorV1)
    ensures
        resolution_reason(error) is WorktreeGone <==> (error matches
            WorkspaceResolutionErrorV1::Git { source } && !(source is CopiedWorkspaceUuid
            || source is IdentityMismatch || source is MoveConflict || source is Selector)),
        resolution_reason(error) is WorkspaceIdentityConflict <==> {
            ||| error matches WorkspaceResolutionErrorV1::Git { source } && (source
                is CopiedWorkspaceUuid || source is IdentityMismatch || source is MoveConflict)
            ||| error is ExpectedWorkspaceUuidMismatch
            ||| error is GitStoreFingerprintMismatch
            ||| error is PreliminaryIdentityWasNotCandidate
            ||| error is RevalidatedIdentityStateMismatch
            ||| error is RevalidatedStoreIdentityMismatch
            ||| error is RuntimeDatabasePathChangedDuringResolution
        },
        resolution_reason(error) is RegisteredRootInvalid <==> {
            ||| error matches WorkspaceResolutionErrorV1::Git { source } && source is Selector
            ||| error is ManagedDevScopeViolation
            ||| error is Selector
            ||| error is StoredRootPathInvalid
            ||| error is WorkspaceRootPathInvalid
            ||| error is RuntimeDirectoryPathInvalid
            ||| error is RuntimeDirectoryPathUnsupportedPlatform
            ||| error is WorkspaceRootConversion
        },
        resolution_reason(error) is WorkspaceNotInitialized <==> error is ExistingBindingMissing,
        resolution_reason(error) is DaemonUnavailable <==> error is BindingInspection
            || error is BootstrapBindingAlreadyPresent,
{
}

/// What is told of an operation on a workspace that failed tells its cause. Where the workspace did not
/// resolve, that is told.
pub proof fn a_reason_tells_why_an_operation_failed(error: WorkspaceRuntimeErrorV1)
    ensures
        error matches WorkspaceRuntimeErrorV1::Resolution(source) ==> runtime_reason(error)
            == resolution_reason(source),
        !(error is Resolution) ==> {
            &&& !(runtime_reason(error) is WorktreeGone)
            &&& runtime_reason(error) is WorkspaceConfigurationInvalid <==> error is ConfigRead
                || error is ConfigAdmission || error is StoreOptions
            &&& runtime_reason(error) is WorkspaceStateUnreadable <==> error is Store
                || error is BindingDisappeared
            &&& runtime_reason(error) is WorkspaceNotInitialized <==> error
                is ResetSourceNotRegistered
            &&& runtime_reason(error) is WorkspaceIdentityConflict <==> {
                ||| error is BindingIdentityMismatch
                ||| error is BindingMismatch
                ||| error is RebindEvidenceMismatch
                ||| error is ResetSourceAmbiguous
                ||| error is RevalidationKeyMismatch
                ||| error matches WorkspaceRuntimeErrorV1::Registry(source) && source
                    is WorkspaceRootOccupied
            }
            &&& runtime_reason(error) is RegisteredRootInvalid <==> error is RuntimeDirectoryMissing
                || error is RuntimePathMismatch || error is RuntimePathsUnsupportedPlatform
        },
{
}

/// What is told of jobs that could not be brought to their end tells the cause that lies beneath: that
/// the state is unreadable exactly where the Store or the execution failed or recovery is required.
pub proof fn a_reason_tells_why_jobs_were_not_drained(error: WorkerErrorV1)
    ensures
        match error {
            WorkerErrorV1::AfterAdmission { source, .. } => worker_reason(error) == worker_reason(
                *source,
            ),
            _ => worker_reason(error) == if error is Store || error is Execution
                || error is ProcedureV2Preparation || error is RecoveryRequired {
                WorkspaceRecoveryUnavailableReasonV1::WorkspaceStateUnreadable
            } else {
                WorkspaceRecoveryUnavailableReasonV1::DaemonUnavailable
            },
        },
{
}

/// An active workspace is reported by what came of its own jobs: as recovered, with the jobs that were
/// queued again and those that were brought to their end, exactly if they were; and otherwise as
/// unavailable for the reason for which they were not. Its drain is the one after those of the active
/// workspaces before it.
pub proof fn an_active_workspace_is_reported_by_its_own_drain(
    outcomes: Seq<RecoveryOutcomeV1>,
    drains: Seq<Result<u64, WorkerErrorV1>>,
    i: int,
)
    requires
        drains.len() >= activated_among(outcomes),
        0 <= i < outcomes.len(),
    ensures
        reported(outcomes, drains).len() == outcomes.len(),
        activated_among(outcomes.take(i)) <= i,
        outcomes[i] matches RecoveryOutcomeV1::Activated { workspace_uuid, requeued_job_count } ==> {
            &&& activated_among(outcomes.take(i)) < drains.len()
            &&& match drains[activated_among(outcomes.take(i)) as int] {
                Ok(drained) => reported(outcomes, drains)[i]
                    == WorkspaceRecoveryEntryV1::Recovered(
                    RecoveredWorkspaceReportV1 {
                        workspace_uuid,
                        requeued_job_count,
                        drained_terminal_job_count: drained,
                    },
                ),
                Err(error) => reported(outcomes, drains)[i]
                    == WorkspaceRecoveryEntryV1::Unavailable(
                    UnavailableWorkspaceReportV1 { workspace_uuid, reason: worker_reason(error) },
                ),
            }
        },
    decreases outcomes.len(),
{
    every_workspace_is_reported(outcomes, drains);
    let before = outcomes.drop_last();
    if i < before.len() {
        an_active_workspace_is_reported_by_its_own_drain(before, drains, i);
        every_workspace_is_reported(before, drains);
        assert(before.take(i) =~= outcomes.take(i));
        assert(before[i] == outcomes[i]);
        assert(reported(before, drains)[i] == reported(outcomes, drains)[i]);
    } else {
        every_workspace_is_reported(before, drains);
        assert(outcomes.take(i) =~= before);
        active_are_at_most_all(before);
    }
}

proof fn active_are_at_most_all(outcomes: Seq<RecoveryOutcomeV1>)
    ensures
        activated_among(outcomes) <= outcomes.len(),
    decreases outcomes.len(),
{
    if outcomes.len() > 0 {
        active_are_at_most_all(outcomes.drop_last());
    }
}

} // verus!
