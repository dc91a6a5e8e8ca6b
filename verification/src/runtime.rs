//! The daemon as a whole: how it starts, what it recovers, and how it stops.
//!
//! The endpoint is acquired before anything is recovered. Every registered workspace is recovered by
//! itself, and reported whether or not it was. The daemon stops well only if both its accept loop and
//! its endpoint did.

pub mod recovery;

use crate::observability::EventOutcomeV1;
use crate::registry::RegistryErrorV1;
use crate::runtime::recovery::ProductionDaemonRecoveryReportV1;
use crate::server::ServerTransportTimeoutsV1;
use crate::server::accept_loop::ServerAcceptLoopErrorV1;
use crate::server::admission::{AdmissionStepV1, HandlerLimitV1, ShutdownAdmissionV1};
use vstd::prelude::*;

verus! {

/// The settings of a daemon. Who the process is, and how graph procedures are admitted, is told by
/// values of others.
#[derive(Clone, Debug, PartialEq, Eq)]
pub struct ProductionDaemonRuntimeConfigV1<Identity, Admission> {
    worker_id: String,
    maximum_in_flight_connections: HandlerLimitV1,
    transport_timeouts: ServerTransportTimeoutsV1,
    process_identity: Option<Identity>,
    dev_mode: bool,
    managed_dev_workspace_root: Option<String>,
    procedure_v2_admission: Admission,
}

/// The settings of a daemon, as they are read.
pub ghost struct DaemonSettings<Identity, Admission> {
    pub worker_id: String,
    pub maximum_in_flight_connections: HandlerLimitV1,
    pub transport_timeouts: ServerTransportTimeoutsV1,
    pub process_identity: Option<Identity>,
    pub dev_mode: bool,
    pub managed_dev_workspace_root: Option<String>,
    pub procedure_v2_admission: Admission,
}

impl<Identity, Admission> View for ProductionDaemonRuntimeConfigV1<Identity, Admission> {
    type V = DaemonSettings<Identity, Admission>;

    closed spec fn view(&self) -> DaemonSettings<Identity, Admission> {
        DaemonSettings {
            worker_id: self.worker_id,
            maximum_in_flight_connections: self.maximum_in_flight_connections,
            transport_timeouts: self.transport_timeouts,
            process_identity: self.process_identity,
            dev_mode: self.dev_mode,
            managed_dev_workspace_root: self.managed_dev_workspace_root,
            procedure_v2_admission: self.procedure_v2_admission,
        }
    }
}

impl<Identity, Admission> ProductionDaemonRuntimeConfigV1<Identity, Admission> {
    /// Settings of a daemon that is not in development, with the given public admission.
    pub fn new(
        worker_id: String,
        maximum_in_flight_connections: HandlerLimitV1,
        transport_timeouts: ServerTransportTimeoutsV1,
        public_admission: Admission,
    ) -> (config: Self)
        ensures
            config@ == (DaemonSettings::<Identity, Admission> {
                worker_id,
                maximum_in_flight_connections,
                transport_timeouts,
                process_identity: None,
                dev_mode: false,
                managed_dev_workspace_root: None,
                procedure_v2_admission: public_admission,
            }),
    {
        ProductionDaemonRuntimeConfigV1 {
            worker_id,
            maximum_in_flight_connections,
            transport_timeouts,
            process_identity: None,
            dev_mode: false,
            managed_dev_workspace_root: None,
            procedure_v2_admission: public_admission,
        }
    }

    /// The settings with the given process.
    pub fn with_process_identity(self, identity: Identity) -> (config: Self)
        ensures
            config@ == (DaemonSettings { process_identity: Some(identity), ..self@ }),
    {
        let mut config = self;
        config.process_identity = Some(identity);
        config
    }

    /// The settings in development.
    pub fn with_dev_mode(self) -> (config: Self)
        ensures
            config@ == (DaemonSettings { dev_mode: true, ..self@ }),
    {
        let mut config = self;
        config.dev_mode = true;
        config
    }

    /// The settings with the given root, beyond which no workspace is served in development.
    pub fn with_managed_dev_workspace_root(self, root: String) -> (config: Self)
        ensures
            config@ == (DaemonSettings { managed_dev_workspace_root: Some(root), ..self@ }),
    {
        let mut config = self;
        config.managed_dev_workspace_root = Some(root);
        config
    }

    /// The settings with the given admission of graph procedures.
    pub fn with_development_v2_admission(self, admission: Admission) -> (config: Self)
        ensures
            config@ == (DaemonSettings { procedure_v2_admission: admission, ..self@ }),
    {
        let mut config = self;
        config.procedure_v2_admission = admission;
        config
    }

    /// The worker that jobs are claimed for.
    pub fn worker_id(&self) -> (worker_id: &String)
        ensures
            *worker_id == self@.worker_id,
    {
        &self.worker_id
    }

    /// How many connections may be served at a time.
    pub fn maximum_in_flight_connections(&self) -> (maximum: HandlerLimitV1)
        ensures
            maximum == self@.maximum_in_flight_connections,
    {
        self.maximum_in_flight_connections
    }

    /// How long a frame may take.
    pub fn transport_timeouts(&self) -> (timeouts: ServerTransportTimeoutsV1)
        ensures
            timeouts == self@.transport_timeouts,
    {
        self.transport_timeouts
    }

    /// Who the process is.
    pub fn process_identity(&self) -> (identity: Option<&Identity>)
        ensures
            match (identity, self@.process_identity) {
                (Some(identity), Some(held)) => *identity == held,
                (None, None) => true,
                _ => false,
            },
    {
        match &self.process_identity {
            Some(identity) => Some(identity),
            None => None,
        }
    }

    /// Whether the daemon is in development.
    pub fn dev_mode(&self) -> (dev_mode: bool)
        ensures
            dev_mode == self@.dev_mode,
    {
        self.dev_mode
    }

    /// The root beyond which no workspace is served in development.
    pub fn managed_dev_workspace_root(&self) -> (root: &Option<String>)
        ensures
            *root == self@.managed_dev_workspace_root,
    {
        &self.managed_dev_workspace_root
    }

    /// How graph procedures are admitted.
    pub fn procedure_v2_admission(&self) -> (admission: &Admission)
        ensures
            *admission == self@.procedure_v2_admission,
    {
        &self.procedure_v2_admission
    }
}

/// Why a daemon does not start. What an endpoint fails for is held as the text that it is told by.
#[derive(Debug, PartialEq, Eq)]
pub enum ProductionDaemonStartupErrorV1 {
    EndpointAcquire(String),
    RegistryLoad(RegistryErrorV1),
    RegistryLoadAndEndpointCleanup { registry: RegistryErrorV1, cleanup: String },
}

impl ProductionDaemonStartupErrorV1 {
    /// The text that tells the error.
    pub open spec fn shown(self) -> &'static str {
        match self {
            ProductionDaemonStartupErrorV1::EndpointAcquire(_) => "cannot acquire daemon endpoint",
            ProductionDaemonStartupErrorV1::RegistryLoad(_) => "cannot load workspace registry",
            ProductionDaemonStartupErrorV1::RegistryLoadAndEndpointCleanup { .. } =>
                "cannot load workspace registry and cannot clean up daemon endpoint",
        }
    }

    /// The text that tells the error.
    pub fn message(&self) -> (message: &'static str)
        ensures
            message == self.shown(),
    {
        match self {
            ProductionDaemonStartupErrorV1::EndpointAcquire(_) => "cannot acquire daemon endpoint",
            ProductionDaemonStartupErrorV1::RegistryLoad(_) => "cannot load workspace registry",
            ProductionDaemonStartupErrorV1::RegistryLoadAndEndpointCleanup { .. } =>
                "cannot load workspace registry and cannot clean up daemon endpoint",
        }
    }
}

/// Why a daemon that has started did not stop well.
#[derive(Clone, Debug, PartialEq, Eq)]
pub enum ProductionDaemonRuntimeErrorV1 {
    AcceptLoop(ServerAcceptLoopErrorV1),
    EndpointShutdown(String),
    AcceptLoopAndEndpointShutdown {
        accept_loop: ServerAcceptLoopErrorV1,
        endpoint_shutdown: String,
    },
}

impl ProductionDaemonRuntimeErrorV1 {
    /// The text that tells the error.
    pub open spec fn shown(self) -> &'static str {
        match self {
            ProductionDaemonRuntimeErrorV1::AcceptLoop(_) => "daemon accept loop failed",
            ProductionDaemonRuntimeErrorV1::EndpointShutdown(_) => "daemon endpoint shutdown failed",
            ProductionDaemonRuntimeErrorV1::AcceptLoopAndEndpointShutdown { .. } =>
                "daemon accept loop and endpoint shutdown both failed",
        }
    }

    /// The text that tells the error.
    pub fn message(&self) -> (message: &'static str)
        ensures
            message == self.shown(),
    {
        match self {
            ProductionDaemonRuntimeErrorV1::AcceptLoop(_) => "daemon accept loop failed",
            ProductionDaemonRuntimeErrorV1::EndpointShutdown(_) => "daemon endpoint shutdown failed",
            ProductionDaemonRuntimeErrorV1::AcceptLoopAndEndpointShutdown { .. } =>
                "daemon accept loop and endpoint shutdown both failed",
        }
    }
}

/// What a daemon that stopped well reports: how many workspaces it had recovered, and how many it
/// had not.
#[derive(Clone, Debug, PartialEq, Eq)]
pub struct ProductionDaemonShutdownReportV1 {
    recovered_workspace_count: usize,
    unavailable_workspace_count: usize,
}

impl ProductionDaemonShutdownReportV1 {
    /// How many workspaces were recovered.
    pub closed spec fn recovered(self) -> usize {
        self.recovered_workspace_count
    }

    /// How many workspaces were not.
    pub closed spec fn unavailable(self) -> usize {
        self.unavailable_workspace_count
    }

    /// The report of a daemon that recovered what is told.
    pub fn from_recovery(recovery: &ProductionDaemonRecoveryReportV1) -> (report: Self)
        ensures
            report.recovered() == recovery::recovered_among(recovery@),
            report.unavailable() == recovery::unavailable_among(recovery@),
            report.recovered() + report.unavailable() == recovery@.len(),
    {
        let recovered_workspace_count = recovery.recovered_workspace_count();
        let unavailable_workspace_count = recovery.unavailable_workspace_count();
        proof {
            recovery::every_entry_is_counted_once(recovery@);
        }
        ProductionDaemonShutdownReportV1 { recovered_workspace_count, unavailable_workspace_count }
    }

    /// How many workspaces were recovered.
    pub fn recovered_workspace_count(&self) -> (count: usize)
        ensures
            count == self.recovered(),
    {
        self.recovered_workspace_count
    }

    /// How many workspaces were not.
    pub fn unavailable_workspace_count(&self) -> (count: usize)
        ensures
            count == self.unavailable(),
    {
        self.unavailable_workspace_count
    }
}

/// What a daemon is stopped by. A handle belongs to the admission of its daemon, which it closes for
/// good, and lets the handlers that were admitted end.
#[derive(Clone, Copy, Debug, PartialEq, Eq, Structural)]
pub struct ProductionDaemonShutdownHandleV1 {
    admission: u64,
}

impl ProductionDaemonShutdownHandleV1 {
    /// Whether an admission is the one that a handle belongs to.
    pub closed spec fn belongs_to(self, admission: ShutdownAdmissionV1) -> bool {
        self.admission == admission.number()
    }

    /// Whether handlers are admitted, as a handle sees it.
    pub open spec fn accepts(self, admission: ShutdownAdmissionV1) -> bool {
        admission.open() && !admission.is_poisoned()
    }

    /// Whether a request of a handle takes admission from one state to another.
    pub open spec fn shuts_down(
        self,
        before: ShutdownAdmissionV1,
        after: ShutdownAdmissionV1,
    ) -> bool {
        &&& self.belongs_to(before)
        &&& after.number() == before.number()
        &&& !after.open()
        &&& after.working() == before.working()
        &&& after.is_poisoned() == before.is_poisoned()
        &&& !before.open() ==> after == before
    }

    /// A handle of the daemon that has the given admission.
    pub fn of(admission: &ShutdownAdmissionV1) -> (handle: Self)
        ensures
            handle.belongs_to(*admission),
    {
        ProductionDaemonShutdownHandleV1 { admission: admission.own_number() }
    }

    /// Closes the admission of the daemon. Handlers that are at work stay at work.
    pub fn request_shutdown(&self, admission: &mut ShutdownAdmissionV1)
        requires
            self.belongs_to(*old(admission)),
        ensures
            self.belongs_to(*final(admission)),
            self.shuts_down(*old(admission), *final(admission)),
            old(admission).steps_to(AdmissionStepV1::Other, *final(admission)),
    {
        admission.request_shutdown();
    }

    /// Whether handlers are admitted. To ask changes nothing, except that a poisoned state closes
    /// admission.
    pub fn is_accepting(&self, admission: &mut ShutdownAdmissionV1) -> (accepting: bool)
        requires
            self.belongs_to(*old(admission)),
        ensures
            self.belongs_to(*final(admission)),
            accepting == self.accepts(*old(admission)),
            !old(admission).is_poisoned() ==> *final(admission) == *old(admission),
            final(admission).open() == accepting,
            final(admission).working() == old(admission).working(),
            final(admission).is_poisoned() == old(admission).is_poisoned(),
            old(admission).steps_to(AdmissionStepV1::Other, *final(admission)),
    {
        admission.is_accepting()
    }
}

/// A handle belongs to one admission, through all that may become of it, and to no other.
pub proof fn a_handle_belongs_to_one_admission(
    handle: ProductionDaemonShutdownHandleV1,
    admission: ShutdownAdmissionV1,
    other: ShutdownAdmissionV1,
)
    requires
        handle.belongs_to(admission),
    ensures
        handle.belongs_to(other) <==> other.number() == admission.number(),
        admission.may_pass(other) ==> handle.belongs_to(other),
{
}

/// A shutdown that one handle of a daemon requests is seen by every handle of it: neither finds that
/// handlers are admitted, the handlers at work stay at work, and a request of either of them after
/// that changes nothing.
pub proof fn every_handle_sees_a_shutdown(
    handle: ProductionDaemonShutdownHandleV1,
    other: ProductionDaemonShutdownHandleV1,
    before: ShutdownAdmissionV1,
    after: ShutdownAdmissionV1,
    again: ShutdownAdmissionV1,
)
    requires
        other.belongs_to(before),
        handle.shuts_down(before, after),
        handle.shuts_down(after, again) || other.shuts_down(after, again),
    ensures
        handle.belongs_to(after),
        other.belongs_to(after),
        !handle.accepts(after),
        !other.accepts(after),
        after.working() == before.working(),
        again == after,
{
}

/// What a daemon that could not load its registry fails with, once it has released its endpoint or
/// failed to.
pub fn shutdown_after_registry_load_failure(
    registry: RegistryErrorV1,
    released: Result<(), String>,
) -> (error: ProductionDaemonStartupErrorV1)
    ensures
        error == match released {
            Ok(()) => ProductionDaemonStartupErrorV1::RegistryLoad(registry),
            Err(cleanup) => ProductionDaemonStartupErrorV1::RegistryLoadAndEndpointCleanup {
                registry,
                cleanup,
            },
        },
{
    match released {
        Ok(()) => ProductionDaemonStartupErrorV1::RegistryLoad(registry),
        Err(cleanup) => ProductionDaemonStartupErrorV1::RegistryLoadAndEndpointCleanup {
            registry,
            cleanup,
        },
    }
}

/// How the start of a daemon is told: it succeeds once the endpoint is acquired and the registry
/// loaded, whatever became of the workspaces.
pub fn daemon_start_outcome(endpoint_acquired: bool, registry_loaded: bool) -> (outcome:
    EventOutcomeV1)
    ensures
        outcome == if endpoint_acquired && registry_loaded {
            EventOutcomeV1::Succeeded
        } else {
            EventOutcomeV1::Failed
        },
{
    if endpoint_acquired && registry_loaded {
        EventOutcomeV1::Succeeded
    } else {
        EventOutcomeV1::Failed
    }
}

/// How the stop of a daemon is told.
pub fn daemon_stop_outcome(accept_loop_succeeded: bool, endpoint_shutdown_succeeded: bool) -> (
    outcome: EventOutcomeV1)
    ensures
        outcome == if accept_loop_succeeded && endpoint_shutdown_succeeded {
            EventOutcomeV1::Succeeded
        } else {
            EventOutcomeV1::Failed
        },
{
    if accept_loop_succeeded && endpoint_shutdown_succeeded {
        EventOutcomeV1::Succeeded
    } else {
        EventOutcomeV1::Failed
    }
}

/// How a daemon stopped, by how its accept loop ended and how its endpoint was released: both are
/// done in any case, and no failure is lost.
pub fn runtime_result(
    accept_result: Result<(), ServerAcceptLoopErrorV1>,
    shutdown_result: Result<(), String>,
    recovery: &ProductionDaemonRecoveryReportV1,
) -> (result: Result<ProductionDaemonShutdownReportV1, ProductionDaemonRuntimeErrorV1>)
    ensures
        match result {
            Ok(report) => accept_result is Ok && shutdown_result is Ok && report.recovered()
                == recovery::recovered_among(recovery@) && report.unavailable()
                == recovery::unavailable_among(recovery@),
            Err(error) => match (accept_result, shutdown_result) {
                (Ok(()), Ok(())) => false,
                (Err(accept_loop), Ok(())) => error == ProductionDaemonRuntimeErrorV1::AcceptLoop(
                    accept_loop,
                ),
                (Ok(()), Err(endpoint_shutdown)) => error
                    == ProductionDaemonRuntimeErrorV1::EndpointShutdown(endpoint_shutdown),
                (Err(accept_loop), Err(endpoint_shutdown)) => error == (
                ProductionDaemonRuntimeErrorV1::AcceptLoopAndEndpointShutdown {
                    accept_loop,
                    endpoint_shutdown,
                }),
            },
        },
{
    match (accept_result, shutdown_result) {
        (Ok(()), Ok(())) => Ok(ProductionDaemonShutdownReportV1::from_recovery(recovery)),
        (Err(accept_loop), Ok(())) => Err(ProductionDaemonRuntimeErrorV1::AcceptLoop(accept_loop)),
        (Ok(()), Err(endpoint_shutdown)) => Err(
            ProductionDaemonRuntimeErrorV1::EndpointShutdown(endpoint_shutdown),
        ),
        (Err(accept_loop), Err(endpoint_shutdown)) => Err(
            ProductionDaemonRuntimeErrorV1::AcceptLoopAndEndpointShutdown {
                accept_loop,
                endpoint_shutdown,
            },
        ),
    }
}

/// A daemon has stopped well exactly if its accept loop ended well and its endpoint was released. Each that
/// failed is told, and both where both did; a daemon that stopped well reports every workspace once.
pub proof fn a_daemon_stops_well_only_as_a_whole(
    accept_result: Result<(), ServerAcceptLoopErrorV1>,
    shutdown_result: Result<(), String>,
    recovery: ProductionDaemonRecoveryReportV1,
    result: Result<ProductionDaemonShutdownReportV1, ProductionDaemonRuntimeErrorV1>,
)
    requires
        call_ensures(runtime_result, (accept_result, shutdown_result, &recovery), result),
    ensures
        result is Ok <==> accept_result is Ok && shutdown_result is Ok,
        result matches Ok(report) ==> report.recovered() + report.unavailable() == recovery@.len(),
        result matches Err(error) ==> {
            &&& error is AcceptLoop <==> accept_result is Err && shutdown_result is Ok
            &&& error is EndpointShutdown <==> accept_result is Ok && shutdown_result is Err
            &&& error is AcceptLoopAndEndpointShutdown <==> accept_result is Err
                && shutdown_result is Err
            &&& error matches ProductionDaemonRuntimeErrorV1::AcceptLoop(told) ==> accept_result
                == Err::<(), ServerAcceptLoopErrorV1>(told)
            &&& error matches ProductionDaemonRuntimeErrorV1::EndpointShutdown(told)
                ==> shutdown_result == Err::<(), String>(told)
            &&& error matches ProductionDaemonRuntimeErrorV1::AcceptLoopAndEndpointShutdown {
                accept_loop,
                endpoint_shutdown,
            } ==> accept_result == Err::<(), ServerAcceptLoopErrorV1>(accept_loop)
                && shutdown_result == Err::<(), String>(endpoint_shutdown)
        },
{
    recovery::every_entry_is_counted_once(recovery@);
}

/// A daemon that could not load its registry tells that, and that its endpoint was not released where it
/// was not.
pub proof fn a_daemon_without_registry_tells_both_failures(
    registry: RegistryErrorV1,
    released: Result<(), String>,
    error: ProductionDaemonStartupErrorV1,
)
    requires
        call_ensures(shutdown_after_registry_load_failure, (registry, released), error),
    ensures
        error is RegistryLoad <==> released is Ok,
        error matches ProductionDaemonStartupErrorV1::RegistryLoad(told) ==> told == registry,
        error matches ProductionDaemonStartupErrorV1::RegistryLoadAndEndpointCleanup {
            registry: told,
            cleanup,
        } ==> told == registry && released == Err::<(), String>(cleanup),
        !(error is EndpointAcquire),
{
}

} // verus!
