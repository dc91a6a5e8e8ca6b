//! The loop that accepts connections.
//!
//! Connections are accepted only while admission is open. Whatever ends the loop, every handler that
//! was admitted is joined before it returns.

use crate::observability::{EventOperationV1, EventOutcomeV1, EventRecordV1};
use crate::server::{ServerTransportConfigurationErrorV1, DEFAULT_ACCEPT_POLL_INTERVAL_V1};
use crate::server::admission::{HandlerLimitV1, ShutdownAdmissionErrorV1};
use crate::text::join_two;
use vstd::prelude::*;

verus! {

/// Why the accept loop ended. What failed outside is held as the text that it is told by.
#[derive(Clone, Debug, PartialEq, Eq)]
pub enum ServerAcceptLoopErrorV1 {
    ConfigureNonblocking(String),
    Accept(String),
    SpawnHandler(String),
    Admission(ShutdownAdmissionErrorV1),
    HandlerPanicked,
}

impl ServerAcceptLoopErrorV1 {
    /// The text that tells the error.
    pub open spec fn shown(self) -> Seq<char> {
        match self {
            ServerAcceptLoopErrorV1::ConfigureNonblocking(source) =>
                "cannot configure listener as nonblocking: "@ + source@,
            ServerAcceptLoopErrorV1::Accept(source) => "cannot accept Unix connection: "@ + source@,
            ServerAcceptLoopErrorV1::SpawnHandler(source) =>
                "cannot spawn admitted server handler: "@ + source@,
            ServerAcceptLoopErrorV1::Admission(_) => "server admission failed: "@
                + "shutdown admission state is poisoned"@,
            ServerAcceptLoopErrorV1::HandlerPanicked => "an admitted server handler panicked"@,
        }
    }

    /// The text that tells the error.
    pub fn message(&self) -> (message: String)
        ensures
            message@ == self.shown(),
    {
        match self {
            ServerAcceptLoopErrorV1::ConfigureNonblocking(source) => join_two(
                "cannot configure listener as nonblocking: ",
                source,
            ),
            ServerAcceptLoopErrorV1::Accept(source) => join_two(
                "cannot accept Unix connection: ",
                source,
            ),
            ServerAcceptLoopErrorV1::SpawnHandler(source) => join_two(
                "cannot spawn admitted server handler: ",
                source,
            ),
            ServerAcceptLoopErrorV1::Admission(source) => join_two(
                "server admission failed: ",
                source.message(),
            ),
            ServerAcceptLoopErrorV1::HandlerPanicked =>
                "an admitted server handler panicked".to_owned(),
        }
    }
}

/// What spawns a thread for each admitted connection.
#[derive(Clone, Copy, Debug)]
pub struct ThreadConnectionHandlerSpawnerV1;

impl Default for ThreadConnectionHandlerSpawnerV1 {
    /// What spawns a thread for each admitted connection.
    fn default() -> (spawner: Self)
        ensures
            spawner == ThreadConnectionHandlerSpawnerV1,
    {
        ThreadConnectionHandlerSpawnerV1
    }
}

impl ThreadConnectionHandlerSpawnerV1 {
    /// The name that each thread has.
    pub fn thread_name(&self) -> (name: &'static str)
        ensures
            name == "podwayd-connection",
    {
        "podwayd-connection"
    }
}

/// A transport, how many of its handlers may be at work, and how long the loop waits at most, in
/// nanoseconds.
pub struct BoundedAcceptLoopV1<Transport> {
    transport: Transport,
    maximum_in_flight: HandlerLimitV1,
    poll_interval: u128,
}

impl<Transport> BoundedAcceptLoopV1<Transport> {
    /// The transport.
    pub closed spec fn held_transport(self) -> Transport {
        self.transport
    }

    /// How many handlers may be at work.
    pub closed spec fn bound(self) -> HandlerLimitV1 {
        self.maximum_in_flight
    }

    /// How long the loop waits at most.
    pub closed spec fn poll_nanos(self) -> u128 {
        self.poll_interval
    }

    /// A loop that waits ten milliseconds at most.
    pub fn new(transport: Transport, maximum_in_flight: HandlerLimitV1) -> (accept_loop: Self)
        ensures
            accept_loop.held_transport() == transport,
            accept_loop.bound() == maximum_in_flight,
            accept_loop.poll_nanos() == DEFAULT_ACCEPT_POLL_INTERVAL_V1,
    {
        BoundedAcceptLoopV1 {
            transport,
            maximum_in_flight,
            poll_interval: DEFAULT_ACCEPT_POLL_INTERVAL_V1,
        }
    }

    /// A loop that waits for the given time at most, which may not be zero.
    pub fn with_poll_interval(
        transport: Transport,
        maximum_in_flight: HandlerLimitV1,
        poll_interval: u128,
    ) -> (accept_loop: Result<Self, ServerTransportConfigurationErrorV1>)
        ensures
            match accept_loop {
                Ok(accept_loop) => poll_interval > 0 && accept_loop.held_transport() == transport
                    && accept_loop.bound() == maximum_in_flight && accept_loop.poll_nanos()
                    == poll_interval,
                Err(error) => poll_interval == 0 && error
                    == ServerTransportConfigurationErrorV1::ZeroAcceptPollInterval,
            },
    {
        if poll_interval == 0 {
            return Err(ServerTransportConfigurationErrorV1::ZeroAcceptPollInterval);
        }
        Ok(BoundedAcceptLoopV1 { transport, maximum_in_flight, poll_interval })
    }

    /// The transport.
    pub fn transport(&self) -> (transport: &Transport)
        ensures
            *transport == self.held_transport(),
    {
        &self.transport
    }

    /// How many handlers may be at work.
    pub fn maximum_in_flight(&self) -> (maximum: HandlerLimitV1)
        ensures
            maximum == self.bound(),
    {
        self.maximum_in_flight
    }

    /// How long the loop waits at most, in nanoseconds.
    pub fn poll_interval(&self) -> (interval: u128)
        ensures
            interval == self.poll_nanos(),
    {
        self.poll_interval
    }
}

/// What the loop is at.
#[derive(Clone, Copy, Debug, PartialEq, Eq, Structural)]
pub enum AcceptStepV1 {
    ConfigureListener,
    AskAdmission,
    ReapFinished,
    AskCapacity,
    Accept,
    Admit,
    Spawn,
    AwaitProgress,
    JoinAll,
    Ended,
}

/// What came of a step of the loop.
#[derive(Debug, PartialEq, Eq)]
pub enum AcceptEventV1 {
    Succeeded,
    Failed(String),
    AdmissionFailed(ShutdownAdmissionErrorV1),
    /// Whether admission is open.
    Admitting(bool),
    /// Whether as many handlers are at work as may be.
    AtCapacity(bool),
    /// Handlers were joined; whether one of them had panicked.
    Joined { panicked: bool },
    /// There was no connection to accept.
    WouldBlock,
    /// Accepting was interrupted.
    Interrupted,
    /// The connection was not admitted, since admission is closed.
    Closed,
    /// The connection was not admitted, since as many handlers are at work as may be.
    Saturated,
}

/// What the loop asks for besides its next step.
#[derive(Clone, Copy, Debug, PartialEq, Eq, Structural)]
pub enum AcceptEffectV1 {
    Nothing,
    /// Admission is to be closed.
    RequestShutdown,
    /// That as many handlers are at work as may be is to be told.
    ReportSaturation,
}

/// The loop on its way.
#[derive(Clone, Debug, PartialEq, Eq)]
pub struct AcceptLoopRunV1 {
    pub step: AcceptStepV1,
    pub effect: AcceptEffectV1,
    pub saturation_reported: bool,
    pub terminal_error: Option<ServerAcceptLoopErrorV1>,
}

/// Whether what came of a step can come of it.
pub open spec fn accept_event_fits(step: AcceptStepV1, event: AcceptEventV1) -> bool {
    match event {
        AcceptEventV1::Succeeded => step is ConfigureListener || step is Accept || step is Admit
            || step is Spawn || step is AwaitProgress,
        AcceptEventV1::Failed(_) => step is ConfigureListener || step is Accept || step is Spawn,
        AcceptEventV1::AdmissionFailed(_) => step is AskAdmission || step is AskCapacity
            || step is Admit || step is AwaitProgress,
        AcceptEventV1::Admitting(_) => step is AskAdmission,
        AcceptEventV1::AtCapacity(_) => step is AskCapacity,
        AcceptEventV1::Joined { .. } => step is ReapFinished || step is JoinAll,
        AcceptEventV1::WouldBlock | AcceptEventV1::Interrupted => step is Accept,
        AcceptEventV1::Closed | AcceptEventV1::Saturated => step is Admit,
    }
}

/// The loop at another step, with nothing to ask for.
pub open spec fn run_at(run: AcceptLoopRunV1, step: AcceptStepV1) -> AcceptLoopRunV1 {
    AcceptLoopRunV1 { step, effect: AcceptEffectV1::Nothing, ..run }
}

/// The loop that ends for the given error, with the given thing to ask for.
pub open spec fn run_ends_for(
    run: AcceptLoopRunV1,
    error: ServerAcceptLoopErrorV1,
    effect: AcceptEffectV1,
    step: AcceptStepV1,
) -> AcceptLoopRunV1 {
    AcceptLoopRunV1 { step, effect, terminal_error: Some(error), ..run }
}

/// What the loop does once a step came to the given end.
pub open spec fn accept_next(run: AcceptLoopRunV1, event: AcceptEventV1) -> AcceptLoopRunV1 {
    match event {
        AcceptEventV1::AdmissionFailed(error) => run_ends_for(
            run,
            ServerAcceptLoopErrorV1::Admission(error),
            AcceptEffectV1::Nothing,
            AcceptStepV1::JoinAll,
        ),
        AcceptEventV1::Failed(source) => match run.step {
            AcceptStepV1::ConfigureListener => run_ends_for(
                run,
                ServerAcceptLoopErrorV1::ConfigureNonblocking(source),
                AcceptEffectV1::Nothing,
                AcceptStepV1::Ended,
            ),
            AcceptStepV1::Spawn => run_ends_for(
                run,
                ServerAcceptLoopErrorV1::SpawnHandler(source),
                AcceptEffectV1::RequestShutdown,
                AcceptStepV1::JoinAll,
            ),
            _ => run_ends_for(
                run,
                ServerAcceptLoopErrorV1::Accept(source),
                AcceptEffectV1::RequestShutdown,
                AcceptStepV1::JoinAll,
            ),
        },
        AcceptEventV1::Admitting(open) => run_at(
            run,
            if open {
                AcceptStepV1::ReapFinished
            } else {
                AcceptStepV1::JoinAll
            },
        ),
        AcceptEventV1::AtCapacity(full) => AcceptLoopRunV1 {
            saturation_reported: run.saturation_reported && full,
            ..run_at(run, AcceptStepV1::Accept)
        },
        AcceptEventV1::Joined { panicked } => if run.step is JoinAll {
            AcceptLoopRunV1 {
                terminal_error: match run.terminal_error {
                    Some(error) => Some(error),
                    None => if panicked {
                        Some(ServerAcceptLoopErrorV1::HandlerPanicked)
                    } else {
                        None
                    },
                },
                ..run_at(run, AcceptStepV1::Ended)
            }
        } else if panicked {
            run_ends_for(
                run,
                ServerAcceptLoopErrorV1::HandlerPanicked,
                AcceptEffectV1::RequestShutdown,
                AcceptStepV1::AskAdmission,
            )
        } else {
            run_at(run, AcceptStepV1::AskCapacity)
        },
        AcceptEventV1::WouldBlock => run_at(run, AcceptStepV1::AwaitProgress),
        AcceptEventV1::Interrupted | AcceptEventV1::Closed => run_at(
            run,
            AcceptStepV1::AskAdmission,
        ),
        AcceptEventV1::Saturated => AcceptLoopRunV1 {
            step: AcceptStepV1::AskAdmission,
            effect: if run.saturation_reported {
                AcceptEffectV1::Nothing
            } else {
                AcceptEffectV1::ReportSaturation
            },
            saturation_reported: true,
            ..run
        },
        AcceptEventV1::Succeeded => run_at(
            run,
            match run.step {
                AcceptStepV1::Accept => AcceptStepV1::Admit,
                AcceptStepV1::Admit => AcceptStepV1::Spawn,
                _ => AcceptStepV1::AskAdmission,
            },
        ),
    }
}

/// What is told of a step of the loop that came to the given end: a connection that was accepted,
/// whether or not it is admitted; handlers that panicked; that as many handlers are at work as may
/// be, once; and whatever else keeps the loop from going on.
pub open spec fn accept_record(run: AcceptLoopRunV1, event: AcceptEventV1) -> Option<EventRecordV1> {
    match event {
        AcceptEventV1::Failed(_) | AcceptEventV1::AdmissionFailed(_) => Some(
            EventRecordV1 {
                operation: EventOperationV1::ConnectionSetup,
                outcome: EventOutcomeV1::Failed,
            },
        ),
        AcceptEventV1::Joined { panicked: true } => Some(
            EventRecordV1 {
                operation: EventOperationV1::HandlerJoin,
                outcome: EventOutcomeV1::Failed,
            },
        ),
        AcceptEventV1::Saturated => if run.saturation_reported {
            None
        } else {
            Some(
                EventRecordV1 {
                    operation: EventOperationV1::AdmissionSaturation,
                    outcome: EventOutcomeV1::Saturated,
                },
            )
        },
        AcceptEventV1::Succeeded => if run.step is Accept {
            Some(
                EventRecordV1 {
                    operation: EventOperationV1::ConnectionAccepted,
                    outcome: EventOutcomeV1::Succeeded,
                },
            )
        } else {
            None
        },
        _ => None,
    }
}

impl AcceptLoopRunV1 {
    /// What is told of a step that came to the given end.
    pub fn told(&self, event: &AcceptEventV1) -> (record: Option<EventRecordV1>)
        requires
            accept_event_fits(self.step, *event),
        ensures
            record == accept_record(*self, *event),
    {
        match event {
            AcceptEventV1::Failed(_) | AcceptEventV1::AdmissionFailed(_) => Some(
                EventRecordV1::new(EventOperationV1::ConnectionSetup, EventOutcomeV1::Failed),
            ),
            AcceptEventV1::Joined { panicked } => {
                if *panicked {
                    Some(EventRecordV1::new(EventOperationV1::HandlerJoin, EventOutcomeV1::Failed))
                } else {
                    None
                }
            },
            AcceptEventV1::Saturated => {
                if self.saturation_reported {
                    None
                } else {
                    Some(
                        EventRecordV1::new(
                            EventOperationV1::AdmissionSaturation,
                            EventOutcomeV1::Saturated,
                        ),
                    )
                }
            },
            AcceptEventV1::Succeeded => match self.step {
                AcceptStepV1::Accept => Some(
                    EventRecordV1::new(
                        EventOperationV1::ConnectionAccepted,
                        EventOutcomeV1::Succeeded,
                    ),
                ),
                _ => None,
            },
            _ => None,
        }
    }

    /// The loop that begins.
    pub fn begin() -> (run: Self)
        ensures
            run == (AcceptLoopRunV1 {
                step: AcceptStepV1::ConfigureListener,
                effect: AcceptEffectV1::Nothing,
                saturation_reported: false,
                terminal_error: None,
            }),
    {
        AcceptLoopRunV1 {
            step: AcceptStepV1::ConfigureListener,
            effect: AcceptEffectV1::Nothing,
            saturation_reported: false,
            terminal_error: None,
        }
    }

    /// What the loop does once a step came to the given end.
    pub fn advance(self, event: AcceptEventV1) -> (next: Self)
        requires
            accept_event_fits(self.step, event),
        ensures
            next == accept_next(self, event),
    {
        let mut run = self;
        run.effect = AcceptEffectV1::Nothing;
        match event {
            AcceptEventV1::AdmissionFailed(error) => {
                run.terminal_error = Some(ServerAcceptLoopErrorV1::Admission(error));
                run.step = AcceptStepV1::JoinAll;
            },
            AcceptEventV1::Failed(source) => {
                match run.step {
                    AcceptStepV1::ConfigureListener => {
                        run.terminal_error = Some(
                            ServerAcceptLoopErrorV1::ConfigureNonblocking(source),
                        );
                        run.step = AcceptStepV1::Ended;
                    },
                    AcceptStepV1::Spawn => {
                        run.terminal_error = Some(ServerAcceptLoopErrorV1::SpawnHandler(source));
                        run.effect = AcceptEffectV1::RequestShutdown;
                        run.step = AcceptStepV1::JoinAll;
                    },
                    _ => {
                        run.terminal_error = Some(ServerAcceptLoopErrorV1::Accept(source));
                        run.effect = AcceptEffectV1::RequestShutdown;
                        run.step = AcceptStepV1::JoinAll;
                    },
                }
            },
            AcceptEventV1::Admitting(open) => {
                run.step =
                if open {
                    AcceptStepV1::ReapFinished
                } else {
                    AcceptStepV1::JoinAll
                };
            },
            AcceptEventV1::AtCapacity(full) => {
                run.saturation_reported = run.saturation_reported && full;
                run.step = AcceptStepV1::Accept;
            },
            AcceptEventV1::Joined { panicked } => {
                if run.step == AcceptStepV1::JoinAll {
                    if panicked && run.terminal_error.is_none() {
                        run.terminal_error = Some(ServerAcceptLoopErrorV1::HandlerPanicked);
                    }
                    run.step = AcceptStepV1::Ended;
                } else if panicked {
                    run.terminal_error = Some(ServerAcceptLoopErrorV1::HandlerPanicked);
                    run.effect = AcceptEffectV1::RequestShutdown;
                    run.step = AcceptStepV1::AskAdmission;
                } else {
                    run.step = AcceptStepV1::AskCapacity;
                }
            },
            AcceptEventV1::WouldBlock => {
                run.step = AcceptStepV1::AwaitProgress;
            },
            AcceptEventV1::Interrupted | AcceptEventV1::Closed => {
                run.step = AcceptStepV1::AskAdmission;
            },
            AcceptEventV1::Saturated => {
                if !run.saturation_reported {
                    run.effect = AcceptEffectV1::ReportSaturation;
                }
                run.saturation_reported = true;
                run.step = AcceptStepV1::AskAdmission;
            },
            AcceptEventV1::Succeeded => {
                run.step =
                match run.step {
                    AcceptStepV1::Accept => AcceptStepV1::Admit,
                    AcceptStepV1::Admit => AcceptStepV1::Spawn,
                    _ => AcceptStepV1::AskAdmission,
                };
            },
        }
        run
    }

    /// What the loop returns once it has ended.
    pub fn result(self) -> (result: Result<(), ServerAcceptLoopErrorV1>)
        ensures
            result == match self.terminal_error {
                Some(error) => Err(error),
                None => Ok::<(), ServerAcceptLoopErrorV1>(()),
            },
    {
        match self.terminal_error {
            Some(error) => Err(error),
            None => Ok(()),
        }
    }
}

/// A connection is accepted only after admission was found open in the same round, and handled only
/// after it was admitted.
pub proof fn only_open_admission_accepts(run: AcceptLoopRunV1, event: AcceptEventV1)
    requires
        accept_event_fits(run.step, event),
    ensures
        accept_next(run, event).step is ReapFinished ==> event == AcceptEventV1::Admitting(true),
        accept_next(run, event).step is AskCapacity ==> run.step is ReapFinished && event == (
        AcceptEventV1::Joined { panicked: false }),
        accept_next(run, event).step is Accept ==> run.step is AskCapacity,
        accept_next(run, event).step is Admit ==> run.step is Accept && event is Succeeded,
        accept_next(run, event).step is Spawn ==> run.step is Admit && event is Succeeded,
{
}

/// Whatever ends the loop, every handler is joined first: it ends only once they were, unless it
/// never began to accept.
pub proof fn every_handler_is_joined(run: AcceptLoopRunV1, event: AcceptEventV1)
    requires
        accept_event_fits(run.step, event),
    ensures
        accept_next(run, event).step is Ended ==> (run.step is JoinAll && event is Joined) || (
        run.step is ConfigureListener && event is Failed),
{
}

/// An error is never lost, and the loop closes admission before it joins its handlers: an error is
/// found either with admission to be closed, or by admission itself, or before or after the rounds.
pub proof fn an_error_closes_admission(run: AcceptLoopRunV1, event: AcceptEventV1)
    requires
        accept_event_fits(run.step, event),
    ensures
        run.terminal_error is Some ==> accept_next(run, event).terminal_error is Some,
        run.terminal_error is None && accept_next(run, event).terminal_error is Some ==> {
            ||| accept_next(run, event).effect is RequestShutdown
            ||| event is AdmissionFailed
            ||| run.step is ConfigureListener
            ||| run.step is JoinAll
        },
        event == (AcceptEventV1::Joined { panicked: true }) ==> accept_next(
            run,
            event,
        ).terminal_error is Some,
{
}

/// That as many handlers are at work as may be is told once, until fewer are.
pub proof fn saturation_is_told_once(run: AcceptLoopRunV1, event: AcceptEventV1)
    requires
        accept_event_fits(run.step, event),
    ensures
        accept_next(run, event).effect is ReportSaturation ==> !run.saturation_reported
            && accept_next(run, event).saturation_reported,
        run.saturation_reported && !accept_next(run, event).saturation_reported ==> event
            == AcceptEventV1::AtCapacity(false),
{
}

/// The error that the loop ends for is told when it is found, and until then nothing is told as
/// failed. Saturation is told where the loop asks for it, and a connection that was accepted before it
/// is admitted.
pub proof fn every_error_is_told(run: AcceptLoopRunV1, event: AcceptEventV1)
    requires
        accept_event_fits(run.step, event),
    ensures
        run.terminal_error is None ==> ((accept_record(run, event) matches Some(record)
            && record.outcome is Failed) <==> accept_next(run, event).terminal_error is Some),
        (accept_record(run, event) matches Some(record) && record.outcome is Saturated)
            <==> accept_next(run, event).effect is ReportSaturation,
        (accept_record(run, event) matches Some(record) && record.outcome is Succeeded)
            <==> accept_next(run, event).step is Admit,
{
}

/// Parts handlers by whether they have finished. Both parts keep the order.
pub fn part_finished<Handler>(handlers: Vec<(Handler, bool)>) -> (parted: (
    Vec<Handler>,
    Vec<Handler>,
))
    ensures
        parted.0@ == handlers_where(handlers@, true),
        parted.1@ == handlers_where(handlers@, false),
{
    let ghost all = handlers@;
    let mut finished: Vec<Handler> = Vec::new();
    let mut remaining: Vec<Handler> = Vec::new();
    let mut rest = reversed(handlers);
    assert(all.take(0) =~= Seq::empty());
    while rest.len() > 0
        invariant
            rest@.len() <= all.len(),
            rest@ == all.skip(all.len() - rest@.len()).reverse(),
            finished@ == handlers_where(all.take(all.len() - rest@.len()), true),
            remaining@ == handlers_where(all.take(all.len() - rest@.len()), false),
        decreases rest@.len(),
    {
        let ghost place = all.len() - rest@.len();
        match rest.pop() {
            Some((handler, is_finished)) => {
                proof {
                    assert(all[place] == (handler, is_finished));
                    assert(all.take(place + 1).drop_last() =~= all.take(place));
                    assert(all.take(place + 1).last() == all[place]);
                    assert(rest@ =~= all.skip(place + 1).reverse());
                }
                if is_finished {
                    finished.push(handler);
                } else {
                    remaining.push(handler);
                }
            },
            None => {},
        }
    }
    assert(all.take(all.len() as int) =~= all);
    (finished, remaining)
}

/// The handlers that have finished, or those that have not, in order.
pub open spec fn handlers_where<Handler>(
    handlers: Seq<(Handler, bool)>,
    finished: bool,
) -> Seq<Handler>
    decreases handlers.len(),
{
    if handlers.len() == 0 {
        Seq::empty()
    } else {
        let before = handlers_where(handlers.drop_last(), finished);
        if handlers.last().1 == finished {
            before.push(handlers.last().0)
        } else {
            before
        }
    }
}

fn reversed<Item>(items: Vec<Item>) -> (turned: Vec<Item>)
    ensures
        turned@ == items@.reverse(),
{
    let ghost all = items@;
    let mut items = items;
    let mut turned: Vec<Item> = Vec::new();
    while items.len() > 0
        invariant
            items@.len() <= all.len(),
            items@ == all.take(items@.len() as int),
            turned@ == all.skip(items@.len() as int).reverse(),
        decreases items@.len(),
    {
        let ghost length = items@.len();
        match items.pop() {
            Some(item) => {
                turned.push(item);
                assert(items@ =~= all.take(length - 1));
                assert(turned@ =~= all.skip(length - 1).reverse());
            },
            None => {},
        }
    }
    assert(all.skip(0) =~= all);
    turned
}

/// The loop goes on with what it is at: while admission is open it reaps its handlers, asks for room,
/// accepts, admits what it accepted, spawns what it admitted, and begins again. What does not come to
/// a connection only begins again, after a wait where there was none.
pub proof fn a_connection_is_accepted_admitted_and_spawned(run: AcceptLoopRunV1, full: bool)
    ensures
        run.step is ConfigureListener ==> accept_next(run, AcceptEventV1::Succeeded).step
            is AskAdmission,
        run.step is AskAdmission ==> accept_next(run, AcceptEventV1::Admitting(true)).step
            is ReapFinished,
        run.step is AskAdmission ==> accept_next(run, AcceptEventV1::Admitting(false)).step
            is JoinAll,
        run.step is ReapFinished ==> accept_next(
            run,
            (AcceptEventV1::Joined { panicked: false }),
        ).step is AskCapacity,
        run.step is AskCapacity ==> accept_next(run, AcceptEventV1::AtCapacity(full)).step
            is Accept,
        run.step is Accept ==> accept_next(run, AcceptEventV1::Succeeded).step is Admit,
        run.step is Accept ==> accept_next(run, AcceptEventV1::WouldBlock).step is AwaitProgress,
        run.step is Accept ==> accept_next(run, AcceptEventV1::Interrupted).step is AskAdmission,
        run.step is Admit ==> accept_next(run, AcceptEventV1::Succeeded).step is Spawn,
        run.step is Admit ==> accept_next(run, AcceptEventV1::Closed).step is AskAdmission,
        run.step is Admit ==> accept_next(run, AcceptEventV1::Saturated).step is AskAdmission,
        run.step is Spawn ==> accept_next(run, AcceptEventV1::Succeeded).step is AskAdmission,
        run.step is AwaitProgress ==> accept_next(run, AcceptEventV1::Succeeded).step
            is AskAdmission,
        run.step is JoinAll ==> accept_next(run, (AcceptEventV1::Joined { panicked: full })).step
            is Ended,
{
}

/// The loop ends for an error exactly if something failed, for that which failed, and only for the
/// first thing that did once it joins its handlers. Without a failure it asks for nothing but to
/// report saturation.
pub proof fn the_loop_ends_only_for_cause(run: AcceptLoopRunV1, event: AcceptEventV1)
    requires
        accept_event_fits(run.step, event),
    ensures
        ({
            let next = accept_next(run, event);
            &&& next.terminal_error != run.terminal_error ==> (event is Failed
                || event is AdmissionFailed || event == (AcceptEventV1::Joined { panicked: true }))
            &&& event matches AcceptEventV1::AdmissionFailed(error) ==> next.terminal_error == Some(
                ServerAcceptLoopErrorV1::Admission(error),
            ) && next.step is JoinAll
            &&& event matches AcceptEventV1::Failed(source) ==> next.terminal_error == Some(
                if run.step is ConfigureListener {
                    ServerAcceptLoopErrorV1::ConfigureNonblocking(source)
                } else if run.step is Spawn {
                    ServerAcceptLoopErrorV1::SpawnHandler(source)
                } else {
                    ServerAcceptLoopErrorV1::Accept(source)
                },
            )
            &&& event matches AcceptEventV1::Failed(_) ==> (if run.step is ConfigureListener {
                next.step is Ended
            } else {
                next.step is JoinAll && next.effect is RequestShutdown
            })
            &&& event == (AcceptEventV1::Joined { panicked: true }) ==> next.terminal_error == (
            if run.step is JoinAll && run.terminal_error is Some {
                run.terminal_error
            } else {
                Some(ServerAcceptLoopErrorV1::HandlerPanicked)
            })
            &&& next.effect is RequestShutdown ==> next.terminal_error is Some
            &&& next.effect is ReportSaturation <==> event is Saturated && !run.saturation_reported
            &&& next.saturation_reported <==> event is Saturated || (run.saturation_reported
                && event != AcceptEventV1::AtCapacity(false))
        }),
{
}

/// Every handler is in exactly one of the parts: as many as there are, and each where it belongs.
pub proof fn every_handler_is_in_one_part<Handler>(handlers: Seq<(Handler, bool)>)
    ensures
        handlers_where(handlers, true).len() + handlers_where(handlers, false).len()
            == handlers.len(),
        forall|handler: Handler, finished: bool|
            #[trigger] handlers.contains((handler, finished)) <==> handlers_where(
                handlers,
                finished,
            ).contains(handler),
    decreases handlers.len(),
{
    if handlers.len() > 0 {
        let before = handlers.drop_last();
        every_handler_is_in_one_part(before);
        let last = handlers.last();
        assert forall|handler: Handler, finished: bool|
            #[trigger] handlers.contains((handler, finished)) <==> handlers_where(
                handlers,
                finished,
            ).contains(handler) by {
            let part = handlers_where(handlers, finished);
            let part_before = handlers_where(before, finished);
            assert(before.contains((handler, finished)) <==> part_before.contains(handler));
            if handlers.contains((handler, finished)) {
                let at = choose|at: int|
                    0 <= at < handlers.len() && handlers[at] == (handler, finished);
                if at < before.len() {
                    assert(before[at] == (handler, finished));
                    let there = choose|there: int|
                        0 <= there < part_before.len() && part_before[there] == handler;
                    assert(part[there] == handler);
                } else {
                    assert(part[part_before.len() as int] == handler);
                }
            }
            if part.contains(handler) {
                let at = choose|at: int| 0 <= at < part.len() && part[at] == handler;
                if at < part_before.len() {
                    assert(part_before[at] == handler);
                    let there = choose|there: int|
                        0 <= there < before.len() && before[there] == (handler, finished);
                    assert(handlers[there] == (handler, finished));
                } else {
                    assert(handlers[handlers.len() - 1] == (handler, finished));
                }
            }
        }
    }
}

} // verus!
