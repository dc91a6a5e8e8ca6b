//! Waiting for jobs and for idle workspaces, and reads that name the session they expect.
//!
//! A read that waits observes a notification version, reads the Store, and waits for a change from
//! that version only where what it read does not answer the request. [`WaitingReadV1`] decides, at
//! each of these points, what comes next; the Store, the clock and the notifications are asked by
//! its caller.

use crate::store::{
    same_identity, DurableWorktreeIdentityV1, JobViewV1, StoreErrorV1, StoreJobStateV1,
};
use crate::store;
use crate::text;
use std::cmp::Ordering;
use vstd::prelude::*;

verus! {

/// An instant of the monotonic clock, in milliseconds.
#[derive(Clone, Copy, Debug, PartialEq, Eq, Ord, Hash, Structural)]
pub struct MonotonicDeadlineV1 {
    millis: u64,
}

impl PartialOrd for MonotonicDeadlineV1 {
    /// Deadlines are in the order of their instants.
    fn partial_cmp(&self, other: &Self) -> (order: Option<Ordering>) {
        if self.millis < other.millis {
            Some(Ordering::Less)
        } else if self.millis == other.millis {
            Some(Ordering::Equal)
        } else {
            Some(Ordering::Greater)
        }
    }
}

impl vstd::std_specs::cmp::PartialOrdSpecImpl for MonotonicDeadlineV1 {
    open spec fn obeys_partial_cmp_spec() -> bool {
        true
    }

    open spec fn partial_cmp_spec(&self, other: &Self) -> Option<Ordering> {
        if self.at() < other.at() {
            Some(Ordering::Less)
        } else if self.at() == other.at() {
            Some(Ordering::Equal)
        } else {
            Some(Ordering::Greater)
        }
    }
}

/// A clock that never goes back.
pub trait MonotonicClockV1: Send + Sync {
    fn now_millis(&self) -> u64;
}

/// A version of what a workspace has been notified of.
#[derive(Clone, Copy, Debug, PartialEq, Eq, PartialOrd, Ord, Hash, Structural)]
pub struct ReadNotificationVersionV1 {
    value: u64,
}

/// How a wait for a notification ended.
#[derive(Clone, Copy, Debug, PartialEq, Eq, Structural)]
pub enum ReadWaitOutcomeV1 {
    Notified,
    TimedOut,
}

/// Why a notification source could not be asked.
#[derive(Clone, Copy, Debug, PartialEq, Eq, Structural)]
pub enum ReadNotificationErrorV1 {
    Unavailable,
}

/// A source of notifications about a workspace.
pub trait ReadNotificationV1: Send + Sync {
    fn observe(&self, identity: &DurableWorktreeIdentityV1) -> Result<
        ReadNotificationVersionV1,
        ReadNotificationErrorV1,
    >;

    fn wait_for_change(
        &self,
        identity: &DurableWorktreeIdentityV1,
        observed: ReadNotificationVersionV1,
        deadline: MonotonicDeadlineV1,
    ) -> Result<ReadWaitOutcomeV1, ReadNotificationErrorV1>;
}

/// What a read waits for.
#[derive(Clone, Debug, PartialEq, Eq)]
pub enum ReadWaitV1 {
    Immediate,
    IdleUntil(MonotonicDeadlineV1),
    AfterJobUntil { job_id: String, deadline: MonotonicDeadlineV1 },
}

/// Why a read failed.
#[derive(Debug, PartialEq, Eq)]
pub enum ReadServiceErrorV1 {
    DeadlineOverflow,
    InconsistentState { reason: &'static str },
    JobNotFound { job_id: String },
    MissingSession,
    SessionIdentityMismatch { expected: String, actual: Option<String> },
    Notification(ReadNotificationErrorV1),
    ResultShapeConversion,
    Store(StoreErrorV1),
    TimestampOutOfRange,
    WaitTimedOut,
}

/// The graph session of a workspace.
#[derive(Clone, Debug, PartialEq, Eq)]
pub struct GraphSessionViewV2 {
    pub session_id: String,
    pub revision: u64,
}

/// A workspace as the graph Store shows it.
#[derive(Clone, Debug, PartialEq, Eq)]
pub struct GraphWorkspaceViewV2 {
    pub identity: DurableWorktreeIdentityV1,
    pub graph_state: Option<GraphSessionViewV2>,
    pub queued_job_count: u64,
    pub running_job_id: Option<String>,
    pub latest_workspace_sequence: u64,
}

/// A read on its way, by what it does next. What a read waits from is the version that it observed
/// before it read.
#[derive(Debug, PartialEq, Eq)]
pub enum WaitingReadV1<View> {
    /// The Store is read, and what it says answers the read.
    ReadOnce,
    /// The notifications are asked for their version.
    Observe { deadline: MonotonicDeadlineV1 },
    /// The Store is read.
    Read { observed: ReadNotificationVersionV1, deadline: MonotonicDeadlineV1 },
    /// The clock is asked.
    AskClock { observed: ReadNotificationVersionV1, deadline: MonotonicDeadlineV1 },
    /// A change from the observed version is waited for.
    AwaitChange { observed: ReadNotificationVersionV1, deadline: MonotonicDeadlineV1 },
    /// The Store is read for the last time.
    ReadLast,
    Ended(Result<View, ReadServiceErrorV1>),
}

/// What came of what a read did.
#[derive(Debug, PartialEq, Eq)]
pub enum WaitingReadEventV1<View> {
    Observed(Result<ReadNotificationVersionV1, ReadNotificationErrorV1>),
    /// The Store was read: the view that answers the read, if it does.
    Answered(Result<Option<View>, ReadServiceErrorV1>),
    ClockTold(u64),
    /// The wait for a change ended.
    Woken(Result<ReadWaitOutcomeV1, ReadNotificationErrorV1>),
}

impl MonotonicDeadlineV1 {
    /// The instant, in milliseconds.
    pub closed spec fn at(self) -> u64 {
        self.millis
    }

    /// The deadline at an instant.
    pub fn new(millis: u64) -> (deadline: Self)
        ensures
            deadline.at() == millis,
    {
        MonotonicDeadlineV1 { millis }
    }

    /// The instant, in milliseconds.
    pub fn millis(self) -> (millis: u64)
        ensures
            millis == self.at(),
    {
        self.millis
    }

    /// The deadline a given time after a given instant.
    pub fn after_instant(now_millis: u64, timeout_millis: u64) -> (deadline: Result<
        Self,
        ReadServiceErrorV1,
    >)
        ensures
            match deadline {
                Ok(deadline) => deadline.at() == now_millis + timeout_millis,
                Err(error) => error == ReadServiceErrorV1::DeadlineOverflow && now_millis
                    + timeout_millis > u64::MAX,
            },
    {
        match now_millis.checked_add(timeout_millis) {
            Some(millis) => Ok(MonotonicDeadlineV1 { millis }),
            None => Err(ReadServiceErrorV1::DeadlineOverflow),
        }
    }

    /// The deadline a given time from what the clock tells. The only failure is that it cannot be
    /// held.
    pub fn after<Clock: MonotonicClockV1>(clock: &Clock, timeout_millis: u64) -> (deadline: Result<
        Self,
        ReadServiceErrorV1,
    >)
        ensures
            exists|now: u64| #[trigger]
                call_ensures(Clock::now_millis, (clock,), now) && match deadline {
                    Ok(deadline) => deadline.at() == now + timeout_millis,
                    Err(error) => error == ReadServiceErrorV1::DeadlineOverflow && now
                        + timeout_millis > u64::MAX,
                },
    {
        let now_millis: u64 = clock.now_millis();
        MonotonicDeadlineV1::after_instant(now_millis, timeout_millis)
    }
}

/// Deadlines are in the order of their instants, and equal only where those are.
pub proof fn deadlines_are_ordered_as_their_instants(
    left: MonotonicDeadlineV1,
    right: MonotonicDeadlineV1,
)
    ensures
        vstd::std_specs::cmp::PartialOrdSpec::partial_cmp_spec(&left, &right) is Some,
        (vstd::std_specs::cmp::PartialOrdSpec::partial_cmp_spec(&left, &right) == Some(
            Ordering::Less,
        )) <==> left.at() < right.at(),
        (vstd::std_specs::cmp::PartialOrdSpec::partial_cmp_spec(&left, &right) == Some(
            Ordering::Equal,
        )) <==> left.at() == right.at(),
        (vstd::std_specs::cmp::PartialOrdSpec::partial_cmp_spec(&left, &right) == Some(
            Ordering::Greater,
        )) <==> left.at() > right.at(),
        left == right <==> left.at() == right.at(),
{
}

impl ReadNotificationVersionV1 {
    /// The number of the version.
    pub closed spec fn number(self) -> u64 {
        self.value
    }

    /// The version before any notification.
    pub fn initial() -> (version: Self)
        ensures
            version.number() == 0,
    {
        ReadNotificationVersionV1 { value: 0 }
    }

    /// The version of a number.
    pub fn new(value: u64) -> (version: Self)
        ensures
            version.number() == value,
    {
        ReadNotificationVersionV1 { value }
    }

    /// The number of the version.
    pub fn get(self) -> (value: u64)
        ensures
            value == self.number(),
    {
        self.value
    }
}

impl Default for ReadNotificationVersionV1 {
    /// The version before any notification.
    fn default() -> (version: Self)
        ensures
            version.number() == 0,
    {
        ReadNotificationVersionV1::initial()
    }
}

/// A version is its number: versions of the same number are the same version.
pub proof fn versions_are_their_numbers(
    left: ReadNotificationVersionV1,
    right: ReadNotificationVersionV1,
)
    ensures
        left == right <==> left.number() == right.number(),
{
}

impl ReadWaitV1 {
    /// A read that does not wait.
    pub fn immediate() -> (wait: Self)
        ensures
            wait == ReadWaitV1::Immediate,
    {
        ReadWaitV1::Immediate
    }

    /// A read that waits for an idle workspace.
    pub fn idle_until(deadline: MonotonicDeadlineV1) -> (wait: Self)
        ensures
            wait == ReadWaitV1::IdleUntil(deadline),
    {
        ReadWaitV1::IdleUntil(deadline)
    }

    /// A read that waits for a job to end.
    pub fn after_job_until(job_id: String, deadline: MonotonicDeadlineV1) -> (wait: Self)
        ensures
            wait == (ReadWaitV1::AfterJobUntil { job_id, deadline }),
    {
        ReadWaitV1::AfterJobUntil { job_id, deadline }
    }

    /// When the wait ends at the latest.
    pub fn deadline(&self) -> (deadline: Option<MonotonicDeadlineV1>)
        ensures
            deadline == match *self {
                ReadWaitV1::Immediate => None::<MonotonicDeadlineV1>,
                ReadWaitV1::IdleUntil(deadline) => Some(deadline),
                ReadWaitV1::AfterJobUntil { deadline, .. } => Some(deadline),
            },
    {
        match self {
            ReadWaitV1::Immediate => None,
            ReadWaitV1::IdleUntil(deadline) => Some(*deadline),
            ReadWaitV1::AfterJobUntil { deadline, .. } => Some(*deadline),
        }
    }
}

/// Whether a job has ended.
pub fn is_terminal_job(state: StoreJobStateV1) -> (terminal: bool)
    ensures
        terminal == store::is_terminal_state(state),
{
    match state {
        StoreJobStateV1::Queued => false,
        StoreJobStateV1::Running => false,
        StoreJobStateV1::Succeeded => true,
        StoreJobStateV1::Failed => true,
        StoreJobStateV1::Cancelled => true,
    }
}

/// How a read of a named job begins.
pub open spec fn job_read_begins(job_id: String, wait: ReadWaitV1) -> WaitingReadV1<JobViewV1> {
    match wait {
        ReadWaitV1::Immediate => WaitingReadV1::ReadOnce,
        ReadWaitV1::AfterJobUntil { job_id: waited, deadline } => if waited@ == job_id@ {
            WaitingReadV1::Observe { deadline }
        } else {
            WaitingReadV1::Ended(
                Err(
                    ReadServiceErrorV1::InconsistentState {
                        reason: "named job wait target does not match the requested job",
                    },
                ),
            )
        },
        ReadWaitV1::IdleUntil(_) => WaitingReadV1::Ended(
            Err(
                ReadServiceErrorV1::InconsistentState {
                    reason: "named job reads cannot wait for workspace idleness",
                },
            ),
        ),
    }
}

/// How a read of a named job begins. It can only wait for that very job.
pub fn begin_job_read(job_id: &String, wait: &ReadWaitV1) -> (read: WaitingReadV1<JobViewV1>)
    ensures
        read == job_read_begins(*job_id, *wait),
{
    match wait {
        ReadWaitV1::Immediate => WaitingReadV1::ReadOnce,
        ReadWaitV1::AfterJobUntil { job_id: waited, deadline } => {
            if *waited == *job_id {
                WaitingReadV1::Observe { deadline: *deadline }
            } else {
                WaitingReadV1::Ended(
                    Err(
                        ReadServiceErrorV1::InconsistentState {
                            reason: "named job wait target does not match the requested job",
                        },
                    ),
                )
            }
        },
        ReadWaitV1::IdleUntil(_) => WaitingReadV1::Ended(
            Err(
                ReadServiceErrorV1::InconsistentState {
                    reason: "named job reads cannot wait for workspace idleness",
                },
            ),
        ),
    }
}

/// How a read of a graph workspace begins.
pub fn begin_graph_read(wait: &ReadWaitV1) -> (read: WaitingReadV1<GraphWorkspaceViewV2>)
    ensures
        read == match *wait {
            ReadWaitV1::Immediate => WaitingReadV1::<GraphWorkspaceViewV2>::ReadOnce,
            ReadWaitV1::IdleUntil(deadline) => WaitingReadV1::Observe { deadline },
            ReadWaitV1::AfterJobUntil { deadline, .. } => WaitingReadV1::Observe { deadline },
        },
{
    match wait.deadline() {
        None => WaitingReadV1::ReadOnce,
        Some(deadline) => WaitingReadV1::Observe { deadline },
    }
}

/// What the Store's answer about a job comes to.
pub open spec fn job_read(
    read: Result<Option<JobViewV1>, StoreErrorV1>,
    job_id: String,
) -> Result<JobViewV1, ReadServiceErrorV1> {
    match read {
        Ok(Some(view)) => Ok(view),
        Ok(None) => Err(ReadServiceErrorV1::JobNotFound { job_id }),
        Err(error) => Err(ReadServiceErrorV1::Store(error)),
    }
}

/// What the Store's answer about a job comes to: a job that it does not hold is an error.
pub fn read_job(read: Result<Option<JobViewV1>, StoreErrorV1>, job_id: &String) -> (result: Result<
    JobViewV1,
    ReadServiceErrorV1,
>)
    ensures
        result == job_read(read, *job_id),
{
    match read {
        Ok(Some(view)) => Ok(view),
        Ok(None) => Err(ReadServiceErrorV1::JobNotFound { job_id: job_id.clone() }),
        Err(error) => Err(ReadServiceErrorV1::Store(error)),
    }
}

/// The view of a job that answers a read, if one does: a read that waits is answered only by a job
/// that has ended.
pub open spec fn job_answer(
    wait: ReadWaitV1,
    read: Result<JobViewV1, ReadServiceErrorV1>,
) -> Result<Option<JobViewV1>, ReadServiceErrorV1> {
    match read {
        Err(error) => Err(error),
        Ok(view) => if wait is Immediate || store::is_terminal_state(view.state) {
            Ok(Some(view))
        } else {
            Ok(None)
        },
    }
}

/// The view of a job that answers a read, if one does.
pub fn job_answer_to(
    wait: &ReadWaitV1,
    read: Result<JobViewV1, ReadServiceErrorV1>,
) -> (answer: Result<Option<JobViewV1>, ReadServiceErrorV1>)
    ensures
        answer == job_answer(*wait, read),
{
    match read {
        Err(error) => Err(error),
        Ok(view) => {
            if matches!(wait, ReadWaitV1::Immediate) || is_terminal_job(view.state) {
                Ok(Some(view))
            } else {
                Ok(None)
            }
        },
    }
}

/// Whether what came of a read's step can come of it.
pub open spec fn waiting_event_fits<View>(
    read: WaitingReadV1<View>,
    event: WaitingReadEventV1<View>,
) -> bool {
    match event {
        WaitingReadEventV1::Observed(_) => read is Observe,
        WaitingReadEventV1::Answered(_) => read is ReadOnce || read is Read || read is ReadLast,
        WaitingReadEventV1::ClockTold(_) => read is AskClock,
        WaitingReadEventV1::Woken(_) => read is AwaitChange,
    }
}

/// What a read does once a step came to the given end. A wait that timed out is followed by one last
/// read, since the change may have come unnoticed.
pub open spec fn waiting_next<View>(
    read: WaitingReadV1<View>,
    event: WaitingReadEventV1<View>,
) -> WaitingReadV1<View> {
    match (read, event) {
        (_, WaitingReadEventV1::Observed(Err(error))) => WaitingReadV1::Ended(
            Err(ReadServiceErrorV1::Notification(error)),
        ),
        (_, WaitingReadEventV1::Woken(Err(error))) => WaitingReadV1::Ended(
            Err(ReadServiceErrorV1::Notification(error)),
        ),
        (_, WaitingReadEventV1::Answered(Err(error))) => WaitingReadV1::Ended(Err(error)),
        (_, WaitingReadEventV1::Answered(Ok(Some(view)))) => WaitingReadV1::Ended(Ok(view)),
        (WaitingReadV1::Observe { deadline }, WaitingReadEventV1::Observed(Ok(observed))) =>
            WaitingReadV1::Read { observed, deadline },
        (WaitingReadV1::Read { observed, deadline }, WaitingReadEventV1::Answered(Ok(None))) =>
            WaitingReadV1::AskClock { observed, deadline },
        (WaitingReadV1::AskClock { observed, deadline }, WaitingReadEventV1::ClockTold(now)) =>
            if now >= deadline.at() {
                WaitingReadV1::Ended(Err(ReadServiceErrorV1::WaitTimedOut))
            } else {
                WaitingReadV1::AwaitChange { observed, deadline }
            },
        (
            WaitingReadV1::AwaitChange { deadline, .. },
            WaitingReadEventV1::Woken(Ok(ReadWaitOutcomeV1::Notified)),
        ) => WaitingReadV1::Observe { deadline },
        (
            WaitingReadV1::AwaitChange { .. },
            WaitingReadEventV1::Woken(Ok(ReadWaitOutcomeV1::TimedOut)),
        ) => WaitingReadV1::ReadLast,
        (_, _) => WaitingReadV1::Ended(Err(ReadServiceErrorV1::WaitTimedOut)),
    }
}

impl<View> WaitingReadV1<View> {
    /// What the read does once a step came to the given end.
    pub fn advance(self, event: WaitingReadEventV1<View>) -> (next: Self)
        requires
            waiting_event_fits(self, event),
        ensures
            next == waiting_next(self, event),
    {
        match (self, event) {
            (_, WaitingReadEventV1::Observed(Err(error))) => WaitingReadV1::Ended(
                Err(ReadServiceErrorV1::Notification(error)),
            ),
            (_, WaitingReadEventV1::Woken(Err(error))) => WaitingReadV1::Ended(
                Err(ReadServiceErrorV1::Notification(error)),
            ),
            (_, WaitingReadEventV1::Answered(Err(error))) => WaitingReadV1::Ended(Err(error)),
            (_, WaitingReadEventV1::Answered(Ok(Some(view)))) => WaitingReadV1::Ended(Ok(view)),
            (WaitingReadV1::Observe { deadline }, WaitingReadEventV1::Observed(Ok(observed))) =>
                WaitingReadV1::Read { observed, deadline },
            (WaitingReadV1::Read { observed, deadline }, WaitingReadEventV1::Answered(Ok(None))) =>
                WaitingReadV1::AskClock { observed, deadline },
            (WaitingReadV1::AskClock { observed, deadline }, WaitingReadEventV1::ClockTold(now)) =>
                {
                if now >= deadline.millis() {
                    WaitingReadV1::Ended(Err(ReadServiceErrorV1::WaitTimedOut))
                } else {
                    WaitingReadV1::AwaitChange { observed, deadline }
                }
            },
            (
                WaitingReadV1::AwaitChange { deadline, .. },
                WaitingReadEventV1::Woken(Ok(ReadWaitOutcomeV1::Notified)),
            ) => WaitingReadV1::Observe { deadline },
            (
                WaitingReadV1::AwaitChange { .. },
                WaitingReadEventV1::Woken(Ok(ReadWaitOutcomeV1::TimedOut)),
            ) => WaitingReadV1::ReadLast,
            (_, _) => WaitingReadV1::Ended(Err(ReadServiceErrorV1::WaitTimedOut)),
        }
    }
}

/// Whether a read went through the given steps, one for each event, from its beginning.
pub open spec fn is_waiting_course<View>(
    steps: Seq<WaitingReadV1<View>>,
    events: Seq<WaitingReadEventV1<View>>,
) -> bool {
    &&& steps.len() == events.len() + 1
    &&& steps[0] is ReadOnce || steps[0] is Observe || steps[0] is Ended
    &&& forall|i: int|
        #![trigger events[i]]
        0 <= i < events.len() ==> waiting_event_fits(steps[i], events[i]) && steps[i + 1]
            == waiting_next(steps[i], events[i])
}

/// A change is waited for from the version that was observed before the read that precedes the
/// wait, so that no change that comes after that read is missed; and only where that read did not
/// answer and the deadline has not passed.
pub proof fn a_wait_starts_before_its_read<View>(
    steps: Seq<WaitingReadV1<View>>,
    events: Seq<WaitingReadEventV1<View>>,
    place: int,
)
    requires
        is_waiting_course(steps, events),
        0 <= place < steps.len(),
    ensures
        steps[place] matches WaitingReadV1::AwaitChange { observed, deadline } ==> {
            &&& place >= 3
            &&& steps[place - 3] == WaitingReadV1::<View>::Observe { deadline }
            &&& events[place - 3] == WaitingReadEventV1::<View>::Observed(Ok(observed))
            &&& steps[place - 2] == WaitingReadV1::<View>::Read { observed, deadline }
            &&& events[place - 2] == WaitingReadEventV1::<View>::Answered(Ok(None))
            &&& events[place - 1] matches WaitingReadEventV1::ClockTold(now) && now
                < deadline.at()
        },
{
    if steps[place] is AwaitChange {
        assert(waiting_event_fits(steps[place - 1], events[place - 1]));
        assert(waiting_event_fits(steps[place - 2], events[place - 2]));
        assert(waiting_event_fits(steps[place - 3], events[place - 3]));
    }
}

/// A read keeps the deadline that it began with.
pub proof fn a_read_keeps_its_deadline<View>(
    read: WaitingReadV1<View>,
    event: WaitingReadEventV1<View>,
)
    requires
        waiting_event_fits(read, event),
    ensures
        deadline_of(waiting_next(read, event)) is Some ==> deadline_of(waiting_next(read, event))
            == deadline_of(read),
{
}

/// The deadline of a read, as long as it has one.
pub open spec fn deadline_of<View>(read: WaitingReadV1<View>) -> Option<MonotonicDeadlineV1> {
    match read {
        WaitingReadV1::Observe { deadline } => Some(deadline),
        WaitingReadV1::Read { deadline, .. } => Some(deadline),
        WaitingReadV1::AskClock { deadline, .. } => Some(deadline),
        WaitingReadV1::AwaitChange { deadline, .. } => Some(deadline),
        _ => None,
    }
}

/// A read that ends with a view ends with what the Store was just read as, and one that times out
/// has read the Store last without an answer.
pub proof fn a_read_ends_as_the_store_was_read<View>(
    steps: Seq<WaitingReadV1<View>>,
    events: Seq<WaitingReadEventV1<View>>,
    place: int,
)
    requires
        is_waiting_course(steps, events),
        0 < place < steps.len(),
    ensures
        steps[place] matches WaitingReadV1::Ended(Ok(view)) ==> events[place - 1]
            == WaitingReadEventV1::Answered(Ok(Some(view))),
        steps[place] matches WaitingReadV1::Ended(Err(ReadServiceErrorV1::WaitTimedOut)) ==> {
            ||| events[place - 1] == WaitingReadEventV1::<View>::Answered(Ok(None))
            ||| events[place - 1] == WaitingReadEventV1::<View>::Answered(
                Err(ReadServiceErrorV1::WaitTimedOut),
            )
            ||| place >= 2 && events[place - 2] == WaitingReadEventV1::<View>::Answered(Ok(None))
                && (events[place - 1] matches WaitingReadEventV1::ClockTold(now) && deadline_of(
                steps[place - 1],
            ) matches Some(deadline) && now >= deadline.at())
        },
{
    assert(waiting_event_fits(steps[place - 1], events[place - 1]));
    if place >= 2 {
        assert(waiting_event_fits(steps[place - 2], events[place - 2]));
    }
}

/// A read of a named job that cannot wait as it is asked to reads nothing. One that does not wait
/// reads the Store once, and answers with what it read. One that waits for the job answers only with
/// a job that has ended, and times out only after it has read the job last as one that has not.
pub proof fn a_named_job_is_read_as_asked(
    job_id: String,
    wait: ReadWaitV1,
    reads: Seq<Result<Option<JobViewV1>, StoreErrorV1>>,
    steps: Seq<WaitingReadV1<JobViewV1>>,
    events: Seq<WaitingReadEventV1<JobViewV1>>,
)
    requires
        is_waiting_course(steps, events),
        steps[0] == job_read_begins(job_id, wait),
        reads.len() == events.len(),
        forall|i: int|
            0 <= i < events.len() ==> ((#[trigger] events[i]) matches WaitingReadEventV1::Answered(
                answer,
            ) ==> answer == job_answer(wait, job_read(reads[i], job_id))),
    ensures
        match wait {
            ReadWaitV1::IdleUntil(_) => events.len() == 0 && (steps[0] matches WaitingReadV1::Ended(
                Err(ReadServiceErrorV1::InconsistentState { .. }),
            )),
            ReadWaitV1::Immediate => events.len() <= 1 && (events.len() == 1 ==> steps[1]
                == WaitingReadV1::Ended(job_read(reads[0], job_id))),
            ReadWaitV1::AfterJobUntil { job_id: waited, .. } => if waited@ != job_id@ {
                events.len() == 0 && (steps[0] matches WaitingReadV1::Ended(
                    Err(ReadServiceErrorV1::InconsistentState { .. }),
                ))
            } else {
                &&& steps.last() matches WaitingReadV1::Ended(Ok(view)) ==>
                    store::is_terminal_state(view.state) && reads.last()
                    == Ok::<Option<JobViewV1>, StoreErrorV1>(Some(view))
                &&& steps.last() matches WaitingReadV1::Ended(
                    Err(ReadServiceErrorV1::WaitTimedOut),
                ) ==> {
                    ||| is_unended_read(reads.last())
                    ||| reads.len() >= 2 && is_unended_read(reads[reads.len() - 2])
                        && events.last() is ClockTold
                }
            },
        },
{
    if events.len() > 0 {
        assert(waiting_event_fits(steps[0], events[0]));
        if wait is Immediate && events.len() > 1 {
            assert(waiting_event_fits(steps[1], events[1]));
        }
        a_read_ends_as_the_store_was_read(steps, events, events.len() as int);
        assert(events.last() == events[events.len() - 1]);
    }
}

/// Whether the Store showed a job that has not ended.
pub open spec fn is_unended_read(read: Result<Option<JobViewV1>, StoreErrorV1>) -> bool {
    read matches Ok(Some(view)) && !store::is_terminal_state(view.state)
}

/// The session that a graph view shows.
pub open spec fn shown_session(view: GraphWorkspaceViewV2) -> Option<String> {
    match view.graph_state {
        Some(state) => Some(state.session_id),
        None => None,
    }
}

/// Whether a session is the expected one, where one is expected.
pub open spec fn session_is_expected(expected: Option<&String>, actual: Option<String>) -> bool {
    match expected {
        Some(expected) => actual matches Some(actual) && actual@ == expected@,
        None => true,
    }
}

/// What the Store's answer about a graph workspace comes to.
pub open spec fn graph_view_read(
    read: Result<GraphWorkspaceViewV2, StoreErrorV1>,
    identity: DurableWorktreeIdentityV1,
    expected_session_id: Option<&String>,
) -> Result<GraphWorkspaceViewV2, ReadServiceErrorV1> {
    match read {
        Err(error) => Err(ReadServiceErrorV1::Store(error)),
        Ok(view) => if !store::same_identity_spec(view.identity, identity) {
            Err(
                ReadServiceErrorV1::InconsistentState {
                    reason: "Procedure v2 workspace view identity is inconsistent",
                },
            )
        } else if !session_is_expected(expected_session_id, shown_session(view)) {
            Err(
                ReadServiceErrorV1::SessionIdentityMismatch {
                    expected: *expected_session_id->0,
                    actual: shown_session(view),
                },
            )
        } else {
            Ok(view)
        },
    }
}

/// The session of a view.
pub fn session_of(view: &GraphWorkspaceViewV2) -> (session: Option<String>)
    ensures
        session == shown_session(*view),
{
    match &view.graph_state {
        Some(state) => Some(state.session_id.clone()),
        None => None,
    }
}

/// Whether a session is the expected one, where one is expected.
pub fn is_expected_session(expected: Option<&String>, actual: &Option<String>) -> (same: bool)
    ensures
        same == session_is_expected(expected, *actual),
{
    match expected {
        Some(expected) => match actual {
            Some(actual) => *actual == *expected,
            None => false,
        },
        None => true,
    }
}

/// What the Store's answer about a graph workspace comes to: the view must be of that workspace,
/// and of the expected session where one is expected.
pub fn read_graph_workspace_view_v2(
    read: Result<GraphWorkspaceViewV2, StoreErrorV1>,
    identity: &DurableWorktreeIdentityV1,
    expected_session_id: Option<&String>,
) -> (result: Result<GraphWorkspaceViewV2, ReadServiceErrorV1>)
    ensures
        result == graph_view_read(read, *identity, expected_session_id),
{
    match read {
        Err(error) => Err(ReadServiceErrorV1::Store(error)),
        Ok(view) => {
            if !same_identity(&view.identity, identity) {
                return Err(
                    ReadServiceErrorV1::InconsistentState {
                        reason: "Procedure v2 workspace view identity is inconsistent",
                    },
                );
            }
            let actual = session_of(&view);
            if let Some(expected) = expected_session_id {
                if !is_expected_session(Some(expected), &actual) {
                    return Err(
                        ReadServiceErrorV1::SessionIdentityMismatch {
                            expected: expected.clone(),
                            actual,
                        },
                    );
                }
            }
            Ok(view)
        },
    }
}

/// Whether a workspace has neither a queued nor a running job.
pub open spec fn is_idle(view: GraphWorkspaceViewV2) -> bool {
    view.queued_job_count == 0 && view.running_job_id is None
}

/// The view that answers a wait, if one does. A wait for a job reads the view, the job, and where
/// the job has ended the view once more; the other waits read the view alone.
pub open spec fn graph_predicate(
    wait: ReadWaitV1,
    first: Result<GraphWorkspaceViewV2, ReadServiceErrorV1>,
    job: Result<JobViewV1, ReadServiceErrorV1>,
    second: Result<GraphWorkspaceViewV2, ReadServiceErrorV1>,
) -> Result<Option<GraphWorkspaceViewV2>, ReadServiceErrorV1> {
    match first {
        Err(error) => Err(error),
        Ok(view) => match wait {
            ReadWaitV1::Immediate => Ok(Some(view)),
            ReadWaitV1::IdleUntil(_) => if is_idle(view) {
                Ok(Some(view))
            } else {
                Ok(None)
            },
            ReadWaitV1::AfterJobUntil { .. } => match job {
                Err(error) => Err(error),
                Ok(job) => if store::is_terminal_state(job.state) {
                    match second {
                        Ok(view) => Ok(Some(view)),
                        Err(error) => Err(error),
                    }
                } else {
                    Ok(None)
                },
            },
        },
    }
}

/// The view that answers a wait, if one does.
pub fn graph_predicate_satisfied_v2(
    wait: &ReadWaitV1,
    first: Result<GraphWorkspaceViewV2, ReadServiceErrorV1>,
    job: Result<JobViewV1, ReadServiceErrorV1>,
    second: Result<GraphWorkspaceViewV2, ReadServiceErrorV1>,
) -> (result: Result<Option<GraphWorkspaceViewV2>, ReadServiceErrorV1>)
    ensures
        result == graph_predicate(*wait, first, job, second),
        result matches Ok(Some(view)) ==> (*wait is IdleUntil ==> view.queued_job_count == 0
            && view.running_job_id is None),
        first matches Ok(view) && *wait is IdleUntil && view.queued_job_count == 0
            && view.running_job_id is None ==> result == Ok::<
            Option<GraphWorkspaceViewV2>,
            ReadServiceErrorV1,
        >(Some(first->Ok_0)),
        result matches Ok(Some(_)) && *wait is AfterJobUntil ==> (job matches Ok(job) && !(job.state
            is Queued || job.state is Running)),
{
    let view = match first {
        Err(error) => {
            return Err(error);
        },
        Ok(view) => view,
    };
    match wait {
        ReadWaitV1::Immediate => Ok(Some(view)),
        ReadWaitV1::IdleUntil(_) => {
            if view.queued_job_count == 0 && view.running_job_id.is_none() {
                Ok(Some(view))
            } else {
                Ok(None)
            }
        },
        ReadWaitV1::AfterJobUntil { .. } => match job {
            Err(error) => Err(error),
            Ok(job) => {
                if is_terminal_job(job.state) {
                    match second {
                        Ok(view) => Ok(Some(view)),
                        Err(error) => Err(error),
                    }
                } else {
                    Ok(None)
                }
            },
        },
    }
}

/// The Store, the notifications and the clock of one authoritative read path.
pub struct AuthoritativeReadServiceV1<Store, Notifications, Clock> {
    pub store: Store,
    pub notifications: Notifications,
    pub clock: Clock,
}

impl<Store, Notifications, Clock> AuthoritativeReadServiceV1<Store, Notifications, Clock> {
    /// A read path over the given sources.
    pub fn new(store: Store, notifications: Notifications, clock: Clock) -> (service: Self)
        ensures
            service.store == store,
            service.notifications == notifications,
            service.clock == clock,
    {
        AuthoritativeReadServiceV1 { store, notifications, clock }
    }
}

impl ReadServiceErrorV1 {
    /// What the error is shown as, given what the Store's own error is shown as.
    pub open spec fn shown(self, store_error: Seq<char>) -> Seq<char> {
        match self {
            ReadServiceErrorV1::DeadlineOverflow => "monotonic read deadline overflowed"@,
            ReadServiceErrorV1::InconsistentState { reason } =>
                "inconsistent durable workspace state: "@ + reason@,
            ReadServiceErrorV1::JobNotFound { job_id } => "job "@ + job_id@ + " was not found"@,
            ReadServiceErrorV1::MissingSession => "workspace has no current session"@,
            ReadServiceErrorV1::SessionIdentityMismatch { .. } =>
                "current session does not match the requested identity"@,
            ReadServiceErrorV1::Notification(_) => "read notification source is unavailable"@,
            ReadServiceErrorV1::ResultShapeConversion =>
                "read projection does not satisfy protocol shape"@,
            ReadServiceErrorV1::Store(_) => store_error,
            ReadServiceErrorV1::TimestampOutOfRange =>
                "durable timestamp is outside the protocol timestamp range"@,
            ReadServiceErrorV1::WaitTimedOut =>
                "read wait timed out before its predicate became true"@,
        }
    }

    /// The text of the error, given the text of the Store's own error.
    pub fn message(&self, store_error: &str) -> (message: String)
        ensures
            message@ == self.shown(store_error@),
    {
        match self {
            ReadServiceErrorV1::DeadlineOverflow => "monotonic read deadline overflowed".to_owned(),
            ReadServiceErrorV1::InconsistentState { reason } => text::join_two(
                "inconsistent durable workspace state: ",
                reason,
            ),
            ReadServiceErrorV1::JobNotFound { job_id } => text::join_three(
                "job ",
                job_id,
                " was not found",
            ),
            ReadServiceErrorV1::MissingSession => "workspace has no current session".to_owned(),
            ReadServiceErrorV1::SessionIdentityMismatch { .. } => {
                "current session does not match the requested identity".to_owned()
            },
            ReadServiceErrorV1::Notification(_) => {
                "read notification source is unavailable".to_owned()
            },
            ReadServiceErrorV1::ResultShapeConversion => {
                "read projection does not satisfy protocol shape".to_owned()
            },
            ReadServiceErrorV1::Store(_) => store_error.to_owned(),
            ReadServiceErrorV1::TimestampOutOfRange => {
                "durable timestamp is outside the protocol timestamp range".to_owned()
            },
            ReadServiceErrorV1::WaitTimedOut => {
                "read wait timed out before its predicate became true".to_owned()
            },
        }
    }
}

/// A wait for an idle workspace is answered exactly by a view without a queued and without a running
/// job, and by that very view. A wait for a job is answered exactly where that job has ended, by the
/// view that was read after it. A read that does not wait is answered by the view that was read. Every
/// other view leaves the wait unanswered, and a failed read is its failure.
pub proof fn a_wait_is_answered_by_what_it_waits_for(
    wait: ReadWaitV1,
    first: Result<GraphWorkspaceViewV2, ReadServiceErrorV1>,
    job: Result<JobViewV1, ReadServiceErrorV1>,
    second: Result<GraphWorkspaceViewV2, ReadServiceErrorV1>,
)
    ensures
        first matches Err(error) ==> graph_predicate(wait, first, job, second) == Err::<
            Option<GraphWorkspaceViewV2>,
            ReadServiceErrorV1,
        >(error),
        first matches Ok(shown) ==> match graph_predicate(wait, first, job, second) {
            Ok(Some(view)) => match wait {
                ReadWaitV1::Immediate => view == shown,
                ReadWaitV1::IdleUntil(_) => view == shown && view.queued_job_count == 0
                    && view.running_job_id is None,
                ReadWaitV1::AfterJobUntil { .. } => second == Ok::<
                    GraphWorkspaceViewV2,
                    ReadServiceErrorV1,
                >(view) && (job matches Ok(job) && (job.state is Succeeded || job.state is Failed
                    || job.state is Cancelled)),
            },
            Ok(None) => match wait {
                ReadWaitV1::Immediate => false,
                ReadWaitV1::IdleUntil(_) => shown.queued_job_count > 0 || shown.running_job_id
                    is Some,
                ReadWaitV1::AfterJobUntil { .. } => job matches Ok(job) && (job.state is Queued
                    || job.state is Running),
            },
            Err(error) => wait is AfterJobUntil && match job {
                Err(failure) => error == failure,
                Ok(job) => (job.state is Succeeded || job.state is Failed || job.state is Cancelled)
                    && second == Err::<GraphWorkspaceViewV2, ReadServiceErrorV1>(error),
            },
        },
{
}

/// A wait for a job is answered exactly by a job that has ended; a read that does not wait is answered
/// by the job as it is.
pub proof fn a_job_answers_once_it_has_ended(
    wait: ReadWaitV1,
    read: Result<JobViewV1, ReadServiceErrorV1>,
)
    ensures
        match read {
            Err(error) => job_answer(wait, read) == Err::<Option<JobViewV1>, ReadServiceErrorV1>(
                error,
            ),
            Ok(view) => job_answer(wait, read) == Ok::<Option<JobViewV1>, ReadServiceErrorV1>(
                if wait is Immediate || !(view.state is Queued || view.state is Running) {
                    Some(view)
                } else {
                    None
                },
            ),
        },
{
}

/// A read begins as it is asked to: one that does not wait reads at once, and one that waits observes
/// first, with the deadline that it was given. A named job is waited for only by its own name.
pub proof fn a_named_read_begins_as_asked(job_id: String, wait: ReadWaitV1)
    ensures
        job_read_begins(job_id, wait) is ReadOnce <==> wait is Immediate,
        forall|deadline: MonotonicDeadlineV1|
            (#[trigger] deadline.at()) == deadline.at() ==> (job_read_begins(job_id, wait)
                == WaitingReadV1::<JobViewV1>::Observe { deadline } <==> (wait matches
                ReadWaitV1::AfterJobUntil { job_id: waited, deadline: until } && waited@ == job_id@
                && until == deadline)),
        job_read_begins(job_id, wait) is Ended <==> (wait is IdleUntil || (wait matches
            ReadWaitV1::AfterJobUntil { job_id: waited, .. } && waited@ != job_id@)),
        job_read_begins(job_id, wait) matches WaitingReadV1::Ended(end) ==> (end matches Err(
            ReadServiceErrorV1::InconsistentState { .. },
        )),
{
}

/// What is read of a job is the job that the Store holds: that it holds none, and why it could not be
/// read, are failures that tell so.
pub proof fn a_job_is_read_as_the_store_holds_it(
    read: Result<Option<JobViewV1>, StoreErrorV1>,
    job_id: String,
    view: JobViewV1,
    error: StoreErrorV1,
)
    ensures
        job_read(read, job_id) == Ok::<JobViewV1, ReadServiceErrorV1>(view) <==> read == Ok::<
            Option<JobViewV1>,
            StoreErrorV1,
        >(Some(view)),
        job_read(read, job_id) == Err::<JobViewV1, ReadServiceErrorV1>(
            ReadServiceErrorV1::Store(error),
        ) <==> read == Err::<Option<JobViewV1>, StoreErrorV1>(error),
        job_read(read, job_id) == Err::<JobViewV1, ReadServiceErrorV1>(
            ReadServiceErrorV1::JobNotFound { job_id },
        ) <==> read == Ok::<Option<JobViewV1>, StoreErrorV1>(None),
{
}

/// A graph view is shown exactly if it is of the workspace that was asked for, and of the session that
/// is expected where one is. A view of another workspace is told before one of another session, which
/// tells both.
pub proof fn a_view_is_of_what_was_asked_for(
    read: Result<GraphWorkspaceViewV2, StoreErrorV1>,
    identity: DurableWorktreeIdentityV1,
    expected_session_id: Option<&String>,
)
    ensures
        match read {
            Err(error) => graph_view_read(read, identity, expected_session_id) == Err::<
                GraphWorkspaceViewV2,
                ReadServiceErrorV1,
            >(ReadServiceErrorV1::Store(error)),
            Ok(view) => ({
                let same_workspace = view.identity.common_dir_identity@
                    == identity.common_dir_identity@ && view.identity.workspace_uuid@
                    == identity.workspace_uuid@ && view.identity.worktree_admin_identity@
                    == identity.worktree_admin_identity@;
                let same_session = expected_session_id matches Some(expected) ==> (
                view.graph_state matches Some(state) && state.session_id@ == expected@);
                match graph_view_read(read, identity, expected_session_id) {
                    Ok(shown) => shown == view && same_workspace && same_session,
                    Err(ReadServiceErrorV1::InconsistentState { .. }) => !same_workspace,
                    Err(ReadServiceErrorV1::SessionIdentityMismatch { expected, actual }) =>
                        same_workspace && !same_session && expected_session_id == Some(&expected)
                            && actual == match view.graph_state {
                            Some(state) => Some(state.session_id),
                            None => None,
                        },
                    Err(_) => false,
                }
            }),
        },
{
}

/// A read ends only with what answers it, with a failure, or with its time: with a view exactly where
/// the Store was read as one that answers; with the failure of a notification or of a read exactly
/// where there was one; and for want of time exactly where the clock has reached the deadline, or the
/// last read does not answer.
pub proof fn a_read_ends_exactly_for_cause<View>(
    read: WaitingReadV1<View>,
    event: WaitingReadEventV1<View>,
)
    requires
        waiting_event_fits(read, event),
    ensures
        waiting_next(read, event) is Ended <==> {
            ||| event matches WaitingReadEventV1::Answered(Ok(Some(_)))
            ||| event matches WaitingReadEventV1::Answered(Err(_))
            ||| event matches WaitingReadEventV1::Observed(Err(_))
            ||| event matches WaitingReadEventV1::Woken(Err(_))
            ||| event matches WaitingReadEventV1::ClockTold(now) && (deadline_of(read) matches Some(
                deadline,
            ) && now >= deadline.at())
            ||| (read is ReadLast || read is ReadOnce) && event == WaitingReadEventV1::<
                View,
            >::Answered(Ok(None))
        },
        waiting_next(read, event) matches WaitingReadV1::Ended(end) ==> match event {
            WaitingReadEventV1::Answered(Ok(Some(view))) => end == Ok::<View, ReadServiceErrorV1>(
                view,
            ),
            WaitingReadEventV1::Answered(Err(error)) => end == Err::<View, ReadServiceErrorV1>(
                error,
            ),
            WaitingReadEventV1::Observed(Err(error)) => end == Err::<View, ReadServiceErrorV1>(
                ReadServiceErrorV1::Notification(error),
            ),
            WaitingReadEventV1::Woken(Err(error)) => end == Err::<View, ReadServiceErrorV1>(
                ReadServiceErrorV1::Notification(error),
            ),
            _ => end == Err::<View, ReadServiceErrorV1>(ReadServiceErrorV1::WaitTimedOut),
        },
{
}

/// A wait goes on until its deadline: what was observed leads to a read, a read that does not answer
/// leads to the clock, a clock before the deadline leads to a wait for a change from what was observed,
/// a change leads to another round with the same deadline, and only a wait that timed out leads to a
/// last read.
pub proof fn a_wait_goes_on_until_its_deadline<View>(
    read: WaitingReadV1<View>,
    event: WaitingReadEventV1<View>,
)
    requires
        waiting_event_fits(read, event),
    ensures
        event matches WaitingReadEventV1::Observed(Ok(version)) ==> (waiting_next(read, event)
            matches WaitingReadV1::Read { observed, deadline } && observed == version && deadline_of(
            read,
        ) == Some(deadline)),
        read matches WaitingReadV1::Read { observed: version, deadline: until } ==> (event
            == WaitingReadEventV1::<View>::Answered(Ok(None)) ==> (waiting_next(read, event) matches
            WaitingReadV1::AskClock { observed, deadline } && observed == version && deadline
            == until)),
        read matches WaitingReadV1::AskClock { observed: version, deadline: until } ==> ((event
            matches WaitingReadEventV1::ClockTold(now) && now < until.at()) ==> (waiting_next(
            read,
            event,
        ) matches WaitingReadV1::AwaitChange { observed, deadline } && observed == version
            && deadline == until)),
        event == WaitingReadEventV1::<View>::Woken(Ok(ReadWaitOutcomeV1::Notified)) ==> (
        waiting_next(read, event) matches WaitingReadV1::Observe { deadline } && deadline_of(read)
            == Some(deadline)),
        waiting_next(read, event) is ReadLast <==> event == WaitingReadEventV1::<View>::Woken(
            Ok(ReadWaitOutcomeV1::TimedOut),
        ),
        !(waiting_next(read, event) is ReadOnce),
{
}

/// What the Store tells in one round of a graph read: the view, the job that is waited for, and the
/// view once more.
pub ghost struct GraphReadRound {
    pub first: Result<GraphWorkspaceViewV2, StoreErrorV1>,
    pub job: Result<Option<JobViewV1>, StoreErrorV1>,
    pub second: Result<GraphWorkspaceViewV2, StoreErrorV1>,
}

/// A graph workspace is read as it was asked for, over any rounds of reading and waiting. A view that
/// answers is one that the Store told in the last round, of the workspace and session that were asked
/// for; where idleness is waited for, it is the view of an idle workspace; and where a job is waited
/// for, that job was read as one that has ended. A view that answers ends the read at once.
pub proof fn a_graph_workspace_is_read_as_asked(
    identity: DurableWorktreeIdentityV1,
    expected_session_id: Option<&String>,
    wait: ReadWaitV1,
    waited: String,
    rounds: Seq<GraphReadRound>,
    steps: Seq<WaitingReadV1<GraphWorkspaceViewV2>>,
    events: Seq<WaitingReadEventV1<GraphWorkspaceViewV2>>,
    at: int,
)
    requires
        is_waiting_course(steps, events),
        rounds.len() == events.len(),
        forall|i: int|
            0 <= i < events.len() ==> ((#[trigger] events[i]) matches WaitingReadEventV1::Answered(
                answer,
            ) ==> answer == graph_predicate(
                wait,
                graph_view_read(rounds[i].first, identity, expected_session_id),
                job_read(rounds[i].job, waited),
                graph_view_read(rounds[i].second, identity, expected_session_id),
            )),
        0 <= at < events.len(),
    ensures
        steps[at + 1] matches WaitingReadV1::Ended(Ok(view)) ==> {
            &&& view.identity.workspace_uuid@ == identity.workspace_uuid@
            &&& view.identity.common_dir_identity@ == identity.common_dir_identity@
            &&& view.identity.worktree_admin_identity@ == identity.worktree_admin_identity@
            &&& expected_session_id matches Some(expected) ==> (view.graph_state matches Some(state)
                && state.session_id@ == expected@)
            &&& wait is AfterJobUntil ==> rounds[at].second == Ok::<
                GraphWorkspaceViewV2,
                StoreErrorV1,
            >(view) && (rounds[at].job matches Ok(Some(job)) && !(job.state is Queued || job.state
                is Running))
            &&& !(wait is AfterJobUntil) ==> rounds[at].first == Ok::<
                GraphWorkspaceViewV2,
                StoreErrorV1,
            >(view)
            &&& wait is IdleUntil ==> view.queued_job_count == 0 && view.running_job_id is None
        },
        wait is IdleUntil && events[at] is Answered && (rounds[at].first matches Ok(view)
            && view.queued_job_count == 0 && view.running_job_id is None
            && view.identity.workspace_uuid@ == identity.workspace_uuid@
            && view.identity.common_dir_identity@ == identity.common_dir_identity@
            && view.identity.worktree_admin_identity@ == identity.worktree_admin_identity@ && (
        expected_session_id matches Some(expected) ==> (view.graph_state matches Some(state)
            && state.session_id@ == expected@))) ==> steps[at + 1] == WaitingReadV1::Ended(
            Ok(rounds[at].first->Ok_0),
        ),
{
    assert(waiting_event_fits(steps[at], events[at]));
    assert(steps[at + 1] == waiting_next(steps[at], events[at]));
    a_read_ends_as_the_store_was_read(steps, events, at + 1);
}

} // verus!
