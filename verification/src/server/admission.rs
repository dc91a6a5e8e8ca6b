//! Who is admitted, and when nobody is any more.

use vstd::prelude::*;

verus! {

/// Why admission cannot be asked.
#[derive(Clone, Copy, Debug, PartialEq, Eq, Structural)]
pub enum ShutdownAdmissionErrorV1 {
    PoisonedState,
}

impl ShutdownAdmissionErrorV1 {
    /// The text that tells the error.
    pub fn message(&self) -> (message: &'static str)
        ensures
            message == "shutdown admission state is poisoned",
    {
        match self {
            ShutdownAdmissionErrorV1::PoisonedState => "shutdown admission state is poisoned",
        }
    }
}

/// That a handler was admitted before shutdown began. It is given back once.
#[derive(Debug)]
pub struct ShutdownAdmissionTicketV1 {
    issued: (),
}

/// Whether a handler was admitted.
#[derive(Debug)]
pub enum ShutdownAdmissionOutcomeV1 {
    Admitted(ShutdownAdmissionTicketV1),
    Closed,
    AtCapacity,
}

/// How many handlers may be at work: one at least.
#[derive(Clone, Copy, Debug, PartialEq, Eq, Structural)]
pub struct HandlerLimitV1 {
    limit: usize,
}

impl HandlerLimitV1 {
    #[verifier::type_invariant]
    spec fn admits_some(self) -> bool {
        self.limit > 0
    }

    /// The number.
    pub closed spec fn count(self) -> usize {
        self.limit
    }

    /// The limit of the given number, unless it is zero.
    pub fn new(limit: usize) -> (made: Option<Self>)
        ensures
            match made {
                Some(made) => limit > 0 && made.count() == limit,
                None => limit == 0,
            },
    {
        if limit == 0 {
            return None;
        }
        Some(HandlerLimitV1 { limit })
    }

    /// The number. It is never zero.
    pub fn get(self) -> (limit: usize)
        ensures
            limit == self.count(),
            limit > 0,
    {
        proof {
            use_type_invariant(&self);
        }
        self.limit
    }
}

/// What a call did to the handlers at work.
#[derive(Clone, Copy, Debug, PartialEq, Eq, Structural)]
pub enum AdmissionStepV1 {
    /// A handler was admitted, where fewer than the given number were at work.
    Admitted { maximum: usize },
    /// A ticket was taken back.
    Released,
    /// Neither.
    Other,
}

/// How many of some calls admitted a handler.
pub open spec fn admissions(steps: Seq<AdmissionStepV1>) -> nat
    decreases steps.len(),
{
    if steps.len() == 0 {
        0
    } else {
        admissions(steps.drop_last()) + if steps.last() is Admitted {
            1nat
        } else {
            0
        }
    }
}

/// How many of some calls took a ticket back.
pub open spec fn releases(steps: Seq<AdmissionStepV1>) -> nat
    decreases steps.len(),
{
    if steps.len() == 0 {
        0
    } else {
        releases(steps.drop_last()) + if steps.last() is Released {
            1nat
        } else {
            0
        }
    }
}

/// Whether handlers are admitted, how many of those that were are still at work, and whether one
/// who had the state in hand has failed to put it down. The number of an admission tells it from the
/// others of its process, as long as each is made with another.
#[derive(Debug)]
pub struct ShutdownAdmissionV1 {
    number: u64,
    accepting: bool,
    in_flight: usize,
    poisoned: bool,
}

impl ShutdownAdmissionV1 {
    /// Whether handlers are admitted.
    pub closed spec fn open(self) -> bool {
        self.accepting
    }

    /// How many handlers are at work.
    pub closed spec fn working(self) -> usize {
        self.in_flight
    }

    /// Whether the state is poisoned.
    pub closed spec fn is_poisoned(self) -> bool {
        self.poisoned
    }

    /// The number that tells the admission from others.
    pub closed spec fn number(self) -> u64 {
        self.number
    }

    /// Whether admission may pass from one state to another: it is the same admission, once closed it
    /// stays closed, and once poisoned it stays poisoned.
    pub open spec fn may_pass(self, after: Self) -> bool {
        &&& after.number() == self.number()
        &&& after.open() ==> self.open()
        &&& self.is_poisoned() ==> after.is_poisoned()
    }

    /// How many handlers are at work, as far as the state tells: none where it is poisoned.
    pub open spec fn told_in_flight(self) -> usize {
        if self.is_poisoned() {
            0
        } else {
            self.working()
        }
    }

    /// Whether a call that did the given thing may take admission from one state to another.
    pub open spec fn steps_to(self, step: AdmissionStepV1, after: Self) -> bool {
        &&& self.may_pass(after)
        &&& match step {
            AdmissionStepV1::Admitted { maximum } => {
                &&& self.open()
                &&& !self.is_poisoned()
                &&& self.working() < maximum
                &&& after.working() == self.working() + 1
            },
            AdmissionStepV1::Released => {
                &&& self.working() > 0
                &&& after.working() == self.working() - 1
            },
            AdmissionStepV1::Other => after.working() == self.working(),
        }
    }

    /// The first admission of a process. It is open, with no handler at work.
    pub fn new() -> (admission: Self)
        ensures
            admission.number() == 0,
            admission.open(),
            admission.working() == 0,
            !admission.is_poisoned(),
    {
        ShutdownAdmissionV1::numbered(0)
    }

    /// The admission of the given number. It is open, with no handler at work.
    pub fn numbered(number: u64) -> (admission: Self)
        ensures
            admission.number() == number,
            admission.open(),
            admission.working() == 0,
            !admission.is_poisoned(),
    {
        ShutdownAdmissionV1 { number, accepting: true, in_flight: 0, poisoned: false }
    }

    /// The number that tells the admission from others.
    pub fn own_number(&self) -> (number: u64)
        ensures
            number == self.number(),
    {
        self.number
    }

    /// Closes admission. Handlers that are at work stay at work.
    pub fn request_shutdown(&mut self)
        ensures
            !final(self).open(),
            final(self).working() == old(self).working(),
            final(self).is_poisoned() == old(self).is_poisoned(),
            !old(self).open() ==> *final(self) == *old(self),
            old(self).steps_to(AdmissionStepV1::Other, *final(self)),
            final(self).told_in_flight() == old(self).told_in_flight(),
    {
        self.accepting = false;
    }

    /// Has the state poisoned.
    pub fn poison(&mut self)
        ensures
            final(self).is_poisoned(),
            final(self).open() == old(self).open(),
            final(self).working() == old(self).working(),
            old(self).steps_to(AdmissionStepV1::Other, *final(self)),
    {
        self.poisoned = true;
    }

    /// Asks for the state. A poisoned state closes admission.
    fn lock_state(&mut self) -> (verdict: Result<(), ShutdownAdmissionErrorV1>)
        ensures
            verdict is Ok <==> !old(self).is_poisoned(),
            final(self).open() == (old(self).open() && !old(self).is_poisoned()),
            final(self).working() == old(self).working(),
            final(self).is_poisoned() == old(self).is_poisoned(),
            final(self).number() == old(self).number(),
            !old(self).is_poisoned() ==> *final(self) == *old(self),
    {
        if self.poisoned {
            self.accepting = false;
            return Err(ShutdownAdmissionErrorV1::PoisonedState);
        }
        Ok(())
    }

    /// Whether handlers are admitted. A poisoned state closes admission.
    pub fn try_is_accepting(&mut self) -> (accepting: Result<bool, ShutdownAdmissionErrorV1>)
        ensures
            accepting == if old(self).is_poisoned() {
                Err(ShutdownAdmissionErrorV1::PoisonedState)
            } else {
                Ok(old(self).open())
            },
            final(self).open() == (old(self).open() && !old(self).is_poisoned()),
            final(self).working() == old(self).working(),
            final(self).is_poisoned() == old(self).is_poisoned(),
            !old(self).is_poisoned() ==> *final(self) == *old(self),
            old(self).steps_to(AdmissionStepV1::Other, *final(self)),
    {
        match self.lock_state() {
            Ok(()) => Ok(self.accepting),
            Err(error) => Err(error),
        }
    }

    /// Whether handlers are admitted: not where the state is poisoned.
    pub fn is_accepting(&mut self) -> (accepting: bool)
        ensures
            accepting == (old(self).open() && !old(self).is_poisoned()),
            final(self).open() == accepting,
            final(self).working() == old(self).working(),
            final(self).is_poisoned() == old(self).is_poisoned(),
            !old(self).is_poisoned() ==> *final(self) == *old(self),
            old(self).steps_to(AdmissionStepV1::Other, *final(self)),
    {
        match self.try_is_accepting() {
            Ok(accepting) => accepting,
            Err(_) => false,
        }
    }

    /// How many handlers are at work, as far as the state tells: none where it is poisoned.
    pub fn in_flight(&mut self) -> (count: usize)
        ensures
            count == old(self).told_in_flight(),
            final(self).open() == (old(self).open() && !old(self).is_poisoned()),
            final(self).working() == old(self).working(),
            final(self).is_poisoned() == old(self).is_poisoned(),
            !old(self).is_poisoned() ==> *final(self) == *old(self),
            old(self).steps_to(AdmissionStepV1::Other, *final(self)),
    {
        match self.lock_state() {
            Ok(()) => self.in_flight,
            Err(_) => 0,
        }
    }

    /// Admits a handler while admission is open, as long as fewer than the given number are at work.
    pub fn try_admit(&mut self, maximum: HandlerLimitV1) -> (outcome: Result<
        ShutdownAdmissionOutcomeV1,
        ShutdownAdmissionErrorV1,
    >)
        ensures
            match outcome {
                Err(error) => old(self).is_poisoned() && error
                    == ShutdownAdmissionErrorV1::PoisonedState,
                Ok(ShutdownAdmissionOutcomeV1::Closed) => !old(self).is_poisoned()
                    && !old(self).open(),
                Ok(ShutdownAdmissionOutcomeV1::AtCapacity) => !old(self).is_poisoned()
                    && old(self).open() && old(self).working() >= maximum.count(),
                Ok(ShutdownAdmissionOutcomeV1::Admitted(_)) => !old(self).is_poisoned()
                    && old(self).open() && old(self).working() < maximum.count(),
            },
            final(self).working() == if (outcome matches Ok(
                ShutdownAdmissionOutcomeV1::Admitted(_),
            )) {
                old(self).working() + 1
            } else {
                old(self).working() as int
            },
            final(self).open() == (old(self).open() && !old(self).is_poisoned()),
            final(self).is_poisoned() == old(self).is_poisoned(),
            old(self).steps_to(
                if (outcome matches Ok(ShutdownAdmissionOutcomeV1::Admitted(_))) {
                    AdmissionStepV1::Admitted { maximum: maximum.count() }
                } else {
                    AdmissionStepV1::Other
                },
                *final(self),
            ),
    {
        match self.lock_state() {
            Ok(()) => {},
            Err(error) => {
                return Err(error);
            },
        }
        if !self.accepting {
            return Ok(ShutdownAdmissionOutcomeV1::Closed);
        }
        if self.in_flight >= maximum.get() {
            return Ok(ShutdownAdmissionOutcomeV1::AtCapacity);
        }
        self.in_flight = self.in_flight + 1;
        Ok(ShutdownAdmissionOutcomeV1::Admitted(ShutdownAdmissionTicketV1 { issued: () }))
    }

    /// Whether as many handlers are at work as may be.
    pub fn at_capacity(&mut self, maximum: HandlerLimitV1) -> (full: Result<
        bool,
        ShutdownAdmissionErrorV1,
    >)
        ensures
            full == if old(self).is_poisoned() {
                Err(ShutdownAdmissionErrorV1::PoisonedState)
            } else {
                Ok(old(self).working() >= maximum.count())
            },
            final(self).open() == (old(self).open() && !old(self).is_poisoned()),
            final(self).working() == old(self).working(),
            final(self).is_poisoned() == old(self).is_poisoned(),
            !old(self).is_poisoned() ==> *final(self) == *old(self),
            old(self).steps_to(AdmissionStepV1::Other, *final(self)),
    {
        match self.lock_state() {
            Ok(()) => Ok(self.in_flight >= maximum.get()),
            Err(error) => Err(error),
        }
    }

    /// Takes a ticket back: one handler fewer is at work. It is taken back from a poisoned state
    /// too, which closes admission.
    pub fn release(&mut self, ticket: ShutdownAdmissionTicketV1)
        requires
            old(self).working() > 0,
        ensures
            final(self).working() == old(self).working() - 1,
            final(self).open() == (old(self).open() && !old(self).is_poisoned()),
            final(self).is_poisoned() == old(self).is_poisoned(),
            old(self).steps_to(AdmissionStepV1::Released, *final(self)),
    {
        let ShutdownAdmissionTicketV1 { issued: _ } = ticket;
        if self.poisoned {
            self.accepting = false;
        }
        self.in_flight = self.in_flight - 1;
    }
}

impl Default for ShutdownAdmissionV1 {
    /// The first admission of a process. It is open, with no handler at work.
    fn default() -> (admission: Self)
        ensures
            admission.number() == 0,
            admission.open(),
            admission.working() == 0,
            !admission.is_poisoned(),
    {
        ShutdownAdmissionV1::new()
    }
}

/// Shutdown is for good: admission that was closed is not open after any steps that it may pass.
pub proof fn shutdown_is_permanent(states: Seq<ShutdownAdmissionV1>, closed: int, later: int)
    requires
        forall|i: int|
            #![trigger states[i]]
            0 <= i < states.len() - 1 ==> states[i].may_pass(states[i + 1]),
        0 <= closed <= later < states.len(),
        !states[closed].open(),
    ensures
        !states[later].open(),
    decreases later - closed,
{
    if closed < later {
        shutdown_is_permanent(states, closed, later - 1);
        assert(states[later - 1].may_pass(states[later - 1 + 1]));
    }
}

/// The handlers at work are those that were admitted and have not given their ticket back, and never
/// more than the maximum. So it is after any calls that begin where no handler is at work, when each
/// of them admits a handler under the one maximum, takes a ticket back or does neither. Unless the
/// state is poisoned, that many are told.
pub proof fn handlers_at_work_are_those_not_released(
    states: Seq<ShutdownAdmissionV1>,
    steps: Seq<AdmissionStepV1>,
    maximum: usize,
    at: int,
)
    requires
        states.len() == steps.len() + 1,
        states[0].working() == 0,
        forall|i: int|
            #![trigger steps[i]]
            0 <= i < steps.len() ==> states[i].steps_to(steps[i], states[i + 1]),
        forall|i: int|
            #![trigger steps[i]]
            0 <= i < steps.len() && steps[i] is Admitted ==> steps[i]
                == (AdmissionStepV1::Admitted { maximum }),
        0 <= at < states.len(),
    ensures
        states[at].working() == admissions(steps.take(at)) - releases(steps.take(at)),
        states[at].working() <= maximum,
        !states[at].is_poisoned() ==> states[at].told_in_flight() == admissions(steps.take(at))
            - releases(steps.take(at)),
        states[at].told_in_flight() <= maximum,
    decreases at,
{
    if at > 0 {
        handlers_at_work_are_those_not_released(states, steps, maximum, at - 1);
        let step = steps[at - 1];
        assert(states[at - 1].steps_to(step, states[at - 1 + 1]));
        assert(steps.take(at).drop_last() =~= steps.take(at - 1));
        assert(steps.take(at).last() == step);
    }
}

} // verus!
