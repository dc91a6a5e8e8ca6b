//! The clock of the daemon, and the services that go by it.

use crate::read_service::MonotonicClockV1;
use crate::server::metadata;
use crate::server::metadata::{
    ResponseMetadataClockErrorV1, ResponseMetadataClockV1, ResponseMetadataErrorV1,
    SystemResponseMetadataClockV1, SystemResponseMetadataSourceV1,
};
use vstd::prelude::*;

verus! {

#[verifier::external_type_specification]
#[verifier::external_body]
pub struct ExInstant(std::time::Instant);

/// `std::time::Instant::now`: the present instant. Nothing is claimed of it.
#[verifier::external_body]
fn present_instant() -> (instant: std::time::Instant) {
    std::time::Instant::now()
}

/// `std::time::Instant::elapsed`: the milliseconds since an instant. Nothing is claimed of them.
#[verifier::external_body]
fn millis_since(instant: &std::time::Instant) -> (millis: u128) {
    instant.elapsed().as_millis()
}

/// The milliseconds of a long time, as far as they can be told.
pub fn saturated_millis(elapsed: u128) -> (millis: u64)
    ensures
        millis == if elapsed <= u64::MAX {
            elapsed as int
        } else {
            u64::MAX as int
        },
{
    if elapsed <= u64::MAX as u128 {
        elapsed as u64
    } else {
        u64::MAX
    }
}

/// The clock of the daemon: it tells how long the daemon has run, and when an answer is made.
pub struct NativeProductionClockV1 {
    started: std::time::Instant,
    metadata: SystemResponseMetadataSourceV1<SystemResponseMetadataClockV1>,
}

impl NativeProductionClockV1 {
    /// What answers are made from.
    pub closed spec fn held_metadata(self) -> SystemResponseMetadataSourceV1<
        SystemResponseMetadataClockV1,
    > {
        self.metadata
    }

    /// Whether the clock started at an instant that may be told to be the present one.
    pub closed spec fn starts_at_present(self) -> bool {
        call_ensures(present_instant, (), self.started)
    }

    /// Whether the given milliseconds may be told to have passed since the clock started.
    pub closed spec fn has_run_for(self, elapsed: u128) -> bool {
        call_ensures(millis_since, (&self.started,), elapsed)
    }

    /// When an answer is made, by what the clock of the system tells.
    pub fn generated_at(&self) -> (timestamp: Result<String, ResponseMetadataErrorV1>)
        ensures
            exists|now: Result<u128, ResponseMetadataClockErrorV1>|
                call_ensures(
                    <SystemResponseMetadataClockV1 as ResponseMetadataClockV1>::now_since_unix_epoch,
                    (&self.held_metadata().held_clock(),),
                    now,
                ) && #[trigger] metadata::is_generated_at(now, timestamp),
    {
        self.metadata.try_generated_at()
    }
}

impl Default for NativeProductionClockV1 {
    /// A clock that starts now.
    fn default() -> (clock: Self)
        ensures
            clock.starts_at_present(),
            clock.held_metadata().issued() == 0,
            clock.held_metadata().held_clock() == SystemResponseMetadataClockV1,
    {
        NativeProductionClockV1 {
            started: present_instant(),
            metadata: SystemResponseMetadataSourceV1::default(),
        }
    }
}

impl MonotonicClockV1 for NativeProductionClockV1 {
    /// How long the daemon has run. Which time that is rests on the clock of the machine.
    fn now_millis(&self) -> (millis: u64)
        ensures
            exists|elapsed: u128| #[trigger]
                self.has_run_for(elapsed) && millis == if elapsed <= u64::MAX {
                    elapsed as int
                } else {
                    u64::MAX as int
                },
    {
        let elapsed: u128 = millis_since(&self.started);
        assert(self.has_run_for(elapsed));
        saturated_millis(elapsed)
    }
}

/// The service that previews commands. It goes by a clock.
pub struct ProductionPreviewServiceV1 {
    clock: NativeProductionClockV1,
}

impl ProductionPreviewServiceV1 {
    /// The clock.
    pub closed spec fn held_clock(self) -> NativeProductionClockV1 {
        self.clock
    }

    /// A service that goes by the given clock.
    pub fn new(clock: NativeProductionClockV1) -> (service: Self)
        ensures
            service.held_clock() == clock,
    {
        ProductionPreviewServiceV1 { clock }
    }

    /// The clock.
    pub fn clock(&self) -> (clock: &NativeProductionClockV1)
        ensures
            *clock == self.held_clock(),
    {
        &self.clock
    }
}

/// The service that cancels jobs. It goes by a clock.
pub struct ProductionControlServiceV1 {
    clock: NativeProductionClockV1,
}

impl ProductionControlServiceV1 {
    /// The clock.
    pub closed spec fn held_clock(self) -> NativeProductionClockV1 {
        self.clock
    }

    /// A service that goes by the given clock.
    pub fn new(clock: NativeProductionClockV1) -> (service: Self)
        ensures
            service.held_clock() == clock,
    {
        ProductionControlServiceV1 { clock }
    }

    /// The clock.
    pub fn clock(&self) -> (clock: &NativeProductionClockV1)
        ensures
            *clock == self.held_clock(),
    {
        &self.clock
    }
}

} // verus!
