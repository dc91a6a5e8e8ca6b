//! When an answer of the transport itself was made, and the request that it answers where the
//! request does not tell.

use crate::civil_time;
use crate::civil_time::timestamp_text;
use crate::text;
use crate::text::{append_digits, join_two};
use vstd::prelude::*;

verus! {

/// Why a clock tells no time.
#[derive(Clone, Copy, Debug, PartialEq, Eq, Structural)]
pub enum ResponseMetadataClockErrorV1 {
    BeforeUnixEpoch,
}

/// Why the metadata of an answer cannot be made.
#[derive(Clone, Copy, Debug, PartialEq, Eq, Structural)]
pub enum ResponseMetadataErrorV1 {
    Clock(ResponseMetadataClockErrorV1),
    ClockOutOfRange,
    InvalidTimestamp,
}

impl ResponseMetadataClockErrorV1 {
    /// The text that tells the error.
    pub fn message(&self) -> (message: &'static str)
        ensures
            message == "clock is before the Unix epoch",
    {
        match self {
            ResponseMetadataClockErrorV1::BeforeUnixEpoch => "clock is before the Unix epoch",
        }
    }
}

impl ResponseMetadataErrorV1 {
    /// The text that tells the error.
    pub open spec fn shown(self) -> Seq<char> {
        match self {
            ResponseMetadataErrorV1::Clock(_) => "response metadata clock failed: "@
                + "clock is before the Unix epoch"@,
            ResponseMetadataErrorV1::ClockOutOfRange =>
                "response metadata clock is outside the supported range"@,
            ResponseMetadataErrorV1::InvalidTimestamp =>
                "response metadata clock produced an invalid timestamp"@,
        }
    }

    /// The text that tells the error.
    pub fn message(&self) -> (message: String)
        ensures
            message@ == self.shown(),
    {
        match self {
            ResponseMetadataErrorV1::Clock(source) => join_two(
                "response metadata clock failed: ",
                source.message(),
            ),
            ResponseMetadataErrorV1::ClockOutOfRange =>
                "response metadata clock is outside the supported range".to_owned(),
            ResponseMetadataErrorV1::InvalidTimestamp =>
                "response metadata clock produced an invalid timestamp".to_owned(),
        }
    }
}

/// A clock that tells the milliseconds since the start of 1970.
pub trait ResponseMetadataClockV1 {
    fn now_since_unix_epoch(&self) -> Result<u128, ResponseMetadataClockErrorV1>;
}

/// The clock of the system.
#[derive(Clone, Copy, Debug)]
pub struct SystemResponseMetadataClockV1;

impl Default for SystemResponseMetadataClockV1 {
    /// The clock of the system.
    fn default() -> (clock: Self)
        ensures
            clock == SystemResponseMetadataClockV1,
    {
        SystemResponseMetadataClockV1
    }
}

/// `std::time::SystemTime::elapsed` of the start of 1970: the milliseconds that have passed since
/// then, and nothing where the clock of the system is before it. Nothing is claimed of the number.
#[verifier::external_body]
fn millis_since_unix_epoch() -> (millis: Option<u128>) {
    match std::time::UNIX_EPOCH.elapsed() {
        Ok(elapsed) => Some(elapsed.as_millis()),
        Err(_) => None,
    }
}

/// What a clock of which the given milliseconds since the start of 1970 were read tells. A clock of
/// which none were read is before it.
pub fn clock_reading(millis: Option<u128>) -> (now: Result<u128, ResponseMetadataClockErrorV1>)
    ensures
        now == match millis {
            Some(millis) => Ok(millis),
            None => Err(ResponseMetadataClockErrorV1::BeforeUnixEpoch),
        },
{
    match millis {
        Some(millis) => Ok(millis),
        None => Err(ResponseMetadataClockErrorV1::BeforeUnixEpoch),
    }
}

/// Whether the given milliseconds since the start of 1970, or none, may be read of the clock of the
/// system.
pub closed spec fn system_may_tell(millis: Option<u128>) -> bool {
    call_ensures(millis_since_unix_epoch, (), millis)
}

impl ResponseMetadataClockV1 for SystemResponseMetadataClockV1 {
    /// What the clock of the system tells. Which instant that is rests on the machine.
    fn now_since_unix_epoch(&self) -> (now: Result<u128, ResponseMetadataClockErrorV1>)
        ensures
            exists|read: Option<u128>| #[trigger]
                system_may_tell(read) && now == match read {
                    Some(millis) => Ok(millis),
                    None => Err(ResponseMetadataClockErrorV1::BeforeUnixEpoch),
                },
    {
        let read: Option<u128> = millis_since_unix_epoch();
        assert(system_may_tell(read));
        clock_reading(read)
    }
}

/// The milliseconds that a clock told, as far as they are in range.
pub open spec fn clock_verdict(now: Result<u128, ResponseMetadataClockErrorV1>) -> Result<
    u64,
    ResponseMetadataErrorV1,
> {
    match now {
        Err(error) => Err(ResponseMetadataErrorV1::Clock(error)),
        Ok(millis) => if millis <= u64::MAX {
            Ok(millis as u64)
        } else {
            Err(ResponseMetadataErrorV1::ClockOutOfRange)
        },
    }
}

/// The milliseconds that a clock told, as far as they are in range.
pub fn clock_milliseconds(now: Result<u128, ResponseMetadataClockErrorV1>) -> (millis: Result<
    u64,
    ResponseMetadataErrorV1,
>)
    ensures
        millis == clock_verdict(now),
{
    match now {
        Err(error) => Err(ResponseMetadataErrorV1::Clock(error)),
        Ok(millis) => if millis <= u64::MAX as u128 {
            Ok(millis as u64)
        } else {
            Err(ResponseMetadataErrorV1::ClockOutOfRange)
        },
    }
}

/// Whether a timestamp, or an error, is that of what a clock told. A year that four digits do not
/// spell is out of range.
pub open spec fn is_generated_at(
    now: Result<u128, ResponseMetadataClockErrorV1>,
    timestamp: Result<String, ResponseMetadataErrorV1>,
) -> bool {
    match clock_verdict(now) {
        Err(error) => timestamp == Err::<String, ResponseMetadataErrorV1>(error),
        Ok(millis) => if civil_time::has_timestamp(millis as nat) {
            timestamp matches Ok(timestamp) && timestamp@ == civil_time::timestamp(millis as nat)
        } else {
            timestamp == Err::<String, ResponseMetadataErrorV1>(
                ResponseMetadataErrorV1::ClockOutOfRange,
            )
        },
    }
}

/// The timestamp of what a clock told. A year that four digits do not spell is out of range.
pub fn generated_at_text(now: Result<u128, ResponseMetadataClockErrorV1>) -> (timestamp: Result<
    String,
    ResponseMetadataErrorV1,
>)
    ensures
        is_generated_at(now, timestamp),
{
    let millis = match clock_milliseconds(now) {
        Ok(millis) => millis,
        Err(error) => {
            return Err(error);
        },
    };
    match timestamp_text(millis) {
        Some(timestamp) => Ok(timestamp),
        None => Err(ResponseMetadataErrorV1::ClockOutOfRange),
    }
}

/// The identifier of a request that does not tell its own: the milliseconds that a clock told, the
/// last digits of a sequence, and the last digits of the process and of the sequence again.
pub open spec fn request_id(millis: nat, sequence: nat, process_id: nat) -> Seq<char> {
    text::digits(millis / 0x1_0000_0000, 16, 8) + "-"@ + text::digits(
        millis / 0x1_0000 % 0x1_0000,
        16,
        4,
    ) + "-"@ + text::digits(millis % 0x1_0000, 16, 4) + "-"@ + text::digits(
        sequence % 0x1_0000,
        16,
        4,
    ) + "-"@ + text::digits(request_node(sequence, process_id), 16, 12)
}

/// The last part of an identifier: the last digits of the process, and then of the sequence.
pub open spec fn request_node(sequence: nat, process_id: nat) -> nat {
    process_id % 0x1_0000 * 0x1_0000_0000 + sequence % 0x1_0000_0000
}

/// The identifier of a request that does not tell its own.
pub fn request_id_text(millis: u64, sequence: u64, process_id: u32) -> (identifier: String)
    ensures
        identifier@ == request_id(millis as nat, sequence as nat, process_id as nat),
{
    let mut identifier: String = String::new();
    append_digits(&mut identifier, millis / 0x1_0000_0000, 16, 8);
    identifier.append("-");
    append_digits(&mut identifier, millis / 0x1_0000 % 0x1_0000, 16, 4);
    identifier.append("-");
    append_digits(&mut identifier, millis % 0x1_0000, 16, 4);
    identifier.append("-");
    append_digits(&mut identifier, sequence % 0x1_0000, 16, 4);
    identifier.append("-");
    append_digits(
        &mut identifier,
        process_id as u64 % 0x1_0000 * 0x1_0000_0000 + sequence % 0x1_0000_0000,
        16,
        12,
    );
    assert(identifier@ =~= request_id(millis as nat, sequence as nat, process_id as nat));
    identifier
}

/// An identifier has the shape of a UUID: five groups of digits, joined by hyphens.
pub proof fn request_ids_are_uuid_shaped(millis: nat, sequence: nat, process_id: nat)
    ensures
        request_id(millis, sequence, process_id).len() == 36,
        request_id(millis, sequence, process_id)[8] == '-',
        request_id(millis, sequence, process_id)[13] == '-',
        request_id(millis, sequence, process_id)[18] == '-',
        request_id(millis, sequence, process_id)[23] == '-',
{
    reveal_strlit("-");
    assert("-"@.len() == 1 && "-"@[0] == '-');
    text::digits_have_the_given_width(millis / 0x1_0000_0000, 16, 8);
    text::digits_have_the_given_width(millis / 0x1_0000 % 0x1_0000, 16, 4);
    text::digits_have_the_given_width(millis % 0x1_0000, 16, 4);
    text::digits_have_the_given_width(sequence % 0x1_0000, 16, 4);
    text::digits_have_the_given_width(request_node(sequence, process_id), 16, 12);
}

/// Identifiers of one process differ, whatever the clock told, as long as their places in the
/// sequence are fewer than 4,294,967,296 apart.
pub proof fn request_ids_of_a_process_differ(
    millis: nat,
    other_millis: nat,
    sequence: nat,
    other_sequence: nat,
    process_id: nat,
)
    requires
        sequence < other_sequence < sequence + 0x1_0000_0000,
    ensures
        request_id(millis, sequence, process_id) != request_id(
            other_millis,
            other_sequence,
            process_id,
        ),
{
    let left = request_id(millis, sequence, process_id);
    let right = request_id(other_millis, other_sequence, process_id);
    let node = request_node(sequence, process_id);
    let other_node = request_node(other_sequence, process_id);
    if left == right {
        request_ids_are_uuid_shaped(millis, sequence, process_id);
        request_ids_are_uuid_shaped(other_millis, other_sequence, process_id);
        text::digits_have_the_given_width(node, 16, 12);
        text::digits_have_the_given_width(other_node, 16, 12);
        assert(left.subrange(24, 36) =~= text::digits(node, 16, 12));
        assert(right.subrange(24, 36) =~= text::digits(other_node, 16, 12));
        assert(text::power(16, 12) == 0x1_0000_0000_0000) by {
            reveal_with_fuel(text::power, 13);
        }
        text::digits_tell_numbers_apart(node, other_node, 16, 12);
        assert(sequence % 0x1_0000_0000 == other_sequence % 0x1_0000_0000);
    }
}

/// What answers of the transport itself are made from: a clock, and how many identifiers were
/// issued.
#[derive(Debug)]
pub struct SystemResponseMetadataSourceV1<Clock> {
    sequence: u64,
    clock: Clock,
}

impl<Clock: ResponseMetadataClockV1> SystemResponseMetadataSourceV1<Clock> {
    /// How many identifiers were issued. After the last number comes 0 again.
    pub closed spec fn issued(self) -> u64 {
        self.sequence
    }

    /// The clock.
    pub closed spec fn held_clock(self) -> Clock {
        self.clock
    }

    /// A source that goes by the given clock.
    pub fn with_clock(clock: Clock) -> (source: Self)
        ensures
            source.issued() == 0,
            source.held_clock() == clock,
    {
        SystemResponseMetadataSourceV1 { sequence: 0, clock }
    }

    /// When an answer is made, by what the clock tells. A timestamp is made whenever the clock is in
    /// range, and an error is the one that the clock gave rise to.
    pub fn try_generated_at(&self) -> (timestamp: Result<String, ResponseMetadataErrorV1>)
        ensures
            exists|now: Result<u128, ResponseMetadataClockErrorV1>|
                call_ensures(Clock::now_since_unix_epoch, (&self.held_clock(),), now)
                    && #[trigger] is_generated_at(now, timestamp),
    {
        let now = self.clock.now_since_unix_epoch();
        generated_at_text(now)
    }

    /// The identifier of a request that does not tell its own, by what the clock told. A clock that
    /// is out of range issues none.
    pub fn next_request_id_at(
        &mut self,
        now: Result<u128, ResponseMetadataClockErrorV1>,
        process_id: u32,
    ) -> (identifier: Result<String, ResponseMetadataErrorV1>)
        ensures
            final(self).held_clock() == old(self).held_clock(),
            match clock_verdict(now) {
                Ok(millis) => identifier matches Ok(identifier) && identifier@ == request_id(
                    millis as nat,
                    old(self).issued() as nat,
                    process_id as nat,
                ) && final(self).issued() == (if old(self).issued() == u64::MAX {
                    0
                } else {
                    old(self).issued() + 1
                }),
                Err(error) => identifier == Err::<String, ResponseMetadataErrorV1>(error)
                    && final(self).issued() == old(self).issued(),
            },
    {
        let millis = match clock_milliseconds(now) {
            Ok(millis) => millis,
            Err(error) => {
                return Err(error);
            },
        };
        let sequence = self.sequence;
        self.sequence = sequence.wrapping_add(1);
        Ok(request_id_text(millis, sequence, process_id))
    }

    /// The identifier of a request that does not tell its own, by what the clock tells. An
    /// identifier is issued whenever the clock is in range, and an error is the one that the clock
    /// gave rise to.
    pub fn try_next_request_id(&mut self, process_id: u32) -> (identifier: Result<
        String,
        ResponseMetadataErrorV1,
    >)
        ensures
            final(self).held_clock() == old(self).held_clock(),
            exists|now: Result<u128, ResponseMetadataClockErrorV1>|
                #![trigger clock_verdict(now)]
                call_ensures(Clock::now_since_unix_epoch, (&old(self).held_clock(),), now)
                    && match clock_verdict(now) {
                    Ok(millis) => identifier matches Ok(identifier) && identifier@ == request_id(
                        millis as nat,
                        old(self).issued() as nat,
                        process_id as nat,
                    ) && final(self).issued() == (if old(self).issued() == u64::MAX {
                        0
                    } else {
                        old(self).issued() + 1
                    }),
                    Err(error) => identifier == Err::<String, ResponseMetadataErrorV1>(error)
                        && final(self).issued() == old(self).issued(),
                },
    {
        let now = self.clock.now_since_unix_epoch();
        self.next_request_id_at(now, process_id)
    }
}

impl Default for SystemResponseMetadataSourceV1<SystemResponseMetadataClockV1> {
    /// A source that goes by the clock of the system, and has issued nothing.
    fn default() -> (source: Self)
        ensures
            source.issued() == 0,
            source.held_clock() == SystemResponseMetadataClockV1,
    {
        SystemResponseMetadataSourceV1::with_clock(SystemResponseMetadataClockV1)
    }
}

/// Metadata that is always the same.
#[derive(Clone, Debug, PartialEq, Eq)]
pub struct FixedResponseMetadataSourceV1 {
    generated_at: String,
    request_id: String,
}

impl FixedResponseMetadataSourceV1 {
    /// When every answer is made.
    pub closed spec fn fixed_timestamp(self) -> String {
        self.generated_at
    }

    /// The request that every answer answers.
    pub closed spec fn fixed_request_id(self) -> String {
        self.request_id
    }

    /// The given metadata.
    pub fn new(generated_at: String, request_id: String) -> (source: Self)
        ensures
            source.fixed_timestamp() == generated_at,
            source.fixed_request_id() == request_id,
    {
        FixedResponseMetadataSourceV1 { generated_at, request_id }
    }

    /// When every answer is made.
    pub fn generated_at(&self) -> (timestamp: String)
        ensures
            timestamp == self.fixed_timestamp(),
    {
        self.generated_at.clone()
    }

    /// The request that every answer answers.
    pub fn next_request_id(&self) -> (identifier: String)
        ensures
            identifier == self.fixed_request_id(),
    {
        self.request_id.clone()
    }
}

/// An answer is dated by its clock exactly if that tells a time of a year that four digits spell. Otherwise
/// it is told whether the clock failed or is out of range.
pub proof fn an_answer_is_dated_by_its_clock(
    now: Result<u128, ResponseMetadataClockErrorV1>,
    millis: Result<u64, ResponseMetadataErrorV1>,
    timestamp: Result<String, ResponseMetadataErrorV1>,
)
    requires
        call_ensures(clock_milliseconds, (now,), millis),
        call_ensures(generated_at_text, (now,), timestamp),
    ensures
        millis is Ok <==> (now matches Ok(told) && told <= 0xffff_ffff_ffff_ffff),
        millis matches Ok(millis) ==> (now matches Ok(told) && told == millis),
        timestamp is Ok <==> (now matches Ok(told) && told <= 253_402_300_799_999),
        timestamp matches Ok(timestamp) ==> (now matches Ok(told) && timestamp@
            == civil_time::timestamp(told as nat)),
        timestamp matches Err(error) ==> (match now {
            Err(cause) => error == ResponseMetadataErrorV1::Clock(cause),
            Ok(_) => error is ClockOutOfRange,
        }),
{
    match now {
        Ok(told) => {
            civil_time::an_instant_has_a_timestamp_until_the_year_ten_thousand(told as nat);
        },
        Err(_) => {},
    }
}

} // verus!
