//! The transport of the daemon: one request and one response for each local connection.
//!
//! A connection is served only while admission is open and only up to a bound, only for a verified
//! peer, and with exactly one answer.

pub mod accept_loop;
pub mod admission;
pub mod connection;
pub mod metadata;
pub mod recovery;

use crate::server::metadata::{SystemResponseMetadataClockV1, SystemResponseMetadataSourceV1};
use vstd::prelude::*;

verus! {

/// How long one frame may take to be read or written, in nanoseconds: five seconds.
pub const DEFAULT_FRAME_IO_TIMEOUT_V1: u128 = 5_000_000_000;

/// How long the accept loop waits at most before it looks at admission again, in nanoseconds: ten
/// milliseconds.
pub const DEFAULT_ACCEPT_POLL_INTERVAL_V1: u128 = 10_000_000;

/// Why a transport or an accept loop cannot be configured.
#[derive(Clone, Copy, Debug, PartialEq, Eq, Structural)]
pub enum ServerTransportConfigurationErrorV1 {
    ZeroReadTimeout,
    ZeroWriteTimeout,
    ZeroAcceptPollInterval,
}

impl ServerTransportConfigurationErrorV1 {
    /// The text that tells the error.
    pub open spec fn shown(self) -> &'static str {
        match self {
            ServerTransportConfigurationErrorV1::ZeroReadTimeout =>
                "server read timeout must be nonzero",
            ServerTransportConfigurationErrorV1::ZeroWriteTimeout =>
                "server write timeout must be nonzero",
            ServerTransportConfigurationErrorV1::ZeroAcceptPollInterval =>
                "accept-loop poll interval must be nonzero",
        }
    }

    /// The text that tells the error.
    pub fn message(&self) -> (message: &'static str)
        ensures
            message == self.shown(),
    {
        match self {
            ServerTransportConfigurationErrorV1::ZeroReadTimeout =>
                "server read timeout must be nonzero",
            ServerTransportConfigurationErrorV1::ZeroWriteTimeout =>
                "server write timeout must be nonzero",
            ServerTransportConfigurationErrorV1::ZeroAcceptPollInterval =>
                "accept-loop poll interval must be nonzero",
        }
    }
}

/// How long one frame may take to be read, and to be written, in nanoseconds. Neither is zero.
#[derive(Clone, Copy, Debug, PartialEq, Eq, Structural)]
pub struct ServerTransportTimeoutsV1 {
    read: u128,
    write: u128,
}

impl ServerTransportTimeoutsV1 {
    /// How long a frame may take to be read.
    pub closed spec fn read_nanos(self) -> u128 {
        self.read
    }

    /// How long a frame may take to be written.
    pub closed spec fn write_nanos(self) -> u128 {
        self.write
    }

    /// Whether neither is zero.
    pub open spec fn wf(self) -> bool {
        self.read_nanos() > 0 && self.write_nanos() > 0
    }

    /// The given timeouts, unless one is zero.
    pub fn new(read: u128, write: u128) -> (timeouts: Result<
        Self,
        ServerTransportConfigurationErrorV1,
    >)
        ensures
            match timeouts {
                Ok(timeouts) => timeouts.wf() && timeouts.read_nanos() == read
                    && timeouts.write_nanos() == write,
                Err(error) => if read == 0 {
                    error == ServerTransportConfigurationErrorV1::ZeroReadTimeout
                } else {
                    write == 0 && error == ServerTransportConfigurationErrorV1::ZeroWriteTimeout
                },
            },
            timeouts is Ok <==> read > 0 && write > 0,
    {
        if read == 0 {
            return Err(ServerTransportConfigurationErrorV1::ZeroReadTimeout);
        }
        if write == 0 {
            return Err(ServerTransportConfigurationErrorV1::ZeroWriteTimeout);
        }
        Ok(ServerTransportTimeoutsV1 { read, write })
    }

    /// How long a frame may take to be read.
    pub fn read(self) -> (read: u128)
        ensures
            read == self.read_nanos(),
    {
        self.read
    }

    /// How long a frame may take to be written.
    pub fn write(self) -> (write: u128)
        ensures
            write == self.write_nanos(),
    {
        self.write
    }
}

impl Default for ServerTransportTimeoutsV1 {
    /// Five seconds each.
    fn default() -> (timeouts: Self)
        ensures
            timeouts.wf(),
            timeouts.read_nanos() == DEFAULT_FRAME_IO_TIMEOUT_V1,
            timeouts.write_nanos() == DEFAULT_FRAME_IO_TIMEOUT_V1,
    {
        ServerTransportTimeoutsV1 {
            read: DEFAULT_FRAME_IO_TIMEOUT_V1,
            write: DEFAULT_FRAME_IO_TIMEOUT_V1,
        }
    }
}

/// What a connection is served with: who verifies the peer, who answers the request, what an answer
/// of the transport itself is made from, how long a frame may take, and who is told of it.
pub struct UnixServerTransportV1<Verifier, Dispatcher, Metadata, Observability> {
    verifier: Verifier,
    dispatcher: Dispatcher,
    metadata: Metadata,
    timeouts: ServerTransportTimeoutsV1,
    observability: Option<Observability>,
}

impl<Verifier, Dispatcher, Observability> UnixServerTransportV1<
    Verifier,
    Dispatcher,
    SystemResponseMetadataSourceV1<SystemResponseMetadataClockV1>,
    Observability,
> {
    /// A transport that goes by the clock of the system and tells nobody.
    pub fn new(
        verifier: Verifier,
        dispatcher: Dispatcher,
        timeouts: ServerTransportTimeoutsV1,
    ) -> (transport: Self)
        ensures
            transport.held_verifier() == verifier,
            transport.held_dispatcher() == dispatcher,
            transport.held_timeouts() == timeouts,
            transport.held_observability() is None,
            transport.held_metadata().issued() == 0,
    {
        Self::new_with_observability(verifier, dispatcher, timeouts, None)
    }

    /// A transport that goes by the clock of the system.
    pub fn new_with_observability(
        verifier: Verifier,
        dispatcher: Dispatcher,
        timeouts: ServerTransportTimeoutsV1,
        observability: Option<Observability>,
    ) -> (transport: Self)
        ensures
            transport.held_verifier() == verifier,
            transport.held_dispatcher() == dispatcher,
            transport.held_timeouts() == timeouts,
            transport.held_observability() == observability,
            transport.held_metadata().issued() == 0,
    {
        Self::with_metadata_and_observability(
            verifier,
            dispatcher,
            timeouts,
            SystemResponseMetadataSourceV1::default(),
            observability,
        )
    }
}

impl<Verifier, Dispatcher, Metadata, Observability> UnixServerTransportV1<
    Verifier,
    Dispatcher,
    Metadata,
    Observability,
> {
    /// Who verifies the peer.
    pub closed spec fn held_verifier(self) -> Verifier {
        self.verifier
    }

    /// Who answers the request.
    pub closed spec fn held_dispatcher(self) -> Dispatcher {
        self.dispatcher
    }

    /// What an answer of the transport itself is made from.
    pub closed spec fn held_metadata(self) -> Metadata {
        self.metadata
    }

    /// How long a frame may take.
    pub closed spec fn held_timeouts(self) -> ServerTransportTimeoutsV1 {
        self.timeouts
    }

    /// Who is told of it.
    pub closed spec fn held_observability(self) -> Option<Observability> {
        self.observability
    }

    /// A transport that tells nobody.
    pub fn with_metadata(
        verifier: Verifier,
        dispatcher: Dispatcher,
        timeouts: ServerTransportTimeoutsV1,
        metadata: Metadata,
    ) -> (transport: Self)
        ensures
            transport.held_verifier() == verifier,
            transport.held_dispatcher() == dispatcher,
            transport.held_timeouts() == timeouts,
            transport.held_metadata() == metadata,
            transport.held_observability() is None,
    {
        Self::with_metadata_and_observability(verifier, dispatcher, timeouts, metadata, None)
    }

    /// A transport with all that it is served with.
    pub fn with_metadata_and_observability(
        verifier: Verifier,
        dispatcher: Dispatcher,
        timeouts: ServerTransportTimeoutsV1,
        metadata: Metadata,
        observability: Option<Observability>,
    ) -> (transport: Self)
        ensures
            transport.held_verifier() == verifier,
            transport.held_dispatcher() == dispatcher,
            transport.held_timeouts() == timeouts,
            transport.held_metadata() == metadata,
            transport.held_observability() == observability,
    {
        UnixServerTransportV1 { verifier, dispatcher, metadata, timeouts, observability }
    }

    /// Who verifies the peer.
    pub fn peer_verifier(&self) -> (verifier: &Verifier)
        ensures
            *verifier == self.held_verifier(),
    {
        &self.verifier
    }

    /// Who answers the request.
    pub fn dispatcher(&self) -> (dispatcher: &Dispatcher)
        ensures
            *dispatcher == self.held_dispatcher(),
    {
        &self.dispatcher
    }

    /// What an answer of the transport itself is made from.
    pub fn metadata(&self) -> (metadata: &Metadata)
        ensures
            *metadata == self.held_metadata(),
    {
        &self.metadata
    }

    /// How long a frame may take.
    pub fn timeouts(&self) -> (timeouts: ServerTransportTimeoutsV1)
        ensures
            timeouts == self.held_timeouts(),
    {
        self.timeouts
    }
}

} // verus!
