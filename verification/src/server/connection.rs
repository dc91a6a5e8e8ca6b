//! How one connection is served.

use crate::json::{json_array, json_map_insert, json_map_new, json_text};
use crate::json;
use crate::observability::{EventOperationV1, EventOutcomeV1, EventRecordV1};
use crate::server::metadata::ResponseMetadataErrorV1;
use crate::server::recovery::{RequestContextV1, FALLBACK_COMMAND_V1};
use crate::text::{join_five, join_two};
use vstd::prelude::*;

verus! {

/// Why the length of a frame is refused.
#[derive(Clone, Copy, Debug, PartialEq, Eq, Structural)]
pub enum FrameLengthErrorV1 {
    TooLarge,
    Other,
}

/// Why a frame could not be read. The phase and the kind of an I/O failure are held as the texts
/// that they are told by.
#[derive(Clone, Debug, PartialEq, Eq)]
pub enum FrameErrorV1 {
    InvalidLength(FrameLengthErrorV1),
    UnexpectedEof,
    TrailingData,
    Io { phase: String, kind: String },
}

/// Why a payload is no request.
#[derive(Clone, Copy, Debug, PartialEq, Eq, Structural)]
pub enum PayloadCodecErrorV1 {
    UnsupportedProtocol,
    Other,
}

/// What the transport itself answers with.
#[derive(Clone, Copy, Debug, PartialEq, Eq, Structural)]
pub enum TransportErrorKindV1 {
    InvalidRequest,
    RequestTooLarge,
    UnsupportedProtocol,
    Internal,
}

/// Why a connection was not served with a complete answer. What failed outside is held as the text
/// that it is told by.
#[derive(Clone, Debug, PartialEq, Eq)]
pub enum ServerConnectionErrorV1 {
    Peer(String),
    ConfigureBlocking(String),
    ConfigureReadTimeout(String),
    ConfigureWriteTimeout(String),
    RequestFrameIo { phase: String, kind: String },
    InvalidDispatcherResponse,
    ResponseMetadata(ResponseMetadataErrorV1),
    ResponseEncode(String),
    ResponseWrite(String),
    ResponseFlush(String),
}

impl ServerConnectionErrorV1 {
    /// The text that tells the error.
    pub open spec fn shown(self) -> Seq<char> {
        match self {
            ServerConnectionErrorV1::Peer(source) => "peer admission rejected: "@ + source@,
            ServerConnectionErrorV1::ConfigureBlocking(source) =>
                "cannot configure accepted server stream as blocking: "@ + source@,
            ServerConnectionErrorV1::ConfigureReadTimeout(source) =>
                "cannot configure server read timeout: "@ + source@,
            ServerConnectionErrorV1::ConfigureWriteTimeout(source) =>
                "cannot configure server write timeout: "@ + source@,
            ServerConnectionErrorV1::RequestFrameIo { phase, kind } =>
                "request frame I/O failed during "@ + phase@ + " ("@ + kind@ + ")"@,
            ServerConnectionErrorV1::InvalidDispatcherResponse =>
                "dispatcher emitted an invalid response contract"@,
            ServerConnectionErrorV1::ResponseMetadata(source) =>
                "cannot construct response metadata: "@ + source.shown(),
            ServerConnectionErrorV1::ResponseEncode(source) => "cannot encode response payload: "@
                + source@,
            ServerConnectionErrorV1::ResponseWrite(source) => "cannot write response frame: "@
                + source@,
            ServerConnectionErrorV1::ResponseFlush(source) => "cannot flush response frame: "@
                + source@,
        }
    }

    /// The text that tells the error.
    pub fn message(&self) -> (message: String)
        ensures
            message@ == self.shown(),
    {
        match self {
            ServerConnectionErrorV1::Peer(source) => join_two("peer admission rejected: ", source),
            ServerConnectionErrorV1::ConfigureBlocking(source) => join_two(
                "cannot configure accepted server stream as blocking: ",
                source,
            ),
            ServerConnectionErrorV1::ConfigureReadTimeout(source) => join_two(
                "cannot configure server read timeout: ",
                source,
            ),
            ServerConnectionErrorV1::ConfigureWriteTimeout(source) => join_two(
                "cannot configure server write timeout: ",
                source,
            ),
            ServerConnectionErrorV1::RequestFrameIo { phase, kind } => join_five(
                "request frame I/O failed during ",
                phase,
                " (",
                kind,
                ")",
            ),
            ServerConnectionErrorV1::InvalidDispatcherResponse =>
                "dispatcher emitted an invalid response contract".to_owned(),
            ServerConnectionErrorV1::ResponseMetadata(source) => {
                let told = source.message();
                join_two("cannot construct response metadata: ", &told)
            },
            ServerConnectionErrorV1::ResponseEncode(source) => join_two(
                "cannot encode response payload: ",
                source,
            ),
            ServerConnectionErrorV1::ResponseWrite(source) => join_two(
                "cannot write response frame: ",
                source,
            ),
            ServerConnectionErrorV1::ResponseFlush(source) => join_two(
                "cannot flush response frame: ",
                source,
            ),
        }
    }
}

/// What a frame that could not be read is answered with.
pub open spec fn frame_error_kind(error: FrameErrorV1) -> TransportErrorKindV1 {
    match error {
        FrameErrorV1::InvalidLength(FrameLengthErrorV1::TooLarge) =>
            TransportErrorKindV1::RequestTooLarge,
        FrameErrorV1::Io { .. } => TransportErrorKindV1::Internal,
        _ => TransportErrorKindV1::InvalidRequest,
    }
}

/// What a frame that could not be read is answered with.
pub fn classify_frame_error(error: &FrameErrorV1) -> (kind: TransportErrorKindV1)
    ensures
        kind == frame_error_kind(*error),
{
    match error {
        FrameErrorV1::InvalidLength(FrameLengthErrorV1::TooLarge) =>
            TransportErrorKindV1::RequestTooLarge,
        FrameErrorV1::InvalidLength(FrameLengthErrorV1::Other)
        | FrameErrorV1::UnexpectedEof
        | FrameErrorV1::TrailingData => TransportErrorKindV1::InvalidRequest,
        FrameErrorV1::Io { .. } => TransportErrorKindV1::Internal,
    }
}

/// What a payload that is no request is answered with.
pub fn classify_payload_error(error: PayloadCodecErrorV1) -> (kind: TransportErrorKindV1)
    ensures
        kind == match error {
            PayloadCodecErrorV1::UnsupportedProtocol => TransportErrorKindV1::UnsupportedProtocol,
            PayloadCodecErrorV1::Other => TransportErrorKindV1::InvalidRequest,
        },
{
    match error {
        PayloadCodecErrorV1::UnsupportedProtocol => TransportErrorKindV1::UnsupportedProtocol,
        PayloadCodecErrorV1::Other => TransportErrorKindV1::InvalidRequest,
    }
}

/// The code, the message and the exit code that the transport itself answers with.
pub open spec fn transport_error_terms(kind: TransportErrorKindV1) -> (
    &'static str,
    &'static str,
    u8,
) {
    match kind {
        TransportErrorKindV1::InvalidRequest => (
            "REQUEST_INVALID",
            "Request is malformed or violates schema.",
            2,
        ),
        TransportErrorKindV1::RequestTooLarge => (
            "REQUEST_TOO_LARGE",
            "IPC request exceeds configured limits.",
            2,
        ),
        TransportErrorKindV1::UnsupportedProtocol => (
            "PROTOCOL_VERSION_UNSUPPORTED",
            "Requested IPC protocol is unsupported.",
            3,
        ),
        TransportErrorKindV1::Internal => (
            "INTERNAL_ERROR",
            "An unexpected internal error occurred.",
            6,
        ),
    }
}

/// The request that an answer of the transport itself is for: one that was recovered, or one whose
/// identifier was issued in its place.
#[derive(Clone, Debug, PartialEq, Eq)]
pub enum AnsweredRequestV1 {
    Recovered(RequestContextV1),
    Issued(String),
}

/// An answer of the transport itself. It is never retryable and is of no workspace.
#[derive(Clone, Debug, PartialEq, Eq)]
pub struct TransportErrorEnvelopeV1 {
    pub request_id: String,
    pub command: String,
    pub generated_at: String,
    pub code: &'static str,
    pub message: &'static str,
    pub retryable: bool,
    pub exit_code: u8,
    pub details: serde_json::Map<String, serde_json::Value>,
}

/// The trees of texts.
pub open spec fn text_trees(texts: Seq<String>) -> Seq<json::JsonTreeV1> {
    texts.map_values(|text: String| json::JsonTreeV1::Text(text@))
}

/// The details of an answer of the transport itself: that the request did not tell its identifier,
/// and the protocols that there are where the requested one is none of them.
pub open spec fn transport_error_details(
    request: AnsweredRequestV1,
    kind: TransportErrorKindV1,
    supported_protocols: Seq<String>,
) -> Map<Seq<char>, json::JsonTreeV1> {
    let details = if request is Issued {
        json::no_members().insert("request_id_recovered"@, json::JsonTreeV1::Bool(false))
    } else {
        json::no_members()
    };
    if kind is UnsupportedProtocol {
        details.insert(
            "supported_protocols"@,
            json::JsonTreeV1::List(text_trees(supported_protocols)),
        )
    } else {
        details
    }
}

/// Whether an answer is the one that the transport itself gives.
pub open spec fn is_transport_error(
    request: AnsweredRequestV1,
    kind: TransportErrorKindV1,
    generated_at: String,
    supported_protocols: Seq<String>,
    envelope: TransportErrorEnvelopeV1,
) -> bool {
    &&& match request {
        AnsweredRequestV1::Recovered(context) => envelope.request_id == context.request_id
            && envelope.command == context.command,
        AnsweredRequestV1::Issued(request_id) => envelope.request_id == request_id
            && envelope.command@ == FALLBACK_COMMAND_V1@,
    }
    &&& envelope.generated_at == generated_at
    &&& (envelope.code, envelope.message, envelope.exit_code) == transport_error_terms(kind)
    &&& !envelope.retryable
    &&& json::json_members(envelope.details) == transport_error_details(
        request,
        kind,
        supported_protocols,
    )
}

/// The answer that the transport itself gives.
pub fn transport_error_response(
    request: AnsweredRequestV1,
    kind: TransportErrorKindV1,
    generated_at: String,
    supported_protocols: &Vec<String>,
) -> (envelope: TransportErrorEnvelopeV1)
    ensures
        is_transport_error(request, kind, generated_at, supported_protocols@, envelope),
{
    let mut details = json_map_new();
    let (request_id, command) = match request {
        AnsweredRequestV1::Recovered(context) => (context.request_id, context.command),
        AnsweredRequestV1::Issued(request_id) => {
            json_map_insert(&mut details, "request_id_recovered", json::json_bool(false));
            (request_id, FALLBACK_COMMAND_V1.to_owned())
        },
    };
    if kind == TransportErrorKindV1::UnsupportedProtocol {
        let mut protocols: Vec<serde_json::Value> = Vec::new();
        let mut place: usize = 0;
        while place < supported_protocols.len()
            invariant
                place <= supported_protocols@.len(),
                json::json_trees(protocols@) == text_trees(supported_protocols@.take(place as int)),
            decreases supported_protocols@.len() - place,
        {
            let ghost before = protocols@;
            protocols.push(json_text(&supported_protocols[place]));
            proof {
                let protocol = supported_protocols@[place as int];
                assert(supported_protocols@.take(place + 1) =~= supported_protocols@.take(
                    place as int,
                ).push(protocol));
                assert(json::json_trees(protocols@) =~= json::json_trees(before).push(
                    json::JsonTreeV1::Text(protocol@),
                ));
                assert(text_trees(supported_protocols@.take(place + 1)) =~= text_trees(
                    supported_protocols@.take(place as int),
                ).push(json::JsonTreeV1::Text(protocol@)));
            }
            place = place + 1;
        }
        assert(supported_protocols@.take(place as int) =~= supported_protocols@);
        json_map_insert(&mut details, "supported_protocols", json_array(protocols));
    }
    let (code, message, exit_code): (&'static str, &'static str, u8) = match kind {
        TransportErrorKindV1::InvalidRequest => (
            "REQUEST_INVALID",
            "Request is malformed or violates schema.",
            2,
        ),
        TransportErrorKindV1::RequestTooLarge => (
            "REQUEST_TOO_LARGE",
            "IPC request exceeds configured limits.",
            2,
        ),
        TransportErrorKindV1::UnsupportedProtocol => (
            "PROTOCOL_VERSION_UNSUPPORTED",
            "Requested IPC protocol is unsupported.",
            3,
        ),
        TransportErrorKindV1::Internal => (
            "INTERNAL_ERROR",
            "An unexpected internal error occurred.",
            6,
        ),
    };
    TransportErrorEnvelopeV1 {
        request_id,
        command,
        generated_at,
        code,
        message,
        retryable: false,
        exit_code,
        details,
    }
}

/// Whether an answer is for the request that was asked.
pub fn response_matches_request(
    response_request_id: &String,
    response_command: &String,
    request_id: &String,
    command: &String,
) -> (matches: bool)
    ensures
        matches == (response_request_id@ == request_id@ && response_command@ == command@),
{
    *response_request_id == *request_id && *response_command == *command
}

/// What a connection is at.
#[derive(Clone, Copy, Debug, PartialEq, Eq, Structural)]
pub enum ConnectionStepV1 {
    VerifyPeer,
    ConfigureBlocking,
    ConfigureReadTimeout,
    ConfigureWriteTimeout,
    ReadFrame,
    DecodeRequest,
    AdmitCommand,
    Dispatch,
}

/// What came of a step of a connection.
#[derive(Debug, PartialEq, Eq)]
pub enum ConnectionEventV1 {
    Succeeded,
    /// The step failed outside.
    Failed(String),
    /// The stream ended before a frame.
    NoFrame,
    FrameRefused(FrameErrorV1),
    PayloadRefused(PayloadCodecErrorV1),
    /// The command is none of those that are served.
    CommandRefused,
    /// The dispatcher answered: whether for that request, with a response that is one, and with an
    /// output rather than an error.
    Answered { matches_request: bool, is_valid: bool, is_output: bool },
}

/// Where the request that an answer is for is recovered from.
#[derive(Clone, Copy, Debug, PartialEq, Eq, Structural)]
pub enum AnswerContextV1 {
    Nothing,
    RecordedFrame,
    Payload,
    Request,
}

/// What a connection does next.
#[derive(Debug, PartialEq, Eq)]
pub enum ConnectionReactionV1 {
    /// The next step is taken.
    Go(ConnectionStepV1),
    /// The connection is closed without an answer.
    Close(ServerConnectionErrorV1),
    /// The transport itself answers; then the connection is closed, for the given reason if there is
    /// one.
    AnswerError {
        context: AnswerContextV1,
        kind: TransportErrorKindV1,
        reason: Option<ServerConnectionErrorV1>,
    },
    /// The answer of the dispatcher is written.
    AnswerDispatched,
}

/// Whether what came of a step can come of it.
pub open spec fn connection_event_fits(step: ConnectionStepV1, event: ConnectionEventV1) -> bool {
    match event {
        ConnectionEventV1::Succeeded => !(step is Dispatch),
        ConnectionEventV1::Failed(_) => step is VerifyPeer || step is ConfigureBlocking
            || step is ConfigureReadTimeout || step is ConfigureWriteTimeout,
        ConnectionEventV1::NoFrame | ConnectionEventV1::FrameRefused(_) => step is ReadFrame,
        ConnectionEventV1::PayloadRefused(_) => step is DecodeRequest,
        ConnectionEventV1::CommandRefused => step is AdmitCommand,
        ConnectionEventV1::Answered { .. } => step is Dispatch,
    }
}

/// The step that follows one that succeeded.
pub open spec fn step_after(step: ConnectionStepV1) -> ConnectionStepV1 {
    match step {
        ConnectionStepV1::VerifyPeer => ConnectionStepV1::ConfigureBlocking,
        ConnectionStepV1::ConfigureBlocking => ConnectionStepV1::ConfigureReadTimeout,
        ConnectionStepV1::ConfigureReadTimeout => ConnectionStepV1::ConfigureWriteTimeout,
        ConnectionStepV1::ConfigureWriteTimeout => ConnectionStepV1::ReadFrame,
        ConnectionStepV1::ReadFrame => ConnectionStepV1::DecodeRequest,
        ConnectionStepV1::DecodeRequest => ConnectionStepV1::AdmitCommand,
        ConnectionStepV1::AdmitCommand => ConnectionStepV1::Dispatch,
        ConnectionStepV1::Dispatch => ConnectionStepV1::Dispatch,
    }
}

/// What a connection does once a step came to the given end.
pub open spec fn connection_reaction(
    step: ConnectionStepV1,
    event: ConnectionEventV1,
) -> ConnectionReactionV1 {
    match event {
        ConnectionEventV1::Succeeded => ConnectionReactionV1::Go(step_after(step)),
        ConnectionEventV1::Failed(source) => ConnectionReactionV1::Close(
            match step {
                ConnectionStepV1::ConfigureBlocking => ServerConnectionErrorV1::ConfigureBlocking(
                    source,
                ),
                ConnectionStepV1::ConfigureReadTimeout =>
                    ServerConnectionErrorV1::ConfigureReadTimeout(source),
                ConnectionStepV1::ConfigureWriteTimeout =>
                    ServerConnectionErrorV1::ConfigureWriteTimeout(source),
                _ => ServerConnectionErrorV1::Peer(source),
            },
        ),
        ConnectionEventV1::NoFrame => ConnectionReactionV1::AnswerError {
            context: AnswerContextV1::Nothing,
            kind: TransportErrorKindV1::InvalidRequest,
            reason: None,
        },
        ConnectionEventV1::FrameRefused(error) => ConnectionReactionV1::AnswerError {
            context: AnswerContextV1::RecordedFrame,
            kind: frame_error_kind(error),
            reason: match error {
                FrameErrorV1::Io { phase, kind } => Some(
                    ServerConnectionErrorV1::RequestFrameIo { phase, kind },
                ),
                _ => None,
            },
        },
        ConnectionEventV1::PayloadRefused(error) => ConnectionReactionV1::AnswerError {
            context: AnswerContextV1::Payload,
            kind: match error {
                PayloadCodecErrorV1::UnsupportedProtocol =>
                    TransportErrorKindV1::UnsupportedProtocol,
                PayloadCodecErrorV1::Other => TransportErrorKindV1::InvalidRequest,
            },
            reason: None,
        },
        ConnectionEventV1::CommandRefused => ConnectionReactionV1::AnswerError {
            context: AnswerContextV1::Request,
            kind: TransportErrorKindV1::InvalidRequest,
            reason: None,
        },
        ConnectionEventV1::Answered { matches_request, is_valid, .. } => if matches_request
            && is_valid {
            ConnectionReactionV1::AnswerDispatched
        } else {
            ConnectionReactionV1::AnswerError {
                context: AnswerContextV1::Request,
                kind: TransportErrorKindV1::Internal,
                reason: Some(ServerConnectionErrorV1::InvalidDispatcherResponse),
            }
        },
    }
}

/// What a connection does once a step came to the given end.
pub fn react(step: ConnectionStepV1, event: ConnectionEventV1) -> (reaction: ConnectionReactionV1)
    requires
        connection_event_fits(step, event),
    ensures
        reaction == connection_reaction(step, event),
{
    match event {
        ConnectionEventV1::Succeeded => ConnectionReactionV1::Go(
            match step {
                ConnectionStepV1::VerifyPeer => ConnectionStepV1::ConfigureBlocking,
                ConnectionStepV1::ConfigureBlocking => ConnectionStepV1::ConfigureReadTimeout,
                ConnectionStepV1::ConfigureReadTimeout => ConnectionStepV1::ConfigureWriteTimeout,
                ConnectionStepV1::ConfigureWriteTimeout => ConnectionStepV1::ReadFrame,
                ConnectionStepV1::ReadFrame => ConnectionStepV1::DecodeRequest,
                ConnectionStepV1::DecodeRequest => ConnectionStepV1::AdmitCommand,
                ConnectionStepV1::AdmitCommand => ConnectionStepV1::Dispatch,
                ConnectionStepV1::Dispatch => ConnectionStepV1::Dispatch,
            },
        ),
        ConnectionEventV1::Failed(source) => ConnectionReactionV1::Close(
            match step {
                ConnectionStepV1::ConfigureBlocking => ServerConnectionErrorV1::ConfigureBlocking(
                    source,
                ),
                ConnectionStepV1::ConfigureReadTimeout =>
                    ServerConnectionErrorV1::ConfigureReadTimeout(source),
                ConnectionStepV1::ConfigureWriteTimeout =>
                    ServerConnectionErrorV1::ConfigureWriteTimeout(source),
                _ => ServerConnectionErrorV1::Peer(source),
            },
        ),
        ConnectionEventV1::NoFrame => ConnectionReactionV1::AnswerError {
            context: AnswerContextV1::Nothing,
            kind: TransportErrorKindV1::InvalidRequest,
            reason: None,
        },
        ConnectionEventV1::FrameRefused(error) => {
            let answered = classify_frame_error(&error);
            ConnectionReactionV1::AnswerError {
                context: AnswerContextV1::RecordedFrame,
                kind: answered,
                reason: match error {
                    FrameErrorV1::Io { phase, kind } => Some(
                        ServerConnectionErrorV1::RequestFrameIo { phase, kind },
                    ),
                    _ => None,
                },
            }
        },
        ConnectionEventV1::PayloadRefused(error) => ConnectionReactionV1::AnswerError {
            context: AnswerContextV1::Payload,
            kind: classify_payload_error(error),
            reason: None,
        },
        ConnectionEventV1::CommandRefused => ConnectionReactionV1::AnswerError {
            context: AnswerContextV1::Request,
            kind: TransportErrorKindV1::InvalidRequest,
            reason: None,
        },
        ConnectionEventV1::Answered { matches_request, is_valid, .. } => if matches_request
            && is_valid {
            ConnectionReactionV1::AnswerDispatched
        } else {
            ConnectionReactionV1::AnswerError {
                context: AnswerContextV1::Request,
                kind: TransportErrorKindV1::Internal,
                reason: Some(ServerConnectionErrorV1::InvalidDispatcherResponse),
            }
        },
    }
}

/// How serving a connection ended, once its answer was written or could not be: a failure to write
/// comes before the reason that the answer was given for.
pub fn connection_result(
    written: Result<(), ServerConnectionErrorV1>,
    reason: Option<ServerConnectionErrorV1>,
) -> (result: Result<(), ServerConnectionErrorV1>)
    ensures
        result == match (written, reason) {
            (Err(error), _) => Err(error),
            (Ok(()), Some(reason)) => Err(reason),
            (Ok(()), None) => Ok::<(), ServerConnectionErrorV1>(()),
        },
{
    match (written, reason) {
        (Err(error), _) => Err(error),
        (Ok(()), Some(reason)) => Err(reason),
        (Ok(()), None) => Ok(()),
    }
}

/// What is told of a step of a connection that came to the given end: a peer that is not admitted, a
/// connection that cannot be set up, a request that is not served, and every answer.
pub open spec fn connection_record(
    step: ConnectionStepV1,
    event: ConnectionEventV1,
) -> Option<EventRecordV1> {
    match event {
        ConnectionEventV1::Succeeded => None,
        ConnectionEventV1::Failed(_) => Some(
            if step is VerifyPeer {
                EventRecordV1 {
                    operation: EventOperationV1::PeerAdmission,
                    outcome: EventOutcomeV1::Rejected,
                }
            } else {
                EventRecordV1 {
                    operation: EventOperationV1::ConnectionSetup,
                    outcome: EventOutcomeV1::Failed,
                }
            },
        ),
        ConnectionEventV1::NoFrame
        | ConnectionEventV1::FrameRefused(_)
        | ConnectionEventV1::PayloadRefused(_)
        | ConnectionEventV1::CommandRefused => Some(
            EventRecordV1 {
                operation: EventOperationV1::TransportServiceRequest,
                outcome: EventOutcomeV1::Rejected,
            },
        ),
        ConnectionEventV1::Answered { matches_request, is_valid, is_output } => Some(
            EventRecordV1 {
                operation: EventOperationV1::ServiceDispatch,
                outcome: if !(matches_request && is_valid) {
                    EventOutcomeV1::Failed
                } else if is_output {
                    EventOutcomeV1::Succeeded
                } else {
                    EventOutcomeV1::Rejected
                },
            },
        ),
    }
}

/// What is told of a step of a connection that came to the given end.
pub fn told_of_connection(step: ConnectionStepV1, event: &ConnectionEventV1) -> (record: Option<
    EventRecordV1,
>)
    requires
        connection_event_fits(step, *event),
    ensures
        record == connection_record(step, *event),
{
    match event {
        ConnectionEventV1::Succeeded => None,
        ConnectionEventV1::Failed(_) => match step {
            ConnectionStepV1::VerifyPeer => Some(
                EventRecordV1::new(EventOperationV1::PeerAdmission, EventOutcomeV1::Rejected),
            ),
            _ => Some(EventRecordV1::new(EventOperationV1::ConnectionSetup, EventOutcomeV1::Failed)),
        },
        ConnectionEventV1::NoFrame
        | ConnectionEventV1::FrameRefused(_)
        | ConnectionEventV1::PayloadRefused(_)
        | ConnectionEventV1::CommandRefused => Some(
            EventRecordV1::new(EventOperationV1::TransportServiceRequest, EventOutcomeV1::Rejected),
        ),
        ConnectionEventV1::Answered { matches_request, is_valid, is_output } => {
            let outcome = if !(*matches_request && *is_valid) {
                EventOutcomeV1::Failed
            } else if *is_output {
                EventOutcomeV1::Succeeded
            } else {
                EventOutcomeV1::Rejected
            };
            Some(EventRecordV1::new(EventOperationV1::ServiceDispatch, outcome))
        },
    }
}

/// What is told of an answer that was written, or could not be: that it could not be encoded, written
/// or flushed, and nothing else.
pub fn told_of_answer(written: &Result<(), ServerConnectionErrorV1>) -> (record: Option<
    EventRecordV1,
>)
    ensures
        record == match *written {
            Err(ServerConnectionErrorV1::ResponseEncode(_))
            | Err(ServerConnectionErrorV1::ResponseWrite(_))
            | Err(ServerConnectionErrorV1::ResponseFlush(_)) => Some(
                EventRecordV1 {
                    operation: EventOperationV1::ResponseWrite,
                    outcome: EventOutcomeV1::Failed,
                },
            ),
            _ => None,
        },
{
    match written {
        Err(ServerConnectionErrorV1::ResponseEncode(_))
        | Err(ServerConnectionErrorV1::ResponseWrite(_))
        | Err(ServerConnectionErrorV1::ResponseFlush(_)) => Some(
            EventRecordV1::new(EventOperationV1::ResponseWrite, EventOutcomeV1::Failed),
        ),
        _ => None,
    }
}

/// Every end of a connection is told, and nothing else is: a step is told of exactly where no other
/// step follows it. Only an answer that the dispatcher gave is told as a success.
pub proof fn every_end_of_a_connection_is_told(step: ConnectionStepV1, event: ConnectionEventV1)
    requires
        connection_event_fits(step, event),
    ensures
        connection_record(step, event) is Some <==> !(connection_reaction(step, event) is Go),
        connection_record(step, event) matches Some(record) && record.outcome is Succeeded ==>
            connection_reaction(step, event) is AnswerDispatched,
{
}

/// The place of a step in the order of steps.
pub open spec fn step_place(step: ConnectionStepV1) -> nat {
    match step {
        ConnectionStepV1::VerifyPeer => 0,
        ConnectionStepV1::ConfigureBlocking => 1,
        ConnectionStepV1::ConfigureReadTimeout => 2,
        ConnectionStepV1::ConfigureWriteTimeout => 3,
        ConnectionStepV1::ReadFrame => 4,
        ConnectionStepV1::DecodeRequest => 5,
        ConnectionStepV1::AdmitCommand => 6,
        ConnectionStepV1::Dispatch => 7,
    }
}

/// Whether steps were taken one after the other from the first, each because the one before it
/// succeeded.
pub open spec fn is_course(steps: Seq<ConnectionStepV1>) -> bool {
    &&& steps.len() > 0
    &&& steps[0] is VerifyPeer
    &&& forall|i: int|
        #![trigger steps[i]]
        0 <= i < steps.len() - 1 ==> connection_event_fits(
            steps[i],
            ConnectionEventV1::Succeeded,
        ) && connection_reaction(steps[i], ConnectionEventV1::Succeeded)
            == ConnectionReactionV1::Go(steps[i + 1])
}

/// No byte of a connection is read before its peer was verified and its timeouts set, and nothing is
/// dispatched before it was read, decoded and admitted: every step of a course comes at its own place
/// in the order, after all the steps before it.
pub proof fn a_peer_is_verified_before_it_is_read(steps: Seq<ConnectionStepV1>, place: int)
    requires
        is_course(steps),
        0 <= place < steps.len(),
    ensures
        step_place(steps[place]) == place,
    decreases place,
{
    if place > 0 {
        a_peer_is_verified_before_it_is_read(steps, place - 1);
        assert(connection_reaction(steps[place - 1], ConnectionEventV1::Succeeded)
            == ConnectionReactionV1::Go(steps[place - 1 + 1]));
    }
}

/// A step that fails before a frame is read is answered with nothing, and every end after that with
/// exactly one answer.
pub proof fn a_read_connection_is_answered(step: ConnectionStepV1, event: ConnectionEventV1)
    requires
        connection_event_fits(step, event),
        !(event is Succeeded),
    ensures
        step_place(step) < 4 <==> connection_reaction(step, event) is Close,
        step_place(step) >= 4 <==> (connection_reaction(step, event) is AnswerError
            || connection_reaction(step, event) is AnswerDispatched),
{
}

/// A connection whose steps succeed goes through all of them: each that succeeds but for the last is
/// followed by the next, up to the dispatch of the request.
pub proof fn a_connection_that_goes_well_is_dispatched(step: ConnectionStepV1)
    requires
        step_place(step) < 7,
    ensures
        connection_reaction(step, ConnectionEventV1::Succeeded) matches ConnectionReactionV1::Go(next)
            && step_place(next) == step_place(step) + 1,
{
}

/// The answer of the dispatcher is passed on exactly if it is for the request that was asked and is
/// one, whether it is an output or an error. Any other is answered with an internal error, to the
/// request.
pub proof fn only_a_fitting_answer_is_passed_on(
    matches_request: bool,
    is_valid: bool,
    is_output: bool,
)
    ensures
        ({
            let reaction = connection_reaction(
                ConnectionStepV1::Dispatch,
                ConnectionEventV1::Answered { matches_request, is_valid, is_output },
            );
            &&& matches_request && is_valid ==> reaction is AnswerDispatched
            &&& !(matches_request && is_valid) ==> reaction == (ConnectionReactionV1::AnswerError {
                context: AnswerContextV1::Request,
                kind: TransportErrorKindV1::Internal,
                reason: Some(ServerConnectionErrorV1::InvalidDispatcherResponse),
            })
        }),
{
}

/// What is refused is answered for what it was refused for: what is too large, what speaks another
/// protocol, what could not be read, and everything else as an invalid request. The answer is for the
/// request as far as it was read, and only a failure to read is kept as the reason to close.
pub proof fn a_refused_request_is_told_why(step: ConnectionStepV1, event: ConnectionEventV1)
    requires
        connection_event_fits(step, event),
    ensures
        connection_reaction(step, event) matches ConnectionReactionV1::AnswerError {
            context,
            kind,
            reason,
        } ==> {
            &&& kind is RequestTooLarge <==> event == ConnectionEventV1::FrameRefused(
                FrameErrorV1::InvalidLength(FrameLengthErrorV1::TooLarge),
            )
            &&& kind is UnsupportedProtocol <==> event == ConnectionEventV1::PayloadRefused(
                PayloadCodecErrorV1::UnsupportedProtocol,
            )
            &&& kind is Internal <==> (event is Answered || (event matches
                ConnectionEventV1::FrameRefused(error) && error is Io))
            &&& context is Nothing <==> event is NoFrame
            &&& context is RecordedFrame <==> event is FrameRefused
            &&& context is Payload <==> event is PayloadRefused
            &&& context is Request <==> (event is CommandRefused || event is Answered)
            &&& reason is Some <==> kind is Internal
            &&& event matches ConnectionEventV1::FrameRefused(FrameErrorV1::Io { phase, kind })
                ==> reason == Some((ServerConnectionErrorV1::RequestFrameIo { phase, kind }))
        },
        event is NoFrame || event is FrameRefused || event is PayloadRefused
            || event is CommandRefused ==> connection_reaction(step, event) is AnswerError,
{
}

/// A step that fails closes the connection for its own error, which tells what failed.
pub proof fn a_failed_step_closes_for_its_own_error(step: ConnectionStepV1, source: String)
    requires
        connection_event_fits(step, ConnectionEventV1::Failed(source)),
    ensures
        connection_reaction(step, ConnectionEventV1::Failed(source)) matches
            ConnectionReactionV1::Close(error) && {
            &&& step is VerifyPeer <==> error == ServerConnectionErrorV1::Peer(source)
            &&& step is ConfigureBlocking <==> error == ServerConnectionErrorV1::ConfigureBlocking(
                source,
            )
            &&& step is ConfigureReadTimeout <==> error
                == ServerConnectionErrorV1::ConfigureReadTimeout(source)
            &&& step is ConfigureWriteTimeout <==> error
                == ServerConnectionErrorV1::ConfigureWriteTimeout(source)
        },
{
}

/// A step is told as what it ended as: a peer that is refused, a connection that cannot be set up, a
/// request that is refused, and an answer as failed exactly if it is not passed on.
pub proof fn an_end_is_told_as_what_it_is(step: ConnectionStepV1, event: ConnectionEventV1)
    requires
        connection_event_fits(step, event),
    ensures
        connection_record(step, event) matches Some(record) ==> {
            &&& record.operation is PeerAdmission <==> step is VerifyPeer
            &&& record.operation is ConnectionSetup <==> step is ConfigureBlocking
                || step is ConfigureReadTimeout || step is ConfigureWriteTimeout
            &&& record.operation is TransportServiceRequest <==> step is ReadFrame
                || step is DecodeRequest || step is AdmitCommand
            &&& record.operation is ServiceDispatch <==> step is Dispatch
            &&& record.outcome is Failed <==> (record.operation is ConnectionSetup || (step is Dispatch
                && !(connection_reaction(step, event) is AnswerDispatched)))
            &&& record.outcome is Succeeded <==> (event matches ConnectionEventV1::Answered {
                matches_request,
                is_valid,
                is_output,
            } && matches_request && is_valid && is_output)
            &&& record.outcome is Failed || record.outcome is Succeeded
                || record.outcome is Rejected
        },
{
}

/// The transport answers the request that was recovered, by its identifier and its command, or tells
/// that none was. It never asks to try again, and names the protocols that there are exactly if the
/// requested one is none of them.
pub proof fn the_transport_answers_what_it_recovered(
    request: AnsweredRequestV1,
    kind: TransportErrorKindV1,
    generated_at: String,
    supported_protocols: Vec<String>,
    envelope: TransportErrorEnvelopeV1,
)
    requires
        call_ensures(
            transport_error_response,
            (request, kind, generated_at, &supported_protocols),
            envelope,
        ),
    ensures
        request matches AnsweredRequestV1::Recovered(context) ==> envelope.request_id
            == context.request_id && envelope.command == context.command && json::member(
            json::json_members(envelope.details),
            "request_id_recovered"@,
        ) is None,
        request matches AnsweredRequestV1::Issued(request_id) ==> envelope.request_id == request_id
            && json::member(json::json_members(envelope.details), "request_id_recovered"@) == Some(
            json::JsonTreeV1::Bool(false),
        ),
        envelope.generated_at == generated_at,
        !envelope.retryable,
        envelope.code == "REQUEST_INVALID" && envelope.exit_code == 2 <==> kind is InvalidRequest,
        envelope.code == "REQUEST_TOO_LARGE" && envelope.exit_code == 2 <==> kind is RequestTooLarge,
        envelope.code == "PROTOCOL_VERSION_UNSUPPORTED" && envelope.exit_code == 3
            <==> kind is UnsupportedProtocol,
        envelope.code == "INTERNAL_ERROR" && envelope.exit_code == 6 <==> kind is Internal,
        kind is UnsupportedProtocol ==> (json::member(
            json::json_members(envelope.details),
            "supported_protocols"@,
        ) matches Some(json::JsonTreeV1::List(protocols)) && protocols.len()
            == supported_protocols@.len() && forall|i: int|
            0 <= i < protocols.len() ==> #[trigger] protocols[i] == json::JsonTreeV1::Text(
                supported_protocols@[i]@,
            )),
        !(kind is UnsupportedProtocol) ==> json::member(
            json::json_members(envelope.details),
            "supported_protocols"@,
        ) is None,
{
    reveal_strlit("request_id_recovered");
    reveal_strlit("supported_protocols");
    assert("request_id_recovered"@.len() == 20 && "supported_protocols"@.len() == 19);
    reveal_strlit("REQUEST_INVALID");
    reveal_strlit("REQUEST_TOO_LARGE");
    reveal_strlit("PROTOCOL_VERSION_UNSUPPORTED");
    reveal_strlit("INTERNAL_ERROR");
    assert("REQUEST_INVALID"@.len() == 15 && "REQUEST_TOO_LARGE"@.len() == 17
        && "PROTOCOL_VERSION_UNSUPPORTED"@.len() == 28 && "INTERNAL_ERROR"@.len() == 14);
}

} // verus!
