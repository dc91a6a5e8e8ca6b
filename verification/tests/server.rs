//! The transport: admission, connections, the accept loop, and the metadata of its own answers.

use podway_daemon::observability::{EventOperationV1, EventOutcomeV1, EventRecordV1};
use podway_daemon::server::accept_loop::{
    part_finished, AcceptEffectV1, AcceptEventV1, AcceptLoopRunV1, AcceptStepV1,
    BoundedAcceptLoopV1, ServerAcceptLoopErrorV1, ThreadConnectionHandlerSpawnerV1,
};
use podway_daemon::server::admission::{
    HandlerLimitV1, ShutdownAdmissionErrorV1, ShutdownAdmissionOutcomeV1, ShutdownAdmissionV1,
};
use podway_daemon::server::connection::{
    connection_result, react, response_matches_request, told_of_answer, told_of_connection,
    transport_error_response, AnswerContextV1, AnsweredRequestV1, ConnectionEventV1, ConnectionReactionV1, ConnectionStepV1, FrameErrorV1,
    FrameLengthErrorV1, PayloadCodecErrorV1, ServerConnectionErrorV1, TransportErrorKindV1,
};
use podway_daemon::server::metadata::{
    clock_reading, generated_at_text, request_id_text, FixedResponseMetadataSourceV1,
    ResponseMetadataClockErrorV1, ResponseMetadataClockV1, ResponseMetadataErrorV1,
    SystemResponseMetadataClockV1, SystemResponseMetadataSourceV1,
};
use podway_daemon::server::recovery::{
    recorded_frame_length, recorded_payload, recover_request_context, recovered_texts,
    RecoveredTextsV1, RequestContextV1,
};
use podway_daemon::server::{
    ServerTransportConfigurationErrorV1, ServerTransportTimeoutsV1, UnixServerTransportV1,
    DEFAULT_FRAME_IO_TIMEOUT_V1,
};
use std::time::Duration;

fn limit(count: usize) -> HandlerLimitV1 {
    HandlerLimitV1::new(count).unwrap()
}

#[test]
fn admission_outcomes_distinguish_capacity_from_shutdown_closure() {
    let mut admission = ShutdownAdmissionV1::new();
    let maximum = HandlerLimitV1::new(1).expect("one is nonzero");
    let ticket = match admission
        .try_admit(maximum)
        .expect("fresh admission state must not be poisoned")
    {
        ShutdownAdmissionOutcomeV1::Admitted(ticket) => ticket,
        ShutdownAdmissionOutcomeV1::Closed | ShutdownAdmissionOutcomeV1::AtCapacity => {
            panic!("fresh admission state must admit one ticket")
        }
    };

    assert!(matches!(
        admission.try_admit(maximum),
        Ok(ShutdownAdmissionOutcomeV1::AtCapacity)
    ));
    admission.release(ticket);
    admission.request_shutdown();
    assert!(matches!(
        admission.try_admit(maximum),
        Ok(ShutdownAdmissionOutcomeV1::Closed)
    ));
}

#[test]
fn poisoned_admission_closes_and_releases_existing_tickets() {
    let mut admission = ShutdownAdmissionV1::new();
    let ticket = match admission
        .try_admit(HandlerLimitV1::new(1).expect("one is nonzero"))
        .expect("fresh admission state must not be poisoned")
    {
        ShutdownAdmissionOutcomeV1::Admitted(ticket) => ticket,
        ShutdownAdmissionOutcomeV1::Closed | ShutdownAdmissionOutcomeV1::AtCapacity => {
            panic!("fresh admission state must admit one ticket")
        }
    };
    assert_eq!(admission.in_flight(), 1);
    admission.poison();

    assert!(matches!(
        admission.try_is_accepting(),
        Err(ShutdownAdmissionErrorV1::PoisonedState)
    ));
    assert!(!admission.is_accepting());
    assert_eq!(
        ShutdownAdmissionErrorV1::PoisonedState.message(),
        "shutdown admission state is poisoned"
    );

    admission.release(ticket);

    assert!(!admission.is_accepting());
    assert_eq!(admission.in_flight(), 0);
    assert!(admission.at_capacity(limit(1)).is_err());
}

#[test]
fn some_handler_may_always_be_at_work() {
    assert_eq!(HandlerLimitV1::new(0), None);
    assert_eq!(HandlerLimitV1::new(1).unwrap().get(), 1);
    assert_eq!(limit(usize::MAX).get(), usize::MAX);
}

#[test]
fn a_released_ticket_makes_room_again() {
    let mut admission = ShutdownAdmissionV1::default();
    for _ in 0..3 {
        match admission.try_admit(limit(1)).unwrap() {
            ShutdownAdmissionOutcomeV1::Admitted(ticket) => {
                assert_eq!(admission.at_capacity(limit(1)), Ok(true));
                admission.release(ticket);
                assert_eq!(admission.at_capacity(limit(1)), Ok(false));
            }
            other => panic!("there is room: {other:?}"),
        }
    }
    assert!(admission.is_accepting());
}

#[test]
fn handlers_at_work_are_those_admitted_and_not_released() {
    let mut admission = ShutdownAdmissionV1::new();
    let maximum = limit(2);
    let mut tickets = Vec::new();
    for expected in [1, 2, 2] {
        if let ShutdownAdmissionOutcomeV1::Admitted(ticket) = admission.try_admit(maximum).unwrap()
        {
            tickets.push(ticket);
        }
        assert_eq!(admission.in_flight(), expected);
        assert_eq!(admission.in_flight(), tickets.len());
    }
    admission.release(tickets.pop().unwrap());
    assert_eq!(admission.in_flight(), 1);
    assert!(admission.is_accepting());
    admission.request_shutdown();
    assert_eq!(admission.in_flight(), 1);
    assert!(matches!(
        admission.try_admit(maximum),
        Ok(ShutdownAdmissionOutcomeV1::Closed)
    ));
    assert_eq!(admission.in_flight(), 1);
    admission.release(tickets.pop().unwrap());
    assert_eq!(admission.in_flight(), 0);
    assert!(tickets.is_empty());
}

#[derive(Clone, Copy)]
enum SetupFailureV1 {
    Blocking,
    ReadTimeout,
    WriteTimeout,
}

fn set_up(failure: SetupFailureV1) -> (usize, ServerConnectionErrorV1) {
    let mut calls = 0;
    let mut step = ConnectionStepV1::ConfigureBlocking;
    loop {
        calls += 1;
        let failed = match (failure, step) {
            (SetupFailureV1::Blocking, ConnectionStepV1::ConfigureBlocking) => {
                Some("injected blocking failure")
            }
            (SetupFailureV1::ReadTimeout, ConnectionStepV1::ConfigureReadTimeout) => {
                Some("injected read timeout failure")
            }
            (SetupFailureV1::WriteTimeout, ConnectionStepV1::ConfigureWriteTimeout) => {
                Some("injected write timeout failure")
            }
            _ => None,
        };
        let event = match failed {
            Some(source) => ConnectionEventV1::Failed(source.to_owned()),
            None => ConnectionEventV1::Succeeded,
        };
        match react(step, event) {
            ConnectionReactionV1::Go(next) => step = next,
            ConnectionReactionV1::Close(error) => return (calls, error),
            other => panic!("injected setup operation must fail: {other:?}"),
        }
    }
}

#[test]
fn connection_setup_failures_are_typed_and_stop_at_the_failing_step() {
    for (failure, expected_calls) in [
        (SetupFailureV1::Blocking, 1),
        (SetupFailureV1::ReadTimeout, 2),
        (SetupFailureV1::WriteTimeout, 3),
    ] {
        let (calls, error) = set_up(failure);

        assert_eq!(calls, expected_calls);
        match failure {
            SetupFailureV1::Blocking => {
                assert!(matches!(
                    error,
                    ServerConnectionErrorV1::ConfigureBlocking(_)
                ));
            }
            SetupFailureV1::ReadTimeout => {
                assert!(matches!(
                    error,
                    ServerConnectionErrorV1::ConfigureReadTimeout(_)
                ));
            }
            SetupFailureV1::WriteTimeout => {
                assert!(matches!(
                    error,
                    ServerConnectionErrorV1::ConfigureWriteTimeout(_)
                ));
            }
        }
    }
}

#[test]
fn a_connection_is_read_only_after_its_peer_was_verified() {
    let mut step = ConnectionStepV1::VerifyPeer;
    let mut course = vec![step];
    while step != ConnectionStepV1::Dispatch {
        match react(step, ConnectionEventV1::Succeeded) {
            ConnectionReactionV1::Go(next) => step = next,
            other => panic!("a step that succeeds is followed by a step: {other:?}"),
        }
        course.push(step);
    }
    assert_eq!(
        course,
        vec![
            ConnectionStepV1::VerifyPeer,
            ConnectionStepV1::ConfigureBlocking,
            ConnectionStepV1::ConfigureReadTimeout,
            ConnectionStepV1::ConfigureWriteTimeout,
            ConnectionStepV1::ReadFrame,
            ConnectionStepV1::DecodeRequest,
            ConnectionStepV1::AdmitCommand,
            ConnectionStepV1::Dispatch,
        ]
    );
    let refused = react(
        ConnectionStepV1::VerifyPeer,
        ConnectionEventV1::Failed("another user".to_owned()),
    );
    match refused {
        ConnectionReactionV1::Close(error) => {
            assert_eq!(error.message(), "peer admission rejected: another user")
        }
        other => panic!("a foreign peer gets no answer: {other:?}"),
    }
}

#[test]
fn what_was_read_is_answered_whatever_is_wrong_with_it() {
    assert_eq!(
        react(ConnectionStepV1::ReadFrame, ConnectionEventV1::NoFrame),
        ConnectionReactionV1::AnswerError {
            context: AnswerContextV1::Nothing,
            kind: TransportErrorKindV1::InvalidRequest,
            reason: None,
        }
    );
    for (error, kind) in [
        (
            FrameErrorV1::InvalidLength(FrameLengthErrorV1::TooLarge),
            TransportErrorKindV1::RequestTooLarge,
        ),
        (
            FrameErrorV1::InvalidLength(FrameLengthErrorV1::Other),
            TransportErrorKindV1::InvalidRequest,
        ),
        (
            FrameErrorV1::UnexpectedEof,
            TransportErrorKindV1::InvalidRequest,
        ),
        (
            FrameErrorV1::TrailingData,
            TransportErrorKindV1::InvalidRequest,
        ),
    ] {
        assert_eq!(
            react(
                ConnectionStepV1::ReadFrame,
                ConnectionEventV1::FrameRefused(error)
            ),
            ConnectionReactionV1::AnswerError {
                context: AnswerContextV1::RecordedFrame,
                kind,
                reason: None,
            }
        );
    }
    match react(
        ConnectionStepV1::ReadFrame,
        ConnectionEventV1::FrameRefused(FrameErrorV1::Io {
            phase: "payload".to_owned(),
            kind: "TimedOut".to_owned(),
        }),
    ) {
        ConnectionReactionV1::AnswerError {
            kind,
            reason: Some(reason),
            ..
        } => {
            assert_eq!(kind, TransportErrorKindV1::Internal);
            assert_eq!(
                reason.message(),
                "request frame I/O failed during payload (TimedOut)"
            );
        }
        other => panic!("an I/O failure is answered and reported: {other:?}"),
    }
    assert_eq!(
        react(
            ConnectionStepV1::DecodeRequest,
            ConnectionEventV1::PayloadRefused(PayloadCodecErrorV1::UnsupportedProtocol)
        ),
        ConnectionReactionV1::AnswerError {
            context: AnswerContextV1::Payload,
            kind: TransportErrorKindV1::UnsupportedProtocol,
            reason: None,
        }
    );
    assert_eq!(
        react(
            ConnectionStepV1::AdmitCommand,
            ConnectionEventV1::CommandRefused
        ),
        ConnectionReactionV1::AnswerError {
            context: AnswerContextV1::Request,
            kind: TransportErrorKindV1::InvalidRequest,
            reason: None,
        }
    );
    assert_eq!(
        react(
            ConnectionStepV1::Dispatch,
            ConnectionEventV1::Answered {
                matches_request: true,
                is_valid: true,
                is_output: true
            }
        ),
        ConnectionReactionV1::AnswerDispatched
    );
    assert_eq!(
        react(
            ConnectionStepV1::Dispatch,
            ConnectionEventV1::Answered {
                matches_request: false,
                is_valid: true,
                is_output: true
            }
        ),
        ConnectionReactionV1::AnswerError {
            context: AnswerContextV1::Request,
            kind: TransportErrorKindV1::Internal,
            reason: Some(ServerConnectionErrorV1::InvalidDispatcherResponse),
        }
    );
    assert!(response_matches_request(
        &"r".to_owned(),
        &"c".to_owned(),
        &"r".to_owned(),
        &"c".to_owned()
    ));
    assert!(!response_matches_request(
        &"r".to_owned(),
        &"c".to_owned(),
        &"r".to_owned(),
        &"d".to_owned()
    ));
    assert_eq!(
        connection_result(
            Err(ServerConnectionErrorV1::ResponseFlush("closed".to_owned())),
            Some(ServerConnectionErrorV1::InvalidDispatcherResponse)
        ),
        Err(ServerConnectionErrorV1::ResponseFlush("closed".to_owned()))
    );
    assert_eq!(
        connection_result(
            Ok(()),
            Some(ServerConnectionErrorV1::InvalidDispatcherResponse)
        ),
        Err(ServerConnectionErrorV1::InvalidDispatcherResponse)
    );
    assert_eq!(connection_result(Ok(()), None), Ok(()));
}

#[test]
fn a_transport_error_tells_what_is_wrong_and_whether_the_request_was_recovered() {
    let protocols = vec!["podway.ipc/v1".to_owned()];
    let issued = transport_error_response(
        AnsweredRequestV1::Issued("00000000-0000-0000-0000-000000000001".to_owned()),
        TransportErrorKindV1::UnsupportedProtocol,
        "1970-01-01T00:00:00.000Z".to_owned(),
        &protocols,
    );
    assert_eq!(issued.code, "PROTOCOL_VERSION_UNSUPPORTED");
    assert_eq!(issued.message, "Requested IPC protocol is unsupported.");
    assert_eq!(issued.exit_code, 3);
    assert_eq!(issued.command, "ipc.request");
    assert!(!issued.retryable);
    assert_eq!(
        serde_json::Value::Object(issued.details),
        serde_json::from_str::<serde_json::Value>(
            r#"{"request_id_recovered": false, "supported_protocols": ["podway.ipc/v1"]}"#
        )
        .unwrap()
    );

    let recovered = transport_error_response(
        AnsweredRequestV1::Recovered(RequestContextV1 {
            request_id: "id".to_owned(),
            command: "session.next".to_owned(),
        }),
        TransportErrorKindV1::RequestTooLarge,
        "1970-01-01T00:00:00.000Z".to_owned(),
        &protocols,
    );
    assert_eq!(recovered.request_id, "id");
    assert_eq!(recovered.command, "session.next");
    assert_eq!(recovered.code, "REQUEST_TOO_LARGE");
    assert_eq!(recovered.exit_code, 2);
    assert!(recovered.details.is_empty());
    for (kind, code, exit_code) in [
        (TransportErrorKindV1::InvalidRequest, "REQUEST_INVALID", 2),
        (TransportErrorKindV1::Internal, "INTERNAL_ERROR", 6),
    ] {
        let envelope = transport_error_response(
            AnsweredRequestV1::Issued("id".to_owned()),
            kind,
            "t".to_owned(),
            &protocols,
        );
        assert_eq!(envelope.code, code);
        assert_eq!(envelope.exit_code, exit_code);
    }
}

#[test]
fn a_malformed_request_still_tells_its_identifier() {
    let payload = br#"{"request_id": "id-7", "command": "job.list", "nonsense": [1, 2]}"#;
    let texts = recovered_texts(payload).expect("the identifier is told");
    assert_eq!(
        texts,
        RecoveredTextsV1 {
            request_id: "id-7".to_owned(),
            command: Some("job.list".to_owned()),
        }
    );
    assert_eq!(
        recover_request_context(texts.clone(), true, true),
        Some(RequestContextV1 {
            request_id: "id-7".to_owned(),
            command: "job.list".to_owned(),
        })
    );
    assert_eq!(
        recover_request_context(texts.clone(), true, false),
        Some(RequestContextV1 {
            request_id: "id-7".to_owned(),
            command: "ipc.request".to_owned(),
        })
    );
    assert_eq!(recover_request_context(texts, false, true), None);
    assert_eq!(recovered_texts(b"{\"request_id\": 7}"), None);
    assert_eq!(recovered_texts(b"[]"), None);
    assert_eq!(recovered_texts(b"{\"request_id\": \"id"), None);
    assert_eq!(recovered_texts(&[0xff, 0xfe]), None);
}

#[test]
fn a_recorded_frame_is_recovered_without_what_follows_it() {
    let mut recorded = vec![0, 0, 0, 3];
    recorded.extend_from_slice(b"abcdef");
    assert_eq!(recorded_frame_length(&recorded), Some(3));
    assert_eq!(recorded_payload(&recorded, 3), Some(&b"abc"[..]));
    assert_eq!(recorded_payload(&recorded, 7), None);
    assert_eq!(recorded_frame_length(&[0, 0, 1]), None);
    assert_eq!(recorded_frame_length(&[1, 2, 3, 4]), Some(0x0102_0304));
}

struct StoppedClock(u128);

impl ResponseMetadataClockV1 for StoppedClock {
    fn now_since_unix_epoch(&self) -> Result<u128, ResponseMetadataClockErrorV1> {
        Ok(self.0)
    }
}

struct BrokenClock;

impl ResponseMetadataClockV1 for BrokenClock {
    fn now_since_unix_epoch(&self) -> Result<u128, ResponseMetadataClockErrorV1> {
        Err(ResponseMetadataClockErrorV1::BeforeUnixEpoch)
    }
}

#[test]
fn metadata_is_made_from_what_the_clock_tells() {
    let mut source = SystemResponseMetadataSourceV1::with_clock(StoppedClock(1_709_210_096_789));
    assert_eq!(
        source.try_generated_at().unwrap(),
        "2024-02-29T12:34:56.789Z"
    );
    assert_eq!(
        source.try_next_request_id(0x1_2345).unwrap(),
        "0000018d-f4dc-5495-0000-234500000000"
    );
    assert_eq!(
        source.try_next_request_id(0x1_2345).unwrap(),
        "0000018d-f4dc-5495-0001-234500000001"
    );
    assert_eq!(
        request_id_text(0, 0x1_0001, 7),
        "00000000-0000-0000-0001-000700010001"
    );
    let broken = SystemResponseMetadataSourceV1::with_clock(BrokenClock);
    let error = broken.try_generated_at().unwrap_err();
    assert_eq!(
        error,
        ResponseMetadataErrorV1::Clock(ResponseMetadataClockErrorV1::BeforeUnixEpoch)
    );
    assert_eq!(
        error.message(),
        "response metadata clock failed: clock is before the Unix epoch"
    );
    assert_eq!(
        generated_at_text(Ok(u128::from(u64::MAX) + 1)),
        Err(ResponseMetadataErrorV1::ClockOutOfRange)
    );
    assert_eq!(
        generated_at_text(Ok(253_402_300_800_000)),
        Err(ResponseMetadataErrorV1::ClockOutOfRange)
    );
    assert_eq!(
        generated_at_text(Ok(253_402_300_799_999)).unwrap(),
        "9999-12-31T23:59:59.999Z"
    );
    assert_eq!(
        generated_at_text(Ok(0)).unwrap(),
        "1970-01-01T00:00:00.000Z"
    );
    let fixed = FixedResponseMetadataSourceV1::new("then".to_owned(), "that".to_owned());
    assert_eq!(fixed.generated_at(), "then");
    assert_eq!(fixed.next_request_id(), "that");
}

#[test]
fn the_clock_of_the_system_is_after_the_epoch() {
    let now = SystemResponseMetadataClockV1.now_since_unix_epoch().unwrap();
    assert!(now > 1_577_836_800_000);
    let later = SystemResponseMetadataClockV1.now_since_unix_epoch().unwrap();
    assert!(later + 60_000 > now);
}

#[test]
fn the_defaults_go_by_the_clock_of_the_system() {
    assert!(
        SystemResponseMetadataClockV1::default()
            .now_since_unix_epoch()
            .unwrap()
            > 1_577_836_800_000
    );
    let mut source: SystemResponseMetadataSourceV1<SystemResponseMetadataClockV1> =
        SystemResponseMetadataSourceV1::default();
    let first = source.try_next_request_id(7).unwrap();
    let second = source.try_next_request_id(7).unwrap();
    assert!(first.ends_with("-0000-000700000000"));
    assert!(second.ends_with("-0001-000700000001"));
    assert_eq!(
        ThreadConnectionHandlerSpawnerV1::default().thread_name(),
        "podwayd-connection"
    );
}

#[test]
fn transports_and_loops_refuse_to_wait_for_no_time() {
    assert_eq!(
        ServerTransportTimeoutsV1::new(0, 1),
        Err(ServerTransportConfigurationErrorV1::ZeroReadTimeout)
    );
    assert_eq!(
        ServerTransportTimeoutsV1::new(1, 0),
        Err(ServerTransportConfigurationErrorV1::ZeroWriteTimeout)
    );
    let timeouts = ServerTransportTimeoutsV1::default();
    assert_eq!(timeouts.read(), Duration::from_secs(5).as_nanos());
    assert_eq!(timeouts.write(), DEFAULT_FRAME_IO_TIMEOUT_V1);
    assert_eq!(
        ServerTransportConfigurationErrorV1::ZeroAcceptPollInterval.message(),
        "accept-loop poll interval must be nonzero"
    );
    assert!(matches!(
        BoundedAcceptLoopV1::with_poll_interval((), limit(1), 0),
        Err(ServerTransportConfigurationErrorV1::ZeroAcceptPollInterval)
    ));
    let accept_loop = BoundedAcceptLoopV1::new("transport", limit(4));
    assert_eq!(*accept_loop.transport(), "transport");
    assert_eq!(accept_loop.maximum_in_flight().get(), 4);
    assert_eq!(
        accept_loop.poll_interval(),
        Duration::from_millis(10).as_nanos()
    );
    let transport: UnixServerTransportV1<&str, &str, _, ()> =
        UnixServerTransportV1::new("peer", "dispatcher", timeouts);
    assert_eq!(*transport.peer_verifier(), "peer");
    assert_eq!(*transport.dispatcher(), "dispatcher");
    assert_eq!(transport.timeouts(), timeouts);
    let told: UnixServerTransportV1<&str, &str, u8, ()> =
        UnixServerTransportV1::with_metadata("peer", "other", timeouts, 7);
    assert_eq!(*told.dispatcher(), "other");
    assert_eq!(
        ThreadConnectionHandlerSpawnerV1.thread_name(),
        "podwayd-connection"
    );
}

#[test]
fn the_accept_loop_joins_every_handler_before_it_returns() {
    let run = AcceptLoopRunV1::begin()
        .advance(AcceptEventV1::Succeeded)
        .advance(AcceptEventV1::Admitting(true))
        .advance(AcceptEventV1::Joined { panicked: false })
        .advance(AcceptEventV1::AtCapacity(false));
    assert_eq!(run.step, AcceptStepV1::Accept);
    let run = run
        .advance(AcceptEventV1::Succeeded)
        .advance(AcceptEventV1::Succeeded)
        .advance(AcceptEventV1::Succeeded);
    assert_eq!(run.step, AcceptStepV1::AskAdmission);
    let run = run
        .advance(AcceptEventV1::Admitting(false))
        .advance(AcceptEventV1::Joined { panicked: false });
    assert_eq!(run.step, AcceptStepV1::Ended);
    assert_eq!(run.result(), Ok(()));

    let panicked = AcceptLoopRunV1::begin()
        .advance(AcceptEventV1::Succeeded)
        .advance(AcceptEventV1::Admitting(true))
        .advance(AcceptEventV1::Joined { panicked: true });
    assert_eq!(panicked.effect, AcceptEffectV1::RequestShutdown);
    let panicked = panicked
        .advance(AcceptEventV1::Admitting(false))
        .advance(AcceptEventV1::Joined { panicked: false });
    let error = panicked.result().unwrap_err();
    assert_eq!(error, ServerAcceptLoopErrorV1::HandlerPanicked);
    assert_eq!(error.message(), "an admitted server handler panicked");
}

#[test]
fn the_accept_loop_tells_saturation_once_until_there_is_room() {
    let mut run = AcceptLoopRunV1 {
        step: AcceptStepV1::Admit,
        effect: AcceptEffectV1::Nothing,
        saturation_reported: false,
        terminal_error: None,
    };
    run = run.advance(AcceptEventV1::Saturated);
    assert_eq!(run.effect, AcceptEffectV1::ReportSaturation);
    run.step = AcceptStepV1::Admit;
    run = run.advance(AcceptEventV1::Saturated);
    assert_eq!(run.effect, AcceptEffectV1::Nothing);
    run.step = AcceptStepV1::AskCapacity;
    run = run.advance(AcceptEventV1::AtCapacity(false));
    run.step = AcceptStepV1::Admit;
    run = run.advance(AcceptEventV1::Saturated);
    assert_eq!(run.effect, AcceptEffectV1::ReportSaturation);
}

#[test]
fn the_accept_loop_ends_for_every_failure() {
    let configure = AcceptLoopRunV1::begin().advance(AcceptEventV1::Failed("denied".to_owned()));
    assert_eq!(configure.step, AcceptStepV1::Ended);
    assert_eq!(
        configure.result().unwrap_err().message(),
        "cannot configure listener as nonblocking: denied"
    );
    for (step, event, text) in [
        (
            AcceptStepV1::Accept,
            AcceptEventV1::Failed("gone".to_owned()),
            "cannot accept Unix connection: gone",
        ),
        (
            AcceptStepV1::Spawn,
            AcceptEventV1::Failed("no thread".to_owned()),
            "cannot spawn admitted server handler: no thread",
        ),
        (
            AcceptStepV1::AwaitProgress,
            AcceptEventV1::AdmissionFailed(ShutdownAdmissionErrorV1::PoisonedState),
            "server admission failed: shutdown admission state is poisoned",
        ),
    ] {
        let run = AcceptLoopRunV1 {
            step,
            effect: AcceptEffectV1::Nothing,
            saturation_reported: false,
            terminal_error: None,
        }
        .advance(event);
        assert_eq!(run.step, AcceptStepV1::JoinAll);
        let run = run.advance(AcceptEventV1::Joined { panicked: true });
        assert_eq!(run.result().unwrap_err().message(), text);
    }
}

#[test]
fn finished_handlers_are_parted_in_order() {
    let (finished, remaining) =
        part_finished(vec![("a", true), ("b", false), ("c", true), ("d", false)]);
    assert_eq!(finished, vec!["a", "c"]);
    assert_eq!(remaining, vec!["b", "d"]);
}

#[test]
fn a_clock_of_which_nothing_was_read_is_before_the_epoch() {
    assert_eq!(clock_reading(Some(1_709_123_456_789)), Ok(1_709_123_456_789));
    assert_eq!(clock_reading(Some(0)), Ok(0));
    assert_eq!(
        clock_reading(None),
        Err(ResponseMetadataClockErrorV1::BeforeUnixEpoch)
    );
}

#[test]
fn an_identifier_is_refused_only_by_its_clock() {
    let mut source = SystemResponseMetadataSourceV1::with_clock(BrokenClock);
    for _ in 0..2 {
        assert_eq!(
            source.try_next_request_id(7),
            Err(ResponseMetadataErrorV1::Clock(
                ResponseMetadataClockErrorV1::BeforeUnixEpoch
            ))
        );
    }
}

fn record(operation: EventOperationV1, outcome: EventOutcomeV1) -> Option<EventRecordV1> {
    Some(EventRecordV1::new(operation, outcome))
}

#[test]
fn every_end_of_a_connection_is_told_of() {
    let told = |step, event| told_of_connection(step, &event);
    let failed = || ConnectionEventV1::Failed("no".to_owned());
    let answered = |matches_request, is_valid, is_output| ConnectionEventV1::Answered {
        matches_request,
        is_valid,
        is_output,
    };
    let refused = record(
        EventOperationV1::TransportServiceRequest,
        EventOutcomeV1::Rejected,
    );
    assert_eq!(
        told(ConnectionStepV1::VerifyPeer, failed()),
        record(EventOperationV1::PeerAdmission, EventOutcomeV1::Rejected)
    );
    assert_eq!(
        told(ConnectionStepV1::ConfigureReadTimeout, failed()),
        record(EventOperationV1::ConnectionSetup, EventOutcomeV1::Failed)
    );
    assert_eq!(
        told(ConnectionStepV1::ReadFrame, ConnectionEventV1::NoFrame),
        refused
    );
    assert_eq!(
        told(
            ConnectionStepV1::DecodeRequest,
            ConnectionEventV1::PayloadRefused(PayloadCodecErrorV1::Other)
        ),
        refused
    );
    assert_eq!(
        told(
            ConnectionStepV1::AdmitCommand,
            ConnectionEventV1::CommandRefused
        ),
        refused
    );
    for (event, outcome) in [
        (answered(true, true, true), EventOutcomeV1::Succeeded),
        (answered(true, true, false), EventOutcomeV1::Rejected),
        (answered(false, true, true), EventOutcomeV1::Failed),
        (answered(true, false, false), EventOutcomeV1::Failed),
    ] {
        assert_eq!(
            told(ConnectionStepV1::Dispatch, event),
            record(EventOperationV1::ServiceDispatch, outcome)
        );
    }
    assert_eq!(
        told(ConnectionStepV1::ReadFrame, ConnectionEventV1::Succeeded),
        None
    );
    let unwritten = record(EventOperationV1::ResponseWrite, EventOutcomeV1::Failed);
    assert_eq!(
        told_of_answer(&Err(ServerConnectionErrorV1::ResponseFlush("no".to_owned()))),
        unwritten
    );
    assert_eq!(
        told_of_answer(&Err(ServerConnectionErrorV1::ResponseMetadata(
            ResponseMetadataErrorV1::ClockOutOfRange
        ))),
        None
    );
    assert_eq!(told_of_answer(&Ok(())), None);
}

#[test]
fn the_accept_loop_tells_what_it_accepts_and_what_fails() {
    let setup = record(EventOperationV1::ConnectionSetup, EventOutcomeV1::Failed);
    let run = AcceptLoopRunV1::begin();
    assert_eq!(run.told(&AcceptEventV1::Failed("no".to_owned())), setup);
    assert_eq!(run.told(&AcceptEventV1::Succeeded), None);
    let at = |step, saturation_reported| AcceptLoopRunV1 {
        step,
        saturation_reported,
        ..AcceptLoopRunV1::begin()
    };
    assert_eq!(
        at(AcceptStepV1::Accept, false).told(&AcceptEventV1::Succeeded),
        record(
            EventOperationV1::ConnectionAccepted,
            EventOutcomeV1::Succeeded
        )
    );
    assert_eq!(
        at(AcceptStepV1::AskCapacity, false).told(&AcceptEventV1::AdmissionFailed(
            ShutdownAdmissionErrorV1::PoisonedState
        )),
        setup
    );
    assert_eq!(
        at(AcceptStepV1::Admit, false).told(&AcceptEventV1::Saturated),
        record(
            EventOperationV1::AdmissionSaturation,
            EventOutcomeV1::Saturated
        )
    );
    assert_eq!(
        at(AcceptStepV1::Admit, true).told(&AcceptEventV1::Saturated),
        None
    );
    assert_eq!(
        at(AcceptStepV1::JoinAll, false).told(&AcceptEventV1::Joined { panicked: true }),
        record(EventOperationV1::HandlerJoin, EventOutcomeV1::Failed)
    );
    assert_eq!(
        at(AcceptStepV1::JoinAll, false).told(&AcceptEventV1::Joined { panicked: false }),
        None
    );
}
