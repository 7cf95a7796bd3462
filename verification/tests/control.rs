use std::sync::atomic::AtomicBool;
use std::sync::Arc;

use wikisyncd::codec::{decode_response, encode_request};
use wikisyncd::control::{OperationControl, ShutdownHandle};
use wikisyncd::daemon::{
    after_failed_accept, bounded_message, dispatch_mutation, receive, AcceptStep, Daemon,
    FoundationHandler, Received, RequestHandler, BACKGROUND_POLL_SECONDS,
};
use wikisyncd::error::{
    DaemonError, ErrorCode, IoFailure, IoFailureKind, OperationError, ResponseError,
};
use wikisyncd::protocol::{
    CollectionAdminProtocolOutcome, CollectionAdminRequest, HandlerStatus, Mutation,
    MutationOutcome, Request, RequestKind, ResponseKind, MAX_STRING_BYTES, PROTOCOL_VERSION,
};
use wikisyncd::source::{SourceAdministration, SourceAdministrationOutcome};

struct CooperativeCancellationHandler {
    shutdown: ShutdownHandle,
}

impl RequestHandler for CooperativeCancellationHandler {
    fn status(&self) -> HandlerStatus {
        HandlerStatus {
            state: "ready".to_owned(),
            detail: String::new(),
        }
    }

    fn mutate(
        &mut self,
        _mutation: Mutation,
        control: OperationControl,
    ) -> Result<MutationOutcome, OperationError> {
        self.shutdown.shutdown();
        assert!(
            control.is_shutdown_requested(),
            "shutdown did not reach handler"
        );
        Err(OperationError::failed(
            "operation interrupted by daemon shutdown",
        ))
    }
}

struct RecordingHandler {
    mutations: u64,
}

impl RequestHandler for RecordingHandler {
    fn status(&self) -> HandlerStatus {
        HandlerStatus {
            state: "ready".to_owned(),
            detail: format!("{} mutation(s)", self.mutations),
        }
    }

    fn mutate(
        &mut self,
        mutation: Mutation,
        _control: OperationControl,
    ) -> Result<MutationOutcome, OperationError> {
        self.mutations += 1;
        match mutation {
            Mutation::Compact => Err(OperationError::failed("nothing to pack")),
            _ => Ok(MutationOutcome {
                result: "recorded".to_owned(),
                payload: vec![self.mutations as u8],
            }),
        }
    }

    fn poll_background(&mut self, _control: OperationControl) -> Result<Option<MutationOutcome>, OperationError> {
        self.mutations += 100;
        Ok(None)
    }

    fn administer_collection(
        &mut self,
        request: CollectionAdminRequest,
        _control: OperationControl,
    ) -> Result<CollectionAdminProtocolOutcome, OperationError> {
        match request {
            CollectionAdminRequest::Begin { .. } => {
                Ok(CollectionAdminProtocolOutcome::Begun { token: 4 })
            }
            _ => Err(OperationError::failed("not staged")),
        }
    }

    fn administer_source(
        &mut self,
        _administration: SourceAdministration,
        _control: OperationControl,
    ) -> Result<SourceAdministrationOutcome, OperationError> {
        Err(OperationError::failed("no store"))
    }
}

fn request(kind: RequestKind) -> Request {
    Request {
        protocol_version: PROTOCOL_VERSION,
        request_id: 9,
        kind,
    }
}

#[test]
fn operation_control_tracks_process_local_shutdown_across_clones() {
    assert!(!OperationControl::running().is_shutdown_requested());

    let running = Arc::new(AtomicBool::new(true));
    let control = OperationControl {
        running: Some(Arc::clone(&running)),
    };
    let clone = control.clone();
    let shutdown = ShutdownHandle { running };

    assert!(!control.is_shutdown_requested());
    assert!(!clone.is_shutdown_requested());
    shutdown.shutdown();
    assert!(control.is_shutdown_requested());
    assert!(clone.is_shutdown_requested());
}

#[test]
fn active_interrupted_mutation_is_not_counted_as_completed() {
    let running = Arc::new(AtomicBool::new(true));
    let control = OperationControl {
        running: Some(Arc::clone(&running)),
    };
    let shutdown = ShutdownHandle { running };
    let mut handler = CooperativeCancellationHandler { shutdown };
    let mut completed_mutations = 0;

    let response = dispatch_mutation(
        &mut handler,
        Mutation::SyncAll,
        control,
        &mut completed_mutations,
    );

    assert!(matches!(
        response,
        ResponseKind::Error(ResponseError {
            code: ErrorCode::OperationFailed,
            ..
        })
    ));
    assert_eq!(completed_mutations, 0);
}

#[test]
fn oversized_multibyte_operation_errors_are_truncated_on_a_character_boundary() {
    let message = "a".repeat(MAX_STRING_BYTES - 1) + "🦀" + &"b".repeat(16);
    let bounded = bounded_message(&message);
    assert!(bounded.len() <= MAX_STRING_BYTES);
    assert!(bounded.is_char_boundary(bounded.len()));
    assert_eq!(bounded, "a".repeat(MAX_STRING_BYTES - 1));
}

#[test]
fn short_messages_are_kept_whole() {
    assert_eq!(bounded_message("kaputt ✗"), "kaputt ✗");
    let exact = "é".repeat(MAX_STRING_BYTES / 2);
    assert_eq!(bounded_message(&exact), exact);
}

#[test]
fn foundation_never_claims_an_unimplemented_mutation_succeeded() {
    let mut daemon = Daemon::start(FoundationHandler).expect("start");
    let frame = encode_request(&request(RequestKind::Mutate(Mutation::SyncAll)));
    let answer = daemon.serve_one(frame, 1, 0).expect("answer");
    let response = decode_response(&answer).expect("decode");
    assert!(
        matches!(
            response.kind,
            ResponseKind::Error(ResponseError {
                code: ErrorCode::Unsupported,
                ..
            })
        ),
        "foundation returned an unexpected mutation result: {response:?}"
    );
    assert_eq!(daemon.completed_mutations, 0);
}

#[test]
fn health_status_mutation_and_shutdown_are_answered() {
    let mut daemon = Daemon::start(RecordingHandler { mutations: 0 }).expect("start");
    match daemon.dispatch(request(RequestKind::Health), 77, 12).kind {
        ResponseKind::Health(health) => {
            assert_eq!(health.process_id, 77);
            assert_eq!(health.uptime_seconds, 12);
        }
        other => panic!("unexpected health {other:?}"),
    }
    assert_eq!(
        daemon
            .dispatch(request(RequestKind::Mutate(Mutation::SyncAll)), 77, 12)
            .kind,
        ResponseKind::Mutated(MutationOutcome {
            result: "recorded".to_owned(),
            payload: vec![1],
        })
    );
    assert!(matches!(
        daemon
            .dispatch(request(RequestKind::Mutate(Mutation::Compact)), 77, 12)
            .kind,
        ResponseKind::Error(ResponseError {
            code: ErrorCode::OperationFailed,
            ..
        })
    ));
    match daemon.dispatch(request(RequestKind::Status), 77, 13).kind {
        ResponseKind::Status(status) => {
            assert_eq!(status.completed_mutations, 1);
            assert_eq!(status.detail, "2 mutation(s)");
            assert_eq!(status.uptime_seconds, 13);
        }
        other => panic!("unexpected status {other:?}"),
    }
    daemon.poll_background();
    assert_eq!(daemon.handler.mutations, 102);

    let control = daemon.operation_control();
    assert!(!control.is_shutdown_requested());
    assert_eq!(
        daemon.dispatch(request(RequestKind::Shutdown), 77, 14).kind,
        ResponseKind::ShutdownAccepted
    );
    assert!(control.is_shutdown_requested());
}

#[test]
fn staging_a_draft_is_no_completed_mutation() {
    let mut daemon = Daemon::start(RecordingHandler { mutations: 0 }).expect("start");
    let begun = daemon.dispatch(
        request(RequestKind::CollectionAdmin(CollectionAdminRequest::Begin {
            total_bytes: 10,
        })),
        1,
        1,
    );
    assert_eq!(
        begun.kind,
        ResponseKind::CollectionAdmin(CollectionAdminProtocolOutcome::Begun { token: 4 })
    );
    assert_eq!(daemon.completed_mutations, 0);
    let refused = daemon.dispatch(
        request(RequestKind::SourceAdmin(SourceAdministration::Add {
            api_endpoint: "https://example.invalid/w/api.php".to_owned(),
            language_code: "en".to_owned(),
        })),
        1,
        1,
    );
    assert!(matches!(refused.kind, ResponseKind::Error(_)));
    assert_eq!(daemon.completed_mutations, 0);
}

#[test]
fn legacy_requests_are_answered_in_their_own_version() {
    let mut daemon = Daemon::start(FoundationHandler).expect("start");
    let legacy = Request {
        protocol_version: 1,
        request_id: 5,
        kind: RequestKind::Health,
    };
    let answer = daemon
        .serve_one(encode_request(&legacy), 3, 4)
        .expect("answer");
    let response = decode_response(&answer).expect("decode");
    assert_eq!(response.protocol_version, 1);
    assert_eq!(response.request_id, 5);
    assert!(matches!(response.kind, ResponseKind::Health(_)));
}

#[test]
fn unreadable_frames_are_refused_or_dropped() {
    assert!(matches!(
        receive(Err(DaemonError::FrameTooLarge { size: 70_000 })),
        Received::Refuse(_)
    ));
    assert!(matches!(
        receive(Err(DaemonError::Io(IoFailure {
            kind: IoFailureKind::ConnectionReset,
            message: "gone".to_owned(),
        }))),
        Received::Disconnect(_)
    ));
    assert!(matches!(receive(Ok(vec![1, 2, 3])), Received::Refuse(_)));
    let frame = encode_request(&request(RequestKind::Health));
    assert!(matches!(receive(frame), Received::Dispatch(_)));

    let mut daemon = Daemon::start(FoundationHandler).expect("start");
    let answer = daemon
        .serve_one(Ok(vec![1, 2, 3]), 1, 1)
        .expect("refusal");
    assert!(matches!(
        decode_response(&answer).expect("decode").kind,
        ResponseKind::Error(ResponseError {
            code: ErrorCode::InvalidRequest,
            ..
        })
    ));
    assert!(daemon
        .serve_one(
            Err(DaemonError::Io(IoFailure {
                kind: IoFailureKind::ConnectionReset,
                message: "gone".to_owned(),
            })),
            1,
            1
        )
        .is_err());
}

#[test]
fn idle_accepts_poll_the_background() {
    assert_eq!(
        after_failed_accept(IoFailureKind::WouldBlock, BACKGROUND_POLL_SECONDS),
        AcceptStep::PollAndWait
    );
    assert_eq!(
        after_failed_accept(IoFailureKind::WouldBlock, 0),
        AcceptStep::Wait
    );
    assert_eq!(
        after_failed_accept(IoFailureKind::Other, BACKGROUND_POLL_SECONDS),
        AcceptStep::Fail
    );
}

#[test]
fn a_shutdown_request_stops_the_daemon() {
    let mut daemon = Daemon::start(RecordingHandler { mutations: 0 }).expect("start");
    daemon.dispatch(request(RequestKind::Health), 1, 0);
    daemon.dispatch(request(RequestKind::Mutate(Mutation::SyncAll)), 1, 0);
    daemon.poll_background();
    assert!(!daemon.stopping);
    let frame = encode_request(&request(RequestKind::Shutdown));
    let answer = daemon.serve_one(frame, 1, 0).expect("answer");
    assert_eq!(
        decode_response(&answer).expect("decode").kind,
        ResponseKind::ShutdownAccepted
    );
    assert!(daemon.stopping);
    assert!(daemon.operation_control().is_shutdown_requested());
    assert_eq!(daemon.completed_mutations, 1);
    daemon.dispatch(request(RequestKind::Health), 1, 0);
    assert!(daemon.stopping);
}

#[test]
fn the_status_counts_the_mutations_that_succeeded() {
    let mut daemon = Daemon::start(RecordingHandler { mutations: 0 }).expect("start");
    let mut counts = Vec::new();
    for kind in [
        RequestKind::Status,
        RequestKind::Mutate(Mutation::SyncAll),
        RequestKind::Status,
        RequestKind::Mutate(Mutation::Compact),
        RequestKind::Health,
        RequestKind::Mutate(Mutation::Verify { full: false }),
        RequestKind::Status,
    ] {
        daemon.poll_background();
        if let ResponseKind::Status(status) = daemon.dispatch(request(kind), 1, 0).kind {
            counts.push(status.completed_mutations);
        }
    }
    assert_eq!(counts, [0, 1, 2]);
}
