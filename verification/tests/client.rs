use wikisyncd::administration::CollectionAdministration;
use wikisyncd::client::{
    Client, Exchange, ExchangeStep, CLIENT_IO_TIMEOUT_SECONDS, LONG_OPERATION_TIMEOUT_SECONDS,
};
use wikisyncd::codec::{decode_request, encode_response};
use wikisyncd::collection::{
    CollectionAdministrationOutcome, CollectionDraft, CollectionDraftEstimate,
};
use wikisyncd::control_plane::{
    after_lock_creation, bind_exclusive, canonical_library_root, daemon_socket_path, existing_lock,
    inspect_control_plane, ipc_lock_path, owns_socket, reject_unexpected_lock_path,
    remove_confirmed_stale_socket, validate_open_lock_file, writer_socket_path, AccessStep,
    BindStep, BusyKind, EntryKind, LocalSocketState, LockStep, Observation, PathEntry, RootProbe,
    SocketIdentity, SocketInspection, SocketProbe,
};
use wikisyncd::draft_decoder::decode_collection_draft;
use wikisyncd::error::{DaemonError, ErrorCode, IoFailure, IoFailureKind, ResponseError};
use wikisyncd::model::{
    CollectionBudget, CollectionId, CollectionRemovalPolicy, CollectionRule,
    CollectionSelectionPreview, HistoryPolicy, InclusionReason, PageId, PageTitle,
    ResolvedCollectionMember, WikiId,
};
use wikisyncd::protocol::{
    CollectionAdminProtocolOutcome, CollectionAdminRequest, Health, Mutation, Request,
    RequestKind, Response, ResponseKind, MAX_COLLECTION_DRAFT_CHUNK_BYTES, MIN_PROTOCOL_VERSION,
    PROTOCOL_VERSION,
};
use wikisyncd::upload::{Upload, UploadStep};

fn client() -> Client {
    Client::for_library("/library", RootProbe::Directory(Ok("/library".to_owned())))
        .expect("client")
}

fn failure(kind: IoFailureKind) -> IoFailure {
    IoFailure {
        kind,
        message: "failed".to_owned(),
    }
}

fn health() -> ResponseKind {
    ResponseKind::Health(Health {
        daemon_version: "0.1.0".to_owned(),
        process_id: 1,
        uptime_seconds: 2,
    })
}

fn reply(version: u16, request_id: u64, kind: ResponseKind) -> Result<Vec<u8>, DaemonError> {
    encode_response(&Response {
        protocol_version: version,
        request_id,
        kind,
    })
}

const IDENTITY: SocketIdentity = SocketIdentity {
    device: 1,
    inode: 2,
};

fn socket(identity: SocketIdentity) -> PathEntry {
    PathEntry {
        kind: EntryKind::Socket,
        identity,
    }
}

fn inspected(observations: Vec<Observation>) -> SocketProbe {
    let mut probe = SocketProbe::inspect_socket();
    for observation in observations {
        probe = probe.observe(observation);
    }
    probe
}

#[test]
fn requests_are_answered_under_their_own_number() {
    let mut client = client();
    assert_eq!(client.socket_path, daemon_socket_path("/library"));
    let exchange = client.call(RequestKind::Health);
    let id = exchange.request.request_id;
    assert_eq!(exchange.request.protocol_version, PROTOCOL_VERSION);
    assert_eq!(exchange.read_timeout_seconds(), CLIENT_IO_TIMEOUT_SECONDS);
    let frame = exchange.frame().expect("frame");
    assert_eq!(
        decode_request(&frame[4..]).expect("request"),
        exchange.request
    );

    let next = client.call(RequestKind::Mutate(Mutation::Compact));
    assert!(next.request.request_id != id);
    assert_eq!(
        next.read_timeout_seconds(),
        LONG_OPERATION_TIMEOUT_SECONDS
    );

    let ExchangeStep::Done(result) =
        client.answered(exchange, reply(PROTOCOL_VERSION, id, health()))
    else {
        panic!("an answered request was repeated");
    };
    assert_eq!(Client::health(result).expect("health").process_id, 1);

    let foreign = Exchange {
        request: Request {
            protocol_version: PROTOCOL_VERSION,
            request_id: 40,
            kind: RequestKind::Health,
        },
        compatible: false,
    };
    assert!(matches!(
        foreign.meaning(reply(PROTOCOL_VERSION, 41, health())),
        Err(DaemonError::Protocol(_))
    ));
    assert!(matches!(
        foreign.meaning(reply(MIN_PROTOCOL_VERSION, 40, health())),
        Err(DaemonError::Protocol(_))
    ));
}

#[test]
fn an_older_daemon_is_asked_again_in_its_version() {
    let mut client = client();
    let exchange = client.call_compatible(RequestKind::Health);
    let id = exchange.request.request_id;
    let refusal = ResponseKind::Error(ResponseError {
        code: ErrorCode::UnsupportedVersion,
        message: "only version 1".to_owned(),
    });
    let ExchangeStep::Again(second) =
        client.answered(exchange, reply(MIN_PROTOCOL_VERSION, id, refusal))
    else {
        panic!("the request was not repeated");
    };
    assert_eq!(second.request.protocol_version, MIN_PROTOCOL_VERSION);
    assert!(second.request.request_id != id);
    let id = second.request.request_id;
    let ExchangeStep::Done(result) =
        client.answered(second, reply(MIN_PROTOCOL_VERSION, id, health()))
    else {
        panic!("the request was repeated twice");
    };
    assert!(Client::health(result).is_ok());
}

#[test]
fn results_of_another_kind_are_refused() {
    assert!(matches!(
        Client::status(Ok(health())),
        Err(DaemonError::Protocol(_))
    ));
    assert!(matches!(
        Client::forward_mutation(Ok(ResponseKind::Error(ResponseError {
            code: ErrorCode::OperationFailed,
            message: "no".to_owned(),
        }))),
        Err(DaemonError::Remote(_))
    ));
    assert!(Client::shutdown(Ok(ResponseKind::ShutdownAccepted)).is_ok());
    assert!(Client::shutdown(Ok(health())).is_err());
    assert!(Client::administer_source(Ok(health())).is_err());
    assert!(Client::collection_admin_call(Ok(health())).is_err());
    assert!(Client::bootstrap_collection_from_current_dump(Ok(health()), Ok(())).is_err());
}

#[test]
fn a_missing_listener_means_that_no_daemon_runs() {
    assert_eq!(
        Client::is_running(Err(DaemonError::Io(failure(IoFailureKind::NotFound)))),
        Ok(false)
    );
    assert_eq!(
        Client::is_running(Err(DaemonError::Io(failure(
            IoFailureKind::ConnectionRefused
        )))),
        Ok(false)
    );
    assert!(Client::is_running(Err(DaemonError::Io(failure(IoFailureKind::Other)))).is_err());
    assert_eq!(
        Client::is_running(Client::health(Ok(health()))),
        Ok(true)
    );
}

#[test]
fn writer_access_selects_direct_or_daemon_without_opening_two_writers() {
    assert_eq!(AccessStep::discover(Ok(false)), AccessStep::AcquireLease);
    assert_eq!(AccessStep::with_lease(Ok(())), AccessStep::Direct);

    assert_eq!(AccessStep::discover(Ok(false)), AccessStep::AcquireLease);
    assert_eq!(
        AccessStep::with_lease(Err(DaemonError::WriterBusy)),
        AccessStep::Recheck
    );
    assert!(matches!(
        AccessStep::rechecked(Ok(false)),
        AccessStep::Fail(DaemonError::WriterBusy)
    ));
    assert_eq!(AccessStep::rechecked(Ok(true)), AccessStep::Daemon);

    assert_eq!(AccessStep::discover(Ok(true)), AccessStep::Daemon);
}

#[test]
fn socket_paths_stand_in_the_library() {
    assert_eq!(daemon_socket_path("/library"), "/library/.wikisyncd.sock");
    assert_eq!(
        writer_socket_path("/library"),
        "/library/.wikisync-writer.sock"
    );
    assert_eq!(ipc_lock_path("/library"), "/library/.wikisync-ipc.lock");
    assert_eq!(
        canonical_library_root("x", RootProbe::Directory(Ok("/x".to_owned()))).expect("root"),
        "/x"
    );
    assert!(matches!(
        canonical_library_root("x", RootProbe::NotDirectory),
        Err(DaemonError::InvalidLibrary(_))
    ));
    assert!(canonical_library_root(
        "x",
        RootProbe::Directory(Err(failure(IoFailureKind::Other)))
    )
    .is_err());
}

#[test]
fn sockets_are_inspected_without_being_touched() {
    assert_eq!(
        inspected(vec![Observation::Entry(Err(failure(
            IoFailureKind::NotFound
        )))]),
        SocketProbe::Done(Ok(SocketInspection::Missing))
    );
    assert_eq!(
        inspected(vec![Observation::Entry(Ok(PathEntry {
            kind: EntryKind::File,
            identity: IDENTITY,
        }))]),
        SocketProbe::Done(Ok(SocketInspection::UnexpectedPath))
    );
    assert_eq!(
        inspected(vec![
            Observation::Entry(Ok(socket(IDENTITY))),
            Observation::Connection(Ok(())),
        ]),
        SocketProbe::Done(Ok(SocketInspection::Active))
    );
    assert_eq!(
        inspected(vec![
            Observation::Entry(Ok(socket(IDENTITY))),
            Observation::Connection(Err(failure(IoFailureKind::ConnectionRefused))),
            Observation::Entry(Ok(socket(IDENTITY))),
        ]),
        SocketProbe::Done(Ok(SocketInspection::Stale(IDENTITY)))
    );
    let state = inspect_control_plane(
        Ok(SocketInspection::Active),
        Ok(SocketInspection::Stale(IDENTITY)),
    )
    .expect("state");
    assert_eq!(state.daemon, LocalSocketState::Active);
    assert_eq!(state.writer, LocalSocketState::Stale);
}

#[test]
fn a_socket_that_keeps_changing_is_given_up() {
    let mut probe = SocketProbe::inspect_socket();
    for round in 0..3_u64 {
        let other = SocketIdentity {
            device: 1,
            inode: 100 + round,
        };
        probe = probe.observe(Observation::Entry(Ok(socket(IDENTITY))));
        probe = probe.observe(Observation::Connection(Err(failure(
            IoFailureKind::ConnectionRefused,
        ))));
        probe = probe.observe(Observation::Entry(Ok(socket(other))));
    }
    assert!(
        matches!(probe, SocketProbe::Done(_)),
        "the inspection goes on: {probe:?}"
    );
}

#[test]
fn stale_socket_is_recovered_but_unexpected_paths_are_never_removed() {
    assert_eq!(
        bind_exclusive(
            "/library/.wikisyncd.sock",
            BusyKind::Daemon,
            Ok(SocketInspection::Stale(IDENTITY))
        ),
        BindStep::Recover(IDENTITY)
    );
    assert!(remove_confirmed_stale_socket("/s", IDENTITY, Ok(socket(IDENTITY))).is_ok());
    assert!(matches!(
        remove_confirmed_stale_socket(
            "/s",
            IDENTITY,
            Ok(socket(SocketIdentity {
                device: 1,
                inode: 3
            }))
        ),
        Err(DaemonError::StaleSocket(_))
    ));
    for kind in [EntryKind::File, EntryKind::Other] {
        assert!(matches!(
            remove_confirmed_stale_socket(
                "/s",
                IDENTITY,
                Ok(PathEntry {
                    kind,
                    identity: IDENTITY
                })
            ),
            Err(DaemonError::StaleSocket(_))
        ));
    }
    assert!(matches!(
        bind_exclusive(
            "/s",
            BusyKind::Writer,
            Ok(SocketInspection::UnexpectedPath)
        ),
        BindStep::Refuse(_)
    ));
    assert!(matches!(
        bind_exclusive("/s", BusyKind::Writer, Ok(SocketInspection::Active)),
        BindStep::Refuse(DaemonError::WriterBusy)
    ));
    assert!(matches!(
        bind_exclusive("/s", BusyKind::Daemon, Ok(SocketInspection::Active)),
        BindStep::Refuse(DaemonError::AlreadyRunning)
    ));
    assert_eq!(
        bind_exclusive("/s", BusyKind::Daemon, Ok(SocketInspection::Missing)),
        BindStep::Bind
    );
    assert!(owns_socket(IDENTITY, Ok(socket(IDENTITY))));
    assert!(!owns_socket(
        IDENTITY,
        Err(failure(IoFailureKind::NotFound))
    ));
}

#[test]
fn the_startup_lock_must_be_the_file_at_its_path() {
    assert_eq!(after_lock_creation(Ok(())), LockStep::UseCreated);
    assert_eq!(
        after_lock_creation(Err(failure(IoFailureKind::AlreadyExists))),
        LockStep::OpenExisting
    );
    assert!(matches!(
        after_lock_creation(Err(failure(IoFailureKind::Other))),
        LockStep::Fail(_)
    ));
    assert_eq!(existing_lock(Ok(())), Ok(true));
    assert_eq!(
        existing_lock(Err(failure(IoFailureKind::NotFound))),
        Ok(false)
    );
    let file = PathEntry {
        kind: EntryKind::File,
        identity: IDENTITY,
    };
    assert!(reject_unexpected_lock_path("/l", Ok(file)).is_ok());
    assert!(reject_unexpected_lock_path("/l", Ok(socket(IDENTITY))).is_err());
    assert!(validate_open_lock_file("/l", Ok(file), Ok(IDENTITY)).is_ok());
    assert!(validate_open_lock_file(
        "/l",
        Ok(file),
        Ok(SocketIdentity {
            device: 9,
            inode: 9
        })
    )
    .is_err());
}

fn title(text: &str) -> PageTitle {
    PageTitle::new(text).expect("title")
}

fn large_draft() -> CollectionDraft {
    CollectionDraft {
        wiki_id: WikiId::new(1).expect("wiki"),
        name: "Large preview".to_owned(),
        preview: CollectionSelectionPreview {
            rule: CollectionRule::Category {
                title: title("Category:Systems"),
                recursion_depth: 1,
            },
            members: (1..=1_500_u64)
                .map(|raw_id| ResolvedCollectionMember {
                    page_id: PageId::new(raw_id).expect("page ID"),
                    namespace: 0,
                    title: title(&format!("System article {raw_id:04}")),
                    inclusion_reason: InclusionReason::Category {
                        category: title("Category:Systems"),
                        depth: 1,
                    },
                })
                .collect(),
            missing_titles: Vec::new(),
            predicted_canonical_bytes: None,
            category_batches: 20,
        },
        history_policy: HistoryPolicy::CurrentAndFuture,
        budget: CollectionBudget::unlimited(),
        removal_policy: CollectionRemovalPolicy::StopTrackingRetainHistory,
    }
}

fn estimate() -> CollectionDraftEstimate {
    CollectionDraftEstimate {
        resolved_page_count: 1_500,
        missing_title_count: 0,
        predicted_canonical_bytes: None,
        category_batches: 20,
        fits_budget: true,
    }
}

#[test]
fn a_large_draft_is_delivered_in_bounded_chunks() {
    let mut step = Upload::administer_collection(CollectionAdministration::Add(large_draft()));
    let mut staged: Vec<u8> = Vec::new();
    let mut total = 0;
    let mut chunks = 0;
    let outcome = loop {
        let (request, upload) = match step {
            UploadStep::Call { request, upload } => (request, upload),
            UploadStep::Finished(outcome) => break outcome,
        };
        let answer = match request {
            CollectionAdminRequest::Begin { total_bytes } => {
                total = total_bytes;
                CollectionAdminProtocolOutcome::Begun { token: 77 }
            }
            CollectionAdminRequest::Append {
                token,
                offset,
                bytes,
            } => {
                assert_eq!(token, 77);
                assert_eq!(offset as usize, staged.len());
                assert!(!bytes.is_empty() && bytes.len() <= MAX_COLLECTION_DRAFT_CHUNK_BYTES);
                staged.extend_from_slice(&bytes);
                chunks += 1;
                CollectionAdminProtocolOutcome::Appended {
                    token,
                    received_bytes: staged.len() as u32,
                    total_bytes: total,
                }
            }
            CollectionAdminRequest::Add { token } => {
                assert_eq!(token, 77);
                assert_eq!(staged.len(), total as usize);
                CollectionAdminProtocolOutcome::Completed(CollectionAdministrationOutcome::Added {
                    collection_id: CollectionId::new(5).expect("collection"),
                    estimate: estimate(),
                })
            }
            other => panic!("unexpected request {other:?}"),
        };
        step = upload.replied(Ok(answer));
    };
    assert!(chunks > 1);
    assert_eq!(
        decode_collection_draft(&staged).expect("draft"),
        large_draft()
    );
    assert_eq!(
        outcome.expect("outcome"),
        CollectionAdministrationOutcome::Added {
            collection_id: CollectionId::new(5).expect("collection"),
            estimate: estimate(),
        }
    );
}

#[test]
fn a_failed_upload_is_aborted_and_keeps_its_failure() {
    let UploadStep::Call { upload, .. } =
        Upload::administer_collection(CollectionAdministration::Add(large_draft()))
    else {
        panic!("nothing was sent");
    };
    let UploadStep::Call { upload, .. } =
        upload.replied(Ok(CollectionAdminProtocolOutcome::Begun { token: 3 }))
    else {
        panic!("nothing was appended");
    };
    let UploadStep::Call { request, upload } =
        upload.replied(Err(DaemonError::Protocol("lost")))
    else {
        panic!("the staging was not aborted");
    };
    assert_eq!(request, CollectionAdminRequest::Abort { token: 3 });
    assert_eq!(
        upload.replied(Ok(CollectionAdminProtocolOutcome::Aborted { token: 3 })),
        UploadStep::Finished(Err(DaemonError::Protocol("lost")))
    );
}

#[test]
fn a_removal_is_one_call() {
    let collection_id = CollectionId::new(5).expect("collection");
    let UploadStep::Call { request, upload } =
        Upload::administer_collection(CollectionAdministration::Remove { collection_id })
    else {
        panic!("nothing was sent");
    };
    assert_eq!(request, CollectionAdminRequest::Remove { collection_id: 5 });
    assert_eq!(
        upload.replied(Ok(CollectionAdminProtocolOutcome::Completed(
            CollectionAdministrationOutcome::Removed { collection_id }
        ))),
        UploadStep::Finished(Ok(CollectionAdministrationOutcome::Removed {
            collection_id
        }))
    );
}
