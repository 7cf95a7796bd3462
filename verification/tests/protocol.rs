use wikisyncd::codec::{
    decode_request, decode_response, encode_request, encode_response, DecodeRequestError,
};
use wikisyncd::collection::{CollectionAdministrationOutcome, CollectionDraftEstimate};
use wikisyncd::error::{DaemonError, ErrorCode, IoFailure, IoFailureKind, ResponseError};
use wikisyncd::extension::{
    set_collection_schedule_mutation, set_network_transfer_policy_mutation,
    SET_COLLECTION_SCHEDULE_EXTENSION, SET_NETWORK_TRANSFER_POLICY_EXTENSION,
};
use wikisyncd::frame::{frame_bytes, frame_length};
use wikisyncd::model::{CollectionId, NetworkTransferPolicy, ScheduleCadence, WikiId};
use wikisyncd::protocol::{
    CollectionAdminProtocolOutcome, CollectionAdminRequest, DaemonStatus, Health, Mutation,
    MutationOutcome, Request, RequestKind, Response, ResponseKind, MAX_FRAME_BYTES,
    MAX_MUTATION_PAYLOAD_BYTES, PROTOCOL_VERSION,
};
use wikisyncd::source::{
    SourceAdministration, SourceAdministrationOutcome, MAX_SOURCE_API_ENDPOINT_BYTES,
    MAX_SOURCE_LANGUAGE_CODE_BYTES,
};

#[test]
fn protocol_round_trips_all_current_request_shapes() {
    let requests = vec![
        RequestKind::Health,
        RequestKind::Status,
        RequestKind::Mutate(Mutation::SyncAll),
        RequestKind::Mutate(Mutation::SyncCollection(42)),
        RequestKind::Mutate(Mutation::Verify { full: true }),
        RequestKind::Mutate(Mutation::Compact),
        RequestKind::Mutate(Mutation::Extension {
            name: "fixture".to_owned(),
            payload: b"bounded bytes".to_vec(),
        }),
        RequestKind::Shutdown,
        RequestKind::CollectionAdmin(CollectionAdminRequest::Begin { total_bytes: 99 }),
        RequestKind::CollectionAdmin(CollectionAdminRequest::Append {
            token: 7,
            offset: 48,
            bytes: b"chunk".to_vec(),
        }),
        RequestKind::CollectionAdmin(CollectionAdminRequest::Estimate { token: 7 }),
        RequestKind::CollectionAdmin(CollectionAdminRequest::Add { token: 7 }),
        RequestKind::CollectionAdmin(CollectionAdminRequest::Edit {
            token: 7,
            collection_id: 42,
            expected_generation: 9,
        }),
        RequestKind::CollectionAdmin(CollectionAdminRequest::Remove { collection_id: 42 }),
        RequestKind::CollectionAdmin(CollectionAdminRequest::Abort { token: 7 }),
        RequestKind::SourceAdmin(SourceAdministration::Add {
            api_endpoint: "https://en.wikipedia.org/w/api.php".to_owned(),
            language_code: "en".to_owned(),
        }),
        RequestKind::SourceAdmin(SourceAdministration::Remove {
            wiki_id: WikiId::new(3).unwrap(),
        }),
    ];
    for (index, kind) in requests.into_iter().enumerate() {
        let request = Request {
            protocol_version: PROTOCOL_VERSION,
            request_id: index as u64 + 1,
            kind,
        };
        let encoded = encode_request(&request).expect("encode request");
        assert_eq!(decode_request(&encoded).expect("decode request"), request);
    }
}

#[test]
fn protocol_one_requests_remain_compatible_but_cannot_use_v2_administration() {
    for kind in [
        RequestKind::Health,
        RequestKind::Status,
        RequestKind::Mutate(Mutation::SyncCollection(42)),
        RequestKind::Shutdown,
    ] {
        let request = Request {
            protocol_version: 1,
            request_id: 9,
            kind,
        };
        assert_eq!(
            decode_request(&encode_request(&request).expect("encode v1")).expect("decode v1"),
            request
        );
    }
    let v1_admin = Request {
        protocol_version: 1,
        request_id: 10,
        kind: RequestKind::CollectionAdmin(CollectionAdminRequest::Remove { collection_id: 42 }),
    };
    assert!(matches!(
        encode_request(&v1_admin),
        Err(DaemonError::Protocol(_))
    ));
    let v1_source_admin = Request {
        protocol_version: 1,
        request_id: 11,
        kind: RequestKind::SourceAdmin(SourceAdministration::Add {
            api_endpoint: "https://en.wikipedia.org/w/api.php".to_owned(),
            language_code: "en".to_owned(),
        }),
    };
    assert!(matches!(
        encode_request(&v1_source_admin),
        Err(DaemonError::Protocol(_))
    ));
}

#[test]
fn protocol_round_trips_collection_administration_responses() {
    let estimate = CollectionDraftEstimate {
        resolved_page_count: 10_000,
        missing_title_count: 3,
        predicted_canonical_bytes: Some(5_000_000),
        category_batches: 20,
        fits_budget: true,
    };
    let outcomes = vec![
        CollectionAdminProtocolOutcome::Begun { token: 1 },
        CollectionAdminProtocolOutcome::Appended {
            token: 1,
            received_bytes: 48,
            total_bytes: 96,
        },
        CollectionAdminProtocolOutcome::Aborted { token: 1 },
        CollectionAdminProtocolOutcome::Completed(CollectionAdministrationOutcome::Estimated(
            estimate,
        )),
        CollectionAdminProtocolOutcome::Completed(CollectionAdministrationOutcome::Added {
            collection_id: CollectionId::new(2).unwrap(),
            estimate,
        }),
        CollectionAdminProtocolOutcome::Completed(CollectionAdministrationOutcome::Edited {
            collection_id: CollectionId::new(2).unwrap(),
            estimate,
        }),
        CollectionAdminProtocolOutcome::Completed(CollectionAdministrationOutcome::Removed {
            collection_id: CollectionId::new(2).unwrap(),
        }),
    ];
    for (index, outcome) in outcomes.into_iter().enumerate() {
        let response = Response {
            protocol_version: PROTOCOL_VERSION,
            request_id: index as u64 + 1,
            kind: ResponseKind::CollectionAdmin(outcome),
        };
        assert_eq!(
            decode_response(&encode_response(&response).expect("encode response"))
                .expect("decode response"),
            response
        );
    }
}

#[test]
fn protocol_round_trips_source_administration_responses() {
    let wiki_id = WikiId::new(7).unwrap();
    for (index, outcome) in [
        SourceAdministrationOutcome::Added {
            wiki_id,
            api_endpoint: "https://en.wikipedia.org/w/api.php".to_owned(),
            language_code: "en".to_owned(),
            created: true,
        },
        SourceAdministrationOutcome::Added {
            wiki_id,
            api_endpoint: "https://en.wikipedia.org/w/api.php".to_owned(),
            language_code: "en".to_owned(),
            created: false,
        },
        SourceAdministrationOutcome::Removed { wiki_id },
    ]
    .into_iter()
    .enumerate()
    {
        let response = Response {
            protocol_version: PROTOCOL_VERSION,
            request_id: index as u64 + 1,
            kind: ResponseKind::SourceAdmin(outcome),
        };
        assert_eq!(
            decode_response(&encode_response(&response).expect("encode response"))
                .expect("decode response"),
            response
        );
    }
}

#[test]
fn source_administration_codec_enforces_field_bounds() {
    let oversized_endpoint = Request {
        protocol_version: PROTOCOL_VERSION,
        request_id: 1,
        kind: RequestKind::SourceAdmin(SourceAdministration::Add {
            api_endpoint: "x".repeat(MAX_SOURCE_API_ENDPOINT_BYTES + 1),
            language_code: "en".to_owned(),
        }),
    };
    assert!(matches!(
        encode_request(&oversized_endpoint),
        Err(DaemonError::FrameTooLarge { .. })
    ));

    let oversized_language = Request {
        protocol_version: PROTOCOL_VERSION,
        request_id: 2,
        kind: RequestKind::SourceAdmin(SourceAdministration::Add {
            api_endpoint: "https://en.wikipedia.org/w/api.php".to_owned(),
            language_code: "x".repeat(MAX_SOURCE_LANGUAGE_CODE_BYTES + 1),
        }),
    };
    assert!(matches!(
        encode_request(&oversized_language),
        Err(DaemonError::FrameTooLarge { .. })
    ));

    let mut declared_oversized = Vec::new();
    declared_oversized.extend_from_slice(b"WKSR");
    declared_oversized.extend_from_slice(&PROTOCOL_VERSION.to_be_bytes());
    declared_oversized.extend_from_slice(&3_u64.to_be_bytes());
    declared_oversized.push(6);
    declared_oversized.push(1);
    declared_oversized.extend_from_slice(
        &u32::try_from(MAX_SOURCE_API_ENDPOINT_BYTES + 1)
            .unwrap()
            .to_be_bytes(),
    );
    assert!(matches!(
        decode_request(&declared_oversized),
        Err(DecodeRequestError::Invalid {
            request_id: Some(3),
            message: "bounded field is too large",
        })
    ));
}

#[test]
fn oversized_frames_and_mutation_payloads_are_rejected_before_allocation_or_send() {
    let oversized = Mutation::Extension {
        name: "large".to_owned(),
        payload: vec![0; MAX_MUTATION_PAYLOAD_BYTES + 1],
    };
    let request = Request {
        protocol_version: PROTOCOL_VERSION,
        request_id: 1,
        kind: RequestKind::Mutate(oversized),
    };
    assert!(matches!(
        encode_request(&request),
        Err(DaemonError::FrameTooLarge { .. })
    ));

    let declared = u32::try_from(MAX_FRAME_BYTES + 1)
        .expect("frame bound fits u32")
        .to_be_bytes();
    assert!(matches!(
        frame_length(&declared),
        Err(DaemonError::FrameTooLarge { size }) if size == MAX_FRAME_BYTES + 1
    ));
}

#[test]
fn plain_responses_round_trip() {
    let kinds = vec![
        ResponseKind::Health(Health {
            daemon_version: "0.1.0".to_owned(),
            process_id: 12,
            uptime_seconds: 34,
        }),
        ResponseKind::Status(DaemonStatus {
            process_id: 12,
            uptime_seconds: 34,
            completed_mutations: 5,
            state: "idle".to_owned(),
            detail: "détail".to_owned(),
        }),
        ResponseKind::Mutated(MutationOutcome {
            result: "done".to_owned(),
            payload: vec![0, 255, 1],
        }),
        ResponseKind::ShutdownAccepted,
    ];
    for kind in kinds {
        let response = Response {
            protocol_version: 1,
            request_id: 8,
            kind,
        };
        assert_eq!(
            decode_response(&encode_response(&response).expect("encode")).expect("decode"),
            response
        );
    }
    for code in [
        ErrorCode::InvalidRequest,
        ErrorCode::UnsupportedVersion,
        ErrorCode::Unsupported,
        ErrorCode::OperationFailed,
        ErrorCode::Internal,
    ] {
        let response = Response {
            protocol_version: PROTOCOL_VERSION,
            request_id: 8,
            kind: ResponseKind::Error(ResponseError {
                code,
                message: "why".to_owned(),
            }),
        };
        assert_eq!(
            decode_response(&encode_response(&response).expect("encode")).expect("decode"),
            response
        );
    }
}

#[test]
fn malformed_requests_tell_what_is_wrong() {
    let request = Request {
        protocol_version: PROTOCOL_VERSION,
        request_id: 77,
        kind: RequestKind::Health,
    };
    let encoded = encode_request(&request).expect("encode");
    assert_eq!(&encoded[..4], b"WKSR");

    let mut trailing = encoded.clone();
    trailing.push(0);
    assert!(matches!(
        decode_request(&trailing),
        Err(DecodeRequestError::Invalid {
            request_id: Some(77),
            ..
        })
    ));

    let mut wrong_magic = encoded.clone();
    wrong_magic[0] = b'X';
    assert!(matches!(
        decode_request(&wrong_magic),
        Err(DecodeRequestError::Invalid {
            request_id: None,
            ..
        })
    ));

    let mut future = encoded.clone();
    future[5] = 3;
    assert!(matches!(
        decode_request(&future),
        Err(DecodeRequestError::UnsupportedVersion {
            request_id: 77,
            version: 3,
        })
    ));

    let mut not_utf8 = encode_request(&Request {
        protocol_version: PROTOCOL_VERSION,
        request_id: 78,
        kind: RequestKind::Mutate(Mutation::Extension {
            name: "x".to_owned(),
            payload: Vec::new(),
        }),
    })
    .expect("encode");
    let position = not_utf8.iter().rposition(|byte| *byte == b'x').unwrap();
    not_utf8[position] = 0xff;
    assert!(matches!(
        decode_request(&not_utf8),
        Err(DecodeRequestError::Invalid {
            request_id: Some(78),
            ..
        })
    ));
    assert!(decode_request(&[]).is_err());
    assert!(decode_response(&[]).is_err());
}

#[test]
fn frames_carry_their_length() {
    let frame = frame_bytes(b"abc").expect("frame");
    assert_eq!(frame, vec![0, 0, 0, 3, b'a', b'b', b'c']);
    assert_eq!(frame_length(&frame[..4]).expect("length"), 3);
    assert!(matches!(
        frame_bytes(&vec![0; MAX_FRAME_BYTES + 1]),
        Err(DaemonError::FrameTooLarge { size }) if size == MAX_FRAME_BYTES + 1
    ));
    assert!(frame_bytes(&vec![0; MAX_FRAME_BYTES]).is_ok());
}

#[test]
fn every_daemon_failure_has_its_message() {
    let failures = vec![
        DaemonError::Io(IoFailure {
            kind: IoFailureKind::Other,
            message: "disk".to_owned(),
        }),
        DaemonError::AlreadyRunning,
        DaemonError::WriterBusy,
        DaemonError::InvalidLibrary("no such library".to_owned()),
        DaemonError::StaleSocket("/root/.sock".to_owned()),
        DaemonError::FrameTooLarge { size: 70_000 },
        DaemonError::Protocol("bad"),
        DaemonError::Startup("late".to_owned()),
        DaemonError::Remote(ResponseError {
            code: ErrorCode::Internal,
            message: "remote".to_owned(),
        }),
    ];
    let mut messages: Vec<String> = failures.iter().map(|failure| failure.message()).collect();
    assert!(messages[5].contains("70000"));
    assert!(messages[0].contains("disk"));
    assert!(messages[8].contains("remote"));
    messages.sort();
    messages.dedup();
    assert_eq!(messages.len(), 9);
}

#[test]
fn policy_extensions_are_named_and_distinct() {
    let first = set_collection_schedule_mutation(
        7,
        ScheduleCadence::interval(3_600).expect("interval"),
        60,
        false,
    );
    let second = set_collection_schedule_mutation(
        7,
        ScheduleCadence::interval(3_600).expect("interval"),
        60,
        true,
    );
    assert_ne!(first, second);
    match first {
        Mutation::Extension { name, payload } => {
            assert_eq!(name, SET_COLLECTION_SCHEDULE_EXTENSION);
            assert!(!payload.is_empty());
        }
        _ => panic!("unexpected mutation"),
    }
    let policy = NetworkTransferPolicy::new(8, Some(1_048_576), true).expect("policy");
    match set_network_transfer_policy_mutation(policy) {
        Mutation::Extension { name, .. } => {
            assert_eq!(name, SET_NETWORK_TRANSFER_POLICY_EXTENSION);
        }
        _ => panic!("unexpected mutation"),
    }
}

#[test]
fn bytes_behind_a_request_are_refused_under_its_number() {
    for (protocol_version, kind) in [
        (1, RequestKind::Health),
        (2, RequestKind::Mutate(Mutation::SyncCollection(42))),
        (2, RequestKind::CollectionAdmin(CollectionAdminRequest::Abort { token: 7 })),
    ] {
        let mut encoded = encode_request(&Request {
            protocol_version,
            request_id: 31,
            kind,
        })
        .expect("encode request");
        encoded.push(0);
        assert!(matches!(
            decode_request(&encoded),
            Err(DecodeRequestError::Invalid {
                request_id: Some(31),
                ..
            })
        ));
    }
}

#[test]
fn bytes_behind_a_response_are_refused() {
    let mut encoded = encode_response(&Response {
        protocol_version: PROTOCOL_VERSION,
        request_id: 31,
        kind: ResponseKind::ShutdownAccepted,
    })
    .expect("encode response");
    encoded.extend_from_slice(b"xy");
    assert!(matches!(
        decode_response(&encoded),
        Err(DaemonError::Protocol(_))
    ));
}
