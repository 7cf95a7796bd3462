use wikisyncd::model::CollectionId;
use wikisyncd::protocol::{Mutation, MutationOutcome};
use wikisyncd::purge::{
    collection_purge_mutation, decode_collection_purge_outcome, decode_purge_request,
    encode_purge_request, purge_result, require_acknowledgements, CollectionPurgeOutcome,
    CollectionPurgeRequest, PurgeCleanupProgress, PurgeJournalState, COLLECTION_PURGE_EXTENSION,
    COLLECTION_PURGE_RESULT,
};
use wikisyncd::purge_session::{
    PurgeAction, PurgeCleanupStep, PurgeEvent, PurgeManifest, PurgeSession,
};

fn request() -> CollectionPurgeRequest {
    CollectionPurgeRequest {
        collection_id: CollectionId::new(7).expect("collection ID"),
        collection_name: "Exact collection name".to_owned(),
        preview_fingerprint: "a".repeat(64),
        payload_only_acknowledged: true,
        external_copies_not_erased_acknowledged: true,
    }
}

fn progress(purge_id: u64, state: PurgeJournalState) -> PurgeCleanupProgress {
    PurgeCleanupProgress {
        purge_id,
        state,
        manifest_installed: true,
        pending_pack_count: 0,
        replacement_ready_pack_count: 0,
        retired_pack_count: 2,
        pending_file_count: 0,
        unlinking_file_count: 0,
        retired_file_count: 3,
        retired_file_bytes: 4_096,
        replacement_file_bytes: 1_024,
        net_reclaimed_file_bytes: 3_072,
    }
}

#[test]
fn request_round_trip_preserves_separate_acknowledgements() {
    let request = CollectionPurgeRequest {
        collection_id: CollectionId::new(7).expect("collection ID"),
        collection_name: "Exact collection name".to_owned(),
        preview_fingerprint: "a".repeat(64),
        payload_only_acknowledged: true,
        external_copies_not_erased_acknowledged: false,
    };
    let encoded = encode_purge_request(&request).expect("encode");
    assert_eq!(decode_purge_request(&encoded).expect("decode"), request);
}

#[test]
fn request_decoder_rejects_trailing_or_invalid_flag_bytes() {
    let request = CollectionPurgeRequest {
        collection_id: CollectionId::new(1).expect("collection ID"),
        collection_name: "Name".to_owned(),
        preview_fingerprint: "b".repeat(64),
        payload_only_acknowledged: true,
        external_copies_not_erased_acknowledged: true,
    };
    let mut encoded = encode_purge_request(&request).expect("encode");
    encoded.push(0);
    assert!(decode_purge_request(&encoded).is_err());
    encoded.pop();
    let last = encoded.len() - 1;
    encoded[last] = 2;
    assert!(decode_purge_request(&encoded).is_err());
}

#[test]
fn exact_acknowledged_mutation_reaches_terminal_cleanup() {
    let payload = encode_purge_request(&request()).expect("encode request");
    let mut session =
        PurgeSession::execute_collection_purge(&payload, false).expect("execute purge");
    assert_eq!(
        session.advance(PurgeEvent::Unfinished(Vec::new()), false),
        PurgeAction::Authorize
    );
    assert_eq!(
        session.advance(PurgeEvent::Authorized { purge_id: 5 }, false),
        PurgeAction::Resume { purge_id: 5 }
    );
    assert_eq!(
        session.advance(
            PurgeEvent::Resumed {
                step: PurgeCleanupStep::FilesRetired,
                progress: progress(5, PurgeJournalState::Cleaning),
            },
            false
        ),
        PurgeAction::Resume { purge_id: 5 }
    );
    let PurgeAction::Purged(outcome) = session.advance(
        PurgeEvent::Resumed {
            step: PurgeCleanupStep::Completed,
            progress: progress(5, PurgeJournalState::Succeeded),
        },
        false,
    ) else {
        panic!("purge did not end");
    };
    let outcome =
        decode_collection_purge_outcome(&purge_result(&outcome)).expect("decode outcome");
    assert_eq!(outcome.progress.state, PurgeJournalState::Succeeded);
    assert!(outcome.progress.manifest_installed);
}

#[test]
fn recovery_completes_an_authorized_journal_before_new_work() {
    let mut session = PurgeSession::recover_unfinished_purges();
    assert_eq!(
        session.advance(PurgeEvent::Unfinished(vec![11]), false),
        PurgeAction::Resume { purge_id: 11 }
    );
    assert_eq!(
        session.advance(
            PurgeEvent::Resumed {
                step: PurgeCleanupStep::Completed,
                progress: progress(11, PurgeJournalState::Succeeded),
            },
            false
        ),
        PurgeAction::ReadUnfinished
    );
    assert_eq!(
        session.advance(PurgeEvent::Unfinished(Vec::new()), false),
        PurgeAction::Recovered { completed: 1 }
    );
}

#[test]
fn a_repeated_request_answers_its_own_journal() {
    let payload = encode_purge_request(&request()).expect("encode request");
    let mut session =
        PurgeSession::execute_collection_purge(&payload, false).expect("execute purge");
    assert_eq!(
        session.advance(PurgeEvent::Unfinished(vec![8, 9]), false),
        PurgeAction::ReadManifest { purge_id: 8 }
    );
    assert_eq!(
        session.advance(
            PurgeEvent::Manifest(PurgeManifest {
                collection_id: 7,
                collection_name: "Exact collection name".to_owned(),
                preview_fingerprint: "a".repeat(64),
            }),
            false
        ),
        PurgeAction::Resume { purge_id: 8 }
    );
    assert_eq!(
        session.advance(
            PurgeEvent::Resumed {
                step: PurgeCleanupStep::AlreadyComplete,
                progress: progress(8, PurgeJournalState::Succeeded),
            },
            false
        ),
        PurgeAction::ReadManifest { purge_id: 9 }
    );
    assert_eq!(
        session.advance(
            PurgeEvent::Manifest(PurgeManifest {
                collection_id: 6,
                collection_name: "Other".to_owned(),
                preview_fingerprint: "c".repeat(64),
            }),
            false
        ),
        PurgeAction::Resume { purge_id: 9 }
    );
    assert_eq!(
        session.advance(
            PurgeEvent::Resumed {
                step: PurgeCleanupStep::Completed,
                progress: progress(9, PurgeJournalState::Succeeded),
            },
            false
        ),
        PurgeAction::ReadUnfinished
    );
    assert_eq!(
        session.advance(PurgeEvent::Unfinished(Vec::new()), false),
        PurgeAction::ReadProgress { purge_id: 8 }
    );
    let done = progress(8, PurgeJournalState::Succeeded);
    assert_eq!(
        session.advance(PurgeEvent::Progress(done), false),
        PurgeAction::Purged(CollectionPurgeOutcome {
            purge_id: 8,
            progress: done,
        })
    );
}

#[test]
fn shutdown_and_mixed_packs_stop_a_purge() {
    let mut session = PurgeSession::recover_unfinished_purges();
    let PurgeAction::Fail(paused) = session.advance(PurgeEvent::Unfinished(vec![4]), true) else {
        panic!("purge was not paused");
    };
    assert_eq!(
        paused.message(),
        "collection purge 4 paused safely for shutdown"
    );

    let mut session = PurgeSession::recover_unfinished_purges();
    session.advance(PurgeEvent::Unfinished(vec![4]), false);
    let PurgeAction::Fail(refused) = session.advance(
        PurgeEvent::Resumed {
            step: PurgeCleanupStep::ReplacementRequired,
            progress: progress(4, PurgeJournalState::Repacking),
        },
        false,
    ) else {
        panic!("purge was not refused");
    };
    assert!(refused.message().contains("mixed-pack replacement"));

    let mut session = PurgeSession::recover_unfinished_purges();
    let PurgeAction::Fail(failed) =
        session.advance(PurgeEvent::Failed("store is locked".to_owned()), false)
    else {
        panic!("failure was not reported");
    };
    assert_eq!(failed.message(), "store is locked");
}

#[test]
fn a_purge_needs_both_acknowledgements() {
    let mut missing = request();
    missing.external_copies_not_erased_acknowledged = false;
    assert!(require_acknowledgements(&missing).is_err());
    let payload = encode_purge_request(&missing).expect("encode");
    assert!(PurgeSession::execute_collection_purge(&payload, false).is_err());
    assert!(require_acknowledgements(&request()).is_ok());
    let payload = encode_purge_request(&request()).expect("encode");
    assert!(PurgeSession::execute_collection_purge(&payload, true).is_err());
}

#[test]
fn receipts_round_trip_and_are_checked() {
    for state in [
        PurgeJournalState::Authorized,
        PurgeJournalState::Repacking,
        PurgeJournalState::Cleaning,
        PurgeJournalState::Succeeded,
        PurgeJournalState::Failed,
    ] {
        let mut progress = progress(3, state);
        progress.net_reclaimed_file_bytes = -9;
        let outcome = CollectionPurgeOutcome {
            purge_id: 3,
            progress,
        };
        let result = purge_result(&outcome);
        assert_eq!(result.result, COLLECTION_PURGE_RESULT);
        assert_eq!(
            decode_collection_purge_outcome(&result).expect("decode"),
            outcome
        );
        let mut trailing = result.payload.clone();
        trailing.push(1);
        assert!(decode_collection_purge_outcome(&MutationOutcome {
            result: COLLECTION_PURGE_RESULT.to_owned(),
            payload: trailing,
        })
        .is_err());
        assert!(decode_collection_purge_outcome(&MutationOutcome {
            result: "other".to_owned(),
            payload: result.payload,
        })
        .is_err());
    }
    match collection_purge_mutation(&request()).expect("mutation") {
        Mutation::Extension { name, payload } => {
            assert_eq!(name, COLLECTION_PURGE_EXTENSION);
            assert_eq!(decode_purge_request(&payload).expect("decode"), request());
        }
        _ => panic!("unexpected mutation"),
    }
}
