use wikisyncd::application::{
    reconciliation_totals, require_configuration, require_source, unix_time, user_agent,
    ApplicationHandler, PackSummary, ReconciliationReport, VerificationReport, Work,
};
use wikisyncd::control_plane::RootProbe;
use wikisyncd::error::{DaemonError, ErrorCode, OperationError};
use wikisyncd::model::{CollectionId, WikiId};
use wikisyncd::protocol::Mutation;
use wikisyncd::user_agent::{
    application_user_agent, ConfiguredContact, PACKAGE_REPOSITORY, PACKAGE_VERSION,
};

fn handler() -> ApplicationHandler {
    ApplicationHandler::new("/library", RootProbe::Directory(Ok("/library".to_owned())))
        .expect("handler")
}

fn report(pages: usize, captured: usize) -> ReconciliationReport {
    ReconciliationReport {
        pages_checked: pages,
        differing_heads: 1,
        missing_pages: 0,
        revision_batches: 2,
        revisions_enumerated: captured + 1,
        revisions_captured: captured,
        revisions_reused: 1,
        resumed: pages > 1,
    }
}

#[test]
fn verification_reports_completion_without_overclaiming_integrity() {
    let mut handler = handler();
    assert_eq!(
        handler.mutate(Mutation::Verify { full: false }),
        Ok(Work::Verify { full: false })
    );
    let outcome = handler
        .verify(
            false,
            Ok(VerificationReport {
                coverage: "complete".to_owned(),
                objects_examined: 0,
                objects_verified: 0,
                canonical_bytes_verified: 0,
                finding_count: 0,
                omitted_findings: 0,
                verified_since_capture: true,
            }),
        )
        .expect("verify empty library");
    assert_eq!(outcome.result, "verification-complete");
    let payload = String::from_utf8(outcome.payload).expect("UTF-8 receipt");
    assert!(payload.contains("scope=quick"));
    assert!(payload.contains("fully_verified=true"));
}

#[test]
fn compaction_returns_a_truthful_pack_receipt() {
    let mut handler = handler();
    assert_eq!(handler.mutate(Mutation::Compact), Ok(Work::Compact));
    let outcome = handler
        .compact(Ok(Some(PackSummary {
            pack_id: "pack".to_owned(),
            generation: 1,
            object_count: 1,
            full_entries: 1,
            delta_entries: 0,
            pack_bytes: 100,
            index_bytes: 20,
        })))
        .expect("compact");
    assert_eq!(outcome.result, "compaction-complete");
    let payload = String::from_utf8(outcome.payload).expect("UTF-8 receipt");
    assert!(payload.contains("packed=true"));
    assert!(payload.contains("objects=1"));
}

#[test]
fn sync_all_with_no_collections_completes_without_networking() {
    let mut handler = handler();
    assert_eq!(handler.mutate(Mutation::SyncAll), Ok(Work::SyncAll));
    let outcome = handler.sync_all(Ok(Vec::new())).expect("sync empty library");
    assert_eq!(outcome.result, "synchronization-complete");
    assert_eq!(outcome.payload, b"collections=0 pages_checked=0 differing_heads=0 missing_pages=0 revision_batches=0 revisions_enumerated=0 revisions_captured=0 revisions_reused=0 resumed_runs=0");
}

#[test]
fn sync_collection_rejects_a_draft_without_contacting_its_source() {
    let handler = handler();
    let collection_id = CollectionId::new(3).expect("draft");
    assert_eq!(
        handler.mutate(Mutation::SyncCollection(3)),
        Ok(Work::SyncCollection(collection_id))
    );
    let error = require_configuration(collection_id, Ok(None))
        .expect_err("unconfigured draft must fail");
    assert!(error.message().contains("no committed configuration"));
}

#[test]
fn extension_operations_remain_explicitly_unsupported() {
    let handler = handler();
    let error = handler
        .mutate(Mutation::Extension {
            name: "schedule-now".to_owned(),
            payload: Vec::new(),
        })
        .expect_err("extension must not fake success");
    assert_eq!(error.code(), ErrorCode::Unsupported);
    assert!(error.message().contains("\"schedule-now\""));
    let odd = handler
        .mutate(Mutation::Extension {
            name: "a\"b\n".to_owned(),
            payload: Vec::new(),
        })
        .expect_err("extension must not fake success");
    assert!(odd.message().contains("\"a\\\"b\\n\""));
}

#[test]
fn totals_add_every_report_in_any_order() {
    let forward = reconciliation_totals(&vec![report(1, 2), report(3, 4)]);
    let backward = reconciliation_totals(&vec![report(3, 4), report(1, 2)]);
    assert_eq!(forward, backward);
    assert_eq!(forward.pages_checked, 4);
    assert_eq!(forward.revisions_captured, 6);
    assert_eq!(forward.resumed_runs, 1);
    assert_eq!(
        reconciliation_totals(&vec![report(usize::MAX, 0), report(2, 0)]).pages_checked,
        usize::MAX
    );

    let mut handler = handler();
    let outcome = handler
        .sync_all(Ok(vec![report(1, 2), report(3, 4)]))
        .expect("sync");
    let payload = String::from_utf8(outcome.payload).expect("UTF-8 receipt");
    assert!(payload.starts_with("collections=2 pages_checked=4 "));
}

#[test]
fn failures_of_the_work_are_returned() {
    let mut handler = handler();
    let collection_id = CollectionId::new(3).expect("collection");
    assert_eq!(
        handler
            .sync_one(collection_id, Err(OperationError::failed("offline")))
            .expect_err("failed sync")
            .message(),
        "offline"
    );
    assert!(handler.sync_one(collection_id, Ok(report(1, 1))).is_ok());
    assert!(handler.compact(Ok(None)).is_ok());
    assert!(handler.mutate(Mutation::SyncCollection(0)).is_err());
    assert!(require_configuration(collection_id, Err("locked".to_owned())).is_err());
    let wiki_id = WikiId::new(2).expect("wiki");
    assert!(require_source(collection_id, wiki_id, Ok(None)).is_err());
    assert_eq!(
        require_source(collection_id, wiki_id, Ok(Some("https://x".to_owned()))),
        Ok("https://x".to_owned())
    );
    assert_eq!(unix_time(Some(7)), Ok(7));
    assert!(unix_time(None).is_err());
    assert!(matches!(
        ApplicationHandler::new("/file", RootProbe::NotDirectory),
        Err(DaemonError::InvalidLibrary(_))
    ));
    assert_eq!(handler.status().state.is_empty(), false);
}

#[test]
fn the_daemon_names_itself_as_the_application_does() {
    assert_eq!(
        user_agent(&ConfiguredContact::Absent).expect("default"),
        format!("WikiSyncer/{} ({})", PACKAGE_VERSION, PACKAGE_REPOSITORY)
    );
    let contact = "mailto:operator@example.invalid";
    assert_eq!(
        user_agent(&ConfiguredContact::Text(contact.to_owned())).expect("configured"),
        format!("WikiSyncer/{} ({contact})", PACKAGE_VERSION)
    );
    for refused in [
        ConfiguredContact::Text("operator(comment)@example.invalid".to_owned()),
        ConfiguredContact::NotUnicode,
    ] {
        let expected = application_user_agent(&refused).expect_err("refused");
        let error = user_agent(&refused).expect_err("refused");
        assert_eq!(error.message(), expected.message());
    }
}
