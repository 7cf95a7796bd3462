use wikisyncd::desktop::{App, RequestKey};
use wikisyncd::dump_bootstrap::{
    dump_runtime_failed, inspect_cache_entry, inspect_created_entry, outcome, plan_dump_transfer,
    preview_current_dump_bootstrap, require_no_runtime, require_preview_binding,
    BootstrapConfiguration,
    BootstrapInputs, CacheEntry, CacheStep, CurrentDumpBootstrapRequest, DumpAcquisitionLimits,
    DumpBootstrapReport, DumpDigest, DumpImportState, DumpLimits, TrustedDumpIndex,
    MAX_INDEX_BYTES,
};
use wikisyncd::dump_codec::{
    current_dump_bootstrap_mutation, decode_current_dump_bootstrap_request, dump_request_index,
    encode_dump_request,
};
use wikisyncd::dump_form::{confirmed_bootstrap, DumpBootstrapForm, DumpBootstrapPreview};
use wikisyncd::dump_receipt::{
    decode_current_dump_bootstrap_outcome, dump_receipt_index,
    encode_current_dump_bootstrap_outcome,
};
use wikisyncd::model::{
    CollectionBudget, CollectionId, CollectionRemovalPolicy, CollectionRule, HistoryPolicy,
    ImagePolicy, NetworkTransferPolicy, PageTitle, TitleSelection, WikiId,
};
use wikisyncd::network::{MeteredNetworkProbeOutcome, MeteredNetworkState, MeteredNetworkStatus};
use wikisyncd::source::StoredSource;
use wikisyncd::stored::StoredCollectionConfiguration;

fn trust() -> TrustedDumpIndex {
    TrustedDumpIndex {
        url: "https://dumps.wikimedia.org/enwiki/index.json".to_owned(),
        digest: DumpDigest::from_hex(&"01".repeat(32)).expect("digest"),
        expected_database: "enwiki".to_owned(),
    }
}

fn request() -> CurrentDumpBootstrapRequest {
    CurrentDumpBootstrapRequest::new(CollectionId::new(7).expect("collection"), trust())
        .expect("request")
}

fn budget() -> CollectionBudget {
    CollectionBudget::unlimited()
        .with_maximum_pages(10)
        .expect("page budget")
        .with_maximum_bytes(1_000_000)
        .expect("byte budget")
}

fn inputs(member_count: usize) -> BootstrapInputs {
    BootstrapInputs {
        configuration: Ok(Some(BootstrapConfiguration {
            wiki_id: WikiId::new(1).expect("wiki"),
            generation: 4,
            history_policy: HistoryPolicy::CurrentAndFuture,
            budget: budget(),
        })),
        source: Ok(Some(StoredSource {
            api_endpoint: "https://en.wikipedia.org/w/api.php".to_owned(),
            language_code: "en".to_owned(),
        })),
        member_count: Ok(member_count),
        network_policy: Ok(NetworkTransferPolicy::default()),
    }
}

fn stored_configuration(collection_id: CollectionId) -> StoredCollectionConfiguration {
    StoredCollectionConfiguration {
        collection_id,
        wiki_id: WikiId::new(1).expect("wiki"),
        generation: 4,
        name: "Dump fixture".to_owned(),
        rule: CollectionRule::ExplicitTitles(
            TitleSelection::new(vec![PageTitle::new("Alpha").expect("title")]).expect("selection"),
        ),
        history_policy: HistoryPolicy::CurrentAndFuture,
        budget: budget(),
        removal_policy: CollectionRemovalPolicy::StopTrackingRetainHistory,
        image_policy: ImagePolicy::Off,
    }
}

fn valid_form(collection_id: CollectionId) -> DumpBootstrapForm {
    DumpBootstrapForm {
        collection_id: collection_id.get().to_string(),
        trusted_index_url: "https://dumps.wikimedia.org/enwiki/fixture/index.json".to_owned(),
        trusted_index_digest: "ab".repeat(32),
        expected_database: "enwiki".to_owned(),
        ..DumpBootstrapForm::default()
    }
}

fn preview(form: DumpBootstrapForm, collection_id: CollectionId) -> Result<DumpBootstrapPreview, String> {
    let draft = form.draft(Ok(()))?;
    let request = draft.request()?;
    draft.preview(
        preview_current_dump_bootstrap(&request, inputs(1)),
        Ok(Some(stored_configuration(collection_id))),
    )
}

fn report() -> DumpBootstrapReport {
    DumpBootstrapReport {
        run_id: 5,
        import_id: 6,
        import_state: DumpImportState::Succeeded,
        resumed: true,
        pages_scanned: 100,
        pages_imported: 1,
        pages_reused: 2,
        pages_absent_from_dump: 3,
        closure_pages_checked: 4,
        closure_differing_heads: 5,
        closure_missing_pages: 6,
        closure_pages_captured_from_api: 7,
        checkpoint_candidate: 1_777_000_000,
    }
}

#[test]
fn request_and_receipt_encodings_are_bounded_and_reject_trailing_bytes() {
    let encoded = encode_dump_request(&request()).expect("encode request");
    assert_eq!(
        decode_current_dump_bootstrap_request(&encoded, Ok(())).expect("decode request"),
        request()
    );
    let mut trailing = encoded;
    trailing.push(0);
    assert!(decode_current_dump_bootstrap_request(&trailing, Ok(())).is_err());

    let oversized = request()
        .with_limits(
            DumpAcquisitionLimits {
                max_index_bytes: MAX_INDEX_BYTES + 1,
                ..DumpAcquisitionLimits::default()
            },
            DumpLimits::default(),
        )
        .expect_err("oversized request must fail before IPC or network");
    assert!(oversized.message().contains("outside service bounds"));
}

#[test]
fn preview_binds_trust_source_scope_limits_and_hard_budget() {
    let collection_id = CollectionId::new(1).expect("collection");
    let preview = preview(valid_form(collection_id), collection_id).expect("preview");

    assert_eq!(preview.draft.collection_id, collection_id);
    assert_eq!(preview.draft.expected_database, "enwiki");
    assert_eq!(
        preview.source_endpoint,
        "https://en.wikipedia.org/w/api.php"
    );
    assert_eq!(preview.collection_name, "Dump fixture");
    assert_eq!(preview.resolved_pages, 1);
    assert_eq!(preview.budget.maximum_pages().unwrap().get(), 10);
    assert_eq!(preview.budget.maximum_bytes().unwrap().get(), 1_000_000);
    assert_eq!(preview.cache_directory, "cache/dumps");
    assert_eq!(preview.max_concurrent_requests, 4);
    assert_eq!(preview.max_download_bytes_per_second, None);
    assert!(preview.draft.acquisition_limits.max_total_artifact_bytes > 0);
    assert!(preview.draft.parser_limits.max_decompressed_bytes > 0);
}

#[test]
fn preview_rejects_missing_independent_digest_and_inconsistent_limits() {
    let collection_id = CollectionId::new(1).expect("collection");
    let mut form = valid_form(collection_id);
    form.trusted_index_digest.clear();
    assert!(preview(form, collection_id)
        .unwrap_err()
        .contains("64 hexadecimal"));

    let mut form = valid_form(collection_id);
    form.trusted_index_digest = "cd".repeat(32);
    form.max_total_artifact_bytes = "100".to_owned();
    form.max_artifact_bytes = "101".to_owned();
    assert!(preview(form, collection_id)
        .unwrap_err()
        .contains("cannot exceed"));
}

#[test]
fn confirmed_dump_start_rejects_a_scope_changed_after_preview() {
    let collection_id = CollectionId::new(1).expect("collection");
    let preview = preview(valid_form(collection_id), collection_id).expect("read-only preview");
    let error = confirmed_bootstrap(&preview, Ok(preview.collection_generation + 1))
        .expect_err("stale confirmed preview must fail before acquisition");
    assert!(error.contains("changed after the dump bootstrap preview"));
    let request =
        confirmed_bootstrap(&preview, Ok(preview.collection_generation)).expect("request");
    assert_eq!(request.expected_collection_generation(), Some(4));
    assert!(confirmed_bootstrap(&preview, Err("locked".to_owned())).is_err());
}

#[test]
fn execution_needs_a_preview_bound_generation() {
    assert!(require_preview_binding(&request()).is_err());
    let bound = request().with_expected_collection_generation(4);
    assert!(require_preview_binding(&bound).is_ok());
    let preview = preview_current_dump_bootstrap(&bound, inputs(3)).expect("preview");
    assert_eq!(preview.selected_pages, 3);
    assert_eq!(preview.index_digest, "01".repeat(32));
    let stale = request().with_expected_collection_generation(3);
    assert!(preview_current_dump_bootstrap(&stale, inputs(3)).is_err());
    assert!(preview_current_dump_bootstrap(&bound, inputs(11)).is_err());
    let mut historic = inputs(3);
    historic.configuration = Ok(Some(BootstrapConfiguration {
        wiki_id: WikiId::new(1).expect("wiki"),
        generation: 4,
        history_policy: HistoryPolicy::Complete,
        budget: budget(),
    }));
    assert!(preview_current_dump_bootstrap(&bound, historic).is_err());
    let mut missing = inputs(3);
    missing.source = Ok(None);
    assert!(preview_current_dump_bootstrap(&bound, missing).is_err());
}

#[test]
fn receipts_round_trip() {
    let bound = request().with_expected_collection_generation(4);
    let preview = preview_current_dump_bootstrap(&bound, inputs(3)).expect("preview");
    let done = outcome(preview, report()).expect("outcome");
    assert_eq!(done.checkpoint_committed_through, 1_777_000_000);
    let encoded = encode_current_dump_bootstrap_outcome(&done).expect("encode");
    assert_eq!(
        decode_current_dump_bootstrap_outcome(&encoded, Ok(())).expect("decode"),
        done
    );
    let mut trailing = encoded;
    trailing.push(0);
    assert!(decode_current_dump_bootstrap_outcome(&trailing, Ok(())).is_err());
    assert!(current_dump_bootstrap_mutation(&bound).is_ok());
}

#[test]
fn unfinished_imports_are_no_outcome() {
    let bound = request().with_expected_collection_generation(4);
    let preview = preview_current_dump_bootstrap(&bound, inputs(3)).expect("preview");
    let mut unfinished = report();
    unfinished.import_state = DumpImportState::Running;
    assert!(outcome(preview, unfinished).is_err());
}

#[test]
fn metered_networks_block_the_transfer() {
    let avoiding = NetworkTransferPolicy::new(3, Some(1_000), true).expect("policy");
    let metered = MeteredNetworkStatus {
        state: MeteredNetworkState::Metered,
        outcome: MeteredNetworkProbeOutcome::Reported,
    };
    assert!(plan_dump_transfer(avoiding, metered).is_err());
    let unknown = MeteredNetworkStatus::unknown(MeteredNetworkProbeOutcome::TimedOut);
    let plan = plan_dump_transfer(avoiding, unknown).expect("plan");
    assert_eq!(plan.request_slots, 3);
    assert_eq!(plan.bytes_per_second, Some(1_000));
    assert!(plan_dump_transfer(NetworkTransferPolicy::default(), metered).is_ok());
}

#[test]
fn the_cache_is_a_private_directory() {
    assert_eq!(
        inspect_cache_entry(&CacheEntry::Directory { mode: 0o40_700 }).expect("private"),
        CacheStep::Keep
    );
    assert_eq!(
        inspect_cache_entry(&CacheEntry::Missing).expect("missing"),
        CacheStep::Create
    );
    assert!(inspect_cache_entry(&CacheEntry::Directory { mode: 0o40_750 }).is_err());
    assert!(inspect_cache_entry(&CacheEntry::Other).is_err());
    assert!(inspect_cache_entry(&CacheEntry::Unreadable("denied".to_owned())).is_err());
    assert!(inspect_created_entry(&CacheEntry::Directory { mode: 0o40_755 }).is_ok());
    assert!(inspect_created_entry(&CacheEntry::Other).is_err());
}

#[test]
fn forms_name_the_field_to_correct() {
    let collection_id = CollectionId::new(1).expect("collection");
    let mut form = valid_form(collection_id);
    form.collection_id = "zero".to_owned();
    assert_eq!(
        form.draft(Ok(())).unwrap_err(),
        "Collection ID must be a positive integer."
    );
    let mut form = valid_form(collection_id);
    form.max_pages = " 0 ".to_owned();
    assert_eq!(
        form.draft(Ok(())).unwrap_err(),
        "Maximum scanned pages must be greater than zero."
    );
    let form = valid_form(collection_id);
    assert_eq!(
        form.draft(Err("index must use HTTPS".to_owned()))
            .unwrap_err(),
        "index must use HTTPS"
    );
    assert!(DumpDigest::from_hex("AB").is_err());
    assert_eq!(
        DumpDigest::from_hex(&"AB".repeat(32))
            .expect("digest")
            .to_hex(),
        "ab".repeat(32)
    );
}

#[test]
fn a_bootstrap_waits_on_a_runtime_of_its_own() {
    assert!(require_no_runtime(false).is_ok());
    assert!(require_no_runtime(true)
        .expect_err("inside a runtime")
        .message()
        .contains("cannot run inside a Tokio runtime"));
    assert_eq!(
        dump_runtime_failed("no threads").message(),
        "cannot start dump runtime: no threads"
    );
}

#[test]
fn a_previewed_bootstrap_can_be_started_while_nothing_runs() {
    let collection_id = CollectionId::new(1).expect("collection");
    let (mut app, _) = App::new("/active/library".to_owned());
    app.dump_bootstrap_preview =
        Some(preview(valid_form(collection_id), collection_id).expect("preview"));
    let panel = app.dump_bootstrap_panel();
    let lines = panel.lines.expect("lines");
    assert_eq!(lines.len(), 7);
    assert!(lines[0].starts_with("Source: "));
    assert!(panel.preview_enabled && panel.start_enabled);
    app.active_request = Some(RequestKey {
        id: 3,
        path: "/active/library".to_owned(),
    });
    let panel = app.dump_bootstrap_panel();
    assert!(panel.lines.is_some());
    assert!(!panel.preview_enabled && !panel.start_enabled);
}

#[test]
fn a_refused_index_is_no_request_and_no_receipt() {
    let refusal = || Err("dump index host is not permitted".to_owned());
    let encoded = encode_dump_request(&request()).expect("encode request");
    assert_eq!(dump_request_index(&encoded).expect("index"), trust());
    assert_eq!(
        decode_current_dump_bootstrap_request(&encoded, refusal())
            .expect_err("refused index")
            .message(),
        "dump index host is not permitted"
    );
    // The index is judged before anything behind it is read, and after what stands before it.
    let index_end = encoded.len() - 13 * 8 - 1;
    assert_eq!(
        decode_current_dump_bootstrap_request(&encoded[..index_end], refusal())
            .expect_err("refused index")
            .message(),
        "dump index host is not permitted"
    );
    let cut = decode_current_dump_bootstrap_request(&encoded[..index_end - 1], refusal())
        .expect_err("cut index");
    assert_eq!(cut.message(), "failed to fill whole buffer");
    assert_eq!(
        dump_request_index(&encoded[..index_end - 1])
            .expect_err("cut index")
            .message(),
        "failed to fill whole buffer"
    );

    let bound = request().with_expected_collection_generation(4);
    let preview = preview_current_dump_bootstrap(&bound, inputs(3)).expect("preview");
    let done = outcome(preview, report()).expect("outcome");
    let receipt = encode_current_dump_bootstrap_outcome(&done).expect("encode");
    assert_eq!(dump_receipt_index(&receipt), Some(trust()));
    assert_eq!(dump_receipt_index(&receipt[..9]), None);
    assert!(decode_current_dump_bootstrap_outcome(&receipt, refusal()).is_err());
}
