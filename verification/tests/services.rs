use std::cell::RefCell;
use std::rc::Rc;

use wikisyncd::administration::{
    administer_collection_direct, finish_removal, CollectionAdministration, CollectionStep,
};
use wikisyncd::application::{ApplicationHandler, Work};
use wikisyncd::client::{Client, Exchange, ExchangeStep};
use wikisyncd::codec::{decode_response, encode_request};
use wikisyncd::collection::{
    CollectionAdministrationOutcome, CollectionDraft, CollectionDraftEstimate,
};
use wikisyncd::control::OperationControl;
use wikisyncd::control_plane::RootProbe;
use wikisyncd::daemon::{Daemon, RequestHandler};
use wikisyncd::draft_codec::encode_collection_draft;
use wikisyncd::dump_bootstrap::{
    outcome, preview_current_dump_bootstrap, BootstrapConfiguration, BootstrapInputs,
    CurrentDumpBootstrapRequest, DumpBootstrapReport, DumpDigest, DumpImportState,
    TrustedDumpIndex,
};
use wikisyncd::dump_codec::current_dump_bootstrap_mutation;
use wikisyncd::error::{DaemonError, ErrorCode, OperationError, ResponseError};
use wikisyncd::extension::{
    decode_collection_schedule, decode_network_transfer_policy, set_collection_schedule_mutation,
    set_network_transfer_policy_mutation, ScheduleOrder, SET_COLLECTION_SCHEDULE_EXTENSION,
};
use wikisyncd::frame::frame_bytes;
use wikisyncd::model::{
    CollectionBudget, CollectionId, CollectionRemovalPolicy, CollectionRule,
    CollectionSelectionPreview, HistoryPolicy, ImagePolicy, InclusionReason,
    NetworkTransferPolicy, PageId, PageTitle, ResolvedCollectionMember, ScheduleCadence,
    ThumbnailPolicy, TitleSelection, WikiId,
};
use wikisyncd::protocol::{
    CollectionAdminProtocolOutcome, CollectionAdminRequest, HandlerStatus, Mutation,
    MutationOutcome, Request, RequestKind, ResponseKind, MAX_COLLECTION_DRAFT_BYTES,
    MAX_COLLECTION_DRAFT_CHUNK_BYTES,
};
use wikisyncd::purge::{
    collection_purge_mutation, decode_collection_purge_outcome, CollectionPurgeRequest,
    PurgeCleanupProgress, PurgeJournalState,
};
use wikisyncd::purge_session::{PurgeAction, PurgeCleanupStep, PurgeEvent, PurgeSession};
use wikisyncd::source::{
    administer_source_direct, finish_registration, finish_source_removal, SourceAdministration,
    SourceAdministrationOutcome, SourceStep, StoredSource,
};
use wikisyncd::staging::{administered, DraftStaging, StagingStep, DRAFT_LIFETIME_SECONDS};
use wikisyncd::upload::{Upload, UploadStep};
use wikisyncd::user_agent::ConfiguredContact;

/// A collection of the store below.
struct Collection {
    collection_id: CollectionId,
    wiki_id: WikiId,
    name: String,
    generation: u64,
    image_policy: ImagePolicy,
    tombstoned: bool,
}

/// A store in memory.
#[derive(Default)]
struct Store {
    sources: Vec<(WikiId, StoredSource)>,
    registrations: u64,
    collections: Vec<Collection>,
    unfinished_purges: Vec<u64>,
    finished_purges: Vec<u64>,
    schedules: Vec<ScheduleOrder>,
    policy: Option<NetworkTransferPolicy>,
}

impl Store {
    fn register(&mut self, api_endpoint: &str, language_code: &str) -> WikiId {
        for (wiki_id, source) in &self.sources {
            if source.api_endpoint == api_endpoint {
                return *wiki_id;
            }
        }
        self.registrations += 1;
        let wiki_id = WikiId::new(self.registrations).expect("source");
        self.sources.push((
            wiki_id,
            StoredSource {
                api_endpoint: api_endpoint.to_owned(),
                language_code: language_code.to_owned(),
            },
        ));
        wiki_id
    }

    fn remove(&mut self, wiki_id: WikiId) -> Result<(), String> {
        if self.collections.iter().any(|stored| stored.wiki_id == wiki_id) {
            return Err(format!("source {} is still in use", wiki_id.get()));
        }
        self.sources.retain(|(known, _)| *known != wiki_id);
        Ok(())
    }

    fn collection(&mut self, collection_id: CollectionId) -> &mut Collection {
        self.collections
            .iter_mut()
            .find(|stored| stored.collection_id == collection_id)
            .expect("stored collection")
    }

    fn administer(
        &mut self,
        administration: CollectionAdministration,
    ) -> Result<CollectionAdministrationOutcome, OperationError> {
        let mut step = administer_collection_direct(administration);
        loop {
            step = match step {
                CollectionStep::Finished(result) => return result,
                CollectionStep::Create(pending) => {
                    let raw = self.collections.len() as u64 + 1;
                    let collection_id = CollectionId::new(raw).expect("collection");
                    self.collections.push(Collection {
                        collection_id,
                        wiki_id: pending.draft.wiki_id,
                        name: pending.draft.name.clone(),
                        generation: 1,
                        image_policy: pending.image_policy.unwrap_or(ImagePolicy::Off),
                        tombstoned: false,
                    });
                    return pending.finish(Ok(collection_id));
                }
                CollectionStep::ReadConfiguration(pending) => {
                    let wiki_id = self.collection(pending.collection_id).wiki_id;
                    pending.with_source(Ok(Some(wiki_id)))
                }
                CollectionStep::Update(pending) => {
                    let stored = self.collection(pending.collection_id);
                    if stored.generation != pending.expected_generation {
                        return pending.finish(Err(
                            "collection changed while it was being previewed".to_owned(),
                        ));
                    }
                    stored.generation += 1;
                    stored.name = pending.draft.name.clone();
                    if let Some(image_policy) = pending.image_policy {
                        stored.image_policy = image_policy;
                    }
                    return pending.finish(Ok(()));
                }
                CollectionStep::Tombstone { collection_id } => {
                    self.collection(collection_id).tombstoned = true;
                    return finish_removal(collection_id, Ok(()));
                }
            };
        }
    }

    fn administer_source(
        &mut self,
        administration: SourceAdministration,
    ) -> Result<SourceAdministrationOutcome, OperationError> {
        let mut step = administer_source_direct(administration, &ConfiguredContact::Absent);
        loop {
            step = match step {
                SourceStep::Finished(result) => return result,
                SourceStep::CheckEndpoint(pending) => pending.with_policy(Ok(())),
                SourceStep::ReadSources(pending) => pending.with_sources(Ok(self
                    .sources
                    .iter()
                    .map(|(_, source)| source.api_endpoint.clone())
                    .collect())),
                SourceStep::Register(pending) => {
                    let wiki_id = self.register(&pending.api_endpoint, &pending.language_code);
                    pending.registered(Ok(wiki_id))
                }
                SourceStep::ReadBack { wiki_id, existed } => {
                    let stored = self
                        .sources
                        .iter()
                        .find(|(known, _)| *known == wiki_id)
                        .map(|(_, source)| StoredSource {
                            api_endpoint: source.api_endpoint.clone(),
                            language_code: source.language_code.clone(),
                        });
                    return finish_registration(wiki_id, existed, Ok(stored));
                }
                SourceStep::Remove { wiki_id } => {
                    let removed = self.remove(wiki_id);
                    return finish_source_removal(wiki_id, removed);
                }
            };
        }
    }

    fn run_purges(
        &mut self,
        mut session: PurgeSession,
        control: &OperationControl,
    ) -> PurgeAction {
        let mut action = PurgeAction::ReadUnfinished;
        loop {
            let event = match action {
                PurgeAction::ReadUnfinished => {
                    PurgeEvent::Unfinished(self.unfinished_purges.clone())
                }
                PurgeAction::Authorize => {
                    self.unfinished_purges.push(21);
                    PurgeEvent::Authorized { purge_id: 21 }
                }
                PurgeAction::Resume { purge_id } => {
                    self.unfinished_purges.retain(|known| *known != purge_id);
                    self.finished_purges.push(purge_id);
                    PurgeEvent::Resumed {
                        step: PurgeCleanupStep::Completed,
                        progress: progress(purge_id),
                    }
                }
                other => return other,
            };
            action = session.advance(event, control.is_shutdown_requested());
        }
    }
}

fn progress(purge_id: u64) -> PurgeCleanupProgress {
    PurgeCleanupProgress {
        purge_id,
        state: PurgeJournalState::Succeeded,
        manifest_installed: true,
        pending_pack_count: 0,
        replacement_ready_pack_count: 0,
        retired_pack_count: 0,
        pending_file_count: 0,
        unlinking_file_count: 0,
        retired_file_count: 1,
        retired_file_bytes: 512,
        replacement_file_bytes: 0,
        net_reclaimed_file_bytes: 512,
    }
}

/// The application services over the store.
struct Services {
    application: ApplicationHandler,
    staging: DraftStaging,
    store: Rc<RefCell<Store>>,
}

impl Services {
    fn new(store: &Rc<RefCell<Store>>) -> Self {
        Self {
            application: ApplicationHandler::new(
                "/library",
                RootProbe::Directory(Ok("/library".to_owned())),
            )
            .expect("handler"),
            staging: DraftStaging::new(),
            store: Rc::clone(store),
        }
    }
}

impl RequestHandler for Services {
    fn startup(&mut self, control: OperationControl) -> Result<(), OperationError> {
        let session = PurgeSession::recover_unfinished_purges();
        match self.store.borrow_mut().run_purges(session, &control) {
            PurgeAction::Recovered { .. } => Ok(()),
            PurgeAction::Fail(error) => Err(error),
            other => panic!("unexpected recovery end {other:?}"),
        }
    }

    fn status(&self) -> HandlerStatus {
        self.application.status()
    }

    fn mutate(
        &mut self,
        mutation: Mutation,
        control: OperationControl,
    ) -> Result<MutationOutcome, OperationError> {
        match self.application.mutate(mutation)? {
            Work::Purge { payload } => {
                let session = PurgeSession::execute_collection_purge(
                    &payload,
                    control.is_shutdown_requested(),
                )?;
                let end = self.store.borrow_mut().run_purges(session, &control);
                self.application.purged(match end {
                    PurgeAction::Purged(outcome) => Ok(outcome),
                    PurgeAction::Fail(error) => Err(error),
                    other => panic!("unexpected purge end {other:?}"),
                })
            }
            Work::BootstrapDump(pending) => {
                assert_eq!(pending.index.expected_database, "enwiki");
                let request = pending.with_index_policy(Ok(()))?;
                let preview = preview_current_dump_bootstrap(&request, dump_inputs())?;
                self.application.bootstrapped(outcome(preview, dump_report()))
            }
            Work::SetSchedule(order) => {
                self.store.borrow_mut().schedules.push(order);
                self.application.scheduled(order, Ok(()))
            }
            Work::SetNetworkPolicy(policy) => {
                self.store.borrow_mut().policy = Some(policy);
                self.application.network_policy_set(Ok(()))
            }
            Work::SyncAll => self.application.sync_all(Ok(Vec::new())),
            other => panic!("unexpected work {other:?}"),
        }
    }

    fn administer_collection(
        &mut self,
        request: CollectionAdminRequest,
        _control: OperationControl,
    ) -> Result<CollectionAdminProtocolOutcome, OperationError> {
        match self.staging.receive(request) {
            StagingStep::Reply(reply) => reply,
            StagingStep::Administer(administration) => {
                administered(self.store.borrow_mut().administer(administration))
            }
        }
    }

    fn administer_source(
        &mut self,
        administration: SourceAdministration,
        _control: OperationControl,
    ) -> Result<SourceAdministrationOutcome, OperationError> {
        self.store.borrow_mut().administer_source(administration)
    }
}

/// A client whose frames go straight to a daemon.
struct Connected<H: RequestHandler> {
    client: Client,
    daemon: Daemon<H>,
}

fn connect<H: RequestHandler>(handler: H) -> Connected<H> {
    Connected {
        client: Client::for_library("/library", RootProbe::Directory(Ok("/library".to_owned())))
            .expect("client"),
        daemon: Daemon::start(handler).expect("daemon"),
    }
}

impl<H: RequestHandler> Connected<H> {
    fn answer(&mut self, first: Exchange) -> Result<ResponseKind, DaemonError> {
        let mut exchange = first;
        loop {
            let frame = exchange.frame()?;
            let reply = self.daemon.serve_one(Ok(frame[4..].to_vec()), 91, 7);
            let reply = reply.map(|bytes| {
                assert!(frame_bytes(&bytes).is_ok(), "the answer fits a frame");
                bytes
            });
            match self.client.answered(exchange, reply) {
                ExchangeStep::Again(next) => exchange = next,
                ExchangeStep::Done(result) => return result,
            }
        }
    }

    fn forward(&mut self, mutation: Mutation) -> Result<MutationOutcome, DaemonError> {
        let exchange = self.client.call_compatible(RequestKind::Mutate(mutation));
        Client::forward_mutation(self.answer(exchange))
    }

    fn completed_mutations(&mut self) -> u64 {
        let exchange = self.client.call_compatible(RequestKind::Status);
        Client::status(self.answer(exchange))
            .expect("status")
            .completed_mutations
    }

    fn detail(&mut self) -> String {
        let exchange = self.client.call_compatible(RequestKind::Status);
        Client::status(self.answer(exchange)).expect("status").detail
    }

    fn administer_collection(
        &mut self,
        administration: CollectionAdministration,
    ) -> Result<CollectionAdministrationOutcome, DaemonError> {
        let mut step = Upload::administer_collection(administration);
        loop {
            let (request, upload) = match step {
                UploadStep::Call { request, upload } => (request, upload),
                UploadStep::Finished(result) => return result,
            };
            let exchange = self.client.call(RequestKind::CollectionAdmin(request));
            let reply = Client::collection_admin_call(self.answer(exchange));
            step = upload.replied(reply);
        }
    }

    fn administer_source(
        &mut self,
        administration: SourceAdministration,
    ) -> Result<SourceAdministrationOutcome, DaemonError> {
        let exchange = self.client.call(RequestKind::SourceAdmin(administration));
        Client::administer_source(self.answer(exchange))
    }

    fn shutdown(&mut self) {
        let exchange = self.client.call_compatible(RequestKind::Shutdown);
        Client::shutdown(self.answer(exchange)).expect("shutdown");
        assert!(self.daemon.operation_control().is_shutdown_requested());
    }
}

fn collection_draft(wiki_id: WikiId, name: &str) -> CollectionDraft {
    let title = PageTitle::new("Rust").expect("title");
    CollectionDraft {
        wiki_id,
        name: name.to_owned(),
        preview: CollectionSelectionPreview {
            rule: CollectionRule::ExplicitTitles(
                TitleSelection::new(vec![title.clone()]).expect("selection"),
            ),
            members: vec![ResolvedCollectionMember {
                page_id: PageId::new(10).expect("page ID"),
                namespace: 0,
                title: title.clone(),
                inclusion_reason: InclusionReason::ExplicitTitle(title),
            }],
            missing_titles: Vec::new(),
            predicted_canonical_bytes: Some(1_024),
            category_batches: 0,
        },
        history_policy: HistoryPolicy::CurrentAndFuture,
        budget: CollectionBudget::unlimited(),
        removal_policy: CollectionRemovalPolicy::StopTrackingRetainHistory,
    }
}

fn multi_chunk_collection_draft(wiki_id: WikiId) -> CollectionDraft {
    let category = PageTitle::new("Category:Systems").expect("category");
    let members = (1..=1_500_u64)
        .map(|raw_id| ResolvedCollectionMember {
            page_id: PageId::new(raw_id).expect("page ID"),
            namespace: 0,
            title: PageTitle::new(&format!("System article {raw_id:04}")).expect("title"),
            inclusion_reason: InclusionReason::Category {
                category: category.clone(),
                depth: 1,
            },
        })
        .collect();
    CollectionDraft {
        wiki_id,
        name: "Large preview".to_owned(),
        preview: CollectionSelectionPreview {
            rule: CollectionRule::Category {
                title: category,
                recursion_depth: 1,
            },
            members,
            missing_titles: Vec::new(),
            predicted_canonical_bytes: None,
            category_batches: 20,
        },
        history_policy: HistoryPolicy::CurrentAndFuture,
        budget: CollectionBudget::unlimited(),
        removal_policy: CollectionRemovalPolicy::StopTrackingRetainHistory,
    }
}

fn dump_request() -> CurrentDumpBootstrapRequest {
    CurrentDumpBootstrapRequest::new(
        CollectionId::new(7).expect("collection"),
        TrustedDumpIndex {
            url: "https://dumps.wikimedia.org/enwiki/index.json".to_owned(),
            digest: DumpDigest::from_hex(&"01".repeat(32)).expect("digest"),
            expected_database: "enwiki".to_owned(),
        },
    )
    .expect("request")
}

fn dump_inputs() -> BootstrapInputs {
    BootstrapInputs {
        configuration: Ok(Some(BootstrapConfiguration {
            wiki_id: WikiId::new(1).expect("wiki"),
            generation: 4,
            history_policy: HistoryPolicy::CurrentAndFuture,
            budget: CollectionBudget::unlimited(),
        })),
        source: Ok(Some(StoredSource {
            api_endpoint: "https://en.wikipedia.org/w/api.php".to_owned(),
            language_code: "en".to_owned(),
        })),
        member_count: Ok(1),
        network_policy: Ok(NetworkTransferPolicy::default()),
    }
}

fn dump_report() -> DumpBootstrapReport {
    DumpBootstrapReport {
        run_id: 5,
        import_id: 6,
        import_state: DumpImportState::Succeeded,
        resumed: false,
        pages_scanned: 1,
        pages_imported: 1,
        pages_reused: 0,
        pages_absent_from_dump: 0,
        closure_pages_checked: 1,
        closure_differing_heads: 0,
        closure_missing_pages: 0,
        closure_pages_captured_from_api: 0,
        checkpoint_candidate: 1_777_000_000,
    }
}

/// A handler that records what it was asked.
struct Recording {
    mutations: Rc<RefCell<Vec<Mutation>>>,
}

impl RequestHandler for Recording {
    fn status(&self) -> HandlerStatus {
        HandlerStatus {
            state: "idle".to_owned(),
            detail: "recording test handler".to_owned(),
        }
    }

    fn mutate(
        &mut self,
        mutation: Mutation,
        _control: OperationControl,
    ) -> Result<MutationOutcome, OperationError> {
        self.mutations.borrow_mut().push(mutation);
        Ok(MutationOutcome {
            result: "completed".to_owned(),
            payload: Vec::new(),
        })
    }
}

#[test]
fn health_status_mutation_and_graceful_shutdown_use_real_ipc() {
    let mutations = Rc::new(RefCell::new(Vec::new()));
    let mut connected = connect(Recording {
        mutations: Rc::clone(&mutations),
    });
    let exchange = connected.client.call_compatible(RequestKind::Health);
    let health = Client::health(connected.answer(exchange)).expect("health");
    assert_eq!(health.process_id, 91);
    let exchange = connected.client.call_compatible(RequestKind::Status);
    let status = Client::status(connected.answer(exchange)).expect("status");
    assert_eq!(status.state, "idle");
    assert_eq!(status.completed_mutations, 0);
    let outcome = connected
        .forward(Mutation::SyncCollection(7))
        .expect("forward mutation");
    assert_eq!(outcome.result, "completed");
    assert_eq!(
        mutations.borrow().as_slice(),
        &[Mutation::SyncCollection(7)]
    );
    assert_eq!(connected.completed_mutations(), 1);
    connected.shutdown();
}

#[test]
fn running_v2_daemon_answers_a_legacy_v1_health_frame_in_v1() {
    let mut connected = connect(Recording {
        mutations: Rc::new(RefCell::new(Vec::new())),
    });
    let request = Request {
        protocol_version: 1,
        request_id: 91,
        kind: RequestKind::Health,
    };
    let frame = encode_request(&request).expect("encode v1");
    let reply = connected
        .daemon
        .serve_one(Ok(frame), 91, 7)
        .expect("read v1");
    let response = decode_response(&reply).expect("v1");
    assert_eq!(response.protocol_version, 1);
    assert_eq!(response.request_id, 91);
    assert!(matches!(response.kind, ResponseKind::Health(_)));
    connected.shutdown();
}

#[test]
fn collection_administration_forwards_the_same_typed_lifecycle_over_real_ipc() {
    let store = Rc::new(RefCell::new(Store::default()));
    let wiki_id = store
        .borrow_mut()
        .register("https://en.wikipedia.org/w/api.php", "en");
    let mut connected = connect(Services::new(&store));

    let large = multi_chunk_collection_draft(wiki_id);
    assert!(
        encode_collection_draft(&large)
            .expect("encode large preview")
            .len()
            > MAX_COLLECTION_DRAFT_CHUNK_BYTES
    );
    assert!(matches!(
        connected
            .administer_collection(CollectionAdministration::Estimate(large))
            .expect("multi-chunk estimate"),
        CollectionAdministrationOutcome::Estimated(CollectionDraftEstimate {
            resolved_page_count: 1_500,
            ..
        })
    ));

    let estimated = connected
        .administer_collection(CollectionAdministration::Estimate(collection_draft(
            wiki_id, "Systems",
        )))
        .expect("estimate");
    assert!(matches!(
        estimated,
        CollectionAdministrationOutcome::Estimated(CollectionDraftEstimate {
            resolved_page_count: 1,
            fits_budget: true,
            ..
        })
    ));
    assert_eq!(connected.daemon.handler.staging.active, None);
    let thumbnails = ThumbnailPolicy::new(800, 12, 2 * 1024 * 1024).expect("thumbnail policy");
    let added = connected
        .administer_collection(CollectionAdministration::AddWithImagePolicy {
            draft: collection_draft(wiki_id, "Systems"),
            image_policy: ImagePolicy::Thumbnails(thumbnails),
        })
        .expect("add");
    let CollectionAdministrationOutcome::Added { collection_id, .. } = added else {
        panic!("unexpected add outcome");
    };
    let edited = connected
        .administer_collection(CollectionAdministration::EditWithImagePolicy {
            collection_id,
            expected_generation: 1,
            draft: collection_draft(wiki_id, "Programming systems"),
            image_policy: ImagePolicy::Off,
        })
        .expect("edit");
    assert!(matches!(
        edited,
        CollectionAdministrationOutcome::Edited {
            collection_id: edited_id,
            ..
        } if edited_id == collection_id
    ));
    let stale = connected
        .administer_collection(CollectionAdministration::EditWithImagePolicy {
            collection_id,
            expected_generation: 1,
            draft: collection_draft(wiki_id, "Stale replacement"),
            image_policy: ImagePolicy::Thumbnails(thumbnails),
        })
        .expect_err("stale forwarded preview must fail");
    assert!(matches!(
        stale,
        DaemonError::Remote(ResponseError {
            code: ErrorCode::OperationFailed,
            ref message,
        }) if message.contains("changed while it was being previewed")
    ));
    {
        let mut stored = store.borrow_mut();
        let configuration = stored.collection(collection_id);
        assert_eq!(configuration.generation, 2);
        assert_eq!(configuration.name, "Programming systems");
        assert_eq!(configuration.image_policy, ImagePolicy::Off);
    }
    connected
        .administer_collection(CollectionAdministration::Remove { collection_id })
        .expect("remove");
    assert_eq!(connected.completed_mutations(), 3);

    connected.shutdown();
    let mut stored = store.borrow_mut();
    let retained = stored.collection(collection_id);
    assert_eq!(retained.name, "Programming systems");
    assert!(retained.tombstoned);
}

#[test]
fn source_administration_preserves_idempotence_and_safe_removal_over_real_ipc() {
    let store = Rc::new(RefCell::new(Store::default()));
    let used_wiki_id = store
        .borrow_mut()
        .register("https://en.wikipedia.org/w/api.php", "en");
    store
        .borrow_mut()
        .administer(CollectionAdministration::Add(collection_draft(
            used_wiki_id,
            "Retained collection",
        )))
        .expect("collection");

    let mut connected = connect(Services::new(&store));
    let endpoint = "https://example.org/w/api.php";
    let added = connected
        .administer_source(SourceAdministration::Add {
            api_endpoint: endpoint.to_owned(),
            language_code: "example".to_owned(),
        })
        .expect("add source");
    let SourceAdministrationOutcome::Added {
        wiki_id,
        created,
        language_code,
        ..
    } = added
    else {
        panic!("unexpected add outcome");
    };
    assert!(created);
    assert_eq!(language_code, "example");

    assert_eq!(
        connected
            .administer_source(SourceAdministration::Add {
                api_endpoint: endpoint.to_owned(),
                language_code: "replacement".to_owned(),
            })
            .expect("repeat registration"),
        SourceAdministrationOutcome::Added {
            wiki_id,
            api_endpoint: endpoint.to_owned(),
            language_code: "example".to_owned(),
            created: false,
        }
    );
    let removal_error = connected
        .administer_source(SourceAdministration::Remove {
            wiki_id: used_wiki_id,
        })
        .expect_err("in-use source removal must fail");
    assert!(matches!(
        removal_error,
        DaemonError::Remote(ResponseError {
            code: ErrorCode::OperationFailed,
            ref message,
        }) if message.contains("still in use")
    ));
    assert_eq!(
        connected
            .administer_source(SourceAdministration::Remove { wiki_id })
            .expect("remove unused source"),
        SourceAdministrationOutcome::Removed { wiki_id }
    );
    assert_eq!(connected.completed_mutations(), 3);
    connected.shutdown();
    let stored = store.borrow();
    assert!(stored.sources.iter().all(|(known, _)| *known != wiki_id));
    assert!(stored
        .sources
        .iter()
        .any(|(known, _)| *known == used_wiki_id));
    assert_eq!(stored.collections.len(), 1);
}

#[test]
fn daemon_bind_recovers_authorized_purge_before_exposing_its_socket() {
    let store = Rc::new(RefCell::new(Store::default()));
    store.borrow_mut().unfinished_purges.push(11);
    let connected = connect(Services::new(&store));
    assert!(store.borrow().unfinished_purges.is_empty());
    assert_eq!(store.borrow().finished_purges, vec![11]);
    assert_eq!(connected.daemon.completed_mutations, 0);
}

#[test]
fn a_forwarded_purge_reaches_terminal_cleanup() {
    let store = Rc::new(RefCell::new(Store::default()));
    let mut connected = connect(Services::new(&store));
    let mut request = CollectionPurgeRequest {
        collection_id: CollectionId::new(3).expect("collection"),
        collection_name: "Systems".to_owned(),
        preview_fingerprint: "ab".repeat(32),
        payload_only_acknowledged: true,
        external_copies_not_erased_acknowledged: true,
    };
    let mutation = collection_purge_mutation(&request).expect("mutation");
    let receipt = connected.forward(mutation).expect("purge");
    let outcome = decode_collection_purge_outcome(&receipt).expect("receipt");
    assert_eq!(outcome.purge_id, 21);
    assert_eq!(outcome.progress.state, PurgeJournalState::Succeeded);
    assert_eq!(connected.detail(), "completed collection purge 21");

    request.payload_only_acknowledged = false;
    let mutation = collection_purge_mutation(&request).expect("mutation");
    assert!(matches!(
        connected.forward(mutation),
        Err(DaemonError::Remote(ResponseError {
            code: ErrorCode::OperationFailed,
            ..
        }))
    ));
    assert_eq!(connected.completed_mutations(), 1);
    assert_eq!(connected.detail(), "completed collection purge 21");
}

#[test]
fn daemon_extension_forwards_the_typed_request_and_receipt_without_protocol_changes() {
    let store = Rc::new(RefCell::new(Store::default()));
    let mut connected = connect(Services::new(&store));
    let request = dump_request().with_expected_collection_generation(4);
    let mutation = current_dump_bootstrap_mutation(&request).expect("mutation");
    let exchange = connected
        .client
        .call_compatible(RequestKind::Mutate(mutation));
    let answer = connected.answer(exchange);
    let outcome =
        Client::bootstrap_collection_from_current_dump(answer, Ok(())).expect("forwarded dump bootstrap");
    assert_eq!(
        outcome.preview.collection_id,
        CollectionId::new(7).expect("collection")
    );
    assert_eq!(outcome.preview.index_digest, "01".repeat(32));
    assert_eq!(outcome.import_state, DumpImportState::Succeeded);
    assert_eq!(outcome.pages_imported, 1);
    assert_eq!(connected.completed_mutations(), 1);
    assert!(connected
        .detail()
        .contains("authenticated current dump bootstrap"));

    let changed = dump_request().with_expected_collection_generation(5);
    let mutation = current_dump_bootstrap_mutation(&changed).expect("mutation");
    assert!(connected.forward(mutation).is_err());
    assert_eq!(connected.completed_mutations(), 1);
}

#[test]
fn forwarded_settings_are_stored_as_they_were_ordered() {
    let store = Rc::new(RefCell::new(Store::default()));
    let mut connected = connect(Services::new(&store));
    let cadence = ScheduleCadence::interval(7_200).expect("interval");
    let receipt = connected
        .forward(set_collection_schedule_mutation(3, cadence, 300, true))
        .expect("schedule");
    assert_eq!(receipt.result, "collection-schedule-saved");
    assert_eq!(receipt.payload, b"collection=3");
    assert_eq!(
        store.borrow().schedules.as_slice(),
        &[ScheduleOrder {
            collection_id: CollectionId::new(3).expect("collection"),
            cadence,
            jitter_seconds: 300,
            paused: true,
        }]
    );
    let policy = NetworkTransferPolicy::new(3, Some(4_096), true).expect("policy");
    let receipt = connected
        .forward(set_network_transfer_policy_mutation(policy))
        .expect("policy");
    assert_eq!(receipt.result, "network-transfer-policy-saved");
    assert_eq!(store.borrow().policy, Some(policy));
    assert_eq!(connected.detail(), "saved the network transfer policy");

    for payload in [Vec::new(), vec![0; 18], vec![255; 18], vec![1; 19]] {
        let refused = connected.forward(Mutation::Extension {
            name: SET_COLLECTION_SCHEDULE_EXTENSION.to_owned(),
            payload,
        });
        assert!(matches!(
            refused,
            Err(DaemonError::Remote(ResponseError {
                code: ErrorCode::OperationFailed,
                ..
            }))
        ));
    }
    assert_eq!(connected.completed_mutations(), 2);
}

#[test]
fn settings_payloads_are_read_strictly() {
    let daily = ScheduleCadence::daily_utc(3_600).expect("daily");
    let Mutation::Extension { payload, .. } = set_collection_schedule_mutation(9, daily, 0, false)
    else {
        panic!("unexpected mutation");
    };
    let order = decode_collection_schedule(&payload).expect("schedule");
    assert_eq!(order.cadence, daily);
    assert_eq!(order.collection_id.get(), 9);
    assert!(!order.paused);
    let mut odd = payload.clone();
    odd[17] = 2;
    assert!(decode_collection_schedule(&odd).is_err());
    odd = payload.clone();
    odd[8] = 3;
    assert!(decode_collection_schedule(&odd).is_err());
    odd = payload;
    odd[8] = 0;
    let error = decode_collection_schedule(&odd).expect_err("a manual cadence has no value");
    assert_eq!(error.message(), "invalid collection schedule payload");

    let policy = NetworkTransferPolicy::new(4, None, false).expect("policy");
    let Mutation::Extension { payload, .. } = set_network_transfer_policy_mutation(policy) else {
        panic!("unexpected mutation");
    };
    assert_eq!(
        decode_network_transfer_policy(&payload).expect("policy"),
        policy
    );
    let error = decode_network_transfer_policy(&[0; 13]).expect_err("no request may run");
    assert_eq!(error.message(), "invalid network transfer policy payload");
}

#[test]
fn chunks_are_staged_in_order_and_within_bounds() {
    let mut staging = DraftStaging::new();
    let refused = |step: StagingStep| match step {
        StagingStep::Reply(Err(error)) => error.message().to_owned(),
        other => panic!("request was not refused: {other:?}"),
    };
    for total_bytes in [0, MAX_COLLECTION_DRAFT_BYTES as u32 + 1] {
        assert_eq!(
            refused(staging.receive(CollectionAdminRequest::Begin { total_bytes })),
            "collection draft size is outside the staging bounds"
        );
    }
    assert_eq!(
        staging.receive(CollectionAdminRequest::Begin { total_bytes: 4 }),
        StagingStep::Reply(Ok(CollectionAdminProtocolOutcome::Begun { token: 1 }))
    );
    let append = |token, offset, bytes: &[u8]| CollectionAdminRequest::Append {
        token,
        offset,
        bytes: bytes.to_vec(),
    };
    assert_eq!(
        staging.receive(append(1, 0, b"ab")),
        StagingStep::Reply(Ok(CollectionAdminProtocolOutcome::Appended {
            token: 1,
            received_bytes: 2,
            total_bytes: 4,
        }))
    );
    assert_eq!(
        refused(staging.receive(append(2, 2, b"c"))),
        "unknown collection draft token"
    );
    for offset in [0, 3] {
        assert_eq!(
            refused(staging.receive(append(1, offset, b"c"))),
            "collection draft chunk is out of order"
        );
    }
    for bytes in [&b""[..], &b"cde"[..]] {
        assert_eq!(
            refused(staging.receive(append(1, 2, bytes))),
            "collection draft chunk is outside its bounds"
        );
    }
    assert_eq!(
        refused(staging.receive(CollectionAdminRequest::Add { token: 1 })),
        "collection draft is incomplete"
    );
    assert!(matches!(
        staging.receive(append(1, 2, b"cd")),
        StagingStep::Reply(Ok(_))
    ));
    refused(staging.receive(CollectionAdminRequest::Estimate { token: 1 }));
    assert_eq!(
        staging.active.as_ref().expect("staged").received,
        b"abcd".to_vec()
    );

    assert_eq!(
        staging.receive(CollectionAdminRequest::Begin { total_bytes: 1 }),
        StagingStep::Reply(Ok(CollectionAdminProtocolOutcome::Begun { token: 2 }))
    );
    assert_eq!(
        refused(staging.receive(CollectionAdminRequest::Abort { token: 1 })),
        "unknown collection draft token"
    );
    assert_eq!(
        staging.receive(CollectionAdminRequest::Abort { token: 2 }),
        StagingStep::Reply(Ok(CollectionAdminProtocolOutcome::Aborted { token: 2 }))
    );
    assert_eq!(staging.active, None);
    refused(staging.receive(CollectionAdminRequest::Remove { collection_id: 0 }));
    refused(staging.receive(CollectionAdminRequest::Edit {
        token: 2,
        collection_id: 0,
        expected_generation: 1,
    }));
    staging.next_token = u64::MAX;
    assert_eq!(
        refused(staging.receive(CollectionAdminRequest::Begin { total_bytes: 1 })),
        "collection draft tokens are exhausted"
    );
}

#[test]
fn an_abandoned_draft_expires() {
    let mut staging = DraftStaging::new();
    staging.receive(CollectionAdminRequest::Begin { total_bytes: 4 });
    staging.receive(CollectionAdminRequest::Append {
        token: 1,
        offset: 0,
        bytes: b"ab".to_vec(),
    });
    staging.expire(DRAFT_LIFETIME_SECONDS - 1);
    assert_eq!(
        staging.active.as_ref().expect("staged").received,
        b"ab".to_vec()
    );
    staging.expire(DRAFT_LIFETIME_SECONDS);
    assert_eq!(staging.active, None);
    match staging.receive(CollectionAdminRequest::Append {
        token: 1,
        offset: 2,
        bytes: b"cd".to_vec(),
    }) {
        StagingStep::Reply(Err(error)) => {
            assert_eq!(error.message(), "unknown collection draft token");
        }
        other => panic!("an expired draft was continued: {other:?}"),
    }
    assert_eq!(
        staging.receive(CollectionAdminRequest::Begin { total_bytes: 4 }),
        StagingStep::Reply(Ok(CollectionAdminProtocolOutcome::Begun { token: 2 }))
    );
}
