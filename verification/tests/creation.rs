use wikisyncd::administration::{
    administer_collection_direct, CollectionAdministration, CollectionStep,
};
use wikisyncd::anchors::{
    anchor_destination, ensure_regular_file, explicit_artifact_path, must_retain,
    previous_anchor_name, public_key_id, published_summary, require_authenticated,
    require_bounded, require_private_key, retain_previous_anchor, AnchorStep, ArtifactKind,
    ArtifactProbe, RetainStep,
};
use wikisyncd::collection::{CollectionAdministrationOutcome, CollectionDraftEstimate};
use wikisyncd::creation::{
    begin_creation, collection_add_error, create_collection_and_sync, CreateCollectionRequest,
    CreationEvent, CreationPhase, CreationStep, Route,
};
use wikisyncd::error::{IoFailure, IoFailureKind};
use wikisyncd::forms::ScheduleSettings;
use wikisyncd::model::{
    CollectionBudget, CollectionId, CollectionRemovalPolicy, CollectionRule,
    CollectionSelectionPreview, HistoryPolicy, ImagePolicy, InclusionReason,
    NetworkTransferPolicy, PageId, PageTitle, ResolvedCollectionMember, ScheduleCadence,
    TitleSelection, WikiId,
};
use wikisyncd::network::MeteredNetworkState;
use wikisyncd::source::SourceAdministrationOutcome;
use wikisyncd::stored::StoredWiki;
use wikisyncd::tasks::{
    client_limits, collection_edit_error, collection_generation, edit_collection,
    edited_schedule_error, enforce_metered_policy, ensure_edited_outcome, ensure_removed_outcome,
    first_run, may_load, probe_library, unix_time_seconds, update_target, EditCollectionRequest,
};

const ENDPOINT: &str = "https://en.wikipedia.org/w/api.php";

fn title(text: &str) -> PageTitle {
    PageTitle::new(text).expect("title")
}

fn preview(text: &str, page_id: u64) -> CollectionSelectionPreview {
    CollectionSelectionPreview {
        rule: CollectionRule::ExplicitTitles(
            TitleSelection::new(vec![title(text)]).expect("selection"),
        ),
        members: vec![ResolvedCollectionMember {
            page_id: PageId::new(page_id).expect("page ID"),
            namespace: 0,
            title: title(text),
            inclusion_reason: InclusionReason::ExplicitTitle(title(text)),
        }],
        missing_titles: Vec::new(),
        predicted_canonical_bytes: Some(1_024),
        category_batches: 0,
    }
}

fn manual() -> ScheduleSettings {
    ScheduleSettings {
        cadence: ScheduleCadence::Manual,
        jitter_seconds: 0,
        paused: false,
    }
}

fn request() -> CreateCollectionRequest {
    CreateCollectionRequest {
        library_path: "/library".to_owned(),
        name: "Systems".to_owned(),
        language_code: "en".to_owned(),
        api_endpoint: ENDPOINT.to_owned(),
        preview: preview("Rust", 10),
        history_policy: HistoryPolicy::CurrentAndFuture,
        budget: CollectionBudget::unlimited(),
        removal_policy: CollectionRemovalPolicy::StopTrackingRetainHistory,
        image_policy: ImagePolicy::Off,
        schedule: manual(),
    }
}

fn estimate() -> CollectionDraftEstimate {
    CollectionDraftEstimate {
        resolved_page_count: 1,
        missing_title_count: 0,
        predicted_canonical_bytes: Some(1_024),
        category_batches: 0,
        fits_budget: true,
    }
}

fn wiki() -> StoredWiki {
    StoredWiki {
        wiki_id: WikiId::new(4).expect("wiki"),
        api_endpoint: ENDPOINT.to_owned(),
        language_code: "en".to_owned(),
    }
}

#[test]
fn a_new_collection_is_created_scheduled_and_synchronized() {
    let request = request();
    let CreationStep::DiscoverAccess { next } = begin_creation(&request) else {
        panic!("access was not discovered");
    };
    let CreationStep::CheckEndpoint {
        avoid_metered,
        read_sources,
        next,
    } = create_collection_and_sync(&request, next, CreationEvent::Access(Ok(Route::Direct)))
    else {
        panic!("endpoint was not checked");
    };
    assert!(avoid_metered && !read_sources);
    let CreationStep::AdministerSource { next, .. } = create_collection_and_sync(
        &request,
        next,
        CreationEvent::Endpoint(Ok((ENDPOINT.to_owned(), vec![wiki()]))),
    ) else {
        panic!("source was not administered");
    };
    let wiki_id = WikiId::new(4).expect("wiki");
    let CreationStep::AdministerCollection {
        administration,
        next,
    } = create_collection_and_sync(
        &request,
        next,
        CreationEvent::Source(Ok(SourceAdministrationOutcome::Added {
            wiki_id,
            api_endpoint: ENDPOINT.to_owned(),
            language_code: "en".to_owned(),
            created: false,
        })),
    )
    else {
        panic!("collection was not administered");
    };
    let CollectionAdministration::AddWithImagePolicy {
        draft,
        image_policy,
    } = administration
    else {
        panic!("unexpected administration");
    };
    assert_eq!(draft.wiki_id, wiki_id);
    assert_eq!(draft.name, "Systems");
    assert_eq!(draft.preview, request.preview);
    assert_eq!(image_policy, ImagePolicy::Off);
    let collection_id = CollectionId::new(9).expect("collection");
    let CreationStep::SaveSchedule { next, .. } = create_collection_and_sync(
        &request,
        next,
        CreationEvent::Collection(Ok(CollectionAdministrationOutcome::Added {
            collection_id,
            estimate: estimate(),
        })),
    ) else {
        panic!("schedule was not saved");
    };
    let CreationStep::Synchronize { next, .. } =
        create_collection_and_sync(&request, next, CreationEvent::Schedule(Ok(())))
    else {
        panic!("collection was not synchronized");
    };
    assert_eq!(
        create_collection_and_sync(&request, next, CreationEvent::Synchronization(Ok(()))),
        CreationStep::ReadSnapshot
    );
}

#[test]
fn a_daemon_reuses_a_known_source() {
    let request = request();
    let step = create_collection_and_sync(
        &request,
        CreationPhase::Endpoint {
            route: Route::Daemon,
        },
        CreationEvent::Endpoint(Ok((ENDPOINT.to_owned(), vec![wiki()]))),
    );
    assert!(
        matches!(step, CreationStep::AdministerCollection { .. }),
        "a known source was registered again: {step:?}"
    );
}

#[test]
fn direct_create_reports_registered_source_when_collection_commit_fails() {
    let wiki_id = WikiId::new(4).expect("wiki");
    let mut request = request();
    request.name = "Over budget".to_owned();
    request.api_endpoint = "https://example.invalid/w/api.php".to_owned();
    request.budget = CollectionBudget::unlimited()
        .with_maximum_bytes(1)
        .expect("byte budget");
    let CreationStep::AdministerCollection {
        administration,
        next,
    } = create_collection_and_sync(
        &request,
        CreationPhase::Source {
            route: Route::Direct,
        },
        CreationEvent::Source(Ok(SourceAdministrationOutcome::Added {
            wiki_id,
            api_endpoint: request.api_endpoint.clone(),
            language_code: "en".to_owned(),
            created: true,
        })),
    )
    else {
        panic!("collection was not administered");
    };
    let CollectionStep::Finished(Err(error)) = administer_collection_direct(administration) else {
        panic!("collection must exceed budget");
    };
    let step = create_collection_and_sync(
        &request,
        next,
        CreationEvent::Collection(Err(error.message().to_owned())),
    );
    let CreationStep::Fail(message) = step else {
        panic!("a failed commit went on");
    };
    assert_eq!(message, collection_add_error(error.message(), Some(wiki_id)));
    assert!(message.contains("hard budget"));
    assert!(message.contains('4'));
    assert!(message.contains("was registered successfully"));
    assert!(message.contains("remains configured and can be reused"));
    assert_eq!(collection_add_error("name is taken", None), "name is taken");
}

#[test]
fn daemon_create_reports_registered_source_when_collection_commit_fails() {
    let wiki_id = WikiId::new(4).expect("wiki");
    let step = create_collection_and_sync(
        &request(),
        CreationPhase::Collection {
            route: Route::Daemon,
            wiki_id,
            source_created: true,
        },
        CreationEvent::Collection(Err(
            "collection preview exceeds its configured hard budget".to_owned()
        )),
    );
    let CreationStep::Fail(message) = step else {
        panic!("a failed commit went on");
    };
    assert!(message.contains("hard budget"));
    assert!(message.contains("was registered successfully"));
    assert!(message.contains("remains configured and can be reused"));
}

#[test]
fn invalid_endpoint_is_rejected_before_collection_mutation() {
    for route in [Route::Direct, Route::Daemon] {
        let step = create_collection_and_sync(
            &request(),
            CreationPhase::Endpoint { route },
            CreationEvent::Endpoint(Err("remote endpoints must use HTTPS".to_owned())),
        );
        assert_eq!(
            step,
            CreationStep::Fail("remote endpoints must use HTTPS".to_owned())
        );
    }
}

#[test]
fn failures_of_a_daemon_tell_what_is_already_durable() {
    let collection_id = CollectionId::new(9).expect("collection");
    let step = create_collection_and_sync(
        &request(),
        CreationPhase::Schedule {
            route: Route::Daemon,
            collection_id,
        },
        CreationEvent::Schedule(Err("locked".to_owned())),
    );
    assert_eq!(
        step,
        CreationStep::Fail(
            "Collection 9 was created, but its schedule could not be saved: locked".to_owned()
        )
    );
    let step = create_collection_and_sync(
        &request(),
        CreationPhase::Synchronization {
            route: Route::Daemon,
            collection_id,
        },
        CreationEvent::Synchronization(Err("offline".to_owned())),
    );
    assert_eq!(
        step,
        CreationStep::Fail(
            "Collection 9 was created and scheduled, but its first synchronization did not complete: offline"
                .to_owned()
        )
    );
    let mut blank = request();
    blank.name.clear();
    assert!(matches!(begin_creation(&blank), CreationStep::Fail(_)));
    assert!(matches!(
        create_collection_and_sync(
            &request(),
            CreationPhase::Access,
            CreationEvent::Schedule(Ok(()))
        ),
        CreationStep::Fail(_)
    ));
}

#[test]
fn edits_are_bound_to_what_was_previewed() {
    let collection_id = CollectionId::new(9).expect("collection");
    let edit = |name: &str| EditCollectionRequest {
        library_path: "/library".to_owned(),
        collection_id,
        expected_generation: 6,
        wiki_id: WikiId::new(4).expect("wiki"),
        name: name.to_owned(),
        preview: preview("Ferris", 20),
        history_policy: HistoryPolicy::Complete,
        budget: CollectionBudget::unlimited(),
        removal_policy: CollectionRemovalPolicy::KeepTracking,
        image_policy: ImagePolicy::Off,
        schedule: manual(),
    };
    let Ok(CollectionAdministration::EditWithImagePolicy {
        expected_generation,
        draft,
        ..
    }) = edit_collection(edit("Renamed"))
    else {
        panic!("unexpected operation");
    };
    assert_eq!(expected_generation, 6);
    assert_eq!(draft.preview, preview("Ferris", 20));
    assert_eq!(
        edit_collection(edit("")).expect_err("name"),
        "Collection name is required."
    );
    let edited = CollectionAdministrationOutcome::Edited {
        collection_id,
        estimate: estimate(),
    };
    assert!(ensure_edited_outcome(edited, collection_id).is_ok());
    assert!(ensure_edited_outcome(edited, CollectionId::new(1).expect("other")).is_err());
    assert!(ensure_removed_outcome(edited, collection_id).is_err());
    assert!(ensure_removed_outcome(
        CollectionAdministrationOutcome::Removed { collection_id },
        collection_id
    )
    .is_ok());
    assert!(
        collection_edit_error("collection 9 changed while it was being previewed")
            .starts_with("The collection changed after this edit was loaded")
    );
    assert_eq!(collection_edit_error("disk full"), "disk full");
    assert_eq!(
        edited_schedule_error(Route::Daemon, collection_id, "locked"),
        "Collection 9 was edited, but its schedule could not be saved: locked"
    );
}

#[test]
fn libraries_are_probed_before_they_are_opened() {
    assert_eq!(probe_library("", Ok(true)), Ok(false));
    assert_eq!(probe_library("/l", Ok(true)), Ok(true));
    assert_eq!(
        probe_library(
            "/l",
            Err(IoFailure {
                kind: IoFailureKind::NotFound,
                message: "missing".to_owned(),
            })
        ),
        Ok(false)
    );
    assert!(probe_library("/l", Ok(false))
        .expect_err("directory")
        .ends_with("exists but is not a regular file"));
    assert!(may_load("/l", true, false).is_ok());
    assert!(may_load("/l", false, true).is_ok());
    assert_eq!(
        may_load("/l", false, false).expect_err("no library"),
        "/l is not an initialized WikiSyncer library"
    );
    assert_eq!(
        may_load("", true, true).expect_err("no path"),
        "Choose a library directory."
    );
}

#[test]
fn network_work_respects_the_policy() {
    let avoiding = NetworkTransferPolicy::new(2, Some(512), true).expect("policy");
    assert!(enforce_metered_policy(avoiding, MeteredNetworkState::Metered).is_err());
    assert!(enforce_metered_policy(avoiding, MeteredNetworkState::Unknown).is_ok());
    assert!(enforce_metered_policy(
        NetworkTransferPolicy::default(),
        MeteredNetworkState::Metered
    )
    .is_ok());
    assert_eq!(client_limits(avoiding), Ok((2, Some(512))));
    assert_eq!(unix_time_seconds(Some(5)), Ok(5));
    assert!(unix_time_seconds(None).is_err());
    let collection_id = CollectionId::new(9).expect("collection");
    assert_eq!(first_run(collection_id, manual(), 100), None);
    let hourly = ScheduleSettings {
        cadence: ScheduleCadence::interval(3_600).expect("interval"),
        jitter_seconds: 0,
        paused: false,
    };
    assert_eq!(first_run(collection_id, hourly, 100), Some(3_600));
    assert!(collection_generation(Ok(None)).is_err());
    let wiki_id = WikiId::new(4).expect("wiki");
    assert_eq!(
        update_target(Ok(Some(wiki_id)), Ok(Some(ENDPOINT.to_owned()))),
        Ok((wiki_id, ENDPOINT.to_owned()))
    );
    assert_eq!(
        update_target(Ok(Some(wiki_id)), Ok(None)),
        Err("Collection source is missing.".to_owned())
    );
    assert_eq!(
        update_target(Ok(None), Ok(None)),
        Err("Collection has no committed configuration.".to_owned())
    );
}

fn probe(parent: &str, entry: Result<ArtifactKind, IoFailureKind>) -> ArtifactProbe {
    ArtifactProbe {
        parent: Ok(parent.to_owned()),
        library: Ok("/home/library".to_owned()),
        entry: entry.map_err(|kind| IoFailure {
            kind,
            message: "failed".to_owned(),
        }),
    }
}

#[test]
fn trust_artifact_paths_must_be_absolute_and_outside_the_library() {
    let missing = || Err(IoFailureKind::NotFound);
    assert!(
        explicit_artifact_path("relative-key.pk8", "Signing key", probe("/home", missing()))
            .is_err()
    );
    assert!(explicit_artifact_path(
        "/home/library/key.pk8",
        "Signing key",
        probe("/home/library", missing())
    )
    .is_err());
    assert_eq!(
        explicit_artifact_path(
            "/home/trust/key.pk8",
            "Signing key",
            probe("/home/trust", missing())
        )
        .unwrap(),
        "/home/trust/key.pk8"
    );

    assert_eq!(
        explicit_artifact_path(
            "/home/library2/key.pk8",
            "Signing key",
            probe("/home/library2", Ok(ArtifactKind::File))
        )
        .unwrap(),
        "/home/library2/key.pk8"
    );
    for kind in [ArtifactKind::Link, ArtifactKind::Other] {
        assert!(explicit_artifact_path(
            "/home/trust/key.pk8",
            "Signing key",
            probe("/home/trust", Ok(kind))
        )
        .is_err());
    }
    assert_eq!(
        explicit_artifact_path("  ", "Signing key", probe("/", missing())).unwrap_err(),
        "Signing key path is required."
    );
    assert_eq!(
        explicit_artifact_path("/home/..", "Signing key", probe("/", missing())).unwrap_err(),
        "Signing key path must name a file."
    );
    assert!(explicit_artifact_path(
        "/home/trust/key.pk8",
        "Signing key",
        probe("/home/trust", Err(IoFailureKind::Other))
    )
    .is_err());
}

#[test]
fn keys_and_anchors_are_kept_apart() {
    assert!(ensure_regular_file("/k", "Signing key", Ok(ArtifactKind::File)).is_ok());
    assert!(ensure_regular_file("/k", "Signing key", Ok(ArtifactKind::Link)).is_err());
    assert!(ensure_regular_file("/k", "Signing key", Err("gone".to_owned())).is_err());
    assert!(require_bounded(10, 10, "Anchor").is_ok());
    assert!(require_bounded(11, 10, "Anchor").is_err());
    assert!(require_private_key("/k", 0o100_600).is_ok());
    assert!(require_private_key("/k", 0o100_640).is_err());
    assert_eq!(public_key_id(&[0x01, 0xab, 0xff]), "01abff");
    let name = previous_anchor_name("head.json", 7, &[0xab; 32]);
    assert!(name.contains("head.json") && name.contains('7'));
    assert!(must_retain(b"old", b"new"));
    assert!(!must_retain(b"same", b"same"));
    assert_eq!(
        anchor_destination(Ok(ArtifactKind::File)),
        AnchorStep::Compare
    );
    assert_eq!(
        anchor_destination(Err(IoFailure {
            kind: IoFailureKind::NotFound,
            message: "missing".to_owned(),
        })),
        AnchorStep::Write
    );
    assert!(matches!(
        anchor_destination(Ok(ArtifactKind::Link)),
        AnchorStep::Refuse(_)
    ));
    assert_eq!(
        retain_previous_anchor("/p", Ok(b"old".to_vec()), b"old"),
        RetainStep::Kept
    );
    assert!(matches!(
        retain_previous_anchor("/p", Ok(b"other".to_vec()), b"old"),
        RetainStep::Refuse(_)
    ));
    assert_eq!(
        retain_previous_anchor(
            "/p",
            Err(IoFailure {
                kind: IoFailureKind::NotFound,
                message: "missing".to_owned(),
            }),
            b"old"
        ),
        RetainStep::Write
    );
    assert!(require_authenticated(true, 0).is_ok());
    assert!(require_authenticated(false, 2).is_err());
    let summary = published_summary(7, "/trust/head.json", &[0xab; 4], Some("/trust/old.json"));
    assert!(summary.contains("/trust/head.json") && summary.contains("/trust/old.json"));
}
