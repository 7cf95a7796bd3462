use std::path::Path;

use wikisyncd::anchors::ArtifactProbe;
use wikisyncd::desktop::{
    App, FindingKind, FullVerificationReport, Notice, PathStatus, RequestKey, Screen, Tab, Task,
    VerificationFinding, VerificationState,
};
use wikisyncd::desktop_create::{CreateMessage, FormField};
use wikisyncd::desktop_dump::{DumpField, DumpMessage};
use wikisyncd::desktop_edit::EditMessage;
use wikisyncd::desktop_library::{LibraryMessage, Loaded};
use wikisyncd::desktop_policy::{NetworkField, PolicyMessage, ScheduleField};
use wikisyncd::desktop_purge::{PurgeField, PurgeMessage};
use wikisyncd::desktop_trust::TrustMessage;
use wikisyncd::desktop_update::Message;
use wikisyncd::error::{IoFailure, IoFailureKind};
use wikisyncd::forms::{ScheduleMode, SelectionMode};
use wikisyncd::labels::{StorageUsage, SyncCheckpoint};
use wikisyncd::model::{
    CollectionBudget, CollectionId, CollectionRemovalPolicy, CollectionRule,
    CollectionSelectionPreview, HistoryPolicy, ImagePolicy, InclusionReason,
    NetworkTransferPolicy, PageId, PageTitle, ResolvedCollectionMember, ScheduleCadence,
    TitleSelection, WikiId,
};
use wikisyncd::panels::{
    overview_view, verification_report_view, DashboardBody, PrimaryAction,
};
use wikisyncd::paths::same_path;
use wikisyncd::purge::{CollectionPurgeOutcome, PurgeCleanupProgress, PurgeJournalState};
use wikisyncd::purge_dialog::{
    ensure_completed_purge_outcome, CollectionPurgeDialog, PurgePanel, PurgePreview,
};
use wikisyncd::snapshot::{
    snapshot, DashboardSnapshot, DumpImportStatus, RecordedError, SnapshotInputs, StoredRevision,
    SyncRunStatus,
};
use wikisyncd::stored::{
    CollectionSchedule, StoredCollection, StoredCollectionConfiguration, StoredWiki,
};

fn title(text: &str) -> PageTitle {
    PageTitle::new(text).expect("title")
}

fn titles(text: &str) -> Result<TitleSelection, String> {
    Ok(TitleSelection::new(vec![title(text)]).expect("selection"))
}

fn preview(text: &str, page_id: u64) -> CollectionSelectionPreview {
    CollectionSelectionPreview {
        rule: CollectionRule::ExplicitTitles(titles(text).expect("selection")),
        members: vec![ResolvedCollectionMember {
            page_id: PageId::new(page_id).expect("page ID"),
            namespace: 0,
            title: title(text),
            inclusion_reason: InclusionReason::ExplicitTitle(title(text)),
        }],
        missing_titles: Vec::new(),
        predicted_canonical_bytes: Some(1_024),
        category_batches: 0,
    }
}

fn collection_id(raw: u64) -> CollectionId {
    CollectionId::new(raw).expect("collection")
}

fn stored_collection(raw: u64, name: &str, tombstoned_at: Option<u64>) -> StoredCollection {
    StoredCollection {
        collection_id: collection_id(raw),
        wiki_id: WikiId::new(1).expect("wiki"),
        name: name.to_owned(),
        page_count: 1,
        tombstoned_at,
    }
}

fn configuration(raw: u64) -> StoredCollectionConfiguration {
    StoredCollectionConfiguration {
        collection_id: collection_id(raw),
        wiki_id: WikiId::new(1).expect("wiki"),
        generation: 6,
        name: "First".to_owned(),
        rule: CollectionRule::ExplicitTitles(titles("Rust").expect("selection")),
        history_policy: HistoryPolicy::CurrentAndFuture,
        budget: CollectionBudget::unlimited(),
        removal_policy: CollectionRemovalPolicy::StopTrackingRetainHistory,
        image_policy: ImagePolicy::Off,
    }
}

fn inputs() -> SnapshotInputs {
    SnapshotInputs {
        path: "/active/library".to_owned(),
        network_policy: Ok(NetworkTransferPolicy::default()),
        collections: Ok(vec![
            stored_collection(1, "First", None),
            stored_collection(2, "Second", None),
        ]),
        all_collections: Ok(vec![
            stored_collection(1, "First", None),
            stored_collection(2, "Second", None),
            stored_collection(3, "Stopped", Some(1_777_000_000)),
        ]),
        wikis: Ok(vec![StoredWiki {
            wiki_id: WikiId::new(1).expect("wiki"),
            api_endpoint: "https://example.invalid/w/api.php".to_owned(),
            language_code: "en".to_owned(),
        }]),
        configurations: Ok(vec![Some(configuration(1)), None]),
        schedules: Ok(vec![CollectionSchedule {
            collection_id: collection_id(1),
            cadence: ScheduleCadence::interval(5_400).expect("interval"),
            jitter_seconds: 600,
            paused: true,
            next_run_at: None,
            last_started_at: None,
        }]),
        pages: Ok(vec![(1, 10), (1, 10)]),
        runs: Ok(vec![SyncRunStatus {
            run_id: 4,
            kind: "bootstrap".to_owned(),
            state: "running".to_owned(),
            running: true,
            queued_jobs: 1,
            running_jobs: 2,
            succeeded_jobs: 3,
            failed_jobs: 4,
            latest_error: Some(RecordedError {
                code: "http".to_owned(),
                message: "offline".to_owned(),
            }),
        }]),
        dump_imports: Ok(vec![
            None,
            Some(DumpImportStatus {
                import_id: 1,
                collection_id: 1,
                run_id: 4,
                state: "failed".to_owned(),
                pages_scanned: 23,
                imported_pages: 0,
                imported_canonical_bytes: 0,
                attempt_count: 1,
                retryable: true,
                dump_digest: format!("b3:{}", "ab".repeat(32)),
                dump_compressed_bytes: 4_096,
                latest_error: Some(RecordedError {
                    code: "fixture-interruption".to_owned(),
                    message: "restartable fixture failure".to_owned(),
                }),
            }),
        ]),
        checkpoints: Ok(vec![SyncCheckpoint {
            wiki_id: 1,
            collection_id: Some(1),
            committed_through: 20,
            next_window_start: 15,
            overlap_seconds: 5,
        }]),
        revisions: Ok(vec![
            StoredRevision {
                wiki_id: 1,
                page_id: 10,
                revision_id: 20,
                content_object_id: "o1".to_owned(),
                timestamp: "2026-08-21T12:00:00Z".to_owned(),
                source_size: 6,
                title: Ok(Some("Shared page".to_owned())),
            },
            StoredRevision {
                wiki_id: 1,
                page_id: 11,
                revision_id: 21,
                content_object_id: "o1".to_owned(),
                timestamp: "2026-08-21T12:00:01Z".to_owned(),
                source_size: 2_048,
                title: Ok(None),
            },
        ]),
        storage_usage: Ok(StorageUsage {
            bytes: 1_536,
            files: 2,
        }),
        schema_version: Ok(15),
    }
}

fn library() -> DashboardSnapshot {
    snapshot(inputs()).expect("snapshot")
}

fn opened() -> App {
    let (mut app, task) = App::new("/active/library".to_owned());
    assert!(matches!(task, Task::Probe(_)));
    app.update(Message::Library(LibraryMessage::PathProbed {
        key: RequestKey {
            id: 1,
            path: "/active/library".to_owned(),
        },
        result: Ok(true),
    }));
    let Task::Load { key, create } = app.update(Message::Library(LibraryMessage::Open)) else {
        panic!("library was not loaded");
    };
    assert!(!create);
    app.update(Message::Library(LibraryMessage::Loaded(Loaded {
        key,
        result: Ok(library()),
    })));
    assert_eq!(app.screen, Screen::Dashboard);
    app
}

fn notice(app: &App) -> String {
    app.notice.as_ref().expect("notice").notice_view()
}

fn purge_preview_fixture(collection_id: CollectionId, suffix: &str) -> PurgePreview {
    PurgePreview {
        collection_id,
        collection_name: format!("Stopped collection {suffix}"),
        catalog_fingerprint: format!("catalog-{suffix}"),
        fingerprint: format!("b3:{suffix}"),
        object_count: 3,
        wikitext_object_count: 2,
        media_object_count: 1,
        logical_bytes: 1_024,
        reclaimable_bytes: 768,
        loose_object_count: 1,
        affected_pack_count: 2,
        whole_pack_count: 1,
        mixed_pack_count: 1,
    }
}

#[test]
fn purge_confirmation_requires_both_exact_strings_and_two_acknowledgements() {
    let collection_id = CollectionId::new(7).unwrap();
    let preview = purge_preview_fixture(collection_id, "abcdef");
    let mut dialog = CollectionPurgeDialog::new(collection_id);
    dialog.install_preview(purge_preview_fixture(collection_id, "abcdef"));

    dialog.typed_name = preview.collection_name.clone();
    dialog.typed_fingerprint = preview.fingerprint.clone();
    dialog.payload_only_acknowledged = true;
    assert!(!dialog.is_confirmed());
    assert!(dialog.confirmed_request().is_none());

    dialog.external_copies_acknowledged = true;
    assert!(dialog.is_confirmed());
    let request = dialog.confirmed_request().expect("complete confirmation");
    assert_eq!(request.collection_name, preview.collection_name);
    assert_eq!(request.preview_fingerprint, preview.fingerprint);

    dialog.typed_name.push(' ');
    assert!(!dialog.is_confirmed(), "name matching must be exact");
    dialog.typed_name = preview.collection_name;
    dialog.typed_fingerprint.make_ascii_uppercase();
    assert!(!dialog.is_confirmed(), "fingerprint matching must be exact");
}

#[test]
fn installing_changed_purge_preview_clears_every_confirmation() {
    let collection_id = CollectionId::new(8).unwrap();
    let first = purge_preview_fixture(collection_id, "first");
    let mut dialog = CollectionPurgeDialog::new(collection_id);
    dialog.install_preview(purge_preview_fixture(collection_id, "first"));
    dialog.typed_name = first.collection_name;
    dialog.typed_fingerprint = first.fingerprint;
    dialog.payload_only_acknowledged = true;
    dialog.external_copies_acknowledged = true;
    assert!(dialog.is_confirmed());

    dialog.install_preview(purge_preview_fixture(collection_id, "changed"));
    assert_eq!(
        dialog.preview,
        Some(purge_preview_fixture(collection_id, "changed"))
    );
    assert!(dialog.typed_name.is_empty());
    assert!(dialog.typed_fingerprint.is_empty());
    assert!(!dialog.payload_only_acknowledged);
    assert!(!dialog.external_copies_acknowledged);
    assert!(!dialog.is_confirmed());
}

#[test]
fn snapshot_counts_pages_once_across_collections() {
    let snapshot = library();
    assert_eq!(
        snapshot
            .collections
            .iter()
            .map(|item| item.page_count)
            .sum::<u64>(),
        2
    );
    assert_eq!(snapshot.unique_page_count, 1);
}

#[test]
fn sync_snapshot_surfaces_durable_dump_import_progress_and_failure() {
    let snapshot = library();
    assert_eq!(snapshot.dump_imports.len(), 1);
    let status = &snapshot.dump_imports[0];
    assert_eq!(status.collection_id, 1);
    assert_eq!(status.pages_scanned, 23);
    assert_eq!(status.dump_compressed_bytes, 4_096);
    assert!(status.retryable);
    assert_eq!(
        status.latest_error.as_ref().expect("error").code,
        "fixture-interruption"
    );
}

#[test]
fn stale_results_cannot_replace_the_active_library_request() {
    let (mut app, initial_task) = App::new("/suggested/library".to_owned());
    drop(initial_task);
    app.library_path = "/active/library".to_owned();
    let active = RequestKey {
        id: 42,
        path: "/active/library".to_owned(),
    };
    app.active_request = Some(active.clone());

    drop(app.update(Message::Library(LibraryMessage::Loaded(Loaded {
        key: RequestKey {
            id: 41,
            path: active.path.clone(),
        },
        result: Err("stale failure".to_owned()),
    }))));

    assert_eq!(app.active_request, Some(active));
    assert!(app.notice.is_none());
}

#[test]
fn library_path_cannot_change_during_active_work() {
    let (mut app, initial_task) = App::new("/suggested/library".to_owned());
    drop(initial_task);
    app.library_path = "/active/library".to_owned();
    app.active_request = Some(RequestKey {
        id: 7,
        path: "/active/library".to_owned(),
    });

    drop(app.update(Message::Library(LibraryMessage::PathChanged(
        "/different/library".to_owned(),
    ))));

    assert_eq!(app.library_path, "/active/library");
}

#[test]
fn the_first_unreadable_part_of_a_library_is_reported() {
    let mut broken = inputs();
    broken.wikis = Err("wikis".to_owned());
    broken.runs = Err("runs".to_owned());
    assert_eq!(snapshot(broken).expect_err("broken"), "wikis");
    let mut untitled = inputs();
    untitled.revisions = Ok(vec![StoredRevision {
        wiki_id: 1,
        page_id: 10,
        revision_id: 20,
        content_object_id: "o1".to_owned(),
        timestamp: String::new(),
        source_size: 6,
        title: Err("title".to_owned()),
    }]);
    assert_eq!(snapshot(untitled).expect_err("untitled"), "title");
    let mut unsized_library = inputs();
    unsized_library.storage_usage = Err("denied".to_owned());
    let shown = snapshot(unsized_library).expect("snapshot");
    assert_eq!(
        overview_view(&shown).storage_warning,
        Some("Storage scan unavailable: denied".to_owned())
    );
}

#[test]
fn a_new_library_needs_the_acknowledgement_of_privacy() {
    let (mut app, _) = App::new("/new".to_owned());
    app.update(Message::Library(LibraryMessage::PathProbed {
        key: RequestKey {
            id: 1,
            path: "/new".to_owned(),
        },
        result: Ok(false),
    }));
    assert_eq!(app.path_status, PathStatus::NewLibrary);
    assert_eq!(app.setup_view().primary, PrimaryAction::Create);
    assert!(!app.setup_view().primary_enabled);
    assert_eq!(
        app.update(Message::Library(LibraryMessage::Create)),
        Task::Idle
    );
    assert!(notice(&app).starts_with("Problem: Please acknowledge"));
    app.update(Message::Library(LibraryMessage::PrivacyAcknowledged(true)));
    assert!(app.setup_view().primary_enabled);
    assert!(matches!(
        app.update(Message::Library(LibraryMessage::Create)),
        Task::Load { create: true, .. }
    ));
    assert!(app.is_busy());
    assert_eq!(
        app.update(Message::Library(LibraryMessage::Create)),
        Task::Idle
    );
}

#[test]
fn a_collection_is_created_as_it_was_previewed() {
    let mut app = opened();
    assert_eq!(
        app.update(Message::Create(CreateMessage::Create)),
        Task::Idle
    );
    assert!(notice(&app).contains("Preview the collection before creating it."));
    app.update(Message::Create(CreateMessage::FieldChanged(
        FormField::Name("Systems".to_owned()),
    )));
    app.update(Message::Create(CreateMessage::FieldChanged(
        FormField::Selection("Rust".to_owned()),
    )));
    let Task::PreviewCollection { key, request } = app.update(Message::Create(
        CreateMessage::Preview {
            titles: titles("Rust"),
        },
    )) else {
        panic!("nothing was previewed");
    };
    assert_eq!(request.api_endpoint, "https://en.wikipedia.org/w/api.php");
    app.update(Message::Create(CreateMessage::Previewed {
        key,
        result: Ok(preview("Rust", 10)),
    }));
    assert!(notice(&app).contains("1 resolved page(s), 0 missing title(s)"));
    let shown = app.collections_view(&library());
    assert!(shown.creation.create_enabled);
    assert_eq!(
        shown.creation.preview_summary,
        "Ready to commit: 1 pages, 0 missing titles, 1.0 KiB. Hard budgets are enforced before checkpoint advancement."
    );

    app.update(Message::Create(CreateMessage::FieldChanged(
        FormField::SelectionMode(SelectionMode::TitleList),
    )));
    assert!(app.selection_preview.is_none());
    assert!(!app.collections_view(&library()).creation.create_enabled);

    let Task::PreviewCollection { key, .. } = app.update(Message::Create(CreateMessage::Preview {
        titles: titles("Rust"),
    })) else {
        panic!("nothing was previewed");
    };
    app.update(Message::Create(CreateMessage::Previewed {
        key,
        result: Ok(preview("Rust", 10)),
    }));
    let Task::CreateCollection { key, request } =
        app.update(Message::Create(CreateMessage::Create))
    else {
        panic!("nothing was created");
    };
    assert_eq!(request.preview, preview("Rust", 10));
    assert_eq!(request.name, "Systems");
    app.update(Message::Create(CreateMessage::Created(Loaded {
        key,
        result: Ok(library()),
    })));
    assert!(app.collection_form.name.is_empty());
    assert!(notice(&app).starts_with("Done: Collection created"));

    let Task::UpdateCollection { key, .. } =
        app.update(Message::Create(CreateMessage::Update(collection_id(1))))
    else {
        panic!("nothing was updated");
    };
    app.update(Message::Create(CreateMessage::Updated(Loaded {
        key,
        result: Err("offline".to_owned()),
    })));
    assert_eq!(notice(&app), "Problem: offline");
}

#[test]
fn an_edit_is_saved_as_it_was_previewed() {
    let mut app = opened();
    app.update(Message::Edit(EditMessage::Edit(collection_id(2))));
    assert_eq!(
        notice(&app),
        "Problem: Collection configuration is unavailable."
    );
    app.update(Message::Edit(EditMessage::Edit(collection_id(1))));
    let editor = app.collection_editor.as_ref().expect("editor");
    assert_eq!(editor.expected_generation, 6);
    assert_eq!(editor.form.selection, "Rust");
    assert_eq!(editor.form.schedule_value, "90");
    assert_eq!(app.update(Message::Edit(EditMessage::Save)), Task::Idle);
    assert_eq!(
        notice(&app),
        "Problem: Preview the complete edit before saving."
    );
    app.update(Message::Edit(EditMessage::FieldChanged(FormField::Name(
        " Renamed ".to_owned(),
    ))));
    app.update(Message::Edit(EditMessage::FieldChanged(
        FormField::Endpoint("https://other.invalid".to_owned()),
    )));
    let Task::PreviewEdit { key, request } = app.update(Message::Edit(EditMessage::Preview {
        titles: titles("Rust"),
        generation: Ok(8),
    })) else {
        panic!("nothing was previewed");
    };
    assert_eq!(request.api_endpoint, "https://example.invalid/w/api.php");
    app.update(Message::Edit(EditMessage::Previewed {
        key,
        result: Ok(preview("Rust", 10)),
    }));
    let panel = app.collections_view(&library()).editor.expect("editor");
    assert!(panel.save_enabled);
    assert_eq!(panel.title, "Edit collection 1");
    let Task::EditCollection { key, request } = app.update(Message::Edit(EditMessage::Save)) else {
        panic!("nothing was saved");
    };
    assert_eq!(request.name, "Renamed");
    assert_eq!(request.expected_generation, 8);
    assert_eq!(request.preview, preview("Rust", 10));
    app.update(Message::Edit(EditMessage::Saved(Loaded {
        key,
        result: Ok(library()),
    })));
    assert!(app.collection_editor.is_none());

    app.update(Message::Edit(EditMessage::PreviewRemove(collection_id(2))));
    assert_eq!(
        app.collections_view(&library()).removal,
        Some("Stop tracking Second?".to_owned())
    );
    let Task::RemoveCollection {
        key,
        collection_id: removed,
    } = app.update(Message::Edit(EditMessage::ConfirmRemove))
    else {
        panic!("nothing was removed");
    };
    assert_eq!(removed, collection_id(2));
    app.update(Message::Edit(EditMessage::Removed(Loaded {
        key,
        result: Ok(library()),
    })));
    assert!(notice(&app).contains("Tracking stopped."));
    assert!(app.remove_confirmation.is_none());
}

fn purge_outcome(state: PurgeJournalState) -> CollectionPurgeOutcome {
    CollectionPurgeOutcome {
        purge_id: 5,
        progress: PurgeCleanupProgress {
            purge_id: 5,
            state,
            manifest_installed: true,
            pending_pack_count: 0,
            replacement_ready_pack_count: 0,
            retired_pack_count: 1,
            pending_file_count: 0,
            unlinking_file_count: 0,
            retired_file_count: 2,
            retired_file_bytes: 1_536,
            replacement_file_bytes: 0,
            net_reclaimed_file_bytes: 1_536,
        },
    }
}

#[test]
fn a_purge_runs_only_when_it_is_confirmed() {
    let mut app = opened();
    assert_eq!(
        app.update(Message::Purge(PurgeMessage::Confirm)),
        Task::Idle
    );
    assert!(notice(&app).contains("both acknowledgements are required"));
    let Task::PreviewPurge { key, .. } =
        app.update(Message::Purge(PurgeMessage::Open(collection_id(3))))
    else {
        panic!("no purge was previewed");
    };
    assert!(matches!(
        app.collections_view(&library()).purge,
        Some(PurgePanel::Computing { .. })
    ));
    app.update(Message::Purge(PurgeMessage::Previewed {
        key,
        result: Ok(purge_preview_fixture(collection_id(3), "x")),
    }));
    for field in [
        PurgeField::Name("Stopped collection x".to_owned()),
        PurgeField::Fingerprint("b3:x".to_owned()),
        PurgeField::PayloadOnly(true),
    ] {
        app.update(Message::Purge(PurgeMessage::FieldChanged(field)));
    }
    assert_eq!(
        app.update(Message::Purge(PurgeMessage::Confirm)),
        Task::Idle
    );
    app.update(Message::Purge(PurgeMessage::FieldChanged(
        PurgeField::ExternalCopies(true),
    )));
    let Some(PurgePanel::Ready {
        lines,
        confirm_enabled,
    }) = app.collections_view(&library()).purge
    else {
        panic!("no preview is shown");
    };
    assert!(confirm_enabled);
    assert_eq!(lines[3], "Objects: 3 total · 2 wikitext · 1 media");
    let Task::Purge { key, request } = app.update(Message::Purge(PurgeMessage::Confirm)) else {
        panic!("nothing was purged");
    };
    assert_eq!(request.collection_name, "Stopped collection x");
    app.update(Message::Purge(PurgeMessage::Purged {
        key,
        result: Ok((library(), purge_outcome(PurgeJournalState::Succeeded))),
    }));
    assert_eq!(
        notice(&app),
        "Done: Purge 5 completed durably: 2 files / 1.5 KiB retired, 0 B replacement bytes written, 1.5 KiB net bytes reclaimed, and 1 packs retired. Audit metadata and hashes remain."
    );
    assert!(ensure_completed_purge_outcome(&purge_outcome(PurgeJournalState::Succeeded)).is_ok());
    assert_eq!(
        ensure_completed_purge_outcome(&purge_outcome(PurgeJournalState::Cleaning))
            .expect_err("unfinished"),
        "Purge 5 returned without a durable succeeded state (Cleaning)."
    );
}

#[test]
fn a_refreshed_purge_preview_forgets_its_confirmations() {
    let mut app = opened();
    let Task::PreviewPurge { key, .. } =
        app.update(Message::Purge(PurgeMessage::Open(collection_id(3))))
    else {
        panic!("no purge was previewed");
    };
    app.update(Message::Purge(PurgeMessage::Previewed {
        key,
        result: Ok(purge_preview_fixture(collection_id(3), "x")),
    }));
    app.update(Message::Purge(PurgeMessage::FieldChanged(
        PurgeField::PayloadOnly(true),
    )));
    assert!(matches!(
        app.update(Message::Purge(PurgeMessage::Refresh)),
        Task::PreviewPurge { .. }
    ));
    let dialog = app.purge_dialog.as_ref().expect("dialog");
    assert!(!dialog.payload_only_acknowledged);
    assert!(dialog.preview.is_none());
}

#[test]
fn schedules_and_policies_are_saved() {
    let mut app = opened();
    app.update(Message::Policy(PolicyMessage::EditSchedule(collection_id(
        1,
    ))));
    assert_eq!(app.schedule_editor.as_ref().expect("editor").value, "90");
    app.update(Message::Policy(PolicyMessage::ScheduleChanged(
        ScheduleField::Value("x".to_owned()),
    )));
    assert_eq!(
        app.update(Message::Policy(PolicyMessage::SaveSchedule)),
        Task::Idle
    );
    assert!(notice(&app).contains("positive number of minutes"));
    app.update(Message::Policy(PolicyMessage::ScheduleChanged(
        ScheduleField::Mode(ScheduleMode::DailyUtc),
    )));
    app.update(Message::Policy(PolicyMessage::ScheduleChanged(
        ScheduleField::Value("06:45".to_owned()),
    )));
    let Task::SaveSchedule { key, schedule, .. } =
        app.update(Message::Policy(PolicyMessage::SaveSchedule))
    else {
        panic!("nothing was saved");
    };
    assert_eq!(
        schedule.cadence,
        ScheduleCadence::daily_utc(24_300).expect("time")
    );
    app.update(Message::Policy(PolicyMessage::ScheduleSaved(Loaded {
        key,
        result: Ok(library()),
    })));
    assert!(app.schedule_editor.is_none());

    app.update(Message::Policy(PolicyMessage::NetworkChanged(
        NetworkField::Concurrency("0".to_owned()),
    )));
    assert_eq!(
        app.update(Message::Policy(PolicyMessage::SaveNetworkPolicy)),
        Task::Idle
    );
    app.update(Message::Policy(PolicyMessage::NetworkChanged(
        NetworkField::Concurrency("2".to_owned()),
    )));
    app.update(Message::Policy(PolicyMessage::NetworkChanged(
        NetworkField::AvoidMetered(true),
    )));
    let Task::SaveNetworkPolicy { policy, .. } =
        app.update(Message::Policy(PolicyMessage::SaveNetworkPolicy))
    else {
        panic!("nothing was saved");
    };
    assert_eq!(
        policy,
        NetworkTransferPolicy::new(2, None, true).expect("policy")
    );
}

#[test]
fn a_changed_bootstrap_form_drops_its_preview() {
    let mut app = opened();
    assert_eq!(app.update(Message::Dump(DumpMessage::Start)), Task::Idle);
    assert!(notice(&app).contains("Preview the authenticated dump bootstrap"));
    app.update(Message::Dump(DumpMessage::FieldChanged(
        DumpField::Collection("1".to_owned()),
    )));
    let Task::PreviewDump { key, form } = app.update(Message::Dump(DumpMessage::Preview)) else {
        panic!("nothing was previewed");
    };
    assert_eq!(form.collection_id, "1");
    app.update(Message::Dump(DumpMessage::Previewed {
        key,
        result: Err("no digest".to_owned()),
    }));
    assert_eq!(notice(&app), "Problem: no digest");
    let panel = app.dump_bootstrap_panel();
    assert!(panel.lines.is_none());
    assert!(panel.preview_enabled);
    assert!(!panel.start_enabled);
}

fn probe() -> ArtifactProbe {
    ArtifactProbe {
        parent: Ok("/trust".to_owned()),
        library: Ok("/active/library".to_owned()),
        entry: Err(IoFailure {
            kind: IoFailureKind::NotFound,
            message: "missing".to_owned(),
        }),
    }
}

fn report() -> FullVerificationReport {
    FullVerificationReport {
        objects_verified: 3,
        objects_at_start: 4,
        canonical_bytes_verified: 5,
        manifests_identity_verified: 6,
        manifests_at_start: 7,
        metadata_records_examined: 8,
        finding_count: 9,
        omitted_findings: 0,
        findings: (0..9)
            .map(|number| VerificationFinding {
                kind: if number == 8 {
                    FindingKind::TrustedHeadMismatch
                } else {
                    FindingKind::Other
                },
                name: "MissingObject".to_owned(),
                message: format!("object {number}"),
            })
            .collect(),
        trusted_head_authenticated: false,
        verified_since_capture: false,
        authenticated_against_trusted_head: false,
    }
}

#[test]
fn verification_reports_are_shown_line_by_line() {
    let lines = verification_report_view(&report());
    assert_eq!(
        lines[0],
        "Verified 3 of 4 logical objects (5 canonical bytes), 6 of 7 manifests, and 8 metadata references."
    );
    assert!(lines[1].starts_with("Full verification did not establish"));
    assert_eq!(
        lines[2],
        "9 finding(s); 9 detailed finding(s) retained; 0 omitted."
    );
    assert!(lines[3].starts_with("External anchor did not authenticate"));
    assert_eq!(lines[4], "• MissingObject: object 0");
    assert_eq!(lines.len(), 12);
    let mut clean = report();
    clean.findings.clear();
    clean.verified_since_capture = true;
    assert_eq!(verification_report_view(&clean).len(), 3);
}

#[test]
fn keys_verification_and_reader_run_one_at_a_time() {
    let mut app = opened();
    assert_eq!(
        app.update(Message::Trust(TrustMessage::GenerateSigningKey(probe()))),
        Task::Idle
    );
    assert_eq!(notice(&app), "Problem: Signing key path is required.");
    app.update(Message::Trust(TrustMessage::SigningKeyPathChanged(
        "/trust/key.pk8".to_owned(),
    )));
    app.update(Message::Trust(TrustMessage::TrustedHeadPathChanged(
        "/trust/head.json".to_owned(),
    )));
    let Task::GenerateSigningKey { key, path } =
        app.update(Message::Trust(TrustMessage::GenerateSigningKey(probe())))
    else {
        panic!("no key was generated");
    };
    assert_eq!(path, "/trust/key.pk8");
    assert_eq!(app.update(Message::Trust(TrustMessage::VerifyFull)), Task::Idle);
    app.update(Message::Trust(TrustMessage::SigningKeyGenerated {
        key,
        result: Ok("Key created.".to_owned()),
    }));
    assert_eq!(notice(&app), "Done: Key created.");

    let Task::RefreshTrustedHead { key, .. } =
        app.update(Message::Trust(TrustMessage::RefreshTrustedHead {
            signing_key: probe(),
            trusted_head: probe(),
        }))
    else {
        panic!("no anchor was refreshed");
    };
    assert!(!app.integrity_view(&library()).controls_enabled);
    app.update(Message::Trust(TrustMessage::TrustedHeadRefreshed {
        key,
        result: Err("mismatch".to_owned()),
    }));
    assert_eq!(
        app.verification,
        VerificationState::Failed("mismatch".to_owned())
    );
    assert_eq!(
        app.integrity_view(&library()).result,
        vec!["Verification stopped: mismatch".to_owned()]
    );
    let Task::Verify(key) = app.update(Message::Trust(TrustMessage::VerifyFull)) else {
        panic!("nothing was verified");
    };
    app.update(Message::Trust(TrustMessage::VerificationFinished {
        key,
        result: Ok(report()),
    }));
    assert_eq!(app.integrity_view(&library()).result.len(), 12);

    let Task::StartReader(key) = app.update(Message::Trust(TrustMessage::OpenReader)) else {
        panic!("no reader was started");
    };
    let Task::OpenBrowser { url, started } =
        app.update(Message::Trust(TrustMessage::ReaderStarted {
            key,
            result: Ok("http://127.0.0.1:8080/".to_owned()),
        }))
    else {
        panic!("no browser was opened");
    };
    app.update(Message::Trust(TrustMessage::BrowserOpened {
        url,
        started,
        result: Err("no browser".to_owned()),
    }));
    assert_eq!(
        notice(&app),
        "Problem: Reader is running at http://127.0.0.1:8080/, but the browser could not be opened: no browser"
    );
    assert_eq!(
        app.update(Message::Trust(TrustMessage::OpenReader)),
        Task::OpenBrowser {
            url: "http://127.0.0.1:8080/".to_owned(),
            started: false,
        }
    );
    assert_eq!(app.dashboard_view().reader_label, "Open reader");
}

#[test]
fn a_library_is_shown_with_its_collections_and_runs() {
    let app = opened();
    let snapshot = library();
    let shown = app.collections_view(&snapshot);
    assert_eq!(shown.rows.len(), 2);
    assert_eq!(shown.rows[0].identity, "Collection 1 · wiki 1");
    assert_eq!(shown.rows[0].schedule, "Every 90 min · paused");
    assert_eq!(shown.rows[1].schedule, "Manual");
    assert_eq!(shown.rows[1].images, "Image policy unavailable");
    assert_eq!(
        shown.stopped[0].identity,
        "Collection 3 · stopped at 1777000000 · audit/history retained"
    );
    let sync = app.sync_view(&snapshot);
    assert_eq!(
        sync.policy,
        "Active policy: up to 4 concurrent request(s), byte rate unlimited, metered-network avoidance disabled."
    );
    assert_eq!(sync.runs[0].title, "Bootstrap run #4");
    assert_eq!(sync.runs[0].status, "attention");
    assert_eq!((sync.runs[0].done, sync.runs[0].total), (3, 10));
    assert_eq!(
        sync.runs[0].error,
        Some("Last error [http]: offline".to_owned())
    );
    assert_eq!(
        sync.imports[0].progress,
        "23 pages scanned · 0 selected pages imported · 0 B canonical bytes · attempt 1 · retryable"
    );
    assert_eq!(sync.checkpoints.len(), 1);
    let overview = overview_view(&snapshot);
    assert_eq!(overview.library_size, "1.5 KiB");
    assert_eq!(overview.recent[1].title, "Page 11");
    assert_eq!(overview.recent[0].detail, "Wiki 1 · revision 20 · 2026-08-21T12:00:00Z");
    assert_eq!(app.integrity_view(&snapshot).unique_objects, "1");
    assert_eq!(app.dashboard_view().body, DashboardBody::Tab(Tab::Overview));
    assert_eq!(
        Notice::success("x".to_owned()).notice_view(),
        "Done: x"
    );
}

#[test]
fn paths_are_compared_by_their_components() {
    for (left, right, same) in [
        ("/lib", "/lib/", true),
        ("/lib//wiki", "/lib/./wiki", true),
        ("/lib", "lib", false),
        ("./lib", "lib", false),
        ("/lib/wiki", "/lib/../wiki", false),
        ("/lib", "/lib2", false),
    ] {
        assert_eq!(same_path(left, right), same, "{left} and {right}");
        assert_eq!(Path::new(left) == Path::new(right), same);
    }
    let mut app = opened();
    app.active_request = Some(RequestKey {
        id: 42,
        path: "/active/library/".to_owned(),
    });
    app.update(Message::Library(LibraryMessage::Loaded(Loaded {
        key: RequestKey {
            id: 42,
            path: "/active/library".to_owned(),
        },
        result: Err("offline".to_owned()),
    })));
    assert_eq!(app.active_request, None);
}

#[test]
fn actions_wait_for_the_work_that_runs() {
    let mut app = opened();
    app.active_request = Some(RequestKey {
        id: 42,
        path: "/active/library".to_owned(),
    });
    app.next_request_id = u64::MAX;
    let shown = app.notice.as_ref().map(Notice::notice_view);
    for message in [
        Message::Library(LibraryMessage::Open),
        Message::Library(LibraryMessage::Create),
        Message::Library(LibraryMessage::Refresh),
        Message::Create(CreateMessage::Create),
        Message::Edit(EditMessage::CancelEdit),
        Message::Edit(EditMessage::ConfirmRemove),
        Message::Dump(DumpMessage::Preview),
        Message::Dump(DumpMessage::Start),
        Message::Dump(DumpMessage::FieldChanged(DumpField::Collection(
            "1".to_owned(),
        ))),
        Message::Policy(PolicyMessage::SaveNetworkPolicy),
        Message::Trust(TrustMessage::VerifyTrustedHead(probe())),
    ] {
        assert_eq!(app.update(message), Task::Idle);
        assert_eq!(app.active_request.as_ref().map(|key| key.id), Some(42));
        assert_eq!(app.next_request_id, u64::MAX);
        assert_eq!(app.dump_bootstrap_form.collection_id, "");
        assert_eq!(app.notice.as_ref().map(Notice::notice_view), shown);
    }
}
