use wikisyncd::administration::{
    administer_collection_direct, finish_removal, CollectionAdministration, CollectionStep,
};
use wikisyncd::collection::{
    estimate, CollectionAdministrationOutcome, CollectionDraft, MAX_COLLECTION_NAME_BYTES,
    MAX_TITLE_BYTES,
};
use wikisyncd::draft_codec::{
    encode_collection_draft, encode_collection_draft_with_image_policy,
    encoded_collection_draft_size, DRAFT_VERSION, LEGACY_DRAFT_VERSION,
};
use wikisyncd::draft_decoder::{decode_collection_draft, decode_collection_draft_version};
use wikisyncd::model::{
    CollectionBudget, CollectionId, CollectionRemovalPolicy, CollectionRule,
    CollectionSelectionPreview, HistoryPolicy, ImagePolicy, InclusionReason, PageId, PageTitle,
    ResolvedCollectionMember, ThumbnailPolicy, TitleSelection, UnixTimestamp, WikiId,
    MAX_THUMBNAIL_EDGE_PIXELS,
};
use wikisyncd::protocol::MAX_COLLECTION_DRAFT_BYTES;

fn title(text: &str) -> PageTitle {
    PageTitle::new(text).expect("title")
}

fn sample_draft(wiki_id: WikiId, name: &str) -> CollectionDraft {
    CollectionDraft {
        wiki_id,
        name: name.to_owned(),
        preview: CollectionSelectionPreview {
            rule: CollectionRule::ExplicitTitles(
                TitleSelection::new(vec![title("Rust"), title("Missing page")]).expect("selection"),
            ),
            members: vec![ResolvedCollectionMember {
                page_id: PageId::new(10).expect("page ID"),
                namespace: 0,
                title: title("Rust"),
                inclusion_reason: InclusionReason::ExplicitTitle(title("Rust")),
            }],
            missing_titles: vec![title("Missing page")],
            predicted_canonical_bytes: Some(1_024),
            category_batches: 0,
        },
        history_policy: HistoryPolicy::last_n(5).expect("history"),
        budget: CollectionBudget::unlimited()
            .with_maximum_pages(10)
            .expect("budget")
            .with_maximum_bytes(10_000)
            .expect("budget"),
        removal_policy: CollectionRemovalPolicy::StopTrackingRetainHistory,
    }
}

#[test]
fn collection_draft_codec_round_trips_every_policy_field() {
    let draft = sample_draft(WikiId::new(7).expect("wiki ID"), "Systems");
    let encoded = encode_collection_draft(&draft).expect("encode");
    assert!(encoded.len() < MAX_COLLECTION_DRAFT_BYTES);
    assert_eq!(&encoded[4..6], &LEGACY_DRAFT_VERSION.to_be_bytes());
    assert_eq!(decode_collection_draft(&encoded).expect("decode"), draft);
    assert_eq!(
        decode_collection_draft_version(&encoded)
            .expect("decode legacy draft")
            .image_policy
            .unwrap_or(ImagePolicy::Off),
        ImagePolicy::Off
    );

    let thumbnails = ThumbnailPolicy::new(640, 8, 1_048_576).expect("thumbnail policy");
    let encoded =
        encode_collection_draft_with_image_policy(&draft, ImagePolicy::Thumbnails(thumbnails))
            .expect("encode image-aware draft");
    assert_eq!(&encoded[4..6], &DRAFT_VERSION.to_be_bytes());
    let decoded = decode_collection_draft_version(&encoded).expect("decode image-aware draft");
    assert_eq!(decoded.draft, draft);
    assert_eq!(
        decoded.image_policy,
        Some(ImagePolicy::Thumbnails(thumbnails))
    );

    let mut invalid =
        encode_collection_draft_with_image_policy(&draft, ImagePolicy::Off).expect("encode");
    *invalid.last_mut().expect("policy tag") = 1;
    invalid.extend_from_slice(&(MAX_THUMBNAIL_EDGE_PIXELS + 1).to_be_bytes());
    invalid.extend_from_slice(&1_u32.to_be_bytes());
    invalid.extend_from_slice(&1_u64.to_be_bytes());
    assert!(decode_collection_draft_version(&invalid).is_err());
}

#[test]
fn collection_draft_codec_rejects_text_and_member_bounds() {
    let mut long_name = sample_draft(WikiId::new(7).expect("wiki ID"), "Systems");
    long_name.name = "x".repeat(MAX_COLLECTION_NAME_BYTES + 1);
    assert!(encode_collection_draft(&long_name).is_err());

    let mut too_many = sample_draft(WikiId::new(7).expect("wiki ID"), "Systems");
    too_many.preview.members = (0..10_001)
        .map(|_| ResolvedCollectionMember {
            page_id: PageId::new(10).expect("page ID"),
            namespace: 0,
            title: title("Rust"),
            inclusion_reason: InclusionReason::ExplicitTitle(title("Rust")),
        })
        .collect();
    assert!(encode_collection_draft(&too_many).is_err());

    let long_title = "x".repeat(MAX_TITLE_BYTES);
    let mut oversized = sample_draft(WikiId::new(7).expect("wiki ID"), "Oversized");
    oversized.preview.rule = CollectionRule::Category {
        title: title("Category:Bounded"),
        recursion_depth: 1,
    };
    oversized.preview.members = (1..=4_100_u64)
        .map(|page_id| ResolvedCollectionMember {
            page_id: PageId::new(page_id).expect("page ID"),
            namespace: 0,
            title: title(&long_title),
            inclusion_reason: InclusionReason::Category {
                category: title("Category:Bounded"),
                depth: 1,
            },
        })
        .collect();
    oversized.preview.missing_titles.clear();
    assert!(
        encoded_collection_draft_size(&oversized, None).expect("preflight size")
            > MAX_COLLECTION_DRAFT_BYTES
    );
    assert!(encode_collection_draft(&oversized).is_err());
}

#[test]
fn direct_add_edit_and_remove_share_one_transactional_lifecycle() {
    let wiki_id = WikiId::new(1).expect("source");
    let collection_id = CollectionId::new(3).expect("collection");
    let thumbnails =
        ThumbnailPolicy::new(800, 12, 2 * 1024 * 1024).expect("bounded thumbnail policy");
    let step = administer_collection_direct(CollectionAdministration::AddWithImagePolicy {
        draft: sample_draft(wiki_id, "Systems"),
        image_policy: ImagePolicy::Thumbnails(thumbnails),
    });
    let CollectionStep::Create(pending) = step else {
        panic!("unexpected add step {step:?}");
    };
    assert_eq!(
        pending.image_policy,
        Some(ImagePolicy::Thumbnails(thumbnails))
    );
    assert_eq!(
        pending.draft.preview.missing_titles,
        [PageTitle::new("Missing page").unwrap()]
    );
    let added = pending.finish(Ok(collection_id)).expect("add");
    let CollectionAdministrationOutcome::Added {
        collection_id: added_id,
        estimate,
    } = added
    else {
        panic!("unexpected add outcome");
    };
    assert_eq!(added_id, collection_id);
    assert_eq!(estimate.resolved_page_count, 1);

    let initial_generation = 1;
    let mut edited = sample_draft(wiki_id, "Programming systems");
    edited.history_policy = HistoryPolicy::Complete;
    let step = administer_collection_direct(CollectionAdministration::EditWithImagePolicy {
        collection_id,
        expected_generation: initial_generation,
        draft: edited,
        image_policy: ImagePolicy::Off,
    });
    let CollectionStep::ReadConfiguration(pending) = step else {
        panic!("unexpected edit step {step:?}");
    };
    let CollectionStep::Update(pending) = pending.with_source(Ok(Some(wiki_id))) else {
        panic!("unexpected edit step");
    };
    assert_eq!(pending.draft.name, "Programming systems");
    assert_eq!(pending.draft.history_policy, HistoryPolicy::Complete);
    assert_eq!(pending.expected_generation, initial_generation);
    assert_eq!(pending.image_policy, Some(ImagePolicy::Off));
    let outcome = pending.finish(Ok(())).expect("edit");
    assert!(matches!(
        outcome,
        CollectionAdministrationOutcome::Edited {
            collection_id: edited_id,
            ..
        } if edited_id == collection_id
    ));

    let step = administer_collection_direct(CollectionAdministration::EditWithImagePolicy {
        collection_id,
        expected_generation: initial_generation,
        draft: sample_draft(wiki_id, "Stale replacement"),
        image_policy: ImagePolicy::Thumbnails(thumbnails),
    });
    let CollectionStep::ReadConfiguration(pending) = step else {
        panic!("unexpected edit step {step:?}");
    };
    let CollectionStep::Update(pending) = pending.with_source(Ok(Some(wiki_id))) else {
        panic!("unexpected edit step");
    };
    let stale = pending
        .finish(Err(
            "collection 3 changed while it was being previewed".to_owned()
        ))
        .expect_err("stale preview must be rejected");
    assert!(stale
        .message()
        .contains("changed while it was being previewed"));

    let step = administer_collection_direct(CollectionAdministration::Remove { collection_id });
    assert_eq!(step, CollectionStep::Tombstone { collection_id });
    assert_eq!(
        finish_removal(collection_id, Ok(())).expect("remove"),
        CollectionAdministrationOutcome::Removed { collection_id }
    );
}

#[test]
fn rejected_edit_leaves_name_and_preview_unchanged() {
    let wiki_id = WikiId::new(1).expect("source");
    let collection_id = CollectionId::new(3).expect("collection");
    let mut rejected = sample_draft(wiki_id, "Must not persist");
    rejected.budget = CollectionBudget::unlimited()
        .with_maximum_bytes(100)
        .expect("budget");
    let step = administer_collection_direct(CollectionAdministration::Edit {
        collection_id,
        expected_generation: 1,
        draft: rejected,
    });
    assert!(
        matches!(step, CollectionStep::Finished(Err(_))),
        "a rejected edit reaches no store: {step:?}"
    );
}

#[test]
fn estimates_come_from_the_preview_and_touch_no_store() {
    let draft = sample_draft(WikiId::new(7).expect("wiki ID"), "Systems");
    let expected = estimate(&draft).expect("estimate");
    assert_eq!(expected.missing_title_count, 1);
    assert_eq!(expected.predicted_canonical_bytes, Some(1_024));
    assert!(expected.fits_budget);
    assert_eq!(
        administer_collection_direct(CollectionAdministration::Estimate(draft)),
        CollectionStep::Finished(Ok(CollectionAdministrationOutcome::Estimated(expected)))
    );

    let mut tight = sample_draft(WikiId::new(7).expect("wiki ID"), "Systems");
    tight.budget = CollectionBudget::unlimited()
        .with_maximum_bytes(1_023)
        .expect("budget");
    assert!(!estimate(&tight).expect("estimate").fits_budget);
}

#[test]
fn an_edit_cannot_move_a_collection_to_another_source() {
    let draft = sample_draft(WikiId::new(1).expect("source"), "Systems");
    let step = administer_collection_direct(CollectionAdministration::Edit {
        collection_id: CollectionId::new(3).expect("collection"),
        expected_generation: 4,
        draft,
    });
    let CollectionStep::ReadConfiguration(pending) = step else {
        panic!("unexpected edit step");
    };
    assert!(matches!(
        pending.with_source(Ok(Some(WikiId::new(2).expect("other source")))),
        CollectionStep::Finished(Err(_))
    ));
}

#[test]
fn every_rule_and_history_round_trips() {
    let wiki_id = WikiId::new(2).expect("wiki ID");
    let mut listed = sample_draft(wiki_id, "Listed");
    listed.preview.rule = CollectionRule::TitleList(
        TitleSelection::new(vec![title("Rust"), title("Missing page")]).expect("selection"),
    );
    listed.preview.members[0].inclusion_reason = InclusionReason::TitleList(title("Rust"));
    listed.history_policy = HistoryPolicy::Since(UnixTimestamp::from_seconds(-5));
    listed.budget = CollectionBudget::unlimited();
    listed.removal_policy = CollectionRemovalPolicy::KeepTracking;
    let encoded = encode_collection_draft(&listed).expect("encode");
    assert_eq!(decode_collection_draft(&encoded).expect("decode"), listed);

    let mut category = sample_draft(wiki_id, "Category");
    category.preview.rule = CollectionRule::Category {
        title: title("Category:Systems"),
        recursion_depth: 3,
    };
    category.preview.members[0].inclusion_reason = InclusionReason::Category {
        category: title("Category:Systems"),
        depth: 2,
    };
    category.preview.missing_titles.clear();
    category.preview.predicted_canonical_bytes = None;
    category.preview.category_batches = 9;
    category.history_policy = HistoryPolicy::CurrentAndFuture;
    let encoded = encode_collection_draft(&category).expect("encode");
    assert_eq!(decode_collection_draft(&encoded).expect("decode"), category);

    let mut trailing = encoded;
    trailing.push(0);
    assert!(decode_collection_draft(&trailing).is_err());
    let with_images =
        encode_collection_draft_with_image_policy(&category, ImagePolicy::Off).expect("encode");
    assert!(decode_collection_draft(&with_images).is_err());
}

#[test]
fn bytes_behind_a_draft_are_refused() {
    let draft = sample_draft(WikiId::new(7).expect("wiki ID"), "Systems");
    let mut plain = encode_collection_draft(&draft).expect("encode");
    plain.push(0);
    assert!(decode_collection_draft(&plain).is_err());
    assert!(decode_collection_draft_version(&plain).is_err());
    let mut imaged =
        encode_collection_draft_with_image_policy(&draft, ImagePolicy::Off).expect("encode");
    assert!(decode_collection_draft(&imaged).is_err());
    imaged.push(0);
    assert!(decode_collection_draft_version(&imaged).is_err());
}

#[test]
fn the_size_of_a_draft_is_known_before_it_is_encoded() {
    let mut draft = sample_draft(WikiId::new(7).expect("wiki ID"), "Systems");
    let encoded = encode_collection_draft(&draft).expect("encode");
    assert_eq!(
        encoded_collection_draft_size(&draft, None).expect("size"),
        encoded.len()
    );
    draft.preview.members[0].inclusion_reason = InclusionReason::WholeMainNamespace;
    assert_eq!(
        encoded_collection_draft_size(&draft, None)
            .expect_err("whole edition")
            .message(),
        "whole-edition collections require the dedicated dump bootstrap operation"
    );
}
