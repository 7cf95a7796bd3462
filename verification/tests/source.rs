use wikisyncd::error::ErrorCode;
use wikisyncd::model::WikiId;
use wikisyncd::source::{
    administer_source_direct, finish_registration, finish_source_removal, SourceAdministration,
    SourceAdministrationOutcome, SourceStep, StoredSource, MAX_SOURCE_API_ENDPOINT_BYTES,
    MAX_SOURCE_LANGUAGE_CODE_BYTES,
};
use wikisyncd::user_agent::ConfiguredContact;

fn add(api_endpoint: &str, language_code: &str) -> SourceAdministration {
    SourceAdministration::Add {
        api_endpoint: api_endpoint.to_owned(),
        language_code: language_code.to_owned(),
    }
}

fn registered(
    administration: SourceAdministration,
    known: Vec<String>,
    wiki_id: WikiId,
    stored: StoredSource,
) -> SourceAdministrationOutcome {
    let SourceStep::CheckEndpoint(pending) =
        administer_source_direct(administration, &ConfiguredContact::Absent)
    else {
        panic!("endpoint policy was not asked");
    };
    let SourceStep::ReadSources(pending) = pending.with_policy(Ok(())) else {
        panic!("sources were not read");
    };
    let SourceStep::Register(pending) = pending.with_sources(Ok(known)) else {
        panic!("source was not registered");
    };
    let SourceStep::ReadBack { wiki_id, existed } = pending.registered(Ok(wiki_id)) else {
        panic!("source was not read back");
    };
    finish_registration(wiki_id, existed, Ok(Some(stored))).expect("registration")
}

#[test]
fn add_is_validated_and_duplicate_endpoint_returns_durable_values() {
    let endpoint = "https://en.wikipedia.org/w/api.php";
    let wiki_id = WikiId::new(1).expect("source");
    let added = registered(
        add(endpoint, "en"),
        Vec::new(),
        wiki_id,
        StoredSource {
            api_endpoint: endpoint.to_owned(),
            language_code: "en".to_owned(),
        },
    );
    let SourceAdministrationOutcome::Added {
        created,
        language_code,
        ..
    } = added
    else {
        panic!("unexpected add outcome");
    };
    assert!(created);
    assert_eq!(language_code, "en");

    let duplicate = registered(
        add(endpoint, "different"),
        vec![endpoint.to_owned()],
        wiki_id,
        StoredSource {
            api_endpoint: endpoint.to_owned(),
            language_code: "en".to_owned(),
        },
    );
    assert_eq!(
        duplicate,
        SourceAdministrationOutcome::Added {
            wiki_id,
            api_endpoint: endpoint.to_owned(),
            language_code: "en".to_owned(),
            created: false,
        }
    );
}

#[test]
fn invalid_registration_is_rejected_before_store_mutation() {
    let SourceStep::CheckEndpoint(pending) = administer_source_direct(
        add("http://example.com/w/api.php", "en"),
        &ConfiguredContact::Absent,
    ) else {
        panic!("endpoint policy was not asked");
    };
    let SourceStep::Finished(Err(error)) =
        pending.with_policy(Err("remote endpoints must use HTTPS".to_owned()))
    else {
        panic!("remote HTTP must fail endpoint policy");
    };
    assert!(error.message().contains("HTTPS"));

    let SourceStep::Finished(Err(error)) = administer_source_direct(
        add(&"x".repeat(MAX_SOURCE_API_ENDPOINT_BYTES + 1), "en"),
        &ConfiguredContact::Absent,
    ) else {
        panic!("oversized endpoint must fail");
    };
    assert!(error.message().contains("maximum"));
    let SourceStep::Finished(Err(error)) = administer_source_direct(
        add(
            "https://en.wikipedia.org/w/api.php",
            &"x".repeat(MAX_SOURCE_LANGUAGE_CODE_BYTES + 1),
        ),
        &ConfiguredContact::Absent,
    ) else {
        panic!("oversized language must fail");
    };
    assert!(error.message().contains("maximum"));
}

#[test]
fn in_use_source_removal_fails_without_mutation() {
    let wiki_id = WikiId::new(1).expect("source");
    assert_eq!(
        administer_source_direct(
            SourceAdministration::Remove { wiki_id },
            &ConfiguredContact::Absent
        ),
        SourceStep::Remove { wiki_id }
    );
    let error = finish_source_removal(wiki_id, Err("source 1 is still in use".to_owned()))
        .expect_err("in-use source must not be removed");
    assert!(error.message().contains("still in use"));
    assert_eq!(error.code(), ErrorCode::OperationFailed);
    assert_eq!(
        finish_source_removal(wiki_id, Ok(())).expect("removal"),
        SourceAdministrationOutcome::Removed { wiki_id }
    );
}

#[test]
fn a_lost_registration_is_reported() {
    let wiki_id = WikiId::new(4).expect("source");
    assert!(finish_registration(wiki_id, false, Ok(None)).is_err());
    assert!(finish_registration(wiki_id, false, Err("locked".to_owned())).is_err());
    assert!(matches!(
        administer_source_direct(
            add("https://en.wikipedia.org/w/api.php", "en"),
            &ConfiguredContact::NotUnicode
        ),
        SourceStep::Finished(Err(_))
    ));
}
