use wikisyncd::forms::{
    image_policy_form_summary, parse_schedule_settings, schedule_value_hint, CollectionForm,
    HistoryMode, ImageMode, NetworkPolicyEditor, ScheduleEditor, ScheduleMode, SelectionMode,
};
use wikisyncd::model::{
    CollectionBudget, CollectionId, CollectionRemovalPolicy, CollectionRule, HistoryPolicy,
    ImagePolicy, NetworkTransferPolicy, PageTitle, ScheduleCadence, ThumbnailPolicy,
    TitleSelection, UnixTimestamp, WikiId,
};
use wikisyncd::stored::{CollectionSchedule, StoredCollectionConfiguration, StoredWiki};

fn titles(texts: &[&str]) -> Result<TitleSelection, String> {
    TitleSelection::new(
        texts
            .iter()
            .map(|text| PageTitle::new(text).expect("title"))
            .collect(),
    )
    .map_err(|error| error.message().to_owned())
}

#[test]
fn collection_form_parses_scope_history_and_hard_budgets() {
    let form = CollectionForm {
        selection_mode: SelectionMode::TitleList,
        selection: "Rust\nFerris\nRust\n".to_owned(),
        history_mode: HistoryMode::LastN,
        history_value: "25".to_owned(),
        maximum_pages: "100".to_owned(),
        maximum_bytes: "1048576".to_owned(),
        ..CollectionForm::default()
    };
    assert!(matches!(
        form.rule(titles(&["Rust", "Ferris"])),
        Ok(CollectionRule::TitleList(_))
    ));
    assert!(matches!(form.history_policy(), Ok(HistoryPolicy::LastN(_))));
    let budget = form.budget().expect("budget");
    assert_eq!(budget.maximum_pages().unwrap().get(), 100);
    assert_eq!(budget.maximum_bytes().unwrap().get(), 1_048_576);
    assert_eq!(form.image_policy(), Ok(ImagePolicy::Off));

    let thumbnails = CollectionForm {
        image_mode: ImageMode::Thumbnails,
        thumbnail_max_edge_pixels: "640".to_owned(),
        thumbnail_max_images_per_revision: "8".to_owned(),
        thumbnail_max_bytes_per_image: "1048576".to_owned(),
        ..CollectionForm::default()
    };
    let ImagePolicy::Thumbnails(policy) = thumbnails.image_policy().expect("image policy") else {
        panic!("expected thumbnails");
    };
    assert_eq!(policy.maximum_edge_pixels().get(), 640);
    assert_eq!(policy.maximum_images_per_revision().get(), 8);
    assert_eq!(policy.maximum_bytes_per_image().get(), 1_048_576);

    let invalid = CollectionForm {
        image_mode: ImageMode::Thumbnails,
        thumbnail_max_edge_pixels: "0".to_owned(),
        ..CollectionForm::default()
    };
    assert!(invalid.image_policy().is_err());
}

#[test]
fn schedule_controls_parse_interval_daily_jitter_and_pause() {
    let interval = parse_schedule_settings(ScheduleMode::Interval, "90", "10", true)
        .expect("interval schedule");
    assert!(matches!(interval.cadence, ScheduleCadence::Interval(_)));
    assert_eq!(interval.jitter_seconds, 600);
    assert!(interval.paused);

    let daily = parse_schedule_settings(ScheduleMode::DailyUtc, "06:45", "5", false)
        .expect("daily schedule");
    assert!(matches!(daily.cadence, ScheduleCadence::DailyUtc(_)));
    assert_eq!(daily.jitter_seconds, 300);
    assert!(parse_schedule_settings(ScheduleMode::DailyUtc, "24:00", "0", false).is_err());
}

#[test]
fn network_policy_editor_round_trips_bounded_durable_values() {
    let policy = NetworkTransferPolicy::new(8, Some(1_048_576), true).expect("policy");
    let editor = NetworkPolicyEditor::from_policy(policy);
    assert_eq!(editor.policy(), Ok(policy));

    let unlimited = NetworkPolicyEditor {
        max_concurrent_requests: "4".to_owned(),
        max_download_bytes_per_second: String::new(),
        avoid_metered_networks: false,
    };
    assert_eq!(
        unlimited
            .policy()
            .expect("unlimited policy")
            .max_download_bytes_per_second(),
        None
    );

    let invalid = NetworkPolicyEditor {
        max_concurrent_requests: "0".to_owned(),
        max_download_bytes_per_second: "0".to_owned(),
        avoid_metered_networks: true,
    };
    assert!(invalid.policy().is_err());
}

#[test]
fn schedule_errors_name_what_is_wrong() {
    let error = |mode, value: &str, jitter: &str| {
        parse_schedule_settings(mode, value, jitter, false).expect_err("refused schedule")
    };
    assert_eq!(
        error(ScheduleMode::Manual, "", "x"),
        "Schedule jitter must be a non-negative number of minutes."
    );
    assert_eq!(
        error(ScheduleMode::Manual, "", "71582789"),
        "Schedule jitter is too large."
    );
    assert_eq!(
        error(ScheduleMode::Manual, "", "1"),
        "Manual schedules cannot have jitter."
    );
    assert_eq!(
        error(ScheduleMode::Interval, "soon", "0"),
        "Interval schedule requires a positive number of minutes."
    );
    assert_eq!(
        error(ScheduleMode::Interval, "71582789", "0"),
        "Schedule interval is too large."
    );
    assert_eq!(
        error(ScheduleMode::Interval, "10", "11"),
        "Schedule jitter cannot exceed the interval."
    );
    assert_eq!(
        error(ScheduleMode::DailyUtc, "645", "0"),
        "Daily UTC schedule must use HH:MM."
    );
    assert_eq!(
        error(ScheduleMode::DailyUtc, "x:00", "0"),
        "Daily UTC hour must be between 00 and 23."
    );
    assert_eq!(
        error(ScheduleMode::DailyUtc, "01:x", "0"),
        "Daily UTC minute must be between 00 and 59."
    );
    assert_eq!(
        error(ScheduleMode::DailyUtc, "01:60", "0"),
        "Daily UTC schedule must use a time from 00:00 to 23:59."
    );
    assert_eq!(
        error(ScheduleMode::DailyUtc, "01:00", "1441"),
        "Schedule jitter cannot exceed 1,440 minutes."
    );
    assert!(parse_schedule_settings(ScheduleMode::Interval, "0", "0", false).is_err());
    assert_eq!(
        schedule_value_hint(ScheduleMode::DailyUtc),
        "Daily UTC time (HH:MM)"
    );
}

#[test]
fn edited_schedules_come_back() {
    let collection_id = CollectionId::new(3).expect("collection");
    for cadence in [
        ScheduleCadence::Manual,
        ScheduleCadence::interval(5_400).expect("interval"),
        ScheduleCadence::daily_utc(24_300).expect("time"),
    ] {
        let jitter = if cadence == ScheduleCadence::Manual {
            0
        } else {
            120
        };
        let editor = ScheduleEditor::from_schedule(
            collection_id,
            CollectionSchedule {
                collection_id,
                cadence,
                jitter_seconds: jitter,
                paused: true,
                next_run_at: None,
                last_started_at: None,
            },
        );
        let settings = editor.settings().expect("settings");
        assert_eq!(settings.cadence, cadence);
        assert_eq!(settings.jitter_seconds, jitter);
        assert!(settings.paused);
    }
}

#[test]
fn edited_configurations_come_back() {
    let collection_id = CollectionId::new(3).expect("collection");
    let wiki = StoredWiki {
        wiki_id: WikiId::new(1).expect("wiki"),
        api_endpoint: "https://de.wikipedia.org/w/api.php".to_owned(),
        language_code: "de".to_owned(),
    };
    let thumbnails = ThumbnailPolicy::new(320, 2, 65_536).expect("thumbnails");
    let configuration = StoredCollectionConfiguration {
        collection_id,
        wiki_id: WikiId::new(1).expect("wiki"),
        generation: 9,
        name: "Systeme".to_owned(),
        rule: CollectionRule::Category {
            title: PageTitle::new("Kategorie:Systeme").expect("title"),
            recursion_depth: 4,
        },
        history_policy: HistoryPolicy::Since(UnixTimestamp::from_seconds(-86_400)),
        budget: CollectionBudget::unlimited()
            .with_maximum_bytes(77)
            .expect("budget"),
        removal_policy: CollectionRemovalPolicy::KeepTracking,
        image_policy: ImagePolicy::Thumbnails(thumbnails),
    };
    let form = CollectionForm::from_configuration(&configuration, &wiki, None);
    assert_eq!(form.name, "Systeme");
    assert_eq!(form.language_code, "de");
    assert_eq!(form.rule(Err("unused".to_owned())), Ok(configuration.rule));
    assert_eq!(form.history_policy(), Ok(configuration.history_policy));
    assert_eq!(form.budget(), Ok(configuration.budget));
    assert_eq!(form.image_policy(), Ok(configuration.image_policy));
    assert_eq!(form.removal_policy, CollectionRemovalPolicy::KeepTracking);
    assert_eq!(
        form.schedule().expect("schedule").cadence,
        ScheduleCadence::Manual
    );

    let listed = StoredCollectionConfiguration {
        collection_id,
        wiki_id: WikiId::new(1).expect("wiki"),
        generation: 9,
        name: "Liste".to_owned(),
        rule: CollectionRule::TitleList(titles(&["Rust", "Ferris"]).expect("titles")),
        history_policy: HistoryPolicy::last_n(3).expect("history"),
        budget: CollectionBudget::unlimited(),
        removal_policy: CollectionRemovalPolicy::KeepTracking,
        image_policy: ImagePolicy::Off,
    };
    let form = CollectionForm::from_configuration(&listed, &wiki, None);
    assert_eq!(form.selection, "Rust\nFerris");
    assert_eq!(form.selection_mode, SelectionMode::TitleList);
    assert_eq!(form.history_policy(), Ok(listed.history_policy));
}

#[test]
fn form_errors_name_what_is_wrong() {
    let form = CollectionForm {
        selection_mode: SelectionMode::Category,
        selection: "Category:Systems".to_owned(),
        category_depth: "17".to_owned(),
        history_mode: HistoryMode::Since,
        history_value: "yesterday".to_owned(),
        maximum_pages: "many".to_owned(),
        image_mode: ImageMode::Thumbnails,
        thumbnail_max_images_per_revision: "x".to_owned(),
        ..CollectionForm::default()
    };
    assert_eq!(
        form.rule(titles(&["Rust"])).expect_err("depth"),
        "Category depth must be an integer from 0 to 16."
    );
    assert_eq!(
        form.history_policy().expect_err("history"),
        "Since history requires Unix seconds in UTC."
    );
    assert_eq!(
        form.budget().expect_err("budget"),
        "Maximum pages must be a positive integer."
    );
    assert_eq!(
        image_policy_form_summary(&form),
        "Thumbnail limits are invalid: Thumbnail count must be a positive number per revision."
    );
    let named = CollectionForm {
        selection_mode: SelectionMode::Titles,
        ..CollectionForm::default()
    };
    assert_eq!(
        named.rule(Err("no title".to_owned())).expect_err("titles"),
        "no title"
    );
    assert!(image_policy_form_summary(&named).starts_with("Configured image policy: off"));
}
