use wikisyncd::user_agent::{
    application_user_agent, build_application_user_agent, ConfiguredContact, UserAgentConfigError,
    MAX_APPLICATION_USER_AGENT_BYTES, MAX_OPERATOR_CONTACT_BYTES, PACKAGE_REPOSITORY,
    PACKAGE_VERSION,
};

#[test]
fn default_identifies_the_application_and_safe_public_contact() {
    let user_agent = build_application_user_agent(None).expect("default User-Agent");
    assert_eq!(
        user_agent,
        format!("WikiSyncer/{} ({})", PACKAGE_VERSION, PACKAGE_REPOSITORY)
    );
    assert!(user_agent.len() <= MAX_APPLICATION_USER_AGENT_BYTES);
}

#[test]
fn configured_public_contact_is_applied_exactly_once() {
    let contact = "mailto:operator@example.invalid";
    let user_agent = build_application_user_agent(Some(contact)).expect("configured User-Agent");
    assert_eq!(
        user_agent,
        format!("WikiSyncer/{} ({contact})", PACKAGE_VERSION)
    );
}

#[test]
fn malformed_oversized_and_non_ascii_contacts_are_rejected_without_disclosure() {
    let secret = "token-SHOULD-NOT-LEAK";
    for invalid in [
        "",
        " leading@example.invalid",
        "trailing@example.invalid ",
        "operator@example.invalid\r\nX-Secret: injected",
        "operator(comment)@example.invalid",
        "operator\\name@example.invalid",
        "drift@example.invalid-æ",
    ] {
        let error = build_application_user_agent(Some(invalid)).expect_err("invalid contact");
        assert_eq!(error, UserAgentConfigError::InvalidOperatorContact);
        if !invalid.is_empty() {
            assert!(!error.message().contains(invalid));
        }
    }

    let oversized = format!("{secret}{}", "x".repeat(MAX_OPERATOR_CONTACT_BYTES));
    let error = build_application_user_agent(Some(&oversized)).expect_err("oversized contact");
    assert!(!error.message().contains(secret));
    assert!(!error.message().contains(&oversized));
}

#[test]
fn environment_contact_is_read_once() {
    assert_eq!(
        application_user_agent(&ConfiguredContact::Absent),
        build_application_user_agent(None)
    );
    assert_eq!(
        application_user_agent(&ConfiguredContact::Text(
            "mailto:a@example.invalid".to_owned()
        )),
        build_application_user_agent(Some("mailto:a@example.invalid"))
    );
    assert_eq!(
        application_user_agent(&ConfiguredContact::NotUnicode),
        Err(UserAgentConfigError::InvalidOperatorContact)
    );
}
