//! Shared application User-Agent configuration for every production HTTP client.

use vstd::prelude::*;
use vstd::string::*;
use vstd::utf8::*;

use crate::collection::text_bytes;
use crate::text::{
    chars_of, is_white_space_spec, lemma_trimmed_ends, same_text, trim, trimmed,
};
use crate::wire::byte_len;

verus! {

/// Environment variable used to identify the operator in outbound requests.
///
/// The value is sent to configured MediaWiki and dump hosts, so it must contain contact
/// information suitable for disclosure to those services, never a secret.
pub const OPERATOR_CONTACT_ENV: &'static str = "WIKISYNC_OPERATOR_CONTACT";

/// Largest accepted configured operator contact in bytes.
pub const MAX_OPERATOR_CONTACT_BYTES: usize = 256;

pub const MAX_APPLICATION_USER_AGENT_BYTES: usize = 512;

/// Version shown to contacted services.
pub const PACKAGE_VERSION: &'static str = "0.1.0";

/// Public contact used when no operator contact is configured.
pub const PACKAGE_REPOSITORY: &'static str = "https://github.com/wikisyncer/wikisyncer";

/// Failure to construct the bounded application User-Agent.
#[derive(Clone, Copy, Debug, PartialEq, Eq, Structural)]
pub enum UserAgentConfigError {
    /// The configured value is empty, non-ASCII, malformed, or outside its bound.
    InvalidOperatorContact,
    /// The complete application User-Agent exceeded its defensive bound.
    UserAgentTooLong,
}

impl UserAgentConfigError {
    /// The text shown for each failure; it never repeats the configured value.
    pub open spec fn text(self) -> Seq<char> {
        match self {
            UserAgentConfigError::InvalidOperatorContact =>
                "configured operator contact must be 1-256 visible ASCII bytes without surrounding whitespace, parentheses, or backslashes"@,
            UserAgentConfigError::UserAgentTooLong =>
                "configured application User-Agent exceeds its size bound"@,
        }
    }

    pub fn message(self) -> (message: &'static str)
        ensures
            message@ == self.text(),
    {
        match self {
            UserAgentConfigError::InvalidOperatorContact =>
                "configured operator contact must be 1-256 visible ASCII bytes without surrounding whitespace, parentheses, or backslashes",
            UserAgentConfigError::UserAgentTooLong =>
                "configured application User-Agent exceeds its size bound",
        }
    }
}

/// What the environment says of the operator contact.
#[derive(Clone, Debug, PartialEq, Eq)]
pub enum ConfiguredContact {
    Absent,
    NotUnicode,
    Text(String),
}

/// A visible ASCII character that cannot end or escape a comment.
pub open spec fn contact_char(c: char) -> bool {
    ' ' <= c && c <= '~' && c != '(' && c != ')' && c != '\\'
}

/// The contacts that may be sent.
pub open spec fn valid_contact(contact: Seq<char>) -> bool {
    &&& 0 < text_bytes(contact) <= MAX_OPERATOR_CONTACT_BYTES
    &&& trimmed(contact) == contact
    &&& forall|i: int| 0 <= i < contact.len() ==> contact_char(#[trigger] contact[i])
}

/// The User-Agent that names a contact.
pub open spec fn user_agent_text(contact: Seq<char>) -> Seq<char> {
    "WikiSyncer/"@ + PACKAGE_VERSION@ + " ("@ + contact + ")"@
}

/// The User-Agent for a contact, or why there is none.
pub open spec fn user_agent_for(contact: Seq<char>) -> Result<Seq<char>, UserAgentConfigError> {
    if !valid_contact(contact) {
        Err(UserAgentConfigError::InvalidOperatorContact)
    } else if text_bytes(user_agent_text(contact)) > MAX_APPLICATION_USER_AGENT_BYTES {
        Err(UserAgentConfigError::UserAgentTooLong)
    } else {
        Ok(user_agent_text(contact))
    }
}

fn contact_is_valid(contact: &str) -> (b: bool)
    ensures
        b == valid_contact(contact@),
{
    let size: usize = byte_len(contact);
    if size == 0 || size > MAX_OPERATOR_CONTACT_BYTES || !same_text(trim(contact).as_str(), contact) {
        return false;
    }
    let chars = chars_of(contact);
    let mut i: usize = 0;
    while i < chars.len()
        invariant
            i <= chars@.len(),
            chars@ == contact@,
            forall|k: int| 0 <= k < i ==> contact_char(#[trigger] contact@[k]),
        decreases chars@.len() - i,
    {
        let c: char = chars[i];
        if c < ' ' || c > '~' || c == '(' || c == ')' || c == '\\' {
            assert(!contact_char(contact@[i as int]));
            return false;
        }
        i = i + 1;
    }
    true
}

/// Builds the User-Agent for a configured contact, or for the project repository.
pub fn build_application_user_agent(configured_contact: Option<&str>) -> (r: Result<
    String,
    UserAgentConfigError,
>)
    ensures
        ({
            let contact = match configured_contact {
                Some(contact) => contact@,
                None => PACKAGE_REPOSITORY@,
            };
            match r {
                Ok(text) => user_agent_for(contact) == Ok::<Seq<char>, UserAgentConfigError>(text@),
                Err(error) => user_agent_for(contact) == Err::<Seq<char>, UserAgentConfigError>(
                    error,
                ),
            }
        }),
{
    let contact: &str = match configured_contact {
        Some(contact) => contact,
        None => PACKAGE_REPOSITORY,
    };
    if !contact_is_valid(contact) {
        return Err(UserAgentConfigError::InvalidOperatorContact);
    }
    let user_agent = String::from_str("WikiSyncer/").concat(PACKAGE_VERSION).concat(" (").concat(
        contact,
    ).concat(")");
    if byte_len(user_agent.as_str()) > MAX_APPLICATION_USER_AGENT_BYTES {
        return Err(UserAgentConfigError::UserAgentTooLong);
    }
    Ok(user_agent)
}

/// The User-Agent for what the environment says.
pub open spec fn configured_user_agent(configured: ConfiguredContact) -> Result<
    Seq<char>,
    UserAgentConfigError,
> {
    match configured {
        ConfiguredContact::Absent => user_agent_for(PACKAGE_REPOSITORY@),
        ConfiguredContact::NotUnicode => Err(UserAgentConfigError::InvalidOperatorContact),
        ConfiguredContact::Text(contact) => user_agent_for(contact@),
    }
}

/// Returns the bounded application User-Agent used by production network clients.
///
/// The contact may be an ASCII email address, URL, or similarly concise public contact.
/// When it is absent, the project repository is used as a safe contact. Invalid configured
/// values fail closed and are never copied into the returned error.
pub fn application_user_agent(configured: &ConfiguredContact) -> (r: Result<
    String,
    UserAgentConfigError,
>)
    ensures
        match r {
            Ok(text) => configured_user_agent(*configured) == Ok::<
                Seq<char>,
                UserAgentConfigError,
            >(text@),
            Err(error) => configured_user_agent(*configured) == Err::<
                Seq<char>,
                UserAgentConfigError,
            >(error),
        },
{
    match configured {
        ConfiguredContact::Text(contact) => build_application_user_agent(Some(contact.as_str())),
        ConfiguredContact::Absent => build_application_user_agent(None),
        ConfiguredContact::NotUnicode => Err(UserAgentConfigError::InvalidOperatorContact),
    }
}

/// No User-Agent holds a line break or any other control character, so it cannot carry a
/// second header.
pub proof fn law_user_agent_is_one_header_value(contact: Seq<char>)
    ensures
        user_agent_for(contact) matches Ok(text) ==> text_bytes(text)
            <= MAX_APPLICATION_USER_AGENT_BYTES && forall|i: int|
            0 <= i < text.len() ==> ' ' <= #[trigger] text[i] && text[i] <= '~',
{
    reveal_strlit("WikiSyncer/");
    reveal_strlit("0.1.0");
    reveal_strlit(" (");
    reveal_strlit(")");
    if user_agent_for(contact) is Ok {
        let text = user_agent_text(contact);
        assert forall|i: int| 0 <= i < text.len() implies ' ' <= #[trigger] text[i] && text[i]
            <= '~' by {
            let start = "WikiSyncer/"@.len() + PACKAGE_VERSION@.len() + " ("@.len();
            if start <= i < start + contact.len() {
                assert(contact_char(contact[i - start]));
            }
        }
    }
}

/// The contact stands in the User-Agent exactly once, between the parentheses.
pub proof fn law_contact_stands_between_parentheses(contact: Seq<char>)
    ensures
        user_agent_for(contact) matches Ok(text) ==> {
            let start = ("WikiSyncer/"@ + PACKAGE_VERSION@ + " ("@).len();
            &&& text.len() == start + contact.len() + 1
            &&& text.subrange(start as int, (start + contact.len()) as int) == contact
        },
{
    reveal_strlit(")");
    let head = "WikiSyncer/"@ + PACKAGE_VERSION@ + " ("@;
    assert((head + contact + ")"@).subrange(
        head.len() as int,
        (head.len() + contact.len()) as int,
    ) =~= contact);
}

/// A contact is sent exactly when it is 1 to 256 visible ASCII characters, inner spaces
/// included, without blanks around it and without what could end or escape a comment; then it
/// stands in the text. Without one the project is named, and what is no text is refused.
pub proof fn law_only_plain_contacts_are_sent(
    configured: ConfiguredContact,
    r: Result<String, UserAgentConfigError>,
)
    requires
        call_ensures(application_user_agent, (&configured,), r),
    ensures
        configured matches ConfiguredContact::Text(contact) ==> {
            let plain = 0 < encode_utf8(contact@).len() <= 256 && !is_white_space_spec(contact@[0])
                && !is_white_space_spec(contact@.last()) && forall|i: int|
                0 <= i < contact@.len() ==> ' ' <= #[trigger] contact@[i] && contact@[i] <= '~'
                    && contact@[i] != '(' && contact@[i] != ')' && contact@[i] != '\\';
            &&& !plain ==> r == Err::<String, UserAgentConfigError>(
                UserAgentConfigError::InvalidOperatorContact,
            )
            &&& plain && r is Err ==> r->Err_0 == UserAgentConfigError::UserAgentTooLong
            &&& r matches Ok(text) ==> text@ == "WikiSyncer/0.1.0 ("@ + contact@ + ")"@
                && encode_utf8(text@).len() <= 512
        },
        configured is NotUnicode ==> r is Err,
        configured is Absent && r is Ok ==> r->Ok_0@ == "WikiSyncer/0.1.0 ("@
            + "https://github.com/wikisyncer/wikisyncer"@ + ")"@,
{
    reveal_strlit("WikiSyncer/0.1.0 (");
    reveal_strlit("WikiSyncer/");
    reveal_strlit("0.1.0");
    reveal_strlit(" (");
    assert("WikiSyncer/"@ + "0.1.0"@ + " ("@ =~= "WikiSyncer/0.1.0 ("@);
    if let ConfiguredContact::Text(contact) = configured {
        lemma_trimmed_ends(contact@);
        if encode_utf8(contact@).len() > 0 {
            assert(contact@.len() > 0) by {
                if contact@.len() == 0 {
                    assert(contact@ =~= Seq::empty());
                }
            }
        }
        assert forall|i: int| 0 <= i < contact@.len() implies contact_char(#[trigger] contact@[i])
            == (' ' <= contact@[i] && contact@[i] <= '~' && contact@[i] != '(' && contact@[i] != ')'
            && contact@[i] != '\\') by {}
    }
}

/// Every plain contact is accepted: with at most 256 bytes the whole text stays below its bound.
pub proof fn law_plain_contacts_fit(contact: Seq<char>)
    ensures
        user_agent_for(contact) is Ok <==> valid_contact(contact),
{
    if valid_contact(contact) {
        reveal_strlit("WikiSyncer/");
        reveal_strlit("0.1.0");
        reveal_strlit(" (");
        reveal_strlit(")");
        let text = user_agent_text(contact);
        assert(is_ascii_chars(contact)) by {
            assert forall|i: int| 0 <= i < contact.len() implies '\0' <= #[trigger] contact[i]
                <= '\u{7f}' by {
                assert(contact_char(contact[i]));
            }
        }
        assert(is_ascii_chars(text)) by {
            let start = "WikiSyncer/"@.len() + PACKAGE_VERSION@.len() + " ("@.len();
            assert forall|i: int| 0 <= i < text.len() implies '\0' <= #[trigger] text[i]
                <= '\u{7f}' by {
                if start <= i < start + contact.len() {
                    assert(text[i] == contact[i - start]);
                }
            }
        }
        is_ascii_chars_encode_utf8(contact);
        is_ascii_chars_encode_utf8(text);
    }
}

} // verus!
