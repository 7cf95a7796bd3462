//! Bounded source administration shared by direct and daemon writers.

use vstd::prelude::*;
use vstd::string::*;
use vstd::utf8::*;

use crate::collection::text_bytes;
use crate::error::{failure, ErrorCode, FailureView, OperationError};
use crate::model::WikiId;
use crate::text::{
    chars_of, decimal, decimal_text, is_control, is_control_spec, is_white_space_spec,
    law_only_white_space_trims_to_nothing, lemma_control, same_text, trim, trimmed,
};
use crate::user_agent::{
    application_user_agent, configured_user_agent, ConfiguredContact, UserAgentConfigError,
};
use crate::wire::byte_len;

verus! {

/// Largest accepted MediaWiki Action API endpoint in bytes.
pub const MAX_SOURCE_API_ENDPOINT_BYTES: usize = 4_096;

/// Largest accepted source language code in bytes.
pub const MAX_SOURCE_LANGUAGE_CODE_BYTES: usize = 64;

/// One source operation shared by direct and daemon writer paths.
#[derive(Debug, PartialEq, Eq)]
pub enum SourceAdministration {
    /// Validates and registers a MediaWiki Action API endpoint.
    Add {
        /// HTTPS endpoint, except that loopback HTTP remains valid for fixtures.
        api_endpoint: String,
        /// Non-empty MediaWiki language code stored with the source.
        language_code: String,
    },
    /// Removes a source only when no configuration or retained evidence uses it.
    Remove { wiki_id: WikiId },
}

/// Plain view of a source operation.
pub enum SourceView {
    Add { api_endpoint: Seq<char>, language_code: Seq<char> },
    Remove { wiki_id: u64 },
}

impl View for SourceAdministration {
    type V = SourceView;

    open spec fn view(&self) -> SourceView {
        match self {
            SourceAdministration::Add { api_endpoint, language_code } => SourceView::Add {
                api_endpoint: api_endpoint@,
                language_code: language_code@,
            },
            SourceAdministration::Remove { wiki_id } => SourceView::Remove { wiki_id: wiki_id@ },
        }
    }
}

impl Clone for SourceAdministration {
    fn clone(&self) -> (copy: Self)
        ensures
            copy@ == self@,
    {
        match self {
            SourceAdministration::Add { api_endpoint, language_code } => SourceAdministration::Add {
                api_endpoint: api_endpoint.clone(),
                language_code: language_code.clone(),
            },
            SourceAdministration::Remove { wiki_id } => SourceAdministration::Remove {
                wiki_id: *wiki_id,
            },
        }
    }
}

/// Successful result of one source-administration operation.
#[derive(Clone, Debug, PartialEq, Eq)]
pub enum SourceAdministrationOutcome {
    /// A source was registered or an identical endpoint was already registered.
    Added {
        /// Durable source identity.
        wiki_id: WikiId,
        /// Durable endpoint (which may predate an idempotent repeated request).
        api_endpoint: String,
        /// Durable language code (which may predate an idempotent repeated request).
        language_code: String,
        /// True only when this request created the durable registration.
        created: bool,
    },
    /// An unused source registration was removed.
    Removed { wiki_id: WikiId },
}

/// Plain view of a source outcome.
pub enum SourceOutcomeView {
    Added { wiki_id: u64, api_endpoint: Seq<char>, language_code: Seq<char>, created: bool },
    Removed { wiki_id: u64 },
}

impl View for SourceAdministrationOutcome {
    type V = SourceOutcomeView;

    open spec fn view(&self) -> SourceOutcomeView {
        match self {
            SourceAdministrationOutcome::Added {
                wiki_id,
                api_endpoint,
                language_code,
                created,
            } => SourceOutcomeView::Added {
                wiki_id: wiki_id@,
                api_endpoint: api_endpoint@,
                language_code: language_code@,
                created: *created,
            },
            SourceAdministrationOutcome::Removed { wiki_id } => SourceOutcomeView::Removed {
                wiki_id: wiki_id@,
            },
        }
    }
}

/// The refusal of a field that is too long.
pub open spec fn text_bound_message(field: Seq<char>, size: nat, maximum: usize) -> Seq<char> {
    field + " is "@ + decimal(size) + " bytes; maximum is "@ + decimal(maximum as nat)
}

/// Refuses a field above its ceiling.
pub fn validate_text_bound(field: &str, value: &str, maximum: usize) -> (r: Result<
    (),
    OperationError,
>)
    ensures
        match r {
            Ok(()) => text_bytes(value@) <= maximum,
            Err(error) => text_bytes(value@) > maximum && error@ == failure(
                text_bound_message(field@, text_bytes(value@), maximum),
            ),
        },
{
    let size: usize = byte_len(value);
    if size > maximum {
        let message = String::from_str(field).concat(" is ").concat(
            decimal_text(size as u64).as_str(),
        ).concat(" bytes; maximum is ").concat(decimal_text(maximum as u64).as_str());
        Err(OperationError::failed(message.as_str()))
    } else {
        Ok(())
    }
}

/// Some character of a text is a control character.
pub open spec fn has_control(text: Seq<char>) -> bool {
    exists|i: int| 0 <= i < text.len() && is_control_spec(#[trigger] text[i])
}

/// The first thing wrong with a registration, apart from the endpoint policy.
pub open spec fn registration_error(api_endpoint: Seq<char>, language_code: Seq<char>) -> Option<
    Seq<char>,
> {
    if text_bytes(api_endpoint) > MAX_SOURCE_API_ENDPOINT_BYTES {
        Some(
            text_bound_message(
                "source API endpoint"@,
                text_bytes(api_endpoint),
                MAX_SOURCE_API_ENDPOINT_BYTES,
            ),
        )
    } else if text_bytes(language_code) > MAX_SOURCE_LANGUAGE_CODE_BYTES {
        Some(
            text_bound_message(
                "source language code"@,
                text_bytes(language_code),
                MAX_SOURCE_LANGUAGE_CODE_BYTES,
            ),
        )
    } else if trimmed(api_endpoint).len() == 0 || trimmed(language_code).len() == 0 {
        Some("source API endpoint and language code must be non-empty"@)
    } else if has_control(language_code) {
        Some("source language code must not contain control characters"@)
    } else {
        None
    }
}

fn contains_control(text: &str) -> (b: bool)
    ensures
        b == has_control(text@),
{
    let chars = chars_of(text);
    let mut i: usize = 0;
    while i < chars.len()
        invariant
            i <= chars@.len(),
            chars@ == text@,
            forall|k: int| 0 <= k < i ==> !is_control_spec(#[trigger] text@[k]),
        decreases chars@.len() - i,
    {
        if is_control(chars[i]) {
            assert(is_control_spec(text@[i as int]));
            return true;
        }
        i = i + 1;
    }
    false
}

/// Checks the bounds and the shape of a registration.
pub fn validate_registration(api_endpoint: &str, language_code: &str) -> (r: Result<
    (),
    OperationError,
>)
    ensures
        match r {
            Ok(()) => registration_error(api_endpoint@, language_code@) is None,
            Err(error) => registration_error(api_endpoint@, language_code@) is Some && error@
                == failure(registration_error(api_endpoint@, language_code@)->0),
        },
{
    validate_text_bound("source API endpoint", api_endpoint, MAX_SOURCE_API_ENDPOINT_BYTES)?;
    validate_text_bound("source language code", language_code, MAX_SOURCE_LANGUAGE_CODE_BYTES)?;
    if trim(api_endpoint).as_str().is_empty() || trim(language_code).as_str().is_empty() {
        return Err(
            OperationError::failed("source API endpoint and language code must be non-empty"),
        );
    }
    if contains_control(language_code) {
        return Err(
            OperationError::failed("source language code must not contain control characters"),
        );
    }
    Ok(())
}

/// A registration that has passed its own checks.
#[derive(Debug, PartialEq, Eq)]
pub struct PendingSource {
    pub api_endpoint: String,
    pub language_code: String,
    /// The User-Agent under which the endpoint would be contacted.
    pub user_agent: String,
}

/// A registration that the store may make.
#[derive(Debug, PartialEq, Eq)]
pub struct PendingRegistration {
    pub api_endpoint: String,
    pub language_code: String,
    /// The endpoint was registered before.
    pub existed: bool,
}

/// What is to be done next for a source operation.
#[derive(Debug, PartialEq, Eq)]
pub enum SourceStep {
    /// The operation is answered.
    Finished(Result<SourceAdministrationOutcome, OperationError>),
    /// Hold the endpoint against the policy of the network client.
    CheckEndpoint(PendingSource),
    /// Read the registered endpoints.
    ReadSources(PendingSource),
    /// Register the source.
    Register(PendingRegistration),
    /// Read the registration back.
    ReadBack { wiki_id: WikiId, existed: bool },
    /// Remove the source.
    Remove { wiki_id: WikiId },
}

/// Plain view of a registration that has passed its own checks.
pub struct PendingSourceView {
    pub api_endpoint: Seq<char>,
    pub language_code: Seq<char>,
    pub user_agent: Seq<char>,
}

/// Plain view of a step.
pub enum SourceStepView {
    Finished(Result<SourceOutcomeView, FailureView>),
    CheckEndpoint(PendingSourceView),
    ReadSources(PendingSourceView),
    Register { api_endpoint: Seq<char>, language_code: Seq<char>, existed: bool },
    ReadBack { wiki_id: u64, existed: bool },
    Remove { wiki_id: u64 },
}

impl View for PendingSource {
    type V = PendingSourceView;

    open spec fn view(&self) -> PendingSourceView {
        PendingSourceView {
            api_endpoint: self.api_endpoint@,
            language_code: self.language_code@,
            user_agent: self.user_agent@,
        }
    }
}

/// The view of a finished source operation.
pub open spec fn source_answer(
    answer: Result<SourceAdministrationOutcome, OperationError>,
) -> Result<SourceOutcomeView, FailureView> {
    match answer {
        Ok(outcome) => Ok(outcome@),
        Err(error) => Err(error@),
    }
}

impl View for SourceStep {
    type V = SourceStepView;

    open spec fn view(&self) -> SourceStepView {
        match self {
            SourceStep::Finished(answer) => SourceStepView::Finished(source_answer(*answer)),
            SourceStep::CheckEndpoint(pending) => SourceStepView::CheckEndpoint(pending@),
            SourceStep::ReadSources(pending) => SourceStepView::ReadSources(pending@),
            SourceStep::Register(pending) => SourceStepView::Register {
                api_endpoint: pending.api_endpoint@,
                language_code: pending.language_code@,
                existed: pending.existed,
            },
            SourceStep::ReadBack { wiki_id, existed } => SourceStepView::ReadBack {
                wiki_id: wiki_id@,
                existed: *existed,
            },
            SourceStep::Remove { wiki_id } => SourceStepView::Remove { wiki_id: wiki_id@ },
        }
    }
}

pub open spec fn source_failed(message: Seq<char>) -> SourceStepView {
    SourceStepView::Finished(Err(failure(message)))
}

/// The first step of a source operation.
pub open spec fn first_source_step(
    administration: SourceView,
    contact: ConfiguredContact,
) -> SourceStepView {
    match administration {
        SourceView::Add { api_endpoint, language_code } => match registration_error(
            api_endpoint,
            language_code,
        ) {
            Some(message) => source_failed(message),
            None => match configured_user_agent(contact) {
                Err(error) => source_failed(error.text()),
                Ok(user_agent) => SourceStepView::CheckEndpoint(
                    PendingSourceView { api_endpoint, language_code, user_agent },
                ),
            },
        },
        SourceView::Remove { wiki_id } => SourceStepView::Remove { wiki_id },
    }
}

/// Starts a source operation while the caller holds writer ownership.
///
/// Daemon dispatch takes the same steps, so endpoint policy, bounds, idempotence, and safe
/// removal cannot diverge between direct and forwarded paths.
pub fn administer_source_direct(
    administration: SourceAdministration,
    contact: &ConfiguredContact,
) -> (step: SourceStep)
    ensures
        step@ == first_source_step(administration@, *contact),
{
    match administration {
        SourceAdministration::Add { api_endpoint, language_code } => {
            if let Err(error) = validate_registration(
                api_endpoint.as_str(),
                language_code.as_str(),
            ) {
                return SourceStep::Finished(Err(error));
            }
            match application_user_agent(contact) {
                Err(error) => SourceStep::Finished(Err(OperationError::failed(error.message()))),
                Ok(user_agent) => SourceStep::CheckEndpoint(
                    PendingSource { api_endpoint, language_code, user_agent },
                ),
            }
        },
        SourceAdministration::Remove { wiki_id } => SourceStep::Remove { wiki_id },
    }
}

/// The texts of a list of strings.
pub open spec fn string_texts(texts: Seq<String>) -> Seq<Seq<char>> {
    texts.map_values(|text: String| text@)
}

fn contains_text(texts: &Vec<String>, text: &str) -> (b: bool)
    ensures
        b == string_texts(texts@).contains(text@),
{
    let mut i: usize = 0;
    while i < texts.len()
        invariant
            i <= texts@.len(),
            forall|k: int| 0 <= k < i ==> #[trigger] string_texts(texts@)[k] != text@,
        decreases texts@.len() - i,
    {
        if same_text(texts[i].as_str(), text) {
            assert(string_texts(texts@)[i as int] == text@);
            return true;
        }
        i = i + 1;
    }
    false
}

/// The step after the network client judged the endpoint.
pub open spec fn after_policy(
    pending: PendingSourceView,
    policy: Result<(), Seq<char>>,
) -> SourceStepView {
    match policy {
        Ok(_) => SourceStepView::ReadSources(pending),
        Err(message) => source_failed(message),
    }
}

/// The step after the registered endpoints were read.
pub open spec fn after_sources(
    pending: PendingSourceView,
    endpoints: Result<Seq<Seq<char>>, Seq<char>>,
) -> SourceStepView {
    match endpoints {
        Ok(endpoints) => SourceStepView::Register {
            api_endpoint: pending.api_endpoint,
            language_code: pending.language_code,
            existed: endpoints.contains(pending.api_endpoint),
        },
        Err(message) => source_failed(message),
    }
}

/// The step after the store gave an identity.
pub open spec fn after_registration(
    existed: bool,
    wiki_id: Result<u64, Seq<char>>,
) -> SourceStepView {
    match wiki_id {
        Ok(wiki_id) => SourceStepView::ReadBack { wiki_id, existed },
        Err(message) => source_failed(message),
    }
}

impl PendingSource {
    /// Continues with what the network client says of the endpoint.
    pub fn with_policy(self, policy: Result<(), String>) -> (step: SourceStep)
        ensures
            step@ == after_policy(
                self@,
                match policy {
                    Ok(()) => Ok(()),
                    Err(message) => Err(message@),
                },
            ),
    {
        match policy {
            Ok(()) => SourceStep::ReadSources(self),
            Err(message) => SourceStep::Finished(Err(OperationError::failed(message.as_str()))),
        }
    }

    /// Continues with the endpoints registered before.
    pub fn with_sources(self, endpoints: Result<Vec<String>, String>) -> (step: SourceStep)
        ensures
            step@ == after_sources(
                self@,
                match endpoints {
                    Ok(endpoints) => Ok(string_texts(endpoints@)),
                    Err(message) => Err(message@),
                },
            ),
    {
        match endpoints {
            Ok(endpoints) => {
                let existed: bool = contains_text(&endpoints, self.api_endpoint.as_str());
                SourceStep::Register(
                    PendingRegistration {
                        api_endpoint: self.api_endpoint,
                        language_code: self.language_code,
                        existed,
                    },
                )
            },
            Err(message) => SourceStep::Finished(Err(OperationError::failed(message.as_str()))),
        }
    }
}

impl PendingRegistration {
    /// Continues with the identity that the store gave.
    pub fn registered(self, wiki_id: Result<WikiId, String>) -> (step: SourceStep)
        ensures
            step@ == after_registration(
                self.existed,
                match wiki_id {
                    Ok(wiki_id) => Ok(wiki_id@),
                    Err(message) => Err(message@),
                },
            ),
    {
        match wiki_id {
            Ok(wiki_id) => SourceStep::ReadBack { wiki_id, existed: self.existed },
            Err(message) => SourceStep::Finished(Err(OperationError::failed(message.as_str()))),
        }
    }
}

/// A source as the store holds it.
#[derive(Debug, PartialEq, Eq)]
pub struct StoredSource {
    pub api_endpoint: String,
    pub language_code: String,
}

/// Plain view of a source as the store holds it.
pub struct StoredSourceView {
    pub api_endpoint: Seq<char>,
    pub language_code: Seq<char>,
}

impl View for StoredSource {
    type V = StoredSourceView;

    open spec fn view(&self) -> StoredSourceView {
        StoredSourceView {
            api_endpoint: self.api_endpoint@,
            language_code: self.language_code@,
        }
    }
}

/// The answer to a registration, from what was read back.
pub open spec fn registration_answer(
    wiki_id: u64,
    existed: bool,
    stored: Result<Option<StoredSourceView>, Seq<char>>,
) -> Result<SourceOutcomeView, FailureView> {
    match stored {
        Ok(Some(stored)) => Ok(
            SourceOutcomeView::Added {
                wiki_id,
                api_endpoint: stored.api_endpoint,
                language_code: stored.language_code,
                created: !existed,
            },
        ),
        Ok(None) => Err(failure("registered source could not be read back"@)),
        Err(message) => Err(failure(message)),
    }
}

/// Answers a registration with what was read back.
pub fn finish_registration(
    wiki_id: WikiId,
    existed: bool,
    stored: Result<Option<StoredSource>, String>,
) -> (r: Result<SourceAdministrationOutcome, OperationError>)
    ensures
        source_answer(r) == registration_answer(
            wiki_id@,
            existed,
            match stored {
                Ok(Some(stored)) => Ok(Some(stored@)),
                Ok(None) => Ok(None),
                Err(message) => Err(message@),
            },
        ),
{
    match stored {
        Ok(Some(stored)) => Ok(
            SourceAdministrationOutcome::Added {
                wiki_id,
                api_endpoint: stored.api_endpoint,
                language_code: stored.language_code,
                created: !existed,
            },
        ),
        Ok(None) => Err(OperationError::failed("registered source could not be read back")),
        Err(message) => Err(OperationError::failed(message.as_str())),
    }
}

/// Answers a removal with what the store said.
pub fn finish_source_removal(wiki_id: WikiId, removed: Result<(), String>) -> (r: Result<
    SourceAdministrationOutcome,
    OperationError,
>)
    ensures
        source_answer(r) == (match removed {
            Ok(()) => Ok::<SourceOutcomeView, FailureView>(
                SourceOutcomeView::Removed { wiki_id: wiki_id@ },
            ),
            Err(message) => Err::<SourceOutcomeView, FailureView>(failure(message@)),
        }),
{
    match removed {
        Ok(()) => Ok(SourceAdministrationOutcome::Removed { wiki_id }),
        Err(message) => Err(OperationError::failed(message.as_str())),
    }
}

/// An invalid registration reaches neither the network client nor the store.
pub proof fn law_invalid_registration_is_refused_first(
    api_endpoint: Seq<char>,
    language_code: Seq<char>,
    contact: ConfiguredContact,
)
    ensures
        ({
            let step = first_source_step(SourceView::Add { api_endpoint, language_code }, contact);
            &&& registration_error(api_endpoint, language_code) matches Some(message) ==> step
                == source_failed(message)
            &&& step is CheckEndpoint ==> registration_error(api_endpoint, language_code) is None
                && text_bytes(api_endpoint) <= MAX_SOURCE_API_ENDPOINT_BYTES && text_bytes(
                language_code,
            ) <= MAX_SOURCE_LANGUAGE_CODE_BYTES
            &&& step is CheckEndpoint || step is Finished
        }),
{
}

/// What the network client and the store say during a registration.
pub struct RegistrationReplies {
    pub policy: Result<(), Seq<char>>,
    pub endpoints: Result<Seq<Seq<char>>, Seq<char>>,
    pub wiki_id: Result<u64, Seq<char>>,
    pub stored: Result<Option<StoredSourceView>, Seq<char>>,
}

/// The answer that a step comes to, each further step taken from the replies.
pub open spec fn answer_from(
    step: SourceStepView,
    replies: RegistrationReplies,
    steps: nat,
) -> Option<Result<SourceOutcomeView, FailureView>>
    decreases steps,
{
    if steps == 0 {
        None
    } else {
        let left = (steps - 1) as nat;
        match step {
            SourceStepView::Finished(answer) => Some(answer),
            SourceStepView::CheckEndpoint(pending) => answer_from(
                after_policy(pending, replies.policy),
                replies,
                left,
            ),
            SourceStepView::ReadSources(pending) => answer_from(
                after_sources(pending, replies.endpoints),
                replies,
                left,
            ),
            SourceStepView::Register { api_endpoint, language_code, existed } => answer_from(
                after_registration(existed, replies.wiki_id),
                replies,
                left,
            ),
            SourceStepView::ReadBack { wiki_id, existed } => Some(
                registration_answer(wiki_id, existed, replies.stored),
            ),
            SourceStepView::Remove { wiki_id } => None,
        }
    }
}

/// The answer to a registration, from its first step to its last.
pub open spec fn registration_run(
    api_endpoint: Seq<char>,
    language_code: Seq<char>,
    contact: ConfiguredContact,
    replies: RegistrationReplies,
) -> Option<Result<SourceOutcomeView, FailureView>> {
    answer_from(
        first_source_step(SourceView::Add { api_endpoint, language_code }, contact),
        replies,
        5,
    )
}

/// A valid registration that nobody refuses is answered with the identity that the store
/// gave and with the endpoint and language that it holds. It counts as created exactly when
/// the endpoint was not among those read.
pub proof fn law_registration_tells_what_is_stored(
    api_endpoint: Seq<char>,
    language_code: Seq<char>,
    contact: ConfiguredContact,
    endpoints: Seq<Seq<char>>,
    wiki_id: u64,
    stored: StoredSourceView,
)
    requires
        registration_error(api_endpoint, language_code) is None,
        configured_user_agent(contact) is Ok,
    ensures
        registration_run(
            api_endpoint,
            language_code,
            contact,
            RegistrationReplies {
                policy: Ok(()),
                endpoints: Ok(endpoints),
                wiki_id: Ok(wiki_id),
                stored: Ok(Some(stored)),
            },
        ) == Some(
            Ok::<SourceOutcomeView, FailureView>(
                SourceOutcomeView::Added {
                    wiki_id,
                    api_endpoint: stored.api_endpoint,
                    language_code: stored.language_code,
                    created: !endpoints.contains(api_endpoint),
                },
            ),
        ),
{
    reveal_with_fuel(answer_from, 6);
}

/// Some source of a registry has the endpoint.
pub open spec fn is_registered(
    registry: Map<u64, StoredSourceView>,
    api_endpoint: Seq<char>,
) -> bool {
    exists|wiki_id: u64| #[trigger]
        registry.dom().contains(wiki_id) && registry[wiki_id].api_endpoint == api_endpoint
}

/// The endpoints of a registry, in some order.
pub open spec fn lists_endpoints(
    registry: Map<u64, StoredSourceView>,
    endpoints: Seq<Seq<char>>,
) -> bool {
    forall|api_endpoint: Seq<char>| #[trigger]
        endpoints.contains(api_endpoint) == is_registered(registry, api_endpoint)
}

/// A store takes a registration: a known endpoint keeps its identity and its record, another
/// one gets a record under a new identity.
pub open spec fn store_registers(
    before: Map<u64, StoredSourceView>,
    api_endpoint: Seq<char>,
    language_code: Seq<char>,
    after: Map<u64, StoredSourceView>,
    wiki_id: u64,
) -> bool {
    if is_registered(before, api_endpoint) {
        &&& after == before
        &&& before.dom().contains(wiki_id)
        &&& before[wiki_id].api_endpoint == api_endpoint
    } else {
        &&& !before.dom().contains(wiki_id)
        &&& after == before.insert(wiki_id, StoredSourceView { api_endpoint, language_code })
    }
}

/// The answer to a registration with a store that listed these endpoints, gave this identity
/// and then holds `after`.
pub open spec fn registration_against(
    api_endpoint: Seq<char>,
    language_code: Seq<char>,
    contact: ConfiguredContact,
    endpoints: Seq<Seq<char>>,
    after: Map<u64, StoredSourceView>,
    wiki_id: u64,
) -> Option<Result<SourceOutcomeView, FailureView>> {
    registration_run(
        api_endpoint,
        language_code,
        contact,
        RegistrationReplies {
            policy: Ok(()),
            endpoints: Ok(endpoints),
            wiki_id: Ok(wiki_id),
            stored: Ok(
                if after.dom().contains(wiki_id) {
                    Some(after[wiki_id])
                } else {
                    None
                },
            ),
        },
    )
}

/// Registering an endpoint again, under whatever language, creates nothing: the registry
/// stays as it was, and the answer gives the identity and the language of the first time.
pub proof fn law_repeated_registration_changes_nothing(
    api_endpoint: Seq<char>,
    first_language: Seq<char>,
    second_language: Seq<char>,
    contact: ConfiguredContact,
    registries: (Map<u64, StoredSourceView>, Map<u64, StoredSourceView>, Map<u64, StoredSourceView>),
    endpoints: (Seq<Seq<char>>, Seq<Seq<char>>),
    identities: (u64, u64),
)
    requires
        configured_user_agent(contact) is Ok,
        registration_error(api_endpoint, first_language) is None,
        registration_error(api_endpoint, second_language) is None,
        !is_registered(registries.0, api_endpoint),
        lists_endpoints(registries.0, endpoints.0),
        lists_endpoints(registries.1, endpoints.1),
        store_registers(
            registries.0,
            api_endpoint,
            first_language,
            registries.1,
            identities.0,
        ),
        store_registers(
            registries.1,
            api_endpoint,
            second_language,
            registries.2,
            identities.1,
        ),
    ensures
        registration_against(
            api_endpoint,
            first_language,
            contact,
            endpoints.0,
            registries.1,
            identities.0,
        ) == Some(
            Ok::<SourceOutcomeView, FailureView>(
                SourceOutcomeView::Added {
                    wiki_id: identities.0,
                    api_endpoint,
                    language_code: first_language,
                    created: true,
                },
            ),
        ),
        registration_against(
            api_endpoint,
            second_language,
            contact,
            endpoints.1,
            registries.2,
            identities.1,
        ) == Some(
            Ok::<SourceOutcomeView, FailureView>(
                SourceOutcomeView::Added {
                    wiki_id: identities.0,
                    api_endpoint,
                    language_code: first_language,
                    created: false,
                },
            ),
        ),
        registries.2 == registries.1,
{
    let record = StoredSourceView { api_endpoint, language_code: first_language };
    let first = identities.0;
    let second = identities.1;
    assert(registries.1.dom().contains(first) && registries.1[first] == record);
    assert(is_registered(registries.1, api_endpoint));
    assert(endpoints.0.contains(api_endpoint) == is_registered(registries.0, api_endpoint));
    assert(endpoints.1.contains(api_endpoint) == is_registered(registries.1, api_endpoint));
    assert(second == first) by {
        if second != first {
            assert(registries.0.dom().contains(second));
            assert(registries.0[second].api_endpoint == api_endpoint);
            assert(is_registered(registries.0, api_endpoint));
        }
    }
    law_registration_tells_what_is_stored(
        api_endpoint,
        first_language,
        contact,
        endpoints.0,
        first,
        record,
    );
    law_registration_tells_what_is_stored(
        api_endpoint,
        second_language,
        contact,
        endpoints.1,
        second,
        record,
    );
}

/// A registration passes exactly when endpoint and language fit their bounds, neither is blank,
/// and the language holds no control character.
pub proof fn law_registrations_are_bounded_and_plain(
    api_endpoint: &str,
    language_code: &str,
    r: Result<(), OperationError>,
)
    requires
        call_ensures(validate_registration, (api_endpoint, language_code), r),
    ensures
        r is Ok <==> {
            &&& encode_utf8(api_endpoint@).len() <= 4_096
            &&& encode_utf8(language_code@).len() <= 64
            &&& exists|i: int|
                0 <= i < api_endpoint@.len() && !is_white_space_spec(#[trigger] api_endpoint@[i])
            &&& exists|i: int|
                0 <= i < language_code@.len() && !is_white_space_spec(#[trigger] language_code@[i])
            &&& forall|i: int|
                0 <= i < language_code@.len() ==> ' ' <= #[trigger] language_code@[i] && !('~'
                    < language_code@[i] && language_code@[i] < '\u{a0}')
        },
        r matches Err(error) ==> error@.code == ErrorCode::OperationFailed,
{
    law_only_white_space_trims_to_nothing(api_endpoint@);
    law_only_white_space_trims_to_nothing(language_code@);
    let plain = |c: char| ' ' <= c && !('~' < c && c < '\u{a0}');
    assert forall|i: int| 0 <= i < language_code@.len() implies plain(#[trigger] language_code@[i])
        == !is_control_spec(language_code@[i]) by {
        lemma_control(language_code@[i]);
    }
    if !has_control(language_code@) {
        assert forall|i: int| 0 <= i < language_code@.len() implies plain(
            #[trigger] language_code@[i],
        ) by {
            assert(!is_control_spec(language_code@[i]));
        }
    } else {
        let i = choose|i: int|
            0 <= i < language_code@.len() && is_control_spec(#[trigger] language_code@[i]);
        assert(!plain(language_code@[i]));
    }
}

/// A registration goes on, unchanged, to the endpoint policy if it is valid and the operator can
/// be named; a removal needs neither.
pub proof fn law_source_operations_start_unchanged(
    administration: SourceAdministration,
    contact: ConfiguredContact,
    step: SourceStep,
    user_agent: Result<String, UserAgentConfigError>,
)
    requires
        call_ensures(administer_source_direct, (administration, &contact), step),
        call_ensures(application_user_agent, (&contact,), user_agent),
    ensures
        administration matches SourceAdministration::Add { api_endpoint, language_code } ==> {
            &&& step@ matches SourceStepView::CheckEndpoint(pending) ==> pending.api_endpoint
                == api_endpoint@ && pending.language_code == language_code@ && user_agent is Ok
                && pending.user_agent == user_agent->Ok_0@
            &&& step@ is CheckEndpoint || (step@ matches SourceStepView::Finished(Err(_)))
            &&& user_agent is Err ==> (step@ matches SourceStepView::Finished(Err(_)))
        },
        administration matches SourceAdministration::Remove { wiki_id } ==> step@
            == (SourceStepView::Remove { wiki_id: wiki_id@ }),
{
}

/// Only what the endpoint policy accepts is registered, as it was asked for. The registration
/// is known to have existed exactly when its endpoint is among those read before.
pub proof fn law_only_accepted_endpoints_are_registered(
    pending: PendingSource,
    policy: Result<(), String>,
    endpoints: Result<Vec<String>, String>,
    judged: SourceStep,
    listed: SourceStep,
)
    requires
        call_ensures(PendingSource::with_policy, (pending, policy), judged),
        call_ensures(PendingSource::with_sources, (pending, endpoints), listed),
    ensures
        judged@ is ReadSources <==> policy is Ok,
        judged@ matches SourceStepView::ReadSources(kept) ==> kept == pending@,
        policy matches Err(message) ==> (judged@ matches SourceStepView::Finished(Err(error))
            && error.message == message@),
        listed@ is Register <==> endpoints is Ok,
        listed@ matches SourceStepView::Register { api_endpoint, language_code, existed } ==> {
            &&& api_endpoint == pending.api_endpoint@
            &&& language_code == pending.language_code@
            &&& existed <==> exists|i: int|
                0 <= i < endpoints->Ok_0@.len() && (#[trigger] endpoints->Ok_0@[i])@
                    == pending.api_endpoint@
        },
        endpoints matches Err(message) ==> (listed@ matches SourceStepView::Finished(Err(error))
            && error.message == message@),
{
    if let Ok(list) = endpoints {
        let texts = string_texts(list@);
        if texts.contains(pending.api_endpoint@) {
            let i = texts.index_of(pending.api_endpoint@);
            assert(list@[i]@ == pending.api_endpoint@);
        }
        assert forall|i: int|
            0 <= i < list@.len() && (#[trigger] list@[i])@
                == pending.api_endpoint@ implies texts.contains(pending.api_endpoint@) by {
            assert(texts[i] == pending.api_endpoint@);
        }
    }
}

/// The answer to a registration or removal is what the store holds or says: a source is new
/// exactly when it did not exist before.
pub proof fn law_source_answers_come_from_the_store(
    wiki_id: WikiId,
    existed: bool,
    stored: Result<Option<StoredSource>, String>,
    removed: Result<(), String>,
    added: Result<SourceAdministrationOutcome, OperationError>,
    gone: Result<SourceAdministrationOutcome, OperationError>,
)
    requires
        call_ensures(finish_registration, (wiki_id, existed, stored), added),
        call_ensures(finish_source_removal, (wiki_id, removed), gone),
    ensures
        added is Ok <==> (stored matches Ok(found) && found is Some),
        stored matches Ok(Some(source)) ==> (added->Ok_0@ matches SourceOutcomeView::Added {
            wiki_id: told,
            api_endpoint,
            language_code,
            created,
        } && told == wiki_id@ && api_endpoint == source.api_endpoint@ && language_code
            == source.language_code@ && created != existed),
        gone is Ok <==> removed is Ok,
        gone matches Ok(outcome) ==> outcome@ == (SourceOutcomeView::Removed { wiki_id: wiki_id@ }),
        removed matches Err(message) ==> gone->Err_0@.message == message@,
{
}

/// A text is within its bound exactly when its bytes are no more than allowed, and the refusal
/// names the field, its size and the bound.
pub proof fn law_text_bounds_count_bytes(
    field: &str,
    value: &str,
    maximum: usize,
    r: Result<(), OperationError>,
)
    requires
        call_ensures(validate_text_bound, (field, value, maximum), r),
    ensures
        r is Ok <==> encode_utf8(value@).len() <= maximum,
        r matches Err(error) ==> error@.code is OperationFailed && error@.message == field@
            + " is "@ + decimal(encode_utf8(value@).len()) + " bytes; maximum is "@ + decimal(
            maximum as nat,
        ),
{
}

} // verus!
