//! Creating a collection from the desktop: register its source, commit its preview, save
//! its schedule and synchronize it, directly or through a daemon.

use vstd::prelude::*;
use vstd::string::*;

use crate::administration::{AdministrationView, CollectionAdministration};
use crate::collection::{CollectionAdministrationOutcome, CollectionDraft, DraftView};
use crate::forms::ScheduleSettings;
use crate::model::{
    BudgetView, CollectionBudget, CollectionId, CollectionRemovalPolicy, CollectionSelectionPreview,
    HistoryPolicy, HistoryView, ImagePolicy, ImageView, PreviewView, WikiId,
};
use crate::source::{SourceAdministration, SourceAdministrationOutcome, SourceView};
use crate::stored::{SettingsView, StoredWiki};
use crate::text::{decimal, decimal_text, holds_text, lemma_holds_text, same_text};

verus! {

/// Everything that a new collection is made of.
#[derive(Debug, PartialEq, Eq)]
pub struct CreateCollectionRequest {
    pub library_path: String,
    pub name: String,
    pub language_code: String,
    pub api_endpoint: String,
    pub preview: CollectionSelectionPreview,
    pub history_policy: HistoryPolicy,
    pub budget: CollectionBudget,
    pub removal_policy: CollectionRemovalPolicy,
    pub image_policy: ImagePolicy,
    pub schedule: ScheduleSettings,
}

/// Plain view of a creation request.
pub struct CreateView {
    pub library_path: Seq<char>,
    pub name: Seq<char>,
    pub language_code: Seq<char>,
    pub api_endpoint: Seq<char>,
    pub preview: PreviewView,
    pub history_policy: HistoryView,
    pub budget: BudgetView,
    pub removal_policy: CollectionRemovalPolicy,
    pub image_policy: ImageView,
    pub schedule: SettingsView,
}

impl View for CreateCollectionRequest {
    type V = CreateView;

    open spec fn view(&self) -> CreateView {
        CreateView {
            library_path: self.library_path@,
            name: self.name@,
            language_code: self.language_code@,
            api_endpoint: self.api_endpoint@,
            preview: self.preview@,
            history_policy: self.history_policy@,
            budget: self.budget@,
            removal_policy: self.removal_policy,
            image_policy: self.image_policy@,
            schedule: self.schedule@,
        }
    }
}

/// Who writes to the library.
#[derive(Clone, Copy, Debug, PartialEq, Eq, Structural)]
pub enum Route {
    /// This process, under the writer lease.
    Direct,
    /// A daemon.
    Daemon,
}

/// Where a creation stands: it waits for the event of its last action.
#[derive(Clone, Copy, Debug, PartialEq, Eq, Structural)]
pub enum CreationPhase {
    Access,
    Endpoint { route: Route },
    Source { route: Route },
    Collection { route: Route, wiki_id: WikiId, source_created: bool },
    Schedule { route: Route, collection_id: CollectionId },
    Synchronization { route: Route, collection_id: CollectionId },
}

/// What happened outside.
#[derive(Debug, PartialEq, Eq)]
pub enum CreationEvent {
    /// Writer access was discovered.
    Access(Result<Route, String>),
    /// The endpoint was checked against the network policy; the sources are those that
    /// were read.
    Endpoint(Result<(String, Vec<StoredWiki>), String>),
    Source(Result<SourceAdministrationOutcome, String>),
    Collection(Result<CollectionAdministrationOutcome, String>),
    Schedule(Result<(), String>),
    Synchronization(Result<(), String>),
}

/// What to do next.
#[derive(Debug, PartialEq, Eq)]
pub enum CreationStep {
    DiscoverAccess { next: CreationPhase },
    /// Make the endpoint canonical under the network policy. The flags say whether a metered
    /// network stops the creation here, and whether the known sources are to be read.
    CheckEndpoint { avoid_metered: bool, read_sources: bool, next: CreationPhase },
    AdministerSource { administration: SourceAdministration, next: CreationPhase },
    AdministerCollection { administration: CollectionAdministration, next: CreationPhase },
    SaveSchedule { collection_id: CollectionId, next: CreationPhase },
    Synchronize { collection_id: CollectionId, next: CreationPhase },
    /// Everything is done; read the library again.
    ReadSnapshot,
    Fail(String),
}

/// Plain view of a step.
pub enum CreationStepView {
    DiscoverAccess { next: CreationPhase },
    CheckEndpoint { avoid_metered: bool, read_sources: bool, next: CreationPhase },
    AdministerSource { administration: SourceView, next: CreationPhase },
    AdministerCollection { administration: AdministrationView, next: CreationPhase },
    SaveSchedule { collection_id: u64, next: CreationPhase },
    Synchronize { collection_id: u64, next: CreationPhase },
    ReadSnapshot,
    Fail(Seq<char>),
}

impl View for CreationStep {
    type V = CreationStepView;

    open spec fn view(&self) -> CreationStepView {
        match self {
            CreationStep::DiscoverAccess { next } => CreationStepView::DiscoverAccess {
                next: *next,
            },
            CreationStep::CheckEndpoint { avoid_metered, read_sources, next } =>
                CreationStepView::CheckEndpoint {
                avoid_metered: *avoid_metered,
                read_sources: *read_sources,
                next: *next,
            },
            CreationStep::AdministerSource { administration, next } =>
                CreationStepView::AdministerSource { administration: administration@, next: *next },
            CreationStep::AdministerCollection { administration, next } =>
                CreationStepView::AdministerCollection {
                administration: administration@,
                next: *next,
            },
            CreationStep::SaveSchedule { collection_id, next } => CreationStepView::SaveSchedule {
                collection_id: collection_id@,
                next: *next,
            },
            CreationStep::Synchronize { collection_id, next } => CreationStepView::Synchronize {
                collection_id: collection_id@,
                next: *next,
            },
            CreationStep::ReadSnapshot => CreationStepView::ReadSnapshot,
            CreationStep::Fail(message) => CreationStepView::Fail(message@),
        }
    }
}

/// The draft of a creation.
pub open spec fn creation_draft(request: CreateView, wiki_id: u64) -> DraftView {
    DraftView {
        wiki_id,
        name: request.name,
        preview: request.preview,
        history_policy: request.history_policy,
        budget: request.budget,
        removal_policy: request.removal_policy,
    }
}

/// The draft of a new collection at a source.
pub fn create_draft(request: &CreateCollectionRequest, wiki_id: WikiId) -> (draft: CollectionDraft)
    ensures
        draft@ == creation_draft(request@, wiki_id@),
{
    CollectionDraft {
        wiki_id,
        name: request.name.clone(),
        preview: request.preview.clone(),
        history_policy: request.history_policy,
        budget: request.budget,
        removal_policy: request.removal_policy,
    }
}

/// The source that an operation added or found, and whether it is new.
pub fn added_source(outcome: SourceAdministrationOutcome) -> (r: Result<(WikiId, bool), String>)
    ensures
        match (outcome, r) {
            (
                SourceAdministrationOutcome::Added { wiki_id, api_endpoint, language_code, created },
                Ok(added),
            ) => added == (wiki_id, created),
            (SourceAdministrationOutcome::Removed { wiki_id }, Err(message)) => message@
                == "Source administration returned an unexpected result."@,
            _ => false,
        },
{
    match outcome {
        SourceAdministrationOutcome::Added { wiki_id, created, .. } => Ok((wiki_id, created)),
        SourceAdministrationOutcome::Removed { .. } => Err(
            "Source administration returned an unexpected result.".to_owned(),
        ),
    }
}

/// The collection that an operation added.
pub fn added_collection_id(outcome: CollectionAdministrationOutcome) -> (r: Result<
    CollectionId,
    String,
>)
    ensures
        match (outcome, r) {
            (
                CollectionAdministrationOutcome::Added { collection_id, estimate },
                Ok(added),
            ) => added == collection_id,
            (CollectionAdministrationOutcome::Added { collection_id, estimate }, Err(_)) => false,
            (_, Err(message)) => message@
                == "Collection administration returned an unexpected result."@,
            _ => false,
        },
{
    match outcome {
        CollectionAdministrationOutcome::Added { collection_id, .. } => Ok(collection_id),
        _ => Err("Collection administration returned an unexpected result.".to_owned()),
    }
}

/// What is said when a collection could not be added after its source was.
pub open spec fn add_failure(detail: Seq<char>, new_source: Option<WikiId>) -> Seq<char> {
    match new_source {
        Some(wiki_id) => "Source wiki "@ + decimal(wiki_id@ as nat)
            + " was registered successfully, but collection creation failed: "@ + detail
            + " The source remains configured and can be reused."@,
        None => detail,
    }
}

/// Tells about a source that stays behind when its collection could not be added.
pub fn collection_add_error(detail: &str, newly_registered_source: Option<WikiId>) -> (message:
    String)
    ensures
        message@ == add_failure(detail@, newly_registered_source),
{
    match newly_registered_source {
        Some(wiki_id) => {
            let mut message = "Source wiki ".to_owned();
            message.append(decimal_text(wiki_id.get()).as_str());
            message.append(" was registered successfully, but collection creation failed: ");
            message.append(detail);
            message.append(" The source remains configured and can be reused.");
            message
        },
        None => detail.to_owned(),
    }
}

/// The first source with this endpoint and language, counted from `i`.
pub open spec fn known_source(
    wikis: Seq<StoredWiki>,
    api_endpoint: Seq<char>,
    language_code: Seq<char>,
    i: int,
) -> Option<WikiId>
    decreases wikis.len() - i,
{
    if i < 0 || i >= wikis.len() {
        None
    } else if wikis[i].api_endpoint@ == api_endpoint && wikis[i].language_code@ == language_code {
        Some(wikis[i].wiki_id)
    } else {
        known_source(wikis, api_endpoint, language_code, i + 1)
    }
}

fn find_source(wikis: &Vec<StoredWiki>, api_endpoint: &str, language_code: &str) -> (found: Option<
    WikiId,
>)
    ensures
        found == known_source(wikis@, api_endpoint@, language_code@, 0),
{
    let mut i: usize = 0;
    while i < wikis.len()
        invariant
            i <= wikis@.len(),
            known_source(wikis@, api_endpoint@, language_code@, i as int) == known_source(
                wikis@,
                api_endpoint@,
                language_code@,
                0,
            ),
        decreases wikis@.len() - i,
    {
        if same_text(wikis[i].api_endpoint.as_str(), api_endpoint) && same_text(
            wikis[i].language_code.as_str(),
            language_code,
        ) {
            return Some(wikis[i].wiki_id);
        }
        i = i + 1;
    }
    None
}

/// The step that commits the collection at a source.
pub open spec fn commit_step(
    request: CreateView,
    route: Route,
    wiki_id: WikiId,
    source_created: bool,
) -> CreationStepView {
    CreationStepView::AdministerCollection {
        administration: AdministrationView::Add {
            draft: creation_draft(request, wiki_id@),
            image_policy: Some(request.image_policy),
        },
        next: CreationPhase::Collection { route, wiki_id, source_created },
    }
}

/// The first step of a creation.
pub open spec fn first_creation(request: CreateView) -> CreationStepView {
    if request.name.len() == 0 || request.language_code.len() == 0 || request.api_endpoint.len()
        == 0 {
        CreationStepView::Fail(
            "Collection name, language code, and API endpoint are required."@,
        )
    } else {
        CreationStepView::DiscoverAccess { next: CreationPhase::Access }
    }
}

/// What is said when the schedule of a new collection could not be saved.
pub open spec fn schedule_failure(route: Route, collection_id: u64, detail: Seq<char>) -> Seq<
    char,
> {
    match route {
        Route::Direct => detail,
        Route::Daemon => "Collection "@ + decimal(collection_id as nat)
            + " was created, but its schedule could not be saved: "@ + detail,
    }
}

/// What is said when a new collection could not be synchronized.
pub open spec fn synchronization_failure(
    route: Route,
    collection_id: u64,
    detail: Seq<char>,
) -> Seq<char> {
    match route {
        Route::Direct => detail,
        Route::Daemon => "Collection "@ + decimal(collection_id as nat)
            + " was created and scheduled, but its first synchronization did not complete: "@
            + detail,
    }
}

/// The step of a creation after an event; an event that was not awaited ends it.
pub open spec fn creation_step(
    request: CreateView,
    phase: CreationPhase,
    event: CreationEvent,
) -> CreationStepView {
    match (phase, event) {
        (CreationPhase::Access, CreationEvent::Access(access)) => match access {
            Err(message) => CreationStepView::Fail(message@),
            Ok(route) => CreationStepView::CheckEndpoint {
                avoid_metered: route == Route::Direct,
                read_sources: route == Route::Daemon,
                next: CreationPhase::Endpoint { route },
            },
        },
        (CreationPhase::Endpoint { route }, CreationEvent::Endpoint(endpoint)) => match endpoint {
            Err(message) => CreationStepView::Fail(message@),
            Ok((endpoint, wikis)) => {
                let known = known_source(wikis@, endpoint@, request.language_code, 0);
                if route == Route::Daemon && known is Some {
                    commit_step(request, route, known->0, false)
                } else {
                    CreationStepView::AdministerSource {
                        administration: SourceView::Add {
                            api_endpoint: endpoint@,
                            language_code: request.language_code,
                        },
                        next: CreationPhase::Source { route },
                    }
                }
            },
        },
        (CreationPhase::Source { route }, CreationEvent::Source(source)) => match source {
            Err(message) => CreationStepView::Fail(message@),
            Ok(SourceAdministrationOutcome::Removed { wiki_id }) => CreationStepView::Fail(
                "Source administration returned an unexpected result."@,
            ),
            Ok(
                SourceAdministrationOutcome::Added { wiki_id, api_endpoint, language_code, created },
            ) => commit_step(request, route, wiki_id, created),
        },
        (
            CreationPhase::Collection { route, wiki_id, source_created },
            CreationEvent::Collection(collection),
        ) => match collection {
            Err(message) => CreationStepView::Fail(
                add_failure(
                    message@,
                    if source_created {
                        Some(wiki_id)
                    } else {
                        None
                    },
                ),
            ),
            Ok(CollectionAdministrationOutcome::Added { collection_id, estimate }) =>
                CreationStepView::SaveSchedule {
                collection_id: collection_id@,
                next: CreationPhase::Schedule { route, collection_id },
            },
            Ok(_) => CreationStepView::Fail(
                "Collection administration returned an unexpected result."@,
            ),
        },
        (CreationPhase::Schedule { route, collection_id }, CreationEvent::Schedule(saved)) =>
            match saved {
            Err(message) => CreationStepView::Fail(
                schedule_failure(route, collection_id@, message@),
            ),
            Ok(()) => CreationStepView::Synchronize {
                collection_id: collection_id@,
                next: CreationPhase::Synchronization { route, collection_id },
            },
        },
        (
            CreationPhase::Synchronization { route, collection_id },
            CreationEvent::Synchronization(synchronized),
        ) => match synchronized {
            Err(message) => CreationStepView::Fail(
                synchronization_failure(route, collection_id@, message@),
            ),
            Ok(()) => CreationStepView::ReadSnapshot,
        },
        _ => CreationStepView::Fail("Collection creation was interrupted."@),
    }
}

/// Starts a creation.
pub fn begin_creation(request: &CreateCollectionRequest) -> (step: CreationStep)
    ensures
        step@ == first_creation(request@),
{
    if request.name.as_str().unicode_len() == 0 || request.language_code.as_str().unicode_len() == 0
        || request.api_endpoint.as_str().unicode_len() == 0 {
        CreationStep::Fail(
            "Collection name, language code, and API endpoint are required.".to_owned(),
        )
    } else {
        CreationStep::DiscoverAccess { next: CreationPhase::Access }
    }
}

fn commit(
    request: &CreateCollectionRequest,
    route: Route,
    wiki_id: WikiId,
    source_created: bool,
) -> (step: CreationStep)
    ensures
        step@ == commit_step(request@, route, wiki_id, source_created),
{
    CreationStep::AdministerCollection {
        administration: CollectionAdministration::AddWithImagePolicy {
            draft: create_draft(request, wiki_id),
            image_policy: request.image_policy,
        },
        next: CreationPhase::Collection { route, wiki_id, source_created },
    }
}

fn created_but(collection_id: CollectionId, what: &str, detail: &str) -> (message: String)
    ensures
        message@ == "Collection "@ + decimal(collection_id@ as nat) + what@ + detail@,
{
    let mut message = "Collection ".to_owned();
    message.append(decimal_text(collection_id.get()).as_str());
    message.append(what);
    message.append(detail);
    message
}

/// Carries a creation one event further.
pub fn create_collection_and_sync(
    request: &CreateCollectionRequest,
    phase: CreationPhase,
    event: CreationEvent,
) -> (step: CreationStep)
    ensures
        step@ == creation_step(request@, phase, event),
{
    match (phase, event) {
        (CreationPhase::Access, CreationEvent::Access(access)) => match access {
            Err(message) => CreationStep::Fail(message),
            Ok(route) => CreationStep::CheckEndpoint {
                avoid_metered: route == Route::Direct,
                read_sources: route == Route::Daemon,
                next: CreationPhase::Endpoint { route },
            },
        },
        (CreationPhase::Endpoint { route }, CreationEvent::Endpoint(endpoint)) => match endpoint {
            Err(message) => CreationStep::Fail(message),
            Ok((endpoint, wikis)) => {
                let known = find_source(&wikis, endpoint.as_str(), request.language_code.as_str());
                match (route, known) {
                    (Route::Daemon, Some(wiki_id)) => commit(request, route, wiki_id, false),
                    _ => CreationStep::AdministerSource {
                        administration: SourceAdministration::Add {
                            api_endpoint: endpoint,
                            language_code: request.language_code.clone(),
                        },
                        next: CreationPhase::Source { route },
                    },
                }
            },
        },
        (CreationPhase::Source { route }, CreationEvent::Source(source)) => match source {
            Err(message) => CreationStep::Fail(message),
            Ok(outcome) => match added_source(outcome) {
                Err(message) => CreationStep::Fail(message),
                Ok((wiki_id, created)) => commit(request, route, wiki_id, created),
            },
        },
        (
            CreationPhase::Collection { route, wiki_id, source_created },
            CreationEvent::Collection(collection),
        ) => match collection {
            Err(message) => CreationStep::Fail(
                collection_add_error(
                    message.as_str(),
                    if source_created {
                        Some(wiki_id)
                    } else {
                        None
                    },
                ),
            ),
            Ok(outcome) => match added_collection_id(outcome) {
                Err(message) => CreationStep::Fail(message),
                Ok(collection_id) => CreationStep::SaveSchedule {
                    collection_id,
                    next: CreationPhase::Schedule { route, collection_id },
                },
            },
        },
        (CreationPhase::Schedule { route, collection_id }, CreationEvent::Schedule(saved)) =>
            match saved {
            Err(message) => match route {
                Route::Direct => CreationStep::Fail(message),
                Route::Daemon => CreationStep::Fail(
                    created_but(
                        collection_id,
                        " was created, but its schedule could not be saved: ",
                        message.as_str(),
                    ),
                ),
            },
            Ok(()) => CreationStep::Synchronize {
                collection_id,
                next: CreationPhase::Synchronization { route, collection_id },
            },
        },
        (
            CreationPhase::Synchronization { route, collection_id },
            CreationEvent::Synchronization(synchronized),
        ) => match synchronized {
            Err(message) => match route {
                Route::Direct => CreationStep::Fail(message),
                Route::Daemon => CreationStep::Fail(
                    created_but(
                        collection_id,
                        " was created and scheduled, but its first synchronization did not complete: ",
                        message.as_str(),
                    ),
                ),
            },
            Ok(()) => CreationStep::ReadSnapshot,
        },
        _ => CreationStep::Fail("Collection creation was interrupted.".to_owned()),
    }
}

/// Whether an event reports a failure.
pub open spec fn event_failed(event: CreationEvent) -> bool {
    match event {
        CreationEvent::Access(result) => result is Err,
        CreationEvent::Endpoint(result) => result is Err,
        CreationEvent::Source(result) => result is Err,
        CreationEvent::Collection(result) => result is Err,
        CreationEvent::Schedule(result) => result is Err,
        CreationEvent::Synchronization(result) => result is Err,
    }
}

/// A failure ends a creation: nothing further is asked of the library or its source.
pub proof fn law_failed_creation_stops(
    request: CreateView,
    phase: CreationPhase,
    event: CreationEvent,
)
    requires
        event_failed(event),
    ensures
        creation_step(request, phase, event) is Fail,
{
}

/// A creation is finished only by a successful first synchronization, which is asked for
/// only after the collection was added and its schedule was saved.
pub proof fn law_creation_follows_its_order(
    request: CreateView,
    phase: CreationPhase,
    event: CreationEvent,
)
    ensures
        creation_step(request, phase, event) is ReadSnapshot ==> phase is Synchronization,
        creation_step(request, phase, event) is Synchronize ==> phase is Schedule && event
            is Schedule,
        creation_step(request, phase, event) is SaveSchedule ==> phase is Collection && event
            is Collection,
        creation_step(request, phase, event) is AdministerCollection ==> phase is Source
            || phase is Endpoint,
        creation_step(request, phase, event) is AdministerSource ==> phase is Endpoint,
{
}

/// A daemon is not asked to register a source that the library already knows.
pub proof fn law_known_sources_are_reused(
    request: CreateView,
    endpoint: String,
    wikis: Vec<StoredWiki>,
)
    requires
        known_source(wikis@, endpoint@, request.language_code, 0) is Some,
    ensures
        creation_step(
            request,
            CreationPhase::Endpoint { route: Route::Daemon },
            CreationEvent::Endpoint(Ok((endpoint, wikis))),
        ) is AdministerCollection,
{
}

/// A creation with its three texts first finds out who writes. A direct creation respects a
/// metered network; only for a daemon are the known sources read.
pub proof fn law_creation_starts_with_access(
    request: CreateCollectionRequest,
    access: Result<Route, String>,
    first: CreationStep,
    second: CreationStep,
)
    requires
        call_ensures(begin_creation, (&request,), first),
        call_ensures(
            create_collection_and_sync,
            (&request, CreationPhase::Access, CreationEvent::Access(access)),
            second,
        ),
    ensures
        first@ is DiscoverAccess <==> request.name@.len() > 0 && request.language_code@.len() > 0
            && request.api_endpoint@.len() > 0,
        first@ is DiscoverAccess || first@ is Fail,
        access matches Ok(Route::Direct) ==> (second@ matches CreationStepView::CheckEndpoint {
            avoid_metered,
            read_sources,
            next,
        } && avoid_metered && !read_sources && next == (CreationPhase::Endpoint {
            route: Route::Direct,
        })),
        access matches Ok(Route::Daemon) ==> (second@ matches CreationStepView::CheckEndpoint {
            avoid_metered,
            read_sources,
            next,
        } && !avoid_metered && read_sources && next == (CreationPhase::Endpoint {
            route: Route::Daemon,
        })),
        access matches Err(message) ==> second@ == CreationStepView::Fail(message@),
{
}

/// The collection is committed as it was requested: at the source that was found or added, with
/// its name, preview, policies and budget.
pub proof fn law_creation_commits_what_was_requested(
    request: CreateCollectionRequest,
    phase: CreationPhase,
    event: CreationEvent,
    step: CreationStep,
)
    requires
        call_ensures(create_collection_and_sync, (&request, phase, event), step),
    ensures
        step@ matches CreationStepView::AdministerCollection { administration, next } ==> (
        administration matches AdministrationView::Add { draft, image_policy } && draft.name
            == request.name@ && draft.preview == request.preview@ && draft.history_policy
            == request.history_policy@ && draft.budget == request.budget@ && draft.removal_policy
            == request.removal_policy && image_policy == Some(request.image_policy@) && (
        next matches CreationPhase::Collection { route, wiki_id, source_created } && wiki_id@
            == draft.wiki_id)),
        step@ matches CreationStepView::AdministerSource { administration, next } ==> (
        administration matches SourceView::Add { api_endpoint, language_code } && language_code
            == request.language_code@ && (event matches CreationEvent::Endpoint(Ok((endpoint, wikis)))
            && api_endpoint == endpoint@)),
{
}

/// A source that was added or found is the one that the collection is committed at, and whether
/// it is new is remembered.
pub proof fn law_creation_uses_the_source_it_was_given(
    request: CreateCollectionRequest,
    route: Route,
    wiki_id: WikiId,
    api_endpoint: String,
    language_code: String,
    created: bool,
    step: CreationStep,
)
    requires
        call_ensures(
            create_collection_and_sync,
            (
                &request,
                CreationPhase::Source { route },
                CreationEvent::Source(
                    Ok(
                        SourceAdministrationOutcome::Added {
                            wiki_id,
                            api_endpoint,
                            language_code,
                            created,
                        },
                    ),
                ),
            ),
            step,
        ),
    ensures
        step@ matches CreationStepView::AdministerCollection { administration, next } && next
            == (CreationPhase::Collection { route, wiki_id, source_created: created }),
{
}

proof fn lemma_known_source(
    wikis: Seq<StoredWiki>,
    api_endpoint: Seq<char>,
    language_code: Seq<char>,
    i: int,
)
    requires
        0 <= i <= wikis.len(),
    ensures
        match known_source(wikis, api_endpoint, language_code, i) {
            Some(wiki_id) => exists|k: int|
                i <= k < wikis.len() && (#[trigger] wikis[k]).api_endpoint@ == api_endpoint
                    && wikis[k].language_code@ == language_code && wikis[k].wiki_id == wiki_id,
            None => forall|k: int|
                i <= k < wikis.len() ==> !((#[trigger] wikis[k]).api_endpoint@ == api_endpoint
                    && wikis[k].language_code@ == language_code),
        },
    decreases wikis.len() - i,
{
    if i < wikis.len() && !(wikis[i].api_endpoint@ == api_endpoint && wikis[i].language_code@
        == language_code) {
        lemma_known_source(wikis, api_endpoint, language_code, i + 1);
    }
}

/// Through a daemon a source is registered exactly when none of the known sources has both its
/// endpoint and its language; one that has them is used as it is.
pub proof fn law_daemon_registers_only_unknown_sources(
    request: CreateCollectionRequest,
    endpoint: String,
    wikis: Vec<StoredWiki>,
    step: CreationStep,
)
    requires
        call_ensures(
            create_collection_and_sync,
            (
                &request,
                CreationPhase::Endpoint { route: Route::Daemon },
                CreationEvent::Endpoint(Ok((endpoint, wikis))),
            ),
            step,
        ),
    ensures
        step@ is AdministerSource <==> forall|k: int|
            0 <= k < wikis@.len() ==> !((#[trigger] wikis@[k]).api_endpoint@ == endpoint@
                && wikis@[k].language_code@ == request.language_code@),
        step@ matches CreationStepView::AdministerCollection { administration, next } ==> exists|
            k: int,
        |
            0 <= k < wikis@.len() && (#[trigger] wikis@[k]).api_endpoint@ == endpoint@
                && wikis@[k].language_code@ == request.language_code@ && next
                == (CreationPhase::Collection {
                route: Route::Daemon,
                wiki_id: wikis@[k].wiki_id,
                source_created: false,
            }),
        step@ is AdministerSource || step@ is AdministerCollection,
{
    lemma_known_source(wikis@, endpoint@, request.language_code@, 0);
}

/// The schedule is saved for, and the synchronization asked of, the very collection that was
/// added; a failure before that names a new source that stays behind, and no other.
pub proof fn law_creation_follows_the_added_collection(
    request: CreateCollectionRequest,
    route: Route,
    wiki_id: WikiId,
    source_created: bool,
    outcome: Result<CollectionAdministrationOutcome, String>,
    step: CreationStep,
)
    requires
        call_ensures(
            create_collection_and_sync,
            (
                &request,
                CreationPhase::Collection { route, wiki_id, source_created },
                CreationEvent::Collection(outcome),
            ),
            step,
        ),
    ensures
        outcome matches Ok(CollectionAdministrationOutcome::Added { collection_id, estimate })
            ==> step@ == (CreationStepView::SaveSchedule {
            collection_id: collection_id@,
            next: CreationPhase::Schedule { route, collection_id },
        }),
        !(outcome matches Ok(CollectionAdministrationOutcome::Added { .. })) ==> step@ is Fail,
        outcome matches Err(detail) ==> (step@ matches CreationStepView::Fail(message)
            && holds_text(message, detail@) && (!source_created ==> message == detail@) && (
        source_created ==> holds_text(message, "Source wiki "@ + decimal(wiki_id@ as nat)))),
{
    if let Err(detail) = outcome {
        let before = "Source wiki "@ + decimal(wiki_id@ as nat)
            + " was registered successfully, but collection creation failed: "@;
        let after = " The source remains configured and can be reused."@;
        lemma_holds_text(before, detail@, after);
        let name = "Source wiki "@ + decimal(wiki_id@ as nat);
        let rest = " was registered successfully, but collection creation failed: "@ + detail@
            + after;
        lemma_holds_text(Seq::empty(), name, rest);
        assert(Seq::<char>::empty() + name + rest =~= before + detail@ + after);
        lemma_holds_text(Seq::empty(), detail@, Seq::empty());
        assert(Seq::<char>::empty() + detail@ + Seq::empty() =~= detail@);
    }
}

/// A saved schedule leads to the synchronization of that collection, and that to the end. A
/// failure is passed on; a daemon's tells which collection was made all the same.
pub proof fn law_creation_ends_with_a_synchronization(
    request: CreateCollectionRequest,
    route: Route,
    collection_id: CollectionId,
    result: Result<(), String>,
    saved: CreationStep,
    synchronized: CreationStep,
)
    requires
        call_ensures(
            create_collection_and_sync,
            (
                &request,
                CreationPhase::Schedule { route, collection_id },
                CreationEvent::Schedule(result),
            ),
            saved,
        ),
        call_ensures(
            create_collection_and_sync,
            (
                &request,
                CreationPhase::Synchronization { route, collection_id },
                CreationEvent::Synchronization(result),
            ),
            synchronized,
        ),
    ensures
        result is Ok ==> saved@ == (CreationStepView::Synchronize {
            collection_id: collection_id@,
            next: CreationPhase::Synchronization { route, collection_id },
        }) && synchronized@ is ReadSnapshot,
        result matches Err(detail) ==> {
            &&& saved@ is Fail && synchronized@ is Fail
            &&& route == Route::Direct ==> saved@->Fail_0 == detail@ && synchronized@->Fail_0
                == detail@
            &&& route == Route::Daemon ==> holds_text(
                saved@->Fail_0,
                "Collection "@ + decimal(collection_id@ as nat),
            ) && holds_text(
                synchronized@->Fail_0,
                "Collection "@ + decimal(collection_id@ as nat),
            ) && holds_text(saved@->Fail_0, detail@) && holds_text(synchronized@->Fail_0, detail@)
        },
{
    if let Err(detail) = result {
        let name = "Collection "@ + decimal(collection_id@ as nat);
        let first = " was created, but its schedule could not be saved: "@;
        let second =
            " was created and scheduled, but its first synchronization did not complete: "@;
        lemma_holds_text(Seq::empty(), name, first + detail@);
        lemma_holds_text(Seq::empty(), name, second + detail@);
        assert(Seq::<char>::empty() + name + (first + detail@) =~= name + first + detail@);
        assert(Seq::<char>::empty() + name + (second + detail@) =~= name + second + detail@);
        lemma_holds_text(name + first, detail@, Seq::empty());
        lemma_holds_text(name + second, detail@, Seq::empty());
        assert(name + first + detail@ + Seq::<char>::empty() =~= name + first + detail@);
        assert(name + second + detail@ + Seq::<char>::empty() =~= name + second + detail@);
    }
}

/// What was added is told by its own answer, and any other answer is refused; a source that stays
/// behind is told with the failure.
pub proof fn law_answers_tell_what_was_added(
    source: SourceAdministrationOutcome,
    wiki: Result<(WikiId, bool), String>,
    outcome: CollectionAdministrationOutcome,
    collection: Result<CollectionId, String>,
    detail: &str,
    left_behind: Option<WikiId>,
    message: String,
)
    requires
        call_ensures(added_source, (source,), wiki),
        call_ensures(added_collection_id, (outcome,), collection),
        call_ensures(collection_add_error, (detail, left_behind), message),
    ensures
        wiki is Ok <==> source is Added,
        wiki matches Ok(added) ==> added.0 == source->Added_wiki_id && added.1 == source->created,
        collection is Ok <==> outcome is Added,
        collection matches Ok(id) ==> id == outcome->Added_collection_id,
        left_behind is None ==> message@ == detail@,
        left_behind matches Some(wiki_id) ==> message@ == "Source wiki "@ + decimal(wiki_id@ as nat)
            + " was registered successfully, but collection creation failed: "@ + detail@
            + " The source remains configured and can be reused."@,
{
}

} // verus!
