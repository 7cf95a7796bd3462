//! Decisions of the desktop's background work: what may be started, what a reply means
//! and what is said when it fails.

use vstd::prelude::*;
use vstd::string::*;

use crate::administration::{AdministrationView, CollectionAdministration};
use crate::collection::{CollectionAdministrationOutcome, CollectionDraft, DraftView};
use crate::control_plane::{join_path, joined};
use crate::creation::Route;
use crate::error::{IoFailure, IoFailureKind};
use crate::forms::ScheduleSettings;
use crate::model::{
    BudgetView, CollectionBudget, CollectionId, CollectionRemovalPolicy, CollectionRule,
    CollectionSelectionPreview, HistoryPolicy, HistoryView, ImagePolicy, ImageView,
    NetworkTransferPolicy, NetworkView, PreviewView, WikiId,
};
use crate::network::MeteredNetworkState;
use crate::schedule::{next_occurrence, next_occurrence_after};
use crate::stored::{SettingsView, StoredCollectionConfiguration};
use crate::text::{contains_text, decimal, decimal_text, holds_text};

verus! {

/// The name of a library's database.
pub const DATABASE_NAME: &'static str = "library.sqlite3";

/// What a preview resolves.
#[derive(Debug, PartialEq, Eq)]
pub struct PreviewCollectionRequest {
    pub api_endpoint: String,
    pub network_policy: NetworkTransferPolicy,
    pub rule: CollectionRule,
}

/// Everything that an edited collection is made of.
#[derive(Debug, PartialEq, Eq)]
pub struct EditCollectionRequest {
    pub library_path: String,
    pub collection_id: CollectionId,
    pub expected_generation: u64,
    pub wiki_id: WikiId,
    pub name: String,
    pub preview: CollectionSelectionPreview,
    pub history_policy: HistoryPolicy,
    pub budget: CollectionBudget,
    pub removal_policy: CollectionRemovalPolicy,
    pub image_policy: ImagePolicy,
    pub schedule: ScheduleSettings,
}

/// Plain view of an edit request.
pub struct EditView {
    pub library_path: Seq<char>,
    pub collection_id: u64,
    pub expected_generation: u64,
    pub wiki_id: u64,
    pub name: Seq<char>,
    pub preview: PreviewView,
    pub history_policy: HistoryView,
    pub budget: BudgetView,
    pub removal_policy: CollectionRemovalPolicy,
    pub image_policy: ImageView,
    pub schedule: SettingsView,
}

impl View for EditCollectionRequest {
    type V = EditView;

    open spec fn view(&self) -> EditView {
        EditView {
            library_path: self.library_path@,
            collection_id: self.collection_id@,
            expected_generation: self.expected_generation,
            wiki_id: self.wiki_id@,
            name: self.name@,
            preview: self.preview@,
            history_policy: self.history_policy@,
            budget: self.budget@,
            removal_policy: self.removal_policy,
            image_policy: self.image_policy@,
            schedule: self.schedule@,
        }
    }
}

/// Whether a directory holds a library, from a look at its database file.
pub open spec fn probed(path: Seq<char>, database: Result<bool, IoFailure>) -> Result<
    bool,
    Seq<char>,
> {
    if path.len() == 0 {
        Ok(false)
    } else {
        match database {
            Ok(is_file) => if is_file {
                Ok(true)
            } else {
                Err(joined(path, DATABASE_NAME@) + " exists but is not a regular file"@)
            },
            Err(failure) => if failure.kind == IoFailureKind::NotFound {
                Ok(false)
            } else {
                Err(failure.message@)
            },
        }
    }
}

/// Tells whether a directory holds a library, from a look at its database file: whether
/// that is a regular file, or why it could not be seen.
pub fn probe_library(path: &str, database: Result<bool, IoFailure>) -> (r: Result<bool, String>)
    ensures
        match r {
            Ok(found) => probed(path@, database) == Ok::<bool, Seq<char>>(found),
            Err(message) => probed(path@, database) == Err::<bool, Seq<char>>(message@),
        },
{
    if path.unicode_len() == 0 {
        return Ok(false);
    }
    match database {
        Ok(is_file) => if is_file {
            Ok(true)
        } else {
            let mut message = join_path(path, DATABASE_NAME);
            message.append(" exists but is not a regular file");
            Err(message)
        },
        Err(failure) => if failure.kind == IoFailureKind::NotFound {
            Ok(false)
        } else {
            Err(failure.message)
        },
    }
}

/// Whether a library may be opened, or must be created first.
pub fn may_load(path: &str, create: bool, has_database: bool) -> (r: Result<(), String>)
    ensures
        match r {
            Ok(()) => path@.len() > 0 && (create || has_database),
            Err(message) => if path@.len() == 0 {
                message@ == "Choose a library directory."@
            } else {
                !create && !has_database && message@ == path@
                    + " is not an initialized WikiSyncer library"@
            },
        },
{
    if path.unicode_len() == 0 {
        return Err("Choose a library directory.".to_owned());
    }
    if !create && !has_database {
        let mut message = path.to_owned();
        message.append(" is not an initialized WikiSyncer library");
        return Err(message);
    }
    Ok(())
}

/// Whether the library policy lets network work start now.
pub fn enforce_metered_policy(policy: NetworkTransferPolicy, state: MeteredNetworkState) -> (r:
    Result<(), String>)
    ensures
        match r {
            Ok(()) => !(policy@.avoid_metered_networks && state == MeteredNetworkState::Metered),
            Err(message) => policy@.avoid_metered_networks && state == MeteredNetworkState::Metered
                && message@
                == "Synchronization is blocked by the library policy while the active network is metered."@,
        },
{
    if policy.avoid_metered_networks() && state == MeteredNetworkState::Metered {
        Err(
            "Synchronization is blocked by the library policy while the active network is metered.".to_owned(),
        )
    } else {
        Ok(())
    }
}

/// The limits of a network policy in the machine's sizes.
pub open spec fn machine_limits(policy: NetworkView) -> Result<(usize, Option<usize>), Seq<char>> {
    if policy.max_concurrent_requests > usize::MAX {
        Err("Maximum concurrent request policy is too large."@)
    } else {
        match policy.max_download_bytes_per_second {
            Some(rate) => if rate > usize::MAX {
                Err("Maximum byte-rate policy is too large."@)
            } else {
                Ok((policy.max_concurrent_requests as usize, Some(rate as usize)))
            },
            None => Ok((policy.max_concurrent_requests as usize, None)),
        }
    }
}

/// The limits with which a client of a source is configured.
pub fn client_limits(policy: NetworkTransferPolicy) -> (r: Result<(usize, Option<usize>), String>)
    ensures
        match r {
            Ok(limits) => machine_limits(policy@) == Ok::<(usize, Option<usize>), Seq<char>>(
                limits,
            ),
            Err(message) => machine_limits(policy@) == Err::<(usize, Option<usize>), Seq<char>>(
                message@,
            ),
        },
{
    let requests: u32 = policy.max_concurrent_requests();
    match policy.max_download_bytes_per_second() {
        Some(rate) => if rate > usize::MAX as u64 {
            Err("Maximum byte-rate policy is too large.".to_owned())
        } else {
            Ok((requests as usize, Some(rate as usize)))
        },
        None => Ok((requests as usize, None)),
    }
}

/// The time of a schedule decision; `None` is a clock before the epoch.
pub fn unix_time_seconds(since_epoch: Option<u64>) -> (r: Result<u64, String>)
    ensures
        match since_epoch {
            Some(seconds) => r == Ok::<u64, String>(seconds),
            None => r matches Err(message) && message@ == "System clock is before the Unix epoch."@,
        },
{
    match since_epoch {
        Some(seconds) => Ok(seconds),
        None => Err("System clock is before the Unix epoch.".to_owned()),
    }
}

/// When a directly saved schedule runs next.
pub fn first_run(collection_id: CollectionId, schedule: ScheduleSettings, now: u64) -> (next_run_at:
    Option<u64>)
    ensures
        next_run_at == next_occurrence(
            schedule.cadence@,
            collection_id@,
            schedule.jitter_seconds,
            now,
        ),
{
    next_occurrence_after(schedule.cadence, collection_id.get(), schedule.jitter_seconds, now)
}

/// The operation that an edit asks for.
pub open spec fn edit_operation(request: EditView) -> Result<AdministrationView, Seq<char>> {
    if request.name.len() == 0 {
        Err("Collection name is required."@)
    } else {
        Ok(
            AdministrationView::Edit {
                collection_id: request.collection_id,
                expected_generation: request.expected_generation,
                draft: DraftView {
                    wiki_id: request.wiki_id,
                    name: request.name,
                    preview: request.preview,
                    history_policy: request.history_policy,
                    budget: request.budget,
                    removal_policy: request.removal_policy,
                },
                image_policy: Some(request.image_policy),
            },
        )
    }
}

/// Turns an edit into the operation that applies it.
pub fn edit_collection(request: EditCollectionRequest) -> (r: Result<
    CollectionAdministration,
    String,
>)
    ensures
        crate::forms::states(r, edit_operation(request@)),
{
    if request.name.as_str().unicode_len() == 0 {
        return Err("Collection name is required.".to_owned());
    }
    Ok(
        CollectionAdministration::EditWithImagePolicy {
            collection_id: request.collection_id,
            expected_generation: request.expected_generation,
            draft: CollectionDraft {
                wiki_id: request.wiki_id,
                name: request.name,
                preview: request.preview,
                history_policy: request.history_policy,
                budget: request.budget,
                removal_policy: request.removal_policy,
            },
            image_policy: request.image_policy,
        },
    )
}

/// Whether a refusal means that the collection changed under the edit.
pub open spec fn stale_edit(detail: Seq<char>) -> bool {
    holds_text(detail, "changed while it was being previewed"@) || holds_text(
        detail,
        "stale collection generation"@,
    )
}

/// What is said when an edit was refused.
pub fn collection_edit_error(detail: &str) -> (message: String)
    ensures
        message@ == if stale_edit(detail@) {
            "The collection changed after this edit was loaded, so the stale preview was not applied. Reload the collection, preview it again, and then save. Details: "@
                + detail@
        } else {
            detail@
        },
{
    if contains_text(detail, "changed while it was being previewed") || contains_text(
        detail,
        "stale collection generation",
    ) {
        let mut message =
            "The collection changed after this edit was loaded, so the stale preview was not applied. Reload the collection, preview it again, and then save. Details: ".to_owned();
        message.append(detail);
        message
    } else {
        detail.to_owned()
    }
}

/// Refuses a reply that does not report the edit of this collection.
pub fn ensure_edited_outcome(outcome: CollectionAdministrationOutcome, expected: CollectionId) -> (r:
    Result<(), String>)
    ensures
        match r {
            Ok(()) => outcome matches CollectionAdministrationOutcome::Edited {
                collection_id,
                estimate,
            } && collection_id@ == expected@,
            Err(message) => !(outcome matches CollectionAdministrationOutcome::Edited {
                collection_id,
                estimate,
            } && collection_id@ == expected@) && message@
                == "Collection administration returned an unexpected result."@,
        },
{
    match outcome {
        CollectionAdministrationOutcome::Edited { collection_id, .. } => if collection_id.same(
            expected,
        ) {
            Ok(())
        } else {
            Err("Collection administration returned an unexpected result.".to_owned())
        },
        _ => Err("Collection administration returned an unexpected result.".to_owned()),
    }
}

/// Refuses a reply that does not report the removal of this collection.
pub fn ensure_removed_outcome(outcome: CollectionAdministrationOutcome, expected: CollectionId) -> (r:
    Result<(), String>)
    ensures
        match r {
            Ok(()) => outcome matches CollectionAdministrationOutcome::Removed { collection_id }
                && collection_id@ == expected@,
            Err(message) => !(outcome matches CollectionAdministrationOutcome::Removed {
                collection_id,
            } && collection_id@ == expected@) && message@
                == "Collection administration returned an unexpected result."@,
        },
{
    match outcome {
        CollectionAdministrationOutcome::Removed { collection_id } => if collection_id.same(
            expected,
        ) {
            Ok(())
        } else {
            Err("Collection administration returned an unexpected result.".to_owned())
        },
        _ => Err("Collection administration returned an unexpected result.".to_owned()),
    }
}

/// What is said when an edit was applied but its schedule could not be saved.
pub fn edited_schedule_error(route: Route, collection_id: CollectionId, detail: &str) -> (message:
    String)
    ensures
        message@ == match route {
            Route::Direct => detail@,
            Route::Daemon => "Collection "@ + decimal(collection_id@ as nat)
                + " was edited, but its schedule could not be saved: "@ + detail@,
        },
{
    match route {
        Route::Direct => detail.to_owned(),
        Route::Daemon => {
            let mut message = "Collection ".to_owned();
            message.append(decimal_text(collection_id.get()).as_str());
            message.append(" was edited, but its schedule could not be saved: ");
            message.append(detail);
            message
        },
    }
}

/// The generation of a collection, or that it cannot be told.
pub fn collection_generation(
    configuration: Result<Option<StoredCollectionConfiguration>, String>,
) -> (r: Result<u64, String>)
    ensures
        match configuration {
            Ok(Some(configuration)) => r == Ok::<u64, String>(configuration.generation),
            Ok(None) => r matches Err(message) && message@
                == "Collection configuration is unavailable; refresh the library."@,
            Err(detail) => r matches Err(message) && message@ == detail@,
        },
{
    match configuration? {
        Some(configuration) => Ok(configuration.generation),
        None => Err("Collection configuration is unavailable; refresh the library.".to_owned()),
    }
}

/// What a direct update needs of a collection: its source and that source's endpoint.
pub fn update_target(
    configuration: Result<Option<WikiId>, String>,
    endpoint: Result<Option<String>, String>,
) -> (r: Result<(WikiId, String), String>)
    ensures
        match (configuration, endpoint) {
            (Err(detail), _) => r matches Err(message) && message@ == detail@,
            (Ok(None), _) => r matches Err(message) && message@
                == "Collection has no committed configuration."@,
            (_, Err(detail)) => r matches Err(message) && message@ == detail@,
            (_, Ok(None)) => r matches Err(message) && message@ == "Collection source is missing."@,
            (Ok(Some(wiki_id)), Ok(Some(endpoint))) => r matches Ok(target) && target.0 == wiki_id
                && target.1@ == endpoint@,
        },
{
    let wiki_id = match configuration? {
        Some(wiki_id) => wiki_id,
        None => return Err("Collection has no committed configuration.".to_owned()),
    };
    match endpoint? {
        Some(endpoint) => Ok((wiki_id, endpoint)),
        None => Err("Collection source is missing.".to_owned()),
    }
}

/// An edit keeps the collection, the generation it was loaded with and its source.
pub proof fn law_edit_is_bound_to_its_generation(request: EditView)
    ensures
        edit_operation(request) matches Ok(operation) ==> (operation matches
            AdministrationView::Edit { collection_id, expected_generation, draft, image_policy }
            && collection_id == request.collection_id && expected_generation
            == request.expected_generation && draft.wiki_id == request.wiki_id),
        edit_operation(request) is Err <==> request.name.len() == 0,
{
}

/// Synchronization waits exactly where the policy avoids metered networks and the network is a
/// metered one.
pub proof fn law_only_a_metered_network_blocks_synchronization(
    policy: NetworkTransferPolicy,
    state: MeteredNetworkState,
    r: Result<(), String>,
)
    requires
        call_ensures(enforce_metered_policy, (policy, state), r),
    ensures
        r is Err <==> policy@.avoid_metered_networks && state == MeteredNetworkState::Metered,
{
}

/// The limits of a client are those of the policy, as far as the machine can count.
pub proof fn law_client_limits_are_the_policy(
    policy: NetworkTransferPolicy,
    r: Result<(usize, Option<usize>), String>,
)
    requires
        call_ensures(client_limits, (policy,), r),
        policy@.max_concurrent_requests <= usize::MAX,
    ensures
        r is Ok <==> (policy@.max_download_bytes_per_second matches Some(rate) ==> rate
            <= usize::MAX),
        r matches Ok((slots, rate)) ==> slots == policy@.max_concurrent_requests && (rate is Some
            <==> policy@.max_download_bytes_per_second is Some) && (rate is Some ==> rate->0
            == policy@.max_download_bytes_per_second->0),
{
}

/// A library is opened where its database is, and elsewhere only created when that was asked
/// for; an empty path is no place for one.
pub proof fn law_libraries_are_loaded_where_they_are(
    path: &str,
    create: bool,
    has_database: bool,
    database: Result<bool, IoFailure>,
    loaded: Result<(), String>,
    found: Result<bool, String>,
)
    requires
        call_ensures(may_load, (path, create, has_database), loaded),
        call_ensures(probe_library, (path, database), found),
    ensures
        loaded is Ok <==> path@.len() > 0 && (create || has_database),
        path@.len() == 0 ==> found == Ok::<bool, String>(false),
        path@.len() > 0 ==> {
            &&& found == Ok::<bool, String>(true) <==> database == Ok::<bool, IoFailure>(true)
            &&& found == Ok::<bool, String>(false) ==> (database matches Err(failure)
                && failure.kind == IoFailureKind::NotFound)
        },
{
}

/// An outcome is taken for the answer only if it is of the operation that was asked for and of
/// the collection that was named.
pub proof fn law_answers_are_of_the_right_collection(
    outcome: CollectionAdministrationOutcome,
    expected: CollectionId,
    edited: Result<(), String>,
    removed: Result<(), String>,
)
    requires
        call_ensures(ensure_edited_outcome, (outcome, expected), edited),
        call_ensures(ensure_removed_outcome, (outcome, expected), removed),
    ensures
        edited is Ok <==> (outcome matches CollectionAdministrationOutcome::Edited {
            collection_id,
            estimate,
        } && collection_id@ == expected@),
        removed is Ok <==> (outcome matches CollectionAdministrationOutcome::Removed {
            collection_id,
        } && collection_id@ == expected@),
{
}

/// An edit is sent with everything that was entered for it, bound to the generation that was
/// previewed, and never without a name.
pub proof fn law_edit_sends_what_was_entered(
    request: EditCollectionRequest,
    r: Result<CollectionAdministration, String>,
)
    requires
        call_ensures(edit_collection, (request,), r),
    ensures
        r is Ok <==> request.name@.len() > 0,
        r matches Ok(operation) ==> (operation@ matches AdministrationView::Edit {
            collection_id,
            expected_generation,
            draft,
            image_policy,
        } && collection_id == request.collection_id@ && expected_generation
            == request.expected_generation && draft.name == request.name@ && draft.wiki_id
            == request.wiki_id@ && draft.preview == request.preview@ && draft.budget
            == request.budget@ && draft.history_policy == request.history_policy@
            && draft.removal_policy == request.removal_policy && image_policy == Some(
            request.image_policy@,
        )),
{
}

/// A schedule that is saved runs first at the next occurrence of its cadence; an update goes to
/// the configured source; and a generation is the stored one.
pub proof fn law_tasks_use_what_is_stored(
    collection_id: CollectionId,
    schedule: ScheduleSettings,
    now: u64,
    first: Option<u64>,
    next: Option<u64>,
    configuration: Result<Option<StoredCollectionConfiguration>, String>,
    generation: Result<u64, String>,
    source: Result<Option<WikiId>, String>,
    endpoint: Result<Option<String>, String>,
    target: Result<(WikiId, String), String>,
)
    requires
        call_ensures(first_run, (collection_id, schedule, now), first),
        call_ensures(
            next_occurrence_after,
            (schedule.cadence, collection_id@, schedule.jitter_seconds, now),
            next,
        ),
        call_ensures(collection_generation, (configuration,), generation),
        call_ensures(update_target, (source, endpoint), target),
    ensures
        first == next,
        generation is Ok <==> (configuration matches Ok(stored) && stored is Some),
        generation matches Ok(number) ==> number == configuration->Ok_0->0.generation,
        target is Ok <==> (source matches Ok(wiki) && wiki is Some) && (endpoint matches Ok(url)
            && url is Some),
        target matches Ok((wiki_id, url)) ==> wiki_id == source->Ok_0->0 && url@
            == endpoint->Ok_0->0@,
{
}

/// A message about a stale edit says so before its details, one about a schedule names the edited
/// collection where the daemon edited it, and a time before the epoch is no time.
pub proof fn law_task_errors_keep_their_details(
    since_epoch: Option<u64>,
    now: Result<u64, String>,
    detail: &str,
    edit: String,
    route: Route,
    collection_id: CollectionId,
    schedule: String,
)
    requires
        call_ensures(unix_time_seconds, (since_epoch,), now),
        call_ensures(collection_edit_error, (detail,), edit),
        call_ensures(edited_schedule_error, (route, collection_id, detail), schedule),
    ensures
        since_epoch is Some <==> now is Ok,
        now matches Ok(seconds) ==> since_epoch == Some(seconds),
        holds_text(detail@, "changed while it was being previewed"@) || holds_text(
            detail@,
            "stale collection generation"@,
        ) ==> edit@
            == "The collection changed after this edit was loaded, so the stale preview was not applied. Reload the collection, preview it again, and then save. Details: "@
            + detail@,
        !holds_text(detail@, "changed while it was being previewed"@) && !holds_text(
            detail@,
            "stale collection generation"@,
        ) ==> edit@ == detail@,
        route is Direct ==> schedule@ == detail@,
        route is Daemon ==> schedule@ == "Collection "@ + decimal(collection_id@ as nat)
            + " was edited, but its schedule could not be saved: "@ + detail@,
{
}

} // verus!
