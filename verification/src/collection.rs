//! Bounded collection administration shared by direct and daemon writers.

use std::collections::HashSet;

use vstd::prelude::*;
use vstd::string::*;
use vstd::utf8::*;

use crate::error::{failure, OperationError};
use crate::model::{
    budget_permits, title_texts, BudgetView, CollectionBudget, CollectionId,
    CollectionRemovalPolicy, CollectionRule, CollectionSelectionPreview, HistoryPolicy, HistoryView,
    InclusionReason, MemberView, PageTitle, PreviewView, ReasonView, ResolvedCollectionMember,
    RuleView, WikiId, DEFAULT_MAX_CATEGORY_DEPTH, MAIN_NAMESPACE,
};
use crate::text::{trim, trimmed};
use crate::wire::byte_len;

verus! {

/// Largest collection name in bytes.
pub const MAX_COLLECTION_NAME_BYTES: usize = 4_096;

/// Largest page title in bytes.
pub const MAX_TITLE_BYTES: usize = 4_096;

pub const MAX_PREVIEW_MEMBERS: usize = 10_000;

pub const MAX_PREVIEW_MISSING_TITLES: usize = 10_000;

pub const MAX_RULE_TITLES: usize = 10_000;

pub const MAX_TOTAL_TITLE_FIELDS: usize = 40_000;

pub const MAX_CATEGORY_BATCHES: usize = 20_000;

/// A fully resolved, non-persistent collection draft ready for estimation or commit.
///
/// Callers resolve the preview before asking either a direct writer or the daemon to
/// commit it. The administration path performs no network access.
#[derive(Debug, PartialEq, Eq)]
pub struct CollectionDraft {
    /// Existing configured source used to resolve the preview.
    pub wiki_id: WikiId,
    /// User-visible collection name.
    pub name: String,
    /// Complete bounded rule preview, with the fixed titles that are missing.
    pub preview: CollectionSelectionPreview,
    /// Public revision history retained for every selected page.
    pub history_policy: HistoryPolicy,
    /// Hard page and canonical-byte limits.
    pub budget: CollectionBudget,
    /// Non-destructive behavior when dynamic membership changes.
    pub removal_policy: CollectionRemovalPolicy,
}

/// Plain view of a draft.
pub struct DraftView {
    pub wiki_id: u64,
    pub name: Seq<char>,
    pub preview: PreviewView,
    pub history_policy: HistoryView,
    pub budget: BudgetView,
    pub removal_policy: CollectionRemovalPolicy,
}

impl View for CollectionDraft {
    type V = DraftView;

    open spec fn view(&self) -> DraftView {
        DraftView {
            wiki_id: self.wiki_id@,
            name: self.name@,
            preview: self.preview@,
            history_policy: self.history_policy@,
            budget: self.budget@,
            removal_policy: self.removal_policy,
        }
    }
}

impl Clone for CollectionDraft {
    fn clone(&self) -> (copy: Self)
        ensures
            copy@ == self@,
    {
        CollectionDraft {
            wiki_id: self.wiki_id,
            name: self.name.clone(),
            preview: self.preview.clone(),
            history_policy: self.history_policy,
            budget: self.budget,
            removal_policy: self.removal_policy,
        }
    }
}

/// Bounded preview estimate returned before collection commitment.
#[derive(Clone, Copy, Debug, PartialEq, Eq, Structural)]
pub struct CollectionDraftEstimate {
    /// Resolved active pages in the preview.
    pub resolved_page_count: u64,
    /// Fixed titles reported missing by the source.
    pub missing_title_count: u64,
    /// Source-declared canonical bytes, when every relevant size was available.
    pub predicted_canonical_bytes: Option<u64>,
    /// Number of bounded category responses used by the preview.
    pub category_batches: u64,
    /// Whether known page/byte estimates satisfy the configured hard limits.
    pub fits_budget: bool,
}

/// Successful result of one high-level collection operation.
#[derive(Clone, Copy, Debug, PartialEq, Eq, Structural)]
pub enum CollectionAdministrationOutcome {
    /// Non-mutating validation and estimate.
    Estimated(CollectionDraftEstimate),
    /// One collection was durably created.
    Added { collection_id: CollectionId, estimate: CollectionDraftEstimate },
    /// One collection was durably replaced without changing its identity.
    Edited { collection_id: CollectionId, estimate: CollectionDraftEstimate },
    /// One collection was tombstoned without purging historical evidence.
    Removed { collection_id: CollectionId },
}

/// Plain view of a collection outcome.
pub enum CollectionOutcomeView {
    Estimated(CollectionDraftEstimate),
    Added { collection_id: u64, estimate: CollectionDraftEstimate },
    Edited { collection_id: u64, estimate: CollectionDraftEstimate },
    Removed { collection_id: u64 },
}

impl View for CollectionAdministrationOutcome {
    type V = CollectionOutcomeView;

    open spec fn view(&self) -> CollectionOutcomeView {
        match self {
            CollectionAdministrationOutcome::Estimated(estimate) => CollectionOutcomeView::Estimated(
                *estimate,
            ),
            CollectionAdministrationOutcome::Added { collection_id, estimate } =>
                CollectionOutcomeView::Added { collection_id: collection_id@, estimate: *estimate },
            CollectionAdministrationOutcome::Edited { collection_id, estimate } =>
                CollectionOutcomeView::Edited { collection_id: collection_id@, estimate: *estimate },
            CollectionAdministrationOutcome::Removed { collection_id } =>
                CollectionOutcomeView::Removed { collection_id: collection_id@ },
        }
    }
}

pub open spec fn text_bytes(text: Seq<char>) -> nat {
    encode_utf8(text).len()
}

/// What the name of a draft violates, if anything.
pub open spec fn name_error(name: Seq<char>) -> Option<Seq<char>> {
    if trimmed(name).len() == 0 || text_bytes(name) > MAX_COLLECTION_NAME_BYTES {
        Some("collection name must be non-empty and at most 4096 bytes"@)
    } else {
        None
    }
}

/// What the size of a preview violates, if anything.
pub open spec fn bounds_error(preview: PreviewView) -> Option<Seq<char>> {
    if preview.members.len() > MAX_PREVIEW_MEMBERS || preview.missing_titles.len()
        > MAX_PREVIEW_MISSING_TITLES || preview.category_batches > MAX_CATEGORY_BATCHES {
        Some("collection preview exceeds administration bounds"@)
    } else {
        None
    }
}

/// What a preview violates of its own rule, if anything.
pub open spec fn rule_error(preview: PreviewView) -> Option<Seq<char>> {
    match preview.rule {
        RuleView::WholeMainNamespace => None,
        RuleView::Category { title, recursion_depth } => if recursion_depth
            > DEFAULT_MAX_CATEGORY_DEPTH {
            Some("category recursion depth exceeds the preview bound"@)
        } else if preview.missing_titles.len() > 0 {
            Some("category preview cannot contain missing fixed titles"@)
        } else {
            None
        },
        _ => if preview.category_batches != 0 {
            Some("fixed-title preview cannot report category batches"@)
        } else {
            None
        },
    }
}

/// A member belongs to a collection for a reason that its rule gives.
pub open spec fn reason_matches(rule: RuleView, member: MemberView) -> bool {
    match rule {
        RuleView::WholeMainNamespace => false,
        RuleView::ExplicitTitles(titles) => member.reason == ReasonView::ExplicitTitle(
            member.title,
        ),
        RuleView::TitleList(titles) => member.reason == ReasonView::TitleList(member.title),
        RuleView::Category { title, recursion_depth } => member.reason matches ReasonView::Category {
            category,
            depth,
        } && category == title && depth <= recursion_depth,
    }
}

/// A page occurs among the first `count` members.
pub open spec fn page_seen(members: Seq<MemberView>, count: int, page_id: u64) -> bool {
    exists|i: int| 0 <= i < count && (#[trigger] members[i]).page_id == page_id
}

/// What member `i` violates, given those before it.
pub open spec fn member_error(rule: RuleView, members: Seq<MemberView>, i: int) -> Option<
    Seq<char>,
> {
    let member = members[i];
    if member.namespace != MAIN_NAMESPACE {
        Some("collection preview member is outside the main namespace"@)
    } else if page_seen(members, i, member.page_id) {
        Some("collection preview contains a duplicate page ID"@)
    } else if text_bytes(member.title) > MAX_TITLE_BYTES {
        Some("collection preview title is too large"@)
    } else if !reason_matches(rule, member) {
        Some("collection preview inclusion reason does not match its rule"@)
    } else {
        None
    }
}

/// The first violation among the first `count` members.
pub open spec fn members_error(rule: RuleView, members: Seq<MemberView>, count: nat) -> Option<
    Seq<char>,
>
    decreases count,
{
    if count == 0 {
        None
    } else {
        match members_error(rule, members, (count - 1) as nat) {
            Some(message) => Some(message),
            None => member_error(rule, members, count - 1),
        }
    }
}

/// Missing titles are bounded and pairwise different.
pub open spec fn missing_error(titles: Seq<Seq<char>>) -> Option<Seq<char>> {
    if titles.no_duplicates() && forall|i: int|
        0 <= i < titles.len() ==> text_bytes(#[trigger] titles[i]) <= MAX_TITLE_BYTES {
        None
    } else {
        Some("collection preview has an oversized or duplicate missing title"@)
    }
}

/// The number of titles that a rule names.
pub open spec fn rule_title_count(rule: RuleView) -> nat {
    match rule {
        RuleView::ExplicitTitles(titles) => titles.len(),
        RuleView::TitleList(titles) => titles.len(),
        _ => 1,
    }
}

/// What the number of titles in a preview violates, if anything.
pub open spec fn title_count_error(preview: PreviewView) -> Option<Seq<char>> {
    if rule_title_count(preview.rule) > MAX_RULE_TITLES {
        Some("collection rule exceeds the 10000-title limit"@)
    } else if rule_title_count(preview.rule) + 2 * preview.members.len()
        + preview.missing_titles.len() > MAX_TOTAL_TITLE_FIELDS {
        Some("collection preview has too many title fields"@)
    } else {
        None
    }
}

pub open spec fn first_of(first: Option<Seq<char>>, second: Option<Seq<char>>) -> Option<
    Seq<char>,
> {
    if first is Some {
        first
    } else {
        second
    }
}

/// The first thing that keeps a draft from being estimated, if any.
pub open spec fn estimate_error(draft: DraftView) -> Option<Seq<char>> {
    let preview = draft.preview;
    first_of(
        name_error(draft.name),
        first_of(
            bounds_error(preview),
            first_of(
                rule_error(preview),
                first_of(
                    members_error(preview.rule, preview.members, preview.members.len()),
                    first_of(missing_error(preview.missing_titles), title_count_error(preview)),
                ),
            ),
        ),
    )
}

/// The estimate of a draft that has no violation.
pub open spec fn draft_estimate(draft: DraftView) -> CollectionDraftEstimate {
    let preview = draft.preview;
    CollectionDraftEstimate {
        resolved_page_count: preview.members.len() as u64,
        missing_title_count: preview.missing_titles.len() as u64,
        predicted_canonical_bytes: preview.predicted_canonical_bytes,
        category_batches: preview.category_batches as u64,
        fits_budget: budget_permits(
            draft.budget,
            preview.members.len() as u64,
            match preview.predicted_canonical_bytes {
                Some(bytes) => bytes,
                None => 0,
            },
        ),
    }
}

fn same_reason(rule: &CollectionRule, member: &ResolvedCollectionMember) -> (b: bool)
    ensures
        b == reason_matches(rule@, member@),
{
    match (rule, &member.inclusion_reason) {
        (CollectionRule::ExplicitTitles(_), InclusionReason::ExplicitTitle(title)) => title.same(
            &member.title,
        ),
        (CollectionRule::TitleList(_), InclusionReason::TitleList(title)) => title.same(
            &member.title,
        ),
        (
            CollectionRule::Category { title, recursion_depth },
            InclusionReason::Category { category, depth },
        ) => category.same(title) && *depth <= *recursion_depth,
        _ => false,
    }
}

/// Checks the members in order and reports the first violation.
fn check_members(rule: &CollectionRule, members: &Vec<ResolvedCollectionMember>) -> (r: Result<
    (),
    OperationError,
>)
    ensures
        ({
            let views = crate::model::member_views(members@);
            match r {
                Ok(()) => members_error(rule@, views, views.len()) is None,
                Err(error) => members_error(rule@, views, views.len()) is Some && error@ == failure(
                    members_error(rule@, views, views.len())->0,
                ),
            }
        }),
{
    broadcast use vstd::std_specs::hash::group_hash_axioms;

    let ghost views = crate::model::member_views(members@);
    let mut seen: HashSet<u64> = HashSet::new();
    let mut i: usize = 0;
    while i < members.len()
        invariant
            i <= members@.len(),
            views == crate::model::member_views(members@),
            forall|id: u64| #[trigger] seen@.contains(id) <==> page_seen(views, i as int, id),
            members_error(rule@, views, i as nat) is None,
        decreases members@.len() - i,
    {
        let member = &members[i];
        assert(views[i as int] == member@);
        let ghost found = member_error(rule@, views, i as int);
        let ghost before = seen@;
        let page_id: u64 = member.page_id.get();
        let mut violation: Option<&'static str> = None;
        if member.namespace != MAIN_NAMESPACE {
            violation = Some("collection preview member is outside the main namespace");
        } else if !seen.insert(page_id) {
            violation = Some("collection preview contains a duplicate page ID");
        } else if byte_len(member.title.as_str()) > MAX_TITLE_BYTES {
            violation = Some("collection preview title is too large");
        } else if !same_reason(rule, member) {
            violation = Some("collection preview inclusion reason does not match its rule");
        }
        if let Some(message) = violation {
            proof {
                assert(found == Some(message@));
                lemma_members_error_stays(rule@, views, (i + 1) as nat, views.len());
            }
            return Err(OperationError::failed(message));
        }
        proof {
            assert forall|id: u64| #[trigger] seen@.contains(id) <==> page_seen(
                views,
                i + 1,
                id,
            ) by {
                if page_seen(views, i + 1, id) && !before.contains(id) {
                    let k = choose|k: int| 0 <= k < i + 1 && (#[trigger] views[k]).page_id == id;
                    assert(k == i);
                }
                if before.contains(id) {
                    let k = choose|k: int| 0 <= k < i && (#[trigger] views[k]).page_id == id;
                    assert(0 <= k < i + 1);
                }
                if id == page_id {
                    assert(views[i as int].page_id == id);
                }
            }
        }
        i = i + 1;
    }
    Ok(())
}

proof fn lemma_members_error_stays(
    rule: RuleView,
    members: Seq<MemberView>,
    count: nat,
    total: nat,
)
    requires
        count <= total,
        members_error(rule, members, count) is Some,
    ensures
        members_error(rule, members, total) == members_error(rule, members, count),
    decreases total - count,
{
    if count < total {
        lemma_members_error_stays(rule, members, count, (total - 1) as nat);
    }
}

/// Checks that titles are bounded and pairwise different.
fn check_missing(titles: &Vec<PageTitle>) -> (r: Result<(), OperationError>)
    ensures
        ({
            let texts = title_texts(titles@);
            match r {
                Ok(()) => missing_error(texts) is None,
                Err(error) => missing_error(texts) is Some && error@ == failure(
                    missing_error(texts)->0,
                ),
            }
        }),
{
    let ghost texts = title_texts(titles@);
    let mut i: usize = 0;
    while i < titles.len()
        invariant
            i <= titles@.len(),
            texts == title_texts(titles@),
            forall|k: int| 0 <= k < i ==> text_bytes(#[trigger] texts[k]) <= MAX_TITLE_BYTES,
            forall|j: int, k: int|
                0 <= j < k < i ==> #[trigger] texts[j] != #[trigger] texts[k],
        decreases titles@.len() - i,
    {
        assert(texts[i as int] == titles@[i as int]@);
        let mut repeated: bool = false;
        let mut j: usize = 0;
        while j < i && !repeated
            invariant
                j <= i < titles@.len(),
                texts == title_texts(titles@),
                !repeated ==> forall|k: int|
                    0 <= k < j ==> #[trigger] texts[k] != texts[i as int],
                repeated ==> exists|k: int| 0 <= k < i && #[trigger] texts[k] == texts[i as int],
            decreases i - j,
        {
            if titles[j].same(&titles[i]) {
                assert(texts[j as int] == texts[i as int]);
                repeated = true;
            }
            j = j + 1;
        }
        if byte_len(titles[i].as_str()) > MAX_TITLE_BYTES || repeated {
            return Err(
                OperationError::failed(
                    "collection preview has an oversized or duplicate missing title",
                ),
            );
        }
        i = i + 1;
    }
    Ok(())
}

/// Validates a draft and estimates it against its budget.
pub fn estimate(draft: &CollectionDraft) -> (r: Result<CollectionDraftEstimate, OperationError>)
    ensures
        match r {
            Ok(estimate) => estimate_error(draft@) is None && estimate == draft_estimate(draft@),
            Err(error) => estimate_error(draft@) is Some && error@ == failure(
                estimate_error(draft@)->0,
            ),
        },
{
    let preview = &draft.preview;
    if trim(draft.name.as_str()).as_str().is_empty() || byte_len(draft.name.as_str())
        > MAX_COLLECTION_NAME_BYTES {
        return Err(
            OperationError::failed("collection name must be non-empty and at most 4096 bytes"),
        );
    }
    if preview.members.len() > MAX_PREVIEW_MEMBERS || preview.missing_titles.len()
        > MAX_PREVIEW_MISSING_TITLES || preview.category_batches > MAX_CATEGORY_BATCHES {
        return Err(OperationError::failed("collection preview exceeds administration bounds"));
    }
    match &preview.rule {
        CollectionRule::ExplicitTitles(_) | CollectionRule::TitleList(_) => {
            if preview.category_batches != 0 {
                return Err(
                    OperationError::failed("fixed-title preview cannot report category batches"),
                );
            }
        },
        CollectionRule::Category { recursion_depth, .. } => {
            if *recursion_depth > DEFAULT_MAX_CATEGORY_DEPTH {
                return Err(
                    OperationError::failed("category recursion depth exceeds the preview bound"),
                );
            }
            if preview.missing_titles.len() > 0 {
                return Err(
                    OperationError::failed("category preview cannot contain missing fixed titles"),
                );
            }
        },
        CollectionRule::WholeMainNamespace => {},
    }
    check_members(&preview.rule, &preview.members)?;
    check_missing(&preview.missing_titles)?;
    let rule_titles: usize = match &preview.rule {
        CollectionRule::ExplicitTitles(titles) | CollectionRule::TitleList(titles) => titles.len(),
        _ => 1,
    };
    if rule_titles > MAX_RULE_TITLES {
        return Err(OperationError::failed("collection rule exceeds the 10000-title limit"));
    }
    if rule_titles + 2 * preview.members.len() + preview.missing_titles.len()
        > MAX_TOTAL_TITLE_FIELDS {
        return Err(OperationError::failed("collection preview has too many title fields"));
    }
    let resolved_page_count: u64 = preview.members.len() as u64;
    let predicted: u64 = match preview.predicted_canonical_bytes {
        Some(bytes) => bytes,
        None => 0,
    };
    Ok(
        CollectionDraftEstimate {
            resolved_page_count,
            missing_title_count: preview.missing_titles.len() as u64,
            predicted_canonical_bytes: preview.predicted_canonical_bytes,
            category_batches: preview.category_batches as u64,
            fits_budget: draft.budget.permits(resolved_page_count, predicted),
        },
    )
}

proof fn lemma_members_are_checked(rule: RuleView, members: Seq<MemberView>, count: nat)
    requires
        count <= members.len(),
    ensures
        members_error(rule, members, count) is None <==> forall|i: int|
            0 <= i < count ==> member_error(rule, members, i) is None,
    decreases count,
{
    if count > 0 {
        lemma_members_are_checked(rule, members, (count - 1) as nat);
        assert(members_error(rule, members, count) is None <==> members_error(
            rule,
            members,
            (count - 1) as nat,
        ) is None && member_error(rule, members, count - 1) is None);
    }
}

/// An estimate counts the resolved and the missing titles of the draft. It fits the budget
/// exactly when the pages stay within the page limit, where there is one, and the predicted
/// bytes within the byte limit, where there is one; bytes that nobody predicted count as none.
pub proof fn law_estimate_holds_the_draft_against_its_budget(
    draft: CollectionDraft,
    r: Result<CollectionDraftEstimate, OperationError>,
)
    requires
        call_ensures(estimate, (&draft,), r),
    ensures
        r matches Ok(estimate) ==> {
            let pages = draft.preview.members@.len();
            let bytes = match draft.preview.predicted_canonical_bytes {
                Some(bytes) => bytes,
                None => 0,
            };
            let pages_fit = match draft@.budget.maximum_pages {
                Some(limit) => pages <= limit,
                None => true,
            };
            let bytes_fit = match draft@.budget.maximum_bytes {
                Some(limit) => bytes <= limit,
                None => true,
            };
            &&& estimate.fits_budget == (pages_fit && bytes_fit)
            &&& estimate.resolved_page_count == pages
            &&& estimate.missing_title_count == draft.preview.missing_titles@.len()
            &&& estimate.predicted_canonical_bytes == draft.preview.predicted_canonical_bytes
            &&& estimate.category_batches == draft.preview.category_batches
        },
{
    assert(draft@.preview.members.len() == draft.preview.members@.len());
}

/// Exactly the well-formed drafts are estimated: a name that is not blank, a preview within
/// the administration bounds, distinct main-namespace pages that belong to the rule, distinct
/// bounded missing titles, and what the rule itself allows.
pub proof fn law_well_formed_drafts_are_estimated(
    draft: CollectionDraft,
    r: Result<CollectionDraftEstimate, OperationError>,
)
    requires
        call_ensures(estimate, (&draft,), r),
    ensures
        r is Ok <==> {
            let view = draft@;
            let members = view.preview.members;
            let missing = view.preview.missing_titles;
            let batches = view.preview.category_batches;
            &&& trimmed(view.name).len() > 0 && encode_utf8(view.name).len() <= 4_096
            &&& members.len() <= 10_000 && missing.len() <= 10_000 && batches <= 20_000
            &&& forall|i: int|
                #![trigger members[i]]
                0 <= i < members.len() ==> members[i].namespace == 0 && encode_utf8(
                    members[i].title,
                ).len() <= 4_096
            &&& forall|i: int, j: int|
                0 <= i < j < members.len() ==> (#[trigger] members[i]).page_id != (
                #[trigger] members[j]).page_id
            &&& forall|i: int, j: int|
                0 <= i < j < missing.len() ==> #[trigger] missing[i] != #[trigger] missing[j]
            &&& forall|i: int|
                0 <= i < missing.len() ==> encode_utf8(#[trigger] missing[i]).len() <= 4_096
            &&& match view.preview.rule {
                RuleView::WholeMainNamespace => members.len() == 0 && 1 + missing.len() <= 40_000,
                RuleView::ExplicitTitles(titles) => batches == 0 && titles.len() <= 10_000
                    && titles.len() + 2 * members.len() + missing.len() <= 40_000 && forall|i: int|
                    0 <= i < members.len() ==> (#[trigger] members[i]).reason
                        == ReasonView::ExplicitTitle(members[i].title),
                RuleView::TitleList(titles) => batches == 0 && titles.len() <= 10_000
                    && titles.len() + 2 * members.len() + missing.len() <= 40_000 && forall|i: int|
                    0 <= i < members.len() ==> (#[trigger] members[i]).reason
                        == ReasonView::TitleList(members[i].title),
                RuleView::Category { title, recursion_depth } => recursion_depth <= 16
                    && missing.len() == 0 && 1 + 2 * members.len() <= 40_000 && forall|i: int|
                    0 <= i < members.len() ==> ((#[trigger] members[i]).reason
                        matches ReasonView::Category { category, depth } && category == title
                        && depth <= recursion_depth),
            }
        },
{
    let view = draft@;
    let rule = view.preview.rule;
    let members = view.preview.members;
    let missing = view.preview.missing_titles;
    lemma_members_are_checked(rule, members, members.len());
    if r is Ok {
        assert forall|i: int| 0 <= i < members.len() implies member_error(rule, members, i)
            is None by {}
        assert forall|i: int, j: int| 0 <= i < j < members.len() implies (
        #[trigger] members[i]).page_id != (#[trigger] members[j]).page_id by {
            assert(member_error(rule, members, j) is None);
        }
        assert forall|i: int| #![trigger members[i]] 0 <= i < members.len() implies
            members[i].namespace == 0 && encode_utf8(members[i].title).len() <= 4_096
            && reason_matches(rule, members[i]) by {
            assert(member_error(rule, members, i) is None);
        }
        if rule is WholeMainNamespace && members.len() > 0 {
            assert(reason_matches(rule, members[0]));
        }
    }
}

} // verus!
