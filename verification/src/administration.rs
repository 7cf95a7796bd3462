//! Collection administration as a sequence of store requests.
//!
//! The administrative decisions stand here; whoever holds the library performs the store
//! request of each step and hands its result back. Direct and daemon writers take the
//! same steps, so validation cannot diverge between them.

use vstd::prelude::*;
use vstd::string::*;

use crate::collection::{
    draft_estimate, estimate, CollectionAdministrationOutcome, CollectionDraft,
    CollectionDraftEstimate, CollectionOutcomeView, DraftView,
};
use crate::draft_codec::{draft_encoding, encode_collection_draft, image_view};
use crate::error::{failure, FailureView, OperationError};
use crate::model::{
    CollectionBudget, CollectionId, CollectionRemovalPolicy, CollectionRule,
    HistoryPolicy, ImagePolicy, ImageView, PageTitle, ResolvedCollectionMember, WikiId,
};

verus! {

/// One high-level collection operation shared by direct and daemon writer paths.
#[derive(Debug, PartialEq, Eq)]
pub enum CollectionAdministration {
    /// Validates and estimates a complete preview without changing the library.
    Estimate(CollectionDraft),
    /// Creates one active collection from a complete preview.
    Add(CollectionDraft),
    /// Creates one active collection with an explicit bounded image policy.
    AddWithImagePolicy { draft: CollectionDraft, image_policy: ImagePolicy },
    /// Replaces one active collection from a complete preview.
    Edit { collection_id: CollectionId, expected_generation: u64, draft: CollectionDraft },
    /// Replaces one active collection and its bounded image policy atomically.
    EditWithImagePolicy {
        collection_id: CollectionId,
        expected_generation: u64,
        draft: CollectionDraft,
        image_policy: ImagePolicy,
    },
    /// Tombstones a collection while retaining runs, manifests, and captured data.
    Remove { collection_id: CollectionId },
}

/// Plain view of a collection operation.
pub enum AdministrationView {
    Estimate(DraftView),
    Add { draft: DraftView, image_policy: Option<ImageView> },
    Edit {
        collection_id: u64,
        expected_generation: u64,
        draft: DraftView,
        image_policy: Option<ImageView>,
    },
    Remove { collection_id: u64 },
}

impl View for CollectionAdministration {
    type V = AdministrationView;

    open spec fn view(&self) -> AdministrationView {
        match self {
            CollectionAdministration::Estimate(draft) => AdministrationView::Estimate(draft@),
            CollectionAdministration::Add(draft) => AdministrationView::Add {
                draft: draft@,
                image_policy: None,
            },
            CollectionAdministration::AddWithImagePolicy { draft, image_policy } =>
                AdministrationView::Add { draft: draft@, image_policy: Some(image_policy@) },
            CollectionAdministration::Edit { collection_id, expected_generation, draft } =>
                AdministrationView::Edit {
                collection_id: collection_id@,
                expected_generation: *expected_generation,
                draft: draft@,
                image_policy: None,
            },
            CollectionAdministration::EditWithImagePolicy {
                collection_id,
                expected_generation,
                draft,
                image_policy,
            } => AdministrationView::Edit {
                collection_id: collection_id@,
                expected_generation: *expected_generation,
                draft: draft@,
                image_policy: Some(image_policy@),
            },
            CollectionAdministration::Remove { collection_id } => AdministrationView::Remove {
                collection_id: collection_id@,
            },
        }
    }
}

/// A validated draft that waits for the store to create its collection.
#[derive(Debug, PartialEq, Eq)]
pub struct PendingCreate {
    pub draft: CollectionDraft,
    /// The policy to store, where the operation names one.
    pub image_policy: Option<ImagePolicy>,
    pub estimate: CollectionDraftEstimate,
}

/// A validated replacement that waits for the store.
#[derive(Debug, PartialEq, Eq)]
pub struct PendingEdit {
    pub collection_id: CollectionId,
    pub expected_generation: u64,
    pub draft: CollectionDraft,
    pub image_policy: Option<ImagePolicy>,
    pub estimate: CollectionDraftEstimate,
}

/// What is to be done next for a collection operation.
#[derive(Debug, PartialEq, Eq)]
pub enum CollectionStep {
    /// The operation is answered.
    Finished(Result<CollectionAdministrationOutcome, OperationError>),
    /// Create a collection from the pending draft.
    Create(PendingCreate),
    /// Read the source of the configured collection.
    ReadConfiguration(PendingEdit),
    /// Replace the collection, provided that its generation is the expected one.
    Update(PendingEdit),
    /// Tombstone the collection.
    Tombstone { collection_id: CollectionId },
}

/// Plain view of a validated replacement.
pub struct PendingEditView {
    pub collection_id: u64,
    pub expected_generation: u64,
    pub draft: DraftView,
    pub image_policy: Option<ImageView>,
    pub estimate: CollectionDraftEstimate,
}

/// Plain view of a step.
pub enum CollectionStepView {
    Finished(Result<CollectionOutcomeView, FailureView>),
    Create {
        draft: DraftView,
        image_policy: Option<ImageView>,
        estimate: CollectionDraftEstimate,
    },
    ReadConfiguration(PendingEditView),
    Update(PendingEditView),
    Tombstone { collection_id: u64 },
}

/// The view of a finished operation.
pub open spec fn answer_view(
    answer: Result<CollectionAdministrationOutcome, OperationError>,
) -> Result<CollectionOutcomeView, FailureView> {
    match answer {
        Ok(outcome) => Ok(outcome@),
        Err(error) => Err(error@),
    }
}

impl View for PendingEdit {
    type V = PendingEditView;

    open spec fn view(&self) -> PendingEditView {
        PendingEditView {
            collection_id: self.collection_id@,
            expected_generation: self.expected_generation,
            draft: self.draft@,
            image_policy: image_view(self.image_policy),
            estimate: self.estimate,
        }
    }
}

impl View for CollectionStep {
    type V = CollectionStepView;

    open spec fn view(&self) -> CollectionStepView {
        match self {
            CollectionStep::Finished(answer) => CollectionStepView::Finished(answer_view(*answer)),
            CollectionStep::Create(pending) => CollectionStepView::Create {
                draft: pending.draft@,
                image_policy: image_view(pending.image_policy),
                estimate: pending.estimate,
            },
            CollectionStep::ReadConfiguration(pending) => CollectionStepView::ReadConfiguration(
                pending@,
            ),
            CollectionStep::Update(pending) => CollectionStepView::Update(pending@),
            CollectionStep::Tombstone { collection_id } => CollectionStepView::Tombstone {
                collection_id: collection_id@,
            },
        }
    }
}

/// The estimate of a draft that is valid and can be staged.
pub open spec fn draft_validation(draft: DraftView) -> Result<CollectionDraftEstimate, Seq<char>> {
    match draft_encoding(draft, None) {
        Err(message) => Err(message),
        Ok(bytes) => Ok(draft_estimate(draft)),
    }
}

/// The estimate of a draft that may be committed: valid and within its hard budget.
pub open spec fn draft_admission(draft: DraftView) -> Result<CollectionDraftEstimate, Seq<char>> {
    match draft_validation(draft) {
        Err(message) => Err(message),
        Ok(estimate) => if estimate.fits_budget {
            Ok(estimate)
        } else {
            Err("collection preview exceeds its configured hard budget"@)
        },
    }
}

/// The first step of an operation.
pub open spec fn first_step(administration: AdministrationView) -> CollectionStepView {
    match administration {
        AdministrationView::Estimate(draft) => CollectionStepView::Finished(
            match draft_validation(draft) {
                Ok(estimate) => Ok(CollectionOutcomeView::Estimated(estimate)),
                Err(message) => Err(failure(message)),
            },
        ),
        AdministrationView::Add { draft, image_policy } => match draft_admission(draft) {
            Ok(estimate) => CollectionStepView::Create { draft, image_policy, estimate },
            Err(message) => CollectionStepView::Finished(Err(failure(message))),
        },
        AdministrationView::Edit { collection_id, expected_generation, draft, image_policy } =>
            match draft_admission(draft) {
            Ok(estimate) => CollectionStepView::ReadConfiguration(
                PendingEditView {
                    collection_id,
                    expected_generation,
                    draft,
                    image_policy,
                    estimate,
                },
            ),
            Err(message) => CollectionStepView::Finished(Err(failure(message))),
        },
        AdministrationView::Remove { collection_id } => CollectionStepView::Tombstone {
            collection_id,
        },
    }
}

/// The step after the source of the collection was read.
pub open spec fn step_after_configuration(
    pending: PendingEditView,
    source: Result<Option<u64>, Seq<char>>,
) -> CollectionStepView {
    match source {
        Err(message) => CollectionStepView::Finished(Err(failure(message))),
        Ok(None) => CollectionStepView::Finished(Err(failure("collection is not configured"@))),
        Ok(Some(wiki_id)) => if wiki_id != pending.draft.wiki_id {
            CollectionStepView::Finished(
                Err(failure("a collection edit cannot change its source wiki"@)),
            )
        } else {
            CollectionStepView::Update(pending)
        },
    }
}

/// Validates a draft: its contents, and that it fits the staging ceiling.
pub fn validated_estimate(draft: &CollectionDraft) -> (r: Result<
    CollectionDraftEstimate,
    OperationError,
>)
    ensures
        match r {
            Ok(estimate) => draft_validation(draft@) == Ok::<CollectionDraftEstimate, Seq<char>>(
                estimate,
            ),
            Err(error) => draft_validation(draft@) is Err && error@ == failure(
                draft_validation(draft@)->Err_0,
            ),
        },
{
    let estimate = estimate(draft)?;
    encode_collection_draft(draft)?;
    Ok(estimate)
}

fn admitted_estimate(draft: &CollectionDraft) -> (r: Result<
    CollectionDraftEstimate,
    OperationError,
>)
    ensures
        match r {
            Ok(estimate) => draft_admission(draft@) == Ok::<CollectionDraftEstimate, Seq<char>>(
                estimate,
            ),
            Err(error) => draft_admission(draft@) is Err && error@ == failure(
                draft_admission(draft@)->Err_0,
            ),
        },
{
    let estimate = validated_estimate(draft)?;
    if estimate.fits_budget {
        Ok(estimate)
    } else {
        Err(OperationError::failed("collection preview exceeds its configured hard budget"))
    }
}

fn begin_create(draft: CollectionDraft, image_policy: Option<ImagePolicy>) -> (step: CollectionStep)
    ensures
        step@ == first_step(
            AdministrationView::Add { draft: draft@, image_policy: image_view(image_policy) },
        ),
{
    match admitted_estimate(&draft) {
        Ok(estimate) => CollectionStep::Create(PendingCreate { draft, image_policy, estimate }),
        Err(error) => CollectionStep::Finished(Err(error)),
    }
}

fn begin_edit(
    collection_id: CollectionId,
    expected_generation: u64,
    draft: CollectionDraft,
    image_policy: Option<ImagePolicy>,
) -> (step: CollectionStep)
    ensures
        step@ == first_step(
            AdministrationView::Edit {
                collection_id: collection_id@,
                expected_generation,
                draft: draft@,
                image_policy: image_view(image_policy),
            },
        ),
{
    match admitted_estimate(&draft) {
        Ok(estimate) => CollectionStep::ReadConfiguration(
            PendingEdit { collection_id, expected_generation, draft, image_policy, estimate },
        ),
        Err(error) => CollectionStep::Finished(Err(error)),
    }
}

/// Starts a collection operation while the caller holds writer ownership.
pub fn administer_collection_direct(administration: CollectionAdministration) -> (step:
    CollectionStep)
    ensures
        step@ == first_step(administration@),
{
    match administration {
        CollectionAdministration::Estimate(draft) => match validated_estimate(&draft) {
            Ok(estimate) => CollectionStep::Finished(
                Ok(CollectionAdministrationOutcome::Estimated(estimate)),
            ),
            Err(error) => CollectionStep::Finished(Err(error)),
        },
        CollectionAdministration::Add(draft) => begin_create(draft, None),
        CollectionAdministration::AddWithImagePolicy { draft, image_policy } => begin_create(
            draft,
            Some(image_policy),
        ),
        CollectionAdministration::Edit { collection_id, expected_generation, draft } => begin_edit(
            collection_id,
            expected_generation,
            draft,
            None,
        ),
        CollectionAdministration::EditWithImagePolicy {
            collection_id,
            expected_generation,
            draft,
            image_policy,
        } => begin_edit(collection_id, expected_generation, draft, Some(image_policy)),
        CollectionAdministration::Remove { collection_id } => CollectionStep::Tombstone {
            collection_id,
        },
    }
}

/// The source that the store read, as plain values.
pub open spec fn source_reply_view(reply: Result<Option<WikiId>, String>) -> Result<
    Option<u64>,
    Seq<char>,
> {
    match reply {
        Ok(Some(wiki_id)) => Ok(Some(wiki_id@)),
        Ok(None) => Ok(None),
        Err(message) => Err(message@),
    }
}

impl PendingCreate {
    /// Answers the operation with what the store said.
    pub fn finish(self, created: Result<CollectionId, String>) -> (r: Result<
        CollectionAdministrationOutcome,
        OperationError,
    >)
        ensures
            answer_view(r) == (match created {
                Ok(collection_id) => Ok::<CollectionOutcomeView, FailureView>(
                    CollectionOutcomeView::Added {
                        collection_id: collection_id@,
                        estimate: self.estimate,
                    },
                ),
                Err(message) => Err::<CollectionOutcomeView, FailureView>(failure(message@)),
            }),
    {
        match created {
            Ok(collection_id) => Ok(
                CollectionAdministrationOutcome::Added { collection_id, estimate: self.estimate },
            ),
            Err(message) => Err(OperationError::failed(message.as_str())),
        }
    }
}

impl PendingEdit {
    /// Continues with the source of the configured collection, if there is one.
    pub fn with_source(self, source: Result<Option<WikiId>, String>) -> (step: CollectionStep)
        ensures
            step@ == step_after_configuration(self@, source_reply_view(source)),
    {
        match source {
            Err(message) => CollectionStep::Finished(
                Err(OperationError::failed(message.as_str())),
            ),
            Ok(None) => CollectionStep::Finished(
                Err(OperationError::failed("collection is not configured")),
            ),
            Ok(Some(wiki_id)) => {
                if wiki_id.get() != self.draft.wiki_id.get() {
                    CollectionStep::Finished(
                        Err(
                            OperationError::failed(
                                "a collection edit cannot change its source wiki",
                            ),
                        ),
                    )
                } else {
                    CollectionStep::Update(self)
                }
            },
        }
    }

    /// Answers the operation with what the store said.
    pub fn finish(self, updated: Result<(), String>) -> (r: Result<
        CollectionAdministrationOutcome,
        OperationError,
    >)
        ensures
            answer_view(r) == (match updated {
                Ok(()) => Ok::<CollectionOutcomeView, FailureView>(
                    CollectionOutcomeView::Edited {
                        collection_id: self@.collection_id,
                        estimate: self.estimate,
                    },
                ),
                Err(message) => Err::<CollectionOutcomeView, FailureView>(failure(message@)),
            }),
    {
        match updated {
            Ok(()) => Ok(
                CollectionAdministrationOutcome::Edited {
                    collection_id: self.collection_id,
                    estimate: self.estimate,
                },
            ),
            Err(message) => Err(OperationError::failed(message.as_str())),
        }
    }
}

/// Answers a removal with what the store said.
pub fn finish_removal(collection_id: CollectionId, tombstoned: Result<(), String>) -> (r: Result<
    CollectionAdministrationOutcome,
    OperationError,
>)
    ensures
        answer_view(r) == (match tombstoned {
            Ok(()) => Ok::<CollectionOutcomeView, FailureView>(
                CollectionOutcomeView::Removed { collection_id: collection_id@ },
            ),
            Err(message) => Err::<CollectionOutcomeView, FailureView>(failure(message@)),
        }),
{
    match tombstoned {
        Ok(()) => Ok(CollectionAdministrationOutcome::Removed { collection_id }),
        Err(message) => Err(OperationError::failed(message.as_str())),
    }
}

/// The parts of a draft that the store commits in one transaction.
#[derive(Debug, PartialEq, Eq)]
pub struct CollectionPreviewCommit<'a> {
    pub rule: &'a CollectionRule,
    pub history_policy: HistoryPolicy,
    pub budget: CollectionBudget,
    pub removal_policy: CollectionRemovalPolicy,
    pub members: &'a Vec<ResolvedCollectionMember>,
    pub missing_titles: &'a Vec<PageTitle>,
    pub predicted_canonical_bytes: Option<u64>,
}

/// Borrows the parts of a draft that are committed.
pub fn preview_commit(draft: &CollectionDraft) -> (commit: CollectionPreviewCommit<'_>)
    ensures
        commit == (CollectionPreviewCommit {
            rule: &draft.preview.rule,
            history_policy: draft.history_policy,
            budget: draft.budget,
            removal_policy: draft.removal_policy,
            members: &draft.preview.members,
            missing_titles: &draft.preview.missing_titles,
            predicted_canonical_bytes: draft.preview.predicted_canonical_bytes,
        }),
{
    CollectionPreviewCommit {
        rule: &draft.preview.rule,
        history_policy: draft.history_policy,
        budget: draft.budget,
        removal_policy: draft.removal_policy,
        members: &draft.preview.members,
        missing_titles: &draft.preview.missing_titles,
        predicted_canonical_bytes: draft.preview.predicted_canonical_bytes,
    }
}

/// Only a removal, or a draft that can be staged and fits its hard budget, reaches the
/// store.
pub proof fn law_rejected_draft_reaches_no_store(administration: AdministrationView)
    ensures
        match first_step(administration) {
            CollectionStepView::Finished(answer) => true,
            CollectionStepView::Tombstone { collection_id } => administration
                == AdministrationView::Remove { collection_id },
            CollectionStepView::Create { draft, image_policy, estimate } => draft_encoding(
                draft,
                None,
            ) is Ok && estimate == draft_estimate(draft) && estimate.fits_budget,
            CollectionStepView::ReadConfiguration(pending) => draft_encoding(pending.draft, None)
                is Ok && pending.estimate == draft_estimate(pending.draft)
                && pending.estimate.fits_budget,
            CollectionStepView::Update(pending) => false,
        },
{
}

/// An estimate is answered without the store.
pub proof fn law_estimate_is_not_a_mutation(draft: DraftView)
    ensures
        first_step(AdministrationView::Estimate(draft)) is Finished,
{
}

/// An edit is stored only under the source that its collection already has.
pub proof fn law_edit_keeps_its_source(
    pending: PendingEditView,
    source: Result<Option<u64>, Seq<char>>,
)
    ensures
        step_after_configuration(pending, source) is Update <==> source == Ok::<
            Option<u64>,
            Seq<char>,
        >(Some(pending.draft.wiki_id)),
        step_after_configuration(pending, source) matches CollectionStepView::Update(kept) ==> kept
            == pending,
{
}

/// The pages and bytes of a draft stay within the limits that it names.
pub open spec fn within_limits(draft: DraftView) -> bool {
    &&& draft.budget.maximum_pages matches Some(limit) ==> draft.preview.members.len() <= limit
    &&& draft.budget.maximum_bytes matches Some(limit) ==> (
    draft.preview.predicted_canonical_bytes matches Some(bytes) ==> bytes <= limit)
}

/// A draft that can be encoded is created or read for an edit exactly when it stays within its
/// limits, and then with everything that the operation named; a draft that cannot be encoded
/// goes no further. An estimate never asks for a store, a removal always does.
pub proof fn law_only_drafts_within_their_limits_are_committed(
    administration: CollectionAdministration,
    step: CollectionStep,
)
    requires
        call_ensures(administer_collection_direct, (administration,), step),
    ensures
        administration matches CollectionAdministration::Add(draft) ==> {
            &&& step is Create <==> draft_encoding(draft@, None) is Ok && within_limits(draft@)
            &&& step matches CollectionStep::Create(pending) ==> pending.draft@ == draft@
                && pending.image_policy is None
            &&& step is Create || step is Finished
        },
        administration matches CollectionAdministration::AddWithImagePolicy {
            draft,
            image_policy,
        } ==> {
            &&& step is Create <==> draft_encoding(draft@, None) is Ok && within_limits(draft@)
            &&& step matches CollectionStep::Create(pending) ==> pending.draft@ == draft@
                && image_view(pending.image_policy) == Some(image_policy@)
            &&& step is Create || step is Finished
        },
        administration matches CollectionAdministration::Edit {
            collection_id,
            expected_generation,
            draft,
        } ==> {
            &&& step is ReadConfiguration <==> draft_encoding(draft@, None) is Ok && within_limits(
                draft@,
            )
            &&& step matches CollectionStep::ReadConfiguration(pending) ==> pending.draft@ == draft@
                && pending.collection_id@ == collection_id@ && pending.expected_generation
                == expected_generation && pending.image_policy is None
            &&& step is ReadConfiguration || step is Finished
        },
        administration matches CollectionAdministration::EditWithImagePolicy {
            collection_id,
            expected_generation,
            draft,
            image_policy,
        } ==> {
            &&& step is ReadConfiguration <==> draft_encoding(draft@, None) is Ok && within_limits(
                draft@,
            )
            &&& step matches CollectionStep::ReadConfiguration(pending) ==> pending.draft@ == draft@
                && pending.collection_id@ == collection_id@ && pending.expected_generation
                == expected_generation && image_view(pending.image_policy) == Some(image_policy@)
            &&& step is ReadConfiguration || step is Finished
        },
        administration is Estimate ==> step is Finished,
        administration matches CollectionAdministration::Remove { collection_id } ==> (
        step matches CollectionStep::Tombstone { collection_id: removed } && removed@
            == collection_id@),
{
    match administration {
        CollectionAdministration::Add(draft) => lemma_estimated_pages(draft@),
        CollectionAdministration::AddWithImagePolicy { draft, image_policy } =>
            lemma_estimated_pages(draft@),
        CollectionAdministration::Edit { collection_id, expected_generation, draft } =>
            lemma_estimated_pages(draft@),
        CollectionAdministration::EditWithImagePolicy {
            collection_id,
            expected_generation,
            draft,
            image_policy,
        } => lemma_estimated_pages(draft@),
        _ => {},
    }
}

proof fn lemma_estimated_pages(draft: DraftView)
    ensures
        draft_encoding(draft, None) is Ok ==> draft.preview.members.len() <= 10_000,
{
}

/// What the store said is what is answered: the collection that was created, edited or
/// removed, with the estimate of its draft, or the store's failure.
pub proof fn law_store_decides_the_answer(
    create: PendingCreate,
    edit: PendingEdit,
    collection_id: CollectionId,
    created: Result<CollectionId, String>,
    stored: Result<(), String>,
    added: Result<CollectionAdministrationOutcome, OperationError>,
    edited: Result<CollectionAdministrationOutcome, OperationError>,
    removed: Result<CollectionAdministrationOutcome, OperationError>,
)
    requires
        call_ensures(PendingCreate::finish, (create, created), added),
        call_ensures(PendingEdit::finish, (edit, stored), edited),
        call_ensures(finish_removal, (collection_id, stored), removed),
    ensures
        created is Ok <==> added is Ok,
        stored is Ok <==> edited is Ok,
        stored is Ok <==> removed is Ok,
        created matches Err(message) ==> added->Err_0@ == failure(message@),
        stored matches Err(message) ==> edited->Err_0@ == failure(message@)
            && removed->Err_0@ == failure(message@),
        added matches Ok(outcome) ==> (outcome matches CollectionAdministrationOutcome::Added {
            collection_id: id,
            estimate,
        } && id@ == created->Ok_0@ && estimate == create.estimate),
        edited matches Ok(outcome) ==> (outcome matches CollectionAdministrationOutcome::Edited {
            collection_id: id,
            estimate,
        } && id@ == edit.collection_id@ && estimate == edit.estimate),
        removed matches Ok(outcome) ==> (outcome matches CollectionAdministrationOutcome::Removed {
            collection_id: id,
        } && id@ == collection_id@),
{
}

/// What is committed is the draft as it was previewed, with its own budget and policies.
pub proof fn law_commit_is_the_preview(draft: CollectionDraft, commit: CollectionPreviewCommit<'_>)
    requires
        call_ensures(preview_commit, (&draft,), commit),
    ensures
        commit.rule@ == draft@.preview.rule,
        commit.members@ == draft.preview.members@,
        commit.missing_titles@ == draft.preview.missing_titles@,
        commit.budget@ == draft@.budget,
        commit.history_policy@ == draft@.history_policy,
        commit.removal_policy == draft@.removal_policy,
        commit.predicted_canonical_bytes == draft@.preview.predicted_canonical_bytes,
{
}

} // verus!
