//! The daemon's side of a draft upload: one draft is staged in memory, chunk by chunk in
//! order, and handed on by its token once it is whole.

use vstd::prelude::*;
use vstd::string::*;

use crate::administration::{AdministrationView, CollectionAdministration};
use crate::collection::{CollectionAdministrationOutcome, DraftView};
use crate::draft_codec::{draft_encoding, image_view};
use crate::draft_decoder::{decode_collection_draft_version, draft_decoding, DecodedCollectionDraft};
use crate::draft_laws::{
    law_draft_round_trip, law_encoded_draft_fits_staging, valid_draft, valid_image,
};
use crate::error::{failure, FailureView, OperationError};
use crate::model::{CollectionId, ImageView, ModelError};
use crate::protocol::{
    AdminOutcomeView, CollectionAdminProtocolOutcome, CollectionAdminRequest, CollectionAdminView,
    MAX_COLLECTION_DRAFT_BYTES, MAX_COLLECTION_DRAFT_CHUNK_BYTES,
};
use crate::upload::{
    begin_upload, chunk_end, first_upload, next_upload, upload_from, UploadGoal, UploadStepView,
};
use crate::wire::put_slice;

verus! {

/// Seconds without a request after which a staged draft is abandoned.
pub const DRAFT_LIFETIME_SECONDS: u64 = 600;

/// A draft that is being received.
#[derive(Debug, PartialEq, Eq)]
pub struct StagedDraft {
    pub token: u64,
    pub total_bytes: u32,
    pub received: Vec<u8>,
}

/// Plain view of a staged draft.
pub struct StagedView {
    pub token: u64,
    pub total_bytes: u32,
    pub received: Seq<u8>,
}

impl View for StagedDraft {
    type V = StagedView;

    open spec fn view(&self) -> StagedView {
        StagedView {
            token: self.token,
            total_bytes: self.total_bytes,
            received: self.received@,
        }
    }
}

/// The staging area of a daemon: at most one active draft, and the token of the next.
#[derive(Debug, PartialEq, Eq)]
pub struct DraftStaging {
    pub next_token: u64,
    pub active: Option<StagedDraft>,
}

/// Plain view of a staging area.
pub struct StagingView {
    pub next_token: u64,
    pub active: Option<StagedView>,
}

impl View for DraftStaging {
    type V = StagingView;

    open spec fn view(&self) -> StagingView {
        StagingView {
            next_token: self.next_token,
            active: match self.active {
                Some(draft) => Some(draft@),
                None => None,
            },
        }
    }
}

/// What the daemon does with a collection request.
#[derive(Debug, PartialEq, Eq)]
pub enum StagingStep {
    /// Answer it.
    Reply(Result<CollectionAdminProtocolOutcome, OperationError>),
    /// Perform the operation and answer with its outcome.
    Administer(CollectionAdministration),
}

/// Plain view of a step.
pub enum StagingStepView {
    Reply(Result<AdminOutcomeView, FailureView>),
    Administer(AdministrationView),
}

impl View for StagingStep {
    type V = StagingStepView;

    open spec fn view(&self) -> StagingStepView {
        match self {
            StagingStep::Reply(Ok(outcome)) => StagingStepView::Reply(Ok(outcome@)),
            StagingStep::Reply(Err(error)) => StagingStepView::Reply(Err(error@)),
            StagingStep::Administer(administration) => StagingStepView::Administer(
                administration@,
            ),
        }
    }
}

/// A refusal with its reason.
pub open spec fn refused(message: Seq<char>) -> StagingStepView {
    StagingStepView::Reply(Err(failure(message)))
}

/// Nothing is staged.
pub open spec fn nothing_staged(staging: StagingView) -> StagingView {
    StagingView { active: None, ..staging }
}

/// The staging area after some seconds without a collection request: a draft that was idle for
/// its lifetime is gone.
pub open spec fn after_idling(staging: StagingView, idle_seconds: u64) -> StagingView {
    if idle_seconds >= DRAFT_LIFETIME_SECONDS {
        nothing_staged(staging)
    } else {
        staging
    }
}

/// The active draft with a token.
pub open spec fn active_draft(staging: StagingView, token: u64) -> Option<StagedView> {
    match staging.active {
        Some(draft) => if draft.token == token {
            Some(draft)
        } else {
            None
        },
        None => None,
    }
}

/// A new draft takes the place of an abandoned one, under a fresh token.
pub open spec fn begun(staging: StagingView, total_bytes: u32) -> (StagingView, StagingStepView) {
    if total_bytes == 0 || total_bytes > MAX_COLLECTION_DRAFT_BYTES {
        (staging, refused("collection draft size is outside the staging bounds"@))
    } else if staging.next_token == u64::MAX {
        (staging, refused("collection draft tokens are exhausted"@))
    } else {
        (
            StagingView {
                next_token: (staging.next_token + 1) as u64,
                active: Some(
                    StagedView {
                        token: staging.next_token,
                        total_bytes,
                        received: Seq::empty(),
                    },
                ),
            },
            StagingStepView::Reply(Ok(AdminOutcomeView::Begun { token: staging.next_token })),
        )
    }
}

/// The next chunk in order is kept; any other is refused and changes nothing.
pub open spec fn appended(
    staging: StagingView,
    token: u64,
    offset: u32,
    bytes: Seq<u8>,
) -> (StagingView, StagingStepView) {
    match active_draft(staging, token) {
        None => (staging, refused("unknown collection draft token"@)),
        Some(draft) => if offset != draft.received.len() {
            (staging, refused("collection draft chunk is out of order"@))
        } else if bytes.len() == 0 || bytes.len() > MAX_COLLECTION_DRAFT_CHUNK_BYTES || offset
            + bytes.len() > draft.total_bytes {
            (staging, refused("collection draft chunk is outside its bounds"@))
        } else {
            (
                StagingView {
                    active: Some(StagedView { received: draft.received + bytes, ..draft }),
                    ..staging
                },
                StagingStepView::Reply(
                    Ok(
                        AdminOutcomeView::Appended {
                            token,
                            received_bytes: (offset + bytes.len()) as u32,
                            total_bytes: draft.total_bytes,
                        },
                    ),
                ),
            )
        },
    }
}

/// The draft with a token, once every byte of it is there and it can be read.
#[verifier::opaque]
pub open spec fn whole_draft(staging: StagingView, token: u64) -> Result<
    (DraftView, Option<ImageView>),
    Seq<char>,
> {
    match active_draft(staging, token) {
        None => Err("unknown collection draft token"@),
        Some(draft) => if draft.received.len() != draft.total_bytes {
            Err("collection draft is incomplete"@)
        } else {
            draft_decoding(draft.received)
        },
    }
}

/// How a collection request changes the staging area and what is done with it.
pub open spec fn staging_step(staging: StagingView, request: CollectionAdminView) -> (
    StagingView,
    StagingStepView,
) {
    match request {
        CollectionAdminView::Begin { total_bytes } => begun(staging, total_bytes),
        CollectionAdminView::Append { token, offset, bytes } => appended(
            staging,
            token,
            offset,
            bytes,
        ),
        CollectionAdminView::Estimate { token } => match whole_draft(staging, token) {
            Err(message) => (staging, refused(message)),
            Ok((draft, image_policy)) => (
                staging,
                StagingStepView::Administer(AdministrationView::Estimate(draft)),
            ),
        },
        CollectionAdminView::Add { token } => match whole_draft(staging, token) {
            Err(message) => (staging, refused(message)),
            Ok((draft, image_policy)) => (
                nothing_staged(staging),
                StagingStepView::Administer(AdministrationView::Add { draft, image_policy }),
            ),
        },
        CollectionAdminView::Edit { token, collection_id, expected_generation } =>
            if collection_id == 0 {
                (staging, refused(ModelError::ZeroIdentifier.text()))
            } else {
                match whole_draft(staging, token) {
                    Err(message) => (staging, refused(message)),
                    Ok((draft, image_policy)) => (
                        nothing_staged(staging),
                        StagingStepView::Administer(
                            AdministrationView::Edit {
                                collection_id,
                                expected_generation,
                                draft,
                                image_policy,
                            },
                        ),
                    ),
                }
            },
        CollectionAdminView::Remove { collection_id } => if collection_id == 0 {
            (staging, refused(ModelError::ZeroIdentifier.text()))
        } else {
            (
                staging,
                StagingStepView::Administer(AdministrationView::Remove { collection_id }),
            )
        },
        CollectionAdminView::Abort { token } => match active_draft(staging, token) {
            None => (staging, refused("unknown collection draft token"@)),
            Some(draft) => (
                nothing_staged(staging),
                StagingStepView::Reply(Ok(AdminOutcomeView::Aborted { token })),
            ),
        },
    }
}

fn refuse(message: &str) -> (step: StagingStep)
    ensures
        step@ == refused(message@),
{
    StagingStep::Reply(Err(OperationError::failed(message)))
}

impl DraftStaging {
    /// An empty staging area.
    pub fn new() -> (staging: DraftStaging)
        ensures
            staging@ == (StagingView { next_token: 1, active: None }),
    {
        DraftStaging { next_token: 1, active: None }
    }

    fn begin(&mut self, total_bytes: u32) -> (step: StagingStep)
        ensures
            (final(self)@, step@) == begun(old(self)@, total_bytes),
    {
        if total_bytes == 0 || total_bytes as usize > MAX_COLLECTION_DRAFT_BYTES {
            return refuse("collection draft size is outside the staging bounds");
        }
        let token: u64 = self.next_token;
        if token == u64::MAX {
            return refuse("collection draft tokens are exhausted");
        }
        self.next_token = token + 1;
        self.active = Some(StagedDraft { token, total_bytes, received: Vec::new() });
        StagingStep::Reply(Ok(CollectionAdminProtocolOutcome::Begun { token }))
    }

    fn append(&mut self, token: u64, offset: u32, bytes: &[u8]) -> (step: StagingStep)
        ensures
            (final(self)@, step@) == appended(old(self)@, token, offset, bytes@),
    {
        let draft = match self.active.take() {
            None => return refuse("unknown collection draft token"),
            Some(draft) => draft,
        };
        let mut draft = draft;
        if draft.token != token {
            self.active = Some(draft);
            return refuse("unknown collection draft token");
        }
        if offset as usize != draft.received.len() {
            self.active = Some(draft);
            return refuse("collection draft chunk is out of order");
        }
        let total_bytes: u32 = draft.total_bytes;
        if bytes.len() == 0 || bytes.len() > MAX_COLLECTION_DRAFT_CHUNK_BYTES || offset as u64
            + bytes.len() as u64 > total_bytes as u64 {
            self.active = Some(draft);
            return refuse("collection draft chunk is outside its bounds");
        }
        put_slice(&mut draft.received, bytes);
        self.active = Some(draft);
        StagingStep::Reply(
            Ok(
                CollectionAdminProtocolOutcome::Appended {
                    token,
                    received_bytes: offset + bytes.len() as u32,
                    total_bytes,
                },
            ),
        )
    }

    fn whole(&self, token: u64) -> (r: Result<DecodedCollectionDraft, OperationError>)
        ensures
            match r {
                Ok(decoded) => whole_draft(self@, token) == Ok::<
                    (DraftView, Option<ImageView>),
                    Seq<char>,
                >((decoded.draft@, image_view(decoded.image_policy))),
                Err(error) => whole_draft(self@, token) is Err && error@ == failure(
                    whole_draft(self@, token)->Err_0,
                ),
            },
    {
        reveal(whole_draft);
        match &self.active {
            None => Err(OperationError::failed("unknown collection draft token")),
            Some(draft) => if draft.token != token {
                Err(OperationError::failed("unknown collection draft token"))
            } else if draft.received.len() != draft.total_bytes as usize {
                Err(OperationError::failed("collection draft is incomplete"))
            } else {
                decode_collection_draft_version(draft.received.as_slice())
            },
        }
    }

    fn edit(&mut self, token: u64, raw: u64, expected_generation: u64) -> (step: StagingStep)
        ensures
            (final(self)@, step@) == staging_step(
                old(self)@,
                CollectionAdminView::Edit { token, collection_id: raw, expected_generation },
            ),
    {
        let collection_id = match CollectionId::new(raw) {
            Ok(collection_id) => collection_id,
            Err(error) => return refuse(error.message()),
        };
        match self.whole(token) {
            Err(error) => StagingStep::Reply(Err(error)),
            Ok(decoded) => {
                self.active = None;
                StagingStep::Administer(
                    match decoded.image_policy {
                        Some(image_policy) => CollectionAdministration::EditWithImagePolicy {
                            collection_id,
                            expected_generation,
                            draft: decoded.draft,
                            image_policy,
                        },
                        None => CollectionAdministration::Edit {
                            collection_id,
                            expected_generation,
                            draft: decoded.draft,
                        },
                    },
                )
            },
        }
    }

    /// Drops an abandoned draft, given the seconds since the last collection request.
    pub fn expire(&mut self, idle_seconds: u64)
        ensures
            final(self)@ == after_idling(old(self)@, idle_seconds),
    {
        if idle_seconds >= DRAFT_LIFETIME_SECONDS {
            self.active = None;
        }
    }

    /// Takes one collection request.
    pub fn receive(&mut self, request: CollectionAdminRequest) -> (step: StagingStep)
        ensures
            (final(self)@, step@) == staging_step(old(self)@, request@),
    {
        match request {
            CollectionAdminRequest::Begin { total_bytes } => self.begin(total_bytes),
            CollectionAdminRequest::Append { token, offset, bytes } => self.append(
                token,
                offset,
                bytes.as_slice(),
            ),
            CollectionAdminRequest::Estimate { token } => match self.whole(token) {
                Err(error) => StagingStep::Reply(Err(error)),
                Ok(decoded) => StagingStep::Administer(
                    CollectionAdministration::Estimate(decoded.draft),
                ),
            },
            CollectionAdminRequest::Add { token } => match self.whole(token) {
                Err(error) => StagingStep::Reply(Err(error)),
                Ok(decoded) => {
                    self.active = None;
                    StagingStep::Administer(
                        match decoded.image_policy {
                            Some(image_policy) => CollectionAdministration::AddWithImagePolicy {
                                draft: decoded.draft,
                                image_policy,
                            },
                            None => CollectionAdministration::Add(decoded.draft),
                        },
                    )
                },
            },
            CollectionAdminRequest::Edit { token, collection_id, expected_generation } => self.edit(
                token,
                collection_id,
                expected_generation,
            ),
            CollectionAdminRequest::Remove { collection_id } => match CollectionId::new(
                collection_id,
            ) {
                Err(error) => refuse(error.message()),
                Ok(collection_id) => StagingStep::Administer(
                    CollectionAdministration::Remove { collection_id },
                ),
            },
            CollectionAdminRequest::Abort { token } => {
                let known: bool = match &self.active {
                    Some(draft) => draft.token == token,
                    None => false,
                };
                if known {
                    self.active = None;
                    StagingStep::Reply(Ok(CollectionAdminProtocolOutcome::Aborted { token }))
                } else {
                    refuse("unknown collection draft token")
                }
            },
        }
    }
}

/// Answers a collection request with the outcome of its operation.
pub fn administered(outcome: Result<CollectionAdministrationOutcome, OperationError>) -> (r: Result<
    CollectionAdminProtocolOutcome,
    OperationError,
>)
    ensures
        match (outcome, r) {
            (Ok(outcome), Ok(CollectionAdminProtocolOutcome::Completed(answer))) => answer
                == outcome,
            (Err(error), Err(answer)) => answer == error,
            _ => false,
        },
{
    match outcome {
        Ok(outcome) => Ok(CollectionAdminProtocolOutcome::Completed(outcome)),
        Err(error) => Err(error),
    }
}

/// The staging areas that exist.
pub open spec fn staging_valid(staging: StagingView) -> bool {
    staging.active matches Some(draft) ==> draft.token < staging.next_token
        && draft.received.len() <= draft.total_bytes <= MAX_COLLECTION_DRAFT_BYTES
}

/// No request lets a draft outgrow its announced size or the staging ceiling, and every
/// token is given once.
pub proof fn law_staging_is_bounded(staging: StagingView, request: CollectionAdminView)
    requires
        staging_valid(staging),
    ensures
        staging_valid(staging_step(staging, request).0),
        staging_step(staging, request).1 matches StagingStepView::Reply(
            Ok(AdminOutcomeView::Begun { token }),
        ) ==> token == staging.next_token && staging_step(staging, request).0.next_token > token,
{
}

/// A refused request leaves the staging area as it was.
pub proof fn law_refused_requests_change_nothing(staging: StagingView, request: CollectionAdminView)
    ensures
        staging_step(staging, request).1 matches StagingStepView::Reply(Err(refusal))
            ==> staging_step(staging, request).0 == staging,
{
}

/// Duplicate and out-of-order chunks are refused.
pub proof fn law_chunks_arrive_in_order(
    staging: StagingView,
    token: u64,
    offset: u32,
    bytes: Seq<u8>,
)
    requires
        active_draft(staging, token) matches Some(draft) && draft.received.len() != offset,
    ensures
        staging_step(staging, CollectionAdminView::Append { token, offset, bytes }) == (
            staging,
            refused("collection draft chunk is out of order"@),
        ),
{
}

/// The token of a collection request.
pub open spec fn token_of(request: CollectionAdminView) -> Option<u64> {
    match request {
        CollectionAdminView::Begin { total_bytes } => None,
        CollectionAdminView::Append { token, offset, bytes } => Some(token),
        CollectionAdminView::Estimate { token } => Some(token),
        CollectionAdminView::Add { token } => Some(token),
        CollectionAdminView::Edit { token, collection_id, expected_generation } => Some(token),
        CollectionAdminView::Remove { collection_id } => None,
        CollectionAdminView::Abort { token } => Some(token),
    }
}

/// An abandoned draft expires: once it was idle for its lifetime nothing of it is kept, every
/// request for a token is refused, and no token is given again.
pub proof fn law_abandoned_drafts_expire(
    staging: StagingView,
    idle_seconds: u64,
    request: CollectionAdminView,
)
    requires
        idle_seconds >= DRAFT_LIFETIME_SECONDS,
    ensures
        after_idling(staging, idle_seconds).active is None,
        after_idling(staging, idle_seconds).next_token == staging.next_token,
        token_of(request) is Some ==> staging_step(
            after_idling(staging, idle_seconds),
            request,
        ) == (
            after_idling(staging, idle_seconds),
            match request {
                CollectionAdminView::Edit { token, collection_id: 0, expected_generation } => refused(
                    ModelError::ZeroIdentifier.text(),
                ),
                _ => refused("unknown collection draft token"@),
            },
        ),
{
    reveal(whole_draft);
}

/// Runs an operation of the client against the staging area of the daemon until an
/// administration, or nothing more, comes of it.
pub open spec fn forwarded(step: UploadStepView, staging: StagingView, calls: nat) -> (
    UploadStepView,
    StagingView,
    Option<AdministrationView>,
)
    decreases calls,
{
    match step {
        UploadStepView::Call { request, upload } => if calls == 0 {
            (step, staging, None)
        } else {
            match staging_step(staging, request) {
                (after, StagingStepView::Administer(administration)) => (
                    step,
                    after,
                    Some(administration),
                ),
                (after, StagingStepView::Reply(Ok(outcome))) => forwarded(
                    next_upload(upload, Ok(outcome)),
                    after,
                    (calls - 1) as nat,
                ),
                (after, StagingStepView::Reply(Err(refusal))) => (step, after, None),
            }
        },
        UploadStepView::Finished(result) => (step, staging, None),
    }
}

/// The operation that a goal makes of a draft.
pub open spec fn goal_administration(
    goal: UploadGoal,
    draft: DraftView,
    image_policy: Option<ImageView>,
) -> AdministrationView {
    match goal {
        UploadGoal::Estimate => AdministrationView::Estimate(draft),
        UploadGoal::Add => AdministrationView::Add { draft, image_policy },
        UploadGoal::Edit { collection_id, expected_generation } => AdministrationView::Edit {
            collection_id,
            expected_generation,
            draft,
            image_policy,
        },
    }
}

proof fn lemma_forwarded(
    encoded: Seq<u8>,
    goal: UploadGoal,
    draft: DraftView,
    image_policy: Option<ImageView>,
    staging: StagingView,
    token: u64,
    offset: nat,
    calls: nat,
)
    requires
        encoded.len() <= MAX_COLLECTION_DRAFT_BYTES,
        forall|area: StagingView|
            #![trigger whole_draft(area, token)]
            area.active == Some(
                StagedView { token, total_bytes: encoded.len() as u32, received: encoded },
            ) ==> whole_draft(area, token) == Ok::<(DraftView, Option<ImageView>), Seq<char>>(
                (draft, image_policy),
            ),
        goal matches UploadGoal::Edit { collection_id, expected_generation } ==> collection_id > 0,
        offset <= encoded.len(),
        staging.active == Some(
            StagedView {
                token,
                total_bytes: encoded.len() as u32,
                received: encoded.take(offset as int),
            },
        ),
        calls > encoded.len() - offset,
    ensures
        forwarded(upload_from(encoded, goal, token, offset), staging, calls).2 == Some(
            goal_administration(goal, draft, image_policy),
        ),
    decreases calls,
{
    if offset >= encoded.len() {
        assert(encoded.take(offset as int) =~= encoded);
    } else {
        let end = chunk_end(encoded.len(), offset);
        let bytes = encoded.subrange(offset as int, end as int);
        let request = CollectionAdminView::Append { token, offset: offset as u32, bytes };
        let after = staging_step(staging, request).0;
        assert(encoded.take(offset as int) + bytes =~= encoded.take(end as int));
        lemma_forwarded(
            encoded,
            goal,
            draft,
            image_policy,
            after,
            token,
            end,
            (calls - 1) as nat,
        );
    }
}

/// The operations that exist.
pub open spec fn valid_administration(administration: AdministrationView) -> bool {
    match administration {
        AdministrationView::Estimate(draft) => valid_draft(draft),
        AdministrationView::Add { draft, image_policy } => valid_draft(draft) && valid_image(
            image_policy,
        ),
        AdministrationView::Edit { collection_id, expected_generation, draft, image_policy } =>
            collection_id > 0 && valid_draft(draft) && valid_image(image_policy),
        AdministrationView::Remove { collection_id } => collection_id > 0,
    }
}

#[verifier::spinoff_prover]
proof fn lemma_whole(
    draft: DraftView,
    image_policy: Option<ImageView>,
    area: StagingView,
    token: u64,
)
    requires
        valid_draft(draft),
        valid_image(image_policy),
        draft_encoding(draft, image_policy) is Ok,
        area.active == Some(
            StagedView {
                token,
                total_bytes: draft_encoding(draft, image_policy)->Ok_0.len() as u32,
                received: draft_encoding(draft, image_policy)->Ok_0,
            },
        ),
    ensures
        whole_draft(area, token) == Ok::<(DraftView, Option<ImageView>), Seq<char>>(
            (draft, image_policy),
        ),
{
    reveal(whole_draft);
    law_draft_round_trip(draft, image_policy);
    law_encoded_draft_fits_staging(draft, image_policy);
}

#[verifier::spinoff_prover]
#[verifier::rlimit(40)]
proof fn lemma_goal(
    draft: DraftView,
    image_policy: Option<ImageView>,
    goal: UploadGoal,
    staging: StagingView,
    calls: nat,
)
    requires
        valid_draft(draft),
        valid_image(image_policy),
        draft_encoding(draft, image_policy) is Ok,
        goal matches UploadGoal::Edit { collection_id, expected_generation } ==> collection_id > 0,
        staging.next_token < u64::MAX,
        calls > draft_encoding(draft, image_policy)->Ok_0.len() + 1,
    ensures
        forwarded(begin_upload(draft, image_policy, goal), staging, calls).2 == Some(
            goal_administration(goal, draft, image_policy),
        ),
{
    let encoded = draft_encoding(draft, image_policy)->Ok_0;
    law_encoded_draft_fits_staging(draft, image_policy);
    let token = staging.next_token;
    let after = begun(staging, encoded.len() as u32).0;
    assert(encoded.take(0) =~= Seq::<u8>::empty());
    assert forall|area: StagingView|
        #![trigger whole_draft(area, token)]
        area.active == Some(
            StagedView { token, total_bytes: encoded.len() as u32, received: encoded },
        ) implies whole_draft(area, token) == Ok::<(DraftView, Option<ImageView>), Seq<char>>(
        (draft, image_policy),
    ) by {
        lemma_whole(draft, image_policy, area, token);
    }
    lemma_forwarded(encoded, goal, draft, image_policy, after, token, 0, (calls - 1) as nat);
}

/// Each operation that the client hands to the daemon is the same operation there, after
/// the last chunk of its draft and not before, whatever was staged until then.
pub proof fn law_forwarded_operations_arrive_unchanged(
    administration: AdministrationView,
    staging: StagingView,
)
    requires
        valid_administration(administration),
        first_upload(administration) is Call,
        staging.next_token < u64::MAX,
    ensures
        forwarded(
            first_upload(administration),
            staging,
            (MAX_COLLECTION_DRAFT_BYTES + 2) as nat,
        ).2 == Some(administration),
{
    let calls = (MAX_COLLECTION_DRAFT_BYTES + 2) as nat;
    match administration {
        AdministrationView::Estimate(draft) => {
            law_encoded_draft_fits_staging(draft, None);
            lemma_goal(draft, None, UploadGoal::Estimate, staging, calls);
        },
        AdministrationView::Add { draft, image_policy } => {
            law_encoded_draft_fits_staging(draft, image_policy);
            lemma_goal(draft, image_policy, UploadGoal::Add, staging, calls);
        },
        AdministrationView::Edit { collection_id, expected_generation, draft, image_policy } => {
            law_encoded_draft_fits_staging(draft, image_policy);
            lemma_goal(
                draft,
                image_policy,
                UploadGoal::Edit { collection_id, expected_generation },
                staging,
                calls,
            );
        },
        AdministrationView::Remove { collection_id } => {},
    }
}

/// A draft is begun under a token that no draft had before, for any size up to the ceiling, and
/// it starts empty.
pub proof fn law_new_drafts_start_empty(total_bytes: u32)
    ensures
        forall|area: &mut DraftStaging, step: StagingStep| #[trigger]
            call_ensures(
                DraftStaging::receive,
                (area, CollectionAdminRequest::Begin { total_bytes }),
                step,
            ) ==> if 0 < total_bytes <= 16_777_216 && (*area).next_token < u64::MAX {
                &&& step@ == StagingStepView::Reply(
                    Ok(AdminOutcomeView::Begun { token: (*area).next_token }),
                )
                &&& (*final(area)).next_token == (*area).next_token + 1
                &&& (*final(area)).active matches Some(draft) && draft.token == (*area).next_token
                    && draft.total_bytes == total_bytes && draft.received@.len() == 0
            } else {
                &&& step@ matches StagingStepView::Reply(Err(_))
                &&& (*final(area))@ == (*area)@
            },
{
}

/// A chunk is kept exactly when it continues the draft with its token where that ends and fits
/// it; then the draft ends with the chunk, and the answer tells how far it has come.
pub proof fn law_chunks_extend_their_draft(token: u64, offset: u32, bytes: Vec<u8>)
    ensures
        forall|area: &mut DraftStaging, step: StagingStep| #[trigger]
            call_ensures(
                DraftStaging::receive,
                (area, CollectionAdminRequest::Append { token, offset, bytes }),
                step,
            ) ==> {
                let fits = (*area).active matches Some(draft) && draft.token == token
                    && draft.received@.len() == offset && 0 < bytes@.len() <= 4_096 && offset
                    + bytes@.len() <= draft.total_bytes;
                if fits {
                    &&& step@ == StagingStepView::Reply(
                        Ok(
                            AdminOutcomeView::Appended {
                                token,
                                received_bytes: (offset + bytes@.len()) as u32,
                                total_bytes: (*area).active->0.total_bytes,
                            },
                        ),
                    )
                    &&& (*final(area)).active matches Some(draft) && draft.token == token
                        && draft.total_bytes == (*area).active->0.total_bytes && draft.received@
                        == (*area).active->0.received@ + bytes@
                } else {
                    &&& step@ matches StagingStepView::Reply(Err(_))
                    &&& (*final(area))@ == (*area)@
                }
            },
{
}

/// An operation goes on only for a draft of which every byte has arrived and that can be read,
/// with that very draft. Adding and editing use the draft up, an estimate keeps it.
pub proof fn law_only_whole_drafts_are_used(request: CollectionAdminRequest)
    ensures
        forall|area: &mut DraftStaging, step: StagingStep| #[trigger]
            call_ensures(DraftStaging::receive, (area, request), step) ==> {
                let token = match request {
                    CollectionAdminRequest::Estimate { token } => token,
                    CollectionAdminRequest::Add { token } => token,
                    CollectionAdminRequest::Edit { token, .. } => token,
                    _ => 0,
                };
                let ready = (*area)@.active matches Some(draft) && draft.token == token
                    && draft.received.len() == draft.total_bytes && draft_decoding(
                    draft.received,
                ) is Ok;
                let content = draft_decoding((*area)@.active->0.received)->Ok_0;
                &&& request is Estimate ==> if ready {
                    &&& step@ == StagingStepView::Administer(
                        AdministrationView::Estimate(content.0),
                    )
                    &&& (*final(area))@ == (*area)@
                } else {
                    step@ matches StagingStepView::Reply(Err(_))
                }
                &&& request is Add ==> if ready {
                    &&& step@ == StagingStepView::Administer(
                        AdministrationView::Add { draft: content.0, image_policy: content.1 },
                    )
                    &&& (*final(area))@.active is None
                } else {
                    step@ matches StagingStepView::Reply(Err(_))
                }
                &&& request matches CollectionAdminRequest::Edit {
                    token,
                    collection_id,
                    expected_generation,
                } ==> if ready && collection_id > 0 {
                    &&& step@ == StagingStepView::Administer(
                        AdministrationView::Edit {
                            collection_id,
                            expected_generation,
                            draft: content.0,
                            image_policy: content.1,
                        },
                    )
                    &&& (*final(area))@.active is None
                } else {
                    step@ matches StagingStepView::Reply(Err(_))
                }
            },
{
    reveal(whole_draft);
}

/// A draft is given up on request or after ten idle minutes, and not before; a collection is
/// removed without any draft.
pub proof fn law_drafts_are_kept_until_given_up(token: u64, collection_id: u64, idle_seconds: u64)
    ensures
        forall|area: &mut DraftStaging, step: StagingStep| #[trigger]
            call_ensures(
                DraftStaging::receive,
                (area, CollectionAdminRequest::Abort { token }),
                step,
            ) ==> if (*area)@.active matches Some(draft) && draft.token == token {
                &&& step@ == StagingStepView::Reply(Ok(AdminOutcomeView::Aborted { token }))
                &&& (*final(area))@.active is None
            } else {
                &&& step@ matches StagingStepView::Reply(Err(_))
                &&& (*final(area))@ == (*area)@
            },
        forall|area: &mut DraftStaging, step: StagingStep| #[trigger]
            call_ensures(
                DraftStaging::receive,
                (area, CollectionAdminRequest::Remove { collection_id }),
                step,
            ) ==> {
                &&& (*final(area))@ == (*area)@
                &&& collection_id > 0 ==> step@ == StagingStepView::Administer(
                    AdministrationView::Remove { collection_id },
                )
                &&& collection_id == 0 ==> (step@ matches StagingStepView::Reply(Err(_)))
            },
        forall|area: &mut DraftStaging, done: ()| #[trigger]
            call_ensures(DraftStaging::expire, (area, idle_seconds), done) ==> {
                &&& idle_seconds >= 600 ==> (*final(area))@.active is None
                &&& idle_seconds < 600 ==> (*final(area))@ == (*area)@
                &&& (*final(area))@.next_token == (*area)@.next_token
            },
{
}

/// A finished operation is answered as completed with what it came to, a refused one with its
/// error.
pub proof fn law_finished_operations_are_answered_as_completed(
    outcome: Result<CollectionAdministrationOutcome, OperationError>,
    r: Result<CollectionAdminProtocolOutcome, OperationError>,
)
    requires
        call_ensures(administered, (outcome,), r),
    ensures
        outcome matches Ok(done) ==> (r matches Ok(CollectionAdminProtocolOutcome::Completed(told))
            && told == done),
        outcome matches Err(error) ==> (r matches Err(told) && told == error),
{
}

} // verus!
