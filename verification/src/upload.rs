//! Collection administration through the daemon: a draft is encoded once, uploaded in
//! ordered bounded chunks and applied by its token.

use vstd::prelude::*;
use vstd::string::*;

use crate::administration::{AdministrationView, CollectionAdministration};
use crate::client::result_view;
use crate::codec::request_encoding;
use crate::collection::{
    CollectionAdministrationOutcome, CollectionDraft, CollectionOutcomeView, DraftView,
};
use crate::draft_codec::{draft_encoding, encode_collection_draft_version, image_view};
use crate::error::{DaemonError, DaemonErrorView};
use crate::model::{ImagePolicy, ImageView};
use crate::protocol::{
    AdminOutcomeView, CollectionAdminProtocolOutcome, CollectionAdminRequest, CollectionAdminView,
    RequestKindView, RequestView, MAX_COLLECTION_DRAFT_BYTES, MAX_COLLECTION_DRAFT_CHUNK_BYTES,
    PROTOCOL_VERSION,
};
use crate::wire::{lemma_be, to_vec};

verus! {

/// What is done with a complete staged draft.
#[derive(Clone, Copy, Debug, PartialEq, Eq, Structural)]
pub enum UploadGoal {
    Estimate,
    Add,
    Edit { collection_id: u64, expected_generation: u64 },
}

/// A collection operation that waits for the reply to its last request.
#[derive(Debug, PartialEq, Eq)]
pub enum Upload {
    /// A removal was sent.
    Removing,
    /// A draft was announced.
    Beginning { encoded: Vec<u8>, goal: UploadGoal },
    /// The bytes from `offset` to `end` were sent.
    Appending { encoded: Vec<u8>, goal: UploadGoal, token: u64, offset: u32, end: u32 },
    /// The staged draft was handed to its goal.
    Finishing { token: u64 },
    /// The staging was dropped; its reply changes nothing.
    Aborting { result: Result<CollectionAdministrationOutcome, DaemonError> },
}

/// Plain view of a collection operation.
pub enum UploadView {
    Removing,
    Beginning { encoded: Seq<u8>, goal: UploadGoal },
    Appending { encoded: Seq<u8>, goal: UploadGoal, token: u64, offset: u32, end: u32 },
    Finishing { token: u64 },
    Aborting { result: Result<CollectionOutcomeView, DaemonErrorView> },
}

impl View for Upload {
    type V = UploadView;

    open spec fn view(&self) -> UploadView {
        match self {
            Upload::Removing => UploadView::Removing,
            Upload::Beginning { encoded, goal } => UploadView::Beginning {
                encoded: encoded@,
                goal: *goal,
            },
            Upload::Appending { encoded, goal, token, offset, end } => UploadView::Appending {
                encoded: encoded@,
                goal: *goal,
                token: *token,
                offset: *offset,
                end: *end,
            },
            Upload::Finishing { token } => UploadView::Finishing { token: *token },
            Upload::Aborting { result } => UploadView::Aborting { result: result_view(*result) },
        }
    }
}

/// What a collection operation does next.
#[derive(Debug, PartialEq, Eq)]
pub enum UploadStep {
    /// Send a request and hand its reply to the operation.
    Call { request: CollectionAdminRequest, upload: Upload },
    /// The operation is over.
    Finished(Result<CollectionAdministrationOutcome, DaemonError>),
}

/// Plain view of a step.
pub enum UploadStepView {
    Call { request: CollectionAdminView, upload: UploadView },
    Finished(Result<CollectionOutcomeView, DaemonErrorView>),
}

impl View for UploadStep {
    type V = UploadStepView;

    open spec fn view(&self) -> UploadStepView {
        match self {
            UploadStep::Call { request, upload } => UploadStepView::Call {
                request: request@,
                upload: upload@,
            },
            UploadStep::Finished(result) => UploadStepView::Finished(result_view(*result)),
        }
    }
}

/// The request that hands a staged draft to its goal.
pub open spec fn goal_request(goal: UploadGoal, token: u64) -> CollectionAdminView {
    match goal {
        UploadGoal::Estimate => CollectionAdminView::Estimate { token },
        UploadGoal::Add => CollectionAdminView::Add { token },
        UploadGoal::Edit { collection_id, expected_generation } => CollectionAdminView::Edit {
            token,
            collection_id,
            expected_generation,
        },
    }
}

/// Where the chunk that starts at an offset ends.
pub open spec fn chunk_end(length: nat, offset: nat) -> nat {
    if offset + MAX_COLLECTION_DRAFT_CHUNK_BYTES < length {
        offset + MAX_COLLECTION_DRAFT_CHUNK_BYTES as nat
    } else {
        length
    }
}

/// The next chunk, or the goal once every byte was sent.
pub open spec fn upload_from(
    encoded: Seq<u8>,
    goal: UploadGoal,
    token: u64,
    offset: nat,
) -> UploadStepView {
    if offset >= encoded.len() {
        UploadStepView::Call {
            request: goal_request(goal, token),
            upload: UploadView::Finishing { token },
        }
    } else {
        let end = chunk_end(encoded.len(), offset);
        UploadStepView::Call {
            request: CollectionAdminView::Append {
                token,
                offset: offset as u32,
                bytes: encoded.subrange(offset as int, end as int),
            },
            upload: UploadView::Appending {
                encoded,
                goal,
                token,
                offset: offset as u32,
                end: end as u32,
            },
        }
    }
}

/// Drops the staging and then returns the result.
pub open spec fn abort_with(
    token: u64,
    result: Result<CollectionOutcomeView, DaemonErrorView>,
) -> UploadStepView {
    UploadStepView::Call {
        request: CollectionAdminView::Abort { token },
        upload: UploadView::Aborting { result },
    }
}

/// The finished operation that a reply reports.
pub open spec fn completed_outcome(reply: Result<AdminOutcomeView, DaemonErrorView>) -> Result<
    CollectionOutcomeView,
    DaemonErrorView,
> {
    match reply {
        Err(error) => Err(error),
        Ok(AdminOutcomeView::Completed(outcome)) => Ok(outcome),
        Ok(_) => Err(
            DaemonErrorView::Protocol("unexpected completed collection administration response"@),
        ),
    }
}

/// The first request of an operation with a draft.
pub open spec fn begin_upload(
    draft: DraftView,
    image_policy: Option<ImageView>,
    goal: UploadGoal,
) -> UploadStepView {
    match draft_encoding(draft, image_policy) {
        Err(_) => UploadStepView::Finished(
            Err(DaemonErrorView::Protocol("collection draft failed local validation"@)),
        ),
        Ok(encoded) => UploadStepView::Call {
            request: CollectionAdminView::Begin { total_bytes: encoded.len() as u32 },
            upload: UploadView::Beginning { encoded, goal },
        },
    }
}

/// The first request of a collection operation.
pub open spec fn first_upload(administration: AdministrationView) -> UploadStepView {
    match administration {
        AdministrationView::Remove { collection_id } => UploadStepView::Call {
            request: CollectionAdminView::Remove { collection_id },
            upload: UploadView::Removing,
        },
        AdministrationView::Estimate(draft) => begin_upload(draft, None, UploadGoal::Estimate),
        AdministrationView::Add { draft, image_policy } => begin_upload(
            draft,
            image_policy,
            UploadGoal::Add,
        ),
        AdministrationView::Edit { collection_id, expected_generation, draft, image_policy } =>
            begin_upload(
            draft,
            image_policy,
            UploadGoal::Edit { collection_id, expected_generation },
        ),
    }
}

/// The step of an operation after the reply to its last request.
pub open spec fn next_upload(
    upload: UploadView,
    reply: Result<AdminOutcomeView, DaemonErrorView>,
) -> UploadStepView {
    match upload {
        UploadView::Removing => UploadStepView::Finished(completed_outcome(reply)),
        UploadView::Beginning { encoded, goal } => match reply {
            Err(error) => UploadStepView::Finished(Err(error)),
            Ok(AdminOutcomeView::Begun { token }) => upload_from(encoded, goal, token, 0),
            Ok(_) => UploadStepView::Finished(
                Err(DaemonErrorView::Protocol("unexpected collection begin response"@)),
            ),
        },
        UploadView::Appending { encoded, goal, token, offset, end } => match reply {
            Err(error) => abort_with(token, Err(error)),
            Ok(outcome) => if outcome == (AdminOutcomeView::Appended {
                token,
                received_bytes: end,
                total_bytes: encoded.len() as u32,
            }) {
                upload_from(encoded, goal, token, end as nat)
            } else {
                abort_with(
                    token,
                    Err(DaemonErrorView::Protocol("unexpected collection append response"@)),
                )
            },
        },
        UploadView::Finishing { token } => {
            let result = completed_outcome(reply);
            if result matches Ok(outcome) && !(outcome is Estimated) {
                UploadStepView::Finished(result)
            } else {
                abort_with(token, result)
            }
        },
        UploadView::Aborting { result } => UploadStepView::Finished(result),
    }
}

/// An operation whose draft fits the staging area and whose chunk lies inside it.
pub open spec fn upload_valid(upload: UploadView) -> bool {
    match upload {
        UploadView::Beginning { encoded, goal } => encoded.len() <= MAX_COLLECTION_DRAFT_BYTES,
        UploadView::Appending { encoded, goal, token, offset, end } => encoded.len()
            <= MAX_COLLECTION_DRAFT_BYTES && end <= encoded.len(),
        _ => true,
    }
}

/// An operation that can only continue validly.
pub open spec fn step_valid(step: UploadStepView) -> bool {
    step matches UploadStepView::Call { request, upload } ==> upload_valid(upload)
}

fn completed_collection_outcome(reply: Result<CollectionAdminProtocolOutcome, DaemonError>) -> (r:
    Result<CollectionAdministrationOutcome, DaemonError>)
    ensures
        result_view(r) == completed_outcome(result_view(reply)),
{
    match reply? {
        CollectionAdminProtocolOutcome::Completed(outcome) => Ok(outcome),
        _ => Err(DaemonError::Protocol("unexpected completed collection administration response")),
    }
}

fn continue_upload(encoded: Vec<u8>, goal: UploadGoal, token: u64, offset: u32) -> (step:
    UploadStep)
    requires
        encoded@.len() <= MAX_COLLECTION_DRAFT_BYTES,
    ensures
        step@ == upload_from(encoded@, goal, token, offset as nat),
        step_valid(step@),
{
    let length: usize = encoded.len();
    let start: usize = offset as usize;
    if start >= length {
        let request = match goal {
            UploadGoal::Estimate => CollectionAdminRequest::Estimate { token },
            UploadGoal::Add => CollectionAdminRequest::Add { token },
            UploadGoal::Edit { collection_id, expected_generation } => CollectionAdminRequest::Edit {
                token,
                collection_id,
                expected_generation,
            },
        };
        return UploadStep::Call { request, upload: Upload::Finishing { token } };
    }
    let end: usize = if MAX_COLLECTION_DRAFT_CHUNK_BYTES < length - start {
        start + MAX_COLLECTION_DRAFT_CHUNK_BYTES
    } else {
        length
    };
    let bytes = to_vec(vstd::slice::slice_subrange(encoded.as_slice(), start, end));
    UploadStep::Call {
        request: CollectionAdminRequest::Append { token, offset, bytes },
        upload: Upload::Appending { encoded, goal, token, offset, end: end as u32 },
    }
}

fn abort_upload(
    token: u64,
    result: Result<CollectionAdministrationOutcome, DaemonError>,
) -> (step: UploadStep)
    ensures
        step@ == abort_with(token, result_view(result)),
{
    UploadStep::Call {
        request: CollectionAdminRequest::Abort { token },
        upload: Upload::Aborting { result },
    }
}

fn stage_collection_draft(
    draft: &CollectionDraft,
    image_policy: Option<ImagePolicy>,
    goal: UploadGoal,
) -> (step: UploadStep)
    ensures
        step@ == begin_upload(draft@, image_view(image_policy), goal),
        step_valid(step@),
{
    match encode_collection_draft_version(draft, image_policy) {
        Err(_) => UploadStep::Finished(
            Err(DaemonError::Protocol("collection draft failed local validation")),
        ),
        Ok(encoded) => UploadStep::Call {
            request: CollectionAdminRequest::Begin { total_bytes: encoded.len() as u32 },
            upload: Upload::Beginning { encoded, goal },
        },
    }
}

impl Upload {
    /// Starts one bounded collection operation.
    pub fn administer_collection(administration: CollectionAdministration) -> (step: UploadStep)
        ensures
            step@ == first_upload(administration@),
            step_valid(step@),
    {
        match administration {
            CollectionAdministration::Remove { collection_id } => UploadStep::Call {
                request: CollectionAdminRequest::Remove { collection_id: collection_id.get() },
                upload: Upload::Removing,
            },
            CollectionAdministration::Estimate(draft) => stage_collection_draft(
                &draft,
                None,
                UploadGoal::Estimate,
            ),
            CollectionAdministration::Add(draft) => stage_collection_draft(
                &draft,
                None,
                UploadGoal::Add,
            ),
            CollectionAdministration::AddWithImagePolicy { draft, image_policy } =>
                stage_collection_draft(&draft, Some(image_policy), UploadGoal::Add),
            CollectionAdministration::Edit { collection_id, expected_generation, draft } =>
                stage_collection_draft(
                &draft,
                None,
                UploadGoal::Edit { collection_id: collection_id.get(), expected_generation },
            ),
            CollectionAdministration::EditWithImagePolicy {
                collection_id,
                expected_generation,
                draft,
                image_policy,
            } => stage_collection_draft(
                &draft,
                Some(image_policy),
                UploadGoal::Edit { collection_id: collection_id.get(), expected_generation },
            ),
        }
    }

    /// Takes the reply to the last request.
    pub fn replied(
        self,
        reply: Result<CollectionAdminProtocolOutcome, DaemonError>,
    ) -> (step: UploadStep)
        requires
            upload_valid(self@),
        ensures
            step@ == next_upload(self@, result_view(reply)),
            step_valid(step@),
    {
        match self {
            Upload::Removing => UploadStep::Finished(completed_collection_outcome(reply)),
            Upload::Beginning { encoded, goal } => match reply {
                Err(error) => UploadStep::Finished(Err(error)),
                Ok(CollectionAdminProtocolOutcome::Begun { token }) => continue_upload(
                    encoded,
                    goal,
                    token,
                    0,
                ),
                Ok(_) => UploadStep::Finished(
                    Err(DaemonError::Protocol("unexpected collection begin response")),
                ),
            },
            Upload::Appending { encoded, goal, token, offset, end } => match reply {
                Err(error) => abort_upload(token, Err(error)),
                Ok(outcome) => {
                    let total_bytes: u32 = encoded.len() as u32;
                    let accepted: bool = match outcome {
                        CollectionAdminProtocolOutcome::Appended {
                            token: response_token,
                            received_bytes,
                            total_bytes: response_total,
                        } => response_token == token && response_total == total_bytes
                            && received_bytes == end,
                        _ => false,
                    };
                    if accepted {
                        continue_upload(encoded, goal, token, end)
                    } else {
                        abort_upload(
                            token,
                            Err(DaemonError::Protocol("unexpected collection append response")),
                        )
                    }
                },
            },
            Upload::Finishing { token } => {
                let result = completed_collection_outcome(reply);
                let kept: bool = match &result {
                    Ok(CollectionAdministrationOutcome::Estimated(_)) => false,
                    Ok(_) => true,
                    Err(_) => false,
                };
                if kept {
                    UploadStep::Finished(result)
                } else {
                    abort_upload(token, result)
                }
            },
            Upload::Aborting { result } => UploadStep::Finished(result),
        }
    }
}

/// Every chunk of an upload holds at least one byte and fits its request into a frame.
pub proof fn law_chunks_fit_a_frame(
    encoded: Seq<u8>,
    goal: UploadGoal,
    token: u64,
    offset: nat,
    request_id: u64,
)
    requires
        offset < encoded.len() <= MAX_COLLECTION_DRAFT_BYTES,
    ensures
        upload_from(encoded, goal, token, offset) matches UploadStepView::Call {
            request,
            upload,
        } && request is Append && 0 < request->Append_bytes.len()
            <= MAX_COLLECTION_DRAFT_CHUNK_BYTES && request_encoding(
            RequestView {
                protocol_version: PROTOCOL_VERSION,
                request_id,
                kind: RequestKindView::CollectionAdmin(request),
            },
        ) is Ok,
{
    let end = chunk_end(encoded.len(), offset);
    let bytes = encoded.subrange(offset as int, end as int);
    lemma_be(PROTOCOL_VERSION as nat, 2);
    lemma_be(request_id as nat, 8);
    lemma_be(5, 1);
    lemma_be(2, 1);
    lemma_be(token as nat, 8);
    lemma_be(offset as nat, 4);
    lemma_be(bytes.len(), 4);
}

/// Whatever goes wrong after a token was given, the staging is dropped, and the reply to
/// that leaves the result as it was.
pub proof fn law_failed_uploads_are_aborted(
    upload: UploadView,
    reply: Result<AdminOutcomeView, DaemonErrorView>,
    last: Result<AdminOutcomeView, DaemonErrorView>,
)
    requires
        upload is Appending || upload is Finishing,
        reply is Err,
    ensures
        next_upload(upload, reply) matches UploadStepView::Call { request, upload: after }
            && request is Abort && next_upload(after, last) == UploadStepView::Finished(
            Err::<CollectionOutcomeView, DaemonErrorView>(reply->Err_0),
        ),
{
}

/// An estimate leaves nothing staged behind.
pub proof fn law_estimates_are_aborted(
    token: u64,
    outcome: CollectionOutcomeView,
    last: Result<AdminOutcomeView, DaemonErrorView>,
)
    requires
        outcome is Estimated,
    ensures
        next_upload(
            UploadView::Finishing { token },
            Ok(AdminOutcomeView::Completed(outcome)),
        ) matches UploadStepView::Call { request, upload } && request == (
        CollectionAdminView::Abort { token }) && next_upload(upload, last)
            == UploadStepView::Finished(Ok::<CollectionOutcomeView, DaemonErrorView>(outcome)),
{
}

/// An upload goes on with the next byte exactly when the daemon confirmed every byte up to
/// here under its token; the goal comes when all were confirmed, with the token that was given.
pub proof fn law_upload_continues_where_it_was_confirmed(
    encoded: Seq<u8>,
    goal: UploadGoal,
    token: u64,
    offset: u32,
    end: u32,
    outcome: AdminOutcomeView,
)
    requires
        encoded.len() <= MAX_COLLECTION_DRAFT_BYTES,
        offset < end <= encoded.len(),
    ensures
        ({
            let step = next_upload(
                UploadView::Appending { encoded, goal, token, offset, end },
                Ok(outcome),
            );
            let confirmed = outcome matches AdminOutcomeView::Appended {
                token: told,
                received_bytes,
                total_bytes,
            } && told == token && received_bytes == end && total_bytes == encoded.len();
            &&& step matches UploadStepView::Call { request, upload }
            &&& !confirmed ==> request == (CollectionAdminView::Abort { token }) && upload
                is Aborting
            &&& confirmed && end < encoded.len() ==> (request matches CollectionAdminView::Append {
                token: sent,
                offset: from,
                bytes,
            } && sent == token && from == end && 0 < bytes.len() <= 4_096 && bytes
                == encoded.subrange(end as int, end + bytes.len()))
            &&& confirmed && end == encoded.len() ==> upload == (UploadView::Finishing { token })
                && request == match goal {
                UploadGoal::Estimate => CollectionAdminView::Estimate { token },
                UploadGoal::Add => CollectionAdminView::Add { token },
                UploadGoal::Edit { collection_id, expected_generation } => CollectionAdminView::Edit {
                    token,
                    collection_id,
                    expected_generation,
                },
            }
        }),
{
}

/// An operation begins by announcing the encoded draft to its full length, and a draft that
/// cannot be encoded is never sent. A removal is one request, whose answer is the result.
pub proof fn law_operations_begin_with_their_draft(
    administration: AdministrationView,
    reply: Result<AdminOutcomeView, DaemonErrorView>,
)
    ensures
        ({
            let step = first_upload(administration);
            match administration {
                AdministrationView::Remove { collection_id } => step == (UploadStepView::Call {
                    request: CollectionAdminView::Remove { collection_id },
                    upload: UploadView::Removing,
                }),
                AdministrationView::Estimate(draft) => announces(draft, None, step)
                    && goal_of(step) == Some(UploadGoal::Estimate) || step is Finished,
                AdministrationView::Add { draft, image_policy } => announces(
                    draft,
                    image_policy,
                    step,
                ) && goal_of(step) == Some(UploadGoal::Add) || step is Finished,
                AdministrationView::Edit { collection_id, expected_generation, draft, image_policy } =>
                    announces(draft, image_policy, step) && goal_of(step) == Some(
                    UploadGoal::Edit { collection_id, expected_generation },
                ) || step is Finished,
            }
        }),
        first_upload(administration) is Finished <==> match administration {
            AdministrationView::Remove { collection_id } => false,
            AdministrationView::Estimate(draft) => draft_encoding(draft, None) is Err,
            AdministrationView::Add { draft, image_policy } => draft_encoding(draft, image_policy)
                is Err,
            AdministrationView::Edit { collection_id, expected_generation, draft, image_policy } =>
                draft_encoding(draft, image_policy) is Err,
        },
        next_upload(UploadView::Removing, reply) matches UploadStepView::Finished(result) && (
        result is Ok <==> reply matches Ok(AdminOutcomeView::Completed(_))) && (
        reply matches Ok(AdminOutcomeView::Completed(outcome)) ==> result->Ok_0 == outcome) && (
        reply matches Err(error) ==> result->Err_0 == error),
{
}

/// A step announces the encoding of a draft.
pub open spec fn announces(
    draft: DraftView,
    image_policy: Option<ImageView>,
    step: UploadStepView,
) -> bool {
    step matches UploadStepView::Call { request, upload } && (
    request matches CollectionAdminView::Begin { total_bytes } && (
    upload matches UploadView::Beginning { encoded, goal } && draft_encoding(draft, image_policy)
        == Ok::<Seq<u8>, Seq<char>>(encoded) && total_bytes == encoded.len() as u32))
}

/// What an announced draft is for.
pub open spec fn goal_of(step: UploadStepView) -> Option<UploadGoal> {
    match step {
        UploadStepView::Call { request, upload: UploadView::Beginning { encoded, goal } } => Some(
            goal,
        ),
        _ => None,
    }
}

/// What was begun is sent from its first byte under the token that was given, and an outcome
/// that was reached is the result.
pub proof fn law_begun_uploads_start_at_the_first_byte(
    encoded: Seq<u8>,
    goal: UploadGoal,
    token: u64,
    reply: Result<AdminOutcomeView, DaemonErrorView>,
)
    requires
        0 < encoded.len() <= MAX_COLLECTION_DRAFT_BYTES,
    ensures
        next_upload(
            UploadView::Beginning { encoded, goal },
            Ok(AdminOutcomeView::Begun { token }),
        ) matches UploadStepView::Call { request, upload } && (
        request matches CollectionAdminView::Append { token: sent, offset, bytes } && sent == token
            && offset == 0 && bytes.len() > 0 && bytes == encoded.take(bytes.len() as int)),
        !(reply matches Ok(AdminOutcomeView::Begun { .. })) ==> (next_upload(
            UploadView::Beginning { encoded, goal },
            reply,
        ) matches UploadStepView::Finished(result) && result is Err),
        reply matches Ok(AdminOutcomeView::Completed(outcome)) ==> (!(outcome is Estimated)
            ==> next_upload(UploadView::Finishing { token }, reply) == UploadStepView::Finished(
            Ok::<CollectionOutcomeView, DaemonErrorView>(outcome),
        )),
{
}

} // verus!
