//! Where the fields of the wire contracts stand, byte by byte, and what can be encoded at all.

use vstd::prelude::*;
use vstd::string::*;
use vstd::utf8::*;

use crate::codec::{
    admin_bytes, admin_outcome_bytes, encode_request, encode_response, estimate_bytes,
    request_bytes, request_kind_bytes, response_bytes, response_kind_bytes, source_bytes,
    source_outcome_bytes,
};
use crate::draft_codec::{
    encode_collection_draft_version, head_bytes, history_bytes, image_bytes, image_view,
    reason_bytes, removal_tag, rule_bytes,
};
use crate::collection::{CollectionDraft, CollectionDraftEstimate, CollectionOutcomeView};
use crate::dump_bootstrap::{CurrentDumpBootstrapRequest, DumpImportState};
use crate::dump_codec::current_dump_bootstrap_mutation;
use crate::error::{DaemonError, ErrorCode, OperationError};
use crate::dump_receipt::import_tag;
use crate::model::{
    CollectionRemovalPolicy, HistoryView, ImagePolicy, ImageView, ReasonView, RuleView,
};
use crate::protocol::{
    AdminOutcomeView, CollectionAdminView, Mutation, MutationOutcome, MutationView, Request, RequestKindView,
    Response, ResponseKindView,
};
use crate::purge::{
    collection_purge_mutation, decode_state, purge_result, require_acknowledgements, state_tag,
    CollectionPurgeOutcome, CollectionPurgeRequest, PurgeJournalState,
};
use crate::source::{SourceOutcomeView, SourceView};
use crate::wire::{be, bits64, lemma_be, put_u16, put_u32, put_u8};

verus! {

proof fn lemma_widths()
    ensures
        forall|value: nat, width: nat| (#[trigger] be(value, width)).len() == width,
{
    assert forall|value: nat, width: nat| (#[trigger] be(value, width)).len() == width by {
        lemma_be(value, width);
    }
}

proof fn lemma_byte(value: nat)
    requires
        value < 256,
    ensures
        be(value, 1) == seq![value as u8],
{
    reveal_with_fuel(be, 2);
    assert(be(value, 1) =~= seq![value as u8]);
}

proof fn lemma_two(value: nat)
    requires
        value < 0x1_0000,
    ensures
        be(value, 2)[0] * 0x100 + be(value, 2)[1] == value,
        be(value, 2).len() == 2,
{
    reveal_with_fuel(be, 3);
}

proof fn lemma_four(value: nat)
    requires
        value < 0x1_0000_0000,
    ensures
        be(value, 4).len() == 4,
        be(value, 4)[0] * 0x100_0000 + be(value, 4)[1] * 0x1_0000 + be(value, 4)[2] * 0x100 + be(
            value,
            4,
        )[3] == value,
{
    reveal_with_fuel(be, 5);
}

/// Numbers are written highest byte first.
pub proof fn law_numbers_are_written_highest_byte_first(small: u16, medium: u32, flag: u8)
    ensures
        forall|bytes: &mut Vec<u8>, done: ()| #[trigger]
            call_ensures(put_u8, (bytes, flag), done) ==> (*final(bytes))@ == (*bytes)@.push(flag),
        forall|bytes: &mut Vec<u8>, done: ()| #[trigger]
            call_ensures(put_u16, (bytes, small), done) ==> {
                let n = (*bytes)@.len() as int;
                let after = (*final(bytes))@;
                &&& after.len() == n + 2
                &&& after.take(n) == (*bytes)@
                &&& after[n] * 0x100 + after[n + 1] == small
            },
        forall|bytes: &mut Vec<u8>, done: ()| #[trigger]
            call_ensures(put_u32, (bytes, medium), done) ==> {
                let n = (*bytes)@.len() as int;
                let after = (*final(bytes))@;
                &&& after.len() == n + 4
                &&& after.take(n) == (*bytes)@
                &&& after[n] * 0x100_0000 + after[n + 1] * 0x1_0000 + after[n + 2] * 0x100
                    + after[n + 3] == medium
            },
{
    lemma_byte(flag as nat);
    lemma_two(small as nat);
    lemma_four(medium as nat);
    assert forall|bytes: &mut Vec<u8>, done: ()| #[trigger]
        call_ensures(put_u8, (bytes, flag), done) implies (*final(bytes))@ == (*bytes)@.push(
        flag,
    ) by {
        assert((*final(bytes))@ =~= (*bytes)@.push(flag));
    }
    assert forall|bytes: &mut Vec<u8>, done: ()| #[trigger]
        call_ensures(put_u16, (bytes, small), done) implies {
        let n = (*bytes)@.len() as int;
        let after = (*final(bytes))@;
        &&& after.len() == n + 2
        &&& after.take(n) == (*bytes)@
        &&& after[n] * 0x100 + after[n + 1] == small
    } by {
        let n = (*bytes)@.len() as int;
        let after = (*final(bytes))@;
        assert(after.take(n) =~= (*bytes)@);
        assert(after[n] == be(small as nat, 2)[0] && after[n + 1] == be(small as nat, 2)[1]);
    }
    assert forall|bytes: &mut Vec<u8>, done: ()| #[trigger]
        call_ensures(put_u32, (bytes, medium), done) implies {
        let n = (*bytes)@.len() as int;
        let after = (*final(bytes))@;
        &&& after.len() == n + 4
        &&& after.take(n) == (*bytes)@
        &&& after[n] * 0x100_0000 + after[n + 1] * 0x1_0000 + after[n + 2] * 0x100 + after[n + 3]
            == medium
    } by {
        let n = (*bytes)@.len() as int;
        let after = (*final(bytes))@;
        let word = be(medium as nat, 4);
        assert(after.take(n) =~= (*bytes)@);
        assert(after[n] == word[0] && after[n + 1] == word[1] && after[n + 2] == word[2] && after[n
            + 3] == word[3]);
    }
}

/// A request starts with its four letters and its version; its kind is the fifteenth byte.
pub proof fn law_requests_have_their_places(request: Request, r: Result<Vec<u8>, DaemonError>)
    requires
        call_ensures(encode_request, (&request,), r),
        r is Ok,
    ensures
        ({
            let bytes = r->Ok_0@;
            &&& 15 <= bytes.len() <= 65_536
            &&& bytes[0] == 0x57 && bytes[1] == 0x4b && bytes[2] == 0x53 && bytes[3] == 0x52
            &&& bytes[4] * 0x100 + bytes[5] == request.protocol_version
            &&& bytes[14] == match request@.kind {
                RequestKindView::Health => 1u8,
                RequestKindView::Status => 2u8,
                RequestKindView::Mutate(_) => 3u8,
                RequestKindView::Shutdown => 4u8,
                RequestKindView::CollectionAdmin(_) => 5u8,
                RequestKindView::SourceAdmin(_) => 6u8,
            }
            &&& request@.kind matches RequestKindView::Mutate(mutation) ==> bytes.len() >= 16
                && bytes[15] == match mutation {
                MutationView::SyncAll => 1u8,
                MutationView::SyncCollection(_) => 2u8,
                MutationView::Verify { full } => 3u8,
                MutationView::Compact => 4u8,
                MutationView::Extension { name, payload } => 5u8,
            }
            &&& request@.kind matches RequestKindView::Mutate(MutationView::Verify { full })
                ==> bytes.len() == 17 && bytes[16] == if full {
                1u8
            } else {
                0u8
            }
        }),
{
    lemma_widths();
    lemma_two(request.protocol_version as nat);
    lemma_byte(1);
    lemma_byte(2);
    lemma_byte(3);
    lemma_byte(4);
    lemma_byte(5);
    lemma_byte(6);
    lemma_byte(0);
    let bytes = request_bytes(request@);
    let kind = request_kind_bytes(request@.kind);
    assert(bytes[14] == kind[0]);
    assert(bytes[4] == be(request.protocol_version as nat, 2)[0]);
    assert(bytes[5] == be(request.protocol_version as nat, 2)[1]);
    if let RequestKindView::Mutate(mutation) = request@.kind {
        assert(bytes[15] == kind[1]);
        if let MutationView::Verify { full } = mutation {
            assert(bytes[16] == kind[2]);
        }
    }
}

/// Every request can be encoded that its version knows and whose fields stay within their
/// ceilings, and no other.
pub proof fn law_requests_within_their_ceilings_are_encoded(
    request: Request,
    r: Result<Vec<u8>, DaemonError>,
)
    requires
        call_ensures(encode_request, (&request,), r),
    ensures
        r is Ok <==> match request@.kind {
            RequestKindView::Mutate(MutationView::Extension { name, payload }) => encode_utf8(
                name,
            ).len() <= 4_096 && payload.len() <= 61_440 && encode_utf8(name).len() + payload.len()
                + 24 <= 65_536,
            RequestKindView::CollectionAdmin(CollectionAdminView::Begin { total_bytes }) =>
                request.protocol_version >= 2 && 0 < total_bytes <= 16_777_216,
            RequestKindView::CollectionAdmin(CollectionAdminView::Append { token, offset, bytes }) =>
                request.protocol_version >= 2 && bytes.len() <= 4_096,
            RequestKindView::CollectionAdmin(_) => request.protocol_version >= 2,
            RequestKindView::SourceAdmin(SourceView::Add { api_endpoint, language_code }) =>
                request.protocol_version >= 2 && encode_utf8(api_endpoint).len() <= 4_096
                    && encode_utf8(language_code).len() <= 64,
            RequestKindView::SourceAdmin(_) => request.protocol_version >= 2,
            _ => true,
        },
{
    lemma_widths();
}

/// A response starts with its four letters and its version; its kind is the fifteenth byte, and
/// the class of an error the next.
pub proof fn law_responses_have_their_places(
    response: Response,
    r: Result<Vec<u8>, DaemonError>,
)
    requires
        call_ensures(encode_response, (&response,), r),
        r is Ok,
    ensures
        ({
            let bytes = r->Ok_0@;
            &&& 15 <= bytes.len() <= 65_536
            &&& bytes[0] == 0x57 && bytes[1] == 0x4b && bytes[2] == 0x53 && bytes[3] == 0x50
            &&& bytes[4] * 0x100 + bytes[5] == response.protocol_version
            &&& bytes[14] == match response@.kind {
                ResponseKindView::Health(_) => 1u8,
                ResponseKindView::Status(_) => 2u8,
                ResponseKindView::Mutated(_) => 3u8,
                ResponseKindView::ShutdownAccepted => 4u8,
                ResponseKindView::CollectionAdmin(_) => 5u8,
                ResponseKindView::SourceAdmin(_) => 6u8,
                ResponseKindView::Error(_) => 255u8,
            }
            &&& response@.kind matches ResponseKindView::Error(error) ==> bytes[15]
                == match error.code {
                ErrorCode::InvalidRequest => 1u8,
                ErrorCode::UnsupportedVersion => 2u8,
                ErrorCode::Unsupported => 3u8,
                ErrorCode::OperationFailed => 4u8,
                ErrorCode::Internal => 5u8,
            }
        }),
{
    lemma_widths();
    lemma_two(response.protocol_version as nat);
    lemma_byte(1);
    lemma_byte(2);
    lemma_byte(3);
    lemma_byte(4);
    lemma_byte(5);
    lemma_byte(6);
    lemma_byte(255);
    let bytes = response_bytes(response@);
    let kind = response_kind_bytes(response@.kind);
    assert(bytes[14] == kind[0]);
    assert(bytes[4] == be(response.protocol_version as nat, 2)[0]);
    assert(bytes[5] == be(response.protocol_version as nat, 2)[1]);
    if let ResponseKindView::Error(error) = response@.kind {
        assert(bytes[15] == kind[1]);
    }
}

/// Every response can be encoded that its version knows and whose fields stay within their
/// ceilings, as long as it fits a frame, and no other.
pub proof fn law_responses_within_their_ceilings_are_encoded(
    response: Response,
    r: Result<Vec<u8>, DaemonError>,
)
    requires
        call_ensures(encode_response, (&response,), r),
    ensures
        response@.kind is ShutdownAccepted ==> r is Ok,
        response@.kind matches ResponseKindView::Health(health) ==> (r is Ok <==> encode_utf8(
            health.daemon_version,
        ).len() <= 4_096),
        response@.kind matches ResponseKindView::Status(status) ==> (r is Ok <==> encode_utf8(
            status.state,
        ).len() <= 4_096 && encode_utf8(status.detail).len() <= 4_096),
        response@.kind matches ResponseKindView::Mutated(outcome) ==> (r is Ok <==> encode_utf8(
            outcome.result,
        ).len() <= 4_096 && outcome.payload.len() <= 61_440 && encode_utf8(outcome.result).len()
            + outcome.payload.len() + 23 <= 65_536),
        response@.kind is CollectionAdmin ==> (r is Ok <==> response.protocol_version >= 2),
        response@.kind is SourceAdmin && response.protocol_version < 2 ==> r is Err,
        response@.kind matches ResponseKindView::Error(error) ==> (r is Ok <==> encode_utf8(
            error.message,
        ).len() <= 4_096),
{
    lemma_widths();
}

/// A draft is framed by its four letters and a version that tells whether images follow, and
/// never exceeds the staging ceiling; a whole edition has no bytes.
pub proof fn law_drafts_have_their_places(
    draft: CollectionDraft,
    image_policy: Option<ImagePolicy>,
    r: Result<Vec<u8>, OperationError>,
)
    requires
        call_ensures(encode_collection_draft_version, (&draft, image_policy), r),
        r is Ok,
    ensures
        ({
            let bytes = r->Ok_0@;
            &&& 14 <= bytes.len() <= 16_777_216
            &&& bytes[0] == 0x57 && bytes[1] == 0x4b && bytes[2] == 0x43 && bytes[3] == 0x44
            &&& bytes[4] == 0 && bytes[5] == if image_policy is Some {
                2u8
            } else {
                1u8
            }
            &&& !(draft@.preview.rule is WholeMainNamespace)
        }),
{
    lemma_widths();
    lemma_two(1);
    lemma_two(2);
    let version = if image_view(image_policy) is Some {
        2u16
    } else {
        1u16
    };
    let head = head_bytes(draft@, version);
    let bytes = r->Ok_0@;
    assert(bytes[4] == head[4] && bytes[5] == head[5]);
    assert(head[4] == be(version as nat, 2)[0] && head[5] == be(version as nat, 2)[1]);
}

/// A purge is asked for under its own name, in the first contract version, exactly when the name
/// and the fingerprint in it are neither empty nor too long.
pub proof fn law_purge_orders_have_their_places(
    request: CollectionPurgeRequest,
    r: Result<Mutation, OperationError>,
    allowed: Result<(), OperationError>,
)
    requires
        call_ensures(collection_purge_mutation, (&request,), r),
        call_ensures(require_acknowledgements, (&request,), allowed),
    ensures
        r is Ok <==> 0 < encode_utf8(request@.collection_name).len() <= 4_096 && 0 < encode_utf8(
            request@.preview_fingerprint,
        ).len() <= 128,
        r matches Ok(mutation) ==> (mutation@ matches MutationView::Extension { name, payload }
            && name == "collection-purge-v1"@ && payload.len() == 19 + encode_utf8(
            request@.collection_name,
        ).len() + encode_utf8(request@.preview_fingerprint).len() && payload[0] == 1
            && payload[payload.len() - 2] == (if request@.payload_only_acknowledged {
            1u8
        } else {
            0u8
        }) && payload.last() == (if request@.external_copies_not_erased_acknowledged {
            1u8
        } else {
            0u8
        })),
        allowed is Ok <==> request@.payload_only_acknowledged
            && request@.external_copies_not_erased_acknowledged,
{
    lemma_widths();
    lemma_byte(0);
    lemma_byte(1);
}

/// Each state of a purge has one number, and reads back from it; no other number is a state.
pub proof fn law_purge_states_have_numbers(
    state: PurgeJournalState,
    tag: u8,
    number: u8,
    back: Result<PurgeJournalState, &'static str>,
    other: Result<PurgeJournalState, &'static str>,
)
    requires
        call_ensures(state_tag, (state,), tag),
        call_ensures(decode_state, (tag,), back),
        call_ensures(decode_state, (number,), other),
    ensures
        back matches Ok(read) && read == state,
        1 <= tag <= 5,
        other is Ok <==> 1 <= number <= 5,
        tag == 4 <==> state == PurgeJournalState::Succeeded,
{
}

/// A purge receipt is told under its own name, in the first contract version; its last byte
/// tells whether the manifest is installed.
pub proof fn law_purge_receipts_have_their_places(
    outcome: CollectionPurgeOutcome,
    result: MutationOutcome,
)
    requires
        call_ensures(purge_result, (&outcome,), result),
    ensures
        result.result@ == "collection-purge-complete-v1"@,
        result.payload@.len() == 91,
        result.payload@[0] == 1,
        result.payload@.last() == if outcome.progress.manifest_installed {
            1u8
        } else {
            0u8
        },
{
    lemma_widths();
    lemma_byte(0);
    lemma_byte(1);
    assert(result@.payload == result.payload@);
}

/// A bootstrap is asked for under its own name, in the first encoding version, with a URL and a
/// database that are neither empty nor too long.
pub proof fn law_bootstrap_orders_have_their_places(
    request: CurrentDumpBootstrapRequest,
    r: Result<Mutation, DaemonError>,
)
    requires
        call_ensures(current_dump_bootstrap_mutation, (&request,), r),
        r is Ok,
    ensures
        r->Ok_0@ matches MutationView::Extension { name, payload } && name
            == "current-dump-bootstrap-v1"@ && payload[0] == 1 && payload.len() == 9 + 8
            + encode_utf8(request@.url).len() + 8 + encode_utf8(request@.digest).len() + 8
            + encode_utf8(request@.database).len() + 13 * 8 + (if request@.generation is Some {
            9int
        } else {
            1int
        }),
        0 < encode_utf8(request@.url).len() <= 4_096,
        0 < encode_utf8(request@.database).len() <= 64,
{
    lemma_widths();
    lemma_byte(1);
}

/// After its kind, a request to a collection says what it asks and on which fields, in this
/// order; so does one to a source.
pub proof fn law_administration_requests_have_their_places(
    request: Request,
    r: Result<Vec<u8>, DaemonError>,
)
    requires
        call_ensures(encode_request, (&request,), r),
        r is Ok,
    ensures
        ({
            let bytes = r->Ok_0@;
            &&& request@.kind matches RequestKindView::CollectionAdmin(asked) ==> bytes.skip(15)
                == match asked {
                CollectionAdminView::Begin { total_bytes } => seq![1u8] + be(total_bytes as nat, 4),
                CollectionAdminView::Append { token, offset, bytes } => seq![2u8] + be(
                    token as nat,
                    8,
                ) + be(offset as nat, 4) + (be(bytes.len(), 4) + bytes),
                CollectionAdminView::Estimate { token } => seq![3u8] + be(token as nat, 8),
                CollectionAdminView::Add { token } => seq![4u8] + be(token as nat, 8),
                CollectionAdminView::Edit { token, collection_id, expected_generation } => seq![5u8]
                    + be(token as nat, 8) + be(collection_id as nat, 8) + be(
                    expected_generation as nat,
                    8,
                ),
                CollectionAdminView::Remove { collection_id } => seq![6u8] + be(
                    collection_id as nat,
                    8,
                ),
                CollectionAdminView::Abort { token } => seq![7u8] + be(token as nat, 8),
            }
            &&& request@.kind matches RequestKindView::SourceAdmin(asked) ==> bytes.skip(15)
                == match asked {
                SourceView::Add { api_endpoint, language_code } => seq![1u8] + (be(
                    encode_utf8(api_endpoint).len(),
                    4,
                ) + encode_utf8(api_endpoint)) + (be(encode_utf8(language_code).len(), 4)
                    + encode_utf8(language_code)),
                SourceView::Remove { wiki_id } => seq![2u8] + be(wiki_id as nat, 8),
            }
        }),
{
    lemma_widths();
    lemma_byte(1);
    lemma_byte(2);
    lemma_byte(3);
    lemma_byte(4);
    lemma_byte(5);
    lemma_byte(6);
    lemma_byte(7);
    let bytes = r->Ok_0@;
    if let RequestKindView::CollectionAdmin(asked) = request@.kind {
        assert(bytes.skip(15) =~= admin_bytes(asked));
    }
    if let RequestKindView::SourceAdmin(asked) = request@.kind {
        assert(bytes.skip(15) =~= source_bytes(asked));
    }
}

/// After its kind, an answer on a collection says what was done and with which fields, in this
/// order; so does one on a source.
pub proof fn law_administration_answers_have_their_places(
    response: Response,
    r: Result<Vec<u8>, DaemonError>,
)
    requires
        call_ensures(encode_response, (&response,), r),
        r is Ok,
    ensures
        ({
            let bytes = r->Ok_0@;
            &&& response@.kind matches ResponseKindView::CollectionAdmin(done) ==> bytes.skip(15)
                == match done {
                AdminOutcomeView::Begun { token } => seq![1u8] + be(token as nat, 8),
                AdminOutcomeView::Appended { token, received_bytes, total_bytes } => seq![2u8] + be(
                    token as nat,
                    8,
                ) + be(received_bytes as nat, 4) + be(total_bytes as nat, 4),
                AdminOutcomeView::Aborted { token } => seq![3u8] + be(token as nat, 8),
                AdminOutcomeView::Completed(CollectionOutcomeView::Estimated(estimate)) => seq![
                    4u8,
                    1u8,
                ] + estimate_bytes(estimate),
                AdminOutcomeView::Completed(
                    CollectionOutcomeView::Added { collection_id, estimate },
                ) => seq![4u8, 2u8] + be(collection_id as nat, 8) + estimate_bytes(estimate),
                AdminOutcomeView::Completed(
                    CollectionOutcomeView::Edited { collection_id, estimate },
                ) => seq![4u8, 3u8] + be(collection_id as nat, 8) + estimate_bytes(estimate),
                AdminOutcomeView::Completed(
                    CollectionOutcomeView::Removed { collection_id },
                ) => seq![4u8, 4u8] + be(collection_id as nat, 8),
            }
            &&& response@.kind matches ResponseKindView::SourceAdmin(done) ==> bytes.skip(15)
                == match done {
                SourceOutcomeView::Added { wiki_id, api_endpoint, language_code, created } => seq![
                    1u8,
                ] + be(wiki_id as nat, 8) + (be(encode_utf8(api_endpoint).len(), 4) + encode_utf8(
                    api_endpoint,
                )) + (be(encode_utf8(language_code).len(), 4) + encode_utf8(language_code)) + seq![
                    if created {
                        1u8
                    } else {
                        0u8
                    },
                ],
                SourceOutcomeView::Removed { wiki_id } => seq![2u8] + be(wiki_id as nat, 8),
            }
        }),
{
    lemma_widths();
    lemma_byte(0);
    lemma_byte(1);
    lemma_byte(2);
    lemma_byte(3);
    lemma_byte(4);
    lemma_byte(5);
    lemma_byte(6);
    let bytes = r->Ok_0@;
    if let ResponseKindView::CollectionAdmin(done) = response@.kind {
        assert(bytes.skip(15) =~= admin_outcome_bytes(done));
        if let AdminOutcomeView::Completed(outcome) = done {
            assert(seq![4u8] + seq![1u8] =~= seq![4u8, 1u8]);
            assert(seq![4u8] + seq![2u8] =~= seq![4u8, 2u8]);
            assert(seq![4u8] + seq![3u8] =~= seq![4u8, 3u8]);
            assert(seq![4u8] + seq![4u8] =~= seq![4u8, 4u8]);
        }
    }
    if let ResponseKindView::SourceAdmin(done) = response@.kind {
        assert(bytes.skip(15) =~= source_outcome_bytes(done));
    }
}

/// An estimate is told page counts first, then its optional size, then its batches and whether it
/// fits.
pub proof fn law_estimates_have_their_places(estimate: CollectionDraftEstimate)
    ensures
        estimate_bytes(estimate) == be(estimate.resolved_page_count as nat, 8) + be(
            estimate.missing_title_count as nat,
            8,
        ) + (match estimate.predicted_canonical_bytes {
            Some(size) => seq![1u8] + be(size as nat, 8),
            None => seq![0u8],
        }) + be(estimate.category_batches as nat, 8) + seq![
            if estimate.fits_budget {
                1u8
            } else {
                0u8
            },
        ],
{
    lemma_byte(0);
    lemma_byte(1);
}

/// The kinds of rules, reasons, histories and image policies have their numbers in a draft.
pub proof fn law_choices_in_a_draft_have_numbers(
    rule: RuleView,
    reason: ReasonView,
    history: HistoryView,
    images: ImageView,
)
    ensures
        rule is WholeMainNamespace || rule_bytes(rule)[0] == (match rule {
            RuleView::ExplicitTitles(_) => 1u8,
            RuleView::TitleList(_) => 2u8,
            _ => 3u8,
        }),
        reason is WholeMainNamespace || reason_bytes(reason)[0] == (match reason {
            ReasonView::ExplicitTitle(_) => 1u8,
            ReasonView::TitleList(_) => 2u8,
            _ => 3u8,
        }),
        history_bytes(history) == (match history {
            HistoryView::CurrentAndFuture => seq![1u8],
            HistoryView::LastN(count) => seq![2u8] + be(count as nat, 4),
            HistoryView::Since(seconds) => seq![3u8] + be(bits64(seconds), 8),
            HistoryView::Complete => seq![4u8],
        }),
        image_bytes(images) == (match images {
            ImageView::Off => seq![0u8],
            ImageView::Thumbnails(bounds) => seq![1u8] + be(bounds.maximum_edge_pixels as nat, 4)
                + be(bounds.maximum_images_per_revision as nat, 4) + be(
                bounds.maximum_bytes_per_image as nat,
                8,
            ),
        }),
        removal_tag(CollectionRemovalPolicy::StopTrackingRetainHistory) == 1,
        removal_tag(CollectionRemovalPolicy::KeepTracking) == 2,
        import_tag(DumpImportState::Running) == 0,
        import_tag(DumpImportState::Succeeded) == 1,
        import_tag(DumpImportState::Failed) == 2,
{
    lemma_byte(0);
    lemma_byte(1);
    lemma_byte(2);
    lemma_byte(3);
    lemma_byte(4);
}

} // verus!
