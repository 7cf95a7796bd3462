//! What encoding and decoding of envelopes promise together.
//!
//! Decoding gives back what was encoded, and every frame that is accepted is the one
//! encoding of what it decodes to.

use vstd::prelude::*;
use vstd::utf8::*;

use crate::codec::{
    admin_bytes, admin_error, admin_outcome_bytes, bytes_field, collection_outcome_bytes,
    envelope_bytes, error_tag, estimate_bytes, mutation_bytes, mutation_error, next_admin,
    next_admin_outcome, next_bytes, next_collection_outcome, next_envelope, next_estimate,
    next_failure, next_flag, next_health, next_mutation, next_mutation_outcome, next_optional,
    next_request_kind, next_response_kind, next_source, next_source_outcome, next_status, next_text,
    next_u16, next_u32, next_u64, next_u8, optional_bytes, request_decoding, request_encoding,
    request_kind_bytes, request_kind_error, response_decoding, response_encoding,
    response_kind_bytes, response_kind_error, source_bytes, source_error, source_outcome_bytes,
    source_outcome_error, supported_version, text_field, text_oversize, DecodeRequestErrorView,
};
use crate::collection::{CollectionDraftEstimate, CollectionOutcomeView};
use crate::error::{DaemonErrorView, FailureView};
use crate::protocol::{
    request_magic, response_magic, AdminOutcomeView, CollectionAdminView, HealthView,
    MutationOutcomeView, MutationView, RequestKindView, RequestView, ResponseKindView,
    ResponseView, StatusView, MAX_COLLECTION_DRAFT_CHUNK_BYTES, MAX_FRAME_BYTES,
    MAX_MUTATION_PAYLOAD_BYTES, MAX_STRING_BYTES,
};
use crate::source::{
    SourceOutcomeView, SourceView, MAX_SOURCE_API_ENDPOINT_BYTES, MAX_SOURCE_LANGUAGE_CODE_BYTES,
};
use crate::wire::{
    be, flag_bytes, lemma_cat2, lemma_cat3, lemma_cat4, lemma_cat5, lemma_cat6, lemma_cat_empty,
    lemma_number_read, lemma_pow256, lemma_split, lemma_split_number, split, split_number,
};

verus! {

pub proof fn lemma_u8(value: u8, rest: Seq<u8>)
    ensures
        next_u8(be(value as nat, 1) + rest) == Ok::<(u8, Seq<u8>), Seq<char>>((value, rest)),
{
    lemma_pow256();
    lemma_split_number(value as nat, 1, rest);
}

pub proof fn lemma_u16(value: u16, rest: Seq<u8>)
    ensures
        next_u16(be(value as nat, 2) + rest) == Ok::<(u16, Seq<u8>), Seq<char>>((value, rest)),
{
    lemma_pow256();
    lemma_split_number(value as nat, 2, rest);
}

pub proof fn lemma_u32(value: u32, rest: Seq<u8>)
    ensures
        next_u32(be(value as nat, 4) + rest) == Ok::<(u32, Seq<u8>), Seq<char>>((value, rest)),
{
    lemma_pow256();
    lemma_split_number(value as nat, 4, rest);
}

pub proof fn lemma_u64(value: u64, rest: Seq<u8>)
    ensures
        next_u64(be(value as nat, 8) + rest) == Ok::<(u64, Seq<u8>), Seq<char>>((value, rest)),
{
    lemma_pow256();
    lemma_split_number(value as nat, 8, rest);
}

pub proof fn lemma_flag(flag: bool, message: Seq<char>, rest: Seq<u8>)
    ensures
        next_flag(flag_bytes(flag) + rest, message) == Ok::<(bool, Seq<u8>), Seq<char>>(
            (flag, rest),
        ),
{
    lemma_u8(if flag { 1 } else { 0 }, rest);
}

pub proof fn lemma_bytes(field: Seq<u8>, maximum: usize, rest: Seq<u8>)
    requires
        field.len() <= maximum <= u32::MAX,
    ensures
        next_bytes(bytes_field(field) + rest, maximum) == Ok::<(Seq<u8>, Seq<u8>), Seq<char>>(
            (field, rest),
        ),
{
    assert(bytes_field(field) + rest =~= be(field.len(), 4) + (field + rest));
    lemma_u32(field.len() as u32, field + rest);
    lemma_split(field, rest);
}

pub proof fn lemma_text(text: Seq<char>, maximum: usize, rest: Seq<u8>)
    requires
        text_oversize(text, maximum) is None,
        maximum <= u32::MAX,
    ensures
        next_text(text_field(text) + rest, maximum) == Ok::<(Seq<char>, Seq<u8>), Seq<char>>(
            (text, rest),
        ),
{
    lemma_bytes(encode_utf8(text), maximum, rest);
    encode_utf8_valid_utf8(text);
    encode_utf8_decode_utf8(text);
}

proof fn lemma_mutation(mutation: MutationView, rest: Seq<u8>)
    requires
        mutation_error(mutation) is None,
    ensures
        next_mutation(mutation_bytes(mutation) + rest) == Ok::<
            (MutationView, Seq<u8>),
            Seq<char>,
        >((mutation, rest)),
{
    match mutation {
        MutationView::SyncAll => {
            lemma_u8(1, rest);
        },
        MutationView::SyncCollection(id) => {
            let r0 = be(id as nat, 8) + rest;
            assert(mutation_bytes(mutation) + rest =~= be(2, 1) + r0);
            lemma_u8(2, r0);
            lemma_u64(id, rest);
        },
        MutationView::Verify { full } => {
            let r0 = flag_bytes(full) + rest;
            assert(mutation_bytes(mutation) + rest =~= be(3, 1) + r0);
            lemma_u8(3, r0);
            lemma_flag(full, "invalid verification coverage flag"@, rest);
        },
        MutationView::Compact => {
            lemma_u8(4, rest);
        },
        MutationView::Extension { name, payload } => {
            let r1 = bytes_field(payload) + rest;
            let r0 = text_field(name) + r1;
            assert(mutation_bytes(mutation) + rest =~= be(5, 1) + r0);
            lemma_u8(5, r0);
            lemma_text(name, MAX_STRING_BYTES, r1);
            lemma_bytes(payload, MAX_MUTATION_PAYLOAD_BYTES, rest);
        },
    }
}

proof fn lemma_admin(request: CollectionAdminView, rest: Seq<u8>)
    requires
        admin_error(request) is None,
    ensures
        next_admin(admin_bytes(request) + rest) == Ok::<
            (CollectionAdminView, Seq<u8>),
            Seq<char>,
        >((request, rest)),
{
    match request {
        CollectionAdminView::Begin { total_bytes } => {
            let r0 = be(total_bytes as nat, 4) + rest;
            assert(admin_bytes(request) + rest =~= be(1, 1) + r0);
            lemma_u8(1, r0);
            lemma_u32(total_bytes, rest);
        },
        CollectionAdminView::Append { token, offset, bytes } => {
            let r2 = bytes_field(bytes) + rest;
            let r1 = be(offset as nat, 4) + r2;
            let r0 = be(token as nat, 8) + r1;
            assert(admin_bytes(request) + rest =~= be(2, 1) + r0);
            lemma_u8(2, r0);
            lemma_u64(token, r1);
            lemma_u32(offset, r2);
            lemma_bytes(bytes, MAX_COLLECTION_DRAFT_CHUNK_BYTES, rest);
        },
        CollectionAdminView::Estimate { token } => {
            let r0 = be(token as nat, 8) + rest;
            assert(admin_bytes(request) + rest =~= be(3, 1) + r0);
            lemma_u8(3, r0);
            lemma_u64(token, rest);
        },
        CollectionAdminView::Add { token } => {
            let r0 = be(token as nat, 8) + rest;
            assert(admin_bytes(request) + rest =~= be(4, 1) + r0);
            lemma_u8(4, r0);
            lemma_u64(token, rest);
        },
        CollectionAdminView::Edit { token, collection_id, expected_generation } => {
            let r2 = be(expected_generation as nat, 8) + rest;
            let r1 = be(collection_id as nat, 8) + r2;
            let r0 = be(token as nat, 8) + r1;
            assert(admin_bytes(request) + rest =~= be(5, 1) + r0);
            lemma_u8(5, r0);
            lemma_u64(token, r1);
            lemma_u64(collection_id, r2);
            lemma_u64(expected_generation, rest);
        },
        CollectionAdminView::Remove { collection_id } => {
            let r0 = be(collection_id as nat, 8) + rest;
            assert(admin_bytes(request) + rest =~= be(6, 1) + r0);
            lemma_u8(6, r0);
            lemma_u64(collection_id, rest);
        },
        CollectionAdminView::Abort { token } => {
            let r0 = be(token as nat, 8) + rest;
            assert(admin_bytes(request) + rest =~= be(7, 1) + r0);
            lemma_u8(7, r0);
            lemma_u64(token, rest);
        },
    }
}

/// Identifiers inside a source operation are positive.
pub open spec fn valid_source(source: SourceView) -> bool {
    source matches SourceView::Remove { wiki_id } ==> wiki_id > 0
}

proof fn lemma_source(source: SourceView, rest: Seq<u8>)
    requires
        source_error(source) is None,
        valid_source(source),
    ensures
        next_source(source_bytes(source) + rest) == Ok::<(SourceView, Seq<u8>), Seq<char>>(
            (source, rest),
        ),
{
    match source {
        SourceView::Add { api_endpoint, language_code } => {
            let r1 = text_field(language_code) + rest;
            let r0 = text_field(api_endpoint) + r1;
            assert(source_bytes(source) + rest =~= be(1, 1) + r0);
            lemma_u8(1, r0);
            lemma_text(api_endpoint, MAX_SOURCE_API_ENDPOINT_BYTES, r1);
            lemma_text(language_code, MAX_SOURCE_LANGUAGE_CODE_BYTES, rest);
        },
        SourceView::Remove { wiki_id } => {
            let r0 = be(wiki_id as nat, 8) + rest;
            assert(source_bytes(source) + rest =~= be(2, 1) + r0);
            lemma_u8(2, r0);
            lemma_u64(wiki_id, rest);
        },
    }
}

/// Identifiers inside a request body are positive where the types say so.
pub open spec fn valid_request_kind(kind: RequestKindView) -> bool {
    kind matches RequestKindView::SourceAdmin(source) ==> valid_source(source)
}

proof fn lemma_request_kind(version: u16, kind: RequestKindView, rest: Seq<u8>)
    requires
        request_kind_error(version, kind) is None,
        valid_request_kind(kind),
    ensures
        next_request_kind(version, request_kind_bytes(kind) + rest) == Ok::<
            (RequestKindView, Seq<u8>),
            Seq<char>,
        >((kind, rest)),
{
    match kind {
        RequestKindView::Health => {
            lemma_u8(1, rest);
        },
        RequestKindView::Status => {
            lemma_u8(2, rest);
        },
        RequestKindView::Mutate(mutation) => {
            let r0 = mutation_bytes(mutation) + rest;
            assert(request_kind_bytes(kind) + rest =~= be(3, 1) + r0);
            lemma_u8(3, r0);
            lemma_mutation(mutation, rest);
        },
        RequestKindView::Shutdown => {
            lemma_u8(4, rest);
        },
        RequestKindView::CollectionAdmin(request) => {
            let r0 = admin_bytes(request) + rest;
            assert(request_kind_bytes(kind) + rest =~= be(5, 1) + r0);
            lemma_u8(5, r0);
            lemma_admin(request, rest);
        },
        RequestKindView::SourceAdmin(source) => {
            let r0 = source_bytes(source) + rest;
            assert(request_kind_bytes(kind) + rest =~= be(6, 1) + r0);
            lemma_u8(6, r0);
            lemma_source(source, rest);
        },
    }
}

proof fn lemma_envelope(magic: Seq<u8>, version: u16, request_id: u64, rest: Seq<u8>)
    requires
        magic.len() == 4,
    ensures
        next_envelope(envelope_bytes(magic, version, request_id) + rest, magic) == Ok::<
            ((u16, u64), Seq<u8>),
            Seq<char>,
        >(((version, request_id), rest)),
{
    let r1 = be(request_id as nat, 8) + rest;
    let r0 = be(version as nat, 2) + r1;
    assert(envelope_bytes(magic, version, request_id) + rest =~= magic + r0);
    lemma_split(magic, r0);
    lemma_u16(version, r1);
    lemma_u64(request_id, rest);
}

/// Decoding gives back every request that was encoded under a supported version.
#[verifier::spinoff_prover]
#[verifier::rlimit(60)]
pub proof fn law_request_round_trip(request: RequestView)
    requires
        request_encoding(request) is Ok,
        supported_version(request.protocol_version),
        valid_request_kind(request.kind),
    ensures
        request_decoding(request_encoding(request)->Ok_0) == Ok::<
            RequestView,
            DecodeRequestErrorView,
        >(request),
{
    let empty = Seq::<u8>::empty();
    let body = request_kind_bytes(request.kind);
    lemma_request_kind(request.protocol_version, request.kind, empty);
    lemma_cat_empty(body);
    lemma_envelope(request_magic(), request.protocol_version, request.request_id, body);
}

/// An encoded request with anything after it is refused under its own identifier.
#[verifier::spinoff_prover]
#[verifier::rlimit(60)]
pub proof fn law_request_refuses_trailing_bytes(request: RequestView, extra: Seq<u8>)
    requires
        request_encoding(request) is Ok,
        supported_version(request.protocol_version),
        valid_request_kind(request.kind),
        extra.len() > 0,
    ensures
        request_decoding(request_encoding(request)->Ok_0 + extra) == Err::<
            RequestView,
            DecodeRequestErrorView,
        >(
            DecodeRequestErrorView::Invalid {
                request_id: Some(request.request_id),
                message: "trailing envelope bytes"@,
            },
        ),
{
    let envelope = envelope_bytes(request_magic(), request.protocol_version, request.request_id);
    let body = request_kind_bytes(request.kind);
    lemma_request_kind(request.protocol_version, request.kind, extra);
    lemma_cat2(envelope, body, extra);
    lemma_envelope(request_magic(), request.protocol_version, request.request_id, body + extra);
}

/// A request under any other version is answered with that version and its identifier.
pub proof fn law_unsupported_version_is_reported(request: RequestView)
    requires
        request_encoding(request) is Ok,
        !supported_version(request.protocol_version),
    ensures
        request_decoding(request_encoding(request)->Ok_0) == Err::<
            RequestView,
            DecodeRequestErrorView,
        >(
            DecodeRequestErrorView::UnsupportedVersion {
                request_id: request.request_id,
                version: request.protocol_version,
            },
        ),
{
    lemma_envelope(
        request_magic(),
        request.protocol_version,
        request.request_id,
        request_kind_bytes(request.kind),
    );
}

/// Administration cannot be expressed below protocol version two, neither sent nor received.
pub proof fn law_administration_needs_version_two(request: RequestView, bytes: Seq<u8>)
    ensures
        request.protocol_version < 2 && (request.kind is CollectionAdmin
            || request.kind is SourceAdmin) ==> request_encoding(request) is Err,
        request_decoding(bytes) matches Ok(decoded) ==> (decoded.kind is CollectionAdmin
            || decoded.kind is SourceAdmin) ==> decoded.protocol_version >= 2,
{
}

/// No encoded request exceeds the frame ceiling.
pub proof fn law_encoded_request_fits_a_frame(request: RequestView)
    requires
        request_encoding(request) is Ok,
    ensures
        (request_encoding(request)->Ok_0).len() <= MAX_FRAME_BYTES,
{
}

pub proof fn lemma_u8_read(bytes: Seq<u8>)
    ensures
        next_u8(bytes) matches Ok((value, rest)) ==> bytes == be(value as nat, 1) + rest,
{
    lemma_pow256();
    if split_number(bytes, 1) is Some {
        lemma_number_read(bytes, 1);
    }
}

pub proof fn lemma_u16_read(bytes: Seq<u8>)
    ensures
        next_u16(bytes) matches Ok((value, rest)) ==> bytes == be(value as nat, 2) + rest,
{
    lemma_pow256();
    if split_number(bytes, 2) is Some {
        lemma_number_read(bytes, 2);
    }
}

pub proof fn lemma_u32_read(bytes: Seq<u8>)
    ensures
        next_u32(bytes) matches Ok((value, rest)) ==> bytes == be(value as nat, 4) + rest,
{
    lemma_pow256();
    if split_number(bytes, 4) is Some {
        lemma_number_read(bytes, 4);
    }
}

pub proof fn lemma_u64_read(bytes: Seq<u8>)
    ensures
        next_u64(bytes) matches Ok((value, rest)) ==> bytes == be(value as nat, 8) + rest,
{
    lemma_pow256();
    if split_number(bytes, 8) is Some {
        lemma_number_read(bytes, 8);
    }
}

pub proof fn lemma_flag_read(bytes: Seq<u8>, message: Seq<char>)
    ensures
        next_flag(bytes, message) matches Ok((flag, rest)) ==> bytes == flag_bytes(flag) + rest,
{
    lemma_u8_read(bytes);
}

pub proof fn lemma_bytes_read(bytes: Seq<u8>, maximum: usize)
    ensures
        next_bytes(bytes, maximum) matches Ok((field, rest)) ==> field.len() <= maximum && bytes
            == bytes_field(field) + rest,
{
    lemma_u32_read(bytes);
    if next_bytes(bytes, maximum) is Ok {
        let (length, after) = next_u32(bytes)->Ok_0;
        let (field, rest) = split(after, length as nat)->0;
        assert(after =~= field + rest);
        assert(be(length as nat, 4) + (field + rest) =~= bytes_field(field) + rest);
    }
}

pub proof fn lemma_text_read(bytes: Seq<u8>, maximum: usize)
    ensures
        next_text(bytes, maximum) matches Ok((text, rest)) ==> text_oversize(text, maximum) is None
            && bytes == text_field(text) + rest,
{
    lemma_bytes_read(bytes, maximum);
    if next_text(bytes, maximum) is Ok {
        decode_utf8_encode_utf8((next_bytes(bytes, maximum)->Ok_0).0);
    }
}

proof fn lemma_mutation_read(bytes: Seq<u8>)
    ensures
        next_mutation(bytes) matches Ok((mutation, rest)) ==> mutation_error(mutation) is None
            && bytes == mutation_bytes(mutation) + rest,
{
    lemma_u8_read(bytes);
    if next_mutation(bytes) is Ok {
        let (tag, after) = next_u8(bytes)->Ok_0;
        let (mutation, rest) = next_mutation(bytes)->Ok_0;
        lemma_u64_read(after);
        lemma_flag_read(after, "invalid verification coverage flag"@);
        lemma_text_read(after, MAX_STRING_BYTES);
        if tag == 5 {
            let (_, after_name) = next_text(after, MAX_STRING_BYTES)->Ok_0;
            lemma_bytes_read(after_name, MAX_MUTATION_PAYLOAD_BYTES);
        }
        assert(bytes =~= mutation_bytes(mutation) + rest);
    }
}

proof fn lemma_admin_read(bytes: Seq<u8>)
    ensures
        next_admin(bytes) matches Ok((request, rest)) ==> admin_error(request) is None && bytes
            == admin_bytes(request) + rest,
{
    lemma_u8_read(bytes);
    if next_admin(bytes) is Ok {
        let (tag, after) = next_u8(bytes)->Ok_0;
        let (request, rest) = next_admin(bytes)->Ok_0;
        lemma_u64_read(after);
        lemma_u32_read(after);
        if tag == 2 {
            let (_, after_token) = next_u64(after)->Ok_0;
            lemma_u32_read(after_token);
            let (_, after_offset) = next_u32(after_token)->Ok_0;
            lemma_bytes_read(after_offset, MAX_COLLECTION_DRAFT_CHUNK_BYTES);
        }
        if tag == 5 {
            let (_, after_token) = next_u64(after)->Ok_0;
            lemma_u64_read(after_token);
            let (_, after_id) = next_u64(after_token)->Ok_0;
            lemma_u64_read(after_id);
        }
        assert(bytes =~= admin_bytes(request) + rest);
    }
}

proof fn lemma_source_read(bytes: Seq<u8>)
    ensures
        next_source(bytes) matches Ok((source, rest)) ==> source_error(source) is None
            && valid_source(source) && bytes == source_bytes(source) + rest,
{
    lemma_u8_read(bytes);
    if next_source(bytes) is Ok {
        let (tag, after) = next_u8(bytes)->Ok_0;
        let (source, rest) = next_source(bytes)->Ok_0;
        lemma_u64_read(after);
        lemma_text_read(after, MAX_SOURCE_API_ENDPOINT_BYTES);
        if tag == 1 {
            let (_, after_endpoint) = next_text(after, MAX_SOURCE_API_ENDPOINT_BYTES)->Ok_0;
            lemma_text_read(after_endpoint, MAX_SOURCE_LANGUAGE_CODE_BYTES);
        }
        assert(bytes =~= source_bytes(source) + rest);
    }
}

proof fn lemma_request_kind_read(version: u16, bytes: Seq<u8>)
    ensures
        next_request_kind(version, bytes) matches Ok((kind, rest)) ==> request_kind_error(
            version,
            kind,
        ) is None && valid_request_kind(kind) && bytes == request_kind_bytes(kind) + rest,
{
    lemma_u8_read(bytes);
    if next_request_kind(version, bytes) is Ok {
        let (tag, after) = next_u8(bytes)->Ok_0;
        let (kind, rest) = next_request_kind(version, bytes)->Ok_0;
        lemma_mutation_read(after);
        lemma_admin_read(after);
        lemma_source_read(after);
        assert(bytes =~= request_kind_bytes(kind) + rest);
    }
}

proof fn lemma_envelope_read(bytes: Seq<u8>, magic: Seq<u8>)
    ensures
        next_envelope(bytes, magic) matches Ok(((version, request_id), rest)) ==> bytes
            == envelope_bytes(magic, version, request_id) + rest,
{
    if next_envelope(bytes, magic) is Ok {
        let (head, after) = split(bytes, 4)->0;
        assert(bytes =~= head + after);
        lemma_u16_read(after);
        let (version, after_version) = next_u16(after)->Ok_0;
        lemma_u64_read(after_version);
        let ((_, request_id), rest) = next_envelope(bytes, magic)->Ok_0;
        assert(bytes =~= envelope_bytes(magic, version, request_id) + rest);
    }
}

/// An accepted frame is the encoding of the request that it decodes to.
pub proof fn law_request_encoding_is_canonical(bytes: Seq<u8>)
    requires
        request_decoding(bytes) is Ok,
        bytes.len() <= MAX_FRAME_BYTES,
    ensures
        request_encoding(request_decoding(bytes)->Ok_0) == Ok::<Seq<u8>, DaemonErrorView>(bytes),
{
    lemma_envelope_read(bytes, request_magic());
    let ((version, request_id), body) = next_envelope(bytes, request_magic())->Ok_0;
    lemma_request_kind_read(version, body);
    let (kind, rest) = next_request_kind(version, body)->Ok_0;
    assert(rest =~= Seq::<u8>::empty());
    lemma_cat_empty(request_kind_bytes(kind));
}

proof fn lemma_optional(value: Option<u64>, rest: Seq<u8>)
    ensures
        next_optional(optional_bytes(value) + rest) == Ok::<(Option<u64>, Seq<u8>), Seq<char>>(
            (value, rest),
        ),
{
    match value {
        Some(number) => {
            let r0 = be(number as nat, 8) + rest;
            assert(optional_bytes(value) + rest =~= be(1, 1) + r0);
            lemma_u8(1, r0);
            lemma_u64(number, rest);
        },
        None => {
            lemma_u8(0, rest);
        },
    }
}

proof fn lemma_estimate(estimate: CollectionDraftEstimate, rest: Seq<u8>)
    ensures
        next_estimate(estimate_bytes(estimate) + rest) == Ok::<
            (CollectionDraftEstimate, Seq<u8>),
            Seq<char>,
        >((estimate, rest)),
{
    let r3 = flag_bytes(estimate.fits_budget) + rest;
    let r2 = be(estimate.category_batches as nat, 8) + r3;
    let r1 = optional_bytes(estimate.predicted_canonical_bytes) + r2;
    let r0 = be(estimate.missing_title_count as nat, 8) + r1;
    lemma_cat5(
        be(estimate.resolved_page_count as nat, 8),
        be(estimate.missing_title_count as nat, 8),
        optional_bytes(estimate.predicted_canonical_bytes),
        be(estimate.category_batches as nat, 8),
        flag_bytes(estimate.fits_budget),
        rest,
    );
    lemma_u64(estimate.resolved_page_count, r0);
    lemma_u64(estimate.missing_title_count, r1);
    lemma_optional(estimate.predicted_canonical_bytes, r2);
    lemma_u64(estimate.category_batches, r3);
    lemma_flag(estimate.fits_budget, "invalid estimate budget flag"@, rest);
}

/// Identifiers inside a finished collection operation are positive.
pub open spec fn valid_collection_outcome(outcome: CollectionOutcomeView) -> bool {
    match outcome {
        CollectionOutcomeView::Estimated(estimate) => true,
        CollectionOutcomeView::Added { collection_id, estimate } => collection_id > 0,
        CollectionOutcomeView::Edited { collection_id, estimate } => collection_id > 0,
        CollectionOutcomeView::Removed { collection_id } => collection_id > 0,
    }
}

proof fn lemma_collection_outcome(outcome: CollectionOutcomeView, rest: Seq<u8>)
    requires
        valid_collection_outcome(outcome),
    ensures
        next_collection_outcome(collection_outcome_bytes(outcome) + rest) == Ok::<
            (CollectionOutcomeView, Seq<u8>),
            Seq<char>,
        >((outcome, rest)),
{
    match outcome {
        CollectionOutcomeView::Estimated(estimate) => {
            let r0 = estimate_bytes(estimate) + rest;
            lemma_cat2(be(1, 1), estimate_bytes(estimate), rest);
            lemma_u8(1, r0);
            lemma_estimate(estimate, rest);
        },
        CollectionOutcomeView::Added { collection_id, estimate } => {
            let r1 = estimate_bytes(estimate) + rest;
            let r0 = be(collection_id as nat, 8) + r1;
            lemma_cat3(be(2, 1), be(collection_id as nat, 8), estimate_bytes(estimate), rest);
            lemma_u8(2, r0);
            lemma_u64(collection_id, r1);
            lemma_estimate(estimate, rest);
        },
        CollectionOutcomeView::Edited { collection_id, estimate } => {
            let r1 = estimate_bytes(estimate) + rest;
            let r0 = be(collection_id as nat, 8) + r1;
            lemma_cat3(be(3, 1), be(collection_id as nat, 8), estimate_bytes(estimate), rest);
            lemma_u8(3, r0);
            lemma_u64(collection_id, r1);
            lemma_estimate(estimate, rest);
        },
        CollectionOutcomeView::Removed { collection_id } => {
            let r0 = be(collection_id as nat, 8) + rest;
            lemma_cat2(be(4, 1), be(collection_id as nat, 8), rest);
            lemma_u8(4, r0);
            lemma_u64(collection_id, rest);
        },
    }
}

proof fn lemma_admin_outcome(outcome: AdminOutcomeView, rest: Seq<u8>)
    requires
        outcome matches AdminOutcomeView::Completed(done) ==> valid_collection_outcome(done),
    ensures
        next_admin_outcome(admin_outcome_bytes(outcome) + rest) == Ok::<
            (AdminOutcomeView, Seq<u8>),
            Seq<char>,
        >((outcome, rest)),
{
    match outcome {
        AdminOutcomeView::Begun { token } => {
            let r0 = be(token as nat, 8) + rest;
            lemma_cat2(be(1, 1), be(token as nat, 8), rest);
            lemma_u8(1, r0);
            lemma_u64(token, rest);
        },
        AdminOutcomeView::Appended { token, received_bytes, total_bytes } => {
            let r2 = be(total_bytes as nat, 4) + rest;
            let r1 = be(received_bytes as nat, 4) + r2;
            let r0 = be(token as nat, 8) + r1;
            lemma_cat4(
                be(2, 1),
                be(token as nat, 8),
                be(received_bytes as nat, 4),
                be(total_bytes as nat, 4),
                rest,
            );
            lemma_u8(2, r0);
            lemma_u64(token, r1);
            lemma_u32(received_bytes, r2);
            lemma_u32(total_bytes, rest);
        },
        AdminOutcomeView::Aborted { token } => {
            let r0 = be(token as nat, 8) + rest;
            lemma_cat2(be(3, 1), be(token as nat, 8), rest);
            lemma_u8(3, r0);
            lemma_u64(token, rest);
        },
        AdminOutcomeView::Completed(done) => {
            let r0 = collection_outcome_bytes(done) + rest;
            lemma_cat2(be(4, 1), collection_outcome_bytes(done), rest);
            lemma_u8(4, r0);
            lemma_collection_outcome(done, rest);
        },
    }
}

/// Identifiers inside a source result are positive.
pub open spec fn valid_source_outcome(outcome: SourceOutcomeView) -> bool {
    match outcome {
        SourceOutcomeView::Added { wiki_id, api_endpoint, language_code, created } => wiki_id > 0,
        SourceOutcomeView::Removed { wiki_id } => wiki_id > 0,
    }
}

proof fn lemma_source_outcome(outcome: SourceOutcomeView, rest: Seq<u8>)
    requires
        source_outcome_error(outcome) is None,
        valid_source_outcome(outcome),
    ensures
        next_source_outcome(source_outcome_bytes(outcome) + rest) == Ok::<
            (SourceOutcomeView, Seq<u8>),
            Seq<char>,
        >((outcome, rest)),
{
    match outcome {
        SourceOutcomeView::Added { wiki_id, api_endpoint, language_code, created } => {
            let r3 = flag_bytes(created) + rest;
            let r2 = text_field(language_code) + r3;
            let r1 = text_field(api_endpoint) + r2;
            let r0 = be(wiki_id as nat, 8) + r1;
            lemma_cat5(
                be(1, 1),
                be(wiki_id as nat, 8),
                text_field(api_endpoint),
                text_field(language_code),
                flag_bytes(created),
                rest,
            );
            lemma_u8(1, r0);
            lemma_u64(wiki_id, r1);
            lemma_text(api_endpoint, MAX_SOURCE_API_ENDPOINT_BYTES, r2);
            lemma_text(language_code, MAX_SOURCE_LANGUAGE_CODE_BYTES, r3);
            lemma_flag(created, "invalid source-created flag"@, rest);
        },
        SourceOutcomeView::Removed { wiki_id } => {
            let r0 = be(wiki_id as nat, 8) + rest;
            lemma_cat2(be(2, 1), be(wiki_id as nat, 8), rest);
            lemma_u8(2, r0);
            lemma_u64(wiki_id, rest);
        },
    }
}

/// Identifiers inside a response body are positive where the types say so.
pub open spec fn valid_response_kind(kind: ResponseKindView) -> bool {
    match kind {
        ResponseKindView::CollectionAdmin(AdminOutcomeView::Completed(done)) =>
            valid_collection_outcome(done),
        ResponseKindView::SourceAdmin(outcome) => valid_source_outcome(outcome),
        _ => true,
    }
}

proof fn lemma_health(health: HealthView, rest: Seq<u8>)
    requires
        text_oversize(health.daemon_version, MAX_STRING_BYTES) is None,
    ensures
        next_health(
            text_field(health.daemon_version) + (be(health.process_id as nat, 4) + (be(
                health.uptime_seconds as nat,
                8,
            ) + rest)),
        ) == Ok::<(HealthView, Seq<u8>), Seq<char>>((health, rest)),
{
    let r2 = be(health.uptime_seconds as nat, 8) + rest;
    let r1 = be(health.process_id as nat, 4) + r2;
    lemma_text(health.daemon_version, MAX_STRING_BYTES, r1);
    lemma_u32(health.process_id, r2);
    lemma_u64(health.uptime_seconds, rest);
}

proof fn lemma_status(status: StatusView, rest: Seq<u8>)
    requires
        text_oversize(status.state, MAX_STRING_BYTES) is None,
        text_oversize(status.detail, MAX_STRING_BYTES) is None,
    ensures
        next_status(
            be(status.process_id as nat, 4) + (be(status.uptime_seconds as nat, 8) + (be(
                status.completed_mutations as nat,
                8,
            ) + (text_field(status.state) + (text_field(status.detail) + rest)))),
        ) == Ok::<(StatusView, Seq<u8>), Seq<char>>((status, rest)),
{
    let r4 = text_field(status.detail) + rest;
    let r3 = text_field(status.state) + r4;
    let r2 = be(status.completed_mutations as nat, 8) + r3;
    let r1 = be(status.uptime_seconds as nat, 8) + r2;
    lemma_u32(status.process_id, r1);
    lemma_u64(status.uptime_seconds, r2);
    lemma_u64(status.completed_mutations, r3);
    lemma_text(status.state, MAX_STRING_BYTES, r4);
    lemma_text(status.detail, MAX_STRING_BYTES, rest);
}

proof fn lemma_mutation_outcome(outcome: MutationOutcomeView, rest: Seq<u8>)
    requires
        text_oversize(outcome.result, MAX_STRING_BYTES) is None,
        outcome.payload.len() <= MAX_MUTATION_PAYLOAD_BYTES,
    ensures
        next_mutation_outcome(
            text_field(outcome.result) + (bytes_field(outcome.payload) + rest),
        ) == Ok::<(MutationOutcomeView, Seq<u8>), Seq<char>>((outcome, rest)),
{
    lemma_text(outcome.result, MAX_STRING_BYTES, bytes_field(outcome.payload) + rest);
    lemma_bytes(outcome.payload, MAX_MUTATION_PAYLOAD_BYTES, rest);
}

proof fn lemma_failure(error: FailureView, rest: Seq<u8>)
    requires
        text_oversize(error.message, MAX_STRING_BYTES) is None,
    ensures
        next_failure(
            be(error_tag(error.code) as nat, 1) + (text_field(error.message) + rest),
        ) == Ok::<(FailureView, Seq<u8>), Seq<char>>((error, rest)),
{
    lemma_u8(error_tag(error.code), text_field(error.message) + rest);
    lemma_text(error.message, MAX_STRING_BYTES, rest);
}

proof fn lemma_response_kind(version: u16, kind: ResponseKindView, rest: Seq<u8>)
    requires
        response_kind_error(version, kind) is None,
        valid_response_kind(kind),
    ensures
        next_response_kind(version, response_kind_bytes(kind) + rest) == Ok::<
            (ResponseKindView, Seq<u8>),
            Seq<char>,
        >((kind, rest)),
{
    match kind {
        ResponseKindView::Health(health) => {
            let a = text_field(health.daemon_version);
            let b = be(health.process_id as nat, 4);
            let c = be(health.uptime_seconds as nat, 8);
            lemma_cat4(be(1, 1), a, b, c, rest);
            lemma_u8(1, a + (b + (c + rest)));
            lemma_health(health, rest);
        },
        ResponseKindView::Status(status) => {
            let a = be(status.process_id as nat, 4);
            let b = be(status.uptime_seconds as nat, 8);
            let c = be(status.completed_mutations as nat, 8);
            let d = text_field(status.state);
            let e = text_field(status.detail);
            lemma_cat6(be(2, 1), a, b, c, d, e, rest);
            lemma_u8(2, a + (b + (c + (d + (e + rest)))));
            lemma_status(status, rest);
        },
        ResponseKindView::Mutated(outcome) => {
            let a = text_field(outcome.result);
            let b = bytes_field(outcome.payload);
            lemma_cat3(be(3, 1), a, b, rest);
            lemma_u8(3, a + (b + rest));
            lemma_mutation_outcome(outcome, rest);
        },
        ResponseKindView::ShutdownAccepted => {
            lemma_u8(4, rest);
        },
        ResponseKindView::CollectionAdmin(outcome) => {
            lemma_cat2(be(5, 1), admin_outcome_bytes(outcome), rest);
            lemma_u8(5, admin_outcome_bytes(outcome) + rest);
            lemma_admin_outcome(outcome, rest);
        },
        ResponseKindView::SourceAdmin(outcome) => {
            lemma_cat2(be(6, 1), source_outcome_bytes(outcome), rest);
            lemma_u8(6, source_outcome_bytes(outcome) + rest);
            lemma_source_outcome(outcome, rest);
        },
        ResponseKindView::Error(error) => {
            let a = be(error_tag(error.code) as nat, 1);
            let b = text_field(error.message);
            lemma_cat3(be(255, 1), a, b, rest);
            lemma_u8(255, a + (b + rest));
            lemma_failure(error, rest);
        },
    }
}

/// Decoding gives back every response that was encoded.
#[verifier::spinoff_prover]
#[verifier::rlimit(60)]
pub proof fn law_response_round_trip(response: ResponseView)
    requires
        response_encoding(response) is Ok,
        valid_response_kind(response.kind),
    ensures
        response_decoding(response_encoding(response)->Ok_0) == Ok::<ResponseView, Seq<char>>(
            response,
        ),
{
    let empty = Seq::<u8>::empty();
    let body = response_kind_bytes(response.kind);
    lemma_response_kind(response.protocol_version, response.kind, empty);
    lemma_cat_empty(body);
    lemma_envelope(response_magic(), response.protocol_version, response.request_id, body);
}

/// An encoded response with anything after it is refused.
#[verifier::spinoff_prover]
#[verifier::rlimit(60)]
pub proof fn law_response_refuses_trailing_bytes(response: ResponseView, extra: Seq<u8>)
    requires
        response_encoding(response) is Ok,
        valid_response_kind(response.kind),
        extra.len() > 0,
    ensures
        response_decoding(response_encoding(response)->Ok_0 + extra) == Err::<
            ResponseView,
            Seq<char>,
        >("trailing envelope bytes"@),
{
    let envelope = envelope_bytes(
        response_magic(),
        response.protocol_version,
        response.request_id,
    );
    let body = response_kind_bytes(response.kind);
    lemma_response_kind(response.protocol_version, response.kind, extra);
    lemma_cat2(envelope, body, extra);
    lemma_envelope(response_magic(), response.protocol_version, response.request_id, body + extra);
}

/// No encoded response exceeds the frame ceiling.
pub proof fn law_encoded_response_fits_a_frame(response: ResponseView)
    requires
        response_encoding(response) is Ok,
    ensures
        (response_encoding(response)->Ok_0).len() <= MAX_FRAME_BYTES,
{
}

proof fn lemma_estimate_read(bytes: Seq<u8>)
    ensures
        next_estimate(bytes) matches Ok((estimate, rest)) ==> bytes == estimate_bytes(estimate)
            + rest,
{
    lemma_u64_read(bytes);
    if next_estimate(bytes) is Ok {
        let (_, r0) = next_u64(bytes)->Ok_0;
        lemma_u64_read(r0);
        let (_, r1) = next_u64(r0)->Ok_0;
        lemma_u8_read(r1);
        let (tag, r1_tail) = next_u8(r1)->Ok_0;
        lemma_u64_read(r1_tail);
        let (value, r2) = next_optional(r1)->Ok_0;
        assert(r1 =~= optional_bytes(value) + r2);
        lemma_u64_read(r2);
        let (_, r3) = next_u64(r2)->Ok_0;
        lemma_flag_read(r3, "invalid estimate budget flag"@);
        let (estimate, rest) = next_estimate(bytes)->Ok_0;
        assert(bytes =~= estimate_bytes(estimate) + rest);
    }
}

proof fn lemma_collection_outcome_read(bytes: Seq<u8>)
    ensures
        next_collection_outcome(bytes) matches Ok((outcome, rest)) ==> valid_collection_outcome(
            outcome,
        ) && bytes == collection_outcome_bytes(outcome) + rest,
{
    lemma_u8_read(bytes);
    if next_collection_outcome(bytes) is Ok {
        let (tag, after) = next_u8(bytes)->Ok_0;
        let (outcome, rest) = next_collection_outcome(bytes)->Ok_0;
        lemma_estimate_read(after);
        lemma_u64_read(after);
        if tag == 2 || tag == 3 {
            let (_, after_id) = next_u64(after)->Ok_0;
            lemma_estimate_read(after_id);
        }
        assert(bytes =~= collection_outcome_bytes(outcome) + rest);
    }
}

proof fn lemma_admin_outcome_read(bytes: Seq<u8>)
    ensures
        next_admin_outcome(bytes) matches Ok((outcome, rest)) ==> (
        outcome matches AdminOutcomeView::Completed(done) ==> valid_collection_outcome(done))
            && bytes == admin_outcome_bytes(outcome) + rest,
{
    lemma_u8_read(bytes);
    if next_admin_outcome(bytes) is Ok {
        let (tag, after) = next_u8(bytes)->Ok_0;
        let (outcome, rest) = next_admin_outcome(bytes)->Ok_0;
        lemma_u64_read(after);
        lemma_collection_outcome_read(after);
        if tag == 2 {
            let (_, after_token) = next_u64(after)->Ok_0;
            lemma_u32_read(after_token);
            let (_, after_received) = next_u32(after_token)->Ok_0;
            lemma_u32_read(after_received);
        }
        assert(bytes =~= admin_outcome_bytes(outcome) + rest);
    }
}

proof fn lemma_source_outcome_read(bytes: Seq<u8>)
    ensures
        next_source_outcome(bytes) matches Ok((outcome, rest)) ==> source_outcome_error(
            outcome,
        ) is None && valid_source_outcome(outcome) && bytes == source_outcome_bytes(outcome) + rest,
{
    lemma_u8_read(bytes);
    if next_source_outcome(bytes) is Ok {
        let (tag, after) = next_u8(bytes)->Ok_0;
        let (outcome, rest) = next_source_outcome(bytes)->Ok_0;
        lemma_u64_read(after);
        if tag == 1 {
            let (_, r1) = next_u64(after)->Ok_0;
            lemma_text_read(r1, MAX_SOURCE_API_ENDPOINT_BYTES);
            let (_, r2) = next_text(r1, MAX_SOURCE_API_ENDPOINT_BYTES)->Ok_0;
            lemma_text_read(r2, MAX_SOURCE_LANGUAGE_CODE_BYTES);
            let (_, r3) = next_text(r2, MAX_SOURCE_LANGUAGE_CODE_BYTES)->Ok_0;
            lemma_flag_read(r3, "invalid source-created flag"@);
        }
        match outcome {
            SourceOutcomeView::Added { wiki_id, api_endpoint, language_code, created } => {
                lemma_cat5(
                    be(1, 1),
                    be(wiki_id as nat, 8),
                    text_field(api_endpoint),
                    text_field(language_code),
                    flag_bytes(created),
                    rest,
                );
            },
            SourceOutcomeView::Removed { wiki_id } => {
                lemma_cat2(be(2, 1), be(wiki_id as nat, 8), rest);
            },
        }
    }
}

proof fn lemma_health_read(bytes: Seq<u8>)
    ensures
        next_health(bytes) matches Ok((health, rest)) ==> text_oversize(
            health.daemon_version,
            MAX_STRING_BYTES,
        ) is None && bytes == text_field(health.daemon_version) + (be(health.process_id as nat, 4)
            + (be(health.uptime_seconds as nat, 8) + rest)),
{
    if next_health(bytes) is Ok {
        lemma_text_read(bytes, MAX_STRING_BYTES);
        let (_, r1) = next_text(bytes, MAX_STRING_BYTES)->Ok_0;
        lemma_u32_read(r1);
        let (_, r2) = next_u32(r1)->Ok_0;
        lemma_u64_read(r2);
    }
}

proof fn lemma_status_read(bytes: Seq<u8>)
    ensures
        next_status(bytes) matches Ok((status, rest)) ==> text_oversize(
            status.state,
            MAX_STRING_BYTES,
        ) is None && text_oversize(status.detail, MAX_STRING_BYTES) is None && bytes == be(
            status.process_id as nat,
            4,
        ) + (be(status.uptime_seconds as nat, 8) + (be(status.completed_mutations as nat, 8) + (
        text_field(status.state) + (text_field(status.detail) + rest)))),
{
    if next_status(bytes) is Ok {
        lemma_u32_read(bytes);
        let (_, r1) = next_u32(bytes)->Ok_0;
        lemma_u64_read(r1);
        let (_, r2) = next_u64(r1)->Ok_0;
        lemma_u64_read(r2);
        let (_, r3) = next_u64(r2)->Ok_0;
        lemma_text_read(r3, MAX_STRING_BYTES);
        let (_, r4) = next_text(r3, MAX_STRING_BYTES)->Ok_0;
        lemma_text_read(r4, MAX_STRING_BYTES);
    }
}

proof fn lemma_mutation_outcome_read(bytes: Seq<u8>)
    ensures
        next_mutation_outcome(bytes) matches Ok((outcome, rest)) ==> text_oversize(
            outcome.result,
            MAX_STRING_BYTES,
        ) is None && outcome.payload.len() <= MAX_MUTATION_PAYLOAD_BYTES && bytes == text_field(
            outcome.result,
        ) + (bytes_field(outcome.payload) + rest),
{
    if next_mutation_outcome(bytes) is Ok {
        lemma_text_read(bytes, MAX_STRING_BYTES);
        let (_, r1) = next_text(bytes, MAX_STRING_BYTES)->Ok_0;
        lemma_bytes_read(r1, MAX_MUTATION_PAYLOAD_BYTES);
    }
}

proof fn lemma_failure_read(bytes: Seq<u8>)
    ensures
        next_failure(bytes) matches Ok((error, rest)) ==> text_oversize(
            error.message,
            MAX_STRING_BYTES,
        ) is None && bytes == be(error_tag(error.code) as nat, 1) + (text_field(error.message)
            + rest),
{
    if next_failure(bytes) is Ok {
        lemma_u8_read(bytes);
        let (_, r1) = next_u8(bytes)->Ok_0;
        lemma_text_read(r1, MAX_STRING_BYTES);
    }
}

proof fn lemma_response_kind_read(version: u16, bytes: Seq<u8>)
    ensures
        next_response_kind(version, bytes) matches Ok((kind, rest)) ==> response_kind_error(
            version,
            kind,
        ) is None && valid_response_kind(kind) && bytes == response_kind_bytes(kind) + rest,
{
    lemma_u8_read(bytes);
    if next_response_kind(version, bytes) is Ok {
        let (tag, after) = next_u8(bytes)->Ok_0;
        let (kind, rest) = next_response_kind(version, bytes)->Ok_0;
        match kind {
            ResponseKindView::Health(health) => {
                lemma_health_read(after);
                lemma_cat4(
                    be(1, 1),
                    text_field(health.daemon_version),
                    be(health.process_id as nat, 4),
                    be(health.uptime_seconds as nat, 8),
                    rest,
                );
            },
            ResponseKindView::Status(status) => {
                lemma_status_read(after);
                lemma_cat6(
                    be(2, 1),
                    be(status.process_id as nat, 4),
                    be(status.uptime_seconds as nat, 8),
                    be(status.completed_mutations as nat, 8),
                    text_field(status.state),
                    text_field(status.detail),
                    rest,
                );
            },
            ResponseKindView::Mutated(outcome) => {
                lemma_mutation_outcome_read(after);
                lemma_cat3(
                    be(3, 1),
                    text_field(outcome.result),
                    bytes_field(outcome.payload),
                    rest,
                );
            },
            ResponseKindView::ShutdownAccepted => {},
            ResponseKindView::CollectionAdmin(outcome) => {
                lemma_admin_outcome_read(after);
                lemma_cat2(be(5, 1), admin_outcome_bytes(outcome), rest);
            },
            ResponseKindView::SourceAdmin(outcome) => {
                lemma_source_outcome_read(after);
                lemma_cat2(be(6, 1), source_outcome_bytes(outcome), rest);
            },
            ResponseKindView::Error(error) => {
                lemma_failure_read(after);
                lemma_cat3(
                    be(255, 1),
                    be(error_tag(error.code) as nat, 1),
                    text_field(error.message),
                    rest,
                );
            },
        }
    }
}

/// An accepted frame is the encoding of the response that it decodes to.
pub proof fn law_response_encoding_is_canonical(bytes: Seq<u8>)
    requires
        response_decoding(bytes) is Ok,
        bytes.len() <= MAX_FRAME_BYTES,
    ensures
        response_encoding(response_decoding(bytes)->Ok_0) == Ok::<Seq<u8>, DaemonErrorView>(bytes),
{
    lemma_envelope_read(bytes, response_magic());
    let ((version, request_id), body) = next_envelope(bytes, response_magic())->Ok_0;
    lemma_response_kind_read(version, body);
    let (kind, rest) = next_response_kind(version, body)->Ok_0;
    assert(rest =~= Seq::<u8>::empty());
    lemma_cat_empty(response_kind_bytes(kind));
}

} // verus!
