//! Byte contract of the request and response envelopes.
//!
//! Encoding is stated as the concatenation of an envelope's fields, decoding as the
//! fields read from the front one after the other, and the laws at the end tie the two
//! together.

use vstd::prelude::*;
use vstd::string::*;
use vstd::utf8::*;

use crate::collection::{
    CollectionAdministrationOutcome, CollectionDraftEstimate, CollectionOutcomeView,
};
use crate::error::{DaemonError, DaemonErrorView, ErrorCode, FailureView, ResponseError};
use crate::model::{CollectionId, WikiId};
use crate::protocol::{
    request_magic, response_magic, AdminOutcomeView, CollectionAdminProtocolOutcome,
    CollectionAdminRequest, CollectionAdminView, DaemonStatus, Health, HealthView, Mutation,
    MutationOutcome, MutationOutcomeView, MutationView, Request, RequestKind, RequestKindView,
    RequestView, Response, ResponseKind, ResponseKindView, ResponseView, StatusView,
    MAX_COLLECTION_DRAFT_BYTES, MAX_COLLECTION_DRAFT_CHUNK_BYTES, MAX_FRAME_BYTES,
    MAX_MUTATION_PAYLOAD_BYTES, MAX_STRING_BYTES, MIN_PROTOCOL_VERSION, PROTOCOL_VERSION,
};
use crate::source::{
    SourceAdministration, SourceAdministrationOutcome, SourceOutcomeView, SourceView,
    MAX_SOURCE_API_ENDPOINT_BYTES, MAX_SOURCE_LANGUAGE_CODE_BYTES,
};
use crate::wire::{
    be, flag_bytes, put_flag, put_slice, put_u16, put_u32, put_u64, put_u8, split, split_number,
    to_vec, utf8_text, Reader,
};

verus! {

/// A byte field: its length, then its bytes.
pub open spec fn bytes_field(bytes: Seq<u8>) -> Seq<u8> {
    be(bytes.len(), 4) + bytes
}

/// A text field: the byte field of its UTF-8 form.
pub open spec fn text_field(text: Seq<char>) -> Seq<u8> {
    bytes_field(encode_utf8(text))
}

/// The error for a field of `len` bytes under a ceiling.
pub open spec fn oversize(len: nat, maximum: nat) -> Option<DaemonErrorView> {
    if len > maximum {
        Some(DaemonErrorView::FrameTooLarge { size: len })
    } else {
        None
    }
}

/// The error for a text field under a ceiling in bytes.
pub open spec fn text_oversize(text: Seq<char>, maximum: usize) -> Option<DaemonErrorView> {
    oversize(encode_utf8(text).len(), maximum as nat)
}

/// The earlier of two errors.
pub open spec fn first_error(
    first: Option<DaemonErrorView>,
    second: Option<DaemonErrorView>,
) -> Option<DaemonErrorView> {
    if first is Some {
        first
    } else {
        second
    }
}

/// What stops a mutation from being encoded.
pub open spec fn mutation_error(mutation: MutationView) -> Option<DaemonErrorView> {
    match mutation {
        MutationView::Extension { name, payload } => first_error(
            text_oversize(name, MAX_STRING_BYTES),
            oversize(payload.len(), MAX_MUTATION_PAYLOAD_BYTES as nat),
        ),
        _ => None,
    }
}

/// The tagged body of a mutation.
pub open spec fn mutation_bytes(mutation: MutationView) -> Seq<u8> {
    match mutation {
        MutationView::SyncAll => be(1, 1),
        MutationView::SyncCollection(id) => be(2, 1) + be(id as nat, 8),
        MutationView::Verify { full } => be(3, 1) + flag_bytes(full),
        MutationView::Compact => be(4, 1),
        MutationView::Extension { name, payload } => be(5, 1) + text_field(name) + bytes_field(
            payload,
        ),
    }
}

/// A draft has at least one byte and at most the staging ceiling.
pub open spec fn draft_size_in_bound(total_bytes: u32) -> bool {
    0 < total_bytes <= MAX_COLLECTION_DRAFT_BYTES
}

/// What stops a collection-administration request from being encoded.
pub open spec fn admin_error(request: CollectionAdminView) -> Option<DaemonErrorView> {
    match request {
        CollectionAdminView::Begin { total_bytes } => if draft_size_in_bound(total_bytes) {
            None
        } else {
            Some(DaemonErrorView::FrameTooLarge { size: total_bytes as nat })
        },
        CollectionAdminView::Append { token, offset, bytes } => oversize(
            bytes.len(),
            MAX_COLLECTION_DRAFT_CHUNK_BYTES as nat,
        ),
        _ => None,
    }
}

/// The tagged body of a collection-administration request.
pub open spec fn admin_bytes(request: CollectionAdminView) -> Seq<u8> {
    match request {
        CollectionAdminView::Begin { total_bytes } => be(1, 1) + be(total_bytes as nat, 4),
        CollectionAdminView::Append { token, offset, bytes } => be(2, 1) + be(token as nat, 8) + be(
            offset as nat,
            4,
        ) + bytes_field(bytes),
        CollectionAdminView::Estimate { token } => be(3, 1) + be(token as nat, 8),
        CollectionAdminView::Add { token } => be(4, 1) + be(token as nat, 8),
        CollectionAdminView::Edit { token, collection_id, expected_generation } => be(5, 1) + be(
            token as nat,
            8,
        ) + be(collection_id as nat, 8) + be(expected_generation as nat, 8),
        CollectionAdminView::Remove { collection_id } => be(6, 1) + be(collection_id as nat, 8),
        CollectionAdminView::Abort { token } => be(7, 1) + be(token as nat, 8),
    }
}

/// What stops a source operation from being encoded.
pub open spec fn source_error(source: SourceView) -> Option<DaemonErrorView> {
    match source {
        SourceView::Add { api_endpoint, language_code } => first_error(
            text_oversize(api_endpoint, MAX_SOURCE_API_ENDPOINT_BYTES),
            text_oversize(language_code, MAX_SOURCE_LANGUAGE_CODE_BYTES),
        ),
        SourceView::Remove { wiki_id } => None,
    }
}

/// The tagged body of a source operation.
pub open spec fn source_bytes(source: SourceView) -> Seq<u8> {
    match source {
        SourceView::Add { api_endpoint, language_code } => be(1, 1) + text_field(api_endpoint)
            + text_field(language_code),
        SourceView::Remove { wiki_id } => be(2, 1) + be(wiki_id as nat, 8),
    }
}

/// What stops a request body from being encoded under a protocol version.
pub open spec fn request_kind_error(
    version: u16,
    kind: RequestKindView,
) -> Option<DaemonErrorView> {
    match kind {
        RequestKindView::Mutate(mutation) => mutation_error(mutation),
        RequestKindView::CollectionAdmin(request) => if version < 2 {
            Some(
                DaemonErrorView::Protocol(
                    "collection administration requires protocol version 2"@,
                ),
            )
        } else {
            admin_error(request)
        },
        RequestKindView::SourceAdmin(source) => if version < 2 {
            Some(DaemonErrorView::Protocol("source administration requires protocol version 2"@))
        } else {
            source_error(source)
        },
        _ => None,
    }
}

/// The tagged body of a request.
pub open spec fn request_kind_bytes(kind: RequestKindView) -> Seq<u8> {
    match kind {
        RequestKindView::Health => be(1, 1),
        RequestKindView::Status => be(2, 1),
        RequestKindView::Mutate(mutation) => be(3, 1) + mutation_bytes(mutation),
        RequestKindView::Shutdown => be(4, 1),
        RequestKindView::CollectionAdmin(request) => be(5, 1) + admin_bytes(request),
        RequestKindView::SourceAdmin(source) => be(6, 1) + source_bytes(source),
    }
}

/// Magic, version and identifier of an envelope.
pub open spec fn envelope_bytes(magic: Seq<u8>, version: u16, request_id: u64) -> Seq<u8> {
    magic + be(version as nat, 2) + be(request_id as nat, 8)
}

/// The bytes of a request.
pub open spec fn request_bytes(request: RequestView) -> Seq<u8> {
    envelope_bytes(request_magic(), request.protocol_version, request.request_id)
        + request_kind_bytes(request.kind)
}

/// The encoding of a request, or the first reason that there is none.
pub open spec fn request_encoding(request: RequestView) -> Result<Seq<u8>, DaemonErrorView> {
    match request_kind_error(request.protocol_version, request.kind) {
        Some(error) => Err(error),
        None => match oversize(request_bytes(request).len(), MAX_FRAME_BYTES as nat) {
            Some(error) => Err(error),
            None => Ok(request_bytes(request)),
        },
    }
}

fn put_magic(bytes: &mut Vec<u8>, last: u8)
    requires
        last == 0x52 || last == 0x50,
    ensures
        final(bytes)@ == old(bytes)@ + (if last == 0x52 {
            request_magic()
        } else {
            response_magic()
        }),
{
    bytes.push(0x57);
    bytes.push(0x4b);
    bytes.push(0x53);
    bytes.push(last);
    proof {
        assert(bytes@ =~= old(bytes)@ + seq![0x57u8, 0x4bu8, 0x53u8, last]);
    }
}

/// Appends a byte field under a ceiling.
pub fn put_bytes(bytes: &mut Vec<u8>, value: &[u8], maximum: usize) -> (r: Result<(), DaemonError>)
    requires
        maximum <= u32::MAX,
    ensures
        match r {
            Ok(()) => oversize(value@.len(), maximum as nat) is None && final(bytes)@ == old(
                bytes,
            )@ + bytes_field(value@),
            Err(error) => oversize(value@.len(), maximum as nat) == Some(error@),
        },
{
    if value.len() > maximum {
        return Err(DaemonError::FrameTooLarge { size: value.len() });
    }
    put_u32(bytes, value.len() as u32);
    put_slice(bytes, value);
    proof {
        assert(bytes@ =~= old(bytes)@ + bytes_field(value@));
    }
    Ok(())
}

fn put_text(bytes: &mut Vec<u8>, value: &str, maximum: usize) -> (r: Result<(), DaemonError>)
    requires
        maximum <= u32::MAX,
    ensures
        match r {
            Ok(()) => text_oversize(value@, maximum) is None && final(bytes)@ == old(bytes)@
                + text_field(value@),
            Err(error) => text_oversize(value@, maximum) == Some(error@),
        },
{
    put_bytes(bytes, value.as_bytes(), maximum)
}

/// Appends a text field under the envelope ceiling.
pub fn put_string(bytes: &mut Vec<u8>, value: &str) -> (r: Result<(), DaemonError>)
    ensures
        match r {
            Ok(()) => text_oversize(value@, MAX_STRING_BYTES) is None && final(bytes)@ == old(
                bytes,
            )@ + text_field(value@),
            Err(error) => text_oversize(value@, MAX_STRING_BYTES) == Some(error@),
        },
{
    put_text(bytes, value, MAX_STRING_BYTES)
}

/// Appends the body of a mutation.
pub fn encode_mutation(bytes: &mut Vec<u8>, mutation: &Mutation) -> (r: Result<(), DaemonError>)
    ensures
        match r {
            Ok(()) => mutation_error(mutation@) is None && final(bytes)@ == old(bytes)@
                + mutation_bytes(mutation@),
            Err(error) => mutation_error(mutation@) == Some(error@),
        },
{
    match mutation {
        Mutation::SyncAll => put_u8(bytes, 1),
        Mutation::SyncCollection(collection_id) => {
            put_u8(bytes, 2);
            put_u64(bytes, *collection_id);
        },
        Mutation::Verify { full } => {
            put_u8(bytes, 3);
            put_flag(bytes, *full);
        },
        Mutation::Compact => put_u8(bytes, 4),
        Mutation::Extension { name, payload } => {
            put_u8(bytes, 5);
            put_string(bytes, name.as_str())?;
            put_bytes(bytes, payload.as_slice(), MAX_MUTATION_PAYLOAD_BYTES)?;
        },
    }
    proof {
        assert(bytes@ =~= old(bytes)@ + mutation_bytes(mutation@));
    }
    Ok(())
}

/// Appends the body of a collection-administration request.
pub fn encode_collection_admin_request(
    bytes: &mut Vec<u8>,
    request: &CollectionAdminRequest,
) -> (r: Result<(), DaemonError>)
    ensures
        match r {
            Ok(()) => admin_error(request@) is None && final(bytes)@ == old(bytes)@ + admin_bytes(
                request@,
            ),
            Err(error) => admin_error(request@) == Some(error@),
        },
{
    match request {
        CollectionAdminRequest::Begin { total_bytes } => {
            if *total_bytes == 0 || *total_bytes as usize > MAX_COLLECTION_DRAFT_BYTES {
                return Err(DaemonError::FrameTooLarge { size: *total_bytes as usize });
            }
            put_u8(bytes, 1);
            put_u32(bytes, *total_bytes);
        },
        CollectionAdminRequest::Append { token, offset, bytes: chunk } => {
            put_u8(bytes, 2);
            put_u64(bytes, *token);
            put_u32(bytes, *offset);
            put_bytes(bytes, chunk.as_slice(), MAX_COLLECTION_DRAFT_CHUNK_BYTES)?;
        },
        CollectionAdminRequest::Estimate { token } => {
            put_u8(bytes, 3);
            put_u64(bytes, *token);
        },
        CollectionAdminRequest::Add { token } => {
            put_u8(bytes, 4);
            put_u64(bytes, *token);
        },
        CollectionAdminRequest::Edit { token, collection_id, expected_generation } => {
            put_u8(bytes, 5);
            put_u64(bytes, *token);
            put_u64(bytes, *collection_id);
            put_u64(bytes, *expected_generation);
        },
        CollectionAdminRequest::Remove { collection_id } => {
            put_u8(bytes, 6);
            put_u64(bytes, *collection_id);
        },
        CollectionAdminRequest::Abort { token } => {
            put_u8(bytes, 7);
            put_u64(bytes, *token);
        },
    }
    proof {
        assert(bytes@ =~= old(bytes)@ + admin_bytes(request@));
    }
    Ok(())
}

/// Appends the body of a source operation.
pub fn encode_source_administration(
    bytes: &mut Vec<u8>,
    administration: &SourceAdministration,
) -> (r: Result<(), DaemonError>)
    ensures
        match r {
            Ok(()) => source_error(administration@) is None && final(bytes)@ == old(bytes)@
                + source_bytes(administration@),
            Err(error) => source_error(administration@) == Some(error@),
        },
{
    match administration {
        SourceAdministration::Add { api_endpoint, language_code } => {
            put_u8(bytes, 1);
            put_text(bytes, api_endpoint.as_str(), MAX_SOURCE_API_ENDPOINT_BYTES)?;
            put_text(bytes, language_code.as_str(), MAX_SOURCE_LANGUAGE_CODE_BYTES)?;
        },
        SourceAdministration::Remove { wiki_id } => {
            put_u8(bytes, 2);
            put_u64(bytes, wiki_id.get());
        },
    }
    proof {
        assert(bytes@ =~= old(bytes)@ + source_bytes(administration@));
    }
    Ok(())
}

/// Refuses a frame above the ceiling.
pub fn ensure_frame_size(bytes: Vec<u8>) -> (r: Result<Vec<u8>, DaemonError>)
    ensures
        match r {
            Ok(frame) => bytes@.len() <= MAX_FRAME_BYTES && frame@ == bytes@,
            Err(error) => bytes@.len() > MAX_FRAME_BYTES && error@ == (
            DaemonErrorView::FrameTooLarge { size: bytes@.len() }),
        },
{
    if bytes.len() > MAX_FRAME_BYTES {
        Err(DaemonError::FrameTooLarge { size: bytes.len() })
    } else {
        Ok(bytes)
    }
}

/// Encodes a request.
pub fn encode_request(request: &Request) -> (r: Result<Vec<u8>, DaemonError>)
    ensures
        match r {
            Ok(bytes) => request_encoding(request@) == Ok::<Seq<u8>, DaemonErrorView>(bytes@),
            Err(error) => request_encoding(request@) == Err::<Seq<u8>, DaemonErrorView>(error@),
        },
{
    let mut bytes: Vec<u8> = Vec::new();
    put_magic(&mut bytes, 0x52);
    put_u16(&mut bytes, request.protocol_version);
    put_u64(&mut bytes, request.request_id);
    match &request.kind {
        RequestKind::Health => put_u8(&mut bytes, 1),
        RequestKind::Status => put_u8(&mut bytes, 2),
        RequestKind::Mutate(mutation) => {
            put_u8(&mut bytes, 3);
            encode_mutation(&mut bytes, mutation)?;
        },
        RequestKind::Shutdown => put_u8(&mut bytes, 4),
        RequestKind::CollectionAdmin(admin_request) => {
            if request.protocol_version < 2 {
                return Err(
                    DaemonError::Protocol("collection administration requires protocol version 2"),
                );
            }
            put_u8(&mut bytes, 5);
            encode_collection_admin_request(&mut bytes, admin_request)?;
        },
        RequestKind::SourceAdmin(administration) => {
            if request.protocol_version < 2 {
                return Err(
                    DaemonError::Protocol("source administration requires protocol version 2"),
                );
            }
            put_u8(&mut bytes, 6);
            encode_source_administration(&mut bytes, administration)?;
        },
    }
    proof {
        assert(bytes@ =~= request_bytes(request@));
    }
    ensure_frame_size(bytes)
}

/// The tag of an error class.
pub open spec fn error_tag(code: ErrorCode) -> u8 {
    match code {
        ErrorCode::InvalidRequest => 1,
        ErrorCode::UnsupportedVersion => 2,
        ErrorCode::Unsupported => 3,
        ErrorCode::OperationFailed => 4,
        ErrorCode::Internal => 5,
    }
}

pub open spec fn optional_bytes(value: Option<u64>) -> Seq<u8> {
    match value {
        Some(value) => be(1, 1) + be(value as nat, 8),
        None => be(0, 1),
    }
}

/// The fields of an estimate.
pub open spec fn estimate_bytes(estimate: CollectionDraftEstimate) -> Seq<u8> {
    be(estimate.resolved_page_count as nat, 8) + be(estimate.missing_title_count as nat, 8)
        + optional_bytes(estimate.predicted_canonical_bytes) + be(
        estimate.category_batches as nat,
        8,
    ) + flag_bytes(estimate.fits_budget)
}

/// The tagged body of a finished collection operation.
pub open spec fn collection_outcome_bytes(outcome: CollectionOutcomeView) -> Seq<u8> {
    match outcome {
        CollectionOutcomeView::Estimated(estimate) => be(1, 1) + estimate_bytes(estimate),
        CollectionOutcomeView::Added { collection_id, estimate } => be(2, 1) + be(
            collection_id as nat,
            8,
        ) + estimate_bytes(estimate),
        CollectionOutcomeView::Edited { collection_id, estimate } => be(3, 1) + be(
            collection_id as nat,
            8,
        ) + estimate_bytes(estimate),
        CollectionOutcomeView::Removed { collection_id } => be(4, 1) + be(collection_id as nat, 8),
    }
}

/// The tagged body of a collection-administration result.
pub open spec fn admin_outcome_bytes(outcome: AdminOutcomeView) -> Seq<u8> {
    match outcome {
        AdminOutcomeView::Begun { token } => be(1, 1) + be(token as nat, 8),
        AdminOutcomeView::Appended { token, received_bytes, total_bytes } => be(2, 1) + be(
            token as nat,
            8,
        ) + be(received_bytes as nat, 4) + be(total_bytes as nat, 4),
        AdminOutcomeView::Aborted { token } => be(3, 1) + be(token as nat, 8),
        AdminOutcomeView::Completed(outcome) => be(4, 1) + collection_outcome_bytes(outcome),
    }
}

/// What stops a source result from being encoded.
pub open spec fn source_outcome_error(outcome: SourceOutcomeView) -> Option<DaemonErrorView> {
    match outcome {
        SourceOutcomeView::Added { wiki_id, api_endpoint, language_code, created } => first_error(
            text_oversize(api_endpoint, MAX_SOURCE_API_ENDPOINT_BYTES),
            text_oversize(language_code, MAX_SOURCE_LANGUAGE_CODE_BYTES),
        ),
        SourceOutcomeView::Removed { wiki_id } => None,
    }
}

/// The tagged body of a source result.
pub open spec fn source_outcome_bytes(outcome: SourceOutcomeView) -> Seq<u8> {
    match outcome {
        SourceOutcomeView::Added { wiki_id, api_endpoint, language_code, created } => be(1, 1) + be(
            wiki_id as nat,
            8,
        ) + text_field(api_endpoint) + text_field(language_code) + flag_bytes(created),
        SourceOutcomeView::Removed { wiki_id } => be(2, 1) + be(wiki_id as nat, 8),
    }
}

/// What stops a response body from being encoded under a protocol version.
pub open spec fn response_kind_error(
    version: u16,
    kind: ResponseKindView,
) -> Option<DaemonErrorView> {
    match kind {
        ResponseKindView::Health(health) => text_oversize(health.daemon_version, MAX_STRING_BYTES),
        ResponseKindView::Status(status) => first_error(
            text_oversize(status.state, MAX_STRING_BYTES),
            text_oversize(status.detail, MAX_STRING_BYTES),
        ),
        ResponseKindView::Mutated(outcome) => first_error(
            text_oversize(outcome.result, MAX_STRING_BYTES),
            oversize(outcome.payload.len(), MAX_MUTATION_PAYLOAD_BYTES as nat),
        ),
        ResponseKindView::ShutdownAccepted => None,
        ResponseKindView::CollectionAdmin(outcome) => if version < 2 {
            Some(
                DaemonErrorView::Protocol(
                    "collection administration response requires protocol version 2"@,
                ),
            )
        } else {
            None
        },
        ResponseKindView::SourceAdmin(outcome) => if version < 2 {
            Some(
                DaemonErrorView::Protocol(
                    "source administration response requires protocol version 2"@,
                ),
            )
        } else {
            source_outcome_error(outcome)
        },
        ResponseKindView::Error(error) => text_oversize(error.message, MAX_STRING_BYTES),
    }
}

/// The tagged body of a response.
pub open spec fn response_kind_bytes(kind: ResponseKindView) -> Seq<u8> {
    match kind {
        ResponseKindView::Health(health) => be(1, 1) + text_field(health.daemon_version) + be(
            health.process_id as nat,
            4,
        ) + be(health.uptime_seconds as nat, 8),
        ResponseKindView::Status(status) => be(2, 1) + be(status.process_id as nat, 4) + be(
            status.uptime_seconds as nat,
            8,
        ) + be(status.completed_mutations as nat, 8) + text_field(status.state) + text_field(
            status.detail,
        ),
        ResponseKindView::Mutated(outcome) => be(3, 1) + text_field(outcome.result) + bytes_field(
            outcome.payload,
        ),
        ResponseKindView::ShutdownAccepted => be(4, 1),
        ResponseKindView::CollectionAdmin(outcome) => be(5, 1) + admin_outcome_bytes(outcome),
        ResponseKindView::SourceAdmin(outcome) => be(6, 1) + source_outcome_bytes(outcome),
        ResponseKindView::Error(error) => be(255, 1) + be(error_tag(error.code) as nat, 1)
            + text_field(error.message),
    }
}

/// The bytes of a response.
pub open spec fn response_bytes(response: ResponseView) -> Seq<u8> {
    envelope_bytes(response_magic(), response.protocol_version, response.request_id)
        + response_kind_bytes(response.kind)
}

/// The encoding of a response, or the first reason that there is none.
pub open spec fn response_encoding(response: ResponseView) -> Result<Seq<u8>, DaemonErrorView> {
    match response_kind_error(response.protocol_version, response.kind) {
        Some(error) => Err(error),
        None => match oversize(response_bytes(response).len(), MAX_FRAME_BYTES as nat) {
            Some(error) => Err(error),
            None => Ok(response_bytes(response)),
        },
    }
}

pub fn error_code_tag(code: ErrorCode) -> (tag: u8)
    ensures
        tag == error_tag(code),
{
    match code {
        ErrorCode::InvalidRequest => 1,
        ErrorCode::UnsupportedVersion => 2,
        ErrorCode::Unsupported => 3,
        ErrorCode::OperationFailed => 4,
        ErrorCode::Internal => 5,
    }
}

/// Appends an estimate.
pub fn encode_collection_estimate(bytes: &mut Vec<u8>, estimate: CollectionDraftEstimate)
    ensures
        final(bytes)@ == old(bytes)@ + estimate_bytes(estimate),
{
    put_u64(bytes, estimate.resolved_page_count);
    put_u64(bytes, estimate.missing_title_count);
    match estimate.predicted_canonical_bytes {
        Some(value) => {
            put_u8(bytes, 1);
            put_u64(bytes, value);
        },
        None => put_u8(bytes, 0),
    }
    put_u64(bytes, estimate.category_batches);
    put_flag(bytes, estimate.fits_budget);
    proof {
        assert(bytes@ =~= old(bytes)@ + estimate_bytes(estimate));
    }
}

/// Appends a finished collection operation.
pub fn encode_collection_administration_outcome(
    bytes: &mut Vec<u8>,
    outcome: &CollectionAdministrationOutcome,
)
    ensures
        final(bytes)@ == old(bytes)@ + collection_outcome_bytes(outcome@),
{
    match outcome {
        CollectionAdministrationOutcome::Estimated(estimate) => {
            put_u8(bytes, 1);
            encode_collection_estimate(bytes, *estimate);
        },
        CollectionAdministrationOutcome::Added { collection_id, estimate } => {
            put_u8(bytes, 2);
            put_u64(bytes, collection_id.get());
            encode_collection_estimate(bytes, *estimate);
        },
        CollectionAdministrationOutcome::Edited { collection_id, estimate } => {
            put_u8(bytes, 3);
            put_u64(bytes, collection_id.get());
            encode_collection_estimate(bytes, *estimate);
        },
        CollectionAdministrationOutcome::Removed { collection_id } => {
            put_u8(bytes, 4);
            put_u64(bytes, collection_id.get());
        },
    }
    proof {
        assert(bytes@ =~= old(bytes)@ + collection_outcome_bytes(outcome@));
    }
}

/// Appends a collection-administration result.
pub fn encode_collection_admin_outcome(
    bytes: &mut Vec<u8>,
    outcome: &CollectionAdminProtocolOutcome,
)
    ensures
        final(bytes)@ == old(bytes)@ + admin_outcome_bytes(outcome@),
{
    match outcome {
        CollectionAdminProtocolOutcome::Begun { token } => {
            put_u8(bytes, 1);
            put_u64(bytes, *token);
        },
        CollectionAdminProtocolOutcome::Appended { token, received_bytes, total_bytes } => {
            put_u8(bytes, 2);
            put_u64(bytes, *token);
            put_u32(bytes, *received_bytes);
            put_u32(bytes, *total_bytes);
        },
        CollectionAdminProtocolOutcome::Aborted { token } => {
            put_u8(bytes, 3);
            put_u64(bytes, *token);
        },
        CollectionAdminProtocolOutcome::Completed(outcome) => {
            put_u8(bytes, 4);
            encode_collection_administration_outcome(bytes, outcome);
        },
    }
    proof {
        assert(bytes@ =~= old(bytes)@ + admin_outcome_bytes(outcome@));
    }
}

/// Appends a source result.
pub fn encode_source_administration_outcome(
    bytes: &mut Vec<u8>,
    outcome: &SourceAdministrationOutcome,
) -> (r: Result<(), DaemonError>)
    ensures
        match r {
            Ok(()) => source_outcome_error(outcome@) is None && final(bytes)@ == old(bytes)@
                + source_outcome_bytes(outcome@),
            Err(error) => source_outcome_error(outcome@) == Some(error@),
        },
{
    match outcome {
        SourceAdministrationOutcome::Added { wiki_id, api_endpoint, language_code, created } => {
            put_u8(bytes, 1);
            put_u64(bytes, wiki_id.get());
            put_text(bytes, api_endpoint.as_str(), MAX_SOURCE_API_ENDPOINT_BYTES)?;
            put_text(bytes, language_code.as_str(), MAX_SOURCE_LANGUAGE_CODE_BYTES)?;
            put_flag(bytes, *created);
        },
        SourceAdministrationOutcome::Removed { wiki_id } => {
            put_u8(bytes, 2);
            put_u64(bytes, wiki_id.get());
        },
    }
    proof {
        assert(bytes@ =~= old(bytes)@ + source_outcome_bytes(outcome@));
    }
    Ok(())
}

/// Encodes a response.
pub fn encode_response(response: &Response) -> (r: Result<Vec<u8>, DaemonError>)
    ensures
        match r {
            Ok(bytes) => response_encoding(response@) == Ok::<Seq<u8>, DaemonErrorView>(bytes@),
            Err(error) => response_encoding(response@) == Err::<Seq<u8>, DaemonErrorView>(error@),
        },
{
    let mut bytes: Vec<u8> = Vec::new();
    put_magic(&mut bytes, 0x50);
    put_u16(&mut bytes, response.protocol_version);
    put_u64(&mut bytes, response.request_id);
    match &response.kind {
        ResponseKind::Health(health) => {
            put_u8(&mut bytes, 1);
            put_string(&mut bytes, health.daemon_version.as_str())?;
            put_u32(&mut bytes, health.process_id);
            put_u64(&mut bytes, health.uptime_seconds);
        },
        ResponseKind::Status(status) => {
            put_u8(&mut bytes, 2);
            put_u32(&mut bytes, status.process_id);
            put_u64(&mut bytes, status.uptime_seconds);
            put_u64(&mut bytes, status.completed_mutations);
            put_string(&mut bytes, status.state.as_str())?;
            put_string(&mut bytes, status.detail.as_str())?;
        },
        ResponseKind::Mutated(outcome) => {
            put_u8(&mut bytes, 3);
            put_string(&mut bytes, outcome.result.as_str())?;
            put_bytes(&mut bytes, outcome.payload.as_slice(), MAX_MUTATION_PAYLOAD_BYTES)?;
        },
        ResponseKind::ShutdownAccepted => put_u8(&mut bytes, 4),
        ResponseKind::CollectionAdmin(outcome) => {
            if response.protocol_version < 2 {
                return Err(
                    DaemonError::Protocol(
                        "collection administration response requires protocol version 2",
                    ),
                );
            }
            put_u8(&mut bytes, 5);
            encode_collection_admin_outcome(&mut bytes, outcome);
        },
        ResponseKind::SourceAdmin(outcome) => {
            if response.protocol_version < 2 {
                return Err(
                    DaemonError::Protocol(
                        "source administration response requires protocol version 2",
                    ),
                );
            }
            put_u8(&mut bytes, 6);
            encode_source_administration_outcome(&mut bytes, outcome)?;
        },
        ResponseKind::Error(error) => {
            put_u8(&mut bytes, 255);
            put_u8(&mut bytes, error_code_tag(error.code));
            put_string(&mut bytes, error.message.as_str())?;
        },
    }
    proof {
        assert(bytes@ =~= response_bytes(response@));
    }
    ensure_frame_size(bytes)
}

/// What a read yields: a value and the bytes after it, or the reason that there is none.
pub type Parsed<V> = Result<(V, Seq<u8>), Seq<char>>;

/// A read returned what was expected of it and left the bytes after it.
pub open spec fn reads<T: View>(
    result: Result<T, &'static str>,
    rest: Seq<u8>,
    expected: Parsed<T::V>,
) -> bool {
    match result {
        Ok(value) => expected == Ok::<(T::V, Seq<u8>), Seq<char>>((value@, rest)),
        Err(message) => expected == Err::<(T::V, Seq<u8>), Seq<char>>(message@),
    }
}

pub open spec fn next_u8(bytes: Seq<u8>) -> Parsed<u8> {
    match split_number(bytes, 1) {
        Some((value, rest)) => Ok((value as u8, rest)),
        None => Err("truncated integer"@),
    }
}

pub open spec fn next_u16(bytes: Seq<u8>) -> Parsed<u16> {
    match split_number(bytes, 2) {
        Some((value, rest)) => Ok((value as u16, rest)),
        None => Err("truncated integer"@),
    }
}

pub open spec fn next_u32(bytes: Seq<u8>) -> Parsed<u32> {
    match split_number(bytes, 4) {
        Some((value, rest)) => Ok((value as u32, rest)),
        None => Err("truncated integer"@),
    }
}

pub open spec fn next_u64(bytes: Seq<u8>) -> Parsed<u64> {
    match split_number(bytes, 8) {
        Some((value, rest)) => Ok((value as u64, rest)),
        None => Err("truncated integer"@),
    }
}

pub open spec fn next_bytes(bytes: Seq<u8>, maximum: usize) -> Parsed<Seq<u8>> {
    match next_u32(bytes) {
        Err(message) => Err(message),
        Ok((length, rest)) => if length > maximum {
            Err("bounded field is too large"@)
        } else {
            match split(rest, length as nat) {
                Some((field, rest)) => Ok((field, rest)),
                None => Err("truncated byte field"@),
            }
        },
    }
}

pub open spec fn next_text(bytes: Seq<u8>, maximum: usize) -> Parsed<Seq<char>> {
    match next_bytes(bytes, maximum) {
        Err(message) => Err(message),
        Ok((field, rest)) => if valid_utf8(field) {
            Ok((decode_utf8(field), rest))
        } else {
            Err("string field is not UTF-8"@)
        },
    }
}

/// Reads the fields of an envelope.
pub struct Decoder<'a> {
    pub reader: Reader<'a>,
}

impl<'a> View for Decoder<'a> {
    type V = Seq<u8>;

    open spec fn view(&self) -> Seq<u8> {
        self.reader@
    }
}

/// What must stand at the front of an envelope.
pub open spec fn next_magic(bytes: Seq<u8>, magic: Seq<u8>) -> Parsed<()> {
    match split(bytes, 4) {
        Some((head, rest)) => if head == magic {
            Ok(((), rest))
        } else {
            Err("invalid envelope magic"@)
        },
        None => Err("truncated envelope"@),
    }
}

impl<'a> Decoder<'a> {
    pub fn new(bytes: &'a [u8]) -> (decoder: Self)
        ensures
            decoder@ == bytes@,
    {
        Decoder { reader: Reader::new(bytes) }
    }

    /// Reads the magic, whose last byte tells requests from responses.
    pub fn magic(&mut self, last: u8) -> (r: Result<(), &'static str>)
        ensures
            reads(
                r,
                final(self)@,
                next_magic(old(self)@, seq![0x57u8, 0x4bu8, 0x53u8, last]),
            ),
    {
        match self.reader.take(4) {
            Some(head) => {
                let same: bool = head[0] == 0x57 && head[1] == 0x4b && head[2] == 0x53 && head[3]
                    == last;
                proof {
                    if same {
                        assert(head@ =~= seq![0x57u8, 0x4bu8, 0x53u8, last]);
                    }
                }
                if same {
                    Ok(())
                } else {
                    Err("invalid envelope magic")
                }
            },
            None => Err("truncated envelope"),
        }
    }

    pub fn u8(&mut self) -> (r: Result<u8, &'static str>)
        ensures
            reads(r, final(self)@, next_u8(old(self)@)),
    {
        match self.reader.u8() {
            Some(value) => Ok(value),
            None => Err("truncated integer"),
        }
    }

    pub fn u16(&mut self) -> (r: Result<u16, &'static str>)
        ensures
            reads(r, final(self)@, next_u16(old(self)@)),
    {
        match self.reader.u16() {
            Some(value) => Ok(value),
            None => Err("truncated integer"),
        }
    }

    pub fn u32(&mut self) -> (r: Result<u32, &'static str>)
        ensures
            reads(r, final(self)@, next_u32(old(self)@)),
    {
        match self.reader.u32() {
            Some(value) => Ok(value),
            None => Err("truncated integer"),
        }
    }

    pub fn u64(&mut self) -> (r: Result<u64, &'static str>)
        ensures
            reads(r, final(self)@, next_u64(old(self)@)),
    {
        match self.reader.u64() {
            Some(value) => Ok(value),
            None => Err("truncated integer"),
        }
    }

    /// Reads a byte field; its declared length is checked before it is copied.
    pub fn bytes(&mut self, maximum: usize) -> (r: Result<Vec<u8>, &'static str>)
        ensures
            reads(r, final(self)@, next_bytes(old(self)@, maximum)),
    {
        let length: u32 = self.u32()?;
        if length as usize > maximum {
            return Err("bounded field is too large");
        }
        match self.reader.take(length as usize) {
            Some(field) => Ok(to_vec(field)),
            None => Err("truncated byte field"),
        }
    }

    /// Reads a text field.
    pub fn string(&mut self, maximum: usize) -> (r: Result<String, &'static str>)
        ensures
            reads(r, final(self)@, next_text(old(self)@, maximum)),
    {
        let field = self.bytes(maximum)?;
        match utf8_text(field) {
            Ok(text) => Ok(text),
            Err(_) => Err("string field is not UTF-8"),
        }
    }

    /// Nothing may follow the last field.
    pub fn finish(&self) -> (r: Result<(), &'static str>)
        ensures
            match r {
                Ok(()) => self@.len() == 0,
                Err(message) => self@.len() > 0 && message@ == "trailing envelope bytes"@,
            },
    {
        if self.reader.is_empty() {
            Ok(())
        } else {
            Err("trailing envelope bytes")
        }
    }
}

pub open spec fn next_mutation(bytes: Seq<u8>) -> Parsed<MutationView> {
    match next_u8(bytes) {
        Err(message) => Err(message),
        Ok((tag, rest)) => if tag == 1 {
            Ok((MutationView::SyncAll, rest))
        } else if tag == 2 {
            match next_u64(rest) {
                Err(message) => Err(message),
                Ok((id, rest)) => Ok((MutationView::SyncCollection(id), rest)),
            }
        } else if tag == 3 {
            match next_u8(rest) {
                Err(message) => Err(message),
                Ok((flag, rest)) => if flag <= 1 {
                    Ok((MutationView::Verify { full: flag == 1 }, rest))
                } else {
                    Err("invalid verification coverage flag"@)
                },
            }
        } else if tag == 4 {
            Ok((MutationView::Compact, rest))
        } else if tag == 5 {
            match next_text(rest, MAX_STRING_BYTES) {
                Err(message) => Err(message),
                Ok((name, rest)) => match next_bytes(rest, MAX_MUTATION_PAYLOAD_BYTES) {
                    Err(message) => Err(message),
                    Ok((payload, rest)) => Ok((MutationView::Extension { name, payload }, rest)),
                },
            }
        } else {
            Err("unknown mutation kind"@)
        },
    }
}

/// Reads the body of a mutation.
pub fn decode_mutation(decoder: &mut Decoder<'_>) -> (r: Result<Mutation, &'static str>)
    ensures
        reads(r, final(decoder)@, next_mutation(old(decoder)@)),
{
    match decoder.u8()? {
        1 => Ok(Mutation::SyncAll),
        2 => {
            let id: u64 = decoder.u64()?;
            Ok(Mutation::SyncCollection(id))
        },
        3 => match decoder.u8()? {
            0 => Ok(Mutation::Verify { full: false }),
            1 => Ok(Mutation::Verify { full: true }),
            _ => Err("invalid verification coverage flag"),
        },
        4 => Ok(Mutation::Compact),
        5 => {
            let name = decoder.string(MAX_STRING_BYTES)?;
            let payload = decoder.bytes(MAX_MUTATION_PAYLOAD_BYTES)?;
            Ok(Mutation::Extension { name, payload })
        },
        _ => Err("unknown mutation kind"),
    }
}

pub open spec fn next_admin(bytes: Seq<u8>) -> Parsed<CollectionAdminView> {
    match next_u8(bytes) {
        Err(message) => Err(message),
        Ok((tag, rest)) => if tag == 1 {
            match next_u32(rest) {
                Err(message) => Err(message),
                Ok((total_bytes, rest)) => if draft_size_in_bound(total_bytes) {
                    Ok((CollectionAdminView::Begin { total_bytes }, rest))
                } else {
                    Err("collection draft size is outside its bound"@)
                },
            }
        } else if tag == 2 {
            match next_u64(rest) {
                Err(message) => Err(message),
                Ok((token, rest)) => match next_u32(rest) {
                    Err(message) => Err(message),
                    Ok((offset, rest)) => match next_bytes(
                        rest,
                        MAX_COLLECTION_DRAFT_CHUNK_BYTES,
                    ) {
                        Err(message) => Err(message),
                        Ok((bytes, rest)) => Ok(
                            (CollectionAdminView::Append { token, offset, bytes }, rest),
                        ),
                    },
                },
            }
        } else if tag == 5 {
            match next_u64(rest) {
                Err(message) => Err(message),
                Ok((token, rest)) => match next_u64(rest) {
                    Err(message) => Err(message),
                    Ok((collection_id, rest)) => match next_u64(rest) {
                        Err(message) => Err(message),
                        Ok((expected_generation, rest)) => Ok(
                            (
                                CollectionAdminView::Edit {
                                    token,
                                    collection_id,
                                    expected_generation,
                                },
                                rest,
                            ),
                        ),
                    },
                },
            }
        } else if tag == 3 || tag == 4 || tag == 6 || tag == 7 {
            match next_u64(rest) {
                Err(message) => Err(message),
                Ok((id, rest)) => Ok(
                    (
                        if tag == 3 {
                            CollectionAdminView::Estimate { token: id }
                        } else if tag == 4 {
                            CollectionAdminView::Add { token: id }
                        } else if tag == 6 {
                            CollectionAdminView::Remove { collection_id: id }
                        } else {
                            CollectionAdminView::Abort { token: id }
                        },
                        rest,
                    ),
                ),
            }
        } else {
            Err("unknown collection administration operation"@)
        },
    }
}

/// Reads the body of a collection-administration request.
pub fn decode_collection_admin_request(decoder: &mut Decoder<'_>) -> (r: Result<
    CollectionAdminRequest,
    &'static str,
>)
    ensures
        reads(r, final(decoder)@, next_admin(old(decoder)@)),
{
    match decoder.u8()? {
        1 => {
            let total_bytes: u32 = decoder.u32()?;
            if total_bytes == 0 || total_bytes as usize > MAX_COLLECTION_DRAFT_BYTES {
                Err("collection draft size is outside its bound")
            } else {
                Ok(CollectionAdminRequest::Begin { total_bytes })
            }
        },
        2 => {
            let token: u64 = decoder.u64()?;
            let offset: u32 = decoder.u32()?;
            let bytes = decoder.bytes(MAX_COLLECTION_DRAFT_CHUNK_BYTES)?;
            Ok(CollectionAdminRequest::Append { token, offset, bytes })
        },
        3 => {
            let token: u64 = decoder.u64()?;
            Ok(CollectionAdminRequest::Estimate { token })
        },
        4 => {
            let token: u64 = decoder.u64()?;
            Ok(CollectionAdminRequest::Add { token })
        },
        5 => {
            let token: u64 = decoder.u64()?;
            let collection_id: u64 = decoder.u64()?;
            let expected_generation: u64 = decoder.u64()?;
            Ok(CollectionAdminRequest::Edit { token, collection_id, expected_generation })
        },
        6 => {
            let collection_id: u64 = decoder.u64()?;
            Ok(CollectionAdminRequest::Remove { collection_id })
        },
        7 => {
            let token: u64 = decoder.u64()?;
            Ok(CollectionAdminRequest::Abort { token })
        },
        _ => Err("unknown collection administration operation"),
    }
}

pub open spec fn next_source(bytes: Seq<u8>) -> Parsed<SourceView> {
    match next_u8(bytes) {
        Err(message) => Err(message),
        Ok((tag, rest)) => if tag == 1 {
            match next_text(rest, MAX_SOURCE_API_ENDPOINT_BYTES) {
                Err(message) => Err(message),
                Ok((api_endpoint, rest)) => match next_text(rest, MAX_SOURCE_LANGUAGE_CODE_BYTES) {
                    Err(message) => Err(message),
                    Ok((language_code, rest)) => Ok(
                        (SourceView::Add { api_endpoint, language_code }, rest),
                    ),
                },
            }
        } else if tag == 2 {
            match next_u64(rest) {
                Err(message) => Err(message),
                Ok((wiki_id, rest)) => if wiki_id == 0 {
                    Err("invalid wiki ID in source administration request"@)
                } else {
                    Ok((SourceView::Remove { wiki_id }, rest))
                },
            }
        } else {
            Err("unknown source administration operation"@)
        },
    }
}

/// Reads the body of a source operation.
pub fn decode_source_administration(decoder: &mut Decoder<'_>) -> (r: Result<
    SourceAdministration,
    &'static str,
>)
    ensures
        reads(r, final(decoder)@, next_source(old(decoder)@)),
{
    match decoder.u8()? {
        1 => {
            let api_endpoint = decoder.string(MAX_SOURCE_API_ENDPOINT_BYTES)?;
            let language_code = decoder.string(MAX_SOURCE_LANGUAGE_CODE_BYTES)?;
            Ok(SourceAdministration::Add { api_endpoint, language_code })
        },
        2 => {
            let raw: u64 = decoder.u64()?;
            match WikiId::new(raw) {
                Ok(wiki_id) => Ok(SourceAdministration::Remove { wiki_id }),
                Err(_) => Err("invalid wiki ID in source administration request"),
            }
        },
        _ => Err("unknown source administration operation"),
    }
}

pub open spec fn next_request_kind(version: u16, bytes: Seq<u8>) -> Parsed<RequestKindView> {
    match next_u8(bytes) {
        Err(message) => Err(message),
        Ok((tag, rest)) => if tag == 1 {
            Ok((RequestKindView::Health, rest))
        } else if tag == 2 {
            Ok((RequestKindView::Status, rest))
        } else if tag == 3 {
            match next_mutation(rest) {
                Err(message) => Err(message),
                Ok((mutation, rest)) => Ok((RequestKindView::Mutate(mutation), rest)),
            }
        } else if tag == 4 {
            Ok((RequestKindView::Shutdown, rest))
        } else if tag == 5 && version >= 2 {
            match next_admin(rest) {
                Err(message) => Err(message),
                Ok((request, rest)) => Ok((RequestKindView::CollectionAdmin(request), rest)),
            }
        } else if tag == 6 && version >= 2 {
            match next_source(rest) {
                Err(message) => Err(message),
                Ok((source, rest)) => Ok((RequestKindView::SourceAdmin(source), rest)),
            }
        } else {
            Err("unknown request kind"@)
        },
    }
}

fn decode_request_kind(decoder: &mut Decoder<'_>, version: u16) -> (r: Result<
    RequestKind,
    &'static str,
>)
    ensures
        reads(r, final(decoder)@, next_request_kind(version, old(decoder)@)),
{
    let tag: u8 = decoder.u8()?;
    if tag == 1 {
        Ok(RequestKind::Health)
    } else if tag == 2 {
        Ok(RequestKind::Status)
    } else if tag == 3 {
        let mutation = decode_mutation(decoder)?;
        Ok(RequestKind::Mutate(mutation))
    } else if tag == 4 {
        Ok(RequestKind::Shutdown)
    } else if tag == 5 && version >= 2 {
        let request = decode_collection_admin_request(decoder)?;
        Ok(RequestKind::CollectionAdmin(request))
    } else if tag == 6 && version >= 2 {
        let source = decode_source_administration(decoder)?;
        Ok(RequestKind::SourceAdmin(source))
    } else {
        Err("unknown request kind")
    }
}

/// Why bytes are no acceptable request.
#[allow(inconsistent_fields)]
#[derive(Debug, PartialEq, Eq)]
pub enum DecodeRequestError {
    UnsupportedVersion { request_id: u64, version: u16 },
    Invalid { request_id: Option<u64>, message: &'static str },
}

/// Plain view of a request rejection.
#[allow(inconsistent_fields)]
pub enum DecodeRequestErrorView {
    UnsupportedVersion { request_id: u64, version: u16 },
    Invalid { request_id: Option<u64>, message: Seq<char> },
}

impl View for DecodeRequestError {
    type V = DecodeRequestErrorView;

    open spec fn view(&self) -> DecodeRequestErrorView {
        match self {
            DecodeRequestError::UnsupportedVersion { request_id, version } =>
                DecodeRequestErrorView::UnsupportedVersion {
                request_id: *request_id,
                version: *version,
            },
            DecodeRequestError::Invalid { request_id, message } =>
                DecodeRequestErrorView::Invalid { request_id: *request_id, message: message@ },
        }
    }
}

pub open spec fn supported_version(version: u16) -> bool {
    MIN_PROTOCOL_VERSION <= version <= PROTOCOL_VERSION
}

/// The version and identifier of an envelope, and its body.
pub open spec fn next_envelope(bytes: Seq<u8>, magic: Seq<u8>) -> Parsed<(u16, u64)> {
    match next_magic(bytes, magic) {
        Err(message) => Err(message),
        Ok((_, rest)) => match next_u16(rest) {
            Err(message) => Err(message),
            Ok((version, rest)) => match next_u64(rest) {
                Err(message) => Err(message),
                Ok((request_id, rest)) => Ok(((version, request_id), rest)),
            },
        },
    }
}

/// The request that bytes hold, or the reason that they hold none.
pub open spec fn request_decoding(bytes: Seq<u8>) -> Result<RequestView, DecodeRequestErrorView> {
    match next_envelope(bytes, request_magic()) {
        Err(message) => Err(DecodeRequestErrorView::Invalid { request_id: None, message }),
        Ok(((version, request_id), rest)) => if !supported_version(version) {
            Err(DecodeRequestErrorView::UnsupportedVersion { request_id, version })
        } else {
            match next_request_kind(version, rest) {
                Err(message) => Err(
                    DecodeRequestErrorView::Invalid { request_id: Some(request_id), message },
                ),
                Ok((kind, rest)) => if rest.len() > 0 {
                    Err(
                        DecodeRequestErrorView::Invalid {
                            request_id: Some(request_id),
                            message: "trailing envelope bytes"@,
                        },
                    )
                } else {
                    Ok(RequestView { protocol_version: version, request_id, kind })
                },
            }
        },
    }
}

fn decode_envelope(decoder: &mut Decoder<'_>, last: u8) -> (r: Result<(u16, u64), &'static str>)
    requires
        last == 0x52 || last == 0x50,
    ensures
        ({
            let magic = if last == 0x52 {
                request_magic()
            } else {
                response_magic()
            };
            match r {
                Ok(pair) => next_envelope(old(decoder)@, magic) == Ok::<
                    ((u16, u64), Seq<u8>),
                    Seq<char>,
                >((pair, final(decoder)@)),
                Err(message) => next_envelope(old(decoder)@, magic) == Err::<
                    ((u16, u64), Seq<u8>),
                    Seq<char>,
                >(message@),
            }
        }),
{
    decoder.magic(last)?;
    let version: u16 = decoder.u16()?;
    let request_id: u64 = decoder.u64()?;
    Ok((version, request_id))
}

/// Decodes a request.
pub fn decode_request(bytes: &[u8]) -> (r: Result<Request, DecodeRequestError>)
    ensures
        match r {
            Ok(request) => request_decoding(bytes@) == Ok::<RequestView, DecodeRequestErrorView>(
                request@,
            ),
            Err(error) => request_decoding(bytes@) == Err::<RequestView, DecodeRequestErrorView>(
                error@,
            ),
        },
{
    let mut decoder = Decoder::new(bytes);
    let (version, request_id): (u16, u64) = match decode_envelope(&mut decoder, 0x52) {
        Ok(pair) => pair,
        Err(message) => return Err(DecodeRequestError::Invalid { request_id: None, message }),
    };
    if version < MIN_PROTOCOL_VERSION || version > PROTOCOL_VERSION {
        return Err(DecodeRequestError::UnsupportedVersion { request_id, version });
    }
    let kind = match decode_request_kind(&mut decoder, version) {
        Ok(kind) => kind,
        Err(message) => return Err(
            DecodeRequestError::Invalid { request_id: Some(request_id), message },
        ),
    };
    match decoder.finish() {
        Ok(()) => Ok(Request { protocol_version: version, request_id, kind }),
        Err(message) => Err(DecodeRequestError::Invalid { request_id: Some(request_id), message }),
    }
}

pub open spec fn next_optional(bytes: Seq<u8>) -> Parsed<Option<u64>> {
    match next_u8(bytes) {
        Err(message) => Err(message),
        Ok((tag, rest)) => if tag == 0 {
            Ok((None, rest))
        } else if tag == 1 {
            match next_u64(rest) {
                Err(message) => Err(message),
                Ok((value, rest)) => Ok((Some(value), rest)),
            }
        } else {
            Err("invalid optional estimate encoding"@)
        },
    }
}

/// A flag, with the message for any other byte.
pub open spec fn next_flag(bytes: Seq<u8>, message: Seq<char>) -> Parsed<bool> {
    match next_u8(bytes) {
        Err(message) => Err(message),
        Ok((flag, rest)) => if flag <= 1 {
            Ok((flag == 1, rest))
        } else {
            Err(message)
        },
    }
}

pub open spec fn next_estimate(bytes: Seq<u8>) -> Parsed<CollectionDraftEstimate> {
    match next_u64(bytes) {
        Err(message) => Err(message),
        Ok((resolved_page_count, rest)) => match next_u64(rest) {
            Err(message) => Err(message),
            Ok((missing_title_count, rest)) => match next_optional(rest) {
                Err(message) => Err(message),
                Ok((predicted_canonical_bytes, rest)) => match next_u64(rest) {
                    Err(message) => Err(message),
                    Ok((category_batches, rest)) => match next_flag(
                        rest,
                        "invalid estimate budget flag"@,
                    ) {
                        Err(message) => Err(message),
                        Ok((fits_budget, rest)) => Ok(
                            (
                                CollectionDraftEstimate {
                                    resolved_page_count,
                                    missing_title_count,
                                    predicted_canonical_bytes,
                                    category_batches,
                                    fits_budget,
                                },
                                rest,
                            ),
                        ),
                    },
                },
            },
        },
    }
}

fn decode_flag(decoder: &mut Decoder<'_>, message: &'static str) -> (r: Result<bool, &'static str>)
    ensures
        reads(r, final(decoder)@, next_flag(old(decoder)@, message@)),
{
    match decoder.u8()? {
        0 => Ok(false),
        1 => Ok(true),
        _ => Err(message),
    }
}

/// Reads an estimate.
pub fn decode_collection_estimate(decoder: &mut Decoder<'_>) -> (r: Result<
    CollectionDraftEstimate,
    &'static str,
>)
    ensures
        match r {
            Ok(estimate) => next_estimate(old(decoder)@) == Ok::<
                (CollectionDraftEstimate, Seq<u8>),
                Seq<char>,
            >((estimate, final(decoder)@)),
            Err(message) => next_estimate(old(decoder)@) == Err::<
                (CollectionDraftEstimate, Seq<u8>),
                Seq<char>,
            >(message@),
        },
{
    let resolved_page_count: u64 = decoder.u64()?;
    let missing_title_count: u64 = decoder.u64()?;
    let predicted_canonical_bytes: Option<u64> = match decoder.u8()? {
        0 => None,
        1 => {
            let value: u64 = decoder.u64()?;
            Some(value)
        },
        _ => return Err("invalid optional estimate encoding"),
    };
    let category_batches: u64 = decoder.u64()?;
    let fits_budget: bool = decode_flag(decoder, "invalid estimate budget flag")?;
    Ok(
        CollectionDraftEstimate {
            resolved_page_count,
            missing_title_count,
            predicted_canonical_bytes,
            category_batches,
            fits_budget,
        },
    )
}

pub open spec fn next_identifier(bytes: Seq<u8>, message: Seq<char>) -> Parsed<u64> {
    match next_u64(bytes) {
        Err(message) => Err(message),
        Ok((id, rest)) => if id == 0 {
            Err(message)
        } else {
            Ok((id, rest))
        },
    }
}

pub open spec fn next_collection_id(bytes: Seq<u8>) -> Parsed<u64> {
    next_identifier(bytes, "invalid collection ID in response"@)
}

pub open spec fn next_wiki_id(bytes: Seq<u8>) -> Parsed<u64> {
    next_identifier(bytes, "invalid wiki ID in response"@)
}

fn decode_collection_id(decoder: &mut Decoder<'_>) -> (r: Result<CollectionId, &'static str>)
    ensures
        reads(r, final(decoder)@, next_collection_id(old(decoder)@)),
{
    let raw: u64 = decoder.u64()?;
    match CollectionId::new(raw) {
        Ok(id) => Ok(id),
        Err(_) => Err("invalid collection ID in response"),
    }
}

fn decode_wiki_id(decoder: &mut Decoder<'_>) -> (r: Result<WikiId, &'static str>)
    ensures
        reads(r, final(decoder)@, next_wiki_id(old(decoder)@)),
{
    let raw: u64 = decoder.u64()?;
    match WikiId::new(raw) {
        Ok(id) => Ok(id),
        Err(_) => Err("invalid wiki ID in response"),
    }
}

pub open spec fn next_collection_outcome(bytes: Seq<u8>) -> Parsed<CollectionOutcomeView> {
    match next_u8(bytes) {
        Err(message) => Err(message),
        Ok((tag, rest)) => if tag == 1 {
            match next_estimate(rest) {
                Err(message) => Err(message),
                Ok((estimate, rest)) => Ok((CollectionOutcomeView::Estimated(estimate), rest)),
            }
        } else if tag == 2 || tag == 3 {
            match next_collection_id(rest) {
                Err(message) => Err(message),
                Ok((collection_id, rest)) => match next_estimate(rest) {
                    Err(message) => Err(message),
                    Ok((estimate, rest)) => Ok(
                        (
                            if tag == 2 {
                                CollectionOutcomeView::Added { collection_id, estimate }
                            } else {
                                CollectionOutcomeView::Edited { collection_id, estimate }
                            },
                            rest,
                        ),
                    ),
                },
            }
        } else if tag == 4 {
            match next_collection_id(rest) {
                Err(message) => Err(message),
                Ok((collection_id, rest)) => Ok(
                    (CollectionOutcomeView::Removed { collection_id }, rest),
                ),
            }
        } else {
            Err("unknown completed collection administration outcome"@)
        },
    }
}

/// Reads a finished collection operation.
pub fn decode_collection_administration_outcome(decoder: &mut Decoder<'_>) -> (r: Result<
    CollectionAdministrationOutcome,
    &'static str,
>)
    ensures
        reads(r, final(decoder)@, next_collection_outcome(old(decoder)@)),
{
    match decoder.u8()? {
        1 => {
            let estimate = decode_collection_estimate(decoder)?;
            Ok(CollectionAdministrationOutcome::Estimated(estimate))
        },
        2 => {
            let collection_id = decode_collection_id(decoder)?;
            let estimate = decode_collection_estimate(decoder)?;
            Ok(CollectionAdministrationOutcome::Added { collection_id, estimate })
        },
        3 => {
            let collection_id = decode_collection_id(decoder)?;
            let estimate = decode_collection_estimate(decoder)?;
            Ok(CollectionAdministrationOutcome::Edited { collection_id, estimate })
        },
        4 => {
            let collection_id = decode_collection_id(decoder)?;
            Ok(CollectionAdministrationOutcome::Removed { collection_id })
        },
        _ => Err("unknown completed collection administration outcome"),
    }
}

pub open spec fn next_admin_outcome(bytes: Seq<u8>) -> Parsed<AdminOutcomeView> {
    match next_u8(bytes) {
        Err(message) => Err(message),
        Ok((tag, rest)) => if tag == 1 || tag == 3 {
            match next_u64(rest) {
                Err(message) => Err(message),
                Ok((token, rest)) => Ok(
                    (
                        if tag == 1 {
                            AdminOutcomeView::Begun { token }
                        } else {
                            AdminOutcomeView::Aborted { token }
                        },
                        rest,
                    ),
                ),
            }
        } else if tag == 2 {
            match next_u64(rest) {
                Err(message) => Err(message),
                Ok((token, rest)) => match next_u32(rest) {
                    Err(message) => Err(message),
                    Ok((received_bytes, rest)) => match next_u32(rest) {
                        Err(message) => Err(message),
                        Ok((total_bytes, rest)) => Ok(
                            (
                                AdminOutcomeView::Appended { token, received_bytes, total_bytes },
                                rest,
                            ),
                        ),
                    },
                },
            }
        } else if tag == 4 {
            match next_collection_outcome(rest) {
                Err(message) => Err(message),
                Ok((outcome, rest)) => Ok((AdminOutcomeView::Completed(outcome), rest)),
            }
        } else {
            Err("unknown collection administration response"@)
        },
    }
}

/// Reads a collection-administration result.
pub fn decode_collection_admin_outcome(decoder: &mut Decoder<'_>) -> (r: Result<
    CollectionAdminProtocolOutcome,
    &'static str,
>)
    ensures
        reads(r, final(decoder)@, next_admin_outcome(old(decoder)@)),
{
    match decoder.u8()? {
        1 => {
            let token: u64 = decoder.u64()?;
            Ok(CollectionAdminProtocolOutcome::Begun { token })
        },
        2 => {
            let token: u64 = decoder.u64()?;
            let received_bytes: u32 = decoder.u32()?;
            let total_bytes: u32 = decoder.u32()?;
            Ok(CollectionAdminProtocolOutcome::Appended { token, received_bytes, total_bytes })
        },
        3 => {
            let token: u64 = decoder.u64()?;
            Ok(CollectionAdminProtocolOutcome::Aborted { token })
        },
        4 => {
            let outcome = decode_collection_administration_outcome(decoder)?;
            Ok(CollectionAdminProtocolOutcome::Completed(outcome))
        },
        _ => Err("unknown collection administration response"),
    }
}

pub open spec fn next_source_outcome(bytes: Seq<u8>) -> Parsed<SourceOutcomeView> {
    match next_u8(bytes) {
        Err(message) => Err(message),
        Ok((tag, rest)) => if tag == 1 {
            match next_wiki_id(rest) {
                Err(message) => Err(message),
                Ok((wiki_id, rest)) => match next_text(rest, MAX_SOURCE_API_ENDPOINT_BYTES) {
                    Err(message) => Err(message),
                    Ok((api_endpoint, rest)) => match next_text(
                        rest,
                        MAX_SOURCE_LANGUAGE_CODE_BYTES,
                    ) {
                        Err(message) => Err(message),
                        Ok((language_code, rest)) => match next_flag(
                            rest,
                            "invalid source-created flag"@,
                        ) {
                            Err(message) => Err(message),
                            Ok((created, rest)) => Ok(
                                (
                                    SourceOutcomeView::Added {
                                        wiki_id,
                                        api_endpoint,
                                        language_code,
                                        created,
                                    },
                                    rest,
                                ),
                            ),
                        },
                    },
                },
            }
        } else if tag == 2 {
            match next_wiki_id(rest) {
                Err(message) => Err(message),
                Ok((wiki_id, rest)) => Ok((SourceOutcomeView::Removed { wiki_id }, rest)),
            }
        } else {
            Err("unknown source administration outcome"@)
        },
    }
}

/// Reads a source result.
pub fn decode_source_administration_outcome(decoder: &mut Decoder<'_>) -> (r: Result<
    SourceAdministrationOutcome,
    &'static str,
>)
    ensures
        reads(r, final(decoder)@, next_source_outcome(old(decoder)@)),
{
    match decoder.u8()? {
        1 => {
            let wiki_id = decode_wiki_id(decoder)?;
            let api_endpoint = decoder.string(MAX_SOURCE_API_ENDPOINT_BYTES)?;
            let language_code = decoder.string(MAX_SOURCE_LANGUAGE_CODE_BYTES)?;
            let created: bool = decode_flag(decoder, "invalid source-created flag")?;
            Ok(SourceAdministrationOutcome::Added { wiki_id, api_endpoint, language_code, created })
        },
        2 => {
            let wiki_id = decode_wiki_id(decoder)?;
            Ok(SourceAdministrationOutcome::Removed { wiki_id })
        },
        _ => Err("unknown source administration outcome"),
    }
}

/// The error class of a tag.
pub open spec fn error_of_tag(tag: u8) -> Option<ErrorCode> {
    if tag == 1 {
        Some(ErrorCode::InvalidRequest)
    } else if tag == 2 {
        Some(ErrorCode::UnsupportedVersion)
    } else if tag == 3 {
        Some(ErrorCode::Unsupported)
    } else if tag == 4 {
        Some(ErrorCode::OperationFailed)
    } else if tag == 5 {
        Some(ErrorCode::Internal)
    } else {
        None
    }
}

pub fn decode_error_code(tag: u8) -> (r: Result<ErrorCode, &'static str>)
    ensures
        match r {
            Ok(code) => error_of_tag(tag) == Some(code),
            Err(message) => error_of_tag(tag) is None && message@ == "unknown response error code"@,
        },
{
    match tag {
        1 => Ok(ErrorCode::InvalidRequest),
        2 => Ok(ErrorCode::UnsupportedVersion),
        3 => Ok(ErrorCode::Unsupported),
        4 => Ok(ErrorCode::OperationFailed),
        5 => Ok(ErrorCode::Internal),
        _ => Err("unknown response error code"),
    }
}

pub open spec fn next_health(bytes: Seq<u8>) -> Parsed<HealthView> {
    match next_text(bytes, MAX_STRING_BYTES) {
        Err(message) => Err(message),
        Ok((daemon_version, rest)) => match next_u32(rest) {
            Err(message) => Err(message),
            Ok((process_id, rest)) => match next_u64(rest) {
                Err(message) => Err(message),
                Ok((uptime_seconds, rest)) => Ok(
                    (HealthView { daemon_version, process_id, uptime_seconds }, rest),
                ),
            },
        },
    }
}

pub open spec fn next_status(bytes: Seq<u8>) -> Parsed<StatusView> {
    match next_u32(bytes) {
        Err(message) => Err(message),
        Ok((process_id, rest)) => match next_u64(rest) {
            Err(message) => Err(message),
            Ok((uptime_seconds, rest)) => match next_u64(rest) {
                Err(message) => Err(message),
                Ok((completed_mutations, rest)) => match next_text(rest, MAX_STRING_BYTES) {
                    Err(message) => Err(message),
                    Ok((state, rest)) => match next_text(rest, MAX_STRING_BYTES) {
                        Err(message) => Err(message),
                        Ok((detail, rest)) => Ok(
                            (
                                StatusView {
                                    process_id,
                                    uptime_seconds,
                                    completed_mutations,
                                    state,
                                    detail,
                                },
                                rest,
                            ),
                        ),
                    },
                },
            },
        },
    }
}

pub open spec fn next_mutation_outcome(bytes: Seq<u8>) -> Parsed<MutationOutcomeView> {
    match next_text(bytes, MAX_STRING_BYTES) {
        Err(message) => Err(message),
        Ok((result, rest)) => match next_bytes(rest, MAX_MUTATION_PAYLOAD_BYTES) {
            Err(message) => Err(message),
            Ok((payload, rest)) => Ok((MutationOutcomeView { result, payload }, rest)),
        },
    }
}

pub open spec fn next_failure(bytes: Seq<u8>) -> Parsed<FailureView> {
    match next_u8(bytes) {
        Err(message) => Err(message),
        Ok((tag, rest)) => match error_of_tag(tag) {
            None => Err("unknown response error code"@),
            Some(code) => match next_text(rest, MAX_STRING_BYTES) {
                Err(message) => Err(message),
                Ok((message, rest)) => Ok((FailureView { code, message }, rest)),
            },
        },
    }
}

pub open spec fn next_response_kind(version: u16, bytes: Seq<u8>) -> Parsed<ResponseKindView> {
    match next_u8(bytes) {
        Err(message) => Err(message),
        Ok((tag, rest)) => if tag == 1 {
            match next_health(rest) {
                Err(message) => Err(message),
                Ok((health, rest)) => Ok((ResponseKindView::Health(health), rest)),
            }
        } else if tag == 2 {
            match next_status(rest) {
                Err(message) => Err(message),
                Ok((status, rest)) => Ok((ResponseKindView::Status(status), rest)),
            }
        } else if tag == 3 {
            match next_mutation_outcome(rest) {
                Err(message) => Err(message),
                Ok((outcome, rest)) => Ok((ResponseKindView::Mutated(outcome), rest)),
            }
        } else if tag == 4 {
            Ok((ResponseKindView::ShutdownAccepted, rest))
        } else if tag == 5 && version >= 2 {
            match next_admin_outcome(rest) {
                Err(message) => Err(message),
                Ok((outcome, rest)) => Ok((ResponseKindView::CollectionAdmin(outcome), rest)),
            }
        } else if tag == 6 && version >= 2 {
            match next_source_outcome(rest) {
                Err(message) => Err(message),
                Ok((outcome, rest)) => Ok((ResponseKindView::SourceAdmin(outcome), rest)),
            }
        } else if tag == 255 {
            match next_failure(rest) {
                Err(message) => Err(message),
                Ok((error, rest)) => Ok((ResponseKindView::Error(error), rest)),
            }
        } else {
            Err("unknown response kind"@)
        },
    }
}

fn decode_response_kind(decoder: &mut Decoder<'_>, version: u16) -> (r: Result<
    ResponseKind,
    &'static str,
>)
    ensures
        reads(r, final(decoder)@, next_response_kind(version, old(decoder)@)),
{
    let tag: u8 = decoder.u8()?;
    if tag == 1 {
        let daemon_version = decoder.string(MAX_STRING_BYTES)?;
        let process_id: u32 = decoder.u32()?;
        let uptime_seconds: u64 = decoder.u64()?;
        Ok(ResponseKind::Health(Health { daemon_version, process_id, uptime_seconds }))
    } else if tag == 2 {
        let process_id: u32 = decoder.u32()?;
        let uptime_seconds: u64 = decoder.u64()?;
        let completed_mutations: u64 = decoder.u64()?;
        let state = decoder.string(MAX_STRING_BYTES)?;
        let detail = decoder.string(MAX_STRING_BYTES)?;
        Ok(
            ResponseKind::Status(
                DaemonStatus { process_id, uptime_seconds, completed_mutations, state, detail },
            ),
        )
    } else if tag == 3 {
        let result = decoder.string(MAX_STRING_BYTES)?;
        let payload = decoder.bytes(MAX_MUTATION_PAYLOAD_BYTES)?;
        Ok(ResponseKind::Mutated(MutationOutcome { result, payload }))
    } else if tag == 4 {
        Ok(ResponseKind::ShutdownAccepted)
    } else if tag == 5 && version >= 2 {
        let outcome = decode_collection_admin_outcome(decoder)?;
        Ok(ResponseKind::CollectionAdmin(outcome))
    } else if tag == 6 && version >= 2 {
        let outcome = decode_source_administration_outcome(decoder)?;
        Ok(ResponseKind::SourceAdmin(outcome))
    } else if tag == 255 {
        let tag: u8 = decoder.u8()?;
        let code = decode_error_code(tag)?;
        let message = decoder.string(MAX_STRING_BYTES)?;
        Ok(ResponseKind::Error(ResponseError { code, message }))
    } else {
        Err("unknown response kind")
    }
}

/// The response that bytes hold, or the reason that they hold none.
pub open spec fn response_decoding(bytes: Seq<u8>) -> Result<ResponseView, Seq<char>> {
    match next_envelope(bytes, response_magic()) {
        Err(message) => Err(message),
        Ok(((version, request_id), rest)) => match next_response_kind(version, rest) {
            Err(message) => Err(message),
            Ok((kind, rest)) => if rest.len() > 0 {
                Err("trailing envelope bytes"@)
            } else {
                Ok(ResponseView { protocol_version: version, request_id, kind })
            },
        },
    }
}

fn decode_response_body(bytes: &[u8]) -> (r: Result<Response, &'static str>)
    ensures
        match r {
            Ok(response) => response_decoding(bytes@) == Ok::<ResponseView, Seq<char>>(response@),
            Err(message) => response_decoding(bytes@) == Err::<ResponseView, Seq<char>>(message@),
        },
{
    let mut decoder = Decoder::new(bytes);
    let (version, request_id): (u16, u64) = decode_envelope(&mut decoder, 0x50)?;
    let kind = decode_response_kind(&mut decoder, version)?;
    decoder.finish()?;
    Ok(Response { protocol_version: version, request_id, kind })
}

/// Decodes a response.
pub fn decode_response(bytes: &[u8]) -> (r: Result<Response, DaemonError>)
    ensures
        match r {
            Ok(response) => response_decoding(bytes@) == Ok::<ResponseView, Seq<char>>(response@),
            Err(error) => response_decoding(bytes@) is Err && error@ == DaemonErrorView::Protocol(
                response_decoding(bytes@)->Err_0,
            ),
        },
{
    match decode_response_body(bytes) {
        Ok(response) => Ok(response),
        Err(message) => Err(DaemonError::Protocol(message)),
    }
}

} // verus!
