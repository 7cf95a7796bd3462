//! Byte contract of current-dump receipts.

use vstd::prelude::*;
use vstd::string::*;

use crate::codec::Parsed;
use crate::draft_codec::optional_field;
use crate::dump_bootstrap::{
    digest_message, dump_request_error, hex_digest, CurrentDumpBootstrapOutcome,
    CurrentDumpBootstrapPreview, CurrentDumpBootstrapRequest, DumpBootstrapReport, DumpDigest,
    DumpImportState, DumpOutcomeView, DumpPreviewView, DumpRequestView, TrustedDumpIndex,
    MAX_DATABASE_BYTES, MAX_INDEX_URL_BYTES,
};
use crate::dump_codec::{
    decode_collection, decode_current_dump_bootstrap_request, decode_wiki, dump_field, dump_index,
    dump_number, dump_request_decoding, dump_request_encoding, dump_request_index, dump_text_fits,
    encode_dump_request, long_field, next_dump_flag, next_dump_id, next_dump_option,
    next_dump_text, next_dump_version, next_long, policy_view, put_dump_field, put_long,
    put_optional, reads_dump, reads_plain, whole_value, DumpDecoder, IndexPolicy,
    CURRENT_DUMP_BOOTSTRAP_RESULT, DUMP_ENCODING_VERSION, MAX_REPEATED_REQUEST_BYTES,
    MAX_SHORT_FIELD_BYTES,
};
use crate::error::{daemon_error_text, failure, DaemonError, DaemonErrorView, OperationError};
use crate::model::CollectionId;
use crate::protocol::{MutationOutcome, MutationOutcomeView};
use crate::text::same_text;
use crate::wire::{
    be, flag_bytes, lemma_cat3, lemma_cat4, lemma_cat5, lemma_cat6, lemma_cat7, lemma_empty_cat,
    put_flag, put_u64, put_u8,
};

verus! {

/// Source part of a receipt.
pub open spec fn receipt_source(preview: DumpPreviewView) -> Seq<u8> {
    be(preview.collection_id as nat, 8) + be(preview.wiki_id as nat, 8) + be(
        preview.collection_generation as nat,
        8,
    ) + dump_field(preview.source_api_endpoint) + dump_field(preview.source_language_code)
}

/// Scope and trust part of a receipt.
pub open spec fn receipt_trust(preview: DumpPreviewView) -> Seq<u8> {
    be(preview.selected_pages as nat, 8) + dump_field(preview.index_url) + dump_field(
        preview.index_digest,
    ) + dump_field(preview.expected_database)
}

/// Policy part of a receipt.
pub open spec fn receipt_policy(preview: DumpPreviewView) -> Seq<u8> {
    be(preview.max_concurrent_requests as nat, 8) + optional_field(
        preview.max_download_bytes_per_second,
    ) + flag_bytes(preview.avoid_metered_networks) + optional_field(
        preview.maximum_collection_pages,
    ) + optional_field(preview.maximum_collection_canonical_bytes) + dump_field(
        preview.cache_directory,
    )
}

/// The request that a preview repeats; it is not bound to a generation.
pub open spec fn repeated_request(preview: DumpPreviewView, digest: Seq<char>) -> DumpRequestView {
    DumpRequestView {
        collection_id: preview.collection_id,
        url: preview.index_url,
        digest,
        database: preview.expected_database,
        acquisition: preview.acquisition_limits,
        parser: preview.parser_limits,
        generation: None,
    }
}

/// The first text field of a preview that does not fit, in the order of the encoding.
pub open spec fn source_fields_fit(preview: DumpPreviewView) -> bool {
    &&& dump_text_fits(preview.source_api_endpoint, MAX_INDEX_URL_BYTES)
    &&& dump_text_fits(preview.source_language_code, MAX_SHORT_FIELD_BYTES)
}

pub open spec fn trust_fields_fit(preview: DumpPreviewView) -> bool {
    &&& dump_text_fits(preview.index_url, MAX_INDEX_URL_BYTES)
    &&& dump_text_fits(preview.index_digest, MAX_SHORT_FIELD_BYTES)
    &&& dump_text_fits(preview.expected_database, MAX_DATABASE_BYTES)
}

/// The bytes of the request that a preview repeats, or the first reason for none.
pub open spec fn repeated_request_encoding(preview: DumpPreviewView) -> Result<
    Seq<u8>,
    Seq<char>,
> {
    match hex_digest(preview.index_digest) {
        None => Err(digest_message()),
        Some(digest) => match dump_request_error(repeated_request(preview, digest)) {
            Some(message) => Err(message),
            None => match dump_request_encoding(repeated_request(preview, digest)) {
                Err(error) => Err(daemon_error_text(error)),
                Ok(bytes) => Ok(bytes),
            },
        },
    }
}

/// The encoding of a preview, or the first reason that there is none.
pub open spec fn preview_encoding(preview: DumpPreviewView) -> Result<Seq<u8>, Seq<char>> {
    if !source_fields_fit(preview) || !trust_fields_fit(preview) {
        Err("encoded dump field exceeds its bound"@)
    } else {
        match repeated_request_encoding(preview) {
            Err(message) => Err(message),
            Ok(request) => if !dump_text_fits(preview.cache_directory, MAX_SHORT_FIELD_BYTES) {
                Err("encoded dump field exceeds its bound"@)
            } else {
                Ok(
                    receipt_source(preview) + receipt_trust(preview) + long_field(request)
                        + receipt_policy(preview),
                )
            },
        }
    }
}

/// The tag of an import state.
pub open spec fn import_tag(state: DumpImportState) -> u8 {
    match state {
        DumpImportState::Running => 0,
        DumpImportState::Succeeded => 1,
        DumpImportState::Failed => 2,
    }
}

/// The import state of a tag.
pub open spec fn import_of_tag(tag: nat) -> Option<DumpImportState> {
    if tag == 0 {
        Some(DumpImportState::Running)
    } else if tag == 1 {
        Some(DumpImportState::Succeeded)
    } else if tag == 2 {
        Some(DumpImportState::Failed)
    } else {
        None
    }
}

/// Identifiers and state of an import.
pub open spec fn report_head(report: DumpBootstrapReport) -> Seq<u8> {
    be(report.run_id as nat, 8) + be(report.import_id as nat, 8) + be(
        import_tag(report.import_state) as nat,
        1,
    ) + flag_bytes(report.resumed) + be(report.pages_scanned as nat, 8)
}

/// Counts of an import.
pub open spec fn report_counts(report: DumpBootstrapReport) -> Seq<u8> {
    be(report.pages_imported as nat, 8) + be(report.pages_reused as nat, 8) + be(
        report.pages_absent_from_dump as nat,
        8,
    ) + be(report.closure_pages_checked as nat, 8) + be(report.closure_differing_heads as nat, 8)
        + be(report.closure_missing_pages as nat, 8) + be(
        report.closure_pages_captured_from_api as nat,
        8,
    )
}

/// The encoding of a receipt, or the first reason that there is none.
pub open spec fn dump_outcome_encoding(outcome: DumpOutcomeView) -> Result<Seq<u8>, Seq<char>> {
    match preview_encoding(outcome.preview) {
        Err(message) => Err(message),
        Ok(preview) => Ok(
            be(DUMP_ENCODING_VERSION as nat, 1) + preview + report_head(outcome.report)
                + report_counts(outcome.report) + be(outcome.report.checkpoint_candidate as nat, 8),
        ),
    }
}

fn put_source(bytes: &mut Vec<u8>, preview: &CurrentDumpBootstrapPreview) -> (accepted: bool)
    ensures
        accepted == source_fields_fit(preview@),
        accepted ==> final(bytes)@ == old(bytes)@ + receipt_source(preview@),
{
    put_u64(bytes, preview.collection_id.get());
    put_u64(bytes, preview.wiki_id.get());
    put_u64(bytes, preview.collection_generation);
    if !put_dump_field(bytes, preview.source_api_endpoint.as_str(), MAX_INDEX_URL_BYTES) {
        return false;
    }
    if !put_dump_field(bytes, preview.source_language_code.as_str(), MAX_SHORT_FIELD_BYTES) {
        return false;
    }
    proof {
        let v = preview@;
        lemma_cat5(
            old(bytes)@,
            be(v.collection_id as nat, 8),
            be(v.wiki_id as nat, 8),
            be(v.collection_generation as nat, 8),
            dump_field(v.source_api_endpoint),
            dump_field(v.source_language_code),
        );
        lemma_cat4(
            be(v.collection_id as nat, 8),
            be(v.wiki_id as nat, 8),
            be(v.collection_generation as nat, 8),
            dump_field(v.source_api_endpoint),
            dump_field(v.source_language_code),
        );
    }
    true
}

fn put_trust(bytes: &mut Vec<u8>, preview: &CurrentDumpBootstrapPreview) -> (accepted: bool)
    ensures
        accepted == trust_fields_fit(preview@),
        accepted ==> final(bytes)@ == old(bytes)@ + receipt_trust(preview@),
{
    put_u64(bytes, preview.selected_pages);
    if !put_dump_field(bytes, preview.index_url.as_str(), MAX_INDEX_URL_BYTES) {
        return false;
    }
    if !put_dump_field(bytes, preview.index_digest.as_str(), MAX_SHORT_FIELD_BYTES) {
        return false;
    }
    if !put_dump_field(bytes, preview.expected_database.as_str(), MAX_DATABASE_BYTES) {
        return false;
    }
    proof {
        let v = preview@;
        lemma_cat4(
            old(bytes)@,
            be(v.selected_pages as nat, 8),
            dump_field(v.index_url),
            dump_field(v.index_digest),
            dump_field(v.expected_database),
        );
        lemma_cat3(
            be(v.selected_pages as nat, 8),
            dump_field(v.index_url),
            dump_field(v.index_digest),
            dump_field(v.expected_database),
        );
    }
    true
}

fn put_policy(bytes: &mut Vec<u8>, preview: &CurrentDumpBootstrapPreview) -> (accepted: bool)
    ensures
        accepted == dump_text_fits(preview@.cache_directory, MAX_SHORT_FIELD_BYTES),
        accepted ==> final(bytes)@ == old(bytes)@ + receipt_policy(preview@),
{
    put_u64(bytes, preview.max_concurrent_requests as u64);
    put_optional(bytes, preview.max_download_bytes_per_second);
    put_flag(bytes, preview.avoid_metered_networks);
    put_optional(bytes, preview.maximum_collection_pages);
    put_optional(bytes, preview.maximum_collection_canonical_bytes);
    if !put_dump_field(bytes, preview.cache_directory.as_str(), MAX_SHORT_FIELD_BYTES) {
        return false;
    }
    proof {
        let v = preview@;
        lemma_cat6(
            old(bytes)@,
            be(v.max_concurrent_requests as nat, 8),
            optional_field(v.max_download_bytes_per_second),
            flag_bytes(v.avoid_metered_networks),
            optional_field(v.maximum_collection_pages),
            optional_field(v.maximum_collection_canonical_bytes),
            dump_field(v.cache_directory),
        );
        lemma_cat5(
            be(v.max_concurrent_requests as nat, 8),
            optional_field(v.max_download_bytes_per_second),
            flag_bytes(v.avoid_metered_networks),
            optional_field(v.maximum_collection_pages),
            optional_field(v.maximum_collection_canonical_bytes),
            dump_field(v.cache_directory),
        );
    }
    true
}

fn encode_repeated_request(preview: &CurrentDumpBootstrapPreview) -> (r: Result<
    Vec<u8>,
    OperationError,
>)
    requires
        trust_fields_fit(preview@),
    ensures
        match r {
            Ok(bytes) => repeated_request_encoding(preview@) == Ok::<Seq<u8>, Seq<char>>(bytes@),
            Err(error) => repeated_request_encoding(preview@) is Err && error@ == failure(
                repeated_request_encoding(preview@)->Err_0,
            ),
        },
{
    let digest = match DumpDigest::from_hex(preview.index_digest.as_str()) {
        Ok(digest) => digest,
        Err(message) => return Err(OperationError::failed(message)),
    };
    let index = TrustedDumpIndex {
        url: preview.index_url.clone(),
        digest,
        expected_database: preview.expected_database.clone(),
    };
    let request = CurrentDumpBootstrapRequest::new(preview.collection_id, index)?;
    let request = request.with_limits(preview.acquisition_limits, preview.parser_limits)?;
    match encode_dump_request(&request) {
        Ok(bytes) => Ok(bytes),
        Err(error) => Err(OperationError::failed(error.message().as_str())),
    }
}

/// Appends the preview part of a receipt.
pub fn encode_preview(bytes: &mut Vec<u8>, preview: &CurrentDumpBootstrapPreview) -> (r: Result<
    (),
    OperationError,
>)
    ensures
        match r {
            Ok(()) => preview_encoding(preview@) is Ok && final(bytes)@ == old(bytes)@
                + preview_encoding(preview@)->Ok_0,
            Err(error) => preview_encoding(preview@) is Err && error@ == failure(
                preview_encoding(preview@)->Err_0,
            ),
        },
{
    if !put_source(bytes, preview) {
        return Err(OperationError::failed("encoded dump field exceeds its bound"));
    }
    if !put_trust(bytes, preview) {
        return Err(OperationError::failed("encoded dump field exceeds its bound"));
    }
    let request = encode_repeated_request(preview)?;
    put_long(bytes, request.as_slice());
    if !put_policy(bytes, preview) {
        return Err(OperationError::failed("encoded dump field exceeds its bound"));
    }
    proof {
        let v = preview@;
        lemma_cat4(
            old(bytes)@,
            receipt_source(v),
            receipt_trust(v),
            long_field(request@),
            receipt_policy(v),
        );
        lemma_cat3(
            receipt_source(v),
            receipt_trust(v),
            long_field(request@),
            receipt_policy(v),
        );
    }
    Ok(())
}

fn put_counts(bytes: &mut Vec<u8>, outcome: &CurrentDumpBootstrapOutcome)
    ensures
        final(bytes)@ == old(bytes)@ + report_counts(outcome@.report),
{
    put_u64(bytes, outcome.pages_imported as u64);
    put_u64(bytes, outcome.pages_reused as u64);
    put_u64(bytes, outcome.pages_absent_from_dump as u64);
    put_u64(bytes, outcome.closure_pages_checked as u64);
    put_u64(bytes, outcome.closure_differing_heads as u64);
    put_u64(bytes, outcome.closure_missing_pages as u64);
    put_u64(bytes, outcome.closure_pages_captured_from_api as u64);
    proof {
        let r = outcome@.report;
        lemma_cat7(
            old(bytes)@,
            be(r.pages_imported as nat, 8),
            be(r.pages_reused as nat, 8),
            be(r.pages_absent_from_dump as nat, 8),
            be(r.closure_pages_checked as nat, 8),
            be(r.closure_differing_heads as nat, 8),
            be(r.closure_missing_pages as nat, 8),
            be(r.closure_pages_captured_from_api as nat, 8),
        );
        lemma_cat6(
            be(r.pages_imported as nat, 8),
            be(r.pages_reused as nat, 8),
            be(r.pages_absent_from_dump as nat, 8),
            be(r.closure_pages_checked as nat, 8),
            be(r.closure_differing_heads as nat, 8),
            be(r.closure_missing_pages as nat, 8),
            be(r.closure_pages_captured_from_api as nat, 8),
        );
    }
}

fn put_report_head(bytes: &mut Vec<u8>, outcome: &CurrentDumpBootstrapOutcome)
    ensures
        final(bytes)@ == old(bytes)@ + report_head(outcome@.report),
{
    put_u64(bytes, outcome.run_id);
    put_u64(bytes, outcome.import_id);
    match outcome.import_state {
        DumpImportState::Running => put_u8(bytes, 0),
        DumpImportState::Succeeded => put_u8(bytes, 1),
        DumpImportState::Failed => put_u8(bytes, 2),
    }
    put_flag(bytes, outcome.resumed);
    put_u64(bytes, outcome.pages_scanned);
    proof {
        let r = outcome@.report;
        lemma_cat5(
            old(bytes)@,
            be(r.run_id as nat, 8),
            be(r.import_id as nat, 8),
            be(import_tag(r.import_state) as nat, 1),
            flag_bytes(r.resumed),
            be(r.pages_scanned as nat, 8),
        );
        lemma_cat4(
            be(r.run_id as nat, 8),
            be(r.import_id as nat, 8),
            be(import_tag(r.import_state) as nat, 1),
            flag_bytes(r.resumed),
            be(r.pages_scanned as nat, 8),
        );
    }
}

/// Encodes a receipt. Its index was judged by the transfer client before the bootstrap ran.
pub fn encode_current_dump_bootstrap_outcome(outcome: &CurrentDumpBootstrapOutcome) -> (r: Result<
    Vec<u8>,
    OperationError,
>)
    ensures
        match r {
            Ok(bytes) => dump_outcome_encoding(outcome@) == Ok::<Seq<u8>, Seq<char>>(bytes@),
            Err(error) => dump_outcome_encoding(outcome@) is Err && error@ == failure(
                dump_outcome_encoding(outcome@)->Err_0,
            ),
        },
{
    let mut bytes: Vec<u8> = Vec::new();
    put_u8(&mut bytes, DUMP_ENCODING_VERSION);
    proof {
        lemma_empty_cat(be(DUMP_ENCODING_VERSION as nat, 1));
    }
    encode_preview(&mut bytes, &outcome.preview)?;
    put_report_head(&mut bytes, outcome);
    put_counts(&mut bytes, outcome);
    put_u64(&mut bytes, outcome.checkpoint_committed_through);
    Ok(bytes)
}

/// The source part of a receipt.
pub open spec fn next_source_part(bytes: Seq<u8>) -> Parsed<
    (u64, u64, u64, Seq<char>, Seq<char>),
> {
    match next_dump_id(bytes) {
        Err(message) => Err(message),
        Ok((collection_id, rest)) => match next_dump_id(rest) {
            Err(message) => Err(message),
            Ok((wiki_id, rest)) => match dump_number(rest, 8) {
                Err(message) => Err(message),
                Ok((generation, rest)) => match next_dump_text(rest, MAX_INDEX_URL_BYTES) {
                    Err(message) => Err(message),
                    Ok((endpoint, rest)) => match next_dump_text(rest, MAX_SHORT_FIELD_BYTES) {
                        Err(message) => Err(message),
                        Ok((language, rest)) => Ok(
                            (
                                (collection_id, wiki_id, generation as u64, endpoint, language),
                                rest,
                            ),
                        ),
                    },
                },
            },
        },
    }
}

/// The scope and trust part of a receipt.
pub open spec fn next_trust_part(bytes: Seq<u8>) -> Parsed<
    (u64, Seq<char>, Seq<char>, Seq<char>),
> {
    match dump_number(bytes, 8) {
        Err(message) => Err(message),
        Ok((pages, rest)) => match next_dump_text(rest, MAX_INDEX_URL_BYTES) {
            Err(message) => Err(message),
            Ok((url, rest)) => match next_dump_text(rest, MAX_SHORT_FIELD_BYTES) {
                Err(message) => Err(message),
                Ok((digest, rest)) => match next_dump_text(rest, MAX_DATABASE_BYTES) {
                    Err(message) => Err(message),
                    Ok((database, rest)) => Ok(((pages as u64, url, digest, database), rest)),
                },
            },
        },
    }
}

/// The request that a receipt repeats.
pub open spec fn next_repeated_request(bytes: Seq<u8>, policy: IndexPolicy) -> Parsed<
    DumpRequestView,
> {
    match next_long(bytes, MAX_REPEATED_REQUEST_BYTES) {
        Err(message) => Err(message),
        Ok((field, rest)) => match dump_request_decoding(field, policy) {
            Err(message) => Err(message),
            Ok(request) => Ok((request, rest)),
        },
    }
}

pub open spec fn option_message() -> Seq<char> {
    "invalid encoded dump option"@
}

/// The policy part of a receipt.
pub open spec fn next_policy_part(bytes: Seq<u8>) -> Parsed<
    (u32, Option<u64>, bool, Option<u64>, Option<u64>, Seq<char>),
> {
    match dump_number(bytes, 8) {
        Err(message) => Err(message),
        Ok((requests, rest)) => if requests > u32::MAX {
            Err("dump receipt concurrency exceeds platform limits"@)
        } else {
            match next_dump_option(rest, option_message()) {
                Err(message) => Err(message),
                Ok((rate, rest)) => match next_dump_flag(rest) {
                    Err(message) => Err(message),
                    Ok((avoid, rest)) => match next_dump_option(rest, option_message()) {
                        Err(message) => Err(message),
                        Ok((pages, rest)) => match next_dump_option(rest, option_message()) {
                            Err(message) => Err(message),
                            Ok((limit, rest)) => match next_dump_text(
                                rest,
                                MAX_SHORT_FIELD_BYTES,
                            ) {
                                Err(message) => Err(message),
                                Ok((cache, rest)) => Ok(
                                    ((requests as u32, rate, avoid, pages, limit, cache), rest),
                                ),
                            },
                        },
                    },
                },
            }
        },
    }
}

/// The repeated request agrees with the trust part of its receipt.
pub open spec fn identity_agrees(
    request: DumpRequestView,
    collection_id: u64,
    url: Seq<char>,
    digest: Seq<char>,
    database: Seq<char>,
) -> bool {
    &&& request.collection_id == collection_id
    &&& request.url == url
    &&& request.digest == digest
    &&& request.database == database
}

/// The preview part of a receipt.
pub open spec fn next_preview_part(bytes: Seq<u8>, policy: IndexPolicy) -> Parsed<DumpPreviewView> {
    match next_source_part(bytes) {
        Err(message) => Err(message),
        Ok((source, rest)) => match next_trust_part(rest) {
            Err(message) => Err(message),
            Ok((trust, rest)) => match next_repeated_request(rest, policy) {
                Err(message) => Err(message),
                Ok((request, rest)) => if !identity_agrees(
                    request,
                    source.0,
                    trust.1,
                    trust.2,
                    trust.3,
                ) {
                    Err("receipt preview identity is inconsistent"@)
                } else {
                    match next_policy_part(rest) {
                        Err(message) => Err(message),
                        Ok((policy, rest)) => Ok(
                            (
                                DumpPreviewView {
                                    collection_id: source.0,
                                    wiki_id: source.1,
                                    collection_generation: source.2,
                                    source_api_endpoint: source.3,
                                    source_language_code: source.4,
                                    selected_pages: trust.0,
                                    index_url: trust.1,
                                    index_digest: trust.2,
                                    expected_database: trust.3,
                                    acquisition_limits: request.acquisition,
                                    parser_limits: request.parser,
                                    max_concurrent_requests: policy.0,
                                    max_download_bytes_per_second: policy.1,
                                    avoid_metered_networks: policy.2,
                                    maximum_collection_pages: policy.3,
                                    maximum_collection_canonical_bytes: policy.4,
                                    cache_directory: policy.5,
                                },
                                rest,
                            ),
                        ),
                    }
                },
            },
        },
    }
}

/// Identifiers and state of an import.
pub open spec fn next_report_head(bytes: Seq<u8>) -> Parsed<
    (u64, u64, DumpImportState, bool, u64),
> {
    match dump_number(bytes, 8) {
        Err(message) => Err(message),
        Ok((run_id, rest)) => match dump_number(rest, 8) {
            Err(message) => Err(message),
            Ok((import_id, rest)) => match dump_number(rest, 1) {
                Err(message) => Err(message),
                Ok((tag, rest)) => match import_of_tag(tag) {
                    None => Err("invalid dump import receipt state"@),
                    Some(state) => match next_dump_flag(rest) {
                        Err(message) => Err(message),
                        Ok((resumed, rest)) => match dump_number(rest, 8) {
                            Err(message) => Err(message),
                            Ok((scanned, rest)) => Ok(
                                (
                                    (
                                        run_id as u64,
                                        import_id as u64,
                                        state,
                                        resumed,
                                        scanned as u64,
                                    ),
                                    rest,
                                ),
                            ),
                        },
                    },
                },
            },
        },
    }
}

/// The next count of a receipt.
pub open spec fn next_receipt_count(bytes: Seq<u8>) -> Parsed<usize> {
    match dump_number(bytes, 8) {
        Err(message) => Err(message),
        Ok((count, rest)) => if count > usize::MAX {
            Err("dump receipt count exceeds platform limits"@)
        } else {
            Ok((count as usize, rest))
        },
    }
}

/// The seven counts of a receipt.
pub open spec fn next_counts(bytes: Seq<u8>) -> Parsed<
    (usize, usize, usize, usize, usize, usize, usize),
> {
    match next_receipt_count(bytes) {
        Err(message) => Err(message),
        Ok((a, rest)) => match next_receipt_count(rest) {
            Err(message) => Err(message),
            Ok((b, rest)) => match next_receipt_count(rest) {
                Err(message) => Err(message),
                Ok((c, rest)) => match next_receipt_count(rest) {
                    Err(message) => Err(message),
                    Ok((d, rest)) => match next_receipt_count(rest) {
                        Err(message) => Err(message),
                        Ok((e, rest)) => match next_receipt_count(rest) {
                            Err(message) => Err(message),
                            Ok((f, rest)) => match next_receipt_count(rest) {
                                Err(message) => Err(message),
                                Ok((g, rest)) => Ok(((a, b, c, d, e, f, g), rest)),
                            },
                        },
                    },
                },
            },
        },
    }
}

/// The fields of a receipt.
#[verifier::opaque]
pub open spec fn next_dump_outcome(bytes: Seq<u8>, policy: IndexPolicy) -> Parsed<DumpOutcomeView> {
    match next_dump_version(bytes, "unsupported current-dump receipt encoding"@) {
        Err(message) => Err(message),
        Ok((version, rest)) => match next_preview_part(rest, policy) {
            Err(message) => Err(message),
            Ok((preview, rest)) => match next_report_head(rest) {
                Err(message) => Err(message),
                Ok((head, rest)) => match next_counts(rest) {
                    Err(message) => Err(message),
                    Ok((counts, rest)) => match dump_number(rest, 8) {
                        Err(message) => Err(message),
                        Ok((checkpoint, rest)) => Ok(
                            (
                                DumpOutcomeView {
                                    preview,
                                    report: DumpBootstrapReport {
                                        run_id: head.0,
                                        import_id: head.1,
                                        import_state: head.2,
                                        resumed: head.3,
                                        pages_scanned: head.4,
                                        pages_imported: counts.0,
                                        pages_reused: counts.1,
                                        pages_absent_from_dump: counts.2,
                                        closure_pages_checked: counts.3,
                                        closure_differing_heads: counts.4,
                                        closure_missing_pages: counts.5,
                                        closure_pages_captured_from_api: counts.6,
                                        checkpoint_candidate: checkpoint as u64,
                                    },
                                },
                                rest,
                            ),
                        ),
                    },
                },
            },
        },
    }
}

/// The receipt that a byte sequence holds, or the first reason that it holds none.
pub open spec fn dump_outcome_decoding(bytes: Seq<u8>, policy: IndexPolicy) -> Result<
    DumpOutcomeView,
    Seq<char>,
> {
    whole_value(next_dump_outcome(bytes, policy))
}

/// The index in the request that a receipt repeats, where the receipt goes that far.
#[verifier::opaque]
pub open spec fn receipt_index(bytes: Seq<u8>) -> Option<(Seq<char>, Seq<char>, Seq<char>)> {
    match next_dump_version(bytes, "unsupported current-dump receipt encoding"@) {
        Err(message) => None,
        Ok((version, rest)) => match next_source_part(rest) {
            Err(message) => None,
            Ok((source, rest)) => match next_trust_part(rest) {
                Err(message) => None,
                Ok((trust, rest)) => match next_long(rest, MAX_REPEATED_REQUEST_BYTES) {
                    Err(message) => None,
                    Ok((field, rest)) => match dump_index(field) {
                        Err(message) => None,
                        Ok(index) => Some(index),
                    },
                },
            },
        },
    }
}

fn decode_repeated_request(
    decoder: &mut DumpDecoder<'_>,
    index_policy: Result<(), String>,
) -> (r: Result<CurrentDumpBootstrapRequest, OperationError>)
    ensures
        reads_dump(
            r,
            final(decoder)@,
            next_repeated_request(old(decoder)@, policy_view(index_policy)),
        ),
{
    let bytes = decoder.bytes_with_limit(MAX_REPEATED_REQUEST_BYTES)?;
    decode_current_dump_bootstrap_request(bytes.as_slice(), index_policy)
}

fn agrees(
    request: &CurrentDumpBootstrapRequest,
    collection_id: CollectionId,
    url: &str,
    digest: &str,
    database: &str,
) -> (b: bool)
    ensures
        b == identity_agrees(request@, collection_id@, url@, digest@, database@),
{
    let index = request.trusted_index();
    request.collection_id().get() == collection_id.get() && same_text(index.url.as_str(), url)
        && same_text(index.digest.to_hex().as_str(), digest) && same_text(
        index.expected_database.as_str(),
        database,
    )
}

fn decode_preview(decoder: &mut DumpDecoder<'_>, index_policy: Result<(), String>) -> (r: Result<
    CurrentDumpBootstrapPreview,
    OperationError,
>)
    ensures
        reads_dump(
            r,
            final(decoder)@,
            next_preview_part(old(decoder)@, policy_view(index_policy)),
        ),
{
    let collection_id = decode_collection(decoder)?;
    let wiki_id = decode_wiki(decoder)?;
    let collection_generation: u64 = decoder.u64()?;
    let source_api_endpoint = decoder.string(MAX_INDEX_URL_BYTES)?;
    let source_language_code = decoder.string(MAX_SHORT_FIELD_BYTES)?;
    let selected_pages: u64 = decoder.u64()?;
    let index_url = decoder.string(MAX_INDEX_URL_BYTES)?;
    let index_digest = decoder.string(MAX_SHORT_FIELD_BYTES)?;
    let expected_database = decoder.string(MAX_DATABASE_BYTES)?;
    let request = decode_repeated_request(decoder, index_policy)?;
    if !agrees(
        &request,
        collection_id,
        index_url.as_str(),
        index_digest.as_str(),
        expected_database.as_str(),
    ) {
        return Err(OperationError::failed("receipt preview identity is inconsistent"));
    }
    let requests: u64 = decoder.u64()?;
    if requests > u32::MAX as u64 {
        return Err(OperationError::failed("dump receipt concurrency exceeds platform limits"));
    }
    let max_download_bytes_per_second: Option<u64> = decoder.option_u64(
        "invalid encoded dump option",
    )?;
    let avoid_metered_networks: bool = decoder.bool()?;
    let maximum_collection_pages: Option<u64> = decoder.option_u64("invalid encoded dump option")?;
    let maximum_collection_canonical_bytes: Option<u64> = decoder.option_u64(
        "invalid encoded dump option",
    )?;
    let cache_directory = decoder.string(MAX_SHORT_FIELD_BYTES)?;
    Ok(
        CurrentDumpBootstrapPreview {
            collection_id,
            wiki_id,
            collection_generation,
            source_api_endpoint,
            source_language_code,
            selected_pages,
            index_url,
            index_digest,
            expected_database,
            acquisition_limits: request.acquisition_limits(),
            parser_limits: request.parser_limits(),
            max_concurrent_requests: requests as u32,
            max_download_bytes_per_second,
            avoid_metered_networks,
            maximum_collection_pages,
            maximum_collection_canonical_bytes,
            cache_directory,
        },
    )
}

fn decode_receipt_count(decoder: &mut DumpDecoder<'_>) -> (r: Result<usize, OperationError>)
    ensures
        reads_plain(r, final(decoder)@, next_receipt_count(old(decoder)@)),
{
    let count: u64 = decoder.u64()?;
    if count > usize::MAX as u64 {
        Err(OperationError::failed("dump receipt count exceeds platform limits"))
    } else {
        Ok(count as usize)
    }
}

fn decode_import_state(decoder: &mut DumpDecoder<'_>) -> (r: Result<
    DumpImportState,
    OperationError,
>)
    ensures
        match dump_number(old(decoder)@, 1) {
            Err(message) => r is Err && r->Err_0@ == failure(message),
            Ok((tag, rest)) => match import_of_tag(tag) {
                None => r is Err && r->Err_0@ == failure("invalid dump import receipt state"@),
                Some(state) => r == Ok::<DumpImportState, OperationError>(state) && final(decoder)@ == rest,
            },
        },
{
    let tag: u8 = decoder.u8()?;
    match tag {
        0 => Ok(DumpImportState::Running),
        1 => Ok(DumpImportState::Succeeded),
        2 => Ok(DumpImportState::Failed),
        _ => Err(OperationError::failed("invalid dump import receipt state")),
    }
}

/// Reads the index in the request that a receipt repeats, for the transfer client to judge.
pub fn dump_receipt_index(bytes: &[u8]) -> (r: Option<TrustedDumpIndex>)
    ensures
        match r {
            Some(index) => receipt_index(bytes@) == Some(
                (index.url@, index.digest@, index.expected_database@),
            ),
            None => receipt_index(bytes@) is None,
        },
{
    match read_receipt_index(bytes) {
        Ok(index) => Some(index),
        Err(_) => None,
    }
}

fn read_receipt_index(bytes: &[u8]) -> (r: Result<TrustedDumpIndex, OperationError>)
    ensures
        match r {
            Ok(index) => receipt_index(bytes@) == Some(
                (index.url@, index.digest@, index.expected_database@),
            ),
            Err(_) => receipt_index(bytes@) is None,
        },
{
    reveal(receipt_index);
    let mut decoder = DumpDecoder::new(bytes);
    decoder.version("unsupported current-dump receipt encoding")?;
    decode_collection(&mut decoder)?;
    decode_wiki(&mut decoder)?;
    decoder.u64()?;
    decoder.string(MAX_INDEX_URL_BYTES)?;
    decoder.string(MAX_SHORT_FIELD_BYTES)?;
    decoder.u64()?;
    decoder.string(MAX_INDEX_URL_BYTES)?;
    decoder.string(MAX_SHORT_FIELD_BYTES)?;
    decoder.string(MAX_DATABASE_BYTES)?;
    let field = decoder.bytes_with_limit(MAX_REPEATED_REQUEST_BYTES)?;
    dump_request_index(field.as_slice())
}

/// Decodes a receipt and holds it against the request that it repeats, given the transfer
/// client's verdict on the index of that request.
pub fn decode_outcome(bytes: &[u8], index_policy: Result<(), String>) -> (r: Result<
    CurrentDumpBootstrapOutcome,
    OperationError,
>)
    ensures
        match r {
            Ok(outcome) => dump_outcome_decoding(bytes@, policy_view(index_policy)) == Ok::<
                DumpOutcomeView,
                Seq<char>,
            >(outcome@),
            Err(error) => dump_outcome_decoding(bytes@, policy_view(index_policy)) is Err && error@
                == failure(dump_outcome_decoding(bytes@, policy_view(index_policy))->Err_0),
        },
{
    proof {
        reveal(next_dump_outcome);
    }
    let mut decoder = DumpDecoder::new(bytes);
    decoder.version("unsupported current-dump receipt encoding")?;
    let preview = decode_preview(&mut decoder, index_policy)?;
    let run_id: u64 = decoder.u64()?;
    let import_id: u64 = decoder.u64()?;
    let import_state = decode_import_state(&mut decoder)?;
    let resumed: bool = decoder.bool()?;
    let pages_scanned: u64 = decoder.u64()?;
    let pages_imported: usize = decode_receipt_count(&mut decoder)?;
    let pages_reused: usize = decode_receipt_count(&mut decoder)?;
    let pages_absent_from_dump: usize = decode_receipt_count(&mut decoder)?;
    let closure_pages_checked: usize = decode_receipt_count(&mut decoder)?;
    let closure_differing_heads: usize = decode_receipt_count(&mut decoder)?;
    let closure_missing_pages: usize = decode_receipt_count(&mut decoder)?;
    let closure_pages_captured_from_api: usize = decode_receipt_count(&mut decoder)?;
    let checkpoint_committed_through: u64 = decoder.u64()?;
    decoder.finish()?;
    Ok(
        CurrentDumpBootstrapOutcome {
            preview,
            run_id,
            import_id,
            import_state,
            resumed,
            pages_scanned,
            pages_imported,
            pages_reused,
            pages_absent_from_dump,
            closure_pages_checked,
            closure_differing_heads,
            closure_missing_pages,
            closure_pages_captured_from_api,
            checkpoint_committed_through,
        },
    )
}

/// Decodes a receipt that a daemon returned, given the transfer client's verdict on the index
/// of the request that it repeats.
pub fn decode_current_dump_bootstrap_outcome(
    bytes: &[u8],
    index_policy: Result<(), String>,
) -> (r: Result<CurrentDumpBootstrapOutcome, DaemonError>)
    ensures
        match r {
            Ok(outcome) => dump_outcome_decoding(bytes@, policy_view(index_policy)) == Ok::<
                DumpOutcomeView,
                Seq<char>,
            >(outcome@),
            Err(error) => dump_outcome_decoding(bytes@, policy_view(index_policy)) is Err && error@
                == DaemonErrorView::Protocol("invalid current-dump receipt"@),
        },
{
    match decode_outcome(bytes, index_policy) {
        Ok(outcome) => Ok(outcome),
        Err(_) => Err(DaemonError::Protocol("invalid current-dump receipt")),
    }
}

/// The receipt in a mutation result.
pub open spec fn dump_result_decoding(outcome: MutationOutcomeView, policy: IndexPolicy) -> Result<
    DumpOutcomeView,
    DaemonErrorView,
> {
    if outcome.result != CURRENT_DUMP_BOOTSTRAP_RESULT@ {
        Err(DaemonErrorView::Protocol("unexpected current-dump bootstrap result name"@))
    } else {
        match dump_outcome_decoding(outcome.payload, policy) {
            Ok(receipt) => Ok(receipt),
            Err(message) => Err(DaemonErrorView::Protocol("invalid current-dump receipt"@)),
        }
    }
}

/// Reads the receipt of a forwarded dump bootstrap, given the transfer client's verdict on the
/// index of the request that it repeats.
pub fn decode_dump_result(outcome: &MutationOutcome, index_policy: Result<(), String>) -> (r:
    Result<CurrentDumpBootstrapOutcome, DaemonError>)
    ensures
        match r {
            Ok(receipt) => dump_result_decoding(outcome@, policy_view(index_policy)) == Ok::<
                DumpOutcomeView,
                DaemonErrorView,
            >(receipt@),
            Err(error) => dump_result_decoding(outcome@, policy_view(index_policy)) == Err::<
                DumpOutcomeView,
                DaemonErrorView,
            >(error@),
        },
{
    if !same_text(outcome.result.as_str(), CURRENT_DUMP_BOOTSTRAP_RESULT) {
        return Err(DaemonError::Protocol("unexpected current-dump bootstrap result name"));
    }
    decode_current_dump_bootstrap_outcome(outcome.payload.as_slice(), index_policy)
}

} // verus!
