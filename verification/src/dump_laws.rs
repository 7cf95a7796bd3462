//! What encoding and decoding of dump requests and receipts promise together.

use vstd::prelude::*;
use vstd::utf8::*;

use crate::draft_codec::optional_field;
use crate::dump_bootstrap::{
    hex_digest, DumpAcquisitionLimits, DumpBootstrapReport, DumpImportState, DumpLimits,
    DumpOutcomeView, DumpPreviewView, DumpRequestView, MAX_DATABASE_BYTES, MAX_INDEX_URL_BYTES,
};
use crate::dump_codec::{
    accepted, acquisition_bytes, content_bytes, dump_field, dump_index, dump_number, dump_request_decoding,
    dump_request_encoding, dump_size, dump_text_fits, identity_bytes, lemma_digest_fits, long_field,
    next_acquisition, next_content, next_dump_flag, next_dump_id, next_dump_option,
    next_dump_request, next_dump_text, next_dump_version, next_identity, next_long, next_stream,
    stream_bytes, terms_bytes, IndexPolicy, CURRENT_DUMP_BOOTSTRAP_RESULT, DUMP_ENCODING_VERSION,
    MAX_REPEATED_REQUEST_BYTES, MAX_SHORT_FIELD_BYTES,
};
use crate::dump_receipt::{
    dump_outcome_decoding, dump_outcome_encoding, dump_result_decoding, import_tag, next_counts,
    next_dump_outcome, next_policy_part, next_preview_part, next_receipt_count,
    next_repeated_request, next_report_head, next_source_part, next_trust_part, option_message,
    preview_encoding, receipt_index, receipt_policy, receipt_source, receipt_trust, repeated_request,
    repeated_request_encoding, report_counts, report_head, source_fields_fit, trust_fields_fit,
};
use crate::error::DaemonErrorView;
use crate::protocol::MutationOutcomeView;
use crate::wire::{
    be, flag_bytes, lemma_cat2, lemma_cat3, lemma_cat4, lemma_cat5, lemma_cat6, lemma_cat7,
    lemma_cat_empty, lemma_pow256, lemma_split, lemma_split_number, pow256,
};

verus! {

proof fn lemma_number(value: nat, width: nat, rest: Seq<u8>)
    requires
        value < pow256(width),
    ensures
        dump_number(be(value, width) + rest, width) == Ok::<(nat, Seq<u8>), Seq<char>>(
            (value, rest),
        ),
{
    lemma_split_number(value, width, rest);
}

proof fn lemma_word(value: u64, rest: Seq<u8>)
    ensures
        dump_number(be(value as nat, 8) + rest, 8) == Ok::<(nat, Seq<u8>), Seq<char>>(
            (value as nat, rest),
        ),
{
    lemma_pow256();
    lemma_number(value as nat, 8, rest);
}

proof fn lemma_size(value: usize, rest: Seq<u8>)
    ensures
        dump_size(be(value as nat, 8) + rest) == Ok::<(nat, Seq<u8>), Seq<char>>(
            (value as nat, rest),
        ),
{
    lemma_pow256();
    lemma_number(value as nat, 8, rest);
}

proof fn lemma_long(field: Seq<u8>, limit: usize, rest: Seq<u8>)
    requires
        0 < field.len() <= limit,
    ensures
        next_long(long_field(field) + rest, limit) == Ok::<(Seq<u8>, Seq<u8>), Seq<char>>(
            (field, rest),
        ),
{
    lemma_cat2(be(field.len(), 8), field, rest);
    lemma_size(field.len() as usize, field + rest);
    lemma_split(field, rest);
}

proof fn lemma_dump_text(text: Seq<char>, limit: usize, rest: Seq<u8>)
    requires
        dump_text_fits(text, limit),
    ensures
        next_dump_text(dump_field(text) + rest, limit) == Ok::<(Seq<char>, Seq<u8>), Seq<char>>(
            (text, rest),
        ),
{
    lemma_long(encode_utf8(text), limit, rest);
    encode_utf8_valid_utf8(text);
    encode_utf8_decode_utf8(text);
}

proof fn lemma_option(value: Option<u64>, message: Seq<char>, rest: Seq<u8>)
    ensures
        next_dump_option(optional_field(value) + rest, message) == Ok::<
            (Option<u64>, Seq<u8>),
            Seq<char>,
        >((value, rest)),
{
    lemma_pow256();
    match value {
        None => lemma_number(0, 1, rest),
        Some(value) => {
            lemma_cat2(be(1, 1), be(value as nat, 8), rest);
            lemma_number(1, 1, be(value as nat, 8) + rest);
            lemma_word(value, rest);
        },
    }
}

proof fn lemma_flag(flag: bool, rest: Seq<u8>)
    ensures
        next_dump_flag(flag_bytes(flag) + rest) == Ok::<(bool, Seq<u8>), Seq<char>>((flag, rest)),
{
    lemma_pow256();
    lemma_number(
        if flag {
            1
        } else {
            0
        },
        1,
        rest,
    );
}

proof fn lemma_version(message: Seq<char>, rest: Seq<u8>)
    ensures
        next_dump_version(be(DUMP_ENCODING_VERSION as nat, 1) + rest, message) == Ok::<
            ((), Seq<u8>),
            Seq<char>,
        >(((), rest)),
{
    lemma_pow256();
    lemma_number(1, 1, rest);
}

proof fn lemma_id(id: u64, rest: Seq<u8>)
    requires
        id > 0,
    ensures
        next_dump_id(be(id as nat, 8) + rest) == Ok::<(u64, Seq<u8>), Seq<char>>((id, rest)),
{
    lemma_word(id, rest);
}

proof fn lemma_identity(request: DumpRequestView, rest: Seq<u8>)
    requires
        request.collection_id > 0,
        hex_digest(request.digest) == Some(request.digest),
        dump_text_fits(request.url, MAX_INDEX_URL_BYTES),
        dump_text_fits(request.database, MAX_DATABASE_BYTES),
    ensures
        next_identity(identity_bytes(request) + rest) == Ok::<
            ((u64, Seq<char>, Seq<char>, Seq<char>), Seq<u8>),
            Seq<char>,
        >(((request.collection_id, request.url, request.digest, request.database), rest)),
{
    let version = be(DUMP_ENCODING_VERSION as nat, 1);
    let id = be(request.collection_id as nat, 8);
    let url = dump_field(request.url);
    let digest = dump_field(request.digest);
    let database = dump_field(request.database);
    let after_digest = database + rest;
    let after_url = digest + after_digest;
    let after_id = url + after_url;
    let after_version = id + after_id;
    lemma_cat5(version, id, url, digest, database, rest);
    lemma_version("unsupported current-dump request encoding"@, after_version);
    lemma_id(request.collection_id, after_id);
    lemma_dump_text(request.url, MAX_INDEX_URL_BYTES, after_url);
    lemma_digest_fits(request.digest);
    lemma_dump_text(request.digest, MAX_SHORT_FIELD_BYTES, after_digest);
    lemma_dump_text(request.database, MAX_DATABASE_BYTES, rest);
    lemma_identity_parts(
        request,
        version + after_version,
        after_version,
        after_id,
        after_url,
        after_digest,
        rest,
    );
}

proof fn lemma_identity_parts(
    request: DumpRequestView,
    bytes: Seq<u8>,
    after_version: Seq<u8>,
    after_id: Seq<u8>,
    after_url: Seq<u8>,
    after_digest: Seq<u8>,
    rest: Seq<u8>,
)
    requires
        next_dump_version(bytes, "unsupported current-dump request encoding"@) == Ok::<
            ((), Seq<u8>),
            Seq<char>,
        >(((), after_version)),
        next_dump_id(after_version) == Ok::<(u64, Seq<u8>), Seq<char>>(
            (request.collection_id, after_id),
        ),
        next_dump_text(after_id, MAX_INDEX_URL_BYTES) == Ok::<(Seq<char>, Seq<u8>), Seq<char>>(
            (request.url, after_url),
        ),
        next_dump_text(after_url, MAX_SHORT_FIELD_BYTES) == Ok::<(Seq<char>, Seq<u8>), Seq<char>>(
            (request.digest, after_digest),
        ),
        hex_digest(request.digest) == Some(request.digest),
        next_dump_text(after_digest, MAX_DATABASE_BYTES) == Ok::<(Seq<char>, Seq<u8>), Seq<char>>(
            (request.database, rest),
        ),
    ensures
        next_identity(bytes) == Ok::<
            ((u64, Seq<char>, Seq<char>, Seq<char>), Seq<u8>),
            Seq<char>,
        >(((request.collection_id, request.url, request.digest, request.database), rest)),
{
}

proof fn lemma_acquisition(limits: DumpAcquisitionLimits, rest: Seq<u8>)
    ensures
        next_acquisition(acquisition_bytes(limits) + rest) == Ok::<
            (DumpAcquisitionLimits, Seq<u8>),
            Seq<char>,
        >((limits, rest)),
{
    let a = be(limits.max_index_bytes as nat, 8);
    let b = be(limits.max_artifact_bytes as nat, 8);
    let c = be(limits.max_total_artifact_bytes as nat, 8);
    let d = be(limits.max_artifacts as nat, 8);
    let e = be(limits.max_elapsed_seconds as nat, 8);
    lemma_cat5(a, b, c, d, e, rest);
    lemma_size(limits.max_index_bytes, b + (c + (d + (e + rest))));
    lemma_word(limits.max_artifact_bytes, c + (d + (e + rest)));
    lemma_word(limits.max_total_artifact_bytes, d + (e + rest));
    lemma_size(limits.max_artifacts, e + rest);
    lemma_word(limits.max_elapsed_seconds, rest);
}

proof fn lemma_stream(limits: DumpLimits, rest: Seq<u8>)
    ensures
        next_stream(stream_bytes(limits) + rest) == Ok::<
            ((u64, u64, u64, u64), Seq<u8>),
            Seq<char>,
        >(
            (
                (
                    limits.max_compressed_bytes,
                    limits.max_decompressed_bytes,
                    limits.max_pages,
                    limits.max_page_xml_bytes,
                ),
                rest,
            ),
        ),
{
    let a = be(limits.max_compressed_bytes as nat, 8);
    let b = be(limits.max_decompressed_bytes as nat, 8);
    let c = be(limits.max_pages as nat, 8);
    let d = be(limits.max_page_xml_bytes as nat, 8);
    lemma_cat4(a, b, c, d, rest);
    lemma_word(limits.max_compressed_bytes, b + (c + (d + rest)));
    lemma_word(limits.max_decompressed_bytes, c + (d + rest));
    lemma_word(limits.max_pages, d + rest);
    lemma_word(limits.max_page_xml_bytes, rest);
}

proof fn lemma_content(limits: DumpLimits, rest: Seq<u8>)
    ensures
        next_content(content_bytes(limits) + rest) == Ok::<
            ((usize, usize, u64, usize), Seq<u8>),
            Seq<char>,
        >(
            (
                (
                    limits.max_text_bytes,
                    limits.max_metadata_field_bytes,
                    limits.max_siteinfo_bytes,
                    limits.max_namespaces,
                ),
                rest,
            ),
        ),
{
    let a = be(limits.max_text_bytes as nat, 8);
    let b = be(limits.max_metadata_field_bytes as nat, 8);
    let c = be(limits.max_siteinfo_bytes as nat, 8);
    let d = be(limits.max_namespaces as nat, 8);
    lemma_cat4(a, b, c, d, rest);
    lemma_size(limits.max_text_bytes, b + (c + (d + rest)));
    lemma_size(limits.max_metadata_field_bytes, c + (d + rest));
    lemma_word(limits.max_siteinfo_bytes, d + rest);
    lemma_size(limits.max_namespaces, rest);
}

proof fn lemma_request_parts(
    request: DumpRequestView,
    bytes: Seq<u8>,
    after_identity: Seq<u8>,
    after_acquisition: Seq<u8>,
    after_stream: Seq<u8>,
    after_content: Seq<u8>,
    rest: Seq<u8>,
)
    requires
        next_identity(bytes) == Ok::<
            ((u64, Seq<char>, Seq<char>, Seq<char>), Seq<u8>),
            Seq<char>,
        >(
            (
                (request.collection_id, request.url, request.digest, request.database),
                after_identity,
            ),
        ),
        next_acquisition(after_identity) == Ok::<(DumpAcquisitionLimits, Seq<u8>), Seq<char>>(
            (request.acquisition, after_acquisition),
        ),
        next_stream(after_acquisition) == Ok::<((u64, u64, u64, u64), Seq<u8>), Seq<char>>(
            (
                (
                    request.parser.max_compressed_bytes,
                    request.parser.max_decompressed_bytes,
                    request.parser.max_pages,
                    request.parser.max_page_xml_bytes,
                ),
                after_stream,
            ),
        ),
        next_content(after_stream) == Ok::<((usize, usize, u64, usize), Seq<u8>), Seq<char>>(
            (
                (
                    request.parser.max_text_bytes,
                    request.parser.max_metadata_field_bytes,
                    request.parser.max_siteinfo_bytes,
                    request.parser.max_namespaces,
                ),
                after_content,
            ),
        ),
        next_dump_option(after_content, "invalid expected collection generation encoding"@)
            == Ok::<(Option<u64>, Seq<u8>), Seq<char>>((request.generation, rest)),
    ensures
        next_dump_request(bytes, accepted()) == Ok::<(DumpRequestView, Seq<u8>), Seq<char>>((request, rest)),
{
}

/// The dump requests that exist.
pub open spec fn valid_dump_request(request: DumpRequestView) -> bool {
    request.collection_id > 0 && hex_digest(request.digest) == Some(request.digest)
}

/// Decoding gives back every dump request that can be encoded and whose index the transfer
/// client accepts.
pub proof fn law_dump_request_round_trip(request: DumpRequestView)
    requires
        valid_dump_request(request),
        dump_request_encoding(request) is Ok,
    ensures
        dump_request_decoding(dump_request_encoding(request)->Ok_0, accepted()) == Ok::<
            DumpRequestView,
            Seq<char>,
        >(request),
{
    reveal(dump_request_decoding);
    let identity = identity_bytes(request);
    let acquisition = acquisition_bytes(request.acquisition);
    let stream = stream_bytes(request.parser);
    let content = content_bytes(request.parser);
    let generation = optional_field(request.generation);
    let empty = Seq::<u8>::empty();
    lemma_cat3(acquisition, stream, content, generation);
    lemma_cat_empty(generation);
    lemma_identity(request, acquisition + (stream + (content + generation)));
    lemma_acquisition(request.acquisition, stream + (content + generation));
    lemma_stream(request.parser, content + generation);
    lemma_content(request.parser, generation);
    lemma_option(
        request.generation,
        "invalid expected collection generation encoding"@,
        empty,
    );
    lemma_request_parts(
        request,
        identity + (acquisition + (stream + (content + generation))),
        acquisition + (stream + (content + generation)),
        stream + (content + generation),
        content + generation,
        generation,
        empty,
    );
}

/// An encoded dump request with anything after it is refused.
pub proof fn law_dump_request_refuses_trailing_bytes(request: DumpRequestView, extra: Seq<u8>)
    requires
        valid_dump_request(request),
        dump_request_encoding(request) is Ok,
        extra.len() > 0,
    ensures
        dump_request_decoding(dump_request_encoding(request)->Ok_0 + extra, accepted()) == Err::<
            DumpRequestView,
            Seq<char>,
        >("encoded dump value has trailing bytes"@),
{
    reveal(dump_request_decoding);
    let identity = identity_bytes(request);
    let acquisition = acquisition_bytes(request.acquisition);
    let stream = stream_bytes(request.parser);
    let content = content_bytes(request.parser);
    let generation = optional_field(request.generation);
    lemma_cat2(identity, terms_bytes(request), extra);
    lemma_cat4(acquisition, stream, content, generation, extra);
    let after_content = generation + extra;
    let after_stream = content + after_content;
    let after_acquisition = stream + after_stream;
    let after_identity = acquisition + after_acquisition;
    lemma_identity(request, after_identity);
    lemma_acquisition(request.acquisition, after_acquisition);
    lemma_stream(request.parser, after_stream);
    lemma_content(request.parser, after_content);
    lemma_option(request.generation, "invalid expected collection generation encoding"@, extra);
    lemma_request_parts(
        request,
        identity + after_identity,
        after_identity,
        after_acquisition,
        after_stream,
        after_content,
        extra,
    );
}

proof fn lemma_source_part(preview: DumpPreviewView, rest: Seq<u8>)
    requires
        preview.collection_id > 0,
        preview.wiki_id > 0,
        source_fields_fit(preview),
    ensures
        next_source_part(receipt_source(preview) + rest) == Ok::<
            ((u64, u64, u64, Seq<char>, Seq<char>), Seq<u8>),
            Seq<char>,
        >(
            (
                (
                    preview.collection_id,
                    preview.wiki_id,
                    preview.collection_generation,
                    preview.source_api_endpoint,
                    preview.source_language_code,
                ),
                rest,
            ),
        ),
{
    let a = be(preview.collection_id as nat, 8);
    let b = be(preview.wiki_id as nat, 8);
    let c = be(preview.collection_generation as nat, 8);
    let d = dump_field(preview.source_api_endpoint);
    let e = dump_field(preview.source_language_code);
    lemma_cat5(a, b, c, d, e, rest);
    lemma_id(preview.collection_id, b + (c + (d + (e + rest))));
    lemma_id(preview.wiki_id, c + (d + (e + rest)));
    lemma_word(preview.collection_generation, d + (e + rest));
    lemma_dump_text(preview.source_api_endpoint, MAX_INDEX_URL_BYTES, e + rest);
    lemma_dump_text(preview.source_language_code, MAX_SHORT_FIELD_BYTES, rest);
}

proof fn lemma_trust_part(preview: DumpPreviewView, rest: Seq<u8>)
    requires
        trust_fields_fit(preview),
    ensures
        next_trust_part(receipt_trust(preview) + rest) == Ok::<
            ((u64, Seq<char>, Seq<char>, Seq<char>), Seq<u8>),
            Seq<char>,
        >(
            (
                (
                    preview.selected_pages,
                    preview.index_url,
                    preview.index_digest,
                    preview.expected_database,
                ),
                rest,
            ),
        ),
{
    let a = be(preview.selected_pages as nat, 8);
    let b = dump_field(preview.index_url);
    let c = dump_field(preview.index_digest);
    let d = dump_field(preview.expected_database);
    lemma_cat4(a, b, c, d, rest);
    lemma_word(preview.selected_pages, b + (c + (d + rest)));
    lemma_dump_text(preview.index_url, MAX_INDEX_URL_BYTES, c + (d + rest));
    lemma_dump_text(preview.index_digest, MAX_SHORT_FIELD_BYTES, d + rest);
    lemma_dump_text(preview.expected_database, MAX_DATABASE_BYTES, rest);
}

proof fn lemma_policy_part(preview: DumpPreviewView, rest: Seq<u8>)
    requires
        dump_text_fits(preview.cache_directory, MAX_SHORT_FIELD_BYTES),
    ensures
        next_policy_part(receipt_policy(preview) + rest) == Ok::<
            ((u32, Option<u64>, bool, Option<u64>, Option<u64>, Seq<char>), Seq<u8>),
            Seq<char>,
        >(
            (
                (
                    preview.max_concurrent_requests,
                    preview.max_download_bytes_per_second,
                    preview.avoid_metered_networks,
                    preview.maximum_collection_pages,
                    preview.maximum_collection_canonical_bytes,
                    preview.cache_directory,
                ),
                rest,
            ),
        ),
{
    let a = be(preview.max_concurrent_requests as nat, 8);
    let b = optional_field(preview.max_download_bytes_per_second);
    let c = flag_bytes(preview.avoid_metered_networks);
    let d = optional_field(preview.maximum_collection_pages);
    let e = optional_field(preview.maximum_collection_canonical_bytes);
    let f = dump_field(preview.cache_directory);
    let after_e = f + rest;
    let after_d = e + after_e;
    let after_c = d + after_d;
    let after_b = c + after_c;
    lemma_cat6(a, b, c, d, e, f, rest);
    lemma_word(preview.max_concurrent_requests as u64, b + after_b);
    lemma_option(preview.max_download_bytes_per_second, option_message(), after_b);
    lemma_flag(preview.avoid_metered_networks, after_c);
    lemma_option(preview.maximum_collection_pages, option_message(), after_d);
    lemma_option(preview.maximum_collection_canonical_bytes, option_message(), after_e);
    lemma_dump_text(preview.cache_directory, MAX_SHORT_FIELD_BYTES, rest);
    lemma_policy_parts(
        preview,
        a + (b + after_b),
        b + after_b,
        after_b,
        after_c,
        after_d,
        after_e,
        rest,
    );
}

proof fn lemma_policy_parts(
    preview: DumpPreviewView,
    bytes: Seq<u8>,
    after_a: Seq<u8>,
    after_b: Seq<u8>,
    after_c: Seq<u8>,
    after_d: Seq<u8>,
    after_e: Seq<u8>,
    rest: Seq<u8>,
)
    requires
        dump_number(bytes, 8) == Ok::<(nat, Seq<u8>), Seq<char>>(
            (preview.max_concurrent_requests as nat, after_a),
        ),
        next_dump_option(after_a, option_message()) == Ok::<(Option<u64>, Seq<u8>), Seq<char>>(
            (preview.max_download_bytes_per_second, after_b),
        ),
        next_dump_flag(after_b) == Ok::<(bool, Seq<u8>), Seq<char>>(
            (preview.avoid_metered_networks, after_c),
        ),
        next_dump_option(after_c, option_message()) == Ok::<(Option<u64>, Seq<u8>), Seq<char>>(
            (preview.maximum_collection_pages, after_d),
        ),
        next_dump_option(after_d, option_message()) == Ok::<(Option<u64>, Seq<u8>), Seq<char>>(
            (preview.maximum_collection_canonical_bytes, after_e),
        ),
        next_dump_text(after_e, MAX_SHORT_FIELD_BYTES) == Ok::<(Seq<char>, Seq<u8>), Seq<char>>(
            (preview.cache_directory, rest),
        ),
    ensures
        next_policy_part(bytes) == Ok::<
            ((u32, Option<u64>, bool, Option<u64>, Option<u64>, Seq<char>), Seq<u8>),
            Seq<char>,
        >(
            (
                (
                    preview.max_concurrent_requests,
                    preview.max_download_bytes_per_second,
                    preview.avoid_metered_networks,
                    preview.maximum_collection_pages,
                    preview.maximum_collection_canonical_bytes,
                    preview.cache_directory,
                ),
                rest,
            ),
        ),
{
}

/// The previews that exist: their identifiers are positive and their digest is one.
pub open spec fn valid_dump_preview(preview: DumpPreviewView) -> bool {
    &&& preview.collection_id > 0
    &&& preview.wiki_id > 0
    &&& hex_digest(preview.index_digest) == Some(preview.index_digest)
}

/// The request that a preview repeats is short enough to be read back.
pub open spec fn repeated_request_fits(preview: DumpPreviewView) -> bool {
    repeated_request_encoding(preview) matches Ok(bytes) && bytes.len()
        <= MAX_REPEATED_REQUEST_BYTES
}

proof fn lemma_repeated_request(preview: DumpPreviewView, rest: Seq<u8>)
    requires
        valid_dump_preview(preview),
        repeated_request_fits(preview),
    ensures
        next_repeated_request(
            long_field(repeated_request_encoding(preview)->Ok_0) + rest,
            accepted(),
        ) == Ok::<(DumpRequestView, Seq<u8>), Seq<char>>((repeated_request(preview, preview.index_digest), rest)),
{
    let request = repeated_request(preview, preview.index_digest);
    law_dump_request_round_trip(request);
    let bytes = dump_request_encoding(request)->Ok_0;
    assert(bytes.len() > 0) by {
        crate::wire::lemma_be(DUMP_ENCODING_VERSION as nat, 1);
    }
    lemma_long(bytes, MAX_REPEATED_REQUEST_BYTES, rest);
}

proof fn lemma_preview_part(preview: DumpPreviewView, rest: Seq<u8>)
    requires
        valid_dump_preview(preview),
        repeated_request_fits(preview),
        preview_encoding(preview) is Ok,
    ensures
        next_preview_part(preview_encoding(preview)->Ok_0 + rest, accepted()) == Ok::<
            (DumpPreviewView, Seq<u8>),
            Seq<char>,
        >((preview, rest)),
{
    let source = receipt_source(preview);
    let trust = receipt_trust(preview);
    let request = long_field(repeated_request_encoding(preview)->Ok_0);
    let policy = receipt_policy(preview);
    let after_request = policy + rest;
    let after_trust = request + after_request;
    let after_source = trust + after_trust;
    lemma_cat4(source, trust, request, policy, rest);
    lemma_source_part(preview, after_source);
    lemma_trust_part(preview, after_trust);
    lemma_repeated_request(preview, after_request);
    lemma_policy_part(preview, rest);
    lemma_preview_parts(
        preview,
        source + after_source,
        after_source,
        after_trust,
        after_request,
        rest,
    );
}

proof fn lemma_preview_parts(
    preview: DumpPreviewView,
    bytes: Seq<u8>,
    after_source: Seq<u8>,
    after_trust: Seq<u8>,
    after_request: Seq<u8>,
    rest: Seq<u8>,
)
    requires
        next_source_part(bytes) == Ok::<
            ((u64, u64, u64, Seq<char>, Seq<char>), Seq<u8>),
            Seq<char>,
        >(
            (
                (
                    preview.collection_id,
                    preview.wiki_id,
                    preview.collection_generation,
                    preview.source_api_endpoint,
                    preview.source_language_code,
                ),
                after_source,
            ),
        ),
        next_trust_part(after_source) == Ok::<
            ((u64, Seq<char>, Seq<char>, Seq<char>), Seq<u8>),
            Seq<char>,
        >(
            (
                (
                    preview.selected_pages,
                    preview.index_url,
                    preview.index_digest,
                    preview.expected_database,
                ),
                after_trust,
            ),
        ),
        next_repeated_request(after_trust, accepted()) == Ok::<(DumpRequestView, Seq<u8>), Seq<char>>(
            (repeated_request(preview, preview.index_digest), after_request),
        ),
        next_policy_part(after_request) == Ok::<
            ((u32, Option<u64>, bool, Option<u64>, Option<u64>, Seq<char>), Seq<u8>),
            Seq<char>,
        >(
            (
                (
                    preview.max_concurrent_requests,
                    preview.max_download_bytes_per_second,
                    preview.avoid_metered_networks,
                    preview.maximum_collection_pages,
                    preview.maximum_collection_canonical_bytes,
                    preview.cache_directory,
                ),
                rest,
            ),
        ),
    ensures
        next_preview_part(bytes, accepted()) == Ok::<(DumpPreviewView, Seq<u8>), Seq<char>>((preview, rest)),
{
}

proof fn lemma_report_head(report: DumpBootstrapReport, rest: Seq<u8>)
    ensures
        next_report_head(report_head(report) + rest) == Ok::<
            ((u64, u64, DumpImportState, bool, u64), Seq<u8>),
            Seq<char>,
        >(
            (
                (
                    report.run_id,
                    report.import_id,
                    report.import_state,
                    report.resumed,
                    report.pages_scanned,
                ),
                rest,
            ),
        ),
{
    let a = be(report.run_id as nat, 8);
    let b = be(report.import_id as nat, 8);
    let c = be(import_tag(report.import_state) as nat, 1);
    let d = flag_bytes(report.resumed);
    let e = be(report.pages_scanned as nat, 8);
    lemma_pow256();
    lemma_cat5(a, b, c, d, e, rest);
    lemma_word(report.run_id, b + (c + (d + (e + rest))));
    lemma_word(report.import_id, c + (d + (e + rest)));
    lemma_number(import_tag(report.import_state) as nat, 1, d + (e + rest));
    lemma_flag(report.resumed, e + rest);
    lemma_word(report.pages_scanned, rest);
}

proof fn lemma_count(count: usize, rest: Seq<u8>)
    ensures
        next_receipt_count(be(count as nat, 8) + rest) == Ok::<(usize, Seq<u8>), Seq<char>>(
            (count, rest),
        ),
{
    lemma_pow256();
    lemma_number(count as nat, 8, rest);
}

proof fn lemma_counts(report: DumpBootstrapReport, rest: Seq<u8>)
    ensures
        next_counts(report_counts(report) + rest) == Ok::<
            ((usize, usize, usize, usize, usize, usize, usize), Seq<u8>),
            Seq<char>,
        >(
            (
                (
                    report.pages_imported,
                    report.pages_reused,
                    report.pages_absent_from_dump,
                    report.closure_pages_checked,
                    report.closure_differing_heads,
                    report.closure_missing_pages,
                    report.closure_pages_captured_from_api,
                ),
                rest,
            ),
        ),
{
    let a = be(report.pages_imported as nat, 8);
    let b = be(report.pages_reused as nat, 8);
    let c = be(report.pages_absent_from_dump as nat, 8);
    let d = be(report.closure_pages_checked as nat, 8);
    let e = be(report.closure_differing_heads as nat, 8);
    let f = be(report.closure_missing_pages as nat, 8);
    let g = be(report.closure_pages_captured_from_api as nat, 8);
    let r6 = g + rest;
    let r5 = f + r6;
    let r4 = e + r5;
    let r3 = d + r4;
    let r2 = c + r3;
    let r1 = b + r2;
    lemma_cat7(a, b, c, d, e, f, g, rest);
    lemma_count(report.pages_imported, r1);
    lemma_count(report.pages_reused, r2);
    lemma_count(report.pages_absent_from_dump, r3);
    lemma_count(report.closure_pages_checked, r4);
    lemma_count(report.closure_differing_heads, r5);
    lemma_count(report.closure_missing_pages, r6);
    lemma_count(report.closure_pages_captured_from_api, rest);
}

/// Decoding gives back every receipt that can be encoded, as long as the request it repeats
/// is short enough to be read back.
pub proof fn law_dump_receipt_round_trip(outcome: DumpOutcomeView)
    requires
        valid_dump_preview(outcome.preview),
        repeated_request_fits(outcome.preview),
        dump_outcome_encoding(outcome) is Ok,
    ensures
        dump_outcome_decoding(dump_outcome_encoding(outcome)->Ok_0, accepted()) == Ok::<
            DumpOutcomeView,
            Seq<char>,
        >(outcome),
{
    let version = be(DUMP_ENCODING_VERSION as nat, 1);
    let preview = preview_encoding(outcome.preview)->Ok_0;
    let head = report_head(outcome.report);
    let counts = report_counts(outcome.report);
    let checkpoint = be(outcome.report.checkpoint_candidate as nat, 8);
    let empty = Seq::<u8>::empty();
    let after_head = counts + checkpoint;
    let after_preview = head + after_head;
    let after_version = preview + after_preview;
    lemma_cat4(version, preview, head, counts, checkpoint);
    lemma_cat_empty(checkpoint);
    lemma_version("unsupported current-dump receipt encoding"@, after_version);
    lemma_preview_part(outcome.preview, after_preview);
    lemma_report_head(outcome.report, after_head);
    lemma_counts(outcome.report, checkpoint);
    lemma_word(outcome.report.checkpoint_candidate, empty);
    lemma_outcome_parts(
        outcome,
        version + after_version,
        after_version,
        after_preview,
        after_head,
        checkpoint,
    );
}

proof fn lemma_outcome_parts(
    outcome: DumpOutcomeView,
    bytes: Seq<u8>,
    after_version: Seq<u8>,
    after_preview: Seq<u8>,
    after_head: Seq<u8>,
    after_counts: Seq<u8>,
)
    requires
        next_dump_version(bytes, "unsupported current-dump receipt encoding"@) == Ok::<
            ((), Seq<u8>),
            Seq<char>,
        >(((), after_version)),
        next_preview_part(after_version, accepted()) == Ok::<(DumpPreviewView, Seq<u8>), Seq<char>>(
            (outcome.preview, after_preview),
        ),
        next_report_head(after_preview) == Ok::<
            ((u64, u64, DumpImportState, bool, u64), Seq<u8>),
            Seq<char>,
        >(
            (
                (
                    outcome.report.run_id,
                    outcome.report.import_id,
                    outcome.report.import_state,
                    outcome.report.resumed,
                    outcome.report.pages_scanned,
                ),
                after_head,
            ),
        ),
        next_counts(after_head) == Ok::<
            ((usize, usize, usize, usize, usize, usize, usize), Seq<u8>),
            Seq<char>,
        >(
            (
                (
                    outcome.report.pages_imported,
                    outcome.report.pages_reused,
                    outcome.report.pages_absent_from_dump,
                    outcome.report.closure_pages_checked,
                    outcome.report.closure_differing_heads,
                    outcome.report.closure_missing_pages,
                    outcome.report.closure_pages_captured_from_api,
                ),
                after_counts,
            ),
        ),
        dump_number(after_counts, 8) == Ok::<(nat, Seq<u8>), Seq<char>>(
            (outcome.report.checkpoint_candidate as nat, Seq::empty()),
        ),
    ensures
        dump_outcome_decoding(bytes, accepted()) == Ok::<DumpOutcomeView, Seq<char>>(outcome),
{
    reveal(next_dump_outcome);
}

/// The receipt of a forwarded bootstrap comes back from the mutation result that carries it.
pub proof fn law_dump_result_round_trip(outcome: DumpOutcomeView)
    requires
        valid_dump_preview(outcome.preview),
        repeated_request_fits(outcome.preview),
        dump_outcome_encoding(outcome) is Ok,
    ensures
        dump_result_decoding(
            MutationOutcomeView {
                result: CURRENT_DUMP_BOOTSTRAP_RESULT@,
                payload: dump_outcome_encoding(outcome)->Ok_0,
            },
            accepted(),
        ) == Ok::<DumpOutcomeView, DaemonErrorView>(outcome),
{
    law_dump_receipt_round_trip(outcome);
}

/// Bytes whose index the transfer client refuses are no request: the refusal is the error
/// unless the bytes do not reach as far as the index.
pub proof fn law_refused_index_is_no_request(bytes: Seq<u8>, refusal: Seq<char>)
    ensures
        dump_request_decoding(bytes, Err(refusal)) == match dump_index(bytes) {
            Err(message) => Err::<DumpRequestView, Seq<char>>(message),
            Ok(_) => Err::<DumpRequestView, Seq<char>>(refusal),
        },
        dump_outcome_decoding(bytes, Err(refusal)) is Err,
{
    reveal(dump_request_decoding);
    reveal(next_dump_outcome);
}

/// The index that is judged is the one of the request that comes out.
pub proof fn law_judged_index_is_the_one_decoded(bytes: Seq<u8>, policy: IndexPolicy)
    ensures
        dump_request_decoding(bytes, policy) matches Ok(request) ==> policy is Ok && dump_index(
            bytes,
        ) == Ok::<(Seq<char>, Seq<char>, Seq<char>), Seq<char>>(
            (request.url, request.digest, request.database),
        ),
        dump_outcome_decoding(bytes, policy) matches Ok(outcome) ==> policy is Ok
            && receipt_index(bytes) == Some(
            (
                outcome.preview.index_url,
                outcome.preview.index_digest,
                outcome.preview.expected_database,
            ),
        ),
{
    reveal(dump_request_decoding);
    reveal(next_dump_outcome);
    reveal(receipt_index);
}

} // verus!
