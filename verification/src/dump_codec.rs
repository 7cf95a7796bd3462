//! Byte contract of current-dump requests and receipts.
//!
//! Text fields carry an eight-byte length and are never empty. A receipt repeats the
//! request that it answers, and decoding holds the two against each other.

use vstd::prelude::*;
use vstd::string::*;
use vstd::utf8::*;

use crate::codec::Parsed;
use crate::collection::text_bytes;
use crate::draft_codec::optional_field;
use crate::dump_bootstrap::{
    digest_message, dump_request_error, hex_digest, CurrentDumpBootstrapRequest,
    DumpAcquisitionLimits, DumpDigest, DumpLimits, DumpRequestView, TrustedDumpIndex,
    MAX_DATABASE_BYTES, MAX_INDEX_URL_BYTES,
};
use crate::error::{failure, DaemonError, DaemonErrorView, OperationError};
use crate::model::{CollectionId, ModelError, WikiId};
use crate::protocol::{Mutation, MutationView};
use crate::wire::{
    be, byte_len, lemma_cat2, lemma_cat3, lemma_cat4, lemma_empty_cat, put_slice, put_u64, put_u8,
    split, split_number, to_vec, utf8_refusal, utf8_text, Reader,
};

verus! {

/// Versioned extension used to execute one authenticated current-dump bootstrap.
pub const SET_CURRENT_DUMP_BOOTSTRAP_EXTENSION: &'static str = "current-dump-bootstrap-v1";

/// Stable successful result name returned by the dump extension.
pub const CURRENT_DUMP_BOOTSTRAP_RESULT: &'static str = "current-dump-bootstrap-complete";

pub const DUMP_ENCODING_VERSION: u8 = 1;

/// Largest short text field of a receipt in bytes.
pub const MAX_SHORT_FIELD_BYTES: usize = 64;

/// Largest request repeated in a receipt, in bytes.
pub const MAX_REPEATED_REQUEST_BYTES: usize = 512;

/// Bytes after their eight-byte length.
pub open spec fn long_field(bytes: Seq<u8>) -> Seq<u8> {
    be(bytes.len(), 8) + bytes
}

/// A text after its eight-byte length.
pub open spec fn dump_field(text: Seq<char>) -> Seq<u8> {
    long_field(encode_utf8(text))
}

/// A field holds between one and `limit` bytes.
pub open spec fn dump_text_fits(text: Seq<char>, limit: usize) -> bool {
    0 < text_bytes(text) <= limit
}

pub open spec fn acquisition_bytes(limits: DumpAcquisitionLimits) -> Seq<u8> {
    be(limits.max_index_bytes as nat, 8) + be(limits.max_artifact_bytes as nat, 8) + be(
        limits.max_total_artifact_bytes as nat,
        8,
    ) + be(limits.max_artifacts as nat, 8) + be(limits.max_elapsed_seconds as nat, 8)
}

pub open spec fn stream_bytes(limits: DumpLimits) -> Seq<u8> {
    be(limits.max_compressed_bytes as nat, 8) + be(limits.max_decompressed_bytes as nat, 8) + be(
        limits.max_pages as nat,
        8,
    ) + be(limits.max_page_xml_bytes as nat, 8)
}

pub open spec fn content_bytes(limits: DumpLimits) -> Seq<u8> {
    be(limits.max_text_bytes as nat, 8) + be(limits.max_metadata_field_bytes as nat, 8) + be(
        limits.max_siteinfo_bytes as nat,
        8,
    ) + be(limits.max_namespaces as nat, 8)
}

/// Collection and trust identity of a request.
pub open spec fn identity_bytes(request: DumpRequestView) -> Seq<u8> {
    be(DUMP_ENCODING_VERSION as nat, 1) + be(request.collection_id as nat, 8) + dump_field(
        request.url,
    ) + dump_field(request.digest) + dump_field(request.database)
}

/// Limits and generation of a request.
pub open spec fn terms_bytes(request: DumpRequestView) -> Seq<u8> {
    acquisition_bytes(request.acquisition) + stream_bytes(request.parser) + content_bytes(
        request.parser,
    ) + optional_field(request.generation)
}

/// The bytes of a dump request.
pub open spec fn dump_request_bytes(request: DumpRequestView) -> Seq<u8> {
    identity_bytes(request) + terms_bytes(request)
}

/// The encoding of a dump request, or the first reason that there is none.
pub open spec fn dump_request_encoding(request: DumpRequestView) -> Result<
    Seq<u8>,
    DaemonErrorView,
> {
    if dump_request_error(request) is Some {
        Err(DaemonErrorView::Protocol("invalid current-dump bootstrap request"@))
    } else if !dump_text_fits(request.url, MAX_INDEX_URL_BYTES) {
        Err(DaemonErrorView::Protocol("invalid current-dump index URL"@))
    } else if !dump_text_fits(request.database, MAX_DATABASE_BYTES) {
        Err(DaemonErrorView::Protocol("invalid current-dump database"@))
    } else {
        Ok(dump_request_bytes(request))
    }
}

pub(crate) fn put_long(bytes: &mut Vec<u8>, value: &[u8])
    ensures
        final(bytes)@ == old(bytes)@ + long_field(value@),
{
    put_u64(bytes, value.len() as u64);
    put_slice(bytes, value);
    proof {
        assert(bytes@ =~= old(bytes)@ + long_field(value@));
    }
}

pub(crate) fn put_dump_field(bytes: &mut Vec<u8>, value: &str, limit: usize) -> (accepted: bool)
    ensures
        accepted == dump_text_fits(value@, limit),
        accepted ==> final(bytes)@ == old(bytes)@ + dump_field(value@),
{
    let size: usize = byte_len(value);
    if size == 0 || size > limit {
        return false;
    }
    put_long(bytes, value.as_bytes());
    true
}

pub(crate) fn put_optional(bytes: &mut Vec<u8>, value: Option<u64>)
    ensures
        final(bytes)@ == old(bytes)@ + optional_field(value),
{
    match value {
        Some(value) => {
            put_u8(bytes, 1);
            put_u64(bytes, value);
        },
        None => put_u8(bytes, 0),
    }
    proof {
        assert(bytes@ =~= old(bytes)@ + optional_field(value));
    }
}

fn put_four(bytes: &mut Vec<u8>, a: u64, b: u64, c: u64, d: u64)
    ensures
        final(bytes)@ == old(bytes)@ + (be(a as nat, 8) + be(b as nat, 8) + be(c as nat, 8) + be(
            d as nat,
            8,
        )),
{
    put_u64(bytes, a);
    put_u64(bytes, b);
    put_u64(bytes, c);
    put_u64(bytes, d);
    proof {
        lemma_cat4(
            old(bytes)@,
            be(a as nat, 8),
            be(b as nat, 8),
            be(c as nat, 8),
            be(d as nat, 8),
        );
        lemma_cat3(be(a as nat, 8), be(b as nat, 8), be(c as nat, 8), be(d as nat, 8));
    }
}

fn put_terms(
    bytes: &mut Vec<u8>,
    acquisition: DumpAcquisitionLimits,
    parser: DumpLimits,
    generation: Option<u64>,
)
    ensures
        final(bytes)@ == old(bytes)@ + (acquisition_bytes(acquisition) + stream_bytes(parser)
            + content_bytes(parser) + optional_field(generation)),
{
    put_four(
        bytes,
        acquisition.max_index_bytes as u64,
        acquisition.max_artifact_bytes,
        acquisition.max_total_artifact_bytes,
        acquisition.max_artifacts as u64,
    );
    let ghost four = be(acquisition.max_index_bytes as nat, 8) + be(
        acquisition.max_artifact_bytes as nat,
        8,
    ) + be(acquisition.max_total_artifact_bytes as nat, 8) + be(
        acquisition.max_artifacts as nat,
        8,
    );
    put_u64(bytes, acquisition.max_elapsed_seconds);
    proof {
        lemma_cat2(old(bytes)@, four, be(acquisition.max_elapsed_seconds as nat, 8));
    }
    put_four(
        bytes,
        parser.max_compressed_bytes,
        parser.max_decompressed_bytes,
        parser.max_pages,
        parser.max_page_xml_bytes,
    );
    put_four(
        bytes,
        parser.max_text_bytes as u64,
        parser.max_metadata_field_bytes as u64,
        parser.max_siteinfo_bytes,
        parser.max_namespaces as u64,
    );
    put_optional(bytes, generation);
    proof {
        lemma_cat4(
            old(bytes)@,
            acquisition_bytes(acquisition),
            stream_bytes(parser),
            content_bytes(parser),
            optional_field(generation),
        );
        lemma_cat3(
            acquisition_bytes(acquisition),
            stream_bytes(parser),
            content_bytes(parser),
            optional_field(generation),
        );
    }
}

/// Encodes a dump request.
pub fn encode_dump_request(request: &CurrentDumpBootstrapRequest) -> (r: Result<
    Vec<u8>,
    DaemonError,
>)
    ensures
        match r {
            Ok(bytes) => dump_request_encoding(request@) == Ok::<Seq<u8>, DaemonErrorView>(bytes@),
            Err(error) => dump_request_encoding(request@) == Err::<Seq<u8>, DaemonErrorView>(
                error@,
            ),
        },
{
    request.bounded();
    let index = request.trusted_index();
    let digest = index.digest.to_hex();
    proof {
        lemma_digest_fits(request@.digest);
    }
    let mut bytes: Vec<u8> = Vec::new();
    put_u8(&mut bytes, DUMP_ENCODING_VERSION);
    proof {
        lemma_empty_cat(be(DUMP_ENCODING_VERSION as nat, 1));
    }
    put_u64(&mut bytes, request.collection_id().get());
    if !put_dump_field(&mut bytes, index.url.as_str(), MAX_INDEX_URL_BYTES) {
        return Err(DaemonError::Protocol("invalid current-dump index URL"));
    }
    if !put_dump_field(&mut bytes, digest.as_str(), MAX_SHORT_FIELD_BYTES) {
        return Err(DaemonError::Protocol("invalid current-dump index digest"));
    }
    if !put_dump_field(&mut bytes, index.expected_database.as_str(), MAX_DATABASE_BYTES) {
        return Err(DaemonError::Protocol("invalid current-dump database"));
    }
    put_terms(
        &mut bytes,
        request.acquisition_limits(),
        request.parser_limits(),
        request.expected_collection_generation(),
    );
    Ok(bytes)
}

/// A digest always fits its field.
pub proof fn lemma_digest_fits(digest: Seq<char>)
    requires
        hex_digest(digest) is Some,
    ensures
        dump_text_fits(digest, MAX_SHORT_FIELD_BYTES),
{
    assert(is_ascii_chars(digest)) by {
        assert forall|i: int| 0 <= i < digest.len() implies '\0' <= #[trigger] digest[i]
            <= '\u{7f}' by {
            assert(crate::dump_bootstrap::is_hex_digit(digest[i]));
        }
    }
    is_ascii_chars_encode_utf8(digest);
}

/// Builds the daemon mutation that executes a dump bootstrap.
pub fn current_dump_bootstrap_mutation(request: &CurrentDumpBootstrapRequest) -> (r: Result<
    Mutation,
    DaemonError,
>)
    ensures
        match r {
            Ok(mutation) => dump_request_encoding(request@) is Ok && mutation@ == (
            MutationView::Extension {
                name: SET_CURRENT_DUMP_BOOTSTRAP_EXTENSION@,
                payload: dump_request_encoding(request@)->Ok_0,
            }),
            Err(error) => dump_request_encoding(request@) == Err::<Seq<u8>, DaemonErrorView>(
                error@,
            ),
        },
{
    let payload = encode_dump_request(request)?;
    Ok(Mutation::Extension { name: SET_CURRENT_DUMP_BOOTSTRAP_EXTENSION.to_owned(), payload })
}

/// The next number of `width` bytes.
pub open spec fn dump_number(bytes: Seq<u8>, width: nat) -> Parsed<nat> {
    match split_number(bytes, width) {
        Some((value, rest)) => Ok((value, rest)),
        None => Err("failed to fill whole buffer"@),
    }
}

/// The next number that must fit the platform's sizes.
pub open spec fn dump_size(bytes: Seq<u8>) -> Parsed<nat> {
    match dump_number(bytes, 8) {
        Err(message) => Err(message),
        Ok((value, rest)) => if value > usize::MAX {
            Err("encoded dump limit exceeds platform bounds"@)
        } else {
            Ok((value, rest))
        },
    }
}

/// The next byte field.
pub open spec fn next_long(bytes: Seq<u8>, limit: usize) -> Parsed<Seq<u8>> {
    match dump_size(bytes) {
        Err(message) => Err(message),
        Ok((length, rest)) => if length == 0 || length > limit {
            Err("encoded dump field exceeds its bound"@)
        } else {
            match split(rest, length) {
                None => Err("failed to fill whole buffer"@),
                Some((field, rest)) => Ok((field, rest)),
            }
        },
    }
}

/// The next text field.
pub open spec fn next_dump_text(bytes: Seq<u8>, limit: usize) -> Parsed<Seq<char>> {
    match next_long(bytes, limit) {
        Err(message) => Err(message),
        Ok((field, rest)) => if valid_utf8(field) {
            Ok((decode_utf8(field), rest))
        } else {
            Err(utf8_refusal(field))
        },
    }
}

/// The next optional number, with the message for any other tag.
pub open spec fn next_dump_option(bytes: Seq<u8>, message: Seq<char>) -> Parsed<Option<u64>> {
    match dump_number(bytes, 1) {
        Err(message) => Err(message),
        Ok((tag, rest)) => if tag == 0 {
            Ok((None, rest))
        } else if tag == 1 {
            match dump_number(rest, 8) {
                Err(message) => Err(message),
                Ok((value, rest)) => Ok((Some(value as u64), rest)),
            }
        } else {
            Err(message)
        },
    }
}

/// The next flag.
pub open spec fn next_dump_flag(bytes: Seq<u8>) -> Parsed<bool> {
    match dump_number(bytes, 1) {
        Err(message) => Err(message),
        Ok((flag, rest)) => if flag <= 1 {
            Ok((flag == 1, rest))
        } else {
            Err("invalid encoded dump boolean"@)
        },
    }
}

/// The encoding version at the front.
pub open spec fn next_dump_version(bytes: Seq<u8>, message: Seq<char>) -> Parsed<()> {
    match dump_number(bytes, 1) {
        Err(message) => Err(message),
        Ok((version, rest)) => if version == DUMP_ENCODING_VERSION {
            Ok(((), rest))
        } else {
            Err(message)
        },
    }
}

/// The next positive identifier.
pub open spec fn next_dump_id(bytes: Seq<u8>) -> Parsed<u64> {
    match dump_number(bytes, 8) {
        Err(message) => Err(message),
        Ok((id, rest)) => if id == 0 {
            Err(ModelError::ZeroIdentifier.text())
        } else {
            Ok((id as u64, rest))
        },
    }
}

/// Collection, index URL, digest and database of a request.
pub open spec fn next_identity(bytes: Seq<u8>) -> Parsed<(u64, Seq<char>, Seq<char>, Seq<char>)> {
    match next_dump_version(bytes, "unsupported current-dump request encoding"@) {
        Err(message) => Err(message),
        Ok((version, rest)) => match next_dump_id(rest) {
            Err(message) => Err(message),
            Ok((collection_id, rest)) => match next_dump_text(rest, MAX_INDEX_URL_BYTES) {
                Err(message) => Err(message),
                Ok((url, rest)) => match next_dump_text(rest, MAX_SHORT_FIELD_BYTES) {
                    Err(message) => Err(message),
                    Ok((digest, rest)) => match hex_digest(digest) {
                        None => Err(digest_message()),
                        Some(digest) => match next_dump_text(rest, MAX_DATABASE_BYTES) {
                            Err(message) => Err(message),
                            Ok((database, rest)) => Ok(
                                ((collection_id, url, digest, database), rest),
                            ),
                        },
                    },
                },
            },
        },
    }
}

/// The transfer ceilings of a request.
pub open spec fn next_acquisition(bytes: Seq<u8>) -> Parsed<DumpAcquisitionLimits> {
    match dump_size(bytes) {
        Err(message) => Err(message),
        Ok((index, rest)) => match dump_number(rest, 8) {
            Err(message) => Err(message),
            Ok((artifact, rest)) => match dump_number(rest, 8) {
                Err(message) => Err(message),
                Ok((total, rest)) => match dump_size(rest) {
                    Err(message) => Err(message),
                    Ok((artifacts, rest)) => match dump_number(rest, 8) {
                        Err(message) => Err(message),
                        Ok((elapsed, rest)) => Ok(
                            (
                                DumpAcquisitionLimits {
                                    max_index_bytes: index as usize,
                                    max_artifact_bytes: artifact as u64,
                                    max_total_artifact_bytes: total as u64,
                                    max_artifacts: artifacts as usize,
                                    max_elapsed_seconds: elapsed as u64,
                                },
                                rest,
                            ),
                        ),
                    },
                },
            },
        },
    }
}

/// Four numbers one after the other.
pub open spec fn next_stream(bytes: Seq<u8>) -> Parsed<(u64, u64, u64, u64)> {
    match dump_number(bytes, 8) {
        Err(message) => Err(message),
        Ok((a, rest)) => match dump_number(rest, 8) {
            Err(message) => Err(message),
            Ok((b, rest)) => match dump_number(rest, 8) {
                Err(message) => Err(message),
                Ok((c, rest)) => match dump_number(rest, 8) {
                    Err(message) => Err(message),
                    Ok((d, rest)) => Ok(((a as u64, b as u64, c as u64, d as u64), rest)),
                },
            },
        },
    }
}

/// Text, metadata, site information and namespace ceilings.
pub open spec fn next_content(bytes: Seq<u8>) -> Parsed<(usize, usize, u64, usize)> {
    match dump_size(bytes) {
        Err(message) => Err(message),
        Ok((a, rest)) => match dump_size(rest) {
            Err(message) => Err(message),
            Ok((b, rest)) => match dump_number(rest, 8) {
                Err(message) => Err(message),
                Ok((c, rest)) => match dump_size(rest) {
                    Err(message) => Err(message),
                    Ok((d, rest)) => Ok(
                        ((a as usize, b as usize, c as u64, d as usize), rest),
                    ),
                },
            },
        },
    }
}

/// The parser ceilings of a request.
pub open spec fn next_parser(bytes: Seq<u8>) -> Parsed<DumpLimits> {
    match next_stream(bytes) {
        Err(message) => Err(message),
        Ok((stream, rest)) => match next_content(rest) {
            Err(message) => Err(message),
            Ok((content, rest)) => Ok(
                (
                    DumpLimits {
                        max_compressed_bytes: stream.0,
                        max_decompressed_bytes: stream.1,
                        max_pages: stream.2,
                        max_page_xml_bytes: stream.3,
                        max_text_bytes: content.0,
                        max_metadata_field_bytes: content.1,
                        max_siteinfo_bytes: content.2,
                        max_namespaces: content.3,
                    },
                    rest,
                ),
            ),
        },
    }
}

/// What the transfer client says of the index of a request.
pub type IndexPolicy = Result<(), Seq<char>>;

/// The transfer client accepts the index.
pub open spec fn accepted() -> IndexPolicy {
    Ok(())
}

/// A verdict of the transfer client as plain data.
pub open spec fn policy_view(policy: Result<(), String>) -> IndexPolicy {
    match policy {
        Ok(_) => Ok(()),
        Err(message) => Err(message@),
    }
}

/// The ceilings and the generation of a request, behind its index.
pub open spec fn next_terms(
    identity: (u64, Seq<char>, Seq<char>, Seq<char>),
    bytes: Seq<u8>,
) -> Parsed<DumpRequestView> {
    match next_acquisition(bytes) {
        Err(message) => Err(message),
        Ok((acquisition, rest)) => match next_parser(rest) {
            Err(message) => Err(message),
            Ok((parser, rest)) => match next_dump_option(
                rest,
                "invalid expected collection generation encoding"@,
            ) {
                Err(message) => Err(message),
                Ok((generation, rest)) => Ok(
                    (
                        DumpRequestView {
                            collection_id: identity.0,
                            url: identity.1,
                            digest: identity.2,
                            database: identity.3,
                            acquisition,
                            parser,
                            generation,
                        },
                        rest,
                    ),
                ),
            },
        },
    }
}

/// The request in a byte sequence, before its limits are judged. The index is judged as soon
/// as it was read.
pub open spec fn next_dump_request(bytes: Seq<u8>, policy: IndexPolicy) -> Parsed<DumpRequestView> {
    match next_identity(bytes) {
        Err(message) => Err(message),
        Ok((identity, rest)) => match policy {
            Err(message) => Err(message),
            Ok(_) => next_terms(identity, rest),
        },
    }
}

/// The index that a request names: URL, digest and database.
pub open spec fn dump_index(bytes: Seq<u8>) -> Result<(Seq<char>, Seq<char>, Seq<char>), Seq<char>> {
    match next_identity(bytes) {
        Err(message) => Err(message),
        Ok((identity, rest)) => Ok((identity.1, identity.2, identity.3)),
    }
}

/// What is left when a value was read to its end.
pub open spec fn whole_value<V>(parsed: Parsed<V>) -> Result<V, Seq<char>> {
    match parsed {
        Err(message) => Err(message),
        Ok((value, rest)) => if rest.len() == 0 {
            Ok(value)
        } else {
            Err("encoded dump value has trailing bytes"@)
        },
    }
}

/// The dump request that a byte sequence holds, or the first reason that it holds none.
#[verifier::opaque]
pub open spec fn dump_request_decoding(bytes: Seq<u8>, policy: IndexPolicy) -> Result<
    DumpRequestView,
    Seq<char>,
> {
    match whole_value(next_dump_request(bytes, policy)) {
        Err(message) => Err(message),
        Ok(request) => match dump_request_error(request) {
            Some(message) => Err(message),
            None => Ok(request),
        },
    }
}

/// A read returned what was expected of it and left the bytes after it.
pub open spec fn reads_dump<T: View>(
    result: Result<T, OperationError>,
    rest: Seq<u8>,
    expected: Parsed<T::V>,
) -> bool {
    match result {
        Ok(value) => expected == Ok::<(T::V, Seq<u8>), Seq<char>>((value@, rest)),
        Err(error) => expected is Err && error@ == failure(expected->Err_0),
    }
}

/// A read of plain values returned what was expected of it.
pub open spec fn reads_plain<T>(
    result: Result<T, OperationError>,
    rest: Seq<u8>,
    expected: Parsed<T>,
) -> bool {
    match result {
        Ok(value) => expected == Ok::<(T, Seq<u8>), Seq<char>>((value, rest)),
        Err(error) => expected is Err && error@ == failure(expected->Err_0),
    }
}

/// A read of a number returned what was expected of it.
pub open spec fn reads_number(
    value: int,
    error: Option<OperationError>,
    rest: Seq<u8>,
    expected: Parsed<nat>,
) -> bool {
    match error {
        None => expected == Ok::<(nat, Seq<u8>), Seq<char>>((value as nat, rest)),
        Some(error) => expected is Err && error@ == failure(expected->Err_0),
    }
}

/// Reads the fields of dump values.
pub struct DumpDecoder<'a> {
    reader: Reader<'a>,
}

impl<'a> View for DumpDecoder<'a> {
    type V = Seq<u8>;

    closed spec fn view(&self) -> Seq<u8> {
        self.reader@
    }
}

impl<'a> DumpDecoder<'a> {
    pub fn new(bytes: &'a [u8]) -> (decoder: Self)
        ensures
            decoder@ == bytes@,
    {
        DumpDecoder { reader: Reader::new(bytes) }
    }

    pub fn u8(&mut self) -> (r: Result<u8, OperationError>)
        ensures
            match r {
                Ok(value) => reads_number(
                    value as int,
                    None,
                    final(self)@,
                    dump_number(old(self)@, 1),
                ),
                Err(error) => reads_number(
                    0,
                    Some(error),
                    final(self)@,
                    dump_number(old(self)@, 1),
                ),
            },
    {
        match self.reader.u8() {
            Some(value) => Ok(value),
            None => Err(OperationError::failed("failed to fill whole buffer")),
        }
    }

    pub fn u64(&mut self) -> (r: Result<u64, OperationError>)
        ensures
            match r {
                Ok(value) => reads_number(
                    value as int,
                    None,
                    final(self)@,
                    dump_number(old(self)@, 8),
                ),
                Err(error) => reads_number(
                    0,
                    Some(error),
                    final(self)@,
                    dump_number(old(self)@, 8),
                ),
            },
    {
        match self.reader.u64() {
            Some(value) => Ok(value),
            None => Err(OperationError::failed("failed to fill whole buffer")),
        }
    }

    pub fn usize(&mut self) -> (r: Result<usize, OperationError>)
        ensures
            match r {
                Ok(value) => reads_number(value as int, None, final(self)@, dump_size(old(self)@)),
                Err(error) => reads_number(0, Some(error), final(self)@, dump_size(old(self)@)),
            },
    {
        let value: u64 = self.u64()?;
        if value > usize::MAX as u64 {
            Err(OperationError::failed("encoded dump limit exceeds platform bounds"))
        } else {
            Ok(value as usize)
        }
    }

    pub fn bytes_with_limit(&mut self, limit: usize) -> (r: Result<Vec<u8>, OperationError>)
        ensures
            reads_dump(r, final(self)@, next_long(old(self)@, limit)),
    {
        let length: usize = self.usize()?;
        if length == 0 || length > limit {
            return Err(OperationError::failed("encoded dump field exceeds its bound"));
        }
        match self.reader.take(length) {
            None => Err(OperationError::failed("failed to fill whole buffer")),
            Some(field) => Ok(to_vec(field)),
        }
    }

    pub fn string(&mut self, limit: usize) -> (r: Result<String, OperationError>)
        ensures
            reads_dump(r, final(self)@, next_dump_text(old(self)@, limit)),
    {
        let bytes = self.bytes_with_limit(limit)?;
        match utf8_text(bytes) {
            Ok(text) => Ok(text),
            Err(message) => Err(OperationError::failed(message.as_str())),
        }
    }

    pub fn option_u64(&mut self, message: &str) -> (r: Result<Option<u64>, OperationError>)
        ensures
            reads_plain(r, final(self)@, next_dump_option(old(self)@, message@)),
    {
        let tag: u8 = self.u8()?;
        if tag == 0 {
            Ok(None)
        } else if tag == 1 {
            let value: u64 = self.u64()?;
            Ok(Some(value))
        } else {
            Err(OperationError::failed(message))
        }
    }

    pub fn bool(&mut self) -> (r: Result<bool, OperationError>)
        ensures
            reads_plain(r, final(self)@, next_dump_flag(old(self)@)),
    {
        let flag: u8 = self.u8()?;
        if flag <= 1 {
            Ok(flag == 1)
        } else {
            Err(OperationError::failed("invalid encoded dump boolean"))
        }
    }

    pub fn version(&mut self, message: &str) -> (r: Result<(), OperationError>)
        ensures
            reads_plain(r, final(self)@, next_dump_version(old(self)@, message@)),
    {
        let version: u8 = self.u8()?;
        if version == DUMP_ENCODING_VERSION {
            Ok(())
        } else {
            Err(OperationError::failed(message))
        }
    }

    pub fn finish(&self) -> (r: Result<(), OperationError>)
        ensures
            match r {
                Ok(()) => self@.len() == 0,
                Err(error) => self@.len() != 0 && error@ == failure(
                    "encoded dump value has trailing bytes"@,
                ),
            },
    {
        if self.reader.is_empty() {
            Ok(())
        } else {
            Err(OperationError::failed("encoded dump value has trailing bytes"))
        }
    }
}

pub(crate) fn decode_collection(decoder: &mut DumpDecoder<'_>) -> (r: Result<CollectionId, OperationError>)
    ensures
        reads_dump(r, final(decoder)@, next_dump_id(old(decoder)@)),
{
    match CollectionId::new(decoder.u64()?) {
        Ok(id) => Ok(id),
        Err(error) => Err(OperationError::failed(error.message())),
    }
}

pub(crate) fn decode_wiki(decoder: &mut DumpDecoder<'_>) -> (r: Result<WikiId, OperationError>)
    ensures
        reads_dump(r, final(decoder)@, next_dump_id(old(decoder)@)),
{
    match WikiId::new(decoder.u64()?) {
        Ok(id) => Ok(id),
        Err(error) => Err(OperationError::failed(error.message())),
    }
}

struct Identity {
    collection_id: CollectionId,
    index: TrustedDumpIndex,
}

impl View for Identity {
    type V = (u64, Seq<char>, Seq<char>, Seq<char>);

    closed spec fn view(&self) -> (u64, Seq<char>, Seq<char>, Seq<char>) {
        (
            self.collection_id@,
            self.index.url@,
            self.index.digest@,
            self.index.expected_database@,
        )
    }
}

fn decode_identity(decoder: &mut DumpDecoder<'_>) -> (r: Result<Identity, OperationError>)
    ensures
        reads_dump(r, final(decoder)@, next_identity(old(decoder)@)),
{
    decoder.version("unsupported current-dump request encoding")?;
    let collection_id = decode_collection(decoder)?;
    let url = decoder.string(MAX_INDEX_URL_BYTES)?;
    let digest = match DumpDigest::from_hex(decoder.string(MAX_SHORT_FIELD_BYTES)?.as_str()) {
        Ok(digest) => digest,
        Err(message) => return Err(OperationError::failed(message)),
    };
    let expected_database = decoder.string(MAX_DATABASE_BYTES)?;
    Ok(Identity { collection_id, index: TrustedDumpIndex { url, digest, expected_database } })
}

fn decode_acquisition(decoder: &mut DumpDecoder<'_>) -> (r: Result<
    DumpAcquisitionLimits,
    OperationError,
>)
    ensures
        reads_plain(r, final(decoder)@, next_acquisition(old(decoder)@)),
{
    let max_index_bytes: usize = decoder.usize()?;
    let max_artifact_bytes: u64 = decoder.u64()?;
    let max_total_artifact_bytes: u64 = decoder.u64()?;
    let max_artifacts: usize = decoder.usize()?;
    let max_elapsed_seconds: u64 = decoder.u64()?;
    Ok(
        DumpAcquisitionLimits {
            max_index_bytes,
            max_artifact_bytes,
            max_total_artifact_bytes,
            max_artifacts,
            max_elapsed_seconds,
        },
    )
}

fn decode_parser(decoder: &mut DumpDecoder<'_>) -> (r: Result<DumpLimits, OperationError>)
    ensures
        reads_plain(r, final(decoder)@, next_parser(old(decoder)@)),
{
    let max_compressed_bytes: u64 = decoder.u64()?;
    let max_decompressed_bytes: u64 = decoder.u64()?;
    let max_pages: u64 = decoder.u64()?;
    let max_page_xml_bytes: u64 = decoder.u64()?;
    let max_text_bytes: usize = decoder.usize()?;
    let max_metadata_field_bytes: usize = decoder.usize()?;
    let max_siteinfo_bytes: u64 = decoder.u64()?;
    let max_namespaces: usize = decoder.usize()?;
    Ok(
        DumpLimits {
            max_compressed_bytes,
            max_decompressed_bytes,
            max_pages,
            max_page_xml_bytes,
            max_text_bytes,
            max_metadata_field_bytes,
            max_siteinfo_bytes,
            max_namespaces,
        },
    )
}

/// Reads the index that an encoded request names, for the transfer client to judge.
pub fn dump_request_index(bytes: &[u8]) -> (r: Result<TrustedDumpIndex, OperationError>)
    ensures
        match r {
            Ok(index) => dump_index(bytes@) == Ok::<(Seq<char>, Seq<char>, Seq<char>), Seq<char>>(
                (index.url@, index.digest@, index.expected_database@),
            ),
            Err(error) => dump_index(bytes@) is Err && error@ == failure(
                dump_index(bytes@)->Err_0,
            ),
        },
{
    let mut decoder = DumpDecoder::new(bytes);
    match decode_identity(&mut decoder) {
        Ok(identity) => Ok(identity.index),
        Err(error) => Err(error),
    }
}

/// Decodes and validates a dump request, given the transfer client's verdict on its index.
pub fn decode_current_dump_bootstrap_request(
    bytes: &[u8],
    index_policy: Result<(), String>,
) -> (r: Result<CurrentDumpBootstrapRequest, OperationError>)
    ensures
        match r {
            Ok(request) => dump_request_decoding(bytes@, policy_view(index_policy)) == Ok::<
                DumpRequestView,
                Seq<char>,
            >(request@),
            Err(error) => dump_request_decoding(bytes@, policy_view(index_policy)) is Err && error@
                == failure(dump_request_decoding(bytes@, policy_view(index_policy))->Err_0),
        },
{
    reveal(dump_request_decoding);
    let mut decoder = DumpDecoder::new(bytes);
    let identity = decode_identity(&mut decoder)?;
    if let Err(message) = index_policy {
        return Err(OperationError::failed(message.as_str()));
    }
    let acquisition = decode_acquisition(&mut decoder)?;
    let parser = decode_parser(&mut decoder)?;
    let generation: Option<u64> = decoder.option_u64(
        "invalid expected collection generation encoding",
    )?;
    decoder.finish()?;
    proof {
        lemma_identity_fits(bytes@);
    }
    let request = CurrentDumpBootstrapRequest::new(identity.collection_id, identity.index)?;
    let request = request.with_limits(acquisition, parser)?;
    Ok(
        match generation {
            Some(generation) => request.with_expected_collection_generation(generation),
            None => request,
        },
    )
}

/// A text that was read fits its bound.
pub proof fn lemma_dump_text_fits(bytes: Seq<u8>, limit: usize)
    ensures
        next_dump_text(bytes, limit) matches Ok((text, rest)) ==> dump_text_fits(text, limit),
{
    if next_dump_text(bytes, limit) is Ok {
        let (field, rest) = next_long(bytes, limit)->Ok_0;
        decode_utf8_encode_utf8(field);
    }
}

proof fn lemma_identity_fits(bytes: Seq<u8>)
    ensures
        next_identity(bytes) matches Ok((identity, rest)) ==> text_bytes(identity.1)
            <= MAX_INDEX_URL_BYTES && text_bytes(identity.3) <= MAX_DATABASE_BYTES,
{
    if next_identity(bytes) is Ok {
        let (version, r1) = next_dump_version(
            bytes,
            "unsupported current-dump request encoding"@,
        )->Ok_0;
        let (id, r2) = next_dump_id(r1)->Ok_0;
        lemma_dump_text_fits(r2, MAX_INDEX_URL_BYTES);
        let (url, r3) = next_dump_text(r2, MAX_INDEX_URL_BYTES)->Ok_0;
        let (digest, r4) = next_dump_text(r3, MAX_SHORT_FIELD_BYTES)->Ok_0;
        lemma_dump_text_fits(r4, MAX_DATABASE_BYTES);
    }
}

} // verus!
