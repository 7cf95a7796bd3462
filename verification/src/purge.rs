//! Bounded product-facing collection-purge mutation contract.

use vstd::prelude::*;
use vstd::string::*;
use vstd::utf8::*;

use crate::codec::{reads, text_field, Parsed};
use crate::collection::{text_bytes, MAX_COLLECTION_NAME_BYTES};
use crate::error::{failure, OperationError};
use crate::model::{CollectionId, ModelError};
use crate::protocol::{Mutation, MutationOutcome, MutationOutcomeView, MutationView};
use crate::text::same_text;
use crate::wire::{
    be, bits64, byte_len, flag_bytes, lemma_cat2, lemma_cat3, lemma_cat4, lemma_cat5, put_flag,
    put_i64, put_slice, put_u32, put_u64, put_u8, signed64, split, split_number, to_signed64,
    to_vec, utf8_text, Reader,
};

verus! {

/// Versioned extension name for an exact, acknowledged collection purge.
pub const COLLECTION_PURGE_EXTENSION: &'static str = "collection-purge-v1";

/// Stable successful result name returned by the purge extension.
pub const COLLECTION_PURGE_RESULT: &'static str = "collection-purge-complete-v1";

pub const PURGE_CONTRACT_VERSION: u8 = 1;

/// Largest preview fingerprint in bytes.
pub const MAX_FINGERPRINT_BYTES: usize = 128;

/// Exact operator confirmations encoded into one purge mutation.
#[derive(Debug, PartialEq, Eq)]
pub struct CollectionPurgeRequest {
    pub collection_id: CollectionId,
    pub collection_name: String,
    pub preview_fingerprint: String,
    pub payload_only_acknowledged: bool,
    pub external_copies_not_erased_acknowledged: bool,
}

/// Plain view of a purge request.
pub struct PurgeRequestView {
    pub collection_id: u64,
    pub collection_name: Seq<char>,
    pub preview_fingerprint: Seq<char>,
    pub payload_only_acknowledged: bool,
    pub external_copies_not_erased_acknowledged: bool,
}

impl View for CollectionPurgeRequest {
    type V = PurgeRequestView;

    open spec fn view(&self) -> PurgeRequestView {
        PurgeRequestView {
            collection_id: self.collection_id@,
            collection_name: self.collection_name@,
            preview_fingerprint: self.preview_fingerprint@,
            payload_only_acknowledged: self.payload_only_acknowledged,
            external_copies_not_erased_acknowledged: self.external_copies_not_erased_acknowledged,
        }
    }
}

impl Clone for CollectionPurgeRequest {
    fn clone(&self) -> (copy: Self)
        ensures
            copy@ == self@,
    {
        CollectionPurgeRequest {
            collection_id: self.collection_id,
            collection_name: self.collection_name.clone(),
            preview_fingerprint: self.preview_fingerprint.clone(),
            payload_only_acknowledged: self.payload_only_acknowledged,
            external_copies_not_erased_acknowledged: self.external_copies_not_erased_acknowledged,
        }
    }
}

/// Durable state of one purge journal.
#[derive(Clone, Copy, Debug, PartialEq, Eq, Structural)]
pub enum PurgeJournalState {
    Authorized,
    Repacking,
    Cleaning,
    Succeeded,
    Failed,
}

/// How far the cleanup of one purge has come.
#[derive(Clone, Copy, Debug, PartialEq, Eq, Structural)]
pub struct PurgeCleanupProgress {
    pub purge_id: u64,
    pub state: PurgeJournalState,
    pub manifest_installed: bool,
    pub pending_pack_count: u64,
    pub replacement_ready_pack_count: u64,
    pub retired_pack_count: u64,
    pub pending_file_count: u64,
    pub unlinking_file_count: u64,
    pub retired_file_count: u64,
    pub retired_file_bytes: u64,
    pub replacement_file_bytes: u64,
    pub net_reclaimed_file_bytes: i64,
}

/// Terminal durable receipt returned by the purge mutation.
#[derive(Clone, Copy, Debug, PartialEq, Eq, Structural)]
pub struct CollectionPurgeOutcome {
    pub purge_id: u64,
    pub progress: PurgeCleanupProgress,
}

/// A text field of a purge request holds between one and `maximum` bytes.
pub open spec fn purge_text_fits(text: Seq<char>, maximum: usize) -> bool {
    0 < text_bytes(text) <= maximum
}

/// The bytes of a purge request.
pub open spec fn purge_request_bytes(request: PurgeRequestView) -> Seq<u8> {
    be(PURGE_CONTRACT_VERSION as nat, 1) + be(request.collection_id as nat, 8) + text_field(
        request.collection_name,
    ) + text_field(request.preview_fingerprint) + flag_bytes(request.payload_only_acknowledged)
        + flag_bytes(request.external_copies_not_erased_acknowledged)
}

/// The encoding of a purge request, or the first reason that there is none.
pub open spec fn purge_request_encoding(request: PurgeRequestView) -> Result<
    Seq<u8>,
    Seq<char>,
> {
    if !purge_text_fits(request.collection_name, MAX_COLLECTION_NAME_BYTES) {
        Err("collection purge collection name is outside its bound"@)
    } else if !purge_text_fits(request.preview_fingerprint, MAX_FINGERPRINT_BYTES) {
        Err("collection purge preview fingerprint is outside its bound"@)
    } else {
        Ok(purge_request_bytes(request))
    }
}

fn put_purge_text(bytes: &mut Vec<u8>, value: &str)
    requires
        text_bytes(value@) <= u32::MAX,
    ensures
        final(bytes)@ == old(bytes)@ + text_field(value@),
{
    put_u32(bytes, byte_len(value) as u32);
    put_slice(bytes, value.as_bytes());
    proof {
        assert(bytes@ =~= old(bytes)@ + text_field(value@));
    }
}

/// Encodes a purge request.
pub fn encode_purge_request(request: &CollectionPurgeRequest) -> (r: Result<
    Vec<u8>,
    OperationError,
>)
    ensures
        match r {
            Ok(bytes) => purge_request_encoding(request@) == Ok::<Seq<u8>, Seq<char>>(bytes@),
            Err(error) => purge_request_encoding(request@) is Err && error@ == failure(
                purge_request_encoding(request@)->Err_0,
            ),
        },
{
    let name_bytes: usize = byte_len(request.collection_name.as_str());
    if name_bytes == 0 || name_bytes > MAX_COLLECTION_NAME_BYTES {
        return Err(
            OperationError::failed("collection purge collection name is outside its bound"),
        );
    }
    let fingerprint_bytes: usize = byte_len(request.preview_fingerprint.as_str());
    if fingerprint_bytes == 0 || fingerprint_bytes > MAX_FINGERPRINT_BYTES {
        return Err(
            OperationError::failed("collection purge preview fingerprint is outside its bound"),
        );
    }
    let mut bytes: Vec<u8> = Vec::new();
    put_u8(&mut bytes, PURGE_CONTRACT_VERSION);
    put_u64(&mut bytes, request.collection_id.get());
    put_purge_text(&mut bytes, request.collection_name.as_str());
    put_purge_text(&mut bytes, request.preview_fingerprint.as_str());
    put_flag(&mut bytes, request.payload_only_acknowledged);
    put_flag(&mut bytes, request.external_copies_not_erased_acknowledged);
    proof {
        assert(Seq::<u8>::empty() + be(1, 1) =~= be(1, 1));
    }
    Ok(bytes)
}

/// Builds the bounded daemon mutation used by direct and local writers.
pub fn collection_purge_mutation(request: &CollectionPurgeRequest) -> (r: Result<
    Mutation,
    OperationError,
>)
    ensures
        match r {
            Ok(mutation) => purge_request_encoding(request@) is Ok && mutation@ == (
            MutationView::Extension {
                name: COLLECTION_PURGE_EXTENSION@,
                payload: purge_request_encoding(request@)->Ok_0,
            }),
            Err(error) => purge_request_encoding(request@) is Err && error@ == failure(
                purge_request_encoding(request@)->Err_0,
            ),
        },
{
    let payload = encode_purge_request(request)?;
    Ok(Mutation::Extension { name: COLLECTION_PURGE_EXTENSION.to_owned(), payload })
}

/// The next number of `width` bytes.
pub open spec fn purge_number(bytes: Seq<u8>, width: nat) -> Parsed<nat> {
    match split_number(bytes, width) {
        Some((value, rest)) => Ok((value, rest)),
        None => Err("truncated collection purge extension payload"@),
    }
}

/// The next text field.
pub open spec fn next_purge_text(bytes: Seq<u8>, maximum: usize) -> Parsed<Seq<char>> {
    match purge_number(bytes, 4) {
        Err(message) => Err(message),
        Ok((length, rest)) => if length == 0 || length > maximum {
            Err("collection purge text is outside its bound"@)
        } else {
            match split(rest, length) {
                None => Err("truncated collection purge extension payload"@),
                Some((field, rest)) => if valid_utf8(field) {
                    Ok((decode_utf8(field), rest))
                } else {
                    Err("collection purge text is not valid UTF-8"@)
                },
            }
        },
    }
}

/// The next acknowledgement flag.
pub open spec fn next_purge_flag(bytes: Seq<u8>) -> Parsed<bool> {
    match purge_number(bytes, 1) {
        Err(message) => Err(message),
        Ok((flag, rest)) => if flag <= 1 {
            Ok((flag == 1, rest))
        } else {
            Err("invalid collection purge acknowledgement flag"@)
        },
    }
}

/// The contract version in front of a payload.
pub open spec fn next_purge_version(bytes: Seq<u8>, message: Seq<char>) -> Parsed<()> {
    match purge_number(bytes, 1) {
        Err(message) => Err(message),
        Ok((version, rest)) => if version == PURGE_CONTRACT_VERSION {
            Ok(((), rest))
        } else {
            Err(message)
        },
    }
}

/// The fields of a purge request.
pub open spec fn next_purge_request(bytes: Seq<u8>) -> Parsed<PurgeRequestView> {
    match next_purge_version(bytes, "unsupported collection purge payload version"@) {
        Err(message) => Err(message),
        Ok((version, rest)) => match purge_number(rest, 8) {
            Err(message) => Err(message),
            Ok((collection_id, rest)) => if collection_id == 0 {
                Err(ModelError::ZeroIdentifier.text())
            } else {
                match next_purge_text(rest, MAX_COLLECTION_NAME_BYTES) {
                    Err(message) => Err(message),
                    Ok((collection_name, rest)) => match next_purge_text(
                        rest,
                        MAX_FINGERPRINT_BYTES,
                    ) {
                        Err(message) => Err(message),
                        Ok((preview_fingerprint, rest)) => match next_purge_flag(rest) {
                            Err(message) => Err(message),
                            Ok((payload_only_acknowledged, rest)) => match next_purge_flag(rest) {
                                Err(message) => Err(message),
                                Ok((external_copies_not_erased_acknowledged, rest)) => Ok(
                                    (
                                        PurgeRequestView {
                                            collection_id: collection_id as u64,
                                            collection_name,
                                            preview_fingerprint,
                                            payload_only_acknowledged,
                                            external_copies_not_erased_acknowledged,
                                        },
                                        rest,
                                    ),
                                ),
                            },
                        },
                    },
                }
            },
        },
    }
}

/// What a whole payload holds when it is read to its end.
pub open spec fn whole_payload<V>(parsed: Parsed<V>) -> Result<V, Seq<char>> {
    match parsed {
        Err(message) => Err(message),
        Ok((value, rest)) => if rest.len() == 0 {
            Ok(value)
        } else {
            Err("trailing collection purge extension bytes"@)
        },
    }
}

/// The purge request in a payload, or the first reason that there is none.
pub open spec fn purge_request_decoding(payload: Seq<u8>) -> Result<PurgeRequestView, Seq<char>> {
    whole_payload(next_purge_request(payload))
}

/// Reads the fields of purge payloads.
pub struct PurgeDecoder<'a> {
    reader: Reader<'a>,
}

impl<'a> View for PurgeDecoder<'a> {
    type V = Seq<u8>;

    closed spec fn view(&self) -> Seq<u8> {
        self.reader@
    }
}

impl<'a> PurgeDecoder<'a> {
    pub fn new(bytes: &'a [u8]) -> (decoder: Self)
        ensures
            decoder@ == bytes@,
    {
        PurgeDecoder { reader: Reader::new(bytes) }
    }

    pub fn u8(&mut self) -> (r: Result<u8, &'static str>)
        ensures
            match r {
                Ok(value) => purge_number(old(self)@, 1) == Ok::<(nat, Seq<u8>), Seq<char>>(
                    (value as nat, final(self)@),
                ),
                Err(message) => purge_number(old(self)@, 1) == Err::<(nat, Seq<u8>), Seq<char>>(
                    message@,
                ),
            },
    {
        match self.reader.u8() {
            Some(value) => Ok(value),
            None => Err("truncated collection purge extension payload"),
        }
    }

    pub fn u64(&mut self) -> (r: Result<u64, &'static str>)
        ensures
            match r {
                Ok(value) => purge_number(old(self)@, 8) == Ok::<(nat, Seq<u8>), Seq<char>>(
                    (value as nat, final(self)@),
                ),
                Err(message) => purge_number(old(self)@, 8) == Err::<(nat, Seq<u8>), Seq<char>>(
                    message@,
                ),
            },
    {
        match self.reader.u64() {
            Some(value) => Ok(value),
            None => Err("truncated collection purge extension payload"),
        }
    }

    pub fn text(&mut self, maximum: usize) -> (r: Result<String, &'static str>)
        ensures
            reads(r, final(self)@, next_purge_text(old(self)@, maximum)),
    {
        let length: u32 = match self.reader.u32() {
            Some(length) => length,
            None => return Err("truncated collection purge extension payload"),
        };
        if length == 0 || length as usize > maximum {
            return Err("collection purge text is outside its bound");
        }
        match self.reader.take(length as usize) {
            None => Err("truncated collection purge extension payload"),
            Some(field) => match utf8_text(to_vec(field)) {
                Ok(text) => Ok(text),
                Err(_) => Err("collection purge text is not valid UTF-8"),
            },
        }
    }

    pub fn flag(&mut self) -> (r: Result<bool, &'static str>)
        ensures
            match r {
                Ok(flag) => next_purge_flag(old(self)@) == Ok::<(bool, Seq<u8>), Seq<char>>(
                    (flag, final(self)@),
                ),
                Err(message) => next_purge_flag(old(self)@) == Err::<(bool, Seq<u8>), Seq<char>>(
                    message@,
                ),
            },
    {
        let flag: u8 = self.u8()?;
        if flag <= 1 {
            Ok(flag == 1)
        } else {
            Err("invalid collection purge acknowledgement flag")
        }
    }

    pub fn version(&mut self, message: &'static str) -> (r: Result<(), &'static str>)
        ensures
            match r {
                Ok(()) => next_purge_version(old(self)@, message@) == Ok::<
                    ((), Seq<u8>),
                    Seq<char>,
                >(((), final(self)@)),
                Err(text) => next_purge_version(old(self)@, message@) == Err::<
                    ((), Seq<u8>),
                    Seq<char>,
                >(text@),
            },
    {
        let version: u8 = self.u8()?;
        if version == PURGE_CONTRACT_VERSION {
            Ok(())
        } else {
            Err(message)
        }
    }

    pub fn finish(&self) -> (r: Result<(), &'static str>)
        ensures
            match r {
                Ok(()) => self@.len() == 0,
                Err(message) => self@.len() != 0 && message@
                    == "trailing collection purge extension bytes"@,
            },
    {
        if self.reader.is_empty() {
            Ok(())
        } else {
            Err("trailing collection purge extension bytes")
        }
    }
}

fn read_purge_request(payload: &[u8]) -> (r: Result<CollectionPurgeRequest, &'static str>)
    ensures
        match r {
            Ok(request) => purge_request_decoding(payload@) == Ok::<PurgeRequestView, Seq<char>>(
                request@,
            ),
            Err(message) => purge_request_decoding(payload@) == Err::<
                PurgeRequestView,
                Seq<char>,
            >(message@),
        },
{
    let mut decoder = PurgeDecoder::new(payload);
    decoder.version("unsupported collection purge payload version")?;
    let collection_id = match CollectionId::new(decoder.u64()?) {
        Ok(collection_id) => collection_id,
        Err(error) => return Err(error.message()),
    };
    let collection_name = decoder.text(MAX_COLLECTION_NAME_BYTES)?;
    let preview_fingerprint = decoder.text(MAX_FINGERPRINT_BYTES)?;
    let payload_only_acknowledged: bool = decoder.flag()?;
    let external_copies_not_erased_acknowledged: bool = decoder.flag()?;
    decoder.finish()?;
    Ok(
        CollectionPurgeRequest {
            collection_id,
            collection_name,
            preview_fingerprint,
            payload_only_acknowledged,
            external_copies_not_erased_acknowledged,
        },
    )
}

/// Decodes a purge request.
pub fn decode_purge_request(payload: &[u8]) -> (r: Result<CollectionPurgeRequest, OperationError>)
    ensures
        match r {
            Ok(request) => purge_request_decoding(payload@) == Ok::<PurgeRequestView, Seq<char>>(
                request@,
            ),
            Err(error) => purge_request_decoding(payload@) is Err && error@ == failure(
                purge_request_decoding(payload@)->Err_0,
            ),
        },
{
    match read_purge_request(payload) {
        Ok(request) => Ok(request),
        Err(message) => Err(OperationError::failed(message)),
    }
}

/// Both effects of a purge were acknowledged.
pub open spec fn acknowledged(request: PurgeRequestView) -> bool {
    request.payload_only_acknowledged && request.external_copies_not_erased_acknowledged
}

/// Refuses a purge that was not acknowledged in both respects.
pub fn require_acknowledgements(request: &CollectionPurgeRequest) -> (r: Result<
    (),
    OperationError,
>)
    ensures
        match r {
            Ok(()) => acknowledged(request@),
            Err(error) => !acknowledged(request@) && error@ == failure(
                "collection purge requires separate payload-only/audit-retention and external-copy acknowledgements"@,
            ),
        },
{
    if request.payload_only_acknowledged && request.external_copies_not_erased_acknowledged {
        Ok(())
    } else {
        Err(
            OperationError::failed(
                "collection purge requires separate payload-only/audit-retention and external-copy acknowledgements",
            ),
        )
    }
}

/// The tag of a journal state.
pub open spec fn journal_tag(state: PurgeJournalState) -> u8 {
    match state {
        PurgeJournalState::Authorized => 1,
        PurgeJournalState::Repacking => 2,
        PurgeJournalState::Cleaning => 3,
        PurgeJournalState::Succeeded => 4,
        PurgeJournalState::Failed => 5,
    }
}

pub fn state_tag(state: PurgeJournalState) -> (tag: u8)
    ensures
        tag == journal_tag(state),
{
    match state {
        PurgeJournalState::Authorized => 1,
        PurgeJournalState::Repacking => 2,
        PurgeJournalState::Cleaning => 3,
        PurgeJournalState::Succeeded => 4,
        PurgeJournalState::Failed => 5,
    }
}

/// The journal state of a tag.
pub open spec fn journal_of_tag(tag: nat) -> Option<PurgeJournalState> {
    if tag == 1 {
        Some(PurgeJournalState::Authorized)
    } else if tag == 2 {
        Some(PurgeJournalState::Repacking)
    } else if tag == 3 {
        Some(PurgeJournalState::Cleaning)
    } else if tag == 4 {
        Some(PurgeJournalState::Succeeded)
    } else if tag == 5 {
        Some(PurgeJournalState::Failed)
    } else {
        None
    }
}

pub fn decode_state(tag: u8) -> (r: Result<PurgeJournalState, &'static str>)
    ensures
        match r {
            Ok(state) => journal_of_tag(tag as nat) == Some(state),
            Err(message) => journal_of_tag(tag as nat) is None && message@
                == "invalid collection purge journal state"@,
        },
{
    match tag {
        1 => Ok(PurgeJournalState::Authorized),
        2 => Ok(PurgeJournalState::Repacking),
        3 => Ok(PurgeJournalState::Cleaning),
        4 => Ok(PurgeJournalState::Succeeded),
        5 => Ok(PurgeJournalState::Failed),
        _ => Err("invalid collection purge journal state"),
    }
}

/// The pack counters of a receipt.
pub open spec fn receipt_packs(outcome: CollectionPurgeOutcome) -> Seq<u8> {
    be(outcome.purge_id as nat, 8) + be(outcome.progress.purge_id as nat, 8) + be(
        outcome.progress.pending_pack_count as nat,
        8,
    ) + be(outcome.progress.replacement_ready_pack_count as nat, 8) + be(
        outcome.progress.retired_pack_count as nat,
        8,
    )
}

/// The file counters of a receipt.
pub open spec fn receipt_files(progress: PurgeCleanupProgress) -> Seq<u8> {
    be(progress.pending_file_count as nat, 8) + be(progress.unlinking_file_count as nat, 8) + be(
        progress.retired_file_count as nat,
        8,
    ) + be(progress.retired_file_bytes as nat, 8) + be(progress.replacement_file_bytes as nat, 8)
}

/// The end of a receipt.
pub open spec fn receipt_end(progress: PurgeCleanupProgress) -> Seq<u8> {
    be(bits64(progress.net_reclaimed_file_bytes), 8) + be(journal_tag(progress.state) as nat, 1)
        + flag_bytes(progress.manifest_installed)
}

/// The bytes of a purge receipt.
pub open spec fn purge_outcome_bytes(outcome: CollectionPurgeOutcome) -> Seq<u8> {
    be(PURGE_CONTRACT_VERSION as nat, 1) + receipt_packs(outcome) + receipt_files(outcome.progress)
        + receipt_end(outcome.progress)
}

/// Encodes a purge receipt.
pub fn encode_purge_outcome(outcome: &CollectionPurgeOutcome) -> (bytes: Vec<u8>)
    ensures
        bytes@ == purge_outcome_bytes(*outcome),
{
    let progress = &outcome.progress;
    let mut bytes: Vec<u8> = Vec::new();
    put_u8(&mut bytes, PURGE_CONTRACT_VERSION);
    let ghost head = bytes@;
    put_u64(&mut bytes, outcome.purge_id);
    put_u64(&mut bytes, progress.purge_id);
    put_u64(&mut bytes, progress.pending_pack_count);
    put_u64(&mut bytes, progress.replacement_ready_pack_count);
    put_u64(&mut bytes, progress.retired_pack_count);
    proof {
        let o = *outcome;
        let p = o.progress;
        assert(head =~= be(PURGE_CONTRACT_VERSION as nat, 1));
        lemma_cat5(
            head,
            be(o.purge_id as nat, 8),
            be(p.purge_id as nat, 8),
            be(p.pending_pack_count as nat, 8),
            be(p.replacement_ready_pack_count as nat, 8),
            be(p.retired_pack_count as nat, 8),
        );
        lemma_cat4(
            be(o.purge_id as nat, 8),
            be(p.purge_id as nat, 8),
            be(p.pending_pack_count as nat, 8),
            be(p.replacement_ready_pack_count as nat, 8),
            be(p.retired_pack_count as nat, 8),
        );
        assert(bytes@ == head + receipt_packs(o));
    }
    let ghost packs = bytes@;
    put_u64(&mut bytes, progress.pending_file_count);
    put_u64(&mut bytes, progress.unlinking_file_count);
    put_u64(&mut bytes, progress.retired_file_count);
    put_u64(&mut bytes, progress.retired_file_bytes);
    put_u64(&mut bytes, progress.replacement_file_bytes);
    proof {
        let p = outcome.progress;
        lemma_cat5(
            packs,
            be(p.pending_file_count as nat, 8),
            be(p.unlinking_file_count as nat, 8),
            be(p.retired_file_count as nat, 8),
            be(p.retired_file_bytes as nat, 8),
            be(p.replacement_file_bytes as nat, 8),
        );
        lemma_cat4(
            be(p.pending_file_count as nat, 8),
            be(p.unlinking_file_count as nat, 8),
            be(p.retired_file_count as nat, 8),
            be(p.retired_file_bytes as nat, 8),
            be(p.replacement_file_bytes as nat, 8),
        );
        assert(bytes@ == packs + receipt_files(p));
    }
    let ghost files = bytes@;
    put_i64(&mut bytes, progress.net_reclaimed_file_bytes);
    put_u8(&mut bytes, state_tag(progress.state));
    put_flag(&mut bytes, progress.manifest_installed);
    proof {
        let p = outcome.progress;
        let net = be(bits64(p.net_reclaimed_file_bytes), 8);
        let tag = be(journal_tag(p.state) as nat, 1);
        let flag = flag_bytes(p.manifest_installed);
        lemma_cat3(files, net, tag, flag);
        lemma_cat2(net, tag, flag);
    }
    bytes
}

/// The five pack counters at the front of a receipt.
pub open spec fn next_five(bytes: Seq<u8>) -> Parsed<(nat, nat, nat, nat, nat)> {
    match purge_number(bytes, 8) {
        Err(message) => Err(message),
        Ok((a, rest)) => match purge_number(rest, 8) {
            Err(message) => Err(message),
            Ok((b, rest)) => match purge_number(rest, 8) {
                Err(message) => Err(message),
                Ok((c, rest)) => match purge_number(rest, 8) {
                    Err(message) => Err(message),
                    Ok((d, rest)) => match purge_number(rest, 8) {
                        Err(message) => Err(message),
                        Ok((e, rest)) => Ok(((a, b, c, d, e), rest)),
                    },
                },
            },
        },
    }
}

/// Net bytes, journal state and manifest flag at the end of a receipt.
pub open spec fn next_receipt_end(bytes: Seq<u8>) -> Parsed<(i64, PurgeJournalState, bool)> {
    match purge_number(bytes, 8) {
        Err(message) => Err(message),
        Ok((net, rest)) => match purge_number(rest, 1) {
            Err(message) => Err(message),
            Ok((tag, rest)) => match journal_of_tag(tag) {
                None => Err("invalid collection purge journal state"@),
                Some(state) => match next_purge_flag(rest) {
                    Err(message) => Err(message),
                    Ok((installed, rest)) => Ok(((signed64(net as u64), state, installed), rest)),
                },
            },
        },
    }
}

/// The fields of a receipt; the two identifiers in it are not compared yet.
pub open spec fn next_receipt(bytes: Seq<u8>) -> Parsed<CollectionPurgeOutcome> {
    match next_purge_version(bytes, "unsupported collection purge outcome version"@) {
        Err(message) => Err(message),
        Ok((version, rest)) => match next_five(rest) {
            Err(message) => Err(message),
            Ok((packs, rest)) => match next_five(rest) {
                Err(message) => Err(message),
                Ok((files, rest)) => match next_receipt_end(rest) {
                    Err(message) => Err(message),
                    Ok((end, rest)) => Ok(
                        (
                            CollectionPurgeOutcome {
                                purge_id: packs.0 as u64,
                                progress: PurgeCleanupProgress {
                                    purge_id: packs.1 as u64,
                                    state: end.1,
                                    manifest_installed: end.2,
                                    pending_pack_count: packs.2 as u64,
                                    replacement_ready_pack_count: packs.3 as u64,
                                    retired_pack_count: packs.4 as u64,
                                    pending_file_count: files.0 as u64,
                                    unlinking_file_count: files.1 as u64,
                                    retired_file_count: files.2 as u64,
                                    retired_file_bytes: files.3 as u64,
                                    replacement_file_bytes: files.4 as u64,
                                    net_reclaimed_file_bytes: end.0,
                                },
                            },
                            rest,
                        ),
                    ),
                },
            },
        },
    }
}

/// The receipt in a payload, or the first reason that there is none.
pub open spec fn purge_outcome_decoding(payload: Seq<u8>) -> Result<
    CollectionPurgeOutcome,
    Seq<char>,
> {
    match whole_payload(next_receipt(payload)) {
        Err(message) => Err(message),
        Ok(outcome) => if outcome.purge_id != outcome.progress.purge_id {
            Err("collection purge outcome IDs did not match"@)
        } else {
            Ok(outcome)
        },
    }
}

fn read_purge_outcome(payload: &[u8]) -> (r: Result<CollectionPurgeOutcome, &'static str>)
    ensures
        match r {
            Ok(outcome) => purge_outcome_decoding(payload@) == Ok::<
                CollectionPurgeOutcome,
                Seq<char>,
            >(outcome),
            Err(message) => purge_outcome_decoding(payload@) == Err::<
                CollectionPurgeOutcome,
                Seq<char>,
            >(message@),
        },
{
    let mut decoder = PurgeDecoder::new(payload);
    decoder.version("unsupported collection purge outcome version")?;
    let purge_id: u64 = decoder.u64()?;
    let progress_purge_id: u64 = decoder.u64()?;
    let pending_pack_count: u64 = decoder.u64()?;
    let replacement_ready_pack_count: u64 = decoder.u64()?;
    let retired_pack_count: u64 = decoder.u64()?;
    let pending_file_count: u64 = decoder.u64()?;
    let unlinking_file_count: u64 = decoder.u64()?;
    let retired_file_count: u64 = decoder.u64()?;
    let retired_file_bytes: u64 = decoder.u64()?;
    let replacement_file_bytes: u64 = decoder.u64()?;
    let net_reclaimed_file_bytes: i64 = to_signed64(decoder.u64()?);
    let state = decode_state(decoder.u8()?)?;
    let manifest_installed: bool = decoder.flag()?;
    decoder.finish()?;
    if purge_id != progress_purge_id {
        return Err("collection purge outcome IDs did not match");
    }
    Ok(
        CollectionPurgeOutcome {
            purge_id,
            progress: PurgeCleanupProgress {
                purge_id,
                state,
                manifest_installed,
                pending_pack_count,
                replacement_ready_pack_count,
                retired_pack_count,
                pending_file_count,
                unlinking_file_count,
                retired_file_count,
                retired_file_bytes,
                replacement_file_bytes,
                net_reclaimed_file_bytes,
            },
        },
    )
}

/// The receipt in a mutation result.
pub open spec fn purge_result_decoding(outcome: MutationOutcomeView) -> Result<
    CollectionPurgeOutcome,
    Seq<char>,
> {
    if outcome.result != COLLECTION_PURGE_RESULT@ {
        Err("unexpected collection purge result name"@)
    } else {
        purge_outcome_decoding(outcome.payload)
    }
}

/// Decodes and validates the stable purge mutation result.
pub fn decode_collection_purge_outcome(outcome: &MutationOutcome) -> (r: Result<
    CollectionPurgeOutcome,
    OperationError,
>)
    ensures
        match r {
            Ok(receipt) => purge_result_decoding(outcome@) == Ok::<
                CollectionPurgeOutcome,
                Seq<char>,
            >(receipt),
            Err(error) => purge_result_decoding(outcome@) is Err && error@ == failure(
                purge_result_decoding(outcome@)->Err_0,
            ),
        },
{
    if !same_text(outcome.result.as_str(), COLLECTION_PURGE_RESULT) {
        return Err(OperationError::failed("unexpected collection purge result name"));
    }
    match read_purge_outcome(outcome.payload.as_slice()) {
        Ok(receipt) => Ok(receipt),
        Err(message) => Err(OperationError::failed(message)),
    }
}

/// The mutation result that carries a receipt.
pub fn purge_result(outcome: &CollectionPurgeOutcome) -> (result: MutationOutcome)
    ensures
        result@ == (MutationOutcomeView {
            result: COLLECTION_PURGE_RESULT@,
            payload: purge_outcome_bytes(*outcome),
        }),
{
    MutationOutcome {
        result: COLLECTION_PURGE_RESULT.to_owned(),
        payload: encode_purge_outcome(outcome),
    }
}

} // verus!
