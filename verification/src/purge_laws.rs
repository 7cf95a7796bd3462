//! What encoding and decoding of purge payloads promise together.

use vstd::prelude::*;
use vstd::utf8::*;

use crate::codec::text_field;
use crate::collection::MAX_COLLECTION_NAME_BYTES;
use crate::protocol::MutationOutcomeView;
use crate::purge::{
    journal_tag, next_five, next_purge_flag, next_purge_request, next_purge_text, next_receipt,
    next_receipt_end, purge_number, purge_outcome_bytes, purge_outcome_decoding,
    purge_request_decoding, purge_request_encoding, purge_result_decoding, purge_text_fits,
    receipt_end, receipt_files, receipt_packs, whole_payload, CollectionPurgeOutcome,
    PurgeCleanupProgress, PurgeJournalState, PurgeRequestView, COLLECTION_PURGE_RESULT,
    MAX_FINGERPRINT_BYTES, PURGE_CONTRACT_VERSION,
};
use crate::wire::{
    be, bits64, flag_bytes, lemma_cat2, lemma_cat3, lemma_cat5, lemma_cat_empty,
    lemma_number_read, lemma_pow256, lemma_split, lemma_split_number, pow256, signed64, split,
};

verus! {

proof fn lemma_number(value: nat, width: nat, rest: Seq<u8>)
    requires
        value < pow256(width),
    ensures
        purge_number(be(value, width) + rest, width) == Ok::<(nat, Seq<u8>), Seq<char>>(
            (value, rest),
        ),
{
    lemma_split_number(value, width, rest);
}

proof fn lemma_text(text: Seq<char>, maximum: usize, rest: Seq<u8>)
    requires
        purge_text_fits(text, maximum),
        maximum <= u32::MAX,
    ensures
        next_purge_text(text_field(text) + rest, maximum) == Ok::<(Seq<char>, Seq<u8>), Seq<char>>(
            (text, rest),
        ),
{
    let field = encode_utf8(text);
    lemma_pow256();
    lemma_cat2(be(field.len(), 4), field, rest);
    lemma_number(field.len(), 4, field + rest);
    lemma_split(field, rest);
    encode_utf8_valid_utf8(text);
    encode_utf8_decode_utf8(text);
}

proof fn lemma_flag(flag: bool, rest: Seq<u8>)
    ensures
        next_purge_flag(flag_bytes(flag) + rest) == Ok::<(bool, Seq<u8>), Seq<char>>((flag, rest)),
{
    lemma_pow256();
    lemma_number(
        if flag {
            1
        } else {
            0
        },
        1,
        rest,
    );
}

/// Decoding gives back every purge request that can be encoded, with both
/// acknowledgements kept apart.
pub proof fn law_purge_request_round_trip(request: PurgeRequestView)
    requires
        request.collection_id > 0,
        purge_request_encoding(request) is Ok,
    ensures
        purge_request_decoding(purge_request_encoding(request)->Ok_0) == Ok::<
            PurgeRequestView,
            Seq<char>,
        >(request),
{
    let version = be(PURGE_CONTRACT_VERSION as nat, 1);
    let id = be(request.collection_id as nat, 8);
    let name = text_field(request.collection_name);
    let print = text_field(request.preview_fingerprint);
    let payload = flag_bytes(request.payload_only_acknowledged);
    let copies = flag_bytes(request.external_copies_not_erased_acknowledged);
    let after_print = payload + copies;
    let after_name = print + after_print;
    let after_id = name + after_name;
    let after_version = id + after_id;
    let empty = Seq::<u8>::empty();
    lemma_pow256();
    lemma_cat5(version, id, name, print, payload, copies);
    lemma_cat_empty(copies);
    lemma_number(1, 1, after_version);
    lemma_number(request.collection_id as nat, 8, after_id);
    lemma_text(request.collection_name, MAX_COLLECTION_NAME_BYTES, after_name);
    lemma_text(request.preview_fingerprint, MAX_FINGERPRINT_BYTES, after_print);
    lemma_flag(request.payload_only_acknowledged, copies);
    lemma_flag(request.external_copies_not_erased_acknowledged, empty);
    lemma_request_parts(
        request,
        version + after_version,
        after_version,
        after_id,
        after_name,
        after_print,
        copies,
    );
}

proof fn lemma_request_parts(
    request: PurgeRequestView,
    bytes: Seq<u8>,
    after_version: Seq<u8>,
    after_id: Seq<u8>,
    after_name: Seq<u8>,
    after_print: Seq<u8>,
    after_flag: Seq<u8>,
)
    requires
        request.collection_id > 0,
        purge_number(bytes, 1) == Ok::<(nat, Seq<u8>), Seq<char>>((1nat, after_version)),
        purge_number(after_version, 8) == Ok::<(nat, Seq<u8>), Seq<char>>(
            (request.collection_id as nat, after_id),
        ),
        next_purge_text(after_id, MAX_COLLECTION_NAME_BYTES) == Ok::<
            (Seq<char>, Seq<u8>),
            Seq<char>,
        >((request.collection_name, after_name)),
        next_purge_text(after_name, MAX_FINGERPRINT_BYTES) == Ok::<
            (Seq<char>, Seq<u8>),
            Seq<char>,
        >((request.preview_fingerprint, after_print)),
        next_purge_flag(after_print) == Ok::<(bool, Seq<u8>), Seq<char>>(
            (request.payload_only_acknowledged, after_flag),
        ),
        next_purge_flag(after_flag) == Ok::<(bool, Seq<u8>), Seq<char>>(
            (request.external_copies_not_erased_acknowledged, Seq::empty()),
        ),
    ensures
        purge_request_decoding(bytes) == Ok::<PurgeRequestView, Seq<char>>(request),
{
}

proof fn lemma_number_of(bytes: Seq<u8>, width: nat)
    ensures
        purge_number(bytes, width) matches Ok((value, rest)) ==> value < pow256(width) && bytes
            == be(value, width) + rest,
{
    if purge_number(bytes, width) is Ok {
        lemma_number_read(bytes, width);
    }
}

proof fn lemma_text_read(bytes: Seq<u8>, maximum: usize)
    ensures
        next_purge_text(bytes, maximum) matches Ok((text, rest)) ==> purge_text_fits(text, maximum)
            && bytes == text_field(text) + rest,
{
    lemma_number_of(bytes, 4);
    if next_purge_text(bytes, maximum) is Ok {
        let (length, after) = purge_number(bytes, 4)->Ok_0;
        let (field, rest) = split(after, length)->0;
        assert(after =~= field + rest);
        decode_utf8_encode_utf8(field);
        lemma_cat2(be(length, 4), field, rest);
    }
}

proof fn lemma_flag_read(bytes: Seq<u8>)
    ensures
        next_purge_flag(bytes) matches Ok((flag, rest)) ==> bytes == flag_bytes(flag) + rest,
{
    lemma_number_of(bytes, 1);
}

/// Accepted payloads are the one encoding of the request they decode to.
pub proof fn law_purge_request_encoding_is_canonical(payload: Seq<u8>)
    ensures
        purge_request_decoding(payload) matches Ok(request) ==> purge_request_encoding(request)
            == Ok::<Seq<u8>, Seq<char>>(payload),
{
    lemma_pow256();
    if purge_request_decoding(payload) is Ok {
        let (request, end) = next_purge_request(payload)->Ok_0;
        lemma_number_of(payload, 1);
        let (version, after_version) = purge_number(payload, 1)->Ok_0;
        lemma_number_of(after_version, 8);
        let (id, after_id) = purge_number(after_version, 8)->Ok_0;
        lemma_text_read(after_id, MAX_COLLECTION_NAME_BYTES);
        let (name, after_name) = next_purge_text(after_id, MAX_COLLECTION_NAME_BYTES)->Ok_0;
        lemma_text_read(after_name, MAX_FINGERPRINT_BYTES);
        let (print, after_print) = next_purge_text(after_name, MAX_FINGERPRINT_BYTES)->Ok_0;
        lemma_flag_read(after_print);
        let (first, after_first) = next_purge_flag(after_print)->Ok_0;
        lemma_flag_read(after_first);
        let (second, rest) = next_purge_flag(after_first)->Ok_0;
        assert(rest =~= Seq::empty());
        lemma_cat_empty(flag_bytes(second));
        lemma_cat5(
            be(version, 1),
            be(id, 8),
            text_field(name),
            text_field(print),
            flag_bytes(first),
            flag_bytes(second),
        );
    }
}

proof fn lemma_five(a: u64, b: u64, c: u64, d: u64, e: u64, rest: Seq<u8>)
    ensures
        next_five(
            be(a as nat, 8) + be(b as nat, 8) + be(c as nat, 8) + be(d as nat, 8) + be(e as nat, 8)
                + rest,
        ) == Ok::<((nat, nat, nat, nat, nat), Seq<u8>), Seq<char>>(
            ((a as nat, b as nat, c as nat, d as nat, e as nat), rest),
        ),
{
    lemma_pow256();
    let fifth = be(e as nat, 8) + rest;
    let fourth = be(d as nat, 8) + fifth;
    let third = be(c as nat, 8) + fourth;
    let second = be(b as nat, 8) + third;
    lemma_cat5(
        be(a as nat, 8),
        be(b as nat, 8),
        be(c as nat, 8),
        be(d as nat, 8),
        be(e as nat, 8),
        rest,
    );
    lemma_number(a as nat, 8, second);
    lemma_number(b as nat, 8, third);
    lemma_number(c as nat, 8, fourth);
    lemma_number(d as nat, 8, fifth);
    lemma_number(e as nat, 8, rest);
}

proof fn lemma_five_read(bytes: Seq<u8>)
    ensures
        next_five(bytes) matches Ok(((a, b, c, d, e), rest)) ==> {
            &&& a < pow256(8) && b < pow256(8) && c < pow256(8) && d < pow256(8) && e < pow256(8)
            &&& bytes == be(a, 8) + be(b, 8) + be(c, 8) + be(d, 8) + be(e, 8) + rest
        },
{
    if next_five(bytes) is Ok {
        lemma_number_of(bytes, 8);
        let (a, after_a) = purge_number(bytes, 8)->Ok_0;
        lemma_number_of(after_a, 8);
        let (b, after_b) = purge_number(after_a, 8)->Ok_0;
        lemma_number_of(after_b, 8);
        let (c, after_c) = purge_number(after_b, 8)->Ok_0;
        lemma_number_of(after_c, 8);
        let (d, after_d) = purge_number(after_c, 8)->Ok_0;
        lemma_number_of(after_d, 8);
        let (e, rest) = purge_number(after_d, 8)->Ok_0;
        lemma_cat5(be(a, 8), be(b, 8), be(c, 8), be(d, 8), be(e, 8), rest);
    }
}

proof fn lemma_receipt_end(progress: PurgeCleanupProgress)
    ensures
        next_receipt_end(receipt_end(progress)) == Ok::<
            ((i64, PurgeJournalState, bool), Seq<u8>),
            Seq<char>,
        >(
            (
                (progress.net_reclaimed_file_bytes, progress.state, progress.manifest_installed),
                Seq::empty(),
            ),
        ),
{
    let net = be(bits64(progress.net_reclaimed_file_bytes), 8);
    let tag = be(journal_tag(progress.state) as nat, 1);
    let flag = flag_bytes(progress.manifest_installed);
    lemma_pow256();
    lemma_cat2(net, tag, flag);
    lemma_cat_empty(flag);
    lemma_number(bits64(progress.net_reclaimed_file_bytes), 8, tag + flag);
    lemma_number(journal_tag(progress.state) as nat, 1, flag);
    lemma_flag(progress.manifest_installed, Seq::empty());
    assert(signed64(bits64(progress.net_reclaimed_file_bytes) as u64)
        == progress.net_reclaimed_file_bytes);
}

/// Decoding gives back every receipt whose two identifiers agree, and refuses the others.
pub proof fn law_purge_receipt_round_trip(outcome: CollectionPurgeOutcome)
    ensures
        purge_outcome_decoding(purge_outcome_bytes(outcome)) == (if outcome.purge_id
            == outcome.progress.purge_id {
            Ok::<CollectionPurgeOutcome, Seq<char>>(outcome)
        } else {
            Err::<CollectionPurgeOutcome, Seq<char>>(
                "collection purge outcome IDs did not match"@,
            )
        }),
{
    let version = be(PURGE_CONTRACT_VERSION as nat, 1);
    let packs = receipt_packs(outcome);
    let files = receipt_files(outcome.progress);
    let end = receipt_end(outcome.progress);
    let p = outcome.progress;
    lemma_pow256();
    lemma_cat3(version, packs, files, end);
    lemma_number(1, 1, packs + (files + end));
    lemma_five(
        outcome.purge_id,
        p.purge_id,
        p.pending_pack_count,
        p.replacement_ready_pack_count,
        p.retired_pack_count,
        files + end,
    );
    lemma_five(
        p.pending_file_count,
        p.unlinking_file_count,
        p.retired_file_count,
        p.retired_file_bytes,
        p.replacement_file_bytes,
        end,
    );
    lemma_receipt_end(p);
    lemma_receipt_parts(
        outcome,
        version + (packs + (files + end)),
        packs + (files + end),
        files + end,
        end,
    );
}

proof fn lemma_receipt_parts(
    outcome: CollectionPurgeOutcome,
    bytes: Seq<u8>,
    after_version: Seq<u8>,
    after_packs: Seq<u8>,
    after_files: Seq<u8>,
)
    requires
        purge_number(bytes, 1) == Ok::<(nat, Seq<u8>), Seq<char>>((1nat, after_version)),
        next_five(after_version) == Ok::<((nat, nat, nat, nat, nat), Seq<u8>), Seq<char>>(
            (
                (
                    outcome.purge_id as nat,
                    outcome.progress.purge_id as nat,
                    outcome.progress.pending_pack_count as nat,
                    outcome.progress.replacement_ready_pack_count as nat,
                    outcome.progress.retired_pack_count as nat,
                ),
                after_packs,
            ),
        ),
        next_five(after_packs) == Ok::<((nat, nat, nat, nat, nat), Seq<u8>), Seq<char>>(
            (
                (
                    outcome.progress.pending_file_count as nat,
                    outcome.progress.unlinking_file_count as nat,
                    outcome.progress.retired_file_count as nat,
                    outcome.progress.retired_file_bytes as nat,
                    outcome.progress.replacement_file_bytes as nat,
                ),
                after_files,
            ),
        ),
        next_receipt_end(after_files) == Ok::<
            ((i64, PurgeJournalState, bool), Seq<u8>),
            Seq<char>,
        >(
            (
                (
                    outcome.progress.net_reclaimed_file_bytes,
                    outcome.progress.state,
                    outcome.progress.manifest_installed,
                ),
                Seq::empty(),
            ),
        ),
    ensures
        whole_payload(next_receipt(bytes)) == Ok::<CollectionPurgeOutcome, Seq<char>>(outcome),
{
}

/// A stored receipt comes back from the mutation result that carries it.
pub proof fn law_purge_result_round_trip(outcome: CollectionPurgeOutcome)
    requires
        outcome.purge_id == outcome.progress.purge_id,
    ensures
        purge_result_decoding(
            MutationOutcomeView {
                result: COLLECTION_PURGE_RESULT@,
                payload: purge_outcome_bytes(outcome),
            },
        ) == Ok::<CollectionPurgeOutcome, Seq<char>>(outcome),
{
    law_purge_receipt_round_trip(outcome);
}

proof fn lemma_receipt_end_read(bytes: Seq<u8>, progress: PurgeCleanupProgress)
    ensures
        next_receipt_end(bytes) matches Ok(((net, state, installed), rest)) ==> (
        progress.net_reclaimed_file_bytes == net && progress.state == state
            && progress.manifest_installed == installed ==> bytes == receipt_end(progress) + rest),
{
    lemma_pow256();
    if next_receipt_end(bytes) is Ok {
        lemma_number_of(bytes, 8);
        let (net, after_net) = purge_number(bytes, 8)->Ok_0;
        lemma_number_of(after_net, 1);
        let (tag, after_tag) = purge_number(after_net, 1)->Ok_0;
        lemma_flag_read(after_tag);
        let (installed, rest) = next_purge_flag(after_tag)->Ok_0;
        assert(bits64(signed64(net as u64)) == net);
        lemma_cat3(be(net, 8), be(tag, 1), flag_bytes(installed), rest);
    }
}

/// Accepted receipts are the one encoding of what they decode to.
pub proof fn law_purge_receipt_encoding_is_canonical(payload: Seq<u8>)
    ensures
        purge_outcome_decoding(payload) matches Ok(outcome) ==> purge_outcome_bytes(outcome)
            == payload,
{
    lemma_pow256();
    if purge_outcome_decoding(payload) is Ok {
        let (outcome, end) = next_receipt(payload)->Ok_0;
        lemma_number_of(payload, 1);
        let (version, after_version) = purge_number(payload, 1)->Ok_0;
        lemma_five_read(after_version);
        let (packs, after_packs) = next_five(after_version)->Ok_0;
        lemma_five_read(after_packs);
        let (files, after_files) = next_five(after_packs)->Ok_0;
        lemma_receipt_end_read(after_files, outcome.progress);
        assert(end =~= Seq::empty());
        lemma_cat_empty(receipt_end(outcome.progress));
        lemma_cat3(
            be(version, 1),
            receipt_packs(outcome),
            receipt_files(outcome.progress),
            receipt_end(outcome.progress),
        );
    }
}

} // verus!
