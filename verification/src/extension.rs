//! Extension mutations that configure schedules and network use.

use vstd::prelude::*;
use vstd::string::*;

use crate::error::{failure, OperationError};
use crate::model::{
    valid_cadence, valid_network, CadenceView, CollectionId, NetworkTransferPolicy, NetworkView,
    ScheduleCadence,
};
use crate::protocol::{Mutation, MutationView};
use crate::wire::{
    be, flag_bytes, from_be, lemma_be, lemma_from_be, lemma_pow256, put_flag, put_u32, put_u64, put_u8,
    Reader,
};

verus! {

/// Versioned extension name used to configure one collection schedule.
pub const SET_COLLECTION_SCHEDULE_EXTENSION: &'static str = "set-collection-schedule-v1";

/// Versioned extension name used to configure the library-wide network policy.
pub const SET_NETWORK_TRANSFER_POLICY_EXTENSION: &'static str = "set-network-transfer-policy-v1";

/// The kind and value fields of a cadence.
pub open spec fn cadence_fields(cadence: CadenceView) -> (u8, u32) {
    match cadence {
        CadenceView::Manual => (0, 0),
        CadenceView::Interval(seconds) => (1, seconds),
        CadenceView::DailyUtc(seconds) => (2, seconds),
    }
}

/// Collection, cadence kind, cadence value, jitter and pause flag.
pub open spec fn schedule_payload(
    collection_id: u64,
    cadence: CadenceView,
    jitter_seconds: u32,
    paused: bool,
) -> Seq<u8> {
    be(collection_id as nat, 8) + be(cadence_fields(cadence).0 as nat, 1) + be(
        cadence_fields(cadence).1 as nat,
        4,
    ) + be(jitter_seconds as nat, 4) + flag_bytes(paused)
}

/// Creates the bounded extension mutation for a collection schedule.
pub fn set_collection_schedule_mutation(
    collection_id: u64,
    cadence: ScheduleCadence,
    jitter_seconds: u32,
    paused: bool,
) -> (mutation: Mutation)
    ensures
        mutation@ == (MutationView::Extension {
            name: SET_COLLECTION_SCHEDULE_EXTENSION@,
            payload: schedule_payload(collection_id, cadence@, jitter_seconds, paused),
        }),
{
    let (kind, value): (u8, u32) = match cadence {
        ScheduleCadence::Manual => (0, 0),
        ScheduleCadence::Interval(interval) => (1, interval.seconds()),
        ScheduleCadence::DailyUtc(time) => (2, time.seconds_after_midnight()),
    };
    let mut payload: Vec<u8> = Vec::new();
    put_u64(&mut payload, collection_id);
    put_u8(&mut payload, kind);
    put_u32(&mut payload, value);
    put_u32(&mut payload, jitter_seconds);
    put_flag(&mut payload, paused);
    proof {
        assert(payload@ =~= schedule_payload(collection_id, cadence@, jitter_seconds, paused));
    }
    Mutation::Extension { name: SET_COLLECTION_SCHEDULE_EXTENSION.to_owned(), payload }
}

/// Requests, rate (zero for none) and metered flag.
pub open spec fn policy_payload(policy: NetworkView) -> Seq<u8> {
    be(policy.max_concurrent_requests as nat, 4) + be(
        match policy.max_download_bytes_per_second {
            Some(rate) => rate as nat,
            None => 0,
        },
        8,
    ) + flag_bytes(policy.avoid_metered_networks)
}

/// Creates the bounded extension mutation for the network transfer policy.
pub fn set_network_transfer_policy_mutation(policy: NetworkTransferPolicy) -> (mutation: Mutation)
    ensures
        mutation@ == (MutationView::Extension {
            name: SET_NETWORK_TRANSFER_POLICY_EXTENSION@,
            payload: policy_payload(policy@),
        }),
{
    let mut payload: Vec<u8> = Vec::new();
    put_u32(&mut payload, policy.max_concurrent_requests());
    put_u64(
        &mut payload,
        match policy.max_download_bytes_per_second() {
            Some(rate) => rate,
            None => 0,
        },
    );
    put_flag(&mut payload, policy.avoid_metered_networks());
    proof {
        assert(payload@ =~= policy_payload(policy@));
    }
    Mutation::Extension { name: SET_NETWORK_TRANSFER_POLICY_EXTENSION.to_owned(), payload }
}

/// The length of a schedule payload.
pub const SCHEDULE_PAYLOAD_BYTES: usize = 18;

/// The length of a policy payload.
pub const POLICY_PAYLOAD_BYTES: usize = 13;

/// A schedule that a collection is to have.
#[derive(Clone, Copy, Debug, PartialEq, Eq)]
pub struct ScheduleOrder {
    pub collection_id: CollectionId,
    pub cadence: ScheduleCadence,
    pub jitter_seconds: u32,
    pub paused: bool,
}

impl View for ScheduleOrder {
    type V = (u64, CadenceView, u32, bool);

    open spec fn view(&self) -> (u64, CadenceView, u32, bool) {
        (self.collection_id@, self.cadence@, self.jitter_seconds, self.paused)
    }
}

/// The valid cadence with a kind and a value.
pub open spec fn cadence_of(kind: u8, value: u32) -> Option<CadenceView> {
    if kind == 0 && value == 0 {
        Some(CadenceView::Manual)
    } else if kind == 1 && valid_cadence(CadenceView::Interval(value)) {
        Some(CadenceView::Interval(value))
    } else if kind == 2 && valid_cadence(CadenceView::DailyUtc(value)) {
        Some(CadenceView::DailyUtc(value))
    } else {
        None
    }
}

/// The schedule that a payload orders: its fields in order, with nothing before or after.
pub open spec fn ordered_schedule(payload: Seq<u8>) -> Option<(u64, CadenceView, u32, bool)> {
    if payload.len() != SCHEDULE_PAYLOAD_BYTES {
        None
    } else {
        let collection_id = from_be(payload.subrange(0, 8)) as u64;
        let value = from_be(payload.subrange(9, 13)) as u32;
        let jitter = from_be(payload.subrange(13, 17)) as u32;
        match cadence_of(payload[8], value) {
            Some(cadence) => if collection_id > 0 && payload[17] <= 1 {
                Some((collection_id, cadence, jitter, payload[17] == 1))
            } else {
                None
            },
            None => None,
        }
    }
}

/// The policy that a payload orders: its fields in order, with nothing before or after.
pub open spec fn ordered_policy(payload: Seq<u8>) -> Option<NetworkView> {
    if payload.len() != POLICY_PAYLOAD_BYTES {
        None
    } else {
        let rate = from_be(payload.subrange(4, 12)) as u64;
        let policy = NetworkView {
            max_concurrent_requests: from_be(payload.subrange(0, 4)) as u32,
            max_download_bytes_per_second: if rate == 0 {
                None
            } else {
                Some(rate)
            },
            avoid_metered_networks: payload[12] == 1,
        };
        if valid_network(policy) && payload[12] <= 1 {
            Some(policy)
        } else {
            None
        }
    }
}

fn cadence_from(kind: u8, value: u32) -> (cadence: Option<ScheduleCadence>)
    ensures
        match cadence {
            Some(cadence) => cadence_of(kind, value) == Some(cadence@),
            None => cadence_of(kind, value) is None,
        },
{
    if kind == 0 && value == 0 {
        return Some(ScheduleCadence::Manual);
    }
    if kind == 1 {
        return match ScheduleCadence::interval(value) {
            Ok(cadence) => Some(cadence),
            Err(_) => None,
        };
    }
    if kind == 2 {
        return match ScheduleCadence::daily_utc(value) {
            Ok(cadence) => Some(cadence),
            Err(_) => None,
        };
    }
    None
}

fn read_schedule(payload: &[u8]) -> (order: Option<ScheduleOrder>)
    ensures
        match order {
            Some(order) => ordered_schedule(payload@) == Some(order@),
            None => ordered_schedule(payload@) is None,
        },
{
    if payload.len() != SCHEDULE_PAYLOAD_BYTES {
        return None;
    }
    let mut reader = Reader::new(payload);
    let id: u64 = reader.u64()?;
    let kind: u8 = reader.u8()?;
    let value: u32 = reader.u32()?;
    let jitter_seconds: u32 = reader.u32()?;
    let flag: u8 = reader.u8()?;
    proof {
        lemma_byte(payload@, 8);
        lemma_byte(payload@, 17);
        let after_id = payload@.subrange(8, 18);
        let after_kind = after_id.subrange(1, 10);
        let after_value = after_kind.subrange(4, 9);
        let after_jitter = after_value.subrange(4, 5);
        assert(after_id.subrange(0, 1) =~= payload@.subrange(8, 9));
        assert(after_kind.subrange(0, 4) =~= payload@.subrange(9, 13));
        assert(after_value.subrange(0, 4) =~= payload@.subrange(13, 17));
        assert(after_jitter.subrange(0, 1) =~= payload@.subrange(17, 18));
    }
    let cadence = cadence_from(kind, value)?;
    if flag > 1 {
        return None;
    }
    match CollectionId::new(id) {
        Ok(collection_id) => Some(
            ScheduleOrder { collection_id, cadence, jitter_seconds, paused: flag == 1 },
        ),
        Err(_) => None,
    }
}

/// Decodes the schedule that a collection is to have.
pub fn decode_collection_schedule(payload: &[u8]) -> (r: Result<ScheduleOrder, OperationError>)
    ensures
        match r {
            Ok(order) => ordered_schedule(payload@) == Some(order@),
            Err(error) => ordered_schedule(payload@) is None && error@ == failure(
                "invalid collection schedule payload"@,
            ),
        },
{
    match read_schedule(payload) {
        Some(order) => Ok(order),
        None => Err(OperationError::failed("invalid collection schedule payload")),
    }
}

fn read_policy(payload: &[u8]) -> (policy: Option<NetworkTransferPolicy>)
    ensures
        match policy {
            Some(policy) => ordered_policy(payload@) == Some(policy@),
            None => ordered_policy(payload@) is None,
        },
{
    if payload.len() != POLICY_PAYLOAD_BYTES {
        return None;
    }
    let mut reader = Reader::new(payload);
    let requests: u32 = reader.u32()?;
    let bytes_per_second: u64 = reader.u64()?;
    let flag: u8 = reader.u8()?;
    proof {
        lemma_byte(payload@, 12);
        let after_requests = payload@.subrange(4, 13);
        let after_rate = after_requests.subrange(8, 9);
        assert(after_requests.subrange(0, 8) =~= payload@.subrange(4, 12));
        assert(after_rate.subrange(0, 1) =~= payload@.subrange(12, 13));
    }
    if flag > 1 {
        return None;
    }
    let rate: Option<u64> = if bytes_per_second == 0 {
        None
    } else {
        Some(bytes_per_second)
    };
    match NetworkTransferPolicy::new(requests, rate, flag == 1) {
        Ok(policy) => Some(policy),
        Err(_) => None,
    }
}

/// Decodes the network policy that a library is to have.
pub fn decode_network_transfer_policy(payload: &[u8]) -> (r: Result<
    NetworkTransferPolicy,
    OperationError,
>)
    ensures
        match r {
            Ok(policy) => ordered_policy(payload@) == Some(policy@),
            Err(error) => ordered_policy(payload@) is None && error@ == failure(
                "invalid network transfer policy payload"@,
            ),
        },
{
    match read_policy(payload) {
        Some(policy) => Ok(policy),
        None => Err(OperationError::failed("invalid network transfer policy payload")),
    }
}

proof fn lemma_byte(bytes: Seq<u8>, at: int)
    requires
        0 <= at < bytes.len(),
    ensures
        from_be(bytes.subrange(at, at + 1)) == bytes[at],
{
    reveal_with_fuel(from_be, 2);
}

/// Whether a flag is set, as the number that is written for it.
spec fn flag_number(flag: bool) -> nat {
    if flag {
        1
    } else {
        0
    }
}

proof fn lemma_schedule_fields(
    collection_id: u64,
    cadence: CadenceView,
    jitter_seconds: u32,
    paused: bool,
)
    ensures
        ({
            let payload = schedule_payload(collection_id, cadence, jitter_seconds, paused);
            &&& payload.len() == 18
            &&& from_be(payload.subrange(0, 8)) == collection_id
            &&& from_be(payload.subrange(8, 9)) == cadence_fields(cadence).0
            &&& from_be(payload.subrange(9, 13)) == cadence_fields(cadence).1
            &&& from_be(payload.subrange(13, 17)) == jitter_seconds
            &&& from_be(payload.subrange(17, 18)) == flag_number(paused)
        }),
{
    lemma_pow256();
    let (kind, value) = cadence_fields(cadence);
    lemma_be(collection_id as nat, 8);
    lemma_be(kind as nat, 1);
    lemma_be(value as nat, 4);
    lemma_be(jitter_seconds as nat, 4);
    lemma_be(flag_number(paused), 1);
    let payload = schedule_payload(collection_id, cadence, jitter_seconds, paused);
    assert(payload.subrange(0, 8) =~= be(collection_id as nat, 8));
    assert(payload.subrange(8, 9) =~= be(kind as nat, 1));
    assert(payload.subrange(9, 13) =~= be(value as nat, 4));
    assert(payload.subrange(13, 17) =~= be(jitter_seconds as nat, 4));
    assert(payload.subrange(17, 18) =~= be(flag_number(paused), 1));
}

/// A schedule payload has eighteen bytes and names exactly one schedule.
pub proof fn law_schedule_payload_is_unambiguous(
    first: (u64, CadenceView, u32, bool),
    second: (u64, CadenceView, u32, bool),
)
    ensures
        schedule_payload(first.0, first.1, first.2, first.3).len() == 18,
        schedule_payload(first.0, first.1, first.2, first.3) == schedule_payload(
            second.0,
            second.1,
            second.2,
            second.3,
        ) ==> first == second,
{
    lemma_schedule_fields(first.0, first.1, first.2, first.3);
    lemma_schedule_fields(second.0, second.1, second.2, second.3);
}

/// The daemon reads a schedule as it was ordered.
pub proof fn law_schedule_payload_round_trip(order: (u64, CadenceView, u32, bool))
    requires
        order.0 > 0,
        valid_cadence(order.1),
    ensures
        ordered_schedule(schedule_payload(order.0, order.1, order.2, order.3)) == Some(order),
{
    let payload = schedule_payload(order.0, order.1, order.2, order.3);
    lemma_schedule_fields(order.0, order.1, order.2, order.3);
    lemma_byte(payload, 8);
    lemma_byte(payload, 17);
}

proof fn lemma_policy_fields(policy: NetworkView)
    ensures
        ({
            let payload = policy_payload(policy);
            &&& payload.len() == 13
            &&& from_be(payload.subrange(0, 4)) == policy.max_concurrent_requests
            &&& from_be(payload.subrange(4, 12)) == (match policy.max_download_bytes_per_second {
                Some(rate) => rate as nat,
                None => 0,
            })
            &&& from_be(payload.subrange(12, 13)) == flag_number(policy.avoid_metered_networks)
        }),
{
    lemma_pow256();
    let rate: nat = match policy.max_download_bytes_per_second {
        Some(rate) => rate as nat,
        None => 0,
    };
    lemma_be(policy.max_concurrent_requests as nat, 4);
    lemma_be(rate, 8);
    lemma_be(flag_number(policy.avoid_metered_networks), 1);
    let payload = policy_payload(policy);
    assert(payload.subrange(0, 4) =~= be(policy.max_concurrent_requests as nat, 4));
    assert(payload.subrange(4, 12) =~= be(rate, 8));
    assert(payload.subrange(12, 13) =~= be(flag_number(policy.avoid_metered_networks), 1));
}

/// A policy payload has thirteen bytes and names exactly one valid policy.
pub proof fn law_policy_payload_is_unambiguous(first: NetworkView, second: NetworkView)
    requires
        valid_network(first),
        valid_network(second),
    ensures
        policy_payload(first).len() == 13,
        policy_payload(first) == policy_payload(second) ==> first == second,
{
    lemma_policy_fields(first);
    lemma_policy_fields(second);
}

/// The daemon reads a network policy as it was ordered.
pub proof fn law_policy_payload_round_trip(policy: NetworkView)
    requires
        valid_network(policy),
    ensures
        ordered_policy(policy_payload(policy)) == Some(policy),
{
    lemma_policy_fields(policy);
    lemma_byte(policy_payload(policy), 12);
}

/// An order for a schedule is read by the daemon as exactly that order, whatever it is.
pub proof fn law_schedule_orders_arrive(
    collection_id: u64,
    cadence: ScheduleCadence,
    jitter_seconds: u32,
    paused: bool,
    mutation: Mutation,
    payload: &[u8],
    r: Result<ScheduleOrder, OperationError>,
)
    requires
        collection_id > 0,
        valid_cadence(cadence@),
        call_ensures(
            set_collection_schedule_mutation,
            (collection_id, cadence, jitter_seconds, paused),
            mutation,
        ),
        mutation@ matches MutationView::Extension { name, payload: sent } && payload@ == sent,
        call_ensures(decode_collection_schedule, (payload,), r),
    ensures
        mutation@ matches MutationView::Extension { name, payload: sent } && name
            == "set-collection-schedule-v1"@ && sent.len() == 18,
        r matches Ok(order) && order.collection_id@ == collection_id && order.cadence@ == cadence@
            && order.jitter_seconds == jitter_seconds && order.paused == paused,
{
    law_schedule_payload_round_trip((collection_id, cadence@, jitter_seconds, paused));
    lemma_schedule_fields(collection_id, cadence@, jitter_seconds, paused);
}

/// An order for a network policy is read by the daemon as exactly that policy.
pub proof fn law_policy_orders_arrive(
    policy: NetworkTransferPolicy,
    mutation: Mutation,
    payload: &[u8],
    r: Result<NetworkTransferPolicy, OperationError>,
)
    requires
        valid_network(policy@),
        call_ensures(set_network_transfer_policy_mutation, (policy,), mutation),
        mutation@ matches MutationView::Extension { name, payload: sent } && payload@ == sent,
        call_ensures(decode_network_transfer_policy, (payload,), r),
    ensures
        mutation@ matches MutationView::Extension { name, payload: sent } && name
            == "set-network-transfer-policy-v1"@ && sent.len() == 13,
        r matches Ok(read) && read@ == policy@,
{
    law_policy_payload_round_trip(policy@);
    lemma_policy_fields(policy@);
}

/// The bytes of a schedule order: the collection, the kind of cadence, its value, the jitter
/// and the pause flag, each highest byte first. Any other length, an unknown kind, a flag that
/// is neither set nor clear, and the collection zero are refused.
pub proof fn law_schedule_orders_have_one_form(
    payload: &[u8],
    r: Result<ScheduleOrder, OperationError>,
)
    requires
        call_ensures(decode_collection_schedule, (payload,), r),
    ensures
        r is Ok ==> payload@.len() == 18 && payload@[8] <= 2 && payload@[17] <= 1,
        r matches Ok(order) ==> {
            let p = payload@;
            let value = p[9] * 0x100_0000 + p[10] * 0x1_0000 + p[11] * 0x100 + p[12];
            &&& order.paused <==> p[17] == 1
            &&& order.jitter_seconds == p[13] * 0x100_0000 + p[14] * 0x1_0000 + p[15] * 0x100
                + p[16]
            &&& p[8] == 0 ==> order.cadence@ is Manual && value == 0
            &&& p[8] == 1 ==> order.cadence@ == CadenceView::Interval(value as u32) && value > 0
            &&& p[8] == 2 ==> order.cadence@ == CadenceView::DailyUtc(value as u32) && value
                < 86_400
            &&& order.collection_id@ > 0
        },
        payload@.len() == 18 && payload@[8] == 0 && payload@[9] == 0 && payload@[10] == 0
            && payload@[11] == 0 && payload@[12] == 0 && payload@[17] <= 1 && payload@[7] > 0
            ==> r is Ok,
{
    if payload@.len() == 18 {
        lemma_word(payload@, 9);
        lemma_word(payload@, 13);
        lemma_pow256();
        lemma_from_be(payload@.subrange(0, 8));
        assert(payload@.subrange(0, 8).last() == payload@[7]);
    }
}

proof fn lemma_word(bytes: Seq<u8>, at: int)
    requires
        0 <= at <= bytes.len() - 4,
    ensures
        from_be(bytes.subrange(at, at + 4)) == bytes[at] * 0x100_0000 + bytes[at + 1] * 0x1_0000
            + bytes[at + 2] * 0x100 + bytes[at + 3],
{
    reveal_with_fuel(from_be, 5);
    let word = bytes.subrange(at, at + 4);
    assert(word.drop_last().drop_last().drop_last().drop_last() =~= Seq::<u8>::empty());
}

} // verus!
