//! Pure schedule calculation and restart/sleep recovery.
//!
//! Scheduled timestamps carry deterministic, delay-only jitter. Keeping jitter below one
//! cadence period preserves occurrence order, while deriving it from the collection and
//! nominal timestamp makes restart calculations reproducible.

use vstd::prelude::*;

use crate::model::{valid_cadence, CadenceView, ScheduleCadence, SECONDS_PER_DAY};

verus! {

pub const JITTER_DOMAIN: u64 = 0x5753_4a49_5454_4552;

/// A recovery calculation for one durable collection schedule.
#[derive(Clone, Copy, Debug, PartialEq, Eq, Structural)]
pub struct RecoveryDecision {
    /// The persisted occurrence that should be claimed once, if it is due.
    pub due_at: Option<u64>,
    /// The occurrence to persist after a successful claim, or the initialized
    /// occurrence when the schedule did not previously have one.
    pub next_run_at: Option<u64>,
}

/// Seconds between two boundaries of a cadence.
pub open spec fn period(cadence: CadenceView) -> int {
    match cadence {
        CadenceView::Manual => 0,
        CadenceView::Interval(seconds) => seconds as int,
        CadenceView::DailyUtc(seconds) => SECONDS_PER_DAY as int,
    }
}

/// The nominal timestamps of a cadence: multiples of an interval since the Unix epoch, or
/// one time of every UTC day.
pub open spec fn on_boundary(cadence: CadenceView, timestamp: int) -> bool {
    match cadence {
        CadenceView::Manual => false,
        CadenceView::Interval(seconds) => timestamp % (seconds as int) == 0,
        CadenceView::DailyUtc(seconds) => timestamp % (SECONDS_PER_DAY as int) == seconds,
    }
}

/// The first boundary at or after `lower`, which may be too large for 64 bits.
pub open spec fn first_boundary(cadence: CadenceView, lower: int, boundary: int) -> bool {
    &&& on_boundary(cadence, boundary)
    &&& lower <= boundary
    &&& forall|earlier: int|
        lower <= earlier < boundary ==> !#[trigger] on_boundary(cadence, earlier)
}

/// No boundary from `lower` on can be represented.
pub open spec fn no_boundary(cadence: CadenceView, lower: int) -> bool {
    forall|boundary: int|
        lower <= boundary <= u64::MAX ==> !#[trigger] on_boundary(cadence, boundary)
}

/// Two boundaries are at least one period apart.
pub proof fn lemma_boundaries_apart(cadence: CadenceView, earlier: int, later: int)
    requires
        valid_cadence(cadence),
        on_boundary(cadence, earlier),
        on_boundary(cadence, later),
        earlier < later,
    ensures
        earlier + period(cadence) <= later,
{
    let p = period(cadence);
    let phase = match cadence {
        CadenceView::DailyUtc(seconds) => seconds as int,
        _ => 0int,
    };
    let q = (earlier - phase) / p;
    let r = (later - phase) / p;
    assert(earlier == p * q + phase && later == p * r + phase) by {
        vstd::arithmetic::div_mod::lemma_fundamental_div_mod(earlier, p);
        vstd::arithmetic::div_mod::lemma_fundamental_div_mod(later, p);
        vstd::arithmetic::div_mod::lemma_fundamental_div_mod_converse(
            earlier - phase,
            p,
            earlier / p,
            0,
        );
        vstd::arithmetic::div_mod::lemma_fundamental_div_mod_converse(
            later - phase,
            p,
            later / p,
            0,
        );
    }
    assert(q + 1 <= r) by (nonlinear_arith)
        requires
            p > 0,
            p * q + phase < p * r + phase,
    ;
    assert(p * q + p <= p * r) by (nonlinear_arith)
        requires
            p > 0,
            q + 1 <= r,
    ;
}

/// A boundary less than a period after `lower` is the first one from there.
proof fn lemma_first_boundary(cadence: CadenceView, lower: int, boundary: int)
    requires
        valid_cadence(cadence),
        on_boundary(cadence, boundary),
        lower <= boundary < lower + period(cadence),
    ensures
        first_boundary(cadence, lower, boundary),
        boundary > u64::MAX ==> no_boundary(cadence, lower),
{
    assert forall|earlier: int| lower <= earlier < boundary implies !#[trigger] on_boundary(
        cadence,
        earlier,
    ) by {
        if on_boundary(cadence, earlier) {
            lemma_boundaries_apart(cadence, earlier, boundary);
        }
    }
}

proof fn lemma_interval_boundary(seconds: int, timestamp: int)
    requires
        seconds > 0,
        timestamp >= 0,
    ensures
        (timestamp / seconds + 1) * seconds % seconds == 0,
        timestamp < (timestamp / seconds + 1) * seconds <= timestamp + seconds,
{
    let q = timestamp / seconds;
    vstd::arithmetic::div_mod::lemma_fundamental_div_mod(timestamp, seconds);
    vstd::arithmetic::div_mod::lemma_mod_multiples_basic(q + 1, seconds);
    assert((q + 1) * seconds == seconds * q + seconds) by (nonlinear_arith);
}

/// Returns the next nominal cadence boundary strictly after `timestamp`.
///
/// `None` means that the cadence is manual or that the next boundary cannot be represented.
pub fn next_nominal_after(cadence: ScheduleCadence, timestamp: u64) -> (r: Option<u64>)
    ensures
        match r {
            Some(boundary) => first_boundary(cadence@, timestamp + 1, boundary as int),
            None => no_boundary(cadence@, timestamp + 1),
        },
{
    cadence.validity();
    match cadence {
        ScheduleCadence::Manual => None,
        ScheduleCadence::Interval(interval) => {
            let seconds: u64 = interval.seconds() as u64;
            let quotient: u64 = timestamp / seconds;
            proof {
                let boundary = (quotient + 1) * seconds;
                lemma_interval_boundary(seconds as int, timestamp as int);
                lemma_first_boundary(cadence@, timestamp + 1, boundary);
                assert(quotient + 1 <= boundary) by (nonlinear_arith)
                    requires
                        seconds > 0,
                        boundary == (quotient + 1) * seconds,
                ;
            }
            match quotient.checked_add(1) {
                Some(next) => next.checked_mul(seconds),
                None => None,
            }
        },
        ScheduleCadence::DailyUtc(time) => {
            let seconds: u64 = time.seconds_after_midnight() as u64;
            let day_start: u64 = timestamp - timestamp % SECONDS_PER_DAY;
            proof {
                let today = day_start + seconds;
                if today > timestamp {
                    lemma_first_boundary(cadence@, timestamp + 1, today);
                } else {
                    lemma_first_boundary(cadence@, timestamp + 1, today + SECONDS_PER_DAY);
                }
            }
            let today: u64 = match day_start.checked_add(seconds) {
                Some(today) => today,
                None => return None,
            };
            if today > timestamp {
                Some(today)
            } else {
                match day_start.checked_add(SECONDS_PER_DAY) {
                    Some(tomorrow) => tomorrow.checked_add(seconds),
                    None => None,
                }
            }
        },
    }
}

/// Returns the first nominal cadence boundary at or after `timestamp`.
pub fn nominal_at_or_after(cadence: ScheduleCadence, timestamp: u64) -> (r: Option<u64>)
    ensures
        match r {
            Some(boundary) => first_boundary(cadence@, timestamp as int, boundary as int),
            None => no_boundary(cadence@, timestamp as int),
        },
{
    cadence.validity();
    match cadence {
        ScheduleCadence::Manual => None,
        ScheduleCadence::Interval(interval) => {
            let seconds: u64 = interval.seconds() as u64;
            let remainder: u64 = timestamp % seconds;
            if remainder == 0 {
                proof {
                    lemma_first_boundary(cadence@, timestamp as int, timestamp as int);
                }
                Some(timestamp)
            } else {
                proof {
                    let boundary = timestamp + (seconds - remainder);
                    lemma_interval_boundary(seconds as int, timestamp as int);
                    vstd::arithmetic::div_mod::lemma_fundamental_div_mod(
                        timestamp as int,
                        seconds as int,
                    );
                    let q = timestamp as int / seconds as int;
                    assert((q + 1) * seconds == seconds * q + seconds) by (nonlinear_arith);
                    lemma_first_boundary(cadence@, timestamp as int, boundary);
                }
                timestamp.checked_add(seconds - remainder)
            }
        },
        ScheduleCadence::DailyUtc(time) => {
            let seconds: u64 = time.seconds_after_midnight() as u64;
            let day_start: u64 = timestamp - timestamp % SECONDS_PER_DAY;
            proof {
                let today = day_start + seconds;
                if today >= timestamp {
                    lemma_first_boundary(cadence@, timestamp as int, today);
                } else {
                    lemma_first_boundary(cadence@, timestamp as int, today + SECONDS_PER_DAY);
                }
            }
            let today: u64 = match day_start.checked_add(seconds) {
                Some(today) => today,
                None => return None,
            };
            if today >= timestamp {
                Some(today)
            } else {
                match day_start.checked_add(SECONDS_PER_DAY) {
                    Some(tomorrow) => tomorrow.checked_add(seconds),
                    None => None,
                }
            }
        },
    }
}

/// Jitter below one period, as configured; a manual cadence has none.
pub open spec fn jitter_ceiling(cadence: CadenceView, configured: u32) -> Option<u64> {
    if cadence is Manual {
        None
    } else if configured < period(cadence) {
        Some(configured as u64)
    } else {
        Some((period(cadence) - 1) as u64)
    }
}

/// Caps configured jitter below one period.
pub fn effective_jitter(cadence: ScheduleCadence, configured_seconds: u32) -> (r: Option<u64>)
    ensures
        r == jitter_ceiling(cadence@, configured_seconds),
{
    cadence.validity();
    let configured: u64 = configured_seconds as u64;
    let ceiling: u64 = match cadence {
        ScheduleCadence::Manual => return None,
        ScheduleCadence::Interval(interval) => interval.seconds() as u64 - 1,
        ScheduleCadence::DailyUtc(_) => SECONDS_PER_DAY - 1,
    };
    if configured < ceiling {
        Some(configured)
    } else {
        Some(ceiling)
    }
}

/// One round of the splitmix64 generator.
pub open spec fn splitmix(value: u64) -> u64 {
    let a = value.wrapping_add(0x9e37_79b9_7f4a_7c15);
    let b = (a ^ (a >> 30u64)).wrapping_mul(0xbf58_476d_1ce4_e5b9);
    let c = (b ^ (b >> 27u64)).wrapping_mul(0x94d0_49bb_1331_11eb);
    c ^ (c >> 31u64)
}

pub fn splitmix64(value: u64) -> (mixed: u64)
    ensures
        mixed == splitmix(value),
{
    let a: u64 = value.wrapping_add(0x9e37_79b9_7f4a_7c15);
    let b: u64 = (a ^ (a >> 30u64)).wrapping_mul(0xbf58_476d_1ce4_e5b9);
    let c: u64 = (b ^ (b >> 27u64)).wrapping_mul(0x94d0_49bb_1331_11eb);
    c ^ (c >> 31u64)
}

/// The delay of one occurrence, at most `maximum`.
pub open spec fn jitter(collection_id: u64, nominal: u64, maximum: u64) -> int {
    let rotated = (nominal << 29u64) | (nominal >> 35u64);
    splitmix(JITTER_DOMAIN ^ splitmix(collection_id) ^ splitmix(rotated)) as int % (maximum + 1)
}

/// Derives the delay of an occurrence from its collection and nominal timestamp.
pub fn deterministic_jitter(collection_id: u64, nominal: u64, maximum: u64) -> (delay: u64)
    requires
        maximum < u64::MAX,
    ensures
        delay == jitter(collection_id, nominal, maximum),
        delay <= maximum,
{
    if maximum == 0 {
        return 0;
    }
    let rotated: u64 = (nominal << 29u64) | (nominal >> 35u64);
    let mixed: u64 = splitmix64(
        JITTER_DOMAIN ^ splitmix64(collection_id) ^ splitmix64(rotated),
    );
    mixed % (maximum + 1)
}

/// The jittered timestamp of a nominal boundary, which may be too large for 64 bits.
pub open spec fn occurrence(
    cadence: CadenceView,
    collection_id: u64,
    nominal: u64,
    jitter_seconds: u32,
) -> int {
    nominal + jitter(collection_id, nominal, jitter_ceiling(cadence, jitter_seconds)->0)
}

/// Applies deterministic bounded jitter to a nominal occurrence.
///
/// `None` is returned for manual cadence or timestamp overflow.
pub fn jittered_occurrence(
    cadence: ScheduleCadence,
    collection_id: u64,
    nominal: u64,
    jitter_seconds: u32,
) -> (r: Option<u64>)
    ensures
        match r {
            Some(timestamp) => !(cadence is Manual) && timestamp == occurrence(
                cadence@,
                collection_id,
                nominal,
                jitter_seconds,
            ),
            None => cadence is Manual || occurrence(
                cadence@,
                collection_id,
                nominal,
                jitter_seconds,
            ) > u64::MAX,
        },
{
    cadence.validity();
    match effective_jitter(cadence, jitter_seconds) {
        None => None,
        Some(maximum) => nominal.checked_add(deterministic_jitter(collection_id, nominal, maximum)),
    }
}

/// A representable occurrence after `timestamp`.
pub open spec fn later_occurrence(
    cadence: CadenceView,
    collection_id: u64,
    jitter_seconds: u32,
    timestamp: u64,
    nominal: u64,
) -> bool {
    &&& on_boundary(cadence, nominal as int)
    &&& timestamp < occurrence(cadence, collection_id, nominal, jitter_seconds) <= u64::MAX
}

/// The earliest representable occurrence strictly after `timestamp`.
pub open spec fn earliest_occurrence(
    cadence: CadenceView,
    collection_id: u64,
    jitter_seconds: u32,
    timestamp: u64,
    earliest: u64,
) -> bool {
    &&& exists|nominal: u64|
        #![trigger later_occurrence(cadence, collection_id, jitter_seconds, timestamp, nominal)]
        later_occurrence(cadence, collection_id, jitter_seconds, timestamp, nominal) && occurrence(
            cadence,
            collection_id,
            nominal,
            jitter_seconds,
        ) == earliest
    &&& forall|nominal: u64|
        #![trigger later_occurrence(cadence, collection_id, jitter_seconds, timestamp, nominal)]
        later_occurrence(cadence, collection_id, jitter_seconds, timestamp, nominal) ==> earliest
            <= occurrence(cadence, collection_id, nominal, jitter_seconds)
}

/// The earliest occurrence strictly after `timestamp`, if any can be represented.
pub open spec fn next_occurrence(
    cadence: CadenceView,
    collection_id: u64,
    jitter_seconds: u32,
    timestamp: u64,
) -> Option<u64> {
    if exists|nominal: u64| #[trigger]
        later_occurrence(cadence, collection_id, jitter_seconds, timestamp, nominal) {
        Some(
            choose|earliest: u64|
                earliest_occurrence(cadence, collection_id, jitter_seconds, timestamp, earliest),
        )
    } else {
        None
    }
}

proof fn lemma_jitter_bounds(cadence: CadenceView, collection_id: u64, nominal: u64, jitter_seconds: u32)
    requires
        valid_cadence(cadence),
        !(cadence is Manual),
    ensures
        nominal <= occurrence(cadence, collection_id, nominal, jitter_seconds) <= nominal
            + jitter_ceiling(cadence, jitter_seconds)->0,
        jitter_ceiling(cadence, jitter_seconds)->0 < period(cadence),
        jitter_ceiling(cadence, jitter_seconds)->0 <= jitter_seconds,
{
    let maximum = jitter_ceiling(cadence, jitter_seconds)->0;
    let rotated = (nominal << 29u64) | (nominal >> 35u64);
    let mixed = splitmix(JITTER_DOMAIN ^ splitmix(collection_id) ^ splitmix(rotated)) as int;
    assert(0 <= mixed % (maximum + 1) <= maximum);
}

/// Jitter only delays an occurrence, by no more than configured and by less than a period.
pub proof fn law_jitter_is_bounded_and_delay_only(
    cadence: CadenceView,
    collection_id: u64,
    nominal: u64,
    jitter_seconds: u32,
)
    requires
        valid_cadence(cadence),
        !(cadence is Manual),
    ensures
        nominal <= occurrence(cadence, collection_id, nominal, jitter_seconds),
        occurrence(cadence, collection_id, nominal, jitter_seconds) <= nominal + jitter_seconds,
        occurrence(cadence, collection_id, nominal, jitter_seconds) < nominal + period(cadence),
{
    lemma_jitter_bounds(cadence, collection_id, nominal, jitter_seconds);
}

/// Jitter never reorders two boundaries of a cadence.
pub proof fn law_occurrences_keep_their_order(
    cadence: CadenceView,
    collection_id: u64,
    earlier: u64,
    later: u64,
    jitter_seconds: u32,
)
    requires
        valid_cadence(cadence),
        on_boundary(cadence, earlier as int),
        on_boundary(cadence, later as int),
        earlier < later,
    ensures
        occurrence(cadence, collection_id, earlier, jitter_seconds) < occurrence(
            cadence,
            collection_id,
            later,
            jitter_seconds,
        ),
{
    lemma_boundaries_apart(cadence, earlier as int, later as int);
    lemma_jitter_bounds(cadence, collection_id, earlier, jitter_seconds);
    lemma_jitter_bounds(cadence, collection_id, later, jitter_seconds);
}

/// Returns the earliest jittered occurrence strictly after `timestamp`.
///
/// The calculation is stable across process restarts and does not iterate over every
/// missed interval. It jumps to the small window in which jitter can affect whether an
/// occurrence is still pending.
pub fn next_occurrence_after(
    cadence: ScheduleCadence,
    collection_id: u64,
    jitter_seconds: u32,
    timestamp: u64,
) -> (r: Option<u64>)
    ensures
        r == next_occurrence(cadence@, collection_id, jitter_seconds, timestamp),
{
    cadence.validity();
    let ghost view = cadence@;
    let maximum: u64 = match effective_jitter(cadence, jitter_seconds) {
        Some(maximum) => maximum,
        None => return None,
    };
    let lower: u64 = timestamp.saturating_sub(maximum);
    proof {
        assert forall|m: u64| #[trigger]
            later_occurrence(view, collection_id, jitter_seconds, timestamp, m) implies m
            >= lower by {
            lemma_jitter_bounds(view, collection_id, m, jitter_seconds);
        }
    }
    let mut nominal: u64 = match nominal_at_or_after(cadence, lower) {
        Some(nominal) => nominal,
        None => return None,
    };
    loop
        invariant
            view == cadence@,
            valid_cadence(view),
            !(view is Manual),
            on_boundary(view, nominal as int),
            forall|m: u64| #[trigger]
                later_occurrence(view, collection_id, jitter_seconds, timestamp, m) ==> m
                    >= nominal,
        decreases u64::MAX - nominal,
    {
        let found: Option<u64> = jittered_occurrence(
            cadence,
            collection_id,
            nominal,
            jitter_seconds,
        );
        proof {
            assert forall|m: u64| #[trigger]
                later_occurrence(view, collection_id, jitter_seconds, timestamp, m) implies m
                == nominal || occurrence(view, collection_id, nominal, jitter_seconds)
                < occurrence(view, collection_id, m, jitter_seconds) by {
                if m != nominal {
                    law_occurrences_keep_their_order(
                        view,
                        collection_id,
                        nominal,
                        m,
                        jitter_seconds,
                    );
                }
            }
        }
        match found {
            None => return None,
            Some(timestamped) => {
                if timestamped > timestamp {
                    proof {
                        assert(later_occurrence(
                            view,
                            collection_id,
                            jitter_seconds,
                            timestamp,
                            nominal,
                        ));
                        assert(earliest_occurrence(
                            view,
                            collection_id,
                            jitter_seconds,
                            timestamp,
                            timestamped,
                        ));
                        let chosen = choose|earliest: u64|
                            earliest_occurrence(
                                view,
                                collection_id,
                                jitter_seconds,
                                timestamp,
                                earliest,
                            );
                        lemma_earliest_is_unique(
                            view,
                            collection_id,
                            jitter_seconds,
                            timestamp,
                            chosen,
                            timestamped,
                        );
                    }
                    return Some(timestamped);
                }
            },
        }
        match next_nominal_after(cadence, nominal) {
            None => return None,
            Some(next) => {
                proof {
                    assert forall|m: u64| #[trigger]
                        later_occurrence(
                            view,
                            collection_id,
                            jitter_seconds,
                            timestamp,
                            m,
                        ) implies m >= next by {
                        assert(m != nominal);
                    }
                }
                nominal = next;
            },
        }
    }
}

proof fn lemma_earliest_is_unique(
    cadence: CadenceView,
    collection_id: u64,
    jitter_seconds: u32,
    timestamp: u64,
    a: u64,
    b: u64,
)
    requires
        earliest_occurrence(cadence, collection_id, jitter_seconds, timestamp, a),
        earliest_occurrence(cadence, collection_id, jitter_seconds, timestamp, b),
    ensures
        a == b,
{
}

/// What recovery decides.
pub open spec fn recovery(
    cadence: CadenceView,
    collection_id: u64,
    jitter_seconds: u32,
    persisted_next_run_at: Option<u64>,
    now: u64,
) -> RecoveryDecision {
    if cadence is Manual {
        RecoveryDecision { due_at: None, next_run_at: None }
    } else {
        match persisted_next_run_at {
            Some(next_run_at) => if next_run_at <= now {
                RecoveryDecision {
                    due_at: Some(next_run_at),
                    next_run_at: next_occurrence(cadence, collection_id, jitter_seconds, now),
                }
            } else {
                RecoveryDecision { due_at: None, next_run_at: Some(next_run_at) }
            },
            None => RecoveryDecision {
                due_at: None,
                next_run_at: next_occurrence(cadence, collection_id, jitter_seconds, now),
            },
        }
    }
}

/// Selects at most one due run and advances past all other missed occurrences.
///
/// `persisted_next_run_at` is the compare-and-swap token used by durable storage. When it
/// is due, the caller should atomically claim that exact timestamp while storing
/// `next_run_at`. This produces one recovery run after sleep or restart instead of a
/// catch-up storm. When no occurrence was persisted, this initializes the schedule without
/// treating historical boundaries as missed work.
pub fn recover(
    cadence: ScheduleCadence,
    collection_id: u64,
    jitter_seconds: u32,
    persisted_next_run_at: Option<u64>,
    now: u64,
) -> (decision: RecoveryDecision)
    ensures
        decision == recovery(cadence@, collection_id, jitter_seconds, persisted_next_run_at, now),
{
    if let ScheduleCadence::Manual = cadence {
        return RecoveryDecision { due_at: None, next_run_at: None };
    }
    match persisted_next_run_at {
        Some(next_run_at) => {
            if next_run_at <= now {
                RecoveryDecision {
                    due_at: Some(next_run_at),
                    next_run_at: next_occurrence_after(
                        cadence,
                        collection_id,
                        jitter_seconds,
                        now,
                    ),
                }
            } else {
                RecoveryDecision { due_at: None, next_run_at: Some(next_run_at) }
            }
        },
        None => RecoveryDecision {
            due_at: None,
            next_run_at: next_occurrence_after(cadence, collection_id, jitter_seconds, now),
        },
    }
}

proof fn lemma_next_occurrence(
    cadence: CadenceView,
    collection_id: u64,
    jitter_seconds: u32,
    timestamp: u64,
    nominal: u64,
)
    requires
        later_occurrence(cadence, collection_id, jitter_seconds, timestamp, nominal),
    ensures
        exists|earliest: u64|
            earliest_occurrence(cadence, collection_id, jitter_seconds, timestamp, earliest),
    decreases occurrence(cadence, collection_id, nominal, jitter_seconds) - timestamp,
{
    let found = occurrence(cadence, collection_id, nominal, jitter_seconds);
    if earliest_occurrence(cadence, collection_id, jitter_seconds, timestamp, found as u64) {
    } else {
        let smaller = choose|m: u64| #[trigger]
            later_occurrence(cadence, collection_id, jitter_seconds, timestamp, m) && occurrence(
                cadence,
                collection_id,
                m,
                jitter_seconds,
            ) < found;
        lemma_next_occurrence(cadence, collection_id, jitter_seconds, timestamp, smaller);
    }
}

/// The next occurrence lies strictly in the future and is a jittered boundary.
pub proof fn law_next_occurrence_is_strictly_later(
    cadence: CadenceView,
    collection_id: u64,
    jitter_seconds: u32,
    timestamp: u64,
)
    ensures
        next_occurrence(cadence, collection_id, jitter_seconds, timestamp) matches Some(next)
            ==> next > timestamp && earliest_occurrence(
            cadence,
            collection_id,
            jitter_seconds,
            timestamp,
            next,
        ),
{
    if next_occurrence(cadence, collection_id, jitter_seconds, timestamp) is Some {
        let nominal = choose|m: u64| #[trigger]
            later_occurrence(cadence, collection_id, jitter_seconds, timestamp, m);
        lemma_next_occurrence(cadence, collection_id, jitter_seconds, timestamp, nominal);
    }
}

/// One recovery claims at most the persisted occurrence, and a second recovery at the same
/// time finds nothing due and keeps the cursor.
pub proof fn law_recovery_claims_at_most_once(
    cadence: CadenceView,
    collection_id: u64,
    jitter_seconds: u32,
    persisted_next_run_at: Option<u64>,
    now: u64,
)
    ensures
        ({
            let first = recovery(cadence, collection_id, jitter_seconds, persisted_next_run_at, now);
            let second = recovery(cadence, collection_id, jitter_seconds, first.next_run_at, now);
            &&& first.due_at is Some ==> first.due_at == persisted_next_run_at && first.due_at->0
                <= now
            &&& first.next_run_at matches Some(next) ==> next > now
            &&& second.due_at is None
            &&& second.next_run_at == first.next_run_at
        }),
{
    law_next_occurrence_is_strictly_later(cadence, collection_id, jitter_seconds, now);
}

/// A persisted occurrence that has come is claimed, whichever cadence it belongs to and
/// however long ago it was; one that has not come yet is kept, and without one nothing is due.
/// A manual collection never runs by itself.
pub proof fn law_missed_run_is_claimed(
    cadence: ScheduleCadence,
    collection_id: u64,
    jitter_seconds: u32,
    persisted_next_run_at: Option<u64>,
    now: u64,
    decision: RecoveryDecision,
)
    requires
        call_ensures(
            recover,
            (cadence, collection_id, jitter_seconds, persisted_next_run_at, now),
            decision,
        ),
    ensures
        cadence == ScheduleCadence::Manual ==> decision.due_at is None && decision.next_run_at
            is None,
        cadence != ScheduleCadence::Manual ==> {
            &&& decision.due_at is Some <==> persisted_next_run_at is Some
                && persisted_next_run_at->0 <= now
            &&& decision.due_at is Some ==> decision.due_at == persisted_next_run_at
            &&& persisted_next_run_at is Some && persisted_next_run_at->0 > now
                ==> decision.next_run_at == persisted_next_run_at
            &&& decision.next_run_at matches Some(next) ==> next > now
        },
{
    law_next_occurrence_is_strictly_later(cadence@, collection_id, jitter_seconds, now);
}

proof fn lemma_boundary_within_a_period(cadence: CadenceView, lower: int)
    requires
        valid_cadence(cadence),
        !(cadence is Manual),
    ensures
        exists|boundary: int|
            lower <= boundary < lower + period(cadence) && #[trigger] on_boundary(
                cadence,
                boundary,
            ),
{
    let p = period(cadence);
    let phase = match cadence {
        CadenceView::DailyUtc(seconds) => seconds as int,
        _ => 0,
    };
    let q = (phase - lower) / p;
    let r = (phase - lower) % p;
    vstd::arithmetic::div_mod::lemma_fundamental_div_mod(phase - lower, p);
    vstd::arithmetic::div_mod::lemma_mod_multiples_vanish(-q, phase, p);
    vstd::arithmetic::div_mod::lemma_small_mod(phase as nat, p as nat);
    assert(p * (-q) == -(p * q)) by (nonlinear_arith);
    assert(on_boundary(cadence, lower + r));
}

/// The boundaries of an interval are its multiples since the epoch, those of a daily time are
/// that time of every day; the next one is less than a period and a second away. A manual
/// cadence has none.
pub proof fn law_next_boundary_is_near(
    cadence: ScheduleCadence,
    timestamp: u64,
    after: Option<u64>,
    from: Option<u64>,
)
    requires
        valid_cadence(cadence@),
        call_ensures(next_nominal_after, (cadence, timestamp), after),
        call_ensures(nominal_at_or_after, (cadence, timestamp), from),
    ensures
        cadence == ScheduleCadence::Manual ==> after is None && from is None,
        cadence matches ScheduleCadence::Interval(interval) ==> {
            &&& after matches Some(next) ==> timestamp < next <= timestamp + interval@ && next % (
            interval@ as u64) == 0
            &&& from matches Some(next) ==> timestamp <= next < timestamp + interval@ && next % (
            interval@ as u64) == 0
            &&& timestamp <= u64::MAX - interval@ ==> after is Some && from is Some
        },
        cadence matches ScheduleCadence::DailyUtc(time) ==> {
            &&& after matches Some(next) ==> timestamp < next <= timestamp + 86_400 && next % 86_400
                == time@
            &&& from matches Some(next) ==> timestamp <= next < timestamp + 86_400 && next % 86_400
                == time@
            &&& timestamp <= u64::MAX - 86_400 ==> after is Some && from is Some
        },
{
    if !(cadence is Manual) {
        lemma_boundary_within_a_period(cadence@, timestamp + 1);
        lemma_boundary_within_a_period(cadence@, timestamp as int);
    }
}

/// Jitter is what was configured, but always less than the time between two runs.
pub proof fn law_jitter_stays_below_the_period(
    cadence: ScheduleCadence,
    configured: u32,
    r: Option<u64>,
)
    requires
        valid_cadence(cadence@),
        call_ensures(effective_jitter, (cadence, configured), r),
    ensures
        r is None <==> cadence == ScheduleCadence::Manual,
        cadence matches ScheduleCadence::Interval(interval) ==> r == Some(
            if configured < interval@ {
                configured as u64
            } else {
                (interval@ - 1) as u64
            },
        ),
        cadence is DailyUtc ==> r == Some(
            if configured < 86_400 {
                configured as u64
            } else {
                86_399
            },
        ),
{
}

/// Without jitter the next run is the next boundary.
pub proof fn law_without_jitter_runs_are_boundaries(
    cadence: ScheduleCadence,
    collection_id: u64,
    timestamp: u64,
    nominal: Option<u64>,
    run: Option<u64>,
)
    requires
        valid_cadence(cadence@),
        call_ensures(next_nominal_after, (cadence, timestamp), nominal),
        call_ensures(next_occurrence_after, (cadence, collection_id, 0u32, timestamp), run),
    ensures
        run == nominal,
{
    let view = cadence@;
    law_next_occurrence_is_strictly_later(view, collection_id, 0, timestamp);
    if !(view is Manual) {
        assert forall|m: u64| #[trigger]
            later_occurrence(view, collection_id, 0, timestamp, m) implies occurrence(
            view,
            collection_id,
            m,
            0,
        ) == m by {
            lemma_jitter_bounds(view, collection_id, m, 0);
        }
        match nominal {
            Some(boundary) => {
                lemma_jitter_bounds(view, collection_id, boundary, 0);
                assert(later_occurrence(view, collection_id, 0, timestamp, boundary));
                let next = run->0;
                let m = choose|m: u64| #[trigger]
                    later_occurrence(view, collection_id, 0, timestamp, m) && occurrence(
                        view,
                        collection_id,
                        m,
                        0,
                    ) == next;
                assert(on_boundary(view, m as int));
                assert(next <= boundary);
                assert(timestamp + 1 <= m <= boundary);
            },
            None => {
                if run is Some {
                    let m = choose|m: u64| #[trigger]
                        later_occurrence(view, collection_id, 0, timestamp, m);
                    assert(on_boundary(view, m as int));
                }
            },
        }
    }
}

/// What is due is claimed and the next run lies where the schedule puts it, however many runs
/// were missed in between.
pub proof fn law_recovery_moves_on_to_the_next_run(
    cadence: ScheduleCadence,
    collection_id: u64,
    jitter_seconds: u32,
    persisted_next_run_at: Option<u64>,
    now: u64,
    decision: RecoveryDecision,
    next: Option<u64>,
)
    requires
        call_ensures(
            recover,
            (cadence, collection_id, jitter_seconds, persisted_next_run_at, now),
            decision,
        ),
        call_ensures(next_occurrence_after, (cadence, collection_id, jitter_seconds, now), next),
        cadence != ScheduleCadence::Manual,
    ensures
        persisted_next_run_at is None || persisted_next_run_at->0 <= now ==> decision.next_run_at
            == next,
{
}

} // verus!
