use wikisyncd::model::{ScheduleCadence, SECONDS_PER_DAY};
use wikisyncd::schedule::{
    effective_jitter, jittered_occurrence, next_nominal_after, next_occurrence_after,
    nominal_at_or_after, recover, splitmix64, RecoveryDecision,
};

fn interval(seconds: u32) -> ScheduleCadence {
    ScheduleCadence::interval(seconds).expect("valid interval")
}

fn daily(seconds_after_midnight: u32) -> ScheduleCadence {
    ScheduleCadence::daily_utc(seconds_after_midnight).expect("valid daily time")
}

#[test]
fn manual_cadence_has_no_occurrences() {
    assert_eq!(next_nominal_after(ScheduleCadence::Manual, 0), None);
    assert_eq!(
        next_occurrence_after(ScheduleCadence::Manual, 1, 0, 0),
        None
    );
    assert_eq!(
        recover(ScheduleCadence::Manual, 1, 0, Some(10), 10),
        RecoveryDecision {
            due_at: None,
            next_run_at: None,
        }
    );
}

#[test]
fn interval_boundaries_are_epoch_anchored_and_strict() {
    let cadence = interval(60);
    assert_eq!(next_nominal_after(cadence, 0), Some(60));
    assert_eq!(next_nominal_after(cadence, 59), Some(60));
    assert_eq!(next_nominal_after(cadence, 60), Some(120));
}

#[test]
fn daily_boundaries_cross_utc_midnight() {
    let cadence = daily(3_600);
    assert_eq!(next_nominal_after(cadence, 0), Some(3_600));
    assert_eq!(next_nominal_after(cadence, 3_600), Some(90_000));
    assert_eq!(next_nominal_after(cadence, 86_399), Some(90_000));
}

#[test]
fn jitter_is_deterministic_bounded_and_delay_only() {
    let cadence = interval(300);
    let nominal = 12_000;
    let first = jittered_occurrence(cadence, 41, nominal, 45).expect("occurrence");
    let second = jittered_occurrence(cadence, 41, nominal, 45).expect("occurrence");
    assert_eq!(first, second);
    assert!((nominal..=nominal + 45).contains(&first));

    let differs_for_a_key = (42..100).any(|collection_id| {
        jittered_occurrence(cadence, collection_id, nominal, 45) != Some(first)
    });
    assert!(differs_for_a_key);
}

#[test]
fn jitter_is_capped_below_interval_to_preserve_order() {
    let cadence = interval(60);
    for nominal in [0, 60, 120, 180] {
        let occurrence = jittered_occurrence(cadence, 7, nominal, u32::MAX).expect("occurrence");
        assert!((nominal..nominal + 60).contains(&occurrence));
    }
}

#[test]
fn next_occurrence_is_strict_and_can_use_a_pending_jitter_window() {
    let cadence = interval(300);
    let occurrence = next_occurrence_after(cadence, 99, 120, 10_000).expect("next");
    assert!(occurrence > 10_000);

    let nominal = occurrence - occurrence % 300;
    assert!(nominal <= 10_200);
    assert_eq!(
        jittered_occurrence(cadence, 99, nominal, 120),
        Some(occurrence)
    );
}

#[test]
fn missing_cursor_is_initialized_without_a_due_run() {
    let decision = recover(interval(60), 5, 10, None, 1_000);
    assert_eq!(decision.due_at, None);
    assert!(decision
        .next_run_at
        .is_some_and(|timestamp| timestamp > 1_000));
}

#[test]
fn a_future_cursor_is_preserved_exactly() {
    assert_eq!(
        recover(interval(60), 5, 10, Some(1_010), 1_000),
        RecoveryDecision {
            due_at: None,
            next_run_at: Some(1_010),
        }
    );
}

#[test]
fn long_gap_selects_one_due_run_and_jumps_to_the_future() {
    let cadence = interval(60);
    let now = 20 * 365 * SECONDS_PER_DAY;
    let decision = recover(cadence, 5, 20, Some(60), now);
    assert_eq!(decision.due_at, Some(60));
    assert!(decision
        .next_run_at
        .is_some_and(|timestamp| timestamp > now));

    let after_claim = recover(cadence, 5, 20, decision.next_run_at, now);
    assert_eq!(after_claim.due_at, None);
    assert_eq!(after_claim.next_run_at, decision.next_run_at);
}

#[test]
fn due_at_now_is_claimed_once() {
    let decision = recover(daily(0), 8, 0, Some(SECONDS_PER_DAY), SECONDS_PER_DAY);
    assert_eq!(decision.due_at, Some(SECONDS_PER_DAY));
    assert_eq!(decision.next_run_at, Some(2 * SECONDS_PER_DAY));
}

#[test]
fn timestamp_overflow_returns_no_later_occurrence() {
    let cadence = interval(60);
    assert_eq!(next_nominal_after(cadence, u64::MAX), None);
    assert_eq!(next_occurrence_after(cadence, 1, 10, u64::MAX), None);

    let decision = recover(cadence, 1, 10, Some(u64::MAX - 1), u64::MAX);
    assert_eq!(decision.due_at, Some(u64::MAX - 1));
    assert_eq!(decision.next_run_at, None);
}

#[test]
fn mixing_matches_the_published_generator() {
    assert_eq!(splitmix64(0), 0xe220_a839_7b1d_cdaf);
}

#[test]
fn occurrences_keep_their_order() {
    let cadence = interval(60);
    let mut last = 0;
    let mut nominal = 0;
    while nominal < 60_000 {
        let occurrence = jittered_occurrence(cadence, 3, nominal, 59).expect("occurrence");
        assert!(nominal == 0 || occurrence > last);
        last = occurrence;
        nominal += 60;
    }
    assert_eq!(effective_jitter(cadence, 600), Some(59));
    assert_eq!(effective_jitter(ScheduleCadence::Manual, 600), None);
    assert_eq!(nominal_at_or_after(cadence, 60), Some(60));
    assert_eq!(nominal_at_or_after(cadence, 61), Some(120));
}

#[test]
fn an_interval_is_any_positive_number_of_seconds() {
    assert!(ScheduleCadence::interval(0).is_err());
    assert_eq!(next_nominal_after(interval(1), 7), Some(8));
    assert_eq!(
        next_nominal_after(interval(u32::MAX), 1),
        Some(u64::from(u32::MAX))
    );
}
