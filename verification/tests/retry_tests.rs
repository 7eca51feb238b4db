//! The establishment retry budget and its backoff schedule.

use aisdk::retry::RetryController;

#[test]
fn four_rate_limits_then_success_wait_1_2_4_8() {
    // Four consecutive rate-limited attempts order exactly four backoff
    // waits of 1, 2, 4 and 8 time units; the fifth attempt's result stands.
    let mut rc = RetryController::new();
    let mut waits: Vec<u64> = Vec::new();
    for _attempt in 0..4 {
        match rc.on_failure(true) {
            Some(w) => waits.push(w),
            None => panic!("the budget allows a retry here"),
        }
    }
    assert_eq!(waits, vec![1, 2, 4, 8]);
    // The fifth attempt succeeds: no further controller call is made, so its
    // result is surfaced as-is.
}

#[test]
fn the_fifth_rate_limit_is_surfaced_without_a_sixth_attempt() {
    let mut rc = RetryController::new();
    for _attempt in 0..4 {
        assert!(rc.on_failure(true).is_some());
    }
    assert_eq!(rc.on_failure(true), None);
    assert_eq!(rc.failures, 5);
}

#[test]
fn any_other_establishment_failure_is_surfaced_at_once() {
    let mut rc = RetryController::new();
    assert_eq!(rc.on_failure(false), None);
}

#[test]
fn a_rate_limit_after_another_failure_kind_still_counts_attempts() {
    let mut rc = RetryController::new();
    assert_eq!(rc.on_failure(true), Some(1));
    assert_eq!(rc.on_failure(false), None);
}
