use procyon::backoff::{Backoff, RetryPolicy, Verdict};

#[test]
fn exponential_delays_grow_from_the_base() {
    let backoff = Backoff::Exponential { base_millis: 100 };
    assert_eq!(backoff.delay_millis(0), 100);
    assert_eq!(backoff.delay_millis(1), 10_000);
    assert_eq!(backoff.delay_millis(2), 1_000_000);
    assert_eq!(backoff.delay_millis(3), 100_000_000);
}

#[test]
fn exponential_delays_of_base_two_double() {
    let backoff = Backoff::Exponential { base_millis: 2 };
    assert_eq!(backoff.delay_millis(0), 2);
    assert_eq!(backoff.delay_millis(1), 4);
    assert_eq!(backoff.delay_millis(2), 8);
    assert_eq!(backoff.delay_millis(10), 2048);
}

#[test]
fn exponential_delays_stop_at_the_largest_number() {
    let backoff = Backoff::Exponential { base_millis: u64::MAX };
    assert_eq!(backoff.delay_millis(0), u64::MAX);
    assert_eq!(backoff.delay_millis(1), u64::MAX);
    assert_eq!(backoff.delay_millis(255), u64::MAX);
}

#[test]
fn fixed_delays_stay() {
    let backoff = Backoff::Fixed { millis: 250 };
    assert_eq!(backoff.delay_millis(0), 250);
    assert_eq!(backoff.delay_millis(1), 250);
    assert_eq!(backoff.delay_millis(255), 250);
}

#[test]
fn a_policy_allows_as_many_attempts_as_it_says() {
    let policy = RetryPolicy { max_attempts: 3, backoff: Backoff::Fixed { millis: 1 } };
    assert!(policy.may_attempt(0));
    assert!(policy.may_attempt(1));
    assert!(policy.may_attempt(2));
    assert!(!policy.may_attempt(3));
    assert!(!policy.may_attempt(255));
    let none = RetryPolicy { max_attempts: 0, backoff: Backoff::Fixed { millis: 1 } };
    assert!(!none.may_attempt(0));
}

#[test]
fn a_failure_is_retried_until_the_attempts_are_used_up() {
    let policy =
        RetryPolicy { max_attempts: 3, backoff: Backoff::Exponential { base_millis: 100 } };
    assert_eq!(policy.after_failure(0), Verdict::RetryAfter { millis: 100 });
    assert_eq!(policy.after_failure(1), Verdict::RetryAfter { millis: 10_000 });
    assert_eq!(policy.after_failure(2), Verdict::GiveUp);
    assert_eq!(policy.after_failure(3), Verdict::GiveUp);
    assert_eq!(policy.after_failure(255), Verdict::GiveUp);
}

#[test]
fn a_single_attempt_is_never_retried() {
    let policy = RetryPolicy { max_attempts: 1, backoff: Backoff::Fixed { millis: 100 } };
    assert_eq!(policy.after_failure(0), Verdict::GiveUp);
    let none = RetryPolicy { max_attempts: 0, backoff: Backoff::Fixed { millis: 100 } };
    assert_eq!(none.after_failure(0), Verdict::GiveUp);
}

#[test]
fn the_largest_policy_retries_to_the_end() {
    let policy = RetryPolicy { max_attempts: 255, backoff: Backoff::Fixed { millis: 7 } };
    assert_eq!(policy.after_failure(253), Verdict::RetryAfter { millis: 7 });
    assert_eq!(policy.after_failure(254), Verdict::GiveUp);
    assert_eq!(policy.after_failure(255), Verdict::GiveUp);
}

#[test]
fn each_exponential_delay_is_the_base_times_the_one_before() {
    for base in [2u64, 3, 10, 100] {
        let backoff = Backoff::Exponential { base_millis: base };
        let mut last = backoff.delay_millis(0);
        assert_eq!(last, base);
        let mut index = 1u8;
        while last.checked_mul(base).map_or(false, |next| next < (1u64 << 53)) {
            let next = backoff.delay_millis(index);
            assert_eq!(next, last * base);
            assert!(next > last);
            last = next;
            index += 1;
        }
    }
}

#[test]
fn the_first_retry_waits_for_the_base() {
    for base in [0u64, 1, 100, u64::MAX] {
        let policy =
            RetryPolicy { max_attempts: 2, backoff: Backoff::Exponential { base_millis: base } };
        assert_eq!(policy.after_failure(0), Verdict::RetryAfter { millis: base });
    }
}
