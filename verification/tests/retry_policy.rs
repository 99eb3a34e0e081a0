use async_stripe::retry_policy::{calculate_backoff, Outcome, RetryPolicy, MAX_BACKOFF_SECS};

#[test]
fn once_allows_the_first_attempt_only() {
    assert_eq!(RetryPolicy::Once.test(None, None, 0), Outcome::Continue(None));
    assert_eq!(RetryPolicy::Once.test(Some(500), None, 1), Outcome::Stop);
    assert_eq!(RetryPolicy::Once.test(None, None, 1), Outcome::Stop);
    assert_eq!(RetryPolicy::Once.test(None, None, u32::MAX), Outcome::Stop);
}

#[test]
fn no_retry_behaves_like_once() {
    for status in [None, Some(200), Some(404), Some(500)] {
        for hint in [None, Some(true), Some(false)] {
            for attempts in [0, 1, 2, 7] {
                assert_eq!(
                    RetryPolicy::NoRetry.test(status, hint, attempts),
                    RetryPolicy::Once.test(status, hint, attempts)
                );
            }
        }
    }
}

#[test]
fn retry_up_to_counts_attempts() {
    let policy = RetryPolicy::RetryUpTo(3);
    assert_eq!(policy.test(None, None, 0), Outcome::Continue(None));
    assert_eq!(policy.test(Some(500), None, 1), Outcome::Continue(Some(2)));
    assert_eq!(policy.test(Some(500), None, 2), Outcome::Continue(Some(4)));
    assert_eq!(policy.test(Some(500), None, 3), Outcome::Stop);
    assert_eq!(policy.test(Some(500), None, 4), Outcome::Stop);
    assert_eq!(RetryPolicy::RetryUpTo(0).test(None, None, 0), Outcome::Stop);
}

#[test]
fn retry_up_to_stops_on_client_errors() {
    let policy = RetryPolicy::RetryUpTo(5);
    assert_eq!(policy.test(Some(400), None, 1), Outcome::Stop);
    assert_eq!(policy.test(Some(404), Some(true), 1), Outcome::Stop);
    assert_eq!(policy.test(Some(499), None, 1), Outcome::Stop);
    assert_eq!(policy.test(Some(399), None, 1), Outcome::Continue(Some(2)));
    assert_eq!(policy.test(Some(500), None, 1), Outcome::Continue(Some(2)));
}

#[test]
fn a_hint_of_false_stops_every_policy() {
    for policy in [RetryPolicy::Once, RetryPolicy::NoRetry, RetryPolicy::RetryUpTo(9)] {
        assert_eq!(policy.test(None, Some(false), 0), Outcome::Stop);
        assert_eq!(policy.test(Some(500), Some(false), 1), Outcome::Stop);
    }
    assert_eq!(RetryPolicy::RetryUpTo(9).test(Some(500), Some(true), 1), Outcome::Continue(Some(2)));
}

#[test]
fn backoff_doubles_up_to_the_cap() {
    assert_eq!(calculate_backoff(0), 1);
    assert_eq!(calculate_backoff(1), 2);
    assert_eq!(calculate_backoff(2), 4);
    assert_eq!(calculate_backoff(3), 8);
    assert_eq!(calculate_backoff(5), 32);
    assert_eq!(calculate_backoff(6), 64);
    assert_eq!(calculate_backoff(7), 64);
    assert_eq!(calculate_backoff(40), 64);
    assert_eq!(calculate_backoff(u32::MAX), MAX_BACKOFF_SECS);
}

#[test]
fn backoff_never_shrinks_and_stays_bounded() {
    let mut last = 0;
    for attempts in 0..200 {
        let secs = calculate_backoff(attempts);
        assert!(secs >= last);
        assert!(secs >= 1 && secs <= MAX_BACKOFF_SECS);
        last = secs;
    }
}
