use prism_rpc::backoff::{backoff_duration, backoff_millis, BASE_DELAY_MS, MAX_DELAY_MS};
use prism_rpc::text::decimal_text;
use std::time::Duration;

#[test]
fn backoff_increases_exponentially() {
    assert_eq!(backoff_duration(1), Duration::from_millis(200));
    assert_eq!(backoff_duration(2), Duration::from_millis(400));
    assert_eq!(backoff_duration(3), Duration::from_millis(800));
    assert_eq!(backoff_duration(4), Duration::from_millis(1_600));
    assert_eq!(backoff_duration(5), Duration::from_millis(3_200));
    assert_eq!(backoff_duration(6), Duration::from_millis(6_400));
}

#[test]
fn backoff_is_capped_at_max_delay() {
    // attempt 7: 100 * 128 = 12800 ms, more than the longest delay.
    assert_eq!(backoff_duration(7), Duration::from_millis(MAX_DELAY_MS));
    // A very large attempt must not overflow.
    assert_eq!(backoff_duration(63), Duration::from_millis(MAX_DELAY_MS));
}

#[test]
fn backoff_attempt_zero_returns_base_delay() {
    assert_eq!(backoff_duration(0), Duration::from_millis(BASE_DELAY_MS));
}

#[test]
fn backoff_is_capped_past_the_width_of_the_shift() {
    assert_eq!(backoff_millis(64), 10_000);
    assert_eq!(backoff_millis(65), 10_000);
    assert_eq!(backoff_millis(u32::MAX), 10_000);
}

#[test]
fn backoff_stays_between_base_and_max_and_never_shrinks() {
    let mut previous: u64 = 100;
    for attempt in 0..200u32 {
        let delay = backoff_millis(attempt);
        assert!(previous <= delay && delay <= 10_000);
        if attempt > 0 {
            assert_eq!(delay, std::cmp::min(2 * previous, 10_000));
        }
        previous = delay;
    }
}

#[test]
fn numerals_have_no_leading_zeros() {
    assert_eq!(decimal_text(0), "0");
    assert_eq!(decimal_text(9), "9");
    assert_eq!(decimal_text(10), "10");
    assert_eq!(decimal_text(1_234_567_890), "1234567890");
    assert_eq!(decimal_text(u32::MAX), "4294967295");
}
