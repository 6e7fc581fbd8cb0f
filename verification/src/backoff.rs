//! How long to wait before each retry.

use std::time::Duration;
use vstd::prelude::*;

verus! {

/// The delay, in milliseconds, that doubling starts from.
pub const BASE_DELAY_MS: u64 = 100;

/// The longest delay, in milliseconds.
pub const MAX_DELAY_MS: u64 = 10_000;

/// The delay before attempt `attempt`, in milliseconds: the base delay doubled
/// `attempt` times, or the longest delay where that is less.
pub open spec fn backoff_ms(attempt: nat) -> nat {
    let raw = BASE_DELAY_MS as nat * vstd::arithmetic::power2::pow2(attempt);
    if raw <= MAX_DELAY_MS {
        raw
    } else {
        MAX_DELAY_MS as nat
    }
}

/// What `std::time::Duration::from_millis` returns for `millis`.
pub uninterp spec fn duration_of_millis(millis: u64) -> Duration;

/// The duration that the library sleeps before attempt `attempt`.
pub open spec fn backoff_delay(attempt: nat) -> Duration {
    duration_of_millis(backoff_ms(attempt) as u64)
}

/// `std::time::Duration::from_millis` makes the duration of the given number of
/// milliseconds. A duration has no contents here: its contract names it by that
/// number alone.
pub assume_specification[ Duration::from_millis ](millis: u64) -> (duration: Duration)
    ensures
        duration == duration_of_millis(millis),
;

/// The delay before attempt `attempt`, in milliseconds.
///
/// | attempt | delay |
/// |---------|-------|
/// |    0    |   100 |
/// |    1    |   200 |
/// |    2    |   400 |
/// |    6    |  6400 |
/// |    7    | 10000 |
pub fn backoff_millis(attempt: u32) -> (millis: u64)
    ensures
        millis == backoff_ms(attempt as nat),
        millis == vstd::math::min(
            100int * vstd::arithmetic::power2::pow2(attempt as nat),
            10_000,
        ),
{
    let factor = power_of_two(attempt);
    match BASE_DELAY_MS.checked_mul(factor) {
        Some(raw) if raw <= MAX_DELAY_MS => raw,
        _ => MAX_DELAY_MS,
    }
}

/// Two to the power `exponent`, or the largest `u64` where that is less.
fn power_of_two(exponent: u32) -> (power: u64)
    ensures
        vstd::arithmetic::power2::pow2(exponent as nat) <= u64::MAX ==> power
            == vstd::arithmetic::power2::pow2(exponent as nat),
        vstd::arithmetic::power2::pow2(exponent as nat) > u64::MAX ==> power == u64::MAX,
{
    if exponent < u64::BITS {
        proof {
            vstd::bits::lemma_u64_pow2_no_overflow(exponent as nat);
            vstd::bits::lemma_u64_shl_is_mul(1, exponent as u64);
        }
        1u64 << (exponent as u64)
    } else {
        proof {
            vstd::arithmetic::power2::lemma2_to64_rest();
            if exponent > 64 {
                vstd::arithmetic::power2::lemma_pow2_strictly_increases(64, exponent as nat);
            }
        }
        u64::MAX
    }
}

/// The time to sleep before attempt `attempt`.
pub fn backoff_duration(attempt: u32) -> (delay: Duration)
    ensures
        delay == backoff_delay(attempt as nat),
        delay == duration_of_millis(
            vstd::math::min(
                100int * vstd::arithmetic::power2::pow2(attempt as nat),
                10_000,
            ) as u64,
        ),
{
    Duration::from_millis(backoff_millis(attempt))
}

/// The delay is a tenth of a second doubled once per attempt, and ten seconds
/// where that is more.
pub proof fn backoff_is_a_capped_power(attempt: nat)
    ensures
        backoff_ms(attempt) == vstd::math::min(
            100int * vstd::arithmetic::power2::pow2(attempt),
            10_000,
        ),
        backoff_delay(attempt) == duration_of_millis(
            vstd::math::min(100int * vstd::arithmetic::power2::pow2(attempt), 10_000) as u64,
        ),
{
}

/// No delay is shorter than the base delay or longer than the longest delay.
pub proof fn backoff_is_bounded(attempt: nat)
    ensures
        BASE_DELAY_MS <= backoff_ms(attempt) <= MAX_DELAY_MS,
        100 <= backoff_ms(attempt) <= 10_000,
{
    vstd::arithmetic::power2::lemma_pow2_pos(attempt);
}

/// A later attempt never waits less than an earlier one.
pub proof fn backoff_is_monotone(earlier: nat, later: nat)
    requires
        earlier <= later,
    ensures
        backoff_ms(earlier) <= backoff_ms(later),
{
    if earlier < later {
        vstd::arithmetic::power2::lemma_pow2_strictly_increases(earlier, later);
    }
}

/// From one attempt to the next the delay doubles, up to the longest delay.
pub proof fn backoff_doubles(attempt: nat)
    ensures
        backoff_ms(attempt + 1) == if 2 * backoff_ms(attempt) <= MAX_DELAY_MS {
            2 * backoff_ms(attempt)
        } else {
            MAX_DELAY_MS as nat
        },
{
    vstd::arithmetic::power2::lemma_pow2_unfold(attempt + 1);
}

/// The longest delay is reached exactly from attempt 7 on.
pub proof fn backoff_reaches_cap(attempt: nat)
    ensures
        backoff_ms(attempt) == MAX_DELAY_MS <==> attempt >= 7,
{
    vstd::arithmetic::power2::lemma2_to64();
    if attempt > 7 {
        vstd::arithmetic::power2::lemma_pow2_strictly_increases(7, attempt);
    } else if attempt < 6 {
        vstd::arithmetic::power2::lemma_pow2_strictly_increases(attempt, 6);
    }
}

} // verus!
