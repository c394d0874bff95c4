use vstd::prelude::*;
use vstd::arithmetic::power2::{pow2, lemma2_to64};
use std::time::Duration;

verus! {

/// The power of two that a retry after `attempt` failures waits: the attempt count
/// less one, kept between 0 and 7.
pub open spec fn backoff_exponent(attempt: u32) -> nat {
    if attempt <= 1 {
        0
    } else if attempt >= 8 {
        7
    } else {
        (attempt - 1) as nat
    }
}

/// Seconds before retry number `attempt`: 2, 4, 8, ... up to 256.
pub open spec fn retry_delay_secs(attempt: u32) -> nat {
    pow2(backoff_exponent(attempt) + 1)
}

/// What `Duration::from_secs` gives for a number of seconds.
pub uninterp spec fn duration_of_secs(secs: u64) -> Duration;

/// `Duration::from_secs`. Claimed: the result depends on `secs` alone.
#[verifier::external_body]
fn duration_from_secs(secs: u64) -> (d: Duration)
    ensures
        d == duration_of_secs(secs),
{
    Duration::from_secs(secs)
}

/// The wait in seconds before retry number `attempt`.
pub fn retry_delay_seconds(attempt: u32) -> (s: u64)
    ensures
        s == retry_delay_secs(attempt),
{
    proof {
        lemma2_to64();
    }
    let exponent: u32 = if attempt <= 1 {
        0
    } else if attempt >= 8 {
        7
    } else {
        attempt - 1
    };
    let mut secs: u64 = 2;
    let mut k: u32 = 0;
    while k < exponent
        invariant
            exponent <= 7,
            k <= exponent,
            secs == pow2(k as nat + 1),
            pow2(8) == 256,
        decreases exponent - k,
    {
        proof {
            vstd::arithmetic::power2::lemma_pow2_unfold(k as nat + 2);
            if k + 2 < 8 {
                vstd::arithmetic::power2::lemma_pow2_strictly_increases(k as nat + 2, 8);
            }
        }
        secs = secs * 2;
        k = k + 1;
    }
    secs
}

/// The wait before retry number `attempt`, doubling from two seconds and capped at 256.
pub fn retry_delay(attempt: u32) -> (d: Duration)
    ensures
        d == duration_of_secs(retry_delay_secs(attempt) as u64),
{
    duration_from_secs(retry_delay_seconds(attempt))
}

/// Every retry waits between 2 and 256 seconds, and a later attempt never waits less.
pub proof fn lemma_retry_delay_bounded_and_monotone(a: u32, b: u32)
    requires
        a <= b,
    ensures
        2 <= retry_delay_secs(a) <= 256,
        retry_delay_secs(a) <= retry_delay_secs(b),
        a >= 8 ==> retry_delay_secs(a) == 256,
{
    lemma2_to64();
    if backoff_exponent(a) < backoff_exponent(b) {
        vstd::arithmetic::power2::lemma_pow2_strictly_increases(
            backoff_exponent(a) + 1,
            backoff_exponent(b) + 1,
        );
    }
    if backoff_exponent(a) < 7 {
        vstd::arithmetic::power2::lemma_pow2_strictly_increases(backoff_exponent(a) + 1, 8);
    }
    if backoff_exponent(a) > 0 {
        vstd::arithmetic::power2::lemma_pow2_strictly_increases(1, backoff_exponent(a) + 1);
    }
}

/// Exponential backoff up to a cap: from one attempt to the next the wait never shrinks
/// and at most doubles, it doubles exactly below attempt 8, and it never exceeds 256
/// seconds.
pub proof fn lemma_retry_delay_doubles_to_cap(a: u32)
    requires
        1 <= a < u32::MAX,
    ensures
        retry_delay_secs(a) <= retry_delay_secs((a + 1) as u32),
        retry_delay_secs((a + 1) as u32) <= 2 * retry_delay_secs(a),
        a < 8 ==> retry_delay_secs((a + 1) as u32) == 2 * retry_delay_secs(a),
        retry_delay_secs(a) <= 256,
{
    lemma2_to64();
    let b = (a + 1) as u32;
    lemma_retry_delay_bounded_and_monotone(a, b);
    if a < 8 {
        assert(backoff_exponent(b) == backoff_exponent(a) + 1);
        vstd::arithmetic::power2::lemma_pow2_unfold(backoff_exponent(b) + 1);
    } else {
        assert(backoff_exponent(b) == backoff_exponent(a));
    }
}

} // verus!
