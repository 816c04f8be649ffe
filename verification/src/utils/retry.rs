use vstd::prelude::*;

verus! {

/// The integer part of a retry configuration: how many attempts an operation gets, the
/// delay before the first retry, and the cap on every delay, in milliseconds.
#[derive(Debug, Clone, Copy, PartialEq, Eq, Structural)]
pub struct RetryPolicy {
    pub max_attempts: u32,
    pub base_delay_ms: u64,
    pub max_delay_ms: u64,
}

impl RetryPolicy {
    /// Eight attempts, one second before the first retry, at most a minute between attempts.
    pub fn standard() -> (r: RetryPolicy)
        ensures
            r == (RetryPolicy { max_attempts: 8, base_delay_ms: 1_000, max_delay_ms: 60_000 }),
    {
        RetryPolicy { max_attempts: 8, base_delay_ms: 1_000, max_delay_ms: 60_000 }
    }
}

/// What to do after attempt number `attempt` (counted from 1) failed.
#[derive(Debug, Clone, Copy, PartialEq, Eq, Structural)]
pub enum RetryStep {
    /// The last allowed attempt failed: report the error, with the number of attempts made.
    GiveUp { attempts: u32 },
    /// Wait this long, then make attempt `next_attempt`.
    RetryAfter { delay_ms: u64, next_attempt: u32 },
}

/// The step after attempt `attempt` failed while the current delay is `delay_ms`: give up
/// once `max_attempts` attempts were made, else wait the current delay and try again.
pub fn after_failure(policy: RetryPolicy, attempt: u32, delay_ms: u64) -> (r: RetryStep)
    requires
        attempt >= 1,
    ensures
        attempt >= policy.max_attempts ==> r == (RetryStep::GiveUp { attempts: attempt }),
        attempt < policy.max_attempts ==> r == (RetryStep::RetryAfter { delay_ms, next_attempt: (attempt + 1) as u32 }),
{
    if attempt >= policy.max_attempts {
        RetryStep::GiveUp { attempts: attempt }
    } else {
        RetryStep::RetryAfter { delay_ms, next_attempt: attempt + 1 }
    }
}

/// The delay before the next retry: the jittered, grown delay (`jittered_ms`, drawn at
/// random up to the current delay times the growth factor), capped at `max_delay_ms`.
pub fn next_delay(policy: RetryPolicy, jittered_ms: u64) -> (r: u64)
    ensures
        r == if jittered_ms < policy.max_delay_ms { jittered_ms } else { policy.max_delay_ms },
        r <= policy.max_delay_ms,
{
    if jittered_ms < policy.max_delay_ms {
        jittered_ms
    } else {
        policy.max_delay_ms
    }
}

/// The base delay of the older backoff strategy, in milliseconds.
pub const BACKOFF_BASE_DELAY_MS: u64 = 100;

/// The cap on the older backoff strategy's delay, in milliseconds.
pub const BACKOFF_MAX_DELAY_MS: u64 = 5_000;

/// The delay, in milliseconds, after failed attempt number `attempt` in the older backoff
/// strategy: the base delay doubled `attempt` times, capped at the maximum, plus a jitter
/// (`jitter_ms`, drawn at random from 0 to 50).
pub fn exponential_backoff(attempt: u32, jitter_ms: u64) -> (r: u64)
    requires
        attempt <= 57,
        jitter_ms <= 50,
    ensures
        r == (if BACKOFF_BASE_DELAY_MS * vstd::arithmetic::power2::pow2(attempt as nat) < BACKOFF_MAX_DELAY_MS {
            BACKOFF_BASE_DELAY_MS * vstd::arithmetic::power2::pow2(attempt as nat)
        } else {
            BACKOFF_MAX_DELAY_MS as int
        }) + jitter_ms,
{
    let mut v: u64 = BACKOFF_BASE_DELAY_MS;
    let mut i: u32 = 0;
    proof {
        vstd::arithmetic::power2::lemma2_to64();
    }
    while i < attempt && v < BACKOFF_MAX_DELAY_MS
        invariant
            i <= attempt,
            v == BACKOFF_BASE_DELAY_MS * vstd::arithmetic::power2::pow2(i as nat),
            v < 2 * BACKOFF_MAX_DELAY_MS,
        decreases attempt - i,
    {
        proof {
            vstd::arithmetic::power2::lemma_pow2_adds(i as nat, 1);
            vstd::arithmetic::power2::lemma2_to64();
        }
        v = v * 2;
        i = i + 1;
    }
    proof {
        if i < attempt {
            vstd::arithmetic::power2::lemma_pow2_strictly_increases(i as nat, attempt as nat);
        }
    }
    let capped = if v < BACKOFF_MAX_DELAY_MS { v } else { BACKOFF_MAX_DELAY_MS };
    capped + jitter_ms
}

} // verus!
