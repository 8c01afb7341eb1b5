//! The wait before each fetch attempt.

use vstd::arithmetic::power2::{lemma_pow2_strictly_increases, lemma_pow2_unfold, pow2};
use vstd::prelude::*;

verus! {

/// The largest attempt index whose default delay still fits in a `u32`.
pub const MAX_BACKOFF_ATTEMPT: u32 = 33;

/// The default delay in seconds before attempt `attempt`: `(2^attempt - 1) / 2`,
/// rounded down.
pub open spec fn default_backoff_secs(attempt: nat) -> nat {
    ((pow2(attempt) - 1) / 2) as nat
}

/// For a positive attempt index the default delay is `2^(attempt - 1) - 1`.
pub proof fn lemma_default_backoff_closed_form(attempt: nat)
    requires
        attempt >= 1,
    ensures
        default_backoff_secs(attempt) == pow2((attempt - 1) as nat) - 1,
{
    lemma_pow2_unfold(attempt);
    vstd::arithmetic::power2::lemma_pow2_pos((attempt - 1) as nat);
}

/// The default delays never decrease as the attempt index grows.
pub proof fn lemma_default_backoff_monotonic(earlier: nat, later: nat)
    requires
        earlier <= later,
    ensures
        default_backoff_secs(earlier) <= default_backoff_secs(later),
{
    vstd::arithmetic::power2::lemma_pow2_pos(earlier);
    vstd::arithmetic::power2::lemma_pow2_pos(later);
    if earlier < later {
        lemma_pow2_strictly_increases(earlier, later);
    }
}

/// The default delays of the six attempts of one fetch: 0, 0, 1, 3, 7 and 15
/// seconds.
pub proof fn lemma_default_backoff_first_six()
    ensures
        default_backoff_secs(0) == 0,
        default_backoff_secs(1) == 0,
        default_backoff_secs(2) == 1,
        default_backoff_secs(3) == 3,
        default_backoff_secs(4) == 7,
        default_backoff_secs(5) == 15,
{
    vstd::arithmetic::power2::lemma2_to64();
}

/// The default backoff policy.
pub fn default_backoff(attempts: u32) -> (delay: u32)
    requires
        attempts <= MAX_BACKOFF_ATTEMPT,
    ensures
        delay == default_backoff_secs(attempts as nat),
{
    if attempts == 0 {
        proof {
            vstd::arithmetic::power2::lemma2_to64();
        }
        return 0;
    }
    let mut power: u64 = 1;
    let mut done: u32 = 1;
    proof {
        vstd::arithmetic::power2::lemma2_to64();
    }
    while done < attempts
        invariant
            1 <= done <= attempts <= MAX_BACKOFF_ATTEMPT,
            power == pow2((done - 1) as nat),
            power <= 0x1_0000_0000,
        decreases attempts - done,
    {
        proof {
            lemma_pow2_unfold(done as nat);
            if done < 32 {
                lemma_pow2_strictly_increases(done as nat, 32);
            }
            vstd::arithmetic::power2::lemma2_to64();
        }
        power = power * 2;
        done = done + 1;
    }
    proof {
        lemma_default_backoff_closed_form(attempts as nat);
    }
    (power - 1) as u32
}

} // verus!
